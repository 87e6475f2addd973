use rewards::decimal::append_decimal;
use rewards::factory::{gen_reward, RewardFactorySafe};
use rewards::handle::RewardCastError;
use rewards::reward::{RewardDto, RewardGroup};
use rewards::timestamp::Timestamp;
use rewards::variant::{ConstructionFault, Gem, Item, Reward, CURRENCY_TAG};

fn dto(group: RewardGroup, tag: &str, name: Option<&str>, url: Option<&str>) -> RewardDto {
    RewardDto {
        group,
        _type: String::from(tag),
        name: name.map(String::from),
        code: None,
        delta: 42,
        min: Some(1),
        max: Some(100),
        url: url.map(String::from),
        is_hidden: true,
        shelf_life: Timestamp::new(1_431_648_000, 0),
    }
}

fn decimal_of(n: u32) -> String {
    let mut text = String::from("n=");
    append_decimal(&mut text, n);
    text
}

#[test]
fn decimal_numerals() {
    assert_eq!(decimal_of(0), "n=0");
    assert_eq!(decimal_of(9), "n=9");
    assert_eq!(decimal_of(10), "n=10");
    assert_eq!(decimal_of(3000), "n=3000");
    assert_eq!(decimal_of(1_234_567_890), "n=1234567890");
    assert_eq!(decimal_of(u32::MAX), "n=4294967295");
}

#[test]
fn decimal_agrees_with_std() {
    for n in [1u32, 19, 100, 101, 999, 1000, 65_535, 65_536, 99_999_999] {
        assert_eq!(decimal_of(n), format!("n={}", n));
    }
}

#[test]
fn gem_display_contract() {
    let gem = Gem { delta: 3000, min: None, max: None, is_hidden: false };
    assert!(!gem.is_hidden());
    assert_eq!(gem.unit_image(), "Gem Image");
    assert_eq!(gem.image(), "Gem Image");
    assert_eq!(gem.fmt_string(), "3000 Currency");
    assert_eq!(gem.shine(), "bling bling");
}

#[test]
fn item_display_contract() {
    let item = Item {
        url: String::from("http://x/img.png"),
        name: String::from("Pouch"),
        shelf_life: None,
        delta: 1,
        is_hidden: true,
    };
    assert!(item.is_hidden());
    assert_eq!(item.unit_image(), "http://x/img.png");
    assert_eq!(item.image(), "http://x/img.png");
    assert_eq!(item.fmt_string(), "Pouch Item");
    assert!(item.expired_at(Timestamp::new(0, 0).unwrap()).is_none());
}

#[test]
fn unknown_display_contract() {
    let unknown = Reward::Unknown;
    assert!(!unknown.is_hidden());
    assert_eq!(unknown.unit_image(), "");
    assert_eq!(unknown.image(), "");
    assert_eq!(unknown.fmt_string(), "");
    assert!(unknown.get_shelf_life().is_none());
    assert!(!unknown.has_expired(Timestamp::new(0, 0).unwrap()));
    assert_eq!(unknown.fmt_expire_time(), "");
    assert!(unknown.try_display().is_none());
}

#[test]
fn gem_from_description() {
    let gem = Gem::from(dto(RewardGroup::ASSET, "whatever", None, None));
    assert_eq!((gem.delta, gem.min, gem.max, gem.is_hidden), (42, Some(1), Some(100), true));
}

#[test]
fn item_try_from_description() {
    let item =
        Item::try_from(dto(RewardGroup::ITEM, "t", Some("Pouch"), Some("u"))).expect("complete");
    assert_eq!(item.name, "Pouch");
    assert_eq!(item.url, "u");
    assert_eq!(item.delta, 42);
    assert!(item.is_hidden);
    assert_eq!(item.shelf_life.map(|t| t.secs()), Some(1_431_648_000));
    assert_eq!(
        Item::try_from(dto(RewardGroup::ITEM, "t", Some("Pouch"), None)).err(),
        Some(ConstructionFault::MissingUrl)
    );
    assert_eq!(
        Item::try_from(dto(RewardGroup::ITEM, "t", None, Some("u"))).err(),
        Some(ConstructionFault::MissingName)
    );
    assert_eq!(
        Item::try_from(dto(RewardGroup::ITEM, "t", None, None)).err(),
        Some(ConstructionFault::MissingUrl)
    );
}

#[test]
fn reward_from_gates_currency_by_its_tag() {
    assert_eq!(CURRENCY_TAG, "XP");
    let tagged = Reward::from(dto(RewardGroup::ASSET, "XP", None, None));
    assert!(matches!(tagged, Reward::Gem(Gem { delta: 42, is_hidden: true, .. })));
    assert_eq!(tagged.fmt_string(), "42 Currency");
    for tag in ["", "xp", "XP ", "1000XP"] {
        let other = Reward::from(dto(RewardGroup::ASSET, tag, None, None));
        assert!(matches!(other, Reward::Unknown));
    }
}

#[test]
fn reward_from_needs_both_item_fields() {
    let whole = Reward::from(dto(RewardGroup::ITEM, "t", Some("Pouch"), Some("u")));
    assert!(matches!(whole, Reward::Item(_)));
    assert_eq!(whole.image(), "u");
    assert_eq!(whole.fmt_string(), "Pouch Item");
    assert!(whole.is_hidden());
    assert!(matches!(
        Reward::from(dto(RewardGroup::ITEM, "XP", Some("Pouch"), None)),
        Reward::Unknown
    ));
    assert!(matches!(
        Reward::from(dto(RewardGroup::ITEM, "XP", None, Some("u"))),
        Reward::Unknown
    ));
}

#[test]
fn reward_from_other_groups() {
    for group in [RewardGroup::AVATAR, RewardGroup::COUPON, RewardGroup::QUEST] {
        assert!(matches!(
            Reward::from(dto(group, "XP", Some("Pouch"), Some("u"))),
            Reward::Unknown
        ));
    }
}

#[test]
fn shelf_life_of_a_reward() {
    let item = Reward::from(dto(RewardGroup::ITEM, "t", Some("Pouch"), Some("u")));
    assert_eq!(item.get_shelf_life().map(|t| t.secs()), Some(1_431_648_000));
    assert_eq!(item.fmt_expire_time(), "2015-05-15 00:00:00");
    assert!(item.has_expired(Timestamp::new(1_431_648_000, 1).unwrap()));
    assert!(!item.has_expired(Timestamp::new(1_431_648_000, 0).unwrap()));
    let gem = Reward::from(dto(RewardGroup::ASSET, "XP", None, None));
    assert!(gem.get_shelf_life().is_none());
    assert_eq!(gem.fmt_expire_time(), "");
    assert!(!gem.has_expired(Timestamp::new(1_431_648_001, 0).unwrap()));
}

#[test]
fn snapshots() {
    let shown = Gem { delta: 5, min: None, max: None, is_hidden: false };
    let d = shown.try_display().expect("shown");
    assert_eq!((d.unit_image.as_str(), d.image.as_str()), ("Gem Image", "Gem Image"));
    assert_eq!(d.fmt_string, "5 Currency");
    let hidden = Gem { delta: 5, min: None, max: None, is_hidden: true };
    assert!(hidden.try_display().is_none());
    assert_eq!(hidden.display().fmt_string, "5 Currency");
    let item = Item {
        url: String::from("u"),
        name: String::from("Pouch"),
        shelf_life: None,
        delta: 1,
        is_hidden: true,
    };
    let d = item.try_display().expect("an item always shows itself");
    assert_eq!((d.unit_image.as_str(), d.image.as_str()), ("u", "u"));
    assert_eq!(d.fmt_string, "Pouch Item");
}

#[test]
fn snapshot_through_the_handle() {
    let reward = gen_reward::<RewardFactorySafe>(dto(RewardGroup::ITEM, "t", Some("P"), Some("u")));
    let d = reward.reward.try_display().expect("shown");
    assert_eq!(d.fmt_string, "P Item");
    let unknown = gen_reward::<RewardFactorySafe>(dto(RewardGroup::QUEST, "t", None, None));
    assert!(unknown.reward.try_display().is_none());
    let hidden = gen_reward::<RewardFactorySafe>(dto(RewardGroup::ASSET, "t", None, None));
    assert!(hidden.reward.try_display().is_none());
}

#[test]
fn looking_twice_leaves_the_handle_whole() {
    let reward =
        gen_reward::<RewardFactorySafe>(dto(RewardGroup::ITEM, "t", Some("P"), Some("u"))).reward;
    let first = Item::try_downcast_ref(&reward).expect("an item");
    let second = Item::try_downcast_ref(&reward).expect("still an item");
    assert_eq!((&first.name, &first.url, first.delta), (&second.name, &second.url, second.delta));
    assert_eq!(Gem::try_downcast_ref(&reward).err(), Some(RewardCastError));
    assert_eq!(Gem::try_downcast_ref(&reward).err(), Some(RewardCastError));
    assert!(matches!(reward.downcast_ref(), Reward::Item(_)));
    assert_eq!(reward.fmt_string(), "P Item");
    let taken = Item::try_downcast_from(reward).expect("an item");
    assert_eq!((taken.name.as_str(), taken.url.as_str(), taken.delta), ("P", "u", 42));
}

#[test]
fn looking_at_a_gem_twice() {
    let reward = gen_reward::<RewardFactorySafe>(dto(RewardGroup::ASSET, "t", None, None)).reward;
    let first = Gem::try_downcast_ref(&reward).expect("a currency grant");
    let second = Gem::try_downcast_ref(&reward).expect("still one");
    assert_eq!(
        (first.delta, first.min, first.max, first.is_hidden),
        (second.delta, second.min, second.max, second.is_hidden)
    );
    assert!(Item::try_downcast_ref(&reward).is_err());
    assert!(matches!(reward.downcast(), Reward::Gem(_)));
}
