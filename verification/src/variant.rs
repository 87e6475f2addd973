//! The closed set of reward shapes and the display contract they share.

use vstd::prelude::*;
use vstd::std_specs::convert::{FromSpec, FromSpecImpl, TryFromSpec, TryFromSpecImpl};
use vstd::string::StringExecFns;
use crate::decimal::{append_decimal, decimal};
use crate::reward::{bound_of, RewardDto, RewardDtoView, RewardGroup};
use crate::shelf_life::{expired, expired_at, expiry, instant_of, is_expired};
use crate::timestamp::{utc_label, Instant, Timestamp};

verus! {

/// The type tag that marks a description of a currency grant.
pub const CURRENCY_TAG: &'static str = "XP";

/// Why a concrete variant could not be built from a description.
#[derive(Clone, Copy, Debug, PartialEq, Eq, Structural)]
pub enum ConstructionFault {
    /// An item was described without its image address.
    MissingUrl,
    /// An item was described with an image address but without a name.
    MissingName,
}

impl ConstructionFault {
    /// The text that describes the fault.
    pub open spec fn text(self) -> Seq<char> {
        match self {
            ConstructionFault::MissingUrl => "item description without url"@,
            ConstructionFault::MissingName => "item description without name"@,
        }
    }

    /// The text to hand to whoever collects reports of swallowed faults.
    pub fn message(&self) -> (r: &'static str)
        ensures
            r@ == self.text(),
    {
        match self {
            ConstructionFault::MissingUrl => "item description without url",
            ConstructionFault::MissingName => "item description without name",
        }
    }
}

/// A currency grant.
#[derive(Debug)]
pub struct Gem {
    pub delta: u32,
    pub min: Option<u32>,
    pub max: Option<u32>,
    pub is_hidden: bool,
}

/// A named item, possibly with a limited shelf life.
#[derive(Debug)]
pub struct Item {
    pub url: String,
    pub name: String,
    pub shelf_life: Option<Timestamp>,
    pub delta: u32,
    pub is_hidden: bool,
}

/// The closed set of reward shapes.
#[derive(Debug)]
pub enum Reward {
    Unknown,
    Gem(Gem),
    Item(Item),
}

/// A snapshot of what a reward shows.
#[derive(Debug)]
pub struct RewardDisplay {
    pub unit_image: String,
    pub image: String,
    pub fmt_string: String,
}

/// Mathematical model of a [`RewardDisplay`].
pub struct RewardDisplayView {
    pub unit_image: Seq<char>,
    pub image: Seq<char>,
    pub fmt_string: Seq<char>,
}

impl View for RewardDisplay {
    type V = RewardDisplayView;

    open spec fn view(&self) -> RewardDisplayView {
        RewardDisplayView {
            unit_image: self.unit_image@,
            image: self.image@,
            fmt_string: self.fmt_string@,
        }
    }
}

/// The model of an optional snapshot.
pub open spec fn display_of(display: Option<RewardDisplay>) -> Option<RewardDisplayView> {
    match display {
        Some(d) => Some(d@),
        None => None,
    }
}

/// Mathematical model of a [`Gem`].
pub struct GemView {
    pub delta: nat,
    pub min: Option<nat>,
    pub max: Option<nat>,
    pub is_hidden: bool,
}

/// Mathematical model of an [`Item`].
pub struct ItemView {
    pub url: Seq<char>,
    pub name: Seq<char>,
    pub shelf_life: Option<Instant>,
    pub delta: nat,
    pub is_hidden: bool,
}

/// Mathematical model of a [`Reward`].
pub enum RewardView {
    Unknown,
    Gem(GemView),
    Item(ItemView),
}

impl View for Gem {
    type V = GemView;

    open spec fn view(&self) -> GemView {
        GemView {
            delta: self.delta as nat,
            min: bound_of(self.min),
            max: bound_of(self.max),
            is_hidden: self.is_hidden,
        }
    }
}

impl View for Item {
    type V = ItemView;

    open spec fn view(&self) -> ItemView {
        ItemView {
            url: self.url@,
            name: self.name@,
            shelf_life: instant_of(self.shelf_life),
            delta: self.delta as nat,
            is_hidden: self.is_hidden,
        }
    }
}

impl View for Reward {
    type V = RewardView;

    open spec fn view(&self) -> RewardView {
        match self {
            Reward::Unknown => RewardView::Unknown,
            Reward::Gem(gem) => RewardView::Gem(gem@),
            Reward::Item(item) => RewardView::Item(item@),
        }
    }
}

impl GemView {
    /// The currency a description grants, field for field.
    pub open spec fn from(dto: RewardDtoView) -> GemView {
        GemView { delta: dto.delta, min: dto.min, max: dto.max, is_hidden: dto.is_hidden }
    }

    /// The icon that stands for one unit of the reward.
    pub open spec fn unit_image(self) -> Seq<char> {
        "Gem Image"@
    }

    /// The full display asset of the reward.
    pub open spec fn image(self) -> Seq<char> {
        "Gem Image"@
    }

    /// The amount in decimal, followed by the word `Currency`.
    pub open spec fn fmt_string(self) -> Seq<char> {
        decimal(self.delta) + " Currency"@
    }

    /// A snapshot of the three display texts.
    pub open spec fn display(self) -> RewardDisplayView {
        RewardDisplayView {
            unit_image: self.unit_image(),
            image: self.image(),
            fmt_string: self.fmt_string(),
        }
    }

    /// A hidden currency grant shows nothing.
    pub open spec fn try_display(self) -> Option<RewardDisplayView> {
        if self.is_hidden {
            None
        } else {
            Some(self.display())
        }
    }
}

impl ItemView {
    /// The item a description grants, or the fault met while building it.
    /// The image address is looked at before the name.
    pub open spec fn try_from(dto: RewardDtoView) -> Result<ItemView, ConstructionFault> {
        if dto.url is None {
            Err(ConstructionFault::MissingUrl)
        } else if dto.name is None {
            Err(ConstructionFault::MissingName)
        } else {
            Ok(
                ItemView {
                    url: dto.url->0,
                    name: dto.name->0,
                    shelf_life: dto.shelf_life,
                    delta: dto.delta,
                    is_hidden: dto.is_hidden,
                },
            )
        }
    }

    /// The icon that stands for one unit of the reward.
    pub open spec fn unit_image(self) -> Seq<char> {
        self.url
    }

    /// The full display asset of the reward.
    pub open spec fn image(self) -> Seq<char> {
        self.url
    }

    /// The name, followed by the word `Item`.
    pub open spec fn fmt_string(self) -> Seq<char> {
        self.name + " Item"@
    }

    /// A snapshot of the three display texts.
    pub open spec fn display(self) -> RewardDisplayView {
        RewardDisplayView {
            unit_image: self.unit_image(),
            image: self.image(),
            fmt_string: self.fmt_string(),
        }
    }

    /// An item always shows itself.
    pub open spec fn try_display(self) -> Option<RewardDisplayView> {
        Some(self.display())
    }
}

impl RewardView {
    /// Whether the reward is kept from view.
    pub open spec fn is_hidden(self) -> bool {
        match self {
            RewardView::Unknown => false,
            RewardView::Gem(gem) => gem.is_hidden,
            RewardView::Item(item) => item.is_hidden,
        }
    }

    /// The icon that stands for one unit of the reward.
    pub open spec fn unit_image(self) -> Seq<char> {
        match self {
            RewardView::Unknown => Seq::empty(),
            RewardView::Gem(gem) => gem.unit_image(),
            RewardView::Item(item) => item.unit_image(),
        }
    }

    /// The full display asset of the reward.
    pub open spec fn image(self) -> Seq<char> {
        match self {
            RewardView::Unknown => Seq::empty(),
            RewardView::Gem(gem) => gem.image(),
            RewardView::Item(item) => item.image(),
        }
    }

    /// The human-readable summary of the reward.
    pub open spec fn fmt_string(self) -> Seq<char> {
        match self {
            RewardView::Unknown => Seq::empty(),
            RewardView::Gem(gem) => gem.fmt_string(),
            RewardView::Item(item) => item.fmt_string(),
        }
    }

    /// The unknown reward shows nothing.
    pub open spec fn try_display(self) -> Option<RewardDisplayView> {
        match self {
            RewardView::Unknown => None,
            RewardView::Gem(gem) => gem.try_display(),
            RewardView::Item(item) => item.try_display(),
        }
    }

    /// Only an item can carry a shelf life.
    pub open spec fn shelf_life(self) -> Option<Instant> {
        match self {
            RewardView::Item(item) => item.shelf_life,
            _ => None,
        }
    }
}

impl Gem {
    /// Whether the reward is kept from view.
    pub fn is_hidden(&self) -> (r: bool)
        ensures
            r == self@.is_hidden,
    {
        self.is_hidden
    }

    /// The icon that stands for one unit of the reward.
    pub fn unit_image(&self) -> (r: &'static str)
        ensures
            r@ == self@.unit_image(),
    {
        "Gem Image"
    }

    /// The full display asset of the reward.
    pub fn image(&self) -> (r: &'static str)
        ensures
            r@ == self@.image(),
    {
        "Gem Image"
    }

    /// The human-readable summary of the reward.
    pub fn fmt_string(&self) -> (r: String)
        ensures
            r@ == self@.fmt_string(),
    {
        let mut text = String::new();
        append_decimal(&mut text, self.delta);
        text.append(" Currency");
        assert(text@ =~= self@.fmt_string());
        text
    }

    /// What a currency grant has to say when it is claimed.
    pub fn shine(&self) -> (r: &'static str)
        ensures
            r@ == "bling bling"@,
    {
        "bling bling"
    }

    /// A snapshot of the three display texts.
    pub fn display(&self) -> (r: RewardDisplay)
        ensures
            r@ == self@.display(),
    {
        RewardDisplay {
            unit_image: String::from_str(self.unit_image()),
            image: String::from_str(self.image()),
            fmt_string: self.fmt_string(),
        }
    }

    /// A snapshot of what the reward shows, if it shows anything.
    pub fn try_display(&self) -> (r: Option<RewardDisplay>)
        ensures
            display_of(r) == self@.try_display(),
    {
        if self.is_hidden {
            None
        } else {
            Some(self.display())
        }
    }
}

impl Item {
    /// Whether the reward is kept from view.
    pub fn is_hidden(&self) -> (r: bool)
        ensures
            r == self@.is_hidden,
    {
        self.is_hidden
    }

    /// The icon that stands for one unit of the reward.
    pub fn unit_image(&self) -> (r: &str)
        ensures
            r@ == self@.unit_image(),
    {
        self.url.as_str()
    }

    /// The full display asset of the reward.
    pub fn image(&self) -> (r: &str)
        ensures
            r@ == self@.image(),
    {
        self.url.as_str()
    }

    /// The human-readable summary of the reward.
    pub fn fmt_string(&self) -> (r: String)
        ensures
            r@ == self@.fmt_string(),
    {
        self.name.clone().concat(" Item")
    }

    /// A snapshot of the three display texts.
    pub fn display(&self) -> (r: RewardDisplay)
        ensures
            r@ == self@.display(),
    {
        RewardDisplay {
            unit_image: String::from_str(self.unit_image()),
            image: String::from_str(self.image()),
            fmt_string: self.fmt_string(),
        }
    }

    /// A snapshot of what the reward shows, if it shows anything.
    pub fn try_display(&self) -> (r: Option<RewardDisplay>)
        ensures
            display_of(r) == self@.try_display(),
    {
        Some(self.display())
    }

    /// The shelf life itself once it has run out by `now`, nothing before.
    pub fn expired_at(&self, now: Timestamp) -> (r: Option<Timestamp>)
        ensures
            instant_of(r) == expiry(self@.shelf_life, now@),
            r is Some ==> r == self.shelf_life,
    {
        expired_at(self.shelf_life, now)
    }
}

impl From<RewardDto> for Gem {
    fn from(value: RewardDto) -> (gem: Gem)
        ensures
            gem@ == GemView::from(value@),
    {
        Gem { delta: value.delta, min: value.min, max: value.max, is_hidden: value.is_hidden }
    }
}

impl FromSpecImpl<RewardDto> for Gem {
    open spec fn obeys_from_spec() -> bool {
        true
    }

    open spec fn from_spec(value: RewardDto) -> Gem {
        Gem { delta: value.delta, min: value.min, max: value.max, is_hidden: value.is_hidden }
    }
}

impl TryFrom<RewardDto> for Item {
    type Error = ConstructionFault;

    fn try_from(value: RewardDto) -> (r: Result<Item, ConstructionFault>)
        ensures
            match r {
                Ok(item) => ItemView::try_from(value@) == Ok::<ItemView, ConstructionFault>(item@),
                Err(fault) => ItemView::try_from(value@) == Err::<ItemView, ConstructionFault>(fault),
            },
    {
        match value.url {
            None => Err(ConstructionFault::MissingUrl),
            Some(url) => match value.name {
                None => Err(ConstructionFault::MissingName),
                Some(name) => Ok(
                    Item {
                        url,
                        name,
                        shelf_life: value.shelf_life,
                        delta: value.delta,
                        is_hidden: value.is_hidden,
                    },
                ),
            },
        }
    }
}

impl TryFromSpecImpl<RewardDto> for Item {
    open spec fn obeys_try_from_spec() -> bool {
        true
    }

    open spec fn try_from_spec(value: RewardDto) -> Result<Item, ConstructionFault> {
        match value.url {
            None => Err(ConstructionFault::MissingUrl),
            Some(url) => match value.name {
                None => Err(ConstructionFault::MissingName),
                Some(name) => Ok(
                    Item {
                        url,
                        name,
                        shelf_life: value.shelf_life,
                        delta: value.delta,
                        is_hidden: value.is_hidden,
                    },
                ),
            },
        }
    }
}

impl RewardView {
    /// The reward a description resolves to when it is converted directly:
    /// an item needs both its image address and its name, a currency grant
    /// needs the recognised currency tag, and everything else is unknown.
    pub open spec fn from(dto: RewardDtoView) -> RewardView {
        match dto.group {
            RewardGroup::ITEM => match ItemView::try_from(dto) {
                Ok(item) => RewardView::Item(item),
                Err(_) => RewardView::Unknown,
            },
            RewardGroup::ASSET => if dto.type_tag == CURRENCY_TAG@ {
                RewardView::Gem(GemView::from(dto))
            } else {
                RewardView::Unknown
            },
            _ => RewardView::Unknown,
        }
    }

    /// The rendering of the shelf life, empty where there is none.
    pub open spec fn fmt_expire_time(self) -> Seq<char> {
        match self.shelf_life() {
            Some(end) => utc_label(end.secs, end.nanos),
            None => Seq::empty(),
        }
    }
}

impl Reward {
    /// Whether the reward is kept from view.
    pub fn is_hidden(&self) -> (r: bool)
        ensures
            r == self@.is_hidden(),
    {
        match self {
            Reward::Gem(gem) => gem.is_hidden(),
            Reward::Item(item) => item.is_hidden(),
            Reward::Unknown => false,
        }
    }

    /// The icon that stands for one unit of the reward.
    pub fn unit_image(&self) -> (r: &str)
        ensures
            r@ == self@.unit_image(),
    {
        match self {
            Reward::Gem(gem) => gem.unit_image(),
            Reward::Item(item) => item.unit_image(),
            Reward::Unknown => {
                proof {
                    reveal_strlit("");
                }
                assert(""@ =~= Seq::<char>::empty());
                ""
            },
        }
    }

    /// The full display asset of the reward.
    pub fn image(&self) -> (r: &str)
        ensures
            r@ == self@.image(),
    {
        match self {
            Reward::Gem(gem) => gem.image(),
            Reward::Item(item) => item.image(),
            Reward::Unknown => {
                proof {
                    reveal_strlit("");
                }
                assert(""@ =~= Seq::<char>::empty());
                ""
            },
        }
    }

    /// The human-readable summary of the reward.
    pub fn fmt_string(&self) -> (r: String)
        ensures
            r@ == self@.fmt_string(),
    {
        match self {
            Reward::Gem(gem) => gem.fmt_string(),
            Reward::Item(item) => item.fmt_string(),
            Reward::Unknown => String::new(),
        }
    }

    /// A snapshot of what the reward shows, if it shows anything.
    pub fn try_display(&self) -> (r: Option<RewardDisplay>)
        ensures
            display_of(r) == self@.try_display(),
    {
        match self {
            Reward::Gem(gem) => gem.try_display(),
            Reward::Item(item) => item.try_display(),
            Reward::Unknown => None,
        }
    }

    /// The shelf life of the reward: only an item can carry one.
    pub fn get_shelf_life(&self) -> (r: Option<Timestamp>)
        ensures
            instant_of(r) == self@.shelf_life(),
    {
        match self {
            Reward::Item(item) => item.shelf_life,
            _ => None,
        }
    }

    /// Whether the reward carries a shelf life that has run out by `now`.
    pub fn has_expired(&self, now: Timestamp) -> (r: bool)
        ensures
            r == expired(self@.shelf_life(), now@),
    {
        is_expired(self.get_shelf_life(), now)
    }

    /// The rendering of the shelf life, empty where there is none.
    pub fn fmt_expire_time(&self) -> (r: String)
        ensures
            r@ == self@.fmt_expire_time(),
    {
        match self.get_shelf_life() {
            Some(end) => end.label(),
            None => String::new(),
        }
    }
}

impl From<RewardDto> for Reward {
    fn from(value: RewardDto) -> (reward: Reward)
        ensures
            reward@ == RewardView::from(value@),
    {
        match value.group {
            RewardGroup::ITEM => match Item::try_from(value) {
                Ok(item) => Reward::Item(item),
                Err(_) => Reward::Unknown,
            },
            RewardGroup::ASSET => {
                if value._type == String::from_str(CURRENCY_TAG) {
                    Reward::Gem(Gem::from(value))
                } else {
                    Reward::Unknown
                }
            },
            _ => Reward::Unknown,
        }
    }
}

impl FromSpecImpl<RewardDto> for Reward {
    open spec fn obeys_from_spec() -> bool {
        true
    }

    open spec fn from_spec(value: RewardDto) -> Reward {
        match value.group {
            RewardGroup::ITEM => match <Item as TryFromSpec<RewardDto>>::try_from_spec(value) {
                Ok(item) => Reward::Item(item),
                Err(_) => Reward::Unknown,
            },
            RewardGroup::ASSET => if value._type@ == CURRENCY_TAG@ {
                Reward::Gem(<Gem as FromSpec<RewardDto>>::from_spec(value))
            } else {
                Reward::Unknown
            },
            _ => Reward::Unknown,
        }
    }
}

} // verus!
