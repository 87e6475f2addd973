//! The opaque handle through which a reward is passed around, displayed and
//! finally reclaimed as its concrete shape.

use vstd::prelude::*;
use crate::shelf_life::{expired, instant_of};
use crate::timestamp::Timestamp;
use crate::variant::{
    display_of, Gem, GemView, Item, ItemView, Reward, RewardDisplay, RewardView,
};

verus! {

/// The failure of a downcast: the handle holds another shape than the one
/// asked for.
#[derive(Clone, Copy, Debug, PartialEq, Eq, Structural)]
pub struct RewardCastError;

/// An owning handle on exactly one reward. It cannot be duplicated: a reward
/// is granted once. Generic callers see the display contract only; whoever
/// needs the concrete shape asks for it by a downcast.
#[derive(Debug)]
pub struct RewardObj {
    reward: Reward,
}

impl View for RewardObj {
    type V = RewardView;

    closed spec fn view(&self) -> RewardView {
        self.reward@
    }
}

/// What a downcast to a currency grant finds in a reward.
pub open spec fn as_gem(reward: RewardView) -> Result<GemView, RewardCastError> {
    match reward {
        RewardView::Gem(gem) => Ok(gem),
        _ => Err(RewardCastError),
    }
}

/// What a downcast to an item finds in a reward.
pub open spec fn as_item(reward: RewardView) -> Result<ItemView, RewardCastError> {
    match reward {
        RewardView::Item(item) => Ok(item),
        _ => Err(RewardCastError),
    }
}

/// The model of the outcome of a downcast to a currency grant.
pub open spec fn gem_cast_view(cast: Result<Gem, RewardCastError>) -> Result<
    GemView,
    RewardCastError,
> {
    match cast {
        Ok(gem) => Ok(gem@),
        Err(e) => Err(e),
    }
}

/// The model of the outcome of a downcast to an item.
pub open spec fn item_cast_view(cast: Result<Item, RewardCastError>) -> Result<
    ItemView,
    RewardCastError,
> {
    match cast {
        Ok(item) => Ok(item@),
        Err(e) => Err(e),
    }
}

/// The model of the outcome of a look at a currency grant.
pub open spec fn gem_peek_view(cast: Result<&Gem, RewardCastError>) -> Result<
    GemView,
    RewardCastError,
> {
    match cast {
        Ok(gem) => Ok(gem@),
        Err(e) => Err(e),
    }
}

/// The model of the outcome of a look at an item.
pub open spec fn item_peek_view(cast: Result<&Item, RewardCastError>) -> Result<
    ItemView,
    RewardCastError,
> {
    match cast {
        Ok(item) => Ok(item@),
        Err(e) => Err(e),
    }
}

impl RewardObj {
    /// Wraps a reward into a handle.
    pub(crate) fn new(reward: Reward) -> (handle: RewardObj)
        ensures
            handle@ == reward@,
    {
        RewardObj { reward }
    }

    /// Whether the reward is kept from view.
    pub fn is_hidden(&self) -> (r: bool)
        ensures
            r == self@.is_hidden(),
    {
        self.reward.is_hidden()
    }

    /// The icon that stands for one unit of the reward.
    pub fn unit_image(&self) -> (r: &str)
        ensures
            r@ == self@.unit_image(),
    {
        self.reward.unit_image()
    }

    /// The full display asset of the reward.
    pub fn image(&self) -> (r: &str)
        ensures
            r@ == self@.image(),
    {
        self.reward.image()
    }

    /// The human-readable summary of the reward.
    pub fn fmt_string(&self) -> (r: String)
        ensures
            r@ == self@.fmt_string(),
    {
        self.reward.fmt_string()
    }

    /// A snapshot of what the reward shows, if it shows anything.
    pub fn try_display(&self) -> (r: Option<RewardDisplay>)
        ensures
            display_of(r) == self@.try_display(),
    {
        self.reward.try_display()
    }

    /// The shelf life of the reward: only an item can carry one.
    pub fn get_shelf_life(&self) -> (r: Option<Timestamp>)
        ensures
            instant_of(r) == self@.shelf_life(),
    {
        self.reward.get_shelf_life()
    }

    /// Whether the reward carries a shelf life that has run out by `now`.
    pub fn has_expired(&self, now: Timestamp) -> (r: bool)
        ensures
            r == expired(self@.shelf_life(), now@),
    {
        self.reward.has_expired(now)
    }

    /// Gives up the handle for the reward it holds.
    pub fn downcast(self) -> (reward: Reward)
        ensures
            reward@ == self@,
    {
        self.reward
    }

    /// Looks at the reward behind the handle, which stays valid.
    pub fn downcast_ref(&self) -> (reward: &Reward)
        ensures
            reward@ == self@,
    {
        &self.reward
    }
}

impl Gem {
    /// Consumes the handle and yields the currency grant it holds. A handle
    /// on anything else is dropped with its payload.
    pub fn try_downcast_from(reward: RewardObj) -> (r: Result<Gem, RewardCastError>)
        ensures
            gem_cast_view(r) == as_gem(reward@),
    {
        match reward.downcast() {
            Reward::Gem(gem) => Ok(gem),
            _ => Err(RewardCastError),
        }
    }

    /// Borrows the currency grant behind a handle, which stays valid.
    pub fn try_downcast_ref(reward: &RewardObj) -> (r: Result<&Gem, RewardCastError>)
        ensures
            gem_peek_view(r) == as_gem(reward@),
    {
        match reward.downcast_ref() {
            Reward::Gem(gem) => Ok(gem),
            _ => Err(RewardCastError),
        }
    }
}

impl Item {
    /// Consumes the handle and yields the item it holds. A handle on
    /// anything else is dropped with its payload.
    pub fn try_downcast_from(reward: RewardObj) -> (r: Result<Item, RewardCastError>)
        ensures
            item_cast_view(r) == as_item(reward@),
    {
        match reward.downcast() {
            Reward::Item(item) => Ok(item),
            _ => Err(RewardCastError),
        }
    }

    /// Borrows the item behind a handle, which stays valid.
    pub fn try_downcast_ref(reward: &RewardObj) -> (r: Result<&Item, RewardCastError>)
        ensures
            item_peek_view(r) == as_item(reward@),
    {
        match reward.downcast_ref() {
            Reward::Item(item) => Ok(item),
            _ => Err(RewardCastError),
        }
    }
}

/// Looking at a handle is repeatable and leaves it whole: any two looks at
/// the currency grant behind one handle come out alike, with equal views, and
/// giving the handle up afterwards yields that same view.
pub proof fn lemma_gem_peek_repeatable(
    reward: RewardObj,
    first: Result<&Gem, RewardCastError>,
    second: Result<&Gem, RewardCastError>,
    taken: Result<Gem, RewardCastError>,
)
    requires
        gem_peek_view(first) == as_gem(reward@),
        gem_peek_view(second) == as_gem(reward@),
        gem_cast_view(taken) == as_gem(reward@),
    ensures
        gem_peek_view(first) == gem_peek_view(second),
        gem_cast_view(taken) == gem_peek_view(first),
{
}

/// Looking at a handle is repeatable and leaves it whole: any two looks at
/// the item behind one handle come out alike, with equal views, and giving
/// the handle up afterwards yields that same view.
pub proof fn lemma_item_peek_repeatable(
    reward: RewardObj,
    first: Result<&Item, RewardCastError>,
    second: Result<&Item, RewardCastError>,
    taken: Result<Item, RewardCastError>,
)
    requires
        item_peek_view(first) == as_item(reward@),
        item_peek_view(second) == as_item(reward@),
        item_cast_view(taken) == as_item(reward@),
    ensures
        item_peek_view(first) == item_peek_view(second),
        item_cast_view(taken) == item_peek_view(first),
{
}

/// A handle holds one shape: at most one of the two downcasts succeeds, and
/// on the unknown reward neither does.
pub proof fn lemma_downcasts_exclusive(reward: RewardView)
    ensures
        !(as_gem(reward) is Ok && as_item(reward) is Ok),
        as_gem(reward) is Ok <==> reward is Gem,
        as_item(reward) is Ok <==> reward is Item,
        reward is Unknown ==> as_gem(reward) is Err && as_item(reward) is Err,
{
}

} // verus!
