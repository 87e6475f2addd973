//! The description from which a reward is built.

use vstd::prelude::*;
use crate::shelf_life::instant_of;
use crate::timestamp::{Instant, Timestamp};

verus! {

/// The category a description claims for its reward.
#[derive(Clone, Copy, Debug, PartialEq, Eq, Structural)]
pub enum RewardGroup {
    ASSET,
    AVATAR,
    ITEM,
    COUPON,
    QUEST,
}

/// A loosely typed description of a reward, as received from outside. Only
/// the group and the numeric fields can be relied upon; whether the fields a
/// variant needs are present is for the reader to find out.
#[derive(Debug)]
pub struct RewardDto {
    pub group: RewardGroup,
    pub _type: String,
    pub name: Option<String>,
    pub code: Option<String>,
    pub delta: u32,
    pub min: Option<u32>,
    pub max: Option<u32>,
    pub url: Option<String>,
    pub is_hidden: bool,
    pub shelf_life: Option<Timestamp>,
}

/// Mathematical model of a [`RewardDto`].
pub struct RewardDtoView {
    pub group: RewardGroup,
    pub type_tag: Seq<char>,
    pub name: Option<Seq<char>>,
    pub code: Option<Seq<char>>,
    pub delta: nat,
    pub min: Option<nat>,
    pub max: Option<nat>,
    pub url: Option<Seq<char>>,
    pub is_hidden: bool,
    pub shelf_life: Option<Instant>,
}

/// The characters of an optional text.
pub open spec fn text_of(text: Option<String>) -> Option<Seq<char>> {
    match text {
        Some(t) => Some(t@),
        None => None,
    }
}

/// The value of an optional bound.
pub open spec fn bound_of(bound: Option<u32>) -> Option<nat> {
    match bound {
        Some(b) => Some(b as nat),
        None => None,
    }
}

impl View for RewardDto {
    type V = RewardDtoView;

    open spec fn view(&self) -> RewardDtoView {
        RewardDtoView {
            group: self.group,
            type_tag: self._type@,
            name: text_of(self.name),
            code: text_of(self.code),
            delta: self.delta as nat,
            min: bound_of(self.min),
            max: bound_of(self.max),
            url: text_of(self.url),
            is_hidden: self.is_hidden,
            shelf_life: instant_of(self.shelf_life),
        }
    }
}

/// A copy of an optional text.
fn clone_text(text: &Option<String>) -> (r: Option<String>)
    ensures
        text_of(r) == text_of(*text),
{
    match text {
        Some(t) => Some(t.clone()),
        None => None,
    }
}

impl Clone for RewardDto {
    /// A second description with the same content.
    fn clone(&self) -> (r: RewardDto)
        ensures
            r@ == self@,
    {
        RewardDto {
            group: self.group,
            _type: self._type.clone(),
            name: clone_text(&self.name),
            code: clone_text(&self.code),
            delta: self.delta,
            min: self.min,
            max: self.max,
            url: clone_text(&self.url),
            is_hidden: self.is_hidden,
            shelf_life: self.shelf_life,
        }
    }
}

} // verus!
