//! Building rewards from descriptions, with the faults of construction kept
//! inside one attempt.

use vstd::prelude::*;
use vstd::string::StringExecFns;
use crate::decimal::decimal;
use crate::handle::{as_gem, as_item, RewardCastError, RewardObj};
use crate::reward::{RewardDto, RewardDtoView, RewardGroup};
use crate::variant::{ConstructionFault, Gem, GemView, Item, ItemView, Reward, RewardView};

verus! {

/// What one construction attempt yields: the reward a description resolves
/// to, or the fault met while building it. A currency grant is built from the
/// numeric fields alone, an item needs its image address and its name, and
/// every other group resolves to the unknown reward without an attempt.
pub open spec fn construct(dto: RewardDtoView) -> Result<RewardView, ConstructionFault> {
    match dto.group {
        RewardGroup::ASSET => Ok(RewardView::Gem(GemView::from(dto))),
        RewardGroup::ITEM => match ItemView::try_from(dto) {
            Ok(item) => Ok(RewardView::Item(item)),
            Err(fault) => Err(fault),
        },
        _ => Ok(RewardView::Unknown),
    }
}

/// The model of the outcome of a construction attempt.
pub open spec fn attempt_view(attempt: Result<RewardObj, ConstructionFault>) -> Result<
    RewardView,
    ConstructionFault,
> {
    match attempt {
        Ok(reward) => Ok(reward@),
        Err(fault) => Err(fault),
    }
}

/// What the forgiving policy hands out: always a reward, and beside it the
/// fault that was swallowed, for the caller to report.
#[derive(Debug)]
pub struct Salvaged {
    pub reward: RewardObj,
    pub report: Option<ConstructionFault>,
}

/// One construction attempt. A fault met while building the variant ends this
/// attempt and nothing else: it comes back as a value.
pub fn try_gen(dto: RewardDto) -> (r: Result<RewardObj, ConstructionFault>)
    ensures
        attempt_view(r) == construct(dto@),
{
    match dto.group {
        RewardGroup::ASSET => Ok(RewardObj::new(Reward::Gem(Gem::from(dto)))),
        RewardGroup::ITEM => match Item::try_from(dto) {
            Ok(item) => Ok(RewardObj::new(Reward::Item(item))),
            Err(fault) => Err(fault),
        },
        _ => Ok(RewardObj::new(Reward::Unknown)),
    }
}

/// A policy on top of the construction attempt.
pub trait RewardFactory {
    /// What the policy hands to its caller.
    type Outcome;

    /// Whether `outcome` is what the policy makes of `attempt`.
    spec fn settles(outcome: Self::Outcome, attempt: Result<RewardView, ConstructionFault>) -> bool;

    /// Builds the reward that `dto` describes, under this policy.
    fn gen(dto: RewardDto) -> (r: Self::Outcome)
        ensures
            Self::settles(r, construct(dto@)),
    ;
}

/// The strict policy: a fault of construction is handed to the caller.
pub struct RewardFactoryUnsafe;

/// The forgiving policy: a fault of construction degrades to the unknown
/// reward and is noted for reporting.
pub struct RewardFactorySafe;

impl RewardFactory for RewardFactoryUnsafe {
    type Outcome = Result<RewardObj, ConstructionFault>;

    open spec fn settles(
        outcome: Result<RewardObj, ConstructionFault>,
        attempt: Result<RewardView, ConstructionFault>,
    ) -> bool {
        attempt_view(outcome) == attempt
    }

    fn gen(dto: RewardDto) -> (r: Result<RewardObj, ConstructionFault>) {
        try_gen(dto)
    }
}

impl RewardFactory for RewardFactorySafe {
    type Outcome = Salvaged;

    open spec fn settles(outcome: Salvaged, attempt: Result<RewardView, ConstructionFault>) -> bool {
        match attempt {
            Ok(reward) => outcome.reward@ == reward && outcome.report is None,
            Err(fault) => outcome.reward@ == RewardView::Unknown && outcome.report == Some(fault),
        }
    }

    fn gen(dto: RewardDto) -> (r: Salvaged) {
        match try_gen(dto) {
            Ok(reward) => Salvaged { reward, report: None },
            Err(fault) => Salvaged { reward: RewardObj::new(Reward::Unknown), report: Some(fault) },
        }
    }
}

/// Builds the reward that `dto` describes under the policy `T`.
pub fn gen_reward<T: RewardFactory>(dto: RewardDto) -> (r: T::Outcome)
    ensures
        T::settles(r, construct(dto@)),
{
    T::gen(dto)
}

/// The type tag of a description that lost its content on the way.
pub const GLITCH_TAG: &'static str = "*@#&^$*@&#^$";

/// A description after it lost everything optional on the way: the group, the
/// amount and the hidden flag survive, the type tag is garbled.
pub open spec fn glitch(dto: RewardDtoView) -> RewardDtoView {
    RewardDtoView {
        group: dto.group,
        type_tag: GLITCH_TAG@,
        name: None,
        code: None,
        delta: dto.delta,
        min: None,
        max: None,
        url: None,
        is_hidden: dto.is_hidden,
        shelf_life: None,
    }
}

/// Strips a description of everything optional and garbles its type tag.
pub fn glitched(dto: RewardDto) -> (r: RewardDto)
    ensures
        r@ == glitch(dto@),
{
    RewardDto {
        group: dto.group,
        _type: String::from_str(GLITCH_TAG),
        name: None,
        code: None,
        delta: dto.delta,
        min: None,
        max: None,
        url: None,
        is_hidden: dto.is_hidden,
        shelf_life: None,
    }
}

/// What a holder who goes by the group of the description takes out of a
/// reward: the currency grant for an asset, the item for an item, and
/// nothing, without looking, for every other group.
pub open spec fn claim_of(group: RewardGroup, reward: RewardView) -> Result<
    RewardView,
    RewardCastError,
> {
    match group {
        RewardGroup::ASSET => match as_gem(reward) {
            Ok(gem) => Ok(RewardView::Gem(gem)),
            Err(e) => Err(e),
        },
        RewardGroup::ITEM => match as_item(reward) {
            Ok(item) => Ok(RewardView::Item(item)),
            Err(e) => Err(e),
        },
        _ => Ok(RewardView::Unknown),
    }
}

/// The model of the outcome of a claim.
pub open spec fn claim_view(claim: Result<Reward, RewardCastError>) -> Result<
    RewardView,
    RewardCastError,
> {
    match claim {
        Ok(reward) => Ok(reward@),
        Err(e) => Err(e),
    }
}

/// Reclaims from `reward` the shape that `group` promises. The handle is
/// consumed either way.
pub fn claim(group: RewardGroup, reward: RewardObj) -> (r: Result<Reward, RewardCastError>)
    ensures
        claim_view(r) == claim_of(group, reward@),
{
    match group {
        RewardGroup::ASSET => match Gem::try_downcast_from(reward) {
            Ok(gem) => Ok(Reward::Gem(gem)),
            Err(e) => Err(e),
        },
        RewardGroup::ITEM => match Item::try_downcast_from(reward) {
            Ok(item) => Ok(Reward::Item(item)),
            Err(e) => Err(e),
        },
        _ => Ok(Reward::Unknown),
    }
}

/// How a glitched description fared: the fault to report, if one was
/// swallowed, and what the holder could claim of the reward.
#[derive(Debug)]
pub struct Glitched {
    pub report: Option<ConstructionFault>,
    pub claim: Result<Reward, RewardCastError>,
}

/// Sends a description that lost its content through the forgiving policy and
/// reclaims the shape its group promises. An asset still yields its currency
/// grant, without bounds; an item is reported for its missing image address
/// and cannot be claimed; every other group yields nothing and no complaint.
pub fn factory_glitched(dto: RewardDto) -> (r: Glitched)
    ensures
        r.report == (if dto.group == RewardGroup::ITEM {
            Some(ConstructionFault::MissingUrl)
        } else {
            None
        }),
        claim_view(r.claim) == (match dto.group {
            RewardGroup::ASSET => Ok(
                RewardView::Gem(
                    GemView {
                        delta: dto.delta as nat,
                        min: None,
                        max: None,
                        is_hidden: dto.is_hidden,
                    },
                ),
            ),
            RewardGroup::ITEM => Err(RewardCastError),
            _ => Ok(RewardView::Unknown),
        }),
{
    let group = dto.group;
    let salvaged = gen_reward::<RewardFactorySafe>(glitched(dto));
    Glitched { report: salvaged.report, claim: claim(group, salvaged.reward) }
}

/// Every description of an asset builds, under either policy and without a
/// report, into a reward that is hidden exactly when the description says so
/// and that is labelled with the amount in decimal followed by ` Currency`,
/// whatever its other fields hold.
pub proof fn lemma_asset_builds_currency(
    dto: RewardDtoView,
    strict: Result<RewardObj, ConstructionFault>,
    forgiving: Salvaged,
)
    requires
        dto.group == RewardGroup::ASSET,
        RewardFactoryUnsafe::settles(strict, construct(dto)),
        RewardFactorySafe::settles(forgiving, construct(dto)),
    ensures
        strict matches Ok(reward) && reward@ == forgiving.reward@,
        forgiving.report is None,
        forgiving.reward@ is Gem,
        forgiving.reward@.is_hidden() == dto.is_hidden,
        forgiving.reward@.fmt_string() == decimal(dto.delta) + " Currency"@,
{
}

/// A description of an item that has both its image address and its name
/// builds, under either policy and without a report, into a reward that
/// downcasts to an item and shows that address as its image.
pub proof fn lemma_complete_item_builds(
    dto: RewardDtoView,
    strict: Result<RewardObj, ConstructionFault>,
    forgiving: Salvaged,
)
    requires
        dto.group == RewardGroup::ITEM,
        dto.url is Some,
        dto.name is Some,
        RewardFactoryUnsafe::settles(strict, construct(dto)),
        RewardFactorySafe::settles(forgiving, construct(dto)),
    ensures
        strict matches Ok(reward) && reward@ == forgiving.reward@,
        forgiving.report is None,
        as_item(forgiving.reward@) is Ok,
        as_gem(forgiving.reward@) is Err,
        forgiving.reward@.image() == dto.url->0,
{
}

/// A description of an item that lacks its image address or its name is a
/// fault of construction: the strict policy hands the fault to its caller,
/// the forgiving policy hands out the unknown reward and notes the fault.
pub proof fn lemma_incomplete_item_faults(
    dto: RewardDtoView,
    strict: Result<RewardObj, ConstructionFault>,
    forgiving: Salvaged,
)
    requires
        dto.group == RewardGroup::ITEM,
        dto.url is None || dto.name is None,
        RewardFactoryUnsafe::settles(strict, construct(dto)),
        RewardFactorySafe::settles(forgiving, construct(dto)),
    ensures
        construct(dto) is Err,
        strict is Err,
        forgiving.reward@ == RewardView::Unknown,
        forgiving.report is Some,
{
}

/// A description of any group but asset and item builds into the unknown
/// reward, whatever its other fields hold, under either policy.
pub proof fn lemma_other_groups_build_unknown(
    dto: RewardDtoView,
    strict: Result<RewardObj, ConstructionFault>,
    forgiving: Salvaged,
)
    requires
        dto.group != RewardGroup::ASSET,
        dto.group != RewardGroup::ITEM,
        RewardFactoryUnsafe::settles(strict, construct(dto)),
        RewardFactorySafe::settles(forgiving, construct(dto)),
    ensures
        construct(dto) == Ok::<RewardView, ConstructionFault>(RewardView::Unknown),
        strict matches Ok(reward) && reward@ == RewardView::Unknown,
        forgiving.reward@ == RewardView::Unknown,
        forgiving.report is None,
{
}

/// The forgiving policy never fails and never reports without cause: it
/// hands out what the attempt built, or the unknown reward with the fault.
pub proof fn lemma_forgiving_policy_total(dto: RewardDtoView, forgiving: Salvaged)
    requires
        RewardFactorySafe::settles(forgiving, construct(dto)),
    ensures
        forgiving.report is Some <==> construct(dto) is Err,
        forgiving.report is None ==> construct(dto) == Ok::<RewardView, ConstructionFault>(
            forgiving.reward@,
        ),
        forgiving.report is Some ==> forgiving.reward@ == RewardView::Unknown,
{
}

} // verus!
