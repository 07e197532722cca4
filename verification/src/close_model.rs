//! Abstract model of the close-chain protocol.
//!
//! A chain owns an ordered list of tiers; every component holds a token bound
//! to one tier. A token at depth `d > 0` holds a *back-reference* into tier
//! `d - 1`: a clone of that tier's signal source. Tier `i` is *released* once
//! the chain's own source for it is gone (teardown) and every back-reference
//! into it has been destroyed. The laws below pin down the release order that
//! the executable chain in `graceful_shutdown` realises through channel
//! ownership.

use vstd::prelude::*;
use vstd::multiset::Multiset;

verus! {

broadcast use vstd::multiset::group_multiset_axioms;

/// One outstanding token handle: the tier index it waits on, and whether it
/// still holds a back-reference delaying the release of the tier one level
/// shallower.
pub struct TokenModel {
    pub depth: nat,
    pub holds_back_ref: bool,
}

/// Abstract state of one close chain: how many tiers exist, whether the chain
/// was torn down, and the multiset of live token handles.
pub struct ChainModel {
    pub num_tiers: nat,
    pub torn_down: bool,
    pub live: Multiset<TokenModel>,
}

/// One atomic protocol step.
pub enum ChainStep {
    /// A component requests a token for `tier` (growing the chain on demand).
    Acquire { tier: nat },
    /// A live token is cloned, duplicating its back-reference.
    CloneToken { t: TokenModel },
    /// A live token is destroyed, dropping its back-reference.
    Destroy { t: TokenModel },
    /// The owner tears the chain down, dropping every chain-held source.
    Teardown,
}

impl ChainModel {
    /// A fresh chain: no tiers, nothing torn down, no tokens.
    pub open spec fn init() -> ChainModel {
        ChainModel { num_tiers: 0, torn_down: false, live: Multiset::empty() }
    }

    /// The token handed out when `tier` is requested in this state. After
    /// teardown a new token holds no back-reference: it observes immediate
    /// release and cannot re-arm any tier.
    pub open spec fn token_at(self, tier: nat) -> TokenModel {
        TokenModel { depth: tier, holds_back_ref: !self.torn_down && tier >= 1 }
    }

    /// Every live back-reference points into a tier that exists.
    pub open spec fn wf(self) -> bool {
        forall|t: TokenModel|
            self.live.contains(t) && t.holds_back_ref ==> 1 <= t.depth < self.num_tiers
    }

    /// The chain itself holds tier `i`'s signal source until teardown.
    pub open spec fn chain_holds_source(self, i: nat) -> bool {
        !self.torn_down && i < self.num_tiers
    }

    /// How many live tokens hold a back-reference into tier `i`. All such
    /// tokens are equal as values, so the multiset count is their number.
    pub open spec fn back_refs_into(self, i: nat) -> nat {
        self.live.count(TokenModel { depth: (i + 1) as nat, holds_back_ref: true })
    }

    /// Tier `i` is alive while any source for it survives.
    pub open spec fn tier_alive(self, i: nat) -> bool {
        self.chain_holds_source(i) || self.back_refs_into(i) > 0
    }

    /// Release: every source for tier `i` is gone, so a wait on it returns.
    pub open spec fn tier_released(self, i: nat) -> bool {
        !self.tier_alive(i)
    }

    /// Requesting a token for `tier` grows the tier list to cover it (only
    /// while the chain lives) and registers the new token.
    pub open spec fn acquire(self, tier: nat) -> ChainModel {
        ChainModel {
            num_tiers: if !self.torn_down && self.num_tiers < tier + 1 {
                (tier + 1) as nat
            } else {
                self.num_tiers
            },
            torn_down: self.torn_down,
            live: self.live.insert(self.token_at(tier)),
        }
    }

    /// Cloning a live token duplicates its handle, back-reference included.
    pub open spec fn clone_token(self, t: TokenModel) -> ChainModel {
        ChainModel { live: self.live.insert(t), ..self }
    }

    /// Destroying a live token drops its handle and back-reference.
    pub open spec fn destroy(self, t: TokenModel) -> ChainModel {
        ChainModel { live: self.live.remove(t), ..self }
    }

    /// Teardown drops every chain-held source at once, irrevocably.
    pub open spec fn teardown(self) -> ChainModel {
        ChainModel { torn_down: true, ..self }
    }

    /// Whether a step may fire in this state.
    pub open spec fn step_enabled(self, s: ChainStep) -> bool {
        match s {
            ChainStep::Acquire { tier: _ } => true,
            ChainStep::CloneToken { t } => self.live.contains(t),
            ChainStep::Destroy { t } => self.live.contains(t),
            ChainStep::Teardown => true,
        }
    }

    /// The state after one step.
    pub open spec fn apply(self, s: ChainStep) -> ChainModel {
        match s {
            ChainStep::Acquire { tier } => self.acquire(tier),
            ChainStep::CloneToken { t } => self.clone_token(t),
            ChainStep::Destroy { t } => self.destroy(t),
            ChainStep::Teardown => self.teardown(),
        }
    }
}

/// A fresh chain is well formed, so by [`lemma_wf_preserved`] every state an
/// execution reaches from it is too.
pub proof fn lemma_init_wf()
    ensures
        ChainModel::init().wf(),
{
}

/// Well-formedness is an invariant: every protocol step preserves it.
pub proof fn lemma_wf_preserved(m: ChainModel, s: ChainStep)
    requires
        m.wf(),
        m.step_enabled(s),
    ensures
        m.apply(s).wf(),
{
    match s {
        ChainStep::Acquire { tier } => {
            let m2 = m.acquire(tier);
            assert forall|t: TokenModel| m2.live.contains(t) && t.holds_back_ref implies 1
                <= t.depth < m2.num_tiers by {
                if t != m.token_at(tier) {
                    assert(m.live.contains(t));
                }
            }
        },
        ChainStep::CloneToken { t } => {
            let m2 = m.clone_token(t);
            assert forall|u: TokenModel| m2.live.contains(u) && u.holds_back_ref implies 1
                <= u.depth < m2.num_tiers by {
                if u != t {
                    assert(m.live.contains(u));
                }
            }
        },
        ChainStep::Destroy { t } => {
            let m2 = m.destroy(t);
            assert forall|u: TokenModel| m2.live.contains(u) && u.holds_back_ref implies 1
                <= u.depth < m2.num_tiers by {
                assert(m.live.contains(u));
            }
        },
        ChainStep::Teardown => {},
    }
}

/// No tier releases while a component one level deeper still holds its token:
/// the live back-reference keeps the next-shallower tier alive.
pub proof fn lemma_back_ref_keeps_tier_alive(m: ChainModel, t: TokenModel)
    requires
        m.live.contains(t),
        t.holds_back_ref,
        1 <= t.depth,
    ensures
        m.tier_alive((t.depth - 1) as nat),
{
    let i = (t.depth - 1) as nat;
    assert(t == TokenModel { depth: (i + 1) as nat, holds_back_ref: true });
    assert(m.back_refs_into(i) > 0);
}

/// Before teardown, every existing tier is alive: release cannot begin until
/// the owner tears the chain down.
pub proof fn lemma_no_release_before_teardown(m: ChainModel, i: nat)
    requires
        !m.torn_down,
        i < m.num_tiers,
    ensures
        m.tier_alive(i),
{
}

/// A tier releases exactly when the chain has been torn down and every
/// back-reference into it is gone.
pub proof fn lemma_release_characterization(m: ChainModel, i: nat)
    requires
        i < m.num_tiers,
    ensures
        m.tier_released(i) <==> (m.torn_down && m.back_refs_into(i) == 0),
{
}

/// Destroying one of several sibling back-reference holders leaves the
/// shallower tier alive: only the destruction of the last one can release it.
pub proof fn lemma_destroy_one_of_many_keeps_alive(m: ChainModel, t: TokenModel)
    requires
        t.holds_back_ref,
        1 <= t.depth,
        m.live.count(t) >= 2,
    ensures
        m.destroy(t).tier_alive((t.depth - 1) as nat),
{
    let i = (t.depth - 1) as nat;
    assert(t == TokenModel { depth: (i + 1) as nat, holds_back_ref: true });
    assert(m.destroy(t).back_refs_into(i) > 0);
}

/// Once the chain is torn down, destroying the last back-reference holder of
/// a tier releases that tier.
pub proof fn lemma_destroy_last_releases(m: ChainModel, t: TokenModel)
    requires
        m.torn_down,
        t.holds_back_ref,
        1 <= t.depth,
        m.back_refs_into((t.depth - 1) as nat) == 1,
    ensures
        m.destroy(t).tier_released((t.depth - 1) as nat),
{
    let i = (t.depth - 1) as nat;
    assert(t == TokenModel { depth: (i + 1) as nat, holds_back_ref: true });
}

/// After teardown a tier stays alive exactly while some token derived one
/// level deeper still holds its back-reference into it.
pub proof fn lemma_torn_down_alive_iff_back_refs(m: ChainModel, i: nat)
    requires
        m.torn_down,
    ensures
        m.tier_alive(i) <==> m.back_refs_into(i) > 0,
{
}

/// While an unbroken ladder of live back-reference holders spans every depth
/// in (lo, hi], no tier in [lo, hi) releases: a descendant line of live
/// tokens keeps every tier it derives from alive, so release can only start
/// at the deep end of the line.
pub proof fn lemma_live_ladder_keeps_range_alive(m: ChainModel, lo: nat, hi: nat)
    requires
        forall|k: nat| lo < k <= hi ==> #[trigger] m.back_refs_into((k - 1) as nat) > 0,
    ensures
        forall|i: nat| lo <= i < hi ==> #[trigger] m.tier_alive(i),
{
    assert forall|i: nat| lo <= i < hi implies m.tier_alive(i) by {
        let k = i + 1;
        assert(m.back_refs_into((k - 1) as nat) > 0);
    }
}

/// Release is irreversible: once a tier has released, no protocol step brings
/// it back to life. In particular a wait observed as released stays released.
pub proof fn lemma_release_irreversible(m: ChainModel, s: ChainStep, i: nat)
    requires
        m.step_enabled(s),
        i < m.num_tiers,
        m.tier_released(i),
    ensures
        m.apply(s).tier_released(i),
{
    let canon = TokenModel { depth: (i + 1) as nat, holds_back_ref: true };
    match s {
        ChainStep::Acquire { tier } => {
            assert(m.torn_down);
            assert(m.token_at(tier) != canon);
        },
        ChainStep::CloneToken { t } => {
            assert(m.live.count(canon) == 0);
            assert(t != canon);
        },
        ChainStep::Destroy { t } => {
            assert(m.destroy(t).live.count(canon) <= m.live.count(canon));
        },
        ChainStep::Teardown => {},
    }
}

/// Growing the chain to one depth twice is the same as growing it once: a
/// repeated request allocates no second tier.
pub proof fn lemma_acquire_idempotent_growth(m: ChainModel, tier: nat)
    ensures
        m.acquire(tier).acquire(tier).num_tiers == m.acquire(tier).num_tiers,
{
}

/// Chain growth is order-independent: two concurrent requests settle on the
/// same tier count whichever wins the lock first.
pub proof fn lemma_acquire_commutes(m: ChainModel, a: nat, b: nat)
    ensures
        m.acquire(a).acquire(b).num_tiers == m.acquire(b).acquire(a).num_tiers,
{
}

/// Deriving a child one level below an existing depth adds at most one tier,
/// and never shrinks the chain.
pub proof fn lemma_derive_adds_at_most_one_tier(m: ChainModel, tier: nat)
    requires
        m.num_tiers >= tier,
    ensures
        m.num_tiers <= m.acquire(tier).num_tiers <= m.num_tiers + 1,
{
}

impl ChainModel {
    /// The state after a whole sequence of steps, applied left to right.
    pub open spec fn run(self, steps: Seq<ChainStep>) -> ChainModel
        decreases steps.len(),
    {
        if steps.len() == 0 {
            self
        } else {
            self.run(steps.drop_last()).apply(steps.last())
        }
    }

    /// Whether each step of the sequence may fire in the state it meets.
    pub open spec fn run_enabled(self, steps: Seq<ChainStep>) -> bool
        decreases steps.len(),
    {
        if steps.len() == 0 {
            true
        } else {
            self.run_enabled(steps.drop_last()) && self.run(steps.drop_last()).step_enabled(
                steps.last(),
            )
        }
    }
}

/// No step removes a tier: the tier list grows monotonically.
pub proof fn lemma_num_tiers_monotone(m: ChainModel, s: ChainStep)
    ensures
        m.apply(s).num_tiers >= m.num_tiers,
{
}

/// Well-formedness holds along every execution.
pub proof fn lemma_wf_along_run(m: ChainModel, steps: Seq<ChainStep>)
    requires
        m.wf(),
        m.run_enabled(steps),
    ensures
        m.run(steps).wf(),
    decreases steps.len(),
{
    if steps.len() > 0 {
        lemma_wf_along_run(m, steps.drop_last());
        lemma_wf_preserved(m.run(steps.drop_last()), steps.last());
    }
}

/// Once a tier has released, it is still released after any execution: a
/// wait observed as released reports release forever after, whatever the
/// other components do.
pub proof fn lemma_release_stays_along_run(m: ChainModel, steps: Seq<ChainStep>, i: nat)
    requires
        m.run_enabled(steps),
        i < m.num_tiers,
        m.tier_released(i),
    ensures
        i < m.run(steps).num_tiers,
        m.run(steps).tier_released(i),
    decreases steps.len(),
{
    if steps.len() > 0 {
        lemma_release_stays_along_run(m, steps.drop_last(), i);
        lemma_release_irreversible(m.run(steps.drop_last()), steps.last(), i);
        lemma_num_tiers_monotone(m.run(steps.drop_last()), steps.last());
    }
}

} // verus!
