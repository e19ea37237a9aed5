//! The player-profile aggregator: total land pieces over unlocked tiers.

use vstd::prelude::*;

use crate::advancement::Advancement;
use crate::advancement::AdvancementSum;
use crate::archetype::Archetype;

verus! {

/// The payload of one player-profile tier: a grant of land pieces.
#[derive(Debug, Clone)]
pub enum HacksteadAdvancementKind {
    Land { pieces: usize },
}

/// The player-profile bonus summary: total land pieces granted.
#[derive(Debug, Clone)]
pub struct HacksteadAdvancementSum {
    pub land: usize,
}

/// The land pieces one tier payload grants.
pub open spec fn land_pieces(k: HacksteadAdvancementKind) -> int {
    match k {
        HacksteadAdvancementKind::Land { pieces } => pieces as int,
    }
}

/// The sum of the land pieces granted by `unlocked`, folded in order.
pub open spec fn spec_land(unlocked: Seq<Advancement<HacksteadAdvancementSum>>) -> int
    decreases unlocked.len(),
{
    if unlocked.len() == 0 {
        0
    } else {
        spec_land(unlocked.drop_last()) + land_pieces(unlocked.last().kind)
    }
}

/// Extending the folded prefix by one tier adds that tier's pieces.
pub proof fn lemma_spec_land_take_step(s: Seq<Advancement<HacksteadAdvancementSum>>, i: int)
    requires
        0 <= i < s.len(),
    ensures
        spec_land(s.take(i + 1)) == spec_land(s.take(i)) + land_pieces(s[i].kind),
{
    assert(s.take(i + 1).drop_last() =~= s.take(i));
    assert(s.take(i + 1).last() == s[i]);
}

/// A prefix of the fold never exceeds the whole: every grant is nonnegative.
pub proof fn lemma_spec_land_prefix(s: Seq<Advancement<HacksteadAdvancementSum>>, i: int)
    requires
        0 <= i <= s.len(),
    ensures
        spec_land(s.take(i)) <= spec_land(s),
    decreases s.len() - i,
{
    if i == s.len() {
        assert(s.take(i) =~= s);
    } else {
        lemma_spec_land_take_step(s, i);
        lemma_spec_land_prefix(s, i + 1);
    }
}

impl AdvancementSum for HacksteadAdvancementSum {
    type Kind = HacksteadAdvancementKind;

    /// The total must fit the machine word the summary carries it in.
    open spec fn new_req(
        registry: Seq<Archetype>,
        unlocked: Seq<Advancement<HacksteadAdvancementSum>>,
    ) -> bool {
        spec_land(unlocked) <= usize::MAX
    }

    /// The summary's land is exactly the fold of the granted pieces.
    open spec fn new_spec(
        registry: Seq<Archetype>,
        unlocked: Seq<Advancement<HacksteadAdvancementSum>>,
        r: HacksteadAdvancementSum,
    ) -> bool {
        r.land as int == spec_land(unlocked)
    }

    fn new(registry: &Vec<Archetype>, unlocked: &[Advancement<HacksteadAdvancementSum>]) -> (r:
        HacksteadAdvancementSum) {
        let n = unlocked.len();
        let mut land: usize = 0;
        let mut i: usize = 0;
        while i < n
            invariant
                n == unlocked@.len(),
                0 <= i <= n,
                land as int == spec_land(unlocked@.take(i as int)),
                spec_land(unlocked@) <= usize::MAX,
            decreases n - i,
        {
            proof {
                lemma_spec_land_take_step(unlocked@, i as int);
                lemma_spec_land_prefix(unlocked@, i as int + 1);
            }
            match &unlocked[i].kind {
                HacksteadAdvancementKind::Land { pieces } => {
                    land = land + *pieces;
                },
            }
            i += 1;
        }
        proof {
            assert(unlocked@.take(n as int) =~= unlocked@);
        }
        HacksteadAdvancementSum { land }
    }
}

} // verus!
