//! Laws of the tier model and the aggregators, stated and proved once, in
//! the terms the functions' own contracts use.

use vstd::prelude::*;

use crate::advancement::Advancement;
use crate::advancement::AdvancementSet;
use crate::advancement::AdvancementSum;
use crate::advancement::over_xp;
use crate::archetype::Archetype;
use crate::config::Config;
use crate::config::corpus_valid;
use crate::config::plant_refs_valid;
use crate::config::plant_tiers;
use crate::hackstead::HacksteadAdvancementSum;
use crate::hackstead::land_pieces;
use crate::hackstead::spec_land;
use crate::plant::FloatBits;
use crate::plant::PlantAdvancementSum;
use crate::plant::RecipeModel;
use crate::plant::kind_names_resolve;
use crate::plant::recipe_models;
use crate::plant::spec_xp_multipliers;
use crate::plant::xp_contrib;
use crate::scan::first_index_where;
use crate::scan::lemma_first_index_where;

verus! {

/// The tier thresholds are sorted ascending, the assumed well-formedness
/// of an `AdvancementSet`'s `rest`.
pub open spec fn rest_ascending<S: AdvancementSum>(rest: Seq<Advancement<S>>) -> bool {
    forall|i: int, j: int|
        #![trigger rest[i], rest[j]]
        0 <= i <= j < rest.len() ==> rest[i].xp <= rest[j].xp
}

/// Law: `current_position` is order-preserving below the upper boundary.
/// For `xp1 <= xp2` over a well-formed ascending `rest`, as long as some
/// threshold still exceeds `xp2`, the position at `xp1` is at most the
/// position at `xp2`. (At the upper boundary — no threshold exceeds the
/// counter — the position collapses to `0` by design, the documented
/// discontinuity, which this law therefore leaves out.)
pub proof fn lemma_current_position_monotonic<S: AdvancementSum>(
    s: AdvancementSet<S>,
    xp1: u64,
    xp2: u64,
)
    requires
        xp1 <= xp2,
        rest_ascending(s.rest@),
        exists|i: int| 0 <= i < s.rest@.len() && s.rest@[i].xp > xp2,
    ensures
        s.spec_current_position(xp1) <= s.spec_current_position(xp2),
{
    let p1 = over_xp::<S>(xp1);
    let p2 = over_xp::<S>(xp2);
    lemma_first_index_where(s.rest@, p1);
    lemma_first_index_where(s.rest@, p2);
    let w = choose|i: int| 0 <= i < s.rest@.len() && s.rest@[i].xp > xp2;
    assert(p2(s.rest@[w]));
    let k2 = first_index_where(s.rest@, p2);
    if k2 == -1 {
        assert(!p2(s.rest@[w]));
        assert(false);
    }
    assert(p1(s.rest@[k2]));
    let k1 = first_index_where(s.rest@, p1);
    if k1 == -1 {
        assert(!p1(s.rest@[k2]));
        assert(false);
    }
    if k1 > k2 {
        assert(!p1(s.rest@[k2]));
        assert(false);
    }
}

/// The position at experience zero is zero whenever every threshold in
/// `rest` is positive: either some tier exceeds zero (then the first such
/// is the very first tier) or none does (the boundary collapse).
pub proof fn lemma_position_at_zero<S: AdvancementSum>(s: AdvancementSet<S>)
    requires
        forall|i: int| 0 <= i < s.rest@.len() ==> s.rest@[i].xp > 0,
    ensures
        s.spec_current_position(0) == 0,
{
    let p = over_xp::<S>(0);
    lemma_first_index_where(s.rest@, p);
    let t = first_index_where(s.rest@, p);
    if t != -1 && t > 0 {
        assert(!p(s.rest@[0]));
        assert(s.rest@[0].xp > 0);
        assert(false);
    }
}

/// Law: the player-profile sum at experience zero is the aggregator's
/// identity — no land — whenever the base tier sits at threshold zero and
/// every further threshold is positive.
pub proof fn lemma_hackstead_sum_zero_identity(
    registry: Seq<Archetype>,
    s: AdvancementSet<HacksteadAdvancementSum>,
    r: HacksteadAdvancementSum,
)
    requires
        s.base.xp == 0,
        forall|i: int| 0 <= i < s.rest@.len() ==> s.rest@[i].xp > 0,
        HacksteadAdvancementSum::new_spec(
            registry,
            s.rest@.subrange(0, s.spec_current_position(0)),
            r,
        ),
    ensures
        r.land == 0,
{
    lemma_position_at_zero::<HacksteadAdvancementSum>(s);
    assert(s.rest@.subrange(0, 0) =~= Seq::<Advancement<HacksteadAdvancementSum>>::empty());
}

/// Law: the plant sum at experience zero is the aggregator's identity —
/// empty factor lists (an implicit product of one), no yields, no recipes —
/// whenever the base tier sits at threshold zero and every further
/// threshold is positive.
pub proof fn lemma_plant_sum_zero_identity(
    registry: Seq<Archetype>,
    s: AdvancementSet<PlantAdvancementSum>,
    r: PlantAdvancementSum,
)
    requires
        s.base.xp == 0,
        forall|i: int| 0 <= i < s.rest@.len() ==> s.rest@[i].xp > 0,
        PlantAdvancementSum::new_spec(
            registry,
            s.rest@.subrange(0, s.spec_current_position(0)),
            r,
        ),
    ensures
        r.xp_multipliers@ == Seq::<FloatBits>::empty(),
        r.yield_speed_multipliers@ == Seq::<FloatBits>::empty(),
        r.yields@ == Seq::<(FloatBits, usize)>::empty(),
        r.recipes@.len() == 0,
{
    lemma_position_at_zero::<PlantAdvancementSum>(s);
    assert(s.rest@.subrange(0, 0) =~= Seq::<Advancement<PlantAdvancementSum>>::empty());
    assert(recipe_models(r.recipes@) == Seq::<RecipeModel>::empty());
    assert(r.recipes@.len() == recipe_models(r.recipes@).len());
}

/// Removing one tier from anywhere in the fold removes exactly its grant.
pub proof fn lemma_spec_land_remove(s: Seq<Advancement<HacksteadAdvancementSum>>, j: int)
    requires
        0 <= j < s.len(),
    ensures
        spec_land(s) == spec_land(s.remove(j)) + land_pieces(s[j].kind),
    decreases s.len(),
{
    if j == s.len() - 1 {
        assert(s.remove(j) =~= s.drop_last());
    } else {
        lemma_spec_land_remove(s.drop_last(), j);
        assert(s.remove(j).drop_last() =~= s.drop_last().remove(j));
        assert(s.remove(j).last() == s.last());
        assert(s.drop_last()[j] == s[j]);
    }
}

/// Law: the land fold is invariant under permutation of the input tier
/// slice — it is a commutative accumulation, so the assumed sort order of
/// `rest` cannot change the total.
pub proof fn lemma_land_permutation(
    a: Seq<Advancement<HacksteadAdvancementSum>>,
    b: Seq<Advancement<HacksteadAdvancementSum>>,
)
    requires
        a.to_multiset() == b.to_multiset(),
    ensures
        spec_land(a) == spec_land(b),
    decreases a.len(),
{
    broadcast use vstd::seq_lib::group_to_multiset_ensures;

    assert(a.to_multiset().len() == a.len());
    assert(b.to_multiset().len() == b.len());
    if a.len() == 0 {
        assert(b.len() == 0);
    } else {
        let x = a.last();
        assert(a.contains(x));
        assert(b.to_multiset().count(x) > 0);
        assert(b.contains(x));
        let j = choose|j: int| 0 <= j < b.len() && b[j] == x;
        assert(a.remove(a.len() - 1).to_multiset() =~= a.to_multiset().remove(x));
        assert(b.remove(j).to_multiset() =~= b.to_multiset().remove(x));
        assert(a.remove(a.len() - 1) =~= a.drop_last());
        lemma_land_permutation(a.drop_last(), b.remove(j));
        lemma_spec_land_remove(b, j);
    }
}

/// Removing one tier from anywhere in the factor fold removes exactly its
/// contributed factors.
proof fn lemma_xp_factors_remove(s: Seq<Advancement<PlantAdvancementSum>>, j: int)
    requires
        0 <= j < s.len(),
    ensures
        spec_xp_multipliers(s).to_multiset() =~= spec_xp_multipliers(
            s.remove(j),
        ).to_multiset().add(xp_contrib(s[j].kind).to_multiset()),
    decreases s.len(),
{
    broadcast use vstd::multiset::group_multiset_axioms;

    if j == s.len() - 1 {
        assert(s.remove(j) =~= s.drop_last());
        vstd::seq_lib::lemma_multiset_commutative(
            spec_xp_multipliers(s.drop_last()),
            xp_contrib(s[j].kind),
        );
    } else {
        lemma_xp_factors_remove(s.drop_last(), j);
        assert(s.remove(j).drop_last() =~= s.drop_last().remove(j));
        assert(s.remove(j).last() == s.last());
        assert(s.drop_last()[j] == s[j]);
        vstd::seq_lib::lemma_multiset_commutative(
            spec_xp_multipliers(s.drop_last()),
            xp_contrib(s.last().kind),
        );
        vstd::seq_lib::lemma_multiset_commutative(
            spec_xp_multipliers(s.remove(j).drop_last()),
            xp_contrib(s.last().kind),
        );
    }
}

/// Law: permuting the input tier slice does not change the collection of
/// experience-multiplier factors, only their order. (The product of those
/// factors is floating-point work outside the model; a consumer folds the
/// listed factors out on its own side of the boundary.)
pub proof fn lemma_xp_factors_permutation(
    a: Seq<Advancement<PlantAdvancementSum>>,
    b: Seq<Advancement<PlantAdvancementSum>>,
)
    requires
        a.to_multiset() == b.to_multiset(),
    ensures
        spec_xp_multipliers(a).to_multiset() == spec_xp_multipliers(b).to_multiset(),
    decreases a.len(),
{
    broadcast use vstd::seq_lib::group_to_multiset_ensures;

    assert(a.to_multiset().len() == a.len());
    assert(b.to_multiset().len() == b.len());
    if a.len() == 0 {
        assert(b.len() == 0);
    } else {
        let x = a.last();
        assert(a.contains(x));
        assert(b.to_multiset().count(x) > 0);
        assert(b.contains(x));
        let j = choose|j: int| 0 <= j < b.len() && b[j] == x;
        assert(a.remove(a.len() - 1).to_multiset() =~= a.to_multiset().remove(x));
        assert(b.remove(j).to_multiset() =~= b.to_multiset().remove(x));
        assert(a.remove(a.len() - 1) =~= a.drop_last());
        lemma_xp_factors_permutation(a.drop_last(), b.remove(j));
        lemma_xp_factors_remove(b, j);
        vstd::seq_lib::lemma_multiset_commutative(
            spec_xp_multipliers(a.drop_last()),
            xp_contrib(x.kind),
        );
        assert(spec_xp_multipliers(a).to_multiset() =~= spec_xp_multipliers(b).to_multiset());
    }
}

/// Law: a corpus the validator accepts supports every plant-sum fold — for
/// each plant, the names referenced by any unlocked prefix of its tiers
/// resolve, so `sum` and `max` meet the plant aggregator's requirement.
pub proof fn lemma_valid_corpus_plant_sum_defined(c: Config, i: int, upto: int)
    requires
        corpus_valid(c),
        0 <= i < c.plant_archetypes@.len(),
        0 <= upto <= c.plant_archetypes@[i].advancements.rest@.len(),
    ensures
        PlantAdvancementSum::new_req(
            c.possession_archetypes@,
            c.plant_archetypes@[i].advancements.rest@.subrange(0, upto),
        ),
{
    let p = c.plant_archetypes@[i];
    assert(plant_refs_valid(c.possession_archetypes@, p));
    let pre = p.advancements.rest@.subrange(0, upto);
    assert forall|t: int| 0 <= t < pre.len() implies kind_names_resolve(
        c.possession_archetypes@,
        pre[t].kind,
    ) by {
        assert(pre[t] == plant_tiers(p)[t + 1]);
        assert(kind_names_resolve(c.possession_archetypes@, plant_tiers(p)[t + 1].kind));
    }
}

} // verus!
