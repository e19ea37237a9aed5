//! The plant aggregator: multipliers, yields and craftable recipes over
//! unlocked tiers, with authored names resolved to registry handles.
//!
//! The authored data carries IEEE-754 binary32 multipliers and yield
//! amounts. The verifier has no theory of floating point, so the model
//! carries each such value opaquely as its raw bit pattern ([`FloatBits`]),
//! and the summary keeps the multipliers of the unlocked tiers as ordered
//! lists rather than folding them into products; a consumer multiplies the
//! listed factors out, in list order, on its own side of the boundary.
//!
//! Name resolution failure during folding is a data-authoring bug, not a
//! runtime condition: the fold requires every referenced name to resolve
//! (the corpus validator establishes exactly that), so the verified fold
//! has no failure path.

use vstd::prelude::*;

use crate::advancement::Advancement;
use crate::advancement::AdvancementSet;
use crate::advancement::AdvancementSum;
use crate::archetype::Archetype;
use crate::archetype::ArchetypeHandle;
use crate::archetype::archetype_index;
use crate::archetype::find_archetype_handle;
use crate::archetype::has_archetype;

verus! {

/// An IEEE-754 binary32 value, carried opaquely as its raw bit pattern.
pub type FloatBits = u32;

/// A growable plant type whose bonuses are tier-gated by plant experience.
pub struct PlantArchetype {
    pub name: String,
    pub advancements: AdvancementSet<PlantAdvancementSum>,
}

/// A crafting recipe, generic over the way archetypes are referred to:
/// authored names (`String`) in the configuration, resolved
/// [`ArchetypeHandle`]s at runtime. The two representations are never mixed
/// in one structure.
#[derive(Debug, Clone)]
pub struct Recipe<Handle> {
    pub needs: Vec<(usize, Handle)>,
    pub makes: Handle,
}

/// The payload of one plant tier.
#[derive(Debug, Clone)]
pub enum PlantAdvancementKind {
    Xp { multiplier: FloatBits },
    YieldSpeed { multiplier: FloatBits },
    YieldNeighboringSize { multiplier: FloatBits },
    Yield { resources: Vec<(FloatBits, String)> },
    Craft { recipes: Vec<Recipe<String>> },
}

/// The plant bonus summary. The two multiplier fields list the unlocked
/// factors in tier order (each starts from an implicit identity of one);
/// `yields` and `recipes` carry their authored entries with every name
/// resolved to a handle.
#[derive(Debug, Clone)]
pub struct PlantAdvancementSum {
    pub xp_multipliers: Vec<FloatBits>,
    pub yield_speed_multipliers: Vec<FloatBits>,
    pub yields: Vec<(FloatBits, ArchetypeHandle)>,
    pub recipes: Vec<Recipe<ArchetypeHandle>>,
}

/// The mathematical form of one resolved recipe.
pub ghost struct RecipeModel {
    pub needs: Seq<(usize, ArchetypeHandle)>,
    pub makes: ArchetypeHandle,
}

/// The mathematical form a resolved recipe carries.
pub open spec fn recipe_model(r: Recipe<ArchetypeHandle>) -> RecipeModel {
    RecipeModel { needs: r.needs@, makes: r.makes }
}

/// The mathematical forms of a list of resolved recipes.
pub open spec fn recipe_models(rs: Seq<Recipe<ArchetypeHandle>>) -> Seq<RecipeModel> {
    rs.map_values(|r: Recipe<ArchetypeHandle>| recipe_model(r))
}

/// The handle an authored name resolves to; meaningful only where
/// `has_archetype` holds of the name.
pub open spec fn resolve_handle(registry: Seq<Archetype>, name: Seq<char>) -> ArchetypeHandle {
    archetype_index(registry, name) as usize
}

/// Authored yield resources with each name resolved to its handle.
pub open spec fn resolve_resources(registry: Seq<Archetype>, resources: Seq<(FloatBits, String)>) -> Seq<
    (FloatBits, ArchetypeHandle),
> {
    resources.map_values(|p: (FloatBits, String)| (p.0, resolve_handle(registry, p.1@)))
}

/// Authored recipe inputs with each name resolved to its handle.
pub open spec fn resolve_needs(registry: Seq<Archetype>, needs: Seq<(usize, String)>) -> Seq<
    (usize, ArchetypeHandle),
> {
    needs.map_values(|p: (usize, String)| (p.0, resolve_handle(registry, p.1@)))
}

/// An authored recipe with every name resolved to its handle.
pub open spec fn resolve_recipe(registry: Seq<Archetype>, r: Recipe<String>) -> RecipeModel {
    RecipeModel {
        needs: resolve_needs(registry, r.needs@),
        makes: resolve_handle(registry, r.makes@),
    }
}

/// Authored recipes with every name resolved to its handle.
pub open spec fn resolve_recipes(registry: Seq<Archetype>, rs: Seq<Recipe<String>>) -> Seq<
    RecipeModel,
> {
    rs.map_values(|r: Recipe<String>| resolve_recipe(registry, r))
}

/// The experience-multiplier factors one tier payload contributes.
pub open spec fn xp_contrib(k: PlantAdvancementKind) -> Seq<FloatBits> {
    match k {
        PlantAdvancementKind::Xp { multiplier } => seq![multiplier],
        _ => Seq::empty(),
    }
}

/// The yield-speed factors one tier payload contributes.
pub open spec fn speed_contrib(k: PlantAdvancementKind) -> Seq<FloatBits> {
    match k {
        PlantAdvancementKind::YieldSpeed { multiplier } => seq![multiplier],
        _ => Seq::empty(),
    }
}

/// The resolved yield entries one tier payload contributes.
pub open spec fn yields_contrib(registry: Seq<Archetype>, k: PlantAdvancementKind) -> Seq<
    (FloatBits, ArchetypeHandle),
> {
    match k {
        PlantAdvancementKind::Yield { resources } => resolve_resources(registry, resources@),
        _ => Seq::empty(),
    }
}

/// The resolved recipes one tier payload contributes.
pub open spec fn recipes_contrib(registry: Seq<Archetype>, k: PlantAdvancementKind) -> Seq<
    RecipeModel,
> {
    match k {
        PlantAdvancementKind::Craft { recipes } => resolve_recipes(registry, recipes@),
        _ => Seq::empty(),
    }
}

/// The experience-multiplier factors of `unlocked`, in tier order.
pub open spec fn spec_xp_multipliers(unlocked: Seq<Advancement<PlantAdvancementSum>>) -> Seq<
    FloatBits,
>
    decreases unlocked.len(),
{
    if unlocked.len() == 0 {
        Seq::empty()
    } else {
        spec_xp_multipliers(unlocked.drop_last()) + xp_contrib(unlocked.last().kind)
    }
}

/// The yield-speed factors of `unlocked`, in tier order.
pub open spec fn spec_yield_speed_multipliers(
    unlocked: Seq<Advancement<PlantAdvancementSum>>,
) -> Seq<FloatBits>
    decreases unlocked.len(),
{
    if unlocked.len() == 0 {
        Seq::empty()
    } else {
        spec_yield_speed_multipliers(unlocked.drop_last()) + speed_contrib(unlocked.last().kind)
    }
}

/// The resolved yield entries of `unlocked`, in tier order.
pub open spec fn spec_yields(
    registry: Seq<Archetype>,
    unlocked: Seq<Advancement<PlantAdvancementSum>>,
) -> Seq<(FloatBits, ArchetypeHandle)>
    decreases unlocked.len(),
{
    if unlocked.len() == 0 {
        Seq::empty()
    } else {
        spec_yields(registry, unlocked.drop_last()) + yields_contrib(
            registry,
            unlocked.last().kind,
        )
    }
}

/// The resolved recipes of `unlocked`, in tier order.
pub open spec fn spec_recipes(
    registry: Seq<Archetype>,
    unlocked: Seq<Advancement<PlantAdvancementSum>>,
) -> Seq<RecipeModel>
    decreases unlocked.len(),
{
    if unlocked.len() == 0 {
        Seq::empty()
    } else {
        spec_recipes(registry, unlocked.drop_last()) + recipes_contrib(
            registry,
            unlocked.last().kind,
        )
    }
}

/// Every name an authored recipe carries resolves in the registry.
pub open spec fn recipe_names_resolve(registry: Seq<Archetype>, r: Recipe<String>) -> bool {
    &&& has_archetype(registry, r.makes@)
    &&& forall|q: int| 0 <= q < r.needs@.len() ==> has_archetype(registry, r.needs@[q].1@)
}

/// Every name one tier payload carries resolves in the registry.
pub open spec fn kind_names_resolve(registry: Seq<Archetype>, k: PlantAdvancementKind) -> bool {
    match k {
        PlantAdvancementKind::Yield { resources } => forall|q: int|
            0 <= q < resources@.len() ==> has_archetype(registry, resources@[q].1@),
        PlantAdvancementKind::Craft { recipes } => forall|q: int|
            0 <= q < recipes@.len() ==> recipe_names_resolve(registry, recipes@[q]),
        _ => true,
    }
}

/// Every name any tier of `unlocked` carries resolves in the registry.
pub open spec fn names_resolve(
    registry: Seq<Archetype>,
    unlocked: Seq<Advancement<PlantAdvancementSum>>,
) -> bool {
    forall|i: int| 0 <= i < unlocked.len() ==> kind_names_resolve(registry, unlocked[i].kind)
}

/// Extending the folded prefix by one tier appends that tier's
/// contributions to each component of the summary.
pub proof fn lemma_plant_folds_take_step(
    registry: Seq<Archetype>,
    s: Seq<Advancement<PlantAdvancementSum>>,
    i: int,
)
    requires
        0 <= i < s.len(),
    ensures
        spec_xp_multipliers(s.take(i + 1)) == spec_xp_multipliers(s.take(i)) + xp_contrib(
            s[i].kind,
        ),
        spec_yield_speed_multipliers(s.take(i + 1)) == spec_yield_speed_multipliers(s.take(i))
            + speed_contrib(s[i].kind),
        spec_yields(registry, s.take(i + 1)) == spec_yields(registry, s.take(i)) + yields_contrib(
            registry,
            s[i].kind,
        ),
        spec_recipes(registry, s.take(i + 1)) == spec_recipes(registry, s.take(i))
            + recipes_contrib(registry, s[i].kind),
{
    assert(s.take(i + 1).drop_last() =~= s.take(i));
    assert(s.take(i + 1).last() == s[i]);
}

impl AdvancementSum for PlantAdvancementSum {
    type Kind = PlantAdvancementKind;

    /// Every name the unlocked tiers reference must resolve: a dangling
    /// reference is a data-authoring bug the corpus validator rejects, not
    /// a runtime condition the fold recovers from.
    open spec fn new_req(
        registry: Seq<Archetype>,
        unlocked: Seq<Advancement<PlantAdvancementSum>>,
    ) -> bool {
        names_resolve(registry, unlocked)
    }

    /// Each component of the summary is exactly the in-order concatenation
    /// of the unlocked tiers' contributions, names resolved against the
    /// registry.
    open spec fn new_spec(
        registry: Seq<Archetype>,
        unlocked: Seq<Advancement<PlantAdvancementSum>>,
        r: PlantAdvancementSum,
    ) -> bool {
        &&& r.xp_multipliers@ == spec_xp_multipliers(unlocked)
        &&& r.yield_speed_multipliers@ == spec_yield_speed_multipliers(unlocked)
        &&& r.yields@ == spec_yields(registry, unlocked)
        &&& recipe_models(r.recipes@) == spec_recipes(registry, unlocked)
    }

    fn new(registry: &Vec<Archetype>, unlocked: &[Advancement<PlantAdvancementSum>]) -> (r:
        PlantAdvancementSum) {
        let mut xp_multipliers: Vec<FloatBits> = Vec::new();
        let mut yield_speed_multipliers: Vec<FloatBits> = Vec::new();
        let mut yields: Vec<(FloatBits, ArchetypeHandle)> = Vec::new();
        let mut out_recipes: Vec<Recipe<ArchetypeHandle>> = Vec::new();
        let n = unlocked.len();
        let mut i: usize = 0;
        while i < n
            invariant
                n == unlocked@.len(),
                0 <= i <= n,
                names_resolve(registry@, unlocked@),
                xp_multipliers@ == spec_xp_multipliers(unlocked@.take(i as int)),
                yield_speed_multipliers@ == spec_yield_speed_multipliers(
                    unlocked@.take(i as int),
                ),
                yields@ == spec_yields(registry@, unlocked@.take(i as int)),
                recipe_models(out_recipes@) == spec_recipes(registry@, unlocked@.take(i as int)),
            decreases n - i,
        {
            proof {
                lemma_plant_folds_take_step(registry@, unlocked@, i as int);
                assert(kind_names_resolve(registry@, unlocked@[i as int].kind));
            }
            match &unlocked[i].kind {
                PlantAdvancementKind::Xp { multiplier } => {
                    xp_multipliers.push(*multiplier);
                    proof {
                        assert(xp_multipliers@ =~= spec_xp_multipliers(
                            unlocked@.take(i as int + 1),
                        ));
                    }
                },
                PlantAdvancementKind::YieldSpeed { multiplier } => {
                    yield_speed_multipliers.push(*multiplier);
                    proof {
                        assert(yield_speed_multipliers@ =~= spec_yield_speed_multipliers(
                            unlocked@.take(i as int + 1),
                        ));
                    }
                },
                PlantAdvancementKind::YieldNeighboringSize { .. } => {
                    // intentionally no effect on this aggregate; its
                    // influence is applied elsewhere by a collaborator
                },
                PlantAdvancementKind::Yield { resources } => {
                    let ghost yields0 = yields@;
                    let m = resources.len();
                    let mut j: usize = 0;
                    while j < m
                        invariant
                            m == resources@.len(),
                            0 <= j <= m,
                            forall|q: int|
                                0 <= q < resources@.len() ==> has_archetype(
                                    registry@,
                                    resources@[q].1@,
                                ),
                            yields@ == yields0 + resolve_resources(
                                registry@,
                                resources@.take(j as int),
                            ),
                        decreases m - j,
                    {
                        let c = resources[j].0;
                        let h = match find_archetype_handle(registry, &resources[j].1) {
                            Ok(h) => h,
                            Err(_) => {
                                proof {
                                    assert(false);
                                }
                                0
                            },
                        };
                        yields.push((c, h));
                        proof {
                            assert(yields@ =~= yields0 + resolve_resources(
                                registry@,
                                resources@.take(j as int + 1),
                            ));
                        }
                        j += 1;
                    }
                    proof {
                        assert(resources@.take(m as int) =~= resources@);
                    }
                },
                PlantAdvancementKind::Craft { recipes } => {
                    let ghost models0 = recipe_models(out_recipes@);
                    let rn = recipes.len();
                    let mut k: usize = 0;
                    while k < rn
                        invariant
                            rn == recipes@.len(),
                            0 <= k <= rn,
                            forall|q: int|
                                0 <= q < recipes@.len() ==> recipe_names_resolve(
                                    registry@,
                                    recipes@[q],
                                ),
                            recipe_models(out_recipes@) == models0 + resolve_recipes(
                                registry@,
                                recipes@.take(k as int),
                            ),
                        decreases rn - k,
                    {
                        let authored = &recipes[k];
                        let makes = match find_archetype_handle(registry, &authored.makes) {
                            Ok(h) => h,
                            Err(_) => {
                                proof {
                                    assert(false);
                                }
                                0
                            },
                        };
                        let mut needs: Vec<(usize, ArchetypeHandle)> = Vec::new();
                        let qn = authored.needs.len();
                        let mut q: usize = 0;
                        while q < qn
                            invariant
                                qn == authored.needs@.len(),
                                0 <= q <= qn,
                                forall|t: int|
                                    0 <= t < authored.needs@.len() ==> has_archetype(
                                        registry@,
                                        authored.needs@[t].1@,
                                    ),
                                needs@ == resolve_needs(
                                    registry@,
                                    authored.needs@.take(q as int),
                                ),
                            decreases qn - q,
                        {
                            let c = authored.needs[q].0;
                            let h = match find_archetype_handle(registry, &authored.needs[q].1) {
                                Ok(h) => h,
                                Err(_) => {
                                    proof {
                                        assert(false);
                                    }
                                    0
                                },
                            };
                            needs.push((c, h));
                            proof {
                                assert(needs@ =~= resolve_needs(
                                    registry@,
                                    authored.needs@.take(q as int + 1),
                                ));
                            }
                            q += 1;
                        }
                        proof {
                            assert(authored.needs@.take(qn as int) =~= authored.needs@);
                        }
                        let resolved = Recipe { needs, makes };
                        proof {
                            assert(recipe_model(resolved) == resolve_recipe(
                                registry@,
                                recipes@[k as int],
                            ));
                        }
                        let ghost before = out_recipes@;
                        out_recipes.push(resolved);
                        proof {
                            assert(recipe_models(out_recipes@) =~= recipe_models(before).push(
                                recipe_model(resolved),
                            ));
                            assert(resolve_recipes(registry@, recipes@.take(k as int + 1))
                                =~= resolve_recipes(registry@, recipes@.take(k as int)).push(
                                resolve_recipe(registry@, recipes@[k as int]),
                            ));
                            assert(recipe_models(out_recipes@) =~= models0 + resolve_recipes(
                                registry@,
                                recipes@.take(k as int + 1),
                            ));
                        }
                        k += 1;
                    }
                    proof {
                        assert(recipes@.take(rn as int) =~= recipes@);
                    }
                },
            }
            i += 1;
        }
        proof {
            assert(unlocked@.take(n as int) =~= unlocked@);
        }
        PlantAdvancementSum { xp_multipliers, yield_speed_multipliers, yields, recipes: out_recipes }
    }
}

} // verus!
