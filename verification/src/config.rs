//! The loaded corpus: registry, tier sets, and the startup integrity gate.
//!
//! A [`Config`] is the fully loaded game-balance model, constructed once at
//! startup from the authored documents and shared read-only afterwards. The
//! [`Config::validate`] gate walks the whole corpus and collects one
//! [`Violation`] per dangling name reference; a corpus passes exactly when
//! no violation is found.

use vstd::prelude::*;

use crate::advancement::AdvancementSet;
use crate::archetype::Archetype;
use crate::archetype::ArchetypeHandle;
use crate::archetype::ArchetypeKind;
use crate::archetype::ConfigError;
use crate::archetype::find_archetype;
use crate::archetype::find_archetype_handle;
use crate::archetype::archetype_index;
use crate::archetype::has_archetype;
use crate::hackstead::HacksteadAdvancementSum;
use crate::plant::PlantAdvancementKind;
use crate::plant::PlantAdvancementSum;
use crate::plant::PlantArchetype;
use crate::plant::Recipe;
use crate::plant::kind_names_resolve;
use crate::plant::recipe_names_resolve;
use crate::scan::first_index_where;
use crate::scan::lemma_first_index_where;
use crate::advancement::Advancement;

verus! {

/// The fully loaded, immutable game-balance model.
pub struct Config {
    pub special_users: Vec<String>,
    pub hackstead_advancements: AdvancementSet<HacksteadAdvancementSum>,
    pub plant_archetypes: Vec<PlantArchetype>,
    pub possession_archetypes: Vec<Archetype>,
}

/// The predicate plant lookup scans with: the plant carries `name`.
pub open spec fn plant_named(name: Seq<char>) -> spec_fn(PlantArchetype) -> bool {
    |p: PlantArchetype| p.name@ == name
}

/// Some plant archetype in `s` carries `name`.
pub open spec fn has_plant(s: Seq<PlantArchetype>, name: Seq<char>) -> bool {
    exists|i: int| 0 <= i < s.len() && s[i].name@ == name
}

/// The index of the first plant archetype in `s` carrying `name`, or `-1`
/// when none does.
pub open spec fn plant_index(s: Seq<PlantArchetype>, name: Seq<char>) -> int {
    first_index_where(s, plant_named(name))
}

/// The resolved plant index is in range, carries the name, and nothing
/// before it does; and resolution succeeds exactly when the name occurs.
pub proof fn lemma_plant_index(s: Seq<PlantArchetype>, name: Seq<char>)
    ensures
        plant_index(s, name) == -1 <==> !has_plant(s, name),
        has_plant(s, name) ==> {
            let k = plant_index(s, name);
            &&& 0 <= k < s.len()
            &&& s[k].name@ == name
            &&& forall|j: int| 0 <= j < k ==> s[j].name@ != name
        },
{
    lemma_first_index_where(s, plant_named(name));
    assert(forall|j: int| 0 <= j < s.len() ==> (plant_named(name)(s[j]) <==> s[j].name@ == name));
}

/// The full ordered tier sequence of one plant, base first.
pub open spec fn plant_tiers(p: PlantArchetype) -> Seq<Advancement<PlantAdvancementSum>> {
    seq![p.advancements.base] + p.advancements.rest@
}

/// The first `upto` seed archetypes of `possessions` grow into known plants.
pub open spec fn seeds_prefix_ok(
    plants: Seq<PlantArchetype>,
    possessions: Seq<Archetype>,
    upto: int,
) -> bool {
    forall|i: int|
        0 <= i < upto ==> ((#[trigger] possessions[i].kind) matches ArchetypeKind::Seed(sa)
            ==> has_plant(plants, sa.grows_into@))
}

/// Every seed archetype's `grows_into` names a known plant archetype.
pub open spec fn seed_refs_valid(plants: Seq<PlantArchetype>, possessions: Seq<Archetype>) -> bool {
    seeds_prefix_ok(plants, possessions, possessions.len() as int)
}

/// The first `upto` tiers of `p` (base first) reference only known names.
pub open spec fn plant_tiers_prefix_ok(
    possessions: Seq<Archetype>,
    p: PlantArchetype,
    upto: int,
) -> bool {
    forall|t: int| 0 <= t < upto ==> kind_names_resolve(possessions, plant_tiers(p)[t].kind)
}

/// Every tier of `p` (base first) references only known names.
pub open spec fn plant_refs_valid(possessions: Seq<Archetype>, p: PlantArchetype) -> bool {
    plant_tiers_prefix_ok(possessions, p, plant_tiers(p).len() as int)
}

/// The first `upto` plant archetypes reference only known names.
pub open spec fn plants_prefix_ok(
    possessions: Seq<Archetype>,
    plants: Seq<PlantArchetype>,
    upto: int,
) -> bool {
    forall|i: int| 0 <= i < upto ==> plant_refs_valid(possessions, plants[i])
}

/// Referential integrity of the whole corpus: every `grows_into`, every
/// yield resource, and every recipe product and ingredient resolves.
pub open spec fn corpus_valid(c: Config) -> bool {
    &&& seed_refs_valid(c.plant_archetypes@, c.possession_archetypes@)
    &&& plants_prefix_ok(c.possession_archetypes@, c.plant_archetypes@, c.plant_archetypes@.len() as int)
}

/// Which integrity check a reported violation failed.
pub enum ViolationKind {
    SeedGrowsUnknown,
    YieldUnknownResource,
    CraftUnknownProduct,
    CraftUnknownIngredient,
}

/// One dangling reference found by the integrity gate: the failed check,
/// the owning archetype's or plant's name, the offending tier's title
/// (empty for seed violations, which have no tier), and the name that did
/// not resolve.
pub struct Violation {
    pub kind: ViolationKind,
    pub owner: String,
    pub title: String,
    pub reference: String,
}

/// The reported reference is truly dangling in the corpus.
pub open spec fn violation_dangling(
    plants: Seq<PlantArchetype>,
    possessions: Seq<Archetype>,
    v: Violation,
) -> bool {
    match v.kind {
        ViolationKind::SeedGrowsUnknown => !has_plant(plants, v.reference@),
        _ => !has_archetype(possessions, v.reference@),
    }
}

impl Config {
    /// The first plant archetype carrying `name`, in authored order, or the
    /// unknown-name error when no plant carries it.
    pub fn find_plant<'a>(&'a self, name: &String) -> (r: Result<&'a PlantArchetype, ConfigError>)
        ensures
            match r {
                Ok(p) => {
                    &&& has_plant(self.plant_archetypes@, name@)
                    &&& *p == self.plant_archetypes@[plant_index(self.plant_archetypes@, name@)]
                },
                Err(e) => {
                    &&& !has_plant(self.plant_archetypes@, name@)
                    &&& e matches ConfigError::UnknownArchetypeName(n) && n@ == name@
                },
            },
    {
        let n = self.plant_archetypes.len();
        let mut i: usize = 0;
        while i < n
            invariant
                n == self.plant_archetypes@.len(),
                0 <= i <= n,
                forall|j: int| 0 <= j < i ==> self.plant_archetypes@[j].name@ != name@,
            decreases n - i,
        {
            if self.plant_archetypes[i].name == *name {
                proof {
                    lemma_plant_index(self.plant_archetypes@, name@);
                    assert(has_plant(self.plant_archetypes@, name@)) by {
                        assert(self.plant_archetypes@[i as int].name@ == name@);
                    }
                    let k = plant_index(self.plant_archetypes@, name@);
                    if k < i as int {
                        assert(self.plant_archetypes@[k].name@ != name@);
                        assert(false);
                    }
                    if k > i as int {
                        assert(self.plant_archetypes@[i as int].name@ != name@);
                        assert(false);
                    }
                }
                return Ok(&self.plant_archetypes[i]);
            }
            i += 1;
        }
        Err(ConfigError::UnknownArchetypeName(name.clone()))
    }

    /// The first possession archetype carrying `name`, or the unknown-name
    /// error.
    pub fn find_possession<'a>(&'a self, name: &String) -> (r: Result<&'a Archetype, ConfigError>)
        ensures
            match r {
                Ok(a) => {
                    &&& has_archetype(self.possession_archetypes@, name@)
                    &&& *a == self.possession_archetypes@[archetype_index(
                        self.possession_archetypes@,
                        name@,
                    )]
                },
                Err(e) => {
                    &&& !has_archetype(self.possession_archetypes@, name@)
                    &&& e matches ConfigError::UnknownArchetypeName(n) && n@ == name@
                },
            },
    {
        find_archetype(&self.possession_archetypes, name)
    }

    /// The handle `name` resolves to among the possession archetypes, or
    /// the unknown-name error.
    pub fn find_possession_handle(&self, name: &String) -> (r: Result<ArchetypeHandle, ConfigError>)
        ensures
            match r {
                Ok(h) => {
                    &&& has_archetype(self.possession_archetypes@, name@)
                    &&& h as int == archetype_index(self.possession_archetypes@, name@)
                },
                Err(e) => {
                    &&& !has_archetype(self.possession_archetypes@, name@)
                    &&& e matches ConfigError::UnknownArchetypeName(n) && n@ == name@
                },
            },
    {
        find_archetype_handle(&self.possession_archetypes, name)
    }

    /// The startup integrity gate: walk the whole corpus and collect one
    /// violation per dangling reference. The corpus passes — the result is
    /// empty — exactly when every cross-reference resolves; and every
    /// collected violation names a reference that is truly dangling.
    pub fn validate(&self) -> (r: Vec<Violation>)
        ensures
            r@.len() == 0 <==> corpus_valid(*self),
            forall|t: int|
                0 <= t < r@.len() ==> violation_dangling(
                    self.plant_archetypes@,
                    self.possession_archetypes@,
                    r@[t],
                ),
    {
        let mut viols: Vec<Violation> = Vec::new();
        let n = self.possession_archetypes.len();
        let mut i: usize = 0;
        while i < n
            invariant
                n == self.possession_archetypes@.len(),
                0 <= i <= n,
                viols@.len() == 0 ==> seeds_prefix_ok(
                    self.plant_archetypes@,
                    self.possession_archetypes@,
                    i as int,
                ),
                seeds_prefix_ok(self.plant_archetypes@, self.possession_archetypes@, n as int)
                    ==> viols@.len() == 0,
                forall|t: int|
                    0 <= t < viols@.len() ==> violation_dangling(
                        self.plant_archetypes@,
                        self.possession_archetypes@,
                        viols@[t],
                    ),
            decreases n - i,
        {
            match &self.possession_archetypes[i].kind {
                ArchetypeKind::Seed(sa) => {
                    match self.find_plant(&sa.grows_into) {
                        Ok(_) => {},
                        Err(_) => {
                            let v = Violation {
                                kind: ViolationKind::SeedGrowsUnknown,
                                owner: self.possession_archetypes[i].name.clone(),
                                title: String::new(),
                                reference: sa.grows_into.clone(),
                            };
                            proof {
                                assert(violation_dangling(
                                    self.plant_archetypes@,
                                    self.possession_archetypes@,
                                    v,
                                ));
                            }
                            viols.push(v);
                        },
                    }
                },
                _ => {},
            }
            i += 1;
        }
        let pn = self.plant_archetypes.len();
        let mut pi: usize = 0;
        while pi < pn
            invariant
                pn == self.plant_archetypes@.len(),
                0 <= pi <= pn,
                viols@.len() == 0 ==> seed_refs_valid(
                    self.plant_archetypes@,
                    self.possession_archetypes@,
                ) && plants_prefix_ok(
                    self.possession_archetypes@,
                    self.plant_archetypes@,
                    pi as int,
                ),
                corpus_valid(*self) ==> viols@.len() == 0,
                forall|t: int|
                    0 <= t < viols@.len() ==> violation_dangling(
                        self.plant_archetypes@,
                        self.possession_archetypes@,
                        viols@[t],
                    ),
            decreases pn - pi,
        {
            let plant = &self.plant_archetypes[pi];
            let tn = plant.advancements.rest.len();
            let mut t: usize = 0;
            let mut vk = check_kind(
                &self.possession_archetypes,
                &plant.name,
                &plant.advancements.base.title,
                &plant.advancements.base.kind,
            );
            let ghost viols_before = viols@;
            viols.append(&mut vk);
            proof {
                assert(plant_tiers(*plant)[0].kind == plant.advancements.base.kind);
            }
            while t < tn
                invariant
                    tn == plant.advancements.rest@.len(),
                    0 <= t <= tn,
                    *plant == self.plant_archetypes@[pi as int],
                    0 <= pi < self.plant_archetypes@.len(),
                    viols@.len() == 0 ==> seed_refs_valid(
                        self.plant_archetypes@,
                        self.possession_archetypes@,
                    ) && plants_prefix_ok(
                        self.possession_archetypes@,
                        self.plant_archetypes@,
                        pi as int,
                    ) && plant_tiers_prefix_ok(
                        self.possession_archetypes@,
                        *plant,
                        t as int + 1,
                    ),
                    corpus_valid(*self) ==> viols@.len() == 0,
                    forall|x: int|
                        0 <= x < viols@.len() ==> violation_dangling(
                            self.plant_archetypes@,
                            self.possession_archetypes@,
                            viols@[x],
                        ),
                decreases tn - t,
            {
                let tier = &plant.advancements.rest[t];
                let mut vt = check_kind(
                    &self.possession_archetypes,
                    &plant.name,
                    &tier.title,
                    &tier.kind,
                );
                proof {
                    assert(plant_tiers(*plant)[t as int + 1].kind == tier.kind);
                    if corpus_valid(*self) {
                        assert(plant_refs_valid(self.possession_archetypes@, *plant));
                        assert(kind_names_resolve(self.possession_archetypes@, tier.kind));
                    }
                }
                viols.append(&mut vt);
                t += 1;
            }
            proof {
                if viols@.len() == 0 {
                    assert(plant_tiers_prefix_ok(
                        self.possession_archetypes@,
                        *plant,
                        tn as int + 1,
                    ));
                    assert(plant_refs_valid(self.possession_archetypes@, *plant)) by {
                        assert(plant_tiers(*plant).len() == tn as int + 1);
                    }
                    assert(plants_prefix_ok(
                        self.possession_archetypes@,
                        self.plant_archetypes@,
                        pi as int + 1,
                    ));
                }
            }
            pi += 1;
        }
        viols
    }
}

/// Collect one violation per dangling name in one tier payload, attributed
/// to the owning plant and the tier's title. The result is empty exactly
/// when every name the payload carries resolves.
fn check_kind(
    possessions: &Vec<Archetype>,
    owner: &String,
    title: &String,
    kind: &PlantAdvancementKind,
) -> (r: Vec<Violation>)
    ensures
        r@.len() == 0 <==> kind_names_resolve(possessions@, *kind),
        forall|t: int|
            0 <= t < r@.len() ==> !(r@[t].kind is SeedGrowsUnknown) && !has_archetype(
                possessions@,
                r@[t].reference@,
            ),
{
    let mut out: Vec<Violation> = Vec::new();
    match kind {
        PlantAdvancementKind::Yield { resources } => {
            let m = resources.len();
            let mut q: usize = 0;
            while q < m
                invariant
                    m == resources@.len(),
                    0 <= q <= m,
                    out@.len() == 0 ==> forall|x: int|
                        0 <= x < q ==> has_archetype(possessions@, resources@[x].1@),
                    (forall|x: int|
                        0 <= x < resources@.len() ==> has_archetype(possessions@, resources@[x].1@))
                        ==> out@.len() == 0,
                    forall|t: int|
                        0 <= t < out@.len() ==> !(out@[t].kind is SeedGrowsUnknown)
                            && !has_archetype(possessions@, out@[t].reference@),
                decreases m - q,
            {
                match find_archetype(possessions, &resources[q].1) {
                    Ok(_) => {},
                    Err(_) => {
                        out.push(
                            Violation {
                                kind: ViolationKind::YieldUnknownResource,
                                owner: owner.clone(),
                                title: title.clone(),
                                reference: resources[q].1.clone(),
                            },
                        );
                    },
                }
                q += 1;
            }
        },
        PlantAdvancementKind::Craft { recipes } => {
            let rn = recipes.len();
            let mut k: usize = 0;
            while k < rn
                invariant
                    rn == recipes@.len(),
                    0 <= k <= rn,
                    out@.len() == 0 ==> forall|x: int|
                        0 <= x < k ==> recipe_names_resolve(possessions@, recipes@[x]),
                    (forall|x: int|
                        0 <= x < recipes@.len() ==> recipe_names_resolve(possessions@, recipes@[x]))
                        ==> out@.len() == 0,
                    forall|t: int|
                        0 <= t < out@.len() ==> !(out@[t].kind is SeedGrowsUnknown)
                            && !has_archetype(possessions@, out@[t].reference@),
                decreases rn - k,
            {
                let mut vr = check_recipe(possessions, owner, title, &recipes[k]);
                out.append(&mut vr);
                k += 1;
            }
        },
        _ => {},
    }
    out
}

/// Collect one violation per dangling name in one authored recipe. The
/// result is empty exactly when the product and every ingredient resolve.
fn check_recipe(
    possessions: &Vec<Archetype>,
    owner: &String,
    title: &String,
    r: &Recipe<String>,
) -> (out: Vec<Violation>)
    ensures
        out@.len() == 0 <==> recipe_names_resolve(possessions@, *r),
        forall|t: int|
            0 <= t < out@.len() ==> !(out@[t].kind is SeedGrowsUnknown) && !has_archetype(
                possessions@,
                out@[t].reference@,
            ),
{
    let mut out: Vec<Violation> = Vec::new();
    match find_archetype(possessions, &r.makes) {
        Ok(_) => {},
        Err(_) => {
            out.push(
                Violation {
                    kind: ViolationKind::CraftUnknownProduct,
                    owner: owner.clone(),
                    title: title.clone(),
                    reference: r.makes.clone(),
                },
            );
        },
    }
    let m = r.needs.len();
    let mut q: usize = 0;
    while q < m
        invariant
            m == r.needs@.len(),
            0 <= q <= m,
            out@.len() == 0 ==> has_archetype(possessions@, r.makes@) && forall|x: int|
                0 <= x < q ==> has_archetype(possessions@, r.needs@[x].1@),
            recipe_names_resolve(possessions@, *r) ==> out@.len() == 0,
            forall|t: int|
                0 <= t < out@.len() ==> !(out@[t].kind is SeedGrowsUnknown) && !has_archetype(
                    possessions@,
                    out@[t].reference@,
                ),
        decreases m - q,
    {
        match find_archetype(possessions, &r.needs[q].1) {
            Ok(_) => {},
            Err(_) => {
                out.push(
                    Violation {
                        kind: ViolationKind::CraftUnknownIngredient,
                        owner: owner.clone(),
                        title: title.clone(),
                        reference: r.needs[q].1.clone(),
                    },
                );
            },
        }
        q += 1;
    }
    out
}

} // verus!
