//! The archetype registry: named content entries and name lookup.
//!
//! Every possession the game knows is one [`Archetype`] in an authored,
//! ordered list. An [`ArchetypeHandle`] is the entry's position in that
//! list; handles are dense, zero-based, and stable only within the registry
//! instance that produced them. Lookup is a linear scan in authored order,
//! so where two entries share a name the first occurrence wins.

use vstd::prelude::*;

use crate::scan::first_index_where;
use crate::scan::lemma_first_index_where;

verus! {

/// A stable integer handle: the archetype's index in the authored list.
pub type ArchetypeHandle = usize;

/// The one error of the model: a name that no archetype in the searched
/// list carries.
#[derive(Debug, Clone)]
pub enum ConfigError {
    UnknownArchetypeName(String),
}

/// Payload of an archetype that is a gotchi.
#[derive(Debug, Clone)]
pub struct GotchiArchetype {
    pub base_happiness: u64,
}

/// Payload of an archetype that is a seed; `grows_into` names a plant
/// archetype by its authored name.
#[derive(Debug, Clone)]
pub struct SeedArchetype {
    pub grows_into: String,
}

/// Payload of an archetype that is a keepsake.
#[derive(Debug, Clone)]
pub struct KeepsakeArchetype;

/// The tagged payload of one archetype.
#[derive(Debug, Clone)]
pub enum ArchetypeKind {
    Gotchi(GotchiArchetype),
    Seed(SeedArchetype),
    Keepsake(KeepsakeArchetype),
}

/// One named content entry (possession template).
#[derive(Debug, Clone)]
pub struct Archetype {
    pub name: String,
    pub kind: ArchetypeKind,
}

/// Some archetype in `s` carries `name`.
pub open spec fn has_archetype(s: Seq<Archetype>, name: Seq<char>) -> bool {
    exists|i: int| 0 <= i < s.len() && s[i].name@ == name
}

/// The predicate the registry scans with: the entry carries `name`.
pub open spec fn named(name: Seq<char>) -> spec_fn(Archetype) -> bool {
    |a: Archetype| a.name@ == name
}

/// The handle `name` resolves to: the index of the first archetype in `s`
/// carrying it, or `-1` when none does.
pub open spec fn archetype_index(s: Seq<Archetype>, name: Seq<char>) -> int {
    first_index_where(s, named(name))
}

/// The resolved index is in range, carries the name, and nothing before it
/// does; and resolution succeeds exactly when the name occurs at all.
pub proof fn lemma_archetype_index(s: Seq<Archetype>, name: Seq<char>)
    ensures
        archetype_index(s, name) == -1 <==> !has_archetype(s, name),
        has_archetype(s, name) ==> {
            let k = archetype_index(s, name);
            &&& 0 <= k < s.len()
            &&& s[k].name@ == name
            &&& forall|j: int| 0 <= j < k ==> s[j].name@ != name
        },
{
    lemma_first_index_where(s, named(name));
    assert(forall|j: int| 0 <= j < s.len() ==> (named(name)(s[j]) <==> s[j].name@ == name));
}

/// The first archetype in `registry` carrying `name`, in authored order, or
/// the unknown-name error when no entry carries it.
pub fn find_archetype<'a>(registry: &'a Vec<Archetype>, name: &String) -> (r: Result<
    &'a Archetype,
    ConfigError,
>)
    ensures
        match r {
            Ok(a) => {
                &&& has_archetype(registry@, name@)
                &&& *a == registry@[archetype_index(registry@, name@)]
            },
            Err(e) => {
                &&& !has_archetype(registry@, name@)
                &&& e matches ConfigError::UnknownArchetypeName(n) && n@ == name@
            },
        },
{
    match find_archetype_handle(registry, name) {
        Ok(h) => {
            proof {
                lemma_archetype_index(registry@, name@);
            }
            Ok(&registry[h])
        },
        Err(e) => Err(e),
    }
}

/// The handle `name` resolves to in `registry`: the index of the first
/// archetype carrying it, or the unknown-name error when no entry does.
pub fn find_archetype_handle(registry: &Vec<Archetype>, name: &String) -> (r: Result<
    ArchetypeHandle,
    ConfigError,
>)
    ensures
        match r {
            Ok(h) => {
                &&& has_archetype(registry@, name@)
                &&& h as int == archetype_index(registry@, name@)
            },
            Err(e) => {
                &&& !has_archetype(registry@, name@)
                &&& e matches ConfigError::UnknownArchetypeName(n) && n@ == name@
            },
        },
{
    let n = registry.len();
    let mut i: usize = 0;
    while i < n
        invariant
            n == registry@.len(),
            0 <= i <= n,
            forall|j: int| 0 <= j < i ==> registry@[j].name@ != name@,
        decreases n - i,
    {
        if registry[i].name == *name {
            proof {
                lemma_archetype_index(registry@, name@);
                assert(has_archetype(registry@, name@)) by {
                    assert(registry@[i as int].name@ == name@);
                }
                let k = archetype_index(registry@, name@);
                if k < i as int {
                    assert(registry@[k].name@ != name@);
                    assert(false);
                }
                if k > i as int {
                    assert(registry@[i as int].name@ != name@);
                    assert(false);
                }
            }
            return Ok(i);
        }
        i += 1;
    }
    Err(ConfigError::UnknownArchetypeName(name.clone()))
}

} // verus!
