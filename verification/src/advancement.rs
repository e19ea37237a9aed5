//! The advancement tier model.
//!
//! An [`Advancement`] is one experience-gated unlock: a threshold, a typed
//! payload, and display text. An [`AdvancementSet`] is the base tier (which
//! conceptually sits at threshold zero) plus an ordered sequence of further
//! tiers, assumed sorted ascending by threshold. An [`AdvancementSum`] is a
//! fold strategy reducing a slice of unlocked tiers into one typed summary.
//!
//! `current_position` deliberately collapses the fully-progressed case onto
//! the no-progress case: when the experience counter is at or past every
//! threshold it yields `0`, the same position as zero experience, so `sum`
//! then folds the empty slice. That literal behavior is preserved here and
//! pinned by the regression tests; do not "fix" it.

use vstd::prelude::*;

use crate::archetype::Archetype;
use crate::scan::first_index_where;
use crate::scan::lemma_first_index_where;

verus! {

/// A fold strategy: reduces a slice of unlocked tiers, in order, into one
/// summary value, resolving name references against the given registry.
pub trait AdvancementSum: Sized {
    /// The tagged payload one tier of this strategy carries.
    type Kind;

    /// What the fold demands of its input: the data-authoring obligations
    /// (resolvable names, sums in range) under which it is defined.
    spec fn new_req(registry: Seq<Archetype>, unlocked: Seq<Advancement<Self>>) -> bool;

    /// The summary `r` is the fold of `unlocked`, in slice order, resolved
    /// against `registry`.
    spec fn new_spec(registry: Seq<Archetype>, unlocked: Seq<Advancement<Self>>, r: Self) -> bool;

    /// Fold `unlocked`, in slice order, into one summary.
    fn new(registry: &Vec<Archetype>, unlocked: &[Advancement<Self>]) -> (r: Self)
        requires
            Self::new_req(registry@, unlocked@),
        ensures
            Self::new_spec(registry@, unlocked@, r),
    ;
}

/// One unlock threshold: experience cutoff, typed payload, display text.
pub struct Advancement<S: AdvancementSum> {
    pub kind: S::Kind,
    pub xp: u64,
    pub title: String,
    pub description: String,
    pub achiever_title: String,
}

/// The base tier plus the ordered sequence of further tiers for one subject.
pub struct AdvancementSet<S: AdvancementSum> {
    pub base: Advancement<S>,
    pub rest: Vec<Advancement<S>>,
}

/// The predicate the tier model scans with: the tier's threshold exceeds
/// the experience counter.
pub open spec fn over_xp<S: AdvancementSum>(xp: u64) -> spec_fn(Advancement<S>) -> bool {
    |a: Advancement<S>| a.xp > xp
}

impl<S: AdvancementSum> AdvancementSet<S> {
    /// The index of the first tier of `rest` whose threshold exceeds `xp`,
    /// or `0` when no tier's does (the literal boundary collapse).
    pub open spec fn spec_current_position(&self, xp: u64) -> int {
        let t = first_index_where(self.rest@, over_xp::<S>(xp));
        if t == -1 {
            0
        } else {
            t
        }
    }

    /// The full ordered tier sequence, base first, consuming the set.
    pub fn all(self) -> (r: Vec<Advancement<S>>)
        ensures
            r@ == seq![self.base] + self.rest@,
            r@.len() == self.rest@.len() + 1,
            r@[0] == self.base,
    {
        let AdvancementSet { base, mut rest } = self;
        rest.insert(0, base);
        proof {
            assert(rest@ =~= seq![self.base] + self.rest@);
        }
        rest
    }

    /// The summary of the tiers unlocked at `xp`: the fold of
    /// `rest[0 .. current_position(xp)]`. Under the boundary collapse, an
    /// experience counter at or past every threshold folds the empty slice,
    /// exactly like a counter of zero.
    pub fn sum(&self, registry: &Vec<Archetype>, xp: u64) -> (r: S)
        requires
            S::new_req(registry@, self.rest@.subrange(0, self.spec_current_position(xp))),
        ensures
            S::new_spec(registry@, self.rest@.subrange(0, self.spec_current_position(xp)), r),
    {
        let pos = self.current_position(xp);
        proof {
            lemma_first_index_where(self.rest@, over_xp::<S>(xp));
        }
        S::new(registry, &self.rest[0..pos])
    }

    /// The theoretical maximum summary: the fold of all of `rest`,
    /// ignoring experience.
    pub fn max(&self, registry: &Vec<Archetype>) -> (r: S)
        requires
            S::new_req(registry@, self.rest@),
        ensures
            S::new_spec(registry@, self.rest@, r),
    {
        S::new(registry, self.rest.as_slice())
    }

    /// The first tier of `rest` whose threshold exceeds `xp`, or `base`
    /// when no tier's does.
    pub fn current(&self, xp: u64) -> (r: &Advancement<S>)
        ensures
            first_index_where(self.rest@, over_xp::<S>(xp)) != -1 ==> *r == self.rest@[self.spec_current_position(
                xp,
            )],
            first_index_where(self.rest@, over_xp::<S>(xp)) == -1 ==> *r == self.base,
    {
        let n = self.rest.len();
        let mut i: usize = 0;
        while i < n
            invariant
                n == self.rest@.len(),
                0 <= i <= n,
                forall|j: int| 0 <= j < i ==> self.rest@[j].xp <= xp,
            decreases n - i,
        {
            if self.rest[i].xp > xp {
                proof {
                    self.lemma_position_found(xp, i as int);
                }
                return &self.rest[i];
            }
            i += 1;
        }
        proof {
            self.lemma_position_none(xp);
        }
        &self.base
    }

    /// The index of the first tier of `rest` whose threshold exceeds `xp`,
    /// or `0` when no tier's does — the same position as no progress at
    /// all (the literal boundary collapse).
    pub fn current_position(&self, xp: u64) -> (r: usize)
        ensures
            r as int == self.spec_current_position(xp),
    {
        let n = self.rest.len();
        let mut i: usize = 0;
        while i < n
            invariant
                n == self.rest@.len(),
                0 <= i <= n,
                forall|j: int| 0 <= j < i ==> self.rest@[j].xp <= xp,
            decreases n - i,
        {
            if self.rest[i].xp > xp {
                proof {
                    self.lemma_position_found(xp, i as int);
                }
                return i;
            }
            i += 1;
        }
        proof {
            self.lemma_position_none(xp);
        }
        0
    }

    /// With every tier before `i` at or under `xp` and tier `i` over it,
    /// the scan's first match is exactly `i`.
    proof fn lemma_position_found(&self, xp: u64, i: int)
        requires
            0 <= i < self.rest@.len(),
            self.rest@[i].xp > xp,
            forall|j: int| 0 <= j < i ==> self.rest@[j].xp <= xp,
        ensures
            first_index_where(self.rest@, over_xp::<S>(xp)) == i,
            self.spec_current_position(xp) == i,
    {
        let p = over_xp::<S>(xp);
        lemma_first_index_where(self.rest@, p);
        assert(p(self.rest@[i]));
        let t = first_index_where(self.rest@, p);
        if t < i {
            assert(self.rest@[t].xp <= xp);
            assert(false);
        }
        if t > i {
            assert(!p(self.rest@[i]));
            assert(false);
        }
    }

    /// With every tier at or under `xp`, the scan finds no match.
    proof fn lemma_position_none(&self, xp: u64)
        requires
            forall|j: int| 0 <= j < self.rest@.len() ==> self.rest@[j].xp <= xp,
        ensures
            first_index_where(self.rest@, over_xp::<S>(xp)) == -1,
            self.spec_current_position(xp) == 0,
    {
        let p = over_xp::<S>(xp);
        lemma_first_index_where(self.rest@, p);
        let t = first_index_where(self.rest@, p);
        if t != -1 {
            assert(p(self.rest@[t]));
            assert(self.rest@[t].xp <= xp);
            assert(false);
        }
    }
}

} // verus!
