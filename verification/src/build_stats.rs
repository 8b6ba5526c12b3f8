//! Counts of the pages a build wrote, per kind, and of the pages it failed.
use vstd::prelude::*;

verus! {

/// Pages built so far, per kind, and the failures.
pub struct BuildStats {
    pub cards_built: usize,
    pub people_built: usize,
    pub indexes_built: usize,
    pub whatsnew_built: usize,
    pub soramoyou_built: usize,
    pub wip_built: usize,
    pub errors: usize,
}

/// The kind of page a counter counts.
#[derive(PartialEq, Eq, Structural, Clone, Copy)]
pub enum Counter {
    Cards,
    People,
    Indexes,
    Whatsnew,
    Soramoyou,
    Wip,
}

impl Default for BuildStats {
    fn default() -> (r: Self)
        ensures
            r.cards_built == 0 && r.people_built == 0 && r.indexes_built == 0 && r.whatsnew_built == 0
                && r.soramoyou_built == 0 && r.wip_built == 0 && r.errors == 0,
    {
        BuildStats {
            cards_built: 0,
            people_built: 0,
            indexes_built: 0,
            whatsnew_built: 0,
            soramoyou_built: 0,
            wip_built: 0,
            errors: 0,
        }
    }
}

impl BuildStats {
    /// Pages built over all kinds.
    pub open spec fn built(self) -> int {
        self.cards_built + self.people_built + self.indexes_built + self.whatsnew_built + self.soramoyou_built
            + self.wip_built
    }

    /// The value of one counter.
    pub open spec fn count_of(self, c: Counter) -> usize {
        match c {
            Counter::Cards => self.cards_built,
            Counter::People => self.people_built,
            Counter::Indexes => self.indexes_built,
            Counter::Whatsnew => self.whatsnew_built,
            Counter::Soramoyou => self.soramoyou_built,
            Counter::Wip => self.wip_built,
        }
    }

    /// Pages built over all kinds (failures not counted).
    pub fn total(&self) -> (r: usize)
        requires
            self.built() <= usize::MAX,
        ensures
            r == self.built(),
    {
        self.cards_built + self.people_built + self.indexes_built + self.whatsnew_built + self.soramoyou_built
            + self.wip_built
    }

    /// Counts one page: a success under its kind, a failure under the errors.
    pub fn record(&mut self, counter: Counter, ok: bool)
        requires
            ok ==> old(self).count_of(counter) < usize::MAX,
            !ok ==> old(self).errors < usize::MAX,
        ensures
            forall|c: Counter|
                #[trigger] final(self).count_of(c) == if ok && c == counter {
                    old(self).count_of(c) + 1
                } else {
                    old(self).count_of(c) as int
                },
            final(self).errors == if ok { old(self).errors as int } else { old(self).errors + 1 },
    {
        if !ok {
            self.errors = self.errors + 1;
            return;
        }
        match counter {
            Counter::Cards => self.cards_built = self.cards_built + 1,
            Counter::People => self.people_built = self.people_built + 1,
            Counter::Indexes => self.indexes_built = self.indexes_built + 1,
            Counter::Whatsnew => self.whatsnew_built = self.whatsnew_built + 1,
            Counter::Soramoyou => self.soramoyou_built = self.soramoyou_built + 1,
            Counter::Wip => self.wip_built = self.wip_built + 1,
        }
    }
}

/// Each success adds one page to the total; a failure leaves it as it was.
pub proof fn lemma_record_total(before: BuildStats, after: BuildStats, counter: Counter, ok: bool)
    requires
        forall|c: Counter|
            #[trigger] after.count_of(c) == if ok && c == counter {
                before.count_of(c) + 1
            } else {
                before.count_of(c) as int
            },
    ensures
        after.built() == before.built() + if ok { 1int } else { 0int },
{
    assert(after.count_of(Counter::Cards) == after.cards_built);
    assert(after.count_of(Counter::People) == after.people_built);
    assert(after.count_of(Counter::Indexes) == after.indexes_built);
    assert(after.count_of(Counter::Whatsnew) == after.whatsnew_built);
    assert(after.count_of(Counter::Soramoyou) == after.soramoyou_built);
    assert(after.count_of(Counter::Wip) == after.wip_built);
}

} // verus!
