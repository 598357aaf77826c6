//! Correlation of results with tasks: the dispatching side records each
//! submitted task's id and accepts each result at most once, only for a
//! submitted id.
use vstd::prelude::*;

verus! {

/// Why the ledger refused an id.
#[derive(Debug, Clone, Copy, PartialEq, Eq, Structural)]
pub enum LedgerError {
    /// A task with this id was already submitted.
    DuplicateTask,
    /// No task with this id was submitted.
    UnknownTask,
    /// A result for this id was already accepted.
    DuplicateResult,
}

/// What accepting a result for `id` does to the set of answered ids.
pub open spec fn accept_spec(submitted: Set<u32>, answered: Set<u32>, id: u32) -> Result<
    Set<u32>,
    LedgerError,
> {
    if !submitted.contains(id) {
        Err(LedgerError::UnknownTask)
    } else if answered.contains(id) {
        Err(LedgerError::DuplicateResult)
    } else {
        Ok(answered.insert(id))
    }
}

/// Accepting results for `ids`, one after the other: the answered ids at the
/// end, or the first refusal.
pub open spec fn accept_all_spec(submitted: Set<u32>, answered: Set<u32>, ids: Seq<u32>) -> Result<
    Set<u32>,
    LedgerError,
>
    decreases ids.len(),
{
    if ids.len() == 0 {
        Ok(answered)
    } else {
        match accept_spec(submitted, answered, ids[0]) {
            Err(e) => Err(e),
            Ok(a) => accept_all_spec(submitted, a, ids.drop_first()),
        }
    }
}

/// The ids of submitted tasks, each with whether its result has come.
#[derive(Debug)]
pub struct TaskLedger {
    ids: Vec<u32>,
    answered: Vec<bool>,
}

impl TaskLedger {
    /// The ids of the submitted tasks.
    pub closed spec fn submitted(&self) -> Set<u32> {
        self.ids@.to_set()
    }

    /// The ids whose result has been accepted.
    pub closed spec fn answered(&self) -> Set<u32> {
        Set::new(
            |x: u32|
                exists|i: int|
                    0 <= i < self.ids@.len() && self.ids@[i] == x && #[trigger] self.answered@[i],
        )
    }

    /// The ledger's invariant: one flag per id, and no id twice.
    pub closed spec fn wf(&self) -> bool {
        &&& self.ids@.len() == self.answered@.len()
        &&& self.ids@.no_duplicates()
    }

    /// An empty ledger.
    pub fn new() -> (r: TaskLedger)
        ensures
            r.wf(),
            r.submitted() == Set::<u32>::empty(),
            r.answered() == Set::<u32>::empty(),
    {
        let r = TaskLedger { ids: Vec::new(), answered: Vec::new() };
        assert(r.submitted() =~= Set::<u32>::empty());
        assert(r.answered() =~= Set::<u32>::empty());
        r
    }

    fn find(&self, id: u32) -> (r: Option<usize>)
        requires
            self.wf(),
        ensures
            r is None <==> !self.submitted().contains(id),
            r matches Some(i) ==> i < self.ids@.len() && self.ids@[i as int] == id,
    {
        let mut i: usize = 0;
        while i < self.ids.len()
            invariant
                self.wf(),
                i <= self.ids@.len(),
                forall|j: int| 0 <= j < i ==> #[trigger] self.ids@[j] != id,
            decreases self.ids@.len() - i,
        {
            if self.ids[i] == id {
                return Some(i);
            }
            i += 1;
        }
        assert(!self.ids@.contains(id));
        None
    }

    /// Records a submitted task. An id that was already submitted is refused.
    pub fn register(&mut self, id: u32) -> (r: Result<(), LedgerError>)
        requires
            old(self).wf(),
        ensures
            final(self).wf(),
            r is Err <==> old(self).submitted().contains(id),
            r matches Err(e) ==> e == LedgerError::DuplicateTask,
            r is Ok ==> final(self).submitted() == old(self).submitted().insert(id),
            final(self).answered() == old(self).answered(),
            r is Err ==> final(self).submitted() == old(self).submitted(),
    {
        if self.find(id).is_some() {
            return Err(LedgerError::DuplicateTask);
        }
        let ghost old_ids = self.ids@;
        let ghost old_answered = self.answered();
        self.ids.push(id);
        self.answered.push(false);
        assert(self.ids@.no_duplicates()) by {
            assert forall|i: int, j: int|
                0 <= i < self.ids@.len() && 0 <= j < self.ids@.len() && i != j implies self.ids@[i]
                != self.ids@[j] by {
                if i == old_ids.len() as int {
                    assert(old_ids.contains(self.ids@[j]));
                } else if j == old_ids.len() as int {
                    assert(old_ids.contains(self.ids@[i]));
                }
            }
        }
        assert(self.submitted() =~= old(self).submitted().insert(id)) by {
            assert forall|x: u32| self.ids@.contains(x) implies old_ids.contains(x) || x == id by {
                let i = choose|i: int| 0 <= i < self.ids@.len() && self.ids@[i] == x;
                if i < old_ids.len() {
                    assert(old_ids[i] == x);
                }
            }
            assert(self.ids@[old_ids.len() as int] == id);
            assert forall|x: u32| old_ids.contains(x) implies self.ids@.contains(x) by {
                let i = choose|i: int| 0 <= i < old_ids.len() && old_ids[i] == x;
                assert(self.ids@[i] == x);
            }
        }
        assert(self.answered() =~= old_answered) by {
            assert forall|x: u32| self.answered().contains(x) implies old_answered.contains(x) by {
                let i = choose|i: int|
                    0 <= i < self.ids@.len() && self.ids@[i] == x && #[trigger] self.answered@[i];
                assert(i < old_ids.len());
                assert(old(self).answered@[i]);
            }
            assert forall|x: u32| old_answered.contains(x) implies self.answered().contains(x) by {
                let i = choose|i: int|
                    0 <= i < old_ids.len() && old_ids[i] == x && #[trigger] old(self).answered@[i];
                assert(self.answered@[i]);
            }
        }
        Ok(())
    }

    /// Accepts the result for `id`: refused for an id that was never
    /// submitted, or whose result was already accepted.
    pub fn accept(&mut self, id: u32) -> (r: Result<(), LedgerError>)
        requires
            old(self).wf(),
        ensures
            final(self).wf(),
            final(self).submitted() == old(self).submitted(),
            match accept_spec(old(self).submitted(), old(self).answered(), id) {
                Ok(a) => r is Ok && final(self).answered() == a,
                Err(e) => r == Err::<(), LedgerError>(e) && final(self).answered() == old(
                    self,
                ).answered(),
            },
    {
        let i = match self.find(id) {
            None => return Err(LedgerError::UnknownTask),
            Some(i) => i,
        };
        if self.answered[i] {
            assert(old(self).answered().contains(id));
            return Err(LedgerError::DuplicateResult);
        }
        let ghost old_answered = self.answered();
        assert(!old_answered.contains(id)) by {
            if old_answered.contains(id) {
                let j = choose|j: int|
                    0 <= j < self.ids@.len() && self.ids@[j] == id && #[trigger] self.answered@[j];
                assert(j == i);
            }
        }
        self.answered.set(i, true);
        assert(self.answered() =~= old_answered.insert(id)) by {
            assert forall|x: u32| self.answered().contains(x) implies old_answered.insert(id).contains(
                x,
            ) by {
                let j = choose|j: int|
                    0 <= j < self.ids@.len() && self.ids@[j] == x && #[trigger] self.answered@[j];
                if j != i {
                    assert(old(self).answered@[j]);
                }
            }
            assert forall|x: u32| old_answered.insert(id).contains(x) implies self.answered().contains(
                x,
            ) by {
                if x == id {
                    assert(self.answered@[i as int]);
                } else {
                    let j = choose|j: int|
                        0 <= j < self.ids@.len() && self.ids@[j] == x
                            && #[trigger] old(self).answered@[j];
                    assert(self.answered@[j]);
                }
            }
        }
        Ok(())
    }

    /// Whether every submitted task has had its result accepted.
    pub fn is_drained(&self) -> (r: bool)
        requires
            self.wf(),
        ensures
            r == (self.answered() == self.submitted()),
    {
        let mut i: usize = 0;
        while i < self.answered.len()
            invariant
                self.wf(),
                i <= self.answered@.len(),
                forall|j: int| 0 <= j < i ==> #[trigger] self.answered@[j],
            decreases self.answered@.len() - i,
        {
            if !self.answered[i] {
                assert(!self.answered().contains(self.ids@[i as int])) by {
                    if self.answered().contains(self.ids@[i as int]) {
                        let j = choose|j: int|
                            0 <= j < self.ids@.len() && self.ids@[j] == self.ids@[i as int]
                                && #[trigger] self.answered@[j];
                        assert(j == i);
                    }
                }
                assert(self.submitted().contains(self.ids@[i as int]));
                return false;
            }
            i += 1;
        }
        assert(self.answered() =~= self.submitted()) by {
            assert forall|x: u32| self.submitted().contains(x) implies self.answered().contains(x) by {
                let j = choose|j: int| 0 <= j < self.ids@.len() && self.ids@[j] == x;
                assert(self.answered@[j]);
            }
            assert forall|x: u32| self.answered().contains(x) implies self.submitted().contains(x) by {
                let j = choose|j: int|
                    0 <= j < self.ids@.len() && self.ids@[j] == x && #[trigger] self.answered@[j];
                assert(self.ids@[j] == x);
            }
        }
        true
    }
}


/// Accepting results for `ids` succeeds exactly when every id is a submitted
/// task's, not yet answered, and no id comes twice; the answered ids are then
/// those answered before and those of `ids`. From an empty ledger, the ledger
/// is drained exactly when each submitted task has produced one result.
pub proof fn lemma_one_result_per_task(submitted: Set<u32>, answered: Set<u32>, ids: Seq<u32>)
    ensures
        accept_all_spec(submitted, answered, ids) is Ok <==> (ids.no_duplicates() && forall|i: int|
            0 <= i < ids.len() ==> submitted.contains(#[trigger] ids[i]) && !answered.contains(
                ids[i],
            )),
        accept_all_spec(submitted, answered, ids) is Ok ==> accept_all_spec(
            submitted,
            answered,
            ids,
        )->Ok_0 == answered + ids.to_set(),
    decreases ids.len(),
{
    if ids.len() == 0 {
        assert(ids.to_set() =~= Set::<u32>::empty());
        assert(answered + ids.to_set() =~= answered);
    } else {
        let x = ids[0];
        let rest = ids.drop_first();
        let a2 = answered.insert(x);
        lemma_one_result_per_task(submitted, a2, rest);
        assert forall|i: int| 0 <= i < rest.len() implies #[trigger] rest[i] == ids[i + 1] by {}
        if accept_spec(submitted, answered, x) is Ok {
            let cond_rest = rest.no_duplicates() && forall|i: int|
                0 <= i < rest.len() ==> submitted.contains(#[trigger] rest[i]) && !a2.contains(
                    rest[i],
                );
            let cond = ids.no_duplicates() && forall|i: int|
                0 <= i < ids.len() ==> submitted.contains(#[trigger] ids[i]) && !answered.contains(
                    ids[i],
                );
            if cond {
                assert forall|i: int, j: int|
                    0 <= i < rest.len() && 0 <= j < rest.len() && i != j implies rest[i] != rest[j] by {
                    assert(ids[i + 1] != ids[j + 1]);
                }
                assert forall|i: int| 0 <= i < rest.len() implies submitted.contains(
                    #[trigger] rest[i],
                ) && !a2.contains(rest[i]) by {
                    assert(ids[i + 1] != ids[0]);
                    assert(submitted.contains(ids[i + 1]));
                }
                assert(cond_rest);
            }
            if cond_rest {
                assert forall|i: int, j: int|
                    0 <= i < ids.len() && 0 <= j < ids.len() && i != j implies ids[i] != ids[j] by {
                    if i > 0 && j > 0 {
                        assert(rest[i - 1] != rest[j - 1]);
                    } else if i > 0 {
                        assert(!a2.contains(rest[i - 1]));
                    } else if j > 0 {
                        assert(!a2.contains(rest[j - 1]));
                    }
                }
                assert forall|i: int| 0 <= i < ids.len() implies submitted.contains(
                    #[trigger] ids[i],
                ) && !answered.contains(ids[i]) by {
                    if i > 0 {
                        assert(submitted.contains(rest[i - 1]));
                    }
                }
                assert(cond);
                assert(answered + ids.to_set() =~= a2 + rest.to_set()) by {
                    assert forall|y: u32| ids.to_set().contains(y) implies y == x
                        || rest.to_set().contains(y) by {
                        let i = choose|i: int| 0 <= i < ids.len() && ids[i] == y;
                        if i > 0 {
                            assert(rest[i - 1] == y);
                        }
                    }
                    assert forall|y: u32| rest.to_set().contains(y) implies ids.to_set().contains(
                        y,
                    ) by {
                        let i = choose|i: int| 0 <= i < rest.len() && rest[i] == y;
                        assert(ids[i + 1] == y);
                    }
                    assert(ids.to_set().contains(x)) by {
                        assert(ids[0] == x);
                    }
                }
            }
        } else {
            assert(!(submitted.contains(ids[0]) && !answered.contains(ids[0])));
        }
    }
}

} // verus!
