//! The startup report: every worker records whether its engine could be
//! created, and the pool starts only if all of them could.
use crate::error::TesserocrError;
use vstd::prelude::*;

verus! {

/// A worker that could not start, with the reason.
#[derive(Debug)]
pub struct InitFailure {
    pub worker_index: usize,
    pub message: String,
}

/// The pool could not start: the workers that failed, by increasing index.
#[derive(Debug)]
pub struct PoolInitError {
    pub failures: Vec<InitFailure>,
}

/// The failures of the error, as pairs of index and message.
pub open spec fn failures_view(e: PoolInitError) -> Seq<(nat, Seq<char>)> {
    e.failures@.map_values(|f: InitFailure| (f.worker_index as nat, f.message@))
}

/// The model of one worker's slot: nothing yet, a success, or a failure message.
pub type SlotModel = Option<Result<(), Seq<char>>>;

/// One slot per worker, each written at most once.
#[derive(Debug)]
pub struct InitReport {
    slots: Vec<Option<Result<(), TesserocrError>>>,
}

/// The message recorded for a worker that never reported.
pub open spec fn missing_message() -> Seq<char> {
    "worker did not report"@
}

/// Whether the slot counts as a failed start.
pub open spec fn slot_failed(s: SlotModel) -> bool {
    !(s == Some(Ok::<(), Seq<char>>(())))
}

/// The message reported for a failed slot.
pub open spec fn slot_message(s: SlotModel) -> Seq<char> {
    match s {
        Some(Err(m)) => m,
        _ => missing_message(),
    }
}

/// The failures among the first `upto` slots, in increasing index order.
pub open spec fn failures_upto(slots: Seq<SlotModel>, upto: nat) -> Seq<(nat, Seq<char>)>
    decreases upto,
{
    if upto == 0 {
        Seq::empty()
    } else {
        let prev = failures_upto(slots, (upto - 1) as nat);
        let i = (upto - 1) as int;
        if slot_failed(slots[i]) {
            prev.push(((upto - 1) as nat, slot_message(slots[i])))
        } else {
            prev
        }
    }
}

/// What starting the pool reports: the index of every worker, in order, when
/// all of them started; else the failures.
pub open spec fn startup_outcome(slots: Seq<SlotModel>) -> Result<Seq<nat>, Seq<(nat, Seq<char>)>> {
    let failures = failures_upto(slots, slots.len());
    if failures.len() == 0 {
        Ok(Seq::new(slots.len(), |i: int| i as nat))
    } else {
        Err(failures)
    }
}

impl View for InitReport {
    type V = Seq<SlotModel>;

    closed spec fn view(&self) -> Seq<SlotModel> {
        self.slots@.map_values(
            |s: Option<Result<(), TesserocrError>>|
                match s {
                    None => None,
                    Some(Ok(())) => Some(Ok(())),
                    Some(Err(e)) => Some(Err(e.0@)),
                },
        )
    }
}

impl InitReport {
    /// A report for `worker_count` workers, none of which has reported.
    pub fn new(worker_count: usize) -> (r: InitReport)
        ensures
            r@ == Seq::new(worker_count as nat, |i: int| None::<Result<(), Seq<char>>>),
    {
        let mut slots: Vec<Option<Result<(), TesserocrError>>> = Vec::new();
        let mut i: usize = 0;
        while i < worker_count
            invariant
                i <= worker_count,
                slots@.len() == i,
                forall|j: int| 0 <= j < i ==> #[trigger] slots@[j] is None,
            decreases worker_count - i,
        {
            slots.push(None);
            i += 1;
        }
        let r = InitReport { slots };
        assert(r@ =~= Seq::new(worker_count as nat, |i: int| None::<Result<(), Seq<char>>>));
        r
    }

    /// The number of workers.
    pub fn worker_count(&self) -> (r: usize)
        ensures
            r == self@.len(),
    {
        self.slots.len()
    }

    /// Records the outcome of worker `index`. A slot is written once: a second
    /// report for the same worker, or one for an index out of range, is
    /// refused and returns `false`.
    pub fn record(&mut self, index: usize, result: Result<(), TesserocrError>) -> (r: bool)
        ensures
            r == (index < old(self)@.len() && old(self)@[index as int] is None),
            r ==> final(self)@ == old(self)@.update(
                index as int,
                Some(
                    match result {
                        Ok(()) => Ok(()),
                        Err(e) => Err(e.0@),
                    },
                ),
            ),
            !r ==> final(self)@ == old(self)@,
    {
        if index >= self.slots.len() {
            return false;
        }
        if self.slots[index].is_some() {
            return false;
        }
        self.slots.set(index, Some(result));
        assert(self@ =~= old(self)@.update(
            index as int,
            Some(
                match result {
                    Ok(()) => Ok(()),
                    Err(e) => Err(e.0@),
                },
            ),
        ));
        true
    }

    /// Whether every worker has reported.
    pub fn is_complete(&self) -> (r: bool)
        ensures
            r == forall|i: int| 0 <= i < self@.len() ==> #[trigger] self@[i] is Some,
    {
        let mut i: usize = 0;
        while i < self.slots.len()
            invariant
                i <= self@.len(),
                self@.len() == self.slots@.len(),
                forall|j: int| 0 <= j < i ==> #[trigger] self@[j] is Some,
            decreases self@.len() - i,
        {
            if self.slots[i].is_none() {
                assert(self@[i as int] is None);
                return false;
            }
            i += 1;
        }
        true
    }

    /// Ends startup: the index of every worker, in increasing order, if all of
    /// them started; else the failed ones, in increasing order, each with its
    /// message. A worker that never reported counts as failed.
    pub fn finish(&self) -> (r: Result<Vec<usize>, PoolInitError>)
        ensures
            match startup_outcome(self@) {
                Ok(indices) => r matches Ok(v) && v@.map_values(|i: usize| i as nat) == indices,
                Err(failures) => r matches Err(e) && failures_view(e) == failures,
            },
    {
        let n: usize = self.slots.len();
        let mut failures: Vec<InitFailure> = Vec::new();
        let mut i: usize = 0;
        while i < n
            invariant
                n == self@.len(),
                i <= n,
                failures@.len() == failures_upto(self@, i as nat).len(),
                forall|j: int|
                    0 <= j < failures@.len() ==> (#[trigger] failures@[j]).worker_index
                        == failures_upto(self@, i as nat)[j].0 && failures@[j].message@
                        == failures_upto(self@, i as nat)[j].1,
            decreases n - i,
        {
            proof {
                reveal_strlit("worker did not report");
            }
            match &self.slots[i] {
                Some(Ok(())) => {},
                Some(Err(e)) => {
                    failures.push(InitFailure { worker_index: i, message: e.0.clone() });
                },
                None => {
                    failures.push(
                        InitFailure { worker_index: i, message: "worker did not report".to_string() },
                    );
                },
            }
            i += 1;
        }
        if failures.len() == 0 {
            let mut indices: Vec<usize> = Vec::new();
            let mut k: usize = 0;
            while k < n
                invariant
                    k <= n,
                    indices@.len() == k,
                    forall|j: int| 0 <= j < k ==> #[trigger] indices@[j] == j,
                decreases n - k,
            {
                indices.push(k);
                k += 1;
            }
            assert(indices@.map_values(|i: usize| i as nat) =~= Seq::new(
                n as nat,
                |i: int| i as nat,
            ));
            Ok(indices)
        } else {
            let e = PoolInitError { failures };
            assert(failures_view(e) =~= failures_upto(self@, n as nat));
            Err(e)
        }
    }
}


proof fn lemma_no_failures_upto(slots: Seq<SlotModel>, upto: nat)
    requires
        upto <= slots.len(),
        forall|i: int| 0 <= i < slots.len() ==> #[trigger] slots[i] == Some(Ok::<(), Seq<char>>(())),
    ensures
        failures_upto(slots, upto).len() == 0,
    decreases upto,
{
    if upto > 0 {
        lemma_no_failures_upto(slots, (upto - 1) as nat);
    }
}

proof fn lemma_failure_kept(slots: Seq<SlotModel>, k: nat, upto: nat)
    requires
        k < upto <= slots.len(),
        slot_failed(slots[k as int]),
    ensures
        exists|j: int|
            0 <= j < failures_upto(slots, upto).len() && #[trigger] failures_upto(slots, upto)[j] == (
            k,
            slot_message(slots[k as int]),
            ),
    decreases upto,
{
    if upto == k + 1 {
        let f = failures_upto(slots, upto);
        assert(f[f.len() - 1] == (k, slot_message(slots[k as int])));
    } else {
        lemma_failure_kept(slots, k, (upto - 1) as nat);
        let prev = failures_upto(slots, (upto - 1) as nat);
        let j = choose|j: int|
            0 <= j < prev.len() && #[trigger] prev[j] == (k, slot_message(slots[k as int]));
        assert(failures_upto(slots, upto)[j] == prev[j]);
    }
}

/// When every worker reports a success, startup succeeds and lists every
/// worker exactly once, by increasing index.
pub proof fn lemma_all_started(slots: Seq<SlotModel>)
    requires
        forall|i: int| 0 <= i < slots.len() ==> #[trigger] slots[i] == Some(Ok::<(), Seq<char>>(())),
    ensures
        startup_outcome(slots) == Ok::<Seq<nat>, Seq<(nat, Seq<char>)>>(
            Seq::new(slots.len(), |i: int| i as nat),
        ),
{
    lemma_no_failures_upto(slots, slots.len());
}

/// When worker `k` reports a failure, startup fails and names `k` with its
/// message.
pub proof fn lemma_failed_worker_named(slots: Seq<SlotModel>, k: nat, message: Seq<char>)
    requires
        k < slots.len(),
        slots[k as int] == Some(Err::<(), Seq<char>>(message)),
    ensures
        startup_outcome(slots) is Err,
        exists|j: int|
            0 <= j < startup_outcome(slots)->Err_0.len() && #[trigger] startup_outcome(
                slots,
            )->Err_0[j] == (k, message),
{
    lemma_failure_kept(slots, k, slots.len());
    let f = failures_upto(slots, slots.len());
    let j = choose|j: int| 0 <= j < f.len() && #[trigger] f[j] == (k, slot_message(slots[k as int]));
    assert(f.len() > 0);
    assert(startup_outcome(slots) == Err::<Seq<nat>, Seq<(nat, Seq<char>)>>(f));
    assert(startup_outcome(slots)->Err_0[j] == (k, message));
}

/// Startup succeeds exactly when every one of the workers reported a
/// success.
pub proof fn lemma_started_iff_all_ok(slots: Seq<SlotModel>)
    ensures
        startup_outcome(slots) is Ok <==> forall|i: int|
            0 <= i < slots.len() ==> #[trigger] slots[i] == Some(Ok::<(), Seq<char>>(())),
{
    if forall|i: int| 0 <= i < slots.len() ==> #[trigger] slots[i] == Some(Ok::<(), Seq<char>>(())) {
        lemma_all_started(slots);
    } else {
        let k = choose|i: int| 0 <= i < slots.len() && !(#[trigger] slots[i] == Some(Ok::<(), Seq<char>>(())));
        lemma_failure_kept(slots, k as nat, slots.len());
    }
}

} // verus!
