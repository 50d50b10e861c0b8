use std::sync::atomic::{AtomicBool, Ordering};
use std::sync::Arc;
use vstd::prelude::*;

verus! {

/// A buffer's availability token, shared by every stage that touches the buffer and
/// by the GPU completion callbacks that hand it back.
///
/// `true` means the buffer is free to be taken; `false` means one holder has it.
/// Every access is sequentially consistent. The value can change at any moment from
/// another thread, so no contract here states what it is.
#[derive(Clone)]
pub struct ReadyFlag {
    cell: Arc<AtomicBool>,
}

impl ReadyFlag {
    /// A flag for a buffer that nobody holds.
    pub fn new_ready() -> ReadyFlag {
        ReadyFlag { cell: Arc::new(AtomicBool::new(true)) }
    }

    /// A flag for a buffer that its creator holds from the start.
    pub fn new_held() -> ReadyFlag {
        ReadyFlag { cell: Arc::new(AtomicBool::new(false)) }
    }

    /// Takes the buffer if it is free: turns `true` into `false` in one atomic step
    /// and reports whether this call did so. Of two racing callers at most one wins.
    pub fn try_acquire(&self) -> bool {
        match self.cell.compare_exchange(true, false, Ordering::SeqCst, Ordering::SeqCst) {
            Ok(_) => true,
            Err(_) => false,
        }
    }

    /// Hands the buffer back: the flag becomes `true`.
    pub fn release(&self) {
        self.cell.store(true, Ordering::SeqCst);
    }

    /// Whether the buffer was free at the moment of the read.
    pub fn is_ready(&self) -> bool {
        self.cell.load(Ordering::SeqCst)
    }
}

} // verus!

verus! {

/// What a thread does to a flag: try to take it, or hand it back.
pub enum FlagEvent {
    TryAcquire,
    Release,
}

/// The observable history of one flag: its value and how many times it has been
/// taken and handed back.
pub struct FlagHistory {
    pub value: bool,
    pub acquired: nat,
    pub released: nat,
}

/// A fresh flag of a buffer that nobody holds.
pub open spec fn fresh_history() -> FlagHistory {
    FlagHistory { value: true, acquired: 0, released: 0 }
}

/// One event applied to a flag, as `try_acquire` and `release` behave: a take
/// succeeds only on `true` and leaves `false`; a hand-back leaves `true`.
pub open spec fn flag_step(h: FlagHistory, e: FlagEvent) -> FlagHistory {
    match e {
        FlagEvent::TryAcquire => if h.value {
            FlagHistory { value: false, acquired: h.acquired + 1, released: h.released }
        } else {
            h
        },
        FlagEvent::Release => FlagHistory {
            value: true,
            acquired: h.acquired,
            released: h.released + 1,
        },
    }
}

/// The history after a sequence of events.
pub open spec fn flag_run(h: FlagHistory, es: Seq<FlagEvent>) -> FlagHistory
    decreases es.len(),
{
    if es.len() == 0 {
        h
    } else {
        flag_step(flag_run(h, es.drop_last()), es.last())
    }
}

/// Every hand-back in `es` is made by a holder: the flag is `false` just before it.
pub open spec fn released_only_by_holders(h: FlagHistory, es: Seq<FlagEvent>) -> bool {
    forall|i: int|
        0 <= i < es.len() && #[trigger] es[i] == FlagEvent::Release ==> !flag_run(
            h,
            es.subrange(0, i),
        ).value
}

/// Exclusive holding: starting from a free flag, as long as only holders hand it
/// back, takes and hand-backs alternate. At any point the flag has been taken either
/// as often as it was handed back (and is free), or exactly once more (and is held
/// by the one taker of the current `false` interval).
pub proof fn lemma_flag_alternates(es: Seq<FlagEvent>)
    requires
        released_only_by_holders(fresh_history(), es),
    ensures
        flag_run(fresh_history(), es).value <==> flag_run(fresh_history(), es).acquired
            == flag_run(fresh_history(), es).released,
        !flag_run(fresh_history(), es).value ==> flag_run(fresh_history(), es).acquired
            == flag_run(fresh_history(), es).released + 1,
    decreases es.len(),
{
    if es.len() > 0 {
        let prefix = es.drop_last();
        assert forall|i: int|
            0 <= i < prefix.len() && #[trigger] prefix[i] == FlagEvent::Release implies !flag_run(
            fresh_history(),
            prefix.subrange(0, i),
        ).value by {
            assert(es[i] == prefix[i]);
            assert(es.subrange(0, i) =~= prefix.subrange(0, i));
        }
        lemma_flag_alternates(prefix);
        if es.last() == FlagEvent::Release {
            let k = es.len() - 1;
            assert(es[k] == FlagEvent::Release);
            assert(es.subrange(0, k) =~= prefix);
        }
    }
}

} // verus!
