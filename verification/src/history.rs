//! The ledger as a state machine over its two events, and the law that no
//! operation is lost or doubled on the way from submission into a block.

use vstd::prelude::*;
use crate::model::{contents, holds, joined, lemma_joined_push};
use crate::types::{Block, BlockId, Transaction};

verus! {

/// What can happen to the ledger.
pub enum LedgerEvent {
    /// A request handler submits an operation.
    Submit(Transaction),
    /// The block producer cuts a block.
    Cut,
}

/// What the ledger holds: the operations of each confirmed block, block by
/// block, and the pending operations.
pub struct LedgerState {
    pub confirmed: Seq<Seq<Transaction>>,
    pub pending: Seq<Transaction>,
}

/// The state that a block sequence and a pending buffer stand for.
pub open spec fn ledger_state(blocks: Seq<Block>, pending: Seq<Transaction>) -> LedgerState {
    LedgerState { confirmed: contents(blocks), pending }
}

/// The ledger after one event: a submission goes to the end of the pending
/// operations; a cut moves all of them into a new last block.
pub open spec fn next(state: LedgerState, event: LedgerEvent) -> LedgerState {
    match event {
        LedgerEvent::Submit(operation) => LedgerState {
            confirmed: state.confirmed,
            pending: state.pending.push(operation),
        },
        LedgerEvent::Cut => LedgerState {
            confirmed: state.confirmed.push(state.pending),
            pending: Seq::empty(),
        },
    }
}

/// The ledger after a sequence of events, in order.
pub open spec fn run(state: LedgerState, events: Seq<LedgerEvent>) -> LedgerState
    decreases events.len(),
{
    if events.len() == 0 {
        state
    } else {
        next(run(state, events.drop_last()), events.last())
    }
}

/// The operations that `events` submit, in order.
pub open spec fn submitted(events: Seq<LedgerEvent>) -> Seq<Transaction>
    decreases events.len(),
{
    if events.len() == 0 {
        Seq::empty()
    } else {
        match events.last() {
            LedgerEvent::Submit(operation) => submitted(events.drop_last()).push(operation),
            LedgerEvent::Cut => submitted(events.drop_last()),
        }
    }
}

/// The number of cuts among `events`.
pub open spec fn cuts(events: Seq<LedgerEvent>) -> nat
    decreases events.len(),
{
    if events.len() == 0 {
        0
    } else {
        match events.last() {
            LedgerEvent::Submit(_) => cuts(events.drop_last()),
            LedgerEvent::Cut => cuts(events.drop_last()) + 1,
        }
    }
}

/// Everything a state holds: the confirmed operations in block order, then
/// the pending ones.
pub open spec fn held(state: LedgerState) -> Seq<Transaction> {
    joined(state.confirmed) + state.pending
}

/// Conservation. Whatever the events and however many cuts are among them,
/// the ledger afterwards holds what it held before followed by exactly the
/// submitted operations, each once and in the order of submission; so the
/// number of operations in all blocks and the pending buffer together grows
/// by the number of submissions. Each cut adds one block.
pub proof fn lemma_conservation(state: LedgerState, events: Seq<LedgerEvent>)
    ensures
        held(run(state, events)) == held(state) + submitted(events),
        held(run(state, events)).len() == held(state).len() + submitted(events).len(),
        run(state, events).confirmed.len() == state.confirmed.len() + cuts(events),
    decreases events.len(),
{
    if events.len() == 0 {
        assert(held(state) + submitted(events) =~= held(state));
    } else {
        let before = run(state, events.drop_last());
        lemma_conservation(state, events.drop_last());
        match events.last() {
            LedgerEvent::Submit(operation) => {
                assert(held(next(before, events.last())) =~= held(before).push(operation));
                assert(held(state) + submitted(events) =~= (held(state) + submitted(
                    events.drop_last(),
                )).push(operation));
            },
            LedgerEvent::Cut => {
                lemma_joined_push(before.confirmed, before.pending);
                assert(held(next(before, events.last())) =~= held(before));
            },
        }
    }
}

/// Conservation from the start: a ledger that began empty holds exactly the
/// operations submitted so far, and as many blocks as there were cuts.
pub proof fn lemma_conservation_from_empty(events: Seq<LedgerEvent>)
    ensures
        held(run(empty_ledger(), events)) == submitted(events),
        held(run(empty_ledger(), events)).len() == submitted(events).len(),
        run(empty_ledger(), events).confirmed.len() == cuts(events),
{
    lemma_conservation(empty_ledger(), events);
    assert(held(empty_ledger()) =~= Seq::<Transaction>::empty());
    assert(held(empty_ledger()) + submitted(events) =~= submitted(events));
}

/// Whether no event of `events` is a cut.
pub open spec fn only_submissions(events: Seq<LedgerEvent>) -> bool {
    forall|i: int| 0 <= i < events.len() ==> #[trigger] events[i] is Submit
}

/// Submissions leave the confirmed blocks alone and keep every pending
/// operation pending.
pub proof fn lemma_submissions_keep_pending(state: LedgerState, events: Seq<LedgerEvent>, k: int)
    requires
        only_submissions(events),
        0 <= k < state.pending.len(),
    ensures
        run(state, events).confirmed == state.confirmed,
        k < run(state, events).pending.len(),
        run(state, events).pending[k] == state.pending[k],
    decreases events.len(),
{
    if events.len() > 0 {
        assert(events.last() is Submit);
        assert forall|i: int| 0 <= i < events.drop_last().len() implies #[trigger] events.drop_last()[i] is Submit by {
            assert(events.drop_last()[i] == events[i]);
        }
        lemma_submissions_keep_pending(state, events.drop_last(), k);
    }
}

/// The handshake. An operation that is submitted is held by the block that
/// the next cut makes, whatever else is submitted in between, and that block
/// is the one numbered after the blocks there were.
pub proof fn lemma_confirmed_by_next_cut(
    state: LedgerState,
    operation: Transaction,
    others: Seq<LedgerEvent>,
)
    requires
        only_submissions(others),
        state.confirmed.len() <= u64::MAX,
    ensures
        ({
            let waiting = run(next(state, LedgerEvent::Submit(operation)), others);
            let published = next(waiting, LedgerEvent::Cut);
            &&& !holds(waiting.confirmed, state.confirmed.len() as BlockId, operation.id)
            &&& published.confirmed.len() == state.confirmed.len() + 1
            &&& holds(published.confirmed, state.confirmed.len() as BlockId, operation.id)
        }),
{
    let submitted = next(state, LedgerEvent::Submit(operation));
    let k = state.pending.len() as int;
    assert(submitted.pending[k] == operation);
    lemma_submissions_keep_pending(submitted, others, k);
    let waiting = run(submitted, others);
    let published = next(waiting, LedgerEvent::Cut);
    assert(published.confirmed[state.confirmed.len() as int] == waiting.pending);
    assert(waiting.pending[k].id == operation.id);
}

/// The ledger with no block and nothing pending.
pub open spec fn empty_ledger() -> LedgerState {
    LedgerState { confirmed: Seq::empty(), pending: Seq::empty() }
}

} // verus!
