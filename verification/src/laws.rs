//! What holds of every run of the prechecker, proved from the relation that
//! each action keeps.

use vstd::prelude::*;
use crate::operation::PrecheckerOperationState;
use crate::protocol::NextProtocolSlot;
use crate::state::{advances, PrecheckerState};

verus! {

/// Each state in `trace` is followed by one that the record may move to.
pub open spec fn is_run(trace: Seq<PrecheckerOperationState>) -> bool {
    forall|i: int| 0 <= i < trace.len() - 1 ==> advances(#[trigger] trace[i], trace[i + 1])
}

/// A move takes a record to a later place in the order of the steps.
pub proof fn lemma_move_is_forward(pre: PrecheckerOperationState, post: PrecheckerOperationState)
    requires
        advances(pre, post),
    ensures
        pre.rank() < post.rank(),
        !pre.terminal(),
{
}

/// Along the states that one record goes through, the places in the order
/// of the steps rise strictly: no state is seen twice, and none after a
/// later one.
pub proof fn lemma_forward_only(trace: Seq<PrecheckerOperationState>, i: int, j: int)
    requires
        is_run(trace),
        0 <= i < j < trace.len(),
    ensures
        trace[i].rank() < trace[j].rank(),
        trace[i] != trace[j],
    decreases j - i,
{
    if i + 1 < j {
        lemma_forward_only(trace, i, j - 1);
    }
    assert(advances(trace[j - 1], trace[j]));
}

/// Nothing follows an outcome: a state that is not the last of its run is
/// no outcome.
pub proof fn lemma_outcome_is_last(trace: Seq<PrecheckerOperationState>, i: int)
    requires
        is_run(trace),
        0 <= i < trace.len() - 1,
    ensures
        !trace[i].terminal(),
{
    assert(advances(trace[i], trace[i + 1]));
}

/// A record is validated only after it held its rights, and is decoded only
/// after its protocol was known: in a run from `Init`, the state before
/// `ValidatingEndorsement` is `EndorsingRightsReady`, and `Decoded` comes
/// two moves after `ProtocolVersionReady`.
pub proof fn lemma_order_of_steps(trace: Seq<PrecheckerOperationState>, j: int)
    requires
        is_run(trace),
        0 <= j < trace.len(),
        trace[0] is Init,
    ensures
        trace[j] is ValidatingEndorsement ==> j >= 1 && trace[j - 1] is EndorsingRightsReady,
        trace[j] is EndorsingRightsReady ==> j >= 1 && trace[j - 1] is PendingEndorsingRights,
        trace[j] is Decoded ==> j >= 2 && trace[j - 1] is Decoding && trace[j - 2] is ProtocolVersionReady,
        trace[j] is ProtocolVersionReady ==> j >= 1 && trace[j - 1] is PendingProtocolVersion,
{
    if j >= 1 {
        assert(advances(trace[j - 1], trace[j]));
        if j >= 2 {
            assert(advances(trace[j - 2], trace[j - 1]));
        }
    }
}

/// Between the state before an action and the state after it, a record
/// comes to be validated only from holding its rights, and to be decoded
/// only from being decoded.
pub proof fn lemma_step_order(pre: PrecheckerState, post: PrecheckerState, key: Seq<u8>)
    requires
        pre.steps_to(post),
        pre.operations@.contains_key(key),
        post.operations@.contains_key(key),
    ensures
        post.operations@[key].state is ValidatingEndorsement && !(pre.operations@[key].state is ValidatingEndorsement)
            ==> pre.operations@[key].state is EndorsingRightsReady,
        post.operations@[key].state is EndorsingRightsReady && !(pre.operations@[key].state is EndorsingRightsReady)
            ==> pre.operations@[key].state is PendingEndorsingRights,
        post.operations@[key].state is Decoded && !(pre.operations@[key].state is Decoded)
            ==> pre.operations@[key].state is Decoding,
        post.operations@[key].state is ProtocolVersionReady && !(pre.operations@[key].state is ProtocolVersionReady)
            ==> pre.operations@[key].state is PendingProtocolVersion,
{
}

/// Where a request keeps the gates, a record that it makes ready to decode
/// finds the slot resolved, a record that it gives rights holds the rights
/// that the cache has for the level decoded from that record, and a record
/// that it decides after a wait for a block finds a block of that level.
pub proof fn lemma_gates(pre: PrecheckerState, post: PrecheckerState, key: Seq<u8>)
    requires
        pre.gates_kept(post),
        pre.operations@.contains_key(key),
        post.operations@.contains_key(key),
    ensures
        post.operations@[key].state is ProtocolVersionReady && !(pre.operations@[key].state is ProtocolVersionReady)
            ==> post.next_protocol.ready(),
        post.operations@[key].state is EndorsingRightsReady && !(pre.operations@[key].state is EndorsingRightsReady)
            ==> post.operations@[key].decoded_contents.is_some()
            && post.operations@[key].decoded_contents.unwrap().level
            == post.operations@[key].state->EndorsingRightsReady_rights.level
            && post.endorsing_rights.ready(post.operations@[key].decoded_contents.unwrap().level),
        pre.operations@[key].state is PendingBlockApplication && post.operations@[key].state.decided()
            ==> post.applied_blocks.applied_at(pre.operations@[key].state->PendingBlockApplication_level),
{
}

/// Between the state before an action and the state after it, every record
/// that stays is where it was or further on, and a record leaves the table
/// only from `Applied`, `Refused` or `ProtocolNeeded`.
pub proof fn lemma_step_is_forward(pre: PrecheckerState, post: PrecheckerState, key: Seq<u8>)
    requires
        pre.steps_to(post),
        pre.operations@.contains_key(key),
    ensures
        post.operations@.contains_key(key) ==> post.operations@[key] == pre.operations@[key]
            || pre.operations@[key].state.rank() < post.operations@[key].state.rank(),
        !post.operations@.contains_key(key) ==> pre.operations@[key].state.decided(),
        !post.operations@.contains_key(key) ==> !(pre.operations@[key].state is Error),
{
}

/// Each state of `states` is followed by one that an action leads to.
pub open spec fn is_history(states: Seq<PrecheckerState>) -> bool {
    forall|t: int| 0 <= t < states.len() - 1 ==> (#[trigger] states[t]).steps_to(states[t + 1])
}

/// Through any row of actions, a record that stays in the table is at the
/// end where it was at the start, or further on in the order of the steps:
/// it never comes back to a state that it has left.
pub proof fn lemma_history_is_forward(states: Seq<PrecheckerState>, key: Seq<u8>, i: int, j: int)
    requires
        is_history(states),
        0 <= i <= j < states.len(),
        forall|t: int| i <= t <= j ==> (#[trigger] states[t]).operations@.contains_key(key),
    ensures
        states[j].operations@[key] == states[i].operations@[key] || states[i].operations@[key].state.rank()
            < states[j].operations@[key].state.rank(),
    decreases j - i,
{
    if i < j {
        lemma_history_is_forward(states, key, i, j - 1);
        assert(states[j - 1].steps_to(states[j]));
        assert(states[j - 1].operations@.contains_key(key));
        assert(states[j].operations@.contains_key(key));
        lemma_step_is_forward(states[j - 1], states[j], key);
    }
}

/// The numbers of a row of protocols, each of which the slot took from the
/// one before it.
pub open spec fn taken_in_turn(first: NextProtocolSlot, protos: Seq<u8>) -> bool
    decreases protos.len(),
{
    protos.len() == 0 || (first.can_set(protos[0]) && taken_in_turn(
        NextProtocolSlot { slot: Some((protos[0], crate::protocol::SupportedProtocolState::Unresolved)) },
        protos.drop_first(),
    ))
}

/// Where the slot takes a row of protocols one after the other, each number
/// is the one before it plus one.
pub proof fn lemma_protocols_rise_by_one(first: NextProtocolSlot, protos: Seq<u8>, i: int)
    requires
        taken_in_turn(first, protos),
        0 < i < protos.len(),
    ensures
        protos[i] == protos[i - 1] + 1,
    decreases protos.len(),
{
    let next = NextProtocolSlot { slot: Some((protos[0], crate::protocol::SupportedProtocolState::Unresolved)) };
    let rest = protos.drop_first();
    assert(taken_in_turn(next, rest));
    if i == 1 {
        assert(rest.len() > 0);
        assert(next.can_set(rest[0]));
        assert(rest[0] == protos[1]);
    } else {
        lemma_protocols_rise_by_one(next, rest, i - 1);
        assert(rest[i - 1] == protos[i]);
        assert(rest[i - 2] == protos[i - 1]);
    }
}

/// A slot that holds a number takes no number but the next: not its own
/// again, none below it, none further on.
pub proof fn lemma_only_successor_is_taken(slot: NextProtocolSlot, proto: u8)
    requires
        slot.slot.is_some(),
    ensures
        slot.can_set(proto) <==> proto == slot.number().unwrap() + 1,
{
}

} // verus!
