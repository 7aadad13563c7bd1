use vstd::prelude::*;

use crate::alarm::{
    is_command_code, is_terminal_code, step_spec, AlarmModel, ArmState, EventModel, Step,
};
use crate::frame::{FrameKind, FrameModel};
use crate::UPDATE_SIZE;

verus! {

/// The event carried by one steady-state binary message.
pub open spec fn msg_event(payload: Seq<u8>) -> EventModel {
    EventModel::Delivery(FrameModel { kind: FrameKind::Binary, fin: true, payload })
}

/// A steady-state binary payload the protocol accepts: exactly `UPDATE_SIZE`
/// bytes whose first byte is a recognized command code.
pub open spec fn accepted_message(payload: Seq<u8>) -> bool {
    payload.len() == UPDATE_SIZE && is_command_code(payload[0])
}

/// Runs a sequence of binary messages, each given with its arrival time,
/// through the transition relation, stopping early if a step ends or aborts
/// the run.
pub open spec fn run_messages(m: AlarmModel, msgs: Seq<(Seq<u8>, u64)>) -> AlarmModel
    decreases msgs.len(),
{
    if msgs.len() == 0 {
        m
    } else {
        let stepped = step_spec(m, msg_event(msgs[0].0), msgs[0].1);
        if stepped.1 is Continue {
            run_messages(stepped.0, msgs.drop_first())
        } else {
            stepped.0
        }
    }
}

/// Law: over any run of accepted binary messages, where every message before
/// the last carries a non-terminal code so that all of them are processed,
/// `last_message` ends up equal to the payload of the most recently accepted
/// message.
pub proof fn lemma_last_message_tracks_latest(m: AlarmModel, msgs: Seq<(Seq<u8>, u64)>)
    requires
        msgs.len() > 0,
        forall|i: int| 0 <= i < msgs.len() ==> accepted_message(#[trigger] msgs[i].0),
        forall|i: int| 0 <= i < msgs.len() - 1 ==> !is_terminal_code(#[trigger] msgs[i].0[0]),
    ensures
        run_messages(m, msgs).last_message == msgs.last().0,
    decreases msgs.len(),
{
    let stepped = step_spec(m, msg_event(msgs[0].0), msgs[0].1);
    if msgs.len() == 1 {
        assert(run_messages(m, msgs) == if stepped.1 is Continue {
            run_messages(stepped.0, msgs.drop_first())
        } else {
            stepped.0
        });
    } else {
        assert(!is_terminal_code(msgs[0].0[0]));
        assert(stepped.1 is Continue);
        let rest = msgs.drop_first();
        assert forall|i: int| 0 <= i < rest.len() implies accepted_message(#[trigger] rest[i].0) by {
            assert(rest[i] == msgs[i + 1]);
        }
        assert forall|i: int| 0 <= i < rest.len() - 1 implies !is_terminal_code(
            #[trigger] rest[i].0[0],
        ) by {
            assert(rest[i] == msgs[i + 1]);
        }
        lemma_last_message_tracks_latest(stepped.0, rest);
        assert(rest.last() == msgs.last());
    }
}

/// Law: arming while already armed does not change the defuse deadline. Two
/// arm messages in a row leave the machine with the same escalation time as
/// the first alone, whenever they arrive.
pub proof fn lemma_arming_idempotent(m: AlarmModel, p1: Seq<u8>, t1: u64, p2: Seq<u8>, t2: u64)
    requires
        p1.len() == UPDATE_SIZE,
        p1[0] == 1,
        p2.len() == UPDATE_SIZE,
        p2[0] == 1,
    ensures
        ({
            let once = step_spec(m, msg_event(p1), t1);
            let twice = step_spec(once.0, msg_event(p2), t2);
            &&& once.1 is Continue
            &&& twice.1 is Continue
            &&& twice.0.arm == once.0.arm
        }),
{
}

/// Law: a disarm message after an arm message returns the machine to idle,
/// so no defuse deadline is pending any more: the next wakeup is the
/// connection deadline alone.
pub proof fn lemma_disarm_cancels_escalation(
    m: AlarmModel,
    p1: Seq<u8>,
    t1: u64,
    p0: Seq<u8>,
    t0: u64,
)
    requires
        p1.len() == UPDATE_SIZE,
        p1[0] == 1,
        p0.len() == UPDATE_SIZE,
        p0[0] == 0,
    ensures
        ({
            let armed = step_spec(m, msg_event(p1), t1);
            let disarmed = step_spec(armed.0, msg_event(p0), t0);
            &&& armed.1 is Continue
            &&& disarmed.1 is Continue
            &&& disarmed.0.arm is Idle
            &&& disarmed.0.next_deadline() == disarmed.0.connection_deadline_ms
        }),
{
}

/// Law: an elapsed deadline ends the run with an alert outcome and leaves
/// the state as it was, whatever the state.
pub proof fn lemma_deadline_alerts(m: AlarmModel, now_ms: u64)
    ensures
        step_spec(m, EventModel::DeadlineElapsed, now_ms) == (m, Step::Terminal(true)),
{
}

/// Law: the next wakeup never lies after the connection deadline, so silence
/// past that deadline always wakes the loop, which then alerts (see
/// `lemma_deadline_alerts`).
pub proof fn lemma_wakeup_not_after_connection_deadline(m: AlarmModel)
    ensures
        m.next_deadline() <= m.connection_deadline_ms,
{
}

/// Law: while armed, the next wakeup never lies after the defuse deadline,
/// so escalation does not wait for the connection deadline; an elapsed
/// deadline then alerts (see `lemma_deadline_alerts`).
pub proof fn lemma_armed_wakeup_bounded(m: AlarmModel, defuse_deadline_ms: u64)
    requires
        m.arm == (ArmState::Armed { defuse_deadline_ms }),
    ensures
        m.next_deadline() <= defuse_deadline_ms,
{
}

/// Law: a manual-alert message always ends the run with alert true, and a
/// safe-stop message always ends it with alert false, whatever the prior arm
/// state.
pub proof fn lemma_terminal_codes(m: AlarmModel, p: Seq<u8>, now_ms: u64)
    requires
        p.len() == UPDATE_SIZE,
        is_terminal_code(p[0]),
    ensures
        p[0] == 2 ==> step_spec(m, msg_event(p), now_ms).1 == Step::Terminal(true),
        p[0] == 3 ==> step_spec(m, msg_event(p), now_ms).1 == Step::Terminal(false),
{
}

/// Law: a binary payload of the wrong width, or one whose first byte is not
/// a recognized command code, is fatal: the run aborts with no boolean
/// outcome and the state does not change.
pub proof fn lemma_invalid_messages_fatal(m: AlarmModel, p: Seq<u8>, now_ms: u64)
    requires
        !accepted_message(p),
    ensures
        step_spec(m, msg_event(p), now_ms).0 == m,
        (step_spec(m, msg_event(p), now_ms).1 matches Step::Fatal(_)),
{
}

} // verus!
