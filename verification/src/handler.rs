//! The message handler, as a sequence of steps.
//!
//! Handling one inbound message takes at most two pieces of outside work: a
//! read of the store and a send. The handler does neither. Each function
//! here makes one decision and returns a [`Step`] that tells the caller
//! what to do next; the caller does it and reports the outcome to the
//! function for that step, until a step says that handling has finished.

use crate::chat::ChatKind;
use crate::gate::{draw, Gate, GATE_SCALE};
use crate::store::{fetched_text, get_random_response, read_agrees};
use vstd::prelude::*;

verus! {

/// An inbound chat message, as far as the handler reads it.
#[derive(Clone, Copy, Debug, PartialEq, Eq)]
pub struct Inbound {
    /// Identifier of the chat the message arrived in.
    pub chat_id: i64,
    /// Kind of that chat.
    pub kind: ChatKind,
}

/// A text message to send.
#[derive(Debug, PartialEq, Eq)]
pub struct Outbound {
    /// Identifier of the chat to send to.
    pub chat_id: i64,
    /// Text to send.
    pub text: String,
}

/// What the caller has to do next. `E` is the error of a failed send.
#[derive(Debug, PartialEq, Eq)]
pub enum Step<E> {
    /// Fetch one random text from the store and report the outcome to
    /// [`on_read`], together with this chat identifier.
    ReadStore { chat_id: i64 },
    /// Send this message and report the outcome to [`on_sent`].
    Send(Outbound),
    /// Handling has finished, with this result.
    Finish(Result<(), E>),
}

/// The step that follows the arrival of `inbound` when the value drawn for
/// it is `draw`: a read of the store if the chat is a group or supergroup
/// and the draw is admitted, and otherwise the end, with success.
pub open spec fn after_message<E>(gate: Gate, inbound: Inbound, draw: u64) -> Step<E> {
    if inbound.kind.in_group() && gate.admits(draw) {
        Step::ReadStore { chat_id: inbound.chat_id }
    } else {
        Step::Finish(Ok(()))
    }
}

/// The step that follows a read of the store made for chat `chat_id`: a
/// send of the text to that chat if the read brought one, and otherwise
/// the end, with success.
pub open spec fn after_read<E>(chat_id: i64, text: Option<String>) -> Step<E> {
    match text {
        Some(text) => Step::Send(Outbound { chat_id, text }),
        None => Step::Finish(Ok(())),
    }
}

/// The step that follows a send: the end, with the outcome of the send as
/// the result.
pub open spec fn after_send<E>(sent: Result<(), E>) -> Step<E> {
    Step::Finish(sent)
}

/// Decides what follows the arrival of `inbound`, given the value drawn
/// for it.
pub fn receive_with<E>(gate: &Gate, inbound: &Inbound, draw: u64) -> (step: Step<E>)
    ensures
        step == after_message::<E>(*gate, *inbound, draw),
{
    if inbound.kind.in_group() && gate.admits(draw) {
        Step::ReadStore { chat_id: inbound.chat_id }
    } else {
        Step::Finish(Ok(()))
    }
}

/// Decides what follows the arrival of `inbound`. In a group or supergroup
/// a value is drawn from the thread's random generator and decides; in any
/// other chat nothing is drawn and handling ends at once.
pub fn receive<E>(gate: &Gate, inbound: &Inbound) -> (step: Step<E>)
    ensures
        exists|draw: u64|
            draw < GATE_SCALE && step == #[trigger] after_message::<E>(*gate, *inbound, draw),
        !inbound.kind.in_group() ==> step == Step::<E>::Finish(Ok(())),
        gate.threshold == 0 ==> step == Step::<E>::Finish(Ok(())),
        inbound.kind.in_group() && gate.threshold >= GATE_SCALE ==> step == (Step::<E>::ReadStore {
            chat_id: inbound.chat_id,
        }),
{
    if inbound.kind.in_group() {
        let value = draw();
        receive_with(gate, inbound, value)
    } else {
        assert(Step::<E>::Finish(Ok(())) == after_message::<E>(*gate, *inbound, 0));
        Step::Finish(Ok(()))
    }
}

/// Decides what follows a read of the store made for chat `chat_id`. A
/// read that failed counts as one that brought no text.
pub fn on_read<S, E>(chat_id: i64, read: Result<Option<String>, S>) -> (step: Step<E>)
    ensures
        step == after_read::<E>(chat_id, fetched_text(read)),
{
    match get_random_response(read) {
        Some(text) => Step::Send(Outbound { chat_id, text }),
        None => Step::Finish(Ok(())),
    }
}

/// Decides what follows a send: handling ends, and fails exactly when the
/// send failed, with the error of the send.
pub fn on_sent<E>(sent: Result<(), E>) -> (step: Step<E>)
    ensures
        step == after_send(sent),
{
    Step::Finish(sent)
}

/// One complete handling, seen from outside: the messages sent, in order,
/// and the result returned.
pub struct Handling<E> {
    /// The messages sent.
    pub sends: Seq<Outbound>,
    /// The result of the handler.
    pub result: Result<(), E>,
}

/// How many pieces of outside work a step can still lead to.
pub open spec fn remaining<E>(step: Step<E>) -> nat {
    match step {
        Step::ReadStore { .. } => 2,
        Step::Send(_) => 1,
        Step::Finish(_) => 0,
    }
}

/// Follows the steps from `step` to the end, as a caller does: `read` is
/// the outcome of the read of the store if one is asked for, and `sent` the
/// outcome of the send if one is asked for.
pub open spec fn follow<S, E>(
    step: Step<E>,
    read: Result<Option<String>, S>,
    sent: Result<(), E>,
) -> Handling<E>
    decreases remaining(step),
{
    match step {
        Step::ReadStore { chat_id } => follow(
            after_read::<E>(chat_id, fetched_text(read)),
            read,
            sent,
        ),
        Step::Send(message) => {
            let rest = follow(after_send(sent), read, sent);
            Handling { sends: seq![message] + rest.sends, result: rest.result }
        },
        Step::Finish(result) => Handling { sends: Seq::empty(), result },
    }
}

/// The handling of `inbound` when the value drawn is `draw`, a read of the
/// store has outcome `read` and a send has outcome `sent`.
pub open spec fn handling<S, E>(
    gate: Gate,
    inbound: Inbound,
    draw: u64,
    read: Result<Option<String>, S>,
    sent: Result<(), E>,
) -> Handling<E> {
    follow(after_message::<E>(gate, inbound, draw), read, sent)
}

/// A handling has one of three courses. Outside groups, or on a draw that
/// is not admitted, nothing is read or sent and it succeeds. Otherwise the
/// store is read; if that brings no text, nothing is sent and it succeeds;
/// if it brings one, that text is sent to the chat the message came from,
/// and the result is the outcome of the send.
pub proof fn handling_courses<S, E>(
    gate: Gate,
    inbound: Inbound,
    draw: u64,
    read: Result<Option<String>, S>,
    sent: Result<(), E>,
)
    ensures
        handling(gate, inbound, draw, read, sent) == if inbound.kind.in_group() && gate.admits(
            draw,
        ) {
            match fetched_text(read) {
                Some(text) => Handling {
                    sends: seq![Outbound { chat_id: inbound.chat_id, text }],
                    result: sent,
                },
                None => Handling { sends: Seq::empty(), result: Ok(()) },
            }
        } else {
            Handling { sends: Seq::empty(), result: Ok(()) }
        },
{
    reveal_with_fuel(follow, 3);
    if inbound.kind.in_group() && gate.admits(draw) {
        if let Some(text) = fetched_text(read) {
            let message = Outbound { chat_id: inbound.chat_id, text };
            assert(seq![message] + Seq::<Outbound>::empty() =~= seq![message]);
        }
    }
}

/// Whatever is drawn, read or sent, a handling sends at most one message,
/// and it fails only when it did send one and that send failed.
pub proof fn at_most_one_send<S, E>(
    gate: Gate,
    inbound: Inbound,
    draw: u64,
    read: Result<Option<String>, S>,
    sent: Result<(), E>,
)
    ensures
        handling(gate, inbound, draw, read, sent).sends.len() <= 1,
        handling(gate, inbound, draw, read, sent).result is Err ==> {
            &&& handling(gate, inbound, draw, read, sent).sends.len() == 1
            &&& handling(gate, inbound, draw, read, sent).result == sent
        },
        forall|i: int|
            0 <= i < handling(gate, inbound, draw, read, sent).sends.len() ==> (#[trigger] handling(
                gate,
                inbound,
                draw,
                read,
                sent,
            ).sends[i]).chat_id == inbound.chat_id,
{
    handling_courses(gate, inbound, draw, read, sent);
}

/// A message from a chat that is neither a group nor a supergroup is never
/// answered, whatever is drawn and whatever the store holds, and handling
/// it succeeds.
pub proof fn outside_groups_nothing_is_sent<S, E>(
    gate: Gate,
    inbound: Inbound,
    draw: u64,
    read: Result<Option<String>, S>,
    sent: Result<(), E>,
)
    requires
        !inbound.kind.in_group(),
    ensures
        handling(gate, inbound, draw, read, sent).sends.len() == 0,
        handling(gate, inbound, draw, read, sent).result == Ok::<(), E>(()),
{
    handling_courses(gate, inbound, draw, read, sent);
}

/// In a group or supergroup, a draw at or above the threshold means that
/// nothing is sent, and handling succeeds.
pub proof fn refused_draw_sends_nothing<S, E>(
    gate: Gate,
    inbound: Inbound,
    draw: u64,
    read: Result<Option<String>, S>,
    sent: Result<(), E>,
)
    requires
        inbound.kind.in_group(),
        draw >= gate.threshold,
    ensures
        handling(gate, inbound, draw, read, sent).sends.len() == 0,
        handling(gate, inbound, draw, read, sent).result == Ok::<(), E>(()),
{
    handling_courses(gate, inbound, draw, read, sent);
}

/// In a group or supergroup, with a draw below the threshold and an empty
/// table, nothing is sent and handling succeeds, whether the read comes
/// back empty or fails.
pub proof fn empty_store_sends_nothing<S, E>(
    gate: Gate,
    inbound: Inbound,
    draw: u64,
    table: Map<int, Seq<char>>,
    read: Result<Option<String>, S>,
    sent: Result<(), E>,
)
    requires
        inbound.kind.in_group(),
        draw < gate.threshold,
        table.dom() =~= Set::<int>::empty(),
        read_agrees(table, read),
    ensures
        handling(gate, inbound, draw, read, sent).sends.len() == 0,
        handling(gate, inbound, draw, read, sent).result == Ok::<(), E>(()),
{
    handling_courses(gate, inbound, draw, read, sent);
    if let Ok(Some(text)) = read {
        let id = choose|id: int| table.dom().contains(id) && #[trigger] table[id] == text@;
        assert(table.dom().contains(id));
        assert(false);
    }
}

/// In a group or supergroup, with a draw below the threshold, a table of
/// at least one row and a read that did not fail, exactly one message is
/// sent. It goes to the chat the inbound message came from and carries the
/// text of a row of the table, and the result of the handling is the
/// outcome of that send.
pub proof fn stocked_store_sends_once<S, E>(
    gate: Gate,
    inbound: Inbound,
    draw: u64,
    table: Map<int, Seq<char>>,
    read: Result<Option<String>, S>,
    sent: Result<(), E>,
)
    requires
        inbound.kind.in_group(),
        draw < gate.threshold,
        exists|id: int| table.dom().contains(id),
        read is Ok,
        read_agrees(table, read),
    ensures
        handling(gate, inbound, draw, read, sent).sends.len() == 1,
        handling(gate, inbound, draw, read, sent).sends[0].chat_id == inbound.chat_id,
        table.contains_value(handling(gate, inbound, draw, read, sent).sends[0].text@),
        Ok::<Option<String>, S>(Some(handling(gate, inbound, draw, read, sent).sends[0].text))
            == read,
        handling(gate, inbound, draw, read, sent).result == sent,
{
    handling_courses(gate, inbound, draw, read, sent);
    if let Ok(None) = read {
        let id = choose|id: int| table.dom().contains(id);
        assert(table.dom().contains(id));
        assert(Set::<int>::empty().contains(id));
    }
}

} // verus!
