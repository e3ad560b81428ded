//! What holds of the connection state machine, whatever the events.

use crate::buf::{
    BufferView, lemma_consume_drops, lemma_reserve_adds_room, lemma_reset_empties,
    lemma_write_appends, lemma_write_in_parts,
};
use crate::adapter::{ReactionView, adapt, reuses};
use crate::engine::{
    DEFAULT_MAX_MESSAGE_SIZE, EngineState, ReadStep, ReadTurn, RecvView, ResultView, Resume,
    SendOutcome, StepView, Turn, WriteTurn, canonical_500, fit, receivable, sendable,
};
use crate::epoll::{EPOLLHUP, EpollEventKind, MuxCmd};
use crate::error::HttpError;
use crate::framing::{CLOSE, CONNECTION, CONTENT_LENGTH, KEEP_ALIVE, content_length, keeps_alive};
use crate::request::{HEADER_SLOTS, HeadView, HeaderView, ParseStatus, last_value, parsed_head};
use crate::resource::ResourceView;
use vstd::prelude::*;
use vstd::string::StringSliceAdditionalSpecFns;

verus! {

/// What a send drain keeps of the output buffer it works on: its shape and
/// its capacity. It never asks for a receive, and asks for a send only when
/// there is something to send.
pub open spec fn write_keeps(turn: WriteTurn, state: EngineState, output: BufferView) -> bool {
    &&& turn.output.wf()
    &&& turn.output.capacity() == output.capacity()
    &&& turn.state.inv()
    &&& !(turn.step is Recv)
    &&& turn.step is Send ==> turn.output.readable() > 0
}

/// What every step keeps: the buffers stay fit to work with, the output
/// buffer keeps its capacity, the input buffer does not shrink and does not
/// grow past the limit from below it, the engine's invariant holds, and the
/// driver is asked to receive only where there is room and to send only
/// where there is something to send.
pub open spec fn keeps(turn: Turn, input: BufferView, output: BufferView) -> bool {
    &&& fit(turn.input, turn.output)
    &&& turn.output.capacity() == output.capacity()
    &&& turn.input.capacity() >= input.capacity()
    &&& input.capacity() <= DEFAULT_MAX_MESSAGE_SIZE ==> turn.input.capacity()
        <= DEFAULT_MAX_MESSAGE_SIZE
    &&& turn.state.inv()
    &&& turn.step is Recv ==> turn.input.writable() > 0
    &&& turn.step is Send ==> turn.output.readable() > 0
}

/// The start and the end of a send drain leave the output buffer alone and
/// keep the engine's invariant.
pub proof fn lemma_write_begin_keeps(state: EngineState, output: BufferView)
    requires
        state.inv(),
        output.wf(),
    ensures
        write_keeps(state.write_begin(output), state, output),
        write_keeps(state.write_end(output), state, output),
        write_keeps(state.try_write(output), state, output),
        state.write_begin(output).output == output,
        state.write_end(output).output == output,
        state.write_end(output).step is Done,
{
}

/// The error path leaves the canonical error response, and nothing else, in
/// an output buffer of the same capacity, and the connection winding down.
pub proof fn lemma_fail_keeps(state: EngineState, error: HttpError, output: BufferView)
    requires
        output.wf(),
        output.capacity() >= canonical_500().len(),
    ensures
        write_keeps(state.fail_with_500(error, output), state, output),
        state.fail_with_500(error, output).output.contents() == canonical_500(),
        state.fail_with_500(error, output).state.completing,
        state.fail_with_500(error, output).state.failure == Some(error),
        !state.fail_with_500(error, output).state.parsing,
        !state.fail_with_500(error, output).state.persist_connection,
{
    lemma_reset_empties(output);
    lemma_write_appends(output.reset(), canonical_500());
    let buffered = output.reset().write(canonical_500());
    assert(buffered.contents() =~= canonical_500());
    lemma_write_begin_keeps(state.failed(error), buffered);
}

/// A reported send keeps what a send drain keeps.
pub proof fn lemma_sent_keeps(state: EngineState, outcome: SendOutcome, output: BufferView)
    requires
        state.inv(),
        output.wf(),
        output.capacity() >= canonical_500().len(),
        sendable(outcome, output),
    ensures
        write_keeps(state.sent(outcome, output), state, output),
{
    match outcome {
        SendOutcome::WouldBlock => {
            lemma_write_begin_keeps(EngineState { is_writable: false, ..state }, output);
        },
        SendOutcome::Sent(cnt) => {
            lemma_consume_drops(output, cnt as nat);
            lemma_write_begin_keeps(state, output.consume(cnt as nat));
        },
        SendOutcome::Failed(errno) => {
            lemma_fail_keeps(state, HttpError::Io { errno }, output);
        },
    }
}

/// The receive drain keeps the input buffer well-formed, never shrinks it,
/// never takes it past the limit from below it, and asks for a receive only
/// where there is room.
pub proof fn lemma_read_begin_keeps(state: EngineState, input: BufferView, max_msg_size: usize)
    requires
        input.wf(),
        input.capacity() > 0,
    ensures
        state.read_begin(input, max_msg_size).state == state,
        state.read_begin(input, max_msg_size).input.wf(),
        state.read_begin(input, max_msg_size).input.capacity() >= input.capacity(),
        state.read_begin(input, max_msg_size).input.contents() == input.contents(),
        input.capacity() <= max_msg_size ==> state.read_begin(input, max_msg_size).input.capacity()
            <= max_msg_size,
        state.read_begin(input, max_msg_size).step == Ok::<ReadStep, HttpError>(ReadStep::Recv)
            ==> state.read_begin(input, max_msg_size).input.writable() > 0,
        state.read_begin(input, max_msg_size).step is Err <==> state.is_readable
            && input.writable() == 0 && 2 * input.capacity() > max_msg_size,
{
    lemma_reserve_adds_room(input, input.capacity());
}

/// A reported receive keeps the input buffer well-formed and its capacity.
pub proof fn lemma_received_keeps(state: EngineState, outcome: RecvView, input: BufferView)
    requires
        state.inv(),
        input.wf(),
        receivable(outcome, input),
    ensures
        state.received(outcome, input).input.wf(),
        state.received(outcome, input).input.capacity() == input.capacity(),
        state.received(outcome, input).state.inv(),
{
    if let RecvView::Data(bytes) = outcome {
        lemma_write_appends(input, bytes);
    }
}

/// Framing keeps what every step keeps, leaves the input buffer alone and
/// never asks for a receive.
pub proof fn lemma_frame_keeps(
    state: EngineState,
    head: HeadView,
    input: BufferView,
    output: BufferView,
    slots: Seq<HeaderView>,
)
    requires
        state.inv(),
        fit(input, output),
    ensures
        keeps(state.frame(head, input, output, slots), input, output),
        state.frame(head, input, output, slots).input == input,
        !(state.frame(head, input, output, slots).step is Recv),
        state.frame(head, input, output, slots).slots.len() <= if slots.len() <= HEADER_SLOTS {
            HEADER_SLOTS as nat
        } else {
            slots.len()
        },
{
    reveal(EngineState::frame);
    lemma_fail_keeps(state, HttpError::Parse, output);
    if let ParseStatus::Complete(request_length) = head.status {
        let decided = EngineState {
            persist_connection: keeps_alive(
                head.version,
                last_value(head.headers, CONNECTION.spec_bytes()),
            ),
            request: Some(head.request(head.headers.len())),
            ..state
        };
        lemma_fail_keeps(decided, HttpError::Parse, output);
    }
}

/// The receive drain, up to framing, keeps what every step keeps.
pub proof fn lemma_read_next_keeps(turn: ReadTurn, output: BufferView, slots: Seq<HeaderView>)
    requires
        turn.state.inv(),
        fit(turn.input, output),
    ensures
        keeps(EngineState::read_next(turn, output, slots), turn.input, output),
{
    reveal(EngineState::read_next);
    match turn.step {
        Err(error) => {
            lemma_fail_keeps(turn.state, error, output);
        },
        Ok(ReadStep::Recv) => {
            let begun = turn.state.read_begin(turn.input, DEFAULT_MAX_MESSAGE_SIZE);
            lemma_read_begin_keeps(turn.state, turn.input, DEFAULT_MAX_MESSAGE_SIZE);
            match begun.step {
                Err(error) => {
                    lemma_fail_keeps(begun.state, error, output);
                },
                Ok(ReadStep::Recv) => {},
                Ok(ReadStep::Drained) => {
                    lemma_frame_keeps(
                        begun.state,
                        parsed_head(begun.input.contents(), HEADER_SLOTS as nat),
                        begun.input,
                        output,
                        slots,
                    );
                },
            }
        },
        Ok(ReadStep::Drained) => {
            lemma_frame_keeps(
                turn.state,
                parsed_head(turn.input.contents(), HEADER_SLOTS as nat),
                turn.input,
                output,
                slots,
            );
        },
    }
}

/// The reading part of an event keeps what every step keeps.
pub proof fn lemma_read_stage_keeps(
    turn: WriteTurn,
    readable: bool,
    input: BufferView,
    slots: Seq<HeaderView>,
)
    requires
        turn.state.inv(),
        fit(input, turn.output),
        !(turn.step is Recv),
        turn.step is Send ==> turn.output.readable() > 0,
    ensures
        keeps(EngineState::read_stage(turn, readable, input, slots), input, turn.output),
{
    reveal(EngineState::read_stage);
    let state = EngineState { resume: Resume::Nothing, ..turn.state };
    if state.parsing {
        lemma_reset_empties(input);
        let fresh_input = if state.request is None {
            input.reset()
        } else {
            input
        };
        let fresh_slots = if state.request is None {
            Seq::<HeaderView>::empty()
        } else {
            slots
        };
        let bound = if state.request is None {
            EngineState { request: Some(crate::request::RequestView::empty()), ..state }
        } else {
            state
        };
        if readable {
            lemma_read_next_keeps(
                ReadTurn {
                    state: EngineState { is_readable: true, ..bound },
                    input: fresh_input,
                    step: Ok(ReadStep::Recv),
                },
                turn.output,
                fresh_slots,
            );
        } else {
            lemma_frame_keeps(
                bound,
                parsed_head(fresh_input.contents(), HEADER_SLOTS as nat),
                fresh_input,
                turn.output,
                fresh_slots,
            );
        }
    }
}

/// What follows the writing part of an event keeps what every step keeps.
pub proof fn lemma_after_write_keeps(
    turn: WriteTurn,
    resume: Resume,
    input: BufferView,
    slots: Seq<HeaderView>,
)
    requires
        turn.state.inv(),
        fit(input, turn.output),
        !(turn.step is Recv),
        turn.step is Send ==> turn.output.readable() > 0,
    ensures
        keeps(EngineState::after_write(turn, resume, input, slots), input, turn.output),
{
    if let Resume::Reading { readable } = resume {
        lemma_read_stage_keeps(turn, readable, input, slots);
    }
}

/// Whatever the event, the buffers stay fit to work with, the output buffer
/// keeps its capacity, and an input buffer that is within the message size
/// limit stays within it.
pub proof fn law_event_keeps(
    state: EngineState,
    events: EpollEventKind,
    input: BufferView,
    output: BufferView,
    slots: Seq<HeaderView>,
)
    requires
        state.inv(),
        fit(input, output),
    ensures
        keeps(state.on_event(events, input, output, slots), input, output),
{
    let noted = EngineState {
        closed_write: state.closed_write || events.has(crate::epoll::EPOLLRDHUP),
        resume: Resume::Nothing,
        ..state
    };
    let reading = Resume::Reading { readable: events.has(crate::epoll::EPOLLIN) };
    lemma_fail_keeps(noted, HttpError::SocketError, output);
    let writable = EngineState { is_writable: true, ..noted };
    lemma_write_begin_keeps(writable, output);
    lemma_after_write_keeps(writable.write_begin(output), reading, input, slots);
    lemma_after_write_keeps(
        WriteTurn { state: noted, output, step: StepView::Done(ResultView::Incomplete) },
        reading,
        input,
        slots,
    );
}

/// A reported receive keeps what every step keeps.
pub proof fn law_recv_keeps(
    state: EngineState,
    outcome: RecvView,
    input: BufferView,
    output: BufferView,
    slots: Seq<HeaderView>,
)
    requires
        state.inv(),
        fit(input, output),
        receivable(outcome, input),
    ensures
        keeps(state.on_recv(outcome, input, output, slots), input, output),
{
    lemma_received_keeps(state, outcome, input);
    lemma_read_next_keeps(state.received(outcome, input), output, slots);
}

/// A reported send keeps what every step keeps.
pub proof fn law_send_keeps(
    state: EngineState,
    outcome: SendOutcome,
    input: BufferView,
    output: BufferView,
    slots: Seq<HeaderView>,
)
    requires
        state.inv(),
        fit(input, output),
        sendable(outcome, output),
    ensures
        keeps(state.on_send(outcome, input, output, slots), input, output),
{
    lemma_sent_keeps(state, outcome, output);
    lemma_after_write_keeps(state.sent(outcome, output), state.resume, input, slots);
}

/// Bytes that arrive in two pieces leave the input buffer as the same bytes
/// arriving at once do, and so they are framed the same.
pub proof fn law_split_delivery(
    state: EngineState,
    input: BufferView,
    output: BufferView,
    slots: Seq<HeaderView>,
    bytes: Seq<u8>,
    k: int,
)
    requires
        input.wf(),
        0 <= k <= bytes.len(),
        bytes.len() <= input.writable(),
    ensures
        input.write(bytes.take(k)).write(bytes.skip(k)) == input.write(bytes),
        state.framing(input.write(bytes.take(k)).write(bytes.skip(k)), output, slots)
            == state.framing(input.write(bytes), output, slots),
{
    lemma_write_in_parts(input, bytes.take(k), bytes.skip(k));
    assert(bytes.take(k) + bytes.skip(k) =~= bytes);
}

/// Framing reads the readable bytes and nothing else of the input buffer, so
/// two buffers that hold the same bytes are framed the same, however the
/// bytes got there and whatever the capacity.
pub proof fn law_framing_reads_contents(
    state: EngineState,
    one: BufferView,
    other: BufferView,
    output: BufferView,
    slots: Seq<HeaderView>,
)
    requires
        one.wf(),
        other.wf(),
        one.contents() == other.contents(),
    ensures
        state.framing(one, output, slots).state == state.framing(other, output, slots).state,
        state.framing(one, output, slots).output == state.framing(other, output, slots).output,
        state.framing(one, output, slots).slots == state.framing(other, output, slots).slots,
        state.framing(one, output, slots).step == state.framing(other, output, slots).step,
{
    reveal(EngineState::frame);
    assert(one.readable() == one.contents().len());
    assert(other.readable() == other.contents().len());
}

/// A request is handed up only when all of it is in the input buffer: its
/// head and the body that its `Content-Length` states never take more than
/// the buffer's capacity. The payload is what follows the head, and nothing
/// where no length is stated.
pub proof fn law_parsed_fits(
    state: EngineState,
    head: HeadView,
    input: BufferView,
    output: BufferView,
    slots: Seq<HeaderView>,
)
    requires
        input.wf(),
    ensures
        state.frame(head, input, output, slots).step matches StepView::Done(
            ResultView::Parsed { request, payload },
        ) ==> {
            &&& state.request is Some
            &&& head.status matches ParseStatus::Complete(request_length)
            &&& head.headers.len() <= HEADER_SLOTS
            &&& request == head.request(head.headers.len())
            &&& match last_value(head.headers, CONTENT_LENGTH.spec_bytes()) {
                None => payload == Seq::<u8>::empty(),
                Some(text) => {
                    &&& content_length(text) matches Some(body_length)
                    &&& request_length + body_length <= input.readable()
                    &&& input.readable() <= input.capacity()
                    &&& payload == input.contents().skip(request_length as int)
                },
            }
        },
{
    reveal(EngineState::frame);
}

/// Once the input buffer is full, cannot be doubled within the message size
/// limit, and the socket still has more, the request takes the error path:
/// the canonical error response and nothing else is in the output buffer,
/// and the connection is winding down.
pub proof fn law_too_big_fails(
    state: EngineState,
    input: BufferView,
    output: BufferView,
    slots: Seq<HeaderView>,
)
    requires
        fit(input, output),
        state.is_readable,
        input.writable() == 0,
        2 * input.capacity() > DEFAULT_MAX_MESSAGE_SIZE,
    ensures
        ({
            let turn = EngineState::read_next(
                ReadTurn { state, input, step: Ok(ReadStep::Recv) },
                output,
                slots,
            );
            &&& turn.input == input
            &&& turn.output.contents() == canonical_500()
            &&& turn.state.completing
            &&& !turn.state.parsing
            &&& !turn.state.persist_connection
            &&& turn.state.failure == Some(HttpError::MessageTooBig { max: DEFAULT_MAX_MESSAGE_SIZE })
            &&& !(turn.step is Recv)
            &&& !(turn.step matches StepView::Done(ResultView::Parsed { .. }))
        }),
{
    reveal(EngineState::read_next);
    lemma_fail_keeps(state, HttpError::MessageTooBig { max: DEFAULT_MAX_MESSAGE_SIZE }, output);
}

/// The part of a state that a request leaves its mark on is as in an
/// engine that has seen nothing yet.
pub open spec fn starts_over(state: EngineState) -> bool {
    state == EngineState {
        is_readable: state.is_readable,
        is_writable: state.is_writable,
        closed_write: state.closed_write,
        resume: state.resume,
        ..EngineState::fresh(state.epfd, state.sockfd)
    }
}

/// Take a request that has been handed up, and the moment at which its
/// response is out (`later` is the engine then: readiness may have come and
/// gone, the decision made at framing stands).
///
/// If the request is HTTP/1.1 and does not say `Connection: close`, the send
/// drain ends with `Flushed` and the engine starts over: but for what it
/// knows of the socket, it is as an engine that has seen nothing yet.
///
/// If the request is HTTP/1.0 and does not say `Connection: keep-alive`, the
/// send drain ends with `Flushed` and the engine stays as it is: it gathers
/// no further request.
pub proof fn law_keep_alive(
    state: EngineState,
    head: HeadView,
    input: BufferView,
    output: BufferView,
    slots: Seq<HeaderView>,
    later: EngineState,
    drained: BufferView,
)
    requires
        state.inv(),
        state.frame(head, input, output, slots).step matches StepView::Done(
            ResultView::Parsed { .. },
        ),
        later.persist_connection == state.frame(
            head,
            input,
            output,
            slots,
        ).state.persist_connection,
        later.completing == state.frame(head, input, output, slots).state.completing,
        later.parsing == state.frame(head, input, output, slots).state.parsing,
        drained.readable() == 0,
    ensures
        ({
            let connection = last_value(head.headers, CONNECTION.spec_bytes());
            let modern = head.version is Some && head.version->0 >= 1;
            &&& modern && connection != Some(CLOSE.spec_bytes()) ==> {
                &&& later.write_end(drained).step == StepView::Done(ResultView::Flushed)
                &&& later.write_end(drained).state == later.reset()
                &&& starts_over(later.reset())
            }
            &&& !modern && connection != Some(KEEP_ALIVE.spec_bytes()) ==> {
                &&& later.write_end(drained).step == StepView::Done(ResultView::Flushed)
                &&& later.write_end(drained).state == later
                &&& !later.parsing
            }
        }),
{
    reveal(EngineState::frame);
}

/// An engine that is reset twice is as one that is reset once, and so is a
/// buffer.
pub proof fn law_reset_idempotent(state: EngineState, buffer: BufferView)
    ensures
        state.reset().reset() == state.reset(),
        buffer.reset().reset() == buffer.reset(),
        state.reset().inv(),
{
}

/// The whole response is out and the peer is done sending.
pub open spec fn flushed_and_shut(state: EngineState, output: BufferView) -> bool {
    output.readable() == 0 && state.closed_write && state.completing
}

/// A step that says `Close` says so because the response is out and the peer
/// is done sending.
pub open spec fn closes_flushed(turn: Turn) -> bool {
    turn.step == StepView::Done(ResultView::Close) ==> flushed_and_shut(turn.state, turn.output)
}

/// The same of a send drain.
pub open spec fn write_closes_flushed(turn: WriteTurn) -> bool {
    turn.step == StepView::Done(ResultView::Close) ==> flushed_and_shut(turn.state, turn.output)
}

/// Where a send drain starts or ends with `Close`, the output buffer is
/// empty and the peer is done sending.
pub proof fn law_write_closes_flushed(state: EngineState, output: BufferView)
    ensures
        write_closes_flushed(state.write_begin(output)),
        write_closes_flushed(state.write_end(output)),
        write_closes_flushed(state.try_write(output)),
{
}

/// The error path says `Close` only when the whole response is out and the
/// peer is done sending.
pub proof fn lemma_fail_closes_flushed(state: EngineState, error: HttpError, output: BufferView)
    ensures
        write_closes_flushed(state.fail_with_500(error, output)),
{
    law_write_closes_flushed(state.failed(error), output.reset().write(canonical_500()));
}

/// Framing says `Close` only when the whole response is out and the peer is
/// done sending.
pub proof fn lemma_frame_closes_flushed(
    state: EngineState,
    head: HeadView,
    input: BufferView,
    output: BufferView,
    slots: Seq<HeaderView>,
)
    ensures
        closes_flushed(state.frame(head, input, output, slots)),
{
    reveal(EngineState::frame);
    lemma_fail_closes_flushed(state, HttpError::Parse, output);
    if let ParseStatus::Complete(request_length) = head.status {
        let decided = EngineState {
            persist_connection: keeps_alive(
                head.version,
                last_value(head.headers, CONNECTION.spec_bytes()),
            ),
            request: Some(head.request(head.headers.len())),
            ..state
        };
        lemma_fail_closes_flushed(decided, HttpError::Parse, output);
    }
}

/// The receive drain says `Close` only when the whole response is out and
/// the peer is done sending.
pub proof fn lemma_read_next_closes_flushed(
    turn: ReadTurn,
    output: BufferView,
    slots: Seq<HeaderView>,
)
    ensures
        closes_flushed(EngineState::read_next(turn, output, slots)),
{
    reveal(EngineState::read_next);
    match turn.step {
        Err(error) => {
            lemma_fail_closes_flushed(turn.state, error, output);
        },
        Ok(ReadStep::Recv) => {
            let begun = turn.state.read_begin(turn.input, DEFAULT_MAX_MESSAGE_SIZE);
            match begun.step {
                Err(error) => {
                    lemma_fail_closes_flushed(begun.state, error, output);
                },
                Ok(ReadStep::Recv) => {},
                Ok(ReadStep::Drained) => {
                    lemma_frame_closes_flushed(
                        begun.state,
                        parsed_head(begun.input.contents(), HEADER_SLOTS as nat),
                        begun.input,
                        output,
                        slots,
                    );
                },
            }
        },
        Ok(ReadStep::Drained) => {
            lemma_frame_closes_flushed(
                turn.state,
                parsed_head(turn.input.contents(), HEADER_SLOTS as nat),
                turn.input,
                output,
                slots,
            );
        },
    }
}

/// What follows the writing part of an event says `Close` only when the
/// whole response is out and the peer is done sending, if the writing part
/// does.
pub proof fn lemma_after_write_closes_flushed(
    turn: WriteTurn,
    resume: Resume,
    input: BufferView,
    slots: Seq<HeaderView>,
)
    ensures
        EngineState::after_write(turn, resume, input, slots).step == StepView::Done(
            ResultView::Close,
        ) ==> turn.step == StepView::Done(ResultView::Close) || flushed_and_shut(
            EngineState::after_write(turn, resume, input, slots).state,
            EngineState::after_write(turn, resume, input, slots).output,
        ),
        write_closes_flushed(turn) ==> closes_flushed(
            EngineState::after_write(turn, resume, input, slots),
        ),
{
    reveal(EngineState::read_stage);
    if let Resume::Reading { readable } = resume {
        let state = EngineState { resume: Resume::Nothing, ..turn.state };
        if state.parsing {
            let fresh_input = if state.request is None {
                input.reset()
            } else {
                input
            };
            let fresh_slots = if state.request is None {
                Seq::<HeaderView>::empty()
            } else {
                slots
            };
            let bound = if state.request is None {
                EngineState { request: Some(crate::request::RequestView::empty()), ..state }
            } else {
                state
            };
            if readable {
                lemma_read_next_closes_flushed(
                    ReadTurn {
                        state: EngineState { is_readable: true, ..bound },
                        input: fresh_input,
                        step: Ok(ReadStep::Recv),
                    },
                    turn.output,
                    fresh_slots,
                );
            } else {
                lemma_frame_closes_flushed(
                    bound,
                    parsed_head(fresh_input.contents(), HEADER_SLOTS as nat),
                    fresh_input,
                    turn.output,
                    fresh_slots,
                );
            }
        }
    }
}

/// An event that is no hang-up ends with `Close` only when the whole response
/// is out and the peer is done sending.
pub proof fn law_event_closes_flushed(
    state: EngineState,
    events: EpollEventKind,
    input: BufferView,
    output: BufferView,
    slots: Seq<HeaderView>,
)
    requires
        !events.has(EPOLLHUP),
    ensures
        closes_flushed(state.on_event(events, input, output, slots)),
{
    let noted = EngineState {
        closed_write: state.closed_write || events.has(crate::epoll::EPOLLRDHUP),
        resume: Resume::Nothing,
        ..state
    };
    let reading = Resume::Reading { readable: events.has(crate::epoll::EPOLLIN) };
    lemma_fail_closes_flushed(noted, HttpError::SocketError, output);
    let writable = EngineState { is_writable: true, ..noted };
    law_write_closes_flushed(writable, output);
    lemma_after_write_closes_flushed(writable.write_begin(output), reading, input, slots);
    lemma_after_write_closes_flushed(
        WriteTurn { state: noted, output, step: StepView::Done(ResultView::Incomplete) },
        reading,
        input,
        slots,
    );
}

/// A reported receive ends with `Close` only when the whole response is out
/// and the peer is done sending.
pub proof fn law_recv_closes_flushed(
    state: EngineState,
    outcome: RecvView,
    input: BufferView,
    output: BufferView,
    slots: Seq<HeaderView>,
)
    ensures
        closes_flushed(state.on_recv(outcome, input, output, slots)),
{
    lemma_read_next_closes_flushed(state.received(outcome, input), output, slots);
}

/// Unless the send failed, a reported send ends with `Close` only when the
/// whole response is out and the peer is done sending.
pub proof fn law_send_closes_flushed(
    state: EngineState,
    outcome: SendOutcome,
    input: BufferView,
    output: BufferView,
    slots: Seq<HeaderView>,
)
    requires
        !(outcome is Failed),
    ensures
        closes_flushed(state.on_send(outcome, input, output, slots)),
{
    match outcome {
        SendOutcome::WouldBlock => {
            law_write_closes_flushed(EngineState { is_writable: false, ..state }, output);
        },
        SendOutcome::Sent(cnt) => {
            law_write_closes_flushed(state, output.consume(cnt as nat));
        },
        SendOutcome::Failed(errno) => {},
    }
    lemma_after_write_closes_flushed(state.sent(outcome, output), state.resume, input, slots);
}

/// The reset of the engine and the reset of the connection's buffers and
/// header slots do not get in each other's way: either order leaves the same
/// engine and the same resource, and a second reset of the resource changes
/// nothing.
pub proof fn law_resets_commute(state: EngineState, resource: ResourceView)
    ensures
        ({
            let engine_first = (state.reset(), resource);
            let resource_first = (state, resource.reset());
            (engine_first.0, engine_first.1.reset()) == (resource_first.0.reset(), resource_first.1)
        }),
        resource.reset().reset() == resource.reset(),
        resource.wf() ==> resource.reset().wf(),
{
    lemma_reset_empties(resource.input);
    lemma_reset_empties(resource.output);
}

/// A flushed response closes the connection, as the reactor sees it, unless
/// the adapter keeps connections alive and the engine started over; then the
/// connection is kept, with the engine, the buffers and the header slots
/// reset. So the response to an HTTP/1.0 request without
/// `Connection: keep-alive`, after which the engine gathers no request, is
/// followed by `Close`.
pub proof fn law_flushed_closes_unless_reused(turn: Turn, keep_alive: bool)
    requires
        turn.step == StepView::Done(ResultView::Flushed),
    ensures
        !(keep_alive && turn.state.parsing) ==> {
            &&& adapt(turn, keep_alive).reaction == ReactionView::Command(MuxCmd::Close)
            &&& adapt(turn, keep_alive).state == turn.state
        },
        keep_alive && turn.state.parsing ==> {
            &&& adapt(turn, keep_alive).reaction == ReactionView::Command(MuxCmd::Keep)
            &&& adapt(turn, keep_alive).state == turn.state.reset()
            &&& adapt(turn, keep_alive).resource.input == turn.input.reset()
            &&& adapt(turn, keep_alive).resource.output == turn.output.reset()
            &&& adapt(turn, keep_alive).resource.headers == Seq::<HeaderView>::empty()
        },
{
}

/// The reactor is told to close exactly when the engine says `Close`, or
/// says `Flushed` on a connection that is not reused; it is told to keep the
/// connection exactly when the engine says `Incomplete`, or says `Flushed` on
/// one that is reused.
pub proof fn law_commands(turn: Turn, keep_alive: bool)
    ensures
        adapt(turn, keep_alive).reaction == ReactionView::Command(MuxCmd::Close) <==> turn.step
            == StepView::Done(ResultView::Close) || (turn.step == StepView::Done(
            ResultView::Flushed,
        ) && !reuses(turn, keep_alive)),
        adapt(turn, keep_alive).reaction == ReactionView::Command(MuxCmd::Keep) <==> turn.step
            == StepView::Done(ResultView::Incomplete) || reuses(turn, keep_alive),
        adapt(turn, keep_alive).reaction is Recv <==> turn.step is Recv,
        adapt(turn, keep_alive).reaction is Send <==> turn.step is Send,
        adapt(turn, keep_alive).reaction is Respond <==> turn.step matches StepView::Done(
            ResultView::Parsed { .. },
        ),
{
}

} // verus!
