//! The connection state machine as mathematics: the state of an engine and
//! what each event makes of it.
//!
//! The executable engine is specified by these functions and nothing else,
//! so what is proved of them holds of it.

use crate::buf::BufferView;
use crate::epoll::{EPOLLERR, EPOLLHUP, EPOLLIN, EPOLLOUT, EPOLLRDHUP, EpollEventKind, RawFd};
use crate::error::HttpError;
use crate::framing::{CONNECTION, CONTENT_LENGTH, content_length, keeps_alive};
use crate::request::{HEADER_SLOTS, HeadView, HeaderView, ParseStatus, RequestView, last_value, parsed_head};
use vstd::prelude::*;
use vstd::string::StringSliceAdditionalSpecFns;

verus! {

/// The response that answers every request the engine cannot serve.
pub const CANONICAL_500: &'static str =
    "HTTP/1.1 500 Internal Server Error\r\nAccess-Control-Allow-Headers: origin, content-type, accept\r\nAccess-Control-Allow-Origin: *\r\nAccess-Control-Max-Age: 1728000\r\nAllow-Control-Allow-Methods: GET,POST,OPTIONS\r\nContent-Type: text/plain\r\nServer: Smeagol/0.1\r\nContent-Length: 0\r\n\r\n";

/// The size up to which the input buffer of a connection may grow.
pub const DEFAULT_MAX_MESSAGE_SIZE: usize = 1024 * 1024;

/// The bytes of [`CANONICAL_500`].
pub open spec fn canonical_500() -> Seq<u8> {
    CANONICAL_500.spec_bytes()
}

/// What the engine reports when it has nothing more to do for an event.
pub enum ResultView {
    /// A request is framed: its head and the bytes that follow it.
    Parsed { request: RequestView, payload: Seq<u8> },
    /// The send drain is over.
    Flushed,
    /// More readiness is needed to go on.
    Incomplete,
    /// The connection is to be closed.
    Close,
}

/// What the engine asks of its driver.
pub enum StepView {
    /// Receive into the free room of the input buffer and report back.
    Recv,
    /// Send the readable bytes of the output buffer and report back.
    Send,
    /// Nothing more: the event is dealt with.
    Done(ResultView),
}

/// How one receive went.
pub enum RecvView {
    /// These bytes arrived. None at all means that the peer is done sending.
    Data(Seq<u8>),
    /// The socket has nothing to give now.
    WouldBlock,
    /// The call failed with this error number.
    Failed(i32),
}

/// How one send went.
#[derive(Clone, Copy, Debug, PartialEq, Eq, Structural)]
pub enum SendOutcome {
    /// The socket took this many bytes.
    Sent(usize),
    /// The socket takes nothing now.
    WouldBlock,
    /// The call failed with this error number.
    Failed(i32),
}

/// The next step of a receive drain.
#[derive(Clone, Copy, Debug, PartialEq, Eq, Structural)]
pub enum ReadStep {
    /// There is room and the socket may have more: receive.
    Recv,
    /// The socket has been drained.
    Drained,
}

/// What is left to do of an event once a send drain is over.
#[derive(Clone, Copy, Debug, PartialEq, Eq, Structural)]
pub enum Resume {
    /// Nothing: the drain's result is the event's result.
    Nothing,
    /// The reading part of the event, which came with or without readiness
    /// to receive.
    Reading { readable: bool },
}

/// What the end of a response means for the connection.
#[derive(Clone, Copy, Debug, PartialEq, Eq, Structural)]
pub enum Settled {
    /// The last response is out and the peer is gone: close.
    Close,
    /// The response is out and the connection persists: start over.
    Reuse,
    /// Neither.
    Pending,
}

/// The state of an engine.
pub struct EngineState {
    /// The reactor's handle.
    pub epfd: RawFd,
    /// The connection's socket.
    pub sockfd: RawFd,
    /// The socket may have more to receive.
    pub is_readable: bool,
    /// The socket may take more.
    pub is_writable: bool,
    /// The peer is done sending.
    pub closed_write: bool,
    /// A request is being gathered.
    pub parsing: bool,
    /// The error response is the last that this connection sends.
    pub completing: bool,
    /// The connection outlives the request at hand.
    pub persist_connection: bool,
    /// The request at hand, once a parse has been tried.
    pub request: Option<RequestView>,
    /// The error that ended the request at hand, if one did.
    pub failure: Option<HttpError>,
    /// What is left of the event at hand.
    pub resume: Resume,
}

/// What a step that touches the output buffer alone comes to.
pub struct WriteTurn {
    pub state: EngineState,
    pub output: BufferView,
    pub step: StepView,
}

/// What a step of the receive drain comes to.
pub struct ReadTurn {
    pub state: EngineState,
    pub input: BufferView,
    pub step: Result<ReadStep, HttpError>,
}

/// What a step comes to: the state after it, the buffers and header slots
/// after it, and what the driver is to do next.
pub struct Turn {
    pub state: EngineState,
    pub input: BufferView,
    pub output: BufferView,
    pub slots: Seq<HeaderView>,
    pub step: StepView,
}

/// The buffers are such that the engine can work with them: the input buffer
/// has room to grow from, and the output buffer holds the error response.
pub open spec fn fit(input: BufferView, output: BufferView) -> bool {
    &&& input.wf()
    &&& output.wf()
    &&& input.capacity() > 0
    &&& output.capacity() >= canonical_500().len()
}

/// The driver kept to what it was asked: it received no more than there was
/// room for.
pub open spec fn receivable(outcome: RecvView, input: BufferView) -> bool {
    outcome matches RecvView::Data(bytes) ==> bytes.len() <= input.writable()
}

/// The driver kept to what it was asked: it sent no more than there was to
/// send.
pub open spec fn sendable(outcome: SendOutcome, output: BufferView) -> bool {
    outcome matches SendOutcome::Sent(cnt) ==> cnt <= output.readable()
}

impl HeadView {
    /// The request line of this head, with `headers` header slots taken.
    pub open spec fn request(self, headers: nat) -> RequestView {
        RequestView { method: self.method, path: self.path, version: self.version, headers }
    }
}

impl EngineState {
    /// What holds of every state that an engine gets into: a connection that
    /// is winding down does not persist, gathers no request and has none at
    /// hand.
    pub open spec fn inv(self) -> bool {
        self.completing ==> !self.persist_connection && !self.parsing && self.request is None
    }

    /// The state of an engine that has seen nothing yet.
    pub open spec fn fresh(epfd: RawFd, sockfd: RawFd) -> EngineState {
        EngineState {
            epfd,
            sockfd,
            is_readable: false,
            is_writable: false,
            closed_write: false,
            parsing: true,
            completing: false,
            persist_connection: false,
            request: None,
            failure: None,
            resume: Resume::Nothing,
        }
    }

    /// Ready for the next request: no request at hand, no decision made on
    /// persistence, no error pending, reading again.
    pub open spec fn reset(self) -> EngineState {
        EngineState {
            parsing: true,
            completing: false,
            persist_connection: false,
            request: None,
            failure: None,
            ..self
        }
    }

    /// The request at hand has failed with `error` and the connection is
    /// being wound down.
    pub open spec fn failed(self, error: HttpError) -> EngineState {
        EngineState {
            parsing: false,
            completing: true,
            persist_connection: false,
            request: None,
            failure: Some(error),
            resume: Resume::Nothing,
            ..self
        }
    }

    /// What an output buffer in the state `output` means for the connection.
    pub open spec fn settled(self, output: BufferView) -> Settled {
        if output.readable() > 0 {
            Settled::Pending
        } else if self.closed_write && self.completing {
            Settled::Close
        } else if self.persist_connection {
            Settled::Reuse
        } else {
            Settled::Pending
        }
    }

    /// The start of a send drain.
    pub open spec fn write_begin(self, output: BufferView) -> WriteTurn {
        match self.settled(output) {
            Settled::Close => WriteTurn {
                state: self,
                output,
                step: StepView::Done(ResultView::Close),
            },
            Settled::Reuse => WriteTurn {
                state: self.reset(),
                output,
                step: StepView::Done(ResultView::Flushed),
            },
            Settled::Pending => WriteTurn {
                state: self,
                output,
                step: if !self.is_writable {
                    StepView::Done(ResultView::Incomplete)
                } else if output.readable() > 0 {
                    StepView::Send
                } else {
                    StepView::Done(ResultView::Flushed)
                },
            },
        }
    }

    /// A send drain of its own, which no reading follows.
    pub open spec fn try_write(self, output: BufferView) -> WriteTurn {
        EngineState { resume: Resume::Nothing, ..self }.write_begin(output)
    }

    /// The end of a send drain.
    pub open spec fn write_end(self, output: BufferView) -> WriteTurn {
        match self.settled(output) {
            Settled::Close => WriteTurn {
                state: self,
                output,
                step: StepView::Done(ResultView::Close),
            },
            Settled::Reuse => WriteTurn {
                state: self.reset(),
                output,
                step: StepView::Done(ResultView::Flushed),
            },
            Settled::Pending => WriteTurn {
                state: self,
                output,
                step: StepView::Done(ResultView::Flushed),
            },
        }
    }

    /// The error path: whatever the output buffer held gives way to the
    /// canonical error response, and a send drain starts.
    pub open spec fn fail_with_500(self, error: HttpError, output: BufferView) -> WriteTurn {
        self.failed(error).write_begin(output.reset().write(canonical_500()))
    }

    /// One send has gone as `outcome` says.
    pub open spec fn sent(self, outcome: SendOutcome, output: BufferView) -> WriteTurn {
        match outcome {
            SendOutcome::WouldBlock => EngineState { is_writable: false, ..self }.write_end(
                output,
            ),
            SendOutcome::Sent(cnt) => {
                let rest = output.consume(cnt as nat);
                if rest.readable() > 0 {
                    WriteTurn { state: self, output: rest, step: StepView::Send }
                } else {
                    self.write_end(rest)
                }
            },
            SendOutcome::Failed(errno) => if self.completing {
                WriteTurn {
                    state: EngineState {
                        failure: Some(HttpError::Io { errno }),
                        resume: Resume::Nothing,
                        ..self
                    },
                    output,
                    step: StepView::Done(ResultView::Close),
                }
            } else {
                self.fail_with_500(HttpError::Io { errno }, output)
            },
        }
    }

    /// The next step of the receive drain: receive while the socket may have
    /// more, into a buffer that doubles when it is full and never grows past
    /// `max_msg_size`.
    pub open spec fn read_begin(self, input: BufferView, max_msg_size: usize) -> ReadTurn {
        if !self.is_readable {
            ReadTurn { state: self, input, step: Ok(ReadStep::Drained) }
        } else if input.writable() > 0 {
            ReadTurn { state: self, input, step: Ok(ReadStep::Recv) }
        } else if 2 * input.capacity() > max_msg_size {
            ReadTurn {
                state: self,
                input,
                step: Err(HttpError::MessageTooBig { max: max_msg_size }),
            }
        } else {
            ReadTurn {
                state: self,
                input: input.reserve(input.capacity()),
                step: Ok(ReadStep::Recv),
            }
        }
    }

    /// One receive has gone as `outcome` says.
    pub open spec fn received(self, outcome: RecvView, input: BufferView) -> ReadTurn {
        match outcome {
            RecvView::Data(bytes) => if bytes.len() == 0 {
                ReadTurn {
                    state: EngineState { is_readable: false, closed_write: true, ..self },
                    input,
                    step: Ok(ReadStep::Drained),
                }
            } else {
                ReadTurn { state: self, input: input.write(bytes), step: Ok(ReadStep::Recv) }
            },
            RecvView::WouldBlock => ReadTurn {
                state: EngineState { is_readable: false, ..self },
                input,
                step: Ok(ReadStep::Drained),
            },
            RecvView::Failed(errno) => ReadTurn {
                state: self,
                input,
                step: Err(HttpError::Io { errno }),
            },
        }
    }

    /// The error path as a step of a whole event.
    pub open spec fn fail_turn(
        self,
        error: HttpError,
        input: BufferView,
        output: BufferView,
        slots: Seq<HeaderView>,
    ) -> Turn {
        let turn = self.fail_with_500(error, output);
        Turn { state: turn.state, input, output: turn.output, slots, step: turn.step }
    }

    /// The request at hand has been handed up.
    pub open spec fn handed_up(self) -> EngineState {
        EngineState { parsing: false, request: None, ..self }
    }

    /// Framing, given what the parser made of the readable bytes of `input`.
    ///
    /// A head that is not complete changes nothing but the request view. A
    /// complete head decides on persistence and fills the header slots; the
    /// request is handed up once the body that its `Content-Length` states is
    /// there, and at once where it states none. A head that the parser
    /// refuses, one with more header lines than there are slots, and a
    /// `Content-Length` that states no length take the error path.
    #[verifier::opaque]
    pub open spec fn frame(
        self,
        head: HeadView,
        input: BufferView,
        output: BufferView,
        slots: Seq<HeaderView>,
    ) -> Turn {
        if self.request is None {
            Turn { state: self, input, output, slots, step: StepView::Done(ResultView::Incomplete) }
        } else {
            match head.status {
                ParseStatus::Invalid => self.fail_turn(HttpError::Parse, input, output, slots),
                ParseStatus::Partial => Turn {
                    state: EngineState { request: Some(head.request(0)), ..self },
                    input,
                    output,
                    slots,
                    step: StepView::Done(ResultView::Incomplete),
                },
                ParseStatus::Complete(request_length) => if head.headers.len() > HEADER_SLOTS {
                    self.fail_turn(HttpError::Parse, input, output, slots)
                } else {
                    let request = head.request(head.headers.len());
                    let decided = EngineState {
                        persist_connection: keeps_alive(
                            head.version,
                            last_value(head.headers, CONNECTION.spec_bytes()),
                        ),
                        request: Some(request),
                        ..self
                    };
                    match last_value(head.headers, CONTENT_LENGTH.spec_bytes()) {
                        None => Turn {
                            state: decided.handed_up(),
                            input,
                            output,
                            slots: head.headers,
                            step: StepView::Done(
                                ResultView::Parsed { request, payload: Seq::empty() },
                            ),
                        },
                        Some(text) => match content_length(text) {
                            None => decided.fail_turn(
                                HttpError::Parse,
                                input,
                                output,
                                head.headers,
                            ),
                            Some(body_length) => if body_length + request_length
                                > input.readable() {
                                Turn {
                                    state: decided,
                                    input,
                                    output,
                                    slots: head.headers,
                                    step: StepView::Done(ResultView::Incomplete),
                                }
                            } else {
                                Turn {
                                    state: decided.handed_up(),
                                    input,
                                    output,
                                    slots: head.headers,
                                    step: StepView::Done(
                                        ResultView::Parsed {
                                            request,
                                            payload: input.contents().skip(request_length as int),
                                        },
                                    ),
                                }
                            },
                        },
                    }
                },
            }
        }
    }

    /// Framing of the readable bytes of `input` as they stand.
    pub open spec fn framing(
        self,
        input: BufferView,
        output: BufferView,
        slots: Seq<HeaderView>,
    ) -> Turn {
        self.frame(parsed_head(input.contents(), HEADER_SLOTS as nat), input, output, slots)
    }

    /// The receive drain goes on from `turn`: to the next receive, to framing
    /// once the socket is drained, or down the error path.
    #[verifier::opaque]
    pub open spec fn read_next(
        turn: ReadTurn,
        output: BufferView,
        slots: Seq<HeaderView>,
    ) -> Turn {
        match turn.step {
            Err(error) => turn.state.fail_turn(error, turn.input, output, slots),
            Ok(ReadStep::Recv) => {
                let begun = turn.state.read_begin(turn.input, DEFAULT_MAX_MESSAGE_SIZE);
                match begun.step {
                    Err(error) => begun.state.fail_turn(error, begun.input, output, slots),
                    Ok(ReadStep::Recv) => Turn {
                        state: begun.state,
                        input: begun.input,
                        output,
                        slots,
                        step: StepView::Recv,
                    },
                    Ok(ReadStep::Drained) => begun.state.framing(begun.input, output, slots),
                }
            },
            Ok(ReadStep::Drained) => turn.state.framing(turn.input, output, slots),
        }
    }

    /// The reading part of an event, which follows the writing part.
    ///
    /// `turn` is what the writing part came to, and stands where no request
    /// is being gathered. Otherwise, where nothing of the request has been
    /// seen yet, the input buffer and the header slots start over and an
    /// empty request view is bound. Then the socket is drained if the event
    /// said that it is readable, and the input is framed; the result takes
    /// the place of that of the writing part.
    #[verifier::opaque]
    pub open spec fn read_stage(
        turn: WriteTurn,
        readable: bool,
        input: BufferView,
        slots: Seq<HeaderView>,
    ) -> Turn {
        let state = EngineState { resume: Resume::Nothing, ..turn.state };
        if !state.parsing {
            Turn { state, input, output: turn.output, slots, step: turn.step }
        } else {
            let input = if state.request is None {
                input.reset()
            } else {
                input
            };
            let slots = if state.request is None {
                Seq::empty()
            } else {
                slots
            };
            let state = if state.request is None {
                EngineState { request: Some(RequestView::empty()), ..state }
            } else {
                state
            };
            if readable {
                Self::read_next(
                    ReadTurn {
                        state: EngineState { is_readable: true, ..state },
                        input,
                        step: Ok(ReadStep::Recv),
                    },
                    turn.output,
                    slots,
                )
            } else {
                state.framing(input, turn.output, slots)
            }
        }
    }

    /// What is left of an event once its writing part has come to `turn`.
    pub open spec fn after_write(
        turn: WriteTurn,
        resume: Resume,
        input: BufferView,
        slots: Seq<HeaderView>,
    ) -> Turn {
        match turn.step {
            StepView::Done(_) => match resume {
                Resume::Reading { readable } => Self::read_stage(turn, readable, input, slots),
                Resume::Nothing => Turn {
                    state: turn.state,
                    input,
                    output: turn.output,
                    slots,
                    step: turn.step,
                },
            },
            _ => Turn {
                state: EngineState { resume, ..turn.state },
                input,
                output: turn.output,
                slots,
                step: turn.step,
            },
        }
    }

    /// A readiness event.
    ///
    /// A hang-up closes the connection at once. Otherwise the peer's
    /// half-close is noted, a socket error takes the error path, readiness to
    /// send starts a send drain, and the reading part follows.
    pub open spec fn on_event(
        self,
        events: EpollEventKind,
        input: BufferView,
        output: BufferView,
        slots: Seq<HeaderView>,
    ) -> Turn {
        if events.has(EPOLLHUP) {
            Turn { state: self, input, output, slots, step: StepView::Done(ResultView::Close) }
        } else {
            let noted = EngineState {
                closed_write: self.closed_write || events.has(EPOLLRDHUP),
                resume: Resume::Nothing,
                ..self
            };
            let reading = Resume::Reading { readable: events.has(EPOLLIN) };
            if events.has(EPOLLERR) {
                noted.fail_turn(HttpError::SocketError, input, output, slots)
            } else if events.has(EPOLLOUT) {
                Self::after_write(
                    EngineState { is_writable: true, ..noted }.write_begin(output),
                    reading,
                    input,
                    slots,
                )
            } else {
                Self::after_write(
                    WriteTurn {
                        state: noted,
                        output,
                        step: StepView::Done(ResultView::Incomplete),
                    },
                    reading,
                    input,
                    slots,
                )
            }
        }
    }

    /// The driver reports on the receive that it was asked for.
    pub open spec fn on_recv(
        self,
        outcome: RecvView,
        input: BufferView,
        output: BufferView,
        slots: Seq<HeaderView>,
    ) -> Turn {
        Self::read_next(self.received(outcome, input), output, slots)
    }

    /// The driver reports on the send that it was asked for.
    pub open spec fn on_send(
        self,
        outcome: SendOutcome,
        input: BufferView,
        output: BufferView,
        slots: Seq<HeaderView>,
    ) -> Turn {
        Self::after_write(self.sent(outcome, output), self.resume, input, slots)
    }
}

} // verus!
