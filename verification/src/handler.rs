//! The engine of one connection: it takes readiness events and the outcomes
//! of the receives and sends that it asked for, and says what is to be done
//! next.
//!
//! The engine makes no system call. Where it needs one it returns
//! [`HttpStep::Recv`] or [`HttpStep::Send`]; the driver makes the call and
//! reports with [`HttpHandler::on_recv`] or [`HttpHandler::on_send`].

use crate::buf::ByteBuffer;
use crate::engine::{
    CANONICAL_500, DEFAULT_MAX_MESSAGE_SIZE, EngineState, ReadStep, ReadTurn, RecvView, ResultView,
    Resume, SendOutcome, Settled, StepView, Turn, WriteTurn, canonical_500, fit, receivable,
    sendable,
};
use crate::epoll::{
    EPOLLERR, EPOLLET, EPOLLHUP, EPOLLIN, EPOLLOUT, EPOLLRDHUP, EpollEventKind, EpollFd, RawFd,
};
use crate::error::HttpError;
use crate::framing::{CONNECTION, CONTENT_LENGTH, parse_content_length, persists};
use crate::laws::{keeps, law_event_keeps, law_recv_keeps, law_send_keeps};
use crate::request::{
    HEADER_SLOTS, HeaderSlots, ParseStatus, ParsedHead, Request, RequestView, parse_head,
};
use vstd::prelude::*;
use vstd::slice::slice_to_vec;

verus! {

/// What the engine reports when it has nothing more to do for an event.
#[derive(Debug, PartialEq, Eq)]
pub enum HttpResult {
    /// A request is framed: its head and the bytes that follow it.
    Parsed { request: Request, payload: Vec<u8> },
    /// The send drain is over.
    Flushed,
    /// More readiness is needed to go on.
    Incomplete,
    /// The connection is to be closed.
    Close,
}

impl View for HttpResult {
    type V = ResultView;

    open spec fn view(&self) -> ResultView {
        match self {
            HttpResult::Parsed { request, payload } => ResultView::Parsed {
                request: request@,
                payload: payload@,
            },
            HttpResult::Flushed => ResultView::Flushed,
            HttpResult::Incomplete => ResultView::Incomplete,
            HttpResult::Close => ResultView::Close,
        }
    }
}

/// What the engine asks of its driver.
#[derive(Debug, PartialEq, Eq)]
pub enum HttpStep {
    /// Receive into the free room of the input buffer, without blocking, and
    /// report with [`HttpHandler::on_recv`].
    Recv,
    /// Send the readable bytes of the output buffer, without blocking, and
    /// report with [`HttpHandler::on_send`].
    Send,
    /// Nothing more: the event is dealt with.
    Done(HttpResult),
}

impl View for HttpStep {
    type V = StepView;

    open spec fn view(&self) -> StepView {
        match self {
            HttpStep::Recv => StepView::Recv,
            HttpStep::Send => StepView::Send,
            HttpStep::Done(result) => StepView::Done(result@),
        }
    }
}

/// How one receive went.
#[derive(Debug, PartialEq, Eq)]
pub enum RecvOutcome {
    /// These bytes arrived. None at all means that the peer is done sending.
    Data(Vec<u8>),
    /// The socket has nothing to give now.
    WouldBlock,
    /// The call failed with this error number.
    Failed(i32),
}

impl View for RecvOutcome {
    type V = RecvView;

    open spec fn view(&self) -> RecvView {
        match self {
            RecvOutcome::Data(bytes) => RecvView::Data(bytes@),
            RecvOutcome::WouldBlock => RecvView::WouldBlock,
            RecvOutcome::Failed(errno) => RecvView::Failed(*errno),
        }
    }
}

/// The view of the request at hand, where there is one.
pub open spec fn request_view(request: Option<Request>) -> Option<RequestView> {
    match request {
        Some(r) => Some(r@),
        None => None,
    }
}

/// The engine of one connection.
#[derive(Debug)]
pub struct HttpHandler {
    epfd: EpollFd,
    sockfd: RawFd,
    is_readable: bool,
    request: Option<Request>,
    parsing: bool,
    persist_connection: bool,
    completing: bool,
    is_writable: bool,
    closed_write: bool,
    failure: Option<HttpError>,
    resume: Resume,
}

impl View for HttpHandler {
    type V = EngineState;

    closed spec fn view(&self) -> EngineState {
        EngineState {
            epfd: self.epfd.fd,
            sockfd: self.sockfd,
            is_readable: self.is_readable,
            is_writable: self.is_writable,
            closed_write: self.closed_write,
            parsing: self.parsing,
            completing: self.completing,
            persist_connection: self.persist_connection,
            request: request_view(self.request),
            failure: self.failure,
            resume: self.resume,
        }
    }
}

impl HttpHandler {
    /// What holds of every engine: a connection that is winding down does
    /// not persist, gathers no request and has none at hand.
    #[verifier::type_invariant]
    pub open spec fn wf(&self) -> bool {
        self@.inv()
    }

    /// An engine for the socket `sockfd`, which has seen nothing yet.
    pub fn new(epfd: EpollFd, sockfd: RawFd) -> (handler: HttpHandler)
        ensures
            handler@ == EngineState::fresh(epfd.fd, sockfd),
    {
        HttpHandler {
            epfd,
            sockfd,
            is_readable: false,
            parsing: true,
            request: None,
            persist_connection: false,
            completing: false,
            is_writable: false,
            closed_write: false,
            failure: None,
            resume: Resume::Nothing,
        }
    }

    /// Makes the engine ready for the next request on its connection.
    pub fn reset(&mut self)
        ensures
            final(self)@ == old(self)@.reset(),
    {
        proof {
            use_type_invariant(&*self);
        }
        self.completing = false;
        self.request = None;
        self.persist_connection = false;
        self.parsing = true;
        self.failure = None;
    }

    /// Looks at what the state of the output buffer means for the connection,
    /// and starts the connection over where the response is out and the
    /// connection persists.
    fn finalize(&mut self, output: &ByteBuffer) -> (settled: Settled)
        ensures
            settled == old(self)@.settled(output@),
            final(self)@ == if settled == Settled::Reuse {
                old(self)@.reset()
            } else {
                old(self)@
            },
    {
        proof {
            use_type_invariant(&*self);
        }
        if !output.is_readable() {
            if self.closed_write && self.completing {
                return Settled::Close;
            }
            if self.persist_connection {
                self.reset();
                return Settled::Reuse;
            }
        }
        Settled::Pending
    }

    fn write_begin(&mut self, output: &ByteBuffer) -> (step: HttpStep)
        ensures
            final(self)@ == old(self)@.write_begin(output@).state,
            step@ == old(self)@.write_begin(output@).step,
    {
        match self.finalize(output) {
            Settled::Close => HttpStep::Done(HttpResult::Close),
            Settled::Reuse => HttpStep::Done(HttpResult::Flushed),
            Settled::Pending => {
                if !self.is_writable {
                    HttpStep::Done(HttpResult::Incomplete)
                } else if output.is_readable() {
                    HttpStep::Send
                } else {
                    HttpStep::Done(HttpResult::Flushed)
                }
            },
        }
    }

    fn write_end(&mut self, output: &ByteBuffer) -> (step: HttpStep)
        ensures
            final(self)@ == old(self)@.write_end(output@).state,
            step@ == old(self)@.write_end(output@).step,
    {
        match self.finalize(output) {
            Settled::Close => HttpStep::Done(HttpResult::Close),
            Settled::Reuse => HttpStep::Done(HttpResult::Flushed),
            Settled::Pending => HttpStep::Done(HttpResult::Flushed),
        }
    }

    /// The error path: the output buffer gives way to the canonical error
    /// response, the connection is marked as winding down, and a send drain
    /// starts.
    fn fail_with_500(&mut self, error: HttpError, output: &mut ByteBuffer) -> (step: HttpStep)
        requires
            old(output)@.capacity() >= canonical_500().len(),
        ensures
            final(self)@ == old(self)@.fail_with_500(error, old(output)@).state,
            final(output)@ == old(self)@.fail_with_500(error, old(output)@).output,
            step@ == old(self)@.fail_with_500(error, old(output)@).step,
    {
        proof {
            use_type_invariant(&*self);
        }
        self.persist_connection = false;
        self.parsing = false;
        self.request = None;
        self.completing = true;
        self.failure = Some(error);
        self.resume = Resume::Nothing;
        output.reset();
        let _ = output.write(CANONICAL_500.as_bytes());
        self.write_begin(output)
    }

    /// Starts a send drain of what the output buffer holds.
    ///
    /// Where the buffer is empty this settles the connection: it is closed
    /// if the last response is out and the peer is gone, and started over if
    /// it persists. Otherwise the driver is asked to send, if the socket takes
    /// anything.
    pub fn try_write(&mut self, output_buffer: &ByteBuffer) -> (step: HttpStep)
        ensures
            final(self)@ == old(self)@.try_write(output_buffer@).state,
            step@ == old(self)@.try_write(output_buffer@).step,
    {
        proof {
            use_type_invariant(&*self);
        }
        self.resume = Resume::Nothing;
        self.write_begin(output_buffer)
    }

    fn sent(&mut self, outcome: SendOutcome, output: &mut ByteBuffer) -> (step: HttpStep)
        requires
            old(output)@.capacity() >= canonical_500().len(),
            sendable(outcome, old(output)@),
        ensures
            final(self)@ == old(self)@.sent(outcome, old(output)@).state,
            final(output)@ == old(self)@.sent(outcome, old(output)@).output,
            step@ == old(self)@.sent(outcome, old(output)@).step,
    {
        proof {
            use_type_invariant(&*self);
        }
        match outcome {
            SendOutcome::WouldBlock => {
                self.is_writable = false;
                self.write_end(output)
            },
            SendOutcome::Sent(cnt) => {
                output.consume(cnt);
                if output.is_readable() {
                    HttpStep::Send
                } else {
                    self.write_end(output)
                }
            },
            SendOutcome::Failed(errno) => {
                if self.completing {
                    self.failure = Some(HttpError::Io { errno });
                    self.resume = Resume::Nothing;
                    HttpStep::Done(HttpResult::Close)
                } else {
                    self.fail_with_500(HttpError::Io { errno }, output)
                }
            },
        }
    }

    /// Decides the next step of the receive drain.
    ///
    /// While the socket may have more, the driver is asked to receive; a
    /// full input buffer is doubled first, and refused where that would take
    /// it past `max_msg_size`.
    pub fn try_read(&self, input_buffer: &mut ByteBuffer, max_msg_size: usize) -> (step: Result<
        ReadStep,
        HttpError,
    >)
        requires
            old(input_buffer)@.capacity() > 0,
        ensures
            final(input_buffer)@ == self@.read_begin(old(input_buffer)@, max_msg_size).input,
            step == self@.read_begin(old(input_buffer)@, max_msg_size).step,
            final(input_buffer)@.wf(),
            step == Ok::<ReadStep, HttpError>(ReadStep::Recv) ==> final(input_buffer)@.writable()
                > 0,
            old(input_buffer)@.capacity() <= max_msg_size ==> final(input_buffer)@.capacity()
                <= max_msg_size,
    {
        proof {
            use_type_invariant(&*input_buffer);
        }
        if !self.is_readable {
            return Ok(ReadStep::Drained);
        }
        if input_buffer.is_writable() {
            return Ok(ReadStep::Recv);
        }
        let additional = input_buffer.capacity();
        if additional > max_msg_size || additional > max_msg_size - additional {
            return Err(HttpError::MessageTooBig { max: max_msg_size });
        }
        input_buffer.reserve(additional);
        Ok(ReadStep::Recv)
    }

    fn received(&mut self, outcome: RecvOutcome, input: &mut ByteBuffer) -> (step: Result<
        ReadStep,
        HttpError,
    >)
        requires
            receivable(outcome@, old(input)@),
        ensures
            final(self)@ == old(self)@.received(outcome@, old(input)@).state,
            final(input)@ == old(self)@.received(outcome@, old(input)@).input,
            step == old(self)@.received(outcome@, old(input)@).step,
    {
        proof {
            use_type_invariant(&*self);
        }
        match outcome {
            RecvOutcome::Data(bytes) => {
                if bytes.len() == 0 {
                    self.is_readable = false;
                    self.closed_write = true;
                    Ok(ReadStep::Drained)
                } else {
                    let _ = input.write(bytes.as_slice());
                    Ok(ReadStep::Recv)
                }
            },
            RecvOutcome::WouldBlock => {
                self.is_readable = false;
                Ok(ReadStep::Drained)
            },
            RecvOutcome::Failed(errno) => Err(HttpError::Io { errno }),
        }
    }

    /// Frames a request, given what the parser made of the readable bytes of
    /// `input_buffer`.
    ///
    /// A head that is not complete changes nothing but the request view. A
    /// complete head decides on persistence and fills the header slots; the
    /// request is handed up once the body that its `Content-Length` states is
    /// there, and at once where it states none. A head that the parser
    /// refuses, one with more header lines than there are slots, and a
    /// `Content-Length` that states no length take the error path.
    pub fn frame(
        &mut self,
        head: ParsedHead,
        input_buffer: &ByteBuffer,
        output_buffer: &mut ByteBuffer,
        headers: &mut HeaderSlots,
    ) -> (step: HttpStep)
        requires
            old(output_buffer)@.capacity() >= canonical_500().len(),
        ensures
            final(self)@ == old(self)@.frame(
                head@,
                input_buffer@,
                old(output_buffer)@,
                old(headers)@,
            ).state,
            final(output_buffer)@ == old(self)@.frame(
                head@,
                input_buffer@,
                old(output_buffer)@,
                old(headers)@,
            ).output,
            final(headers)@ == old(self)@.frame(
                head@,
                input_buffer@,
                old(output_buffer)@,
                old(headers)@,
            ).slots,
            step@ == old(self)@.frame(
                head@,
                input_buffer@,
                old(output_buffer)@,
                old(headers)@,
            ).step,
            input_buffer@ == old(self)@.frame(
                head@,
                input_buffer@,
                old(output_buffer)@,
                old(headers)@,
            ).input,
    {
        reveal(EngineState::frame);
        proof {
            use_type_invariant(&*self);
        }
        if self.request.is_none() {
            return HttpStep::Done(HttpResult::Incomplete);
        }
        let ParsedHead { status, method, path, version, headers: lines } = head;
        let request_length = match status {
            ParseStatus::Invalid => {
                return self.fail_with_500(HttpError::Parse, output_buffer);
            },
            ParseStatus::Partial => {
                self.request = Some(Request { method, path, version, headers: 0 });
                return HttpStep::Done(HttpResult::Incomplete);
            },
            ParseStatus::Complete(request_length) => request_length,
        };
        let count = lines.len();
        if count > HEADER_SLOTS {
            return self.fail_with_500(HttpError::Parse, output_buffer);
        }
        headers.fill(lines);
        let connection = match headers.find_last(CONNECTION.as_bytes()) {
            Some(i) => Some(headers.get(i).value.as_slice()),
            None => None,
        };
        self.persist_connection = persists(version, connection);
        let body_length = match headers.find_last(CONTENT_LENGTH.as_bytes()) {
            None => {
                self.parsing = false;
                self.request = None;
                return HttpStep::Done(
                    HttpResult::Parsed {
                        request: Request { method, path, version, headers: count },
                        payload: Vec::new(),
                    },
                );
            },
            Some(i) => parse_content_length(headers.get(i).value.as_slice()),
        };
        let total = match body_length {
            None => {
                self.request = Some(Request { method, path, version, headers: count });
                return self.fail_with_500(HttpError::Parse, output_buffer);
            },
            Some(body_length) => body_length.checked_add(request_length),
        };
        let complete = match total {
            Some(total) => total <= input_buffer.readable(),
            None => false,
        };
        if !complete {
            proof {
                use_type_invariant(input_buffer);
            }
            self.request = Some(Request { method, path, version, headers: count });
            return HttpStep::Done(HttpResult::Incomplete);
        }
        self.parsing = false;
        self.request = None;
        let payload = slice_to_vec(input_buffer.slice(request_length));
        HttpStep::Done(
            HttpResult::Parsed {
                request: Request { method, path, version, headers: count },
                payload,
            },
        )
    }

    /// Frames the readable bytes of `input_buffer` as they stand.
    pub fn try_frame(
        &mut self,
        input_buffer: &ByteBuffer,
        output_buffer: &mut ByteBuffer,
        headers: &mut HeaderSlots,
    ) -> (step: HttpStep)
        requires
            old(output_buffer)@.capacity() >= canonical_500().len(),
        ensures
            final(self)@ == old(self)@.framing(
                input_buffer@,
                old(output_buffer)@,
                old(headers)@,
            ).state,
            final(output_buffer)@ == old(self)@.framing(
                input_buffer@,
                old(output_buffer)@,
                old(headers)@,
            ).output,
            final(headers)@ == old(self)@.framing(
                input_buffer@,
                old(output_buffer)@,
                old(headers)@,
            ).slots,
            step@ == old(self)@.framing(input_buffer@, old(output_buffer)@, old(headers)@).step,
            input_buffer@ == old(self)@.framing(
                input_buffer@,
                old(output_buffer)@,
                old(headers)@,
            ).input,
    {
        let readable = input_buffer.slice(0);
        assert(readable@ =~= input_buffer@.contents());
        let head = parse_head(readable, headers.capacity());
        self.frame(head, input_buffer, output_buffer, headers)
    }

    fn read_next(
        &mut self,
        step: Result<ReadStep, HttpError>,
        input: &mut ByteBuffer,
        output: &mut ByteBuffer,
        slots: &mut HeaderSlots,
    ) -> (next: HttpStep)
        requires
            fit(old(input)@, old(output)@),
        ensures
            Self::came_to(
                EngineState::read_next(
                    ReadTurn { state: old(self)@, input: old(input)@, step },
                    old(output)@,
                    old(slots)@,
                ),
                final(self),
                final(input),
                final(output),
                final(slots),
                next,
            ),
    {
        reveal(EngineState::read_next);
        let drained = match step {
            Err(error) => {
                return self.fail_with_500(error, output);
            },
            Ok(ReadStep::Drained) => true,
            Ok(ReadStep::Recv) => match self.try_read(input, DEFAULT_MAX_MESSAGE_SIZE) {
                Err(error) => {
                    return self.fail_with_500(error, output);
                },
                Ok(ReadStep::Recv) => false,
                Ok(ReadStep::Drained) => true,
            },
        };
        if drained {
            self.try_frame(input, output, slots)
        } else {
            HttpStep::Recv
        }
    }

    fn read_stage(
        &mut self,
        tentative: HttpStep,
        readable: bool,
        input: &mut ByteBuffer,
        output: &mut ByteBuffer,
        slots: &mut HeaderSlots,
    ) -> (next: HttpStep)
        requires
            fit(old(input)@, old(output)@),
        ensures
            Self::came_to(
                EngineState::read_stage(
                    WriteTurn { state: old(self)@, output: old(output)@, step: tentative@ },
                    readable,
                    old(input)@,
                    old(slots)@,
                ),
                final(self),
                final(input),
                final(output),
                final(slots),
                next,
            ),
    {
        reveal(EngineState::read_stage);
        proof {
            use_type_invariant(&*self);
        }
        self.resume = Resume::Nothing;
        if !self.parsing {
            return tentative;
        }
        if self.request.is_none() {
            input.reset();
            slots.reset();
            self.request = Some(Request::new());
        }
        if readable {
            self.is_readable = true;
            self.read_next(Ok(ReadStep::Recv), input, output, slots)
        } else {
            self.try_frame(input, output, slots)
        }
    }

    fn after_write(
        &mut self,
        step: HttpStep,
        resume: Resume,
        input: &mut ByteBuffer,
        output: &mut ByteBuffer,
        slots: &mut HeaderSlots,
    ) -> (next: HttpStep)
        requires
            fit(old(input)@, old(output)@),
        ensures
            Self::came_to(
                EngineState::after_write(
                    WriteTurn { state: old(self)@, output: old(output)@, step: step@ },
                    resume,
                    old(input)@,
                    old(slots)@,
                ),
                final(self),
                final(input),
                final(output),
                final(slots),
                next,
            ),
    {
        proof {
            use_type_invariant(&*self);
        }
        match step {
            HttpStep::Done(result) => match resume {
                Resume::Reading { readable } => self.read_stage(
                    HttpStep::Done(result),
                    readable,
                    input,
                    output,
                    slots,
                ),
                Resume::Nothing => HttpStep::Done(result),
            },
            other => {
                self.resume = resume;
                other
            },
        }
    }

    /// The engine, the buffers, the header slots and the step are what
    /// `turn` says.
    pub open spec fn came_to(
        turn: Turn,
        handler: &HttpHandler,
        input: &ByteBuffer,
        output: &ByteBuffer,
        slots: &HeaderSlots,
        step: HttpStep,
    ) -> bool {
        &&& handler@ == turn.state
        &&& input@ == turn.input
        &&& output@ == turn.output
        &&& slots@ == turn.slots
        &&& step@ == turn.step
    }

    /// Takes a readiness event.
    ///
    /// A hang-up closes the connection at once. Otherwise the peer's
    /// half-close is noted, a socket error takes the error path, readiness to
    /// send starts a send drain, and then, while a request is being gathered,
    /// the socket is drained if it is readable and the input is framed.
    pub fn on_event(
        &mut self,
        events: EpollEventKind,
        input_buffer: &mut ByteBuffer,
        output_buffer: &mut ByteBuffer,
        headers: &mut HeaderSlots,
    ) -> (step: HttpStep)
        requires
            fit(old(input_buffer)@, old(output_buffer)@),
        ensures
            Self::came_to(
                old(self)@.on_event(
                    events,
                    old(input_buffer)@,
                    old(output_buffer)@,
                    old(headers)@,
                ),
                final(self),
                final(input_buffer),
                final(output_buffer),
                final(headers),
                step,
            ),
            keeps(
                old(self)@.on_event(
                    events,
                    old(input_buffer)@,
                    old(output_buffer)@,
                    old(headers)@,
                ),
                old(input_buffer)@,
                old(output_buffer)@,
            ),
    {
        proof {
            use_type_invariant(&*self);
            law_event_keeps(self@, events, input_buffer@, output_buffer@, headers@);
        }
        if events.contains(EPOLLHUP) {
            return HttpStep::Done(HttpResult::Close);
        }
        if events.contains(EPOLLRDHUP) {
            self.closed_write = true;
        }
        self.resume = Resume::Nothing;
        if events.contains(EPOLLERR) {
            return self.fail_with_500(HttpError::SocketError, output_buffer);
        }
        let tentative = if events.contains(EPOLLOUT) {
            self.is_writable = true;
            self.write_begin(output_buffer)
        } else {
            HttpStep::Done(HttpResult::Incomplete)
        };
        let reading = Resume::Reading { readable: events.contains(EPOLLIN) };
        self.after_write(tentative, reading, input_buffer, output_buffer, headers)
    }

    /// Takes the driver's report on the receive that it was asked for.
    pub fn on_recv(
        &mut self,
        outcome: RecvOutcome,
        input_buffer: &mut ByteBuffer,
        output_buffer: &mut ByteBuffer,
        headers: &mut HeaderSlots,
    ) -> (step: HttpStep)
        requires
            fit(old(input_buffer)@, old(output_buffer)@),
            receivable(outcome@, old(input_buffer)@),
        ensures
            Self::came_to(
                old(self)@.on_recv(
                    outcome@,
                    old(input_buffer)@,
                    old(output_buffer)@,
                    old(headers)@,
                ),
                final(self),
                final(input_buffer),
                final(output_buffer),
                final(headers),
                step,
            ),
            keeps(
                old(self)@.on_recv(
                    outcome@,
                    old(input_buffer)@,
                    old(output_buffer)@,
                    old(headers)@,
                ),
                old(input_buffer)@,
                old(output_buffer)@,
            ),
    {
        proof {
            use_type_invariant(&*self);
            law_recv_keeps(self@, outcome@, input_buffer@, output_buffer@, headers@);
        }
        let step = self.received(outcome, input_buffer);
        self.read_next(step, input_buffer, output_buffer, headers)
    }

    /// Takes the driver's report on the send that it was asked for.
    pub fn on_send(
        &mut self,
        outcome: SendOutcome,
        input_buffer: &mut ByteBuffer,
        output_buffer: &mut ByteBuffer,
        headers: &mut HeaderSlots,
    ) -> (step: HttpStep)
        requires
            fit(old(input_buffer)@, old(output_buffer)@),
            sendable(outcome, old(output_buffer)@),
        ensures
            Self::came_to(
                old(self)@.on_send(
                    outcome,
                    old(input_buffer)@,
                    old(output_buffer)@,
                    old(headers)@,
                ),
                final(self),
                final(input_buffer),
                final(output_buffer),
                final(headers),
                step,
            ),
            keeps(
                old(self)@.on_send(
                    outcome,
                    old(input_buffer)@,
                    old(output_buffer)@,
                    old(headers)@,
                ),
                old(input_buffer)@,
                old(output_buffer)@,
            ),
    {
        proof {
            use_type_invariant(&*self);
            law_send_keeps(self@, outcome, input_buffer@, output_buffer@, headers@);
        }
        let resume = self.resume;
        let step = self.sent(outcome, output_buffer);
        self.after_write(step, resume, input_buffer, output_buffer, headers)
    }

    /// Takes a readiness event together with the buffers and header slots of
    /// its connection: [`HttpHandler::on_event`] on the parts of `event`.
    pub fn on_next(&mut self, event: HttpEvent) -> (step: HttpStep)
        requires
            fit(old(event.input_buffer)@, old(event.output_buffer)@),
        ensures
            Self::came_to(
                old(self)@.on_event(
                    event.events,
                    old(event.input_buffer)@,
                    old(event.output_buffer)@,
                    old(event.headers)@,
                ),
                final(self),
                final(event.input_buffer),
                final(event.output_buffer),
                final(event.headers),
                step,
            ),
            keeps(
                old(self)@.on_event(
                    event.events,
                    old(event.input_buffer)@,
                    old(event.output_buffer)@,
                    old(event.headers)@,
                ),
                old(event.input_buffer)@,
                old(event.output_buffer)@,
            ),
    {
        self.on_event(event.events, event.input_buffer, event.output_buffer, event.headers)
    }

    /// Takes the response that the application composed: its bytes go into
    /// the output buffer and a send drain starts.
    pub fn on_response(&mut self, event: HttpResponseEvent) -> (step: HttpStep)
        requires
            event.response@.len() <= old(event.output_buffer)@.writable(),
        ensures
            final(event.output_buffer)@ == old(event.output_buffer)@.write(event.response@),
            final(self)@ == old(self)@.try_write(final(event.output_buffer)@).state,
            step@ == old(self)@.try_write(final(event.output_buffer)@).step,
    {
        let _ = event.output_buffer.write(event.response);
        self.try_write(event.output_buffer)
    }

    /// The events that a connection registers for: readable and writable,
    /// edge-triggered.
    pub fn interests() -> (events: EpollEventKind)
        ensures
            events.bits == EPOLLIN | EPOLLOUT | EPOLLET,
    {
        EpollEventKind::from_bits(EPOLLIN | EPOLLOUT | EPOLLET)
    }

    /// Takes the reactor's handle.
    pub fn with_epfd(&mut self, epfd: EpollFd)
        ensures
            final(self)@ == (EngineState { epfd: epfd.fd, ..old(self)@ }),
    {
        proof {
            use_type_invariant(&*self);
        }
        self.epfd = epfd;
    }

    pub fn epfd(&self) -> (epfd: EpollFd)
        ensures
            epfd.fd == self@.epfd,
    {
        self.epfd
    }

    pub fn sockfd(&self) -> (sockfd: RawFd)
        ensures
            sockfd == self@.sockfd,
    {
        self.sockfd
    }

    pub fn is_readable(&self) -> (b: bool)
        ensures
            b == self@.is_readable,
    {
        self.is_readable
    }

    pub fn is_writable(&self) -> (b: bool)
        ensures
            b == self@.is_writable,
    {
        self.is_writable
    }

    pub fn closed_write(&self) -> (b: bool)
        ensures
            b == self@.closed_write,
    {
        self.closed_write
    }

    pub fn is_parsing(&self) -> (b: bool)
        ensures
            b == self@.parsing,
    {
        self.parsing
    }

    pub fn is_completing(&self) -> (b: bool)
        ensures
            b == self@.completing,
    {
        self.completing
    }

    pub fn persist_connection(&self) -> (b: bool)
        ensures
            b == self@.persist_connection,
    {
        self.persist_connection
    }

    /// Whether a request is at hand, that is, a parse has been tried since
    /// the engine last started over.
    pub fn has_request(&self) -> (b: bool)
        ensures
            b == (self@.request is Some),
    {
        self.request.is_some()
    }

    /// The error that ended the request at hand, if one did.
    pub fn failure(&self) -> (failure: Option<HttpError>)
        ensures
            failure == self@.failure,
    {
        self.failure
    }
}

/// A readiness event and what belongs to its connection.
pub struct HttpEvent<'a, 'b> {
    pub events: EpollEventKind,
    pub input_buffer: &'b mut ByteBuffer,
    pub output_buffer: &'a mut ByteBuffer,
    pub headers: &'b mut HeaderSlots,
}

/// A response that the application composed, and the buffer that it goes
/// out through.
pub struct HttpResponseEvent<'a, 'b> {
    pub response: &'a [u8],
    pub output_buffer: &'b mut ByteBuffer,
}

} // verus!
