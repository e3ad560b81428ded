//! The glue between the reactor and the engine: it hands the reactor's
//! events to the engine and turns what the engine reports into what the
//! reactor, the driver or the application is to do.

use crate::engine::{EngineState, ResultView, SendOutcome, StepView, Turn, receivable, sendable};
use crate::epoll::{EpollEventKind, EpollFd, MuxCmd};
use crate::handler::{HttpHandler, HttpResponseEvent, HttpResult, HttpStep, RecvOutcome};
use crate::request::{Request, RequestView};
use crate::resource::{Resource, ResourceView};
use vstd::prelude::*;

verus! {

/// What is to be done after the adapter has taken an event or a report.
#[derive(Debug, PartialEq, Eq)]
pub enum Reaction {
    /// The driver is to receive into the free room of the input buffer and
    /// report with [`EventAdapter::on_recv`].
    Recv,
    /// The driver is to send the readable bytes of the output buffer and
    /// report with [`EventAdapter::on_send`].
    Send,
    /// The application is to compose the response to this request and hand
    /// it over with [`EventAdapter::on_response`].
    Respond { request: Request, payload: Vec<u8> },
    /// The reactor is to do this with the connection.
    Command(MuxCmd),
}

/// A [`Reaction`] as mathematics.
pub enum ReactionView {
    Recv,
    Send,
    Respond { request: RequestView, payload: Seq<u8> },
    Command(MuxCmd),
}

impl View for Reaction {
    type V = ReactionView;

    open spec fn view(&self) -> ReactionView {
        match self {
            Reaction::Recv => ReactionView::Recv,
            Reaction::Send => ReactionView::Send,
            Reaction::Respond { request, payload } => ReactionView::Respond {
                request: request@,
                payload: payload@,
            },
            Reaction::Command(command) => ReactionView::Command(*command),
        }
    }
}

/// What the adapter makes of a step of the engine.
pub struct Adapted {
    pub state: EngineState,
    pub resource: ResourceView,
    pub reaction: ReactionView,
}

/// The connection is reused after this step: the adapter keeps connections
/// alive, the send drain is over and the engine gathers a request again.
pub open spec fn reuses(turn: Turn, keep_alive: bool) -> bool {
    keep_alive && turn.step == StepView::Done(ResultView::Flushed) && turn.state.parsing
}

/// The adapter's rule.
///
/// A receive or a send that the engine asks for is the driver's to make, and
/// a framed request the application's to answer. `Incomplete` keeps the
/// connection and `Close` closes it. `Flushed` closes it too, unless the
/// adapter keeps connections alive and the engine gathers a request again:
/// then engine, buffers and header slots start over and the connection is
/// kept.
pub open spec fn adapt(turn: Turn, keep_alive: bool) -> Adapted {
    let resource = ResourceView { input: turn.input, output: turn.output, headers: turn.slots };
    match turn.step {
        StepView::Recv => Adapted { state: turn.state, resource, reaction: ReactionView::Recv },
        StepView::Send => Adapted { state: turn.state, resource, reaction: ReactionView::Send },
        StepView::Done(ResultView::Parsed { request, payload }) => Adapted {
            state: turn.state,
            resource,
            reaction: ReactionView::Respond { request, payload },
        },
        StepView::Done(ResultView::Incomplete) => Adapted {
            state: turn.state,
            resource,
            reaction: ReactionView::Command(MuxCmd::Keep),
        },
        StepView::Done(ResultView::Close) => Adapted {
            state: turn.state,
            resource,
            reaction: ReactionView::Command(MuxCmd::Close),
        },
        StepView::Done(ResultView::Flushed) => if reuses(turn, keep_alive) {
            Adapted {
                state: turn.state.reset(),
                resource: resource.reset(),
                reaction: ReactionView::Command(MuxCmd::Keep),
            }
        } else {
            Adapted {
                state: turn.state,
                resource,
                reaction: ReactionView::Command(MuxCmd::Close),
            }
        },
    }
}

/// The adapter of one connection: its engine, and whether connections are
/// kept alive once a response is out.
#[derive(Debug)]
pub struct EventAdapter {
    handler: HttpHandler,
    keep_alive: bool,
}

/// An [`EventAdapter`] as mathematics.
pub struct AdapterView {
    pub engine: EngineState,
    pub keep_alive: bool,
}

impl View for EventAdapter {
    type V = AdapterView;

    closed spec fn view(&self) -> AdapterView {
        AdapterView { engine: self.handler@, keep_alive: self.keep_alive }
    }
}

impl EventAdapter {
    /// The adapter has come to what `adapted` says.
    pub open spec fn came_to(
        adapted: Adapted,
        adapter: &EventAdapter,
        before: &EventAdapter,
        resource: &Resource,
        reaction: Reaction,
    ) -> bool {
        &&& adapter@.engine == adapted.state
        &&& adapter@.keep_alive == before@.keep_alive
        &&& resource@ == adapted.resource
        &&& reaction@ == adapted.reaction
    }

    /// An adapter around `handler`. With `keep_alive` the connection is kept
    /// for the next request where the engine decided that it persists; without
    /// it every flushed response closes the connection.
    pub fn new(handler: HttpHandler, keep_alive: bool) -> (adapter: EventAdapter)
        ensures
            adapter@.engine == handler@,
            adapter@.keep_alive == keep_alive,
    {
        EventAdapter { handler, keep_alive }
    }

    /// The events that the connection registers for: readable and writable,
    /// edge-triggered.
    pub fn interests() -> (events: EpollEventKind)
        ensures
            events.bits == crate::epoll::EPOLLIN | crate::epoll::EPOLLOUT | crate::epoll::EPOLLET,
    {
        HttpHandler::interests()
    }

    /// Takes the reactor's handle.
    pub fn with_epfd(&mut self, epfd: EpollFd)
        ensures
            final(self)@.engine == (EngineState { epfd: epfd.fd, ..old(self)@.engine }),
            final(self)@.keep_alive == old(self)@.keep_alive,
    {
        self.handler.with_epfd(epfd);
    }

    /// Makes the engine ready for the next request.
    pub fn reset(&mut self)
        ensures
            final(self)@.engine == old(self)@.engine.reset(),
            final(self)@.keep_alive == old(self)@.keep_alive,
    {
        self.handler.reset();
    }

    /// The engine.
    pub fn handler(&self) -> (handler: &HttpHandler)
        ensures
            handler@ == self@.engine,
    {
        &self.handler
    }

    pub fn keeps_alive(&self) -> (keep_alive: bool)
        ensures
            keep_alive == self@.keep_alive,
    {
        self.keep_alive
    }

    fn react(&mut self, step: HttpStep, resource: &mut Resource) -> (reaction: Reaction)
        ensures
            Self::came_to(
                adapt(
                    Turn {
                        state: old(self)@.engine,
                        input: old(resource)@.input,
                        output: old(resource)@.output,
                        slots: old(resource)@.headers,
                        step: step@,
                    },
                    old(self)@.keep_alive,
                ),
                final(self),
                old(self),
                final(resource),
                reaction,
            ),
            old(resource)@.wf() ==> final(resource)@.wf(),
    {
        match step {
            HttpStep::Recv => Reaction::Recv,
            HttpStep::Send => Reaction::Send,
            HttpStep::Done(HttpResult::Parsed { request, payload }) => Reaction::Respond {
                request,
                payload,
            },
            HttpStep::Done(HttpResult::Incomplete) => Reaction::Command(MuxCmd::Keep),
            HttpStep::Done(HttpResult::Close) => Reaction::Command(MuxCmd::Close),
            HttpStep::Done(HttpResult::Flushed) => {
                if self.keep_alive && self.handler.is_parsing() {
                    self.handler.reset();
                    resource.reset();
                    Reaction::Command(MuxCmd::Keep)
                } else {
                    Reaction::Command(MuxCmd::Close)
                }
            },
        }
    }

    /// Takes a readiness event from the reactor.
    pub fn on_event(&mut self, events: EpollEventKind, resource: &mut Resource) -> (reaction:
        Reaction)
        requires
            old(resource)@.wf(),
        ensures
            Self::came_to(
                adapt(
                    old(self)@.engine.on_event(
                        events,
                        old(resource)@.input,
                        old(resource)@.output,
                        old(resource)@.headers,
                    ),
                    old(self)@.keep_alive,
                ),
                final(self),
                old(self),
                final(resource),
                reaction,
            ),
            final(resource)@.wf(),
    {
        let step = self.handler.on_event(
            events,
            &mut resource.input_buffer,
            &mut resource.output_buffer,
            &mut resource.headers,
        );
        self.react(step, resource)
    }

    /// Takes the driver's report on the receive that it was asked for.
    pub fn on_recv(&mut self, outcome: RecvOutcome, resource: &mut Resource) -> (reaction:
        Reaction)
        requires
            old(resource)@.wf(),
            receivable(outcome@, old(resource)@.input),
        ensures
            Self::came_to(
                adapt(
                    old(self)@.engine.on_recv(
                        outcome@,
                        old(resource)@.input,
                        old(resource)@.output,
                        old(resource)@.headers,
                    ),
                    old(self)@.keep_alive,
                ),
                final(self),
                old(self),
                final(resource),
                reaction,
            ),
            final(resource)@.wf(),
    {
        let step = self.handler.on_recv(
            outcome,
            &mut resource.input_buffer,
            &mut resource.output_buffer,
            &mut resource.headers,
        );
        self.react(step, resource)
    }

    /// Takes the driver's report on the send that it was asked for.
    pub fn on_send(&mut self, outcome: SendOutcome, resource: &mut Resource) -> (reaction:
        Reaction)
        requires
            old(resource)@.wf(),
            sendable(outcome, old(resource)@.output),
        ensures
            Self::came_to(
                adapt(
                    old(self)@.engine.on_send(
                        outcome,
                        old(resource)@.input,
                        old(resource)@.output,
                        old(resource)@.headers,
                    ),
                    old(self)@.keep_alive,
                ),
                final(self),
                old(self),
                final(resource),
                reaction,
            ),
            final(resource)@.wf(),
    {
        let step = self.handler.on_send(
            outcome,
            &mut resource.input_buffer,
            &mut resource.output_buffer,
            &mut resource.headers,
        );
        self.react(step, resource)
    }

    /// Takes the response that the application composed: it goes into the
    /// output buffer and a send drain starts.
    pub fn on_response(&mut self, response: &[u8], resource: &mut Resource) -> (reaction:
        Reaction)
        requires
            old(resource)@.wf(),
            response@.len() <= old(resource)@.output.writable(),
        ensures
            Self::came_to(
                adapt(
                    Turn {
                        state: old(self)@.engine.try_write(
                            old(resource)@.output.write(response@),
                        ).state,
                        input: old(resource)@.input,
                        output: old(resource)@.output.write(response@),
                        slots: old(resource)@.headers,
                        step: old(self)@.engine.try_write(
                            old(resource)@.output.write(response@),
                        ).step,
                    },
                    old(self)@.keep_alive,
                ),
                final(self),
                old(self),
                final(resource),
                reaction,
            ),
            final(resource)@.wf(),
    {
        proof {
            crate::buf::lemma_write_appends(resource@.output, response@);
        }
        let step = self.handler.on_response(
            HttpResponseEvent { response, output_buffer: &mut resource.output_buffer },
        );
        self.react(step, resource)
    }
}

} // verus!
