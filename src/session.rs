use vstd::prelude::*;
use vstd::string::*;
use crate::error::ClientError;
use crate::path::{attach_path, attach_path_spec, inspect_path, inspect_path_spec, resize_path, resize_path_spec};
use crate::response::{check_running, running};

verus! {

/// Where an attach session stands.
#[derive(Clone, Copy, Debug, PartialEq, Eq, Structural)]
pub enum Phase {
    /// Waiting for the container's state.
    Inspecting,
    /// The attach request is out; waiting for its stream to open.
    Attaching,
    /// Relaying both directions.
    Streaming,
    /// Over; nothing more is done.
    Done,
}

/// What the outside world reports to a session.
pub enum Event {
    /// The inspect call answered, with the container's reported state when
    /// it has one.
    Inspected(Option<String>),
    /// The attach stream opened; the local terminal measured this size.
    Opened { width: usize, height: usize },
    /// A chunk of the attach stream, in arrival order.
    Inbound(Vec<u8>),
    /// Bytes read from the local input, in order.
    Input(Vec<u8>),
    /// The remote side ended the attach stream.
    Closed,
    /// A call, a read or a write failed, on either side.
    Failed(ClientError),
}

/// What a session asks the outside world to do next.
pub enum Action {
    Nothing,
    /// Send the attach request to this path, its body being the forwarded
    /// input, delimited by closing the connection.
    Attach(String),
    /// Send the resize request to this path.
    Resize(String),
    /// Write these bytes to the local output and flush at once.
    Write(Vec<u8>),
    /// Append these bytes to the attach request's body.
    Forward(Vec<u8>),
    /// The session is over, with this outcome.
    Finish(Result<(), ClientError>),
}

/// An action as mathematical values.
pub enum ActionView {
    Nothing,
    Attach(Seq<char>),
    Resize(Seq<char>),
    Write(Seq<u8>),
    Forward(Seq<u8>),
    Finish(Result<(), ClientError>),
}

impl View for Action {
    type V = ActionView;

    open spec fn view(&self) -> ActionView {
        match self {
            Action::Nothing => ActionView::Nothing,
            Action::Attach(p) => ActionView::Attach(p@),
            Action::Resize(p) => ActionView::Resize(p@),
            Action::Write(b) => ActionView::Write(b@),
            Action::Forward(b) => ActionView::Forward(b@),
            Action::Finish(r) => ActionView::Finish(*r),
        }
    }
}

/// Events that end a session.
pub open spec fn ends(e: Event) -> bool {
    e is Closed || e is Failed
}

/// The phase after an event.
pub open spec fn next_phase(p: Phase, e: Event) -> Phase {
    if p == Phase::Done {
        Phase::Done
    } else {
        match e {
            Event::Inspected(s) => if p == Phase::Inspecting {
                if s is Some && s->0@ == running() {
                    Phase::Attaching
                } else {
                    Phase::Done
                }
            } else {
                p
            },
            Event::Opened { .. } => if p == Phase::Attaching {
                Phase::Streaming
            } else {
                p
            },
            Event::Closed => Phase::Done,
            Event::Failed(_) => Phase::Done,
            _ => p,
        }
    }
}

/// The action that answers an event, for the container `id`.
pub open spec fn next_action(id: Seq<char>, p: Phase, e: Event) -> ActionView {
    if p == Phase::Done {
        ActionView::Nothing
    } else {
        match e {
            Event::Inspected(s) => if p == Phase::Inspecting {
                if s is Some && s->0@ == running() {
                    ActionView::Attach(attach_path_spec(id))
                } else {
                    ActionView::Finish(Err(ClientError::ContainerState))
                }
            } else {
                ActionView::Nothing
            },
            Event::Opened { width, height } => if p == Phase::Attaching {
                ActionView::Resize(resize_path_spec(id, width as nat, height as nat))
            } else {
                ActionView::Nothing
            },
            Event::Inbound(c) => if p == Phase::Streaming {
                ActionView::Write(c@)
            } else {
                ActionView::Nothing
            },
            Event::Input(b) => ActionView::Forward(b@),
            Event::Closed => if p == Phase::Streaming {
                ActionView::Finish(Ok(()))
            } else {
                ActionView::Finish(Err(ClientError::Stream))
            },
            Event::Failed(err) => ActionView::Finish(Err(err)),
        }
    }
}

/// The actions that a session in phase `p` answers a run of events with.
pub open spec fn run(id: Seq<char>, p: Phase, evs: Seq<Event>) -> Seq<ActionView>
    decreases evs.len(),
{
    if evs.len() == 0 {
        Seq::empty()
    } else {
        seq![next_action(id, p, evs[0])] + run(id, next_phase(p, evs[0]), evs.drop_first())
    }
}

/// Everything that a run of actions writes to the local output.
pub open spec fn written(acts: Seq<ActionView>) -> Seq<u8>
    decreases acts.len(),
{
    if acts.len() == 0 {
        Seq::empty()
    } else {
        (match acts[0] {
            ActionView::Write(b) => b,
            _ => Seq::empty(),
        }) + written(acts.drop_first())
    }
}

/// Everything that a run of actions appends to the attach request's body.
pub open spec fn forwarded(acts: Seq<ActionView>) -> Seq<u8>
    decreases acts.len(),
{
    if acts.len() == 0 {
        Seq::empty()
    } else {
        (match acts[0] {
            ActionView::Forward(b) => b,
            _ => Seq::empty(),
        }) + forwarded(acts.drop_first())
    }
}

/// The inbound chunks of a run of events, joined in order, up to the event
/// that ends the session.
pub open spec fn inbound_until_end(evs: Seq<Event>) -> Seq<u8>
    decreases evs.len(),
{
    if evs.len() == 0 || ends(evs[0]) {
        Seq::empty()
    } else {
        (match evs[0] {
            Event::Inbound(c) => c@,
            _ => Seq::empty(),
        }) + inbound_until_end(evs.drop_first())
    }
}

/// The local input of a run of events, joined in order, up to the event that
/// ends the session or, from the start, up to a refusal to attach.
pub open spec fn input_until_end(p: Phase, evs: Seq<Event>) -> Seq<u8>
    decreases evs.len(),
{
    if evs.len() == 0 || p == Phase::Done {
        Seq::empty()
    } else {
        (match evs[0] {
            Event::Input(b) => b@,
            _ => Seq::empty(),
        }) + input_until_end(next_phase(p, evs[0]), evs.drop_first())
    }
}

/// Number of resize requests in a run of actions.
pub open spec fn resizes(acts: Seq<ActionView>) -> nat
    decreases acts.len(),
{
    if acts.len() == 0 {
        0
    } else {
        (if acts[0] is Resize {
            1nat
        } else {
            0nat
        }) + resizes(acts.drop_first())
    }
}

/// Number of attach requests in a run of actions.
pub open spec fn attaches(acts: Seq<ActionView>) -> nat
    decreases acts.len(),
{
    if acts.len() == 0 {
        0
    } else {
        (if acts[0] is Attach {
            1nat
        } else {
            0nat
        }) + attaches(acts.drop_first())
    }
}

/// While streaming, whatever the interleaving of local input with inbound
/// chunks, the session writes to the local output exactly the inbound chunks
/// joined in arrival order, up to the event that ends it.
pub proof fn lemma_output_is_inbound(id: Seq<char>, evs: Seq<Event>)
    ensures
        written(run(id, Phase::Streaming, evs)) == inbound_until_end(evs),
    decreases evs.len(),
{
    if evs.len() > 0 {
        let acts = run(id, Phase::Streaming, evs);
        assert(acts.drop_first() =~= run(id, next_phase(Phase::Streaming, evs[0]), evs.drop_first()));
        if ends(evs[0]) {
            lemma_nothing_when_done(id, evs.drop_first());
        } else {
            lemma_output_is_inbound(id, evs.drop_first());
        }
    }
}

/// A finished session answers every event with nothing.
pub proof fn lemma_nothing_when_done(id: Seq<char>, evs: Seq<Event>)
    ensures
        written(run(id, Phase::Done, evs)) == Seq::<u8>::empty(),
        forwarded(run(id, Phase::Done, evs)) == Seq::<u8>::empty(),
        resizes(run(id, Phase::Done, evs)) == 0,
        attaches(run(id, Phase::Done, evs)) == 0,
    decreases evs.len(),
{
    if evs.len() > 0 {
        let acts = run(id, Phase::Done, evs);
        assert(acts.drop_first() =~= run(id, Phase::Done, evs.drop_first()));
        lemma_nothing_when_done(id, evs.drop_first());
    }
}

/// The attach request's body is exactly the local input, in the order it was
/// read, up to the end of the session.
pub proof fn lemma_input_forwarded_in_order(id: Seq<char>, p: Phase, evs: Seq<Event>)
    ensures
        forwarded(run(id, p, evs)) == input_until_end(p, evs),
    decreases evs.len(),
{
    if evs.len() > 0 {
        let acts = run(id, p, evs);
        assert(acts.drop_first() =~= run(id, next_phase(p, evs[0]), evs.drop_first()));
        lemma_input_forwarded_in_order(id, next_phase(p, evs[0]), evs.drop_first());
        if p == Phase::Done {
            lemma_nothing_when_done(id, evs);
        }
    }
}

/// When the inspected state is anything but `running`, the session fails
/// with `ClientError::ContainerState` and never asks for the attach request,
/// whatever follows.
pub proof fn lemma_no_attach_unless_running(id: Seq<char>, state: Option<String>, rest: Seq<Event>)
    requires
        !(state is Some && state->0@ == running()),
    ensures
        run(id, Phase::Inspecting, seq![Event::Inspected(state)] + rest)[0]
            == ActionView::Finish(Err(ClientError::ContainerState)),
        attaches(run(id, Phase::Inspecting, seq![Event::Inspected(state)] + rest)) == 0,
{
    let evs = seq![Event::Inspected(state)] + rest;
    let acts = run(id, Phase::Inspecting, evs);
    assert(evs.drop_first() =~= rest);
    assert(acts.drop_first() =~= run(id, Phase::Done, rest));
    lemma_nothing_when_done(id, rest);
}

/// A session asks for at most one resize, and none once it streams.
pub proof fn lemma_at_most_one_resize(id: Seq<char>, p: Phase, evs: Seq<Event>)
    ensures
        resizes(run(id, p, evs)) <= (if p == Phase::Inspecting || p == Phase::Attaching {
            1nat
        } else {
            0nat
        }),
    decreases evs.len(),
{
    if evs.len() > 0 {
        let acts = run(id, p, evs);
        assert(acts.drop_first() =~= run(id, next_phase(p, evs[0]), evs.drop_first()));
        lemma_at_most_one_resize(id, next_phase(p, evs[0]), evs.drop_first());
    }
}

/// Once the attach stream opens, the session asks for exactly one resize,
/// at the size measured then, whatever follows.
pub proof fn lemma_one_resize_at_measured_size(
    id: Seq<char>,
    width: usize,
    height: usize,
    rest: Seq<Event>,
)
    ensures
        run(id, Phase::Attaching, seq![Event::Opened { width, height }] + rest)[0]
            == ActionView::Resize(resize_path_spec(id, width as nat, height as nat)),
        resizes(run(id, Phase::Attaching, seq![Event::Opened { width, height }] + rest)) == 1,
{
    let evs = seq![Event::Opened { width, height }] + rest;
    let acts = run(id, Phase::Attaching, evs);
    assert(evs.drop_first() =~= rest);
    assert(acts.drop_first() =~= run(id, Phase::Streaming, rest));
    lemma_at_most_one_resize(id, Phase::Streaming, rest);
}

/// The interactive attach protocol for one container, as a state machine:
/// the caller performs each action and reports what came of it.
pub struct AttachSession {
    id: String,
    phase: Phase,
}

impl AttachSession {
    pub closed spec fn id(&self) -> Seq<char> {
        self.id@
    }

    pub closed spec fn phase_spec(&self) -> Phase {
        self.phase
    }

    /// A session for container `id`, waiting for its state.
    pub fn new(id: &str) -> (r: AttachSession)
        ensures
            r.id() == id@,
            r.phase_spec() == Phase::Inspecting,
    {
        AttachSession { id: String::from_str(id), phase: Phase::Inspecting }
    }

    /// The path of the inspect call that must answer before any attach.
    pub fn inspect_request(&self) -> (r: String)
        ensures
            r@ == inspect_path_spec(self.id()),
    {
        inspect_path(self.id.as_str())
    }

    pub fn phase(&self) -> (r: Phase)
        ensures
            r == self.phase_spec(),
    {
        self.phase
    }

    /// Whether the session is over.
    pub fn is_done(&self) -> (r: bool)
        ensures
            r == (self.phase_spec() == Phase::Done),
    {
        self.phase == Phase::Done
    }

    /// Hands the inspect call's outcome over: the attach request's path when
    /// the container runs; otherwise the session ends with the call's failure
    /// or with `ClientError::ContainerState`.
    pub fn inspected(&mut self, outcome: Result<Option<String>, ClientError>) -> (r: Result<
        String,
        ClientError,
    >)
        requires
            old(self).phase_spec() == Phase::Inspecting,
        ensures
            final(self).id() == old(self).id(),
            match outcome {
                Ok(s) => if s is Some && s->0@ == running() {
                    r is Ok && r->Ok_0@ == attach_path_spec(old(self).id())
                        && final(self).phase_spec() == Phase::Attaching
                } else {
                    r == Err::<String, ClientError>(ClientError::ContainerState)
                        && final(self).phase_spec() == Phase::Done
                },
                Err(e) => r == Err::<String, ClientError>(e) && final(self).phase_spec()
                    == Phase::Done,
            },
    {
        let ev = match outcome {
            Ok(s) => Event::Inspected(s),
            Err(e) => Event::Failed(e),
        };
        match self.step(ev) {
            Action::Attach(p) => Ok(p),
            Action::Finish(Err(e)) => Err(e),
            _ => Err(ClientError::Stream),
        }
    }

    /// Ends a session that is under way: with success when its stream was
    /// relayed to its end, with `ClientError::Stream` when it ended before the
    /// stream opened, and with the failure when one came.
    pub fn end(&mut self, outcome: Result<(), ClientError>) -> (r: Result<(), ClientError>)
        requires
            old(self).phase_spec() != Phase::Done,
        ensures
            final(self).id() == old(self).id(),
            final(self).phase_spec() == Phase::Done,
            match outcome {
                Ok(()) => r == if old(self).phase_spec() == Phase::Streaming {
                    Ok::<(), ClientError>(())
                } else {
                    Err(ClientError::Stream)
                },
                Err(e) => r == Err::<(), ClientError>(e),
            },
    {
        let ev = match outcome {
            Ok(()) => Event::Closed,
            Err(e) => Event::Failed(e),
        };
        match self.step(ev) {
            Action::Finish(res) => res,
            _ => Err(ClientError::Stream),
        }
    }

    /// Answers one event: the next action, and the move to the next phase.
    pub fn step(&mut self, ev: Event) -> (r: Action)
        ensures
            final(self).id() == old(self).id(),
            final(self).phase_spec() == next_phase(old(self).phase_spec(), ev),
            r@ == next_action(old(self).id(), old(self).phase_spec(), ev),
    {
        if self.phase == Phase::Done {
            return Action::Nothing;
        }
        match ev {
            Event::Inspected(s) => {
                if self.phase != Phase::Inspecting {
                    return Action::Nothing;
                }
                let verdict = match &s {
                    Some(t) => check_running(Some(t.as_str())),
                    None => check_running(None),
                };
                match verdict {
                    Ok(()) => {
                        self.phase = Phase::Attaching;
                        Action::Attach(attach_path(self.id.as_str()))
                    },
                    Err(e) => {
                        self.phase = Phase::Done;
                        Action::Finish(Err(e))
                    },
                }
            },
            Event::Opened { width, height } => {
                if self.phase != Phase::Attaching {
                    return Action::Nothing;
                }
                self.phase = Phase::Streaming;
                Action::Resize(resize_path(self.id.as_str(), width, height))
            },
            Event::Inbound(c) => {
                if self.phase == Phase::Streaming {
                    Action::Write(c)
                } else {
                    Action::Nothing
                }
            },
            Event::Input(b) => Action::Forward(b),
            Event::Closed => {
                let outcome = if self.phase == Phase::Streaming {
                    Ok(())
                } else {
                    Err(ClientError::Stream)
                };
                self.phase = Phase::Done;
                Action::Finish(outcome)
            },
            Event::Failed(e) => {
                self.phase = Phase::Done;
                Action::Finish(Err(e))
            },
        }
    }
}

} // verus!
