//! The listener's lifecycle, driven by the events that the surrounding server
//! and the consumer of the update stream report. Each operation is a step of
//! `ListenerModel`, and says which outside action is due (a registration call,
//! a teardown call, a response to a push).

use vstd::prelude::*;
use std::collections::VecDeque;
use crate::options::Options;
use crate::setup::{registration_of, take_registration, RegistrationRequest, SetupError};

verus! {

/// How a stream ended, or is ending.
#[derive(Clone, Copy, Debug, PartialEq, Eq, Structural)]
pub enum Ending {
    /// The consumer cancelled the stream, or dropped its handle.
    Cancelled,
    /// The listener failed (a socket fault): a fatal end, told apart from a
    /// cancellation.
    Fault,
    /// The local address could not be bound; no registration was attempted.
    BindFailed,
    /// The registration was not accepted; the stream never served.
    SetupFailed,
}

/// The listener's lifecycle.
#[derive(Clone, Copy, Debug, PartialEq, Eq, Structural)]
pub enum Phase {
    /// The local address is not bound yet.
    Unbound,
    /// The local address is bound; nothing is registered yet.
    Bound,
    /// The registration call has been issued; its outcome is awaited.
    Registering,
    /// Registered: inbound pushes are accepted.
    Serving,
    /// The teardown call has been issued; new pushes are refused.
    Draining(Ending),
    /// Finished.
    Stopped(Ending),
}

/// The answer to an inbound push.
#[derive(Clone, Copy, Debug, PartialEq, Eq, Structural)]
pub enum Response {
    /// Its updates were queued.
    Accepted,
    /// Its body did not parse: a client error, nothing queued.
    Malformed,
    /// The buffer is full: the sender should retry later.
    Busy,
    /// The listener is not serving.
    Unavailable,
}

/// What the consumer gets when it asks for the next update.
#[derive(Debug, PartialEq, Eq)]
pub enum Pull<U> {
    /// The oldest queued update.
    Update(U),
    /// Nothing yet: wait for the next push.
    Pending,
    /// The stream ended gracefully.
    Completed,
    /// The stream ended on a listener fault.
    Failed,
}

/// The abstract state of a listener.
pub struct ListenerModel<U> {
    pub phase: Phase,
    /// Updates received and not yet handed to the consumer, oldest first.
    pub queue: Seq<U>,
    /// Most updates the queue may hold.
    pub capacity: nat,
    /// Registration calls issued so far.
    pub registrations: nat,
    /// Teardown calls issued so far.
    pub teardowns: nat,
}

impl<U> ListenerModel<U> {
    /// A fresh listener: nothing registered, nothing queued.
    pub open spec fn initial(capacity: nat) -> Self {
        ListenerModel {
            phase: Phase::Unbound,
            queue: Seq::empty(),
            capacity,
            registrations: 0,
            teardowns: 0,
        }
    }

    /// At most one registration and one teardown call; updates are queued
    /// only while serving, within the capacity; the phase agrees with the
    /// calls issued.
    pub open spec fn wf(self) -> bool {
        &&& self.registrations <= 1
        &&& self.teardowns <= 1
        &&& self.queue.len() <= self.capacity
        &&& !(self.phase is Serving) ==> self.queue.len() == 0
        &&& (self.phase is Unbound || self.phase is Bound) ==> self.registrations == 0
            && self.teardowns == 0
        &&& (self.phase is Registering || self.phase is Serving) ==> self.registrations == 1
            && self.teardowns == 0
        &&& self.phase is Draining ==> self.teardowns == 1
    }

    /// Whether the registration has ended for good: the teardown call was
    /// issued, or the listener stopped.
    pub open spec fn is_closing(self) -> bool {
        self.phase is Draining || self.phase is Stopped
    }

    /// Binding comes first: a failed bind stops the listener before any
    /// registration call.
    pub open spec fn finish_binding(self, bound: bool) -> Self {
        if self.phase is Unbound {
            ListenerModel {
                phase: if bound {
                    Phase::Bound
                } else {
                    Phase::Stopped(Ending::BindFailed)
                },
                ..self
            }
        } else {
            self
        }
    }

    /// The registration call is issued only from `Bound`.
    pub open spec fn begin_registration(self) -> Self {
        if self.phase is Bound {
            ListenerModel {
                phase: Phase::Registering,
                registrations: self.registrations + 1,
                ..self
            }
        } else {
            self
        }
    }

    pub open spec fn finish_registration(self, accepted: bool) -> Self {
        if self.phase is Registering {
            ListenerModel {
                phase: if accepted {
                    Phase::Serving
                } else {
                    Phase::Stopped(Ending::SetupFailed)
                },
                ..self
            }
        } else {
            self
        }
    }

    pub open spec fn push_response(self, body: Option<Seq<U>>) -> Response {
        if !(self.phase is Serving) {
            Response::Unavailable
        } else {
            match body {
                None => Response::Malformed,
                Some(batch) => if self.queue.len() == self.capacity || self.queue.len()
                    + batch.len() > self.capacity {
                    Response::Busy
                } else {
                    Response::Accepted
                },
            }
        }
    }

    pub open spec fn push(self, body: Option<Seq<U>>) -> Self {
        if self.push_response(body) is Accepted {
            ListenerModel { queue: self.queue + body->0, ..self }
        } else {
            self
        }
    }

    pub open spec fn pull_output(self) -> Pull<U> {
        match self.phase {
            Phase::Serving => if self.queue.len() > 0 {
                Pull::Update(self.queue[0])
            } else {
                Pull::Pending
            },
            Phase::Stopped(Ending::Fault) => Pull::Failed,
            Phase::Stopped(_) => Pull::Completed,
            _ => Pull::Pending,
        }
    }

    pub open spec fn pull(self) -> Self {
        if self.pull_output() is Update {
            ListenerModel { queue: self.queue.drop_first(), ..self }
        } else {
            self
        }
    }

    /// A teardown call is owed while a registration is issued and not yet
    /// torn down.
    pub open spec fn teardown_owed(self) -> bool {
        self.teardowns == 0 && (self.phase is Registering || self.phase is Serving)
    }

    /// Cancellation, a dropped handle and a listener fault all end the stream:
    /// queued updates are discarded and the teardown call is issued if owed.
    pub open spec fn shut_down(self, ending: Ending) -> Self {
        if self.teardown_owed() {
            ListenerModel {
                phase: Phase::Draining(ending),
                queue: Seq::empty(),
                teardowns: self.teardowns + 1,
                ..self
            }
        } else if self.phase is Unbound || self.phase is Bound {
            ListenerModel { phase: Phase::Stopped(ending), ..self }
        } else {
            self
        }
    }

    pub open spec fn finish_teardown(self) -> Self {
        match self.phase {
            Phase::Draining(ending) => ListenerModel { phase: Phase::Stopped(ending), ..self },
            _ => self,
        }
    }
}

/// The updates that a parsed push body carries, or `None` for a malformed one.
pub open spec fn body_view<U>(body: Option<Vec<U>>) -> Option<Seq<U>> {
    match body {
        Some(batch) => Some(batch@),
        None => None,
    }
}

/// An inbound webhook listener together with the consumer's update stream.
pub struct Listener<U> {
    phase: Phase,
    queue: VecDeque<U>,
    capacity: usize,
    registered: bool,
    torn_down: bool,
}

impl<U> View for Listener<U> {
    type V = ListenerModel<U>;

    closed spec fn view(&self) -> ListenerModel<U> {
        ListenerModel {
            phase: self.phase,
            queue: self.queue@,
            capacity: self.capacity as nat,
            registrations: if self.registered { 1 } else { 0 },
            teardowns: if self.torn_down { 1 } else { 0 },
        }
    }
}

impl<U> Listener<U> {
    /// The listener's invariant.
    pub open spec fn wf(&self) -> bool {
        self@.wf()
    }

    /// A listener that buffers at most `capacity` updates.
    pub fn new(capacity: usize) -> (r: Self)
        ensures
            r.wf(),
            r@ == ListenerModel::<U>::initial(capacity as nat),
    {
        let r = Listener {
            phase: Phase::Unbound,
            queue: VecDeque::new(),
            capacity,
            registered: false,
            torn_down: false,
        };
        assert(r@.queue =~= Seq::<U>::empty());
        r
    }

    /// The current phase.
    pub fn phase(&self) -> (r: Phase)
        ensures
            r == self@.phase,
    {
        self.phase
    }

    /// Records whether binding the local address succeeded. It must succeed
    /// before the registration is attempted; a failed bind stops the listener.
    /// Outside `Unbound` nothing happens.
    pub fn finish_binding(&mut self, bound: bool)
        requires
            old(self).wf(),
        ensures
            final(self).wf(),
            final(self)@ == old(self)@.finish_binding(bound),
    {
        if let Phase::Unbound = self.phase {
            self.phase = if bound {
                Phase::Bound
            } else {
                Phase::Stopped(Ending::BindFailed)
            };
        }
    }

    /// Starts the registration handshake, once the local address is bound.
    /// From `Bound` the request is built from the options (moving the
    /// certificate out of them) and returned: the caller makes exactly this
    /// one registration call. The url is not checked here: the remote service
    /// decides whether it is acceptable. In any other phase nothing happens.
    pub fn begin_registration(&mut self, options: &mut Options) -> (r: Option<RegistrationRequest>)
        requires
            old(self).wf(),
        ensures
            final(self).wf(),
            final(self)@ == old(self)@.begin_registration(),
            old(self)@.phase is Bound ==> r == Some(registration_of(*old(options)))
                && *final(options) == old(options).without_certificate(),
            !(old(self)@.phase is Bound) ==> r is None && *final(options) == *old(options),
    {
        match self.phase {
            Phase::Bound => {
                self.phase = Phase::Registering;
                self.registered = true;
                Some(take_registration(options))
            },
            _ => None,
        }
    }

    /// Records the outcome of the registration call, and hands it back to the
    /// caller unmodified: there is no retry. On success the listener serves;
    /// on failure it stops.
    pub fn finish_registration(&mut self, outcome: Result<(), SetupError>) -> (r: Result<(), SetupError>)
        requires
            old(self).wf(),
        ensures
            final(self).wf(),
            final(self)@ == old(self)@.finish_registration(outcome is Ok),
            r == outcome,
    {
        if let Phase::Registering = self.phase {
            self.phase = if outcome.is_ok() {
                Phase::Serving
            } else {
                Phase::Stopped(Ending::SetupFailed)
            };
        }
        outcome
    }

    /// Handles one inbound push: `None` when its body did not parse, else the
    /// updates it carries, in order. A malformed push changes nothing.
    pub fn on_push(&mut self, body: Option<Vec<U>>) -> (r: Response)
        requires
            old(self).wf(),
        ensures
            final(self).wf(),
            r == old(self)@.push_response(body_view(body)),
            final(self)@ == old(self)@.push(body_view(body)),
    {
        match self.phase {
            Phase::Serving => {},
            _ => return Response::Unavailable,
        }
        match body {
            None => Response::Malformed,
            Some(batch) => {
                if self.queue.len() == self.capacity || batch.len() > self.capacity
                    - self.queue.len() {
                    return Response::Busy;
                }
                let mut rest = batch;
                let ghost target = self.queue@ + rest@;
                while rest.len() > 0
                    invariant
                        self.queue@ + rest@ == target,
                        self.queue@.len() + rest@.len() <= self.capacity,
                        self.phase == old(self).phase,
                        self.capacity == old(self).capacity,
                        self.registered == old(self).registered,
                        self.torn_down == old(self).torn_down,
                    decreases rest.len(),
                {
                    let item = rest.remove(0);
                    let ghost q0 = self.queue@;
                    self.queue.push_back(item);
                    assert(self.queue@ + rest@ =~= q0 + (seq![item] + rest@));
                }
                assert(rest@ =~= Seq::<U>::empty());
                assert(self.queue@ =~= target);
                Response::Accepted
            },
        }
    }

    /// Hands the consumer the oldest queued update, if serving. Once the
    /// stream is closing nothing more is delivered; once stopped it reports
    /// how it ended.
    pub fn next_update(&mut self) -> (r: Pull<U>)
        requires
            old(self).wf(),
        ensures
            final(self).wf(),
            r == old(self)@.pull_output(),
            final(self)@ == old(self)@.pull(),
    {
        match self.phase {
            Phase::Serving => match self.queue.pop_front() {
                Some(u) => {
                    assert(self@.queue =~= old(self)@.queue.drop_first());
                    Pull::Update(u)
                },
                None => Pull::Pending,
            },
            Phase::Stopped(Ending::Fault) => Pull::Failed,
            Phase::Stopped(_) => Pull::Completed,
            _ => Pull::Pending,
        }
    }

    /// Ends the stream, on cancellation or when the consumer's handle is
    /// dropped. Returns whether the caller must now make the teardown call:
    /// true at most once over the listener's life.
    pub fn cancel(&mut self) -> (r: bool)
        requires
            old(self).wf(),
        ensures
            final(self).wf(),
            r == old(self)@.teardown_owed(),
            final(self)@ == old(self)@.shut_down(Ending::Cancelled),
    {
        self.shut_down(Ending::Cancelled)
    }

    /// Ends the stream on a listener fault. Returns whether the caller must
    /// now make the teardown call.
    pub fn on_fault(&mut self) -> (r: bool)
        requires
            old(self).wf(),
        ensures
            final(self).wf(),
            r == old(self)@.teardown_owed(),
            final(self)@ == old(self)@.shut_down(Ending::Fault),
    {
        self.shut_down(Ending::Fault)
    }

    fn shut_down(&mut self, ending: Ending) -> (r: bool)
        requires
            old(self).wf(),
        ensures
            final(self).wf(),
            r == old(self)@.teardown_owed(),
            final(self)@ == old(self)@.shut_down(ending),
    {
        match self.phase {
            Phase::Registering | Phase::Serving => {
                self.phase = Phase::Draining(ending);
                self.queue.clear();
                self.torn_down = true;
                true
            },
            Phase::Unbound | Phase::Bound => {
                self.phase = Phase::Stopped(ending);
                false
            },
            _ => false,
        }
    }

    /// Records that the teardown call has returned, whatever its outcome: a
    /// failed teardown does not hold up shutdown, and the caller reports it.
    pub fn finish_teardown(&mut self)
        requires
            old(self).wf(),
        ensures
            final(self).wf(),
            final(self)@ == old(self)@.finish_teardown(),
    {
        if let Phase::Draining(ending) = self.phase {
            self.phase = Phase::Stopped(ending);
        }
    }
}

} // verus!
