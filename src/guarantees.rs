//! What holds of a listener over any sequence of events.

use vstd::prelude::*;
use crate::lifecycle::{Ending, ListenerModel, Phase, Pull, Response};
use crate::options::Options;
use crate::setup::registration_of;

verus! {

/// One event that a listener reacts to, as its operations see it.
pub enum Event<U> {
    /// Binding the local address returned (bound or not).
    BindingDone(bool),
    /// Start the registration.
    BeginRegistration,
    /// The registration call returned (accepted or not).
    RegistrationDone(bool),
    /// An inbound push: `None` when its body did not parse.
    Push(Option<Seq<U>>),
    /// The consumer asks for the next update.
    Pull,
    /// The consumer cancels the stream or drops its handle.
    Cancel,
    /// The listener's socket failed.
    Fault,
    /// The teardown call returned.
    TeardownDone,
}

/// The state after one event.
pub open spec fn step<U>(m: ListenerModel<U>, e: Event<U>) -> ListenerModel<U> {
    match e {
        Event::BindingDone(bound) => m.finish_binding(bound),
        Event::BeginRegistration => m.begin_registration(),
        Event::RegistrationDone(accepted) => m.finish_registration(accepted),
        Event::Push(body) => m.push(body),
        Event::Pull => m.pull(),
        Event::Cancel => m.shut_down(Ending::Cancelled),
        Event::Fault => m.shut_down(Ending::Fault),
        Event::TeardownDone => m.finish_teardown(),
    }
}

/// The state after a sequence of events, in order.
pub open spec fn run<U>(m: ListenerModel<U>, es: Seq<Event<U>>) -> ListenerModel<U>
    decreases es.len(),
{
    if es.len() == 0 {
        m
    } else {
        run(step(m, es[0]), es.drop_first())
    }
}

/// Every event keeps a listener well formed.
pub proof fn lemma_step_keeps_wf<U>(m: ListenerModel<U>, e: Event<U>)
    requires
        m.wf(),
    ensures
        step(m, e).wf(),
{
}

/// However events unfold, a listener stays well formed: in particular at
/// most one registration call and at most one teardown call are ever issued.
pub proof fn lemma_run_keeps_wf<U>(m: ListenerModel<U>, es: Seq<Event<U>>)
    requires
        m.wf(),
    ensures
        run(m, es).wf(),
        run(m, es).registrations <= 1,
        run(m, es).teardowns <= 1,
    decreases es.len(),
{
    if es.len() > 0 {
        lemma_step_keeps_wf(m, es[0]);
        lemma_run_keeps_wf(step(m, es[0]), es.drop_first());
    }
}

/// Starting the registration once the address is bound issues exactly one
/// registration call, whatever follows (starting it again issues none); that
/// call carries the options' url, flag and certificate (none when none was
/// supplied).
pub proof fn lemma_single_registration<U>(m: ListenerModel<U>, o: Options, es: Seq<Event<U>>)
    requires
        m.wf(),
        m.phase is Bound,
    ensures
        registration_of(o).url == o.url,
        registration_of(o).certificate == o.certificate,
        registration_of(o).drop_pending_updates == o.drop_pending_updates,
        m.begin_registration().registrations == 1,
        m.begin_registration().begin_registration() == m.begin_registration(),
        run(m.begin_registration(), es).registrations == 1,
{
    lemma_registration_is_kept(m.begin_registration(), es);
}

proof fn lemma_registration_is_kept<U>(m: ListenerModel<U>, es: Seq<Event<U>>)
    requires
        m.wf(),
        m.registrations == 1,
    ensures
        run(m, es).registrations == 1,
    decreases es.len(),
{
    if es.len() > 0 {
        lemma_step_keeps_wf(m, es[0]);
        lemma_registration_is_kept(step(m, es[0]), es.drop_first());
    }
}

/// When binding the local address fails, no registration call is ever
/// issued, whatever follows.
pub proof fn lemma_failed_bind_never_registers<U>(m: ListenerModel<U>, es: Seq<Event<U>>)
    requires
        m.wf(),
        m.phase is Unbound,
    ensures
        m.finish_binding(false).phase == Phase::Stopped(Ending::BindFailed),
        run(m.finish_binding(false), es).registrations == 0,
{
    lemma_closing_is_final(m.finish_binding(false), es);
}

/// The registration is attempted whatever the options hold, and a rejected
/// one stops the listener without a teardown call; its stream then ends
/// without an error.
pub proof fn lemma_rejected_registration<U>(m: ListenerModel<U>)
    requires
        m.wf(),
        m.phase is Bound,
    ensures
        m.begin_registration().phase is Registering,
        m.begin_registration().finish_registration(false).phase == Phase::Stopped(Ending::SetupFailed),
        m.begin_registration().finish_registration(false).registrations == 1,
        m.begin_registration().finish_registration(false).teardowns == 0,
        m.begin_registration().finish_registration(false).pull_output() == Pull::<U>::Completed,
{
}

/// A malformed push changes nothing: the stream goes on, no update comes of
/// it, and whatever follows behaves as if it had never arrived.
pub proof fn lemma_malformed_push_is_skipped<U>(m: ListenerModel<U>, es: Seq<Event<U>>)
    requires
        m.wf(),
        m.phase is Serving,
    ensures
        m.push_response(None) == Response::Malformed,
        m.push(None) == m,
        run(m, seq![Event::Push(None)] + es) == run(m, es),
{
    let all = seq![Event::Push(None)] + es;
    assert(all[0] == Event::<U>::Push(None));
    assert(all.drop_first() =~= es);
}

/// With room in the buffer, a valid push that follows a malformed one is
/// accepted and its update queued right after the earlier ones; if nothing
/// was waiting, it is the next update delivered.
pub proof fn lemma_valid_push_after_malformed_is_delivered<U>(m: ListenerModel<U>, u: U)
    requires
        m.wf(),
        m.phase is Serving,
        m.queue.len() < m.capacity,
    ensures
        m.push_response(None) == Response::Malformed,
        m.push(None).push_response(Some(seq![u])) == Response::Accepted,
        m.push(None).push(Some(seq![u])).queue == m.queue.push(u),
        m.queue.len() == 0 ==> m.push(None).push(Some(seq![u])).pull_output() == Pull::Update(u),
{
    assert(m.queue + seq![u] =~= m.queue.push(u));
}

/// A fresh listener with room for two updates, once bound and registered,
/// delivers the updates of two pushes in their order of arrival, each once;
/// cancelling it then owes one teardown call, after which it completes.
pub proof fn lemma_two_pushes_delivered_in_order<U>(capacity: nat, u1: U, u2: U)
    requires
        capacity >= 2,
    ensures
        ({
            let s = ListenerModel::<U>::initial(capacity).finish_binding(true).begin_registration()
                .finish_registration(true);
            let p = s.push(Some(seq![u1])).push(Some(seq![u2]));
            &&& s.phase is Serving
            &&& s.push_response(Some(seq![u1])) == Response::Accepted
            &&& s.push(Some(seq![u1])).push_response(Some(seq![u2])) == Response::Accepted
            &&& p.pull_output() == Pull::Update(u1)
            &&& p.pull().pull_output() == Pull::Update(u2)
            &&& p.pull().pull().pull_output() == Pull::<U>::Pending
            &&& p.pull().pull().teardown_owed()
            &&& p.pull().pull().shut_down(Ending::Cancelled).finish_teardown().pull_output()
                == Pull::<U>::Completed
        }),
{
    let s = ListenerModel::<U>::initial(capacity).finish_binding(true).begin_registration()
        .finish_registration(true);
    let p = s.push(Some(seq![u1])).push(Some(seq![u2]));
    assert(p.queue =~= seq![u1, u2]);
    assert(p.pull().queue =~= seq![u2]);
    assert(p.pull().pull().queue =~= Seq::<U>::empty());
}

/// Once a listener is closing it stays closing, delivers no update, and
/// issues no further teardown call, whatever happens next.
pub proof fn lemma_closing_is_final<U>(m: ListenerModel<U>, es: Seq<Event<U>>)
    requires
        m.wf(),
        m.is_closing(),
    ensures
        run(m, es).wf(),
        run(m, es).is_closing(),
        run(m, es).teardowns == m.teardowns,
        run(m, es).registrations == m.registrations,
        !(run(m, es).pull_output() is Update),
    decreases es.len(),
{
    if es.len() > 0 {
        lemma_step_keeps_wf(m, es[0]);
        lemma_closing_is_final(step(m, es[0]), es.drop_first());
    }
}

/// Cancelling a serving stream, whatever was delivered before, owes exactly
/// one teardown call; after it no update is delivered and no other teardown
/// call is issued, whatever happens next; once the teardown call returns the
/// stream completes gracefully.
pub proof fn lemma_cancel_tears_down_once<U>(m: ListenerModel<U>, es: Seq<Event<U>>)
    requires
        m.wf(),
        m.phase is Serving,
    ensures
        m.teardown_owed(),
        m.shut_down(Ending::Cancelled).teardowns == 1,
        !m.shut_down(Ending::Cancelled).teardown_owed(),
        run(m.shut_down(Ending::Cancelled), es).teardowns == 1,
        !(run(m.shut_down(Ending::Cancelled), es).pull_output() is Update),
        m.shut_down(Ending::Cancelled).finish_teardown().pull_output() == Pull::<U>::Completed,
{
    lemma_closing_is_final(m.shut_down(Ending::Cancelled), es);
}

/// Dropping the consumer's handle of a serving stream that was never
/// cancelled owes a teardown call, and no event after it issues another:
/// exactly one teardown call in all.
pub proof fn lemma_drop_tears_down_once<U>(
    m: ListenerModel<U>,
    delivered: Seq<Event<U>>,
    es: Seq<Event<U>>,
)
    requires
        m.wf(),
        m.phase is Serving,
        forall|i: int| 0 <= i < delivered.len() ==> (delivered[i] is Push || delivered[i] is Pull),
    ensures
        run(m, delivered).teardown_owed(),
        run(run(m, delivered).shut_down(Ending::Cancelled), es).teardowns == 1,
    decreases delivered.len(),
{
    if delivered.len() > 0 {
        lemma_drop_tears_down_once(step(m, delivered[0]), delivered.drop_first(), es);
    } else {
        lemma_cancel_tears_down_once(m, es);
    }
}

} // verus!
