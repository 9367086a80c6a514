use teloxide_core::types::InputFile;
use url::Url;
use webhooks::{
    take_registration, tuple_first_mut, Ending, IpAddress, Listener, Options, Phase, Pull,
    Response, SetupError, SocketAddress,
};

fn local() -> SocketAddress {
    SocketAddress::v4([127, 0, 0, 1], 8443)
}

fn hook() -> Url {
    Url::parse("https://example.com:8443/hook").unwrap()
}

fn serving(capacity: usize) -> Listener<u32> {
    let mut listener = Listener::new(capacity);
    listener.finish_binding(true);
    let mut options = Options::new(local(), hook());
    assert!(listener.begin_registration(&mut options).is_some());
    assert_eq!(listener.finish_registration(Ok(())), Ok(()));
    assert_eq!(listener.phase(), Phase::Serving);
    listener
}

#[test]
fn socket_address_v4_holds_its_parts() {
    let a = local();
    assert_eq!(a.ip, IpAddress::V4([127, 0, 0, 1]));
    assert_eq!(a.port, 8443);
    assert_eq!(a.flowinfo, 0);
    assert_eq!(a.scope_id, 0);
}

#[test]
fn new_options_leave_optional_fields_unset() {
    let o = Options::new(local(), hook());
    assert_eq!(o.address, local());
    assert_eq!(o.url, hook());
    assert!(o.certificate.is_none());
    assert_eq!(o.drop_pending_updates, None);
}

#[test]
fn builder_steps_set_their_fields() {
    let o = Options::new(local(), hook()).certificate(InputFile::memory(&b"cert"[..]));
    assert!(o.certificate.is_some());
    assert_eq!(o.drop_pending_updates, None);
    let o = o.drop_pending_updates();
    assert!(o.certificate.is_some());
    assert_eq!(o.drop_pending_updates, Some(true));
    assert_eq!(o.url, hook());
}

#[test]
fn builder_steps_commute() {
    let a = Options::new(local(), hook())
        .certificate(InputFile::memory(&b"cert"[..]))
        .drop_pending_updates();
    let b = Options::new(local(), hook())
        .drop_pending_updates()
        .certificate(InputFile::memory(&b"cert"[..]));
    assert!(a.certificate.is_some() && b.certificate.is_some());
    assert_eq!(a.drop_pending_updates, Some(true));
    assert_eq!(b.drop_pending_updates, Some(true));
    assert_eq!(a.address, b.address);
    assert_eq!(a.url, b.url);
}

#[test]
fn registration_moves_the_certificate_out() {
    let mut o = Options::new(local(), hook())
        .certificate(InputFile::memory(&b"cert"[..]))
        .drop_pending_updates();
    let req = take_registration(&mut o);
    assert_eq!(req.url, hook());
    assert_eq!(req.url.as_str(), "https://example.com:8443/hook");
    assert!(req.certificate.is_some());
    assert_eq!(req.drop_pending_updates, Some(true));
    assert!(o.certificate.is_none());
    assert_eq!(o.url, hook());
    assert_eq!(o.drop_pending_updates, Some(true));
    let again = take_registration(&mut o);
    assert!(again.certificate.is_none());
}

#[test]
fn registration_without_certificate_carries_none() {
    let mut o = Options::new(local(), hook());
    let req = take_registration(&mut o);
    assert!(req.certificate.is_none());
    assert_eq!(req.drop_pending_updates, None);
}

#[test]
fn registration_is_issued_once() {
    let mut listener: Listener<u32> = Listener::new(4);
    listener.finish_binding(true);
    let mut o = Options::new(local(), hook()).certificate(InputFile::memory(&b"cert"[..]));
    let req = listener.begin_registration(&mut o).unwrap();
    assert!(req.certificate.is_some());
    assert!(o.certificate.is_none());
    assert_eq!(listener.phase(), Phase::Registering);
    assert!(listener.begin_registration(&mut o).is_none());
    assert_eq!(listener.phase(), Phase::Registering);
}

#[test]
fn disallowed_port_is_still_registered_and_rejection_surfaces() {
    let mut listener: Listener<u32> = Listener::new(4);
    listener.finish_binding(true);
    let mut o = Options::new(local(), Url::parse("https://example.com:1234/hook").unwrap());
    let req = listener.begin_registration(&mut o).unwrap();
    assert_eq!(req.url.port(), Some(1234));
    let rejected = SetupError::Rejected("bad webhook: port".to_string());
    assert_eq!(listener.finish_registration(Err(rejected.clone())), Err(rejected));
    assert_eq!(listener.phase(), Phase::Stopped(Ending::SetupFailed));
    assert_eq!(listener.on_push(Some(vec![1])), Response::Unavailable);
    assert_eq!(listener.next_update(), Pull::Completed);
    assert!(!listener.cancel());
}

#[test]
fn transport_failure_is_returned_unmodified() {
    let mut listener: Listener<u32> = Listener::new(4);
    listener.finish_binding(true);
    let mut o = Options::new(local(), hook());
    assert!(listener.begin_registration(&mut o).is_some());
    let failed = SetupError::Transport("connection reset".to_string());
    assert_eq!(listener.finish_registration(Err(failed.clone())), Err(failed));
    assert_eq!(listener.phase(), Phase::Stopped(Ending::SetupFailed));
}

#[test]
fn malformed_push_mid_stream_is_skipped() {
    let mut listener = serving(8);
    assert_eq!(listener.on_push(Some(vec![1])), Response::Accepted);
    assert_eq!(listener.on_push(None), Response::Malformed);
    assert_eq!(listener.phase(), Phase::Serving);
    assert_eq!(listener.on_push(Some(vec![2])), Response::Accepted);
    assert_eq!(listener.next_update(), Pull::Update(1));
    assert_eq!(listener.next_update(), Pull::Update(2));
    assert_eq!(listener.next_update(), Pull::Pending);
}

#[test]
fn batch_keeps_its_order() {
    let mut listener = serving(8);
    assert_eq!(listener.on_push(Some(vec![5, 3, 9])), Response::Accepted);
    assert_eq!(listener.on_push(Some(vec![])), Response::Accepted);
    assert_eq!(listener.next_update(), Pull::Update(5));
    assert_eq!(listener.next_update(), Pull::Update(3));
    assert_eq!(listener.next_update(), Pull::Update(9));
    assert_eq!(listener.next_update(), Pull::Pending);
}

#[test]
fn full_buffer_answers_busy() {
    let mut listener = serving(2);
    assert_eq!(listener.on_push(Some(vec![1, 2, 3])), Response::Busy);
    assert_eq!(listener.on_push(Some(vec![1, 2])), Response::Accepted);
    assert_eq!(listener.on_push(Some(vec![3])), Response::Busy);
    assert_eq!(listener.next_update(), Pull::Update(1));
    assert_eq!(listener.on_push(Some(vec![3])), Response::Accepted);
    assert_eq!(listener.next_update(), Pull::Update(2));
    assert_eq!(listener.next_update(), Pull::Update(3));
}

#[test]
fn full_buffer_refuses_an_empty_push() {
    let mut listener = serving(2);
    assert_eq!(listener.on_push(Some(vec![1, 2])), Response::Accepted);
    assert_eq!(listener.on_push(Some(vec![])), Response::Busy);
    assert_eq!(listener.next_update(), Pull::Update(1));
    assert_eq!(listener.next_update(), Pull::Update(2));
    assert_eq!(listener.next_update(), Pull::Pending);
}

#[test]
fn zero_capacity_refuses_every_push() {
    let mut listener = serving(0);
    assert_eq!(listener.on_push(Some(vec![])), Response::Busy);
    assert_eq!(listener.on_push(None), Response::Malformed);
    assert_eq!(listener.next_update(), Pull::Pending);
}

#[test]
fn failed_bind_prevents_registration() {
    let mut listener: Listener<u32> = Listener::new(4);
    listener.finish_binding(false);
    assert_eq!(listener.phase(), Phase::Stopped(Ending::BindFailed));
    let mut o = Options::new(local(), hook()).certificate(InputFile::memory(&b"cert"[..]));
    assert!(listener.begin_registration(&mut o).is_none());
    assert!(o.certificate.is_some());
    assert!(!listener.cancel());
    assert_eq!(listener.next_update(), Pull::Completed);
}

#[test]
fn registration_waits_for_binding() {
    let mut listener: Listener<u32> = Listener::new(4);
    let mut o = Options::new(local(), hook());
    assert!(listener.begin_registration(&mut o).is_none());
    assert_eq!(listener.phase(), Phase::Unbound);
    listener.finish_binding(true);
    assert_eq!(listener.phase(), Phase::Bound);
    assert!(listener.begin_registration(&mut o).is_some());
    assert_eq!(listener.phase(), Phase::Registering);
}

#[test]
fn pushes_before_registration_are_refused() {
    let mut listener: Listener<u32> = Listener::new(4);
    assert_eq!(listener.on_push(Some(vec![1])), Response::Unavailable);
    assert_eq!(listener.next_update(), Pull::Pending);
}

#[test]
fn cancel_after_deliveries_tears_down_once() {
    let mut listener = serving(8);
    assert_eq!(listener.on_push(Some(vec![1, 2, 3])), Response::Accepted);
    assert_eq!(listener.next_update(), Pull::Update(1));
    assert_eq!(listener.next_update(), Pull::Update(2));
    assert!(listener.cancel());
    assert_eq!(listener.phase(), Phase::Draining(Ending::Cancelled));
    assert_eq!(listener.next_update(), Pull::Pending);
    assert_eq!(listener.on_push(Some(vec![4])), Response::Unavailable);
    assert!(!listener.cancel());
    listener.finish_teardown();
    assert_eq!(listener.phase(), Phase::Stopped(Ending::Cancelled));
    assert_eq!(listener.next_update(), Pull::Completed);
    assert!(!listener.cancel());
}

#[test]
fn dropped_handle_tears_down_exactly_once() {
    let mut listener = serving(8);
    assert_eq!(listener.on_push(Some(vec![7])), Response::Accepted);
    let mut teardowns = 0;
    if listener.cancel() {
        teardowns += 1;
    }
    if listener.cancel() {
        teardowns += 1;
    }
    if listener.on_fault() {
        teardowns += 1;
    }
    assert_eq!(teardowns, 1);
}

#[test]
fn fault_ends_the_stream_with_failure() {
    let mut listener = serving(8);
    assert_eq!(listener.on_push(Some(vec![1])), Response::Accepted);
    assert!(listener.on_fault());
    assert_eq!(listener.phase(), Phase::Draining(Ending::Fault));
    assert_eq!(listener.next_update(), Pull::Pending);
    listener.finish_teardown();
    assert_eq!(listener.next_update(), Pull::Failed);
    assert!(!listener.cancel());
}

#[test]
fn cancel_before_registration_owes_no_teardown() {
    let mut listener: Listener<u32> = Listener::new(4);
    listener.finish_binding(true);
    assert!(!listener.cancel());
    assert_eq!(listener.phase(), Phase::Stopped(Ending::Cancelled));
    let mut o = Options::new(local(), hook());
    assert!(listener.begin_registration(&mut o).is_none());
    assert_eq!(listener.next_update(), Pull::Completed);
}

#[test]
fn cancel_while_registering_owes_a_teardown() {
    let mut listener: Listener<u32> = Listener::new(4);
    listener.finish_binding(true);
    let mut o = Options::new(local(), hook());
    assert!(listener.begin_registration(&mut o).is_some());
    assert!(listener.cancel());
    assert_eq!(listener.finish_registration(Ok(())), Ok(()));
    assert_eq!(listener.phase(), Phase::Draining(Ending::Cancelled));
}

#[test]
fn full_webhook_round() {
    let mut listener: Listener<u32> = Listener::new(16);
    listener.finish_binding(true);
    let mut o = Options::new(local(), hook()).drop_pending_updates();
    let req = listener.begin_registration(&mut o).unwrap();
    assert_eq!(req.url.as_str(), "https://example.com:8443/hook");
    assert_eq!(req.drop_pending_updates, Some(true));
    assert!(req.certificate.is_none());
    assert_eq!(listener.finish_registration(Ok(())), Ok(()));
    assert_eq!(listener.on_push(Some(vec![100])), Response::Accepted);
    assert_eq!(listener.on_push(Some(vec![200])), Response::Accepted);
    assert_eq!(listener.next_update(), Pull::Update(100));
    assert_eq!(listener.next_update(), Pull::Update(200));
    assert!(listener.cancel());
    listener.finish_teardown();
    assert_eq!(listener.next_update(), Pull::Completed);
}

#[test]
fn first_of_pair_is_mutable_in_place() {
    let mut pair = (10u32, "state");
    *tuple_first_mut(&mut pair) += 5;
    assert_eq!(pair, (15, "state"));
}
