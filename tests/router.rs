use http_fsm::context::{Counter, ServerContext};
use http_fsm::machine::{RecvMode, BODY_CAP, DEADLINE_SECS};
use http_fsm::response::Status;
use http_fsm::router::{lookup_route, stream_chunk, Downstream, Router};

#[test]
fn only_downstream_has_a_route() {
    assert_eq!(lookup_route(b"/downstream"), Some(Downstream {}));
    assert_eq!(lookup_route(b"/downstream/"), None);
    assert_eq!(lookup_route(b"/downstrea"), None);
    assert_eq!(lookup_route(b"/"), None);
    assert_eq!(lookup_route(b""), None);
}

#[test]
fn headers_pick_the_state_and_count_the_visit() {
    let ctx = ServerContext::new();
    let admission = Router::headers_received(&ctx, b"/downstream");
    assert_eq!(admission.machine, Router::ForwardingRequest(Downstream {}));
    assert_eq!(admission.mode, RecvMode::Progressive(BODY_CAP));
    assert_eq!(admission.timeout_secs, DEADLINE_SECS);
    let other = Router::headers_received(&ctx, b"/elsewhere");
    assert_eq!(other.machine, Router::NoRoute);
    assert_eq!(other.mode, RecvMode::Progressive(1024));
    assert_eq!(other.timeout_secs, 10);
    assert_eq!(ctx.get(), 2);
}

#[test]
fn forwarded_body_in_many_chunks_gets_exactly_one_reply() {
    let ctx = ServerContext::new();
    let mut state = Router::headers_received(&ctx, b"/downstream").machine;
    let chunk = vec![7u8; BODY_CAP];
    let mut relayed: usize = 0;
    for _ in 0..3 {
        let step = state.request_chunk(&chunk);
        assert!(step.reply.is_none());
        let forward = step.forward.expect("a forwarded chunk is relayed");
        assert_eq!(forward, chunk);
        relayed += forward.len();
        state = step.next.expect("forwarding goes on");
    }
    let last = state.request_chunk(b"tail");
    assert_eq!(last.forward, Some(b"tail".to_vec()));
    relayed += 4;
    assert!(relayed > BODY_CAP);
    let end = last.next.unwrap().request_end();
    let reply = end.reply.expect("the end of the body is answered");
    assert_eq!(reply.status, Status::Success);
    assert_eq!(reply.body, b"Response from downstream".to_vec());
    assert_eq!(reply.content_length(), 24);
    let after = end.next.expect("the relayed reply is awaited");
    assert_eq!(after, Router::ForwardingResponse(Downstream {}));
    let late = after.timeout();
    assert!(late.reply.is_none());
    assert!(late.next.is_none());
    let woken = after.wakeup();
    assert!(woken.reply.is_none());
    assert!(woken.next.is_none());
    let again = after.request_end();
    assert!(again.reply.is_none());
}

#[test]
fn unrouted_path_drops_a_large_body_and_answers_404() {
    let ctx = ServerContext::new();
    let mut state = Router::headers_received(&ctx, b"/other").machine;
    let chunk = vec![1u8; BODY_CAP];
    for _ in 0..1000 {
        let step = state.request_chunk(&chunk);
        assert!(step.reply.is_none());
        assert!(step.forward.is_none());
        state = step.next.unwrap();
        assert_eq!(state, Router::NoRoute);
    }
    let end = state.request_end();
    assert!(end.next.is_none());
    let reply = end.reply.unwrap();
    assert_eq!(reply.status.code(), 404);
    assert_eq!(reply.body, b"404 - Route not found".to_vec());
    assert_eq!(reply.content_length(), 21);
}

#[test]
fn router_timeout_before_the_end_answers_408() {
    for state in [Router::ForwardingRequest(Downstream {}), Router::NoRoute] {
        let step = state.timeout();
        assert!(step.next.is_none());
        let reply = step.reply.expect("an unanswered request gets 408");
        assert_eq!(reply.status.code(), 408);
        assert_eq!(reply.status.reason(), "Request Timeout");
        assert_eq!(reply.body, b"408 - Request timed out".to_vec());
    }
}

#[test]
fn router_wakeup_keeps_waiting_states() {
    let step = Router::ForwardingRequest(Downstream {}).wakeup();
    assert_eq!(step.next, Some(Router::ForwardingRequest(Downstream {})));
    assert!(step.reply.is_none());
    let step = Router::NoRoute.wakeup();
    assert_eq!(step.next, Some(Router::NoRoute));
}

#[test]
fn whole_body_is_relayed_then_answered() {
    let step = Router::ForwardingRequest(Downstream {}).request_received(b"payload");
    assert_eq!(step.forward, Some(b"payload".to_vec()));
    assert_eq!(step.reply.unwrap().body, b"Response from downstream".to_vec());
    assert_eq!(step.next, Some(Router::ForwardingResponse(Downstream {})));
    let step = Router::NoRoute.request_received(b"payload");
    assert!(step.forward.is_none());
    assert_eq!(step.reply.unwrap().status, Status::NotFound);
    assert!(step.next.is_none());
}

#[test]
fn stream_chunk_hands_back_the_chunk() {
    assert_eq!(stream_chunk(b"abc", &Downstream {}), b"abc".to_vec());
    assert_eq!(stream_chunk(b"", &Downstream {}), Vec::<u8>::new());
}
