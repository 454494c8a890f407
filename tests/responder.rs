use http_fsm::context::{Counter, ServerContext};
use http_fsm::machine::{RecvMode, BODY_CAP, DEADLINE_SECS};
use http_fsm::responder::Responder;
use http_fsm::response::{Reply, Status};

fn answer(ctx: &ServerContext, path: &[u8]) -> Reply {
    let admission = Responder::headers_received(ctx, path);
    assert_eq!(admission.mode, RecvMode::Buffered(BODY_CAP));
    assert_eq!(admission.timeout_secs, DEADLINE_SECS);
    let step = admission.machine.request_received(&[], ctx);
    assert!(step.next.is_none());
    assert!(step.forward.is_none());
    step.reply.expect("a buffered request is answered")
}

#[test]
fn root_page_greets_the_world() {
    let ctx = ServerContext::new();
    let reply = answer(&ctx, b"/");
    assert_eq!(reply.status, Status::Success);
    assert_eq!(reply.status.code(), 200);
    assert_eq!(reply.status.reason(), "OK");
    assert_eq!(reply.body, b"Hello World!\n".to_vec());
    assert_eq!(reply.content_length(), 13);
}

#[test]
fn echo_page_greets_the_name() {
    let ctx = ServerContext::new();
    let reply = answer(&ctx, b"/anything123");
    assert_eq!(reply.status.code(), 200);
    assert_eq!(reply.body, b"Hello anything123!\n".to_vec());
    assert_eq!(reply.content_length(), 19);
}

#[test]
fn path_without_slash_is_not_found() {
    let ctx = ServerContext::new();
    let reply = answer(&ctx, b"nonslash-or-unmatched");
    assert_eq!(reply.status, Status::NotFound);
    assert_eq!(reply.status.code(), 404);
    assert_eq!(reply.status.reason(), "Not Found");
    assert_eq!(reply.body, b"404 - Page not found".to_vec());
    assert_eq!(reply.content_length(), 20);
}

#[test]
fn empty_path_is_not_found() {
    let ctx = ServerContext::new();
    let reply = answer(&ctx, b"");
    assert_eq!(reply.status, Status::NotFound);
}

#[test]
fn visit_count_counts_every_header_receipt() {
    let ctx = ServerContext::new();
    answer(&ctx, b"/");
    answer(&ctx, b"/nobody");
    answer(&ctx, b"missing");
    let reply = answer(&ctx, b"/num");
    assert_eq!(reply.status.code(), 200);
    assert_eq!(reply.body, b"This host has been visited 4 times\n".to_vec());
}

#[test]
fn visit_count_renders_large_numbers() {
    let reply = Responder::VisitCount.reply(1234567890);
    assert_eq!(reply.body, b"This host has been visited 1234567890 times\n".to_vec());
    let zero = Responder::VisitCount.reply(0);
    assert_eq!(zero.body, b"This host has been visited 0 times\n".to_vec());
}

#[test]
fn echoed_name_has_control_bytes_escaped() {
    let ctx = ServerContext::new();
    let reply = answer(&ctx, b"/a\r\nb\x7f<");
    assert_eq!(reply.body, b"Hello a%0D%0Ab%7F<!\n".to_vec());
}

#[test]
fn lone_slash_prefix_names_are_routed() {
    assert!(matches!(Responder::for_path(b"/"), Responder::Root));
    assert!(matches!(Responder::for_path(b"/num"), Responder::VisitCount));
    match Responder::for_path(b"/numbers") {
        Responder::EchoName(name) => assert_eq!(name, b"numbers".to_vec()),
        _ => panic!("an echo page was expected"),
    }
    match Responder::for_path(b"//") {
        Responder::EchoName(name) => assert_eq!(name, b"/".to_vec()),
        _ => panic!("an echo page was expected"),
    }
    assert!(matches!(Responder::for_path(b"num"), Responder::NotFound));
}

#[test]
fn responder_timeout_answers_408_and_ends() {
    let step = Responder::Root.timeout();
    assert!(step.next.is_none());
    let reply = step.reply.expect("a timed out request is answered");
    assert_eq!(reply.status, Status::RequestTimeout);
    assert_eq!(reply.status.code(), 408);
    assert_eq!(reply.body, b"408 - Request timed out".to_vec());
}

#[test]
fn responder_chunk_and_wakeup_keep_the_state() {
    let step = Responder::VisitCount.request_chunk(b"ignored");
    assert!(matches!(step.next, Some(Responder::VisitCount)));
    assert!(step.reply.is_none());
    let step = Responder::NotFound.wakeup();
    assert!(matches!(step.next, Some(Responder::NotFound)));
    assert!(step.reply.is_none());
}

#[test]
fn responder_request_end_answers_like_a_whole_body() {
    let ctx = ServerContext::new();
    let step = Responder::for_path(b"/x").request_end(&ctx);
    assert!(step.next.is_none());
    assert_eq!(step.reply.unwrap().body, b"Hello x!\n".to_vec());
}

#[test]
fn counter_matches_requests_of_a_single_client() {
    let ctx = ServerContext::new();
    assert_eq!(ctx.get(), 0);
    for _ in 0..250 {
        Responder::headers_received(&ctx, b"/");
    }
    assert_eq!(ctx.get(), 250);
}

#[test]
fn counter_reads_never_decrease() {
    let ctx = ServerContext::new();
    let mut last = ctx.get();
    for i in 0..100 {
        if i % 3 == 0 {
            ctx.increment();
        }
        let now = ctx.get();
        assert!(now >= last);
        last = now;
    }
    assert_eq!(last, 34);
}
