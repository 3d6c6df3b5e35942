use sibyl::oci::ptr::Ptr;
use sibyl::oci::{OCIError, OCIStmt};
use sibyl::oci::call::{OciCall, OciValue, Reply, Step};
use sibyl::oci::futures::{check_invalid_handle, needs_error_code, poll_begin, ping, stmt_execute, stmt_fetch, Poll, StmtGetNextResult, StmtPrepare};
use sibyl::{Environment, Session};

fn reply(status: i32, value: OciValue) -> Reply {
    Reply { status, value }
}

fn open_session() -> Session {
    let (mut flow, _) = Environment::new();
    flow.resume(&reply(0, OciValue::Ptr(10)));
    let e = match flow.resume(&reply(0, OciValue::Ptr(11))) {
        Step::Done(Ok(e)) => e,
        _ => panic!("no environment"),
    };
    let (mut flow, _) = e.connect("db", "u", "p");
    for value in vec![OciValue::Ptr(20), OciValue::Ptr(30), OciValue::Nothing, OciValue::Nothing, OciValue::Nothing, OciValue::Ptr(40)] {
        flow.resume(&reply(0, value));
    }
    match flow.resume(&reply(0, OciValue::Ptr(50))) {
        Step::Done(Ok(s)) => s,
        _ => panic!("no session"),
    }
}

#[test]
fn one_future_at_a_time() {
    let s = open_session();
    let mut ctx = s.get_svc().share();
    assert!(poll_begin(&mut ctx, 1));
    assert!(poll_begin(&mut ctx, 1));
    assert!(!poll_begin(&mut ctx, 2));
    let f = ping(&ctx);
    assert!(matches!(f.request(), OciCall::Ping { svc: 40, err: 20 }));
    assert!(matches!(f.poll(&mut ctx, -3123), Poll::Pending));
    assert!(!poll_begin(&mut ctx, 2));
    assert!(matches!(f.poll(&mut ctx, 0), Poll::Ready(Ok(()))));
    assert!(poll_begin(&mut ctx, 2));
    match f.poll(&mut ctx, -1) {
        Poll::Ready(Err(d)) => assert_eq!((d.handle, d.rc), (20, -1)),
        _ => panic!("expected a failure"),
    }
    assert!(poll_begin(&mut ctx, 3));
}

#[test]
fn invalid_handle_is_judged_by_error_code() {
    assert!(needs_error_code(-2));
    assert!(!needs_error_code(-1));
    assert_eq!(check_invalid_handle(-2, 3113), -3113);
    assert_eq!(check_invalid_handle(0, 3113), 0);
}

#[test]
fn statement_futures() {
    let s = open_session();
    let mut ctx = s.get_svc().share();
    let err = Ptr::<OCIError>::new(21);
    let st = Ptr::<OCIStmt>::new(90);
    assert!(matches!(stmt_execute(&ctx, err, st, 1).request(), OciCall::StmtExecute { iters: 0, .. }));
    assert!(matches!(stmt_execute(&ctx, err, st, 2).request(), OciCall::StmtExecute { iters: 1, .. }));
    assert!(matches!(stmt_fetch(st, err).poll(&mut ctx, 100), Poll::Ready(Ok(100))));
    let prep = StmtPrepare::new(&ctx, err, "SELECT 1 FROM dual");
    match prep.request() {
        OciCall::StmtPrepare { sql, language: 1, mode: 0, .. } => assert_eq!(sql, "SELECT 1 FROM dual"),
        _ => panic!("expected the prepare"),
    }
    assert!(matches!(prep.poll(&mut ctx, 1, st), Poll::Ready(Err(_))));
    assert!(matches!(prep.poll(&mut ctx, 0, st), Poll::Ready(Ok(_))));
    let next = StmtGetNextResult::new(st, err);
    assert!(matches!(next.poll(&mut ctx, 100, st), Poll::Ready(Ok(None))));
    match next.poll(&mut ctx, 0, Ptr::new(91)) {
        Poll::Ready(Ok(Some(p))) => assert_eq!(p.get(), 91),
        _ => panic!("expected a cursor"),
    }
}
