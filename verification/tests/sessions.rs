use sibyl::oci::ptr::Ptr;
use sibyl::oci::{OCIEnv, OCIError};
use sibyl::oci::call::{AttrKind, AttrValue, OciCall, OciValue, Reply, Step};
use sibyl::session::session_tag_mode;
use sibyl::oci::answer::{answer, answer_flag, answer_text, answer_u32};
use sibyl::{Connection, Environment, Session, SessionPool, SessionPoolGetMode, ConnectionPool};

fn reply(status: i32, value: OciValue) -> Reply {
    Reply { status, value }
}

fn environment() -> Environment {
    let (mut flow, call) = sibyl::env();
    assert!(matches!(call, OciCall::EnvNlsCreate { mode: 3, charset: 873, ncharset: 871 }));
    match flow.resume(&reply(0, OciValue::Ptr(10))) {
        Step::Call(OciCall::HandleAlloc { env: 10, htype: 2 }) => {},
        _ => panic!("expected the error handle allocation"),
    }
    match flow.resume(&reply(0, OciValue::Ptr(11))) {
        Step::Done(Ok(e)) => e,
        _ => panic!("expected an environment"),
    }
}

fn open_session(env: &Environment) -> Session {
    let (mut flow, first) = env.connect("db", "scott", "tiger");
    assert!(matches!(first, OciCall::HandleAlloc { env: 10, htype: 2 }));
    let answers = vec![
        OciValue::Ptr(20), OciValue::Ptr(30), OciValue::Nothing, OciValue::Nothing,
        OciValue::Nothing, OciValue::Ptr(40), OciValue::Ptr(50),
    ];
    let mut calls = Vec::new();
    for value in answers {
        match flow.resume(&reply(0, value)) {
            Step::Call(c) => calls.push(c),
            Step::Done(Ok(s)) => {
                assert_eq!(calls.len(), 6);
                assert!(matches!(calls[0], OciCall::HandleAlloc { env: 10, htype: 9 }));
                match &calls[1] {
                    OciCall::AttrSet { target: 30, htype: 9, value: AttrValue::Text(t), err: 20, .. } => assert_eq!(t, "sibyl"),
                    _ => panic!("expected the driver name"),
                }
                match &calls[4] {
                    OciCall::SessionGet { env: 10, err: 20, auth: 30, dbname, .. } => assert_eq!(dbname, "db"),
                    _ => panic!("expected the session request"),
                }
                assert!(matches!(calls[5], OciCall::AttrGet { target: 40, htype: 3, kind: AttrKind::Ptr, err: 20, .. }));
                return s;
            },
            _ => panic!("session flow failed"),
        }
    }
    panic!("session flow did not finish")
}

#[test]
fn environment_creation_failure() {
    let (mut flow, _) = Environment::new();
    match flow.resume(&reply(-1, OciValue::Nothing)) {
        Step::Done(Err(e)) => assert_eq!(e.to_string(), "Cannot create OCI environment"),
        _ => panic!("expected an error"),
    }
    assert!(flow.cleanup().is_empty());
    let (mut flow, _) = Environment::new();
    assert!(matches!(flow.resume(&reply(0, OciValue::Ptr(10))), Step::Call(_)));
    assert!(matches!(flow.resume(&reply(-2, OciValue::Nothing)), Step::Fail(_)));
    let calls = flow.cleanup();
    assert_eq!(calls.len(), 1);
    assert!(matches!(calls[0], OciCall::HandleFree { handle: 10, htype: 1 }));
}

#[test]
fn environment_settings() {
    let e = environment();
    assert!(matches!(e.set_cache_max_size(10), OciCall::AttrSet { target: 10, htype: 1, value: AttrValue::U32(10), err: 11, .. }));
    assert!(matches!(e.max_cache_size(), OciCall::AttrGet { target: 10, kind: AttrKind::U32, .. }));
    assert!(matches!(e.nls_language(), OciCall::AttrGet { kind: AttrKind::TextInto(32), .. }));
    assert!(matches!(e.nls_territory(), OciCall::AttrGet { kind: AttrKind::TextInto(24), .. }));
}

#[test]
fn session_calls_use_its_handles() {
    let e = environment();
    let s = open_session(&e);
    assert!(matches!(s.ping(), OciCall::Ping { svc: 40, err: 20 }));
    assert!(matches!(s.commit(), OciCall::TransCommit { svc: 40, err: 20 }));
    assert!(matches!(s.rollback(), OciCall::TransRollback { svc: 40, err: 20 }));
    assert!(matches!(s.set_stmt_cache_size(20), OciCall::AttrSet { target: 40, htype: 3, value: AttrValue::U32(20), .. }));
    assert!(matches!(s.start_call_time_measurements(), OciCall::AttrSet { target: 50, htype: 9, value: AttrValue::U32(1), .. }));
    assert!(matches!(s.stop_call_time_measurements(), OciCall::AttrSet { target: 50, htype: 9, value: AttrValue::U32(0), .. }));
    match s.set_module("Sibyl DocTest") {
        OciCall::AttrSet { target: 50, value: AttrValue::Text(t), .. } => assert_eq!(t, "Sibyl DocTest"),
        _ => panic!("expected the module attribute"),
    }
    let calls = s.get_svc().release();
    assert_eq!(calls.len(), 4);
    assert!(matches!(calls[0], OciCall::TransRollback { svc: 40, err: 20 }));
    assert!(matches!(calls[1], OciCall::SessionRelease { svc: 40, err: 20 }));
    assert!(matches!(calls[2], OciCall::HandleFree { handle: 30, htype: 9 }));
    assert!(matches!(calls[3], OciCall::HandleFree { handle: 20, htype: 2 }));
}

#[test]
fn failed_session_request_frees_handles() {
    let e = environment();
    let (mut flow, _) = e.connect("db", "scott", "tiger");
    for value in vec![OciValue::Ptr(20), OciValue::Ptr(30), OciValue::Nothing, OciValue::Nothing, OciValue::Nothing] {
        assert!(matches!(flow.resume(&reply(0, value)), Step::Call(_)));
    }
    match flow.resume(&reply(-1, OciValue::Nothing)) {
        Step::Fail(d) => assert_eq!((d.handle, d.htype, d.rc), (20, 2, -1)),
        _ => panic!("expected a failure"),
    }
    let calls = flow.cleanup();
    assert_eq!(calls.len(), 2);
    assert!(matches!(calls[0], OciCall::HandleFree { handle: 30, htype: 9 }));
    assert!(matches!(calls[1], OciCall::HandleFree { handle: 20, htype: 2 }));
}

#[test]
fn null_handle_is_an_error() {
    let e = environment();
    let (mut flow, _) = e.connect("db", "scott", "tiger");
    match flow.resume(&reply(0, OciValue::Ptr(0))) {
        Step::Done(Err(_)) => {},
        _ => panic!("expected an error"),
    }
}

#[test]
fn tags_with_properties_ask_for_multi_property_match() {
    assert_eq!(session_tag_mode(""), 0);
    assert_eq!(session_tag_mode("CUSTOM"), 0);
    assert_eq!(session_tag_mode("CUSTOM=YES"), 0x0400);
}

fn session_pool(e: &Environment) -> SessionPool {
    let (mut flow, call) = e.create_session_pool("db", "scott", "tiger", 0, 1, 10);
    assert!(matches!(call, OciCall::HandleAlloc { env: 10, htype: 2 }));
    let answers = vec![OciValue::Ptr(60), OciValue::Ptr(61), OciValue::Ptr(62), OciValue::Nothing, OciValue::Nothing];
    for value in answers {
        assert!(matches!(flow.resume(&reply(0, value)), Step::Call(_)));
    }
    match flow.resume(&reply(0, OciValue::Text(String::from("POOL1")))) {
        Step::Done(Ok(p)) => p,
        _ => panic!("expected a pool"),
    }
}

#[test]
fn session_pool_settings() {
    let e = environment();
    let p = session_pool(&e);
    assert_eq!(p.get_spool().get_name(), "POOL1");
    assert!(matches!(p.set_get_mode(SessionPoolGetMode::ForcedGet), OciCall::AttrSet { target: 61, htype: 27, value: AttrValue::U8(2), err: 60, .. }));
    assert!(matches!(p.get_mode(), OciCall::AttrGet { target: 61, kind: AttrKind::U8, .. }));
    assert!(matches!(SessionPoolGetMode::from_code(2), Ok(SessionPoolGetMode::ForcedGet)));
    assert!(matches!(SessionPoolGetMode::from_code(0), Ok(SessionPoolGetMode::Wait)));
    match SessionPoolGetMode::from_code(9) {
        Err(e) => assert_eq!(e.to_string(), "unknown get mmode returned"),
        _ => panic!("expected an error"),
    }
    let (mut flow, _) = p.get_tagged_session("CITY=NYC");
    for value in vec![OciValue::Ptr(20), OciValue::Ptr(30)] {
        assert!(matches!(flow.resume(&reply(0, value)), Step::Call(_)));
    }
}

#[test]
fn connection_pool_and_connection() {
    let e = environment();
    let (mut flow, _) = e.create_connection_pool("db", "scott", "tiger", 1, 1, 10);
    assert!(matches!(flow.resume(&reply(0, OciValue::Ptr(70))), Step::Call(OciCall::HandleAlloc { env: 10, .. })));
    match flow.resume(&reply(0, OciValue::Ptr(71))) {
        Step::Call(OciCall::ConnectionPoolCreate { pool: 71, err: 11, min: 1, max: 10, incr: 1, .. }) => {},
        _ => panic!("expected the pool creation"),
    }
    let p: ConnectionPool = match flow.resume(&reply(0, OciValue::Text(String::from("CP")))) {
        Step::Done(Ok(p)) => p,
        _ => panic!("expected a pool"),
    };
    let (mut idle, first) = p.set_idle_timeout(600);
    assert!(matches!(first, OciCall::AttrGet { target: 71, .. }));
    match idle.resume(&reply(0, OciValue::U32(0))) {
        Step::Done(Err(e)) => assert_eq!(e.to_string(), "pool is empty"),
        _ => panic!("expected an empty pool error"),
    }
    let (mut idle, _) = p.set_idle_timeout(600);
    assert!(matches!(idle.resume(&reply(0, OciValue::U32(2))), Step::Call(OciCall::AttrSet { value: AttrValue::U32(600), .. })));
    assert!(matches!(idle.resume(&reply(0, OciValue::Nothing)), Step::Done(Ok(()))));

    let s = open_session(&e);
    let c = Connection::from_session(s);
    assert!(matches!(c.ping(), OciCall::Ping { svc: 40, err: 20 }));
    let svc: Ptr<sibyl::oci::OCISvcCtx> = c.svc_ptr();
    assert_eq!(svc.get(), 40);
    let _ = Ptr::<OCIEnv>::null();
    let _ = Ptr::<OCIError>::new(1);
}

fn same_attribute(set: &OciCall, get: &OciCall) -> bool {
    match (set, get) {
        (OciCall::AttrSet { target: t1, htype: h1, attr: a1, .. }, OciCall::AttrGet { target: t2, htype: h2, attr: a2, .. }) =>
            t1 == t2 && h1 == h2 && a1 == a2,
        _ => false,
    }
}

#[test]
fn setters_and_getters_meet_at_one_attribute() {
    let e = environment();
    let s = open_session(&e);
    assert!(same_attribute(&s.set_stmt_cache_size(20), &s.stmt_cache_size()));
    assert!(same_attribute(&s.set_call_timeout(5000), &s.call_timeout()));
    assert!(same_attribute(&s.set_lob_prefetch_size(100), &s.lob_prefetch_size()));
    assert!(same_attribute(&s.set_current_schema("HR"), &s.current_schema()));
    assert!(same_attribute(&e.set_cache_max_size(10), &e.max_cache_size()));
    assert!(same_attribute(&e.set_cache_opt_size(10), &e.optimal_cache_size()));
    let p = session_pool(&e);
    assert!(same_attribute(&p.set_get_mode(SessionPoolGetMode::TimedWait), &p.get_mode()));
    assert!(same_attribute(&p.set_wait_timeout(1000), &p.wait_timeout()));
    assert!(same_attribute(&p.set_idle_timeout(600), &p.idle_timeout()));
    assert!(same_attribute(&p.set_session_max_lifetime(36000), &p.session_max_lifetime()));
    assert!(same_attribute(&p.set_session_max_use_count(10000), &p.session_max_use_count()));
    assert!(same_attribute(&p.set_statement_cache_size(100), &p.statement_cache_size()));
    assert!(!same_attribute(&s.set_call_timeout(5000), &s.stmt_cache_size()));
    match s.prepare("SELECT 1 FROM dual") {
        OciCall::StmtPrepare { svc: 40, err: 20, sql, language: 1, mode: 0 } => assert_eq!(sql, "SELECT 1 FROM dual"),
        _ => panic!("expected the prepare call"),
    }
}

#[test]
fn session_pool_is_created_with_its_sizes() {
    let e = environment();
    let (mut flow, _) = e.create_session_pool("db", "scott", "tiger", 2, 1, 10);
    for value in vec![OciValue::Ptr(60), OciValue::Ptr(61), OciValue::Ptr(62)] {
        assert!(matches!(flow.resume(&reply(0, value)), Step::Call(_)));
    }
    assert!(matches!(flow.resume(&reply(0, OciValue::Nothing)), Step::Call(OciCall::AttrSet { target: 61, attr: 460, value: AttrValue::Ptr(62), .. })));
    match flow.resume(&reply(0, OciValue::Nothing)) {
        Step::Call(OciCall::SessionPoolCreate { pool: 61, err: 60, min: 2, max: 10, incr: 1, dbname, user, pass, mode: 0x0006, .. }) => {
            assert_eq!(dbname, "db");
            assert_eq!(user, "scott");
            assert_eq!(pass, "tiger");
        },
        _ => panic!("expected the pool creation"),
    }
}

#[test]
fn session_pool_with_fixup_sets_the_callback() {
    let e = environment();
    let (mut flow, _) = e.create_session_pool_with_session_state_fixup("db", "scott", "tiger", 0, 1, 4, "fixup_proc");
    for value in vec![OciValue::Ptr(60), OciValue::Ptr(61), OciValue::Ptr(62)] {
        assert!(matches!(flow.resume(&reply(0, value)), Step::Call(_)));
    }
    match flow.resume(&reply(0, OciValue::Nothing)) {
        Step::Call(OciCall::AttrSet { target: 62, htype: 9, value: AttrValue::Text(t), .. }) => assert_eq!(t, "fixup_proc"),
        _ => panic!("expected the fixup callback"),
    }
    assert!(matches!(flow.resume(&reply(0, OciValue::Nothing)), Step::Call(OciCall::AttrSet { target: 61, .. })));
    assert!(matches!(flow.resume(&reply(0, OciValue::Nothing)), Step::Call(OciCall::SessionPoolCreate { min: 0, max: 4, incr: 1, .. })));
}

#[test]
fn answers_give_the_reported_values() {
    let e = environment();
    let p = session_pool(&e);
    assert!(matches!(answer_u32(&p.open_count(), &reply(0, OciValue::U32(3))), Ok(3)));
    assert!(matches!(answer_u32(&p.busy_count(), &reply(-1, OciValue::Nothing)),
        Err(sibyl::err::Diag { handle: 60, htype: 2, rc: -1 })));
    let s = open_session(&e);
    match answer_text(&s.current_schema(), &reply(0, OciValue::Text(String::from("HR")))) {
        Ok(t) => assert_eq!(t, "HR"),
        Err(_) => panic!("expected the schema"),
    }
    assert!(matches!(answer_flag(&s.ping(), &reply(1, OciValue::U8(1))), Ok(true)));
    assert!(matches!(answer(&s.commit(), reply(0, OciValue::Nothing)), Ok(OciValue::Nothing)));
}
