use sibyl::oci::ptr::Ptr;
use sibyl::err::Diag;
use sibyl::oci::{OCIEnv, OCICLobLocator, OCIBLobLocator};
use sibyl::oci::call::{OciCall, OciValue, Reply, Step, AttrValue};
use sibyl::lob::{piece_read, text_piece_read, reply_flag, reply_form, reply_is_nclob, reply_counts, LobCreateFlow, LobCtx, LobMaking};
use sibyl::{Session, Cache, CharSetForm, CLOB, BLOB, BFile, Error};
use sibyl::lob::{dbms_lob_read, dbms_lob_istemporary, ChunkedRead, content_head, content_head_len};

fn reply(status: i32, value: OciValue) -> Reply {
    Reply { status, value }
}

fn open_session() -> Session {
    let env = Ptr::<OCIEnv>::new(10);
    let (mut flow, first) = Session::new(env, "db", "scott", "tiger", 0);
    assert!(matches!(first, OciCall::HandleAlloc { env: 10, htype: 2 }));
    let answers = vec![
        OciValue::Ptr(20),
        OciValue::Ptr(30),
        OciValue::Nothing,
        OciValue::Nothing,
        OciValue::Nothing,
        OciValue::Ptr(40),
        OciValue::Ptr(50),
    ];
    for value in answers {
        match flow.resume(&reply(0, value)) {
            Step::Call(_) => {},
            Step::Done(Ok(s)) => return s,
            _ => panic!("session flow failed"),
        }
    }
    panic!("session flow did not finish")
}

fn new_clob(session: &Session) -> CLOB {
    let (mut flow, call): (LobCreateFlow<OCICLobLocator>, OciCall) = CLOB::empty(session);
    assert!(matches!(call, OciCall::DescriptorAlloc { env: 10, .. }));
    match flow.resume(&reply(0, OciValue::Ptr(500))) {
        Step::Call(OciCall::AttrSet { target: 500, attr, value: AttrValue::U32(0), err: 20, .. }) => assert_eq!(attr, 45),
        _ => panic!("expected the empty-locator attribute"),
    }
    match flow.resume(&reply(0, OciValue::Nothing)) {
        Step::Done(Ok(lob)) => lob,
        _ => panic!("expected a LOB"),
    }
}

fn new_blob(session: &Session) -> BLOB {
    let (mut flow, _) = BLOB::temp(session, Cache::Yes);
    match flow.resume(&reply(0, OciValue::Ptr(600))) {
        Step::Call(OciCall::LobCreateTemporary { svc: 40, err: 20, loc: 600, csid: 0, csfrm: 0, lob_type: 1, cache: 1, duration: 10 }) => {},
        _ => panic!("expected the temporary LOB creation"),
    }
    match flow.resume(&reply(0, OciValue::Nothing)) {
        Step::Done(Ok(lob)) => lob,
        _ => panic!("expected a LOB"),
    }
}

#[test]
fn empty_clob_flow_sets_locator_empty() {
    let session = open_session();
    let lob = new_clob(&session);
    assert!(lob.locator().get() == 500);
    let rel = lob.release();
    assert!(rel.calls_first().is_empty());
    assert!(matches!(rel.temp_query(), Some(OciCall::LobIsTemporary { env: 10, err: 20, loc: 500 })));
    let calls = rel.finish(Some(&reply(0, OciValue::U8(1))));
    assert_eq!(calls.len(), 2);
    assert!(matches!(calls[0], OciCall::LobFreeTemporary { svc: 40, err: 20, loc: 500 }));
    assert!(matches!(calls[1], OciCall::DescriptorFree { desc: 500, dtype: 50 }));
    let calls = rel.finish(Some(&reply(0, OciValue::U8(0))));
    assert_eq!(calls.len(), 1);
}

#[test]
fn lob_creation_failures() {
    let session = open_session();
    let (mut flow, _) = CLOB::empty(&session);
    match flow.resume(&reply(-1, OciValue::Nothing)) {
        Step::Fail(d) => { assert_eq!(d.handle, 10); assert_eq!(d.htype, 1); assert_eq!(d.rc, -1); },
        _ => panic!("expected a failure"),
    }
    assert!(flow.cleanup().is_empty());
    let (mut flow, _) = CLOB::empty(&session);
    match flow.resume(&reply(0, OciValue::Ptr(0))) {
        Step::Done(Err(e)) => assert_eq!(e.to_string(), "OCIDescriptorAlloc returned NULL"),
        _ => panic!("expected an error"),
    }
    let (mut flow, _) = CLOB::temp(&session, CharSetForm::NChar, Cache::No);
    match flow.resume(&reply(0, OciValue::Ptr(700))) {
        Step::Call(OciCall::LobCreateTemporary { csfrm: 2, lob_type: 2, cache: 0, loc: 700, .. }) => {},
        _ => panic!("expected the temporary CLOB creation"),
    }
    match flow.resume(&reply(-1, OciValue::Nothing)) {
        Step::Fail(d) => { assert_eq!(d.handle, 20); assert_eq!(d.htype, 2); },
        _ => panic!("expected a failure"),
    }
    let calls = flow.cleanup();
    assert_eq!(calls.len(), 1);
    assert!(matches!(calls[0], OciCall::DescriptorFree { desc: 700, dtype: 50 }));
}

#[test]
fn bfile_new_needs_one_call() {
    let session = open_session();
    let (mut flow, call) = BFile::new(&session);
    assert!(matches!(call, OciCall::DescriptorAlloc { env: 10, dtype: 56 }));
    let file = match flow.resume(&reply(0, OciValue::Ptr(800))) {
        Step::Done(Ok(f)) => f,
        _ => panic!("expected a BFILE"),
    };
    assert!(matches!(file.file_name(), OciCall::LobFileGetName { loc: 800, dir_cap: 30, name_cap: 255, .. }));
    match file.set_file_name("MEDIA_DIR", "hello_world.txt") {
        OciCall::LobFileSetName { dir, name, loc: 800, .. } => {
            assert_eq!(dir, "MEDIA_DIR");
            assert_eq!(name, "hello_world.txt");
        },
        _ => panic!("expected the file name call"),
    }
    assert!(matches!(file.open_file(), OciCall::LobFileOpen { mode: 1, .. }));
    assert!(matches!(file.read(0, 10), OciCall::LobRead { offset: 1, byte_amt: 10, buf_len: 10, piece: 0, .. }));
}

#[test]
fn open_and_close_change_what_drop_does() {
    let session = open_session();
    let mut lob = new_blob(&session);
    // a temporary LOB is freed without asking OCI
    let rel = lob.release();
    assert_eq!(rel.calls_first().len(), 1);
    assert!(rel.temp_query().is_none());
    assert!(matches!(lob.open(), OciCall::LobOpen { mode: 2, loc: 600, .. }));
    assert!(!lob.opened(-1));
    assert_eq!(lob.release().calls_first().len(), 1);
    assert!(lob.opened(0));
    let rel = lob.release();
    assert_eq!(rel.calls_first().len(), 2);
    assert!(matches!(rel.calls_first()[0], OciCall::LobClose { loc: 600, .. }));
    assert!(matches!(rel.calls_first()[1], OciCall::LobFreeTemporary { loc: 600, .. }));
    assert!(lob.closed(0));
    assert_eq!(lob.release().calls_first().len(), 1);
}

#[test]
fn chunk_size_is_asked_once() {
    let session = open_session();
    let mut lob = new_clob(&session);
    assert!(matches!(lob.chunk_size(), Step::Call(OciCall::LobGetChunkSize { loc: 500, .. })));
    assert!(matches!(lob.chunk_size_fetched(&reply(-1, OciValue::Nothing)), Step::Fail(_)));
    assert!(matches!(lob.chunk_size(), Step::Call(_)));
    assert!(matches!(lob.chunk_size_fetched(&reply(0, OciValue::U32(8132))), Step::Done(Ok(8132))));
    assert!(matches!(lob.chunk_size(), Step::Done(Ok(8132))));
}

#[test]
fn clob_write_asks_for_the_form_first() {
    let session = open_session();
    let lob = new_clob(&session);
    let (mut flow, call) = lob.write(5, "héllo");
    assert!(matches!(call, OciCall::LobCharSetForm { env: 10, err: 20, loc: 500 }));
    match flow.resume(&reply(0, OciValue::U8(2))) {
        Step::Call(OciCall::LobWrite { offset: 6, byte_amt: 6, buf_len: 6, piece: 0, csid: 873, csfrm: 2, .. }) => {},
        _ => panic!("expected the write"),
    }
    assert!(matches!(flow.resume(&reply(0, OciValue::Counts(6, 5))), Step::Done(Ok(5))));

    let (mut flow, _) = lob.append_first("abc");
    match flow.resume(&reply(0, OciValue::U8(7))) {
        Step::Call(OciCall::LobWriteAppend { byte_amt: 0, buf_len: 3, piece: 1, csfrm: 0, .. }) => {},
        _ => panic!("expected the append"),
    }
    assert!(matches!(lob.append_next("de"), OciCall::LobWriteAppend { byte_amt: 0, buf_len: 2, piece: 2, csfrm: 0, .. }));
    assert!(matches!(lob.write_last("x"), OciCall::LobWrite { offset: 1, piece: 3, .. }));
}

#[test]
fn clob_read_appends_text() {
    let session = open_session();
    let lob = new_clob(&session);
    let (_, step) = lob.read(0, 0);
    assert!(matches!(step, Step::Done(Ok((false, 0)))));
    let (mut flow, step) = lob.read(3, 10);
    assert!(matches!(step, Step::Call(OciCall::LobCharSetForm { .. })));
    let mut buf = String::from("<");
    match flow.resume(&reply(0, OciValue::U8(1)), &mut buf) {
        Step::Call(OciCall::LobRead { offset: 4, byte_amt: 40, char_amt: 10, buf_len: 40, piece: 0, csfrm: 1, .. }) => {},
        _ => panic!("expected the read"),
    }
    let done = flow.resume(&reply(0, OciValue::TextPiece(String::from("abc"), 3)), &mut buf);
    assert!(matches!(done, Step::Done(Ok((false, 3)))));
    assert_eq!(buf, "<abc");
    let mut more = String::new();
    let r = text_piece_read(&reply(99, OciValue::TextPiece(String::from("αβ"), 2)), &mut more);
    assert_eq!(r, (true, 4, 2));
    assert_eq!(more, "αβ");
}

#[test]
fn blob_reads_and_writes() {
    let session = open_session();
    let lob = new_blob(&session);
    assert!(lob.read(0, 0).is_none());
    assert!(matches!(lob.read(2, 4), Some(OciCall::LobRead { offset: 3, byte_amt: 4, buf_len: 4, .. })));
    assert!(matches!(lob.read_first(16, 0, 100), OciCall::LobRead { piece: 1, buf_len: 16, byte_amt: 100, .. }));
    assert!(matches!(lob.read_next(16), OciCall::LobRead { piece: 2, offset: 1, byte_amt: 0, .. }));
    assert!(matches!(lob.write(0, &[1, 2, 3]), OciCall::LobWrite { byte_amt: 3, buf_len: 3, offset: 1, piece: 0, .. }));
    assert!(matches!(lob.write_first(9, &[1, 2, 3]), OciCall::LobWrite { byte_amt: 0, offset: 10, piece: 1, .. }));
    assert!(matches!(lob.append(&[1]), OciCall::LobWriteAppend { byte_amt: 1, piece: 0, .. }));
    let mut buf = vec![9u8];
    let r = piece_read(&reply(99, OciValue::Piece(vec![1, 2], 0)), 16, &mut buf);
    assert_eq!(r, (true, 2, 0));
    assert_eq!(buf, vec![9, 1, 2]);
    let r = piece_read(&reply(0, OciValue::Nothing), 16, &mut buf);
    assert_eq!(r, (false, 0, 0));
    // no more than the piece's buffer holds is kept
    let r = piece_read(&reply(0, OciValue::Piece(vec![4, 5, 6], 0)), 2, &mut buf);
    assert_eq!(r, (false, 2, 0));
    assert_eq!(buf, vec![9, 1, 2, 4, 5]);
    // a failed read reports the LOB's error handle and keeps the buffer
    let failed = lob.read_piece_done(4, &reply(-1, OciValue::Piece(vec![7], 0)), &mut buf);
    assert!(matches!(failed, Err(Diag { htype: 2, rc: -1, .. })));
    assert_eq!(buf, vec![9, 1, 2, 4, 5]);
    assert!(matches!(lob.read_piece_done(4, &reply(99, OciValue::Piece(vec![7], 1)), &mut buf), Ok((true, 1, 1))));
    assert_eq!(buf, vec![9, 1, 2, 4, 5, 7]);
    assert_eq!(reply_counts(&OciValue::Counts(7, 3)), (7, 3));
    assert!(matches!(sibyl::oci::answer::answer_u64(&lob.len(), &reply(0, OciValue::U64(15))), Ok(15)));
    assert!(matches!(sibyl::oci::answer::answer_counts(&lob.write(0, &[1, 2, 3]), &reply(0, OciValue::Counts(3, 0))), Ok((3, 0))));
    assert!(matches!(sibyl::oci::answer::answer_flag(&lob.is_open(), &reply(0, OciValue::U8(0))), Ok(false)));
}

#[test]
fn lob_offsets_count_from_one() {
    let session = open_session();
    let a = new_blob(&session);
    let b = new_blob(&session);
    assert!(matches!(a.copy(&b, 0, 10, 5), OciCall::LobCopy { amount: 10, dst_off: 6, src_off: 1, .. }));
    assert!(matches!(a.erase(4, 2), OciCall::LobErase { amount: 2, offset: 5, .. }));
    assert!(matches!(a.trim(7), OciCall::LobTrim { len: 7, .. }));
    assert!(matches!(a.content_type(), OciCall::LobGetContentType { cap: 128, mode: 0, .. }));
}

#[test]
fn answers_are_read_as_flags_and_forms() {
    assert!(reply_flag(&OciValue::U8(1)));
    assert!(!reply_flag(&OciValue::U8(0)));
    assert!(!reply_flag(&OciValue::Nothing));
    assert!(matches!(reply_form(&OciValue::U8(1)), CharSetForm::Implicit));
    assert!(matches!(reply_form(&OciValue::U8(2)), CharSetForm::NChar));
    assert!(matches!(reply_form(&OciValue::U8(5)), CharSetForm::Undefined));
    assert!(reply_is_nclob(&OciValue::U8(2)));
    assert!(!reply_is_nclob(&OciValue::U8(1)));
}

#[test]
fn lob_ctx_takes_session_handles() {
    let session = open_session();
    let ctx = LobCtx::of(&session);
    assert_eq!(ctx.env().get(), 10);
    assert_eq!(ctx.err().get(), 20);
    assert_eq!(ctx.svc().get(), 40);
    let (mut flow, _) = LobCreateFlow::<OCIBLobLocator>::start(ctx, LobMaking::Plain);
    assert!(matches!(flow.resume(&reply(0, OciValue::Ptr(900))), Step::Done(Ok(_))));
}

#[test]
fn chunked_reads_advance_until_done() {
    assert_eq!(dbms_lob_read(), "BEGIN DBMS_LOB.READ(:LOC, :AMT, :POS, :DATA); END;");
    assert_eq!(dbms_lob_istemporary(), "BEGIN :RES := DBMS_LOB.ISTEMPORARY(:LOC); END;");
    let mut read = ChunkedRead::new(0, 40000);
    assert_eq!(read.next(), Some((32767, 1)));
    assert!(read.answered(Ok(1), 32767).is_none());
    assert_eq!(read.next(), Some((7233, 32768)));
    assert!(read.answered(Ok(1), 7233).is_none());
    assert_eq!(read.next(), None);
    assert_eq!(read.result(), 40000);

    let mut read = ChunkedRead::new(10, 100);
    assert!(matches!(read.answered(Ok(0), 0), Some(Ok(0))));
    let mut read = ChunkedRead::new(4, 100);
    assert_eq!(read.next(), Some((100, 5)));
    assert!(read.answered(Ok(1), 11).is_none());
    assert!(matches!(read.answered(Err(Error::from_diagnostics(0, 1403, "ORA-01403: no data found")), 0), Some(Ok(11))));
    assert_eq!(read.result(), 11);
    let mut read = ChunkedRead::new(10, 100);
    match read.answered(Err(Error::from_diagnostics(0, 942, "missing")), 0) {
        Some(Err(e)) => assert_eq!(e.to_string(), "ORA-00942: missing"),
        _ => panic!("expected the error"),
    }
}

#[test]
fn chunked_reads_append_what_they_read() {
    let mut read = ChunkedRead::new(4, 100);
    let mut out = String::from(">");
    assert!(read.answered_text(Ok(1), 11, "tête-à-tête", &mut out).is_none());
    assert_eq!(out, ">tête-à-tête");
    assert!(matches!(read.answered_text(Ok(0), 0, "ignored", &mut out), Some(Ok(11))));
    assert_eq!(out, ">tête-à-tête");

    let mut read = ChunkedRead::new(0, 3);
    let mut bytes = vec![9u8];
    assert!(read.answered_bytes(Ok(1), 3, &[1, 2, 3], &mut bytes).is_none());
    assert_eq!(bytes, vec![9, 1, 2, 3]);
    assert_eq!(read.next(), None);
    assert_eq!(read.result(), 3);
    assert!(matches!(read.answered_bytes(Err(Error::from_diagnostics(0, 942, "missing")), 0, &[7], &mut bytes), Some(Err(_))));
    assert_eq!(bytes, vec![9, 1, 2, 3]);
}

#[test]
fn nonblocking_file_flags() {
    let session = open_session();
    let (mut flow, _) = BFile::new(&session);
    let mut file = match flow.resume(&reply(0, OciValue::Ptr(800))) {
        Step::Done(Ok(f)) => f,
        _ => panic!("expected a BFILE"),
    };
    assert!(file.file_opened(0));
    let rel = file.release();
    assert!(matches!(rel.calls_first()[0], OciCall::LobFileClose { loc: 800, .. }));
    assert!(file.file_closed(0));
    assert!(file.release().calls_first().is_empty());
    let mut lob = new_clob(&session);
    lob.temp_checked(true);
    assert!(lob.release().temp_query().is_none());
    lob.temp_checked(false);
    assert!(lob.release().temp_query().is_some());
}

#[test]
fn content_heads_are_cut_at_fifty() {
    assert_eq!(content_head_len(10), 10);
    assert_eq!(content_head_len(500), 50);
    assert_eq!(content_head(String::from("abc"), 3), "abc");
    assert_eq!(content_head(String::from("abc"), 50), "abc...");
}
