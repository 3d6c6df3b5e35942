//! Constructors for the OCI calls the library makes, one per OCI function, with the
//! arguments that the library passes to it.

use vstd::prelude::*;
use crate::oci::ptr::Ptr;
use crate::oci::call::{AttrKind, AttrValue, OciCall};
use crate::oci::{
    OCIAuthInfo, OCICPool, OCIEnv, OCIError, OCILobLocator, OCIRowid, OCISPool, OCIStmt, OCISvcCtx,
    OCI_DEFAULT,
};

verus! {

/// `OCIPing`
pub fn ping(svchp: Ptr<OCISvcCtx>, errhp: Ptr<OCIError>) -> (r: OciCall)
    ensures
        r == (OciCall::Ping { svc: svchp.addr(), err: errhp.addr() }),
{
    OciCall::Ping { svc: svchp.get(), err: errhp.get() }
}

/// `OCITransCommit`
pub fn trans_commit(svchp: Ptr<OCISvcCtx>, errhp: Ptr<OCIError>) -> (r: OciCall)
    ensures
        r == (OciCall::TransCommit { svc: svchp.addr(), err: errhp.addr() }),
{
    OciCall::TransCommit { svc: svchp.get(), err: errhp.get() }
}

/// `OCITransRollback`
pub fn trans_rollback(svchp: Ptr<OCISvcCtx>, errhp: Ptr<OCIError>) -> (r: OciCall)
    ensures
        r == (OciCall::TransRollback { svc: svchp.addr(), err: errhp.addr() }),
{
    OciCall::TransRollback { svc: svchp.get(), err: errhp.get() }
}

/// `OCITransRollback`, as a release makes it
pub fn oci_trans_rollback(svchp: Ptr<OCISvcCtx>, errhp: Ptr<OCIError>) -> (r: OciCall)
    ensures
        r == (OciCall::TransRollback { svc: svchp.addr(), err: errhp.addr() }),
{
    OciCall::TransRollback { svc: svchp.get(), err: errhp.get() }
}

/// `OCISessionRelease`
pub fn oci_session_release(svc: Ptr<OCISvcCtx>, err: Ptr<OCIError>) -> (r: OciCall)
    ensures
        r == (OciCall::SessionRelease { svc: svc.addr(), err: err.addr() }),
{
    OciCall::SessionRelease { svc: svc.get(), err: err.get() }
}

/// `OCIConnectionPoolDestroy`
pub fn oci_connection_pool_destroy(pool: Ptr<OCICPool>, err: Ptr<OCIError>) -> (r: OciCall)
    ensures
        r == (OciCall::ConnectionPoolDestroy { pool: pool.addr(), err: err.addr() }),
{
    OciCall::ConnectionPoolDestroy { pool: pool.get(), err: err.get() }
}

/// `OCISessionPoolDestroy`
pub fn oci_session_pool_destroy(pool: Ptr<OCISPool>, err: Ptr<OCIError>) -> (r: OciCall)
    ensures
        r == (OciCall::SessionPoolDestroy { pool: pool.addr(), err: err.addr() }),
{
    OciCall::SessionPoolDestroy { pool: pool.get(), err: err.get() }
}

/// `OCIStmtRelease` in default mode
pub fn oci_stmt_release(stmt: Ptr<OCIStmt>, err: Ptr<OCIError>) -> (r: OciCall)
    ensures
        r == (OciCall::StmtRelease { stmt: stmt.addr(), err: err.addr(), mode: OCI_DEFAULT }),
{
    OciCall::StmtRelease { stmt: stmt.get(), err: err.get(), mode: OCI_DEFAULT }
}

/// `OCIStmtGetNextResult`
pub fn stmt_get_next_result(stmtp: Ptr<OCIStmt>, errhp: Ptr<OCIError>) -> (r: OciCall)
    ensures
        r == (OciCall::StmtGetNextResult { stmt: stmtp.addr(), err: errhp.addr() }),
{
    OciCall::StmtGetNextResult { stmt: stmtp.get(), err: errhp.get() }
}

/// `OCIRowidToChar`
pub fn rowid_to_char(desc: Ptr<OCIRowid>, errhp: Ptr<OCIError>) -> (r: OciCall)
    ensures
        r == (OciCall::RowidToChar { desc: desc.addr(), err: errhp.addr() }),
{
    OciCall::RowidToChar { desc: desc.get(), err: errhp.get() }
}

/// `OCILobAppend`
pub fn lob_append(svchp: Ptr<OCISvcCtx>, errhp: Ptr<OCIError>, dst: Ptr<OCILobLocator>, src: Ptr<OCILobLocator>) -> (r: OciCall)
    ensures
        r == (OciCall::LobAppend { svc: svchp.addr(), err: errhp.addr(), dst: dst.addr(), src: src.addr() }),
{
    OciCall::LobAppend { svc: svchp.get(), err: errhp.get(), dst: dst.get(), src: src.get() }
}

/// `OCILobCharSetForm`
pub fn lob_char_set_form(envhp: Ptr<OCIEnv>, errhp: Ptr<OCIError>, src: Ptr<OCILobLocator>) -> (r: OciCall)
    ensures
        r == (OciCall::LobCharSetForm { env: envhp.addr(), err: errhp.addr(), loc: src.addr() }),
{
    OciCall::LobCharSetForm { env: envhp.get(), err: errhp.get(), loc: src.get() }
}

/// `OCILobCharSetId`
pub fn lob_char_set_id(envhp: Ptr<OCIEnv>, errhp: Ptr<OCIError>, src: Ptr<OCILobLocator>) -> (r: OciCall)
    ensures
        r == (OciCall::LobCharSetId { env: envhp.addr(), err: errhp.addr(), loc: src.addr() }),
{
    OciCall::LobCharSetId { env: envhp.get(), err: errhp.get(), loc: src.get() }
}

/// `OCILobClose`
pub fn lob_close(svchp: Ptr<OCISvcCtx>, errhp: Ptr<OCIError>, loc: Ptr<OCILobLocator>) -> (r: OciCall)
    ensures
        r == (OciCall::LobClose { svc: svchp.addr(), err: errhp.addr(), loc: loc.addr() }),
{
    OciCall::LobClose { svc: svchp.get(), err: errhp.get(), loc: loc.get() }
}

/// `OCILobFileClose`
pub fn lob_file_close(svchp: Ptr<OCISvcCtx>, errhp: Ptr<OCIError>, filep: Ptr<OCILobLocator>) -> (r: OciCall)
    ensures
        r == (OciCall::LobFileClose { svc: svchp.addr(), err: errhp.addr(), loc: filep.addr() }),
{
    OciCall::LobFileClose { svc: svchp.get(), err: errhp.get(), loc: filep.get() }
}

/// `OCILobFileExists`
pub fn lob_file_exists(svchp: Ptr<OCISvcCtx>, errhp: Ptr<OCIError>, filep: Ptr<OCILobLocator>) -> (r: OciCall)
    ensures
        r == (OciCall::LobFileExists { svc: svchp.addr(), err: errhp.addr(), loc: filep.addr() }),
{
    OciCall::LobFileExists { svc: svchp.get(), err: errhp.get(), loc: filep.get() }
}

/// `OCILobFileIsOpen`
pub fn lob_file_is_open(svchp: Ptr<OCISvcCtx>, errhp: Ptr<OCIError>, filep: Ptr<OCILobLocator>) -> (r: OciCall)
    ensures
        r == (OciCall::LobFileIsOpen { svc: svchp.addr(), err: errhp.addr(), loc: filep.addr() }),
{
    OciCall::LobFileIsOpen { svc: svchp.get(), err: errhp.get(), loc: filep.get() }
}

/// `OCILobFreeTemporary`
pub fn lob_free_temporary(svchp: Ptr<OCISvcCtx>, errhp: Ptr<OCIError>, loc: Ptr<OCILobLocator>) -> (r: OciCall)
    ensures
        r == (OciCall::LobFreeTemporary { svc: svchp.addr(), err: errhp.addr(), loc: loc.addr() }),
{
    OciCall::LobFreeTemporary { svc: svchp.get(), err: errhp.get(), loc: loc.get() }
}

/// `OCILobGetChunkSize`
pub fn lob_get_chunk_size(svchp: Ptr<OCISvcCtx>, errhp: Ptr<OCIError>, loc: Ptr<OCILobLocator>) -> (r: OciCall)
    ensures
        r == (OciCall::LobGetChunkSize { svc: svchp.addr(), err: errhp.addr(), loc: loc.addr() }),
{
    OciCall::LobGetChunkSize { svc: svchp.get(), err: errhp.get(), loc: loc.get() }
}

/// `OCILobGetLength2`
pub fn lob_get_length(svchp: Ptr<OCISvcCtx>, errhp: Ptr<OCIError>, loc: Ptr<OCILobLocator>) -> (r: OciCall)
    ensures
        r == (OciCall::LobGetLength { svc: svchp.addr(), err: errhp.addr(), loc: loc.addr() }),
{
    OciCall::LobGetLength { svc: svchp.get(), err: errhp.get(), loc: loc.get() }
}

/// `OCILobIsEqual`
pub fn lob_is_equal(envhp: Ptr<OCIEnv>, loc1: Ptr<OCILobLocator>, loc2: Ptr<OCILobLocator>) -> (r: OciCall)
    ensures
        r == (OciCall::LobIsEqual { env: envhp.addr(), loc1: loc1.addr(), loc2: loc2.addr() }),
{
    OciCall::LobIsEqual { env: envhp.get(), loc1: loc1.get(), loc2: loc2.get() }
}

/// `OCILobIsOpen`
pub fn lob_is_open(svchp: Ptr<OCISvcCtx>, errhp: Ptr<OCIError>, loc: Ptr<OCILobLocator>) -> (r: OciCall)
    ensures
        r == (OciCall::LobIsOpen { svc: svchp.addr(), err: errhp.addr(), loc: loc.addr() }),
{
    OciCall::LobIsOpen { svc: svchp.get(), err: errhp.get(), loc: loc.get() }
}

/// `OCILobIsTemporary`
pub fn lob_is_temporary(envhp: Ptr<OCIEnv>, errhp: Ptr<OCIError>, loc: Ptr<OCILobLocator>) -> (r: OciCall)
    ensures
        r == (OciCall::LobIsTemporary { env: envhp.addr(), err: errhp.addr(), loc: loc.addr() }),
{
    OciCall::LobIsTemporary { env: envhp.get(), err: errhp.get(), loc: loc.get() }
}

/// `OCILobLocatorIsInit`
pub fn lob_locator_is_init(envhp: Ptr<OCIEnv>, errhp: Ptr<OCIError>, src: Ptr<OCILobLocator>) -> (r: OciCall)
    ensures
        r == (OciCall::LobLocatorIsInit { env: envhp.addr(), err: errhp.addr(), loc: src.addr() }),
{
    OciCall::LobLocatorIsInit { env: envhp.get(), err: errhp.get(), loc: src.get() }
}

/// `OCIHandleAlloc` of a handle of type `hndltype` under the environment.
pub fn handle_alloc(parenth: Ptr<OCIEnv>, hndltype: u32) -> (r: OciCall)
    ensures
        r == (OciCall::HandleAlloc { env: parenth.addr(), htype: hndltype }),
{
    OciCall::HandleAlloc { env: parenth.get(), htype: hndltype }
}

/// `OCIDescriptorAlloc` of a descriptor of type `desctype` under the environment.
pub fn descriptor_alloc(parenth: Ptr<OCIEnv>, desctype: u32) -> (r: OciCall)
    ensures
        r == (OciCall::DescriptorAlloc { env: parenth.addr(), dtype: desctype }),
{
    OciCall::DescriptorAlloc { env: parenth.get(), dtype: desctype }
}

/// `OCIAttrGet` of attribute `attrtype` of a handle or descriptor.
pub fn attr_get(trgthndlp: usize, trghndltyp: u32, kind: AttrKind, attrtype: u32, errhp: Ptr<OCIError>) -> (r: OciCall)
    ensures
        r == (OciCall::AttrGet { target: trgthndlp, htype: trghndltyp, attr: attrtype, kind, err: errhp.addr() }),
{
    OciCall::AttrGet { target: trgthndlp, htype: trghndltyp, attr: attrtype, kind, err: errhp.get() }
}

/// `OCIAttrSet` of attribute `attrtype` of a handle or descriptor.
pub fn attr_set(trgthndlp: usize, trghndltyp: u32, value: AttrValue, attrtype: u32, errhp: Ptr<OCIError>) -> (r: OciCall)
    ensures
        r == (OciCall::AttrSet { target: trgthndlp, htype: trghndltyp, attr: attrtype, value, err: errhp.addr() }),
{
    OciCall::AttrSet { target: trgthndlp, htype: trghndltyp, attr: attrtype, value, err: errhp.get() }
}

/// `OCIParamGet` of the parameter descriptor at position `pos`.
pub fn param_get(hndlp: Ptr<OCIStmt>, htype: u32, errhp: Ptr<OCIError>, pos: u32) -> (r: OciCall)
    ensures
        r == (OciCall::ParamGet { stmt: hndlp.addr(), htype, err: errhp.addr(), pos }),
{
    OciCall::ParamGet { stmt: hndlp.get(), htype, err: errhp.get(), pos }
}

/// `OCISessionGet` of a session for `dbname` with the given mode, without a tag.
pub fn session_get(envhp: Ptr<OCIEnv>, errhp: Ptr<OCIError>, authinfop: Ptr<OCIAuthInfo>, dbname: &String, mode: u32) -> (r: OciCall)
    ensures
        r == (OciCall::SessionGet { env: envhp.addr(), err: errhp.addr(), auth: authinfop.addr(), dbname: *dbname, mode }),
{
    OciCall::SessionGet { env: envhp.get(), err: errhp.get(), auth: authinfop.get(), dbname: dbname.clone(), mode }
}

/// `OCISessionGet` of a session from a pool, asking for a session with `tag`.
pub fn session_get_tagged(envhp: Ptr<OCIEnv>, errhp: Ptr<OCIError>, authinfop: Ptr<OCIAuthInfo>, dbname: &String, tag: &String, mode: u32) -> (r: OciCall)
    ensures
        r == (OciCall::SessionGetTagged { env: envhp.addr(), err: errhp.addr(), auth: authinfop.addr(), dbname: *dbname, tag: *tag, mode }),
{
    OciCall::SessionGetTagged { env: envhp.get(), err: errhp.get(), auth: authinfop.get(), dbname: dbname.clone(), tag: tag.clone(), mode }
}

/// `OCIConnectionPoolCreate`.
pub fn connection_pool_create(
    envhp: Ptr<OCIEnv>,
    errhp: Ptr<OCIError>,
    cpoolhp: Ptr<OCICPool>,
    dblink: &String,
    conn_min: u32,
    conn_max: u32,
    conn_incr: u32,
    username: &String,
    password: &String,
    mode: u32,
) -> (r: OciCall)
    ensures
        r == (OciCall::ConnectionPoolCreate {
            env: envhp.addr(), err: errhp.addr(), pool: cpoolhp.addr(), dblink: *dblink,
            min: conn_min, max: conn_max, incr: conn_incr, user: *username, pass: *password, mode,
        }),
{
    OciCall::ConnectionPoolCreate {
        env: envhp.get(),
        err: errhp.get(),
        pool: cpoolhp.get(),
        dblink: dblink.clone(),
        min: conn_min,
        max: conn_max,
        incr: conn_incr,
        user: username.clone(),
        pass: password.clone(),
        mode,
    }
}

/// `OCISessionPoolCreate`.
pub fn session_pool_create(
    envhp: Ptr<OCIEnv>,
    errhp: Ptr<OCIError>,
    spoolhp: Ptr<OCISPool>,
    conn_str: &String,
    sess_min: u32,
    sess_max: u32,
    sess_incr: u32,
    userid: &String,
    password: &String,
    mode: u32,
) -> (r: OciCall)
    ensures
        r == (OciCall::SessionPoolCreate {
            env: envhp.addr(), err: errhp.addr(), pool: spoolhp.addr(), dbname: *conn_str,
            min: sess_min, max: sess_max, incr: sess_incr, user: *userid, pass: *password, mode,
        }),
{
    OciCall::SessionPoolCreate {
        env: envhp.get(),
        err: errhp.get(),
        pool: spoolhp.get(),
        dbname: conn_str.clone(),
        min: sess_min,
        max: sess_max,
        incr: sess_incr,
        user: userid.clone(),
        pass: password.clone(),
        mode,
    }
}

/// `OCIStmtPrepare2` of `stmttext`.
pub fn stmt_prepare(svchp: Ptr<OCISvcCtx>, errhp: Ptr<OCIError>, stmttext: &str, language: u32, mode: u32) -> (r: OciCall)
    ensures
        r matches OciCall::StmtPrepare { svc, err, sql, language: l, mode: m }
            && svc == svchp.addr() && err == errhp.addr() && sql@ == stmttext@ && l == language && m == mode,
{
    OciCall::StmtPrepare { svc: svchp.get(), err: errhp.get(), sql: stmttext.to_owned(), language, mode }
}

/// `OCIStmtRelease` with the given mode.
pub fn stmt_release(stmtp: Ptr<OCIStmt>, errhp: Ptr<OCIError>, mode: u32) -> (r: OciCall)
    ensures
        r == (OciCall::StmtRelease { stmt: stmtp.addr(), err: errhp.addr(), mode }),
{
    OciCall::StmtRelease { stmt: stmtp.get(), err: errhp.get(), mode }
}

/// `OCIStmtExecute` of `iters` iterations starting at row `rowoff`.
pub fn stmt_execute(svchp: Ptr<OCISvcCtx>, stmtp: Ptr<OCIStmt>, errhp: Ptr<OCIError>, iters: u32, rowoff: u32, mode: u32) -> (r: OciCall)
    ensures
        r == (OciCall::StmtExecute { svc: svchp.addr(), stmt: stmtp.addr(), err: errhp.addr(), iters, rowoff, mode }),
{
    OciCall::StmtExecute { svc: svchp.get(), stmt: stmtp.get(), err: errhp.get(), iters, rowoff, mode }
}

/// `OCIStmtFetch2`.
pub fn stmt_fetch(stmtp: Ptr<OCIStmt>, errhp: Ptr<OCIError>, nrows: u32, orient: u16, offset: i16, mode: u32) -> (r: OciCall)
    ensures
        r == (OciCall::StmtFetch { stmt: stmtp.addr(), err: errhp.addr(), nrows, orient, offset, mode }),
{
    OciCall::StmtFetch { stmt: stmtp.get(), err: errhp.get(), nrows, orient, offset, mode }
}

/// `OCIDefineByPos2` of column `position` into a buffer of `value_sz` bytes of type `dty`.
pub fn define_by_pos(stmtp: Ptr<OCIStmt>, errhp: Ptr<OCIError>, position: u32, value_sz: usize, dty: u16, mode: u32) -> (r: OciCall)
    ensures
        r == (OciCall::DefineByPos { stmt: stmtp.addr(), err: errhp.addr(), pos: position, dty, size: value_sz, mode }),
{
    OciCall::DefineByPos { stmt: stmtp.get(), err: errhp.get(), pos: position, dty, size: value_sz, mode }
}

/// `OCILobCopy2`.
pub fn lob_copy(svchp: Ptr<OCISvcCtx>, errhp: Ptr<OCIError>, dst: Ptr<OCILobLocator>, src: Ptr<OCILobLocator>, amount: u64, dst_off: u64, src_off: u64) -> (r: OciCall)
    ensures
        r == (OciCall::LobCopy { svc: svchp.addr(), err: errhp.addr(), dst: dst.addr(), src: src.addr(), amount, dst_off, src_off }),
{
    OciCall::LobCopy { svc: svchp.get(), err: errhp.get(), dst: dst.get(), src: src.get(), amount, dst_off, src_off }
}

/// `OCILobCreateTemporary`.
pub fn lob_create_temporary(svchp: Ptr<OCISvcCtx>, errhp: Ptr<OCIError>, loc: Ptr<OCILobLocator>, csid: u16, csfrm: u8, lob_type: u8, cache: u8, duration: u16) -> (r: OciCall)
    ensures
        r == (OciCall::LobCreateTemporary { svc: svchp.addr(), err: errhp.addr(), loc: loc.addr(), csid, csfrm, lob_type, cache, duration }),
{
    OciCall::LobCreateTemporary { svc: svchp.get(), err: errhp.get(), loc: loc.get(), csid, csfrm, lob_type, cache, duration }
}

/// `OCILobErase2` of `amount` characters or bytes at the 1-based `offset`.
pub fn lob_erase(svchp: Ptr<OCISvcCtx>, errhp: Ptr<OCIError>, loc: Ptr<OCILobLocator>, amount: u64, offset: u64) -> (r: OciCall)
    ensures
        r == (OciCall::LobErase { svc: svchp.addr(), err: errhp.addr(), loc: loc.addr(), amount, offset }),
{
    OciCall::LobErase { svc: svchp.get(), err: errhp.get(), loc: loc.get(), amount, offset }
}

/// `OCILobFileGetName` into buffers of the given capacities.
pub fn lob_file_get_name(envhp: Ptr<OCIEnv>, errhp: Ptr<OCIError>, loc: Ptr<OCILobLocator>, dir_cap: u16, name_cap: u16) -> (r: OciCall)
    ensures
        r == (OciCall::LobFileGetName { env: envhp.addr(), err: errhp.addr(), loc: loc.addr(), dir_cap, name_cap }),
{
    OciCall::LobFileGetName { env: envhp.get(), err: errhp.get(), loc: loc.get(), dir_cap, name_cap }
}

/// `OCILobFileOpen` in the given mode.
pub fn lob_file_open(svchp: Ptr<OCISvcCtx>, errhp: Ptr<OCIError>, filep: Ptr<OCILobLocator>, mode: u8) -> (r: OciCall)
    ensures
        r == (OciCall::LobFileOpen { svc: svchp.addr(), err: errhp.addr(), loc: filep.addr(), mode }),
{
    OciCall::LobFileOpen { svc: svchp.get(), err: errhp.get(), loc: filep.get(), mode }
}

/// `OCILobFileSetName`.
pub fn lob_file_set_name(envhp: Ptr<OCIEnv>, errhp: Ptr<OCIError>, filep: Ptr<OCILobLocator>, dir: &str, filename: &str) -> (r: OciCall)
    ensures
        r matches OciCall::LobFileSetName { env, err, loc, dir: d, name }
            && env == envhp.addr() && err == errhp.addr() && loc == filep.addr()
            && d@ == dir@ && name@ == filename@,
{
    OciCall::LobFileSetName { env: envhp.get(), err: errhp.get(), loc: filep.get(), dir: dir.to_owned(), name: filename.to_owned() }
}

/// `OCILobGetContentType` into a buffer of capacity `cap`.
pub fn lob_get_content_type(envhp: Ptr<OCIEnv>, svchp: Ptr<OCISvcCtx>, errhp: Ptr<OCIError>, loc: Ptr<OCILobLocator>, cap: u32, mode: u32) -> (r: OciCall)
    ensures
        r == (OciCall::LobGetContentType { env: envhp.addr(), svc: svchp.addr(), err: errhp.addr(), loc: loc.addr(), cap, mode }),
{
    OciCall::LobGetContentType { env: envhp.get(), svc: svchp.get(), err: errhp.get(), loc: loc.get(), cap, mode }
}

/// `OCILobLoadFromFile2`.
pub fn lob_load_from_file(svchp: Ptr<OCISvcCtx>, errhp: Ptr<OCIError>, dst: Ptr<OCILobLocator>, src: Ptr<OCILobLocator>, amount: u64, dst_off: u64, src_off: u64) -> (r: OciCall)
    ensures
        r == (OciCall::LobLoadFromFile { svc: svchp.addr(), err: errhp.addr(), dst: dst.addr(), src: src.addr(), amount, dst_off, src_off }),
{
    OciCall::LobLoadFromFile { svc: svchp.get(), err: errhp.get(), dst: dst.get(), src: src.get(), amount, dst_off, src_off }
}

/// `OCILobOpen` in the given mode.
pub fn lob_open(svchp: Ptr<OCISvcCtx>, errhp: Ptr<OCIError>, loc: Ptr<OCILobLocator>, mode: u8) -> (r: OciCall)
    ensures
        r == (OciCall::LobOpen { svc: svchp.addr(), err: errhp.addr(), loc: loc.addr(), mode }),
{
    OciCall::LobOpen { svc: svchp.get(), err: errhp.get(), loc: loc.get(), mode }
}

/// `OCILobRead2`.
pub fn lob_read(svchp: Ptr<OCISvcCtx>, errhp: Ptr<OCIError>, loc: Ptr<OCILobLocator>, byte_cnt: u64, char_cnt: u64, offset: u64, buf_len: u64, piece: u8, csid: u16, csfrm: u8) -> (r: OciCall)
    ensures
        r == (OciCall::LobRead { svc: svchp.addr(), err: errhp.addr(), loc: loc.addr(), byte_amt: byte_cnt, char_amt: char_cnt, offset, buf_len, piece, csid, csfrm }),
{
    OciCall::LobRead { svc: svchp.get(), err: errhp.get(), loc: loc.get(), byte_amt: byte_cnt, char_amt: char_cnt, offset, buf_len, piece, csid, csfrm }
}

/// `OCILobSetContentType`.
pub fn lob_set_content_type(envhp: Ptr<OCIEnv>, svchp: Ptr<OCISvcCtx>, errhp: Ptr<OCIError>, loc: Ptr<OCILobLocator>, ctype: &str, mode: u32) -> (r: OciCall)
    ensures
        r matches OciCall::LobSetContentType { env, svc, err, loc: l, content_type, mode: m }
            && env == envhp.addr() && svc == svchp.addr() && err == errhp.addr() && l == loc.addr()
            && content_type@ == ctype@ && m == mode,
{
    OciCall::LobSetContentType { env: envhp.get(), svc: svchp.get(), err: errhp.get(), loc: loc.get(), content_type: ctype.to_owned(), mode }
}

/// `OCILobTrim2` to `len`.
pub fn lob_trim(svchp: Ptr<OCISvcCtx>, errhp: Ptr<OCIError>, loc: Ptr<OCILobLocator>, len: u64) -> (r: OciCall)
    ensures
        r == (OciCall::LobTrim { svc: svchp.addr(), err: errhp.addr(), loc: loc.addr(), len }),
{
    OciCall::LobTrim { svc: svchp.get(), err: errhp.get(), loc: loc.get(), len }
}

/// `OCILobWrite2`.
pub fn lob_write(svchp: Ptr<OCISvcCtx>, errhp: Ptr<OCIError>, loc: Ptr<OCILobLocator>, byte_cnt: u64, char_cnt: u64, offset: u64, buf_len: u64, piece: u8, csid: u16, csfrm: u8) -> (r: OciCall)
    ensures
        r == (OciCall::LobWrite { svc: svchp.addr(), err: errhp.addr(), loc: loc.addr(), byte_amt: byte_cnt, char_amt: char_cnt, offset, buf_len, piece, csid, csfrm }),
{
    OciCall::LobWrite { svc: svchp.get(), err: errhp.get(), loc: loc.get(), byte_amt: byte_cnt, char_amt: char_cnt, offset, buf_len, piece, csid, csfrm }
}

/// `OCILobWriteAppend2`.
pub fn lob_write_append(svchp: Ptr<OCISvcCtx>, errhp: Ptr<OCIError>, loc: Ptr<OCILobLocator>, byte_cnt: u64, char_cnt: u64, buf_len: u64, piece: u8, csid: u16, csfrm: u8) -> (r: OciCall)
    ensures
        r == (OciCall::LobWriteAppend { svc: svchp.addr(), err: errhp.addr(), loc: loc.addr(), byte_amt: byte_cnt, char_amt: char_cnt, buf_len, piece, csid, csfrm }),
{
    OciCall::LobWriteAppend { svc: svchp.get(), err: errhp.get(), loc: loc.get(), byte_amt: byte_cnt, char_amt: char_cnt, buf_len, piece, csid, csfrm }
}

} // verus!
