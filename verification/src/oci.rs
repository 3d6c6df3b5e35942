//! Oracle OCI vocabulary: status codes, handle and descriptor types, attribute codes,
//! SQL data type codes and the marker types that stand for OCI handles.

pub mod ptr;
pub mod handle;
pub mod desc;
pub mod call;
pub mod calls;
pub mod attr;
pub mod param;
pub mod futures;
pub mod answer;

use vstd::prelude::*;

verus! {

pub const OCI_DEFAULT: u32 = 0;

// OCI status codes
pub const OCI_SUCCESS: i32 = 0;
pub const OCI_SUCCESS_WITH_INFO: i32 = 1;
pub const OCI_NEED_DATA: i32 = 99;
pub const OCI_NO_DATA: i32 = 100;
pub const OCI_ERROR: i32 = -1;
pub const OCI_INVALID_HANDLE: i32 = -2;
pub const OCI_STILL_EXECUTING: i32 = -3123;
pub const OCI_CONTINUE: i32 = -24200;

// Oracle error codes
pub const NO_DATA_FOUND: i32 = 1403;

// Attribute codes
pub const OCI_ATTR_ROW_COUNT: u32 = 9;
pub const OCI_ATTR_PREFETCH_ROWS: u32 = 11;
pub const OCI_ATTR_PARAM_COUNT: u32 = 18;
pub const OCI_ATTR_STMT_TYPE: u32 = 24;
pub const OCI_ATTR_STMTCACHESIZE: u32 = 176;
pub const OCI_ATTR_BIND_COUNT: u32 = 190;
pub const OCI_ATTR_ROWS_FETCHED: u32 = 197;
pub const OCI_ATTR_STMT_IS_RETURNING: u32 = 218;
pub const OCI_ATTR_UB8_ROW_COUNT: u32 = 457;
pub const OCI_ATTR_INVISIBLE_COL: u32 = 461;
pub const OCI_ATTR_CALL_TIMEOUT: u32 = 531;

// Handle types
pub const OCI_HTYPE_ENV: u32 = 1;
pub const OCI_HTYPE_ERROR: u32 = 2;
pub const OCI_HTYPE_SVCCTX: u32 = 3;
pub const OCI_HTYPE_STMT: u32 = 4;
pub const OCI_HTYPE_BIND: u32 = 5;
pub const OCI_HTYPE_DEFINE: u32 = 6;
pub const OCI_HTYPE_DESCRIBE: u32 = 7;
pub const OCI_HTYPE_SERVER: u32 = 8;
pub const OCI_HTYPE_SESSION: u32 = 9;
pub const OCI_HTYPE_AUTHINFO: u32 = 9;
pub const OCI_HTYPE_CPOOL: u32 = 26;
pub const OCI_HTYPE_SPOOL: u32 = 27;

// Descriptor types
pub const OCI_DTYPE_LOB: u32 = 50;
pub const OCI_DTYPE_RSET: u32 = 52;
pub const OCI_DTYPE_PARAM: u32 = 53;
pub const OCI_DTYPE_ROWID: u32 = 54;
pub const OCI_DTYPE_FILE: u32 = 56;
pub const OCI_DTYPE_LOCATOR: u32 = 61;
pub const OCI_DTYPE_INTERVAL_YM: u32 = 62;
pub const OCI_DTYPE_INTERVAL_DS: u32 = 63;
pub const OCI_DTYPE_TIMESTAMP: u32 = 68;
pub const OCI_DTYPE_TIMESTAMP_TZ: u32 = 69;
pub const OCI_DTYPE_TIMESTAMP_LTZ: u32 = 70;

// SQL data types
pub const SQLT_CHR: u16 = 1;
pub const SQLT_NUM: u16 = 2;
pub const SQLT_INT: u16 = 3;
pub const SQLT_FLT: u16 = 4;
pub const SQLT_STR: u16 = 5;
pub const SQLT_VNU: u16 = 6;
pub const SQLT_PDN: u16 = 7;
pub const SQLT_LNG: u16 = 8;
pub const SQLT_VCS: u16 = 9;
pub const SQLT_NON: u16 = 10;
pub const SQLT_RID: u16 = 11;
pub const SQLT_DAT: u16 = 12;
pub const SQLT_VBI: u16 = 15;
pub const SQLT_BFLOAT: u16 = 21;
pub const SQLT_BDOUBLE: u16 = 22;
pub const SQLT_BIN: u16 = 23;
pub const SQLT_LBI: u16 = 24;
pub const SQLT_UIN: u16 = 68;
pub const SQLT_SLS: u16 = 91;
pub const SQLT_LVC: u16 = 94;
pub const SQLT_LVB: u16 = 95;
pub const SQLT_AFC: u16 = 96;
pub const SQLT_AVC: u16 = 97;
pub const SQLT_IBFLOAT: u16 = 100;
pub const SQLT_IBDOUBLE: u16 = 101;
pub const SQLT_CUR: u16 = 102;
pub const SQLT_RDD: u16 = 104;
pub const SQLT_LAB: u16 = 105;
pub const SQLT_OSL: u16 = 106;
pub const SQLT_NTY: u16 = 108;
pub const SQLT_REF: u16 = 110;
pub const SQLT_CLOB: u16 = 112;
pub const SQLT_BLOB: u16 = 113;
pub const SQLT_BFILE: u16 = 114;
pub const SQLT_CFILE: u16 = 115;
pub const SQLT_RSET: u16 = 116;
pub const SQLT_NCO: u16 = 122;
pub const SQLT_VST: u16 = 155;
pub const SQLT_ODT: u16 = 156;
pub const SQLT_DATE: u16 = 184;
pub const SQLT_TIME: u16 = 185;
pub const SQLT_TIME_TZ: u16 = 186;
pub const SQLT_TIMESTAMP: u16 = 187;
pub const SQLT_TIMESTAMP_TZ: u16 = 188;
pub const SQLT_INTERVAL_YM: u16 = 189;
pub const SQLT_INTERVAL_DS: u16 = 190;
pub const SQLT_TIMESTAMP_LTZ: u16 = 232;
pub const SQLT_PNTY: u16 = 241;
pub const SQLT_REC: u16 = 250;
pub const SQLT_TAB: u16 = 251;
pub const SQLT_BOL: u16 = 252;

// Null indicators
pub const OCI_IND_NOTNULL: i16 = 0;
pub const OCI_IND_NULL: i16 = -1;

// Character set forms
pub const SQLCS_IMPLICIT: u8 = 1;
pub const SQLCS_NCHAR: u8 = 2;

// Object durations
pub const OCI_DURATION_SESSION: u16 = 10;
pub const OCI_DURATION_STATEMENT: u16 = 13;

// Character sets
pub const AL32UTF8: u16 = 873;
pub const UTF8: u16 = 871;

// Initialization modes
pub const OCI_THREADED: u32 = 1;
pub const OCI_OBJECT: u32 = 2;

pub const OCI_ATTR_CACHE_OPT_SIZE: u32 = 34;
pub const OCI_ATTR_CACHE_MAX_SIZE: u32 = 35;
pub const OCI_ATTR_ENV_NLS_LANGUAGE: u32 = 424;
pub const OCI_ATTR_ENV_NLS_TERRITORY: u32 = 425;

// Credential types
pub const OCI_CRED_RDBMS: u32 = 1;
pub const OCI_CRED_EXT: u32 = 2;

// Session pool creation modes
pub const OCI_SPC_REINITIALIZE: u32 = 0x0001;
pub const OCI_SPC_HOMOGENEOUS: u32 = 0x0002;
pub const OCI_SPC_STMTCACHE: u32 = 0x0004;
pub const OCI_SPC_NO_RLB: u32 = 0x0008;

// Session pool destruction modes
pub const OCI_SPD_FORCE: u32 = 0x0001;

// Session pool "get" modes
pub const OCI_SPOOL_ATTRVAL_WAIT: u8 = 0;
pub const OCI_SPOOL_ATTRVAL_NOWAIT: u8 = 1;
pub const OCI_SPOOL_ATTRVAL_FORCEGET: u8 = 2;
pub const OCI_SPOOL_ATTRVAL_TIMEDWAIT: u8 = 3;

// OCISessionGet modes
pub const OCI_SESSGET_SPOOL: u32 = 0x0001;
pub const OCI_SESSGET_STMTCACHE: u32 = 0x0004;
pub const OCI_SESSGET_SPOOL_MATCHANY: u32 = 0x0020;
pub const OCI_SESSGET_PURITY_NEW: u32 = 0x0040;
pub const OCI_SESSGET_PURITY_SELF: u32 = 0x0080;
pub const OCI_SESSGET_SYSDBA: u32 = 0x0100;
pub const OCI_SESSGET_CPOOL: u32 = 0x0200;
pub const OCI_SESSGET_MULTIPROPERTY_TAG: u32 = 0x0400;

// Server and session attributes
pub const OCI_SERVER_NORMAL: u32 = 1;
pub const OCI_ATTR_NONBLOCKING_MODE: u32 = 3;
pub const OCI_ATTR_SERVER: u32 = 6;
pub const OCI_ATTR_SESSION: u32 = 7;
pub const OCI_ATTR_ROWID: u32 = 19;
pub const OCI_ATTR_USERNAME: u32 = 22;
pub const OCI_ATTR_PASSWORD: u32 = 23;
pub const OCI_ATTR_LOBEMPTY: u32 = 45;
pub const OCI_ATTR_SERVER_STATUS: u32 = 143;
pub const OCI_ATTR_CURRENT_SCHEMA: u32 = 224;
pub const OCI_ATTR_CLIENT_IDENTIFIER: u32 = 278;
pub const OCI_ATTR_MODULE: u32 = 366;
pub const OCI_ATTR_ACTION: u32 = 367;
pub const OCI_ATTR_CLIENT_INFO: u32 = 368;
pub const OCI_ATTR_COLLECT_CALL_TIME: u32 = 369;
pub const OCI_ATTR_CALL_TIME: u32 = 370;
pub const OCI_ATTR_DRIVER_NAME: u32 = 424;
pub const OCI_ATTR_DEFAULT_LOBPREFETCH_SIZE: u32 = 438;
pub const OCI_ATTR_FIXUP_CALLBACK: u32 = 501;
pub const OCI_ATTR_LOB_REMOTE: u32 = 520;
pub const OCI_ATTR_LOB_TYPE: u32 = 591;

// Session pool attributes
pub const OCI_ATTR_SPOOL_STMTCACHESIZE: u32 = 208;
pub const OCI_ATTR_SPOOL_TIMEOUT: u32 = 308;
pub const OCI_ATTR_SPOOL_GETMODE: u32 = 309;
pub const OCI_ATTR_SPOOL_BUSY_COUNT: u32 = 310;
pub const OCI_ATTR_SPOOL_OPEN_COUNT: u32 = 311;
pub const OCI_ATTR_SPOOL_AUTH: u32 = 460;
pub const OCI_ATTR_SPOOL_MAX_LIFETIME_SESSION: u32 = 490;
pub const OCI_ATTR_SPOOL_WAIT_TIMEOUT: u32 = 506;
pub const OCI_ATTR_SPOOL_MAX_USE_SESSION: u32 = 580;

// Connection pool attributes
pub const OCI_ATTR_CONN_NOWAIT: u32 = 178;
pub const OCI_ATTR_CONN_BUSY_COUNT: u32 = 179;
pub const OCI_ATTR_CONN_OPEN_COUNT: u32 = 180;
pub const OCI_ATTR_CONN_TIMEOUT: u32 = 181;
pub const OCI_ATTR_STMT_STATE: u32 = 182;
pub const OCI_ATTR_CONN_MIN: u32 = 183;
pub const OCI_ATTR_CONN_MAX: u32 = 184;
pub const OCI_ATTR_CONN_INCR: u32 = 185;

pub const OCI_ERROR_MAXMSG_SIZE: usize = 3072;

pub const OCI_FETCH_NEXT: u16 = 2;

pub const OCI_TEMP_BLOB: u8 = 1;
pub const OCI_TEMP_CLOB: u8 = 2;

pub const OCI_FILE_READONLY: u8 = 1;
pub const OCI_LOB_READONLY: u8 = 1;
pub const OCI_LOB_READWRITE: u8 = 2;

pub const OCI_ONE_PIECE: u8 = 0;
pub const OCI_FIRST_PIECE: u8 = 1;
pub const OCI_NEXT_PIECE: u8 = 2;
pub const OCI_LAST_PIECE: u8 = 3;

pub const OCI_LOB_CONTENTTYPE_MAXSIZE: usize = 128;

// Parsing syntax
pub const OCI_NTV_SYNTAX: u32 = 1;

// Statement types
pub const OCI_STMT_SELECT: u16 = 1;

// Column and argument attributes
pub const OCI_ATTR_DATA_SIZE: u32 = 1;
pub const OCI_ATTR_DATA_TYPE: u32 = 2;
pub const OCI_ATTR_NAME: u32 = 4;
pub const OCI_ATTR_PRECISION: u32 = 5;
pub const OCI_ATTR_SCALE: u32 = 6;
pub const OCI_ATTR_IS_NULL: u32 = 7;
pub const OCI_ATTR_TYPE_NAME: u32 = 8;
pub const OCI_ATTR_SCHEMA_NAME: u32 = 9;
pub const OCI_ATTR_CHARSET_FORM: u32 = 32;
pub const OCI_ATTR_COL_PROPERTIES: u32 = 104;
pub const OCI_ATTR_CHAR_SIZE: u32 = 286;

pub const OCI_ATTR_COL_PROPERTY_IS_IDENTITY: u8 = 0x01;
pub const OCI_ATTR_COL_PROPERTY_IS_GEN_ALWAYS: u8 = 0x02;
pub const OCI_ATTR_COL_PROPERTY_IS_GEN_BY_DEF_ON_NULL: u8 = 0x04;

// Handle markers: OCI owns the memory behind these; the library only refers to them.
pub struct OCIEnv { _private: [u8; 0] }
pub struct OCIError { _private: [u8; 0] }
pub struct OCISvcCtx { _private: [u8; 0] }
pub struct OCIStmt { _private: [u8; 0] }
pub struct OCIBind { _private: [u8; 0] }
pub struct OCIDefine { _private: [u8; 0] }
pub struct OCIDescribe { _private: [u8; 0] }
pub struct OCIServer { _private: [u8; 0] }
pub struct OCISession { _private: [u8; 0] }
pub struct OCIRaw { _private: [u8; 0] }
pub struct OCIAuthInfo { _private: [u8; 0] }
pub struct OCISPool { _private: [u8; 0] }
pub struct OCICPool { _private: [u8; 0] }

// Descriptor markers
pub struct OCIResult { _private: [u8; 0] }
pub struct OCILobLocator { _private: [u8; 0] }
pub struct OCILobRegion { _private: [u8; 0] }
pub struct OCIParam { _private: [u8; 0] }
pub struct OCIRowid { _private: [u8; 0] }
pub struct OCIDateTime { _private: [u8; 0] }
pub struct OCIInterval { _private: [u8; 0] }
pub struct OCIString { _private: [u8; 0] }

// Virtual descriptors: they select the descriptor type of a LOB, datetime or interval.
pub struct OCICLobLocator {}
pub struct OCIBLobLocator {}
pub struct OCIBFileLocator {}
pub struct OCITimestamp {}
pub struct OCITimestampTZ {}
pub struct OCITimestampLTZ {}
pub struct OCIIntervalYearToMonth {}
pub struct OCIIntervalDayToSecond {}

/// Marker trait for OCI handles and descriptors.
pub trait OCIStruct {}

impl OCIStruct for OCIEnv {}
impl OCIStruct for OCIError {}
impl OCIStruct for OCISvcCtx {}
impl OCIStruct for OCIStmt {}
impl OCIStruct for OCIBind {}
impl OCIStruct for OCIDefine {}
impl OCIStruct for OCIDescribe {}
impl OCIStruct for OCIServer {}
impl OCIStruct for OCISession {}
impl OCIStruct for OCIAuthInfo {}
impl OCIStruct for OCISPool {}
impl OCIStruct for OCICPool {}
impl OCIStruct for OCIResult {}
impl OCIStruct for OCILobLocator {}
impl OCIStruct for OCILobRegion {}
impl OCIStruct for OCIParam {}
impl OCIStruct for OCIRowid {}
impl OCIStruct for OCIDateTime {}
impl OCIStruct for OCIInterval {}
impl OCIStruct for OCIString {}
impl OCIStruct for OCIRaw {}
impl OCIStruct for OCICLobLocator {}
impl OCIStruct for OCIBLobLocator {}
impl OCIStruct for OCIBFileLocator {}
impl OCIStruct for OCITimestamp {}
impl OCIStruct for OCITimestampTZ {}
impl OCIStruct for OCITimestampLTZ {}
impl OCIStruct for OCIIntervalYearToMonth {}
impl OCIStruct for OCIIntervalDayToSecond {}
impl OCIStruct for OCINumber {}
impl OCIStruct for OCIDate {}

/// Handles know their OCI handle type code.
pub trait HandleType: OCIStruct {
    spec fn htype() -> u32;

    fn get_type() -> (r: u32)
        ensures
            r == Self::htype(),
    ;
}

impl HandleType for OCIEnv {
    open spec fn htype() -> u32 { OCI_HTYPE_ENV }
    fn get_type() -> (r: u32) { OCI_HTYPE_ENV }
}

impl HandleType for OCIError {
    open spec fn htype() -> u32 { OCI_HTYPE_ERROR }
    fn get_type() -> (r: u32) { OCI_HTYPE_ERROR }
}

impl HandleType for OCISvcCtx {
    open spec fn htype() -> u32 { OCI_HTYPE_SVCCTX }
    fn get_type() -> (r: u32) { OCI_HTYPE_SVCCTX }
}

impl HandleType for OCIStmt {
    open spec fn htype() -> u32 { OCI_HTYPE_STMT }
    fn get_type() -> (r: u32) { OCI_HTYPE_STMT }
}

impl HandleType for OCIBind {
    open spec fn htype() -> u32 { OCI_HTYPE_BIND }
    fn get_type() -> (r: u32) { OCI_HTYPE_BIND }
}

impl HandleType for OCIDefine {
    open spec fn htype() -> u32 { OCI_HTYPE_DEFINE }
    fn get_type() -> (r: u32) { OCI_HTYPE_DEFINE }
}

impl HandleType for OCIDescribe {
    open spec fn htype() -> u32 { OCI_HTYPE_DESCRIBE }
    fn get_type() -> (r: u32) { OCI_HTYPE_DESCRIBE }
}

impl HandleType for OCIServer {
    open spec fn htype() -> u32 { OCI_HTYPE_SERVER }
    fn get_type() -> (r: u32) { OCI_HTYPE_SERVER }
}

impl HandleType for OCISession {
    open spec fn htype() -> u32 { OCI_HTYPE_SESSION }
    fn get_type() -> (r: u32) { OCI_HTYPE_SESSION }
}

impl HandleType for OCIAuthInfo {
    open spec fn htype() -> u32 { OCI_HTYPE_AUTHINFO }
    fn get_type() -> (r: u32) { OCI_HTYPE_AUTHINFO }
}

impl HandleType for OCICPool {
    open spec fn htype() -> u32 { OCI_HTYPE_CPOOL }
    fn get_type() -> (r: u32) { OCI_HTYPE_CPOOL }
}

impl HandleType for OCISPool {
    open spec fn htype() -> u32 { OCI_HTYPE_SPOOL }
    fn get_type() -> (r: u32) { OCI_HTYPE_SPOOL }
}

/// Bindable values know the SQLT code they are bound as.
pub trait SqlType {
    spec fn sqlt() -> u16;

    /// Returns SQLT type code
    fn sql_type() -> (r: u16)
        ensures
            r == Self::sqlt(),
    ;

    /// Returns SQLT code for the NULL of the type
    fn sql_null_type() -> (r: u16)
        ensures
            r == Self::sqlt(),
    {
        Self::sql_type()
    }
}

/// Descriptors know their OCI descriptor type code and the OCI structure they point to.
pub trait DescriptorType: OCIStruct + SqlType {
    type OCIType: OCIStruct;

    spec fn dtype() -> u32;

    fn get_type() -> (r: u32)
        ensures
            r == Self::dtype(),
    ;
}

impl SqlType for OCICLobLocator {
    open spec fn sqlt() -> u16 { SQLT_CLOB }
    fn sql_type() -> (r: u16) { SQLT_CLOB }
}

impl DescriptorType for OCICLobLocator {
    type OCIType = OCILobLocator;
    open spec fn dtype() -> u32 { OCI_DTYPE_LOB }
    fn get_type() -> (r: u32) { OCI_DTYPE_LOB }
}

impl SqlType for OCIBLobLocator {
    open spec fn sqlt() -> u16 { SQLT_BLOB }
    fn sql_type() -> (r: u16) { SQLT_BLOB }
}

impl DescriptorType for OCIBLobLocator {
    type OCIType = OCILobLocator;
    open spec fn dtype() -> u32 { OCI_DTYPE_LOB }
    fn get_type() -> (r: u32) { OCI_DTYPE_LOB }
}

impl SqlType for OCIBFileLocator {
    open spec fn sqlt() -> u16 { SQLT_BFILE }
    fn sql_type() -> (r: u16) { SQLT_BFILE }
}

impl DescriptorType for OCIBFileLocator {
    type OCIType = OCILobLocator;
    open spec fn dtype() -> u32 { OCI_DTYPE_FILE }
    fn get_type() -> (r: u32) { OCI_DTYPE_FILE }
}

impl SqlType for OCIParam {
    open spec fn sqlt() -> u16 { SQLT_NON }
    fn sql_type() -> (r: u16) { SQLT_NON }
}

impl DescriptorType for OCIParam {
    type OCIType = OCIParam;
    open spec fn dtype() -> u32 { OCI_DTYPE_PARAM }
    fn get_type() -> (r: u32) { OCI_DTYPE_PARAM }
}

impl SqlType for OCIRowid {
    open spec fn sqlt() -> u16 { SQLT_RDD }
    fn sql_type() -> (r: u16) { SQLT_RDD }
}

impl DescriptorType for OCIRowid {
    type OCIType = OCIRowid;
    open spec fn dtype() -> u32 { OCI_DTYPE_ROWID }
    fn get_type() -> (r: u32) { OCI_DTYPE_ROWID }
}

impl SqlType for OCITimestamp {
    open spec fn sqlt() -> u16 { SQLT_TIMESTAMP }
    fn sql_type() -> (r: u16) { SQLT_TIMESTAMP }
}

impl DescriptorType for OCITimestamp {
    type OCIType = OCIDateTime;
    open spec fn dtype() -> u32 { OCI_DTYPE_TIMESTAMP }
    fn get_type() -> (r: u32) { OCI_DTYPE_TIMESTAMP }
}

impl SqlType for OCITimestampTZ {
    open spec fn sqlt() -> u16 { SQLT_TIMESTAMP_TZ }
    fn sql_type() -> (r: u16) { SQLT_TIMESTAMP_TZ }
}

impl DescriptorType for OCITimestampTZ {
    type OCIType = OCIDateTime;
    open spec fn dtype() -> u32 { OCI_DTYPE_TIMESTAMP_TZ }
    fn get_type() -> (r: u32) { OCI_DTYPE_TIMESTAMP_TZ }
}

impl SqlType for OCITimestampLTZ {
    open spec fn sqlt() -> u16 { SQLT_TIMESTAMP_LTZ }
    fn sql_type() -> (r: u16) { SQLT_TIMESTAMP_LTZ }
}

impl DescriptorType for OCITimestampLTZ {
    type OCIType = OCIDateTime;
    open spec fn dtype() -> u32 { OCI_DTYPE_TIMESTAMP_LTZ }
    fn get_type() -> (r: u32) { OCI_DTYPE_TIMESTAMP_LTZ }
}

impl SqlType for OCIIntervalYearToMonth {
    open spec fn sqlt() -> u16 { SQLT_INTERVAL_YM }
    fn sql_type() -> (r: u16) { SQLT_INTERVAL_YM }
}

impl DescriptorType for OCIIntervalYearToMonth {
    type OCIType = OCIInterval;
    open spec fn dtype() -> u32 { OCI_DTYPE_INTERVAL_YM }
    fn get_type() -> (r: u32) { OCI_DTYPE_INTERVAL_YM }
}

impl SqlType for OCIIntervalDayToSecond {
    open spec fn sqlt() -> u16 { SQLT_INTERVAL_DS }
    fn sql_type() -> (r: u16) { SQLT_INTERVAL_DS }
}

impl DescriptorType for OCIIntervalDayToSecond {
    type OCIType = OCIInterval;
    open spec fn dtype() -> u32 { OCI_DTYPE_INTERVAL_DS }
    fn get_type() -> (r: u32) { OCI_DTYPE_INTERVAL_DS }
}

/// C mapping of the Oracle NUMBER
pub struct OCINumber {
    pub bytes: [u8; 22],
}

/// C mapping of the Oracle DATE type (SQLT_ODT)
#[derive(Clone, Copy)]
pub struct OCIDate {
    pub year: i16,
    pub month: u8,
    pub day: u8,
    pub hour: u8,
    pub min: u8,
    pub sec: u8,
}

/// Character set form
pub enum CharSetForm {
    Undefined,
    Implicit,
    NChar,
}

impl CharSetForm {
    /// The OCI code of the form.
    pub open spec fn code(self) -> u8 {
        match self {
            CharSetForm::Undefined => 0,
            CharSetForm::Implicit => 1,
            CharSetForm::NChar => 2,
        }
    }

    /// Maps the form that OCI reports to a `CharSetForm`; codes that are neither
    /// `SQLCS_IMPLICIT` nor `SQLCS_NCHAR` are `Undefined`.
    pub open spec fn spec_from_code(csform: u8) -> CharSetForm {
        if csform == SQLCS_IMPLICIT {
            CharSetForm::Implicit
        } else if csform == SQLCS_NCHAR {
            CharSetForm::NChar
        } else {
            CharSetForm::Undefined
        }
    }

    pub fn from_code(csform: u8) -> (r: CharSetForm)
        ensures
            r == Self::spec_from_code(csform),
    {
        if csform == SQLCS_IMPLICIT {
            CharSetForm::Implicit
        } else if csform == SQLCS_NCHAR {
            CharSetForm::NChar
        } else {
            CharSetForm::Undefined
        }
    }

    pub fn as_code(&self) -> (r: u8)
        ensures
            r == self.code(),
    {
        match self {
            CharSetForm::Undefined => 0,
            CharSetForm::Implicit => 1,
            CharSetForm::NChar => 2,
        }
    }
}

/// LOB cache control flags
pub enum Cache {
    No,
    Yes,
}

impl Cache {
    /// The OCI flag of the choice.
    pub open spec fn code(self) -> u8 {
        match self {
            Cache::No => 0,
            Cache::Yes => 1,
        }
    }

    pub fn as_code(&self) -> (r: u8)
        ensures
            r == self.code(),
    {
        match self {
            Cache::No => 0,
            Cache::Yes => 1,
        }
    }
}

} // verus!
