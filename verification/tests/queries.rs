use sibyl::oci::ptr::Ptr;
use sibyl::oci::{OCIEnv, OCIError, OCIStmt};
use sibyl::oci::call::{AttrKind, AttrValue, OciCall, OciValue, Reply, Step};
use sibyl::column::{buffer_kind, get_output_buffer_def, BufferKind, Column};
use sibyl::cursor::Cursor;
use sibyl::rows::{Row, Rows};
use sibyl::stmt::{Params, Position, Statement};
use sibyl::rowid::RowID;
use sibyl::fromsql::{check_conversion, FromSql, SqlTarget};
use sibyl::ptr::{ScopedMutPtr, ScopedPtr};

fn reply(status: i32, value: OciValue) -> Reply {
    Reply { status, value }
}

fn stmt() -> Ptr<OCIStmt> { Ptr::new(90) }
fn err() -> Ptr<OCIError> { Ptr::new(20) }

#[test]
fn column_types_choose_their_buffers() {
    assert!(matches!(buffer_kind(2), BufferKind::Number));
    assert!(matches!(buffer_kind(12), BufferKind::Date));
    assert!(matches!(buffer_kind(1), BufferKind::Text));
    assert!(matches!(buffer_kind(8), BufferKind::Text));
    assert!(matches!(buffer_kind(24), BufferKind::Binary));
    assert!(matches!(buffer_kind(23), BufferKind::Binary));
    assert!(matches!(buffer_kind(112), BufferKind::CLOB));
    assert!(matches!(buffer_kind(113), BufferKind::BLOB));
    assert!(matches!(buffer_kind(114), BufferKind::BFile));
    assert!(matches!(buffer_kind(104), BufferKind::Rowid));
    assert!(matches!(buffer_kind(116), BufferKind::Cursor));
    assert!(matches!(buffer_kind(100), BufferKind::Float));
    assert!(matches!(buffer_kind(101), BufferKind::Double));
    assert!(matches!(buffer_kind(187), BufferKind::Timestamp));
    assert!(matches!(buffer_kind(190), BufferKind::IntervalDS));
}

#[test]
fn output_buffers_are_defined_by_kind() {
    let p = std::mem::size_of::<usize>();
    assert_eq!(get_output_buffer_def(BufferKind::Text, 100), (94, 104));
    assert_eq!(get_output_buffer_def(BufferKind::Binary, 32768), (95, 32772));
    assert_eq!(get_output_buffer_def(BufferKind::Number, 22), (6, 22));
    assert_eq!(get_output_buffer_def(BufferKind::Date, 7), (156, 8));
    assert_eq!(get_output_buffer_def(BufferKind::Float, 4), (21, 4));
    assert_eq!(get_output_buffer_def(BufferKind::Double, 8), (22, 8));
    assert_eq!(get_output_buffer_def(BufferKind::CLOB, 0), (112, p));
    assert_eq!(get_output_buffer_def(BufferKind::Cursor, 0), (116, 0));
    assert_eq!(get_output_buffer_def(BufferKind::Undefined, 0), (0, 0));
}

fn described(pos: usize, param: usize) -> Column {
    match Column::described(pos, err(), &reply(0, OciValue::Ptr(param))) {
        Step::Done(Ok(c)) => c,
        _ => panic!("expected a column"),
    }
}

#[test]
fn varchar_column_setup() {
    assert!(matches!(Column::new(1, stmt(), err()), OciCall::ParamGet { stmt: 90, htype: 4, err: 20, pos: 1 }));
    let col = described(1, 300);
    assert!(col.is_null());
    assert!(!col.output_defined());
    assert_eq!(col.position(), 1);
    let (mut flow, call) = col.setup_output_buffer(stmt(), 10, err());
    assert!(matches!(call, OciCall::AttrGet { target: 300, htype: 53, attr: 2, kind: AttrKind::U16, err: 20 }));
    assert!(matches!(flow.resume(&reply(0, OciValue::U16(1))), Step::Call(OciCall::AttrGet { target: 300, attr: 1, .. })));
    assert!(matches!(flow.resume(&reply(0, OciValue::U16(30))), Step::Call(OciCall::StringResize { env: 10, err: 20, size: 30, buf: 0 })));
    assert!(matches!(flow.resume(&reply(0, OciValue::Ptr(400))), Step::Call(OciCall::DefineByPos { stmt: 90, pos: 1, dty: 94, size: 34, mode: 0, .. })));
    let col = match flow.resume(&reply(0, OciValue::Ptr(500))) {
        Step::Done(Ok(c)) => c,
        _ => panic!("expected the column"),
    };
    assert!(col.output_defined());
    assert!(matches!(col.get_column_buffer(), (BufferKind::Text, 400)));
    assert!(matches!(col.drop_output_buffer(10, 20), Some(OciCall::StringResize { size: 0, buf: 400, .. })));
}

#[test]
fn long_column_gets_default_buffer_and_can_grow() {
    let col = described(2, 301);
    let (mut flow, _) = col.setup_output_buffer(stmt(), 10, err());
    assert!(matches!(flow.resume(&reply(0, OciValue::U16(8))), Step::Call(OciCall::StringResize { size: 32768, .. })));
    assert!(matches!(flow.resume(&reply(0, OciValue::Ptr(401))), Step::Call(OciCall::DefineByPos { dty: 94, size: 32772, pos: 2, .. })));
    let col = match flow.resume(&reply(0, OciValue::Ptr(501))) {
        Step::Done(Ok(c)) => c,
        _ => panic!("expected the column"),
    };
    let (mut flow, _) = col.change_buffer_size(100000, stmt(), 10, err());
    assert!(matches!(flow.resume(&reply(0, OciValue::U16(8))), Step::Call(OciCall::StringResize { size: 100000, buf: 401, .. })));
    assert!(matches!(flow.resume(&reply(0, OciValue::Ptr(402))), Step::Call(OciCall::DefineByPos { size: 100004, .. })));
    assert!(matches!(flow.resume(&reply(0, OciValue::Ptr(501))), Step::Done(Ok(_))));
    let (mut flow, _) = col.change_buffer_size(1000, stmt(), 10, err());
    assert!(matches!(flow.resume(&reply(0, OciValue::U16(8))), Step::Done(Ok(_))));
}

#[test]
fn number_column_needs_no_allocation() {
    let col = described(3, 302);
    let (mut flow, _) = col.setup_output_buffer(stmt(), 10, err());
    assert!(matches!(flow.resume(&reply(0, OciValue::U16(2))), Step::Call(_)));
    assert!(matches!(flow.resume(&reply(0, OciValue::U16(22))), Step::Call(OciCall::DefineByPos { dty: 6, size: 22, pos: 3, .. })));
    let (mut flow, _) = col.setup_output_buffer(stmt(), 10, err());
    assert!(matches!(flow.resume(&reply(-1, OciValue::Nothing)), Step::Fail(_)));
    assert!(flow.cleanup().is_none());
}

#[test]
fn cursor_columns_are_set_up_in_order() {
    let c = Cursor::from_handle(stmt());
    let (mut flow, step) = c.setup_columns(10, err());
    assert!(matches!(step, Step::Call(OciCall::AttrGet { target: 90, htype: 4, attr: 18, kind: AttrKind::U32, .. })));
    assert!(matches!(flow.resume(&reply(0, OciValue::U32(2))), Step::Call(OciCall::ParamGet { pos: 1, .. })));
    assert!(matches!(flow.resume(&reply(0, OciValue::Ptr(301))), Step::Call(OciCall::ParamGet { pos: 2, .. })));
    assert!(matches!(flow.resume(&reply(0, OciValue::Ptr(302))), Step::Call(OciCall::AttrGet { target: 301, attr: 2, .. })));
    // first column: NUMBER(22)
    assert!(matches!(flow.resume(&reply(0, OciValue::U16(2))), Step::Call(_)));
    assert!(matches!(flow.resume(&reply(0, OciValue::U16(22))), Step::Call(OciCall::DefineByPos { pos: 1, .. })));
    assert!(matches!(flow.resume(&reply(0, OciValue::Ptr(601))), Step::Call(OciCall::AttrGet { target: 302, attr: 2, .. })));
    // second column: DATE
    assert!(matches!(flow.resume(&reply(0, OciValue::U16(12))), Step::Call(_)));
    assert!(matches!(flow.resume(&reply(0, OciValue::U16(7))), Step::Call(OciCall::DefineByPos { pos: 2, dty: 156, .. })));
    assert!(matches!(flow.resume(&reply(0, OciValue::Ptr(602))), Step::Call(OciCall::AttrGet { target: 301, attr: 4, kind: AttrKind::Text, .. })));
    assert!(matches!(flow.resume(&reply(0, OciValue::Text(String::from("ID")))), Step::Call(OciCall::AttrGet { target: 302, attr: 4, .. })));
    let cursor = match flow.resume(&reply(0, OciValue::Text(String::from("ID")))) {
        Step::Done(Ok(c)) => c,
        _ => panic!("expected the cursor"),
    };
    assert_eq!(cursor.get_cols().len(), 2);
    assert!(cursor.get_cols().iter().all(|c| c.output_defined()));
    assert!(matches!(cursor.get_cols()[0].get_column_buffer(), (BufferKind::Number, 0)));
    assert_eq!(cursor.col_index("ID"), Some(1));
    assert_eq!(cursor.col_index("NAME"), None);
    let (_, again) = cursor.setup_columns(10, err());
    assert!(matches!(again, Step::Done(Ok(_))));
}

#[test]
fn rows_stop_at_the_end() {
    let mut rows = Rows::new(0, stmt(), err());
    assert!(matches!(rows.next(), Step::Call(OciCall::StmtFetch { stmt: 90, nrows: 1, orient: 2, .. })));
    assert_eq!(rows.fetched(0).ok(), Some(true));
    assert_eq!(rows.fetched(1).ok(), Some(true));
    let e = rows.fetched(-1).err().unwrap();
    assert_eq!((e.handle, e.rc), (20, -1));
    assert_eq!(rows.fetched(100).ok(), Some(false));
    assert!(matches!(rows.next(), Step::Done(Ok(false))));
    assert!(matches!(rows.next(), Step::Done(Ok(false))));
}

#[test]
fn row_values_by_position() {
    let mut a = described(1, 301);
    a.fetched(0, 4);
    let b = described(2, 302);
    let row = Row::new(stmt(), err(), vec![a, b]);
    assert!(!row.is_null(0));
    assert!(row.is_null(1));
    assert!(row.is_null(2));
    assert!(matches!(row.get(0), Ok(Some(_))));
    assert!(matches!(row.get(1), Ok(None)));
    match row.get(5) {
        Err(e) => assert_eq!(e.to_string(), "column position is out of bounds"),
        _ => panic!("expected an error"),
    }
    assert!(matches!(row.get_rowid(Ptr::<OCIEnv>::new(10)), OciCall::DescriptorAlloc { env: 10, dtype: 54 }));
    match row.rowid_allocated(Ptr::new(10), &reply(0, OciValue::Ptr(700))) {
        Step::Call(OciCall::AttrGet { target: 90, attr: 19, kind: AttrKind::IntoDescriptor(700), .. }) => {},
        _ => panic!("expected the rowid read"),
    }
}

#[test]
fn rowid_is_initialized_when_its_bytes_are_set() {
    let mut mem = [0u8; 32];
    assert!(!RowID::is_initialized(&mem));
    mem[15] = 1;
    mem[26] = 1;
    assert!(!RowID::is_initialized(&mem));
    mem[25] = 3;
    assert!(RowID::is_initialized(&mem));
    let r = RowID::from(Ptr::new(5));
    assert!(matches!(r.to_string(err()), OciCall::RowidToChar { desc: 5, err: 20 }));
}

#[test]
fn statement_settings() {
    let mut s = Statement::new(stmt(), err());
    assert!(matches!(s.set_prefetch_rows(100), OciCall::AttrSet { target: 90, htype: 4, attr: 11, value: AttrValue::U32(100), .. }));
    assert!(matches!(s.column_count(), OciCall::AttrGet { attr: 18, kind: AttrKind::U32, .. }));
    assert!(matches!(s.row_count(), OciCall::AttrGet { attr: 457, kind: AttrKind::U64, .. }));
    assert_eq!(s.max_long_size(), 0);
    s.set_max_long_size(100000);
    assert_eq!(s.max_long_size(), 100000);
    assert!(matches!(s.release(), OciCall::StmtRelease { stmt: 90, err: 20, mode: 0 }));
    assert_eq!(3usize.index(), Some(3));
    assert_eq!(3usize.name(), None);
    assert_eq!("ID".index(), None);
    assert_eq!("ID".name(), Some("ID"));
}

#[test]
fn conversions_follow_the_buffer_kind() {
    assert!(check_conversion(String::target(), BufferKind::Number).is_ok());
    assert!(check_conversion(i64::target(), BufferKind::Number).is_ok());
    match check_conversion(i64::target(), BufferKind::Text) {
        Err(e) => assert_eq!(e.to_string(), "cannot convert"),
        _ => panic!("expected an error"),
    }
    assert!(check_conversion(SqlTarget::Timestamp, BufferKind::TimestampTZ).is_ok());
    assert!(check_conversion(SqlTarget::Real, BufferKind::IntervalYM).is_ok());
    assert!(check_conversion(SqlTarget::CLOB, BufferKind::BLOB).is_err());
}

#[test]
fn scoped_pointers_keep_their_address() {
    let p = ScopedPtr::new(Ptr::<OCIStmt>::new(7));
    assert_eq!(p.clone().get().get(), 7);
    let mut q = ScopedMutPtr::new(Ptr::<OCIStmt>::new(8));
    assert_eq!(q.get_mut().get(), 8);
    assert_eq!(q.clone().get_mut().get(), 8);
}

#[test]
fn setup_flows_tell_the_buffer_to_define() {
    let c = Cursor::from_handle(stmt());
    let (mut flow, _) = c.setup_columns(10, err());
    assert!(flow.buffer().is_none());
    flow.resume(&reply(0, OciValue::U32(1)));
    flow.resume(&reply(0, OciValue::Ptr(301)));
    assert!(matches!(flow.buffer(), Some((BufferKind::Undefined, 0))));
    flow.resume(&reply(0, OciValue::U16(112)));
    flow.resume(&reply(0, OciValue::U16(4000)));
    assert!(matches!(flow.buffer(), Some((BufferKind::CLOB, 0))));
    assert!(matches!(flow.resume(&reply(0, OciValue::Ptr(777))), Step::Call(OciCall::DefineByPos { dty: 112, .. })));
    assert!(matches!(flow.buffer(), Some((BufferKind::CLOB, 777))));
}

#[test]
fn each_distinct_column_name_maps_to_its_position() {
    let c = Cursor::from_handle(stmt());
    let (mut flow, _) = c.setup_columns(10, err());
    assert!(matches!(flow.resume(&reply(0, OciValue::U32(2))), Step::Call(OciCall::ParamGet { pos: 1, .. })));
    assert!(matches!(flow.resume(&reply(0, OciValue::Ptr(301))), Step::Call(OciCall::ParamGet { pos: 2, .. })));
    assert!(matches!(flow.resume(&reply(0, OciValue::Ptr(302))), Step::Call(_)));
    assert!(matches!(flow.resume(&reply(0, OciValue::U16(2))), Step::Call(_)));
    assert!(matches!(flow.resume(&reply(0, OciValue::U16(22))), Step::Call(OciCall::DefineByPos { pos: 1, .. })));
    assert!(matches!(flow.resume(&reply(0, OciValue::Ptr(601))), Step::Call(_)));
    assert!(matches!(flow.resume(&reply(0, OciValue::U16(2))), Step::Call(_)));
    assert!(matches!(flow.resume(&reply(0, OciValue::U16(22))), Step::Call(OciCall::DefineByPos { pos: 2, .. })));
    assert!(matches!(flow.resume(&reply(0, OciValue::Ptr(602))), Step::Call(OciCall::AttrGet { target: 301, attr: 4, .. })));
    assert!(matches!(flow.resume(&reply(0, OciValue::Text(String::from("ID")))), Step::Call(OciCall::AttrGet { target: 302, attr: 4, .. })));
    let cursor = match flow.resume(&reply(0, OciValue::Text(String::from("NAME")))) {
        Step::Done(Ok(c)) => c,
        _ => panic!("expected the cursor"),
    };
    assert_eq!(cursor.col_index("ID"), Some(0));
    assert_eq!(cursor.col_index("NAME"), Some(1));
    assert_eq!(cursor.col_index("OTHER"), None);
}

#[test]
fn statement_parameters_and_columns() {
    let mut st = Statement::new(stmt(), err());
    assert!(matches!(st.is_null(":COMMISSION_PCT"), Ok(true)));
    assert!(matches!(st.len_of("VAL"), Ok(0)));
    assert!(st.column(0).is_none());

    let mut params = Params::new(vec![String::from("COMMISSION_PCT"), String::from("VAL")]);
    params.set_result(1, 0, 4);
    st.set_params(params);
    assert!(matches!(st.is_null(":COMMISSION_PCT"), Ok(true)));
    assert!(matches!(st.is_null("VAL"), Ok(false)));
    assert!(matches!(st.len_of("VAL"), Ok(4)));
    assert!(matches!(st.len_of(1usize), Ok(4)));
    match st.len_of("OTHER") {
        Err(e) => assert_eq!(e.to_string(), "parameter not found"),
        _ => panic!("expected an error"),
    }
    match st.is_null(2usize) {
        Err(e) => assert_eq!(e.to_string(), "parameter not found"),
        _ => panic!("expected an error"),
    }

    st.set_columns(vec![described(1, 300)]);
    st.set_columns(vec![described(1, 301), described(2, 302)]);
    let info = st.column(0).expect("the first column");
    assert!(matches!(info.name(), OciCall::AttrGet { target: 300, htype: 53, attr: 4, kind: AttrKind::Text, err: 20 }));
    assert!(matches!(info.data_type(), OciCall::AttrGet { target: 300, attr: 2, kind: AttrKind::U16, .. }));
    assert!(st.column(1).is_none());
}
