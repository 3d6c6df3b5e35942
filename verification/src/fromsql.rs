//! Which Rust values a column's value can be read as.

use vstd::prelude::*;
use vstd::string::*;
use crate::err::Error;
use crate::column::{kind_of, BufferKind};
use crate::cursor::Cursor;
use crate::lob::{BFile, BLOB, CLOB};

verus! {

/// The kinds of Rust values a column value is read as.
#[derive(Clone, Copy)]
pub enum SqlTarget {
    Text,
    Str,
    Bytes,
    Integer,
    Real,
    Number,
    Date,
    Timestamp,
    TimestampTZ,
    TimestampLTZ,
    IntervalYM,
    IntervalDS,
    Cursor,
    CLOB,
    BLOB,
    BFile,
}

/// Whether a value fetched into a buffer of the kind can be read as the target: text
/// takes the textual forms of numbers, dates, timestamps, intervals and floats too;
/// reals and numbers take floats and intervals; each timestamp takes the others.
pub open spec fn converts(target: SqlTarget, kind: BufferKind) -> bool {
    match target {
        SqlTarget::Text => match kind {
            BufferKind::Text | BufferKind::Number | BufferKind::Date | BufferKind::Timestamp
            | BufferKind::TimestampTZ | BufferKind::TimestampLTZ | BufferKind::IntervalYM
            | BufferKind::IntervalDS | BufferKind::Float | BufferKind::Double => true,
            _ => false,
        },
        SqlTarget::Str => kind is Text,
        SqlTarget::Bytes => kind is Binary,
        SqlTarget::Integer => kind is Number,
        SqlTarget::Real | SqlTarget::Number => match kind {
            BufferKind::Number | BufferKind::Float | BufferKind::Double | BufferKind::IntervalYM
            | BufferKind::IntervalDS => true,
            _ => false,
        },
        SqlTarget::Date => kind is Date,
        SqlTarget::Timestamp | SqlTarget::TimestampTZ | SqlTarget::TimestampLTZ => match kind {
            BufferKind::Timestamp | BufferKind::TimestampTZ | BufferKind::TimestampLTZ => true,
            _ => false,
        },
        SqlTarget::IntervalYM => kind is IntervalYM,
        SqlTarget::IntervalDS => kind is IntervalDS,
        SqlTarget::Cursor => kind is Cursor,
        SqlTarget::CLOB => kind is CLOB,
        SqlTarget::BLOB => kind is BLOB,
        SqlTarget::BFile => kind is BFile,
    }
}

/// A value is read as the Rust type of its own SQL type: a column of each SQL type with a
/// buffer of its own converts to the matching target, and every column converts to text
/// except raw, LOB, ROWID and cursor columns. A DATE is read only from a DATE buffer, an
/// interval only from its own interval, a LOB or cursor only from its own kind.
pub proof fn lemma_columns_read_as_their_type(kind: BufferKind)
    ensures
        converts(SqlTarget::Date, kind_of(12)),
        converts(SqlTarget::Timestamp, kind_of(187)),
        converts(SqlTarget::TimestampTZ, kind_of(188)),
        converts(SqlTarget::TimestampLTZ, kind_of(232)),
        converts(SqlTarget::IntervalYM, kind_of(189)),
        converts(SqlTarget::IntervalDS, kind_of(190)),
        converts(SqlTarget::Number, kind_of(2)) && converts(SqlTarget::Integer, kind_of(2)) && converts(SqlTarget::Real, kind_of(2)),
        converts(SqlTarget::Real, kind_of(100)) && converts(SqlTarget::Real, kind_of(101)),
        converts(SqlTarget::Bytes, kind_of(23)),
        converts(SqlTarget::CLOB, kind_of(112)),
        converts(SqlTarget::BLOB, kind_of(113)),
        converts(SqlTarget::BFile, kind_of(114)),
        converts(SqlTarget::Cursor, kind_of(116)),
        converts(SqlTarget::Str, kind_of(1)) && converts(SqlTarget::Text, kind_of(1)),
        converts(SqlTarget::Date, kind) <==> kind == BufferKind::Date,
        converts(SqlTarget::IntervalYM, kind) <==> kind == BufferKind::IntervalYM,
        converts(SqlTarget::IntervalDS, kind) <==> kind == BufferKind::IntervalDS,
        converts(SqlTarget::Timestamp, kind) <==> (kind == BufferKind::Timestamp || kind == BufferKind::TimestampTZ || kind == BufferKind::TimestampLTZ),
        converts(SqlTarget::CLOB, kind) <==> kind == BufferKind::CLOB,
        converts(SqlTarget::BLOB, kind) <==> kind == BufferKind::BLOB,
        converts(SqlTarget::BFile, kind) <==> kind == BufferKind::BFile,
        converts(SqlTarget::Cursor, kind) <==> kind == BufferKind::Cursor,
        converts(SqlTarget::Text, kind) <==> !(kind == BufferKind::Binary || kind == BufferKind::CLOB || kind == BufferKind::BLOB
            || kind == BufferKind::BFile || kind == BufferKind::Rowid || kind == BufferKind::Cursor || kind == BufferKind::Undefined),
{
}

/// The message of a value that cannot be read as the requested type.
pub open spec fn cannot_convert_message() -> Seq<char> {
    seq!['c', 'a', 'n', 'n', 'o', 't', ' ', 'c', 'o', 'n', 'v', 'e', 'r', 't']
}

/// Checks that a value fetched into a buffer of the kind can be read as the target.
pub fn check_conversion(target: SqlTarget, kind: BufferKind) -> (r: Result<(), Error>)
    ensures
        converts(target, kind) ==> r is Ok,
        !converts(target, kind) ==> (r matches Err(Error::Interface(m)) && m@ == cannot_convert_message()),
{
    let ok = match target {
        SqlTarget::Text => match kind {
            BufferKind::Text | BufferKind::Number | BufferKind::Date | BufferKind::Timestamp
            | BufferKind::TimestampTZ | BufferKind::TimestampLTZ | BufferKind::IntervalYM
            | BufferKind::IntervalDS | BufferKind::Float | BufferKind::Double => true,
            _ => false,
        },
        SqlTarget::Str => match kind { BufferKind::Text => true, _ => false },
        SqlTarget::Bytes => match kind { BufferKind::Binary => true, _ => false },
        SqlTarget::Integer => match kind { BufferKind::Number => true, _ => false },
        SqlTarget::Real | SqlTarget::Number => match kind {
            BufferKind::Number | BufferKind::Float | BufferKind::Double | BufferKind::IntervalYM
            | BufferKind::IntervalDS => true,
            _ => false,
        },
        SqlTarget::Date => match kind { BufferKind::Date => true, _ => false },
        SqlTarget::Timestamp | SqlTarget::TimestampTZ | SqlTarget::TimestampLTZ => match kind {
            BufferKind::Timestamp | BufferKind::TimestampTZ | BufferKind::TimestampLTZ => true,
            _ => false,
        },
        SqlTarget::IntervalYM => match kind { BufferKind::IntervalYM => true, _ => false },
        SqlTarget::IntervalDS => match kind { BufferKind::IntervalDS => true, _ => false },
        SqlTarget::Cursor => match kind { BufferKind::Cursor => true, _ => false },
        SqlTarget::CLOB => match kind { BufferKind::CLOB => true, _ => false },
        SqlTarget::BLOB => match kind { BufferKind::BLOB => true, _ => false },
        SqlTarget::BFile => match kind { BufferKind::BFile => true, _ => false },
    };
    if ok {
        Ok(())
    } else {
        proof { reveal_strlit("cannot convert"); }
        Err(Error::new("cannot convert"))
    }
}

/// A Rust type that column values are read as.
pub trait FromSql: Sized {
    /// The kind of value the type is.
    fn target() -> (r: SqlTarget);
}

impl FromSql for String {
    fn target() -> (r: SqlTarget) ensures r == SqlTarget::Text { SqlTarget::Text }
}

impl FromSql for Vec<u8> {
    fn target() -> (r: SqlTarget) ensures r == SqlTarget::Bytes { SqlTarget::Bytes }
}

impl FromSql for i8 {
    fn target() -> (r: SqlTarget) ensures r == SqlTarget::Integer { SqlTarget::Integer }
}

impl FromSql for i16 {
    fn target() -> (r: SqlTarget) ensures r == SqlTarget::Integer { SqlTarget::Integer }
}

impl FromSql for i32 {
    fn target() -> (r: SqlTarget) ensures r == SqlTarget::Integer { SqlTarget::Integer }
}

impl FromSql for i64 {
    fn target() -> (r: SqlTarget) ensures r == SqlTarget::Integer { SqlTarget::Integer }
}

impl FromSql for isize {
    fn target() -> (r: SqlTarget) ensures r == SqlTarget::Integer { SqlTarget::Integer }
}

impl FromSql for u8 {
    fn target() -> (r: SqlTarget) ensures r == SqlTarget::Integer { SqlTarget::Integer }
}

impl FromSql for u16 {
    fn target() -> (r: SqlTarget) ensures r == SqlTarget::Integer { SqlTarget::Integer }
}

impl FromSql for u32 {
    fn target() -> (r: SqlTarget) ensures r == SqlTarget::Integer { SqlTarget::Integer }
}

impl FromSql for u64 {
    fn target() -> (r: SqlTarget) ensures r == SqlTarget::Integer { SqlTarget::Integer }
}

impl FromSql for usize {
    fn target() -> (r: SqlTarget) ensures r == SqlTarget::Integer { SqlTarget::Integer }
}

impl FromSql for Cursor {
    fn target() -> (r: SqlTarget) ensures r == SqlTarget::Cursor { SqlTarget::Cursor }
}

impl FromSql for CLOB {
    fn target() -> (r: SqlTarget) ensures r == SqlTarget::CLOB { SqlTarget::CLOB }
}

impl FromSql for BLOB {
    fn target() -> (r: SqlTarget) ensures r == SqlTarget::BLOB { SqlTarget::BLOB }
}

impl FromSql for BFile {
    fn target() -> (r: SqlTarget) ensures r == SqlTarget::BFile { SqlTarget::BFile }
}

} // verus!
