//! The arguments that the D1 repositories bind to their statements: each
//! bound value becomes a JavaScript null, boolean, number or string.

use vstd::prelude::*;

use crate::plan::SqlValue;

verus! {

/// The lowercase hexadecimal digit of a nibble.
pub open spec fn hex_digit(n: u128) -> char {
    if n < 10 {
        (48 + n) as char
    } else {
        (87 + n) as char
    }
}

/// The index among the hexadecimal digits of position `i` of the hyphenated
/// form, whose hyphens stand at 8, 13, 18 and 23.
pub open spec fn uuid_digit_index(i: int) -> int {
    i - (if i > 8 { 1int } else { 0 }) - (if i > 13 { 1int } else { 0 }) - (if i > 18 { 1int } else { 0 }) - (
    if i > 23 {
        1int
    } else {
        0
    })
}

/// The hyphenated lowercase form of a UUID: its 32 hexadecimal digits, most
/// significant first, in groups of 8, 4, 4, 4 and 12 joined by hyphens.
pub open spec fn uuid_text(u: u128) -> Seq<char> {
    Seq::new(
        36,
        |i: int|
            if i == 8 || i == 13 || i == 18 || i == 23 {
                '-'
            } else {
                hex_digit((u >> ((124 - 4 * uuid_digit_index(i)) as u128)) & 15)
            },
    )
}

/// Calls `uuid::Uuid::from_u128` and its `Display`, which the uuid crate
/// documents as the hyphenated lowercase form.
#[verifier::external_body]
fn uuid_string(u: u128) -> (s: String)
    ensures
        s@ == uuid_text(u),
{
    uuid::Uuid::from_u128(u).to_string()
}

/// A value as D1 binds it.
#[derive(Debug, PartialEq, Eq)]
pub enum D1Arg {
    Null,
    Bool(bool),
    /// A number, bound as a JavaScript number.
    Int(i32),
    /// A number, bound as a JavaScript number.
    BigInt(i64),
    /// A number, bound as a JavaScript number.
    BigUnsigned(u64),
    Text(String),
}

/// Whether a value has a D1 binding: every kind but JSON documents.
pub open spec fn has_d1_arg(v: SqlValue) -> bool {
    !(v is Json)
}

/// The D1 binding of a value: `NULL` for an absent value, booleans and
/// numbers as they are, texts as they are, instants as chrono displays them,
/// and UUIDs in their hyphenated lowercase form.
pub open spec fn d1_arg_of(v: SqlValue) -> D1Arg {
    match v {
        SqlValue::Bool(Some(b)) => D1Arg::Bool(b),
        SqlValue::Int(Some(i)) => D1Arg::Int(i),
        SqlValue::BigInt(Some(i)) => D1Arg::BigInt(i),
        SqlValue::BigUnsigned(Some(u)) => D1Arg::BigUnsigned(u),
        SqlValue::Text(Some(s)) => D1Arg::Text(s),
        _ => D1Arg::Null,
    }
}

/// The D1 binding of a value. A JSON document has none.
pub fn d1_arg(v: &SqlValue) -> (r: D1Arg)
    requires
        has_d1_arg(*v),
    ensures
        match *v {
            SqlValue::DateTime(Some(t)) => r matches D1Arg::Text(s) && s@ == t.spec_text(),
            SqlValue::Uuid(Some(u)) => r matches D1Arg::Text(s) && s@ == uuid_text(u),
            SqlValue::Text(Some(s)) => r matches D1Arg::Text(x) && x@ == s@,
            _ => r == d1_arg_of(*v),
        },
{
    match v {
        SqlValue::Bool(Some(b)) => D1Arg::Bool(*b),
        SqlValue::Int(Some(i)) => D1Arg::Int(*i),
        SqlValue::BigInt(Some(i)) => D1Arg::BigInt(*i),
        SqlValue::BigUnsigned(Some(u)) => D1Arg::BigUnsigned(*u),
        SqlValue::Text(Some(s)) => D1Arg::Text(s.clone()),
        SqlValue::DateTime(Some(t)) => D1Arg::Text(t.to_text()),
        SqlValue::Uuid(Some(u)) => D1Arg::Text(uuid_string(*u)),
        _ => D1Arg::Null,
    }
}

/// The D1 bindings of the values of a statement, in order.
pub fn d1_args(values: &Vec<SqlValue>) -> (r: Vec<D1Arg>)
    requires
        forall|i: int| 0 <= i < values@.len() ==> has_d1_arg(#[trigger] values@[i]),
    ensures
        r@.len() == values@.len(),
        forall|i: int|
            0 <= i < values@.len() ==> match values@[i] {
                SqlValue::DateTime(Some(t)) => #[trigger] r@[i] matches D1Arg::Text(s) && s@ == t.spec_text(),
                SqlValue::Uuid(Some(u)) => r@[i] matches D1Arg::Text(s) && s@ == uuid_text(u),
                SqlValue::Text(Some(s)) => r@[i] matches D1Arg::Text(x) && x@ == s@,
                _ => r@[i] == d1_arg_of(values@[i]),
            },
{
    let mut r: Vec<D1Arg> = Vec::new();
    let mut i: usize = 0;
    while i < values.len()
        invariant
            i <= values@.len(),
            r@.len() == i,
            forall|k: int| 0 <= k < values@.len() ==> has_d1_arg(#[trigger] values@[k]),
            forall|k: int|
                0 <= k < i ==> match values@[k] {
                    SqlValue::DateTime(Some(t)) => #[trigger] r@[k] matches D1Arg::Text(s) && s@ == t.spec_text(),
                    SqlValue::Uuid(Some(u)) => r@[k] matches D1Arg::Text(s) && s@ == uuid_text(u),
                    SqlValue::Text(Some(s)) => r@[k] matches D1Arg::Text(x) && x@ == s@,
                    _ => r@[k] == d1_arg_of(values@[k]),
                },
        decreases values.len() - i,
    {
        let a = d1_arg(&values[i]);
        r.push(a);
        i = i + 1;
    }
    r
}

} // verus!
