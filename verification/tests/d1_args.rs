use colette_repository::d1::{d1_arg, d1_args, D1Arg};
use colette_repository::plan::SqlValue;
use colette_repository::time::UtcDateTime;

#[test]
fn values_bind_as_javascript_values() {
    assert_eq!(d1_arg(&SqlValue::Bool(Some(true))), D1Arg::Bool(true));
    assert_eq!(d1_arg(&SqlValue::Int(None)), D1Arg::Null);
    assert_eq!(d1_arg(&SqlValue::BigInt(Some(-3))), D1Arg::BigInt(-3));
    assert_eq!(d1_arg(&SqlValue::BigUnsigned(Some(3))), D1Arg::BigUnsigned(3));
    assert_eq!(d1_arg(&SqlValue::Text(Some("x".into()))), D1Arg::Text("x".into()));
    assert_eq!(
        d1_arg(&SqlValue::DateTime(Some(UtcDateTime::from_timestamp(0, 0).unwrap()))),
        D1Arg::Text("1970-01-01 00:00:00 UTC".into())
    );
    assert_eq!(
        d1_arg(&SqlValue::Uuid(Some(0x0123456789abcdef0123456789abcdef))),
        D1Arg::Text("01234567-89ab-cdef-0123-456789abcdef".into())
    );
    assert_eq!(d1_arg(&SqlValue::Uuid(None)), D1Arg::Null);
}

#[test]
fn statement_values_bind_in_order() {
    let args = d1_args(&vec![SqlValue::Uuid(Some(1)), SqlValue::Text(None), SqlValue::Int(Some(5))]);
    assert_eq!(
        args,
        vec![D1Arg::Text("00000000-0000-0000-0000-000000000001".into()), D1Arg::Null, D1Arg::Int(5)]
    );
}
