use neo4j_nif::value::ElixirValue;
use neo4j_nif::wire::WireValue;

#[test]
fn null_converts_to_null() {
    assert_eq!(ElixirValue::from_bolt(WireValue::Null), ElixirValue::Null);
}

#[test]
fn booleans_convert_to_themselves() {
    assert_eq!(ElixirValue::from_bolt(WireValue::Boolean(true)), ElixirValue::Boolean(true));
    assert_eq!(ElixirValue::from_bolt(WireValue::Boolean(false)), ElixirValue::Boolean(false));
}

#[test]
fn integer_42_converts_to_integer_42() {
    assert_eq!(ElixirValue::from_bolt(WireValue::Integer(42)), ElixirValue::Integer(42));
}

#[test]
fn integer_limits_convert_to_themselves() {
    for n in [i64::MIN, -1, 0, 1, i64::MAX] {
        assert_eq!(ElixirValue::from_bolt(WireValue::Integer(n)), ElixirValue::Integer(n));
    }
}

#[test]
fn floats_keep_their_bits() {
    let value = ElixirValue::from_bolt(WireValue::Float(1.5f64.to_bits()));
    assert_eq!(value, ElixirValue::Float(1.5f64.to_bits()));
    match value {
        ElixirValue::Float(bits) => assert_eq!(f64::from_bits(bits), 1.5),
        other => panic!("not a float: {:?}", other),
    }
}

#[test]
fn float_nan_and_negative_zero_keep_their_bits() {
    let nan = f64::NAN.to_bits();
    assert_eq!(ElixirValue::from_bolt(WireValue::Float(nan)), ElixirValue::Float(nan));
    let negative_zero = (-0.0f64).to_bits();
    assert_eq!(
        ElixirValue::from_bolt(WireValue::Float(negative_zero)),
        ElixirValue::Float(negative_zero)
    );
    assert_ne!(
        ElixirValue::from_bolt(WireValue::Float(negative_zero)),
        ElixirValue::Float(0.0f64.to_bits())
    );
}

#[test]
fn strings_convert_to_themselves() {
    assert_eq!(
        ElixirValue::from_bolt(WireValue::String("héllo \"world\"".to_string())),
        ElixirValue::String("héllo \"world\"".to_string())
    );
    assert_eq!(
        ElixirValue::from_bolt(WireValue::String(String::new())),
        ElixirValue::String(String::new())
    );
}

#[test]
fn a_kept_value_converts_as_a_consumed_one() {
    let kept = WireValue::String("kept".to_string());
    let by_reference = ElixirValue::from_bolt_ref(&kept);
    assert_eq!(kept, WireValue::String("kept".to_string()));
    assert_eq!(by_reference, ElixirValue::from_bolt(kept));
}
