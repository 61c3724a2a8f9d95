use duckdb_value::datum::Datum;
use duckdb_value::logical_type::LogicalTypeId;
use duckdb_value::render;
use duckdb_value::value::Value;

#[test]
fn test_value_to_string() {
    let val = Value::from(Datum::Varchar(String::from("some value")));
    assert_eq!(val.to_string(), "some value");
}

#[test]
fn test_value_to_vec() {
    let list_items: Vec<i64> = vec![1, -200, 2381292];
    let val = Value::from(Datum::List(list_items.iter().map(|v| Datum::Bigint(*v)).collect()));

    let list = val.to_vec();
    assert_eq!(list.len(), list_items.len());
    assert_eq!(list.iter().map(|v| v.to_int64()).collect::<Vec<i64>>(), list_items);
}

#[test]
fn test_value_primitive_getters() {
    let bool_val = Value::from(Datum::Boolean(true));
    assert!(bool_val.to_bool());

    let i8_val = Value::from(Datum::Tinyint(-42));
    assert_eq!(i8_val.to_int8(), -42);

    let u8_val = Value::from(Datum::UTinyint(255));
    assert_eq!(u8_val.to_uint8(), 255);

    let i16_val = Value::from(Datum::Smallint(-1000));
    assert_eq!(i16_val.to_int16(), -1000);

    let u16_val = Value::from(Datum::USmallint(50000));
    assert_eq!(u16_val.to_uint16(), 50000);

    let i32_val = Value::from(Datum::Integer(-200000));
    assert_eq!(i32_val.to_int32(), -200000);

    let u32_val = Value::from(Datum::UInteger(4000000000));
    assert_eq!(u32_val.to_uint32(), 4000000000);

    let i64_val = Value::from(Datum::Bigint(-9000000000000000000));
    assert_eq!(i64_val.to_int64(), -9000000000000000000);

    let u64_val = Value::from(Datum::UBigint(18000000000000000000));
    assert_eq!(u64_val.to_uint64(), 18000000000000000000);

    let float_val = Value::from(Datum::Float(3.14f32.to_bits()));
    assert_eq!(f32::from_bits(float_val.to_float_bits()), 3.14);

    let double_val = Value::from(Datum::Double(2.71828f64.to_bits()));
    assert_eq!(f64::from_bits(double_val.to_double_bits()), 2.71828);
}

#[test]
fn test_value_is_null() {
    let null_val = Value::from(Datum::Null(LogicalTypeId::SqlNull));
    assert!(null_val.is_null());
}

#[test]
fn typed_null_is_null_and_keeps_its_type() {
    let val = Value::from(Datum::Null(LogicalTypeId::Bigint));
    assert!(val.is_null());
    assert_eq!(val.logical_type_id(), LogicalTypeId::Bigint);
    assert_eq!(val.to_string(), "NULL");
}

#[test]
fn non_null_values_are_not_null() {
    assert!(!Value::from(Datum::Integer(0)).is_null());
    assert!(!Value::from(Datum::Varchar(String::new())).is_null());
    assert!(!Value::from(Datum::List(vec![])).is_null());
}

#[test]
fn integer_bounds_round_trip() {
    assert_eq!(Value::from(Datum::Tinyint(i8::MIN)).to_int8(), -128);
    assert_eq!(Value::from(Datum::Tinyint(i8::MAX)).to_int8(), 127);
    assert_eq!(Value::from(Datum::UTinyint(u8::MIN)).to_uint8(), 0);
    assert_eq!(Value::from(Datum::UTinyint(u8::MAX)).to_uint8(), 255);
    assert_eq!(Value::from(Datum::Smallint(i16::MIN)).to_int16(), -32768);
    assert_eq!(Value::from(Datum::Smallint(i16::MAX)).to_int16(), 32767);
    assert_eq!(Value::from(Datum::USmallint(u16::MAX)).to_uint16(), 65535);
    assert_eq!(Value::from(Datum::Integer(i32::MIN)).to_int32(), -2147483648);
    assert_eq!(Value::from(Datum::Integer(i32::MAX)).to_int32(), 2147483647);
    assert_eq!(Value::from(Datum::UInteger(u32::MAX)).to_uint32(), 4294967295);
    assert_eq!(Value::from(Datum::Bigint(i64::MIN)).to_int64(), -9223372036854775808);
    assert_eq!(Value::from(Datum::Bigint(i64::MAX)).to_int64(), 9223372036854775807);
    assert_eq!(Value::from(Datum::UBigint(u64::MIN)).to_uint64(), 0);
    assert_eq!(Value::from(Datum::UBigint(u64::MAX)).to_uint64(), 18446744073709551615);
}

#[test]
fn bool_false_round_trips() {
    assert!(!Value::from(Datum::Boolean(false)).to_bool());
}

#[test]
fn empty_list_decomposes_to_nothing() {
    let val = Value::from(Datum::List(vec![]));
    assert_eq!(val.to_vec().len(), 0);
    assert_eq!(val.to_string(), "[]");
}

#[test]
fn children_outlive_their_parent() {
    let mut parent = Value::from(Datum::List(vec![
        Datum::Varchar(String::from("a")),
        Datum::List(vec![Datum::UBigint(7)]),
    ]));
    let children = parent.to_vec();
    assert!(parent.release());
    assert_eq!(children[0].to_string(), "a");
    assert_eq!(children[1].logical_type_id(), LogicalTypeId::List);
    let grandchildren = children[1].to_vec();
    assert_eq!(grandchildren.len(), 1);
    assert_eq!(grandchildren[0].to_uint64(), 7);
}

#[test]
fn release_twice_frees_once() {
    let mut val = Value::from(Datum::Integer(5));
    assert!(val.is_live());
    assert!(val.release());
    assert!(!val.is_live());
    assert!(!val.release());
    assert!(!val.is_live());
}

#[test]
fn release_of_never_populated_value_frees_nothing() {
    let mut val = Value::default();
    assert!(!val.is_live());
    assert!(!val.release());
    assert!(!val.release());
}

#[test]
fn logical_type_ids_follow_kind() {
    assert_eq!(Value::from(Datum::Boolean(true)).logical_type_id(), LogicalTypeId::Boolean);
    assert_eq!(Value::from(Datum::Tinyint(1)).logical_type_id(), LogicalTypeId::Tinyint);
    assert_eq!(Value::from(Datum::UTinyint(1)).logical_type_id(), LogicalTypeId::UTinyint);
    assert_eq!(Value::from(Datum::Smallint(1)).logical_type_id(), LogicalTypeId::Smallint);
    assert_eq!(Value::from(Datum::USmallint(1)).logical_type_id(), LogicalTypeId::USmallint);
    assert_eq!(Value::from(Datum::Integer(1)).logical_type_id(), LogicalTypeId::Integer);
    assert_eq!(Value::from(Datum::UInteger(1)).logical_type_id(), LogicalTypeId::UInteger);
    assert_eq!(Value::from(Datum::Bigint(1)).logical_type_id(), LogicalTypeId::Bigint);
    assert_eq!(Value::from(Datum::UBigint(1)).logical_type_id(), LogicalTypeId::UBigint);
    assert_eq!(Value::from(Datum::Float(0)).logical_type_id(), LogicalTypeId::Float);
    assert_eq!(Value::from(Datum::Double(0)).logical_type_id(), LogicalTypeId::Double);
    assert_eq!(Value::from(Datum::Varchar(String::new())).logical_type_id(), LogicalTypeId::Varchar);
    assert_eq!(Value::from(Datum::List(vec![])).logical_type_id(), LogicalTypeId::List);
    assert_eq!(Value::from(Datum::Null(LogicalTypeId::SqlNull)).logical_type_id(), LogicalTypeId::SqlNull);
}

#[test]
fn scalars_render_as_text() {
    assert_eq!(Value::from(Datum::Boolean(true)).to_string(), "true");
    assert_eq!(Value::from(Datum::Boolean(false)).to_string(), "false");
    assert_eq!(Value::from(Datum::Tinyint(-128)).to_string(), "-128");
    assert_eq!(Value::from(Datum::Integer(0)).to_string(), "0");
    assert_eq!(Value::from(Datum::Smallint(1000)).to_string(), "1000");
    assert_eq!(Value::from(Datum::Bigint(i64::MIN)).to_string(), "-9223372036854775808");
    assert_eq!(Value::from(Datum::UBigint(u64::MAX)).to_string(), "18446744073709551615");
    assert_eq!(Value::from(Datum::UTinyint(9)).to_string(), "9");
    assert_eq!(Value::from(Datum::Varchar(String::from("héllo, wörld"))).to_string(), "héllo, wörld");
}

#[test]
fn lists_render_in_order() {
    let val = Value::from(Datum::List(vec![Datum::Bigint(1), Datum::Bigint(-200), Datum::Bigint(2381292)]));
    assert_eq!(val.to_string(), "[1, -200, 2381292]");
    let nested = Value::from(Datum::List(vec![
        Datum::List(vec![Datum::Integer(1), Datum::Integer(2)]),
        Datum::List(vec![]),
        Datum::Null(LogicalTypeId::List),
    ]));
    assert_eq!(nested.to_string(), "[[1, 2], [], NULL]");
}

#[test]
fn list_of_text_decomposes_in_order() {
    let val = Value::from(Datum::List(vec![
        Datum::Varchar(String::from("x")),
        Datum::Varchar(String::from("y")),
        Datum::Varchar(String::from("z")),
    ]));
    let items: Vec<String> = val.to_vec().iter().map(|v| v.to_string()).collect();
    assert_eq!(items, vec!["x", "y", "z"]);
}

#[test]
fn float_free_detects_floats_at_any_depth() {
    assert!(Value::from(Datum::Integer(1)).is_float_free());
    assert!(Value::from(Datum::Null(LogicalTypeId::Float)).is_float_free());
    assert!(!Value::from(Datum::Float(0)).is_float_free());
    assert!(!Value::from(Datum::Double(0)).is_float_free());
    let nested = Datum::List(vec![Datum::Integer(1), Datum::List(vec![Datum::Double(0)])]);
    assert!(!nested.is_float_free());
    assert!(Datum::List(vec![Datum::List(vec![Datum::Boolean(true)])]).is_float_free());
}

#[test]
fn list_text_frames_and_separates() {
    assert_eq!(render::list_text(&vec![]), "[]");
    assert_eq!(render::list_text(&vec![String::from("1.5")]), "[1.5]");
    assert_eq!(
        render::list_text(&vec![String::from("a"), String::from(""), String::from("c")]),
        "[a, , c]"
    );
}

#[test]
fn duplicate_is_a_deep_copy() {
    let original = Datum::List(vec![Datum::Varchar(String::from("q")), Datum::List(vec![Datum::Tinyint(-3)])]);
    let copy = original.duplicate();
    drop(original);
    let val = Value::from(copy);
    assert_eq!(val.to_string(), "[q, [-3]]");
}
