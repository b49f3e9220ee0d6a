//! SQL types of parameters, told from their values.

use bigtable_rs::error::Error;
use bigtable_rs::inference::{infer_param_types, infer_type_from_value};
use bigtable_rs::messages::{Date, Kind, Timestamp, Value};
use bigtable_rs::sql::{SqlType, StructField, Type, TypeKind};

fn value(kind: Option<Kind>) -> Value {
    Value {
        kind,
        declared_type: None,
    }
}

#[test]
fn test_infer_type_from_bytes() {
    let t = infer_type_from_value(&value(Some(Kind::BytesValue(vec![1, 2, 3])))).unwrap();
    assert!(matches!(t.kind, Some(TypeKind::BytesType)));
}

#[test]
fn test_infer_type_from_string() {
    let t = infer_type_from_value(&value(Some(Kind::StringValue("hello".to_string())))).unwrap();
    assert!(matches!(t.kind, Some(TypeKind::StringType)));
}

#[test]
fn test_infer_type_from_int() {
    let t = infer_type_from_value(&value(Some(Kind::IntValue(42)))).unwrap();
    assert!(matches!(t.kind, Some(TypeKind::Int64Type)));
}

#[test]
fn test_infer_type_from_bool() {
    let t = infer_type_from_value(&value(Some(Kind::BoolValue(true)))).unwrap();
    assert!(matches!(t.kind, Some(TypeKind::BoolType)));
}

#[test]
fn test_infer_type_from_float_rejection() {
    let t = infer_type_from_value(&value(Some(Kind::FloatValue(123.45f64.to_bits()))));
    assert!(t.is_err());
    assert!(matches!(
        t.unwrap_err(),
        Error::ParameterTypeInferenceFailed(_, detail) if detail.contains("float")
    ));
}

#[test]
fn test_infer_type_unspecified_rejection() {
    let t = infer_type_from_value(&value(None));
    assert!(t.is_err());
    assert!(matches!(
        t.unwrap_err(),
        Error::ParameterTypeInferenceFailed(_, detail) if detail.contains("Null/None")
    ));
}

#[test]
fn the_other_scalars_have_types_too() {
    let at = Timestamp {
        seconds: 1,
        nanos: 2,
    };
    let day = Date {
        year: 2024,
        month: 2,
        day: 29,
    };
    let raw = infer_type_from_value(&value(Some(Kind::RawValue(vec![0])))).unwrap();
    assert!(matches!(raw.kind, Some(TypeKind::BytesType)));
    let micros = infer_type_from_value(&value(Some(Kind::RawTimestampMicros(5)))).unwrap();
    assert!(matches!(micros.kind, Some(TypeKind::Int64Type)));
    let timestamp = infer_type_from_value(&value(Some(Kind::TimestampValue(at)))).unwrap();
    assert!(matches!(timestamp.kind, Some(TypeKind::TimestampType)));
    let date = infer_type_from_value(&value(Some(Kind::DateValue(day)))).unwrap();
    assert!(matches!(date.kind, Some(TypeKind::DateType)));
}

#[test]
fn a_container_has_no_type_of_its_own() {
    let t = infer_type_from_value(&value(Some(Kind::ArrayValue(vec![value(None)]))));
    assert!(matches!(
        t.unwrap_err(),
        Error::ParameterTypeInferenceFailed(field, detail)
            if field.is_empty() && detail.contains("ARRAY/STRUCT/MAP")
    ));
}

#[test]
fn the_first_parameter_without_a_type_is_named() {
    let params = vec![
        ("a".to_string(), value(Some(Kind::IntValue(1)))),
        ("b".to_string(), value(None)),
        ("c".to_string(), value(Some(Kind::FloatValue(0)))),
    ];
    assert!(matches!(
        infer_param_types(&params).unwrap_err(),
        Error::ParameterTypeInferenceFailed(field, detail)
            if field == "b" && detail.contains("Null/None")
    ));
}

#[test]
fn declared_types_win_over_values() {
    let params = vec![
        (
            "a".to_string(),
            value(Some(Kind::IntValue(1))).with_type(SqlType::String),
        ),
        ("b".to_string(), value(None).with_type(SqlType::Date)),
        ("c".to_string(), value(Some(Kind::BoolValue(false)))),
    ];
    let types = infer_param_types(&params).unwrap();
    assert_eq!(types.len(), 3);
    assert_eq!(types[0].0, "a");
    assert!(matches!(types[0].1.kind, Some(TypeKind::StringType)));
    assert_eq!(types[1].0, "b");
    assert!(matches!(types[1].1.kind, Some(TypeKind::DateType)));
    assert_eq!(types[2].0, "c");
    assert!(matches!(types[2].1.kind, Some(TypeKind::BoolType)));
}

fn sample() -> SqlType {
    SqlType::Struct(vec![
        ("name".to_string(), SqlType::String),
        (
            "tags".to_string(),
            SqlType::Array(Box::new(SqlType::MapOf {
                key_type: Box::new(SqlType::Int64),
                value_type: Box::new(SqlType::Float32),
            })),
        ),
    ])
}

#[test]
fn sql_types_go_to_schema_types_and_back() {
    let back = SqlType::from_pb(&sample().to_pb());
    assert_eq!(format!("{:?}", back), format!("{:?}", Some(sample())));
    let scalars = [
        SqlType::String,
        SqlType::Bytes,
        SqlType::Int64,
        SqlType::Float32,
        SqlType::Float64,
        SqlType::Bool,
        SqlType::Timestamp,
        SqlType::Date,
    ];
    for scalar in scalars {
        let back = SqlType::from_pb(&scalar.to_pb()).unwrap();
        assert_eq!(format!("{:?}", back), format!("{:?}", scalar));
    }
}

#[test]
fn schema_types_without_a_sql_type_give_none() {
    assert!(SqlType::from_pb(&Type { kind: None }).is_none());
    assert!(SqlType::from_pb(&Type::of(TypeKind::AggregateType)).is_none());
    assert!(SqlType::from_pb(&Type::of(TypeKind::ProtoType)).is_none());
    assert!(SqlType::from_pb(&Type::of(TypeKind::EnumType)).is_none());
    assert!(SqlType::from_pb(&Type::of(TypeKind::ArrayType(None))).is_none());
    let half_a_map = TypeKind::MapType(Some(Box::new(Type::of(TypeKind::BoolType))), None);
    assert!(SqlType::from_pb(&Type::of(half_a_map)).is_none());
    let open_field = TypeKind::StructType(vec![StructField {
        field_name: "f".to_string(),
        field_type: None,
    }]);
    assert!(SqlType::from_pb(&Type::of(open_field)).is_none());
}
