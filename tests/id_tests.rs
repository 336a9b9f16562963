use graphql_id::codec::{DbValue, DecodeError, Shape, TextInput, TextValue};
use graphql_id::id::{Oid, ID};
use mongodb::bson::oid::ObjectId;

const HEX: &str = "5eaefffa00c9fdf000c46fdc";

fn sample_oid() -> Oid {
    Oid::from_bytes(ObjectId::parse_str(HEX).unwrap().bytes())
}

#[test]
fn test_convert_id_from_normal_string() {
    let test_string = String::from("Something");
    assert_eq!(
        ID::from_string(&test_string),
        ID::String(String::from("Something"))
    );
    let test_str = "SomethingElse";
    assert_eq!(
        ID::from_string(test_str),
        ID::String(String::from("SomethingElse"))
    );
}

#[test]
fn test_convert_id_from_oid() {
    let test_string = String::from("$oid:5eaefffa00c9fdf000c46fdc");
    assert_eq!(
        ID::from_string(&test_string),
        ID::ObjectId(Oid::from_bytes(
            ObjectId::parse_str("5eaefffa00c9fdf000c46fdc").unwrap().bytes()
        ))
    );
}

#[test]
fn test_convert_invalid_id() {
    assert_eq!(
        ID::from_string("$oid:not_valid"),
        ID::String("$oid:not_valid".to_string())
    );
}

#[test]
fn test_convert_id_from_number() {
    assert_eq!(ID::from(64 as i64), ID::Int64(64));
    assert_eq!(ID::with_i64(32 as u32), ID::Int64(32));
    assert_eq!(ID::with_i64(8 as u8), ID::Int64(8));
}

#[test]
fn plain_string_round_trips() {
    for s in ["", "abc", "$oi", "$OID:5eaefffa00c9fdf000c46fdc", "5eaefffa00c9fdf000c46fdc", "ünï"] {
        let id = ID::from_string(s);
        assert_eq!(id, ID::String(s.to_string()));
        assert_eq!(id.to_string(), s);
    }
}

#[test]
fn object_id_string_round_trips() {
    let s = format!("$oid:{}", HEX);
    let id = ID::from_string(&s);
    assert_eq!(id, ID::ObjectId(sample_oid()));
    assert_eq!(id.to_string(), s);
}

#[test]
fn object_id_bytes_are_read_from_hex() {
    let o = sample_oid();
    assert_eq!(
        o.bytes,
        [0x5e, 0xae, 0xff, 0xfa, 0x00, 0xc9, 0xfd, 0xf0, 0x00, 0xc4, 0x6f, 0xdc]
    );
    assert_eq!(o.to_hex(), HEX);
}

#[test]
fn uppercase_hex_reads_and_prints_lowercase() {
    let id = ID::from_string("$oid:5EAEFFFA00C9FDF000C46FDC");
    assert_eq!(id, ID::ObjectId(sample_oid()));
    assert_eq!(id.to_string(), format!("$oid:{}", HEX));
}

#[test]
fn prefix_with_wrong_length_stays_text() {
    for s in ["$oid:", "$oid:5eaefffa00c9fdf000c46fd", "$oid:5eaefffa00c9fdf000c46fdc00"] {
        assert_eq!(ID::from_string(s), ID::String(s.to_string()));
    }
}

#[test]
fn integer_string_forms() {
    assert_eq!(ID::Int64(64).to_string(), "64");
    assert_eq!(ID::with_i64(32 as u32).to_string(), "32");
    assert_eq!(ID::with_i64(8 as u8).to_string(), "8");
    assert_eq!(ID::Int64(0).to_string(), "0");
    assert_eq!(ID::Int64(-42).to_string(), "-42");
    assert_eq!(ID::Int64(i64::MIN).to_string(), "-9223372036854775808");
    assert_eq!(ID::Int64(i64::MAX).to_string(), "9223372036854775807");
}

#[test]
fn integers_of_other_widths_are_equal() {
    assert_eq!(ID::with_i64(7 as u8), ID::with_i64(7 as i32));
    assert_eq!(ID::with_i64(7 as u16), ID::from(7 as i64));
    assert_ne!(ID::with_i64(7 as u8), ID::with_i64(8 as u8));
}

#[test]
fn cross_variant_values_are_unequal() {
    assert_ne!(ID::Int64(5), ID::String("5".to_string()));
    assert_ne!(ID::String(HEX.to_string()), ID::ObjectId(sample_oid()));
    assert_ne!(ID::from_string("5"), ID::Int64(5));
}

#[test]
fn with_constructors() {
    assert_eq!(ID::with_string("$oid:5eaefffa00c9fdf000c46fdc"), ID::String(format!("$oid:{}", HEX)));
    assert_eq!(ID::with_oid(sample_oid()), ID::ObjectId(sample_oid()));
    assert_eq!(ID::from(sample_oid()), ID::ObjectId(sample_oid()));
}

#[test]
fn db_value_round_trip_keeps_variant() {
    for id in [ID::ObjectId(sample_oid()), ID::String("5".to_string()), ID::Int64(5)] {
        let v = id.to_bson();
        assert_eq!(ID::with_bson(&v), Ok(id.clone()));
    }
    assert!(matches!(ID::String("x".to_string()).to_bson(), DbValue::String(s) if s == "x"));
    assert!(matches!(ID::Int64(3).to_bson(), DbValue::Int64(3)));
}

#[test]
fn db_value_of_other_kind_is_rejected() {
    assert_eq!(ID::with_bson(&DbValue::Other), Err(DecodeError::UnsupportedDbValue));
}

#[test]
fn text_form_of_object_id_is_oid_map() {
    match ID::ObjectId(sample_oid()).to_text() {
        TextValue::SingleKeyMap(k, v) => {
            assert_eq!(k, "$oid");
            assert_eq!(v, HEX);
            let back = Oid::parse_str(&v).unwrap();
            assert_eq!(
                ID::from_text(&TextInput::Object(DbValue::ObjectId(back))),
                Ok(ID::ObjectId(sample_oid()))
            );
        }
        other => panic!("unexpected text form {:?}", other),
    }
}

#[test]
fn text_form_of_text_and_integer() {
    assert!(matches!(ID::String("a".to_string()).to_text(), TextValue::Str(s) if s == "a"));
    assert!(matches!(ID::Int64(-3).to_text(), TextValue::Int(-3)));
}

#[test]
fn text_decoding_of_scalars() {
    assert_eq!(
        ID::from_text(&TextInput::Str(format!("$oid:{}", HEX))),
        Ok(ID::ObjectId(sample_oid()))
    );
    assert_eq!(
        ID::from_text(&TextInput::Str("plain".to_string())),
        Ok(ID::String("plain".to_string()))
    );
    assert_eq!(ID::from_text(&TextInput::Signed(-9)), Ok(ID::Int64(-9)));
    assert_eq!(ID::from_text(&TextInput::Unsigned(9)), Ok(ID::Int64(9)));
    assert_eq!(ID::from_text(&TextInput::Unsigned(u64::MAX)), Ok(ID::Int64(-1)));
    assert_eq!(
        ID::from_text(&TextInput::Unsigned(1u64 << 63)),
        Ok(ID::Int64(i64::MIN))
    );
}

#[test]
fn text_decoding_of_unsupported_shape_fails() {
    assert_eq!(
        ID::from_text(&TextInput::Unsupported(Shape::Bool)),
        Err(DecodeError::UnsupportedShape(Shape::Bool))
    );
    assert_eq!(
        ID::from_text(&TextInput::Unsupported(Shape::Null)),
        Err(DecodeError::UnsupportedShape(Shape::Null))
    );
    assert_eq!(
        ID::from_text(&TextInput::Object(DbValue::Other)),
        Err(DecodeError::UnsupportedDbValue)
    );
}

#[test]
fn conversion_to_object_id() {
    assert_eq!(ID::ObjectId(sample_oid()).to_object_id(), Ok(sample_oid()));
    assert_eq!(ID::String(HEX.to_string()).to_object_id(), Ok(sample_oid()));
    assert!(ID::String("nope".to_string()).to_object_id().is_err());
    assert!(ID::String(format!("$oid:{}", HEX)).to_object_id().is_err());
    assert!(ID::Int64(123456789).to_object_id().is_err());
    assert!(ID::Int64(-1).to_object_id().is_err());
}

#[test]
fn oid_parse_rejects_non_hex() {
    assert_eq!(Oid::parse_str("zzaefffa00c9fdf000c46fdc"), None);
    assert_eq!(Oid::parse_str(""), None);
    assert_eq!(Oid::parse_str(HEX), Some(sample_oid()));
}
