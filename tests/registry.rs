use const_enum::{ConstEnum, DefError, EnumDef, FieldType, Unknown, Variant, Wellknown};

fn variants(pairs: &[(&str, i128)]) -> Vec<Variant> {
    pairs.iter().map(|(n, v)| Variant { name: n.to_string(), value: *v }).collect()
}

fn hello_def() -> EnumDef {
    let vs = variants(&[("V0", 0), ("V1", 1), ("V2", 12), ("V3", 13), ("V4", 22)]);
    EnumDef::new(FieldType::U8, Some((0, 22)), vs).unwrap()
}

#[test]
fn classify_scenario() {
    let d = hello_def();
    assert_eq!(d.classify(13), Wellknown(3));
    assert_eq!(d.name_of(3), "V3");
    assert_eq!(d.classify(33), Unknown(33));
    assert_eq!(d.classify(5), Unknown(5));
    assert_eq!(d.value_of(2), 12);
    assert_eq!(d.len(), 5);
}

#[test]
fn round_trip_every_variant() {
    let d = hello_def();
    for i in 0..d.len() {
        assert_eq!(d.classify(d.value_of(i)), Wellknown(i));
    }
}

#[test]
fn totality_over_u8() {
    let d = hello_def();
    for x in 0..=255i128 {
        match d.classify(x) {
            ConstEnum::Wellknown(i) => assert_eq!(d.value_of(i), x),
            ConstEnum::Unknown(y) => assert_eq!(y, x),
        }
    }
}

#[test]
fn interval_checked_before_variants() {
    let vs = variants(&[("A", 3), ("B", 7)]);
    let d = EnumDef::new(FieldType::U8, Some((2, 7)), vs).unwrap();
    assert_eq!(d.classify(7), Wellknown(1));
    assert_eq!(d.classify(8), Unknown(8));
    assert_eq!(d.classify(1), Unknown(1));
    assert_eq!(d.classify(-5), Unknown(-5));
}

#[test]
fn no_interval_falls_through_to_variants() {
    let vs = variants(&[("Neg", -128), ("Pos", 127)]);
    let d = EnumDef::new(FieldType::I8, None, vs).unwrap();
    assert_eq!(d.classify(-128), Wellknown(0));
    assert_eq!(d.classify(127), Wellknown(1));
    assert_eq!(d.classify(0), Unknown(0));
}

#[test]
fn empty_declaration_classifies_all_as_unknown() {
    let d = EnumDef::new(FieldType::U16, None, Vec::new()).unwrap();
    assert_eq!(d.len(), 0);
    assert_eq!(d.classify(42), Unknown(42));
}

#[test]
fn rejects_duplicate_value() {
    let vs = variants(&[("A", 1), ("B", 2), ("C", 1)]);
    let r = EnumDef::new(FieldType::U8, None, vs);
    assert_eq!(r.err(), Some(DefError::DuplicateValue { first: 0, second: 2 }));
}

#[test]
fn rejects_duplicate_name() {
    let vs = variants(&[("A", 1), ("B", 2), ("B", 3)]);
    let r = EnumDef::new(FieldType::U8, None, vs);
    assert_eq!(r.err(), Some(DefError::DuplicateName { first: 1, second: 2 }));
}

#[test]
fn rejects_value_outside_interval() {
    let vs = variants(&[("A", 1), ("B", 30)]);
    let r = EnumDef::new(FieldType::U8, Some((0, 22)), vs);
    assert_eq!(r.err(), Some(DefError::ValueOutsideInterval { index: 1 }));
}

#[test]
fn rejects_value_out_of_domain() {
    let vs = variants(&[("A", 256)]);
    let r = EnumDef::new(FieldType::U8, None, vs);
    assert_eq!(r.err(), Some(DefError::ValueOutOfDomain { index: 0 }));
    let vs = variants(&[("A", -1)]);
    let r = EnumDef::new(FieldType::U64, None, vs);
    assert_eq!(r.err(), Some(DefError::ValueOutOfDomain { index: 0 }));
}

#[test]
fn rejects_interval_out_of_domain() {
    let vs = variants(&[("A", 1)]);
    let r = EnumDef::new(FieldType::I8, Some((-200, 5)), vs);
    assert_eq!(r.err(), Some(DefError::IntervalOutOfDomain));
}

#[test]
fn first_defect_is_reported() {
    let vs = variants(&[("A", 1), ("A", 1), ("C", 300)]);
    let r = EnumDef::new(FieldType::U8, None, vs);
    assert_eq!(r.err(), Some(DefError::DuplicateName { first: 0, second: 1 }));
}

#[test]
fn field_type_domains() {
    assert!(FieldType::U64.contains(u64::MAX as i128));
    assert!(!FieldType::U64.contains(u64::MAX as i128 + 1));
    assert!(FieldType::I64.contains(i64::MIN as i128));
    assert!(!FieldType::I64.contains(i64::MIN as i128 - 1));
    assert!(FieldType::I16.contains(-32768));
    assert!(!FieldType::U32.contains(-1));
    assert!(FieldType::U32.contains(u32::MAX as i128));
}
