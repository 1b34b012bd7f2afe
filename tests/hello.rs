use const_enum::{AsEnum, ConstEnum, Hello, HelloEnum, Unknown, Wellknown};

const ALL: [HelloEnum; 5] = [HelloEnum::V0, HelloEnum::V1, HelloEnum::V2, HelloEnum::V3, HelloEnum::V4];

#[test]
fn known_value_inside_interval() {
    let hello = Hello { data: 13 };
    assert_eq!(hello.as_enum(), Wellknown(HelloEnum::V3));
}

#[test]
fn value_outside_interval_is_unknown() {
    let hello = Hello { data: 33 };
    assert_eq!(hello.as_enum(), Unknown(33));
}

#[test]
fn unmatched_value_inside_interval_is_unknown() {
    let hello = Hello { data: 5 };
    assert_eq!(hello.as_enum(), Unknown(5));
}

#[test]
fn variant_into_container() {
    let hello: Hello = HelloEnum::V2.into();
    assert_eq!(hello.data, 12);
    assert_eq!(Hello::from(HelloEnum::V4).data, 22);
    assert_eq!(Hello::from(HelloEnum::V0).data, 0);
}

#[test]
fn variant_values() {
    let values: Vec<u8> = ALL.iter().map(|v| v.value()).collect();
    assert_eq!(values, vec![0, 1, 12, 13, 22]);
}

#[test]
fn every_variant_round_trips() {
    for v in ALL {
        let hello: Hello = v.into();
        assert_eq!(hello.as_enum(), Wellknown(v));
    }
}

#[test]
fn every_raw_value_is_classified() {
    for data in 0..=u8::MAX {
        match (Hello { data }).as_enum() {
            Wellknown(v) => {
                assert!(data <= 22);
                assert_eq!(v.value(), data);
            }
            Unknown(raw) => {
                assert_eq!(raw, data);
                assert!(ALL.iter().all(|v| v.value() != data));
            }
        }
    }
}

#[test]
fn interval_edges() {
    assert_eq!((Hello { data: 22 }).as_enum(), Wellknown(HelloEnum::V4));
    assert_eq!((Hello { data: 23 }).as_enum(), Unknown(23));
    assert_eq!((Hello { data: 0 }).as_enum(), Wellknown(HelloEnum::V0));
    assert_eq!((Hello { data: 255 }).as_enum(), Unknown(255));
}

#[test]
fn unwrap_known() {
    let c: ConstEnum<HelloEnum, u8> = Wellknown(HelloEnum::V1);
    assert_eq!(c.unwrap(), HelloEnum::V1);
    assert_eq!((Hello { data: 12 }).as_enum().unwrap(), HelloEnum::V2);
}

#[test]
fn named_containers() {
    assert_eq!(Hello::v0().data, 0);
    assert_eq!(Hello::v1().data, 1);
    assert_eq!(Hello::v2().data, 12);
    assert_eq!(Hello::v3().data, 13);
    assert_eq!(Hello::v4().data, 22);
    assert_eq!(Hello::v3().as_enum(), Wellknown(HelloEnum::V3));
}
