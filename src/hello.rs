use vstd::prelude::*;

use crate::classification::{AsEnum, ConstEnum};
use crate::registry::{DefModel, FieldType, lemma_interval_first, lemma_round_trip, lemma_unknown_keeps_value};

verus! {

/// A container with one classified `u8` field.
#[derive(Clone, Copy, Debug, PartialEq, Eq, Structural)]
pub struct Hello {
    pub data: u8,
}

/// The named values of `Hello::data`, admissible in `0..=22`.
#[derive(Clone, Copy, Debug, PartialEq, Eq, Structural)]
pub enum HelloEnum {
    V0,
    V1,
    V2,
    V3,
    V4,
}

/// Lowest admissible raw value of `Hello::data`.
pub const HELLO_LOW: u8 = 0;

/// Highest admissible raw value of `Hello::data`.
pub const HELLO_HIGH: u8 = 22;

impl HelloEnum {
    /// The raw value each variant stands for.
    pub open spec fn spec_value(self) -> u8 {
        match self {
            HelloEnum::V0 => 0,
            HelloEnum::V1 => 1,
            HelloEnum::V2 => 12,
            HelloEnum::V3 => 13,
            HelloEnum::V4 => 22,
        }
    }

    /// The position of each variant in its declaration.
    pub open spec fn spec_index(self) -> usize {
        match self {
            HelloEnum::V0 => 0,
            HelloEnum::V1 => 1,
            HelloEnum::V2 => 2,
            HelloEnum::V3 => 3,
            HelloEnum::V4 => 4,
        }
    }

    /// The raw value of this variant.
    pub fn value(self) -> (r: u8)
        ensures
            r == self.spec_value(),
    {
        match self {
            HelloEnum::V0 => 0,
            HelloEnum::V1 => 1,
            HelloEnum::V2 => 12,
            HelloEnum::V3 => 13,
            HelloEnum::V4 => 22,
        }
    }
}

/// Classification of a raw `Hello::data`: outside `0..=22` it is unknown
/// straight away; inside, it is the variant with that value, if any.
pub open spec fn hello_classify(data: u8) -> ConstEnum<HelloEnum, u8> {
    if !(HELLO_LOW <= data <= HELLO_HIGH) {
        ConstEnum::Unknown(data)
    } else if data == 0 {
        ConstEnum::Wellknown(HelloEnum::V0)
    } else if data == 1 {
        ConstEnum::Wellknown(HelloEnum::V1)
    } else if data == 12 {
        ConstEnum::Wellknown(HelloEnum::V2)
    } else if data == 13 {
        ConstEnum::Wellknown(HelloEnum::V3)
    } else if data == 22 {
        ConstEnum::Wellknown(HelloEnum::V4)
    } else {
        ConstEnum::Unknown(data)
    }
}

impl AsEnum for Hello {
    type TargetEnum = HelloEnum;

    type BaseType = u8;

    open spec fn spec_as_enum(&self) -> ConstEnum<HelloEnum, u8> {
        hello_classify(self.data)
    }

    fn as_enum(&self) -> (r: ConstEnum<HelloEnum, u8>) {
        if !(HELLO_LOW <= self.data && self.data <= HELLO_HIGH) {
            return ConstEnum::Unknown(self.data);
        }
        match self.data {
            0 => ConstEnum::Wellknown(HelloEnum::V0),
            1 => ConstEnum::Wellknown(HelloEnum::V1),
            12 => ConstEnum::Wellknown(HelloEnum::V2),
            13 => ConstEnum::Wellknown(HelloEnum::V3),
            22 => ConstEnum::Wellknown(HelloEnum::V4),
            _ => ConstEnum::Unknown(self.data),
        }
    }
}

impl Hello {
    /// The container that holds the raw value of `HelloEnum::V0`.
    pub fn v0() -> (h: Hello)
        ensures
            h.data == HelloEnum::V0.spec_value(),
    {
        Hello { data: HelloEnum::V0.value() }
    }

    /// The container that holds the raw value of `HelloEnum::V1`.
    pub fn v1() -> (h: Hello)
        ensures
            h.data == HelloEnum::V1.spec_value(),
    {
        Hello { data: HelloEnum::V1.value() }
    }

    /// The container that holds the raw value of `HelloEnum::V2`.
    pub fn v2() -> (h: Hello)
        ensures
            h.data == HelloEnum::V2.spec_value(),
    {
        Hello { data: HelloEnum::V2.value() }
    }

    /// The container that holds the raw value of `HelloEnum::V3`.
    pub fn v3() -> (h: Hello)
        ensures
            h.data == HelloEnum::V3.spec_value(),
    {
        Hello { data: HelloEnum::V3.value() }
    }

    /// The container that holds the raw value of `HelloEnum::V4`.
    pub fn v4() -> (h: Hello)
        ensures
            h.data == HelloEnum::V4.spec_value(),
    {
        Hello { data: HelloEnum::V4.value() }
    }
}

impl From<HelloEnum> for Hello {
    /// Builds the container that holds the variant's raw value.
    fn from(v: HelloEnum) -> (r: Hello) {
        Hello { data: v.value() }
    }
}

impl vstd::std_specs::convert::FromSpecImpl<HelloEnum> for Hello {
    open spec fn obeys_from_spec() -> bool {
        true
    }

    open spec fn from_spec(v: HelloEnum) -> Hello {
        Hello { data: v.spec_value() }
    }
}

impl HelloEnum {
    /// The variant at position `i` of the declaration.
    pub open spec fn spec_from_index(i: usize) -> HelloEnum {
        if i == 0 {
            HelloEnum::V0
        } else if i == 1 {
            HelloEnum::V1
        } else if i == 2 {
            HelloEnum::V2
        } else if i == 3 {
            HelloEnum::V3
        } else {
            HelloEnum::V4
        }
    }
}

/// The declaration that `HelloEnum` and `hello_classify` are written from:
/// field type `u8`, interval `0..=22`, five named values.
pub open spec fn hello_model() -> DefModel {
    DefModel {
        field_type: FieldType::U8,
        interval: Some((HELLO_LOW as i128, HELLO_HIGH as i128)),
        names: seq![seq!['V', '0'], seq!['V', '1'], seq!['V', '2'], seq!['V', '3'], seq!['V', '4']],
        values: seq![0i128, 1i128, 12i128, 13i128, 22i128],
    }
}

/// The declaration behind `HelloEnum` passes validation: names and values
/// are distinct and every value is a `u8` inside the interval.
pub proof fn lemma_hello_declaration_wf()
    ensures
        hello_model().wf(),
{
    let m = hello_model();
    assert forall|i: int| 0 <= i < m.len() implies #[trigger] m.variant_ok(i) by {
        assert forall|j: int| !#[trigger] m.name_clash(j, i) by {
            if 0 <= j < i {
                assert(m.names[j][1] != m.names[i][1]);
            }
        }
    }
}

/// `Hello`'s classification is the classification that its declaration
/// defines, with positions read as variants.
pub proof fn lemma_hello_follows_declaration(h: Hello)
    ensures
        h.spec_as_enum() == match hello_model().classify(h.data as i128) {
            ConstEnum::Wellknown(i) => ConstEnum::<HelloEnum, u8>::Wellknown(HelloEnum::spec_from_index(i)),
            ConstEnum::Unknown(_) => ConstEnum::<HelloEnum, u8>::Unknown(h.data),
        },
{
    let m = hello_model();
    lemma_hello_declaration_wf();
    let x = h.data as i128;
    if !m.in_interval(x) {
        lemma_interval_first(m, x);
    } else if x == 0 {
        lemma_round_trip(m, 0);
    } else if x == 1 {
        lemma_round_trip(m, 1);
    } else if x == 12 {
        lemma_round_trip(m, 2);
    } else if x == 13 {
        lemma_round_trip(m, 3);
    } else if x == 22 {
        lemma_round_trip(m, 4);
    } else {
        lemma_unknown_keeps_value(m, x);
    }
}

/// Classifying the container built from a variant gives back that variant.
pub proof fn lemma_hello_round_trip(v: HelloEnum)
    ensures
        (Hello { data: v.spec_value() }).spec_as_enum() == ConstEnum::<HelloEnum, u8>::Wellknown(v),
{
}

/// A raw value outside `0..=22`, or one that no variant has, is classified
/// as unknown and kept unchanged.
pub proof fn lemma_hello_unknown_keeps_value(h: Hello)
    requires
        h.data > HELLO_HIGH || forall|v: HelloEnum| v.spec_value() != h.data,
    ensures
        h.spec_as_enum() == ConstEnum::<HelloEnum, u8>::Unknown(h.data),
{
    if h.data <= HELLO_HIGH {
        assert(HelloEnum::V0.spec_value() != h.data);
        assert(HelloEnum::V1.spec_value() != h.data);
        assert(HelloEnum::V2.spec_value() != h.data);
        assert(HelloEnum::V3.spec_value() != h.data);
        assert(HelloEnum::V4.spec_value() != h.data);
    }
}

} // verus!
