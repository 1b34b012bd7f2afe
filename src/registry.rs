use vstd::prelude::*;

use crate::classification::ConstEnum;

verus! {

/// The primitive representation of a classified field: width and signedness.
#[derive(Clone, Copy, Debug, PartialEq, Eq, Structural)]
pub enum FieldType {
    U8,
    U16,
    U32,
    U64,
    I8,
    I16,
    I32,
    I64,
}

impl FieldType {
    /// The smallest value the representation can hold.
    pub open spec fn min(self) -> int {
        match self {
            FieldType::U8 | FieldType::U16 | FieldType::U32 | FieldType::U64 => 0,
            FieldType::I8 => i8::MIN as int,
            FieldType::I16 => i16::MIN as int,
            FieldType::I32 => i32::MIN as int,
            FieldType::I64 => i64::MIN as int,
        }
    }

    /// The largest value the representation can hold.
    pub open spec fn max(self) -> int {
        match self {
            FieldType::U8 => u8::MAX as int,
            FieldType::U16 => u16::MAX as int,
            FieldType::U32 => u32::MAX as int,
            FieldType::U64 => u64::MAX as int,
            FieldType::I8 => i8::MAX as int,
            FieldType::I16 => i16::MAX as int,
            FieldType::I32 => i32::MAX as int,
            FieldType::I64 => i64::MAX as int,
        }
    }

    pub open spec fn spec_contains(self, x: i128) -> bool {
        self.min() <= x <= self.max()
    }

    /// Whether `x` is representable in this field type.
    pub fn contains(self, x: i128) -> (r: bool)
        ensures
            r == self.spec_contains(x),
    {
        match self {
            FieldType::U8 => 0 <= x && x <= u8::MAX as i128,
            FieldType::U16 => 0 <= x && x <= u16::MAX as i128,
            FieldType::U32 => 0 <= x && x <= u32::MAX as i128,
            FieldType::U64 => 0 <= x && x <= u64::MAX as i128,
            FieldType::I8 => i8::MIN as i128 <= x && x <= i8::MAX as i128,
            FieldType::I16 => i16::MIN as i128 <= x && x <= i16::MAX as i128,
            FieldType::I32 => i32::MIN as i128 <= x && x <= i32::MAX as i128,
            FieldType::I64 => i64::MIN as i128 <= x && x <= i64::MAX as i128,
        }
    }
}

/// One declared variant: a name bound to a raw value.
pub struct Variant {
    pub name: String,
    pub value: i128,
}

/// Why a declaration was rejected. Indices are positions in the declared
/// list of variants.
#[derive(Clone, Copy, Debug, PartialEq, Eq, Structural)]
pub enum DefError {
    /// A bound of the validation interval is not representable in the field type.
    IntervalOutOfDomain,
    /// The variant's value is not representable in the field type.
    ValueOutOfDomain { index: usize },
    /// The variant's value lies outside the declared validation interval.
    ValueOutsideInterval { index: usize },
    /// Two variants carry the same name.
    DuplicateName { first: usize, second: usize },
    /// Two variants carry the same value.
    DuplicateValue { first: usize, second: usize },
}

/// The mathematical content of a declaration.
pub struct DefModel {
    pub field_type: FieldType,
    pub interval: Option<(i128, i128)>,
    pub names: Seq<Seq<char>>,
    pub values: Seq<i128>,
}

impl DefModel {
    pub open spec fn len(self) -> int {
        self.values.len() as int
    }

    /// Whether `x` passes the validation interval (always, when none is declared).
    pub open spec fn in_interval(self, x: i128) -> bool {
        match self.interval {
            None => true,
            Some((lo, hi)) => lo <= x <= hi,
        }
    }

    pub open spec fn interval_ok(self) -> bool {
        match self.interval {
            None => true,
            Some((lo, hi)) => self.field_type.spec_contains(lo) && self.field_type.spec_contains(hi),
        }
    }

    /// Variant `j` comes before variant `i` and has the same name.
    pub open spec fn name_clash(self, j: int, i: int) -> bool {
        0 <= j < i && self.names[j] == self.names[i]
    }

    /// Variant `j` comes before variant `i` and has the same value.
    pub open spec fn value_clash(self, j: int, i: int) -> bool {
        0 <= j < i && self.values[j] == self.values[i]
    }

    /// Variant `i` is representable, admissible, and distinct from every
    /// earlier variant in name and value.
    pub open spec fn variant_ok(self, i: int) -> bool {
        &&& self.field_type.spec_contains(self.values[i])
        &&& self.in_interval(self.values[i])
        &&& forall|j: int| !#[trigger] self.name_clash(j, i)
        &&& forall|j: int| !#[trigger] self.value_clash(j, i)
    }

    pub open spec fn clean_upto(self, n: int) -> bool {
        forall|i: int| 0 <= i < n ==> #[trigger] self.variant_ok(i)
    }

    /// A well-formed declaration: names and values pair up, the interval
    /// is representable, and every variant is valid.
    pub open spec fn wf(self) -> bool {
        &&& self.names.len() == self.values.len()
        &&& self.len() <= usize::MAX
        &&& self.interval_ok()
        &&& self.clean_upto(self.len())
    }

    /// `e` is the defect that validation reports: the interval first, then
    /// the first faulty variant, checked for representability, admissibility,
    /// a name shared with the earliest such predecessor, and a value shared
    /// with the earliest such predecessor, in that order.
    pub open spec fn reports(self, e: DefError) -> bool {
        if !self.interval_ok() {
            e == DefError::IntervalOutOfDomain
        } else {
            match e {
                DefError::IntervalOutOfDomain => false,
                DefError::ValueOutOfDomain { index } => {
                    &&& index < self.len()
                    &&& self.clean_upto(index as int)
                    &&& !self.field_type.spec_contains(self.values[index as int])
                },
                DefError::ValueOutsideInterval { index } => {
                    &&& index < self.len()
                    &&& self.clean_upto(index as int)
                    &&& self.field_type.spec_contains(self.values[index as int])
                    &&& !self.in_interval(self.values[index as int])
                },
                DefError::DuplicateName { first, second } => {
                    &&& second < self.len()
                    &&& self.clean_upto(second as int)
                    &&& self.field_type.spec_contains(self.values[second as int])
                    &&& self.in_interval(self.values[second as int])
                    &&& self.name_clash(first as int, second as int)
                    &&& forall|k: int| 0 <= k < first ==> !#[trigger] self.name_clash(k, second as int)
                },
                DefError::DuplicateValue { first, second } => {
                    &&& second < self.len()
                    &&& self.clean_upto(second as int)
                    &&& self.field_type.spec_contains(self.values[second as int])
                    &&& self.in_interval(self.values[second as int])
                    &&& forall|k: int| !#[trigger] self.name_clash(k, second as int)
                    &&& self.value_clash(first as int, second as int)
                    &&& forall|k: int| 0 <= k < first ==> !#[trigger] self.value_clash(k, second as int)
                },
            }
        }
    }

    /// Some declared variant has the value `x`.
    pub open spec fn declares(self, x: i128) -> bool {
        exists|i: int| 0 <= i < self.len() && self.values[i] == x
    }

    /// A position of a variant with the value `x`, when one exists.
    pub open spec fn index_of(self, x: i128) -> int {
        choose|i: int| 0 <= i < self.len() && self.values[i] == x
    }

    /// Classification of a raw value: outside the interval it is unknown
    /// without looking at the variants; inside, it is the variant that has
    /// the value, or unknown when there is none.
    pub open spec fn classify(self, x: i128) -> ConstEnum<usize, i128> {
        if !self.in_interval(x) {
            ConstEnum::Unknown(x)
        } else if self.declares(x) {
            ConstEnum::Wellknown(self.index_of(x) as usize)
        } else {
            ConstEnum::Unknown(x)
        }
    }
}

/// The model of a list of variants under a field type and an interval.
pub open spec fn model_of(
    field_type: FieldType,
    interval: Option<(i128, i128)>,
    variants: Seq<Variant>,
) -> DefModel {
    DefModel {
        field_type,
        interval,
        names: variants.map_values(|v: Variant| v.name@),
        values: variants.map_values(|v: Variant| v.value),
    }
}

/// A validated declaration of named values for one primitive field.
/// It can only be obtained through `EnumDef::new`, so every value of this
/// type is well-formed.
pub struct EnumDef {
    field_type: FieldType,
    interval: Option<(i128, i128)>,
    variants: Vec<Variant>,
}

impl View for EnumDef {
    type V = DefModel;

    closed spec fn view(&self) -> DefModel {
        model_of(self.field_type, self.interval, self.variants@)
    }
}

impl EnumDef {
    #[verifier::type_invariant]
    spec fn inv(self) -> bool {
        &&& self@.wf()
        &&& self.variants@.len() <= usize::MAX
    }

    /// Validates a declaration. It is accepted exactly when it is
    /// well-formed; otherwise the first defect is reported.
    pub fn new(field_type: FieldType, interval: Option<(i128, i128)>, variants: Vec<Variant>) -> (r:
        Result<EnumDef, DefError>)
        ensures
            r is Ok <==> model_of(field_type, interval, variants@).wf(),
            r matches Ok(d) ==> d@ == model_of(field_type, interval, variants@),
            r matches Err(e) ==> model_of(field_type, interval, variants@).reports(e),
    {
        let ghost m = model_of(field_type, interval, variants@);
        if let Some((lo, hi)) = interval {
            if !field_type.contains(lo) || !field_type.contains(hi) {
                return Err(DefError::IntervalOutOfDomain);
            }
        }
        let n = variants.len();
        let mut i: usize = 0;
        while i < n
            invariant
                n == variants@.len(),
                m == model_of(field_type, interval, variants@),
                m.interval_ok(),
                i <= n,
                m.clean_upto(i as int),
            decreases n - i,
        {
            let x = variants[i].value;
            assert(m.values[i as int] == x);
            if !field_type.contains(x) {
                assert(!m.variant_ok(i as int));
                return Err(DefError::ValueOutOfDomain { index: i });
            }
            if let Some((lo, hi)) = interval {
                if x < lo || x > hi {
                    assert(!m.variant_ok(i as int));
                    return Err(DefError::ValueOutsideInterval { index: i });
                }
            }
            let mut j: usize = 0;
            while j < i
                invariant
                    n == variants@.len(),
                    m == model_of(field_type, interval, variants@),
                    i < n,
                    j <= i,
                    m.interval_ok(),
                    m.clean_upto(i as int),
                    x == m.values[i as int],
                    m.field_type.spec_contains(x),
                    m.in_interval(x),
                    forall|k: int| 0 <= k < j ==> !#[trigger] m.name_clash(k, i as int),
                decreases i - j,
            {
                assert(m.names[j as int] == variants@[j as int].name@);
                assert(m.names[i as int] == variants@[i as int].name@);
                if variants[j].name == variants[i].name {
                    assert(m.name_clash(j as int, i as int));
                    assert(!m.variant_ok(i as int));
                    return Err(DefError::DuplicateName { first: j, second: i });
                }
                j = j + 1;
            }
            let mut j: usize = 0;
            while j < i
                invariant
                    n == variants@.len(),
                    m == model_of(field_type, interval, variants@),
                    i < n,
                    j <= i,
                    m.interval_ok(),
                    m.clean_upto(i as int),
                    x == m.values[i as int],
                    m.field_type.spec_contains(x),
                    m.in_interval(x),
                    forall|k: int| !#[trigger] m.name_clash(k, i as int),
                    forall|k: int| 0 <= k < j ==> !#[trigger] m.value_clash(k, i as int),
                decreases i - j,
            {
                assert(m.values[j as int] == variants@[j as int].value);
                if variants[j].value == x {
                    assert(m.value_clash(j as int, i as int));
                    assert(!m.variant_ok(i as int));
                    return Err(DefError::DuplicateValue { first: j, second: i });
                }
                j = j + 1;
            }
            assert(m.variant_ok(i as int));
            i = i + 1;
        }
        Ok(EnumDef { field_type, interval, variants })
    }

    /// The number of declared variants.
    pub fn len(&self) -> (r: usize)
        ensures
            r == self@.len(),
    {
        self.variants.len()
    }

    /// The raw value bound to variant `i`: what a container built from
    /// that variant holds in its classified field.
    pub fn value_of(&self, i: usize) -> (r: i128)
        requires
            i < self@.len(),
        ensures
            r == self@.values[i as int],
    {
        self.variants[i].value
    }

    /// The name of variant `i`.
    pub fn name_of(&self, i: usize) -> (r: &String)
        requires
            i < self@.len(),
        ensures
            r@ == self@.names[i as int],
    {
        &self.variants[i].name
    }

    /// Classifies a raw value. Never fails: a value outside the interval,
    /// or one that no variant has, comes back as `Unknown` unchanged.
    pub fn classify(&self, x: i128) -> (r: ConstEnum<usize, i128>)
        ensures
            r == self@.classify(x),
    {
        proof {
            use_type_invariant(self);
        }
        let ghost m = self@;
        if let Some((lo, hi)) = self.interval {
            if x < lo || x > hi {
                return ConstEnum::Unknown(x);
            }
        }
        let n = self.variants.len();
        let mut i: usize = 0;
        while i < n
            invariant
                n == m.len(),
                m == self@,
                m.wf(),
                m.in_interval(x),
                i <= n,
                forall|k: int| 0 <= k < i ==> m.values[k] != x,
            decreases n - i,
        {
            assert(m.values[i as int] == self.variants@[i as int].value);
            if self.variants[i].value == x {
                proof {
                    lemma_unique_index(m, i as int, x);
                }
                return ConstEnum::Wellknown(i);
            }
            i = i + 1;
        }
        ConstEnum::Unknown(x)
    }
}

/// In a well-formed declaration at most one variant has a given value, so
/// classifying an admissible value picks the variant that has it.
proof fn lemma_unique_index(m: DefModel, i: int, x: i128)
    requires
        m.wf(),
        0 <= i < m.len(),
        m.values[i] == x,
        m.in_interval(x),
    ensures
        m.classify(x) == ConstEnum::<usize, i128>::Wellknown(i as usize),
{
    assert(m.declares(x));
    let k = m.index_of(x);
    if k != i {
        assert(m.variant_ok(k));
        assert(m.variant_ok(i));
        if k < i {
            assert(m.value_clash(k, i));
        } else {
            assert(m.value_clash(i, k));
        }
    }
}

/// Classification is total and exact: every raw value is either known as a
/// declared variant that has that very value, or unknown carrying the value
/// unchanged.
pub proof fn lemma_classify_total(m: DefModel, x: i128)
    requires
        m.wf(),
    ensures
        match m.classify(x) {
            ConstEnum::Wellknown(i) => i < m.len() && m.values[i as int] == x,
            ConstEnum::Unknown(y) => y == x,
        },
{
    if m.in_interval(x) && m.declares(x) {
        let i = choose|i: int| 0 <= i < m.len() && m.values[i] == x;
        lemma_unique_index(m, i, x);
    }
}

/// Classifying the value of a declared variant gives back that variant.
pub proof fn lemma_round_trip(m: DefModel, i: usize)
    requires
        m.wf(),
        i < m.len(),
    ensures
        m.classify(m.values[i as int]) == ConstEnum::<usize, i128>::Wellknown(i),
{
    assert(m.variant_ok(i as int));
    lemma_unique_index(m, i as int, m.values[i as int]);
}

/// A raw value that is outside the interval, or that no variant has, is
/// classified as unknown and kept unchanged.
pub proof fn lemma_unknown_keeps_value(m: DefModel, x: i128)
    requires
        !m.in_interval(x) || forall|i: int| 0 <= i < m.len() ==> m.values[i] != x,
    ensures
        m.classify(x) == ConstEnum::<usize, i128>::Unknown(x),
{
}

/// The interval is checked before the variants: a raw value outside it is
/// unknown even when some variant carries that very value.
pub proof fn lemma_interval_first(m: DefModel, x: i128)
    requires
        m.interval matches Some((lo, hi)) && (x < lo || x > hi),
    ensures
        m.classify(x) == ConstEnum::<usize, i128>::Unknown(x),
{
}

/// A declaration in which two variants share a value, two share a name, or
/// a value lies outside the declared interval is not well-formed, so
/// validation rejects it and no classifier is ever built from it.
pub proof fn lemma_rejects_defects(m: DefModel, i: int, j: int)
    requires
        0 <= i < m.len(),
        0 <= j < m.len(),
        m.names.len() == m.values.len(),
        (i != j && m.values[i] == m.values[j]) || (i != j && m.names[i] == m.names[j])
            || !m.in_interval(m.values[i]),
    ensures
        !m.wf(),
{
    if m.wf() {
        assert(m.variant_ok(i));
        assert(m.variant_ok(j));
        if i < j {
            assert(m.value_clash(i, j) || m.name_clash(i, j) || !m.in_interval(m.values[i]));
        } else if j < i {
            assert(m.value_clash(j, i) || m.name_clash(j, i) || !m.in_interval(m.values[i]));
        }
    }
}

} // verus!
