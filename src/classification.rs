use vstd::prelude::*;

verus! {

/// The outcome of classifying a raw value: a declared variant, or the raw
/// value itself when it matches none.
#[derive(Clone, Copy, Debug, PartialEq, Eq, Structural)]
pub enum ConstEnum<TargetEnum, BaseType> {
    Wellknown(TargetEnum),
    Unknown(BaseType),
}

impl<TargetEnum, BaseType> ConstEnum<TargetEnum, BaseType> {
    /// Takes the variant out of a known classification. Only defined on
    /// `Wellknown`: callers must have ruled out the unknown case.
    pub fn unwrap(self) -> (v: TargetEnum)
        requires
            self is Wellknown,
        ensures
            self == ConstEnum::<TargetEnum, BaseType>::Wellknown(v),
    {
        match self {
            ConstEnum::Wellknown(v) => v,
            ConstEnum::Unknown(_) => unreached(),
        }
    }
}

/// A container whose single primitive field can be classified into a closed
/// set of named variants.
pub trait AsEnum {
    type TargetEnum;

    type BaseType: Copy;

    /// What classifying this container yields.
    spec fn spec_as_enum(&self) -> ConstEnum<Self::TargetEnum, Self::BaseType>;

    fn as_enum(&self) -> (r: ConstEnum<Self::TargetEnum, Self::BaseType>)
        ensures
            r == self.spec_as_enum(),
    ;
}

} // verus!
