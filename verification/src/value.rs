use vstd::prelude::*;

verus! {

/// The mathematical shape of a reflected field value: one variant per scalar
/// kind of the field taxonomy.  32- and 64-bit floating-point values travel
/// through the reflection layer as their IEEE-754 bit patterns, which keeps
/// every value exact and keeps the layer free of floating-point arithmetic.
pub enum ReflectValueSpec {
    U32(u32),
    U64(u64),
    I32(i32),
    I64(i64),
    F32Bits(u32),
    F64Bits(u64),
    Bool(bool),
    Str(Seq<char>),
    Bytes(Seq<u8>),
}

/// A type-erased scalar field value: the element type of the generic
/// container views.  Carries one of the nine scalar kinds as a plain value.
#[derive(Debug, Clone, PartialEq)]
pub enum ReflectValue {
    U32(u32),
    U64(u64),
    I32(i32),
    I64(i64),
    F32Bits(u32),
    F64Bits(u64),
    Bool(bool),
    Str(String),
    Bytes(Vec<u8>),
}

impl View for ReflectValue {
    type V = ReflectValueSpec;

    open spec fn view(&self) -> ReflectValueSpec {
        match self {
            ReflectValue::U32(v) => ReflectValueSpec::U32(*v),
            ReflectValue::U64(v) => ReflectValueSpec::U64(*v),
            ReflectValue::I32(v) => ReflectValueSpec::I32(*v),
            ReflectValue::I64(v) => ReflectValueSpec::I64(*v),
            ReflectValue::F32Bits(v) => ReflectValueSpec::F32Bits(*v),
            ReflectValue::F64Bits(v) => ReflectValueSpec::F64Bits(*v),
            ReflectValue::Bool(v) => ReflectValueSpec::Bool(*v),
            ReflectValue::Str(s) => ReflectValueSpec::Str(s@),
            ReflectValue::Bytes(b) => ReflectValueSpec::Bytes(b@),
        }
    }
}

/// Equality of two byte vectors, decided element by element.
pub fn bytes_eq(a: &Vec<u8>, b: &Vec<u8>) -> (r: bool)
    ensures
        r == (a@ == b@),
{
    if a.len() != b.len() {
        return false;
    }
    let mut i: usize = 0;
    while i < a.len()
        invariant
            i <= a.len(),
            a.len() == b.len(),
            forall|j: int| 0 <= j < i ==> a@[j] == b@[j],
        decreases a.len() - i,
    {
        if a[i] != b[i] {
            return false;
        }
        i += 1;
    }
    proof {
        assert(a@ =~= b@);
    }
    true
}

impl ReflectValue {
    /// Decides whether two erased values hold the same kind and the same
    /// payload, exactly as spec-level equality of their views.
    pub fn value_eq(&self, other: &ReflectValue) -> (r: bool)
        ensures
            r == (self@ == other@),
    {
        match (self, other) {
            (ReflectValue::U32(a), ReflectValue::U32(b)) => a == b,
            (ReflectValue::U64(a), ReflectValue::U64(b)) => a == b,
            (ReflectValue::I32(a), ReflectValue::I32(b)) => a == b,
            (ReflectValue::I64(a), ReflectValue::I64(b)) => a == b,
            (ReflectValue::F32Bits(a), ReflectValue::F32Bits(b)) => a == b,
            (ReflectValue::F64Bits(a), ReflectValue::F64Bits(b)) => a == b,
            (ReflectValue::Bool(a), ReflectValue::Bool(b)) => a == b,
            (ReflectValue::Str(a), ReflectValue::Str(b)) => a.eq(b),
            (ReflectValue::Bytes(a), ReflectValue::Bytes(b)) => bytes_eq(a, b),
            _ => false,
        }
    }
}

/// The process-wide description of one declared enum constant: its declared
/// name and its numeric value.  Returned by value; the two fields identify
/// the constant completely.
#[derive(Debug, Clone, Copy)]
pub struct EnumValueDescriptor {
    pub name: &'static str,
    pub number: i32,
}

/// The capability an enum-typed field value offers the reflection layer:
/// its numeric value and its value descriptor.  Generated enum types
/// implement this trait; `SimpleEnumValue` is a ready-made implementation.
pub trait EnumValue: Sized {
    spec fn value_spec(&self) -> i32;

    spec fn descriptor_spec(&self) -> EnumValueDescriptor;

    fn value(&self) -> (v: i32)
        ensures
            v == self.value_spec(),
    ;

    fn descriptor(&self) -> (d: EnumValueDescriptor)
        ensures
            d == self.descriptor_spec(),
    ;
}

/// An enum value that simply carries its own descriptor.
#[derive(Debug, Clone, Copy)]
pub struct SimpleEnumValue {
    pub desc: EnumValueDescriptor,
}

impl EnumValue for SimpleEnumValue {
    open spec fn value_spec(&self) -> i32 {
        self.desc.number
    }

    open spec fn descriptor_spec(&self) -> EnumValueDescriptor {
        self.desc
    }

    fn value(&self) -> i32 {
        self.desc.number
    }

    fn descriptor(&self) -> EnumValueDescriptor {
        self.desc
    }
}

} // verus!
