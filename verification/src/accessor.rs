use vstd::prelude::*;
use core::marker::PhantomData;
use crate::containers::ReflectMap;
use crate::containers::ReflectRepeated;
use crate::value::EnumValue;
use crate::value::EnumValueDescriptor;

verus! {

/// The bound getter of a singular field, tagged by the shape of the value
/// it extracts.  The 32- and 64-bit floating-point kinds carry getters that
/// yield the value's IEEE-754 bit pattern, which preserves it exactly.
pub enum SingularGet<G> {
    U32(G),
    U64(G),
    I32(G),
    I64(G),
    F32(G),
    F64(G),
    Bool(G),
    Str(G),
    Bytes(G),
    Enum(G),
    Message(G),
}

/// The bound getter of a repeated field, tagged by element shape; each
/// getter yields a borrowed slice of the backing sequence.
pub enum RepeatedGet<G> {
    U32(G),
    U64(G),
    I32(G),
    I64(G),
    F32(G),
    F64(G),
    Bool(G),
    Str(G),
    Bytes(G),
    Enum(G),
    Message(G),
}

impl<G> RepeatedGet<G> {
    /// The bound getter, whichever element shape tags it.
    pub open spec fn getter_spec(&self) -> G {
        match *self {
            RepeatedGet::U32(g) => g,
            RepeatedGet::U64(g) => g,
            RepeatedGet::I32(g) => g,
            RepeatedGet::I64(g) => g,
            RepeatedGet::F32(g) => g,
            RepeatedGet::F64(g) => g,
            RepeatedGet::Bool(g) => g,
            RepeatedGet::Str(g) => g,
            RepeatedGet::Bytes(g) => g,
            RepeatedGet::Enum(g) => g,
            RepeatedGet::Message(g) => g,
        }
    }

    /// The bound getter, whichever element shape tags it.
    pub fn getter(&self) -> (r: &G)
        ensures
            *r == self.getter_spec(),
    {
        match self {
            RepeatedGet::U32(g) => g,
            RepeatedGet::U64(g) => g,
            RepeatedGet::I32(g) => g,
            RepeatedGet::I64(g) => g,
            RepeatedGet::F32(g) => g,
            RepeatedGet::F64(g) => g,
            RepeatedGet::Bool(g) => g,
            RepeatedGet::Str(g) => g,
            RepeatedGet::Bytes(g) => g,
            RepeatedGet::Enum(g) => g,
            RepeatedGet::Message(g) => g,
        }
    }
}

/// The tagged union of bound representations: the tag is fixed when the
/// accessor is constructed and never changes, and every accessor method is
/// valid for exactly one tag.
pub enum FieldAccessorFunctions<H, G, S> {
    Singular { has: H, get: SingularGet<G> },
    Repeated(RepeatedGet<G>),
    MapField { get: G, set: S },
    RepeatedField { get: G, set: S },
}

/// The three answers a reflected-view query can give: the field's storage
/// is a genuine repeated container, a genuine map, or neither (access it
/// through the singular or repeated getters instead).
#[derive(Debug, Clone, Copy, PartialEq, Eq, Structural)]
pub enum ReflectFieldKind {
    Repeated,
    MapView,
    Other,
}

/// One field's polymorphic accessor, bound to the concrete record type `M`
/// it was constructed against.  `H` is the presence predicate's type, `G`
/// the bound getter's, and `S` the container setter's; a shape that stores
/// no value of one of these types leaves it free, and its factory fills the
/// slot with one of the types it does store.
///
/// Binding `M` as a type parameter is what makes invoking an accessor
/// against a record of the wrong concrete type impossible: the narrowing
/// step other designs perform per call is performed here once, by the type
/// of the construction API.
pub struct FieldAccessor<M, H, G, S> {
    pub name: &'static str,
    pub fns: FieldAccessorFunctions<H, G, S>,
    pub record: PhantomData<M>,
}

impl<M, H, G, S> FieldAccessor<M, H, G, S> {
    /// The declared name of the field this accessor was installed for.
    pub fn name_generic(&self) -> (r: &'static str)
        ensures
            r == self.name,
    {
        self.name
    }

    /// Whether the field is set on the given record, as the bound presence
    /// predicate answers it.  Valid only for the singular tag; the factory
    /// of an always-present field installs a constant-true predicate, the
    /// factory of an explicit-presence field its caller-supplied one.
    pub fn has_field_generic(&self, m: &M) -> (r: bool) where H: Fn(&M) -> bool
        requires
            self.fns matches FieldAccessorFunctions::Singular { has, .. } && call_requires(
                has,
                (m,),
            ),
        ensures
            self.fns matches FieldAccessorFunctions::Singular { has, .. } && call_ensures(
                has,
                (m,),
                r,
            ),
    {
        match &self.fns {
            FieldAccessorFunctions::Singular { has, .. } => has(m),
            _ => unreached(),
        }
    }

    /// The field's unsigned 32-bit value on the given record.  Valid only
    /// for the singular unsigned 32-bit tag.
    pub fn get_u32_generic(&self, m: &M) -> (r: u32) where G: Fn(&M) -> u32
        requires
            self.fns matches FieldAccessorFunctions::Singular {
                get: SingularGet::U32(g),
                ..
            } && call_requires(g, (m,)),
        ensures
            self.fns matches FieldAccessorFunctions::Singular {
                get: SingularGet::U32(g),
                ..
            } && call_ensures(g, (m,), r),
    {
        match &self.fns {
            FieldAccessorFunctions::Singular { get: SingularGet::U32(g), .. } => g(m),
            _ => unreached(),
        }
    }

    /// The field's borrowed text value on the given record.  Valid only for
    /// the singular text tag.
    pub fn get_str_generic<'a>(&self, m: &'a M) -> (r: &'a str) where G: Fn(&M) -> &str
        requires
            self.fns matches FieldAccessorFunctions::Singular {
                get: SingularGet::Str(g),
                ..
            } && call_requires(g, (m,)),
        ensures
            self.fns matches FieldAccessorFunctions::Singular {
                get: SingularGet::Str(g),
                ..
            } && call_ensures(g, (m,), r),
    {
        match &self.fns {
            FieldAccessorFunctions::Singular { get: SingularGet::Str(g), .. } => g(m),
            _ => unreached(),
        }
    }

    /// The descriptor of the field's enum value on the given record.  Valid
    /// only for the singular enum tag; the bound getter's result is resolved
    /// to its declared value descriptor.
    pub fn get_enum_generic<E: EnumValue>(&self, m: &M) -> (r: EnumValueDescriptor) where
        G: Fn(&M) -> E,

        requires
            self.fns matches FieldAccessorFunctions::Singular {
                get: SingularGet::Enum(g),
                ..
            } && call_requires(g, (m,)),
        ensures
            self.fns matches FieldAccessorFunctions::Singular {
                get: SingularGet::Enum(g),
                ..
            } && exists|e: E| call_ensures(g, (m,), e) && r == e.descriptor_spec(),
    {
        match &self.fns {
            FieldAccessorFunctions::Singular { get: SingularGet::Enum(g), .. } => g(m).descriptor(),
            _ => unreached(),
        }
    }

    /// A borrowed reference to the field's submessage on the given record.
    /// Valid only for the singular submessage tag; `N` is the submessage's
    /// concrete record type.
    pub fn get_message_generic<'a, N>(&self, m: &'a M) -> (r: &'a N) where G: Fn(&M) -> &N
        requires
            self.fns matches FieldAccessorFunctions::Singular {
                get: SingularGet::Message(g),
                ..
            } && call_requires(g, (m,)),
        ensures
            self.fns matches FieldAccessorFunctions::Singular {
                get: SingularGet::Message(g),
                ..
            } && call_ensures(g, (m,), r),
    {
        match &self.fns {
            FieldAccessorFunctions::Singular { get: SingularGet::Message(g), .. } => g(m),
            _ => unreached(),
        }
    }

    /// The number of elements of the repeated field on the given record:
    /// the length of the borrowed sequence the bound getter yields.  Valid
    /// only for the repeated tag; `T` is the bound sequence's element type.
    pub fn len_field_generic<T>(&self, m: &M) -> (r: usize) where G: Fn(&M) -> &[T]
        requires
            self.fns matches FieldAccessorFunctions::Repeated(rg) && call_requires(
                rg.getter_spec(),
                (m,),
            ),
        ensures
            self.fns matches FieldAccessorFunctions::Repeated(rg) && exists|s: &[T]|
                call_ensures(rg.getter_spec(), (m,), s) && r == s@.len(),
    {
        match &self.fns {
            FieldAccessorFunctions::Repeated(rg) => {
                let g = rg.getter();
                let s = g(m);
                s.len()
            },
            _ => unreached(),
        }
    }

    /// The borrowed sequence of the repeated unsigned 32-bit field on the
    /// given record.  Valid only for the repeated unsigned 32-bit tag.
    pub fn get_rep_u32_generic<'a>(&self, m: &'a M) -> (r: &'a [u32]) where G: Fn(&M) -> &[u32]
        requires
            self.fns matches FieldAccessorFunctions::Repeated(RepeatedGet::U32(g)) && call_requires(
                g,
                (m,),
            ),
        ensures
            self.fns matches FieldAccessorFunctions::Repeated(RepeatedGet::U32(g)) && call_ensures(
                g,
                (m,),
                r,
            ),
    {
        match &self.fns {
            FieldAccessorFunctions::Repeated(RepeatedGet::U32(g)) => g(m),
            _ => unreached(),
        }
    }

    /// The descriptor of the element at the given index of the repeated
    /// enum field.  Valid only for the repeated enum tag, and only for an
    /// index below the sequence's length.
    pub fn get_rep_enum_item_generic<E: EnumValue>(&self, m: &M, index: usize) -> (r:
        EnumValueDescriptor) where G: Fn(&M) -> &[E]
        requires
            self.fns matches FieldAccessorFunctions::Repeated(RepeatedGet::Enum(g))
                && call_requires(g, (m,)) && forall|s: &[E]|
                call_ensures(g, (m,), s) ==> index < s@.len(),
        ensures
            self.fns matches FieldAccessorFunctions::Repeated(RepeatedGet::Enum(g)) && exists|
                s: &[E],
            |
                call_ensures(g, (m,), s) && index < s@.len() && r == s@[index as int].descriptor_spec(),
    {
        match &self.fns {
            FieldAccessorFunctions::Repeated(RepeatedGet::Enum(g)) => {
                let s = g(m);
                s[index].descriptor()
            },
            _ => unreached(),
        }
    }

    /// A borrowed reference to the element at the given index of the
    /// repeated submessage field.  Valid only for the repeated submessage
    /// tag, and only for an index below the sequence's length.
    pub fn get_rep_message_item_generic<'a, N>(&self, m: &'a M, index: usize) -> (r: &'a N) where
        G: Fn(&M) -> &[N],

        requires
            self.fns matches FieldAccessorFunctions::Repeated(RepeatedGet::Message(g))
                && call_requires(g, (m,)) && forall|s: &[N]|
                call_ensures(g, (m,), s) ==> index < s@.len(),
        ensures
            self.fns matches FieldAccessorFunctions::Repeated(RepeatedGet::Message(g)) && exists|
                s: &[N],
            |
                call_ensures(g, (m,), s) && index < s@.len() && *r == s@[index as int],
    {
        match &self.fns {
            FieldAccessorFunctions::Repeated(RepeatedGet::Message(g)) => {
                let s = g(m);
                &s[index]
            },
            _ => unreached(),
        }
    }

    /// Which reflected view the field's storage supports: a repeated
    /// container, a map, or neither.  Valid for every tag.
    pub fn get_reflect_kind(&self) -> (r: ReflectFieldKind)
        ensures
            r == ReflectFieldKind::Repeated <==> self.fns matches
                FieldAccessorFunctions::RepeatedField { .. },
            r == ReflectFieldKind::MapView <==> self.fns matches FieldAccessorFunctions::MapField {
                ..
            },
    {
        match &self.fns {
            FieldAccessorFunctions::RepeatedField { .. } => ReflectFieldKind::Repeated,
            FieldAccessorFunctions::MapField { .. } => ReflectFieldKind::MapView,
            _ => ReflectFieldKind::Other,
        }
    }

    /// The immutable map view of the field on the given record.  Valid only
    /// for the map tag.
    pub fn get_map_field<'a>(&self, m: &'a M) -> (r: &'a ReflectMap) where
        G: Fn(&M) -> &ReflectMap,

        requires
            self.fns matches FieldAccessorFunctions::MapField { get, .. } && call_requires(
                get,
                (m,),
            ),
        ensures
            self.fns matches FieldAccessorFunctions::MapField { get, .. } && call_ensures(
                get,
                (m,),
                r,
            ),
    {
        match &self.fns {
            FieldAccessorFunctions::MapField { get, .. } => get(m),
            _ => unreached(),
        }
    }

    /// Replaces the field's map storage on the given record, yielding the
    /// updated record.  Valid only for the map tag; exclusive access to the
    /// record for the span of the call is what ownership of `m` grants.
    pub fn set_map_field(&self, m: M, new_value: ReflectMap) -> (r: M) where
        S: Fn(M, ReflectMap) -> M,

        requires
            self.fns matches FieldAccessorFunctions::MapField { set, .. } && call_requires(
                set,
                (m, new_value),
            ),
        ensures
            self.fns matches FieldAccessorFunctions::MapField { set, .. } && call_ensures(
                set,
                (m, new_value),
                r,
            ),
    {
        match &self.fns {
            FieldAccessorFunctions::MapField { set, .. } => set(m, new_value),
            _ => unreached(),
        }
    }

    /// The immutable repeated-container view of the field on the given
    /// record.  Valid only for the repeated-container tag.
    pub fn get_repeated_field<'a>(&self, m: &'a M) -> (r: &'a ReflectRepeated) where
        G: Fn(&M) -> &ReflectRepeated,

        requires
            self.fns matches FieldAccessorFunctions::RepeatedField { get, .. } && call_requires(
                get,
                (m,),
            ),
        ensures
            self.fns matches FieldAccessorFunctions::RepeatedField { get, .. } && call_ensures(
                get,
                (m,),
                r,
            ),
    {
        match &self.fns {
            FieldAccessorFunctions::RepeatedField { get, .. } => get(m),
            _ => unreached(),
        }
    }

    /// Replaces the field's repeated-container storage on the given record,
    /// yielding the updated record.  Valid only for the repeated-container
    /// tag.
    pub fn set_repeated_field(&self, m: M, new_value: ReflectRepeated) -> (r: M) where
        S: Fn(M, ReflectRepeated) -> M,

        requires
            self.fns matches FieldAccessorFunctions::RepeatedField { set, .. } && call_requires(
                set,
                (m, new_value),
            ),
        ensures
            self.fns matches FieldAccessorFunctions::RepeatedField { set, .. } && call_ensures(
                set,
                (m, new_value),
                r,
            ),
    {
        match &self.fns {
            FieldAccessorFunctions::RepeatedField { set, .. } => set(m, new_value),
            _ => unreached(),
        }
    }

    /// The field's unsigned 64-bit value on the given record.  Valid only
    /// for the singular tag of that shape.
    pub fn get_u64_generic(&self, m: &M) -> (r: u64) where G: Fn(&M) -> u64
        requires
            self.fns matches FieldAccessorFunctions::Singular {
                get: SingularGet::U64(g),
                ..
            } && call_requires(g, (m,)),
        ensures
            self.fns matches FieldAccessorFunctions::Singular {
                get: SingularGet::U64(g),
                ..
            } && call_ensures(g, (m,), r),
    {
        match &self.fns {
            FieldAccessorFunctions::Singular { get: SingularGet::U64(g), .. } => g(m),
            _ => unreached(),
        }
    }

    /// The field's signed 32-bit value on the given record.  Valid only
    /// for the singular tag of that shape.
    pub fn get_i32_generic(&self, m: &M) -> (r: i32) where G: Fn(&M) -> i32
        requires
            self.fns matches FieldAccessorFunctions::Singular {
                get: SingularGet::I32(g),
                ..
            } && call_requires(g, (m,)),
        ensures
            self.fns matches FieldAccessorFunctions::Singular {
                get: SingularGet::I32(g),
                ..
            } && call_ensures(g, (m,), r),
    {
        match &self.fns {
            FieldAccessorFunctions::Singular { get: SingularGet::I32(g), .. } => g(m),
            _ => unreached(),
        }
    }

    /// The field's signed 64-bit value on the given record.  Valid only
    /// for the singular tag of that shape.
    pub fn get_i64_generic(&self, m: &M) -> (r: i64) where G: Fn(&M) -> i64
        requires
            self.fns matches FieldAccessorFunctions::Singular {
                get: SingularGet::I64(g),
                ..
            } && call_requires(g, (m,)),
        ensures
            self.fns matches FieldAccessorFunctions::Singular {
                get: SingularGet::I64(g),
                ..
            } && call_ensures(g, (m,), r),
    {
        match &self.fns {
            FieldAccessorFunctions::Singular { get: SingularGet::I64(g), .. } => g(m),
            _ => unreached(),
        }
    }

    /// The field's 32-bit floating-point bit pattern value on the given record.  Valid only
    /// for the singular tag of that shape.
    pub fn get_f32_generic(&self, m: &M) -> (r: u32) where G: Fn(&M) -> u32
        requires
            self.fns matches FieldAccessorFunctions::Singular {
                get: SingularGet::F32(g),
                ..
            } && call_requires(g, (m,)),
        ensures
            self.fns matches FieldAccessorFunctions::Singular {
                get: SingularGet::F32(g),
                ..
            } && call_ensures(g, (m,), r),
    {
        match &self.fns {
            FieldAccessorFunctions::Singular { get: SingularGet::F32(g), .. } => g(m),
            _ => unreached(),
        }
    }

    /// The field's 64-bit floating-point bit pattern value on the given record.  Valid only
    /// for the singular tag of that shape.
    pub fn get_f64_generic(&self, m: &M) -> (r: u64) where G: Fn(&M) -> u64
        requires
            self.fns matches FieldAccessorFunctions::Singular {
                get: SingularGet::F64(g),
                ..
            } && call_requires(g, (m,)),
        ensures
            self.fns matches FieldAccessorFunctions::Singular {
                get: SingularGet::F64(g),
                ..
            } && call_ensures(g, (m,), r),
    {
        match &self.fns {
            FieldAccessorFunctions::Singular { get: SingularGet::F64(g), .. } => g(m),
            _ => unreached(),
        }
    }

    /// The field's boolean value on the given record.  Valid only
    /// for the singular tag of that shape.
    pub fn get_bool_generic(&self, m: &M) -> (r: bool) where G: Fn(&M) -> bool
        requires
            self.fns matches FieldAccessorFunctions::Singular {
                get: SingularGet::Bool(g),
                ..
            } && call_requires(g, (m,)),
        ensures
            self.fns matches FieldAccessorFunctions::Singular {
                get: SingularGet::Bool(g),
                ..
            } && call_ensures(g, (m,), r),
    {
        match &self.fns {
            FieldAccessorFunctions::Singular { get: SingularGet::Bool(g), .. } => g(m),
            _ => unreached(),
        }
    }

    /// The field's borrowed byte-sequence value on the given record.  Valid
    /// only for the singular byte-sequence tag.
    pub fn get_bytes_generic<'a>(&self, m: &'a M) -> (r: &'a [u8]) where G: Fn(&M) -> &[u8]
        requires
            self.fns matches FieldAccessorFunctions::Singular {
                get: SingularGet::Bytes(g),
                ..
            } && call_requires(g, (m,)),
        ensures
            self.fns matches FieldAccessorFunctions::Singular {
                get: SingularGet::Bytes(g),
                ..
            } && call_ensures(g, (m,), r),
    {
        match &self.fns {
            FieldAccessorFunctions::Singular { get: SingularGet::Bytes(g), .. } => g(m),
            _ => unreached(),
        }
    }

    /// The borrowed sequence of the repeated unsigned 64-bit field on the
    /// given record.  Valid only for the repeated tag of that shape.
    pub fn get_rep_u64_generic<'a>(&self, m: &'a M) -> (r: &'a [u64]) where
        G: Fn(&M) -> &[u64],

        requires
            self.fns matches FieldAccessorFunctions::Repeated(RepeatedGet::U64(g)) && call_requires(
                g,
                (m,),
            ),
        ensures
            self.fns matches FieldAccessorFunctions::Repeated(RepeatedGet::U64(g)) && call_ensures(
                g,
                (m,),
                r,
            ),
    {
        match &self.fns {
            FieldAccessorFunctions::Repeated(RepeatedGet::U64(g)) => g(m),
            _ => unreached(),
        }
    }

    /// The borrowed sequence of the repeated signed 32-bit field on the
    /// given record.  Valid only for the repeated tag of that shape.
    pub fn get_rep_i32_generic<'a>(&self, m: &'a M) -> (r: &'a [i32]) where
        G: Fn(&M) -> &[i32],

        requires
            self.fns matches FieldAccessorFunctions::Repeated(RepeatedGet::I32(g)) && call_requires(
                g,
                (m,),
            ),
        ensures
            self.fns matches FieldAccessorFunctions::Repeated(RepeatedGet::I32(g)) && call_ensures(
                g,
                (m,),
                r,
            ),
    {
        match &self.fns {
            FieldAccessorFunctions::Repeated(RepeatedGet::I32(g)) => g(m),
            _ => unreached(),
        }
    }

    /// The borrowed sequence of the repeated signed 64-bit field on the
    /// given record.  Valid only for the repeated tag of that shape.
    pub fn get_rep_i64_generic<'a>(&self, m: &'a M) -> (r: &'a [i64]) where
        G: Fn(&M) -> &[i64],

        requires
            self.fns matches FieldAccessorFunctions::Repeated(RepeatedGet::I64(g)) && call_requires(
                g,
                (m,),
            ),
        ensures
            self.fns matches FieldAccessorFunctions::Repeated(RepeatedGet::I64(g)) && call_ensures(
                g,
                (m,),
                r,
            ),
    {
        match &self.fns {
            FieldAccessorFunctions::Repeated(RepeatedGet::I64(g)) => g(m),
            _ => unreached(),
        }
    }

    /// The borrowed sequence of the repeated 32-bit floating-point bit-pattern field on the
    /// given record.  Valid only for the repeated tag of that shape.
    pub fn get_rep_f32_generic<'a>(&self, m: &'a M) -> (r: &'a [u32]) where
        G: Fn(&M) -> &[u32],

        requires
            self.fns matches FieldAccessorFunctions::Repeated(RepeatedGet::F32(g)) && call_requires(
                g,
                (m,),
            ),
        ensures
            self.fns matches FieldAccessorFunctions::Repeated(RepeatedGet::F32(g)) && call_ensures(
                g,
                (m,),
                r,
            ),
    {
        match &self.fns {
            FieldAccessorFunctions::Repeated(RepeatedGet::F32(g)) => g(m),
            _ => unreached(),
        }
    }

    /// The borrowed sequence of the repeated 64-bit floating-point bit-pattern field on the
    /// given record.  Valid only for the repeated tag of that shape.
    pub fn get_rep_f64_generic<'a>(&self, m: &'a M) -> (r: &'a [u64]) where
        G: Fn(&M) -> &[u64],

        requires
            self.fns matches FieldAccessorFunctions::Repeated(RepeatedGet::F64(g)) && call_requires(
                g,
                (m,),
            ),
        ensures
            self.fns matches FieldAccessorFunctions::Repeated(RepeatedGet::F64(g)) && call_ensures(
                g,
                (m,),
                r,
            ),
    {
        match &self.fns {
            FieldAccessorFunctions::Repeated(RepeatedGet::F64(g)) => g(m),
            _ => unreached(),
        }
    }

    /// The borrowed sequence of the repeated boolean field on the
    /// given record.  Valid only for the repeated tag of that shape.
    pub fn get_rep_bool_generic<'a>(&self, m: &'a M) -> (r: &'a [bool]) where
        G: Fn(&M) -> &[bool],

        requires
            self.fns matches FieldAccessorFunctions::Repeated(RepeatedGet::Bool(g)) && call_requires(
                g,
                (m,),
            ),
        ensures
            self.fns matches FieldAccessorFunctions::Repeated(RepeatedGet::Bool(g)) && call_ensures(
                g,
                (m,),
                r,
            ),
    {
        match &self.fns {
            FieldAccessorFunctions::Repeated(RepeatedGet::Bool(g)) => g(m),
            _ => unreached(),
        }
    }

    /// The borrowed sequence of the repeated text field on the
    /// given record.  Valid only for the repeated tag of that shape.
    pub fn get_rep_str_generic<'a>(&self, m: &'a M) -> (r: &'a [String]) where
        G: Fn(&M) -> &[String],

        requires
            self.fns matches FieldAccessorFunctions::Repeated(RepeatedGet::Str(g)) && call_requires(
                g,
                (m,),
            ),
        ensures
            self.fns matches FieldAccessorFunctions::Repeated(RepeatedGet::Str(g)) && call_ensures(
                g,
                (m,),
                r,
            ),
    {
        match &self.fns {
            FieldAccessorFunctions::Repeated(RepeatedGet::Str(g)) => g(m),
            _ => unreached(),
        }
    }

    /// The borrowed sequence of the repeated byte-sequence field on the
    /// given record.  Valid only for the repeated tag of that shape.
    pub fn get_rep_bytes_generic<'a>(&self, m: &'a M) -> (r: &'a [Vec<u8>]) where
        G: Fn(&M) -> &[Vec<u8>],

        requires
            self.fns matches FieldAccessorFunctions::Repeated(RepeatedGet::Bytes(g)) && call_requires(
                g,
                (m,),
            ),
        ensures
            self.fns matches FieldAccessorFunctions::Repeated(RepeatedGet::Bytes(g)) && call_ensures(
                g,
                (m,),
                r,
            ),
    {
        match &self.fns {
            FieldAccessorFunctions::Repeated(RepeatedGet::Bytes(g)) => g(m),
            _ => unreached(),
        }
    }
}

/// Builds the accessor of an explicit-presence singular unsigned 32-bit
/// field from its presence predicate and its getter.
pub fn make_singular_u32_accessor<M, H: Fn(&M) -> bool, G: Fn(&M) -> u32>(
    name: &'static str,
    has: H,
    get: G,
) -> (r: FieldAccessor<M, H, G, G>)
    ensures
        r.name == name,
        r.fns matches FieldAccessorFunctions::Singular {
            has: h,
            get: SingularGet::U32(g),
        } && h == has && g == get,
{
    FieldAccessor {
        name,
        fns: FieldAccessorFunctions::Singular {
            has,
            get: SingularGet::U32(get),
        },
        record: PhantomData,
    }
}

/// Builds the accessor of an always-present (default-valued) singular
/// unsigned 32-bit field from its getter alone.
pub fn make_singular_proto3_u32_accessor<M, G: Fn(&M) -> u32>(
    name: &'static str,
    get: G,
) -> (r: FieldAccessor<M, impl Fn(&M) -> bool, G, G>)
    ensures
        r.name == name,
        r.fns matches FieldAccessorFunctions::Singular {
            has,
            get: SingularGet::U32(g),
        } && g == get && (forall|mm: &M| call_requires(has, (mm,))) && (forall|mm: &M, b: bool|
            call_ensures(has, (mm,), b) ==> b),
{
    let always_set = |_m: &M| -> (b: bool)
        ensures
            b,
        { true };
    FieldAccessor {
        name,
        fns: FieldAccessorFunctions::Singular {
            has: always_set,
            get: SingularGet::U32(get),
        },
        record: PhantomData,
    }
}


/// Builds the accessor of an explicit-presence singular signed 32-bit integer
/// field from its presence predicate and its getter.
pub fn make_singular_i32_accessor<M, H: Fn(&M) -> bool, G: Fn(&M) -> i32>(
    name: &'static str,
    has: H,
    get: G,
) -> (r: FieldAccessor<M, H, G, G>)
    ensures
        r.name == name,
        r.fns matches FieldAccessorFunctions::Singular {
            has: h,
            get: SingularGet::I32(g),
        } && h == has && g == get,
{
    FieldAccessor {
        name,
        fns: FieldAccessorFunctions::Singular {
            has,
            get: SingularGet::I32(get),
        },
        record: PhantomData,
    }
}

/// Builds the accessor of an always-present (default-valued) singular
/// signed 32-bit integer field from its getter alone.
pub fn make_singular_proto3_i32_accessor<M, G: Fn(&M) -> i32>(
    name: &'static str,
    get: G,
) -> (r: FieldAccessor<M, impl Fn(&M) -> bool, G, G>)
    ensures
        r.name == name,
        r.fns matches FieldAccessorFunctions::Singular {
            has,
            get: SingularGet::I32(g),
        } && g == get && (forall|mm: &M| call_requires(has, (mm,))) && (forall|mm: &M, b: bool|
            call_ensures(has, (mm,), b) ==> b),
{
    let always_set = |_m: &M| -> (b: bool)
        ensures
            b,
        { true };
    FieldAccessor {
        name,
        fns: FieldAccessorFunctions::Singular {
            has: always_set,
            get: SingularGet::I32(get),
        },
        record: PhantomData,
    }
}

/// Builds the accessor of an explicit-presence singular unsigned 64-bit integer
/// field from its presence predicate and its getter.
pub fn make_singular_u64_accessor<M, H: Fn(&M) -> bool, G: Fn(&M) -> u64>(
    name: &'static str,
    has: H,
    get: G,
) -> (r: FieldAccessor<M, H, G, G>)
    ensures
        r.name == name,
        r.fns matches FieldAccessorFunctions::Singular {
            has: h,
            get: SingularGet::U64(g),
        } && h == has && g == get,
{
    FieldAccessor {
        name,
        fns: FieldAccessorFunctions::Singular {
            has,
            get: SingularGet::U64(get),
        },
        record: PhantomData,
    }
}

/// Builds the accessor of an always-present (default-valued) singular
/// unsigned 64-bit integer field from its getter alone.
pub fn make_singular_proto3_u64_accessor<M, G: Fn(&M) -> u64>(
    name: &'static str,
    get: G,
) -> (r: FieldAccessor<M, impl Fn(&M) -> bool, G, G>)
    ensures
        r.name == name,
        r.fns matches FieldAccessorFunctions::Singular {
            has,
            get: SingularGet::U64(g),
        } && g == get && (forall|mm: &M| call_requires(has, (mm,))) && (forall|mm: &M, b: bool|
            call_ensures(has, (mm,), b) ==> b),
{
    let always_set = |_m: &M| -> (b: bool)
        ensures
            b,
        { true };
    FieldAccessor {
        name,
        fns: FieldAccessorFunctions::Singular {
            has: always_set,
            get: SingularGet::U64(get),
        },
        record: PhantomData,
    }
}

/// Builds the accessor of an explicit-presence singular signed 64-bit integer
/// field from its presence predicate and its getter.
pub fn make_singular_i64_accessor<M, H: Fn(&M) -> bool, G: Fn(&M) -> i64>(
    name: &'static str,
    has: H,
    get: G,
) -> (r: FieldAccessor<M, H, G, G>)
    ensures
        r.name == name,
        r.fns matches FieldAccessorFunctions::Singular {
            has: h,
            get: SingularGet::I64(g),
        } && h == has && g == get,
{
    FieldAccessor {
        name,
        fns: FieldAccessorFunctions::Singular {
            has,
            get: SingularGet::I64(get),
        },
        record: PhantomData,
    }
}

/// Builds the accessor of an always-present (default-valued) singular
/// signed 64-bit integer field from its getter alone.
pub fn make_singular_proto3_i64_accessor<M, G: Fn(&M) -> i64>(
    name: &'static str,
    get: G,
) -> (r: FieldAccessor<M, impl Fn(&M) -> bool, G, G>)
    ensures
        r.name == name,
        r.fns matches FieldAccessorFunctions::Singular {
            has,
            get: SingularGet::I64(g),
        } && g == get && (forall|mm: &M| call_requires(has, (mm,))) && (forall|mm: &M, b: bool|
            call_ensures(has, (mm,), b) ==> b),
{
    let always_set = |_m: &M| -> (b: bool)
        ensures
            b,
        { true };
    FieldAccessor {
        name,
        fns: FieldAccessorFunctions::Singular {
            has: always_set,
            get: SingularGet::I64(get),
        },
        record: PhantomData,
    }
}

/// Builds the accessor of an explicit-presence singular 32-bit floating-point (carried as its IEEE-754 bit pattern)
/// field from its presence predicate and its getter.
pub fn make_singular_f32_accessor<M, H: Fn(&M) -> bool, G: Fn(&M) -> u32>(
    name: &'static str,
    has: H,
    get: G,
) -> (r: FieldAccessor<M, H, G, G>)
    ensures
        r.name == name,
        r.fns matches FieldAccessorFunctions::Singular {
            has: h,
            get: SingularGet::F32(g),
        } && h == has && g == get,
{
    FieldAccessor {
        name,
        fns: FieldAccessorFunctions::Singular {
            has,
            get: SingularGet::F32(get),
        },
        record: PhantomData,
    }
}

/// Builds the accessor of an always-present (default-valued) singular
/// 32-bit floating-point (carried as its IEEE-754 bit pattern) field from its getter alone.
pub fn make_singular_proto3_f32_accessor<M, G: Fn(&M) -> u32>(
    name: &'static str,
    get: G,
) -> (r: FieldAccessor<M, impl Fn(&M) -> bool, G, G>)
    ensures
        r.name == name,
        r.fns matches FieldAccessorFunctions::Singular {
            has,
            get: SingularGet::F32(g),
        } && g == get && (forall|mm: &M| call_requires(has, (mm,))) && (forall|mm: &M, b: bool|
            call_ensures(has, (mm,), b) ==> b),
{
    let always_set = |_m: &M| -> (b: bool)
        ensures
            b,
        { true };
    FieldAccessor {
        name,
        fns: FieldAccessorFunctions::Singular {
            has: always_set,
            get: SingularGet::F32(get),
        },
        record: PhantomData,
    }
}

/// Builds the accessor of an explicit-presence singular 64-bit floating-point (carried as its IEEE-754 bit pattern)
/// field from its presence predicate and its getter.
pub fn make_singular_f64_accessor<M, H: Fn(&M) -> bool, G: Fn(&M) -> u64>(
    name: &'static str,
    has: H,
    get: G,
) -> (r: FieldAccessor<M, H, G, G>)
    ensures
        r.name == name,
        r.fns matches FieldAccessorFunctions::Singular {
            has: h,
            get: SingularGet::F64(g),
        } && h == has && g == get,
{
    FieldAccessor {
        name,
        fns: FieldAccessorFunctions::Singular {
            has,
            get: SingularGet::F64(get),
        },
        record: PhantomData,
    }
}

/// Builds the accessor of an always-present (default-valued) singular
/// 64-bit floating-point (carried as its IEEE-754 bit pattern) field from its getter alone.
pub fn make_singular_proto3_f64_accessor<M, G: Fn(&M) -> u64>(
    name: &'static str,
    get: G,
) -> (r: FieldAccessor<M, impl Fn(&M) -> bool, G, G>)
    ensures
        r.name == name,
        r.fns matches FieldAccessorFunctions::Singular {
            has,
            get: SingularGet::F64(g),
        } && g == get && (forall|mm: &M| call_requires(has, (mm,))) && (forall|mm: &M, b: bool|
            call_ensures(has, (mm,), b) ==> b),
{
    let always_set = |_m: &M| -> (b: bool)
        ensures
            b,
        { true };
    FieldAccessor {
        name,
        fns: FieldAccessorFunctions::Singular {
            has: always_set,
            get: SingularGet::F64(get),
        },
        record: PhantomData,
    }
}

/// Builds the accessor of an explicit-presence singular boolean
/// field from its presence predicate and its getter.
pub fn make_singular_bool_accessor<M, H: Fn(&M) -> bool, G: Fn(&M) -> bool>(
    name: &'static str,
    has: H,
    get: G,
) -> (r: FieldAccessor<M, H, G, G>)
    ensures
        r.name == name,
        r.fns matches FieldAccessorFunctions::Singular {
            has: h,
            get: SingularGet::Bool(g),
        } && h == has && g == get,
{
    FieldAccessor {
        name,
        fns: FieldAccessorFunctions::Singular {
            has,
            get: SingularGet::Bool(get),
        },
        record: PhantomData,
    }
}

/// Builds the accessor of an always-present (default-valued) singular
/// boolean field from its getter alone.
pub fn make_singular_proto3_bool_accessor<M, G: Fn(&M) -> bool>(
    name: &'static str,
    get: G,
) -> (r: FieldAccessor<M, impl Fn(&M) -> bool, G, G>)
    ensures
        r.name == name,
        r.fns matches FieldAccessorFunctions::Singular {
            has,
            get: SingularGet::Bool(g),
        } && g == get && (forall|mm: &M| call_requires(has, (mm,))) && (forall|mm: &M, b: bool|
            call_ensures(has, (mm,), b) ==> b),
{
    let always_set = |_m: &M| -> (b: bool)
        ensures
            b,
        { true };
    FieldAccessor {
        name,
        fns: FieldAccessorFunctions::Singular {
            has: always_set,
            get: SingularGet::Bool(get),
        },
        record: PhantomData,
    }
}

/// Builds the accessor of an explicit-presence singular text field from
/// its presence predicate and its borrowing getter.
pub fn make_singular_string_accessor<M, H: Fn(&M) -> bool, G: Fn(&M) -> &str>(
    name: &'static str,
    has: H,
    get: G,
) -> (r: FieldAccessor<M, H, G, G>)
    ensures
        r.name == name,
        r.fns matches FieldAccessorFunctions::Singular {
            has: h,
            get: SingularGet::Str(g),
        } && h == has && g == get,
{
    FieldAccessor {
        name,
        fns: FieldAccessorFunctions::Singular {
            has,
            get: SingularGet::Str(get),
        },
        record: PhantomData,
    }
}

/// Builds the accessor of an always-present (default-valued) singular
/// text field from its borrowing getter alone.
pub fn make_singular_proto3_string_accessor<M, G: Fn(&M) -> &str>(
    name: &'static str,
    get: G,
) -> (r: FieldAccessor<M, impl Fn(&M) -> bool, G, G>)
    ensures
        r.name == name,
        r.fns matches FieldAccessorFunctions::Singular {
            has,
            get: SingularGet::Str(g),
        } && g == get && (forall|mm: &M| call_requires(has, (mm,))) && (forall|mm: &M, b: bool|
            call_ensures(has, (mm,), b) ==> b),
{
    let always_set = |_m: &M| -> (b: bool)
        ensures
            b,
        { true };
    FieldAccessor {
        name,
        fns: FieldAccessorFunctions::Singular {
            has: always_set,
            get: SingularGet::Str(get),
        },
        record: PhantomData,
    }
}

/// Builds the accessor of an explicit-presence singular byte-sequence field from
/// its presence predicate and its borrowing getter.
pub fn make_singular_bytes_accessor<M, H: Fn(&M) -> bool, G: Fn(&M) -> &[u8]>(
    name: &'static str,
    has: H,
    get: G,
) -> (r: FieldAccessor<M, H, G, G>)
    ensures
        r.name == name,
        r.fns matches FieldAccessorFunctions::Singular {
            has: h,
            get: SingularGet::Bytes(g),
        } && h == has && g == get,
{
    FieldAccessor {
        name,
        fns: FieldAccessorFunctions::Singular {
            has,
            get: SingularGet::Bytes(get),
        },
        record: PhantomData,
    }
}

/// Builds the accessor of an always-present (default-valued) singular
/// byte-sequence field from its borrowing getter alone.
pub fn make_singular_proto3_bytes_accessor<M, G: Fn(&M) -> &[u8]>(
    name: &'static str,
    get: G,
) -> (r: FieldAccessor<M, impl Fn(&M) -> bool, G, G>)
    ensures
        r.name == name,
        r.fns matches FieldAccessorFunctions::Singular {
            has,
            get: SingularGet::Bytes(g),
        } && g == get && (forall|mm: &M| call_requires(has, (mm,))) && (forall|mm: &M, b: bool|
            call_ensures(has, (mm,), b) ==> b),
{
    let always_set = |_m: &M| -> (b: bool)
        ensures
            b,
        { true };
    FieldAccessor {
        name,
        fns: FieldAccessorFunctions::Singular {
            has: always_set,
            get: SingularGet::Bytes(get),
        },
        record: PhantomData,
    }
}

/// Builds the accessor of an explicit-presence singular enum field from
/// its presence predicate and a getter for the enum value, which the
/// accessor resolves to its declared value descriptor.
pub fn make_singular_enum_accessor<M, E: EnumValue, H: Fn(&M) -> bool, G: Fn(&M) -> E>(
    name: &'static str,
    has: H,
    get: G,
) -> (r: FieldAccessor<M, H, G, G>)
    ensures
        r.name == name,
        r.fns matches FieldAccessorFunctions::Singular {
            has: h,
            get: SingularGet::Enum(g),
        } && h == has && g == get,
{
    FieldAccessor {
        name,
        fns: FieldAccessorFunctions::Singular {
            has,
            get: SingularGet::Enum(get),
        },
        record: PhantomData,
    }
}

/// Builds the accessor of an always-present (default-valued) singular enum
/// field from a getter for the enum value alone.
pub fn make_singular_proto3_enum_accessor<M, E: EnumValue, G: Fn(&M) -> E>(
    name: &'static str,
    get: G,
) -> (r: FieldAccessor<M, impl Fn(&M) -> bool, G, G>)
    ensures
        r.name == name,
        r.fns matches FieldAccessorFunctions::Singular {
            has,
            get: SingularGet::Enum(g),
        } && g == get && (forall|mm: &M| call_requires(has, (mm,))) && (forall|mm: &M, b: bool|
            call_ensures(has, (mm,), b) ==> b),
{
    let always_set = |_m: &M| -> (b: bool)
        ensures
            b,
        { true };
    FieldAccessor {
        name,
        fns: FieldAccessorFunctions::Singular {
            has: always_set,
            get: SingularGet::Enum(get),
        },
        record: PhantomData,
    }
}

/// Builds the accessor of an explicit-presence singular submessage field
/// from its presence predicate and a getter borrowing the submessage, of
/// concrete record type `N`.
pub fn make_singular_message_accessor<M, N, H: Fn(&M) -> bool, G: Fn(&M) -> &N>(
    name: &'static str,
    has: H,
    get: G,
) -> (r: FieldAccessor<M, H, G, G>)
    ensures
        r.name == name,
        r.fns matches FieldAccessorFunctions::Singular {
            has: h,
            get: SingularGet::Message(g),
        } && h == has && g == get,
{
    FieldAccessor {
        name,
        fns: FieldAccessorFunctions::Singular {
            has,
            get: SingularGet::Message(get),
        },
        record: PhantomData,
    }
}

/// Builds the accessor of a repeated unsigned 32-bit integer field from a
/// getter borrowing the backing sequence.
pub fn make_repeated_u32_accessor<M, G: Fn(&M) -> &[u32]>(
    name: &'static str,
    get: G,
) -> (r: FieldAccessor<M, G, G, G>)
    ensures
        r.name == name,
        r.fns matches FieldAccessorFunctions::Repeated(RepeatedGet::U32(g)) && g == get,
{
    FieldAccessor {
        name,
        fns: FieldAccessorFunctions::Repeated(RepeatedGet::U32(get)),
        record: PhantomData,
    }
}

/// Builds the accessor of a repeated signed 32-bit integer field from a
/// getter borrowing the backing sequence.
pub fn make_repeated_i32_accessor<M, G: Fn(&M) -> &[i32]>(
    name: &'static str,
    get: G,
) -> (r: FieldAccessor<M, G, G, G>)
    ensures
        r.name == name,
        r.fns matches FieldAccessorFunctions::Repeated(RepeatedGet::I32(g)) && g == get,
{
    FieldAccessor {
        name,
        fns: FieldAccessorFunctions::Repeated(RepeatedGet::I32(get)),
        record: PhantomData,
    }
}

/// Builds the accessor of a repeated unsigned 64-bit integer field from a
/// getter borrowing the backing sequence.
pub fn make_repeated_u64_accessor<M, G: Fn(&M) -> &[u64]>(
    name: &'static str,
    get: G,
) -> (r: FieldAccessor<M, G, G, G>)
    ensures
        r.name == name,
        r.fns matches FieldAccessorFunctions::Repeated(RepeatedGet::U64(g)) && g == get,
{
    FieldAccessor {
        name,
        fns: FieldAccessorFunctions::Repeated(RepeatedGet::U64(get)),
        record: PhantomData,
    }
}

/// Builds the accessor of a repeated signed 64-bit integer field from a
/// getter borrowing the backing sequence.
pub fn make_repeated_i64_accessor<M, G: Fn(&M) -> &[i64]>(
    name: &'static str,
    get: G,
) -> (r: FieldAccessor<M, G, G, G>)
    ensures
        r.name == name,
        r.fns matches FieldAccessorFunctions::Repeated(RepeatedGet::I64(g)) && g == get,
{
    FieldAccessor {
        name,
        fns: FieldAccessorFunctions::Repeated(RepeatedGet::I64(get)),
        record: PhantomData,
    }
}

/// Builds the accessor of a repeated 32-bit floating-point bit-pattern field from a
/// getter borrowing the backing sequence.
pub fn make_repeated_f32_accessor<M, G: Fn(&M) -> &[u32]>(
    name: &'static str,
    get: G,
) -> (r: FieldAccessor<M, G, G, G>)
    ensures
        r.name == name,
        r.fns matches FieldAccessorFunctions::Repeated(RepeatedGet::F32(g)) && g == get,
{
    FieldAccessor {
        name,
        fns: FieldAccessorFunctions::Repeated(RepeatedGet::F32(get)),
        record: PhantomData,
    }
}

/// Builds the accessor of a repeated 64-bit floating-point bit-pattern field from a
/// getter borrowing the backing sequence.
pub fn make_repeated_f64_accessor<M, G: Fn(&M) -> &[u64]>(
    name: &'static str,
    get: G,
) -> (r: FieldAccessor<M, G, G, G>)
    ensures
        r.name == name,
        r.fns matches FieldAccessorFunctions::Repeated(RepeatedGet::F64(g)) && g == get,
{
    FieldAccessor {
        name,
        fns: FieldAccessorFunctions::Repeated(RepeatedGet::F64(get)),
        record: PhantomData,
    }
}

/// Builds the accessor of a repeated boolean field from a
/// getter borrowing the backing sequence.
pub fn make_repeated_bool_accessor<M, G: Fn(&M) -> &[bool]>(
    name: &'static str,
    get: G,
) -> (r: FieldAccessor<M, G, G, G>)
    ensures
        r.name == name,
        r.fns matches FieldAccessorFunctions::Repeated(RepeatedGet::Bool(g)) && g == get,
{
    FieldAccessor {
        name,
        fns: FieldAccessorFunctions::Repeated(RepeatedGet::Bool(get)),
        record: PhantomData,
    }
}

/// Builds the accessor of a repeated text field from a
/// getter borrowing the backing sequence.
pub fn make_repeated_string_accessor<M, G: Fn(&M) -> &[String]>(
    name: &'static str,
    get: G,
) -> (r: FieldAccessor<M, G, G, G>)
    ensures
        r.name == name,
        r.fns matches FieldAccessorFunctions::Repeated(RepeatedGet::Str(g)) && g == get,
{
    FieldAccessor {
        name,
        fns: FieldAccessorFunctions::Repeated(RepeatedGet::Str(get)),
        record: PhantomData,
    }
}

/// Builds the accessor of a repeated byte-sequence field from a
/// getter borrowing the backing sequence.
pub fn make_repeated_bytes_accessor<M, G: Fn(&M) -> &[Vec<u8>]>(
    name: &'static str,
    get: G,
) -> (r: FieldAccessor<M, G, G, G>)
    ensures
        r.name == name,
        r.fns matches FieldAccessorFunctions::Repeated(RepeatedGet::Bytes(g)) && g == get,
{
    FieldAccessor {
        name,
        fns: FieldAccessorFunctions::Repeated(RepeatedGet::Bytes(get)),
        record: PhantomData,
    }
}

/// Builds the accessor of a repeated enum field from a getter borrowing
/// the backing sequence of enum values; per-index access resolves each
/// element to its declared value descriptor.
pub fn make_repeated_enum_accessor<M, E: EnumValue, G: Fn(&M) -> &[E]>(
    name: &'static str,
    get: G,
) -> (r: FieldAccessor<M, G, G, G>)
    ensures
        r.name == name,
        r.fns matches FieldAccessorFunctions::Repeated(RepeatedGet::Enum(g)) && g == get,
{
    FieldAccessor {
        name,
        fns: FieldAccessorFunctions::Repeated(RepeatedGet::Enum(get)),
        record: PhantomData,
    }
}

/// Builds the accessor of a repeated submessage field from a getter
/// borrowing the backing sequence of submessages, of concrete record type
/// `N`.
pub fn make_repeated_message_accessor<M, N, G: Fn(&M) -> &[N]>(
    name: &'static str,
    get: G,
) -> (r: FieldAccessor<M, G, G, G>)
    ensures
        r.name == name,
        r.fns matches FieldAccessorFunctions::Repeated(RepeatedGet::Message(g)) && g == get,
{
    FieldAccessor {
        name,
        fns: FieldAccessorFunctions::Repeated(RepeatedGet::Message(get)),
        record: PhantomData,
    }
}

/// Builds the accessor of a field whose backing storage is a plain
/// growable vector, exposed through the generic repeated-container view:
/// one getter borrowing the view and one setter replacing it.
pub fn make_vec_accessor<M, G: Fn(&M) -> &ReflectRepeated, S: Fn(M, ReflectRepeated) -> M>(
    name: &'static str,
    get_vec: G,
    mut_vec: S,
) -> (r: FieldAccessor<M, G, G, S>)
    ensures
        r.name == name,
        r.fns matches FieldAccessorFunctions::RepeatedField { get, set } && get == get_vec && set
            == mut_vec,
{
    FieldAccessor {
        name,
        fns: FieldAccessorFunctions::RepeatedField { get: get_vec, set: mut_vec },
        record: PhantomData,
    }
}

/// Builds the accessor of a field whose backing storage is the dedicated
/// repeated-field container, exposed through the same generic
/// repeated-container view as a plain vector.
pub fn make_repeated_field_accessor<M, G: Fn(&M) -> &ReflectRepeated, S: Fn(M, ReflectRepeated) -> M>(
    name: &'static str,
    get_vec: G,
    mut_vec: S,
) -> (r: FieldAccessor<M, G, G, S>)
    ensures
        r.name == name,
        r.fns matches FieldAccessorFunctions::RepeatedField { get, set } && get == get_vec && set
            == mut_vec,
{
    FieldAccessor {
        name,
        fns: FieldAccessorFunctions::RepeatedField { get: get_vec, set: mut_vec },
        record: PhantomData,
    }
}

/// Builds the accessor of a map field from one getter borrowing the map
/// view and one setter replacing it.
pub fn make_map_accessor<M, G: Fn(&M) -> &ReflectMap, S: Fn(M, ReflectMap) -> M>(
    name: &'static str,
    get_map: G,
    mut_map: S,
) -> (r: FieldAccessor<M, G, G, S>)
    ensures
        r.name == name,
        r.fns matches FieldAccessorFunctions::MapField { get, set } && get == get_map && set
            == mut_map,
{
    FieldAccessor {
        name,
        fns: FieldAccessorFunctions::MapField { get: get_map, set: mut_map },
        record: PhantomData,
    }
}

} // verus!
