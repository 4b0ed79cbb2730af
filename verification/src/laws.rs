use vstd::prelude::*;
use crate::containers::ReflectMap;
use crate::containers::ReflectRepeated;
use crate::value::EnumValue;
use crate::value::EnumValueDescriptor;

verus! {

/// Round-trip identity of singular getters: when every value the bound
/// getter can yield on a record equals the field's stored value, the value
/// the uniform getter method hands back (its postcondition names it a
/// possible getter result) is exactly the stored value.  This covers each
/// scalar kind, text and byte fields, and the floating-point kinds, whose
/// bit-pattern representation makes the identity exact.
pub proof fn lemma_singular_get_exact<M, T, G: Fn(&M) -> T>(get: G, m: &M, stored: T, got: T)
    requires
        forall|r: T| call_ensures(get, (m,), r) ==> r == stored,
        call_ensures(get, (m,), got),
    ensures
        got == stored,
{
}

/// Round-trip identity of the singular enum getter: when the bound getter
/// yields exactly the stored enum value, the descriptor the uniform getter
/// resolves is exactly the stored value's declared descriptor.
pub proof fn lemma_enum_get_exact<M, E: EnumValue, G: Fn(&M) -> E>(
    get: G,
    m: &M,
    stored: E,
    resolved: EnumValueDescriptor,
)
    requires
        forall|e: E| call_ensures(get, (m,), e) ==> e == stored,
        exists|e: E| call_ensures(get, (m,), e) && resolved == e.descriptor_spec(),
    ensures
        resolved == stored.descriptor_spec(),
{
}

/// The reported length of a repeated field equals the length of the
/// underlying sequence: when the bound getter yields exactly the sequence
/// `q`, any length answer derived from a getter result equals `q`'s length.
pub proof fn lemma_repeated_length_exact<M, T, G: Fn(&M) -> &[T]>(
    get: G,
    m: &M,
    q: Seq<T>,
    len: usize,
)
    requires
        forall|s: &[T]| call_ensures(get, (m,), s) ==> s@ == q,
        exists|s: &[T]| call_ensures(get, (m,), s) && len == s@.len(),
    ensures
        len == q.len(),
{
}

/// Each element of a repeated field matches the underlying sequence: when
/// the bound getter yields exactly the sequence `q`, the borrowed sequence
/// handed back by the uniform getter holds `q`'s element at every index
/// below `q`'s length.
pub proof fn lemma_repeated_item_exact<M, T, G: Fn(&M) -> &[T]>(
    get: G,
    m: &M,
    q: Seq<T>,
    s: &[T],
    i: int,
)
    requires
        forall|t: &[T]| call_ensures(get, (m,), t) ==> t@ == q,
        call_ensures(get, (m,), s),
        0 <= i < q.len(),
    ensures
        s@.len() == q.len(),
        s@[i] == q[i],
{
}

/// For always-present (default-valued) singular fields, the presence
/// answer is true on every record, whether or not the field was ever
/// assigned: the constant-true predicate their factories install admits no
/// other result.
pub proof fn lemma_always_present_has<M, H: Fn(&M) -> bool>(has: H, m: &M, r: bool)
    requires
        forall|mm: &M, b: bool| call_ensures(has, (mm,), b) ==> b,
        call_ensures(has, (m,), r),
    ensures
        r,
{
}

/// For explicit-presence singular fields, the presence answer is exactly
/// what the bound predicate says of the record: false while the predicate
/// reads the field as never assigned, true once it reads it as assigned -
/// including assignment of the value kind's zero.
pub proof fn lemma_explicit_presence_reported<M, H: Fn(&M) -> bool>(
    has: H,
    m: &M,
    expected: bool,
    r: bool,
)
    requires
        forall|b: bool| call_ensures(has, (m,), b) ==> b == expected,
        call_ensures(has, (m,), r),
    ensures
        r == expected,
{
}

/// The construction-time contract of a map-shaped accessor's view pair:
/// the two view getters reach the same backing storage, so a map written
/// through the setter is what the getter thereafter yields.
pub open spec fn map_views_coherent<M, G: Fn(&M) -> &ReflectMap, S: Fn(M, ReflectMap) -> M>(
    get: G,
    set: S,
) -> bool {
    forall|m: M, written: ReflectMap, m2: M|
        #[trigger] call_ensures(set, (m, written), m2) ==> forall|r: &ReflectMap|
            #[trigger] call_ensures(get, (&m2,), r) ==> r@ == written@
}

/// A map view getter reads the record alone: two results it yields on the
/// same record hold the same map.
pub open spec fn map_getter_deterministic<M, G: Fn(&M) -> &ReflectMap>(get: G) -> bool {
    forall|m: &M, r1: &ReflectMap, r2: &ReflectMap|
        #[trigger] call_ensures(get, (m,), r1) && #[trigger] call_ensures(get, (m,), r2)
            ==> r1@ == r2@
}

/// Mutation through a map view is visible through a subsequently obtained
/// immutable view of the same field: writing a map through the setter and
/// reading the field back on the updated record yields that map - in
/// particular every insertion into and removal from the written map.
pub proof fn lemma_map_mutation_visible<M, G: Fn(&M) -> &ReflectMap, S: Fn(M, ReflectMap) -> M>(
    get: G,
    set: S,
    m: M,
    written: ReflectMap,
    m2: M,
    seen: &ReflectMap,
)
    requires
        map_views_coherent(get, set),
        call_ensures(set, (m, written), m2),
        call_ensures(get, (&m2,), seen),
    ensures
        seen@ == written@,
{
}

/// Two immutable map views taken from the same record hold identical
/// contents.
pub proof fn lemma_map_views_agree<M, G: Fn(&M) -> &ReflectMap>(
    get: G,
    m: &M,
    r1: &ReflectMap,
    r2: &ReflectMap,
)
    requires
        map_getter_deterministic(get),
        call_ensures(get, (m,), r1),
        call_ensures(get, (m,), r2),
    ensures
        r1@ == r2@,
{
}

/// The construction-time contract of a repeated-container accessor's view
/// pair, the analogue of `map_views_coherent`.
pub open spec fn repeated_views_coherent<
    M,
    G: Fn(&M) -> &ReflectRepeated,
    S: Fn(M, ReflectRepeated) -> M,
>(get: G, set: S) -> bool {
    forall|m: M, written: ReflectRepeated, m2: M|
        #[trigger] call_ensures(set, (m, written), m2) ==> forall|r: &ReflectRepeated|
            #[trigger] call_ensures(get, (&m2,), r) ==> r@ == written@
}

/// A repeated-container view getter reads the record alone: two results it
/// yields on the same record hold the same sequence.
pub open spec fn repeated_getter_deterministic<M, G: Fn(&M) -> &ReflectRepeated>(get: G) -> bool {
    forall|m: &M, r1: &ReflectRepeated, r2: &ReflectRepeated|
        #[trigger] call_ensures(get, (m,), r1) && #[trigger] call_ensures(get, (m,), r2)
            ==> r1@ == r2@
}

/// Mutation through a repeated-container view is visible through a
/// subsequently obtained immutable view of the same field.
pub proof fn lemma_repeated_mutation_visible<
    M,
    G: Fn(&M) -> &ReflectRepeated,
    S: Fn(M, ReflectRepeated) -> M,
>(get: G, set: S, m: M, written: ReflectRepeated, m2: M, seen: &ReflectRepeated)
    requires
        repeated_views_coherent(get, set),
        call_ensures(set, (m, written), m2),
        call_ensures(get, (&m2,), seen),
    ensures
        seen@ == written@,
{
}

/// Two immutable repeated-container views taken from the same record hold
/// identical contents.
pub proof fn lemma_repeated_views_agree<M, G: Fn(&M) -> &ReflectRepeated>(
    get: G,
    m: &M,
    r1: &ReflectRepeated,
    r2: &ReflectRepeated,
)
    requires
        repeated_getter_deterministic(get),
        call_ensures(get, (m,), r1),
        call_ensures(get, (m,), r2),
    ensures
        r1@ == r2@,
{
}

} // verus!
