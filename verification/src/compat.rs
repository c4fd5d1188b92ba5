//! Marker traits for the types that may cross the host/guest boundary.
use vstd::prelude::*;

verus! {

/// Types whose values survive an AN-encoded boundary: built from fixed-width
/// integers, `bool`, `char`, strings and containers of such types; no floats and
/// no pointer-sized integers.
pub trait AnCompatible {}

/// Types allowed across the boundary in the default (non-AN) mode: every type.
pub trait BoundaryCompatible {}

impl<T> BoundaryCompatible for T {}

impl AnCompatible for u8 {}
impl AnCompatible for u16 {}
impl AnCompatible for u32 {}
impl AnCompatible for u64 {}
impl AnCompatible for i8 {}
impl AnCompatible for i16 {}
impl AnCompatible for i32 {}
impl AnCompatible for i64 {}
impl AnCompatible for bool {}
impl AnCompatible for char {}
impl AnCompatible for String {}
impl AnCompatible for () {}

impl<T: AnCompatible> AnCompatible for Vec<T> {}
impl<T: AnCompatible> AnCompatible for Option<T> {}
impl<T: AnCompatible> AnCompatible for Box<T> {}
impl<T: AnCompatible, const N: usize> AnCompatible for [T; N] {}
impl<T: AnCompatible, E: AnCompatible> AnCompatible for Result<T, E> {}

impl<T0: AnCompatible> AnCompatible for (T0,) {}
impl<T0: AnCompatible, T1: AnCompatible> AnCompatible for (T0, T1) {}
impl<T0: AnCompatible, T1: AnCompatible, T2: AnCompatible> AnCompatible for (T0, T1, T2) {}
impl<T0: AnCompatible, T1: AnCompatible, T2: AnCompatible, T3: AnCompatible> AnCompatible for (
    T0,
    T1,
    T2,
    T3,
) {}
impl<
    T0: AnCompatible,
    T1: AnCompatible,
    T2: AnCompatible,
    T3: AnCompatible,
    T4: AnCompatible,
> AnCompatible for (T0, T1, T2, T3, T4) {}
impl<
    T0: AnCompatible,
    T1: AnCompatible,
    T2: AnCompatible,
    T3: AnCompatible,
    T4: AnCompatible,
    T5: AnCompatible,
> AnCompatible for (T0, T1, T2, T3, T4, T5) {}
impl<
    T0: AnCompatible,
    T1: AnCompatible,
    T2: AnCompatible,
    T3: AnCompatible,
    T4: AnCompatible,
    T5: AnCompatible,
    T6: AnCompatible,
> AnCompatible for (T0, T1, T2, T3, T4, T5, T6) {}
impl<
    T0: AnCompatible,
    T1: AnCompatible,
    T2: AnCompatible,
    T3: AnCompatible,
    T4: AnCompatible,
    T5: AnCompatible,
    T6: AnCompatible,
    T7: AnCompatible,
> AnCompatible for (T0, T1, T2, T3, T4, T5, T6, T7) {}
impl<
    T0: AnCompatible,
    T1: AnCompatible,
    T2: AnCompatible,
    T3: AnCompatible,
    T4: AnCompatible,
    T5: AnCompatible,
    T6: AnCompatible,
    T7: AnCompatible,
    T8: AnCompatible,
> AnCompatible for (T0, T1, T2, T3, T4, T5, T6, T7, T8) {}
impl<
    T0: AnCompatible,
    T1: AnCompatible,
    T2: AnCompatible,
    T3: AnCompatible,
    T4: AnCompatible,
    T5: AnCompatible,
    T6: AnCompatible,
    T7: AnCompatible,
    T8: AnCompatible,
    T9: AnCompatible,
> AnCompatible for (T0, T1, T2, T3, T4, T5, T6, T7, T8, T9) {}
impl<
    T0: AnCompatible,
    T1: AnCompatible,
    T2: AnCompatible,
    T3: AnCompatible,
    T4: AnCompatible,
    T5: AnCompatible,
    T6: AnCompatible,
    T7: AnCompatible,
    T8: AnCompatible,
    T9: AnCompatible,
    T10: AnCompatible,
> AnCompatible for (T0, T1, T2, T3, T4, T5, T6, T7, T8, T9, T10) {}
impl<
    T0: AnCompatible,
    T1: AnCompatible,
    T2: AnCompatible,
    T3: AnCompatible,
    T4: AnCompatible,
    T5: AnCompatible,
    T6: AnCompatible,
    T7: AnCompatible,
    T8: AnCompatible,
    T9: AnCompatible,
    T10: AnCompatible,
    T11: AnCompatible,
> AnCompatible for (T0, T1, T2, T3, T4, T5, T6, T7, T8, T9, T10, T11) {}

} // verus!
