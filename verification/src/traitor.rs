//! Callers of a trait that is left for others to implement.

use vstd::prelude::*;

verus! {

/// Something that can be asked about itself and about values of its own
/// choosing. Nothing is promised of an implementation.
pub trait Traitor {
    type Foo;

    type Bar;

    fn is_valid(&self) -> bool;

    fn foo_foo(&self, n1: &Self::Foo, n2: &Self::Foo) -> bool;

    fn foo_bar(&self, n: &Self::Foo) -> Vec<Self::Bar>;
}

/// Asks `traitor` whether it is valid and hands the answer on.
pub fn funk<T: Traitor>(traitor: T) -> (r: bool)
    ensures
        call_ensures(T::is_valid, (&traitor,), r),
{
    traitor.is_valid()
}

/// Lets `traitor` work on the byte 234, drops what comes of it, then asks
/// whether it is valid and hands the answer on.
pub fn bunk<T: Traitor<Foo = u8>>(traitor: T) -> (r: bool)
    ensures
        call_ensures(T::is_valid, (&traitor,), r),
{
    let _ = traitor.foo_bar(&234);
    traitor.is_valid()
}

/// Puts both questions to `traitor` and makes nothing of the answers.
pub fn grunge<T: Traitor>(traitor: &T, f1: &T::Foo, f2: &T::Foo) -> (r: u32)
    ensures
        r == 0,
{
    let _ = traitor.foo_foo(f1, f2);
    let _ = traitor.foo_bar(f2);
    0
}

} // verus!
