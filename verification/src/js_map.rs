//! What may serve as a key and as a value of a map in the style of a script
//! language: keys can be compared, hashed, ordered and shown, values shown.

use std::fmt::{Debug, Display};
use std::hash::Hash;
use vstd::prelude::*;

verus! {

/// A type whose values may serve as keys.
pub trait JsKey: Eq + Hash + Ord + Debug + Display {

}

/// A type whose values may be stored.
pub trait JsValue: Sized + Debug + Display {

}

impl JsKey for str {

}

impl JsKey for String {

}

impl JsKey for usize {

}

impl JsKey for u8 {

}

impl JsKey for isize {

}

impl JsKey for i32 {

}

impl<T: ?Sized + JsKey> JsKey for &T {

}

impl<T: ?Sized + JsKey> JsKey for Box<T> {

}

impl<T: ?Sized + JsKey> JsKey for std::rc::Rc<T> {

}

impl<T: ?Sized + JsKey> JsKey for std::sync::Arc<T> {

}

impl<T> JsValue for T where T: Sized + Debug + Display {

}

} // verus!
