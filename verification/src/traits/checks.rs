//! Questions asked of carrier values: whether a value is null, and how many
//! items a collection holds.

use std::collections::HashMap;
use vstd::prelude::*;

verus! {

/// The number of items in a collection.
pub trait CollectionSize {
    /// The number of items. A type that does not say otherwise holds none.
    open spec fn size_spec(&self) -> nat {
        0
    }

    fn size(&self) -> (size: usize)
        ensures
            size == self.size_spec(),
    ;
}

/// Whether a value is null: a value of the type that stands for no value.
pub trait CheckNull {
    /// Whether the value is null. A type that does not say otherwise has no
    /// null value.
    open spec fn null(&self) -> bool {
        false
    }

    fn is_null(&self) -> (null: bool)
        ensures
            null == self.null(),
    ;
}

/// Types with a null value of their own.
pub trait InherentNull: CheckNull {
    /// A value that is null.
    const NULL: Self;
}

impl<T> CollectionSize for Vec<T> {
    open spec fn size_spec(&self) -> nat {
        self@.len()
    }

    fn size(&self) -> (size: usize) {
        self.len()
    }
}

impl<K, V> CollectionSize for HashMap<K, V> {
    open spec fn size_spec(&self) -> nat {
        self.len() as nat
    }

    fn size(&self) -> (size: usize) {
        self.len()
    }
}

impl CheckNull for u8 {
    fn is_null(&self) -> (null: bool) {
        false
    }
}

impl CheckNull for u16 {
    fn is_null(&self) -> (null: bool) {
        false
    }
}

impl CheckNull for u32 {
    fn is_null(&self) -> (null: bool) {
        false
    }
}

impl CheckNull for u64 {
    fn is_null(&self) -> (null: bool) {
        false
    }
}

impl CheckNull for u128 {
    fn is_null(&self) -> (null: bool) {
        false
    }
}

impl CheckNull for usize {
    fn is_null(&self) -> (null: bool) {
        false
    }
}

impl CheckNull for i8 {
    fn is_null(&self) -> (null: bool) {
        false
    }
}

impl CheckNull for i16 {
    fn is_null(&self) -> (null: bool) {
        false
    }
}

impl CheckNull for i32 {
    fn is_null(&self) -> (null: bool) {
        false
    }
}

impl CheckNull for i64 {
    fn is_null(&self) -> (null: bool) {
        false
    }
}

impl CheckNull for i128 {
    fn is_null(&self) -> (null: bool) {
        false
    }
}

impl CheckNull for isize {
    fn is_null(&self) -> (null: bool) {
        false
    }
}

impl CheckNull for bool {
    fn is_null(&self) -> (null: bool) {
        false
    }
}

impl CheckNull for char {
    fn is_null(&self) -> (null: bool) {
        false
    }
}

impl CheckNull for String {
    fn is_null(&self) -> (null: bool) {
        false
    }
}

impl<T: CheckNull> CheckNull for Option<T> {
    open spec fn null(&self) -> bool {
        match self {
            Some(v) => v.null(),
            None => true,
        }
    }

    fn is_null(&self) -> (null: bool) {
        match self {
            Some(v) => v.is_null(),
            None => true,
        }
    }
}

impl<T: CheckNull> InherentNull for Option<T> {
    const NULL: Self = None;
}

} // verus!
