//! Small value types: a borrowed container and a two-state flag.

use std::fmt::Display;
use vstd::prelude::*;

verus! {

/// A borrowed value that can be shown.
pub struct Container<'a, T: Display> {
    data: &'a T,
}

impl<'a, T: Display> Container<'a, T> {
    /// The value the container borrows.
    pub closed spec fn value(&self) -> T {
        *self.data
    }

    /// A container that borrows `data`.
    pub fn new(data: &'a T) -> (container: Self)
        ensures
            container.value() == *data,
    {
        Self { data }
    }

    /// The borrowed value.
    pub fn data(&self) -> (data: &'a T)
        ensures
            *data == self.value(),
    {
        self.data
    }
}

/// A container that holds the number five.
pub fn asd<'a>() -> (container: Container<'a, u32>)
    ensures
        container.value() == 5,
{
    Container::new(&5)
}

/// A flag that either carries a value and a note, or nothing.
pub enum MyEnum {
    Flag { my_value: u32, extra: String },
    Flag2,
}

impl MyEnum {
    /// The flag that carries nothing.
    pub fn new() -> (flag: Self)
        ensures
            flag is Flag2,
    {
        Self::Flag2
    }

    /// Clears the flag. Whatever it carried is dropped, and nothing is
    /// handed out.
    pub fn my_value(&mut self) -> (value: Option<u32>)
        ensures
            value is None,
            *final(self) is Flag2,
    {
        *self = Self::Flag2;
        None
    }
}

/// A pair of numbers.
pub struct Test {
    pub a: u32,
    pub b: u32,
}

/// The number a flag stands for: the value it carries, two where it carries
/// nothing.
pub open spec fn spec_test(flag: MyEnum) -> u32 {
    match flag {
        MyEnum::Flag { my_value, extra } => my_value,
        MyEnum::Flag2 => 2,
    }
}

/// The number a flag stands for: the value it carries, two where it carries
/// nothing.
pub fn test(flag: MyEnum) -> (n: u32)
    ensures
        n == spec_test(flag),
{
    match flag {
        MyEnum::Flag { my_value: 1, extra } => 1,
        MyEnum::Flag { my_value, extra } => my_value,
        MyEnum::Flag2 => 2,
    }
}

} // verus!
