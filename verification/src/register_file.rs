//! The catalog of a core's platform registers.

use vstd::prelude::*;

verus! {

/// The platform registers of one target, by raw number: register `n` is the
/// entry at position `n`.
///
/// A catalog is made once for a debug session and never changes; snapshots
/// borrow it.
#[derive(Clone, Debug, PartialEq, Eq)]
pub struct RegisterFile {
    platform_registers: Vec<String>,
}

impl View for RegisterFile {
    type V = Seq<Seq<char>>;

    /// The names of the platform registers, in the order of their raw
    /// numbers.
    closed spec fn view(&self) -> Seq<Seq<char>> {
        self.platform_registers.deep_view()
    }
}

impl RegisterFile {
    /// A catalog whose register `n` is named `names[n]`.
    pub fn new(names: Vec<String>) -> (file: Self)
        ensures
            file@ == names.deep_view(),
    {
        RegisterFile { platform_registers: names }
    }

    /// The number of platform registers.
    pub fn platform_register_count(&self) -> (count: usize)
        ensures
            count == self@.len(),
    {
        self.platform_registers.len()
    }

    /// The name of platform register `index`, or `None` where the target has
    /// no such register.
    pub fn get_platform_register(&self, index: usize) -> (name: Option<&str>)
        ensures
            name is Some <==> index < self@.len(),
            name matches Some(text) ==> text@ == self@[index as int],
    {
        if index < self.platform_registers.len() {
            Some(self.platform_registers[index].as_str())
        } else {
            None
        }
    }
}

} // verus!
