//! The names by which the hosted application is addressed.
//!
//! They are tied to one build of that application and mean nothing beyond
//! it: a table for another build has other names in the same places.

use vstd::prelude::*;

verus! {

/// One row of names: where the root object is found, which of its fields
/// holds the target, and which method of the target is the action.
#[derive(Clone, Copy, Debug, PartialEq, Eq)]
pub struct Addressing<'a> {
    /// Internal name of the class that hands out the root object.
    pub root_class: &'a str,
    /// Static method of that class, without arguments, that returns it.
    pub root_accessor: &'a str,
    /// Signature of that method.
    pub root_signature: &'a str,
    /// Field of the root object that refers to the target object.
    pub target_field: &'a str,
    /// Type of that field, a reference type.
    pub target_type: &'a str,
    /// Method of the target object that takes one boolean and returns
    /// nothing.
    pub action_method: &'a str,
}

impl Addressing<'static> {
    /// The row for the build of the application that this module was made
    /// for.
    pub fn builtin() -> (table: Addressing<'static>)
        ensures
            table.root_class@ == "ave"@,
            table.root_accessor@ == "A"@,
            table.root_signature@ == "()Lave;"@,
            table.target_field@ == "h"@,
            table.target_type@ == "Lbew;"@,
            table.action_method@ == "d"@,
    {
        Addressing {
            root_class: "ave",
            root_accessor: "A",
            root_signature: "()Lave;",
            target_field: "h",
            target_type: "Lbew;",
            action_method: "d",
        }
    }
}

} // verus!
