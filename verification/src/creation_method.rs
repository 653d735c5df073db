//! Creation methods: a method whose only job is to hand out a new object.
//!
//! A department offers two of them, one called on a department and one
//! called on the type itself.

use vstd::prelude::*;

verus! {

/// An employee who writes software.
#[derive(Clone, Copy, Debug, PartialEq, Eq, Structural)]
pub struct Programmer;

/// A department that hires programmers.
#[derive(Clone, Copy, Debug, PartialEq, Eq, Structural)]
pub struct Department;

impl Department {
    /// Creation method: hires a programmer for this department.
    pub fn create_employee(&self) -> (employee: Programmer)
        ensures
            employee == Programmer,
    {
        Programmer
    }

    /// Static creation method: hires a programmer without a department at hand.
    pub fn static_create_employee() -> (employee: Programmer)
        ensures
            employee == Programmer,
    {
        Programmer
    }
}

} // verus!
