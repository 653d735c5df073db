//! Factory method: each department decides which employee it creates, and
//! one onboarding routine, written once, works for all of them.

use vstd::prelude::*;

verus! {

/// An employee who writes software.
#[derive(Clone, Copy, Debug, PartialEq, Eq, Structural)]
pub struct Programmer;

impl Programmer {
    /// Registers an account for this programmer and returns the notice of it.
    pub fn register_account(&self) -> (notice: &'static str)
        ensures
            notice@ == "Registering a programmer account"@,
    {
        "Registering a programmer account"
    }
}

/// An employee who designs interfaces.
#[derive(Clone, Copy, Debug, PartialEq, Eq, Structural)]
pub struct Designer;

impl Designer {
    /// Registers an account for this designer and returns the notice of it.
    pub fn register_account(&self) -> (notice: &'static str)
        ensures
            notice@ == "Registering a designer account"@,
    {
        "Registering a designer account"
    }
}

/// An employee of either kind.
#[derive(Clone, Copy, Debug, PartialEq, Eq, Structural)]
pub enum Employee {
    Programmer(Programmer),
    Designer(Designer),
}

impl Employee {
    /// The notice that registering an account for this employee gives.
    pub open spec fn registration_notice(&self) -> Seq<char> {
        match self {
            Employee::Programmer(_) => "Registering a programmer account"@,
            Employee::Designer(_) => "Registering a designer account"@,
        }
    }

    /// Registers an account for this employee and returns the notice of it.
    pub fn register_account(&self) -> (notice: &'static str)
        ensures
            notice@ == self.registration_notice(),
    {
        match self {
            Employee::Programmer(programmer) => programmer.register_account(),
            Employee::Designer(designer) => designer.register_account(),
        }
    }
}

/// A department that creates its own kind of employee.
pub trait Department {
    /// The employee that this department creates.
    spec fn staff(&self) -> Employee;

    /// Factory method: creates this department's employee.
    fn create_employee(&self) -> (employee: Box<Employee>)
        ensures
            *employee == self.staff(),
    ;

    /// Template method: creates this department's employee, registers an
    /// account for it and returns the notice of the registration.
    fn onboard(&self) -> (notice: &'static str)
        ensures
            notice@ == self.staff().registration_notice(),
    {
        let employee = self.create_employee();
        employee.register_account()
    }
}

/// The department that creates programmers.
#[derive(Clone, Copy, Debug, PartialEq, Eq, Structural)]
pub struct ITDepartment;

impl Department for ITDepartment {
    open spec fn staff(&self) -> Employee {
        Employee::Programmer(Programmer)
    }

    fn create_employee(&self) -> (employee: Box<Employee>) {
        Box::new(Employee::Programmer(Programmer))
    }
}

/// The department that creates designers.
#[derive(Clone, Copy, Debug, PartialEq, Eq, Structural)]
pub struct UIDepartment;

impl Department for UIDepartment {
    open spec fn staff(&self) -> Employee {
        Employee::Designer(Designer)
    }

    fn create_employee(&self) -> (employee: Box<Employee>) {
        Box::new(Employee::Designer(Designer))
    }
}

} // verus!
