//! Simple factory: one function creates whichever employee a tag asks for.

use vstd::prelude::*;

verus! {

/// An employee who writes software.
#[derive(Clone, Copy, Debug, PartialEq, Eq, Structural)]
pub struct Programmer;

/// An employee who designs interfaces.
#[derive(Clone, Copy, Debug, PartialEq, Eq, Structural)]
pub struct Designer;

/// The kinds of employee that a department can be asked for.
#[derive(Clone, Copy, Debug, PartialEq, Eq, Structural)]
pub enum EmployeeType {
    Programmer,
    Designer,
}

/// An employee of either kind.
#[derive(Clone, Copy, Debug, PartialEq, Eq, Structural)]
pub enum Employee {
    Programmer(Programmer),
    Designer(Designer),
}

impl Employee {
    /// The kind of this employee.
    pub open spec fn spec_employee_type(&self) -> EmployeeType {
        match self {
            Employee::Programmer(_) => EmployeeType::Programmer,
            Employee::Designer(_) => EmployeeType::Designer,
        }
    }

    /// The kind of this employee.
    #[verifier::when_used_as_spec(spec_employee_type)]
    pub fn employee_type(&self) -> (employee_type: EmployeeType)
        ensures
            employee_type == self.spec_employee_type(),
    {
        match self {
            Employee::Programmer(_) => EmployeeType::Programmer,
            Employee::Designer(_) => EmployeeType::Designer,
        }
    }
}

/// The employee that a tag stands for.
pub open spec fn employee_of(employee_type: EmployeeType) -> Employee {
    match employee_type {
        EmployeeType::Programmer => Employee::Programmer(Programmer),
        EmployeeType::Designer => Employee::Designer(Designer),
    }
}

/// A department that hires by tag.
#[derive(Clone, Copy, Debug, PartialEq, Eq, Structural)]
pub struct Department;

impl Department {
    /// Creates the employee that `employee_type` asks for.
    pub fn create_employee(employee_type: EmployeeType) -> (employee: Box<Employee>)
        ensures
            *employee == employee_of(employee_type),
            employee.spec_employee_type() == employee_type,
    {
        match employee_type {
            EmployeeType::Programmer => Box::new(Employee::Programmer(Programmer)),
            EmployeeType::Designer => Box::new(Employee::Designer(Designer)),
        }
    }
}

} // verus!
