//! Abstract factory: a department creates employees and projects of one
//! family, and a manager keeps the books on everything its department made.

pub mod history;

use crate::account::{
    gen_range, in_account_range, is_account_id, thread_rng, ACCOUNT_ID_END, ACCOUNT_ID_MIN,
};
use crate::decimal::{decimal, push_decimal};
use std::collections::HashMap;
use std::rc::Rc;
use vstd::prelude::*;
use vstd::string::StringExecFns;

verus! {

/// The families of products. Products of one family work together.
#[derive(Clone, Copy, Debug, PartialEq, Eq, Structural)]
pub enum Family {
    IT,
    UI,
}

/// The employee of the IT family.
#[derive(Clone, Copy, Debug, PartialEq, Eq, Structural)]
pub struct Programmer;

impl Programmer {
    /// A new programmer.
    pub fn new() -> (programmer: Self)
        ensures
            programmer == Programmer,
    {
        Self
    }

    /// Draws an account identifier for this programmer. The identifier
    /// comes from a random source, so two calls may or may not agree.
    pub fn register_account(&self) -> (id: usize)
        ensures
            in_account_range(id),
    {
        let mut rng = thread_rng();
        gen_range(&mut rng, ACCOUNT_ID_MIN, ACCOUNT_ID_END)
    }
}

/// The employee of the UI family.
#[derive(Clone, Copy, Debug, PartialEq, Eq, Structural)]
pub struct Designer;

impl Designer {
    /// A new designer.
    pub fn new() -> (designer: Self)
        ensures
            designer == Designer,
    {
        Self
    }

    /// Draws an account identifier for this designer. The identifier comes
    /// from a random source, so two calls may or may not agree.
    pub fn register_account(&self) -> (id: usize)
        ensures
            in_account_range(id),
    {
        let mut rng = thread_rng();
        gen_range(&mut rng, ACCOUNT_ID_MIN, ACCOUNT_ID_END)
    }
}

/// An employee of either family.
#[derive(Clone, Copy, Debug, PartialEq, Eq, Structural)]
pub enum Employee {
    Programmer(Programmer),
    Designer(Designer),
}

impl Employee {
    /// The family that this employee belongs to.
    pub open spec fn spec_family(&self) -> Family {
        match self {
            Employee::Programmer(_) => Family::IT,
            Employee::Designer(_) => Family::UI,
        }
    }

    /// The family that this employee belongs to.
    #[verifier::when_used_as_spec(spec_family)]
    pub fn family(&self) -> (family: Family)
        ensures
            family == self.spec_family(),
    {
        match self {
            Employee::Programmer(_) => Family::IT,
            Employee::Designer(_) => Family::UI,
        }
    }

    /// Draws an account identifier for this employee and leaves the
    /// employee as it was.
    pub fn register_account(&self) -> (id: usize)
        ensures
            in_account_range(id),
    {
        match self {
            Employee::Programmer(programmer) => programmer.register_account(),
            Employee::Designer(designer) => designer.register_account(),
        }
    }
}

/// The words that a project of `family` announces an assignment with, up to
/// the employee's identifier.
pub open spec fn assignment_lead(family: Family) -> Seq<char> {
    match family {
        Family::IT => "Assigning IT project to employee with ID: "@,
        Family::UI => "Assigning UI project to employee with ID: "@,
    }
}

/// The notice that a project of `family` gives when it is assigned to the
/// employee `id`.
pub open spec fn assignment_notice(family: Family, id: usize) -> Seq<char> {
    assignment_lead(family) + decimal(id as nat)
}

/// The project of the IT family.
#[derive(Clone, Copy, Debug, PartialEq, Eq, Structural)]
pub struct ITProject;

impl ITProject {
    /// Assigns this project to the employee `id` and returns the notice of
    /// it. Any identifier is taken: whether an employee holds it is not
    /// looked up.
    pub fn assign_to_employee(&self, id: usize) -> (notice: String)
        ensures
            notice@ == assignment_notice(Family::IT, id),
    {
        let mut notice = String::from_str("Assigning IT project to employee with ID: ");
        push_decimal(&mut notice, id);
        notice
    }
}

/// The project of the UI family.
#[derive(Clone, Copy, Debug, PartialEq, Eq, Structural)]
pub struct UIProject;

impl UIProject {
    /// Assigns this project to the employee `id` and returns the notice of
    /// it. Any identifier is taken: whether an employee holds it is not
    /// looked up.
    pub fn assign_to_employee(&self, id: usize) -> (notice: String)
        ensures
            notice@ == assignment_notice(Family::UI, id),
    {
        let mut notice = String::from_str("Assigning UI project to employee with ID: ");
        push_decimal(&mut notice, id);
        notice
    }
}

/// A project of either family.
#[derive(Clone, Copy, Debug, PartialEq, Eq, Structural)]
pub enum Project {
    IT(ITProject),
    UI(UIProject),
}

impl Project {
    /// The family that this project belongs to.
    pub open spec fn spec_family(&self) -> Family {
        match self {
            Project::IT(_) => Family::IT,
            Project::UI(_) => Family::UI,
        }
    }

    /// The family that this project belongs to.
    #[verifier::when_used_as_spec(spec_family)]
    pub fn family(&self) -> (family: Family)
        ensures
            family == self.spec_family(),
    {
        match self {
            Project::IT(_) => Family::IT,
            Project::UI(_) => Family::UI,
        }
    }

    /// Assigns this project to the employee `id` and returns the notice of
    /// it, worded by the project's family. Any identifier is taken: whether
    /// an employee holds it is not looked up.
    pub fn assign_to_employee(&self, id: usize) -> (notice: String)
        ensures
            notice@ == assignment_notice(self.spec_family(), id),
    {
        match self {
            Project::IT(project) => project.assign_to_employee(id),
            Project::UI(project) => project.assign_to_employee(id),
        }
    }
}

/// `Rc::clone` of std: another handle to the same allocation, so the value
/// behind the new handle is the value behind the old one.
#[verifier::external_body]
fn share<T>(handle: &Rc<T>) -> (other: Rc<T>)
    ensures
        other == *handle,
{
    Rc::clone(handle)
}

/// The department of the IT family.
#[derive(Clone, Copy, Debug, PartialEq, Eq, Structural)]
pub struct ITDepartment;

impl ITDepartment {
    /// Creates a programmer.
    pub fn create_employee(&self) -> (employee: Rc<Employee>)
        ensures
            *employee == Employee::Programmer(Programmer),
    {
        Rc::new(Employee::Programmer(Programmer::new()))
    }

    /// Creates an IT project.
    pub fn create_project(&self) -> (project: Rc<Project>)
        ensures
            *project == Project::IT(ITProject),
    {
        Rc::new(Project::IT(ITProject))
    }
}

/// The department of the UI family.
#[derive(Clone, Copy, Debug, PartialEq, Eq, Structural)]
pub struct UIDepartment;

impl UIDepartment {
    /// Creates a designer.
    pub fn create_employee(&self) -> (employee: Rc<Employee>)
        ensures
            *employee == Employee::Designer(Designer),
    {
        Rc::new(Employee::Designer(Designer::new()))
    }

    /// Creates a UI project.
    pub fn create_project(&self) -> (project: Rc<Project>)
        ensures
            *project == Project::UI(UIProject),
    {
        Rc::new(Project::UI(UIProject))
    }
}

/// A department of either family: the factory of that family's products.
#[derive(Clone, Copy, Debug, PartialEq, Eq, Structural)]
pub enum Department {
    IT(ITDepartment),
    UI(UIDepartment),
}

impl Department {
    /// The department of `family`.
    pub open spec fn spec_of(family: Family) -> Department {
        match family {
            Family::IT => Department::IT(ITDepartment),
            Family::UI => Department::UI(UIDepartment),
        }
    }

    /// The department of `family`.
    #[verifier::when_used_as_spec(spec_of)]
    pub fn of(family: Family) -> (department: Department)
        ensures
            department == Department::spec_of(family),
    {
        match family {
            Family::IT => Department::IT(ITDepartment),
            Family::UI => Department::UI(UIDepartment),
        }
    }

    /// The family that this department creates for.
    pub open spec fn spec_family(&self) -> Family {
        match self {
            Department::IT(_) => Family::IT,
            Department::UI(_) => Family::UI,
        }
    }

    /// The family that this department creates for.
    #[verifier::when_used_as_spec(spec_family)]
    pub fn family(&self) -> (family: Family)
        ensures
            family == self.spec_family(),
    {
        match self {
            Department::IT(_) => Family::IT,
            Department::UI(_) => Family::UI,
        }
    }

    /// The employee that this department creates.
    pub open spec fn staff(&self) -> Employee {
        match self {
            Department::IT(_) => Employee::Programmer(Programmer),
            Department::UI(_) => Employee::Designer(Designer),
        }
    }

    /// The project that this department creates.
    pub open spec fn work(&self) -> Project {
        match self {
            Department::IT(_) => Project::IT(ITProject),
            Department::UI(_) => Project::UI(UIProject),
        }
    }

    /// Creates a new employee of this department's family.
    pub fn create_employee(&self) -> (employee: Rc<Employee>)
        ensures
            *employee == self.staff(),
            employee.spec_family() == self.spec_family(),
    {
        match self {
            Department::IT(department) => department.create_employee(),
            Department::UI(department) => department.create_employee(),
        }
    }

    /// Creates a new project of this department's family.
    pub fn create_project(&self) -> (project: Rc<Project>)
        ensures
            *project == self.work(),
            project.spec_family() == self.spec_family(),
    {
        match self {
            Department::IT(department) => department.create_project(),
            Department::UI(department) => department.create_project(),
        }
    }
}

/// Both products of a department belong to the department's family, and so
/// to the same family as each other.
pub proof fn lemma_family_consistency(department: Department)
    ensures
        department.staff().spec_family() == department.spec_family(),
        department.work().spec_family() == department.spec_family(),
        department.staff().spec_family() == department.work().spec_family(),
{
}

/// What a manager's books hold: the family it was set up for, the projects
/// it created, oldest first, and its employees by account identifier.
pub struct Roster {
    pub family: Family,
    pub projects: Seq<Project>,
    pub employees: Map<usize, Employee>,
}

impl Roster {
    /// The books of a manager that has created nothing yet.
    pub open spec fn empty(family: Family) -> Roster {
        Roster { family, projects: Seq::empty(), employees: Map::empty() }
    }

    /// The department that the entries of these books come from.
    pub open spec fn department(self) -> Department {
        Department::spec_of(self.family)
    }

    /// Every entry belongs to the family of the books, every account
    /// identifier lies in the account range, and the employees are finitely
    /// many.
    pub open spec fn consistent(self) -> bool {
        &&& self.employees.dom().finite()
        &&& forall|i: int|
            0 <= i < self.projects.len() ==> (#[trigger] self.projects[i]).spec_family()
                == self.family
        &&& forall|id: usize| #[trigger]
            self.employees.contains_key(id) ==> in_account_range(id)
                && self.employees[id].spec_family() == self.family
    }

    /// Whether an employee can be recorded under `id`: the identifier lies in
    /// the account range and no employee holds it.
    pub open spec fn vacant(self, id: usize) -> bool {
        in_account_range(id) && !self.employees.contains_key(id)
    }

    /// These books with one more project of their family, entered last.
    pub open spec fn with_project(self) -> Roster {
        Roster { projects: self.projects.push(self.department().work()), ..self }
    }

    /// These books with one more employee of their family, entered under
    /// `id`.
    pub open spec fn with_employee(self, id: usize) -> Roster {
        Roster { employees: self.employees.insert(id, self.department().staff()), ..self }
    }
}

/// Why a manager did not record an employee.
#[derive(Clone, Copy, Debug, PartialEq, Eq, Structural)]
pub enum RegistryError {
    /// No unused account identifier was to be had: the one offered was
    /// outside the account range or already held by an employee.
    IdentifierExhausted,
}

/// Runs one department and keeps the books on what it created. The family
/// is chosen when the manager is made and stays the same from then on.
///
/// The books of a new manager are consistent (see [`Roster::consistent`]) and
/// every method keeps them so.
pub struct DeparmentManager {
    department: Box<Department>,
    projects: Vec<Rc<Project>>,
    employees: HashMap<usize, Rc<Employee>>,
}

impl View for DeparmentManager {
    type V = Roster;

    closed spec fn view(&self) -> Roster {
        Roster {
            family: self.department.spec_family(),
            projects: self.projects@.map_values(|project: Rc<Project>| *project),
            employees: self.employees@.map_values(|employee: Rc<Employee>| *employee),
        }
    }
}

impl DeparmentManager {
    /// A manager for `department`, with empty books.
    pub fn new(department: Box<Department>) -> (manager: Self)
        ensures
            manager@ == Roster::empty(department.spec_family()),
            manager@.consistent(),
    {
        broadcast use vstd::std_specs::hash::group_hash_axioms;

        let manager = Self { department, projects: vec![], employees: HashMap::new() };
        assert(manager@.projects =~= Seq::empty());
        assert(manager@.employees =~= Map::empty());
        manager
    }

    /// Creates a project of the manager's family, enters it last in the
    /// books and returns a handle to it.
    pub fn create_project(&mut self) -> (project: Rc<Project>)
        ensures
            *project == old(self)@.department().work(),
            project.spec_family() == old(self)@.family,
            final(self)@ == old(self)@.with_project(),
            old(self)@.consistent() ==> final(self)@.consistent(),
    {
        let project = self.department.create_project();
        self.projects.push(share(&project));
        assert(self@.projects =~= old(self)@.projects.push(*project));
        project
    }

    /// Enters `employee` in the books under `account_id` if that identifier
    /// is vacant, and leaves the books as they are if it is not.
    fn record(&mut self, account_id: usize, employee: Rc<Employee>) -> (result: Result<
        usize,
        RegistryError,
    >)
        requires
            *employee == old(self)@.department().staff(),
        ensures
            old(self)@.vacant(account_id) ==> result == Ok::<usize, RegistryError>(account_id)
                && final(self)@ == old(self)@.with_employee(account_id),
            !old(self)@.vacant(account_id) ==> result == Err::<usize, RegistryError>(
                RegistryError::IdentifierExhausted,
            ) && final(self)@ == old(self)@,
            old(self)@.consistent() ==> final(self)@.consistent(),
    {
        broadcast use vstd::std_specs::hash::group_hash_axioms;

        if !is_account_id(account_id) || self.employees.contains_key(&account_id) {
            return Err(RegistryError::IdentifierExhausted);
        }
        self.employees.insert(account_id, employee);
        assert(self@.employees =~= old(self)@.employees.insert(account_id, *employee));
        Ok(account_id)
    }

    /// Creates an employee of the manager's family and enters it in the
    /// books under `account_id`, an identifier that the caller minted. Fails,
    /// with the books unchanged, if the identifier lies outside the account
    /// range or an employee already holds it.
    pub fn enroll(&mut self, account_id: usize) -> (result: Result<usize, RegistryError>)
        ensures
            old(self)@.vacant(account_id) ==> result == Ok::<usize, RegistryError>(account_id)
                && final(self)@ == old(self)@.with_employee(account_id),
            !old(self)@.vacant(account_id) ==> result == Err::<usize, RegistryError>(
                RegistryError::IdentifierExhausted,
            ) && final(self)@ == old(self)@,
            old(self)@.consistent() ==> final(self)@.consistent(),
    {
        let employee = self.department.create_employee();
        self.record(account_id, employee)
    }

    /// Creates an employee of the manager's family, has it draw an account
    /// identifier, enters it in the books under that identifier and returns
    /// the identifier. The draw is random and made once: if it lands on an
    /// identifier that an employee already holds, the call fails and the
    /// books stay as they were. A manager without employees never fails.
    pub fn create_employee(&mut self) -> (result: Result<usize, RegistryError>)
        ensures
            match result {
                Ok(id) => old(self)@.vacant(id) && final(self)@ == old(self)@.with_employee(id),
                Err(error) => error == RegistryError::IdentifierExhausted && final(self)@ == old(
                    self,
                )@ && exists|taken: usize| old(self)@.employees.contains_key(taken),
            },
            old(self)@.employees.dom().is_empty() ==> result is Ok,
            old(self)@.consistent() ==> final(self)@.consistent(),
    {
        let employee = self.department.create_employee();
        let account_id = employee.register_account();
        self.record(account_id, employee)
    }

    /// The family that this manager was set up for.
    pub fn family(&self) -> (family: Family)
        ensures
            family == self@.family,
    {
        self.department.family()
    }

    /// How many projects are in the books.
    pub fn project_count(&self) -> (count: usize)
        ensures
            count == self@.projects.len(),
    {
        self.projects.len()
    }

    /// A handle to the project at position `index` of the books, counted
    /// from the oldest, or `None` if the books hold no more than `index`
    /// projects.
    pub fn project(&self, index: usize) -> (project: Option<Rc<Project>>)
        ensures
            match project {
                Some(handle) => index < self@.projects.len() && *handle
                    == self@.projects[index as int],
                None => index >= self@.projects.len(),
            },
    {
        if index < self.projects.len() {
            Some(share(&self.projects[index]))
        } else {
            None
        }
    }

    /// How many employees are in the books.
    pub fn employee_count(&self) -> (count: usize)
        ensures
            count == self@.employees.len(),
    {
        broadcast use vstd::std_specs::hash::group_hash_axioms;

        assert(self@.employees.dom() =~= self.employees@.dom());
        self.employees.len()
    }

    /// Whether an employee is recorded under `account_id`.
    pub fn contains_employee(&self, account_id: usize) -> (found: bool)
        ensures
            found == self@.employees.contains_key(account_id),
    {
        broadcast use vstd::std_specs::hash::group_hash_axioms;

        self.employees.contains_key(&account_id)
    }

    /// A handle to the employee recorded under `account_id`, or `None` if
    /// there is none.
    pub fn employee(&self, account_id: usize) -> (employee: Option<Rc<Employee>>)
        ensures
            match employee {
                Some(handle) => self@.employees.contains_key(account_id) && *handle
                    == self@.employees[account_id],
                None => !self@.employees.contains_key(account_id),
            },
    {
        broadcast use vstd::std_specs::hash::group_hash_axioms;

        match self.employees.get(&account_id) {
            Some(handle) => Some(share(handle)),
            None => None,
        }
    }
}

} // verus!
