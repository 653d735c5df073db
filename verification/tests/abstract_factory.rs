use factory_patterns::abstract_factory::{
    DeparmentManager, Department, Designer, Employee, Family, ITDepartment, ITProject, Programmer,
    Project, RegistryError, UIDepartment, UIProject,
};
use factory_patterns::account::{is_account_id, ACCOUNT_ID_END, ACCOUNT_ID_MIN};
use std::rc::Rc;

fn it_manager() -> DeparmentManager {
    DeparmentManager::new(Box::new(Department::IT(ITDepartment)))
}

fn ui_manager() -> DeparmentManager {
    DeparmentManager::new(Box::new(Department::UI(UIDepartment)))
}

#[test]
fn test_abstract_factory() {
    let it_department = ITDepartment;
    assert_eq!(*it_department.create_employee(), Employee::Programmer(Programmer));
    assert_eq!(*it_department.create_project(), Project::IT(ITProject));
}

#[test]
fn test_department_manager() {
    let mut manager = DeparmentManager::new(Box::new(Department::IT(ITDepartment)));
    let project = manager.create_project();
    let account_id = manager.create_employee().unwrap();
    let notice = project.assign_to_employee(account_id);
    assert_eq!(
        notice,
        format!("Assigning IT project to employee with ID: {}", account_id)
    );
}

#[test]
fn it_department_creates_it_products() {
    let department = Department::of(Family::IT);
    assert_eq!(department, Department::IT(ITDepartment));
    assert_eq!(department.family(), Family::IT);
    let employee = department.create_employee();
    let project = department.create_project();
    assert_eq!(*employee, Employee::Programmer(Programmer::new()));
    assert_eq!(*project, Project::IT(ITProject));
    assert_eq!(employee.family(), Family::IT);
    assert_eq!(project.family(), Family::IT);
}

#[test]
fn ui_department_creates_ui_products() {
    let department = Department::of(Family::UI);
    assert_eq!(department, Department::UI(UIDepartment));
    assert_eq!(department.family(), Family::UI);
    let employee = department.create_employee();
    let project = department.create_project();
    assert_eq!(*employee, Employee::Designer(Designer::new()));
    assert_eq!(*project, Project::UI(UIProject));
    assert_eq!(employee.family(), Family::UI);
    assert_eq!(project.family(), Family::UI);
    assert_eq!(*UIDepartment.create_employee(), Employee::Designer(Designer));
    assert_eq!(*UIDepartment.create_project(), Project::UI(UIProject));
}

#[test]
fn families_word_their_notices_differently() {
    let it = Project::IT(ITProject).assign_to_employee(1234);
    let ui = Project::UI(UIProject).assign_to_employee(1234);
    assert_eq!(it, "Assigning IT project to employee with ID: 1234");
    assert_eq!(ui, "Assigning UI project to employee with ID: 1234");
    assert_ne!(it, ui);
    assert_eq!(
        ITProject.assign_to_employee(0),
        "Assigning IT project to employee with ID: 0"
    );
    assert_eq!(
        UIProject.assign_to_employee(99998),
        "Assigning UI project to employee with ID: 99998"
    );
}

#[test]
fn a_project_takes_an_identifier_that_nobody_holds() {
    let mut manager = it_manager();
    let project = manager.create_project();
    assert!(!manager.contains_employee(4321));
    assert_eq!(
        project.assign_to_employee(4321),
        "Assigning IT project to employee with ID: 4321"
    );
    assert_eq!(
        project.assign_to_employee(usize::MAX),
        format!("Assigning IT project to employee with ID: {}", usize::MAX)
    );
    assert_eq!(manager.employee_count(), 0);
}

#[test]
fn drawn_identifiers_lie_in_the_account_range() {
    for _ in 0..200 {
        let programmer = Programmer::new().register_account();
        let designer = Designer::new().register_account();
        assert!(ACCOUNT_ID_MIN <= programmer && programmer < ACCOUNT_ID_END);
        assert!(ACCOUNT_ID_MIN <= designer && designer < ACCOUNT_ID_END);
        assert!(is_account_id(Employee::Programmer(Programmer).register_account()));
        assert!(is_account_id(Employee::Designer(Designer).register_account()));
    }
}

#[test]
fn drawn_identifiers_vary() {
    let first = Programmer.register_account();
    let mut differs = false;
    for _ in 0..200 {
        if Programmer.register_account() != first {
            differs = true;
        }
    }
    assert!(differs);
}

#[test]
fn account_range_bounds() {
    assert_eq!(ACCOUNT_ID_MIN, 1000);
    assert_eq!(ACCOUNT_ID_END, 99999);
    assert!(!is_account_id(999));
    assert!(is_account_id(1000));
    assert!(is_account_id(99998));
    assert!(!is_account_id(99999));
    assert!(!is_account_id(0));
    assert!(!is_account_id(usize::MAX));
}

#[test]
fn new_manager_has_empty_books() {
    let manager = ui_manager();
    assert_eq!(manager.family(), Family::UI);
    assert_eq!(manager.project_count(), 0);
    assert_eq!(manager.employee_count(), 0);
    assert!(manager.project(0).is_none());
    assert!(manager.employee(1000).is_none());
    assert!(!manager.contains_employee(1000));
}

#[test]
fn scenario_project_then_employee_then_assignment() {
    let mut manager = it_manager();
    let project = manager.create_project();
    let id = manager.create_employee().unwrap();
    let notice = project.assign_to_employee(id);
    assert_eq!(
        notice,
        format!("Assigning IT project to employee with ID: {}", id)
    );
    assert_eq!(manager.project_count(), 1);
    assert_eq!(manager.employee_count(), 1);
    assert!(manager.contains_employee(id));
    assert!(is_account_id(id));
    assert_eq!(*manager.employee(id).unwrap(), Employee::Programmer(Programmer));
    assert_eq!(*manager.project(0).unwrap(), *project);
}

#[test]
fn scenario_two_managers_of_two_families() {
    let mut it = it_manager();
    let mut ui = ui_manager();
    let it_project = it.create_project();
    let ui_project = ui.create_project();
    let it_id = it.create_employee().unwrap();
    let ui_id = ui.create_employee().unwrap();
    assert_eq!(it_project.family(), Family::IT);
    assert_eq!(ui_project.family(), Family::UI);
    assert_eq!(it.employee(it_id).unwrap().family(), Family::IT);
    assert_eq!(ui.employee(ui_id).unwrap().family(), Family::UI);
    assert_eq!(it.project(0).unwrap().family(), Family::IT);
    assert_eq!(ui.project(0).unwrap().family(), Family::UI);
    assert_eq!(it.family(), Family::IT);
    assert_eq!(ui.family(), Family::UI);
}

#[test]
fn scenario_two_managers_fed_by_one_counter() {
    let mut it = it_manager();
    let mut ui = ui_manager();
    let mut next = ACCOUNT_ID_MIN;
    let mut handed_out = Vec::new();
    for round in 0..50 {
        let manager = if round % 2 == 0 { &mut it } else { &mut ui };
        let id = manager.enroll(next).unwrap();
        next += 1;
        assert!(!handed_out.contains(&id));
        handed_out.push(id);
    }
    assert_eq!(it.employee_count(), 25);
    assert_eq!(ui.employee_count(), 25);
    for id in handed_out {
        assert!(it.contains_employee(id) != ui.contains_employee(id));
    }
}

#[test]
fn scenario_three_projects() {
    let mut manager = it_manager();
    let first = manager.create_project();
    assert_eq!(manager.project_count(), 1);
    let second = manager.create_project();
    assert_eq!(manager.project_count(), 2);
    let third = manager.create_project();
    assert_eq!(manager.project_count(), 3);
    assert_eq!(manager.employee_count(), 0);
    assert_eq!(*manager.project(0).unwrap(), *first);
    assert_eq!(*manager.project(1).unwrap(), *second);
    assert_eq!(*manager.project(2).unwrap(), *third);
    assert!(manager.project(3).is_none());
    for index in 0..3 {
        assert_eq!(manager.project(index).unwrap().family(), Family::IT);
    }
}

#[test]
fn project_handle_is_shared_with_the_books() {
    let mut manager = ui_manager();
    let project = manager.create_project();
    assert_eq!(Rc::strong_count(&project), 2);
    let again = manager.project(0).unwrap();
    assert!(Rc::ptr_eq(&project, &again));
    let id = manager.enroll(2000).unwrap();
    let employee = manager.employee(id).unwrap();
    let same = manager.employee(id).unwrap();
    assert!(Rc::ptr_eq(&employee, &same));
}

#[test]
fn enroll_records_under_the_identifier_given() {
    let mut manager = ui_manager();
    assert_eq!(manager.enroll(1000), Ok(1000));
    assert_eq!(manager.enroll(99998), Ok(99998));
    assert_eq!(manager.enroll(5000), Ok(5000));
    assert_eq!(manager.employee_count(), 3);
    assert!(manager.contains_employee(1000));
    assert!(manager.contains_employee(5000));
    assert!(manager.contains_employee(99998));
    assert!(!manager.contains_employee(5001));
    assert_eq!(*manager.employee(5000).unwrap(), Employee::Designer(Designer));
    assert_eq!(manager.project_count(), 0);
}

#[test]
fn enroll_refuses_an_identifier_in_use() {
    let mut manager = it_manager();
    manager.create_project();
    assert_eq!(manager.enroll(1234), Ok(1234));
    assert_eq!(manager.enroll(1234), Err(RegistryError::IdentifierExhausted));
    assert_eq!(manager.employee_count(), 1);
    assert_eq!(manager.project_count(), 1);
    assert!(manager.contains_employee(1234));
    assert_eq!(manager.enroll(1235), Ok(1235));
    assert_eq!(manager.employee_count(), 2);
}

#[test]
fn enroll_refuses_an_identifier_out_of_range() {
    let mut manager = it_manager();
    for id in [0, 999, 99999, 100000, usize::MAX] {
        assert_eq!(manager.enroll(id), Err(RegistryError::IdentifierExhausted));
        assert!(!manager.contains_employee(id));
    }
    assert_eq!(manager.employee_count(), 0);
}

#[test]
fn created_employees_get_identifiers_of_their_own() {
    let mut manager = it_manager();
    let mut handed_out: Vec<usize> = Vec::new();
    let mut refused = 0;
    for _ in 0..500 {
        let before = manager.employee_count();
        match manager.create_employee() {
            Ok(id) => {
                assert!(is_account_id(id));
                assert!(!handed_out.contains(&id));
                handed_out.push(id);
                assert!(manager.contains_employee(id));
                assert_eq!(manager.employee_count(), before + 1);
            }
            Err(error) => {
                assert_eq!(error, RegistryError::IdentifierExhausted);
                assert_eq!(manager.employee_count(), before);
                refused += 1;
            }
        }
    }
    assert_eq!(handed_out.len() + refused, 500);
    assert_eq!(manager.employee_count(), handed_out.len());
    for id in handed_out {
        assert_eq!(manager.employee(id).unwrap().family(), Family::IT);
    }
    assert_eq!(manager.project_count(), 0);
}

#[test]
fn a_full_range_exhausts_the_identifiers() {
    let mut manager = ui_manager();
    for id in ACCOUNT_ID_MIN..ACCOUNT_ID_END {
        assert_eq!(manager.enroll(id), Ok(id));
    }
    assert_eq!(manager.employee_count(), ACCOUNT_ID_END - ACCOUNT_ID_MIN);
    for _ in 0..20 {
        assert_eq!(
            manager.create_employee(),
            Err(RegistryError::IdentifierExhausted)
        );
    }
    assert_eq!(manager.employee_count(), ACCOUNT_ID_END - ACCOUNT_ID_MIN);
}
