//! What holds of a manager's books after any run of calls.
//!
//! A run is modelled as a sequence of [`Call`]s replayed on a [`Roster`]. Each
//! step is what the manager's own contracts say of one call, so a fact proved
//! of every replay holds of every manager, however it was used.

use crate::abstract_factory::{Project, RegistryError, Roster};
use vstd::prelude::*;

verus! {

/// One call on a manager.
pub enum Call {
    /// A project was asked for.
    CreateProject,
    /// An employee was asked for, and this is the account identifier that was
    /// drawn or offered for it.
    CreateEmployee(usize),
}

/// What a call handed back.
pub enum Reply {
    /// The handle of the project created.
    Project(Project),
    /// The account identifier of the employee created.
    Account(usize),
    /// Nothing was created.
    Refused(RegistryError),
}

/// How many of `calls` asked for a project.
pub open spec fn projects_asked(calls: Seq<Call>) -> nat
    decreases calls.len(),
{
    if calls.len() == 0 {
        0
    } else if calls.last() is CreateProject {
        projects_asked(calls.drop_last()) + 1
    } else {
        projects_asked(calls.drop_last())
    }
}

impl Roster {
    /// The books after `call`.
    pub open spec fn after(self, call: Call) -> Roster {
        match call {
            Call::CreateProject => self.with_project(),
            Call::CreateEmployee(id) => if self.vacant(id) {
                self.with_employee(id)
            } else {
                self
            },
        }
    }

    /// What `call` hands back when made on these books.
    pub open spec fn reply(self, call: Call) -> Reply {
        match call {
            Call::CreateProject => Reply::Project(self.department().work()),
            Call::CreateEmployee(id) => if self.vacant(id) {
                Reply::Account(id)
            } else {
                Reply::Refused(RegistryError::IdentifierExhausted)
            },
        }
    }

    /// The books after all of `calls`, made in order.
    pub open spec fn after_all(self, calls: Seq<Call>) -> Roster
        decreases calls.len(),
    {
        if calls.len() == 0 {
            self
        } else {
            self.after_all(calls.drop_last()).after(calls.last())
        }
    }

    /// What the call at position `i` of `calls` hands back, the calls before
    /// it having been made on these books.
    pub open spec fn reply_at(self, calls: Seq<Call>, i: int) -> Reply
        recommends
            0 <= i < calls.len(),
    {
        self.after_all(calls.take(i)).reply(calls[i])
    }

    /// Whether `later` holds everything that these books hold, unchanged and
    /// in the same place: the same family, these projects as its first
    /// projects, and each of these employees under its identifier.
    pub open spec fn kept_in(self, later: Roster) -> bool {
        &&& later.family == self.family
        &&& self.projects.len() <= later.projects.len()
        &&& forall|i: int|
            0 <= i < self.projects.len() ==> #[trigger] later.projects[i] == self.projects[i]
        &&& forall|id: usize| #[trigger]
            self.employees.contains_key(id) ==> later.employees.contains_key(id)
                && later.employees[id] == self.employees[id]
    }
}

/// A call that is refused changes nothing: the books after it are the books
/// before it, and so the employees are as many as they were.
pub proof fn lemma_refusal_changes_nothing(books: Roster, call: Call)
    requires
        books.reply(call) is Refused,
    ensures
        books.after(call) == books,
        books.after(call).employees.len() == books.employees.len(),
{
}

/// One call keeps the books consistent and keeps every earlier entry. A
/// project asked for is entered last; an employee created is entered under
/// the identifier handed back, which no employee held before.
pub proof fn lemma_call_grows(books: Roster, call: Call)
    requires
        books.consistent(),
    ensures
        books.after(call).consistent(),
        books.kept_in(books.after(call)),
        books.reply(call) matches Reply::Project(project) ==> {
            &&& project.spec_family() == books.family
            &&& books.after(call).projects == books.projects.push(project)
            &&& books.after(call).employees == books.employees
        },
        books.reply(call) matches Reply::Account(id) ==> {
            &&& !books.employees.contains_key(id)
            &&& books.after(call).employees.contains_key(id)
            &&& books.after(call).employees[id].spec_family() == books.family
            &&& books.after(call).employees.len() == books.employees.len() + 1
            &&& books.after(call).projects == books.projects
        },
{
}

/// Making `calls` in one run is making the first `i` of them and then the
/// rest.
pub proof fn lemma_after_all_split(books: Roster, calls: Seq<Call>, i: int)
    requires
        0 <= i <= calls.len(),
    ensures
        books.after_all(calls) == books.after_all(calls.take(i)).after_all(calls.skip(i)),
        projects_asked(calls) == projects_asked(calls.take(i)) + projects_asked(calls.skip(i)),
    decreases calls.len(),
{
    if i == calls.len() {
        assert(calls.take(i) =~= calls);
        assert(calls.skip(i) =~= Seq::<Call>::empty());
    } else {
        assert(calls.drop_last().take(i) =~= calls.take(i));
        assert(calls.skip(i).drop_last() =~= calls.drop_last().skip(i));
        assert(calls.skip(i).last() == calls.last());
        lemma_after_all_split(books, calls.drop_last(), i);
    }
}

/// Any run of calls keeps consistent books consistent and keeps every
/// earlier entry where it was. It adds one project for each call that asked
/// for one, so the books hold no project but those they started with and
/// those handed out.
pub proof fn lemma_run_grows(books: Roster, calls: Seq<Call>)
    requires
        books.consistent(),
    ensures
        books.after_all(calls).consistent(),
        books.kept_in(books.after_all(calls)),
        books.after_all(calls).projects.len() == books.projects.len() + projects_asked(calls),
    decreases calls.len(),
{
    if calls.len() > 0 {
        lemma_run_grows(books, calls.drop_last());
        lemma_call_grows(books.after_all(calls.drop_last()), calls.last());
    }
}

/// Where in the books the project of the call at position `i` is entered:
/// behind the projects that were there at the start and those that earlier
/// calls added.
pub open spec fn project_slot(books: Roster, calls: Seq<Call>, i: int) -> int
    recommends
        0 <= i < calls.len(),
{
    (books.projects.len() + projects_asked(calls.take(i))) as int
}

/// Every project handed out is in the books, at the slot of its call.
pub proof fn lemma_project_recorded(books: Roster, calls: Seq<Call>, i: int, project: Project)
    requires
        books.consistent(),
        0 <= i < calls.len(),
        books.reply_at(calls, i) == Reply::Project(project),
    ensures
        0 <= project_slot(books, calls, i) < books.after_all(calls).projects.len(),
        books.after_all(calls).projects[project_slot(books, calls, i)] == project,
        project.spec_family() == books.family,
{
    let before = books.after_all(calls.take(i));
    let then = books.after_all(calls.take(i + 1));
    lemma_run_grows(books, calls.take(i));
    lemma_call_grows(before, calls[i]);
    assert(calls.take(i + 1).drop_last() =~= calls.take(i));
    assert(calls.take(i + 1).last() == calls[i]);
    assert(then == before.after(calls[i]));
    lemma_after_all_split(books, calls, i + 1);
    lemma_run_grows(then, calls.skip(i + 1));
    assert(then.projects[project_slot(books, calls, i)] == project);
}

/// Projects are entered in call order, each in a slot of its own: of two
/// calls that asked for a project, the later one has the later slot.
pub proof fn lemma_project_slots_ascend(books: Roster, calls: Seq<Call>, i: int, j: int)
    requires
        0 <= i < j < calls.len(),
        calls[i] is CreateProject,
    ensures
        project_slot(books, calls, i) < project_slot(books, calls, j),
{
    let upto = calls.take(j);
    lemma_after_all_split(books, upto, i + 1);
    assert(upto.take(i + 1) =~= calls.take(i + 1));
    assert(calls.take(i + 1).drop_last() =~= calls.take(i));
    assert(calls.take(i + 1).last() == calls[i]);
}

/// Every account identifier handed out is a key of the books, and the
/// employee under it is of the books' family.
pub proof fn lemma_account_recorded(books: Roster, calls: Seq<Call>, i: int, id: usize)
    requires
        books.consistent(),
        0 <= i < calls.len(),
        books.reply_at(calls, i) == Reply::Account(id),
    ensures
        books.after_all(calls).employees.contains_key(id),
        books.after_all(calls).employees[id] == books.department().staff(),
        books.after_all(calls).employees[id].spec_family() == books.family,
        !books.employees.contains_key(id),
{
    let before = books.after_all(calls.take(i));
    let then = books.after_all(calls.take(i + 1));
    lemma_run_grows(books, calls.take(i));
    lemma_call_grows(before, calls[i]);
    assert(calls.take(i + 1).drop_last() =~= calls.take(i));
    assert(calls.take(i + 1).last() == calls[i]);
    assert(then == before.after(calls[i]));
    lemma_after_all_split(books, calls, i + 1);
    lemma_run_grows(then, calls.skip(i + 1));
    assert(then.employees.contains_key(id));
}

/// No account identifier is handed out twice: two calls of one run that
/// each created an employee returned different identifiers.
pub proof fn lemma_accounts_distinct(
    books: Roster,
    calls: Seq<Call>,
    i: int,
    j: int,
    first: usize,
    second: usize,
)
    requires
        books.consistent(),
        0 <= i < j < calls.len(),
        books.reply_at(calls, i) == Reply::Account(first),
        books.reply_at(calls, j) == Reply::Account(second),
    ensures
        first != second,
{
    let upto = calls.take(j);
    assert(upto.take(i) =~= calls.take(i));
    assert(upto[i] == calls[i]);
    lemma_account_recorded(books, upto, i, first);
}

/// The books hold no employee but those they started with and those whose
/// identifier was handed out.
pub proof fn lemma_account_accounted_for(books: Roster, calls: Seq<Call>, id: usize)
    requires
        books.after_all(calls).employees.contains_key(id),
        !books.employees.contains_key(id),
    ensures
        exists|i: int| 0 <= i < calls.len() && books.reply_at(calls, i) == Reply::Account(id),
    decreases calls.len(),
{
    let earlier = calls.drop_last();
    if books.after_all(earlier).employees.contains_key(id) {
        lemma_account_accounted_for(books, earlier, id);
        let i = choose|i: int| 0 <= i < earlier.len() && books.reply_at(earlier, i) == Reply::Account(id);
        assert(calls.take(i) =~= earlier.take(i));
        assert(books.reply_at(calls, i) == Reply::Account(id));
    } else {
        let i = calls.len() - 1;
        assert(calls.take(i) =~= earlier);
        assert(books.reply_at(calls, i) == Reply::Account(id));
    }
}

} // verus!
