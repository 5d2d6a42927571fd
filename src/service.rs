//! The entity services: each turns a creation request into a stored
//! record with a fresh identifier and a creation time, and reads records
//! back from its store.
use vstd::prelude::*;

use crate::entity::{
    CreateCustomerRequest, CreateProjectRequest, CreateTaskRequest, Customer, Project, Task,
};
use crate::sources::{now_micros, random_uuid};
use crate::store::{has_id, lookup, RecordStore};

verus! {

/// Stores the project that `req` describes, created at `now` (microseconds
/// since the Unix epoch). Its identifier is `drawn_id` when no stored project
/// holds that value, and otherwise the smallest value that none holds.
pub fn insert_project(
    store: &mut RecordStore<Project>,
    req: CreateProjectRequest,
    drawn_id: u128,
    now: i64,
) -> (r: Project)
    requires
        old(store).wf(),
    ensures
        final(store).wf(),
        final(store)@ == old(store)@.push(r),
        !has_id(old(store)@, r.id),
        !has_id(old(store)@, drawn_id) ==> r.id == drawn_id,
        has_id(old(store)@, drawn_id) ==> forall|v: u128| v < r.id ==> has_id(old(store)@, v),
        r.name == req.name,
        r.status == req.status,
        r.budget_bits == req.budget_bits,
        r.created_at == now,
{
    let id = store.fresh_id(drawn_id);
    let item = Project {
        id,
        name: req.name,
        status: req.status,
        budget_bits: req.budget_bits,
        created_at: now,
    };
    store.append(item)
}

/// Creates a project from `req` with a random identifier that no stored project
/// holds and the current time, stores it last, and returns it.
pub fn create_project(store: &mut RecordStore<Project>, req: CreateProjectRequest) -> (r: Project)
    requires
        old(store).wf(),
    ensures
        final(store).wf(),
        final(store)@ == old(store)@.push(r),
        !has_id(old(store)@, r.id),
        r.name == req.name,
        r.status == req.status,
        r.budget_bits == req.budget_bits,
{
    let drawn = random_uuid();
    let now = now_micros();
    insert_project(store, req, drawn, now)
}

/// All stored projects, in the order they were created.
pub fn list_projects(store: &RecordStore<Project>) -> (r: Vec<Project>)
    ensures
        r@ == store@,
{
    store.list_all()
}

/// The stored project with identifier `id`, or `None` when there is none.
pub fn get_project(store: &RecordStore<Project>, id: u128) -> (r: Option<Project>)
    ensures
        r == lookup(store@, id),
{
    store.find_by_id(id)
}

/// Stores the task that `req` describes, created at `now` (microseconds
/// since the Unix epoch). Its identifier is `drawn_id` when no stored task
/// holds that value, and otherwise the smallest value that none holds.
pub fn insert_task(
    store: &mut RecordStore<Task>,
    req: CreateTaskRequest,
    drawn_id: u128,
    now: i64,
) -> (r: Task)
    requires
        old(store).wf(),
    ensures
        final(store).wf(),
        final(store)@ == old(store)@.push(r),
        !has_id(old(store)@, r.id),
        !has_id(old(store)@, drawn_id) ==> r.id == drawn_id,
        has_id(old(store)@, drawn_id) ==> forall|v: u128| v < r.id ==> has_id(old(store)@, v),
        r.title == req.title,
        r.completed == req.completed,
        r.priority == req.priority,
        r.created_at == now,
{
    let id = store.fresh_id(drawn_id);
    let item = Task {
        id,
        title: req.title,
        completed: req.completed,
        priority: req.priority,
        created_at: now,
    };
    store.append(item)
}

/// Creates a task from `req` with a random identifier that no stored task
/// holds and the current time, stores it last, and returns it.
pub fn create_task(store: &mut RecordStore<Task>, req: CreateTaskRequest) -> (r: Task)
    requires
        old(store).wf(),
    ensures
        final(store).wf(),
        final(store)@ == old(store)@.push(r),
        !has_id(old(store)@, r.id),
        r.title == req.title,
        r.completed == req.completed,
        r.priority == req.priority,
{
    let drawn = random_uuid();
    let now = now_micros();
    insert_task(store, req, drawn, now)
}

/// All stored tasks, in the order they were created.
pub fn list_tasks(store: &RecordStore<Task>) -> (r: Vec<Task>)
    ensures
        r@ == store@,
{
    store.list_all()
}

/// The stored task with identifier `id`, or `None` when there is none.
pub fn get_task(store: &RecordStore<Task>, id: u128) -> (r: Option<Task>)
    ensures
        r == lookup(store@, id),
{
    store.find_by_id(id)
}

/// Stores the customer that `req` describes, created at `now` (microseconds
/// since the Unix epoch). Its identifier is `drawn_id` when no stored customer
/// holds that value, and otherwise the smallest value that none holds.
pub fn insert_customer(
    store: &mut RecordStore<Customer>,
    req: CreateCustomerRequest,
    drawn_id: u128,
    now: i64,
) -> (r: Customer)
    requires
        old(store).wf(),
    ensures
        final(store).wf(),
        final(store)@ == old(store)@.push(r),
        !has_id(old(store)@, r.id),
        !has_id(old(store)@, drawn_id) ==> r.id == drawn_id,
        has_id(old(store)@, drawn_id) ==> forall|v: u128| v < r.id ==> has_id(old(store)@, v),
        r.name == req.name,
        r.email == req.email,
        r.active == req.active,
        r.created_at == now,
{
    let id = store.fresh_id(drawn_id);
    let item = Customer {
        id,
        name: req.name,
        email: req.email,
        active: req.active,
        created_at: now,
    };
    store.append(item)
}

/// Creates a customer from `req` with a random identifier that no stored customer
/// holds and the current time, stores it last, and returns it.
pub fn create_customer(store: &mut RecordStore<Customer>, req: CreateCustomerRequest) -> (r: Customer)
    requires
        old(store).wf(),
    ensures
        final(store).wf(),
        final(store)@ == old(store)@.push(r),
        !has_id(old(store)@, r.id),
        r.name == req.name,
        r.email == req.email,
        r.active == req.active,
{
    let drawn = random_uuid();
    let now = now_micros();
    insert_customer(store, req, drawn, now)
}

/// All stored customers, in the order they were created.
pub fn list_customers(store: &RecordStore<Customer>) -> (r: Vec<Customer>)
    ensures
        r@ == store@,
{
    store.list_all()
}

/// The stored customer with identifier `id`, or `None` when there is none.
pub fn get_customer(store: &RecordStore<Customer>, id: u128) -> (r: Option<Customer>)
    ensures
        r == lookup(store@, id),
{
    store.find_by_id(id)
}

/// The body of a health check: the service's status, name and version, and
/// the record kinds it serves.
#[derive(Debug, Clone)]
pub struct HealthReport {
    pub status: String,
    pub service: String,
    pub version: String,
    pub entities: Vec<String>,
}

/// The health report of this service.
pub fn health_check() -> (r: HealthReport)
    ensures
        r.status@ == "ok"@,
        r.service@ == "demo-customer-app"@,
        r.version@ == "0.1.0"@,
        r.entities@.len() == 3,
        r.entities@[0]@ == "Project"@,
        r.entities@[1]@ == "Task"@,
        r.entities@[2]@ == "Customer"@,
{
    let mut entities: Vec<String> = Vec::new();
    entities.push("Project".to_owned());
    entities.push("Task".to_owned());
    entities.push("Customer".to_owned());
    HealthReport {
        status: "ok".to_owned(),
        service: "demo-customer-app".to_owned(),
        version: "0.1.0".to_owned(),
        entities,
    }
}

/// The three stores of the service, each independent of the others.
pub struct AppState {
    pub projects: RecordStore<Project>,
    pub tasks: RecordStore<Task>,
    pub customers: RecordStore<Customer>,
}

impl AppState {
    /// Three empty stores.
    pub fn new() -> (r: AppState)
        ensures
        r.projects@ == Seq::<Project>::empty(),
        r.tasks@ == Seq::<Task>::empty(),
        r.customers@ == Seq::<Customer>::empty(),
        r.projects.wf(),
        r.tasks.wf(),
        r.customers.wf(),
    {
        AppState {
            projects: RecordStore::new(),
            tasks: RecordStore::new(),
            customers: RecordStore::new(),
        }
    }
}

} // verus!
