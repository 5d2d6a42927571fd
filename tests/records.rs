use std::collections::HashSet;
use std::sync::Arc;

use entity_store::entity::{
    CreateCustomerRequest, CreateProjectRequest, CreateTaskRequest, Customer, Project, Task,
};
use entity_store::service::{
    create_customer, create_project, create_task, get_customer, get_project, get_task,
    health_check, insert_task, list_customers, list_projects, list_tasks, AppState,
};
use entity_store::store::RecordStore;

fn task_request(title: &str, completed: bool, priority: i32) -> CreateTaskRequest {
    CreateTaskRequest { title: title.to_string(), completed, priority }
}

#[test]
fn post_task_then_get_returns_identical_object() {
    let mut store: RecordStore<Task> = RecordStore::new();
    let arrival = chrono::Utc::now().timestamp_micros();
    let created = create_task(&mut store, task_request("write spec", false, 2));
    assert_eq!(created.title, "write spec");
    assert!(!created.completed);
    assert_eq!(created.priority, 2);
    assert!(created.created_at >= arrival);
    let fetched = get_task(&store, created.id).expect("created task is found");
    assert_eq!(fetched, created);
}

#[test]
fn created_ids_are_random_version_four_uuids() {
    let mut store: RecordStore<Task> = RecordStore::new();
    let created = create_task(&mut store, task_request("a", true, 0));
    let parsed = uuid::Uuid::from_u128(created.id);
    assert_eq!(parsed.get_version_num(), 4);
    assert_eq!(parsed.get_variant(), uuid::Variant::RFC4122);
    assert_ne!(created.id, 0);
}

#[test]
fn creation_time_comes_from_the_clock() {
    let mut store: RecordStore<Customer> = RecordStore::new();
    let before = chrono::Utc::now().timestamp_micros();
    let created = create_customer(
        &mut store,
        CreateCustomerRequest { name: "Ann".to_string(), email: "a@b".to_string(), active: true },
    );
    let after = chrono::Utc::now().timestamp_micros();
    assert!(before <= created.created_at && created.created_at <= after);
}

#[test]
fn ids_are_distinct_across_creations() {
    let mut store: RecordStore<Task> = RecordStore::new();
    let mut seen = HashSet::new();
    for k in 0..200 {
        let t = create_task(&mut store, task_request("same", false, k));
        assert!(seen.insert(t.id));
    }
    assert_eq!(store.len(), 200);
}

#[test]
fn list_returns_creations_in_order() {
    let mut store: RecordStore<Task> = RecordStore::new();
    assert!(list_tasks(&store).is_empty());
    let a = create_task(&mut store, task_request("first", false, 1));
    let b = create_task(&mut store, task_request("second", true, -3));
    let c = create_task(&mut store, task_request("", false, i32::MAX));
    let listed = list_tasks(&store);
    assert_eq!(listed, vec![a, b, c]);
}

#[test]
fn get_after_create_for_every_kind() {
    let mut state = AppState::new();
    let p = create_project(
        &mut state.projects,
        CreateProjectRequest { name: "P".to_string(), status: "open".to_string(), budget_bits: 1.5f64.to_bits() },
    );
    let t = create_task(&mut state.tasks, task_request("T", true, 7));
    let c = create_customer(
        &mut state.customers,
        CreateCustomerRequest { name: "C".to_string(), email: "c@x".to_string(), active: false },
    );
    assert_eq!(get_project(&state.projects, p.id), Some(p.clone()));
    assert_eq!(get_task(&state.tasks, t.id), Some(t.clone()));
    assert_eq!(get_customer(&state.customers, c.id), Some(c.clone()));
    assert_eq!(list_projects(&state.projects), vec![p]);
    assert_eq!(list_customers(&state.customers), vec![c]);
}

#[test]
fn get_of_unissued_id_is_not_found() {
    let mut store: RecordStore<Task> = RecordStore::new();
    for k in 0..5 {
        create_task(&mut store, task_request("x", false, k));
    }
    let never_issued = uuid::Uuid::new_v4().as_u128();
    assert_eq!(get_task(&store, never_issued), None);
    let empty: RecordStore<Customer> = RecordStore::new();
    assert_eq!(get_customer(&empty, never_issued), None);
}

#[test]
fn project_fields_pass_through_unmodified() {
    let mut store: RecordStore<Project> = RecordStore::new();
    let budget = -1250.75f64;
    let p = create_project(
        &mut store,
        CreateProjectRequest { name: String::new(), status: "whatever".to_string(), budget_bits: budget.to_bits() },
    );
    assert_eq!(p.name, "");
    assert_eq!(p.status, "whatever");
    assert_eq!(f64::from_bits(p.budget_bits), budget);
}

#[test]
fn customer_fields_pass_through_unvalidated() {
    let mut store: RecordStore<Customer> = RecordStore::new();
    let a = create_customer(
        &mut store,
        CreateCustomerRequest { name: "Bo".to_string(), email: "not an email".to_string(), active: true },
    );
    let b = create_customer(
        &mut store,
        CreateCustomerRequest { name: "Bo".to_string(), email: "not an email".to_string(), active: true },
    );
    assert_eq!(a.email, "not an email");
    assert!(a.active);
    assert_ne!(a.id, b.id);
    assert_eq!(list_customers(&store).len(), 2);
}

#[test]
fn drawn_id_is_kept_when_free() {
    let mut store: RecordStore<Task> = RecordStore::new();
    let t = insert_task(&mut store, task_request("w", true, 9), 42, 1_000);
    assert_eq!(t.id, 42);
    assert_eq!(t.created_at, 1_000);
    assert_eq!(t.title, "w");
    assert!(t.completed);
    assert_eq!(t.priority, 9);
}

#[test]
fn colliding_draw_takes_smallest_free_id() {
    let mut store: RecordStore<Task> = RecordStore::new();
    insert_task(&mut store, task_request("a", false, 0), 0, 0);
    insert_task(&mut store, task_request("b", false, 0), 2, 0);
    let c = insert_task(&mut store, task_request("c", false, 0), 2, 5);
    assert_eq!(c.id, 1);
    let d = insert_task(&mut store, task_request("d", false, 0), 0, 5);
    assert_eq!(d.id, 3);
    assert_eq!(store.fresh_id(7), 7);
    assert_eq!(store.fresh_id(1), 4);
    assert!(store.contains_id(3));
    assert!(!store.contains_id(4));
}

#[test]
fn concurrent_creations_are_all_kept() {
    let runtime = tokio::runtime::Builder::new_multi_thread()
        .worker_threads(4)
        .build()
        .expect("runtime");
    let store = Arc::new(tokio::sync::RwLock::new(RecordStore::<Task>::new()));
    let ids = runtime.block_on(async {
        let mut handles = Vec::new();
        for k in 0..64 {
            let store = store.clone();
            handles.push(tokio::spawn(async move {
                let mut guard = store.write().await;
                create_task(&mut guard, task_request("c", false, k)).id
            }));
        }
        let mut ids = Vec::new();
        for h in handles {
            ids.push(h.await.expect("task joined"));
        }
        ids
    });
    let distinct: HashSet<u128> = ids.iter().copied().collect();
    assert_eq!(distinct.len(), 64);
    let listed = runtime.block_on(async { list_tasks(&*store.read().await) });
    assert_eq!(listed.len(), 64);
    let listed_ids: HashSet<u128> = listed.iter().map(|t| t.id).collect();
    assert_eq!(listed_ids, distinct);
}

#[test]
fn health_report_names_service_and_kinds() {
    let r = health_check();
    assert_eq!(r.status, "ok");
    assert_eq!(r.service, "demo-customer-app");
    assert_eq!(r.version, "0.1.0");
    assert_eq!(r.entities, vec!["Project".to_string(), "Task".to_string(), "Customer".to_string()]);
}

#[test]
fn new_state_has_three_empty_stores() {
    let state = AppState::new();
    assert_eq!(state.projects.len(), 0);
    assert_eq!(state.tasks.len(), 0);
    assert_eq!(state.customers.len(), 0);
}
