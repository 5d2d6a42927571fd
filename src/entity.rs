//! The three record kinds, the requests that create them, and the
//! `Record` trait through which a store reads a record's identifier.
use vstd::prelude::*;

verus! {

/// What a record store needs of the records it holds: a 128-bit identifier
/// (the value of a UUID) and an exact copy.
pub trait Record: Sized {
    /// The identifier of this record.
    spec fn key(&self) -> u128;

    fn id(&self) -> (r: u128)
        ensures
            r == self.key(),
    ;

    /// A copy equal to this record, field by field.
    fn copy_record(&self) -> (r: Self)
        ensures
            r == *self,
    ;
}

/// A project. `budget_bits` holds the IEEE-754 bit pattern of the budget
/// amount, which the library stores and returns without reading it.
#[derive(Debug, Clone, PartialEq, Eq)]
pub struct Project {
    pub id: u128,
    pub name: String,
    pub status: String,
    pub budget_bits: u64,
    /// Microseconds since 1970-01-01T00:00:00Z.
    pub created_at: i64,
}

#[derive(Debug, Clone, PartialEq, Eq)]
pub struct Task {
    pub id: u128,
    pub title: String,
    pub completed: bool,
    pub priority: i32,
    /// Microseconds since 1970-01-01T00:00:00Z.
    pub created_at: i64,
}

#[derive(Debug, Clone, PartialEq, Eq)]
pub struct Customer {
    pub id: u128,
    pub name: String,
    pub email: String,
    pub active: bool,
    /// Microseconds since 1970-01-01T00:00:00Z.
    pub created_at: i64,
}

/// The caller-supplied fields of a new project.
#[derive(Debug, Clone)]
pub struct CreateProjectRequest {
    pub name: String,
    pub status: String,
    pub budget_bits: u64,
}

/// The caller-supplied fields of a new task.
#[derive(Debug, Clone)]
pub struct CreateTaskRequest {
    pub title: String,
    pub completed: bool,
    pub priority: i32,
}

/// The caller-supplied fields of a new customer.
#[derive(Debug, Clone)]
pub struct CreateCustomerRequest {
    pub name: String,
    pub email: String,
    pub active: bool,
}

impl Record for Project {
    open spec fn key(&self) -> u128 {
        self.id
    }

    fn id(&self) -> (r: u128) {
        self.id
    }

    fn copy_record(&self) -> (r: Project) {
        Project {
            id: self.id,
            name: self.name.clone(),
            status: self.status.clone(),
            budget_bits: self.budget_bits,
            created_at: self.created_at,
        }
    }
}

impl Record for Task {
    open spec fn key(&self) -> u128 {
        self.id
    }

    fn id(&self) -> (r: u128) {
        self.id
    }

    fn copy_record(&self) -> (r: Task) {
        Task {
            id: self.id,
            title: self.title.clone(),
            completed: self.completed,
            priority: self.priority,
            created_at: self.created_at,
        }
    }
}

impl Record for Customer {
    open spec fn key(&self) -> u128 {
        self.id
    }

    fn id(&self) -> (r: u128) {
        self.id
    }

    fn copy_record(&self) -> (r: Customer) {
        Customer {
            id: self.id,
            name: self.name.clone(),
            email: self.email.clone(),
            active: self.active,
            created_at: self.created_at,
        }
    }
}

} // verus!
