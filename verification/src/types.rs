//! Read-only projections of the provider's domain objects. They are
//! populated fresh on every fetch and never mutated locally.

use vstd::prelude::*;

verus! {

/// A workflow state of an issue, as reported by the provider.
#[derive(Debug, Clone, PartialEq, Eq)]
pub struct IssueState {
    pub id: String,
    pub name: String,
    pub color: String,
}

/// A user of the service.
#[derive(Debug, Clone, PartialEq, Eq)]
pub struct User {
    pub id: String,
    pub name: String,
    pub email: String,
}

/// An issue as returned by the provider.
#[derive(Debug, Clone, PartialEq, Eq)]
pub struct Issue {
    pub id: String,
    pub identifier: String,
    pub title: String,
    pub description: Option<String>,
    pub state: IssueState,
    pub priority: u8,
    pub assignee: Option<User>,
    pub created_at: String,
    pub updated_at: String,
}

/// A team of the service.
#[derive(Debug, Clone, PartialEq, Eq)]
pub struct Team {
    pub id: String,
    pub name: String,
    pub key: String,
}

/// A project of the service.
#[derive(Debug, Clone, PartialEq, Eq)]
pub struct Project {
    pub id: String,
    pub name: String,
    pub description: Option<String>,
    pub state: String,
}

} // verus!
