//! Parameter vocabulary for the repository-listing endpoints.
//!
//! These are the declared inputs of the repository listings; the
//! calls themselves are not part of the exposed surface yet.

use vstd::prelude::*;

verus! {

/// Which repositories to show by visibility.
#[derive(Debug, Clone, Copy, PartialEq, Eq, Structural)]
pub enum Visibility {
    All,
    Public,
    Private,
}

/// The caller's relation to the repositories listed.
#[derive(Debug, Clone, Copy, PartialEq, Eq, Structural)]
pub enum Affiliation {
    Owner,
    Collaborator,
    OrganizationMember,
}

/// Which repositories to show by kind.
#[derive(Debug, Clone, Copy, PartialEq, Eq, Structural)]
pub enum Type {
    All,
    Owner,
    Public,
    Private,
    Member,
}

/// The key the listing is sorted by.
#[derive(Debug, Clone, Copy, PartialEq, Eq, Structural)]
pub enum Sort {
    Created,
    Updated,
    Pushed,
    FullName,
}

/// The direction the listing is sorted in.
#[derive(Debug, Clone, Copy, PartialEq, Eq, Structural)]
pub enum Direction {
    Ascendant,
    Descendant,
}

/// Parameters of a user's repository listing.
#[derive(Debug, Default)]
pub struct GetUserReposParams {
    pub type_: Option<Type>,
    pub sort: Option<Sort>,
    pub direction: Option<Direction>,
}

/// Parameters of an organization's repository listing.
#[derive(Debug, Default)]
pub struct GetOrgReposParams {
    pub type_: Option<Type>,
}

} // verus!
