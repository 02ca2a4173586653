//! Stand-alone query parameter records for the two most common kinds.

use vstd::prelude::*;

verus! {

/// Ad-hoc class query parameters.
#[derive(Debug, Clone, PartialEq, Default)]
pub struct ClassParams {
    pub id: Option<i32>,
    pub name: Option<String>,
    pub description: Option<String>,
    pub created_at: Option<String>,
    pub updated_at: Option<String>,
}

/// Ad-hoc user query parameters.
#[derive(Debug, Clone, PartialEq, Default)]
pub struct UserParams {
    pub id: Option<i32>,
    pub username: Option<String>,
    pub email: Option<String>,
    pub created_at: Option<String>,
    pub updated_at: Option<String>,
}

} // verus!
