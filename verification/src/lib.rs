//! A typed client library for a CRUD REST API.
//!
//! The library is split into a verified core and a thin transport layer
//! (kept outside this crate): everything here is pure logic with contracts,
//! from URL normalization and endpoint resolution through query-filter
//! serialization, resource shape generation, and the authenticated client
//! state machine.  A caller performs the actual HTTP sends and feeds status
//! codes and body text back into the decision functions of this crate.

pub mod auth;
pub mod baseurl;
pub mod client;
pub mod endpoints;
pub mod errors;
pub mod fields;
pub mod filter;
pub mod params;
pub mod resources;
pub mod text;

pub use auth::{Credentials, Token};
pub use baseurl::BaseUrl;
pub use client::{
    Authenticated, Client, FilterBuilder, Handle, IntoResourceFilter, Resource, Unauthenticated,
};
pub use errors::ApiError;
pub use filter::{DataType, FilterOperator, IntoQueryTuples, QueryFilter};
pub use params::{ClassParams, UserParams};
pub use resources::{
    ApiResource, Class, ClassGet, ClassPatch, ClassPost, GetID, User, UserGet, UserPatch, UserPost,
};
