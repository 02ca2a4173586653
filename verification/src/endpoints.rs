//! The fixed endpoint path table of the remote API.

use vstd::prelude::*;
use vstd::string::*;

use crate::baseurl::{with_slash, BaseUrl};
use crate::text::trim_leading;

verus! {

/// The logical endpoints the client can address: the two authentication
/// actions and one collection per resource kind, some with path-parameter
/// placeholders substituted at call time.
#[derive(Clone, Copy, Debug, PartialEq, Eq, Structural)]
pub enum Endpoint {
    Login,
    LoginWithToken,
    Users,
    Groups,
    GroupMembers,
    GroupMembersAddRemove,
    Classes,
    Namespaces,
    NamespacePermissions,
    Objects,
    ClassRelations,
    ObjectRelations,
}

/// The path template of each endpoint.
pub open spec fn endpoint_path_spec(e: Endpoint) -> Seq<char> {
    match e {
        Endpoint::Login => "/api/v0/auth/login"@,
        Endpoint::LoginWithToken => "/api/v0/auth/validate"@,
        Endpoint::Users => "/api/v1/iam/users/"@,
        Endpoint::Groups => "/api/v1/iam/groups/"@,
        Endpoint::GroupMembers => "/api/v1/iam/groups/{group_id}/members"@,
        Endpoint::GroupMembersAddRemove => "/api/v1/iam/groups/{group_id}/members/{user_id}"@,
        Endpoint::Classes => "/api/v1/classes/"@,
        Endpoint::Namespaces => "/api/v1/namespaces/"@,
        Endpoint::NamespacePermissions => "/api/v1/namespaces/{namespace_id}/permissions"@,
        Endpoint::Objects => "/api/v1/classes/{class_id}/"@,
        Endpoint::ClassRelations => "/api/v1/relations/classes/"@,
        Endpoint::ObjectRelations => "/api/v1/relations/objects/"@,
    }
}

impl Endpoint {
    /// The path template, starting with a slash.
    pub fn path(&self) -> (r: &'static str)
        ensures
            r@ == endpoint_path_spec(*self),
    {
        match self {
            Endpoint::Login => "/api/v0/auth/login",
            Endpoint::LoginWithToken => "/api/v0/auth/validate",
            Endpoint::Users => "/api/v1/iam/users/",
            Endpoint::Groups => "/api/v1/iam/groups/",
            Endpoint::GroupMembers => "/api/v1/iam/groups/{group_id}/members",
            Endpoint::GroupMembersAddRemove => "/api/v1/iam/groups/{group_id}/members/{user_id}",
            Endpoint::Classes => "/api/v1/classes/",
            Endpoint::Namespaces => "/api/v1/namespaces/",
            Endpoint::NamespacePermissions => "/api/v1/namespaces/{namespace_id}/permissions",
            Endpoint::Objects => "/api/v1/classes/{class_id}/",
            Endpoint::ClassRelations => "/api/v1/relations/classes/",
            Endpoint::ObjectRelations => "/api/v1/relations/objects/",
        }
    }

    /// The path with every leading copy of `prefix` removed.
    pub fn trim_start_matches(&self, prefix: char) -> (r: &'static str)
        ensures
            r@ == trim_leading(endpoint_path_spec(*self), prefix),
    {
        crate::text::trim_leading_str(self.path(), prefix)
    }

    /// The full URL of this endpoint under `baseurl`.
    pub fn complete(&self, baseurl: &BaseUrl) -> (r: String)
        ensures
            r@ == with_slash(baseurl@) + trim_leading(endpoint_path_spec(*self), '/'),
    {
        let base = baseurl.with_trailing_slash();
        let r = base.concat(self.trim_start_matches('/'));
        r
    }
}

} // verus!
