//! The resource kinds and the capability contract they implement.
//!
//! Each kind comes as a quadruple of shapes — the full record, the
//! get-filter parameters, the create payload and the partial-update
//! payload — plus a description consumed by the field classification
//! engine, against which the shape invariants are stated.

use vstd::prelude::*;
use vstd::string::*;

use crate::endpoints::Endpoint;
use crate::fields::{FieldDef, FieldModel, FieldType, ResourceDef};
use crate::filter::{FilterOperator, QueryFilter};

verus! {

broadcast use vstd::string::group_string_axioms;

/// The capability contract every resource kind implements exactly once:
/// the four associated shape pairs, the endpoint wiring, the name-lookup
/// field, and the translation of builder tuples into query filters.
pub trait ApiResource {
    type GetParams;

    type GetOutput;

    type PostParams;

    type PostOutput;

    type PatchParams;

    type PatchOutput;

    type DeleteParams;

    type DeleteOutput;

    /// The endpoint this kind wires to.
    spec fn spec_endpoint() -> Endpoint;

    /// The field used for name lookups on this kind.
    spec fn spec_name_field() -> Seq<char>;

    /// The endpoint of this kind, independent of the receiver value.
    fn endpoint_kind() -> (r: Endpoint)
        ensures
            r == Self::spec_endpoint(),
    ;

    /// The endpoint of this kind.
    fn endpoint(&self) -> (r: Endpoint)
        ensures
            r == Self::spec_endpoint(),
    {
        Self::endpoint_kind()
    }

    /// The field used for name lookups on this kind.
    fn name_field() -> (r: &'static str)
        ensures
            r@ == Self::spec_name_field(),
    ;

    /// A direct one-to-one translation of builder tuples into filter
    /// objects: no merging, no deduplication, order kept.
    fn build_params(filters: Vec<(String, FilterOperator, String)>) -> (r: Vec<QueryFilter>)
        ensures
            r@.len() == filters@.len(),
            forall|i: int|
                0 <= i < r@.len() ==> (#[trigger] r@[i])@.key == filters@[i].0@ && r@[i]@.operator
                    == filters@[i].1 && r@[i]@.value == filters@[i].2@,
    {
        let mut queries: Vec<QueryFilter> = Vec::new();
        let mut i: usize = 0;
        while i < filters.len()
            invariant
                i <= filters@.len(),
                queries@.len() == i,
                forall|j: int|
                    0 <= j < i ==> (#[trigger] queries@[j])@.key == filters@[j].0@
                        && queries@[j]@.operator == filters@[j].1 && queries@[j]@.value
                        == filters@[j].2@,
            decreases filters@.len() - i,
        {
            let f = &filters[i];
            queries.push(QueryFilter { key: f.0.clone(), value: f.2.clone(), operator: f.1 });
            i += 1;
        }
        queries
    }
}

/// Access to the numeric identifier every fetched record carries.
pub trait GetID {
    /// The identifier value.
    spec fn spec_id(&self) -> i32;

    fn id(&self) -> (r: i32)
        ensures
            r == self.spec_id(),
    ;
}

// --- helpers for writing descriptions ----------------------------------------

fn fdef(
    name: &str,
    ty: FieldType,
    read_only: bool,
    post_only: bool,
    optional: bool,
    as_id: bool,
) -> (r: FieldDef)
    ensures
        r@ == (FieldModel { name: name@, ty, read_only, post_only, optional, as_id, rename: None }),
{
    FieldDef { name: String::from_str(name), ty, read_only, post_only, optional, as_id, rename: None }
}

fn fdef_renamed(
    name: &str,
    ty: FieldType,
    read_only: bool,
    post_only: bool,
    optional: bool,
    as_id: bool,
    rename: &str,
) -> (r: FieldDef)
    ensures
        r@ == (FieldModel {
            name: name@,
            ty,
            read_only,
            post_only,
            optional,
            as_id,
            rename: Some(rename@),
        }),
{
    FieldDef {
        name: String::from_str(name),
        ty,
        read_only,
        post_only,
        optional,
        as_id,
        rename: Some(String::from_str(rename)),
    }
}

// --- User ---------------------------------------------------------------------

/// The user description: the identifier and timestamps are read-only, the
/// password travels only in the create payload, the email is optional.
pub open spec fn user_description() -> Seq<FieldModel> {
    seq![
        (FieldModel {
            name: "id"@,
            ty: FieldType::IntField,
            read_only: true,
            post_only: false,
            optional: false,
            as_id: false,
            rename: None,
        }),
        (FieldModel {
            name: "username"@,
            ty: FieldType::TextField,
            read_only: false,
            post_only: false,
            optional: false,
            as_id: false,
            rename: None,
        }),
        (FieldModel {
            name: "password"@,
            ty: FieldType::TextField,
            read_only: false,
            post_only: true,
            optional: false,
            as_id: false,
            rename: None,
        }),
        (FieldModel {
            name: "email"@,
            ty: FieldType::TextField,
            read_only: false,
            post_only: false,
            optional: true,
            as_id: false,
            rename: None,
        }),
        (FieldModel {
            name: "created_at"@,
            ty: FieldType::TimestampField,
            read_only: true,
            post_only: false,
            optional: false,
            as_id: false,
            rename: None,
        }),
        (FieldModel {
            name: "updated_at"@,
            ty: FieldType::TimestampField,
            read_only: true,
            post_only: false,
            optional: false,
            as_id: false,
            rename: None,
        }),
    ]
}

/// The user description as a value for the generator.
pub fn user_descriptor() -> (r: ResourceDef)
    ensures
        r.name@ == "UserResource"@,
        crate::fields::field_models(r.fields@) == user_description(),
{
    let mut fields: Vec<FieldDef> = Vec::new();
    fields.push(fdef("id", FieldType::IntField, true, false, false, false));
    fields.push(fdef("username", FieldType::TextField, false, false, false, false));
    fields.push(fdef("password", FieldType::TextField, false, true, false, false));
    fields.push(fdef("email", FieldType::TextField, false, false, true, false));
    fields.push(fdef("created_at", FieldType::TimestampField, true, false, false, false));
    fields.push(fdef("updated_at", FieldType::TimestampField, true, false, false, false));
    proof {
        assert(crate::fields::field_models(fields@) =~~= user_description());
    }
    ResourceDef { name: String::from_str("UserResource"), fields }
}

/// The full user record.
#[derive(Debug, Clone, PartialEq, Default)]
pub struct User {
    pub id: i32,
    pub username: String,
    pub email: Option<String>,
    pub created_at: String,
    pub updated_at: String,
}

/// The user get-filter parameters.
#[derive(Debug, Clone, PartialEq, Default)]
pub struct UserGet {
    pub id: Option<i32>,
    pub username: Option<String>,
    pub email: Option<String>,
    pub created_at: Option<String>,
    pub updated_at: Option<String>,
}

/// The user create payload.
#[derive(Debug, Clone, PartialEq, Default)]
pub struct UserPost {
    pub username: String,
    pub password: String,
    pub email: Option<String>,
}

/// The user partial-update payload.
#[derive(Debug, Clone, PartialEq, Default)]
pub struct UserPatch {
    pub username: Option<String>,
    pub email: Option<String>,
}

impl ApiResource for User {
    type GetParams = UserGet;

    type GetOutput = User;

    type PostParams = UserPost;

    type PostOutput = User;

    type PatchParams = UserPatch;

    type PatchOutput = User;

    type DeleteParams = ();

    type DeleteOutput = ();

    open spec fn spec_endpoint() -> Endpoint {
        Endpoint::Users
    }

    open spec fn spec_name_field() -> Seq<char> {
        "username"@
    }

    fn endpoint_kind() -> Endpoint {
        Endpoint::Users
    }

    fn name_field() -> &'static str {
        "username"
    }
}

impl GetID for User {
    open spec fn spec_id(&self) -> i32 {
        self.id
    }

    fn id(&self) -> i32 {
        self.id
    }
}

// --- Group ---------------------------------------------------------------------

/// The group description.
pub open spec fn group_description() -> Seq<FieldModel> {
    seq![
        (FieldModel {
            name: "id"@,
            ty: FieldType::IntField,
            read_only: true,
            post_only: false,
            optional: false,
            as_id: false,
            rename: None,
        }),
        (FieldModel {
            name: "groupname"@,
            ty: FieldType::TextField,
            read_only: false,
            post_only: false,
            optional: false,
            as_id: false,
            rename: Some("Name"@),
        }),
        (FieldModel {
            name: "description"@,
            ty: FieldType::TextField,
            read_only: false,
            post_only: false,
            optional: false,
            as_id: false,
            rename: Some("Description"@),
        }),
        (FieldModel {
            name: "created_at"@,
            ty: FieldType::TimestampField,
            read_only: true,
            post_only: false,
            optional: false,
            as_id: false,
            rename: Some("Created"@),
        }),
        (FieldModel {
            name: "updated_at"@,
            ty: FieldType::TimestampField,
            read_only: true,
            post_only: false,
            optional: false,
            as_id: false,
            rename: Some("Updated"@),
        }),
    ]
}

/// The group description as a value for the generator.
pub fn group_descriptor() -> (r: ResourceDef)
    ensures
        r.name@ == "GroupResource"@,
        crate::fields::field_models(r.fields@) == group_description(),
{
    let mut fields: Vec<FieldDef> = Vec::new();
    fields.push(fdef("id", FieldType::IntField, true, false, false, false));
    fields.push(fdef_renamed("groupname", FieldType::TextField, false, false, false, false, "Name"));
    fields.push(
        fdef_renamed("description", FieldType::TextField, false, false, false, false, "Description"),
    );
    fields.push(
        fdef_renamed("created_at", FieldType::TimestampField, true, false, false, false, "Created"),
    );
    fields.push(
        fdef_renamed("updated_at", FieldType::TimestampField, true, false, false, false, "Updated"),
    );
    proof {
        assert(crate::fields::field_models(fields@) =~~= group_description());
    }
    ResourceDef { name: String::from_str("GroupResource"), fields }
}

/// The full group record.
#[derive(Debug, Clone, PartialEq, Default)]
pub struct Group {
    pub id: i32,
    pub groupname: String,
    pub description: String,
    pub created_at: String,
    pub updated_at: String,
}

/// The group get-filter parameters.
#[derive(Debug, Clone, PartialEq, Default)]
pub struct GroupGet {
    pub id: Option<i32>,
    pub groupname: Option<String>,
    pub description: Option<String>,
    pub created_at: Option<String>,
    pub updated_at: Option<String>,
}

/// The group create payload.
#[derive(Debug, Clone, PartialEq, Default)]
pub struct GroupPost {
    pub groupname: String,
    pub description: String,
}

/// The group partial-update payload.
#[derive(Debug, Clone, PartialEq, Default)]
pub struct GroupPatch {
    pub groupname: Option<String>,
    pub description: Option<String>,
}

impl ApiResource for Group {
    type GetParams = GroupGet;

    type GetOutput = Group;

    type PostParams = GroupPost;

    type PostOutput = Group;

    type PatchParams = GroupPatch;

    type PatchOutput = Group;

    type DeleteParams = ();

    type DeleteOutput = ();

    open spec fn spec_endpoint() -> Endpoint {
        Endpoint::Groups
    }

    open spec fn spec_name_field() -> Seq<char> {
        "groupname"@
    }

    fn endpoint_kind() -> Endpoint {
        Endpoint::Groups
    }

    fn name_field() -> &'static str {
        "groupname"
    }
}

impl GetID for Group {
    open spec fn spec_id(&self) -> i32 {
        self.id
    }

    fn id(&self) -> i32 {
        self.id
    }
}

// --- Namespace -------------------------------------------------------------------

/// The namespace description: the owning group is set only at creation.
pub open spec fn namespace_description() -> Seq<FieldModel> {
    seq![
        (FieldModel {
            name: "id"@,
            ty: FieldType::IntField,
            read_only: true,
            post_only: false,
            optional: false,
            as_id: false,
            rename: None,
        }),
        (FieldModel {
            name: "name"@,
            ty: FieldType::TextField,
            read_only: false,
            post_only: false,
            optional: false,
            as_id: false,
            rename: Some("Name"@),
        }),
        (FieldModel {
            name: "description"@,
            ty: FieldType::TextField,
            read_only: false,
            post_only: false,
            optional: false,
            as_id: false,
            rename: Some("Description"@),
        }),
        (FieldModel {
            name: "group_id"@,
            ty: FieldType::IntField,
            read_only: false,
            post_only: true,
            optional: false,
            as_id: false,
            rename: Some("Group"@),
        }),
        (FieldModel {
            name: "created_at"@,
            ty: FieldType::TimestampField,
            read_only: true,
            post_only: false,
            optional: false,
            as_id: false,
            rename: Some("Created"@),
        }),
        (FieldModel {
            name: "updated_at"@,
            ty: FieldType::TimestampField,
            read_only: true,
            post_only: false,
            optional: false,
            as_id: false,
            rename: Some("Updated"@),
        }),
    ]
}

/// The namespace description as a value for the generator.
pub fn namespace_descriptor() -> (r: ResourceDef)
    ensures
        r.name@ == "NamespaceResource"@,
        crate::fields::field_models(r.fields@) == namespace_description(),
{
    let mut fields: Vec<FieldDef> = Vec::new();
    fields.push(fdef("id", FieldType::IntField, true, false, false, false));
    fields.push(fdef_renamed("name", FieldType::TextField, false, false, false, false, "Name"));
    fields.push(
        fdef_renamed("description", FieldType::TextField, false, false, false, false, "Description"),
    );
    fields.push(fdef_renamed("group_id", FieldType::IntField, false, true, false, false, "Group"));
    fields.push(
        fdef_renamed("created_at", FieldType::TimestampField, true, false, false, false, "Created"),
    );
    fields.push(
        fdef_renamed("updated_at", FieldType::TimestampField, true, false, false, false, "Updated"),
    );
    proof {
        assert(crate::fields::field_models(fields@) =~~= namespace_description());
    }
    ResourceDef { name: String::from_str("NamespaceResource"), fields }
}

/// The full namespace record.
#[derive(Debug, Clone, PartialEq, Default)]
pub struct Namespace {
    pub id: i32,
    pub name: String,
    pub description: String,
    pub created_at: String,
    pub updated_at: String,
}

/// The namespace get-filter parameters.
#[derive(Debug, Clone, PartialEq, Default)]
pub struct NamespaceGet {
    pub id: Option<i32>,
    pub name: Option<String>,
    pub description: Option<String>,
    pub created_at: Option<String>,
    pub updated_at: Option<String>,
}

/// The namespace create payload.
#[derive(Debug, Clone, PartialEq, Default)]
pub struct NamespacePost {
    pub name: String,
    pub description: String,
    pub group_id: i32,
}

/// The namespace partial-update payload.
#[derive(Debug, Clone, PartialEq, Default)]
pub struct NamespacePatch {
    pub name: Option<String>,
    pub description: Option<String>,
}

impl ApiResource for Namespace {
    type GetParams = NamespaceGet;

    type GetOutput = Namespace;

    type PostParams = NamespacePost;

    type PostOutput = Namespace;

    type PatchParams = NamespacePatch;

    type PatchOutput = Namespace;

    type DeleteParams = ();

    type DeleteOutput = ();

    open spec fn spec_endpoint() -> Endpoint {
        Endpoint::Namespaces
    }

    open spec fn spec_name_field() -> Seq<char> {
        "name"@
    }

    fn endpoint_kind() -> Endpoint {
        Endpoint::Namespaces
    }

    fn name_field() -> &'static str {
        "name"
    }
}

impl GetID for Namespace {
    open spec fn spec_id(&self) -> i32 {
        self.id
    }

    fn id(&self) -> i32 {
        self.id
    }
}


// --- Class ---------------------------------------------------------------------

/// The class description: the namespace is a foreign key, carried nested
/// in the full record and as `namespace_id` in the payloads; the schema
/// fields are optional.
pub open spec fn class_description() -> Seq<FieldModel> {
    seq![
        (FieldModel {
            name: "id"@,
            ty: FieldType::IntField,
            read_only: true,
            post_only: false,
            optional: false,
            as_id: false,
            rename: None,
        }),
        (FieldModel {
            name: "name"@,
            ty: FieldType::TextField,
            read_only: false,
            post_only: false,
            optional: false,
            as_id: false,
            rename: Some("Name"@),
        }),
        (FieldModel {
            name: "description"@,
            ty: FieldType::TextField,
            read_only: false,
            post_only: false,
            optional: false,
            as_id: false,
            rename: Some("Description"@),
        }),
        (FieldModel {
            name: "namespace"@,
            ty: FieldType::NestedField,
            read_only: false,
            post_only: false,
            optional: false,
            as_id: true,
            rename: Some("Namespace"@),
        }),
        (FieldModel {
            name: "json_schema"@,
            ty: FieldType::JsonField,
            read_only: false,
            post_only: false,
            optional: true,
            as_id: false,
            rename: Some("Schema"@),
        }),
        (FieldModel {
            name: "validate_schema"@,
            ty: FieldType::BoolField,
            read_only: false,
            post_only: false,
            optional: true,
            as_id: false,
            rename: Some("Validate"@),
        }),
        (FieldModel {
            name: "created_at"@,
            ty: FieldType::TimestampField,
            read_only: true,
            post_only: false,
            optional: false,
            as_id: false,
            rename: Some("Created"@),
        }),
        (FieldModel {
            name: "updated_at"@,
            ty: FieldType::TimestampField,
            read_only: true,
            post_only: false,
            optional: false,
            as_id: false,
            rename: Some("Updated"@),
        }),
    ]
}

/// The class description as a value for the generator.
pub fn class_descriptor() -> (r: ResourceDef)
    ensures
        r.name@ == "ClassResource"@,
        crate::fields::field_models(r.fields@) == class_description(),
{
    let mut fields: Vec<FieldDef> = Vec::new();
    fields.push(fdef("id", FieldType::IntField, true, false, false, false));
    fields.push(fdef_renamed("name", FieldType::TextField, false, false, false, false, "Name"));
    fields.push(
        fdef_renamed("description", FieldType::TextField, false, false, false, false, "Description"),
    );
    fields.push(
        fdef_renamed("namespace", FieldType::NestedField, false, false, false, true, "Namespace"),
    );
    fields.push(
        fdef_renamed("json_schema", FieldType::JsonField, false, false, true, false, "Schema"),
    );
    fields.push(
        fdef_renamed("validate_schema", FieldType::BoolField, false, false, true, false, "Validate"),
    );
    fields.push(
        fdef_renamed("created_at", FieldType::TimestampField, true, false, false, false, "Created"),
    );
    fields.push(
        fdef_renamed("updated_at", FieldType::TimestampField, true, false, false, false, "Updated"),
    );
    proof {
        assert(crate::fields::field_models(fields@) =~~= class_description());
    }
    ResourceDef { name: String::from_str("ClassResource"), fields }
}

/// The full class record; the namespace is carried nested.
#[derive(Debug, Clone, PartialEq, Default)]
pub struct Class {
    pub id: i32,
    pub name: String,
    pub description: String,
    pub namespace: Namespace,
    pub json_schema: Option<String>,
    pub validate_schema: Option<bool>,
    pub created_at: String,
    pub updated_at: String,
}

/// The class get-filter parameters.
#[derive(Debug, Clone, PartialEq, Default)]
pub struct ClassGet {
    pub id: Option<i32>,
    pub name: Option<String>,
    pub description: Option<String>,
    pub namespace_id: Option<Namespace>,
    pub json_schema: Option<String>,
    pub validate_schema: Option<bool>,
    pub created_at: Option<String>,
    pub updated_at: Option<String>,
}

/// The class create payload; the namespace travels as its id.
#[derive(Debug, Clone, PartialEq, Default)]
pub struct ClassPost {
    pub name: String,
    pub description: String,
    pub namespace_id: i32,
    pub json_schema: Option<String>,
    pub validate_schema: Option<bool>,
}

/// The class partial-update payload.
#[derive(Debug, Clone, PartialEq, Default)]
pub struct ClassPatch {
    pub name: Option<String>,
    pub description: Option<String>,
    pub namespace_id: Option<i32>,
    pub json_schema: Option<String>,
    pub validate_schema: Option<bool>,
}

impl ApiResource for Class {
    type GetParams = ClassGet;

    type GetOutput = Class;

    type PostParams = ClassPost;

    type PostOutput = Class;

    type PatchParams = ClassPatch;

    type PatchOutput = Class;

    type DeleteParams = ();

    type DeleteOutput = ();

    open spec fn spec_endpoint() -> Endpoint {
        Endpoint::Classes
    }

    open spec fn spec_name_field() -> Seq<char> {
        "name"@
    }

    fn endpoint_kind() -> Endpoint {
        Endpoint::Classes
    }

    fn name_field() -> &'static str {
        "name"
    }
}

impl GetID for Class {
    open spec fn spec_id(&self) -> i32 {
        self.id
    }

    fn id(&self) -> i32 {
        self.id
    }
}

// --- ClassRelation ---------------------------------------------------------------

/// The class-relation description.
pub open spec fn class_relation_description() -> Seq<FieldModel> {
    seq![
        (FieldModel {
            name: "id"@,
            ty: FieldType::IntField,
            read_only: true,
            post_only: false,
            optional: false,
            as_id: false,
            rename: None,
        }),
        (FieldModel {
            name: "from_hubuum_class_id"@,
            ty: FieldType::IntField,
            read_only: false,
            post_only: false,
            optional: false,
            as_id: false,
            rename: Some("FromClass"@),
        }),
        (FieldModel {
            name: "to_hubuum_class_id"@,
            ty: FieldType::IntField,
            read_only: false,
            post_only: false,
            optional: false,
            as_id: false,
            rename: Some("ToClass"@),
        }),
        (FieldModel {
            name: "created_at"@,
            ty: FieldType::TimestampField,
            read_only: true,
            post_only: false,
            optional: false,
            as_id: false,
            rename: Some("Created"@),
        }),
        (FieldModel {
            name: "updated_at"@,
            ty: FieldType::TimestampField,
            read_only: true,
            post_only: false,
            optional: false,
            as_id: false,
            rename: Some("Updated"@),
        }),
    ]
}

/// The class-relation description as a value for the generator.
pub fn class_relation_descriptor() -> (r: ResourceDef)
    ensures
        r.name@ == "ClassRelationResource"@,
        crate::fields::field_models(r.fields@) == class_relation_description(),
{
    let mut fields: Vec<FieldDef> = Vec::new();
    fields.push(fdef("id", FieldType::IntField, true, false, false, false));
    fields.push(
        fdef_renamed(
            "from_hubuum_class_id",
            FieldType::IntField,
            false,
            false,
            false,
            false,
            "FromClass",
        ),
    );
    fields.push(
        fdef_renamed(
            "to_hubuum_class_id",
            FieldType::IntField,
            false,
            false,
            false,
            false,
            "ToClass",
        ),
    );
    fields.push(
        fdef_renamed("created_at", FieldType::TimestampField, true, false, false, false, "Created"),
    );
    fields.push(
        fdef_renamed("updated_at", FieldType::TimestampField, true, false, false, false, "Updated"),
    );
    proof {
        assert(crate::fields::field_models(fields@) =~~= class_relation_description());
    }
    ResourceDef { name: String::from_str("ClassRelationResource"), fields }
}

/// The full class-relation record.
#[derive(Debug, Clone, PartialEq, Default)]
pub struct ClassRelation {
    pub id: i32,
    pub from_hubuum_class_id: i32,
    pub to_hubuum_class_id: i32,
    pub created_at: String,
    pub updated_at: String,
}

/// The class-relation get-filter parameters.
#[derive(Debug, Clone, PartialEq, Default)]
pub struct ClassRelationGet {
    pub id: Option<i32>,
    pub from_hubuum_class_id: Option<i32>,
    pub to_hubuum_class_id: Option<i32>,
    pub created_at: Option<String>,
    pub updated_at: Option<String>,
}

/// The class-relation create payload.
#[derive(Debug, Clone, PartialEq, Default)]
pub struct ClassRelationPost {
    pub from_hubuum_class_id: i32,
    pub to_hubuum_class_id: i32,
}

/// The class-relation partial-update payload.
#[derive(Debug, Clone, PartialEq, Default)]
pub struct ClassRelationPatch {
    pub from_hubuum_class_id: Option<i32>,
    pub to_hubuum_class_id: Option<i32>,
}

impl ApiResource for ClassRelation {
    type GetParams = ClassRelationGet;

    type GetOutput = ClassRelation;

    type PostParams = ClassRelationPost;

    type PostOutput = ClassRelation;

    type PatchParams = ClassRelationPatch;

    type PatchOutput = ClassRelation;

    type DeleteParams = ();

    type DeleteOutput = ();

    open spec fn spec_endpoint() -> Endpoint {
        Endpoint::ClassRelations
    }

    open spec fn spec_name_field() -> Seq<char> {
        "name"@
    }

    fn endpoint_kind() -> Endpoint {
        Endpoint::ClassRelations
    }

    fn name_field() -> &'static str {
        "name"
    }
}

impl GetID for ClassRelation {
    open spec fn spec_id(&self) -> i32 {
        self.id
    }

    fn id(&self) -> i32 {
        self.id
    }
}

// --- Object ---------------------------------------------------------------------

/// The object description.
pub open spec fn object_description() -> Seq<FieldModel> {
    seq![
        (FieldModel {
            name: "id"@,
            ty: FieldType::IntField,
            read_only: true,
            post_only: false,
            optional: false,
            as_id: false,
            rename: None,
        }),
        (FieldModel {
            name: "name"@,
            ty: FieldType::TextField,
            read_only: false,
            post_only: false,
            optional: false,
            as_id: false,
            rename: Some("Name"@),
        }),
        (FieldModel {
            name: "namespace_id"@,
            ty: FieldType::IntField,
            read_only: false,
            post_only: false,
            optional: false,
            as_id: false,
            rename: Some("Namespace"@),
        }),
        (FieldModel {
            name: "hubuum_class_id"@,
            ty: FieldType::IntField,
            read_only: false,
            post_only: false,
            optional: false,
            as_id: false,
            rename: Some("Class"@),
        }),
        (FieldModel {
            name: "description"@,
            ty: FieldType::TextField,
            read_only: false,
            post_only: false,
            optional: false,
            as_id: false,
            rename: Some("Description"@),
        }),
        (FieldModel {
            name: "data"@,
            ty: FieldType::JsonField,
            read_only: false,
            post_only: false,
            optional: true,
            as_id: false,
            rename: Some("Data"@),
        }),
        (FieldModel {
            name: "created_at"@,
            ty: FieldType::TimestampField,
            read_only: true,
            post_only: false,
            optional: false,
            as_id: false,
            rename: Some("Created"@),
        }),
        (FieldModel {
            name: "updated_at"@,
            ty: FieldType::TimestampField,
            read_only: true,
            post_only: false,
            optional: false,
            as_id: false,
            rename: Some("Updated"@),
        }),
    ]
}

/// The object description as a value for the generator.
pub fn object_descriptor() -> (r: ResourceDef)
    ensures
        r.name@ == "ObjectResource"@,
        crate::fields::field_models(r.fields@) == object_description(),
{
    let mut fields: Vec<FieldDef> = Vec::new();
    fields.push(fdef("id", FieldType::IntField, true, false, false, false));
    fields.push(fdef_renamed("name", FieldType::TextField, false, false, false, false, "Name"));
    fields.push(
        fdef_renamed("namespace_id", FieldType::IntField, false, false, false, false, "Namespace"),
    );
    fields.push(
        fdef_renamed("hubuum_class_id", FieldType::IntField, false, false, false, false, "Class"),
    );
    fields.push(
        fdef_renamed("description", FieldType::TextField, false, false, false, false, "Description"),
    );
    fields.push(fdef_renamed("data", FieldType::JsonField, false, false, true, false, "Data"));
    fields.push(
        fdef_renamed("created_at", FieldType::TimestampField, true, false, false, false, "Created"),
    );
    fields.push(
        fdef_renamed("updated_at", FieldType::TimestampField, true, false, false, false, "Updated"),
    );
    proof {
        assert(crate::fields::field_models(fields@) =~~= object_description());
    }
    ResourceDef { name: String::from_str("ObjectResource"), fields }
}

/// The full object record.
#[derive(Debug, Clone, PartialEq, Default)]
pub struct Object {
    pub id: i32,
    pub name: String,
    pub namespace_id: i32,
    pub hubuum_class_id: i32,
    pub description: String,
    pub data: Option<String>,
    pub created_at: String,
    pub updated_at: String,
}

/// The object get-filter parameters.
#[derive(Debug, Clone, PartialEq, Default)]
pub struct ObjectGet {
    pub id: Option<i32>,
    pub name: Option<String>,
    pub namespace_id: Option<i32>,
    pub hubuum_class_id: Option<i32>,
    pub description: Option<String>,
    pub data: Option<String>,
    pub created_at: Option<String>,
    pub updated_at: Option<String>,
}

/// The object create payload.
#[derive(Debug, Clone, PartialEq, Default)]
pub struct ObjectPost {
    pub name: String,
    pub namespace_id: i32,
    pub hubuum_class_id: i32,
    pub description: String,
    pub data: Option<String>,
}

/// The object partial-update payload.
#[derive(Debug, Clone, PartialEq, Default)]
pub struct ObjectPatch {
    pub name: Option<String>,
    pub namespace_id: Option<i32>,
    pub hubuum_class_id: Option<i32>,
    pub description: Option<String>,
    pub data: Option<String>,
}

impl ApiResource for Object {
    type GetParams = ObjectGet;

    type GetOutput = Object;

    type PostParams = ObjectPost;

    type PostOutput = Object;

    type PatchParams = ObjectPatch;

    type PatchOutput = Object;

    type DeleteParams = ();

    type DeleteOutput = ();

    open spec fn spec_endpoint() -> Endpoint {
        Endpoint::Objects
    }

    open spec fn spec_name_field() -> Seq<char> {
        "name"@
    }

    fn endpoint_kind() -> Endpoint {
        Endpoint::Objects
    }

    fn name_field() -> &'static str {
        "name"
    }
}

impl GetID for Object {
    open spec fn spec_id(&self) -> i32 {
        self.id
    }

    fn id(&self) -> i32 {
        self.id
    }
}

// --- ObjectRelation ---------------------------------------------------------------

/// The object-relation description.
pub open spec fn object_relation_description() -> Seq<FieldModel> {
    seq![
        (FieldModel {
            name: "id"@,
            ty: FieldType::IntField,
            read_only: true,
            post_only: false,
            optional: false,
            as_id: false,
            rename: None,
        }),
        (FieldModel {
            name: "from_hubuum_object_id"@,
            ty: FieldType::IntField,
            read_only: false,
            post_only: false,
            optional: false,
            as_id: false,
            rename: Some("FromObject"@),
        }),
        (FieldModel {
            name: "to_hubuum_object_id"@,
            ty: FieldType::IntField,
            read_only: false,
            post_only: false,
            optional: false,
            as_id: false,
            rename: Some("ToObject"@),
        }),
        (FieldModel {
            name: "class_relation_id"@,
            ty: FieldType::IntField,
            read_only: false,
            post_only: false,
            optional: false,
            as_id: false,
            rename: Some("Relation"@),
        }),
        (FieldModel {
            name: "created_at"@,
            ty: FieldType::TimestampField,
            read_only: true,
            post_only: false,
            optional: false,
            as_id: false,
            rename: Some("Created"@),
        }),
        (FieldModel {
            name: "updated_at"@,
            ty: FieldType::TimestampField,
            read_only: true,
            post_only: false,
            optional: false,
            as_id: false,
            rename: Some("Updated"@),
        }),
    ]
}

/// The object-relation description as a value for the generator.
pub fn object_relation_descriptor() -> (r: ResourceDef)
    ensures
        r.name@ == "ObjectRelationResource"@,
        crate::fields::field_models(r.fields@) == object_relation_description(),
{
    let mut fields: Vec<FieldDef> = Vec::new();
    fields.push(fdef("id", FieldType::IntField, true, false, false, false));
    fields.push(
        fdef_renamed(
            "from_hubuum_object_id",
            FieldType::IntField,
            false,
            false,
            false,
            false,
            "FromObject",
        ),
    );
    fields.push(
        fdef_renamed(
            "to_hubuum_object_id",
            FieldType::IntField,
            false,
            false,
            false,
            false,
            "ToObject",
        ),
    );
    fields.push(
        fdef_renamed(
            "class_relation_id",
            FieldType::IntField,
            false,
            false,
            false,
            false,
            "Relation",
        ),
    );
    fields.push(
        fdef_renamed("created_at", FieldType::TimestampField, true, false, false, false, "Created"),
    );
    fields.push(
        fdef_renamed("updated_at", FieldType::TimestampField, true, false, false, false, "Updated"),
    );
    proof {
        assert(crate::fields::field_models(fields@) =~~= object_relation_description());
    }
    ResourceDef { name: String::from_str("ObjectRelationResource"), fields }
}

/// The full object-relation record.
#[derive(Debug, Clone, PartialEq, Default)]
pub struct ObjectRelation {
    pub id: i32,
    pub from_hubuum_object_id: i32,
    pub to_hubuum_object_id: i32,
    pub class_relation_id: i32,
    pub created_at: String,
    pub updated_at: String,
}

/// The object-relation get-filter parameters.
#[derive(Debug, Clone, PartialEq, Default)]
pub struct ObjectRelationGet {
    pub id: Option<i32>,
    pub from_hubuum_object_id: Option<i32>,
    pub to_hubuum_object_id: Option<i32>,
    pub class_relation_id: Option<i32>,
    pub created_at: Option<String>,
    pub updated_at: Option<String>,
}

/// The object-relation create payload.
#[derive(Debug, Clone, PartialEq, Default)]
pub struct ObjectRelationPost {
    pub from_hubuum_object_id: i32,
    pub to_hubuum_object_id: i32,
    pub class_relation_id: i32,
}

/// The object-relation partial-update payload.
#[derive(Debug, Clone, PartialEq, Default)]
pub struct ObjectRelationPatch {
    pub from_hubuum_object_id: Option<i32>,
    pub to_hubuum_object_id: Option<i32>,
    pub class_relation_id: Option<i32>,
}

impl ApiResource for ObjectRelation {
    type GetParams = ObjectRelationGet;

    type GetOutput = ObjectRelation;

    type PostParams = ObjectRelationPost;

    type PostOutput = ObjectRelation;

    type PatchParams = ObjectRelationPatch;

    type PatchOutput = ObjectRelation;

    type DeleteParams = ();

    type DeleteOutput = ();

    open spec fn spec_endpoint() -> Endpoint {
        Endpoint::ObjectRelations
    }

    open spec fn spec_name_field() -> Seq<char> {
        "name"@
    }

    fn endpoint_kind() -> Endpoint {
        Endpoint::ObjectRelations
    }

    fn name_field() -> &'static str {
        "name"
    }
}

impl GetID for ObjectRelation {
    open spec fn spec_id(&self) -> i32 {
        self.id
    }

    fn id(&self) -> i32 {
        self.id
    }
}

// --- permission query results ---------------------------------------------------

/// One group together with its permissions on a namespace.
#[derive(Debug, Clone, PartialEq)]
pub struct GroupPermissionsResult {
    pub group: GroupResult,
    pub permission: PermissionResult,
}

/// The group half of a permission listing.
#[derive(Debug, Clone, PartialEq)]
pub struct GroupResult {
    pub id: i32,
    pub groupname: String,
    pub description: String,
    pub created_at: String,
    pub updated_at: String,
}

/// The per-capability permission flags of one group on one namespace.
#[derive(Debug, Clone, PartialEq)]
pub struct PermissionResult {
    pub id: i32,
    pub namespace_id: i32,
    pub group_id: i32,
    pub has_read_namespace: bool,
    pub has_update_namespace: bool,
    pub has_delete_namespace: bool,
    pub has_delegate_namespace: bool,
    pub has_create_class: bool,
    pub has_read_class: bool,
    pub has_update_class: bool,
    pub has_delete_class: bool,
    pub has_create_object: bool,
    pub has_read_object: bool,
    pub has_update_object: bool,
    pub has_delete_object: bool,
    pub has_create_class_relation: bool,
    pub has_read_class_relation: bool,
    pub has_update_class_relation: bool,
    pub has_delete_class_relation: bool,
    pub has_create_object_relation: bool,
    pub has_read_object_relation: bool,
    pub has_update_object_relation: bool,
    pub has_delete_object_relation: bool,
    pub created_at: String,
    pub updated_at: String,
}


// --- the shape partition law, per kind -------------------------------------------

/// The user description is legal and collision-free, so the shape
/// partition law applies to it.
pub proof fn lemma_user_description_wf()
    ensures
        crate::fields::fields_ok(user_description()),
        crate::fields::names_distinct(user_description()),
{
    reveal_strlit("id");
    reveal_strlit("username");
    reveal_strlit("password");
    reveal_strlit("email");
    reveal_strlit("created_at");
    reveal_strlit("updated_at");
    assert("id"@.len() == 2);
    assert("username"@.len() == 8 && "username"@[0] == 'u');
    assert("password"@.len() == 8 && "password"@[0] == 'p');
    assert("email"@.len() == 5);
    assert("created_at"@.len() == 10 && "created_at"@[0] == 'c');
    assert("updated_at"@.len() == 10 && "updated_at"@[0] == 'u');
    let fs = user_description();
    assert forall|i: int, j: int|
        0 <= i < fs.len() && 0 <= j < fs.len() && i != j implies (#[trigger] fs[i]).name != (
    #[trigger] fs[j]).name && fs[i].name != crate::fields::wire_name(fs[j])
        && crate::fields::wire_name(fs[i]) != crate::fields::wire_name(fs[j]) by {
        assert(crate::fields::wire_name(fs[i]) == fs[i].name);
        assert(crate::fields::wire_name(fs[j]) == fs[j].name);
    }
}


/// The group description is legal and collision-free.
pub proof fn lemma_group_description_wf()
    ensures
        crate::fields::fields_ok(group_description()),
        crate::fields::names_distinct(group_description()),
{
    reveal_strlit("id");
    reveal_strlit("groupname");
    reveal_strlit("description");
    reveal_strlit("created_at");
    reveal_strlit("updated_at");
    assert("id"@.len() == 2);
    assert("groupname"@.len() == 9);
    assert("description"@.len() == 11);
    assert("created_at"@.len() == 10 && "created_at"@[0] == 'c');
    assert("updated_at"@.len() == 10 && "updated_at"@[0] == 'u');
    let fs = group_description();
    assert forall|i: int, j: int|
        0 <= i < fs.len() && 0 <= j < fs.len() && i != j implies (#[trigger] fs[i]).name != (
    #[trigger] fs[j]).name && fs[i].name != crate::fields::wire_name(fs[j])
        && crate::fields::wire_name(fs[i]) != crate::fields::wire_name(fs[j]) by {
        assert(crate::fields::wire_name(fs[i]) == fs[i].name);
        assert(crate::fields::wire_name(fs[j]) == fs[j].name);
    }
}

/// The namespace description is legal and collision-free.
pub proof fn lemma_namespace_description_wf()
    ensures
        crate::fields::fields_ok(namespace_description()),
        crate::fields::names_distinct(namespace_description()),
{
    reveal_strlit("id");
    reveal_strlit("name");
    reveal_strlit("description");
    reveal_strlit("group_id");
    reveal_strlit("created_at");
    reveal_strlit("updated_at");
    assert("id"@.len() == 2);
    assert("name"@.len() == 4);
    assert("description"@.len() == 11);
    assert("group_id"@.len() == 8);
    assert("created_at"@.len() == 10 && "created_at"@[0] == 'c');
    assert("updated_at"@.len() == 10 && "updated_at"@[0] == 'u');
    let fs = namespace_description();
    assert forall|i: int, j: int|
        0 <= i < fs.len() && 0 <= j < fs.len() && i != j implies (#[trigger] fs[i]).name != (
    #[trigger] fs[j]).name && fs[i].name != crate::fields::wire_name(fs[j])
        && crate::fields::wire_name(fs[i]) != crate::fields::wire_name(fs[j]) by {
        assert(crate::fields::wire_name(fs[i]) == fs[i].name);
        assert(crate::fields::wire_name(fs[j]) == fs[j].name);
    }
}

/// The class description is legal and collision-free; the one foreign-key
/// field renames to `namespace_id`, which no other field uses.
pub proof fn lemma_class_description_wf()
    ensures
        crate::fields::fields_ok(class_description()),
        crate::fields::names_distinct(class_description()),
{
    reveal_strlit("id");
    reveal_strlit("name");
    reveal_strlit("description");
    reveal_strlit("namespace");
    reveal_strlit("_id");
    reveal_strlit("json_schema");
    reveal_strlit("validate_schema");
    reveal_strlit("created_at");
    reveal_strlit("updated_at");
    assert("id"@.len() == 2);
    assert("name"@.len() == 4);
    assert("description"@.len() == 11 && "description"@[0] == 'd');
    assert("namespace"@.len() == 9 && "namespace"@[0] == 'n');
    assert("_id"@.len() == 3);
    assert("json_schema"@.len() == 11 && "json_schema"@[0] == 'j');
    assert("validate_schema"@.len() == 15);
    assert("created_at"@.len() == 10 && "created_at"@[0] == 'c');
    assert("updated_at"@.len() == 10 && "updated_at"@[0] == 'u');
    let fs = class_description();
    assert(crate::fields::wire_name(fs[3]) == "namespace"@ + "_id"@);
    assert(("namespace"@ + "_id"@).len() == 12);
    assert forall|i: int, j: int|
        0 <= i < fs.len() && 0 <= j < fs.len() && i != j implies (#[trigger] fs[i]).name != (
    #[trigger] fs[j]).name && fs[i].name != crate::fields::wire_name(fs[j])
        && crate::fields::wire_name(fs[i]) != crate::fields::wire_name(fs[j]) by {
        if i != 3 {
            assert(crate::fields::wire_name(fs[i]) == fs[i].name);
        } else {
            assert(crate::fields::wire_name(fs[i]) == "namespace"@ + "_id"@);
        }
        if j != 3 {
            assert(crate::fields::wire_name(fs[j]) == fs[j].name);
        } else {
            assert(crate::fields::wire_name(fs[j]) == "namespace"@ + "_id"@);
        }
    }
}

/// The class-relation description is legal and collision-free.
pub proof fn lemma_class_relation_description_wf()
    ensures
        crate::fields::fields_ok(class_relation_description()),
        crate::fields::names_distinct(class_relation_description()),
{
    reveal_strlit("id");
    reveal_strlit("from_hubuum_class_id");
    reveal_strlit("to_hubuum_class_id");
    reveal_strlit("created_at");
    reveal_strlit("updated_at");
    assert("id"@.len() == 2);
    assert("from_hubuum_class_id"@.len() == 20);
    assert("to_hubuum_class_id"@.len() == 18);
    assert("created_at"@.len() == 10 && "created_at"@[0] == 'c');
    assert("updated_at"@.len() == 10 && "updated_at"@[0] == 'u');
    let fs = class_relation_description();
    assert forall|i: int, j: int|
        0 <= i < fs.len() && 0 <= j < fs.len() && i != j implies (#[trigger] fs[i]).name != (
    #[trigger] fs[j]).name && fs[i].name != crate::fields::wire_name(fs[j])
        && crate::fields::wire_name(fs[i]) != crate::fields::wire_name(fs[j]) by {
        assert(crate::fields::wire_name(fs[i]) == fs[i].name);
        assert(crate::fields::wire_name(fs[j]) == fs[j].name);
    }
}

/// The object description is legal and collision-free.
pub proof fn lemma_object_description_wf()
    ensures
        crate::fields::fields_ok(object_description()),
        crate::fields::names_distinct(object_description()),
{
    reveal_strlit("id");
    reveal_strlit("name");
    reveal_strlit("namespace_id");
    reveal_strlit("hubuum_class_id");
    reveal_strlit("description");
    reveal_strlit("data");
    reveal_strlit("created_at");
    reveal_strlit("updated_at");
    assert("id"@.len() == 2);
    assert("name"@.len() == 4 && "name"@[0] == 'n');
    assert("namespace_id"@.len() == 12);
    assert("hubuum_class_id"@.len() == 15);
    assert("description"@.len() == 11);
    assert("data"@.len() == 4 && "data"@[0] == 'd');
    assert("created_at"@.len() == 10 && "created_at"@[0] == 'c');
    assert("updated_at"@.len() == 10 && "updated_at"@[0] == 'u');
    let fs = object_description();
    assert forall|i: int, j: int|
        0 <= i < fs.len() && 0 <= j < fs.len() && i != j implies (#[trigger] fs[i]).name != (
    #[trigger] fs[j]).name && fs[i].name != crate::fields::wire_name(fs[j])
        && crate::fields::wire_name(fs[i]) != crate::fields::wire_name(fs[j]) by {
        assert(crate::fields::wire_name(fs[i]) == fs[i].name);
        assert(crate::fields::wire_name(fs[j]) == fs[j].name);
    }
}

/// The object-relation description is legal and collision-free.
pub proof fn lemma_object_relation_description_wf()
    ensures
        crate::fields::fields_ok(object_relation_description()),
        crate::fields::names_distinct(object_relation_description()),
{
    reveal_strlit("id");
    reveal_strlit("from_hubuum_object_id");
    reveal_strlit("to_hubuum_object_id");
    reveal_strlit("class_relation_id");
    reveal_strlit("created_at");
    reveal_strlit("updated_at");
    assert("id"@.len() == 2);
    assert("from_hubuum_object_id"@.len() == 21);
    assert("to_hubuum_object_id"@.len() == 19);
    assert("class_relation_id"@.len() == 17);
    assert("created_at"@.len() == 10 && "created_at"@[0] == 'c');
    assert("updated_at"@.len() == 10 && "updated_at"@[0] == 'u');
    let fs = object_relation_description();
    assert forall|i: int, j: int|
        0 <= i < fs.len() && 0 <= j < fs.len() && i != j implies (#[trigger] fs[i]).name != (
    #[trigger] fs[j]).name && fs[i].name != crate::fields::wire_name(fs[j])
        && crate::fields::wire_name(fs[i]) != crate::fields::wire_name(fs[j]) by {
        assert(crate::fields::wire_name(fs[i]) == fs[i].name);
        assert(crate::fields::wire_name(fs[j]) == fs[j].name);
    }
}

} // verus!
