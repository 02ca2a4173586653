//! The field classification engine.
//!
//! A resource description lists its fields with modifier flags; from them
//! this module derives the four coordinated shapes of a resource kind: the
//! full record, the get-filter parameters, the create payload and the
//! partial-update payload.

use vstd::prelude::*;
use vstd::string::*;

verus! {

broadcast use vstd::string::group_string_axioms;

/// The value type of a field, as a plain tag.
#[derive(Debug, Clone, Copy, PartialEq, Eq, Structural)]
pub enum FieldType {
    IntField,
    TextField,
    BoolField,
    JsonField,
    TimestampField,
    NestedField,
}

/// One field of a resource description, with its modifier flags.
#[derive(Debug, Clone)]
pub struct FieldDef {
    pub name: String,
    pub ty: FieldType,
    pub read_only: bool,
    pub post_only: bool,
    pub optional: bool,
    pub as_id: bool,
    pub rename: Option<String>,
}

/// The mathematical value of a field description.
pub ghost struct FieldModel {
    pub name: Seq<char>,
    pub ty: FieldType,
    pub read_only: bool,
    pub post_only: bool,
    pub optional: bool,
    pub as_id: bool,
    pub rename: Option<Seq<char>>,
}

impl View for FieldDef {
    type V = FieldModel;

    open spec fn view(&self) -> FieldModel {
        FieldModel {
            name: self.name@,
            ty: self.ty,
            read_only: self.read_only,
            post_only: self.post_only,
            optional: self.optional,
            as_id: self.as_id,
            rename: match self.rename {
                Some(r) => Some(r@),
                None => None,
            },
        }
    }
}

/// The views of a field list.
pub open spec fn field_models(v: Seq<FieldDef>) -> Seq<FieldModel> {
    v.map_values(|f: FieldDef| f@)
}

/// One field of a generated shape.
#[derive(Debug, Clone)]
pub struct ShapeField {
    pub name: String,
    pub ty: FieldType,
    pub optional: bool,
    pub display_name: String,
}

/// The mathematical value of a shape field.
pub ghost struct ShapeFieldModel {
    pub name: Seq<char>,
    pub ty: FieldType,
    pub optional: bool,
    pub display_name: Seq<char>,
}

impl View for ShapeField {
    type V = ShapeFieldModel;

    open spec fn view(&self) -> ShapeFieldModel {
        ShapeFieldModel {
            name: self.name@,
            ty: self.ty,
            optional: self.optional,
            display_name: self.display_name@,
        }
    }
}

/// The views of a shape field list.
pub open spec fn shape_models(v: Seq<ShapeField>) -> Seq<ShapeFieldModel> {
    v.map_values(|f: ShapeField| f@)
}

// --- the classification rules ------------------------------------------------

/// The serialization name of a field: foreign-key fields are renamed to
/// `<name>_id` wherever an integer identifier stands for the nested value.
pub open spec fn wire_name(f: FieldModel) -> Seq<char> {
    if f.as_id {
        f.name + "_id"@
    } else {
        f.name
    }
}

/// The column heading of a field in the full record: the display-name
/// override if one is given, else the field name.
pub open spec fn display_name_of(f: FieldModel) -> Seq<char> {
    match f.rename {
        Some(r) => r,
        None => f.name,
    }
}

/// A field may not be both read-only and post-only.
pub open spec fn field_ok(f: FieldModel) -> bool {
    !(f.read_only && f.post_only)
}

/// Every field of the description is legal.
pub open spec fn fields_ok(fs: Seq<FieldModel>) -> bool {
    forall|i: int| 0 <= i < fs.len() ==> field_ok(#[trigger] fs[i])
}

/// Whether a field contributes to the create payload.
pub open spec fn in_post(f: FieldModel) -> bool {
    f.post_only || !f.read_only
}

/// Whether a field contributes to the partial-update payload.
pub open spec fn in_patch(f: FieldModel) -> bool {
    !f.post_only && !f.read_only
}

pub open spec fn main_field(f: FieldModel) -> ShapeFieldModel {
    ShapeFieldModel {
        name: f.name,
        ty: f.ty,
        optional: f.optional,
        display_name: display_name_of(f),
    }
}

pub open spec fn get_field(f: FieldModel) -> ShapeFieldModel {
    ShapeFieldModel { name: wire_name(f), ty: f.ty, optional: true, display_name: f.name }
}

pub open spec fn post_field(f: FieldModel) -> ShapeFieldModel {
    ShapeFieldModel {
        name: wire_name(f),
        ty: if f.as_id && !f.post_only {
            FieldType::IntField
        } else {
            f.ty
        },
        optional: f.optional,
        display_name: f.name,
    }
}

pub open spec fn patch_field(f: FieldModel) -> ShapeFieldModel {
    ShapeFieldModel {
        name: wire_name(f),
        ty: if f.as_id {
            FieldType::IntField
        } else {
            f.ty
        },
        optional: true,
        display_name: f.name,
    }
}

/// The full record: every non-post-only field, under its own name.
pub open spec fn main_shape(fs: Seq<FieldModel>) -> Seq<ShapeFieldModel>
    decreases fs.len(),
{
    if fs.len() == 0 {
        Seq::empty()
    } else {
        let prefix = main_shape(fs.drop_last());
        if !fs.last().post_only {
            prefix.push(main_field(fs.last()))
        } else {
            prefix
        }
    }
}

/// The get-filter parameters: every non-post-only field, renamed to its
/// wire name and wrapped as optional.
pub open spec fn get_shape(fs: Seq<FieldModel>) -> Seq<ShapeFieldModel>
    decreases fs.len(),
{
    if fs.len() == 0 {
        Seq::empty()
    } else {
        let prefix = get_shape(fs.drop_last());
        if !fs.last().post_only {
            prefix.push(get_field(fs.last()))
        } else {
            prefix
        }
    }
}

/// The create payload: every field except read-only ones; optional fields
/// stay optional, foreign-key fields become an integer id.
pub open spec fn post_shape(fs: Seq<FieldModel>) -> Seq<ShapeFieldModel>
    decreases fs.len(),
{
    if fs.len() == 0 {
        Seq::empty()
    } else {
        let prefix = post_shape(fs.drop_last());
        if in_post(fs.last()) {
            prefix.push(post_field(fs.last()))
        } else {
            prefix
        }
    }
}

/// The partial-update payload: like the create payload but without
/// post-only fields, and with every field optional.
pub open spec fn patch_shape(fs: Seq<FieldModel>) -> Seq<ShapeFieldModel>
    decreases fs.len(),
{
    if fs.len() == 0 {
        Seq::empty()
    } else {
        let prefix = patch_shape(fs.drop_last());
        if in_patch(fs.last()) {
            prefix.push(patch_field(fs.last()))
        } else {
            prefix
        }
    }
}

// --- exec classification ------------------------------------------------------

/// The four generated shapes of one resource kind.
#[derive(Debug, Clone)]
pub struct ResourceShapes {
    pub main: Vec<ShapeField>,
    pub get: Vec<ShapeField>,
    pub post: Vec<ShapeField>,
    pub patch: Vec<ShapeField>,
}

/// The errors the generator can report, all at generation time.
#[derive(Debug, Clone, PartialEq)]
pub enum GenerateError {
    IllegalModifiers { field: String },
    BadResourceName { name: String },
    NoDisplayField,
}

fn wire_name_str(f: &FieldDef) -> (r: String)
    ensures
        r@ == wire_name(f@),
{
    if f.as_id {
        let mut n = f.name.clone();
        n.append("_id");
        proof {
            reveal_strlit("_id");
        }
        n
    } else {
        f.name.clone()
    }
}

fn display_name_str(f: &FieldDef) -> (r: String)
    ensures
        r@ == display_name_of(f@),
{
    match &f.rename {
        Some(r) => r.clone(),
        None => f.name.clone(),
    }
}

/// Partition a field list into the four shapes; a field that is both
/// read-only and post-only is an illegal combination and is reported, not
/// silently resolved.
pub fn classify_fields(fields: &Vec<FieldDef>) -> (r: Result<ResourceShapes, GenerateError>)
    ensures
        r is Ok <==> fields_ok(field_models(fields@)),
        r matches Ok(s) ==> shape_models(s.main@) == main_shape(field_models(fields@))
            && shape_models(s.get@) == get_shape(field_models(fields@)) && shape_models(s.post@)
            == post_shape(field_models(fields@)) && shape_models(s.patch@) == patch_shape(
            field_models(fields@),
        ),
        r matches Err(e) ==> (e matches GenerateError::IllegalModifiers { field } && exists|i: int|
            0 <= i < fields@.len() && !field_ok(#[trigger] field_models(fields@)[i])
                && field_models(fields@)[i].name == field@),
{
    let ghost models = field_models(fields@);
    let mut main: Vec<ShapeField> = Vec::new();
    let mut get: Vec<ShapeField> = Vec::new();
    let mut post: Vec<ShapeField> = Vec::new();
    let mut patch: Vec<ShapeField> = Vec::new();
    let mut i: usize = 0;
    proof {
        assert(models.take(0) =~= Seq::<FieldModel>::empty());
        assert(shape_models(main@) =~= Seq::<ShapeFieldModel>::empty());
        assert(shape_models(get@) =~= Seq::<ShapeFieldModel>::empty());
        assert(shape_models(post@) =~= Seq::<ShapeFieldModel>::empty());
        assert(shape_models(patch@) =~= Seq::<ShapeFieldModel>::empty());
    }
    while i < fields.len()
        invariant
            i <= fields@.len(),
            models == field_models(fields@),
            fields_ok(models.take(i as int)),
            shape_models(main@) == main_shape(models.take(i as int)),
            shape_models(get@) == get_shape(models.take(i as int)),
            shape_models(post@) == post_shape(models.take(i as int)),
            shape_models(patch@) == patch_shape(models.take(i as int)),
        decreases fields@.len() - i,
    {
        let f = &fields[i];
        proof {
            assert(models[i as int] == f@);
        }
        if f.read_only && f.post_only {
            return Err(GenerateError::IllegalModifiers { field: f.name.clone() });
        }
        let ghost prefix = models.take(i as int);
        let ghost prefix1 = models.take(i as int + 1);
        proof {
            assert(prefix1.drop_last() =~= prefix);
            assert(prefix1.last() == models[i as int]);
        }
        if !f.post_only {
            let ghost prev = shape_models(main@);
            main.push(
                ShapeField {
                    name: f.name.clone(),
                    ty: f.ty,
                    optional: f.optional,
                    display_name: display_name_str(f),
                },
            );
            proof {
                assert(shape_models(main@) =~= prev.push(main_field(f@)));
            }
            let ghost prevg = shape_models(get@);
            get.push(
                ShapeField {
                    name: wire_name_str(f),
                    ty: f.ty,
                    optional: true,
                    display_name: f.name.clone(),
                },
            );
            proof {
                assert(shape_models(get@) =~= prevg.push(get_field(f@)));
            }
        }
        if f.post_only || !f.read_only {
            let ghost prevp = shape_models(post@);
            let post_ty = if f.as_id && !f.post_only {
                FieldType::IntField
            } else {
                f.ty
            };
            post.push(
                ShapeField {
                    name: wire_name_str(f),
                    ty: post_ty,
                    optional: f.optional,
                    display_name: f.name.clone(),
                },
            );
            proof {
                assert(shape_models(post@) =~= prevp.push(post_field(f@)));
            }
        }
        if !f.post_only && !f.read_only {
            let ghost prevq = shape_models(patch@);
            let patch_ty = if f.as_id {
                FieldType::IntField
            } else {
                f.ty
            };
            patch.push(
                ShapeField {
                    name: wire_name_str(f),
                    ty: patch_ty,
                    optional: true,
                    display_name: f.name.clone(),
                },
            );
            proof {
                assert(shape_models(patch@) =~= prevq.push(patch_field(f@)));
            }
        }
        i += 1;
    }
    proof {
        assert(models.take(fields@.len() as int) =~= models);
    }
    Ok(ResourceShapes { main, get, post, patch })
}


// --- the shape partition laws -------------------------------------------------

/// Whether some field of the shape bears the name `n`.
pub open spec fn has_name(s: Seq<ShapeFieldModel>, n: Seq<char>) -> bool {
    exists|i: int| 0 <= i < s.len() && (#[trigger] s[i]).name == n
}

/// No two fields of the description collide on either their own names or
/// their wire names.  Struct fields are distinct by construction; this
/// also rules out a literal `x_id` field beside a foreign-key field `x`.
pub open spec fn names_distinct(fs: Seq<FieldModel>) -> bool {
    forall|i: int, j: int|
        0 <= i < fs.len() && 0 <= j < fs.len() && i != j ==> (#[trigger] fs[i]).name != (
        #[trigger] fs[j]).name && fs[i].name != wire_name(fs[j]) && wire_name(fs[i])
            != wire_name(fs[j])
}

/// A name occurs in the create payload exactly when some contributing
/// field carries it as its wire name.
proof fn lemma_post_shape_names(fs: Seq<FieldModel>, n: Seq<char>)
    ensures
        has_name(post_shape(fs), n) <==> exists|j: int|
            0 <= j < fs.len() && in_post(#[trigger] fs[j]) && wire_name(fs[j]) == n,
    decreases fs.len(),
{
    if fs.len() == 0 {
    } else {
        lemma_post_shape_names(fs.drop_last(), n);
        let l = fs.last();
        let prefix = post_shape(fs.drop_last());
        assert(forall|j: int| 0 <= j < fs.len() - 1 ==> fs.drop_last()[j] == fs[j]);
        if in_post(l) {
            let s = prefix.push(post_field(l));
            assert(forall|i: int| 0 <= i < prefix.len() ==> s[i] == prefix[i]);
            assert(s[s.len() - 1] == post_field(l));
            if has_name(s, n) {
                let i = choose|i: int| 0 <= i < s.len() && (#[trigger] s[i]).name == n;
                if i < prefix.len() {
                    assert(has_name(prefix, n));
                } else {
                    assert(wire_name(l) == n);
                    assert(in_post(fs[fs.len() - 1]) && wire_name(fs[fs.len() - 1]) == n);
                }
            }
            if exists|j: int| 0 <= j < fs.len() && in_post(#[trigger] fs[j]) && wire_name(fs[j]) == n {
                let j = choose|j: int|
                    0 <= j < fs.len() && in_post(#[trigger] fs[j]) && wire_name(fs[j]) == n;
                if j < fs.len() - 1 {
                    assert(has_name(prefix, n));
                    let i = choose|i: int| 0 <= i < prefix.len() && (#[trigger] prefix[i]).name == n;
                    assert(s[i].name == n);
                    assert(has_name(s, n));
                } else {
                    assert(s[s.len() - 1].name == n);
                    assert(has_name(s, n));
                }
            }
        } else {
            if has_name(prefix, n) {
                let i = choose|i: int| 0 <= i < prefix.len() && (#[trigger] prefix[i]).name == n;
            }
        }
    }
}

/// A name occurs in the partial-update payload exactly when some
/// contributing field carries it as its wire name.
proof fn lemma_patch_shape_names(fs: Seq<FieldModel>, n: Seq<char>)
    ensures
        has_name(patch_shape(fs), n) <==> exists|j: int|
            0 <= j < fs.len() && in_patch(#[trigger] fs[j]) && wire_name(fs[j]) == n,
    decreases fs.len(),
{
    if fs.len() == 0 {
    } else {
        lemma_patch_shape_names(fs.drop_last(), n);
        let l = fs.last();
        let prefix = patch_shape(fs.drop_last());
        assert(forall|j: int| 0 <= j < fs.len() - 1 ==> fs.drop_last()[j] == fs[j]);
        if in_patch(l) {
            let s = prefix.push(patch_field(l));
            assert(forall|i: int| 0 <= i < prefix.len() ==> s[i] == prefix[i]);
            assert(s[s.len() - 1] == patch_field(l));
            if has_name(s, n) {
                let i = choose|i: int| 0 <= i < s.len() && (#[trigger] s[i]).name == n;
                if i < prefix.len() {
                    assert(has_name(prefix, n));
                } else {
                    assert(in_patch(fs[fs.len() - 1]) && wire_name(fs[fs.len() - 1]) == n);
                }
            }
            if exists|j: int| 0 <= j < fs.len() && in_patch(#[trigger] fs[j]) && wire_name(fs[j]) == n {
                let j = choose|j: int|
                    0 <= j < fs.len() && in_patch(#[trigger] fs[j]) && wire_name(fs[j]) == n;
                if j < fs.len() - 1 {
                    assert(has_name(prefix, n));
                    let i = choose|i: int| 0 <= i < prefix.len() && (#[trigger] prefix[i]).name == n;
                    assert(s[i].name == n);
                    assert(has_name(s, n));
                } else {
                    assert(s[s.len() - 1].name == n);
                    assert(has_name(s, n));
                }
            }
        } else {
            if has_name(prefix, n) {
                let i = choose|i: int| 0 <= i < prefix.len() && (#[trigger] prefix[i]).name == n;
            }
        }
    }
}

/// A name occurs in the full record exactly when some non-post-only field
/// carries it as its own name.
proof fn lemma_main_shape_names(fs: Seq<FieldModel>, n: Seq<char>)
    ensures
        has_name(main_shape(fs), n) <==> exists|j: int|
            0 <= j < fs.len() && !(#[trigger] fs[j]).post_only && fs[j].name == n,
    decreases fs.len(),
{
    if fs.len() == 0 {
    } else {
        lemma_main_shape_names(fs.drop_last(), n);
        let l = fs.last();
        let prefix = main_shape(fs.drop_last());
        assert(forall|j: int| 0 <= j < fs.len() - 1 ==> fs.drop_last()[j] == fs[j]);
        if !l.post_only {
            let s = prefix.push(main_field(l));
            assert(forall|i: int| 0 <= i < prefix.len() ==> s[i] == prefix[i]);
            assert(s[s.len() - 1] == main_field(l));
            if has_name(s, n) {
                let i = choose|i: int| 0 <= i < s.len() && (#[trigger] s[i]).name == n;
                if i < prefix.len() {
                    assert(has_name(prefix, n));
                } else {
                    assert(!fs[fs.len() - 1].post_only && fs[fs.len() - 1].name == n);
                }
            }
            if exists|j: int| 0 <= j < fs.len() && !(#[trigger] fs[j]).post_only && fs[j].name == n {
                let j = choose|j: int|
                    0 <= j < fs.len() && !(#[trigger] fs[j]).post_only && fs[j].name == n;
                if j < fs.len() - 1 {
                    assert(has_name(prefix, n));
                    let i = choose|i: int| 0 <= i < prefix.len() && (#[trigger] prefix[i]).name == n;
                    assert(s[i].name == n);
                    assert(has_name(s, n));
                } else {
                    assert(s[s.len() - 1].name == n);
                    assert(has_name(s, n));
                }
            }
        } else {
            if has_name(prefix, n) {
                let i = choose|i: int| 0 <= i < prefix.len() && (#[trigger] prefix[i]).name == n;
            }
        }
    }
}

/// A name occurs in the get-filter shape exactly when some non-post-only
/// field carries it as its wire name.
proof fn lemma_get_shape_names(fs: Seq<FieldModel>, n: Seq<char>)
    ensures
        has_name(get_shape(fs), n) <==> exists|j: int|
            0 <= j < fs.len() && !(#[trigger] fs[j]).post_only && wire_name(fs[j]) == n,
    decreases fs.len(),
{
    if fs.len() == 0 {
    } else {
        lemma_get_shape_names(fs.drop_last(), n);
        let l = fs.last();
        let prefix = get_shape(fs.drop_last());
        assert(forall|j: int| 0 <= j < fs.len() - 1 ==> fs.drop_last()[j] == fs[j]);
        if !l.post_only {
            let s = prefix.push(get_field(l));
            assert(forall|i: int| 0 <= i < prefix.len() ==> s[i] == prefix[i]);
            assert(s[s.len() - 1] == get_field(l));
            if has_name(s, n) {
                let i = choose|i: int| 0 <= i < s.len() && (#[trigger] s[i]).name == n;
                if i < prefix.len() {
                    assert(has_name(prefix, n));
                } else {
                    assert(!fs[fs.len() - 1].post_only && wire_name(fs[fs.len() - 1]) == n);
                }
            }
            if exists|j: int| 0 <= j < fs.len() && !(#[trigger] fs[j]).post_only && wire_name(fs[j]) == n {
                let j = choose|j: int|
                    0 <= j < fs.len() && !(#[trigger] fs[j]).post_only && wire_name(fs[j]) == n;
                if j < fs.len() - 1 {
                    assert(has_name(prefix, n));
                    let i = choose|i: int| 0 <= i < prefix.len() && (#[trigger] prefix[i]).name == n;
                    assert(s[i].name == n);
                    assert(has_name(s, n));
                } else {
                    assert(s[s.len() - 1].name == n);
                    assert(has_name(s, n));
                }
            }
        } else {
            if has_name(prefix, n) {
                let i = choose|i: int| 0 <= i < prefix.len() && (#[trigger] prefix[i]).name == n;
            }
        }
    }
}

/// The shape partition law.  For every legal description whose names do
/// not collide: a read-only field is absent from the create and
/// partial-update payloads, under both its own and its wire name; a
/// post-only field appears in the create payload and in no other shape.
pub proof fn lemma_shape_partition(fs: Seq<FieldModel>, i: int)
    requires
        fields_ok(fs),
        names_distinct(fs),
        0 <= i < fs.len(),
    ensures
        fs[i].read_only ==> !has_name(post_shape(fs), wire_name(fs[i])) && !has_name(
            post_shape(fs),
            fs[i].name,
        ) && !has_name(patch_shape(fs), wire_name(fs[i])) && !has_name(
            patch_shape(fs),
            fs[i].name,
        ),
        fs[i].post_only ==> has_name(post_shape(fs), wire_name(fs[i])) && !has_name(
            main_shape(fs),
            fs[i].name,
        ) && !has_name(get_shape(fs), wire_name(fs[i])) && !has_name(
            patch_shape(fs),
            wire_name(fs[i]),
        ),
{
    let f = fs[i];
    if f.read_only {
        assert(!f.post_only);
        assert(!in_post(f) && !in_patch(f));
        lemma_post_shape_names(fs, wire_name(f));
        lemma_post_shape_names(fs, f.name);
        lemma_patch_shape_names(fs, wire_name(f));
        lemma_patch_shape_names(fs, f.name);
        if has_name(post_shape(fs), wire_name(f)) {
            let j = choose|j: int|
                0 <= j < fs.len() && in_post(#[trigger] fs[j]) && wire_name(fs[j]) == wire_name(f);
            assert(j != i);
            assert(false);
        }
        if has_name(post_shape(fs), f.name) {
            let j = choose|j: int|
                0 <= j < fs.len() && in_post(#[trigger] fs[j]) && wire_name(fs[j]) == f.name;
            assert(j != i);
            assert(false);
        }
        if has_name(patch_shape(fs), wire_name(f)) {
            let j = choose|j: int|
                0 <= j < fs.len() && in_patch(#[trigger] fs[j]) && wire_name(fs[j]) == wire_name(f);
            assert(j != i);
            assert(false);
        }
        if has_name(patch_shape(fs), f.name) {
            let j = choose|j: int|
                0 <= j < fs.len() && in_patch(#[trigger] fs[j]) && wire_name(fs[j]) == f.name;
            assert(j != i);
            assert(false);
        }
    }
    if f.post_only {
        assert(in_post(f));
        lemma_post_shape_names(fs, wire_name(f));
        assert(has_name(post_shape(fs), wire_name(f)));
        lemma_main_shape_names(fs, f.name);
        if has_name(main_shape(fs), f.name) {
            let j = choose|j: int|
                0 <= j < fs.len() && !(#[trigger] fs[j]).post_only && fs[j].name == f.name;
            assert(j != i);
            assert(false);
        }
        lemma_get_shape_names(fs, wire_name(f));
        if has_name(get_shape(fs), wire_name(f)) {
            let j = choose|j: int|
                0 <= j < fs.len() && !(#[trigger] fs[j]).post_only && wire_name(fs[j]) == wire_name(
                    f,
                );
            assert(j != i);
            assert(false);
        }
        lemma_patch_shape_names(fs, wire_name(f));
        if has_name(patch_shape(fs), wire_name(f)) {
            let j = choose|j: int|
                0 <= j < fs.len() && in_patch(#[trigger] fs[j]) && wire_name(fs[j]) == wire_name(f);
            assert(j != i);
            assert(false);
        }
    }
}


// --- the resource type generator ---------------------------------------------

/// A developer-authored resource description: the annotated type name and
/// its field list.
#[derive(Debug, Clone)]
pub struct ResourceDef {
    pub name: String,
    pub fields: Vec<FieldDef>,
}

/// Everything generated for one resource kind: its base name, the
/// pluralized endpoint key it wires to, the display field, and the four
/// shapes.
#[derive(Debug, Clone)]
pub struct GeneratedResource {
    pub base_name: String,
    pub endpoint_key: String,
    pub display_field: String,
    pub shapes: ResourceShapes,
}

/// The naming convention: descriptions are named `<Base>Resource` with a
/// non-empty base.
pub open spec fn resource_name_ok(n: Seq<char>) -> bool {
    crate::text::is_suffix(n, "Resource"@) && n.len() > "Resource"@.len()
}

/// The base name of a description that follows the convention.
pub open spec fn base_of(n: Seq<char>) -> Seq<char> {
    n.subrange(0, n.len() - "Resource"@.len())
}

/// The two-case pluralization heuristic: append `es` after a trailing
/// `s`, else `s`.  No irregular forms are handled.
pub open spec fn pluralize_spec(name: Seq<char>) -> Seq<char> {
    if name.len() > 0 && name[name.len() - 1] == 's' {
        name + "es"@
    } else {
        name + "s"@
    }
}

/// Exec pluralization.
pub fn pluralize(name: &str) -> (r: String)
    ensures
        r@ == pluralize_spec(name@),
{
    let mut s = String::from_str(name);
    if crate::text::ends_with_char(name, 's') {
        s.append("es");
    } else {
        s.append("s");
    }
    s
}

/// Whether some field of the description bears the name `n`.
pub open spec fn has_field_named(fs: Seq<FieldModel>, n: Seq<char>) -> bool {
    exists|i: int| 0 <= i < fs.len() && (#[trigger] fs[i]).name == n
}

/// The display field: the first of `name`, `user`, `username`, `id`
/// present among the description's field names.
pub open spec fn display_pick(fs: Seq<FieldModel>) -> Option<Seq<char>> {
    if has_field_named(fs, "name"@) {
        Some("name"@)
    } else if has_field_named(fs, "user"@) {
        Some("user"@)
    } else if has_field_named(fs, "username"@) {
        Some("username"@)
    } else if has_field_named(fs, "id"@) {
        Some("id"@)
    } else {
        None
    }
}

fn has_field(fields: &Vec<FieldDef>, n: &str) -> (r: bool)
    ensures
        r == has_field_named(field_models(fields@), n@),
{
    let mut i: usize = 0;
    while i < fields.len()
        invariant
            i <= fields@.len(),
            forall|j: int| 0 <= j < i ==> field_models(fields@)[j].name != n@,
        decreases fields@.len() - i,
    {
        if crate::text::str_eq(fields[i].name.as_str(), n) {
            proof {
                assert(field_models(fields@)[i as int].name == n@);
            }
            return true;
        }
        i += 1;
    }
    false
}

fn pick_display_field(fields: &Vec<FieldDef>) -> (r: Option<String>)
    ensures
        match r {
            Some(s) => display_pick(field_models(fields@)) == Some(s@),
            None => display_pick(field_models(fields@)) is None,
        },
{
    if has_field(fields, "name") {
        Some(String::from_str("name"))
    } else if has_field(fields, "user") {
        Some(String::from_str("user"))
    } else if has_field(fields, "username") {
        Some(String::from_str("username"))
    } else if has_field(fields, "id") {
        Some(String::from_str("id"))
    } else {
        None
    }
}

/// Whether a whole description is accepted by the generator.
pub open spec fn generate_ok(name: Seq<char>, fs: Seq<FieldModel>) -> bool {
    resource_name_ok(name) && display_pick(fs) is Some && fields_ok(fs)
}

/// Generate the four shapes and the wiring facts for one resource
/// description; any violation of the conventions fails fast.
pub fn generate(def: &ResourceDef) -> (r: Result<GeneratedResource, GenerateError>)
    ensures
        r is Ok <==> generate_ok(def.name@, field_models(def.fields@)),
        r matches Ok(g) ==> g.base_name@ == base_of(def.name@) && g.endpoint_key@
            == pluralize_spec(base_of(def.name@)) && display_pick(field_models(def.fields@))
            == Some(g.display_field@) && shape_models(g.shapes.main@) == main_shape(
            field_models(def.fields@),
        ) && shape_models(g.shapes.get@) == get_shape(field_models(def.fields@))
            && shape_models(g.shapes.post@) == post_shape(field_models(def.fields@))
            && shape_models(g.shapes.patch@) == patch_shape(field_models(def.fields@)),
        !resource_name_ok(def.name@) ==> (r matches Err(e)
            && e matches GenerateError::BadResourceName { name } && name@ == def.name@),
        resource_name_ok(def.name@) && display_pick(field_models(def.fields@)) is None ==> r
            == Err::<GeneratedResource, GenerateError>(GenerateError::NoDisplayField),
        resource_name_ok(def.name@) && display_pick(field_models(def.fields@)) is Some
            && !fields_ok(field_models(def.fields@)) ==> (r matches Err(e)
            && e matches GenerateError::IllegalModifiers { .. }),
{
    proof {
        reveal_strlit("Resource");
    }
    let n = def.name.unicode_len();
    if !crate::text::ends_with_str(def.name.as_str(), "Resource") || n <= 8 {
        return Err(GenerateError::BadResourceName { name: def.name.clone() });
    }
    let base_slice = def.name.as_str().substring_char(0, n - 8);
    let base = String::from_str(base_slice);
    let key = pluralize(base.as_str());
    let display = match pick_display_field(&def.fields) {
        Some(d) => d,
        None => {
            return Err(GenerateError::NoDisplayField);
        },
    };
    let shapes = match classify_fields(&def.fields) {
        Ok(s) => s,
        Err(e) => {
            return Err(e);
        },
    };
    Ok(GeneratedResource { base_name: base, endpoint_key: key, display_field: display, shapes })
}

} // verus!
