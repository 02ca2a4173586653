use hubuum_client::fields::{
    classify_fields, generate, FieldDef, FieldType, GenerateError, ResourceDef, ShapeField,
};
use hubuum_client::resources::{
    class_descriptor, group_descriptor, namespace_descriptor, object_descriptor, user_descriptor,
};

fn names(shape: &[ShapeField]) -> Vec<&str> {
    shape.iter().map(|f| f.name.as_str()).collect()
}

#[test]
fn user_shapes_partition_the_fields() {
    let shapes = classify_fields(&user_descriptor().fields).unwrap();
    assert_eq!(names(&shapes.main), ["id", "username", "email", "created_at", "updated_at"]);
    assert_eq!(names(&shapes.get), ["id", "username", "email", "created_at", "updated_at"]);
    assert_eq!(names(&shapes.post), ["username", "password", "email"]);
    assert_eq!(names(&shapes.patch), ["username", "email"]);
}

#[test]
fn class_shapes_rename_the_foreign_key() {
    let shapes = classify_fields(&class_descriptor().fields).unwrap();
    assert_eq!(
        names(&shapes.main),
        ["id", "name", "description", "namespace", "json_schema", "validate_schema",
            "created_at", "updated_at"],
    );
    assert_eq!(
        names(&shapes.get),
        ["id", "name", "description", "namespace_id", "json_schema", "validate_schema",
            "created_at", "updated_at"],
    );
    assert_eq!(
        names(&shapes.post),
        ["name", "description", "namespace_id", "json_schema", "validate_schema"],
    );
    assert_eq!(
        names(&shapes.patch),
        ["name", "description", "namespace_id", "json_schema", "validate_schema"],
    );
    let ns_post = &shapes.post[2];
    assert_eq!(ns_post.ty, FieldType::IntField);
    assert!(!ns_post.optional);
    let ns_patch = &shapes.patch[2];
    assert_eq!(ns_patch.ty, FieldType::IntField);
    assert!(ns_patch.optional);
}

#[test]
fn namespace_post_only_group_appears_only_in_post() {
    let shapes = classify_fields(&namespace_descriptor().fields).unwrap();
    assert!(!names(&shapes.main).contains(&"group_id"));
    assert!(!names(&shapes.get).contains(&"group_id"));
    assert!(names(&shapes.post).contains(&"group_id"));
    assert!(!names(&shapes.patch).contains(&"group_id"));
}

#[test]
fn read_only_fields_never_reach_post_or_patch() {
    for descriptor in [
        user_descriptor(),
        group_descriptor(),
        namespace_descriptor(),
        class_descriptor(),
        object_descriptor(),
    ] {
        let shapes = classify_fields(&descriptor.fields).unwrap();
        for field in descriptor.fields.iter().filter(|f| f.read_only) {
            assert!(!names(&shapes.post).contains(&field.name.as_str()));
            assert!(!names(&shapes.patch).contains(&field.name.as_str()));
        }
    }
}

#[test]
fn get_shape_is_all_optional() {
    let shapes = classify_fields(&object_descriptor().fields).unwrap();
    assert!(shapes.get.iter().all(|f| f.optional));
    assert!(shapes.patch.iter().all(|f| f.optional));
}

#[test]
fn display_renames_apply_to_the_full_record_only() {
    let shapes = classify_fields(&group_descriptor().fields).unwrap();
    assert_eq!(shapes.main[1].display_name, "Name");
    assert_eq!(shapes.get[1].display_name, "groupname");
}

#[test]
fn read_only_and_post_only_together_is_an_error() {
    let fields = vec![FieldDef {
        name: "secret".to_string(),
        ty: FieldType::TextField,
        read_only: true,
        post_only: true,
        optional: false,
        as_id: false,
        rename: None,
    }];
    match classify_fields(&fields) {
        Err(GenerateError::IllegalModifiers { field }) => assert_eq!(field, "secret"),
        other => panic!("expected the illegal-modifier error, got {:?}", other),
    }
}

#[test]
fn generate_wires_the_class_kind() {
    let g = generate(&class_descriptor()).unwrap();
    assert_eq!(g.base_name, "Class");
    assert_eq!(g.endpoint_key, "Classes");
    assert_eq!(g.display_field, "name");
}

#[test]
fn generate_pluralizes_with_the_two_case_rule() {
    let g = generate(&user_descriptor()).unwrap();
    assert_eq!(g.endpoint_key, "Users");
    let g = generate(&class_descriptor()).unwrap();
    assert_eq!(g.endpoint_key, "Classes");
}

#[test]
fn generate_prefers_username_without_name() {
    let g = generate(&user_descriptor()).unwrap();
    assert_eq!(g.display_field, "username");
}

#[test]
fn generate_rejects_names_without_the_suffix() {
    let def = ResourceDef { name: "Widget".to_string(), fields: user_descriptor().fields };
    match generate(&def) {
        Err(GenerateError::BadResourceName { name }) => assert_eq!(name, "Widget"),
        other => panic!("expected the bad-name error, got {:?}", other),
    }
}

#[test]
fn generate_rejects_an_empty_base_name() {
    let def = ResourceDef { name: "Resource".to_string(), fields: user_descriptor().fields };
    assert!(matches!(generate(&def), Err(GenerateError::BadResourceName { .. })));
}

#[test]
fn generate_requires_a_display_field() {
    let def = ResourceDef {
        name: "ThingResource".to_string(),
        fields: vec![FieldDef {
            name: "label".to_string(),
            ty: FieldType::TextField,
            read_only: false,
            post_only: false,
            optional: false,
            as_id: false,
            rename: None,
        }],
    };
    assert!(matches!(generate(&def), Err(GenerateError::NoDisplayField)));
}
