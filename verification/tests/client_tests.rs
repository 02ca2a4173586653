use hubuum_client::client::{
    extract_error_message, get_outcome, is_success, list_outcome, one_or_err, patch_outcome,
    post_outcome, response_verdict, search_outcome, select_wrap, wrap_handles, Authenticated,
    Client, HttpMethod, ResponseVerdict, Unauthenticated,
};
use hubuum_client::endpoints::Endpoint;
use hubuum_client::{ApiError, BaseUrl, FilterOperator, Handle, QueryFilter, Token};
use hubuum_client::resources::{Class, Group, Namespace, User};

fn authenticated() -> Client<Authenticated> {
    let base = BaseUrl::parse("https://api.example.com").unwrap();
    let client: Client<Unauthenticated> = Client::new(base);
    client.authenticate(Token { token: "SECRET-REDACTED".to_string() })
}

#[test]
fn endpoint_paths_are_fixed() {
    assert_eq!(Endpoint::Login.path(), "/api/v0/auth/login");
    assert_eq!(Endpoint::Users.path(), "/api/v1/iam/users/");
    assert_eq!(Endpoint::Classes.path(), "/api/v1/classes/");
    assert_eq!(Endpoint::Login.trim_start_matches('/'), "api/v0/auth/login");
}

#[test]
fn endpoint_complete_joins_base_and_path() {
    let base = BaseUrl::parse("https://foo.bar.com").unwrap();
    assert_eq!(
        Endpoint::LoginWithToken.complete(&base),
        "https://foo.bar.com/api/v0/auth/validate"
    );
}

#[test]
fn build_url_substitutes_placeholders() {
    let client = authenticated();
    let params = vec![
        ("group_id".to_string(), "9".to_string()),
        ("user_id".to_string(), "4".to_string()),
    ];
    let url = client.build_url(&Endpoint::GroupMembersAddRemove, &params);
    assert_eq!(url, "https://api.example.com/api/v1/iam/groups/9/members/4");
}

#[test]
fn login_plan_posts_to_the_login_endpoint() {
    let base = BaseUrl::parse("https://api.example.com").unwrap();
    let client: Client<Unauthenticated> = Client::new(base);
    let plan = client.login_plan();
    assert_eq!(plan.method, HttpMethod::Post);
    assert_eq!(plan.url, "https://api.example.com/api/v0/auth/login");
    assert!(plan.bearer.is_none());
    assert!(plan.send_json_body);
}

#[test]
fn token_validation_carries_the_token() {
    let base = BaseUrl::parse("https://api.example.com").unwrap();
    let client: Client<Unauthenticated> = Client::new(base);
    let plan = client.login_with_token_plan(&Token { token: "t0".to_string() });
    assert_eq!(plan.method, HttpMethod::Get);
    assert_eq!(plan.url, "https://api.example.com/api/v0/auth/validate");
    assert_eq!(plan.bearer.as_deref(), Some("t0"));
}

#[test]
fn token_validation_success_authenticates() {
    let base = BaseUrl::parse("https://api.example.com").unwrap();
    let client: Client<Unauthenticated> = Client::new(base);
    let auth = client
        .login_with_token_outcome(Token { token: "t0".to_string() }, 200)
        .unwrap();
    assert_eq!(auth.get_token(), "t0");
}

#[test]
fn token_rejection_is_distinct_from_transport_failure() {
    let base = BaseUrl::parse("https://api.example.com").unwrap();
    let client: Client<Unauthenticated> = Client::new(base);
    let err = client
        .login_with_token_outcome(Token { token: "t0".to_string() }, 401)
        .unwrap_err();
    assert_eq!(err, ApiError::InvalidToken);
}

#[test]
fn login_decide_requires_a_decoded_token() {
    let base = BaseUrl::parse("https://api.example.com").unwrap();
    let client: Client<Unauthenticated> = Client::new(base);
    let err = client
        .login_decide(ResponseVerdict::Payload("not json".to_string()), None)
        .unwrap_err();
    assert_eq!(err, ApiError::DeserializationError("not json".to_string()));
}

#[test]
fn login_decide_issues_the_token() {
    let base = BaseUrl::parse("https://api.example.com").unwrap();
    let client: Client<Unauthenticated> = Client::new(base);
    let auth = client
        .login_decide(
            ResponseVerdict::Payload("{\"token\":\"abc\"}".to_string()),
            Some(Token { token: "abc".to_string() }),
        )
        .unwrap();
    assert_eq!(auth.get_token(), "abc");
}

#[test]
fn find_builds_the_expected_search_request() {
    let client = authenticated();
    let plan = client
        .classes()
        .find()
        .add_filter("name", FilterOperator::Equals { is_negated: false }, "Servers")
        .search_plan();
    assert_eq!(plan.method, HttpMethod::Get);
    assert_eq!(
        plan.url,
        "https://api.example.com/api/v1/classes/?name__equals=Servers"
    );
    assert_eq!(plan.bearer.as_deref(), Some("SECRET-REDACTED"));
    assert!(!plan.send_json_body);
}

#[test]
fn successful_search_hands_the_body_on() {
    let body = "[{\"id\":1,\"name\":\"Servers\"}]";
    match response_verdict(&HttpMethod::Get, 200, body) {
        ResponseVerdict::Payload(b) => assert_eq!(b, body),
        other => panic!("expected the payload, got {:?}", other),
    }
}

#[test]
fn search_without_filters_has_no_query_string() {
    let client = authenticated();
    let plan = client.classes().find().search_plan();
    assert_eq!(plan.url, "https://api.example.com/api/v1/classes/");
}

#[test]
fn name_lookup_uses_the_kind_name_field() {
    let client = authenticated();
    let plan = client.groups().find().add_filter_name_exact("admins").search_plan();
    assert_eq!(
        plan.url,
        "https://api.example.com/api/v1/iam/groups/?groupname__equals=admins"
    );
}

#[test]
fn patch_without_identifier_fails_before_any_request() {
    let client = authenticated();
    let err = client
        .plan_request(HttpMethod::Patch, &Endpoint::Classes, &vec![], &vec![])
        .unwrap_err();
    assert_eq!(err, ApiError::MissingUrlIdentifier);
}

#[test]
fn update_plan_appends_the_identifier() {
    let client = authenticated();
    let plan = client.classes().update_plan(42);
    assert_eq!(plan.method, HttpMethod::Patch);
    assert_eq!(plan.url, "https://api.example.com/api/v1/classes/42");
    assert!(plan.send_json_body);
}

#[test]
fn delete_plan_appends_the_identifier() {
    let client = authenticated();
    let plan = client.classes().delete_plan(7);
    assert_eq!(plan.method, HttpMethod::Delete);
    assert_eq!(plan.url, "https://api.example.com/api/v1/classes/7");
    assert!(!plan.send_json_body);
}

#[test]
fn delete_with_a_body_is_a_contract_violation() {
    match response_verdict(&HttpMethod::Delete, 200, "{\"oops\":1}") {
        ResponseVerdict::Failed(ApiError::DeserializationError(raw)) => {
            assert_eq!(raw, "{\"oops\":1}")
        }
        other => panic!("expected the contract violation, got {:?}", other),
    }
}

#[test]
fn delete_with_an_empty_body_succeeds() {
    assert!(matches!(
        response_verdict(&HttpMethod::Delete, 200, ""),
        ResponseVerdict::Empty
    ));
}

#[test]
fn no_content_yields_no_value() {
    assert!(matches!(
        response_verdict(&HttpMethod::Get, 204, ""),
        ResponseVerdict::Empty
    ));
}

#[test]
fn failed_status_extracts_the_json_message() {
    match response_verdict(&HttpMethod::Get, 404, "{\"message\":\"no such class\"}") {
        ResponseVerdict::Failed(ApiError::HttpWithBody { status, message }) => {
            assert_eq!(status, 404);
            assert_eq!(message, "no such class");
        }
        other => panic!("expected the HTTP failure, got {:?}", other),
    }
}

#[test]
fn message_extraction_falls_back_sensibly() {
    assert_eq!(extract_error_message("{\"message\":\"boom\"}"), "boom");
    assert_eq!(extract_error_message("{\"detail\":\"x\"}"), "Error without message.");
    assert_eq!(extract_error_message("plain text"), "plain text");
}

#[test]
fn unsupported_verbs_are_refused() {
    let client = authenticated();
    let err = client
        .plan_request(HttpMethod::Put, &Endpoint::Classes, &vec![], &vec![])
        .unwrap_err();
    assert_eq!(err, ApiError::UnsupportedHttpOperation("PUT".to_string()));
}

#[test]
fn one_or_err_unwraps_a_single_element() {
    assert_eq!(one_or_err(vec![5], "Class").unwrap(), 5);
}

#[test]
fn one_or_err_reports_not_found_on_empty() {
    let err = one_or_err(Vec::<i32>::new(), "Class").unwrap_err();
    assert_eq!(err, ApiError::EmptyResult("Class not found".to_string()));
}

#[test]
fn one_or_err_reports_the_count_on_too_many() {
    let err = one_or_err(vec![1, 2, 3], "Class").unwrap_err();
    assert_eq!(
        err,
        ApiError::TooManyResults { kind: "Class".to_string(), count: 3 }
    );
}

#[test]
fn select_plan_filters_on_the_identifier() {
    let client = authenticated();
    let plan = client.classes().select_plan(5);
    assert_eq!(plan.url, "https://api.example.com/api/v1/classes/?id__equals=5");
}

#[test]
fn select_by_name_plan_filters_on_the_name_field() {
    let client = authenticated();
    let plan = client.groups().select_by_name_plan("ops");
    assert_eq!(
        plan.url,
        "https://api.example.com/api/v1/iam/groups/?groupname__equals=ops"
    );
}

#[test]
fn select_wrap_builds_a_handle_on_exactly_one() {
    let client = authenticated();
    let group = Group { id: 9, ..Default::default() };
    let handle = select_wrap(client, vec![group], "Group").unwrap();
    assert_eq!(handle.id(), 9);
}

#[test]
fn group_membership_plans_are_scoped_to_the_group() {
    let client = authenticated();
    let group = Group { id: 9, ..Default::default() };
    let handle = Handle::new(client, group);
    let add = handle.add_user_plan(4);
    assert_eq!(add.method, HttpMethod::Post);
    assert_eq!(add.url, "https://api.example.com/api/v1/iam/groups/9/members/4");
    let remove = handle.remove_user_plan(4);
    assert_eq!(remove.method, HttpMethod::Delete);
    assert_eq!(remove.url, "https://api.example.com/api/v1/iam/groups/9/members/4");
    let members = handle.members_plan();
    assert_eq!(members.method, HttpMethod::Get);
    assert_eq!(members.url, "https://api.example.com/api/v1/iam/groups/9/members");
}

#[test]
fn namespace_permissions_plan_is_scoped_to_the_namespace() {
    let client = authenticated();
    let ns = Namespace { id: 3, ..Default::default() };
    let handle = Handle::new(client, ns);
    let plan = handle.permissions_plan();
    assert_eq!(
        plan.url,
        "https://api.example.com/api/v1/namespaces/3/permissions"
    );
}

#[test]
fn class_objects_plan_is_scoped_to_the_class() {
    let client = authenticated();
    let class = Class { id: 12, ..Default::default() };
    let handle = Handle::new(client, class);
    let plan = handle.objects_plan();
    assert_eq!(plan.url, "https://api.example.com/api/v1/classes/12/");
    let by_name = handle.object_by_name_plan("web01");
    assert_eq!(
        by_name.url,
        "https://api.example.com/api/v1/classes/12/?name__equals=web01"
    );
}

#[test]
fn status_classification_matches_the_success_range() {
    assert!(is_success(200));
    assert!(is_success(299));
    assert!(!is_success(199));
    assert!(!is_success(300));
    assert!(!is_success(404));
}

#[test]
fn negative_identifiers_render_with_a_sign() {
    assert_eq!(hubuum_client::text::i32_to_dec(-3), "-3");
    assert_eq!(hubuum_client::text::i32_to_dec(0), "0");
    assert_eq!(hubuum_client::text::i32_to_dec(i32::MIN), "-2147483648");
}

#[test]
fn single_matching_record_becomes_a_class() {
    // The transport decodes a successful search body and wraps the single
    // match; this follows the same steps on a canned response.
    let body = "[{\"id\":1,\"name\":\"Servers\",\"description\":\"rack\",\
                \"namespace\":{\"id\":2,\"name\":\"infra\",\"description\":\"\",\
                \"created_at\":\"2024-01-01T00:00:00\",\"updated_at\":\"2024-01-01T00:00:00\"},\
                \"json_schema\":null,\"validate_schema\":null,\
                \"created_at\":\"2024-01-01T00:00:00\",\"updated_at\":\"2024-01-02T00:00:00\"}]";
    let rows: Vec<serde_json::Value> = match response_verdict(&HttpMethod::Get, 200, body) {
        ResponseVerdict::Payload(b) => serde_json::from_str(&b).unwrap(),
        other => panic!("expected the payload, got {:?}", other),
    };
    let classes: Vec<Class> = rows
        .iter()
        .map(|v| Class {
            id: v["id"].as_i64().unwrap() as i32,
            name: v["name"].as_str().unwrap().to_string(),
            description: v["description"].as_str().unwrap().to_string(),
            namespace: Namespace {
                id: v["namespace"]["id"].as_i64().unwrap() as i32,
                name: v["namespace"]["name"].as_str().unwrap().to_string(),
                ..Default::default()
            },
            json_schema: None,
            validate_schema: None,
            created_at: v["created_at"].as_str().unwrap().to_string(),
            updated_at: v["updated_at"].as_str().unwrap().to_string(),
        })
        .collect();
    let client = authenticated();
    let handle = select_wrap(client, classes, "Class").unwrap();
    assert_eq!(handle.id(), 1);
    assert_eq!(handle.resource().name, "Servers");
    assert_eq!(handle.resource().namespace.name, "infra");
}

#[test]
fn class_handle_delete_targets_its_identifier() {
    let client = authenticated();
    let class = Class { id: 12, ..Default::default() };
    let handle = Handle::new(client, class);
    let plan = handle.delete_plan();
    assert_eq!(plan.method, HttpMethod::Delete);
    assert_eq!(plan.url, "https://api.example.com/api/v1/classes/12");
    assert!(!plan.send_json_body);
}

#[test]
fn empty_success_wording_is_per_verb() {
    assert_eq!(
        get_outcome(ResponseVerdict::Empty).unwrap_err(),
        ApiError::EmptyResult("GET returned empty result".to_string())
    );
    assert_eq!(
        search_outcome(ResponseVerdict::Empty).unwrap_err(),
        ApiError::EmptyResult("SEARCH returned empty result".to_string())
    );
    assert_eq!(
        post_outcome(ResponseVerdict::Empty).unwrap_err(),
        ApiError::EmptyResult("POST returned empty result".to_string())
    );
    assert_eq!(
        patch_outcome(ResponseVerdict::Empty).unwrap_err(),
        ApiError::EmptyResult("PATCH returned empty result".to_string())
    );
    assert_eq!(list_outcome(ResponseVerdict::Empty).unwrap(), None);
}

#[test]
fn outcomes_hand_payloads_on_and_propagate_failures() {
    assert_eq!(get_outcome(ResponseVerdict::Payload("[1]".to_string())).unwrap(), "[1]");
    assert_eq!(
        list_outcome(ResponseVerdict::Payload("[1]".to_string())).unwrap(),
        Some("[1]".to_string())
    );
    let err = search_outcome(ResponseVerdict::Failed(ApiError::InvalidToken)).unwrap_err();
    assert_eq!(err, ApiError::InvalidToken);
}

#[test]
fn wrap_handles_binds_every_record_in_order() {
    let client = authenticated();
    let users = vec![
        User { id: 1, username: "a".to_string(), ..Default::default() },
        User { id: 2, username: "b".to_string(), ..Default::default() },
    ];
    let handles = wrap_handles(&client, users);
    assert_eq!(handles.len(), 2);
    assert_eq!(handles[0].id(), 1);
    assert_eq!(handles[1].id(), 2);
    assert_eq!(handles[1].resource().username, "b");
    assert_eq!(handles[0].client().get_token(), "SECRET-REDACTED");
}
