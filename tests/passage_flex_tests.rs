use passage_flex::auth::Auth;
use passage_flex::error::{classify, ErrorCode, ErrorDocument};
use passage_flex::json::string_object;
use passage_flex::models::{
    GoogleUserSocialConnection, Technologies, UserEventStatus, UserMetadataFieldType,
    UserRecentEvent,
};
use passage_flex::passage_flex::SERVER_URL;
use passage_flex::request::{ApiRequest, Configuration, Method};
use passage_flex::resolve::resolve_user_id;
use passage_flex::response::{interpret, is_success_status};
use passage_flex::user::User;
use passage_flex::{Error, PassageFlex};

fn setup_passage_flex() -> (String, PassageFlex) {
    let app_id = "test_app_id".to_string();
    let mut passage = PassageFlex::new(app_id.clone(), "test_api_key".to_string());
    passage.set_server_url("http://127.0.0.1:1234".to_string());
    (app_id, passage)
}

fn document(error: &str, code: &str) -> Option<ErrorDocument> {
    Some(ErrorDocument { error: error.to_string(), code: code.to_string() })
}

fn path_of(r: &ApiRequest) -> Vec<&str> {
    r.path.iter().map(|s| s.as_str()).collect()
}

fn ids(v: &[&str]) -> Result<Vec<String>, Error> {
    Ok(v.iter().map(|s| s.to_string()).collect())
}

#[test]
fn test_passage_flex_constructor() {
    let passage = PassageFlex::new("test_app_id".to_string(), "test_api_key".to_string());
    assert_eq!(passage.app_id, "test_app_id");
    assert_eq!(SERVER_URL, "https://api.passage.id");
    assert_eq!(passage.auth.configuration.base_path, "https://api.passage.id/v1/apps/test_app_id");
    assert_eq!(passage.user.configuration.base_path, "https://api.passage.id/v1/apps/test_app_id");
    assert_eq!(passage.auth.configuration.bearer_access_token.as_deref(), Some("test_api_key"));
    assert_eq!(passage.user.configuration.bearer_access_token.as_deref(), Some("test_api_key"));
}

#[test]
fn set_server_url_rebinds_both_groups() {
    let (_, passage) = setup_passage_flex();
    assert_eq!(passage.auth.configuration.base_path, "http://127.0.0.1:1234/v1/apps/test_app_id");
    assert_eq!(passage.user.configuration.base_path, "http://127.0.0.1:1234/v1/apps/test_app_id");
    assert_eq!(passage.user.configuration.bearer_access_token.as_deref(), Some("test_api_key"));
}

#[test]
fn test_create_register_transaction() {
    let (_, passage_flex) = setup_passage_flex();
    let request = passage_flex
        .auth
        .create_register_transaction_request("test".to_string(), "test".to_string());
    assert_eq!(request.method, Method::Post);
    assert_eq!(request.base_path, "http://127.0.0.1:1234/v1/apps/test_app_id");
    assert_eq!(path_of(&request), vec!["transactions", "register"]);
    assert!(request.query.is_empty());
    assert_eq!(
        request.body.as_deref(),
        Some(r#"{"external_id":"test","passkey_display_name":"test"}"#)
    );
    assert_eq!(request.bearer_access_token.as_deref(), Some("test_api_key"));
    let transaction_id = interpret(
        200,
        r#"{"transaction_id": "test_transaction_id"}"#.to_string(),
        Ok("test_transaction_id".to_string()),
        None,
    )
    .unwrap();
    assert_eq!(transaction_id, "test_transaction_id");
}

#[test]
fn register_body_is_exact() {
    let (_, passage_flex) = setup_passage_flex();
    let request = passage_flex
        .auth
        .create_register_transaction_request("ext1".to_string(), "label".to_string());
    assert_eq!(
        request.body.as_deref(),
        Some(r#"{"external_id":"ext1","passkey_display_name":"label"}"#)
    );
    let transaction_id = interpret(
        200,
        r#"{"transaction_id": "tx1"}"#.to_string(),
        Ok("tx1".to_string()),
        None,
    );
    assert_eq!(transaction_id.unwrap(), "tx1");
}

#[test]
fn test_create_authenticate_transaction() {
    let (_, passage_flex) = setup_passage_flex();
    let request = passage_flex
        .auth
        .create_authenticate_transaction_request("test".to_string());
    assert_eq!(request.method, Method::Post);
    assert_eq!(path_of(&request), vec!["transactions", "authenticate"]);
    assert_eq!(request.body.as_deref(), Some(r#"{"external_id":"test"}"#));
    let transaction_id = interpret(
        200,
        r#"{"transaction_id": "test_transaction_id"}"#.to_string(),
        Ok("test_transaction_id".to_string()),
        None,
    )
    .unwrap();
    assert_eq!(transaction_id, "test_transaction_id");
}

#[test]
fn checked_authenticate_needs_exactly_one_user() {
    let (_, passage_flex) = setup_passage_flex();
    let none = passage_flex
        .auth
        .create_authenticate_transaction_request_checked(ids(&[]), "test".to_string());
    assert!(matches!(none, Err(Error::UserNotFound)));
    let two = passage_flex
        .auth
        .create_authenticate_transaction_request_checked(ids(&["a", "b"]), "test".to_string());
    assert!(matches!(two, Err(Error::InternalServerError)));
    let one = passage_flex
        .auth
        .create_authenticate_transaction_request_checked(ids(&["a"]), "test".to_string())
        .unwrap();
    assert_eq!(path_of(&one), vec!["transactions", "authenticate"]);
    assert_eq!(one.body.as_deref(), Some(r#"{"external_id":"test"}"#));
}

#[test]
fn test_verify_nonce() {
    let (_, passage_flex) = setup_passage_flex();
    let request = passage_flex.auth.verify_nonce_request("invalid".to_string());
    assert_eq!(request.method, Method::Post);
    assert_eq!(path_of(&request), vec!["authenticate", "verify"]);
    assert_eq!(request.body.as_deref(), Some(r#"{"nonce":"invalid"}"#));
    let body = r#"{"error": "Could not verify nonce: nonce is invalid, expired, or cannot be found","code": "invalid_nonce"}"#;
    let invalid_result: Result<String, Error> = interpret(
        400,
        body.to_string(),
        Err("missing field `external_id`".to_string()),
        document(
            "Could not verify nonce: nonce is invalid, expired, or cannot be found",
            "invalid_nonce",
        ),
    );
    assert!(invalid_result.is_err());
    assert!(matches!(invalid_result, Err(Error::InvalidNonce)));

    let request = passage_flex.auth.verify_nonce_request("valid".to_string());
    assert_eq!(request.body.as_deref(), Some(r#"{"nonce":"valid"}"#));
    let external_id = interpret(
        200,
        r#"{"external_id": "test_external_id"}"#.to_string(),
        Ok("test_external_id".to_string()),
        None,
    )
    .unwrap();
    assert_eq!(external_id, "test_external_id");
}

#[test]
fn test_get_user() {
    let (_, passage_flex) = setup_passage_flex();
    let search = passage_flex.user.list_users_request("invalid".to_string());
    assert_eq!(search.method, Method::Get);
    assert_eq!(path_of(&search), vec!["users"]);
    let query: Vec<(&str, &str)> =
        search.query.iter().map(|(k, v)| (k.as_str(), v.as_str())).collect();
    assert_eq!(query, vec![("page", "1"), ("limit", "1"), ("identifier", "invalid")]);
    assert!(search.body.is_none());

    let invalid_result = passage_flex.user.get_request(ids(&[]));
    assert!(invalid_result.is_err());
    assert!(matches!(invalid_result, Err(Error::UserNotFound)));

    let request = passage_flex.user.get_request(ids(&["test_passage_id"])).unwrap();
    assert_eq!(request.method, Method::Get);
    assert_eq!(path_of(&request), vec!["users", "test_passage_id"]);
    assert!(request.body.is_none());
}

#[test]
fn test_get_devices() {
    let (_, passage_flex) = setup_passage_flex();
    let invalid_result = passage_flex.user.list_devices_request(ids(&[]));
    assert!(invalid_result.is_err());
    assert!(matches!(invalid_result, Err(Error::UserNotFound)));

    let request = passage_flex
        .user
        .list_devices_request(ids(&["test_passage_id"]))
        .unwrap();
    assert_eq!(request.method, Method::Get);
    assert_eq!(path_of(&request), vec!["users", "test_passage_id", "devices"]);
}

#[test]
fn test_revoke_device() {
    let (_, passage_flex) = setup_passage_flex();
    let invalid_result = passage_flex
        .user
        .revoke_device_request(ids(&[]), "invalid".to_string());
    assert!(invalid_result.is_err());
    assert!(matches!(invalid_result, Err(Error::UserNotFound)));

    let request = passage_flex
        .user
        .revoke_device_request(ids(&["test_passage_id"]), "test_device_id".to_string())
        .unwrap();
    assert_eq!(request.method, Method::Delete);
    assert_eq!(
        path_of(&request),
        vec!["users", "test_passage_id", "devices", "test_device_id"]
    );
    let result: Result<(), Error> = interpret(200, String::new(), Ok(()), None);
    assert!(result.is_ok());
}

#[test]
fn revoking_an_already_revoked_device_is_device_not_found() {
    let body = r#"{"error": "Device not found","code": "device_not_found"}"#;
    let result: Result<(), Error> =
        interpret(404, body.to_string(), Ok(()), document("Device not found", "device_not_found"));
    assert!(matches!(result, Err(Error::DeviceNotFound)));
}

#[test]
fn ambiguous_search_never_picks_a_user() {
    let (_, passage_flex) = setup_passage_flex();
    let two = ids(&["first", "second"]);
    assert!(matches!(resolve_user_id(two.clone()), Err(Error::InternalServerError)));
    assert!(matches!(passage_flex.user.get_request(two.clone()), Err(Error::InternalServerError)));
    assert!(matches!(
        passage_flex.user.list_devices_request(two.clone()),
        Err(Error::InternalServerError)
    ));
    assert!(matches!(
        passage_flex.user.revoke_device_request(two, "d".to_string()),
        Err(Error::InternalServerError)
    ));
}

#[test]
fn resolution_of_zero_one_and_failed_search() {
    assert!(matches!(resolve_user_id(ids(&[])), Err(Error::UserNotFound)));
    assert_eq!(resolve_user_id(ids(&["internal_1"])).unwrap(), "internal_1");
    let failed = resolve_user_id(Err(Error::InvalidAccessToken));
    assert!(matches!(failed, Err(Error::InvalidAccessToken)));
    let transport = resolve_user_id(Err(Error::TransportFailure("refused".to_string())));
    assert!(matches!(transport, Err(Error::TransportFailure(m)) if m == "refused"));
}

#[test]
fn failed_search_is_passed_on_unchanged() {
    let (_, passage_flex) = setup_passage_flex();
    let r = passage_flex
        .user
        .revoke_device_request(Err(Error::Other("raw".to_string())), "d".to_string());
    assert!(matches!(r, Err(Error::Other(m)) if m == "raw"));
}

#[test]
fn test_get_app() {
    let (_, passage) = setup_passage_flex();
    let request = passage.get_app_request();
    assert_eq!(request.method, Method::Get);
    assert_eq!(path_of(&request), vec![""]);
    assert_eq!(request.base_path, "http://127.0.0.1:1234/v1/apps/test_app_id");

    let body = r#"{"error": "App not found","code": "app_not_found"}"#;
    let invalid_result: Result<String, Error> = interpret(
        404,
        body.to_string(),
        Err("missing field `app`".to_string()),
        document("App not found", "app_not_found"),
    );
    assert!(invalid_result.is_err());
    assert!(matches!(invalid_result, Err(Error::Other(m)) if m == body));

    let body = r#"{"error": "Invalid access token","code": "invalid_access_token"}"#;
    let unauthorized: Result<String, Error> = interpret(
        401,
        body.to_string(),
        Err("missing field `app`".to_string()),
        document("Invalid access token", "invalid_access_token"),
    );
    assert!(matches!(unauthorized, Err(Error::InvalidAccessToken)));

    let app = passage_flex::models::AppInfo {
        auth_origin: "https://auth.test.com".to_string(),
        id: "test_app_id".to_string(),
        name: "Test App".to_string(),
    };
    let app_info = interpret(200, String::new(), Ok(app), None).unwrap();
    assert_eq!(app_info.id, "test_app_id");
    assert_eq!(app_info.name, "Test App");
    assert_eq!(app_info.auth_origin, "https://auth.test.com");
}

#[test]
fn every_recognised_code_classifies_as_its_kind() {
    let raw = "raw body".to_string();
    assert!(matches!(
        classify(raw.clone(), document("bad field", "invalid_request")),
        Error::InvalidRequest(m) if m == "bad field"
    ));
    assert!(matches!(
        classify(raw.clone(), document("x", "invalid_access_token")),
        Error::InvalidAccessToken
    ));
    assert!(matches!(classify(raw.clone(), document("x", "invalid_nonce")), Error::InvalidNonce));
    assert!(matches!(
        classify(raw.clone(), document("x", "operation_not_allowed")),
        Error::OperationNotAllowed
    ));
    assert!(matches!(
        classify(raw.clone(), document("x", "device_not_found")),
        Error::DeviceNotFound
    ));
    assert!(matches!(classify(raw.clone(), document("x", "user_not_found")), Error::UserNotFound));
    assert!(matches!(
        classify(raw.clone(), document("x", "user_has_no_passkeys")),
        Error::UserHasNoPasskeys
    ));
    assert!(matches!(
        classify(raw.clone(), document("x", "internal_server_error")),
        Error::InternalServerError
    ));
}

#[test]
fn unrecognised_failures_keep_the_raw_body() {
    let unknown = classify("{\"code\":\"teapot\"}".to_string(), document("x", "teapot"));
    assert!(matches!(unknown, Error::Other(m) if m == "{\"code\":\"teapot\"}"));
    let not_json = classify("<html>bad gateway</html>".to_string(), None);
    assert!(matches!(not_json, Error::Other(m) if m == "<html>bad gateway</html>"));
    let case_differs = classify("B".to_string(), document("x", "User_Not_Found"));
    assert!(matches!(case_differs, Error::Other(m) if m == "B"));
    let empty = classify(String::new(), None);
    assert!(matches!(empty, Error::Other(m) if m.is_empty()));
}

#[test]
fn code_parse_reads_each_code() {
    assert_eq!(ErrorCode::parse(&"invalid_nonce".to_string()), Some(ErrorCode::InvalidNonce));
    assert_eq!(
        ErrorCode::parse(&"user_has_no_passkeys".to_string()),
        Some(ErrorCode::UserHasNoPasskeys)
    );
    assert_eq!(ErrorCode::parse(&"app_not_found".to_string()), None);
    assert_eq!(ErrorCode::parse(&String::new()), None);
}

#[test]
fn success_status_bounds() {
    assert!(is_success_status(200));
    assert!(is_success_status(204));
    assert!(is_success_status(399));
    assert!(!is_success_status(400));
    assert!(!is_success_status(409));
    assert!(!is_success_status(599));
    assert!(is_success_status(600));
}

#[test]
fn undecodable_success_body_is_a_decode_failure() {
    let r: Result<String, Error> =
        interpret(200, "not json".to_string(), Err("expected value".to_string()), None);
    assert!(matches!(r, Err(Error::DecodeFailure(m)) if m == "expected value"));
    let conflict: Result<String, Error> = interpret(
        409,
        "c".to_string(),
        Err("x".to_string()),
        document("no passkeys", "user_has_no_passkeys"),
    );
    assert!(matches!(conflict, Err(Error::UserHasNoPasskeys)));
}

#[test]
fn error_messages() {
    assert_eq!(Error::UserNotFound.message(), "error in response: user not found");
    assert_eq!(
        Error::InvalidRequest("bad".to_string()).message(),
        "error in response: invalid request: bad"
    );
    assert_eq!(
        Error::TransportFailure("refused".to_string()).message(),
        "error in transport: refused"
    );
    assert_eq!(Error::DecodeFailure("eof".to_string()).message(), "error in decode: eof");
    assert_eq!(Error::Other("raw".to_string()).message(), "error in response: raw");
    assert_eq!(
        Error::InternalServerError.message(),
        "error in response: internal server error"
    );
}

#[test]
fn json_strings_are_escaped() {
    let members = vec![
        ("k".to_string(), "a\"b\\c\n".to_string()),
        ("second".to_string(), "é".to_string()),
    ];
    assert_eq!(string_object(&members), "{\"k\":\"a\\\"b\\\\c\\n\",\"second\":\"é\"}");
    assert_eq!(string_object(&Vec::new()), "{}");
}

#[test]
fn auth_and_user_over_a_configuration() {
    let configuration = Configuration {
        base_path: "http://h/v1/apps/a".to_string(),
        bearer_access_token: None,
    };
    let auth = Auth::new(configuration.clone());
    let user = User::new(configuration);
    assert_eq!(auth.configuration.base_path, "http://h/v1/apps/a");
    assert!(user.list_users_request("e".to_string()).bearer_access_token.is_none());
}

#[test]
fn model_names_and_constructors() {
    assert_eq!(Technologies::Javascript.to_string(), "javascript");
    assert_eq!(Technologies::default(), Technologies::React);
    assert_eq!(UserMetadataFieldType::Email.to_string(), "email");
    assert_eq!(UserMetadataFieldType::default(), UserMetadataFieldType::String);
    assert_eq!(UserEventStatus::Incomplete.to_string(), "incomplete");
    let g = GoogleUserSocialConnection::new(
        "p".to_string(),
        "c".to_string(),
        "l".to_string(),
        "u@example.com".to_string(),
    );
    assert_eq!(g.provider_identifier, "u@example.com");
    let e = UserRecentEvent::new(
        "c".to_string(),
        None,
        "id".to_string(),
        "127.0.0.1".to_string(),
        UserEventStatus::Complete,
        "login".to_string(),
        "agent".to_string(),
    );
    assert_eq!(e.event_type, "login");
    assert_eq!(e.status, UserEventStatus::Complete);
}
