use tpp::error::TppError;
use tpp::token_acquirer::{collect_tokens, login_url, process_login_response, LoginFailure};

#[test]
fn test_login_url() {
    assert_eq!(
        login_url("http://localhost:8848"),
        "http://localhost:8848/api/login"
    );
}

#[test]
fn test_shape_x_parses() {
    let body = r#"{"userToken":"T1","resultCode":0,"msg":""}"#;
    let token = process_login_response(200, body).unwrap();
    assert_eq!(token, "T1");
}

#[test]
fn test_shape_y_parses() {
    let body = r#"{"code":"0","result":["ABCDEF"],"message":"","session":"S","user":"u"}"#;
    let token = process_login_response(200, body).unwrap();
    assert_eq!(token, "ABCDEF");
}

#[test]
fn test_both_shapes_same_token() {
    let shape_x = r#"{"userToken":"TOK42","resultCode":0,"msg":""}"#;
    let shape_y = r#"{"code":"0","result":["TOK42"],"message":"","session":"S","user":"u"}"#;
    let from_x = process_login_response(200, shape_x).unwrap();
    let from_y = process_login_response(200, shape_y).unwrap();
    assert_eq!(from_x, from_y);
    assert_eq!(from_x, "TOK42");
}

#[test]
fn test_shape_x_absent_result_code_is_success() {
    let body = r#"{"userToken":"T9"}"#;
    assert_eq!(process_login_response(200, body).unwrap(), "T9");
}

#[test]
fn test_shape_y_failure_includes_message() {
    let body = r#"{"code":"1","result":[],"message":"bad credentials","session":"","user":"u"}"#;
    match process_login_response(200, body) {
        Err(LoginFailure::Rejected(m)) => {
            assert_eq!(m, "bad credentials");
            let rendered = LoginFailure::Rejected(m).message_for("u");
            assert_eq!(rendered, "Login failed for user 'u': bad credentials");
        }
        other => panic!("expected a rejection, got {:?}", other),
    }
}

#[test]
fn test_shape_y_failure_empty_message() {
    let body = r#"{"code":"1","result":[]}"#;
    match process_login_response(200, body) {
        Err(f @ LoginFailure::Rejected(_)) => {
            assert_eq!(f.message_for("u"), "Login failed for user 'u': Unknown error");
        }
        other => panic!("expected a rejection, got {:?}", other),
    }
}

#[test]
fn test_shape_x_failure() {
    let body = r#"{"userToken":"","resultCode":1,"msg":"denied"}"#;
    match process_login_response(200, body) {
        Err(LoginFailure::Rejected(m)) => assert_eq!(m, "denied"),
        other => panic!("expected a rejection, got {:?}", other),
    }
}

#[test]
fn test_missing_token_field() {
    let body = r#"{"code":"0","session":"S","user":"u"}"#;
    match process_login_response(200, body) {
        Err(LoginFailure::MissingToken) => {}
        other => panic!("expected a missing token, got {:?}", other),
    }
    let body = r#"{"code":"0","result":[],"session":"S","user":"u"}"#;
    match process_login_response(200, body) {
        Err(LoginFailure::MissingToken) => {}
        other => panic!("expected a missing token, got {:?}", other),
    }
}

#[test]
fn test_non_success_status() {
    let body = r#"{"userToken":"T1","resultCode":0}"#;
    match process_login_response(500, body) {
        Err(LoginFailure::BadStatus(500)) => {}
        other => panic!("expected a status failure, got {:?}", other),
    }
    match process_login_response(302, body) {
        Err(LoginFailure::BadStatus(302)) => {}
        other => panic!("expected a status failure, got {:?}", other),
    }
    let rendered = LoginFailure::BadStatus(500).message_for("user1");
    assert_eq!(rendered, "Login failed for user 'user1': HTTP 500");
}

#[test]
fn test_unparseable_body() {
    match process_login_response(200, "not json at all") {
        Err(LoginFailure::Unparseable) => {}
        other => panic!("expected a parse failure, got {:?}", other),
    }
}

#[test]
fn test_collect_tokens_all_failed() {
    let outcomes: Vec<Option<String>> = vec![None, None, None];
    match collect_tokens(&outcomes) {
        Err(TppError::TokenPool(m)) => assert_eq!(
            m,
            "Failed to acquire any tokens. Check credentials and DolphinDB connectivity."
        ),
        other => panic!("expected a pool error, got {:?}", other.is_ok()),
    }
    let empty: Vec<Option<String>> = Vec::new();
    assert!(collect_tokens(&empty).is_err());
}

#[test]
fn test_collect_tokens_partial() {
    let mut outcomes: Vec<Option<String>> = Vec::new();
    for i in 0..10 {
        if i % 3 == 0 {
            outcomes.push(None);
        } else {
            outcomes.push(Some(format!("tok{}", i)));
        }
    }
    let tokens = collect_tokens(&outcomes).unwrap();
    assert_eq!(tokens.len(), 6);
    assert_eq!(tokens[0], "tok1");
    assert_eq!(tokens[5], "tok8");
}

#[test]
fn test_collect_tokens_all_ok() {
    let outcomes: Vec<Option<String>> = vec![Some("a".to_string()), Some("b".to_string())];
    let tokens = collect_tokens(&outcomes).unwrap();
    assert_eq!(tokens, vec!["a".to_string(), "b".to_string()]);
}
