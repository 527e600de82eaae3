use ikuncodeline::api::client::{build_request, interpret_reply, FetchError, Reply, Request};
use ikuncodeline::api::{ApiConfig, UserData, UserResponse};

fn counters() -> UserData {
    UserData { quota: 1_000_000, used_quota: 250_000, request_count: 12, group: "default".to_string() }
}

fn envelope(success: bool, data: Option<UserData>, message: Option<&str>) -> UserResponse {
    UserResponse { success, data, message: message.map(|m| m.to_string()) }
}

#[test]
fn the_request_carries_a_bearer_token() {
    let config = ApiConfig {
        enabled: true,
        api_key: "sk-secret".to_string(),
        api_url: "https://example.org/balance".to_string(),
        user_id: Some("42".to_string()),
    };
    assert_eq!(
        build_request(config),
        Request {
            url: "https://example.org/balance".to_string(),
            authorization: "Bearer sk-secret".to_string(),
            user_id: Some("42".to_string()),
        }
    );
}

#[test]
fn the_request_of_the_default_config() {
    let request = build_request(ApiConfig::default());
    assert_eq!(request.url, "https://api.ikuncode.cc/api/user/self");
    assert_eq!(request.authorization, "Bearer ");
    assert_eq!(request.user_id, None);
}

#[test]
fn a_good_reply_gives_the_counters() {
    let reply = Reply::Answered { status: 200, body: Some(envelope(true, Some(counters()), None)) };
    assert_eq!(interpret_reply(reply), Ok(counters()));
}

#[test]
fn every_success_status_is_accepted() {
    for status in [200, 201, 204, 299] {
        let reply = Reply::Answered { status, body: Some(envelope(true, Some(counters()), None)) };
        assert_eq!(interpret_reply(reply), Ok(counters()));
    }
}

#[test]
fn a_request_that_did_not_complete() {
    assert_eq!(interpret_reply(Reply::Failed), Err(FetchError::Network));
}

#[test]
fn other_statuses_are_errors() {
    for status in [0, 100, 199, 300, 301, 401, 404, 500, u16::MAX] {
        let reply = Reply::Answered { status, body: Some(envelope(true, Some(counters()), None)) };
        assert_eq!(interpret_reply(reply), Err(FetchError::Status(status)));
    }
}

#[test]
fn the_status_is_looked_at_before_the_body() {
    let reply = Reply::Answered { status: 503, body: None };
    assert_eq!(interpret_reply(reply), Err(FetchError::Status(503)));
}

#[test]
fn a_body_that_is_no_envelope() {
    let reply = Reply::Answered { status: 200, body: None };
    assert_eq!(interpret_reply(reply), Err(FetchError::Malformed));
}

#[test]
fn an_envelope_that_reports_failure() {
    let reply = Reply::Answered {
        status: 200,
        body: Some(envelope(false, Some(counters()), Some("invalid token"))),
    };
    assert_eq!(
        interpret_reply(reply),
        Err(FetchError::Rejected { message: Some("invalid token".to_string()) })
    );
}

#[test]
fn an_envelope_without_data() {
    let reply = Reply::Answered { status: 200, body: Some(envelope(true, None, None)) };
    assert_eq!(interpret_reply(reply), Err(FetchError::Rejected { message: None }));
    let reply = Reply::Answered { status: 200, body: Some(envelope(false, None, Some("no"))) };
    assert_eq!(
        interpret_reply(reply),
        Err(FetchError::Rejected { message: Some("no".to_string()) })
    );
}
