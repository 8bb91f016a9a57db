use translator_backend::outcome::{conclude, Outcome};

fn s(text: &str) -> String {
    text.to_string()
}

#[test]
fn a_response_body_is_the_result() {
    assert_eq!(
        conclude(Outcome::Received { status: 200, body: s("{\"ok\":true}") }),
        Ok(s("{\"ok\":true}"))
    );
}

#[test]
fn error_statuses_pass_through_as_success() {
    assert_eq!(
        conclude(Outcome::Received { status: 404, body: s("not found") }),
        Ok(s("not found"))
    );
    assert_eq!(
        conclude(Outcome::Received { status: 500, body: s("{\"error\":\"boom\"}") }),
        Ok(s("{\"error\":\"boom\"}"))
    );
    assert_eq!(conclude(Outcome::Received { status: 401, body: s("") }), Ok(s("")));
}

#[test]
fn a_transport_failure_is_reported_by_its_text() {
    assert_eq!(
        conclude(Outcome::TransportFailed(s("error sending request"))),
        Err(s("error sending request"))
    );
}

#[test]
fn a_client_failure_is_reported_behind_a_prefix() {
    assert_eq!(
        conclude(Outcome::ClientFailed(s("builder error"))),
        Err(s("Failed to create HTTP client: builder error"))
    );
    assert_eq!(conclude(Outcome::ClientFailed(s(""))), Err(s("Failed to create HTTP client: ")));
}
