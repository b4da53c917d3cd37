use field_codec::networking::{
    answer_kind, AnswerKind, NetworkingRequest, NetworkingRequestMethod,
};
use field_codec::request::{RequestData, Response, ResponseData};

fn headers() -> Vec<(String, String)> {
    vec![("accept".to_string(), "text/plain".to_string())]
}

#[test]
fn networking_request_builders_set_method_and_parts() {
    let url = "https://example.org/".to_string();
    let body = Some("payload".to_string());

    let request = NetworkingRequest::get(url.clone(), headers());
    assert_eq!(request.method, NetworkingRequestMethod::Get);
    assert_eq!(request.url, url);
    assert_eq!(request.headers, headers());
    assert_eq!(request.body, None);

    let request = NetworkingRequest::post(url.clone(), headers(), body.clone());
    assert_eq!(request.method, NetworkingRequestMethod::Post);
    assert_eq!(request.url, url);
    assert_eq!(request.headers, headers());
    assert_eq!(request.body, body);

    let request = NetworkingRequest::put(url.clone(), headers(), body.clone());
    assert_eq!(request.method, NetworkingRequestMethod::Put);
    assert_eq!(request.body, body);

    let request = NetworkingRequest::delete(url.clone(), headers(), None);
    assert_eq!(request.method, NetworkingRequestMethod::Delete);
    assert_eq!(request.body, None);

    let request = NetworkingRequest::patch(url.clone(), vec![], body.clone());
    assert_eq!(request.method, NetworkingRequestMethod::Patch);
    assert_eq!(request.headers, vec![]);
    assert_eq!(request.body, body);

    let request = NetworkingRequest::head(url.clone(), headers());
    assert_eq!(request.method, NetworkingRequestMethod::Head);
    assert_eq!(request.body, None);
}

#[test]
fn networking_options_request_is_sent_as_get() {
    let request = NetworkingRequest::options("https://example.org/".to_string(), headers());

    assert_eq!(request.method, NetworkingRequestMethod::Get);
    assert_eq!(request.url, "https://example.org/");
    assert_eq!(request.headers, headers());
    assert_eq!(request.body, None);
}

#[test]
fn request_data_new_keeps_its_parts() {
    let request = RequestData::new(
        "GET".to_string(),
        "https://example.org/".to_string(),
        headers(),
        Some("payload".to_string()),
    );

    assert_eq!(request.method, "GET");
    assert_eq!(request.url, "https://example.org/");
    assert_eq!(request.headers, headers());
    assert_eq!(request.body, Some("payload".to_string()));
}

#[test]
fn response_data_hands_out_its_response() {
    let data = ResponseData {
        code: Some(0),
        response: Some(Response {
            status: 204,
            headers: headers(),
            body: None,
        }),
        message: Some("ignored".to_string()),
    };

    let response = data.print_response();

    assert_eq!(response.status, 204);
    assert_eq!(response.headers, headers());
    assert_eq!(response.body, None);
}

#[test]
fn answer_kind_follows_the_code() {
    let answer = |text: &str| -> serde_json::Value { serde_json::from_str(text).unwrap() };

    assert_eq!(
        answer_kind(&answer(r#"{"code": 0, "response": {"status": 200}}"#)),
        AnswerKind::Response
    );
    assert_eq!(
        answer_kind(&answer(r#"{"code": 1, "message": "failed"}"#)),
        AnswerKind::Failure(1)
    );
    assert_eq!(answer_kind(&answer(r#"{"code": 255}"#)), AnswerKind::Failure(255));
    // the code is kept as its lowest eight bits
    assert_eq!(answer_kind(&answer(r#"{"code": 256}"#)), AnswerKind::Failure(0));
    assert_eq!(answer_kind(&answer(r#"{"code": 513}"#)), AnswerKind::Failure(1));
    assert_eq!(
        answer_kind(&answer(r#"{"code": 18446744073709551615}"#)),
        AnswerKind::Failure(255)
    );

    for text in [
        r#"{}"#,
        r#"{"code": -1}"#,
        r#"{"code": 0.0}"#,
        r#"{"code": "0"}"#,
        r#"{"code": null}"#,
        r#"[0]"#,
        r#"0"#,
    ] {
        assert_eq!(answer_kind(&answer(text)), AnswerKind::Malformed);
    }
}
