use box_dyn_dns::address::Ipv4Address;
use box_dyn_dns::api::{
    is_success_status, ApiError, ApiResponse, DnsRecord, HttpMethod, HttpReply, HttpRequest,
    RecordUpdate, Stage, UpdateAction, UpdateError, UpdateEvent,
};
use box_dyn_dns::cloudflare::{default_base_url, Cloudflare, CloudflareConfig};
use box_dyn_dns::provider::{Provider, UpdateDnsConfig};

const NAME: &str = "home.example.com";

fn config() -> CloudflareConfig {
    CloudflareConfig {
        base_url: default_base_url(),
        zone_id: "Z".to_string(),
        api_token: "t0ken".to_string(),
    }
}

fn provider() -> Cloudflare {
    Cloudflare::from_config(config())
}

fn home_record(content: &str) -> DnsRecord {
    DnsRecord {
        id: "r1".to_string(),
        name: NAME.to_string(),
        content: content.to_string(),
        ttl: 300,
    }
}

fn found(records: Vec<DnsRecord>) -> UpdateEvent {
    UpdateEvent::Looked(HttpReply::Answered {
        body: Ok(ApiResponse { result: Some(records), success: true, errors: vec![] }),
    })
}

fn two_errors() -> Vec<ApiError> {
    vec![
        ApiError { code: 1000, message: "bad token".to_string() },
        ApiError { code: 7003, message: "no route".to_string() },
    ]
}

fn refused(status: u16, reason: &str, errors: Result<Vec<ApiError>, String>) -> HttpReply<String> {
    HttpReply::Refused { status, reason: reason.to_string(), errors }
}

fn failure(action: UpdateAction) -> UpdateError {
    match action {
        UpdateAction::Failed(error) => error,
        other => panic!("no failure: {:?}", other),
    }
}

#[test]
fn default_base_url_is_the_public_api() {
    assert_eq!(default_base_url(), "https://api.cloudflare.com/client/v4");
}

#[test]
fn from_config_keeps_the_configuration() {
    assert_eq!(provider().config(), &config());
}

#[test]
fn describe_names_the_zone() {
    assert_eq!(provider().describe(), "Cloudflare[zone=Z]");
}

#[test]
fn update_begins_with_the_lookup_of_the_a_records() {
    let expected = HttpRequest {
        method: HttpMethod::Get,
        url: "https://api.cloudflare.com/client/v4/zones/Z/dns_records".to_string(),
        query: vec![
            ("name".to_string(), NAME.to_string()),
            ("type".to_string(), "A".to_string()),
        ],
        authorization: "Bearer t0ken".to_string(),
        body: None,
    };
    assert_eq!(provider().lookup_request(NAME), expected);
    let action = provider().update_dns(NAME, Ipv4Address::new(1, 2, 3, 5), UpdateEvent::Start);
    assert_eq!(action, UpdateAction::Lookup(expected));
}

#[test]
fn lookup_request_uses_the_configured_base_url() {
    let provider = Cloudflare::from_config(CloudflareConfig {
        base_url: "http://localhost:8080/v4".to_string(),
        zone_id: "abc".to_string(),
        api_token: "x".to_string(),
    });
    let request = provider.lookup_request("a.b");
    assert_eq!(request.url, "http://localhost:8080/v4/zones/abc/dns_records");
    assert_eq!(request.authorization, "Bearer x");
}

#[test]
fn changed_address_replaces_the_record() {
    let provider = provider();
    let ip = Ipv4Address::new(1, 2, 3, 5);
    let action = provider.update_dns(NAME, ip, found(vec![home_record("1.2.3.4")]));
    let request = HttpRequest {
        method: HttpMethod::Put,
        url: "https://api.cloudflare.com/client/v4/zones/Z/dns_records/r1".to_string(),
        query: vec![],
        authorization: "Bearer t0ken".to_string(),
        body: Some(RecordUpdate {
            record_type: "A".to_string(),
            name: NAME.to_string(),
            content: "1.2.3.5".to_string(),
            ttl: 300,
        }),
    };
    assert_eq!(action, UpdateAction::Replace { request, old_content: "1.2.3.4".to_string() });
    let answer =
        ApiResponse { result: Some("{\"id\":\"r1\"}".to_string()), success: true, errors: vec![] };
    let done = UpdateEvent::Replaced(HttpReply::Answered { body: Ok(answer.clone()) });
    assert_eq!(provider.update_dns(NAME, ip, done), UpdateAction::Updated(answer));
}

#[test]
fn unchanged_address_sends_nothing() {
    let action = provider().update_dns(
        NAME,
        Ipv4Address::new(1, 2, 3, 4),
        found(vec![home_record("1.2.3.4")]),
    );
    assert_eq!(action, UpdateAction::Unchanged);
}

#[test]
fn update_is_idempotent() {
    let provider = provider();
    let ip = Ipv4Address::new(1, 2, 3, 5);
    let first = provider.update_dns(NAME, ip, found(vec![home_record("1.2.3.4")]));
    let body = match first {
        UpdateAction::Replace { request, .. } => request.body.unwrap(),
        other => panic!("no replacement: {:?}", other),
    };
    let replaced =
        DnsRecord { id: "r1".to_string(), name: body.name, content: body.content, ttl: body.ttl };
    assert_eq!(provider.update_dns(NAME, ip, found(vec![replaced.clone()])), UpdateAction::Unchanged);
    assert_eq!(provider.update_dns(NAME, ip, found(vec![replaced])), UpdateAction::Unchanged);
}

#[test]
fn update_keeps_the_time_to_live() {
    let mut record = home_record("10.0.0.1");
    record.ttl = 1;
    let action = provider().update_dns(NAME, Ipv4Address::new(10, 0, 0, 2), found(vec![record]));
    match action {
        UpdateAction::Replace { request, old_content } => {
            let body = request.body.unwrap();
            assert_eq!(body.ttl, 1);
            assert_eq!(body.content, "10.0.0.2");
            assert_eq!(old_content, "10.0.0.1");
        }
        other => panic!("no replacement: {:?}", other),
    }
}

#[test]
fn no_record_is_a_cardinality_error() {
    let action = provider().update_dns(NAME, Ipv4Address::new(1, 2, 3, 4), found(vec![]));
    assert_eq!(action, UpdateAction::Failed(UpdateError::Cardinality { records: vec![] }));
}

#[test]
fn two_records_are_a_cardinality_error() {
    let records = vec![home_record("1.2.3.4"), home_record("1.2.3.5")];
    let action = provider().update_dns(NAME, Ipv4Address::new(1, 2, 3, 4), found(records.clone()));
    assert_eq!(action, UpdateAction::Failed(UpdateError::Cardinality { records }));
}

#[test]
fn refused_lookup_carries_the_error_list() {
    let reply = HttpReply::Refused {
        status: 403,
        reason: "Forbidden".to_string(),
        errors: Ok(two_errors()),
    };
    let error =
        failure(provider().update_dns(NAME, Ipv4Address::new(1, 2, 3, 4), UpdateEvent::Looked(reply)));
    assert_eq!(
        error,
        UpdateError::Api {
            stage: Stage::Lookup,
            status: 403,
            reason: "Forbidden".to_string(),
            errors: two_errors()
        }
    );
    let message = error.message();
    assert!(message.starts_with("403 Forbidden Error from Cloudflare: "));
    assert!(message.contains("1000: bad token"));
    assert!(message.contains("7003: no route"));
    assert_eq!(message, "403 Forbidden Error from Cloudflare: [1000: bad token, 7003: no route]");
    assert_eq!(error.stage(), Stage::Lookup);
    assert_eq!(error.context(), "Failed to fetch DNS record");
}

#[test]
fn refused_update_carries_the_error_list() {
    let reply = refused(400, "Bad Request", Ok(two_errors()));
    let error =
        failure(provider().update_dns(NAME, Ipv4Address::new(1, 2, 3, 4), UpdateEvent::Replaced(reply)));
    assert_eq!(
        error,
        UpdateError::Api {
            stage: Stage::Update,
            status: 400,
            reason: "Bad Request".to_string(),
            errors: two_errors()
        }
    );
    assert_eq!(
        error.message(),
        "400 Bad Request Error from Cloudflare: [1000: bad token, 7003: no route]"
    );
    assert_eq!(error.stage(), Stage::Update);
    assert_eq!(error.context(), "Failed to replace DNS record");
}

#[test]
fn refusal_without_errors_shows_an_empty_list() {
    let error = UpdateError::Api {
        stage: Stage::Lookup,
        status: 404,
        reason: "Not Found".to_string(),
        errors: vec![],
    };
    assert_eq!(error.message(), "404 Not Found Error from Cloudflare: []");
}

#[test]
fn unsuccessful_lookup_is_an_error() {
    let response = ApiResponse {
        result: Some(vec![home_record("1.2.3.4")]),
        success: false,
        errors: two_errors(),
    };
    let reply = HttpReply::Answered { body: Ok(response.clone()) };
    let error =
        failure(provider().update_dns(NAME, Ipv4Address::new(1, 2, 3, 4), UpdateEvent::Looked(reply)));
    assert_eq!(error, UpdateError::LookupUnsuccessful { response });
    assert_eq!(
        error.message(),
        "Not successful or no result: result: Some([{id: r1, name: home.example.com, content: 1.2.3.4, ttl: 300}]), success: false, errors: [1000: bad token, 7003: no route]"
    );
    assert_eq!(error.stage(), Stage::Lookup);
}

#[test]
fn lookup_without_a_result_is_an_error() {
    let response: ApiResponse<Vec<DnsRecord>> =
        ApiResponse { result: None, success: true, errors: vec![] };
    let reply = HttpReply::Answered { body: Ok(response.clone()) };
    let error =
        failure(provider().update_dns(NAME, Ipv4Address::new(1, 2, 3, 4), UpdateEvent::Looked(reply)));
    assert_eq!(error, UpdateError::LookupUnsuccessful { response });
    assert_eq!(
        error.message(),
        "Not successful or no result: result: None, success: true, errors: []"
    );
}

#[test]
fn unsuccessful_update_is_an_error() {
    let response =
        ApiResponse { result: Some("null".to_string()), success: false, errors: two_errors() };
    let reply = HttpReply::Answered { body: Ok(response.clone()) };
    let error =
        failure(provider().update_dns(NAME, Ipv4Address::new(1, 2, 3, 4), UpdateEvent::Replaced(reply)));
    assert_eq!(error, UpdateError::UpdateUnsuccessful { response });
    assert!(error.message().contains("1000: bad token"));
    assert!(error.message().contains("7003: no route"));
    assert_eq!(
        error.message(),
        "Not successful: result: Some(null), success: false, errors: [1000: bad token, 7003: no route]"
    );
    assert_eq!(error.stage(), Stage::Update);
}

#[test]
fn update_without_a_payload_succeeds() {
    let response: ApiResponse<String> = ApiResponse { result: None, success: true, errors: vec![] };
    let reply = HttpReply::Answered { body: Ok(response.clone()) };
    let action = provider().update_dns(NAME, Ipv4Address::new(1, 2, 3, 4), UpdateEvent::Replaced(reply));
    assert_eq!(action, UpdateAction::Updated(response));
}

#[test]
fn unreadable_refusal_reports_the_parse_failure() {
    let reply = HttpReply::Refused {
        status: 502,
        reason: "Bad Gateway".to_string(),
        errors: Err("expected value at line 1".to_string()),
    };
    let error =
        failure(provider().update_dns(NAME, Ipv4Address::new(1, 2, 3, 4), UpdateEvent::Looked(reply)));
    assert_eq!(
        error,
        UpdateError::UnreadableRefusal {
            stage: Stage::Lookup,
            status: 502,
            reason: "Bad Gateway".to_string(),
            detail: "expected value at line 1".to_string(),
        }
    );
    let message = error.message();
    assert!(message.starts_with("502 Bad Gateway Error from Cloudflare: "));
    assert!(message.contains("Unable to read response"));
    assert!(!message.contains("[]"));
    assert_eq!(
        message,
        "502 Bad Gateway Error from Cloudflare: Unable to read response: expected value at line 1"
    );
    let reply = refused(500, "Internal Server Error", Err("eof".to_string()));
    let error =
        failure(provider().update_dns(NAME, Ipv4Address::new(1, 2, 3, 4), UpdateEvent::Replaced(reply)));
    assert_eq!(
        error.message(),
        "500 Internal Server Error Error from Cloudflare: Unable to read response: eof"
    );
    assert_eq!(error.stage(), Stage::Update);
}

#[test]
fn unsent_request_is_a_transport_error() {
    let reply = HttpReply::Unsent { detail: "connection refused".to_string() };
    let error =
        failure(provider().update_dns(NAME, Ipv4Address::new(1, 2, 3, 4), UpdateEvent::Looked(reply)));
    assert_eq!(
        error,
        UpdateError::Transport { stage: Stage::Lookup, detail: "connection refused".to_string() }
    );
    assert_eq!(error.message(), "Failed to send request: connection refused");
    let reply = HttpReply::Unsent { detail: "reset".to_string() };
    let error =
        failure(provider().update_dns(NAME, Ipv4Address::new(1, 2, 3, 4), UpdateEvent::Replaced(reply)));
    assert_eq!(error, UpdateError::Transport { stage: Stage::Update, detail: "reset".to_string() });
    assert_eq!(error.message(), "Failed to send request: reset");
}

#[test]
fn unserialized_body_is_an_encoding_error() {
    let reply = HttpReply::Unencoded { detail: "key must be a string".to_string() };
    let error =
        failure(provider().update_dns(NAME, Ipv4Address::new(1, 2, 3, 4), UpdateEvent::Replaced(reply)));
    assert_eq!(
        error,
        UpdateError::Encoding { stage: Stage::Update, detail: "key must be a string".to_string() }
    );
    assert_eq!(error.message(), "Failed to serialize body: key must be a string");
}

#[test]
fn unreadable_answer_is_an_error() {
    let reply = HttpReply::Answered { body: Err("missing field `success`".to_string()) };
    let error =
        failure(provider().update_dns(NAME, Ipv4Address::new(1, 2, 3, 4), UpdateEvent::Looked(reply)));
    assert_eq!(
        error,
        UpdateError::Unreadable { stage: Stage::Lookup, detail: "missing field `success`".to_string() }
    );
    assert_eq!(error.message(), "Failed to read response: missing field `success`");
    let reply = HttpReply::Answered { body: Err("not json".to_string()) };
    let error =
        failure(provider().update_dns(NAME, Ipv4Address::new(1, 2, 3, 4), UpdateEvent::Replaced(reply)));
    assert_eq!(error.message(), "Failed to read response: not json");
}

#[test]
fn cardinality_message_lists_the_records() {
    let error =
        UpdateError::Cardinality { records: vec![home_record("1.2.3.4"), home_record("4.3.2.1")] };
    assert_eq!(
        error.message(),
        "Expected exactly one result, got [{id: r1, name: home.example.com, content: 1.2.3.4, ttl: 300}, {id: r1, name: home.example.com, content: 4.3.2.1, ttl: 300}]"
    );
    let none = UpdateError::Cardinality { records: vec![] };
    assert_eq!(none.message(), "Expected exactly one result, got []");
    assert_eq!(none.stage(), Stage::Lookup);
}

#[test]
fn success_statuses_are_two_hundred_to_two_ninety_nine() {
    assert!(!is_success_status(0));
    assert!(!is_success_status(199));
    assert!(is_success_status(200));
    assert!(is_success_status(204));
    assert!(is_success_status(299));
    assert!(!is_success_status(300));
    assert!(!is_success_status(404));
    assert!(!is_success_status(u16::MAX));
}

#[test]
fn provider_of_a_configuration_answers_for_its_kind() {
    let chosen = Provider::from_config(UpdateDnsConfig::Cloudflare(config()));
    let ip = Ipv4Address::new(1, 2, 3, 5);
    assert_eq!(chosen.describe(), "Cloudflare[zone=Z]");
    assert_eq!(
        chosen.update_dns(NAME, ip, UpdateEvent::Start),
        provider().update_dns(NAME, ip, UpdateEvent::Start)
    );
    assert_eq!(
        chosen.update_dns(NAME, ip, found(vec![home_record("1.2.3.4")])),
        provider().update_dns(NAME, ip, found(vec![home_record("1.2.3.4")]))
    );
    assert_eq!(chosen.update_dns(NAME, ip, found(vec![home_record("1.2.3.5")])), UpdateAction::Unchanged);
    let reply = refused(401, "Unauthorized", Ok(vec![]));
    assert_eq!(
        chosen.update_dns(NAME, ip, UpdateEvent::Replaced(reply)),
        UpdateAction::Failed(UpdateError::Api {
            stage: Stage::Update,
            status: 401,
            reason: "Unauthorized".to_string(),
            errors: vec![]
        })
    );
}
