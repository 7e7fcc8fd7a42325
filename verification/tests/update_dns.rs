use box_dyn_dns::address::Ipv4Address;
use box_dyn_dns::api::{
    ApiError, ApiResponse, DnsRecord, HttpMethod, HttpReply, HttpRequest, RecordUpdate, Stage,
    UpdateAction, UpdateError, UpdateEvent,
};
use box_dyn_dns::cloudflare::{default_base_url, CloudflareConfig};
use box_dyn_dns::provider::{Provider, UpdateDnsConfig};

const HOME: &str = "home.example.com";

/// What a run of an update sent and how it ended.
struct Run {
    gets: Vec<HttpRequest>,
    puts: Vec<HttpRequest>,
    end: UpdateAction,
}

/// Runs an update to its end against a remote side that answers the lookup
/// with `lookup` and the replacement with `update`.
fn run(
    ip: Ipv4Address,
    lookup: impl Fn() -> HttpReply<Vec<DnsRecord>>,
    mut update: impl FnMut(&HttpRequest) -> HttpReply<String>,
) -> Run {
    let provider = Provider::from_config(UpdateDnsConfig::Cloudflare(CloudflareConfig {
        base_url: default_base_url(),
        zone_id: "Z".to_string(),
        api_token: "secret".to_string(),
    }));
    let mut gets = Vec::new();
    let mut puts = Vec::new();
    let mut event = UpdateEvent::Start;
    let mut steps = 0;
    loop {
        steps += 1;
        assert!(steps <= 3);
        event = match provider.update_dns(HOME, ip, event) {
            UpdateAction::Lookup(request) => {
                gets.push(request);
                UpdateEvent::Looked(lookup())
            }
            UpdateAction::Replace { request, .. } => {
                let reply = update(&request);
                puts.push(request);
                UpdateEvent::Replaced(reply)
            }
            end => return Run { gets, puts, end },
        };
    }
}

fn remote(content: &str) -> Vec<DnsRecord> {
    vec![DnsRecord {
        id: "r1".to_string(),
        name: HOME.to_string(),
        content: content.to_string(),
        ttl: 300,
    }]
}

fn listed(records: Vec<DnsRecord>) -> HttpReply<Vec<DnsRecord>> {
    HttpReply::Answered {
        body: Ok(ApiResponse { result: Some(records), success: true, errors: vec![] }),
    }
}

fn answer() -> ApiResponse<String> {
    ApiResponse { result: Some("{}".to_string()), success: true, errors: vec![] }
}

fn accepted() -> HttpReply<String> {
    HttpReply::Answered { body: Ok(answer()) }
}

#[test]
fn changed_address_issues_one_put() {
    let run = run(Ipv4Address::new(1, 2, 3, 5), || listed(remote("1.2.3.4")), |_| accepted());
    assert_eq!(run.end, UpdateAction::Updated(answer()));
    assert_eq!(run.gets.len(), 1);
    assert_eq!(run.gets[0].method, HttpMethod::Get);
    assert_eq!(run.gets[0].url, "https://api.cloudflare.com/client/v4/zones/Z/dns_records");
    assert_eq!(
        run.gets[0].query,
        vec![("name".to_string(), HOME.to_string()), ("type".to_string(), "A".to_string())]
    );
    assert_eq!(run.gets[0].authorization, "Bearer secret");
    assert_eq!(run.puts.len(), 1);
    assert_eq!(run.puts[0].method, HttpMethod::Put);
    assert_eq!(run.puts[0].url, "https://api.cloudflare.com/client/v4/zones/Z/dns_records/r1");
    assert_eq!(run.puts[0].authorization, "Bearer secret");
    assert_eq!(
        run.puts[0].body,
        Some(RecordUpdate {
            record_type: "A".to_string(),
            name: HOME.to_string(),
            content: "1.2.3.5".to_string(),
            ttl: 300,
        })
    );
}

#[test]
fn unchanged_address_issues_no_put() {
    let run = run(Ipv4Address::new(1, 2, 3, 4), || listed(remote("1.2.3.4")), |_| accepted());
    assert_eq!(run.end, UpdateAction::Unchanged);
    assert_eq!(run.gets.len(), 1);
    assert_eq!(run.puts.len(), 0);
}

#[test]
fn second_update_is_a_no_op() {
    let ip = Ipv4Address::new(1, 2, 3, 5);
    let mut content = "1.2.3.4".to_string();
    let mut puts = 0;
    let mut round = 0;
    while round < 3 {
        let seen = content.clone();
        let run = run(
            ip,
            || listed(remote(&seen)),
            |request| {
                content = request.body.clone().unwrap().content;
                accepted()
            },
        );
        assert!(matches!(run.end, UpdateAction::Updated(_) | UpdateAction::Unchanged));
        puts += run.puts.len();
        round += 1;
    }
    assert_eq!(puts, 1);
    assert_eq!(content, "1.2.3.5");
}

#[test]
fn ambiguous_lookup_issues_no_put() {
    let none = run(Ipv4Address::new(1, 2, 3, 5), || listed(vec![]), |_| accepted());
    assert_eq!(none.end, UpdateAction::Failed(UpdateError::Cardinality { records: vec![] }));
    assert_eq!(none.puts.len(), 0);
    let mut two = remote("1.2.3.4");
    two.push(remote("9.9.9.9").pop().unwrap());
    let both = run(Ipv4Address::new(1, 2, 3, 5), || listed(two.clone()), |_| accepted());
    assert_eq!(both.end, UpdateAction::Failed(UpdateError::Cardinality { records: two.clone() }));
    assert_eq!(both.puts.len(), 0);
}

#[test]
fn failed_lookup_issues_no_put() {
    let run = run(
        Ipv4Address::new(1, 2, 3, 5),
        || HttpReply::Refused {
            status: 403,
            reason: "Forbidden".to_string(),
            errors: Ok(vec![ApiError { code: 9109, message: "Invalid access token".to_string() }]),
        },
        |_| accepted(),
    );
    match run.end {
        UpdateAction::Failed(error) => {
            assert!(error.message().starts_with("403 Forbidden Error from Cloudflare: "));
            assert!(error.message().contains("9109: Invalid access token"));
        }
        other => panic!("no failure: {:?}", other),
    }
    assert_eq!(run.puts.len(), 0);
}

#[test]
fn failed_put_fails_the_update() {
    let run = run(
        Ipv4Address::new(1, 2, 3, 5),
        || listed(remote("1.2.3.4")),
        |_| HttpReply::Refused {
            status: 500,
            reason: "Internal Server Error".to_string(),
            errors: Err("not json".to_string()),
        },
    );
    assert_eq!(
        run.end,
        UpdateAction::Failed(UpdateError::UnreadableRefusal {
            stage: Stage::Update,
            status: 500,
            reason: "Internal Server Error".to_string(),
            detail: "not json".to_string()
        })
    );
    assert_eq!(run.puts.len(), 1);
}
