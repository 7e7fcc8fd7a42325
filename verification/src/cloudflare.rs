//! The provider that keeps a record through Cloudflare's web API.
//!
//! An update is two calls at most. The caller begins `update_dns` with
//! `UpdateEvent::Start`, sends each request that it asks for, and hands the
//! reply back as the next event, until an action ends the update.

use vstd::prelude::*;
use vstd::string::*;
use crate::address::Ipv4Address;
use crate::api::{
    open_reply, reply_failure, ApiErrorModel, ApiResponseModel, DnsRecord, DnsRecordModel,
    HttpMethod, HttpReply, HttpReplyModel, HttpRequest, HttpRequestModel, RecordUpdate,
    RecordUpdateModel, Stage, UpdateAction, UpdateActionModel, UpdateError, UpdateErrorModel,
    UpdateEvent, UpdateEventModel,
};

verus! {

/// Where the API is reached, which zone the record is in, and the token that
/// authorizes the calls.
#[derive(Clone, Debug, PartialEq, Eq)]
pub struct CloudflareConfig {
    pub base_url: String,
    pub zone_id: String,
    pub api_token: String,
}

/// The model of `CloudflareConfig`: each string is the sequence of its characters.
pub struct CloudflareConfigModel {
    pub base_url: Seq<char>,
    pub zone_id: Seq<char>,
    pub api_token: Seq<char>,
}

impl DeepView for CloudflareConfig {
    type V = CloudflareConfigModel;

    open spec fn deep_view(&self) -> CloudflareConfigModel {
        CloudflareConfigModel {
            base_url: self.base_url@,
            zone_id: self.zone_id@,
            api_token: self.api_token@,
        }
    }
}

/// The base URL of a configuration that names none.
pub fn default_base_url() -> (url: String)
    ensures
        url@ == "https://api.cloudflare.com/client/v4"@,
{
    String::from_str("https://api.cloudflare.com/client/v4")
}

impl CloudflareConfigModel {
    /// The name by which the provider is logged.
    pub open spec fn description(self) -> Seq<char> {
        "Cloudflare[zone="@ + self.zone_id + "]"@
    }

    /// The address of the zone's records.
    pub open spec fn records_url(self) -> Seq<char> {
        self.base_url + "/zones/"@ + self.zone_id + "/dns_records"@
    }

    /// The value of the `Authorization` header of every call.
    pub open spec fn authorization(self) -> Seq<char> {
        "Bearer "@ + self.api_token
    }

    /// The request for the zone's `A` records of `name`.
    pub open spec fn lookup_request(self, name: Seq<char>) -> HttpRequestModel {
        HttpRequestModel {
            method: HttpMethod::Get,
            url: self.records_url(),
            query: seq![("name"@, name), ("type"@, "A"@)],
            authorization: self.authorization(),
            body: None,
        }
    }

    /// The request that points `record` at `new_ip`: it replaces the record
    /// of that identifier by an `A` record of the same name and time to live
    /// whose content is the address.
    pub open spec fn update_request(
        self,
        record: DnsRecordModel,
        new_ip: Ipv4Address,
    ) -> HttpRequestModel {
        HttpRequestModel {
            method: HttpMethod::Put,
            url: self.records_url() + "/"@ + record.id,
            query: Seq::empty(),
            authorization: self.authorization(),
            body: Some(
                RecordUpdateModel {
                    record_type: "A"@,
                    name: record.name,
                    content: new_ip.text(),
                    ttl: record.ttl,
                },
            ),
        }
    }

    /// What the reply to the lookup asks for. A reply that failed is that
    /// failure. An envelope without success or without a list is an error,
    /// and so is a list of any length but one. The one record either holds
    /// the address already, and nothing more is sent, or is to be replaced.
    pub open spec fn after_lookup(
        self,
        new_ip: Ipv4Address,
        reply: HttpReplyModel<Seq<DnsRecordModel>>,
    ) -> UpdateActionModel {
        match reply {
            HttpReplyModel::Answered { body: Ok(envelope) } => match envelope.result {
                Some(records) => if !envelope.success {
                    UpdateActionModel::Failed(
                        UpdateErrorModel::LookupUnsuccessful { response: envelope },
                    )
                } else if records.len() != 1 {
                    UpdateActionModel::Failed(UpdateErrorModel::Cardinality { records })
                } else if records[0].content == new_ip.text() {
                    UpdateActionModel::Unchanged
                } else {
                    UpdateActionModel::Replace {
                        request: self.update_request(records[0], new_ip),
                        old_content: records[0].content,
                    }
                },
                None => UpdateActionModel::Failed(
                    UpdateErrorModel::LookupUnsuccessful { response: envelope },
                ),
            },
            _ => UpdateActionModel::Failed(reply_failure(Stage::Lookup, reply).unwrap()),
        }
    }

    /// What an update of `name` to `new_ip` asks for after `event`: at its
    /// start the lookup, after the lookup what its reply asks for, after
    /// the replacement its end.
    pub open spec fn update_dns(
        self,
        name: Seq<char>,
        new_ip: Ipv4Address,
        event: UpdateEventModel,
    ) -> UpdateActionModel {
        match event {
            UpdateEventModel::Start => UpdateActionModel::Lookup(self.lookup_request(name)),
            UpdateEventModel::Looked(reply) => self.after_lookup(new_ip, reply),
            UpdateEventModel::Replaced(reply) => after_update(reply),
        }
    }
}

/// How the reply to the replacement ends the update: a reply that failed is
/// that failure, an envelope without success is an error, and any other is
/// success.
pub open spec fn after_update(reply: HttpReplyModel<Seq<char>>) -> UpdateActionModel {
    match reply {
        HttpReplyModel::Answered { body: Ok(envelope) } => if envelope.success {
            UpdateActionModel::Updated(envelope)
        } else {
            UpdateActionModel::Failed(UpdateErrorModel::UpdateUnsuccessful { response: envelope })
        },
        _ => UpdateActionModel::Failed(reply_failure(Stage::Update, reply).unwrap()),
    }
}

/// A provider, ready to use.
pub struct Cloudflare {
    config: CloudflareConfig,
}

impl DeepView for Cloudflare {
    type V = CloudflareConfigModel;

    closed spec fn deep_view(&self) -> CloudflareConfigModel {
        self.config.deep_view()
    }
}

impl Cloudflare {
    /// The provider of a configuration.
    pub fn from_config(config: CloudflareConfig) -> (provider: Cloudflare)
        ensures
            provider.deep_view() == config.deep_view(),
    {
        Cloudflare { config }
    }

    /// The configuration that the provider was made of.
    pub fn config(&self) -> (config: &CloudflareConfig)
        ensures
            config.deep_view() == self.deep_view(),
    {
        &self.config
    }

    /// A short name of the provider and its zone, for logs.
    pub fn describe(&self) -> (text: String)
        ensures
            text@ == self.deep_view().description(),
    {
        let mut text = String::from_str("Cloudflare[zone=");
        text.append(self.config.zone_id.as_str());
        text.append("]");
        text
    }

    fn records_url(&self) -> (url: String)
        ensures
            url@ == self.deep_view().records_url(),
    {
        let mut url = self.config.base_url.clone();
        url.append("/zones/");
        url.append(self.config.zone_id.as_str());
        url.append("/dns_records");
        url
    }

    fn authorization(&self) -> (value: String)
        ensures
            value@ == self.deep_view().authorization(),
    {
        let mut value = String::from_str("Bearer ");
        value.append(self.config.api_token.as_str());
        value
    }

    /// The first request of an update: the lookup of the `A` records of
    /// `name`.
    pub fn lookup_request(&self, name: &str) -> (request: HttpRequest)
        ensures
            request.deep_view() == self.deep_view().lookup_request(name@),
    {
        let mut query: Vec<(String, String)> = Vec::new();
        query.push((String::from_str("name"), String::from_str(name)));
        query.push((String::from_str("type"), String::from_str("A")));
        let request = HttpRequest {
            method: HttpMethod::Get,
            url: self.records_url(),
            query,
            authorization: self.authorization(),
            body: None,
        };
        assert(request.query.deep_view() =~= self.deep_view().lookup_request(name@).query);
        request
    }

    /// The request that replaces `record` by one whose content is `content`.
    fn update_request(&self, record: DnsRecord, new_ip: Ipv4Address, content: String) -> (request:
        HttpRequest)
        requires
            content@ == new_ip.text(),
        ensures
            request.deep_view() == self.deep_view().update_request(record.deep_view(), new_ip),
    {
        let mut url = self.records_url();
        url.append("/");
        url.append(record.id.as_str());
        let request = HttpRequest {
            method: HttpMethod::Put,
            url,
            query: Vec::new(),
            authorization: self.authorization(),
            body: Some(
                RecordUpdate {
                    record_type: String::from_str("A"),
                    name: record.name,
                    content,
                    ttl: record.ttl,
                },
            ),
        };
        assert(request.query.deep_view() =~= Seq::empty());
        request
    }

    /// Decides what follows the lookup: nothing, where the one record holds
    /// `new_ip` already; the request that replaces it, where it holds
    /// another content; an error in every other case.
    fn after_lookup(&self, new_ip: Ipv4Address, reply: HttpReply<Vec<DnsRecord>>) -> (action:
        UpdateAction)
        ensures
            action.deep_view() == self.deep_view().after_lookup(new_ip, reply.deep_view()),
    {
        let envelope = match open_reply(Stage::Lookup, reply) {
            Ok(envelope) => envelope,
            Err(error) => {
                return UpdateAction::Failed(error);
            },
        };
        let ghost found = envelope.deep_view();
        if !envelope.success || envelope.result.is_none() {
            return UpdateAction::Failed(UpdateError::LookupUnsuccessful { response: envelope });
        }
        let mut records = envelope.result.unwrap();
        if records.len() != 1 {
            return UpdateAction::Failed(UpdateError::Cardinality { records });
        }
        let record = records.pop().unwrap();
        assert(found.result.unwrap()[0] == record.deep_view());
        let content = new_ip.to_text();
        if record.content == content {
            UpdateAction::Unchanged
        } else {
            let old_content = record.content.clone();
            UpdateAction::Replace {
                request: self.update_request(record, new_ip, content),
                old_content,
            }
        }
    }

    /// Decides how the update ended: well, where the envelope says so; with
    /// an error in every other case.
    fn after_update(&self, reply: HttpReply<String>) -> (action: UpdateAction)
        ensures
            action.deep_view() == self::after_update(reply.deep_view()),
    {
        let envelope = match open_reply(Stage::Update, reply) {
            Ok(envelope) => envelope,
            Err(error) => {
                return UpdateAction::Failed(error);
            },
        };
        if envelope.success {
            UpdateAction::Updated(envelope)
        } else {
            UpdateAction::Failed(UpdateError::UpdateUnsuccessful { response: envelope })
        }
    }

    /// Makes sure, step by step, that the `A` record of `name` holds
    /// `new_ip`. Begun with `UpdateEvent::Start`, it asks for the lookup;
    /// given the lookup's reply, it asks for the replacement or ends the
    /// update; given the replacement's reply, it ends the update.
    pub fn update_dns(&self, name: &str, new_ip: Ipv4Address, event: UpdateEvent) -> (action:
        UpdateAction)
        ensures
            action.deep_view() == self.deep_view().update_dns(name@, new_ip, event.deep_view()),
    {
        match event {
            UpdateEvent::Start => UpdateAction::Lookup(self.lookup_request(name)),
            UpdateEvent::Looked(reply) => self.after_lookup(new_ip, reply),
            UpdateEvent::Replaced(reply) => self.after_update(reply),
        }
    }
}

/// The reply to a lookup that went well and found `records`.
pub open spec fn lookup_answer(records: Seq<DnsRecordModel>) -> UpdateEventModel {
    UpdateEventModel::Looked(
        HttpReplyModel::Answered {
            body: Ok(
                ApiResponseModel { result: Some(records), success: true, errors: Seq::empty() },
            ),
        },
    )
}

/// A record as it is once `request` has replaced it.
pub open spec fn replaced_by(record: DnsRecordModel, request: HttpRequestModel) -> DnsRecordModel {
    DnsRecordModel {
        id: record.id,
        name: request.body.unwrap().name,
        content: request.body.unwrap().content,
        ttl: request.body.unwrap().ttl,
    }
}

/// An update sends two requests at most, the lookup first: it begins by
/// asking for the lookup, and whatever the reply to the replacement is, it
/// asks for no further request.
pub proof fn law_update_ends_after_replacement(
    config: CloudflareConfigModel,
    name: Seq<char>,
    new_ip: Ipv4Address,
    reply: HttpReplyModel<Seq<char>>,
)
    ensures
        config.update_dns(name, new_ip, UpdateEventModel::Start) == UpdateActionModel::Lookup(
            config.lookup_request(name),
        ),
        !config.update_dns(name, new_ip, UpdateEventModel::Replaced(reply)).sends(),
{
}

/// An update is idempotent. Where the one record that the lookup finds
/// holds the address already, the update ends there: no replacement is
/// asked for, however often the update is run; and a record is in that
/// state once the request of an update has replaced it.
pub proof fn law_update_is_idempotent(
    config: CloudflareConfigModel,
    name: Seq<char>,
    new_ip: Ipv4Address,
    record: DnsRecordModel,
)
    ensures
        record.content == new_ip.text() ==> config.update_dns(
            name,
            new_ip,
            lookup_answer(seq![record]),
        ) == UpdateActionModel::Unchanged,
        config.update_dns(
            name,
            new_ip,
            lookup_answer(seq![replaced_by(record, config.update_request(record, new_ip))]),
        ) == UpdateActionModel::Unchanged,
{
}

/// Where the one record that the lookup finds holds another content than
/// the address, one request is asked for: it replaces the record of that
/// identifier, keeps its name and its time to live, and sets the address in
/// dotted-decimal form as its content.
pub proof fn law_changed_record_is_replaced(
    config: CloudflareConfigModel,
    name: Seq<char>,
    new_ip: Ipv4Address,
    record: DnsRecordModel,
)
    requires
        record.content != new_ip.text(),
    ensures
        config.update_dns(name, new_ip, lookup_answer(seq![record])) == (
        UpdateActionModel::Replace {
            request: config.update_request(record, new_ip),
            old_content: record.content,
        }),
        config.update_request(record, new_ip).method == HttpMethod::Put,
        config.update_request(record, new_ip).url == config.records_url() + "/"@ + record.id,
        config.update_request(record, new_ip).body == Some(
            RecordUpdateModel {
                record_type: "A"@,
                name: record.name,
                content: new_ip.text(),
                ttl: record.ttl,
            },
        ),
{
}

/// Where the lookup finds no record, or more than one, the update fails
/// with the list that was found, and no replacement is asked for.
pub proof fn law_ambiguous_lookup_fails(
    config: CloudflareConfigModel,
    name: Seq<char>,
    new_ip: Ipv4Address,
    records: Seq<DnsRecordModel>,
)
    requires
        records.len() != 1,
    ensures
        config.update_dns(name, new_ip, lookup_answer(records)) == UpdateActionModel::Failed(
            UpdateErrorModel::Cardinality { records },
        ),
{
}

/// Where the provider refuses a call, or answers it without success, the
/// update fails at either stage with an error that carries the provider's
/// whole error list.
pub proof fn law_provider_errors_are_kept(
    config: CloudflareConfigModel,
    name: Seq<char>,
    new_ip: Ipv4Address,
    status: u16,
    reason: Seq<char>,
    errors: Seq<ApiErrorModel>,
    records: Option<Seq<DnsRecordModel>>,
    payload: Option<Seq<char>>,
)
    ensures
        config.update_dns(
            name,
            new_ip,
            UpdateEventModel::Looked(HttpReplyModel::Refused { status, reason, errors: Ok(errors) }),
        ) == UpdateActionModel::Failed(
            UpdateErrorModel::Api { stage: Stage::Lookup, status, reason, errors },
        ),
        config.update_dns(
            name,
            new_ip,
            UpdateEventModel::Replaced(
                HttpReplyModel::Refused { status, reason, errors: Ok(errors) },
            ),
        ) == UpdateActionModel::Failed(
            UpdateErrorModel::Api { stage: Stage::Update, status, reason, errors },
        ),
        config.update_dns(
            name,
            new_ip,
            UpdateEventModel::Looked(
                HttpReplyModel::Answered {
                    body: Ok(ApiResponseModel { result: records, success: false, errors }),
                },
            ),
        ) is Failed,
        config.update_dns(
            name,
            new_ip,
            UpdateEventModel::Looked(
                HttpReplyModel::Answered {
                    body: Ok(ApiResponseModel { result: records, success: false, errors }),
                },
            ),
        )->Failed_0.reported() == errors,
        config.update_dns(
            name,
            new_ip,
            UpdateEventModel::Replaced(
                HttpReplyModel::Answered {
                    body: Ok(ApiResponseModel { result: payload, success: false, errors }),
                },
            ),
        ) is Failed,
        config.update_dns(
            name,
            new_ip,
            UpdateEventModel::Replaced(
                HttpReplyModel::Answered {
                    body: Ok(ApiResponseModel { result: payload, success: false, errors }),
                },
            ),
        )->Failed_0.reported() == errors,
{
}

/// Where the provider refuses a call and what it says cannot be read, the
/// update still ends with an error, one that carries the reason why the
/// reply could not be read.
pub proof fn law_unreadable_refusal_is_an_error(
    config: CloudflareConfigModel,
    name: Seq<char>,
    new_ip: Ipv4Address,
    status: u16,
    reason: Seq<char>,
    detail: Seq<char>,
)
    ensures
        config.update_dns(
            name,
            new_ip,
            UpdateEventModel::Looked(HttpReplyModel::Refused { status, reason, errors: Err(detail) }),
        ) == UpdateActionModel::Failed(
            UpdateErrorModel::UnreadableRefusal { stage: Stage::Lookup, status, reason, detail },
        ),
        config.update_dns(
            name,
            new_ip,
            UpdateEventModel::Replaced(
                HttpReplyModel::Refused { status, reason, errors: Err(detail) },
            ),
        ) == UpdateActionModel::Failed(
            UpdateErrorModel::UnreadableRefusal { stage: Stage::Update, status, reason, detail },
        ),
{
}

} // verus!
