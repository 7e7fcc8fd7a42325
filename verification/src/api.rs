//! The values that pass between the updater and a provider's web API.
//!
//! Each type has a model, its `deep_view`, in which every string is the
//! sequence of its characters; the contracts of the crate speak of models.

use vstd::prelude::*;
use vstd::string::*;
use crate::text::{
    decimal, lemma_occurs_in_concat, lemma_occurs_in_self, occurs_at, occurs_in, push_decimal,
};

verus! {

/// Which of the two calls of an update a value belongs to.
#[derive(Clone, Copy, Debug, PartialEq, Eq, Structural)]
pub enum Stage {
    /// Fetching the record that the name has now.
    Lookup,
    /// Replacing that record.
    Update,
}

#[derive(Clone, Copy, Debug, PartialEq, Eq, Structural)]
pub enum HttpMethod {
    Get,
    Put,
}

/// One error of the provider's error list.
#[derive(Clone, Debug, PartialEq, Eq)]
pub struct ApiError {
    pub code: u32,
    pub message: String,
}

/// The model of `ApiError`: each string is the sequence of its characters.
pub struct ApiErrorModel {
    pub code: u32,
    pub message: Seq<char>,
}

impl DeepView for ApiError {
    type V = ApiErrorModel;

    open spec fn deep_view(&self) -> ApiErrorModel {
        ApiErrorModel { code: self.code, message: self.message@ }
    }
}

/// The provider's view of one DNS entry.
#[derive(Clone, Debug, PartialEq, Eq)]
pub struct DnsRecord {
    pub id: String,
    pub name: String,
    pub content: String,
    pub ttl: u32,
}

/// The model of `DnsRecord`: each string is the sequence of its characters.
pub struct DnsRecordModel {
    pub id: Seq<char>,
    pub name: Seq<char>,
    pub content: Seq<char>,
    pub ttl: u32,
}

impl DeepView for DnsRecord {
    type V = DnsRecordModel;

    open spec fn deep_view(&self) -> DnsRecordModel {
        DnsRecordModel { id: self.id@, name: self.name@, content: self.content@, ttl: self.ttl }
    }
}

/// The body of a request that replaces a record.
#[derive(Clone, Debug, PartialEq, Eq)]
pub struct RecordUpdate {
    pub record_type: String,
    pub name: String,
    pub content: String,
    pub ttl: u32,
}

/// The model of `RecordUpdate`: each string is the sequence of its characters.
pub struct RecordUpdateModel {
    pub record_type: Seq<char>,
    pub name: Seq<char>,
    pub content: Seq<char>,
    pub ttl: u32,
}

impl DeepView for RecordUpdate {
    type V = RecordUpdateModel;

    open spec fn deep_view(&self) -> RecordUpdateModel {
        RecordUpdateModel {
            record_type: self.record_type@,
            name: self.name@,
            content: self.content@,
            ttl: self.ttl,
        }
    }
}

/// A request for the caller to send: the method, the address, the query
/// parameters in order, the value of the `Authorization` header, and the
/// body, which is sent as JSON where there is one.
#[derive(Clone, Debug, PartialEq, Eq)]
pub struct HttpRequest {
    pub method: HttpMethod,
    pub url: String,
    pub query: Vec<(String, String)>,
    pub authorization: String,
    pub body: Option<RecordUpdate>,
}

/// The model of `HttpRequest`: each string is the sequence of its characters.
pub struct HttpRequestModel {
    pub method: HttpMethod,
    pub url: Seq<char>,
    pub query: Seq<(Seq<char>, Seq<char>)>,
    pub authorization: Seq<char>,
    pub body: Option<RecordUpdateModel>,
}

impl DeepView for HttpRequest {
    type V = HttpRequestModel;

    open spec fn deep_view(&self) -> HttpRequestModel {
        HttpRequestModel {
            method: self.method,
            url: self.url@,
            query: self.query.deep_view(),
            authorization: self.authorization@,
            body: self.body.deep_view(),
        }
    }
}

/// The envelope in which the provider answers: a success flag, the payload
/// if there is one, and a list of errors.
#[derive(Clone, Debug, PartialEq, Eq)]
pub struct ApiResponse<T> {
    pub result: Option<T>,
    pub success: bool,
    pub errors: Vec<ApiError>,
}

/// The model of `ApiResponse`: each string is the sequence of its characters.
pub struct ApiResponseModel<M> {
    pub result: Option<M>,
    pub success: bool,
    pub errors: Seq<ApiErrorModel>,
}

impl<T: DeepView> DeepView for ApiResponse<T> {
    type V = ApiResponseModel<T::V>;

    open spec fn deep_view(&self) -> ApiResponseModel<T::V> {
        ApiResponseModel {
            result: self.result.deep_view(),
            success: self.success,
            errors: self.errors.deep_view(),
        }
    }
}

/// What became of a request.
#[derive(Debug, PartialEq, Eq)]
pub enum HttpReply<T> {
    /// The body of the request could not be serialized; `detail` says why.
    Unencoded { detail: String },
    /// The request could not be sent; `detail` says why.
    Unsent { detail: String },
    /// The reply's status is not one of success. `reason` is the phrase
    /// that goes with the status. `errors` is the error list of the reply's
    /// envelope, or the reason why the envelope could not be read.
    Refused { status: u16, reason: String, errors: Result<Vec<ApiError>, String> },
    /// The reply's status is one of success. `body` is its envelope, or the
    /// reason why the envelope could not be read.
    Answered { body: Result<ApiResponse<T>, String> },
}

/// The model of `HttpReply`: each string is the sequence of its characters.
pub enum HttpReplyModel<M> {
    Unencoded { detail: Seq<char> },
    Unsent { detail: Seq<char> },
    Refused { status: u16, reason: Seq<char>, errors: Result<Seq<ApiErrorModel>, Seq<char>> },
    Answered { body: Result<ApiResponseModel<M>, Seq<char>> },
}

impl<T: DeepView> DeepView for HttpReply<T> {
    type V = HttpReplyModel<T::V>;

    open spec fn deep_view(&self) -> HttpReplyModel<T::V> {
        match self {
            HttpReply::Unencoded { detail } => HttpReplyModel::Unencoded { detail: detail@ },
            HttpReply::Unsent { detail } => HttpReplyModel::Unsent { detail: detail@ },
            HttpReply::Refused { status, reason, errors } => HttpReplyModel::Refused {
                status: *status,
                reason: reason@,
                errors: match errors {
                    Ok(list) => Ok(list.deep_view()),
                    Err(detail) => Err(detail@),
                },
            },
            HttpReply::Answered { body } => HttpReplyModel::Answered {
                body: match body {
                    Ok(envelope) => Ok(envelope.deep_view()),
                    Err(detail) => Err(detail@),
                },
            },
        }
    }
}

/// Why an update failed.
#[derive(Clone, Debug, PartialEq, Eq)]
pub enum UpdateError {
    /// The body of a request could not be serialized.
    Encoding { stage: Stage, detail: String },
    /// A request could not be sent.
    Transport { stage: Stage, detail: String },
    /// A reply with a status of success could not be read.
    Unreadable { stage: Stage, detail: String },
    /// The provider refused a request and said why.
    Api { stage: Stage, status: u16, reason: String, errors: Vec<ApiError> },
    /// The provider refused a request, and what it said could not be read.
    UnreadableRefusal { stage: Stage, status: u16, reason: String, detail: String },
    /// The lookup's status was one of success, but its envelope says
    /// otherwise or lacks the list.
    LookupUnsuccessful { response: ApiResponse<Vec<DnsRecord>> },
    /// The update's status was one of success, but its envelope says
    /// otherwise.
    UpdateUnsuccessful { response: ApiResponse<String> },
    /// The lookup did not return exactly one record.
    Cardinality { records: Vec<DnsRecord> },
}

/// The model of `UpdateError`: each string is the sequence of its characters.
pub enum UpdateErrorModel {
    Encoding { stage: Stage, detail: Seq<char> },
    Transport { stage: Stage, detail: Seq<char> },
    Unreadable { stage: Stage, detail: Seq<char> },
    Api { stage: Stage, status: u16, reason: Seq<char>, errors: Seq<ApiErrorModel> },
    UnreadableRefusal { stage: Stage, status: u16, reason: Seq<char>, detail: Seq<char> },
    LookupUnsuccessful { response: ApiResponseModel<Seq<DnsRecordModel>> },
    UpdateUnsuccessful { response: ApiResponseModel<Seq<char>> },
    Cardinality { records: Seq<DnsRecordModel> },
}

impl DeepView for UpdateError {
    type V = UpdateErrorModel;

    open spec fn deep_view(&self) -> UpdateErrorModel {
        match self {
            UpdateError::Encoding { stage, detail } => UpdateErrorModel::Encoding {
                stage: *stage,
                detail: detail@,
            },
            UpdateError::Transport { stage, detail } => UpdateErrorModel::Transport {
                stage: *stage,
                detail: detail@,
            },
            UpdateError::Unreadable { stage, detail } => UpdateErrorModel::Unreadable {
                stage: *stage,
                detail: detail@,
            },
            UpdateError::Api { stage, status, reason, errors } => UpdateErrorModel::Api {
                stage: *stage,
                status: *status,
                reason: reason@,
                errors: errors.deep_view(),
            },
            UpdateError::UnreadableRefusal { stage, status, reason, detail } => {
                UpdateErrorModel::UnreadableRefusal {
                    stage: *stage,
                    status: *status,
                    reason: reason@,
                    detail: detail@,
                }
            },
            UpdateError::LookupUnsuccessful { response } => UpdateErrorModel::LookupUnsuccessful {
                response: response.deep_view(),
            },
            UpdateError::UpdateUnsuccessful { response } => UpdateErrorModel::UpdateUnsuccessful {
                response: response.deep_view(),
            },
            UpdateError::Cardinality { records } => UpdateErrorModel::Cardinality {
                records: records.deep_view(),
            },
        }
    }
}

/// What an update begins with, or what came back of the request that it
/// last asked for.
#[derive(Debug, PartialEq, Eq)]
pub enum UpdateEvent {
    /// Nothing was sent yet.
    Start,
    /// The reply to the lookup.
    Looked(HttpReply<Vec<DnsRecord>>),
    /// The reply to the replacement. The payload of its envelope is of no
    /// fixed shape and is held as text.
    Replaced(HttpReply<String>),
}

/// The model of `UpdateEvent`: each string is the sequence of its characters.
pub enum UpdateEventModel {
    Start,
    Looked(HttpReplyModel<Seq<DnsRecordModel>>),
    Replaced(HttpReplyModel<Seq<char>>),
}

impl DeepView for UpdateEvent {
    type V = UpdateEventModel;

    open spec fn deep_view(&self) -> UpdateEventModel {
        match self {
            UpdateEvent::Start => UpdateEventModel::Start,
            UpdateEvent::Looked(reply) => UpdateEventModel::Looked(reply.deep_view()),
            UpdateEvent::Replaced(reply) => UpdateEventModel::Replaced(reply.deep_view()),
        }
    }
}

/// What an update asks for next. The first two ask for a request to be
/// sent and its reply handed back; the other three end the update.
#[derive(Clone, Debug, PartialEq, Eq)]
pub enum UpdateAction {
    /// Send the lookup.
    Lookup(HttpRequest),
    /// Send the request that replaces the record, which held `old_content`.
    Replace { request: HttpRequest, old_content: String },
    /// The record holds the address already: nothing more is sent.
    Unchanged,
    /// The record was replaced; this is the provider's answer.
    Updated(ApiResponse<String>),
    /// The update failed.
    Failed(UpdateError),
}

/// The model of `UpdateAction`: each string is the sequence of its characters.
pub enum UpdateActionModel {
    Lookup(HttpRequestModel),
    Replace { request: HttpRequestModel, old_content: Seq<char> },
    Unchanged,
    Updated(ApiResponseModel<Seq<char>>),
    Failed(UpdateErrorModel),
}

impl DeepView for UpdateAction {
    type V = UpdateActionModel;

    open spec fn deep_view(&self) -> UpdateActionModel {
        match self {
            UpdateAction::Lookup(request) => UpdateActionModel::Lookup(request.deep_view()),
            UpdateAction::Replace { request, old_content } => UpdateActionModel::Replace {
                request: request.deep_view(),
                old_content: old_content@,
            },
            UpdateAction::Unchanged => UpdateActionModel::Unchanged,
            UpdateAction::Updated(response) => UpdateActionModel::Updated(response.deep_view()),
            UpdateAction::Failed(error) => UpdateActionModel::Failed(error.deep_view()),
        }
    }
}

impl UpdateActionModel {
    /// Whether the action asks for a request to be sent.
    pub open spec fn sends(self) -> bool {
        self is Lookup || self is Replace
    }
}

/// The error, if any, that a reply to the call of `stage` stands for by
/// itself: the request was not sent, it was refused, or the reply could not
/// be read.
pub open spec fn reply_failure<M>(stage: Stage, reply: HttpReplyModel<M>) -> Option<
    UpdateErrorModel,
> {
    match reply {
        HttpReplyModel::Unencoded { detail } => Some(UpdateErrorModel::Encoding { stage, detail }),
        HttpReplyModel::Unsent { detail } => Some(UpdateErrorModel::Transport { stage, detail }),
        HttpReplyModel::Refused { status, reason, errors: Ok(errors) } => Some(
            UpdateErrorModel::Api { stage, status, reason, errors },
        ),
        HttpReplyModel::Refused { status, reason, errors: Err(detail) } => Some(
            UpdateErrorModel::UnreadableRefusal { stage, status, reason, detail },
        ),
        HttpReplyModel::Answered { body: Err(detail) } => Some(
            UpdateErrorModel::Unreadable { stage, detail },
        ),
        HttpReplyModel::Answered { body: Ok(_) } => None,
    }
}

/// Whether an HTTP status is one of success: 200 to 299.
pub open spec fn status_is_success(status: u16) -> bool {
    200 <= status < 300
}

pub fn is_success_status(status: u16) -> (yes: bool)
    ensures
        yes == status_is_success(status),
{
    200 <= status && status < 300
}

/// Takes the envelope out of a reply to the call of `stage`, or gives the
/// error that the reply stands for.
pub fn open_reply<T: DeepView>(stage: Stage, reply: HttpReply<T>) -> (opened: Result<
    ApiResponse<T>,
    UpdateError,
>)
    ensures
        match opened {
            Ok(envelope) => reply.deep_view() == (HttpReplyModel::Answered {
                body: Ok(envelope.deep_view()),
            }),
            Err(error) => reply_failure(stage, reply.deep_view()) == Some(error.deep_view()),
        },
{
    match reply {
        HttpReply::Unencoded { detail } => Err(UpdateError::Encoding { stage, detail }),
        HttpReply::Unsent { detail } => Err(UpdateError::Transport { stage, detail }),
        HttpReply::Refused { status, reason, errors } => match errors {
            Ok(errors) => Err(UpdateError::Api { stage, status, reason, errors }),
            Err(detail) => Err(UpdateError::UnreadableRefusal { stage, status, reason, detail }),
        },
        HttpReply::Answered { body } => match body {
            Ok(envelope) => Ok(envelope),
            Err(detail) => Err(UpdateError::Unreadable { stage, detail }),
        },
    }
}

impl ApiErrorModel {
    /// An error in a message: its code in decimal, a colon and a space, and
    /// its message.
    pub open spec fn text(self) -> Seq<char> {
        decimal(self.code as nat) + ": "@ + self.message
    }
}

impl DnsRecordModel {
    /// A record in a message: its four fields in braces, each after its
    /// name.
    pub open spec fn text(self) -> Seq<char> {
        "{id: "@ + self.id + ", name: "@ + self.name + ", content: "@ + self.content + ", ttl: "@
            + decimal(self.ttl as nat) + "}"@
    }
}

/// The errors of a list, with a comma and a space between each two.
pub open spec fn error_items(errors: Seq<ApiErrorModel>) -> Seq<char>
    decreases errors.len(),
{
    if errors.len() == 0 {
        Seq::empty()
    } else if errors.len() == 1 {
        errors[0].text()
    } else {
        error_items(errors.drop_last()) + ", "@ + errors.last().text()
    }
}

/// A list of errors in a message: its items in square brackets.
pub open spec fn error_list_text(errors: Seq<ApiErrorModel>) -> Seq<char> {
    "["@ + error_items(errors) + "]"@
}

/// The records of a list, with a comma and a space between each two.
pub open spec fn record_items(records: Seq<DnsRecordModel>) -> Seq<char>
    decreases records.len(),
{
    if records.len() == 0 {
        Seq::empty()
    } else if records.len() == 1 {
        records[0].text()
    } else {
        record_items(records.drop_last()) + ", "@ + records.last().text()
    }
}

/// A list of records in a message: its items in square brackets.
pub open spec fn record_list_text(records: Seq<DnsRecordModel>) -> Seq<char> {
    "["@ + record_items(records) + "]"@
}

/// An envelope in a message: its payload, whose text is `result` where it
/// has one, its success flag and its errors, each after its name.
pub open spec fn envelope_text(
    result: Option<Seq<char>>,
    success: bool,
    errors: Seq<ApiErrorModel>,
) -> Seq<char> {
    "result: "@ + (match result {
        Some(payload) => "Some("@ + payload + ")"@,
        None => "None"@,
    }) + ", success: "@ + (if success {
        "true"@
    } else {
        "false"@
    }) + ", errors: "@ + error_list_text(errors)
}

/// A status in a message: its number in decimal, a space, and its phrase.
pub open spec fn status_text(status: u16, reason: Seq<char>) -> Seq<char> {
    decimal(status as nat) + " "@ + reason
}

impl UpdateErrorModel {
    /// The call that the error belongs to.
    pub open spec fn stage(self) -> Stage {
        match self {
            UpdateErrorModel::Encoding { stage, .. } => stage,
            UpdateErrorModel::Transport { stage, .. } => stage,
            UpdateErrorModel::Unreadable { stage, .. } => stage,
            UpdateErrorModel::Api { stage, .. } => stage,
            UpdateErrorModel::UnreadableRefusal { stage, .. } => stage,
            UpdateErrorModel::LookupUnsuccessful { .. } => Stage::Lookup,
            UpdateErrorModel::UpdateUnsuccessful { .. } => Stage::Update,
            UpdateErrorModel::Cardinality { .. } => Stage::Lookup,
        }
    }

    /// The provider's error list, where the error carries one.
    pub open spec fn reported(self) -> Seq<ApiErrorModel> {
        match self {
            UpdateErrorModel::Api { errors, .. } => errors,
            UpdateErrorModel::LookupUnsuccessful { response } => response.errors,
            UpdateErrorModel::UpdateUnsuccessful { response } => response.errors,
            _ => Seq::empty(),
        }
    }

    /// The error in one line: what failed, and what is known of the cause.
    /// The message of a refusal begins with the status.
    pub open spec fn message(self) -> Seq<char> {
        match self {
            UpdateErrorModel::Encoding { detail, .. } => "Failed to serialize body: "@ + detail,
            UpdateErrorModel::Transport { detail, .. } => "Failed to send request: "@ + detail,
            UpdateErrorModel::Unreadable { detail, .. } => "Failed to read response: "@ + detail,
            UpdateErrorModel::Api { status, reason, errors, .. } => status_text(status, reason)
                + " Error from Cloudflare: "@ + error_list_text(errors),
            UpdateErrorModel::UnreadableRefusal { status, reason, detail, .. } => status_text(
                status,
                reason,
            ) + " Error from Cloudflare: "@ + "Unable to read response: "@ + detail,
            UpdateErrorModel::LookupUnsuccessful { response } => "Not successful or no result: "@
                + envelope_text(
                match response.result {
                    Some(records) => Some(record_list_text(records)),
                    None => None,
                },
                response.success,
                response.errors,
            ),
            UpdateErrorModel::UpdateUnsuccessful { response } => "Not successful: "@
                + envelope_text(response.result, response.success, response.errors),
            UpdateErrorModel::Cardinality { records } => "Expected exactly one result, got "@
                + record_list_text(records),
        }
    }
}

/// The words that say which call an error belongs to.
pub open spec fn stage_context(stage: Stage) -> Seq<char> {
    match stage {
        Stage::Lookup => "Failed to fetch DNS record"@,
        Stage::Update => "Failed to replace DNS record"@,
    }
}

fn push_error_list(buffer: &mut String, errors: &Vec<ApiError>)
    ensures
        final(buffer)@ == old(buffer)@ + error_list_text(errors.deep_view()),
{
    let ghost start = buffer@;
    let ghost all = errors.deep_view();
    buffer.append("[");
    let mut i: usize = 0;
    assert(buffer@ =~= start + "["@ + error_items(all.take(0)));
    while i < errors.len()
        invariant
            i <= errors.len(),
            all == errors.deep_view(),
            buffer@ == start + "["@ + error_items(all.take(i as int)),
        decreases errors.len() - i,
    {
        if i > 0 {
            buffer.append(", ");
        }
        push_decimal(buffer, errors[i].code);
        buffer.append(": ");
        buffer.append(errors[i].message.as_str());
        proof {
            let taken = all.take(i + 1);
            assert(taken.drop_last() =~= all.take(i as int));
            assert(taken.last() == errors@[i as int].deep_view());
            assert(buffer@ =~= start + "["@ + error_items(taken));
        }
        i += 1;
    }
    assert(all.take(i as int) =~= all);
    buffer.append("]");
    assert(buffer@ =~= start + error_list_text(all));
}

fn push_record_list(buffer: &mut String, records: &Vec<DnsRecord>)
    ensures
        final(buffer)@ == old(buffer)@ + record_list_text(records.deep_view()),
{
    let ghost start = buffer@;
    let ghost all = records.deep_view();
    buffer.append("[");
    let mut i: usize = 0;
    assert(buffer@ =~= start + "["@ + record_items(all.take(0)));
    while i < records.len()
        invariant
            i <= records.len(),
            all == records.deep_view(),
            buffer@ == start + "["@ + record_items(all.take(i as int)),
        decreases records.len() - i,
    {
        if i > 0 {
            buffer.append(", ");
        }
        buffer.append("{id: ");
        buffer.append(records[i].id.as_str());
        buffer.append(", name: ");
        buffer.append(records[i].name.as_str());
        buffer.append(", content: ");
        buffer.append(records[i].content.as_str());
        buffer.append(", ttl: ");
        push_decimal(buffer, records[i].ttl);
        buffer.append("}");
        proof {
            let taken = all.take(i + 1);
            assert(taken.drop_last() =~= all.take(i as int));
            assert(taken.last() == records@[i as int].deep_view());
            assert(buffer@ =~= start + "["@ + record_items(taken));
        }
        i += 1;
    }
    assert(all.take(i as int) =~= all);
    buffer.append("]");
    assert(buffer@ =~= start + record_list_text(all));
}

/// Appends what follows the payload in the text of an envelope.
fn push_envelope_end(buffer: &mut String, success: bool, errors: &Vec<ApiError>)
    ensures
        final(buffer)@ == old(buffer)@ + ", success: "@ + (if success {
            "true"@
        } else {
            "false"@
        }) + ", errors: "@ + error_list_text(errors.deep_view()),
{
    buffer.append(", success: ");
    if success {
        buffer.append("true");
    } else {
        buffer.append("false");
    }
    buffer.append(", errors: ");
    push_error_list(buffer, errors);
}

fn push_status(buffer: &mut String, status: u16, reason: &String)
    ensures
        final(buffer)@ == old(buffer)@ + status_text(status, reason@),
{
    push_decimal(buffer, status as u32);
    buffer.append(" ");
    buffer.append(reason.as_str());
    assert(final(buffer)@ =~= old(buffer)@ + status_text(status, reason@));
}

impl UpdateError {
    /// The call that the error belongs to.
    pub fn stage(&self) -> (stage: Stage)
        ensures
            stage == self.deep_view().stage(),
    {
        match self {
            UpdateError::Encoding { stage, .. } => *stage,
            UpdateError::Transport { stage, .. } => *stage,
            UpdateError::Unreadable { stage, .. } => *stage,
            UpdateError::Api { stage, .. } => *stage,
            UpdateError::UnreadableRefusal { stage, .. } => *stage,
            UpdateError::LookupUnsuccessful { .. } => Stage::Lookup,
            UpdateError::UpdateUnsuccessful { .. } => Stage::Update,
            UpdateError::Cardinality { .. } => Stage::Lookup,
        }
    }

    /// The words that say which call failed, to stand before the message.
    pub fn context(&self) -> (text: String)
        ensures
            text@ == stage_context(self.deep_view().stage()),
    {
        match self.stage() {
            Stage::Lookup => String::from_str("Failed to fetch DNS record"),
            Stage::Update => String::from_str("Failed to replace DNS record"),
        }
    }

    /// The error in one line.
    pub fn message(&self) -> (text: String)
        ensures
            text@ == self.deep_view().message(),
    {
        let mut text = String::new();
        match self {
            UpdateError::Encoding { detail, .. } => {
                text.append("Failed to serialize body: ");
                text.append(detail.as_str());
            },
            UpdateError::Transport { detail, .. } => {
                text.append("Failed to send request: ");
                text.append(detail.as_str());
            },
            UpdateError::Unreadable { detail, .. } => {
                text.append("Failed to read response: ");
                text.append(detail.as_str());
            },
            UpdateError::Api { status, reason, errors, .. } => {
                push_status(&mut text, *status, reason);
                text.append(" Error from Cloudflare: ");
                push_error_list(&mut text, errors);
            },
            UpdateError::UnreadableRefusal { status, reason, detail, .. } => {
                push_status(&mut text, *status, reason);
                text.append(" Error from Cloudflare: ");
                text.append("Unable to read response: ");
                text.append(detail.as_str());
            },
            UpdateError::LookupUnsuccessful { response } => {
                text.append("Not successful or no result: ");
                text.append("result: ");
                match &response.result {
                    Some(records) => {
                        text.append("Some(");
                        push_record_list(&mut text, records);
                        text.append(")");
                    },
                    None => {
                        text.append("None");
                    },
                }
                push_envelope_end(&mut text, response.success, &response.errors);
            },
            UpdateError::UpdateUnsuccessful { response } => {
                text.append("Not successful: ");
                text.append("result: ");
                match &response.result {
                    Some(payload) => {
                        text.append("Some(");
                        text.append(payload.as_str());
                        text.append(")");
                    },
                    None => {
                        text.append("None");
                    },
                }
                push_envelope_end(&mut text, response.success, &response.errors);
            },
            UpdateError::Cardinality { records } => {
                text.append("Expected exactly one result, got ");
                push_record_list(&mut text, records);
            },
        }
        assert(text@ =~= self.deep_view().message());
        text
    }
}

/// Each error of a list stands among its items, code and message.
pub proof fn lemma_error_items_hold_each(errors: Seq<ApiErrorModel>, i: int)
    requires
        0 <= i < errors.len(),
    ensures
        occurs_in(error_items(errors), errors[i].text()),
    decreases errors.len(),
{
    if errors.len() == 1 {
        lemma_occurs_in_self(errors[0].text());
    } else {
        let front = error_items(errors.drop_last());
        let last = errors.last().text();
        if i == errors.len() - 1 {
            lemma_occurs_in_self(last);
            lemma_occurs_in_concat(front + ", "@, last, Seq::empty(), last);
            assert(front + ", "@ + last + Seq::<char>::empty() =~= error_items(errors));
        } else {
            lemma_error_items_hold_each(errors.drop_last(), i);
            lemma_occurs_in_concat(Seq::empty(), front, ", "@ + last, errors[i].text());
            assert(Seq::<char>::empty() + front + (", "@ + last) =~= error_items(errors));
        }
    }
}

/// The message of an error that carries the provider's error list holds
/// every error of the list, code and message.
pub proof fn law_message_holds_every_error(error: UpdateErrorModel, i: int)
    requires
        0 <= i < error.reported().len(),
    ensures
        occurs_in(error.message(), error.reported()[i].text()),
{
    let errors = error.reported();
    let piece = errors[i].text();
    lemma_error_items_hold_each(errors, i);
    let message = error.message();
    let list = error_list_text(errors);
    let before = message.subrange(0, message.len() - list.len());
    assert(message.len() >= list.len() && message =~= before + list);
    lemma_occurs_in_concat(before + "["@, error_items(errors), "]"@, piece);
    assert(before + "["@ + error_items(errors) + "]"@ =~= message);
}

/// The message of a refusal begins with the status, number and phrase, and
/// the words that name the provider.
pub proof fn law_refusal_message_begins_with_status(error: UpdateErrorModel)
    requires
        error is Api || error is UnreadableRefusal,
    ensures
        error is Api ==> occurs_at(
            error.message(),
            status_text(error->Api_status, error->Api_reason) + " Error from Cloudflare: "@,
            0,
        ),
        error is UnreadableRefusal ==> occurs_at(
            error.message(),
            status_text(error->UnreadableRefusal_status, error->UnreadableRefusal_reason)
                + " Error from Cloudflare: "@ + "Unable to read response: "@,
            0,
        ),
{
    match error {
        UpdateErrorModel::Api { status, reason, errors, .. } => {
            let head = status_text(status, reason) + " Error from Cloudflare: "@;
            assert(error.message().subrange(0, head.len() as int) =~= head);
        },
        UpdateErrorModel::UnreadableRefusal { status, reason, detail, .. } => {
            let head = status_text(status, reason) + " Error from Cloudflare: "@
                + "Unable to read response: "@;
            assert(error.message().subrange(0, head.len() as int) =~= head);
        },
        _ => {},
    }
}

/// The message of an error whose cause is a reply that could not be read
/// holds the reason why it could not.
pub proof fn law_message_holds_parse_failure(error: UpdateErrorModel)
    requires
        error is UnreadableRefusal || error is Unreadable,
    ensures
        error is UnreadableRefusal ==> occurs_in(error.message(), error->UnreadableRefusal_detail),
        error is Unreadable ==> occurs_in(error.message(), error->Unreadable_detail),
{
    match error {
        UpdateErrorModel::UnreadableRefusal { status, reason, detail, .. } => {
            lemma_occurs_in_self(detail);
            let before = status_text(status, reason) + " Error from Cloudflare: "@
                + "Unable to read response: "@;
            lemma_occurs_in_concat(before, detail, Seq::empty(), detail);
            assert(before + detail + Seq::<char>::empty() =~= error.message());
        },
        UpdateErrorModel::Unreadable { detail, .. } => {
            lemma_occurs_in_self(detail);
            lemma_occurs_in_concat("Failed to read response: "@, detail, Seq::empty(), detail);
            assert("Failed to read response: "@ + detail + Seq::<char>::empty()
                =~= error.message());
        },
        _ => {},
    }
}

} // verus!
