//! The error taxonomy: a closed set of failure kinds, each with a fixed HTTP
//! status, a stable API code, a title, and a message template. Every failure
//! anywhere in the gateway is reported as a [`RestApiError`] carrying one of
//! these kinds, optionally with request-specific detail appended to the
//! template.

use vstd::prelude::*;

verus! {

/// Every failure the gateway can report. The set is closed: each kind has
/// exactly one HTTP status, API code, title and message template, registered
/// below and never reassigned.
#[derive(Debug, Clone, Copy, PartialEq, Eq, Structural, PartialOrd, Ord, Hash)]
pub enum RestApiErrorKind {
    BadProtobufSubmitted,
    BatchNotFound,
    BatchQueueFull,
    BlockNotFound,
    CountInvalid,
    HeadNotFound,
    InvalidResourceId,
    InvalidStateAddress,
    NoBatchesSubmitted,
    PagingInvalid,
    ReceiptBodyInvalid,
    ReceiptIdQueryInvalid,
    ReceiptNotFound,
    ReceiptWrongContentType,
    ResourceHeaderInvalid,
    SendBackoffTimeout,
    SortInvalid,
    StateNotFound,
    StatusBodyInvalid,
    StatusIdQueryInvalid,
    StatusResponseMissing,
    StatusWrongContentType,
    SubmissionTooLarge,
    SubmissionWrongContentType,
    SubmittedBatchesInvalid,
    TransactionNotFound,
    UnknownValidator,
    ValidatorDisconnected,
    ValidatorNotReady,
    ValidatorResponseInvalid,
    ValidatorTimedOut,
}

impl RestApiErrorKind {
    /// The HTTP status registered for this kind.
    pub open spec fn spec_status_code(self) -> u16 {
        match self {
            RestApiErrorKind::BadProtobufSubmitted => 400,
            RestApiErrorKind::BatchNotFound => 404,
            RestApiErrorKind::BatchQueueFull => 429,
            RestApiErrorKind::BlockNotFound => 404,
            RestApiErrorKind::CountInvalid => 400,
            RestApiErrorKind::HeadNotFound => 404,
            RestApiErrorKind::InvalidResourceId => 400,
            RestApiErrorKind::InvalidStateAddress => 400,
            RestApiErrorKind::NoBatchesSubmitted => 400,
            RestApiErrorKind::PagingInvalid => 400,
            RestApiErrorKind::ReceiptBodyInvalid => 400,
            RestApiErrorKind::ReceiptIdQueryInvalid => 400,
            RestApiErrorKind::ReceiptNotFound => 404,
            RestApiErrorKind::ReceiptWrongContentType => 400,
            RestApiErrorKind::ResourceHeaderInvalid => 500,
            RestApiErrorKind::SendBackoffTimeout => 408,
            RestApiErrorKind::SortInvalid => 400,
            RestApiErrorKind::StateNotFound => 404,
            RestApiErrorKind::StatusBodyInvalid => 400,
            RestApiErrorKind::StatusIdQueryInvalid => 400,
            RestApiErrorKind::StatusResponseMissing => 500,
            RestApiErrorKind::StatusWrongContentType => 400,
            RestApiErrorKind::SubmissionTooLarge => 413,
            RestApiErrorKind::SubmissionWrongContentType => 400,
            RestApiErrorKind::SubmittedBatchesInvalid => 400,
            RestApiErrorKind::TransactionNotFound => 404,
            RestApiErrorKind::UnknownValidator => 500,
            RestApiErrorKind::ValidatorDisconnected => 503,
            RestApiErrorKind::ValidatorNotReady => 503,
            RestApiErrorKind::ValidatorResponseInvalid => 500,
            RestApiErrorKind::ValidatorTimedOut => 503,
        }
    }

    /// The stable API code registered for this kind. These values are part of
    /// the public HTTP contract and must never change meaning.
    pub open spec fn spec_api_code(self) -> u8 {
        match self {
            RestApiErrorKind::BadProtobufSubmitted => 35,
            RestApiErrorKind::BatchNotFound => 71,
            RestApiErrorKind::BatchQueueFull => 31,
            RestApiErrorKind::BlockNotFound => 70,
            RestApiErrorKind::CountInvalid => 53,
            RestApiErrorKind::HeadNotFound => 50,
            RestApiErrorKind::InvalidResourceId => 60,
            RestApiErrorKind::InvalidStateAddress => 62,
            RestApiErrorKind::NoBatchesSubmitted => 34,
            RestApiErrorKind::PagingInvalid => 54,
            RestApiErrorKind::ReceiptBodyInvalid => 82,
            RestApiErrorKind::ReceiptIdQueryInvalid => 83,
            RestApiErrorKind::ReceiptNotFound => 80,
            RestApiErrorKind::ReceiptWrongContentType => 81,
            RestApiErrorKind::ResourceHeaderInvalid => 21,
            RestApiErrorKind::SendBackoffTimeout => 19,
            RestApiErrorKind::SortInvalid => 57,
            RestApiErrorKind::StateNotFound => 75,
            RestApiErrorKind::StatusBodyInvalid => 46,
            RestApiErrorKind::StatusIdQueryInvalid => 66,
            RestApiErrorKind::StatusResponseMissing => 27,
            RestApiErrorKind::StatusWrongContentType => 43,
            RestApiErrorKind::SubmissionTooLarge => 32,
            RestApiErrorKind::SubmissionWrongContentType => 42,
            RestApiErrorKind::SubmittedBatchesInvalid => 30,
            RestApiErrorKind::TransactionNotFound => 72,
            RestApiErrorKind::UnknownValidator => 10,
            RestApiErrorKind::ValidatorDisconnected => 18,
            RestApiErrorKind::ValidatorNotReady => 15,
            RestApiErrorKind::ValidatorResponseInvalid => 20,
            RestApiErrorKind::ValidatorTimedOut => 17,
        }
    }

    /// The HTTP status for this kind, as the gateway sends it.
    pub fn status_code(self) -> (status: u16)
        ensures
            status == self.spec_status_code(),
            400 <= status <= 503,
    {
        match self {
            RestApiErrorKind::BadProtobufSubmitted => 400,
            RestApiErrorKind::BatchNotFound => 404,
            RestApiErrorKind::BatchQueueFull => 429,
            RestApiErrorKind::BlockNotFound => 404,
            RestApiErrorKind::CountInvalid => 400,
            RestApiErrorKind::HeadNotFound => 404,
            RestApiErrorKind::InvalidResourceId => 400,
            RestApiErrorKind::InvalidStateAddress => 400,
            RestApiErrorKind::NoBatchesSubmitted => 400,
            RestApiErrorKind::PagingInvalid => 400,
            RestApiErrorKind::ReceiptBodyInvalid => 400,
            RestApiErrorKind::ReceiptIdQueryInvalid => 400,
            RestApiErrorKind::ReceiptNotFound => 404,
            RestApiErrorKind::ReceiptWrongContentType => 400,
            RestApiErrorKind::ResourceHeaderInvalid => 500,
            RestApiErrorKind::SendBackoffTimeout => 408,
            RestApiErrorKind::SortInvalid => 400,
            RestApiErrorKind::StateNotFound => 404,
            RestApiErrorKind::StatusBodyInvalid => 400,
            RestApiErrorKind::StatusIdQueryInvalid => 400,
            RestApiErrorKind::StatusResponseMissing => 500,
            RestApiErrorKind::StatusWrongContentType => 400,
            RestApiErrorKind::SubmissionTooLarge => 413,
            RestApiErrorKind::SubmissionWrongContentType => 400,
            RestApiErrorKind::SubmittedBatchesInvalid => 400,
            RestApiErrorKind::TransactionNotFound => 404,
            RestApiErrorKind::UnknownValidator => 500,
            RestApiErrorKind::ValidatorDisconnected => 503,
            RestApiErrorKind::ValidatorNotReady => 503,
            RestApiErrorKind::ValidatorResponseInvalid => 500,
            RestApiErrorKind::ValidatorTimedOut => 503,
        }
    }

    /// The stable API code for this kind.
    pub fn api_code(self) -> (code: u8)
        ensures
            code == self.spec_api_code(),
    {
        match self {
            RestApiErrorKind::BadProtobufSubmitted => 35,
            RestApiErrorKind::BatchNotFound => 71,
            RestApiErrorKind::BatchQueueFull => 31,
            RestApiErrorKind::BlockNotFound => 70,
            RestApiErrorKind::CountInvalid => 53,
            RestApiErrorKind::HeadNotFound => 50,
            RestApiErrorKind::InvalidResourceId => 60,
            RestApiErrorKind::InvalidStateAddress => 62,
            RestApiErrorKind::NoBatchesSubmitted => 34,
            RestApiErrorKind::PagingInvalid => 54,
            RestApiErrorKind::ReceiptBodyInvalid => 82,
            RestApiErrorKind::ReceiptIdQueryInvalid => 83,
            RestApiErrorKind::ReceiptNotFound => 80,
            RestApiErrorKind::ReceiptWrongContentType => 81,
            RestApiErrorKind::ResourceHeaderInvalid => 21,
            RestApiErrorKind::SendBackoffTimeout => 19,
            RestApiErrorKind::SortInvalid => 57,
            RestApiErrorKind::StateNotFound => 75,
            RestApiErrorKind::StatusBodyInvalid => 46,
            RestApiErrorKind::StatusIdQueryInvalid => 66,
            RestApiErrorKind::StatusResponseMissing => 27,
            RestApiErrorKind::StatusWrongContentType => 43,
            RestApiErrorKind::SubmissionTooLarge => 32,
            RestApiErrorKind::SubmissionWrongContentType => 42,
            RestApiErrorKind::SubmittedBatchesInvalid => 30,
            RestApiErrorKind::TransactionNotFound => 72,
            RestApiErrorKind::UnknownValidator => 10,
            RestApiErrorKind::ValidatorDisconnected => 18,
            RestApiErrorKind::ValidatorNotReady => 15,
            RestApiErrorKind::ValidatorResponseInvalid => 20,
            RestApiErrorKind::ValidatorTimedOut => 17,
        }
    }
}

impl RestApiErrorKind {
    /// The short human-readable title registered for this kind.
    pub open spec fn spec_title(self) -> Seq<char> {
        match self {
            RestApiErrorKind::BadProtobufSubmitted => "Protobuf Not Decodable"@,
            RestApiErrorKind::BatchNotFound => "Batch Not Found"@,
            RestApiErrorKind::BatchQueueFull => "Unable to Accept Batches"@,
            RestApiErrorKind::BlockNotFound => "Block Not Found"@,
            RestApiErrorKind::CountInvalid => "Invalid Count Query"@,
            RestApiErrorKind::HeadNotFound => "Head Not Found"@,
            RestApiErrorKind::InvalidResourceId => "Invalid Resource Id"@,
            RestApiErrorKind::InvalidStateAddress => "Invalid State Address"@,
            RestApiErrorKind::NoBatchesSubmitted => "No Batches Submitted"@,
            RestApiErrorKind::PagingInvalid => "Invalid Paging Query"@,
            RestApiErrorKind::ReceiptBodyInvalid => "Bad Receipts Request"@,
            RestApiErrorKind::ReceiptIdQueryInvalid => "Id Query Invalid or Missing"@,
            RestApiErrorKind::ReceiptNotFound => "Transaction Receipt Not Found"@,
            RestApiErrorKind::ReceiptWrongContentType => "Wrong Content Type"@,
            RestApiErrorKind::ResourceHeaderInvalid => "Invalid Resource Header"@,
            RestApiErrorKind::SendBackoffTimeout => "Send timed out"@,
            RestApiErrorKind::SortInvalid => "Invalid Sort Query"@,
            RestApiErrorKind::StateNotFound => "State Not Found"@,
            RestApiErrorKind::StatusBodyInvalid => "Bad Status Request"@,
            RestApiErrorKind::StatusIdQueryInvalid => "Id Query Invalid or Missing"@,
            RestApiErrorKind::StatusResponseMissing => "Unable to Fetch Statuses"@,
            RestApiErrorKind::StatusWrongContentType => "Wrong Content Type"@,
            RestApiErrorKind::SubmissionTooLarge => "Request Too Large"@,
            RestApiErrorKind::SubmissionWrongContentType => "Wrong Content Type"@,
            RestApiErrorKind::SubmittedBatchesInvalid => "Submitted Batches Invalid"@,
            RestApiErrorKind::TransactionNotFound => "Transaction Not Found"@,
            RestApiErrorKind::UnknownValidator => "Unknown Validator Error"@,
            RestApiErrorKind::ValidatorDisconnected => "Validator Disconnected"@,
            RestApiErrorKind::ValidatorNotReady => "Validator Not Ready"@,
            RestApiErrorKind::ValidatorResponseInvalid => "Invalid Validator Response"@,
            RestApiErrorKind::ValidatorTimedOut => "Validator Timed Out"@,
        }
    }

    /// The message template registered for this kind. Some templates end in
    /// text that expects caller-supplied detail to be appended verbatim.
    pub open spec fn spec_message(self) -> Seq<char> {
        match self {
            RestApiErrorKind::BadProtobufSubmitted => "The protobuf BatchList you submitted was malformed and could not be read."@,
            RestApiErrorKind::BatchNotFound => "There is no batch with the id specified in the blockchain."@,
            RestApiErrorKind::BatchQueueFull => "The validator cannot currently accept more batches, due to a full queue.  Please submit your request again."@,
            RestApiErrorKind::BlockNotFound => "There is no block with the id specified in the blockchain."@,
            RestApiErrorKind::CountInvalid => "The 'count' query parameter must be a positive, non-zero integer."@,
            RestApiErrorKind::HeadNotFound => "There is no block with the id specified in the 'head' query parameter."@,
            RestApiErrorKind::InvalidResourceId => "Blockchain items are identified by 128 character hex-strings. A submitted block, batch, or transaction id was invalid: "@,
            RestApiErrorKind::InvalidStateAddress => "The state address submitted was invalid. To fetch specific state data, you must submit the full 70-character address."@,
            RestApiErrorKind::NoBatchesSubmitted => "The protobuf BatchList you submitted was empty and contained no Batches. You must submit at least one Batch."@,
            RestApiErrorKind::PagingInvalid => "Paging request failed as written. One or more of the 'min', 'max', or 'count' query parameters were invalid or out of range."@,
            RestApiErrorKind::ReceiptBodyInvalid => "Requests for transaction receipts sent as a POST must have a JSON formatted body with an array of at least one id string."@,
            RestApiErrorKind::ReceiptIdQueryInvalid => "Requests for transaction receipts sent as a GET request must have an 'id' query parameter with a comma-separated list of at least one transaction id."@,
            RestApiErrorKind::ReceiptNotFound => "There is no transaction receipt for the transaction id specified in the receipt store."@,
            RestApiErrorKind::ReceiptWrongContentType => "Requests for transaction receipts sent as a POST must have a 'Content-Type' header of 'application/json'."@,
            RestApiErrorKind::ResourceHeaderInvalid => "The resource fetched from the validator had an invalid header, and may be corrupted."@,
            RestApiErrorKind::SendBackoffTimeout => "Sending message to validator timed out. Retry limit reached. Try your request again later."@,
            RestApiErrorKind::SortInvalid => "The sort request failed as written. Some of the keys specified were not valid."@,
            RestApiErrorKind::StateNotFound => "There is no state data at the address specified."@,
            RestApiErrorKind::StatusBodyInvalid => "Requests for batch statuses sent as a POST must have a JSON formatted body with an array of at least one id string."@,
            RestApiErrorKind::StatusIdQueryInvalid => "Requests for batch statuses sent as a GET request must have an 'id' query parameter with a comma-separated list of at least one batch id."@,
            RestApiErrorKind::StatusResponseMissing => "An unknown error occurred while attempting to fetch batch statuses, and nothing was returned."@,
            RestApiErrorKind::StatusWrongContentType => "Requests for batch statuses sent as a POST must have a 'Content-Type' header of 'application/json'."@,
            RestApiErrorKind::SubmissionTooLarge => "The request body was larger than the configured maximum size, and was rejected before being decoded."@,
            RestApiErrorKind::SubmissionWrongContentType => "Batches must be submitted in a BatchList protobuf binary, with a 'Content-Type' header of 'application/octet-stream'."@,
            RestApiErrorKind::SubmittedBatchesInvalid => "The submitted BatchList was rejected by the validator. It was poorly formed, or has an invalid signature."@,
            RestApiErrorKind::TransactionNotFound => "There is no transaction with the id specified in the blockchain."@,
            RestApiErrorKind::UnknownValidator => "An unknown error occurred with the validator while processing your request."@,
            RestApiErrorKind::ValidatorDisconnected => "The validator disconnected before sending a response. Try your request again later."@,
            RestApiErrorKind::ValidatorNotReady => "The validator has no genesis block, and is not yet ready to be queried. Try your request again later."@,
            RestApiErrorKind::ValidatorResponseInvalid => "The response from the validator could not be decoded. It may have been corrupted or compromised."@,
            RestApiErrorKind::ValidatorTimedOut => "The request timed out while waiting for a response from the validator. Your request may or may not have been processed."@,
        }
    }

    /// The short human-readable title for this kind.
    pub fn title(self) -> (title: &'static str)
        ensures
            title@ == self.spec_title(),
    {
        match self {
            RestApiErrorKind::BadProtobufSubmitted => "Protobuf Not Decodable",
            RestApiErrorKind::BatchNotFound => "Batch Not Found",
            RestApiErrorKind::BatchQueueFull => "Unable to Accept Batches",
            RestApiErrorKind::BlockNotFound => "Block Not Found",
            RestApiErrorKind::CountInvalid => "Invalid Count Query",
            RestApiErrorKind::HeadNotFound => "Head Not Found",
            RestApiErrorKind::InvalidResourceId => "Invalid Resource Id",
            RestApiErrorKind::InvalidStateAddress => "Invalid State Address",
            RestApiErrorKind::NoBatchesSubmitted => "No Batches Submitted",
            RestApiErrorKind::PagingInvalid => "Invalid Paging Query",
            RestApiErrorKind::ReceiptBodyInvalid => "Bad Receipts Request",
            RestApiErrorKind::ReceiptIdQueryInvalid => "Id Query Invalid or Missing",
            RestApiErrorKind::ReceiptNotFound => "Transaction Receipt Not Found",
            RestApiErrorKind::ReceiptWrongContentType => "Wrong Content Type",
            RestApiErrorKind::ResourceHeaderInvalid => "Invalid Resource Header",
            RestApiErrorKind::SendBackoffTimeout => "Send timed out",
            RestApiErrorKind::SortInvalid => "Invalid Sort Query",
            RestApiErrorKind::StateNotFound => "State Not Found",
            RestApiErrorKind::StatusBodyInvalid => "Bad Status Request",
            RestApiErrorKind::StatusIdQueryInvalid => "Id Query Invalid or Missing",
            RestApiErrorKind::StatusResponseMissing => "Unable to Fetch Statuses",
            RestApiErrorKind::StatusWrongContentType => "Wrong Content Type",
            RestApiErrorKind::SubmissionTooLarge => "Request Too Large",
            RestApiErrorKind::SubmissionWrongContentType => "Wrong Content Type",
            RestApiErrorKind::SubmittedBatchesInvalid => "Submitted Batches Invalid",
            RestApiErrorKind::TransactionNotFound => "Transaction Not Found",
            RestApiErrorKind::UnknownValidator => "Unknown Validator Error",
            RestApiErrorKind::ValidatorDisconnected => "Validator Disconnected",
            RestApiErrorKind::ValidatorNotReady => "Validator Not Ready",
            RestApiErrorKind::ValidatorResponseInvalid => "Invalid Validator Response",
            RestApiErrorKind::ValidatorTimedOut => "Validator Timed Out",
        }
    }

    /// The message template for this kind.
    pub fn message(self) -> (message: &'static str)
        ensures
            message@ == self.spec_message(),
    {
        match self {
            RestApiErrorKind::BadProtobufSubmitted => "The protobuf BatchList you submitted was malformed and could not be read.",
            RestApiErrorKind::BatchNotFound => "There is no batch with the id specified in the blockchain.",
            RestApiErrorKind::BatchQueueFull => "The validator cannot currently accept more batches, due to a full queue.  Please submit your request again.",
            RestApiErrorKind::BlockNotFound => "There is no block with the id specified in the blockchain.",
            RestApiErrorKind::CountInvalid => "The 'count' query parameter must be a positive, non-zero integer.",
            RestApiErrorKind::HeadNotFound => "There is no block with the id specified in the 'head' query parameter.",
            RestApiErrorKind::InvalidResourceId => "Blockchain items are identified by 128 character hex-strings. A submitted block, batch, or transaction id was invalid: ",
            RestApiErrorKind::InvalidStateAddress => "The state address submitted was invalid. To fetch specific state data, you must submit the full 70-character address.",
            RestApiErrorKind::NoBatchesSubmitted => "The protobuf BatchList you submitted was empty and contained no Batches. You must submit at least one Batch.",
            RestApiErrorKind::PagingInvalid => "Paging request failed as written. One or more of the 'min', 'max', or 'count' query parameters were invalid or out of range.",
            RestApiErrorKind::ReceiptBodyInvalid => "Requests for transaction receipts sent as a POST must have a JSON formatted body with an array of at least one id string.",
            RestApiErrorKind::ReceiptIdQueryInvalid => "Requests for transaction receipts sent as a GET request must have an 'id' query parameter with a comma-separated list of at least one transaction id.",
            RestApiErrorKind::ReceiptNotFound => "There is no transaction receipt for the transaction id specified in the receipt store.",
            RestApiErrorKind::ReceiptWrongContentType => "Requests for transaction receipts sent as a POST must have a 'Content-Type' header of 'application/json'.",
            RestApiErrorKind::ResourceHeaderInvalid => "The resource fetched from the validator had an invalid header, and may be corrupted.",
            RestApiErrorKind::SendBackoffTimeout => "Sending message to validator timed out. Retry limit reached. Try your request again later.",
            RestApiErrorKind::SortInvalid => "The sort request failed as written. Some of the keys specified were not valid.",
            RestApiErrorKind::StateNotFound => "There is no state data at the address specified.",
            RestApiErrorKind::StatusBodyInvalid => "Requests for batch statuses sent as a POST must have a JSON formatted body with an array of at least one id string.",
            RestApiErrorKind::StatusIdQueryInvalid => "Requests for batch statuses sent as a GET request must have an 'id' query parameter with a comma-separated list of at least one batch id.",
            RestApiErrorKind::StatusResponseMissing => "An unknown error occurred while attempting to fetch batch statuses, and nothing was returned.",
            RestApiErrorKind::StatusWrongContentType => "Requests for batch statuses sent as a POST must have a 'Content-Type' header of 'application/json'.",
            RestApiErrorKind::SubmissionTooLarge => "The request body was larger than the configured maximum size, and was rejected before being decoded.",
            RestApiErrorKind::SubmissionWrongContentType => "Batches must be submitted in a BatchList protobuf binary, with a 'Content-Type' header of 'application/octet-stream'.",
            RestApiErrorKind::SubmittedBatchesInvalid => "The submitted BatchList was rejected by the validator. It was poorly formed, or has an invalid signature.",
            RestApiErrorKind::TransactionNotFound => "There is no transaction with the id specified in the blockchain.",
            RestApiErrorKind::UnknownValidator => "An unknown error occurred with the validator while processing your request.",
            RestApiErrorKind::ValidatorDisconnected => "The validator disconnected before sending a response. Try your request again later.",
            RestApiErrorKind::ValidatorNotReady => "The validator has no genesis block, and is not yet ready to be queried. Try your request again later.",
            RestApiErrorKind::ValidatorResponseInvalid => "The response from the validator could not be decoded. It may have been corrupted or compromised.",
            RestApiErrorKind::ValidatorTimedOut => "The request timed out while waiting for a response from the validator. Your request may or may not have been processed.",
        }
    }
}

/// One concrete failure: a kind from the taxonomy, optionally with
/// request-specific detail (for example an offending id) that is appended
/// verbatim to the kind's message template when the error is rendered.
#[derive(Debug, Clone)]
pub struct RestApiError {
    pub info: Option<String>,
    pub kind: RestApiErrorKind,
}

impl From<RestApiErrorKind> for RestApiError {
    fn from(kind: RestApiErrorKind) -> (err: Self) {
        Self { info: None, kind }
    }
}

impl vstd::std_specs::convert::FromSpecImpl<RestApiErrorKind> for RestApiError {
    open spec fn obeys_from_spec() -> bool {
        true
    }

    open spec fn from_spec(kind: RestApiErrorKind) -> Self {
        RestApiError { info: None, kind }
    }
}

/// The body of an error HTTP response, rendered as JSON on the wire:
/// `{"code": <api code>, "title": <title>, "message": <template + detail>}`.
pub struct RestApiErrorResponse {
    pub code: u8,
    pub message: String,
    pub title: String,
}

impl RestApiError {
    /// Builds an error carrying request-specific detail.
    pub fn with_info(kind: RestApiErrorKind, info: String) -> (err: Self)
        ensures
            err.kind == kind,
            err.info == Some(info),
    {
        Self { info: Some(info), kind }
    }

    /// The message this error renders to: the kind's template, with any
    /// detail appended verbatim.
    pub open spec fn spec_rendered_message(self) -> Seq<char> {
        match self.info {
            Some(info) => self.kind.spec_message() + info@,
            None => self.kind.spec_message(),
        }
    }

    /// Renders the error into the uniform response body: the kind's stable
    /// API code and title, and the template with detail appended verbatim.
    pub fn to_response(&self) -> (resp: RestApiErrorResponse)
        ensures
            resp.code == self.kind.spec_api_code(),
            resp.title@ == self.kind.spec_title(),
            resp.message@ == self.spec_rendered_message(),
    {
        RestApiErrorResponse {
            code: self.kind.api_code(),
            title: self.kind.title().to_owned(),
            message: match &self.info {
                Some(info) => self.kind.message().to_owned().concat(info.as_str()),
                None => self.kind.message().to_owned(),
            },
        }
    }
}

/// Every rendered error message begins with the registered template text of
/// its kind: appending detail never rewrites the template.
pub proof fn lemma_rendered_message_begins_with_template(err: RestApiError)
    ensures
        err.kind.spec_message().is_prefix_of(err.spec_rendered_message()),
{
}

/// API codes identify kinds: two kinds with the same code are the same kind.
/// Together with the exhaustive matches above (which Verus checks cover every
/// member, so the lookups are total and panic-free) this makes the taxonomy a
/// bijection between kinds and codes.
pub proof fn lemma_api_code_unique(a: RestApiErrorKind, b: RestApiErrorKind)
    ensures
        a.spec_api_code() == b.spec_api_code() ==> a == b,
{
}

} // verus!
