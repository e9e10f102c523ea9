//! What is sent to the Algolia search index: the client's headers, the
//! endpoints and the batch of records.

use vstd::prelude::*;

use crate::config::AlgoliaConfig;
use vstd::utf8::encode_utf8;

verus! {

/// A byte that an HTTP header value may hold: visible ASCII, space, tab and
/// any byte from 0x80 on; control bytes and DEL are refused.
pub open spec fn is_header_value_byte(b: u8) -> bool {
    (b >= 32 && b != 127) || b == 9
}

/// Every byte of the UTF-8 encoding of `s` may stand in a header value.
pub open spec fn is_header_value(s: Seq<char>) -> bool {
    forall|i: int|
        0 <= i < encode_utf8(s).len() ==> is_header_value_byte(#[trigger] encode_utf8(s)[i])
}

/// `reqwest::header::HeaderValue::from_str` (that is, `http`'s), which
/// succeeds exactly when every byte of the text is allowed in a header value.
#[verifier::external_body]
fn header_value_accepted(s: &str) -> (r: bool)
    ensures
        r == is_header_value(s@),
{
    reqwest::header::HeaderValue::from_str(s).is_ok()
}

/// A header value holds a byte that HTTP does not allow.
pub enum AlgoliaError {
    InvalidHeaderValue,
}

/// One header of the requests sent to Algolia.
pub struct Header {
    pub name: String,
    pub value: String,
}

/// The default headers of the Algolia client: JSON is accepted, and the
/// application id and API key authenticate every request. Either credential
/// that is not a valid header value is refused, the application id first.
pub fn algolia_headers(config: &AlgoliaConfig) -> (r: Result<Vec<Header>, AlgoliaError>)
    ensures
        !is_header_value(config.application_id@) ==> r is Err,
        !is_header_value(config.api_key@) ==> r is Err,
        is_header_value(config.application_id@) && is_header_value(config.api_key@)
            ==> (r matches Ok(h) && h@.len() == 3 && h@[0].name@ == "accept"@ && h@[0].value@
            == "application/json"@ && h@[1].name@ == "x-algolia-application-id"@ && h@[1].value@
            == config.application_id@ && h@[2].name@ == "x-algolia-api-key"@ && h@[2].value@
            == config.api_key@),
{
    if !header_value_accepted(config.application_id.as_str()) {
        return Err(AlgoliaError::InvalidHeaderValue);
    }
    if !header_value_accepted(config.api_key.as_str()) {
        return Err(AlgoliaError::InvalidHeaderValue);
    }
    let mut headers: Vec<Header> = Vec::new();
    headers.push(
        Header {
            name: String::from_str("accept"),
            value: String::from_str("application/json"),
        },
    );
    headers.push(
        Header {
            name: String::from_str("x-algolia-application-id"),
            value: config.application_id.clone(),
        },
    );
    headers.push(
        Header { name: String::from_str("x-algolia-api-key"), value: config.api_key.clone() },
    );
    Ok(headers)
}

fn index_url(config: &AlgoliaConfig, operation: &str) -> (r: String)
    ensures
        r@ == "https://"@ + config.application_id@ + ".algolia.net/1/indexes/"@
            + config.index_name@ + "/"@ + operation@,
{
    let mut u = String::from_str("https://");
    u.append(config.application_id.as_str());
    u.append(".algolia.net/1/indexes/");
    u.append(config.index_name.as_str());
    u.append("/");
    u.append(operation);
    u
}

/// The endpoint that deletes every record of the index.
pub fn clear_url(config: &AlgoliaConfig) -> (r: String)
    ensures
        r@ == "https://"@ + config.application_id@ + ".algolia.net/1/indexes/"@
            + config.index_name@ + "/"@ + "clear"@,
{
    index_url(config, "clear")
}

/// The endpoint that adds records to the index in one batch.
pub fn batch_url(config: &AlgoliaConfig) -> (r: String)
    ensures
        r@ == "https://"@ + config.application_id@ + ".algolia.net/1/indexes/"@
            + config.index_name@ + "/"@ + "batch"@,
{
    index_url(config, "batch")
}

/// One search record, as Hugo writes it.
pub struct Record {
    pub object_id: String,
    pub permalink: String,
    pub title: String,
    pub content: String,
    pub date: String,
    pub updated: String,
}

/// One operation of a batch: its action and the record it applies to.
pub struct BatchRequest {
    pub action: String,
    pub body: Record,
}

/// The body of a batch call.
pub struct BatchData {
    pub requests: Vec<BatchRequest>,
}

/// The batch that adds every record, in order, each as an `addObject`.
pub fn add_records_batch(records: Vec<Record>) -> (r: BatchData)
    ensures
        r.requests@.len() == records@.len(),
        forall|i: int| 0 <= i < records@.len() ==> (#[trigger] r.requests@[i]).body == records@[i],
        forall|i: int|
            0 <= i < records@.len() ==> (#[trigger] r.requests@[i]).action@ == "addObject"@,
{
    broadcast use vstd::std_specs::vec::group_vec_axioms;
    let mut requests: Vec<BatchRequest> = Vec::new();
    for record in it: records.into_iter()
        invariant
            it.seq() == records@,
            requests@.len() == it.index(),
            forall|j: int| 0 <= j < requests@.len() ==> (#[trigger] requests@[j]).body == records@[j],
            forall|j: int|
                0 <= j < requests@.len() ==> (#[trigger] requests@[j]).action@ == "addObject"@,
    {
        requests.push(BatchRequest { action: String::from_str("addObject"), body: record });
    }
    BatchData { requests }
}

} // verus!
