//! What the worker makes of the answers of the object store and of Neo4j.

use crate::errors::{IngestError, Neo4jError};
use vstd::prelude::*;
use vstd::utf8::{decode_utf8, valid_utf8};

verus! {

/// The text of the error that `String::from_utf8` reports for `bytes` (its
/// `Display`: where decoding stopped and how many bytes were at fault). It
/// depends on the bytes alone.
pub uninterp spec fn utf8_error_text(bytes: Seq<u8>) -> Seq<char>;

/// `String::from_utf8`, its error given by its `Display` text: std documents
/// that it fails exactly when the bytes are not valid UTF-8; on success the
/// string holds the decoded characters; the error text is named by
/// `utf8_error_text`.
#[verifier::external_body]
fn string_from_utf8(bytes: Vec<u8>) -> (r: Result<String, String>)
    ensures
        r is Ok <==> valid_utf8(bytes@),
        r matches Ok(s) ==> s@ == decode_utf8(bytes@),
        r matches Err(t) ==> t@ == utf8_error_text(bytes@),
{
    String::from_utf8(bytes).map_err(|e| e.to_string())
}

/// A 2xx HTTP status.
pub open spec fn is_success_status(code: u16) -> bool {
    200 <= code < 300
}

/// The result of downloading a topology file.
pub open spec fn download_accepted(status: u16, body: Seq<u8>) -> bool {
    is_success_status(status) && valid_utf8(body)
}

/// The topology text of a downloaded object: the object store must have
/// answered with a 2xx status, and the body must be UTF-8.
pub fn topology_text(status: u16, body: Vec<u8>) -> (r: Result<String, IngestError>)
    ensures
        r is Ok <==> download_accepted(status, body@),
        r matches Ok(s) ==> s@ == decode_utf8(body@),
        !is_success_status(status) ==> r == Err::<String, IngestError>(
            IngestError::DownloadStatus(status),
        ),
        is_success_status(status) && !valid_utf8(body@) ==> (r matches Err(
            IngestError::InvalidUtf8(detail),
        ) && detail@ == utf8_error_text(body@)),
{
    if !(200 <= status && status < 300) {
        return Err(IngestError::DownloadStatus(status));
    }
    decoded_topology(string_from_utf8(body))
}

/// The topology text of a decoded body: the text, or the decoding error
/// reported as `InvalidUtf8`.
pub fn decoded_topology(decoded: Result<String, String>) -> (r: Result<String, IngestError>)
    ensures
        decoded matches Ok(s) ==> r == Ok::<String, IngestError>(s),
        decoded matches Err(d) ==> r == Err::<String, IngestError>(IngestError::InvalidUtf8(d)),
{
    match decoded {
        Ok(s) => Ok(s),
        Err(detail) => Err(IngestError::InvalidUtf8(detail)),
    }
}

/// Neo4j's answer to a transaction must carry a 2xx status; `status_text`
/// is how the status is reported otherwise.
pub fn check_graph_status(status: u16, status_text: String) -> (r: Result<(), IngestError>)
    ensures
        r is Ok <==> is_success_status(status),
        !is_success_status(status) ==> r == Err::<(), IngestError>(
            IngestError::GraphStatus(status_text),
        ),
{
    if 200 <= status && status < 300 {
        Ok(())
    } else {
        Err(IngestError::GraphStatus(status_text))
    }
}

/// The outcome of a transaction whose answer was read as `reply`: the list
/// of errors Neo4j reported, or why the answer could not be read.
pub fn graph_commit_result(reply: Result<Vec<Neo4jError>, String>) -> (r: Result<(), IngestError>)
    ensures
        r is Ok <==> (reply matches Ok(errs) && errs@.len() == 0),
        reply matches Err(d) ==> r == Err::<(), IngestError>(IngestError::GraphResponse(d)),
        reply matches Ok(errs) ==> (errs@.len() > 0 ==> r == Err::<(), IngestError>(
            IngestError::GraphExecution(errs),
        )),
{
    match reply {
        Err(d) => Err(IngestError::GraphResponse(d)),
        Ok(errs) => {
            if errs.len() == 0 {
                Ok(())
            } else {
                Err(IngestError::GraphExecution(errs))
            }
        },
    }
}

} // verus!
