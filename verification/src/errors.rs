//! Errors of the ingest worker and the messages they are reported with.

use crate::text::{int_decimal, push_decimal};
use vstd::prelude::*;

verus! {

/// An error that Neo4j reports for a statement of a transaction.
pub struct Neo4jError {
    pub code: String,
    pub message: String,
}

/// Why an ingest step failed. Variants that wrap an outside failure carry
/// that failure's own description.
pub enum IngestError {
    /// The object store could not be asked for the topology file.
    DownloadFailed(String),
    /// The object store answered with a status outside 200..300.
    DownloadStatus(u16),
    /// The topology file is not UTF-8.
    InvalidUtf8(String),
    /// The topology file is not a topology payload.
    InvalidPayload(String),
    /// ClickHouse refused to start an insert.
    InsertStart(String),
    /// ClickHouse refused a row.
    InsertRow(String),
    /// ClickHouse refused to finish an insert.
    InsertEnd(String),
    /// The Cypher transaction could not be sent.
    GraphSend(String),
    /// Neo4j answered the transaction with a status outside 200..300;
    /// carries the status as text.
    GraphStatus(String),
    /// Neo4j's answer is not a transaction result.
    GraphResponse(String),
    /// Neo4j ran the transaction and reported errors.
    GraphExecution(Vec<Neo4jError>),
    /// A batch of stream events could not be written.
    BatchWrite(String),
    /// An event could not be handed to the batching loop.
    BatchQueue(String),
    /// The batching loop went away before acknowledging an event.
    BatchAck(String),
    /// Only one of the client certificate and key was configured.
    TlsIdentityIncomplete,
    /// ClickHouse could not be initialized within the allowed attempts.
    ClickHouseUnavailable,
}

pub open spec fn neo4j_error_text(e: Neo4jError) -> Seq<char> {
    e.code@ + ": "@ + e.message@
}

/// The errors joined by `"; "`, each as `code: message`.
pub open spec fn neo4j_errors_text(errs: Seq<Neo4jError>) -> Seq<char>
    decreases errs.len(),
{
    if errs.len() == 0 {
        Seq::empty()
    } else if errs.len() == 1 {
        neo4j_error_text(errs[0])
    } else {
        neo4j_errors_text(errs.drop_last()) + "; "@ + neo4j_error_text(errs.last())
    }
}

/// The message each error is reported with.
pub open spec fn error_text(e: IngestError) -> Seq<char> {
    match e {
        IngestError::DownloadFailed(d) => "Failed to download file from MinIO: "@ + d@,
        IngestError::DownloadStatus(code) => "Failed to download file from MinIO: HTTP "@
            + int_decimal(code as int),
        IngestError::InvalidUtf8(d) => "Topology file is not valid UTF-8: "@ + d@,
        IngestError::InvalidPayload(d) => "Failed to parse topology JSON: "@ + d@,
        IngestError::InsertStart(d) => "Failed to initialize ClickHouse insert query: "@ + d@,
        IngestError::InsertRow(d) => "Failed to write row to ClickHouse: "@ + d@,
        IngestError::InsertEnd(d) => "Failed to finalize ClickHouse transaction: "@ + d@,
        IngestError::GraphSend(d) => "Failed to send Cypher transaction to Neo4j: "@ + d@,
        IngestError::GraphStatus(d) => "Neo4j transaction HTTP error: "@ + d@,
        IngestError::GraphResponse(d) => "Failed to parse Neo4j response: "@ + d@,
        IngestError::GraphExecution(errs) => "Neo4j execution errors: "@ + neo4j_errors_text(
            errs@,
        ),
        IngestError::BatchWrite(d) => "ClickHouse error: "@ + d@,
        IngestError::BatchQueue(d) => "Failed to send event to batching loop: "@ + d@,
        IngestError::BatchAck(d) => "Batch ack channel closed: "@ + d@,
        IngestError::TlsIdentityIncomplete =>
            "TEMPORAL_TLS_CERT_PATH and TEMPORAL_TLS_KEY_PATH must be configured together"@,
        IngestError::ClickHouseUnavailable =>
            "Could not initialize ClickHouse after several retries"@,
    }
}

fn prefixed(prefix: &str, detail: &String) -> (s: String)
    ensures
        s@ == prefix@ + detail@,
{
    let mut s = String::new();
    s.append(prefix);
    s.append(detail.as_str());
    assert(s@ =~= prefix@ + detail@);
    s
}

fn push_neo4j_errors(out: &mut String, errs: &Vec<Neo4jError>)
    ensures
        final(out)@ == old(out)@ + neo4j_errors_text(errs@),
{
    let ghost start = out@;
    let mut i: usize = 0;
    assert(errs@.take(0) =~= Seq::<Neo4jError>::empty());
    while i < errs.len()
        invariant
            i <= errs.len(),
            out@ == start + neo4j_errors_text(errs@.take(i as int)),
        decreases errs.len() - i,
    {
        if i > 0 {
            out.append("; ");
        }
        out.append(errs[i].code.as_str());
        out.append(": ");
        out.append(errs[i].message.as_str());
        proof {
            let t = errs@.take(i + 1);
            assert(t.drop_last() =~= errs@.take(i as int));
            assert(t.last() == errs@[i as int]);
            if i == 0 {
                assert(t.len() == 1);
                assert(t[0] == errs@[0]);
            }
            assert(out@ =~= start + neo4j_errors_text(t));
        }
        i = i + 1;
    }
    assert(errs@.take(i as int) =~= errs@);
}

impl IngestError {
    /// The message this error is reported with.
    pub fn message(&self) -> (s: String)
        ensures
            s@ == error_text(*self),
    {
        match self {
            IngestError::DownloadFailed(d) => prefixed("Failed to download file from MinIO: ", d),
            IngestError::DownloadStatus(code) => {
                let mut s = String::new();
                s.append("Failed to download file from MinIO: HTTP ");
                push_decimal(&mut s, *code as u64);
                assert(s@ =~= error_text(*self));
                s
            },
            IngestError::InvalidUtf8(d) => prefixed("Topology file is not valid UTF-8: ", d),
            IngestError::InvalidPayload(d) => prefixed("Failed to parse topology JSON: ", d),
            IngestError::InsertStart(d) => prefixed(
                "Failed to initialize ClickHouse insert query: ",
                d,
            ),
            IngestError::InsertRow(d) => prefixed("Failed to write row to ClickHouse: ", d),
            IngestError::InsertEnd(d) => prefixed("Failed to finalize ClickHouse transaction: ", d),
            IngestError::GraphSend(d) => prefixed("Failed to send Cypher transaction to Neo4j: ", d),
            IngestError::GraphStatus(d) => prefixed("Neo4j transaction HTTP error: ", d),
            IngestError::GraphResponse(d) => prefixed("Failed to parse Neo4j response: ", d),
            IngestError::GraphExecution(errs) => {
                let mut s = String::new();
                s.append("Neo4j execution errors: ");
                push_neo4j_errors(&mut s, errs);
                assert(s@ =~= error_text(*self));
                s
            },
            IngestError::BatchWrite(d) => prefixed("ClickHouse error: ", d),
            IngestError::BatchQueue(d) => prefixed("Failed to send event to batching loop: ", d),
            IngestError::BatchAck(d) => prefixed("Batch ack channel closed: ", d),
            IngestError::TlsIdentityIncomplete => {
                "TEMPORAL_TLS_CERT_PATH and TEMPORAL_TLS_KEY_PATH must be configured together".to_owned()
            },
            IngestError::ClickHouseUnavailable => {
                "Could not initialize ClickHouse after several retries".to_owned()
            },
        }
    }
}

} // verus!
