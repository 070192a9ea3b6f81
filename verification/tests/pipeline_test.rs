use aegis_ai_worker_ingest::batch::{EventBatch, LoopEvent, BATCH_CAPACITY};
use aegis_ai_worker_ingest::config::{
    address_with_scheme, basic_authorization, clickhouse_url, contains_scheme, neo4j_basic_auth,
    object_store_endpoint, system_events_migrations, temporal_url, tls_client_identity,
    tls_enabled, InitAction, InitAttempts, CLICKHOUSE_INIT_ATTEMPTS,
};
use aegis_ai_worker_ingest::errors::{IngestError, Neo4jError};
use aegis_ai_worker_ingest::responses::{check_graph_status, graph_commit_result, topology_text};
use aegis_ai_worker_ingest::workflow::{IngestArgs, IngestStage, IngestTopologyWorkflow, WorkflowCommand};

#[test]
fn download_accepts_utf8_with_success_status() {
    let text = topology_text(200, b"some UTF-8 content".to_vec()).ok().unwrap();
    assert_eq!(text, "some UTF-8 content");
    assert_eq!(topology_text(204, "h\u{e9}".as_bytes().to_vec()).ok().unwrap(), "h\u{e9}");
}

#[test]
fn download_rejects_error_status() {
    match topology_text(404, vec![]) {
        Err(e) => assert_eq!(e.message(), "Failed to download file from MinIO: HTTP 404"),
        Ok(_) => panic!("404 must be refused"),
    }
    assert!(topology_text(300, b"x".to_vec()).is_err());
    assert!(topology_text(199, b"x".to_vec()).is_err());
}

#[test]
fn download_rejects_invalid_utf8() {
    match topology_text(200, vec![0, 159, 146, 150]) {
        Err(e) => assert_eq!(
            e.message(),
            "Topology file is not valid UTF-8: invalid utf-8 sequence of 1 bytes from index 1"
        ),
        Ok(_) => panic!("invalid UTF-8 must be refused"),
    }
}

#[test]
fn graph_status_must_be_success() {
    assert!(check_graph_status(200, "200 OK".to_string()).is_ok());
    match check_graph_status(500, "500 Internal Server Error".to_string()) {
        Err(e) => assert_eq!(e.message(), "Neo4j transaction HTTP error: 500 Internal Server Error"),
        Ok(_) => panic!("500 must be refused"),
    }
}

#[test]
fn graph_commit_reports_execution_errors() {
    assert!(graph_commit_result(Ok(vec![])).is_ok());
    let errs = vec![
        Neo4jError {
            code: "Neo.ClientError.Statement.SyntaxError".to_string(),
            message: "Invalid Cypher syntax".to_string(),
        },
        Neo4jError { code: "E2".to_string(), message: "second".to_string() },
    ];
    match graph_commit_result(Ok(errs)) {
        Err(e) => assert_eq!(
            e.message(),
            "Neo4j execution errors: Neo.ClientError.Statement.SyntaxError: Invalid Cypher syntax; E2: second"
        ),
        Ok(_) => panic!("errors must fail the transaction"),
    }
    match graph_commit_result(Err("expected value at line 1 column 1".to_string())) {
        Err(e) => assert_eq!(e.message(), "Failed to parse Neo4j response: expected value at line 1 column 1"),
        Ok(_) => panic!("unreadable answer must fail"),
    }
}

#[test]
fn error_messages() {
    assert_eq!(IngestError::InvalidPayload("eof".to_string()).message(), "Failed to parse topology JSON: eof");
    assert_eq!(IngestError::BatchWrite("down".to_string()).message(), "ClickHouse error: down");
    assert_eq!(
        IngestError::TlsIdentityIncomplete.message(),
        "TEMPORAL_TLS_CERT_PATH and TEMPORAL_TLS_KEY_PATH must be configured together"
    );
    assert_eq!(
        IngestError::ClickHouseUnavailable.message(),
        "Could not initialize ClickHouse after several retries"
    );
    assert_eq!(IngestError::InsertRow("x".to_string()).message(), "Failed to write row to ClickHouse: x");
}

#[test]
fn batch_flushes_when_full() {
    let mut b: EventBatch<u32> = EventBatch::new();
    assert_eq!(b.capacity(), 10000);
    assert_eq!(BATCH_CAPACITY, 10000);
    for i in 0..(BATCH_CAPACITY as u32 - 1) {
        assert!(b.push(i).is_none());
    }
    assert_eq!(b.len(), BATCH_CAPACITY - 1);
    let full = b.push(9999).unwrap();
    assert_eq!(full.len(), BATCH_CAPACITY);
    assert_eq!(full[0], 0);
    assert_eq!(full[9999], 9999);
    assert_eq!(b.len(), 0);
}

#[test]
fn batch_capacity_is_a_parameter() {
    let mut b: EventBatch<u32> = EventBatch::with_capacity(3);
    assert!(b.push(1).is_none());
    assert!(b.push(2).is_none());
    assert_eq!(b.push(3).unwrap(), vec![1, 2, 3]);
    assert!(b.push(4).is_none());
    assert_eq!(b.len(), 1);
}

#[test]
fn batch_flushes_on_tick_and_close_in_order() {
    let mut b: EventBatch<&str> = EventBatch::new();
    let a = b.step(LoopEvent::Tick);
    assert!(a.flush.is_none() && !a.stop);
    assert!(b.step(LoopEvent::Received("one")).flush.is_none());
    assert!(b.step(LoopEvent::Received("two")).flush.is_none());
    let a = b.step(LoopEvent::Tick);
    assert_eq!(a.flush.unwrap(), vec!["one", "two"]);
    assert!(!a.stop);
    assert!(b.step(LoopEvent::Received("three")).flush.is_none());
    let a = b.step(LoopEvent::Closed);
    assert_eq!(a.flush.unwrap(), vec!["three"]);
    assert!(a.stop);
    let a = b.step(LoopEvent::Closed);
    assert!(a.flush.is_none() && a.stop);
}

fn workflow() -> IngestTopologyWorkflow {
    IngestTopologyWorkflow::new(IngestArgs {
        bucket: "aegis-ingest".to_string(),
        key: "agent/topology.json".to_string(),
        agent_id: "agent-1".to_string(),
        company_id: "acme".to_string(),
    })
}

#[test]
fn workflow_runs_download_telemetry_graph_then_completes() {
    let w = workflow();
    let (stage, cmd) = w.start();
    match cmd {
        WorkflowCommand::Download { bucket, key, timeout_secs } => {
            assert_eq!(bucket, "aegis-ingest");
            assert_eq!(key, "agent/topology.json");
            assert_eq!(timeout_secs, 60);
        }
        _ => panic!("download first"),
    }
    let (stage, cmd) = w.advance(stage, Ok("{\"hosts\":[]}".to_string()));
    match cmd {
        WorkflowCommand::WriteTelemetry { payload, agent_id, company_id, timeout_secs } => {
            assert_eq!(payload, "{\"hosts\":[]}");
            assert_eq!(agent_id, "agent-1");
            assert_eq!(company_id, "acme");
            assert_eq!(timeout_secs, 30);
        }
        _ => panic!("telemetry second"),
    }
    let (stage, cmd) = w.advance(stage, Ok(String::new()));
    match cmd {
        WorkflowCommand::WriteGraph { payload, timeout_secs, .. } => {
            assert_eq!(payload, "{\"hosts\":[]}");
            assert_eq!(timeout_secs, 60);
        }
        _ => panic!("graph third"),
    }
    let (stage, cmd) = w.advance(stage, Ok(String::new()));
    match cmd {
        WorkflowCommand::Complete(m) => {
            assert_eq!(m, "Successfully ingested topology for file aegis-ingest/agent/topology.json")
        }
        _ => panic!("then complete"),
    }
    assert!(matches!(stage, IngestStage::Done));
    let (_, cmd) = w.advance(stage, Ok(String::new()));
    assert!(matches!(cmd, WorkflowCommand::Idle));
}

#[test]
fn workflow_stops_at_first_failure() {
    let w = workflow();
    let (stage, _) = w.start();
    let (stage, _) = w.advance(stage, Ok("{}".to_string()));
    let (stage, cmd) = w.advance(stage, Err("clickhouse down".to_string()));
    match cmd {
        WorkflowCommand::Fail(e) => assert_eq!(e, "clickhouse down"),
        _ => panic!("must fail"),
    }
    let (_, cmd) = w.advance(stage, Ok(String::new()));
    assert!(matches!(cmd, WorkflowCommand::Idle));
}

#[test]
fn endpoints_get_a_scheme_when_missing() {
    assert!(contains_scheme("https://temporal:7233"));
    assert!(!contains_scheme("temporal:7233"));
    assert!(!contains_scheme(":/"));
    assert_eq!(temporal_url("localhost:7233", false), "http://localhost:7233");
    assert_eq!(temporal_url("localhost:7233", true), "https://localhost:7233");
    assert_eq!(temporal_url("grpc://t:1", true), "grpc://t:1");
    assert_eq!(object_store_endpoint("localhost:9000"), "http://localhost:9000");
    assert_eq!(address_with_scheme("http://minio:9000", true), "http://minio:9000");
    assert_eq!(clickhouse_url("localhost", "8123"), "http://localhost:8123");
}

#[test]
fn tls_flag_values() {
    for v in ["1", "true", "TRUE", "yes", "YES"] {
        assert!(tls_enabled(Some(v)));
    }
    for v in ["0", "True", "no", "", "yes "] {
        assert!(!tls_enabled(Some(v)));
    }
    assert!(!tls_enabled(None));
}

#[test]
fn tls_identity_needs_both_paths() {
    assert!(matches!(tls_client_identity(None, None), Ok(None)));
    match tls_client_identity(Some("c.pem".to_string()), Some("k.pem".to_string())) {
        Ok(Some((c, k))) => assert_eq!((c.as_str(), k.as_str()), ("c.pem", "k.pem")),
        _ => panic!("both paths give an identity"),
    }
    assert!(matches!(tls_client_identity(Some("c.pem".to_string()), None), Err(IngestError::TlsIdentityIncomplete)));
    assert!(matches!(tls_client_identity(None, Some("k.pem".to_string())), Err(IngestError::TlsIdentityIncomplete)));
}

#[test]
fn neo4j_credentials_are_base64_encoded() {
    assert_eq!(neo4j_basic_auth("test", "test"), "Basic dGVzdDp0ZXN0");
    assert_eq!(neo4j_basic_auth("neo4j", "neo4j_password"), "Basic bmVvNGo6bmVvNGpfcGFzc3dvcmQ=");
    assert_eq!(basic_authorization("abc="), "Basic abc=");
}

#[test]
fn clickhouse_init_retries_then_gives_up() {
    let mut a = InitAttempts::new();
    assert_eq!(a.attempt(), 1);
    for n in 2..=CLICKHOUSE_INIT_ATTEMPTS {
        match a.record(false) {
            InitAction::Retry { delay_secs, attempt } => {
                assert_eq!(delay_secs, 2);
                assert_eq!(attempt, n);
            }
            _ => panic!("retry"),
        }
        assert_eq!(a.attempt(), n);
    }
    assert!(matches!(a.record(false), InitAction::GiveUp { delay_secs: 2 }));
    let mut b = InitAttempts::new();
    assert!(matches!(b.record(true), InitAction::Migrate));
    let m = system_events_migrations();
    assert_eq!(m.len(), 3);
    assert_eq!(m[0], "ALTER TABLE system_events ADD COLUMN IF NOT EXISTS agent_id String");
    assert_eq!(m[1], "ALTER TABLE system_events ADD COLUMN IF NOT EXISTS company_id String");
    assert_eq!(
        m[2],
        "ALTER TABLE system_events MODIFY SETTING non_replicated_deduplication_window = 1000"
    );
}
