use aegis_ai_worker_ingest::{startup_banner, startup_message};

#[test]
fn startup_message_matches_expected_banner() {
    assert_eq!(startup_message(), "Aegis AI Worker Ingest started.");
}

#[test]
fn startup_banner_matches_expected_message() {
    assert_eq!(startup_banner(), "Hello from Aegis AI Worker Ingest!");
}
