use vstd::prelude::*;

pub mod batch;
pub mod config;
pub mod domain;
pub mod errors;
pub mod graph;
pub mod graph_laws;
pub mod responses;
pub mod telemetry;
pub mod text;
pub mod workflow;

verus! {

/// Banner that the ingest pipeline prints when it starts.
pub fn startup_message() -> (text: &'static str)
    ensures
        text@ == "Aegis AI Worker Ingest started."@,
{
    "Aegis AI Worker Ingest started."
}

/// Greeting that the worker binary prints before anything else.
pub fn startup_banner() -> (text: &'static str)
    ensures
        text@ == "Hello from Aegis AI Worker Ingest!"@,
{
    "Hello from Aegis AI Worker Ingest!"
}

} // verus!
