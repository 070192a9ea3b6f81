//! The topology ingestion workflow: download the topology file, write its
//! telemetry rows to ClickHouse, then write its graph to Neo4j. Each step is
//! an activity; the workflow decides which activity runs next from the
//! outcome of the previous one.

use vstd::prelude::*;

verus! {

/// Seconds the download activity may run.
pub const DOWNLOAD_TIMEOUT_SECS: u64 = 60;

/// Seconds the ClickHouse activity may run.
pub const TELEMETRY_TIMEOUT_SECS: u64 = 30;

/// Seconds the Neo4j activity may run.
pub const GRAPH_TIMEOUT_SECS: u64 = 60;

/// Arguments of the workflow: the uploaded object, and who reported it.
#[derive(Debug, Clone)]
pub struct IngestArgs {
    pub bucket: String,
    pub key: String,
    pub agent_id: String,
    pub company_id: String,
}

/// The workflow's own state: what it was started with.
#[derive(Debug, Default, Clone)]
pub struct IngestTopologyWorkflow {
    bucket: String,
    key: String,
    agent_id: String,
    company_id: String,
}

/// Where a run of the workflow stands.
pub enum IngestStage {
    /// Waiting for the topology file.
    Downloading,
    /// Waiting for the telemetry rows of `payload` to be written.
    WritingTelemetry { payload: String },
    /// Waiting for the graph of `payload` to be written.
    WritingGraph { payload: String },
    /// The run has completed or failed.
    Done,
}

/// What the workflow asks for next.
pub enum WorkflowCommand {
    /// Run the download activity on `bucket`/`key`.
    Download { bucket: String, key: String, timeout_secs: u64 },
    /// Run the ClickHouse activity on the payload.
    WriteTelemetry { payload: String, agent_id: String, company_id: String, timeout_secs: u64 },
    /// Run the Neo4j activity on the payload.
    WriteGraph { payload: String, agent_id: String, company_id: String, timeout_secs: u64 },
    /// End the run successfully with this result.
    Complete(String),
    /// End the run with this error.
    Fail(String),
    /// Nothing to do: the run has ended.
    Idle,
}

pub struct WorkflowView {
    pub bucket: Seq<char>,
    pub key: Seq<char>,
    pub agent_id: Seq<char>,
    pub company_id: Seq<char>,
}

pub enum StageView {
    Downloading,
    WritingTelemetry(Seq<char>),
    WritingGraph(Seq<char>),
    Done,
}

pub enum CommandView {
    Download { bucket: Seq<char>, key: Seq<char>, timeout_secs: u64 },
    WriteTelemetry { payload: Seq<char>, agent_id: Seq<char>, company_id: Seq<char>, timeout_secs: u64 },
    WriteGraph { payload: Seq<char>, agent_id: Seq<char>, company_id: Seq<char>, timeout_secs: u64 },
    Complete(Seq<char>),
    Fail(Seq<char>),
    Idle,
}

impl View for IngestTopologyWorkflow {
    type V = WorkflowView;

    closed spec fn view(&self) -> WorkflowView {
        WorkflowView {
            bucket: self.bucket@,
            key: self.key@,
            agent_id: self.agent_id@,
            company_id: self.company_id@,
        }
    }
}

impl View for IngestStage {
    type V = StageView;

    open spec fn view(&self) -> StageView {
        match self {
            IngestStage::Downloading => StageView::Downloading,
            IngestStage::WritingTelemetry { payload } => StageView::WritingTelemetry(payload@),
            IngestStage::WritingGraph { payload } => StageView::WritingGraph(payload@),
            IngestStage::Done => StageView::Done,
        }
    }
}

impl View for WorkflowCommand {
    type V = CommandView;

    open spec fn view(&self) -> CommandView {
        match self {
            WorkflowCommand::Download { bucket, key, timeout_secs } => CommandView::Download {
                bucket: bucket@,
                key: key@,
                timeout_secs: *timeout_secs,
            },
            WorkflowCommand::WriteTelemetry { payload, agent_id, company_id, timeout_secs } =>
                CommandView::WriteTelemetry {
                payload: payload@,
                agent_id: agent_id@,
                company_id: company_id@,
                timeout_secs: *timeout_secs,
            },
            WorkflowCommand::WriteGraph { payload, agent_id, company_id, timeout_secs } =>
                CommandView::WriteGraph {
                payload: payload@,
                agent_id: agent_id@,
                company_id: company_id@,
                timeout_secs: *timeout_secs,
            },
            WorkflowCommand::Complete(m) => CommandView::Complete(m@),
            WorkflowCommand::Fail(e) => CommandView::Fail(e@),
            WorkflowCommand::Idle => CommandView::Idle,
        }
    }
}

/// The outcome of an activity: what it returned (the file text for the
/// download, ignored for the writes), or the error it failed with.
pub open spec fn outcome_view(o: Result<String, String>) -> Result<Seq<char>, Seq<char>> {
    match o {
        Ok(s) => Ok(s@),
        Err(e) => Err(e@),
    }
}

/// The result of a successful run.
pub open spec fn completion_text(w: WorkflowView) -> Seq<char> {
    "Successfully ingested topology for file "@ + w.bucket + "/"@ + w.key
}

/// The first stage of a run and the first command.
pub open spec fn start_spec(w: WorkflowView) -> (StageView, CommandView) {
    (
        StageView::Downloading,
        CommandView::Download { bucket: w.bucket, key: w.key, timeout_secs: DOWNLOAD_TIMEOUT_SECS },
    )
}

/// What the workflow does with the outcome of the activity it waits for.
pub open spec fn advance_spec(w: WorkflowView, stage: StageView, outcome: Result<Seq<char>, Seq<char>>) -> (
    StageView,
    CommandView,
) {
    match stage {
        StageView::Done => (StageView::Done, CommandView::Idle),
        _ => match outcome {
            Err(e) => (StageView::Done, CommandView::Fail(e)),
            Ok(text) => match stage {
                StageView::Downloading => (
                    StageView::WritingTelemetry(text),
                    CommandView::WriteTelemetry {
                        payload: text,
                        agent_id: w.agent_id,
                        company_id: w.company_id,
                        timeout_secs: TELEMETRY_TIMEOUT_SECS,
                    },
                ),
                StageView::WritingTelemetry(p) => (
                    StageView::WritingGraph(p),
                    CommandView::WriteGraph {
                        payload: p,
                        agent_id: w.agent_id,
                        company_id: w.company_id,
                        timeout_secs: GRAPH_TIMEOUT_SECS,
                    },
                ),
                _ => (StageView::Done, CommandView::Complete(completion_text(w))),
            },
        },
    }
}

impl IngestTopologyWorkflow {
    /// The workflow for `args`.
    pub fn new(args: IngestArgs) -> (w: IngestTopologyWorkflow)
        ensures
            w@ == (WorkflowView {
                bucket: args.bucket@,
                key: args.key@,
                agent_id: args.agent_id@,
                company_id: args.company_id@,
            }),
    {
        IngestTopologyWorkflow {
            bucket: args.bucket,
            key: args.key,
            agent_id: args.agent_id,
            company_id: args.company_id,
        }
    }

    /// The message a successful run ends with.
    pub fn completion_message(&self) -> (m: String)
        ensures
            m@ == completion_text(self@),
    {
        let mut m = String::new();
        m.append("Successfully ingested topology for file ");
        m.append(self.bucket.as_str());
        m.append("/");
        m.append(self.key.as_str());
        assert(m@ =~= completion_text(self@));
        m
    }

    /// Starts a run: download the topology file.
    pub fn start(&self) -> (r: (IngestStage, WorkflowCommand))
        ensures
            (r.0@, r.1@) == start_spec(self@),
    {
        (
            IngestStage::Downloading,
            WorkflowCommand::Download {
                bucket: self.bucket.clone(),
                key: self.key.clone(),
                timeout_secs: DOWNLOAD_TIMEOUT_SECS,
            },
        )
    }

    /// Advances a run with the outcome of the activity it waited for.
    pub fn advance(&self, stage: IngestStage, outcome: Result<String, String>) -> (r: (
        IngestStage,
        WorkflowCommand,
    ))
        ensures
            (r.0@, r.1@) == advance_spec(self@, stage@, outcome_view(outcome)),
    {
        match stage {
            IngestStage::Done => (IngestStage::Done, WorkflowCommand::Idle),
            IngestStage::Downloading => match outcome {
                Err(e) => (IngestStage::Done, WorkflowCommand::Fail(e)),
                Ok(text) => {
                    let payload = text.clone();
                    (
                        IngestStage::WritingTelemetry { payload: text },
                        WorkflowCommand::WriteTelemetry {
                            payload,
                            agent_id: self.agent_id.clone(),
                            company_id: self.company_id.clone(),
                            timeout_secs: TELEMETRY_TIMEOUT_SECS,
                        },
                    )
                },
            },
            IngestStage::WritingTelemetry { payload } => match outcome {
                Err(e) => (IngestStage::Done, WorkflowCommand::Fail(e)),
                Ok(_) => {
                    let sent = payload.clone();
                    (
                        IngestStage::WritingGraph { payload },
                        WorkflowCommand::WriteGraph {
                            payload: sent,
                            agent_id: self.agent_id.clone(),
                            company_id: self.company_id.clone(),
                            timeout_secs: GRAPH_TIMEOUT_SECS,
                        },
                    )
                },
            },
            IngestStage::WritingGraph { .. } => match outcome {
                Err(e) => (IngestStage::Done, WorkflowCommand::Fail(e)),
                Ok(_) => (IngestStage::Done, WorkflowCommand::Complete(self.completion_message())),
            },
        }
    }
}

// ---------------------------------------------------------------------------
// Whole runs
// ---------------------------------------------------------------------------

/// The stage reached and the commands issued after each outcome of `outcomes`.
pub open spec fn run_spec(w: WorkflowView, outcomes: Seq<Result<Seq<char>, Seq<char>>>) -> (
    StageView,
    Seq<CommandView>,
)
    decreases outcomes.len(),
{
    if outcomes.len() == 0 {
        (start_spec(w).0, Seq::empty())
    } else {
        let (stage, cmds) = run_spec(w, outcomes.drop_last());
        let (next, cmd) = advance_spec(w, stage, outcomes.last());
        (next, cmds.push(cmd))
    }
}

pub open spec fn all_ok(outcomes: Seq<Result<Seq<char>, Seq<char>>>, n: int) -> bool {
    forall|j: int| 0 <= j < n ==> (#[trigger] outcomes[j]) is Ok
}

/// The workflow runs download, telemetry and graph in this order, each only
/// after the previous one succeeded; both writes receive exactly the text
/// that was downloaded; the run completes, with the completion message, right
/// after the third success and at no other point; the first failure ends the
/// run with that failure's error; once ended, it asks for nothing more.
pub proof fn lemma_workflow_runs(w: WorkflowView, outcomes: Seq<Result<Seq<char>, Seq<char>>>)
    ensures
        run_spec(w, outcomes).1.len() == outcomes.len(),
        forall|i: int|
            0 <= i < outcomes.len() ==> {
                let c = #[trigger] run_spec(w, outcomes).1[i];
                &&& (c is Complete <==> (i == 2 && all_ok(outcomes, 3)))
                &&& (c is Complete ==> c == CommandView::Complete(completion_text(w)))
                &&& (c is Fail <==> (i < 3 && all_ok(outcomes, i) && outcomes[i] is Err))
                &&& (c is Fail ==> c == CommandView::Fail(outcomes[i]->Err_0))
                &&& (c is WriteTelemetry <==> (i == 0 && outcomes[0] is Ok))
                &&& (c is WriteTelemetry ==> c == (CommandView::WriteTelemetry {
                    payload: outcomes[0]->Ok_0,
                    agent_id: w.agent_id,
                    company_id: w.company_id,
                    timeout_secs: TELEMETRY_TIMEOUT_SECS,
                }))
                &&& (c is WriteGraph <==> (i == 1 && all_ok(outcomes, 2)))
                &&& (c is WriteGraph ==> c == (CommandView::WriteGraph {
                    payload: outcomes[0]->Ok_0,
                    agent_id: w.agent_id,
                    company_id: w.company_id,
                    timeout_secs: GRAPH_TIMEOUT_SECS,
                }))
                &&& (c is Idle <==> (i >= 3 || !all_ok(outcomes, i)))
            },
        run_spec(w, outcomes).0 is Done <==> (outcomes.len() >= 3 || !all_ok(outcomes, outcomes.len() as int)),
        outcomes.len() == 1 && outcomes[0] is Ok ==> run_spec(w, outcomes).0 == StageView::WritingTelemetry(outcomes[0]->Ok_0),
        outcomes.len() == 2 && all_ok(outcomes, 2) ==> run_spec(w, outcomes).0 == StageView::WritingGraph(outcomes[0]->Ok_0),
        outcomes.len() == 0 ==> run_spec(w, outcomes).0 == StageView::Downloading,
    decreases outcomes.len(),
{
    if outcomes.len() > 0 {
        let init = outcomes.drop_last();
        lemma_workflow_runs(w, init);
        let n = init.len() as int;
        assert forall|i: int| 0 <= i < n implies #[trigger] outcomes[i] == init[i] by {}
        assert(all_ok(outcomes, n) == all_ok(init, n));
        assert forall|k: int| 0 <= k <= n implies #[trigger] all_ok(outcomes, k) == all_ok(init, k) by {
            assert forall|j: int| 0 <= j < k implies outcomes[j] == init[j] by {}
        }
        if n >= 1 {
            assert(outcomes[0] == init[0]);
        }
        let r = run_spec(w, outcomes);
        assert forall|i: int| 0 <= i < n implies #[trigger] r.1[i] == run_spec(w, init).1[i] by {}
        if all_ok(outcomes, n) && outcomes[n] is Ok {
            assert forall|j: int| 0 <= j < n + 1 implies (#[trigger] outcomes[j]) is Ok by {
                if j < n {
                    assert(all_ok(outcomes, n));
                }
            }
            assert(all_ok(outcomes, n + 1));
        }
        if n >= 3 {
            assert(all_ok(outcomes, 3) == all_ok(init, 3));
        }
        if n >= 2 {
            assert(all_ok(outcomes, 2) == all_ok(init, 2));
        }
    }
}

} // verus!
