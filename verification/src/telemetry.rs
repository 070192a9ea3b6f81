//! Rows of the `system_events` table: one per host, container, process and
//! route of a topology payload, and one per event of the ingest stream.

use crate::domain::{NetworkTopologyPayload, ProtoContainer, ProtoHost, ProtoProcess, ProtoRoute};
use crate::text::{
    debug_list_text, debug_opt_bool_text, debug_opt_i32_text, debug_opt_str_text, int_decimal,
    nat_decimal, push_debug_list, push_debug_opt_bool, push_debug_opt_i32, push_debug_opt_str,
    push_decimal, push_int_decimal,
};
use vstd::prelude::*;

verus! {

/// A row of `system_events` derived from a topology payload.
pub struct TelemetryRow {
    pub agent_id: String,
    pub company_id: String,
    pub event_type: String,
    pub source: String,
    pub message: String,
    pub value: i32,
    /// When the payload was written, in seconds since the Unix epoch.
    pub timestamp: u32,
}

pub struct TelemetryRowView {
    pub agent_id: Seq<char>,
    pub company_id: Seq<char>,
    pub event_type: Seq<char>,
    pub source: Seq<char>,
    pub message: Seq<char>,
    pub value: i32,
    pub timestamp: u32,
}

impl View for TelemetryRow {
    type V = TelemetryRowView;

    open spec fn view(&self) -> TelemetryRowView {
        TelemetryRowView {
            agent_id: self.agent_id@,
            company_id: self.company_id@,
            event_type: self.event_type@,
            source: self.source@,
            message: self.message@,
            value: self.value,
            timestamp: self.timestamp,
        }
    }
}

pub open spec fn row_views(v: Seq<TelemetryRow>) -> Seq<TelemetryRowView> {
    v.map_values(|r: TelemetryRow| r@)
}

pub open spec fn host_message(h: ProtoHost) -> Seq<char> {
    "Host online (ip_addresses: "@ + debug_list_text(h.ip_addresses@) + ")"@
}

pub open spec fn container_message(c: ProtoContainer) -> Seq<char> {
    "Container running (image: "@ + c.image@ + ", image_sha256: "@ + debug_opt_str_text(
        c.image_sha256,
    ) + ", privileged: "@ + debug_opt_bool_text(c.privileged) + ", run_as_root: "@
        + debug_opt_bool_text(c.run_as_root) + ", exposed_ports: "@ + nat_decimal(
        c.exposed_ports@.len(),
    ) + ", sensitive_volumes: "@ + nat_decimal(c.sensitive_volumes@.len()) + ")"@
}

pub open spec fn process_message(p: ProtoProcess) -> Seq<char> {
    "Process running (pid: "@ + int_decimal(p.pid as int) + ", command_line: "@ + debug_opt_str_text(
        p.command_line,
    ) + ", user: "@ + debug_opt_str_text(p.user) + ")"@
}

pub open spec fn route_message(r: ProtoRoute) -> Seq<char> {
    "Route discovered (kind: "@ + r.kind@ + ", source_kind: "@ + r.source_kind@ + ", target_kind: "@
        + r.target_kind@ + ", protocol: "@ + r.protocol@ + ", source_port: "@ + debug_opt_i32_text(
        r.source_port,
    ) + ", target_port: "@ + debug_opt_str_text(r.target_port) + ", published_port: "@
        + debug_opt_i32_text(r.published_port) + ")"@
}

pub open spec fn row_of(
    agent: Seq<char>,
    company: Seq<char>,
    event_type: Seq<char>,
    source: Seq<char>,
    message: Seq<char>,
    value: i32,
    timestamp: u32,
) -> TelemetryRowView {
    TelemetryRowView { agent_id: agent, company_id: company, event_type, source, message, value, timestamp }
}

pub open spec fn container_rows(cs: Seq<ProtoContainer>, agent: Seq<char>, company: Seq<char>, timestamp: u32) -> Seq<
    TelemetryRowView,
> {
    cs.map_values(
        |c: ProtoContainer| row_of(agent, company, "Container"@, c.name@, container_message(c), 1, timestamp),
    )
}

pub open spec fn process_rows(ps: Seq<ProtoProcess>, agent: Seq<char>, company: Seq<char>, timestamp: u32) -> Seq<
    TelemetryRowView,
> {
    ps.map_values(
        |p: ProtoProcess| row_of(agent, company, "Process"@, p.name@, process_message(p), p.pid, timestamp),
    )
}

pub open spec fn route_rows(rs: Seq<ProtoRoute>, agent: Seq<char>, company: Seq<char>, timestamp: u32) -> Seq<
    TelemetryRowView,
> {
    rs.map_values(
        |r: ProtoRoute| row_of(agent, company, "Route"@, r.source_name@, route_message(r), 1, timestamp),
    )
}

/// The rows of one host: the host, its containers, then its own processes
/// (processes inside containers get no row).
pub open spec fn host_rows(h: ProtoHost, agent: Seq<char>, company: Seq<char>, timestamp: u32) -> Seq<TelemetryRowView> {
    seq![row_of(agent, company, "Host"@, h.hostname@, host_message(h), 1, timestamp)] + container_rows(
        h.containers@,
        agent,
        company,
        timestamp,
    ) + process_rows(h.processes@, agent, company, timestamp)
}

pub open spec fn hosts_rows(hs: Seq<ProtoHost>, agent: Seq<char>, company: Seq<char>, timestamp: u32) -> Seq<
    TelemetryRowView,
>
    decreases hs.len(),
{
    if hs.len() == 0 {
        Seq::empty()
    } else {
        hosts_rows(hs.drop_last(), agent, company, timestamp) + host_rows(hs.last(), agent, company, timestamp)
    }
}

/// All rows of a payload: the hosts' rows in order, then one row per route.
pub open spec fn payload_rows(p: NetworkTopologyPayload, agent: Seq<char>, company: Seq<char>, timestamp: u32) -> Seq<
    TelemetryRowView,
> {
    hosts_rows(p.hosts@, agent, company, timestamp) + route_rows(p.routes@, agent, company, timestamp)
}

fn new_row(agent_id: &str, company_id: &str, timestamp: u32, event_type: &str, source: &String, message: String, value: i32) -> (r:
    TelemetryRow)
    ensures
        r@ == row_of(agent_id@, company_id@, event_type@, source@, message@, value, timestamp),
{
    TelemetryRow {
        agent_id: agent_id.to_owned(),
        company_id: company_id.to_owned(),
        event_type: event_type.to_owned(),
        source: source.clone(),
        message,
        value,
        timestamp,
    }
}

fn make_host_message(h: &ProtoHost) -> (m: String)
    ensures
        m@ == host_message(*h),
{
    let mut m = String::new();
    m.append("Host online (ip_addresses: ");
    push_debug_list(&mut m, &h.ip_addresses);
    m.append(")");
    assert(m@ =~= host_message(*h));
    m
}

fn make_container_message(c: &ProtoContainer) -> (m: String)
    ensures
        m@ == container_message(*c),
{
    let mut m = String::new();
    m.append("Container running (image: ");
    m.append(c.image.as_str());
    m.append(", image_sha256: ");
    push_debug_opt_str(&mut m, &c.image_sha256);
    m.append(", privileged: ");
    push_debug_opt_bool(&mut m, c.privileged);
    m.append(", run_as_root: ");
    push_debug_opt_bool(&mut m, c.run_as_root);
    m.append(", exposed_ports: ");
    push_decimal(&mut m, c.exposed_ports.len() as u64);
    m.append(", sensitive_volumes: ");
    push_decimal(&mut m, c.sensitive_volumes.len() as u64);
    m.append(")");
    assert(m@ =~= container_message(*c));
    m
}

fn make_process_message(p: &ProtoProcess) -> (m: String)
    ensures
        m@ == process_message(*p),
{
    let mut m = String::new();
    m.append("Process running (pid: ");
    push_int_decimal(&mut m, p.pid as i64);
    m.append(", command_line: ");
    push_debug_opt_str(&mut m, &p.command_line);
    m.append(", user: ");
    push_debug_opt_str(&mut m, &p.user);
    m.append(")");
    assert(m@ =~= process_message(*p));
    m
}

fn make_route_message(r: &ProtoRoute) -> (m: String)
    ensures
        m@ == route_message(*r),
{
    let mut m = String::new();
    m.append("Route discovered (kind: ");
    m.append(r.kind.as_str());
    m.append(", source_kind: ");
    m.append(r.source_kind.as_str());
    m.append(", target_kind: ");
    m.append(r.target_kind.as_str());
    m.append(", protocol: ");
    m.append(r.protocol.as_str());
    m.append(", source_port: ");
    push_debug_opt_i32(&mut m, r.source_port);
    m.append(", target_port: ");
    push_debug_opt_str(&mut m, &r.target_port);
    m.append(", published_port: ");
    push_debug_opt_i32(&mut m, r.published_port);
    m.append(")");
    assert(m@ =~= route_message(*r));
    m
}

/// Appends the rows of one host to `rows`.
fn push_host_rows(rows: &mut Vec<TelemetryRow>, h: &ProtoHost, agent_id: &str, company_id: &str, timestamp: u32)
    ensures
        row_views(final(rows)@) == row_views(old(rows)@) + host_rows(*h, agent_id@, company_id@, timestamp),
{
    let ghost agent = agent_id@;
    let ghost company = company_id@;
    let ghost start = row_views(rows@);
    rows.push(new_row(agent_id, company_id, timestamp, "Host", &h.hostname, make_host_message(h), 1));
    let ghost first = seq![row_of(agent, company, "Host"@, h.hostname@, host_message(*h), 1, timestamp)];
    assert(row_views(rows@) =~= start + first);
    let ghost cr = container_rows(h.containers@, agent, company, timestamp);
    let mut i: usize = 0;
    while i < h.containers.len()
        invariant
            i <= h.containers.len(),
            agent == agent_id@,
            company == company_id@,
            cr == container_rows(h.containers@, agent, company, timestamp),
            row_views(rows@) == start + first + cr.take(i as int),
        decreases h.containers.len() - i,
    {
        let c = &h.containers[i];
        assert(cr.take(i as int).len() == i);
        assert(row_views(rows@).len() == rows@.len());
        let row = new_row(agent_id, company_id, timestamp, "Container", &c.name, make_container_message(c), 1);
        assert(row@ == cr[i as int]);
        let ghost before = row_views(rows@);
        rows.push(row);
        assert(row_views(rows@) =~= before.push(row@));
        assert(cr.take(i + 1) =~= cr.take(i as int).push(cr[i as int]));
        assert(row_views(rows@) =~= start + first + cr.take(i + 1));
        i = i + 1;
    }
    assert(cr.take(i as int) =~= cr);
    let ghost pr = process_rows(h.processes@, agent, company, timestamp);
    let mut k: usize = 0;
    while k < h.processes.len()
        invariant
            k <= h.processes.len(),
            agent == agent_id@,
            company == company_id@,
            pr == process_rows(h.processes@, agent, company, timestamp),
            row_views(rows@) == start + first + cr + pr.take(k as int),
        decreases h.processes.len() - k,
    {
        let p = &h.processes[k];
        assert(pr.take(k as int).len() == k);
        assert(row_views(rows@).len() == rows@.len());
        let row = new_row(agent_id, company_id, timestamp, "Process", &p.name, make_process_message(p), p.pid);
        assert(row@ == pr[k as int]);
        let ghost before = row_views(rows@);
        rows.push(row);
        assert(row_views(rows@) =~= before.push(row@));
        assert(pr.take(k + 1) =~= pr.take(k as int).push(pr[k as int]));
        assert(row_views(rows@) =~= start + first + cr + pr.take(k + 1));
        k = k + 1;
    }
    assert(pr.take(k as int) =~= pr);
    assert(row_views(rows@) =~= start + host_rows(*h, agent, company, timestamp));
}

/// The rows of `system_events` that record a topology payload reported by
/// `agent_id` for `company_id` and written at `timestamp`: every row carries
/// that one timestamp.
pub fn telemetry_rows(payload: &NetworkTopologyPayload, agent_id: &str, company_id: &str, timestamp: u32) -> (rows:
    Vec<TelemetryRow>)
    ensures
        row_views(rows@) == payload_rows(*payload, agent_id@, company_id@, timestamp),
{
    let ghost agent = agent_id@;
    let ghost company = company_id@;
    let ghost hs = payload.hosts@;
    let mut rows: Vec<TelemetryRow> = Vec::new();
    assert(row_views(rows@) =~= hosts_rows(hs.take(0), agent, company, timestamp));
    let mut i: usize = 0;
    while i < payload.hosts.len()
        invariant
            i <= payload.hosts.len(),
            agent == agent_id@,
            company == company_id@,
            hs == payload.hosts@,
            row_views(rows@) == hosts_rows(hs.take(i as int), agent, company, timestamp),
        decreases payload.hosts.len() - i,
    {
        push_host_rows(&mut rows, &payload.hosts[i], agent_id, company_id, timestamp);
        proof {
            let t = hs.take(i + 1);
            assert(t.drop_last() =~= hs.take(i as int));
            assert(t.last() == hs[i as int]);
        }
        i = i + 1;
    }
    assert(hs.take(i as int) =~= hs);
    let ghost base = row_views(rows@);
    let ghost rr = route_rows(payload.routes@, agent, company, timestamp);
    let mut k: usize = 0;
    while k < payload.routes.len()
        invariant
            k <= payload.routes.len(),
            agent == agent_id@,
            company == company_id@,
            rr == route_rows(payload.routes@, agent, company, timestamp),
            row_views(rows@) == base + rr.take(k as int),
        decreases payload.routes.len() - k,
    {
        let r = &payload.routes[k];
        assert(rr.take(k as int).len() == k);
        assert(row_views(rows@).len() == rows@.len());
        let row = new_row(agent_id, company_id, timestamp, "Route", &r.source_name, make_route_message(r), 1);
        assert(row@ == rr[k as int]);
        let ghost before = row_views(rows@);
        rows.push(row);
        assert(row_views(rows@) =~= before.push(row@));
        assert(rr.take(k + 1) =~= rr.take(k as int).push(rr[k as int]));
        assert(row_views(rows@) =~= base + rr.take(k + 1));
        k = k + 1;
    }
    assert(rr.take(k as int) =~= rr);
    rows
}

} // verus!

verus! {

/// A row carries `agent`, `company` and `timestamp`.
pub open spec fn row_stamped(r: TelemetryRowView, agent: Seq<char>, company: Seq<char>, timestamp: u32) -> bool {
    r.agent_id == agent && r.company_id == company && r.timestamp == timestamp
}

/// Every row of a payload carries the agent and company it was reported for
/// and the one timestamp at which the payload was written.
pub proof fn lemma_payload_rows_scoped(p: NetworkTopologyPayload, agent: Seq<char>, company: Seq<char>, timestamp: u32)
    ensures
        forall|i: int|
            0 <= i < payload_rows(p, agent, company, timestamp).len() ==> row_stamped(
                #[trigger] payload_rows(p, agent, company, timestamp)[i],
                agent,
                company,
                timestamp,
            ),
{
    lemma_hosts_rows_scoped(p.hosts@, agent, company, timestamp);
    let h = hosts_rows(p.hosts@, agent, company, timestamp);
    let r = route_rows(p.routes@, agent, company, timestamp);
    assert forall|i: int| 0 <= i < (h + r).len() implies row_stamped(#[trigger] (h + r)[i], agent, company, timestamp) by {
        if i < h.len() {
            assert((h + r)[i] == h[i]);
        } else {
            assert((h + r)[i] == r[i - h.len()]);
        }
    }
}

proof fn lemma_hosts_rows_scoped(hs: Seq<ProtoHost>, agent: Seq<char>, company: Seq<char>, timestamp: u32)
    ensures
        forall|i: int|
            0 <= i < hosts_rows(hs, agent, company, timestamp).len() ==> row_stamped(
                #[trigger] hosts_rows(hs, agent, company, timestamp)[i],
                agent,
                company,
                timestamp,
            ),
    decreases hs.len(),
{
    if hs.len() > 0 {
        lemma_hosts_rows_scoped(hs.drop_last(), agent, company, timestamp);
        let a = hosts_rows(hs.drop_last(), agent, company, timestamp);
        let h = hs.last();
        let first = seq![row_of(agent, company, "Host"@, h.hostname@, host_message(h), 1, timestamp)];
        let cr = container_rows(h.containers@, agent, company, timestamp);
        let pr = process_rows(h.processes@, agent, company, timestamp);
        let b = host_rows(h, agent, company, timestamp);
        assert forall|i: int| 0 <= i < b.len() implies row_stamped(#[trigger] b[i], agent, company, timestamp) by {
            if i == 0 {
                assert(b[i] == first[0]);
            } else if i < 1 + cr.len() {
                assert(b[i] == cr[i - 1]);
            } else {
                assert(b[i] == pr[i - 1 - cr.len()]);
            }
        }
        assert forall|i: int| 0 <= i < (a + b).len() implies row_stamped(#[trigger] (a + b)[i], agent, company, timestamp) by {
            if i < a.len() {
                assert((a + b)[i] == a[i]);
            } else {
                assert((a + b)[i] == b[i - a.len()]);
            }
        }
    }
}

/// How many objects of the given hosts get a row: each host, its
/// containers and its own processes.
pub open spec fn hosts_object_count(hs: Seq<ProtoHost>) -> nat
    decreases hs.len(),
{
    if hs.len() == 0 {
        0
    } else {
        hosts_object_count(hs.drop_last()) + 1 + hs.last().containers@.len() + hs.last().processes@.len()
    }
}

/// `rows` holds a row of `event_type` for `source` with `value`.
pub open spec fn has_row(rows: Seq<TelemetryRowView>, event_type: Seq<char>, source: Seq<char>, value: i32) -> bool {
    exists|j: int|
        0 <= j < rows.len() && (#[trigger] rows[j]).event_type == event_type && rows[j].source == source
            && rows[j].value == value
}

proof fn lemma_has_row_concat(
    a: Seq<TelemetryRowView>,
    b: Seq<TelemetryRowView>,
    event_type: Seq<char>,
    source: Seq<char>,
    value: i32,
)
    requires
        has_row(a, event_type, source, value) || has_row(b, event_type, source, value),
    ensures
        has_row(a + b, event_type, source, value),
{
    if has_row(a, event_type, source, value) {
        let j = choose|j: int|
            0 <= j < a.len() && (#[trigger] a[j]).event_type == event_type && a[j].source == source
                && a[j].value == value;
        assert((a + b)[j] == a[j]);
    } else {
        let j = choose|j: int|
            0 <= j < b.len() && (#[trigger] b[j]).event_type == event_type && b[j].source == source
                && b[j].value == value;
        assert((a + b)[a.len() + j] == b[j]);
    }
}

proof fn lemma_hosts_rows_cover(hs: Seq<ProtoHost>, agent: Seq<char>, company: Seq<char>, timestamp: u32)
    ensures
        hosts_rows(hs, agent, company, timestamp).len() == hosts_object_count(hs),
        forall|i: int|
            0 <= i < hs.len() ==> has_row(
                hosts_rows(hs, agent, company, timestamp),
                "Host"@,
                (#[trigger] hs[i]).hostname@,
                1,
            ),
        forall|i: int, k: int|
            0 <= i < hs.len() && 0 <= k < hs[i].containers@.len() ==> has_row(
                hosts_rows(hs, agent, company, timestamp),
                "Container"@,
                (#[trigger] hs[i].containers@[k]).name@,
                1,
            ),
        forall|i: int, k: int|
            0 <= i < hs.len() && 0 <= k < hs[i].processes@.len() ==> has_row(
                hosts_rows(hs, agent, company, timestamp),
                "Process"@,
                (#[trigger] hs[i].processes@[k]).name@,
                hs[i].processes@[k].pid,
            ),
    decreases hs.len(),
{
    if hs.len() > 0 {
        let init = hs.drop_last();
        lemma_hosts_rows_cover(init, agent, company, timestamp);
        let a = hosts_rows(init, agent, company, timestamp);
        let h = hs.last();
        let b = host_rows(h, agent, company, timestamp);
        let cr = container_rows(h.containers@, agent, company, timestamp);
        let pr = process_rows(h.processes@, agent, company, timestamp);
        assert(b.len() == 1 + cr.len() + pr.len());
        assert forall|i: int| 0 <= i < hs.len() implies has_row(a + b, "Host"@, (#[trigger] hs[i]).hostname@, 1) by {
            if i < init.len() {
                assert(hs[i] == init[i]);
            } else {
                assert(hs[i] == h);
                assert(b[0].event_type == "Host"@ && b[0].source == h.hostname@ && b[0].value == 1);
            }
            lemma_has_row_concat(a, b, "Host"@, hs[i].hostname@, 1);
        }
        assert forall|i: int, k: int|
            0 <= i < hs.len() && 0 <= k < hs[i].containers@.len() implies has_row(
            a + b,
            "Container"@,
            (#[trigger] hs[i].containers@[k]).name@,
            1,
        ) by {
            if i < init.len() {
                assert(hs[i] == init[i]);
            } else {
                assert(hs[i] == h);
                assert(b[1 + k] == cr[k]);
                assert(b[1 + k].event_type == "Container"@);
            }
            lemma_has_row_concat(a, b, "Container"@, hs[i].containers@[k].name@, 1);
        }
        assert forall|i: int, k: int|
            0 <= i < hs.len() && 0 <= k < hs[i].processes@.len() implies has_row(
            a + b,
            "Process"@,
            (#[trigger] hs[i].processes@[k]).name@,
            hs[i].processes@[k].pid,
        ) by {
            if i < init.len() {
                assert(hs[i] == init[i]);
            } else {
                assert(hs[i] == h);
                assert(b[1 + cr.len() + k] == pr[k]);
                assert(b[1 + cr.len() + k].event_type == "Process"@);
            }
            lemma_has_row_concat(a, b, "Process"@, hs[i].processes@[k].name@, hs[i].processes@[k].pid);
        }
    }
}

/// The rows of a payload cover it exactly: one row per host, per container
/// and per process of a host (processes inside containers get none), then
/// one per route, so their number is the number of those objects; every
/// host has its `Host` row under its hostname, every container its
/// `Container` row under its name, every process of a host its `Process`
/// row under its name with its pid as value, and route `k` is the row that
/// follows the hosts' rows by `k`, a `Route` row under the route's source
/// name.
pub proof fn lemma_payload_rows_cover(p: NetworkTopologyPayload, agent: Seq<char>, company: Seq<char>, timestamp: u32)
    ensures
        ({
            let rows = payload_rows(p, agent, company, timestamp);
            let hs = p.hosts@;
            let rs = p.routes@;
            &&& rows.len() == hosts_object_count(hs) + rs.len()
            &&& forall|i: int| 0 <= i < hs.len() ==> has_row(rows, "Host"@, (#[trigger] hs[i]).hostname@, 1)
            &&& forall|i: int, k: int|
                0 <= i < hs.len() && 0 <= k < hs[i].containers@.len() ==> has_row(
                    rows,
                    "Container"@,
                    (#[trigger] hs[i].containers@[k]).name@,
                    1,
                )
            &&& forall|i: int, k: int|
                0 <= i < hs.len() && 0 <= k < hs[i].processes@.len() ==> has_row(
                    rows,
                    "Process"@,
                    (#[trigger] hs[i].processes@[k]).name@,
                    hs[i].processes@[k].pid,
                )
            &&& forall|k: int|
                0 <= k < rs.len() ==> (#[trigger] rows[hosts_object_count(hs) + k]).event_type == "Route"@
                    && rows[hosts_object_count(hs) + k].source == rs[k].source_name@
                    && rows[hosts_object_count(hs) + k].value == 1
        }),
{
    let hs = p.hosts@;
    lemma_hosts_rows_cover(hs, agent, company, timestamp);
    let a = hosts_rows(hs, agent, company, timestamp);
    let r = route_rows(p.routes@, agent, company, timestamp);
    assert forall|i: int| 0 <= i < hs.len() implies has_row(a + r, "Host"@, (#[trigger] hs[i]).hostname@, 1) by {
        lemma_has_row_concat(a, r, "Host"@, hs[i].hostname@, 1);
    }
    assert forall|i: int, k: int|
        0 <= i < hs.len() && 0 <= k < hs[i].containers@.len() implies has_row(
        a + r,
        "Container"@,
        (#[trigger] hs[i].containers@[k]).name@,
        1,
    ) by {
        lemma_has_row_concat(a, r, "Container"@, hs[i].containers@[k].name@, 1);
    }
    assert forall|i: int, k: int|
        0 <= i < hs.len() && 0 <= k < hs[i].processes@.len() implies has_row(
        a + r,
        "Process"@,
        (#[trigger] hs[i].processes@[k]).name@,
        hs[i].processes@[k].pid,
    ) by {
        lemma_has_row_concat(a, r, "Process"@, hs[i].processes@[k].name@, hs[i].processes@[k].pid);
    }
    assert forall|k: int| 0 <= k < p.routes@.len() implies (#[trigger] (a + r)[hosts_object_count(hs) + k]).event_type
        == "Route"@ && (a + r)[hosts_object_count(hs) + k].source == p.routes@[k].source_name@
        && (a + r)[hosts_object_count(hs) + k].value == 1 by {
        assert((a + r)[hosts_object_count(hs) + k] == r[k]);
    }
}

/// An insert of rows into `system_events` under a deduplication token.
pub struct TokenedInsert {
    pub token: Seq<char>,
    pub rows: Seq<TelemetryRowView>,
}

/// The rows that a series of inserts leaves in `system_events` when ClickHouse
/// deduplicates them by token (all within its deduplication window): an
/// insert whose token an earlier insert of the series carried adds nothing;
/// any other adds its rows.
pub open spec fn deduplicated_rows(inserts: Seq<TokenedInsert>) -> Seq<TelemetryRowView>
    decreases inserts.len(),
{
    if inserts.len() == 0 {
        Seq::empty()
    } else {
        let earlier = inserts.drop_last();
        if exists|j: int| 0 <= j < earlier.len() && #[trigger] earlier[j].token == inserts.last().token {
            deduplicated_rows(earlier)
        } else {
            deduplicated_rows(earlier) + inserts.last().rows
        }
    }
}

/// The inserts of the attempts of one activity, each with the rows it wrote.
pub open spec fn activity_inserts(
    company: Seq<char>,
    agent: Seq<char>,
    workflow_run: Seq<char>,
    activity: Seq<char>,
    attempts: Seq<Seq<TelemetryRowView>>,
) -> Seq<TokenedInsert> {
    attempts.map_values(
        |rows: Seq<TelemetryRowView>| TokenedInsert { token: insert_token(company, agent, workflow_run, activity), rows },
    )
}

/// Retries do not double-write: however many times a telemetry activity is
/// attempted, and whatever rows each attempt sends (each stamps its own
/// time), `system_events` ends up with the rows of the first attempt only.
pub proof fn lemma_retries_write_once(
    company: Seq<char>,
    agent: Seq<char>,
    workflow_run: Seq<char>,
    activity: Seq<char>,
    attempts: Seq<Seq<TelemetryRowView>>,
)
    requires
        attempts.len() >= 1,
    ensures
        deduplicated_rows(activity_inserts(company, agent, workflow_run, activity, attempts))
            == attempts[0],
    decreases attempts.len(),
{
    let ins = activity_inserts(company, agent, workflow_run, activity, attempts);
    let earlier = ins.drop_last();
    assert(ins.len() == attempts.len());
    if attempts.len() == 1 {
        assert(earlier =~= Seq::<TokenedInsert>::empty());
        assert(deduplicated_rows(earlier) =~= Seq::<TelemetryRowView>::empty());
        assert(ins.last().rows == attempts[0]);
        assert(!(exists|j: int| 0 <= j < earlier.len() && #[trigger] earlier[j].token == ins.last().token));
        assert(Seq::<TelemetryRowView>::empty() + attempts[0] =~= attempts[0]);
    } else {
        let shorter = attempts.drop_last();
        lemma_retries_write_once(company, agent, workflow_run, activity, shorter);
        assert(earlier =~= activity_inserts(company, agent, workflow_run, activity, shorter));
        assert(earlier[0].token == ins.last().token);
    }
}

/// An event of the ingest stream, without its metric value.
pub enum StreamEvent {
    Log { source: String, message: String },
    Metric { name: String },
}

/// The text columns of the row that records a stream event.
pub struct EventRowText {
    pub event_type: String,
    pub source: String,
    pub message: String,
}

/// A log event is recorded as `Log` with its source and message; a metric as
/// `Metric` with its name as source and an empty message.
pub open spec fn event_row_text_of(e: StreamEvent) -> (Seq<char>, Seq<char>, Seq<char>) {
    match e {
        StreamEvent::Log { source, message } => ("Log"@, source@, message@),
        StreamEvent::Metric { name } => ("Metric"@, name@, Seq::empty()),
    }
}

/// The text columns of the row that records `e`.
pub fn event_row_text(e: &StreamEvent) -> (t: EventRowText)
    ensures
        (t.event_type@, t.source@, t.message@) == event_row_text_of(*e),
{
    match e {
        StreamEvent::Log { source, message } => EventRowText {
            event_type: "Log".to_owned(),
            source: source.clone(),
            message: message.clone(),
        },
        StreamEvent::Metric { name } => EventRowText {
            event_type: "Metric".to_owned(),
            source: name.clone(),
            message: String::new(),
        },
    }
}

} // verus!

verus! {

/// `s` holds no `:`.
pub open spec fn colon_free(s: Seq<char>) -> bool {
    forall|i: int| 0 <= i < s.len() ==> s[i] != ':'
}

proof fn lemma_split_at_first_colon(x1: Seq<char>, y1: Seq<char>, x2: Seq<char>, y2: Seq<char>)
    requires
        colon_free(x1),
        colon_free(x2),
        x1 + ":"@ + y1 == x2 + ":"@ + y2,
    ensures
        x1 == x2,
        y1 == y2,
{
    reveal_strlit(":");
    let s = x1 + ":"@ + y1;
    assert(s == x2 + ":"@ + y2);
    if x1.len() < x2.len() {
        assert(s[x1.len() as int] == ':');
        assert(s[x1.len() as int] == x2[x1.len() as int]);
    }
    if x2.len() < x1.len() {
        assert(s[x2.len() as int] == ':');
        assert(s[x2.len() as int] == x1[x2.len() as int]);
    }
    assert(x1.len() == x2.len());
    assert(x1 =~= s.subrange(0, x1.len() as int));
    assert(x2 =~= s.subrange(0, x2.len() as int));
    assert(y1 =~= s.subrange(x1.len() + 1int, s.len() as int));
    assert(y2 =~= s.subrange(x2.len() + 1int, s.len() as int));
}

/// The deduplication token of the insert made by one activity: `topology:`,
/// the company, the agent, the workflow run and the activity, separated by
/// `:`. A retry of the activity runs in the same workflow run under the same
/// activity id, so it carries the same token, and ClickHouse drops an insert
/// whose token it has already seen; any other activity carries another token.
pub open spec fn insert_token(
    company: Seq<char>,
    agent: Seq<char>,
    workflow_run: Seq<char>,
    activity: Seq<char>,
) -> Seq<char> {
    "topology:"@ + company + ":"@ + agent + ":"@ + workflow_run + ":"@ + activity
}

/// The deduplication token of the insert that records a topology payload for
/// `company_id` and `agent_id`, made by activity `activity_id` of workflow run
/// `workflow_run_id`.
pub fn telemetry_insert_token(
    company_id: &str,
    agent_id: &str,
    workflow_run_id: &str,
    activity_id: &str,
) -> (t: String)
    ensures
        t@ == insert_token(company_id@, agent_id@, workflow_run_id@, activity_id@),
{
    let mut t = String::new();
    t.append("topology:");
    t.append(company_id);
    t.append(":");
    t.append(agent_id);
    t.append(":");
    t.append(workflow_run_id);
    t.append(":");
    t.append(activity_id);
    assert(t@ =~= insert_token(company_id@, agent_id@, workflow_run_id@, activity_id@));
    t
}

/// Two topology inserts share a deduplication token exactly when they are
/// made for the same company and agent by the same activity of the same
/// workflow run (for company, agent and run identifiers without `:`). So the
/// retries of one activity are dropped as duplicates of its first insert,
/// and no other insert is ever dropped because of it.
pub proof fn lemma_insert_tokens_identify_activity(
    company1: Seq<char>,
    agent1: Seq<char>,
    run1: Seq<char>,
    activity1: Seq<char>,
    company2: Seq<char>,
    agent2: Seq<char>,
    run2: Seq<char>,
    activity2: Seq<char>,
)
    requires
        colon_free(company1),
        colon_free(agent1),
        colon_free(run1),
        colon_free(company2),
        colon_free(agent2),
        colon_free(run2),
    ensures
        insert_token(company1, agent1, run1, activity1) == insert_token(
            company2,
            agent2,
            run2,
            activity2,
        ) <==> (company1 == company2 && agent1 == agent2 && run1 == run2 && activity1
            == activity2),
{
    let t1 = insert_token(company1, agent1, run1, activity1);
    let t2 = insert_token(company2, agent2, run2, activity2);
    if t1 == t2 {
        reveal_strlit("topology:");
        let p = "topology:"@;
        let r1 = company1 + ":"@ + (agent1 + ":"@ + (run1 + ":"@ + activity1));
        let r2 = company2 + ":"@ + (agent2 + ":"@ + (run2 + ":"@ + activity2));
        assert(t1 =~= p + r1);
        assert(t2 =~= p + r2);
        assert(r1 =~= t1.subrange(p.len() as int, t1.len() as int));
        assert(r2 =~= t2.subrange(p.len() as int, t2.len() as int));
        lemma_split_at_first_colon(company1, agent1 + ":"@ + (run1 + ":"@ + activity1), company2, agent2 + ":"@ + (run2 + ":"@ + activity2));
        lemma_split_at_first_colon(agent1, run1 + ":"@ + activity1, agent2, run2 + ":"@ + activity2);
        lemma_split_at_first_colon(run1, activity1, run2, activity2);
    }
}

} // verus!
