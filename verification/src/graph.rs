//! The topology graph written to Neo4j: nodes for hosts, containers,
//! processes, routes and route endpoints, and the relations between them.
//! Every node and relation carries the company and agent that reported it,
//! and a node is identified by its raw identifier within that company and
//! agent: the statements merge nodes on all three.

use crate::domain::{NetworkTopologyPayload, ProtoContainer, ProtoHost, ProtoPort, ProtoProcess, ProtoRoute};
use crate::text::{copy_opt_string, copy_string, copy_string_list, int_decimal, push_int_decimal};
use crate::domain::copy_ports;
use std::collections::BTreeMap;
use vstd::prelude::*;

verus! {

// ---------------------------------------------------------------------------
// Identifiers
// ---------------------------------------------------------------------------

/// Raw identifier of a process: the owner's raw id, `-proc-`, the pid.
pub open spec fn process_raw_id(owner_raw: Seq<char>, pid: i32) -> Seq<char> {
    owner_raw + "-proc-"@ + int_decimal(pid as int)
}

/// The text of an optional string, empty when absent (`unwrap_or_default`).
pub open spec fn opt_text(o: Option<String>) -> Seq<char> {
    match o {
        Some(s) => s@,
        None => Seq::empty(),
    }
}

/// The published port as text, `none` when absent.
pub open spec fn published_port_text(o: Option<i32>) -> Seq<char> {
    match o {
        Some(n) => int_decimal(n as int),
        None => "none"@,
    }
}

/// Raw identifier of a route:
/// `kind:source_kind:source_name:target_kind:target_name:protocol:published_port`.
pub open spec fn route_raw_id(r: ProtoRoute) -> Seq<char> {
    r.kind@ + ":"@ + r.source_kind@ + ":"@ + r.source_name@ + ":"@ + r.target_kind@ + ":"@
        + r.target_name@ + ":"@ + r.protocol@ + ":"@ + published_port_text(r.published_port)
}

/// Raw identifier of a route endpoint: `kind:namespace:name`.
pub open spec fn endpoint_raw_id(kind: Seq<char>, namespace: Option<String>, name: Seq<char>) -> Seq<
    char,
> {
    kind + ":"@ + opt_text(namespace) + ":"@ + name
}

fn make_process_raw_id(owner_raw: &str, pid: i32) -> (r: String)
    ensures
        r@ == process_raw_id(owner_raw@, pid),
{
    let mut r = String::new();
    r.append(owner_raw);
    r.append("-proc-");
    push_int_decimal(&mut r, pid as i64);
    assert(r@ =~= process_raw_id(owner_raw@, pid));
    r
}

fn make_route_raw_id(r: &ProtoRoute) -> (s: String)
    ensures
        s@ == route_raw_id(*r),
{
    let mut s = String::new();
    s.append(r.kind.as_str());
    s.append(":");
    s.append(r.source_kind.as_str());
    s.append(":");
    s.append(r.source_name.as_str());
    s.append(":");
    s.append(r.target_kind.as_str());
    s.append(":");
    s.append(r.target_name.as_str());
    s.append(":");
    s.append(r.protocol.as_str());
    s.append(":");
    match r.published_port {
        Some(n) => push_int_decimal(&mut s, n as i64),
        None => s.append("none"),
    }
    assert(s@ =~= route_raw_id(*r));
    s
}

fn make_endpoint_raw_id(kind: &String, namespace: &Option<String>, name: &String) -> (s: String)
    ensures
        s@ == endpoint_raw_id(kind@, *namespace, name@),
{
    let mut s = String::new();
    s.append(kind.as_str());
    s.append(":");
    match namespace {
        Some(ns) => s.append(ns.as_str()),
        None => {},
    }
    s.append(":");
    s.append(name.as_str());
    assert(s@ =~= endpoint_raw_id(kind@, *namespace, name@));
    s
}

// ---------------------------------------------------------------------------
// Nodes and relations
// ---------------------------------------------------------------------------

/// A `Host` node.
pub struct HostNode {
    pub id: String,
    pub raw_id: String,
    pub agent_id: String,
    pub company_id: String,
    pub hostname: String,
    pub ip_addresses: Vec<String>,
}

/// A `Container` node.
pub struct ContainerNode {
    pub id: String,
    pub raw_id: String,
    pub agent_id: String,
    pub company_id: String,
    pub name: String,
    pub image: String,
    pub image_sha256: Option<String>,
    pub env: BTreeMap<String, String>,
    pub ports: Vec<ProtoPort>,
    pub exposed_ports: Vec<ProtoPort>,
    pub privileged: Option<bool>,
    pub run_as_root: Option<bool>,
    pub sensitive_volumes: Vec<String>,
}

/// A `Process` node.
pub struct ProcessNode {
    pub id: String,
    pub agent_id: String,
    pub company_id: String,
    pub pid: i32,
    pub name: String,
    pub command_line: Option<String>,
    pub user: Option<String>,
}

/// A `Route` node: the route's own fields under its raw identifier.
pub struct RouteNode {
    pub id: String,
    pub raw_id: String,
    pub agent_id: String,
    pub company_id: String,
    pub route: ProtoRoute,
}

/// A `RouteEndpoint` node: one end of a route.
pub struct EndpointNode {
    pub id: String,
    pub raw_id: String,
    pub agent_id: String,
    pub company_id: String,
    pub kind: String,
    pub name: String,
    pub namespace: Option<String>,
}

/// A relation from one node to another: their identifiers, and the company
/// and agent that both belong to.
pub struct Relation {
    pub from: String,
    pub to: String,
    pub company_id: String,
    pub agent_id: String,
}

pub struct HostNodeView {
    pub id: Seq<char>,
    pub raw_id: Seq<char>,
    pub agent_id: Seq<char>,
    pub company_id: Seq<char>,
    pub hostname: Seq<char>,
    pub ip_addresses: Seq<String>,
}

pub struct ContainerNodeView {
    pub id: Seq<char>,
    pub raw_id: Seq<char>,
    pub agent_id: Seq<char>,
    pub company_id: Seq<char>,
    pub name: Seq<char>,
    pub image: Seq<char>,
    pub image_sha256: Option<String>,
    pub env: Map<String, String>,
    pub ports: Seq<ProtoPort>,
    pub exposed_ports: Seq<ProtoPort>,
    pub privileged: Option<bool>,
    pub run_as_root: Option<bool>,
    pub sensitive_volumes: Seq<String>,
}

pub struct ProcessNodeView {
    pub id: Seq<char>,
    pub agent_id: Seq<char>,
    pub company_id: Seq<char>,
    pub pid: i32,
    pub name: Seq<char>,
    pub command_line: Option<String>,
    pub user: Option<String>,
}

pub struct RouteNodeView {
    pub id: Seq<char>,
    pub raw_id: Seq<char>,
    pub agent_id: Seq<char>,
    pub company_id: Seq<char>,
    pub route: ProtoRoute,
}

pub struct EndpointNodeView {
    pub id: Seq<char>,
    pub raw_id: Seq<char>,
    pub agent_id: Seq<char>,
    pub company_id: Seq<char>,
    pub kind: Seq<char>,
    pub name: Seq<char>,
    pub namespace: Option<String>,
}

pub struct RelationView {
    pub from: Seq<char>,
    pub to: Seq<char>,
    pub company_id: Seq<char>,
    pub agent_id: Seq<char>,
}

impl View for HostNode {
    type V = HostNodeView;

    open spec fn view(&self) -> HostNodeView {
        HostNodeView {
            id: self.id@,
            raw_id: self.raw_id@,
            agent_id: self.agent_id@,
            company_id: self.company_id@,
            hostname: self.hostname@,
            ip_addresses: self.ip_addresses@,
        }
    }
}

impl View for ContainerNode {
    type V = ContainerNodeView;

    open spec fn view(&self) -> ContainerNodeView {
        ContainerNodeView {
            id: self.id@,
            raw_id: self.raw_id@,
            agent_id: self.agent_id@,
            company_id: self.company_id@,
            name: self.name@,
            image: self.image@,
            image_sha256: self.image_sha256,
            env: self.env@,
            ports: self.ports@,
            exposed_ports: self.exposed_ports@,
            privileged: self.privileged,
            run_as_root: self.run_as_root,
            sensitive_volumes: self.sensitive_volumes@,
        }
    }
}

impl View for ProcessNode {
    type V = ProcessNodeView;

    open spec fn view(&self) -> ProcessNodeView {
        ProcessNodeView {
            id: self.id@,
            agent_id: self.agent_id@,
            company_id: self.company_id@,
            pid: self.pid,
            name: self.name@,
            command_line: self.command_line,
            user: self.user,
        }
    }
}

impl View for RouteNode {
    type V = RouteNodeView;

    open spec fn view(&self) -> RouteNodeView {
        RouteNodeView {
            id: self.id@,
            raw_id: self.raw_id@,
            agent_id: self.agent_id@,
            company_id: self.company_id@,
            route: self.route,
        }
    }
}

impl View for EndpointNode {
    type V = EndpointNodeView;

    open spec fn view(&self) -> EndpointNodeView {
        EndpointNodeView {
            id: self.id@,
            raw_id: self.raw_id@,
            agent_id: self.agent_id@,
            company_id: self.company_id@,
            kind: self.kind@,
            name: self.name@,
            namespace: self.namespace,
        }
    }
}

impl View for Relation {
    type V = RelationView;

    open spec fn view(&self) -> RelationView {
        RelationView {
            from: self.from@,
            to: self.to@,
            company_id: self.company_id@,
            agent_id: self.agent_id@,
        }
    }
}

// ---------------------------------------------------------------------------
// What each object of the payload becomes
// ---------------------------------------------------------------------------

pub open spec fn host_node_of(h: ProtoHost, company: Seq<char>, agent: Seq<char>) -> HostNodeView {
    HostNodeView {
        id: h.id@,
        raw_id: h.id@,
        agent_id: agent,
        company_id: company,
        hostname: h.hostname@,
        ip_addresses: h.ip_addresses@,
    }
}

pub open spec fn container_node_of(
    c: ProtoContainer,
    company: Seq<char>,
    agent: Seq<char>,
) -> ContainerNodeView {
    ContainerNodeView {
        id: c.id@,
        raw_id: c.id@,
        agent_id: agent,
        company_id: company,
        name: c.name@,
        image: c.image@,
        image_sha256: c.image_sha256,
        env: c.env@,
        ports: c.ports@,
        exposed_ports: c.exposed_ports@,
        privileged: c.privileged,
        run_as_root: c.run_as_root,
        sensitive_volumes: c.sensitive_volumes@,
    }
}

/// The relation from node `from` to node `to` of one company and agent.
pub open spec fn relation_of(from: Seq<char>, to: Seq<char>, company: Seq<char>, agent: Seq<char>) -> RelationView {
    RelationView { from, to, company_id: company, agent_id: agent }
}

pub open spec fn process_node_of(
    p: ProtoProcess,
    owner_raw: Seq<char>,
    company: Seq<char>,
    agent: Seq<char>,
) -> ProcessNodeView {
    ProcessNodeView {
        id: process_raw_id(owner_raw, p.pid),
        agent_id: agent,
        company_id: company,
        pid: p.pid,
        name: p.name@,
        command_line: p.command_line,
        user: p.user,
    }
}

pub open spec fn route_node_of(r: ProtoRoute, company: Seq<char>, agent: Seq<char>) -> RouteNodeView {
    RouteNodeView {
        id: route_raw_id(r),
        raw_id: route_raw_id(r),
        agent_id: agent,
        company_id: company,
        route: r,
    }
}

pub open spec fn source_endpoint_of(
    r: ProtoRoute,
    company: Seq<char>,
    agent: Seq<char>,
) -> EndpointNodeView {
    let raw = endpoint_raw_id(r.source_kind@, r.source_namespace, r.source_name@);
    EndpointNodeView {
        id: raw,
        raw_id: raw,
        agent_id: agent,
        company_id: company,
        kind: r.source_kind@,
        name: r.source_name@,
        namespace: r.source_namespace,
    }
}

pub open spec fn target_endpoint_of(
    r: ProtoRoute,
    company: Seq<char>,
    agent: Seq<char>,
) -> EndpointNodeView {
    let raw = endpoint_raw_id(r.target_kind@, r.target_namespace, r.target_name@);
    EndpointNodeView {
        id: raw,
        raw_id: raw,
        agent_id: agent,
        company_id: company,
        kind: r.target_kind@,
        name: r.target_name@,
        namespace: r.target_namespace,
    }
}

pub open spec fn host_views(v: Seq<HostNode>) -> Seq<HostNodeView> {
    v.map_values(|n: HostNode| n@)
}

pub open spec fn container_views(v: Seq<ContainerNode>) -> Seq<ContainerNodeView> {
    v.map_values(|n: ContainerNode| n@)
}

pub open spec fn process_views(v: Seq<ProcessNode>) -> Seq<ProcessNodeView> {
    v.map_values(|n: ProcessNode| n@)
}

pub open spec fn route_views(v: Seq<RouteNode>) -> Seq<RouteNodeView> {
    v.map_values(|n: RouteNode| n@)
}

pub open spec fn endpoint_views(v: Seq<EndpointNode>) -> Seq<EndpointNodeView> {
    v.map_values(|n: EndpointNode| n@)
}

pub open spec fn relation_views(v: Seq<Relation>) -> Seq<RelationView> {
    v.map_values(|n: Relation| n@)
}

/// Process nodes of the processes of one host or container, in order.
pub open spec fn owned_process_nodes(
    procs: Seq<ProtoProcess>,
    owner_raw: Seq<char>,
    company: Seq<char>,
    agent: Seq<char>,
) -> Seq<ProcessNodeView> {
    procs.map_values(|p: ProtoProcess| process_node_of(p, owner_raw, company, agent))
}

/// Relations from the owner with identifier `owner_raw` to each of its processes.
pub open spec fn owned_process_relations(
    procs: Seq<ProtoProcess>,
    owner_raw: Seq<char>,
    company: Seq<char>,
    agent: Seq<char>,
) -> Seq<RelationView> {
    procs.map_values(
        |p: ProtoProcess| relation_of(owner_raw, process_raw_id(owner_raw, p.pid), company, agent),
    )
}

/// Container nodes of the given containers, in order.
pub open spec fn container_nodes(
    cs: Seq<ProtoContainer>,
    company: Seq<char>,
    agent: Seq<char>,
) -> Seq<ContainerNodeView> {
    cs.map_values(|c: ProtoContainer| container_node_of(c, company, agent))
}

/// Relations from the host with identifier `host_id` to each of the given containers.
pub open spec fn host_container_relations(
    cs: Seq<ProtoContainer>,
    host_id: Seq<char>,
    company: Seq<char>,
    agent: Seq<char>,
) -> Seq<RelationView> {
    cs.map_values(|c: ProtoContainer| relation_of(host_id, c.id@, company, agent))
}

// ---------------------------------------------------------------------------
// The graph
// ---------------------------------------------------------------------------

/// All nodes and relations of one topology payload.
pub struct TopologyGraph {
    pub hosts: Vec<HostNode>,
    pub containers: Vec<ContainerNode>,
    pub processes: Vec<ProcessNode>,
    pub routes: Vec<RouteNode>,
    pub endpoints: Vec<EndpointNode>,
    pub host_containers: Vec<Relation>,
    pub host_processes: Vec<Relation>,
    pub container_processes: Vec<Relation>,
    pub route_sources: Vec<Relation>,
    pub route_targets: Vec<Relation>,
}

pub struct TopologyGraphView {
    pub hosts: Seq<HostNodeView>,
    pub containers: Seq<ContainerNodeView>,
    pub processes: Seq<ProcessNodeView>,
    pub routes: Seq<RouteNodeView>,
    pub endpoints: Seq<EndpointNodeView>,
    pub host_containers: Seq<RelationView>,
    pub host_processes: Seq<RelationView>,
    pub container_processes: Seq<RelationView>,
    pub route_sources: Seq<RelationView>,
    pub route_targets: Seq<RelationView>,
}

impl View for TopologyGraph {
    type V = TopologyGraphView;

    open spec fn view(&self) -> TopologyGraphView {
        TopologyGraphView {
            hosts: host_views(self.hosts@),
            containers: container_views(self.containers@),
            processes: process_views(self.processes@),
            routes: route_views(self.routes@),
            endpoints: endpoint_views(self.endpoints@),
            host_containers: relation_views(self.host_containers@),
            host_processes: relation_views(self.host_processes@),
            container_processes: relation_views(self.container_processes@),
            route_sources: relation_views(self.route_sources@),
            route_targets: relation_views(self.route_targets@),
        }
    }
}

pub open spec fn empty_graph() -> TopologyGraphView {
    TopologyGraphView {
        hosts: Seq::empty(),
        containers: Seq::empty(),
        processes: Seq::empty(),
        routes: Seq::empty(),
        endpoints: Seq::empty(),
        host_containers: Seq::empty(),
        host_processes: Seq::empty(),
        container_processes: Seq::empty(),
        route_sources: Seq::empty(),
        route_targets: Seq::empty(),
    }
}

/// Every list of `a` followed by the same list of `b`.
pub open spec fn graph_concat(a: TopologyGraphView, b: TopologyGraphView) -> TopologyGraphView {
    TopologyGraphView {
        hosts: a.hosts + b.hosts,
        containers: a.containers + b.containers,
        processes: a.processes + b.processes,
        routes: a.routes + b.routes,
        endpoints: a.endpoints + b.endpoints,
        host_containers: a.host_containers + b.host_containers,
        host_processes: a.host_processes + b.host_processes,
        container_processes: a.container_processes + b.container_processes,
        route_sources: a.route_sources + b.route_sources,
        route_targets: a.route_targets + b.route_targets,
    }
}

/// Process nodes of the processes of the given containers, container by container.
pub open spec fn containers_process_nodes(
    cs: Seq<ProtoContainer>,
    company: Seq<char>,
    agent: Seq<char>,
) -> Seq<ProcessNodeView>
    decreases cs.len(),
{
    if cs.len() == 0 {
        Seq::empty()
    } else {
        containers_process_nodes(cs.drop_last(), company, agent) + owned_process_nodes(
            cs.last().processes@,
            cs.last().id@,
            company,
            agent,
        )
    }
}

/// Container-to-process relations of the given containers, container by container.
pub open spec fn containers_process_relations(
    cs: Seq<ProtoContainer>,
    company: Seq<char>,
    agent: Seq<char>,
) -> Seq<RelationView>
    decreases cs.len(),
{
    if cs.len() == 0 {
        Seq::empty()
    } else {
        containers_process_relations(cs.drop_last(), company, agent) + owned_process_relations(
            cs.last().processes@,
            cs.last().id@,
            company,
            agent,
        )
    }
}

/// What one host contributes: its node, its processes, then its containers
/// each with their processes, and the relations between them.
pub open spec fn host_graph(h: ProtoHost, company: Seq<char>, agent: Seq<char>) -> TopologyGraphView {
    let host_id = h.id@;
    TopologyGraphView {
        hosts: seq![host_node_of(h, company, agent)],
        containers: container_nodes(h.containers@, company, agent),
        processes: owned_process_nodes(h.processes@, h.id@, company, agent)
            + containers_process_nodes(h.containers@, company, agent),
        routes: Seq::empty(),
        endpoints: Seq::empty(),
        host_containers: host_container_relations(h.containers@, host_id, company, agent),
        host_processes: owned_process_relations(h.processes@, h.id@, company, agent),
        container_processes: containers_process_relations(h.containers@, company, agent),
        route_sources: Seq::empty(),
        route_targets: Seq::empty(),
    }
}

/// What one route contributes: its node, its two endpoints, and the relations
/// from the route to its source and to its target.
pub open spec fn route_graph(r: ProtoRoute, company: Seq<char>, agent: Seq<char>) -> TopologyGraphView {
    let route_id = route_node_of(r, company, agent).id;
    TopologyGraphView {
        hosts: Seq::empty(),
        containers: Seq::empty(),
        processes: Seq::empty(),
        routes: seq![route_node_of(r, company, agent)],
        endpoints: seq![source_endpoint_of(r, company, agent), target_endpoint_of(r, company, agent)],
        host_containers: Seq::empty(),
        host_processes: Seq::empty(),
        container_processes: Seq::empty(),
        route_sources: seq![
            relation_of(route_id, source_endpoint_of(r, company, agent).id, company, agent),
        ],
        route_targets: seq![
            relation_of(route_id, target_endpoint_of(r, company, agent).id, company, agent),
        ],
    }
}

/// The contributions of the given hosts, in order.
pub open spec fn hosts_graph(hs: Seq<ProtoHost>, company: Seq<char>, agent: Seq<char>) -> TopologyGraphView
    decreases hs.len(),
{
    if hs.len() == 0 {
        empty_graph()
    } else {
        graph_concat(hosts_graph(hs.drop_last(), company, agent), host_graph(hs.last(), company, agent))
    }
}

/// `base` followed by the contributions of the given routes, in order.
pub open spec fn with_routes(
    base: TopologyGraphView,
    rs: Seq<ProtoRoute>,
    company: Seq<char>,
    agent: Seq<char>,
) -> TopologyGraphView
    decreases rs.len(),
{
    if rs.len() == 0 {
        base
    } else {
        graph_concat(with_routes(base, rs.drop_last(), company, agent), route_graph(rs.last(), company, agent))
    }
}

/// The graph of a payload: the hosts' contributions, then the routes'.
pub open spec fn topology_graph(
    p: NetworkTopologyPayload,
    company: Seq<char>,
    agent: Seq<char>,
) -> TopologyGraphView {
    with_routes(hosts_graph(p.hosts@, company, agent), p.routes@, company, agent)
}

} // verus!

verus! {

// ---------------------------------------------------------------------------
// Building the graph
// ---------------------------------------------------------------------------

impl TopologyGraph {
    /// A graph with no nodes and no relations.
    pub fn new() -> (g: TopologyGraph)
        ensures
            g@ == empty_graph(),
    {
        let g = TopologyGraph {
            hosts: Vec::new(),
            containers: Vec::new(),
            processes: Vec::new(),
            routes: Vec::new(),
            endpoints: Vec::new(),
            host_containers: Vec::new(),
            host_processes: Vec::new(),
            container_processes: Vec::new(),
            route_sources: Vec::new(),
            route_targets: Vec::new(),
        };
        assert(g@ == empty_graph()) by {
            assert(g@.hosts =~= empty_graph().hosts);
            assert(g@.containers =~= empty_graph().containers);
            assert(g@.processes =~= empty_graph().processes);
            assert(g@.routes =~= empty_graph().routes);
            assert(g@.endpoints =~= empty_graph().endpoints);
            assert(g@.host_containers =~= empty_graph().host_containers);
            assert(g@.host_processes =~= empty_graph().host_processes);
            assert(g@.container_processes =~= empty_graph().container_processes);
            assert(g@.route_sources =~= empty_graph().route_sources);
            assert(g@.route_targets =~= empty_graph().route_targets);
        }
        g
    }

    /// Appends every list of `other` to the same list of `self`.
    fn append_graph(&mut self, other: TopologyGraph)
        ensures
            final(self)@ == graph_concat(old(self)@, other@),
    {
        let ghost o = other@;
        let mut other = other;
        self.hosts.append(&mut other.hosts);
        self.containers.append(&mut other.containers);
        self.processes.append(&mut other.processes);
        self.routes.append(&mut other.routes);
        self.endpoints.append(&mut other.endpoints);
        self.host_containers.append(&mut other.host_containers);
        self.host_processes.append(&mut other.host_processes);
        self.container_processes.append(&mut other.container_processes);
        self.route_sources.append(&mut other.route_sources);
        self.route_targets.append(&mut other.route_targets);
        let ghost want = graph_concat(old(self)@, o);
        assert(self@.hosts =~= want.hosts);
        assert(self@.containers =~= want.containers);
        assert(self@.processes =~= want.processes);
        assert(self@.routes =~= want.routes);
        assert(self@.endpoints =~= want.endpoints);
        assert(self@.host_containers =~= want.host_containers);
        assert(self@.host_processes =~= want.host_processes);
        assert(self@.container_processes =~= want.container_processes);
        assert(self@.route_sources =~= want.route_sources);
        assert(self@.route_targets =~= want.route_targets);
    }
}

fn relation(from: String, to: String, company_id: &str, agent_id: &str) -> (r: Relation)
    ensures
        r@ == relation_of(from@, to@, company_id@, agent_id@),
{
    Relation { from, to, company_id: company_id.to_owned(), agent_id: agent_id.to_owned() }
}

fn process_node(p: &ProtoProcess, owner_raw: &str, company_id: &str, agent_id: &str) -> (n:
    ProcessNode)
    ensures
        n@ == process_node_of(*p, owner_raw@, company_id@, agent_id@),
{
    let raw = make_process_raw_id(owner_raw, p.pid);
    ProcessNode {
        id: raw,
        agent_id: agent_id.to_owned(),
        company_id: company_id.to_owned(),
        pid: p.pid,
        name: p.name.clone(),
        command_line: copy_opt_string(&p.command_line),
        user: copy_opt_string(&p.user),
    }
}

fn container_node(c: &ProtoContainer, company_id: &str, agent_id: &str) -> (n: ContainerNode)
    ensures
        n@ == container_node_of(*c, company_id@, agent_id@),
{
    ContainerNode {
        id: c.id.clone(),
        raw_id: c.id.clone(),
        agent_id: agent_id.to_owned(),
        company_id: company_id.to_owned(),
        name: c.name.clone(),
        image: c.image.clone(),
        image_sha256: copy_opt_string(&c.image_sha256),
        env: c.env.clone(),
        ports: copy_ports(&c.ports),
        exposed_ports: copy_ports(&c.exposed_ports),
        privileged: c.privileged,
        run_as_root: c.run_as_root,
        sensitive_volumes: copy_string_list(&c.sensitive_volumes),
    }
}

/// Process nodes of the processes of one owner, and relations from the owner to them.
fn owned_processes(
    procs: &Vec<ProtoProcess>,
    owner_raw: &str,
    company_id: &str,
    agent_id: &str,
) -> (r: (Vec<ProcessNode>, Vec<Relation>))
    ensures
        process_views(r.0@) == owned_process_nodes(procs@, owner_raw@, company_id@, agent_id@),
        relation_views(r.1@) == owned_process_relations(
            procs@,
            owner_raw@,
            company_id@,
            agent_id@,
        ),
{
    let ghost nodes_want = owned_process_nodes(procs@, owner_raw@, company_id@, agent_id@);
    let ghost rels_want = owned_process_relations(
        procs@,
        owner_raw@,
        company_id@,
        agent_id@,
    );
    let mut nodes: Vec<ProcessNode> = Vec::new();
    let mut rels: Vec<Relation> = Vec::new();
    let mut i: usize = 0;
    while i < procs.len()
        invariant
            i <= procs.len(),
            nodes_want == owned_process_nodes(procs@, owner_raw@, company_id@, agent_id@),
            rels_want == owned_process_relations(
                procs@,
                owner_raw@,
                company_id@,
                agent_id@,
            ),
            process_views(nodes@) == nodes_want.take(i as int),
            relation_views(rels@) == rels_want.take(i as int),
        decreases procs.len() - i,
    {
        let n = process_node(&procs[i], owner_raw, company_id, agent_id);
        let to = copy_string(&n.id);
        assert(process_views(nodes@).len() == nodes@.len());
        assert(relation_views(rels@).len() == rels@.len());
        assert(nodes_want.take(i as int).len() == i);
        assert(rels_want.take(i as int).len() == i);
        nodes.push(n);
        rels.push(relation(owner_raw.to_owned(), to, company_id, agent_id));
        assert(process_views(nodes@) =~= nodes_want.take(i + 1));
        assert(relation_views(rels@) =~= rels_want.take(i + 1));
        i = i + 1;
    }
    assert(nodes_want.take(i as int) =~= nodes_want);
    assert(rels_want.take(i as int) =~= rels_want);
    (nodes, rels)
}

/// The contribution of one host.
fn host_part(h: &ProtoHost, company_id: &str, agent_id: &str) -> (g: TopologyGraph)
    ensures
        g@ == host_graph(*h, company_id@, agent_id@),
{
    let ghost company = company_id@;
    let ghost agent = agent_id@;
    let ghost want = host_graph(*h, company, agent);
    let host_id = h.id.clone();
    let mut hosts: Vec<HostNode> = Vec::new();
    hosts.push(
        HostNode {
            id: host_id.clone(),
            raw_id: h.id.clone(),
            agent_id: agent_id.to_owned(),
            company_id: company_id.to_owned(),
            hostname: h.hostname.clone(),
            ip_addresses: copy_string_list(&h.ip_addresses),
        },
    );
    assert(host_views(hosts@) =~= want.hosts);
    let (mut processes, host_processes) = owned_processes(
        &h.processes,
        h.id.as_str(),
        company_id,
        agent_id,
    );
    let ghost host_procs = process_views(processes@);
    let ghost cs = h.containers@;
    let mut containers: Vec<ContainerNode> = Vec::new();
    let mut host_containers: Vec<Relation> = Vec::new();
    let mut container_processes: Vec<Relation> = Vec::new();
    let mut j: usize = 0;
    while j < h.containers.len()
        invariant
            j <= h.containers.len(),
            cs == h.containers@,
            company == company_id@,
            agent == agent_id@,
            want == host_graph(*h, company, agent),
            host_id@ == h.id@,
            host_procs == owned_process_nodes(h.processes@, h.id@, company, agent),
            relation_views(host_processes@) == want.host_processes,
            container_views(containers@) == want.containers.take(j as int),
            relation_views(host_containers@) == want.host_containers.take(j as int),
            process_views(processes@) == host_procs + containers_process_nodes(
                cs.take(j as int),
                company,
                agent,
            ),
            relation_views(container_processes@) == containers_process_relations(
                cs.take(j as int),
                company,
                agent,
            ),
        decreases h.containers.len() - j,
    {
        let c = &h.containers[j];
        assert(container_views(containers@).len() == containers@.len());
        assert(relation_views(host_containers@).len() == host_containers@.len());
        assert(want.containers.take(j as int).len() == j);
        assert(want.host_containers.take(j as int).len() == j);
        containers.push(container_node(c, company_id, agent_id));
        host_containers.push(relation(host_id.clone(), c.id.clone(), company_id, agent_id));
        assert(container_views(containers@) =~= want.containers.take(j + 1));
        assert(relation_views(host_containers@) =~= want.host_containers.take(j + 1));
        let ghost procs_before = process_views(processes@);
        let ghost rels_before = relation_views(container_processes@);
        let (mut c_nodes, mut c_rels) = owned_processes(
            &c.processes,
            c.id.as_str(),
            company_id,
            agent_id,
        );
        let ghost c_nodes_v = process_views(c_nodes@);
        let ghost c_rels_v = relation_views(c_rels@);
        processes.append(&mut c_nodes);
        container_processes.append(&mut c_rels);
        proof {
            assert(process_views(processes@) =~= procs_before + c_nodes_v);
            assert(relation_views(container_processes@) =~= rels_before + c_rels_v);
            let t = cs.take(j + 1);
            assert(t.drop_last() =~= cs.take(j as int));
            assert(t.last() == cs[j as int]);
        }
        j = j + 1;
    }
    proof {
        assert(cs.take(j as int) =~= cs);
        assert(want.containers.take(j as int) =~= want.containers);
        assert(want.host_containers.take(j as int) =~= want.host_containers);
    }
    let g = TopologyGraph {
        hosts,
        containers,
        processes,
        routes: Vec::new(),
        endpoints: Vec::new(),
        host_containers,
        host_processes,
        container_processes,
        route_sources: Vec::new(),
        route_targets: Vec::new(),
    };
    assert(g@.routes =~= want.routes);
    assert(g@.endpoints =~= want.endpoints);
    assert(g@.route_sources =~= want.route_sources);
    assert(g@.route_targets =~= want.route_targets);
    g
}

/// The contribution of one route.
fn route_part(r: &ProtoRoute, company_id: &str, agent_id: &str) -> (g: TopologyGraph)
    ensures
        g@ == route_graph(*r, company_id@, agent_id@),
{
    let ghost company = company_id@;
    let ghost agent = agent_id@;
    let ghost want = route_graph(*r, company, agent);
    let route_raw = make_route_raw_id(r);
    let route_id = copy_string(&route_raw);
    let source_raw = make_endpoint_raw_id(&r.source_kind, &r.source_namespace, &r.source_name);
    let target_raw = make_endpoint_raw_id(&r.target_kind, &r.target_namespace, &r.target_name);
    let source_id = copy_string(&source_raw);
    let target_id = copy_string(&target_raw);
    let route = RouteNode {
        id: route_id.clone(),
        raw_id: route_raw,
        agent_id: agent_id.to_owned(),
        company_id: company_id.to_owned(),
        route: r.duplicate(),
    };
    assert(route@ == want.routes[0]);
    let source = EndpointNode {
        id: source_id.clone(),
        raw_id: source_raw,
        agent_id: agent_id.to_owned(),
        company_id: company_id.to_owned(),
        kind: r.source_kind.clone(),
        name: r.source_name.clone(),
        namespace: copy_opt_string(&r.source_namespace),
    };
    assert(source@ == want.endpoints[0]);
    let target = EndpointNode {
        id: target_id.clone(),
        raw_id: target_raw,
        agent_id: agent_id.to_owned(),
        company_id: company_id.to_owned(),
        kind: r.target_kind.clone(),
        name: r.target_name.clone(),
        namespace: copy_opt_string(&r.target_namespace),
    };
    assert(target@ == want.endpoints[1]);
    let from_source = relation(route_id.clone(), source_id, company_id, agent_id);
    let from_target = relation(route_id, target_id, company_id, agent_id);
    assert(from_source@ == want.route_sources[0]);
    assert(from_target@ == want.route_targets[0]);
    let mut routes: Vec<RouteNode> = Vec::new();
    routes.push(route);
    let mut endpoints: Vec<EndpointNode> = Vec::new();
    endpoints.push(source);
    endpoints.push(target);
    let mut route_sources: Vec<Relation> = Vec::new();
    route_sources.push(from_source);
    let mut route_targets: Vec<Relation> = Vec::new();
    route_targets.push(from_target);
    let g = TopologyGraph {
        hosts: Vec::new(),
        containers: Vec::new(),
        processes: Vec::new(),
        routes,
        endpoints,
        host_containers: Vec::new(),
        host_processes: Vec::new(),
        container_processes: Vec::new(),
        route_sources,
        route_targets,
    };
    assert(g@.routes =~= want.routes);
    assert(g@.endpoints =~= want.endpoints);
    assert(g@.route_sources =~= want.route_sources);
    assert(g@.route_targets =~= want.route_targets);
    assert(g@.hosts =~= want.hosts);
    assert(g@.containers =~= want.containers);
    assert(g@.processes =~= want.processes);
    assert(g@.host_containers =~= want.host_containers);
    assert(g@.host_processes =~= want.host_processes);
    assert(g@.container_processes =~= want.container_processes);
    g
}

/// Builds the graph of a topology payload reported by `agent_id` for `company_id`.
#[verifier::loop_isolation(false)]
pub fn build_topology_graph(payload: &NetworkTopologyPayload, agent_id: &str, company_id: &str) -> (g:
    TopologyGraph)
    ensures
        g@ == topology_graph(*payload, company_id@, agent_id@),
{
    let ghost company = company_id@;
    let ghost agent = agent_id@;
    let ghost hs = payload.hosts@;
    let ghost rs = payload.routes@;
    let mut g = TopologyGraph::new();
    let mut i: usize = 0;
    while i < payload.hosts.len()
        invariant
            i <= payload.hosts.len(),
            hs == payload.hosts@,
            g@ == hosts_graph(hs.take(i as int), company, agent),
        decreases payload.hosts.len() - i,
    {
        g.append_graph(host_part(&payload.hosts[i], company_id, agent_id));
        proof {
            let t = hs.take(i + 1);
            assert(t.drop_last() =~= hs.take(i as int));
            assert(t.last() == hs[i as int]);
        }
        i = i + 1;
    }
    assert(hs.take(i as int) =~= hs);
    let ghost base = g@;
    let mut k: usize = 0;
    while k < payload.routes.len()
        invariant
            k <= payload.routes.len(),
            rs == payload.routes@,
            g@ == with_routes(base, rs.take(k as int), company, agent),
        decreases payload.routes.len() - k,
    {
        g.append_graph(route_part(&payload.routes[k], company_id, agent_id));
        proof {
            let t = rs.take(k + 1);
            assert(t.drop_last() =~= rs.take(k as int));
            assert(t.last() == rs[k as int]);
        }
        k = k + 1;
    }
    assert(rs.take(k as int) =~= rs);
    g
}

} // verus!

verus! {

// ---------------------------------------------------------------------------
// Cypher statements of one transaction
// ---------------------------------------------------------------------------

/// `alias.name = var.name`: copies one property of an unwound row onto a node.
pub open spec fn property_assignment(alias: Seq<char>, var: Seq<char>, name: Seq<char>) -> Seq<char> {
    alias + "."@ + name + " = "@ + var + "."@ + name
}

/// The assignments of `names`, in order, separated by `, `.
pub open spec fn property_assignments(alias: Seq<char>, var: Seq<char>, names: Seq<Seq<char>>) -> Seq<
    char,
>
    decreases names.len(),
{
    if names.len() == 0 {
        Seq::empty()
    } else if names.len() == 1 {
        property_assignment(alias, var, names[0])
    } else {
        property_assignments(alias, var, names.drop_last()) + ", "@ + property_assignment(
            alias,
            var,
            names.last(),
        )
    }
}

/// The statement that merges a `label` node, found by its `id`, `companyId`
/// and `agentId`, for each row of `$parameter`, and sets its properties
/// `names` from the row.
pub open spec fn merge_nodes_statement(
    parameter: Seq<char>,
    var: Seq<char>,
    alias: Seq<char>,
    label: Seq<char>,
    names: Seq<Seq<char>>,
) -> Seq<char> {
    "UNWIND $"@ + parameter + " AS "@ + var + " MERGE ("@ + alias + ":"@ + label + " {id: "@ + var
        + ".id, companyId: "@ + var + ".companyId, agentId: "@ + var + ".agentId}) SET "@
        + property_assignments(alias, var, names)
}

/// The statement that, for each row of `$relations`, links the node whose
/// `id` is the row's `from_key` to the node whose `id` is its `to_key`, both
/// of the row's `companyId` and `agentId`.
pub open spec fn link_statement(
    from_alias: Seq<char>,
    from_label: Seq<char>,
    from_key: Seq<char>,
    to_alias: Seq<char>,
    to_label: Seq<char>,
    to_key: Seq<char>,
    relationship: Seq<char>,
) -> Seq<char> {
    "UNWIND $relations AS relation MATCH ("@ + from_alias + ":"@ + from_label + " {id: relation."@
        + from_key + ", companyId: relation.companyId, agentId: relation.agentId}), ("@ + to_alias
        + ":"@ + to_label + " {id: relation."@ + to_key
        + ", companyId: relation.companyId, agentId: relation.agentId}) MERGE ("@ + from_alias
        + ")-[:"@ + relationship + "]->("@ + to_alias + ")"@
}

/// The properties a `Host` statement sets, besides the `id` it merges on.
pub open spec fn host_property_names() -> Seq<Seq<char>> {
    seq!["rawId"@, "agentId"@, "companyId"@, "hostname"@, "ipAddresses"@]
}

/// The properties a `Container` statement sets, besides its `id`.
pub open spec fn container_property_names() -> Seq<Seq<char>> {
    seq![
        "rawId"@,
        "agentId"@,
        "companyId"@,
        "name"@,
        "image"@,
        "imageSha256"@,
        "env"@,
        "ports"@,
        "exposedPorts"@,
        "privileged"@,
        "runAsRoot"@,
        "sensitiveVolumes"@,
    ]
}

/// The properties a `Process` statement sets, besides its `id`.
pub open spec fn process_property_names() -> Seq<Seq<char>> {
    seq!["agentId"@, "companyId"@, "name"@, "commandLine"@, "user"@, "pid"@]
}

/// The properties a `Route` statement sets, besides its `id`.
pub open spec fn route_property_names() -> Seq<Seq<char>> {
    seq![
        "rawId"@,
        "agentId"@,
        "companyId"@,
        "kind"@,
        "sourceKind"@,
        "sourceName"@,
        "sourceNamespace"@,
        "targetKind"@,
        "targetName"@,
        "targetNamespace"@,
        "host"@,
        "path"@,
        "pathType"@,
        "protocol"@,
        "sourcePort"@,
        "targetPort"@,
        "publishedPort"@,
    ]
}

/// The properties a `RouteEndpoint` statement sets, besides its `id`.
pub open spec fn endpoint_property_names() -> Seq<Seq<char>> {
    seq!["rawId"@, "agentId"@, "companyId"@, "kind"@, "name"@, "namespace"@]
}

pub open spec fn hosts_statement() -> Seq<char> {
    merge_nodes_statement("hosts"@, "host"@, "h"@, "Host"@, host_property_names())
}

pub open spec fn containers_statement() -> Seq<char> {
    merge_nodes_statement("containers"@, "container"@, "c"@, "Container"@, container_property_names())
}

pub open spec fn processes_statement() -> Seq<char> {
    merge_nodes_statement("processes"@, "process"@, "p"@, "Process"@, process_property_names())
}

pub open spec fn routes_statement() -> Seq<char> {
    merge_nodes_statement("routes"@, "route"@, "r"@, "Route"@, route_property_names())
}

pub open spec fn endpoints_statement() -> Seq<char> {
    merge_nodes_statement("endpoints"@, "endpoint"@, "e"@, "RouteEndpoint"@, endpoint_property_names())
}

/// The views of a list of names.
pub open spec fn name_views(names: Seq<&str>) -> Seq<Seq<char>> {
    names.map_values(|n: &str| n@)
}

fn host_names() -> (v: Vec<&'static str>)
    ensures
        name_views(v@) == host_property_names(),
{
    let v = vec!["rawId", "agentId", "companyId", "hostname", "ipAddresses"];
    assert(name_views(v@) =~= host_property_names());
    v
}

fn container_names() -> (v: Vec<&'static str>)
    ensures
        name_views(v@) == container_property_names(),
{
    let v = vec![
        "rawId",
        "agentId",
        "companyId",
        "name",
        "image",
        "imageSha256",
        "env",
        "ports",
        "exposedPorts",
        "privileged",
        "runAsRoot",
        "sensitiveVolumes",
    ];
    assert(name_views(v@) =~= container_property_names());
    v
}

fn process_names() -> (v: Vec<&'static str>)
    ensures
        name_views(v@) == process_property_names(),
{
    let v = vec!["agentId", "companyId", "name", "commandLine", "user", "pid"];
    assert(name_views(v@) =~= process_property_names());
    v
}

fn route_names() -> (v: Vec<&'static str>)
    ensures
        name_views(v@) == route_property_names(),
{
    let v = vec![
        "rawId",
        "agentId",
        "companyId",
        "kind",
        "sourceKind",
        "sourceName",
        "sourceNamespace",
        "targetKind",
        "targetName",
        "targetNamespace",
        "host",
        "path",
        "pathType",
        "protocol",
        "sourcePort",
        "targetPort",
        "publishedPort",
    ];
    assert(name_views(v@) =~= route_property_names());
    v
}

fn endpoint_names() -> (v: Vec<&'static str>)
    ensures
        name_views(v@) == endpoint_property_names(),
{
    let v = vec!["rawId", "agentId", "companyId", "kind", "name", "namespace"];
    assert(name_views(v@) =~= endpoint_property_names());
    v
}

fn push_property_assignment(out: &mut String, alias: &str, var: &str, name: &str)
    ensures
        final(out)@ == old(out)@ + property_assignment(alias@, var@, name@),
{
    out.append(alias);
    out.append(".");
    out.append(name);
    out.append(" = ");
    out.append(var);
    out.append(".");
    out.append(name);
    assert(final(out)@ =~= old(out)@ + property_assignment(alias@, var@, name@));
}

fn push_property_assignments(out: &mut String, alias: &str, var: &str, names: &Vec<&'static str>)
    ensures
        final(out)@ == old(out)@ + property_assignments(alias@, var@, name_views(names@)),
{
    let ghost start = out@;
    let ghost nv = name_views(names@);
    let mut i: usize = 0;
    assert(nv.take(0) =~= Seq::<Seq<char>>::empty());
    while i < names.len()
        invariant
            i <= names@.len(),
            nv == name_views(names@),
            out@ == start + property_assignments(alias@, var@, nv.take(i as int)),
        decreases names.len() - i,
    {
        let ghost t = nv.take(i + 1);
        assert(t.len() == i + 1);
        assert(t[i as int] == names@[i as int]@);
        if i == 0 {
            push_property_assignment(out, alias, var, names[i]);
            assert(t =~= seq![names@[0]@]);
            assert(out@ =~= start + property_assignments(alias@, var@, t));
        } else {
            out.append(", ");
            push_property_assignment(out, alias, var, names[i]);
            assert(t.drop_last() =~= nv.take(i as int));
            assert(out@ =~= start + property_assignments(alias@, var@, t));
        }
        i = i + 1;
    }
    assert(nv.take(i as int) =~= nv);
}

/// The text of `merge_nodes_statement`.
fn merge_nodes_text(parameter: &str, var: &str, alias: &str, label: &str, names: &Vec<&'static str>) -> (s:
    String)
    ensures
        s@ == merge_nodes_statement(parameter@, var@, alias@, label@, name_views(names@)),
{
    let mut s = String::new();
    s.append("UNWIND $");
    s.append(parameter);
    s.append(" AS ");
    s.append(var);
    s.append(" MERGE (");
    s.append(alias);
    s.append(":");
    s.append(label);
    s.append(" {id: ");
    s.append(var);
    s.append(".id, companyId: ");
    s.append(var);
    s.append(".companyId, agentId: ");
    s.append(var);
    s.append(".agentId}) SET ");
    push_property_assignments(&mut s, alias, var, names);
    assert(s@ =~= merge_nodes_statement(parameter@, var@, alias@, label@, name_views(names@)));
    s
}

/// The text of `link_statement`.
fn link_text(
    from_alias: &str,
    from_label: &str,
    from_key: &str,
    to_alias: &str,
    to_label: &str,
    to_key: &str,
    relationship: &str,
) -> (s: String)
    ensures
        s@ == link_statement(from_alias@, from_label@, from_key@, to_alias@, to_label@, to_key@, relationship@),
{
    let mut s = String::new();
    s.append("UNWIND $relations AS relation MATCH (");
    s.append(from_alias);
    s.append(":");
    s.append(from_label);
    s.append(" {id: relation.");
    s.append(from_key);
    s.append(", companyId: relation.companyId, agentId: relation.agentId}), (");
    s.append(to_alias);
    s.append(":");
    s.append(to_label);
    s.append(" {id: relation.");
    s.append(to_key);
    s.append(", companyId: relation.companyId, agentId: relation.agentId}) MERGE (");
    s.append(from_alias);
    s.append(")-[:");
    s.append(relationship);
    s.append("]->(");
    s.append(to_alias);
    s.append(")");
    assert(s@ =~= link_statement(
        from_alias@,
        from_label@,
        from_key@,
        to_alias@,
        to_label@,
        to_key@,
        relationship@,
    ));
    s
}

/// A property value of a node, as it is sent in a statement's rows.
pub enum PropertyValue {
    Text(String),
    OptionalText(Option<String>),
    Number(i32),
    OptionalNumber(Option<i32>),
    OptionalFlag(Option<bool>),
    TextList(Vec<String>),
    TextMap(BTreeMap<String, String>),
    Ports(Vec<ProtoPort>),
}

/// A property of a row: the name the statement reads it under, and its value.
pub struct NodeProperty {
    pub name: &'static str,
    pub value: PropertyValue,
}

pub open spec fn property_name(p: NodeProperty) -> Seq<char> {
    p.name@
}

pub open spec fn property_value(p: NodeProperty) -> PropertyValue {
    p.value
}

/// The names of a row's properties, in order.
pub open spec fn property_names(p: Seq<NodeProperty>) -> Seq<Seq<char>> {
    p.map_values(|x: NodeProperty| property_name(x))
}

/// The values of a row's properties, in order.
pub open spec fn property_values(p: Seq<NodeProperty>) -> Seq<PropertyValue> {
    p.map_values(|x: NodeProperty| property_value(x))
}

impl HostNode {
    /// The row of this node in the `Host` statement: its `id`, then the
    /// properties that the statement sets, under the names it reads them by.
    pub fn into_properties(self) -> (p: Vec<NodeProperty>)
        ensures
            property_names(p@) == seq!["id"@] + host_property_names(),
            property_values(p@) == seq![
                PropertyValue::Text(self.id),
                PropertyValue::Text(self.raw_id),
                PropertyValue::Text(self.agent_id),
                PropertyValue::Text(self.company_id),
                PropertyValue::Text(self.hostname),
                PropertyValue::TextList(self.ip_addresses),
            ],
    {
        let ghost n = self;
        let p = vec![
            NodeProperty { name: "id", value: PropertyValue::Text(self.id) },
            NodeProperty { name: "rawId", value: PropertyValue::Text(self.raw_id) },
            NodeProperty { name: "agentId", value: PropertyValue::Text(self.agent_id) },
            NodeProperty { name: "companyId", value: PropertyValue::Text(self.company_id) },
            NodeProperty { name: "hostname", value: PropertyValue::Text(self.hostname) },
            NodeProperty { name: "ipAddresses", value: PropertyValue::TextList(self.ip_addresses) },
        ];
        assert(property_names(p@) =~= seq!["id"@] + host_property_names());
        assert(property_values(p@) =~= seq![
            PropertyValue::Text(n.id),
            PropertyValue::Text(n.raw_id),
            PropertyValue::Text(n.agent_id),
            PropertyValue::Text(n.company_id),
            PropertyValue::Text(n.hostname),
            PropertyValue::TextList(n.ip_addresses),
        ]);
        p
    }
}

impl ContainerNode {
    /// The row of this node in the `Container` statement: its `id`, then the
    /// properties that the statement sets, under the names it reads them by.
    pub fn into_properties(self) -> (p: Vec<NodeProperty>)
        ensures
            property_names(p@) == seq!["id"@] + container_property_names(),
            property_values(p@) == seq![
                PropertyValue::Text(self.id),
                PropertyValue::Text(self.raw_id),
                PropertyValue::Text(self.agent_id),
                PropertyValue::Text(self.company_id),
                PropertyValue::Text(self.name),
                PropertyValue::Text(self.image),
                PropertyValue::OptionalText(self.image_sha256),
                PropertyValue::TextMap(self.env),
                PropertyValue::Ports(self.ports),
                PropertyValue::Ports(self.exposed_ports),
                PropertyValue::OptionalFlag(self.privileged),
                PropertyValue::OptionalFlag(self.run_as_root),
                PropertyValue::TextList(self.sensitive_volumes),
            ],
    {
        let ghost n = self;
        let p = vec![
            NodeProperty { name: "id", value: PropertyValue::Text(self.id) },
            NodeProperty { name: "rawId", value: PropertyValue::Text(self.raw_id) },
            NodeProperty { name: "agentId", value: PropertyValue::Text(self.agent_id) },
            NodeProperty { name: "companyId", value: PropertyValue::Text(self.company_id) },
            NodeProperty { name: "name", value: PropertyValue::Text(self.name) },
            NodeProperty { name: "image", value: PropertyValue::Text(self.image) },
            NodeProperty { name: "imageSha256", value: PropertyValue::OptionalText(self.image_sha256) },
            NodeProperty { name: "env", value: PropertyValue::TextMap(self.env) },
            NodeProperty { name: "ports", value: PropertyValue::Ports(self.ports) },
            NodeProperty { name: "exposedPorts", value: PropertyValue::Ports(self.exposed_ports) },
            NodeProperty { name: "privileged", value: PropertyValue::OptionalFlag(self.privileged) },
            NodeProperty { name: "runAsRoot", value: PropertyValue::OptionalFlag(self.run_as_root) },
            NodeProperty {
                name: "sensitiveVolumes",
                value: PropertyValue::TextList(self.sensitive_volumes),
            },
        ];
        assert(property_names(p@) =~= seq!["id"@] + container_property_names());
        assert(property_values(p@) =~= seq![
            PropertyValue::Text(n.id),
            PropertyValue::Text(n.raw_id),
            PropertyValue::Text(n.agent_id),
            PropertyValue::Text(n.company_id),
            PropertyValue::Text(n.name),
            PropertyValue::Text(n.image),
            PropertyValue::OptionalText(n.image_sha256),
            PropertyValue::TextMap(n.env),
            PropertyValue::Ports(n.ports),
            PropertyValue::Ports(n.exposed_ports),
            PropertyValue::OptionalFlag(n.privileged),
            PropertyValue::OptionalFlag(n.run_as_root),
            PropertyValue::TextList(n.sensitive_volumes),
        ]);
        p
    }
}

impl ProcessNode {
    /// The row of this node in the `Process` statement: its `id`, then the
    /// properties that the statement sets, under the names it reads them by.
    pub fn into_properties(self) -> (p: Vec<NodeProperty>)
        ensures
            property_names(p@) == seq!["id"@] + process_property_names(),
            property_values(p@) == seq![
                PropertyValue::Text(self.id),
                PropertyValue::Text(self.agent_id),
                PropertyValue::Text(self.company_id),
                PropertyValue::Text(self.name),
                PropertyValue::OptionalText(self.command_line),
                PropertyValue::OptionalText(self.user),
                PropertyValue::Number(self.pid),
            ],
    {
        let ghost n = self;
        let p = vec![
            NodeProperty { name: "id", value: PropertyValue::Text(self.id) },
            NodeProperty { name: "agentId", value: PropertyValue::Text(self.agent_id) },
            NodeProperty { name: "companyId", value: PropertyValue::Text(self.company_id) },
            NodeProperty { name: "name", value: PropertyValue::Text(self.name) },
            NodeProperty { name: "commandLine", value: PropertyValue::OptionalText(self.command_line) },
            NodeProperty { name: "user", value: PropertyValue::OptionalText(self.user) },
            NodeProperty { name: "pid", value: PropertyValue::Number(self.pid) },
        ];
        assert(property_names(p@) =~= seq!["id"@] + process_property_names());
        assert(property_values(p@) =~= seq![
            PropertyValue::Text(n.id),
            PropertyValue::Text(n.agent_id),
            PropertyValue::Text(n.company_id),
            PropertyValue::Text(n.name),
            PropertyValue::OptionalText(n.command_line),
            PropertyValue::OptionalText(n.user),
            PropertyValue::Number(n.pid),
        ]);
        p
    }
}

impl RouteNode {
    /// The row of this node in the `Route` statement: its `id`, then the
    /// properties that the statement sets, under the names it reads them by.
    pub fn into_properties(self) -> (p: Vec<NodeProperty>)
        ensures
            property_names(p@) == seq!["id"@] + route_property_names(),
            property_values(p@) == seq![
                PropertyValue::Text(self.id),
                PropertyValue::Text(self.raw_id),
                PropertyValue::Text(self.agent_id),
                PropertyValue::Text(self.company_id),
                PropertyValue::Text(self.route.kind),
                PropertyValue::Text(self.route.source_kind),
                PropertyValue::Text(self.route.source_name),
                PropertyValue::OptionalText(self.route.source_namespace),
                PropertyValue::Text(self.route.target_kind),
                PropertyValue::Text(self.route.target_name),
                PropertyValue::OptionalText(self.route.target_namespace),
                PropertyValue::OptionalText(self.route.host),
                PropertyValue::OptionalText(self.route.path),
                PropertyValue::OptionalText(self.route.path_type),
                PropertyValue::Text(self.route.protocol),
                PropertyValue::OptionalNumber(self.route.source_port),
                PropertyValue::OptionalText(self.route.target_port),
                PropertyValue::OptionalNumber(self.route.published_port),
            ],
    {
        let ghost n = self;
        let r = self.route;
        let p = vec![
            NodeProperty { name: "id", value: PropertyValue::Text(self.id) },
            NodeProperty { name: "rawId", value: PropertyValue::Text(self.raw_id) },
            NodeProperty { name: "agentId", value: PropertyValue::Text(self.agent_id) },
            NodeProperty { name: "companyId", value: PropertyValue::Text(self.company_id) },
            NodeProperty { name: "kind", value: PropertyValue::Text(r.kind) },
            NodeProperty { name: "sourceKind", value: PropertyValue::Text(r.source_kind) },
            NodeProperty { name: "sourceName", value: PropertyValue::Text(r.source_name) },
            NodeProperty { name: "sourceNamespace", value: PropertyValue::OptionalText(r.source_namespace) },
            NodeProperty { name: "targetKind", value: PropertyValue::Text(r.target_kind) },
            NodeProperty { name: "targetName", value: PropertyValue::Text(r.target_name) },
            NodeProperty { name: "targetNamespace", value: PropertyValue::OptionalText(r.target_namespace) },
            NodeProperty { name: "host", value: PropertyValue::OptionalText(r.host) },
            NodeProperty { name: "path", value: PropertyValue::OptionalText(r.path) },
            NodeProperty { name: "pathType", value: PropertyValue::OptionalText(r.path_type) },
            NodeProperty { name: "protocol", value: PropertyValue::Text(r.protocol) },
            NodeProperty { name: "sourcePort", value: PropertyValue::OptionalNumber(r.source_port) },
            NodeProperty { name: "targetPort", value: PropertyValue::OptionalText(r.target_port) },
            NodeProperty { name: "publishedPort", value: PropertyValue::OptionalNumber(r.published_port) },
        ];
        assert(property_names(p@) =~= seq!["id"@] + route_property_names());
        assert(property_values(p@) =~= seq![
            PropertyValue::Text(n.id),
            PropertyValue::Text(n.raw_id),
            PropertyValue::Text(n.agent_id),
            PropertyValue::Text(n.company_id),
            PropertyValue::Text(n.route.kind),
            PropertyValue::Text(n.route.source_kind),
            PropertyValue::Text(n.route.source_name),
            PropertyValue::OptionalText(n.route.source_namespace),
            PropertyValue::Text(n.route.target_kind),
            PropertyValue::Text(n.route.target_name),
            PropertyValue::OptionalText(n.route.target_namespace),
            PropertyValue::OptionalText(n.route.host),
            PropertyValue::OptionalText(n.route.path),
            PropertyValue::OptionalText(n.route.path_type),
            PropertyValue::Text(n.route.protocol),
            PropertyValue::OptionalNumber(n.route.source_port),
            PropertyValue::OptionalText(n.route.target_port),
            PropertyValue::OptionalNumber(n.route.published_port),
        ]);
        p
    }
}

impl Relation {
    /// The row of this relation in a link statement: the identifiers of its
    /// two nodes under the keys the statement reads them by, then the company
    /// and agent that both nodes are matched in.
    pub fn into_properties(self, from_key: &'static str, to_key: &'static str) -> (p: Vec<NodeProperty>)
        ensures
            property_names(p@) == seq![from_key@, to_key@, "companyId"@, "agentId"@],
            property_values(p@) == seq![
                PropertyValue::Text(self.from),
                PropertyValue::Text(self.to),
                PropertyValue::Text(self.company_id),
                PropertyValue::Text(self.agent_id),
            ],
    {
        let ghost n = self;
        let p = vec![
            NodeProperty { name: from_key, value: PropertyValue::Text(self.from) },
            NodeProperty { name: to_key, value: PropertyValue::Text(self.to) },
            NodeProperty { name: "companyId", value: PropertyValue::Text(self.company_id) },
            NodeProperty { name: "agentId", value: PropertyValue::Text(self.agent_id) },
        ];
        assert(property_names(p@) =~= seq![from_key@, to_key@, "companyId"@, "agentId"@]);
        assert(property_values(p@) =~= seq![
            PropertyValue::Text(n.from),
            PropertyValue::Text(n.to),
            PropertyValue::Text(n.company_id),
            PropertyValue::Text(n.agent_id),
        ]);
        p
    }
}

impl EndpointNode {
    /// The row of this node in the `RouteEndpoint` statement: its `id`, then
    /// the properties that the statement sets, under the names it reads them by.
    pub fn into_properties(self) -> (p: Vec<NodeProperty>)
        ensures
            property_names(p@) == seq!["id"@] + endpoint_property_names(),
            property_values(p@) == seq![
                PropertyValue::Text(self.id),
                PropertyValue::Text(self.raw_id),
                PropertyValue::Text(self.agent_id),
                PropertyValue::Text(self.company_id),
                PropertyValue::Text(self.kind),
                PropertyValue::Text(self.name),
                PropertyValue::OptionalText(self.namespace),
            ],
    {
        let ghost n = self;
        let p = vec![
            NodeProperty { name: "id", value: PropertyValue::Text(self.id) },
            NodeProperty { name: "rawId", value: PropertyValue::Text(self.raw_id) },
            NodeProperty { name: "agentId", value: PropertyValue::Text(self.agent_id) },
            NodeProperty { name: "companyId", value: PropertyValue::Text(self.company_id) },
            NodeProperty { name: "kind", value: PropertyValue::Text(self.kind) },
            NodeProperty { name: "name", value: PropertyValue::Text(self.name) },
            NodeProperty { name: "namespace", value: PropertyValue::OptionalText(self.namespace) },
        ];
        assert(property_names(p@) =~= seq!["id"@] + endpoint_property_names());
        assert(property_values(p@) =~= seq![
            PropertyValue::Text(n.id),
            PropertyValue::Text(n.raw_id),
            PropertyValue::Text(n.agent_id),
            PropertyValue::Text(n.company_id),
            PropertyValue::Text(n.kind),
            PropertyValue::Text(n.name),
            PropertyValue::OptionalText(n.namespace),
        ]);
        p
    }
}

/// The rows a statement unwinds.
pub enum StatementRows {
    Hosts(Vec<HostNode>),
    Containers(Vec<ContainerNode>),
    Processes(Vec<ProcessNode>),
    Routes(Vec<RouteNode>),
    Endpoints(Vec<EndpointNode>),
    /// Relation rows, each an object with the identifier of the source node
    /// under `from_key` and that of the target node under `to_key`.
    Relations { from_key: &'static str, to_key: &'static str, rows: Vec<Relation> },
}

/// One Cypher statement: its text and the parameter that holds its rows.
pub struct CypherStatement {
    pub statement: String,
    pub parameter: String,
    pub rows: StatementRows,
}

pub enum StatementRowsView {
    Hosts(Seq<HostNodeView>),
    Containers(Seq<ContainerNodeView>),
    Processes(Seq<ProcessNodeView>),
    Routes(Seq<RouteNodeView>),
    Endpoints(Seq<EndpointNodeView>),
    Relations { from_key: Seq<char>, to_key: Seq<char>, rows: Seq<RelationView> },
}

pub struct CypherStatementView {
    pub statement: Seq<char>,
    pub parameter: Seq<char>,
    pub rows: StatementRowsView,
}

impl View for StatementRows {
    type V = StatementRowsView;

    open spec fn view(&self) -> StatementRowsView {
        match self {
            StatementRows::Hosts(v) => StatementRowsView::Hosts(host_views(v@)),
            StatementRows::Containers(v) => StatementRowsView::Containers(container_views(v@)),
            StatementRows::Processes(v) => StatementRowsView::Processes(process_views(v@)),
            StatementRows::Routes(v) => StatementRowsView::Routes(route_views(v@)),
            StatementRows::Endpoints(v) => StatementRowsView::Endpoints(endpoint_views(v@)),
            StatementRows::Relations { from_key, to_key, rows } => StatementRowsView::Relations {
                from_key: from_key@,
                to_key: to_key@,
                rows: relation_views(rows@),
            },
        }
    }
}

impl View for CypherStatement {
    type V = CypherStatementView;

    open spec fn view(&self) -> CypherStatementView {
        CypherStatementView { statement: self.statement@, parameter: self.parameter@, rows: self.rows@ }
    }
}

pub open spec fn statement_views(v: Seq<CypherStatement>) -> Seq<CypherStatementView> {
    v.map_values(|s: CypherStatement| s@)
}

/// How many rows a statement unwinds.
pub open spec fn row_count(r: StatementRowsView) -> nat {
    match r {
        StatementRowsView::Hosts(v) => v.len(),
        StatementRowsView::Containers(v) => v.len(),
        StatementRowsView::Processes(v) => v.len(),
        StatementRowsView::Routes(v) => v.len(),
        StatementRowsView::Endpoints(v) => v.len(),
        StatementRowsView::Relations { rows, .. } => rows.len(),
    }
}

pub open spec fn relation_rows(from_key: Seq<char>, to_key: Seq<char>, rows: Seq<RelationView>) -> StatementRowsView {
    StatementRowsView::Relations { from_key, to_key, rows }
}

/// A statement that links the nodes of `rows`, with its rows keyed by the
/// same names its text reads.
pub open spec fn link_view(
    from_alias: Seq<char>,
    from_label: Seq<char>,
    from_key: Seq<char>,
    to_alias: Seq<char>,
    to_label: Seq<char>,
    to_key: Seq<char>,
    relationship: Seq<char>,
    rows: Seq<RelationView>,
) -> CypherStatementView {
    CypherStatementView {
        statement: link_statement(from_alias, from_label, from_key, to_alias, to_label, to_key, relationship),
        parameter: "relations"@,
        rows: relation_rows(from_key, to_key, rows),
    }
}

/// One statement per list of the graph, in the order they are sent.
pub open spec fn candidate_statements(g: TopologyGraphView) -> Seq<CypherStatementView> {
    seq![
        CypherStatementView { statement: hosts_statement(), parameter: "hosts"@, rows: StatementRowsView::Hosts(g.hosts) },
        CypherStatementView { statement: containers_statement(), parameter: "containers"@, rows: StatementRowsView::Containers(g.containers) },
        CypherStatementView { statement: processes_statement(), parameter: "processes"@, rows: StatementRowsView::Processes(g.processes) },
        link_view("h"@, "Host"@, "hostId"@, "c"@, "Container"@, "containerId"@, "RUNS_CONTAINER"@, g.host_containers),
        link_view("h"@, "Host"@, "hostId"@, "p"@, "Process"@, "processId"@, "RUNS_PROCESS"@, g.host_processes),
        link_view("c"@, "Container"@, "containerId"@, "p"@, "Process"@, "processId"@, "RUNS_PROCESS"@, g.container_processes),
        CypherStatementView { statement: routes_statement(), parameter: "routes"@, rows: StatementRowsView::Routes(g.routes) },
        CypherStatementView { statement: endpoints_statement(), parameter: "endpoints"@, rows: StatementRowsView::Endpoints(g.endpoints) },
        link_view("r"@, "Route"@, "routeId"@, "e"@, "RouteEndpoint"@, "endpointId"@, "ROUTE_FROM"@, g.route_sources),
        link_view("r"@, "Route"@, "routeId"@, "e"@, "RouteEndpoint"@, "endpointId"@, "ROUTE_TO"@, g.route_targets),
    ]
}

/// The statements of `s` that have at least one row, in order.
pub open spec fn nonempty_statements(s: Seq<CypherStatementView>) -> Seq<CypherStatementView>
    decreases s.len(),
{
    if s.len() == 0 {
        Seq::empty()
    } else if row_count(s[0].rows) > 0 {
        seq![s[0]] + nonempty_statements(s.drop_first())
    } else {
        nonempty_statements(s.drop_first())
    }
}

/// The statements of one transaction that writes graph `g`: one per
/// non-empty list, nodes before the relations that match them.
pub open spec fn statements_of(g: TopologyGraphView) -> Seq<CypherStatementView> {
    nonempty_statements(candidate_statements(g))
}

impl StatementRows {
    /// Whether the statement has no row.
    pub fn is_empty(&self) -> (b: bool)
        ensures
            b == (row_count(self@) == 0),
    {
        match self {
            StatementRows::Hosts(v) => v.len() == 0,
            StatementRows::Containers(v) => v.len() == 0,
            StatementRows::Processes(v) => v.len() == 0,
            StatementRows::Routes(v) => v.len() == 0,
            StatementRows::Endpoints(v) => v.len() == 0,
            StatementRows::Relations { rows, .. } => rows.len() == 0,
        }
    }
}

fn merge_nodes(
    parameter: &str,
    var: &str,
    alias: &str,
    label: &str,
    names: Vec<&'static str>,
    rows: StatementRows,
) -> (s: CypherStatement)
    ensures
        s@ == (CypherStatementView {
            statement: merge_nodes_statement(parameter@, var@, alias@, label@, name_views(names@)),
            parameter: parameter@,
            rows: rows@,
        }),
{
    let statement = merge_nodes_text(parameter, var, alias, label, &names);
    CypherStatement { statement, parameter: parameter.to_owned(), rows }
}

fn link(
    from_alias: &str,
    from_label: &str,
    from_key: &'static str,
    to_alias: &str,
    to_label: &str,
    to_key: &'static str,
    relationship: &str,
    rows: Vec<Relation>,
) -> (s: CypherStatement)
    ensures
        s@ == link_view(
            from_alias@,
            from_label@,
            from_key@,
            to_alias@,
            to_label@,
            to_key@,
            relationship@,
            relation_views(rows@),
        ),
{
    let statement = link_text(from_alias, from_label, from_key, to_alias, to_label, to_key, relationship);
    let rows = StatementRows::Relations { from_key, to_key, rows };
    CypherStatement { statement, parameter: "relations".to_owned(), rows }
}

/// The Cypher statements that write `graph` in one transaction.
pub fn cypher_statements(graph: TopologyGraph) -> (stmts: Vec<CypherStatement>)
    ensures
        statement_views(stmts@) == statements_of(graph@),
{
    let ghost g = graph@;
    let mut candidates: Vec<CypherStatement> = Vec::new();
    candidates.push(merge_nodes("hosts", "host", "h", "Host", host_names(), StatementRows::Hosts(graph.hosts)));
    candidates.push(merge_nodes("containers", "container", "c", "Container", container_names(), StatementRows::Containers(graph.containers)));
    candidates.push(merge_nodes("processes", "process", "p", "Process", process_names(), StatementRows::Processes(graph.processes)));
    candidates.push(link("h", "Host", "hostId", "c", "Container", "containerId", "RUNS_CONTAINER", graph.host_containers));
    candidates.push(link("h", "Host", "hostId", "p", "Process", "processId", "RUNS_PROCESS", graph.host_processes));
    candidates.push(link("c", "Container", "containerId", "p", "Process", "processId", "RUNS_PROCESS", graph.container_processes));
    candidates.push(merge_nodes("routes", "route", "r", "Route", route_names(), StatementRows::Routes(graph.routes)));
    candidates.push(merge_nodes("endpoints", "endpoint", "e", "RouteEndpoint", endpoint_names(), StatementRows::Endpoints(graph.endpoints)));
    candidates.push(link("r", "Route", "routeId", "e", "RouteEndpoint", "endpointId", "ROUTE_FROM", graph.route_sources));
    candidates.push(link("r", "Route", "routeId", "e", "RouteEndpoint", "endpointId", "ROUTE_TO", graph.route_targets));
    assert(statement_views(candidates@) =~= candidate_statements(g));
    let ghost all = candidate_statements(g);
    let mut out: Vec<CypherStatement> = Vec::new();
    while candidates.len() > 0
        invariant
            nonempty_statements(all) == statement_views(out@) + nonempty_statements(
                statement_views(candidates@),
            ),
        decreases candidates.len(),
    {
        let ghost before = statement_views(candidates@);
        let c = candidates.remove(0);
        assert(statement_views(candidates@) =~= before.drop_first());
        assert(before[0] == c@);
        if !c.rows.is_empty() {
            let ghost out_before = statement_views(out@);
            out.push(c);
            assert(statement_views(out@) =~= out_before + seq![c@]);
        }
    }
    assert(statement_views(out@) =~= statement_views(out@) + Seq::<CypherStatementView>::empty());
    out
}

} // verus!
