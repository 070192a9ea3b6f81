//! What holds of every topology graph and of the statements that write it.

use crate::domain::{NetworkTopologyPayload, ProtoContainer, ProtoHost, ProtoProcess, ProtoRoute};
use crate::graph::{
    candidate_statements, container_nodes, containers_process_nodes, containers_process_relations,
    empty_graph, graph_concat, host_container_relations, host_graph, hosts_graph,
    nonempty_statements, owned_process_nodes, owned_process_relations, route_graph, row_count,
    statements_of, topology_graph, with_routes, CypherStatementView,
    StatementRowsView, TopologyGraphView, ContainerNodeView, EndpointNodeView, HostNodeView,
    ProcessNodeView, RelationView, RouteNodeView, process_raw_id, link_statement,
    merge_nodes_statement, host_property_names, container_property_names, process_property_names,
    route_property_names, endpoint_property_names,
};
use vstd::prelude::*;

verus! {

// ---------------------------------------------------------------------------
// Tenant scoping
// ---------------------------------------------------------------------------

/// A node or relation carries the company and agent it was reported for.
pub open spec fn node_in_scope(
    agent_id: Seq<char>,
    company_id: Seq<char>,
    company: Seq<char>,
    agent: Seq<char>,
) -> bool {
    agent_id == agent && company_id == company
}

/// `ok` holds of every element of `s`.
pub open spec fn all_of<T>(s: Seq<T>, ok: spec_fn(T) -> bool) -> bool {
    forall|i: int| 0 <= i < s.len() ==> ok(#[trigger] s[i])
}

pub open spec fn host_in_scope(company: Seq<char>, agent: Seq<char>) -> spec_fn(HostNodeView) -> bool {
    |n: HostNodeView| node_in_scope(n.agent_id, n.company_id, company, agent)
}

pub open spec fn container_in_scope(company: Seq<char>, agent: Seq<char>) -> spec_fn(
    ContainerNodeView,
) -> bool {
    |n: ContainerNodeView| node_in_scope(n.agent_id, n.company_id, company, agent)
}

pub open spec fn process_in_scope(company: Seq<char>, agent: Seq<char>) -> spec_fn(
    ProcessNodeView,
) -> bool {
    |n: ProcessNodeView| node_in_scope(n.agent_id, n.company_id, company, agent)
}

pub open spec fn route_in_scope(company: Seq<char>, agent: Seq<char>) -> spec_fn(RouteNodeView) -> bool {
    |n: RouteNodeView| node_in_scope(n.agent_id, n.company_id, company, agent)
}

pub open spec fn endpoint_in_scope(company: Seq<char>, agent: Seq<char>) -> spec_fn(
    EndpointNodeView,
) -> bool {
    |n: EndpointNodeView| node_in_scope(n.agent_id, n.company_id, company, agent)
}

pub open spec fn relation_in_scope(company: Seq<char>, agent: Seq<char>) -> spec_fn(RelationView) -> bool {
    |r: RelationView| node_in_scope(r.agent_id, r.company_id, company, agent)
}

/// Every node and every relation of `g` carries `company` and `agent`.
pub open spec fn graph_in_scope(g: TopologyGraphView, company: Seq<char>, agent: Seq<char>) -> bool {
    &&& all_of(g.hosts, host_in_scope(company, agent))
    &&& all_of(g.containers, container_in_scope(company, agent))
    &&& all_of(g.processes, process_in_scope(company, agent))
    &&& all_of(g.routes, route_in_scope(company, agent))
    &&& all_of(g.endpoints, endpoint_in_scope(company, agent))
    &&& all_of(g.host_containers, relation_in_scope(company, agent))
    &&& all_of(g.host_processes, relation_in_scope(company, agent))
    &&& all_of(g.container_processes, relation_in_scope(company, agent))
    &&& all_of(g.route_sources, relation_in_scope(company, agent))
    &&& all_of(g.route_targets, relation_in_scope(company, agent))
}

proof fn lemma_all_of_concat<T>(x: Seq<T>, y: Seq<T>, ok: spec_fn(T) -> bool)
    requires
        all_of(x, ok),
        all_of(y, ok),
    ensures
        all_of(x + y, ok),
{
    assert forall|i: int| 0 <= i < (x + y).len() implies ok(#[trigger] (x + y)[i]) by {
        if i < x.len() {
            assert((x + y)[i] == x[i]);
        } else {
            assert((x + y)[i] == y[i - x.len()]);
        }
    }
}

proof fn lemma_concat_in_scope(a: TopologyGraphView, b: TopologyGraphView, company: Seq<char>, agent: Seq<char>)
    requires
        graph_in_scope(a, company, agent),
        graph_in_scope(b, company, agent),
    ensures
        graph_in_scope(graph_concat(a, b), company, agent),
{
    lemma_all_of_concat(a.hosts, b.hosts, host_in_scope(company, agent));
    lemma_all_of_concat(a.containers, b.containers, container_in_scope(company, agent));
    lemma_all_of_concat(a.processes, b.processes, process_in_scope(company, agent));
    lemma_all_of_concat(a.routes, b.routes, route_in_scope(company, agent));
    lemma_all_of_concat(a.endpoints, b.endpoints, endpoint_in_scope(company, agent));
    lemma_all_of_concat(a.host_containers, b.host_containers, relation_in_scope(company, agent));
    lemma_all_of_concat(a.host_processes, b.host_processes, relation_in_scope(company, agent));
    lemma_all_of_concat(
        a.container_processes,
        b.container_processes,
        relation_in_scope(company, agent),
    );
    lemma_all_of_concat(a.route_sources, b.route_sources, relation_in_scope(company, agent));
    lemma_all_of_concat(a.route_targets, b.route_targets, relation_in_scope(company, agent));
}

proof fn lemma_owned_in_scope(
    procs: Seq<ProtoProcess>,
    owner_raw: Seq<char>,
    company: Seq<char>,
    agent: Seq<char>,
)
    ensures
        all_of(owned_process_nodes(procs, owner_raw, company, agent), process_in_scope(company, agent)),
        all_of(owned_process_relations(procs, owner_raw, company, agent), relation_in_scope(company, agent)),
{
    let nodes = owned_process_nodes(procs, owner_raw, company, agent);
    let rels = owned_process_relations(procs, owner_raw, company, agent);
    assert forall|i: int| 0 <= i < nodes.len() implies process_in_scope(company, agent)(
        #[trigger] nodes[i],
    ) by {}
    assert forall|i: int| 0 <= i < rels.len() implies relation_in_scope(company, agent)(
        #[trigger] rels[i],
    ) by {}
}

proof fn lemma_containers_in_scope(cs: Seq<ProtoContainer>, company: Seq<char>, agent: Seq<char>)
    ensures
        all_of(containers_process_nodes(cs, company, agent), process_in_scope(company, agent)),
        all_of(containers_process_relations(cs, company, agent), relation_in_scope(company, agent)),
    decreases cs.len(),
{
    if cs.len() > 0 {
        lemma_containers_in_scope(cs.drop_last(), company, agent);
        let c = cs.last();
        lemma_owned_in_scope(c.processes@, c.id@, company, agent);
        lemma_all_of_concat(
            containers_process_nodes(cs.drop_last(), company, agent),
            owned_process_nodes(c.processes@, c.id@, company, agent),
            process_in_scope(company, agent),
        );
        lemma_all_of_concat(
            containers_process_relations(cs.drop_last(), company, agent),
            owned_process_relations(c.processes@, c.id@, company, agent),
            relation_in_scope(company, agent),
        );
    }
}

proof fn lemma_host_in_scope(h: ProtoHost, company: Seq<char>, agent: Seq<char>)
    ensures
        graph_in_scope(host_graph(h, company, agent), company, agent),
{
    let g = host_graph(h, company, agent);
    lemma_containers_in_scope(h.containers@, company, agent);
    lemma_owned_in_scope(h.processes@, h.id@, company, agent);
    lemma_all_of_concat(
        owned_process_nodes(h.processes@, h.id@, company, agent),
        containers_process_nodes(h.containers@, company, agent),
        process_in_scope(company, agent),
    );
    assert(host_in_scope(company, agent)(g.hosts[0]));
    assert forall|i: int| 0 <= i < g.containers.len() implies container_in_scope(company, agent)(
        #[trigger] g.containers[i],
    ) by {}
    assert forall|i: int| 0 <= i < g.host_containers.len() implies relation_in_scope(company, agent)(
        #[trigger] g.host_containers[i],
    ) by {}
}

proof fn lemma_hosts_in_scope(hs: Seq<ProtoHost>, company: Seq<char>, agent: Seq<char>)
    ensures
        graph_in_scope(hosts_graph(hs, company, agent), company, agent),
    decreases hs.len(),
{
    if hs.len() > 0 {
        lemma_hosts_in_scope(hs.drop_last(), company, agent);
        lemma_host_in_scope(hs.last(), company, agent);
        lemma_concat_in_scope(
            hosts_graph(hs.drop_last(), company, agent),
            host_graph(hs.last(), company, agent),
            company,
            agent,
        );
    }
}

proof fn lemma_route_in_scope(r: ProtoRoute, company: Seq<char>, agent: Seq<char>)
    ensures
        graph_in_scope(route_graph(r, company, agent), company, agent),
{
    let g = route_graph(r, company, agent);
    assert(route_in_scope(company, agent)(g.routes[0]));
    assert(endpoint_in_scope(company, agent)(g.endpoints[0]));
    assert(endpoint_in_scope(company, agent)(g.endpoints[1]));
    assert(relation_in_scope(company, agent)(g.route_sources[0]));
    assert(relation_in_scope(company, agent)(g.route_targets[0]));
    assert(all_of(g.endpoints, endpoint_in_scope(company, agent)));
}

proof fn lemma_routes_in_scope(
    base: TopologyGraphView,
    rs: Seq<ProtoRoute>,
    company: Seq<char>,
    agent: Seq<char>,
)
    requires
        graph_in_scope(base, company, agent),
    ensures
        graph_in_scope(with_routes(base, rs, company, agent), company, agent),
    decreases rs.len(),
{
    if rs.len() > 0 {
        lemma_routes_in_scope(base, rs.drop_last(), company, agent);
        lemma_route_in_scope(rs.last(), company, agent);
        lemma_concat_in_scope(
            with_routes(base, rs.drop_last(), company, agent),
            route_graph(rs.last(), company, agent),
            company,
            agent,
        );
    }
}

/// Tenant isolation: every node and every relation of the graph of a payload
/// carries the company and agent it was reported for.
pub proof fn lemma_topology_graph_in_scope(
    p: NetworkTopologyPayload,
    company: Seq<char>,
    agent: Seq<char>,
)
    ensures
        graph_in_scope(topology_graph(p, company, agent), company, agent),
{
    lemma_hosts_in_scope(p.hosts@, company, agent);
    lemma_routes_in_scope(hosts_graph(p.hosts@, company, agent), p.routes@, company, agent);
}

} // verus!

verus! {

// ---------------------------------------------------------------------------
// Sizes
// ---------------------------------------------------------------------------

proof fn lemma_hosts_graph_sizes(hs: Seq<ProtoHost>, company: Seq<char>, agent: Seq<char>)
    ensures
        hosts_graph(hs, company, agent).hosts.len() == hs.len(),
        hosts_graph(hs, company, agent).routes.len() == 0,
        hosts_graph(hs, company, agent).endpoints.len() == 0,
        hosts_graph(hs, company, agent).route_sources.len() == 0,
        hosts_graph(hs, company, agent).route_targets.len() == 0,
        hs.len() == 0 ==> hosts_graph(hs, company, agent) == empty_graph(),
    decreases hs.len(),
{
    if hs.len() > 0 {
        lemma_hosts_graph_sizes(hs.drop_last(), company, agent);
    }
}

proof fn lemma_routes_sizes(
    base: TopologyGraphView,
    rs: Seq<ProtoRoute>,
    company: Seq<char>,
    agent: Seq<char>,
)
    ensures
        with_routes(base, rs, company, agent).hosts == base.hosts,
        with_routes(base, rs, company, agent).containers == base.containers,
        with_routes(base, rs, company, agent).processes == base.processes,
        with_routes(base, rs, company, agent).host_containers == base.host_containers,
        with_routes(base, rs, company, agent).host_processes == base.host_processes,
        with_routes(base, rs, company, agent).container_processes == base.container_processes,
        with_routes(base, rs, company, agent).routes.len() == base.routes.len() + rs.len(),
        with_routes(base, rs, company, agent).endpoints.len() == base.endpoints.len() + 2 * rs.len(),
        with_routes(base, rs, company, agent).route_sources.len() == base.route_sources.len()
            + rs.len(),
        with_routes(base, rs, company, agent).route_targets.len() == base.route_targets.len()
            + rs.len(),
        rs.len() == 0 ==> with_routes(base, rs, company, agent) == base,
    decreases rs.len(),
{
    if rs.len() > 0 {
        lemma_routes_sizes(base, rs.drop_last(), company, agent);
        let prev = with_routes(base, rs.drop_last(), company, agent);
        let r = route_graph(rs.last(), company, agent);
        assert(prev.hosts + r.hosts =~= prev.hosts);
        assert(prev.containers + r.containers =~= prev.containers);
        assert(prev.processes + r.processes =~= prev.processes);
        assert(prev.host_containers + r.host_containers =~= prev.host_containers);
        assert(prev.host_processes + r.host_processes =~= prev.host_processes);
        assert(prev.container_processes + r.container_processes =~= prev.container_processes);
    }
}

/// The graph of a payload has one host node per host and one route node per
/// route, and each route brings two endpoints, one relation to its source and
/// one to its target.
pub proof fn lemma_topology_graph_sizes(p: NetworkTopologyPayload, company: Seq<char>, agent: Seq<char>)
    ensures
        topology_graph(p, company, agent).hosts.len() == p.hosts@.len(),
        topology_graph(p, company, agent).routes.len() == p.routes@.len(),
        topology_graph(p, company, agent).endpoints.len() == 2 * p.routes@.len(),
        topology_graph(p, company, agent).route_sources.len() == p.routes@.len(),
        topology_graph(p, company, agent).route_targets.len() == p.routes@.len(),
        p.hosts@.len() == 0 && p.routes@.len() == 0 ==> topology_graph(p, company, agent)
            == empty_graph(),
{
    lemma_hosts_graph_sizes(p.hosts@, company, agent);
    lemma_routes_sizes(hosts_graph(p.hosts@, company, agent), p.routes@, company, agent);
}

// ---------------------------------------------------------------------------
// Statements
// ---------------------------------------------------------------------------

proof fn lemma_nonempty_statements(s: Seq<CypherStatementView>)
    ensures
        forall|i: int|
            0 <= i < nonempty_statements(s).len() ==> row_count(
                #[trigger] nonempty_statements(s)[i].rows,
            ) > 0,
        nonempty_statements(s).len() == 0 <==> forall|i: int|
            0 <= i < s.len() ==> row_count(#[trigger] s[i].rows) == 0,
        s.len() > 0 && row_count(s[0].rows) > 0 ==> nonempty_statements(s)[0] == s[0],
    decreases s.len(),
{
    if s.len() > 0 {
        let rest = s.drop_first();
        lemma_nonempty_statements(rest);
        let r = nonempty_statements(rest);
        if row_count(s[0].rows) > 0 {
            assert forall|i: int|
                0 <= i < nonempty_statements(s).len() implies row_count(
                #[trigger] nonempty_statements(s)[i].rows,
            ) > 0 by {
                if i > 0 {
                    assert(nonempty_statements(s)[i] == r[i - 1]);
                }
            }
        } else {
            if nonempty_statements(s).len() == 0 {
                assert forall|i: int| 0 <= i < s.len() implies row_count(#[trigger] s[i].rows)
                    == 0 by {
                    if i > 0 {
                        assert(s[i] == rest[i - 1]);
                    }
                }
            }
            if forall|i: int| 0 <= i < s.len() ==> row_count(#[trigger] s[i].rows) == 0 {
                assert forall|i: int| 0 <= i < rest.len() implies row_count(#[trigger] rest[i].rows)
                    == 0 by {
                    assert(rest[i] == s[i + 1]);
                }
            }
        }
    }
}

/// Every statement of a transaction unwinds at least one row, and a
/// transaction has no statement exactly when the graph has no node and no
/// relation.
pub proof fn lemma_statements_nonempty(g: TopologyGraphView)
    ensures
        forall|i: int|
            0 <= i < statements_of(g).len() ==> row_count(#[trigger] statements_of(g)[i].rows) > 0,
        statements_of(g).len() == 0 <==> (g.hosts.len() == 0 && g.containers.len() == 0
            && g.processes.len() == 0 && g.routes.len() == 0 && g.endpoints.len() == 0
            && g.host_containers.len() == 0 && g.host_processes.len() == 0
            && g.container_processes.len() == 0 && g.route_sources.len() == 0
            && g.route_targets.len() == 0),
{
    let s = candidate_statements(g);
    lemma_nonempty_statements(s);
    assert(row_count(s[0].rows) == g.hosts.len());
    assert(row_count(s[1].rows) == g.containers.len());
    assert(row_count(s[2].rows) == g.processes.len());
    assert(row_count(s[3].rows) == g.host_containers.len());
    assert(row_count(s[4].rows) == g.host_processes.len());
    assert(row_count(s[5].rows) == g.container_processes.len());
    assert(row_count(s[6].rows) == g.routes.len());
    assert(row_count(s[7].rows) == g.endpoints.len());
    assert(row_count(s[8].rows) == g.route_sources.len());
    assert(row_count(s[9].rows) == g.route_targets.len());
}

/// A payload with no host and no route is written with no statement at all;
/// one with a host or a route with at least one. All host nodes of a payload
/// go in one statement, the first of the transaction.
pub proof fn lemma_payload_statements(p: NetworkTopologyPayload, company: Seq<char>, agent: Seq<char>)
    ensures
        statements_of(topology_graph(p, company, agent)).len() == 0 <==> (p.hosts@.len() == 0
            && p.routes@.len() == 0),
        p.hosts@.len() > 0 ==> statements_of(topology_graph(p, company, agent))[0] == (
        CypherStatementView {
            statement: crate::graph::hosts_statement(),
            parameter: "hosts"@,
            rows: StatementRowsView::Hosts(topology_graph(p, company, agent).hosts),
        }),
{
    let g = topology_graph(p, company, agent);
    lemma_topology_graph_sizes(p, company, agent);
    lemma_statements_nonempty(g);
    let s = candidate_statements(g);
    lemma_nonempty_statements(s);
    if p.hosts@.len() > 0 {
        assert(row_count(s[0].rows) > 0);
    }
}

} // verus!

verus! {

// ---------------------------------------------------------------------------
// Every relation joins two nodes of the graph
// ---------------------------------------------------------------------------

pub open spec fn is_host_id(g: TopologyGraphView, id: Seq<char>) -> bool {
    exists|j: int| 0 <= j < g.hosts.len() && #[trigger] g.hosts[j].id == id
}

pub open spec fn is_container_id(g: TopologyGraphView, id: Seq<char>) -> bool {
    exists|j: int| 0 <= j < g.containers.len() && #[trigger] g.containers[j].id == id
}

pub open spec fn is_process_id(g: TopologyGraphView, id: Seq<char>) -> bool {
    exists|j: int| 0 <= j < g.processes.len() && #[trigger] g.processes[j].id == id
}

pub open spec fn is_route_id(g: TopologyGraphView, id: Seq<char>) -> bool {
    exists|j: int| 0 <= j < g.routes.len() && #[trigger] g.routes[j].id == id
}

pub open spec fn is_endpoint_id(g: TopologyGraphView, id: Seq<char>) -> bool {
    exists|j: int| 0 <= j < g.endpoints.len() && #[trigger] g.endpoints[j].id == id
}

/// Each relation goes from a node of the kind its statement matches to a
/// node of the kind it points to, both present in `g`.
pub open spec fn relations_resolve(g: TopologyGraphView) -> bool {
    &&& forall|i: int|
        0 <= i < g.host_containers.len() ==> is_host_id(g, #[trigger] g.host_containers[i].from)
            && is_container_id(g, g.host_containers[i].to)
    &&& forall|i: int|
        0 <= i < g.host_processes.len() ==> is_host_id(g, #[trigger] g.host_processes[i].from)
            && is_process_id(g, g.host_processes[i].to)
    &&& forall|i: int|
        0 <= i < g.container_processes.len() ==> is_container_id(
            g,
            #[trigger] g.container_processes[i].from,
        ) && is_process_id(g, g.container_processes[i].to)
    &&& forall|i: int|
        0 <= i < g.route_sources.len() ==> is_route_id(g, #[trigger] g.route_sources[i].from)
            && is_endpoint_id(g, g.route_sources[i].to)
    &&& forall|i: int|
        0 <= i < g.route_targets.len() ==> is_route_id(g, #[trigger] g.route_targets[i].from)
            && is_endpoint_id(g, g.route_targets[i].to)
}

proof fn lemma_ids_concat(a: TopologyGraphView, b: TopologyGraphView)
    ensures
        forall|id: Seq<char>|
            is_host_id(a, id) || is_host_id(b, id) ==> #[trigger] is_host_id(graph_concat(a, b), id),
        forall|id: Seq<char>|
            is_container_id(a, id) || is_container_id(b, id) ==> #[trigger] is_container_id(
                graph_concat(a, b),
                id,
            ),
        forall|id: Seq<char>|
            is_process_id(a, id) || is_process_id(b, id) ==> #[trigger] is_process_id(
                graph_concat(a, b),
                id,
            ),
        forall|id: Seq<char>|
            is_route_id(a, id) || is_route_id(b, id) ==> #[trigger] is_route_id(graph_concat(a, b), id),
        forall|id: Seq<char>|
            is_endpoint_id(a, id) || is_endpoint_id(b, id) ==> #[trigger] is_endpoint_id(
                graph_concat(a, b),
                id,
            ),
{
    let g = graph_concat(a, b);
    assert forall|id: Seq<char>| is_host_id(a, id) || is_host_id(b, id) implies #[trigger] is_host_id(
        g,
        id,
    ) by {
        if is_host_id(a, id) {
            let j = choose|j: int| 0 <= j < a.hosts.len() && #[trigger] a.hosts[j].id == id;
            assert(g.hosts[j] == a.hosts[j]);
        } else {
            let j = choose|j: int| 0 <= j < b.hosts.len() && #[trigger] b.hosts[j].id == id;
            assert(g.hosts[j + a.hosts.len()] == b.hosts[j]);
        }
    }
    assert forall|id: Seq<char>|
        is_container_id(a, id) || is_container_id(b, id) implies #[trigger] is_container_id(g, id) by {
        if is_container_id(a, id) {
            let j = choose|j: int| 0 <= j < a.containers.len() && #[trigger] a.containers[j].id == id;
            assert(g.containers[j] == a.containers[j]);
        } else {
            let j = choose|j: int| 0 <= j < b.containers.len() && #[trigger] b.containers[j].id == id;
            assert(g.containers[j + a.containers.len()] == b.containers[j]);
        }
    }
    assert forall|id: Seq<char>|
        is_process_id(a, id) || is_process_id(b, id) implies #[trigger] is_process_id(g, id) by {
        if is_process_id(a, id) {
            let j = choose|j: int| 0 <= j < a.processes.len() && #[trigger] a.processes[j].id == id;
            assert(g.processes[j] == a.processes[j]);
        } else {
            let j = choose|j: int| 0 <= j < b.processes.len() && #[trigger] b.processes[j].id == id;
            assert(g.processes[j + a.processes.len()] == b.processes[j]);
        }
    }
    assert forall|id: Seq<char>| is_route_id(a, id) || is_route_id(b, id) implies #[trigger] is_route_id(
        g,
        id,
    ) by {
        if is_route_id(a, id) {
            let j = choose|j: int| 0 <= j < a.routes.len() && #[trigger] a.routes[j].id == id;
            assert(g.routes[j] == a.routes[j]);
        } else {
            let j = choose|j: int| 0 <= j < b.routes.len() && #[trigger] b.routes[j].id == id;
            assert(g.routes[j + a.routes.len()] == b.routes[j]);
        }
    }
    assert forall|id: Seq<char>|
        is_endpoint_id(a, id) || is_endpoint_id(b, id) implies #[trigger] is_endpoint_id(g, id) by {
        if is_endpoint_id(a, id) {
            let j = choose|j: int| 0 <= j < a.endpoints.len() && #[trigger] a.endpoints[j].id == id;
            assert(g.endpoints[j] == a.endpoints[j]);
        } else {
            let j = choose|j: int| 0 <= j < b.endpoints.len() && #[trigger] b.endpoints[j].id == id;
            assert(g.endpoints[j + a.endpoints.len()] == b.endpoints[j]);
        }
    }
}

proof fn lemma_concat_resolves(a: TopologyGraphView, b: TopologyGraphView)
    requires
        relations_resolve(a),
        relations_resolve(b),
    ensures
        relations_resolve(graph_concat(a, b)),
{
    let g = graph_concat(a, b);
    lemma_ids_concat(a, b);
    assert forall|i: int| 0 <= i < g.host_containers.len() implies is_host_id(
        g,
        #[trigger] g.host_containers[i].from,
    ) && is_container_id(g, g.host_containers[i].to) by {
        if i < a.host_containers.len() {
            assert(g.host_containers[i] == a.host_containers[i]);
            assert(is_host_id(a, a.host_containers[i].from) && is_container_id(a, a.host_containers[i].to));
        } else {
            assert(g.host_containers[i] == b.host_containers[i - a.host_containers.len()]);
            assert(is_host_id(b, b.host_containers[i - a.host_containers.len()].from) && is_container_id(b, b.host_containers[i - a.host_containers.len()].to));
        }
    }
    assert forall|i: int| 0 <= i < g.host_processes.len() implies is_host_id(
        g,
        #[trigger] g.host_processes[i].from,
    ) && is_process_id(g, g.host_processes[i].to) by {
        if i < a.host_processes.len() {
            assert(g.host_processes[i] == a.host_processes[i]);
            assert(is_host_id(a, a.host_processes[i].from) && is_process_id(a, a.host_processes[i].to));
        } else {
            assert(g.host_processes[i] == b.host_processes[i - a.host_processes.len()]);
            assert(is_host_id(b, b.host_processes[i - a.host_processes.len()].from) && is_process_id(b, b.host_processes[i - a.host_processes.len()].to));
        }
    }
    assert forall|i: int| 0 <= i < g.container_processes.len() implies is_container_id(
        g,
        #[trigger] g.container_processes[i].from,
    ) && is_process_id(g, g.container_processes[i].to) by {
        if i < a.container_processes.len() {
            assert(g.container_processes[i] == a.container_processes[i]);
            assert(is_container_id(a, a.container_processes[i].from) && is_process_id(a, a.container_processes[i].to));
        } else {
            assert(g.container_processes[i] == b.container_processes[i
                - a.container_processes.len()]);
            assert(is_container_id(b, b.container_processes[i - a.container_processes.len()].from) && is_process_id(b, b.container_processes[i - a.container_processes.len()].to));
        }
    }
    assert forall|i: int| 0 <= i < g.route_sources.len() implies is_route_id(
        g,
        #[trigger] g.route_sources[i].from,
    ) && is_endpoint_id(g, g.route_sources[i].to) by {
        if i < a.route_sources.len() {
            assert(g.route_sources[i] == a.route_sources[i]);
            assert(is_route_id(a, a.route_sources[i].from) && is_endpoint_id(a, a.route_sources[i].to));
        } else {
            assert(g.route_sources[i] == b.route_sources[i - a.route_sources.len()]);
            assert(is_route_id(b, b.route_sources[i - a.route_sources.len()].from) && is_endpoint_id(b, b.route_sources[i - a.route_sources.len()].to));
        }
    }
    assert forall|i: int| 0 <= i < g.route_targets.len() implies is_route_id(
        g,
        #[trigger] g.route_targets[i].from,
    ) && is_endpoint_id(g, g.route_targets[i].to) by {
        if i < a.route_targets.len() {
            assert(g.route_targets[i] == a.route_targets[i]);
            assert(is_route_id(a, a.route_targets[i].from) && is_endpoint_id(a, a.route_targets[i].to));
        } else {
            assert(g.route_targets[i] == b.route_targets[i - a.route_targets.len()]);
            assert(is_route_id(b, b.route_targets[i - a.route_targets.len()].from) && is_endpoint_id(b, b.route_targets[i - a.route_targets.len()].to));
        }
    }
}

/// Shape of the container-to-process relations of a list of containers: one
/// per process node, pointing to it, and coming from one of the containers.
proof fn lemma_containers_relations_shape(cs: Seq<ProtoContainer>, company: Seq<char>, agent: Seq<char>)
    ensures
        containers_process_relations(cs, company, agent).len() == containers_process_nodes(
            cs,
            company,
            agent,
        ).len(),
        forall|i: int|
            0 <= i < containers_process_relations(cs, company, agent).len() ==> (
            #[trigger] containers_process_relations(cs, company, agent)[i]).to
                == containers_process_nodes(cs, company, agent)[i].id,
        forall|i: int|
            0 <= i < containers_process_relations(cs, company, agent).len() ==> exists|m: int|
                0 <= m < cs.len() && (#[trigger] containers_process_relations(cs, company, agent)[i]).from
                    == cs[m].id@,
    decreases cs.len(),
{
    if cs.len() > 0 {
        let init = cs.drop_last();
        lemma_containers_relations_shape(init, company, agent);
        let c = cs.last();
        let pr = containers_process_relations(init, company, agent);
        let pn = containers_process_nodes(init, company, agent);
        let lr = owned_process_relations(c.processes@, c.id@, company, agent);
        let ln = owned_process_nodes(c.processes@, c.id@, company, agent);
        let rels = containers_process_relations(cs, company, agent);
        let nodes = containers_process_nodes(cs, company, agent);
        assert forall|i: int| 0 <= i < rels.len() implies (#[trigger] rels[i]).to == nodes[i].id && exists|
            m: int,
        | 0 <= m < cs.len() && rels[i].from == cs[m].id@ by {
            if i < pr.len() {
                assert(rels[i] == pr[i]);
                assert(nodes[i] == pn[i]);
                let m = choose|m: int|
                    0 <= m < init.len() && (#[trigger] pr[i]).from == init[m].id@;
                assert(cs[m] == init[m]);
            } else {
                assert(rels[i] == lr[i - pr.len()]);
                assert(nodes[i] == ln[i - pn.len()]);
                assert(cs[cs.len() - 1] == c);
            }
        }
    }
}

#[verifier::spinoff_prover]
proof fn lemma_host_resolves(h: ProtoHost, company: Seq<char>, agent: Seq<char>)
    ensures
        relations_resolve(host_graph(h, company, agent)),
{
    let g = host_graph(h, company, agent);
    let cs = h.containers@;
    let own = owned_process_nodes(h.processes@, h.id@, company, agent);
    let rest = containers_process_nodes(cs, company, agent);
    lemma_containers_relations_shape(cs, company, agent);
    assert(g.hosts[0].id == h.id@);
    assert forall|i: int| 0 <= i < g.host_containers.len() implies is_host_id(
        g,
        #[trigger] g.host_containers[i].from,
    ) && is_container_id(g, g.host_containers[i].to) by {
        assert(g.containers[i].id == g.host_containers[i].to);
        assert(g.hosts[0].id == g.host_containers[i].from);
    }
    assert forall|i: int| 0 <= i < g.host_processes.len() implies is_host_id(
        g,
        #[trigger] g.host_processes[i].from,
    ) && is_process_id(g, g.host_processes[i].to) by {
        assert(own.len() == h.processes@.len());
        assert(g.processes[i] == own[i]);
        assert(own[i].id == process_raw_id(h.id@, h.processes@[i].pid));
        assert(g.processes[i].id == g.host_processes[i].to);
        assert(g.hosts[0].id == g.host_processes[i].from);
    }
    assert forall|i: int| 0 <= i < g.container_processes.len() implies is_container_id(
        g,
        #[trigger] g.container_processes[i].from,
    ) && is_process_id(g, g.container_processes[i].to) by {
        let rels = g.container_processes;
        let m = choose|m: int|
            0 <= m < cs.len() && (#[trigger] rels[i]).from == cs[m].id@;
        assert(g.containers[m].id == cs[m].id@);
        assert(g.processes[own.len() + i] == rest[i]);
    }
    assert(g.route_sources.len() == 0);
    assert(g.route_targets.len() == 0);
}

proof fn lemma_hosts_resolve(hs: Seq<ProtoHost>, company: Seq<char>, agent: Seq<char>)
    ensures
        relations_resolve(hosts_graph(hs, company, agent)),
    decreases hs.len(),
{
    if hs.len() > 0 {
        lemma_hosts_resolve(hs.drop_last(), company, agent);
        lemma_host_resolves(hs.last(), company, agent);
        lemma_concat_resolves(
            hosts_graph(hs.drop_last(), company, agent),
            host_graph(hs.last(), company, agent),
        );
    }
}

proof fn lemma_routes_resolve(
    base: TopologyGraphView,
    rs: Seq<ProtoRoute>,
    company: Seq<char>,
    agent: Seq<char>,
)
    requires
        relations_resolve(base),
    ensures
        relations_resolve(with_routes(base, rs, company, agent)),
    decreases rs.len(),
{
    if rs.len() > 0 {
        lemma_routes_resolve(base, rs.drop_last(), company, agent);
        let r = route_graph(rs.last(), company, agent);
        assert(is_route_id(r, r.routes[0].id));
        assert(is_endpoint_id(r, r.endpoints[0].id));
        assert(is_endpoint_id(r, r.endpoints[1].id));
        assert(relations_resolve(r));
        lemma_concat_resolves(with_routes(base, rs.drop_last(), company, agent), r);
    }
}

/// Every relation of the graph of a payload goes from a node of the graph to
/// a node of the graph: host to container, host to process, container to
/// process, route to its source endpoint and route to its target endpoint.
pub proof fn lemma_topology_relations_resolve(
    p: NetworkTopologyPayload,
    company: Seq<char>,
    agent: Seq<char>,
)
    ensures
        relations_resolve(topology_graph(p, company, agent)),
{
    lemma_hosts_resolve(p.hosts@, company, agent);
    lemma_routes_resolve(hosts_graph(p.hosts@, company, agent), p.routes@, company, agent);
}

} // verus!

verus! {

// ---------------------------------------------------------------------------
// Replays
// ---------------------------------------------------------------------------

/// Node keys of two different tenants never coincide: every statement merges
/// a node on its `id` together with its `companyId` and `agentId`, and every
/// node of the graph of a payload carries the company and agent it was
/// reported for. So the graphs of two tenants (different company or agent)
/// have no node of one kind with the same company and agent.
pub proof fn lemma_tenant_graphs_disjoint(
    p1: NetworkTopologyPayload,
    company1: Seq<char>,
    agent1: Seq<char>,
    p2: NetworkTopologyPayload,
    company2: Seq<char>,
    agent2: Seq<char>,
)
    requires
        company1 != company2 || agent1 != agent2,
    ensures
        ({
            let g1 = topology_graph(p1, company1, agent1);
            let g2 = topology_graph(p2, company2, agent2);
            &&& forall|i: int, j: int|
                0 <= i < g1.hosts.len() && 0 <= j < g2.hosts.len() ==> !(#[trigger] g1.hosts[i].company_id
                    == #[trigger] g2.hosts[j].company_id && g1.hosts[i].agent_id == g2.hosts[j].agent_id)
            &&& forall|i: int, j: int|
                0 <= i < g1.containers.len() && 0 <= j < g2.containers.len() ==> !(
                #[trigger] g1.containers[i].company_id == #[trigger] g2.containers[j].company_id
                    && g1.containers[i].agent_id == g2.containers[j].agent_id)
            &&& forall|i: int, j: int|
                0 <= i < g1.processes.len() && 0 <= j < g2.processes.len() ==> !(
                #[trigger] g1.processes[i].company_id == #[trigger] g2.processes[j].company_id
                    && g1.processes[i].agent_id == g2.processes[j].agent_id)
            &&& forall|i: int, j: int|
                0 <= i < g1.routes.len() && 0 <= j < g2.routes.len() ==> !(#[trigger] g1.routes[i].company_id
                    == #[trigger] g2.routes[j].company_id && g1.routes[i].agent_id == g2.routes[j].agent_id)
            &&& forall|i: int, j: int|
                0 <= i < g1.endpoints.len() && 0 <= j < g2.endpoints.len() ==> !(
                #[trigger] g1.endpoints[i].company_id == #[trigger] g2.endpoints[j].company_id
                    && g1.endpoints[i].agent_id == g2.endpoints[j].agent_id)
        }),
{
    lemma_topology_graph_in_scope(p1, company1, agent1);
    lemma_topology_graph_in_scope(p2, company2, agent2);
    let g1 = topology_graph(p1, company1, agent1);
    let g2 = topology_graph(p2, company2, agent2);
    assert forall|i: int, j: int| 0 <= i < g1.hosts.len() && 0 <= j < g2.hosts.len() implies !(
    #[trigger] g1.hosts[i].company_id == #[trigger] g2.hosts[j].company_id && g1.hosts[i].agent_id
        == g2.hosts[j].agent_id) by {
        assert(host_in_scope(company1, agent1)(g1.hosts[i]));
        assert(host_in_scope(company2, agent2)(g2.hosts[j]));
    }
    assert forall|i: int, j: int|
        0 <= i < g1.containers.len() && 0 <= j < g2.containers.len() implies !(
    #[trigger] g1.containers[i].company_id == #[trigger] g2.containers[j].company_id
        && g1.containers[i].agent_id == g2.containers[j].agent_id) by {
        assert(container_in_scope(company1, agent1)(g1.containers[i]));
        assert(container_in_scope(company2, agent2)(g2.containers[j]));
    }
    assert forall|i: int, j: int|
        0 <= i < g1.processes.len() && 0 <= j < g2.processes.len() implies !(
    #[trigger] g1.processes[i].company_id == #[trigger] g2.processes[j].company_id
        && g1.processes[i].agent_id == g2.processes[j].agent_id) by {
        assert(process_in_scope(company1, agent1)(g1.processes[i]));
        assert(process_in_scope(company2, agent2)(g2.processes[j]));
    }
    assert forall|i: int, j: int| 0 <= i < g1.routes.len() && 0 <= j < g2.routes.len() implies !(
    #[trigger] g1.routes[i].company_id == #[trigger] g2.routes[j].company_id && g1.routes[i].agent_id
        == g2.routes[j].agent_id) by {
        assert(route_in_scope(company1, agent1)(g1.routes[i]));
        assert(route_in_scope(company2, agent2)(g2.routes[j]));
    }
    assert forall|i: int, j: int|
        0 <= i < g1.endpoints.len() && 0 <= j < g2.endpoints.len() implies !(
    #[trigger] g1.endpoints[i].company_id == #[trigger] g2.endpoints[j].company_id
        && g1.endpoints[i].agent_id == g2.endpoints[j].agent_id) by {
        assert(endpoint_in_scope(company1, agent1)(g1.endpoints[i]));
        assert(endpoint_in_scope(company2, agent2)(g2.endpoints[j]));
    }
}

} // verus!


verus! {

/// Number of processes of the given containers.
pub open spec fn containers_process_count(cs: Seq<ProtoContainer>) -> nat
    decreases cs.len(),
{
    if cs.len() == 0 {
        0
    } else {
        containers_process_count(cs.drop_last()) + cs.last().processes@.len()
    }
}

/// Number of containers of the given hosts.
pub open spec fn hosts_container_count(hs: Seq<ProtoHost>) -> nat
    decreases hs.len(),
{
    if hs.len() == 0 {
        0
    } else {
        hosts_container_count(hs.drop_last()) + hs.last().containers@.len()
    }
}

/// Number of processes that the given hosts run outside containers.
pub open spec fn hosts_own_process_count(hs: Seq<ProtoHost>) -> nat
    decreases hs.len(),
{
    if hs.len() == 0 {
        0
    } else {
        hosts_own_process_count(hs.drop_last()) + hs.last().processes@.len()
    }
}

/// Number of processes that the given hosts run inside containers.
pub open spec fn hosts_contained_process_count(hs: Seq<ProtoHost>) -> nat
    decreases hs.len(),
{
    if hs.len() == 0 {
        0
    } else {
        hosts_contained_process_count(hs.drop_last()) + containers_process_count(
            hs.last().containers@,
        )
    }
}

proof fn lemma_containers_process_count(cs: Seq<ProtoContainer>, company: Seq<char>, agent: Seq<char>)
    ensures
        containers_process_nodes(cs, company, agent).len() == containers_process_count(cs),
        containers_process_relations(cs, company, agent).len() == containers_process_count(cs),
    decreases cs.len(),
{
    if cs.len() > 0 {
        lemma_containers_process_count(cs.drop_last(), company, agent);
    }
}

proof fn lemma_hosts_counts(hs: Seq<ProtoHost>, company: Seq<char>, agent: Seq<char>)
    ensures
        hosts_graph(hs, company, agent).containers.len() == hosts_container_count(hs),
        hosts_graph(hs, company, agent).host_containers.len() == hosts_container_count(hs),
        hosts_graph(hs, company, agent).processes.len() == hosts_own_process_count(hs)
            + hosts_contained_process_count(hs),
        hosts_graph(hs, company, agent).host_processes.len() == hosts_own_process_count(hs),
        hosts_graph(hs, company, agent).container_processes.len() == hosts_contained_process_count(
            hs,
        ),
    decreases hs.len(),
{
    if hs.len() > 0 {
        lemma_hosts_counts(hs.drop_last(), company, agent);
        lemma_containers_process_count(hs.last().containers@, company, agent);
    }
}

/// The graph of a payload has one container node and one host-to-container
/// relation per container of its hosts; one process node per process, inside
/// containers or not; one host-to-process relation per process a host runs
/// outside containers, and one container-to-process relation per process
/// inside a container.
pub proof fn lemma_topology_graph_counts(p: NetworkTopologyPayload, company: Seq<char>, agent: Seq<char>)
    ensures
        topology_graph(p, company, agent).containers.len() == hosts_container_count(p.hosts@),
        topology_graph(p, company, agent).host_containers.len() == hosts_container_count(p.hosts@),
        topology_graph(p, company, agent).processes.len() == hosts_own_process_count(p.hosts@)
            + hosts_contained_process_count(p.hosts@),
        topology_graph(p, company, agent).host_processes.len() == hosts_own_process_count(p.hosts@),
        topology_graph(p, company, agent).container_processes.len()
            == hosts_contained_process_count(p.hosts@),
{
    lemma_hosts_counts(p.hosts@, company, agent);
    lemma_routes_sizes(hosts_graph(p.hosts@, company, agent), p.routes@, company, agent);
}

} // verus!

verus! {

// ---------------------------------------------------------------------------
// Nodes carry the payload's own fields
// ---------------------------------------------------------------------------

/// Host node `n` is host `h` of the payload: its identifier is the host's,
/// and it carries the host's name and addresses and the tenant.
pub open spec fn host_node_copies(n: HostNodeView, h: ProtoHost, company: Seq<char>, agent: Seq<char>) -> bool {
    &&& n.id == h.id@
    &&& n.raw_id == h.id@
    &&& n.hostname == h.hostname@
    &&& n.ip_addresses == h.ip_addresses@
    &&& n.company_id == company
    &&& n.agent_id == agent
}

/// Container node `n` is container `c` of the payload.
pub open spec fn container_node_copies(
    n: ContainerNodeView,
    c: ProtoContainer,
    company: Seq<char>,
    agent: Seq<char>,
) -> bool {
    &&& n.id == c.id@
    &&& n.raw_id == c.id@
    &&& n.name == c.name@
    &&& n.image == c.image@
    &&& n.image_sha256 == c.image_sha256
    &&& n.env == c.env@
    &&& n.ports == c.ports@
    &&& n.exposed_ports == c.exposed_ports@
    &&& n.privileged == c.privileged
    &&& n.run_as_root == c.run_as_root
    &&& n.sensitive_volumes == c.sensitive_volumes@
    &&& n.company_id == company
    &&& n.agent_id == agent
}

/// Process node `n` is process `p` of the host or container `owner_raw`.
pub open spec fn process_node_copies(
    n: ProcessNodeView,
    p: ProtoProcess,
    owner_raw: Seq<char>,
    company: Seq<char>,
    agent: Seq<char>,
) -> bool {
    &&& n.id == process_raw_id(owner_raw, p.pid)
    &&& n.pid == p.pid
    &&& n.name == p.name@
    &&& n.command_line == p.command_line
    &&& n.user == p.user
    &&& n.company_id == company
    &&& n.agent_id == agent
}

/// Route node `n` is route `r` of the payload.
pub open spec fn route_node_copies(n: RouteNodeView, r: ProtoRoute, company: Seq<char>, agent: Seq<char>) -> bool {
    &&& n.route == r
    &&& n.id == n.raw_id
    &&& n.company_id == company
    &&& n.agent_id == agent
}

/// Endpoint node `n` has the given kind, name and namespace.
pub open spec fn endpoint_node_copies(
    n: EndpointNodeView,
    kind: Seq<char>,
    name: Seq<char>,
    namespace: Option<String>,
    company: Seq<char>,
    agent: Seq<char>,
) -> bool {
    &&& n.kind == kind
    &&& n.name == name
    &&& n.namespace == namespace
    &&& n.id == n.raw_id
    &&& n.company_id == company
    &&& n.agent_id == agent
}

pub open spec fn has_container_node(
    nodes: Seq<ContainerNodeView>,
    c: ProtoContainer,
    company: Seq<char>,
    agent: Seq<char>,
) -> bool {
    exists|j: int| 0 <= j < nodes.len() && container_node_copies(#[trigger] nodes[j], c, company, agent)
}

pub open spec fn has_process_node(
    nodes: Seq<ProcessNodeView>,
    p: ProtoProcess,
    owner_raw: Seq<char>,
    company: Seq<char>,
    agent: Seq<char>,
) -> bool {
    exists|j: int| 0 <= j < nodes.len() && process_node_copies(#[trigger] nodes[j], p, owner_raw, company, agent)
}

proof fn lemma_has_process_node_concat(
    a: Seq<ProcessNodeView>,
    b: Seq<ProcessNodeView>,
    p: ProtoProcess,
    owner_raw: Seq<char>,
    company: Seq<char>,
    agent: Seq<char>,
)
    requires
        has_process_node(a, p, owner_raw, company, agent) || has_process_node(b, p, owner_raw, company, agent),
    ensures
        has_process_node(a + b, p, owner_raw, company, agent),
{
    if has_process_node(a, p, owner_raw, company, agent) {
        let j = choose|j: int| 0 <= j < a.len() && process_node_copies(#[trigger] a[j], p, owner_raw, company, agent);
        assert((a + b)[j] == a[j]);
    } else {
        let j = choose|j: int| 0 <= j < b.len() && process_node_copies(#[trigger] b[j], p, owner_raw, company, agent);
        assert((a + b)[a.len() + j] == b[j]);
    }
}

proof fn lemma_has_container_node_concat(
    a: Seq<ContainerNodeView>,
    b: Seq<ContainerNodeView>,
    c: ProtoContainer,
    company: Seq<char>,
    agent: Seq<char>,
)
    requires
        has_container_node(a, c, company, agent) || has_container_node(b, c, company, agent),
    ensures
        has_container_node(a + b, c, company, agent),
{
    if has_container_node(a, c, company, agent) {
        let j = choose|j: int| 0 <= j < a.len() && container_node_copies(#[trigger] a[j], c, company, agent);
        assert((a + b)[j] == a[j]);
    } else {
        let j = choose|j: int| 0 <= j < b.len() && container_node_copies(#[trigger] b[j], c, company, agent);
        assert((a + b)[a.len() + j] == b[j]);
    }
}

proof fn lemma_container_processes_have_nodes(cs: Seq<ProtoContainer>, company: Seq<char>, agent: Seq<char>)
    ensures
        forall|k: int, m: int|
            0 <= k < cs.len() && 0 <= m < cs[k].processes@.len() ==> has_process_node(
                containers_process_nodes(cs, company, agent),
                #[trigger] cs[k].processes@[m],
                cs[k].id@,
                company,
                agent,
            ),
    decreases cs.len(),
{
    if cs.len() > 0 {
        let init = cs.drop_last();
        lemma_container_processes_have_nodes(init, company, agent);
        let a = containers_process_nodes(init, company, agent);
        let c = cs.last();
        let b = owned_process_nodes(c.processes@, c.id@, company, agent);
        assert forall|k: int, m: int|
            0 <= k < cs.len() && 0 <= m < cs[k].processes@.len() implies has_process_node(
            containers_process_nodes(cs, company, agent),
            #[trigger] cs[k].processes@[m],
            cs[k].id@,
            company,
            agent,
        ) by {
            if k < init.len() {
                assert(cs[k] == init[k]);
                assert(has_process_node(a, init[k].processes@[m], init[k].id@, company, agent));
            } else {
                assert(cs[k] == c);
                assert(process_node_copies(b[m], c.processes@[m], c.id@, company, agent));
                assert(has_process_node(b, c.processes@[m], c.id@, company, agent));
            }
            lemma_has_process_node_concat(a, b, cs[k].processes@[m], cs[k].id@, company, agent);
        }
    }
}

proof fn lemma_hosts_graph_nodes(hs: Seq<ProtoHost>, company: Seq<char>, agent: Seq<char>)
    ensures
        hosts_graph(hs, company, agent).hosts.len() == hs.len(),
        forall|i: int|
            0 <= i < hs.len() ==> host_node_copies(
                #[trigger] hosts_graph(hs, company, agent).hosts[i],
                hs[i],
                company,
                agent,
            ),
        forall|i: int, k: int|
            0 <= i < hs.len() && 0 <= k < hs[i].containers@.len() ==> has_container_node(
                hosts_graph(hs, company, agent).containers,
                #[trigger] hs[i].containers@[k],
                company,
                agent,
            ),
        forall|i: int, k: int|
            0 <= i < hs.len() && 0 <= k < hs[i].processes@.len() ==> has_process_node(
                hosts_graph(hs, company, agent).processes,
                #[trigger] hs[i].processes@[k],
                hs[i].id@,
                company,
                agent,
            ),
        forall|i: int, k: int, m: int|
            0 <= i < hs.len() && 0 <= k < hs[i].containers@.len() && 0 <= m
                < hs[i].containers@[k].processes@.len() ==> has_process_node(
                hosts_graph(hs, company, agent).processes,
                #[trigger] hs[i].containers@[k].processes@[m],
                hs[i].containers@[k].id@,
                company,
                agent,
            ),
    decreases hs.len(),
{
    if hs.len() > 0 {
        let init = hs.drop_last();
        lemma_hosts_graph_nodes(init, company, agent);
        let a = hosts_graph(init, company, agent);
        let h = hs.last();
        let b = host_graph(h, company, agent);
        let g = hosts_graph(hs, company, agent);
        lemma_container_processes_have_nodes(h.containers@, company, agent);
        let own = owned_process_nodes(h.processes@, h.id@, company, agent);
        let rest = containers_process_nodes(h.containers@, company, agent);
        assert forall|i: int| 0 <= i < hs.len() implies host_node_copies(
            #[trigger] g.hosts[i],
            hs[i],
            company,
            agent,
        ) by {
            if i < init.len() {
                assert(g.hosts[i] == a.hosts[i]);
                assert(hs[i] == init[i]);
            } else {
                assert(g.hosts[i] == b.hosts[0]);
            }
        }
        assert forall|i: int, k: int|
            0 <= i < hs.len() && 0 <= k < hs[i].containers@.len() implies has_container_node(
            g.containers,
            #[trigger] hs[i].containers@[k],
            company,
            agent,
        ) by {
            if i < init.len() {
                assert(hs[i] == init[i]);
                assert(has_container_node(a.containers, init[i].containers@[k], company, agent));
            } else {
                assert(hs[i] == h);
                assert(container_node_copies(b.containers[k], h.containers@[k], company, agent));
                assert(has_container_node(b.containers, h.containers@[k], company, agent));
            }
            lemma_has_container_node_concat(a.containers, b.containers, hs[i].containers@[k], company, agent);
        }
        assert forall|i: int, k: int|
            0 <= i < hs.len() && 0 <= k < hs[i].processes@.len() implies has_process_node(
            g.processes,
            #[trigger] hs[i].processes@[k],
            hs[i].id@,
            company,
            agent,
        ) by {
            if i < init.len() {
                assert(hs[i] == init[i]);
                assert(has_process_node(a.processes, init[i].processes@[k], init[i].id@, company, agent));
            } else {
                assert(hs[i] == h);
                assert(process_node_copies(own[k], h.processes@[k], h.id@, company, agent));
                assert(has_process_node(own, h.processes@[k], h.id@, company, agent));
                lemma_has_process_node_concat(own, rest, h.processes@[k], h.id@, company, agent);
            }
            lemma_has_process_node_concat(a.processes, b.processes, hs[i].processes@[k], hs[i].id@, company, agent);
        }
        assert forall|i: int, k: int, m: int|
            0 <= i < hs.len() && 0 <= k < hs[i].containers@.len() && 0 <= m
                < hs[i].containers@[k].processes@.len() implies has_process_node(
            g.processes,
            #[trigger] hs[i].containers@[k].processes@[m],
            hs[i].containers@[k].id@,
            company,
            agent,
        ) by {
            let c = hs[i].containers@[k];
            if i < init.len() {
                assert(hs[i] == init[i]);
                assert(has_process_node(a.processes, init[i].containers@[k].processes@[m], init[i].containers@[k].id@, company, agent));
            } else {
                assert(hs[i] == h);
                assert(has_process_node(rest, h.containers@[k].processes@[m], h.containers@[k].id@, company, agent));
                lemma_has_process_node_concat(own, rest, c.processes@[m], c.id@, company, agent);
            }
            lemma_has_process_node_concat(a.processes, b.processes, c.processes@[m], c.id@, company, agent);
        }
    }
}

proof fn lemma_with_routes_nodes(base: TopologyGraphView, rs: Seq<ProtoRoute>, company: Seq<char>, agent: Seq<char>)
    ensures
        with_routes(base, rs, company, agent).routes.len() == base.routes.len() + rs.len(),
        with_routes(base, rs, company, agent).endpoints.len() == base.endpoints.len() + 2 * rs.len(),
        forall|k: int|
            0 <= k < rs.len() ==> route_node_copies(
                #[trigger] with_routes(base, rs, company, agent).routes[base.routes.len() + k],
                rs[k],
                company,
                agent,
            ),
        forall|k: int|
            0 <= k < rs.len() ==> endpoint_node_copies(
                #[trigger] with_routes(base, rs, company, agent).endpoints[base.endpoints.len() + 2 * k],
                rs[k].source_kind@,
                rs[k].source_name@,
                rs[k].source_namespace,
                company,
                agent,
            ) && endpoint_node_copies(
                with_routes(base, rs, company, agent).endpoints[base.endpoints.len() + 2 * k + 1],
                rs[k].target_kind@,
                rs[k].target_name@,
                rs[k].target_namespace,
                company,
                agent,
            ),
        forall|k: int|
            0 <= k < base.routes.len() ==> #[trigger] with_routes(base, rs, company, agent).routes[k]
                == base.routes[k],
        forall|k: int|
            0 <= k < base.endpoints.len() ==> #[trigger] with_routes(base, rs, company, agent).endpoints[k]
                == base.endpoints[k],
    decreases rs.len(),
{
    if rs.len() > 0 {
        let init = rs.drop_last();
        lemma_with_routes_nodes(base, init, company, agent);
        let a = with_routes(base, init, company, agent);
        let r = route_graph(rs.last(), company, agent);
        let g = with_routes(base, rs, company, agent);
        assert forall|k: int| 0 <= k < rs.len() implies route_node_copies(
            #[trigger] g.routes[base.routes.len() + k],
            rs[k],
            company,
            agent,
        ) by {
            if k < init.len() {
                assert(g.routes[base.routes.len() + k] == a.routes[base.routes.len() + k]);
                assert(rs[k] == init[k]);
            } else {
                assert(g.routes[base.routes.len() + k] == r.routes[0]);
            }
        }
        assert forall|k: int| 0 <= k < rs.len() implies endpoint_node_copies(
            #[trigger] g.endpoints[base.endpoints.len() + 2 * k],
            rs[k].source_kind@,
            rs[k].source_name@,
            rs[k].source_namespace,
            company,
            agent,
        ) && endpoint_node_copies(
            g.endpoints[base.endpoints.len() + 2 * k + 1],
            rs[k].target_kind@,
            rs[k].target_name@,
            rs[k].target_namespace,
            company,
            agent,
        ) by {
            if k < init.len() {
                assert(g.endpoints[base.endpoints.len() + 2 * k] == a.endpoints[base.endpoints.len() + 2 * k]);
                assert(g.endpoints[base.endpoints.len() + 2 * k + 1] == a.endpoints[base.endpoints.len() + 2 * k + 1]);
                assert(rs[k] == init[k]);
            } else {
                assert(g.endpoints[base.endpoints.len() + 2 * k] == r.endpoints[0]);
                assert(g.endpoints[base.endpoints.len() + 2 * k + 1] == r.endpoints[1]);
            }
        }
        assert forall|k: int| 0 <= k < base.routes.len() implies #[trigger] g.routes[k] == base.routes[k] by {
            assert(g.routes[k] == a.routes[k]);
        }
        assert forall|k: int| 0 <= k < base.endpoints.len() implies #[trigger] g.endpoints[k] == base.endpoints[k] by {
            assert(g.endpoints[k] == a.endpoints[k]);
        }
    }
}

/// The graph of a payload carries every object of the payload with its own
/// fields: host `i` is host node `i`, with the host's id, name and addresses;
/// route `k` is route node `k`, and its source and target are endpoint
/// nodes `2k` and `2k + 1` with their kinds, names and namespaces; every
/// container and every process (of a host or of a container) has a node
/// with its own fields, identified within its owner. Every node carries the
/// company and agent.
pub proof fn lemma_topology_nodes_copy_payload(p: NetworkTopologyPayload, company: Seq<char>, agent: Seq<char>)
    ensures
        ({
            let g = topology_graph(p, company, agent);
            let hs = p.hosts@;
            let rs = p.routes@;
            &&& g.hosts.len() == hs.len()
            &&& forall|i: int| 0 <= i < hs.len() ==> host_node_copies(#[trigger] g.hosts[i], hs[i], company, agent)
            &&& forall|i: int, k: int|
                0 <= i < hs.len() && 0 <= k < hs[i].containers@.len() ==> has_container_node(
                    g.containers,
                    #[trigger] hs[i].containers@[k],
                    company,
                    agent,
                )
            &&& forall|i: int, k: int|
                0 <= i < hs.len() && 0 <= k < hs[i].processes@.len() ==> has_process_node(
                    g.processes,
                    #[trigger] hs[i].processes@[k],
                    hs[i].id@,
                    company,
                    agent,
                )
            &&& forall|i: int, k: int, m: int|
                0 <= i < hs.len() && 0 <= k < hs[i].containers@.len() && 0 <= m
                    < hs[i].containers@[k].processes@.len() ==> has_process_node(
                    g.processes,
                    #[trigger] hs[i].containers@[k].processes@[m],
                    hs[i].containers@[k].id@,
                    company,
                    agent,
                )
            &&& g.routes.len() == rs.len()
            &&& g.endpoints.len() == 2 * rs.len()
            &&& forall|k: int| 0 <= k < rs.len() ==> route_node_copies(#[trigger] g.routes[k], rs[k], company, agent)
            &&& forall|k: int|
                0 <= k < rs.len() ==> endpoint_node_copies(
                    #[trigger] g.endpoints[2 * k],
                    rs[k].source_kind@,
                    rs[k].source_name@,
                    rs[k].source_namespace,
                    company,
                    agent,
                ) && endpoint_node_copies(
                    g.endpoints[2 * k + 1],
                    rs[k].target_kind@,
                    rs[k].target_name@,
                    rs[k].target_namespace,
                    company,
                    agent,
                )
        }),
{
    let base = hosts_graph(p.hosts@, company, agent);
    lemma_hosts_graph_nodes(p.hosts@, company, agent);
    lemma_hosts_graph_sizes(p.hosts@, company, agent);
    lemma_routes_sizes(base, p.routes@, company, agent);
    lemma_with_routes_nodes(base, p.routes@, company, agent);
    let g = topology_graph(p, company, agent);
    assert forall|k: int| 0 <= k < p.routes@.len() implies route_node_copies(#[trigger] g.routes[k], p.routes@[k], company, agent) by {
        assert(g.routes[base.routes.len() + k] == g.routes[k]);
    }
    assert forall|k: int|
        0 <= k < p.routes@.len() implies endpoint_node_copies(
        #[trigger] g.endpoints[2 * k],
        p.routes@[k].source_kind@,
        p.routes@[k].source_name@,
        p.routes@[k].source_namespace,
        company,
        agent,
    ) && endpoint_node_copies(
        g.endpoints[2 * k + 1],
        p.routes@[k].target_kind@,
        p.routes@[k].target_name@,
        p.routes@[k].target_namespace,
        company,
        agent,
    ) by {
        assert(g.endpoints[base.endpoints.len() + 2 * k] == g.endpoints[2 * k]);
    }
}

/// A statement's text reads its rows as they are laid out: a statement with
/// node rows unwinds its own parameter and sets exactly the properties that
/// rows of that kind carry; a statement with relation rows unwinds
/// `$relations` and matches its two nodes by the very keys under which its
/// rows carry their identifiers.
pub open spec fn reads_its_rows(st: CypherStatementView) -> bool {
    match st.rows {
        StatementRowsView::Hosts(_) => exists|var: Seq<char>, alias: Seq<char>, label: Seq<char>|
            #[trigger] merge_nodes_statement(st.parameter, var, alias, label, host_property_names())
                == st.statement,
        StatementRowsView::Containers(_) => exists|var: Seq<char>, alias: Seq<char>, label: Seq<char>|
            #[trigger] merge_nodes_statement(st.parameter, var, alias, label, container_property_names())
                == st.statement,
        StatementRowsView::Processes(_) => exists|var: Seq<char>, alias: Seq<char>, label: Seq<char>|
            #[trigger] merge_nodes_statement(st.parameter, var, alias, label, process_property_names())
                == st.statement,
        StatementRowsView::Routes(_) => exists|var: Seq<char>, alias: Seq<char>, label: Seq<char>|
            #[trigger] merge_nodes_statement(st.parameter, var, alias, label, route_property_names())
                == st.statement,
        StatementRowsView::Endpoints(_) => exists|var: Seq<char>, alias: Seq<char>, label: Seq<char>|
            #[trigger] merge_nodes_statement(st.parameter, var, alias, label, endpoint_property_names())
                == st.statement,
        StatementRowsView::Relations { from_key, to_key, .. } => st.parameter == "relations"@
            && exists|
            from_alias: Seq<char>,
            from_label: Seq<char>,
            to_alias: Seq<char>,
            to_label: Seq<char>,
            relationship: Seq<char>,
        |
            #[trigger] link_statement(from_alias, from_label, from_key, to_alias, to_label, to_key, relationship)
                == st.statement,
    }
}

proof fn lemma_nonempty_keeps(s: Seq<CypherStatementView>, ok: spec_fn(CypherStatementView) -> bool)
    requires
        all_of(s, ok),
    ensures
        all_of(nonempty_statements(s), ok),
    decreases s.len(),
{
    if s.len() > 0 {
        let rest = s.drop_first();
        assert forall|i: int| 0 <= i < rest.len() implies ok(#[trigger] rest[i]) by {
            assert(rest[i] == s[i + 1]);
        }
        lemma_nonempty_keeps(rest, ok);
        let r = nonempty_statements(rest);
        if row_count(s[0].rows) > 0 {
            let n = nonempty_statements(s);
            assert forall|i: int| 0 <= i < n.len() implies ok(#[trigger] n[i]) by {
                if i == 0 {
                    assert(n[0] == s[0]);
                } else {
                    assert(n[i] == r[i - 1]);
                }
            }
        }
    }
}

#[verifier::spinoff_prover]
proof fn lemma_candidate_reads_its_rows(g: TopologyGraphView, i: int)
    requires
        0 <= i < 10,
    ensures
        reads_its_rows(candidate_statements(g)[i]),
{
    let s = candidate_statements(g);
    if i == 0 {
        assert(merge_nodes_statement(s[0].parameter, "host"@, "h"@, "Host"@, host_property_names()) == s[0].statement);
        assert(reads_its_rows(s[0]));
    } else if i == 1 {
        assert(merge_nodes_statement(s[1].parameter, "container"@, "c"@, "Container"@, container_property_names()) == s[1].statement);
        assert(reads_its_rows(s[1]));
    } else if i == 2 {
        assert(merge_nodes_statement(s[2].parameter, "process"@, "p"@, "Process"@, process_property_names()) == s[2].statement);
        assert(reads_its_rows(s[2]));
    } else if i == 3 {
        assert(s[3].parameter == "relations"@);
        assert(s[3].rows matches StatementRowsView::Relations { from_key, to_key, .. } && from_key == "hostId"@ && to_key == "containerId"@);
        assert(link_statement("h"@, "Host"@, "hostId"@, "c"@, "Container"@, "containerId"@, "RUNS_CONTAINER"@) == s[3].statement);
        assert(reads_its_rows(s[3]));
    } else if i == 4 {
        assert(s[4].parameter == "relations"@);
        assert(s[4].rows matches StatementRowsView::Relations { from_key, to_key, .. } && from_key == "hostId"@ && to_key == "processId"@);
        assert(link_statement("h"@, "Host"@, "hostId"@, "p"@, "Process"@, "processId"@, "RUNS_PROCESS"@) == s[4].statement);
        assert(reads_its_rows(s[4]));
    } else if i == 5 {
        assert(s[5].parameter == "relations"@);
        assert(s[5].rows matches StatementRowsView::Relations { from_key, to_key, .. } && from_key == "containerId"@ && to_key == "processId"@);
        assert(link_statement("c"@, "Container"@, "containerId"@, "p"@, "Process"@, "processId"@, "RUNS_PROCESS"@) == s[5].statement);
        assert(reads_its_rows(s[5]));
    } else if i == 6 {
        assert(merge_nodes_statement(s[6].parameter, "route"@, "r"@, "Route"@, route_property_names()) == s[6].statement);
        assert(reads_its_rows(s[6]));
    } else if i == 7 {
        assert(merge_nodes_statement(s[7].parameter, "endpoint"@, "e"@, "RouteEndpoint"@, endpoint_property_names()) == s[7].statement);
        assert(reads_its_rows(s[7]));
    } else if i == 8 {
        assert(s[8].parameter == "relations"@);
        assert(s[8].rows matches StatementRowsView::Relations { from_key, to_key, .. } && from_key == "routeId"@ && to_key == "endpointId"@);
        assert(link_statement("r"@, "Route"@, "routeId"@, "e"@, "RouteEndpoint"@, "endpointId"@, "ROUTE_FROM"@) == s[8].statement);
        assert(reads_its_rows(s[8]));
    } else {
        assert(s[9].parameter == "relations"@);
        assert(s[9].rows matches StatementRowsView::Relations { from_key, to_key, .. } && from_key == "routeId"@ && to_key == "endpointId"@);
        assert(link_statement("r"@, "Route"@, "routeId"@, "e"@, "RouteEndpoint"@, "endpointId"@, "ROUTE_TO"@) == s[9].statement);
        assert(reads_its_rows(s[9]));
    }
}

/// Every statement of the transaction that writes a graph reads its rows as
/// they are laid out (`reads_its_rows`): the keys a link statement matches
/// on are the keys of its rows, and a node statement sets the properties its
/// rows carry.
pub proof fn lemma_statements_read_their_rows(g: TopologyGraphView)
    ensures
        forall|i: int| 0 <= i < statements_of(g).len() ==> reads_its_rows(#[trigger] statements_of(g)[i]),
{
    let s = candidate_statements(g);
    let ok = |st: CypherStatementView| reads_its_rows(st);
    assert forall|i: int| 0 <= i < s.len() implies ok(#[trigger] s[i]) by {
        lemma_candidate_reads_its_rows(g, i);
    }
    lemma_nonempty_keeps(s, ok);
    assert forall|i: int| 0 <= i < statements_of(g).len() implies reads_its_rows(#[trigger] statements_of(g)[i]) by {
        assert(ok(statements_of(g)[i]));
    }
}

/// `rels` holds a relation from node `from` to node `to`.
pub open spec fn has_relation(rels: Seq<RelationView>, from: Seq<char>, to: Seq<char>) -> bool {
    exists|j: int| 0 <= j < rels.len() && (#[trigger] rels[j]).from == from && rels[j].to == to
}

proof fn lemma_has_relation_concat(a: Seq<RelationView>, b: Seq<RelationView>, from: Seq<char>, to: Seq<char>)
    requires
        has_relation(a, from, to) || has_relation(b, from, to),
    ensures
        has_relation(a + b, from, to),
{
    if has_relation(a, from, to) {
        let j = choose|j: int| 0 <= j < a.len() && (#[trigger] a[j]).from == from && a[j].to == to;
        assert((a + b)[j] == a[j]);
    } else {
        let j = choose|j: int| 0 <= j < b.len() && (#[trigger] b[j]).from == from && b[j].to == to;
        assert((a + b)[a.len() + j] == b[j]);
    }
}

proof fn lemma_container_process_relations_cover(cs: Seq<ProtoContainer>, company: Seq<char>, agent: Seq<char>)
    ensures
        forall|k: int, m: int|
            0 <= k < cs.len() && 0 <= m < cs[k].processes@.len() ==> has_relation(
                containers_process_relations(cs, company, agent),
                cs[k].id@,
                process_raw_id(cs[k].id@, (#[trigger] cs[k].processes@[m]).pid),
            ),
    decreases cs.len(),
{
    if cs.len() > 0 {
        let init = cs.drop_last();
        lemma_container_process_relations_cover(init, company, agent);
        let a = containers_process_relations(init, company, agent);
        let c = cs.last();
        let b = owned_process_relations(c.processes@, c.id@, company, agent);
        assert forall|k: int, m: int|
            0 <= k < cs.len() && 0 <= m < cs[k].processes@.len() implies has_relation(
            containers_process_relations(cs, company, agent),
            cs[k].id@,
            process_raw_id(cs[k].id@, (#[trigger] cs[k].processes@[m]).pid),
        ) by {
            if k < init.len() {
                assert(cs[k] == init[k]);
                assert(has_relation(a, init[k].id@, process_raw_id(init[k].id@, init[k].processes@[m].pid)));
            } else {
                assert(cs[k] == c);
                assert(b[m].from == c.id@ && b[m].to == process_raw_id(c.id@, c.processes@[m].pid));
                assert(has_relation(b, c.id@, process_raw_id(c.id@, c.processes@[m].pid)));
            }
            lemma_has_relation_concat(a, b, cs[k].id@, process_raw_id(cs[k].id@, cs[k].processes@[m].pid));
        }
    }
}

proof fn lemma_hosts_graph_relations(hs: Seq<ProtoHost>, company: Seq<char>, agent: Seq<char>)
    ensures
        forall|i: int, k: int|
            0 <= i < hs.len() && 0 <= k < hs[i].containers@.len() ==> has_relation(
                hosts_graph(hs, company, agent).host_containers,
                hs[i].id@,
                (#[trigger] hs[i].containers@[k]).id@,
            ),
        forall|i: int, k: int|
            0 <= i < hs.len() && 0 <= k < hs[i].processes@.len() ==> has_relation(
                hosts_graph(hs, company, agent).host_processes,
                hs[i].id@,
                process_raw_id(hs[i].id@, (#[trigger] hs[i].processes@[k]).pid),
            ),
        forall|i: int, k: int, m: int|
            0 <= i < hs.len() && 0 <= k < hs[i].containers@.len() && 0 <= m
                < hs[i].containers@[k].processes@.len() ==> has_relation(
                hosts_graph(hs, company, agent).container_processes,
                hs[i].containers@[k].id@,
                process_raw_id(hs[i].containers@[k].id@, (#[trigger] hs[i].containers@[k].processes@[m]).pid),
            ),
    decreases hs.len(),
{
    if hs.len() > 0 {
        let init = hs.drop_last();
        lemma_hosts_graph_relations(init, company, agent);
        let a = hosts_graph(init, company, agent);
        let h = hs.last();
        let b = host_graph(h, company, agent);
        let g = hosts_graph(hs, company, agent);
        lemma_container_process_relations_cover(h.containers@, company, agent);
        assert forall|i: int, k: int|
            0 <= i < hs.len() && 0 <= k < hs[i].containers@.len() implies has_relation(
            g.host_containers,
            hs[i].id@,
            (#[trigger] hs[i].containers@[k]).id@,
        ) by {
            if i < init.len() {
                assert(hs[i] == init[i]);
                assert(has_relation(a.host_containers, init[i].id@, init[i].containers@[k].id@));
            } else {
                assert(hs[i] == h);
                assert(b.host_containers[k].from == h.id@ && b.host_containers[k].to == h.containers@[k].id@);
                assert(has_relation(b.host_containers, h.id@, h.containers@[k].id@));
            }
            lemma_has_relation_concat(a.host_containers, b.host_containers, hs[i].id@, hs[i].containers@[k].id@);
        }
        assert forall|i: int, k: int|
            0 <= i < hs.len() && 0 <= k < hs[i].processes@.len() implies has_relation(
            g.host_processes,
            hs[i].id@,
            process_raw_id(hs[i].id@, (#[trigger] hs[i].processes@[k]).pid),
        ) by {
            let to = process_raw_id(hs[i].id@, hs[i].processes@[k].pid);
            if i < init.len() {
                assert(hs[i] == init[i]);
                assert(has_relation(a.host_processes, init[i].id@, to));
            } else {
                assert(hs[i] == h);
                assert(b.host_processes[k].from == h.id@ && b.host_processes[k].to == to);
                assert(has_relation(b.host_processes, h.id@, to));
            }
            lemma_has_relation_concat(a.host_processes, b.host_processes, hs[i].id@, to);
        }
        assert forall|i: int, k: int, m: int|
            0 <= i < hs.len() && 0 <= k < hs[i].containers@.len() && 0 <= m
                < hs[i].containers@[k].processes@.len() implies has_relation(
            g.container_processes,
            hs[i].containers@[k].id@,
            process_raw_id(hs[i].containers@[k].id@, (#[trigger] hs[i].containers@[k].processes@[m]).pid),
        ) by {
            let c = hs[i].containers@[k];
            let to = process_raw_id(c.id@, c.processes@[m].pid);
            if i < init.len() {
                assert(hs[i] == init[i]);
                assert(has_relation(a.container_processes, c.id@, to));
            } else {
                assert(hs[i] == h);
                assert(has_relation(b.container_processes, c.id@, to));
            }
            lemma_has_relation_concat(a.container_processes, b.container_processes, c.id@, to);
        }
    }
}

proof fn lemma_with_routes_relations(base: TopologyGraphView, rs: Seq<ProtoRoute>, company: Seq<char>, agent: Seq<char>)
    requires
        base.routes.len() == 0,
        base.endpoints.len() == 0,
        base.route_sources.len() == 0,
        base.route_targets.len() == 0,
    ensures
        forall|k: int|
            0 <= k < rs.len() ==> (#[trigger] with_routes(base, rs, company, agent).route_sources[k]).from
                == with_routes(base, rs, company, agent).routes[k].id
                && with_routes(base, rs, company, agent).route_sources[k].to
                == with_routes(base, rs, company, agent).endpoints[2 * k].id
                && with_routes(base, rs, company, agent).route_targets[k].from
                == with_routes(base, rs, company, agent).routes[k].id
                && with_routes(base, rs, company, agent).route_targets[k].to
                == with_routes(base, rs, company, agent).endpoints[2 * k + 1].id,
    decreases rs.len(),
{
    lemma_routes_sizes(base, rs, company, agent);
    if rs.len() > 0 {
        let init = rs.drop_last();
        lemma_with_routes_relations(base, init, company, agent);
        lemma_routes_sizes(base, init, company, agent);
        let a = with_routes(base, init, company, agent);
        let r = route_graph(rs.last(), company, agent);
        let g = with_routes(base, rs, company, agent);
        assert forall|k: int| 0 <= k < rs.len() implies (#[trigger] g.route_sources[k]).from == g.routes[k].id
            && g.route_sources[k].to == g.endpoints[2 * k].id && g.route_targets[k].from == g.routes[k].id
            && g.route_targets[k].to == g.endpoints[2 * k + 1].id by {
            if k < init.len() {
                assert(g.route_sources[k] == a.route_sources[k]);
                assert(g.route_targets[k] == a.route_targets[k]);
                assert(g.routes[k] == a.routes[k]);
                assert(g.endpoints[2 * k] == a.endpoints[2 * k]);
                assert(g.endpoints[2 * k + 1] == a.endpoints[2 * k + 1]);
            } else {
                assert(g.route_sources[k] == r.route_sources[0]);
                assert(g.route_targets[k] == r.route_targets[0]);
                assert(g.routes[k] == r.routes[0]);
                assert(g.endpoints[2 * k] == r.endpoints[0]);
                assert(g.endpoints[2 * k + 1] == r.endpoints[1]);
            }
        }
    }
}

/// The graph of a payload links every object to what it holds: each host to
/// each of its containers and each of its own processes, each container to
/// each of its processes, and route `k` (route node `k`) to its source
/// (endpoint node `2k`) and its target (endpoint node `2k + 1`).
pub proof fn lemma_topology_relations_cover(p: NetworkTopologyPayload, company: Seq<char>, agent: Seq<char>)
    ensures
        ({
            let g = topology_graph(p, company, agent);
            let hs = p.hosts@;
            &&& forall|i: int, k: int|
                0 <= i < hs.len() && 0 <= k < hs[i].containers@.len() ==> has_relation(
                    g.host_containers,
                    hs[i].id@,
                    (#[trigger] hs[i].containers@[k]).id@,
                )
            &&& forall|i: int, k: int|
                0 <= i < hs.len() && 0 <= k < hs[i].processes@.len() ==> has_relation(
                    g.host_processes,
                    hs[i].id@,
                    process_raw_id(hs[i].id@, (#[trigger] hs[i].processes@[k]).pid),
                )
            &&& forall|i: int, k: int, m: int|
                0 <= i < hs.len() && 0 <= k < hs[i].containers@.len() && 0 <= m
                    < hs[i].containers@[k].processes@.len() ==> has_relation(
                    g.container_processes,
                    hs[i].containers@[k].id@,
                    process_raw_id(hs[i].containers@[k].id@, (#[trigger] hs[i].containers@[k].processes@[m]).pid),
                )
            &&& forall|k: int|
                0 <= k < p.routes@.len() ==> (#[trigger] g.route_sources[k]).from == g.routes[k].id
                    && g.route_sources[k].to == g.endpoints[2 * k].id && g.route_targets[k].from
                    == g.routes[k].id && g.route_targets[k].to == g.endpoints[2 * k + 1].id
        }),
{
    let base = hosts_graph(p.hosts@, company, agent);
    lemma_hosts_graph_relations(p.hosts@, company, agent);
    lemma_hosts_graph_sizes(p.hosts@, company, agent);
    lemma_routes_sizes(base, p.routes@, company, agent);
    lemma_with_routes_relations(base, p.routes@, company, agent);
}

} // verus!
