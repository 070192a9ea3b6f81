use aegis_ai_worker_ingest::domain::{
    NetworkTopologyPayload, ProtoContainer, ProtoHost, ProtoPort, ProtoProcess, ProtoRoute,
};
use aegis_ai_worker_ingest::graph::{
    build_topology_graph, cypher_statements, PropertyValue, StatementRows,
};
use aegis_ai_worker_ingest::telemetry::{
    event_row_text, telemetry_insert_token, telemetry_rows, StreamEvent,
};
use std::collections::BTreeMap;

const HOSTS_CYPHER: &str = "UNWIND $hosts AS host MERGE (h:Host {id: host.id, companyId: host.companyId, agentId: host.agentId}) SET h.rawId = host.rawId, h.agentId = host.agentId, h.companyId = host.companyId, h.hostname = host.hostname, h.ipAddresses = host.ipAddresses";

const CONTAINERS_CYPHER: &str = "UNWIND $containers AS container MERGE (c:Container {id: container.id, companyId: container.companyId, agentId: container.agentId}) SET c.rawId = container.rawId, c.agentId = container.agentId, c.companyId = container.companyId, c.name = container.name, c.image = container.image, c.imageSha256 = container.imageSha256, c.env = container.env, c.ports = container.ports, c.exposedPorts = container.exposedPorts, c.privileged = container.privileged, c.runAsRoot = container.runAsRoot, c.sensitiveVolumes = container.sensitiveVolumes";

const PROCESSES_CYPHER: &str = "UNWIND $processes AS process MERGE (p:Process {id: process.id, companyId: process.companyId, agentId: process.agentId}) SET p.agentId = process.agentId, p.companyId = process.companyId, p.name = process.name, p.commandLine = process.commandLine, p.user = process.user, p.pid = process.pid";

const HOST_CONTAINERS_CYPHER: &str = "UNWIND $relations AS relation MATCH (h:Host {id: relation.hostId, companyId: relation.companyId, agentId: relation.agentId}), (c:Container {id: relation.containerId, companyId: relation.companyId, agentId: relation.agentId}) MERGE (h)-[:RUNS_CONTAINER]->(c)";

const HOST_PROCESSES_CYPHER: &str = "UNWIND $relations AS relation MATCH (h:Host {id: relation.hostId, companyId: relation.companyId, agentId: relation.agentId}), (p:Process {id: relation.processId, companyId: relation.companyId, agentId: relation.agentId}) MERGE (h)-[:RUNS_PROCESS]->(p)";

const CONTAINER_PROCESSES_CYPHER: &str = "UNWIND $relations AS relation MATCH (c:Container {id: relation.containerId, companyId: relation.companyId, agentId: relation.agentId}), (p:Process {id: relation.processId, companyId: relation.companyId, agentId: relation.agentId}) MERGE (c)-[:RUNS_PROCESS]->(p)";

const ROUTES_CYPHER: &str = "UNWIND $routes AS route MERGE (r:Route {id: route.id, companyId: route.companyId, agentId: route.agentId}) SET r.rawId = route.rawId, r.agentId = route.agentId, r.companyId = route.companyId, r.kind = route.kind, r.sourceKind = route.sourceKind, r.sourceName = route.sourceName, r.sourceNamespace = route.sourceNamespace, r.targetKind = route.targetKind, r.targetName = route.targetName, r.targetNamespace = route.targetNamespace, r.host = route.host, r.path = route.path, r.pathType = route.pathType, r.protocol = route.protocol, r.sourcePort = route.sourcePort, r.targetPort = route.targetPort, r.publishedPort = route.publishedPort";

const ENDPOINTS_CYPHER: &str = "UNWIND $endpoints AS endpoint MERGE (e:RouteEndpoint {id: endpoint.id, companyId: endpoint.companyId, agentId: endpoint.agentId}) SET e.rawId = endpoint.rawId, e.agentId = endpoint.agentId, e.companyId = endpoint.companyId, e.kind = endpoint.kind, e.name = endpoint.name, e.namespace = endpoint.namespace";

const ROUTE_SOURCES_CYPHER: &str = "UNWIND $relations AS relation MATCH (r:Route {id: relation.routeId, companyId: relation.companyId, agentId: relation.agentId}), (e:RouteEndpoint {id: relation.endpointId, companyId: relation.companyId, agentId: relation.agentId}) MERGE (r)-[:ROUTE_FROM]->(e)";

const ROUTE_TARGETS_CYPHER: &str = "UNWIND $relations AS relation MATCH (r:Route {id: relation.routeId, companyId: relation.companyId, agentId: relation.agentId}), (e:RouteEndpoint {id: relation.endpointId, companyId: relation.companyId, agentId: relation.agentId}) MERGE (r)-[:ROUTE_TO]->(e)";


fn process(pid: i32, name: &str, cmd: Option<&str>, user: Option<&str>) -> ProtoProcess {
    ProtoProcess {
        pid,
        name: name.to_string(),
        command_line: cmd.map(|s| s.to_string()),
        user: user.map(|s| s.to_string()),
    }
}

fn container(id: &str, name: &str, image: &str, processes: Vec<ProtoProcess>) -> ProtoContainer {
    ProtoContainer {
        id: id.to_string(),
        name: name.to_string(),
        image: image.to_string(),
        image_version: None,
        image_hash: None,
        image_sha256: None,
        image_archive_ref: None,
        image_archive_object: None,
        env: BTreeMap::new(),
        labels: BTreeMap::new(),
        networks: vec![],
        processes,
        ports: vec![ProtoPort {
            number: 80,
            protocol: "tcp".to_string(),
            state: Some("LISTEN".to_string()),
            host_ip: None,
            host_port: None,
            source: None,
        }],
        exposed_ports: vec![],
        privileged: None,
        run_as_root: None,
        sensitive_volumes: vec![],
    }
}

fn host(id: &str, hostname: &str, ips: &[&str], containers: Vec<ProtoContainer>, processes: Vec<ProtoProcess>) -> ProtoHost {
    ProtoHost {
        id: id.to_string(),
        hostname: hostname.to_string(),
        ip_addresses: ips.iter().map(|s| s.to_string()).collect(),
        containers,
        processes,
    }
}

fn payload(hosts: Vec<ProtoHost>, routes: Vec<ProtoRoute>) -> NetworkTopologyPayload {
    NetworkTopologyPayload { hosts, routes, database_schemas: vec![] }
}

fn route() -> ProtoRoute {
    ProtoRoute {
        kind: "ingress".to_string(),
        source_kind: "Ingress".to_string(),
        source_name: "web".to_string(),
        source_namespace: Some("prod".to_string()),
        target_kind: "Service".to_string(),
        target_name: "api".to_string(),
        target_namespace: None,
        host: Some("example.com".to_string()),
        path: Some("/".to_string()),
        path_type: None,
        protocol: "tcp".to_string(),
        source_port: Some(443),
        target_port: Some("http".to_string()),
        published_port: Some(8443),
    }
}

#[test]
fn telemetry_rows_follow_hosts_containers_processes_then_routes() {
    let p = payload(
        vec![host(
            "h1",
            "host1",
            &["10.0.0.1"],
            vec![container("c1", "cont1", "img1", vec![process(111, "cproc", Some("ccmd"), Some("cuser"))])],
            vec![process(456, "proc1", Some("cmd1"), Some("usr1"))],
        )],
        vec![route()],
    );
    let rows = telemetry_rows(&p, "agent-1", "company-1", 1_700_000_000);
    assert_eq!(rows.len(), 4);
    assert_eq!(rows[0].event_type, "Host");
    assert_eq!(rows[0].source, "host1");
    assert_eq!(rows[0].message, "Host online (ip_addresses: [\"10.0.0.1\"])");
    assert_eq!(rows[0].value, 1);
    assert!(rows.iter().all(|r| r.timestamp == 1_700_000_000 && r.agent_id == "agent-1"));
    assert_eq!(rows[1].event_type, "Container");
    assert_eq!(rows[1].source, "cont1");
    assert_eq!(
        rows[1].message,
        "Container running (image: img1, image_sha256: None, privileged: None, run_as_root: None, exposed_ports: 0, sensitive_volumes: 0)"
    );
    assert_eq!(rows[2].event_type, "Process");
    assert_eq!(rows[2].source, "proc1");
    assert_eq!(
        rows[2].message,
        "Process running (pid: 456, command_line: Some(\"cmd1\"), user: Some(\"usr1\"))"
    );
    assert_eq!(rows[2].value, 456);
    assert_eq!(rows[3].event_type, "Route");
    assert_eq!(rows[3].source, "web");
    assert_eq!(
        rows[3].message,
        "Route discovered (kind: ingress, source_kind: Ingress, target_kind: Service, protocol: tcp, source_port: Some(443), target_port: Some(\"http\"), published_port: Some(8443))"
    );
    for row in &rows {
        assert_eq!(row.agent_id, "agent-1");
        assert_eq!(row.company_id, "company-1");
    }
}

#[test]
fn telemetry_messages_escape_strings_and_render_flags() {
    let mut c = container("c1", "cont1", "img1", vec![]);
    c.image_sha256 = Some("sha\"256".to_string());
    c.privileged = Some(true);
    c.run_as_root = Some(false);
    c.sensitive_volumes = vec!["/etc".to_string(), "/var".to_string()];
    let p = payload(vec![host("h1", "host1", &["10.0.0.1", "10.0.0.2"], vec![c], vec![process(-3, "p", None, None)])], vec![]);
    let rows = telemetry_rows(&p, "a", "c", 0);
    assert_eq!(rows[0].message, "Host online (ip_addresses: [\"10.0.0.1\", \"10.0.0.2\"])");
    assert_eq!(
        rows[1].message,
        "Container running (image: img1, image_sha256: Some(\"sha\\\"256\"), privileged: Some(true), run_as_root: Some(false), exposed_ports: 0, sensitive_volumes: 2)"
    );
    assert_eq!(rows[2].message, "Process running (pid: -3, command_line: None, user: None)");
    assert_eq!(rows[2].value, -3);
}

#[test]
fn empty_payload_has_no_rows_and_no_statements() {
    let p = payload(vec![], vec![]);
    assert!(telemetry_rows(&p, "a", "c", 0).is_empty());
    let g = build_topology_graph(&p, "a", "c");
    assert!(cypher_statements(g).is_empty());
}

#[test]
fn graph_keys_nodes_by_raw_id_company_and_agent() {
    let p = payload(
        vec![host(
            "h1",
            "host1",
            &[],
            vec![container("c1", "cont1", "img1", vec![process(789, "proc2", Some("cmd2"), Some("usr2"))])],
            vec![process(456, "agent", Some("/usr/bin/agent"), Some("root"))],
        )],
        vec![route()],
    );
    let g = build_topology_graph(&p, "agent-1", "acme");
    assert_eq!(g.hosts.len(), 1);
    assert_eq!(g.hosts[0].id, "h1");
    assert_eq!(g.hosts[0].raw_id, "h1");
    assert_eq!(g.containers[0].id, "c1");
    assert_eq!(g.processes.len(), 2);
    assert_eq!(g.processes[0].id, "h1-proc-456");
    assert_eq!(g.processes[1].id, "c1-proc-789");
    assert_eq!(g.host_processes[0].from, "h1");
    assert_eq!(g.host_processes[0].to, "h1-proc-456");
    assert_eq!(g.host_containers[0].to, "c1");
    assert_eq!(g.container_processes[0].from, "c1");
    assert_eq!(g.container_processes[0].to, "c1-proc-789");
    assert_eq!(g.routes[0].raw_id, "ingress:Ingress:web:Service:api:tcp:8443");
    assert_eq!(g.routes[0].id, "ingress:Ingress:web:Service:api:tcp:8443");
    assert_eq!(g.endpoints.len(), 2);
    assert_eq!(g.endpoints[0].raw_id, "Ingress:prod:web");
    assert_eq!(g.endpoints[1].raw_id, "Service::api");
    assert_eq!(g.route_sources[0].to, "Ingress:prod:web");
    assert_eq!(g.route_targets[0].to, "Service::api");
    for node in &g.processes {
        assert_eq!(node.agent_id, "agent-1");
        assert_eq!(node.company_id, "acme");
    }
    for rel in g.host_processes.iter().chain(&g.container_processes).chain(&g.route_sources) {
        assert_eq!(rel.agent_id, "agent-1");
        assert_eq!(rel.company_id, "acme");
    }
}

#[test]
fn host_process_relation_row_carries_raw_process_id() {
    let p = payload(
        vec![host("h1", "host1", &[], vec![], vec![process(456, "agent", Some("/usr/bin/agent"), Some("root"))])],
        vec![],
    );
    let stmts = cypher_statements(build_topology_graph(&p, "a", "c"));
    assert!(stmts.iter().any(|s| s.statement.contains("MERGE (p:Process")));
    let link = stmts.into_iter().find(|s| s.statement.contains("RUNS_PROCESS")).unwrap();
    match link.rows {
        StatementRows::Relations { from_key, to_key, rows } => {
            let props = rows.into_iter().next().unwrap().into_properties(from_key, to_key);
            let names: Vec<&str> = props.iter().map(|p| p.name).collect();
            assert_eq!(names, vec!["hostId", "processId", "companyId", "agentId"]);
            assert!(matches!(&props[0].value, PropertyValue::Text(t) if t == "h1"));
            assert!(matches!(&props[1].value, PropertyValue::Text(t) if t == "h1-proc-456"));
            assert!(matches!(&props[2].value, PropertyValue::Text(t) if t == "c"));
            assert!(matches!(&props[3].value, PropertyValue::Text(t) if t == "a"));
        }
        _ => panic!("expected relation rows"),
    }
}

#[test]
fn route_without_published_port_uses_none() {
    let mut r = route();
    r.published_port = None;
    let g = build_topology_graph(&payload(vec![], vec![r]), "a", "c");
    assert_eq!(g.routes[0].raw_id, "ingress:Ingress:web:Service:api:tcp:none");
}

#[test]
fn statements_keep_only_non_empty_lists_in_order() {
    let p = payload(
        vec![host("h1", "host1", &["10.0.0.1"], vec![], vec![process(456, "agent", None, None)])],
        vec![],
    );
    let stmts = cypher_statements(build_topology_graph(&p, "a", "c"));
    assert_eq!(stmts.len(), 3);
    assert_eq!(stmts[0].statement, HOSTS_CYPHER);
    assert_eq!(stmts[0].parameter, "hosts");
    assert_eq!(stmts[1].statement, PROCESSES_CYPHER);
    assert_eq!(stmts[2].statement, HOST_PROCESSES_CYPHER);
    assert_eq!(stmts[2].parameter, "relations");
    match &stmts[2].rows {
        StatementRows::Relations { from_key, to_key, rows } => {
            assert_eq!(*from_key, "hostId");
            assert_eq!(*to_key, "processId");
            assert_eq!(rows.len(), 1);
            assert_eq!(rows[0].to, "h1-proc-456");
        }
        _ => panic!("expected relation rows"),
    }
    assert!(stmts[0].statement.starts_with("UNWIND $hosts AS host MERGE"));
    assert!(stmts[1].statement.starts_with("UNWIND $processes AS process MERGE"));
}

#[test]
fn thousand_hosts_go_in_one_statement() {
    let hosts = (0..1000)
        .map(|i| host(&format!("h{}", i), &format!("host-{}", i), &["10.0.0.1"], vec![], vec![]))
        .collect();
    let stmts = cypher_statements(build_topology_graph(&payload(hosts, vec![]), "a", "c"));
    assert_eq!(stmts.len(), 1);
    match &stmts[0].rows {
        StatementRows::Hosts(nodes) => {
            assert_eq!(nodes.len(), 1000);
            assert_eq!(nodes[0].raw_id, "h0");
            assert_eq!(nodes[0].id, "h0");
            assert_eq!(nodes[999].id, "h999");
        }
        _ => panic!("expected host rows"),
    }
}

#[test]
fn stream_events_become_row_text() {
    let t = event_row_text(&StreamEvent::Log { source: "kernel".to_string(), message: "boot".to_string() });
    assert_eq!((t.event_type.as_str(), t.source.as_str(), t.message.as_str()), ("Log", "kernel", "boot"));
    let t = event_row_text(&StreamEvent::Metric { name: "cpu_usage".to_string() });
    assert_eq!((t.event_type.as_str(), t.source.as_str(), t.message.as_str()), ("Metric", "cpu_usage", ""));
}

#[test]
fn retried_telemetry_insert_carries_the_same_token() {
    let first = telemetry_insert_token("company-1", "agent-1", "run-42", "3");
    let retry = telemetry_insert_token("company-1", "agent-1", "run-42", "3");
    assert_eq!(first, "topology:company-1:agent-1:run-42:3");
    assert_eq!(first, retry);
    assert_ne!(first, telemetry_insert_token("company-2", "agent-1", "run-42", "3"));
    assert_ne!(first, telemetry_insert_token("company-1", "agent-2", "run-42", "3"));
    assert_ne!(first, telemetry_insert_token("company-1", "agent-1", "run-43", "3"));
    assert_ne!(first, telemetry_insert_token("company-1", "agent-1", "run-42", "4"));
}

#[test]
fn statements_of_a_full_graph_have_the_expected_text() {
    let c = container("c1", "web", "nginx", vec![process(7, "nginx", None, None)]);
    let p = payload(
        vec![host("h1", "host1", &["10.0.0.1"], vec![c], vec![process(456, "agent", None, None)])],
        vec![route()],
    );
    let stmts = cypher_statements(build_topology_graph(&p, "a", "c"));
    let texts: Vec<&str> = stmts.iter().map(|s| s.statement.as_str()).collect();
    assert_eq!(
        texts,
        vec![
            HOSTS_CYPHER,
            CONTAINERS_CYPHER,
            PROCESSES_CYPHER,
            HOST_CONTAINERS_CYPHER,
            HOST_PROCESSES_CYPHER,
            CONTAINER_PROCESSES_CYPHER,
            ROUTES_CYPHER,
            ENDPOINTS_CYPHER,
            ROUTE_SOURCES_CYPHER,
            ROUTE_TARGETS_CYPHER,
        ]
    );
    let params: Vec<&str> = stmts.iter().map(|s| s.parameter.as_str()).collect();
    assert_eq!(
        params,
        vec![
            "hosts", "containers", "processes", "relations", "relations", "relations", "routes",
            "endpoints", "relations", "relations"
        ]
    );
}

#[test]
fn node_properties_carry_the_names_the_statements_read() {
    let c = container("c1", "web", "nginx", vec![]);
    let p = payload(vec![host("h1", "host1", &["10.0.0.1"], vec![c], vec![process(456, "agent", Some("run"), None)])], vec![route()]);
    let g = build_topology_graph(&p, "a", "c");
    let host_props = g.hosts.into_iter().next().unwrap().into_properties();
    let names: Vec<&str> = host_props.iter().map(|p| p.name).collect();
    assert_eq!(names, vec!["id", "rawId", "agentId", "companyId", "hostname", "ipAddresses"]);
    assert!(matches!(&host_props[0].value, PropertyValue::Text(id) if id == "h1"));
    assert!(matches!(&host_props[5].value, PropertyValue::TextList(ips) if ips == &vec!["10.0.0.1".to_string()]));
    let process_props = g.processes.into_iter().next().unwrap().into_properties();
    let names: Vec<&str> = process_props.iter().map(|p| p.name).collect();
    assert_eq!(names, vec!["id", "agentId", "companyId", "name", "commandLine", "user", "pid"]);
    assert!(matches!(&process_props[4].value, PropertyValue::OptionalText(Some(cmd)) if cmd == "run"));
    assert!(matches!(process_props[6].value, PropertyValue::Number(456)));
    for name in &names[1..] {
        assert!(PROCESSES_CYPHER.contains(&format!("p.{} = process.{}", name, name)));
    }
    let container_props = g.containers.into_iter().next().unwrap().into_properties();
    for prop in &container_props[1..] {
        assert!(CONTAINERS_CYPHER.contains(&format!("c.{} = container.{}", prop.name, prop.name)));
    }
    let route_props = g.routes.into_iter().next().unwrap().into_properties();
    assert_eq!(route_props.len(), 18);
    for prop in &route_props[1..] {
        assert!(ROUTES_CYPHER.contains(&format!("r.{} = route.{}", prop.name, prop.name)));
    }
    assert!(matches!(route_props[17].value, PropertyValue::OptionalNumber(Some(8443))));
    let endpoint_props = g.endpoints.into_iter().next().unwrap().into_properties();
    for prop in &endpoint_props[1..] {
        assert!(ENDPOINTS_CYPHER.contains(&format!("e.{} = endpoint.{}", prop.name, prop.name)));
    }
}
