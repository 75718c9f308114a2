use console_backend::containers::{
    container_from_record, container_listing, containers_from_lines, list_docker_containers, parse_container_line,
    DockerContainer,
};
use console_backend::endpoints::{register_endpoint, remove_endpoint, Endpoint, EndpointInput};

fn endpoint(id: &str, name: &str) -> Endpoint {
    Endpoint {
        id: id.to_string(),
        name: name.to_string(),
        base_url: "http://localhost:8080".to_string(),
        health_path: "/health".to_string(),
        method: None,
        timeout_ms: None,
    }
}

#[test]
fn registering_appends_with_an_id_from_the_time() {
    let mut endpoints = vec![endpoint("ep-1", "first")];
    let input = EndpointInput {
        name: "api".to_string(),
        base_url: "https://api.example.org".to_string(),
        health_path: "/healthz".to_string(),
        method: Some("HEAD".to_string()),
        timeout_ms: Some(2500),
    };
    register_endpoint(&mut endpoints, input, 1700000000123);
    assert_eq!(endpoints.len(), 2);
    assert_eq!(endpoints[0], endpoint("ep-1", "first"));
    assert_eq!(
        endpoints[1],
        Endpoint {
            id: "ep-1700000000123".to_string(),
            name: "api".to_string(),
            base_url: "https://api.example.org".to_string(),
            health_path: "/healthz".to_string(),
            method: Some("HEAD".to_string()),
            timeout_ms: Some(2500),
        }
    );
}

#[test]
fn removing_takes_out_every_endpoint_with_the_id() {
    let endpoints = vec![endpoint("a", "1"), endpoint("b", "2"), endpoint("a", "3"), endpoint("c", "4")];
    assert_eq!(remove_endpoint(endpoints.clone(), "a"), vec![endpoint("b", "2"), endpoint("c", "4")]);
    assert_eq!(remove_endpoint(endpoints.clone(), "zzz"), endpoints);
    assert_eq!(remove_endpoint(Vec::new(), "a"), Vec::new());
    assert_eq!(remove_endpoint(vec![endpoint("a", "1")], "a"), Vec::new());
}

const RECORD: &str = r#"{"ID":"4f2b","Names":"web","Image":"nginx:1.25","Status":"Up 2 hours","State":"running","Ports":"0.0.0.0:80->80/tcp","Labels":""}"#;

fn web() -> DockerContainer {
    DockerContainer {
        id: "4f2b".to_string(),
        name: "web".to_string(),
        image: "nginx:1.25".to_string(),
        status: "Up 2 hours".to_string(),
        state: "running".to_string(),
        ports: "0.0.0.0:80->80/tcp".to_string(),
    }
}

#[test]
fn listing_skips_a_malformed_line() {
    let lines = vec![RECORD.to_string(), "{not json".to_string()];
    assert_eq!(containers_from_lines(&lines), vec![web()]);
    let stdout = format!("{}\n{{not json\n", RECORD);
    assert_eq!(list_docker_containers(&stdout), vec![web()]);
    let stdout = format!("{{\"ID\": 1}}\n{}", RECORD);
    assert_eq!(list_docker_containers(&stdout), vec![web()]);
}

#[test]
fn listing_skips_blank_lines_and_keeps_the_order() {
    let second = RECORD.replace("4f2b", "9c1d").replace("web", "db");
    let lines = vec!["".to_string(), second.clone(), "   ".to_string(), RECORD.to_string()];
    let listed = containers_from_lines(&lines);
    assert_eq!(listed.len(), 2);
    assert_eq!(listed[0].id, "9c1d");
    assert_eq!(listed[0].name, "db");
    assert_eq!(listed[1], web());
    assert_eq!(containers_from_lines(&Vec::new()), Vec::new());
    assert_eq!(list_docker_containers(""), Vec::new());
    let stdout = format!("\r\n{}\r\n\n  \n{}\r\n", second, RECORD);
    assert_eq!(list_docker_containers(&stdout), listed);
}

#[test]
fn a_record_needs_all_six_texts() {
    assert_eq!(parse_container_line(RECORD), Some(web()));
    assert_eq!(parse_container_line(&RECORD.replace("\"Ports\"", "\"ports\"")), None);
    assert_eq!(parse_container_line(&RECORD.replace("\"4f2b\"", "17")), None);
    assert_eq!(parse_container_line("[1, 2]"), None);
    assert_eq!(parse_container_line("\"ID\""), None);
    assert_eq!(parse_container_line(" \t"), None);
    let value: serde_json::Value = serde_json::from_str(RECORD).unwrap();
    assert_eq!(container_from_record(&value), Some(web()));
}

#[test]
fn listing_of_a_failed_tool_is_an_error_with_its_output() {
    assert_eq!(
        container_listing(false, RECORD, "Cannot connect to the Docker daemon\n"),
        Err("Docker returned an error: Cannot connect to the Docker daemon\n".to_string())
    );
    assert_eq!(container_listing(false, "", ""), Err("Docker returned an error: ".to_string()));
}

#[test]
fn listing_of_a_successful_tool_is_what_its_output_lists() {
    let stdout = format!("{}\n{{not json\n", RECORD);
    assert_eq!(container_listing(true, &stdout, "warning"), Ok(vec![web()]));
    assert_eq!(container_listing(true, "\n   \n", ""), Ok(Vec::new()));
}
