use jira_cli::config::detect::{probe_url, Detection, ProbeReply, RequestFailure, ServerInfo};
use jira_cli::config::site::{
    candidate_sites, is_cloud_host, normalize_site, probe_order, Deployment, Detected, Site,
};

#[test]
fn bare_word_is_a_cloud_subdomain() {
    assert_eq!(normalize_site("acme").unwrap().host, "acme.atlassian.net");
    assert_eq!(
        normalize_site("  Acme  ").unwrap().host,
        "acme.atlassian.net"
    );
}

#[test]
fn cloud_links_reduce_to_the_site() {
    for input in [
        "acme.atlassian.net",
        "https://acme.atlassian.net",
        "https://acme.atlassian.net/",
        "https://acme.atlassian.net/browse/ABC-123",
        "https://acme.atlassian.net/jira/software/projects/ABC/boards/1?selectedIssue=ABC-2",
        "acme.atlassian.net/jira/your-work",
    ] {
        assert_eq!(
            normalize_site(input).unwrap().host,
            "acme.atlassian.net",
            "{input}"
        );
    }
}

#[test]
fn data_center_links_keep_the_context_path() {
    let cases = [
        ("jira.corp.example", "jira.corp.example"),
        (
            "https://jira.corp.example/browse/OPS-1",
            "jira.corp.example",
        ),
        (
            "https://issues.example.org/jira/browse/KAFKA-1",
            "issues.example.org/jira",
        ),
        (
            "https://issues.example.org/jira/secure/Dashboard.jspa",
            "issues.example.org/jira",
        ),
        (
            "issues.example.org/tools/jira/projects/ABC/issues",
            "issues.example.org/tools/jira",
        ),
        (
            "https://jira.corp.example:8443/browse/X-1",
            "jira.corp.example:8443",
        ),
        ("https://jira.corp.example:443/", "jira.corp.example"),
        (
            "https://jira.corp.example/jira/software/projects/ABC/boards/1",
            "jira.corp.example/jira",
        ),
    ];
    for (input, expected) in cases {
        assert_eq!(normalize_site(input).unwrap().host, expected, "{input}");
    }
}

#[test]
fn the_address_as_entered_keeps_its_whole_path() {
    let site = normalize_site("https://jira.corp.example/issues/browse/OPS-1?x=1").unwrap();
    assert_eq!(site.host, "jira.corp.example");
    assert_eq!(site.as_entered, "jira.corp.example/issues/browse/OPS-1");
    let cloud = normalize_site("https://acme.atlassian.net/browse/ABC-1").unwrap();
    assert_eq!(cloud.as_entered, "acme.atlassian.net");
}

#[test]
fn cloud_is_always_https() {
    let site = normalize_site("http://acme.atlassian.net/browse/ABC-1").unwrap();
    assert_eq!(site.host, "acme.atlassian.net");
    assert_eq!(site.as_entered, "acme.atlassian.net");
}

#[test]
fn explicit_http_is_kept() {
    assert_eq!(
        normalize_site("http://localhost:8080/jira/browse/X-1")
            .unwrap()
            .host,
        "http://localhost:8080/jira"
    );
    assert_eq!(
        normalize_site("localhost:8080").unwrap().host,
        "localhost:8080"
    );
    assert_eq!(
        normalize_site("http://192.0.2.10:8080").unwrap().host,
        "http://192.0.2.10:8080"
    );
}

#[test]
fn unusable_input_is_rejected_with_a_reason() {
    assert!(normalize_site("   ").is_err());
    assert!(
        normalize_site("ftp://jira.corp.example")
            .unwrap_err()
            .contains("ftp://")
    );
    assert!(normalize_site("https://").is_err());
    assert!(
        normalize_site("acme corp")
            .unwrap_err()
            .contains("contains spaces")
    );
}

#[test]
fn cloud_host_is_recognised_with_or_without_scheme() {
    assert!(is_cloud_host("acme.atlassian.net"));
    assert!(is_cloud_host("https://ACME.atlassian.net/"));
    assert!(!is_cloud_host("jira.corp.example"));
    assert!(!is_cloud_host("atlassian.net.corp.example"));
}

#[test]
fn candidates_run_from_the_full_path_down_to_the_origin() {
    assert_eq!(
        candidate_sites("jira.corp.example/tools/jira"),
        [
            "jira.corp.example/tools/jira",
            "jira.corp.example/tools",
            "jira.corp.example",
        ]
    );
    assert_eq!(
        candidate_sites("http://localhost:8080/jira"),
        ["http://localhost:8080/jira", "http://localhost:8080"]
    );
    assert_eq!(candidate_sites("jira.corp.example"), ["jira.corp.example"]);
}

#[test]
fn probe_order_tries_the_stripped_address_then_shallow_prefixes() {
    let site = normalize_site("https://jira.corp.example/tools/browse/X-1").unwrap();
    assert_eq!(
        probe_order(&site),
        [
            "jira.corp.example/tools",
            "jira.corp.example",
            "jira.corp.example/tools/browse",
            "jira.corp.example/tools/browse/X-1",
        ]
    );
}

#[test]
fn probe_order_is_bounded_and_keeps_shallow_context_paths() {
    let site = normalize_site("https://jira.corp.example/jira/a/b/c/d/e").unwrap();
    assert_eq!(
        probe_order(&site),
        [
            "jira.corp.example/jira/a/b/c/d/e",
            "jira.corp.example",
            "jira.corp.example/jira",
            "jira.corp.example/jira/a",
            "jira.corp.example/jira/a/b",
        ]
    );
}

const SERVER: &str = "http://127.0.0.1:4000";

fn info(kind: &str, version: &str, base_url: Option<&str>) -> ProbeReply {
    ProbeReply::Info(ServerInfo {
        deployment_type: Some(kind.to_string()),
        version: Some(version.to_string()),
        base_url: base_url.map(|b| b.to_string()),
    })
}

/// Asks a server that answers with server information at one route, and with 404 elsewhere.
fn detect(site: &Site, route: &str, reply: impl Fn() -> ProbeReply) -> Result<Detected, String> {
    let answering = format!("{SERVER}{route}");
    let mut detection = Detection::new(site);
    loop {
        let url = probe_url(detection.current());
        let answer = if url == answering {
            reply()
        } else {
            ProbeReply::Refused("404 Not Found".to_string())
        };
        if let Some(result) = detection.answer(&answer) {
            return result;
        }
    }
}

#[test]
fn detects_data_center_from_server_deployment_type() {
    let detected = detect(
        &normalize_site(SERVER).unwrap(),
        "/rest/api/2/serverInfo",
        || info("Server", "10.3.25", None),
    )
    .unwrap();
    assert_eq!(detected.deployment, Deployment::DataCenter);
    assert_eq!(detected.describe(), "Jira Data Center 10.3.25");
    assert_eq!(detected.site, SERVER);
}

#[test]
fn detects_data_center_from_datacenter_deployment_type() {
    let site = format!("{SERVER}/jira");
    let detected = detect(
        &normalize_site(&site).unwrap(),
        "/jira/rest/api/2/serverInfo",
        || info("DataCenter", "9.12.0", None),
    )
    .unwrap();
    assert_eq!(detected.deployment, Deployment::DataCenter);
    assert_eq!(detected.site, site);
}

#[test]
fn cloud_on_a_custom_domain_resolves_to_its_atlassian_net_site() {
    let detected = detect(
        &normalize_site(SERVER).unwrap(),
        "/rest/api/2/serverInfo",
        || {
            info(
                "Cloud",
                "1001.0.0-SNAPSHOT",
                Some("https://acme.atlassian.net"),
            )
        },
    )
    .unwrap();
    assert_eq!(detected.deployment, Deployment::Cloud);
    assert_eq!(detected.describe(), "Jira Cloud");
    assert_eq!(detected.site, "acme.atlassian.net");
}

#[test]
fn trailing_segments_fall_back_to_the_context_path() {
    let detected = detect(
        &normalize_site(&format!("{SERVER}/jira/wiki/x")).unwrap(),
        "/jira/rest/api/2/serverInfo",
        || info("DataCenter", "9.12.0", None),
    )
    .unwrap();
    assert_eq!(detected.site, format!("{SERVER}/jira"));
}

#[test]
fn a_context_path_named_like_a_jira_route_is_found() {
    let entered = format!("{SERVER}/issues/browse/OPS-1");
    let site = normalize_site(&entered).unwrap();
    assert_eq!(site.host, SERVER);
    let detected = detect(&site, "/issues/rest/api/2/serverInfo", || {
        info("DataCenter", "9.12.0", None)
    })
    .unwrap();
    assert_eq!(detected.site, format!("{SERVER}/issues"));
}

#[test]
fn a_deep_board_link_finds_the_context_path() {
    let entered = format!("{SERVER}/jira/software/projects/ABC/boards/1");
    let detected = detect(
        &normalize_site(&entered).unwrap(),
        "/jira/rest/api/2/serverInfo",
        || info("DataCenter", "9.12.0", None),
    )
    .unwrap();
    assert_eq!(detected.site, format!("{SERVER}/jira"));
}

#[test]
fn a_path_that_is_not_a_context_path_falls_back_to_the_origin() {
    let detected = detect(
        &normalize_site(&format!("{SERVER}/wiki")).unwrap(),
        "/rest/api/2/serverInfo",
        || info("DataCenter", "9.12.0", None),
    )
    .unwrap();
    assert_eq!(detected.site, SERVER);
}

#[test]
fn a_site_that_is_not_jira_is_an_error() {
    let error = detect(&normalize_site(SERVER).unwrap(), "/nowhere", || {
        ProbeReply::NotJson
    })
    .unwrap_err();
    assert!(error.contains("HTTP 404"), "{error}");
}

#[test]
fn a_login_page_instead_of_json_is_an_error() {
    let error = detect(
        &normalize_site(SERVER).unwrap(),
        "/rest/api/2/serverInfo",
        || ProbeReply::NotJson,
    )
    .unwrap_err();
    assert!(error.contains("single sign-on"), "{error}");
}

#[test]
fn an_unreachable_site_is_an_error() {
    let error = detect(
        &normalize_site(SERVER).unwrap(),
        "/rest/api/2/serverInfo",
        || ProbeReply::Failed(RequestFailure::Connect),
    )
    .unwrap_err();
    assert!(error.contains("could not connect"), "{error}");
}

#[test]
fn a_host_that_does_not_answer_ends_the_search() {
    let site = normalize_site("https://jira.corp.example/tools/browse/X-1").unwrap();
    let mut detection = Detection::new(&site);
    let error = detection
        .answer(&ProbeReply::Failed(RequestFailure::Timeout))
        .unwrap()
        .unwrap_err();
    assert_eq!(error, "jira.corp.example/tools did not respond in time");
}

#[test]
fn other_failures_give_every_cause() {
    let site = normalize_site("jira.corp.example").unwrap();
    let mut detection = Detection::new(&site);
    let causes = vec!["request failed".to_string(), "tls".to_string()];
    let error = detection
        .answer(&ProbeReply::Failed(RequestFailure::Other(causes)))
        .unwrap()
        .unwrap_err();
    assert_eq!(error, "could not reach jira.corp.example: request failed: tls");
}
