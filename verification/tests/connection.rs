//! How other operators connect to OPA.
use stackable_opa_operator::text_map::{StringMap, TextMap};
use stackable_opa_operator::v1::connection::{
    check_opa_reference, clean_url, connection_string_for, find_candidates, get_match_labels,
    get_opa_connection_info, get_opa_connection_string_from_pods, get_opa_port,
    param_map_to_string, Candidates, Error, OpaApi, OpaApiProtocol, OpaPod, OpaReference,
    TicketReferences,
};
use stackable_opa_operator::v1::crd::{
    CommonConfiguration, OpaConfig, OpaRole, OpaSpec, OpaStatus, OpaVersion, Role, RoleGroup,
};

fn text_map(entries: &[(&str, &str)]) -> StringMap {
    let mut map = StringMap::new();
    for (key, value) in entries {
        map.insert(key.to_string(), value.to_string());
    }
    map
}

fn opa_spec(port: Option<u16>) -> OpaSpec {
    let mut role_groups: TextMap<RoleGroup> = TextMap::new();
    role_groups.insert(
        "default".to_owned(),
        RoleGroup {
            config: Some(CommonConfiguration {
                config: Some(OpaConfig {
                    port,
                    repo_rule_reference: "http://debian:3030/opa/v1".to_owned(),
                }),
            }),
            replicas: Some(1),
            selector: None,
        },
    );
    OpaSpec { version: OpaVersion::v0_27_1, servers: Role { config: None, role_groups } }
}

fn pod(node_name: &str) -> OpaPod {
    OpaPod {
        name: "test".to_owned(),
        node_name: Some(node_name.to_owned()),
        labels: text_map(&[
            ("app.kubernetes.io/name", "opa"),
            ("app.kubernetes.io/role-group", "default"),
            ("app.kubernetes.io/instance", "test"),
        ]),
    }
}

fn data(package_path: &str) -> OpaApi {
    OpaApi::Data { package_path: package_path.to_owned(), rule: "allow".to_owned() }
}

#[test]
fn test_clean_url() {
    assert_eq!(clean_url("//a/b//c".to_string()), "/a/b/c".to_string());
    assert_eq!(clean_url("//a/b//c"), "/a/b/c".to_string());
    assert_eq!(clean_url("https:///a/b//c"), "https:///a/b/c".to_string());
    assert_eq!(clean_url("https:////a/b//c"), "https:///a/b/c".to_string());
    assert_eq!(clean_url(""), "".to_string());
    assert_eq!(clean_url("//"), "/".to_string());
    assert_eq!(clean_url("https://"), "https://".to_string());
}

#[test]
fn cleaning_a_url_twice_changes_nothing() {
    for url in ["a//b", "http://h//a//b/", "a:///b://c", "://", "////"] {
        let once = clean_url(url);
        assert_eq!(clean_url(once.as_str()), once);
    }
    assert_eq!(clean_url("a:///b://c"), "a:///b:/c");
}

#[test]
fn get_connection_string_single_pod_default_port() {
    let url = get_opa_connection_string_from_pods(
        &opa_spec(None),
        &vec![pod("debian")],
        &data("/some_package//some_sub_package"),
        &OpaApiProtocol::Http,
        &None,
    )
    .expect("should not fail");
    assert_eq!(url, "http://debian:8181/v1/data/some_package/some_sub_package/allow");
}

#[test]
fn get_connection_string_single_pod_configured_port() {
    let url = get_opa_connection_string_from_pods(
        &opa_spec(Some(12345)),
        &vec![pod("debian")],
        &data("some_package/some_sub_package"),
        &OpaApiProtocol::Http,
        &None,
    )
    .expect("should not fail");
    assert_eq!(url, "http://debian:12345/v1/data/some_package/some_sub_package/allow");
}

#[test]
fn get_connection_string_multiple_pods_configured_port_desired_node_name() {
    let url = get_opa_connection_string_from_pods(
        &opa_spec(Some(12345)),
        &vec![pod("cebian"), pod("debian"), pod("eebian")],
        &data("some_package/some_sub_package"),
        &OpaApiProtocol::Http,
        &Some("debian".to_string()),
    )
    .expect("should not fail");
    assert_eq!(url, "http://debian:12345/v1/data/some_package/some_sub_package/allow");
}

#[test]
fn get_connection_string_multiple_pods_no_desired_node_name_secure() {
    for _ in 0..20 {
        let url = get_opa_connection_string_from_pods(
            &opa_spec(None),
            &vec![pod("cebian"), pod("debian"), pod("eebian")],
            &data("some_package/some_sub_package"),
            &OpaApiProtocol::Https,
            &None,
        )
        .expect("should not fail");
        for part in ["https://", "ebian:8181/v1/data/some_package/some_sub_package/allow"] {
            assert!(url.contains(part));
        }
    }
}

#[test]
fn a_pod_without_a_role_group_label_is_an_error() {
    let mut unlabelled = pod("debian");
    unlabelled.labels =
        text_map(&[("app.kubernetes.io/name", "opa"), ("app.kubernetes.io/instance", "test")]);
    let error = get_opa_connection_string_from_pods(
        &opa_spec(None),
        &vec![unlabelled],
        &data("some_package/some_sub_package"),
        &OpaApiProtocol::Http,
        &None,
    )
    .unwrap_err();
    match error {
        Error::PodMissingLabels { pod, labels } => {
            assert_eq!(pod, "test");
            assert_eq!(labels, vec!["app.kubernetes.io/role-group".to_owned()]);
        }
        other => panic!("unexpected error {:?}", other),
    }
}

#[test]
fn a_pod_without_a_node_is_an_error() {
    let mut unscheduled = pod("debian");
    unscheduled.node_name = None;
    let error = get_opa_connection_string_from_pods(
        &opa_spec(None),
        &vec![unscheduled],
        &data("some_package/some_sub_package"),
        &OpaApiProtocol::Http,
        &None,
    )
    .unwrap_err();
    assert!(matches!(error, Error::PodWithoutHostname { pod } if pod == "test"));
}

#[test]
fn a_pod_on_the_desired_node_is_taken_before_later_pods_are_looked_at() {
    let mut unscheduled = pod("eebian");
    unscheduled.node_name = None;
    let url = get_opa_connection_string_from_pods(
        &opa_spec(None),
        &vec![pod("debian"), unscheduled],
        &data("a"),
        &OpaApiProtocol::Http,
        &Some("debian".to_owned()),
    )
    .expect("the Pod on the desired node comes first");
    assert_eq!(url, "http://debian:8181/v1/data/a/allow");
}

#[test]
fn without_pods_there_is_no_server() {
    let error = get_opa_connection_string_from_pods(
        &opa_spec(None),
        &vec![],
        &data("a"),
        &OpaApiProtocol::Http,
        &None,
    )
    .unwrap_err();
    assert!(matches!(error, Error::OpaServerMissing));
    assert!(matches!(
        connection_string_for(None, &data("a"), &OpaApiProtocol::Http),
        Err(Error::OpaServerMissing)
    ));
}

#[test]
fn candidates_are_in_order_of_their_hosts() {
    let pods = vec![pod("eebian"), pod("cebian"), pod("debian"), pod("cebian")];
    match find_candidates(&opa_spec(Some(1)), &pods, &Some("nowhere".to_owned())) {
        Ok(Candidates::Servers(servers)) => {
            let hosts: Vec<&str> = servers.iter().map(|server| server.0.as_str()).collect();
            assert_eq!(hosts, ["cebian", "cebian", "debian", "eebian"]);
            assert!(servers.iter().all(|server| server.1 == 1));
        }
        _ => panic!("no Pod is on the desired node"),
    }
}

#[test]
fn test_get_opa_port() {
    assert_eq!(get_opa_port(&opa_spec(None), "default"), 8181);
    assert_eq!(get_opa_port(&opa_spec(Some(12345)), "default"), 12345);
    assert_eq!(get_opa_port(&opa_spec(Some(12345)), "other"), 8181);
}

#[test]
fn urls_of_all_endpoints() {
    let url = |api: OpaApi| api.get_url(&OpaApiProtocol::Http, "node", 8181).unwrap();
    assert_eq!(
        url(OpaApi::Policy { id: "/my-policy".to_owned() }),
        "http://node:8181/v1/policies/my-policy"
    );
    assert_eq!(
        url(OpaApi::Data { package_path: "/kafka/authz".to_owned(), rule: "/allow".to_owned() }),
        "http://node:8181/v1/data/kafka/authz/allow"
    );
    assert_eq!(url(OpaApi::Compile), "http://node:8181/v1/compile");
    let query = OpaApi::Query { params: text_map(&[("input.user", "alice"), ("input.op", "read")]) };
    assert_eq!(
        query.get_clean_url(&OpaApiProtocol::Https, "node", 1),
        "https://node:1/v1/query?q=input.op=read;input.user=alice"
    );
    assert_eq!(url(query), "http://node:8181/v1/query?q=input.op=read;input.user=alice");
}

#[test]
fn outer_slashes_do_not_matter() {
    let url = |package_path: &str, rule: &str| {
        OpaApi::Data { package_path: package_path.to_owned(), rule: rule.to_owned() }
            .get_clean_url(&OpaApiProtocol::Https, "node", 8181)
    };
    let plain = url("kafka/authz", "allow");
    assert_eq!(plain, "https://node:8181/v1/data/kafka/authz/allow");
    assert_eq!(url("/kafka/authz", "allow"), plain);
    assert_eq!(url("kafka/authz/", "allow"), plain);
    assert_eq!(url("kafka/authz", "/allow"), plain);
    assert_ne!(url("kafka/authz", "allow/"), plain);
}

#[test]
fn urls_are_normalised_and_rejected_by_the_parser() {
    // The host is lower-cased, and a space is escaped.
    assert_eq!(
        data("a b").get_url(&OpaApiProtocol::Http, "Node", 8181).unwrap(),
        "http://node:8181/v1/data/a%20b/allow"
    );
    let error = data("a").get_url(&OpaApiProtocol::Http, "no host", 8181).unwrap_err();
    assert!(matches!(error, Error::UrlError { .. }));
}

#[test]
fn parameters_are_joined_by_semicolons() {
    assert_eq!(param_map_to_string(&text_map(&[])), "");
    assert_eq!(param_map_to_string(&text_map(&[("a", "1")])), "a=1");
    assert_eq!(param_map_to_string(&text_map(&[("b", "2"), ("a", "1")])), "a=1;b=2");
}

#[test]
fn pods_are_selected_by_their_labels() {
    assert_eq!(
        get_match_labels("simple").match_labels,
        Some(text_map(&[
            ("app.kubernetes.io/name", "opa"),
            ("app.kubernetes.io/managed-by", "stackable-opa"),
            ("app.kubernetes.io/instance", "simple"),
        ]))
    );
}

#[test]
fn connection_info_needs_the_cluster_and_its_pods() {
    let reference = OpaReference { namespace: "default".to_owned(), name: "simple".to_owned() };
    let spec = opa_spec(None);
    let pods = vec![pod("debian")];
    let info = get_opa_connection_info(
        Ok(&spec),
        Ok(&pods),
        &data("a"),
        &OpaApiProtocol::Http,
        &None,
    )
    .unwrap();
    assert_eq!(info.connection_string, "http://debian:8181/v1/data/a/allow");

    let missing = format!("{}/{} not found", reference.namespace, reference.name);
    let error = get_opa_connection_info(
        Err(missing.clone()),
        Ok(&pods),
        &data("a"),
        &OpaApiProtocol::Http,
        &None,
    )
    .unwrap_err();
    assert!(matches!(error, Error::OperatorFrameworkError { source } if source == missing));
    let error = get_opa_connection_info(
        Ok(&spec),
        Err("timeout".to_owned()),
        &data("a"),
        &OpaApiProtocol::Http,
        &None,
    )
    .unwrap_err();
    assert!(matches!(error, Error::OperatorFrameworkError { source } if source == "timeout"));
    assert!(check_opa_reference(Ok(&spec)).is_ok());
}

#[test]
fn names_of_protocols_versions_and_roles() {
    assert_eq!(OpaApiProtocol::Http.name(), "http");
    assert_eq!(OpaApiProtocol::from_name("https"), Some(OpaApiProtocol::Https));
    assert_eq!(OpaApiProtocol::from_name("ftp"), None);
    assert_eq!(OpaVersion::v0_27_1.name(), "0.27.1");
    assert_eq!(OpaVersion::from_name("0.27.1"), Some(OpaVersion::v0_27_1));
    assert_eq!(OpaVersion::from_name("0.27.2"), None);
    assert_eq!(OpaRole::Server.name(), "server");
    assert_eq!(OpaRole::from_name("server"), Some(OpaRole::Server));
    assert_eq!(OpaRole::from_name("client"), None);
    assert_eq!(TicketReferences::ErrOpaPodWithoutName.name(), "ErrOpaPodWithoutName");
    assert_eq!(OpaStatus::default(), OpaStatus {});
}

#[test]
fn properties_of_a_server() {
    let config =
        OpaConfig { port: Some(8181), repo_rule_reference: "http://repo/opa/v1".to_owned() };
    assert!(config.compute_env().entries().is_empty());
    assert_eq!(
        config.compute_cli().entries(),
        &vec![("port".to_owned(), Some("8181".to_owned()))]
    );
    assert_eq!(
        config.compute_files("config.yaml").entries(),
        &vec![("repoRuleReference".to_owned(), Some("http://repo/opa/v1".to_owned()))]
    );
    assert!(config.compute_files("other.yaml").entries().is_empty());
}
