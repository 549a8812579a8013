//! Bundles of rules.
use std::collections::BTreeMap;
use std::io::Read;
use stackable_opa_operator::bundle_builder::{
    build_bundle, finished_bundle, get_bundle, get_status, needs_rebuild, BundleError, WatchEvent,
};
use stackable_opa_operator::bundle_helper;
use stackable_opa_operator::bundle_helper::{
    step_failed, update_bundle, watched_namespace, UpdateStep,
};
use stackable_opa_operator::kubernetes::meta::ObjectMeta;
use stackable_opa_operator::kubernetes::resources::ConfigMap;
use stackable_opa_operator::text_map::StringMap;

fn config_map(name: Option<&str>, data: Option<&[(&str, &str)]>) -> ConfigMap {
    ConfigMap {
        metadata: ObjectMeta {
            name: name.map(|name| name.to_owned()),
            namespace: Some("default".to_owned()),
            uid: None,
            resource_version: Some("1".to_owned()),
            labels: None,
            annotations: None,
            owner_references: None,
        },
        data: data.map(|entries| {
            let mut map = StringMap::new();
            for (key, value) in entries {
                map.insert(key.to_string(), value.to_string());
            }
            map
        }),
    }
}

fn rules() -> Vec<(String, String)> {
    vec![("stackable/opa/v1.rego".to_owned(), "package stackable".to_owned())]
}

/// The files of a bundle: path, permissions and contents.
fn unpack(bundle: &[u8]) -> Vec<(String, u32, String)> {
    let mut archive = tar::Archive::new(flate2::read::GzDecoder::new(bundle));
    let mut files = vec![];
    for entry in archive.entries().expect("the bundle is a tar archive") {
        let mut entry = entry.expect("the archive is complete");
        let path = entry.path().unwrap().display().to_string();
        let mode = entry.header().mode().unwrap();
        let mut contents = String::new();
        entry.read_to_string(&mut contents).unwrap();
        files.push((path, mode, contents));
    }
    files
}

#[test]
fn a_bundle_holds_static_rules_and_the_files_of_config_maps() {
    let config_maps = vec![
        config_map(Some("first"), Some(&[("b.rego", "package b"), ("a.rego", "package a")])),
        config_map(Some("empty"), None),
        config_map(Some("second"), Some(&[("a.rego", "package \u{e4}")])),
    ];
    let bundle = build_bundle(&rules(), &config_maps).expect("the bundle builds");
    let file = |path: &str, contents: &str| (path.to_owned(), 0o644, contents.to_owned());
    assert_eq!(
        unpack(&bundle),
        vec![
            file("stackable/opa/v1.rego", "package stackable"),
            file("configmap/first/default/a.rego", "package a"),
            file("configmap/first/default/b.rego", "package b"),
            file("configmap/second/default/a.rego", "package \u{e4}"),
        ]
    );
}

#[test]
fn the_same_files_give_the_same_bundle() {
    let config_maps = vec![config_map(Some("first"), Some(&[("a.rego", "package a")]))];
    assert_eq!(
        build_bundle(&rules(), &config_maps).unwrap(),
        build_bundle(&rules(), &config_maps).unwrap()
    );
}

#[test]
fn long_paths_are_kept() {
    let name = "n".repeat(200);
    let bundle =
        build_bundle(&vec![], &vec![config_map(Some(&name), Some(&[("a.rego", "x")]))]).unwrap();
    assert_eq!(unpack(&bundle)[0].0, format!("configmap/{name}/default/a.rego"));
}

#[test]
fn config_maps_need_their_metadata() {
    let missing = |change: fn(&mut ObjectMeta)| {
        let mut config_map = config_map(Some("first"), Some(&[("a.rego", "package a")]));
        change(&mut config_map.metadata);
        matches!(
            build_bundle(&rules(), &vec![config_map]),
            Err(BundleError::ConfigMapMetadataMissing)
        )
    };
    assert!(missing(|meta| meta.name = None));
    assert!(missing(|meta| meta.namespace = None));
    assert!(missing(|meta| meta.resource_version = None));
    assert!(!missing(|_| {}));
}

#[test]
fn files_with_impossible_paths_are_reported() {
    match build_bundle(&vec![("../escape.rego".to_owned(), "x".to_owned())], &vec![]) {
        Err(BundleError::AddStaticRuleToTarball { file_path, .. }) => {
            assert_eq!(file_path, "../escape.rego")
        }
        _ => panic!("the path leads out of the archive"),
    }
    match build_bundle(&rules(), &vec![config_map(Some("cm"), Some(&[("..", "x")]))]) {
        Err(BundleError::AddFileToTarball { config_map, file_name, .. }) => {
            assert_eq!(config_map.name, "cm");
            assert_eq!(config_map.namespace, "default");
            assert_eq!(file_name, "..");
        }
        _ => panic!("the path leads out of the directory"),
    }
}

#[test]
fn an_archive_that_cannot_be_completed_is_reported() {
    let failed = std::io::Error::new(std::io::ErrorKind::Other, "disk full");
    assert!(matches!(finished_bundle(Err(failed)), Err(BundleError::BuildTarball { .. })));
    assert_eq!(finished_bundle(Ok(vec![1, 2])).unwrap(), [1, 2]);
}

#[test]
fn bundles_are_served_or_an_error_is() {
    let bundle: Vec<u8> = vec![1, 2, 3];
    let served = get_bundle(Ok(&bundle));
    assert_eq!(served.status, 200);
    assert_eq!(served.content_type.as_deref(), Some("application/gzip"));
    assert_eq!(served.body, bundle);
    assert_eq!(get_status(Ok(&bundle)).body, b"ready");
    assert_eq!(get_status(Ok(&bundle)).status, 200);

    let error = BundleError::ConfigMapMetadataMissing;
    for response in [get_bundle(Err(&error)), get_status(Err(&error)), error.to_http_response()] {
        assert_eq!(response.status, 500);
        assert_eq!(
            response.body,
            b"failed to build bundle, see opa-bundle-builder logs for more details"
        );
    }
}

#[test]
fn a_bundle_is_rebuilt_when_what_it_is_made_of_changed() {
    assert!(needs_rebuild(WatchEvent::Apply));
    assert!(needs_rebuild(WatchEvent::Delete));
    assert!(needs_rebuild(WatchEvent::InitDone));
    assert!(!needs_rebuild(WatchEvent::Init));
    assert!(!needs_rebuild(WatchEvent::InitApply));
    assert!(!needs_rebuild(WatchEvent::Failed));
}

/// Performs the steps on directories that are kept in memory.
fn perform(steps: Vec<UpdateStep>) -> BTreeMap<String, String> {
    let mut incoming: BTreeMap<String, BTreeMap<String, String>> = BTreeMap::new();
    let mut active = BTreeMap::new();
    for step in steps {
        match step {
            UpdateStep::CreateDirectory { bundle } => {
                incoming.insert(bundle, BTreeMap::new());
            }
            UpdateStep::WriteFile { bundle, file, contents } => {
                incoming.get_mut(&bundle).expect("the directory exists").insert(file, contents);
            }
            UpdateStep::Activate { bundle } => {
                for (file, contents) in incoming.remove(&bundle).expect("the directory exists") {
                    active.insert(format!("{bundle}/{file}"), contents);
                }
            }
        }
    }
    active
}

#[test]
fn test_update_bundle() {
    let config_map =
        config_map(Some("test-bundle-helper"), Some(&[("roles.rego", "allow user true")]));

    let active = perform(update_bundle(&config_map).unwrap());

    assert_eq!(
        Some(&String::from("allow user true")),
        active.get("test-bundle-helper/roles.rego")
    );
}

#[test]
fn bundles_without_a_name_or_rules_are_refused() {
    assert_eq!(
        update_bundle(&config_map(None, Some(&[]))),
        Err(bundle_helper::Error::OpaBundleHasNoName)
    );
    assert_eq!(
        update_bundle(&config_map(Some("empty"), None)),
        Err(bundle_helper::Error::EmptyConfigMap { name: "empty".to_owned() })
    );
    assert_eq!(
        step_failed("disk full".to_owned()),
        bundle_helper::Error::OpaBundleDir { source: "disk full".to_owned() }
    );
}

#[test]
fn a_single_namespace_is_watched() {
    assert_eq!(watched_namespace(Some("default".to_owned())), Ok("default".to_owned()));
    assert_eq!(watched_namespace(None), Err(bundle_helper::Error::MissingWatchNamespace));
}
