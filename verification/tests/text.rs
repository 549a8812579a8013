//! Texts and the maps that are keyed by them.
use stackable_opa_operator::kubernetes::builder::{
    add_volume, add_volume_mount, add_volume_mounts, add_volumes, CollisionError,
};
use stackable_opa_operator::kubernetes::parts::{empty_volume, mount, secret_volume};
use stackable_opa_operator::labels::{role_group_selector, role_selector};
use stackable_opa_operator::text::{is_before, join, number, trim};
use stackable_opa_operator::text_map::{StringMap, TextMap};
use stackable_opa_operator::value::Value;

#[test]
fn numbers_are_written_in_decimal_notation() {
    for n in [0, 7, 9, 10, 99, 100, 8181, u64::MAX] {
        assert_eq!(number(n), n.to_string());
    }
}

#[test]
fn texts_are_ordered_like_the_standard_library_does() {
    let texts = ["", "a", "aa", "ab", "b", "B", "\u{e4}", "z", "\u{1f600}"];
    for a in texts {
        for b in texts {
            assert_eq!(is_before(a, b), a < b, "{} and {}", a, b);
        }
    }
}

#[test]
fn texts_are_joined_and_trimmed() {
    assert_eq!(join(&vec![], ", "), "");
    assert_eq!(join(&vec!["a".to_owned()], ", "), "a");
    assert_eq!(join(&vec!["a".to_owned(), "".to_owned(), "b".to_owned()], ", "), "a, , b");
    for text in ["", " ", "\t\n", " a b\n", "a", "\u{a0}x\u{2003}", "\u{b}\u{c}\ry\u{85}"] {
        assert_eq!(trim(text), text.trim());
    }
}

#[test]
fn maps_keep_their_entries_in_key_order() {
    let mut map: TextMap<u16> = TextMap::new();
    for (key, value) in [("c", 1), ("a", 2), ("b", 3), ("a", 4)] {
        map.insert(key.to_owned(), value);
    }
    assert_eq!(
        map.entries(),
        &vec![("a".to_owned(), 4), ("b".to_owned(), 3), ("c".to_owned(), 1)]
    );
    assert_eq!(map.get("a"), Some(&4));
    assert_eq!(map.get("d"), None);
    assert!(map.contains_key("c"));
    assert!(!map.contains_key(""));
}

#[test]
fn copies_are_the_same() {
    let mut map = StringMap::new();
    map.insert("a".to_owned(), "1".to_owned());
    let copy = map.duplicate();
    assert!(copy.same_as(&map));
    map.insert("b".to_owned(), "2".to_owned());
    assert!(!copy.same_as(&map));
    assert!(Some(vec!["x".to_owned()]).same_as(&Some(vec!["x".to_owned()])));
    assert!(!Some(vec!["x".to_owned()]).same_as(&None));
}

#[test]
fn selectors_name_what_they_select() {
    let role = role_selector("opa", "simple", "server");
    assert_eq!(
        role.entries(),
        &vec![
            ("app.kubernetes.io/component".to_owned(), "server".to_owned()),
            ("app.kubernetes.io/instance".to_owned(), "simple".to_owned()),
            ("app.kubernetes.io/name".to_owned(), "opa".to_owned()),
        ]
    );
    let group = role_group_selector("opa", "simple", "server", "default");
    assert_eq!(
        group.get("app.kubernetes.io/role-group").map(String::as_str),
        Some("default")
    );
    for (key, value) in role.entries() {
        assert_eq!(group.get(key), Some(value));
    }
}

#[test]
fn volumes_collide_only_where_they_differ() {
    let mut volumes = vec![];
    assert_eq!(add_volume(&mut volumes, empty_volume("bundles", None)), Ok(()));
    assert_eq!(add_volume(&mut volumes, empty_volume("bundles", None)), Ok(()));
    assert_eq!(volumes.len(), 1);
    assert!(matches!(
        add_volume(&mut volumes, secret_volume("bundles", "other")),
        Err(CollisionError::VolumeName(name)) if name == "bundles"
    ));
    assert_eq!(add_volumes(&mut volumes, &vec![secret_volume("credentials", "s")]), Ok(()));
    assert_eq!(volumes.len(), 2);

    let mut mounts = vec![];
    assert_eq!(add_volume_mount(&mut mounts, mount("bundles", "/bundles")), Ok(()));
    assert_eq!(add_volume_mount(&mut mounts, mount("bundles", "/bundles")), Ok(()));
    assert_eq!(mounts.len(), 1);
    assert!(matches!(
        add_volume_mounts(&mut mounts, &vec![mount("other", "/bundles")]),
        Err(CollisionError::MountPath(path)) if path == "/bundles"
    ));
    assert_eq!(add_volume_mounts(&mut mounts, &vec![mount("bundles", "/elsewhere")]), Ok(()));
    assert_eq!(mounts.len(), 2);
}
