//! Builds the bundle of rules that OPA polls.
use crate::kubernetes::resources::{ConfigMap, ConfigMapView};
use crate::text_map::{lemma_listed, listing};
use flate2::write::GzEncoder;
use vstd::prelude::*;
use vstd::utf8::encode_utf8;

verus! {

/// The name of the application.
pub const APP_NAME: &'static str = "opa-bundle-builder";

/// The environment variable that sets the level of the console log.
pub const ENV_VAR_CONSOLE_LOG: &'static str = "OPA_BUNDLE_BUILDER_LOG";

/// The label that ConfigMaps with rules carry.
pub const BUNDLE_LABEL: &'static str = "opa.stackable.tech/bundle";

/// The path at which the bundle is served.
pub const BUNDLE_PATH: &'static str = "/opa/v1/opa/bundle.tar.gz";

/// The path at which the status is served.
pub const STATUS_PATH: &'static str = "/status";

/// The permissions of the files in a bundle: everyone may read them, and their owner may write them.
pub const FILE_MODE: u32 = 0o644;

/// An error of reading or writing. Nothing is known of what is inside.
#[verifier::external_type_specification]
#[verifier::external_body]
pub struct ExIoError(std::io::Error);

/// A tar archive that is written by `tar::Builder`, and compressed by `flate2::write::GzEncoder` at
/// the same time. The compressed bytes are kept in memory.
#[verifier::external_body]
pub struct Archive {
    builder: tar::Builder<GzEncoder<Vec<u8>>>,
}

/// The files of an archive, in the order in which they were appended: path, permissions and
/// contents.
pub uninterp spec fn archived(archive: Archive) -> Seq<(Seq<char>, u32, Seq<u8>)>;

/// Whether `tar::Builder::append_data` accepts a path, as Unix reads paths. It is a matter of the
/// path alone, because what is written goes to memory.
pub uninterp spec fn archivable(path: Seq<char>) -> bool;

/// The bytes of a complete archive with these files, compressed with gzip at the default level, as
/// `tar::Builder` and `flate2::write::GzEncoder` write them, where they succeed. No time and no owner
/// go into them.
pub uninterp spec fn tarball(files: Seq<(Seq<char>, u32, Seq<u8>)>) -> Option<Seq<u8>>;

impl Archive {
    /// An archive without files: `tar::Builder::new` on top of `flate2::write::GzEncoder::new`.
    #[verifier::external_body]
    fn new() -> (archive: Archive)
        ensures
            archived(archive) == Seq::<(Seq<char>, u32, Seq<u8>)>::empty(),
    {
        let encoder = GzEncoder::new(Vec::new(), flate2::Compression::default());
        Archive { builder: tar::Builder::new(encoder) }
    }

    /// Appends a regular file with `tar::Builder::append_data`, in the GNU format. It is accepted or
    /// not by its path. What a refused file leaves behind is left open.
    #[verifier::external_body]
    fn append(&mut self, path: &str, mode: u32, size: u64, data: &[u8]) -> (result: Result<
        (),
        std::io::Error,
    >)
        requires
            size == data@.len(),
        ensures
            match result {
                Ok(_) => archivable(path@) && archived(*final(self)) == archived(*old(self)).push(
                    (path@, mode, data@),
                ),
                Err(_) => !archivable(path@),
            },
    {
        let mut header = tar::Header::new_gnu();
        header.set_mode(mode);
        header.set_size(size);
        header.set_entry_type(tar::EntryType::Regular);
        header.set_cksum();
        self.builder.append_data(&mut header, path, data)
    }

    /// Completes the archive with `tar::Builder::into_inner`, and what compresses it with
    /// `flate2::write::GzEncoder::finish`. Whether that succeeds, and what the bytes are, depend on
    /// the files alone, because what is written goes to memory.
    #[verifier::external_body]
    fn finish(self) -> (result: Result<Vec<u8>, std::io::Error>)
        ensures
            match result {
                Ok(bytes) => tarball(archived(self)) == Some(bytes@),
                Err(_) => tarball(archived(self)) is None,
            },
    {
        self.builder.into_inner().and_then(|encoder| encoder.finish())
    }
}

/// The ConfigMap that a file comes from.
#[derive(Clone, Debug)]
pub struct ConfigMapRef {
    pub name: String,
    pub namespace: String,
}

/// Why a bundle could not be built.
#[derive(Debug)]
pub enum BundleError {
    /// A ConfigMap is missing required metadata.
    ConfigMapMetadataMissing,
    /// A static file could not be added to the tarball.
    AddStaticRuleToTarball { source: std::io::Error, file_path: String },
    /// A file of a ConfigMap could not be added to the tarball.
    AddFileToTarball { source: std::io::Error, config_map: ConfigMapRef, file_name: String },
    /// The tarball could not be built.
    BuildTarball { source: std::io::Error },
}

/// The contents of a [`BundleError`], except for what is inside the error of writing.
#[verifier::ext_equal]
pub enum BundleErrorView {
    ConfigMapMetadataMissing,
    AddStaticRuleToTarball { file_path: Seq<char> },
    AddFileToTarball { name: Seq<char>, namespace: Seq<char>, file_name: Seq<char> },
    BuildTarball,
}

impl DeepView for BundleError {
    type V = BundleErrorView;

    open spec fn deep_view(&self) -> BundleErrorView {
        match self {
            BundleError::ConfigMapMetadataMissing => BundleErrorView::ConfigMapMetadataMissing,
            BundleError::AddStaticRuleToTarball { source: _, file_path } => {
                BundleErrorView::AddStaticRuleToTarball { file_path: file_path@ }
            },
            BundleError::AddFileToTarball { source: _, config_map, file_name } => {
                BundleErrorView::AddFileToTarball {
                    name: config_map.name@,
                    namespace: config_map.namespace@,
                    file_name: file_name@,
                }
            },
            BundleError::BuildTarball { source: _ } => BundleErrorView::BuildTarball,
        }
    }
}

/// The files of a bundle so far: path, permissions and contents.
pub type Files = Seq<(Seq<char>, u32, Seq<u8>)>;

/// The file with this path and this text.
pub open spec fn text_file(path: Seq<char>, text: Seq<char>) -> (Seq<char>, u32, Seq<u8>) {
    (path, FILE_MODE, encode_utf8(text))
}

/// The static rules, each given by its path and its text, as files of a bundle.
pub open spec fn with_rules(rules: Seq<(Seq<char>, Seq<char>)>) -> Result<Files, BundleErrorView>
    decreases rules.len(),
{
    if rules.len() == 0 {
        Ok(Seq::empty())
    } else {
        match with_rules(rules.drop_last()) {
            Err(error) => Err(error),
            Ok(files) => if archivable(rules.last().0) {
                Ok(files.push(text_file(rules.last().0, rules.last().1)))
            } else {
                Err(BundleErrorView::AddStaticRuleToTarball { file_path: rules.last().0 })
            },
        }
    }
}

/// The path of a ConfigMap's file in the bundle.
pub open spec fn config_map_path(name: Seq<char>, namespace: Seq<char>, file_name: Seq<char>) -> Seq<
    char,
> {
    "configmap/"@ + name + "/"@ + namespace + "/"@ + file_name
}

/// The bundle with some files of a ConfigMap.
pub open spec fn with_entries(
    before: Files,
    name: Seq<char>,
    namespace: Seq<char>,
    entries: Seq<(Seq<char>, Seq<char>)>,
) -> Result<Files, BundleErrorView>
    decreases entries.len(),
{
    if entries.len() == 0 {
        Ok(before)
    } else {
        match with_entries(before, name, namespace, entries.drop_last()) {
            Err(error) => Err(error),
            Ok(files) => {
                let path = config_map_path(name, namespace, entries.last().0);
                if archivable(path) {
                    Ok(files.push(text_file(path, entries.last().1)))
                } else {
                    Err(
                        BundleErrorView::AddFileToTarball {
                            name,
                            namespace,
                            file_name: entries.last().0,
                        },
                    )
                }
            },
        }
    }
}

/// The files of a ConfigMap, in name order.
pub open spec fn entries_of(config_map: ConfigMapView) -> Seq<(Seq<char>, Seq<char>)> {
    match config_map.data {
        Some(data) => listing(data),
        None => Seq::empty(),
    }
}

/// The bundle with the files of a ConfigMap, which has to have a name, a namespace and a version.
pub open spec fn with_config_map(before: Files, config_map: ConfigMapView) -> Result<
    Files,
    BundleErrorView,
> {
    match (
        config_map.metadata.name,
        config_map.metadata.namespace,
        config_map.metadata.resource_version,
    ) {
        (Some(name), Some(namespace), Some(_)) => with_entries(
            before,
            name,
            namespace,
            entries_of(config_map),
        ),
        _ => Err(BundleErrorView::ConfigMapMetadataMissing),
    }
}

/// The bundle with the files of some ConfigMaps, in their order.
pub open spec fn with_config_maps(before: Files, config_maps: Seq<ConfigMapView>) -> Result<
    Files,
    BundleErrorView,
>
    decreases config_maps.len(),
{
    if config_maps.len() == 0 {
        Ok(before)
    } else {
        match with_config_maps(before, config_maps.drop_last()) {
            Err(error) => Err(error),
            Ok(files) => with_config_map(files, config_maps.last()),
        }
    }
}

/// The files of a bundle, or the first failure: the static rules come before those of ConfigMaps.
pub open spec fn bundle_files(
    rules: Seq<(Seq<char>, Seq<char>)>,
    config_maps: Seq<ConfigMapView>,
) -> Result<Files, BundleErrorView> {
    match with_rules(rules) {
        Err(error) => Err(error),
        Ok(files) => with_config_maps(files, config_maps),
    }
}

proof fn lemma_rules_fail(rules: Seq<(Seq<char>, Seq<char>)>, n: int)
    requires
        0 <= n <= rules.len(),
        with_rules(rules.take(n)) is Err,
    ensures
        with_rules(rules) == with_rules(rules.take(n)),
    decreases rules.len(),
{
    if n == rules.len() {
        assert(rules.take(n) =~= rules);
    } else {
        assert(rules.drop_last().take(n) =~= rules.take(n));
        lemma_rules_fail(rules.drop_last(), n);
    }
}

proof fn lemma_entries_fail(
    before: Files,
    name: Seq<char>,
    namespace: Seq<char>,
    entries: Seq<(Seq<char>, Seq<char>)>,
    n: int,
)
    requires
        0 <= n <= entries.len(),
        with_entries(before, name, namespace, entries.take(n)) is Err,
    ensures
        with_entries(before, name, namespace, entries) == with_entries(
            before,
            name,
            namespace,
            entries.take(n),
        ),
    decreases entries.len(),
{
    if n == entries.len() {
        assert(entries.take(n) =~= entries);
    } else {
        assert(entries.drop_last().take(n) =~= entries.take(n));
        lemma_entries_fail(before, name, namespace, entries.drop_last(), n);
    }
}

proof fn lemma_config_maps_fail(before: Files, config_maps: Seq<ConfigMapView>, n: int)
    requires
        0 <= n <= config_maps.len(),
        with_config_maps(before, config_maps.take(n)) is Err,
    ensures
        with_config_maps(before, config_maps) == with_config_maps(before, config_maps.take(n)),
    decreases config_maps.len(),
{
    if n == config_maps.len() {
        assert(config_maps.take(n) =~= config_maps);
    } else {
        assert(config_maps.drop_last().take(n) =~= config_maps.take(n));
        lemma_config_maps_fail(before, config_maps.drop_last(), n);
    }
}

fn append_text(archive: &mut Archive, path: &str, text: &str) -> (result: Result<(), std::io::Error>)
    ensures
        match result {
            Ok(_) => archivable(path@) && archived(*final(archive)) == archived(*old(archive)).push(
                text_file(path@, text@),
            ),
            Err(_) => !archivable(path@),
        },
{
    let data = text.as_bytes();
    archive.append(path, FILE_MODE, data.len() as u64, data)
}

fn add_rules(archive: &mut Archive, rules: &Vec<(String, String)>) -> (result: Result<(), BundleError>)
    requires
        archived(*old(archive)) == Seq::<(Seq<char>, u32, Seq<u8>)>::empty(),
    ensures
        match with_rules(rules.deep_view()) {
            Ok(files) => result is Ok && archived(*final(archive)) == files,
            Err(expected) => result matches Err(error) && error.deep_view() == expected,
        },
{
    let ghost listed = rules.deep_view();
    let mut i: usize = 0;
    while i < rules.len()
        invariant
            i <= rules.len(),
            listed == rules.deep_view(),
            with_rules(listed.take(i as int)) == Ok::<_, BundleErrorView>(archived(*archive)),
        decreases rules.len() - i,
    {
        let ghost known = listed.take(i + 1);
        assert(known.drop_last() =~= listed.take(i as int));
        assert(known.last() == rules[i as int].deep_view());
        if let Err(source) = append_text(archive, rules[i].0.as_str(), rules[i].1.as_str()) {
            proof {
                lemma_rules_fail(listed, i + 1);
            }
            return Err(
                BundleError::AddStaticRuleToTarball { source, file_path: rules[i].0.clone() },
            );
        }
        i += 1;
    }
    assert(listed.take(i as int) =~= listed);
    Ok(())
}

fn add_entries(
    archive: &mut Archive,
    name: &String,
    namespace: &String,
    entries: &Vec<(String, String)>,
) -> (result: Result<(), BundleError>)
    ensures
        match with_entries(archived(*old(archive)), name@, namespace@, entries.deep_view()) {
            Ok(files) => result is Ok && archived(*final(archive)) == files,
            Err(expected) => result matches Err(error) && error.deep_view() == expected,
        },
{
    let ghost before = archived(*archive);
    let ghost listed = entries.deep_view();
    let mut i: usize = 0;
    while i < entries.len()
        invariant
            i <= entries.len(),
            listed == entries.deep_view(),
            before == archived(*old(archive)),
            with_entries(before, name@, namespace@, listed.take(i as int)) == Ok::<
                _,
                BundleErrorView,
            >(archived(*archive)),
        decreases entries.len() - i,
    {
        let ghost known = listed.take(i + 1);
        assert(known.drop_last() =~= listed.take(i as int));
        assert(known.last() == entries[i as int].deep_view());
        let file_name = &entries[i].0;
        let mut path = "configmap/".to_owned();
        path.append(name.as_str());
        path.append("/");
        path.append(namespace.as_str());
        path.append("/");
        path.append(file_name.as_str());
        if let Err(source) = append_text(archive, path.as_str(), entries[i].1.as_str()) {
            proof {
                lemma_entries_fail(before, name@, namespace@, listed, i + 1);
            }
            return Err(
                BundleError::AddFileToTarball {
                    source,
                    config_map: ConfigMapRef { name: name.clone(), namespace: namespace.clone() },
                    file_name: file_name.clone(),
                },
            );
        }
        i += 1;
    }
    assert(listed.take(i as int) =~= listed);
    Ok(())
}

fn add_config_map(archive: &mut Archive, config_map: &ConfigMap) -> (result: Result<(), BundleError>)
    ensures
        match with_config_map(archived(*old(archive)), config_map.deep_view()) {
            Ok(files) => result is Ok && archived(*final(archive)) == files,
            Err(expected) => result matches Err(error) && error.deep_view() == expected,
        },
{
    let metadata = &config_map.metadata;
    match (&metadata.name, &metadata.namespace, &metadata.resource_version) {
        (Some(name), Some(namespace), Some(_)) => match &config_map.data {
            Some(data) => add_entries(archive, name, namespace, data.entries()),
            None => Ok(()),
        },
        _ => Err(BundleError::ConfigMapMetadataMissing),
    }
}

/// Builds the bundle from the static rules, each given by its path and its text, and the ConfigMaps
/// that are marked as parts of it.
pub fn build_bundle(rules: &Vec<(String, String)>, config_maps: &Vec<ConfigMap>) -> (result: Result<
    Vec<u8>,
    BundleError,
>)
    ensures
        match bundle_files(rules.deep_view(), config_maps.deep_view()) {
            Ok(files) => match tarball(files) {
                Some(expected) => result matches Ok(bundle) && bundle@ == expected,
                None => result matches Err(error) && error.deep_view()
                    == BundleErrorView::BuildTarball,
            },
            Err(expected) => result matches Err(error) && error.deep_view() == expected,
        },
{
    let mut archive = Archive::new();
    if let Err(error) = add_rules(&mut archive, rules) {
        return Err(error);
    }
    let ghost before = archived(archive);
    let ghost listed = config_maps.deep_view();
    let mut i: usize = 0;
    while i < config_maps.len()
        invariant
            i <= config_maps.len(),
            listed == config_maps.deep_view(),
            with_rules(rules.deep_view()) == Ok::<_, BundleErrorView>(before),
            with_config_maps(before, listed.take(i as int)) == Ok::<_, BundleErrorView>(
                archived(archive),
            ),
        decreases config_maps.len() - i,
    {
        let ghost known = listed.take(i + 1);
        assert(known.drop_last() =~= listed.take(i as int));
        assert(known.last() == config_maps[i as int].deep_view());
        if let Err(error) = add_config_map(&mut archive, &config_maps[i]) {
            proof {
                lemma_config_maps_fail(before, listed, i + 1);
            }
            return Err(error);
        }
        i += 1;
    }
    assert(listed.take(i as int) =~= listed);
    finished_bundle(archive.finish())
}

/// The bundle, given what came of completing its archive.
pub fn finished_bundle(finished: Result<Vec<u8>, std::io::Error>) -> (result: Result<
    Vec<u8>,
    BundleError,
>)
    ensures
        match finished {
            Ok(bytes) => result == Ok::<_, BundleError>(bytes),
            Err(_) => result matches Err(error) && error.deep_view()
                == BundleErrorView::BuildTarball,
        },
{
    match finished {
        Ok(bytes) => Ok(bytes),
        Err(source) => Err(BundleError::BuildTarball { source }),
    }
}

proof fn lemma_entries_only_add(
    before: Files,
    name: Seq<char>,
    namespace: Seq<char>,
    entries: Seq<(Seq<char>, Seq<char>)>,
)
    ensures
        with_entries(before, name, namespace, entries) matches Ok(files) ==> {
            &&& before.is_prefix_of(files)
            &&& files.len() == before.len() + entries.len()
            &&& forall|i: int|
                #![trigger entries[i]]
                0 <= i < entries.len() ==> files[before.len() + i] == text_file(
                    config_map_path(name, namespace, entries[i].0),
                    entries[i].1,
                )
        },
    decreases entries.len(),
{
    if entries.len() > 0 {
        lemma_entries_only_add(before, name, namespace, entries.drop_last());
        if let Ok(files) = with_entries(before, name, namespace, entries) {
            assert forall|i: int| #![trigger entries[i]] 0 <= i < entries.len() implies files[
            before.len() + i] == text_file(
                config_map_path(name, namespace, entries[i].0),
                entries[i].1,
            ) by {
                if i < entries.len() - 1 {
                    assert(entries.drop_last()[i] == entries[i]);
                }
            }
        }
    }
}

proof fn lemma_config_maps_only_add(before: Files, config_maps: Seq<ConfigMapView>, m: int, i: int)
    ensures
        with_config_maps(before, config_maps) matches Ok(files) ==> {
            &&& before.is_prefix_of(files)
            &&& 0 <= m < config_maps.len() && 0 <= i < entries_of(config_maps[m]).len()
                ==> files.contains(
                text_file(
                    config_map_path(
                        config_maps[m].metadata.name->0,
                        config_maps[m].metadata.namespace->0,
                        entries_of(config_maps[m])[i].0,
                    ),
                    entries_of(config_maps[m])[i].1,
                ),
            )
        },
    decreases config_maps.len(),
{
    if config_maps.len() > 0 {
        lemma_config_maps_only_add(before, config_maps.drop_last(), m, i);
        if let Ok(files) = with_config_maps(before, config_maps) {
            let earlier = with_config_maps(before, config_maps.drop_last())->Ok_0;
            let last = config_maps.last();
            lemma_entries_only_add(
                earlier,
                last.metadata.name->0,
                last.metadata.namespace->0,
                entries_of(last),
            );
            if 0 <= m < config_maps.len() && 0 <= i < entries_of(config_maps[m]).len() {
                let wanted = text_file(
                    config_map_path(
                        config_maps[m].metadata.name->0,
                        config_maps[m].metadata.namespace->0,
                        entries_of(config_maps[m])[i].0,
                    ),
                    entries_of(config_maps[m])[i].1,
                );
                if m < config_maps.len() - 1 {
                    assert(config_maps.drop_last()[m] == config_maps[m]);
                    let k = choose|k: int| 0 <= k < earlier.len() && earlier[k] == wanted;
                    assert(files[k] == wanted);
                } else {
                    assert(files[earlier.len() + i] == wanted);
                }
            }
        }
    }
}

proof fn lemma_rules_in_order(rules: Seq<(Seq<char>, Seq<char>)>)
    ensures
        with_rules(rules) matches Ok(files) ==> files.len() == rules.len() && forall|i: int|
            #![trigger rules[i]]
            0 <= i < rules.len() ==> files[i] == text_file(rules[i].0, rules[i].1),
    decreases rules.len(),
{
    if rules.len() > 0 {
        lemma_rules_in_order(rules.drop_last());
        if let Ok(files) = with_rules(rules) {
            assert forall|i: int| #![trigger rules[i]] 0 <= i < rules.len() implies files[i]
                == text_file(rules[i].0, rules[i].1) by {
                if i < rules.len() - 1 {
                    assert(rules.drop_last()[i] == rules[i]);
                }
            }
        }
    }
}

/// A bundle holds every static rule, and every file of every ConfigMap.
pub proof fn lemma_bundle_is_complete(
    rules: Seq<(Seq<char>, Seq<char>)>,
    config_maps: Seq<ConfigMapView>,
    r: int,
    m: int,
    i: int,
)
    requires
        bundle_files(rules, config_maps) is Ok,
    ensures
        0 <= r < rules.len() ==> (bundle_files(rules, config_maps)->Ok_0)[r] == text_file(
            rules[r].0,
            rules[r].1,
        ),
        0 <= m < config_maps.len() && 0 <= i < entries_of(config_maps[m]).len() ==> (bundle_files(
            rules,
            config_maps,
        )->Ok_0).contains(
            text_file(
                config_map_path(
                    config_maps[m].metadata.name->0,
                    config_maps[m].metadata.namespace->0,
                    entries_of(config_maps[m])[i].0,
                ),
                entries_of(config_maps[m])[i].1,
            ),
        ),
{
    lemma_rules_in_order(rules);
    lemma_config_maps_only_add(with_rules(rules)->Ok_0, config_maps, m, i);
}

/// The number of characters before the first slash.
spec fn segment_len(path: Seq<char>) -> nat
    decreases path.len(),
{
    if path.len() == 0 || path[0] == '/' {
        0
    } else {
        1 + segment_len(path.skip(1))
    }
}

proof fn lemma_segment(segment: Seq<char>, rest: Seq<char>)
    requires
        !segment.contains('/'),
        rest.len() > 0,
        rest[0] == '/',
    ensures
        segment_len(segment + rest) == segment.len(),
    decreases segment.len(),
{
    if segment.len() == 0 {
        assert(segment + rest =~= rest);
    } else {
        let path = segment + rest;
        assert(segment.contains(segment[0]));
        assert(path.skip(1) =~= segment.skip(1) + rest);
        assert forall|c: char| segment.skip(1).contains(c) implies segment.contains(c) by {
            let k = choose|k: int| 0 <= k < segment.skip(1).len() && segment.skip(1)[k] == c;
            assert(segment[k + 1] == c);
        }
        lemma_segment(segment.skip(1), rest);
    }
}

proof fn lemma_split(left: Seq<char>, right: Seq<char>, left_rest: Seq<char>, right_rest: Seq<char>)
    requires
        !left.contains('/'),
        !right.contains('/'),
        left + "/"@ + left_rest == right + "/"@ + right_rest,
    ensures
        left == right,
        left_rest == right_rest,
{
    reveal_strlit("/");
    let path = left + "/"@ + left_rest;
    assert(path =~= left + ("/"@ + left_rest));
    assert(path =~= right + ("/"@ + right_rest));
    lemma_segment(left, "/"@ + left_rest);
    lemma_segment(right, "/"@ + right_rest);
    assert(left =~= path.take(left.len() as int));
    assert(right =~= path.take(right.len() as int));
    assert(left_rest =~= path.skip(left.len() as int + 1));
    assert(right_rest =~= path.skip(right.len() as int + 1));
}

/// Files of different ConfigMaps, and different files of a ConfigMap, do not get in each other's
/// way: they have different paths. The names and namespaces of ConfigMaps have no slashes.
pub proof fn lemma_bundle_paths_differ(
    name: Seq<char>,
    namespace: Seq<char>,
    file_name: Seq<char>,
    other_name: Seq<char>,
    other_namespace: Seq<char>,
    other_file_name: Seq<char>,
)
    requires
        !name.contains('/'),
        !namespace.contains('/'),
        !other_name.contains('/'),
        !other_namespace.contains('/'),
    ensures
        config_map_path(name, namespace, file_name) == config_map_path(
            other_name,
            other_namespace,
            other_file_name,
        ) ==> name == other_name && namespace == other_namespace && file_name == other_file_name,
{
    let path = config_map_path(name, namespace, file_name);
    if path == config_map_path(other_name, other_namespace, other_file_name) {
        let start = "configmap/"@.len() as int;
        let rest = namespace + "/"@ + file_name;
        let other_rest = other_namespace + "/"@ + other_file_name;
        assert(path.skip(start) =~= name + "/"@ + rest);
        assert(path.skip(start) =~= other_name + "/"@ + other_rest);
        lemma_split(name, other_name, rest, other_rest);
        lemma_split(namespace, other_namespace, file_name, other_file_name);
    }
}

/// What a watch of the ConfigMaps reports.
#[derive(Clone, Copy, Debug, PartialEq, Eq, Structural)]
pub enum WatchEvent {
    /// An object was added or changed.
    Apply,
    /// An object was deleted.
    Delete,
    /// The watch starts over.
    Init,
    /// An object was seen while the watch starts over.
    InitApply,
    /// All objects were seen after the watch started over.
    InitDone,
    /// The watch failed.
    Failed,
}

/// Whether an event makes it necessary to build the bundle anew. While a watch starts over, that has
/// to wait until all objects were seen.
pub fn needs_rebuild(event: WatchEvent) -> (rebuild: bool)
    ensures
        rebuild == (event == WatchEvent::Apply || event == WatchEvent::Delete || event
            == WatchEvent::InitDone),
{
    match event {
        WatchEvent::Apply => true,
        WatchEvent::Delete => true,
        WatchEvent::Init => false,
        WatchEvent::InitApply => false,
        WatchEvent::InitDone => true,
        WatchEvent::Failed => false,
    }
}

/// An answer to an HTTP request.
#[derive(Clone, Debug, PartialEq, Eq)]
pub struct Response {
    pub status: u16,
    pub content_type: Option<String>,
    pub body: Vec<u8>,
}

/// The contents of a [`Response`].
#[verifier::ext_equal]
pub struct ResponseView {
    pub status: u16,
    pub content_type: Option<Seq<char>>,
    pub body: Seq<u8>,
}

impl DeepView for Response {
    type V = ResponseView;

    open spec fn deep_view(&self) -> ResponseView {
        ResponseView {
            status: self.status,
            content_type: self.content_type.deep_view(),
            body: self.body@,
        }
    }
}

/// An answer that consists of a text.
pub open spec fn text_response(status: u16, text: Seq<char>) -> ResponseView {
    ResponseView {
        status,
        content_type: Some("text/plain; charset=utf-8"@),
        body: encode_utf8(text),
    }
}

fn respond_with_text(status: u16, text: &str) -> (response: Response)
    ensures
        response.deep_view() == text_response(status, text@),
{
    let bytes = text.as_bytes();
    let mut body: Vec<u8> = Vec::new();
    body.extend_from_slice(bytes);
    assert(body@ =~= bytes@);
    Response { status, content_type: Some("text/plain; charset=utf-8".to_owned()), body }
}

/// The answer where there is no bundle. What went wrong is left to the log.
pub open spec fn failure_response() -> ResponseView {
    text_response(500, "failed to build bundle, see opa-bundle-builder logs for more details"@)
}

impl BundleError {
    /// The answer to a request for a bundle that could not be built.
    pub fn to_http_response(&self) -> (response: Response)
        ensures
            response.deep_view() == failure_response(),
    {
        respond_with_text(
            500,
            "failed to build bundle, see opa-bundle-builder logs for more details",
        )
    }
}

/// The answer to a request for the status: there is a bundle, or there is none.
pub fn get_status(bundle: Result<&Vec<u8>, &BundleError>) -> (response: Response)
    ensures
        response.deep_view() == match bundle {
            Ok(_) => text_response(200, "ready"@),
            Err(_) => failure_response(),
        },
{
    match bundle {
        Ok(_) => respond_with_text(200, "ready"),
        Err(error) => error.to_http_response(),
    }
}

/// The answer to a request for the bundle.
pub fn get_bundle(bundle: Result<&Vec<u8>, &BundleError>) -> (response: Response)
    ensures
        response.deep_view() == match bundle {
            Ok(bytes) => ResponseView {
                status: 200,
                content_type: Some("application/gzip"@),
                body: bytes@,
            },
            Err(_) => failure_response(),
        },
{
    match bundle {
        Ok(bytes) => {
            let mut body: Vec<u8> = Vec::new();
            body.extend_from_slice(bytes.as_slice());
            assert(body@ =~= bytes@);
            Response { status: 200, content_type: Some("application/gzip".to_owned()), body }
        },
        Err(error) => error.to_http_response(),
    }
}

/// Whether a bundle has a file of this text at this path, which everyone can read and its owner can
/// write.
pub open spec fn has_file(files: Files, path: Seq<char>, text: Seq<char>) -> bool {
    exists|i: int|
        0 <= i < files.len() && (#[trigger] files[i]).0 == path && files[i].1 == 420 && files[i].2
            == encode_utf8(text)
}

/// Every rule that comes with the bundle-builder is in the bundle under its path, and every key of
/// every ConfigMap is, with its value, in a directory that is named after the ConfigMap and its
/// namespace.
pub proof fn lemma_bundle_has_every_file(
    rules: Seq<(Seq<char>, Seq<char>)>,
    config_maps: Seq<ConfigMapView>,
    r: int,
    m: int,
    key: Seq<char>,
)
    requires
        bundle_files(rules, config_maps) is Ok,
    ensures
        ({
            let files = bundle_files(rules, config_maps)->Ok_0;
            let data = config_maps[m].data->0;
            let meta = config_maps[m].metadata;
            &&& 0 <= r < rules.len() ==> has_file(files, rules[r].0, rules[r].1)
            &&& 0 <= m < config_maps.len() && config_maps[m].data is Some && data.dom().finite()
                && data.contains_key(key) ==> has_file(
                files,
                "configmap/"@ + meta.name->0 + "/"@ + meta.namespace->0 + "/"@ + key,
                data[key],
            )
        }),
{
    let files = bundle_files(rules, config_maps)->Ok_0;
    let data = config_maps[m].data->0;
    if 0 <= r < rules.len() {
        lemma_bundle_is_complete(rules, config_maps, r, m, 0);
        assert(files[r].0 == rules[r].0) by {
            lemma_rules_in_order(rules);
        }
        lemma_rules_stay(rules, config_maps);
    }
    if 0 <= m < config_maps.len() && config_maps[m].data is Some && data.dom().finite()
        && data.contains_key(key) {
        let i = lemma_listed(data, key);
        lemma_bundle_is_complete(rules, config_maps, r, m, i);
        let file = text_file(
            config_map_path(
                config_maps[m].metadata.name->0,
                config_maps[m].metadata.namespace->0,
                key,
            ),
            data[key],
        );
        let k = choose|k: int| 0 <= k < files.len() && files[k] == file;
        assert(files[k].0 == file.0);
    }
}

proof fn lemma_rules_stay(rules: Seq<(Seq<char>, Seq<char>)>, config_maps: Seq<ConfigMapView>)
    ensures
        bundle_files(rules, config_maps) matches Ok(files) ==> files.len() >= rules.len(),
{
    lemma_rules_in_order(rules);
    if let Ok(files) = with_rules(rules) {
        lemma_config_maps_only_add(files, config_maps, 0, 0);
    }
}

#[verifier::rlimit(40)]
proof fn lemma_config_map_files_only(
    before: Files,
    config_maps: Seq<ConfigMapView>,
    file: (Seq<char>, u32, Seq<u8>),
)
    ensures
        with_config_maps(before, config_maps) matches Ok(files) ==> (files.contains(file)
            ==> before.contains(file) || exists|m: int, i: int|
            #![trigger entries_of(config_maps[m])[i]]
            0 <= m < config_maps.len() && 0 <= i < entries_of(config_maps[m]).len() && file
                == text_file(
                config_map_path(
                    config_maps[m].metadata.name->0,
                    config_maps[m].metadata.namespace->0,
                    entries_of(config_maps[m])[i].0,
                ),
                entries_of(config_maps[m])[i].1,
            )),
    decreases config_maps.len(),
{
    if config_maps.len() > 0 {
        let rest = config_maps.drop_last();
        let last = config_maps.len() - 1;
        lemma_config_map_files_only(before, rest, file);
        if let Ok(files) = with_config_maps(before, config_maps) {
            let earlier = with_config_maps(before, rest)->Ok_0;
            let config_map = config_maps[last];
            let entries = entries_of(config_map);
            lemma_entries_only_add(
                earlier,
                config_map.metadata.name->0,
                config_map.metadata.namespace->0,
                entries,
            );
            if files.contains(file) {
                let k = choose|k: int| 0 <= k < files.len() && files[k] == file;
                if k < earlier.len() {
                    assert(earlier[k] == file);
                    assert(earlier.contains(file));
                    if !before.contains(file) {
                        let (m, i) = choose|m: int, i: int|
                            #![trigger entries_of(rest[m])[i]]
                            0 <= m < rest.len() && 0 <= i < entries_of(rest[m]).len() && file
                                == text_file(
                                config_map_path(
                                    rest[m].metadata.name->0,
                                    rest[m].metadata.namespace->0,
                                    entries_of(rest[m])[i].0,
                                ),
                                entries_of(rest[m])[i].1,
                            );
                        assert(rest[m] == config_maps[m]);
                        assert(entries_of(config_maps[m])[i] == entries_of(rest[m])[i]);
                    }
                } else {
                    let i = k - earlier.len();
                    assert(entries_of(config_maps[last])[i] == entries[i]);
                }
            }
        }
    }
}

/// Nothing is in the bundle but the rules that come with the bundle-builder and the values of the
/// ConfigMaps.
pub proof fn lemma_bundle_has_no_other_file(
    rules: Seq<(Seq<char>, Seq<char>)>,
    config_maps: Seq<ConfigMapView>,
    file: (Seq<char>, u32, Seq<u8>),
)
    requires
        bundle_files(rules, config_maps) is Ok,
        (bundle_files(rules, config_maps)->Ok_0).contains(file),
    ensures
        (exists|r: int|
            0 <= r < rules.len() && file.0 == (#[trigger] rules[r]).0 && file.2 == encode_utf8(
                rules[r].1,
            )) || (exists|m: int, i: int|
            #![trigger entries_of(config_maps[m])[i]]
            0 <= m < config_maps.len() && 0 <= i < entries_of(config_maps[m]).len() && file.0
                == config_map_path(
                config_maps[m].metadata.name->0,
                config_maps[m].metadata.namespace->0,
                entries_of(config_maps[m])[i].0,
            ) && file.2 == encode_utf8(entries_of(config_maps[m])[i].1)),
{
    let start = with_rules(rules)->Ok_0;
    lemma_rules_in_order(rules);
    lemma_config_map_files_only(start, config_maps, file);
    if start.contains(file) {
        let r = choose|r: int| 0 <= r < start.len() && start[r] == file;
        assert(rules[r].0 == file.0);
    } else {
        let (m, i) = choose|m: int, i: int|
            #![trigger entries_of(config_maps[m])[i]]
            0 <= m < config_maps.len() && 0 <= i < entries_of(config_maps[m]).len() && file
                == text_file(
                config_map_path(
                    config_maps[m].metadata.name->0,
                    config_maps[m].metadata.namespace->0,
                    entries_of(config_maps[m])[i].0,
                ),
                entries_of(config_maps[m])[i].1,
            );
        assert(file.0 == config_map_path(
            config_maps[m].metadata.name->0,
            config_maps[m].metadata.namespace->0,
            entries_of(config_maps[m])[i].0,
        ));
    }
}

/// A ConfigMap without name, namespace or resource version is in no bundle.
pub proof fn lemma_incomplete_config_map(before: Files, config_map: ConfigMapView)
    ensures
        config_map.metadata.name is None || config_map.metadata.namespace is None
            || config_map.metadata.resource_version is None ==> with_config_map(before, config_map)
            == Err::<Files, _>(BundleErrorView::ConfigMapMetadataMissing),
{
}

/// Without a bundle every request is answered with an error of the server that says where to look.
pub proof fn lemma_responses(text: Seq<char>, status: u16)
    ensures
        failure_response().status == 500,
        failure_response().body == encode_utf8(
            "failed to build bundle, see opa-bundle-builder logs for more details"@,
        ),
        text_response(status, text).status == status,
        text_response(status, text).body == encode_utf8(text),
        text_response(status, text).content_type == Some("text/plain; charset=utf-8"@),
{
}

} // verus!
