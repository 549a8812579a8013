//! Writes the rules of ConfigMaps to the directory that OPA loads them from.
use crate::bundle_builder::BUNDLE_LABEL;
use crate::kubernetes::resources::{ConfigMap, ConfigMapView};
use crate::text_map::{lemma_listed, lemma_listing_is_the_map, listing};
use crate::value::{no_items, push_item};
use vstd::prelude::*;

verus! {

/// The label selector of ConfigMaps with rules.
pub const BUNDLE_SELECTOR: &'static str = "opa.stackable.tech/bundle=true";

/// The directory that OPA loads rules from.
pub const ACTIVE_DIR: &'static str = "/bundles/active";

/// The directory that rules are written to before they are activated.
pub const INCOMING_DIR: &'static str = "/bundles/incomming";

/// Why a bundle could not be updated.
#[derive(Clone, Debug, PartialEq, Eq)]
pub enum Error {
    /// The bundle has no name.
    OpaBundleHasNoName,
    /// A file or directory of the bundle could not be written.
    OpaBundleDir { source: String },
    /// There is no single namespace to watch.
    MissingWatchNamespace,
    /// The ConfigMap is empty.
    EmptyConfigMap { name: String },
}

/// The contents of an [`Error`].
#[verifier::ext_equal]
pub enum ErrorView {
    OpaBundleHasNoName,
    OpaBundleDir { source: Seq<char> },
    MissingWatchNamespace,
    EmptyConfigMap { name: Seq<char> },
}

impl DeepView for Error {
    type V = ErrorView;

    open spec fn deep_view(&self) -> ErrorView {
        match self {
            Error::OpaBundleHasNoName => ErrorView::OpaBundleHasNoName,
            Error::OpaBundleDir { source } => ErrorView::OpaBundleDir { source: source@ },
            Error::MissingWatchNamespace => ErrorView::MissingWatchNamespace,
            Error::EmptyConfigMap { name } => ErrorView::EmptyConfigMap { name: name@ },
        }
    }
}

/// A step in which a bundle is written. Paths are relative to the incoming directory.
#[derive(Clone, Debug, PartialEq, Eq)]
pub enum UpdateStep {
    /// Create the directory of the bundle, and those that it is in.
    CreateDirectory { bundle: String },
    /// Write a file of the bundle.
    WriteFile { bundle: String, file: String, contents: String },
    /// Move the directory of the bundle to the active directory.
    Activate { bundle: String },
}

/// The contents of an [`UpdateStep`].
#[verifier::ext_equal]
pub enum UpdateStepView {
    CreateDirectory { bundle: Seq<char> },
    WriteFile { bundle: Seq<char>, file: Seq<char>, contents: Seq<char> },
    Activate { bundle: Seq<char> },
}

impl DeepView for UpdateStep {
    type V = UpdateStepView;

    open spec fn deep_view(&self) -> UpdateStepView {
        match self {
            UpdateStep::CreateDirectory { bundle } => UpdateStepView::CreateDirectory {
                bundle: bundle@,
            },
            UpdateStep::WriteFile { bundle, file, contents } => UpdateStepView::WriteFile {
                bundle: bundle@,
                file: file@,
                contents: contents@,
            },
            UpdateStep::Activate { bundle } => UpdateStepView::Activate { bundle: bundle@ },
        }
    }
}

/// The steps that write these rules.
pub open spec fn write_steps(bundle: Seq<char>, rules: Seq<(Seq<char>, Seq<char>)>) -> Seq<
    UpdateStepView,
> {
    rules.map_values(
        |rule: (Seq<char>, Seq<char>)|
            UpdateStepView::WriteFile { bundle, file: rule.0, contents: rule.1 },
    )
}

/// The steps in which a bundle is written: it becomes active only after all of its rules are written.
pub open spec fn update_steps(config_map: ConfigMapView) -> Result<Seq<UpdateStepView>, ErrorView> {
    match (config_map.metadata.name, config_map.data) {
        (None, _) => Err(ErrorView::OpaBundleHasNoName),
        (Some(name), None) => Err(ErrorView::EmptyConfigMap { name }),
        (Some(name), Some(rules)) => Ok(
            seq![UpdateStepView::CreateDirectory { bundle: name }] + write_steps(
                name,
                listing(rules),
            ) + seq![UpdateStepView::Activate { bundle: name }],
        ),
    }
}

/// Plans how the rules of a bundle are written.
pub fn update_bundle(bundle: &ConfigMap) -> (result: Result<Vec<UpdateStep>, Error>)
    ensures
        match update_steps(bundle.deep_view()) {
            Ok(expected) => result matches Ok(steps) && steps.deep_view() == expected,
            Err(expected) => result matches Err(error) && error.deep_view() == expected,
        },
{
    let name = match &bundle.metadata.name {
        Some(name) => name,
        None => return Err(Error::OpaBundleHasNoName),
    };
    let rules = match &bundle.data {
        Some(rules) => rules.entries(),
        None => return Err(Error::EmptyConfigMap { name: name.clone() }),
    };
    let ghost listed = rules.deep_view();
    let ghost writes = write_steps(name@, listed);
    let mut steps: Vec<UpdateStep> = no_items();
    push_item(&mut steps, UpdateStep::CreateDirectory { bundle: name.clone() });
    let ghost first = steps.deep_view();
    let mut i: usize = 0;
    assert(first =~= first + writes.take(0));
    while i < rules.len()
        invariant
            i <= rules.len(),
            listed == rules.deep_view(),
            writes == write_steps(name@, listed),
            steps.deep_view() == first + writes.take(i as int),
        decreases rules.len() - i,
    {
        assert(listed[i as int] == rules[i as int].deep_view());
        push_item(
            &mut steps,
            UpdateStep::WriteFile {
                bundle: name.clone(),
                file: rules[i].0.clone(),
                contents: rules[i].1.clone(),
            },
        );
        i += 1;
        assert(first + writes.take(i as int) =~= (first + writes.take(i - 1)).push(writes[i - 1]));
    }
    assert(writes.take(i as int) =~= writes);
    push_item(&mut steps, UpdateStep::Activate { bundle: name.clone() });
    assert(steps.deep_view() =~= seq![UpdateStepView::CreateDirectory { bundle: name@ }] + writes
        + seq![UpdateStepView::Activate { bundle: name@ }]);
    Ok(steps)
}

/// The namespace to watch. Watching all of them is not possible.
pub fn watched_namespace(namespace: Option<String>) -> (result: Result<String, Error>)
    ensures
        match namespace {
            Some(namespace) => result == Ok::<_, Error>(namespace),
            None => result matches Err(error) && error.deep_view()
                == ErrorView::MissingWatchNamespace,
        },
{
    match namespace {
        Some(namespace) => Ok(namespace),
        None => Err(Error::MissingWatchNamespace),
    }
}

/// Reports a step that failed.
pub fn step_failed(source: String) -> (error: Error)
    ensures
        error.deep_view() == (ErrorView::OpaBundleDir { source: source@ }),
{
    Error::OpaBundleDir { source }
}

/// A bundle is activated exactly once, in the last step, after its directory was created in the first
/// one. Everything in between writes one of its rules.
pub proof fn lemma_bundle_is_activated_last(config_map: ConfigMapView, i: int)
    requires
        update_steps(config_map) is Ok,
        0 <= i < (update_steps(config_map)->Ok_0).len(),
    ensures
        ({
            let steps = update_steps(config_map)->Ok_0;
            &&& steps[i] is CreateDirectory <==> i == 0
            &&& steps[i] is Activate <==> i == steps.len() - 1
            &&& steps.len() == listing(config_map.data->0).len() + 2
        }),
{
}

/// Every key of the ConfigMap is written to exactly one file, which has the name of the key and holds
/// its value. Nothing else is written, and every step is about the bundle of the ConfigMap.
pub proof fn lemma_bundle_holds_the_rules(config_map: ConfigMapView)
    requires
        config_map.metadata.name is Some,
        config_map.data is Some,
        config_map.data->0.dom().finite(),
    ensures
        update_steps(config_map) is Ok,
        ({
            let steps = update_steps(config_map)->Ok_0;
            let name = config_map.metadata.name->0;
            let data = config_map.data->0;
            &&& forall|key: Seq<char>| #[trigger]
                data.contains_key(key) ==> exists|i: int|
                    0 <= i < steps.len() && #[trigger] steps[i] == (UpdateStepView::WriteFile {
                        bundle: name,
                        file: key,
                        contents: data[key],
                    })
            &&& forall|i: int|
                0 <= i < steps.len() && #[trigger] steps[i] is WriteFile ==> data.contains_key(
                    steps[i]->file,
                ) && steps[i]->contents == data[steps[i]->file] && steps[i]->WriteFile_bundle == name
            &&& forall|i: int, j: int|
                0 <= i < j < steps.len() && #[trigger] steps[i] is WriteFile && #[trigger] steps[j]
                    is WriteFile ==> steps[i]->file != steps[j]->file
            &&& steps.len() == data.len() + 2
            &&& steps[0] == (UpdateStepView::CreateDirectory { bundle: name })
            &&& steps.last() == (UpdateStepView::Activate { bundle: name })
        }),
{
    let steps = update_steps(config_map)->Ok_0;
    let name = config_map.metadata.name->0;
    let data = config_map.data->0;
    let rules = listing(data);
    lemma_listing_is_the_map(data);
    assert forall|i: int| 0 <= i < steps.len() && #[trigger] steps[i] is WriteFile implies 1 <= i
        <= rules.len() && steps[i]->file == rules[i - 1].0 && steps[i]->contents == rules[i - 1].1
        && steps[i]->WriteFile_bundle == name by {}
    assert forall|key: Seq<char>| #[trigger] data.contains_key(key) implies exists|i: int|
        0 <= i < steps.len() && #[trigger] steps[i] == (UpdateStepView::WriteFile {
            bundle: name,
            file: key,
            contents: data[key],
        }) by {
        let i = lemma_listed(data, key);
        assert(steps[i + 1] == (UpdateStepView::WriteFile {
            bundle: name,
            file: key,
            contents: data[key],
        }));
    }
}

/// A ConfigMap without a name or without data is no bundle. The missing name is reported first.
pub proof fn lemma_no_bundle(config_map: ConfigMapView)
    ensures
        config_map.metadata.name is None ==> update_steps(config_map) == Err::<
            Seq<UpdateStepView>,
            _,
        >(ErrorView::OpaBundleHasNoName),
        config_map.metadata.name is Some && config_map.data is None ==> update_steps(config_map)
            == Err::<Seq<UpdateStepView>, _>(
            ErrorView::EmptyConfigMap { name: config_map.metadata.name->0 },
        ),
        update_steps(config_map) is Ok <==> config_map.metadata.name is Some && config_map.data
            is Some,
{
}

/// ConfigMaps with rules are selected by the label of bundles.
pub proof fn lemma_bundle_selector()
    ensures
        BUNDLE_SELECTOR@ == BUNDLE_LABEL@ + "=true"@,
        BUNDLE_LABEL@ == "opa.stackable.tech/bundle"@,
{
    reveal_strlit("opa.stackable.tech/bundle");
    reveal_strlit("=true");
    reveal_strlit("opa.stackable.tech/bundle=true");
    assert(BUNDLE_SELECTOR@ =~= BUNDLE_LABEL@ + "=true"@);
}

} // verus!
