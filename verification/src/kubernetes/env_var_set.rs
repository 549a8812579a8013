//! Environment variables, each name of which occurs only once.
use crate::kubernetes::parts::{
    env_var, env_var_from_field, field_env, literal_env, log_directory, log_directory_of,
    CONSOLE_LOG_LEVEL_ENV, FILE_LOG_DIRECTORY_ENV, FILE_LOG_LEVEL_ENV,
    KUBERNETES_CLUSTER_DOMAIN_ENV, KUBERNETES_NODE_NAME_ENV,
};
use crate::kubernetes::pod::{EnvVar, EnvVarSourceView, EnvVarView};
use crate::logging::BundleBuilderLogLevel;
use crate::text_map::{
    lemma_listed, lemma_listing_is_the_map, lemma_listing_of_finite_map, listing, StringMap, TextMap,
};
use crate::text::{before, lemma_before_irreflexive};
use crate::value::{no_items, push_item, Value};
use vstd::prelude::*;

verus! {

/// The value of an environment variable.
#[derive(Clone, Debug, PartialEq, Eq)]
pub enum EnvVarValue {
    /// A literal value.
    Value(String),
    /// A field of the Pod, by its path.
    FieldPath(String),
}

/// The contents of an [`EnvVarValue`].
#[verifier::ext_equal]
pub enum EnvVarValueView {
    Value(Seq<char>),
    FieldPath(Seq<char>),
}

impl DeepView for EnvVarValue {
    type V = EnvVarValueView;

    open spec fn deep_view(&self) -> EnvVarValueView {
        match self {
            EnvVarValue::Value(inner) => EnvVarValueView::Value(inner.deep_view()),
            EnvVarValue::FieldPath(inner) => EnvVarValueView::FieldPath(inner.deep_view()),
        }
    }
}

impl Value for EnvVarValue {
    fn duplicate(&self) -> (copy: Self) {
        match self {
            EnvVarValue::Value(inner) => EnvVarValue::Value(inner.duplicate()),
            EnvVarValue::FieldPath(inner) => EnvVarValue::FieldPath(inner.duplicate()),
        }
    }

    fn same_as(&self, other: &Self) -> (same: bool) {
        match (self, other) {
            (EnvVarValue::Value(left), EnvVarValue::Value(right)) => left.same_as(right),
            (EnvVarValue::FieldPath(left), EnvVarValue::FieldPath(right)) => left.same_as(right),
            _ => false,
        }
    }
}

/// A set of environment variables. Every name occurs at most once, and the variables are listed in
/// name order.
pub struct EnvVarSet {
    vars: TextMap<EnvVarValue>,
}

impl View for EnvVarSet {
    type V = Map<Seq<char>, EnvVarValueView>;

    closed spec fn view(&self) -> Map<Seq<char>, EnvVarValueView> {
        self.vars@
    }
}

/// The environment variable that an entry of the set stands for.
pub open spec fn env_entry(entry: (Seq<char>, EnvVarValueView)) -> EnvVarView {
    match entry.1 {
        EnvVarValueView::Value(value) => literal_env(entry.0, value),
        EnvVarValueView::FieldPath(path) => field_env(entry.0, path),
    }
}

/// The environment variables of a set, in name order.
pub open spec fn env_list(vars: Map<Seq<char>, EnvVarValueView>) -> Seq<EnvVarView> {
    listing(vars).map_values(|entry: (Seq<char>, EnvVarValueView)| env_entry(entry))
}

/// Every environment variable of a set occurs once: the names are distinct.
pub proof fn lemma_env_names_distinct(vars: Map<Seq<char>, EnvVarValueView>)
    requires
        vars.dom().finite(),
    ensures
        forall|i: int, j: int|
            0 <= i < j < env_list(vars).len() ==> #[trigger] env_list(vars)[i].name
                != #[trigger] env_list(vars)[j].name,
{
    lemma_listing_of_finite_map(vars);
    let listed = listing(vars);
    assert forall|i: int, j: int| 0 <= i < j < env_list(vars).len() implies #[trigger] env_list(
        vars,
    )[i].name != #[trigger] env_list(vars)[j].name by {
        assert(env_list(vars)[i] == env_entry(listed[i]));
        assert(env_list(vars)[j] == env_entry(listed[j]));
        assert(before(listed[i].0, listed[j].0));
        lemma_before_irreflexive(listed[i].0);
    }
}

impl EnvVarSet {
    /// A set without variables.
    pub fn new() -> (set: Self)
        ensures
            set@ == Map::<Seq<char>, EnvVarValueView>::empty(),
    {
        EnvVarSet { vars: TextMap::new() }
    }

    /// Sets a variable to a literal value, in place of what it was set to before.
    pub fn with_value(self, name: &str, value: &str) -> (set: Self)
        ensures
            set@ == self@.insert(name@, EnvVarValueView::Value(value@)),
    {
        let mut vars = self.vars;
        vars.insert(name.to_owned(), EnvVarValue::Value(value.to_owned()));
        EnvVarSet { vars }
    }

    /// Sets a variable to a field of the Pod, in place of what it was set to before.
    pub fn with_field_path(self, name: &str, field_path: &str) -> (set: Self)
        ensures
            set@ == self@.insert(name@, EnvVarValueView::FieldPath(field_path@)),
    {
        let mut vars = self.vars;
        vars.insert(name.to_owned(), EnvVarValue::FieldPath(field_path.to_owned()));
        EnvVarSet { vars }
    }

    /// The variables in name order.
    pub fn to_vec(&self) -> (env: Vec<EnvVar>)
        ensures
            env.deep_view() == env_list(self@),
    {
        let entries = self.vars.entries();
        let ghost listed = listing(self.vars@);
        let ghost render = |entry: (Seq<char>, EnvVarValueView)| env_entry(entry);
        let mut env: Vec<EnvVar> = no_items();
        let mut i: usize = 0;
        assert(env.deep_view() =~= listed.take(0).map_values(render));
        while i < entries.len()
            invariant
                i <= entries.len(),
                entries.deep_view() == listed,
                render == (|entry: (Seq<char>, EnvVarValueView)| env_entry(entry)),
                env.deep_view() == listed.take(i as int).map_values(render),
            decreases entries.len() - i,
        {
            assert(listed[i as int] == entries[i as int].deep_view());
            let var = match &entries[i].1 {
                EnvVarValue::Value(value) => env_var(entries[i].0.as_str(), value.as_str()),
                EnvVarValue::FieldPath(path) => env_var_from_field(
                    entries[i].0.as_str(),
                    path.as_str(),
                ),
            };
            push_item(&mut env, var);
            i += 1;
            assert(env.deep_view() =~= listed.take(i as int).map_values(render));
        }
        assert(listed.take(i as int) =~= listed);
        env
    }
}

/// A set with the environment that the Rust sidecars need.
pub open spec fn with_rust_cli_env(
    vars: Map<Seq<char>, EnvVarValueView>,
    cluster_domain: Seq<char>,
    log_level: BundleBuilderLogLevel,
    container: Seq<char>,
) -> Map<Seq<char>, EnvVarValueView> {
    vars.insert(CONSOLE_LOG_LEVEL_ENV@, EnvVarValueView::Value(log_level.spec_name())).insert(
        FILE_LOG_LEVEL_ENV@,
        EnvVarValueView::Value(log_level.spec_name()),
    ).insert(FILE_LOG_DIRECTORY_ENV@, EnvVarValueView::Value(log_directory(container))).insert(
        KUBERNETES_NODE_NAME_ENV@,
        EnvVarValueView::FieldPath("spec.nodeName"@),
    ).insert(KUBERNETES_CLUSTER_DOMAIN_ENV@, EnvVarValueView::Value(cluster_domain))
}

/// Adds the environment that the Rust sidecars need.
pub fn add_rust_cli_env(
    vars: EnvVarSet,
    cluster_domain: &str,
    log_level: BundleBuilderLogLevel,
    container: &str,
) -> (set: EnvVarSet)
    ensures
        set@ == with_rust_cli_env(vars@, cluster_domain@, log_level, container@),
{
    let level = log_level.name();
    vars.with_value(CONSOLE_LOG_LEVEL_ENV, level.as_str()).with_value(
        FILE_LOG_LEVEL_ENV,
        level.as_str(),
    ).with_value(FILE_LOG_DIRECTORY_ENV, log_directory_of(container).as_str()).with_field_path(
        KUBERNETES_NODE_NAME_ENV,
        "spec.nodeName",
    ).with_value(KUBERNETES_CLUSTER_DOMAIN_ENV, cluster_domain)
}
/// The environment that a configuration asks for, in name order.
pub open spec fn configured_env(vars: Map<Seq<char>, Seq<char>>) -> Seq<EnvVarView> {
    listing(vars).map_values(|entry: (Seq<char>, Seq<char>)| literal_env(entry.0, entry.1))
}

/// Builds the environment that a configuration asks for.
pub fn configured_env_vars(vars: &StringMap) -> (env: Vec<EnvVar>)
    ensures
        env.deep_view() == configured_env(vars@),
{
    let entries = vars.entries();
    let ghost listed = listing(vars@);
    let ghost render = |entry: (Seq<char>, Seq<char>)| literal_env(entry.0, entry.1);
    let mut env: Vec<EnvVar> = no_items();
    let mut i: usize = 0;
    assert(env.deep_view() =~= listed.take(0).map_values(render));
    while i < entries.len()
        invariant
            i <= entries.len(),
            entries.deep_view() == listed,
            render == (|entry: (Seq<char>, Seq<char>)| literal_env(entry.0, entry.1)),
            env.deep_view() == listed.take(i as int).map_values(render),
        decreases entries.len() - i,
    {
        assert(listed[i as int] == entries[i as int].deep_view());
        push_item(&mut env, env_var(entries[i].0.as_str(), entries[i].1.as_str()));
        i += 1;
        assert(env.deep_view() =~= listed.take(i as int).map_values(render));
    }
    assert(listed.take(i as int) =~= listed);
    env
}

/// Every variable is in the list exactly once, under its name and with its value, and nothing else is.
pub proof fn lemma_env_list(vars: Map<Seq<char>, EnvVarValueView>)
    requires
        vars.dom().finite(),
    ensures
        env_list(vars).len() == vars.len(),
        forall|name: Seq<char>| #[trigger]
            vars.contains_key(name) ==> exists|i: int|
                0 <= i < env_list(vars).len() && (#[trigger] env_list(vars)[i]).name == name,
        forall|i: int|
            #![trigger env_list(vars)[i]]
            0 <= i < env_list(vars).len() ==> {
                let var = env_list(vars)[i];
                &&& vars.contains_key(var.name)
                &&& vars[var.name] is Value ==> var.value == Some(vars[var.name]->Value_0)
                    && var.value_from is None
                &&& vars[var.name] is FieldPath ==> var.value is None && var.value_from == Some(
                    EnvVarSourceView::FieldPath(vars[var.name]->FieldPath_0),
                )
            },
{
    lemma_listing_is_the_map(vars);
    let entries = listing(vars);
    assert forall|name: Seq<char>| #[trigger] vars.contains_key(name) implies exists|i: int|
        0 <= i < env_list(vars).len() && (#[trigger] env_list(vars)[i]).name == name by {
        let i = lemma_listed(vars, name);
        assert(env_list(vars)[i].name == name);
    }
    assert forall|i: int| 0 <= i < env_list(vars).len() implies #[trigger] env_list(vars)[i]
        == env_entry(entries[i]) by {}
}

/// Every configured variable is in the list exactly once, under its name and with its value.
pub proof fn lemma_configured_env(vars: Map<Seq<char>, Seq<char>>)
    requires
        vars.dom().finite(),
    ensures
        configured_env(vars).len() == vars.len(),
        forall|name: Seq<char>| #[trigger]
            vars.contains_key(name) ==> exists|i: int|
                0 <= i < configured_env(vars).len() && (#[trigger] configured_env(vars)[i]).name
                    == name,
        forall|i: int|
            #![trigger configured_env(vars)[i]]
            0 <= i < configured_env(vars).len() ==> {
                let var = configured_env(vars)[i];
                &&& vars.contains_key(var.name)
                &&& var.value == Some(vars[var.name])
                &&& var.value_from is None
            },
{
    lemma_listing_is_the_map(vars);
    let entries = listing(vars);
    assert forall|name: Seq<char>| #[trigger] vars.contains_key(name) implies exists|i: int|
        0 <= i < configured_env(vars).len() && (#[trigger] configured_env(vars)[i]).name == name by {
        let i = lemma_listed(vars, name);
        assert(configured_env(vars)[i].name == name);
    }
    assert forall|i: int| 0 <= i < configured_env(vars).len() implies (
    #[trigger] configured_env(vars)[i]).name == entries[i].0 && configured_env(vars)[i].value
        == Some(entries[i].1) by {}
}

} // verus!
