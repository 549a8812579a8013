# stackable-opa-operator

The logic of a Kubernetes operator for clusters of [Open Policy Agent](https://www.openpolicyagent.org)
(OPA), and of the programs that run in their Pods, written in Rust and proved with Verus.

## Layout

- `src/` is the library. Its functions have contracts that Verus proves, except for the trusted items
  named below, whose contracts it believes.
  - `v1/`: the `OpenPolicyAgent` resource. Its controller creates one Pod on each eligible node, and
    `v1/connection.rs` finds out how a client connects to one of them.
  - `v1alpha1/`: the first version of the `OpaCluster` resource, run as DaemonSets.
  - `v1alpha2/`: the second version. A resource is validated (`validate.rs`), turned into objects
    (`assemble.rs` and the modules it calls), and applied according to a plan (`apply.rs`,
    `reconcile.rs`).
  - `v1alpha1/guarantees.rs` and `v1alpha2/guarantees.rs`: what holds of the objects of a cluster
    together. Every mount has its volume, Services select the Pods, ports agree, Pods outlive the
    graceful shutdown of OPA, and so on.
  - `bundle_builder.rs`: serves the rules of ConfigMaps as a bundle.
  - `bundle_helper.rs`: writes the rules of ConfigMaps to a directory.
  - `info_fetcher/`: credentials, tokens, requests and the failure cache of the sidecars that look up
    users and resources.
  - `kubernetes/`: the part of the Kubernetes API that the library speaks of.
  - `text.rs`, `text_map.rs`, `duration.rs`, `value.rs`: texts, maps that are listed in the order of
    their keys, spans of time, and values that can be copied and compared.
- `tests/` runs the library on concrete values.
- `app/` is the programs around the library: command line, Kubernetes client, HTTP server and files.

## How contracts are written

Each type `T` has a mathematical counterpart `TView`, which `deep_view` maps it to. A function that
builds something has a spec function beside it that says what the result is, for example
`server_role_service` beside `build_server_role_service`. A function that can fail states each error
together with the inputs on which it is returned.

What the operator framework computes, such as a resolved image or a rendered shell snippet, reaches
the library as a plain value. Where it can fail it is a `Checked` value, which holds either the result
or the message.

Calls that Verus cannot look into stand behind a few trusted items:

- `url` and `rand` in `v1/connection.rs`
- `tar`, `flate2` and the type `std::io::Error` in `bundle_builder.rs`
- `reqwest` in `info_fetcher/http.rs`
- the standard library's `String::push` and `str::to_lowercase` in `text.rs`, `Arc::clone` in
  `info_fetcher/cache.rs`, and `Formatter::write_str` in `info_fetcher/secret.rs`

The comment above each says what is claimed of the call.
