//! How other operators connect to an Open Policy Agent (OPA).
use crate::kubernetes::meta::{LabelSelector, LabelSelectorView};
use crate::labels::{
    put, APP_INSTANCE_LABEL, APP_MANAGED_BY_LABEL, APP_NAME_LABEL, APP_ROLE_GROUP_LABEL,
};
use crate::text::{
    before, characters, decimal, equal, is_before, join, joined, lemma_before_irreflexive,
    lemma_before_total, lemma_before_transitive, number, substring,
};
use crate::text_map::{ascending, lemma_listing_of_finite_map, listing, StringMap};
use crate::v1::crd::{OpaSpec, OpaSpecView, APP_NAME, MANAGED_BY};
use crate::value::{no_items, one_item, push_item};
use rand::seq::SliceRandom;
use vstd::prelude::*;

verus! {

/// The version of the OPA API.
pub const OPA_URL_VERSION: &'static str = "v1";

/// The port that OPA listens on where none is configured.
pub const DEFAULT_PORT: u16 = 8181;

/// The tickets that error reports refer to.
#[derive(Clone, Copy, Debug, PartialEq, Eq, Structural)]
pub enum TicketReferences {
    ErrOpaPodWithoutName,
}

impl TicketReferences {
    /// The name of the ticket.
    pub fn name(&self) -> (name: &'static str)
        ensures
            name@ == "ErrOpaPodWithoutName"@,
    {
        match self {
            TicketReferences::ErrOpaPodWithoutName => "ErrOpaPodWithoutName",
        }
    }
}

/// The error with which `url` rejects a text. Nothing is known of what is inside.
#[verifier::external_type_specification]
#[verifier::external_body]
pub struct ExParseError(url::ParseError);

/// Why a connection to OPA could not be established.
#[derive(Debug)]
pub enum Error {
    /// The Pod has no hostname assignment, this is most probably a transient failure and should be
    /// retried.
    PodWithoutHostname { pod: String },
    /// The Pod is missing required labels.
    PodMissingLabels { pod: String, labels: Vec<String> },
    /// No suitable OPA server was found.
    OpaServerMissing,
    /// The operator framework, or Kubernetes, reported this error.
    OperatorFrameworkError { source: String },
    /// A URL could not be parsed.
    UrlError { source: url::ParseError },
}

/// The contents of an [`Error`], except for what is inside the error of `url`.
#[verifier::ext_equal]
pub enum ErrorView {
    PodWithoutHostname { pod: Seq<char> },
    PodMissingLabels { pod: Seq<char>, labels: Seq<Seq<char>> },
    OpaServerMissing,
    OperatorFrameworkError { source: Seq<char> },
    UrlError,
}

impl DeepView for Error {
    type V = ErrorView;

    open spec fn deep_view(&self) -> ErrorView {
        match self {
            Error::PodWithoutHostname { pod } => ErrorView::PodWithoutHostname { pod: pod@ },
            Error::PodMissingLabels { pod, labels } => ErrorView::PodMissingLabels {
                pod: pod@,
                labels: labels.deep_view(),
            },
            Error::OpaServerMissing => ErrorView::OpaServerMissing,
            Error::OperatorFrameworkError { source } => ErrorView::OperatorFrameworkError {
                source: source@,
            },
            Error::UrlError { .. } => ErrorView::UrlError,
        }
    }
}

/// The outcome of something that may fail.
pub type OpaOperatorResult<T> = Result<T, Error>;

/// Contains all necessary information to identify a Stackable managed Open Policy Agent (OPA) and
/// build a connection string for it. The main purpose for this struct is for other operators that
/// need to reference an OPA to use in their CRDs. This has the benefit of keeping references to OPA
/// consistent throughout the entire stack.
#[derive(Clone, Debug, Default)]
pub struct OpaReference {
    pub namespace: String,
    pub name: String,
}

/// Helper enum to build urls against OPA API. The OPA rest API consists of 4 endpoints: Policy,
/// Data, Query and Compile.
#[derive(Clone, Debug)]
pub enum OpaApi {
    /// e.g. GET /v1/policies/<id>
    Policy { id: String },
    /// e.g. GET /v1/data/<package_path>/<rule>
    Data {
        /// e.g. /kafka/authz
        package_path: String,
        /// e.g. "/allow"
        rule: String,
    },
    /// e.g. GET /v1/query?q=data.servers[i].ports[_]="p2";data.servers[i].name=name
    Query { params: StringMap },
    /// e.g. POST /v1/compile
    Compile,
}

/// The protocol by which OPA is reached.
#[derive(Clone, Copy, Debug, PartialEq, Eq, Structural)]
pub enum OpaApiProtocol {
    Http,
    Https,
}

impl OpaApiProtocol {
    /// The URI scheme of the protocol.
    pub open spec fn spec_name(self) -> Seq<char> {
        match self {
            OpaApiProtocol::Http => "http"@,
            OpaApiProtocol::Https => "https"@,
        }
    }

    /// The URI scheme of the protocol.
    pub fn name(&self) -> (name: &'static str)
        ensures
            name@ == self.spec_name(),
    {
        match self {
            OpaApiProtocol::Http => "http",
            OpaApiProtocol::Https => "https",
        }
    }

    /// The protocol with this URI scheme.
    pub fn from_name(name: &str) -> (protocol: Option<OpaApiProtocol>)
        ensures
            match protocol {
                Some(protocol) => protocol.spec_name() == name@,
                None => name@ != "http"@ && name@ != "https"@,
            },
    {
        if equal(name, "http") {
            Some(OpaApiProtocol::Http)
        } else if equal(name, "https") {
            Some(OpaApiProtocol::Https)
        } else {
            None
        }
    }
}

/// A text, borrowed or owned.
pub trait AsText {
    /// The characters of the text.
    spec fn text(&self) -> Seq<char>;

    /// The text itself.
    fn as_text(&self) -> (text: &str)
        ensures
            text@ == self.text(),
    ;
}

impl AsText for String {
    open spec fn text(&self) -> Seq<char> {
        self@
    }

    fn as_text(&self) -> (text: &str) {
        self.as_str()
    }
}

impl<'a> AsText for &'a str {
    open spec fn text(&self) -> Seq<char> {
        self@
    }

    fn as_text(&self) -> (text: &str) {
        self
    }
}

/// Whether `"://"` stands at this place of a URL.
pub open spec fn protocol_ends_at(url: Seq<char>, i: int) -> bool {
    0 <= i <= url.len() - 3 && url[i] == ':' && url[i + 1] == '/' && url[i + 2] == '/'
}

/// The number of characters up to and with the first `"://"` from `i` on, or none where there is no
/// such place.
pub open spec fn protocol_len_from(url: Seq<char>, i: nat) -> nat
    decreases url.len() - i,
{
    if i + 3 > url.len() {
        0
    } else if protocol_ends_at(url, i as int) {
        i + 3
    } else {
        protocol_len_from(url, i + 1)
    }
}

/// The number of characters of a URL's protocol, which ends with the first `"://"`.
pub open spec fn protocol_len(url: Seq<char>) -> nat {
    protocol_len_from(url, 0)
}

/// A path in which every run of slashes is reduced to a single one.
pub open spec fn single_slashes(path: Seq<char>) -> Seq<char>
    decreases path.len(),
{
    if path.len() == 0 {
        path
    } else if path.last() == '/' && path.len() >= 2 && path[path.len() - 2] == '/' {
        single_slashes(path.drop_last())
    } else {
        single_slashes(path.drop_last()).push(path.last())
    }
}

/// A URL without duplicated slashes behind its protocol.
pub open spec fn cleaned(url: Seq<char>) -> Seq<char> {
    let protocol = protocol_len(url) as int;
    url.take(protocol) + single_slashes(url.skip(protocol))
}

fn find_protocol(url: &Vec<char>) -> (len: usize)
    ensures
        len == protocol_len(url@),
        len <= url.len(),
{
    let mut i: usize = 0;
    while i < url.len() && url.len() - i >= 3
        invariant
            i <= url.len(),
            protocol_len(url@) == protocol_len_from(url@, i as nat),
        decreases url.len() - i,
    {
        if url[i] == ':' && url[i + 1] == '/' && url[i + 2] == '/' {
            return i + 3;
        }
        i += 1;
    }
    0
}

/// Remove duplicated slashes ("/") from the url path. First check for a protocol e.g. "http://" and
/// continue to check for duplicated slashes in order to remove them. This is basically a "smarter"
/// trim method in order to catch inputs that may have or have not slashes prefixed or suffixed.
pub fn clean_url<T: AsText>(path: T) -> (url: String)
    ensures
        url@ == cleaned(path.text()),
{
    let chars = characters(path.as_text());
    let protocol: usize = find_protocol(&chars);
    let mut url = substring(&chars, 0, protocol);
    let ghost rest = chars@.skip(protocol as int);
    let mut i: usize = protocol;
    assert(rest.take(0) =~= Seq::empty());
    assert(url@ =~= chars@.take(protocol as int) + single_slashes(rest.take(0)));
    while i < chars.len()
        invariant
            protocol <= i <= chars.len(),
            rest == chars@.skip(protocol as int),
            url@ == chars@.take(protocol as int) + single_slashes(rest.take(i - protocol)),
        decreases chars.len() - i,
    {
        let c = chars[i];
        let ghost known = rest.take(i + 1 - protocol);
        assert(known.drop_last() =~= rest.take(i - protocol));
        assert(known.last() == c);
        if !(c == '/' && i > protocol && chars[i - 1] == '/') {
            url.push(c);
        }
        assert(url@ =~= chars@.take(protocol as int) + single_slashes(known));
        i += 1;
    }
    assert(rest.take(i - protocol) =~= rest);
    url
}

proof fn lemma_single_slashes_end(path: Seq<char>)
    ensures
        path.len() == 0 <==> single_slashes(path).len() == 0,
        path.len() > 0 ==> single_slashes(path).last() == path.last(),
    decreases path.len(),
{
    if path.len() > 0 {
        lemma_single_slashes_end(path.drop_last());
    }
}

/// Whether no slash directly follows another one.
pub open spec fn no_double_slash(path: Seq<char>) -> bool {
    forall|i: int|
        #![trigger path[i]]
        0 < i < path.len() ==> !(path[i] == '/' && path[i - 1] == '/')
}

proof fn lemma_single_slashes(path: Seq<char>)
    ensures
        no_double_slash(single_slashes(path)),
        no_double_slash(path) ==> single_slashes(path) == path,
    decreases path.len(),
{
    if path.len() > 0 {
        let before = path.drop_last();
        lemma_single_slashes(before);
        lemma_single_slashes_end(before);
        let after = single_slashes(path);
        assert forall|i: int| #![trigger after[i]] 0 < i < after.len() implies !(after[i] == '/'
            && after[i - 1] == '/') by {
            let shorter = single_slashes(before);
            if i < shorter.len() {
                assert(shorter[i] == after[i]);
                assert(shorter[i - 1] == after[i - 1]);
            }
        }
        if no_double_slash(path) {
            assert forall|i: int| #![trigger before[i]] 0 < i < before.len() implies !(before[i]
                == '/' && before[i - 1] == '/') by {
                assert(before[i] == path[i]);
                assert(before[i - 1] == path[i - 1]);
            }
            assert(path[path.len() - 1] == path.last());
            assert(before.push(path.last()) =~= path);
        }
    }
}

proof fn lemma_protocol(url: Seq<char>, i: nat)
    ensures
        ({
            let len = protocol_len_from(url, i);
            &&& len == 0 || i + 3 <= len <= url.len() && protocol_ends_at(url, len - 3)
            &&& forall|j: int|
                i <= j && (len == 0 || j < len - 3) ==> !#[trigger] protocol_ends_at(url, j)
        }),
    decreases url.len() - i,
{
    if i + 3 <= url.len() && !protocol_ends_at(url, i as int) {
        lemma_protocol(url, i + 1);
    }
}

proof fn lemma_protocol_is(url: Seq<char>, i: nat, len: nat)
    requires
        len == 0 || i + 3 <= len <= url.len() && protocol_ends_at(url, len - 3),
        forall|j: int|
            i <= j && (len == 0 || j < len - 3) ==> !#[trigger] protocol_ends_at(url, j),
    ensures
        protocol_len_from(url, i) == len,
    decreases url.len() - i,
{
    if i + 3 <= url.len() {
        if !protocol_ends_at(url, i as int) {
            lemma_protocol_is(url, i + 1, len);
        }
    }
}

/// A clean URL starts with the protocol of the original one, and behind it no slash follows another
/// one.
pub proof fn lemma_cleaned_has_single_slashes(url: Seq<char>)
    ensures
        cleaned(url).take(protocol_len(url) as int) == url.take(protocol_len(url) as int),
        no_double_slash(cleaned(url).skip(protocol_len(url) as int)),
        protocol_len(cleaned(url)) == protocol_len(url),
{
    let len = protocol_len(url);
    let clean = cleaned(url);
    let rest = url.skip(len as int);
    lemma_protocol(url, 0);
    lemma_single_slashes(rest);
    assert(clean.take(len as int) =~= url.take(len as int));
    assert(clean.skip(len as int) =~= single_slashes(rest));
    assert forall|j: int| 0 <= j && (len == 0 || j < len - 3) implies !#[trigger] protocol_ends_at(
        clean,
        j,
    ) by {
        if len == 0 {
            assert(clean =~= single_slashes(rest));
            if protocol_ends_at(clean, j) {
                assert(clean[j + 2] == '/' && clean[j + 2 - 1] == '/');
            }
        } else {
            assert(!protocol_ends_at(url, j));
            assert(clean[j] == url[j]);
            assert(clean[j + 1] == url[j + 1]);
            assert(clean[j + 2] == url[j + 2]);
        }
    }
    if len > 0 {
        assert(clean[len - 3] == url[len - 3]);
        assert(clean[len - 2] == url[len - 2]);
        assert(clean[len - 1] == url[len - 1]);
    }
    lemma_protocol_is(clean, 0, len);
}

/// A URL without duplicated slashes behind its protocol stays as it is.
pub proof fn lemma_clean_url_is_kept(url: Seq<char>)
    requires
        no_double_slash(url.skip(protocol_len(url) as int)),
    ensures
        cleaned(url) == url,
{
    let len = protocol_len(url) as int;
    lemma_protocol(url, 0);
    lemma_single_slashes(url.skip(len));
    assert(url.take(len) + url.skip(len) =~= url);
}

/// Cleaning a URL twice is the same as cleaning it once.
pub proof fn lemma_cleaning_is_idempotent(url: Seq<char>)
    ensures
        cleaned(cleaned(url)) == cleaned(url),
{
    lemma_cleaned_has_single_slashes(url);
    lemma_clean_url_is_kept(cleaned(url));
}

proof fn lemma_slash_collapses(start: Seq<char>, rest: Seq<char>)
    requires
        start.len() > 0,
        start.last() == '/',
    ensures
        single_slashes(start.push('/') + rest) == single_slashes(start + rest),
    decreases rest.len(),
{
    let doubled = start.push('/') + rest;
    let plain = start + rest;
    if rest.len() == 0 {
        assert(doubled =~= start.push('/'));
        assert(doubled.drop_last() =~= start);
        assert(plain =~= start);
    } else {
        lemma_slash_collapses(start, rest.drop_last());
        assert(doubled.drop_last() =~= start.push('/') + rest.drop_last());
        assert(plain.drop_last() =~= start + rest.drop_last());
        assert(doubled.last() == rest.last() && plain.last() == rest.last());
        if rest.len() >= 2 {
            assert(doubled[doubled.len() - 2] == rest[rest.len() - 2]);
            assert(plain[plain.len() - 2] == rest[rest.len() - 2]);
        } else {
            assert(doubled[doubled.len() - 2] == '/');
            assert(plain[plain.len() - 2] == '/');
        }
    }
}

/// A slash that follows another one behind the protocol does not change the clean URL.
pub proof fn lemma_repeated_slash_is_ignored(start: Seq<char>, rest: Seq<char>)
    requires
        0 < protocol_len(start) < start.len(),
        start.last() == '/',
    ensures
        cleaned(start + "/"@ + rest) == cleaned(start + rest),
{
    reveal_strlit("/");
    let len = protocol_len(start);
    lemma_protocol(start, 0);
    let doubled = start + "/"@ + rest;
    let plain = start + rest;
    assert forall|j: int| 0 <= j && j < len - 3 implies !#[trigger] protocol_ends_at(
        doubled,
        j,
    ) by {
        assert(!protocol_ends_at(start, j));
    }
    assert forall|j: int| 0 <= j && j < len - 3 implies !#[trigger] protocol_ends_at(plain, j) by {
        assert(!protocol_ends_at(start, j));
    }
    assert(protocol_ends_at(start, len - 3));
    lemma_protocol_is(doubled, 0, len);
    lemma_protocol_is(plain, 0, len);
    let path = start.skip(len as int);
    assert(path.last() == '/');
    lemma_slash_collapses(path, rest);
    assert(doubled.skip(len as int) =~= path.push('/') + rest);
    assert(plain.skip(len as int) =~= path + rest);
    assert(doubled.take(len as int) =~= plain.take(len as int));
}

/// A parameter of a query.
pub open spec fn param_text(param: (Seq<char>, Seq<char>)) -> Seq<char> {
    param.0 + "="@ + param.1
}

/// The parameters of a query, in name order.
pub open spec fn params_text(params: Map<Seq<char>, Seq<char>>) -> Seq<char> {
    joined(listing(params).map_values(|param: (Seq<char>, Seq<char>)| param_text(param)), ";"@)
}

/// Transform the query param map to actual http parameters.
pub fn param_map_to_string(params: &StringMap) -> (text: String)
    ensures
        text@ == params_text(params@),
{
    let entries = params.entries();
    let ghost texts = listing(params@).map_values(
        |param: (Seq<char>, Seq<char>)| param_text(param),
    );
    let mut parts: Vec<String> = no_items();
    let mut i: usize = 0;
    while i < entries.len()
        invariant
            i <= entries.len(),
            entries.deep_view() == listing(params@),
            texts == listing(params@).map_values(
                |param: (Seq<char>, Seq<char>)| param_text(param),
            ),
            parts.deep_view() == texts.take(i as int),
        decreases entries.len() - i,
    {
        assert(entries.deep_view()[i as int] == entries[i as int].deep_view());
        let mut part = entries[i].0.clone();
        part.append("=");
        part.append(entries[i].1.as_str());
        push_item(&mut parts, part);
        i += 1;
        assert(texts.take(i as int) =~= texts.take(i - 1).push(texts[i - 1]));
    }
    assert(texts.take(i as int) =~= texts);
    join(&parts, ";")
}

/// The URL of the OPA API on a node, up to its endpoint.
pub open spec fn api_root(protocol: OpaApiProtocol, node_name: Seq<char>, port: u16) -> Seq<char> {
    protocol.spec_name() + "://"@ + node_name + ":"@ + decimal(port as nat) + "/"@
        + OPA_URL_VERSION@ + "/"@
}

impl OpaApi {
    /// The endpoint with its parameters.
    pub open spec fn spec_endpoint(self) -> Seq<char> {
        match self {
            OpaApi::Policy { id } => "policies/"@ + id@,
            OpaApi::Data { package_path, rule } => "data/"@ + package_path@ + "/"@ + rule@,
            OpaApi::Query { params } => "query?q="@ + params_text(params@),
            OpaApi::Compile => "compile"@,
        }
    }

    /// The endpoint with its parameters.
    pub fn endpoint(&self) -> (endpoint: String)
        ensures
            endpoint@ == self.spec_endpoint(),
    {
        match self {
            OpaApi::Policy { id } => {
                let mut endpoint = "policies/".to_owned();
                endpoint.append(id.as_str());
                endpoint
            },
            OpaApi::Data { package_path, rule } => {
                let mut endpoint = "data/".to_owned();
                endpoint.append(package_path.as_str());
                endpoint.append("/");
                endpoint.append(rule.as_str());
                endpoint
            },
            OpaApi::Query { params } => {
                let mut endpoint = "query?q=".to_owned();
                endpoint.append(param_map_to_string(params).as_str());
                endpoint
            },
            OpaApi::Compile => "compile".to_owned(),
        }
    }

    /// The URL of the endpoint on a node, without duplicated slashes, before it is parsed.
    pub open spec fn spec_clean_url(
        self,
        protocol: OpaApiProtocol,
        node_name: Seq<char>,
        port: u16,
    ) -> Seq<char> {
        cleaned(api_root(protocol, node_name, port) + self.spec_endpoint())
    }

    /// Builds the URL of the endpoint on a node, without duplicated slashes, before it is parsed.
    pub fn get_clean_url(&self, protocol: &OpaApiProtocol, node_name: &str, port: u16) -> (url: String)
        ensures
            url@ == self.spec_clean_url(*protocol, node_name@, port),
    {
        let mut url = protocol.name().to_owned();
        url.append("://");
        url.append(node_name);
        url.append(":");
        url.append(number(port as u64).as_str());
        url.append("/");
        url.append(OPA_URL_VERSION);
        url.append("/");
        url.append(self.endpoint().as_str());
        clean_url(url)
    }

    /// The URL of the endpoint on a node.
    pub fn get_url(&self, protocol: &OpaApiProtocol, node_name: &str, port: u16) -> (result:
        OpaOperatorResult<String>)
        ensures
            match parsed_url(self.spec_clean_url(*protocol, node_name@, port)) {
                Some(url) => result matches Ok(text) && text@ == url,
                None => result matches Err(error) && error.deep_view() == ErrorView::UrlError,
            },
    {
        let url = self.get_clean_url(protocol, node_name, port);
        match parse_url(url.as_str()) {
            Ok(url) => Ok(url),
            Err(source) => Err(Error::UrlError { source }),
        }
    }
}

/// The URL of a rule, without duplicated slashes, before it is parsed.
pub open spec fn rule_url(
    protocol: OpaApiProtocol,
    node_name: Seq<char>,
    port: u16,
    package_path: Seq<char>,
    rule: Seq<char>,
) -> Seq<char> {
    cleaned(api_root(protocol, node_name, port) + ("data/"@ + package_path + "/"@ + rule))
}

/// The endpoint of the Data API leads to the URL of its rule.
pub proof fn lemma_data_url(api: OpaApi, protocol: OpaApiProtocol, node_name: Seq<char>, port: u16)
    ensures
        api matches OpaApi::Data { package_path, rule } ==> api.spec_clean_url(
            protocol,
            node_name,
            port,
        ) == rule_url(protocol, node_name, port, package_path@, rule@),
{
}

proof fn lemma_root_has_protocol(protocol: OpaApiProtocol, node_name: Seq<char>, port: u16)
    ensures
        0 < protocol_len(api_root(protocol, node_name, port)) < api_root(
            protocol,
            node_name,
            port,
        ).len(),
{
    reveal_strlit("http");
    reveal_strlit("https");
    reveal_strlit("://");
    reveal_strlit("/");
    let root = api_root(protocol, node_name, port);
    let len = protocol.spec_name().len() + 3;
    assert forall|j: int| 0 <= j && j < len - 3 implies !#[trigger] protocol_ends_at(root, j) by {
        assert(root[j] == protocol.spec_name()[j]);
    }
    assert(root[len - 3] == ':' && root[len - 2] == '/' && root[len - 1] == '/');
    lemma_protocol_is(root, 0, len);
}

proof fn lemma_start_keeps_protocol(
    protocol: OpaApiProtocol,
    node_name: Seq<char>,
    port: u16,
    more: Seq<char>,
)
    ensures
        0 < protocol_len(api_root(protocol, node_name, port) + more) < (api_root(
            protocol,
            node_name,
            port,
        ) + more).len(),
{
    let root = api_root(protocol, node_name, port);
    let start = root + more;
    let len = protocol_len(root);
    lemma_root_has_protocol(protocol, node_name, port);
    lemma_protocol(root, 0);
    assert forall|j: int| 0 <= j && j < len - 3 implies !#[trigger] protocol_ends_at(start, j) by {
        assert(!protocol_ends_at(root, j));
    }
    assert(protocol_ends_at(root, len - 3));
    lemma_protocol_is(start, 0, len);
}

/// It makes no difference whether the path of a package or a rule is given with or without a slash in
/// front of it, nor whether the path of a package is given with or without one behind it.
pub proof fn lemma_outer_slashes_do_not_matter(
    protocol: OpaApiProtocol,
    node_name: Seq<char>,
    port: u16,
    package_path: Seq<char>,
    rule: Seq<char>,
)
    ensures
        rule_url(protocol, node_name, port, "/"@ + package_path, rule) == rule_url(
            protocol,
            node_name,
            port,
            package_path,
            rule,
        ),
        rule_url(protocol, node_name, port, package_path, "/"@ + rule) == rule_url(
            protocol,
            node_name,
            port,
            package_path,
            rule,
        ),
        rule_url(protocol, node_name, port, package_path + "/"@, rule) == rule_url(
            protocol,
            node_name,
            port,
            package_path,
            rule,
        ),
{
    reveal_strlit("/");
    reveal_strlit("data/");
    let root = api_root(protocol, node_name, port);
    let plain = root + ("data/"@ + package_path + "/"@ + rule);
    let before_path = root + "data/"@;
    lemma_start_keeps_protocol(protocol, node_name, port, "data/"@);
    assert(before_path.last() == '/');
    lemma_repeated_slash_is_ignored(before_path, package_path + "/"@ + rule);
    assert(before_path + (package_path + "/"@ + rule) =~= plain);
    assert(before_path + "/"@ + (package_path + "/"@ + rule) =~= root + ("data/"@ + ("/"@
        + package_path) + "/"@ + rule));
    let before_rule = root + ("data/"@ + package_path + "/"@);
    lemma_start_keeps_protocol(protocol, node_name, port, "data/"@ + package_path + "/"@);
    assert(before_rule.last() == '/');
    lemma_repeated_slash_is_ignored(before_rule, rule);
    assert(before_rule + rule =~= plain);
    assert(before_rule + "/"@ + rule =~= root + ("data/"@ + package_path + "/"@ + ("/"@ + rule)));
    assert(before_rule + "/"@ + rule =~= root + ("data/"@ + (package_path + "/"@) + "/"@ + rule));
}

/// The URL that `url::Url::parse` reads from a text, written out again, where it accepts the text.
pub uninterp spec fn parsed_url(text: Seq<char>) -> Option<Seq<char>>;

/// Reads a URL with `url::Url::parse` and writes it out again. Whether the text is accepted, and
/// what is written out, depend on the text alone. What the error is, is left open.
#[verifier::external_body]
fn parse_url(text: &str) -> (result: Result<String, url::ParseError>)
    ensures
        match result {
            Ok(url) => parsed_url(text@) == Some(url@),
            Err(_) => parsed_url(text@) is None,
        },
{
    url::Url::parse(text).map(|url| url.to_string())
}

/// Contains all necessary information to establish a connection with OPA. In contrast to e.g. the
/// ZooKeeper Operator, this will only be one node as reference.
#[derive(Clone, Debug)]
pub struct OpaConnectionInformation {
    /// A connection string as defined by OPA, for example:
    ///  - http://server1:8181
    ///  - https://secure-server:8181/v1/data/some-package/some-rule
    pub connection_string: String,
}

/// The labels of the Pods of a cluster.
pub open spec fn match_labels(name: Seq<char>) -> Map<Seq<char>, Seq<char>> {
    Map::empty().insert(APP_NAME_LABEL@, APP_NAME@).insert(APP_MANAGED_BY_LABEL@, MANAGED_BY@).insert(
        APP_INSTANCE_LABEL@,
        name,
    )
}

/// Build a label selector that applies only to pods belonging to the cluster instance referenced by
/// `name`.
pub fn get_match_labels(name: &str) -> (selector: LabelSelector)
    ensures
        selector.deep_view() == (LabelSelectorView {
            match_labels: Some(match_labels(name@)),
            match_expressions: None,
        }),
{
    let mut labels = StringMap::new();
    put(&mut labels, APP_NAME_LABEL, APP_NAME);
    put(&mut labels, APP_MANAGED_BY_LABEL, MANAGED_BY);
    put(&mut labels, APP_INSTANCE_LABEL, name);
    LabelSelector { match_labels: Some(labels), match_expressions: None }
}

/// The configured port of a role group, or the default one.
pub open spec fn opa_port(opa_spec: OpaSpecView, role_group: Seq<char>) -> u16 {
    if opa_spec.servers.role_groups.contains_key(role_group) {
        match opa_spec.servers.role_groups[role_group].config {
            Some(common) => match common.config {
                Some(config) => match config.port {
                    Some(port) => port,
                    None => DEFAULT_PORT,
                },
                None => DEFAULT_PORT,
            },
            None => DEFAULT_PORT,
        }
    } else {
        DEFAULT_PORT
    }
}

/// Retrieve the port for the specified role group from the cluster spec. Defaults to 8181.
pub fn get_opa_port(opa_spec: &OpaSpec, role_group: &str) -> (port: u16)
    ensures
        port == opa_port(opa_spec.deep_view(), role_group@),
{
    if let Some(group) = opa_spec.servers.role_groups.get(role_group) {
        if let Some(common) = &group.config {
            if let Some(config) = &common.config {
                if let Some(port) = config.port {
                    return port;
                }
            }
        }
    }
    DEFAULT_PORT
}

/// What matters of a Pod for a connection to it.
#[derive(Clone, Debug)]
pub struct OpaPod {
    pub name: String,
    /// The node that the Pod runs on. A Pod that is not scheduled yet has none.
    pub node_name: Option<String>,
    pub labels: StringMap,
}

/// The contents of an [`OpaPod`].
#[verifier::ext_equal]
pub struct OpaPodView {
    pub name: Seq<char>,
    pub node_name: Option<Seq<char>>,
    pub labels: Map<Seq<char>, Seq<char>>,
}

impl DeepView for OpaPod {
    type V = OpaPodView;

    open spec fn deep_view(&self) -> OpaPodView {
        OpaPodView {
            name: self.name@,
            node_name: self.node_name.deep_view(),
            labels: self.labels@,
        }
    }
}

/// The node and port at which a Pod is reached.
pub open spec fn server_of(opa_spec: OpaSpecView, pod: OpaPodView) -> Result<
    (Seq<char>, u16),
    ErrorView,
> {
    match pod.node_name {
        None => Err(ErrorView::PodWithoutHostname { pod: pod.name }),
        Some(node_name) => if pod.labels.contains_key(APP_ROLE_GROUP_LABEL@) {
            Ok((node_name, opa_port(opa_spec, pod.labels[APP_ROLE_GROUP_LABEL@])))
        } else {
            Err(
                ErrorView::PodMissingLabels {
                    pod: pod.name,
                    labels: seq![APP_ROLE_GROUP_LABEL@],
                },
            )
        },
    }
}

fn find_server(opa_spec: &OpaSpec, pod: &OpaPod) -> (result: OpaOperatorResult<(String, u16)>)
    ensures
        match server_of(opa_spec.deep_view(), pod.deep_view()) {
            Ok(expected) => result matches Ok(server) && server.deep_view() == expected,
            Err(expected) => result matches Err(error) && error.deep_view() == expected,
        },
{
    let node_name = match &pod.node_name {
        Some(node_name) => node_name,
        None => return Err(Error::PodWithoutHostname { pod: pod.name.clone() }),
    };
    match pod.labels.get(APP_ROLE_GROUP_LABEL) {
        Some(role_group) => Ok(
            (node_name.clone(), get_opa_port(opa_spec, role_group.as_str())),
        ),
        None => Err(
            Error::PodMissingLabels {
                pod: pod.name.clone(),
                labels: one_item(APP_ROLE_GROUP_LABEL.to_owned()),
            },
        ),
    }
}

/// The servers in order of their hosts, with one more. It comes after those of the same host.
pub open spec fn with_server(servers: Seq<(Seq<char>, u16)>, server: (Seq<char>, u16)) -> Seq<
    (Seq<char>, u16),
>
    decreases servers.len(),
{
    if servers.len() > 0 && before(server.0, servers.last().0) {
        with_server(servers.drop_last(), server).push(servers.last())
    } else {
        servers.push(server)
    }
}

/// Where to connect to.
pub enum Candidates {
    /// The server on the desired node.
    Desired(String, u16),
    /// All servers, in order of their hosts.
    Servers(Vec<(String, u16)>),
}

/// The contents of [`Candidates`].
#[verifier::ext_equal]
pub enum CandidatesView {
    Desired(Seq<char>, u16),
    Servers(Seq<(Seq<char>, u16)>),
}

impl DeepView for Candidates {
    type V = CandidatesView;

    open spec fn deep_view(&self) -> CandidatesView {
        match self {
            Candidates::Desired(node_name, port) => CandidatesView::Desired(node_name@, *port),
            Candidates::Servers(servers) => CandidatesView::Servers(servers.deep_view()),
        }
    }
}

/// Where to connect to: the first Pod on the desired node, or any Pod where there is none.
///
/// Pods are looked at in their order. One that cannot be used is an error, unless an earlier one is
/// on the desired node.
pub open spec fn candidates(
    opa_spec: OpaSpecView,
    pods: Seq<OpaPodView>,
    desired_node_name: Option<Seq<char>>,
) -> Result<CandidatesView, ErrorView>
    decreases pods.len(),
{
    if pods.len() == 0 {
        Ok(CandidatesView::Servers(Seq::empty()))
    } else {
        match candidates(opa_spec, pods.drop_last(), desired_node_name) {
            Err(error) => Err(error),
            Ok(CandidatesView::Desired(node_name, port)) => Ok(
                CandidatesView::Desired(node_name, port),
            ),
            Ok(CandidatesView::Servers(servers)) => match server_of(opa_spec, pods.last()) {
                Err(error) => Err(error),
                Ok(server) => if desired_node_name == Some(server.0) {
                    Ok(CandidatesView::Desired(server.0, server.1))
                } else {
                    Ok(CandidatesView::Servers(with_server(servers, server)))
                },
            },
        }
    }
}

proof fn lemma_candidates_decided(
    opa_spec: OpaSpecView,
    pods: Seq<OpaPodView>,
    desired_node_name: Option<Seq<char>>,
    n: int,
)
    requires
        0 <= n <= pods.len(),
        !(candidates(opa_spec, pods.take(n), desired_node_name) matches Ok(
            CandidatesView::Servers(_),
        )),
    ensures
        candidates(opa_spec, pods, desired_node_name) == candidates(
            opa_spec,
            pods.take(n),
            desired_node_name,
        ),
    decreases pods.len(),
{
    if n == pods.len() {
        assert(pods.take(n) =~= pods);
    } else {
        assert(pods.drop_last().take(n) =~= pods.take(n));
        lemma_candidates_decided(opa_spec, pods.drop_last(), desired_node_name, n);
    }
}

fn add_server(servers: &mut Vec<(String, u16)>, server: (String, u16))
    ensures
        final(servers).deep_view() == with_server(old(servers).deep_view(), server.deep_view()),
{
    let ghost listed = servers.deep_view();
    let ghost added = server.deep_view();
    let mut i: usize = servers.len();
    assert(listed.take(i as int) =~= listed);
    assert(listed.skip(i as int) =~= Seq::empty());
    assert(with_server(listed, added) =~= with_server(listed.take(i as int), added)
        + listed.skip(i as int));
    while i > 0 && is_before(server.0.as_str(), servers[i - 1].0.as_str())
        invariant
            i <= servers.len(),
            listed == servers.deep_view(),
            added == server.deep_view(),
            with_server(listed, added) == with_server(listed.take(i as int), added) + listed.skip(
                i as int,
            ),
        decreases i,
    {
        let ghost known = listed.take(i as int);
        assert(known.last() == servers[i - 1].deep_view());
        assert(known.drop_last() =~= listed.take(i - 1));
        assert(with_server(listed.take(i - 1), added).push(known.last()) + listed.skip(i as int)
            =~= with_server(listed.take(i - 1), added) + listed.skip(i - 1));
        i -= 1;
    }
    proof {
        let known = listed.take(i as int);
        if i > 0 {
            assert(known.last() == servers[i - 1].deep_view());
        }
        assert(with_server(known, added) =~= known.push(added));
    }
    servers.insert(i, server);
    assert(servers.deep_view() =~= listed.take(i as int).push(added) + listed.skip(i as int));
}

/// Finds where to connect to.
pub fn find_candidates(
    opa_spec: &OpaSpec,
    opa_pods: &Vec<OpaPod>,
    desired_node_name: &Option<String>,
) -> (result: OpaOperatorResult<Candidates>)
    ensures
        match candidates(
            opa_spec.deep_view(),
            opa_pods.deep_view(),
            desired_node_name.deep_view(),
        ) {
            Ok(expected) => result matches Ok(found) && found.deep_view() == expected,
            Err(expected) => result matches Err(error) && error.deep_view() == expected,
        },
{
    let ghost pods = opa_pods.deep_view();
    let ghost desired = desired_node_name.deep_view();
    let mut servers: Vec<(String, u16)> = no_items();
    let mut i: usize = 0;
    while i < opa_pods.len()
        invariant
            i <= opa_pods.len(),
            pods == opa_pods.deep_view(),
            desired == desired_node_name.deep_view(),
            candidates(opa_spec.deep_view(), pods.take(i as int), desired) == Ok::<_, ErrorView>(
                CandidatesView::Servers(servers.deep_view()),
            ),
        decreases opa_pods.len() - i,
    {
        let ghost known = pods.take(i + 1);
        assert(known.drop_last() =~= pods.take(i as int));
        assert(known.last() == opa_pods[i as int].deep_view());
        let server = match find_server(opa_spec, &opa_pods[i]) {
            Ok(server) => server,
            Err(error) => {
                proof {
                    lemma_candidates_decided(opa_spec.deep_view(), pods, desired, i + 1);
                }
                return Err(error);
            },
        };
        if let Some(desired_host) = desired_node_name {
            if equal(server.0.as_str(), desired_host.as_str()) {
                proof {
                    lemma_candidates_decided(opa_spec.deep_view(), pods, desired, i + 1);
                }
                return Ok(Candidates::Desired(server.0, server.1));
            }
        }
        add_server(&mut servers, server);
        i += 1;
    }
    assert(pods.take(i as int) =~= pods);
    Ok(Candidates::Servers(servers))
}

/// Whether servers are in order of their hosts.
pub open spec fn in_host_order(servers: Seq<(Seq<char>, u16)>) -> bool {
    forall|i: int, j: int|
        0 <= i < j < servers.len() ==> !before(
            #[trigger] servers[j].0,
            #[trigger] servers[i].0,
        )
}

proof fn lemma_server_added(servers: Seq<(Seq<char>, u16)>, server: (Seq<char>, u16))
    requires
        in_host_order(servers),
    ensures
        in_host_order(with_server(servers, server)),
        with_server(servers, server).to_multiset() == servers.to_multiset().insert(server),
        forall|i: int|
            0 <= i < with_server(servers, server).len() ==> servers.contains(
                #[trigger] with_server(servers, server)[i],
            ) || with_server(servers, server)[i] == server,
    decreases servers.len(),
{
    broadcast use vstd::seq_lib::group_to_multiset_ensures;

    let after = with_server(servers, server);
    if servers.len() > 0 && before(server.0, servers.last().0) {
        let rest = servers.drop_last();
        lemma_server_added(rest, server);
        let inner = with_server(rest, server);
        assert(rest.push(servers.last()) =~= servers);
        assert(after.to_multiset() =~= servers.to_multiset().insert(server));
        assert forall|i: int| 0 <= i < after.len() implies servers.contains(#[trigger] after[i])
            || after[i] == server by {
            if i < inner.len() {
                assert(after[i] == inner[i]);
                if inner[i] != server {
                    let k = choose|k: int| 0 <= k < rest.len() && rest[k] == inner[i];
                    assert(servers[k] == inner[i]);
                }
            } else {
                assert(servers[servers.len() - 1] == after[i]);
            }
        }
        assert forall|i: int, j: int| 0 <= i < j < after.len() implies !before(
            #[trigger] after[j].0,
            #[trigger] after[i].0,
        ) by {
            if j < inner.len() {
                assert(after[i] == inner[i] && after[j] == inner[j]);
            } else {
                assert(after[j] == servers.last());
                assert(after[i] == inner[i]);
                if inner[i] == server {
                    if before(after[j].0, server.0) {
                        lemma_before_transitive(server.0, after[j].0, server.0);
                        lemma_before_irreflexive(server.0);
                    }
                } else {
                    let k = choose|k: int| 0 <= k < rest.len() && rest[k] == inner[i];
                    assert(servers[k] == inner[i]);
                    assert(servers[servers.len() - 1] == after[j]);
                }
            }
        }
    } else {
        assert forall|i: int, j: int| 0 <= i < j < after.len() implies !before(
            #[trigger] after[j].0,
            #[trigger] after[i].0,
        ) by {
            if j < servers.len() {
                assert(after[i] == servers[i] && after[j] == servers[j]);
            } else {
                assert(after[j] == server);
                assert(after[i] == servers[i]);
                if before(server.0, servers[i].0) {
                    let last = servers.len() - 1;
                    if i < last {
                        lemma_before_total(servers[i].0, servers[last].0);
                        assert(!before(servers[last].0, servers[i].0));
                        if servers[i].0 != servers[last].0 {
                            lemma_before_transitive(server.0, servers[i].0, servers[last].0);
                        }
                    }
                }
            }
        }
        assert forall|i: int| 0 <= i < after.len() implies servers.contains(#[trigger] after[i])
            || after[i] == server by {
            if i < servers.len() {
                assert(servers[i] == after[i]);
            }
        }
    }
}

/// The servers of all Pods, in the order of the Pods.
pub open spec fn servers_of(opa_spec: OpaSpecView, pods: Seq<OpaPodView>) -> Seq<(Seq<char>, u16)> {
    pods.map_values(|pod: OpaPodView| server_of(opa_spec, pod)->Ok_0)
}

/// Without a Pod on the desired node, every Pod is a candidate, exactly once, and the candidates are
/// in order of their hosts.
pub proof fn lemma_candidates_are_all_pods_in_host_order(
    opa_spec: OpaSpecView,
    pods: Seq<OpaPodView>,
    desired_node_name: Option<Seq<char>>,
)
    ensures
        candidates(opa_spec, pods, desired_node_name) matches Ok(CandidatesView::Servers(servers))
            ==> {
            &&& in_host_order(servers)
            &&& servers.to_multiset() == servers_of(opa_spec, pods).to_multiset()
            &&& forall|i: int|
                0 <= i < pods.len() ==> (#[trigger] pods[i]).node_name is Some && pods[i].node_name
                    != desired_node_name
        },
    decreases pods.len(),
{
    broadcast use vstd::seq_lib::group_to_multiset_ensures;

    if pods.len() > 0 {
        lemma_candidates_are_all_pods_in_host_order(opa_spec, pods.drop_last(), desired_node_name);
        if let Ok(CandidatesView::Servers(servers)) = candidates(opa_spec, pods, desired_node_name) {
            let earlier = candidates(
                opa_spec,
                pods.drop_last(),
                desired_node_name,
            )->Ok_0->Servers_0;
            let server = server_of(opa_spec, pods.last())->Ok_0;
            lemma_server_added(earlier, server);
            assert(servers_of(opa_spec, pods) =~= servers_of(opa_spec, pods.drop_last()).push(
                server,
            ));
            assert forall|i: int| 0 <= i < pods.len() implies (
            #[trigger] pods[i]).node_name is Some && pods[i].node_name != desired_node_name by {
                if i < pods.len() - 1 {
                    assert(pods.drop_last()[i] == pods[i]);
                }
            }
        }
    } else {
        assert(servers_of(opa_spec, pods) =~= Seq::empty());
    }
}

/// A Pod on the desired node is preferred, where all Pods before it can be used.
pub proof fn lemma_desired_node_is_preferred(
    opa_spec: OpaSpecView,
    pods: Seq<OpaPodView>,
    node_name: Seq<char>,
    n: int,
)
    requires
        0 <= n < pods.len(),
        pods[n].node_name == Some(node_name),
        forall|i: int| 0 <= i <= n ==> server_of(opa_spec, #[trigger] pods[i]) is Ok,
    ensures
        candidates(opa_spec, pods, Some(node_name)) matches Ok(CandidatesView::Desired(node, _))
            && node == node_name,
{
    lemma_desired_found(opa_spec, pods.take(n + 1), node_name);
    lemma_candidates_decided(opa_spec, pods, Some(node_name), n + 1);
}

proof fn lemma_desired_found(opa_spec: OpaSpecView, pods: Seq<OpaPodView>, node_name: Seq<char>)
    requires
        pods.len() > 0,
        pods.last().node_name == Some(node_name),
        forall|i: int| 0 <= i < pods.len() ==> server_of(opa_spec, #[trigger] pods[i]) is Ok,
    ensures
        candidates(opa_spec, pods, Some(node_name)) matches Ok(CandidatesView::Desired(node, _))
            && node == node_name,
{
    lemma_usable_pods(opa_spec, pods.drop_last(), node_name);
}

proof fn lemma_usable_pods(opa_spec: OpaSpecView, pods: Seq<OpaPodView>, node_name: Seq<char>)
    requires
        forall|i: int| 0 <= i < pods.len() ==> server_of(opa_spec, #[trigger] pods[i]) is Ok,
    ensures
        match candidates(opa_spec, pods, Some(node_name)) {
            Ok(CandidatesView::Desired(node, _)) => node == node_name,
            Ok(CandidatesView::Servers(_)) => true,
            Err(_) => false,
        },
    decreases pods.len(),
{
    if pods.len() > 0 {
        lemma_usable_pods(opa_spec, pods.drop_last(), node_name);
        assert(server_of(opa_spec, pods[pods.len() - 1]) is Ok);
    }
}

/// Chooses one of the servers with `rand`'s `SliceRandom::choose`, driven by `rand::thread_rng`:
/// some server wherever there is one. Which one it is, is left to chance.
#[verifier::external_body]
fn choose_server(servers: &Vec<(String, u16)>) -> (server: Option<&(String, u16)>)
    ensures
        match server {
            Some(server) => servers@.contains(*server),
            None => servers@.len() == 0,
        },
{
    servers.choose(&mut rand::thread_rng())
}

/// The connection string for a server that was chosen, or an error where none could be.
pub fn connection_string_for(
    server: Option<&(String, u16)>,
    opa_api: &OpaApi,
    opa_api_protocol: &OpaApiProtocol,
) -> (result: OpaOperatorResult<String>)
    ensures
        match server {
            Some(server) => match parsed_url(
                opa_api.spec_clean_url(*opa_api_protocol, server.0@, server.1),
            ) {
                Some(url) => result matches Ok(text) && text@ == url,
                None => result matches Err(error) && error.deep_view() == ErrorView::UrlError,
            },
            None => result matches Err(error) && error.deep_view() == ErrorView::OpaServerMissing,
        },
{
    match server {
        Some(server) => opa_api.get_url(opa_api_protocol, server.0.as_str(), server.1),
        None => Err(Error::OpaServerMissing),
    }
}

/// Whether this is what comes of connecting to a server.
pub open spec fn connects_to(
    server: (Seq<char>, u16),
    opa_api: OpaApi,
    protocol: OpaApiProtocol,
    result: OpaOperatorResult<String>,
) -> bool {
    match parsed_url(opa_api.spec_clean_url(protocol, server.0, server.1)) {
        Some(url) => result matches Ok(text) && text@ == url,
        None => result matches Err(error) && error.deep_view() == ErrorView::UrlError,
    }
}

/// Whether this is what comes of connecting to one of the candidates.
pub open spec fn connects_to_candidate(
    found: CandidatesView,
    opa_api: OpaApi,
    protocol: OpaApiProtocol,
    result: OpaOperatorResult<String>,
) -> bool {
    match found {
        CandidatesView::Desired(node_name, port) => connects_to(
            (node_name, port),
            opa_api,
            protocol,
            result,
        ),
        CandidatesView::Servers(servers) => if servers.len() == 0 {
            result matches Err(error) && error.deep_view() == ErrorView::OpaServerMissing
        } else {
            exists|i: int|
                0 <= i < servers.len() && connects_to(
                    #[trigger] servers[i],
                    opa_api,
                    protocol,
                    result,
                )
        },
    }
}

/// Builds the actual connection string after all necessary information has been retrieved. As best
/// practice and to reduce network traffic and increase response time, if a node name is provided and
/// matches one of the pod node names, this one is selected. Without a match a random node is
/// returned.
///
/// # Arguments
///
/// * `opa_spec` - OpaSpec to retrieve different port configuration
/// * `opa_pods` - Pods belonging to the OPA cluster
/// * `opa_api` - The desired OPA endpoint like Data, Query, Policy etc.
/// * `opa_api_protocol` - The desired OPA endpoint protocol like HTTP or HTTPS
/// * `desired_node_name` - If node_name is provided we look for opa deployments on the same node name
///   to improve response time
pub fn get_opa_connection_string_from_pods(
    opa_spec: &OpaSpec,
    opa_pods: &Vec<OpaPod>,
    opa_api: &OpaApi,
    opa_api_protocol: &OpaApiProtocol,
    desired_node_name: &Option<String>,
) -> (result: OpaOperatorResult<String>)
    ensures
        match candidates(
            opa_spec.deep_view(),
            opa_pods.deep_view(),
            desired_node_name.deep_view(),
        ) {
            Ok(found) => connects_to_candidate(found, *opa_api, *opa_api_protocol, result),
            Err(expected) => result matches Err(error) && error.deep_view() == expected,
        },
{
    match find_candidates(opa_spec, opa_pods, desired_node_name) {
        Err(error) => Err(error),
        Ok(Candidates::Desired(node_name, port)) => opa_api.get_url(
            opa_api_protocol,
            node_name.as_str(),
            port,
        ),
        Ok(Candidates::Servers(servers)) => {
            let server = choose_server(&servers);
            let result = connection_string_for(server, opa_api, opa_api_protocol);
            proof {
                let listed = servers.deep_view();
                if let Some(server) = server {
                    let i = choose|i: int| 0 <= i < servers@.len() && servers@[i] == *server;
                    assert(listed[i] == servers[i].deep_view());
                    assert(connects_to(listed[i], *opa_api, *opa_api_protocol, result));
                } else {
                    assert(listed.len() == 0);
                }
            }
            result
        },
    }
}

/// Returns connection information for a Open Policy Agent custom resource.
///
/// # Arguments
///
/// * `opa_cluster` - The OPA custom resource that is referenced, or why it could not be fetched
/// * `opa_pods` - The Pods of that cluster, which are found by [`get_match_labels`], or why they could
///   not be listed. They are looked at only where the custom resource was fetched.
/// * `opa_api` - The desired OPA endpoint like Data, Query, Policy etc.
/// * `opa_api_protocol` - The desired OPA endpoint protocol like HTTP or HTTPS
/// * `node_name` - If node_name is provided we look for opa deployments on the same node name to
///   improve lookup speed
pub fn get_opa_connection_info(
    opa_cluster: Result<&OpaSpec, String>,
    opa_pods: Result<&Vec<OpaPod>, String>,
    opa_api: &OpaApi,
    opa_api_protocol: &OpaApiProtocol,
    node_name: &Option<String>,
) -> (result: OpaOperatorResult<OpaConnectionInformation>)
    ensures
        match (opa_cluster, opa_pods) {
            (Err(source), _) => result matches Err(error) && error.deep_view()
                == (ErrorView::OperatorFrameworkError { source: source@ }),
            (Ok(_), Err(source)) => result matches Err(error) && error.deep_view()
                == (ErrorView::OperatorFrameworkError { source: source@ }),
            (Ok(opa_spec), Ok(opa_pods)) => match candidates(
                opa_spec.deep_view(),
                opa_pods.deep_view(),
                node_name.deep_view(),
            ) {
                Ok(found) => connects_to_candidate(
                    found,
                    *opa_api,
                    *opa_api_protocol,
                    match result {
                        Ok(info) => Ok(info.connection_string),
                        Err(error) => Err(error),
                    },
                ),
                Err(expected) => result matches Err(error) && error.deep_view() == expected,
            },
        },
{
    let opa_spec = match check_opa_reference(opa_cluster) {
        Ok(opa_spec) => opa_spec,
        Err(error) => return Err(error),
    };
    let opa_pods = match opa_pods {
        Ok(opa_pods) => opa_pods,
        Err(source) => return Err(Error::OperatorFrameworkError { source }),
    };
    match get_opa_connection_string_from_pods(
        opa_spec,
        opa_pods,
        opa_api,
        opa_api_protocol,
        node_name,
    ) {
        Ok(connection_string) => Ok(OpaConnectionInformation { connection_string }),
        Err(error) => Err(error),
    }
}

/// Check whether the referenced OPA object was found. If it was, the object will be returned.
pub fn check_opa_reference(opa_cluster: Result<&OpaSpec, String>) -> (result: OpaOperatorResult<
    &OpaSpec,
>)
    ensures
        match opa_cluster {
            Ok(opa_spec) => result == Ok::<_, Error>(opa_spec),
            Err(source) => result matches Err(error) && error.deep_view()
                == (ErrorView::OperatorFrameworkError { source: source@ }),
        },
{
    match opa_cluster {
        Ok(opa_spec) => Ok(opa_spec),
        Err(source) => Err(Error::OperatorFrameworkError { source }),
    }
}

/// Whether a server is where a Pod runs: on the node of the Pod, at the port that is configured for the
/// role group that the Pod is labelled with, or at 8181 where none is.
pub open spec fn runs_at(opa_spec: OpaSpecView, pod: OpaPodView, server: (Seq<char>, u16)) -> bool {
    let groups = opa_spec.servers.role_groups;
    let group = pod.labels["app.kubernetes.io/role-group"@];
    let configured = groups.contains_key(group) && groups[group].config is Some
        && groups[group].config->0.config is Some && groups[group].config->0.config->0.port is Some;
    &&& pod.node_name == Some(server.0)
    &&& pod.labels.contains_key("app.kubernetes.io/role-group"@)
    &&& configured ==> server.1 == groups[group].config->0.config->0.port->0
    &&& !configured ==> server.1 == 8181
}

/// A Pod with a node and a role group label runs a server: on that node, at the port of that role
/// group. Any other Pod is refused, and the refusal names the Pod.
pub proof fn lemma_server_of_pod(opa_spec: OpaSpecView, pod: OpaPodView)
    ensures
        pod.node_name is Some && pod.labels.contains_key("app.kubernetes.io/role-group"@) ==> (
        server_of(opa_spec, pod) matches Ok(server) && runs_at(opa_spec, pod, server)),
        pod.node_name is None ==> server_of(opa_spec, pod) == Err::<(Seq<char>, u16), _>(
            ErrorView::PodWithoutHostname { pod: pod.name },
        ),
        pod.node_name is Some && !pod.labels.contains_key("app.kubernetes.io/role-group"@)
            ==> server_of(opa_spec, pod) == Err::<(Seq<char>, u16), _>(
            ErrorView::PodMissingLabels {
                pod: pod.name,
                labels: seq!["app.kubernetes.io/role-group"@],
            },
        ),
{
}

/// Whether a server is where one of the Pods runs.
pub open spec fn runs_in_some_pod(
    opa_spec: OpaSpecView,
    pods: Seq<OpaPodView>,
    server: (Seq<char>, u16),
) -> bool {
    exists|i: int| 0 <= i < pods.len() && runs_at(opa_spec, #[trigger] pods[i], server)
}

proof fn lemma_runs_in_more_pods(
    opa_spec: OpaSpecView,
    pods: Seq<OpaPodView>,
    server: (Seq<char>, u16),
)
    requires
        pods.len() > 0,
    ensures
        runs_in_some_pod(opa_spec, pods.drop_last(), server) ==> runs_in_some_pod(
            opa_spec,
            pods,
            server,
        ),
        runs_at(opa_spec, pods.last(), server) ==> runs_in_some_pod(opa_spec, pods, server),
{
    let rest = pods.drop_last();
    if runs_in_some_pod(opa_spec, rest, server) {
        let i = choose|i: int| 0 <= i < rest.len() && runs_at(opa_spec, #[trigger] rest[i], server);
        assert(runs_at(opa_spec, pods[i], server));
    }
    if runs_at(opa_spec, pods.last(), server) {
        assert(runs_at(opa_spec, pods[pods.len() - 1], server));
    }
}

/// Every candidate is where one of the Pods runs, and on the desired node where that was found.
/// Otherwise there are as many candidates as Pods.
#[verifier::rlimit(40)]
pub proof fn lemma_candidates_run_in_pods(
    opa_spec: OpaSpecView,
    pods: Seq<OpaPodView>,
    desired_node_name: Option<Seq<char>>,
)
    ensures
        match candidates(opa_spec, pods, desired_node_name) {
            Ok(CandidatesView::Desired(node_name, port)) => desired_node_name == Some(node_name)
                && runs_in_some_pod(opa_spec, pods, (node_name, port)),
            Ok(CandidatesView::Servers(servers)) => servers.len() == pods.len() && forall|s: int|
                0 <= s < servers.len() ==> runs_in_some_pod(opa_spec, pods, #[trigger] servers[s]),
            Err(_) => true,
        },
    decreases pods.len(),
{
    if pods.len() > 0 {
        let rest = pods.drop_last();
        lemma_candidates_run_in_pods(opa_spec, rest, desired_node_name);
        lemma_server_of_pod(opa_spec, pods.last());
        match candidates(opa_spec, rest, desired_node_name) {
            Ok(CandidatesView::Desired(node_name, port)) => {
                lemma_runs_in_more_pods(opa_spec, pods, (node_name, port));
            },
            Ok(CandidatesView::Servers(servers)) => {
                if let Ok(server) = server_of(opa_spec, pods.last()) {
                    lemma_runs_in_more_pods(opa_spec, pods, server);
                    let after = with_server(servers, server);
                    lemma_with_server(servers, server);
                    assert forall|s: int| 0 <= s < after.len() implies runs_in_some_pod(
                        opa_spec,
                        pods,
                        #[trigger] after[s],
                    ) by {
                        lemma_runs_in_more_pods(opa_spec, pods, after[s]);
                        if after[s] != server {
                            assert(servers.contains(after[s]));
                            let t = choose|t: int|
                                0 <= t < servers.len() && servers[t] == after[s];
                            assert(runs_in_some_pod(opa_spec, rest, servers[t]));
                        }
                    }
                }
            },
            Err(_) => {},
        }
    }
}

proof fn lemma_with_server(servers: Seq<(Seq<char>, u16)>, server: (Seq<char>, u16))
    ensures
        with_server(servers, server).len() == servers.len() + 1,
        forall|s: int|
            0 <= s < servers.len() + 1 ==> (#[trigger] with_server(servers, server)[s]) == server
                || servers.contains(with_server(servers, server)[s]),
    decreases servers.len(),
{
    let after = with_server(servers, server);
    if servers.len() > 0 && before(server.0, servers.last().0) {
        let rest = servers.drop_last();
        lemma_with_server(rest, server);
        let inner = with_server(rest, server);
        assert forall|s: int| 0 <= s < after.len() implies (#[trigger] after[s]) == server
            || servers.contains(after[s]) by {
            if s == inner.len() {
                assert(servers[servers.len() - 1] == after[s]);
            } else {
                assert(after[s] == inner[s]);
                if inner[s] != server {
                    let t = choose|t: int| 0 <= t < rest.len() && rest[t] == inner[s];
                    assert(servers[t] == after[s]);
                }
            }
        }
    } else {
        assert forall|s: int| 0 <= s < after.len() implies (#[trigger] after[s]) == server
            || servers.contains(after[s]) by {
            if s < servers.len() {
                assert(after[s] == servers[s]);
            }
        }
    }
}

/// The URL of an API call names the protocol, the node, the port and the version of the API, then what
/// is called. It is used as it is, unless a slash is repeated.
#[verifier::rlimit(40)]
pub proof fn lemma_api_url(
    api: OpaApi,
    protocol: OpaApiProtocol,
    node_name: Seq<char>,
    port: u16,
)
    ensures
        ({
            let scheme = if protocol == OpaApiProtocol::Https {
                "https"@
            } else {
                "http"@
            };
            let call = match api {
                OpaApi::Policy { id } => "policies/"@ + id@,
                OpaApi::Data { package_path, rule } => "data/"@ + package_path@ + "/"@ + rule@,
                OpaApi::Query { params } => "query?q="@ + params_text(params@),
                OpaApi::Compile => "compile"@,
            };
            let path = node_name + ":"@ + decimal(port as nat) + "/v1/"@ + call;
            no_double_slash(path) ==> api.spec_clean_url(protocol, node_name, port) == scheme
                + "://"@ + path
        }),
{
    let scheme = protocol.spec_name();
    let call = api.spec_endpoint();
    let path = node_name + ":"@ + decimal(port as nat) + "/v1/"@ + call;
    let url = api_root(protocol, node_name, port) + call;
    assert("/"@ + OPA_URL_VERSION@ + "/"@ == "/v1/"@) by {
        reveal_strlit("/");
        reveal_strlit("v1");
        reveal_strlit("/v1/");
        assert("/"@ + OPA_URL_VERSION@ + "/"@ =~= "/v1/"@);
    }
    assert(url =~= scheme + "://"@ + node_name + ":"@ + decimal(port as nat) + ("/"@
        + OPA_URL_VERSION@ + "/"@) + call);
    assert(url =~= scheme + "://"@ + path);
    lemma_start_keeps_protocol(protocol, node_name, port, call);
    lemma_protocol(url, 0);
    let len = scheme.len() + 3;
    reveal_strlit("http");
    reveal_strlit("https");
    reveal_strlit("://");
    assert forall|j: int| 0 <= j && j < len - 3 implies !#[trigger] protocol_ends_at(url, j) by {
        assert(url[j] == scheme[j]);
    }
    assert(url[len - 3] == ':' && url[len - 2] == '/' && url[len - 1] == '/');
    lemma_protocol_is(url, 0, len);
    assert(url.skip(protocol_len(url) as int) =~= path);
    if no_double_slash(path) {
        lemma_clean_url_is_kept(url);
    }
}

/// Parameters are joined as `name=value`, in the order of their names, with semicolons in between.
pub proof fn lemma_params(params: Map<Seq<char>, Seq<char>>)
    requires
        params.dom().finite(),
    ensures
        params_text(params) == joined(
            Seq::new(
                listing(params).len(),
                |i: int| listing(params)[i].0 + "="@ + listing(params)[i].1,
            ),
            ";"@,
        ),
        ascending(listing(params)),
{
    lemma_listing_of_finite_map(params);
    let texts = listing(params).map_values(|param: (Seq<char>, Seq<char>)| param_text(param));
    assert(texts =~= Seq::new(
        listing(params).len(),
        |i: int| listing(params)[i].0 + "="@ + listing(params)[i].1,
    ));
}

/// The Pods of a cluster are found by the product, the operator and the name of the cluster.
pub proof fn lemma_match_labels(name: Seq<char>)
    ensures
        match_labels(name) =~= map![
            "app.kubernetes.io/name"@ => "opa"@,
            "app.kubernetes.io/managed-by"@ => "stackable-opa"@,
            "app.kubernetes.io/instance"@ => name,
        ],
{
    crate::labels::lemma_label_keys_differ();
}

/// The first Pod without node or role group label is reported, unless the desired node was found before
/// it.
pub proof fn lemma_refused_pod_is_reported(
    opa_spec: OpaSpecView,
    pods: Seq<OpaPodView>,
    desired_node_name: Option<Seq<char>>,
    n: int,
)
    requires
        0 <= n < pods.len(),
        server_of(opa_spec, pods[n]) is Err,
        forall|i: int|
            0 <= i < n ==> server_of(opa_spec, #[trigger] pods[i]) is Ok && pods[i].node_name
                != desired_node_name,
    ensures
        candidates(opa_spec, pods, desired_node_name) == Err::<CandidatesView, _>(
            server_of(opa_spec, pods[n])->Err_0,
        ),
{
    lemma_no_desired_pod(opa_spec, pods.take(n), desired_node_name);
    assert(pods.take(n + 1).drop_last() =~= pods.take(n));
    lemma_candidates_decided(opa_spec, pods, desired_node_name, n + 1);
}

proof fn lemma_no_desired_pod(
    opa_spec: OpaSpecView,
    pods: Seq<OpaPodView>,
    desired_node_name: Option<Seq<char>>,
)
    requires
        forall|i: int|
            0 <= i < pods.len() ==> server_of(opa_spec, #[trigger] pods[i]) is Ok
                && pods[i].node_name != desired_node_name,
    ensures
        candidates(opa_spec, pods, desired_node_name) matches Ok(CandidatesView::Servers(_)),
    decreases pods.len(),
{
    if pods.len() > 0 {
        let rest = pods.drop_last();
        assert forall|i: int| 0 <= i < rest.len() implies server_of(opa_spec, #[trigger] rest[i])
            is Ok && rest[i].node_name != desired_node_name by {
            assert(rest[i] == pods[i]);
        }
        lemma_no_desired_pod(opa_spec, rest, desired_node_name);
        assert(pods[pods.len() - 1] == pods.last());
        lemma_server_of_pod(opa_spec, pods.last());
    }
}

/// Of several Pods on the desired node the first one is connected to, at the port of its role group.
pub proof fn lemma_first_pod_on_desired_node(
    opa_spec: OpaSpecView,
    pods: Seq<OpaPodView>,
    node_name: Seq<char>,
    n: int,
)
    requires
        0 <= n < pods.len(),
        pods[n].node_name == Some(node_name),
        server_of(opa_spec, pods[n]) is Ok,
        forall|i: int|
            0 <= i < n ==> server_of(opa_spec, #[trigger] pods[i]) is Ok && pods[i].node_name
                != Some(node_name),
    ensures
        candidates(opa_spec, pods, Some(node_name)) matches Ok(CandidatesView::Desired(node, port))
            && node == node_name && runs_at(opa_spec, pods[n], (node_name, port)),
{
    lemma_no_desired_pod(opa_spec, pods.take(n), Some(node_name));
    assert(pods.take(n + 1).drop_last() =~= pods.take(n));
    assert(pods.take(n + 1).last() == pods[n]);
    lemma_server_of_pod(opa_spec, pods[n]);
    lemma_candidates_decided(opa_spec, pods, Some(node_name), n + 1);
}

/// A server is put behind all that come before it or are on the same host, and in front of all others,
/// which stay as they are.
pub proof fn lemma_place_of_server(
    servers: Seq<(Seq<char>, u16)>,
    server: (Seq<char>, u16),
) -> (place: int)
    requires
        in_host_order(servers),
    ensures
        0 <= place <= servers.len(),
        with_server(servers, server) == servers.take(place).push(server) + servers.skip(place),
        forall|i: int| 0 <= i < place ==> !before(server.0, #[trigger] servers[i].0),
        forall|i: int| place <= i < servers.len() ==> before(server.0, #[trigger] servers[i].0),
    decreases servers.len(),
{
    if servers.len() > 0 && before(server.0, servers.last().0) {
        let rest = servers.drop_last();
        assert forall|i: int, j: int| 0 <= i < j < rest.len() implies !before(
            #[trigger] rest[j].0,
            #[trigger] rest[i].0,
        ) by {
            assert(rest[i] == servers[i] && rest[j] == servers[j]);
        }
        let place = lemma_place_of_server(rest, server);
        assert(with_server(servers, server) =~= servers.take(place).push(server) + servers.skip(
            place,
        )) by {
            assert(rest.take(place) =~= servers.take(place));
            assert(rest.skip(place).push(servers.last()) =~= servers.skip(place));
        }
        assert forall|i: int| 0 <= i < place implies !before(server.0, #[trigger] servers[i].0) by {
            assert(rest[i] == servers[i]);
        }
        assert forall|i: int| place <= i < servers.len() implies before(
            server.0,
            #[trigger] servers[i].0,
        ) by {
            if i < rest.len() {
                assert(rest[i] == servers[i]);
            }
        }
        place
    } else {
        let place = servers.len() as int;
        assert(with_server(servers, server) =~= servers.take(place).push(server) + servers.skip(
            place,
        ));
        assert forall|i: int| 0 <= i < place implies !before(server.0, #[trigger] servers[i].0) by {
            if before(server.0, servers[i].0) && i < servers.len() - 1 {
                let last = servers[servers.len() - 1].0;
                assert(!before(last, servers[i].0));
                lemma_before_total(last, servers[i].0);
                if servers[i].0 != last {
                    lemma_before_transitive(server.0, servers[i].0, last);
                }
            }
        }
        place
    }
}

} // verus!
