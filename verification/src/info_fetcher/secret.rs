//! A string that must not end up in a log line.
use vstd::prelude::*;
use vstd::std_specs::convert::FromSpecImpl;

verus! {

/// What [`Secret`] renders as instead of the value it holds.
pub const REDACTED: &'static str = "[redacted]";

/// A formatter of the standard library. Nothing is known of what is inside.
#[verifier::external_type_specification]
#[verifier::external_body]
pub struct ExFormatter<'a>(core::fmt::Formatter<'a>);

/// The error of a formatter. Nothing is known of what is inside.
#[verifier::external_type_specification]
#[verifier::external_body]
pub struct ExFormatError(core::fmt::Error);

/// What was written to a formatter so far.
pub uninterp spec fn written(formatter: core::fmt::Formatter<'_>) -> Seq<char>;

/// The standard library's `Formatter::write_str`: where it succeeds, the text is written as it is,
/// after what was written before.
pub assume_specification<'a>[ core::fmt::Formatter::<'a>::write_str ](
    formatter: &mut core::fmt::Formatter<'a>,
    data: &str,
) -> (result: core::fmt::Result)
    ensures
        result is Ok ==> written(*final(formatter)) == written(*old(formatter)) + data@,
;

/// A credential (an access token, a client secret) that refuses to print itself.
///
/// The fetchers log liberally, and a derived `Debug` on a struct holding a bearer token is one step
/// away from writing that token to the log file the Vector agent ships off the node. Wrapping the
/// value means the leak has to be an explicit decision ([`Secret::expose`]) rather than an accident:
/// the type cannot be displayed, and its `Debug` renders [`REDACTED`], so every struct that holds one
/// can keep deriving `Debug` safely.
#[derive(PartialEq, Eq)]
pub struct Secret(String);

impl View for Secret {
    type V = Seq<char>;

    closed spec fn view(&self) -> Seq<char> {
        self.0@
    }
}

impl DeepView for Secret {
    type V = Seq<char>;

    open spec fn deep_view(&self) -> Seq<char> {
        self@
    }
}

impl Secret {
    /// A secret with this value.
    pub fn new(value: String) -> (secret: Secret)
        ensures
            secret@ == value@,
    {
        Secret(value)
    }

    /// Hands out the secret itself, for the one thing it is good for: sending it to the party it
    /// authenticates us with.
    ///
    /// Every call is a place the secret can leak, so there should be few of them and each should be
    /// obviously a request being built.
    pub fn expose(&self) -> (value: &str)
        ensures
            value@ == self@,
    {
        self.0.as_str()
    }

    /// Whether two secrets have the same value.
    pub fn same_as(&self, other: &Secret) -> (same: bool)
        ensures
            same == (self@ == other@),
    {
        self.0 == other.0
    }
}

impl Clone for Secret {
    fn clone(&self) -> (copy: Self)
        ensures
            copy@ == self@,
    {
        Secret(self.0.clone())
    }
}

impl core::fmt::Debug for Secret {
    /// Renders [`REDACTED`], whatever the value is.
    fn fmt(&self, f: &mut core::fmt::Formatter<'_>) -> (result: core::fmt::Result)
        ensures
            result is Ok ==> written(*final(f)) == written(*old(f)) + REDACTED@,
    {
        f.write_str(REDACTED)
    }
}

impl From<String> for Secret {
    fn from(secret: String) -> (result: Self)
        ensures
            result@ == secret@,
    {
        Secret(secret)
    }
}

impl FromSpecImpl<String> for Secret {
    open spec fn obeys_from_spec() -> bool {
        true
    }

    closed spec fn from_spec(secret: String) -> Self {
        Secret(secret)
    }
}

impl<'a> From<&'a str> for Secret {
    fn from(secret: &'a str) -> (result: Self)
        ensures
            result@ == secret@,
    {
        Secret(secret.to_owned())
    }
}

impl<'a> FromSpecImpl<&'a str> for Secret {
    open spec fn obeys_from_spec() -> bool {
        false
    }

    open spec fn from_spec(secret: &'a str) -> Self {
        arbitrary()
    }
}

} // verus!
