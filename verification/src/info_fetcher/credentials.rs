//! Reading the credentials the info-fetcher backends authenticate with.
use crate::info_fetcher::secret::Secret;
use crate::text::{is_white_space, lemma_trimmed_is_inner_run, trim, trimmed};
use vstd::prelude::*;

verus! {

/// Why a credential could not be read.
#[derive(Clone, Debug, PartialEq, Eq)]
pub enum Error {
    /// The file could not be read.
    ReadFile { source: String, path: String },
}

impl Error {
    /// What the error says: it names the path that was looked at.
    pub fn message(&self) -> (message: String)
        ensures
            self matches Error::ReadFile { path, .. } && message@
                == "failed to read the credential file \""@ + path@ + "\""@,
    {
        match self {
            Error::ReadFile { path, .. } => {
                let mut message = "failed to read the credential file \"".to_owned();
                message.append(path.as_str());
                message.append("\"");
                message
            },
        }
    }
}

/// The credential in a file, or that it could not be read.
pub open spec fn credential(contents: Result<String, String>) -> Option<Seq<char>> {
    match contents {
        Ok(text) => Some(trimmed(text@)),
        Err(_) => None,
    }
}

/// Whether an error reports that a file could not be read.
pub open spec fn reports(error: Error, contents: Result<String, String>, path: Seq<char>) -> bool {
    match (error, contents) {
        (Error::ReadFile { source, path: reported }, Err(reason)) => reported@ == path && source@
            == reason@,
        _ => false,
    }
}

/// Reads a single credential (an access token, a client secret, an LDAP bind password) from the
/// contents of the file it is mounted at, or reports why they could not be read.
///
/// Surrounding whitespace is trimmed. Credentials come from Secrets, whose values are routinely
/// produced with `echo`, `kubectl create secret --from-file` or an editor, all of which append a
/// trailing newline that is not part of the credential. Every use we make of one carries that newline
/// through verbatim, so the credential is rejected by the other side, with an error that says nothing
/// about the newline being the cause.
pub fn read_credential_file(path: &str, contents: Result<String, String>) -> (result: Result<
    String,
    Error,
>)
    ensures
        match credential(contents) {
            Some(expected) => result matches Ok(text) && text@ == expected,
            None => result matches Err(error) && reports(error, contents, path@),
        },
{
    match contents {
        Ok(text) => Ok(trim(text.as_str())),
        Err(source) => Err(Error::ReadFile { source, path: path.to_owned() }),
    }
}

/// A credential that is mounted as a file, held in memory, and re-read when whoever it authenticates
/// us with rejects it.
///
/// Kubernetes propagates a changed Secret into the container within about a minute, so the file on
/// disk is already correct long before anything restarts the process. Nothing re-reads it though, so
/// a rotated or revoked credential would otherwise not take effect until the Pod restarts, and there
/// is nothing that would restart it: the platform's restart controller only watches StatefulSets,
/// while OPA runs as a DaemonSet. Re-reading on rejection closes that gap without a restart.
#[derive(Debug)]
pub struct FileCredential {
    /// `None` for a credential that did not come from a file and therefore cannot be refreshed.
    path: Option<String>,
    cached: Secret,
}

/// What is known of a [`FileCredential`].
#[verifier::ext_equal]
pub struct FileCredentialView {
    pub path: Option<Seq<char>>,
    pub cached: Seq<char>,
}

impl View for FileCredential {
    type V = FileCredentialView;

    closed spec fn view(&self) -> FileCredentialView {
        FileCredentialView { path: self.path.deep_view(), cached: self.cached@ }
    }
}

/// The credential that a reload brings up, where it is another one than is held.
pub open spec fn refreshed(held: FileCredentialView, contents: Result<String, String>) -> Option<
    Seq<char>,
> {
    match (held.path, credential(contents)) {
        (Some(_), Some(found)) => if found == held.cached {
            None
        } else {
            Some(found)
        },
        _ => None,
    }
}

impl FileCredential {
    /// Takes the credential from the contents of the file at `path`, see [`read_credential_file`].
    pub fn load(path: String, contents: Result<String, String>) -> (result: Result<Self, Error>)
        ensures
            match credential(contents) {
                Some(expected) => result matches Ok(loaded) && loaded@ == (FileCredentialView {
                    path: Some(path@),
                    cached: expected,
                }),
                None => result matches Err(error) && reports(error, contents, path@),
            },
    {
        match read_credential_file(path.as_str(), contents) {
            Ok(secret) => Ok(FileCredential { path: Some(path), cached: Secret::new(secret) }),
            Err(error) => Err(error),
        }
    }

    /// A credential with no file behind it, which therefore never changes and is never re-read.
    pub fn fixed(secret: Secret) -> (credential: Self)
        ensures
            credential@ == (FileCredentialView { path: None, cached: secret@ }),
    {
        FileCredential { path: None, cached: secret }
    }

    /// The file that the credential comes from.
    pub fn file(&self) -> (path: Option<&str>)
        ensures
            match path {
                Some(path) => self@.path == Some(path@),
                None => self@.path is None,
            },
    {
        match &self.path {
            Some(path) => Some(path.as_str()),
            None => None,
        }
    }

    /// The credential as it was last read.
    pub fn get(&self) -> (secret: Secret)
        ensures
            secret@ == self@.cached,
    {
        self.cached.clone()
    }

    /// Takes the credential from the contents of its file anew, returning it only when it differs
    /// from the one held.
    ///
    /// `None` means there is nothing new to try: either the file is unchanged, or there is no file to
    /// read. Whoever rejected the credential would reject the same value again, so the caller should
    /// not spend a second request on it.
    pub fn reload(&mut self, contents: Result<String, String>) -> (result: Result<Option<Secret>, Error>)
        ensures
            final(self)@.path == old(self)@.path,
            match refreshed(old(self)@, contents) {
                Some(expected) => result matches Ok(Some(secret)) && secret@ == expected
                    && final(self)@.cached == expected,
                None => final(self)@ == old(self)@ && match (old(self)@.path, contents) {
                    (Some(path), Err(_)) => result matches Err(error) && reports(
                        error,
                        contents,
                        path,
                    ),
                    _ => result matches Ok(None),
                },
            },
    {
        let refreshed = match &self.path {
            None => return Ok(None),
            Some(path) => match read_credential_file(path.as_str(), contents) {
                Ok(refreshed) => Secret::new(refreshed),
                Err(error) => return Err(error),
            },
        };
        if self.cached.same_as(&refreshed) {
            return Ok(None);
        }
        self.cached = refreshed.clone();
        Ok(Some(refreshed))
    }

    /// Decides how to go on after the credential was used. `rejected` says whether the other side
    /// turned it down.
    pub fn after_use<T, E>(outcome: Result<T, E>, rejected: bool) -> (next: AfterUse<T, E>)
        ensures
            next == match outcome {
                Ok(value) => AfterUse::Finished(Ok(value)),
                Err(error) => if rejected {
                    AfterUse::Reload(error)
                } else {
                    AfterUse::Finished(Err(error))
                },
            },
    {
        match outcome {
            Ok(value) => AfterUse::Finished(Ok(value)),
            Err(error) => {
                if rejected {
                    AfterUse::Reload(error)
                } else {
                    AfterUse::Finished(Err(error))
                }
            },
        }
    }

    /// Decides how to go on after the credential was rejected with `error` and reloaded from the
    /// contents of its file.
    ///
    /// The call is made once more only with another credential than the rejected one. A credential
    /// that is unchanged would only be rejected again, and one that cannot be read leaves us with the
    /// one already held. The original rejection is what the caller needs to see then.
    pub fn use_with_retry<E>(&mut self, error: E, contents: Result<String, String>) -> (retry: Result<
        Secret,
        E,
    >)
        ensures
            final(self)@.path == old(self)@.path,
            match refreshed(old(self)@, contents) {
                Some(expected) => retry matches Ok(secret) && secret@ == expected
                    && final(self)@.cached == expected,
                None => retry == Err::<Secret, _>(error) && final(self)@ == old(self)@,
            },
    {
        match self.reload(contents) {
            Ok(Some(refreshed)) => Ok(refreshed),
            Ok(None) => Err(error),
            Err(_) => Err(error),
        }
    }
}

/// How to go on after a credential was used.
pub enum AfterUse<T, E> {
    /// The outcome stands.
    Finished(Result<T, E>),
    /// The credential was rejected with this error, and should be reloaded.
    Reload(E),
}

/// A retry is never made with the credential that was rejected, and none is made with a fixed one.
pub proof fn lemma_retry_uses_another_credential(
    held: FileCredentialView,
    contents: Result<String, String>,
)
    ensures
        refreshed(held, contents) matches Some(retried) ==> retried != held.cached,
        held.path is None ==> refreshed(held, contents) is None,
{
}

/// A credential is what its file holds, without white space around it.
pub proof fn lemma_credential_is_trimmed(text: String)
    ensures
        credential(Ok(text)) is Some,
        credential(Ok(text))->0.len() > 0 ==> !is_white_space(credential(Ok(text))->0[0])
            && !is_white_space(credential(Ok(text))->0.last()),
        exists|from: int, to: int|
            0 <= from <= to <= text@.len() && credential(Ok(text))->0
                == #[trigger] text@.subrange(from, to) && (forall|i: int|
                0 <= i < from ==> is_white_space(text@[i])) && (forall|i: int|
                to <= i < text@.len() ==> is_white_space(text@[i])),
{
    lemma_trimmed_is_inner_run(text@);
}

/// A retry is made exactly where the file could be read and now holds another credential than the one
/// that is held. It is made with that one.
pub proof fn lemma_retry_uses_what_the_file_holds(
    held: FileCredentialView,
    contents: Result<String, String>,
)
    ensures
        refreshed(held, contents) is Some <==> held.path is Some && contents is Ok && credential(
            contents,
        ) != Some(held.cached),
        refreshed(held, contents) is Some ==> refreshed(held, contents) == credential(contents),
{
}

} // verus!
