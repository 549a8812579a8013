//! What the info fetchers have in common.
use moka::future::Cache;
use moka::Expiry;
use stackable_opa_operator::duration;
use stackable_opa_operator::info_fetcher::cache::{
    CachedResponse, FailureExpiry, FAILURE_TIME_TO_LIVE,
};
use stackable_opa_operator::info_fetcher::config::{read_config_file, ConfigError, FileFailure};
use stackable_opa_operator::info_fetcher::credentials;
use stackable_opa_operator::info_fetcher::credentials::{read_credential_file, FileCredential};
use stackable_opa_operator::info_fetcher::http;
use stackable_opa_operator::info_fetcher::http::{
    client_builder, error_for_status, is_unauthorized, receive_json, send_json_request, Response,
};
use stackable_opa_operator::info_fetcher::secret::{Secret, REDACTED};
use stackable_opa_operator::info_fetcher::telemetry::{
    create_file_log_directory, file_log_directory, CreateFileLogDirectoryError,
};
use stackable_opa_operator::info_fetcher::token;
use stackable_opa_operator::info_fetcher::token::{
    CachedToken, MintedToken, OAuthResponse, EXPIRY_MARGIN,
};
use std::sync::atomic::{AtomicUsize, Ordering};
use std::sync::Arc;
use std::time::{Duration, Instant};

// The cache.

struct TestExpiry(FailureExpiry);

impl Expiry<String, CachedResponse<String, LookupFailed>> for TestExpiry {
    fn expire_after_create(
        &self,
        _key: &String,
        response: &CachedResponse<String, LookupFailed>,
        _created_at: Instant,
    ) -> Option<Duration> {
        self.0.time_to_live_for(response).map(|limit| Duration::new(limit.secs, limit.nanos))
    }
}

#[derive(Debug)]
struct LookupFailed;

type TestCache = Cache<String, CachedResponse<String, LookupFailed>>;

fn millis(millis: u64) -> duration::Duration {
    let duration = Duration::from_millis(millis);
    duration::Duration { secs: duration.as_secs(), nanos: duration.subsec_nanos() }
}

fn cache(failure_time_to_live_millis: u64) -> TestCache {
    Cache::builder()
        .name("test")
        .time_to_live(Duration::from_secs(600))
        .expire_after(TestExpiry(FailureExpiry {
            failure_time_to_live: millis(failure_time_to_live_millis),
        }))
        .build()
}

fn failure() -> CachedResponse<String, LookupFailed> {
    CachedResponse::Failed(Arc::new(LookupFailed))
}

#[derive(Default)]
struct Loads(AtomicUsize);

impl Loads {
    async fn load(
        &self,
        response: CachedResponse<String, LookupFailed>,
    ) -> CachedResponse<String, LookupFailed> {
        self.0.fetch_add(1, Ordering::SeqCst);
        response
    }

    fn count(&self) -> usize {
        self.0.load(Ordering::SeqCst)
    }
}

fn run(future: impl std::future::Future<Output = ()>) {
    tokio::runtime::Builder::new_current_thread()
        .enable_all()
        .build()
        .expect("current-thread tokio runtime")
        .block_on(future)
}

#[test]
fn a_failed_lookup_is_served_from_the_cache() {
    run(async {
        let cache = cache(60_000);
        let loads = Loads::default();
        let request = "broken".to_owned();

        for _ in 0..3 {
            cache.get_with_by_ref(&request, loads.load(failure())).await;
        }

        assert_eq!(loads.count(), 1);
    })
}

#[test]
fn a_failed_lookup_is_forgotten_again_quickly() {
    run(async {
        let cache = cache(50);
        let loads = Loads::default();
        let request = "broken".to_owned();

        cache.get_with_by_ref(&request, loads.load(failure())).await;
        tokio::time::sleep(Duration::from_millis(100)).await;
        cache.run_pending_tasks().await;
        cache.get_with_by_ref(&request, loads.load(failure())).await;

        assert_eq!(loads.count(), 2);
    })
}

#[test]
fn a_successful_lookup_keeps_the_configured_time_to_live() {
    run(async {
        let cache = cache(50);
        let loads = Loads::default();
        let request = "known".to_owned();
        let found = CachedResponse::Found("the answer".to_owned());

        cache.get_with_by_ref(&request, loads.load(found.clone())).await;
        tokio::time::sleep(Duration::from_millis(100)).await;
        cache.run_pending_tasks().await;
        cache.get_with_by_ref(&request, loads.load(found)).await;

        assert_eq!(loads.count(), 1);
    })
}

#[test]
fn failures_live_for_five_seconds() {
    assert_eq!(FAILURE_TIME_TO_LIVE, 5);
    let expiry = FailureExpiry::new();
    assert_eq!(expiry.time_to_live_for(&failure()), Some(millis(5_000)));
    let found: CachedResponse<String, LookupFailed> = CachedResponse::Found("x".to_owned());
    assert_eq!(expiry.time_to_live_for(&found), None);
}

#[test]
fn copies_of_a_failure_share_the_error() {
    let response: CachedResponse<String, String> =
        CachedResponse::Failed(Arc::new("denied".to_owned()));
    match (&response, response.clone()) {
        (CachedResponse::Failed(error), CachedResponse::Failed(copy)) => {
            assert!(Arc::ptr_eq(error, &copy));
            assert_eq!(*copy, "denied");
        }
        _ => panic!("a failure stays one"),
    }
}

// Secrets.

#[test]
fn debug_does_not_render_the_secret() {
    let secret = Secret::from("hunter2");

    assert_eq!(format!("{secret:?}"), REDACTED);
}

#[test]
fn debug_of_a_surrounding_struct_does_not_render_the_secret() {
    #[derive(Debug)]
    #[allow(dead_code)]
    struct Holder {
        secret: Secret,
    }

    let rendered = format!("{:?}", Holder { secret: Secret::from("hunter2") });

    assert!(
        !rendered.contains("hunter2"),
        "the secret must not be rendered, but was: {rendered}"
    );
}

#[test]
fn deserializes_from_the_bare_string() {
    let text: String =
        serde_json::from_str(r#""hunter2""#).expect("a JSON string deserializes into a secret");
    let secret = Secret::from(text);

    assert_eq!(secret.expose(), "hunter2");
}

#[test]
fn secrets_are_compared_by_value() {
    assert!(Secret::from("a").same_as(&Secret::from("a")));
    assert!(!Secret::from("a").same_as(&Secret::from("b")));
    assert_eq!(Secret::from("a").clone(), Secret::new("a".to_owned()));
}

// Credentials.

const PATH: &str = "/stackable/credentials/clientSecret";

fn file_credential(contents: &str) -> FileCredential {
    FileCredential::load(PATH.to_owned(), Ok(contents.to_owned()))
        .expect("the credential file is readable")
}

#[test]
fn reloading_picks_up_a_rotated_credential() {
    let mut credential = file_credential("old-secret\n");
    assert_eq!(credential.get().expose(), "old-secret");

    let refreshed = credential
        .reload(Ok("new-secret\n".to_owned()))
        .expect("the credential file is readable")
        .expect("a changed credential is reported as changed");

    assert_eq!(refreshed.expose(), "new-secret");
    assert_eq!(credential.get().expose(), "new-secret");
    assert_eq!(credential.file(), Some(PATH));
}

#[test]
fn reloading_an_unchanged_credential_reports_no_change() {
    let mut credential = file_credential("the-secret\n");

    let refreshed = credential.reload(Ok("the-secret\n".to_owned())).expect("the file is readable");

    assert!(refreshed.is_none());
}

#[test]
fn a_fixed_credential_never_changes() {
    let mut credential = FileCredential::fixed(Secret::from("the-secret"));

    assert_eq!(credential.get().expose(), "the-secret");
    assert!(credential
        .reload(Ok("another-secret".to_owned()))
        .expect("a fixed credential reloads without touching the filesystem")
        .is_none());
    assert_eq!(credential.get().expose(), "the-secret");
    assert_eq!(credential.file(), None);
}

/// The error a backend reports when the other side rejected the credential.
#[derive(Debug, PartialEq)]
struct Rejected {
    rejected: bool,
}

/// Records what each attempt was given, and fails every attempt made with `rejects`.
fn attempt(log: &mut Vec<String>, credential: Secret, rejects: &str) -> Result<String, Rejected> {
    let credential = credential.expose().to_owned();
    log.push(credential.clone());
    match credential == rejects {
        true => Err(Rejected { rejected: true }),
        false => Ok(credential),
    }
}

/// Uses the credential, and once more with what is on disk by now, where the library says so.
fn use_with_retry(
    credential: &mut FileCredential,
    log: &mut Vec<String>,
    rejects: &str,
    rejected: fn(&Rejected) -> bool,
    on_disk: Result<String, String>,
) -> Result<String, Rejected> {
    let outcome = attempt(log, credential.get(), rejects);
    let was_rejected = outcome.as_ref().err().map_or(false, rejected);
    match FileCredential::after_use(outcome, was_rejected) {
        credentials::AfterUse::Finished(outcome) => outcome,
        credentials::AfterUse::Reload(error) => match credential.use_with_retry(error, on_disk) {
            Ok(refreshed) => attempt(log, refreshed, rejects),
            Err(error) => Err(error),
        },
    }
}

#[test]
fn a_rejected_credential_is_reread_and_the_call_retried_once() {
    let mut credential = file_credential("old-secret");
    let mut log = vec![];

    let used = use_with_retry(
        &mut credential,
        &mut log,
        "old-secret",
        |error| error.rejected,
        Ok("new-secret".to_owned()),
    )
    .expect("the retry with the rotated credential succeeds");

    assert_eq!(used, "new-secret");
    assert_eq!(log, ["old-secret", "new-secret"]);
}

#[test]
fn a_rejected_credential_that_did_not_change_is_not_retried() {
    let mut credential = file_credential("the-secret");
    let mut log = vec![];

    let error = use_with_retry(
        &mut credential,
        &mut log,
        "the-secret",
        |error| error.rejected,
        Ok("the-secret".to_owned()),
    )
    .expect_err("the credential is rejected and unchanged");

    assert!(error.rejected);
    assert_eq!(log, ["the-secret"]);
}

#[test]
fn credentials_other_failures_are_not_retried() {
    let mut credential = file_credential("old-secret");
    let mut log = vec![];

    use_with_retry(
        &mut credential,
        &mut log,
        "old-secret",
        |_error| false,
        Ok("new-secret".to_owned()),
    )
    .expect_err("the attempt fails");

    assert_eq!(log, ["old-secret"]);
}

#[test]
fn an_unreadable_credential_file_leaves_the_held_one_in_place() {
    let mut credential = file_credential("the-secret");
    let mut log = vec![];

    let error = use_with_retry(
        &mut credential,
        &mut log,
        "the-secret",
        |error| error.rejected,
        Err("No such file or directory".to_owned()),
    )
    .expect_err("the credential is rejected and cannot be re-read");

    assert!(error.rejected);
    assert_eq!(log, ["the-secret"]);
    assert_eq!(credential.get().expose(), "the-secret");
}

#[test]
fn surrounding_whitespace_is_trimmed() {
    let credential = read_credential_file(PATH, Ok("  the-secret\n".to_owned()))
        .expect("the credential file is readable");

    assert_eq!(credential, "the-secret");
}

#[test]
fn whitespace_inside_a_credential_is_kept() {
    let credential = read_credential_file(PATH, Ok("the secret\n".to_owned()))
        .expect("the credential file is readable");

    assert_eq!(credential, "the secret");
}

#[test]
fn a_missing_file_is_reported_with_the_path() {
    let path = "/tmp/info-fetcher-commons-credentials-missing/credential";

    let error = read_credential_file(path, Err("No such file or directory".to_owned()))
        .expect_err("the credential file does not exist");

    assert!(
        error.message().contains(path),
        "the error must name the path, but was: {}",
        error.message()
    );
    let error = FileCredential::load(path.to_owned(), Err("gone".to_owned())).err().unwrap();
    assert_eq!(
        error,
        credentials::Error::ReadFile { source: "gone".to_owned(), path: path.to_owned() }
    );
}

// Tokens.

struct Minter {
    calls: usize,
    lifetime: Option<duration::Duration>,
}

impl Minter {
    fn new(lifetime: Option<duration::Duration>) -> Self {
        Minter { calls: 0, lifetime }
    }

    fn mint(&mut self) -> Result<MintedToken, String> {
        let call = self.calls;
        self.calls += 1;
        Ok(MintedToken { token: Secret::from(format!("token-{call}")), lifetime: self.lifetime })
    }
}

fn long_lifetime() -> Option<duration::Duration> {
    Some(duration::Duration::from_secs(EXPIRY_MARGIN + 600))
}

const NOW: duration::Duration = duration::Duration { secs: 1_000, nanos: 0 };

/// Takes the token out of the cache, and mints one where there is none.
fn get<E>(
    cached: &mut CachedToken,
    now: duration::Duration,
    mint: impl FnOnce() -> Result<MintedToken, E>,
) -> Result<Secret, E> {
    match cached.usable_token(now) {
        Some(token) => Ok(token),
        None => cached.get(mint(), now),
    }
}

#[test]
fn token_is_minted_once_and_then_served_from_the_cache() {
    let mut minter = Minter::new(long_lifetime());
    let mut cached = CachedToken::new();

    let first = get(&mut cached, NOW, || minter.mint()).expect("minting works");
    let second = get(&mut cached, NOW, || minter.mint()).expect("minting works");

    assert_eq!(first.expose(), "token-0");
    assert_eq!(second.expose(), "token-0");
    assert_eq!(minter.calls, 1);
}

#[test]
fn invalidating_forces_the_next_get_to_mint() {
    let mut minter = Minter::new(long_lifetime());
    let mut cached = CachedToken::new();

    let first = get(&mut cached, NOW, || minter.mint()).expect("minting works");
    cached.invalidate();
    let second = get(&mut cached, NOW, || minter.mint()).expect("minting works");

    assert_eq!(first.expose(), "token-0");
    assert_eq!(second.expose(), "token-1");
    assert_eq!(minter.calls, 2);
}

#[test]
fn a_token_without_a_lifetime_is_not_cached() {
    let mut minter = Minter::new(None);
    let mut cached = CachedToken::new();

    get(&mut cached, NOW, || minter.mint()).expect("minting works");
    get(&mut cached, NOW, || minter.mint()).expect("minting works");

    assert_eq!(minter.calls, 2);
}

#[test]
fn a_token_expiring_within_the_margin_is_not_cached() {
    let mut minter = Minter::new(Some(duration::Duration::from_secs(EXPIRY_MARGIN)));
    let mut cached = CachedToken::new();

    get(&mut cached, NOW, || minter.mint()).expect("minting works");
    get(&mut cached, NOW, || minter.mint()).expect("minting works");

    assert_eq!(minter.calls, 2);
}

#[test]
fn a_token_is_kept_until_shortly_before_it_expires() {
    let mut minter = Minter::new(Some(duration::Duration::from_secs(EXPIRY_MARGIN + 10)));
    let mut cached = CachedToken::default();

    get(&mut cached, NOW, || minter.mint()).expect("minting works");
    let later = |secs, nanos| duration::Duration { secs: NOW.secs + secs, nanos };
    assert!(cached.usable_token(later(9, 999_999_999)).is_some());
    assert!(cached.usable_token(later(10, 0)).is_none());
    // A fraction of a second beyond the margin counts.
    let mut minter =
        Minter::new(Some(duration::Duration { secs: EXPIRY_MARGIN, nanos: 500_000_000 }));
    cached.invalidate();
    get(&mut cached, NOW, || minter.mint()).expect("minting works");
    assert!(cached.usable_token(later(0, 499_999_999)).is_some());
    assert!(cached.usable_token(later(0, 500_000_000)).is_none());
    // A lifetime of any length fits.
    let endless = duration::Duration { secs: u64::MAX, nanos: 999_999_999 };
    let mut minter = Minter::new(Some(endless));
    get(&mut cached, endless, || minter.mint()).expect("minting works");
    assert!(cached.usable_token(endless).is_some());
}

/// The error a backend reports when the identity provider rejected the token it was given, wrapped
/// the way a backend wraps it.
#[derive(Debug)]
struct WrappedFailure {
    source: http::Error,
}

fn rejected_with(status: u16) -> WrappedFailure {
    WrappedFailure {
        source: http::Error::HttpErrorResponse {
            status,
            url: "https://idp.example.com/users/alice".to_owned(),
            text: "denied".to_owned(),
        },
    }
}

/// Uses a token, and once more with a fresh one where the library says so.
fn get_with_retry(
    cached: &mut CachedToken,
    mints: &mut usize,
    mut use_token: impl FnMut(Secret) -> Result<Secret, WrappedFailure>,
) -> Result<Secret, WrappedFailure> {
    let mut retried = false;
    loop {
        let token = get(cached, NOW, || {
            let call = *mints;
            *mints += 1;
            Ok::<_, WrappedFailure>(MintedToken {
                token: Secret::from(format!("token-{call}")),
                lifetime: long_lifetime(),
            })
        })?;
        let outcome = use_token(token);
        let unauthorized = match &outcome {
            Err(error) => is_unauthorized(&vec![error.source.clone()]),
            Ok(_) => false,
        };
        match cached.get_with_retry(outcome, unauthorized, retried) {
            token::AfterUse::Finished(outcome) => return outcome,
            token::AfterUse::Retry => retried = true,
        }
    }
}

#[test]
fn a_rejected_token_is_reminted_and_the_call_retried_once() {
    let mut cached = CachedToken::new();
    let mut mints = 0;
    let mut attempts = 0;

    let token = get_with_retry(&mut cached, &mut mints, |token| {
        attempts += 1;
        match attempts {
            1 => Err(rejected_with(401)),
            _ => Ok(token),
        }
    })
    .expect("the retry with the re-minted token succeeds");

    assert_eq!(token.expose(), "token-1");
    assert_eq!(attempts, 2);
    assert_eq!(mints, 2);
}

#[test]
fn a_token_that_is_rejected_again_is_given_up() {
    let mut cached = CachedToken::new();
    let mut mints = 0;
    let mut attempts = 0;

    get_with_retry(&mut cached, &mut mints, |_token| {
        attempts += 1;
        Err(rejected_with(401))
    })
    .expect_err("both tokens are rejected");

    assert_eq!(attempts, 2);
    assert_eq!(mints, 2);
}

#[test]
fn token_other_failures_are_not_retried() {
    let mut cached = CachedToken::new();
    let mut mints = 0;
    let mut attempts = 0;

    let error = get_with_retry(&mut cached, &mut mints, |_token| {
        attempts += 1;
        Err(rejected_with(403))
    })
    .expect_err("a 403 is not a rejected token");

    assert_eq!(error.source.status(), Some(403));
    assert_eq!(attempts, 1);
    assert_eq!(mints, 1);
}

#[test]
fn a_failed_mint_is_not_cached() {
    let mut minter = Minter::new(long_lifetime());
    let mut cached = CachedToken::new();

    let failed = get(&mut cached, NOW, || {
        Err::<MintedToken, String>("no token for you".to_owned())
    });
    let succeeded = get(&mut cached, NOW, || minter.mint());

    assert_eq!(
        failed.map(|token| token.expose().to_owned()),
        Err("no token for you".to_owned())
    );
    assert_eq!(succeeded.expect("minting works").expose(), "token-0");
}

#[test]
fn oauth_responses_say_how_long_a_token_lives() {
    let minted = MintedToken::from(OAuthResponse {
        access_token: Secret::from("token"),
        expires_in: Some(300),
    });
    assert_eq!(minted, MintedToken { token: Secret::from("token"), lifetime: Some(millis(300_000)) });
}

// HTTP.

/// What is found of a failure that a backend wrapped in its own error types.
fn wrapped_response(status: u16) -> Vec<http::Error> {
    vec![http::Error::HttpErrorResponse {
        status,
        url: "https://keycloak.example.com/admin/realms/my-realm/users/".to_owned(),
        text: "denied".to_owned(),
    }]
}

#[test]
fn a_wrapped_unauthorized_response_is_detected() {
    assert!(is_unauthorized(&wrapped_response(401)));
}

#[test]
fn other_error_responses_are_not_unauthorized() {
    assert!(!is_unauthorized(&wrapped_response(403)));
    assert!(!is_unauthorized(&wrapped_response(500)));
}

#[test]
fn errors_without_a_response_are_not_unauthorized() {
    let source = serde_json::from_str::<serde_json::Value>("not json")
        .expect_err("the input is not valid JSON");
    let error = http::Error::ParseJson { source: source.to_string() };

    assert_eq!(error.status(), None);
    assert!(!is_unauthorized(&vec![error]));
}

#[test]
fn every_error_on_the_way_to_the_root_cause_matters() {
    let mut errors = wrapped_response(500);
    errors.extend(wrapped_response(401));
    assert!(is_unauthorized(&errors));
    assert!(!is_unauthorized(&vec![]));
}

#[test]
fn error_responses_carry_their_trimmed_text() {
    let url = "https://idp.example.com/";
    for status in [400, 404, 499, 500, 599] {
        assert_eq!(
            error_for_status(status, url, Ok(" denied\n".to_owned())),
            Err(http::Error::HttpErrorResponse {
                status,
                url: url.to_owned(),
                text: "denied".to_owned(),
            })
        );
    }
    for status in [200, 204, 302, 399, 600] {
        let body = Ok(" fine\n".to_owned());
        assert_eq!(error_for_status(status, url, body.clone()), Ok(body));
    }
    assert_eq!(
        error_for_status(502, url, Err("not UTF-8".to_owned())),
        Err(http::Error::HttpErrorResponseUndecodableText {
            status: 502,
            url: url.to_owned(),
            encoding_error: "not UTF-8".to_owned(),
        })
    );
}

#[test]
fn clients_give_up_on_unresponsive_backends() {
    let rendered = format!("{:?}", client_builder());
    assert!(rendered.contains("connect_timeout: 15s"), "{}", rendered);
    assert!(rendered.contains(" timeout: 60s"), "{}", rendered);
}

#[test]
fn json_is_received_or_what_went_wrong_is_reported() {
    let response = |status: u16, body: Result<&str, &str>| Response {
        status,
        url: "https://idp.example.com/".to_owned(),
        body: body.map(|text| text.to_owned()).map_err(|error| error.to_owned()),
    };
    assert_eq!(receive_json(Ok(response(200, Ok("{}")))), Ok("{}".to_owned()));
    assert_eq!(
        receive_json(Ok(response(200, Err("cut off")))),
        Err(http::Error::HttpRequest { source: "cut off".to_owned() })
    );
    assert_eq!(
        receive_json(Err("refused".to_owned())),
        Err(http::Error::HttpRequest { source: "refused".to_owned() })
    );
    assert_eq!(receive_json(Ok(response(401, Ok("")))).unwrap_err().status(), Some(401));
    assert_eq!(send_json_request(Ok(Ok(5))), Ok(5));
    assert_eq!(
        send_json_request::<u8>(Ok(Err("not a number".to_owned()))),
        Err(http::Error::ParseJson { source: "not a number".to_owned() })
    );
    let error = http::Error::HttpRequest { source: "refused".to_owned() };
    assert_eq!(send_json_request::<u8>(Err(error.clone())), Err(error));
}

// Configuration and logging.

#[test]
fn configuration_failures_name_the_path() {
    let path = "/stackable/config/user-info-fetcher.json";
    assert_eq!(read_config_file(path, Ok(5)), Ok(5));
    assert_eq!(
        read_config_file::<u8>(path, Err(FileFailure::Unreadable("gone".to_owned()))),
        Err(ConfigError::ReadFile { source: "gone".to_owned(), path: path.to_owned() })
    );
    assert_eq!(
        read_config_file::<u8>(path, Err(FileFailure::Unparsable("no JSON".to_owned()))),
        Err(ConfigError::ParseConfigFile { source: "no JSON".to_owned(), path: path.to_owned() })
    );
}

#[test]
fn the_log_directory_matters_only_where_files_are_logged_to() {
    let directory = Some("/stackable/log/user-info-fetcher".to_owned());
    assert_eq!(file_log_directory(&None), None);
    assert_eq!(file_log_directory(&directory), Some("/stackable/log/user-info-fetcher"));
    assert_eq!(create_file_log_directory(&None, Err("denied".to_owned())), Ok(()));
    assert_eq!(create_file_log_directory(&directory, Ok(())), Ok(()));
    assert_eq!(
        create_file_log_directory(&directory, Err("denied".to_owned())),
        Err(CreateFileLogDirectoryError {
            source: "denied".to_owned(),
            path: "/stackable/log/user-info-fetcher".to_owned(),
        })
    );
}
