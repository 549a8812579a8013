//! The shell scripts that the containers of an OPA Pod run.
use crate::logging::{
    appender_level, borrowed_log, logger_level, root_level, AutomaticContainerLogConfig,
    AutomaticContainerLogConfigView, LogLevel,
};
use crate::text::{decimal, join, joined, number};
use crate::text_map::{listing, StringMap};
use crate::value::{no_items, push_item};
use vstd::prelude::*;

verus! {

/// The directory that the containers write their logs to.
pub const STACKABLE_LOG_DIR: &'static str = "/stackable/log";

/// The directory that the configuration is mounted at.
pub const CONFIG_DIR: &'static str = "/stackable/config";

/// The directory that the TLS certificate and key are mounted at.
pub const TLS_STORE_DIR: &'static str = "/stackable/tls";

/// The directory of the bundles that OPA serves.
pub const BUNDLES_ACTIVE_DIR: &'static str = "/bundles/active";

/// The directory that new bundles arrive in.
pub const BUNDLES_INCOMING_DIR: &'static str = "/bundles/incoming";

/// The directory for temporary bundle files.
pub const BUNDLES_TMP_DIR: &'static str = "/bundles/tmp";

/// Size at which an OPA log file is rotated, about five megabytes.
pub const OPA_ROLLING_LOG_FILE_SIZE_BYTES: u32 = 5000000;

/// Number of OPA log files that are kept.
pub const OPA_ROLLING_LOG_FILES: u32 = 2;

/// Shell code that the platform supplies for every product container.
pub struct ShellSnippets {
    /// Definitions of the functions that trap and forward signals.
    pub trap_functions: String,
    /// Removes the file that tells the log agent to shut down.
    pub remove_vector_shutdown_file: String,
    /// Creates the file that tells the log agent to shut down.
    pub create_vector_shutdown_file: String,
}

/// The contents of [`ShellSnippets`].
#[verifier::ext_equal]
pub struct ShellSnippetsView {
    pub trap_functions: Seq<char>,
    pub remove_vector_shutdown_file: Seq<char>,
    pub create_vector_shutdown_file: Seq<char>,
}

impl DeepView for ShellSnippets {
    type V = ShellSnippetsView;

    open spec fn deep_view(&self) -> ShellSnippetsView {
        ShellSnippetsView {
            trap_functions: self.trap_functions@,
            remove_vector_shutdown_file: self.remove_vector_shutdown_file@,
            create_vector_shutdown_file: self.create_vector_shutdown_file@,
        }
    }
}

/// The levels at which the output of OPA is logged.
#[derive(Clone, Copy, Debug, PartialEq, Eq, Structural)]
pub struct OpaLogLevels {
    pub file: LogLevel,
    pub console: LogLevel,
    pub server: LogLevel,
    pub decision: LogLevel,
}

/// The configured level, or the default where none is configured.
pub open spec fn level_or(level: Option<LogLevel>, default: LogLevel) -> LogLevel {
    match level {
        Some(level) => level,
        None => default,
    }
}

fn or_level(level: Option<LogLevel>, default: LogLevel) -> (result: LogLevel)
    ensures
        result == level_or(level, default),
{
    match level {
        Some(level) => level,
        None => default,
    }
}

/// The log levels of OPA.
///
/// Without an automatic log configuration everything is logged at `INFO`, but for the decision
/// logs, which are off. With one, the server level falls back to the root level, while the decision
/// logs stay off unless they are set.
pub open spec fn log_levels(config: Option<AutomaticContainerLogConfigView>) -> OpaLogLevels {
    match config {
        Some(log) => OpaLogLevels {
            file: level_or(appender_level(log.file), LogLevel::INFO),
            console: level_or(appender_level(log.console), LogLevel::INFO),
            server: level_or(logger_level(log, "server"@), root_level(log)),
            decision: level_or(logger_level(log, "decision"@), LogLevel::NONE),
        },
        None => OpaLogLevels {
            file: LogLevel::INFO,
            console: LogLevel::INFO,
            server: LogLevel::INFO,
            decision: LogLevel::NONE,
        },
    }
}

/// The level that OPA itself logs at: the more verbose one of console and file.
pub open spec fn opa_level(config: Option<AutomaticContainerLogConfigView>) -> LogLevel {
    log_levels(config).console.spec_more_verbose(log_levels(config).file)
}

/// Determines the log levels of OPA.
pub fn opa_log_levels(config: Option<&AutomaticContainerLogConfig>) -> (levels: OpaLogLevels)
    ensures
        levels == log_levels(borrowed_log(config)),
{
    match config {
        Some(log) => OpaLogLevels {
            file: or_level(log.file_level(), LogLevel::INFO),
            console: or_level(log.console_level(), LogLevel::INFO),
            server: or_level(log.logger_level("server"), log.root_log_level()),
            decision: or_level(log.logger_level("decision"), LogLevel::NONE),
        },
        None => OpaLogLevels {
            file: LogLevel::INFO,
            console: LogLevel::INFO,
            server: LogLevel::INFO,
            decision: LogLevel::NONE,
        },
    }
}

/// Determines the level that OPA itself logs at.
pub fn opa_log_level(config: Option<&AutomaticContainerLogConfig>) -> (level: LogLevel)
    ensures
        level == opa_level(borrowed_log(config)),
{
    let levels = opa_log_levels(config);
    levels.console.more_verbose(&levels.file)
}

/// Whether decisions are logged: only where the `decision` logger is set to something else than
/// `NONE`.
pub open spec fn decision_logging(config: Option<AutomaticContainerLogConfigView>) -> bool {
    log_levels(config).decision != LogLevel::NONE
}

/// Determines whether decisions are logged.
pub fn decision_logging_enabled(config: Option<&AutomaticContainerLogConfig>) -> (enabled: bool)
    ensures
        enabled == decision_logging(borrowed_log(config)),
{
    opa_log_levels(config).decision != LogLevel::NONE
}

/// The redirection that hands the output of OPA to the log processor.
pub open spec fn logging_redirects(levels: OpaLogLevels, container_name: Seq<char>) -> Seq<char> {
    "&> >(CONSOLE_LEVEL="@ + levels.console.spec_name() + " FILE_LEVEL="@ + levels.file.spec_name()
        + " DECISION_LEVEL="@ + levels.decision.spec_name() + " SERVER_LEVEL="@
        + levels.server.spec_name() + " OPA_ROLLING_LOG_FILE_SIZE_BYTES="@ + decimal(
        OPA_ROLLING_LOG_FILE_SIZE_BYTES as nat,
    ) + " OPA_ROLLING_LOG_FILES="@ + decimal(OPA_ROLLING_LOG_FILES as nat) + " STACKABLE_LOG_DIR="@
        + STACKABLE_LOG_DIR@ + " CONTAINER_NAME="@ + container_name + " process-logs)"@
}

fn build_logging_redirects(levels: &OpaLogLevels, container_name: &str) -> (text: String)
    ensures
        text@ == logging_redirects(*levels, container_name@),
{
    let mut text = "&> >(CONSOLE_LEVEL=".to_owned();
    text.append(levels.console.name().as_str());
    text.append(" FILE_LEVEL=");
    text.append(levels.file.name().as_str());
    text.append(" DECISION_LEVEL=");
    text.append(levels.decision.name().as_str());
    text.append(" SERVER_LEVEL=");
    text.append(levels.server.name().as_str());
    text.append(" OPA_ROLLING_LOG_FILE_SIZE_BYTES=");
    text.append(number(OPA_ROLLING_LOG_FILE_SIZE_BYTES as u64).as_str());
    text.append(" OPA_ROLLING_LOG_FILES=");
    text.append(number(OPA_ROLLING_LOG_FILES as u64).as_str());
    text.append(" STACKABLE_LOG_DIR=");
    text.append(STACKABLE_LOG_DIR);
    text.append(" CONTAINER_NAME=");
    text.append(container_name);
    text.append(" process-logs)");
    text
}

/// What an OPA server is started with.
pub struct OpaServer<'a> {
    /// The port it listens on.
    pub port: u16,
    /// The name of its configuration file.
    pub config_file: &'a str,
    /// The level it logs at, as OPA spells it.
    pub log_level: &'a str,
    /// How long it waits for requests in flight when it is told to stop, in seconds.
    pub shutdown_grace_period: u64,
    /// Further arguments, each followed by a space.
    pub further_arguments: &'a str,
    /// The log levels of its output.
    pub levels: OpaLogLevels,
    /// The container it runs in.
    pub container_name: &'a str,
}

/// The script that runs an OPA server until it is told to stop.
pub open spec fn server_script(
    snippets: ShellSnippetsView,
    port: nat,
    config_file: Seq<char>,
    log_level: Seq<char>,
    shutdown_grace_period: nat,
    further_arguments: Seq<char>,
    levels: OpaLogLevels,
    container_name: Seq<char>,
) -> Seq<char> {
    snippets.trap_functions + "\n"@ + snippets.remove_vector_shutdown_file + "\n"@
        + "prepare_signal_handlers\n"@ + "containerdebug --output="@ + STACKABLE_LOG_DIR@
        + "/containerdebug-state.json --loop &\n"@ + "opa run -s -a 0.0.0.0:"@ + decimal(
        port,
    ) + " -c "@ + CONFIG_DIR@ + "/"@ + config_file + " -l "@ + log_level
        + " --shutdown-grace-period "@ + decimal(shutdown_grace_period)
        + " --disable-telemetry "@ + further_arguments + logging_redirects(
        levels,
        container_name,
    ) + " &\n"@ + "wait_for_termination $!\n"@ + snippets.create_vector_shutdown_file + "\n"@
}

/// Renders the script that runs an OPA server until it is told to stop.
pub fn render_opa_script(snippets: &ShellSnippets, server: &OpaServer) -> (text: String)
    ensures
        text@ == server_script(
            snippets.deep_view(),
            server.port as nat,
            server.config_file@,
            server.log_level@,
            server.shutdown_grace_period as nat,
            server.further_arguments@,
            server.levels,
            server.container_name@,
        ),
{
    let mut text = snippets.trap_functions.clone();
    text.append("\n");
    text.append(snippets.remove_vector_shutdown_file.as_str());
    text.append("\n");
    text.append("prepare_signal_handlers\n");
    text.append("containerdebug --output=");
    text.append(STACKABLE_LOG_DIR);
    text.append("/containerdebug-state.json --loop &\n");
    text.append("opa run -s -a 0.0.0.0:");
    text.append(number(server.port as u64).as_str());
    text.append(" -c ");
    text.append(CONFIG_DIR);
    text.append("/");
    text.append(server.config_file);
    text.append(" -l ");
    text.append(server.log_level);
    text.append(" --shutdown-grace-period ");
    text.append(number(server.shutdown_grace_period).as_str());
    text.append(" --disable-telemetry ");
    text.append(server.further_arguments);
    text.append(build_logging_redirects(&server.levels, server.container_name).as_str());
    text.append(" &\n");
    text.append("wait_for_termination $!\n");
    text.append(snippets.create_vector_shutdown_file.as_str());
    text.append("\n");
    text
}

/// The arguments that make OPA serve HTTPS.
pub open spec fn tls_arguments() -> Seq<char> {
    "--tls-cert-file "@ + TLS_STORE_DIR@ + "/tls.crt --tls-private-key-file "@ + TLS_STORE_DIR@
        + "/tls.key"@
}

/// An overridden argument with its value.
pub open spec fn cli_argument(entry: (Seq<char>, Seq<char>)) -> Seq<char> {
    entry.0 + " "@ + entry.1
}

/// The overridden arguments with their values, in key order.
pub open spec fn cli_arguments(overrides: Map<Seq<char>, Seq<char>>) -> Seq<char> {
    joined(listing(overrides).map_values(|entry: (Seq<char>, Seq<char>)| cli_argument(entry)), " "@)
}

/// The arguments for TLS and those that the user added, each group followed by a space.
pub open spec fn further_arguments(
    tls_enabled: bool,
    cli_overrides: Map<Seq<char>, Seq<char>>,
) -> Seq<char> {
    (if tls_enabled {
        tls_arguments()
    } else {
        Seq::empty()
    }) + " "@ + cli_arguments(cli_overrides) + " "@
}

fn render_cli_arguments(overrides: &StringMap) -> (text: String)
    ensures
        text@ == cli_arguments(overrides@),
{
    let entries = overrides.entries();
    let ghost listed = listing(overrides@);
    let ghost render = |entry: (Seq<char>, Seq<char>)| cli_argument(entry);
    let mut parts: Vec<String> = no_items();
    let mut i: usize = 0;
    assert(parts.deep_view() =~= listed.take(0).map_values(render));
    while i < entries.len()
        invariant
            i <= entries.len(),
            entries.deep_view() == listed,
            render == (|entry: (Seq<char>, Seq<char>)| cli_argument(entry)),
            parts.deep_view() == listed.take(i as int).map_values(render),
        decreases entries.len() - i,
    {
        let mut part = entries[i].0.clone();
        part.append(" ");
        part.append(entries[i].1.as_str());
        assert(part@ == cli_argument(listed[i as int]));
        push_item(&mut parts, part);
        i += 1;
        assert(parts.deep_view() =~= listed.take(i as int).map_values(render));
    }
    assert(listed.take(i as int) =~= listed);
    join(&parts, " ")
}

/// Renders the arguments for TLS and those that the user added.
pub fn render_further_arguments(tls_enabled: bool, cli_overrides: &StringMap) -> (text: String)
    ensures
        text@ == further_arguments(tls_enabled, cli_overrides@),
{
    let mut text = String::new();
    if tls_enabled {
        text.append("--tls-cert-file ");
        text.append(TLS_STORE_DIR);
        text.append("/tls.crt --tls-private-key-file ");
        text.append(TLS_STORE_DIR);
        text.append("/tls.key");
        assert(text@ =~= tls_arguments());
    } else {
        assert(text@ =~= Seq::<char>::empty());
    }
    text.append(" ");
    text.append(render_cli_arguments(cli_overrides).as_str());
    text.append(" ");
    text
}

/// Whether the console output of a container is switched off.
pub open spec fn console_off(config: Option<AutomaticContainerLogConfigView>) -> bool {
    match config {
        Some(log) => appender_level(log.console) == Some(LogLevel::NONE),
        None => false,
    }
}

/// The script that runs the bundle-builder until it is told to stop.
pub open spec fn bundle_builder_script(
    trap_functions: Seq<char>,
    config: Option<AutomaticContainerLogConfigView>,
    container_name: Seq<char>,
) -> Seq<char> {
    trap_functions + "\n"@ + "prepare_signal_handlers\n"@ + "mkdir -p "@ + STACKABLE_LOG_DIR@ + "/"@
        + container_name + "\n"@ + "stackable-opa-bundle-builder"@ + (if console_off(config) {
        " > /dev/null"@
    } else {
        ""@
    }) + " &\n"@ + "wait_for_termination $!\n"@
}

/// Renders the script that runs the bundle-builder until it is told to stop.
pub fn render_bundle_builder_script(
    trap_functions: &str,
    config: Option<&AutomaticContainerLogConfig>,
    container_name: &str,
) -> (text: String)
    ensures
        text@ == bundle_builder_script(trap_functions@, borrowed_log(config), container_name@),
{
    let off = match config {
        Some(log) => match log.console_level() {
            Some(level) => level == LogLevel::NONE,
            None => false,
        },
        None => false,
    };
    let mut text = trap_functions.to_owned();
    text.append("\n");
    text.append("prepare_signal_handlers\n");
    text.append("mkdir -p ");
    text.append(STACKABLE_LOG_DIR);
    text.append("/");
    text.append(container_name);
    text.append("\n");
    text.append("stackable-opa-bundle-builder");
    text.append(
        if off {
            " > /dev/null"
        } else {
            ""
        },
    );
    text.append(" &\n");
    text.append("wait_for_termination $!\n");
    text
}

/// The commands that create one of the bundle directories and say so.
pub open spec fn create_directory(directory: Seq<char>) -> Seq<Seq<char>> {
    seq!["echo \"Create dir ["@ + directory + "]\""@, "mkdir -p "@ + directory]
}

/// The commands that prepare an OPA Pod: output capturing where it is configured, then the bundle
/// directories.
pub open spec fn prepare_commands(capture: Option<Seq<char>>) -> Seq<Seq<char>> {
    (match capture {
        Some(capture) => seq![capture],
        None => Seq::empty(),
    }) + create_directory(BUNDLES_ACTIVE_DIR@) + create_directory(BUNDLES_INCOMING_DIR@)
        + create_directory(BUNDLES_TMP_DIR@)
}

fn push_create_directory(commands: &mut Vec<String>, directory: &str)
    ensures
        final(commands).deep_view() == old(commands).deep_view() + create_directory(directory@),
{
    let ghost before = commands.deep_view();
    let mut announce = "echo \"Create dir [".to_owned();
    announce.append(directory);
    announce.append("]\"");
    push_item(commands, announce);
    let mut create = "mkdir -p ".to_owned();
    create.append(directory);
    push_item(commands, create);
    assert(commands.deep_view() =~= before + create_directory(directory@));
}

/// The deep view of a borrowed text.
pub open spec fn borrowed_text(text: Option<&str>) -> Option<Seq<char>> {
    match text {
        Some(text) => Some(text@),
        None => None,
    }
}

/// Renders the commands that prepare an OPA Pod.
pub fn render_prepare_commands(capture: Option<&str>) -> (commands: Vec<String>)
    ensures
        commands.deep_view() == prepare_commands(borrowed_text(capture)),
{
    let mut commands: Vec<String> = no_items();
    if let Some(capture) = capture {
        push_item(&mut commands, capture.to_owned());
    }
    push_create_directory(&mut commands, BUNDLES_ACTIVE_DIR);
    push_create_directory(&mut commands, BUNDLES_INCOMING_DIR);
    push_create_directory(&mut commands, BUNDLES_TMP_DIR);
    commands
}

} // verus!
