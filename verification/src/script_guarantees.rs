//! What the scripts of an OPA Pod do.
use crate::logging::{AutomaticContainerLogConfigView, LogLevel};
use crate::start_command::{
    bundle_builder_script, cli_argument, cli_arguments, console_off, create_directory,
    decision_logging, further_arguments, log_levels, logging_redirects, opa_level, prepare_commands,
    server_script, tls_arguments, OpaLogLevels, ShellSnippetsView, BUNDLES_ACTIVE_DIR,
    BUNDLES_INCOMING_DIR, BUNDLES_TMP_DIR, CONFIG_DIR, OPA_ROLLING_LOG_FILES,
    OPA_ROLLING_LOG_FILE_SIZE_BYTES, STACKABLE_LOG_DIR,
};
use crate::text::{
    contains_text, decimal, joined, lemma_contains_in_part, lemma_contains_part,
    lemma_contains_transitive, lemma_decimal, lemma_ends_with, lemma_regrouped, lemma_separated,
    lemma_starts_with,
};
use crate::text_map::{lemma_listed, lemma_listing_of_finite_map, listing};
use vstd::prelude::*;

verus! {

/// With TLS, OPA is given the certificate under the flag for certificates and the private key under
/// the flag for private keys.
#[verifier::rlimit(40)]
pub proof fn lemma_tls_arguments(cli_overrides: Map<Seq<char>, Seq<char>>)
    ensures
        contains_text(
            further_arguments(true, cli_overrides),
            "--tls-cert-file /stackable/tls/tls.crt "@,
        ),
        contains_text(
            further_arguments(true, cli_overrides),
            " --tls-private-key-file /stackable/tls/tls.key "@,
        ),
{
    let certificate = "--tls-cert-file /stackable/tls/tls.crt "@;
    let key = " --tls-private-key-file /stackable/tls/tls.key "@;
    let before_key = "--tls-cert-file /stackable/tls/tls.crt"@;
    let after_certificate = "--tls-private-key-file /stackable/tls/tls.key "@;
    let user = cli_arguments(cli_overrides) + " "@;
    let text = further_arguments(true, cli_overrides);
    reveal_strlit("--tls-cert-file ");
    reveal_strlit("/stackable/tls");
    reveal_strlit("/tls.crt --tls-private-key-file ");
    reveal_strlit("/tls.key");
    reveal_strlit(" ");
    reveal_strlit("--tls-cert-file /stackable/tls/tls.crt ");
    reveal_strlit(" --tls-private-key-file /stackable/tls/tls.key ");
    reveal_strlit("--tls-cert-file /stackable/tls/tls.crt");
    reveal_strlit("--tls-private-key-file /stackable/tls/tls.key ");
    assert(tls_arguments() + " "@ =~= certificate + after_certificate);
    assert(tls_arguments() + " "@ =~= before_key + key);
    assert(text =~= (tls_arguments() + " "@) + user);
    assert(text =~= Seq::empty() + certificate + (after_certificate + user));
    assert(text =~= before_key + key + user);
    lemma_contains_part(Seq::empty(), certificate, after_certificate + user);
    lemma_contains_part(before_key, key, user);
}

/// Without TLS, no flag for a certificate or a private key is given to OPA, unless the user adds it.
pub proof fn lemma_no_tls_arguments(cli_overrides: Map<Seq<char>, Seq<char>>, flag: Seq<char>)
    requires
        flag == "--tls-cert-file"@ || flag == "--tls-private-key-file"@,
        !contains_text(cli_arguments(cli_overrides), flag),
    ensures
        !contains_text(further_arguments(false, cli_overrides), flag),
{
    reveal_strlit("--tls-cert-file");
    reveal_strlit("--tls-private-key-file");
    reveal_strlit(" ");
    let user = cli_arguments(cli_overrides);
    let nothing = Seq::<char>::empty();
    assert(!flag.contains(' '));
    lemma_separated(user, ' ', nothing, flag);
    lemma_separated(nothing, ' ', user.push(' ') + nothing, flag);
    assert(further_arguments(false, cli_overrides) =~= nothing.push(' ') + (user.push(' ')
        + nothing));
}

proof fn lemma_joined_contains(parts: Seq<Seq<char>>, separator: Seq<char>, i: int)
    requires
        0 <= i < parts.len(),
    ensures
        contains_text(separator + joined(parts, separator) + separator, separator + parts[i] + separator),
    decreases parts.len(),
{
    let part = separator + parts[i] + separator;
    let nothing = Seq::<char>::empty();
    if parts.len() == 1 {
        lemma_contains_part(nothing, part, nothing);
        assert(nothing + part + nothing =~= part);
    } else {
        let earlier = joined(parts.drop_last(), separator);
        let last = parts.last();
        lemma_regrouped(separator, earlier, separator);
        lemma_regrouped(separator, earlier + separator, last);
        let start = separator + earlier;
        if i == parts.len() - 1 {
            lemma_regrouped(start, separator, last);
            lemma_regrouped(start, separator + last, separator);
            lemma_contains_part(start, part, nothing);
            assert(start + part + nothing =~= start + part);
        } else {
            let inner = separator + earlier + separator;
            lemma_joined_contains(parts.drop_last(), separator, i);
            lemma_regrouped(inner, last, separator);
            lemma_contains_in_part(nothing, inner, last + separator, part);
            assert(nothing + inner =~= inner);
        }
    }
}

/// Every argument that the user sets is given to OPA, followed by the value that it is set to.
pub proof fn lemma_overridden_arguments(
    tls_enabled: bool,
    cli_overrides: Map<Seq<char>, Seq<char>>,
    argument: Seq<char>,
)
    requires
        cli_overrides.dom().finite(),
        cli_overrides.contains_key(argument),
    ensures
        contains_text(
            further_arguments(tls_enabled, cli_overrides),
            " "@ + argument + " "@ + cli_overrides[argument] + " "@,
        ),
{
    lemma_listing_of_finite_map(cli_overrides);
    let entries = listing(cli_overrides);
    let parts = entries.map_values(|entry: (Seq<char>, Seq<char>)| cli_argument(entry));
    let i = lemma_listed(cli_overrides, argument);
    let part = " "@ + argument + " "@ + cli_overrides[argument] + " "@;
    let inner = " "@ + joined(parts, " "@) + " "@;
    let text = further_arguments(tls_enabled, cli_overrides);
    let start = text.take(text.len() - inner.len());
    assert(part =~= " "@ + parts[i] + " "@);
    lemma_joined_contains(parts, " "@, i);
    assert(text =~= start + inner + Seq::empty());
    lemma_contains_in_part(start, inner, Seq::empty(), part);
}

/// The script runs OPA on the given port and configuration file, at the given log level, and tells it
/// how long it may take to stop. Everything that OPA is told besides is the given arguments.
#[verifier::rlimit(40)]
pub proof fn lemma_opa_is_run(
    snippets: ShellSnippetsView,
    port: nat,
    config_file: Seq<char>,
    log_level: Seq<char>,
    shutdown_grace_period: nat,
    further_arguments: Seq<char>,
    levels: OpaLogLevels,
    container_name: Seq<char>,
)
    ensures
        contains_text(
            server_script(
                snippets,
                port,
                config_file,
                log_level,
                shutdown_grace_period,
                further_arguments,
                levels,
                container_name,
            ),
            "\nopa run -s -a 0.0.0.0:"@ + decimal(port) + " -c /stackable/config/"@ + config_file
                + " -l "@ + log_level + " --shutdown-grace-period "@ + decimal(shutdown_grace_period)
                + " --disable-telemetry "@ + further_arguments + "&> >("@,
        ),
{
    let script = server_script(
        snippets,
        port,
        config_file,
        log_level,
        shutdown_grace_period,
        further_arguments,
        levels,
        container_name,
    );
    let redirects = logging_redirects(levels, container_name);
    let start = snippets.trap_functions + "\n"@ + snippets.remove_vector_shutdown_file + "\n"@
        + "prepare_signal_handlers\n"@ + "containerdebug --output="@ + STACKABLE_LOG_DIR@
        + "/containerdebug-state.json --loop &"@;
    let part = "\nopa run -s -a 0.0.0.0:"@ + decimal(port) + " -c /stackable/config/"@ + config_file
        + " -l "@ + log_level + " --shutdown-grace-period "@ + decimal(shutdown_grace_period)
        + " --disable-telemetry "@ + further_arguments + "&> >("@;
    let end = redirects.skip(5) + " &\n"@ + "wait_for_termination $!\n"@
        + snippets.create_vector_shutdown_file + "\n"@;
    assert("/containerdebug-state.json --loop &\n"@ + "opa run -s -a 0.0.0.0:"@
        == "/containerdebug-state.json --loop &"@ + "\nopa run -s -a 0.0.0.0:"@) by {
        reveal_strlit("/containerdebug-state.json --loop &");
        reveal_strlit("/containerdebug-state.json --loop &\n");
        reveal_strlit("opa run -s -a 0.0.0.0:");
        reveal_strlit("\nopa run -s -a 0.0.0.0:");
        assert("/containerdebug-state.json --loop &\n"@ + "opa run -s -a 0.0.0.0:"@
            =~= "/containerdebug-state.json --loop &"@ + "\nopa run -s -a 0.0.0.0:"@);
    }
    assert(" -c "@ + "/stackable/config"@ + "/"@ == " -c /stackable/config/"@) by {
        reveal_strlit(" -c ");
        reveal_strlit("/stackable/config");
        reveal_strlit("/");
        reveal_strlit(" -c /stackable/config/");
        assert(" -c "@ + "/stackable/config"@ + "/"@ =~= " -c /stackable/config/"@);
    }
    assert(redirects == "&> >("@ + redirects.skip(5)) by {
        lemma_redirects_start(levels, container_name);
    }
    let period = decimal(shutdown_grace_period);
    let before = snippets.trap_functions + "\n"@ + snippets.remove_vector_shutdown_file + "\n"@
        + "prepare_signal_handlers\n"@ + "containerdebug --output="@ + STACKABLE_LOG_DIR@;
    lemma_regrouped(before, "/containerdebug-state.json --loop &\n"@, "opa run -s -a 0.0.0.0:"@);
    lemma_regrouped(before, "/containerdebug-state.json --loop &"@, "\nopa run -s -a 0.0.0.0:"@);
    let p0 = "\nopa run -s -a 0.0.0.0:"@;
    lemma_regrouped(start, p0, decimal(port));
    let p1 = p0 + decimal(port);
    lemma_regrouped(start + p1, " -c "@, CONFIG_DIR@);
    lemma_regrouped(start + p1, " -c "@ + CONFIG_DIR@, "/"@);
    lemma_regrouped(start, p1, " -c /stackable/config/"@);
    let p2 = p1 + " -c /stackable/config/"@;
    lemma_regrouped(start, p2, config_file);
    let p3 = p2 + config_file;
    lemma_regrouped(start, p3, " -l "@);
    let p4 = p3 + " -l "@;
    lemma_regrouped(start, p4, log_level);
    let p5 = p4 + log_level;
    lemma_regrouped(start, p5, " --shutdown-grace-period "@);
    let p6 = p5 + " --shutdown-grace-period "@;
    lemma_regrouped(start, p6, period);
    let p7 = p6 + period;
    lemma_regrouped(start, p7, " --disable-telemetry "@);
    let p8 = p7 + " --disable-telemetry "@;
    lemma_regrouped(start, p8, further_arguments);
    let p9 = p8 + further_arguments;
    lemma_regrouped(start + p9, "&> >("@, redirects.skip(5));
    lemma_regrouped(start, p9, "&> >("@);
    let whole = start + part;
    let e0 = redirects.skip(5);
    lemma_regrouped(whole, e0, " &\n"@);
    let e1 = e0 + " &\n"@;
    lemma_regrouped(whole, e1, "wait_for_termination $!\n"@);
    let e2 = e1 + "wait_for_termination $!\n"@;
    lemma_regrouped(whole, e2, snippets.create_vector_shutdown_file);
    let e3 = e2 + snippets.create_vector_shutdown_file;
    lemma_regrouped(whole, e3, "\n"@);
    assert(script == start + part + end);
    lemma_contains_part(start, part, end);
}

proof fn lemma_redirects_start(levels: OpaLogLevels, container_name: Seq<char>)
    ensures
        logging_redirects(levels, container_name) == "&> >("@ + logging_redirects(
            levels,
            container_name,
        ).skip(5),
{
    let redirects = logging_redirects(levels, container_name);
    reveal_strlit("&> >(CONSOLE_LEVEL=");
    reveal_strlit("&> >(");
    assert(redirects =~= "&> >("@ + redirects.skip(5));
}

proof fn lemma_script_start(
    snippets: ShellSnippetsView,
    port: nat,
    config_file: Seq<char>,
    log_level: Seq<char>,
    shutdown_grace_period: nat,
    further_arguments: Seq<char>,
    levels: OpaLogLevels,
    container_name: Seq<char>,
)
    ensures
        (snippets.trap_functions + "\n"@ + snippets.remove_vector_shutdown_file + "\n"@
            + "prepare_signal_handlers\n"@ + "containerdebug --output="@ + STACKABLE_LOG_DIR@
            + "/containerdebug-state.json --loop &\n"@ + "opa run -s -a 0.0.0.0:"@).is_prefix_of(
            server_script(
                snippets,
                port,
                config_file,
                log_level,
                shutdown_grace_period,
                further_arguments,
                levels,
                container_name,
            ),
        ),
{
    let start = snippets.trap_functions + "\n"@ + snippets.remove_vector_shutdown_file + "\n"@
        + "prepare_signal_handlers\n"@ + "containerdebug --output="@ + STACKABLE_LOG_DIR@
        + "/containerdebug-state.json --loop &\n"@ + "opa run -s -a 0.0.0.0:"@;
    lemma_starts_with(start, start, decimal(port));
    let s0 = start + decimal(port);
    lemma_starts_with(start, s0, " -c "@);
    let s1 = s0 + " -c "@;
    lemma_starts_with(start, s1, CONFIG_DIR@);
    let s2 = s1 + CONFIG_DIR@;
    lemma_starts_with(start, s2, "/"@);
    let s3 = s2 + "/"@;
    lemma_starts_with(start, s3, config_file);
    let s4 = s3 + config_file;
    lemma_starts_with(start, s4, " -l "@);
    let s5 = s4 + " -l "@;
    lemma_starts_with(start, s5, log_level);
    let s6 = s5 + log_level;
    lemma_starts_with(start, s6, " --shutdown-grace-period "@);
    let s7 = s6 + " --shutdown-grace-period "@;
    lemma_starts_with(start, s7, decimal(shutdown_grace_period));
    let s8 = s7 + decimal(shutdown_grace_period);
    lemma_starts_with(start, s8, " --disable-telemetry "@);
    let s9 = s8 + " --disable-telemetry "@;
    lemma_starts_with(start, s9, further_arguments);
    let s10 = s9 + further_arguments;
    lemma_starts_with(start, s10, logging_redirects(levels, container_name));
    let s11 = s10 + logging_redirects(levels, container_name);
    lemma_starts_with(start, s11, " &\n"@);
    let s12 = s11 + " &\n"@;
    lemma_starts_with(start, s12, "wait_for_termination $!\n"@);
    let s13 = s12 + "wait_for_termination $!\n"@;
    lemma_starts_with(start, s13, snippets.create_vector_shutdown_file);
    let s14 = s13 + snippets.create_vector_shutdown_file;
    lemma_starts_with(start, s14, "\n"@);
}

proof fn lemma_script_end(
    snippets: ShellSnippetsView,
    port: nat,
    config_file: Seq<char>,
    log_level: Seq<char>,
    shutdown_grace_period: nat,
    further_arguments: Seq<char>,
    levels: OpaLogLevels,
    container_name: Seq<char>,
)
    ensures
        ({
            let script = server_script(
                snippets,
                port,
                config_file,
                log_level,
                shutdown_grace_period,
                further_arguments,
                levels,
                container_name,
            );
            &&& (snippets.create_vector_shutdown_file + "\n"@).is_suffix_of(script)
            &&& (" process-logs)"@ + " &\n"@ + "wait_for_termination $!\n"@
                + snippets.create_vector_shutdown_file + "\n"@).is_suffix_of(script)
        }),
{
    let start = snippets.trap_functions + "\n"@ + snippets.remove_vector_shutdown_file + "\n"@
        + "prepare_signal_handlers\n"@ + "containerdebug --output="@ + STACKABLE_LOG_DIR@
        + "/containerdebug-state.json --loop &\n"@ + "opa run -s -a 0.0.0.0:"@ + decimal(port)
        + " -c "@ + CONFIG_DIR@ + "/"@ + config_file + " -l "@ + log_level
        + " --shutdown-grace-period "@ + decimal(shutdown_grace_period) + " --disable-telemetry "@
        + further_arguments;
    let redirects = logging_redirects(levels, container_name);
    let inner = "&> >(CONSOLE_LEVEL="@ + levels.console.spec_name() + " FILE_LEVEL="@
        + levels.file.spec_name() + " DECISION_LEVEL="@ + levels.decision.spec_name()
        + " SERVER_LEVEL="@ + levels.server.spec_name() + " OPA_ROLLING_LOG_FILE_SIZE_BYTES="@
        + decimal(OPA_ROLLING_LOG_FILE_SIZE_BYTES as nat) + " OPA_ROLLING_LOG_FILES="@ + decimal(
        OPA_ROLLING_LOG_FILES as nat,
    ) + " STACKABLE_LOG_DIR="@ + STACKABLE_LOG_DIR@ + " CONTAINER_NAME="@ + container_name;
    let wait = "wait_for_termination $!\n"@;
    let create = snippets.create_vector_shutdown_file;
    assert(redirects == inner + " process-logs)"@);
    lemma_regrouped(start + redirects + " &\n"@ + wait, create, "\n"@);
    lemma_ends_with(start + redirects + " &\n"@ + wait, create + "\n"@);
    lemma_regrouped(start, inner, " process-logs)"@);
    let before = start + inner;
    let end = " process-logs)"@;
    lemma_regrouped(before, end, " &\n"@);
    lemma_regrouped(before, end + " &\n"@, wait);
    lemma_regrouped(before, end + " &\n"@ + wait, create);
    lemma_regrouped(before, end + " &\n"@ + wait + create, "\n"@);
    lemma_ends_with(before, end + " &\n"@ + wait + create + "\n"@);
}

/// OPA runs between the snippets of the platform: the signal handlers are in place before it starts,
/// and the log agent is told to shut down once it has stopped.
#[verifier::rlimit(40)]
pub proof fn lemma_opa_script_frame(
    snippets: ShellSnippetsView,
    port: nat,
    config_file: Seq<char>,
    log_level: Seq<char>,
    shutdown_grace_period: nat,
    further_arguments: Seq<char>,
    levels: OpaLogLevels,
    container_name: Seq<char>,
)
    ensures
        ({
            let script = server_script(
                snippets,
                port,
                config_file,
                log_level,
                shutdown_grace_period,
                further_arguments,
                levels,
                container_name,
            );
            &&& (snippets.trap_functions + "\n"@ + snippets.remove_vector_shutdown_file
                + "\nprepare_signal_handlers\ncontainerdebug --output=/stackable/log/containerdebug-state.json --loop &\nopa run "@).is_prefix_of(
            script)
            &&& (" process-logs) &\nwait_for_termination $!\n"@ + snippets.create_vector_shutdown_file
                + "\n"@).is_suffix_of(script)
        }),
{
    let script = server_script(
        snippets,
        port,
        config_file,
        log_level,
        shutdown_grace_period,
        further_arguments,
        levels,
        container_name,
    );
    let literal =
        "\nprepare_signal_handlers\ncontainerdebug --output=/stackable/log/containerdebug-state.json --loop &\nopa run "@;
    let written = "\n"@ + "prepare_signal_handlers\n"@ + "containerdebug --output="@
        + STACKABLE_LOG_DIR@ + "/containerdebug-state.json --loop &\n"@ + "opa run -s -a 0.0.0.0:"@;
    let closing = " process-logs)"@ + " &\n"@ + "wait_for_termination $!\n"@;
    let head = snippets.trap_functions + "\n"@ + snippets.remove_vector_shutdown_file;
    assert(literal.is_prefix_of(written) && closing
        == " process-logs) &\nwait_for_termination $!\n"@) by {
        reveal_strlit("\n");
        reveal_strlit("prepare_signal_handlers\n");
        reveal_strlit("containerdebug --output=");
        reveal_strlit("/stackable/log");
        reveal_strlit("/containerdebug-state.json --loop &\n");
        reveal_strlit("opa run -s -a 0.0.0.0:");
        reveal_strlit(
            "\nprepare_signal_handlers\ncontainerdebug --output=/stackable/log/containerdebug-state.json --loop &\nopa run ",
        );
        reveal_strlit(" process-logs)");
        reveal_strlit(" &\n");
        reveal_strlit("wait_for_termination $!\n");
        reveal_strlit(" process-logs) &\nwait_for_termination $!\n");
        assert(literal =~= written.take(literal.len() as int));
        assert(closing =~= " process-logs) &\nwait_for_termination $!\n"@);
    }
    lemma_script_start(
        snippets,
        port,
        config_file,
        log_level,
        shutdown_grace_period,
        further_arguments,
        levels,
        container_name,
    );
    lemma_script_end(
        snippets,
        port,
        config_file,
        log_level,
        shutdown_grace_period,
        further_arguments,
        levels,
        container_name,
    );
    lemma_regrouped(head, "\n"@, "prepare_signal_handlers\n"@);
    let w0 = "\n"@ + "prepare_signal_handlers\n"@;
    lemma_regrouped(head, w0, "containerdebug --output="@);
    let w1 = w0 + "containerdebug --output="@;
    lemma_regrouped(head, w1, STACKABLE_LOG_DIR@);
    let w2 = w1 + STACKABLE_LOG_DIR@;
    lemma_regrouped(head, w2, "/containerdebug-state.json --loop &\n"@);
    let w3 = w2 + "/containerdebug-state.json --loop &\n"@;
    lemma_regrouped(head, w3, "opa run -s -a 0.0.0.0:"@);
    assert((head + written).is_prefix_of(script));
    lemma_shorter_start(head, literal, written, script);
}

proof fn lemma_shorter_start(head: Seq<char>, part: Seq<char>, whole: Seq<char>, text: Seq<char>)
    requires
        part.is_prefix_of(whole),
        (head + whole).is_prefix_of(text),
    ensures
        (head + part).is_prefix_of(text),
{
    assert((head + part) =~= (head + whole).take((head + part).len() as int));
    assert((head + part) =~= text.take((head + part).len() as int));
}

/// The output of OPA is logged at the levels for console and file, its decisions and its own messages
/// at theirs, and it ends up in rotated files in the log directory of the container.
#[verifier::rlimit(40)]
pub proof fn lemma_logging_redirects(levels: OpaLogLevels, container_name: Seq<char>)
    ensures
        ({
            let text = logging_redirects(levels, container_name);
            &&& contains_text(text, "(CONSOLE_LEVEL="@ + levels.console.spec_name() + " "@)
            &&& contains_text(text, " FILE_LEVEL="@ + levels.file.spec_name() + " "@)
            &&& contains_text(text, " DECISION_LEVEL="@ + levels.decision.spec_name() + " "@)
            &&& contains_text(text, " SERVER_LEVEL="@ + levels.server.spec_name() + " "@)
            &&& contains_text(
                text,
                " OPA_ROLLING_LOG_FILE_SIZE_BYTES=5000000 OPA_ROLLING_LOG_FILES=2 "@,
            )
            &&& contains_text(
                text,
                " STACKABLE_LOG_DIR=/stackable/log CONTAINER_NAME="@ + container_name + " process-logs)"@,
            )
        }),
{
    let text = logging_redirects(levels, container_name);
    let console = levels.console.spec_name();
    let file = levels.file.spec_name();
    let decision = levels.decision.spec_name();
    let server = levels.server.spec_name();
    let sizes = " OPA_ROLLING_LOG_FILE_SIZE_BYTES="@ + decimal(5000000) + " OPA_ROLLING_LOG_FILES="@
        + decimal(2);
    let place = " STACKABLE_LOG_DIR="@ + STACKABLE_LOG_DIR@ + " CONTAINER_NAME="@ + container_name
        + " process-logs)"@;
    let n0 = "&> >(CONSOLE_LEVEL="@ + console;
    let n1 = n0 + " FILE_LEVEL="@ + file;
    let n2 = n1 + " DECISION_LEVEL="@ + decision;
    let n3 = n2 + " SERVER_LEVEL="@ + server;
    let size = " OPA_ROLLING_LOG_FILE_SIZE_BYTES="@;
    lemma_regrouped(n3, size, decimal(5000000));
    lemma_regrouped(n3, size + decimal(5000000), " OPA_ROLLING_LOG_FILES="@);
    lemma_regrouped(n3, size + decimal(5000000) + " OPA_ROLLING_LOG_FILES="@, decimal(2));
    let n4 = n3 + sizes;
    let directory = " STACKABLE_LOG_DIR="@ + STACKABLE_LOG_DIR@;
    lemma_regrouped(n4, " STACKABLE_LOG_DIR="@, STACKABLE_LOG_DIR@);
    lemma_regrouped(n4, directory, " CONTAINER_NAME="@);
    lemma_regrouped(n4, directory + " CONTAINER_NAME="@, container_name);
    lemma_regrouped(n4, directory + " CONTAINER_NAME="@ + container_name, " process-logs)"@);
    assert(text == n3 + sizes + place);
    let p0 = "(CONSOLE_LEVEL="@ + console + " "@;
    let p1 = " FILE_LEVEL="@ + file + " "@;
    let p2 = " DECISION_LEVEL="@ + decision + " "@;
    let p3 = " SERVER_LEVEL="@ + server + " "@;
    let p4 = " OPA_ROLLING_LOG_FILE_SIZE_BYTES=5000000 OPA_ROLLING_LOG_FILES=2 "@;
    assert("&> >(CONSOLE_LEVEL="@ == "&> >"@ + "(CONSOLE_LEVEL="@) by {
        reveal_strlit("&> >(CONSOLE_LEVEL=");
        reveal_strlit("&> >");
        reveal_strlit("(CONSOLE_LEVEL=");
        assert("&> >(CONSOLE_LEVEL="@ =~= "&> >"@ + "(CONSOLE_LEVEL="@);
    }
    lemma_spaces();
    let t1 = sizes + place;
    let t2 = " SERVER_LEVEL="@ + server + t1;
    let t3 = " DECISION_LEVEL="@ + decision + t2;
    let t4 = " FILE_LEVEL="@ + file + t3;
    lemma_regrouped(n3, sizes, place);
    lemma_regrouped(n2, " SERVER_LEVEL="@, server);
    lemma_regrouped(n2, " SERVER_LEVEL="@ + server, t1);
    lemma_regrouped(n1, " DECISION_LEVEL="@, decision);
    lemma_regrouped(n1, " DECISION_LEVEL="@ + decision, t2);
    lemma_regrouped(n0, " FILE_LEVEL="@, file);
    lemma_regrouped(n0, " FILE_LEVEL="@ + file, t3);
    assert(contains_text(text, p0)) by {
        assert(text == "&> >"@ + "(CONSOLE_LEVEL="@ + console + t4);
        lemma_setting("&> >"@, "(CONSOLE_LEVEL="@, console, t4);
    }
    assert(contains_text(text, p1)) by {
        lemma_setting(n0, " FILE_LEVEL="@, file, t3);
    }
    assert(contains_text(text, p2)) by {
        lemma_setting(n1, " DECISION_LEVEL="@, decision, t2);
    }
    assert(contains_text(text, p3)) by {
        lemma_setting(n2, " SERVER_LEVEL="@, server, t1);
    }
    assert(contains_text(text, p4)) by {
        lemma_rolling_file_sizes();
        assert(place =~= " "@ + place.skip(1));
        lemma_regrouped(n3 + sizes, " "@, place.skip(1));
        lemma_regrouped(n3, sizes, " "@);
        lemma_contains_part(n3, p4, place.skip(1));
    }
    assert(" STACKABLE_LOG_DIR="@ + STACKABLE_LOG_DIR@ + " CONTAINER_NAME="@
        == " STACKABLE_LOG_DIR=/stackable/log CONTAINER_NAME="@) by {
        reveal_strlit(" STACKABLE_LOG_DIR=");
        reveal_strlit("/stackable/log");
        reveal_strlit(" CONTAINER_NAME=");
        reveal_strlit(" STACKABLE_LOG_DIR=/stackable/log CONTAINER_NAME=");
        assert(" STACKABLE_LOG_DIR="@ + STACKABLE_LOG_DIR@ + " CONTAINER_NAME="@
            =~= " STACKABLE_LOG_DIR=/stackable/log CONTAINER_NAME="@);
    }
    assert(contains_text(text, place)) by {
        assert(text =~= n4 + place + Seq::empty());
        lemma_contains_part(n4, place, Seq::empty());
    }
}

proof fn lemma_setting(start: Seq<char>, name: Seq<char>, value: Seq<char>, end: Seq<char>)
    requires
        end.len() > 0,
        end[0] == ' ',
    ensures
        contains_text(start + name + value + end, name + value + " "@),
{
    reveal_strlit(" ");
    let part = name + value + " "@;
    assert(start + name + value + end =~= start + part + end.skip(1));
    lemma_contains_part(start, part, end.skip(1));
}

proof fn lemma_spaces()
    ensures
        " "@ == seq![' '],
        " FILE_LEVEL="@.len() > 0 && " FILE_LEVEL="@[0] == ' ',
        " DECISION_LEVEL="@.len() > 0 && " DECISION_LEVEL="@[0] == ' ',
        " SERVER_LEVEL="@.len() > 0 && " SERVER_LEVEL="@[0] == ' ',
        " OPA_ROLLING_LOG_FILE_SIZE_BYTES="@.len() > 0 && " OPA_ROLLING_LOG_FILE_SIZE_BYTES="@[0]
            == ' ',
        " STACKABLE_LOG_DIR="@.len() > 0 && " STACKABLE_LOG_DIR="@[0] == ' ',
{
    reveal_strlit(" ");
    reveal_strlit(" FILE_LEVEL=");
    reveal_strlit(" DECISION_LEVEL=");
    reveal_strlit(" SERVER_LEVEL=");
    reveal_strlit(" OPA_ROLLING_LOG_FILE_SIZE_BYTES=");
    reveal_strlit(" STACKABLE_LOG_DIR=");
    assert(" "@ =~= seq![' ']);
}

proof fn lemma_rolling_file_sizes()
    ensures
        " OPA_ROLLING_LOG_FILE_SIZE_BYTES="@ + decimal(5000000) + " OPA_ROLLING_LOG_FILES="@
            + decimal(2) + " "@ == " OPA_ROLLING_LOG_FILE_SIZE_BYTES=5000000 OPA_ROLLING_LOG_FILES=2 "@,
{
    reveal_with_fuel(decimal, 7);
    reveal_strlit(" OPA_ROLLING_LOG_FILE_SIZE_BYTES=");
    reveal_strlit(" OPA_ROLLING_LOG_FILES=");
    reveal_strlit(" ");
    reveal_strlit(" OPA_ROLLING_LOG_FILE_SIZE_BYTES=5000000 OPA_ROLLING_LOG_FILES=2 ");
    assert(decimal(5000000) =~= seq!['5', '0', '0', '0', '0', '0', '0']);
    assert(decimal(2) =~= seq!['2']);
}

/// Each kind of output is logged at the level that is set for it. Without one, console and file log
/// `INFO`, the messages of the server follow the root logger, and decisions are not logged.
pub proof fn lemma_log_levels(log: AutomaticContainerLogConfigView)
    ensures
        ({
            let levels = log_levels(Some(log));
            &&& log.console is Some && log.console->0.level is Some ==> levels.console
                == log.console->0.level->0
            &&& log.console is None || log.console->0.level is None ==> levels.console
                == LogLevel::INFO
            &&& log.file is Some && log.file->0.level is Some ==> levels.file
                == log.file->0.level->0
            &&& log.file is None || log.file->0.level is None ==> levels.file == LogLevel::INFO
            &&& log.loggers.contains_key("server"@) ==> levels.server
                == log.loggers["server"@].level
            &&& !log.loggers.contains_key("server"@) && log.loggers.contains_key("ROOT"@)
                ==> levels.server == log.loggers["ROOT"@].level
            &&& !log.loggers.contains_key("server"@) && !log.loggers.contains_key("ROOT"@)
                ==> levels.server == LogLevel::INFO
            &&& log.loggers.contains_key("decision"@) ==> levels.decision
                == log.loggers["decision"@].level
            &&& !log.loggers.contains_key("decision"@) ==> levels.decision == LogLevel::NONE
        }),
{
}

/// A container whose logging the operator does not configure logs everything at `INFO`, but no
/// decisions.
pub proof fn lemma_default_log_levels()
    ensures
        log_levels(None).console == LogLevel::INFO,
        log_levels(None).file == LogLevel::INFO,
        log_levels(None).server == LogLevel::INFO,
        log_levels(None).decision == LogLevel::NONE,
        opa_level(None) == LogLevel::INFO,
        !decision_logging(None),
{
}

/// OPA itself logs enough for both console and file: at the level of one of them, and of both where
/// they agree.
pub proof fn lemma_opa_level_serves_both(config: Option<AutomaticContainerLogConfigView>)
    ensures
        ({
            let level = opa_level(config);
            let levels = log_levels(config);
            &&& level == levels.console || level == levels.file
            &&& level.spec_more_verbose(levels.console) == level
            &&& level.spec_more_verbose(levels.file) == level
        }),
{
}

/// Decisions are logged exactly where the `decision` logger is set to something else than `NONE`.
pub proof fn lemma_decision_logging(log: AutomaticContainerLogConfigView)
    ensures
        decision_logging(Some(log)) <==> log.loggers.contains_key("decision"@)
            && log.loggers["decision"@].level != LogLevel::NONE,
{
}

/// The bundle-builder is run in the background, its log directory exists by then, and the script waits
/// for it. Its output goes nowhere exactly where the console is switched off.
#[verifier::rlimit(40)]
pub proof fn lemma_bundle_builder_is_run(
    trap_functions: Seq<char>,
    config: Option<AutomaticContainerLogConfigView>,
    container_name: Seq<char>,
)
    ensures
        ({
            let script = bundle_builder_script(trap_functions, config, container_name);
            let off = config is Some && config->0.console is Some && config->0.console->0.level
                == Some(LogLevel::NONE);
            &&& (trap_functions + "\nprepare_signal_handlers\nmkdir -p /stackable/log/"@
                + container_name + "\nstackable-opa-bundle-builder "@).is_prefix_of(script)
            &&& off ==> "\nstackable-opa-bundle-builder > /dev/null &\nwait_for_termination $!\n"@.is_suffix_of(
                script,
            )
            &&& !off ==> "\nstackable-opa-bundle-builder &\nwait_for_termination $!\n"@.is_suffix_of(
                script,
            )
        }),
{
    let script = bundle_builder_script(trap_functions, config, container_name);
    let a = "\n"@ + "prepare_signal_handlers\n"@ + "mkdir -p "@ + STACKABLE_LOG_DIR@ + "/"@;
    assert(a == "\nprepare_signal_handlers\nmkdir -p /stackable/log/"@) by {
        reveal_strlit("\n");
        reveal_strlit("prepare_signal_handlers\n");
        reveal_strlit("mkdir -p ");
        reveal_strlit("/stackable/log");
        reveal_strlit("/");
        reveal_strlit("\nprepare_signal_handlers\nmkdir -p /stackable/log/");
        assert(a =~= "\nprepare_signal_handlers\nmkdir -p /stackable/log/"@);
    }
    let quiet = "\n"@ + "stackable-opa-bundle-builder"@ + " > /dev/null"@ + " &\n"@
        + "wait_for_termination $!\n"@;
    let loud = "\n"@ + "stackable-opa-bundle-builder"@ + ""@ + " &\n"@
        + "wait_for_termination $!\n"@;
    let end = if console_off(config) {
        quiet
    } else {
        loud
    };
    let run = "\nstackable-opa-bundle-builder "@;
    assert(quiet == "\nstackable-opa-bundle-builder > /dev/null &\nwait_for_termination $!\n"@
        && loud == "\nstackable-opa-bundle-builder &\nwait_for_termination $!\n"@
        && run.is_prefix_of(quiet) && run.is_prefix_of(loud)) by {
        reveal_strlit("\n");
        reveal_strlit("stackable-opa-bundle-builder");
        reveal_strlit(" > /dev/null");
        reveal_strlit("");
        reveal_strlit(" &\n");
        reveal_strlit("wait_for_termination $!\n");
        reveal_strlit("\nstackable-opa-bundle-builder ");
        reveal_strlit("\nstackable-opa-bundle-builder > /dev/null &\nwait_for_termination $!\n");
        reveal_strlit("\nstackable-opa-bundle-builder &\nwait_for_termination $!\n");
        assert(quiet =~= "\nstackable-opa-bundle-builder > /dev/null &\nwait_for_termination $!\n"@);
        assert(loud =~= "\nstackable-opa-bundle-builder &\nwait_for_termination $!\n"@);
        assert(run =~= quiet.take(run.len() as int));
        assert(run =~= loud.take(run.len() as int));
    }
    let head = trap_functions + a + container_name;
    assert(script =~= head + end);
    assert((head + run) =~= script.take((head + run).len() as int));
    assert(end =~= script.skip(script.len() - end.len()));
}

/// An OPA Pod is prepared by creating the directories for active, incoming and temporary bundles, each
/// after it was announced. Where the output is captured, that is set up before anything else.
#[verifier::rlimit(40)]
pub proof fn lemma_bundle_directories_are_created(capture: Option<Seq<char>>)
    ensures
        ({
            let commands = prepare_commands(capture);
            let n = if capture is Some {
                1int
            } else {
                0int
            };
            &&& commands.len() == n + 6
            &&& capture is Some ==> commands[0] == capture->0
            &&& commands[n] == "echo \"Create dir [/bundles/active]\""@
            &&& commands[n + 1] == "mkdir -p /bundles/active"@
            &&& commands[n + 2] == "echo \"Create dir [/bundles/incoming]\""@
            &&& commands[n + 3] == "mkdir -p /bundles/incoming"@
            &&& commands[n + 4] == "echo \"Create dir [/bundles/tmp]\""@
            &&& commands[n + 5] == "mkdir -p /bundles/tmp"@
        }),
{
    reveal_strlit("echo \"Create dir [");
    reveal_strlit("]\"");
    reveal_strlit("mkdir -p ");
    assert(create_directory(BUNDLES_ACTIVE_DIR@) =~= seq![
        "echo \"Create dir [/bundles/active]\""@,
        "mkdir -p /bundles/active"@,
    ]) by {
        reveal_strlit("/bundles/active");
        reveal_strlit("echo \"Create dir [/bundles/active]\"");
        reveal_strlit("mkdir -p /bundles/active");
        assert(create_directory(BUNDLES_ACTIVE_DIR@)[0]
            =~= "echo \"Create dir [/bundles/active]\""@);
        assert(create_directory(BUNDLES_ACTIVE_DIR@)[1] =~= "mkdir -p /bundles/active"@);
    }
    assert(create_directory(BUNDLES_INCOMING_DIR@) =~= seq![
        "echo \"Create dir [/bundles/incoming]\""@,
        "mkdir -p /bundles/incoming"@,
    ]) by {
        reveal_strlit("/bundles/incoming");
        reveal_strlit("echo \"Create dir [/bundles/incoming]\"");
        reveal_strlit("mkdir -p /bundles/incoming");
        assert(create_directory(BUNDLES_INCOMING_DIR@)[0]
            =~= "echo \"Create dir [/bundles/incoming]\""@);
        assert(create_directory(BUNDLES_INCOMING_DIR@)[1] =~= "mkdir -p /bundles/incoming"@);
    }
    assert(create_directory(BUNDLES_TMP_DIR@) =~= seq![
        "echo \"Create dir [/bundles/tmp]\""@,
        "mkdir -p /bundles/tmp"@,
    ]) by {
        reveal_strlit("/bundles/tmp");
        reveal_strlit("echo \"Create dir [/bundles/tmp]\"");
        reveal_strlit("mkdir -p /bundles/tmp");
        assert(create_directory(BUNDLES_TMP_DIR@)[0] =~= "echo \"Create dir [/bundles/tmp]\""@);
        assert(create_directory(BUNDLES_TMP_DIR@)[1] =~= "mkdir -p /bundles/tmp"@);
    }
}

/// Both scripts start with the signal traps of the platform. That of OPA ends with the snippet that
/// tells the log agent to shut down.
#[verifier::rlimit(40)]
pub proof fn lemma_scripts_hold_snippets(
    snippets: ShellSnippetsView,
    port: nat,
    config_file: Seq<char>,
    log_level: Seq<char>,
    shutdown_grace_period: nat,
    further_arguments: Seq<char>,
    levels: OpaLogLevels,
    container_name: Seq<char>,
    config: Option<AutomaticContainerLogConfigView>,
)
    ensures
        ({
            let script = server_script(
                snippets,
                port,
                config_file,
                log_level,
                shutdown_grace_period,
                further_arguments,
                levels,
                container_name,
            );
            &&& snippets.trap_functions.is_prefix_of(script)
            &&& (snippets.create_vector_shutdown_file + "\n"@).is_suffix_of(script)
        }),
        snippets.trap_functions.is_prefix_of(
            bundle_builder_script(snippets.trap_functions, config, container_name),
        ),
{
    lemma_script_start(
        snippets,
        port,
        config_file,
        log_level,
        shutdown_grace_period,
        further_arguments,
        levels,
        container_name,
    );
    lemma_script_end(
        snippets,
        port,
        config_file,
        log_level,
        shutdown_grace_period,
        further_arguments,
        levels,
        container_name,
    );
    let start = snippets.trap_functions;
    assert(start =~= start.take(start.len() as int));
    lemma_starts_with(start, start, "\n"@);
    let s0 = start + "\n"@;
    lemma_starts_with(start, s0, snippets.remove_vector_shutdown_file);
    let s1 = s0 + snippets.remove_vector_shutdown_file;
    lemma_starts_with(start, s1, "\n"@);
    let s2 = s1 + "\n"@;
    lemma_starts_with(start, s2, "prepare_signal_handlers\n"@);
    let s3 = s2 + "prepare_signal_handlers\n"@;
    lemma_starts_with(start, s3, "containerdebug --output="@);
    let s4 = s3 + "containerdebug --output="@;
    lemma_starts_with(start, s4, STACKABLE_LOG_DIR@);
    let s5 = s4 + STACKABLE_LOG_DIR@;
    lemma_starts_with(start, s5, "/containerdebug-state.json --loop &\n"@);
    let s6 = s5 + "/containerdebug-state.json --loop &\n"@;
    lemma_starts_with(start, s6, "opa run -s -a 0.0.0.0:"@);
    let s7 = s6 + "opa run -s -a 0.0.0.0:"@;
    let script = server_script(
        snippets,
        port,
        config_file,
        log_level,
        shutdown_grace_period,
        further_arguments,
        levels,
        container_name,
    );
    lemma_starts_with(start, s7, script.skip(s7.len() as int));
    assert(script =~= s7 + script.skip(s7.len() as int));
    let quiet = if console_off(config) {
        " > /dev/null"@
    } else {
        ""@
    };
    lemma_starts_with(start, start, "\n"@);
    let b0 = start + "\n"@;
    lemma_starts_with(start, b0, "prepare_signal_handlers\n"@);
    let b1 = b0 + "prepare_signal_handlers\n"@;
    lemma_starts_with(start, b1, "mkdir -p "@);
    let b2 = b1 + "mkdir -p "@;
    lemma_starts_with(start, b2, STACKABLE_LOG_DIR@);
    let b3 = b2 + STACKABLE_LOG_DIR@;
    lemma_starts_with(start, b3, "/"@);
    let b4 = b3 + "/"@;
    lemma_starts_with(start, b4, container_name);
    let b5 = b4 + container_name;
    lemma_starts_with(start, b5, "\n"@);
    let b6 = b5 + "\n"@;
    lemma_starts_with(start, b6, "stackable-opa-bundle-builder"@);
    let b7 = b6 + "stackable-opa-bundle-builder"@;
    lemma_starts_with(start, b7, quiet);
    let b8 = b7 + quiet;
    lemma_starts_with(start, b8, " &\n"@);
    let b9 = b8 + " &\n"@;
    lemma_starts_with(start, b9, "wait_for_termination $!\n"@);
}

/// The output of OPA goes where the redirection says.
#[verifier::rlimit(40)]
pub proof fn lemma_script_redirects(
    snippets: ShellSnippetsView,
    port: nat,
    config_file: Seq<char>,
    log_level: Seq<char>,
    shutdown_grace_period: nat,
    further_arguments: Seq<char>,
    levels: OpaLogLevels,
    container_name: Seq<char>,
)
    ensures
        contains_text(
            server_script(
                snippets,
                port,
                config_file,
                log_level,
                shutdown_grace_period,
                further_arguments,
                levels,
                container_name,
            ),
            logging_redirects(levels, container_name) + " &\n"@,
        ),
        contains_text(
            server_script(
                snippets,
                port,
                config_file,
                log_level,
                shutdown_grace_period,
                further_arguments,
                levels,
                container_name,
            ),
            logging_redirects(levels, container_name),
        ),
{
    let start = snippets.trap_functions + "\n"@ + snippets.remove_vector_shutdown_file + "\n"@
        + "prepare_signal_handlers\n"@ + "containerdebug --output="@ + STACKABLE_LOG_DIR@
        + "/containerdebug-state.json --loop &\n"@ + "opa run -s -a 0.0.0.0:"@ + decimal(port)
        + " -c "@ + CONFIG_DIR@ + "/"@ + config_file + " -l "@ + log_level
        + " --shutdown-grace-period "@ + decimal(shutdown_grace_period) + " --disable-telemetry "@
        + further_arguments;
    let redirects = logging_redirects(levels, container_name);
    let wait = "wait_for_termination $!\n"@;
    lemma_regrouped(start, redirects, " &\n"@);
    let part = redirects + " &\n"@;
    lemma_regrouped(start + part, wait, snippets.create_vector_shutdown_file);
    lemma_regrouped(start + part, wait + snippets.create_vector_shutdown_file, "\n"@);
    lemma_contains_part(start, part, wait + snippets.create_vector_shutdown_file + "\n"@);
    lemma_contains_part(Seq::empty(), redirects, " &\n"@);
    assert(Seq::empty() + redirects + " &\n"@ =~= part);
    lemma_contains_transitive(
        start + part + (wait + snippets.create_vector_shutdown_file + "\n"@),
        part,
        redirects,
    );
}

/// The script logs each kind of output at the level for it, under the name of the container.
pub proof fn lemma_opa_log_output(
    snippets: ShellSnippetsView,
    port: nat,
    config_file: Seq<char>,
    log_level: Seq<char>,
    shutdown_grace_period: nat,
    arguments: Seq<char>,
    levels: OpaLogLevels,
    container_name: Seq<char>,
)
    ensures
        ({
            let script = server_script(
                snippets,
                port,
                config_file,
                log_level,
                shutdown_grace_period,
                arguments,
                levels,
                container_name,
            );
            &&& contains_text(script, "(CONSOLE_LEVEL="@ + levels.console.spec_name() + " "@)
            &&& contains_text(script, " FILE_LEVEL="@ + levels.file.spec_name() + " "@)
            &&& contains_text(script, " DECISION_LEVEL="@ + levels.decision.spec_name() + " "@)
            &&& contains_text(script, " SERVER_LEVEL="@ + levels.server.spec_name() + " "@)
            &&& contains_text(
                script,
                " STACKABLE_LOG_DIR=/stackable/log CONTAINER_NAME="@ + container_name
                    + " process-logs)"@,
            )
        }),
{
    let script = server_script(
        snippets,
        port,
        config_file,
        log_level,
        shutdown_grace_period,
        arguments,
        levels,
        container_name,
    );
    let redirects = logging_redirects(levels, container_name);
    lemma_logging_redirects(levels, container_name);
    lemma_script_redirects(
        snippets,
        port,
        config_file,
        log_level,
        shutdown_grace_period,
        arguments,
        levels,
        container_name,
    );
    lemma_contains_transitive(
        script,
        redirects,
        "(CONSOLE_LEVEL="@ + levels.console.spec_name() + " "@,
    );
    lemma_contains_transitive(script, redirects, " FILE_LEVEL="@ + levels.file.spec_name() + " "@);
    lemma_contains_transitive(
        script,
        redirects,
        " DECISION_LEVEL="@ + levels.decision.spec_name() + " "@,
    );
    lemma_contains_transitive(
        script,
        redirects,
        " SERVER_LEVEL="@ + levels.server.spec_name() + " "@,
    );
    lemma_contains_transitive(
        script,
        redirects,
        " STACKABLE_LOG_DIR=/stackable/log CONTAINER_NAME="@ + container_name + " process-logs)"@,
    );
}

/// Whether a text has no flag of OPA in it that is about TLS.
pub open spec fn without_tls(text: Seq<char>) -> bool {
    !contains_text(text, "--tls"@)
}

/// Whether a text has no such flag in it, and neither begins nor ends like a part of one.
spec fn settled(text: Seq<char>) -> bool {
    &&& without_tls(text)
    &&& text.len() > 0
    &&& !flag_character(text[0])
    &&& !flag_character(text.last())
}

spec fn flag_character(c: char) -> bool {
    c == '-' || c == 't' || c == 'l' || c == 's'
}

proof fn lemma_goes_on_without_tls(left: Seq<char>, right: Seq<char>)
    requires
        without_tls(left),
        without_tls(right),
        left.len() == 0 || right.len() == 0 || !flag_character(left.last()) || !flag_character(
            right[0],
        ),
    ensures
        without_tls(left + right),
{
    let text = left + right;
    let flag = "--tls"@;
    reveal_strlit("--tls");
    if contains_text(text, flag) {
        let i = choose|i: int|
            0 <= i <= text.len() - flag.len() && #[trigger] text.subrange(i, i + flag.len()) == flag;
        let found = text.subrange(i, i + 5);
        let n = left.len() as int;
        if i + 5 <= n {
            assert(left.subrange(i, i + 5) =~= flag);
        } else if i >= n {
            assert(right.subrange(i - n, i - n + 5) =~= flag);
        } else {
            assert(found[n - 1 - i] == left.last());
            assert(found[n - i] == right[0]);
            assert(forall|k: int| 0 <= k < 5 ==> flag_character(#[trigger] flag[k]));
            assert(flag_character(flag[n - 1 - i]) && flag_character(flag[n - i]));
        }
    }
}

proof fn lemma_no_flag_here(text: Seq<char>)
    requires
        forall|i: int|
            0 <= i < text.len() - 4 ==> !((#[trigger] text[i]) == '-' && text[i + 1] == '-' && text[i
                + 2] == 't'),
    ensures
        without_tls(text),
{
    reveal_strlit("--tls");
    if contains_text(text, "--tls"@) {
        let i = choose|i: int|
            0 <= i <= text.len() - "--tls"@.len() && #[trigger] text.subrange(i, i + "--tls"@.len())
                == "--tls"@;
        let found = text.subrange(i, i + 5);
        assert(found[0] == text[i] && found[1] == text[i + 1] && found[2] == text[i + 2]);
    }
}

proof fn lemma_number_without_tls(n: nat)
    ensures
        without_tls(decimal(n)),
{
    lemma_decimal(n);
    lemma_no_flag_here(decimal(n));
}

proof fn lemma_level_without_tls(level: LogLevel)
    ensures
        without_tls(level.spec_name()),
{
    reveal_strlit("TRACE");
    reveal_strlit("DEBUG");
    reveal_strlit("INFO");
    reveal_strlit("WARN");
    reveal_strlit("ERROR");
    reveal_strlit("FATAL");
    reveal_strlit("NONE");
    lemma_no_flag_here(level.spec_name());
}

proof fn lemma_script_literals()
    ensures
        settled("\n"@),
        settled("prepare_signal_handlers\n"@),
        settled("containerdebug --output="@),
        settled("/stackable/log"@),
        settled("/containerdebug-state.json --loop &\n"@),
        settled("opa run -s -a 0.0.0.0:"@),
        settled(" -c "@),
        settled("/stackable/config"@),
        settled("/"@),
        settled(" -l "@),
        settled(" --shutdown-grace-period "@),
        settled(" --disable-telemetry "@),
        settled(" &\n"@),
        settled("wait_for_termination $!\n"@),
{
    reveal_strlit("--tls");
    assert(settled("\n"@)) by {
        reveal_strlit("\n");
        lemma_no_flag_here("\n"@);
    }
    assert(settled("prepare_signal_handlers\n"@)) by {
        reveal_strlit("prepare_signal_handlers\n");
        lemma_no_flag_here("prepare_signal_handlers\n"@);
    }
    assert(settled("containerdebug --output="@)) by {
        reveal_strlit("containerdebug --output=");
        lemma_no_flag_here("containerdebug --output="@);
    }
    assert(settled("/stackable/log"@)) by {
        reveal_strlit("/stackable/log");
        lemma_no_flag_here("/stackable/log"@);
    }
    assert(settled("/containerdebug-state.json --loop &\n"@)) by {
        reveal_strlit("/containerdebug-state.json --loop &\n");
        lemma_no_flag_here("/containerdebug-state.json --loop &\n"@);
    }
    assert(settled("opa run -s -a 0.0.0.0:"@)) by {
        reveal_strlit("opa run -s -a 0.0.0.0:");
        lemma_no_flag_here("opa run -s -a 0.0.0.0:"@);
    }
    assert(settled(" -c "@)) by {
        reveal_strlit(" -c ");
        lemma_no_flag_here(" -c "@);
    }
    assert(settled("/stackable/config"@)) by {
        reveal_strlit("/stackable/config");
        lemma_no_flag_here("/stackable/config"@);
    }
    assert(settled("/"@)) by {
        reveal_strlit("/");
        lemma_no_flag_here("/"@);
    }
    assert(settled(" -l "@)) by {
        reveal_strlit(" -l ");
        lemma_no_flag_here(" -l "@);
    }
    assert(settled(" --shutdown-grace-period "@)) by {
        reveal_strlit(" --shutdown-grace-period ");
        lemma_no_flag_here(" --shutdown-grace-period "@);
    }
    assert(settled(" --disable-telemetry "@)) by {
        reveal_strlit(" --disable-telemetry ");
        lemma_no_flag_here(" --disable-telemetry "@);
    }
    assert(settled(" &\n"@)) by {
        reveal_strlit(" &\n");
        lemma_no_flag_here(" &\n"@);
    }
    assert(settled("wait_for_termination $!\n"@)) by {
        reveal_strlit("wait_for_termination $!\n");
        lemma_no_flag_here("wait_for_termination $!\n"@);
    }
}

proof fn lemma_redirect_literals()
    ensures
        settled("&> >(CONSOLE_LEVEL="@),
        settled(" FILE_LEVEL="@),
        settled(" DECISION_LEVEL="@),
        settled(" SERVER_LEVEL="@),
        settled(" OPA_ROLLING_LOG_FILE_SIZE_BYTES="@),
        settled(" OPA_ROLLING_LOG_FILES="@),
        settled(" STACKABLE_LOG_DIR="@),
        settled(" CONTAINER_NAME="@),
        settled(" process-logs)"@),
{
    reveal_strlit("--tls");
    assert(settled("&> >(CONSOLE_LEVEL="@)) by {
        reveal_strlit("&> >(CONSOLE_LEVEL=");
        lemma_no_flag_here("&> >(CONSOLE_LEVEL="@);
    }
    assert(settled(" FILE_LEVEL="@)) by {
        reveal_strlit(" FILE_LEVEL=");
        lemma_no_flag_here(" FILE_LEVEL="@);
    }
    assert(settled(" DECISION_LEVEL="@)) by {
        reveal_strlit(" DECISION_LEVEL=");
        lemma_no_flag_here(" DECISION_LEVEL="@);
    }
    assert(settled(" SERVER_LEVEL="@)) by {
        reveal_strlit(" SERVER_LEVEL=");
        lemma_no_flag_here(" SERVER_LEVEL="@);
    }
    assert(settled(" OPA_ROLLING_LOG_FILE_SIZE_BYTES="@)) by {
        reveal_strlit(" OPA_ROLLING_LOG_FILE_SIZE_BYTES=");
        lemma_no_flag_here(" OPA_ROLLING_LOG_FILE_SIZE_BYTES="@);
    }
    assert(settled(" OPA_ROLLING_LOG_FILES="@)) by {
        reveal_strlit(" OPA_ROLLING_LOG_FILES=");
        lemma_no_flag_here(" OPA_ROLLING_LOG_FILES="@);
    }
    assert(settled(" STACKABLE_LOG_DIR="@)) by {
        reveal_strlit(" STACKABLE_LOG_DIR=");
        lemma_no_flag_here(" STACKABLE_LOG_DIR="@);
    }
    assert(settled(" CONTAINER_NAME="@)) by {
        reveal_strlit(" CONTAINER_NAME=");
        lemma_no_flag_here(" CONTAINER_NAME="@);
    }
    assert(settled(" process-logs)"@)) by {
        reveal_strlit(" process-logs)");
        lemma_no_flag_here(" process-logs)"@);
    }
}

#[verifier::rlimit(40)]
proof fn lemma_redirects_without_tls(levels: OpaLogLevels, container_name: Seq<char>)
    requires
        without_tls(container_name),
    ensures
        without_tls(logging_redirects(levels, container_name)),
        logging_redirects(levels, container_name).len() > 0,
        logging_redirects(levels, container_name)[0] == '&',
{
    lemma_redirect_literals();
    assert("&> >(CONSOLE_LEVEL="@[0] == '&') by {
        reveal_strlit("&> >(CONSOLE_LEVEL=");
    }
    lemma_level_without_tls(levels.console);
    lemma_level_without_tls(levels.file);
    lemma_level_without_tls(levels.decision);
    lemma_level_without_tls(levels.server);
    lemma_number_without_tls(OPA_ROLLING_LOG_FILE_SIZE_BYTES as nat);
    lemma_number_without_tls(OPA_ROLLING_LOG_FILES as nat);
    assert(settled(STACKABLE_LOG_DIR@)) by {
        reveal_strlit("/stackable/log");
        lemma_no_flag_here(STACKABLE_LOG_DIR@);
    }
    let r = "&> >(CONSOLE_LEVEL="@;
    lemma_goes_on_without_tls(r, levels.console.spec_name());
    let r0 = r + levels.console.spec_name();
    lemma_goes_on_without_tls(r0, " FILE_LEVEL="@);
    let r1 = r0 + " FILE_LEVEL="@;
    lemma_goes_on_without_tls(r1, levels.file.spec_name());
    let r2 = r1 + levels.file.spec_name();
    lemma_goes_on_without_tls(r2, " DECISION_LEVEL="@);
    let r3 = r2 + " DECISION_LEVEL="@;
    lemma_goes_on_without_tls(r3, levels.decision.spec_name());
    let r4 = r3 + levels.decision.spec_name();
    lemma_goes_on_without_tls(r4, " SERVER_LEVEL="@);
    let r5 = r4 + " SERVER_LEVEL="@;
    lemma_goes_on_without_tls(r5, levels.server.spec_name());
    let r6 = r5 + levels.server.spec_name();
    lemma_goes_on_without_tls(r6, " OPA_ROLLING_LOG_FILE_SIZE_BYTES="@);
    let r7 = r6 + " OPA_ROLLING_LOG_FILE_SIZE_BYTES="@;
    lemma_goes_on_without_tls(r7, decimal(OPA_ROLLING_LOG_FILE_SIZE_BYTES as nat));
    let r8 = r7 + decimal(OPA_ROLLING_LOG_FILE_SIZE_BYTES as nat);
    lemma_goes_on_without_tls(r8, " OPA_ROLLING_LOG_FILES="@);
    let r9 = r8 + " OPA_ROLLING_LOG_FILES="@;
    lemma_goes_on_without_tls(r9, decimal(OPA_ROLLING_LOG_FILES as nat));
    let r10 = r9 + decimal(OPA_ROLLING_LOG_FILES as nat);
    lemma_goes_on_without_tls(r10, " STACKABLE_LOG_DIR="@);
    let r11 = r10 + " STACKABLE_LOG_DIR="@;
    lemma_goes_on_without_tls(r11, STACKABLE_LOG_DIR@);
    let r12 = r11 + STACKABLE_LOG_DIR@;
    lemma_goes_on_without_tls(r12, " CONTAINER_NAME="@);
    let r13 = r12 + " CONTAINER_NAME="@;
    lemma_goes_on_without_tls(r13, container_name);
    let r14 = r13 + container_name;
    lemma_goes_on_without_tls(r14, " process-logs)"@);
}

/// No flag about TLS is in the script but where one of the texts has it that the script is made of.
#[verifier::rlimit(60)]
pub proof fn lemma_script_without_tls(
    snippets: ShellSnippetsView,
    port: nat,
    config_file: Seq<char>,
    log_level: Seq<char>,
    shutdown_grace_period: nat,
    further_arguments: Seq<char>,
    levels: OpaLogLevels,
    container_name: Seq<char>,
)
    requires
        without_tls(snippets.trap_functions),
        without_tls(snippets.remove_vector_shutdown_file),
        without_tls(snippets.create_vector_shutdown_file),
        without_tls(config_file),
        without_tls(log_level),
        without_tls(further_arguments),
        without_tls(container_name),
    ensures
        without_tls(
            server_script(
                snippets,
                port,
                config_file,
                log_level,
                shutdown_grace_period,
                further_arguments,
                levels,
                container_name,
            ),
        ),
{
    lemma_script_literals();
    lemma_number_without_tls(port);
    lemma_number_without_tls(shutdown_grace_period);
    lemma_redirects_without_tls(levels, container_name);
    let s = snippets.trap_functions;
    lemma_goes_on_without_tls(s, "\n"@);
    let s0 = s + "\n"@;
    lemma_goes_on_without_tls(s0, snippets.remove_vector_shutdown_file);
    let s1 = s0 + snippets.remove_vector_shutdown_file;
    lemma_goes_on_without_tls(s1, "\n"@);
    let s2 = s1 + "\n"@;
    lemma_goes_on_without_tls(s2, "prepare_signal_handlers\n"@);
    let s3 = s2 + "prepare_signal_handlers\n"@;
    lemma_goes_on_without_tls(s3, "containerdebug --output="@);
    let s4 = s3 + "containerdebug --output="@;
    lemma_goes_on_without_tls(s4, STACKABLE_LOG_DIR@);
    let s5 = s4 + STACKABLE_LOG_DIR@;
    lemma_goes_on_without_tls(s5, "/containerdebug-state.json --loop &\n"@);
    let s6 = s5 + "/containerdebug-state.json --loop &\n"@;
    lemma_goes_on_without_tls(s6, "opa run -s -a 0.0.0.0:"@);
    let s7 = s6 + "opa run -s -a 0.0.0.0:"@;
    lemma_goes_on_without_tls(s7, decimal(port));
    let s8 = s7 + decimal(port);
    lemma_goes_on_without_tls(s8, " -c "@);
    let s9 = s8 + " -c "@;
    lemma_goes_on_without_tls(s9, CONFIG_DIR@);
    let s10 = s9 + CONFIG_DIR@;
    lemma_goes_on_without_tls(s10, "/"@);
    let s11 = s10 + "/"@;
    lemma_goes_on_without_tls(s11, config_file);
    let s12 = s11 + config_file;
    lemma_goes_on_without_tls(s12, " -l "@);
    let s13 = s12 + " -l "@;
    lemma_goes_on_without_tls(s13, log_level);
    let s14 = s13 + log_level;
    lemma_goes_on_without_tls(s14, " --shutdown-grace-period "@);
    let s15 = s14 + " --shutdown-grace-period "@;
    lemma_goes_on_without_tls(s15, decimal(shutdown_grace_period));
    let s16 = s15 + decimal(shutdown_grace_period);
    lemma_goes_on_without_tls(s16, " --disable-telemetry "@);
    let s17 = s16 + " --disable-telemetry "@;
    lemma_goes_on_without_tls(s17, further_arguments);
    let s18 = s17 + further_arguments;
    lemma_goes_on_without_tls(s18, logging_redirects(levels, container_name));
    let s19 = s18 + logging_redirects(levels, container_name);
    lemma_goes_on_without_tls(s19, " &\n"@);
    let s20 = s19 + " &\n"@;
    lemma_goes_on_without_tls(s20, "wait_for_termination $!\n"@);
    let s21 = s20 + "wait_for_termination $!\n"@;
    lemma_goes_on_without_tls(s21, snippets.create_vector_shutdown_file);
    let s22 = s21 + snippets.create_vector_shutdown_file;
    lemma_goes_on_without_tls(s22, "\n"@);
}

/// A text without flags about TLS names neither a certificate nor a private key.
pub proof fn lemma_no_tls_flags(text: Seq<char>)
    requires
        without_tls(text),
    ensures
        !contains_text(text, "--tls-cert-file"@),
        !contains_text(text, "--tls-private-key-file"@),
{
    reveal_strlit("--tls");
    reveal_strlit("--tls-cert-file");
    reveal_strlit("--tls-private-key-file");
    let nothing = Seq::<char>::empty();
    assert("--tls-cert-file"@ =~= nothing + "--tls"@ + "--tls-cert-file"@.skip(5));
    assert("--tls-private-key-file"@ =~= nothing + "--tls"@ + "--tls-private-key-file"@.skip(5));
    lemma_contains_part(nothing, "--tls"@, "--tls-cert-file"@.skip(5));
    lemma_contains_part(nothing, "--tls"@, "--tls-private-key-file"@.skip(5));
    if contains_text(text, "--tls-cert-file"@) {
        lemma_contains_transitive(text, "--tls-cert-file"@, "--tls"@);
    }
    if contains_text(text, "--tls-private-key-file"@) {
        lemma_contains_transitive(text, "--tls-private-key-file"@, "--tls"@);
    }
}

/// Without TLS the arguments that OPA is given have no flag about TLS, unless the user adds one.
pub proof fn lemma_arguments_without_tls(cli_overrides: Map<Seq<char>, Seq<char>>)
    requires
        without_tls(cli_arguments(cli_overrides)),
    ensures
        without_tls(further_arguments(false, cli_overrides)),
{
    let nothing = Seq::<char>::empty();
    let user = cli_arguments(cli_overrides);
    assert(settled(" "@)) by {
        reveal_strlit(" ");
        lemma_no_flag_here(" "@);
    }
    lemma_goes_on_without_tls(" "@, user);
    lemma_goes_on_without_tls(" "@ + user, " "@);
    assert(further_arguments(false, cli_overrides) =~= " "@ + user + " "@);
}

} // verus!
