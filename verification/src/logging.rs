//! Log levels and the logging configuration of containers.
use crate::text_map::TextMap;
use crate::value::Value;
use vstd::prelude::*;

verus! {

/// Log levels, from the most to the least verbose.
#[derive(Clone, Copy, Debug, PartialEq, Eq, Structural)]
pub enum LogLevel {
    TRACE,
    DEBUG,
    INFO,
    WARN,
    ERROR,
    FATAL,
    NONE,
}

impl DeepView for LogLevel {
    type V = LogLevel;

    open spec fn deep_view(&self) -> LogLevel {
        *self
    }
}

impl Value for LogLevel {
    fn duplicate(&self) -> (copy: Self) {
        *self
    }

    fn same_as(&self, other: &Self) -> (same: bool) {
        *self == *other
    }
}

impl Default for LogLevel {
    fn default() -> (value: Self)
        ensures
            value == LogLevel::INFO,
    {
        LogLevel::INFO
    }
}

impl LogLevel {
    /// The level as it is written in configuration.
    pub open spec fn spec_name(self) -> Seq<char> {
        match self {
            LogLevel::TRACE => "TRACE"@,
            LogLevel::DEBUG => "DEBUG"@,
            LogLevel::INFO => "INFO"@,
            LogLevel::WARN => "WARN"@,
            LogLevel::ERROR => "ERROR"@,
            LogLevel::FATAL => "FATAL"@,
            LogLevel::NONE => "NONE"@,
        }
    }

    /// The level as it is written in configuration.
    pub fn name(&self) -> (text: String)
        ensures
            text@ == self.spec_name(),
    {
        match self {
            LogLevel::TRACE => "TRACE".to_owned(),
            LogLevel::DEBUG => "DEBUG".to_owned(),
            LogLevel::INFO => "INFO".to_owned(),
            LogLevel::WARN => "WARN".to_owned(),
            LogLevel::ERROR => "ERROR".to_owned(),
            LogLevel::FATAL => "FATAL".to_owned(),
            LogLevel::NONE => "NONE".to_owned(),
        }
    }
}

impl LogLevel {
    /// The position of the level, starting with the most verbose one.
    pub open spec fn rank(self) -> int {
        match self {
            LogLevel::TRACE => 0,
            LogLevel::DEBUG => 1,
            LogLevel::INFO => 2,
            LogLevel::WARN => 3,
            LogLevel::ERROR => 4,
            LogLevel::FATAL => 5,
            LogLevel::NONE => 6,
        }
    }

    fn position(&self) -> (rank: u8)
        ensures
            rank == self.rank(),
    {
        match self {
            LogLevel::TRACE => 0,
            LogLevel::DEBUG => 1,
            LogLevel::INFO => 2,
            LogLevel::WARN => 3,
            LogLevel::ERROR => 4,
            LogLevel::FATAL => 5,
            LogLevel::NONE => 6,
        }
    }

    /// The more verbose of two levels.
    pub open spec fn spec_more_verbose(self, other: LogLevel) -> LogLevel {
        if other.rank() < self.rank() {
            other
        } else {
            self
        }
    }

    /// The more verbose of two levels.
    pub fn more_verbose(&self, other: &LogLevel) -> (level: LogLevel)
        ensures
            level == self.spec_more_verbose(*other),
    {
        if other.position() < self.position() {
            *other
        } else {
            *self
        }
    }
}

/// The log levels as a product spells them.
pub struct LevelNames {
    pub trace: String,
    pub debug: String,
    pub info: String,
    pub warn: String,
    pub error: String,
    pub fatal: String,
    pub none: String,
}

/// The contents of [`LevelNames`].
#[verifier::ext_equal]
pub struct LevelNamesView {
    pub trace: Seq<char>,
    pub debug: Seq<char>,
    pub info: Seq<char>,
    pub warn: Seq<char>,
    pub error: Seq<char>,
    pub fatal: Seq<char>,
    pub none: Seq<char>,
}

impl DeepView for LevelNames {
    type V = LevelNamesView;

    open spec fn deep_view(&self) -> LevelNamesView {
        LevelNamesView {
            trace: self.trace@,
            debug: self.debug@,
            info: self.info@,
            warn: self.warn@,
            error: self.error@,
            fatal: self.fatal@,
            none: self.none@,
        }
    }
}

/// A level as a product spells it.
pub open spec fn spelled(names: LevelNamesView, level: LogLevel) -> Seq<char> {
    match level {
        LogLevel::TRACE => names.trace,
        LogLevel::DEBUG => names.debug,
        LogLevel::INFO => names.info,
        LogLevel::WARN => names.warn,
        LogLevel::ERROR => names.error,
        LogLevel::FATAL => names.fatal,
        LogLevel::NONE => names.none,
    }
}

impl LevelNames {
    /// A level as the product spells it.
    pub fn spelling(&self, level: LogLevel) -> (text: &str)
        ensures
            text@ == spelled(self.deep_view(), level),
    {
        match level {
            LogLevel::TRACE => self.trace.as_str(),
            LogLevel::DEBUG => self.debug.as_str(),
            LogLevel::INFO => self.info.as_str(),
            LogLevel::WARN => self.warn.as_str(),
            LogLevel::ERROR => self.error.as_str(),
            LogLevel::FATAL => self.fatal.as_str(),
            LogLevel::NONE => self.none.as_str(),
        }
    }
}

/// The configuration of one logger.
#[derive(Clone, Debug, PartialEq, Eq)]
pub struct LoggerConfig {
    pub level: LogLevel,
}

/// The contents of a [`LoggerConfig`].
#[verifier::ext_equal]
pub struct LoggerConfigView {
    pub level: LogLevel,
}

impl DeepView for LoggerConfig {
    type V = LoggerConfigView;

    open spec fn deep_view(&self) -> LoggerConfigView {
        LoggerConfigView {
            level: self.level.deep_view(),
        }
    }
}

impl Value for LoggerConfig {
    fn duplicate(&self) -> (copy: Self) {
        LoggerConfig {
            level: self.level.duplicate(),
        }
    }

    fn same_as(&self, other: &Self) -> (same: bool) {
        self.level.same_as(&other.level)
    }
}

/// The configuration of one log output.
#[derive(Clone, Debug, PartialEq, Eq)]
pub struct AppenderConfig {
    /// Messages below this level are not written.
    pub level: Option<LogLevel>,
}

/// The contents of an [`AppenderConfig`].
#[verifier::ext_equal]
pub struct AppenderConfigView {
    pub level: Option<LogLevel>,
}

impl DeepView for AppenderConfig {
    type V = AppenderConfigView;

    open spec fn deep_view(&self) -> AppenderConfigView {
        AppenderConfigView {
            level: self.level.deep_view(),
        }
    }
}

impl Value for AppenderConfig {
    fn duplicate(&self) -> (copy: Self) {
        AppenderConfig {
            level: self.level.duplicate(),
        }
    }

    fn same_as(&self, other: &Self) -> (same: bool) {
        self.level.same_as(&other.level)
    }
}

/// Logging of a container, where the operator writes the log configuration itself.
#[derive(Clone, Debug, PartialEq, Eq)]
pub struct AutomaticContainerLogConfig {
    /// Levels by logger; the root logger is named `ROOT`.
    pub loggers: TextMap<LoggerConfig>,
    pub console: Option<AppenderConfig>,
    pub file: Option<AppenderConfig>,
}

/// The contents of an [`AutomaticContainerLogConfig`].
#[verifier::ext_equal]
pub struct AutomaticContainerLogConfigView {
    pub loggers: Map<Seq<char>, LoggerConfigView>,
    pub console: Option<AppenderConfigView>,
    pub file: Option<AppenderConfigView>,
}

impl DeepView for AutomaticContainerLogConfig {
    type V = AutomaticContainerLogConfigView;

    open spec fn deep_view(&self) -> AutomaticContainerLogConfigView {
        AutomaticContainerLogConfigView {
            loggers: self.loggers.deep_view(),
            console: self.console.deep_view(),
            file: self.file.deep_view(),
        }
    }
}

impl Value for AutomaticContainerLogConfig {
    fn duplicate(&self) -> (copy: Self) {
        AutomaticContainerLogConfig {
            loggers: self.loggers.duplicate(),
            console: self.console.duplicate(),
            file: self.file.duplicate(),
        }
    }

    fn same_as(&self, other: &Self) -> (same: bool) {
        self.loggers.same_as(&other.loggers)
            && self.console.same_as(&other.console)
            && self.file.same_as(&other.file)
    }
}

/// The name of the root logger.
pub const ROOT_LOGGER: &'static str = "ROOT";

/// The level set for a logger, if it is configured.
pub open spec fn logger_level(
    config: AutomaticContainerLogConfigView,
    logger: Seq<char>,
) -> Option<LogLevel> {
    if config.loggers.contains_key(logger) {
        Some(config.loggers[logger].level)
    } else {
        None
    }
}

/// The level of the root logger; `INFO` where it is not configured.
pub open spec fn root_level(config: AutomaticContainerLogConfigView) -> LogLevel {
    match logger_level(config, ROOT_LOGGER@) {
        Some(level) => level,
        None => LogLevel::INFO,
    }
}

/// The level set for an output, if there is one.
pub open spec fn appender_level(appender: Option<AppenderConfigView>) -> Option<LogLevel> {
    match appender {
        Some(appender) => appender.level,
        None => None,
    }
}

impl AutomaticContainerLogConfig {
    /// The level set for `logger`, if it is configured.
    pub fn logger_level(&self, logger: &str) -> (level: Option<LogLevel>)
        ensures
            level == logger_level(self.deep_view(), logger@),
    {
        match self.loggers.get(logger) {
            Some(config) => Some(config.level),
            None => None,
        }
    }

    /// The level of the root logger; `INFO` where it is not configured.
    pub fn root_log_level(&self) -> (level: LogLevel)
        ensures
            level == root_level(self.deep_view()),
    {
        match self.logger_level(ROOT_LOGGER) {
            Some(level) => level,
            None => LogLevel::INFO,
        }
    }

    /// The level set for the console, if there is one.
    pub fn console_level(&self) -> (level: Option<LogLevel>)
        ensures
            level == appender_level(self.deep_view().console),
    {
        match &self.console {
            Some(appender) => appender.level,
            None => None,
        }
    }

    /// The level set for the log file, if there is one.
    pub fn file_level(&self) -> (level: Option<LogLevel>)
        ensures
            level == appender_level(self.deep_view().file),
    {
        match &self.file {
            Some(appender) => appender.level,
            None => None,
        }
    }
}

/// How the log configuration of a container comes about.
#[derive(Clone, Debug, PartialEq, Eq)]
pub enum ContainerLogConfigChoice {
    /// The operator writes it.
    Automatic(AutomaticContainerLogConfig),
    /// It is taken from the ConfigMap of that name.
    Custom(String),
}

/// The contents of a [`ContainerLogConfigChoice`].
#[verifier::ext_equal]
pub enum ContainerLogConfigChoiceView {
    Automatic(AutomaticContainerLogConfigView),
    Custom(Seq<char>),
}

impl DeepView for ContainerLogConfigChoice {
    type V = ContainerLogConfigChoiceView;

    open spec fn deep_view(&self) -> ContainerLogConfigChoiceView {
        match self {
            ContainerLogConfigChoice::Automatic(inner) => {
                ContainerLogConfigChoiceView::Automatic(inner.deep_view())
            },
            ContainerLogConfigChoice::Custom(inner) => {
                ContainerLogConfigChoiceView::Custom(inner.deep_view())
            },
        }
    }
}

impl Value for ContainerLogConfigChoice {
    fn duplicate(&self) -> (copy: Self) {
        match self {
            ContainerLogConfigChoice::Automatic(inner) => {
                ContainerLogConfigChoice::Automatic(inner.duplicate())
            },
            ContainerLogConfigChoice::Custom(inner) => {
                ContainerLogConfigChoice::Custom(inner.duplicate())
            },
        }
    }

    fn same_as(&self, other: &Self) -> (same: bool) {
        match (self, other) {
            (ContainerLogConfigChoice::Automatic(left), ContainerLogConfigChoice::Automatic(right)) => {
                left.same_as(right)
            },
            (ContainerLogConfigChoice::Custom(left), ContainerLogConfigChoice::Custom(right)) => {
                left.same_as(right)
            },
            _ => false,
        }
    }
}

/// Logging of one container.
#[derive(Clone, Debug, PartialEq, Eq)]
pub struct ContainerLogConfig {
    pub choice: Option<ContainerLogConfigChoice>,
}

/// The contents of a [`ContainerLogConfig`].
#[verifier::ext_equal]
pub struct ContainerLogConfigView {
    pub choice: Option<ContainerLogConfigChoiceView>,
}

impl DeepView for ContainerLogConfig {
    type V = ContainerLogConfigView;

    open spec fn deep_view(&self) -> ContainerLogConfigView {
        ContainerLogConfigView {
            choice: self.choice.deep_view(),
        }
    }
}

impl Value for ContainerLogConfig {
    fn duplicate(&self) -> (copy: Self) {
        ContainerLogConfig {
            choice: self.choice.duplicate(),
        }
    }

    fn same_as(&self, other: &Self) -> (same: bool) {
        self.choice.same_as(&other.choice)
    }
}

/// The automatic log configuration, where that is what was chosen.
pub open spec fn automatic_choice(config: Option<ContainerLogConfigView>) -> Option<
    AutomaticContainerLogConfigView,
> {
    match config {
        Some(ContainerLogConfigView { choice: Some(ContainerLogConfigChoiceView::Automatic(log)) }) => {
            Some(log)
        },
        _ => None,
    }
}

impl ContainerLogConfig {
    /// The automatic log configuration, where that is what was chosen.
    pub fn automatic(&self) -> (config: Option<&AutomaticContainerLogConfig>)
        ensures
            config is Some == automatic_choice(Some(self.deep_view())) is Some,
            config matches Some(log) ==> log.deep_view() == automatic_choice(
                Some(self.deep_view()),
            )->0,
    {
        match &self.choice {
            Some(ContainerLogConfigChoice::Automatic(log)) => Some(log),
            _ => None,
        }
    }
}

/// The log level passed to the Rust sidecars (bundle-builder, info fetchers) through their environment.
#[derive(Clone, Copy, Debug, PartialEq, Eq, Structural)]
pub enum BundleBuilderLogLevel {
    Trace,
    Debug,
    Info,
    Warn,
    Error,
}

impl DeepView for BundleBuilderLogLevel {
    type V = BundleBuilderLogLevel;

    open spec fn deep_view(&self) -> BundleBuilderLogLevel {
        *self
    }
}

impl Value for BundleBuilderLogLevel {
    fn duplicate(&self) -> (copy: Self) {
        *self
    }

    fn same_as(&self, other: &Self) -> (same: bool) {
        *self == *other
    }
}

impl BundleBuilderLogLevel {
    /// The level as the sidecars read it.
    pub open spec fn spec_name(self) -> Seq<char> {
        match self {
            BundleBuilderLogLevel::Trace => "TRACE"@,
            BundleBuilderLogLevel::Debug => "DEBUG"@,
            BundleBuilderLogLevel::Info => "INFO"@,
            BundleBuilderLogLevel::Warn => "WARN"@,
            BundleBuilderLogLevel::Error => "ERROR"@,
        }
    }

    /// The level as the sidecars read it.
    pub fn name(&self) -> (text: String)
        ensures
            text@ == self.spec_name(),
    {
        match self {
            BundleBuilderLogLevel::Trace => "TRACE".to_owned(),
            BundleBuilderLogLevel::Debug => "DEBUG".to_owned(),
            BundleBuilderLogLevel::Info => "INFO".to_owned(),
            BundleBuilderLogLevel::Warn => "WARN".to_owned(),
            BundleBuilderLogLevel::Error => "ERROR".to_owned(),
        }
    }
}

/// The sidecar level for a log level: what is above `ERROR` is still reported as `ERROR`.
pub open spec fn sidecar_level(level: LogLevel) -> BundleBuilderLogLevel {
    match level {
        LogLevel::TRACE => BundleBuilderLogLevel::Trace,
        LogLevel::DEBUG => BundleBuilderLogLevel::Debug,
        LogLevel::INFO => BundleBuilderLogLevel::Info,
        LogLevel::WARN => BundleBuilderLogLevel::Warn,
        LogLevel::ERROR | LogLevel::FATAL | LogLevel::NONE => BundleBuilderLogLevel::Error,
    }
}

impl From<LogLevel> for BundleBuilderLogLevel {
    fn from(level: LogLevel) -> (result: Self) {
        match level {
            LogLevel::TRACE => BundleBuilderLogLevel::Trace,
            LogLevel::DEBUG => BundleBuilderLogLevel::Debug,
            LogLevel::INFO => BundleBuilderLogLevel::Info,
            LogLevel::WARN => BundleBuilderLogLevel::Warn,
            LogLevel::ERROR | LogLevel::FATAL | LogLevel::NONE => BundleBuilderLogLevel::Error,
        }
    }
}

impl vstd::std_specs::convert::FromSpecImpl<LogLevel> for BundleBuilderLogLevel {
    open spec fn obeys_from_spec() -> bool {
        true
    }

    open spec fn from_spec(level: LogLevel) -> BundleBuilderLogLevel {
        sidecar_level(level)
    }
}

/// The sidecar level of a container: that of its root logger where one is configured, else `INFO`.
pub open spec fn sidecar_log_level(
    config: Option<AutomaticContainerLogConfigView>,
) -> BundleBuilderLogLevel {
    match config {
        Some(log) => match logger_level(log, ROOT_LOGGER@) {
            Some(level) => sidecar_level(level),
            None => BundleBuilderLogLevel::Info,
        },
        None => BundleBuilderLogLevel::Info,
    }
}

/// The deep view of a borrowed automatic log configuration.
pub open spec fn borrowed_log(config: Option<&AutomaticContainerLogConfig>) -> Option<
    AutomaticContainerLogConfigView,
> {
    match config {
        Some(log) => Some(log.deep_view()),
        None => None,
    }
}

/// The sidecar level of a container: that of its root logger where one is configured, else `INFO`.
pub fn level_for_sidecar(config: Option<&AutomaticContainerLogConfig>) -> (level:
    BundleBuilderLogLevel)
    ensures
        level == sidecar_log_level(borrowed_log(config)),
{
    match config {
        Some(log) => match log.logger_level(ROOT_LOGGER) {
            Some(level) => BundleBuilderLogLevel::from(level),
            None => BundleBuilderLogLevel::Info,
        },
        None => BundleBuilderLogLevel::Info,
    }
}

/// Levels are ordered from `TRACE`, the most verbose, to `NONE`. Of two levels the more verbose one
/// is the same whichever comes first.
pub proof fn lemma_levels_by_verbosity(level: LogLevel, other: LogLevel)
    ensures
        LogLevel::TRACE.spec_more_verbose(LogLevel::DEBUG) == LogLevel::TRACE,
        LogLevel::DEBUG.spec_more_verbose(LogLevel::INFO) == LogLevel::DEBUG,
        LogLevel::INFO.spec_more_verbose(LogLevel::WARN) == LogLevel::INFO,
        LogLevel::WARN.spec_more_verbose(LogLevel::ERROR) == LogLevel::WARN,
        LogLevel::ERROR.spec_more_verbose(LogLevel::FATAL) == LogLevel::ERROR,
        LogLevel::FATAL.spec_more_verbose(LogLevel::NONE) == LogLevel::FATAL,
        LogLevel::TRACE.spec_more_verbose(level) == LogLevel::TRACE,
        LogLevel::NONE.spec_more_verbose(level) == level,
        level.spec_more_verbose(level) == level,
        level.spec_more_verbose(other) == other.spec_more_verbose(level),
        level.spec_more_verbose(other) == level || level.spec_more_verbose(other) == other,
{
}

/// The more verbose one of several levels does not depend on how they are grouped.
pub proof fn lemma_more_verbose_associates(a: LogLevel, b: LogLevel, c: LogLevel)
    ensures
        a.spec_more_verbose(b).spec_more_verbose(c) == a.spec_more_verbose(b.spec_more_verbose(c)),
{
}

/// Sidecars know no level less verbose than `ERROR`. All other levels are theirs too, under the same
/// name.
pub proof fn lemma_sidecar_level_names(level: LogLevel)
    ensures
        level == LogLevel::FATAL || level == LogLevel::NONE ==> sidecar_level(level).spec_name()
            == "ERROR"@,
        level != LogLevel::FATAL && level != LogLevel::NONE ==> sidecar_level(level).spec_name()
            == level.spec_name(),
        LogLevel::TRACE.spec_name() == "TRACE"@,
        LogLevel::DEBUG.spec_name() == "DEBUG"@,
        LogLevel::INFO.spec_name() == "INFO"@,
        LogLevel::WARN.spec_name() == "WARN"@,
        LogLevel::ERROR.spec_name() == "ERROR"@,
        LogLevel::FATAL.spec_name() == "FATAL"@,
        LogLevel::NONE.spec_name() == "NONE"@,
{
}

/// A sidecar logs at the level of its root logger, and at `INFO` where none is set.
pub proof fn lemma_sidecar_follows_root_logger(config: Option<AutomaticContainerLogConfigView>)
    ensures
        config is Some && config->0.loggers.contains_key("ROOT"@) ==> sidecar_log_level(config)
            == sidecar_level(config->0.loggers["ROOT"@].level),
        config is None || !config->0.loggers.contains_key("ROOT"@) ==> sidecar_log_level(
            config,
        ).spec_name() == "INFO"@,
{
}

/// The operator configures the logging of a container exactly where the choice is left to it.
pub proof fn lemma_automatic_choice(config: Option<ContainerLogConfigView>)
    ensures
        automatic_choice(config) is Some <==> config is Some && config->0.choice is Some
            && config->0.choice->0 is Automatic,
        automatic_choice(config) is Some ==> automatic_choice(config)->0
            == config->0.choice->0->Automatic_0,
{
}

/// Every level is spelled in its own way.
pub proof fn lemma_levels_spelled(names: LevelNamesView)
    ensures
        spelled(names, LogLevel::TRACE) == names.trace,
        spelled(names, LogLevel::DEBUG) == names.debug,
        spelled(names, LogLevel::INFO) == names.info,
        spelled(names, LogLevel::WARN) == names.warn,
        spelled(names, LogLevel::ERROR) == names.error,
        spelled(names, LogLevel::FATAL) == names.fatal,
        spelled(names, LogLevel::NONE) == names.none,
{
}

/// How the operator configures the logging of a container, where that is left to it.
pub open spec fn log_of(
    containers: Map<Seq<char>, ContainerLogConfigView>,
    container: Seq<char>,
) -> Option<AutomaticContainerLogConfigView> {
    if containers.contains_key(container) && containers[container].choice is Some
        && containers[container].choice->0 is Automatic {
        Some(containers[container].choice->0->Automatic_0)
    } else {
        None
    }
}

/// The name of the level that a sidecar logs at: that of its root logger, or `INFO`.
pub open spec fn sidecar_level_name(
    containers: Map<Seq<char>, ContainerLogConfigView>,
    container: Seq<char>,
) -> Seq<char> {
    match log_of(containers, container) {
        Some(log) => if log.loggers.contains_key("ROOT"@) {
            match log.loggers["ROOT"@].level {
                LogLevel::TRACE => "TRACE"@,
                LogLevel::DEBUG => "DEBUG"@,
                LogLevel::INFO => "INFO"@,
                LogLevel::WARN => "WARN"@,
                LogLevel::ERROR | LogLevel::FATAL | LogLevel::NONE => "ERROR"@,
            }
        } else {
            "INFO"@
        },
        None => "INFO"@,
    }
}

} // verus!
