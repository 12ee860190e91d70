//! Tracing setup: a declarative configuration, built step by step, and the
//! setup that initialization carries out for it.

use vstd::prelude::*;
use vstd::string::*;

verus! {

/// Severity of an event, least severe first.
#[derive(Clone, Copy, Debug, PartialEq, Eq, Structural)]
pub enum Level {
    Trace,
    Debug,
    Info,
    Warn,
    Error,
}

impl Level {
    /// Position of the level in the order of severity.
    pub open spec fn severity(self) -> nat {
        match self {
            Level::Trace => 0,
            Level::Debug => 1,
            Level::Info => 2,
            Level::Warn => 3,
            Level::Error => 4,
        }
    }

    fn rank(self) -> (r: u8)
        ensures
            r == self.severity(),
    {
        match self {
            Level::Trace => 0,
            Level::Debug => 1,
            Level::Info => 2,
            Level::Warn => 3,
            Level::Error => 4,
        }
    }

    /// Whether a filter with this level as its minimum lets an event of
    /// level `event` through: it drops exactly the events strictly below.
    pub fn admits(self, event: Level) -> (r: bool)
        ensures
            r == (event.severity() >= self.severity()),
    {
        event.rank() >= self.rank()
    }
}

/// What a configuration says, as a mathematical value.
pub ghost struct Config {
    /// Events go to standard output.
    pub stdout: bool,
    /// Spans and events go to the profiler.
    pub tracy: bool,
    /// Events go to the file at this path.
    pub file: Option<Seq<char>>,
    /// The least severity that is let through; `Info` where none is set.
    pub level: Option<Level>,
}

impl Config {
    /// The configuration with no sink and no level.
    pub open spec fn empty() -> Config {
        Config { stdout: false, tracy: false, file: None, level: None }
    }

    pub open spec fn with_stdout(self) -> Config {
        Config { stdout: true, ..self }
    }

    pub open spec fn with_tracy(self) -> Config {
        Config { tracy: true, ..self }
    }

    pub open spec fn with_file(self, path: Seq<char>) -> Config {
        Config { file: Some(path), ..self }
    }

    pub open spec fn with_level(self, level: Level) -> Config {
        Config { level: Some(level), ..self }
    }

    /// No sink is enabled.
    pub open spec fn is_silent(self) -> bool {
        !self.stdout && !self.tracy && self.file is None
    }

    /// The least severity that is let through.
    pub open spec fn min_level(self) -> Level {
        match self.level {
            Some(level) => level,
            None => Level::Info,
        }
    }

    /// The enabled sinks, from the bottom layer to the top.
    pub open spec fn sinks(self) -> Seq<Sink> {
        (if self.stdout {
            seq![Sink::Stdout]
        } else {
            Seq::empty()
        }) + (if self.tracy {
            seq![Sink::Tracy]
        } else {
            Seq::empty()
        }) + (if self.file is Some {
            seq![Sink::File]
        } else {
            Seq::empty()
        })
    }

    /// What initialization carries out for this configuration.
    pub open spec fn plan(self) -> Plan {
        Plan { sinks: self.sinks(), log_file: self.file, min_level: self.min_level() }
    }
}

/// A destination for events.
#[derive(Clone, Copy, Debug, PartialEq, Eq, Structural)]
pub enum Sink {
    /// Standard output, one line per event, without colour codes.
    Stdout,
    /// The profiler.
    Tracy,
    /// The log file, in the decorated multi-line form, without colour codes.
    File,
}

/// What a setup says, as a mathematical value.
pub ghost struct Plan {
    /// The sinks to layer, from the bottom layer to the top. The level
    /// filter lies above them all.
    pub sinks: Seq<Sink>,
    /// The file to create, truncating what it held, before any event is
    /// written. The panic hook is chained exactly when there is one.
    pub log_file: Option<Seq<char>>,
    /// The least severity that the level filter lets through.
    pub min_level: Level,
}

impl Plan {
    /// The sinks that receive an event of severity `event`: all of them, or
    /// none where the filter drops the event.
    pub open spec fn observers(self, event: Level) -> Seq<Sink> {
        if event.severity() >= self.min_level.severity() {
            self.sinks
        } else {
            Seq::empty()
        }
    }

    /// The panic hook is chained.
    pub open spec fn chains_panic_hook(self) -> bool {
        self.log_file is Some
    }

    /// The shutdown guard is active.
    pub open spec fn profiles(self) -> bool {
        self.sinks.contains(Sink::Tracy)
    }

    /// How initialization ends: with a guard, active or not, or with the
    /// first thing that failed. `file_created` says whether the log file
    /// could be created, `installed` whether the process took the
    /// subscriber, which it does once only.
    pub open spec fn outcome(self, file_created: bool, installed: bool) -> Result<bool, InitError> {
        if self.log_file is Some && !file_created {
            Err(InitError::LogFile)
        } else if !installed {
            Err(InitError::AlreadyInstalled)
        } else {
            Ok(self.profiles())
        }
    }
}

/// Why initialization failed. Either failure is fatal: there is no
/// recovery path.
#[derive(Clone, Copy, Debug, PartialEq, Eq, Structural)]
pub enum InitError {
    /// The log file could not be created.
    LogFile,
    /// A subscriber has already been installed in this process.
    AlreadyInstalled,
}

impl InitError {
    /// The diagnostic to end the process with.
    pub fn message(self) -> (r: &'static str)
        ensures
            r@ == match self {
                InitError::LogFile => "failed to create log file"@,
                InitError::AlreadyInstalled => "failed to set global tracing subscriber"@,
            },
    {
        match self {
            InitError::LogFile => "failed to create log file",
            InitError::AlreadyInstalled => "failed to set global tracing subscriber",
        }
    }
}

/// Configuration to use for tracing.
#[must_use]
pub struct TracingBuilder {
    log_to_stdout: bool,
    log_to_tracy: bool,
    log_to_file: Option<String>,
    log_level: Option<Level>,
}

impl View for TracingBuilder {
    type V = Config;

    closed spec fn view(&self) -> Config {
        Config {
            stdout: self.log_to_stdout,
            tracy: self.log_to_tracy,
            file: match self.log_to_file {
                Some(path) => Some(path@),
                None => None,
            },
            level: self.log_level,
        }
    }
}

impl TracingBuilder {
    /// Create an empty instance with no logging enabled.
    pub fn empty() -> (r: Self)
        ensures
            r@ == Config::empty(),
    {
        Self { log_to_stdout: false, log_to_tracy: false, log_to_file: None, log_level: None }
    }

    /// Enable logging to stdout.
    pub fn with_stdout(self) -> (r: Self)
        ensures
            r@ == self@.with_stdout(),
    {
        let mut builder = self;
        builder.log_to_stdout = true;
        builder
    }

    /// Enable logging to tracy.
    pub fn with_tracy(self) -> (r: Self)
        ensures
            r@ == self@.with_tracy(),
    {
        let mut builder = self;
        builder.log_to_tracy = true;
        builder
    }

    /// Enable logging to the specified file.
    pub fn with_file(self, path: &str) -> (r: Self)
        ensures
            r@ == self@.with_file(path@),
    {
        let mut builder = self;
        builder.log_to_file = Some(path.to_owned());
        builder
    }

    /// Set the log level.
    pub fn with_level(self, level: Level) -> (r: Self)
        ensures
            r@ == self@.with_level(level),
    {
        let mut builder = self;
        builder.log_level = Some(level);
        builder
    }

    /// Initialize the tracing configuration: decide what is installed.
    ///
    /// Each sink is taken up only if its option is enabled, in the order
    /// stdout, profiler, file; the level filter, `Info` by default, lies on
    /// top. The application creates the file, chains the panic hook,
    /// installs the subscriber and keeps the guard.
    pub fn init(self) -> (r: Setup)
        ensures
            r@ == self@.plan(),
    {
        let mut sinks: Vec<Sink> = Vec::new();
        if self.log_to_stdout {
            sinks.push(Sink::Stdout);
        }
        if self.log_to_tracy {
            sinks.push(Sink::Tracy);
        }
        if self.log_to_file.is_some() {
            sinks.push(Sink::File);
        }
        let min_level = match self.log_level {
            Some(level) => level,
            None => Level::Info,
        };
        assert(sinks@ =~= self@.sinks());
        Setup { sinks, log_file: self.log_to_file, min_level }
    }
}

/// What initialization installs: the outcome of [`TracingBuilder::init`].
pub struct Setup {
    sinks: Vec<Sink>,
    log_file: Option<String>,
    min_level: Level,
}

impl View for Setup {
    type V = Plan;

    closed spec fn view(&self) -> Plan {
        Plan {
            sinks: self.sinks@,
            log_file: match self.log_file {
                Some(path) => Some(path@),
                None => None,
            },
            min_level: self.min_level,
        }
    }
}

impl Setup {
    /// The sinks to layer, from the bottom layer to the top.
    pub fn sinks(&self) -> (r: &Vec<Sink>)
        ensures
            r@ == self@.sinks,
    {
        &self.sinks
    }

    /// The file to create and truncate before anything is installed.
    pub fn log_file(&self) -> (r: Option<&str>)
        ensures
            match r {
                Some(path) => self@.log_file == Some(path@),
                None => self@.log_file is None,
            },
    {
        match &self.log_file {
            Some(path) => Some(path.as_str()),
            None => None,
        }
    }

    /// The least severity that the level filter lets through.
    pub fn min_level(&self) -> (r: Level)
        ensures
            r == self@.min_level,
    {
        self.min_level
    }

    /// Whether the panic hook is chained: exactly when the file sink is
    /// enabled.
    pub fn chains_panic_hook(&self) -> (r: bool)
        ensures
            r == self@.chains_panic_hook(),
    {
        self.log_file.is_some()
    }

    /// The sinks that receive an event of severity `event`, from the bottom
    /// layer to the top. The filter lies above every sink, so an event
    /// reaches all of them or none.
    pub fn observers(&self, event: Level) -> (r: Vec<Sink>)
        ensures
            r@ == self@.observers(event),
    {
        let mut seen: Vec<Sink> = Vec::new();
        if self.min_level.admits(event) {
            let mut i: usize = 0;
            while i < self.sinks.len()
                invariant
                    i <= self.sinks.len(),
                    seen@ == self.sinks@.subrange(0, i as int),
                decreases self.sinks.len() - i,
            {
                seen.push(self.sinks[i]);
                i += 1;
            }
        }
        seen
    }

    /// How initialization ends, once the application has tried what the
    /// setup asks for.
    ///
    /// `file_created` says whether the log file could be created; where the
    /// setup has no log file it is not looked at. `installed` says whether
    /// the subscriber was installed process-wide, which is not tried after
    /// the file has failed. Initialization fails if the file is asked for
    /// and cannot be created, or else if a subscriber has already been
    /// installed; otherwise it hands out the shutdown guard.
    pub fn conclude(&self, file_created: bool, installed: bool) -> (r: Result<
        TracingDefer,
        InitError,
    >)
        ensures
            match r {
                Ok(guard) => self@.outcome(file_created, installed) == Ok::<bool, InitError>(
                    guard.is_active(),
                ),
                Err(error) => self@.outcome(file_created, installed) == Err::<bool, InitError>(
                    error,
                ),
            },
    {
        if self.log_file.is_some() && !file_created {
            Err(InitError::LogFile)
        } else if !installed {
            Err(InitError::AlreadyInstalled)
        } else {
            Ok(self.guard())
        }
    }

    /// The shutdown guard to keep while the program runs.
    pub fn guard(&self) -> (r: TracingDefer)
        ensures
            r.is_active() == self@.profiles(),
    {
        let mut active = false;
        let mut i: usize = 0;
        while i < self.sinks.len()
            invariant
                i <= self.sinks.len(),
                active <==> exists|j: int| 0 <= j < i && self.sinks@[j] == Sink::Tracy,
            decreases self.sinks.len() - i,
        {
            if let Sink::Tracy = self.sinks[i] {
                active = true;
            }
            i += 1;
        }
        TracingDefer::new(active)
    }
}

/// Seconds that the profiler is given to establish and to finish its
/// connection.
pub const TRACY_CONNECTION_TIMEOUT_SECS: u64 = 1;

/// Guard that ensures proper shutdown of tracy when dropped.
///
/// It is inert unless the profiler is enabled. An active guard blocks its
/// thread for the connection timeout twice: when it is created and when it
/// is dropped.
pub struct TracingDefer {
    is_tracy_enabled: bool,
}

impl TracingDefer {
    /// The guard is active.
    pub closed spec fn is_active(&self) -> bool {
        self.is_tracy_enabled
    }

    /// A guard that is active exactly when the profiler is enabled.
    pub fn new(is_tracy_enabled: bool) -> (r: Self)
        ensures
            r.is_active() == is_tracy_enabled,
    {
        Self { is_tracy_enabled }
    }

    /// How long creating and dropping the guard each block the thread, in
    /// seconds: nothing for an inert guard.
    pub fn settle_secs(&self) -> (r: Option<u64>)
        ensures
            r == if self.is_active() {
                Some(TRACY_CONNECTION_TIMEOUT_SECS)
            } else {
                None
            },
    {
        if self.is_tracy_enabled {
            Some(TRACY_CONNECTION_TIMEOUT_SECS)
        } else {
            None
        }
    }
}

/// What the panic hook writes to the log file before it hands the panic on:
/// the panic information, a blank line, the line `Stack backtrace:`, and the
/// backtrace.
pub fn panic_report(info: &str, backtrace: &str) -> (r: String)
    ensures
        r@ == info@ + "\n\nStack backtrace:\n"@ + backtrace@,
{
    let mut report = String::from_str(info);
    report.append("\n\nStack backtrace:\n");
    report.append(backtrace);
    report
}

impl Default for TracingBuilder {
    /// Create a default instance with logging to stdout enabled.
    fn default() -> (r: Self)
        ensures
            r@ == Config::empty().with_stdout(),
    {
        TracingBuilder::empty().with_stdout()
    }
}

/// Create a [`TracingBuilder`] instance with logging to stdout enabled.
pub fn stdout() -> (r: TracingBuilder)
    ensures
        r@ == Config::empty().with_stdout(),
{
    TracingBuilder::empty().with_stdout()
}

/// Create a [`TracingBuilder`] instance with logging to tracy enabled.
pub fn tracy() -> (r: TracingBuilder)
    ensures
        r@ == Config::empty().with_tracy(),
{
    TracingBuilder::empty().with_tracy()
}

/// Create a [`TracingBuilder`] instance with logging to a file enabled.
pub fn file(path: &str) -> (r: TracingBuilder)
    ensures
        r@ == Config::empty().with_file(path@),
{
    TracingBuilder::empty().with_file(path)
}

/// Builder composition does not depend on the order: any two of the four
/// options can be set in either order, and the same setup comes out.
pub proof fn lemma_composition_order_independent(c: Config, path: Seq<char>, level: Level)
    ensures
        c.with_stdout().with_file(path) == c.with_file(path).with_stdout(),
        c.with_stdout().with_tracy() == c.with_tracy().with_stdout(),
        c.with_stdout().with_level(level) == c.with_level(level).with_stdout(),
        c.with_tracy().with_file(path) == c.with_file(path).with_tracy(),
        c.with_tracy().with_level(level) == c.with_level(level).with_tracy(),
        c.with_file(path).with_level(level) == c.with_level(level).with_file(path),
        c.with_stdout().with_file(path).plan() == c.with_file(path).with_stdout().plan(),
{
}

/// A sink is layered exactly when its option is enabled, and at most once.
pub proof fn lemma_sinks_are_the_enabled(c: Config)
    ensures
        c.sinks().contains(Sink::Stdout) <==> c.stdout,
        c.sinks().contains(Sink::Tracy) <==> c.tracy,
        c.sinks().contains(Sink::File) <==> c.file is Some,
        c.sinks().no_duplicates(),
        c.plan().profiles() <==> c.tracy,
        c.plan().chains_panic_hook() <==> c.file is Some,
{
    let sinks = c.sinks();
    if c.stdout {
        assert(sinks[0] == Sink::Stdout);
    }
    if c.tracy {
        let i = if c.stdout { 1int } else { 0int };
        assert(sinks[i] == Sink::Tracy);
    }
    if c.file is Some {
        assert(sinks[sinks.len() - 1] == Sink::File);
    }
}

/// A configuration without a sink installs nothing that writes: no sink is
/// layered, no file is created, the panic hook stays as it was, and no sink
/// receives any event. Its initialization succeeds wherever the process
/// takes the subscriber, and the guard is inert.
pub proof fn lemma_silent_config_writes_nothing(c: Config, event: Level, file_created: bool)
    requires
        c.is_silent(),
    ensures
        c.plan().sinks == Seq::<Sink>::empty(),
        c.plan().log_file is None,
        !c.plan().chains_panic_hook(),
        !c.plan().profiles(),
        c.plan().observers(event) == Seq::<Sink>::empty(),
        c.plan().outcome(file_created, true) == Ok::<bool, InitError>(false),
{
    assert(c.sinks() =~= Seq::<Sink>::empty());
}

/// Initialization fails exactly when the log file is asked for and cannot
/// be created, or the process does not take the subscriber; the guard of a
/// successful one is active exactly when the profiler is enabled.
pub proof fn lemma_init_fails_exactly_when_a_step_fails(
    c: Config,
    file_created: bool,
    installed: bool,
)
    ensures
        c.plan().outcome(file_created, installed) is Err <==> (c.file is Some && !file_created)
            || !installed,
        c.plan().outcome(file_created, installed) is Ok ==> c.plan().outcome(
            file_created,
            installed,
        ) == Ok::<bool, InitError>(c.tracy),
{
    lemma_sinks_are_the_enabled(c);
}

/// No sink receives an event whose severity is below the minimum level.
pub proof fn lemma_filter_drops_lower_severities(c: Config, event: Level)
    requires
        event.severity() < c.min_level().severity(),
    ensures
        c.plan().observers(event) == Seq::<Sink>::empty(),
{
}

/// Every enabled sink receives an event whose severity is at least the
/// minimum level.
pub proof fn lemma_filter_passes_other_severities(c: Config, event: Level)
    requires
        event.severity() >= c.min_level().severity(),
    ensures
        c.plan().observers(event) == c.sinks(),
{
}

} // verus!
