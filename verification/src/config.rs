//! Configuration: the logging level and limits and the render thread count,
//! resolved from what a configuration file holds and from the defaults.

use crate::numeric::ascii_lower;
use crate::text::opt_text;
use vstd::prelude::*;

verus! {

/// The logging levels, from least to most verbose.
#[derive(Clone, Copy, Debug, PartialEq, Eq, Structural)]
pub enum LogLevel {
    Critical,
    Error,
    Warning,
    Info,
    Debug,
    Trace,
}

/// The position of a level among the level names (`OFF` is position 0).
pub open spec fn level_index(l: LogLevel) -> nat {
    match l {
        LogLevel::Critical => 1,
        LogLevel::Error => 2,
        LogLevel::Warning => 3,
        LogLevel::Info => 4,
        LogLevel::Debug => 5,
        LogLevel::Trace => 6,
    }
}

/// The level at a position among the level names; none at position 0 (`OFF`).
pub open spec fn level_at(i: nat) -> Option<LogLevel> {
    if i == 1 {
        Some(LogLevel::Critical)
    } else if i == 2 {
        Some(LogLevel::Error)
    } else if i == 3 {
        Some(LogLevel::Warning)
    } else if i == 4 {
        Some(LogLevel::Info)
    } else if i == 5 {
        Some(LogLevel::Debug)
    } else if i == 6 {
        Some(LogLevel::Trace)
    } else {
        None
    }
}

/// The full level names, in order of position.
pub open spec fn full_names() -> Seq<Seq<char>> {
    seq![
        seq!['O', 'F', 'F'],
        seq!['C', 'R', 'I', 'T', 'I', 'C', 'A', 'L'],
        seq!['E', 'R', 'R', 'O', 'R'],
        seq!['W', 'A', 'R', 'N', 'I', 'N', 'G'],
        seq!['I', 'N', 'F', 'O'],
        seq!['D', 'E', 'B', 'U', 'G'],
        seq!['T', 'R', 'A', 'C', 'E'],
    ]
}

/// The short level names, in order of position.
pub open spec fn short_names() -> Seq<Seq<char>> {
    seq![
        seq!['O', 'F', 'F'],
        seq!['C', 'R', 'I', 'T'],
        seq!['E', 'R', 'R', 'O'],
        seq!['W', 'A', 'R', 'N'],
        seq!['I', 'N', 'F', 'O'],
        seq!['D', 'E', 'B', 'G'],
        seq!['T', 'R', 'C', 'E'],
    ]
}

/// The short name of a level, as a level is written out.
pub open spec fn short_name(l: LogLevel) -> Seq<char> {
    short_names()[level_index(l) as int]
}

/// `needle` is a nonempty prefix of `name`, ASCII case ignored.
pub open spec fn is_prefix_ci(needle: Seq<char>, name: Seq<char>) -> bool {
    &&& needle.len() > 0
    &&& needle.len() <= name.len()
    &&& forall|i: int| 0 <= i < needle.len() ==> ascii_lower(#[trigger] needle[i]) == ascii_lower(name[i])
}

/// The first position at or after `from` whose name `needle` is a prefix of.
pub open spec fn first_prefix_match(names: Seq<Seq<char>>, needle: Seq<char>, from: nat) -> Option<nat>
    decreases names.len() - from,
{
    if from >= names.len() {
        None
    } else if is_prefix_ci(needle, names[from as int]) {
        Some(from)
    } else {
        first_prefix_match(names, needle, from + 1)
    }
}

/// The level that `name` denotes: found among the full names first, then
/// among the short names; a name that denotes `OFF` gives none.
pub open spec fn level_named(name: Seq<char>) -> Option<LogLevel> {
    match first_prefix_match(full_names(), name, 0) {
        Some(i) => level_at(i),
        None => match first_prefix_match(short_names(), name, 0) {
            Some(i) => level_at(i),
            None => None,
        },
    }
}

/// Reads a level from its name.
///
/// Calls `slog::Level::from_str`, which looks `name` up as a nonempty prefix,
/// ASCII case ignored, of the full level names and then of the short ones,
/// and rejects the position of `OFF`; the contract states that lookup.
#[verifier::external_body]
fn level_from_str(name: &str) -> (r: Option<LogLevel>)
    ensures
        r == level_named(name@),
{
    match <slog::Level as std::str::FromStr>::from_str(name) {
        Ok(slog::Level::Critical) => Some(LogLevel::Critical),
        Ok(slog::Level::Error) => Some(LogLevel::Error),
        Ok(slog::Level::Warning) => Some(LogLevel::Warning),
        Ok(slog::Level::Info) => Some(LogLevel::Info),
        Ok(slog::Level::Debug) => Some(LogLevel::Debug),
        Ok(slog::Level::Trace) => Some(LogLevel::Trace),
        Err(_) => None,
    }
}

/// Writes a level out as text.
///
/// Calls `to_string` on the matching `slog::Level`, whose `Display` writes the
/// level's short name; the contract states that name.
#[verifier::external_body]
fn level_to_string(l: LogLevel) -> (r: String)
    ensures
        r@ == short_name(l),
{
    let level = match l {
        LogLevel::Critical => slog::Level::Critical,
        LogLevel::Error => slog::Level::Error,
        LogLevel::Warning => slog::Level::Warning,
        LogLevel::Info => slog::Level::Info,
        LogLevel::Debug => slog::Level::Debug,
        LogLevel::Trace => slog::Level::Trace,
    };
    level.to_string()
}

impl LogLevel {
    /// Reads a level from its name (see `level_named`).
    pub fn from_name(name: &str) -> (r: Option<LogLevel>)
        ensures
            r == level_named(name@),
    {
        level_from_str(name)
    }

    /// The level's short name, as a configuration file holds it.
    pub fn to_name(&self) -> (r: String)
        ensures
            r@ == short_name(*self),
    {
        level_to_string(*self)
    }
}

/// The number of physical processor cores.
///
/// Calls `num_cpus::get_physical`, which documents that it returns at least 1.
/// Nothing else is stated: the count comes from the machine.
#[verifier::external_body]
fn physical_core_count() -> (r: usize)
    ensures
        r >= 1,
{
    num_cpus::get_physical()
}

/// The number of physical processor cores, at least 1.
pub fn physical_cores() -> (r: usize)
    ensures
        r >= 1,
{
    physical_core_count()
}

/// The resolved configuration.
#[derive(Clone, Debug, PartialEq)]
pub struct Config {
    pub log_level: LogLevel,
    pub log_files_dir: Option<String>,
    pub log_message_cache_overflow_limit: usize,
    pub max_render_threads: usize,
    pub loaded_from_file: bool,
}

/// What a configuration file holds; each entry may be absent.
#[derive(Clone, Debug, PartialEq)]
pub struct ParsedConfig {
    pub log_level: Option<String>,
    pub log_files_dir: Option<String>,
    pub log_message_cache_overflow_limit: Option<usize>,
    pub max_render_threads: Option<usize>,
}

fn clone_opt_text(o: &Option<String>) -> (r: Option<String>)
    ensures
        opt_text(r) == opt_text(*o),
{
    match o {
        Some(s) => Some(s.clone()),
        None => None,
    }
}

/// The default number of messages the logger holds before it drops some.
pub const DEFAULT_LOG_MESSAGE_CACHE_OVERFLOW_LIMIT: usize = 500_000;

/// The level a configuration file names, or `Info` where it names none or an invalid one.
pub open spec fn resolved_level(name: Option<Seq<char>>) -> LogLevel {
    match name {
        Some(n) => match level_named(n) {
            Some(l) => l,
            None => LogLevel::Info,
        },
        None => LogLevel::Info,
    }
}

/// A thread count that a configuration file gives is kept where it is
/// positive and at most the default; otherwise the default is used.
pub open spec fn resolved_threads(parsed: Option<usize>, default: usize) -> usize {
    match parsed {
        Some(t) => if 0 < t && t <= default {
            t
        } else {
            default
        },
        None => default,
    }
}

impl Config {
    /// The default configuration: `Info` level, logs in `log_files_dir`, the
    /// default message limit, one render thread per physical core.
    pub fn defaults(log_files_dir: Option<String>) -> (r: Config)
        ensures
            r.log_level == LogLevel::Info,
            opt_text(r.log_files_dir) == opt_text(log_files_dir),
            r.log_message_cache_overflow_limit == DEFAULT_LOG_MESSAGE_CACHE_OVERFLOW_LIMIT,
            r.max_render_threads >= 1,
            !r.loaded_from_file,
    {
        Config {
            log_level: LogLevel::Info,
            log_files_dir,
            log_message_cache_overflow_limit: DEFAULT_LOG_MESSAGE_CACHE_OVERFLOW_LIMIT,
            max_render_threads: physical_core_count(),
            loaded_from_file: false,
        }
    }

    /// A copy of this configuration.
    pub fn duplicate(&self) -> (r: Config)
        ensures
            r.log_level == self.log_level,
            opt_text(r.log_files_dir) == opt_text(self.log_files_dir),
            r.log_message_cache_overflow_limit == self.log_message_cache_overflow_limit,
            r.max_render_threads == self.max_render_threads,
            r.loaded_from_file == self.loaded_from_file,
    {
        Config {
            log_level: self.log_level,
            log_files_dir: clone_opt_text(&self.log_files_dir),
            log_message_cache_overflow_limit: self.log_message_cache_overflow_limit,
            max_render_threads: self.max_render_threads,
            loaded_from_file: self.loaded_from_file,
        }
    }

    /// The configuration that a configuration file gives, each absent or
    /// invalid entry taken from `defaults` (the level from `Info`).
    pub fn from_parsed(parsed: ParsedConfig, defaults: &Config) -> (r: Config)
        ensures
            r.log_level == resolved_level(opt_text(parsed.log_level)),
            opt_text(r.log_files_dir) == opt_text(parsed.log_files_dir),
            r.log_message_cache_overflow_limit == match parsed.log_message_cache_overflow_limit {
                Some(l) => l,
                None => defaults.log_message_cache_overflow_limit,
            },
            r.max_render_threads == resolved_threads(
                parsed.max_render_threads,
                defaults.max_render_threads,
            ),
            r.loaded_from_file,
    {
        let log_level = match &parsed.log_level {
            Some(name) => match LogLevel::from_name(name.as_str()) {
                Some(l) => l,
                None => LogLevel::Info,
            },
            None => LogLevel::Info,
        };
        let limit = match parsed.log_message_cache_overflow_limit {
            Some(l) => l,
            None => defaults.log_message_cache_overflow_limit,
        };
        let threads = match parsed.max_render_threads {
            Some(t) => if t > 0 && t <= defaults.max_render_threads {
                t
            } else {
                defaults.max_render_threads
            },
            None => defaults.max_render_threads,
        };
        Config {
            log_level,
            log_files_dir: parsed.log_files_dir,
            log_message_cache_overflow_limit: limit,
            max_render_threads: threads,
            loaded_from_file: true,
        }
    }

    /// What is written to the configuration file for this configuration: its
    /// level, limit and thread count, with the default log directory.
    pub fn to_parsed(&self, default_log_files_dir: Option<String>) -> (r: ParsedConfig)
        ensures
            opt_text(r.log_level) == Some(short_name(self.log_level)),
            opt_text(r.log_files_dir) == opt_text(default_log_files_dir),
            r.log_message_cache_overflow_limit == Some(self.log_message_cache_overflow_limit),
            r.max_render_threads == Some(self.max_render_threads),
    {
        ParsedConfig {
            log_level: Some(self.log_level.to_name()),
            log_files_dir: default_log_files_dir,
            log_message_cache_overflow_limit: Some(self.log_message_cache_overflow_limit),
            max_render_threads: Some(self.max_render_threads),
        }
    }

    /// What a new configuration file holds: the default level, limit and log
    /// directory, and no thread count.
    pub fn initial_file_content(&self) -> (r: ParsedConfig)
        ensures
            opt_text(r.log_level) == Some(short_name(self.log_level)),
            opt_text(r.log_files_dir) == opt_text(self.log_files_dir),
            r.log_message_cache_overflow_limit == Some(self.log_message_cache_overflow_limit),
            r.max_render_threads is None,
    {
        ParsedConfig {
            log_level: Some(self.log_level.to_name()),
            log_files_dir: clone_opt_text(&self.log_files_dir),
            log_message_cache_overflow_limit: Some(self.log_message_cache_overflow_limit),
            max_render_threads: None,
        }
    }

    /// Takes over the level, limit, thread count and origin of `updated`; the
    /// log directory stays as it is.
    pub fn update_from(&mut self, updated: &Config)
        ensures
            final(self).log_level == updated.log_level,
            final(self).log_message_cache_overflow_limit == updated.log_message_cache_overflow_limit,
            final(self).max_render_threads == updated.max_render_threads,
            final(self).loaded_from_file == updated.loaded_from_file,
            opt_text(final(self).log_files_dir) == opt_text(old(self).log_files_dir),
    {
        self.log_level = updated.log_level;
        self.log_message_cache_overflow_limit = updated.log_message_cache_overflow_limit;
        self.max_render_threads = updated.max_render_threads;
        self.loaded_from_file = updated.loaded_from_file;
    }
}

// ----------------------------------------------------------------------------
// Laws of the configuration.
// ----------------------------------------------------------------------------

/// Reading a level's short name gives back the level.
pub proof fn lemma_level_name_round_trip(l: LogLevel)
    ensures
        level_named(short_name(l)) == Some(l),
{
    reveal_with_fuel(first_prefix_match, 8);
    let n = short_name(l);
    match l {
        LogLevel::Critical => {
            assert(!is_prefix_ci(n, full_names()[0]));
            assert(is_prefix_ci(n, full_names()[1]));
        },
        LogLevel::Error => {
            assert(!is_prefix_ci(n, full_names()[0]));
            assert(!is_prefix_ci(n, full_names()[1]));
            assert(is_prefix_ci(n, full_names()[2]));
        },
        LogLevel::Warning => {
            assert(!is_prefix_ci(n, full_names()[0]));
            assert(!is_prefix_ci(n, full_names()[1]));
            assert(!is_prefix_ci(n, full_names()[2]));
            assert(is_prefix_ci(n, full_names()[3]));
        },
        LogLevel::Info => {
            assert(!is_prefix_ci(n, full_names()[0]));
            assert(!is_prefix_ci(n, full_names()[1]));
            assert(!is_prefix_ci(n, full_names()[2]));
            assert(!is_prefix_ci(n, full_names()[3]));
            assert(is_prefix_ci(n, full_names()[4]));
        },
        LogLevel::Debug => {
            assert(!is_prefix_ci(n, full_names()[0]));
            assert(!is_prefix_ci(n, full_names()[1]));
            assert(!is_prefix_ci(n, full_names()[2]));
            assert(!is_prefix_ci(n, full_names()[3]));
            assert(!is_prefix_ci(n, full_names()[4]));
            assert(!is_prefix_ci(n, full_names()[5]));
            assert(!is_prefix_ci(n, full_names()[6]));
            assert(!is_prefix_ci(n, short_names()[0]));
            assert(!is_prefix_ci(n, short_names()[1]));
            assert(!is_prefix_ci(n, short_names()[2]));
            assert(!is_prefix_ci(n, short_names()[3]));
            assert(!is_prefix_ci(n, short_names()[4]));
            assert(is_prefix_ci(n, short_names()[5]));
        },
        LogLevel::Trace => {
            assert(!is_prefix_ci(n, full_names()[0]));
            assert(!is_prefix_ci(n, full_names()[1]));
            assert(!is_prefix_ci(n, full_names()[2]));
            assert(!is_prefix_ci(n, full_names()[3]));
            assert(!is_prefix_ci(n, full_names()[4]));
            assert(!is_prefix_ci(n, full_names()[5]));
            assert(!is_prefix_ci(n, full_names()[6]));
            assert(!is_prefix_ci(n, short_names()[0]));
            assert(!is_prefix_ci(n, short_names()[1]));
            assert(!is_prefix_ci(n, short_names()[2]));
            assert(!is_prefix_ci(n, short_names()[3]));
            assert(!is_prefix_ci(n, short_names()[4]));
            assert(!is_prefix_ci(n, short_names()[5]));
            assert(is_prefix_ci(n, short_names()[6]));
        },
    }
}

/// A configuration written out (`Config::to_parsed`) and read back
/// (`Config::from_parsed`) keeps its level, and its thread count where that
/// is positive and at most the default.
pub proof fn lemma_config_round_trip(level: LogLevel, threads: usize, default_threads: usize)
    requires
        0 < threads <= default_threads,
    ensures
        resolved_level(Some(short_name(level))) == level,
        resolved_threads(Some(threads), default_threads) == threads,
{
    lemma_level_name_round_trip(level);
}

/// The thread count that a configuration resolves to is at least 1 and at
/// most the default, whatever the file holds, when the default is at least 1.
pub proof fn lemma_resolved_threads_bounds(parsed: Option<usize>, default: usize)
    requires
        default >= 1,
    ensures
        1 <= resolved_threads(parsed, default) <= default,
{
}

} // verus!
