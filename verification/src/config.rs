//! The configuration of a run: its defaults, the command-line options that
//! change it, and the lines that announce it or explain its refusal.

use vstd::prelude::*;
use crate::scale::scaled;
use crate::scale::scaled_chars;
use crate::text::decimal;
use crate::text::parse_number;
use crate::text::parse_u64;
use crate::text::push_decimal;
use crate::text::push_str;
use crate::text::string_of;
use crate::worker::WorkerConfig;

verus! {

/// Bytes in a KiB, a MiB and a GiB.
pub const KIB: u64 = 1024;

pub const MIB: u64 = 1024 * 1024;

pub const GIB: u64 = 1024 * 1024 * 1024;

/// All that a run is configured by.
#[derive(Clone, Copy, Debug, PartialEq, Eq, Structural)]
pub struct RunConfig {
    /// The number of workers.
    pub threads: usize,
    /// The memory budget in bytes, shared evenly among the workers.
    pub total_bytes: usize,
    /// The writes a worker tallies locally between two flushes.
    pub batch: u64,
    /// The ticker's sleep between two samples, in milliseconds.
    pub interval_ms: u64,
    /// The time after which the run ends, in milliseconds.
    pub lifetime_ms: u64,
}

/// Why a command line gives no configuration. `at` is the position of the
/// argument at fault.
#[derive(Clone, Copy, Debug, PartialEq, Eq, Structural)]
pub enum ConfigError {
    /// `--help` was given.
    HelpRequested,
    /// The argument at `at` is no option.
    UnknownOption { at: usize },
    /// The option at `at` is the last argument and has no value.
    MissingValue { at: usize },
    /// The value at `at` is no decimal number, or too large for its option.
    BadNumber { at: usize },
    /// The thread count is zero.
    NoThreads,
}

/// The configuration of a run without options: four workers on one MiB,
/// batches of a million writes, a tick every second, a minute of lifetime.
pub open spec fn default_config() -> RunConfig {
    RunConfig {
        threads: 4,
        total_bytes: 1048576,
        batch: 1000000,
        interval_ms: 1000,
        lifetime_ms: 60000,
    }
}

/// Whether `opt` is one of the options that take a value.
pub open spec fn is_option(opt: Seq<char>) -> bool {
    opt == "-G"@ || opt == "-M"@ || opt == "-K"@ || opt == "-t"@ || opt == "-i"@ || opt == "-l"@
        || opt == "-u"@
}

/// The configuration `cfg` with the field that `opt` names set from the
/// value `v`: `-G`, `-M` and `-K` set the budget in GiB, MiB and KiB, `-t`
/// the thread count, `-i` the ticker interval, `-l` the lifetime and `-u` the
/// batch size. There is none where the value does not fit the field.
pub open spec fn with_option(cfg: RunConfig, opt: Seq<char>, v: nat) -> Option<RunConfig> {
    if opt == "-G"@ {
        if v * GIB <= usize::MAX {
            Some(RunConfig { total_bytes: (v * GIB) as usize, ..cfg })
        } else {
            None
        }
    } else if opt == "-M"@ {
        if v * MIB <= usize::MAX {
            Some(RunConfig { total_bytes: (v * MIB) as usize, ..cfg })
        } else {
            None
        }
    } else if opt == "-K"@ {
        if v * KIB <= usize::MAX {
            Some(RunConfig { total_bytes: (v * KIB) as usize, ..cfg })
        } else {
            None
        }
    } else if opt == "-t"@ {
        if v <= usize::MAX {
            Some(RunConfig { threads: v as usize, ..cfg })
        } else {
            None
        }
    } else if opt == "-i"@ {
        if v <= u64::MAX {
            Some(RunConfig { interval_ms: v as u64, ..cfg })
        } else {
            None
        }
    } else if opt == "-l"@ {
        if v <= u64::MAX {
            Some(RunConfig { lifetime_ms: v as u64, ..cfg })
        } else {
            None
        }
    } else if opt == "-u"@ {
        if v <= u64::MAX {
            Some(RunConfig { batch: v as u64, ..cfg })
        } else {
            None
        }
    } else {
        None
    }
}

/// What the arguments from position `at` on make of the configuration `cfg`.
/// They are read left to right, an option and its value at a time, and the
/// first fault ends the reading; a thread count of zero is a fault found at
/// the end.
pub open spec fn parsed_from(args: Seq<Seq<char>>, at: nat, cfg: RunConfig) -> Result<
    RunConfig,
    ConfigError,
>
    decreases args.len() - at,
{
    if at >= args.len() {
        if cfg.threads == 0 {
            Err(ConfigError::NoThreads)
        } else {
            Ok(cfg)
        }
    } else if args[at as int] == "--help"@ {
        Err(ConfigError::HelpRequested)
    } else if !is_option(args[at as int]) {
        Err(ConfigError::UnknownOption { at: at as usize })
    } else if at + 1 >= args.len() {
        Err(ConfigError::MissingValue { at: at as usize })
    } else {
        match parse_number(args[at as int + 1]) {
            Some(v) => match with_option(cfg, args[at as int], v) {
                Some(next) => parsed_from(args, at + 2, next),
                None => Err(ConfigError::BadNumber { at: (at + 1) as usize }),
            },
            None => Err(ConfigError::BadNumber { at: (at + 1) as usize }),
        }
    }
}

/// What a command line makes of the default configuration.
pub open spec fn parsed(args: Seq<Seq<char>>) -> Result<RunConfig, ConfigError> {
    parsed_from(args, 0, default_config())
}

/// Whether an argument is the text `name`.
fn same(arg: &String, name: &str) -> (r: bool)
    ensures
        r == (arg@ == name@),
{
    let other = String::from_str(name);
    *arg == other
}

/// A byte count of `v` units of `unit` bytes, where it fits a `usize`.
fn budget(v: u64, unit: u64) -> (r: Option<usize>)
    ensures
        r is Some <==> v * unit <= usize::MAX,
        r matches Some(bytes) ==> bytes == v * unit,
{
    match v.checked_mul(unit) {
        Some(bytes) => {
            if bytes > usize::MAX as u64 {
                None
            } else {
                Some(bytes as usize)
            }
        },
        None => None,
    }
}

impl Default for RunConfig {
    /// The configuration of a run without options.
    fn default() -> (cfg: RunConfig)
        ensures
            cfg == default_config(),
    {
        RunConfig {
            threads: 4,
            total_bytes: 1048576,
            batch: 1000000,
            interval_ms: 1000,
            lifetime_ms: 60000,
        }
    }
}

impl RunConfig {
    /// Whether `arg` is one of the options that take a value.
    pub fn takes_value(arg: &String) -> (r: bool)
        ensures
            r == is_option(arg@),
    {
        same(arg, "-G") || same(arg, "-M") || same(arg, "-K") || same(arg, "-t") || same(arg, "-i")
            || same(arg, "-l") || same(arg, "-u")
    }

    /// Sets the field that the option `opt` names from the value `v`.
    pub fn with(self, opt: &String, v: u64) -> (r: Option<RunConfig>)
        ensures
            r == with_option(self, opt@, v as nat),
    {
        let mut cfg = self;
        if same(opt, "-G") {
            match budget(v, GIB) {
                Some(bytes) => {
                    cfg.total_bytes = bytes;
                },
                None => {
                    return None;
                },
            }
        } else if same(opt, "-M") {
            match budget(v, MIB) {
                Some(bytes) => {
                    cfg.total_bytes = bytes;
                },
                None => {
                    return None;
                },
            }
        } else if same(opt, "-K") {
            match budget(v, KIB) {
                Some(bytes) => {
                    cfg.total_bytes = bytes;
                },
                None => {
                    return None;
                },
            }
        } else if same(opt, "-t") {
            if v > usize::MAX as u64 {
                return None;
            }
            cfg.threads = v as usize;
        } else if same(opt, "-i") {
            cfg.interval_ms = v;
        } else if same(opt, "-l") {
            cfg.lifetime_ms = v;
        } else if same(opt, "-u") {
            cfg.batch = v;
        } else {
            return None;
        }
        Some(cfg)
    }

    /// Each worker's share of the budget and its batch size.
    pub fn worker_config(&self) -> (w: WorkerConfig)
        requires
            self.threads > 0,
        ensures
            w.budget == self.total_bytes / self.threads,
            w.batch == self.batch,
    {
        WorkerConfig { budget: self.total_bytes / self.threads, batch: self.batch }
    }

    /// The line that announces the run: the number of workers, each one's
    /// share in human units, and the bytes that all shares add up to.
    pub fn banner(&self) -> (line: String)
        requires
            self.threads > 0,
        ensures
            line@ == banner_text(*self),
    {
        let share: usize = self.total_bytes / self.threads;
        assert(self.threads * share <= self.total_bytes) by (nonlinear_arith)
            requires
                self.threads > 0,
                share == self.total_bytes / self.threads,
        ;
        let mut out: Vec<char> = Vec::new();
        push_str(&mut out, "Running with ");
        push_decimal(&mut out, self.threads as u128);
        push_str(&mut out, " threads each with ");
        let mut size = scaled_chars(share as u128, 1);
        out.append(&mut size);
        push_str(&mut out, "B each, total=");
        push_decimal(&mut out, (self.threads * share) as u128);
        string_of(&out)
    }
}

/// The text of the line that announces a run.
pub open spec fn banner_text(cfg: RunConfig) -> Seq<char> {
    let share = cfg.total_bytes as nat / cfg.threads as nat;
    "Running with "@ + decimal(cfg.threads as nat) + " threads each with "@ + scaled(share, 1)
        + "B each, total="@ + decimal(cfg.threads as nat * share)
}

/// The usage text: the options and what they set.
pub open spec fn usage_text() -> Seq<char> {
    "usage: mem\n    -u <ticker counts between updates of stats>\n    -l <lifetime in ms of process before exit>\n    -i <ms interval of stat ticker>\n    -t <thread count, default 4>\n    -[G|M|K] < GB|MB|KB of long array total in bytes>"@
}

/// What is shown when a command line is refused: the usage text, and before
/// it, on a line of its own, the reason, where one is given.
pub open spec fn help_view(msg: Seq<char>) -> Seq<char> {
    if msg.len() == 0 {
        usage_text()
    } else {
        "error: "@ + msg + "\n"@ + usage_text()
    }
}

/// The argument at position `at`, and no text where there is none.
pub open spec fn argument(args: Seq<Seq<char>>, at: int) -> Seq<char> {
    if 0 <= at < args.len() {
        args[at]
    } else {
        Seq::<char>::empty()
    }
}

/// The reason that an error gives for refusing the command line `args`.
pub open spec fn reason(e: ConfigError, args: Seq<Seq<char>>) -> Seq<char> {
    match e {
        ConfigError::HelpRequested => "command line requested help info"@,
        ConfigError::UnknownOption { at } => "option "@ + argument(args, at as int)
            + " not understood"@,
        ConfigError::MissingValue { at } => "option "@ + argument(args, at as int)
            + " needs a value"@,
        ConfigError::BadNumber { at } => "value "@ + argument(args, at as int)
            + " is not a number in range"@,
        ConfigError::NoThreads => "thread count must be at least 1"@,
    }
}

/// Appends the argument at position `at`, if there is one.
fn push_argument(out: &mut Vec<char>, args: &Vec<String>, at: usize)
    ensures
        final(out)@ == old(out)@ + argument(args.deep_view(), at as int),
{
    if at < args.len() {
        push_str(out, args[at].as_str());
    }
}

impl ConfigError {
    /// The reason for refusing the command line `args`, in words.
    pub fn describe(&self, args: &Vec<String>) -> (text: String)
        ensures
            text@ == reason(*self, args.deep_view()),
    {
        let mut out: Vec<char> = Vec::new();
        match self {
            ConfigError::HelpRequested => {
                push_str(&mut out, "command line requested help info");
            },
            ConfigError::UnknownOption { at } => {
                push_str(&mut out, "option ");
                push_argument(&mut out, args, *at);
                push_str(&mut out, " not understood");
            },
            ConfigError::MissingValue { at } => {
                push_str(&mut out, "option ");
                push_argument(&mut out, args, *at);
                push_str(&mut out, " needs a value");
            },
            ConfigError::BadNumber { at } => {
                push_str(&mut out, "value ");
                push_argument(&mut out, args, *at);
                push_str(&mut out, " is not a number in range");
            },
            ConfigError::NoThreads => {
                push_str(&mut out, "thread count must be at least 1");
            },
        }
        string_of(&out)
    }
}

/// What to show when a command line is refused for the reason `msg`.
pub fn help_text(msg: &str) -> (text: String)
    ensures
        text@ == help_view(msg@),
{
    let mut out: Vec<char> = Vec::new();
    if !msg.is_empty() {
        push_str(&mut out, "error: ");
        push_str(&mut out, msg);
        push_str(&mut out, "\n");
    }
    push_str(
        &mut out,
        "usage: mem\n    -u <ticker counts between updates of stats>\n    -l <lifetime in ms of process before exit>\n    -i <ms interval of stat ticker>\n    -t <thread count, default 4>\n    -[G|M|K] < GB|MB|KB of long array total in bytes>",
    );
    string_of(&out)
}

/// Reads the command line, without the program's name: the configuration
/// that the options make of the defaults, or the first fault.
pub fn parse_args(args: &Vec<String>) -> (r: Result<RunConfig, ConfigError>)
    ensures
        r == parsed(args.deep_view()),
        r matches Ok(cfg) ==> cfg.threads > 0,
{
    let ghost texts = args.deep_view();
    let mut cfg = RunConfig::default();
    let mut i: usize = 0;
    while i < args.len()
        invariant
            texts == args.deep_view(),
            i <= args.len(),
            parsed(texts) == parsed_from(texts, i as nat, cfg),
        decreases args.len() - i,
    {
        let arg: &String = &args[i];
        assert(texts[i as int] == arg@);
        if same(arg, "--help") {
            return Err(ConfigError::HelpRequested);
        }
        if !RunConfig::takes_value(arg) {
            return Err(ConfigError::UnknownOption { at: i });
        }
        if i + 1 >= args.len() {
            return Err(ConfigError::MissingValue { at: i });
        }
        let value: &String = &args[i + 1];
        assert(texts[i + 1] == value@);
        let next = match parse_u64(value.as_str()) {
            Some(v) => cfg.with(arg, v),
            None => None,
        };
        match next {
            Some(c) => {
                cfg = c;
            },
            None => {
                return Err(ConfigError::BadNumber { at: i + 1 });
            },
        }
        i += 2;
    }
    if cfg.threads == 0 {
        return Err(ConfigError::NoThreads);
    }
    Ok(cfg)
}

} // verus!
