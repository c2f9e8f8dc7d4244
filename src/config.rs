use crate::protocol::views;
use vstd::prelude::*;

verus! {

/// Settings that are not about the engine.
#[derive(Debug, Clone, PartialEq, Eq)]
pub struct GeneralConfig {}

/// How to start the engine: its program and extra arguments.
#[derive(Debug, Clone)]
pub struct EngineConfig {
    pub bin: String,
    pub args: Vec<String>,
}

/// The settings of the application.
#[derive(Debug, Clone)]
pub struct AppConfig {
    pub general: GeneralConfig,
    pub engine: EngineConfig,
}

pub open spec fn default_engine_bin() -> Seq<char> {
    "gnugo"@
}

pub fn get_default_engine_bin() -> (r: String)
    ensures
        r@ == default_engine_bin(),
{
    String::from_str("gnugo")
}

pub fn get_default_engine_args() -> (r: Vec<String>)
    ensures
        r@.len() == 0,
{
    Vec::new()
}

pub fn get_default_engine_config() -> (r: EngineConfig)
    ensures
        r.bin@ == default_engine_bin(),
        r.args@.len() == 0,
{
    EngineConfig { bin: get_default_engine_bin(), args: get_default_engine_args() }
}

pub fn get_default_general_config() -> (r: GeneralConfig) {
    GeneralConfig {}
}

pub fn get_default_app_config() -> (r: AppConfig)
    ensures
        r.engine.bin@ == default_engine_bin(),
        r.engine.args@.len() == 0,
{
    AppConfig { general: get_default_general_config(), engine: get_default_engine_config() }
}

/// The arguments the engine is started with: text-protocol mode first, then
/// the configured ones.
pub fn engine_args(additional: &Vec<String>) -> (r: Vec<String>)
    ensures
        views(r@) == seq!["--mode"@, "gtp"@] + views(additional@),
{
    let mut args: Vec<String> = Vec::new();
    args.push(String::from_str("--mode"));
    args.push(String::from_str("gtp"));
    let mut i: usize = 0;
    while i < additional.len()
        invariant
            i <= additional@.len(),
            views(args@) == seq!["--mode"@, "gtp"@] + views(additional@.subrange(0, i as int)),
        decreases additional.len() - i,
    {
        let ghost before = args@;
        args.push(additional[i].clone());
        assert(views(args@) =~= views(before).push(additional@[i as int]@));
        i = i + 1;
        assert(views(additional@.subrange(0, i as int)) =~= views(
            additional@.subrange(0, i - 1 as int),
        ).push(additional@[i - 1]@));
    }
    assert(additional@.subrange(0, additional@.len() as int) =~= additional@);
    args
}

/// How much the log shows.
#[derive(Debug, Clone, Copy, PartialEq, Eq, Structural)]
pub enum LogLevel {
    Error,
    Warn,
    Info,
    Debug,
}

pub fn get_logger_level_by_verbosity(verbosity: u64) -> (r: LogLevel)
    ensures
        verbosity == 0 ==> r == LogLevel::Error,
        verbosity == 1 ==> r == LogLevel::Warn,
        verbosity == 2 ==> r == LogLevel::Info,
        verbosity >= 3 ==> r == LogLevel::Debug,
{
    match verbosity {
        0 => LogLevel::Error,
        1 => LogLevel::Warn,
        2 => LogLevel::Info,
        _ => LogLevel::Debug,
    }
}

} // verus!
