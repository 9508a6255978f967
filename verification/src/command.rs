//! The shell environment that the caller hands in, and the command that
//! launches the adapter.
//!
//! The environment is a list of names and values in the caller's order. A
//! setting is read from the first entry that has its name. The command
//! takes over the entries that the adapter is meant to see.

use crate::text::{non_blank, same_text, trim, trim_non_blank, trimmed};
use vstd::prelude::*;

verus! {

/// The setting that names the adapter's executable outright.
pub const PATH_KEY: &'static str = "VULNERA_ADAPTER_PATH";

/// The setting that pins the adapter's version.
pub const VERSION_KEY: &'static str = "VULNERA_ADAPTER_VERSION";

/// The forwarded setting that holds the address of the service.
pub const API_URL_KEY: &'static str = "VULNERA_API_URL";

/// The forwarded setting that holds the key to the service.
pub const API_KEY_KEY: &'static str = "VULNERA_API_KEY";

/// The forwarded setting that holds the adapter's log filter.
pub const LOG_KEY: &'static str = "VULNERA_LOG";

/// The log filter that the adapter gets where none is forwarded.
pub const DEFAULT_LOG: &'static str = "info";

/// The model of an environment: names and values, in order.
pub type Env = Seq<(Seq<char>, Seq<char>)>;

/// The command that launches the adapter: the executable, its arguments
/// and the environment entries to add to its environment.
#[derive(Clone, Debug, PartialEq, Eq)]
pub struct Command {
    pub command: String,
    pub args: Vec<String>,
    pub env: Vec<(String, String)>,
}

/// The model of a `Command`.
pub struct Launch {
    pub command: Seq<char>,
    pub args: Seq<Seq<char>>,
    pub env: Env,
}

impl View for Command {
    type V = Launch;

    open spec fn view(&self) -> Launch {
        Launch {
            command: self.command@,
            args: self.args.deep_view(),
            env: self.env.deep_view(),
        }
    }
}

impl DeepView for Command {
    type V = Launch;

    open spec fn deep_view(&self) -> Launch {
        self.view()
    }
}

/// The value of the first entry named `key`.
pub open spec fn first_value(env: Env, key: Seq<char>) -> Option<Seq<char>>
    decreases env.len(),
{
    if env.len() == 0 {
        None
    } else {
        match first_value(env.drop_last(), key) {
            Some(value) => Some(value),
            None => if env.last().0 == key {
                Some(env.last().1)
            } else {
                None
            },
        }
    }
}

/// The setting named `key`: the trimmed value of the first entry with
/// that name, and none where that is empty. Later entries with the name
/// are not looked at.
pub open spec fn setting(env: Env, key: Seq<char>) -> Option<Seq<char>> {
    non_blank(first_value(env, key))
}

/// The setting named `key` as it stands: the value of the first entry with
/// that name, untouched, and none where that value is blank.
pub open spec fn raw_setting(env: Env, key: Seq<char>) -> Option<Seq<char>> {
    match first_value(env, key) {
        Some(value) => if trimmed(value).len() > 0 {
            Some(value)
        } else {
            None
        },
        None => None,
    }
}

/// The entry is one that the adapter is meant to see: it has one of the
/// three forwarded names and a value that is more than white space.
pub open spec fn is_forwarded(entry: (Seq<char>, Seq<char>)) -> bool {
    (entry.0 == API_URL_KEY@ || entry.0 == API_KEY_KEY@ || entry.0 == LOG_KEY@) && trimmed(
        entry.1,
    ).len() > 0
}

/// The forwarded entries of `env`, as they stand and in their order.
pub open spec fn forwarded(env: Env) -> Env
    decreases env.len(),
{
    if env.len() == 0 {
        Seq::empty()
    } else if is_forwarded(env.last()) {
        forwarded(env.drop_last()).push(env.last())
    } else {
        forwarded(env.drop_last())
    }
}

/// The environment of the launched adapter: the forwarded entries, and
/// behind them the default log filter where no log filter is among them.
pub open spec fn launch_env(env: Env) -> Env {
    if first_value(forwarded(env), LOG_KEY@) is Some {
        forwarded(env)
    } else {
        forwarded(env).push((LOG_KEY@, DEFAULT_LOG@))
    }
}

/// The command that launches the executable `binary` in the caller's
/// environment `env`: no arguments, and the environment of `launch_env`.
pub open spec fn launch_of(binary: Seq<char>, env: Env) -> Launch {
    Launch { command: binary, args: Seq::empty(), env: launch_env(env) }
}

/// The value of the first entry of `env` named `key`.
pub fn lookup<'a>(env: &'a Vec<(String, String)>, key: &str) -> (r: Option<&'a str>)
    ensures
        r.deep_view() == first_value(env.deep_view(), key@),
{
    let mut found: Option<&'a str> = None;
    let mut i: usize = 0;
    assert(env.deep_view().take(0) =~= Seq::empty());
    while i < env.len()
        invariant
            i <= env.len(),
            found.deep_view() == first_value(env.deep_view().take(i as int), key@),
        decreases env.len() - i,
    {
        let ghost before = env.deep_view().take(i as int);
        let ghost upto = env.deep_view().take(i + 1);
        assert(upto.drop_last() =~= before);
        assert(upto.last() == (env@[i as int].0@, env@[i as int].1@));
        if found.is_none() && same_text(env[i].0.as_str(), key) {
            found = Some(env[i].1.as_str());
        }
        i += 1;
    }
    assert(env.deep_view().take(env.len() as int) =~= env.deep_view());
    found
}

/// The setting of `env` named `key`.
pub fn read_setting(env: &Vec<(String, String)>, key: &str) -> (r: Option<String>)
    ensures
        r.deep_view() == setting(env.deep_view(), key@),
{
    trim_non_blank(lookup(env, key))
}

/// The setting of `env` named `key`, as it stands.
pub fn read_raw_setting(env: &Vec<(String, String)>, key: &str) -> (r: Option<String>)
    ensures
        r.deep_view() == raw_setting(env.deep_view(), key@),
{
    match lookup(env, key) {
        Some(value) => if trim(value).unicode_len() > 0 {
            Some(value.to_owned())
        } else {
            None
        },
        None => None,
    }
}

/// Tells whether an entry with this name and value is forwarded.
pub fn forwards(name: &str, value: &str) -> (r: bool)
    ensures
        r == is_forwarded((name@, value@)),
{
    (same_text(name, API_URL_KEY) || same_text(name, API_KEY_KEY) || same_text(name, LOG_KEY))
        && trim(value).unicode_len() > 0
}

/// Builds the command that launches `binary`, with the entries of
/// `shell_env` that the adapter is meant to see.
pub fn build_command(binary: String, shell_env: &Vec<(String, String)>) -> (r: Command)
    ensures
        r@ == launch_of(binary@, shell_env.deep_view()),
{
    let mut env: Vec<(String, String)> = Vec::new();
    let mut has_log = false;
    let mut i: usize = 0;
    assert(shell_env.deep_view().take(0) =~= Seq::empty());
    assert(env.deep_view() =~= Seq::empty());
    while i < shell_env.len()
        invariant
            i <= shell_env.len(),
            env.deep_view() == forwarded(shell_env.deep_view().take(i as int)),
            has_log == (first_value(env.deep_view(), LOG_KEY@) is Some),
        decreases shell_env.len() - i,
    {
        let ghost before = shell_env.deep_view().take(i as int);
        let ghost upto = shell_env.deep_view().take(i + 1);
        let ghost kept = env.deep_view();
        assert(upto.drop_last() =~= before);
        assert(upto.last() == (shell_env@[i as int].0@, shell_env@[i as int].1@));
        let name = shell_env[i].0.as_str();
        let value = shell_env[i].1.as_str();
        if forwards(name, value) {
            if same_text(name, LOG_KEY) {
                has_log = true;
            }
            env.push((name.to_owned(), value.to_owned()));
            assert(env.deep_view() =~= kept.push((name@, value@)));
            assert(env.deep_view().drop_last() =~= kept);
        }
        i += 1;
    }
    assert(shell_env.deep_view().take(shell_env.len() as int) =~= shell_env.deep_view());
    if !has_log {
        let ghost kept = env.deep_view();
        env.push((LOG_KEY.to_owned(), DEFAULT_LOG.to_owned()));
        assert(env.deep_view() =~= kept.push((LOG_KEY@, DEFAULT_LOG@)));
    }
    let args: Vec<String> = Vec::new();
    assert(args.deep_view() =~= Seq::empty());
    Command { command: binary, args, env }
}

} // verus!
