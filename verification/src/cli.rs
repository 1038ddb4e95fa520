//! The command line: `fileferry [doctor] [--config <path> | --config=<path>]`.

use vstd::prelude::*;
use crate::text::{has_prefix, str_eq, strip_prefix_chars};
use crate::config::{EnvVars, env_lookup};

verus! {

/// The arguments as character sequences.
pub open spec fn arg_texts(args: Seq<String>) -> Seq<Seq<char>> {
    args.map_values(|a: String| a@)
}

/// The `--config` path among `args` (the program name excluded): the
/// argument after the first `--config`, or the rest of the first
/// `--config=<path>`, whichever comes first; none when `--config` is
/// the last argument or neither form appears.
pub open spec fn config_arg(args: Seq<Seq<char>>) -> Option<Seq<char>>
    decreases args.len(),
{
    if args.len() == 0 {
        None
    } else if args[0] == "--config"@ {
        if args.len() > 1 {
            Some(args[1])
        } else {
            None
        }
    } else if has_prefix(args[0], "--config="@) {
        Some(args[0].skip(9))
    } else {
        config_arg(args.drop_first())
    }
}

/// The arguments after the program name.
pub open spec fn after_program(args: Seq<Seq<char>>) -> Seq<Seq<char>> {
    if args.len() == 0 {
        args
    } else {
        args.skip(1)
    }
}

/// The `--config` path of a command line whose first element is the
/// program name.
pub fn parse_config_arg(args: &Vec<String>) -> (r: Option<String>)
    ensures
        match config_arg(after_program(arg_texts(args@))) {
            Some(p) => r matches Some(s) && s@ == p,
            None => r is None,
        },
{
    if args.len() == 0 {
        return None;
    }
    let mut i: usize = 1;
    while i < args.len()
        invariant
            1 <= i <= args@.len(),
            config_arg(after_program(arg_texts(args@))) == config_arg(arg_texts(args@).skip(i as int)),
        decreases args@.len() - i,
    {
        let ghost rest = arg_texts(args@).skip(i as int);
        proof {
            reveal_strlit("--config");
            reveal_strlit("--config=");
        }
        assert(rest[0] == args@[i as int]@);
        if str_eq(args[i].as_str(), "--config") {
            if i + 1 < args.len() {
                assert(rest[1] == args@[i + 1]@);
                return Some(args[i + 1].clone());
            }
            return None;
        }
        match strip_prefix_chars(args[i].as_str(), "--config=") {
            Some(rest_text) => return Some(rest_text),
            None => {},
        }
        assert(rest.drop_first() =~= arg_texts(args@).skip(i + 1));
        i = i + 1;
    }
    assert(arg_texts(args@).skip(i as int) =~= Seq::<Seq<char>>::empty());
    None
}

/// Whether the command line asks for `doctor`: any argument, the
/// program name included, is exactly `doctor`.
pub fn is_doctor_invocation(args: &Vec<String>) -> (r: bool)
    ensures
        r == exists|i: int| 0 <= i < args@.len() && (#[trigger] args@[i])@ == "doctor"@,
{
    let mut i: usize = 0;
    while i < args.len()
        invariant
            i <= args@.len(),
            forall|k: int| 0 <= k < i ==> (#[trigger] args@[k])@ != "doctor"@,
        decreases args@.len() - i,
    {
        if str_eq(args[i].as_str(), "doctor") {
            return true;
        }
        i = i + 1;
    }
    false
}

/// Name of the env var that forces colour in the log on or off.
pub const LOG_ANSI_ENV: &'static str = "LOG_ANSI";

/// Whether the log uses ANSI colour: `1` or `true` forces it on, `0`
/// or `false` forces it off; otherwise it is on exactly when stderr is
/// a terminal.
pub open spec fn ansi_choice(v: Option<Seq<char>>, stderr_is_terminal: bool) -> bool {
    match v {
        Some(s) => if s == "1"@ || s == "true"@ {
            true
        } else if s == "0"@ || s == "false"@ {
            false
        } else {
            stderr_is_terminal
        },
        None => stderr_is_terminal,
    }
}

/// Decides ANSI colour in the log from `LOG_ANSI` and whether stderr
/// is a terminal (see `ansi_choice`).
pub fn log_ansi(env: &EnvVars, stderr_is_terminal: bool) -> (r: bool)
    ensures
        r == ansi_choice(env_lookup(env.vars@, LOG_ANSI_ENV@), stderr_is_terminal),
{
    match env.get(LOG_ANSI_ENV) {
        Some(v) => {
            let t = v.as_str();
            if str_eq(t, "1") || str_eq(t, "true") {
                true
            } else if str_eq(t, "0") || str_eq(t, "false") {
                false
            } else {
                stderr_is_terminal
            }
        },
        None => stderr_is_terminal,
    }
}

} // verus!
