//! Which port the companion WebSocket service is reached on.
//!
//! The port comes from the first command-line argument, else from an
//! environment variable, else it is a fixed default. A source that is absent
//! or does not hold a 16-bit numeral is passed over in silence.

use vstd::prelude::*;
use vstd::string::*;
use crate::decimal::{decimal, parse_u16, parse_u16_spec, lemma_parse_decimal};

verus! {

/// The port used when neither the command line nor the environment gives one.
pub const DEFAULT_PORT: u16 = 8765;

/// The environment variable that may hold the port.
pub const PORT_ENV_VAR: &'static str = "TAURI_WS_PORT";

/// The flag that introduces the port on the command line.
pub open spec fn port_flag() -> Seq<char> {
    "--ws-port="@
}

/// The port that one command-line argument gives, if it gives one: the
/// numeral behind the flag where the argument starts with the flag, else the
/// argument itself read as a numeral.
pub open spec fn port_from_arg_spec(arg: Seq<char>) -> Option<u16> {
    if port_flag().is_prefix_of(arg) {
        parse_u16_spec(arg.skip(port_flag().len() as int))
    } else {
        parse_u16_spec(arg)
    }
}

/// The resolved port, given the first argument and the environment
/// variable's value, each where present. The argument is asked first.
pub open spec fn resolve_port_spec(arg: Option<Seq<char>>, env: Option<Seq<char>>) -> u16 {
    let from_arg = match arg {
        Some(a) => port_from_arg_spec(a),
        None => None,
    };
    let from_env = match env {
        Some(e) => parse_u16_spec(e),
        None => None,
    };
    match from_arg {
        Some(p) => p,
        None => match from_env {
            Some(p) => p,
            None => DEFAULT_PORT,
        },
    }
}

/// The text of the first of `args`, if there is one.
pub open spec fn first_arg(args: Seq<String>) -> Option<Seq<char>> {
    if args.len() > 0 {
        Some(args[0]@)
    } else {
        None
    }
}

/// The text of an optional string.
pub open spec fn text_of(value: Option<&str>) -> Option<Seq<char>> {
    match value {
        Some(v) => Some(v@),
        None => None,
    }
}

/// Whether `s` starts with `prefix`.
pub fn has_prefix(s: &str, prefix: &str) -> (r: bool)
    ensures
        r == prefix@.is_prefix_of(s@),
{
    let n: usize = s.unicode_len();
    let m: usize = prefix.unicode_len();
    if m > n {
        return false;
    }
    let mut i: usize = 0;
    while i < m
        invariant
            m == prefix@.len(),
            n == s@.len(),
            i <= m <= n,
            prefix@.subrange(0, i as int) == s@.subrange(0, i as int),
        decreases m - i,
    {
        if s.get_char(i) != prefix.get_char(i) {
            assert(s@.subrange(0, m as int)[i as int] != prefix@[i as int]);
            return false;
        }
        assert(prefix@.subrange(0, i + 1) =~= prefix@.subrange(0, i as int).push(prefix@[i as int]));
        assert(s@.subrange(0, i + 1) =~= s@.subrange(0, i as int).push(s@[i as int]));
        i = i + 1;
    }
    assert(prefix@.subrange(0, m as int) =~= prefix@);
    true
}

/// Reads the port out of one command-line argument, written either as
/// `--ws-port=N` or as the bare numeral `N`.
pub fn port_from_arg(arg: &str) -> (r: Option<u16>)
    ensures
        r == port_from_arg_spec(arg@),
{
    let flag: &str = "--ws-port=";
    if has_prefix(arg, flag) {
        let from: usize = flag.unicode_len();
        let to: usize = arg.unicode_len();
        parse_u16(arg.substring_char(from, to))
    } else {
        parse_u16(arg)
    }
}

/// Resolves the port from the first argument and the value of the
/// environment variable, each where present.
pub fn resolve_port(arg: Option<&str>, env_port: Option<&str>) -> (port: u16)
    ensures
        port == resolve_port_spec(text_of(arg), text_of(env_port)),
{
    let from_arg: Option<u16> = match arg {
        Some(a) => port_from_arg(a),
        None => None,
    };
    if let Some(p) = from_arg {
        return p;
    }
    let from_env: Option<u16> = match env_port {
        Some(e) => parse_u16(e),
        None => None,
    };
    match from_env {
        Some(p) => p,
        None => DEFAULT_PORT,
    }
}

/// Resolves the port for a process started with the arguments `args` (the
/// program's own name not among them) and with `env_port` as the value of
/// the variable `PORT_ENV_VAR`, where it is set. Only the first argument is
/// looked at.
pub fn get_ws_port(args: &Vec<String>, env_port: Option<&str>) -> (port: u16)
    ensures
        port == resolve_port_spec(first_arg(args@), text_of(env_port)),
{
    if args.len() > 0 {
        resolve_port(Some(args[0].as_str()), env_port)
    } else {
        resolve_port(None, env_port)
    }
}

/// A numeral never starts with the flag, so a bare numeral is read as itself.
pub proof fn lemma_numeral_has_no_flag(numeral: Seq<char>)
    requires
        parse_u16_spec(numeral) is Some,
    ensures
        !port_flag().is_prefix_of(numeral),
{
    reveal_strlit("--ws-port=");
    if port_flag().is_prefix_of(numeral) {
        assert(numeral[0] == numeral.subrange(0, port_flag().len() as int)[0]);
        assert(numeral[0] == '-');
    }
}

/// The flag followed by a numeral in range gives that numeral's value,
/// whatever the environment holds.
pub proof fn lemma_flag_gives_port(numeral: Seq<char>, n: u16, env: Option<Seq<char>>)
    requires
        parse_u16_spec(numeral) == Some(n),
    ensures
        port_from_arg_spec(port_flag() + numeral) == Some(n),
        resolve_port_spec(Some(port_flag() + numeral), env) == n,
{
    let arg = port_flag() + numeral;
    assert(arg.subrange(0, port_flag().len() as int) =~= port_flag());
    assert(arg.skip(port_flag().len() as int) =~= numeral);
}

/// The flag followed by the numeral that is written for `n` gives `n`.
pub proof fn lemma_flag_gives_written_port(n: u16, env: Option<Seq<char>>)
    ensures
        resolve_port_spec(Some(port_flag() + decimal(n as nat)), env) == n,
{
    lemma_parse_decimal(n);
    lemma_flag_gives_port(decimal(n as nat), n, env);
}

/// A bare numeral in range as the first argument gives its value, whatever
/// the environment holds.
pub proof fn lemma_bare_numeral_gives_port(numeral: Seq<char>, n: u16, env: Option<Seq<char>>)
    requires
        parse_u16_spec(numeral) == Some(n),
    ensures
        port_from_arg_spec(numeral) == Some(n),
        resolve_port_spec(Some(numeral), env) == n,
{
    lemma_numeral_has_no_flag(numeral);
}

/// A first argument that gives no port, with the environment variable unset
/// or holding no numeral in range, leaves the default.
pub proof fn lemma_malformed_arg_gives_default(arg: Seq<char>, env: Option<Seq<char>>)
    requires
        port_from_arg_spec(arg) is None,
        env matches Some(e) ==> parse_u16_spec(e) is None,
    ensures
        resolve_port_spec(Some(arg), env) == DEFAULT_PORT,
        resolve_port_spec(Some(arg), None) == DEFAULT_PORT,
{
}

/// With no argument, or one that gives no port, a numeral in range in the
/// environment variable gives its value.
pub proof fn lemma_env_gives_port(arg: Option<Seq<char>>, env: Seq<char>, n: u16)
    requires
        arg matches Some(a) ==> port_from_arg_spec(a) is None,
        parse_u16_spec(env) == Some(n),
    ensures
        resolve_port_spec(arg, Some(env)) == n,
        resolve_port_spec(None, Some(env)) == n,
{
}

/// The command line comes before the environment: where the flag carries a
/// numeral in range and the environment variable holds another, the flag's
/// value is the port.
pub proof fn lemma_flag_precedes_env(numeral: Seq<char>, n: u16, env: Seq<char>, m: u16)
    requires
        parse_u16_spec(numeral) == Some(n),
        parse_u16_spec(env) == Some(m),
    ensures
        resolve_port_spec(Some(port_flag() + numeral), Some(env)) == n,
{
    lemma_flag_gives_port(numeral, n, Some(env));
}

/// With no argument and the environment variable unset, the port is the
/// default.
pub proof fn lemma_nothing_gives_default()
    ensures
        resolve_port_spec(None, None) == DEFAULT_PORT,
{
}

} // verus!
