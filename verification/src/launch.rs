//! What one attempt hands to the process: its configuration file and its
//! arguments, and the address under which the relay is then reached.

use crate::error::Error;
use vstd::prelude::*;

verus! {

/// The character of a decimal digit.
pub open spec fn digit(d: nat) -> char {
    if d == 0 {
        '0'
    } else if d == 1 {
        '1'
    } else if d == 2 {
        '2'
    } else if d == 3 {
        '3'
    } else if d == 4 {
        '4'
    } else if d == 5 {
        '5'
    } else if d == 6 {
        '6'
    } else if d == 7 {
        '7'
    } else if d == 8 {
        '8'
    } else {
        '9'
    }
}

/// A number in decimal, without sign or leading zeros.
pub open spec fn decimal(n: nat) -> Seq<char>
    decreases n,
{
    if n < 10 {
        seq![digit(n)]
    } else {
        decimal(n / 10).push(digit(n % 10))
    }
}

/// The configuration file that tells the relay where to listen. The port is
/// written as a string, which is what the relay reads.
pub open spec fn config_text_spec(addr: Seq<char>, port: u16) -> Seq<char> {
    "[network]\naddress = \""@ + addr + "\"\nport = \""@ + decimal(port as nat) + "\"\n"@
}

/// The address under which a relay bound to `addr` and `port` is reached.
pub open spec fn endpoint_spec(addr: Seq<char>, port: u16) -> Seq<char> {
    "ws://"@ + addr + ":"@ + decimal(port as nat)
}

/// The arguments of the process: the caller's, then the configuration file,
/// then the data directory.
pub open spec fn spawn_args_spec(
    args: Seq<Seq<char>>,
    config_path: Seq<char>,
    work_dir: Seq<char>,
) -> Seq<Seq<char>> {
    args + seq!["--config"@, config_path, "--db"@, work_dir]
}

/// The views of a list of borrowed strings.
pub open spec fn str_views(args: Seq<&str>) -> Seq<Seq<char>> {
    Seq::new(args.len(), |i: int| args[i]@)
}

/// The views of a list of strings.
pub open spec fn string_views(args: Seq<String>) -> Seq<Seq<char>> {
    Seq::new(args.len(), |i: int| args[i]@)
}

fn digit_str(d: u16) -> (r: &'static str)
    requires
        d < 10,
    ensures
        r@ == seq![digit(d as nat)],
{
    proof {
        reveal_strlit("0");
        reveal_strlit("1");
        reveal_strlit("2");
        reveal_strlit("3");
        reveal_strlit("4");
        reveal_strlit("5");
        reveal_strlit("6");
        reveal_strlit("7");
        reveal_strlit("8");
        reveal_strlit("9");
    }
    if d == 0 {
        "0"
    } else if d == 1 {
        "1"
    } else if d == 2 {
        "2"
    } else if d == 3 {
        "3"
    } else if d == 4 {
        "4"
    } else if d == 5 {
        "5"
    } else if d == 6 {
        "6"
    } else if d == 7 {
        "7"
    } else if d == 8 {
        "8"
    } else {
        "9"
    }
}

/// Appends `n` in decimal to `s`.
pub fn push_decimal(s: &mut String, n: u16)
    ensures
        final(s)@ == old(s)@ + decimal(n as nat),
    decreases n,
{
    if n >= 10 {
        push_decimal(s, n / 10);
    }
    s.append(digit_str(n % 10));
}

/// The text of the configuration file for a relay that binds `addr` and
/// listens on `port`.
pub fn config_text(addr: &str, port: u16) -> (r: String)
    ensures
        r@ == config_text_spec(addr@, port),
{
    let mut s = String::from_str("[network]\naddress = \"");
    s.append(addr);
    s.append("\"\nport = \"");
    push_decimal(&mut s, port);
    s.append("\"\n");
    s
}

/// The connection address of a relay bound to `addr` and `port`.
pub fn endpoint(addr: &str, port: u16) -> (r: String)
    ensures
        r@ == endpoint_spec(addr@, port),
{
    let mut s = String::from_str("ws://");
    s.append(addr);
    s.append(":");
    push_decimal(&mut s, port);
    s
}

/// The arguments for the process: the caller's own in their order, then
/// `--config` with the path of the configuration file, then `--db` with the
/// working directory.
pub fn spawn_args(args: &Vec<&str>, config_path: &str, work_dir: &str) -> (r: Vec<String>)
    ensures
        string_views(r@) == spawn_args_spec(str_views(args@), config_path@, work_dir@),
{
    let mut out: Vec<String> = Vec::new();
    let mut i: usize = 0;
    while i < args.len()
        invariant
            i <= args.len(),
            out@.len() == i,
            forall|j: int| 0 <= j < i ==> (#[trigger] out@[j])@ == args@[j]@,
        decreases args.len() - i,
    {
        out.push(String::from_str(args[i]));
        i += 1;
    }
    out.push(String::from_str("--config"));
    out.push(String::from_str(config_path));
    out.push(String::from_str("--db"));
    out.push(String::from_str(work_dir));
    out
}

/// The environment of the process beyond what it inherits: the relay logs at
/// debug level, so that it announces readiness.
pub fn spawn_env() -> (r: (String, String))
    ensures
        r.0@ == "RUST_LOG"@,
        r.1@ == "debug"@,
{
    (String::from_str("RUST_LOG"), String::from_str("debug"))
}

/// Accepts the executable at `path` where it exists and is a regular file,
/// as `exists` and `is_file` report it. Anything else is a fault of the
/// configuration, and no attempt is made.
pub fn check_executable(path: &str, exists: bool, is_file: bool) -> (r: Result<(), Error>)
    ensures
        r is Ok <==> exists && is_file,
        r matches Err(e) ==> (e matches Error::ConfigurationInvalid(p) && p@ == path@),
{
    if exists && is_file {
        Ok(())
    } else {
        Err(Error::ConfigurationInvalid(String::from_str(path)))
    }
}

} // verus!
