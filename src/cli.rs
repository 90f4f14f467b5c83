//! Decisions of the command-line surface: which report to run, where an explicit
//! key comes from, how a provided key compares with the resolved one, and the
//! key-status text.
use crate::resolve::{ResolveError, Source};
use crate::text::views;
use vstd::prelude::*;

verus! {

/// What an invocation asks for.
#[derive(PartialEq, Eq, Structural, Clone, Copy, Debug)]
pub enum CliMode {
    /// Print the system report once.
    Info,
    /// Print the disk usage report once.
    Disk,
    /// Print the process list once.
    Processes,
    /// Run as a service.
    Serve,
}

/// "info" anywhere among the arguments asks for the system report, else "disk"
/// for disk usage, else "processes" for the process list; otherwise the
/// program serves.
pub open spec fn mode_of(args: Seq<Seq<char>>) -> CliMode {
    if args.contains("info"@) {
        CliMode::Info
    } else if args.contains("disk"@) {
        CliMode::Disk
    } else if args.contains("processes"@) {
        CliMode::Processes
    } else {
        CliMode::Serve
    }
}

/// The value after the first `--key` at or after position `i` that has one.
pub open spec fn key_flag_from(args: Seq<Seq<char>>, i: int) -> Option<Seq<char>>
    decreases args.len() - i,
{
    if i < 0 || i + 1 >= args.len() {
        None
    } else if args[i] == "--key"@ {
        Some(args[i + 1])
    } else {
        key_flag_from(args, i + 1)
    }
}

/// A non-empty explicit key: from the environment when it holds one, else from
/// the `--key` flag (the program's own name, first, is never read as a flag).
pub open spec fn explicit_key(env: Option<Seq<char>>, args: Seq<Seq<char>>) -> Option<Seq<char>> {
    match env {
        Some(v) if v.len() > 0 => Some(v),
        _ => match key_flag_from(args, 1) {
            Some(v) if v.len() > 0 => Some(v),
            _ => None,
        },
    }
}

/// Whether `word` is one of `args`.
fn has_word(args: &Vec<String>, word: &str) -> (r: bool)
    ensures
        r == views(args@).contains(word@),
{
    let w = String::from_str(word);
    let mut i: usize = 0;
    while i < args.len()
        invariant
            w@ == word@,
            i <= args.len(),
            forall|k: int| 0 <= k < i ==> args@[k]@ != word@,
        decreases args.len() - i,
    {
        if args[i] == w {
            assert(views(args@)[i as int] == word@);
            return true;
        }
        i += 1;
    }
    assert forall|k: int| 0 <= k < views(args@).len() implies views(args@)[k] != word@ by {
        assert(views(args@)[k] == args@[k]@);
    }
    false
}

/// The mode that the arguments ask for.
pub fn cli_mode(args: &Vec<String>) -> (r: CliMode)
    ensures
        r == mode_of(views(args@)),
{
    if has_word(args, "info") {
        CliMode::Info
    } else if has_word(args, "disk") {
        CliMode::Disk
    } else if has_word(args, "processes") {
        CliMode::Processes
    } else {
        CliMode::Serve
    }
}

/// The value of the first `--key` flag that has one.
pub fn key_flag(args: &Vec<String>) -> (r: Option<String>)
    ensures
        match r {
            Some(v) => key_flag_from(views(args@), 1) == Some(v@),
            None => key_flag_from(views(args@), 1) is None,
        },
{
    let ghost a = views(args@);
    let flag = String::from_str("--key");
    let mut i: usize = 1;
    while i < args.len() && i + 1 < args.len()
        invariant
            a == views(args@),
            a.len() == args@.len(),
            flag@ == "--key"@,
            1 <= i,
            key_flag_from(a, 1) == key_flag_from(a, i as int),
        decreases args.len() - i,
    {
        assert(a[i as int] == args@[i as int]@);
        if args[i] == flag {
            assert(a[i + 1] == args@[i + 1]@);
            return Some(args[i + 1].clone());
        }
        i += 1;
    }
    None
}

/// The explicit key of an invocation, given the environment variable's value.
pub fn explicit_credential(env: Option<String>, args: &Vec<String>) -> (r: Option<String>)
    ensures
        match r {
            Some(v) => explicit_key(
                match env {
                    Some(e) => Some(e@),
                    None => None,
                },
                views(args@),
            ) == Some(v@),
            None => explicit_key(
                match env {
                    Some(e) => Some(e@),
                    None => None,
                },
                views(args@),
            ) is None,
        },
{
    match env {
        Some(v) => {
            if v.as_str().unicode_len() > 0 {
                return Some(v);
            }
        },
        None => {},
    }
    match key_flag(args) {
        Some(v) => {
            if v.as_str().unicode_len() > 0 {
                Some(v)
            } else {
                None
            }
        },
        None => None,
    }
}

/// How a provided key compares with the resolved one.
pub enum KeyCheck {
    NotProvided,
    Matched,
    Mismatched,
    /// Resolution failed, with this description.
    Failed(String),
}

impl ResolveError {
    /// A short description of the failure.
    pub fn describe(&self) -> (r: String)
        ensures
            r@ == describe_error(*self),
    {
        match self {
            ResolveError::RemoteAuth(m) => String::from_str("authentication failed: ").concat(
                m.as_str(),
            ),
            ResolveError::RemoteList(m) => String::from_str("listing keys failed: ").concat(
                m.as_str(),
            ),
            ResolveError::NoKeys => String::from_str("no keys found in project"),
            ResolveError::KeyNotFound => String::from_str("MCP API Key not found"),
            ResolveError::KeyUnnamed => String::from_str("key has no name"),
            ResolveError::RemoteFetch(m) => String::from_str("fetching key string failed: ").concat(
                m.as_str(),
            ),
            ResolveError::NoKeyString => String::from_str("response contained no key string"),
        }
    }
}

pub open spec fn describe_error(e: ResolveError) -> Seq<char> {
    match e {
        ResolveError::RemoteAuth(m) => "authentication failed: "@ + m@,
        ResolveError::RemoteList(m) => "listing keys failed: "@ + m@,
        ResolveError::NoKeys => "no keys found in project"@,
        ResolveError::KeyNotFound => "MCP API Key not found"@,
        ResolveError::KeyUnnamed => "key has no name"@,
        ResolveError::RemoteFetch(m) => "fetching key string failed: "@ + m@,
        ResolveError::NoKeyString => "response contained no key string"@,
    }
}

/// Compares a provided key with the outcome of resolution.
pub fn check_key(provided: &Option<String>, resolved: &Result<String, ResolveError>) -> (r:
    KeyCheck)
    ensures
        match (*provided, *resolved) {
            (None, _) => r is NotProvided,
            (Some(p), Ok(k)) => if p@ == k@ {
                r is Matched
            } else {
                r is Mismatched
            },
            (Some(_), Err(e)) => r matches KeyCheck::Failed(m) && m@ == describe_error(e),
        },
{
    match provided {
        None => KeyCheck::NotProvided,
        Some(p) => match resolved {
            Ok(k) => {
                if *p == *k {
                    KeyCheck::Matched
                } else {
                    KeyCheck::Mismatched
                }
            },
            Err(e) => KeyCheck::Failed(e.describe()),
        },
    }
}

/// Only a key that matches the resolved one passes.
pub fn check_passed(check: &KeyCheck) -> (r: bool)
    ensures
        r == check is Matched,
{
    match check {
        KeyCheck::Matched => true,
        _ => false,
    }
}

/// The lines that report a key check.
pub open spec fn status_lines(check: KeyCheck) -> Seq<char> {
    "MCP API Key Status\n------------------\n"@ + match check {
        KeyCheck::NotProvided => "Provided Key:     [NOT FOUND]\n"@,
        KeyCheck::Matched => "Provided Key:     [FOUND]\nCloud Match:      [MATCHED]\n"@,
        KeyCheck::Mismatched => "Provided Key:     [FOUND]\nCloud Match:      [MISMATCH]\n"@,
        KeyCheck::Failed(m) => "Provided Key:     [FOUND]\nCloud Match:      [ERROR: "@ + m@
            + "]\n"@,
    } + "\n"@
}

/// The key-status text of a check.
pub fn status_report(check: &KeyCheck) -> (r: String)
    ensures
        r@ == status_lines(*check),
{
    let head = String::from_str("MCP API Key Status\n------------------\n");
    let body = match check {
        KeyCheck::NotProvided => head.concat("Provided Key:     [NOT FOUND]\n"),
        KeyCheck::Matched => head.concat("Provided Key:     [FOUND]\nCloud Match:      [MATCHED]\n"),
        KeyCheck::Mismatched => head.concat(
            "Provided Key:     [FOUND]\nCloud Match:      [MISMATCH]\n",
        ),
        KeyCheck::Failed(m) => head.concat(
            "Provided Key:     [FOUND]\nCloud Match:      [ERROR: ",
        ).concat(m.as_str()).concat("]\n"),
    };
    let r = body.concat("\n");
    proof {
        match check {
            KeyCheck::Failed(m) => {
                assert(r@ =~= status_lines(*check));
            },
            _ => {
                assert(r@ =~= status_lines(*check));
            },
        }
    }
    r
}

/// The credential that a service holds after resolution: the key on success; on
/// failure no key where authentication is optional, and the error where it is
/// required.
pub fn service_credential(outcome: Result<(String, Source), ResolveError>, required: bool) -> (r:
    Result<Option<String>, ResolveError>)
    ensures
        match outcome {
            Ok((k, _)) => r == Ok::<Option<String>, ResolveError>(Some(k)),
            Err(e) => if required {
                r == Err::<Option<String>, ResolveError>(e)
            } else {
                r == Ok::<Option<String>, ResolveError>(None)
            },
        },
{
    match outcome {
        Ok((k, _)) => Ok(Some(k)),
        Err(e) => {
            if required {
                Err(e)
            } else {
                Ok(None)
            }
        },
    }
}

} // verus!
