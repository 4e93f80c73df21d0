//! Reconstruction of the child process environment.
//!
//! The supervisor's own process may have been started by a GUI launcher with a
//! minimal environment that lacks the `PATH` a server script needs to find its
//! interpreters and tools. A launch therefore hands the child a `PATH` rebuilt
//! from a fixed, ordered list of conventional binary directories, with the
//! parent's own `PATH` appended when it has one, and an explicitly resolved
//! `HOME`.

use vstd::prelude::*;
use vstd::string::StringExecFns;

verus! {

/// The conventional binary directories handed to a child, in order:
/// per-user toolchain shims first, then the standard system directories.
pub open spec fn spec_path_entries(home: Seq<char>) -> Seq<Seq<char>> {
    seq![
        home + "/.cargo/bin"@,
        home + "/.bun/bin"@,
        home + "/bin"@,
        "/usr/local/bin"@,
        "/usr/bin"@,
        "/bin"@,
        "/usr/sbin"@,
        "/sbin"@,
        "/opt/homebrew/bin"@,
        "/usr/local/go/bin"@,
    ]
}

/// The parts joined with `:` separators.
pub open spec fn spec_join_colon(parts: Seq<Seq<char>>) -> Seq<char>
    decreases parts.len(),
{
    if parts.len() == 0 {
        Seq::empty()
    } else if parts.len() == 1 {
        parts[0]
    } else {
        spec_join_colon(parts.drop_last()) + ":"@ + parts.last()
    }
}

/// The `PATH` a child receives: the conventional directories, and the
/// caller's own `PATH` appended when it is non-empty.
pub open spec fn spec_child_path(home: Seq<char>, existing: Seq<char>) -> Seq<char> {
    let joined = spec_join_colon(spec_path_entries(home));
    if existing.len() == 0 {
        joined
    } else {
        joined + ":"@ + existing
    }
}

/// The home directory a child receives: the caller's `HOME` when set, else
/// the configured default.
pub fn resolve_home(env_home: Option<String>) -> (h: String)
    ensures
        match env_home {
            Some(s) => h@ == s@,
            None => h@ == "/Users/gwanli"@,
        },
{
    match env_home {
        Some(s) => s,
        None => String::from_str("/Users/gwanli"),
    }
}

/// Builds the ordered directory list for `home`.
pub fn path_entries(home: &str) -> (v: Vec<String>)
    ensures
        v.deep_view() == spec_path_entries(home@),
{
    let mut v: Vec<String> = Vec::new();
    v.push(String::from_str(home).concat("/.cargo/bin"));
    v.push(String::from_str(home).concat("/.bun/bin"));
    v.push(String::from_str(home).concat("/bin"));
    v.push(String::from_str("/usr/local/bin"));
    v.push(String::from_str("/usr/bin"));
    v.push(String::from_str("/bin"));
    v.push(String::from_str("/usr/sbin"));
    v.push(String::from_str("/sbin"));
    v.push(String::from_str("/opt/homebrew/bin"));
    v.push(String::from_str("/usr/local/go/bin"));
    proof {
        assert(v.deep_view() =~= spec_path_entries(home@));
    }
    v
}

/// Joins the parts with `:` separators.
pub fn join_colon(parts: &Vec<String>) -> (r: String)
    ensures
        r@ == spec_join_colon(parts.deep_view()),
{
    let mut r = String::new();
    let n = parts.len();
    let mut i: usize = 0;
    while i < n
        invariant
            0 <= i <= n,
            n == parts@.len(),
            r@ == spec_join_colon(parts.deep_view().take(i as int)),
        decreases n - i,
    {
        if i > 0 {
            r.append(":");
        }
        r.append(parts[i].as_str());
        proof {
            assert(parts.deep_view().take(i + 1).drop_last() =~= parts.deep_view().take(i as int));
            assert(parts.deep_view().take(i + 1).last() == parts@[i as int]@);
            if i == 0 {
                assert(spec_join_colon(parts.deep_view().take(1)) == parts.deep_view().take(1)[0]);
            }
        }
        i += 1;
    }
    proof {
        assert(parts.deep_view().take(n as int) =~= parts.deep_view());
    }
    r
}

/// The full `PATH` for a spawned child.
pub fn build_child_path(home: &str, existing: &str) -> (r: String)
    ensures
        r@ == spec_child_path(home@, existing@),
{
    let parts = path_entries(home);
    let mut r = join_colon(&parts);
    if !existing.is_empty() {
        r.append(":");
        r.append(existing);
    }
    r
}

/// The log file a service's output goes to, named after its logical id.
pub fn log_file_name(id: &str) -> (r: String)
    ensures
        r@ == id@ + ".log"@,
{
    String::from_str(id).concat(".log")
}

} // verus!
