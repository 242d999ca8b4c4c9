//! The spawn environment for the backend child process: its argument list and
//! its environment variables, including the augmented executable search path.

use vstd::prelude::*;
use crate::text::dec_digits;
use crate::text::u16_to_string;

verus! {

/// One environment variable handed to the child.
pub struct EnvVar {
    pub name: String,
    pub value: String,
}

/// The argument list and environment variables for a spawned child.  Names
/// are unique; later entries for the same name would overwrite earlier ones
/// when merged with the inherited process environment.
pub struct SpawnEnvironment {
    pub args: Vec<String>,
    pub vars: Vec<EnvVar>,
}

/// Whether every variable name occurs at most once.
pub open spec fn unique_names(vars: Seq<EnvVar>) -> bool {
    forall|i: int, j: int| 0 <= i < j < vars.len() ==> vars[i].name@ != vars[j].name@
}

/// The fixed system binary directories put first on the child's search path.
pub open spec fn fixed_path_prefix() -> Seq<Seq<char>> {
    seq![
        "/opt/homebrew/bin"@,
        "/usr/local/bin"@,
        "/usr/bin"@,
        "/bin"@,
        "/usr/sbin"@,
        "/sbin"@,
    ]
}

/// The user-local binary directories derived from the home directory, empty
/// when no non-empty home directory is known.
pub open spec fn home_path_segments(home: Option<Seq<char>>) -> Seq<Seq<char>> {
    match home {
        Some(h) => if h.len() > 0 {
            seq![h + "/.local/bin"@, h + "/.bun/bin"@]
        } else {
            Seq::empty()
        },
        None => Seq::empty(),
    }
}

/// The inherited search path, appended last when non-empty.
pub open spec fn inherited_path_segments(inherited: Option<Seq<char>>) -> Seq<Seq<char>> {
    match inherited {
        Some(p) => if p.len() > 0 {
            seq![p]
        } else {
            Seq::empty()
        },
        None => Seq::empty(),
    }
}

/// All search-path segments in order: fixed prefix, then user-local
/// directories, then the inherited path.
pub open spec fn path_segments(home: Option<Seq<char>>, inherited: Option<Seq<char>>) -> Seq<
    Seq<char>,
> {
    fixed_path_prefix() + home_path_segments(home) + inherited_path_segments(inherited)
}

/// The first `n` segments joined with `':'`.
pub open spec fn joined(segs: Seq<Seq<char>>, n: int) -> Seq<char>
    decreases n,
{
    if n <= 0 {
        Seq::empty()
    } else if n == 1 {
        segs[0]
    } else {
        joined(segs, n - 1) + seq![':'] + segs[n - 1]
    }
}

/// The whole augmented search path, joined with `':'`.
pub open spec fn augmented_path(home: Option<Seq<char>>, inherited: Option<Seq<char>>) -> Seq<
    char,
> {
    joined(path_segments(home, inherited), path_segments(home, inherited).len() as int)
}

/// The views of a sequence of strings.
pub open spec fn views_of(segs: Seq<String>) -> Seq<Seq<char>> {
    segs.map_values(|s: String| s@)
}

/// Joins the segments with `':'`.
fn join_colon(segs: &Vec<String>) -> (r: String)
    ensures
        r@ == joined(views_of(segs@), segs@.len() as int),
{
    let mut out = String::new();
    let mut i: usize = 0;
    while i < segs.len()
        invariant
            0 <= i <= segs@.len(),
            out@ == joined(views_of(segs@), i as int),
        decreases segs@.len() - i,
    {
        if i > 0 {
            out.append(":");
        }
        out.append(segs[i].as_str());
        proof {
            reveal_strlit(":");
            assert(views_of(segs@)[i as int] == segs@[i as int]@);
            if i == 0 {
                assert(out@ =~= joined(views_of(segs@), 1));
            } else {
                assert(out@ =~= joined(views_of(segs@), i as int) + seq![':']
                    + views_of(segs@)[i as int]);
            }
        }
        i = i + 1;
    }
    out
}

/// The view of an optionally present string.
pub open spec fn opt_view(o: Option<&String>) -> Option<Seq<char>> {
    match o {
        Some(s) => Some(s@),
        None => None,
    }
}

/// Builds the search-path segment list: fixed system directories, then
/// user-local directories under a non-empty home, then a non-empty inherited
/// path.
fn build_path_segments(home: Option<&String>, inherited: Option<&String>) -> (r: Vec<String>)
    ensures
        views_of(r@) == path_segments(opt_view(home), opt_view(inherited)),
{
    let mut segs: Vec<String> = Vec::new();
    segs.push(String::from_str("/opt/homebrew/bin"));
    segs.push(String::from_str("/usr/local/bin"));
    segs.push(String::from_str("/usr/bin"));
    segs.push(String::from_str("/bin"));
    segs.push(String::from_str("/usr/sbin"));
    segs.push(String::from_str("/sbin"));
    match home {
        Some(h) => {
            if !h.as_str().is_empty() {
                let mut local_bin = h.clone();
                local_bin.append("/.local/bin");
                segs.push(local_bin);
                let mut bun_bin = h.clone();
                bun_bin.append("/.bun/bin");
                segs.push(bun_bin);
            }
        },
        None => {},
    }
    match inherited {
        Some(p) => {
            if !p.as_str().is_empty() {
                segs.push(p.clone());
            }
        },
        None => {},
    }
    proof {
        assert(views_of(segs@) =~= path_segments(opt_view(home), opt_view(inherited)));
    }
    segs
}

/// Builds the child's argument list and environment for an allocated port and
/// a resolved static-asset directory.  `home` and `inherited_path` are the
/// values of the inherited `HOME` and `PATH` variables, when present.
pub fn build_environment(
    port: u16,
    dist_dir: &str,
    home: Option<&String>,
    inherited_path: Option<&String>,
) -> (r: SpawnEnvironment)
    ensures
        r.args@.len() == 2,
        r.args@[0]@ == "--port"@,
        r.args@[1]@ == dec_digits(port as nat),
        r.vars@.len() == 5,
        r.vars@[0].name@ == "OPENCHAMBER_HOST"@ && r.vars@[0].value@ == "127.0.0.1"@,
        r.vars@[1].name@ == "OPENCHAMBER_DIST_DIR"@ && r.vars@[1].value@ == dist_dir@,
        r.vars@[2].name@ == "PATH"@ && r.vars@[2].value@ == augmented_path(
            opt_view(home),
            opt_view(inherited_path),
        ),
        r.vars@[3].name@ == "NO_PROXY"@ && r.vars@[3].value@ == "localhost,127.0.0.1"@,
        r.vars@[4].name@ == "no_proxy"@ && r.vars@[4].value@ == "localhost,127.0.0.1"@,
        unique_names(r.vars@),
{
    let mut args: Vec<String> = Vec::new();
    args.push(String::from_str("--port"));
    args.push(u16_to_string(port));

    let segs = build_path_segments(home, inherited_path);
    let path_value = join_colon(&segs);

    let mut vars: Vec<EnvVar> = Vec::new();
    vars.push(
        EnvVar {
            name: String::from_str("OPENCHAMBER_HOST"),
            value: String::from_str("127.0.0.1"),
        },
    );
    vars.push(
        EnvVar { name: String::from_str("OPENCHAMBER_DIST_DIR"), value: String::from_str(dist_dir) },
    );
    vars.push(EnvVar { name: String::from_str("PATH"), value: path_value });
    vars.push(
        EnvVar { name: String::from_str("NO_PROXY"), value: String::from_str("localhost,127.0.0.1") },
    );
    vars.push(
        EnvVar { name: String::from_str("no_proxy"), value: String::from_str("localhost,127.0.0.1") },
    );
    proof {
        reveal_strlit("OPENCHAMBER_HOST");
        reveal_strlit("OPENCHAMBER_DIST_DIR");
        reveal_strlit("PATH");
        reveal_strlit("NO_PROXY");
        reveal_strlit("no_proxy");
        assert(vars@[0].name@.len() == 16);
        assert(vars@[1].name@.len() == 20);
        assert(vars@[2].name@.len() == 4);
        assert(vars@[3].name@.len() == 8);
        assert(vars@[4].name@.len() == 8);
        assert(vars@[3].name@[0] == 'N' && vars@[4].name@[0] == 'n');
    }
    SpawnEnvironment { args, vars }
}

} // verus!
