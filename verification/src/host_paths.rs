//! Where the host keeps things: its log directory, the control server's
//! debug log beside its socket, the terminal resources next to the
//! executable, and when an inherited environment path is replaced. The
//! environment and the file system are read by the caller and handed in as
//! plain values.
use vstd::prelude::*;
use crate::paths::{join, join_path};
use crate::text::{ends_with, str_ends_with, str_eq, trim, trim_str, push_char};
use crate::control::{opt_str_view, str_opt};
use crate::control::browser::strings_view;
use vstd::string::StringSliceAdditionalSpecFns;

verus! {

/// The text of `Path::parent` for a path.
pub uninterp spec fn parent_of(p: Seq<char>) -> Option<Seq<char>>;

/// The text of `Path::file_name` for a path.
pub uninterp spec fn file_name_of(p: Seq<char>) -> Option<Seq<char>>;

/// `Path::parent`: the path without its final component, when it has one.
/// That is a part of the path, so it is shorter than the path.
#[verifier::external_body]
fn path_parent(p: &str) -> (r: Option<String>)
    ensures
        opt_str_view(r) == parent_of(p@),
        r matches Some(q) ==> q@.len() < p@.len(),
{
    std::path::Path::new(p).parent().map(|q| q.to_string_lossy().into_owned())
}

/// `Path::file_name`: the final component of the path, when it is a normal
/// one.
#[verifier::external_body]
fn path_file_name(p: &str) -> (r: Option<String>)
    ensures
        opt_str_view(r) == file_name_of(p@),
{
    std::path::Path::new(p).file_name().map(|n| n.to_string_lossy().into_owned())
}

/// A path is absolute when it starts at the root.
pub open spec fn is_absolute(p: Seq<char>) -> bool {
    p.len() > 0 && p[0] == '/'
}

/// The log directory: `$XDG_STATE_HOME/chostty` when that is absolute, else
/// `chostty` in the user's state directory, else `~/.local/state/chostty`,
/// else `/tmp/chostty`.
pub open spec fn log_dir(xdg_state_home: Option<Seq<char>>, state_dir: Option<Seq<char>>, home: Option<Seq<char>>) -> Seq<char> {
    match xdg_state_home {
        Some(x) if is_absolute(x) => join(x, "chostty"@),
        _ => match state_dir {
            Some(d) => join(d, "chostty"@),
            None => match home {
                Some(h) => join(join(join(h, ".local"@), "state"@), "chostty"@),
                None => "/tmp/chostty"@,
            },
        },
    }
}

/// The log directory for the given environment; see `log_dir`.
pub fn log_dir_from(xdg_state_home: Option<&str>, state_dir: Option<&str>, home: Option<&str>) -> (r: String)
    ensures
        r@ == log_dir(str_opt(xdg_state_home), str_opt(state_dir), str_opt(home)),
{
    match xdg_state_home {
        Some(x) if x.unicode_len() > 0 && x.get_char(0) == '/' => return join_path(x, "chostty"),
        _ => {},
    }
    match state_dir {
        Some(d) => join_path(d, "chostty"),
        None => match home {
            Some(h) => {
                let a = join_path(h, ".local");
                let b = join_path(a.as_str(), "state");
                join_path(b.as_str(), "chostty")
            },
            None => String::from_str("/tmp/chostty"),
        },
    }
}

/// The debug log beside a socket: the socket's file name without `.sock`,
/// with `.log`, in the socket's directory (`/tmp` when it has none); `None`
/// when the socket path has no file name.
pub open spec fn debug_log_path(socket: Seq<char>) -> Option<Seq<char>> {
    match file_name_of(socket) {
        None => None,
        Some(name) => {
            let stem = if ends_with(name, ".sock"@) { name.take(name.len() - 5) } else { name };
            let dir = match parent_of(socket) { Some(d) => d, None => "/tmp"@ };
            Some(join(dir, stem + ".log"@))
        },
    }
}

/// The debug log for a socket; see `debug_log_path`.
pub fn debug_log_path_for(socket: &str) -> (r: Option<String>)
    ensures
        opt_str_view(r) == debug_log_path(socket@),
{
    proof { reveal_strlit(".sock"); }
    let name = match path_file_name(socket) { Some(n) => n, None => return None };
    let n = name.unicode_len();
    let mut stem = if str_ends_with(name.as_str(), ".sock") {
        String::from_str(name.as_str().substring_char(0, n - 5))
    } else {
        name
    };
    stem.append(".log");
    let dir = match path_parent(socket) { Some(d) => d, None => String::from_str("/tmp") };
    Some(join_path(dir.as_str(), stem.as_str()))
}

/// The terminfo directory beside a resources directory.
pub open spec fn terminfo_dir(resources: Seq<char>) -> Option<Seq<char>> {
    match parent_of(resources) {
        Some(p) => Some(join(p, "terminfo"@)),
        None => None,
    }
}

/// The terminfo directory beside a resources directory; see `terminfo_dir`.
pub fn terminfo_dir_for(resources: &str) -> (r: Option<String>)
    ensures
        opt_str_view(r) == terminfo_dir(resources@),
{
    match path_parent(resources) {
        Some(p) => Some(join_path(p.as_str(), "terminfo")),
        None => None,
    }
}

/// A directory and its ancestors, nearest first (`Path::ancestors`), for at
/// most `fuel` steps.
pub open spec fn ancestors(p: Seq<char>, fuel: nat) -> Seq<Seq<char>>
    decreases fuel,
{
    if fuel == 0 {
        Seq::empty()
    } else {
        seq![p] + match parent_of(p) {
            Some(q) => ancestors(q, (fuel - 1) as nat),
            None => Seq::empty(),
        }
    }
}

/// Where terminal resources may be, for one ancestor of the executable's
/// directory.
pub open spec fn candidates_at(dir: Seq<char>) -> Seq<Seq<char>> {
    seq![
        join(dir, "share/chostty/ghostty"@),
        join(dir, "share/ghostty"@),
        join(dir, "ghostty/zig-out/share/ghostty"@),
    ]
}

pub open spec fn candidates_for(dirs: Seq<Seq<char>>) -> Seq<Seq<char>>
    decreases dirs.len(),
{
    if dirs.len() == 0 {
        Seq::empty()
    } else {
        candidates_for(dirs.drop_last()) + candidates_at(dirs.last())
    }
}

/// Every place the resources directory is looked for, in order: beside each
/// ancestor of the executable's directory, then the system locations.
pub open spec fn resource_candidates(exe_dir: Seq<char>) -> Seq<Seq<char>> {
    candidates_for(ancestors(exe_dir, exe_dir.len() + 1))
        + seq!["/usr/local/share/ghostty"@, "/usr/share/ghostty"@]
}

proof fn lemma_ancestors_step(p: Seq<char>, fuel: nat)
    requires
        fuel > 0,
    ensures
        ancestors(p, fuel) == seq![p] + match parent_of(p) {
            Some(q) => ancestors(q, (fuel - 1) as nat),
            None => Seq::<Seq<char>>::empty(),
        },
{
}

proof fn lemma_candidates_append(a: Seq<Seq<char>>, b: Seq<Seq<char>>)
    ensures
        candidates_for(a + b) == candidates_for(a) + candidates_for(b),
    decreases b.len(),
{
    if b.len() == 0 {
        assert(a + b =~= a);
        assert(candidates_for(a) + candidates_for(b) =~= candidates_for(a));
    } else {
        lemma_candidates_append(a, b.drop_last());
        assert((a + b).drop_last() =~= a + b.drop_last());
        assert((a + b).last() == b.last());
        assert(candidates_for(a) + candidates_for(b) =~= candidates_for(a) + candidates_for(b.drop_last()) + candidates_at(b.last()));
    }
}

proof fn lemma_candidates_one(c: Seq<char>)
    ensures
        candidates_for(seq![c]) == candidates_at(c),
{
    assert(seq![c].drop_last() =~= Seq::<Seq<char>>::empty());
    assert(candidates_for(Seq::<Seq<char>>::empty()) == Seq::<Seq<char>>::empty());
    assert(candidates_for(seq![c]) =~= candidates_at(c));
}

fn push_candidates(out: &mut Vec<String>, dir: &str)
    ensures
        strings_view(final(out)@) == strings_view(old(out)@) + candidates_at(dir@),
{
    out.push(join_path(dir, "share/chostty/ghostty"));
    out.push(join_path(dir, "share/ghostty"));
    out.push(join_path(dir, "ghostty/zig-out/share/ghostty"));
    proof { assert(strings_view(out@) =~= strings_view(old(out)@) + candidates_at(dir@)); }
}

/// Every place the resources directory is looked for; see
/// `resource_candidates`.
pub fn resource_candidates_for(exe_dir: &str) -> (r: Vec<String>)
    ensures
        strings_view(r@) == resource_candidates(exe_dir@),
{
    let ghost fuel0: nat = exe_dir@.len() + 1;
    let ghost all = candidates_for(ancestors(exe_dir@, fuel0));
    let mut out: Vec<String> = Vec::new();
    let mut cur = String::from_str(exe_dir);
    let ghost mut fuel: nat = fuel0;
    proof { assert(strings_view(out@) =~= Seq::<Seq<char>>::empty()); }
    loop
        invariant
            fuel > cur@.len(),
            fuel0 == exe_dir@.len() + 1,
            all == candidates_for(ancestors(exe_dir@, fuel0)),
            all == strings_view(out@) + candidates_for(ancestors(cur@, fuel)),
        decreases cur@.len(),
    {
        let ghost before = strings_view(out@);
        push_candidates(&mut out, cur.as_str());
        let ghost c = cur@;
        proof { lemma_ancestors_step(c, fuel); }
        match path_parent(cur.as_str()) {
            Some(q) => {
                proof {
                    lemma_candidates_append(seq![c], ancestors(q@, (fuel - 1) as nat));
                    lemma_candidates_one(c);
                    assert(strings_view(out@) + candidates_for(ancestors(q@, (fuel - 1) as nat))
                        =~= before + candidates_for(ancestors(c, fuel)));
                    fuel = (fuel - 1) as nat;
                }
                cur = q;
            },
            None => {
                proof {
                    assert(ancestors(c, fuel) =~= seq![c]);
                    lemma_candidates_one(c);
                    assert(all =~= strings_view(out@));
                }
                out.push(String::from_str("/usr/local/share/ghostty"));
                out.push(String::from_str("/usr/share/ghostty"));
                proof {
                    assert(strings_view(out@) =~= all + seq!["/usr/local/share/ghostty"@, "/usr/share/ghostty"@]);
                }
                return out;
            },
        }
    }
}

/// Which path to set for an environment variable the terminal needs: none
/// when the inherited value is valid, else the resolved path when it is
/// valid.
pub open spec fn env_path_choice(existing_valid: bool, candidate: Option<Seq<char>>, candidate_valid: bool) -> Option<Seq<char>> {
    if existing_valid {
        None
    } else if candidate_valid {
        candidate
    } else {
        None
    }
}

/// The path to set; see `env_path_choice`.
pub fn choose_env_path(existing_valid: bool, candidate: Option<String>, candidate_valid: bool) -> (r: Option<String>)
    ensures
        opt_str_view(r) == env_path_choice(existing_valid, opt_str_view(candidate), candidate_valid),
{
    if existing_valid {
        None
    } else if candidate_valid {
        candidate
    } else {
        None
    }
}


/// The pieces of a text between its `:` characters (`str::split(':')`).
pub open spec fn colon_parts(s: Seq<char>) -> Seq<Seq<char>>
    decreases s.len(),
{
    if s.len() == 0 {
        seq![Seq::empty()]
    } else {
        let init = colon_parts(s.drop_last());
        if s.last() == ':' {
            init.push(Seq::empty())
        } else {
            init.update(init.len() - 1, init.last().push(s.last()))
        }
    }
}

proof fn lemma_colon_parts_nonempty(s: Seq<char>)
    ensures
        colon_parts(s).len() >= 1,
    decreases s.len(),
{
    if s.len() > 0 {
        lemma_colon_parts_nonempty(s.drop_last());
    }
}

/// Adds a trimmed piece unless it is empty or already there.
pub open spec fn add_entry(entries: Seq<Seq<char>>, piece: Seq<char>) -> Seq<Seq<char>> {
    let t = trim(piece);
    if t.len() == 0 || entries.contains(t) { entries } else { entries.push(t) }
}

pub open spec fn add_entries(entries: Seq<Seq<char>>, pieces: Seq<Seq<char>>) -> Seq<Seq<char>>
    decreases pieces.len(),
{
    if pieces.len() == 0 {
        entries
    } else {
        add_entry(add_entries(entries, pieces.drop_last()), pieces.last())
    }
}

/// The data directories a terminal command sees: the resources directory,
/// then each inherited entry not yet listed, then `/usr/local/share` and
/// `/usr/share` unless listed.
pub open spec fn xdg_entries(resources: Seq<char>, inherited: Option<Seq<char>>) -> Seq<Seq<char>> {
    let first = seq![resources];
    let with_inherited = match inherited {
        Some(v) => if trim(v).len() > 0 { add_entries(first, colon_parts(v)) } else { first },
        None => first,
    };
    add_entry(add_entry(with_inherited, "/usr/local/share"@), "/usr/share"@)
}

/// Entries joined by `:`.
pub open spec fn colon_joined(entries: Seq<Seq<char>>) -> Seq<char>
    decreases entries.len(),
{
    if entries.len() == 0 {
        Seq::empty()
    } else if entries.len() == 1 {
        entries[0]
    } else {
        colon_joined(entries.drop_last()) + ":"@ + entries.last()
    }
}

fn split_colons(s: &str) -> (r: Vec<String>)
    ensures
        strings_view(r@) == colon_parts(s@),
{
    let n = s.unicode_len();
    let mut parts: Vec<String> = vec![String::new()];
    let mut i: usize = 0;
    proof {
        assert(s@.take(0) =~= Seq::<char>::empty());
        assert(strings_view(parts@) =~= colon_parts(s@.take(0)));
    }
    while i < n
        invariant
            n == s@.len(),
            i <= n,
            strings_view(parts@) == colon_parts(s@.take(i as int)),
        decreases n - i,
    {
        let c = s.get_char(i);
        proof {
            lemma_colon_parts_nonempty(s@.take(i as int));
            assert(s@.take(i + 1).drop_last() =~= s@.take(i as int));
            assert(s@.take(i + 1).last() == c);
        }
        if c == ':' {
            parts.push(String::new());
            proof { assert(strings_view(parts@) =~= colon_parts(s@.take(i + 1))); }
        } else {
            let k = parts.len() - 1;
            let mut last = parts[k].clone();
            push_char(&mut last, c);
            parts.set(k, last);
            proof { assert(strings_view(parts@) =~= colon_parts(s@.take(i + 1))); }
        }
        i = i + 1;
    }
    proof { assert(s@.take(n as int) =~= s@); }
    parts
}

fn listed(v: &Vec<String>, x: &str) -> (r: bool)
    ensures
        r == strings_view(v@).contains(x@),
{
    let mut i: usize = 0;
    while i < v.len()
        invariant
            i <= v.len(),
            forall|j: int| 0 <= j < i ==> strings_view(v@)[j] != x@,
        decreases v.len() - i,
    {
        if str_eq(v[i].as_str(), x) {
            proof { assert(strings_view(v@)[i as int] == x@); }
            return true;
        }
        i = i + 1;
    }
    false
}

fn add_entry_exec(entries: &mut Vec<String>, piece: &str)
    ensures
        strings_view(final(entries)@) == add_entry(strings_view(old(entries)@), piece@),
{
    let t = trim_str(piece);
    if t.unicode_len() == 0 || listed(entries, t) {
        return;
    }
    entries.push(String::from_str(t));
    proof { assert(strings_view(entries@) =~= strings_view(old(entries)@).push(t@)); }
}

fn colon_join(entries: &Vec<String>) -> (r: String)
    ensures
        r@ == colon_joined(strings_view(entries@)),
{
    let ghost v = strings_view(entries@);
    if entries.len() == 0 {
        return String::new();
    }
    let mut out = entries[0].clone();
    let mut i: usize = 1;
    proof { assert(v.take(1).drop_last() =~= Seq::<Seq<char>>::empty()); }
    while i < entries.len()
        invariant
            1 <= i <= entries.len(),
            v == strings_view(entries@),
            out@ == colon_joined(v.take(i as int)),
        decreases entries.len() - i,
    {
        out.append(":");
        out.append(entries[i].as_str());
        proof {
            assert(v.take(i + 1).drop_last() =~= v.take(i as int));
            assert(v.take(i + 1).last() == v[i as int]);
        }
        i = i + 1;
    }
    proof { assert(v.take(i as int) =~= v); }
    out
}

/// The `XDG_DATA_DIRS` a terminal command runs with; see `xdg_entries`.
pub fn xdg_data_dirs_value(resources: &str, inherited: Option<&str>) -> (r: String)
    ensures
        r@ == colon_joined(xdg_entries(resources@, str_opt(inherited))),
{
    let mut entries: Vec<String> = vec![String::from_str(resources)];
    proof { assert(strings_view(entries@) =~= seq![resources@]); }
    match inherited {
        Some(v) => {
            if trim_str(v).unicode_len() > 0 {
                let parts = split_colons(v);
                let ghost pv = strings_view(parts@);
                let mut i: usize = 0;
                proof { assert(pv.take(0) =~= Seq::<Seq<char>>::empty()); }
                while i < parts.len()
                    invariant
                        i <= parts.len(),
                        pv == strings_view(parts@),
                        strings_view(entries@) == add_entries(seq![resources@], pv.take(i as int)),
                    decreases parts.len() - i,
                {
                    add_entry_exec(&mut entries, parts[i].as_str());
                    proof {
                        assert(pv.take(i + 1).drop_last() =~= pv.take(i as int));
                        assert(pv.take(i + 1).last() == pv[i as int]);
                    }
                    i = i + 1;
                }
                proof { assert(pv.take(i as int) =~= pv); }
            }
        },
        None => {},
    }
    add_entry_exec(&mut entries, "/usr/local/share");
    add_entry_exec(&mut entries, "/usr/share");
    proof { reveal_strlit("/usr/local/share"); reveal_strlit("/usr/share"); }
    colon_join(&entries)
}


/// Whether `Path::ends_with` holds: the path's last components are those of
/// the suffix.
pub uninterp spec fn path_ends_with_of(p: Seq<char>, suffix: Seq<char>) -> bool;

/// `Path::ends_with`, component by component.
#[verifier::external_body]
fn path_ends_with(p: &str, suffix: &str) -> (r: bool)
    ensures
        r == path_ends_with_of(p@, suffix@),
{
    std::path::Path::new(p).ends_with(suffix)
}

/// Where sessions are kept: `chostty` in the data directory (the home
/// directory when there is none, `.` when neither is known), under
/// `.local/share` unless the base already ends there.
pub open spec fn persistence_dir(data_dir: Option<Seq<char>>, home: Option<Seq<char>>) -> Seq<char> {
    let base = match data_dir {
        Some(d) => d,
        None => match home { Some(h) => h, None => "."@ },
    };
    if path_ends_with_of(base, ".local/share"@) {
        join(base, "chostty"@)
    } else {
        join(join(base, ".local/share"@), "chostty"@)
    }
}

/// The session directory; see `persistence_dir`.
pub fn persistence_dir_from(data_dir: Option<&str>, home: Option<&str>) -> (r: String)
    ensures
        r@ == persistence_dir(str_opt(data_dir), str_opt(home)),
{
    let base = match data_dir {
        Some(d) => d,
        None => match home { Some(h) => h, None => "." },
    };
    proof { reveal_strlit("."); }
    if path_ends_with(base, ".local/share") {
        join_path(base, "chostty")
    } else {
        let shared = join_path(base, ".local/share");
        join_path(shared.as_str(), "chostty")
    }
}

} // verus!
