//! The rows a palette lists: its commands, or the workspaces and surfaces it
//! can switch to, each with a score; rows come in order of score, then of
//! command id.
use vstd::prelude::*;
use crate::text::{
    ascii_lower, contains, starts_with, trim, trim_str, str_contains, str_starts_with, str_eq,
    to_ascii_lowercase, push_char,
};
use crate::shortcut::{normalized_combo, shortcut_hint, is_subsequence, normalize_shortcut_combo, combo_to_shortcut_hint, fuzzy_subsequence};
use super::browser::{Pairs, pairs_view, pair_get, pair_value};
use super::{opt_str_view, ControlV, WorkspaceV, WindowV, PaneV, SurfaceV};
use crate::handles::{handle_of, encode_handle_id};
use vstd::string::StringSliceAdditionalSpecFns;

verus! {

/// A palette row, as values.
pub struct RowV {
    pub command_id: Seq<char>,
    pub title: Seq<char>,
    pub trailing_label: Option<Seq<char>>,
    pub shortcut_hint: Option<Seq<char>>,
    pub workspace_id: Option<u64>,
    pub surface_id: Option<u64>,
    pub host_window_id: Option<u64>,
    pub score: int,
}

/// A palette row.
pub struct PaletteRow {
    pub command_id: String,
    pub title: String,
    pub trailing_label: Option<String>,
    pub shortcut_hint: Option<String>,
    pub workspace_id: Option<u64>,
    pub surface_id: Option<u64>,
    pub host_window_id: Option<u64>,
    pub score: i64,
}

impl View for PaletteRow {
    type V = RowV;

    open spec fn view(&self) -> RowV {
        RowV {
            command_id: self.command_id@,
            title: self.title@,
            trailing_label: super::opt_str_view(self.trailing_label),
            shortcut_hint: super::opt_str_view(self.shortcut_hint),
            workspace_id: self.workspace_id,
            surface_id: self.surface_id,
            host_window_id: self.host_window_id,
            score: self.score as int,
        }
    }
}

pub open spec fn rows_view(v: Seq<PaletteRow>) -> Seq<RowV> {
    v.map_values(|r: PaletteRow| r@)
}

/// `a` comes before `b` character by character (the order of `str`).
pub open spec fn text_lt(a: Seq<char>, b: Seq<char>) -> bool
    decreases a.len(),
{
    if a.len() == 0 {
        b.len() > 0
    } else if b.len() == 0 {
        false
    } else if a[0] != b[0] {
        (a[0] as u32) < (b[0] as u32)
    } else {
        text_lt(a.drop_first(), b.drop_first())
    }
}

/// Row `a` may stand before row `b`: a lower score, or the same score and a
/// command id not after `b`'s.
pub open spec fn row_le(a: RowV, b: RowV) -> bool {
    a.score < b.score || (a.score == b.score && !text_lt(b.command_id, a.command_id))
}

/// A row placed into ordered rows, after every row that may stand before it.
pub open spec fn insert_row(s: Seq<RowV>, x: RowV) -> Seq<RowV>
    decreases s.len(),
{
    if s.len() == 0 {
        seq![x]
    } else if row_le(s.last(), x) {
        s.push(x)
    } else {
        insert_row(s.drop_last(), x).push(s.last())
    }
}

/// Rows in order of score, then of command id; rows with equal keys keep
/// their order (`sort_by_key`, which is stable).
pub open spec fn sort_rows(rows: Seq<RowV>) -> Seq<RowV>
    decreases rows.len(),
{
    if rows.len() == 0 {
        Seq::empty()
    } else {
        insert_row(sort_rows(rows.drop_last()), rows.last())
    }
}

fn text_before(a: &str, b: &str) -> (r: bool)
    ensures
        r == text_lt(a@, b@),
{
    let n = a.unicode_len();
    let m = b.unicode_len();
    let mut i: usize = 0;
    proof { assert(a@.skip(0) =~= a@); assert(b@.skip(0) =~= b@); }
    while i < n && i < m
        invariant
            n == a@.len(),
            m == b@.len(),
            i <= n,
            i <= m,
            forall|j: int| 0 <= j < i ==> a@[j] == b@[j],
            text_lt(a@, b@) == text_lt(a@.skip(i as int), b@.skip(i as int)),
        decreases n - i,
    {
        let x = a.get_char(i);
        let y = b.get_char(i);
        proof {
            assert(a@.skip(i as int)[0] == x);
            assert(b@.skip(i as int)[0] == y);
            assert(a@.skip(i as int).drop_first() =~= a@.skip(i + 1));
            assert(b@.skip(i as int).drop_first() =~= b@.skip(i + 1));
        }
        if x != y {
            return (x as u32) < (y as u32);
        }
        i = i + 1;
    }
    proof {
        if i == n {
            assert(a@.skip(i as int) =~= Seq::<char>::empty());
        }
        if i == m && i < n {
            assert(b@.skip(i as int) =~= Seq::<char>::empty());
        }
    }
    i == n && i < m
}

fn row_may_precede(a: &PaletteRow, b: &PaletteRow) -> (r: bool)
    ensures
        r == row_le(a@, b@),
{
    a.score < b.score || (a.score == b.score && !text_before(b.command_id.as_str(), a.command_id.as_str()))
}

/// Where `insert_row` puts a row: after the last row that may stand before
/// it, scanning from the end.
proof fn lemma_insert_row_at(s: Seq<RowV>, x: RowV, j: int)
    requires
        0 <= j <= s.len(),
        j == 0 || row_le(s[j - 1], x),
        forall|k: int| j <= k < s.len() ==> !row_le(#[trigger] s[k], x),
    ensures
        insert_row(s, x) == s.take(j).push(x) + s.skip(j),
    decreases s.len(),
{
    if s.len() == 0 {
        assert(s.take(j).push(x) + s.skip(j) =~= seq![x]);
    } else if j == s.len() {
        assert(s.take(j).push(x) + s.skip(j) =~= s.push(x));
    } else {
        assert(!row_le(s.last(), x));
        let t = s.drop_last();
        assert forall|k: int| j <= k < t.len() implies !row_le(#[trigger] t[k], x) by {
            assert(t[k] == s[k]);
        }
        if j > 0 {
            assert(t[j - 1] == s[j - 1]);
        }
        lemma_insert_row_at(t, x, j);
        assert(t.take(j).push(x) + t.skip(j) + seq![s.last()] =~= s.take(j).push(x) + s.skip(j));
    }
}

/// Sorts rows; see `sort_rows`.
pub fn sorted_rows(rows: Vec<PaletteRow>) -> (r: Vec<PaletteRow>)
    ensures
        rows_view(r@) == sort_rows(rows_view(rows@)),
{
    let ghost input = rows_view(rows@);
    let mut rest = rows;
    let mut out: Vec<PaletteRow> = Vec::new();
    let ghost mut done: nat = 0;
    proof {
        assert(input.take(0) =~= Seq::<RowV>::empty());
        assert(rows_view(out@) =~= sort_rows(input.take(0)));
        assert(input.skip(0) =~= input);
    }
    while rest.len() > 0
        invariant
            done + rest.len() == input.len(),
            rows_view(rest@) == input.skip(done as int),
            rows_view(out@) == sort_rows(input.take(done as int)),
        decreases rest.len(),
    {
        let ghost before = rest@;
        let x = rest.remove(0);
        proof {
            assert(x@ == rows_view(before)[0]);
            assert(rows_view(rest@) =~= rows_view(before).drop_first());
            assert(input.skip(done as int).drop_first() =~= input.skip(done + 1 as int));
            assert(input.take(done + 1 as int).drop_last() =~= input.take(done as int));
            assert(input.take(done + 1 as int).last() == x@);
        }
        let ghost sv = rows_view(out@);
        let mut j: usize = out.len();
        while j > 0 && !row_may_precede(&out[j - 1], &x)
            invariant
                j <= out.len(),
                sv == rows_view(out@),
                forall|k: int| j <= k < out.len() ==> !row_le(#[trigger] sv[k], x@),
            decreases j,
        {
            j = j - 1;
        }
        proof {
            lemma_insert_row_at(sv, x@, j as int);
        }
        out.insert(j, x);
        proof {
            assert(rows_view(out@) =~= sv.take(j as int).push(x@) + sv.skip(j as int));
            done = done + 1;
        }
    }
    proof { assert(input.take(done as int) =~= input); }
    out
}


pub type CommandEntry = (Seq<char>, Seq<char>, Option<(Seq<char>, Seq<char>)>);

/// The palette's commands, in order: id, title, and the shortcut's name and
/// default combo when it has one.
pub open spec fn palette_commands() -> Seq<CommandEntry> {
    seq![
        ("palette.renameTab"@, "Rename Tab"@, Some(("rename_tab"@, "cmd+r"@))),
        ("palette.renameWorkspace"@, "Rename Workspace"@, Some(("rename_workspace"@, "cmd+shift+r"@))),
        ("palette.terminalOpenDirectory"@, "Open Directory"@, Some(("open_directory"@, "cmd+shift+o"@))),
        ("palette.newWindow"@, "New Window"@, Some(("new_window"@, "cmd+shift+n"@))),
        ("palette.closeWindow"@, "Close Window"@, Some(("close_window"@, "cmd+ctrl+w"@))),
        ("palette.newWorkspace"@, "New Workspace"@, Some(("new_workspace"@, "cmd+t"@))),
        ("palette.closeWorkspace"@, "Close Workspace"@, Some(("close_workspace"@, "cmd+shift+w"@))),
        ("palette.splitRight"@, "Split Right"@, Some(("split_right"@, "cmd+d"@))),
        ("palette.splitDown"@, "Split Down"@, Some(("split_down"@, "cmd+shift+d"@))),
        ("palette.newTerminal"@, "New Terminal"@, Some(("new_terminal"@, "cmd+enter"@))),
        ("palette.toggleSidebar"@, "Toggle Sidebar"@, Some(("toggle_sidebar"@, "cmd+b"@))),
        ("palette.focusNext"@, "Focus Next"@, None),
        ("palette.focusPrev"@, "Focus Previous"@, None),
        ("palette.reloadConfig"@, "Reload Config"@, None),
    ]
}

/// A text without its leading `>` characters.
pub open spec fn strip_gt(s: Seq<char>) -> Seq<char>
    decreases s.len(),
{
    if s.len() > 0 && s[0] == '>' { strip_gt(s.drop_first()) } else { s }
}

/// The query of command mode: trimmed, without leading `>`, trimmed again,
/// lowercased.
pub open spec fn command_query(q: Seq<char>) -> Seq<char> {
    ascii_lower(trim(strip_gt(trim(q))))
}

pub open spec fn no_spaces(s: Seq<char>) -> Seq<char> {
    s.filter(|c: char| c != ' ')
}

/// A command's shortcut hint: from the user's remap, else from its default.
pub open spec fn hint_for(shortcuts: Pairs, sc: Option<(Seq<char>, Seq<char>)>) -> Option<Seq<char>> {
    match sc {
        Some((name, combo)) => Some(shortcut_hint(match pair_get(shortcuts, name) {
            Some(c) => c,
            None => normalized_combo(combo),
        })),
        None => None,
    }
}

/// A command's row for a query, when it matches: scored by its place, less
/// 100 when its title starts with the query, else 20 when its id holds it,
/// else 10 when it matches only loosely; less 80 more for a rename query on a
/// rename command, 120 for `retab` on Rename Tab and for `open` on Open
/// Directory.
pub open spec fn command_row(shortcuts: Pairs, order: int, e: CommandEntry, nq: Seq<char>) -> Option<RowV> {
    let (id, title, sc) = e;
    let search = ascii_lower(id + " "@ + title);
    let base = RowV {
        command_id: id,
        title,
        trailing_label: None,
        shortcut_hint: hint_for(shortcuts, sc),
        workspace_id: None,
        surface_id: None,
        host_window_id: None,
        score: order,
    };
    if nq.len() == 0 {
        Some(base)
    } else {
        let direct = contains(search, nq);
        let fuzzy = is_subsequence(no_spaces(search), no_spaces(nq));
        if !direct && !fuzzy {
            None
        } else {
            let s1: int = if starts_with(ascii_lower(title), nq) { -100 } else if contains(ascii_lower(id), nq) { -20 } else if fuzzy { -10 } else { 0 };
            let s2: int = if contains(nq, "rename"@) && contains(id, "rename"@) { -80 } else { 0 };
            let s3: int = if contains(nq, "retab"@) && id == "palette.renameTab"@ { -120 } else { 0 };
            let s4: int = if contains(nq, "open"@) && id == "palette.terminalOpenDirectory"@ { -120 } else { 0 };
            Some(RowV { score: order + s1 + s2 + s3 + s4, ..base })
        }
    }
}

pub open spec fn opt_seq(o: Option<RowV>) -> Seq<RowV> {
    match o {
        Some(r) => seq![r],
        None => Seq::empty(),
    }
}

pub open spec fn command_rows_upto(shortcuts: Pairs, nq: Seq<char>, n: nat) -> Seq<RowV>
    decreases n,
{
    if n == 0 || n > palette_commands().len() {
        Seq::empty()
    } else {
        command_rows_upto(shortcuts, nq, (n - 1) as nat)
            + opt_seq(command_row(shortcuts, n - 1, palette_commands()[n - 1], nq))
    }
}

/// The rows of command mode for a query, in order.
pub open spec fn command_rows(shortcuts: Pairs, query: Seq<char>) -> Seq<RowV> {
    sort_rows(command_rows_upto(shortcuts, command_query(query), 14))
}

fn command_entry(k: usize) -> (r: (&'static str, &'static str, Option<(&'static str, &'static str)>))
    requires
        k < 14,
    ensures
        r.0@ == palette_commands()[k as int].0,
        r.1@ == palette_commands()[k as int].1,
        match (r.2, palette_commands()[k as int].2) {
            (Some((a, b)), Some((x, y))) => a@ == x && b@ == y,
            (None, None) => true,
            _ => false,
        },
{
    match k {
        0 => ("palette.renameTab", "Rename Tab", Some(("rename_tab", "cmd+r"))),
        1 => ("palette.renameWorkspace", "Rename Workspace", Some(("rename_workspace", "cmd+shift+r"))),
        2 => ("palette.terminalOpenDirectory", "Open Directory", Some(("open_directory", "cmd+shift+o"))),
        3 => ("palette.newWindow", "New Window", Some(("new_window", "cmd+shift+n"))),
        4 => ("palette.closeWindow", "Close Window", Some(("close_window", "cmd+ctrl+w"))),
        5 => ("palette.newWorkspace", "New Workspace", Some(("new_workspace", "cmd+t"))),
        6 => ("palette.closeWorkspace", "Close Workspace", Some(("close_workspace", "cmd+shift+w"))),
        7 => ("palette.splitRight", "Split Right", Some(("split_right", "cmd+d"))),
        8 => ("palette.splitDown", "Split Down", Some(("split_down", "cmd+shift+d"))),
        9 => ("palette.newTerminal", "New Terminal", Some(("new_terminal", "cmd+enter"))),
        10 => ("palette.toggleSidebar", "Toggle Sidebar", Some(("toggle_sidebar", "cmd+b"))),
        11 => ("palette.focusNext", "Focus Next", None),
        12 => ("palette.focusPrev", "Focus Previous", None),
        13 => ("palette.reloadConfig", "Reload Config", None),
        _ => ("palette.reloadConfig", "Reload Config", None),
    }
}

fn strip_leading_gt(s: &str) -> (r: &str)
    ensures
        r@ == strip_gt(s@),
{
    let n = s.unicode_len();
    let mut i: usize = 0;
    proof { assert(s@.skip(0) =~= s@); }
    while i < n && s.get_char(i) == '>'
        invariant
            n == s@.len(),
            i <= n,
            strip_gt(s@) == strip_gt(s@.skip(i as int)),
        decreases n - i,
    {
        proof { assert(s@.skip(i as int).drop_first() =~= s@.skip(i + 1)); }
        i = i + 1;
    }
    let r = s.substring_char(i, n);
    proof { assert(r@ =~= s@.skip(i as int)); }
    r
}

fn without_spaces(s: &str) -> (r: String)
    ensures
        r@ == no_spaces(s@),
{
    let n = s.unicode_len();
    let mut out = String::new();
    let mut i: usize = 0;
    proof { assert(no_spaces(s@.take(0)) =~= Seq::<char>::empty()); }
    while i < n
        invariant
            n == s@.len(),
            i <= n,
            out@ == no_spaces(s@.take(i as int)),
        decreases n - i,
    {
        let c = s.get_char(i);
        proof {
            reveal(Seq::filter);
            assert(s@.take(i + 1).drop_last() =~= s@.take(i as int));
            assert(s@.take(i + 1).last() == c);
        }
        if c != ' ' {
            push_char(&mut out, c);
        }
        i = i + 1;
    }
    proof { assert(s@.take(i as int) =~= s@); }
    out
}

fn hint_of(shortcuts: &Vec<(String, String)>, sc: Option<(&str, &str)>) -> (r: Option<String>)
    ensures
        opt_str_view(r) == hint_for(pairs_view(shortcuts@), match sc { Some((a, b)) => Some((a@, b@)), None => None }),
{
    match sc {
        Some((name, combo)) => {
            let c = match pair_value(shortcuts, name) {
                Some(c) => c,
                None => normalize_shortcut_combo(combo),
            };
            Some(combo_to_shortcut_hint(c.as_str()))
        },
        None => None,
    }
}

fn concat3(a: &str, b: &str, c: &str) -> (r: String)
    ensures
        r@ == a@ + b@ + c@,
{
    let mut s = String::from_str(a);
    s.append(b);
    s.append(c);
    s
}

fn command_row_for(shortcuts: &Vec<(String, String)>, k: usize, nq: &str) -> (r: Option<PaletteRow>)
    requires
        k < 14,
    ensures
        match r {
            Some(row) => command_row(pairs_view(shortcuts@), k as int, palette_commands()[k as int], nq@) == Some(row@),
            None => command_row(pairs_view(shortcuts@), k as int, palette_commands()[k as int], nq@) is None,
        },
{
    let (id, title, sc) = command_entry(k);
    proof { reveal_strlit(" "); }
    let search = to_ascii_lowercase(concat3(id, " ", title).as_str());
    let hint = hint_of(shortcuts, sc);
    let mut score: i64 = k as i64;
    if nq.unicode_len() > 0 {
        let direct = str_contains(search.as_str(), nq);
        let compact_search = without_spaces(search.as_str());
        let compact_query = without_spaces(nq);
        let fuzzy = fuzzy_subsequence(compact_search.as_str(), compact_query.as_str());
        if !direct && !fuzzy {
            return None;
        }
        let lower_title = to_ascii_lowercase(title);
        let lower_id = to_ascii_lowercase(id);
        if str_starts_with(lower_title.as_str(), nq) {
            score = score - 100;
        } else if str_contains(lower_id.as_str(), nq) {
            score = score - 20;
        } else if fuzzy {
            score = score - 10;
        }
        if str_contains(nq, "rename") && str_contains(id, "rename") {
            score = score - 80;
        }
        if str_contains(nq, "retab") && str_eq(id, "palette.renameTab") {
            score = score - 120;
        }
        if str_contains(nq, "open") && str_eq(id, "palette.terminalOpenDirectory") {
            score = score - 120;
        }
    }
    Some(PaletteRow {
        command_id: String::from_str(id),
        title: String::from_str(title),
        trailing_label: None,
        shortcut_hint: hint,
        workspace_id: None,
        surface_id: None,
        host_window_id: None,
        score,
    })
}

/// The rows of command mode for a query; see `command_rows`.
pub fn command_palette_command_rows(shortcuts: &Vec<(String, String)>, query: &str) -> (r: Vec<PaletteRow>)
    ensures
        rows_view(r@) == command_rows(pairs_view(shortcuts@), query@),
{
    let t = trim_str(query);
    let s = strip_leading_gt(t);
    let nq = to_ascii_lowercase(trim_str(s));
    let ghost sv = pairs_view(shortcuts@);
    let mut rows: Vec<PaletteRow> = Vec::new();
    let mut k: usize = 0;
    proof { assert(rows_view(rows@) =~= command_rows_upto(sv, nq@, 0)); }
    while k < 14
        invariant
            k <= 14,
            sv == pairs_view(shortcuts@),
            palette_commands().len() == 14,
            rows_view(rows@) == command_rows_upto(sv, nq@, k as nat),
        decreases 14 - k,
    {
        let ghost before = rows_view(rows@);
        match command_row_for(shortcuts, k, nq.as_str()) {
            Some(row) => {
                rows.push(row);
                proof { assert(rows_view(rows@) =~= before + opt_seq(command_row(sv, k as int, palette_commands()[k as int], nq@))); }
            },
            None => {
                proof { assert(rows_view(rows@) =~= before + opt_seq(command_row(sv, k as int, palette_commands()[k as int], nq@))); }
            },
        }
        k = k + 1;
    }
    sorted_rows(rows)
}


/// The query of switcher mode: trimmed and lowercased.
pub open spec fn switcher_query(q: Seq<char>) -> Seq<char> {
    ascii_lower(trim(q))
}

pub open spec fn id_label(id: u64) -> Seq<char> {
    ascii_lower(handle_of(id))
}

/// A workspace's row: shown when the query is empty or its name holds it;
/// scored 100, or 150 when its name does not start with the query.
pub open spec fn workspace_switch_row(w: WorkspaceV, nq: Seq<char>) -> Option<RowV> {
    let name = ascii_lower(w.name);
    if nq.len() > 0 && !contains(name, nq) {
        None
    } else {
        let score: int = if nq.len() == 0 || starts_with(name, nq) { 100 } else { 150 };
        Some(RowV {
            command_id: "switcher.workspace."@ + id_label(w.id),
            title: w.name,
            trailing_label: Some("Workspace"@),
            shortcut_hint: None,
            workspace_id: Some(w.id),
            surface_id: None,
            host_window_id: Some(w.host_window_id),
            score,
        })
    }
}

/// A surface's row: shown when the query is empty or its title, text or
/// workspace name holds it; scored 200 without a query, else 10 when the
/// title holds it, 40 when the text does, 80 otherwise.
pub open spec fn surface_switch_row(w: WorkspaceV, sf: SurfaceV, nq: Seq<char>) -> Option<RowV> {
    let search = ascii_lower(sf.title + " "@ + sf.text + " "@ + w.name);
    if nq.len() > 0 && !contains(search, nq) {
        None
    } else {
        let score: int = if nq.len() == 0 {
            200
        } else if contains(ascii_lower(sf.title), nq) {
            10
        } else if contains(ascii_lower(sf.text), nq) {
            40
        } else {
            80
        };
        Some(RowV {
            command_id: "switcher.surface."@ + id_label(w.id) + "."@ + id_label(sf.id),
            title: sf.title,
            trailing_label: Some("Surface"@),
            shortcut_hint: None,
            workspace_id: Some(w.id),
            surface_id: Some(sf.id),
            host_window_id: Some(w.host_window_id),
            score,
        })
    }
}

pub open spec fn surface_switch_rows(w: WorkspaceV, ss: Seq<SurfaceV>, nq: Seq<char>) -> Seq<RowV>
    decreases ss.len(),
{
    if ss.len() == 0 {
        Seq::empty()
    } else {
        surface_switch_rows(w, ss.drop_last(), nq) + opt_seq(surface_switch_row(w, ss.last(), nq))
    }
}

pub open spec fn pane_switch_rows(w: WorkspaceV, ps: Seq<PaneV>, nq: Seq<char>) -> Seq<RowV>
    decreases ps.len(),
{
    if ps.len() == 0 {
        Seq::empty()
    } else {
        pane_switch_rows(w, ps.drop_last(), nq) + surface_switch_rows(w, ps.last().surfaces, nq)
    }
}

pub open spec fn window_switch_rows(w: WorkspaceV, wins: Seq<WindowV>, nq: Seq<char>) -> Seq<RowV>
    decreases wins.len(),
{
    if wins.len() == 0 {
        Seq::empty()
    } else {
        window_switch_rows(w, wins.drop_last(), nq) + pane_switch_rows(w, wins.last().panes, nq)
    }
}

/// A workspace's rows: its own, then those of its surfaces.
pub open spec fn workspace_switch_rows(w: WorkspaceV, nq: Seq<char>) -> Seq<RowV> {
    opt_seq(workspace_switch_row(w, nq)) + window_switch_rows(w, w.windows, nq)
}

pub open spec fn all_switch_rows(wss: Seq<WorkspaceV>, nq: Seq<char>) -> Seq<RowV>
    decreases wss.len(),
{
    if wss.len() == 0 {
        Seq::empty()
    } else {
        all_switch_rows(wss.drop_last(), nq) + workspace_switch_rows(wss.last(), nq)
    }
}

/// The rows of switcher mode for a query, in order.
pub open spec fn switcher_rows(m: ControlV, query: Seq<char>) -> Seq<RowV> {
    sort_rows(all_switch_rows(m.workspaces, switcher_query(query)))
}

fn id_label_of(id: u64) -> (r: String)
    ensures
        r@ == id_label(id),
{
    to_ascii_lowercase(encode_handle_id(id).as_str())
}

/// A workspace's row; see `workspace_switch_row`.
pub fn workspace_switch_row_for(id: u64, name: &String, host: u64, nq: &str) -> (r: Option<PaletteRow>)
    ensures
        forall|w: WorkspaceV| w.id == id && w.name == name@ && w.host_window_id == host ==>
            match r {
                Some(row) => workspace_switch_row(w, nq@) == Some(row@),
                None => workspace_switch_row(w, nq@) is None,
            },
{
    let lower = to_ascii_lowercase(name.as_str());
    let empty = nq.unicode_len() == 0;
    if !empty && !str_contains(lower.as_str(), nq) {
        return None;
    }
    let score: i64 = if empty || str_starts_with(lower.as_str(), nq) { 100 } else { 150 };
    let mut cid = String::from_str("switcher.workspace.");
    cid.append(id_label_of(id).as_str());
    Some(PaletteRow {
        command_id: cid,
        title: name.clone(),
        trailing_label: Some(String::from_str("Workspace")),
        shortcut_hint: None,
        workspace_id: Some(id),
        surface_id: None,
        host_window_id: Some(host),
        score,
    })
}

/// A surface's row; see `surface_switch_row`.
pub fn surface_switch_row_for(ws_id: u64, ws_name: &String, host: u64, sid: u64, title: &String, text: &String, nq: &str) -> (r: Option<PaletteRow>)
    ensures
        forall|w: WorkspaceV, sf: SurfaceV|
            w.id == ws_id && w.name == ws_name@ && w.host_window_id == host && sf.id == sid && sf.title == title@ && sf.text == text@ ==>
            match r {
                Some(row) => surface_switch_row(w, sf, nq@) == Some(row@),
                None => surface_switch_row(w, sf, nq@) is None,
            },
{
    let mut all = title.clone();
    all.append(" ");
    all.append(text.as_str());
    all.append(" ");
    all.append(ws_name.as_str());
    let search = to_ascii_lowercase(all.as_str());
    proof { reveal_strlit(" "); }
    let empty = nq.unicode_len() == 0;
    if !empty && !str_contains(search.as_str(), nq) {
        return None;
    }
    let score: i64 = if empty {
        200
    } else if str_contains(to_ascii_lowercase(title.as_str()).as_str(), nq) {
        10
    } else if str_contains(to_ascii_lowercase(text.as_str()).as_str(), nq) {
        40
    } else {
        80
    };
    let mut cid = String::from_str("switcher.surface.");
    cid.append(id_label_of(ws_id).as_str());
    cid.append(".");
    cid.append(id_label_of(sid).as_str());
    Some(PaletteRow {
        command_id: cid,
        title: title.clone(),
        trailing_label: Some(String::from_str("Surface")),
        shortcut_hint: None,
        workspace_id: Some(ws_id),
        surface_id: Some(sid),
        host_window_id: Some(host),
        score,
    })
}

} // verus!
