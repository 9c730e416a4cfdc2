//! The command palette of each window: its mode, query and selection, the
//! rename input it can turn into, and the user's shortcut remaps.
use vstd::prelude::*;
use crate::text::{str_eq};
use crate::handles::{utf8_len, utf8_width};
use vstd::string::StringSliceAdditionalSpecFns;
use super::browser::{Pairs, pairs_view, pair_get, pair_put};
use super::opt_str_view;

verus! {

/// A window's palette, as values.
pub struct PaletteV {
    pub visible: bool,
    pub mode: Seq<char>,
    pub query: Seq<char>,
    pub selected_index: nat,
    pub selection_location: nat,
    pub selection_length: nat,
    pub rename_text: Seq<char>,
    pub rename_target_surface_id: Option<u64>,
    pub rename_target_workspace_id: Option<u64>,
}

/// A closed palette in command mode with nothing typed.
pub open spec fn default_palette() -> PaletteV {
    PaletteV {
        visible: false,
        mode: "commands"@,
        query: Seq::empty(),
        selected_index: 0,
        selection_location: 0,
        selection_length: 0,
        rename_text: Seq::empty(),
        rename_target_surface_id: None,
        rename_target_workspace_id: None,
    }
}

/// A window's palette.
pub struct PaletteState {
    pub visible: bool,
    pub mode: String,
    pub query: String,
    pub selected_index: usize,
    pub selection_location: usize,
    pub selection_length: usize,
    pub rename_text: String,
    pub rename_target_surface_id: Option<u64>,
    pub rename_target_workspace_id: Option<u64>,
}

impl View for PaletteState {
    type V = PaletteV;

    open spec fn view(&self) -> PaletteV {
        PaletteV {
            visible: self.visible,
            mode: self.mode@,
            query: self.query@,
            selected_index: self.selected_index as nat,
            selection_location: self.selection_location as nat,
            selection_length: self.selection_length as nat,
            rename_text: self.rename_text@,
            rename_target_surface_id: self.rename_target_surface_id,
            rename_target_workspace_id: self.rename_target_workspace_id,
        }
    }
}

pub open spec fn palettes_view(m: Map<u64, PaletteState>) -> Map<u64, PaletteV> {
    m.map_values(|p: PaletteState| p@)
}

impl PaletteState {
    /// A closed palette; see `default_palette`.
    pub fn new() -> (r: PaletteState)
        ensures
            r@ == default_palette(),
    {
        PaletteState {
            visible: false,
            mode: String::from_str("commands"),
            query: String::new(),
            selected_index: 0,
            selection_location: 0,
            selection_length: 0,
            rename_text: String::new(),
            rename_target_surface_id: None,
            rename_target_workspace_id: None,
        }
    }

    /// A copy of the palette.
    pub fn copy(&self) -> (r: PaletteState)
        ensures
            r@ == self@,
    {
        PaletteState {
            visible: self.visible,
            mode: self.mode.clone(),
            query: self.query.clone(),
            selected_index: self.selected_index,
            selection_location: self.selection_location,
            selection_length: self.selection_length,
            rename_text: self.rename_text.clone(),
            rename_target_surface_id: self.rename_target_surface_id,
            rename_target_workspace_id: self.rename_target_workspace_id,
        }
    }
}

/// The remap list without a name.
pub open spec fn pair_del(l: Pairs, key: Seq<char>) -> Pairs {
    l.filter(|p: (Seq<char>, Seq<char>)| p.0 != key)
}

/// Removes every pair with this key; see `pair_del`.
pub fn pair_remove(l: &Vec<(String, String)>, key: &str) -> (r: Vec<(String, String)>)
    ensures
        pairs_view(r@) == pair_del(pairs_view(l@), key@),
{
    let ghost v = pairs_view(l@);
    let mut out: Vec<(String, String)> = Vec::new();
    let mut i: usize = 0;
    proof { assert(v.take(0).filter(|p: (Seq<char>, Seq<char>)| p.0 != key@) =~= Seq::<(Seq<char>, Seq<char>)>::empty()); assert(pairs_view(out@) =~= Seq::<(Seq<char>, Seq<char>)>::empty()); }
    while i < l.len()
        invariant
            i <= l.len(),
            v == pairs_view(l@),
            pairs_view(out@) == v.take(i as int).filter(|p: (Seq<char>, Seq<char>)| p.0 != key@),
        decreases l.len() - i,
    {
        proof {
            reveal(Seq::filter);
            assert(v.take(i + 1).drop_last() =~= v.take(i as int));
            assert(v.take(i + 1).last() == v[i as int]);
        }
        if !str_eq(l[i].0.as_str(), key) {
            let ghost before = pairs_view(out@);
            out.push((l[i].0.clone(), l[i].1.clone()));
            proof { assert(pairs_view(out@) =~= before.push(v[i as int])); }
        }
        i = i + 1;
    }
    proof { assert(v.take(i as int) =~= v); }
    out
}


pub open spec fn commands_mode() -> Seq<char> {
    "commands"@
}

pub open spec fn switcher_mode() -> Seq<char> {
    "switcher"@
}

pub open spec fn rename_mode() -> Seq<char> {
    "rename_input"@
}

/// Bytes a text takes in UTF-8, stopping at `usize::MAX`.
pub open spec fn bytes(t: Seq<char>) -> nat {
    if utf8_len(t) <= usize::MAX { utf8_len(t) } else { usize::MAX as nat }
}

/// A count stopping at `usize::MAX`.
pub open spec fn sat_usize(n: nat) -> nat {
    if n <= usize::MAX { n } else { usize::MAX as nat }
}

pub open spec fn nmin(a: nat, b: nat) -> nat {
    if a < b { a } else { b }
}

/// How many characters fill exactly the first `b` bytes of a text: none when
/// byte `b` falls inside a character or past the end.
pub open spec fn char_index(t: Seq<char>, b: nat) -> Option<nat>
    decreases t.len(),
{
    if b == 0 {
        Some(0)
    } else if t.len() == 0 || b < utf8_width(t[0]) {
        None
    } else {
        match char_index(t.drop_first(), (b - utf8_width(t[0])) as nat) {
            Some(i) => Some(i + 1),
            None => None,
        }
    }
}

/// The text a palette edits: its rename text in rename mode, else its query.
pub open spec fn edited_text(p: PaletteV) -> Seq<char> {
    if p.mode == rename_mode() { p.rename_text } else { p.query }
}

pub open spec fn with_edited_text(p: PaletteV, t: Seq<char>) -> PaletteV {
    if p.mode == rename_mode() { PaletteV { rename_text: t, ..p } } else { PaletteV { query: t, ..p } }
}

/// The palette shown in a mode with its first row selected; command mode
/// starts from the query `>` with the caret after it, the switcher from an
/// empty query.
pub open spec fn opened_in_mode(p: PaletteV, mode: Seq<char>) -> PaletteV {
    let q = PaletteV { visible: true, mode, selected_index: 0, ..p };
    if mode == commands_mode() {
        PaletteV { query: ">"@, selection_location: 1, selection_length: 0, ..q }
    } else if mode == switcher_mode() {
        PaletteV { query: Seq::empty(), selection_location: 0, selection_length: 0, ..q }
    } else {
        q
    }
}

pub open spec fn closed(p: PaletteV) -> PaletteV {
    PaletteV { visible: false, ..p }
}

/// The palette shown in command mode with nothing typed.
pub open spec fn opened_plain(p: PaletteV) -> PaletteV {
    PaletteV {
        visible: true,
        mode: commands_mode(),
        query: Seq::empty(),
        selected_index: 0,
        selection_location: 0,
        selection_length: 0,
        ..p
    }
}

/// A shown palette with all of its edited text selected.
pub open spec fn all_selected(p: PaletteV) -> PaletteV {
    if !p.visible {
        p
    } else {
        PaletteV { selection_location: 0, selection_length: bytes(edited_text(p)), ..p }
    }
}

/// The caret of a rename: the whole name selected when asked and there is
/// one, else the caret at its end.
pub open spec fn rename_caret(p: PaletteV, select_all: bool) -> PaletteV {
    if select_all && p.rename_text.len() > 0 {
        PaletteV { selection_location: 0, selection_length: bytes(p.rename_text), ..p }
    } else {
        PaletteV { selection_location: bytes(p.rename_text), selection_length: 0, ..p }
    }
}

pub open spec fn interacted(p: PaletteV, select_all: bool) -> PaletteV {
    if p.mode != rename_mode() { p } else { rename_caret(p, select_all) }
}

/// The palette turned into a rename of a surface or workspace.
pub open spec fn opened_rename(p: PaletteV, name: Seq<char>, surface: Option<u64>, workspace: u64, select_all: bool) -> PaletteV {
    rename_caret(
        PaletteV {
            visible: true,
            mode: rename_mode(),
            query: Seq::empty(),
            selected_index: 0,
            rename_text: name,
            rename_target_surface_id: surface,
            rename_target_workspace_id: Some(workspace),
            ..p
        },
        select_all,
    )
}

/// Backspace in a rename: a selection clears the name, else the last
/// character goes; on an empty name the palette goes back to command mode.
pub open spec fn deleted_backward(p: PaletteV) -> PaletteV {
    if p.mode != rename_mode() {
        p
    } else if p.selection_length > 0 {
        PaletteV { rename_text: Seq::empty(), selection_location: 0, selection_length: 0, ..p }
    } else if p.rename_text.len() > 0 {
        let t = p.rename_text.drop_last();
        PaletteV { rename_text: t, selection_location: bytes(t), selection_length: 0, ..p }
    } else {
        PaletteV {
            mode: commands_mode(),
            query: ">"@,
            selection_location: 1,
            selection_length: 0,
            selected_index: 0,
            ..p
        }
    }
}

/// Typing into a shown palette: the text replaces the selection (or goes in
/// at the caret, both clamped to the edited text), the caret lands after it
/// and the first row is selected. Positions count bytes; one that falls
/// inside a character leaves the palette as it is.
pub open spec fn typed(p: PaletteV, text: Seq<char>) -> PaletteV {
    if !p.visible {
        p
    } else {
        let t = edited_text(p);
        let n = bytes(t);
        let start = nmin(p.selection_location, n);
        let end = if p.selection_length > 0 { nmin(start + p.selection_length, n) } else { start };
        match (char_index(t, start), char_index(t, end)) {
            (Some(i), Some(j)) => {
                let q = with_edited_text(p, t.take(i as int) + text + t.skip(j as int));
                PaletteV { selection_location: sat_usize(start + bytes(text)), selection_length: 0, selected_index: 0, ..q }
            },
            _ => p,
        }
    }
}

/// The selection kept within `count` rows.
pub open spec fn clamped(p: PaletteV, count: nat) -> PaletteV {
    PaletteV { selected_index: if count == 0 { 0 } else { nmin(p.selected_index, (count - 1) as nat) }, ..p }
}

/// The selection moved by `delta` rows, kept within `count` rows.
pub open spec fn moved(p: PaletteV, count: nat, delta: int) -> PaletteV {
    if count == 0 {
        PaletteV { selected_index: 0, ..p }
    } else {
        let next = p.selected_index + delta;
        let c: int = if next < 0 { 0 } else if next > count - 1 { count - 1 } else { next };
        PaletteV { selected_index: c as nat, ..p }
    }
}

fn width_of(c: char) -> (r: usize)
    ensures
        r == utf8_width(c),
        1 <= r <= 4,
{
    if (c as u32) < 0x80 { 1 } else if (c as u32) < 0x800 { 2 } else if (c as u32) < 0x10000 { 3 } else { 4 }
}

/// The UTF-8 size of a text; see `bytes`.
pub fn byte_len(s: &str) -> (r: usize)
    ensures
        r as nat == bytes(s@),
{
    let n = s.unicode_len();
    let mut total: usize = 0;
    let mut i: usize = 0;
    while i < n
        invariant
            n == s@.len(),
            i <= n,
            total as nat == bytes(s@.take(i as int)),
        decreases n - i,
    {
        let c = s.get_char(i);
        proof { assert(s@.take(i + 1).drop_last() =~= s@.take(i as int)); }
        total = total.saturating_add(width_of(c));
        i = i + 1;
    }
    proof { assert(s@.take(n as int) =~= s@); }
    total
}

pub open spec fn shifted(o: Option<nat>, k: nat) -> Option<nat> {
    match o {
        Some(i) => Some(i + k),
        None => None,
    }
}

proof fn lemma_char_index_bound(t: Seq<char>, b: nat)
    ensures
        char_index(t, b) matches Some(i) ==> i <= t.len(),
    decreases t.len(),
{
    if b != 0 && t.len() > 0 && b >= utf8_width(t[0]) {
        lemma_char_index_bound(t.drop_first(), (b - utf8_width(t[0])) as nat);
    }
}

/// The character index at byte `b`; see `char_index`.
pub fn char_at_byte(s: &str, b: usize) -> (r: Option<usize>)
    ensures
        match r {
            Some(i) => char_index(s@, b as nat) == Some(i as nat) && i <= s@.len(),
            None => char_index(s@, b as nat) is None,
        },
{
    let n = s.unicode_len();
    let mut i: usize = 0;
    let mut acc: usize = 0;
    proof { assert(s@.skip(0) =~= s@); lemma_char_index_bound(s@, b as nat); }
    while acc < b
        invariant
            n == s@.len(),
            i <= n,
            acc <= b,
            char_index(s@, b as nat) == shifted(char_index(s@.skip(i as int), (b - acc) as nat), i as nat),
        decreases b - acc,
    {
        if i >= n {
            proof { assert(s@.skip(i as int).len() == 0); }
            return None;
        }
        let c = s.get_char(i);
        let w = width_of(c);
        proof {
            assert(s@.skip(i as int)[0] == c);
            assert(s@.skip(i as int).drop_first() =~= s@.skip(i + 1));
        }
        if w > b - acc {
            return None;
        }
        acc = acc + w;
        i = i + 1;
    }
    proof { lemma_char_index_bound(s@, b as nat); }
    Some(i)
}

impl PaletteState {
    fn edits_rename(&self) -> (r: bool)
        ensures
            r == (self@.mode == rename_mode()),
    {
        str_eq(self.mode.as_str(), "rename_input")
    }

    fn edited(&self) -> (r: String)
        ensures
            r@ == edited_text(self@),
    {
        if self.edits_rename() { self.rename_text.clone() } else { self.query.clone() }
    }

    /// Shows the palette in a mode; see `opened_in_mode`.
    pub fn open_in_mode(&mut self, mode: &str)
        ensures
            final(self)@ == opened_in_mode(old(self)@, mode@),
    {
        self.visible = true;
        self.mode = String::from_str(mode);
        self.selected_index = 0;
        if str_eq(mode, "commands") {
            self.query = String::from_str(">");
            self.selection_location = 1;
            self.selection_length = 0;
        } else if str_eq(mode, "switcher") {
            self.query = String::new();
            self.selection_location = 0;
            self.selection_length = 0;
        }
    }

    pub fn close(&mut self)
        ensures
            final(self)@ == closed(old(self)@),
    {
        self.visible = false;
    }

    /// Shows the palette in command mode with nothing typed.
    pub fn open_plain(&mut self)
        ensures
            final(self)@ == opened_plain(old(self)@),
    {
        self.visible = true;
        self.mode = String::from_str("commands");
        self.query = String::new();
        self.selected_index = 0;
        self.selection_location = 0;
        self.selection_length = 0;
    }

    /// Selects all of the edited text; see `all_selected`.
    pub fn select_all(&mut self)
        ensures
            final(self)@ == all_selected(old(self)@),
    {
        if !self.visible {
            return;
        }
        let t = self.edited();
        self.selection_location = 0;
        self.selection_length = byte_len(t.as_str());
    }

    fn place_rename_caret(&mut self, select_all: bool)
        ensures
            final(self)@ == rename_caret(old(self)@, select_all),
    {
        let n = byte_len(self.rename_text.as_str());
        if select_all && self.rename_text.unicode_len() > 0 {
            self.selection_location = 0;
            self.selection_length = n;
        } else {
            self.selection_location = n;
            self.selection_length = 0;
        }
    }

    /// Clicking into a rename; see `interacted`.
    pub fn interact(&mut self, select_all: bool)
        ensures
            final(self)@ == interacted(old(self)@, select_all),
    {
        if !self.edits_rename() {
            return;
        }
        self.place_rename_caret(select_all);
    }

    /// Turns the palette into a rename; see `opened_rename`.
    pub fn open_rename(&mut self, name: String, surface: Option<u64>, workspace: u64, select_all: bool)
        ensures
            final(self)@ == opened_rename(old(self)@, name@, surface, workspace, select_all),
    {
        self.visible = true;
        self.mode = String::from_str("rename_input");
        self.query = String::new();
        self.selected_index = 0;
        self.rename_text = name;
        self.rename_target_surface_id = surface;
        self.rename_target_workspace_id = Some(workspace);
        self.place_rename_caret(select_all);
    }

    /// Backspace in a rename; see `deleted_backward`.
    pub fn delete_backward(&mut self)
        ensures
            final(self)@ == deleted_backward(old(self)@),
    {
        if !self.edits_rename() {
            return;
        }
        if self.selection_length > 0 {
            self.rename_text = String::new();
            self.selection_location = 0;
            self.selection_length = 0;
            return;
        }
        let n = self.rename_text.unicode_len();
        if n > 0 {
            let t = String::from_str(self.rename_text.as_str().substring_char(0, n - 1));
            proof { assert(t@ =~= old(self)@.rename_text.drop_last()); }
            self.selection_location = byte_len(t.as_str());
            self.rename_text = t;
            self.selection_length = 0;
            return;
        }
        self.mode = String::from_str("commands");
        self.query = String::from_str(">");
        self.selection_location = 1;
        self.selection_length = 0;
        self.selected_index = 0;
    }

    /// Typing into the palette; see `typed`.
    pub fn type_text(&mut self, text: &str)
        ensures
            final(self)@ == typed(old(self)@, text@),
    {
        if !self.visible {
            return;
        }
        let rename = self.edits_rename();
        let t = self.edited();
        let n = byte_len(t.as_str());
        let start = if self.selection_location < n { self.selection_location } else { n };
        let end = if self.selection_length > 0 {
            let e = start.saturating_add(self.selection_length);
            if e < n { e } else { n }
        } else {
            start
        };
        match (char_at_byte(t.as_str(), start), char_at_byte(t.as_str(), end)) {
            (Some(i), Some(j)) => {
                let len = t.unicode_len();
                let mut s = String::from_str(t.as_str().substring_char(0, i));
                s.append(text);
                s.append(t.as_str().substring_char(j, len));
                proof { assert(s@ =~= t@.take(i as int) + text@ + t@.skip(j as int)); }
                if rename {
                    self.rename_text = s;
                } else {
                    self.query = s;
                }
                self.selection_location = start.saturating_add(byte_len(text));
                self.selection_length = 0;
                self.selected_index = 0;
            },
            _ => {},
        }
    }

    /// Keeps the selection within `count` rows; see `clamped`.
    pub fn clamp(&mut self, count: usize)
        ensures
            final(self)@ == clamped(old(self)@, count as nat),
    {
        if count == 0 {
            self.selected_index = 0;
        } else if self.selected_index >= count {
            self.selected_index = count - 1;
        }
    }

    /// Moves the selection; see `moved`.
    pub fn move_selection(&mut self, count: usize, delta: isize)
        ensures
            final(self)@ == moved(old(self)@, count as nat, delta as int),
    {
        if count == 0 {
            self.selected_index = 0;
            return;
        }
        let max = count - 1;
        let cur = self.selected_index;
        if delta >= 0 {
            let d = delta as usize;
            if cur >= max || max - cur <= d {
                self.selected_index = max;
            } else {
                self.selected_index = cur + d;
            }
        } else {
            let d = ((-(delta + 1)) as usize) + 1;
            if cur <= d {
                self.selected_index = 0;
            } else if cur - d > max {
                self.selected_index = max;
            } else {
                self.selected_index = cur - d;
            }
        }
    }
}

} // verus!
