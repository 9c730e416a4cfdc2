//! The built-in browser's page model: the page a URL loads, the elements the
//! known test pages carry, the navigation history, and which surfaces are
//! browser tabs.
//!
//! A page's HTML comes from a `data:text/html` URL itself, or from the file a
//! `file://` URL names; the files are read by the host and handed in as
//! `(path, contents)` pairs.
use vstd::prelude::*;
use crate::browser_page::{browser_title, html_title, data_html, file_path, decode_data_html, extract_html_title, normalize_browser_title, file_html_path};
use crate::seqs::{first_index, lemma_first_index, lemma_first_index_unique, lemma_first_index_none};
use crate::text::{contains, ends_with, str_contains, str_ends_with, str_eq};
use super::opt_str_view;

verus! {

/// Pairs of strings, looked up by their first element.
pub type Pairs = Seq<(Seq<char>, Seq<char>)>;

pub open spec fn pairs_view(v: Seq<(String, String)>) -> Pairs {
    v.map_values(|p: (String, String)| (p.0@, p.1@))
}

pub open spec fn strings_view(v: Seq<String>) -> Seq<Seq<char>> {
    v.map_values(|s: String| s@)
}

pub open spec fn pair_key_is(key: Seq<char>) -> spec_fn((Seq<char>, Seq<char>)) -> bool {
    |p: (Seq<char>, Seq<char>)| p.0 == key
}

/// The value of the first pair with this key.
pub open spec fn pair_get(l: Pairs, key: Seq<char>) -> Option<Seq<char>> {
    let i = first_index(l, pair_key_is(key));
    if i < 0 { None } else { Some(l[i].1) }
}

/// The pairs with `key` set to `value`: the first pair with the key is
/// replaced, or the pair is added at the end.
pub open spec fn pair_put(l: Pairs, key: Seq<char>, value: Seq<char>) -> Pairs {
    let i = first_index(l, pair_key_is(key));
    if i < 0 { l.push((key, value)) } else { l.update(i, (key, value)) }
}

/// Flags and counts, looked up by a name.
pub type Flags = Seq<(Seq<char>, bool)>;

pub type Counts = Seq<(Seq<char>, u64)>;

pub open spec fn entry_key_is<V>(key: Seq<char>) -> spec_fn((Seq<char>, V)) -> bool {
    |p: (Seq<char>, V)| p.0 == key
}

/// The value of the first entry with this key.
pub open spec fn entry_get<V>(l: Seq<(Seq<char>, V)>, key: Seq<char>) -> Option<V> {
    let i = first_index(l, entry_key_is(key));
    if i < 0 { None } else { Some(l[i].1) }
}

/// The entries with `key` set to `value`: the first entry with the key is
/// replaced, or the entry is added at the end.
pub open spec fn entry_put<V>(l: Seq<(Seq<char>, V)>, key: Seq<char>, value: V) -> Seq<(Seq<char>, V)> {
    let i = first_index(l, entry_key_is(key));
    if i < 0 { l.push((key, value)) } else { l.update(i, (key, value)) }
}

/// A lookup among one entry.
pub proof fn lemma_entry_get_one<V>(k: Seq<char>, v: V, key: Seq<char>)
    ensures
        entry_get(seq![(k, v)], key) == if key == k { Some(v) } else { None::<V> },
{
    let s = seq![(k, v)];
    assert(s.drop_last() =~= Seq::<(Seq<char>, V)>::empty());
    reveal_with_fuel(first_index, 2);
}

pub open spec fn flags_view(v: Seq<(String, bool)>) -> Flags {
    v.map_values(|p: (String, bool)| (p.0@, p.1))
}

pub open spec fn counts_view(v: Seq<(String, u64)>) -> Counts {
    v.map_values(|p: (String, u64)| (p.0@, p.1))
}

/// Which of the known test pages a page is, by its URL and text.
#[derive(Clone, Copy, Debug, PartialEq, Eq, Structural)]
pub enum PageKind {
    Comprehensive,
    ComprehensiveTwo,
    Basic,
    Extended,
    Second,
    Probe,
    Plain,
}

pub open spec fn page_kind(url: Seq<char>, text: Seq<char>) -> PageKind {
    if contains(text, "limux-browser-comprehensive-1"@) || contains(url, "comprehensive-1"@) {
        PageKind::Comprehensive
    } else if contains(text, "limux-browser-comprehensive-2"@) || contains(url, "comprehensive-2"@)
        || contains(url, "page-two"@) {
        PageKind::ComprehensiveTwo
    } else if contains(text, "limux-browser-p0"@) || contains(text, "id='out'"@) || contains(text, "id=\"out\""@) {
        PageKind::Basic
    } else if ends_with(url, "/index.html"@) || contains(text, "limux-browser-extended"@) {
        PageKind::Extended
    } else if ends_with(url, "/second.html"@) || contains(text, "second-page"@) {
        PageKind::Second
    } else if contains(text, "id='probe'"@) || contains(text, "id=\"probe\""@) {
        PageKind::Probe
    } else {
        PageKind::Plain
    }
}

/// The form fields a page starts with.
pub open spec fn page_fields(k: PageKind) -> Pairs {
    match k {
        PageKind::Comprehensive => seq![("#name"@, ""@), ("#sel"@, "a"@)],
        PageKind::Basic => seq![("#name"@, ""@), ("#sel"@, "a"@)],
        PageKind::Extended => seq![("#name"@, ""@)],
        _ => Seq::empty(),
    }
}

/// The element texts a page starts with.
pub open spec fn page_texts(k: PageKind) -> Pairs {
    match k {
        PageKind::Comprehensive => seq![
            ("#status"@, "ready"@),
            ("#hdr"@, "Browser Comprehensive"@),
            ("#bottom"@, "bottom-marker"@),
        ],
        PageKind::ComprehensiveTwo => seq![("#page2"@, "page-two"@)],
        PageKind::Basic => seq![("#out"@, "ready"@)],
        PageKind::Extended => seq![("#status"@, "ready"@), ("#frame-text"@, "frame-ready"@)],
        PageKind::Second => seq![("#second"@, "second-page"@)],
        PageKind::Probe => seq![("#probe"@, "P"@)],
        PageKind::Plain => Seq::empty(),
    }
}

/// The other selectors a page has elements for (those with a visibility, an
/// enabled state, attributes, styles or a count).
pub open spec fn page_selectors(k: PageKind) -> Seq<Seq<char>> {
    match k {
        PageKind::Comprehensive => seq![
            "#status"@, "#hidden"@, "#keys"@, "#hover"@, "#dbl"@, "#chk"@, "#sel"@, "#scroller"@,
            "#style-target"@, "#btn"@, "#disabled"@, "option"@,
        ],
        PageKind::ComprehensiveTwo => seq!["#page2"@],
        PageKind::Basic => seq!["#name"@, "#btn"@, "#chk"@, "#sel"@, "#out"@, "option"@],
        PageKind::Extended => seq!["#status"@, "#action-btn"@, "li.row"@, "#style-target"@, "#name"@],
        PageKind::Second => seq!["#second"@, "#style-target"@],
        PageKind::Probe => seq!["#probe"@],
        PageKind::Plain => Seq::empty(),
    }
}

/// The markup of the elements a page starts with.
pub open spec fn page_html(k: PageKind) -> Pairs {
    match k {
        PageKind::Comprehensive => seq![("#status"@, "<div id=\"status\" data-role=\"status\">ready</div>"@)],
        PageKind::Basic => seq![("#out"@, "<div id=\"out\">ready</div>"@)],
        PageKind::Extended => seq![("#status"@, "<div id=\"status\">ready</div>"@)],
        _ => Seq::empty(),
    }
}

/// Which elements of a page are visible.
pub open spec fn page_visible(k: PageKind) -> Flags {
    match k {
        PageKind::Comprehensive => seq![
            ("#status"@, true), ("#hidden"@, false), ("#keys"@, true), ("#hover"@, true), ("#dbl"@, true),
            ("#chk"@, true), ("#sel"@, true), ("#scroller"@, true), ("#style-target"@, true), ("#btn"@, true),
        ],
        PageKind::ComprehensiveTwo => seq![("#page2"@, true)],
        PageKind::Basic => seq![("#name"@, true), ("#btn"@, true), ("#chk"@, true), ("#sel"@, true), ("#out"@, true)],
        PageKind::Extended => seq![("#status"@, true), ("#action-btn"@, true)],
        PageKind::Second => seq![("#second"@, true)],
        PageKind::Probe => seq![("#probe"@, true)],
        PageKind::Plain => Seq::empty(),
    }
}

/// Which elements of a page are enabled.
pub open spec fn page_enabled(k: PageKind) -> Flags {
    match k {
        PageKind::Comprehensive => seq![("#btn"@, true), ("#disabled"@, false)],
        PageKind::Extended => seq![("#action-btn"@, true)],
        _ => Seq::empty(),
    }
}

/// How many elements a selector matches on a page.
pub open spec fn page_counts(k: PageKind) -> Counts {
    match k {
        PageKind::Comprehensive => seq![("option"@, 2u64)],
        PageKind::Basic => seq![("option"@, 2u64)],
        PageKind::Extended => seq![("li.row"@, 3u64)],
        _ => Seq::empty(),
    }
}

/// The attributes of a page's elements.
pub open spec fn page_attrs(k: PageKind) -> Seq<(Seq<char>, Pairs)> {
    match k {
        PageKind::Comprehensive => seq![("#status"@, seq![("data-role"@, "status"@)])],
        PageKind::Extended => seq![("#name"@, seq![
            ("placeholder"@, "Type name"@), ("title"@, "name-title"@), ("data-testid"@, "name-field"@),
        ])],
        _ => Seq::empty(),
    }
}

/// The computed styles of a page's elements.
pub open spec fn target_styles() -> Pairs {
    seq![("color"@, "rgb(255, 0, 0)"@), ("display"@, "block"@)]
}

pub open spec fn page_styles(k: PageKind) -> Seq<(Seq<char>, Pairs)> {
    match k {
        PageKind::Comprehensive | PageKind::Extended | PageKind::Second => seq![("#style-target"@, target_styles())],
        _ => Seq::empty(),
    }
}

/// The scroll offsets a page starts with.
pub open spec fn page_scrolls(k: PageKind) -> Counts {
    match k {
        PageKind::Comprehensive => seq![("#scroller"@, 0u64)],
        _ => Seq::empty(),
    }
}

/// The browser, as values.
pub struct BrowserV {
    pub open: bool,
    pub focused: bool,
    pub surface_id: Option<u64>,
    pub url: Seq<char>,
    pub title: Seq<char>,
    pub page_text: Seq<char>,
    pub html: Seq<char>,
    pub history: Seq<Seq<char>>,
    pub history_index: nat,
    pub fields: Pairs,
    pub dom_text: Pairs,
    pub page: PageKind,
    pub dom_html: Pairs,
    pub checked: Flags,
    pub scroll_tops: Counts,
    pub in_view: Seq<Seq<char>>,
    pub active_element: Seq<char>,
    pub hover_count: u64,
    pub dbl_count: u64,
    pub key_down_count: u64,
    pub key_up_count: u64,
    pub key_press_count: u64,
    pub frame_selected: bool,
    pub frame_clicks: u64,
    pub dialogs: Seq<Seq<char>>,
    pub element_refs: Pairs,
    pub next_element_ref: u64,
    pub init_marker: Seq<char>,
    pub local_storage: Pairs,
    pub session_storage: Pairs,
    pub cookies: Pairs,
    pub scripts: Seq<Seq<char>>,
    pub init_scripts: Seq<Seq<char>>,
    pub styles: Seq<Seq<char>>,
    pub console: Seq<Seq<char>>,
    pub errors: Seq<Seq<char>>,
    pub browser_surfaces: Seq<u64>,
    pub tab_ids: Seq<u64>,
    pub current_tab_id: u64,
    pub next_tab_id: u64,
}

/// A closed browser on `about:blank`, with that page as its only history.
pub open spec fn default_browser() -> BrowserV {
    BrowserV {
        open: false,
        focused: false,
        surface_id: None,
        url: "about:blank"@,
        title: "about:blank"@,
        page_text: Seq::empty(),
        html: Seq::empty(),
        history: seq!["about:blank"@],
        history_index: 0,
        fields: Seq::empty(),
        dom_text: Seq::empty(),
        page: PageKind::Plain,
        dom_html: Seq::empty(),
        checked: Seq::empty(),
        scroll_tops: Seq::empty(),
        in_view: Seq::empty(),
        active_element: Seq::empty(),
        hover_count: 0,
        dbl_count: 0,
        key_down_count: 0,
        key_up_count: 0,
        key_press_count: 0,
        frame_selected: false,
        frame_clicks: 0,
        dialogs: Seq::empty(),
        element_refs: Seq::empty(),
        next_element_ref: 1,
        init_marker: Seq::empty(),
        local_storage: Seq::empty(),
        session_storage: Seq::empty(),
        cookies: Seq::empty(),
        scripts: Seq::empty(),
        init_scripts: Seq::empty(),
        styles: Seq::empty(),
        console: Seq::empty(),
        errors: Seq::empty(),
        browser_surfaces: Seq::empty(),
        tab_ids: Seq::empty(),
        current_tab_id: 0,
        next_tab_id: 1,
    }
}

/// The HTML a URL loads: a `data:` URL's own, or the contents of the file a
/// `file://` URL names, when the host could read it.
pub open spec fn page_source(url: Seq<char>, files: Pairs) -> Option<Seq<char>> {
    match data_html(url) {
        Some(h) => Some(h),
        None => match file_path(url) {
            Some(p) => pair_get(files, p),
            None => None,
        },
    }
}

/// The page shown for a URL: its HTML (or `Loaded <url>` as its text), its
/// title (from the HTML, else from the URL), and the elements of the test
/// page it is, if any; what was done on the previous page (form state,
/// element refs, the focused element, input counts, the frame and dialogs)
/// is dropped.
pub open spec fn seed(b: BrowserV, url: Seq<char>, page: Option<Seq<char>>) -> BrowserV {
    let blank = url == "about:blank"@;
    let text = if blank {
        "about:blank"@
    } else {
        match page { Some(h) => h, None => "Loaded "@ + url }
    };
    let title0 = if blank {
        "about:blank"@
    } else {
        match page {
            Some(h) => match html_title(h) { Some(t) => t, None => browser_title(url) },
            None => browser_title(url),
        }
    };
    let k = page_kind(url, text);
    let title = match k {
        PageKind::Extended => "limux-browser-extended"@,
        PageKind::Second => "limux-browser-extended-second"@,
        _ => title0,
    };
    BrowserV {
        html: match page { Some(h) => h, None => Seq::empty() },
        title,
        page_text: text,
        fields: page_fields(k),
        dom_text: page_texts(k),
        page: k,
        dom_html: page_html(k),
        checked: Seq::empty(),
        scroll_tops: page_scrolls(k),
        in_view: Seq::empty(),
        active_element: Seq::empty(),
        hover_count: 0,
        dbl_count: 0,
        key_down_count: 0,
        key_up_count: 0,
        key_press_count: 0,
        frame_selected: false,
        dialogs: Seq::empty(),
        element_refs: Seq::empty(),
        next_element_ref: 1,
        init_marker: if init_marked(b.init_scripts) { "init-ok"@ } else { b.init_marker },
        ..b
    }
}

/// Whether the newest init script sets the init marker.
pub open spec fn init_marked(scripts: Seq<Seq<char>>) -> bool {
    scripts.len() > 0 && contains(scripts.last(), "__limuxInitMarker"@) && contains(scripts.last(), "init-ok"@)
}

/// Opening a URL: the page is loaded, forward history is dropped and the URL
/// becomes the newest entry.
pub open spec fn navigate(b: BrowserV, url: Seq<char>, files: Pairs) -> BrowserV {
    let b1 = seed(BrowserV { open: true, url, ..b }, url, page_source(url, files));
    let kept = if b.history_index + 1 < b.history.len() { b.history.take(b.history_index + 1 as int) } else { b.history };
    BrowserV { history: kept.push(url), history_index: kept.len(), ..b1 }
}

/// Loading the history entry the index points at, if there is one.
pub open spec fn show_current(b: BrowserV, files: Pairs) -> BrowserV {
    if b.history_index < b.history.len() {
        let url = b.history[b.history_index as int];
        seed(BrowserV { url, ..b }, url, page_source(url, files))
    } else {
        b
    }
}

pub open spec fn go_back(b: BrowserV, files: Pairs) -> BrowserV {
    if b.history_index > 0 {
        show_current(BrowserV { history_index: (b.history_index - 1) as nat, ..b }, files)
    } else {
        b
    }
}

pub open spec fn go_forward(b: BrowserV, files: Pairs) -> BrowserV {
    if b.history_index + 1 < b.history.len() {
        show_current(BrowserV { history_index: b.history_index + 1, ..b }, files)
    } else {
        b
    }
}

/// What a selector stands for: the selector an element ref was made for,
/// else itself.
pub open spec fn resolve(b: BrowserV, sel: Seq<char>) -> Seq<char> {
    match pair_get(b.element_refs, sel) {
        Some(s) => s,
        None => sel,
    }
}

/// Whether a selector names an element of the page: `e` and digits does;
/// `#never`, `#does-not-exist` and any with `missing` in it do not; one the
/// page has a field, a text or another element for does; the frame's
/// elements do while the frame is selected.
pub open spec fn element_exists(b: BrowserV, sel: Seq<char>) -> bool {
    if sel.len() > 0 && sel[0] == 'e' && (forall|i: int| 1 <= i < sel.len() ==> is_ascii_digit(#[trigger] sel[i])) {
        true
    } else if sel == "#never"@ || sel == "#does-not-exist"@ || contains(sel, "missing"@) {
        false
    } else if pair_get(b.dom_text, sel) is Some || pair_get(b.fields, sel) is Some || page_selectors(b.page).contains(sel) {
        true
    } else if sel == "#frame-text"@ || sel == "#frame-btn"@ {
        b.frame_selected
    } else {
        false
    }
}

/// Whether a selector, or the selector its ref stands for, names an element.
pub open spec fn selector_exists(b: BrowserV, sel: Seq<char>) -> bool {
    element_exists(b, resolve(b, sel))
}

pub open spec fn is_ascii_digit(c: char) -> bool {
    '0' <= c && c <= '9'
}

/// A surface becomes the current browser tab.
pub open spec fn register_tab(b: BrowserV, sid: u64) -> BrowserV {
    BrowserV {
        surface_id: Some(sid),
        browser_surfaces: if b.browser_surfaces.contains(sid) { b.browser_surfaces } else { b.browser_surfaces.push(sid) },
        tab_ids: if b.tab_ids.contains(sid) { b.tab_ids } else { b.tab_ids.push(sid) },
        current_tab_id: sid,
        next_tab_id: if b.next_tab_id >= sat_succ(sid) { b.next_tab_id } else { sat_succ(sid) },
        ..b
    }
}

pub open spec fn sat_succ(x: u64) -> u64 {
    if x == u64::MAX { x } else { (x + 1) as u64 }
}

/// Whether a surface is one of the browser's tabs.
pub open spec fn is_browser_tab(b: BrowserV, sid: u64) -> bool {
    b.browser_surfaces.contains(sid) || b.tab_ids.contains(sid)
}

/// Opening a URL shows it and makes it the newest history entry, with the
/// index on it.
pub proof fn law_navigate_makes_newest(b: BrowserV, url: Seq<char>, files: Pairs)
    ensures
        navigate(b, url, files).url == url,
        navigate(b, url, files).history.last() == url,
        navigate(b, url, files).history_index + 1 == navigate(b, url, files).history.len(),
        navigate(b, url, files).open,
{
}

/// Going back after opening a URL, then forward again, shows exactly what
/// opening it showed.
pub proof fn law_back_then_forward_restores(b: BrowserV, url: Seq<char>, files: Pairs)
    requires
        b.history_index < b.history.len(),
    ensures
        go_forward(go_back(navigate(b, url, files), files), files) == navigate(b, url, files),
{
    let b1 = navigate(b, url, files);
    let kept = if b.history_index + 1 < b.history.len() { b.history.take(b.history_index + 1 as int) } else { b.history };
    assert(kept.len() >= 1);
    assert(b1.history_index == kept.len());
    let b2 = go_back(b1, files);
    assert(b2.history_index == kept.len() - 1);
    let b3 = go_forward(b2, files);
    assert(b3.history_index == b1.history_index);
    assert(b3.history[b3.history_index as int] == url);
    assert(b3 == b1);
}

/// Reloading twice shows what reloading once does.
pub proof fn law_reload_is_idempotent(b: BrowserV, files: Pairs)
    ensures
        show_current(show_current(b, files), files) == show_current(b, files),
{
}

/// The built-in browser's state.
pub struct BrowserState {
    pub open: bool,
    pub focused: bool,
    pub surface_id: Option<u64>,
    pub url: String,
    pub title: String,
    pub page_text: String,
    pub html: String,
    pub history: Vec<String>,
    pub history_index: usize,
    pub fields: Vec<(String, String)>,
    pub dom_text: Vec<(String, String)>,
    pub page: PageKind,
    pub dom_html: Vec<(String, String)>,
    pub checked: Vec<(String, bool)>,
    pub scroll_tops: Vec<(String, u64)>,
    pub in_view: Vec<String>,
    pub active_element: String,
    pub hover_count: u64,
    pub dbl_count: u64,
    pub key_down_count: u64,
    pub key_up_count: u64,
    pub key_press_count: u64,
    pub frame_selected: bool,
    pub frame_clicks: u64,
    pub dialogs: Vec<String>,
    pub element_refs: Vec<(String, String)>,
    pub next_element_ref: u64,
    pub init_marker: String,
    pub local_storage: Vec<(String, String)>,
    pub session_storage: Vec<(String, String)>,
    pub cookies: Vec<(String, String)>,
    pub scripts: Vec<String>,
    pub init_scripts: Vec<String>,
    pub styles: Vec<String>,
    pub console: Vec<String>,
    pub errors: Vec<String>,
    pub browser_surfaces: Vec<u64>,
    pub tab_ids: Vec<u64>,
    pub current_tab_id: u64,
    pub next_tab_id: u64,
}

impl View for BrowserState {
    type V = BrowserV;

    open spec fn view(&self) -> BrowserV {
        BrowserV {
            open: self.open,
            focused: self.focused,
            surface_id: self.surface_id,
            url: self.url@,
            title: self.title@,
            page_text: self.page_text@,
            html: self.html@,
            history: strings_view(self.history@),
            history_index: self.history_index as nat,
            fields: pairs_view(self.fields@),
            dom_text: pairs_view(self.dom_text@),
            page: self.page,
            dom_html: pairs_view(self.dom_html@),
            checked: flags_view(self.checked@),
            scroll_tops: counts_view(self.scroll_tops@),
            in_view: strings_view(self.in_view@),
            active_element: self.active_element@,
            hover_count: self.hover_count,
            dbl_count: self.dbl_count,
            key_down_count: self.key_down_count,
            key_up_count: self.key_up_count,
            key_press_count: self.key_press_count,
            frame_selected: self.frame_selected,
            frame_clicks: self.frame_clicks,
            dialogs: strings_view(self.dialogs@),
            element_refs: pairs_view(self.element_refs@),
            next_element_ref: self.next_element_ref,
            init_marker: self.init_marker@,
            local_storage: pairs_view(self.local_storage@),
            session_storage: pairs_view(self.session_storage@),
            cookies: pairs_view(self.cookies@),
            scripts: strings_view(self.scripts@),
            init_scripts: strings_view(self.init_scripts@),
            styles: strings_view(self.styles@),
            console: strings_view(self.console@),
            errors: strings_view(self.errors@),
            browser_surfaces: self.browser_surfaces@,
            tab_ids: self.tab_ids@,
            current_tab_id: self.current_tab_id,
            next_tab_id: self.next_tab_id,
        }
    }
}

fn entry_index<V>(l: &Vec<(String, V)>, key: &str) -> (r: Option<usize>)
    ensures
        match r {
            Some(i) => i < l.len() && i as int == first_index(l@.map_values(|p: (String, V)| (p.0@, p.1)), entry_key_is::<V>(key@)),
            None => first_index(l@.map_values(|p: (String, V)| (p.0@, p.1)), entry_key_is::<V>(key@)) == -1,
        },
{
    let ghost v = l@.map_values(|p: (String, V)| (p.0@, p.1));
    let mut i: usize = 0;
    while i < l.len()
        invariant
            i <= l.len(),
            v == l@.map_values(|p: (String, V)| (p.0@, p.1)),
            forall|j: int| 0 <= j < i ==> !entry_key_is::<V>(key@)(#[trigger] v[j]),
        decreases l.len() - i,
    {
        if str_eq(l[i].0.as_str(), key) {
            proof { lemma_first_index_unique(v, entry_key_is::<V>(key@), i as int); }
            return Some(i);
        }
        i = i + 1;
    }
    proof { lemma_first_index_none(v, entry_key_is::<V>(key@)); }
    None
}

/// A flag's value; see `entry_get`.
pub fn flag_value(l: &Vec<(String, bool)>, key: &str) -> (r: Option<bool>)
    ensures
        r == entry_get(flags_view(l@), key@),
{
    match entry_index(l, key) {
        Some(i) => Some(l[i].1),
        None => None,
    }
}

/// Sets a flag; see `entry_put`.
pub fn flag_set(l: &mut Vec<(String, bool)>, key: String, value: bool)
    ensures
        flags_view(final(l)@) == entry_put(flags_view(old(l)@), key@, value),
{
    let ghost k = key@;
    match entry_index(l, key.as_str()) {
        Some(i) => {
            l.set(i, (key, value));
            proof { assert(flags_view(l@) =~= flags_view(old(l)@).update(i as int, (k, value))); }
        },
        None => {
            l.push((key, value));
            proof { assert(flags_view(l@) =~= flags_view(old(l)@).push((k, value))); }
        },
    }
}

/// A count's value; see `entry_get`.
pub fn count_value(l: &Vec<(String, u64)>, key: &str) -> (r: Option<u64>)
    ensures
        r == entry_get(counts_view(l@), key@),
{
    match entry_index(l, key) {
        Some(i) => Some(l[i].1),
        None => None,
    }
}

/// Sets a count; see `entry_put`.
pub fn count_set(l: &mut Vec<(String, u64)>, key: String, value: u64)
    ensures
        counts_view(final(l)@) == entry_put(counts_view(old(l)@), key@, value),
{
    let ghost k = key@;
    match entry_index(l, key.as_str()) {
        Some(i) => {
            l.set(i, (key, value));
            proof { assert(counts_view(l@) =~= counts_view(old(l)@).update(i as int, (k, value))); }
        },
        None => {
            l.push((key, value));
            proof { assert(counts_view(l@) =~= counts_view(old(l)@).push((k, value))); }
        },
    }
}

fn pair_index(l: &Vec<(String, String)>, key: &str) -> (r: Option<usize>)
    ensures
        match r {
            Some(i) => i as int == first_index(pairs_view(l@), pair_key_is(key@)) && i < l.len(),
            None => first_index(pairs_view(l@), pair_key_is(key@)) == -1,
        },
{
    let ghost v = pairs_view(l@);
    let mut i: usize = 0;
    while i < l.len()
        invariant
            i <= l.len(),
            v == pairs_view(l@),
            forall|j: int| 0 <= j < i ==> !pair_key_is(key@)(#[trigger] v[j]),
        decreases l.len() - i,
    {
        if str_eq(l[i].0.as_str(), key) {
            proof { lemma_first_index_unique(v, pair_key_is(key@), i as int); }
            return Some(i);
        }
        i = i + 1;
    }
    proof { lemma_first_index_none(v, pair_key_is(key@)); }
    None
}

/// The value of the first pair with this key; see `pair_get`.
pub fn pair_value(l: &Vec<(String, String)>, key: &str) -> (r: Option<String>)
    ensures
        opt_str_view(r) == pair_get(pairs_view(l@), key@),
{
    match pair_index(l, key) {
        Some(i) => Some(l[i].1.clone()),
        None => None,
    }
}

/// Sets a key's value; see `pair_put`.
pub fn pair_set(l: &mut Vec<(String, String)>, key: String, value: String)
    ensures
        pairs_view(final(l)@) == pair_put(pairs_view(old(l)@), key@, value@),
{
    let ghost k = key@;
    let ghost val = value@;
    match pair_index(l, key.as_str()) {
        Some(i) => {
            l.set(i, (key, value));
            proof { assert(pairs_view(l@) =~= pairs_view(old(l)@).update(i as int, (k, val))); }
        },
        None => {
            l.push((key, value));
            proof { assert(pairs_view(l@) =~= pairs_view(old(l)@).push((k, val))); }
        },
    }
}

fn pair(k: &str, v: &str) -> (r: (String, String))
    ensures
        r.0@ == k@,
        r.1@ == v@,
{
    (String::from_str(k), String::from_str(v))
}

fn fields_for(k: PageKind) -> (r: Vec<(String, String)>)
    ensures
        pairs_view(r@) == page_fields(k),
{
    proof { reveal_strlit(""); }
    match k {
        PageKind::Comprehensive | PageKind::Basic => {
            let r = vec![pair("#name", ""), pair("#sel", "a")];
            proof { assert(pairs_view(r@) =~= page_fields(k)); }
            r
        },
        PageKind::Extended => {
            let r = vec![pair("#name", "")];
            proof { assert(pairs_view(r@) =~= page_fields(k)); }
            r
        },
        _ => {
            let r: Vec<(String, String)> = Vec::new();
            proof { assert(pairs_view(r@) =~= page_fields(k)); }
            r
        },
    }
}

fn texts_for(k: PageKind) -> (r: Vec<(String, String)>)
    ensures
        pairs_view(r@) == page_texts(k),
{
    let r = match k {
        PageKind::Comprehensive => vec![
            pair("#status", "ready"),
            pair("#hdr", "Browser Comprehensive"),
            pair("#bottom", "bottom-marker"),
        ],
        PageKind::ComprehensiveTwo => vec![pair("#page2", "page-two")],
        PageKind::Basic => vec![pair("#out", "ready")],
        PageKind::Extended => vec![pair("#status", "ready"), pair("#frame-text", "frame-ready")],
        PageKind::Second => vec![pair("#second", "second-page")],
        PageKind::Probe => vec![pair("#probe", "P")],
        PageKind::Plain => Vec::new(),
    };
    proof { assert(pairs_view(r@) =~= page_texts(k)); }
    r
}

fn strings_of(v: &[&str]) -> (r: Vec<String>)
    ensures
        strings_view(r@) == v@.map_values(|s: &str| s@),
{
    let mut out: Vec<String> = Vec::new();
    let mut i: usize = 0;
    while i < v.len()
        invariant
            i <= v.len(),
            out@.len() == i,
            forall|j: int| 0 <= j < i ==> (#[trigger] out@[j])@ == v@[j]@,
        decreases v.len() - i,
    {
        out.push(String::from_str(v[i]));
        i = i + 1;
    }
    proof { assert(strings_view(out@) =~= v@.map_values(|s: &str| s@)); }
    out
}

fn selectors_for(k: PageKind) -> (r: Vec<String>)
    ensures
        strings_view(r@) == page_selectors(k),
{
    match k {
        PageKind::Comprehensive => {
            let a = ["#status", "#hidden", "#keys", "#hover", "#dbl", "#chk", "#sel", "#scroller",
                "#style-target", "#btn", "#disabled", "option"];
            let r = strings_of(&a);
            proof { assert(a@.map_values(|s: &str| s@) =~= page_selectors(k)); }
            r
        },
        PageKind::ComprehensiveTwo => {
            let a = ["#page2"];
            let r = strings_of(&a);
            proof { assert(a@.map_values(|s: &str| s@) =~= page_selectors(k)); }
            r
        },
        PageKind::Basic => {
            let a = ["#name", "#btn", "#chk", "#sel", "#out", "option"];
            let r = strings_of(&a);
            proof { assert(a@.map_values(|s: &str| s@) =~= page_selectors(k)); }
            r
        },
        PageKind::Extended => {
            let a = ["#status", "#action-btn", "li.row", "#style-target", "#name"];
            let r = strings_of(&a);
            proof { assert(a@.map_values(|s: &str| s@) =~= page_selectors(k)); }
            r
        },
        PageKind::Second => {
            let a = ["#second", "#style-target"];
            let r = strings_of(&a);
            proof { assert(a@.map_values(|s: &str| s@) =~= page_selectors(k)); }
            r
        },
        PageKind::Probe => {
            let a = ["#probe"];
            let r = strings_of(&a);
            proof { assert(a@.map_values(|s: &str| s@) =~= page_selectors(k)); }
            r
        },
        PageKind::Plain => {
            let r: Vec<String> = Vec::new();
            proof { assert(strings_view(r@) =~= page_selectors(k)); }
            r
        },
    }
}

fn html_for(k: PageKind) -> (r: Vec<(String, String)>)
    ensures
        pairs_view(r@) == page_html(k),
{
    let r = match k {
        PageKind::Comprehensive => vec![pair("#status", "<div id=\"status\" data-role=\"status\">ready</div>")],
        PageKind::Basic => vec![pair("#out", "<div id=\"out\">ready</div>")],
        PageKind::Extended => vec![pair("#status", "<div id=\"status\">ready</div>")],
        _ => Vec::new(),
    };
    proof { assert(pairs_view(r@) =~= page_html(k)); }
    r
}

fn scrolls_for(k: PageKind) -> (r: Vec<(String, u64)>)
    ensures
        counts_view(r@) == page_scrolls(k),
{
    let r = match k {
        PageKind::Comprehensive => vec![(String::from_str("#scroller"), 0u64)],
        _ => Vec::new(),
    };
    proof { assert(counts_view(r@) =~= page_scrolls(k)); }
    r
}

fn init_marker_set(scripts: &Vec<String>) -> (r: bool)
    ensures
        r == init_marked(strings_view(scripts@)),
{
    let n = scripts.len();
    if n == 0 {
        return false;
    }
    let last = &scripts[n - 1];
    proof { assert(strings_view(scripts@).last() == last@); }
    str_contains(last.as_str(), "__limuxInitMarker") && str_contains(last.as_str(), "init-ok")
}

/// Which test page a page is; see `page_kind`.
pub fn kind_of_page(url: &str, text: &str) -> (r: PageKind)
    ensures
        r == page_kind(url@, text@),
{
    if str_contains(text, "limux-browser-comprehensive-1") || str_contains(url, "comprehensive-1") {
        PageKind::Comprehensive
    } else if str_contains(text, "limux-browser-comprehensive-2") || str_contains(url, "comprehensive-2")
        || str_contains(url, "page-two") {
        PageKind::ComprehensiveTwo
    } else if str_contains(text, "limux-browser-p0") || str_contains(text, "id='out'") || str_contains(text, "id=\"out\"") {
        PageKind::Basic
    } else if str_ends_with(url, "/index.html") || str_contains(text, "limux-browser-extended") {
        PageKind::Extended
    } else if str_ends_with(url, "/second.html") || str_contains(text, "second-page") {
        PageKind::Second
    } else if str_contains(text, "id='probe'") || str_contains(text, "id=\"probe\"") {
        PageKind::Probe
    } else {
        PageKind::Plain
    }
}

/// The HTML a URL loads; see `page_source`.
pub fn source_of(url: &str, files: &Vec<(String, String)>) -> (r: Option<String>)
    ensures
        opt_str_view(r) == page_source(url@, pairs_view(files@)),
{
    match decode_data_html(url) {
        Some(h) => Some(h),
        None => match file_html_path(url) {
            Some(p) => pair_value(files, p.as_str()),
            None => None,
        },
    }
}

fn concat(a: &str, b: &str) -> (r: String)
    ensures
        r@ == a@ + b@,
{
    let mut s = String::from_str(a);
    s.append(b);
    s
}

fn contains_u64(v: &Vec<u64>, x: u64) -> (r: bool)
    ensures
        r == v@.contains(x),
{
    let mut i: usize = 0;
    while i < v.len()
        invariant
            i <= v.len(),
            forall|j: int| 0 <= j < i ==> v@[j] != x,
        decreases v.len() - i,
    {
        if v[i] == x {
            proof { assert(v@[i as int] == x); }
            return true;
        }
        i = i + 1;
    }
    false
}

fn contains_string(v: &Vec<String>, x: &str) -> (r: bool)
    ensures
        r == strings_view(v@).contains(x@),
{
    let ghost sv = strings_view(v@);
    let mut i: usize = 0;
    while i < v.len()
        invariant
            i <= v.len(),
            sv == strings_view(v@),
            forall|j: int| 0 <= j < i ==> sv[j] != x@,
        decreases v.len() - i,
    {
        if str_eq(v[i].as_str(), x) {
            proof { assert(sv[i as int] == x@); }
            return true;
        }
        i = i + 1;
    }
    false
}

impl BrowserState {
    /// A closed browser on `about:blank`; see `default_browser`.
    pub fn new() -> (r: BrowserState)
        ensures
            r@ == default_browser(),
    {
        let r = BrowserState {
            open: false,
            focused: false,
            surface_id: None,
            url: String::from_str("about:blank"),
            title: String::from_str("about:blank"),
            page_text: String::new(),
            html: String::new(),
            history: vec![String::from_str("about:blank")],
            history_index: 0,
            fields: Vec::new(),
            dom_text: Vec::new(),
            page: PageKind::Plain,
            dom_html: Vec::new(),
            checked: Vec::new(),
            scroll_tops: Vec::new(),
            in_view: Vec::new(),
            active_element: String::new(),
            hover_count: 0,
            dbl_count: 0,
            key_down_count: 0,
            key_up_count: 0,
            key_press_count: 0,
            frame_selected: false,
            frame_clicks: 0,
            dialogs: Vec::new(),
            element_refs: Vec::new(),
            next_element_ref: 1,
            init_marker: String::new(),
            local_storage: Vec::new(),
            session_storage: Vec::new(),
            cookies: Vec::new(),
            scripts: Vec::new(),
            init_scripts: Vec::new(),
            styles: Vec::new(),
            console: Vec::new(),
            errors: Vec::new(),
            browser_surfaces: Vec::new(),
            tab_ids: Vec::new(),
            current_tab_id: 0,
            next_tab_id: 1,
        };
        proof {
            assert(strings_view(r.history@) =~= seq!["about:blank"@]);
            assert(pairs_view(r.fields@) =~= Seq::empty());
            assert(pairs_view(r.dom_text@) =~= Seq::empty());
            assert(pairs_view(r.dom_html@) =~= Seq::empty());
            assert(pairs_view(r.element_refs@) =~= Seq::empty());
            assert(pairs_view(r.local_storage@) =~= Seq::empty());
            assert(pairs_view(r.session_storage@) =~= Seq::empty());
            assert(pairs_view(r.cookies@) =~= Seq::empty());
            assert(flags_view(r.checked@) =~= Seq::empty());
            assert(counts_view(r.scroll_tops@) =~= Seq::empty());
            assert(strings_view(r.in_view@) =~= Seq::empty());
            assert(strings_view(r.dialogs@) =~= Seq::empty());
            assert(strings_view(r.scripts@) =~= Seq::empty());
            assert(strings_view(r.init_scripts@) =~= Seq::empty());
            assert(strings_view(r.styles@) =~= Seq::empty());
            assert(strings_view(r.console@) =~= Seq::empty());
            assert(strings_view(r.errors@) =~= Seq::empty());
        }
        r
    }

    pub fn url(&self) -> (r: &String)
        ensures
            r@ == self@.url,
    {
        &self.url
    }

    pub fn title(&self) -> (r: &String)
        ensures
            r@ == self@.title,
    {
        &self.title
    }

    pub fn page_text(&self) -> (r: &String)
        ensures
            r@ == self@.page_text,
    {
        &self.page_text
    }

    pub fn is_open(&self) -> (r: bool)
        ensures
            r == self@.open,
    {
        self.open
    }

    pub fn is_focused(&self) -> (r: bool)
        ensures
            r == self@.focused,
    {
        self.focused
    }

    pub fn surface_id(&self) -> (r: Option<u64>)
        ensures
            r == self@.surface_id,
    {
        self.surface_id
    }

    pub fn current_tab_id(&self) -> (r: u64)
        ensures
            r == self@.current_tab_id,
    {
        self.current_tab_id
    }

    /// The URLs of the history, oldest first.
    pub fn history(&self) -> (r: &Vec<String>)
        ensures
            strings_view(r@) == self@.history,
    {
        &self.history
    }

    pub fn set_open(&mut self, open: bool)
        ensures
            final(self)@ == (BrowserV { open, ..old(self)@ }),
    {
        self.open = open;
    }

    pub fn set_focused(&mut self, focused: bool)
        ensures
            final(self)@ == (BrowserV { focused, ..old(self)@ }),
    {
        self.focused = focused;
    }

    /// Whether a surface has been registered as a browser surface.
    pub fn has_surface(&self, sid: u64) -> (r: bool)
        ensures
            r == self@.browser_surfaces.contains(sid),
    {
        contains_u64(&self.browser_surfaces, sid)
    }

    /// Whether a surface is a browser tab; see `is_browser_tab`.
    pub fn is_tab(&self, sid: u64) -> (r: bool)
        ensures
            r == is_browser_tab(self@, sid),
    {
        contains_u64(&self.browser_surfaces, sid) || contains_u64(&self.tab_ids, sid)
    }

    /// A form field's value; see `pair_get`.
    pub fn field(&self, sel: &str) -> (r: Option<String>)
        ensures
            opt_str_view(r) == pair_get(self@.fields, sel@),
    {
        pair_value(&self.fields, sel)
    }

    /// An element's text; see `pair_get`.
    pub fn text_of(&self, sel: &str) -> (r: Option<String>)
        ensures
            opt_str_view(r) == pair_get(self@.dom_text, sel@),
    {
        pair_value(&self.dom_text, sel)
    }

    pub fn set_field(&mut self, sel: String, value: String)
        ensures
            final(self)@ == (BrowserV { fields: pair_put(old(self)@.fields, sel@, value@), ..old(self)@ }),
    {
        pair_set(&mut self.fields, sel, value);
    }

    pub fn set_text(&mut self, sel: String, value: String)
        ensures
            final(self)@ == (BrowserV { dom_text: pair_put(old(self)@.dom_text, sel@, value@), ..old(self)@ }),
    {
        pair_set(&mut self.dom_text, sel, value);
    }

    /// What a selector stands for; see `resolve`.
    pub fn resolve(&self, sel: &str) -> (r: String)
        ensures
            r@ == resolve(self@, sel@),
    {
        match pair_value(&self.element_refs, sel) {
            Some(s) => s,
            None => String::from_str(sel),
        }
    }

    /// Whether a selector, or the one its ref stands for, names an element;
    /// see `selector_exists`.
    pub fn has_selector(&self, sel: &str) -> (r: bool)
        ensures
            r == selector_exists(self@, sel@),
    {
        let s = self.resolve(sel);
        self.has_element(s.as_str())
    }

    /// Whether a selector names an element of the page; see `element_exists`.
    pub fn has_element(&self, sel: &str) -> (r: bool)
        ensures
            r == element_exists(self@, sel@),
    {
        let n = sel.unicode_len();
        if n > 0 && sel.get_char(0) == 'e' {
            let mut i: usize = 1;
            let mut digits = true;
            while i < n
                invariant
                    1 <= i <= n,
                    n == sel@.len(),
                    digits == (forall|j: int| 1 <= j < i ==> is_ascii_digit(#[trigger] sel@[j])),
                decreases n - i,
            {
                let c = sel.get_char(i);
                if !('0' <= c && c <= '9') {
                    digits = false;
                }
                proof {
                    if digits {
                        assert forall|j: int| 1 <= j < i + 1 implies is_ascii_digit(#[trigger] sel@[j]) by {
                            if j < i { } else { assert(sel@[j] == c); }
                        }
                    } else {
                        if !('0' <= c && c <= '9') {
                            assert(!is_ascii_digit(sel@[i as int]));
                        }
                    }
                }
                i = i + 1;
            }
            if digits {
                return true;
            }
        }
        if str_eq(sel, "#never") || str_eq(sel, "#does-not-exist") || str_contains(sel, "missing") {
            return false;
        }
        if pair_index(&self.dom_text, sel).is_some() || pair_index(&self.fields, sel).is_some()
            || contains_string(&selectors_for(self.page), sel) {
            return true;
        }
        if str_eq(sel, "#frame-text") || str_eq(sel, "#frame-btn") {
            return self.frame_selected;
        }
        false
    }

    /// Shows the page for a URL; see `seed`.
    fn load(&mut self, url: &str, page: Option<String>)
        ensures
            final(self)@ == seed(old(self)@, url@, opt_str_view(page)),
    {
        proof { reveal_strlit("about:blank"); }
        let blank = str_eq(url, "about:blank");
        let text = if blank {
            String::from_str("about:blank")
        } else {
            match &page {
                Some(h) => h.clone(),
                None => concat("Loaded ", url),
            }
        };
        let title0 = if blank {
            String::from_str("about:blank")
        } else {
            match &page {
                Some(h) => match extract_html_title(h.as_str()) {
                    Some(t) => t,
                    None => normalize_browser_title(url),
                },
                None => normalize_browser_title(url),
            }
        };
        let k = kind_of_page(url, text.as_str());
        let title = match k {
            PageKind::Extended => String::from_str("limux-browser-extended"),
            PageKind::Second => String::from_str("limux-browser-extended-second"),
            _ => title0,
        };
        self.html = match page { Some(h) => h, None => String::new() };
        self.title = title;
        self.page_text = text;
        self.fields = fields_for(k);
        self.dom_text = texts_for(k);
        self.page = k;
        self.dom_html = html_for(k);
        self.checked = Vec::new();
        self.scroll_tops = scrolls_for(k);
        self.in_view = Vec::new();
        self.active_element = String::new();
        self.hover_count = 0;
        self.dbl_count = 0;
        self.key_down_count = 0;
        self.key_up_count = 0;
        self.key_press_count = 0;
        self.frame_selected = false;
        self.dialogs = Vec::new();
        self.element_refs = Vec::new();
        self.next_element_ref = 1;
        if init_marker_set(&self.init_scripts) {
            self.init_marker = String::from_str("init-ok");
        }
        proof {
            assert(flags_view(self.checked@) =~= Seq::empty());
            assert(strings_view(self.in_view@) =~= Seq::empty());
            assert(strings_view(self.dialogs@) =~= Seq::empty());
            assert(pairs_view(self.element_refs@) =~= Seq::empty());
            assert(self.active_element@ =~= Seq::<char>::empty());
        }
    }

    /// Opens a URL; see `navigate`.
    pub fn navigate(&mut self, url: String, files: &Vec<(String, String)>)
        requires
            old(self)@.history.len() < usize::MAX,
        ensures
            final(self)@ == navigate(old(self)@, url@, pairs_view(files@)),
    {
        let page = source_of(url.as_str(), files);
        self.open = true;
        self.url = url.clone();
        self.load(url.as_str(), page);
        let ghost h0 = strings_view(self.history@);
        if self.history_index < self.history.len() && self.history.len() - self.history_index > 1 {
            self.history.truncate(self.history_index + 1);
            proof { assert(strings_view(self.history@) =~= h0.take(old(self).history_index + 1 as int)); }
        }
        let ghost kept = self.history@;
        self.history.push(url);
        proof { assert(strings_view(self.history@) =~= strings_view(kept).push(self.url@)); }
        self.history_index = self.history.len() - 1;
    }

    /// Shows the history entry the index points at; see `show_current`.
    fn show_current(&mut self, files: &Vec<(String, String)>)
        ensures
            final(self)@ == show_current(old(self)@, pairs_view(files@)),
    {
        if self.history_index < self.history.len() {
            let url = self.history[self.history_index].clone();
            proof { assert(url@ == strings_view(self.history@)[self.history_index as int]); }
            let page = source_of(url.as_str(), files);
            self.url = url.clone();
            self.load(url.as_str(), page);
        }
    }

    /// One step back in the history; see `go_back`.
    pub fn back(&mut self, files: &Vec<(String, String)>)
        ensures
            final(self)@ == go_back(old(self)@, pairs_view(files@)),
    {
        if self.history_index > 0 {
            self.history_index = self.history_index - 1;
            self.show_current(files);
        }
    }

    /// One step forward in the history; see `go_forward`.
    pub fn forward(&mut self, files: &Vec<(String, String)>)
        ensures
            final(self)@ == go_forward(old(self)@, pairs_view(files@)),
    {
        if self.history_index < self.history.len() && self.history.len() - self.history_index > 1 {
            self.history_index = self.history_index + 1;
            self.show_current(files);
        }
    }

    /// Loads the current history entry again; see `show_current`.
    pub fn reload(&mut self, files: &Vec<(String, String)>)
        ensures
            final(self)@ == show_current(old(self)@, pairs_view(files@)),
    {
        self.show_current(files);
    }

    /// Makes a surface the current browser tab; see `register_tab`.
    pub fn register_tab(&mut self, sid: u64)
        ensures
            final(self)@ == register_tab(old(self)@, sid),
    {
        self.surface_id = Some(sid);
        if !contains_u64(&self.browser_surfaces, sid) {
            self.browser_surfaces.push(sid);
        }
        if !contains_u64(&self.tab_ids, sid) {
            self.tab_ids.push(sid);
        }
        self.current_tab_id = sid;
        let succ = sid.saturating_add(1);
        if self.next_tab_id < succ {
            self.next_tab_id = succ;
        }
    }
}

} // verus!
