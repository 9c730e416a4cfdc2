//! Properties of the control plane that span its operations.
use vstd::prelude::*;
use vstd::seq_lib::{to_multiset_insert, to_multiset_remove};
use crate::seqs::{first_index, lemma_first_index, lemma_first_index_unique};
use crate::text::{ascii_lower, trim};
use super::model::{
    close_workspace, create_notification, create_workspace, has_id_room, move_to, press_key,
    reorder_workspace, select_last_workspace, terminal_type, ws_is, ws_matches, KeyOutcome,
};
use super::{ControlV, NotificationV, SurfaceV, TerminalMode, WorkspaceInfoV};

verus! {

broadcast use vstd::multiset::group_multiset_axioms;

/// Closing never leaves the state without a workspace: a lone workspace is
/// not closed, and otherwise a successful close removes exactly one.
pub proof fn law_close_keeps_a_workspace(m: ControlV, id: Option<u64>)
    requires
        m.workspaces.len() >= 1,
    ensures
        close_workspace(m, id).0.workspaces.len() >= 1,
        m.workspaces.len() == 1 ==> close_workspace(m, id) == (m, None::<WorkspaceInfoV>),
        close_workspace(m, id).1 is Some ==> close_workspace(m, id).0.workspaces.len() == m.workspaces.len() - 1,
        close_workspace(m, id).1 is None ==> close_workspace(m, id).0 == m,
{
    let target = match id { Some(i) => i, None => m.current_workspace_id };
    lemma_first_index(m.workspaces, ws_is(target));
}

/// Reordering moves a workspace without adding or losing any.
pub proof fn law_reorder_keeps_workspaces(m: ControlV, id: u64, index: int)
    requires
        index >= 0,
    ensures
        reorder_workspace(m, id, index).0.workspaces.to_multiset() == m.workspaces.to_multiset(),
        reorder_workspace(m, id, index).0.workspaces.len() == m.workspaces.len(),
{
    let s = m.workspaces;
    let from = first_index(s, ws_is(id));
    lemma_first_index(s, ws_is(id));
    if from >= 0 {
        let len = s.len() as int;
        let to = if index < len - 1 { index } else { len - 1 };
        if from != to {
            to_multiset_remove(s, from);
            to_multiset_insert(s.remove(from), to, s[from]);
            s.to_multiset_ensures();
            assert(s.contains(s[from]));
            assert(s.to_multiset().count(s[from]) > 0);
            assert(s.to_multiset().remove(s[from]).insert(s[from]) =~= s.to_multiset());
        }
        assert(move_to(s, from, to).to_multiset() == s.to_multiset());
    }
}

/// A new workspace is selected and comes last; selecting the last workspace
/// right after goes back to the one that was selected before (when the new
/// id was not already taken).
pub proof fn law_create_then_last_goes_back(m: ControlV, name: Option<Seq<char>>, host: Option<u64>)
    requires
        has_id_room(m),
        first_index(m.workspaces, ws_is(m.current_workspace_id)) >= 0,
        m.next_workspace_id != m.current_workspace_id,
    ensures
        ({
            let (m1, w) = create_workspace(m, name, host);
            &&& m1.current_workspace_id == w.id
            &&& m1.workspaces.last().id == w.id
            &&& m1.workspaces.len() == m.workspaces.len() + 1
            &&& select_last_workspace(m1).1 is Some
            &&& select_last_workspace(m1).0.current_workspace_id == m.current_workspace_id
        }),
{
    let (m1, w) = create_workspace(m, name, host);
    let cur = m.current_workspace_id;
    let k = first_index(m.workspaces, ws_is(cur));
    lemma_first_index(m.workspaces, ws_is(cur));
    assert forall|j: int| 0 <= j < k implies !ws_matches(Some(cur), None)(#[trigger] m1.workspaces[j]) by {
        assert(m1.workspaces[j] == m.workspaces[j]);
        assert(!ws_is(cur)(m.workspaces[j]));
    }
    assert(m1.workspaces[k] == m.workspaces[k]);
    lemma_first_index_unique(m1.workspaces, ws_matches(Some(cur), None), k);
}

/// Only the newest notification is kept: a notification that is raised
/// replaces the ones before it.
pub proof fn law_notification_keeps_newest(
    m: ControlV,
    t: Seq<char>,
    st: Seq<char>,
    b: Seq<char>,
    sid: Option<u64>,
    wsid: Option<u64>,
)
    ensures
        ({
            let (m1, n) = create_notification(m, t, st, b, sid, wsid);
            match n {
                Some(x) => m1.notifications == seq![x] && x.id == m.next_notification_id && x.unread,
                None => m1 == m,
            }
        }),
{
}

/// Ctrl-C in a terminal surface always returns its shell to idle with an
/// empty input line.
pub proof fn law_ctrl_c_returns_to_idle(s: SurfaceV, key: Seq<char>)
    requires
        s.panel_type == terminal_type(),
        ascii_lower(trim(key)) == "ctrl-c"@,
    ensures
        press_key(s, key).0.terminal_mode == TerminalMode::Idle,
        press_key(s, key).0.shell_input.len() == 0,
        press_key(s, key).1 == KeyOutcome::Handled,
{
}

} // verus!

verus! {

/// Resizing a pane to the left and then to the right by the same amount
/// (or up, then down) gives back the size it had: the directions are
/// inverse. From no recorded size, left by `a` makes the width `-a`, right
/// makes it `a`, up makes the height `-a` and down makes it `a`. (Away from
/// the `i64` limits, where the size saturates.)
pub proof fn law_resize_directions_inverse(m: ControlV, pane_id: u64, a: i64)
    requires
        super::model::pane_exists(m, pane_id),
        -0x1000_0000_0000_0000 <= a <= 0x1000_0000_0000_0000,
        m.size_overrides.contains_key(pane_id) ==> {
            let c = m.size_overrides[pane_id];
            -0x1000_0000_0000_0000 <= c.0 <= 0x1000_0000_0000_0000 && -0x1000_0000_0000_0000 <= c.1 <= 0x1000_0000_0000_0000
        },
    ensures
        ({
            let before = if m.size_overrides.contains_key(pane_id) { m.size_overrides[pane_id] } else { (0i64, 0i64) };
            let l = super::model::resize_pane(m, pane_id, "left"@, a);
            let r = super::model::resize_pane(l.0, pane_id, "right"@, a);
            let u = super::model::resize_pane(m, pane_id, "up"@, a);
            let d = super::model::resize_pane(u.0, pane_id, "down"@, a);
            &&& l.1 == Some(((before.0 - a) as i64, before.1))
            &&& r.1 == Some(before)
            &&& r.0.size_overrides[pane_id] == before
            &&& u.1 == Some((before.0, (before.1 - a) as i64))
            &&& d.1 == Some(before)
        }),
        !m.size_overrides.contains_key(pane_id) ==> {
            &&& super::model::resize_pane(m, pane_id, "left"@, a).1 == Some(((-a) as i64, 0i64))
            &&& super::model::resize_pane(m, pane_id, "right"@, a).1 == Some((a, 0i64))
            &&& super::model::resize_pane(m, pane_id, "up"@, a).1 == Some((0i64, (-a) as i64))
            &&& super::model::resize_pane(m, pane_id, "down"@, a).1 == Some((0i64, a))
        },
{
    reveal_strlit("left");
    reveal_strlit("right");
    reveal_strlit("up");
    reveal_strlit("down");
    assert("left"@ =~= super::model::dir_left());
    assert("right"@ =~= super::model::dir_right());
    assert("up"@ =~= super::model::dir_up());
    assert("down"@ =~= super::model::dir_down());
    assert(super::model::dir_left() != super::model::dir_right());
    assert(super::model::dir_up() != super::model::dir_right());
    assert(super::model::dir_up() != super::model::dir_left());
    assert(super::model::dir_up() != super::model::dir_down());
    assert(super::model::dir_down() != super::model::dir_right());
    assert(super::model::dir_down() != super::model::dir_left());
    let l = super::model::resize_pane(m, pane_id, "left"@, a);
    let u = super::model::resize_pane(m, pane_id, "up"@, a);
    assert(l.0.workspaces == m.workspaces);
    assert(u.0.workspaces == m.workspaces);
    assert(super::model::pane_exists(l.0, pane_id) == super::model::pane_exists(m, pane_id));
    assert(super::model::pane_exists(u.0, pane_id) == super::model::pane_exists(m, pane_id));
}

} // verus!
