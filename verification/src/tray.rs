use vstd::prelude::*;

use crate::text::str_eq;

verus! {

/// The three fixed tray menu entries, plus everything else an event could
/// name.
#[derive(Debug, Clone, Copy, PartialEq, Eq, Structural)]
pub enum MenuId {
    Show,
    Logout,
    Quit,
    Other,
}

/// Whether the main window is on screen.
#[derive(Debug, Clone, Copy, PartialEq, Eq, Structural)]
pub enum Visibility {
    Visible,
    Hidden,
}

/// Where the process stands: still serving events, or terminated with an
/// exit code. Termination is terminal; no event moves the controller out
/// of it.
#[derive(Debug, Clone, Copy, PartialEq, Eq, Structural)]
pub enum Phase {
    Running(Visibility),
    Exited(i32),
}

/// The OS calls a handler asks for, in order. None of them reports back:
/// a failing call is a silent no-op at the windowing layer.
#[derive(Debug, Clone, Copy, PartialEq, Eq, Structural)]
pub enum Action {
    /// Put the main window on screen.
    ShowWindow,
    /// Give the main window input focus.
    FocusWindow,
    /// Take the main window off screen; it stays alive.
    HideWindow,
    /// Fire the "tray-logout" notification at the front end, and do not
    /// wait for it.
    EmitLogout,
    /// Keep a close request from destroying the window.
    PreventClose,
    /// Terminate the process with the given code.
    Exit(i32),
}

/// The menu entry a menu-event identifier names.
pub open spec fn spec_menu_id_of(s: Seq<char>) -> MenuId {
    if s == "show"@ {
        MenuId::Show
    } else if s == "logout"@ {
        MenuId::Logout
    } else if s == "quit"@ {
        MenuId::Quit
    } else {
        MenuId::Other
    }
}

/// Maps a menu-event identifier to the entry it names.
pub fn parse_menu_id(s: &str) -> (r: MenuId)
    ensures
        r == spec_menu_id_of(s@),
{
    if str_eq(s, "show") {
        MenuId::Show
    } else if str_eq(s, "logout") {
        MenuId::Logout
    } else if str_eq(s, "quit") {
        MenuId::Quit
    } else {
        MenuId::Other
    }
}

/// The calls a menu selection asks for. `window_found` says whether the
/// lookup of the main window succeeded; where it failed, the window calls
/// drop out silently, but the logout notification still fires and quit
/// still terminates.
pub open spec fn spec_menu_actions(id: MenuId, window_found: bool) -> Seq<Action> {
    match id {
        MenuId::Show => if window_found {
            seq![Action::ShowWindow, Action::FocusWindow]
        } else {
            Seq::empty()
        },
        MenuId::Logout => if window_found {
            seq![Action::EmitLogout, Action::HideWindow]
        } else {
            seq![Action::EmitLogout]
        },
        MenuId::Quit => seq![Action::Exit(0)],
        MenuId::Other => Seq::empty(),
    }
}

/// Routes a tray menu selection.
pub fn menu_actions(id: MenuId, window_found: bool) -> (r: Vec<Action>)
    ensures
        r@ == spec_menu_actions(id, window_found),
{
    match id {
        MenuId::Show => {
            if window_found {
                let r = vec![Action::ShowWindow, Action::FocusWindow];
                proof {
                    assert(r@ =~= spec_menu_actions(id, window_found));
                }
                r
            } else {
                Vec::new()
            }
        },
        MenuId::Logout => {
            if window_found {
                let r = vec![Action::EmitLogout, Action::HideWindow];
                proof {
                    assert(r@ =~= spec_menu_actions(id, window_found));
                }
                r
            } else {
                let r = vec![Action::EmitLogout];
                proof {
                    assert(r@ =~= spec_menu_actions(id, window_found));
                }
                r
            }
        },
        MenuId::Quit => {
            let r = vec![Action::Exit(0)];
            proof {
                assert(r@ =~= spec_menu_actions(id, window_found));
            }
            r
        },
        MenuId::Other => Vec::new(),
    }
}

/// The calls a left click on the tray icon asks for: a toggle on the
/// observed visibility. `observed` is what the visibility query returned;
/// where the query failed the window counts as hidden, so the toggle
/// shows it.
pub open spec fn spec_click_actions(window_found: bool, observed: Option<bool>) -> Seq<Action> {
    if !window_found {
        Seq::empty()
    } else if observed == Some(true) {
        seq![Action::HideWindow]
    } else {
        seq![Action::ShowWindow, Action::FocusWindow]
    }
}

/// Routes a left click (on release) on the tray icon.
pub fn click_actions(window_found: bool, observed: Option<bool>) -> (r: Vec<Action>)
    ensures
        r@ == spec_click_actions(window_found, observed),
{
    if !window_found {
        Vec::new()
    } else {
        let visible = match observed {
            Some(v) => v,
            None => false,
        };
        if visible {
            let r = vec![Action::HideWindow];
            proof {
                assert(r@ =~= spec_click_actions(window_found, observed));
            }
            r
        } else {
            let r = vec![Action::ShowWindow, Action::FocusWindow];
            proof {
                assert(r@ =~= spec_click_actions(window_found, observed));
            }
            r
        }
    }
}

/// The calls a window close request asks for: hide, and keep the window
/// alive. The request never reaches the destroy path.
pub open spec fn spec_close_actions() -> Seq<Action> {
    seq![Action::HideWindow, Action::PreventClose]
}

/// Intercepts a close request on the main window.
pub fn close_actions() -> (r: Vec<Action>)
    ensures
        r@ == spec_close_actions(),
{
    let r = vec![Action::HideWindow, Action::PreventClose];
    proof {
        assert(r@ =~= spec_close_actions());
    }
    r
}

/// One entry of the fixed tray menu: a stable identifier and a label for
/// display.
#[derive(Debug, PartialEq, Eq)]
pub struct TrayMenuItem {
    pub id: String,
    pub label: String,
}

/// The fixed tray menu, created once at startup and immutable for the
/// life of the process: show, logout, quit, in that order, each under the
/// identifier its events carry.
pub fn tray_menu() -> (r: Vec<TrayMenuItem>)
    ensures
        r@.len() == 3,
        r@[0].id@ == "show"@ && spec_menu_id_of(r@[0].id@) == MenuId::Show,
        r@[1].id@ == "logout"@ && spec_menu_id_of(r@[1].id@) == MenuId::Logout,
        r@[2].id@ == "quit"@ && spec_menu_id_of(r@[2].id@) == MenuId::Quit,
{
    proof {
        reveal_strlit("show");
        reveal_strlit("logout");
        reveal_strlit("quit");
    }
    let mut r: Vec<TrayMenuItem> = Vec::new();
    r.push(TrayMenuItem { id: String::from_str("show"), label: String::from_str("열기") });
    r.push(TrayMenuItem { id: String::from_str("logout"), label: String::from_str("로그아웃") });
    r.push(TrayMenuItem { id: String::from_str("quit"), label: String::from_str("종료") });
    proof {
        assert(r@[0].id@ == "show"@);
        assert(r@[1].id@ == "logout"@);
        assert(r@[2].id@ == "quit"@);
        assert("logout"@ != "show"@);
        assert("quit"@ != "show"@) by {
            assert("quit"@[0] == 'q' && "show"@[0] == 's');
        }
        assert("quit"@ != "logout"@);
    }
    r
}

/// How one OS call moves the controller: show and hide set the visibility,
/// exit ends the process, and everything else leaves the window alone.
/// After termination nothing moves.
pub open spec fn spec_apply(p: Phase, a: Action) -> Phase {
    match p {
        Phase::Exited(_) => p,
        Phase::Running(v) => match a {
            Action::ShowWindow => Phase::Running(Visibility::Visible),
            Action::HideWindow => Phase::Running(Visibility::Hidden),
            Action::Exit(code) => Phase::Exited(code),
            _ => p,
        },
    }
}

/// The controller after a whole list of calls, first to last.
pub open spec fn spec_apply_all(p: Phase, actions: Seq<Action>) -> Phase
    decreases actions.len(),
{
    if actions.len() == 0 {
        p
    } else {
        spec_apply_all(spec_apply(p, actions[0]), actions.skip(1))
    }
}

proof fn lemma_apply_one(p: Phase, a: Action)
    ensures
        spec_apply_all(p, seq![a]) == spec_apply(p, a),
{
    assert(seq![a].skip(1) =~= Seq::<Action>::empty());
    assert(seq![a][0] == a);
    assert(spec_apply_all(spec_apply(p, a), Seq::<Action>::empty()) == spec_apply(p, a));
}

proof fn lemma_apply_two(p: Phase, a: Action, b: Action)
    ensures
        spec_apply_all(p, seq![a, b]) == spec_apply(spec_apply(p, a), b),
{
    assert(seq![a, b].skip(1) =~= seq![b]);
    lemma_apply_one(spec_apply(p, a), b);
}

/// Selecting "quit" from the tray terminates the process with exit code
/// zero, whatever the window's visibility was and whether or not the
/// window lookup succeeded.
pub proof fn lemma_quit_always_exits(v: Visibility, window_found: bool)
    ensures
        spec_apply_all(Phase::Running(v), spec_menu_actions(MenuId::Quit, window_found))
            == Phase::Exited(0),
{
    lemma_apply_one(Phase::Running(v), Action::Exit(0));
}

/// A close request never destroys the window: the process keeps running,
/// the request itself is prevented from closing, and a "show" selection
/// afterwards puts the window back on screen.
pub proof fn lemma_close_never_destroys(v: Visibility)
    ensures
        spec_apply_all(Phase::Running(v), spec_close_actions()) == Phase::Running(
            Visibility::Hidden,
        ),
        spec_close_actions().contains(Action::PreventClose),
        spec_apply_all(
            spec_apply_all(Phase::Running(v), spec_close_actions()),
            spec_menu_actions(MenuId::Show, true),
        ) == Phase::Running(Visibility::Visible),
{
    lemma_apply_two(Phase::Running(v), Action::HideWindow, Action::PreventClose);
    assert(spec_close_actions()[1] == Action::PreventClose);
    lemma_apply_two(
        Phase::Running(Visibility::Hidden),
        Action::ShowWindow,
        Action::FocusWindow,
    );
}

/// A left click on the tray icon toggles the window, and two successive
/// clicks bring it back to where it started: visible, hidden, visible
/// again — and likewise from hidden.
pub proof fn lemma_click_toggles(v: Visibility)
    ensures
        spec_apply_all(
            Phase::Running(v),
            spec_click_actions(true, Some(v == Visibility::Visible)),
        ) == Phase::Running(spec_flip(v)),
        spec_apply_all(
            Phase::Running(spec_flip(v)),
            spec_click_actions(true, Some(spec_flip(v) == Visibility::Visible)),
        ) == Phase::Running(v),
{
    lemma_apply_one(Phase::Running(Visibility::Visible), Action::HideWindow);
    lemma_apply_two(
        Phase::Running(Visibility::Hidden),
        Action::ShowWindow,
        Action::FocusWindow,
    );
}

/// The other side of the toggle.
pub open spec fn spec_flip(v: Visibility) -> Visibility {
    match v {
        Visibility::Visible => Visibility::Hidden,
        Visibility::Hidden => Visibility::Visible,
    }
}

/// Showing an already-visible window and hiding an already-hidden one are
/// no-ops: the visibility operations are idempotent.
pub proof fn lemma_visibility_idempotent(p: Phase)
    ensures
        spec_apply(spec_apply(p, Action::ShowWindow), Action::ShowWindow) == spec_apply(
            p,
            Action::ShowWindow,
        ),
        spec_apply(spec_apply(p, Action::HideWindow), Action::HideWindow) == spec_apply(
            p,
            Action::HideWindow,
        ),
{
}

} // verus!
