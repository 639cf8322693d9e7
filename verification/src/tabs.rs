//! The controller that keeps the session store and the pane registry in
//! step.
//!
//! Neither part can see to it alone that every pane shows a session that
//! exists. The controller does: when a session is removed it repairs the
//! panes, and when a layout change creates panes it creates the sessions
//! for them.

use crate::config::SerialConfigView;
use crate::layout::{LayoutMode, PaneManager, PaneView};
use crate::session::{
    default_port_session_name, default_session_name, is_tail_of, name_or, starts_with,
    SerialSession, SessionManager, SessionStoreView, SessionView,
};
use crate::text::{decimal, decimal_string};
use vstd::prelude::*;

verus! {

/// The controller's state as plain values.
pub struct TabsView {
    pub sessions: SessionStoreView,
    pub panes: PaneView,
    pub show_tabs: bool,
    pub show_layout_controls: bool,
}

/// The name of the session that a layout change creates for the pane with
/// index `index`.
pub open spec fn pane_session_name(index: nat) -> Seq<char> {
    "Session "@ + decimal(index + 1)
}

/// The store once it holds at least `count` sessions: while a session is
/// missing, a fresh one is appended under the next identifier, named after
/// its index.
pub open spec fn filled_up_to(store: SessionStoreView, count: nat) -> SessionStoreView
    decreases count - store.sessions.len(),
{
    if store.sessions.len() >= count {
        store
    } else {
        filled_up_to(
            store.appended(
                SessionView::initial(store.next_id, pane_session_name(store.sessions.len())),
            ),
            count,
        )
    }
}

/// Number of sessions that are missing for `count` panes.
pub open spec fn missing_sessions(store: SessionStoreView, count: nat) -> nat {
    if store.sessions.len() >= count {
        0
    } else {
        (count - store.sessions.len()) as nat
    }
}

/// The pane mapping after the store shrank to `count` sessions: a pane that
/// showed a session at or above `count` shows the last session.
pub open spec fn swept(mapping: Seq<usize>, count: nat) -> Seq<usize> {
    Seq::new(
        mapping.len(),
        |p: int|
            if mapping[p] >= count {
                (count - 1) as usize
            } else {
                mapping[p]
            },
    )
}

impl TabsView {
    /// The state is valid: store and registry are valid, and every pane
    /// shows a session that exists.
    pub open spec fn wf(self) -> bool {
        &&& self.sessions.wf()
        &&& self.panes.wf()
        &&& self.panes.sessions_below(self.sessions.sessions.len())
    }

    /// The state after the layout mode became `mode`: the panes are fitted
    /// to it and the store is filled up to the new number of panes.
    pub open spec fn with_layout(self, mode: LayoutMode) -> TabsView {
        TabsView {
            panes: self.panes.with_layout(mode),
            sessions: filled_up_to(self.sessions, mode.max_panes_spec()),
            ..self
        }
    }

    /// The state after the session at `index` was removed.
    pub open spec fn removed(self, index: usize) -> TabsView {
        TabsView {
            sessions: self.sessions.removed(index),
            panes: PaneView {
                pane_to_session: swept(
                    self.panes.pane_to_session,
                    (self.sessions.sessions.len() - 1) as nat,
                ),
                ..self.panes
            },
            ..self
        }
    }
}

proof fn lemma_filled_up_to(store: SessionStoreView, count: nat)
    requires
        store.wf(),
        store.next_id + missing_sessions(store, count) <= usize::MAX,
    ensures
        filled_up_to(store, count).wf(),
        filled_up_to(store, count).sessions.len() >= count,
        filled_up_to(store, count).sessions.len() >= store.sessions.len(),
        filled_up_to(store, count).active_index == store.active_index,
    decreases count - store.sessions.len(),
{
    if store.sessions.len() < count {
        let session = SessionView::initial(store.next_id, pane_session_name(store.sessions.len()));
        crate::session::lemma_store_stays_valid(store, session, 0);
        lemma_filled_up_to(store.appended(session), count);
    }
}

/// Sessions and panes under one roof.
pub struct TabsManager {
    sessions: SessionManager,
    panes: PaneManager,
    show_tabs: bool,
    show_layout_controls: bool,
}

impl View for TabsManager {
    type V = TabsView;

    open spec fn view(&self) -> TabsView {
        TabsView {
            sessions: self.store()@,
            panes: self.registry()@,
            show_tabs: self.tabs_wanted(),
            show_layout_controls: self.controls_wanted(),
        }
    }
}

impl TabsManager {
    /// The session store.
    pub closed spec fn store(&self) -> SessionManager {
        self.sessions
    }

    /// The pane registry.
    pub closed spec fn registry(&self) -> PaneManager {
        self.panes
    }

    /// Whether the tab bar is switched on.
    pub closed spec fn tabs_wanted(&self) -> bool {
        self.show_tabs
    }

    /// Whether the layout controls are switched on.
    pub closed spec fn controls_wanted(&self) -> bool {
        self.show_layout_controls
    }

    /// The state is valid: see [`TabsView::wf`].
    pub open spec fn wf(&self) -> bool {
        self@.wf()
    }

    /// Whether the state is valid, for callers that changed the store or
    /// the registry through a mutable reference.
    pub fn is_valid(&self) -> (r: bool)
        ensures
            r == self.wf(),
    {
        self.sessions.is_valid() && self.panes.is_valid() && self.panes.shows_sessions_below(
            self.sessions.len(),
        )
    }

    /// One session in one pane, tab bar and layout controls switched on.
    pub fn new() -> (r: TabsManager)
        ensures
            r@ == (TabsView {
                sessions: SessionStoreView::initial(),
                panes: PaneView {
                    layout_mode: LayoutMode::Single,
                    pane_to_session: seq![0usize],
                    focused_pane: 0,
                },
                show_tabs: true,
                show_layout_controls: true,
            }),
            r.wf(),
    {
        TabsManager {
            sessions: SessionManager::new(),
            panes: PaneManager::new(),
            show_tabs: true,
            show_layout_controls: true,
        }
    }

    /// The session store.
    pub fn sessions(&self) -> (r: &SessionManager)
        ensures
            *r == self.store(),
    {
        &self.sessions
    }

    /// The session store, for changes. The controller does not watch them:
    /// a caller who removes sessions here has to repair the panes.
    pub fn sessions_mut(&mut self) -> (r: &mut SessionManager)
        ensures
            *r == old(self).store(),
            final(self).store() == *final(r),
            final(self).registry() == old(self).registry(),
            final(self).tabs_wanted() == old(self).tabs_wanted(),
            final(self).controls_wanted() == old(self).controls_wanted(),
    {
        &mut self.sessions
    }

    /// The pane registry.
    pub fn panes(&self) -> (r: &PaneManager)
        ensures
            *r == self.registry(),
    {
        &self.panes
    }

    /// The pane registry, for changes. The controller does not watch them:
    /// a caller who changes the layout here has to create the sessions.
    pub fn panes_mut(&mut self) -> (r: &mut PaneManager)
        ensures
            *r == old(self).registry(),
            final(self).registry() == *final(r),
            final(self).store() == old(self).store(),
            final(self).tabs_wanted() == old(self).tabs_wanted(),
            final(self).controls_wanted() == old(self).controls_wanted(),
    {
        &mut self.panes
    }

    /// The active session.
    pub fn active_session(&self) -> (r: &SerialSession)
        requires
            self.wf(),
        ensures
            r@ == self@.sessions.sessions[self@.sessions.active_index as int],
    {
        self.sessions.active_session()
    }

    /// The active session, for changes.
    pub fn active_session_mut(&mut self) -> (r: &mut SerialSession)
        requires
            old(self).wf(),
        ensures
            *r == old(self).store().items()[old(self)@.sessions.active_index as int],
            final(self).store().items() == old(self).store().items().update(
                old(self)@.sessions.active_index as int,
                *final(r),
            ),
            final(self).registry() == old(self).registry(),
            (*r)@ == old(self)@.sessions.sessions[old(self)@.sessions.active_index as int],
            final(self)@ == (TabsView {
                sessions: SessionStoreView {
                    sessions: old(self)@.sessions.sessions.update(
                        old(self)@.sessions.active_index as int,
                        final(r)@,
                    ),
                    ..old(self)@.sessions
                },
                ..old(self)@
            }),
    {
        self.sessions.active_session_mut()
    }

    /// The session shown in the focused pane.
    pub fn focused_pane_session(&self) -> (r: Option<&SerialSession>)
        ensures
            r is Some == (self@.panes.focused_pane < self@.panes.pane_to_session.len()
                && self@.panes.pane_to_session[self@.panes.focused_pane as int]
                < self@.sessions.sessions.len()),
            r matches Some(session) ==> session@
                == self@.sessions.sessions[self@.panes.pane_to_session[self@.panes.focused_pane as int] as int],
            self.wf() ==> r is Some,
    {
        match self.panes.focused_session() {
            Some(session_idx) => self.sessions.get_session(session_idx),
            None => None,
        }
    }

    /// The session shown in the focused pane, for changes.
    pub fn focused_pane_session_mut(&mut self) -> (r: Option<&mut SerialSession>)
        ensures
            r is Some == (old(self)@.panes.focused_pane < old(self)@.panes.pane_to_session.len()
                && old(self)@.panes.pane_to_session[old(self)@.panes.focused_pane as int] < old(
                self,
            )@.sessions.sessions.len()),
            r matches Some(session) ==> {
                let index = old(self)@.panes.pane_to_session[old(
                    self,
                )@.panes.focused_pane as int] as int;
                &&& *session == old(self).store().items()[index]
                &&& final(self).store().items() == old(self).store().items().update(
                    index,
                    *final(session),
                )
                &&& final(self).registry() == old(self).registry()
                &&& (*session)@ == old(self)@.sessions.sessions[index]
                &&& final(self)@ == (TabsView {
                    sessions: SessionStoreView {
                        sessions: old(self)@.sessions.sessions.update(index, final(session)@),
                        ..old(self)@.sessions
                    },
                    ..old(self)@
                })
            },
            r is None ==> final(self).store().items() == old(self).store().items(),
            r is None ==> final(self)@ == old(self)@,
    {
        match self.panes.focused_session() {
            Some(session_idx) => self.sessions.get_session_mut(session_idx),
            None => None,
        }
    }

    /// Appends a fresh session and returns its index: see
    /// [`SessionManager::add_session`].
    pub fn add_session(&mut self, name: Option<String>) -> (index: usize)
        requires
            old(self)@.sessions.next_id < usize::MAX,
        ensures
            index == old(self)@.sessions.sessions.len(),
            final(self)@ == (TabsView {
                sessions: old(self)@.sessions.appended(
                    SessionView::initial(
                        old(self)@.sessions.next_id,
                        name_or(name, default_session_name(old(self)@.sessions.next_id)),
                    ),
                ),
                ..old(self)@
            }),
            old(self).wf() ==> final(self).wf(),
            starts_with(final(self).store().items(), old(self).store().items()),
            final(self).registry() == old(self).registry(),
    {
        self.sessions.add_session(name)
    }

    /// Appends a fresh session on `port` and returns its index: see
    /// [`SessionManager::add_session_with_port`].
    pub fn add_session_with_port(&mut self, port: String, name: Option<String>) -> (index: usize)
        requires
            old(self)@.sessions.next_id < usize::MAX,
        ensures
            index == old(self)@.sessions.sessions.len(),
            final(self)@ == (TabsView {
                sessions: old(self)@.sessions.appended(
                    SessionView {
                        config: SerialConfigView { port: port@, ..SerialConfigView::initial() },
                        ..SessionView::initial(
                            old(self)@.sessions.next_id,
                            name_or(
                                name,
                                default_port_session_name(old(self)@.sessions.next_id, port@),
                            ),
                        )
                    },
                ),
                ..old(self)@
            }),
            old(self).wf() ==> final(self).wf(),
            starts_with(final(self).store().items(), old(self).store().items()),
            final(self).registry() == old(self).registry(),
    {
        self.sessions.add_session_with_port(port, name)
    }

    /// Removes the session at `index` and returns it. Refused, with no
    /// change, if there is no such session or if it is the only one. After
    /// a removal, every pane that pointed beyond the sessions left points
    /// at the last one.
    pub fn remove_session(&mut self, index: usize) -> (r: Option<SerialSession>)
        requires
            old(self)@.sessions.wf(),
        ensures
            r is Some == old(self)@.sessions.can_remove(index),
            r matches Some(session) ==> session@ == old(self)@.sessions.sessions[index as int]
                && final(self)@ == old(self)@.removed(index),
            r is None ==> final(self)@ == old(self)@,
            old(self).wf() ==> final(self).wf(),
            final(self)@.sessions.wf(),
            r is Some ==> final(self)@.panes.sessions_below(final(self)@.sessions.sessions.len()),
            r is Some ==> final(self).store().items() == old(self).store().items().remove(
                index as int,
            ),
            r is None ==> final(self).store().items() == old(self).store().items(),
    {
        proof {
            self.sessions.lemma_items();
        }
        let removed = match self.sessions.remove_session(index) {
            Some(session) => session,
            None => {
                return None;
            },
        };

        let total_sessions = self.sessions.len();
        let pane_count = self.panes.pane_count();
        let ghost before = self.panes@;
        let mut pane_idx: usize = 0;
        while pane_idx < pane_count
            invariant
                pane_idx <= pane_count,
                total_sessions >= 1,
                self.sessions@ == old(self).sessions@.removed(index),
                self.sessions.items() == old(self).sessions.items().remove(index as int),
                removed@ == old(self)@.sessions.sessions[index as int],
                total_sessions == self.sessions@.sessions.len(),
                self.show_tabs == old(self).show_tabs,
                self.show_layout_controls == old(self).show_layout_controls,
                before == old(self).panes@,
                self.panes@.layout_mode == before.layout_mode,
                self.panes@.focused_pane == before.focused_pane,
                self.panes@.pane_to_session.len() == pane_count,
                before.pane_to_session.len() == pane_count,
                forall|p: int|
                    0 <= p < pane_idx ==> #[trigger] self.panes@.pane_to_session[p] == swept(
                        before.pane_to_session,
                        total_sessions as nat,
                    )[p],
                forall|p: int|
                    pane_idx <= p < pane_count ==> #[trigger] self.panes@.pane_to_session[p]
                        == before.pane_to_session[p],
            decreases pane_count - pane_idx,
        {
            if let Some(session_idx) = self.panes.session_for_pane(pane_idx) {
                if session_idx >= total_sessions {
                    self.panes.set_pane_session(pane_idx, total_sessions - 1);
                }
            }
            pane_idx += 1;
        }
        proof {
            assert(self.panes@.pane_to_session =~= swept(
                before.pane_to_session,
                total_sessions as nat,
            ));
        }
        Some(removed)
    }

    /// Creates the sessions that are missing for the current panes.
    fn fill_sessions(&mut self)
        requires
            old(self)@.sessions.wf(),
            old(self)@.sessions.next_id + missing_sessions(
                old(self)@.sessions,
                old(self)@.panes.pane_to_session.len(),
            ) <= usize::MAX,
        ensures
            final(self)@ == (TabsView {
                sessions: filled_up_to(
                    old(self)@.sessions,
                    old(self)@.panes.pane_to_session.len(),
                ),
                ..old(self)@
            }),
            starts_with(final(self).store().items(), old(self).store().items()),
    {
        let required_sessions = self.panes.pane_count();
        let current_sessions = self.sessions.len();
        let ghost target = filled_up_to(self@.sessions, required_sessions as nat);

        let mut i: usize = current_sessions;
        while i < required_sessions
            invariant
                self.panes == old(self).panes,
                self.show_tabs == old(self).show_tabs,
                self.show_layout_controls == old(self).show_layout_controls,
                self.sessions@.sessions.len() == i,
                starts_with(self.sessions.items(), old(self).sessions.items()),
                self.sessions@.wf(),
                self.sessions@.next_id + missing_sessions(
                    self.sessions@,
                    required_sessions as nat,
                ) <= usize::MAX,
                filled_up_to(self.sessions@, required_sessions as nat) == target,
                target == filled_up_to(old(self).sessions@, required_sessions as nat),
                required_sessions == old(self).panes@.pane_to_session.len(),
            decreases required_sessions - i,
        {
            let mut name = String::from_str("Session ");
            name.append(decimal_string((i + 1) as u64).as_str());
            let ghost before = self.sessions@;
            self.sessions.add_session(Some(name));
            proof {
                assert(name@ == pane_session_name(before.sessions.len()));
            }
            i += 1;
        }
    }

    /// Moves to the next layout mode. The panes are fitted to it and the
    /// sessions that the new panes need are created.
    pub fn next_layout(&mut self)
        requires
            old(self).wf(),
            old(self)@.sessions.next_id + missing_sessions(
                old(self)@.sessions,
                old(self)@.panes.layout_mode.next_spec().max_panes_spec(),
            ) <= usize::MAX,
        ensures
            final(self)@ == old(self)@.with_layout(old(self)@.panes.layout_mode.next_spec()),
            final(self).wf(),
            starts_with(final(self).store().items(), old(self).store().items()),
    {
        self.panes.next_layout();
        self.fill_sessions();
        proof {
            lemma_layout_change(old(self)@, old(self)@.panes.layout_mode.next_spec());
        }
    }

    /// Moves to the previous layout mode. The panes are fitted to it and
    /// the sessions that the new panes need are created.
    pub fn prev_layout(&mut self)
        requires
            old(self).wf(),
            old(self)@.sessions.next_id + missing_sessions(
                old(self)@.sessions,
                old(self)@.panes.layout_mode.prev_spec().max_panes_spec(),
            ) <= usize::MAX,
        ensures
            final(self)@ == old(self)@.with_layout(old(self)@.panes.layout_mode.prev_spec()),
            final(self).wf(),
            starts_with(final(self).store().items(), old(self).store().items()),
    {
        self.panes.prev_layout();
        self.fill_sessions();
        proof {
            lemma_layout_change(old(self)@, old(self)@.panes.layout_mode.prev_spec());
        }
    }

    /// Changes the layout mode. The panes are fitted to it and the sessions
    /// that the new panes need are created.
    pub fn set_layout_mode(&mut self, mode: LayoutMode)
        requires
            old(self).wf(),
            old(self)@.sessions.next_id + missing_sessions(
                old(self)@.sessions,
                mode.max_panes_spec(),
            ) <= usize::MAX,
        ensures
            final(self)@ == old(self)@.with_layout(mode),
            final(self).wf(),
            starts_with(final(self).store().items(), old(self).store().items()),
    {
        self.panes.set_layout_mode(mode);
        self.fill_sessions();
        proof {
            lemma_layout_change(old(self)@, mode);
        }
    }

    /// Switches the tab bar on or off.
    pub fn set_show_tabs(&mut self, show: bool)
        ensures
            final(self)@ == (TabsView { show_tabs: show, ..old(self)@ }),
            final(self).store() == old(self).store(),
    {
        self.show_tabs = show;
    }

    /// Whether the tab bar is drawn: it is switched on and there is more
    /// than one session.
    pub fn should_show_tabs(&self) -> (r: bool)
        ensures
            r == (self@.show_tabs && self@.sessions.sessions.len() > 1),
    {
        self.show_tabs && self.sessions.len() > 1
    }

    /// Switches the layout controls on or off.
    pub fn set_show_layout_controls(&mut self, show: bool)
        ensures
            final(self)@ == (TabsView { show_layout_controls: show, ..old(self)@ }),
            final(self).store() == old(self).store(),
    {
        self.show_layout_controls = show;
    }

    /// Whether the layout controls are drawn.
    pub fn should_show_layout_controls(&self) -> (r: bool)
        ensures
            r == self@.show_layout_controls,
    {
        self.show_layout_controls
    }

    /// Moves the focus to the next pane, wrapping around.
    pub fn focus_next_pane(&mut self)
        requires
            old(self)@.panes.wf(),
        ensures
            final(self)@ == (TabsView {
                panes: PaneView {
                    focused_pane: ((old(self)@.panes.focused_pane + 1) % (
                    old(self)@.panes.pane_to_session.len() as int)) as usize,
                    ..old(self)@.panes
                },
                ..old(self)@
            }),
            old(self).wf() ==> final(self).wf(),
            final(self).store() == old(self).store(),
    {
        self.panes.focus_next_pane();
    }

    /// Moves the focus to the previous pane, wrapping around.
    pub fn focus_prev_pane(&mut self)
        requires
            old(self)@.panes.wf(),
        ensures
            final(self)@ == (TabsView {
                panes: PaneView {
                    focused_pane: if old(self)@.panes.focused_pane == 0 {
                        (old(self)@.panes.pane_to_session.len() - 1) as usize
                    } else {
                        (old(self)@.panes.focused_pane - 1) as usize
                    },
                    ..old(self)@.panes
                },
                ..old(self)@
            }),
            old(self).wf() ==> final(self).wf(),
            final(self).store() == old(self).store(),
    {
        self.panes.focus_prev_pane();
    }

    /// Shows the next session in the focused pane, the first after the
    /// last.
    pub fn cycle_focused_pane_session(&mut self)
        requires
            old(self).wf(),
        ensures
            final(self)@ == (TabsView {
                panes: PaneView {
                    pane_to_session: old(self)@.panes.pane_to_session.update(
                        old(self)@.panes.focused_pane as int,
                        ((old(self)@.panes.pane_to_session[old(self)@.panes.focused_pane as int]
                            + 1) % (old(self)@.sessions.sessions.len() as int)) as usize,
                    ),
                    ..old(self)@.panes
                },
                ..old(self)@
            }),
            final(self).wf(),
            final(self).store() == old(self).store(),
    {
        let total_sessions = self.sessions.len();
        self.panes.cycle_focused_session(total_sessions);
    }

    /// Shows the previous session in the focused pane, the last before the
    /// first.
    pub fn cycle_focused_pane_session_prev(&mut self)
        requires
            old(self).wf(),
        ensures
            final(self)@ == (TabsView {
                panes: PaneView {
                    pane_to_session: old(self)@.panes.pane_to_session.update(
                        old(self)@.panes.focused_pane as int,
                        if old(self)@.panes.pane_to_session[old(self)@.panes.focused_pane as int]
                            == 0 {
                            (old(self)@.sessions.sessions.len() - 1) as usize
                        } else {
                            (old(self)@.panes.pane_to_session[old(
                                self,
                            )@.panes.focused_pane as int] - 1) as usize
                        },
                    ),
                    ..old(self)@.panes
                },
                ..old(self)@
            }),
            final(self).wf(),
            final(self).store() == old(self).store(),
    {
        let total_sessions = self.sessions.len();
        self.panes.cycle_focused_session_prev(total_sessions);
    }

    /// Drops the expired notifications of every session. Which ones have
    /// expired depends on the clock; of each queue a tail is left, and
    /// nothing else changes.
    pub fn update_notifications(&mut self)
        ensures
            final(self)@.panes == old(self)@.panes,
            final(self)@.show_tabs == old(self)@.show_tabs,
            final(self)@.show_layout_controls == old(self)@.show_layout_controls,
            final(self)@.sessions.active_index == old(self)@.sessions.active_index,
            final(self)@.sessions.next_id == old(self)@.sessions.next_id,
            final(self)@.sessions.sessions.len() == old(self)@.sessions.sessions.len(),
            forall|i: int|
                0 <= i < old(self)@.sessions.sessions.len() ==> {
                    &&& is_tail_of(
                        (#[trigger] final(self)@.sessions.sessions[i]).notifications,
                        old(self)@.sessions.sessions[i].notifications,
                    )
                    &&& final(self)@.sessions.sessions[i] == (SessionView {
                        notifications: final(self)@.sessions.sessions[i].notifications,
                        ..old(self)@.sessions.sessions[i]
                    })
                },
            old(self).wf() ==> final(self).wf(),
            final(self).store().items().len() == old(self).store().items().len(),
            forall|i: int|
                0 <= i < old(self).store().items().len() ==> is_tail_of(
                    (#[trigger] final(self).store().items()[i]).notifications@,
                    old(self).store().items()[i].notifications@,
                ),
    {
        self.sessions.update_all_notifications();
    }

    /// The current layout mode.
    pub fn layout_mode(&self) -> (mode: LayoutMode)
        ensures
            mode == self@.panes.layout_mode,
    {
        self.panes.layout_mode()
    }

    /// Number of visible panes.
    pub fn visible_pane_count(&self) -> (n: usize)
        ensures
            n == self@.panes.pane_to_session.len(),
    {
        self.panes.pane_count()
    }

    /// The session shown in pane `pane_index`, if the pane exists and
    /// points at a session.
    pub fn session_for_pane(&self, pane_index: usize) -> (r: Option<&SerialSession>)
        ensures
            r is Some == (pane_index < self@.panes.pane_to_session.len()
                && self@.panes.pane_to_session[pane_index as int] < self@.sessions.sessions.len()),
            r matches Some(session) ==> session@
                == self@.sessions.sessions[self@.panes.pane_to_session[pane_index as int] as int],
            self.wf() && pane_index < self@.panes.pane_to_session.len() ==> r is Some,
    {
        match self.panes.session_for_pane(pane_index) {
            Some(session_idx) => self.sessions.get_session(session_idx),
            None => None,
        }
    }

    /// The session shown in pane `pane_index`, for changes.
    pub fn session_for_pane_mut(&mut self, pane_index: usize) -> (r: Option<&mut SerialSession>)
        ensures
            r is Some == (pane_index < old(self)@.panes.pane_to_session.len() && old(
                self,
            )@.panes.pane_to_session[pane_index as int] < old(self)@.sessions.sessions.len()),
            r matches Some(session) ==> {
                let index = old(self)@.panes.pane_to_session[pane_index as int] as int;
                &&& *session == old(self).store().items()[index]
                &&& final(self).store().items() == old(self).store().items().update(
                    index,
                    *final(session),
                )
                &&& final(self).registry() == old(self).registry()
                &&& (*session)@ == old(self)@.sessions.sessions[index]
                &&& final(self)@ == (TabsView {
                    sessions: SessionStoreView {
                        sessions: old(self)@.sessions.sessions.update(index, final(session)@),
                        ..old(self)@.sessions
                    },
                    ..old(self)@
                })
            },
            r is None ==> final(self).store().items() == old(self).store().items(),
            r is None ==> final(self)@ == old(self)@,
    {
        match self.panes.session_for_pane(pane_index) {
            Some(session_idx) => self.sessions.get_session_mut(session_idx),
            None => None,
        }
    }

    /// Whether pane `pane_index` has the focus.
    pub fn is_pane_focused(&self, pane_index: usize) -> (r: bool)
        ensures
            r == (self@.panes.focused_pane == pane_index),
    {
        self.panes.is_pane_focused(pane_index)
    }
}

impl Default for TabsManager {
    fn default() -> (r: TabsManager)
        ensures
            r@ == (TabsView {
                sessions: SessionStoreView::initial(),
                panes: PaneView {
                    layout_mode: LayoutMode::Single,
                    pane_to_session: seq![0usize],
                    focused_pane: 0,
                },
                show_tabs: true,
                show_layout_controls: true,
            }),
            r.wf(),
    {
        TabsManager::new()
    }
}

/// Filling the store up to `count` sessions leaves the sessions that were
/// there where they were and as they were, and the active index as it was.
/// Afterwards the store holds `count` sessions, or as many as before if
/// these were more, and each new session is named after its index.
pub proof fn lemma_fill_keeps_sessions(store: SessionStoreView, count: nat)
    ensures
        filled_up_to(store, count).sessions.len() == if store.sessions.len() >= count {
            store.sessions.len()
        } else {
            count
        },
        filled_up_to(store, count).active_index == store.active_index,
        forall|i: int|
            0 <= i < store.sessions.len() ==> #[trigger] filled_up_to(store, count).sessions[i]
                == store.sessions[i],
        forall|i: int|
            store.sessions.len() <= i < count ==> (#[trigger] filled_up_to(
                store,
                count,
            ).sessions[i]).name == pane_session_name(i as nat),
    decreases count - store.sessions.len(),
{
    if store.sessions.len() < count {
        let session = SessionView::initial(store.next_id, pane_session_name(store.sessions.len()));
        let next = store.appended(session);
        lemma_fill_keeps_sessions(next, count);
        let filled = filled_up_to(store, count);
        assert(filled == filled_up_to(next, count));
        assert forall|i: int| 0 <= i < store.sessions.len() implies #[trigger] filled.sessions[i]
            == store.sessions[i] by {
            assert(next.sessions[i] == store.sessions[i]);
        }
        assert forall|i: int| store.sessions.len() <= i < count implies (
        #[trigger] filled.sessions[i]).name == pane_session_name(i as nat) by {
            if i == store.sessions.len() {
                assert(next.sessions[i] == session);
            }
        }
    }
}

/// After a layout change through the controller, the registry has exactly
/// the panes of the new mode and every pane shows a session that exists.
pub proof fn lemma_layout_change(state: TabsView, mode: LayoutMode)
    requires
        state.wf(),
        state.sessions.next_id + missing_sessions(state.sessions, mode.max_panes_spec())
            <= usize::MAX,
    ensures
        state.with_layout(mode).wf(),
        state.with_layout(mode).panes.pane_to_session.len() == mode.max_panes_spec(),
        state.with_layout(mode).panes.sessions_below(
            state.with_layout(mode).sessions.sessions.len(),
        ),
{
    lemma_filled_up_to(state.sessions, mode.max_panes_spec());
    let after = state.with_layout(mode);
    assert forall|p: int| 0 <= p < after.panes.pane_to_session.len() implies (
    #[trigger] after.panes.pane_to_session[p]) < after.sessions.sessions.len() by {
        if p < state.panes.pane_to_session.len() {
            assert(after.panes.pane_to_session[p] == state.panes.pane_to_session[p]);
        }
    }
}

} // verus!
