//! Sessions and the session store.
//!
//! A session is one serial-port monitoring context: its configuration, its
//! log, its connection state and what the user has typed. The store owns
//! the sessions in order and knows which one is active.

use crate::config::{SerialConfig, SerialConfigView};
use crate::log::{MessageLog, MessageLogView};
use crate::notification::{Notification, NotificationLevel, NotificationView};
use crate::selection::{
    first_position, position_of_flow_control, position_of_parity, position_of_u32,
    position_of_u8, ListSelection,
};
use crate::text::{decimal, decimal_string};
use crate::types::{AppendMode, DisplayMode, FlowControl, FocusedField, Parity, TxMode};
use std::collections::VecDeque;
use vstd::prelude::*;

verus! {

/// A session as plain values.
pub struct SessionView {
    pub id: usize,
    pub name: Seq<char>,
    pub config: SerialConfigView,
    pub message_log: MessageLogView,
    pub display_mode: DisplayMode,
    pub is_connected: bool,
    pub config_locked: bool,
    pub scroll_offset: u16,
    pub auto_scroll: bool,
    pub tx_input: Seq<char>,
    pub tx_mode: TxMode,
    pub tx_append_mode: AppendMode,
    pub tx_cursor: usize,
    pub port_list_state: ListSelection,
    pub baud_rate_state: ListSelection,
    pub parity_state: ListSelection,
    pub flow_control_state: ListSelection,
    pub data_bits_state: ListSelection,
    pub stop_bits_state: ListSelection,
    pub append_mode_state: ListSelection,
    pub focused_field: FocusedField,
    pub notifications: Seq<NotificationView>,
}

/// The selection that starts at the top of its list with item `index`
/// selected.
pub open spec fn selection_at(index: usize) -> ListSelection {
    ListSelection { offset: 0, selected: Some(index) }
}

/// The notification that `level` and `message` make.
pub open spec fn note(level: NotificationLevel, message: Seq<char>) -> NotificationView {
    NotificationView { message, level, duration_ms: 3000 }
}

/// `after` starts with the items of `before`, each as it was; what follows
/// them was added since.
pub open spec fn starts_with<T>(after: Seq<T>, before: Seq<T>) -> bool {
    &&& before.len() <= after.len()
    &&& forall|i: int| 0 <= i < before.len() ==> #[trigger] after[i] == before[i]
}

/// `tail` is what is left of `queue` when some of its first items are gone.
pub open spec fn is_tail_of<T>(tail: Seq<T>, queue: Seq<T>) -> bool {
    exists|k: int| 0 <= k <= queue.len() && tail == #[trigger] queue.skip(k)
}

/// The selection of a list once the list was searched for the configured
/// value: the position found is selected, and nothing changes if the value
/// is not in the list.
pub open spec fn synced_selection<T>(
    selection: ListSelection,
    options: Seq<T>,
    value: T,
) -> ListSelection {
    match first_position(options, value) {
        Some(i) => selection.after_select(Some(i as usize)),
        None => selection,
    }
}

impl SessionView {
    /// The session that `id` and `name` start with: the initial
    /// configuration, an empty log, disconnected and unlocked, hexadecimal
    /// display, plain-text input with nothing appended, the focus on the
    /// port, every list on its default item and no notifications.
    pub open spec fn initial(id: usize, name: Seq<char>) -> SessionView {
        SessionView {
            id,
            name,
            config: SerialConfigView::initial(),
            message_log: MessageLogView::empty(),
            display_mode: DisplayMode::Hex,
            is_connected: false,
            config_locked: false,
            scroll_offset: 0,
            auto_scroll: true,
            tx_input: Seq::empty(),
            tx_mode: TxMode::Ascii,
            tx_append_mode: AppendMode::Nothing,
            tx_cursor: 0,
            port_list_state: selection_at(0),
            baud_rate_state: selection_at(4),
            parity_state: selection_at(0),
            flow_control_state: selection_at(0),
            data_bits_state: selection_at(3),
            stop_bits_state: selection_at(0),
            append_mode_state: selection_at(0),
            focused_field: FocusedField::Port,
            notifications: Seq::empty(),
        }
    }

    /// The session with `notification` at the end of its queue.
    pub open spec fn notified(self, notification: NotificationView) -> SessionView {
        SessionView { notifications: self.notifications.push(notification), ..self }
    }

    /// The copy that duplicating this session makes under the identifier
    /// `id`: the name gets the suffix ` (Copy)`, the log is empty, the copy
    /// is disconnected and unlocked, and everything else is as in the
    /// session copied.
    pub open spec fn duplicate(self, id: usize) -> SessionView {
        SessionView {
            id,
            name: self.name + " (Copy)"@,
            is_connected: false,
            config_locked: false,
            message_log: MessageLogView::empty(),
            ..self
        }
    }
}

/// One serial-port monitoring context.
#[derive(Debug)]
pub struct SerialSession {
    /// Identifier, unique over the lifetime of the store.
    pub id: usize,
    /// Display name.
    pub name: String,
    /// Serial parameters.
    pub config: SerialConfig,
    /// What was received and transmitted.
    pub message_log: MessageLog,
    /// How the log is rendered.
    pub display_mode: DisplayMode,
    /// Whether the port is open.
    pub is_connected: bool,
    /// Whether the serial parameters are frozen; true while connected.
    pub config_locked: bool,
    pub scroll_offset: u16,
    pub auto_scroll: bool,
    /// Text awaiting transmission.
    pub tx_input: String,
    pub tx_mode: TxMode,
    pub tx_append_mode: AppendMode,
    /// Cursor in `tx_input`, counted in characters.
    pub tx_cursor: usize,
    pub port_list_state: ListSelection,
    pub baud_rate_state: ListSelection,
    pub parity_state: ListSelection,
    pub flow_control_state: ListSelection,
    pub data_bits_state: ListSelection,
    pub stop_bits_state: ListSelection,
    pub append_mode_state: ListSelection,
    /// The widget that has the keyboard focus.
    pub focused_field: FocusedField,
    /// Messages for the user, oldest first.
    pub notifications: VecDeque<Notification>,
}

impl View for SerialSession {
    type V = SessionView;

    open spec fn view(&self) -> SessionView {
        SessionView {
            id: self.id,
            name: self.name@,
            config: self.config@,
            message_log: self.message_log@,
            display_mode: self.display_mode,
            is_connected: self.is_connected,
            config_locked: self.config_locked,
            scroll_offset: self.scroll_offset,
            auto_scroll: self.auto_scroll,
            tx_input: self.tx_input@,
            tx_mode: self.tx_mode,
            tx_append_mode: self.tx_append_mode,
            tx_cursor: self.tx_cursor,
            port_list_state: self.port_list_state,
            baud_rate_state: self.baud_rate_state,
            parity_state: self.parity_state,
            flow_control_state: self.flow_control_state,
            data_bits_state: self.data_bits_state,
            stop_bits_state: self.stop_bits_state,
            append_mode_state: self.append_mode_state,
            focused_field: self.focused_field,
            notifications: self.notifications@.map_values(|n: Notification| n@),
        }
    }
}

/// A copy of the queue: every notification with its creation time.
fn copy_notifications(queue: &VecDeque<Notification>) -> (r: VecDeque<Notification>)
    ensures
        r@ == queue@,
        r@.map_values(|n: Notification| n@) == queue@.map_values(|n: Notification| n@),
{
    let mut r: VecDeque<Notification> = VecDeque::new();
    let mut i: usize = 0;
    while i < queue.len()
        invariant
            i <= queue@.len(),
            r@.len() == i,
            forall|j: int| 0 <= j < i ==> #[trigger] r@[j] == queue@[j],
        decreases queue@.len() - i,
    {
        r.push_back(queue[i].clone());
        i += 1;
    }
    assert(r@ =~= queue@);
    r
}

impl Clone for SerialSession {
    fn clone(&self) -> (r: SerialSession)
        ensures
            r@ == self@,
            r.notifications@ == self.notifications@,
    {
        SerialSession {
            id: self.id,
            name: self.name.clone(),
            config: self.config.clone(),
            message_log: self.message_log.clone(),
            display_mode: self.display_mode,
            is_connected: self.is_connected,
            config_locked: self.config_locked,
            scroll_offset: self.scroll_offset,
            auto_scroll: self.auto_scroll,
            port_list_state: self.port_list_state,
            baud_rate_state: self.baud_rate_state,
            parity_state: self.parity_state,
            flow_control_state: self.flow_control_state,
            data_bits_state: self.data_bits_state,
            stop_bits_state: self.stop_bits_state,
            tx_input: self.tx_input.clone(),
            tx_mode: self.tx_mode,
            tx_append_mode: self.tx_append_mode,
            tx_cursor: self.tx_cursor,
            append_mode_state: self.append_mode_state,
            focused_field: self.focused_field,
            notifications: copy_notifications(&self.notifications),
        }
    }
}

impl SerialSession {
    /// A fresh session.
    pub fn new(id: usize, name: String) -> (r: SerialSession)
        ensures
            r@ == SessionView::initial(id, name@),
    {
        let r = SerialSession {
            id,
            name,
            config: SerialConfig::default(),
            message_log: MessageLog::new(),
            display_mode: DisplayMode::Hex,
            is_connected: false,
            config_locked: false,
            scroll_offset: 0,
            auto_scroll: true,
            port_list_state: ListSelection::starting_at(Some(0)),
            baud_rate_state: ListSelection::starting_at(Some(4)),
            parity_state: ListSelection::starting_at(Some(0)),
            flow_control_state: ListSelection::starting_at(Some(0)),
            data_bits_state: ListSelection::starting_at(Some(3)),
            stop_bits_state: ListSelection::starting_at(Some(0)),
            tx_input: String::new(),
            tx_mode: TxMode::Ascii,
            tx_append_mode: AppendMode::Nothing,
            tx_cursor: 0,
            append_mode_state: ListSelection::starting_at(Some(0)),
            focused_field: FocusedField::Port,
            notifications: VecDeque::new(),
        };
        assert(r@.notifications =~= Seq::empty());
        r
    }

    /// A fresh session on the given port.
    pub fn with_port(id: usize, name: String, port: String) -> (r: SerialSession)
        ensures
            r@ == (SessionView {
                config: SerialConfigView { port: port@, ..SerialConfigView::initial() },
                ..SessionView::initial(id, name@)
            }),
    {
        let mut session = SerialSession::new(id, name);
        session.config.port = port;
        session
    }

    /// The copy of this session under a new identifier: see
    /// [`SessionView::duplicate`].
    pub fn duplicate(&self, id: usize) -> (r: SerialSession)
        ensures
            r@ == self@.duplicate(id),
            r.notifications@ == self.notifications@,
    {
        let mut name = self.name.clone();
        name.append(" (Copy)");
        SerialSession {
            id,
            name,
            config: self.config.clone(),
            message_log: MessageLog::new(),
            display_mode: self.display_mode,
            is_connected: false,
            config_locked: false,
            scroll_offset: self.scroll_offset,
            auto_scroll: self.auto_scroll,
            port_list_state: self.port_list_state,
            baud_rate_state: self.baud_rate_state,
            parity_state: self.parity_state,
            flow_control_state: self.flow_control_state,
            data_bits_state: self.data_bits_state,
            stop_bits_state: self.stop_bits_state,
            tx_input: self.tx_input.clone(),
            tx_mode: self.tx_mode,
            tx_append_mode: self.tx_append_mode,
            tx_cursor: self.tx_cursor,
            append_mode_state: self.append_mode_state,
            focused_field: self.focused_field,
            notifications: copy_notifications(&self.notifications),
        }
    }

    /// Freezes the serial parameters; done when connecting.
    pub fn lock_config(&mut self)
        ensures
            final(self)@ == (SessionView { config_locked: true, ..old(self)@ }),
            final(self).notifications@ == old(self).notifications@,
    {
        self.config_locked = true;
    }

    /// Releases the serial parameters; done when disconnecting.
    pub fn unlock_config(&mut self)
        ensures
            final(self)@ == (SessionView { config_locked: false, ..old(self)@ }),
            final(self).notifications@ == old(self).notifications@,
    {
        self.config_locked = false;
    }

    /// Whether the serial parameters may be changed.
    pub fn can_modify_config(&self) -> (r: bool)
        ensures
            r == !self@.config_locked,
    {
        !self.config_locked
    }

    /// Queues a notification behind the ones already waiting.
    pub fn add_notification(&mut self, notification: Notification)
        ensures
            final(self)@ == old(self)@.notified(notification@),
            final(self).notifications@ == old(self).notifications@.push(notification),
    {
        self.notifications.push_back(notification);
        assert(self@.notifications =~= old(self)@.notifications.push(notification@));
    }

    /// Queues an informational notification.
    pub fn add_info(&mut self, msg: &str)
        ensures
            final(self)@ == old(self)@.notified(note(NotificationLevel::Info, msg@)),
            final(self).notifications@.len() == old(self).notifications@.len() + 1,
            starts_with(final(self).notifications@, old(self).notifications@),
    {
        self.add_notification(Notification::info(String::from_str(msg)));
    }

    /// Queues a warning.
    pub fn add_warning(&mut self, msg: &str)
        ensures
            final(self)@ == old(self)@.notified(note(NotificationLevel::Warning, msg@)),
            final(self).notifications@.len() == old(self).notifications@.len() + 1,
            starts_with(final(self).notifications@, old(self).notifications@),
    {
        self.add_notification(Notification::warning(String::from_str(msg)));
    }

    /// Queues an error notification.
    pub fn add_error(&mut self, msg: &str)
        ensures
            final(self)@ == old(self)@.notified(note(NotificationLevel::Error, msg@)),
            final(self).notifications@.len() == old(self).notifications@.len() + 1,
            starts_with(final(self).notifications@, old(self).notifications@),
    {
        self.add_notification(Notification::error(String::from_str(msg)));
    }

    /// Queues a success notification.
    pub fn add_success(&mut self, msg: &str)
        ensures
            final(self)@ == old(self)@.notified(note(NotificationLevel::Success, msg@)),
            final(self).notifications@.len() == old(self).notifications@.len() + 1,
            starts_with(final(self).notifications@, old(self).notifications@),
    {
        self.add_notification(Notification::success(String::from_str(msg)));
    }

    /// Drops expired notifications from the front of the queue, up to the
    /// first one that has not expired.
    ///
    /// Which ones have expired depends on the clock. Whatever it says, a
    /// tail of the queue is left and nothing else changes.
    pub fn update_notifications(&mut self)
        ensures
            is_tail_of(final(self)@.notifications, old(self)@.notifications),
            final(self)@ == (SessionView {
                notifications: final(self)@.notifications,
                ..old(self)@
            }),
            is_tail_of(final(self).notifications@, old(self).notifications@),
    {
        let ghost mut dropped: int = 0;
        assert(self@.notifications =~= old(self)@.notifications.skip(0));
        assert(self.notifications@ =~= old(self).notifications@.skip(0));
        while self.notifications.len() > 0
            invariant
                0 <= dropped <= old(self)@.notifications.len(),
                self@ == (SessionView {
                    notifications: old(self)@.notifications.skip(dropped),
                    ..old(self)@
                }),
                self.notifications@ == old(self).notifications@.skip(dropped),
            decreases self.notifications@.len(),
        {
            let expired = self.notifications[0].is_expired();
            if !expired {
                break ;
            }
            let ghost before = self@.notifications;
            let ghost queued = self.notifications@;
            let _ = self.notifications.pop_front();
            proof {
                assert(self@.notifications =~= before.skip(1));
                assert(before.skip(1) =~= old(self)@.notifications.skip(dropped + 1));
                assert(self.notifications@ =~= queued.skip(1));
                assert(queued.skip(1) =~= old(self).notifications@.skip(dropped + 1));
                dropped = dropped + 1;
            }
        }
    }

    /// Brings the list selections in line with the configuration: in each
    /// list of options, the position of the configured value is selected.
    /// A list that does not hold the configured value keeps its selection.
    pub fn update_ui_states(
        &mut self,
        baud_rate_options: &[u32],
        parity_options: &[Parity],
        flow_control_options: &[FlowControl],
        data_bits_options: &[u8],
        stop_bits_options: &[u8],
    )
        ensures
            final(self)@ == (SessionView {
                baud_rate_state: synced_selection(
                    old(self)@.baud_rate_state,
                    baud_rate_options@,
                    old(self)@.config.baud_rate,
                ),
                parity_state: synced_selection(
                    old(self)@.parity_state,
                    parity_options@,
                    old(self)@.config.parity,
                ),
                flow_control_state: synced_selection(
                    old(self)@.flow_control_state,
                    flow_control_options@,
                    old(self)@.config.flow_control,
                ),
                data_bits_state: synced_selection(
                    old(self)@.data_bits_state,
                    data_bits_options@,
                    old(self)@.config.data_bits,
                ),
                stop_bits_state: synced_selection(
                    old(self)@.stop_bits_state,
                    stop_bits_options@,
                    old(self)@.config.stop_bits,
                ),
                ..old(self)@
            }),
            final(self).notifications@ == old(self).notifications@,
    {
        if let Some(idx) = position_of_u32(baud_rate_options, self.config.baud_rate) {
            self.baud_rate_state.select(Some(idx));
        }
        if let Some(idx) = position_of_parity(parity_options, self.config.parity) {
            self.parity_state.select(Some(idx));
        }
        if let Some(idx) = position_of_flow_control(flow_control_options, self.config.flow_control) {
            self.flow_control_state.select(Some(idx));
        }
        if let Some(idx) = position_of_u8(data_bits_options, self.config.data_bits) {
            self.data_bits_state.select(Some(idx));
        }
        if let Some(idx) = position_of_u8(stop_bits_options, self.config.stop_bits) {
            self.stop_bits_state.select(Some(idx));
        }
    }

    /// Switches the log between hexadecimal and text rendering.
    pub fn toggle_display_mode(&mut self)
        ensures
            final(self)@ == (SessionView {
                display_mode: old(self)@.display_mode.toggled_spec(),
                ..old(self)@
            }),
            final(self).notifications@ == old(self).notifications@,
    {
        self.display_mode = self.display_mode.toggled();
    }

    /// Switches the input between hexadecimal and plain text.
    pub fn toggle_tx_mode(&mut self)
        ensures
            final(self)@ == (SessionView {
                tx_mode: old(self)@.tx_mode.toggled_spec(),
                ..old(self)@
            }),
            final(self).notifications@ == old(self).notifications@,
    {
        self.tx_mode = self.tx_mode.toggled();
    }

    /// Moves the focus to the next field of the ring.
    pub fn focus_next_field(&mut self)
        ensures
            final(self)@ == (SessionView {
                focused_field: old(self)@.focused_field.next_spec(),
                ..old(self)@
            }),
            final(self).notifications@ == old(self).notifications@,
    {
        self.focused_field = self.focused_field.next();
    }

    /// Moves the focus to the previous field of the ring.
    pub fn focus_prev_field(&mut self)
        ensures
            final(self)@ == (SessionView {
                focused_field: old(self)@.focused_field.prev_spec(),
                ..old(self)@
            }),
            final(self).notifications@ == old(self).notifications@,
    {
        self.focused_field = self.focused_field.prev();
    }
}

/// A session store as plain values.
pub struct SessionStoreView {
    /// The sessions, in order.
    pub sessions: Seq<SessionView>,
    /// Index of the active session.
    pub active_index: usize,
    /// The identifier that the next new session gets.
    pub next_id: usize,
}

/// The name that a session created under `id` gets when none is given.
pub open spec fn default_session_name(id: usize) -> Seq<char> {
    "Session "@ + decimal((id + 1) as nat)
}

/// The name that a session created under `id` on `port` gets when none is
/// given.
pub open spec fn default_port_session_name(id: usize, port: Seq<char>) -> Seq<char> {
    "Session "@ + decimal((id + 1) as nat) + " - "@ + port
}

/// The given name, or else the default.
pub open spec fn name_or(name: Option<String>, default_name: Seq<char>) -> Seq<char> {
    match name {
        Some(n) => n@,
        None => default_name,
    }
}

impl SessionStoreView {
    /// The store is valid: it holds a session, the active index points at
    /// one, and the identifiers are all different and all below the next
    /// identifier.
    pub open spec fn wf(self) -> bool {
        &&& self.sessions.len() >= 1
        &&& self.active_index < self.sessions.len()
        &&& forall|i: int|
            0 <= i < self.sessions.len() ==> (#[trigger] self.sessions[i]).id < self.next_id
        &&& forall|i: int, j: int|
            0 <= i < j < self.sessions.len() ==> (#[trigger] self.sessions[i]).id != (
            #[trigger] self.sessions[j]).id
    }

    /// The store that a new program starts with: the one session
    /// `Session 1` with identifier 0, which is active.
    pub open spec fn initial() -> SessionStoreView {
        SessionStoreView {
            sessions: seq![SessionView::initial(0, "Session 1"@)],
            active_index: 0,
            next_id: 1,
        }
    }

    /// The store with `session` appended under the next identifier.
    pub open spec fn appended(self, session: SessionView) -> SessionStoreView {
        SessionStoreView {
            sessions: self.sessions.push(session),
            active_index: self.active_index,
            next_id: (self.next_id + 1) as usize,
        }
    }

    /// Whether the session at `index` may be removed: it exists and is not
    /// the only one.
    pub open spec fn can_remove(self, index: usize) -> bool {
        self.sessions.len() > 1 && index < self.sessions.len()
    }

    /// The active index after the session at `index` was removed. If the
    /// active session itself was removed, the session that took its place
    /// is active, or the last one if there is none. An active session
    /// behind the removed one moves down by one with its session.
    pub open spec fn active_after_remove(self, index: usize) -> usize {
        let new_len = self.sessions.len() - 1;
        if self.active_index == index {
            if index <= new_len - 1 {
                index
            } else {
                (new_len - 1) as usize
            }
        } else if self.active_index > index {
            (self.active_index - 1) as usize
        } else {
            self.active_index
        }
    }

    /// The store without the session at `index`.
    pub open spec fn removed(self, index: usize) -> SessionStoreView {
        SessionStoreView {
            sessions: self.sessions.remove(index as int),
            active_index: self.active_after_remove(index),
            next_id: self.next_id,
        }
    }
}

/// The ordered collection of sessions, one of which is active.
pub struct SessionManager {
    sessions: Vec<SerialSession>,
    active_session: usize,
    next_id: usize,
}

impl View for SessionManager {
    type V = SessionStoreView;

    closed spec fn view(&self) -> SessionStoreView {
        SessionStoreView {
            sessions: self.sessions@.map_values(|s: SerialSession| s@),
            active_index: self.active_session,
            next_id: self.next_id,
        }
    }
}

impl SessionManager {
    /// The store is valid: see [`SessionStoreView::wf`].
    pub open spec fn wf(&self) -> bool {
        self@.wf()
    }

    /// The sessions themselves, of which the view shows the plain values.
    pub closed spec fn items(&self) -> Seq<SerialSession> {
        self.sessions@
    }

    /// The view shows the sessions one by one.
    pub proof fn lemma_items(&self)
        ensures
            self@.sessions == self.items().map_values(|s: SerialSession| s@),
            self@.sessions.len() == self.items().len(),
    {
    }

    /// A store with one fresh session, `Session 1`, which is active.
    pub fn new() -> (r: SessionManager)
        ensures
            r@ == SessionStoreView::initial(),
            r.wf(),
    {
        let mut sessions: Vec<SerialSession> = Vec::new();
        sessions.push(SerialSession::new(0, String::from_str("Session 1")));
        let r = SessionManager { sessions, active_session: 0, next_id: 1 };
        assert(r@.sessions =~= seq![SessionView::initial(0, "Session 1"@)]);
        r
    }

    /// Number of sessions.
    pub fn len(&self) -> (n: usize)
        ensures
            n == self@.sessions.len(),
    {
        self.sessions.len()
    }

    /// Whether the store holds no session. A valid store always holds one.
    pub fn is_empty(&self) -> (r: bool)
        ensures
            r == (self@.sessions.len() == 0),
            self.wf() ==> !r,
    {
        self.sessions.len() == 0
    }

    /// Whether the store is valid, for callers that changed sessions
    /// through a mutable reference.
    pub fn is_valid(&self) -> (r: bool)
        ensures
            r == self.wf(),
    {
        let n = self.sessions.len();
        if n < 1 || self.active_session >= n {
            return false;
        }
        let ghost views = self@.sessions;
        let mut i: usize = 0;
        while i < n
            invariant
                i <= n,
                n == self.sessions@.len(),
                views == self@.sessions,
                views.len() == n,
                forall|a: int| 0 <= a < i ==> (#[trigger] views[a]).id < self.next_id,
                forall|a: int, b: int|
                    0 <= a < b < n && a < i ==> (#[trigger] views[a]).id != (#[trigger] views[b]).id,
            decreases n - i,
        {
            let id = self.sessions[i].id;
            assert(views[i as int].id == id);
            if id >= self.next_id {
                return false;
            }
            let mut j: usize = i + 1;
            while j < n
                invariant
                    i < j <= n,
                    n == self.sessions@.len(),
                    views == self@.sessions,
                    views.len() == n,
                    views[i as int].id == id,
                    forall|b: int| i < b < j ==> id != (#[trigger] views[b]).id,
                decreases n - j,
            {
                assert(views[j as int].id == self.sessions@[j as int].id);
                if self.sessions[j].id == id {
                    return false;
                }
                j += 1;
            }
            i += 1;
        }
        true
    }

    /// The identifier that the next new session gets.
    pub fn next_id(&self) -> (id: usize)
        ensures
            id == self@.next_id,
    {
        self.next_id
    }

    /// The active session.
    pub fn active_session(&self) -> (r: &SerialSession)
        requires
            self.wf(),
        ensures
            r@ == self@.sessions[self@.active_index as int],
            *r == self.items()[self@.active_index as int],
    {
        &self.sessions[self.active_session]
    }

    /// The active session, for changes.
    pub fn active_session_mut(&mut self) -> (r: &mut SerialSession)
        requires
            old(self).wf(),
        ensures
            *r == old(self).items()[old(self)@.active_index as int],
            (*r)@ == old(self)@.sessions[old(self)@.active_index as int],
            final(self).items() == old(self).items().update(
                old(self)@.active_index as int,
                *final(r),
            ),
            final(self)@ == (SessionStoreView {
                sessions: old(self)@.sessions.update(
                    old(self)@.active_index as int,
                    final(r)@,
                ),
                ..old(self)@
            }),
    {
        let ghost before = self.sessions@;
        let ghost at = self.active_session as int;
        let r = &mut self.sessions[self.active_session];
        proof {
            let after = before.update(at, *final(r));
            assert(after.map_values(|s: SerialSession| s@) =~= before.map_values(
                |s: SerialSession| s@,
            ).update(at, final(r)@));
        }
        r
    }

    /// Index of the active session.
    pub fn active_index(&self) -> (i: usize)
        ensures
            i == self@.active_index,
    {
        self.active_session
    }

    /// The session at `index`, if there is one.
    pub fn get_session(&self, index: usize) -> (r: Option<&SerialSession>)
        ensures
            r is Some == (index < self@.sessions.len()),
            r matches Some(session) ==> session@ == self@.sessions[index as int] && *session
                == self.items()[index as int],
    {
        if index < self.sessions.len() {
            Some(&self.sessions[index])
        } else {
            None
        }
    }

    /// The session at `index`, if there is one, for changes.
    pub fn get_session_mut(&mut self, index: usize) -> (r: Option<&mut SerialSession>)
        ensures
            r is Some == (index < old(self)@.sessions.len()),
            r matches Some(session) ==> {
                &&& *session == old(self).items()[index as int]
                &&& (*session)@ == old(self)@.sessions[index as int]
                &&& final(self).items() == old(self).items().update(index as int, *final(session))
                &&& final(self)@ == (SessionStoreView {
                    sessions: old(self)@.sessions.update(index as int, final(session)@),
                    ..old(self)@
                })
            },
            r is None ==> final(self)@ == old(self)@ && final(self).items() == old(self).items(),
    {
        if index < self.sessions.len() {
            let ghost before = self.sessions@;
            let r = &mut self.sessions[index];
            proof {
                let after = before.update(index as int, *final(r));
                assert(after.map_values(|s: SerialSession| s@) =~= before.map_values(
                    |s: SerialSession| s@,
                ).update(index as int, final(r)@));
            }
            Some(r)
        } else {
            None
        }
    }

    /// All sessions, in order.
    pub fn sessions(&self) -> (r: &[SerialSession])
        ensures
            r@ == self.items(),
            r@.map_values(|s: SerialSession| s@) == self@.sessions,
    {
        self.sessions.as_slice()
    }

    /// All sessions, in order, for changes.
    pub fn sessions_mut(&mut self) -> (r: &mut [SerialSession])
        ensures
            r@ == old(self).items(),
            final(self).items() == final(r)@,
            final(self)@ == (SessionStoreView {
                sessions: final(r)@.map_values(|s: SerialSession| s@),
                ..old(self)@
            }),
    {
        self.sessions.as_mut_slice()
    }

    /// Appends a fresh session under the next identifier and returns its
    /// index. Without a name it is called `Session N`, where N is its
    /// identifier plus one. The active session stays the same.
    pub fn add_session(&mut self, name: Option<String>) -> (index: usize)
        requires
            old(self)@.next_id < usize::MAX,
        ensures
            index == old(self)@.sessions.len(),
            final(self)@ == old(self)@.appended(
                SessionView::initial(
                    old(self)@.next_id,
                    name_or(name, default_session_name(old(self)@.next_id)),
                ),
            ),
            old(self).wf() ==> final(self).wf(),
            starts_with(final(self).items(), old(self).items()),
    {
        let id = self.next_id;
        self.next_id += 1;

        let name = match name {
            Some(n) => n,
            None => {
                let mut n = String::from_str("Session ");
                n.append(decimal_string((id + 1) as u64).as_str());
                n
            },
        };
        let session = SerialSession::new(id, name);

        self.sessions.push(session);
        proof {
            assert(self@.sessions =~= old(self)@.sessions.push(session@));
        }
        self.sessions.len() - 1
    }

    /// Appends a fresh session on `port` under the next identifier and
    /// returns its index. Without a name it is called `Session N - port`.
    pub fn add_session_with_port(&mut self, port: String, name: Option<String>) -> (index: usize)
        requires
            old(self)@.next_id < usize::MAX,
        ensures
            index == old(self)@.sessions.len(),
            final(self)@ == old(self)@.appended(
                SessionView {
                    config: SerialConfigView { port: port@, ..SerialConfigView::initial() },
                    ..SessionView::initial(
                        old(self)@.next_id,
                        name_or(name, default_port_session_name(old(self)@.next_id, port@)),
                    )
                },
            ),
            old(self).wf() ==> final(self).wf(),
            starts_with(final(self).items(), old(self).items()),
    {
        let id = self.next_id;
        self.next_id += 1;

        let name = match name {
            Some(n) => n,
            None => {
                let mut n = String::from_str("Session ");
                n.append(decimal_string((id + 1) as u64).as_str());
                n.append(" - ");
                n.append(port.as_str());
                n
            },
        };
        let session = SerialSession::with_port(id, name, port);

        self.sessions.push(session);
        proof {
            assert(self@.sessions =~= old(self)@.sessions.push(session@));
        }
        self.sessions.len() - 1
    }

    /// Removes the session at `index` and returns it. Refused, with no
    /// change, if there is no such session or if it is the only one.
    pub fn remove_session(&mut self, index: usize) -> (r: Option<SerialSession>)
        requires
            old(self).wf(),
        ensures
            r is Some == old(self)@.can_remove(index),
            r matches Some(session) ==> session == old(self).items()[index as int]
                && final(self)@ == old(self)@.removed(index),
            r is None ==> final(self)@ == old(self)@ && final(self).items() == old(self).items(),
            final(self).wf(),
            r is Some ==> final(self).items() == old(self).items().remove(index as int),
    {
        if self.sessions.len() <= 1 {
            return None;
        }
        if index >= self.sessions.len() {
            return None;
        }
        let session = self.sessions.remove(index);
        proof {
            assert(self@.sessions =~= old(self)@.sessions.remove(index as int));
        }

        if self.active_session >= self.sessions.len() {
            self.active_session = self.sessions.len() - 1;
        } else if self.active_session > index {
            self.active_session -= 1;
        }
        proof {
            let before = old(self)@.sessions;
            let after = self@.sessions;
            assert forall|i: int| 0 <= i < after.len() implies (#[trigger] after[i]).id
                < self@.next_id by {
                if i < index {
                    assert(after[i] == before[i]);
                } else {
                    assert(after[i] == before[i + 1]);
                }
            }
            assert forall|i: int, j: int| 0 <= i < j < after.len() implies (#[trigger] after[i]).id
                != (#[trigger] after[j]).id by {
                let bi = if i < index { i } else { i + 1 };
                let bj = if j < index { j } else { j + 1 };
                assert(after[i] == before[bi]);
                assert(after[j] == before[bj]);
            }
        }
        Some(session)
    }

    /// Makes the session at `index` the active one. Refused, with no
    /// change, if there is no such session.
    pub fn switch_to(&mut self, index: usize) -> (ok: bool)
        ensures
            ok == (index < old(self)@.sessions.len()),
            ok ==> final(self)@ == (SessionStoreView { active_index: index, ..old(self)@ }),
            !ok ==> final(self)@ == old(self)@,
            final(self).items() == old(self).items(),
            old(self).wf() ==> final(self).wf(),
    {
        if index < self.sessions.len() {
            self.active_session = index;
            true
        } else {
            false
        }
    }

    /// Makes the next session the active one, the first after the last.
    pub fn next_session(&mut self)
        requires
            old(self).wf(),
        ensures
            final(self)@ == (SessionStoreView {
                active_index: ((old(self)@.active_index + 1) % (
                old(self)@.sessions.len() as int)) as usize,
                ..old(self)@
            }),
            final(self).items() == old(self).items(),
            final(self).wf(),
    {
        if self.sessions.len() > 0 {
            self.active_session = (self.active_session + 1) % self.sessions.len();
        }
    }

    /// Makes the previous session the active one, the last before the
    /// first.
    pub fn prev_session(&mut self)
        requires
            old(self).wf(),
        ensures
            final(self)@ == (SessionStoreView {
                active_index: if old(self)@.active_index == 0 {
                    (old(self)@.sessions.len() - 1) as usize
                } else {
                    (old(self)@.active_index - 1) as usize
                },
                ..old(self)@
            }),
            final(self).items() == old(self).items(),
            final(self).wf(),
    {
        if self.sessions.len() > 0 {
            if self.active_session == 0 {
                self.active_session = self.sessions.len() - 1;
            } else {
                self.active_session -= 1;
            }
        }
    }

    /// Gives the session at `index` the name `name`. Refused, with no
    /// change, if there is no such session.
    pub fn rename_session(&mut self, index: usize, name: String) -> (ok: bool)
        ensures
            ok == (index < old(self)@.sessions.len()),
            ok ==> final(self)@ == (SessionStoreView {
                sessions: old(self)@.sessions.update(
                    index as int,
                    SessionView { name: name@, ..old(self)@.sessions[index as int] },
                ),
                ..old(self)@
            }),
            !ok ==> final(self)@ == old(self)@,
            old(self).wf() ==> final(self).wf(),
            !ok ==> final(self).items() == old(self).items(),
            ok ==> final(self).items().len() == old(self).items().len() && forall|i: int|
                0 <= i < old(self).items().len() ==> (#[trigger] final(self).items()[i]).notifications@
                    == old(self).items()[i].notifications@,
    {
        if index < self.sessions.len() {
            self.sessions[index].name = name;
            proof {
                assert(self@.sessions =~= old(self)@.sessions.update(
                    index as int,
                    SessionView { name: name@, ..old(self)@.sessions[index as int] },
                ));
            }
            true
        } else {
            false
        }
    }

    /// Appends a copy of the active session under the next identifier and
    /// returns its index: see [`SessionView::duplicate`].
    pub fn duplicate_active_session(&mut self) -> (index: usize)
        requires
            old(self).wf(),
            old(self)@.next_id < usize::MAX,
        ensures
            index == old(self)@.sessions.len(),
            final(self)@ == old(self)@.appended(
                old(self)@.sessions[old(self)@.active_index as int].duplicate(
                    old(self)@.next_id,
                ),
            ),
            final(self).wf(),
            starts_with(final(self).items(), old(self).items()),
            final(self).items().last().notifications@ == old(self).items()[old(self)@.active_index as int].notifications@,
    {
        let new_session = self.sessions[self.active_session].duplicate(self.next_id);
        self.next_id += 1;

        self.sessions.push(new_session);
        proof {
            assert(self@.sessions =~= old(self)@.sessions.push(new_session@));
        }
        self.sessions.len() - 1
    }

    /// Drops the expired notifications of every session: see
    /// [`SerialSession::update_notifications`].
    pub fn update_all_notifications(&mut self)
        ensures
            final(self)@.active_index == old(self)@.active_index,
            final(self)@.next_id == old(self)@.next_id,
            final(self)@.sessions.len() == old(self)@.sessions.len(),
            forall|i: int|
                0 <= i < old(self)@.sessions.len() ==> {
                    &&& is_tail_of(
                        (#[trigger] final(self)@.sessions[i]).notifications,
                        old(self)@.sessions[i].notifications,
                    )
                    &&& final(self)@.sessions[i] == (SessionView {
                        notifications: final(self)@.sessions[i].notifications,
                        ..old(self)@.sessions[i]
                    })
                },
            old(self).wf() ==> final(self).wf(),
            final(self).items().len() == old(self).items().len(),
            forall|i: int|
                0 <= i < old(self).items().len() ==> is_tail_of(
                    (#[trigger] final(self).items()[i]).notifications@,
                    old(self).items()[i].notifications@,
                ),
    {
        let n = self.sessions.len();
        let mut i: usize = 0;
        while i < n
            invariant
                i <= n,
                n == self.sessions@.len(),
                n == old(self).sessions@.len(),
                self.active_session == old(self).active_session,
                self.next_id == old(self).next_id,
                forall|j: int| i <= j < n ==> self.sessions@[j] == old(self).sessions@[j],
                forall|j: int|
                    0 <= j < i ==> is_tail_of(
                        (#[trigger] self.sessions@[j]).notifications@,
                        old(self).sessions@[j].notifications@,
                    ),
                forall|j: int|
                    0 <= j < i ==> {
                        &&& is_tail_of(
                            (#[trigger] self.sessions@[j])@.notifications,
                            old(self).sessions@[j]@.notifications,
                        )
                        &&& self.sessions@[j]@ == (SessionView {
                            notifications: self.sessions@[j]@.notifications,
                            ..old(self).sessions@[j]@
                        })
                    },
            decreases n - i,
        {
            self.sessions[i].update_notifications();
            i += 1;
        }
        proof {
            assert forall|k: int| 0 <= k < n implies (#[trigger] self@.sessions[k]).id == old(
                self,
            )@.sessions[k].id by {
                assert(self@.sessions[k] == self.sessions@[k]@);
            }
        }
    }
}

impl Default for SessionManager {
    fn default() -> (r: SessionManager)
        ensures
            r@ == SessionStoreView::initial(),
            r.wf(),
    {
        SessionManager::new()
    }
}

/// A valid store stays valid under additions, removals and switches, and so
/// holds at least one session with the active index in range.
pub proof fn lemma_store_stays_valid(
    store: SessionStoreView,
    session: SessionView,
    index: usize,
)
    requires
        store.wf(),
    ensures
        store.sessions.len() >= 1 && store.active_index < store.sessions.len(),
        session.id == store.next_id && store.next_id < usize::MAX ==> store.appended(session).wf(),
        store.can_remove(index) ==> store.removed(index).wf(),
        index < store.sessions.len() ==> (SessionStoreView { active_index: index, ..store }).wf(),
{
    if store.can_remove(index) {
        let before = store.sessions;
        let after = store.removed(index).sessions;
        assert forall|i: int| 0 <= i < after.len() implies (#[trigger] after[i]).id
            < store.next_id by {
            if i < index {
                assert(after[i] == before[i]);
            } else {
                assert(after[i] == before[i + 1]);
            }
        }
        assert forall|i: int, j: int| 0 <= i < j < after.len() implies (#[trigger] after[i]).id != (
        #[trigger] after[j]).id by {
            let bi = if i < index { i } else { i + 1 };
            let bj = if j < index { j } else { j + 1 };
            assert(after[i] == before[bi]);
            assert(after[j] == before[bj]);
        }
    }
    if session.id == store.next_id && store.next_id < usize::MAX {
        let after = store.appended(session).sessions;
        assert forall|i: int, j: int| 0 <= i < j < after.len() implies (#[trigger] after[i]).id != (
        #[trigger] after[j]).id by {
            assert(after[i] == store.sessions[i]);
            if j < store.sessions.len() {
                assert(after[j] == store.sessions[j]);
            }
        }
    }
}

/// An operation on the session store.
pub enum StoreOp {
    /// Append a fresh session with this name.
    Add(Seq<char>),
    /// Append a copy of the active session.
    Duplicate,
    /// Remove the session at this index.
    Remove(usize),
    /// Make the session at this index the active one.
    SwitchTo(usize),
    /// Make the next session the active one.
    Next,
    /// Make the previous session the active one.
    Prev,
}

impl SessionStoreView {
    /// The store after one operation. A removal or a switch that is
    /// refused leaves the store as it is.
    pub open spec fn after(self, op: StoreOp) -> SessionStoreView {
        match op {
            StoreOp::Add(name) => self.appended(SessionView::initial(self.next_id, name)),
            StoreOp::Duplicate => self.appended(
                self.sessions[self.active_index as int].duplicate(self.next_id),
            ),
            StoreOp::Remove(index) => if self.can_remove(index) {
                self.removed(index)
            } else {
                self
            },
            StoreOp::SwitchTo(index) => if index < self.sessions.len() {
                SessionStoreView { active_index: index, ..self }
            } else {
                self
            },
            StoreOp::Next => SessionStoreView {
                active_index: ((self.active_index + 1) % (self.sessions.len() as int)) as usize,
                ..self
            },
            StoreOp::Prev => SessionStoreView {
                active_index: if self.active_index == 0 {
                    (self.sessions.len() - 1) as usize
                } else {
                    (self.active_index - 1) as usize
                },
                ..self
            },
        }
    }

    /// The store after the operations of `ops`, one after the other.
    pub open spec fn after_all(self, ops: Seq<StoreOp>) -> SessionStoreView
        decreases ops.len(),
    {
        if ops.len() == 0 {
            self
        } else {
            self.after_all(ops.drop_last()).after(ops.last())
        }
    }
}

/// One operation keeps a valid store valid, and takes at most one
/// identifier.
pub proof fn lemma_operation_keeps_store_valid(store: SessionStoreView, op: StoreOp)
    requires
        store.wf(),
        store.next_id < usize::MAX,
    ensures
        store.after(op).wf(),
        store.after(op).next_id <= store.next_id + 1,
{
    match op {
        StoreOp::Add(name) => {
            lemma_store_stays_valid(store, SessionView::initial(store.next_id, name), 0);
        },
        StoreOp::Duplicate => {
            lemma_store_stays_valid(
                store,
                store.sessions[store.active_index as int].duplicate(store.next_id),
                0,
            );
        },
        StoreOp::Remove(index) => {
            lemma_store_stays_valid(store, store.sessions[0], index);
        },
        StoreOp::SwitchTo(index) => {},
        StoreOp::Next => {},
        StoreOp::Prev => {},
    }
}

/// Whatever sequence of additions, removals and switches is carried out on
/// a valid store, as long as identifiers are left: afterwards the store is
/// valid, so it holds at least one session and its active index points at
/// one of them.
pub proof fn lemma_operations_keep_store_valid(store: SessionStoreView, ops: Seq<StoreOp>)
    requires
        store.wf(),
        store.next_id + ops.len() <= usize::MAX,
    ensures
        store.after_all(ops).wf(),
        store.after_all(ops).sessions.len() >= 1,
        store.after_all(ops).active_index < store.after_all(ops).sessions.len(),
        store.after_all(ops).next_id <= store.next_id + ops.len(),
    decreases ops.len(),
{
    if ops.len() > 0 {
        lemma_operations_keep_store_valid(store, ops.drop_last());
        lemma_operation_keeps_store_valid(store.after_all(ops.drop_last()), ops.last());
    }
}

/// Toggling the display mode of a session twice gives the session back, and
/// so does toggling its transmission mode twice.
pub proof fn lemma_session_toggles_twice(session: SessionView)
    ensures
        (SessionView {
            display_mode: session.display_mode.toggled_spec().toggled_spec(),
            ..session
        }) == session,
        (SessionView { tx_mode: session.tx_mode.toggled_spec().toggled_spec(), ..session })
            == session,
{
}

} // verus!
