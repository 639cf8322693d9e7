//! The state of the single-session monitor and the operations on it.

use crate::config::{SerialConfig, SerialConfigView};
use crate::log::{MessageLog, MessageLogView};
use crate::notification::{Notification, NotificationLevel, NotificationView};
use crate::selection::{
    position_of_flow_control, position_of_parity, position_of_u32, position_of_u8,
    ListSelection,
};
use crate::session::{is_tail_of, note, selection_at, starts_with, synced_selection};
use crate::types::{
    AppendMode, DisplayMode, FlowControl, FocusedField, Language, MenuState, Parity, TxMode,
};
use std::collections::VecDeque;
use vstd::prelude::*;

verus! {

/// The state of the monitor as plain values.
pub struct AppView {
    pub config: SerialConfigView,
    pub message_log: MessageLogView,
    pub display_mode: DisplayMode,
    pub is_connected: bool,
    pub config_locked: bool,
    pub ports: Seq<Seq<char>>,
    pub scroll_offset: u16,
    pub auto_scroll: bool,
    pub port_list_state: ListSelection,
    pub baud_rate_options: Seq<u32>,
    pub baud_rate_state: ListSelection,
    pub parity_options: Seq<Parity>,
    pub parity_state: ListSelection,
    pub flow_control_options: Seq<FlowControl>,
    pub flow_control_state: ListSelection,
    pub data_bits_options: Seq<u8>,
    pub data_bits_state: ListSelection,
    pub stop_bits_options: Seq<u8>,
    pub stop_bits_state: ListSelection,
    pub tx_input: Seq<char>,
    pub tx_mode: TxMode,
    pub tx_append_mode: AppendMode,
    pub tx_cursor: usize,
    pub append_mode_options: Seq<AppendMode>,
    pub append_mode_state: ListSelection,
    pub focused_field: FocusedField,
    pub notifications: Seq<NotificationView>,
    pub debug_mode: bool,
    pub last_mouse_event: Seq<char>,
    pub menu_state: MenuState,
    pub language: Language,
    pub show_shortcuts_help: bool,
}

/// The index after `selected` in a list of `len` items, the first after the
/// last.
pub open spec fn next_index(selected: usize, len: nat) -> usize {
    ((selected + 1) % (len as int)) as usize
}

/// The index before `selected` in a list of `len` items, the last before
/// the first.
pub open spec fn prev_index(selected: usize, len: nat) -> usize {
    if selected == 0 {
        (len - 1) as usize
    } else {
        (selected - 1) as usize
    }
}

/// The selection points into a list of `len` items, if it points anywhere.
pub open spec fn selection_within(selection: ListSelection, len: nat) -> bool {
    match selection.selected {
        Some(i) => i < len,
        None => true,
    }
}

/// The baud rates offered.
pub open spec fn standard_baud_rates() -> Seq<u32> {
    seq![300u32, 1200, 2400, 4800, 9600, 19200, 38400, 57600, 115200, 230400]
}

impl AppView {
    /// The state is valid: every list of options holds an item and its
    /// selection points into it, the index of the selected port is below
    /// the largest index (the port list may be shorter: it changes when the
    /// ports are listed again), the cursor lies within the text to send, and
    /// an open menu is one of the five menus, with the open item one of its
    /// items.
    pub open spec fn wf(self) -> bool {
        &&& self.baud_rate_options.len() > 0
        &&& self.parity_options.len() > 0
        &&& self.flow_control_options.len() > 0
        &&& self.data_bits_options.len() > 0
        &&& self.stop_bits_options.len() > 0
        &&& self.append_mode_options.len() > 0
        &&& selection_within(self.baud_rate_state, self.baud_rate_options.len())
        &&& selection_within(self.parity_state, self.parity_options.len())
        &&& selection_within(self.flow_control_state, self.flow_control_options.len())
        &&& selection_within(self.data_bits_state, self.data_bits_options.len())
        &&& selection_within(self.stop_bits_state, self.stop_bits_options.len())
        &&& selection_within(self.append_mode_state, self.append_mode_options.len())
        &&& match self.port_list_state.selected {
            Some(i) => i < usize::MAX,
            None => true,
        }
        &&& self.tx_cursor <= self.tx_input.len()
        &&& match self.menu_state {
            MenuState::Closed => true,
            MenuState::MenuBar(menu) => menu < 5,
            MenuState::Dropdown(menu, item) => menu < 5 && item < crate::menu_def::menu_items(
                menu as int,
            ).len(),
        }
    }

    /// The state that the monitor starts in.
    pub open spec fn initial() -> AppView {
        AppView {
            config: SerialConfigView::initial(),
            message_log: MessageLogView::empty(),
            display_mode: DisplayMode::Hex,
            is_connected: false,
            config_locked: false,
            ports: Seq::empty(),
            scroll_offset: 0,
            auto_scroll: true,
            port_list_state: selection_at(0),
            baud_rate_options: standard_baud_rates(),
            baud_rate_state: selection_at(4),
            parity_options: seq![Parity::Off, Parity::Even, Parity::Odd],
            parity_state: selection_at(0),
            flow_control_options: seq![
                FlowControl::Off,
                FlowControl::Hardware,
                FlowControl::Software,
            ],
            flow_control_state: selection_at(0),
            data_bits_options: seq![5u8, 6, 7, 8],
            data_bits_state: selection_at(3),
            stop_bits_options: seq![1u8, 2],
            stop_bits_state: selection_at(0),
            tx_input: Seq::empty(),
            tx_mode: TxMode::Ascii,
            tx_append_mode: AppendMode::Nothing,
            tx_cursor: 0,
            append_mode_options: AppendMode::catalogue(),
            append_mode_state: selection_at(0),
            focused_field: FocusedField::Port,
            notifications: Seq::empty(),
            debug_mode: false,
            last_mouse_event: Seq::empty(),
            menu_state: MenuState::Closed,
            language: Language::English,
            show_shortcuts_help: false,
        }
    }

    /// The state with `notification` at the end of the queue.
    pub open spec fn notified(self, notification: NotificationView) -> AppView {
        AppView { notifications: self.notifications.push(notification), ..self }
    }

    /// The state with an informational notification queued.
    pub open spec fn info(self, message: Seq<char>) -> AppView {
        self.notified(note(NotificationLevel::Info, message))
    }

    /// The state with a warning queued.
    pub open spec fn warning(self, message: Seq<char>) -> AppView {
        self.notified(note(NotificationLevel::Warning, message))
    }

    /// The state with an error notification queued.
    pub open spec fn error(self, message: Seq<char>) -> AppView {
        self.notified(note(NotificationLevel::Error, message))
    }

    /// The state with a success notification queued.
    pub open spec fn success(self, message: Seq<char>) -> AppView {
        self.notified(note(NotificationLevel::Success, message))
    }

    /// Whether a serial parameter chosen from a list can be changed: the
    /// configuration is not locked and the list has a selection.
    pub open spec fn can_step(self, selection: ListSelection) -> bool {
        !self.config_locked && selection.selected is Some
    }

    /// The state with item `index` of the baud rates chosen.
    pub open spec fn with_baud_rate(self, index: usize) -> AppView {
        AppView {
            baud_rate_state: self.baud_rate_state.after_select(Some(index)),
            config: SerialConfigView {
                baud_rate: self.baud_rate_options[index as int],
                ..self.config
            },
            ..self
        }
    }

    /// The state with item `index` of the parity settings chosen.
    pub open spec fn with_parity(self, index: usize) -> AppView {
        AppView {
            parity_state: self.parity_state.after_select(Some(index)),
            config: SerialConfigView { parity: self.parity_options[index as int], ..self.config },
            ..self
        }
    }

    /// The state with item `index` of the flow control settings chosen.
    pub open spec fn with_flow_control(self, index: usize) -> AppView {
        AppView {
            flow_control_state: self.flow_control_state.after_select(Some(index)),
            config: SerialConfigView {
                flow_control: self.flow_control_options[index as int],
                ..self.config
            },
            ..self
        }
    }

    /// The state with item `index` of the data bits chosen.
    pub open spec fn with_data_bits(self, index: usize) -> AppView {
        AppView {
            data_bits_state: self.data_bits_state.after_select(Some(index)),
            config: SerialConfigView {
                data_bits: self.data_bits_options[index as int],
                ..self.config
            },
            ..self
        }
    }

    /// The state with item `index` of the stop bits chosen.
    pub open spec fn with_stop_bits(self, index: usize) -> AppView {
        AppView {
            stop_bits_state: self.stop_bits_state.after_select(Some(index)),
            config: SerialConfigView {
                stop_bits: self.stop_bits_options[index as int],
                ..self.config
            },
            ..self
        }
    }

    /// The state with item `index` of the append modes chosen.
    pub open spec fn with_append_mode(self, index: usize) -> AppView {
        AppView {
            append_mode_state: self.append_mode_state.after_select(Some(index)),
            tx_append_mode: self.append_mode_options[index as int],
            ..self
        }
    }

    /// Whether port `index` can be chosen: the configuration is not locked
    /// and there is such a port.
    pub open spec fn can_select_port(self, index: usize) -> bool {
        !self.config_locked && index < self.ports.len()
    }

    /// The state with port `index` chosen.
    pub open spec fn with_port(self, index: usize) -> AppView {
        AppView {
            port_list_state: self.port_list_state.after_select(Some(index)),
            config: SerialConfigView { port: self.ports[index as int], ..self.config },
            ..self
        }
    }

    /// The state after a configuration was loaded: it replaces the current
    /// one, and each list selects the position of the loaded value, or
    /// keeps its selection if it does not hold the value.
    pub open spec fn with_loaded_config(self, config: SerialConfigView) -> AppView {
        AppView {
            baud_rate_state: synced_selection(
                self.baud_rate_state,
                self.baud_rate_options,
                config.baud_rate,
            ),
            parity_state: synced_selection(self.parity_state, self.parity_options, config.parity),
            flow_control_state: synced_selection(
                self.flow_control_state,
                self.flow_control_options,
                config.flow_control,
            ),
            data_bits_state: synced_selection(
                self.data_bits_state,
                self.data_bits_options,
                config.data_bits,
            ),
            stop_bits_state: synced_selection(
                self.stop_bits_state,
                self.stop_bits_options,
                config.stop_bits,
            ),
            config,
            ..self
        }
    }
}

/// The state of the monitor.
#[derive(Debug)]
pub struct AppState {
    pub config: SerialConfig,
    pub message_log: MessageLog,
    pub display_mode: DisplayMode,
    pub is_connected: bool,
    /// Whether the serial parameters are frozen; true while connected.
    pub config_locked: bool,
    /// Names of the ports found on the machine.
    pub ports: Vec<String>,
    pub scroll_offset: u16,
    pub auto_scroll: bool,
    pub port_list_state: ListSelection,
    pub baud_rate_options: Vec<u32>,
    pub baud_rate_state: ListSelection,
    pub parity_options: Vec<Parity>,
    pub parity_state: ListSelection,
    pub flow_control_options: Vec<FlowControl>,
    pub flow_control_state: ListSelection,
    pub data_bits_options: Vec<u8>,
    pub data_bits_state: ListSelection,
    pub stop_bits_options: Vec<u8>,
    pub stop_bits_state: ListSelection,
    /// Text awaiting transmission.
    pub tx_input: String,
    pub tx_mode: TxMode,
    pub tx_append_mode: AppendMode,
    /// Cursor in `tx_input`, counted in characters.
    pub tx_cursor: usize,
    pub append_mode_options: Vec<AppendMode>,
    pub append_mode_state: ListSelection,
    pub focused_field: FocusedField,
    /// Messages for the user, oldest first.
    pub notifications: VecDeque<Notification>,
    pub debug_mode: bool,
    pub last_mouse_event: String,
    pub menu_state: MenuState,
    pub language: Language,
    /// Whether the overlay with the keyboard shortcuts is shown.
    pub show_shortcuts_help: bool,
}

impl View for AppState {
    type V = AppView;

    open spec fn view(&self) -> AppView {
        AppView {
            config: self.config@,
            message_log: self.message_log@,
            display_mode: self.display_mode,
            is_connected: self.is_connected,
            config_locked: self.config_locked,
            ports: self.ports@.map_values(|p: String| p@),
            scroll_offset: self.scroll_offset,
            auto_scroll: self.auto_scroll,
            port_list_state: self.port_list_state,
            baud_rate_options: self.baud_rate_options@,
            baud_rate_state: self.baud_rate_state,
            parity_options: self.parity_options@,
            parity_state: self.parity_state,
            flow_control_options: self.flow_control_options@,
            flow_control_state: self.flow_control_state,
            data_bits_options: self.data_bits_options@,
            data_bits_state: self.data_bits_state,
            stop_bits_options: self.stop_bits_options@,
            stop_bits_state: self.stop_bits_state,
            tx_input: self.tx_input@,
            tx_mode: self.tx_mode,
            tx_append_mode: self.tx_append_mode,
            tx_cursor: self.tx_cursor,
            append_mode_options: self.append_mode_options@,
            append_mode_state: self.append_mode_state,
            focused_field: self.focused_field,
            notifications: self.notifications@.map_values(|n: Notification| n@),
            debug_mode: self.debug_mode,
            last_mouse_event: self.last_mouse_event@,
            menu_state: self.menu_state,
            language: self.language,
            show_shortcuts_help: self.show_shortcuts_help,
        }
    }
}

fn baud_rate_list() -> (r: Vec<u32>)
    ensures
        r@ == standard_baud_rates(),
{
    let mut r: Vec<u32> = Vec::new();
    r.push(300);
    r.push(1200);
    r.push(2400);
    r.push(4800);
    r.push(9600);
    r.push(19200);
    r.push(38400);
    r.push(57600);
    r.push(115200);
    r.push(230400);
    assert(r@ =~= standard_baud_rates());
    r
}

impl Default for AppState {
    fn default() -> (r: AppState)
        ensures
            r@ == AppView::initial(),
            r.wf(),
    {
        let mut parity_options: Vec<Parity> = Vec::new();
        parity_options.push(Parity::Off);
        parity_options.push(Parity::Even);
        parity_options.push(Parity::Odd);
        let mut flow_control_options: Vec<FlowControl> = Vec::new();
        flow_control_options.push(FlowControl::Off);
        flow_control_options.push(FlowControl::Hardware);
        flow_control_options.push(FlowControl::Software);
        let mut data_bits_options: Vec<u8> = Vec::new();
        data_bits_options.push(5);
        data_bits_options.push(6);
        data_bits_options.push(7);
        data_bits_options.push(8);
        let mut stop_bits_options: Vec<u8> = Vec::new();
        stop_bits_options.push(1);
        stop_bits_options.push(2);
        let r = AppState {
            config: SerialConfig::default(),
            message_log: MessageLog::new(),
            display_mode: DisplayMode::Hex,
            is_connected: false,
            config_locked: false,
            ports: Vec::new(),
            scroll_offset: 0,
            auto_scroll: true,
            port_list_state: ListSelection::starting_at(Some(0)),
            baud_rate_state: ListSelection::starting_at(Some(4)),
            parity_state: ListSelection::starting_at(Some(0)),
            flow_control_state: ListSelection::starting_at(Some(0)),
            data_bits_state: ListSelection::starting_at(Some(3)),
            stop_bits_state: ListSelection::starting_at(Some(0)),
            baud_rate_options: baud_rate_list(),
            parity_options,
            flow_control_options,
            data_bits_options,
            stop_bits_options,
            tx_input: String::new(),
            tx_mode: TxMode::Ascii,
            tx_append_mode: AppendMode::Nothing,
            tx_cursor: 0,
            append_mode_options: AppendMode::all(),
            append_mode_state: ListSelection::starting_at(Some(0)),
            focused_field: FocusedField::Port,
            notifications: VecDeque::new(),
            debug_mode: false,
            last_mouse_event: String::new(),
            menu_state: MenuState::Closed,
            language: Language::English,
            show_shortcuts_help: false,
        };
        proof {
            assert(r@.ports =~= Seq::empty());
            assert(r@.notifications =~= Seq::empty());
            assert(r@.parity_options =~= seq![Parity::Off, Parity::Even, Parity::Odd]);
            assert(r@.flow_control_options =~= seq![
                FlowControl::Off,
                FlowControl::Hardware,
                FlowControl::Software,
            ]);
            assert(r@.data_bits_options =~= seq![5u8, 6, 7, 8]);
            assert(r@.stop_bits_options =~= seq![1u8, 2]);
        }
        r
    }
}

impl AppState {
    /// The state is valid: see [`AppView::wf`].
    pub open spec fn wf(&self) -> bool {
        self@.wf()
    }

    /// The state that the monitor starts in.
    pub fn new() -> (r: AppState)
        ensures
            r@ == AppView::initial(),
            r.wf(),
    {
        AppState::default()
    }

    /// Freezes the serial parameters; done when connecting.
    pub fn lock_config(&mut self)
        ensures
            final(self)@ == (AppView { config_locked: true, ..old(self)@ }),
            old(self).wf() ==> final(self).wf(),
            final(self).notifications@ == old(self).notifications@,
    {
        self.config_locked = true;
    }

    /// Releases the serial parameters; done when disconnecting.
    pub fn unlock_config(&mut self)
        ensures
            final(self)@ == (AppView { config_locked: false, ..old(self)@ }),
            old(self).wf() ==> final(self).wf(),
            final(self).notifications@ == old(self).notifications@,
    {
        self.config_locked = false;
    }

    /// Whether the serial parameters may be changed.
    pub fn can_modify_config(&self) -> (r: bool)
        ensures
            r == !self@.config_locked,
    {
        !self.config_locked
    }

    /// Queues a notification behind the ones already waiting.
    pub fn add_notification(&mut self, notification: Notification)
        ensures
            final(self)@ == old(self)@.notified(notification@),
            old(self).wf() ==> final(self).wf(),
            final(self).notifications@ == old(self).notifications@.push(notification),
    {
        self.notifications.push_back(notification);
        assert(self@.notifications =~= old(self)@.notifications.push(notification@));
    }

    /// Queues an informational notification.
    pub fn add_info(&mut self, msg: &str)
        ensures
            final(self)@ == old(self)@.info(msg@),
            old(self).wf() ==> final(self).wf(),
            final(self).notifications@.len() == old(self).notifications@.len() + 1,
            starts_with(final(self).notifications@, old(self).notifications@),
    {
        self.add_notification(Notification::info(String::from_str(msg)));
    }

    /// Queues a warning.
    pub fn add_warning(&mut self, msg: &str)
        ensures
            final(self)@ == old(self)@.warning(msg@),
            old(self).wf() ==> final(self).wf(),
            final(self).notifications@.len() == old(self).notifications@.len() + 1,
            starts_with(final(self).notifications@, old(self).notifications@),
    {
        self.add_notification(Notification::warning(String::from_str(msg)));
    }

    /// Queues an error notification.
    pub fn add_error(&mut self, msg: &str)
        ensures
            final(self)@ == old(self)@.error(msg@),
            old(self).wf() ==> final(self).wf(),
            final(self).notifications@.len() == old(self).notifications@.len() + 1,
            starts_with(final(self).notifications@, old(self).notifications@),
    {
        self.add_notification(Notification::error(String::from_str(msg)));
    }

    /// Queues a success notification.
    pub fn add_success(&mut self, msg: &str)
        ensures
            final(self)@ == old(self)@.success(msg@),
            old(self).wf() ==> final(self).wf(),
            final(self).notifications@.len() == old(self).notifications@.len() + 1,
            starts_with(final(self).notifications@, old(self).notifications@),
    {
        self.add_notification(Notification::success(String::from_str(msg)));
    }

    /// Drops expired notifications from the front of the queue, up to the
    /// first one that has not expired.
    ///
    /// Which ones have expired depends on the clock. Whatever it says, a
    /// tail of the queue is left and nothing else changes.
    pub fn update_notifications(&mut self)
        ensures
            is_tail_of(final(self)@.notifications, old(self)@.notifications),
            final(self)@ == (AppView {
                notifications: final(self)@.notifications,
                ..old(self)@
            }),
            old(self).wf() ==> final(self).wf(),
            is_tail_of(final(self).notifications@, old(self).notifications@),
    {
        let ghost mut dropped: int = 0;
        assert(self@.notifications =~= old(self)@.notifications.skip(0));
        assert(self.notifications@ =~= old(self).notifications@.skip(0));
        while self.notifications.len() > 0
            invariant
                0 <= dropped <= old(self)@.notifications.len(),
                self@ == (AppView {
                    notifications: old(self)@.notifications.skip(dropped),
                    ..old(self)@
                }),
                self.notifications@ == old(self).notifications@.skip(dropped),
            decreases self.notifications@.len(),
        {
            let expired = self.notifications[0].is_expired();
            if !expired {
                break ;
            }
            let ghost before = self@.notifications;
            let ghost queued = self.notifications@;
            let _ = self.notifications.pop_front();
            proof {
                assert(self@.notifications =~= before.skip(1));
                assert(before.skip(1) =~= old(self)@.notifications.skip(dropped + 1));
                assert(self.notifications@ =~= queued.skip(1));
                assert(queued.skip(1) =~= old(self).notifications@.skip(dropped + 1));
                dropped = dropped + 1;
            }
        }
    }

    /// Chooses the next baud rate, the first after the last. Refused, with
    /// no change, while the configuration is locked or nothing is selected.
    pub fn next_baud_rate(&mut self) -> (ok: bool)
        requires
            old(self).wf(),
        ensures
            ok == old(self)@.can_step(old(self)@.baud_rate_state),
            final(self)@ == if ok {
                old(self)@.with_baud_rate(
                    next_index(
                        old(self)@.baud_rate_state.selected.unwrap(),
                        old(self)@.baud_rate_options.len(),
                    ),
                )
            } else {
                old(self)@
            },
            final(self).wf(),
            final(self).notifications@ == old(self).notifications@,
    {
        if !self.can_modify_config() {
            return false;
        }
        if let Some(selected) = self.baud_rate_state.selected() {
            let len = self.baud_rate_options.len();
            let next = (selected + 1) % len;
            self.baud_rate_state.select(Some(next));
            self.config.baud_rate = self.baud_rate_options[next];
            true
        } else {
            false
        }
    }

    /// Chooses the previous baud rate, the last before the first. Refused,
    /// with no change, while the configuration is locked or nothing is
    /// selected.
    pub fn prev_baud_rate(&mut self) -> (ok: bool)
        requires
            old(self).wf(),
        ensures
            ok == old(self)@.can_step(old(self)@.baud_rate_state),
            final(self)@ == if ok {
                old(self)@.with_baud_rate(
                    prev_index(
                        old(self)@.baud_rate_state.selected.unwrap(),
                        old(self)@.baud_rate_options.len(),
                    ),
                )
            } else {
                old(self)@
            },
            final(self).wf(),
            final(self).notifications@ == old(self).notifications@,
    {
        if !self.can_modify_config() {
            return false;
        }
        if let Some(selected) = self.baud_rate_state.selected() {
            let next = if selected == 0 {
                self.baud_rate_options.len() - 1
            } else {
                selected - 1
            };
            self.baud_rate_state.select(Some(next));
            self.config.baud_rate = self.baud_rate_options[next];
            true
        } else {
            false
        }
    }

    /// Chooses the next parity setting, the first after the last. Refused,
    /// with no change, while the configuration is locked or nothing is
    /// selected.
    pub fn toggle_parity(&mut self) -> (ok: bool)
        requires
            old(self).wf(),
        ensures
            ok == old(self)@.can_step(old(self)@.parity_state),
            final(self)@ == if ok {
                old(self)@.with_parity(
                    next_index(
                        old(self)@.parity_state.selected.unwrap(),
                        old(self)@.parity_options.len(),
                    ),
                )
            } else {
                old(self)@
            },
            final(self).wf(),
            final(self).notifications@ == old(self).notifications@,
    {
        if !self.can_modify_config() {
            return false;
        }
        if let Some(selected) = self.parity_state.selected() {
            let len = self.parity_options.len();
            let next = (selected + 1) % len;
            self.parity_state.select(Some(next));
            self.config.parity = self.parity_options[next];
            true
        } else {
            false
        }
    }

    /// Chooses the next flow control setting, the first after the last.
    /// Refused, with no change, while the configuration is locked or
    /// nothing is selected.
    pub fn toggle_flow_control(&mut self) -> (ok: bool)
        requires
            old(self).wf(),
        ensures
            ok == old(self)@.can_step(old(self)@.flow_control_state),
            final(self)@ == if ok {
                old(self)@.with_flow_control(
                    next_index(
                        old(self)@.flow_control_state.selected.unwrap(),
                        old(self)@.flow_control_options.len(),
                    ),
                )
            } else {
                old(self)@
            },
            final(self).wf(),
            final(self).notifications@ == old(self).notifications@,
    {
        if !self.can_modify_config() {
            return false;
        }
        if let Some(selected) = self.flow_control_state.selected() {
            let len = self.flow_control_options.len();
            let next = (selected + 1) % len;
            self.flow_control_state.select(Some(next));
            self.config.flow_control = self.flow_control_options[next];
            true
        } else {
            false
        }
    }

    /// Chooses the next number of data bits, the first after the last.
    /// Refused, with no change, while the configuration is locked or
    /// nothing is selected.
    pub fn next_data_bits(&mut self) -> (ok: bool)
        requires
            old(self).wf(),
        ensures
            ok == old(self)@.can_step(old(self)@.data_bits_state),
            final(self)@ == if ok {
                old(self)@.with_data_bits(
                    next_index(
                        old(self)@.data_bits_state.selected.unwrap(),
                        old(self)@.data_bits_options.len(),
                    ),
                )
            } else {
                old(self)@
            },
            final(self).wf(),
            final(self).notifications@ == old(self).notifications@,
    {
        if !self.can_modify_config() {
            return false;
        }
        if let Some(selected) = self.data_bits_state.selected() {
            let len = self.data_bits_options.len();
            let next = (selected + 1) % len;
            self.data_bits_state.select(Some(next));
            self.config.data_bits = self.data_bits_options[next];
            true
        } else {
            false
        }
    }

    /// Chooses the next number of stop bits, the first after the last.
    /// Refused, with no change, while the configuration is locked or
    /// nothing is selected.
    pub fn next_stop_bits(&mut self) -> (ok: bool)
        requires
            old(self).wf(),
        ensures
            ok == old(self)@.can_step(old(self)@.stop_bits_state),
            final(self)@ == if ok {
                old(self)@.with_stop_bits(
                    next_index(
                        old(self)@.stop_bits_state.selected.unwrap(),
                        old(self)@.stop_bits_options.len(),
                    ),
                )
            } else {
                old(self)@
            },
            final(self).wf(),
            final(self).notifications@ == old(self).notifications@,
    {
        if !self.can_modify_config() {
            return false;
        }
        if let Some(selected) = self.stop_bits_state.selected() {
            let len = self.stop_bits_options.len();
            let next = (selected + 1) % len;
            self.stop_bits_state.select(Some(next));
            self.config.stop_bits = self.stop_bits_options[next];
            true
        } else {
            false
        }
    }

    /// Chooses the previous number of data bits, the last before the first. Refused, with
    /// no change, while the configuration is locked or nothing is selected.
    pub fn prev_data_bits(&mut self) -> (ok: bool)
        requires
            old(self).wf(),
        ensures
            ok == old(self)@.can_step(old(self)@.data_bits_state),
            final(self)@ == if ok {
                old(self)@.with_data_bits(
                    prev_index(
                        old(self)@.data_bits_state.selected.unwrap(),
                        old(self)@.data_bits_options.len(),
                    ),
                )
            } else {
                old(self)@
            },
            final(self).wf(),
            final(self).notifications@ == old(self).notifications@,
    {
        if !self.can_modify_config() {
            return false;
        }
        if let Some(selected) = self.data_bits_state.selected() {
            let next = if selected == 0 {
                self.data_bits_options.len() - 1
            } else {
                selected - 1
            };
            self.data_bits_state.select(Some(next));
            self.config.data_bits = self.data_bits_options[next];
            true
        } else {
            false
        }
    }

    /// Chooses the previous parity setting, the last before the first. Refused, with
    /// no change, while the configuration is locked or nothing is selected.
    pub fn prev_parity(&mut self) -> (ok: bool)
        requires
            old(self).wf(),
        ensures
            ok == old(self)@.can_step(old(self)@.parity_state),
            final(self)@ == if ok {
                old(self)@.with_parity(
                    prev_index(
                        old(self)@.parity_state.selected.unwrap(),
                        old(self)@.parity_options.len(),
                    ),
                )
            } else {
                old(self)@
            },
            final(self).wf(),
            final(self).notifications@ == old(self).notifications@,
    {
        if !self.can_modify_config() {
            return false;
        }
        if let Some(selected) = self.parity_state.selected() {
            let next = if selected == 0 {
                self.parity_options.len() - 1
            } else {
                selected - 1
            };
            self.parity_state.select(Some(next));
            self.config.parity = self.parity_options[next];
            true
        } else {
            false
        }
    }

    /// Chooses the previous number of stop bits, the last before the first. Refused, with
    /// no change, while the configuration is locked or nothing is selected.
    pub fn prev_stop_bits(&mut self) -> (ok: bool)
        requires
            old(self).wf(),
        ensures
            ok == old(self)@.can_step(old(self)@.stop_bits_state),
            final(self)@ == if ok {
                old(self)@.with_stop_bits(
                    prev_index(
                        old(self)@.stop_bits_state.selected.unwrap(),
                        old(self)@.stop_bits_options.len(),
                    ),
                )
            } else {
                old(self)@
            },
            final(self).wf(),
            final(self).notifications@ == old(self).notifications@,
    {
        if !self.can_modify_config() {
            return false;
        }
        if let Some(selected) = self.stop_bits_state.selected() {
            let next = if selected == 0 {
                self.stop_bits_options.len() - 1
            } else {
                selected - 1
            };
            self.stop_bits_state.select(Some(next));
            self.config.stop_bits = self.stop_bits_options[next];
            true
        } else {
            false
        }
    }

    /// Chooses the previous flow control setting, the last before the first. Refused, with
    /// no change, while the configuration is locked or nothing is selected.
    pub fn prev_flow_control(&mut self) -> (ok: bool)
        requires
            old(self).wf(),
        ensures
            ok == old(self)@.can_step(old(self)@.flow_control_state),
            final(self)@ == if ok {
                old(self)@.with_flow_control(
                    prev_index(
                        old(self)@.flow_control_state.selected.unwrap(),
                        old(self)@.flow_control_options.len(),
                    ),
                )
            } else {
                old(self)@
            },
            final(self).wf(),
            final(self).notifications@ == old(self).notifications@,
    {
        if !self.can_modify_config() {
            return false;
        }
        if let Some(selected) = self.flow_control_state.selected() {
            let next = if selected == 0 {
                self.flow_control_options.len() - 1
            } else {
                selected - 1
            };
            self.flow_control_state.select(Some(next));
            self.config.flow_control = self.flow_control_options[next];
            true
        } else {
            false
        }
    }

    /// Chooses item `index` of the baud rates. Refused, with no change,
    /// while the configuration is locked or if there is no such item.
    pub fn select_baud_rate(&mut self, index: usize) -> (ok: bool)
        ensures
            ok == (!old(self)@.config_locked && index < old(self)@.baud_rate_options.len()),
            final(self)@ == if ok {
                old(self)@.with_baud_rate(index)
            } else {
                old(self)@
            },
            old(self).wf() ==> final(self).wf(),
            final(self).notifications@ == old(self).notifications@,
    {
        if !self.can_modify_config() {
            return false;
        }
        if index < self.baud_rate_options.len() {
            self.baud_rate_state.select(Some(index));
            self.config.baud_rate = self.baud_rate_options[index];
            true
        } else {
            false
        }
    }

    /// Chooses item `index` of the data bits. Refused, with no change,
    /// while the configuration is locked or if there is no such item.
    pub fn select_data_bits(&mut self, index: usize) -> (ok: bool)
        ensures
            ok == (!old(self)@.config_locked && index < old(self)@.data_bits_options.len()),
            final(self)@ == if ok {
                old(self)@.with_data_bits(index)
            } else {
                old(self)@
            },
            old(self).wf() ==> final(self).wf(),
            final(self).notifications@ == old(self).notifications@,
    {
        if !self.can_modify_config() {
            return false;
        }
        if index < self.data_bits_options.len() {
            self.data_bits_state.select(Some(index));
            self.config.data_bits = self.data_bits_options[index];
            true
        } else {
            false
        }
    }

    /// Chooses item `index` of the parity settings. Refused, with no change,
    /// while the configuration is locked or if there is no such item.
    pub fn select_parity(&mut self, index: usize) -> (ok: bool)
        ensures
            ok == (!old(self)@.config_locked && index < old(self)@.parity_options.len()),
            final(self)@ == if ok {
                old(self)@.with_parity(index)
            } else {
                old(self)@
            },
            old(self).wf() ==> final(self).wf(),
            final(self).notifications@ == old(self).notifications@,
    {
        if !self.can_modify_config() {
            return false;
        }
        if index < self.parity_options.len() {
            self.parity_state.select(Some(index));
            self.config.parity = self.parity_options[index];
            true
        } else {
            false
        }
    }

    /// Chooses item `index` of the stop bits. Refused, with no change,
    /// while the configuration is locked or if there is no such item.
    pub fn select_stop_bits(&mut self, index: usize) -> (ok: bool)
        ensures
            ok == (!old(self)@.config_locked && index < old(self)@.stop_bits_options.len()),
            final(self)@ == if ok {
                old(self)@.with_stop_bits(index)
            } else {
                old(self)@
            },
            old(self).wf() ==> final(self).wf(),
            final(self).notifications@ == old(self).notifications@,
    {
        if !self.can_modify_config() {
            return false;
        }
        if index < self.stop_bits_options.len() {
            self.stop_bits_state.select(Some(index));
            self.config.stop_bits = self.stop_bits_options[index];
            true
        } else {
            false
        }
    }

    /// Chooses item `index` of the flow control settings. Refused, with no change,
    /// while the configuration is locked or if there is no such item.
    pub fn select_flow_control(&mut self, index: usize) -> (ok: bool)
        ensures
            ok == (!old(self)@.config_locked && index < old(self)@.flow_control_options.len()),
            final(self)@ == if ok {
                old(self)@.with_flow_control(index)
            } else {
                old(self)@
            },
            old(self).wf() ==> final(self).wf(),
            final(self).notifications@ == old(self).notifications@,
    {
        if !self.can_modify_config() {
            return false;
        }
        if index < self.flow_control_options.len() {
            self.flow_control_state.select(Some(index));
            self.config.flow_control = self.flow_control_options[index];
            true
        } else {
            false
        }
    }

    /// Chooses item `index` of the append modes. Refused, with no change,
    /// if there is no such item.
    pub fn select_append_mode(&mut self, index: usize) -> (ok: bool)
        ensures
            ok == (index < old(self)@.append_mode_options.len()),
            final(self)@ == if ok {
                old(self)@.with_append_mode(index)
            } else {
                old(self)@
            },
            old(self).wf() ==> final(self).wf(),
            final(self).notifications@ == old(self).notifications@,
    {
        if index < self.append_mode_options.len() {
            self.append_mode_state.select(Some(index));
            self.tx_append_mode = self.append_mode_options[index];
            true
        } else {
            false
        }
    }

    /// Chooses port `index`. Refused, with no change, while the
    /// configuration is locked or if there is no such port.
    pub fn select_port(&mut self, index: usize) -> (ok: bool)
        ensures
            ok == old(self)@.can_select_port(index),
            final(self)@ == if ok {
                old(self)@.with_port(index)
            } else {
                old(self)@
            },
            old(self).wf() ==> final(self).wf(),
            final(self).notifications@ == old(self).notifications@,
    {
        if !self.can_modify_config() {
            return false;
        }
        if index < self.ports.len() {
            self.port_list_state.select(Some(index));
            self.config.port = self.ports[index].clone();
            true
        } else {
            false
        }
    }

    /// Switches the input between hexadecimal and plain text.
    pub fn toggle_tx_mode(&mut self)
        ensures
            final(self)@ == (AppView { tx_mode: old(self)@.tx_mode.toggled_spec(), ..old(self)@ }),
            old(self).wf() ==> final(self).wf(),
            final(self).notifications@ == old(self).notifications@,
    {
        self.tx_mode = self.tx_mode.toggled();
    }

    /// Chooses the next append mode, the first after the last. Nothing
    /// changes if no mode is selected.
    pub fn next_append_mode(&mut self)
        requires
            old(self).wf(),
        ensures
            final(self)@ == match old(self)@.append_mode_state.selected {
                Some(selected) => old(self)@.with_append_mode(
                    next_index(selected, old(self)@.append_mode_options.len()),
                ),
                None => old(self)@,
            },
            final(self).wf(),
            final(self).notifications@ == old(self).notifications@,
    {
        if let Some(selected) = self.append_mode_state.selected() {
            let len = self.append_mode_options.len();
            let next = (selected + 1) % len;
            self.append_mode_state.select(Some(next));
            self.tx_append_mode = self.append_mode_options[next];
        }
    }

    /// Chooses the previous append mode, the last before the first. Nothing
    /// changes if no mode is selected.
    pub fn prev_append_mode(&mut self)
        requires
            old(self).wf(),
        ensures
            final(self)@ == match old(self)@.append_mode_state.selected {
                Some(selected) => old(self)@.with_append_mode(
                    prev_index(selected, old(self)@.append_mode_options.len()),
                ),
                None => old(self)@,
            },
            final(self).wf(),
            final(self).notifications@ == old(self).notifications@,
    {
        if let Some(selected) = self.append_mode_state.selected() {
            let next = if selected == 0 {
                self.append_mode_options.len() - 1
            } else {
                selected - 1
            };
            self.append_mode_state.select(Some(next));
            self.tx_append_mode = self.append_mode_options[next];
        }
    }

    /// Switches the log between hexadecimal and text rendering.
    pub fn toggle_display_mode(&mut self)
        ensures
            final(self)@ == (AppView {
                display_mode: old(self)@.display_mode.toggled_spec(),
                ..old(self)@
            }),
            old(self).wf() ==> final(self).wf(),
            final(self).notifications@ == old(self).notifications@,
    {
        self.display_mode = self.display_mode.toggled();
    }

    /// Moves the focus to the next field of the ring.
    pub fn focus_next_field(&mut self)
        ensures
            final(self)@ == (AppView {
                focused_field: old(self)@.focused_field.next_spec(),
                ..old(self)@
            }),
            old(self).wf() ==> final(self).wf(),
            final(self).notifications@ == old(self).notifications@,
    {
        self.focused_field = self.focused_field.next();
    }

    /// Moves the focus to the previous field of the ring.
    pub fn focus_prev_field(&mut self)
        ensures
            final(self)@ == (AppView {
                focused_field: old(self)@.focused_field.prev_spec(),
                ..old(self)@
            }),
            old(self).wf() ==> final(self).wf(),
            final(self).notifications@ == old(self).notifications@,
    {
        self.focused_field = self.focused_field.prev();
    }

    /// Takes over a configuration that was read from the configuration
    /// file: see [`AppView::with_loaded_config`].
    pub fn apply_loaded_config(&mut self, config: SerialConfig)
        ensures
            final(self)@ == old(self)@.with_loaded_config(config@),
            old(self).wf() ==> final(self).wf(),
            final(self).notifications@ == old(self).notifications@,
    {
        let baud_rate_at = position_of_u32(self.baud_rate_options.as_slice(), config.baud_rate);
        self.baud_rate_state = self.baud_rate_state.moved_to(baud_rate_at);
        let parity_at = position_of_parity(self.parity_options.as_slice(), config.parity);
        self.parity_state = self.parity_state.moved_to(parity_at);
        let flow_control_at = position_of_flow_control(
            self.flow_control_options.as_slice(),
            config.flow_control,
        );
        self.flow_control_state = self.flow_control_state.moved_to(flow_control_at);
        let data_bits_at = position_of_u8(self.data_bits_options.as_slice(), config.data_bits);
        self.data_bits_state = self.data_bits_state.moved_to(data_bits_at);
        let stop_bits_at = position_of_u8(self.stop_bits_options.as_slice(), config.stop_bits);
        self.stop_bits_state = self.stop_bits_state.moved_to(stop_bits_at);
        self.config = config;
    }

    /// Switches between the two languages.
    pub fn toggle_language(&mut self)
        ensures
            final(self)@ == (AppView { language: old(self)@.language.toggled_spec(), ..old(self)@ }),
            old(self).wf() ==> final(self).wf(),
            final(self).notifications@ == old(self).notifications@,
    {
        self.language = self.language.toggled();
    }
}

} // verus!
