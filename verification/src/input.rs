//! What a key press does.
//!
//! The terminal, the serial port and the configuration file are not
//! touched here. A key press changes the state and may ask for one piece of
//! outside work, a [`Command`]; the caller does the work and reports how it
//! went through the methods named after the outcomes.

use crate::codec::{fault_message, hex_decoding, hex_to_bytes, HexFault};
use crate::i18n::{t, translation};
use crate::log::{LogDirection, MessageLogView};
use crate::menu_def::{menu_items, MenuAction, MENU_BAR};
use crate::selection::ListSelection;
use crate::session::starts_with;
use crate::state::{next_index, prev_index, AppState, AppView};
use crate::text::{chars_of, string_of};
use crate::types::{FocusedField, Language, MenuState, TxMode};
use vstd::prelude::*;

verus! {

/// The key of a key event.
#[derive(Debug, Clone, Copy, PartialEq, Eq, Structural)]
pub enum KeyCode {
    Backspace,
    Enter,
    Left,
    Right,
    Up,
    Down,
    Home,
    End,
    PageUp,
    PageDown,
    Tab,
    BackTab,
    Delete,
    Esc,
    /// A function key, by its number.
    F(u8),
    /// A key that types a character.
    Char(char),
    /// Any other key.
    Other,
}

/// A key event as the monitor sees it.
#[derive(Debug, Clone, Copy, PartialEq, Eq, Structural)]
pub struct KeyEvent {
    pub code: KeyCode,
    /// Whether the control key was held.
    pub ctrl: bool,
    /// Whether the key went down; releases and repeats are ignored.
    pub pressed: bool,
}

/// Outside work that a key press or a click asks for.
#[derive(Debug, PartialEq, Eq)]
pub enum Command {
    /// Nothing to do.
    Nothing,
    /// Leave the program.
    Quit,
    /// Write the configuration to the configuration file.
    SaveConfig,
    /// Read the configuration from the configuration file.
    LoadConfig,
    /// Open the configured port.
    Connect,
    /// Close the port.
    Disconnect,
    /// Write these bytes to the port.
    Send(Vec<u8>),
    /// List the ports of the machine.
    RefreshPorts,
}

/// A command as plain values.
pub enum CommandView {
    Nothing,
    Quit,
    SaveConfig,
    LoadConfig,
    Connect,
    Disconnect,
    Send(Seq<u8>),
    RefreshPorts,
}

impl View for Command {
    type V = CommandView;

    open spec fn view(&self) -> CommandView {
        match self {
            Command::Nothing => CommandView::Nothing,
            Command::Quit => CommandView::Quit,
            Command::SaveConfig => CommandView::SaveConfig,
            Command::LoadConfig => CommandView::LoadConfig,
            Command::Connect => CommandView::Connect,
            Command::Disconnect => CommandView::Disconnect,
            Command::Send(data) => CommandView::Send(data@),
            Command::RefreshPorts => CommandView::RefreshPorts,
        }
    }
}

/// What the menu made of a key.
#[derive(Debug, Clone, Copy, PartialEq, Eq, Structural)]
pub enum MenuStep {
    /// The menu is closed and the key does not open it.
    Pass,
    /// The key opened the menu bar.
    Opened,
    /// The menu took the key.
    Consumed,
    /// The key activated this item of this menu, and the menu closed.
    Activated(usize, usize),
}

impl MenuState {
    /// The state names a menu of the bar, and an item of it if a dropdown
    /// is open.
    pub open spec fn valid(self) -> bool {
        match self {
            MenuState::Closed => true,
            MenuState::MenuBar(menu) => menu < 5,
            MenuState::Dropdown(menu, item) => menu < 5 && item < menu_items(menu as int).len(),
        }
    }

    /// The menu state after a key.
    ///
    /// F10 opens the bar on the first menu. On the bar, left and right move
    /// to the neighbouring menu, wrapping around; enter and down open the
    /// dropdown on its first item; escape closes the menu. In a dropdown,
    /// up and down move to the neighbouring item, wrapping around; left and
    /// right open the neighbouring menu's dropdown on its first item; enter
    /// closes the menu; escape goes back to the bar. Any other key leaves
    /// the state as it is.
    pub open spec fn after_key(self, code: KeyCode) -> MenuState {
        match self {
            MenuState::Closed => if code == KeyCode::F(10) {
                MenuState::MenuBar(0)
            } else {
                self
            },
            MenuState::MenuBar(menu) => match code {
                KeyCode::Left => MenuState::MenuBar(prev_index(menu, 5)),
                KeyCode::Right => MenuState::MenuBar(next_index(menu, 5)),
                KeyCode::Enter | KeyCode::Down => MenuState::Dropdown(menu, 0),
                KeyCode::Esc => MenuState::Closed,
                _ => self,
            },
            MenuState::Dropdown(menu, item) => match code {
                KeyCode::Up => MenuState::Dropdown(
                    menu,
                    prev_index(item, menu_items(menu as int).len()),
                ),
                KeyCode::Down => MenuState::Dropdown(
                    menu,
                    next_index(item, menu_items(menu as int).len()),
                ),
                KeyCode::Left => MenuState::Dropdown(prev_index(menu, 5), 0),
                KeyCode::Right => MenuState::Dropdown(next_index(menu, 5), 0),
                KeyCode::Enter => MenuState::Closed,
                KeyCode::Esc => MenuState::MenuBar(menu),
                _ => self,
            },
        }
    }

    /// What the menu makes of a key: a closed menu passes every key but
    /// F10 on, an open menu takes every key, and enter in a dropdown
    /// activates the item.
    pub open spec fn step_for(self, code: KeyCode) -> MenuStep {
        match self {
            MenuState::Closed => if code == KeyCode::F(10) {
                MenuStep::Opened
            } else {
                MenuStep::Pass
            },
            MenuState::MenuBar(_) => MenuStep::Consumed,
            MenuState::Dropdown(menu, item) => if code == KeyCode::Enter {
                MenuStep::Activated(menu, item)
            } else {
                MenuStep::Consumed
            },
        }
    }

    /// Feeds a key to the menu: see [`MenuState::after_key`] and
    /// [`MenuState::step_for`].
    pub fn on_key(self, code: KeyCode) -> (r: (MenuState, MenuStep))
        requires
            self.valid(),
        ensures
            r.0 == self.after_key(code),
            r.1 == self.step_for(code),
            r.0.valid(),
    {
        match self {
            MenuState::Closed => {
                if code == KeyCode::F(10) {
                    (MenuState::MenuBar(0), MenuStep::Opened)
                } else {
                    (self, MenuStep::Pass)
                }
            },
            MenuState::MenuBar(selected) => {
                let menu_count = MENU_BAR.menu_count();
                let next = match code {
                    KeyCode::Left => MenuState::MenuBar(
                        if selected == 0 {
                            menu_count - 1
                        } else {
                            selected - 1
                        },
                    ),
                    KeyCode::Right => MenuState::MenuBar((selected + 1) % menu_count),
                    KeyCode::Enter | KeyCode::Down => {
                        let _ = MENU_BAR.get_item_count(selected);
                        MenuState::Dropdown(selected, 0)
                    },
                    KeyCode::Esc => MenuState::Closed,
                    _ => self,
                };
                (next, MenuStep::Consumed)
            },
            MenuState::Dropdown(menu_idx, item_idx) => {
                let item_count = MENU_BAR.get_item_count(menu_idx);
                let menu_count = MENU_BAR.menu_count();
                match code {
                    KeyCode::Up => {
                        let new_idx = if item_idx == 0 {
                            item_count - 1
                        } else {
                            item_idx - 1
                        };
                        (MenuState::Dropdown(menu_idx, new_idx), MenuStep::Consumed)
                    },
                    KeyCode::Down => (
                        MenuState::Dropdown(menu_idx, (item_idx + 1) % item_count),
                        MenuStep::Consumed,
                    ),
                    KeyCode::Left => {
                        let new_menu = if menu_idx == 0 {
                            menu_count - 1
                        } else {
                            menu_idx - 1
                        };
                        let _ = MENU_BAR.get_item_count(new_menu);
                        (MenuState::Dropdown(new_menu, 0), MenuStep::Consumed)
                    },
                    KeyCode::Right => {
                        let new_menu = (menu_idx + 1) % menu_count;
                        let _ = MENU_BAR.get_item_count(new_menu);
                        (MenuState::Dropdown(new_menu, 0), MenuStep::Consumed)
                    },
                    KeyCode::Enter => (MenuState::Closed, MenuStep::Activated(menu_idx, item_idx)),
                    KeyCode::Esc => (MenuState::MenuBar(menu_idx), MenuStep::Consumed),
                    _ => (self, MenuStep::Consumed),
                }
            },
        }
    }
}

/// Shown when a locked serial parameter is touched.
pub const LOCKED_WARNING: &'static str = "配置已锁定，请先断开连接";

/// The state after a key and the outside work that the key asks for.
pub struct KeyResult {
    pub state: AppView,
    pub command: CommandView,
}

/// The result that changes the state and asks for nothing.
pub open spec fn only(state: AppView) -> KeyResult {
    KeyResult { state, command: CommandView::Nothing }
}

/// `text` with `c` put in before the character at `at`.
pub open spec fn inserted(text: Seq<char>, at: int, c: char) -> Seq<char> {
    text.insert(at, c)
}

/// The offset that shows the last of `lines` log lines.
pub open spec fn last_line_offset(lines: nat) -> u16 {
    let shown = lines as u16;
    if shown == 0 {
        0
    } else {
        (shown - 1) as u16
    }
}

/// `offset` moved up by `by` lines, stopping at the top.
pub open spec fn scrolled_up(offset: u16, by: u16) -> u16 {
    if offset < by {
        0
    } else {
        (offset - by) as u16
    }
}

/// `offset` moved down by `by` lines, stopping at the largest offset.
pub open spec fn scrolled_down(offset: u16, by: u16) -> u16 {
    if offset + by > u16::MAX {
        u16::MAX
    } else {
        (offset + by) as u16
    }
}

/// The text shown by the About item.
pub open spec fn about_text(lang: Language) -> Seq<char> {
    match lang {
        Language::English => "TuiSerial v0.1.0\nTerminal Serial Port Monitor\n\nA modern serial port debugging tool with mouse support and internationalization."@,
        Language::Chinese => "TuiSerial v0.1.0\n终端串口监控工具\n\n一个现代化的串口调试工具，支持鼠标操作和国际化。"@,
    }
}

impl AppView {
    /// The log can take one more transmission and one more reception.
    pub open spec fn has_room(self) -> bool {
        self.message_log.rx_count < u64::MAX && self.message_log.tx_count < u64::MAX
    }

    /// The state after the display mode was switched, with the
    /// notification that `prefix` opens.
    #[verifier::opaque]
    pub open spec fn display_toggled(self, prefix: Seq<char>) -> AppView {
        AppView { display_mode: self.display_mode.toggled_spec(), ..self }.info(
            prefix + self.display_mode.toggled_spec().label_spec(),
        )
    }

    /// The state after the transmission mode was switched, with its
    /// notification.
    #[verifier::opaque]
    pub open spec fn tx_mode_toggled(self) -> AppView {
        AppView { tx_mode: self.tx_mode.toggled_spec(), ..self }.info(
            "发送模式: "@ + self.tx_mode.toggled_spec().label_spec(),
        )
    }

    /// The state after automatic scrolling was switched, with its
    /// notification.
    #[verifier::opaque]
    pub open spec fn auto_scroll_toggled(self) -> AppView {
        AppView { auto_scroll: !self.auto_scroll, ..self }.info(
            "自动滚动: "@ + if self.auto_scroll {
                "禁用"@
            } else {
                "启用"@
            },
        )
    }

    /// The state after the log was cleared, with its notification.
    #[verifier::opaque]
    pub open spec fn log_cleared(self) -> AppView {
        AppView { message_log: MessageLogView::empty(), ..self }.info("已清空消息记录"@)
    }

    /// The state after the next (or previous) append mode was chosen,
    /// without a notification.
    #[verifier::opaque]
    pub open spec fn append_mode_stepped(self, forward: bool) -> AppView {
        match self.append_mode_state.selected {
            Some(selected) => self.with_append_mode(
                if forward {
                    next_index(selected, self.append_mode_options.len())
                } else {
                    prev_index(selected, self.append_mode_options.len())
                },
            ),
            None => self,
        }
    }

    /// The state after the next append mode was chosen, with its
    /// notification.
    #[verifier::opaque]
    pub open spec fn append_mode_advanced(self) -> AppView {
        self.append_mode_stepped(true).info(
            "追加: "@ + self.append_mode_stepped(true).tx_append_mode.name_spec(),
        )
    }

    /// The port that an arrow key moves to from port `selected`: the
    /// neighbour in the list, wrapping around.
    #[verifier::opaque]
    pub open spec fn port_neighbour(self, selected: usize, forward: bool) -> usize {
        let last = if self.ports.len() == 0 {
            0
        } else {
            (self.ports.len() - 1) as usize
        };
        if forward {
            if selected < last {
                (selected + 1) as usize
            } else {
                0
            }
        } else {
            if selected > 0 {
                (selected - 1) as usize
            } else {
                last
            }
        }
    }

    /// The state after the port selection was moved, without a
    /// notification for the port chosen. A locked configuration gives a
    /// warning; without a selection, or with a neighbour that is no port,
    /// nothing changes.
    #[verifier::opaque]
    pub open spec fn port_stepped(self, forward: bool, announce: bool) -> AppView {
        if self.config_locked {
            self.warning(LOCKED_WARNING@)
        } else {
            match self.port_list_state.selected {
                Some(selected) => {
                    let target = self.port_neighbour(selected, forward);
                    if self.can_select_port(target) {
                        if announce {
                            self.with_port(target).info("选择串口: "@ + self.ports[target as int])
                        } else {
                            self.with_port(target)
                        }
                    } else {
                        self
                    }
                },
                None => self,
            }
        }
    }

    /// The state after the baud rate was moved. Where that is refused, a
    /// warning is given if `warn` says so.
    #[verifier::opaque]
    pub open spec fn baud_rate_stepped(self, forward: bool, warn: bool) -> AppView {
        if self.can_step(self.baud_rate_state) {
            let selected = self.baud_rate_state.selected.unwrap();
            self.with_baud_rate(
                if forward {
                    next_index(selected, self.baud_rate_options.len())
                } else {
                    prev_index(selected, self.baud_rate_options.len())
                },
            )
        } else if warn {
            self.warning(LOCKED_WARNING@)
        } else {
            self
        }
    }

    /// The state after the data bits were moved with an arrow key.
    #[verifier::opaque]
    pub open spec fn data_bits_stepped(self, forward: bool) -> AppView {
        if self.config_locked {
            self.warning(LOCKED_WARNING@)
        } else {
            match self.data_bits_state.selected {
                Some(selected) => self.with_data_bits(
                    if forward {
                        next_index(selected, self.data_bits_options.len())
                    } else {
                        prev_index(selected, self.data_bits_options.len())
                    },
                ),
                None => self,
            }
        }
    }

    /// The state after the parity was moved with an arrow key.
    #[verifier::opaque]
    pub open spec fn parity_stepped(self, forward: bool) -> AppView {
        if self.config_locked {
            self.warning(LOCKED_WARNING@)
        } else {
            match self.parity_state.selected {
                Some(selected) => self.with_parity(
                    if forward {
                        next_index(selected, self.parity_options.len())
                    } else {
                        prev_index(selected, self.parity_options.len())
                    },
                ),
                None => self,
            }
        }
    }

    /// The state after the stop bits were moved with an arrow key.
    #[verifier::opaque]
    pub open spec fn stop_bits_stepped(self, forward: bool) -> AppView {
        if self.config_locked {
            self.warning(LOCKED_WARNING@)
        } else {
            match self.stop_bits_state.selected {
                Some(selected) => self.with_stop_bits(
                    if forward {
                        next_index(selected, self.stop_bits_options.len())
                    } else {
                        prev_index(selected, self.stop_bits_options.len())
                    },
                ),
                None => self,
            }
        }
    }

    /// The state after the flow control was moved with an arrow key.
    #[verifier::opaque]
    pub open spec fn flow_control_stepped(self, forward: bool) -> AppView {
        if self.config_locked {
            self.warning(LOCKED_WARNING@)
        } else {
            match self.flow_control_state.selected {
                Some(selected) => self.with_flow_control(
                    if forward {
                        next_index(selected, self.flow_control_options.len())
                    } else {
                        prev_index(selected, self.flow_control_options.len())
                    },
                ),
                None => self,
            }
        }
    }

    /// The state after an up (`forward` false) or down arrow outside the
    /// send box: the focused list moves to its neighbouring item, and on
    /// the log the display mode is switched.
    #[verifier::opaque]
    pub open spec fn field_stepped(self, forward: bool) -> AppView {
        match self.focused_field {
            FocusedField::Port => self.port_stepped(forward, true),
            FocusedField::BaudRate => self.baud_rate_stepped(forward, true),
            FocusedField::DataBits => self.data_bits_stepped(forward),
            FocusedField::Parity => self.parity_stepped(forward),
            FocusedField::StopBits => self.stop_bits_stepped(forward),
            FocusedField::FlowControl => self.flow_control_stepped(forward),
            FocusedField::LogArea => self.display_toggled("显示模式: "@),
            FocusedField::TxInput => self,
        }
    }

    /// The state after the parity key.
    #[verifier::opaque]
    pub open spec fn parity_key(self) -> AppView {
        if self.can_step(self.parity_state) {
            let next = self.with_parity(
                next_index(self.parity_state.selected.unwrap(), self.parity_options.len()),
            );
            next.info("校验位: "@ + next.config.parity.name_spec())
        } else {
            self.warning(LOCKED_WARNING@)
        }
    }

    /// The state after the flow control key.
    #[verifier::opaque]
    pub open spec fn flow_control_key(self) -> AppView {
        if self.can_step(self.flow_control_state) {
            let next = self.with_flow_control(
                next_index(
                    self.flow_control_state.selected.unwrap(),
                    self.flow_control_options.len(),
                ),
            );
            next.info("流控: "@ + next.config.flow_control.name_spec())
        } else {
            self.warning(LOCKED_WARNING@)
        }
    }

    /// The state and the command after the connect key. While connected,
    /// the key disconnects: the configuration is unlocked and the port is
    /// to be closed. Otherwise the configuration is checked: a fault gives
    /// a warning and no connection is attempted, a valid configuration asks
    /// for the port to be opened.
    #[verifier::opaque]
    pub open spec fn connect_key(self, connected: bool) -> KeyResult {
        if connected {
            KeyResult {
                state: AppView { is_connected: false, config_locked: false, ..self }.info(
                    "已断开连接，配置已解锁"@,
                ),
                command: CommandView::Disconnect,
            }
        } else {
            match self.config.fault() {
                Some(fault) => only(self.warning(fault.message())),
                None => KeyResult { state: self, command: CommandView::Connect },
            }
        }
    }

    /// The bytes that the text of the send box stands for: its UTF-8
    /// encoding in plain-text mode, the decoded bytes in hexadecimal mode.
    #[verifier::opaque]
    pub open spec fn payload(self) -> Result<Seq<u8>, HexFault> {
        match self.tx_mode {
            TxMode::Ascii => Ok(vstd::utf8::encode_utf8(self.tx_input)),
            TxMode::Hex => hex_decoding(self.tx_input),
        }
    }

    /// The state and the command after enter in the send box. An empty box
    /// gives a warning, a closed port an error, and text that is no
    /// hexadecimal byte string an error that leaves the text as it is.
    /// Otherwise the payload with the suffix of the append mode is to be
    /// sent; the box is cleared once it was.
    #[verifier::opaque]
    pub open spec fn send_key(self, connected: bool) -> KeyResult {
        if self.tx_input.len() == 0 {
            only(self.warning("输入内容为空"@))
        } else if !connected {
            only(self.error("未连接串口"@))
        } else {
            match self.payload() {
                Ok(data) => KeyResult {
                    state: self,
                    command: CommandView::Send(data + self.tx_append_mode.bytes_spec()),
                },
                Err(fault) => only(self.error("HEX 格式错误: "@ + fault_message(fault))),
            }
        }
    }

    /// The state with the focus on the next field of the ring.
    #[verifier::opaque]
    pub open spec fn focus_advanced(self) -> AppView {
        AppView { focused_field: self.focused_field.next_spec(), ..self }
    }

    /// The state with the focus on the previous field of the ring.
    #[verifier::opaque]
    pub open spec fn focus_retreated(self) -> AppView {
        AppView { focused_field: self.focused_field.prev_spec(), ..self }
    }

    /// The state after `c` was typed into the send box: it stands before
    /// the cursor, which moved on by one.
    #[verifier::opaque]
    pub open spec fn typed(self, c: char) -> AppView {
        AppView {
            tx_input: inserted(self.tx_input, self.tx_cursor as int, c),
            tx_cursor: (self.tx_cursor + 1) as usize,
            ..self
        }
    }

    /// The state after backspace in the send box: the character before
    /// the cursor is gone, if there was one.
    #[verifier::opaque]
    pub open spec fn backspaced(self) -> AppView {
        if self.tx_cursor > 0 {
            AppView {
                tx_input: self.tx_input.remove(self.tx_cursor - 1),
                tx_cursor: (self.tx_cursor - 1) as usize,
                ..self
            }
        } else {
            self
        }
    }

    /// The state after delete in the send box: the character at the cursor
    /// is gone, if there was one.
    #[verifier::opaque]
    pub open spec fn deleted(self) -> AppView {
        if self.tx_cursor < self.tx_input.len() {
            AppView { tx_input: self.tx_input.remove(self.tx_cursor as int), ..self }
        } else {
            self
        }
    }

    /// The state with the cursor one character to the left, if it was not
    /// at the start.
    #[verifier::opaque]
    pub open spec fn cursor_left(self) -> AppView {
        if self.tx_cursor > 0 {
            AppView { tx_cursor: (self.tx_cursor - 1) as usize, ..self }
        } else {
            self
        }
    }

    /// The state with the cursor one character to the right, if it was
    /// not at the end.
    #[verifier::opaque]
    pub open spec fn cursor_right(self) -> AppView {
        if self.tx_cursor < self.tx_input.len() {
            AppView { tx_cursor: (self.tx_cursor + 1) as usize, ..self }
        } else {
            self
        }
    }

    /// The state with the cursor at position `at`.
    #[verifier::opaque]
    pub open spec fn cursor_at(self, at: usize) -> AppView {
        AppView { tx_cursor: at, ..self }
    }

    /// The state with an empty send box.
    #[verifier::opaque]
    pub open spec fn input_cleared(self) -> AppView {
        AppView { tx_input: Seq::empty(), tx_cursor: 0, ..self }
    }

    /// The state and the command after a key in the send box.
    #[verifier::opaque]
    pub open spec fn tx_key(self, code: KeyCode, connected: bool) -> KeyResult {
        match code {
            KeyCode::Tab => only(self.focus_advanced()),
            KeyCode::BackTab => only(self.focus_retreated()),
            KeyCode::Char(c) => only(self.typed(c)),
            KeyCode::Backspace => only(self.backspaced()),
            KeyCode::Up | KeyCode::Down => only(self.tx_mode_toggled()),
            KeyCode::Delete => only(self.deleted()),
            KeyCode::Left => only(self.cursor_left()),
            KeyCode::Right => only(self.cursor_right()),
            KeyCode::Home => only(self.cursor_at(0)),
            KeyCode::End => only(self.cursor_at(self.tx_input.len() as usize)),
            KeyCode::Enter => self.send_key(connected),
            KeyCode::Esc => only(self.input_cleared()),
            _ => only(self),
        }
    }

    /// The state after the log was scrolled to `offset`, with automatic
    /// scrolling switched as given.
    #[verifier::opaque]
    pub open spec fn scrolled_to(self, offset: u16, auto_scroll: bool) -> AppView {
        AppView { auto_scroll, scroll_offset: offset, ..self }
    }

    /// The state after a left (`forward` false) or right arrow outside the
    /// send box: on the baud rate it moves the baud rate.
    #[verifier::opaque]
    pub open spec fn sideways(self, forward: bool) -> AppView {
        if self.focused_field == FocusedField::BaudRate {
            self.baud_rate_stepped(forward, true)
        } else {
            self
        }
    }

    /// The state and the command after a letter outside menu, help overlay
    /// and send box: `q` quits, `o` connects or disconnects, `k`, `j`, `l`
    /// and `h` stand for the arrows up, down, right and left, `x` switches
    /// the display mode, `a` automatic scrolling, `c` clears the log, `p`
    /// and `f` move parity and flow control, `n` moves the append mode and
    /// `r` asks for the list of ports.
    #[verifier::opaque]
    pub open spec fn global_char(self, c: char, connected: bool) -> KeyResult {
        if c == 'q' {
            KeyResult { state: self, command: CommandView::Quit }
        } else if c == 'o' {
            self.connect_key(connected)
        } else if c == 'k' {
            only(self.field_stepped(false))
        } else if c == 'j' {
            only(self.field_stepped(true))
        } else if c == 'l' {
            only(self.sideways(true))
        } else if c == 'h' {
            only(self.sideways(false))
        } else if c == 'x' {
            only(self.display_toggled("切换显示模式: "@))
        } else if c == 'a' {
            only(self.auto_scroll_toggled())
        } else if c == 'c' {
            only(self.log_cleared())
        } else if c == 'p' {
            only(self.parity_key())
        } else if c == 'f' {
            only(self.flow_control_key())
        } else if c == 'n' {
            only(self.append_mode_advanced())
        } else if c == 'r' {
            KeyResult { state: self, command: CommandView::RefreshPorts }
        } else {
            only(self)
        }
    }

    /// The state after a key that scrolls the log: page up and page down
    /// move by ten lines, home goes to the first line and end to the last.
    /// Scrolling up and home switch automatic scrolling off, end switches
    /// it on. Any other key leaves the state as it is.
    #[verifier::opaque]
    pub open spec fn scroll_key(self, code: KeyCode) -> AppView {
        match code {
            KeyCode::PageUp => self.scrolled_to(scrolled_up(self.scroll_offset, 10), false),
            KeyCode::PageDown => self.scrolled_to(
                scrolled_down(self.scroll_offset, 10),
                self.auto_scroll,
            ),
            KeyCode::Home => self.scrolled_to(0, false),
            KeyCode::End => self.scrolled_to(
                last_line_offset(self.message_log.entries.len()),
                true,
            ),
            _ => self,
        }
    }

    /// The state and the command after a key outside menu, help overlay
    /// and send box. Escape quits, tab and back-tab move the focus, the
    /// arrows move the focused list, and page up, page down, home and end
    /// scroll the log; letters are read by [`AppView::global_char`].
    #[verifier::opaque]
    pub open spec fn global_key(self, code: KeyCode, connected: bool) -> KeyResult {
        match code {
            KeyCode::Char(c) => self.global_char(c, connected),
            KeyCode::Esc => KeyResult { state: self, command: CommandView::Quit },
            KeyCode::Tab => only(self.focus_advanced()),
            KeyCode::BackTab => only(self.focus_retreated()),
            KeyCode::Up => only(self.field_stepped(false)),
            KeyCode::Down => only(self.field_stepped(true)),
            KeyCode::Right => only(self.sideways(true)),
            KeyCode::Left => only(self.sideways(false)),
            KeyCode::PageUp | KeyCode::PageDown | KeyCode::Home | KeyCode::End => only(
                self.scroll_key(code),
            ),
            _ => only(self),
        }
    }

    /// The state with the help overlay shown or hidden.
    #[verifier::opaque]
    pub open spec fn help_shown(self, shown: bool) -> AppView {
        AppView { show_shortcuts_help: shown, ..self }
    }

    /// The state with the menu in state `menu_state`.
    #[verifier::opaque]
    pub open spec fn with_menu(self, menu_state: MenuState) -> AppView {
        AppView { menu_state, ..self }
    }

    /// The state after the language was switched, with its notification.
    #[verifier::opaque]
    pub open spec fn language_toggled(self) -> AppView {
        AppView { language: self.language.toggled_spec(), ..self }.success(
            translation("notify.language_changed"@, self.language.toggled_spec()),
        )
    }

    /// The state and the command after a key while the help overlay is
    /// shown: escape, F1, `q` and `?` close it, and no key gets past it.
    #[verifier::opaque]
    pub open spec fn help_key(self, code: KeyCode) -> KeyResult {
        match code {
            KeyCode::Esc | KeyCode::F(1) | KeyCode::Char('q') | KeyCode::Char('?') => only(
                self.help_shown(false),
            ),
            _ => only(self),
        }
    }

    /// The state and the command after a menu item was activated. The
    /// items for sessions and layouts only announce themselves, and a
    /// separator does nothing.
    #[verifier::opaque]
    pub open spec fn menu_action(self, action: MenuAction) -> KeyResult {
        match action {
            MenuAction::SaveConfig => KeyResult { state: self, command: CommandView::SaveConfig },
            MenuAction::LoadConfig => KeyResult { state: self, command: CommandView::LoadConfig },
            MenuAction::Exit => KeyResult { state: self, command: CommandView::Quit },
            MenuAction::ToggleLanguage => only(self.language_toggled()),
            MenuAction::ShowShortcuts => only(self.help_shown(!self.show_shortcuts_help)),
            MenuAction::ShowAbout => only(self.info(about_text(self.language))),
            MenuAction::NewSession
            | MenuAction::DuplicateSession
            | MenuAction::RenameSession
            | MenuAction::CloseSession => only(self.info("Multi-session support coming soon!"@)),
            MenuAction::ViewSingle
            | MenuAction::ViewSplitHorizontal
            | MenuAction::ViewSplitVertical
            | MenuAction::ViewGrid2x2
            | MenuAction::ViewNextPane
            | MenuAction::ViewPrevPane => only(self.info("Layout management coming soon!"@)),
            MenuAction::Separator => only(self),
        }
    }

    /// The state and the command after item `item` of menu `menu` was
    /// activated, if there is such an item; nothing happens otherwise.
    #[verifier::opaque]
    pub open spec fn menu_item_activated(self, menu: usize, item: usize) -> KeyResult {
        if item < menu_items(menu as int).len() {
            self.menu_action(menu_items(menu as int)[item as int])
        } else {
            only(self)
        }
    }

    /// What the menu makes of a key, or `None` where the key is not for the
    /// menu. With the menu closed, F10 opens the bar and moves the focus to
    /// the log, F1 and `?` switch the help overlay, and control-S and
    /// control-O ask for the configuration to be saved and loaded.
    #[verifier::opaque]
    pub open spec fn menu_key(self, key: KeyEvent) -> Option<KeyResult> {
        match self.menu_state.step_for(key.code) {
            MenuStep::Opened => Some(
                only(
                    AppView {
                        focused_field: FocusedField::LogArea,
                        ..self.with_menu(self.menu_state.after_key(key.code))
                    },
                ),
            ),
            MenuStep::Consumed => Some(only(self.with_menu(self.menu_state.after_key(key.code)))),
            MenuStep::Activated(menu, item) => {
                let done = self.menu_item_activated(menu, item);
                Some(
                    KeyResult {
                        state: done.state.with_menu(MenuState::Closed),
                        command: done.command,
                    },
                )
            },
            MenuStep::Pass => if key.code == KeyCode::F(1) || key.code == KeyCode::Char('?') {
                Some(only(self.help_shown(!self.show_shortcuts_help)))
            } else if key.code == KeyCode::Char('s') && key.ctrl {
                Some(KeyResult { state: self, command: CommandView::SaveConfig })
            } else if key.code == KeyCode::Char('o') && key.ctrl {
                Some(KeyResult { state: self, command: CommandView::LoadConfig })
            } else {
                None
            },
        }
    }

    /// The state after the port was opened: connected and locked, with a
    /// notification that names the port.
    #[verifier::opaque]
    pub open spec fn connected(self) -> AppView {
        AppView { is_connected: true, config_locked: true, ..self }.success(
            "已连接: "@ + self.config.port + " (配置已锁定)"@,
        )
    }

    /// The state after the port could not be opened: disconnected and
    /// unlocked, with an error notification that gives the reason.
    #[verifier::opaque]
    pub open spec fn connect_failed(self, reason: Seq<char>) -> AppView {
        AppView { is_connected: false, config_locked: false, ..self }.error(
            "连接失败: "@ + reason,
        )
    }

    /// What is said of the append mode when data was sent: nothing where
    /// nothing is appended, else the name of the mode.
    #[verifier::opaque]
    pub open spec fn append_note(self) -> Seq<char> {
        if self.tx_append_mode.bytes_spec().len() == 0 {
            Seq::empty()
        } else {
            " + "@ + self.tx_append_mode.name_spec()
        }
    }

    /// `self` is what the state `before` becomes once `data` was written
    /// to the port: the transmission is logged, a notification says so,
    /// the send box is empty, and with automatic scrolling the log shows
    /// its last line.
    #[verifier::opaque]
    pub open spec fn is_after_sending(self, before: AppView, data: Seq<u8>) -> bool {
        &&& self.message_log.logged(before.message_log, LogDirection::Tx, data)
        &&& self == AppView {
            message_log: self.message_log,
            scroll_offset: if before.auto_scroll {
                last_line_offset(self.message_log.entries.len())
            } else {
                before.scroll_offset
            },
            ..before.input_cleared().success("已发送"@ + before.append_note())
        }
    }

    /// `self` is what the state `before` becomes once `data` was read from
    /// the port: nothing changes for no data; else the reception is logged
    /// and with automatic scrolling the log shows its last line.
    #[verifier::opaque]
    pub open spec fn is_after_receiving(self, before: AppView, data: Seq<u8>) -> bool {
        if data.len() == 0 {
            self == before
        } else {
            &&& self.message_log.logged(before.message_log, LogDirection::Rx, data)
            &&& self == AppView {
                message_log: self.message_log,
                scroll_offset: if before.auto_scroll {
                    last_line_offset(self.message_log.entries.len())
                } else {
                    before.scroll_offset
                },
                ..before
            }
        }
    }

    /// The state with the list of ports replaced by `ports`. If there are
    /// ports and none is selected, the first one is chosen.
    #[verifier::opaque]
    pub open spec fn with_ports(self, ports: Seq<Seq<char>>) -> AppView {
        let listed = AppView { ports, ..self };
        if ports.len() > 0 && self.port_list_state.selected is None {
            listed.with_port(0)
        } else {
            listed
        }
    }

    /// The state at startup once the ports were listed. With no ports
    /// nothing is chosen. A configured port that is in the list is
    /// selected; without a configured port, or with one that is not in the
    /// list, the first port is chosen.
    #[verifier::opaque]
    pub open spec fn with_initial_ports(self, ports: Seq<Seq<char>>) -> AppView {
        let listed = AppView { ports, ..self };
        if ports.len() == 0 {
            listed
        } else if self.config.port.len() == 0 {
            listed.with_port(0)
        } else {
            match crate::selection::first_position(ports, self.config.port) {
                Some(i) => AppView {
                    port_list_state: self.port_list_state.after_select(Some(i as usize)),
                    ..listed
                },
                None => listed.with_port(0),
            }
        }
    }

    /// The state and the command after a key event.
    ///
    /// Only presses count. The menu comes first, then the help overlay,
    /// then the send box if it has the focus, then the keys that work
    /// everywhere else.
    #[verifier::opaque]
    pub open spec fn after_key(self, key: KeyEvent, connected: bool) -> KeyResult {
        if !key.pressed {
            only(self)
        } else {
            match self.menu_key(key) {
                Some(result) => result,
                None => if self.show_shortcuts_help {
                    self.help_key(key.code)
                } else if self.focused_field == FocusedField::TxInput {
                    self.tx_key(key.code, connected)
                } else {
                    self.global_key(key.code, connected)
                },
            }
        }
    }
}

/// `a` followed by `b`.
pub(crate) fn joined(a: &str, b: &str) -> (r: String)
    ensures
        r@ == a@ + b@,
{
    let mut r = String::from_str(a);
    r.append(b);
    r
}

/// The offset that shows the last of `lines` log lines.
pub(crate) fn offset_of_last_line(lines: usize) -> (r: u16)
    ensures
        r == last_line_offset(lines as nat),
{
    let shown = lines as u16;
    if shown == 0 {
        0
    } else {
        shown - 1
    }
}

impl AppState {
    /// Switches the display mode and says so, the message opening with
    /// `prefix`.
    pub(crate) fn toggle_display_and_tell(&mut self, prefix: &str)
        ensures
            final(self)@ == old(self)@.display_toggled(prefix@),
            old(self).wf() ==> final(self).wf(),
            starts_with(final(self).notifications@, old(self).notifications@),
    {
        proof {
            reveal(AppView::display_toggled);
        }
        self.toggle_display_mode();
        let message = joined(prefix, self.display_mode.label());
        self.add_info(message.as_str());
    }

    /// Switches the transmission mode and says so.
    pub(crate) fn toggle_tx_mode_and_tell(&mut self)
        ensures
            final(self)@ == old(self)@.tx_mode_toggled(),
            old(self).wf() ==> final(self).wf(),
            starts_with(final(self).notifications@, old(self).notifications@),
    {
        proof {
            reveal(AppView::tx_mode_toggled);
        }
        self.toggle_tx_mode();
        let message = joined("发送模式: ", self.tx_mode.label());
        self.add_info(message.as_str());
    }

    /// Moves the port selection to the neighbouring port.
    pub(crate) fn step_port(&mut self, forward: bool, announce: bool)
        requires
            old(self).wf(),
        ensures
            final(self)@ == old(self)@.port_stepped(forward, announce),
            final(self).wf(),
            starts_with(final(self).notifications@, old(self).notifications@),
    {
        proof {
            reveal(AppView::port_stepped);
            reveal(AppView::port_neighbour);
        }
        if !self.can_modify_config() {
            self.add_warning(LOCKED_WARNING);
        } else if let Some(idx) = self.port_list_state.selected() {
            let count = self.ports.len();
            let last = if count == 0 {
                0
            } else {
                count - 1
            };
            let new_idx = if forward {
                if idx < last {
                    idx + 1
                } else {
                    0
                }
            } else {
                if idx > 0 {
                    idx - 1
                } else {
                    last
                }
            };
            if self.select_port(new_idx) {
                if announce {
                    let message = joined("选择串口: ", self.config.port.as_str());
                    self.add_info(message.as_str());
                }
            }
        }
    }

    /// Moves the baud rate to its neighbour.
    pub(crate) fn step_baud_rate(&mut self, forward: bool, warn: bool)
        requires
            old(self).wf(),
        ensures
            final(self)@ == old(self)@.baud_rate_stepped(forward, warn),
            final(self).wf(),
            starts_with(final(self).notifications@, old(self).notifications@),
    {
        proof {
            reveal(AppView::baud_rate_stepped);
        }
        let moved = if forward {
            self.next_baud_rate()
        } else {
            self.prev_baud_rate()
        };
        if !moved && warn {
            self.add_warning(LOCKED_WARNING);
        }
    }

    /// What an up or down arrow does outside the send box.
    fn step_field(&mut self, forward: bool)
        requires
            old(self).wf(),
        ensures
            final(self)@ == old(self)@.field_stepped(forward),
            final(self).wf(),
            starts_with(final(self).notifications@, old(self).notifications@),
    {
        proof {
            reveal(AppView::field_stepped);
            reveal(AppView::data_bits_stepped);
            reveal(AppView::parity_stepped);
            reveal(AppView::stop_bits_stepped);
            reveal(AppView::flow_control_stepped);
        }
        match self.focused_field {
            FocusedField::Port => {
                self.step_port(forward, true);
            },
            FocusedField::BaudRate => {
                self.step_baud_rate(forward, true);
            },
            FocusedField::DataBits => {
                if !self.can_modify_config() {
                    self.add_warning(LOCKED_WARNING);
                } else if forward {
                    let _ = self.next_data_bits();
                } else {
                    let _ = self.prev_data_bits();
                }
            },
            FocusedField::Parity => {
                if !self.can_modify_config() {
                    self.add_warning(LOCKED_WARNING);
                } else if forward {
                    let _ = self.toggle_parity();
                } else {
                    let _ = self.prev_parity();
                }
            },
            FocusedField::StopBits => {
                if !self.can_modify_config() {
                    self.add_warning(LOCKED_WARNING);
                } else if forward {
                    let _ = self.next_stop_bits();
                } else {
                    let _ = self.prev_stop_bits();
                }
            },
            FocusedField::FlowControl => {
                if !self.can_modify_config() {
                    self.add_warning(LOCKED_WARNING);
                } else if forward {
                    let _ = self.toggle_flow_control();
                } else {
                    let _ = self.prev_flow_control();
                }
            },
            FocusedField::LogArea => {
                self.toggle_display_and_tell("显示模式: ");
            },
            FocusedField::TxInput => {},
        }
    }

    /// Types `c` into the send box.
    fn type_char(&mut self, c: char)
        requires
            old(self).wf(),
        ensures
            final(self)@ == old(self)@.typed(c),
            final(self).wf(),
            starts_with(final(self).notifications@, old(self).notifications@),
    {
        proof {
            reveal(AppView::typed);
        }
        let mut chars = chars_of(self.tx_input.as_str());
        chars.insert(self.tx_cursor, c);
        let _ = chars.len();
        self.tx_input = string_of(chars.as_slice());
        self.tx_cursor += 1;
    }

    /// Removes the character before the cursor.
    fn backspace(&mut self)
        requires
            old(self).wf(),
        ensures
            final(self)@ == old(self)@.backspaced(),
            final(self).wf(),
            starts_with(final(self).notifications@, old(self).notifications@),
    {
        proof {
            reveal(AppView::backspaced);
        }
        if self.tx_cursor > 0 {
            let mut chars = chars_of(self.tx_input.as_str());
            let _ = chars.remove(self.tx_cursor - 1);
            self.tx_input = string_of(chars.as_slice());
            self.tx_cursor -= 1;
        }
    }

    /// Removes the character at the cursor.
    fn delete(&mut self)
        requires
            old(self).wf(),
        ensures
            final(self)@ == old(self)@.deleted(),
            final(self).wf(),
            starts_with(final(self).notifications@, old(self).notifications@),
    {
        proof {
            reveal(AppView::deleted);
        }
        let mut chars = chars_of(self.tx_input.as_str());
        if self.tx_cursor < chars.len() {
            let _ = chars.remove(self.tx_cursor);
            self.tx_input = string_of(chars.as_slice());
        }
    }

    /// Moves the cursor one character to the left.
    fn move_cursor_left(&mut self)
        requires
            old(self).wf(),
        ensures
            final(self)@ == old(self)@.cursor_left(),
            final(self).wf(),
            starts_with(final(self).notifications@, old(self).notifications@),
    {
        proof {
            reveal(AppView::cursor_left);
        }
        if self.tx_cursor > 0 {
            self.tx_cursor -= 1;
        }
    }

    /// Moves the cursor one character to the right.
    fn move_cursor_right(&mut self)
        requires
            old(self).wf(),
        ensures
            final(self)@ == old(self)@.cursor_right(),
            final(self).wf(),
            starts_with(final(self).notifications@, old(self).notifications@),
    {
        proof {
            reveal(AppView::cursor_right);
        }
        if self.tx_cursor < self.tx_input.as_str().unicode_len() {
            self.tx_cursor += 1;
        }
    }

    /// Moves the cursor to the start or to the end of the text.
    pub(crate) fn move_cursor_to_end(&mut self, end: bool)
        requires
            old(self).wf(),
        ensures
            final(self)@ == old(self)@.cursor_at(
                if end {
                    old(self)@.tx_input.len() as usize
                } else {
                    0
                },
            ),
            final(self).wf(),
            starts_with(final(self).notifications@, old(self).notifications@),
    {
        proof {
            reveal(AppView::cursor_at);
        }
        if end {
            self.tx_cursor = self.tx_input.as_str().unicode_len();
        } else {
            self.tx_cursor = 0;
        }
    }

    /// Empties the send box.
    pub(crate) fn clear_input(&mut self)
        requires
            old(self).wf(),
        ensures
            final(self)@ == old(self)@.input_cleared(),
            final(self).wf(),
            starts_with(final(self).notifications@, old(self).notifications@),
    {
        proof {
            reveal(AppView::input_cleared);
        }
        self.tx_input = String::new();
        self.tx_cursor = 0;
    }

    /// Scrolls the log to `offset` and switches automatic scrolling.
    pub(crate) fn scroll_to(&mut self, offset: u16, auto_scroll: bool)
        requires
            old(self).wf(),
        ensures
            final(self)@ == old(self)@.scrolled_to(offset, auto_scroll),
            final(self).wf(),
            starts_with(final(self).notifications@, old(self).notifications@),
    {
        proof {
            reveal(AppView::scrolled_to);
        }
        self.auto_scroll = auto_scroll;
        self.scroll_offset = offset;
    }

    /// Scrolls the log by ten lines. Scrolling up switches automatic
    /// scrolling off.
    fn scroll_page(&mut self, up: bool)
        requires
            old(self).wf(),
        ensures
            final(self)@ == if up {
                old(self)@.scrolled_to(scrolled_up(old(self)@.scroll_offset, 10), false)
            } else {
                old(self)@.scrolled_to(
                    scrolled_down(old(self)@.scroll_offset, 10),
                    old(self)@.auto_scroll,
                )
            },
            final(self).wf(),
            starts_with(final(self).notifications@, old(self).notifications@),
    {
        if up {
            self.scroll_to(self.scroll_offset.saturating_sub(10), false);
        } else {
            self.scroll_to(self.scroll_offset.saturating_add(10), self.auto_scroll);
        }
    }

    /// Scrolls the log to its last line and switches automatic scrolling
    /// on.
    fn scroll_to_last_line(&mut self)
        requires
            old(self).wf(),
        ensures
            final(self)@ == old(self)@.scrolled_to(
                last_line_offset(old(self)@.message_log.entries.len()),
                true,
            ),
            final(self).wf(),
            starts_with(final(self).notifications@, old(self).notifications@),
    {
        self.scroll_to(offset_of_last_line(self.message_log.len()), true);
    }

    /// Switches automatic scrolling and says so.
    pub(crate) fn toggle_auto_scroll_and_tell(&mut self)
        requires
            old(self).wf(),
        ensures
            final(self)@ == old(self)@.auto_scroll_toggled(),
            final(self).wf(),
            starts_with(final(self).notifications@, old(self).notifications@),
    {
        proof {
            reveal(AppView::auto_scroll_toggled);
        }
        self.auto_scroll = !self.auto_scroll;
        let status = if self.auto_scroll {
            "启用"
        } else {
            "禁用"
        };
        let message = joined("自动滚动: ", status);
        self.add_info(message.as_str());
    }

    /// Clears the log and says so.
    pub(crate) fn clear_log_and_tell(&mut self)
        requires
            old(self).wf(),
        ensures
            final(self)@ == old(self)@.log_cleared(),
            final(self).wf(),
            starts_with(final(self).notifications@, old(self).notifications@),
    {
        proof {
            reveal(AppView::log_cleared);
        }
        self.message_log.clear();
        self.add_info("已清空消息记录");
    }

    /// What the parity key does.
    fn handle_parity_key(&mut self)
        requires
            old(self).wf(),
        ensures
            final(self)@ == old(self)@.parity_key(),
            final(self).wf(),
            starts_with(final(self).notifications@, old(self).notifications@),
    {
        proof {
            reveal(AppView::parity_key);
        }
        if self.toggle_parity() {
            let message = joined("校验位: ", self.config.parity.name());
            self.add_info(message.as_str());
        } else {
            self.add_warning(LOCKED_WARNING);
        }
    }

    /// What the flow control key does.
    fn handle_flow_control_key(&mut self)
        requires
            old(self).wf(),
        ensures
            final(self)@ == old(self)@.flow_control_key(),
            final(self).wf(),
            starts_with(final(self).notifications@, old(self).notifications@),
    {
        proof {
            reveal(AppView::flow_control_key);
        }
        if self.toggle_flow_control() {
            let message = joined("流控: ", self.config.flow_control.name());
            self.add_info(message.as_str());
        } else {
            self.add_warning(LOCKED_WARNING);
        }
    }

    /// Chooses the next append mode and says so.
    pub(crate) fn advance_append_mode_and_tell(&mut self)
        requires
            old(self).wf(),
        ensures
            final(self)@ == old(self)@.append_mode_advanced(),
            final(self).wf(),
            starts_with(final(self).notifications@, old(self).notifications@),
    {
        proof {
            reveal(AppView::append_mode_advanced);
            reveal(AppView::append_mode_stepped);
        }
        self.next_append_mode();
        let message = joined("追加: ", self.tx_append_mode.name());
        self.add_info(message.as_str());
    }

    /// What a left or right arrow does outside the send box.
    fn step_sideways(&mut self, forward: bool)
        requires
            old(self).wf(),
        ensures
            final(self)@ == old(self)@.sideways(forward),
            final(self).wf(),
            starts_with(final(self).notifications@, old(self).notifications@),
    {
        proof {
            reveal(AppView::sideways);
        }
        if self.focused_field == FocusedField::BaudRate {
            self.step_baud_rate(forward, true);
        }
    }

    /// Shows or hides the help overlay.
    fn show_help(&mut self, shown: bool)
        ensures
            final(self)@ == old(self)@.help_shown(shown),
            old(self).wf() ==> final(self).wf(),
            starts_with(final(self).notifications@, old(self).notifications@),
    {
        proof {
            reveal(AppView::help_shown);
        }
        self.show_shortcuts_help = shown;
    }

    /// Switches the language and says so in the new language.
    fn toggle_language_and_tell(&mut self)
        ensures
            final(self)@ == old(self)@.language_toggled(),
            old(self).wf() ==> final(self).wf(),
            starts_with(final(self).notifications@, old(self).notifications@),
    {
        proof {
            reveal(AppView::language_toggled);
        }
        self.toggle_language();
        self.add_success(t("notify.language_changed", self.language));
    }

    /// Puts the menu into state `menu_state`.
    pub(crate) fn set_menu(&mut self, menu_state: MenuState)
        requires
            menu_state.valid(),
        ensures
            final(self)@ == old(self)@.with_menu(menu_state),
            old(self).wf() ==> final(self).wf(),
            starts_with(final(self).notifications@, old(self).notifications@),
    {
        proof {
            reveal(AppView::with_menu);
        }
        self.menu_state = menu_state;
    }

    /// What the connect key does.
    fn handle_connect_key(&mut self, connected: bool) -> (command: Command)
        ensures
            (KeyResult { state: final(self)@, command: command@ }) == old(self)@.connect_key(
                connected,
            ),
            old(self).wf() ==> final(self).wf(),
            starts_with(final(self).notifications@, old(self).notifications@),
    {
        proof {
            reveal(AppView::connect_key);
        }
        if connected {
            self.is_connected = false;
            self.unlock_config();
            self.add_info("已断开连接，配置已解锁");
            Command::Disconnect
        } else {
            match self.config.validate() {
                Err(message) => {
                    self.add_warning(message.as_str());
                    Command::Nothing
                },
                Ok(_) => Command::Connect,
            }
        }
    }

    /// What enter does in the send box.
    fn handle_send_key(&mut self, connected: bool) -> (command: Command)
        ensures
            (KeyResult { state: final(self)@, command: command@ }) == old(self)@.send_key(connected),
            old(self).wf() ==> final(self).wf(),
            starts_with(final(self).notifications@, old(self).notifications@),
    {
        proof {
            reveal(AppView::send_key);
            reveal(AppView::payload);
        }
        if self.tx_input.as_str().is_empty() {
            self.add_warning("输入内容为空");
            return Command::Nothing;
        }
        if !connected {
            self.add_error("未连接串口");
            return Command::Nothing;
        }
        let bytes: Result<Vec<u8>, String> = match self.tx_mode {
            TxMode::Ascii => Ok(self.tx_input.as_str().as_bytes_vec()),
            TxMode::Hex => hex_to_bytes(self.tx_input.as_str()),
        };
        match bytes {
            Ok(payload) => {
                let mut data = payload;
                let mut suffix = self.tx_append_mode.as_bytes();
                data.append(&mut suffix);
                Command::Send(data)
            },
            Err(e) => {
                let message = joined("HEX 格式错误: ", e.as_str());
                self.add_error(message.as_str());
                Command::Nothing
            },
        }
    }

    /// What a key does in the send box.
    fn handle_tx_key(&mut self, code: KeyCode, connected: bool) -> (command: Command)
        requires
            old(self).wf(),
        ensures
            (KeyResult { state: final(self)@, command: command@ }) == old(self)@.tx_key(
                code,
                connected,
            ),
            final(self).wf(),
            starts_with(final(self).notifications@, old(self).notifications@),
    {
        proof {
            reveal(AppView::tx_key);
        }
        match code {
            KeyCode::Tab => {
                self.move_focus(true);
            },
            KeyCode::BackTab => {
                self.move_focus(false);
            },
            KeyCode::Char(c) => {
                self.type_char(c);
            },
            KeyCode::Backspace => {
                self.backspace();
            },
            KeyCode::Up | KeyCode::Down => {
                self.toggle_tx_mode_and_tell();
            },
            KeyCode::Delete => {
                self.delete();
            },
            KeyCode::Left => {
                self.move_cursor_left();
            },
            KeyCode::Right => {
                self.move_cursor_right();
            },
            KeyCode::Home => {
                self.move_cursor_to_end(false);
            },
            KeyCode::End => {
                self.move_cursor_to_end(true);
            },
            KeyCode::Enter => {
                return self.handle_send_key(connected);
            },
            KeyCode::Esc => {
                self.clear_input();
            },
            _ => {},
        }
        Command::Nothing
    }

    /// What a key does while the help overlay is shown.
    fn handle_help_key(&mut self, code: KeyCode) -> (command: Command)
        ensures
            (KeyResult { state: final(self)@, command: command@ }) == old(self)@.help_key(code),
            old(self).wf() ==> final(self).wf(),
            starts_with(final(self).notifications@, old(self).notifications@),
    {
        proof {
            reveal(AppView::help_key);
        }
        match code {
            KeyCode::Esc | KeyCode::F(1) | KeyCode::Char('q') | KeyCode::Char('?') => {
                self.show_help(false);
            },
            _ => {},
        }
        Command::Nothing
    }

    /// Moves the focus to the next field of the ring, or to the previous
    /// one.
    fn move_focus(&mut self, forward: bool)
        requires
            old(self).wf(),
        ensures
            final(self)@ == if forward {
                old(self)@.focus_advanced()
            } else {
                old(self)@.focus_retreated()
            },
            final(self).wf(),
            starts_with(final(self).notifications@, old(self).notifications@),
    {
        proof {
            reveal(AppView::focus_advanced);
            reveal(AppView::focus_retreated);
        }
        if forward {
            self.focus_next_field();
        } else {
            self.focus_prev_field();
        }
    }

    /// What a key that scrolls the log does.
    fn handle_scroll_key(&mut self, code: KeyCode)
        requires
            old(self).wf(),
        ensures
            final(self)@ == old(self)@.scroll_key(code),
            final(self).wf(),
            starts_with(final(self).notifications@, old(self).notifications@),
    {
        proof {
            reveal(AppView::scroll_key);
        }
        match code {
            KeyCode::PageUp => {
                self.scroll_page(true);
            },
            KeyCode::PageDown => {
                self.scroll_page(false);
            },
            KeyCode::Home => {
                self.scroll_to(0, false);
            },
            KeyCode::End => {
                self.scroll_to_last_line();
            },
            _ => {},
        }
    }

    /// What a letter does outside menu, help overlay and send box.
    fn handle_global_char(&mut self, c: char, connected: bool) -> (command: Command)
        requires
            old(self).wf(),
        ensures
            (KeyResult { state: final(self)@, command: command@ }) == old(self)@.global_char(
                c,
                connected,
            ),
            final(self).wf(),
            starts_with(final(self).notifications@, old(self).notifications@),
    {
        proof {
            reveal(AppView::global_char);
        }
        if c == 'q' {
            return Command::Quit;
        } else if c == 'o' {
            return self.handle_connect_key(connected);
        } else if c == 'k' {
            self.step_field(false);
        } else if c == 'j' {
            self.step_field(true);
        } else if c == 'l' {
            self.step_sideways(true);
        } else if c == 'h' {
            self.step_sideways(false);
        } else if c == 'x' {
            self.toggle_display_and_tell("切换显示模式: ");
        } else if c == 'a' {
            self.toggle_auto_scroll_and_tell();
        } else if c == 'c' {
            self.clear_log_and_tell();
        } else if c == 'p' {
            self.handle_parity_key();
        } else if c == 'f' {
            self.handle_flow_control_key();
        } else if c == 'n' {
            self.advance_append_mode_and_tell();
        } else if c == 'r' {
            return Command::RefreshPorts;
        }
        Command::Nothing
    }

    /// What a key does outside menu, help overlay and send box.
    fn handle_global_key(&mut self, code: KeyCode, connected: bool) -> (command: Command)
        requires
            old(self).wf(),
        ensures
            (KeyResult { state: final(self)@, command: command@ }) == old(self)@.global_key(
                code,
                connected,
            ),
            final(self).wf(),
            starts_with(final(self).notifications@, old(self).notifications@),
    {
        proof {
            reveal(AppView::global_key);
        }
        match code {
            KeyCode::Char(c) => {
                return self.handle_global_char(c, connected);
            },
            KeyCode::Esc => {
                return Command::Quit;
            },
            KeyCode::Tab => {
                self.move_focus(true);
            },
            KeyCode::BackTab => {
                self.move_focus(false);
            },
            KeyCode::Up => {
                self.step_field(false);
            },
            KeyCode::Down => {
                self.step_field(true);
            },
            KeyCode::Right => {
                self.step_sideways(true);
            },
            KeyCode::Left => {
                self.step_sideways(false);
            },
            KeyCode::PageUp | KeyCode::PageDown | KeyCode::Home | KeyCode::End => {
                self.handle_scroll_key(code);
            },
            _ => {},
        }
        Command::Nothing
    }

    /// Carries out item `item_idx` of menu `menu_idx`.
    pub fn handle_menu_action(&mut self, menu_idx: usize, item_idx: usize) -> (command: Command)
        ensures
            (KeyResult { state: final(self)@, command: command@ })
                == old(self)@.menu_item_activated(menu_idx, item_idx),
            old(self).wf() ==> final(self).wf(),
            starts_with(final(self).notifications@, old(self).notifications@),
    {
        proof {
            reveal(AppView::menu_item_activated);
            reveal(AppView::menu_action);
        }
        let action = match MENU_BAR.get_action(menu_idx, item_idx) {
            Some(a) => a,
            None => {
                return Command::Nothing;
            },
        };
        match action {
            MenuAction::SaveConfig => Command::SaveConfig,
            MenuAction::LoadConfig => Command::LoadConfig,
            MenuAction::Exit => Command::Quit,
            MenuAction::ToggleLanguage => {
                self.toggle_language_and_tell();
                Command::Nothing
            },
            MenuAction::ShowShortcuts => {
                self.show_help(!self.show_shortcuts_help);
                Command::Nothing
            },
            MenuAction::ShowAbout => {
                let about_text = match self.language {
                    Language::English => "TuiSerial v0.1.0\nTerminal Serial Port Monitor\n\nA modern serial port debugging tool with mouse support and internationalization.",
                    Language::Chinese => "TuiSerial v0.1.0\n终端串口监控工具\n\n一个现代化的串口调试工具，支持鼠标操作和国际化。",
                };
                self.add_info(about_text);
                Command::Nothing
            },
            MenuAction::NewSession
            | MenuAction::DuplicateSession
            | MenuAction::RenameSession
            | MenuAction::CloseSession => {
                self.add_info("Multi-session support coming soon!");
                Command::Nothing
            },
            MenuAction::ViewSingle
            | MenuAction::ViewSplitHorizontal
            | MenuAction::ViewSplitVertical
            | MenuAction::ViewGrid2x2
            | MenuAction::ViewNextPane
            | MenuAction::ViewPrevPane => {
                self.add_info("Layout management coming soon!");
                Command::Nothing
            },
            MenuAction::Separator => Command::Nothing,
        }
    }

    /// Feeds a key to the menu; `None` where the key is not for the menu.
    fn handle_menu_key(&mut self, key: KeyEvent) -> (command: Option<Command>)
        requires
            old(self).wf(),
        ensures
            match old(self)@.menu_key(key) {
                Some(result) => command is Some && (KeyResult {
                    state: final(self)@,
                    command: command.unwrap()@,
                }) == result,
                None => command is None && final(self)@ == old(self)@,
            },
            final(self).wf(),
            starts_with(final(self).notifications@, old(self).notifications@),
    {
        proof {
            reveal(AppView::menu_key);
        }
        let (next, step) = self.menu_state.on_key(key.code);
        match step {
            MenuStep::Opened => {
                self.set_menu(next);
                self.focused_field = FocusedField::LogArea;
                Some(Command::Nothing)
            },
            MenuStep::Consumed => {
                self.set_menu(next);
                Some(Command::Nothing)
            },
            MenuStep::Activated(menu_idx, item_idx) => {
                let command = self.handle_menu_action(menu_idx, item_idx);
                self.set_menu(MenuState::Closed);
                Some(command)
            },
            MenuStep::Pass => {
                if key.code == KeyCode::F(1) || key.code == KeyCode::Char('?') {
                    self.show_help(!self.show_shortcuts_help);
                    Some(Command::Nothing)
                } else if key.code == KeyCode::Char('s') && key.ctrl {
                    Some(Command::SaveConfig)
                } else if key.code == KeyCode::Char('o') && key.ctrl {
                    Some(Command::LoadConfig)
                } else {
                    None
                }
            },
        }
    }
}

/// Position of the first of `names` that reads `name`.
fn position_of_name(names: &Vec<String>, name: &str) -> (r: Option<usize>)
    ensures
        crate::selection::first_position(names@.map_values(|p: String| p@), name@) == match r {
            Some(i) => Some(i as int),
            None => None,
        },
        match r {
            Some(i) => i < names@.len(),
            None => true,
        },
{
    let ghost texts = names@.map_values(|p: String| p@);
    let mut i: usize = 0;
    while i < names.len()
        invariant
            i <= names@.len(),
            texts == names@.map_values(|p: String| p@),
            forall|j: int| 0 <= j < i ==> texts[j] != name@,
        decreases names@.len() - i,
    {
        assert(texts[i as int] == names@[i as int]@);
        if *names[i].as_str() == *name {
            proof {
                crate::selection::lemma_first_position(texts, name@);
            }
            return Some(i);
        }
        i += 1;
    }
    proof {
        crate::selection::lemma_first_position(texts, name@);
    }
    None
}

impl AppState {
    /// The log can take one more transmission and one more reception.
    pub fn has_room(&self) -> (r: bool)
        ensures
            r == self@.has_room(),
    {
        self.message_log.rx_count < u64::MAX && self.message_log.tx_count < u64::MAX
    }

    /// Whether the state is valid, for callers that set fields directly.
    pub fn is_valid(&self) -> (r: bool)
        ensures
            r == self.wf(),
    {
        let in_range = |selection: &ListSelection, len: usize| -> (ok: bool)
            ensures
                ok == crate::state::selection_within(*selection, len as nat),
            {
                match selection.selected {
                    Some(i) => i < len,
                    None => true,
                }
            };
        let menu_ok = match self.menu_state {
            MenuState::Closed => true,
            MenuState::MenuBar(menu) => menu < 5,
            MenuState::Dropdown(menu, item) => menu < 5 && item < MENU_BAR.get_item_count(menu),
        };
        let port_ok = match self.port_list_state.selected {
            Some(i) => i < usize::MAX,
            None => true,
        };
        self.baud_rate_options.len() > 0 && self.parity_options.len() > 0
            && self.flow_control_options.len() > 0 && self.data_bits_options.len() > 0
            && self.stop_bits_options.len() > 0 && self.append_mode_options.len() > 0 && in_range(
            &self.baud_rate_state,
            self.baud_rate_options.len(),
        ) && in_range(&self.parity_state, self.parity_options.len()) && in_range(
            &self.flow_control_state,
            self.flow_control_options.len(),
        ) && in_range(&self.data_bits_state, self.data_bits_options.len()) && in_range(
            &self.stop_bits_state,
            self.stop_bits_options.len(),
        ) && in_range(&self.append_mode_state, self.append_mode_options.len()) && port_ok
            && self.tx_cursor <= self.tx_input.as_str().unicode_len() && menu_ok
    }

    /// The text of the send box before the cursor and from the cursor on.
    pub fn input_around_cursor(&self) -> (parts: (String, String))
        ensures
            parts.0@ == self@.tx_input.take(
                if self@.tx_cursor <= self@.tx_input.len() {
                    self@.tx_cursor as int
                } else {
                    self@.tx_input.len() as int
                },
            ),
            parts.0@ + parts.1@ == self@.tx_input,
    {
        let chars = chars_of(self.tx_input.as_str());
        let cut = if self.tx_cursor <= chars.len() {
            self.tx_cursor
        } else {
            chars.len()
        };
        let mut before: Vec<char> = Vec::new();
        let mut after: Vec<char> = Vec::new();
        let mut i: usize = 0;
        while i < chars.len()
            invariant
                i <= chars@.len(),
                cut <= chars@.len(),
                before@ == chars@.take(if i <= cut { i as int } else { cut as int }),
                after@ == chars@.subrange(cut as int, if i <= cut { cut as int } else { i as int }),
            decreases chars@.len() - i,
        {
            if i < cut {
                before.push(chars[i]);
                assert(before@ =~= chars@.take(i + 1));
                assert(after@ =~= chars@.subrange(cut as int, cut as int));
            } else {
                after.push(chars[i]);
                assert(after@ =~= chars@.subrange(cut as int, i + 1));
            }
            i += 1;
        }
        assert(before@ + after@ =~= chars@);
        (string_of(before.as_slice()), string_of(after.as_slice()))
    }

    /// Records that the port was opened: see [`AppView::connected`].
    pub fn connection_opened(&mut self)
        ensures
            final(self)@ == old(self)@.connected(),
            old(self).wf() ==> final(self).wf(),
            starts_with(final(self).notifications@, old(self).notifications@),
    {
        proof {
            reveal(AppView::connected);
        }
        self.is_connected = true;
        self.lock_config();
        let mut message = joined("已连接: ", self.config.port.as_str());
        message.append(" (配置已锁定)");
        self.add_success(message.as_str());
    }

    /// Records that the port could not be opened: see
    /// [`AppView::connect_failed`].
    pub fn connection_failed(&mut self, reason: &str)
        ensures
            final(self)@ == old(self)@.connect_failed(reason@),
            old(self).wf() ==> final(self).wf(),
            starts_with(final(self).notifications@, old(self).notifications@),
    {
        proof {
            reveal(AppView::connect_failed);
        }
        self.is_connected = false;
        self.unlock_config();
        let message = joined("连接失败: ", reason);
        self.add_error(message.as_str());
    }

    /// Records that `data` was written to the port: see
    /// [`AppView::is_after_sending`].
    pub fn data_sent(&mut self, data: Vec<u8>)
        requires
            old(self)@.message_log.tx_count < u64::MAX,
        ensures
            final(self)@.is_after_sending(old(self)@, data@),
            old(self).wf() ==> final(self).wf(),
            starts_with(final(self).notifications@, old(self).notifications@),
    {
        proof {
            reveal(AppView::is_after_sending);
            reveal(AppView::append_note);
            reveal(AppView::input_cleared);
        }
        self.message_log.push_tx(data);
        let append_info = if self.tx_append_mode.as_bytes().len() == 0 {
            String::new()
        } else {
            joined(" + ", self.tx_append_mode.name())
        };
        let message = joined("已发送", append_info.as_str());
        self.add_success(message.as_str());
        self.tx_input = String::new();
        self.tx_cursor = 0;
        if self.auto_scroll {
            self.scroll_offset = offset_of_last_line(self.message_log.len());
        }
    }

    /// Records that writing to the port failed: an error notification
    /// gives the reason, and the send box keeps its text.
    pub fn send_failed(&mut self, reason: &str)
        ensures
            final(self)@ == old(self)@.error("发送失败: "@ + reason@),
            old(self).wf() ==> final(self).wf(),
            starts_with(final(self).notifications@, old(self).notifications@),
    {
        let message = joined("发送失败: ", reason);
        self.add_error(message.as_str());
    }

    /// Records that `data` was read from the port: see
    /// [`AppView::is_after_receiving`].
    pub fn data_received(&mut self, data: Vec<u8>)
        requires
            old(self)@.message_log.rx_count < u64::MAX,
        ensures
            final(self)@.is_after_receiving(old(self)@, data@),
            old(self).wf() ==> final(self).wf(),
            starts_with(final(self).notifications@, old(self).notifications@),
    {
        proof {
            reveal(AppView::is_after_receiving);
        }
        if data.len() > 0 {
            self.message_log.push_rx(data);
            if self.auto_scroll {
                self.scroll_offset = offset_of_last_line(self.message_log.len());
            }
        }
    }

    /// Records that the configuration was saved.
    pub fn config_saved(&mut self)
        ensures
            final(self)@ == old(self)@.success(
                translation("notify.config_saved"@, old(self)@.language),
            ),
            old(self).wf() ==> final(self).wf(),
            starts_with(final(self).notifications@, old(self).notifications@),
    {
        self.add_success(t("notify.config_saved", self.language));
    }

    /// Records that the configuration could not be saved: an error
    /// notification gives the reason.
    pub fn config_save_failed(&mut self, reason: &str)
        ensures
            final(self)@ == old(self)@.error(
                translation("notify.config_save_failed"@, old(self)@.language) + ": "@ + reason@,
            ),
            old(self).wf() ==> final(self).wf(),
            starts_with(final(self).notifications@, old(self).notifications@),
    {
        let mut message = joined(t("notify.config_save_failed", self.language), ": ");
        message.append(reason);
        self.add_error(message.as_str());
    }

    /// Records that loading the configuration was tried.
    pub fn config_loaded(&mut self)
        ensures
            final(self)@ == old(self)@.success(
                translation("notify.config_loaded"@, old(self)@.language),
            ),
            old(self).wf() ==> final(self).wf(),
            starts_with(final(self).notifications@, old(self).notifications@),
    {
        self.add_success(t("notify.config_loaded", self.language));
    }

    /// Takes over a fresh list of ports and says so: see
    /// [`AppView::with_ports`].
    pub fn ports_refreshed(&mut self, ports: Vec<String>)
        ensures
            final(self)@ == old(self)@.with_ports(ports@.map_values(|p: String| p@)).success(
                "已刷新串口列表"@,
            ),
            old(self).wf() ==> final(self).wf(),
            starts_with(final(self).notifications@, old(self).notifications@),
    {
        proof {
            reveal(AppView::with_ports);
        }
        self.set_ports(ports);
        if self.ports.len() > 0 && self.port_list_state.selected().is_none() {
            self.choose_first_port();
        }
        self.add_success("已刷新串口列表");
    }

    /// Chooses the first port of a list that is not empty.
    fn choose_first_port(&mut self)
        requires
            old(self).ports@.len() > 0,
        ensures
            final(self)@ == old(self)@.with_port(0),
            old(self).wf() ==> final(self).wf(),
            starts_with(final(self).notifications@, old(self).notifications@),
    {
        self.config.port = self.ports[0].clone();
        self.port_list_state.select(Some(0));
    }

    /// Marks port `index` as selected without touching the configuration.
    fn mark_port(&mut self, index: usize)
        requires
            index < old(self).ports@.len(),
        ensures
            final(self)@ == (AppView {
                port_list_state: old(self)@.port_list_state.after_select(Some(index)),
                ..old(self)@
            }),
            old(self).wf() ==> final(self).wf(),
            starts_with(final(self).notifications@, old(self).notifications@),
    {
        let _ = self.ports.len();
        self.port_list_state.select(Some(index));
    }

    /// Replaces the list of ports.
    fn set_ports(&mut self, ports: Vec<String>)
        ensures
            final(self)@ == (AppView { ports: ports@.map_values(|p: String| p@), ..old(self)@ }),
            final(self).ports == ports,
            old(self).wf() ==> final(self).wf(),
            starts_with(final(self).notifications@, old(self).notifications@),
    {
        self.ports = ports;
    }

    /// Takes over the list of ports found at startup: see
    /// [`AppView::with_initial_ports`].
    pub fn init_ports(&mut self, ports: Vec<String>)
        ensures
            final(self)@ == old(self)@.with_initial_ports(ports@.map_values(|p: String| p@)),
            old(self).wf() ==> final(self).wf(),
            starts_with(final(self).notifications@, old(self).notifications@),
    {
        proof {
            reveal(AppView::with_initial_ports);
        }
        self.set_ports(ports);
        if self.ports.len() > 0 {
            if self.config.port.as_str().is_empty() {
                self.choose_first_port();
            } else {
                match position_of_name(&self.ports, self.config.port.as_str()) {
                    Some(idx) => {
                        self.mark_port(idx);
                    },
                    None => {
                        self.choose_first_port();
                    },
                }
            }
        }
    }
}

/// Handles a key event: changes the state and says which outside work the
/// key asks for. See [`AppView::after_key`].
pub fn handle_key_event(key: KeyEvent, app: &mut AppState, connected: bool) -> (command: Command)
    requires
        old(app).wf(),
    ensures
        (KeyResult { state: final(app)@, command: command@ }) == old(app)@.after_key(
            key,
            connected,
        ),
        final(app).wf(),
        starts_with(final(app).notifications@, old(app).notifications@),
{
    proof {
        reveal(AppView::after_key);
    }
    if !key.pressed {
        return Command::Nothing;
    }
    if let Some(command) = app.handle_menu_key(key) {
        return command;
    }
    if app.show_shortcuts_help {
        return app.handle_help_key(key.code);
    }
    if app.focused_field == FocusedField::TxInput {
        return app.handle_tx_key(key.code, connected);
    }
    app.handle_global_key(key.code, connected)
}

} // verus!
