//! What the mouse does.
//!
//! The first part reads a click, a hover or a turn of the wheel off the
//! rectangles of the widgets and names what is meant. The second part
//! carries a mouse event out on the state of the monitor.

use crate::areas::{
    get_clicked_field, get_clicked_menu, is_inside, is_shortcuts_hint_clicked, UiAreas,
};
use crate::input::{joined, Command, KeyResult, LOCKED_WARNING};
use crate::layout::Rect;
use crate::menu_def::{calculate_menu_x_offset, menu_x_offset};
use crate::session::starts_with;
use crate::state::{AppState, AppView};
use crate::types::{FocusedField, Language, MenuState};
use vstd::prelude::*;

verus! {

/// What a click means.
#[derive(Debug, Clone, Copy, PartialEq, Eq, Structural)]
pub enum MouseAction {
    /// The click hit nothing.
    NoAction,
    /// A field takes the focus.
    FocusField(FocusedField),
    /// The menu with this index opens.
    OpenMenu(usize),
    /// A row of the open dropdown was hit: menu index, and the row counted
    /// from the top border of the dropdown.
    SelectMenuItem(usize, usize),
    /// The tab with this index becomes active.
    SwitchTab(usize),
    ToggleConnection,
    ClearLog,
    RefreshPorts,
    SendData,
    ShowShortcutsHelp,
    CloseShortcutsHelp,
    /// The open menu closes.
    CloseMenu,
}

/// Direction in which the wheel was turned.
#[derive(Debug, Clone, Copy, PartialEq, Eq, Structural)]
pub enum ScrollDirection {
    Up,
    Down,
}

/// What a turn of the wheel means: scroll by this many lines.
#[derive(Debug, Clone, Copy, PartialEq, Eq, Structural)]
pub enum ScrollAction {
    ScrollUp(u16),
    ScrollDown(u16),
}

/// The shape of the mouse cursor over a position.
#[derive(Debug, Clone, Copy, PartialEq, Eq, Structural)]
pub enum CursorType {
    Default,
    /// Over something that reacts to a click.
    Pointer,
    /// Over the send box.
    Text,
    /// Over the shortcuts hint.
    Help,
}

/// The row of a dropdown that screen row `y` is, counted from the top
/// border: 0 for the border, 1 for the row of the first item, and so on.
/// A row outside the dropdown counts as 0.
pub open spec fn dropdown_item_at(dropdown_area: Rect, y: u16) -> usize {
    if y < dropdown_area.y || y >= dropdown_area.y + dropdown_area.height {
        0
    } else {
        (y - dropdown_area.y) as usize
    }
}

/// What a click at the position means while the state is `app` and the
/// widgets lie as `areas` says: see [`handle_mouse_click`].
pub open spec fn click_meaning(
    app: AppView,
    areas: UiAreas,
    x: u16,
    y: u16,
    menu_dropdown_area: Option<Rect>,
) -> MouseAction {
    if app.show_shortcuts_help {
        MouseAction::CloseShortcutsHelp
    } else if app.menu_state is Dropdown && menu_dropdown_area is Some {
        if menu_dropdown_area.unwrap().contains(x, y) {
            MouseAction::SelectMenuItem(
                app.menu_state->Dropdown_0,
                dropdown_item_at(menu_dropdown_area.unwrap(), y),
            )
        } else {
            MouseAction::CloseMenu
        }
    } else if areas.menu_at(x, y) is Some {
        MouseAction::OpenMenu(areas.menu_at(x, y).unwrap())
    } else if areas.shortcuts_hint.contains(x, y) {
        MouseAction::ShowShortcutsHelp
    } else if areas.field_at(x, y) is Some {
        MouseAction::FocusField(areas.field_at(x, y).unwrap())
    } else {
        MouseAction::NoAction
    }
}

/// The tooltip of a menu of the fixed-width menu bar.
pub open spec fn menu_tooltip(menu: usize) -> Seq<char> {
    if menu == 0 {
        "File operations"@
    } else if menu == 1 {
        "Session management"@
    } else if menu == 2 {
        "View layouts"@
    } else if menu == 3 {
        "Application settings"@
    } else if menu == 4 {
        "Help and information"@
    } else {
        ""@
    }
}

/// The tooltip of a field.
pub open spec fn field_tooltip(field: FocusedField) -> Seq<char> {
    match field {
        FocusedField::Port => "Select serial port"@,
        FocusedField::BaudRate => "Select baud rate"@,
        FocusedField::DataBits => "Select data bits"@,
        FocusedField::Parity => "Select parity"@,
        FocusedField::StopBits => "Select stop bits"@,
        FocusedField::FlowControl => "Select flow control"@,
        FocusedField::LogArea => "Serial communication log"@,
        FocusedField::TxInput => "Enter data to send"@,
    }
}

/// The tooltip shown at the position: that of the menu there, else that
/// of the shortcuts hint, else that of the field there.
pub open spec fn tooltip_at(areas: UiAreas, x: u16, y: u16) -> Option<Seq<char>> {
    if areas.menu_at(x, y) is Some {
        Some(menu_tooltip(areas.menu_at(x, y).unwrap()))
    } else if areas.shortcuts_hint.contains(x, y) {
        Some("Click to show keyboard shortcuts"@)
    } else if areas.field_at(x, y) is Some {
        Some(field_tooltip(areas.field_at(x, y).unwrap()))
    } else {
        None
    }
}

/// The cursor shape at the position: text over the send box, help over the
/// shortcuts hint, a pointer over anything else that reacts to a click.
pub open spec fn cursor_at(areas: UiAreas, x: u16, y: u16) -> CursorType {
    if areas.tx_area.contains(x, y) {
        CursorType::Text
    } else if areas.shortcuts_hint.contains(x, y) {
        CursorType::Help
    } else if areas.clickable_at(x, y) {
        CursorType::Pointer
    } else {
        CursorType::Default
    }
}

/// Says what a click at the position means.
///
/// While the help overlay is shown, any click closes it. With a dropdown
/// open, a click inside it names the row that was hit and a click outside
/// closes the menu. Otherwise the click opens the menu under it, shows the
/// help if it hit the shortcuts hint, or focuses the field under it.
pub fn handle_mouse_click(
    app: &AppState,
    areas: &UiAreas,
    x: u16,
    y: u16,
    menu_dropdown_area: Option<Rect>,
) -> (action: MouseAction)
    ensures
        action == click_meaning(app@, *areas, x, y, menu_dropdown_area),
{
    if app.show_shortcuts_help {
        return MouseAction::CloseShortcutsHelp;
    }
    if let MenuState::Dropdown(menu_idx, _) = app.menu_state {
        if let Some(dropdown_area) = menu_dropdown_area {
            if is_inside(dropdown_area, x, y) {
                let item_idx = calculate_dropdown_item(dropdown_area, y);
                return MouseAction::SelectMenuItem(menu_idx, item_idx);
            } else {
                return MouseAction::CloseMenu;
            }
        }
    }
    if let Some(menu_idx) = get_clicked_menu(areas, x, y) {
        return MouseAction::OpenMenu(menu_idx);
    }
    if is_shortcuts_hint_clicked(areas, x, y) {
        return MouseAction::ShowShortcutsHelp;
    }
    if let Some(field) = get_clicked_field(areas, x, y) {
        return MouseAction::FocusField(field);
    }
    MouseAction::NoAction
}

/// The tooltip for the position, if there is one.
pub fn handle_mouse_hover(_app: &AppState, areas: &UiAreas, x: u16, y: u16) -> (r: Option<String>)
    ensures
        match tooltip_at(*areas, x, y) {
            Some(text) => r is Some && r.unwrap()@ == text,
            None => r is None,
        },
{
    if let Some(menu_idx) = get_clicked_menu(areas, x, y) {
        let tooltip = if menu_idx == 0 {
            "File operations"
        } else if menu_idx == 1 {
            "Session management"
        } else if menu_idx == 2 {
            "View layouts"
        } else if menu_idx == 3 {
            "Application settings"
        } else if menu_idx == 4 {
            "Help and information"
        } else {
            ""
        };
        return Some(String::from_str(tooltip));
    }
    if is_shortcuts_hint_clicked(areas, x, y) {
        return Some(String::from_str("Click to show keyboard shortcuts"));
    }
    if let Some(field) = get_clicked_field(areas, x, y) {
        let tooltip = match field {
            FocusedField::Port => "Select serial port",
            FocusedField::BaudRate => "Select baud rate",
            FocusedField::DataBits => "Select data bits",
            FocusedField::Parity => "Select parity",
            FocusedField::StopBits => "Select stop bits",
            FocusedField::FlowControl => "Select flow control",
            FocusedField::LogArea => "Serial communication log",
            FocusedField::TxInput => "Enter data to send",
        };
        return Some(String::from_str(tooltip));
    }
    None
}

/// The row of a dropdown that screen row `y` is: see
/// [`dropdown_item_at`].
pub fn calculate_dropdown_item(dropdown_area: Rect, y: u16) -> (item: usize)
    ensures
        item == dropdown_item_at(dropdown_area, y),
{
    if y < dropdown_area.y || (y as u32) >= dropdown_area.y as u32 + dropdown_area.height as u32 {
        return 0;
    }
    (y - dropdown_area.y) as usize
}

/// The rectangle of the dropdown of menu `menu_idx` with `item_count`
/// items: 25 columns wide, one row for each item and two for the borders,
/// below the menu bar at the column where the menu starts.
pub fn calculate_dropdown_area(
    menu_bar_area: Rect,
    menu_idx: usize,
    item_count: usize,
    lang: Language,
) -> (area: Rect)
    requires
        menu_bar_area.x + menu_x_offset(menu_idx as nat, lang) <= u16::MAX,
        menu_bar_area.y < u16::MAX,
        item_count + 2 <= u16::MAX,
    ensures
        area == (Rect {
            x: (menu_bar_area.x + menu_x_offset(menu_idx as nat, lang)) as u16,
            y: (menu_bar_area.y + 1) as u16,
            width: 25,
            height: (item_count + 2) as u16,
        }),
{
    let x_offset = calculate_menu_x_offset(menu_idx, lang);
    let max_width: u16 = 25;
    let height = item_count as u16 + 2;
    Rect { x: menu_bar_area.x + x_offset, y: menu_bar_area.y + 1, width: max_width, height }
}

/// What a turn of the wheel at the position means: over the log it scrolls
/// by three lines, elsewhere it means nothing.
pub fn handle_mouse_scroll(
    _app: &AppState,
    areas: &UiAreas,
    x: u16,
    y: u16,
    direction: ScrollDirection,
) -> (r: Option<ScrollAction>)
    ensures
        r == if areas.log_area.contains(x, y) {
            Some(
                match direction {
                    ScrollDirection::Up => ScrollAction::ScrollUp(3),
                    ScrollDirection::Down => ScrollAction::ScrollDown(3),
                },
            )
        } else {
            None
        },
{
    if is_inside(areas.log_area, x, y) {
        match direction {
            ScrollDirection::Up => Some(ScrollAction::ScrollUp(3)),
            ScrollDirection::Down => Some(ScrollAction::ScrollDown(3)),
        }
    } else {
        None
    }
}

/// The cursor shape for the position.
pub fn get_cursor_type(_app: &AppState, areas: &UiAreas, x: u16, y: u16) -> (r: CursorType)
    ensures
        r == cursor_at(*areas, x, y),
{
    if is_inside(areas.tx_area, x, y) {
        CursorType::Text
    } else if is_shortcuts_hint_clicked(areas, x, y) {
        CursorType::Help
    } else if crate::areas::is_clickable_area(areas, x, y) {
        CursorType::Pointer
    } else {
        CursorType::Default
    }
}

/// A mouse button.
#[derive(Debug, Clone, Copy, PartialEq, Eq, Structural)]
pub enum MouseButton {
    Left,
    Right,
    Middle,
}

/// What the mouse did.
#[derive(Debug, Clone, Copy, PartialEq, Eq, Structural)]
pub enum MouseEventKind {
    /// A button went down.
    Down(MouseButton),
    /// A button came up.
    Up(MouseButton),
    /// The mouse moved with a button held.
    Drag(MouseButton),
    /// The mouse moved.
    Moved,
    ScrollUp,
    ScrollDown,
    /// Anything else.
    Other,
}

/// A mouse event as the monitor sees it.
#[derive(Debug, Clone, Copy, PartialEq, Eq, Structural)]
pub struct MouseEvent {
    pub kind: MouseEventKind,
    pub column: u16,
    pub row: u16,
}

/// The item of a bordered list that row `row` shows, for a row inside
/// `area`: the row below the top border shows item 0, and the border
/// itself counts as item 0.
pub open spec fn list_row(area: Rect, row: u16) -> usize {
    if row > area.y {
        (row - area.y - 1) as usize
    } else {
        0
    }
}

/// Columns of the send box that hold the text; the twelve columns to the
/// right of them hold the append selector.
pub open spec fn tx_text_width(tx_area: Rect) -> u16 {
    if tx_area.width < 12 {
        0
    } else {
        (tx_area.width - 12) as u16
    }
}

/// Whether column `col` of the send box lies on the append selector.
pub open spec fn on_append_selector(tx_area: Rect, col: u16) -> bool {
    col - tx_area.x >= tx_text_width(tx_area)
}

/// The label of a menu item in `lang`; a separator has none.
pub open spec fn item_label(action: crate::menu_def::MenuAction, lang: Language) -> Seq<char> {
    if action == crate::menu_def::MenuAction::Separator {
        Seq::empty()
    } else {
        crate::i18n::translation(action.label_key_spec(), lang)
    }
}

/// Columns of the widest label among `items`; ten for no items.
pub open spec fn widest_label(items: Seq<crate::menu_def::MenuAction>, lang: Language) -> nat
    decreases items.len(),
{
    if items.len() == 0 {
        10
    } else if items.len() == 1 {
        crate::text::display_width_spec(item_label(items[0], lang))
    } else {
        let rest = widest_label(items.drop_last(), lang);
        let last = crate::text::display_width_spec(item_label(items.last(), lang));
        if last > rest {
            last
        } else {
            rest
        }
    }
}

/// The first line of the log that is drawn when the log has `lines` lines
/// and is shown in an area of `area_height` rows, borders included: with
/// automatic scrolling the last lines are shown, else the lines from
/// `scroll_offset` on, but never fewer than fit.
pub open spec fn log_top_line(lines: u16, area_height: u16, auto_scroll: bool, scroll_offset: u16) -> u16 {
    let inner = crate::input::scrolled_up(area_height, 2);
    let viewport = if inner < 1 {
        1u16
    } else {
        inner
    };
    let max_scroll = crate::input::scrolled_up(lines, viewport);
    if auto_scroll || scroll_offset > max_scroll {
        max_scroll
    } else {
        scroll_offset
    }
}

/// The first line of the log that is drawn: see [`log_top_line`].
pub fn scroll_top(lines: u16, area_height: u16, auto_scroll: bool, scroll_offset: u16) -> (top: u16)
    ensures
        top == log_top_line(lines, area_height, auto_scroll, scroll_offset),
{
    let inner = area_height.saturating_sub(2);
    let viewport: u16 = if inner < 1 {
        1
    } else {
        inner
    };
    let max_scroll = lines.saturating_sub(viewport);
    if auto_scroll || scroll_offset > max_scroll {
        max_scroll
    } else {
        scroll_offset
    }
}

/// Whether the position lies on the dropdown of menu `menu`, drawn below
/// a menu bar in `menu_bar`: it starts at the column of its menu, is six
/// columns wider than its widest label and has one row for each item and
/// two for the borders.
pub open spec fn on_dropdown(menu_bar: Rect, menu: usize, lang: Language, col: u16, row: u16) -> bool {
    let x0 = menu_bar.x + menu_x_offset(menu as nat, lang);
    let y0 = menu_bar.y + 1;
    let width = widest_label(crate::menu_def::menu_items(menu as int), lang) + 6;
    let height = crate::menu_def::menu_items(menu as int).len() + 2;
    x0 <= col < x0 + width && y0 <= row < y0 + height
}

impl AppView {
    /// The state after a click on the menu bar that hit the menu `hit`, or
    /// none: the dropdown of the menu opens on its first item and the focus
    /// moves to the log, unless the dropdown was open, which closes it.
    #[verifier::opaque]
    pub open spec fn menu_bar_clicked(self, hit: Option<usize>) -> AppView {
        match hit {
            Some(menu) => if self.menu_state is Dropdown && self.menu_state->Dropdown_0 == menu {
                self.with_menu(MenuState::Closed)
            } else {
                AppView {
                    focused_field: FocusedField::LogArea,
                    ..self.with_menu(MenuState::Dropdown(menu, 0))
                }
            },
            None => self,
        }
    }

    /// The state and the command after a click while the dropdown of menu
    /// `menu` is open and the click missed the menu bar. A click on the row
    /// of an item that is no separator carries the item out and closes the
    /// menu; a click elsewhere in the dropdown does nothing; a click
    /// outside closes the menu.
    #[verifier::opaque]
    pub open spec fn dropdown_clicked(self, menu_bar: Rect, menu: usize, col: u16, row: u16) -> KeyResult {
        let items = crate::menu_def::menu_items(menu as int);
        let relative_y = row - (menu_bar.y + 1);
        if menu >= 5 {
            crate::input::only(self.with_menu(MenuState::Closed))
        } else if !on_dropdown(menu_bar, menu, self.language, col, row) {
            crate::input::only(self.with_menu(MenuState::Closed))
        } else if 0 < relative_y <= items.len() && items[relative_y - 1]
            != crate::menu_def::MenuAction::Separator {
            let done = self.menu_item_activated(menu, (relative_y - 1) as usize);
            KeyResult { state: done.state.with_menu(MenuState::Closed), command: done.command }
        } else {
            crate::input::only(self)
        }
    }

    /// The state with the focus on `field`.
    #[verifier::opaque]
    pub open spec fn focused_on(self, field: FocusedField) -> AppView {
        AppView { focused_field: field, ..self }
    }

    /// The state after row `index` of the port list was clicked.
    #[verifier::opaque]
    pub open spec fn port_row_clicked(self, index: usize) -> AppView {
        if self.config_locked {
            self.warning(LOCKED_WARNING@)
        } else if index < self.ports.len() {
            self.with_port(index).info("选择串口: "@ + self.ports[index as int])
        } else {
            self
        }
    }

    /// The state after row `index` of the baud rates was clicked.
    #[verifier::opaque]
    pub open spec fn baud_rate_row_clicked(self, index: usize) -> AppView {
        if self.config_locked {
            self.warning(LOCKED_WARNING@)
        } else if index < self.baud_rate_options.len() {
            self.with_baud_rate(index).info(
                "波特率: "@ + crate::text::decimal(self.baud_rate_options[index as int] as nat),
            )
        } else {
            self
        }
    }

    /// The state after row `index` of the data bits was clicked.
    #[verifier::opaque]
    pub open spec fn data_bits_row_clicked(self, index: usize) -> AppView {
        if self.config_locked {
            self.warning(LOCKED_WARNING@)
        } else if index < self.data_bits_options.len() {
            self.with_data_bits(index).info(
                "数据位: "@ + crate::text::decimal(self.data_bits_options[index as int] as nat),
            )
        } else {
            self
        }
    }

    /// The state after row `index` of the parity settings was clicked.
    #[verifier::opaque]
    pub open spec fn parity_row_clicked(self, index: usize) -> AppView {
        if self.config_locked {
            self.warning(LOCKED_WARNING@)
        } else if index < self.parity_options.len() {
            self.with_parity(index).info(
                "校验位: "@ + self.parity_options[index as int].name_spec(),
            )
        } else {
            self
        }
    }

    /// The state after row `index` of the stop bits was clicked.
    #[verifier::opaque]
    pub open spec fn stop_bits_row_clicked(self, index: usize) -> AppView {
        if self.config_locked {
            self.warning(LOCKED_WARNING@)
        } else if index < self.stop_bits_options.len() {
            self.with_stop_bits(index).info(
                "停止位: "@ + crate::text::decimal(self.stop_bits_options[index as int] as nat),
            )
        } else {
            self
        }
    }

    /// The state after row `index` of the flow control settings was
    /// clicked.
    #[verifier::opaque]
    pub open spec fn flow_control_row_clicked(self, index: usize) -> AppView {
        if self.config_locked {
            self.warning(LOCKED_WARNING@)
        } else if index < self.flow_control_options.len() {
            self.with_flow_control(index).info(
                "流控: "@ + self.flow_control_options[index as int].name_spec(),
            )
        } else {
            self
        }
    }

    /// The state after row `index` of the append selector was clicked.
    #[verifier::opaque]
    pub open spec fn append_row_clicked(self, index: usize) -> AppView {
        if index < self.append_mode_options.len() {
            self.with_append_mode(index).info(
                "追加: "@ + self.append_mode_options[index as int].name_spec(),
            )
        } else {
            self
        }
    }

    /// The state after the text of the send box was clicked at column
    /// `relative_col` of the box: the cursor stands before the character
    /// there, or at the end of the text.
    #[verifier::opaque]
    pub open spec fn text_clicked(self, relative_col: u16) -> AppView {
        let wanted = if relative_col == 0 {
            0
        } else {
            relative_col - 1
        };
        AppView {
            tx_cursor: if wanted < self.tx_input.len() {
                wanted as usize
            } else {
                self.tx_input.len() as usize
            },
            ..self
        }
    }

    /// The state after a click on the send box.
    #[verifier::opaque]
    pub open spec fn tx_area_clicked(self, tx_area: Rect, col: u16, row: u16) -> AppView {
        if on_append_selector(tx_area, col) {
            self.append_row_clicked(list_row(tx_area, row))
        } else {
            self.text_clicked((col - tx_area.x) as u16)
        }
    }

    /// The state after a left click on `field`: the field takes the focus
    /// and the click chooses the list item or the text position under it.
    #[verifier::opaque]
    pub open spec fn field_clicked(self, areas: UiAreas, field: FocusedField, col: u16, row: u16) -> AppView {
        let focused = self.focused_on(field);
        match field {
            FocusedField::Port => focused.port_row_clicked(list_row(areas.port, row)),
            FocusedField::BaudRate => focused.baud_rate_row_clicked(
                list_row(areas.baud_rate, row),
            ),
            FocusedField::DataBits => focused.data_bits_row_clicked(
                list_row(areas.data_bits, row),
            ),
            FocusedField::Parity => focused.parity_row_clicked(list_row(areas.parity, row)),
            FocusedField::StopBits => focused.stop_bits_row_clicked(
                list_row(areas.stop_bits, row),
            ),
            FocusedField::FlowControl => focused.flow_control_row_clicked(
                list_row(areas.flow_control, row),
            ),
            FocusedField::LogArea => focused,
            FocusedField::TxInput => focused.tx_area_clicked(areas.tx_area, col, row),
        }
    }

    /// The state and the command after a left click. A click on the menu
    /// bar is for the menu; with a dropdown open, so is any other click;
    /// else the click is for the field under it.
    #[verifier::opaque]
    pub open spec fn left_clicked(self, areas: UiAreas, col: u16, row: u16) -> KeyResult {
        if areas.menu_bar.contains(col, row) {
            crate::input::only(
                self.menu_bar_clicked(
                    crate::areas::menu_on_bar(col, row, areas.menu_bar, self.language),
                ),
            )
        } else if self.menu_state is Dropdown {
            self.dropdown_clicked(areas.menu_bar, self.menu_state->Dropdown_0, col, row)
        } else {
            match areas.field_at(col, row) {
                Some(field) => crate::input::only(self.field_clicked(areas, field, col, row)),
                None => crate::input::only(self),
            }
        }
    }

    /// The state after a right click: on the log it switches the display
    /// mode, on the send box the transmission mode or, on the append
    /// selector, the append mode, and on the control area automatic
    /// scrolling.
    #[verifier::opaque]
    pub open spec fn right_clicked(self, areas: UiAreas, col: u16, row: u16) -> AppView {
        if areas.log_area.contains(col, row) {
            self.display_toggled("切换显示模式: "@)
        } else if areas.tx_area.contains(col, row) {
            if on_append_selector(areas.tx_area, col) {
                self.append_mode_advanced()
            } else {
                self.tx_mode_toggled()
            }
        } else if areas.control_area.contains(col, row) {
            self.auto_scroll_toggled()
        } else {
            self
        }
    }

    /// The state after a middle click: on the log it clears the log, on
    /// the send box the text.
    #[verifier::opaque]
    pub open spec fn middle_clicked(self, areas: UiAreas, col: u16, row: u16) -> AppView {
        if areas.log_area.contains(col, row) {
            self.log_cleared()
        } else if areas.tx_area.contains(col, row) {
            self.input_cleared().info("已清空输入"@)
        } else {
            self
        }
    }

    /// The state after the wheel moved the baud rate: a locked
    /// configuration gives a warning.
    #[verifier::opaque]
    pub open spec fn baud_rate_scrolled(self, forward: bool) -> AppView {
        if self.config_locked {
            self.warning(LOCKED_WARNING@)
        } else {
            self.baud_rate_stepped(forward, false)
        }
    }

    /// The state after the log was scrolled down by three lines in a
    /// viewport of `area_height` rows, borders included: automatic
    /// scrolling comes back on once the last line is in view.
    #[verifier::opaque]
    pub open spec fn log_scrolled_down(self, area_height: u16) -> AppView {
        let offset = crate::input::scrolled_down(self.scroll_offset, 3);
        let lines = self.message_log.entries.len() as u16;
        let inner = crate::input::scrolled_up(area_height, 2);
        let viewport = if inner < 1 {
            1u16
        } else {
            inner
        };
        let max_scroll = crate::input::scrolled_up(lines, viewport);
        self.scrolled_to(offset, self.auto_scroll || offset >= max_scroll)
    }

    /// The state after the wheel was turned up (`forward` false) or down:
    /// over the log it scrolls by three lines, over the ports and the baud
    /// rates it moves the selection, over the send box the append mode.
    #[verifier::opaque]
    pub open spec fn wheel_turned(self, areas: UiAreas, col: u16, row: u16, forward: bool) -> AppView {
        if areas.log_area.contains(col, row) {
            if forward {
                self.log_scrolled_down(areas.log_area.height)
            } else {
                self.scrolled_to(crate::input::scrolled_up(self.scroll_offset, 3), false)
            }
        } else if areas.port.contains(col, row) {
            self.port_stepped(forward, false)
        } else if areas.baud_rate.contains(col, row) {
            self.baud_rate_scrolled(forward)
        } else if areas.tx_area.contains(col, row) {
            self.append_mode_stepped(forward)
        } else {
            self
        }
    }

    /// The state and the command after a mouse event. Only presses of a
    /// button and turns of the wheel do anything.
    #[verifier::opaque]
    pub open spec fn after_mouse(self, mouse: MouseEvent, areas: UiAreas) -> KeyResult {
        match mouse.kind {
            MouseEventKind::Down(MouseButton::Left) => self.left_clicked(
                areas,
                mouse.column,
                mouse.row,
            ),
            MouseEventKind::Down(MouseButton::Right) => crate::input::only(
                self.right_clicked(areas, mouse.column, mouse.row),
            ),
            MouseEventKind::Down(MouseButton::Middle) => crate::input::only(
                self.middle_clicked(areas, mouse.column, mouse.row),
            ),
            MouseEventKind::ScrollUp => crate::input::only(
                self.wheel_turned(areas, mouse.column, mouse.row, false),
            ),
            MouseEventKind::ScrollDown => crate::input::only(
                self.wheel_turned(areas, mouse.column, mouse.row, true),
            ),
            _ => crate::input::only(self),
        }
    }
}

/// The item of a bordered list that row `row` shows: see [`list_row`].
fn list_row_of(area: Rect, row: u16) -> (r: usize)
    ensures
        r == list_row(area, row),
{
    if row > area.y {
        (row - area.y - 1) as usize
    } else {
        0
    }
}

/// Whether a column of the send box lies on the append selector.
fn hits_append_selector(tx_area: Rect, col: u16) -> (r: bool)
    requires
        col >= tx_area.x,
    ensures
        r == on_append_selector(tx_area, col),
{
    let text_width = tx_area.width.saturating_sub(12);
    col - tx_area.x >= text_width
}

/// Columns of the widest label of menu `menu`; ten for an index that is no
/// menu.
fn widest_label_of(menu: usize, lang: Language) -> (r: usize)
    ensures
        r == widest_label(crate::menu_def::menu_items(menu as int), lang),
{
    let count = crate::menu_def::MENU_BAR.get_item_count(menu);
    if count == 0 {
        return 10;
    }
    let ghost items = crate::menu_def::menu_items(menu as int);
    let mut widest: usize = 0;
    let mut i: usize = 0;
    while i < count
        invariant
            i <= count,
            count == items.len(),
            items == crate::menu_def::menu_items(menu as int),
            i > 0 ==> widest == widest_label(items.take(i as int), lang),
        decreases count - i,
    {
        let width = match crate::menu_def::MENU_BAR.get_action(menu, i) {
            Some(action) => {
                if action.is_separator() {
                    proof {
                        assert(crate::text::display_width_spec(Seq::<char>::empty()) == 0);
                    }
                    0
                } else {
                    crate::text::display_width(crate::i18n::t(action.label_key(), lang))
                }
            },
            None => 0,
        };
        proof {
            let taken = items.take(i + 1);
            assert(taken.last() == items[i as int]);
            assert(taken.drop_last() =~= items.take(i as int));
            if i == 0 {
                assert(taken.len() == 1);
                assert(taken[0] == items[0]);
            }
        }
        if i == 0 || width > widest {
            widest = width;
        }
        i += 1;
    }
    assert(items.take(count as int) =~= items);
    widest
}

/// Whether the position lies on the dropdown of menu `menu`: see
/// [`on_dropdown`].
fn hits_dropdown(menu_bar: Rect, menu: usize, lang: Language, col: u16, row: u16) -> (r: bool)
    ensures
        r == on_dropdown(menu_bar, menu, lang, col, row),
{
    let x0: u32 = menu_bar.x as u32 + calculate_menu_x_offset(menu, lang) as u32;
    let y0: u32 = menu_bar.y as u32 + 1;
    let widest = widest_label_of(menu, lang);
    let count = crate::menu_def::MENU_BAR.get_item_count(menu);
    if (col as u32) < x0 || (row as u32) < y0 {
        return false;
    }
    let across: usize = (col as u32 - x0) as usize;
    let down: usize = (row as u32 - y0) as usize;
    (across < 6 || across - 6 < widest) && down < count + 2
}

/// The rectangle in which the dropdown of menu `menu` is drawn below a
/// menu bar in `menu_bar`, if its corners can be written as coordinates:
/// the positions inside it are exactly those that count as clicks on the
/// dropdown.
pub fn menu_dropdown_area(menu_bar: Rect, menu: usize, lang: Language) -> (r: Option<Rect>)
    ensures
        r matches Some(area) ==> forall|col: u16, row: u16|
            area.contains(col, row) == #[trigger] on_dropdown(menu_bar, menu, lang, col, row),
        r is None ==> menu_bar.x + menu_x_offset(menu as nat, lang) > u16::MAX || menu_bar.y
            == u16::MAX || widest_label(crate::menu_def::menu_items(menu as int), lang) + 6
            > u16::MAX,
{
    let x0: u32 = menu_bar.x as u32 + calculate_menu_x_offset(menu, lang) as u32;
    let widest = widest_label_of(menu, lang);
    let count = crate::menu_def::MENU_BAR.get_item_count(menu);
    if x0 > 65535 || menu_bar.y == 65535 || widest > 65529 {
        return None;
    }
    let area = Rect {
        x: x0 as u16,
        y: menu_bar.y + 1,
        width: (widest + 6) as u16,
        height: (count + 2) as u16,
    };
    Some(area)
}

impl AppState {
    /// What a click on the menu bar does.
    fn click_menu_bar(&mut self, hit: Option<usize>)
        requires
            old(self).wf(),
            hit matches Some(menu) ==> menu < 5,
        ensures
            final(self)@ == old(self)@.menu_bar_clicked(hit),
            final(self).wf(),
            starts_with(final(self).notifications@, old(self).notifications@),
    {
        proof {
            reveal(AppView::menu_bar_clicked);
        }
        if let Some(menu_idx) = hit {
            let reopen = match self.menu_state {
                MenuState::Dropdown(current_idx, _) => current_idx != menu_idx,
                _ => true,
            };
            if reopen {
                let _ = crate::menu_def::MENU_BAR.get_item_count(menu_idx);
                self.set_menu(MenuState::Dropdown(menu_idx, 0));
                self.focused_field = FocusedField::LogArea;
            } else {
                self.set_menu(MenuState::Closed);
            }
        }
    }

    /// What a click does while a dropdown is open.
    fn click_dropdown(&mut self, menu_bar: Rect, menu_idx: usize, col: u16, row: u16) -> (command:
        Command)
        requires
            old(self).wf(),
        ensures
            (KeyResult { state: final(self)@, command: command@ }) == old(self)@.dropdown_clicked(
                menu_bar,
                menu_idx,
                col,
                row,
            ),
            final(self).wf(),
            starts_with(final(self).notifications@, old(self).notifications@),
    {
        proof {
            reveal(AppView::dropdown_clicked);
        }
        if menu_idx >= crate::menu_def::MENU_BAR.menu_count() {
            self.set_menu(MenuState::Closed);
            return Command::Nothing;
        }
        if !hits_dropdown(menu_bar, menu_idx, self.language, col, row) {
            self.set_menu(MenuState::Closed);
            return Command::Nothing;
        }
        let relative_y: usize = (row as u32 - (menu_bar.y as u32 + 1)) as usize;
        if relative_y > 0 && relative_y <= crate::menu_def::MENU_BAR.get_item_count(menu_idx) {
            let item_idx = relative_y - 1;
            if let Some(action) = crate::menu_def::MENU_BAR.get_action(menu_idx, item_idx) {
                if !action.is_separator() {
                    let command = self.handle_menu_action(menu_idx, item_idx);
                    self.set_menu(MenuState::Closed);
                    return command;
                }
            }
        }
        Command::Nothing
    }

    /// Moves the focus to `field`.
    fn focus_on(&mut self, field: FocusedField)
        ensures
            final(self)@ == old(self)@.focused_on(field),
            old(self).wf() ==> final(self).wf(),
            starts_with(final(self).notifications@, old(self).notifications@),
    {
        proof {
            reveal(AppView::focused_on);
        }
        self.focused_field = field;
    }

    /// What a click on row `index` of the port list does.
    fn click_port_row(&mut self, index: usize)
        requires
            old(self).wf(),
        ensures
            final(self)@ == old(self)@.port_row_clicked(index),
            final(self).wf(),
            starts_with(final(self).notifications@, old(self).notifications@),
    {
        proof {
            reveal(AppView::port_row_clicked);
        }
        if !self.can_modify_config() {
            self.add_warning(LOCKED_WARNING);
        } else if self.select_port(index) {
            let message = joined("选择串口: ", self.config.port.as_str());
            self.add_info(message.as_str());
        }
    }

    /// What a click on row `index` of the baud rates does.
    fn click_baud_rate_row(&mut self, index: usize)
        requires
            old(self).wf(),
        ensures
            final(self)@ == old(self)@.baud_rate_row_clicked(index),
            final(self).wf(),
            starts_with(final(self).notifications@, old(self).notifications@),
    {
        proof {
            reveal(AppView::baud_rate_row_clicked);
        }
        if !self.can_modify_config() {
            self.add_warning(LOCKED_WARNING);
        } else if self.select_baud_rate(index) {
            let number = crate::text::decimal_string(self.config.baud_rate as u64);
            let message = joined("波特率: ", number.as_str());
            self.add_info(message.as_str());
        }
    }

    /// What a click on row `index` of the data bits does.
    fn click_data_bits_row(&mut self, index: usize)
        requires
            old(self).wf(),
        ensures
            final(self)@ == old(self)@.data_bits_row_clicked(index),
            final(self).wf(),
            starts_with(final(self).notifications@, old(self).notifications@),
    {
        proof {
            reveal(AppView::data_bits_row_clicked);
        }
        if !self.can_modify_config() {
            self.add_warning(LOCKED_WARNING);
        } else if self.select_data_bits(index) {
            let number = crate::text::decimal_string(self.config.data_bits as u64);
            let message = joined("数据位: ", number.as_str());
            self.add_info(message.as_str());
        }
    }

    /// What a click on row `index` of the parity settings does.
    fn click_parity_row(&mut self, index: usize)
        requires
            old(self).wf(),
        ensures
            final(self)@ == old(self)@.parity_row_clicked(index),
            final(self).wf(),
            starts_with(final(self).notifications@, old(self).notifications@),
    {
        proof {
            reveal(AppView::parity_row_clicked);
        }
        if !self.can_modify_config() {
            self.add_warning(LOCKED_WARNING);
        } else if self.select_parity(index) {
            let message = joined("校验位: ", self.config.parity.name());
            self.add_info(message.as_str());
        }
    }

    /// What a click on row `index` of the stop bits does.
    fn click_stop_bits_row(&mut self, index: usize)
        requires
            old(self).wf(),
        ensures
            final(self)@ == old(self)@.stop_bits_row_clicked(index),
            final(self).wf(),
            starts_with(final(self).notifications@, old(self).notifications@),
    {
        proof {
            reveal(AppView::stop_bits_row_clicked);
        }
        if !self.can_modify_config() {
            self.add_warning(LOCKED_WARNING);
        } else if self.select_stop_bits(index) {
            let number = crate::text::decimal_string(self.config.stop_bits as u64);
            let message = joined("停止位: ", number.as_str());
            self.add_info(message.as_str());
        }
    }

    /// What a click on row `index` of the flow control settings does.
    fn click_flow_control_row(&mut self, index: usize)
        requires
            old(self).wf(),
        ensures
            final(self)@ == old(self)@.flow_control_row_clicked(index),
            final(self).wf(),
            starts_with(final(self).notifications@, old(self).notifications@),
    {
        proof {
            reveal(AppView::flow_control_row_clicked);
        }
        if !self.can_modify_config() {
            self.add_warning(LOCKED_WARNING);
        } else if self.select_flow_control(index) {
            let message = joined("流控: ", self.config.flow_control.name());
            self.add_info(message.as_str());
        }
    }

    /// What a click on row `index` of the append selector does.
    fn click_append_row(&mut self, index: usize)
        requires
            old(self).wf(),
        ensures
            final(self)@ == old(self)@.append_row_clicked(index),
            final(self).wf(),
            starts_with(final(self).notifications@, old(self).notifications@),
    {
        proof {
            reveal(AppView::append_row_clicked);
        }
        if self.select_append_mode(index) {
            let message = joined("追加: ", self.tx_append_mode.name());
            self.add_info(message.as_str());
        }
    }

    /// What a click on the text of the send box does.
    fn click_text(&mut self, relative_col: u16)
        requires
            old(self).wf(),
        ensures
            final(self)@ == old(self)@.text_clicked(relative_col),
            final(self).wf(),
            starts_with(final(self).notifications@, old(self).notifications@),
    {
        proof {
            reveal(AppView::text_clicked);
        }
        let wanted: usize = relative_col.saturating_sub(1) as usize;
        let len = self.tx_input.as_str().unicode_len();
        self.tx_cursor = if wanted < len {
            wanted
        } else {
            len
        };
    }

    /// What a click on the send box does.
    fn click_tx_area(&mut self, tx_area: Rect, col: u16, row: u16)
        requires
            old(self).wf(),
            tx_area.contains(col, row),
        ensures
            final(self)@ == old(self)@.tx_area_clicked(tx_area, col, row),
            final(self).wf(),
            starts_with(final(self).notifications@, old(self).notifications@),
    {
        proof {
            reveal(AppView::tx_area_clicked);
        }
        if hits_append_selector(tx_area, col) {
            self.click_append_row(list_row_of(tx_area, row));
        } else {
            self.click_text(col - tx_area.x);
        }
    }

    /// What a left click on `field` does.
    fn click_field(&mut self, areas: &UiAreas, field: FocusedField, col: u16, row: u16)
        requires
            old(self).wf(),
            areas.field_at(col, row) == Some(field),
        ensures
            final(self)@ == old(self)@.field_clicked(*areas, field, col, row),
            final(self).wf(),
            starts_with(final(self).notifications@, old(self).notifications@),
    {
        proof {
            reveal(AppView::field_clicked);
        }
        self.focus_on(field);
        match field {
            FocusedField::Port => {
                self.click_port_row(list_row_of(areas.port, row));
            },
            FocusedField::BaudRate => {
                self.click_baud_rate_row(list_row_of(areas.baud_rate, row));
            },
            FocusedField::DataBits => {
                self.click_data_bits_row(list_row_of(areas.data_bits, row));
            },
            FocusedField::Parity => {
                self.click_parity_row(list_row_of(areas.parity, row));
            },
            FocusedField::StopBits => {
                self.click_stop_bits_row(list_row_of(areas.stop_bits, row));
            },
            FocusedField::FlowControl => {
                self.click_flow_control_row(list_row_of(areas.flow_control, row));
            },
            FocusedField::LogArea => {},
            FocusedField::TxInput => {
                self.click_tx_area(areas.tx_area, col, row);
            },
        }
    }

    /// What a left click does.
    fn left_click(&mut self, areas: &UiAreas, col: u16, row: u16) -> (command: Command)
        requires
            old(self).wf(),
        ensures
            (KeyResult { state: final(self)@, command: command@ }) == old(self)@.left_clicked(
                *areas,
                col,
                row,
            ),
            final(self).wf(),
            starts_with(final(self).notifications@, old(self).notifications@),
    {
        proof {
            reveal(AppView::left_clicked);
        }
        if is_inside(areas.menu_bar, col, row) {
            let hit = crate::areas::find_clicked_menu(col, row, areas.menu_bar, self.language);
            self.click_menu_bar(hit);
            return Command::Nothing;
        }
        if let MenuState::Dropdown(menu_idx, _) = self.menu_state {
            return self.click_dropdown(areas.menu_bar, menu_idx, col, row);
        }
        if let Some(field) = get_clicked_field(areas, col, row) {
            self.click_field(areas, field, col, row);
        }
        Command::Nothing
    }

    /// What a right click does.
    fn right_click(&mut self, areas: &UiAreas, col: u16, row: u16)
        requires
            old(self).wf(),
        ensures
            final(self)@ == old(self)@.right_clicked(*areas, col, row),
            final(self).wf(),
            starts_with(final(self).notifications@, old(self).notifications@),
    {
        proof {
            reveal(AppView::right_clicked);
        }
        if is_inside(areas.log_area, col, row) {
            self.toggle_display_and_tell("切换显示模式: ");
        } else if is_inside(areas.tx_area, col, row) {
            if hits_append_selector(areas.tx_area, col) {
                self.advance_append_mode_and_tell();
            } else {
                self.toggle_tx_mode_and_tell();
            }
        } else if is_inside(areas.control_area, col, row) {
            self.toggle_auto_scroll_and_tell();
        }
    }

    /// What a middle click does.
    fn middle_click(&mut self, areas: &UiAreas, col: u16, row: u16)
        requires
            old(self).wf(),
        ensures
            final(self)@ == old(self)@.middle_clicked(*areas, col, row),
            final(self).wf(),
            starts_with(final(self).notifications@, old(self).notifications@),
    {
        proof {
            reveal(AppView::middle_clicked);
        }
        if is_inside(areas.log_area, col, row) {
            self.clear_log_and_tell();
        } else if is_inside(areas.tx_area, col, row) {
            self.clear_input();
            self.add_info("已清空输入");
        }
    }

    /// What the wheel does over the baud rates.
    fn scroll_baud_rate(&mut self, forward: bool)
        requires
            old(self).wf(),
        ensures
            final(self)@ == old(self)@.baud_rate_scrolled(forward),
            final(self).wf(),
            starts_with(final(self).notifications@, old(self).notifications@),
    {
        proof {
            reveal(AppView::baud_rate_scrolled);
        }
        if !self.can_modify_config() {
            self.add_warning(LOCKED_WARNING);
        } else {
            self.step_baud_rate(forward, false);
        }
    }

    /// Scrolls the log down by three lines.
    fn scroll_log_down(&mut self, area_height: u16)
        requires
            old(self).wf(),
        ensures
            final(self)@ == old(self)@.log_scrolled_down(area_height),
            final(self).wf(),
            starts_with(final(self).notifications@, old(self).notifications@),
    {
        proof {
            reveal(AppView::log_scrolled_down);
        }
        let offset = self.scroll_offset.saturating_add(3);
        let lines = self.message_log.len() as u16;
        let inner = area_height.saturating_sub(2);
        let viewport: u16 = if inner < 1 {
            1
        } else {
            inner
        };
        let max_scroll = lines.saturating_sub(viewport);
        let auto_scroll = self.auto_scroll || offset >= max_scroll;
        self.scroll_to(offset, auto_scroll);
    }

    /// Moves the append mode to its neighbour without saying so.
    fn step_append_mode(&mut self, forward: bool)
        requires
            old(self).wf(),
        ensures
            final(self)@ == old(self)@.append_mode_stepped(forward),
            final(self).wf(),
            starts_with(final(self).notifications@, old(self).notifications@),
    {
        proof {
            reveal(AppView::append_mode_stepped);
        }
        if forward {
            self.next_append_mode();
        } else {
            self.prev_append_mode();
        }
    }

    /// What a turn of the wheel does.
    fn turn_wheel(&mut self, areas: &UiAreas, col: u16, row: u16, forward: bool)
        requires
            old(self).wf(),
        ensures
            final(self)@ == old(self)@.wheel_turned(*areas, col, row, forward),
            final(self).wf(),
            starts_with(final(self).notifications@, old(self).notifications@),
    {
        proof {
            reveal(AppView::wheel_turned);
        }
        if is_inside(areas.log_area, col, row) {
            if forward {
                self.scroll_log_down(areas.log_area.height);
            } else {
                self.scroll_to(self.scroll_offset.saturating_sub(3), false);
            }
        } else if is_inside(areas.port, col, row) {
            self.step_port(forward, false);
        } else if is_inside(areas.baud_rate, col, row) {
            self.scroll_baud_rate(forward);
        } else if is_inside(areas.tx_area, col, row) {
            self.step_append_mode(forward);
        }
    }
}

/// Handles a mouse event: changes the state and says which outside work
/// the event asks for. See [`AppView::after_mouse`].
pub fn handle_mouse_event(mouse: MouseEvent, app: &mut AppState, areas: &UiAreas) -> (command:
    Command)
    requires
        old(app).wf(),
    ensures
        (KeyResult { state: final(app)@, command: command@ }) == old(app)@.after_mouse(
            mouse,
            *areas,
        ),
        final(app).wf(),
        starts_with(final(app).notifications@, old(app).notifications@),
{
    proof {
        reveal(AppView::after_mouse);
    }
    let col = mouse.column;
    let row = mouse.row;
    match mouse.kind {
        MouseEventKind::Down(MouseButton::Left) => {
            return app.left_click(areas, col, row);
        },
        MouseEventKind::Down(MouseButton::Right) => {
            app.right_click(areas, col, row);
        },
        MouseEventKind::Down(MouseButton::Middle) => {
            app.middle_click(areas, col, row);
        },
        MouseEventKind::ScrollUp => {
            app.turn_wheel(areas, col, row, false);
        },
        MouseEventKind::ScrollDown => {
            app.turn_wheel(areas, col, row, true);
        },
        _ => {},
    }
    Command::Nothing
}

} // verus!
