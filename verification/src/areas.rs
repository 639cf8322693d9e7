//! Where the widgets were drawn, and which widget a screen position hits.
//!
//! The renderer records the rectangle of every widget in a [`UiAreas`]
//! value and hands it to the input handling of the next event.

use crate::layout::Rect;
use crate::menu_def::{menu_at_column, menu_covers, MENU_COUNT};
use crate::types::{FocusedField, Language};
use vstd::prelude::*;

verus! {

/// The rectangles of the widgets, as last drawn.
#[derive(Debug, Clone, Copy, PartialEq, Eq, Structural)]
pub struct UiAreas {
    pub menu_bar: Rect,
    pub port: Rect,
    pub baud_rate: Rect,
    pub data_bits: Rect,
    pub parity: Rect,
    pub stop_bits: Rect,
    pub flow_control: Rect,
    pub status_panel: Rect,
    pub log_area: Rect,
    pub tx_area: Rect,
    pub control_area: Rect,
    pub notification_area: Rect,
    pub shortcuts_hint: Rect,
    pub tab_bar: Rect,
}

/// Names of the widgets whose rectangles are recorded.
#[derive(Debug, Clone, Copy, PartialEq, Eq, Structural)]
pub enum UiAreaField {
    MenuBar,
    Port,
    BaudRate,
    DataBits,
    Parity,
    StopBits,
    FlowControl,
    StatusPanel,
    LogArea,
    TxArea,
    ControlArea,
    NotificationArea,
    ShortcutsHint,
    TabBar,
}

/// The empty rectangle at the origin.
pub open spec fn zero_rect() -> Rect {
    Rect { x: 0, y: 0, width: 0, height: 0 }
}

impl UiAreas {
    /// The rectangle recorded for `field`.
    pub open spec fn get(self, field: UiAreaField) -> Rect {
        match field {
            UiAreaField::MenuBar => self.menu_bar,
            UiAreaField::Port => self.port,
            UiAreaField::BaudRate => self.baud_rate,
            UiAreaField::DataBits => self.data_bits,
            UiAreaField::Parity => self.parity,
            UiAreaField::StopBits => self.stop_bits,
            UiAreaField::FlowControl => self.flow_control,
            UiAreaField::StatusPanel => self.status_panel,
            UiAreaField::LogArea => self.log_area,
            UiAreaField::TxArea => self.tx_area,
            UiAreaField::ControlArea => self.control_area,
            UiAreaField::NotificationArea => self.notification_area,
            UiAreaField::ShortcutsHint => self.shortcuts_hint,
            UiAreaField::TabBar => self.tab_bar,
        }
    }

    /// The widget that takes the focus when the position is clicked: the
    /// first of port, baud rate, data bits, parity, stop bits, flow control,
    /// log and send box whose rectangle holds the position.
    pub open spec fn field_at(self, x: u16, y: u16) -> Option<FocusedField> {
        if self.port.contains(x, y) {
            Some(FocusedField::Port)
        } else if self.baud_rate.contains(x, y) {
            Some(FocusedField::BaudRate)
        } else if self.data_bits.contains(x, y) {
            Some(FocusedField::DataBits)
        } else if self.parity.contains(x, y) {
            Some(FocusedField::Parity)
        } else if self.stop_bits.contains(x, y) {
            Some(FocusedField::StopBits)
        } else if self.flow_control.contains(x, y) {
            Some(FocusedField::FlowControl)
        } else if self.log_area.contains(x, y) {
            Some(FocusedField::LogArea)
        } else if self.tx_area.contains(x, y) {
            Some(FocusedField::TxInput)
        } else {
            None
        }
    }

    /// The menu that a fixed-width menu bar shows at the position: File on
    /// columns 0 to 6 of the bar, Session on 8 to 16, View on 18 to 24,
    /// Settings on 26 to 35 and Help on 37 to 42.
    pub open spec fn menu_at(self, x: u16, y: u16) -> Option<usize> {
        let relative_x = x - self.menu_bar.x;
        if !self.menu_bar.contains(x, y) {
            None
        } else if relative_x < 7 {
            Some(0usize)
        } else if 8 <= relative_x < 17 {
            Some(1usize)
        } else if 18 <= relative_x < 25 {
            Some(2usize)
        } else if 26 <= relative_x < 36 {
            Some(3usize)
        } else if 37 <= relative_x < 43 {
            Some(4usize)
        } else {
            None
        }
    }

    /// Whether the position lies on a widget that reacts to a click.
    pub open spec fn clickable_at(self, x: u16, y: u16) -> bool {
        ||| self.menu_bar.contains(x, y)
        ||| self.port.contains(x, y)
        ||| self.baud_rate.contains(x, y)
        ||| self.data_bits.contains(x, y)
        ||| self.parity.contains(x, y)
        ||| self.stop_bits.contains(x, y)
        ||| self.flow_control.contains(x, y)
        ||| self.tx_area.contains(x, y)
        ||| self.shortcuts_hint.contains(x, y)
        ||| self.tab_bar.contains(x, y)
    }
}

impl Default for UiAreas {
    fn default() -> (r: UiAreas)
        ensures
            forall|field: UiAreaField| #[trigger] r.get(field) == zero_rect(),
    {
        let zero = Rect { x: 0, y: 0, width: 0, height: 0 };
        UiAreas {
            menu_bar: zero,
            port: zero,
            baud_rate: zero,
            data_bits: zero,
            parity: zero,
            stop_bits: zero,
            flow_control: zero,
            status_panel: zero,
            log_area: zero,
            tx_area: zero,
            control_area: zero,
            notification_area: zero,
            shortcuts_hint: zero,
            tab_bar: zero,
        }
    }
}

/// Records `rect` as the rectangle of `field`.
pub fn update_area(areas: &mut UiAreas, field: UiAreaField, rect: Rect)
    ensures
        final(areas).get(field) == rect,
        forall|other: UiAreaField|
            other != field ==> #[trigger] final(areas).get(other) == old(areas).get(other),
{
    match field {
        UiAreaField::MenuBar => areas.menu_bar = rect,
        UiAreaField::Port => areas.port = rect,
        UiAreaField::BaudRate => areas.baud_rate = rect,
        UiAreaField::DataBits => areas.data_bits = rect,
        UiAreaField::Parity => areas.parity = rect,
        UiAreaField::StopBits => areas.stop_bits = rect,
        UiAreaField::FlowControl => areas.flow_control = rect,
        UiAreaField::StatusPanel => areas.status_panel = rect,
        UiAreaField::LogArea => areas.log_area = rect,
        UiAreaField::TxArea => areas.tx_area = rect,
        UiAreaField::ControlArea => areas.control_area = rect,
        UiAreaField::NotificationArea => areas.notification_area = rect,
        UiAreaField::ShortcutsHint => areas.shortcuts_hint = rect,
        UiAreaField::TabBar => areas.tab_bar = rect,
    }
}

/// Whether the position lies inside the rectangle.
pub fn is_inside(rect: Rect, x: u16, y: u16) -> (r: bool)
    ensures
        r == rect.contains(x, y),
{
    x >= rect.x && (x as u32) < rect.x as u32 + rect.width as u32 && y >= rect.y && (y as u32)
        < rect.y as u32 + rect.height as u32
}

/// The widget that takes the focus when the position is clicked.
pub fn get_clicked_field(areas: &UiAreas, x: u16, y: u16) -> (r: Option<FocusedField>)
    ensures
        r == areas.field_at(x, y),
{
    if is_inside(areas.port, x, y) {
        Some(FocusedField::Port)
    } else if is_inside(areas.baud_rate, x, y) {
        Some(FocusedField::BaudRate)
    } else if is_inside(areas.data_bits, x, y) {
        Some(FocusedField::DataBits)
    } else if is_inside(areas.parity, x, y) {
        Some(FocusedField::Parity)
    } else if is_inside(areas.stop_bits, x, y) {
        Some(FocusedField::StopBits)
    } else if is_inside(areas.flow_control, x, y) {
        Some(FocusedField::FlowControl)
    } else if is_inside(areas.log_area, x, y) {
        Some(FocusedField::LogArea)
    } else if is_inside(areas.tx_area, x, y) {
        Some(FocusedField::TxInput)
    } else {
        None
    }
}

/// The menu that a fixed-width menu bar shows at the position.
pub fn get_clicked_menu(areas: &UiAreas, x: u16, y: u16) -> (r: Option<usize>)
    ensures
        r == areas.menu_at(x, y),
{
    if !is_inside(areas.menu_bar, x, y) {
        return None;
    }
    let relative_x = x - areas.menu_bar.x;

    if relative_x < 7 {
        Some(0)
    } else if relative_x >= 8 && relative_x < 17 {
        Some(1)
    } else if relative_x >= 18 && relative_x < 25 {
        Some(2)
    } else if relative_x >= 26 && relative_x < 36 {
        Some(3)
    } else if relative_x >= 37 && relative_x < 43 {
        Some(4)
    } else {
        None
    }
}

/// The menu whose label, as translated into `lang`, lies at the position
/// on a menu bar drawn in `menu_bar_area`.
pub fn find_clicked_menu(x: u16, y: u16, menu_bar_area: Rect, lang: Language) -> (r: Option<usize>)
    ensures
        r == menu_on_bar(x, y, menu_bar_area, lang),
        r matches Some(i) ==> {
            &&& on_menu_row(x, y, menu_bar_area)
            &&& i < MENU_COUNT
            &&& menu_covers(i as nat, (x - menu_bar_area.x) as u16, lang)
        },
        r is None && on_menu_row(x, y, menu_bar_area) ==> no_menu_at(
            (x - menu_bar_area.x) as u16,
            lang,
        ),
{
    if y != menu_bar_area.y || x < menu_bar_area.x || (x as u32) >= menu_bar_area.x as u32
        + menu_bar_area.width as u32 {
        return None;
    }
    let relative_x = x - menu_bar_area.x;
    crate::menu_def::find_clicked_menu(relative_x, lang)
}

/// The menu at the position on a menu bar drawn in `menu_bar_area`.
pub open spec fn menu_on_bar(x: u16, y: u16, menu_bar_area: Rect, lang: Language) -> Option<
    usize,
> {
    if on_menu_row(x, y, menu_bar_area) {
        menu_at_column((x - menu_bar_area.x) as u16, lang)
    } else {
        None
    }
}

/// No menu lies at `column` of the bar.
pub open spec fn no_menu_at(column: u16, lang: Language) -> bool {
    forall|i: nat| i < 5 ==> !menu_covers(i, column, lang)
}

/// Whether the position lies on the first row of the menu bar, within its
/// width.
pub open spec fn on_menu_row(x: u16, y: u16, menu_bar_area: Rect) -> bool {
    y == menu_bar_area.y && menu_bar_area.x <= x < menu_bar_area.x + menu_bar_area.width
}

/// Whether the position lies on the shortcuts hint.
pub fn is_shortcuts_hint_clicked(areas: &UiAreas, x: u16, y: u16) -> (r: bool)
    ensures
        r == areas.shortcuts_hint.contains(x, y),
{
    is_inside(areas.shortcuts_hint, x, y)
}

/// Width of one tab when `tab_count` tabs share `bar_width` columns
/// evenly, and at least one column.
pub open spec fn tab_width(bar_width: u16, tab_count: usize) -> int {
    let share = if tab_count == 0 {
        bar_width as int
    } else {
        bar_width as int / tab_count as int
    };
    if share < 1 {
        1
    } else {
        share
    }
}

/// The tab at column `relative_x` of a bar of `bar_width` columns shared by
/// `tab_count` tabs, if the column lies on a tab.
pub open spec fn tab_at_column(relative_x: u16, bar_width: u16, tab_count: usize) -> Option<
    usize,
> {
    let index = relative_x as int / tab_width(bar_width, tab_count);
    if index < tab_count {
        Some(index as usize)
    } else {
        None
    }
}

fn tab_for_column(relative_x: u16, bar_width: u16, tab_count: usize) -> (r: Option<usize>)
    ensures
        r == tab_at_column(relative_x, bar_width, tab_count),
{
    let share: usize = if tab_count == 0 {
        bar_width as usize
    } else {
        (bar_width as usize) / tab_count
    };
    let width: usize = if share < 1 {
        1
    } else {
        share
    };
    let index = (relative_x as usize) / width;
    if index < tab_count {
        Some(index)
    } else {
        None
    }
}

/// The tab hit by a click at the position, when `tab_count` tabs share the
/// tab bar evenly. None outside the bar and when there are no tabs.
pub fn get_clicked_tab(areas: &UiAreas, x: u16, y: u16, tab_count: usize) -> (r: Option<usize>)
    ensures
        r == if areas.tab_bar.contains(x, y) && tab_count != 0 {
            tab_at_column((x - areas.tab_bar.x) as u16, areas.tab_bar.width, tab_count)
        } else {
            None
        },
{
    if !is_inside(areas.tab_bar, x, y) || tab_count == 0 {
        return None;
    }
    tab_for_column(x - areas.tab_bar.x, areas.tab_bar.width, tab_count)
}

/// Height of the tab bar: none for fewer than two sessions, else one row,
/// or three with a border.
pub fn calculate_tab_bar_height(session_count: usize, with_border: bool) -> (height: u16)
    ensures
        height == if session_count <= 1 {
            0int
        } else if with_border {
            3
        } else {
            1
        },
{
    if session_count <= 1 {
        0
    } else if with_border {
        3
    } else {
        1
    }
}

/// The tab hit by a click at the position, when `session_count` tabs share
/// the first row of `area` evenly. None outside that row.
pub fn get_tab_at_position(
    area: Rect,
    x: u16,
    y: u16,
    session_count: usize,
    _active_index: usize,
) -> (r: Option<usize>)
    ensures
        r == if y == area.y && area.x <= x < area.x + area.width {
            tab_at_column((x - area.x) as u16, area.width, session_count)
        } else {
            None
        },
{
    if y != area.y || x < area.x || (x as u32) >= area.x as u32 + area.width as u32 {
        return None;
    }
    tab_for_column(x - area.x, area.width, session_count)
}

/// Whether the position lies on a widget that reacts to a click.
pub fn is_clickable_area(areas: &UiAreas, x: u16, y: u16) -> (r: bool)
    ensures
        r == areas.clickable_at(x, y),
{
    is_inside(areas.menu_bar, x, y) || is_inside(areas.port, x, y) || is_inside(
        areas.baud_rate,
        x,
        y,
    ) || is_inside(areas.data_bits, x, y) || is_inside(areas.parity, x, y) || is_inside(
        areas.stop_bits,
        x,
        y,
    ) || is_inside(areas.flow_control, x, y) || is_inside(areas.tx_area, x, y) || is_inside(
        areas.shortcuts_hint,
        x,
        y,
    ) || is_inside(areas.tab_bar, x, y)
}

/// Whether the position lies inside the area of a button.
pub fn is_button_area(area: Rect, x: u16, y: u16, _button_text: &str) -> (r: bool)
    ensures
        r == area.contains(x, y),
{
    is_inside(area, x, y)
}

} // verus!
