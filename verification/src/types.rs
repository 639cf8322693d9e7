//! Small enumerations shared by every part of the monitor.

use vstd::prelude::*;

verus! {

/// How received bytes are rendered in the log.
#[derive(Debug, Clone, Copy, PartialEq, Eq, Structural)]
pub enum DisplayMode {
    Hex,
    Text,
}

impl DisplayMode {
    /// The other display mode.
    pub open spec fn toggled_spec(self) -> DisplayMode {
        match self {
            DisplayMode::Hex => DisplayMode::Text,
            DisplayMode::Text => DisplayMode::Hex,
        }
    }

    /// Switches between hexadecimal and text rendering.
    #[verifier::when_used_as_spec(toggled_spec)]
    pub fn toggled(self) -> (r: DisplayMode)
        ensures
            r == self.toggled_spec(),
    {
        match self {
            DisplayMode::Hex => DisplayMode::Text,
            DisplayMode::Text => DisplayMode::Hex,
        }
    }

    /// Short label of the mode.
    pub open spec fn label_spec(self) -> Seq<char> {
        match self {
            DisplayMode::Hex => "HEX"@,
            DisplayMode::Text => "TEXT"@,
        }
    }

    /// Short label of the mode, as shown in notifications.
    pub fn label(self) -> (r: &'static str)
        ensures
            r@ == self.label_spec(),
    {
        match self {
            DisplayMode::Hex => "HEX",
            DisplayMode::Text => "TEXT",
        }
    }
}

/// How the text of the send box is turned into bytes.
#[derive(Debug, Clone, Copy, PartialEq, Eq, Structural)]
pub enum TxMode {
    Hex,
    Ascii,
}

impl TxMode {
    /// The other transmission mode.
    pub open spec fn toggled_spec(self) -> TxMode {
        match self {
            TxMode::Hex => TxMode::Ascii,
            TxMode::Ascii => TxMode::Hex,
        }
    }

    /// Switches between hexadecimal and plain-text input.
    #[verifier::when_used_as_spec(toggled_spec)]
    pub fn toggled(self) -> (r: TxMode)
        ensures
            r == self.toggled_spec(),
    {
        match self {
            TxMode::Hex => TxMode::Ascii,
            TxMode::Ascii => TxMode::Hex,
        }
    }

    /// Short label of the mode.
    pub open spec fn label_spec(self) -> Seq<char> {
        match self {
            TxMode::Hex => "HEX"@,
            TxMode::Ascii => "ASCII"@,
        }
    }

    /// Short label of the mode, as shown in notifications.
    pub fn label(self) -> (r: &'static str)
        ensures
            r@ == self.label_spec(),
    {
        match self {
            TxMode::Hex => "HEX",
            TxMode::Ascii => "ASCII",
        }
    }
}

/// Toggling the display mode twice gives the mode back.
pub proof fn lemma_display_mode_toggle_twice(mode: DisplayMode)
    ensures
        mode.toggled_spec().toggled_spec() == mode,
{
}

/// Toggling the transmission mode twice gives the mode back.
pub proof fn lemma_tx_mode_toggle_twice(mode: TxMode)
    ensures
        mode.toggled_spec().toggled_spec() == mode,
{
}

/// The fixed byte suffix appended to every transmission.
#[derive(Debug, Clone, Copy, PartialEq, Eq, Structural)]
pub enum AppendMode {
    /// Nothing is appended.
    Nothing,
    /// Line feed, 0x0A.
    LF,
    /// Carriage return, 0x0D.
    CR,
    /// Carriage return, then line feed.
    CRLF,
    /// Line feed, then carriage return.
    LFCR,
}

/// Number of append modes.
pub const APPEND_MODE_COUNT: usize = 5;

impl AppendMode {
    /// The suffix of the mode.
    pub open spec fn bytes_spec(self) -> Seq<u8> {
        match self {
            AppendMode::Nothing => seq![],
            AppendMode::LF => seq![0x0Au8],
            AppendMode::CR => seq![0x0Du8],
            AppendMode::CRLF => seq![0x0Du8, 0x0Au8],
            AppendMode::LFCR => seq![0x0Au8, 0x0Du8],
        }
    }

    /// Display name of the mode.
    pub open spec fn name_spec(self) -> Seq<char> {
        match self {
            AppendMode::Nothing => "无追加"@,
            AppendMode::LF => "\\n"@,
            AppendMode::CR => "\\r"@,
            AppendMode::CRLF => "\\r\\n"@,
            AppendMode::LFCR => "\\n\\r"@,
        }
    }

    /// The mode at position `i % 5` of the list of modes.
    pub open spec fn at(i: nat) -> AppendMode {
        let k = i % 5;
        if k == 0 {
            AppendMode::Nothing
        } else if k == 1 {
            AppendMode::LF
        } else if k == 2 {
            AppendMode::CR
        } else if k == 3 {
            AppendMode::CRLF
        } else {
            AppendMode::LFCR
        }
    }

    /// All modes, in order.
    pub open spec fn catalogue() -> Seq<AppendMode> {
        Seq::new(5, |i: int| AppendMode::at(i as nat))
    }

    /// The bytes appended by this mode.
    pub fn as_bytes(&self) -> (r: Vec<u8>)
        ensures
            r@ == self.bytes_spec(),
    {
        let mut r: Vec<u8> = Vec::new();
        match self {
            AppendMode::Nothing => {},
            AppendMode::LF => {
                r.push(0x0A);
            },
            AppendMode::CR => {
                r.push(0x0D);
            },
            AppendMode::CRLF => {
                r.push(0x0D);
                r.push(0x0A);
            },
            AppendMode::LFCR => {
                r.push(0x0A);
                r.push(0x0D);
            },
        }
        assert(r@ =~= self.bytes_spec());
        r
    }

    /// Display name of the mode.
    pub fn name(&self) -> (r: &'static str)
        ensures
            r@ == self.name_spec(),
    {
        match self {
            AppendMode::Nothing => "无追加",
            AppendMode::LF => "\\n",
            AppendMode::CR => "\\r",
            AppendMode::CRLF => "\\r\\n",
            AppendMode::LFCR => "\\n\\r",
        }
    }

    /// The mode at position `i` of the list of modes, taken cyclically.
    pub fn from_index(i: usize) -> (mode: AppendMode)
        ensures
            mode == AppendMode::at(i as nat),
    {
        let k: usize = i % APPEND_MODE_COUNT;
        if k == 0 {
            AppendMode::Nothing
        } else if k == 1 {
            AppendMode::LF
        } else if k == 2 {
            AppendMode::CR
        } else if k == 3 {
            AppendMode::CRLF
        } else {
            AppendMode::LFCR
        }
    }

    /// All append modes, in order.
    pub fn all() -> (modes: Vec<AppendMode>)
        ensures
            modes@ == AppendMode::catalogue(),
    {
        let mut modes: Vec<AppendMode> = Vec::new();
        let mut i: usize = 0;
        while i < APPEND_MODE_COUNT
            invariant
                i <= 5,
                modes@.len() == i,
                forall|j: int| 0 <= j < i ==> #[trigger] modes@[j] == AppendMode::at(j as nat),
            decreases 5 - i,
        {
            modes.push(AppendMode::from_index(i));
            i += 1;
        }
        assert(modes@ =~= AppendMode::catalogue());
        modes
    }
}

/// Parity setting of the serial line.
#[derive(Debug, Clone, Copy, PartialEq, Eq, Structural)]
pub enum Parity {
    /// No parity bit.
    Off,
    Even,
    Odd,
}

impl Parity {
    /// Name of the setting.
    pub open spec fn name_spec(self) -> Seq<char> {
        match self {
            Parity::Off => "None"@,
            Parity::Even => "Even"@,
            Parity::Odd => "Odd"@,
        }
    }

    /// Name of the setting, as shown in notifications.
    pub fn name(self) -> (r: &'static str)
        ensures
            r@ == self.name_spec(),
    {
        match self {
            Parity::Off => "None",
            Parity::Even => "Even",
            Parity::Odd => "Odd",
        }
    }
}

/// Flow control setting of the serial line.
#[derive(Debug, Clone, Copy, PartialEq, Eq, Structural)]
pub enum FlowControl {
    /// No flow control.
    Off,
    Hardware,
    Software,
}

impl FlowControl {
    /// Name of the setting.
    pub open spec fn name_spec(self) -> Seq<char> {
        match self {
            FlowControl::Off => "None"@,
            FlowControl::Hardware => "Hardware"@,
            FlowControl::Software => "Software"@,
        }
    }

    /// Name of the setting, as shown in notifications.
    pub fn name(self) -> (r: &'static str)
        ensures
            r@ == self.name_spec(),
    {
        match self {
            FlowControl::Off => "None",
            FlowControl::Hardware => "Hardware",
            FlowControl::Software => "Software",
        }
    }
}

/// The widget that receives keyboard input.
///
/// The eight fields form a ring: Port, BaudRate, DataBits, Parity, StopBits,
/// FlowControl, LogArea, TxInput, and back to Port.
#[derive(Debug, Clone, Copy, PartialEq, Eq, Structural)]
pub enum FocusedField {
    Port,
    BaudRate,
    DataBits,
    Parity,
    StopBits,
    FlowControl,
    LogArea,
    TxInput,
}

/// Number of fields in the focus ring.
pub const FOCUS_RING_LEN: usize = 8;

impl FocusedField {
    /// Position of the field in the ring.
    pub open spec fn index_spec(self) -> nat {
        match self {
            FocusedField::Port => 0,
            FocusedField::BaudRate => 1,
            FocusedField::DataBits => 2,
            FocusedField::Parity => 3,
            FocusedField::StopBits => 4,
            FocusedField::FlowControl => 5,
            FocusedField::LogArea => 6,
            FocusedField::TxInput => 7,
        }
    }

    /// The field at position `i % 8` of the ring.
    pub open spec fn at(i: nat) -> FocusedField {
        let k = i % 8;
        if k == 0 {
            FocusedField::Port
        } else if k == 1 {
            FocusedField::BaudRate
        } else if k == 2 {
            FocusedField::DataBits
        } else if k == 3 {
            FocusedField::Parity
        } else if k == 4 {
            FocusedField::StopBits
        } else if k == 5 {
            FocusedField::FlowControl
        } else if k == 6 {
            FocusedField::LogArea
        } else {
            FocusedField::TxInput
        }
    }

    /// The field after this one in the ring.
    pub open spec fn next_spec(self) -> FocusedField {
        FocusedField::at(self.index_spec() + 1)
    }

    /// The field before this one in the ring.
    pub open spec fn prev_spec(self) -> FocusedField {
        FocusedField::at(self.index_spec() + 7)
    }

    /// Position of the field in the ring.
    pub fn index(self) -> (i: usize)
        ensures
            i == self.index_spec(),
            i < FOCUS_RING_LEN,
    {
        match self {
            FocusedField::Port => 0,
            FocusedField::BaudRate => 1,
            FocusedField::DataBits => 2,
            FocusedField::Parity => 3,
            FocusedField::StopBits => 4,
            FocusedField::FlowControl => 5,
            FocusedField::LogArea => 6,
            FocusedField::TxInput => 7,
        }
    }

    /// The field at position `i` of the ring, taken cyclically.
    pub fn from_index(i: usize) -> (field: FocusedField)
        ensures
            field == FocusedField::at(i as nat),
            field.index_spec() == i % 8,
    {
        let k: usize = i % FOCUS_RING_LEN;
        if k == 0 {
            FocusedField::Port
        } else if k == 1 {
            FocusedField::BaudRate
        } else if k == 2 {
            FocusedField::DataBits
        } else if k == 3 {
            FocusedField::Parity
        } else if k == 4 {
            FocusedField::StopBits
        } else if k == 5 {
            FocusedField::FlowControl
        } else if k == 6 {
            FocusedField::LogArea
        } else {
            FocusedField::TxInput
        }
    }

    /// The field after this one in the ring.
    #[verifier::when_used_as_spec(next_spec)]
    pub fn next(self) -> (field: FocusedField)
        ensures
            field == self.next_spec(),
            field.index_spec() == (self.index_spec() + 1) % 8,
    {
        FocusedField::from_index(self.index() + 1)
    }

    /// The field before this one in the ring.
    #[verifier::when_used_as_spec(prev_spec)]
    pub fn prev(self) -> (field: FocusedField)
        ensures
            field == self.prev_spec(),
            field.index_spec() == (self.index_spec() + 7) % 8,
    {
        FocusedField::from_index(self.index() + FOCUS_RING_LEN - 1)
    }
}

/// In the focus ring, stepping back undoes stepping forward and the other
/// way round.
pub proof fn lemma_focus_ring(field: FocusedField)
    ensures
        field.next_spec().prev_spec() == field,
        field.prev_spec().next_spec() == field,
{
}

/// Language of the user interface.
#[derive(Debug, Clone, Copy, PartialEq, Eq, Structural)]
pub enum Language {
    English,
    Chinese,
}

impl Language {
    /// The other language.
    pub open spec fn toggled_spec(self) -> Language {
        match self {
            Language::English => Language::Chinese,
            Language::Chinese => Language::English,
        }
    }

    /// Name of the language, in the language itself.
    pub open spec fn name_spec(self) -> Seq<char> {
        match self {
            Language::English => "English"@,
            Language::Chinese => "中文"@,
        }
    }

    /// Both languages, English first.
    pub fn all() -> (r: Vec<Language>)
        ensures
            r@ == seq![Language::English, Language::Chinese],
    {
        let mut r: Vec<Language> = Vec::new();
        r.push(Language::English);
        r.push(Language::Chinese);
        assert(r@ =~= seq![Language::English, Language::Chinese]);
        r
    }

    /// Name of the language, in the language itself.
    pub fn name(&self) -> (r: &'static str)
        ensures
            r@ == self.name_spec(),
    {
        match self {
            Language::English => "English",
            Language::Chinese => "中文",
        }
    }

    /// Switches between the two languages.
    #[verifier::when_used_as_spec(toggled_spec)]
    pub fn toggled(self) -> (r: Language)
        ensures
            r == self.toggled_spec(),
    {
        match self {
            Language::English => Language::Chinese,
            Language::Chinese => Language::English,
        }
    }
}

/// State of the two-level menu bar.
#[derive(Debug, Clone, Copy, PartialEq, Eq, Structural)]
pub enum MenuState {
    /// The menu is closed.
    Closed,
    /// The bar has the focus, on the menu with this index.
    MenuBar(usize),
    /// The dropdown of the menu with the first index is open, on the item
    /// with the second index.
    Dropdown(usize, usize),
}

} // verus!
