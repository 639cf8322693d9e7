//! The menu bar: its menus, their items and where they sit on the bar.

use crate::i18n::{lookup, t, table_of, translation};
use crate::text::{display_width, display_width_spec};
use crate::types::Language;
use vstd::prelude::*;

verus! {

/// What a menu item does.
#[derive(Debug, Clone, Copy, PartialEq, Eq, Structural)]
pub enum MenuAction {
    SaveConfig,
    LoadConfig,
    Exit,
    NewSession,
    DuplicateSession,
    RenameSession,
    CloseSession,
    ViewSingle,
    ViewSplitHorizontal,
    ViewSplitVertical,
    ViewGrid2x2,
    ViewNextPane,
    ViewPrevPane,
    ToggleLanguage,
    ShowShortcuts,
    ShowAbout,
    /// A line between groups of items; it cannot be activated.
    Separator,
}

impl MenuAction {
    /// The translation key of the item's label.
    pub open spec fn label_key_spec(self) -> Seq<char> {
        match self {
            MenuAction::SaveConfig => "menu.file.save_config"@,
            MenuAction::LoadConfig => "menu.file.load_config"@,
            MenuAction::Exit => "menu.file.exit"@,
            MenuAction::NewSession => "menu.session.new"@,
            MenuAction::DuplicateSession => "menu.session.duplicate"@,
            MenuAction::RenameSession => "menu.session.rename"@,
            MenuAction::CloseSession => "menu.session.close"@,
            MenuAction::ViewSingle => "menu.view.single"@,
            MenuAction::ViewSplitHorizontal => "menu.view.split_h"@,
            MenuAction::ViewSplitVertical => "menu.view.split_v"@,
            MenuAction::ViewGrid2x2 => "menu.view.grid_2x2"@,
            MenuAction::ViewNextPane => "menu.view.next_pane"@,
            MenuAction::ViewPrevPane => "menu.view.prev_pane"@,
            MenuAction::ToggleLanguage => "menu.settings.toggle_language"@,
            MenuAction::ShowShortcuts => "menu.help.shortcuts"@,
            MenuAction::ShowAbout => "menu.help.about"@,
            MenuAction::Separator => ""@,
        }
    }

    /// The translation key of the item's label; empty for a separator.
    pub fn label_key(&self) -> (r: &'static str)
        ensures
            r@ == self.label_key_spec(),
    {
        match self {
            MenuAction::SaveConfig => "menu.file.save_config",
            MenuAction::LoadConfig => "menu.file.load_config",
            MenuAction::Exit => "menu.file.exit",
            MenuAction::NewSession => "menu.session.new",
            MenuAction::DuplicateSession => "menu.session.duplicate",
            MenuAction::RenameSession => "menu.session.rename",
            MenuAction::CloseSession => "menu.session.close",
            MenuAction::ViewSingle => "menu.view.single",
            MenuAction::ViewSplitHorizontal => "menu.view.split_h",
            MenuAction::ViewSplitVertical => "menu.view.split_v",
            MenuAction::ViewGrid2x2 => "menu.view.grid_2x2",
            MenuAction::ViewNextPane => "menu.view.next_pane",
            MenuAction::ViewPrevPane => "menu.view.prev_pane",
            MenuAction::ToggleLanguage => "menu.settings.toggle_language",
            MenuAction::ShowShortcuts => "menu.help.shortcuts",
            MenuAction::ShowAbout => "menu.help.about",
            MenuAction::Separator => "",
        }
    }

    /// Whether the item is a separator.
    pub fn is_separator(&self) -> (r: bool)
        ensures
            r == (*self == MenuAction::Separator),
    {
        matches!(self, MenuAction::Separator)
    }
}

/// Number of menus on the bar.
pub const MENU_COUNT: usize = 5;

/// Items of the File menu.
pub const FILE_MENU_ITEMS: [MenuAction; 4] = [
    MenuAction::SaveConfig,
    MenuAction::LoadConfig,
    MenuAction::Separator,
    MenuAction::Exit,
];

/// Items of the Session menu.
pub const SESSION_MENU_ITEMS: [MenuAction; 5] = [
    MenuAction::NewSession,
    MenuAction::DuplicateSession,
    MenuAction::RenameSession,
    MenuAction::Separator,
    MenuAction::CloseSession,
];

/// Items of the View menu.
pub const VIEW_MENU_ITEMS: [MenuAction; 7] = [
    MenuAction::ViewSingle,
    MenuAction::ViewSplitHorizontal,
    MenuAction::ViewSplitVertical,
    MenuAction::ViewGrid2x2,
    MenuAction::Separator,
    MenuAction::ViewNextPane,
    MenuAction::ViewPrevPane,
];

/// Items of the Settings menu.
pub const SETTINGS_MENU_ITEMS: [MenuAction; 1] = [MenuAction::ToggleLanguage];

/// Items of the Help menu.
pub const HELP_MENU_ITEMS: [MenuAction; 3] = [
    MenuAction::ShowShortcuts,
    MenuAction::Separator,
    MenuAction::ShowAbout,
];

/// The items of the menu with index `index`, separators included; none for
/// an index that is no menu.
pub open spec fn menu_items(index: int) -> Seq<MenuAction> {
    if index == 0 {
        FILE_MENU_ITEMS@
    } else if index == 1 {
        SESSION_MENU_ITEMS@
    } else if index == 2 {
        VIEW_MENU_ITEMS@
    } else if index == 3 {
        SETTINGS_MENU_ITEMS@
    } else if index == 4 {
        HELP_MENU_ITEMS@
    } else {
        Seq::empty()
    }
}

/// The translation key of the label of the menu with index `index`.
pub open spec fn menu_label_key(index: int) -> Seq<char> {
    if index == 0 {
        "menu.file"@
    } else if index == 1 {
        "menu.session"@
    } else if index == 2 {
        "menu.view"@
    } else if index == 3 {
        "menu.settings"@
    } else {
        "menu.help"@
    }
}

/// Columns that the label of menu `index` takes in `lang`.
pub open spec fn menu_label_width(index: int, lang: Language) -> nat {
    display_width_spec(translation(menu_label_key(index), lang))
}

/// Column at which menu `index` starts on the bar. Every menu takes its
/// label with a space on either side, and two more columns lie between
/// neighbours. An index beyond the last menu stands for the end of the bar.
pub open spec fn menu_x_offset(index: nat, lang: Language) -> nat
    decreases index,
{
    if index == 0 {
        0
    } else if index > 5 {
        menu_x_offset(5, lang)
    } else {
        menu_x_offset((index - 1) as nat, lang) + menu_label_width(index - 1, lang) + 4
    }
}

/// Whether column `x` of the bar lies on menu `index`: on its label or on
/// the space on either side.
pub open spec fn menu_covers(index: nat, x: u16, lang: Language) -> bool {
    menu_x_offset(index, lang) <= x < menu_x_offset(index, lang) + menu_label_width(
        index as int,
        lang,
    ) + 2
}

/// The menu on which column `x` of the bar lies, if it lies on one.
pub open spec fn menu_at_column(x: u16, lang: Language) -> Option<usize> {
    if menu_covers(0, x, lang) {
        Some(0usize)
    } else if menu_covers(1, x, lang) {
        Some(1usize)
    } else if menu_covers(2, x, lang) {
        Some(2usize)
    } else if menu_covers(3, x, lang) {
        Some(3usize)
    } else if menu_covers(4, x, lang) {
        Some(4usize)
    } else {
        None
    }
}

/// One menu: the key of its label and its items.
#[derive(Debug)]
pub struct Menu {
    pub label_key: &'static str,
    pub items: Vec<MenuAction>,
}

impl Clone for Menu {
    fn clone(&self) -> (r: Menu)
        ensures
            r.label_key == self.label_key,
            r.items@ == self.items@,
    {
        Menu { label_key: self.label_key, items: items_of(self.items.as_slice()) }
    }
}

impl Menu {
    /// Number of items, separators included.
    pub fn item_count(&self) -> (n: usize)
        ensures
            n == self.items@.len(),
    {
        self.items.len()
    }

    /// The item at `index`, if there is one.
    pub fn get_item(&self, index: usize) -> (r: Option<MenuAction>)
        ensures
            r == if index < self.items@.len() {
                Some(self.items@[index as int])
            } else {
                None
            },
    {
        if index < self.items.len() {
            Some(self.items[index])
        } else {
            None
        }
    }
}

/// The menu bar of the application: File, Session, View, Settings, Help.
#[derive(Debug, Clone, Copy)]
pub struct MenuBar;

/// The one menu bar.
pub const MENU_BAR: MenuBar = MenuBar;

fn items_of(source: &[MenuAction]) -> (items: Vec<MenuAction>)
    ensures
        items@ == source@,
{
    let mut items: Vec<MenuAction> = Vec::new();
    let mut i: usize = 0;
    while i < source.len()
        invariant
            i <= source@.len(),
            items@ == source@.take(i as int),
        decreases source@.len() - i,
    {
        items.push(source[i]);
        assert(items@ =~= source@.take(i + 1));
        i += 1;
    }
    assert(source@.take(source@.len() as int) =~= source@);
    items
}

impl MenuBar {
    /// Number of menus.
    pub fn menu_count(&self) -> (n: usize)
        ensures
            n == MENU_COUNT,
    {
        MENU_COUNT
    }

    /// The menu with index `index`, if there is one.
    pub fn get_menu(&self, index: usize) -> (r: Option<Menu>)
        ensures
            r is Some == (index < MENU_COUNT),
            r matches Some(menu) ==> menu.label_key@ == menu_label_key(index as int)
                && menu.items@ == menu_items(index as int),
    {
        if index == 0 {
            Some(Menu { label_key: "menu.file", items: items_of(FILE_MENU_ITEMS.as_slice()) })
        } else if index == 1 {
            Some(Menu { label_key: "menu.session", items: items_of(SESSION_MENU_ITEMS.as_slice()) })
        } else if index == 2 {
            Some(Menu { label_key: "menu.view", items: items_of(VIEW_MENU_ITEMS.as_slice()) })
        } else if index == 3 {
            Some(
                Menu { label_key: "menu.settings", items: items_of(SETTINGS_MENU_ITEMS.as_slice()) },
            )
        } else if index == 4 {
            Some(Menu { label_key: "menu.help", items: items_of(HELP_MENU_ITEMS.as_slice()) })
        } else {
            None
        }
    }

    /// The key of the label of the menu with index `index`.
    pub fn get_menu_label_key(&self, index: usize) -> (r: Option<&'static str>)
        ensures
            r is Some == (index < MENU_COUNT),
            r matches Some(key) ==> key@ == menu_label_key(index as int),
    {
        if index == 0 {
            Some("menu.file")
        } else if index == 1 {
            Some("menu.session")
        } else if index == 2 {
            Some("menu.view")
        } else if index == 3 {
            Some("menu.settings")
        } else if index == 4 {
            Some("menu.help")
        } else {
            None
        }
    }

    /// Number of items of the menu with index `menu_index`; zero if there
    /// is no such menu.
    pub fn get_item_count(&self, menu_index: usize) -> (n: usize)
        ensures
            n == menu_items(menu_index as int).len(),
            menu_index < MENU_COUNT ==> 1 <= n <= 7,
    {
        if menu_index == 0 {
            FILE_MENU_ITEMS.len()
        } else if menu_index == 1 {
            SESSION_MENU_ITEMS.len()
        } else if menu_index == 2 {
            VIEW_MENU_ITEMS.len()
        } else if menu_index == 3 {
            SETTINGS_MENU_ITEMS.len()
        } else if menu_index == 4 {
            HELP_MENU_ITEMS.len()
        } else {
            0
        }
    }

    /// The item `item_index` of the menu `menu_index`, if both exist.
    pub fn get_action(&self, menu_index: usize, item_index: usize) -> (r: Option<MenuAction>)
        ensures
            r == if item_index < menu_items(menu_index as int).len() {
                Some(menu_items(menu_index as int)[item_index as int])
            } else {
                None
            },
    {
        if item_index >= self.get_item_count(menu_index) {
            None
        } else if menu_index == 0 {
            Some(FILE_MENU_ITEMS[item_index])
        } else if menu_index == 1 {
            Some(SESSION_MENU_ITEMS[item_index])
        } else if menu_index == 2 {
            Some(VIEW_MENU_ITEMS[item_index])
        } else if menu_index == 3 {
            Some(SETTINGS_MENU_ITEMS[item_index])
        } else {
            Some(HELP_MENU_ITEMS[item_index])
        }
    }
}

proof fn lemma_width_by_length(s: Seq<char>)
    ensures
        display_width_spec(s) <= 2 * s.len(),
    decreases s.len(),
{
    if s.len() > 0 {
        lemma_width_by_length(s.drop_last());
    }
}

proof fn lemma_menu_keys_differ()
    ensures
        "menu.file"@ != "menu.session"@,
        "menu.file"@ != "menu.view"@,
        "menu.file"@ != "menu.settings"@,
        "menu.file"@ != "menu.help"@,
        "menu.session"@ != "menu.view"@,
        "menu.session"@ != "menu.settings"@,
        "menu.session"@ != "menu.help"@,
        "menu.view"@ != "menu.settings"@,
        "menu.view"@ != "menu.help"@,
        "menu.settings"@ != "menu.help"@,
{
    reveal_strlit("menu.file");
    reveal_strlit("menu.session");
    reveal_strlit("menu.view");
    reveal_strlit("menu.settings");
    reveal_strlit("menu.help");
    assert("menu.file"@.len() == 9);
    assert("menu.session"@.len() == 12);
    assert("menu.view"@.len() == 9);
    assert("menu.settings"@.len() == 13);
    assert("menu.help"@.len() == 9);
    assert("menu.file"@[5] == 'f');
    assert("menu.view"@[5] == 'v');
    assert("menu.help"@[5] == 'h');
}

proof fn lemma_menu_label_texts(table: Seq<(&'static str, &'static str)>)
    requires
        table.len() >= 5,
        table[0].0@ == "menu.file"@,
        table[1].0@ == "menu.session"@,
        table[2].0@ == "menu.view"@,
        table[3].0@ == "menu.settings"@,
        table[4].0@ == "menu.help"@,
    ensures
        forall|i: int| 0 <= i < 5 ==> lookup(table, #[trigger] menu_label_key(i)) == Some(table[i].1),
{
    lemma_menu_keys_differ();
    reveal_with_fuel(lookup, 6);
    let t1 = table.drop_first();
    let t2 = t1.drop_first();
    let t3 = t2.drop_first();
    let t4 = t3.drop_first();
    assert(t1[0] == table[1]);
    assert(t2[0] == table[2]);
    assert(t3[0] == table[3]);
    assert(t4[0] == table[4]);
    assert(lookup(table, menu_label_key(0)) == Some(table[0].1));
    assert(lookup(t1, menu_label_key(1)) == Some(table[1].1));
    assert(lookup(table, menu_label_key(1)) == Some(table[1].1));
    assert(lookup(t2, menu_label_key(2)) == Some(table[2].1));
    assert(lookup(t1, menu_label_key(2)) == Some(table[2].1));
    assert(lookup(table, menu_label_key(2)) == Some(table[2].1));
    assert(lookup(t3, menu_label_key(3)) == Some(table[3].1));
    assert(lookup(t2, menu_label_key(3)) == Some(table[3].1));
    assert(lookup(t1, menu_label_key(3)) == Some(table[3].1));
    assert(lookup(table, menu_label_key(3)) == Some(table[3].1));
    assert(lookup(t4, menu_label_key(4)) == Some(table[4].1));
    assert(lookup(t3, menu_label_key(4)) == Some(table[4].1));
    assert(lookup(t2, menu_label_key(4)) == Some(table[4].1));
    assert(lookup(t1, menu_label_key(4)) == Some(table[4].1));
    assert(lookup(table, menu_label_key(4)) == Some(table[4].1));
}

proof fn lemma_menu_labels(lang: Language)
    ensures
        forall|i: int| 0 <= i < 5 ==> #[trigger] menu_label_width(i, lang) <= 16,
{
    let table = table_of(lang);
    lemma_menu_label_texts(table);
    match lang {
        Language::English => {
            reveal_strlit("File");
            reveal_strlit("Session");
            reveal_strlit("View");
            reveal_strlit("Settings");
            reveal_strlit("Help");
            assert(table[0].1@.len() == 4);
            assert(table[1].1@.len() == 7);
            assert(table[2].1@.len() == 4);
            assert(table[3].1@.len() == 8);
            assert(table[4].1@.len() == 4);
        },
        Language::Chinese => {
            reveal_strlit("文件");
            reveal_strlit("会话");
            reveal_strlit("视图");
            reveal_strlit("设置");
            reveal_strlit("帮助");
            assert(table[0].1@.len() == 2);
            assert(table[1].1@.len() == 2);
            assert(table[2].1@.len() == 2);
            assert(table[3].1@.len() == 2);
            assert(table[4].1@.len() == 2);
        },
    }
    assert forall|i: int| 0 <= i < 5 implies #[trigger] menu_label_width(i, lang) <= 16 by {
        assert(lookup(table, menu_label_key(i)) == Some(table[i].1));
        assert(translation(menu_label_key(i), lang) == table[i].1@);
        lemma_width_by_length(table[i].1@);
    }
}

proof fn lemma_menu_x_offset_bound(index: nat, lang: Language)
    ensures
        menu_x_offset(index, lang) <= 20 * index,
        menu_x_offset(index, lang) <= 100,
    decreases index,
{
    lemma_menu_labels(lang);
    if index == 0 {
    } else if index > 5 {
        lemma_menu_x_offset_bound(5, lang);
    } else {
        lemma_menu_x_offset_bound((index - 1) as nat, lang);
    }
}

/// Column at which the menu with index `menu_index` starts on the bar.
pub fn calculate_menu_x_offset(menu_index: usize, lang: Language) -> (offset: u16)
    ensures
        offset == menu_x_offset(menu_index as nat, lang),
{
    let mut offset: u16 = 0;
    let count = if menu_index < MENU_COUNT {
        menu_index
    } else {
        MENU_COUNT
    };
    let mut i: usize = 0;
    while i < count
        invariant
            i <= count <= 5,
            count == if menu_index < 5 {
                menu_index
            } else {
                5
            },
            offset == menu_x_offset(i as nat, lang),
        decreases count - i,
    {
        proof {
            lemma_menu_labels(lang);
            lemma_menu_x_offset_bound(i as nat, lang);
        }
        if let Some(label_key) = MENU_BAR.get_menu_label_key(i) {
            let label = t(label_key, lang);
            let width = display_width(label);
            assert(width == menu_label_width(i as int, lang));
            offset += width as u16 + 4;
        }
        i += 1;
    }
    offset
}

/// The menu on which column `x` of the bar lies, if it lies on one.
pub fn find_clicked_menu(x: u16, lang: Language) -> (r: Option<usize>)
    ensures
        r == menu_at_column(x, lang),
        r matches Some(i) ==> i < MENU_COUNT && menu_covers(i as nat, x, lang),
        r is None ==> forall|i: nat| i < 5 ==> !menu_covers(i, x, lang),
{
    let mut current_x: u16 = 0;
    let mut i: usize = 0;
    while i < MENU_COUNT
        invariant
            i <= 5,
            current_x == menu_x_offset(i as nat, lang),
            forall|j: nat| j < i ==> !menu_covers(j, x, lang),
        decreases 5 - i,
    {
        proof {
            lemma_menu_labels(lang);
            lemma_menu_x_offset_bound(i as nat, lang);
        }
        if let Some(label_key) = MENU_BAR.get_menu_label_key(i) {
            let label = t(label_key, lang);
            let width = display_width(label);
            assert(width == menu_label_width(i as int, lang));
            let menu_width: u16 = width as u16 + 2;
            if x >= current_x && x < current_x + menu_width {
                return Some(i);
            }
            current_x += menu_width + 2;
        }
        i += 1;
    }
    None
}

/// The menus lie side by side: a column lies on at most one of them.
pub proof fn lemma_menus_do_not_overlap(i: nat, j: nat, x: u16, lang: Language)
    requires
        i < j < 5,
    ensures
        !(menu_covers(i, x, lang) && menu_covers(j, x, lang)),
    decreases j - i,
{
    if j == i + 1 {
    } else {
        lemma_menus_do_not_overlap(i, (j - 1) as nat, x, lang);
        if menu_covers(i, x, lang) {
            lemma_offsets_grow(i + 1, (j - 1) as nat, lang);
        }
    }
}

proof fn lemma_offsets_grow(i: nat, j: nat, lang: Language)
    requires
        i <= j <= 5,
    ensures
        menu_x_offset(i, lang) <= menu_x_offset(j, lang),
    decreases j - i,
{
    if i < j {
        lemma_offsets_grow(i, (j - 1) as nat, lang);
    }
}

} // verus!
