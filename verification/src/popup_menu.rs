//! The entries and the selection of a contextual menu.
//!
//! A [`PopupMenu`] is the state behind a menu on screen: what it lists, which
//! entry is selected, and what confirming the selection asks for. Drawing the
//! menu and carrying out a confirmed entry are left to the front end.

use crate::dock::layout::Pixels;
use vstd::prelude::*;

verus! {

/// The glyph in front of a menu entry.
#[derive(Debug, PartialEq, Eq)]
pub enum Icon {
    /// The mark of a checked entry.
    Check,
    /// A glyph of the front end's own, by name.
    Named(String),
}

/// What confirming a menu entry asks the front end to do.
#[derive(Debug, PartialEq, Eq)]
pub enum MenuCommand {
    /// Dispatch the action of this name.
    Dispatch { action: String },
    /// Open this address.
    OpenUrl { href: String },
}

impl Clone for MenuCommand {
    /// The same command once more.
    fn clone(&self) -> (res: Self)
        ensures
            res == *self,
    {
        match self {
            MenuCommand::Dispatch { action } => MenuCommand::Dispatch { action: action.clone() },
            MenuCommand::OpenUrl { href } => MenuCommand::OpenUrl { href: href.clone() },
        }
    }
}

/// One entry of a menu.
#[derive(Debug, PartialEq, Eq)]
pub enum PopupMenuItem {
    /// A line between groups of entries.
    Separator,
    /// An entry that runs a command.
    Item { icon: Option<Icon>, label: String, command: MenuCommand },
    /// An entry that opens a menu of its own.
    SubMenu { icon: Option<Icon>, label: String, menu: PopupMenu },
}

impl PopupMenuItem {
    /// Whether the entry can be chosen: every entry but a separator.
    pub open spec fn spec_is_clickable(&self) -> bool {
        !(self is Separator)
    }

    /// Whether the entry can be chosen: every entry but a separator.
    #[verifier::when_used_as_spec(spec_is_clickable)]
    pub fn is_clickable(&self) -> (yes: bool)
        ensures
            yes == self.spec_is_clickable(),
    {
        match self {
            PopupMenuItem::Separator => false,
            _ => true,
        }
    }

    /// Whether the entry runs a command and shows an icon.
    pub open spec fn spec_has_icon(&self) -> bool {
        self matches PopupMenuItem::Item { icon: Some(_), .. }
    }

    /// Whether the entry runs a command and shows an icon.
    #[verifier::when_used_as_spec(spec_has_icon)]
    pub fn has_icon(&self) -> (yes: bool)
        ensures
            yes == self.spec_has_icon(),
    {
        match self {
            PopupMenuItem::Item { icon: Some(_), .. } => true,
            _ => false,
        }
    }
}

/// The state of a contextual menu.
#[derive(Debug, PartialEq, Eq)]
pub struct PopupMenu {
    /// The entries, from top to bottom.
    pub menu_items: Vec<PopupMenuItem>,
    /// The selected entry, if any.
    pub selected_index: Option<usize>,
    /// The least width the menu is drawn with.
    pub min_width: Pixels,
    /// The greatest width the menu is drawn with.
    pub max_width: Pixels,
}

/// The least width of a menu that was given none: 120 pixels, as the bits
/// of a [`Pixels`].
pub const DEFAULT_MIN_WIDTH: u32 = 0x42f0_0000;

/// The greatest width of a menu that was given none: 500 pixels, as the bits
/// of a [`Pixels`].
pub const DEFAULT_MAX_WIDTH: u32 = 0x43fa_0000;

/// The indexes below `end` of the entries that can be chosen, in order.
pub open spec fn clickable_indexes(items: Seq<PopupMenuItem>, end: int) -> Seq<usize>
    decreases end,
{
    if end <= 0 {
        Seq::empty()
    } else if 0 <= end - 1 < items.len() && items[end - 1].spec_is_clickable() {
        clickable_indexes(items, end - 1).push((end - 1) as usize)
    } else {
        clickable_indexes(items, end - 1)
    }
}

impl PopupMenu {
    /// Whether this is a menu as `new` makes it.
    pub open spec fn is_fresh(&self) -> bool {
        &&& self.menu_items@.len() == 0
        &&& self.selected_index is None
        &&& self.min_width.bits == DEFAULT_MIN_WIDTH
        &&& self.max_width.bits == DEFAULT_MAX_WIDTH
    }

    /// How many entries can be chosen.
    pub open spec fn clickable_count(&self) -> nat {
        clickable_indexes(self.menu_items@, self.menu_items@.len() as int).len()
    }

    /// This menu with `item` added below its entries.
    pub open spec fn with_item(&self, menu: PopupMenu, item: PopupMenuItem) -> bool {
        &&& menu.menu_items@ == self.menu_items@.push(item)
        &&& menu.selected_index == self.selected_index
        &&& menu.min_width == self.min_width
        &&& menu.max_width == self.max_width
    }

    /// A menu without entries and without a selection, between 120 and 500
    /// pixels wide.
    pub fn new() -> (menu: Self)
        ensures
            menu.is_fresh(),
    {
        PopupMenu {
            menu_items: Vec::new(),
            selected_index: None,
            min_width: Pixels { bits: DEFAULT_MIN_WIDTH },
            max_width: Pixels { bits: DEFAULT_MAX_WIDTH },
        }
    }

    /// Whether `menu` is what `f` may make of a fresh menu.
    pub open spec fn filled_by<B: FnOnce(PopupMenu) -> PopupMenu>(f: B, menu: PopupMenu) -> bool {
        exists|fresh: PopupMenu| fresh.is_fresh() && #[trigger] call_ensures(f, (fresh,), menu)
    }

    /// A new menu as `f` fills it.
    pub fn build<B: FnOnce(PopupMenu) -> PopupMenu>(f: B) -> (menu: Self)
        requires
            forall|fresh: PopupMenu| fresh.is_fresh() ==> call_requires(f, (fresh,)),
        ensures
            Self::filled_by(f, menu),
    {
        let fresh = PopupMenu::new();
        f(fresh)
    }

    /// Sets the least width the menu is drawn with.
    pub fn min_w(self, width: Pixels) -> (menu: Self)
        ensures
            menu == (PopupMenu { min_width: width, ..self }),
    {
        let mut menu = self;
        menu.min_width = width;
        menu
    }

    /// Sets the greatest width the menu is drawn with.
    pub fn max_w(self, width: Pixels) -> (menu: Self)
        ensures
            menu == (PopupMenu { max_width: width, ..self }),
    {
        let mut menu = self;
        menu.max_width = width;
        menu
    }

    /// Adds an entry that dispatches `action`.
    fn add_menu_item(&mut self, label: String, icon: Option<Icon>, action: String)
        ensures
            old(self).with_item(
                *final(self),
                PopupMenuItem::Item { icon, label, command: MenuCommand::Dispatch { action } },
            ),
    {
        self.menu_items.push(
            PopupMenuItem::Item { icon, label, command: MenuCommand::Dispatch { action } },
        );
    }

    /// Adds an entry that dispatches `action`.
    pub fn menu(self, label: String, action: String) -> (menu: Self)
        ensures
            self.with_item(
                menu,
                PopupMenuItem::Item {
                    icon: None,
                    label,
                    command: MenuCommand::Dispatch { action },
                },
            ),
    {
        let mut menu = self;
        menu.add_menu_item(label, None, action);
        menu
    }

    /// Adds an entry that opens the address `href`.
    pub fn link(self, label: String, href: String) -> (menu: Self)
        ensures
            self.with_item(
                menu,
                PopupMenuItem::Item { icon: None, label, command: MenuCommand::OpenUrl { href } },
            ),
    {
        let mut menu = self;
        menu.menu_items.push(
            PopupMenuItem::Item { icon: None, label, command: MenuCommand::OpenUrl { href } },
        );
        menu
    }

    /// Adds an entry with an icon that opens the address `href`.
    pub fn link_with_icon(self, label: String, icon: Icon, href: String) -> (menu: Self)
        ensures
            self.with_item(
                menu,
                PopupMenuItem::Item {
                    icon: Some(icon),
                    label,
                    command: MenuCommand::OpenUrl { href },
                },
            ),
    {
        let mut menu = self;
        menu.menu_items.push(
            PopupMenuItem::Item {
                icon: Some(icon),
                label,
                command: MenuCommand::OpenUrl { href },
            },
        );
        menu
    }

    /// Adds an entry with an icon that dispatches `action`.
    pub fn menu_with_icon(self, label: String, icon: Icon, action: String) -> (menu: Self)
        ensures
            self.with_item(
                menu,
                PopupMenuItem::Item {
                    icon: Some(icon),
                    label,
                    command: MenuCommand::Dispatch { action },
                },
            ),
    {
        let mut menu = self;
        menu.add_menu_item(label, Some(icon), action);
        menu
    }

    /// Adds an entry that dispatches `action` and carries the check mark
    /// exactly if `checked`.
    pub fn menu_with_check(self, label: String, checked: bool, action: String) -> (menu: Self)
        ensures
            self.with_item(
                menu,
                PopupMenuItem::Item {
                    icon: if checked {
                        Some(Icon::Check)
                    } else {
                        None
                    },
                    label,
                    command: MenuCommand::Dispatch { action },
                },
            ),
    {
        let mut menu = self;
        if checked {
            menu.add_menu_item(label, Some(Icon::Check), action);
        } else {
            menu.add_menu_item(label, None, action);
        }
        menu
    }

    /// Adds a separator.
    pub fn separator(self) -> (menu: Self)
        ensures
            self.with_item(menu, PopupMenuItem::Separator),
    {
        let mut menu = self;
        menu.menu_items.push(PopupMenuItem::Separator);
        menu
    }

    /// This menu with an entry added below its entries that opens a menu
    /// which `f` filled.
    pub open spec fn with_sub_menu<B: FnOnce(PopupMenu) -> PopupMenu>(
        &self,
        menu: PopupMenu,
        icon: Option<Icon>,
        label: String,
        f: B,
    ) -> bool {
        &&& menu.menu_items@.len() == self.menu_items@.len() + 1
        &&& menu.menu_items@.drop_last() == self.menu_items@
        &&& menu.menu_items@.last() matches PopupMenuItem::SubMenu {
            icon: sub_icon,
            label: sub_label,
            menu: sub,
        }
        &&& sub_icon == icon
        &&& sub_label == label
        &&& Self::filled_by(f, sub)
        &&& menu.selected_index == self.selected_index
        &&& menu.min_width == self.min_width
        &&& menu.max_width == self.max_width
    }

    /// Adds an entry without an icon that opens the menu which `f` fills.
    pub fn sub_menu<B: FnOnce(PopupMenu) -> PopupMenu>(self, label: String, f: B) -> (menu: Self)
        requires
            forall|fresh: PopupMenu| fresh.is_fresh() ==> call_requires(f, (fresh,)),
        ensures
            self.with_sub_menu(menu, None, label, f),
    {
        self.sub_menu_with_icon(None, label, f)
    }

    /// Adds an entry that opens the menu which `f` fills.
    pub fn sub_menu_with_icon<B: FnOnce(PopupMenu) -> PopupMenu>(
        self,
        icon: Option<Icon>,
        label: String,
        f: B,
    ) -> (menu: Self)
        requires
            forall|fresh: PopupMenu| fresh.is_fresh() ==> call_requires(f, (fresh,)),
        ensures
            self.with_sub_menu(menu, icon, label, f),
    {
        let sub = PopupMenu::build(f);
        let mut menu = self;
        menu.menu_items.push(PopupMenuItem::SubMenu { icon, label, menu: sub });
        assert(menu.menu_items@.drop_last() =~= self.menu_items@);
        menu
    }

    /// The command of the entry at `index`, if there is such an entry and
    /// it runs a command.
    pub open spec fn command_at(&self, index: Option<usize>) -> Option<MenuCommand> {
        match index {
            Some(index) => if index < self.menu_items@.len() {
                match self.menu_items@[index as int] {
                    PopupMenuItem::Item { command, .. } => Some(command),
                    _ => None,
                }
            } else {
                None
            },
            None => None,
        }
    }

    /// The entry that follows `selected` in a menu of `count` entries that
    /// can be chosen: the first where nothing is selected or the selection
    /// stands on entry `count - 1`, else the next.
    pub open spec fn next_index(selected: Option<usize>, count: nat) -> int {
        match selected {
            Some(index) => if index == count - 1 {
                0
            } else {
                index + 1
            },
            None => 0,
        }
    }

    /// The entry that `selected` is moved back to in a menu of `count`
    /// entries that can be chosen: entry `count - 1` where nothing is
    /// selected, the first where the selection stands on entry `count - 1`,
    /// else the one before.
    pub open spec fn prev_index(selected: Option<usize>, count: nat) -> int {
        match selected {
            Some(index) => if index == count - 1 {
                0
            } else {
                index - 1
            },
            None => count - 1,
        }
    }

    /// The indexes of the entries that can be chosen, from top to bottom.
    pub fn clickable_menu_items(&self) -> (indexes: Vec<usize>)
        ensures
            indexes@ == clickable_indexes(self.menu_items@, self.menu_items@.len() as int),
            indexes@.len() == self.clickable_count(),
    {
        let mut indexes: Vec<usize> = Vec::new();
        let mut i: usize = 0;
        while i < self.menu_items.len()
            invariant
                i <= self.menu_items@.len(),
                indexes@ == clickable_indexes(self.menu_items@, i as int),
            decreases self.menu_items@.len() - i,
        {
            if self.menu_items[i].is_clickable() {
                indexes.push(i);
            }
            i = i + 1;
        }
        indexes
    }

    /// Whether any entry that runs a command shows an icon. Such a menu
    /// keeps room for an icon in front of every entry.
    pub fn has_icon(&self) -> (yes: bool)
        ensures
            yes == exists|i: int|
                0 <= i < self.menu_items@.len() && (#[trigger] self.menu_items@[i]).spec_has_icon(),
    {
        let mut i: usize = 0;
        while i < self.menu_items.len()
            invariant
                i <= self.menu_items@.len(),
                forall|j: int| 0 <= j < i ==> !(#[trigger] self.menu_items@[j]).spec_has_icon(),
            decreases self.menu_items@.len() - i,
        {
            if self.menu_items[i].has_icon() {
                return true;
            }
            i = i + 1;
        }
        false
    }

    /// Confirms the selection: the command that the front end is to run
    /// before it dismisses the menu. There is none where nothing is
    /// selected, or the selection stands on no entry or on one that runs no
    /// command; the menu then stays.
    pub fn confirm(&self) -> (command: Option<MenuCommand>)
        ensures
            command == self.command_at(self.selected_index),
    {
        match self.selected_index {
            Some(index) => {
                if index < self.menu_items.len() {
                    match &self.menu_items[index] {
                        PopupMenuItem::Item { command, .. } => Some(command.clone()),
                        _ => None,
                    }
                } else {
                    None
                }
            },
            None => None,
        }
    }

    /// A click on entry `ix`: selects the entry and confirms the selection.
    pub fn on_click(&mut self, ix: usize) -> (command: Option<MenuCommand>)
        ensures
            *final(self) == (PopupMenu { selected_index: Some(ix), ..*old(self) }),
            command == old(self).command_at(Some(ix)),
    {
        self.selected_index = Some(ix);
        self.confirm()
    }

    /// Moves the selection on. A menu without an entry that can be chosen
    /// stays as it is; else the selection goes to `next_index`. Returns
    /// whether the menu is to be drawn again.
    pub fn select_next(&mut self) -> (changed: bool)
        requires
            old(self).clickable_count() > 0 ==> old(self).selected_index != Some(usize::MAX),
        ensures
            changed == (old(self).clickable_count() > 0),
            changed ==> *final(self) == (PopupMenu {
                selected_index: Some(
                    Self::next_index(old(self).selected_index, old(self).clickable_count()) as usize,
                ),
                ..*old(self)
            }),
            !changed ==> *final(self) == *old(self),
    {
        let count: usize = self.clickable_menu_items().len();
        if count > 0 {
            let ix: usize = match self.selected_index {
                Some(index) => if index == count - 1 {
                    0
                } else {
                    index + 1
                },
                None => 0,
            };
            self.selected_index = Some(ix);
            true
        } else {
            false
        }
    }

    /// Moves the selection back. A menu without an entry that can be chosen
    /// stays as it is; else the selection goes to `prev_index`. Returns
    /// whether the menu is to be drawn again.
    ///
    /// There is nothing before the first entry: with the selection on it,
    /// the menu must have no more than one entry that can be chosen.
    pub fn select_prev(&mut self) -> (changed: bool)
        requires
            old(self).selected_index == Some(0usize) ==> old(self).clickable_count() <= 1,
        ensures
            changed == (old(self).clickable_count() > 0),
            changed ==> *final(self) == (PopupMenu {
                selected_index: Some(
                    Self::prev_index(old(self).selected_index, old(self).clickable_count()) as usize,
                ),
                ..*old(self)
            }),
            !changed ==> *final(self) == *old(self),
    {
        let count: usize = self.clickable_menu_items().len();
        if count > 0 {
            let ix: usize = match self.selected_index {
                Some(index) => if index == count - 1 {
                    0
                } else {
                    index - 1
                },
                None => count - 1,
            };
            self.selected_index = Some(ix);
            true
        } else {
            false
        }
    }
}

} // verus!
