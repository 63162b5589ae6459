use ui::dock::layout::Pixels;
use ui::popup_menu::{
    Icon, MenuCommand, PopupMenu, PopupMenuItem, DEFAULT_MAX_WIDTH, DEFAULT_MIN_WIDTH,
};

fn text(s: &str) -> String {
    s.to_string()
}

fn dispatch(action: &str) -> MenuCommand {
    MenuCommand::Dispatch { action: text(action) }
}

/// Copy, separator, Paste, separator, link.
fn sample() -> PopupMenu {
    PopupMenu::new()
        .menu(text("Copy"), text("edit::Copy"))
        .separator()
        .menu(text("Paste"), text("edit::Paste"))
        .separator()
        .link(text("Help"), text("https://example.org/help"))
}

#[test]
fn fresh_menu() {
    let menu = PopupMenu::new();
    assert!(menu.menu_items.is_empty());
    assert_eq!(menu.selected_index, None);
    assert_eq!(menu.min_width, Pixels { bits: DEFAULT_MIN_WIDTH });
    assert_eq!(menu.max_width, Pixels { bits: DEFAULT_MAX_WIDTH });
    assert_eq!(f32::from_bits(menu.min_width.bits), 120.0);
    assert_eq!(f32::from_bits(menu.max_width.bits), 500.0);
    assert!(!menu.has_icon());
    assert_eq!(menu.confirm(), None);
}

#[test]
fn widths_are_set() {
    let menu = PopupMenu::new().min_w(Pixels { bits: 1 }).max_w(Pixels { bits: 2 });
    assert_eq!(menu.min_width, Pixels { bits: 1 });
    assert_eq!(menu.max_width, Pixels { bits: 2 });
    assert!(menu.menu_items.is_empty());
}

#[test]
fn builders_add_entries_in_order() {
    let menu = PopupMenu::new()
        .menu(text("Copy"), text("edit::Copy"))
        .link(text("Help"), text("https://example.org"))
        .link_with_icon(text("Site"), Icon::Named(text("globe")), text("https://example.org"))
        .menu_with_icon(text("Find"), Icon::Named(text("search")), text("edit::Find"))
        .menu_with_check(text("Wrap"), true, text("view::Wrap"))
        .menu_with_check(text("Ruler"), false, text("view::Ruler"))
        .separator();
    assert_eq!(menu.menu_items.len(), 7);
    assert_eq!(
        menu.menu_items[0],
        PopupMenuItem::Item { icon: None, label: text("Copy"), command: dispatch("edit::Copy") }
    );
    assert_eq!(
        menu.menu_items[1],
        PopupMenuItem::Item {
            icon: None,
            label: text("Help"),
            command: MenuCommand::OpenUrl { href: text("https://example.org") },
        }
    );
    assert_eq!(
        menu.menu_items[2],
        PopupMenuItem::Item {
            icon: Some(Icon::Named(text("globe"))),
            label: text("Site"),
            command: MenuCommand::OpenUrl { href: text("https://example.org") },
        }
    );
    assert_eq!(
        menu.menu_items[3],
        PopupMenuItem::Item {
            icon: Some(Icon::Named(text("search"))),
            label: text("Find"),
            command: dispatch("edit::Find"),
        }
    );
    assert_eq!(
        menu.menu_items[4],
        PopupMenuItem::Item {
            icon: Some(Icon::Check),
            label: text("Wrap"),
            command: dispatch("view::Wrap"),
        }
    );
    assert_eq!(
        menu.menu_items[5],
        PopupMenuItem::Item { icon: None, label: text("Ruler"), command: dispatch("view::Ruler") }
    );
    assert_eq!(menu.menu_items[6], PopupMenuItem::Separator);
    assert_eq!(menu.selected_index, None);
}

#[test]
fn build_fills_a_fresh_menu() {
    let menu = PopupMenu::build(|menu: PopupMenu| menu.separator().separator());
    assert_eq!(menu.menu_items, vec![PopupMenuItem::Separator, PopupMenuItem::Separator]);
    assert_eq!(menu.min_width, Pixels { bits: DEFAULT_MIN_WIDTH });
}

#[test]
fn sub_menus() {
    let menu = sample()
        .sub_menu(text("More"), |menu: PopupMenu| menu.menu(text("Deep"), text("x::Deep")))
        .sub_menu_with_icon(Some(Icon::Check), text("Most"), |menu: PopupMenu| menu);
    assert_eq!(menu.menu_items.len(), 7);
    assert_eq!(
        menu.menu_items[5],
        PopupMenuItem::SubMenu {
            icon: None,
            label: text("More"),
            menu: PopupMenu::new().menu(text("Deep"), text("x::Deep")),
        }
    );
    assert_eq!(
        menu.menu_items[6],
        PopupMenuItem::SubMenu { icon: Some(Icon::Check), label: text("Most"), menu: PopupMenu::new() }
    );
}

#[test]
fn separators_cannot_be_chosen() {
    assert!(!PopupMenuItem::Separator.is_clickable());
    let menu = sample().sub_menu(text("More"), |menu: PopupMenu| menu);
    assert!(menu.menu_items[0].is_clickable());
    assert!(!menu.menu_items[1].is_clickable());
    assert!(menu.menu_items[5].is_clickable());
    assert_eq!(menu.clickable_menu_items(), vec![0, 2, 4, 5]);
    assert_eq!(PopupMenu::new().clickable_menu_items(), Vec::<usize>::new());
    assert_eq!(PopupMenu::new().separator().clickable_menu_items(), Vec::<usize>::new());
}

#[test]
fn icons_are_seen_on_command_entries_only() {
    assert!(!sample().has_icon());
    assert!(sample().menu_with_check(text("Wrap"), true, text("view::Wrap")).has_icon());
    assert!(!sample().menu_with_check(text("Wrap"), false, text("view::Wrap")).has_icon());
    assert!(sample().link_with_icon(text("Site"), Icon::Check, text("u")).has_icon());
    let with_sub = sample().sub_menu_with_icon(Some(Icon::Check), text("More"), |m: PopupMenu| m);
    assert!(!with_sub.has_icon());
    assert!(!with_sub.menu_items[5].has_icon());
    assert!(!PopupMenuItem::Separator.has_icon());
}

#[test]
fn select_next_walks_and_wraps() {
    // Three entries can be chosen.
    let mut menu = sample();
    assert!(menu.select_next());
    assert_eq!(menu.selected_index, Some(0));
    assert!(menu.select_next());
    assert_eq!(menu.selected_index, Some(1));
    assert!(menu.select_next());
    assert_eq!(menu.selected_index, Some(2));
    assert!(menu.select_next());
    assert_eq!(menu.selected_index, Some(0));
    assert_eq!(menu.menu_items.len(), 5);
}

#[test]
fn select_next_from_a_clicked_entry() {
    let mut menu = sample();
    menu.on_click(4);
    assert!(menu.select_next());
    assert_eq!(menu.selected_index, Some(5));
}

#[test]
fn select_prev_walks_back() {
    let mut menu = sample();
    assert!(menu.select_prev());
    assert_eq!(menu.selected_index, Some(2));
    assert!(menu.select_prev());
    assert_eq!(menu.selected_index, Some(0));
    let mut menu = sample();
    menu.on_click(4);
    assert!(menu.select_prev());
    assert_eq!(menu.selected_index, Some(3));
    assert!(menu.select_prev());
    assert_eq!(menu.selected_index, Some(2));
    assert!(menu.select_prev());
    assert_eq!(menu.selected_index, Some(0));
}

#[test]
fn selection_in_a_menu_of_one() {
    let mut menu = PopupMenu::new().menu(text("Only"), text("x::Only"));
    assert!(menu.select_prev());
    assert_eq!(menu.selected_index, Some(0));
    assert!(menu.select_prev());
    assert_eq!(menu.selected_index, Some(0));
    assert!(menu.select_next());
    assert_eq!(menu.selected_index, Some(0));
}

#[test]
fn selection_stays_where_nothing_can_be_chosen() {
    let mut menu = PopupMenu::new();
    assert!(!menu.select_next());
    assert!(!menu.select_prev());
    assert_eq!(menu.selected_index, None);
    let mut menu = PopupMenu::new().separator();
    menu.on_click(0);
    assert!(!menu.select_next());
    assert!(!menu.select_prev());
    assert_eq!(menu.selected_index, Some(0));
}

#[test]
fn confirm_gives_the_command_of_the_selection() {
    let mut menu = sample();
    assert_eq!(menu.confirm(), None);
    menu.select_next();
    assert_eq!(menu.confirm(), Some(dispatch("edit::Copy")));
    menu.select_next();
    // The selection stands on the separator.
    assert_eq!(menu.confirm(), None);
    menu.select_next();
    assert_eq!(menu.confirm(), Some(dispatch("edit::Paste")));
}

#[test]
fn click_selects_and_confirms() {
    let mut menu = sample().sub_menu(text("More"), |menu: PopupMenu| menu);
    assert_eq!(
        menu.on_click(4),
        Some(MenuCommand::OpenUrl { href: text("https://example.org/help") })
    );
    assert_eq!(menu.selected_index, Some(4));
    assert_eq!(menu.on_click(1), None);
    assert_eq!(menu.selected_index, Some(1));
    assert_eq!(menu.on_click(5), None);
    assert_eq!(menu.selected_index, Some(5));
    assert_eq!(menu.on_click(6), None);
    assert_eq!(menu.selected_index, Some(6));
    assert_eq!(menu.on_click(0), Some(dispatch("edit::Copy")));
    assert_eq!(menu.menu_items.len(), 6);
}

#[test]
fn commands_are_cloned_whole() {
    let command = MenuCommand::OpenUrl { href: text("u") };
    assert_eq!(command.clone(), command);
    assert_eq!(dispatch("a").clone(), dispatch("a"));
    assert_ne!(dispatch("a"), dispatch("b"));
}
