use always_on_top::command::{command_for_menu_id, Command, Style};
use always_on_top::menu::{built_sections, menu_bar, Entry, Section};

#[test]
fn bar_on_macos_has_app_then_view() {
    assert_eq!(menu_bar(true), vec![Section::App, Section::View]);
}

#[test]
fn bar_elsewhere_has_view_only() {
    assert_eq!(menu_bar(false), vec![Section::View]);
}

#[test]
fn section_titles() {
    assert_eq!(Section::App.title(), "App");
    assert_eq!(Section::View.title(), "View");
}

#[test]
fn app_section_lists_the_platform_items() {
    let expected = vec![
        Entry::About,
        Entry::Separator,
        Entry::Services,
        Entry::Separator,
        Entry::Hide,
        Entry::HideOthers,
        Entry::Quit,
    ];
    assert_eq!(Section::App.entries(Style::SetItems, true), expected);
    assert_eq!(Section::App.entries(Style::SetItems, false), expected);
    assert_eq!(Section::App.entries(Style::ToggleItem, true), expected);
}

#[test]
fn view_section_with_set_items() {
    assert_eq!(
        Section::View.entries(Style::SetItems, false),
        vec![Entry::Action(Command::Enable), Entry::Action(Command::Disable)]
    );
    assert_eq!(
        Section::View.entries(Style::SetItems, true),
        vec![
            Entry::Action(Command::Enable),
            Entry::Action(Command::Disable),
            Entry::Separator
        ]
    );
}

#[test]
fn view_section_with_toggle_item() {
    assert_eq!(
        Section::View.entries(Style::ToggleItem, false),
        vec![Entry::Action(Command::Toggle)]
    );
    assert_eq!(
        Section::View.entries(Style::ToggleItem, true),
        vec![Entry::Action(Command::Toggle), Entry::Separator]
    );
}

#[test]
fn every_action_of_the_menu_is_found_by_its_id() {
    for macos in [false, true] {
        for style in [Style::SetItems, Style::ToggleItem] {
            for section in menu_bar(macos) {
                for entry in section.entries(style, macos) {
                    if let Entry::Action(command) = entry {
                        assert_eq!(command_for_menu_id(style, command.menu_id()), Some(command));
                    }
                }
            }
        }
    }
}

#[test]
fn both_sections_are_built_everywhere() {
    assert_eq!(built_sections(), vec![Section::App, Section::View]);
}

#[test]
fn on_bar_matches_the_bar() {
    for macos in [false, true] {
        for section in [Section::App, Section::View] {
            assert_eq!(section.on_bar(macos), menu_bar(macos).contains(&section));
        }
    }
    assert!(!Section::App.on_bar(false));
    assert!(Section::App.on_bar(true));
    assert!(Section::View.on_bar(false));
    assert!(Section::View.on_bar(true));
}

#[test]
fn bar_is_the_built_sections_it_holds() {
    for macos in [false, true] {
        let kept: Vec<Section> = built_sections()
            .into_iter()
            .filter(|section| section.on_bar(macos))
            .collect();
        assert_eq!(kept, menu_bar(macos));
    }
}
