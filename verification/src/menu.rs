//! The application menu, as the tree that the host builds natively.
//!
//! macOS expects an application submenu in front; elsewhere the bar holds
//! the View submenu alone.

use crate::command::{Command, Style};
use vstd::prelude::*;

verus! {

/// One line of a submenu.
#[derive(Clone, Copy, Debug, PartialEq, Eq, Structural)]
pub enum Entry {
    /// The platform's "About" item.
    About,
    /// A dividing line.
    Separator,
    /// The platform's "Services" item.
    Services,
    /// The platform's "Hide" item.
    Hide,
    /// The platform's "Hide Others" item.
    HideOthers,
    /// The platform's "Quit" item.
    Quit,
    /// An item of the application's own, which fires a command.
    Action(Command),
}

/// A submenu of the bar.
#[derive(Clone, Copy, Debug, PartialEq, Eq, Structural)]
pub enum Section {
    /// The application submenu that macOS expects.
    App,
    /// The submenu that offers the feature.
    View,
}

impl Section {
    /// The submenu's title.
    pub open spec fn spec_title(self) -> Seq<char> {
        match self {
            Section::App => "App"@,
            Section::View => "View"@,
        }
    }

    /// The submenu's lines, top to bottom. The application submenu is the
    /// same everywhere; the View submenu holds one item for each command of
    /// `style`, closed by a separator on macOS.
    pub open spec fn spec_entries(self, style: Style, macos: bool) -> Seq<Entry> {
        match self {
            Section::App => seq![
                Entry::About,
                Entry::Separator,
                Entry::Services,
                Entry::Separator,
                Entry::Hide,
                Entry::HideOthers,
                Entry::Quit,
            ],
            Section::View => {
                let items = style.spec_commands().map_values(|c: Command| Entry::Action(c));
                if macos {
                    items.push(Entry::Separator)
                } else {
                    items
                }
            },
        }
    }

    /// The title to give the submenu.
    pub fn title(self) -> (title: &'static str)
        ensures
            title@ == self.spec_title(),
    {
        match self {
            Section::App => "App",
            Section::View => "View",
        }
    }

    /// The lines to build the submenu from, top to bottom.
    pub fn entries(self, style: Style, macos: bool) -> (entries: Vec<Entry>)
        ensures
            entries@ == self.spec_entries(style, macos),
    {
        match self {
            Section::App => vec![
                Entry::About,
                Entry::Separator,
                Entry::Services,
                Entry::Separator,
                Entry::Hide,
                Entry::HideOthers,
                Entry::Quit,
            ],
            Section::View => {
                let commands = style.commands();
                let mut entries: Vec<Entry> = Vec::new();
                let mut i: usize = 0;
                while i < commands.len()
                    invariant
                        i <= commands@.len(),
                        entries@ == commands@.take(i as int).map_values(
                            |c: Command| Entry::Action(c),
                        ),
                    decreases commands@.len() - i,
                {
                    entries.push(Entry::Action(commands[i]));
                    assert(commands@.take(i + 1) == commands@.take(i as int).push(
                        commands@[i as int],
                    ));
                    i += 1;
                }
                assert(commands@.take(i as int) == commands@);
                if macos {
                    entries.push(Entry::Separator);
                }
                entries
            },
        }
    }

    /// Whether the bar of this platform holds the submenu.
    pub fn on_bar(self, macos: bool) -> (held: bool)
        ensures
            held == spec_menu_bar(macos).contains(self),
    {
        proof {
            lemma_bar_sections(macos);
        }
        match self {
            Section::App => macos,
            Section::View => true,
        }
    }
}

/// The submenus of the bar, left to right.
pub open spec fn spec_menu_bar(macos: bool) -> Seq<Section> {
    if macos {
        seq![Section::App, Section::View]
    } else {
        seq![Section::View]
    }
}

/// The submenus to put on the bar, left to right; `macos` says whether the
/// host runs on macOS.
pub fn menu_bar(macos: bool) -> (bar: Vec<Section>)
    ensures
        bar@ == spec_menu_bar(macos),
{
    if macos {
        vec![Section::App, Section::View]
    } else {
        vec![Section::View]
    }
}

/// The submenus that the host builds at startup, in order. Both are built on
/// every platform, so a submenu that cannot be built stops the startup
/// whether or not the bar would have held it.
pub open spec fn spec_built_sections() -> Seq<Section> {
    seq![Section::App, Section::View]
}

/// The submenus to build at startup, in order.
pub fn built_sections() -> (sections: Vec<Section>)
    ensures
        sections@ == spec_built_sections(),
{
    vec![Section::App, Section::View]
}

/// The bar is the run of built submenus that it holds, in building order.
pub proof fn lemma_bar_is_built(macos: bool)
    ensures
        spec_menu_bar(macos) == spec_built_sections().filter(
            |s: Section| spec_menu_bar(macos).contains(s),
        ),
{
    lemma_bar_sections(macos);
    let keep = |s: Section| spec_menu_bar(macos).contains(s);
    let built = spec_built_sections();
    reveal_with_fuel(Seq::filter, 3);
    assert(built.drop_last() == seq![Section::App]);
    assert(built.drop_last().drop_last() == Seq::<Section>::empty());
    assert(built.last() == Section::View);
    assert(built.drop_last().last() == Section::App);
    assert(spec_menu_bar(macos) =~= built.filter(keep));
}

/// The View submenu is on every platform's bar; the application submenu on
/// macOS only.
pub proof fn lemma_bar_sections(macos: bool)
    ensures
        spec_menu_bar(macos).contains(Section::View),
        spec_menu_bar(macos).contains(Section::App) <==> macos,
{
    let bar = spec_menu_bar(macos);
    if macos {
        assert(bar[0] == Section::App);
        assert(bar[1] == Section::View);
    } else {
        assert(bar[0] == Section::View);
    }
}

/// The View submenu offers each command of its style, in order, and
/// nothing else but the closing separator of macOS; the application submenu
/// fires no command.
pub proof fn lemma_view_offers_style(style: Style, macos: bool)
    ensures
        forall|i: int|
            0 <= i < style.spec_commands().len() ==> #[trigger] Section::View.spec_entries(
                style,
                macos,
            )[i] == Entry::Action(style.spec_commands()[i]),
        !macos ==> Section::View.spec_entries(style, macos).len() == style.spec_commands().len(),
        macos ==> Section::View.spec_entries(style, macos).len() == style.spec_commands().len()
            + 1,
        macos ==> Section::View.spec_entries(style, macos).last() == Entry::Separator,
        forall|i: int|
            0 <= i < Section::App.spec_entries(style, macos).len()
                ==> !(#[trigger] Section::App.spec_entries(style, macos)[i] is Action),
{
}

} // verus!
