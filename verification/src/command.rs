//! The commands of the "always on top" feature, and how a menu names them.

use crate::text::same_text;
use vstd::prelude::*;
use vstd::string::StringExecFns;

verus! {

/// What the user can ask of the main window.
#[derive(Clone, Copy, Debug, PartialEq, Eq, Structural)]
pub enum Command {
    /// Keep the window above the others.
    Enable,
    /// Let the window be covered again.
    Disable,
    /// Switch to the state the window is not in.
    Toggle,
}

impl Command {
    /// The identifier of the menu item that fires this command.
    pub open spec fn spec_menu_id(self) -> Seq<char> {
        match self {
            Command::Enable => "enable-always-on-top"@,
            Command::Disable => "disable-always-on-top"@,
            Command::Toggle => "toggle-always-on-top"@,
        }
    }

    /// The text that the menu item shows.
    pub open spec fn spec_label(self) -> Seq<char> {
        match self {
            Command::Enable => "Enable Always On Top"@,
            Command::Disable => "Disable Always On Top"@,
            Command::Toggle => "Always On Top"@,
        }
    }

    /// The key combination bound to this command.
    pub open spec fn spec_accelerator(self) -> Seq<char> {
        match self {
            Command::Enable => "CmdOrControl+,"@,
            Command::Disable => "CmdOrControl+."@,
            Command::Toggle => "CmdOrControl+T"@,
        }
    }

    /// What is reported when the window refuses this command; the host's
    /// own error text follows it.
    pub open spec fn spec_failure_notice(self) -> Seq<char> {
        match self {
            Command::Enable => "Failed to enable always on top"@,
            Command::Disable => "Failed to disable always on top"@,
            Command::Toggle => "Failed to toggle always on top"@,
        }
    }

    /// The "always on top" flag that this command asks for, on a window
    /// whose flag is `current`.
    pub open spec fn spec_target(self, current: bool) -> bool {
        match self {
            Command::Enable => true,
            Command::Disable => false,
            Command::Toggle => !current,
        }
    }

    /// The identifier to give this command's menu item.
    pub fn menu_id(self) -> (id: &'static str)
        ensures
            id@ == self.spec_menu_id(),
    {
        match self {
            Command::Enable => "enable-always-on-top",
            Command::Disable => "disable-always-on-top",
            Command::Toggle => "toggle-always-on-top",
        }
    }

    /// The text to show on this command's menu item.
    pub fn label(self) -> (label: &'static str)
        ensures
            label@ == self.spec_label(),
    {
        match self {
            Command::Enable => "Enable Always On Top",
            Command::Disable => "Disable Always On Top",
            Command::Toggle => "Always On Top",
        }
    }

    /// The key combination to bind to this command.
    pub fn accelerator(self) -> (keys: &'static str)
        ensures
            keys@ == self.spec_accelerator(),
    {
        match self {
            Command::Enable => "CmdOrControl+,",
            Command::Disable => "CmdOrControl+.",
            Command::Toggle => "CmdOrControl+T",
        }
    }

    /// The notice for a window that refused this command.
    pub fn failure_notice(self) -> (notice: &'static str)
        ensures
            notice@ == self.spec_failure_notice(),
    {
        match self {
            Command::Enable => "Failed to enable always on top",
            Command::Disable => "Failed to disable always on top",
            Command::Toggle => "Failed to toggle always on top",
        }
    }

    /// The flag to set on a window whose flag is `current`.
    pub fn target(self, current: bool) -> (flag: bool)
        ensures
            flag == self.spec_target(current),
    {
        match self {
            Command::Enable => true,
            Command::Disable => false,
            Command::Toggle => !current,
        }
    }
}

/// How the View submenu offers the feature.
#[derive(Clone, Copy, Debug, PartialEq, Eq, Structural)]
pub enum Style {
    /// One item to enable and one to disable.
    SetItems,
    /// A single item that toggles.
    ToggleItem,
}

impl Style {
    /// The commands that the View submenu offers, in menu order.
    pub open spec fn spec_commands(self) -> Seq<Command> {
        match self {
            Style::SetItems => seq![Command::Enable, Command::Disable],
            Style::ToggleItem => seq![Command::Toggle],
        }
    }

    /// The commands to offer in the View submenu, in menu order.
    pub fn commands(self) -> (commands: Vec<Command>)
        ensures
            commands@ == self.spec_commands(),
    {
        match self {
            Style::SetItems => vec![Command::Enable, Command::Disable],
            Style::ToggleItem => vec![Command::Toggle],
        }
    }
}

/// The label of the window that the commands act on.
pub open spec fn spec_main_window() -> Seq<char> {
    "main"@
}

/// The label under which the host knows the main window.
pub fn main_window() -> (label: &'static str)
    ensures
        label@ == spec_main_window(),
{
    "main"
}

/// The command that a menu event with this identifier fires, in a menu of
/// this style: the command of the style whose item carries the identifier.
/// Identifiers of other items, the items of the other style among them, fire
/// nothing.
pub open spec fn spec_command_for_menu_id(style: Style, id: Seq<char>) -> Option<Command> {
    match style {
        Style::SetItems => {
            if id == Command::Enable.spec_menu_id() {
                Some(Command::Enable)
            } else if id == Command::Disable.spec_menu_id() {
                Some(Command::Disable)
            } else {
                None
            }
        },
        Style::ToggleItem => {
            if id == Command::Toggle.spec_menu_id() {
                Some(Command::Toggle)
            } else {
                None
            }
        },
    }
}

/// No two commands share a menu identifier.
pub proof fn lemma_menu_ids_distinct(a: Command, b: Command)
    ensures
        a.spec_menu_id() == b.spec_menu_id() <==> a == b,
{
    reveal_strlit("enable-always-on-top");
    reveal_strlit("disable-always-on-top");
    reveal_strlit("toggle-always-on-top");
    assert("enable-always-on-top"@.len() == 20);
    assert("disable-always-on-top"@.len() == 21);
    assert("toggle-always-on-top"@.len() == 20);
    assert("enable-always-on-top"@[0] == 'e');
    assert("toggle-always-on-top"@[0] == 't');
}

/// No two commands share a key combination.
pub proof fn lemma_accelerators_distinct(a: Command, b: Command)
    ensures
        a.spec_accelerator() == b.spec_accelerator() <==> a == b,
{
    reveal_strlit("CmdOrControl+,");
    reveal_strlit("CmdOrControl+.");
    reveal_strlit("CmdOrControl+T");
    assert("CmdOrControl+,"@[13] == ',');
    assert("CmdOrControl+."@[13] == '.');
    assert("CmdOrControl+T"@[13] == 'T');
}

/// The commands of a style are these and no others.
pub proof fn lemma_style_commands(style: Style, c: Command)
    ensures
        Style::SetItems.spec_commands().contains(c) <==> c != Command::Toggle,
        Style::ToggleItem.spec_commands().contains(c) <==> c == Command::Toggle,
{
    let set = Style::SetItems.spec_commands();
    let toggle = Style::ToggleItem.spec_commands();
    assert(set[0] == Command::Enable);
    assert(set[1] == Command::Disable);
    assert(toggle[0] == Command::Toggle);
}

/// An identifier fires a command exactly when the style offers the command
/// and the identifier is the command's own; in particular every command that
/// a style offers is found again by the identifier of its item.
pub proof fn lemma_menu_id_round_trip(style: Style, id: Seq<char>, c: Command)
    ensures
        spec_command_for_menu_id(style, id) == Some(c) <==> (style.spec_commands().contains(c)
            && id == c.spec_menu_id()),
        style.spec_commands().contains(c) ==> spec_command_for_menu_id(style, c.spec_menu_id())
            == Some(c),
{
    lemma_style_commands(style, c);
    lemma_menu_ids_distinct(c, Command::Enable);
    lemma_menu_ids_distinct(c, Command::Disable);
    lemma_menu_ids_distinct(c, Command::Toggle);
    lemma_menu_ids_distinct(Command::Enable, Command::Disable);
}

/// With one item to enable and one to disable, an event fires a command
/// only by one of these two identifiers, never a toggle, and the flag that
/// the command asks for goes by the identifier alone: the window's current
/// flag has no part in it.
pub proof fn lemma_set_items_go_by_id(id: Seq<char>, current: bool, other: bool)
    ensures
        spec_command_for_menu_id(Style::SetItems, id) is Some <==> (id
            == Command::Enable.spec_menu_id() || id == Command::Disable.spec_menu_id()),
        spec_command_for_menu_id(Style::SetItems, id) != Some(Command::Toggle),
        spec_command_for_menu_id(Style::SetItems, id) matches Some(c) ==> c.spec_target(current)
            == c.spec_target(other) && c.spec_target(current) == (id
            == Command::Enable.spec_menu_id()),
{
    lemma_menu_ids_distinct(Command::Enable, Command::Disable);
}

/// Resolves the identifier that a menu event carries, in a menu of `style`.
///
/// Returns the command of `style` whose menu item has this identifier, and
/// `None` for every other identifier: events of items that the menu does not
/// hold, or that fire no command, change nothing.
pub fn command_for_menu_id(style: Style, id: &str) -> (found: Option<Command>)
    ensures
        found == spec_command_for_menu_id(style, id@),
        forall|c: Command|
            found == Some(c) <==> (style.spec_commands().contains(c) && id@ == c.spec_menu_id()),
{
    proof {
        assert forall|c: Command|
            spec_command_for_menu_id(style, id@) == Some(c) <==> (style.spec_commands().contains(c)
                && id@ == c.spec_menu_id()) by {
            lemma_menu_id_round_trip(style, id@, c);
        }
    }
    let commands = style.commands();
    let mut i: usize = 0;
    while i < commands.len()
        invariant
            i <= commands@.len(),
            commands@ == style.spec_commands(),
            forall|k: int| 0 <= k < i ==> id@ != commands@[k].spec_menu_id(),
            forall|c: Command|
                spec_command_for_menu_id(style, id@) == Some(c) <==> (
                style.spec_commands().contains(c) && id@ == c.spec_menu_id()),
        decreases commands@.len() - i,
    {
        let command = commands[i];
        if same_text(id, command.menu_id()) {
            assert(style.spec_commands().contains(command));
            return Some(command);
        }
        i += 1;
    }
    assert(spec_command_for_menu_id(style, id@) is None) by {
        if spec_command_for_menu_id(style, id@) is Some {
            let c = spec_command_for_menu_id(style, id@).unwrap();
            let k = choose|k: int| 0 <= k < commands@.len() && commands@[k] == c;
            assert(id@ != commands@[k].spec_menu_id());
        }
    }
    None
}

/// The line to log when the window refuses `command`: the command's notice,
/// a colon and a space, then the host's own error text.
pub open spec fn spec_failure_line(command: Command, error: Seq<char>) -> Seq<char> {
    command.spec_failure_notice() + ": "@ + error
}

/// Builds the line to log when the window refuses `command` with `error`.
pub fn failure_line(command: Command, error: &str) -> (line: String)
    ensures
        line@ == spec_failure_line(command, error@),
{
    let mut line = String::from_str(command.failure_notice());
    line.append(": ");
    line.append(error);
    line
}

/// What is logged when an event fires a command and the host knows no main
/// window.
pub open spec fn spec_missing_window_notice() -> Seq<char> {
    "Failed to find the main window"@
}

/// The notice for an event that found no main window to act on.
pub fn missing_window_notice() -> (notice: &'static str)
    ensures
        notice@ == spec_missing_window_notice(),
{
    "Failed to find the main window"
}

/// Setting the flag twice is setting it once; toggling twice restores it.
pub proof fn lemma_target_laws(current: bool)
    ensures
        Command::Enable.spec_target(Command::Enable.spec_target(current)),
        !Command::Disable.spec_target(Command::Disable.spec_target(current)),
        Command::Toggle.spec_target(Command::Toggle.spec_target(current)) == current,
        Command::Toggle.spec_target(current) != current,
{
}

} // verus!
