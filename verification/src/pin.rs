//! The state that the window and the menu's indicator share.
//!
//! The host asks [`PinState::requested`] which flag a command wants, sets the
//! flag on the window, and tells [`PinState::settle`] whether the window took
//! it. The indicator follows the window, never the wish.

use crate::command::{
    lemma_menu_ids_distinct, lemma_set_items_go_by_id, spec_command_for_menu_id, Command, Style,
};
use vstd::prelude::*;

verus! {

/// The window's "always on top" flag, and what the menu shows of it.
#[derive(Clone, Copy, Debug, PartialEq, Eq, Structural)]
pub struct PinState {
    /// Whether the window stays above the others.
    pub window_on_top: bool,
    /// Whether the menu is to show the feature as switched on.
    pub indicator_on: bool,
}

impl PinState {
    /// The menu shows what the window does.
    pub open spec fn in_sync(self) -> bool {
        self.window_on_top == self.indicator_on
    }

    /// The state after `command`, which the window took or refused.
    pub open spec fn spec_settle(self, command: Command, applied: bool) -> PinState {
        if applied {
            PinState {
                window_on_top: command.spec_target(self.window_on_top),
                indicator_on: command.spec_target(self.window_on_top),
            }
        } else {
            self
        }
    }

    /// The state after a run of commands, the first of `outcomes` first; each
    /// comes with whether the window took it.
    pub open spec fn spec_replay(self, outcomes: Seq<(Command, bool)>) -> PinState
        decreases outcomes.len(),
    {
        if outcomes.len() == 0 {
            self
        } else {
            self.spec_replay(outcomes.drop_last()).spec_settle(
                outcomes.last().0,
                outcomes.last().1,
            )
        }
    }

    /// The state after a run of menu events in a menu of `style`, the first
    /// of `ids` first, where the window takes every command that is fired.
    pub open spec fn spec_replay_events(self, style: Style, ids: Seq<Seq<char>>) -> PinState
        decreases ids.len(),
    {
        if ids.len() == 0 {
            self
        } else {
            let before = self.spec_replay_events(style, ids.drop_last());
            match spec_command_for_menu_id(style, ids.last()) {
                Some(command) => before.spec_settle(command, true),
                None => before,
            }
        }
    }

    /// The state of a window whose flag is `on_top`, with the menu in step.
    pub fn new(on_top: bool) -> (state: PinState)
        ensures
            state.window_on_top == on_top,
            state.indicator_on == on_top,
            state.in_sync(),
    {
        PinState { window_on_top: on_top, indicator_on: on_top }
    }

    /// Whether the menu shows what the window does.
    pub fn is_in_sync(&self) -> (sync: bool)
        ensures
            sync == self.in_sync(),
    {
        self.window_on_top == self.indicator_on
    }

    /// The flag to set on the window for `command`.
    pub fn requested(&self, command: Command) -> (flag: bool)
        ensures
            flag == command.spec_target(self.window_on_top),
    {
        command.target(self.window_on_top)
    }

    /// Records how `command` ended.
    ///
    /// Where the window took the flag, window and indicator both hold it and
    /// nothing is reported. Where it refused, the state stays as it was and
    /// the notice to report is returned.
    pub fn settle(&mut self, command: Command, applied: bool) -> (notice: Option<&'static str>)
        ensures
            *final(self) == old(self).spec_settle(command, applied),
            applied ==> final(self).in_sync(),
            old(self).in_sync() ==> final(self).in_sync(),
            applied == (notice is None),
            notice matches Some(text) ==> text@ == command.spec_failure_notice(),
    {
        if applied {
            let flag = command.target(self.window_on_top);
            self.window_on_top = flag;
            self.indicator_on = flag;
            None
        } else {
            Some(command.failure_notice())
        }
    }
}

/// A command that the window took leaves window and indicator on the flag
/// that the command asked for, whatever they held before.
pub proof fn lemma_applied_command_syncs(state: PinState, command: Command)
    ensures
        state.spec_settle(command, true).in_sync(),
        state.spec_settle(command, true).window_on_top == command.spec_target(
            state.window_on_top,
        ),
{
}

/// Window and indicator that agree still agree after any command, taken or
/// refused.
pub proof fn lemma_settle_keeps_sync(state: PinState, command: Command, applied: bool)
    requires
        state.in_sync(),
    ensures
        state.spec_settle(command, applied).in_sync(),
{
}

/// Window and indicator that agree still agree after any run of commands.
pub proof fn lemma_replay_keeps_sync(state: PinState, outcomes: Seq<(Command, bool)>)
    requires
        state.in_sync(),
    ensures
        state.spec_replay(outcomes).in_sync(),
    decreases outcomes.len(),
{
    if outcomes.len() > 0 {
        lemma_replay_keeps_sync(state, outcomes.drop_last());
    }
}

/// Two toggles that the window took restore the state; enabling or
/// disabling a second time changes nothing.
pub proof fn lemma_repeated_commands(state: PinState)
    requires
        state.in_sync(),
    ensures
        state.spec_settle(Command::Toggle, true).spec_settle(Command::Toggle, true) == state,
        state.spec_settle(Command::Enable, true).spec_settle(Command::Enable, true)
            == state.spec_settle(Command::Enable, true),
        state.spec_settle(Command::Disable, true).spec_settle(Command::Disable, true)
            == state.spec_settle(Command::Disable, true),
{
}

/// With one item to enable and one to disable, the last event of a run
/// decides alone where it carries one of the two identifiers: window and
/// indicator are on after the enable item and off after the disable item,
/// whatever came before. An event with any other identifier changes nothing.
pub proof fn lemma_last_set_event_decides(state: PinState, ids: Seq<Seq<char>>)
    requires
        ids.len() > 0,
    ensures
        ids.last() == Command::Enable.spec_menu_id() ==> state.spec_replay_events(
            Style::SetItems,
            ids,
        ) == (PinState { window_on_top: true, indicator_on: true }),
        ids.last() == Command::Disable.spec_menu_id() ==> state.spec_replay_events(
            Style::SetItems,
            ids,
        ) == (PinState { window_on_top: false, indicator_on: false }),
        ids.last() != Command::Enable.spec_menu_id() && ids.last()
            != Command::Disable.spec_menu_id() ==> state.spec_replay_events(Style::SetItems, ids)
            == state.spec_replay_events(Style::SetItems, ids.drop_last()),
{
    lemma_menu_ids_distinct(Command::Enable, Command::Disable);
    lemma_set_items_go_by_id(ids.last(), true, false);
}

/// With one item to enable and one to disable, a run that holds an event of
/// either item ends in the same state from every start: the flag that the
/// window had has no part in the outcome.
pub proof fn lemma_set_items_forget_the_start(a: PinState, b: PinState, ids: Seq<Seq<char>>)
    requires
        exists|k: int|
            0 <= k < ids.len() && spec_command_for_menu_id(Style::SetItems, #[trigger] ids[k])
                is Some,
    ensures
        a.spec_replay_events(Style::SetItems, ids) == b.spec_replay_events(Style::SetItems, ids),
    decreases ids.len(),
{
    let k = choose|k: int|
        0 <= k < ids.len() && spec_command_for_menu_id(Style::SetItems, #[trigger] ids[k]) is Some;
    lemma_set_items_go_by_id(ids.last(), a.window_on_top, b.window_on_top);
    lemma_last_set_event_decides(a, ids);
    lemma_last_set_event_decides(b, ids);
    if spec_command_for_menu_id(Style::SetItems, ids.last()) is None {
        assert(k < ids.len() - 1);
        assert(ids.drop_last()[k] == ids[k]);
        lemma_set_items_forget_the_start(a, b, ids.drop_last());
    }
}

/// A run of menu events leaves window and indicator in agreement where they
/// agreed before, in a menu of either style.
pub proof fn lemma_events_keep_sync(state: PinState, style: Style, ids: Seq<Seq<char>>)
    requires
        state.in_sync(),
    ensures
        state.spec_replay_events(style, ids).in_sync(),
    decreases ids.len(),
{
    if ids.len() > 0 {
        lemma_events_keep_sync(state, style, ids.drop_last());
    }
}

} // verus!
