//! The application shell: routes messages to the table and runs the exit flow.
use vstd::prelude::*;
use crate::table::{update_spec, window_event_spec, Table, TableMessage};
use crate::tray::{resolve_spec, TrayAction, TrayRegistry};

verus! {

/// The application's state: whether the exit dialog is up, the table, and the
/// tray menu registry.
#[derive(Debug)]
pub struct AppState {
    pub show_confirm: bool,
    pub main_table: Table,
    pub tray: TrayRegistry,
}

/// What reaches the application.
#[derive(Debug)]
pub enum Message {
    /// The window's close button was pressed.
    CloseRequested,
    /// Any other window event, as its text.
    WindowEvent(String),
    /// A click on the tray menu item with this identifier.
    TrayIconEvent(String),
    ConfirmExit,
    CancelExit,
    TbMsg(TableMessage),
    Noop,
}

/// What the shell asks of its host after a message.
#[derive(Clone, Copy, Debug, PartialEq, Eq, Structural)]
pub enum Command {
    Continue,
    Exit,
}

/// The state and command after a message.
pub open spec fn step_spec(s: AppState, m: Message) -> (AppState, Command) {
    match m {
        Message::CloseRequested => (AppState { show_confirm: true, ..s }, Command::Continue),
        Message::WindowEvent(d) => (
            AppState { main_table: window_event_spec(s.main_table, d@), ..s },
            Command::Continue,
        ),
        Message::TrayIconEvent(id) => (
            s,
            if resolve_spec(s.tray@, id@) == TrayAction::Quit {
                Command::Exit
            } else {
                Command::Continue
            },
        ),
        Message::ConfirmExit => (s, Command::Exit),
        Message::CancelExit => (AppState { show_confirm: false, ..s }, Command::Continue),
        Message::TbMsg(t) => (AppState { main_table: update_spec(s.main_table, t), ..s }, Command::Continue),
        Message::Noop => (s, Command::Continue),
    }
}

impl AppState {
    pub open spec fn wf(self) -> bool {
        self.main_table.wf()
    }

    /// The starting state: no dialog, the sample table, and the given registry.
    pub fn new(tray: TrayRegistry) -> (r: AppState)
        ensures
            r.wf(),
            !r.show_confirm,
            r.tray == tray,
            r.main_table.events@.len() == crate::event::fixture_names().len(),
            r.main_table.selected is None,
            r.main_table.context_menu is None,
            r.main_table.last_cursor is None,
    {
        AppState { show_confirm: false, main_table: Table::new(), tray }
    }
}

/// Applies a message to the state and says whether to go on or exit.
pub fn update(state: &mut AppState, message: Message) -> (r: Command)
    requires
        old(state).wf(),
    ensures
        (*final(state), r) == step_spec(*old(state), message),
        final(state).wf(),
{
    match message {
        Message::CloseRequested => {
            state.show_confirm = true;
            Command::Continue
        },
        Message::WindowEvent(event) => {
            state.main_table.on_window_event_debug(event.as_str());
            Command::Continue
        },
        Message::TrayIconEvent(menu_id) => {
            if handle_tray_icon_event(&state.tray, &menu_id) == TrayAction::Quit {
                Command::Exit
            } else {
                Command::Continue
            }
        },
        Message::ConfirmExit => Command::Exit,
        Message::CancelExit => {
            state.show_confirm = false;
            Command::Continue
        },
        Message::TbMsg(msg) => {
            state.main_table.update(msg);
            proof {
                crate::table::lemma_update_keeps_wf(old(state).main_table, msg);
            }
            Command::Continue
        },
        Message::Noop => Command::Continue,
    }
}

/// The action for a click on a tray menu item.
pub fn handle_tray_icon_event(tray: &TrayRegistry, event_id: &String) -> (r: TrayAction)
    ensures
        r == resolve_spec(tray@, event_id@),
{
    tray.resolve(event_id.as_str())
}

/// Confirming the exit dialog exits, and so does a click on the tray's "Quit"
/// item; cancelling the dialog brings back the state from before it was asked
/// for, table untouched.
pub proof fn lemma_exit_flow(s: AppState, id: String)
    ensures
        step_spec(s, Message::ConfirmExit).1 == Command::Exit,
        resolve_spec(s.tray@, id@) == TrayAction::Quit ==> step_spec(s, Message::TrayIconEvent(id)).1
            == Command::Exit,
        step_spec(s, Message::CancelExit).0.main_table == s.main_table,
        !step_spec(s, Message::CancelExit).0.show_confirm,
        !s.show_confirm ==> step_spec(step_spec(s, Message::CloseRequested).0, Message::CancelExit).0
            == s,
{
}

} // verus!
