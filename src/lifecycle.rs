use vstd::prelude::*;

verus! {

/// What the user can see of the main window.
#[derive(Clone, Copy, Debug, PartialEq, Eq, Structural)]
pub enum WindowState {
    Visible,
    Hidden,
}

/// The commands of the tray menu.
#[derive(Clone, Copy, Debug, PartialEq, Eq, Structural)]
pub enum MenuCommand {
    /// "Open Subly": show the window and focus it.
    Show,
    /// "Quit": end the process.
    Quit,
    /// Any other item (the separator has no id of its own).
    Ignored,
}

/// A discrete event that the windowing system delivers to the controller.
#[derive(Clone, Copy, Debug, PartialEq, Eq, Structural)]
pub enum LifecycleEvent {
    /// The user pressed the window's close box.
    CloseRequested,
    /// An item of the tray menu was chosen.
    Menu(MenuCommand),
    /// The tray icon was double-clicked.
    TrayDoubleClick,
    /// The tray icon was clicked with the left button.
    TrayLeftClick,
    /// Any other tray icon event (hover, right click, ...).
    TrayOther,
}

/// The side effect that the caller performs for a transition.
#[derive(Clone, Copy, Debug, PartialEq, Eq, Structural)]
pub enum Effect {
    /// Nothing to do.
    Nothing,
    /// Show the window and give it input focus.
    ShowAndFocus,
    /// Cancel the default close action and hide the window instead.
    PreventCloseAndHide,
    /// Let the close action proceed, which ends the process.
    AllowClose,
    /// Exit the process at once with status 0.
    Exit,
}

/// Menu item id of the "Open" command.
pub open spec fn show_id() -> Seq<char> {
    "show"@
}

/// Menu item id of the "Quit" command.
pub open spec fn quit_id() -> Seq<char> {
    "quit"@
}

/// The command that a menu item id stands for.
pub open spec fn command_of(id: Seq<char>) -> MenuCommand {
    if id == quit_id() {
        MenuCommand::Quit
    } else if id == show_id() {
        MenuCommand::Show
    } else {
        MenuCommand::Ignored
    }
}

/// Maps the id of a chosen tray menu item to its command.
pub fn menu_command(id: &str) -> (r: MenuCommand)
    ensures
        r == command_of(id@),
{
    let given = id.to_owned();
    if given == "quit".to_owned() {
        MenuCommand::Quit
    } else if given == "show".to_owned() {
        MenuCommand::Show
    } else {
        MenuCommand::Ignored
    }
}

/// The window/tray controller of one process.
///
/// With a tray (desktop platforms) the close box hides the window, and only
/// the tray's quit command ends the process. Without one (mobile platforms)
/// the controller is inert and closing the window ends the process as usual.
#[derive(Clone, Copy, Debug)]
pub struct Lifecycle {
    pub tray: bool,
    pub window: WindowState,
    pub running: bool,
}

/// The state after `event`, and the effect that goes with it.
pub open spec fn transition(c: Lifecycle, event: LifecycleEvent) -> (Lifecycle, Effect) {
    if !c.tray {
        match event {
            LifecycleEvent::CloseRequested => (Lifecycle { running: false, ..c }, Effect::AllowClose),
            _ => (c, Effect::Nothing),
        }
    } else {
        match event {
            LifecycleEvent::CloseRequested => (
                Lifecycle { window: WindowState::Hidden, ..c },
                Effect::PreventCloseAndHide,
            ),
            LifecycleEvent::Menu(MenuCommand::Show) | LifecycleEvent::TrayDoubleClick
                | LifecycleEvent::TrayLeftClick => (
                Lifecycle { window: WindowState::Visible, ..c },
                Effect::ShowAndFocus,
            ),
            LifecycleEvent::Menu(MenuCommand::Quit) => (Lifecycle { running: false, ..c }, Effect::Exit),
            _ => (c, Effect::Nothing),
        }
    }
}

impl Lifecycle {
    /// A controller at launch: the window is shown and the process runs.
    pub fn new(tray: bool) -> (r: Lifecycle)
        ensures
            r.tray == tray,
            r.window == WindowState::Visible,
            r.running,
    {
        Lifecycle { tray, window: WindowState::Visible, running: true }
    }

    /// Applies one event and returns the effect for the caller to perform.
    pub fn handle(&mut self, event: LifecycleEvent) -> (effect: Effect)
        requires
            old(self).running,
        ensures
            (*final(self), effect) == transition(*old(self), event),
    {
        if !self.tray {
            match event {
                LifecycleEvent::CloseRequested => {
                    self.running = false;
                    Effect::AllowClose
                },
                _ => Effect::Nothing,
            }
        } else {
            match event {
                LifecycleEvent::CloseRequested => {
                    self.window = WindowState::Hidden;
                    Effect::PreventCloseAndHide
                },
                LifecycleEvent::Menu(MenuCommand::Show) | LifecycleEvent::TrayDoubleClick
                | LifecycleEvent::TrayLeftClick => {
                    self.window = WindowState::Visible;
                    Effect::ShowAndFocus
                },
                LifecycleEvent::Menu(MenuCommand::Quit) => {
                    self.running = false;
                    Effect::Exit
                },
                _ => Effect::Nothing,
            }
        }
    }

    /// Whether the process should still be running.
    pub fn is_running(&self) -> (r: bool)
        ensures
            r == self.running,
    {
        self.running
    }

    /// What the user sees of the window.
    pub fn window_state(&self) -> (r: WindowState)
        ensures
            r == self.window,
    {
        self.window
    }
}

/// With a tray, closing the visible window hides it and the process goes on.
pub proof fn lemma_close_hides(c: Lifecycle)
    requires
        c.tray,
        c.running,
        c.window == WindowState::Visible,
    ensures
        transition(c, LifecycleEvent::CloseRequested).0.window == WindowState::Hidden,
        transition(c, LifecycleEvent::CloseRequested).0.running,
        transition(c, LifecycleEvent::CloseRequested).1 == Effect::PreventCloseAndHide,
{
}

/// The quit command ends the process whatever the window shows.
pub proof fn lemma_quit_terminates(c: Lifecycle)
    requires
        c.tray,
    ensures
        !transition(c, LifecycleEvent::Menu(MenuCommand::Quit)).0.running,
        transition(c, LifecycleEvent::Menu(MenuCommand::Quit)).1 == Effect::Exit,
{
}

/// A double click on the tray icon shows and focuses the window, and doing it
/// again changes nothing further.
pub proof fn lemma_double_click_shows(c: Lifecycle)
    requires
        c.tray,
        c.running,
    ensures
        transition(c, LifecycleEvent::TrayDoubleClick).0.window == WindowState::Visible,
        transition(c, LifecycleEvent::TrayDoubleClick).0.running,
        transition(c, LifecycleEvent::TrayDoubleClick).1 == Effect::ShowAndFocus,
        transition(transition(c, LifecycleEvent::TrayDoubleClick).0, LifecycleEvent::TrayDoubleClick)
            == transition(c, LifecycleEvent::TrayDoubleClick),
{
}

/// A left click on the tray icon shows and focuses the window, whether it
/// was hidden or visible, and the process goes on.
pub proof fn lemma_left_click_shows(c: Lifecycle)
    requires
        c.tray,
        c.running,
    ensures
        transition(c, LifecycleEvent::TrayLeftClick).0.window == WindowState::Visible,
        transition(c, LifecycleEvent::TrayLeftClick).0.running,
        transition(c, LifecycleEvent::TrayLeftClick).1 == Effect::ShowAndFocus,
{
}

} // verus!
