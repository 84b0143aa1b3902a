//! The window controller: how the overlay reacts to toolkit events.
//!
//! The controller is a state machine. The shell that owns the real window
//! turns each toolkit callback into a [`WindowEvent`] or a
//! [`LifeCycleEvent`], hands it to [`TransparentWindow`], and carries out the
//! [`WindowCommand`]s that come back, in order.
//!
//! The position type `P` is whatever the shell uses for screen coordinates.
//! The controller never looks inside a position; it only passes the one it
//! was given on to the window.

use vstd::prelude::*;
use vstd::string::StringExecFns;
use crate::poll::ChatBuffer;
use crate::render::{Frame, frame_shows, lines_that_fit, most_recent, render};

verus! {

/// Seconds between two repaints driven by the timer.
pub const REPAINT_INTERVAL_SECS: u64 = 1;

/// Which mouse button an event is about.
#[derive(Clone, Copy, Debug, PartialEq, Eq, Structural)]
pub enum MouseButton {
    /// No button at all.
    NoButton,
    /// The left button.
    Left,
    /// The right button.
    Right,
    /// The middle button.
    Middle,
    /// The first extra button.
    X1,
    /// The second extra button.
    X2,
}

impl MouseButton {
    /// Whether this is the left button.
    pub fn is_left(self) -> (left: bool)
        ensures
            left == (self == MouseButton::Left),
    {
        self == MouseButton::Left
    }
}

/// What the toolkit reports to the window.
#[derive(Clone, Copy, Debug, PartialEq)]
pub enum WindowEvent<P> {
    /// The window has been created and is on screen.
    WindowConnected,
    /// A mouse button went down inside the window.
    MouseDown(MouseButton),
    /// The pointer moved; the payload is the pointer position reported with
    /// the move.
    MouseMove(P),
    /// A mouse button was released.
    MouseUp(MouseButton),
    /// The repaint timer fired.
    Timer,
    /// Anything else.
    Other,
}

/// What the toolkit reports about the window's place in its life cycle.
#[derive(Clone, Copy, Debug, PartialEq, Eq, Structural)]
pub enum LifeCycleEvent {
    /// Keyboard focus was gained (`true`) or lost (`false`).
    FocusChanged(bool),
    /// Anything else.
    Other,
}

/// What the shell is asked to do in response to an event.
#[derive(Clone, Copy, Debug, PartialEq)]
pub enum WindowCommand<P> {
    /// Start the background task that polls for chat messages.
    StartFetchLoop,
    /// Start listening for global pointer movement.
    StartPointerListener,
    /// Ask for a timer event after this many seconds.
    RequestTimer(u64),
    /// Make the window the active receiver of mouse events, or stop.
    SetActive(bool),
    /// Ask the toolkit for an update pass.
    RequestUpdate,
    /// Ask the toolkit for a layout pass.
    RequestLayout,
    /// Ask the toolkit to repaint the window.
    RequestPaint,
    /// Keep the window above all others, or stop.
    SetAlwaysOnTop(bool),
    /// Move the window to this position.
    SetPosition(P),
    /// Show or hide the title bar.
    ShowTitlebar(bool),
}

/// Whether the window is being dragged.
#[derive(Clone, Copy, Debug, PartialEq, Eq, Structural)]
pub struct DragState {
    /// `true` from a press of the left button to its release.
    pub dragging: bool,
}

/// The logical size of the window.
#[derive(Clone, Copy, Debug, PartialEq, Eq, Structural)]
pub struct WindowSize {
    /// Width in logical pixels.
    pub width: u32,
    /// Height in logical pixels.
    pub height: u32,
}

/// Width of the overlay window, in logical pixels.
pub const WINDOW_WIDTH: u32 = 300;

/// Height of the overlay window, in logical pixels.
pub const WINDOW_HEIGHT: u32 = 500;

/// How the window is to be created.
#[derive(Debug, PartialEq, Eq)]
pub struct WindowConfig {
    /// The window's title.
    pub title: String,
    /// The window's size.
    pub size: WindowSize,
    /// Whether the user may resize the window.
    pub resizable: bool,
    /// Whether the window starts out with a title bar.
    pub show_titlebar: bool,
    /// Whether the window's background is see-through.
    pub transparent: bool,
    /// Whether the window stays above all others.
    pub always_on_top: bool,
}

impl WindowConfig {
    /// The overlay: a small see-through window of fixed size, without a
    /// title bar, above all others.
    pub fn overlay() -> (config: WindowConfig)
        ensures
            config.title@ == "Transparent Window Example"@,
            config.size == (WindowSize { width: WINDOW_WIDTH, height: WINDOW_HEIGHT }),
            !config.resizable,
            !config.show_titlebar,
            config.transparent,
            config.always_on_top,
    {
        WindowConfig {
            title: String::from_str("Transparent Window Example"),
            size: WindowSize { width: WINDOW_WIDTH, height: WINDOW_HEIGHT },
            resizable: false,
            show_titlebar: false,
            transparent: true,
            always_on_top: true,
        }
    }
}

/// The overlay window's controller.
///
/// It is either idle or dragging. A press of the left button starts a drag,
/// the release of the left button ends it, and nothing else changes the
/// state: the other buttons, moves, the timer and focus leave it as it is.
#[derive(Clone, Copy, Debug, PartialEq, Eq, Structural)]
pub struct TransparentWindow {
    /// Whether a drag is under way.
    pub drag_state: DragState,
}

/// Whether `commands` moves the window.
pub open spec fn relocates<P>(commands: Seq<WindowCommand<P>>) -> bool {
    exists|i: int| 0 <= i < commands.len() && #[trigger] commands[i] is SetPosition
}

/// Whether `event` is a press of the left button.
pub open spec fn is_left_press<P>(event: WindowEvent<P>) -> bool {
    event == WindowEvent::<P>::MouseDown(MouseButton::Left)
}

/// Whether `event` is a release of the left button.
pub open spec fn is_left_release<P>(event: WindowEvent<P>) -> bool {
    event == WindowEvent::<P>::MouseUp(MouseButton::Left)
}

/// What the window is asked to do when focus changes to `gained`.
pub open spec fn focus_commands<P>(gained: bool) -> Seq<WindowCommand<P>> {
    if gained {
        seq![
            WindowCommand::RequestPaint,
            WindowCommand::SetAlwaysOnTop(true),
            WindowCommand::ShowTitlebar(true),
            WindowCommand::RequestPaint,
        ]
    } else {
        seq![
            WindowCommand::RequestPaint,
            WindowCommand::ShowTitlebar(false),
            WindowCommand::RequestPaint,
        ]
    }
}

impl TransparentWindow {
    /// The state after `event`.
    pub open spec fn after<P>(self, event: WindowEvent<P>) -> TransparentWindow {
        match event {
            WindowEvent::MouseDown(button) => if button == MouseButton::Left {
                TransparentWindow { drag_state: DragState { dragging: true } }
            } else {
                self
            },
            WindowEvent::MouseUp(button) => if button == MouseButton::Left {
                TransparentWindow { drag_state: DragState { dragging: false } }
            } else {
                self
            },
            _ => self,
        }
    }

    /// The commands that answer `event` in this state, in the order in which
    /// they are to be carried out.
    pub open spec fn commands_for<P>(self, event: WindowEvent<P>) -> Seq<WindowCommand<P>> {
        match event {
            WindowEvent::WindowConnected => seq![
                WindowCommand::StartFetchLoop,
                WindowCommand::RequestTimer(REPAINT_INTERVAL_SECS),
                WindowCommand::StartPointerListener,
            ],
            WindowEvent::MouseDown(button) => if button == MouseButton::Left {
                seq![
                    WindowCommand::SetActive(true),
                    WindowCommand::RequestUpdate,
                    WindowCommand::SetAlwaysOnTop(true),
                ]
            } else {
                Seq::empty()
            },
            WindowEvent::MouseMove(position) => if self.drag_state.dragging {
                seq![
                    WindowCommand::SetPosition(position),
                    WindowCommand::RequestLayout,
                    WindowCommand::RequestPaint,
                    WindowCommand::SetAlwaysOnTop(true),
                ]
            } else {
                Seq::empty()
            },
            WindowEvent::MouseUp(_) => seq![
                WindowCommand::SetActive(false),
                WindowCommand::SetAlwaysOnTop(true),
            ],
            WindowEvent::Timer => seq![
                WindowCommand::RequestPaint,
                WindowCommand::RequestTimer(REPAINT_INTERVAL_SECS),
            ],
            WindowEvent::Other => Seq::empty(),
        }
    }

    /// The state after all of `events`, first to last.
    pub open spec fn after_all<P>(self, events: Seq<WindowEvent<P>>) -> TransparentWindow
        decreases events.len(),
    {
        if events.len() == 0 {
            self
        } else {
            self.after_all(events.drop_last()).after(events.last())
        }
    }

    /// A window that is not being dragged.
    pub fn new() -> (window: TransparentWindow)
        ensures
            !window.drag_state.dragging,
    {
        TransparentWindow { drag_state: DragState { dragging: false } }
    }

    /// Whether a drag is under way.
    pub fn is_dragging(&self) -> (dragging: bool)
        ensures
            dragging == self.drag_state.dragging,
    {
        self.drag_state.dragging
    }

    /// Handles one toolkit event: moves to the next state and returns what
    /// the shell has to do, in order.
    pub fn event<P>(&mut self, event: WindowEvent<P>) -> (commands: Vec<WindowCommand<P>>)
        ensures
            *final(self) == old(self).after(event),
            commands@ == old(self).commands_for(event),
    {
        let mut commands: Vec<WindowCommand<P>> = Vec::new();
        match event {
            WindowEvent::WindowConnected => {
                commands.push(WindowCommand::StartFetchLoop);
                commands.push(WindowCommand::RequestTimer(REPAINT_INTERVAL_SECS));
                commands.push(WindowCommand::StartPointerListener);
            },
            WindowEvent::MouseDown(button) => {
                if button.is_left() {
                    self.drag_state.dragging = true;
                    commands.push(WindowCommand::SetActive(true));
                    commands.push(WindowCommand::RequestUpdate);
                    commands.push(WindowCommand::SetAlwaysOnTop(true));
                }
            },
            WindowEvent::MouseMove(position) => {
                if self.drag_state.dragging {
                    commands.push(WindowCommand::SetPosition(position));
                    commands.push(WindowCommand::RequestLayout);
                    commands.push(WindowCommand::RequestPaint);
                    commands.push(WindowCommand::SetAlwaysOnTop(true));
                }
            },
            WindowEvent::MouseUp(button) => {
                if button.is_left() {
                    self.drag_state.dragging = false;
                }
                commands.push(WindowCommand::SetActive(false));
                commands.push(WindowCommand::SetAlwaysOnTop(true));
            },
            WindowEvent::Timer => {
                commands.push(WindowCommand::RequestPaint);
                commands.push(WindowCommand::RequestTimer(REPAINT_INTERVAL_SECS));
            },
            WindowEvent::Other => {},
        }
        assert(commands@ =~= old(self).commands_for(event));
        commands
    }

    /// Handles one life-cycle event. Gaining focus shows the title bar and
    /// pins the window on top, losing it hides the title bar; both repaint.
    /// The drag state is left alone.
    pub fn lifecycle<P>(&mut self, event: LifeCycleEvent) -> (commands: Vec<WindowCommand<P>>)
        ensures
            *final(self) == *old(self),
            commands@ == match event {
                LifeCycleEvent::FocusChanged(gained) => focus_commands::<P>(gained),
                LifeCycleEvent::Other => Seq::empty(),
            },
    {
        let mut commands: Vec<WindowCommand<P>> = Vec::new();
        match event {
            LifeCycleEvent::FocusChanged(gained) => {
                commands.push(WindowCommand::RequestPaint);
                if gained {
                    commands.push(WindowCommand::SetAlwaysOnTop(true));
                    commands.push(WindowCommand::ShowTitlebar(true));
                } else {
                    commands.push(WindowCommand::ShowTitlebar(false));
                }
                commands.push(WindowCommand::RequestPaint);
                assert(commands@ =~= focus_commands::<P>(gained));
            },
            LifeCycleEvent::Other => {},
        }
        commands
    }

    /// What a repaint draws: the background, then as many of the most
    /// recent messages of `chat_items` as fit the window's height, oldest at
    /// the top.
    pub fn paint(&self, chat_items: &ChatBuffer) -> (frame: Frame)
        ensures
            frame_shows(frame, most_recent(chat_items@, lines_that_fit(WINDOW_HEIGHT as int))),
    {
        render(&chat_items.messages, WINDOW_HEIGHT)
    }

    /// The size the window asks for, whatever the constraints.
    pub fn layout(&self) -> (size: WindowSize)
        ensures
            size.width == WINDOW_WIDTH,
            size.height == WINDOW_HEIGHT,
    {
        WindowSize { width: WINDOW_WIDTH, height: WINDOW_HEIGHT }
    }
}

/// Pressing the left button and then moving the pointer moves the window to
/// the position reported with the move, and to no other.
pub proof fn lemma_press_then_move_relocates<P>(window: TransparentWindow, position: P)
    ensures
        ({
            let pressed = window.after(WindowEvent::<P>::MouseDown(MouseButton::Left));
            let commands = pressed.commands_for(WindowEvent::MouseMove(position));
            &&& pressed.drag_state.dragging
            &&& relocates(commands)
            &&& forall|i: int|
                0 <= i < commands.len() && #[trigger] commands[i] is SetPosition ==> commands[i]
                    == WindowCommand::SetPosition(position)
        }),
{
    let pressed = window.after(WindowEvent::<P>::MouseDown(MouseButton::Left));
    let commands = pressed.commands_for(WindowEvent::MouseMove(position));
    assert(commands[0] is SetPosition);
}

/// While the window is dragged, every move relocates it to the position
/// reported with that move, and the drag goes on.
pub proof fn lemma_drag_follows_every_move<P>(window: TransparentWindow, position: P)
    requires
        window.drag_state.dragging,
    ensures
        window.after(WindowEvent::MouseMove(position)).drag_state.dragging,
        window.commands_for(WindowEvent::MouseMove(position))[0] == WindowCommand::SetPosition(
            position,
        ),
{
}

/// Once the left button has been released, no later event moves the window
/// until the left button is pressed again.
pub proof fn lemma_release_stops_relocation<P>(
    window: TransparentWindow,
    later: Seq<WindowEvent<P>>,
)
    requires
        forall|i: int| 0 <= i < later.len() ==> !is_left_press(#[trigger] later[i]),
    ensures
        ({
            let released = window.after(WindowEvent::<P>::MouseUp(MouseButton::Left));
            forall|i: int|
                0 <= i < later.len() ==> {
                    let before = #[trigger] released.after_all(later.take(i));
                    !before.drag_state.dragging && !relocates(before.commands_for(later[i]))
                }
        }),
{
    let released = window.after(WindowEvent::<P>::MouseUp(MouseButton::Left));
    assert forall|i: int| 0 <= i < later.len() implies ({
        let before = #[trigger] released.after_all(later.take(i));
        !before.drag_state.dragging && !relocates(before.commands_for(later[i]))
    }) by {
        lemma_idle_until_left_press(released, later.take(i));
    }
}

/// A drag lasts over any events that hold no release of the left button:
/// the release of another button does not end it.
pub proof fn lemma_drag_lasts_until_left_release<P>(
    window: TransparentWindow,
    events: Seq<WindowEvent<P>>,
)
    requires
        window.drag_state.dragging,
        forall|i: int| 0 <= i < events.len() ==> !is_left_release(#[trigger] events[i]),
    ensures
        window.after_all(events).drag_state.dragging,
    decreases events.len(),
{
    if events.len() > 0 {
        lemma_drag_lasts_until_left_release(window, events.drop_last());
        assert(!is_left_release(events[events.len() - 1]));
    }
}

/// An idle window stays idle over any events that hold no left press.
pub proof fn lemma_idle_until_left_press<P>(window: TransparentWindow, events: Seq<WindowEvent<P>>)
    requires
        !window.drag_state.dragging,
        forall|i: int| 0 <= i < events.len() ==> !is_left_press(#[trigger] events[i]),
    ensures
        !window.after_all(events).drag_state.dragging,
    decreases events.len(),
{
    if events.len() > 0 {
        lemma_idle_until_left_press(window, events.drop_last());
        assert(!is_left_press(events[events.len() - 1]));
    }
}

/// Only a press of the left button starts a drag and only its release ends
/// one; no other event changes whether the window is dragged.
pub proof fn lemma_drag_transitions<P>(window: TransparentWindow, event: WindowEvent<P>)
    ensures
        window.after(event).drag_state.dragging == if is_left_press(event) {
            true
        } else if is_left_release(event) {
            false
        } else {
            window.drag_state.dragging
        },
{
}

} // verus!
