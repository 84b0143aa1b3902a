use chat_overlay::window::{
    DragState, LifeCycleEvent, MouseButton, TransparentWindow, WindowCommand, WindowConfig,
    WindowEvent, WindowSize, REPAINT_INTERVAL_SECS, WINDOW_HEIGHT, WINDOW_WIDTH,
};

type Position = (f64, f64);

fn pressed_window() -> TransparentWindow {
    let mut window = TransparentWindow::new();
    window.event(WindowEvent::<Position>::MouseDown(MouseButton::Left));
    window
}

#[test]
fn only_left_is_left() {
    assert!(MouseButton::Left.is_left());
    assert!(!MouseButton::NoButton.is_left());
    assert!(!MouseButton::Right.is_left());
    assert!(!MouseButton::Middle.is_left());
    assert!(!MouseButton::X1.is_left());
    assert!(!MouseButton::X2.is_left());
}

#[test]
fn new_window_is_idle() {
    let window = TransparentWindow::new();
    assert!(!window.is_dragging());
    assert_eq!(window.drag_state, DragState { dragging: false });
}

#[test]
fn overlay_window_description() {
    let config = WindowConfig::overlay();
    assert_eq!(
        config,
        WindowConfig {
            title: "Transparent Window Example".to_string(),
            size: WindowSize { width: 300, height: 500 },
            resizable: false,
            show_titlebar: false,
            transparent: true,
            always_on_top: true,
        }
    );
}

#[test]
fn layout_is_the_fixed_window_size() {
    assert_eq!(WINDOW_WIDTH, 300);
    assert_eq!(WINDOW_HEIGHT, 500);
    assert_eq!(TransparentWindow::new().layout(), WindowSize { width: 300, height: 500 });
    assert_eq!(pressed_window().layout(), WindowSize { width: 300, height: 500 });
}

#[test]
fn connecting_starts_polling_the_timer_and_the_pointer_listener() {
    assert_eq!(REPAINT_INTERVAL_SECS, 1);
    let mut window = TransparentWindow::new();
    let commands = window.event(WindowEvent::<Position>::WindowConnected);
    assert_eq!(
        commands,
        vec![
            WindowCommand::StartFetchLoop,
            WindowCommand::RequestTimer(1),
            WindowCommand::StartPointerListener,
        ]
    );
    assert!(!window.is_dragging());
}

#[test]
fn timer_repaints_and_rearms_itself() {
    let mut window = TransparentWindow::new();
    let commands = window.event(WindowEvent::<Position>::Timer);
    assert_eq!(commands, vec![WindowCommand::RequestPaint, WindowCommand::RequestTimer(1)]);
    let mut dragged = pressed_window();
    let commands = dragged.event(WindowEvent::<Position>::Timer);
    assert_eq!(commands, vec![WindowCommand::RequestPaint, WindowCommand::RequestTimer(1)]);
    assert!(dragged.is_dragging());
}

#[test]
fn left_press_arms_dragging_and_pins_on_top() {
    let mut window = TransparentWindow::new();
    let commands = window.event(WindowEvent::<Position>::MouseDown(MouseButton::Left));
    assert!(window.is_dragging());
    assert_eq!(
        commands,
        vec![
            WindowCommand::SetActive(true),
            WindowCommand::RequestUpdate,
            WindowCommand::SetAlwaysOnTop(true),
        ]
    );
}

#[test]
fn other_presses_do_nothing() {
    for button in [
        MouseButton::NoButton,
        MouseButton::Right,
        MouseButton::Middle,
        MouseButton::X1,
        MouseButton::X2,
    ] {
        let mut window = TransparentWindow::new();
        let commands = window.event(WindowEvent::<Position>::MouseDown(button));
        assert!(commands.is_empty());
        assert!(!window.is_dragging());
        let mut dragged = pressed_window();
        let commands = dragged.event(WindowEvent::<Position>::MouseDown(button));
        assert!(commands.is_empty());
        assert!(dragged.is_dragging());
    }
}

#[test]
fn move_while_idle_does_nothing() {
    let mut window = TransparentWindow::new();
    let commands = window.event(WindowEvent::MouseMove((10.0, 20.0)));
    assert!(commands.is_empty());
    assert!(!window.is_dragging());
}

#[test]
fn press_then_move_relocates_to_the_reported_position() {
    let mut window = TransparentWindow::new();
    window.event(WindowEvent::<Position>::MouseDown(MouseButton::Left));
    let commands = window.event(WindowEvent::MouseMove((120.5, 64.25)));
    assert_eq!(
        commands,
        vec![
            WindowCommand::SetPosition((120.5, 64.25)),
            WindowCommand::RequestLayout,
            WindowCommand::RequestPaint,
            WindowCommand::SetAlwaysOnTop(true),
        ]
    );
    assert!(window.is_dragging());
    let commands = window.event(WindowEvent::MouseMove((-3.0, 0.0)));
    assert_eq!(commands[0], WindowCommand::SetPosition((-3.0, 0.0)));
}

#[test]
fn release_stops_relocation_on_later_moves() {
    let mut window = pressed_window();
    window.event(WindowEvent::MouseMove((1.0, 1.0)));
    let commands = window.event(WindowEvent::<Position>::MouseUp(MouseButton::Left));
    assert_eq!(commands, vec![WindowCommand::SetActive(false), WindowCommand::SetAlwaysOnTop(true)]);
    assert!(!window.is_dragging());
    for step in 0..4 {
        let commands = window.event(WindowEvent::MouseMove((step as f64, 2.0)));
        assert!(commands.is_empty());
        assert!(!window.is_dragging());
    }
    window.event(WindowEvent::<Position>::Timer);
    window.event(WindowEvent::<Position>::MouseDown(MouseButton::Right));
    assert!(window.event(WindowEvent::MouseMove((9.0, 9.0))).is_empty());
}

#[test]
fn left_release_disarms() {
    let mut window = pressed_window();
    let commands = window.event(WindowEvent::<Position>::MouseUp(MouseButton::Left));
    assert!(!window.is_dragging());
    assert_eq!(commands, vec![WindowCommand::SetActive(false), WindowCommand::SetAlwaysOnTop(true)]);
}

#[test]
fn release_of_another_button_keeps_the_drag() {
    for button in [
        MouseButton::NoButton,
        MouseButton::Right,
        MouseButton::Middle,
        MouseButton::X1,
        MouseButton::X2,
    ] {
        let mut window = pressed_window();
        let commands = window.event(WindowEvent::<Position>::MouseUp(button));
        assert!(window.is_dragging());
        assert_eq!(
            commands,
            vec![WindowCommand::SetActive(false), WindowCommand::SetAlwaysOnTop(true)]
        );
        let commands = window.event(WindowEvent::MouseMove((7.0, 8.0)));
        assert_eq!(commands[0], WindowCommand::SetPosition((7.0, 8.0)));
        window.event(WindowEvent::<Position>::MouseUp(MouseButton::Left));
        assert!(!window.is_dragging());
    }
}

#[test]
fn left_press_then_right_release_is_still_dragging() {
    let mut window = TransparentWindow::new();
    window.event(WindowEvent::<Position>::MouseDown(MouseButton::Left));
    window.event(WindowEvent::<Position>::MouseUp(MouseButton::Right));
    assert_eq!(window.drag_state, DragState { dragging: true });
}

#[test]
fn release_of_another_button_while_idle_stays_idle() {
    let mut window = TransparentWindow::new();
    window.event(WindowEvent::<Position>::MouseUp(MouseButton::Right));
    assert!(!window.is_dragging());
    assert!(window.event(WindowEvent::MouseMove((1.0, 1.0))).is_empty());
}

#[test]
fn release_while_idle_still_answers() {
    let mut window = TransparentWindow::new();
    let commands = window.event(WindowEvent::<Position>::MouseUp(MouseButton::Left));
    assert_eq!(commands, vec![WindowCommand::SetActive(false), WindowCommand::SetAlwaysOnTop(true)]);
    assert!(!window.is_dragging());
}

#[test]
fn pressing_again_after_release_drags_again() {
    let mut window = pressed_window();
    window.event(WindowEvent::<Position>::MouseUp(MouseButton::Left));
    window.event(WindowEvent::<Position>::MouseDown(MouseButton::Left));
    let commands = window.event(WindowEvent::MouseMove((5.0, 6.0)));
    assert_eq!(commands[0], WindowCommand::SetPosition((5.0, 6.0)));
}

#[test]
fn other_events_do_nothing() {
    let mut window = pressed_window();
    assert!(window.event(WindowEvent::<Position>::Other).is_empty());
    assert!(window.is_dragging());
    let mut idle = TransparentWindow::new();
    assert!(idle.event(WindowEvent::<Position>::Other).is_empty());
    assert!(!idle.is_dragging());
}

#[test]
fn gaining_focus_shows_the_title_bar_and_pins_on_top() {
    let mut window = TransparentWindow::new();
    let commands: Vec<WindowCommand<Position>> = window.lifecycle(LifeCycleEvent::FocusChanged(true));
    assert_eq!(
        commands,
        vec![
            WindowCommand::RequestPaint,
            WindowCommand::SetAlwaysOnTop(true),
            WindowCommand::ShowTitlebar(true),
            WindowCommand::RequestPaint,
        ]
    );
    assert!(!window.is_dragging());
}

#[test]
fn losing_focus_hides_the_title_bar() {
    let mut window = pressed_window();
    let commands: Vec<WindowCommand<Position>> = window.lifecycle(LifeCycleEvent::FocusChanged(false));
    assert_eq!(
        commands,
        vec![
            WindowCommand::RequestPaint,
            WindowCommand::ShowTitlebar(false),
            WindowCommand::RequestPaint,
        ]
    );
    assert!(window.is_dragging());
}

#[test]
fn other_life_cycle_events_do_nothing() {
    let mut window = TransparentWindow::new();
    let commands: Vec<WindowCommand<Position>> = window.lifecycle(LifeCycleEvent::Other);
    assert!(commands.is_empty());
}
