use oneamp_core::ui::{
    ButtonIcon, ControlAction, TrackDisplay, VisualEffects, VisualizationType, WindowAction,
    WindowChrome,
};

#[test]
fn test_button_icon_types() {
    let icons = vec![
        ButtonIcon::Play,
        ButtonIcon::Pause,
        ButtonIcon::Stop,
        ButtonIcon::Previous,
        ButtonIcon::Next,
    ];
    assert_eq!(icons.len(), 5);
}

#[test]
fn test_control_action() {
    let action = ControlAction::Play;
    assert_eq!(action, ControlAction::Play);
    assert_ne!(action, ControlAction::Pause);
}

#[test]
fn test_visual_effects_module_exists() {
    let _effects = VisualEffects;
}

#[test]
fn test_visualization_type_toggle() {
    let mut viz_type = VisualizationType::Oscilloscope;
    viz_type.toggle();
    assert_eq!(viz_type, VisualizationType::Spectrum);
    viz_type.toggle();
    assert_eq!(viz_type, VisualizationType::Oscilloscope);
}

#[test]
fn test_visualization_type_name() {
    assert_eq!(VisualizationType::Oscilloscope.name(), "Oscilloscope");
    assert_eq!(VisualizationType::Spectrum.name(), "Spectrum");
}

#[test]
fn test_window_chrome_creation() {
    let chrome = WindowChrome::new();
    assert!(!chrome.is_dragging());
}

#[test]
fn test_window_chrome_default() {
    let chrome = WindowChrome::default();
    assert!(!chrome.is_dragging());
}

#[test]
fn test_window_action_types() {
    let actions = vec![
        WindowAction::NoAction,
        WindowAction::Close,
        WindowAction::Minimize,
        WindowAction::ToggleMaximize,
        WindowAction::StartDrag,
    ];
    assert_eq!(actions.len(), 5);
}

#[test]
fn test_scroll_text() {
    let text = "Long Song Title";
    let scrolled = TrackDisplay::scroll_text(text, 10, 0);
    assert_eq!(scrolled.len(), 10);
}

#[test]
fn scroll_text_windows() {
    assert_eq!(TrackDisplay::scroll_text("Short", 10, 3), "Short");
    assert_eq!(TrackDisplay::scroll_text("Long Song Title", 10, 0), "Long Song ");
    assert_eq!(TrackDisplay::scroll_text("Long Song Title", 10, 10), "Title   Lo");
    assert_eq!(TrackDisplay::scroll_text("abcdef", 4, 20), "cdef");
    assert_eq!(TrackDisplay::scroll_text("abcdef", 4, 16), "  ab");
}
