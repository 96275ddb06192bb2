//! Tests of the main-window model: palette toggling and message handling.

use oscps::flowsheet::Component;
use oscps::flowsheet::Point;
use oscps::simulation::BlockType;
use oscps::window::icon;
use oscps::window::placement_button_style;
use oscps::window::Icon;
use oscps::window::MainWindow;
use oscps::window::Message;
use oscps::window::Pane;
use oscps::window::PlacementButtonStyle;

#[test]
fn test_placement_mode_toggles_back_to_neutral() {
    let mut window = MainWindow::new();
    assert_eq!(window.placement_mode, Component::connector());
    window.update(Message::PlaceComponent(Component::mixer()));
    assert_eq!(window.placement_mode, Component::mixer());
    // Clicking the active kind's button again reverts to the neutral mode.
    window.update(Message::PlaceComponent(Component::mixer()));
    assert_eq!(window.placement_mode, Component::connector());
}

#[test]
fn test_placement_mode_switches_directly() {
    let mut window = MainWindow::new();
    window.update(Message::PlaceComponent(Component::mixer()));
    // Clicking a different kind's button switches straight to that kind.
    window.update(Message::PlaceComponent(Component::source()));
    assert_eq!(window.placement_mode, Component::source());
    window.update(Message::PlaceComponent(Component::sink()));
    assert_eq!(window.placement_mode, Component::sink());
}

#[test]
fn test_added_mixer_feeds_the_simulation() {
    let mut window = MainWindow::new();
    let mixer = Component::Mixer {
        at: Some(Point::new(100, 100)),
        input: Some(Point::new(95, 150)),
        output: Some(Point::new(205, 150)),
        block: None,
    };
    window.update(Message::AddedComponent(mixer));
    assert_eq!(window.components.len(), 1);
    assert_eq!(window.components[0], mixer);
    // The placement created block 1, so the next allocation returns 2.
    assert_eq!(window.simulation.add_block(BlockType::Mixer), 2);
}

#[test]
fn test_clear_resets_flowsheet_but_not_simulation() {
    let mut window = MainWindow::new();
    let mixer = Component::Mixer {
        at: Some(Point::new(0, 0)),
        input: Some(Point::new(-5, 50)),
        output: Some(Point::new(105, 50)),
        block: None,
    };
    window.update(Message::AddedComponent(mixer));
    window.update(Message::PlaceComponent(Component::sink()));
    window.update(Message::Clear);
    assert!(window.components.is_empty());
    assert_eq!(window.placement_mode, Component::connector());
    // The simulation's registries were not cleared: block 1 still exists.
    assert_eq!(window.simulation.add_block(BlockType::Mixer), 2);
}

#[test]
fn test_placement_button_style_highlights_active_mode() {
    let window = MainWindow::new();
    assert_eq!(
        placement_button_style(&window.placement_mode, &Component::connector()),
        PlacementButtonStyle::Danger
    );
    assert_eq!(
        placement_button_style(&window.placement_mode, &Component::mixer()),
        PlacementButtonStyle::Secondary
    );
}

#[test]
fn test_panes_and_icons() {
    assert_eq!(Pane::new_selection(), Pane::ComponentSelection);
    assert_eq!(Pane::new_canvas(), Pane::Canvas);
    assert_eq!(Pane::default(), Pane::ComponentSelection);
    let _icon: Icon = Icon::new(Component::mixer());
    let _icon: Icon = icon(Component::source());
}
