//! Tests of the flowsheet editor: placement, snapping, and drawing paths.

use oscps::flowsheet::cancel_pending;
use oscps::flowsheet::handle_left_click;
use oscps::flowsheet::mouse_interaction_hint;
use oscps::flowsheet::place_connector;
use oscps::flowsheet::place_mixer;
use oscps::flowsheet::place_sink;
use oscps::flowsheet::place_source;
use oscps::flowsheet::Component;
use oscps::flowsheet::CursorHint;
use oscps::flowsheet::PathCommand;
use oscps::flowsheet::Pending;
use oscps::flowsheet::Point;

fn placed_mixer() -> Component {
    place_mixer(Point::new(100, 100)).unwrap()
}

#[test]
fn test_place_mixer_geometry() {
    let mixer = placed_mixer();
    match mixer {
        Component::Mixer {
            at,
            input,
            output,
            block,
        } => {
            assert_eq!(at, Some(Point::new(100, 100)));
            assert_eq!(input, Some(Point::new(95, 150)));
            assert_eq!(output, Some(Point::new(205, 150)));
            assert_eq!(block, None);
        }
        _ => panic!("expected a mixer"),
    }
}

#[test]
fn test_place_source_and_sink_geometry() {
    match place_source(Point::new(10, 20)).unwrap() {
        Component::Source { at, output, .. } => {
            assert_eq!(at, Some(Point::new(10, 20)));
            assert_eq!(output, Some(Point::new(65, 70)));
        }
        _ => panic!("expected a source"),
    }
    match place_sink(Point::new(10, 20)).unwrap() {
        Component::Sink { at, input, .. } => {
            assert_eq!(at, Some(Point::new(10, 20)));
            assert_eq!(input, Some(Point::new(5, 70)));
        }
        _ => panic!("expected a sink"),
    }
}

#[test]
fn test_connector_snaps_to_output_within_bound() {
    let components = vec![placed_mixer()];
    let mut pending: Option<Pending> = None;
    // Output port is at (205, 150); a click 4 pixels off on both axes
    // must snap to the exact port.
    let emitted = place_connector(&components, &mut pending, Point::new(209, 154), false);
    assert!(emitted.is_none());
    match pending {
        Some(Pending::One { from }) => assert_eq!(from, Point::new(205, 150)),
        None => panic!("the gesture should have started at the snapped port"),
    }
}

#[test]
fn test_connector_does_not_snap_outside_bound() {
    let components = vec![placed_mixer()];
    // 6 pixels off on one axis: no snap, and with floating connectors
    // disallowed the gesture is discarded.
    let mut pending: Option<Pending> = None;
    let emitted = place_connector(&components, &mut pending, Point::new(211, 150), false);
    assert!(emitted.is_none());
    assert!(pending.is_none());
    // Exactly 5 pixels off: still no snap, the bound is exclusive.
    let emitted = place_connector(&components, &mut pending, Point::new(210, 150), false);
    assert!(emitted.is_none());
    assert!(pending.is_none());
}

#[test]
fn test_connector_second_click_snaps_to_input() {
    let components = vec![placed_mixer()];
    let mut pending: Option<Pending> = None;
    place_connector(&components, &mut pending, Point::new(205, 150), false);
    assert!(pending.is_some());
    // Input port is at (95, 150); click within the bound.
    let emitted = place_connector(&components, &mut pending, Point::new(98, 148), false);
    assert!(pending.is_none());
    match emitted {
        Some(Component::Connector { from, to, from_block, to_block }) => {
            assert_eq!(from, Some(Point::new(205, 150)));
            assert_eq!(to, Some(Point::new(95, 150)));
            assert_eq!(from_block, None);
            assert_eq!(to_block, None);
        }
        _ => panic!("expected a finished connector"),
    }
}

#[test]
fn test_connector_second_click_miss_keeps_pending() {
    let components = vec![placed_mixer()];
    let mut pending: Option<Pending> = None;
    place_connector(&components, &mut pending, Point::new(205, 150), false);
    let emitted = place_connector(&components, &mut pending, Point::new(500, 500), false);
    assert!(emitted.is_none());
    assert!(pending.is_some());
    // A secondary click cancels the gesture.
    cancel_pending(&mut pending);
    assert!(pending.is_none());
}

#[test]
fn test_floating_connectors_take_raw_points_when_allowed() {
    let components = vec![placed_mixer()];
    let mut pending: Option<Pending> = None;
    // Away from any port, the gesture starts at the raw click point.
    let emitted = place_connector(&components, &mut pending, Point::new(400, 400), true);
    assert!(emitted.is_none());
    assert_eq!(pending, Some(Pending::One { from: Point::new(400, 400) }));
    // And ends at the raw click point too.
    let emitted = place_connector(&components, &mut pending, Point::new(500, 500), true);
    assert!(pending.is_none());
    assert_eq!(
        emitted,
        Some(Component::Connector {
            from: Some(Point::new(400, 400)),
            to: Some(Point::new(500, 500)),
            from_block: None,
            to_block: None,
        })
    );
}

#[test]
fn test_handle_left_click_places_by_mode() {
    let components: Vec<Component> = Vec::new();
    let mut pending: Option<Pending> = None;
    let placed = handle_left_click(
        &Component::mixer(),
        &components,
        &mut pending,
        Point::new(100, 100),
    );
    assert_eq!(placed, Some(placed_mixer()));
    let placed = handle_left_click(
        &Component::connector(),
        &components,
        &mut pending,
        Point::new(100, 100),
    );
    assert!(placed.is_none());
    assert!(pending.is_none());
}

#[test]
fn test_connector_path_commands() {
    let mut path: Vec<PathCommand> = Vec::new();
    Component::draw_connector(&mut path, Point::new(100, 50), Point::new(0, 0));
    assert_eq!(
        path,
        vec![
            PathCommand::MoveTo(Point::new(0, 0)),
            PathCommand::LineTo(Point::new(50, 0)),
            PathCommand::LineTo(Point::new(50, 50)),
            PathCommand::LineTo(Point::new(100, 50)),
            PathCommand::LineTo(Point::new(90, 55)),
            PathCommand::LineTo(Point::new(90, 45)),
            PathCommand::LineTo(Point::new(100, 50)),
        ]
    );
}

#[test]
fn test_connector_arrowhead_flips_leftward() {
    let mut path: Vec<PathCommand> = Vec::new();
    Component::draw_connector(&mut path, Point::new(0, 0), Point::new(100, 0));
    // Drawing right to left: the arrowhead offset points the other way.
    assert_eq!(
        path,
        vec![
            PathCommand::MoveTo(Point::new(100, 0)),
            PathCommand::LineTo(Point::new(50, 0)),
            PathCommand::LineTo(Point::new(50, 0)),
            PathCommand::LineTo(Point::new(0, 0)),
            PathCommand::LineTo(Point::new(10, 5)),
            PathCommand::LineTo(Point::new(10, -5)),
            PathCommand::LineTo(Point::new(0, 0)),
        ]
    );
}

#[test]
fn test_mixer_path_commands() {
    let mut path: Vec<PathCommand> = Vec::new();
    Component::draw_mixer(
        &mut path,
        Point::new(100, 100),
        Point::new(95, 150),
        Point::new(205, 150),
    );
    assert_eq!(
        path,
        vec![
            PathCommand::MoveTo(Point::new(100, 100)),
            PathCommand::LineTo(Point::new(100, 200)),
            PathCommand::LineTo(Point::new(200, 150)),
            PathCommand::LineTo(Point::new(100, 100)),
            PathCommand::MoveTo(Point::new(100, 100)),
            PathCommand::Circle(Point::new(95, 150), 5),
            PathCommand::MoveTo(Point::new(100, 100)),
            PathCommand::Circle(Point::new(205, 150), 5),
        ]
    );
}

#[test]
fn test_source_and_sink_path_commands() {
    let mut path: Vec<PathCommand> = Vec::new();
    Component::draw_source(&mut path, Point::new(10, 20), Point::new(65, 70));
    assert_eq!(
        path,
        vec![
            PathCommand::MoveTo(Point::new(10, 20)),
            PathCommand::Rectangle(Point::new(10, 20), 50, 100),
            PathCommand::Circle(Point::new(65, 70), 5),
        ]
    );
    let mut path: Vec<PathCommand> = Vec::new();
    Component::draw_sink(&mut path, Point::new(10, 20), Point::new(5, 70));
    assert_eq!(
        path,
        vec![
            PathCommand::MoveTo(Point::new(10, 20)),
            PathCommand::Rectangle(Point::new(10, 20), 50, 100),
            PathCommand::MoveTo(Point::new(10, 20)),
            PathCommand::Circle(Point::new(5, 70), 5),
        ]
    );
}

#[test]
fn test_draw_all_concatenates_paths() {
    let components = vec![placed_mixer(), place_source(Point::new(10, 20)).unwrap()];
    let mut all: Vec<PathCommand> = Vec::new();
    Component::draw_all(&components, &mut all);
    let mut expected: Vec<PathCommand> = Vec::new();
    Component::draw_mixer(
        &mut expected,
        Point::new(100, 100),
        Point::new(95, 150),
        Point::new(205, 150),
    );
    Component::draw_source(&mut expected, Point::new(10, 20), Point::new(65, 70));
    assert_eq!(all, expected);
}

#[test]
fn test_component_equality_compares_block_ids() {
    let a = Component::Mixer {
        at: Some(Point::new(1, 2)),
        input: None,
        output: None,
        block: Some(1),
    };
    let b = Component::Mixer {
        at: Some(Point::new(1, 2)),
        input: None,
        output: None,
        block: Some(1),
    };
    let c = Component::Mixer {
        at: Some(Point::new(1, 2)),
        input: None,
        output: None,
        block: Some(2),
    };
    assert_eq!(a, b);
    assert_ne!(a, c);
    assert_ne!(a, Component::connector());
    assert_eq!(Component::default(), Component::connector());
}

#[test]
fn test_ports_and_hit_test() {
    let mixer = placed_mixer();
    assert_eq!(mixer.get_input(), Some(Point::new(95, 150)));
    assert_eq!(mixer.get_output(), Some(Point::new(205, 150)));
    assert!(mixer.on_input(Point::new(99, 146)));
    assert!(!mixer.on_input(Point::new(100, 150)));
    assert!(mixer.on_output(Point::new(201, 150)));
    assert!(!mixer.on_output(Point::new(205, 155)));
    let sink = place_sink(Point::new(0, 0)).unwrap();
    assert_eq!(sink.get_output(), None);
    assert!(!sink.on_output(Point::new(0, 0)));
}

#[test]
fn test_mouse_interaction_hint() {
    let components = vec![placed_mixer()];
    // Fresh connector gesture: grab over an output port, crosshair away
    // from one.
    let hint = mouse_interaction_hint(
        &Component::connector(),
        &None,
        &components,
        Point::new(205, 150),
        true,
    );
    assert_eq!(hint, CursorHint::Grab);
    let hint = mouse_interaction_hint(
        &Component::connector(),
        &None,
        &components,
        Point::new(400, 400),
        true,
    );
    assert_eq!(hint, CursorHint::Crosshair);
    // Away from the canvas the platform default cursor is kept.
    let hint = mouse_interaction_hint(
        &Component::connector(),
        &None,
        &components,
        Point::new(205, 150),
        false,
    );
    assert_eq!(hint, CursorHint::Idle);
    // With a pending start, the target is an input port.
    let pending = Some(Pending::One {
        from: Point::new(205, 150),
    });
    let hint = mouse_interaction_hint(
        &Component::connector(),
        &pending,
        &components,
        Point::new(95, 150),
        true,
    );
    assert_eq!(hint, CursorHint::Grab);
    // Outside connector mode the canvas shows a crosshair.
    let hint = mouse_interaction_hint(
        &Component::mixer(),
        &None,
        &components,
        Point::new(205, 150),
        true,
    );
    assert_eq!(hint, CursorHint::Crosshair);
}
