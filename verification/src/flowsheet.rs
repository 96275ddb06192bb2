//! Flowsheet-editor placement logic.
//!
//! The canvas of the desktop front end places unit-operation components and
//! draws connectors between their ports. Everything the editor decides —
//! where a click places a component, which port a connector snaps to, what
//! vector path each component is drawn with, and which cursor to show — is
//! computed here on integer device coordinates; the front end only forwards
//! pointer events and renders the returned path commands.

use vstd::prelude::*;

use crate::simulation::BlockId;

verus! {

/// Half the side of the square hit-test box around a port, in device
/// pixels: a cursor within (exclusive) 5 pixels of a port on both axes hits
/// it.
pub const HIT_TEST_BOUND: i64 = 5;

/// Largest coordinate magnitude the editor works with; keeps every offset
/// the drawing routines add (at most a few hundred pixels) inside `i64`.
pub const COORDINATE_BOUND: i64 = 0x3fff_ffff_ffff_ffff;

/// A point on the canvas, in integer device pixels.
#[derive(Clone, Copy, Debug, PartialEq, Eq, Structural)]
pub struct Point {
    /// Horizontal coordinate, growing rightward.
    pub x: i64,
    /// Vertical coordinate, growing downward.
    pub y: i64,
}

impl Point {
    /// Build a point from its coordinates.
    pub fn new(x: i64, y: i64) -> (r: Point)
        ensures
            r == (Point { x, y }),
    {
        Point { x, y }
    }
}

/// True when the point is within the coordinate range the editor works
/// with.
pub open spec fn in_canvas(p: Point) -> bool {
    &&& -COORDINATE_BOUND <= p.x <= COORDINATE_BOUND
    &&& -COORDINATE_BOUND <= p.y <= COORDINATE_BOUND
}

/// True when the cursor lies within the hit-test box of the port: strictly
/// inside 5 pixels on both axes.
pub open spec fn hits(cursor: Point, port: Point) -> bool {
    &&& port.x - HIT_TEST_BOUND < cursor.x < port.x + HIT_TEST_BOUND
    &&& port.y - HIT_TEST_BOUND < cursor.y < port.y + HIT_TEST_BOUND
}

/// A component placed on the flowsheet (or, with all geometry empty, a
/// placement-mode marker saying which kind the next click will place).
/// Blocks of the simulation are referred to by their identifiers.
#[derive(Clone, Copy, Debug)]
pub enum Component {
    /// A directed connector between two ports.
    Connector {
        /// Start point of the connector.
        from: Option<Point>,
        /// End point of the connector.
        to: Option<Point>,
        /// Simulation block the connector starts at, if known.
        from_block: Option<BlockId>,
        /// Simulation block the connector ends at, if known.
        to_block: Option<BlockId>,
    },
    /// A mixer icon with one input and one output port.
    Mixer {
        /// Anchor point of the icon.
        at: Option<Point>,
        /// Input port.
        input: Option<Point>,
        /// Output port.
        output: Option<Point>,
        /// Simulation block backing the icon, if known.
        block: Option<BlockId>,
    },
    /// A source icon with one output port.
    Source {
        /// Anchor point of the icon.
        at: Option<Point>,
        /// Output port.
        output: Option<Point>,
        /// Simulation block backing the icon, if known.
        block: Option<BlockId>,
    },
    /// A sink icon with one input port.
    Sink {
        /// Anchor point of the icon.
        at: Option<Point>,
        /// Input port.
        input: Option<Point>,
        /// Simulation block backing the icon, if known.
        block: Option<BlockId>,
    },
}

/// True when two optional block references name the same block (or both
/// name none).
pub fn block_refs_equal(block1: &Option<BlockId>, block2: &Option<BlockId>) -> (r: bool)
    ensures
        r == (block1 == block2),
{
    match (block1, block2) {
        (None, None) => true,
        (Some(b1), Some(b2)) => b1 == b2,
        _ => false,
    }
}

/// True when two optional points are equal.
fn opt_points_equal(p1: &Option<Point>, p2: &Option<Point>) -> (r: bool)
    ensures
        r == (p1 == p2),
{
    match (p1, p2) {
        (None, None) => true,
        (Some(a), Some(b)) => a.x == b.x && a.y == b.y,
        _ => false,
    }
}

impl Component {
    /// What equality of two components means: same kind, same geometry,
    /// same block references.
    pub open spec fn same_component(self, other: Component) -> bool {
        match (self, other) {
            (
                Component::Connector { from: from1, to: to1, from_block: from_block1, to_block: to_block1 },
                Component::Connector { from: from2, to: to2, from_block: from_block2, to_block: to_block2 },
            ) => from1 == from2 && to1 == to2 && from_block1 == from_block2 && to_block1
                == to_block2,
            (
                Component::Mixer { at: at1, input: input1, output: output1, block: block1 },
                Component::Mixer { at: at2, input: input2, output: output2, block: block2 },
            ) => at1 == at2 && input1 == input2 && output1 == output2 && block1 == block2,
            (
                Component::Source { at: at1, output: output1, block: block1 },
                Component::Source { at: at2, output: output2, block: block2 },
            ) => at1 == at2 && output1 == output2 && block1 == block2,
            (
                Component::Sink { at: at1, input: input1, block: block1 },
                Component::Sink { at: at2, input: input2, block: block2 },
            ) => at1 == at2 && input1 == input2 && block1 == block2,
            _ => false,
        }
    }

    /// A connector with no geometry: the neutral placement mode.
    pub fn connector() -> (r: Component)
        ensures
            r == (Component::Connector { from: None, to: None, from_block: None, to_block: None }),
    {
        Component::Connector { from: None, to: None, from_block: None, to_block: None }
    }

    /// A source with no geometry.
    pub fn source() -> (r: Component)
        ensures
            r == (Component::Source { at: None, output: None, block: None }),
    {
        Component::Source { at: None, output: None, block: None }
    }

    /// A sink with no geometry.
    pub fn sink() -> (r: Component)
        ensures
            r == (Component::Sink { at: None, input: None, block: None }),
    {
        Component::Sink { at: None, input: None, block: None }
    }

    /// A mixer with no geometry.
    pub fn mixer() -> (r: Component)
        ensures
            r == (Component::Mixer { at: None, input: None, output: None, block: None }),
    {
        Component::Mixer { at: None, input: None, output: None, block: None }
    }

    /// Determine if the cursor is within the hit-test box of the given
    /// port.
    pub fn is_in_bounds(&self, cursor_position: Point, input: Point) -> (r: bool)
        ensures
            r == hits(cursor_position, input),
    {
        let cx = cursor_position.x as i128;
        let cy = cursor_position.y as i128;
        let bound = HIT_TEST_BOUND as i128;
        if cx > input.x as i128 - bound && cx < input.x as i128 + bound {
            if cy > input.y as i128 - bound && cy < input.y as i128 + bound {
                return true;
            }
        }
        false
    }

    /// The component's input port, if it has one: a connector's start, a
    /// mixer's or sink's input; a source has no input.
    pub open spec fn spec_input(self) -> Option<Point> {
        match self {
            Component::Connector { from, .. } => from,
            Component::Mixer { input, .. } => input,
            Component::Sink { input, .. } => input,
            Component::Source { .. } => None,
        }
    }

    /// The component's input port, if any.
    pub fn get_input(&self) -> (r: Option<Point>)
        ensures
            r == self.spec_input(),
    {
        match self {
            Component::Connector { from, .. } => *from,
            Component::Mixer { input, .. } => *input,
            Component::Sink { input, .. } => *input,
            Component::Source { .. } => None,
        }
    }

    /// Determine if the cursor is in bounds of the input.
    pub fn on_input(&self, cursor_position: Point) -> (r: bool)
        ensures
            r == match self.spec_input() {
                Some(p) => hits(cursor_position, p),
                None => false,
            },
    {
        let input = self.get_input();
        match input {
            Some(point) => self.is_in_bounds(cursor_position, point),
            None => false,
        }
    }

    /// The component's output port, if it has one: a connector's end, a
    /// mixer's or source's output; a sink has no output.
    pub open spec fn spec_output(self) -> Option<Point> {
        match self {
            Component::Connector { to, .. } => to,
            Component::Mixer { output, .. } => output,
            Component::Source { output, .. } => output,
            Component::Sink { .. } => None,
        }
    }

    /// The component's output port, if any.
    pub fn get_output(&self) -> (r: Option<Point>)
        ensures
            r == self.spec_output(),
    {
        match self {
            Component::Connector { to, .. } => *to,
            Component::Mixer { output, .. } => *output,
            Component::Source { output, .. } => *output,
            Component::Sink { .. } => None,
        }
    }

    /// Determine if the cursor is in bounds of the output.
    pub fn on_output(&self, cursor_position: Point) -> (r: bool)
        ensures
            r == match self.spec_output() {
                Some(p) => hits(cursor_position, p),
                None => false,
            },
    {
        let output = self.get_output();
        match output {
            Some(point) => self.is_in_bounds(cursor_position, point),
            None => false,
        }
    }
}

impl PartialEq for Component {
    /// Components are compared field by field; block references compare as
    /// identifiers.
    fn eq(&self, other: &Self) -> (r: bool) {
        match (self, other) {
            (
                Component::Connector { from: from1, to: to1, from_block: from_block1, to_block: to_block1 },
                Component::Connector { from: from2, to: to2, from_block: from_block2, to_block: to_block2 },
            ) => opt_points_equal(from1, from2) && opt_points_equal(to1, to2) && block_refs_equal(
                from_block1,
                from_block2,
            ) && block_refs_equal(to_block1, to_block2),
            (
                Component::Mixer { at: at1, input: input1, output: output1, block: block1 },
                Component::Mixer { at: at2, input: input2, output: output2, block: block2 },
            ) => opt_points_equal(at1, at2) && opt_points_equal(input1, input2) && opt_points_equal(
                output1,
                output2,
            ) && block_refs_equal(block1, block2),
            (
                Component::Source { at: at1, output: output1, block: block1 },
                Component::Source { at: at2, output: output2, block: block2 },
            ) => opt_points_equal(at1, at2) && opt_points_equal(output1, output2)
                && block_refs_equal(block1, block2),
            (
                Component::Sink { at: at1, input: input1, block: block1 },
                Component::Sink { at: at2, input: input2, block: block2 },
            ) => opt_points_equal(at1, at2) && opt_points_equal(input1, input2) && block_refs_equal(
                block1,
                block2,
            ),
            _ => false,
        }
    }
}

impl vstd::std_specs::cmp::PartialEqSpecImpl for Component {
    open spec fn obeys_eq_spec() -> bool {
        true
    }

    open spec fn eq_spec(&self, other: &Component) -> bool {
        self.same_component(*other)
    }
}

impl Default for Component {
    /// The default component is the humble connector, with no geometry.
    fn default() -> (r: Component)
        ensures
            r == (Component::Connector { from: None, to: None, from_block: None, to_block: None }),
    {
        Component::Connector { from: None, to: None, from_block: None, to_block: None }
    }
}

/// One command of a vector path: the front end replays these into its
/// drawing backend.
#[derive(Clone, Copy, Debug, PartialEq, Eq, Structural)]
pub enum PathCommand {
    /// Move the pen without drawing.
    MoveTo(Point),
    /// Draw a straight segment to the point.
    LineTo(Point),
    /// Draw a circle of the given radius centred on the point.
    Circle(Point, i64),
    /// Draw an axis-aligned rectangle with the given top-left corner,
    /// width and height.
    Rectangle(Point, i64, i64),
}

/// The horizontal midpoint between the two endpoints, at which a connector
/// turns from horizontal to vertical.
pub open spec fn spec_half_x(from: Point, to: Point) -> int {
    if to.x >= from.x {
        from.x + (to.x - from.x) / 2
    } else {
        from.x - (from.x - to.x) / 2
    }
}

/// The orthogonal path of a connector: horizontal to the midpoint, vertical
/// to the end's height, horizontal to the end, then a fixed-size arrowhead
/// pointing in the direction of travel.
pub open spec fn connector_path(from: Point, to: Point) -> Seq<PathCommand> {
    let half_x = spec_half_x(from, to) as i64;
    let arrow_offset_x: int = if to.x < from.x {
        10
    } else {
        -10
    };
    seq![
        PathCommand::MoveTo(from),
        PathCommand::LineTo(Point { x: half_x, y: from.y }),
        PathCommand::LineTo(Point { x: half_x, y: to.y }),
        PathCommand::LineTo(Point { x: to.x, y: to.y }),
        PathCommand::LineTo(Point { x: (to.x + arrow_offset_x) as i64, y: (to.y + 5) as i64 }),
        PathCommand::LineTo(Point { x: (to.x + arrow_offset_x) as i64, y: (to.y - 5) as i64 }),
        PathCommand::LineTo(Point { x: to.x, y: to.y }),
    ]
}

/// The triangular body of a mixer with circles on its two ports.
pub open spec fn mixer_path(at: Point, input: Point, output: Point) -> Seq<PathCommand> {
    seq![
        PathCommand::MoveTo(at),
        PathCommand::LineTo(Point { x: at.x, y: (at.y + 100) as i64 }),
        PathCommand::LineTo(Point { x: (at.x + 100) as i64, y: (at.y + 50) as i64 }),
        PathCommand::LineTo(at),
        PathCommand::MoveTo(at),
        PathCommand::Circle(input, 5),
        PathCommand::MoveTo(at),
        PathCommand::Circle(output, 5),
    ]
}

/// The rectangular body of a source with a circle on its output port.
pub open spec fn source_path(at: Point, output: Point) -> Seq<PathCommand> {
    seq![
        PathCommand::MoveTo(at),
        PathCommand::Rectangle(at, 50, 100),
        PathCommand::Circle(output, 5),
    ]
}

/// The rectangular body of a sink with a circle on its input port.
pub open spec fn sink_path(at: Point, input: Point) -> Seq<PathCommand> {
    seq![
        PathCommand::MoveTo(at),
        PathCommand::Rectangle(at, 50, 100),
        PathCommand::MoveTo(at),
        PathCommand::Circle(input, 5),
    ]
}

impl Component {
    /// True when every geometry field the component's kind calls for is
    /// filled in.
    pub open spec fn geometry_complete(self) -> bool {
        match self {
            Component::Connector { from, to, .. } => from is Some && to is Some,
            Component::Mixer { at, input, output, .. } => at is Some && input is Some && output
                is Some,
            Component::Source { at, output, .. } => at is Some && output is Some,
            Component::Sink { at, input, .. } => at is Some && input is Some,
        }
    }

    /// True when every filled-in geometry point is within the canvas
    /// coordinate range.
    pub open spec fn geometry_in_canvas(self) -> bool {
        match self {
            Component::Connector { from, to, .. } => (from matches Some(p) ==> in_canvas(p)) && (
            to matches Some(p) ==> in_canvas(p)),
            Component::Mixer { at, input, output, .. } => (at matches Some(p) ==> in_canvas(p)) && (
            input matches Some(p) ==> in_canvas(p)) && (output matches Some(p) ==> in_canvas(p)),
            Component::Source { at, output, .. } => (at matches Some(p) ==> in_canvas(p)) && (
            output matches Some(p) ==> in_canvas(p)),
            Component::Sink { at, input, .. } => (at matches Some(p) ==> in_canvas(p)) && (
            input matches Some(p) ==> in_canvas(p)),
        }
    }

    /// The vector path a complete component is drawn with.
    pub open spec fn spec_path(self) -> Seq<PathCommand> {
        match self {
            Component::Connector { from, to, .. } => connector_path(
                from.unwrap(),
                to.unwrap(),
            ),
            Component::Mixer { at, input, output, .. } => mixer_path(
                at.unwrap(),
                input.unwrap(),
                output.unwrap(),
            ),
            Component::Source { at, output, .. } => source_path(at.unwrap(), output.unwrap()),
            Component::Sink { at, input, .. } => sink_path(at.unwrap(), input.unwrap()),
        }
    }

    /// Append the orthogonal connector path with its arrowhead.
    pub fn draw_connector(p: &mut Vec<PathCommand>, to: Point, from: Point)
        requires
            in_canvas(from),
            in_canvas(to),
        ensures
            final(p)@ == old(p)@ + connector_path(from, to),
    {
        p.push(PathCommand::MoveTo(from));
        let half_x_coord: i64 = if to.x >= from.x {
            from.x + (to.x - from.x) / 2
        } else {
            from.x - (from.x - to.x) / 2
        };
        p.push(PathCommand::LineTo(Point { x: half_x_coord, y: from.y }));
        p.push(PathCommand::LineTo(Point { x: half_x_coord, y: to.y }));
        p.push(PathCommand::LineTo(Point { x: to.x, y: to.y }));
        let arrow_offset_x: i64 = if to.x < from.x {
            10
        } else {
            -10
        };
        let arrow_offset_y: i64 = 5;
        p.push(PathCommand::LineTo(Point { x: to.x + arrow_offset_x, y: to.y + arrow_offset_y }));
        p.push(PathCommand::LineTo(Point { x: to.x + arrow_offset_x, y: to.y - arrow_offset_y }));
        p.push(PathCommand::LineTo(Point { x: to.x, y: to.y }));
        proof {
            assert(p@ =~= old(p)@ + connector_path(from, to));
        }
    }

    /// Append the mixer's triangular body and port circles.
    pub fn draw_mixer(p: &mut Vec<PathCommand>, at: Point, input: Point, output: Point)
        requires
            in_canvas(at),
        ensures
            final(p)@ == old(p)@ + mixer_path(at, input, output),
    {
        p.push(PathCommand::MoveTo(at));
        let bottom_point = Point { x: at.x, y: at.y + 100 };
        let middle_point = Point { x: at.x + 100, y: at.y + 50 };
        p.push(PathCommand::LineTo(bottom_point));
        p.push(PathCommand::LineTo(middle_point));
        p.push(PathCommand::LineTo(at));

        // A circle for input connectors, and another for outputs.
        p.push(PathCommand::MoveTo(at));
        p.push(PathCommand::Circle(input, 5));
        p.push(PathCommand::MoveTo(at));
        p.push(PathCommand::Circle(output, 5));
        proof {
            assert(p@ =~= old(p)@ + mixer_path(at, input, output));
        }
    }

    /// Append the source's rectangular body and output-port circle.
    pub fn draw_source(p: &mut Vec<PathCommand>, at: Point, output: Point)
        ensures
            final(p)@ == old(p)@ + source_path(at, output),
    {
        p.push(PathCommand::MoveTo(at));
        p.push(PathCommand::Rectangle(at, 50, 100));
        p.push(PathCommand::Circle(output, 5));
        proof {
            assert(p@ =~= old(p)@ + source_path(at, output));
        }
    }

    /// Append the sink's rectangular body and input-port circle.
    pub fn draw_sink(p: &mut Vec<PathCommand>, at: Point, input: Point)
        ensures
            final(p)@ == old(p)@ + sink_path(at, input),
    {
        p.push(PathCommand::MoveTo(at));
        p.push(PathCommand::Rectangle(at, 50, 100));
        p.push(PathCommand::MoveTo(at));
        p.push(PathCommand::Circle(input, 5));
        proof {
            assert(p@ =~= old(p)@ + sink_path(at, input));
        }
    }

    /// The concatenated paths of a run of components.
    pub open spec fn all_paths(components: Seq<Component>) -> Seq<PathCommand>
        decreases components.len(),
    {
        if components.len() == 0 {
            Seq::empty()
        } else {
            Self::all_paths(components.drop_last()) + components.last().spec_path()
        }
    }

    /// Append the paths of every placed component, in order.
    pub fn draw_all(components: &Vec<Component>, p: &mut Vec<PathCommand>)
        requires
            forall|i: int|
                0 <= i < components@.len() ==> (#[trigger] components@[i]).geometry_complete()
                    && components@[i].geometry_in_canvas(),
        ensures
            final(p)@ == old(p)@ + Self::all_paths(components@),
    {
        let mut i: usize = 0;
        while i < components.len()
            invariant
                i <= components@.len(),
                forall|k: int|
                    0 <= k < components@.len() ==> (#[trigger] components@[k]).geometry_complete()
                        && components@[k].geometry_in_canvas(),
                p@ == old(p)@ + Self::all_paths(components@.take(i as int)),
            decreases components@.len() - i,
    {
            proof {
                assert(components@.take(i + 1 as int).drop_last() =~= components@.take(i as int));
                assert(components@.take(i + 1 as int).last() == components@[i as int]);
            }
            let component = &components[i];
            match component {
                Component::Connector { from, to, .. } => {
                    let from = from.unwrap();
                    let to = to.unwrap();
                    Component::draw_connector(p, to, from);
                },
                Component::Mixer { at, input, output, .. } => {
                    let at = at.unwrap();
                    let input = input.unwrap();
                    let output = output.unwrap();
                    Component::draw_mixer(p, at, input, output);
                },
                Component::Source { at, output, .. } => {
                    let at = at.unwrap();
                    let output = output.unwrap();
                    Component::draw_source(p, at, output);
                },
                Component::Sink { at, input, .. } => {
                    let at = at.unwrap();
                    let input = input.unwrap();
                    Component::draw_sink(p, at, input);
                },
            }
            i += 1;
        }
        proof {
            assert(components@.take(components@.len() as int) =~= components@);
        }
    }
}

/// Transient state of a connector gesture whose first endpoint has been
/// placed.
#[derive(Clone, Copy, Debug, PartialEq, Eq, Structural)]
pub enum Pending {
    /// One endpoint chosen so far.
    One {
        /// The chosen start point.
        from: Point,
    },
}

/// True when the gesture may snap its start to this component: the
/// component is not itself a connector and the cursor hits its output port.
pub open spec fn output_snappable(c: Component, cursor: Point) -> bool {
    &&& !(c is Connector)
    &&& match c.spec_output() {
        Some(p) => hits(cursor, p),
        None => false,
    }
}

/// True when the gesture may snap its end to this component: the component
/// is not itself a connector and the cursor hits its input port.
pub open spec fn input_snappable(c: Component, cursor: Point) -> bool {
    &&& !(c is Connector)
    &&& match c.spec_input() {
        Some(p) => hits(cursor, p),
        None => false,
    }
}

/// The output port the cursor snaps to: the first component, in placement
/// order, whose output port it hits.
pub open spec fn first_output_snap(components: Seq<Component>, cursor: Point) -> Option<Point>
    decreases components.len(),
{
    if components.len() == 0 {
        None
    } else if output_snappable(components[0], cursor) {
        components[0].spec_output()
    } else {
        first_output_snap(components.drop_first(), cursor)
    }
}

/// The input port the cursor snaps to: the first component, in placement
/// order, whose input port it hits.
pub open spec fn first_input_snap(components: Seq<Component>, cursor: Point) -> Option<Point>
    decreases components.len(),
{
    if components.len() == 0 {
        None
    } else if input_snappable(components[0], cursor) {
        components[0].spec_input()
    } else {
        first_input_snap(components.drop_first(), cursor)
    }
}

/// When no component up to `i` snaps, the scan of the whole run equals the
/// scan of the rest.
proof fn lemma_output_snap_skip(components: Seq<Component>, cursor: Point, i: int)
    requires
        0 <= i <= components.len(),
        forall|j: int| 0 <= j < i ==> !output_snappable(#[trigger] components[j], cursor),
    ensures
        first_output_snap(components, cursor) == first_output_snap(
            components.skip(i),
            cursor,
        ),
    decreases i,
{
    if i > 0 {
        assert(first_output_snap(components, cursor) == first_output_snap(
            components.drop_first(),
            cursor,
        ));
        lemma_output_snap_skip(components.drop_first(), cursor, i - 1);
        assert(components.drop_first().skip(i - 1) =~= components.skip(i));
    } else {
        assert(components.skip(0) =~= components);
    }
}

/// When no component up to `i` snaps, the scan of the whole run equals the
/// scan of the rest.
proof fn lemma_input_snap_skip(components: Seq<Component>, cursor: Point, i: int)
    requires
        0 <= i <= components.len(),
        forall|j: int| 0 <= j < i ==> !input_snappable(#[trigger] components[j], cursor),
    ensures
        first_input_snap(components, cursor) == first_input_snap(components.skip(i), cursor),
    decreases i,
{
    if i > 0 {
        assert(first_input_snap(components, cursor) == first_input_snap(
            components.drop_first(),
            cursor,
        ));
        lemma_input_snap_skip(components.drop_first(), cursor, i - 1);
        assert(components.drop_first().skip(i - 1) =~= components.skip(i));
    } else {
        assert(components.skip(0) =~= components);
    }
}

/// Place a sink anchored at the click point, its input port 5 pixels left
/// of and 50 below the anchor.
pub fn place_sink(cursor_position: Point) -> (r: Option<Component>)
    requires
        in_canvas(cursor_position),
    ensures
        r == Some(
            Component::Sink {
                at: Some(cursor_position),
                input: Some(Point { x: (cursor_position.x - 5) as i64, y: (cursor_position.y + 50) as i64 }),
                block: None,
            },
        ),
{
    let input = Point { x: cursor_position.x - 5, y: cursor_position.y + 50 };
    Some(Component::Sink { at: Some(cursor_position), input: Some(input), block: None })
}

/// Place a source anchored at the click point, its output port 55 pixels
/// right of and 50 below the anchor.
pub fn place_source(cursor_position: Point) -> (r: Option<Component>)
    requires
        in_canvas(cursor_position),
    ensures
        r == Some(
            Component::Source {
                at: Some(cursor_position),
                output: Some(Point { x: (cursor_position.x + 55) as i64, y: (cursor_position.y + 50) as i64 }),
                block: None,
            },
        ),
{
    let output = Point { x: cursor_position.x + 55, y: cursor_position.y + 50 };
    Some(Component::Source { at: Some(cursor_position), output: Some(output), block: None })
}

/// Place a mixer anchored at the click point, its input port 5 pixels left
/// of and its output port 105 pixels right of the anchor, both 50 below.
pub fn place_mixer(cursor_position: Point) -> (r: Option<Component>)
    requires
        in_canvas(cursor_position),
    ensures
        r == Some(
            Component::Mixer {
                at: Some(cursor_position),
                input: Some(Point { x: (cursor_position.x - 5) as i64, y: (cursor_position.y + 50) as i64 }),
                output: Some(Point { x: (cursor_position.x + 105) as i64, y: (cursor_position.y + 50) as i64 }),
                block: None,
            },
        ),
{
    let input = Point { x: cursor_position.x - 5, y: cursor_position.y + 50 };
    let output = Point { x: cursor_position.x + 105, y: cursor_position.y + 50 };
    Some(
        Component::Mixer {
            at: Some(cursor_position),
            input: Some(input),
            output: Some(output),
            block: None,
        },
    )
}

/// Advance a connector gesture by one primary click.
///
/// With no gesture pending, the click chooses a start point: it snaps to
/// the output port of the first component it hits; when it hits none, the
/// raw click point starts the gesture only if floating connectors are
/// allowed, and the click is discarded otherwise. With a start pending,
/// the click chooses the end point the same way against input ports: on a
/// hit the finished connector is emitted at the snapped port; on a miss a
/// floating connector ends at the raw click point if allowed, and
/// otherwise nothing is emitted and the gesture stays pending.
pub fn place_connector(
    components: &Vec<Component>,
    state: &mut Option<Pending>,
    cursor_position: Point,
    floating_connectors: bool,
) -> (r: Option<Component>)
    ensures
        match *old(state) {
            None => r is None && *final(state) == match first_output_snap(
                components@,
                cursor_position,
            ) {
                Some(p) => Some(Pending::One { from: p }),
                None => if floating_connectors {
                    Some(Pending::One { from: cursor_position })
                } else {
                    None::<Pending>
                },
            },
            Some(Pending::One { from }) => match first_input_snap(components@, cursor_position) {
                Some(p) => r == Some(
                    Component::Connector {
                        from: Some(from),
                        to: Some(p),
                        from_block: None,
                        to_block: None,
                    },
                ) && (*final(state)) is None,
                None => if floating_connectors {
                    r == Some(
                        Component::Connector {
                            from: Some(from),
                            to: Some(cursor_position),
                            from_block: None,
                            to_block: None,
                        },
                    ) && (*final(state)) is None
                } else {
                    r is None && *final(state) == *old(state)
                },
            },
        },
{
    match *state {
        None => {
            let mut i: usize = 0;
            while i < components.len()
                invariant
                    i <= components@.len(),
                    (*state) is None,
                    (*old(state)) is None,
                    forall|j: int|
                        0 <= j < i ==> !output_snappable(
                            #[trigger] components@[j],
                            cursor_position,
                        ),
                decreases components@.len() - i,
            {
                let component = &components[i];
                let is_connector = match component {
                    Component::Connector { .. } => true,
                    _ => false,
                };
                if !is_connector && component.on_output(cursor_position) {
                    proof {
                        lemma_output_snap_skip(components@, cursor_position, i as int);
                        assert(components@.skip(i as int)[0] == components@[i as int]);
                    }
                    *state = Some(Pending::One { from: component.get_output().unwrap() });
                    return None;
                }
                i += 1;
            }
            proof {
                lemma_output_snap_skip(components@, cursor_position, components@.len() as int);
            }
            // A click that snaps to no output starts a gesture at the raw
            // point only when floating connectors are allowed.
            if floating_connectors {
                *state = Some(Pending::One { from: cursor_position });
            }
            None
        },
        Some(Pending::One { from }) => {
            let mut i: usize = 0;
            while i < components.len()
                invariant
                    i <= components@.len(),
                    *state == *old(state),
                    *old(state) == Some(Pending::One { from }),
                    forall|j: int|
                        0 <= j < i ==> !input_snappable(
                            #[trigger] components@[j],
                            cursor_position,
                        ),
                decreases components@.len() - i,
            {
                let component = &components[i];
                let is_connector = match component {
                    Component::Connector { .. } => true,
                    _ => false,
                };
                if !is_connector && component.on_input(cursor_position) {
                    proof {
                        lemma_input_snap_skip(components@, cursor_position, i as int);
                        assert(components@.skip(i as int)[0] == components@[i as int]);
                    }
                    *state = None;
                    return Some(
                        Component::Connector {
                            from: Some(from),
                            to: Some(component.get_input().unwrap()),
                            from_block: None,
                            to_block: None,
                        },
                    );
                }
                i += 1;
            }
            proof {
                lemma_input_snap_skip(components@, cursor_position, components@.len() as int);
            }
            // No input port hit: a floating connector ends at the raw
            // point when allowed; otherwise nothing is emitted and the
            // gesture stays pending.
            if floating_connectors {
                *state = None;
                Some(
                    Component::Connector {
                        from: Some(from),
                        to: Some(cursor_position),
                        from_block: None,
                        to_block: None,
                    },
                )
            } else {
                None
            }
        },
    }
}

/// Cancel any pending connector gesture (the secondary-button action).
pub fn cancel_pending(state: &mut Option<Pending>)
    ensures
        (*final(state)) is None,
{
    *state = None;
}

/// Advance the editor by one primary click, according to the active
/// placement mode: connectors go through the two-click gesture (with
/// floating connectors disallowed), the other kinds are placed
/// immediately.
pub fn handle_left_click(
    placement_mode: &Component,
    components: &Vec<Component>,
    state: &mut Option<Pending>,
    cursor_position: Point,
) -> (r: Option<Component>)
    requires
        in_canvas(cursor_position),
    ensures
        match placement_mode {
            Component::Connector { .. } => match *old(state) {
                None => r is None && *final(state) == match first_output_snap(
                    components@,
                    cursor_position,
                ) {
                    Some(p) => Some(Pending::One { from: p }),
                    None => None::<Pending>,
                },
                Some(Pending::One { from }) => match first_input_snap(
                    components@,
                    cursor_position,
                ) {
                    Some(p) => r == Some(
                        Component::Connector {
                            from: Some(from),
                            to: Some(p),
                            from_block: None,
                            to_block: None,
                        },
                    ) && (*final(state)) is None,
                    None => r is None && *final(state) == *old(state),
                },
            },
            Component::Mixer { .. } => r == Some(
                Component::Mixer {
                    at: Some(cursor_position),
                    input: Some(Point { x: (cursor_position.x - 5) as i64, y: (cursor_position.y + 50) as i64 }),
                    output: Some(Point { x: (cursor_position.x + 105) as i64, y: (cursor_position.y + 50) as i64 }),
                    block: None,
                },
            ) && *final(state) == *old(state),
            Component::Source { .. } => r == Some(
                Component::Source {
                    at: Some(cursor_position),
                    output: Some(Point { x: (cursor_position.x + 55) as i64, y: (cursor_position.y + 50) as i64 }),
                    block: None,
                },
            ) && *final(state) == *old(state),
            Component::Sink { .. } => r == Some(
                Component::Sink {
                    at: Some(cursor_position),
                    input: Some(Point { x: (cursor_position.x - 5) as i64, y: (cursor_position.y + 50) as i64 }),
                    block: None,
                },
            ) && *final(state) == *old(state),
        },
{
    match placement_mode {
        Component::Connector { .. } => place_connector(components, state, cursor_position, false),
        Component::Mixer { .. } => place_mixer(cursor_position),
        Component::Source { .. } => place_source(cursor_position),
        Component::Sink { .. } => place_sink(cursor_position),
    }
}

/// The cursor shape the canvas asks for.
#[derive(Clone, Copy, Debug, PartialEq, Eq, Structural)]
pub enum CursorHint {
    /// The platform default cursor.
    Idle,
    /// The grab affordance, over a valid snap target.
    Grab,
    /// The crosshair shown elsewhere over the canvas.
    Crosshair,
}

/// The cursor to show: the platform default away from the canvas; over it,
/// in connector placement mode, a grab affordance over a valid snap target
/// for the current gesture phase and a crosshair otherwise; a crosshair in
/// every other mode.
pub fn mouse_interaction_hint(
    placement_mode: &Component,
    state: &Option<Pending>,
    components: &Vec<Component>,
    cursor_position: Point,
    over_canvas: bool,
) -> (r: CursorHint)
    ensures
        !over_canvas ==> r == CursorHint::Idle,
        over_canvas ==> r == match placement_mode {
            Component::Connector { .. } => {
                let snapped = match state {
                    Some(Pending::One { .. }) => first_input_snap(components@, cursor_position)
                        is Some,
                    None => first_output_snap(components@, cursor_position) is Some,
                };
                if snapped {
                    CursorHint::Grab
                } else {
                    CursorHint::Crosshair
                }
            },
            _ => CursorHint::Crosshair,
        },
{
    if !over_canvas {
        return CursorHint::Idle;
    }
    match placement_mode {
        Component::Connector { .. } => {
            let pending = match state {
                Some(Pending::One { .. }) => true,
                None => false,
            };
            let mut i: usize = 0;
            while i < components.len()
                invariant
                    i <= components@.len(),
                    over_canvas,
                    placement_mode is Connector,
                    pending == (state matches Some(Pending::One { .. })),
                    pending ==> forall|j: int|
                        0 <= j < i ==> !input_snappable(
                            #[trigger] components@[j],
                            cursor_position,
                        ),
                    !pending ==> forall|j: int|
                        0 <= j < i ==> !output_snappable(
                            #[trigger] components@[j],
                            cursor_position,
                        ),
                decreases components@.len() - i,
            {
                let component = &components[i];
                let is_connector = match component {
                    Component::Connector { .. } => true,
                    _ => false,
                };
                if !is_connector {
                    if pending {
                        if component.on_input(cursor_position) {
                            proof {
                                lemma_input_snap_skip(components@, cursor_position, i as int);
                                assert(components@.skip(i as int)[0] == components@[i as int]);
                            }
                            return CursorHint::Grab;
                        }
                    } else {
                        if component.on_output(cursor_position) {
                            proof {
                                lemma_output_snap_skip(components@, cursor_position, i as int);
                                assert(components@.skip(i as int)[0] == components@[i as int]);
                            }
                            return CursorHint::Grab;
                        }
                    }
                }
                i += 1;
            }
            proof {
                if pending {
                    lemma_input_snap_skip(components@, cursor_position, components@.len() as int);
                } else {
                    lemma_output_snap_skip(components@, cursor_position, components@.len() as int);
                }
            }
            CursorHint::Crosshair
        },
        _ => CursorHint::Crosshair,
    }
}

} // verus!
