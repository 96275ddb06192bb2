//! Main-window state and message handling.
//!
//! The desktop shell delivers every user interaction as a message; this
//! module owns the model those messages act on — the placement mode, the
//! placed components and the live simulation — and decides what each
//! message does. Pane focus, dragging and resizing act only on the shell's
//! own layout objects and stay with the shell.

use vstd::prelude::*;

use crate::blocks::Block;
use crate::blocks::Mixer;
use crate::flowsheet::Component;
use crate::simulation::BlockType;
use crate::simulation::Settings;
use crate::simulation::Simulation;

verus! {

/// A leaf of the two-pane window layout.
#[derive(Clone, Copy, Debug, PartialEq, Eq, Structural)]
pub enum Pane {
    /// The flowsheet canvas.
    Canvas,
    /// The component palette.
    ComponentSelection,
}

impl Pane {
    /// The palette pane.
    pub fn new_selection() -> (r: Pane)
        ensures
            r is ComponentSelection,
    {
        Pane::ComponentSelection
    }

    /// The canvas pane.
    pub fn new_canvas() -> (r: Pane)
        ensures
            r is Canvas,
    {
        Pane::Canvas
    }
}

impl Default for Pane {
    /// The palette pane is the default.
    fn default() -> (r: Pane)
        ensures
            r is ComponentSelection,
    {
        Pane::ComponentSelection
    }
}

/// A small live-drawn preview of a component kind, shown inside palette
/// buttons.
pub struct Icon {}

impl Icon {
    /// Build the icon for a component kind.
    pub fn new(_component: Component) -> (r: Icon)
        ensures
            r == (Icon {  }),
    {
        Icon {  }
    }
}

/// Build the icon for a component kind.
pub fn icon(component: Component) -> (r: Icon)
    ensures
        r == (Icon {  }),
{
    Icon::new(component)
}

/// True when the two components are of the same kind, whatever their
/// geometry.
pub open spec fn same_kind(a: Component, b: Component) -> bool {
    match (a, b) {
        (Component::Connector { .. }, Component::Connector { .. }) => true,
        (Component::Mixer { .. }, Component::Mixer { .. }) => true,
        (Component::Source { .. }, Component::Source { .. }) => true,
        (Component::Sink { .. }, Component::Sink { .. }) => true,
        _ => false,
    }
}

/// The blank component of the same kind as the argument: the value a
/// palette click stores as placement mode.
pub open spec fn blank_of_kind(c: Component) -> Component {
    match c {
        Component::Connector { .. } => Component::Connector {
            from: None,
            to: None,
            from_block: None,
            to_block: None,
        },
        Component::Mixer { .. } => Component::Mixer {
            at: None,
            input: None,
            output: None,
            block: None,
        },
        Component::Source { .. } => Component::Source { at: None, output: None, block: None },
        Component::Sink { .. } => Component::Sink { at: None, input: None, block: None },
    }
}

/// The neutral placement mode: a blank connector.
pub open spec fn neutral_mode() -> Component {
    Component::Connector { from: None, to: None, from_block: None, to_block: None }
}

/// What a palette click does to the placement mode: clicking the kind that
/// is already active reverts to the neutral mode, clicking any other kind
/// switches directly to it.
pub open spec fn spec_toggle(current: Component, target: Component) -> Component {
    if same_kind(current, target) {
        neutral_mode()
    } else {
        blank_of_kind(target)
    }
}

/// Toggling a kind on and clicking the same kind's button again always
/// returns the placement mode to the neutral mode.
pub proof fn lemma_toggle_twice_neutral(mode: Component, target: Component)
    requires
        !same_kind(mode, target),
    ensures
        spec_toggle(spec_toggle(mode, target), target) == neutral_mode(),
{
}

/// Clicking a different kind's button switches directly to that kind,
/// without passing through the neutral mode.
pub proof fn lemma_toggle_switches_directly(mode: Component, target: Component)
    requires
        !same_kind(mode, target),
    ensures
        spec_toggle(mode, target) == blank_of_kind(target),
{
}

/// True when two components are of the same kind.
pub fn kinds_match(a: &Component, b: &Component) -> (r: bool)
    ensures
        r == same_kind(*a, *b),
{
    match (a, b) {
        (Component::Connector { .. }, Component::Connector { .. }) => true,
        (Component::Mixer { .. }, Component::Mixer { .. }) => true,
        (Component::Source { .. }, Component::Source { .. }) => true,
        (Component::Sink { .. }, Component::Sink { .. }) => true,
        _ => false,
    }
}

/// The style a palette button is rendered in.
#[derive(Clone, Copy, Debug, PartialEq, Eq, Structural)]
pub enum PlacementButtonStyle {
    /// The highlighted style of the active placement mode's button.
    Danger,
    /// The neutral style of every other button.
    Secondary,
}

/// The style for the palette button of `target_mode`: highlighted exactly
/// when it equals the active placement mode.
pub fn placement_button_style(placement_mode: &Component, target_mode: &Component) -> (r:
    PlacementButtonStyle)
    ensures
        r == if placement_mode.same_component(*target_mode) {
            PlacementButtonStyle::Danger
        } else {
            PlacementButtonStyle::Secondary
        },
{
    if placement_mode == target_mode {
        PlacementButtonStyle::Danger
    } else {
        PlacementButtonStyle::Secondary
    }
}

/// A message the main window's update function consumes. Pane focus, drag
/// and resize messages act on the shell's layout objects alone and are not
/// part of the model.
#[derive(Clone, Copy, Debug)]
pub enum Message {
    /// A finished component came off the canvas.
    AddedComponent(Component),
    /// Clear the flowsheet.
    Clear,
    /// A palette button was clicked.
    PlaceComponent(Component),
}

/// The simulation gained exactly one fresh mixer block, at the lowest free
/// identifier, and its streams are untouched.
pub open spec fn added_mixer_block(before: Simulation, after: Simulation) -> bool {
    exists|id: u64|
        {
            &&& 1 <= id
            &&& !before.blocks_map().contains_key(id)
            &&& (forall|j: u64| 1 <= j < id ==> before.blocks_map().contains_key(j))
            &&& after.blocks_map() == before.blocks_map().insert(
                id,
                Block::Mixer(Mixer { inputs: None, output: None }),
            )
            &&& #[trigger] after.streams_map() == before.streams_map()
        }
}

/// The model behind the main window: the active placement mode, the placed
/// components, and the live simulation that mixer placements feed.
pub struct MainWindow {
    /// The placement mode of the flowsheet canvas.
    pub placement_mode: Component,
    /// Every component placed on the flowsheet, in placement order.
    pub components: Vec<Component>,
    /// The live simulation the flowsheet drives.
    pub simulation: Simulation,
}

impl MainWindow {
    /// A fresh window: neutral placement mode, nothing placed, an empty
    /// simulation.
    pub fn new() -> (r: MainWindow)
        ensures
            r.placement_mode == neutral_mode(),
            r.components@ == Seq::<Component>::empty(),
            r.simulation.blocks_map() == Map::<u64, Block>::empty(),
            r.simulation.streams_map() == Map::<u64, crate::stream::Stream>::empty(),
    {
        MainWindow {
            placement_mode: Component::default(),
            components: Vec::new(),
            simulation: Simulation::new(Settings::default()),
        }
    }

    /// Consume one message.
    ///
    /// A finished component is appended to the flowsheet and, if it is a
    /// mixer, a fresh mixer block is created in the simulation (the other
    /// kinds are not wired through yet). Clearing resets the flowsheet and
    /// the placement mode but leaves the simulation's registries alone. A
    /// palette click toggles the placement mode.
    pub fn update(&mut self, message: Message)
        requires
            message matches Message::AddedComponent(c) ==> c is Mixer && old(
                self,
            ).simulation.blocks_map().len() < u64::MAX as nat,
        ensures
            match message {
                Message::AddedComponent(c) => {
                    &&& final(self).components@ == old(self).components@.push(c)
                    &&& final(self).placement_mode == old(self).placement_mode
                    &&& added_mixer_block(old(self).simulation, final(self).simulation)
                },
                Message::Clear => {
                    &&& final(self).components@ == Seq::<Component>::empty()
                    &&& final(self).placement_mode == neutral_mode()
                    &&& final(self).simulation.blocks_map() == old(self).simulation.blocks_map()
                    &&& final(self).simulation.streams_map() == old(self).simulation.streams_map()
                },
                Message::PlaceComponent(c) => {
                    &&& final(self).placement_mode == spec_toggle(old(self).placement_mode, c)
                    &&& final(self).components@ == old(self).components@
                    &&& final(self).simulation.blocks_map() == old(self).simulation.blocks_map()
                    &&& final(self).simulation.streams_map() == old(self).simulation.streams_map()
                },
            },
    {
        match message {
            Message::AddedComponent(component) => {
                self.components.push(component);
                match component {
                    Component::Mixer { .. } => {
                        let id = self.simulation.add_block(BlockType::Mixer);
                        proof {
                            assert(1 <= id && !old(self).simulation.blocks_map().contains_key(id)
                                && (forall|j: u64|
                                1 <= j < id ==> old(self).simulation.blocks_map().contains_key(j))
                                && self.simulation.blocks_map() == old(
                                self,
                            ).simulation.blocks_map().insert(
                                id,
                                Block::Mixer(Mixer { inputs: None, output: None }),
                            ) && self.simulation.streams_map() == old(
                                self,
                            ).simulation.streams_map());
                        }
                    },
                    _ => {
                        unreached::<()>();
                    },
                }
            },
            Message::Clear => {
                self.placement_mode = Component::default();
                self.components.clear();
            },
            Message::PlaceComponent(component) => {
                if kinds_match(&self.placement_mode, &component) {
                    self.placement_mode = Component::default();
                } else {
                    match component {
                        Component::Connector { .. } => {
                            self.placement_mode = Component::connector();
                        },
                        Component::Mixer { .. } => {
                            self.placement_mode = Component::mixer();
                        },
                        Component::Source { .. } => {
                            self.placement_mode = Component::source();
                        },
                        Component::Sink { .. } => {
                            self.placement_mode = Component::sink();
                        },
                    }
                }
            },
        }
    }
}

impl Default for MainWindow {
    /// Same fresh window as `MainWindow::new`.
    fn default() -> (r: MainWindow)
        ensures
            r.placement_mode == neutral_mode(),
            r.components@ == Seq::<Component>::empty(),
            r.simulation.blocks_map() == Map::<u64, Block>::empty(),
            r.simulation.streams_map() == Map::<u64, crate::stream::Stream>::empty(),
    {
        MainWindow::new()
    }
}

} // verus!
