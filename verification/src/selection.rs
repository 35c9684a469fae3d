//! The selection transform engine: turns pointer drags on the handles of a
//! selection into new selection bounds or into a translation.
//!
//! Each of the four corner handles resizes the selection while the opposite
//! corner stays where it is; the body translates it. A resize never lets the
//! selection shrink below `SELECTION_MIN` along either axis.

use vstd::prelude::*;
use crate::geometry::{box_model, vector_model, Aabb, BoxModel, Vector2, VectorModel};
use crate::units::{document_length, to_document_length, UNIT};

verus! {

/// Edge length of a resize handle, in whole device pixels.
pub const RESIZE_NODE_SIZE: i32 = 22;

/// The smallest extent, in sub-units, that a resize leaves a selection with.
pub const SELECTION_MIN: i64 = 3000;

/// A corner of the selection. The y axis points down, so the top edge is the
/// one with the smaller y coordinate.
#[derive(Clone, Copy, Debug, PartialEq, Eq, Structural)]
pub enum Corner {
    TopLeft,
    TopRight,
    BottomLeft,
    BottomRight,
}

/// What a drag can take hold of.
#[derive(Clone, Copy, Debug, PartialEq, Eq, Structural)]
pub enum Handle {
    /// The resize handle at a corner.
    Resize(Corner),
    /// The body of the selection.
    Translate,
}

/// The interaction that is in progress.
#[derive(Clone, Copy, Debug, PartialEq, Eq, Structural)]
pub enum Interaction {
    Idle,
    ResizingFromCorner(Corner),
    Translating,
}

/// What the input layer reports about a drag.
#[derive(Clone, Copy, Debug, PartialEq, Eq, Structural)]
pub enum DragEvent {
    /// A drag has started on the given handle.
    Begin(Handle),
    /// The pointer has moved; the vector is the delta in device space.
    Update(Vector2),
    /// The drag has ended or was abandoned.
    End,
}

/// What the owner of the selection is asked to do.
#[derive(Clone, Copy, Debug, PartialEq, Eq, Structural)]
pub enum GeometryCommand {
    /// Give the selection these bounds.
    ResizeSelection(Aabb),
    /// Shift the selection by this offset, in document space.
    TranslateSelection(Vector2),
}

/// The mathematical model of a `GeometryCommand`.
pub enum CommandModel {
    Resize(BoxModel),
    Translate(VectorModel),
}

impl View for GeometryCommand {
    type V = CommandModel;

    open spec fn view(&self) -> CommandModel {
        match *self {
            GeometryCommand::ResizeSelection(bounds) => CommandModel::Resize(bounds@),
            GeometryCommand::TranslateSelection(offset) => CommandModel::Translate(offset@),
        }
    }
}

/// The model of an optional command.
pub open spec fn command_model(command: Option<GeometryCommand>) -> Option<CommandModel> {
    match command {
        Some(c) => Some(c@),
        None => None,
    }
}

/// A device-space delta brought into document space, component by component.
pub open spec fn document_offset_model(delta: VectorModel, scale: int) -> VectorModel
    recommends
        scale > 0,
{
    VectorModel { x: document_length(delta.x, scale), y: document_length(delta.y, scale) }
}

/// The selection with only the two edges next to `corner` moved by `offset`.
/// Nothing keeps the result from being inverted.
pub open spec fn dragged(corner: Corner, selection: BoxModel, offset: VectorModel) -> BoxModel {
    match corner {
        Corner::TopLeft => BoxModel { mins: selection.mins.plus(offset), maxs: selection.maxs },
        Corner::TopRight => BoxModel {
            mins: VectorModel { x: selection.mins.x, y: selection.mins.y + offset.y },
            maxs: VectorModel { x: selection.maxs.x + offset.x, y: selection.maxs.y },
        },
        Corner::BottomLeft => BoxModel {
            mins: VectorModel { x: selection.mins.x + offset.x, y: selection.mins.y },
            maxs: VectorModel { x: selection.maxs.x, y: selection.maxs.y + offset.y },
        },
        Corner::BottomRight => BoxModel { mins: selection.mins, maxs: selection.maxs.plus(offset) },
    }
}

/// The corner of `bounds` that lies opposite to `corner`: the one that a
/// drag on `corner` leaves fixed.
pub open spec fn anchor(corner: Corner, bounds: BoxModel) -> VectorModel {
    match corner {
        Corner::TopLeft => bounds.maxs,
        Corner::TopRight => VectorModel { x: bounds.mins.x, y: bounds.maxs.y },
        Corner::BottomLeft => VectorModel { x: bounds.maxs.x, y: bounds.mins.y },
        Corner::BottomRight => bounds.mins,
    }
}

/// The square of edge length `extent` that has one corner on the anchor of
/// `bounds` and reaches from there towards `corner`.
pub open spec fn min_bound(corner: Corner, bounds: BoxModel, extent: int) -> BoxModel {
    let fixed = anchor(corner, bounds);
    match corner {
        Corner::TopLeft => BoxModel {
            mins: VectorModel { x: fixed.x - extent, y: fixed.y - extent },
            maxs: fixed,
        },
        Corner::TopRight => BoxModel {
            mins: VectorModel { x: fixed.x, y: fixed.y - extent },
            maxs: VectorModel { x: fixed.x + extent, y: fixed.y },
        },
        Corner::BottomLeft => BoxModel {
            mins: VectorModel { x: fixed.x - extent, y: fixed.y },
            maxs: VectorModel { x: fixed.x, y: fixed.y + extent },
        },
        Corner::BottomRight => BoxModel {
            mins: fixed,
            maxs: VectorModel { x: fixed.x + extent, y: fixed.y + extent },
        },
    }
}

/// The bounds that a drag of `corner` by `offset` gives the selection: the
/// dragged box, clamped from below by the minimum square at its anchor.
pub open spec fn resized(corner: Corner, selection: BoxModel, offset: VectorModel) -> BoxModel {
    let raw = dragged(corner, selection, offset);
    raw.clamped(Some(min_bound(corner, raw, SELECTION_MIN as int)), None)
}

/// The interaction that follows `state` once `event` has been handled.
pub open spec fn next_interaction(state: Interaction, event: DragEvent) -> Interaction {
    match event {
        DragEvent::Begin(Handle::Resize(corner)) => Interaction::ResizingFromCorner(corner),
        DragEvent::Begin(Handle::Translate) => Interaction::Translating,
        DragEvent::Update(_) => state,
        DragEvent::End => Interaction::Idle,
    }
}

/// The offset, in document space, that a drag by `delta`, given in device
/// space, stands for. There is none where the scale factor is not positive
/// or the offset cannot be represented.
pub open spec fn offset_of(delta: VectorModel, scale: int) -> Option<VectorModel> {
    let offset = document_offset_model(delta, scale);
    if scale > 0 && offset.representable() {
        Some(offset)
    } else {
        None
    }
}

/// The bounds that the selection is given when the handle at `corner` is
/// dragged by `delta`, given in device space. There are none where the delta
/// stands for no offset, or the new bounds cannot be represented.
pub open spec fn resizing(corner: Corner, selection: BoxModel, delta: VectorModel, scale: int) -> Option<
    BoxModel,
> {
    match offset_of(delta, scale) {
        Some(offset) => if resized(corner, selection, offset).representable() {
            Some(resized(corner, selection, offset))
        } else {
            None
        },
        None => None,
    }
}

/// The command that `event` gives rise to in `state`.
///
/// Only a delta delivered during a drag produces one, and a resize needs a
/// selection to act on. A delta that has no representable outcome is dropped.
pub open spec fn reaction(
    state: Interaction,
    event: DragEvent,
    selection: Option<BoxModel>,
    scale: int,
) -> Option<CommandModel> {
    match (state, event, selection) {
        (Interaction::ResizingFromCorner(corner), DragEvent::Update(delta), Some(bounds)) => {
            match resizing(corner, bounds, delta@, scale) {
                Some(new_bounds) => Some(CommandModel::Resize(new_bounds)),
                None => None,
            }
        },
        (Interaction::Translating, DragEvent::Update(delta), _) => {
            match offset_of(delta@, scale) {
                Some(offset) => Some(CommandModel::Translate(offset)),
                None => None,
            }
        },
        _ => None,
    }
}

/// The minimum selection extent is strictly positive, and no larger than a
/// resize handle, so that a selection at its minimum cannot swallow them.
pub proof fn lemma_selection_min_is_sound()
    ensures
        0 < SELECTION_MIN <= RESIZE_NODE_SIZE * UNIT,
{
}

/// A resize leaves the corner opposite to the dragged one exactly where it
/// was, whatever the offset.
pub proof fn lemma_resize_keeps_anchor(corner: Corner, selection: BoxModel, offset: VectorModel)
    ensures
        anchor(corner, resized(corner, selection, offset)) == anchor(corner, selection),
        anchor(corner, dragged(corner, selection, offset)) == anchor(corner, selection),
{
}

/// A resize never collapses or inverts the selection: the result is valid and
/// extends at least `SELECTION_MIN` along both axes.
pub proof fn lemma_resize_keeps_minimum(corner: Corner, selection: BoxModel, offset: VectorModel)
    ensures
        resized(corner, selection, offset).is_valid(),
        resized(corner, selection, offset).width() >= SELECTION_MIN,
        resized(corner, selection, offset).height() >= SELECTION_MIN,
{
}

/// Along each axis a resize either follows the drag or, where the drag would
/// leave less than `SELECTION_MIN`, stops at exactly that extent.
pub proof fn lemma_resize_clamps_each_axis(corner: Corner, selection: BoxModel, offset: VectorModel)
    ensures
        ({
            let raw = dragged(corner, selection, offset);
            let new = resized(corner, selection, offset);
            &&& new.width() == if raw.width() >= SELECTION_MIN { raw.width() } else { SELECTION_MIN as int }
            &&& new.height() == if raw.height() >= SELECTION_MIN { raw.height() } else { SELECTION_MIN as int }
            &&& raw.width() >= SELECTION_MIN && raw.height() >= SELECTION_MIN ==> new == raw
        }),
{
}

/// A drag that starts and ends without a delta in between asks for nothing,
/// and every ended drag leaves the engine idle.
pub proof fn lemma_abandoned_drag_changes_nothing(
    state: Interaction,
    handle: Handle,
    selection: Option<BoxModel>,
    scale: int,
)
    ensures
        reaction(state, DragEvent::Begin(handle), selection, scale) is None,
        reaction(next_interaction(state, DragEvent::Begin(handle)), DragEvent::End, selection, scale) is None,
        next_interaction(next_interaction(state, DragEvent::Begin(handle)), DragEvent::End) == Interaction::Idle,
        forall|delta: Vector2| reaction(Interaction::Idle, DragEvent::Update(delta), selection, scale) is None,
{
}

/// Brings a device-space delta into document space: each component is
/// rounded to the nearest device pixel and then divided by the scale factor.
/// `None` where the scale factor is not positive or the offset cannot be
/// represented.
pub fn document_offset(delta: Vector2, scale: i64) -> (r: Option<Vector2>)
    ensures
        vector_model(r) == offset_of(delta@, scale as int),
{
    match (to_document_length(delta.x, scale), to_document_length(delta.y, scale)) {
        (Some(x), Some(y)) => Some(Vector2 { x, y }),
        _ => None,
    }
}

/// The engine. It remembers only which interaction is in progress.
#[derive(Clone, Copy, Debug)]
pub struct SelectionModifier {
    state: Interaction,
}

impl View for SelectionModifier {
    type V = Interaction;

    closed spec fn view(&self) -> Interaction {
        self.state
    }
}

impl Default for SelectionModifier {
    /// An engine with no interaction in progress.
    fn default() -> (r: Self)
        ensures
            r@ == Interaction::Idle,
    {
        SelectionModifier { state: Interaction::Idle }
    }
}

impl SelectionModifier {
    /// An engine with no interaction in progress.
    pub fn new() -> (r: Self)
        ensures
            r@ == Interaction::Idle,
    {
        SelectionModifier { state: Interaction::Idle }
    }

    /// The interaction in progress.
    pub fn interaction(&self) -> (r: Interaction)
        ensures
            r == self@,
    {
        self.state
    }

    /// The bounds that a drag of `corner` by `offset`, given in document
    /// space, gives the selection; `None` where they cannot be represented.
    pub fn resize(corner: Corner, selection: Aabb, offset: Vector2) -> (r: Option<Aabb>)
        ensures
            r is Some <==> resized(corner, selection@, offset@).representable(),
            r matches Some(bounds) ==> bounds@ == resized(corner, selection@, offset@),
            r matches Some(bounds) ==> bounds@.is_valid() && bounds@.width() >= SELECTION_MIN
                && bounds@.height() >= SELECTION_MIN,
            r matches Some(bounds) ==> anchor(corner, bounds@) == anchor(corner, selection@),
    {
        let min_x: i128 = selection.mins.x as i128;
        let min_y: i128 = selection.mins.y as i128;
        let max_x: i128 = selection.maxs.x as i128;
        let max_y: i128 = selection.maxs.y as i128;
        let dx: i128 = offset.x as i128;
        let dy: i128 = offset.y as i128;
        let least: i128 = SELECTION_MIN as i128;
        let (new_min_x, new_max_x): (i128, i128) = match corner {
            Corner::TopLeft | Corner::BottomLeft => (lesser(min_x + dx, max_x - least), max_x),
            Corner::TopRight | Corner::BottomRight => (min_x, greater(max_x + dx, min_x + least)),
        };
        let (new_min_y, new_max_y): (i128, i128) = match corner {
            Corner::TopLeft | Corner::TopRight => (lesser(min_y + dy, max_y - least), max_y),
            Corner::BottomLeft | Corner::BottomRight => (min_y, greater(max_y + dy, min_y + least)),
        };
        if in_range(new_min_x) && in_range(new_min_y) && in_range(new_max_x) && in_range(new_max_y) {
            Some(
                Aabb {
                    mins: Vector2 { x: new_min_x as i64, y: new_min_y as i64 },
                    maxs: Vector2 { x: new_max_x as i64, y: new_max_y as i64 },
                },
            )
        } else {
            None
        }
    }

    /// The bounds that a drag of `corner` by `delta`, given in device space,
    /// gives the selection; `None` where the delta is dropped.
    fn resize_by_delta(corner: Corner, selection: Aabb, delta: Vector2, scale: i64) -> (r: Option<Aabb>)
        ensures
            box_model(r) == resizing(corner, selection@, delta@, scale as int),
    {
        match document_offset(delta, scale) {
            Some(offset) => Self::resize(corner, selection, offset),
            None => None,
        }
    }

    /// The reaction of the top-left handle to a drag by `delta`, given in
    /// device space: the new bounds of the selection. The maximum corner
    /// stays where it is. `None` where the delta is dropped.
    pub fn resize_tl(selection: Aabb, delta: Vector2, scale: i64) -> (r: Option<Aabb>)
        ensures
            box_model(r) == resizing(Corner::TopLeft, selection@, delta@, scale as int),
            r matches Some(bounds) ==> bounds.maxs == selection.maxs,
    {
        Self::resize_by_delta(Corner::TopLeft, selection, delta, scale)
    }

    /// The reaction of the top-right handle to a drag by `delta`, given in
    /// device space: the new bounds of the selection. The left and the
    /// bottom edge stay where they are. `None` where the delta is dropped.
    pub fn resize_tr(selection: Aabb, delta: Vector2, scale: i64) -> (r: Option<Aabb>)
        ensures
            box_model(r) == resizing(Corner::TopRight, selection@, delta@, scale as int),
            r matches Some(bounds) ==> bounds.mins.x == selection.mins.x && bounds.maxs.y
                == selection.maxs.y,
    {
        Self::resize_by_delta(Corner::TopRight, selection, delta, scale)
    }

    /// The reaction of the bottom-left handle to a drag by `delta`, given in
    /// device space: the new bounds of the selection. The right and the top
    /// edge stay where they are. `None` where the delta is dropped.
    pub fn resize_bl(selection: Aabb, delta: Vector2, scale: i64) -> (r: Option<Aabb>)
        ensures
            box_model(r) == resizing(Corner::BottomLeft, selection@, delta@, scale as int),
            r matches Some(bounds) ==> bounds.maxs.x == selection.maxs.x && bounds.mins.y
                == selection.mins.y,
    {
        Self::resize_by_delta(Corner::BottomLeft, selection, delta, scale)
    }

    /// The reaction of the bottom-right handle to a drag by `delta`, given in
    /// device space: the new bounds of the selection. The minimum corner
    /// stays where it is. `None` where the delta is dropped.
    pub fn resize_br(selection: Aabb, delta: Vector2, scale: i64) -> (r: Option<Aabb>)
        ensures
            box_model(r) == resizing(Corner::BottomRight, selection@, delta@, scale as int),
            r matches Some(bounds) ==> bounds.mins == selection.mins,
    {
        Self::resize_by_delta(Corner::BottomRight, selection, delta, scale)
    }

    /// The reaction of the body of the selection to a drag by `delta`, given
    /// in device space: the offset, in document space, to translate the
    /// selection by. Nothing is clamped, as a translation cannot collapse a
    /// box. `None` where the delta is dropped.
    pub fn translate_node(delta: Vector2, scale: i64) -> (r: Option<Vector2>)
        ensures
            vector_model(r) == offset_of(delta@, scale as int),
    {
        document_offset(delta, scale)
    }

    /// Handles one event of the input layer and says what, if anything, the
    /// owner of the selection is to do. `selection` is the current selection
    /// bounds, if there is a selection; `scale` is the scale factor from
    /// document space to device space, in thousandths.
    pub fn dispatch(&mut self, event: DragEvent, selection: Option<Aabb>, scale: i64) -> (r: Option<
        GeometryCommand,
    >)
        ensures
            final(self)@ == next_interaction(old(self)@, event),
            command_model(r) == reaction(old(self)@, event, box_model(selection), scale as int),
    {
        match event {
            DragEvent::Begin(Handle::Resize(corner)) => {
                self.state = Interaction::ResizingFromCorner(corner);
                None
            },
            DragEvent::Begin(Handle::Translate) => {
                self.state = Interaction::Translating;
                None
            },
            DragEvent::End => {
                self.state = Interaction::Idle;
                None
            },
            DragEvent::Update(delta) => {
                match (self.state, selection) {
                    (Interaction::ResizingFromCorner(corner), Some(bounds)) => {
                        let new_bounds = match corner {
                            Corner::TopLeft => Self::resize_tl(bounds, delta, scale),
                            Corner::TopRight => Self::resize_tr(bounds, delta, scale),
                            Corner::BottomLeft => Self::resize_bl(bounds, delta, scale),
                            Corner::BottomRight => Self::resize_br(bounds, delta, scale),
                        };
                        match new_bounds {
                            Some(new_bounds) => Some(GeometryCommand::ResizeSelection(new_bounds)),
                            None => None,
                        }
                    },
                    (Interaction::Translating, _) => {
                        match Self::translate_node(delta, scale) {
                            Some(offset) => Some(GeometryCommand::TranslateSelection(offset)),
                            None => None,
                        }
                    },
                    _ => None,
                }
            },
        }
    }
}

/// The smaller of two wide integers.
fn lesser(a: i128, b: i128) -> (r: i128)
    ensures
        r == if a <= b { a } else { b },
{
    if a <= b {
        a
    } else {
        b
    }
}

/// The larger of two wide integers.
fn greater(a: i128, b: i128) -> (r: i128)
    ensures
        r == if a >= b { a } else { b },
{
    if a >= b {
        a
    } else {
        b
    }
}

/// Whether a wide integer can be held in a coordinate.
fn in_range(v: i128) -> (r: bool)
    ensures
        r == crate::units::fits(v as int),
{
    -9223372036854775808i128 <= v && v <= 9223372036854775807i128
}

} // verus!
