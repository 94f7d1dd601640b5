use vstd::prelude::*;

use crate::geometry::{
    calculate_overlay_position, overlay_position, AbsolutePosition, PhysicalPosition, Position,
    Size,
};
use crate::registry::OverlayRegistry;

verus! {

/// Failures of overlay operations.
#[derive(Clone, Copy, Debug, PartialEq, Eq, Structural)]
pub enum OverlayError {
    /// An overlay with this label already has a window.
    LabelInUse,
    /// The primary window's state could not be read.
    QueryFailed,
    /// The host could not create the overlay window.
    WindowCreationFailed,
    /// The host could not move or resize the overlay window.
    WindowOperationFailed,
    /// No GPU adapter can render to the overlay's surface.
    AdapterUnavailable,
    /// The GPU device could not be created.
    DeviceCreationFailed,
    /// The next surface image could not be acquired.
    SurfaceAcquisitionFailed,
}

/// Geometry to give an overlay window: absolute position and size.
#[derive(Clone, Copy, Debug, PartialEq, Eq, Structural)]
pub struct WindowPlacement {
    pub position: AbsolutePosition,
    pub size: Size,
}

/// A reposition command for one overlay window.
#[derive(Debug)]
pub struct OverlayMove {
    pub label: String,
    pub position: AbsolutePosition,
}

/// The placement of an overlay with offset `offset` and size `size` while the
/// primary window is at `main_pos`.
pub open spec fn placement(main_pos: PhysicalPosition, offset: Position, size: Size)
    -> WindowPlacement
{
    WindowPlacement { position: overlay_position(main_pos, offset), size }
}

/// What an update of `label` asks of the host: nothing for a label that has
/// no overlay, else the placement computed afresh from the new offset.
pub open spec fn update_plan(
    overlays: Map<Seq<char>, Position>,
    label: Seq<char>,
    offset: Position,
    size: Size,
    main_pos: PhysicalPosition,
) -> Option<WindowPlacement> {
    if overlays.contains_key(label) {
        Some(placement(main_pos, offset, size))
    } else {
        None
    }
}

/// The registry after an update of `label`: the new offset for a registered
/// label, unchanged otherwise.
pub open spec fn after_update(
    overlays: Map<Seq<char>, Position>,
    label: Seq<char>,
    offset: Position,
) -> Map<Seq<char>, Position> {
    if overlays.contains_key(label) {
        overlays.insert(label, offset)
    } else {
        overlays
    }
}

/// `moves` repositions exactly the registered overlays, each once, to the
/// primary position plus its stored offset.
pub open spec fn covers(
    overlays: Map<Seq<char>, Position>,
    main_pos: PhysicalPosition,
    moves: Seq<OverlayMove>,
) -> bool {
    &&& forall|i: int|
        0 <= i < moves.len() ==> {
            &&& overlays.contains_key(#[trigger] moves[i].label@)
            &&& moves[i].position == overlay_position(main_pos, overlays[moves[i].label@])
        }
    &&& forall|l: Seq<char>|
        #[trigger] overlays.contains_key(l) ==> exists|i: int|
            0 <= i < moves.len() && #[trigger] moves[i].label@ == l
    &&& forall|i: int, j: int|
        0 <= i < moves.len() && 0 <= j < moves.len() && i != j ==> #[trigger] moves[i].label@
            != #[trigger] moves[j].label@
}

/// Every registered overlay's window stands at the primary position plus its
/// stored offset.
pub open spec fn consistent(
    overlays: Map<Seq<char>, Position>,
    windows: Map<Seq<char>, AbsolutePosition>,
    main_pos: PhysicalPosition,
) -> bool {
    forall|l: Seq<char>|
        #[trigger] overlays.contains_key(l) ==> windows.contains_key(l) && windows[l]
            == overlay_position(main_pos, overlays[l])
}

/// Window positions after the host carried out `moves`.
pub open spec fn apply_moves(
    windows: Map<Seq<char>, AbsolutePosition>,
    moves: Seq<OverlayMove>,
) -> Map<Seq<char>, AbsolutePosition> {
    Map::new(
        |l: Seq<char>|
            windows.contains_key(l) || exists|i: int| 0 <= i < moves.len() && moves[i].label@ == l,
        |l: Seq<char>|
            if exists|i: int| 0 <= i < moves.len() && moves[i].label@ == l {
                moves[choose|i: int| 0 <= i < moves.len() && moves[i].label@ == l].position
            } else {
                windows[l]
            },
    )
}

impl OverlayRegistry {
    /// Decides the creation of an overlay window: refused for a label that
    /// already has one, else placed at the primary position plus `offset`.
    /// Nothing is recorded: `register` follows once the host made the window.
    pub fn plan_create(
        &self,
        label: &String,
        offset: Position,
        size: Size,
        main_pos: PhysicalPosition,
    ) -> (r: Result<WindowPlacement, OverlayError>)
        requires
            self.wf(),
        ensures
            self@.contains_key(label@) ==> r == Err::<WindowPlacement, OverlayError>(
                OverlayError::LabelInUse,
            ),
            !self@.contains_key(label@) ==> r == Ok::<WindowPlacement, OverlayError>(
                placement(main_pos, offset, size),
            ),
    {
        if self.is_registered(label) {
            Err(OverlayError::LabelInUse)
        } else {
            Ok(WindowPlacement { position: calculate_overlay_position(main_pos, &offset), size })
        }
    }

    /// Decides the update of an overlay window: `None` for a label with no
    /// overlay, else the placement from the new offset, never from the old one.
    /// `register` follows once the host moved and resized the window.
    pub fn plan_update(
        &self,
        label: &String,
        offset: Position,
        size: Size,
        main_pos: PhysicalPosition,
    ) -> (r: Option<WindowPlacement>)
        requires
            self.wf(),
        ensures
            r == update_plan(self@, label@, offset, size, main_pos),
    {
        if self.is_registered(label) {
            Some(WindowPlacement { position: calculate_overlay_position(main_pos, &offset), size })
        } else {
            None
        }
    }
}

/// Updating twice with the same arguments asks the same placement of the host
/// and leaves the same registry as updating once.
pub proof fn lemma_update_idempotent(
    overlays: Map<Seq<char>, Position>,
    label: Seq<char>,
    offset: Position,
    size: Size,
    main_pos: PhysicalPosition,
)
    ensures
        update_plan(after_update(overlays, label, offset), label, offset, size, main_pos)
            == update_plan(overlays, label, offset, size, main_pos),
        after_update(after_update(overlays, label, offset), label, offset) == after_update(
            overlays,
            label,
            offset,
        ),
{
    if overlays.contains_key(label) {
        assert(overlays.insert(label, offset).insert(label, offset) =~= overlays.insert(
            label,
            offset,
        ));
    }
}

/// Registering an overlay whose window the host placed as planned keeps every
/// registered window at the primary position plus its offset.
pub proof fn lemma_register_keeps_consistent(
    overlays: Map<Seq<char>, Position>,
    windows: Map<Seq<char>, AbsolutePosition>,
    main_pos: PhysicalPosition,
    label: Seq<char>,
    offset: Position,
    size: Size,
)
    requires
        consistent(overlays, windows, main_pos),
    ensures
        consistent(
            overlays.insert(label, offset),
            windows.insert(label, placement(main_pos, offset, size).position),
            main_pos,
        ),
{
}

/// Once the host carried out the moves computed for a new primary position,
/// every registered window stands at that position plus its offset, whatever
/// the windows' positions were before.
pub proof fn lemma_move_restores_consistent(
    overlays: Map<Seq<char>, Position>,
    windows: Map<Seq<char>, AbsolutePosition>,
    main_pos: PhysicalPosition,
    moves: Seq<OverlayMove>,
)
    requires
        covers(overlays, main_pos, moves),
    ensures
        consistent(overlays, apply_moves(windows, moves), main_pos),
{
    let after = apply_moves(windows, moves);
    assert forall|l: Seq<char>| #[trigger] overlays.contains_key(l) implies after.contains_key(l)
        && after[l] == overlay_position(main_pos, overlays[l]) by {
        let i = choose|i: int| 0 <= i < moves.len() && #[trigger] moves[i].label@ == l;
        assert(moves[i].label@ == l);
        let k = choose|k: int| 0 <= k < moves.len() && moves[k].label@ == l;
        assert(overlays.contains_key(moves[k].label@));
    }
}

} // verus!
