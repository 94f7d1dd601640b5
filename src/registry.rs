use vstd::prelude::*;

use crate::geometry::{calculate_overlay_position, overlay_position, PhysicalPosition, Position};
use crate::lifecycle::{covers, OverlayMove};

verus! {

/// A live overlay: its window label and its offset from the primary window.
#[derive(Debug)]
pub struct OverlayWindowConfig {
    pub label: String,
    pub position: Position,
}

/// The overlays that have a window, keyed by label. Seen as a map from label
/// to offset.
pub struct OverlayRegistry {
    entries: Vec<OverlayWindowConfig>,
    model: Ghost<Map<Seq<char>, Position>>,
}

impl View for OverlayRegistry {
    type V = Map<Seq<char>, Position>;

    closed spec fn view(&self) -> Map<Seq<char>, Position> {
        self.model@
    }
}

impl OverlayRegistry {
    /// The entries hold each label once and agree with the map.
    pub closed spec fn wf(&self) -> bool {
        &&& forall|i: int, j: int|
            0 <= i < j < self.entries@.len() ==> #[trigger] self.entries@[i].label@
                != #[trigger] self.entries@[j].label@
        &&& forall|i: int|
            0 <= i < self.entries@.len() ==> {
                &&& self.model@.contains_key(#[trigger] self.entries@[i].label@)
                &&& self.model@[self.entries@[i].label@] == self.entries@[i].position
            }
        &&& forall|l: Seq<char>|
            #[trigger] self.model@.contains_key(l) ==> exists|i: int|
                0 <= i < self.entries@.len() && #[trigger] self.entries@[i].label@ == l
    }

    /// An empty registry.
    pub fn new() -> (r: OverlayRegistry)
        ensures
            r.wf(),
            r@ == Map::<Seq<char>, Position>::empty(),
    {
        OverlayRegistry { entries: Vec::new(), model: Ghost(Map::empty()) }
    }

    /// The index of the entry for `label`, if there is one.
    fn find(&self, label: &String) -> (r: Option<usize>)
        requires
            self.wf(),
        ensures
            match r {
                Some(i) => i < self.entries@.len() && self.entries@[i as int].label@ == label@,
                None => !self@.contains_key(label@),
            },
    {
        let mut i: usize = 0;
        while i < self.entries.len()
            invariant
                self.wf(),
                i <= self.entries@.len(),
                forall|j: int| 0 <= j < i ==> #[trigger] self.entries@[j].label@ != label@,
            decreases self.entries@.len() - i,
        {
            if self.entries[i].label == *label {
                return Some(i);
            }
            i = i + 1;
        }
        None
    }

    /// Whether an overlay with `label` is registered.
    pub fn is_registered(&self, label: &String) -> (r: bool)
        requires
            self.wf(),
        ensures
            r == self@.contains_key(label@),
    {
        match self.find(label) {
            Some(_) => true,
            None => false,
        }
    }

    /// The offset stored for `label`, if it is registered.
    pub fn offset_of(&self, label: &String) -> (r: Option<Position>)
        requires
            self.wf(),
        ensures
            r == (if self@.contains_key(label@) {
                Some(self@[label@])
            } else {
                None::<Position>
            }),
    {
        match self.find(label) {
            Some(i) => Some(self.entries[i].position),
            None => None,
        }
    }

    /// Records `position` as the offset of `label`, adding the label or
    /// replacing its offset.
    pub fn register(&mut self, label: String, position: Position)
        requires
            old(self).wf(),
        ensures
            final(self).wf(),
            final(self)@ == old(self)@.insert(label@, position),
    {
        let ghost l = label@;
        let ghost mut k: int = 0;
        match self.find(&label) {
            Some(i) => {
                proof {
                    k = i as int;
                }
                self.entries.set(i, OverlayWindowConfig { label, position });
            },
            None => {
                proof {
                    k = self.entries@.len() as int;
                    assert forall|j: int| 0 <= j < self.entries@.len() implies
                        #[trigger] self.entries@[j].label@ != l by {
                        assert(self.model@.contains_key(self.entries@[j].label@));
                    }
                }
                self.entries.push(OverlayWindowConfig { label, position });
            },
        }
        self.model = Ghost(self.model@.insert(l, position));
        assert(self.entries@[k].label@ == l);
        assert forall|l2: Seq<char>| #[trigger] self.model@.contains_key(l2) implies exists|
            j: int,
        | 0 <= j < self.entries@.len() && #[trigger] self.entries@[j].label@ == l2 by {
            if l2 != l {
                let j = choose|j: int|
                    0 <= j < old(self).entries@.len() && old(self).entries@[j].label@ == l2;
                assert(self.entries@[j].label@ == l2);
            } else {
                assert(self.entries@[k].label@ == l2);
            }
        }
    }

    /// Forgets the overlay of `label`, once its window is gone. Tells whether
    /// it was registered.
    pub fn unregister(&mut self, label: &String) -> (r: bool)
        requires
            old(self).wf(),
        ensures
            final(self).wf(),
            final(self)@ == old(self)@.remove(label@),
            r == old(self)@.contains_key(label@),
    {
        match self.find(label) {
            Some(i) => {
                let ghost old_entries = self.entries@;
                let _removed = self.entries.remove(i);
                self.model = Ghost(self.model@.remove(label@));
                assert forall|j: int| 0 <= j < self.entries@.len() implies {
                    &&& self.model@.contains_key(#[trigger] self.entries@[j].label@)
                    &&& self.model@[self.entries@[j].label@] == self.entries@[j].position
                } by {
                    let k = if j < i { j } else { j + 1 };
                    assert(self.entries@[j] == old_entries[k]);
                    assert(old_entries[k].label@ != old_entries[i as int].label@);
                }
                assert forall|a: int, b: int|
                    0 <= a < b < self.entries@.len() implies #[trigger] self.entries@[a].label@
                        != #[trigger] self.entries@[b].label@ by {
                    let ka = if a < i { a } else { a + 1 };
                    let kb = if b < i { b } else { b + 1 };
                    assert(self.entries@[a] == old_entries[ka]);
                    assert(self.entries@[b] == old_entries[kb]);
                }
                assert forall|l: Seq<char>| #[trigger] self.model@.contains_key(l) implies exists|
                    j: int,
                | 0 <= j < self.entries@.len() && #[trigger] self.entries@[j].label@ == l by {
                    let k = choose|k: int| 0 <= k < old_entries.len() && old_entries[k].label@ == l;
                    assert(k != i);
                    let j = if k < i { k } else { k - 1 };
                    assert(self.entries@[j] == old_entries[k]);
                }
                true
            },
            None => {
                assert(self.model@.remove(label@) =~= self.model@);
                false
            },
        }
    }

    /// The reposition commands for a move of the primary window to
    /// `main_pos`: one per registered overlay, to `main_pos` plus its offset.
    pub fn reposition_all(&self, main_pos: PhysicalPosition) -> (r: Vec<OverlayMove>)
        requires
            self.wf(),
        ensures
            covers(self@, main_pos, r@),
    {
        let mut moves: Vec<OverlayMove> = Vec::new();
        let mut i: usize = 0;
        while i < self.entries.len()
            invariant
                self.wf(),
                i <= self.entries@.len(),
                moves@.len() == i,
                forall|j: int|
                    0 <= j < i ==> {
                        &&& #[trigger] moves@[j].label@ == self.entries@[j].label@
                        &&& moves@[j].position == overlay_position(
                            main_pos,
                            self.entries@[j].position,
                        )
                    },
            decreases self.entries@.len() - i,
        {
            let entry = &self.entries[i];
            let position = calculate_overlay_position(main_pos, &entry.position);
            moves.push(OverlayMove { label: entry.label.clone(), position });
            i = i + 1;
        }
        proof {
            assert forall|l: Seq<char>| #[trigger] self@.contains_key(l) implies exists|j: int|
                0 <= j < moves@.len() && #[trigger] moves@[j].label@ == l by {
                let j = choose|j: int| 0 <= j < self.entries@.len() && self.entries@[j].label@ == l;
                assert(moves@[j].label@ == l);
            }
            assert forall|a: int, b: int|
                0 <= a < moves@.len() && 0 <= b < moves@.len() && a != b
                    implies #[trigger] moves@[a].label@ != #[trigger] moves@[b].label@ by {
                if a < b {
                    assert(self.entries@[a].label@ != self.entries@[b].label@);
                } else {
                    assert(self.entries@[b].label@ != self.entries@[a].label@);
                }
            }
            assert forall|j: int| 0 <= j < moves@.len() implies {
                &&& self@.contains_key(#[trigger] moves@[j].label@)
                &&& moves@[j].position == overlay_position(main_pos, self@[moves@[j].label@])
            } by {
                assert(self.model@.contains_key(self.entries@[j].label@));
            }
        }
        moves
    }
}

} // verus!
