//! Selecting units: the box that the player drags, and what it does to
//! the units' marks.

use vstd::prelude::*;
use crate::consts::SINGLE_SELECT_EXTENT;
use crate::geometry::{gap, Point};

verus! {

/// The box that the player drags to select units.
#[derive(Clone, Copy, Debug, PartialEq, Eq, Structural)]
pub struct SelectionBox {
    pub start: Point,
    pub end: Point,
    pub selecting: bool,
    /// The box is shown: a drag is under way.
    pub visible: bool,
}

/// The marks that a unit carries for the player: the pointer or the box
/// is on it, and it is among the selected.
#[derive(Clone, Copy, Debug, PartialEq, Eq, Structural)]
pub struct Selectable {
    pub hovered: bool,
    pub selected: bool,
}

impl Default for SelectionBox {
    fn default() -> (b: SelectionBox)
        ensures
            b == (SelectionBox {
                start: Point { x: 0, y: 0 },
                end: Point { x: 0, y: 0 },
                selecting: false,
                visible: false,
            }),
    {
        SelectionBox {
            start: Point { x: 0, y: 0 },
            end: Point { x: 0, y: 0 },
            selecting: false,
            visible: false,
        }
    }
}

impl Default for Selectable {
    fn default() -> (s: Selectable)
        ensures
            s == (Selectable { hovered: false, selected: false }),
    {
        Selectable { hovered: false, selected: false }
    }
}

impl SelectionBox {
    /// The box after the left button and the pointer have been read. A
    /// press starts a drag at the pointer; while the button is held the
    /// far corner follows the pointer; the release ends the drag; at all
    /// other times the box is a point under the pointer.
    pub open spec fn dragged(
        self,
        just_pressed: bool,
        pressed: bool,
        just_released: bool,
        cursor: Point,
    ) -> SelectionBox {
        if just_pressed {
            SelectionBox { start: cursor, end: cursor, selecting: true, visible: true }
        } else if pressed && self.visible {
            SelectionBox { end: cursor, ..self }
        } else if just_released && self.visible {
            SelectionBox { selecting: false, visible: false, ..self }
        } else {
            SelectionBox { start: cursor, end: cursor, ..self }
        }
    }

    /// The release of the button ends a drag and confirms the selection.
    pub open spec fn confirms(self, just_pressed: bool, pressed: bool, just_released: bool) -> bool {
        !just_pressed && !(pressed && self.visible) && just_released && self.visible
    }

    /// The box is so small that it picks a single unit.
    pub open spec fn single(self) -> bool {
        gap(self.start.x as int, self.end.x as int) < SINGLE_SELECT_EXTENT && gap(
            self.start.y as int,
            self.end.y as int,
        ) < SINGLE_SELECT_EXTENT
    }

    /// Follows the left button and the pointer, and says whether the
    /// selection is confirmed.
    pub fn box_select(
        &mut self,
        just_pressed: bool,
        pressed: bool,
        just_released: bool,
        cursor: Point,
    ) -> (confirmed: bool)
        ensures
            *final(self) == old(self).dragged(just_pressed, pressed, just_released, cursor),
            confirmed == old(self).confirms(just_pressed, pressed, just_released),
    {
        if just_pressed {
            self.start = cursor;
            self.end = cursor;
            self.selecting = true;
            self.visible = true;
            false
        } else if pressed && self.visible {
            self.end = cursor;
            false
        } else if just_released && self.visible {
            self.selecting = false;
            self.visible = false;
            true
        } else {
            self.start = cursor;
            self.end = cursor;
            false
        }
    }

    /// Decides whether the box picks a single unit.
    pub fn is_single(&self) -> (b: bool)
        ensures
            b == self.single(),
    {
        let width: i64 = if self.start.x >= self.end.x {
            self.start.x as i64 - self.end.x as i64
        } else {
            self.end.x as i64 - self.start.x as i64
        };
        let height: i64 = if self.start.y >= self.end.y {
            self.start.y as i64 - self.end.y as i64
        } else {
            self.end.y as i64 - self.start.y as i64
        };
        width < SINGLE_SELECT_EXTENT as i64 && height < SINGLE_SELECT_EXTENT as i64
    }
}

impl Selectable {
    /// The marks after a pass of the box. A unit that the box takes is
    /// hovered, and a confirmed selection selects it, or flips its mark
    /// when shift is held. A unit that the box does not take is not
    /// hovered, and a confirmed selection without shift deselects it.
    pub open spec fn marked(self, taken: bool, confirmed: bool, shift: bool) -> Selectable {
        if taken {
            Selectable {
                hovered: true,
                selected: if confirmed {
                    if shift {
                        !self.selected
                    } else {
                        true
                    }
                } else {
                    self.selected
                },
            }
        } else {
            Selectable {
                hovered: false,
                selected: if confirmed && !shift {
                    false
                } else {
                    self.selected
                },
            }
        }
    }
}

/// The box touches the unit at index `i`. A unit of which `hits` says
/// nothing is not touched.
pub open spec fn hit_at(hits: Seq<bool>, i: int) -> bool {
    0 <= i < hits.len() && hits[i]
}

/// The box takes the unit at index `i`: it touches it and, where it picks
/// a single unit, touches none before it.
pub open spec fn takes(hits: Seq<bool>, single: bool, i: int) -> bool {
    hit_at(hits, i) && (single ==> forall|j: int| 0 <= j < i ==> !hit_at(hits, j))
}

/// Passes the box over the units. `hits` says for each unit, by its
/// index, whether the box touches it; `confirmed` that the drag has just
/// ended; `shift` that the shift key is held.
pub fn update(
    selection_box: &SelectionBox,
    items: &mut Vec<Selectable>,
    hits: &Vec<bool>,
    confirmed: bool,
    shift: bool,
)
    ensures
        final(items).len() == old(items).len(),
        forall|i: int|
            0 <= i < old(items).len() ==> #[trigger] final(items)[i] == old(items)[i].marked(
                takes(hits@, selection_box.single(), i),
                confirmed,
                shift,
            ),
{
    let single = selection_box.is_single();
    let mut blocked: bool = false;
    let mut i: usize = 0;
    while i < items.len()
        invariant
            0 <= i <= items.len(),
            items.len() == old(items).len(),
            single == selection_box.single(),
            blocked == (single && exists|j: int| 0 <= j < i && hit_at(hits@, j)),
            forall|j: int|
                0 <= j < i ==> #[trigger] items[j] == old(items)[j].marked(
                    takes(hits@, single, j),
                    confirmed,
                    shift,
                ),
            forall|j: int| i <= j < items.len() ==> #[trigger] items[j] == old(items)[j],
        decreases items.len() - i,
    {
        let hit = i < hits.len() && hits[i];
        let taken = hit && !blocked;
        assert(hit == hit_at(hits@, i as int));
        assert(taken == takes(hits@, single, i as int));
        let mut item = items[i];
        if taken {
            if confirmed {
                if shift {
                    item.selected = !item.selected;
                } else {
                    item.selected = true;
                }
            }
            item.hovered = true;
        } else {
            item.hovered = false;
            if confirmed && !shift {
                item.selected = false;
            }
        }
        items[i] = item;
        if hit && single {
            blocked = true;
        }
        i = i + 1;
    }
}

} // verus!
