//! The ring of buttons that opens round a clicked plot.
//!
//! While the ring is open the player is choosing an action for its plot,
//! and the plot's clock does not carry it into another state. The ring
//! offers what the plot's state admits; a click on a button chooses the
//! action, a press outside the ring closes it.

use vstd::prelude::*;
use crate::consts::{
    PLOT_BUTTON_DROP, PLOT_BUTTON_REACH, PLOT_BUTTON_SIDE, PLOT_CIRCLE_BUTTON_RADIUS,
    PLOT_CIRCLE_RADIUS, PLOT_HEIGHT, PLOT_WIDTH,
};
use crate::geometry::{gap, Point};
use crate::plot::{Crop, Plot, PlotAction, Quote};
use crate::selection::Selectable;

verus! {

/// One button of the ring: the action it stands for and where it stands,
/// measured from the ring's centre.
#[derive(Clone, Copy, Debug, PartialEq, Eq, Structural)]
pub struct RingButton {
    pub action: PlotAction,
    pub offset: Point,
}

/// The place at the top of the ring.
pub open spec fn top() -> Point {
    Point { x: 0, y: PLOT_BUTTON_REACH }
}

/// The place at the bottom of the ring.
pub open spec fn bottom() -> Point {
    Point { x: 0, y: (-PLOT_BUTTON_REACH) as i32 }
}

/// The place at the lower left of a ring of three.
pub open spec fn lower_left() -> Point {
    Point { x: (-PLOT_BUTTON_SIDE) as i32, y: (-PLOT_BUTTON_DROP) as i32 }
}

/// The place at the lower right of a ring of three.
pub open spec fn lower_right() -> Point {
    Point { x: PLOT_BUTTON_SIDE, y: (-PLOT_BUTTON_DROP) as i32 }
}

impl Plot {
    /// The buttons of the ring round the plot: what its state admits. A
    /// locked plot can be unlocked; an empty one planted with any crop; a
    /// growing crop cancelled; a ripe one composted or harvested.
    pub open spec fn ring(self) -> Seq<RingButton> {
        match self {
            Plot::Locked => seq![RingButton { action: PlotAction::Unlock, offset: top() }],
            Plot::Empty => seq![
                RingButton { action: PlotAction::Plant(Crop::Carrot), offset: top() },
                RingButton { action: PlotAction::Plant(Crop::Clover), offset: lower_left() },
                RingButton { action: PlotAction::Plant(Crop::Wheat), offset: lower_right() },
            ],
            Plot::Growing(_, _) => seq![RingButton { action: PlotAction::Cancel, offset: bottom() }],
            Plot::Ready(crop, _) => seq![
                RingButton { action: PlotAction::Compost(crop), offset: bottom() },
                RingButton { action: PlotAction::Harvest(crop), offset: top() },
            ],
        }
    }

    /// Lists the buttons of the ring round the plot.
    pub fn buttons(&self) -> (list: Vec<RingButton>)
        ensures
            list@ == self.ring(),
            forall|i: int| 0 <= i < list.len() ==> self.admits(#[trigger] list[i].action),
    {
        let up = Point { x: 0, y: PLOT_BUTTON_REACH };
        let down = Point { x: 0, y: -PLOT_BUTTON_REACH };
        let left = Point { x: -PLOT_BUTTON_SIDE, y: -PLOT_BUTTON_DROP };
        let right = Point { x: PLOT_BUTTON_SIDE, y: -PLOT_BUTTON_DROP };
        let mut list: Vec<RingButton> = Vec::new();
        match self {
            Plot::Locked => {
                list.push(RingButton { action: PlotAction::Unlock, offset: up });
            },
            Plot::Empty => {
                list.push(RingButton { action: PlotAction::Plant(Crop::Carrot), offset: up });
                list.push(RingButton { action: PlotAction::Plant(Crop::Clover), offset: left });
                list.push(RingButton { action: PlotAction::Plant(Crop::Wheat), offset: right });
            },
            Plot::Growing(_, _) => {
                list.push(RingButton { action: PlotAction::Cancel, offset: down });
            },
            Plot::Ready(crop, _) => {
                list.push(RingButton { action: PlotAction::Compost(*crop), offset: down });
                list.push(RingButton { action: PlotAction::Harvest(*crop), offset: up });
            },
        }
        assert(list@ =~= self.ring());
        list
    }
}

/// The pointer is on the footprint of the plot centred at `site`, its
/// edge included.
pub open spec fn on_plot(site: Point, cursor: Point) -> bool {
    &&& 2 * gap(cursor.x as int, site.x as int) <= PLOT_WIDTH
    &&& 2 * gap(cursor.y as int, site.y as int) <= PLOT_HEIGHT
}

/// The plot at index `i` is the first under the pointer.
pub open spec fn first_on_plot(sites: Seq<Point>, cursor: Point, i: int) -> bool {
    &&& 0 <= i < sites.len()
    &&& on_plot(sites[i], cursor)
    &&& forall|j: int| 0 <= j < i ==> !on_plot(#[trigger] sites[j], cursor)
}

/// The pointer rests on some unit.
pub open spec fn any_hovered(items: Seq<Selectable>) -> bool {
    exists|i: int| 0 <= i < items.len() && (#[trigger] items[i]).hovered
}

/// A click opens a ring: the left button was released, no ring is open,
/// and the pointer rests on no unit.
pub open spec fn opens(released: bool, ring_open: bool, items: Seq<Selectable>) -> bool {
    released && !ring_open && !any_hovered(items)
}

/// The pointer is on the button that stands at `offset` from the centre
/// `ring`.
pub open spec fn on_button(ring: Point, offset: Point, cursor: Point) -> bool {
    let dx = cursor.x - ring.x - offset.x;
    let dy = cursor.y - ring.y - offset.y;
    dx * dx + dy * dy <= PLOT_CIRCLE_BUTTON_RADIUS * PLOT_CIRCLE_BUTTON_RADIUS
}

/// The button at index `i` is the first under the pointer.
pub open spec fn first_on_button(
    ring: Point,
    buttons: Seq<RingButton>,
    cursor: Point,
    i: int,
) -> bool {
    &&& 0 <= i < buttons.len()
    &&& on_button(ring, buttons[i].offset, cursor)
    &&& forall|j: int| 0 <= j < i ==> !on_button(ring, (#[trigger] buttons[j]).offset, cursor)
}

/// Decides whether the pointer is on the footprint of the plot at `site`.
fn is_on_plot(site: Point, cursor: Point) -> (b: bool)
    ensures
        b == on_plot(site, cursor),
{
    let dx: i64 = if cursor.x >= site.x {
        cursor.x as i64 - site.x as i64
    } else {
        site.x as i64 - cursor.x as i64
    };
    let dy: i64 = if cursor.y >= site.y {
        cursor.y as i64 - site.y as i64
    } else {
        site.y as i64 - cursor.y as i64
    };
    2 * dx <= PLOT_WIDTH as i64 && 2 * dy <= PLOT_HEIGHT as i64
}

/// Decides whether the pointer is on the button at `offset`.
fn is_on_button(ring: Point, offset: Point, cursor: Point) -> (b: bool)
    ensures
        b == on_button(ring, offset, cursor),
{
    let dx: i128 = cursor.x as i128 - ring.x as i128 - offset.x as i128;
    let dy: i128 = cursor.y as i128 - ring.y as i128 - offset.y as i128;
    proof {
        lemma_wide_square(dx as int);
        lemma_wide_square(dy as int);
    }
    let reach: i128 = PLOT_CIRCLE_BUTTON_RADIUS as i128;
    dx * dx + dy * dy <= reach * reach
}

proof fn lemma_wide_square(d: int)
    by (nonlinear_arith)
    requires
        -0x2_0000_0000 <= d <= 0x2_0000_0000,
    ensures
        0 <= d * d <= 0x4_0000_0000_0000_0000,
{
}

/// Finds the plot under the pointer: the first of `sites`, the plots'
/// centres, whose footprint holds it.
pub fn plot_at(sites: &Vec<Point>, cursor: Point) -> (found: Option<usize>)
    ensures
        match found {
            Some(i) => first_on_plot(sites@, cursor, i as int),
            None => forall|j: int| 0 <= j < sites.len() ==> !on_plot(#[trigger] sites[j], cursor),
        },
{
    let mut i: usize = 0;
    while i < sites.len()
        invariant
            0 <= i <= sites.len(),
            forall|j: int| 0 <= j < i ==> !on_plot(#[trigger] sites[j], cursor),
        decreases sites.len() - i,
    {
        if is_on_plot(sites[i], cursor) {
            return Some(i);
        }
        i = i + 1;
    }
    None
}

/// Decides on which plot a click opens a ring. `released` says that the
/// left button was let go in this tick, `ring_open` that a ring is open
/// already, `items` carries the marks of the units.
///
/// A ring opens on the plot under the pointer when the button was
/// released, no ring is open and the pointer rests on no unit.
pub fn plot_click(
    released: bool,
    ring_open: bool,
    items: &Vec<Selectable>,
    sites: &Vec<Point>,
    cursor: Point,
) -> (target: Option<usize>)
    ensures
        match target {
            Some(i) => opens(released, ring_open, items@) && first_on_plot(
                sites@,
                cursor,
                i as int,
            ),
            None => !opens(released, ring_open, items@) || forall|j: int|
                0 <= j < sites.len() ==> !on_plot(#[trigger] sites[j], cursor),
        },
{
    let mut i: usize = 0;
    while i < items.len()
        invariant
            0 <= i <= items.len(),
            forall|j: int| 0 <= j < i ==> !(#[trigger] items[j]).hovered,
        decreases items.len() - i,
    {
        if items[i].hovered {
            return None;
        }
        i = i + 1;
    }
    if released && !ring_open {
        plot_at(sites, cursor)
    } else {
        None
    }
}

/// Decides whether a press of the left button closes the ring centred at
/// `ring`: it does when the pointer is farther from the centre than the
/// ring reaches.
pub fn remove_plot_circle(pressed: bool, ring: Point, cursor: Point) -> (closes: bool)
    ensures
        closes == (pressed && !ring.within(cursor, PLOT_CIRCLE_RADIUS)),
{
    pressed && !ring.is_within(&cursor, PLOT_CIRCLE_RADIUS)
}

/// Finds the button on which the left button was released: the first of
/// the ring's buttons under the pointer. That button's action is the
/// player's choice.
pub fn plot_button_click(
    released: bool,
    ring: Point,
    buttons: &Vec<RingButton>,
    cursor: Point,
) -> (clicked: Option<usize>)
    ensures
        match clicked {
            Some(i) => released && first_on_button(ring, buttons@, cursor, i as int),
            None => !released || forall|j: int|
                0 <= j < buttons.len() ==> !on_button(
                    ring,
                    (#[trigger] buttons[j]).offset,
                    cursor,
                ),
        },
{
    if !released {
        return None;
    }
    let mut i: usize = 0;
    while i < buttons.len()
        invariant
            released,
            0 <= i <= buttons.len(),
            forall|j: int|
                0 <= j < i ==> !on_button(ring, (#[trigger] buttons[j]).offset, cursor),
        decreases buttons.len() - i,
    {
        if is_on_button(ring, buttons[i].offset, cursor) {
            return Some(i);
        }
        i = i + 1;
    }
    None
}

/// Says what the ring shows of prices: the quote of the first button
/// under the pointer, and none, which hides the price, when the pointer
/// is on no button.
pub fn plot_button_hover(ring: Point, buttons: &Vec<RingButton>, cursor: Point) -> (shown: Option<
    Quote,
>)
    ensures
        match shown {
            Some(quote) => exists|i: int|
                first_on_button(ring, buttons@, cursor, i) && quote == buttons[i].action.quoted(),
            None => forall|j: int|
                0 <= j < buttons.len() ==> !on_button(
                    ring,
                    (#[trigger] buttons[j]).offset,
                    cursor,
                ),
        },
{
    match plot_button_click(true, ring, buttons, cursor) {
        Some(i) => Some(buttons[i].action.quote()),
        None => None,
    }
}

} // verus!
