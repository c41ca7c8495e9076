use vstd::prelude::*;

use crate::layout::{
    asked, asked_before, divided, divides_evenly, extent_fits, part_inside, slice_inside, split,
    splittable, Area, Direction, Extent,
};

verus! {

/// The overlay that is drawn above the list once it has been asked for.
pub struct Popup {
    pub show_popup: bool,
}

/// The three sizes that put a part of `percent` hundredths in the middle of
/// a side: what is left over goes in equal halves before and behind it.
pub open spec fn centering(percent: u16) -> Seq<Extent> {
    seq![
        Extent::Percentage(((100 - percent) / 2) as u16),
        Extent::Percentage(percent),
        Extent::Percentage(((100 - percent) / 2) as u16),
    ]
}

/// The sizes that the solver is asked for to centre a part of `percent`
/// hundredths.
pub fn centering_extents(percent: u16) -> (sizes: Vec<Extent>)
    requires
        percent <= 100,
    ensures
        sizes@ == centering(percent),
{
    let mut sizes: Vec<Extent> = Vec::new();
    sizes.push(Extent::Percentage((100 - percent) / 2));
    sizes.push(Extent::Percentage(percent));
    sizes.push(Extent::Percentage((100 - percent) / 2));
    sizes
}

/// The solver can be asked for `percent` hundredths of a side of `side`
/// cells, and for half of what is left: both products are numbers that a
/// `u16` holds.
pub open spec fn percent_fits(percent: u16, side: u16) -> bool {
    percent * side <= u16::MAX && ((100 - percent) / 2) * side <= u16::MAX
}

/// Both divisions that centre a part can be computed within the range of
/// `u16`: the far edges of `r` are in range, and so are the percentages of
/// its width and of its height.
pub open spec fn centerable(percent_x: u16, percent_y: u16, r: Area) -> bool {
    &&& r.fits()
    &&& percent_fits(percent_x, r.width)
    &&& percent_fits(percent_y, r.height)
}

/// The sizes that centre a part can be divided by where the area's edges
/// and both of their percentages are in range.
proof fn centering_splittable(direction: Direction, percent: u16, r: Area)
    requires
        percent <= 100,
    ensures
        splittable(direction, 0, centering(percent), r) <==> r.fits() && percent_fits(
            percent,
            r.side(direction),
        ),
{
    let sizes = centering(percent);
    let side = r.side(direction);
    if r.fits() && percent_fits(percent, side) {
        assert forall|i: int| 0 <= i < sizes.len() implies extent_fits(#[trigger] sizes[i], side) by {
            assert(i == 0 || i == 1 || i == 2);
        }
    }
}

/// The sizes that centre a part of `percent_x` and of `percent_y`
/// hundredths divide the width and the height of `r` evenly.
pub open spec fn centers_evenly(percent_x: u16, percent_y: u16, r: Area) -> bool {
    &&& divides_evenly(centering(percent_x), r.width as int)
    &&& divides_evenly(centering(percent_y), r.height as int)
}

/// The part of `percent_x` hundredths of the width and `percent_y`
/// hundredths of the height of `r`, behind half of what is left of each.
pub open spec fn centered(percent_x: u16, percent_y: u16, r: Area) -> Area {
    Area {
        x: (r.x + ((100 - percent_x) / 2) * r.width / 100) as u16,
        y: (r.y + ((100 - percent_y) / 2) * r.height / 100) as u16,
        width: (percent_x * r.width / 100) as u16,
        height: (percent_y * r.height / 100) as u16,
    }
}

/// A part of an even number of hundredths is centred evenly on a side of
/// which the part and half of the rest are whole numbers of cells.
pub proof fn centering_divides_evenly(percent: u16, side: int)
    requires
        percent <= 100,
        percent % 2 == 0,
        0 <= side,
        (percent * side) % 100 == 0,
        (((100 - percent) / 2) * side) % 100 == 0,
    ensures
        divides_evenly(centering(percent), side),
{
    let sizes = centering(percent);
    let half = (100 - percent) / 2;
    reveal_with_fuel(asked_before, 4);
    assert forall|i: int| 0 <= i < sizes.len() implies (#[trigger] sizes[i] matches Extent::Percentage(
        p,
    ) ==> (p * side) % 100 == 0) by {
        assert(i == 0 || i == 1 || i == 2);
    }
    assert(half * side / 100 + percent * side / 100 + half * side / 100 == side) by (nonlinear_arith)
        requires
            2 * half + percent == 100,
            (percent * side) % 100 == 0,
            (half * side) % 100 == 0,
    ;
}

/// Where the sizes that centre a part divide a side evenly, the middle part
/// of the division has its share, behind half of what is left.
proof fn centering_shares(direction: Direction, percent: u16, inner: Area, parts: Seq<Area>)
    requires
        percent <= 100,
        divided(direction, centering(percent), inner, parts),
        divides_evenly(centering(percent), inner.side(direction) as int),
    ensures
        parts.len() == 3,
        parts[1].start(direction) == inner.start(direction) + ((100 - percent) / 2) * inner.side(
            direction,
        ) / 100,
        parts[1].side(direction) == percent * inner.side(direction) / 100,
        inner.start(direction) <= parts[1].start(direction),
{
    let side = inner.side(direction) as int;
    reveal_with_fuel(asked_before, 3);
    assert(0 <= ((100 - percent) / 2) * side / 100) by (nonlinear_arith)
        requires
            0 <= (100 - percent) / 2,
            0 <= side,
    ;
}

/// The rectangle in the middle of `r` that the layout solver gives for
/// `percent_x` hundredths of the width and `percent_y` hundredths of the
/// height: `r` is cut into three rows, and the middle row into three
/// columns, of which the middle one is the result. It lies inside `r`.
/// Where the sizes divide the sides of `r` evenly, it has its share of each
/// side, behind half of what is left. There is no result where the two
/// divisions cannot be computed within the range of `u16`, nor where a part
/// that the solver gave begins before the area that was divided.
pub fn centered_rect(percent_x: u16, percent_y: u16, r: Area) -> (area: Option<Area>)
    requires
        percent_x <= 100,
        percent_y <= 100,
    ensures
        area is Some ==> centerable(percent_x, percent_y, r),
        area matches Some(part) ==> r.contains(part),
        area matches Some(part) ==> (centers_evenly(percent_x, percent_y, r) ==> part == centered(
            percent_x,
            percent_y,
            r,
        )),
        centerable(percent_x, percent_y, r) && centers_evenly(percent_x, percent_y, r)
            ==> area is Some,
{
    proof {
        centering_splittable(Direction::Vertical, percent_y, r);
    }
    let rows = centering_extents(percent_y);
    let popup_layout = match split(Direction::Vertical, 0, &rows, r) {
        Some(parts) => parts,
        None => { return None; },
    };
    proof {
        if divides_evenly(centering(percent_y), r.height as int) {
            centering_shares(Direction::Vertical, percent_y, r, popup_layout@);
        }
    }
    let middle = match part_inside(r, Direction::Vertical, &popup_layout, 1) {
        Some(part) => part,
        None => { return None; },
    };
    proof {
        centering_splittable(Direction::Horizontal, percent_x, middle);
        slice_inside(r, Direction::Vertical, middle);
    }
    let columns = centering_extents(percent_x);
    let parts = match split(Direction::Horizontal, 0, &columns, middle) {
        Some(parts) => parts,
        None => { return None; },
    };
    proof {
        if divides_evenly(centering(percent_x), r.width as int) {
            centering_shares(Direction::Horizontal, percent_x, middle, parts@);
        }
    }
    let found = part_inside(middle, Direction::Horizontal, &parts, 1);
    proof {
        if let Some(part) = found {
            slice_inside(middle, Direction::Horizontal, part);
        }
    }
    found
}

impl Popup {
    /// A popup that is not shown yet.
    pub fn new() -> (popup: Self)
        ensures
            !popup.show_popup,
    {
        Self { show_popup: false }
    }

    /// Where the popup is to be drawn on a terminal of the given size:
    /// nowhere while it is hidden, and else inside the terminal, where the
    /// solver centres 60 hundredths of the width and 20 of the height. On a
    /// terminal whose sides are divided evenly that is the area of just
    /// these shares, behind 20 hundredths of the width and 40 of the
    /// height.
    pub fn render(&self, size: Area) -> (area: Option<Area>)
        ensures
            area is Some ==> self.show_popup && centerable(60, 20, size),
            area matches Some(part) ==> size.contains(part),
            area matches Some(part) ==> (centers_evenly(60, 20, size) ==> part == centered(
                60,
                20,
                size,
            )),
            self.show_popup && centerable(60, 20, size) && centers_evenly(60, 20, size)
                ==> area is Some,
    {
        if self.show_popup {
            centered_rect(60, 20, size)
        } else {
            None
        }
    }

    /// Where the popup would be drawn on a terminal of the given size,
    /// shown or not: inside the terminal, and on a terminal whose sides are
    /// divided evenly the area of 60 hundredths of the width and 20 of the
    /// height, behind 20 hundredths of the width and 40 of the height.
    pub fn add_popup(&self, size: Area) -> (area: Option<Area>)
        ensures
            area is Some ==> centerable(60, 20, size),
            area matches Some(part) ==> size.contains(part),
            area matches Some(part) ==> (centers_evenly(60, 20, size) ==> part == centered(
                60,
                20,
                size,
            )),
            centerable(60, 20, size) && centers_evenly(60, 20, size) ==> area is Some,
    {
        centered_rect(60, 20, size)
    }
}

} // verus!
