//! Rectangles of terminal cells, and their division into panes by the
//! layout solver of the `tui` crate.

use tui::layout::{Constraint, Layout, Rect};
use vstd::prelude::*;

verus! {

/// A rectangle of terminal cells: its top left cell and its size.
#[derive(Debug, Clone, Copy, PartialEq, Eq, Structural)]
pub struct Area {
    pub x: u16,
    pub y: u16,
    pub width: u16,
    pub height: u16,
}

/// The side along which an area is divided.
#[derive(Debug, Clone, Copy, PartialEq, Eq, Structural)]
pub enum Direction {
    Horizontal,
    Vertical,
}

/// The size that one part of a divided area is asked to have.
#[derive(Debug, Clone, Copy, PartialEq, Eq, Structural)]
pub enum Extent {
    /// So many hundredths of the divided side.
    Percentage(u16),
    /// So many cells.
    Length(u16),
}

impl Area {
    /// The length of the side that a division in `direction` cuts.
    pub open spec fn side(self, direction: Direction) -> u16 {
        match direction {
            Direction::Horizontal => self.width,
            Direction::Vertical => self.height,
        }
    }

    /// The coordinate at which the side that a division in `direction` cuts
    /// begins.
    pub open spec fn start(self, direction: Direction) -> int {
        match direction {
            Direction::Horizontal => self.x as int,
            Direction::Vertical => self.y as int,
        }
    }

    /// The coordinate behind the end of that side.
    pub open spec fn end(self, direction: Direction) -> int {
        self.start(direction) + self.side(direction)
    }

    /// `part` lies inside this area: it passes none of its four edges.
    pub open spec fn contains(self, part: Area) -> bool {
        &&& self.x <= part.x
        &&& self.y <= part.y
        &&& part.x + part.width <= self.x + self.width
        &&& part.y + part.height <= self.y + self.height
    }

    /// The cell behind the last column and the one below the last row have
    /// coordinates that a `u16` holds.
    pub open spec fn fits(self) -> bool {
        self.x + self.width <= u16::MAX && self.y + self.height <= u16::MAX
    }

    /// What is left of the area `margin` cells inside each of its edges, and
    /// the empty area at the origin where the margins leave nothing.
    pub open spec fn inner(self, margin: u16) -> Area {
        if self.width < 2 * margin || self.height < 2 * margin {
            Area { x: 0, y: 0, width: 0, height: 0 }
        } else {
            Area {
                x: (self.x + margin) as u16,
                y: (self.y + margin) as u16,
                width: (self.width - 2 * margin) as u16,
                height: (self.height - 2 * margin) as u16,
            }
        }
    }

    /// `part` is a slice of this area cut in `direction`: it reaches from
    /// edge to edge the other way, and does not pass the far edge of the
    /// side that was cut.
    pub open spec fn has_slice(self, direction: Direction, part: Area) -> bool {
        match direction {
            Direction::Horizontal => {
                &&& part.y == self.y
                &&& part.height == self.height
                &&& part.x + part.width <= self.x + self.width
            },
            Direction::Vertical => {
                &&& part.x == self.x
                &&& part.width == self.width
                &&& part.y + part.height <= self.y + self.height
            },
        }
    }
}

/// The solver can take this size for a side of `side` cells: the cells
/// times the percentage is a number that a `u16` holds.
pub open spec fn extent_fits(extent: Extent, side: u16) -> bool {
    match extent {
        Extent::Percentage(p) => p * side <= u16::MAX,
        Extent::Length(_) => true,
    }
}

/// The number of cells that an extent asks for, of a side of `side` cells.
pub open spec fn asked(extent: Extent, side: int) -> int {
    match extent {
        Extent::Percentage(p) => p * side / 100,
        Extent::Length(cells) => cells as int,
    }
}

/// The number of cells that the first `count` extents ask for together.
pub open spec fn asked_before(extents: Seq<Extent>, side: int, count: nat) -> int
    decreases count,
{
    if count == 0 {
        0
    } else {
        asked_before(extents, side, (count - 1) as nat) + asked(extents[count - 1], side)
    }
}

/// The extents divide a side of `side` cells evenly: every percentage of it
/// is a whole number of cells, and what they ask for together is the side,
/// so that each of them can have what it asks for.
pub open spec fn divides_evenly(extents: Seq<Extent>, side: int) -> bool {
    &&& forall|i: int|
        0 <= i < extents.len() ==> (#[trigger] extents[i] matches Extent::Percentage(p) ==> (p
            * side) % 100 == 0)
    &&& asked_before(extents, side, extents.len()) == side
}

/// Every part has what its extent asks for, and begins where the parts
/// before it end, the first of them at the near edge of `inner`.
pub open spec fn shares_met(
    direction: Direction,
    extents: Seq<Extent>,
    inner: Area,
    parts: Seq<Area>,
) -> bool {
    forall|i: int|
        0 <= i < parts.len() && i < extents.len() ==> {
            &&& (#[trigger] parts[i]).side(direction) == asked(extents[i], inner.side(direction) as int)
            &&& parts[i].start(direction) == inner.start(direction) + asked_before(
                extents,
                inner.side(direction) as int,
                i as nat,
            )
        }
}

/// What is known of the parts that a division of the area `inner` gives,
/// whatever the solver chose: there is one for each extent; each is a slice
/// of `inner`; the first begins at the near edge and the last ends at the
/// far edge; and where the extents divide the side evenly, each part has
/// what was asked for it.
pub open spec fn divided(
    direction: Direction,
    extents: Seq<Extent>,
    inner: Area,
    parts: Seq<Area>,
) -> bool {
    &&& parts.len() == extents.len()
    &&& forall|i: int| 0 <= i < parts.len() ==> inner.has_slice(direction, #[trigger] parts[i])
    &&& parts.len() > 0 ==> parts[0].start(direction) == inner.start(direction)
    &&& parts.len() > 0 ==> parts[parts.len() - 1].end(direction) == inner.end(direction)
    &&& divides_evenly(extents, inner.side(direction) as int) ==> shares_met(
        direction,
        extents,
        inner,
        parts,
    )
}

/// The division can be computed within the range of `u16`: twice the margin
/// and the far edges of the area are in that range, and so is every
/// percentage of the divided side.
pub open spec fn splittable(
    direction: Direction,
    margin: u16,
    extents: Seq<Extent>,
    area: Area,
) -> bool {
    &&& 2 * margin <= u16::MAX
    &&& area.fits()
    &&& forall|i: int|
        0 <= i < extents.len() ==> extent_fits(#[trigger] extents[i], area.side(direction))
}

/// Decides whether the division can be computed.
pub fn can_split(direction: Direction, margin: u16, extents: &Vec<Extent>, area: Area) -> (yes:
    bool)
    ensures
        yes == splittable(direction, margin, extents@, area),
{
    if margin > u16::MAX / 2 {
        return false;
    }
    if area.width > u16::MAX - area.x || area.height > u16::MAX - area.y {
        return false;
    }
    let side: u16 = match direction {
        Direction::Horizontal => area.width,
        Direction::Vertical => area.height,
    };
    let mut i: usize = 0;
    while i < extents.len()
        invariant
            i <= extents@.len(),
            side == area.side(direction),
            forall|k: int| 0 <= k < i ==> extent_fits(#[trigger] extents@[k], side),
        decreases extents@.len() - i,
    {
        match extents[i] {
            Extent::Percentage(p) => {
                assert(p * side <= 0xffff * 0xffff) by (nonlinear_arith)
                    requires
                        p <= 0xffff,
                        side <= 0xffff,
                ;
                if p as u32 * side as u32 > u16::MAX as u32 {
                    return false;
                }
            },
            Extent::Length(_) => {},
        }
        i += 1;
    }
    true
}

/// `tui::layout::Layout::split`, on a layout made by `Layout::default()` and
/// its methods `direction`, `margin` and `constraints`.
///
/// `split` hands the sizes to a constraint solver as weak equalities, beside
/// required constraints on the area inside the margin that `Rect::inner`
/// gives. The solver meets every constraint where all can be met together;
/// where they cannot, its choice among the weak ones depends on the order in
/// which its hash maps are walked, and nothing is claimed of it. Claimed is:
/// one rectangle comes back for each constraint, in their order. Across the
/// cut each has that area's position and size, and along the cut it ends at
/// or before that area's far edge (required constraints; the numbers across
/// the cut are whole, and cutting off a fraction only lowers an end). The
/// first begins at the near edge (a required equality on a whole number),
/// and the last ends at the far edge (`split` sets its length so). Where
/// the sizes asked for are whole numbers of cells that add up to the side,
/// all constraints can be met in one way only, in whole numbers: each part
/// has its size and follows on the one before. The precondition keeps the
/// integer arithmetic of `split` and of `Rect::inner` free of overflow, and
/// the far edges that the solver is given are then those of that area.
#[verifier::external_body]
fn solve(direction: Direction, margin: u16, extents: &Vec<Extent>, area: Area) -> (parts:
    Vec<Area>)
    requires
        splittable(direction, margin, extents@, area),
    ensures
        divided(direction, extents@, area.inner(margin), parts@),
{
    let sizes: Vec<Constraint> = extents.iter().map(|e| match e {
        Extent::Percentage(p) => Constraint::Percentage(*p),
        Extent::Length(n) => Constraint::Length(*n),
    }).collect();
    let way = match direction {
        Direction::Horizontal => tui::layout::Direction::Horizontal,
        Direction::Vertical => tui::layout::Direction::Vertical,
    };
    let rect = Rect { x: area.x, y: area.y, width: area.width, height: area.height };
    let layout = Layout::default().direction(way).margin(margin).constraints(sizes);
    layout.split(rect).iter().map(|r| Area { x: r.x, y: r.y, width: r.width, height: r.height })
        .collect()
}

/// Divides `area`, within `margin` cells from each of its edges, into one
/// part for each extent, side by side in `direction`. Each part is a slice
/// of what the margin leaves, the first at its near edge and the last up to
/// its far edge. Where the extents divide the side evenly, each part has
/// what was asked for it; where they do not, how the side is shared out is
/// the solver's answer. The result is `None` exactly where the division
/// cannot be computed within the range of `u16`.
pub fn split(direction: Direction, margin: u16, extents: &Vec<Extent>, area: Area) -> (parts:
    Option<Vec<Area>>)
    ensures
        parts is Some <==> splittable(direction, margin, extents@, area),
        parts matches Some(p) ==> divided(direction, extents@, area.inner(margin), p@),
{
    if can_split(direction, margin, extents, area) {
        Some(solve(direction, margin, extents, area))
    } else {
        None
    }
}

/// Picks the part at `index` out of what a division of `frame` gave, if
/// there is one and it begins at or after the near edge of `frame`: the
/// solver's numbers lose their fractions on the way, which may move a
/// beginning back by a cell.
pub fn part_inside(frame: Area, direction: Direction, parts: &Vec<Area>, index: usize) -> (part:
    Option<Area>)
    ensures
        part is Some <==> index < parts@.len() && frame.start(direction) <= parts@[index as int].start(
            direction,
        ),
        part matches Some(p) ==> p == parts@[index as int],
{
    if index >= parts.len() {
        return None;
    }
    let found = parts[index];
    let begins_inside = match direction {
        Direction::Horizontal => frame.x <= found.x,
        Direction::Vertical => frame.y <= found.y,
    };
    if begins_inside {
        Some(found)
    } else {
        None
    }
}

/// A slice of an area that begins at or after its near edge lies inside it.
pub proof fn slice_inside(frame: Area, direction: Direction, part: Area)
    requires
        frame.has_slice(direction, part),
        frame.start(direction) <= part.start(direction),
    ensures
        frame.contains(part),
{
}

/// The sizes of the list pane and of the description pane.
pub open spec fn pane_shares() -> Seq<Extent> {
    seq![Extent::Percentage(20), Extent::Percentage(80)]
}

/// A side of a whole number of fifths is divided evenly in 20 and 80
/// hundredths.
proof fn fifths_divide_evenly(side: int)
    requires
        0 <= side,
        side % 5 == 0,
    ensures
        divides_evenly(pane_shares(), side),
        asked(pane_shares()[0], side) == side / 5,
        asked_before(pane_shares(), side, 1) == side / 5,
{
    let shares = pane_shares();
    reveal_with_fuel(asked_before, 3);
    assert forall|i: int| 0 <= i < shares.len() implies (#[trigger] shares[i] matches Extent::Percentage(
        p,
    ) ==> (p * side) % 100 == 0) by {
        assert(i == 0 || i == 1);
    }
}

/// The areas of the list pane and of the description pane on a terminal of
/// the given size: the second part of the frame, which the solver lays out
/// two cells inside the terminal's edges, is divided in 20 and 80
/// hundredths of its width. Both panes are as high as the terminal is
/// inside that margin, and the description pane ends at its right edge.
/// Where the two panes together are a whole number of fifths wide, the list
/// pane has one fifth and the description pane follows on it. The result is
/// `None` where one of the two divisions cannot be computed within the
/// range of `u16`: always where the terminal's far edges are out of range,
/// and never where they are in range and its right edge is so near that 80
/// times its column is in range too.
pub fn panes(size: Area) -> (areas: Option<(Area, Area)>)
    ensures
        areas is Some ==> size.fits(),
        size.fits() && 80 * (size.x + size.width) <= u16::MAX ==> areas is Some,
        areas matches Some((list, description)) ==> {
            let both = description.x + description.width - list.x;
            &&& size.inner(2).has_slice(Direction::Horizontal, list)
            &&& size.inner(2).has_slice(Direction::Horizontal, description)
            &&& description.x + description.width == size.inner(2).x + size.inner(2).width
            &&& both >= 0 && both % 5 == 0 ==> {
                &&& list.width == both / 5
                &&& description.x == list.x + list.width
                &&& description.width == both - both / 5
            }
        },
{
    let mut outer: Vec<Extent> = Vec::new();
    outer.push(Extent::Length(1));
    outer.push(Extent::Length(1));
    let chunks = match split(Direction::Horizontal, 2, &outer, size) {
        Some(parts) => parts,
        None => { return None; },
    };
    let second = chunks[1];
    let mut shares: Vec<Extent> = Vec::new();
    shares.push(Extent::Percentage(20));
    shares.push(Extent::Percentage(80));
    proof {
        assert(shares@ =~= pane_shares());
        if 80 * (size.x + size.width) <= u16::MAX {
            assert forall|i: int| 0 <= i < shares@.len() implies extent_fits(
                #[trigger] shares@[i],
                second.side(Direction::Horizontal),
            ) by {
                assert(shares@[i] == Extent::Percentage(20) || shares@[i] == Extent::Percentage(80));
            }
        }
        if second.width % 5 == 0 {
            fifths_divide_evenly(second.width as int);
        }
    }
    match split(Direction::Horizontal, 0, &shares, second) {
        Some(parts) => Some((parts[0], parts[1])),
        None => None,
    }
}

} // verus!
