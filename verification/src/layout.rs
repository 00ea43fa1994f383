//! Rectangles of terminal cells, hit tests, and the split of an area into
//! stripes.

use ratatui::layout as grid;
use vstd::prelude::*;

verus! {

/// A rectangle of terminal cells: its top left corner and its size.
#[derive(Debug, Clone, Copy, PartialEq, Eq, Structural)]
pub struct Rect {
    pub x: u16,
    pub y: u16,
    pub width: u16,
    pub height: u16,
}

impl Rect {
    /// The empty rectangle at the origin.
    pub fn empty() -> (r: Rect)
        ensures
            r == (Rect { x: 0, y: 0, width: 0, height: 0 }),
    {
        Rect { x: 0, y: 0, width: 0, height: 0 }
    }

    /// Whether the cell at `column` and `row` lies in the rectangle.
    pub open spec fn holds(self, column: u16, row: u16) -> bool {
        self.x <= column < self.x + self.width && self.y <= row < self.y + self.height
    }

    /// Whether the cell at `column` and `row` lies in the rectangle.
    #[verifier::when_used_as_spec(holds)]
    pub fn contains(self, column: u16, row: u16) -> (r: bool)
        ensures
            r == self.holds(column, row),
    {
        let right: u32 = self.x as u32 + self.width as u32;
        let bottom: u32 = self.y as u32 + self.height as u32;
        column >= self.x && (column as u32) < right && row >= self.y && (row as u32) < bottom
    }
}

/// What a stripe asks for along the direction of a split.
#[derive(Debug, Clone, Copy, PartialEq, Eq, Structural)]
pub enum Constraint {
    /// At least this many cells.
    Min(u16),
    /// Exactly this many cells.
    Length(u16),
    /// This share of the whole, in hundredths.
    Percentage(u16),
}

/// The direction in which the stripes of a split follow one another.
#[derive(Debug, Clone, Copy, PartialEq, Eq, Structural)]
pub enum Direction {
    Horizontal,
    Vertical,
}

/// Whether `part` lies inside `area`.
pub open spec fn lies_in(part: Rect, area: Rect) -> bool {
    &&& area.x <= part.x
    &&& part.x + part.width <= area.x + area.width
    &&& area.y <= part.y
    &&& part.y + part.height <= area.y + area.height
}

/// Whether `part` is a stripe of `area` in the direction `direction`: across
/// that direction it begins where `area` begins and is as large, and along it
/// it lies inside `area`.
pub open spec fn is_stripe_of(part: Rect, area: Rect, direction: Direction) -> bool {
    &&& lies_in(part, area)
    &&& match direction {
        Direction::Horizontal => part.y == area.y && part.height == area.height,
        Direction::Vertical => part.x == area.x && part.width == area.width,
    }
}

/// What lies inside a part of an area lies inside the area.
pub proof fn lemma_lies_in_is_transitive(inner: Rect, part: Rect, area: Rect)
    requires
        lies_in(inner, part),
        lies_in(part, area),
    ensures
        lies_in(inner, area),
{
}

/// Calls `ratatui::layout::Layout::split` on a layout without margin that has
/// the given direction and constraints. Trusted: there is one rectangle for
/// each constraint, and each is a stripe of `area`: across the direction it is
/// the area's own extent, and along the direction it lies inside the area,
/// which the layout requires of every stripe whatever else is asked. Where
/// inside the area the stripes begin and end is the solver's choice, of which
/// nothing is claimed.
#[verifier::external_body]
pub(crate) fn split(area: Rect, direction: Direction, constraints: &Vec<Constraint>) -> (r: Vec<
    Rect,
>)
    ensures
        r.len() == constraints.len(),
        forall|i: int| 0 <= i < r.len() ==> is_stripe_of(#[trigger] r[i], area, direction),
{
    let parts = constraints.iter().map(|c| match c {
        Constraint::Min(n) => grid::Constraint::Min(*n),
        Constraint::Length(n) => grid::Constraint::Length(*n),
        Constraint::Percentage(n) => grid::Constraint::Percentage(*n),
    });
    let along = match direction {
        Direction::Horizontal => grid::Direction::Horizontal,
        Direction::Vertical => grid::Direction::Vertical,
    };
    let whole = grid::Rect { x: area.x, y: area.y, width: area.width, height: area.height };
    let layout = grid::Layout::default().direction(along).constraints(parts);
    layout.split(whole).iter().map(|p| Rect { x: p.x, y: p.y, width: p.width, height: p.height }).collect()
}

/// What is asked of the two parts of an area that is cut into rows: the upper
/// part takes what is left, and the lower one `lower` rows.
pub open spec fn rows_constraints(lower: u16) -> Seq<Constraint> {
    seq![Constraint::Min(0), Constraint::Length(lower)]
}

/// What is asked of the two parts of a row that is cut into columns: four
/// fifths for the left part and one fifth for the right one.
pub open spec fn columns_constraints() -> Seq<Constraint> {
    seq![Constraint::Percentage(80), Constraint::Percentage(20)]
}

/// What is asked of the three parts of the form: three rows for each of the
/// two fields, and what is left for the room below them.
pub open spec fn form_constraints() -> Seq<Constraint> {
    seq![Constraint::Length(3), Constraint::Length(3), Constraint::Min(0)]
}

/// The constraints of an area that is cut into rows.
pub fn rows_plan(lower: u16) -> (r: Vec<Constraint>)
    ensures
        r@ == rows_constraints(lower),
{
    let mut constraints: Vec<Constraint> = Vec::new();
    constraints.push(Constraint::Min(0));
    constraints.push(Constraint::Length(lower));
    assert(constraints@ =~= rows_constraints(lower));
    constraints
}

/// The constraints of a row that is cut into columns.
pub fn columns_plan() -> (r: Vec<Constraint>)
    ensures
        r@ == columns_constraints(),
{
    let mut constraints: Vec<Constraint> = Vec::new();
    constraints.push(Constraint::Percentage(80));
    constraints.push(Constraint::Percentage(20));
    assert(constraints@ =~= columns_constraints());
    constraints
}

/// The constraints of the form.
pub fn form_plan() -> (r: Vec<Constraint>)
    ensures
        r@ == form_constraints(),
{
    let mut constraints: Vec<Constraint> = Vec::new();
    constraints.push(Constraint::Length(3));
    constraints.push(Constraint::Length(3));
    constraints.push(Constraint::Min(0));
    assert(constraints@ =~= form_constraints());
    constraints
}

/// An area cut into an upper part and a lower stripe, by the constraints of
/// `rows_plan`.
pub fn split_rows(area: Rect, lower: u16) -> (r: (Rect, Rect))
    ensures
        is_stripe_of(r.0, area, Direction::Vertical),
        is_stripe_of(r.1, area, Direction::Vertical),
{
    let parts = split(area, Direction::Vertical, &rows_plan(lower));
    (parts[0], parts[1])
}

/// A row cut into a left and a right part, by the constraints of
/// `columns_plan`.
pub fn split_columns(area: Rect) -> (r: (Rect, Rect))
    ensures
        is_stripe_of(r.0, area, Direction::Horizontal),
        is_stripe_of(r.1, area, Direction::Horizontal),
{
    let parts = split(area, Direction::Horizontal, &columns_plan());
    (parts[0], parts[1])
}

/// An area cut into the two fields of the form and the room below them, by
/// the constraints of `form_plan`.
pub fn split_form(area: Rect) -> (r: (Rect, Rect, Rect))
    ensures
        is_stripe_of(r.0, area, Direction::Vertical),
        is_stripe_of(r.1, area, Direction::Vertical),
        is_stripe_of(r.2, area, Direction::Vertical),
{
    let parts = split(area, Direction::Vertical, &form_plan());
    (parts[0], parts[1], parts[2])
}

} // verus!
