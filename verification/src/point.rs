//! A zero-based (row, column) coordinate into source text.

use crate::decimal::{decimal, is_digit, lemma_decimal_injective, lemma_decimal_is_digits};
use std::cmp::Ordering;
use tree_sitter::Point as NativePoint;
use vstd::prelude::*;
use vstd::std_specs::cmp::PartialOrdSpec;

verus! {

/// `tree_sitter::Point`, the engine's own position: two public machine-word
/// counters, `row` and `column`, both zero-based.
#[verifier::external_type_specification]
pub struct ExNativePoint(NativePoint);

/// A zero-based (row, column) coordinate.
///
/// A position has no identity beyond its two counters: it is built once and
/// never changes.
#[derive(Clone, Copy, Debug, PartialEq, Eq, Structural, Hash, Ord)]
pub struct Point {
    row: u32,
    column: u32,
}

impl View for Point {
    type V = (nat, nat);

    /// The position as the pair (row, column).
    open spec fn view(&self) -> (nat, nat) {
        (self.row() as nat, self.column() as nat)
    }
}

/// Whether both counters of an engine position fit 32 bits.
pub open spec fn native_point_fits(inner: NativePoint) -> bool {
    inner.row <= u32::MAX && inner.column <= u32::MAX
}

/// The position that stands for an engine position whose counters fit.
pub open spec fn point_of_native(inner: NativePoint) -> Point {
    Point::new(inner.row as u32, inner.column as u32)
}

/// Whether `point` and the engine position `inner` have the same row and the
/// same column.
pub open spec fn point_matches_native(point: Point, inner: NativePoint) -> bool {
    point.row() == inner.row && point.column() == inner.column
}

/// The text that stands for the position at `row` and `column`: both numbers
/// in decimal notation, separated by a comma and a space, in round brackets.
pub open spec fn point_text(row: nat, column: nat) -> Seq<char> {
    seq!['('] + decimal(row) + seq![',', ' '] + decimal(column) + seq![')']
}

/// Renders an engine position with `tree_sitter::Point`'s `Display`
/// implementation, which writes the row and the column with `{}` inside
/// `"({}, {})"`.
#[verifier::external_body]
fn native_point_text(inner: &NativePoint) -> (text: String)
    ensures
        text@ == point_text(inner.row as nat, inner.column as nat),
{
    inner.to_string()
}

impl Point {
    /// The position that `new` builds from `row` and `column`.
    pub closed spec fn spec_new(row: u32, column: u32) -> Point {
        Point { row, column }
    }

    /// The row of this position.
    pub closed spec fn spec_row(&self) -> u32 {
        self.row
    }

    /// The column of this position.
    pub closed spec fn spec_column(&self) -> u32 {
        self.column
    }

    /// Builds the position at `row` and `column`; every pair is accepted.
    #[verifier::when_used_as_spec(spec_new)]
    pub fn new(row: u32, column: u32) -> (p: Point)
        ensures
            p == Point::spec_new(row, column),
            p.row() == row,
            p.column() == column,
    {
        Point { row, column }
    }

    /// The zero-based column.
    #[verifier::when_used_as_spec(spec_column)]
    pub fn column(&self) -> (c: u32)
        ensures
            c == self.column(),
    {
        self.column
    }

    /// The zero-based row.
    #[verifier::when_used_as_spec(spec_row)]
    pub fn row(&self) -> (r: u32)
        ensures
            r == self.row(),
    {
        self.row
    }

    /// Takes over a position of the engine whose counters fit 32 bits.
    ///
    /// The engine never reports a position beyond that range; one that does
    /// not fit is a broken promise of the caller, not an error to recover from.
    pub fn from_native(inner: NativePoint) -> (p: Point)
        requires
            native_point_fits(inner),
        ensures
            p == point_of_native(inner),
            point_matches_native(p, inner),
    {
        Point { row: inner.row as u32, column: inner.column as u32 }
    }

    /// Takes over a position of the engine, or gives `None` when one of its
    /// counters does not fit 32 bits.
    pub fn try_from_native(inner: NativePoint) -> (p: Option<Point>)
        ensures
            p == if native_point_fits(inner) {
                Some(point_of_native(inner))
            } else {
                None
            },
            p matches Some(point) ==> point_matches_native(point, inner),
    {
        if inner.row <= u32::MAX as usize && inner.column <= u32::MAX as usize {
            Some(Point::from_native(inner))
        } else {
            None
        }
    }

    /// This position as the engine holds it.
    pub fn to_native(&self) -> (inner: NativePoint)
        ensures
            native_point_fits(inner),
            point_of_native(inner) == *self,
            point_matches_native(*self, inner),
    {
        NativePoint { row: self.row as usize, column: self.column as usize }
    }

    /// The position as text, `(row, column)`, as the engine writes it.
    pub fn to_string(&self) -> (text: String)
        ensures
            text@ == point_text(self@.0, self@.1),
    {
        let inner = self.to_native();
        native_point_text(&inner)
    }
}

impl Default for Point {
    /// The origin: row 0, column 0.
    fn default() -> (p: Point)
        ensures
            p == Point::new(0, 0),
            p.row() == 0,
            p.column() == 0,
    {
        Point::new(0, 0)
    }
}

impl PartialOrd for Point {
    /// Orders positions by row, then by column.
    fn partial_cmp(&self, other: &Point) -> (o: Option<Ordering>) {
        if self.row < other.row {
            Some(Ordering::Less)
        } else if self.row > other.row {
            Some(Ordering::Greater)
        } else if self.column < other.column {
            Some(Ordering::Less)
        } else if self.column > other.column {
            Some(Ordering::Greater)
        } else {
            Some(Ordering::Equal)
        }
    }
}

impl vstd::std_specs::cmp::PartialOrdSpecImpl for Point {
    open spec fn obeys_partial_cmp_spec() -> bool {
        true
    }

    /// The order of the pairs (row, column), first by row and then by column.
    open spec fn partial_cmp_spec(&self, other: &Point) -> Option<Ordering> {
        vstd::std_specs::cmp::PartialOrdSpec::partial_cmp_spec(
            &(self.row(), self.column()),
            &(other.row(), other.column()),
        )
    }
}

/// A position built from a row and a column gives back that row and that
/// column.
pub proof fn lemma_point_reads_back(row: u32, column: u32)
    ensures
        Point::new(row, column).row() == row,
        Point::new(row, column).column() == column,
{
}

/// Two positions are equal exactly when they have the same row and the same
/// column; a position is the one built from its own row and column.
pub proof fn lemma_point_equality(a: Point, b: Point)
    ensures
        a == b <==> (a.row(), a.column()) == (b.row(), b.column()),
        a == b <==> a@ == b@,
        a == Point::new(a.row(), a.column()),
{
}

/// Positions are ordered by row first and by column second, and no two
/// different positions compare as equal.
pub proof fn lemma_point_order(a: Point, b: Point)
    ensures
        a.partial_cmp_spec(&b) == Some(Ordering::Less) <==> a.row() < b.row() || (a.row()
            == b.row() && a.column() < b.column()),
        a.partial_cmp_spec(&b) == Some(Ordering::Equal) <==> a == b,
        a.partial_cmp_spec(&b) == Some(Ordering::Greater) <==> b.partial_cmp_spec(&a) == Some(
            Ordering::Less,
        ),
        a.partial_cmp_spec(&b) is Some,
{
}

/// The order of positions is transitive.
pub proof fn lemma_point_order_transitive(a: Point, b: Point, c: Point)
    requires
        a.partial_cmp_spec(&b) == Some(Ordering::Less),
        b.partial_cmp_spec(&c) == Some(Ordering::Less),
    ensures
        a.partial_cmp_spec(&c) == Some(Ordering::Less),
{
}

/// The text of a position is never empty and tells the row and the column:
/// two positions with the same text have the same coordinates.
pub proof fn lemma_point_text_injective(row1: nat, column1: nat, row2: nat, column2: nat)
    requires
        point_text(row1, column1) == point_text(row2, column2),
    ensures
        point_text(row1, column1).len() >= 6,
        row1 == row2,
        column1 == column2,
{
    let t1 = point_text(row1, column1);
    let t2 = point_text(row2, column2);
    let r1 = decimal(row1);
    let r2 = decimal(row2);
    let c1 = decimal(column1);
    let c2 = decimal(column2);
    lemma_decimal_is_digits(row1);
    lemma_decimal_is_digits(row2);
    lemma_decimal_is_digits(column1);
    lemma_decimal_is_digits(column2);
    let n1: int = r1.len() as int;
    let n2: int = r2.len() as int;
    assert(t1.len() == n1 + c1.len() + 4);
    assert(t2.len() == n2 + c2.len() + 4);
    assert(t1[1 + n1] == ',');
    assert(t2[1 + n2] == ',');
    if n1 < n2 {
        assert(t2[1 + n1] == r2[n1]);
        assert(is_digit(r2[n1]));
    }
    if n2 < n1 {
        assert(t1[1 + n2] == r1[n2]);
        assert(is_digit(r1[n2]));
    }
    assert(n1 == n2);
    assert(r1 =~= t1.subrange(1, 1 + n1));
    assert(r2 =~= t2.subrange(1, 1 + n2));
    assert(c1 =~= t1.subrange(3 + n1, t1.len() - 1));
    assert(c2 =~= t2.subrange(3 + n2, t2.len() - 1));
    lemma_decimal_injective(row1, row2);
    lemma_decimal_injective(column1, column2);
}

/// Two positions with the same text are the same position.
pub proof fn lemma_point_text_tells_apart(a: Point, b: Point)
    requires
        point_text(a@.0, a@.1) == point_text(b@.0, b@.1),
    ensures
        a == b,
{
    lemma_point_text_injective(a@.0, a@.1, b@.0, b@.1);
}

} // verus!
