//! A span of source text, as a byte interval and as a pair of positions.

use crate::point::{
    lemma_point_equality, lemma_point_order, lemma_point_order_transitive, native_point_fits,
    point_matches_native, point_of_native, Point,
};
use std::cmp::Ordering;
use tree_sitter::Range as NativeRange;
use vstd::prelude::*;
use vstd::std_specs::cmp::PartialOrdSpec;

verus! {

/// `tree_sitter::Range`, the engine's own span: two public machine-word byte
/// offsets, `start_byte` and `end_byte`, and two public positions,
/// `start_point` and `end_point`.
#[verifier::external_type_specification]
pub struct ExNativeRange(NativeRange);

/// A span of source text: the bytes from `start_byte` up to `end_byte`, and
/// the positions of its two ends.
///
/// The start never lies behind the end. That each position is the one of its
/// byte offset is the word of whoever built the span: no text is at hand to
/// hold it against.
#[derive(Clone, Copy, Debug, PartialEq, Eq, Structural, Hash, Ord)]
pub struct Range {
    start_byte: u32,
    end_byte: u32,
    start_point: Point,
    end_point: Point,
}

impl View for Range {
    type V = (nat, nat, (nat, nat), (nat, nat));

    /// The span as the tuple (start byte, end byte, start position, end
    /// position).
    open spec fn view(&self) -> (nat, nat, (nat, nat), (nat, nat)) {
        (
            self.start_byte() as nat,
            self.end_byte() as nat,
            self.start_point()@,
            self.end_point()@,
        )
    }
}

/// Whether a span of the engine can be taken over: its byte offsets and the
/// counters of its positions fit 32 bits, and it does not end before it starts.
pub open spec fn native_range_fits(inner: NativeRange) -> bool {
    &&& inner.start_byte <= inner.end_byte
    &&& inner.end_byte <= u32::MAX
    &&& native_point_fits(inner.start_point)
    &&& native_point_fits(inner.end_point)
}

/// The span that stands for an engine span that fits.
pub open spec fn range_of_native(inner: NativeRange) -> Range {
    Range::new(
        inner.start_byte as u32,
        inner.end_byte as u32,
        &point_of_native(inner.start_point),
        &point_of_native(inner.end_point),
    )
}

/// Whether `range` and the engine span `inner` agree in all four parts.
pub open spec fn range_matches_native(range: Range, inner: NativeRange) -> bool {
    &&& range.start_byte() == inner.start_byte
    &&& range.end_byte() == inner.end_byte
    &&& point_matches_native(range.start_point(), inner.start_point)
    &&& point_matches_native(range.end_point(), inner.end_point)
}

impl Range {
    #[verifier::type_invariant]
    spec fn ordered(self) -> bool {
        self.start_byte <= self.end_byte
    }

    /// The span that `new` builds from its four parts.
    pub closed spec fn spec_new(
        start_byte: u32,
        end_byte: u32,
        start_point: &Point,
        end_point: &Point,
    ) -> Range {
        Range { start_byte, end_byte, start_point: *start_point, end_point: *end_point }
    }

    /// The offset of the first byte of this span.
    pub closed spec fn spec_start_byte(&self) -> u32 {
        self.start_byte
    }

    /// The offset just behind the last byte of this span.
    pub closed spec fn spec_end_byte(&self) -> u32 {
        self.end_byte
    }

    /// The position of the start of this span.
    pub closed spec fn spec_start_point(&self) -> Point {
        self.start_point
    }

    /// The position of the end of this span.
    pub closed spec fn spec_end_point(&self) -> Point {
        self.end_point
    }

    /// Builds the span of the bytes from `start_byte` up to `end_byte`, whose
    /// ends lie at `start_point` and `end_point`.
    ///
    /// That the span does not end before it starts is owed by the caller;
    /// nothing is tested when the program runs.
    #[verifier::when_used_as_spec(spec_new)]
    pub fn new(start_byte: u32, end_byte: u32, start_point: &Point, end_point: &Point) -> (r: Range)
        requires
            start_byte <= end_byte,
        ensures
            r == Range::spec_new(start_byte, end_byte, start_point, end_point),
            r.start_byte() == start_byte,
            r.end_byte() == end_byte,
            r.start_point() == *start_point,
            r.end_point() == *end_point,
    {
        Range { start_byte, end_byte, start_point: *start_point, end_point: *end_point }
    }

    /// The offset just behind the last byte; never below the start.
    #[verifier::when_used_as_spec(spec_end_byte)]
    pub fn end_byte(&self) -> (b: u32)
        ensures
            b == self.end_byte(),
            self.start_byte() <= b,
    {
        proof {
            use_type_invariant(self);
        }
        self.end_byte
    }

    /// A copy of the position of the end.
    #[verifier::when_used_as_spec(spec_end_point)]
    pub fn end_point(&self) -> (p: Point)
        ensures
            p == self.end_point(),
    {
        self.end_point
    }

    /// The offset of the first byte; never above the end.
    #[verifier::when_used_as_spec(spec_start_byte)]
    pub fn start_byte(&self) -> (b: u32)
        ensures
            b == self.start_byte(),
            b <= self.end_byte(),
    {
        proof {
            use_type_invariant(self);
        }
        self.start_byte
    }

    /// A copy of the position of the start.
    #[verifier::when_used_as_spec(spec_start_point)]
    pub fn start_point(&self) -> (p: Point)
        ensures
            p == self.start_point(),
    {
        self.start_point
    }

    /// Takes over a span of the engine that fits.
    ///
    /// The engine never reports a span that does not; one that does not is a
    /// broken promise of the caller, not an error to recover from.
    pub fn from_native(inner: NativeRange) -> (r: Range)
        requires
            native_range_fits(inner),
        ensures
            r == range_of_native(inner),
            range_matches_native(r, inner),
    {
        let start_point = Point::from_native(inner.start_point);
        let end_point = Point::from_native(inner.end_point);
        Range {
            start_byte: inner.start_byte as u32,
            end_byte: inner.end_byte as u32,
            start_point,
            end_point,
        }
    }

    /// Takes over a span of the engine, or gives `None` when it does not fit.
    pub fn try_from_native(inner: NativeRange) -> (r: Option<Range>)
        ensures
            r == if native_range_fits(inner) {
                Some(range_of_native(inner))
            } else {
                None
            },
            r matches Some(range) ==> range_matches_native(range, inner),
    {
        let max: usize = u32::MAX as usize;
        if inner.start_byte <= inner.end_byte && inner.end_byte <= max && inner.start_point.row
            <= max && inner.start_point.column <= max && inner.end_point.row <= max
            && inner.end_point.column <= max {
            Some(Range::from_native(inner))
        } else {
            None
        }
    }

    /// This span as the engine holds it.
    pub fn to_native(&self) -> (inner: NativeRange)
        ensures
            native_range_fits(inner),
            range_of_native(inner) == *self,
            range_matches_native(*self, inner),
    {
        proof {
            use_type_invariant(self);
        }
        NativeRange {
            start_byte: self.start_byte as usize,
            end_byte: self.end_byte as usize,
            start_point: self.start_point.to_native(),
            end_point: self.end_point.to_native(),
        }
    }
}

impl Default for Range {
    /// The empty span at the origin.
    fn default() -> (r: Range)
        ensures
            r == Range::new(0, 0, &Point::new(0, 0), &Point::new(0, 0)),
            r.start_byte() == 0,
            r.end_byte() == 0,
            r.start_point() == Point::new(0, 0),
            r.end_point() == Point::new(0, 0),
    {
        let origin = Point::default();
        Range::new(0, 0, &origin, &origin)
    }
}

impl PartialOrd for Range {
    /// Orders spans by start byte, then end byte, then start position, then
    /// end position.
    fn partial_cmp(&self, other: &Range) -> (o: Option<Ordering>) {
        if self.start_byte < other.start_byte {
            Some(Ordering::Less)
        } else if self.start_byte > other.start_byte {
            Some(Ordering::Greater)
        } else if self.end_byte < other.end_byte {
            Some(Ordering::Less)
        } else if self.end_byte > other.end_byte {
            Some(Ordering::Greater)
        } else {
            match self.start_point.partial_cmp(&other.start_point) {
                Some(Ordering::Equal) => self.end_point.partial_cmp(&other.end_point),
                decided => decided,
            }
        }
    }
}

impl vstd::std_specs::cmp::PartialOrdSpecImpl for Range {
    open spec fn obeys_partial_cmp_spec() -> bool {
        true
    }

    /// The order of the tuples (start byte, end byte, start position, end
    /// position), decided by the first part in which two spans differ.
    open spec fn partial_cmp_spec(&self, other: &Range) -> Option<Ordering> {
        vstd::std_specs::cmp::PartialOrdSpec::partial_cmp_spec(
            &(self.start_byte(), self.end_byte(), self.start_point(), self.end_point()),
            &(other.start_byte(), other.end_byte(), other.start_point(), other.end_point()),
        )
    }
}

/// A span built from four parts gives back those parts.
pub proof fn lemma_range_reads_back(
    start_byte: u32,
    end_byte: u32,
    start_point: Point,
    end_point: Point,
)
    ensures
        Range::new(start_byte, end_byte, &start_point, &end_point).start_byte() == start_byte,
        Range::new(start_byte, end_byte, &start_point, &end_point).end_byte() == end_byte,
        Range::new(start_byte, end_byte, &start_point, &end_point).start_point() == start_point,
        Range::new(start_byte, end_byte, &start_point, &end_point).end_point() == end_point,
{
}

/// Two spans are equal exactly when they agree in all four parts; a span is
/// the one built from its own parts.
pub proof fn lemma_range_equality(s1: Range, s2: Range)
    ensures
        s1 == s2 <==> (s1.start_byte(), s1.end_byte(), s1.start_point(), s1.end_point()) == (
            s2.start_byte(),
            s2.end_byte(),
            s2.start_point(),
            s2.end_point(),
        ),
        s1 == s2 <==> s1@ == s2@,
        s1 == Range::new(s1.start_byte(), s1.end_byte(), &s1.start_point(), &s1.end_point()),
{
    lemma_point_equality(s1.start_point(), s2.start_point());
    lemma_point_equality(s1.end_point(), s2.end_point());
}

/// Spans are ordered by the first of their four parts in which they differ:
/// start byte, end byte, start position, end position. No two different
/// spans compare as equal.
pub proof fn lemma_range_order(s1: Range, s2: Range)
    ensures
        s1.partial_cmp_spec(&s2) == Some(Ordering::Less) <==> {
            ||| s1.start_byte() < s2.start_byte()
            ||| s1.start_byte() == s2.start_byte() && s1.end_byte() < s2.end_byte()
            ||| s1.start_byte() == s2.start_byte() && s1.end_byte() == s2.end_byte()
                && s1.start_point().partial_cmp_spec(&s2.start_point()) == Some(Ordering::Less)
            ||| s1.start_byte() == s2.start_byte() && s1.end_byte() == s2.end_byte()
                && s1.start_point() == s2.start_point() && s1.end_point().partial_cmp_spec(
                &s2.end_point(),
            ) == Some(Ordering::Less)
        },
        s1.partial_cmp_spec(&s2) == Some(Ordering::Equal) <==> s1 == s2,
        s1.partial_cmp_spec(&s2) == Some(Ordering::Greater) <==> s2.partial_cmp_spec(&s1) == Some(
            Ordering::Less,
        ),
        s1.partial_cmp_spec(&s2) is Some,
{
    lemma_point_order(s1.start_point(), s2.start_point());
    lemma_point_order(s1.end_point(), s2.end_point());
    lemma_range_equality(s1, s2);
}

/// The order of spans is transitive.
pub proof fn lemma_range_order_transitive(s1: Range, s2: Range, s3: Range)
    requires
        s1.partial_cmp_spec(&s2) == Some(Ordering::Less),
        s2.partial_cmp_spec(&s3) == Some(Ordering::Less),
    ensures
        s1.partial_cmp_spec(&s3) == Some(Ordering::Less),
{
    lemma_range_order(s1, s2);
    lemma_range_order(s2, s3);
    lemma_range_order(s1, s3);
    if s1.start_point().partial_cmp_spec(&s2.start_point()) == Some(Ordering::Less)
        && s2.start_point().partial_cmp_spec(&s3.start_point()) == Some(Ordering::Less) {
        lemma_point_order_transitive(s1.start_point(), s2.start_point(), s3.start_point());
    }
    if s1.end_point().partial_cmp_spec(&s2.end_point()) == Some(Ordering::Less)
        && s2.end_point().partial_cmp_spec(&s3.end_point()) == Some(Ordering::Less) {
        lemma_point_order_transitive(s1.end_point(), s2.end_point(), s3.end_point());
    }
}

/// Two spans over the same bytes whose positions differ are different spans,
/// and the order tells them apart.
pub proof fn lemma_range_positions_count(s1: Range, s2: Range)
    requires
        s1.start_byte() == s2.start_byte(),
        s1.end_byte() == s2.end_byte(),
        s1.start_point() != s2.start_point() || s1.end_point() != s2.end_point(),
    ensures
        s1 != s2,
        s1.partial_cmp_spec(&s2) != Some(Ordering::Equal),
{
    lemma_range_order(s1, s2);
}

} // verus!
