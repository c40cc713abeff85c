use std::cmp::Ordering;
use vstd::prelude::*;
use vstd::std_specs::cmp::PartialOrdSpec;

verus! {

/// A `(line, offset)` coordinate into line-structured text.
///
/// A position carries no invariant of its own: whether it addresses a real
/// slot is always decided against a text store.
#[derive(Copy, Clone, Debug, PartialEq, Eq, Structural)]
pub struct Position {
    pub line: usize,
    pub offset: usize,
}

/// Line-major, offset-minor order of two positions.
pub open spec fn order(a: Position, b: Position) -> Ordering {
    if a.line < b.line {
        Ordering::Less
    } else if a.line > b.line {
        Ordering::Greater
    } else if a.offset < b.offset {
        Ordering::Less
    } else if a.offset > b.offset {
        Ordering::Greater
    } else {
        Ordering::Equal
    }
}

/// `a` comes strictly before `b`.
pub open spec fn before(a: Position, b: Position) -> bool {
    a.line < b.line || (a.line == b.line && a.offset < b.offset)
}

impl PartialOrd for Position {
    fn partial_cmp(&self, other: &Position) -> (r: Option<Ordering>)
        ensures
            r == Some(order(*self, *other)),
    {
        Some(
            if self.line < other.line {
                Ordering::Less
            } else if self.line > other.line {
                Ordering::Greater
            } else if self.offset < other.offset {
                Ordering::Less
            } else if self.offset > other.offset {
                Ordering::Greater
            } else {
                Ordering::Equal
            },
        )
    }
}

impl vstd::std_specs::cmp::PartialOrdSpecImpl for Position {
    open spec fn obeys_partial_cmp_spec() -> bool {
        true
    }

    open spec fn partial_cmp_spec(&self, other: &Position) -> Option<Ordering> {
        Some(order(*self, *other))
    }
}

/// Positions are ordered by line first and by offset second: `a < b` exactly
/// when `a` is on an earlier line, or on the same line at a smaller offset,
/// whatever the offsets are when the lines differ; and two positions are
/// equal exactly when both fields are.
pub proof fn lemma_order_is_line_major(a: Position, b: Position)
    ensures
        (a.partial_cmp_spec(&b) == Some(Ordering::Less)) <==> before(a, b),
        (a.partial_cmp_spec(&b) == Some(Ordering::Greater)) <==> before(b, a),
        (a.partial_cmp_spec(&b) == Some(Ordering::Equal)) <==> (a.line == b.line && a.offset
            == b.offset),
        (a == b) <==> (a.line == b.line && a.offset == b.offset),
        a.line < b.line ==> a.partial_cmp_spec(&b) == Some(Ordering::Less),
{
}

/// The order is a total order: exactly one of less, equal and greater holds
/// of any two positions, it is antisymmetric, and it is transitive.
pub proof fn lemma_order_is_total(a: Position, b: Position, c: Position)
    ensures
        order(a, b) == Ordering::Less <==> order(b, a) == Ordering::Greater,
        order(a, b) == Ordering::Equal <==> a == b,
        order(a, b) != Ordering::Greater && order(b, a) != Ordering::Greater ==> a == b,
        order(a, b) == Ordering::Less && order(b, c) == Ordering::Less ==> order(a, c)
            == Ordering::Less,
        order(a, b) != Ordering::Greater && order(b, c) != Ordering::Greater ==> order(a, c)
            != Ordering::Greater,
{
}

} // verus!
