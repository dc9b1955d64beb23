//! Piecewise-linear lookup tables over fixed-point numbers.
//!
//! A table is a list of `(key, value)` pairs with strictly increasing keys.
//! Keys and values are plain `i64` numbers: the caller chooses what one unit
//! stands for. Between two neighbouring keys the table follows the straight
//! line through the two entries, rounded down to a whole unit.
use vstd::prelude::*;
use crate::arith::{div_floor, lemma_quotient_bounds, lemma_quotient_is_unique};

verus! {

/// What a table does with a query outside the range of its keys.
#[derive(Clone, Copy, Debug, PartialEq, Eq, Structural)]
pub enum LimitBehaviour {
    /// Answer with the value of the nearest entry.
    Clamp,
    /// Such a query is not allowed.
    Panic,
}

/// The keys grow strictly from each entry to the next.
pub open spec fn strictly_increasing(entries: Seq<(i64, i64)>) -> bool {
    forall|i: int, j: int| 0 <= i < j < entries.len() ==> entries[i].0 < entries[j].0
}

/// What makes a list of pairs a table: it has an entry, and its keys grow.
pub open spec fn is_table(entries: Seq<(i64, i64)>) -> bool {
    entries.len() > 0 && strictly_increasing(entries)
}

/// `x` lies in the range that the keys span.
pub open spec fn in_domain(entries: Seq<(i64, i64)>, x: int) -> bool {
    entries.first().0 <= x <= entries.last().0
}

/// Entry `i` has a right neighbour, and `x` lies from its key up to, but not
/// at, the neighbour's key.
pub open spec fn brackets(entries: Seq<(i64, i64)>, i: int, x: int) -> bool {
    0 <= i < entries.len() - 1 && entries[i].0 <= x < entries[i + 1].0
}

/// The height at `x` of the straight line through `(x1, y1)` and `(x2, y2)`,
/// rounded down.
pub open spec fn line_value(x1: int, y1: int, x2: int, y2: int, x: int) -> int {
    ((x2 - x) * y1 + (x - x1) * y2) / (x2 - x1)
}

/// The value of the table `entries` at `x`: the nearest boundary value
/// outside the keys' range, the line between the two neighbours inside it.
pub open spec fn lookup(entries: Seq<(i64, i64)>, x: int) -> int {
    if x <= entries.first().0 {
        entries.first().1 as int
    } else if x >= entries.last().0 {
        entries.last().1 as int
    } else {
        let i = choose|i: int| brackets(entries, i, x);
        line_value(
            entries[i].0 as int,
            entries[i].1 as int,
            entries[i + 1].0 as int,
            entries[i + 1].1 as int,
            x,
        )
    }
}

/// At most one entry brackets a given `x`.
pub proof fn lemma_bracket_is_unique(entries: Seq<(i64, i64)>, i: int, j: int, x: int)
    requires
        strictly_increasing(entries),
        brackets(entries, i, x),
        brackets(entries, j, x),
    ensures
        i == j,
{
    if i < j {
        assert(entries[i + 1].0 <= entries[j].0) by {
            if i + 1 < j {
                assert(entries[i + 1].0 < entries[j].0);
            }
        }
    } else if j < i {
        assert(entries[j + 1].0 <= entries[i].0) by {
            if j + 1 < i {
                assert(entries[j + 1].0 < entries[i].0);
            }
        }
    }
}

/// Strictly between the first and the last key, the table's value is the
/// line over whichever entry brackets `x`.
pub proof fn lemma_lookup_at_bracket(entries: Seq<(i64, i64)>, i: int, x: int)
    requires
        strictly_increasing(entries),
        brackets(entries, i, x),
    ensures
        entries.first().0 < x ==> lookup(entries, x) == line_value(
            entries[i].0 as int,
            entries[i].1 as int,
            entries[i + 1].0 as int,
            entries[i + 1].1 as int,
            x,
        ),
        x < entries.last().0,
{
    if i + 1 < entries.len() - 1 {
        assert(entries[i + 1].0 < entries[entries.len() - 1].0);
    }
    let c = choose|c: int| brackets(entries, c, x);
    lemma_bracket_is_unique(entries, c, i, x);
}

/// A line takes its left end's value at its left end.
pub proof fn lemma_line_at_left_end(x1: int, y1: int, x2: int, y2: int)
    requires
        x1 < x2,
    ensures
        line_value(x1, y1, x2, y2, x1) == y1,
{
    let d = x2 - x1;
    assert((x2 - x1) * y1 + (x1 - x1) * y2 == d * y1) by (nonlinear_arith)
        requires
            d == x2 - x1,
    ;
    lemma_quotient_is_unique(d * y1, d, y1);
}

/// On its span a line stays between the values at its two ends.
pub proof fn lemma_line_is_between(x1: int, y1: int, x2: int, y2: int, x: int)
    requires
        x1 <= x < x2,
    ensures
        y1 <= y2 ==> y1 <= line_value(x1, y1, x2, y2, x) <= y2,
        y2 <= y1 ==> y2 <= line_value(x1, y1, x2, y2, x) <= y1,
{
    let d = x2 - x1;
    let n = (x2 - x) * y1 + (x - x1) * y2;
    let q = n / d;
    lemma_quotient_bounds(n, d);
    if y1 <= y2 {
        assert(d * y1 <= n && n <= d * y2) by (nonlinear_arith)
            requires
                x1 <= x < x2,
                y1 <= y2,
                d == x2 - x1,
                n == (x2 - x) * y1 + (x - x1) * y2,
        ;
        assert(y1 <= q && q <= y2) by (nonlinear_arith)
            requires
                d > 0,
                d * y1 <= n,
                n <= d * y2,
                d * q <= n < d * q + d,
        ;
    }
    if y2 <= y1 {
        assert(d * y2 <= n && n <= d * y1) by (nonlinear_arith)
            requires
                x1 <= x < x2,
                y2 <= y1,
                d == x2 - x1,
                n == (x2 - x) * y1 + (x - x1) * y2,
        ;
        assert(y2 <= q && q <= y1) by (nonlinear_arith)
            requires
                d > 0,
                d * y2 <= n,
                n <= d * y1,
                d * q <= n < d * q + d,
        ;
    }
}

/// At each of its keys a table has exactly the value stored with the key.
pub proof fn lemma_lookup_at_key(entries: Seq<(i64, i64)>, i: int)
    requires
        is_table(entries),
        0 <= i < entries.len(),
    ensures
        lookup(entries, entries[i].0 as int) == entries[i].1,
{
    let x = entries[i].0 as int;
    if i == 0 {
    } else if i == entries.len() - 1 {
        assert(entries[0].0 < entries[i].0);
    } else {
        assert(entries[0].0 < entries[i].0);
        assert(entries[i].0 < entries[i + 1].0);
        lemma_lookup_at_bracket(entries, i, x);
        lemma_line_at_left_end(
            x,
            entries[i].1 as int,
            entries[i + 1].0 as int,
            entries[i + 1].1 as int,
        );
    }
}

/// Outside the range of its keys a table repeats its boundary values.
pub proof fn lemma_lookup_outside_domain(entries: Seq<(i64, i64)>, x: int)
    requires
        is_table(entries),
        !in_domain(entries, x),
    ensures
        x < entries.first().0 ==> lookup(entries, x) == entries.first().1,
        x > entries.last().0 ==> lookup(entries, x) == entries.last().1,
{
    if entries.len() > 1 {
        assert(entries[0].0 < entries[entries.len() - 1].0);
    }
}

/// From its last key on, and up to its first key, a table is constant.
pub proof fn lemma_lookup_is_constant_outside(entries: Seq<(i64, i64)>, x: int, y: int)
    requires
        is_table(entries),
    ensures
        x >= entries.last().0 && y >= entries.last().0 ==> lookup(entries, x) == lookup(entries, y),
        x <= entries.first().0 && y <= entries.first().0 ==> lookup(entries, x) == lookup(
            entries,
            y,
        ),
{
    if entries.len() > 1 {
        assert(entries[0].0 < entries[entries.len() - 1].0);
    }
}

/// Keys that grow from each entry to the next grow along the whole list.
pub proof fn lemma_neighbours_suffice(entries: Seq<(i64, i64)>)
    requires
        forall|i: int| 0 <= i < entries.len() - 1 ==> (#[trigger] entries[i]).0 < entries[i + 1].0,
    ensures
        strictly_increasing(entries),
{
    assert forall|i: int, j: int| 0 <= i < j < entries.len() implies entries[i].0
        < entries[j].0 by {
        lemma_keys_grow_between(entries, i, j);
    }
}

proof fn lemma_keys_grow_between(entries: Seq<(i64, i64)>, i: int, j: int)
    requires
        forall|i: int| 0 <= i < entries.len() - 1 ==> (#[trigger] entries[i]).0 < entries[i + 1].0,
        0 <= i < j < entries.len(),
    ensures
        entries[i].0 < entries[j].0,
    decreases j - i,
{
    if i + 1 < j {
        lemma_keys_grow_between(entries, i, j - 1);
    }
    assert(entries[j - 1].0 < entries[j - 1 + 1].0);
}

/// Every value of a table lies between the smallest and the largest of the
/// values stored in it: `low` and `high` are any bounds on those.
pub proof fn lemma_lookup_is_bounded(entries: Seq<(i64, i64)>, x: int, low: int, high: int)
    requires
        is_table(entries),
        forall|i: int| 0 <= i < entries.len() ==> low <= (#[trigger] entries[i]).1 <= high,
    ensures
        low <= lookup(entries, x) <= high,
{
    if x <= entries.first().0 {
    } else if x >= entries.last().0 {
    } else {
        lemma_some_entry_brackets(entries, x, (entries.len() - 1) as int);
        let i = choose|i: int| brackets(entries, i, x);
        lemma_line_is_between(
            entries[i].0 as int,
            entries[i].1 as int,
            entries[i + 1].0 as int,
            entries[i + 1].1 as int,
            x,
        );
        assert(low <= entries[i].1 <= high);
        assert(low <= entries[i + 1].1 <= high);
    }
}

/// Some entry brackets each `x` from the first key up to the key of entry
/// `top`.
proof fn lemma_some_entry_brackets(entries: Seq<(i64, i64)>, x: int, top: int)
    requires
        0 < top < entries.len(),
        entries[0].0 <= x < entries[top].0,
    ensures
        exists|i: int| brackets(entries, i, x),
    decreases top,
{
    if entries[top - 1].0 <= x {
        assert(brackets(entries, top - 1, x));
    } else {
        lemma_some_entry_brackets(entries, x, top - 1);
    }
}

/// The height at `x` of the line through two neighbouring entries.
fn line_at(x1: i64, y1: i64, x2: i64, y2: i64, x: i64) -> (y: i64)
    requires
        x1 <= x < x2,
    ensures
        y == line_value(x1 as int, y1 as int, x2 as int, y2 as int, x as int),
{
    let right: i128 = x2 as i128 - x as i128;
    let left: i128 = x as i128 - x1 as i128;
    let span: i128 = x2 as i128 - x1 as i128;
    let ghost bound: int = 0x8000_0000_0000_0000;
    assert(-(right * bound) <= right * y1 <= right * bound) by (nonlinear_arith)
        requires
            0 <= right,
            -bound <= y1 <= bound,
    ;
    assert(-(left * bound) <= left * y2 <= left * bound) by (nonlinear_arith)
        requires
            0 <= left,
            -bound <= y2 <= bound,
    ;
    assert(right * bound + left * bound == span * bound) by (nonlinear_arith)
        requires
            right + left == span,
    ;
    assert(span * bound < 0x8000_0000_0000_0000_0000_0000_0000_0000) by (nonlinear_arith)
        requires
            0 < span < 0x1_0000_0000_0000_0000,
            bound == 0x8000_0000_0000_0000,
    ;
    assert(right * bound <= span * bound && left * bound <= span * bound) by (nonlinear_arith)
        requires
            0 <= right <= span,
            0 <= left <= span,
            bound > 0,
    ;
    let weighted: i128 = right * (y1 as i128) + left * (y2 as i128);
    let q: i128 = div_floor(weighted, span);
    proof {
        lemma_line_is_between(x1 as int, y1 as int, x2 as int, y2 as int, x as int);
    }
    q as i64
}

/// Finds the entry that brackets `x`, by halving the range of candidates.
fn bracket_of(entries: &[(i64, i64)], x: i64) -> (i: usize)
    requires
        is_table(entries@),
        entries@.first().0 <= x < entries@.last().0,
    ensures
        brackets(entries@, i as int, x as int),
{
    let mut low: usize = 0;
    let mut high: usize = entries.len() - 1;
    while high - low > 1
        invariant
            low < high < entries@.len(),
            entries@[low as int].0 <= x < entries@[high as int].0,
        decreases high - low,
    {
        let middle: usize = low + (high - low) / 2;
        if entries[middle].0 <= x {
            low = middle;
        } else {
            high = middle;
        }
    }
    low
}

/// Looks `x` up in the table that the slice `entries` holds.
///
/// Outside the range of the keys the answer is the value of the nearest
/// entry. Whether such a query is allowed at all is the caller's decision;
/// see [`LinearInterpolationTable::get`].
pub fn interpolate(entries: &[(i64, i64)], x: i64) -> (y: i64)
    requires
        is_table(entries@),
    ensures
        y == lookup(entries@, x as int),
{
    let last: usize = entries.len() - 1;
    if x <= entries[0].0 {
        entries[0].1
    } else if x >= entries[last].0 {
        entries[last].1
    } else {
        let i: usize = bracket_of(entries, x);
        proof {
            lemma_lookup_at_bracket(entries@, i as int, x as int);
        }
        line_at(entries[i].0, entries[i].1, entries[i + 1].0, entries[i + 1].1, x)
    }
}

/// A piecewise-linear table with its policy for queries outside its keys.
pub struct LinearInterpolationTable {
    table: Vec<(i64, i64)>,
    limit_behaviour: LimitBehaviour,
}

impl View for LinearInterpolationTable {
    type V = Seq<(i64, i64)>;

    /// The entries of the table, in the order of their keys.
    closed spec fn view(&self) -> Seq<(i64, i64)> {
        self.table@
    }
}

impl LinearInterpolationTable {
    #[verifier::type_invariant]
    spec fn keys_grow(self) -> bool {
        is_table(self.table@)
    }

    /// The policy that the table was made with.
    pub closed spec fn limit(&self) -> LimitBehaviour {
        self.limit_behaviour
    }

    /// Makes a table of the given entries. There must be at least one, and
    /// their keys must grow strictly.
    pub fn new(limit_behaviour: LimitBehaviour, table: Vec<(i64, i64)>) -> (made: Self)
        requires
            is_table(table@),
        ensures
            made@ == table@,
            made.limit() == limit_behaviour,
    {
        LinearInterpolationTable { table, limit_behaviour }
    }

    /// The policy that the table was made with.
    pub fn limit_behaviour(&self) -> (limit_behaviour: LimitBehaviour)
        ensures
            limit_behaviour == self.limit(),
    {
        self.limit_behaviour
    }

    /// The entries of the table, in the order of their keys.
    pub fn entries(&self) -> (entries: &[(i64, i64)])
        ensures
            entries@ == self@,
            is_table(self@),
    {
        proof {
            use_type_invariant(self);
        }
        self.table.as_slice()
    }

    /// The table's value at `x`. A table made with [`LimitBehaviour::Panic`]
    /// takes no `x` outside the range of its keys.
    pub fn get(&self, x: i64) -> (y: i64)
        requires
            self.limit() == LimitBehaviour::Panic ==> in_domain(self@, x as int),
        ensures
            is_table(self@),
            y == lookup(self@, x as int),
    {
        proof {
            use_type_invariant(self);
        }
        interpolate(self.table.as_slice(), x)
    }
}

} // verus!
