//! Piecewise-linear lookup tables: the single interpolation primitive behind
//! every empirical response curve in the model.
//!
//! A table holds two parallel sequences: strictly increasing `x` control
//! points and their `y` values.  Evaluation clamps the query into the defined
//! range and blends linearly between the two bracketing points, in exact
//! fixed-point arithmetic.

use vstd::prelude::*;
use crate::fixed::{fadd, fdiv, fmul, fsub, fix_add, fix_div, fix_mul, fix_sub};

verus! {

/// One piecewise-linear curve.  `x` must be strictly increasing and `y` must
/// have the same length; both hold fixed-point values.
pub struct LookupTable {
    pub name: String,
    pub x: Vec<i64>,
    pub y: Vec<i64>,
}

/// Adjacent control points are strictly increasing in `x`.
pub open spec fn strictly_increasing(x: Seq<i64>) -> bool {
    forall|i: int| 0 <= i && i + 1 < x.len() ==> x[i] < #[trigger] x[i + 1]
}

/// The table invariant: parallel sequences, at least two points, `x` strictly
/// increasing.
pub open spec fn table_wf(x: Seq<i64>, y: Seq<i64>) -> bool {
    &&& x.len() == y.len()
    &&& x.len() >= 2
    &&& strictly_increasing(x)
}

/// Exact linear blend between `(x0, y0)` and `(x1, y1)` at `q`, in the
/// fixed-point ops the evaluator uses.
pub open spec fn interp(x0: int, x1: int, y0: int, y1: int, q: int) -> int {
    fadd(y0, fmul(fdiv(fsub(q, x0), fsub(x1, x0)), fsub(y1, y0)))
}

/// Scan for the bracketing segment starting at index `i` and blend there.
pub open spec fn eval_from(x: Seq<i64>, y: Seq<i64>, q: int, i: int) -> int
    decreases x.len() - i,
{
    if i + 2 < x.len() && (x[i + 1] as int) < q {
        eval_from(x, y, q, i + 1)
    } else if 0 <= i && i + 1 < x.len() {
        interp(x[i] as int, x[i + 1] as int, y[i] as int, y[i + 1] as int, q)
    } else {
        0
    }
}

/// The value of a table at `q`: endpoint values outside the defined range,
/// the linear blend of the bracketing segment inside it.
pub open spec fn eval_spec(x: Seq<i64>, y: Seq<i64>, q: int) -> int {
    if q <= x[0] as int {
        y[0] as int
    } else if q >= x[x.len() - 1] as int {
        y[y.len() - 1] as int
    } else {
        eval_from(x, y, q, 0)
    }
}

/// The value of a table at `q`: shorthand over the table's own sequences.
pub open spec fn table_at(t: LookupTable, q: int) -> int {
    eval_spec(t.x@, t.y@, q)
}

/// Strict increase of adjacent points gives monotonicity over any span.
proof fn lemma_inc_le(x: Seq<i64>, i: int, j: int)
    requires
        strictly_increasing(x),
        0 <= i <= j < x.len(),
    ensures
        x[i] <= x[j],
    decreases j - i,
{
    if i < j {
        lemma_inc_le(x, i + 1, j);
    }
}

/// The scan from `lo` lands on the segment `[i, i + 1]` that brackets `q`.
proof fn lemma_eval_from_lands(x: Seq<i64>, y: Seq<i64>, q: int, lo: int, i: int)
    requires
        strictly_increasing(x),
        0 <= lo <= i,
        i + 1 < x.len(),
        (x[i] as int) < q,
        q <= x[i + 1] as int,
    ensures
        eval_from(x, y, q, lo) == interp(
            x[i] as int,
            x[i + 1] as int,
            y[i] as int,
            y[i + 1] as int,
            q,
        ),
    decreases i - lo,
{
    if lo < i {
        lemma_inc_le(x, lo + 1, i);
        lemma_eval_from_lands(x, y, q, lo + 1, i);
    }
}

/// Inside the defined range, the table's value is exactly the linear blend of
/// its two bracketing points: for any well-formed table and any interior `q`
/// with `x[i] < q <= x[i + 1]`, evaluation returns `interp` on that segment.
pub proof fn lemma_eval_interior(x: Seq<i64>, y: Seq<i64>, q: int, i: int)
    requires
        table_wf(x, y),
        0 <= i,
        i + 1 < x.len(),
        (x[i] as int) < q,
        q <= x[i + 1] as int,
        q < x[x.len() - 1] as int,
    ensures
        eval_spec(x, y, q) == interp(x[i] as int, x[i + 1] as int, y[i] as int, y[i + 1] as int, q),
{
    lemma_inc_le(x, 0, i);
    assert((x[0] as int) <= x[i] as int);
    lemma_eval_from_lands(x, y, q, 0, i);
}

impl LookupTable {
    /// Construct a table whose invariant has already been established; the
    /// embedded calibration data is proved valid at compile time.
    pub fn new(name: &str, x: Vec<i64>, y: Vec<i64>) -> (r: LookupTable)
        requires
            table_wf(x@, y@),
        ensures
            r.x@ == x@,
            r.y@ == y@,
            table_wf(r.x@, r.y@),
    {
        LookupTable { name: name.to_string(), x, y }
    }

    /// Validating constructor: returns the table exactly when the control
    /// points satisfy the invariant, and `None` on malformed data.
    pub fn try_new(name: &str, x: Vec<i64>, y: Vec<i64>) -> (r: Option<LookupTable>)
        ensures
            r is Some <==> table_wf(x@, y@),
            r is Some ==> r->0.x@ == x@ && r->0.y@ == y@,
    {
        if x.len() != y.len() || x.len() < 2 {
            return None;
        }
        let mut i: usize = 0;
        while i < x.len() - 1
            invariant
                x@.len() >= 2,
                i <= x@.len() - 1,
                forall|j: int| 0 <= j < i ==> x@[j] < #[trigger] x@[j + 1],
            decreases x@.len() - i,
        {
            if x[i] >= x[i + 1] {
                return None;
            }
            i = i + 1;
        }
        Some(LookupTable { name: name.to_string(), x, y })
    }

    /// Evaluate the table at `x_in`: clamped to the endpoint values outside
    /// the defined range, the exact linear blend of the bracketing segment
    /// inside it.
    pub fn eval(&self, x_in: i64) -> (r: i64)
        requires
            table_wf(self.x@, self.y@),
        ensures
            r as int == eval_spec(self.x@, self.y@, x_in as int),
            x_in <= self.x@[0] ==> r == self.y@[0],
            x_in >= self.x@[self.x@.len() - 1] ==> r == self.y@[self.y@.len() - 1],
    {
        let n = self.x.len();
        proof {
            lemma_inc_le(self.x@, 1, n as int - 1);
            assert(self.x@[0] < self.x@[0int + 1]);
            assert(self.x@[0] < self.x@[n as int - 1]);
        }
        if x_in <= self.x[0] {
            return self.y[0];
        }
        if x_in >= self.x[n - 1] {
            return self.y[n - 1];
        }
        let mut i: usize = 0;
        while i + 2 < n && self.x[i + 1] < x_in
            invariant
                n == self.x@.len(),
                table_wf(self.x@, self.y@),
                0 <= i,
                i + 1 < n,
                eval_from(self.x@, self.y@, x_in as int, 0) == eval_from(
                    self.x@,
                    self.y@,
                    x_in as int,
                    i as int,
                ),
            decreases n - i,
        {
            i = i + 1;
        }
        let x0 = self.x[i];
        let x1 = self.x[i + 1];
        let y0 = self.y[i];
        let y1 = self.y[i + 1];
        proof {
            assert(x0 < x1);
            assert(fsub(x1 as int, x0 as int) >= 1);
        }
        let dx = fix_sub(x1, x0);
        let t = fix_div(fix_sub(x_in, x0), dx);
        let r = fix_add(y0, fix_mul(t, fix_sub(y1, y0)));
        proof {
            if i + 2 < n {
                assert(x_in <= self.x@[i + 1]);
            } else {
                assert(i + 2 == n);
                assert(x_in < self.x@[n - 1]);
            }
        }
        r
    }
}

} // verus!
