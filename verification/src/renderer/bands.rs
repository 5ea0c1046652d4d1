//! Cutting the rows of a frame into contiguous bands, one per worker.

use vstd::prelude::*;

verus! {

/// The first row of band `id` when `rows` rows are shared among `workers`
/// workers: every band gets `rows / workers` rows, and the first
/// `rows % workers` bands one more. Band `id` ends where band `id + 1` starts.
pub open spec fn band_start(rows: nat, workers: nat, id: nat) -> nat {
    id * (rows / workers) + if id < rows % workers {
        id
    } else {
        rows % workers
    }
}

/// Whether `row` lies in band `id`.
pub open spec fn in_band(rows: nat, workers: nat, id: nat, row: nat) -> bool {
    band_start(rows, workers, id) <= row < band_start(rows, workers, id + 1)
}

/// Whether some worker's band holds `row`.
pub open spec fn has_band(rows: nat, workers: nat, row: nat) -> bool {
    exists|id: nat| id < workers && #[trigger] in_band(rows, workers, id, row)
}

/// A band never starts after the one that follows it.
pub proof fn lemma_band_step(rows: nat, workers: nat, id: nat)
    requires
        workers > 0,
    ensures
        band_start(rows, workers, id) <= band_start(rows, workers, id + 1),
        band_start(rows, workers, id + 1) - band_start(rows, workers, id) <= rows / workers + 1,
{
    let q = rows / workers;
    assert((id + 1) * q == id * q + q) by (nonlinear_arith);
}

/// Band starts grow with the band's number.
pub proof fn lemma_band_monotonic(rows: nat, workers: nat, a: nat, b: nat)
    requires
        workers > 0,
        a <= b,
    ensures
        band_start(rows, workers, a) <= band_start(rows, workers, b),
    decreases b - a,
{
    if a < b {
        lemma_band_monotonic(rows, workers, a, (b - 1) as nat);
        lemma_band_step(rows, workers, (b - 1) as nat);
    }
}

/// The bands begin at row zero and the last one ends at the last row.
pub proof fn lemma_band_ends(rows: nat, workers: nat)
    requires
        workers > 0,
    ensures
        band_start(rows, workers, 0) == 0,
        band_start(rows, workers, workers) == rows,
{
    let q = rows / workers;
    let r = rows % workers;
    assert(rows == workers * q + r) by (nonlinear_arith)
        requires
            q == rows / workers,
            r == rows % workers,
            workers > 0,
    ;
    assert(r < workers) by (nonlinear_arith)
        requires
            r == rows % workers,
            workers > 0,
    ;
}

proof fn lemma_row_has_band(rows: nat, workers: nat, row: nat, upper: nat) -> (id: nat)
    requires
        workers > 0,
        upper <= workers,
        row < band_start(rows, workers, upper),
    ensures
        id < upper,
        in_band(rows, workers, id, row),
    decreases upper,
{
    if upper == 0 {
        assert(0 * (rows / workers) == 0) by (nonlinear_arith);
        0
    } else if band_start(rows, workers, (upper - 1) as nat) <= row {
        (upper - 1) as nat
    } else {
        lemma_row_has_band(rows, workers, row, (upper - 1) as nat)
    }
}

/// The bands of `workers` workers cover the rows `0..rows` exactly once:
/// they start at row zero, each ends where the next begins, the last ends at
/// `rows`, every row lies in a band, and no row lies in two.
pub proof fn bands_partition_rows(rows: nat, workers: nat)
    requires
        workers > 0,
    ensures
        band_start(rows, workers, 0) == 0,
        band_start(rows, workers, workers) == rows,
        forall|a: nat, b: nat|
            a <= b ==> #[trigger] band_start(rows, workers, a) <= #[trigger] band_start(
                rows,
                workers,
                b,
            ),
        forall|row: nat| row < rows ==> #[trigger] has_band(rows, workers, row),
        forall|row: nat, a: nat, b: nat|
            #[trigger] in_band(rows, workers, a, row) && #[trigger] in_band(rows, workers, b, row)
                ==> a == b,
{
    lemma_band_ends(rows, workers);
    assert forall|a: nat, b: nat| a <= b implies #[trigger] band_start(rows, workers, a)
        <= #[trigger] band_start(rows, workers, b) by {
        lemma_band_monotonic(rows, workers, a, b);
    }
    assert forall|row: nat| row < rows implies #[trigger] has_band(rows, workers, row) by {
        let id = lemma_row_has_band(rows, workers, row, workers);
    }
    assert forall|row: nat, a: nat, b: nat| #[trigger]
        in_band(rows, workers, a, row) && #[trigger] in_band(rows, workers, b, row) implies a
        == b by {
        if a < b {
            lemma_band_monotonic(rows, workers, a + 1, b);
        } else if b < a {
            lemma_band_monotonic(rows, workers, b + 1, a);
        }
    }
}

fn start_of(rows: usize, workers: usize, id: usize) -> (start: usize)
    requires
        workers > 0,
        id <= workers,
    ensures
        start == band_start(rows as nat, workers as nat, id as nat),
        start <= rows,
{
    let share = rows / workers;
    let rest = rows % workers;
    proof {
        lemma_band_monotonic(rows as nat, workers as nat, id as nat, workers as nat);
        lemma_band_ends(rows as nat, workers as nat);
    }
    let extra = if id < rest {
        id
    } else {
        rest
    };
    id * share + extra
}

/// The rows of worker `id`, as the half-open range `first..end`.
pub fn band(rows: usize, workers: usize, id: usize) -> (range: (usize, usize))
    requires
        workers > 0,
        id < workers,
    ensures
        range.0 == band_start(rows as nat, workers as nat, id as nat),
        range.1 == band_start(rows as nat, workers as nat, id as nat + 1),
        range.0 <= range.1 <= rows,
{
    proof {
        lemma_band_step(rows as nat, workers as nat, id as nat);
    }
    (start_of(rows, workers, id), start_of(rows, workers, id + 1))
}

/// The bands of all workers, in order; none where there is no worker.
pub fn partition(rows: usize, workers: usize) -> (bands: Vec<(usize, usize)>)
    ensures
        bands@.len() == workers,
        forall|id: int|
            0 <= id < workers ==> (#[trigger] bands@[id]).0 == band_start(
                rows as nat,
                workers as nat,
                id as nat,
            ) && bands@[id].1 == band_start(rows as nat, workers as nat, id as nat + 1),
{
    let mut bands: Vec<(usize, usize)> = Vec::new();
    let mut id: usize = 0;
    while id < workers
        invariant
            id <= workers,
            bands@.len() == id,
            forall|k: int|
                0 <= k < id ==> (#[trigger] bands@[k]).0 == band_start(
                    rows as nat,
                    workers as nat,
                    k as nat,
                ) && bands@[k].1 == band_start(rows as nat, workers as nat, k as nat + 1),
        decreases workers - id,
    {
        let range = band(rows, workers, id);
        bands.push(range);
        id = id + 1;
    }
    bands
}

} // verus!
