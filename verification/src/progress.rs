//! Progress accounting: a completion fraction over (pass, block) positions,
//! kept as an exact rational so callers can render a percentage however
//! they like.

use vstd::prelude::*;

verus! {

/// Work units completed at a position: full passes already done, counted in
/// blocks, plus the blocks done in the current pass.
pub open spec fn progress_units_spec(pass_index: int, blocks_done: int, total_blocks: int) -> int {
    pass_index * total_blocks + blocks_done
}

/// Completion fraction after `blocks_done` blocks of pass `pass_index`,
/// as an exact rational `(units done, total units)` with the total fixed at
/// `total_passes * total_blocks`. The percentage is `100 * r.0 / r.1`.
pub fn progress_fraction(pass_index: u64, blocks_done: u64, total_passes: u64, total_blocks: u64)
    -> (r: (u64, u64))
    requires
        1 <= total_passes,
        1 <= total_blocks,
        pass_index < total_passes,
        blocks_done <= total_blocks,
        total_passes * total_blocks <= u64::MAX,
    ensures
        r.0 == progress_units_spec(pass_index as int, blocks_done as int, total_blocks as int),
        r.1 == total_passes * total_blocks,
        r.0 <= r.1,
{
    proof {
        assert(pass_index as int * total_blocks as int + blocks_done as int <= total_passes as int
            * total_blocks as int) by (nonlinear_arith)
            requires
                (pass_index as int) < (total_passes as int),
                blocks_done as int <= total_blocks as int,
                1 <= total_blocks as int,
        ;
    }
    (pass_index * total_blocks + blocks_done, total_passes * total_blocks)
}

/// Progress never decreases: feeding positions in run order (pass index
/// strictly grows, or block count grows within a pass) never lowers the
/// completed work units, and the total stays fixed, so the fraction is
/// monotonically non-decreasing across the whole operation.
pub proof fn lemma_progress_monotonic(
    p1: int,
    b1: int,
    p2: int,
    b2: int,
    total_blocks: int,
)
    requires
        0 <= p1,
        0 <= b1 <= total_blocks,
        0 <= b2 <= total_blocks,
        p1 < p2 || (p1 == p2 && b1 <= b2),
    ensures
        progress_units_spec(p1, b1, total_blocks) <= progress_units_spec(p2, b2, total_blocks),
{
    if p1 == p2 {
    } else {
        assert(p1 * total_blocks + b1 <= p2 * total_blocks + b2) by (nonlinear_arith)
            requires
                p1 + 1 <= p2,
                0 <= p1,
                0 <= total_blocks,
                b1 <= total_blocks,
                0 <= b2,
        ;
    }
}

/// At the last block of the last pass the completed units equal the total,
/// so the fraction is exactly one — a rendered percentage is exactly 100.
pub proof fn lemma_progress_complete(total_passes: int, total_blocks: int)
    requires
        1 <= total_passes,
    ensures
        progress_units_spec(total_passes - 1, total_blocks, total_blocks) == total_passes
            * total_blocks,
{
    assert((total_passes - 1) * total_blocks + total_blocks == total_passes * total_blocks)
        by (nonlinear_arith);
}

} // verus!
