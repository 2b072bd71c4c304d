//! Block arithmetic and the block writer: how a byte range is split into
//! fixed-size transfer blocks, and what a pass of a pattern leaves behind.

use vstd::prelude::*;

verus! {

/// Size in bytes of one transfer block. The last block of a pass may be
/// shorter when the target length is not a multiple of this.
pub const BLOCK_SIZE: usize = 1048576;

/// Number of blocks needed to cover `len` bytes (ceiling division).
pub open spec fn num_blocks_spec(len: int) -> int {
    if len == 0 {
        0
    } else {
        (len - 1) / (BLOCK_SIZE as int) + 1
    }
}

/// Length of block `b` of a `len`-byte target: a full block everywhere,
/// except a final remainder when `len` is not a multiple of `BLOCK_SIZE`.
pub open spec fn chunk_len_spec(len: int, b: int) -> int {
    if len - b * (BLOCK_SIZE as int) < BLOCK_SIZE as int {
        len - b * (BLOCK_SIZE as int)
    } else {
        BLOCK_SIZE as int
    }
}

/// Content of a target after one full pass of `pattern`: every block holds
/// a prefix of the pattern buffer, so byte `i` holds `pattern[i % BLOCK_SIZE]`.
pub open spec fn wipe_model(content: Seq<u8>, pattern: Seq<u8>) -> Seq<u8> {
    Seq::new(content.len(), |i: int| pattern[i % (BLOCK_SIZE as int)])
}

/// Content after only the first `blocks` blocks of a pass of `pattern`
/// have been written; the rest of the target is untouched.
pub open spec fn partial_wipe_model(content: Seq<u8>, pattern: Seq<u8>, blocks: int) -> Seq<u8> {
    Seq::new(
        content.len(),
        |i: int|
            if i < blocks * (BLOCK_SIZE as int) {
                pattern[i % (BLOCK_SIZE as int)]
            } else {
                content[i]
            },
    )
}

/// Number of block writes needed to cover a `len`-byte target.
pub fn num_blocks(len: u64) -> (r: u64)
    ensures
        r as int == num_blocks_spec(len as int),
{
    if len == 0 {
        0
    } else {
        (len - 1) / (BLOCK_SIZE as u64) + 1
    }
}

/// Every block index below the block count starts strictly inside the target.
pub proof fn lemma_block_start_in_range(len: int, b: int)
    requires
        0 <= b,
        b < num_blocks_spec(len),
    ensures
        b * (BLOCK_SIZE as int) < len,
        0 < chunk_len_spec(len, b) <= BLOCK_SIZE as int,
{
    let bs = BLOCK_SIZE as int;
    assert(b <= (len - 1) / bs);
    assert(b * bs <= ((len - 1) / bs) * bs) by (nonlinear_arith)
        requires 0 <= b, b <= (len - 1) / bs, bs == BLOCK_SIZE as int;
    assert(((len - 1) / bs) * bs <= len - 1) by (nonlinear_arith)
        requires 0 < bs, 0 <= len - 1;
}

/// Number of bytes of block `b` of a `len`-byte target.
pub fn chunk_len(len: u64, b: u64) -> (r: u64)
    requires
        (b as int) < num_blocks_spec(len as int),
    ensures
        r as int == chunk_len_spec(len as int, b as int),
{
    proof {
        lemma_block_start_in_range(len as int, b as int);
    }
    let start = b * (BLOCK_SIZE as u64);
    if len - start < BLOCK_SIZE as u64 {
        len - start
    } else {
        BLOCK_SIZE as u64
    }
}

/// The last block of a non-empty target carries the remainder of the length,
/// or a full block when the length divides evenly.
pub proof fn lemma_last_chunk_len(len: int)
    requires
        0 < len,
    ensures
        chunk_len_spec(len, num_blocks_spec(len) - 1) == if len % (BLOCK_SIZE as int) == 0 {
            BLOCK_SIZE as int
        } else {
            len % (BLOCK_SIZE as int)
        },
{
    let bs = BLOCK_SIZE as int;
    let nb = num_blocks_spec(len);
    assert((nb - 1) * bs == ((len - 1) / bs) * bs) by (nonlinear_arith)
        requires nb - 1 == (len - 1) / bs, bs == BLOCK_SIZE as int;
    assert(((len - 1) / bs) * bs == (len - 1) - (len - 1) % bs) by (nonlinear_arith)
        requires 0 < bs, 0 <= len - 1;
    if len % bs == 0 {
        assert((len - 1) % bs == bs - 1) by (nonlinear_arith)
            requires 0 < bs, 0 < len, len % bs == 0;
    } else {
        assert((len - 1) % bs == len % bs - 1) by (nonlinear_arith)
            requires 0 < bs, 0 < len, len % bs != 0;
    }
}

/// Why a pass stopped before covering the whole target.
#[derive(Debug, Clone, Copy, PartialEq, Eq, Structural)]
pub enum WriteError {
    /// A block write (or its flush) failed; the pass stops at that block,
    /// with no retry and no skipping ahead.
    Io,
}

/// Stream `pattern` across the whole of `target` in `BLOCK_SIZE` chunks,
/// truncating the final chunk to the remaining length. Returns the number
/// of completed block writes. `fail_at_block` injects a write failure at
/// the given block index (a stand-in for a device error): the pass stops
/// there with the earlier blocks written and the rest untouched.
pub fn write_pattern(target: &mut Vec<u8>, pattern: &Vec<u8>, fail_at_block: Option<u64>) -> (r:
    Result<u64, WriteError>)
    requires
        pattern@.len() == BLOCK_SIZE,
    ensures
        final(target)@.len() == old(target)@.len(),
        match r {
            Ok(blocks) => {
                &&& blocks as int == num_blocks_spec(old(target)@.len() as int)
                &&& final(target)@ == wipe_model(old(target)@, pattern@)
                &&& (match fail_at_block {
                    Some(k) => k as int >= num_blocks_spec(old(target)@.len() as int),
                    None => true,
                })
            },
            Err(e) => {
                &&& e == WriteError::Io
                &&& (match fail_at_block {
                    Some(k) => {
                        &&& (k as int) < num_blocks_spec(old(target)@.len() as int)
                        &&& final(target)@ == partial_wipe_model(old(target)@, pattern@, k as int)
                    },
                    None => false,
                })
            },
        },
{
    let len = target.len();
    let nb64 = num_blocks(len as u64);
    let nb = nb64 as usize;
    let mut b: usize = 0;
    while b < nb
        invariant
            target@.len() == len,
            len == old(target)@.len(),
            pattern@.len() == BLOCK_SIZE,
            nb == nb64,
            nb as int == num_blocks_spec(len as int),
            b <= nb,
            target@ == partial_wipe_model(old(target)@, pattern@, b as int),
            match fail_at_block {
                Some(k) => b as int <= k as int,
                None => true,
            },
        decreases nb - b,
    {
        match fail_at_block {
            Some(k) => {
                if k == b as u64 {
                    return Err(WriteError::Io);
                }
            },
            None => {},
        }
        proof {
            lemma_block_start_in_range(len as int, b as int);
        }
        let start = b * BLOCK_SIZE;
        let chunk = if len - start < BLOCK_SIZE {
            len - start
        } else {
            BLOCK_SIZE
        };
        let mut j: usize = 0;
        while j < chunk
            invariant
                target@.len() == len,
                len == old(target)@.len(),
                pattern@.len() == BLOCK_SIZE,
                start == b * BLOCK_SIZE,
                chunk as int == chunk_len_spec(len as int, b as int),
                start + chunk <= len,
                j <= chunk,
                forall|i: int|
                    0 <= i < start + j ==> target@[i] == pattern@[i % (BLOCK_SIZE as int)],
                forall|i: int| start + j <= i < len ==> target@[i] == old(target)@[i],
            decreases chunk - j,
        {
            proof {
                assert((start + j) as int % (BLOCK_SIZE as int) == j as int) by (nonlinear_arith)
                    requires
                        start == b * BLOCK_SIZE,
                        0 <= j < BLOCK_SIZE,
                        0 <= b,
                ;
            }
            target[start + j] = pattern[j];
            j += 1;
        }
        proof {
            assert(((b + 1) as int) * (BLOCK_SIZE as int) == b as int * (BLOCK_SIZE as int)
                + BLOCK_SIZE as int) by (nonlinear_arith);
            assert(target@ =~= partial_wipe_model(old(target)@, pattern@, b as int + 1));
        }
        b += 1;
    }
    proof {
        assert(nb as int * (BLOCK_SIZE as int) >= len as int) by (nonlinear_arith)
            requires
                nb as int == num_blocks_spec(len as int),
                len == target@.len(),
                0 <= len,
        ;
        assert(target@ =~= wipe_model(old(target)@, pattern@));
    }
    Ok(nb64)
}

/// Writing a pass leaves content that depends only on the target length and
/// the pattern, never on what was there before. Hence writing the same
/// pattern twice in a row leaves exactly the content of writing it once.
pub proof fn lemma_wipe_idempotent(content: Seq<u8>, pattern: Seq<u8>)
    ensures
        wipe_model(wipe_model(content, pattern), pattern) == wipe_model(content, pattern),
{
    assert(wipe_model(wipe_model(content, pattern), pattern) =~= wipe_model(content, pattern));
}

/// Any full block of a target that a pass of `pattern` has fully covered
/// matches the head of that pattern byte for byte.
pub proof fn lemma_wiped_block_matches(content: Seq<u8>, pattern: Seq<u8>, b: int)
    requires
        pattern.len() == BLOCK_SIZE,
        0 <= b,
        (b + 1) * (BLOCK_SIZE as int) <= content.len(),
    ensures
        block_matches(wipe_model(content, pattern), pattern, b),
{
    let bs = BLOCK_SIZE as int;
    assert forall|j: int| 0 <= j < bs implies wipe_model(content, pattern)[b * bs + j]
        == pattern[j] by {
        assert(b * bs + j < content.len() && 0 <= b * bs && (b * bs + j) % bs == j)
            by (nonlinear_arith)
            requires
                0 <= b,
                0 <= j < bs,
                bs == BLOCK_SIZE as int,
                (b + 1) * bs <= content.len(),
        ;
    }
}

/// Block `b` of `content` matches the head of `pattern` byte for byte.
pub open spec fn block_matches(content: Seq<u8>, pattern: Seq<u8>, b: int) -> bool {
    forall|j: int|
        0 <= j < BLOCK_SIZE ==> content[b * (BLOCK_SIZE as int) + j] == pattern[j]
}

/// How many full blocks a sampled verification reads: the requested sample
/// count, or every full block the target holds if that is fewer.
pub open spec fn sampled_blocks_spec(len: int, sample_blocks: int) -> int {
    let full = len / (BLOCK_SIZE as int);
    if sample_blocks < full {
        sample_blocks
    } else {
        full
    }
}

/// Outcome of a sampled post-write verification.
#[derive(Debug, Clone, Copy, PartialEq, Eq, Structural)]
pub enum VerificationResult {
    /// Every sampled block matched the expected pattern.
    Verified,
    /// The block with this index was the first sampled block that differed.
    Mismatch(u64),
}

/// Compare up to `sample_blocks` full blocks from the start of `target`
/// against `expected_pattern`, byte for byte. Success means every sampled
/// block matched (trivially so when the target holds no full block);
/// otherwise the first mismatching block index is reported.
pub fn verify_erase(target: &Vec<u8>, expected_pattern: &Vec<u8>, sample_blocks: u64) -> (r:
    VerificationResult)
    requires
        expected_pattern@.len() == BLOCK_SIZE,
    ensures
        match r {
            VerificationResult::Verified => forall|b: int|
                0 <= b < sampled_blocks_spec(target@.len() as int, sample_blocks as int)
                    ==> block_matches(target@, expected_pattern@, b),
            VerificationResult::Mismatch(k) => {
                &&& (k as int) < sampled_blocks_spec(target@.len() as int, sample_blocks as int)
                &&& !block_matches(target@, expected_pattern@, k as int)
                &&& forall|b: int| 0 <= b < k as int ==> block_matches(target@, expected_pattern@, b)
            },
        },
{
    let len = target.len();
    let full = len / BLOCK_SIZE;
    let n: usize = if sample_blocks < full as u64 {
        sample_blocks as usize
    } else {
        full
    };
    assert(n as int == sampled_blocks_spec(len as int, sample_blocks as int));
    let mut b: usize = 0;
    while b < n
        invariant
            target@.len() == len,
            expected_pattern@.len() == BLOCK_SIZE,
            n as int == sampled_blocks_spec(len as int, sample_blocks as int),
            n <= full,
            full == len / BLOCK_SIZE,
            b <= n,
            forall|i: int| 0 <= i < b as int ==> block_matches(target@, expected_pattern@, i),
        decreases n - b,
    {
        proof {
            assert((b as int + 1) * (BLOCK_SIZE as int) <= len as int) by (nonlinear_arith)
                requires
                    0 <= b,
                    (b as int) < len as int / (BLOCK_SIZE as int),
                    0 < BLOCK_SIZE as int,
            ;
        }
        let start = b * BLOCK_SIZE;
        let mut j: usize = 0;
        while j < BLOCK_SIZE
            invariant
                target@.len() == len,
                expected_pattern@.len() == BLOCK_SIZE,
                start == b * BLOCK_SIZE,
                start + BLOCK_SIZE <= len,
                (b as int) < sampled_blocks_spec(len as int, sample_blocks as int),
                j <= BLOCK_SIZE,
                forall|i: int| 0 <= i < b as int ==> block_matches(target@, expected_pattern@, i),
                forall|i: int|
                    0 <= i < j as int ==> target@[b as int * (BLOCK_SIZE as int) + i]
                        == expected_pattern@[i],
            decreases BLOCK_SIZE - j,
        {
            if target[start + j] != expected_pattern[j] {
                assert(!block_matches(target@, expected_pattern@, b as int));
                return VerificationResult::Mismatch(b as u64);
            }
            j += 1;
        }
        assert(block_matches(target@, expected_pattern@, b as int));
        b += 1;
    }
    VerificationResult::Verified
}

} // verus!
