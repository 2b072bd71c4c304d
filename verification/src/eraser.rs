//! The erase orchestrator: pattern plan generation and the multi-pass
//! erase over a byte-addressable target, with sampled verification of the
//! final pass.

use vstd::prelude::*;

use rand::Rng;

use crate::blocks::{
    block_matches, lemma_block_start_in_range, num_blocks, num_blocks_spec, sampled_blocks_spec,
    verify_erase, wipe_model, write_pattern, VerificationResult, WriteError, BLOCK_SIZE,
};
use crate::policy::{pass_count_spec, WipePattern};

verus! {

/// A `BLOCK_SIZE` sequence holding `byte` everywhere.
pub open spec fn fill_seq(byte: u8) -> Seq<u8> {
    Seq::new(BLOCK_SIZE as nat, |i: int| byte)
}

/// The fixed buffers a pattern plan must hold, by policy: the random passes
/// say nothing of their content, the deterministic passes are fills.
pub open spec fn plan_fixed_ok(pattern: WipePattern, plan: Seq<Vec<u8>>) -> bool {
    match pattern {
        WipePattern::Zeros => plan[0]@ == fill_seq(0x00),
        WipePattern::Ones => plan[0]@ == fill_seq(0xFF),
        WipePattern::Random => true,
        WipePattern::Dod3Pass => plan[0]@ == fill_seq(0x00) && plan[1]@ == fill_seq(0xFF),
        WipePattern::Gutmann35 => plan[4]@ == fill_seq(0x55) && plan[5]@ == fill_seq(0xAA)
            && plan[6]@ == fill_seq(0x92) && plan[7]@ == fill_seq(0x49) && plan[8]@ == fill_seq(
            0x24,
        ),
    }
}

/// The byte every cell of the target holds after a successful run, where
/// the policy's last pass is a deterministic fill.
pub open spec fn last_pass_fill(pattern: WipePattern) -> Option<u8> {
    match pattern {
        WipePattern::Zeros => Some(0x00u8),
        WipePattern::Ones => Some(0xFFu8),
        WipePattern::Random => None,
        WipePattern::Dod3Pass => None,
        WipePattern::Gutmann35 => Some(0x24u8),
    }
}

#[verifier::external_type_specification]
#[verifier::external_body]
pub struct ExThreadRng(rand::rngs::ThreadRng);

/// Relies on rand::thread_rng: returns a handle to the thread-local
/// generator; the handle itself carries no observable state.
#[verifier::external_body]
fn new_rng() -> rand::rngs::ThreadRng {
    rand::thread_rng()
}

/// Relies on rand::Rng::fill on a byte slice: overwrites every byte in
/// place with random data, so only the unchanged length can be promised.
#[verifier::external_body]
fn fill_random(rng: &mut rand::rngs::ThreadRng, buf: &mut Vec<u8>)
    ensures
        final(buf)@.len() == old(buf)@.len(),
{
    rng.fill(&mut buf[..]);
}

/// A `BLOCK_SIZE` buffer holding `byte` everywhere.
pub fn fill_buffer(byte: u8) -> (r: Vec<u8>)
    ensures
        r@ == fill_seq(byte),
{
    let mut v: Vec<u8> = Vec::new();
    let mut i: usize = 0;
    while i < BLOCK_SIZE
        invariant
            v@.len() == i,
            i <= BLOCK_SIZE,
            forall|t: int| 0 <= t < i as int ==> v@[t] == byte,
        decreases BLOCK_SIZE - i,
    {
        v.push(byte);
        i += 1;
    }
    proof {
        assert(v@ =~= fill_seq(byte));
    }
    v
}

/// A `BLOCK_SIZE` buffer of freshly drawn random bytes.
fn random_buffer(rng: &mut rand::rngs::ThreadRng) -> (r: Vec<u8>)
    ensures
        r@.len() == BLOCK_SIZE,
{
    let mut v = fill_buffer(0x00);
    fill_random(rng, &mut v);
    v
}

/// A simulated device failure: the write of block `block_index` of pass
/// `pass_index` fails. A fault pointing past the run's passes or blocks
/// never fires.
#[derive(Debug, Clone, Copy, PartialEq, Eq, Structural)]
pub struct WriteFault {
    pub pass_index: u64,
    pub block_index: u64,
}

/// Whether a fault actually fires during a run of `passes` passes of
/// `nblocks` blocks each.
pub open spec fn fault_trips(fault: Option<WriteFault>, passes: int, nblocks: int) -> bool {
    match fault {
        Some(f) => f.pass_index < passes && f.block_index < nblocks,
        None => false,
    }
}

/// What a completed erase run did.
#[derive(Debug, Clone, Copy, PartialEq, Eq)]
pub struct EraseReport {
    /// Number of passes written, always the policy's full pass count.
    pub passes_completed: u64,
    /// Total bytes written over all passes.
    pub bytes_written: u128,
    /// Outcome of the sampled check of the final pass, when requested.
    pub verification: Option<VerificationResult>,
}

/// Where and how an erase run aborted.
#[derive(Debug, Clone, Copy, PartialEq, Eq, Structural)]
pub struct EraseError {
    /// The underlying failure.
    pub error: WriteError,
    /// Pass during which the failure hit.
    pub pass_index: u64,
    /// Completed block writes of that pass before the failure.
    pub blocks_written: u64,
    /// Total bytes written over the whole run before the failure.
    pub bytes_written: u128,
}

/// The erase engine; owns the entropy source used for random passes.
pub struct SecureEraser {
    rng: rand::rngs::ThreadRng,
}

impl SecureEraser {
    /// An eraser drawing entropy from the thread-local generator.
    pub fn new() -> SecureEraser {
        SecureEraser { rng: new_rng() }
    }

    /// The ordered pattern plan for a policy: one `BLOCK_SIZE` buffer per
    /// pass, with the pass count fixed by the policy, deterministic passes
    /// holding their fill byte everywhere, and each random pass drawn
    /// independently.
    pub fn generate_patterns(&mut self, pattern: WipePattern) -> (r: Vec<Vec<u8>>)
        ensures
            r@.len() == pass_count_spec(pattern),
            forall|i: int| 0 <= i < r@.len() ==> (#[trigger] r@[i])@.len() == BLOCK_SIZE,
            plan_fixed_ok(pattern, r@),
    {
        let mut plan: Vec<Vec<u8>> = Vec::new();
        match pattern {
            WipePattern::Zeros => {
                plan.push(fill_buffer(0x00));
            },
            WipePattern::Ones => {
                plan.push(fill_buffer(0xFF));
            },
            WipePattern::Random => {
                plan.push(random_buffer(&mut self.rng));
            },
            WipePattern::Dod3Pass => {
                plan.push(fill_buffer(0x00));
                plan.push(fill_buffer(0xFF));
                plan.push(random_buffer(&mut self.rng));
            },
            WipePattern::Gutmann35 => {
                plan.push(random_buffer(&mut self.rng));
                plan.push(random_buffer(&mut self.rng));
                plan.push(random_buffer(&mut self.rng));
                plan.push(random_buffer(&mut self.rng));
                plan.push(fill_buffer(0x55));
                plan.push(fill_buffer(0xAA));
                plan.push(fill_buffer(0x92));
                plan.push(fill_buffer(0x49));
                plan.push(fill_buffer(0x24));
            },
        }
        plan
    }

    /// Run a full erase of `target` under `pattern`: generate the pattern
    /// plan, write every pass in order, and, when `verify` is set, sample
    /// the final pass. `fault` injects one simulated write failure; a run
    /// whose fault never fires succeeds with the policy's full pass count,
    /// `passes * len` bytes written, and — the target having just been
    /// covered by the final pattern — a verification that reports success.
    /// A fired fault aborts at its block with nothing later written.
    pub fn secure_erase(
        &mut self,
        target: &mut Vec<u8>,
        pattern: WipePattern,
        verify: bool,
        fault: Option<WriteFault>,
    ) -> (r: Result<EraseReport, EraseError>)
        ensures
            final(target)@.len() == old(target)@.len(),
            ({
                let len = old(target)@.len() as int;
                let passes = pass_count_spec(pattern);
                let nb = num_blocks_spec(len);
                match r {
                    Ok(rep) => {
                        &&& !fault_trips(fault, passes, nb)
                        &&& rep.passes_completed as int == passes
                        &&& rep.bytes_written as int == passes * len
                        &&& (rep.verification is Some <==> verify)
                        &&& (verify ==> rep.verification == Some(VerificationResult::Verified))
                        &&& (match last_pass_fill(pattern) {
                            Some(byte) => forall|i: int|
                                0 <= i < len ==> final(target)@[i] == byte,
                            None => true,
                        })
                        &&& exists|p: Seq<u8>|
                            p.len() == BLOCK_SIZE && final(target)@ == wipe_model(
                                old(target)@,
                                p,
                            )
                    },
                    Err(e) => {
                        &&& fault_trips(fault, passes, nb)
                        &&& e.error == WriteError::Io
                        &&& (match fault {
                            Some(f) => e.pass_index == f.pass_index && e.blocks_written
                                == f.block_index,
                            None => false,
                        })
                        &&& e.bytes_written as int == e.pass_index as int * len
                            + e.blocks_written as int * (BLOCK_SIZE as int)
                    },
                }
            }),
    {
        let len = target.len();
        let patterns = self.generate_patterns(pattern);
        let total_passes = patterns.len();
        let nb = num_blocks(len as u64);
        let mut total_bytes: u128 = 0;
        let mut pass: usize = 0;
        while pass < total_passes
            invariant
                target@.len() == len,
                len == old(target)@.len(),
                total_passes == patterns@.len(),
                total_passes as int == pass_count_spec(pattern),
                total_passes <= 9,
                forall|i: int|
                    0 <= i < patterns@.len() ==> (#[trigger] patterns@[i])@.len() == BLOCK_SIZE,
                plan_fixed_ok(pattern, patterns@),
                nb as int == num_blocks_spec(len as int),
                pass <= total_passes,
                total_bytes as int == pass as int * len as int,
                match fault {
                    Some(f) => f.pass_index as int >= pass as int || f.block_index >= nb,
                    None => true,
                },
                pass > 0 ==> target@ == wipe_model(old(target)@, patterns@[pass as int - 1]@),
                pass == 0 ==> target@ == old(target)@,
            decreases total_passes - pass,
        {
            let fail_this: Option<u64> = match fault {
                Some(f) => if f.pass_index == pass as u64 {
                    Some(f.block_index)
                } else {
                    None
                },
                None => None,
            };
            match write_pattern(target, &patterns[pass], fail_this) {
                Ok(_blocks) => {
                    proof {
                        assert(total_bytes as int + len as int == (pass as int + 1) * (
                        len as int)) by (nonlinear_arith)
                            requires
                                total_bytes as int == pass as int * len as int,
                        ;
                        assert((pass as int + 1) * (len as int) <= 9 * (len as int))
                            by (nonlinear_arith)
                            requires
                                pass as int + 1 <= 9,
                                0 <= len as int,
                        ;
                    }
                    total_bytes = total_bytes + len as u128;
                },
                Err(_e) => {
                    let f = fault.unwrap();
                    proof {
                        lemma_block_start_in_range(len as int, f.block_index as int);
                        assert(total_bytes as int + f.block_index as int * (BLOCK_SIZE as int)
                            <= 9 * (len as int)) by (nonlinear_arith)
                            requires
                                total_bytes as int == pass as int * len as int,
                                pass as int + 1 <= 9,
                                0 <= len as int,
                                0 <= f.block_index as int * (BLOCK_SIZE as int) < len as int,
                        ;
                    }
                    let partial: u128 = (f.block_index as u128) * (BLOCK_SIZE as u128);
                    return Err(
                        EraseError {
                            error: WriteError::Io,
                            pass_index: pass as u64,
                            blocks_written: f.block_index,
                            bytes_written: total_bytes + partial,
                        },
                    );
                },
            }
            pass += 1;
        }
        let vres: Option<VerificationResult> = if verify {
            let v = verify_erase(target, &patterns[total_passes - 1], 10);
            proof {
                let tv = target@;
                let pv = patterns@[total_passes as int - 1]@;
                let sampled = sampled_blocks_spec(tv.len() as int, 10);
                assert forall|b: int| 0 <= b < sampled implies block_matches(tv, pv, b) by {
                    assert((b + 1) * (BLOCK_SIZE as int) <= tv.len()) by (nonlinear_arith)
                        requires
                            0 <= b,
                            b < tv.len() as int / (BLOCK_SIZE as int),
                            0 < BLOCK_SIZE as int,
                    ;
                    crate::blocks::lemma_wiped_block_matches(old(target)@, pv, b);
                }
                assert(v == VerificationResult::Verified);
            }
            Some(v)
        } else {
            None
        };
        Ok(
            EraseReport {
                passes_completed: total_passes as u64,
                bytes_written: total_bytes,
                verification: vres,
            },
        )
    }
}

} // verus!
