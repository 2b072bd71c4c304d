//! Wipe policies: the named overwrite methods and the keyword parser that
//! selects one.

use vstd::prelude::*;
use vstd::string::StringSliceAdditionalSpecFns;

verus! {

/// A wipe method, selected once per erase operation.
#[derive(Debug, Clone, Copy, PartialEq, Eq, Structural)]
pub enum WipePattern {
    /// One pass of 0x00 bytes.
    Zeros,
    /// One pass of 0xFF bytes.
    Ones,
    /// One pass of random bytes, drawn once and repeated across blocks.
    Random,
    /// Three passes: zeros, ones, then random.
    Dod3Pass,
    /// Nine passes: four independent random fills, then five fixed fills.
    Gutmann35,
}

/// Number of passes a policy performs.
pub open spec fn pass_count_spec(pattern: WipePattern) -> int {
    match pattern {
        WipePattern::Zeros => 1,
        WipePattern::Ones => 1,
        WipePattern::Random => 1,
        WipePattern::Dod3Pass => 3,
        WipePattern::Gutmann35 => 9,
    }
}

/// ASCII upper-case letters folded to lower case; every other byte unchanged.
pub open spec fn ascii_lower_spec(b: u8) -> u8 {
    if 65 <= b <= 90 {
        (b + 32) as u8
    } else {
        b
    }
}

/// A byte sequence folded to ASCII lower case.
pub open spec fn lower_bytes_spec(s: Seq<u8>) -> Seq<u8> {
    s.map_values(|b: u8| ascii_lower_spec(b))
}

/// The keyword naming each policy, as lower-case ASCII bytes.
pub open spec fn keyword_spec(pattern: WipePattern) -> Seq<u8> {
    match pattern {
        WipePattern::Zeros => seq![122u8, 101u8, 114u8, 111u8, 115u8],  // "zeros"
        WipePattern::Ones => seq![111u8, 110u8, 101u8, 115u8],  // "ones"
        WipePattern::Random => seq![114u8, 97u8, 110u8, 100u8, 111u8, 109u8],  // "random"
        WipePattern::Dod3Pass => seq![100u8, 111u8, 100u8, 51u8],  // "dod3"
        WipePattern::Gutmann35 => seq![
            103u8,
            117u8,
            116u8,
            109u8,
            97u8,
            110u8,
            110u8,
            51u8,
            53u8,
        ],  // "gutmann35"
    }
}

/// The policy a byte sequence selects, compared case-insensitively.
pub open spec fn policy_of_bytes_spec(s: Seq<u8>) -> Option<WipePattern> {
    let lowered = lower_bytes_spec(s);
    if lowered == keyword_spec(WipePattern::Zeros) {
        Some(WipePattern::Zeros)
    } else if lowered == keyword_spec(WipePattern::Ones) {
        Some(WipePattern::Ones)
    } else if lowered == keyword_spec(WipePattern::Random) {
        Some(WipePattern::Random)
    } else if lowered == keyword_spec(WipePattern::Dod3Pass) {
        Some(WipePattern::Dod3Pass)
    } else if lowered == keyword_spec(WipePattern::Gutmann35) {
        Some(WipePattern::Gutmann35)
    } else {
        None
    }
}

fn ascii_lower(b: u8) -> (r: u8)
    ensures
        r == ascii_lower_spec(b),
{
    if 65 <= b && b <= 90 {
        b + 32
    } else {
        b
    }
}

/// Whether `s`, folded to ASCII lower case, equals `kw`.
fn matches_keyword(s: &[u8], kw: &Vec<u8>) -> (r: bool)
    ensures
        r == (lower_bytes_spec(s@) == kw@),
{
    if s.len() != kw.len() {
        assert(lower_bytes_spec(s@).len() == s@.len());
        return false;
    }
    let n = s.len();
    let mut i: usize = 0;
    while i < n
        invariant
            n == s@.len(),
            n == kw@.len(),
            i <= n,
            forall|t: int| 0 <= t < i as int ==> ascii_lower_spec(s@[t]) == kw@[t],
        decreases n - i,
    {
        if ascii_lower(s[i]) != kw[i] {
            assert(lower_bytes_spec(s@)[i as int] != kw@[i as int]);
            return false;
        }
        i += 1;
    }
    assert(lower_bytes_spec(s@) =~= kw@);
    true
}

impl WipePattern {
    /// Parse a policy keyword, ignoring ASCII case. Succeeds exactly on the
    /// five policy names; anything else is rejected with a message.
    pub fn from_str(s: &str) -> (r: Result<WipePattern, String>)
        ensures
            match policy_of_bytes_spec(s.spec_bytes()) {
                Some(p) => r == Ok::<WipePattern, String>(p),
                None => r is Err,
            },
    {
        let bytes = s.as_bytes();
        if matches_keyword(bytes, &vec![122u8, 101u8, 114u8, 111u8, 115u8]) {
            Ok(WipePattern::Zeros)
        } else if matches_keyword(bytes, &vec![111u8, 110u8, 101u8, 115u8]) {
            Ok(WipePattern::Ones)
        } else if matches_keyword(bytes, &vec![114u8, 97u8, 110u8, 100u8, 111u8, 109u8]) {
            Ok(WipePattern::Random)
        } else if matches_keyword(bytes, &vec![100u8, 111u8, 100u8, 51u8]) {
            Ok(WipePattern::Dod3Pass)
        } else if matches_keyword(
            bytes,
            &vec![103u8, 117u8, 116u8, 109u8, 97u8, 110u8, 110u8, 51u8, 53u8],
        ) {
            Ok(WipePattern::Gutmann35)
        } else {
            Err("invalid wipe pattern".to_owned())
        }
    }
}

} // verus!
