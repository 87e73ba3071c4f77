//! Geometric preconditions on a decoded image: square, a power of two, and at
//! least 512 pixels on a side.

use vstd::arithmetic::power2::{lemma_pow2_strictly_increases, lemma_pow2_unfold, pow2};
use vstd::prelude::*;

verus! {

/// The smallest accepted side length of a source texture.
pub const MIN_SIDE: u32 = 512;

/// `n` is `2^k` for some `k`.
pub open spec fn is_pow2(n: int) -> bool {
    exists|k: nat| pow2(k) == n
}

/// Why a decoded image was refused, in the order the checks are made.
#[derive(Debug, Clone, Copy, PartialEq, Eq, Structural)]
pub enum ImageValidationError {
    NotSquare,
    NotPowerOfTwo,
    TooSmall,
}

/// The first rule that a `width` by `height` image breaks, if any.
pub open spec fn validation_spec(width: u32, height: u32) -> Result<(), ImageValidationError> {
    if width != height {
        Err(ImageValidationError::NotSquare)
    } else if !is_pow2(width as int) {
        Err(ImageValidationError::NotPowerOfTwo)
    } else if width < MIN_SIDE {
        Err(ImageValidationError::TooSmall)
    } else {
        Ok(())
    }
}

/// A `width` by `height` image may enter the compositor.
pub open spec fn valid_dimensions(width: u32, height: u32) -> bool {
    validation_spec(width, height) is Ok
}

impl ImageValidationError {
    /// A sentence for the user that says which rule was broken.
    pub fn message(&self) -> (r: String)
        ensures
            r@ == self.message_spec(),
    {
        match self {
            ImageValidationError::NotSquare => "Image must be square".to_string(),
            ImageValidationError::NotPowerOfTwo => "Image dimensions must be power of 2".to_string(),
            ImageValidationError::TooSmall => "Image must be at least 512x512".to_string(),
        }
    }

    pub open spec fn message_spec(&self) -> Seq<char> {
        match self {
            ImageValidationError::NotSquare => "Image must be square"@,
            ImageValidationError::NotPowerOfTwo => "Image dimensions must be power of 2"@,
            ImageValidationError::TooSmall => "Image must be at least 512x512"@,
        }
    }
}

proof fn lemma_not_pow2_between(n: int, k: nat)
    requires
        k > 0,
        pow2((k - 1) as nat) < n < pow2(k),
    ensures
        !is_pow2(n),
{
    if is_pow2(n) {
        let j = choose|j: nat| pow2(j) == n;
        if j < k {
            if j < k - 1 {
                lemma_pow2_strictly_increases(j, (k - 1) as nat);
            }
        } else if j > k {
            lemma_pow2_strictly_increases(k, j);
        }
    }
}

/// Whether `n` is a power of two.
pub fn is_power_of_two(n: u32) -> (r: bool)
    ensures
        r == is_pow2(n as int),
{
    if n == 0 {
        proof {
            if is_pow2(0) {
                let j = choose|j: nat| pow2(j) == 0;
                vstd::arithmetic::power2::lemma_pow2_pos(j);
            }
        }
        return false;
    }
    let mut p: u64 = 1;
    let ghost mut k: nat = 0;
    proof {
        vstd::arithmetic::power2::lemma2_to64();
    }
    while p < n as u64
        invariant
            p == pow2(k),
            1 <= p <= 2 * (n as u64),
            n > 0,
            k > 0 ==> pow2((k - 1) as nat) < n,
        decreases 2 * (n as u64) - p,
    {
        proof {
            lemma_pow2_unfold(k + 1);
        }
        p = p * 2;
        proof {
            k = k + 1;
        }
    }
    if p == n as u64 {
        true
    } else {
        proof {
            if k == 0 {
                assert(p == 1);
            }
            lemma_not_pow2_between(n as int, k);
        }
        false
    }
}

/// Checks that an image of `width` by `height` pixels is square, has a side
/// that is a power of two, and a side of at least 512, and reports the first
/// rule it breaks.
pub fn validate_dimensions(width: u32, height: u32) -> (r: Result<(), ImageValidationError>)
    ensures
        r == validation_spec(width, height),
{
    if width != height {
        return Err(ImageValidationError::NotSquare);
    }
    if !is_power_of_two(width) {
        return Err(ImageValidationError::NotPowerOfTwo);
    }
    if width < MIN_SIDE {
        return Err(ImageValidationError::TooSmall);
    }
    Ok(())
}

} // verus!
