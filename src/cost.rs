use vstd::arithmetic::power2::{lemma2_to64, pow2};
use vstd::prelude::*;

verus! {

/// Cost settings of the scrypt key-derivation function.
#[derive(Clone, Copy, Debug, PartialEq, Eq, Structural)]
pub struct ScryptCost {
    /// Base-2 logarithm of the CPU/memory cost `N`.
    pub log_n: u8,
    /// Block size factor `r`.
    pub r: u32,
    /// Parallelism `p`.
    pub p: u32,
    /// Length of the derived key in bytes.
    pub len: usize,
}

/// The settings that scrypt takes: non-zero factors, a cost `N` and every
/// buffer size (`128 * r * N`, `128 * r * p`) that fit in a `usize`,
/// `N < 2^(16 * r)`, `r * p < 2^30`, and a key of 10 to 64 bytes.
pub open spec fn scrypt_accepts(c: ScryptCost) -> bool {
    &&& c.r > 0
    &&& c.p > 0
    &&& pow2(c.log_n as nat) <= usize::MAX
    &&& 128 * c.r * pow2(c.log_n as nat) <= usize::MAX
    &&& 128 * c.r * c.p <= usize::MAX
    &&& c.log_n < 16 * c.r
    &&& c.r * c.p < 0x4000_0000
    &&& 10 <= c.len <= 64
}

/// The cost settings that `openssl pkcs8` uses by default.
pub open spec fn openssl_cost_spec() -> ScryptCost {
    ScryptCost { log_n: 14, r: 8, p: 1, len: 32 }
}

/// The scrypt settings that pkcs8 uses when none are given
/// (`scrypt::Params::default()`): `N = 2^17`, `r = 8`, `p = 1`, a 256-bit key.
pub open spec fn default_cost() -> ScryptCost {
    ScryptCost { log_n: 17, r: 8, p: 1, len: 32 }
}

/// The cost settings that `openssl pkcs8` uses by default: `N = 2^14`,
/// `r = 8`, `p = 1` and a 256-bit key.
pub fn openssl_cost() -> (c: ScryptCost)
    ensures
        c == (ScryptCost { log_n: 14, r: 8, p: 1, len: 32 }),
        c == openssl_cost_spec(),
        pow2(c.log_n as nat) == 16384,
        c.len * 8 == 256,
        scrypt_accepts(c),
{
    proof {
        lemma2_to64();
    }
    ScryptCost { log_n: 14, r: 8, p: 1, len: 32 }
}

} // verus!
