//! Configuration and derived storage sizing for the virtual machine's cryptographic backend.
use vstd::prelude::*;

verus! {

/// Number of lookup tables held in the lookup-table registry.
pub const LUTS_REGISTRY_SIZE: usize = 76;

/// Flattened cryptographic and memory-layout parameters for one virtual machine instance.
#[derive(Debug, PartialEq, Eq, Clone)]
pub struct VmConfig {
    /// Dimension of the LWE key used for small ciphertexts.
    pub lwe_dim: usize,
    /// Polynomial size of the GLWE key backing the bootstrapping key.
    pub bsk_polynomial_size: usize,
    /// GLWE dimension of the key backing the bootstrapping key.
    pub bsk_glwe_dim: usize,
    /// Number of decomposition levels used when applying the bootstrapping key.
    pub bsk_dec_levels: usize,
    /// Base-2 logarithm of the decomposition base of the bootstrapping key.
    pub bsk_dec_base_log: usize,
    /// Number of decomposition levels used when applying the keyswitch key.
    pub ksk_dec_levels: usize,
    /// Base-2 logarithm of the decomposition base of the keyswitch key.
    pub ksk_dec_base_log: usize,
    /// Plaintext encoding scaling factor.
    pub delta: usize,
    /// Number of bits reserved for the carry space of an encoded message.
    pub carry_size: usize,
    /// Number of bits used to encode a message value.
    pub message_size: usize,
    /// Number of ciphertext registers available in the register file.
    pub regf_size: usize,
}

impl VmConfig {
    /// Elements in a ciphertext under the bootstrapping key's GLWE parameters.
    pub open spec fn spec_big_ciphertext_size(&self) -> int {
        self.bsk_glwe_dim * self.bsk_polynomial_size + 1
    }

    /// Elements in a ciphertext under the LWE key.
    pub open spec fn spec_small_ciphertext_size(&self) -> int {
        self.lwe_dim + 1
    }

    /// Elements of the register file.
    pub open spec fn spec_register_alloc_size(&self) -> int {
        self.spec_big_ciphertext_size() * self.regf_size
    }

    /// Elements of the keyswitch key.
    pub open spec fn spec_ksk_alloc_size(&self) -> int {
        self.bsk_glwe_dim * self.bsk_polynomial_size * self.ksk_dec_levels * (self.lwe_dim + 1)
    }

    /// Elements of the bootstrapping key, before the final halving.
    pub open spec fn spec_bsk_product(&self) -> int {
        self.lwe_dim * self.bsk_dec_levels * (self.bsk_glwe_dim + 1) * (self.bsk_glwe_dim + 1)
            * self.bsk_polynomial_size
    }

    /// Elements of the bootstrapping key.
    pub open spec fn spec_bsk_alloc_size(&self) -> int {
        self.spec_bsk_product() / 2
    }

    /// Elements of a single lookup table.
    pub open spec fn spec_lut_alloc_size(&self) -> int {
        (self.bsk_glwe_dim + 1) * self.bsk_polynomial_size
    }

    /// Elements of the lookup-table registry.
    pub open spec fn spec_lut_registry_alloc_size(&self) -> int {
        LUTS_REGISTRY_SIZE * self.spec_lut_alloc_size()
    }

    /// Returns the number of elements in a ciphertext encrypted under the bootstrapping key's
    /// GLWE parameters.
    pub fn big_ciphertext_size(&self) -> (r: usize)
        requires
            self.spec_big_ciphertext_size() <= usize::MAX,
        ensures
            r == self.spec_big_ciphertext_size(),
    {
        self.bsk_glwe_dim * self.bsk_polynomial_size + 1
    }

    /// Returns the number of elements in a ciphertext encrypted under the LWE key.
    pub fn small_ciphertext_size(&self) -> (r: usize)
        requires
            self.spec_small_ciphertext_size() <= usize::MAX,
        ensures
            r == self.spec_small_ciphertext_size(),
    {
        self.lwe_dim + 1
    }

    /// Returns the number of elements required to allocate the register file: one big
    /// ciphertext per register.
    pub fn register_alloc_size(&self) -> (r: usize)
        requires
            self.spec_big_ciphertext_size() <= usize::MAX,
            self.spec_register_alloc_size() <= usize::MAX,
        ensures
            r == self.spec_register_alloc_size(),
    {
        let big = self.big_ciphertext_size();
        big * self.regf_size
    }

    /// Returns the number of elements required to allocate the keyswitch key.
    pub fn ksk_alloc_size(&self) -> (r: usize)
        requires
            self.bsk_glwe_dim * self.bsk_polynomial_size <= usize::MAX,
            self.bsk_glwe_dim * self.bsk_polynomial_size * self.ksk_dec_levels <= usize::MAX,
            self.lwe_dim + 1 <= usize::MAX,
            self.spec_ksk_alloc_size() <= usize::MAX,
        ensures
            r == self.spec_ksk_alloc_size(),
    {
        self.bsk_glwe_dim * self.bsk_polynomial_size * self.ksk_dec_levels * (self.lwe_dim + 1)
    }

    /// Returns the number of elements required to allocate the bootstrapping key.
    pub fn bsk_alloc_size(&self) -> (r: usize)
        requires
            self.lwe_dim * self.bsk_dec_levels <= usize::MAX,
            self.bsk_glwe_dim + 1 <= usize::MAX,
            self.lwe_dim * self.bsk_dec_levels * (self.bsk_glwe_dim + 1) <= usize::MAX,
            self.lwe_dim * self.bsk_dec_levels * (self.bsk_glwe_dim + 1) * (self.bsk_glwe_dim + 1)
                <= usize::MAX,
            self.spec_bsk_product() <= usize::MAX,
        ensures
            r == self.spec_bsk_alloc_size(),
    {
        self.lwe_dim * self.bsk_dec_levels * (self.bsk_glwe_dim + 1) * (self.bsk_glwe_dim + 1)
            * self.bsk_polynomial_size / 2
    }

    /// Returns the number of elements required to allocate the lookup-table registry:
    /// `LUTS_REGISTRY_SIZE` tables of `lut_alloc_size` elements.
    pub fn lut_registry_alloc_size(&self) -> (r: usize)
        requires
            self.bsk_glwe_dim + 1 <= usize::MAX,
            self.spec_lut_alloc_size() <= usize::MAX,
            self.spec_lut_registry_alloc_size() <= usize::MAX,
        ensures
            r == self.spec_lut_registry_alloc_size(),
    {
        LUTS_REGISTRY_SIZE * self.lut_alloc_size()
    }

    /// Returns the number of elements required to allocate a single lookup table.
    pub fn lut_alloc_size(&self) -> (r: usize)
        requires
            self.bsk_glwe_dim + 1 <= usize::MAX,
            self.spec_lut_alloc_size() <= usize::MAX,
        ensures
            r == self.spec_lut_alloc_size(),
    {
        (self.bsk_glwe_dim + 1) * self.bsk_polynomial_size
    }
}

/// Every storage size in terms of the parameters: a big ciphertext holds `glwe_dim *
/// polynomial_size + 1` elements and a small one `lwe_dim + 1`; the register file holds one big
/// ciphertext per register; the keyswitch key `glwe_dim * polynomial_size * ksk_levels *
/// (lwe_dim + 1)` elements; the bootstrapping key half of `lwe_dim * bsk_levels * (glwe_dim +
/// 1)^2 * polynomial_size`; a lookup table `(glwe_dim + 1) * polynomial_size`; and the registry
/// one such table per registry slot.
pub proof fn lemma_alloc_sizes(c: VmConfig)
    ensures
        c.spec_big_ciphertext_size() == c.bsk_glwe_dim * c.bsk_polynomial_size + 1,
        c.spec_small_ciphertext_size() == c.lwe_dim + 1,
        c.spec_register_alloc_size() == (c.bsk_glwe_dim * c.bsk_polynomial_size + 1) * c.regf_size,
        c.spec_ksk_alloc_size() == c.bsk_glwe_dim * c.bsk_polynomial_size * c.ksk_dec_levels * (c.lwe_dim + 1),
        c.spec_bsk_alloc_size()
            == c.lwe_dim * c.bsk_dec_levels * (c.bsk_glwe_dim + 1) * (c.bsk_glwe_dim + 1) * c.bsk_polynomial_size / 2,
        c.spec_lut_alloc_size() == (c.bsk_glwe_dim + 1) * c.bsk_polynomial_size,
        c.spec_lut_registry_alloc_size() == 76 * ((c.bsk_glwe_dim + 1) * c.bsk_polynomial_size),
{
}

/// The bootstrapping key grows linearly with its decomposition levels: one more level adds
/// `lwe_dim * (glwe_dim + 1)^2 * polynomial_size` elements before the halving.
pub proof fn lemma_bsk_linear_in_levels(c: VmConfig, d: VmConfig)
    requires
        d == (VmConfig { bsk_dec_levels: d.bsk_dec_levels, ..c }),
        d.bsk_dec_levels == c.bsk_dec_levels + 1,
    ensures
        2 * d.spec_bsk_alloc_size() + (d.spec_bsk_product() % 2)
            == 2 * c.spec_bsk_alloc_size() + (c.spec_bsk_product() % 2)
                + c.lwe_dim * (c.bsk_glwe_dim + 1) * (c.bsk_glwe_dim + 1) * c.bsk_polynomial_size,
{
    let l = c.lwe_dim as int;
    let g = c.bsk_glwe_dim as int + 1;
    let p = c.bsk_polynomial_size as int;
    let k = c.bsk_dec_levels as int;
    assert(l * (k + 1) * g * g * p == l * k * g * g * p + l * g * g * p) by (nonlinear_arith);
}

} // verus!
