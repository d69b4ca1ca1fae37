//! Cryptography related key material descriptions.

use vstd::prelude::*;

verus! {

/// Key kinds usable by the stack.
#[derive(Clone, Copy, Debug, PartialEq, Eq, Structural)]
pub enum OTKeyType {
    Raw,
    Aes,
    Hmac,
    Ecdsa,
}

/// Key algorithms usable by the stack.
#[derive(Clone, Copy, Debug, PartialEq, Eq, Structural)]
pub enum OTKeyAlgorithm {
    Vendor,
    AesEcb,
    HmacSha256,
    Ecsda,
}

/// Key usage flags. Each flag selects one bit of a usage mask.
#[derive(Clone, Copy, Debug, PartialEq, Eq, Structural)]
pub enum OTKeyUsage {
    /// Key usage is empty
    Empty,
    /// Key can be exported
    Export,
    /// Encryption (vendor defined)
    Encrypt,
    /// AES ECB
    Decrypt,
    /// Sign hash
    SignHash,
    /// Verify hash
    VerifyHash,
}

impl OTKeyUsage {
    /// The bit this usage occupies in a usage mask.
    pub open spec fn spec_mask(self) -> u8 {
        match self {
            OTKeyUsage::Empty => 0,
            OTKeyUsage::Export => 1u8 << 0,
            OTKeyUsage::Encrypt => 1u8 << 1,
            OTKeyUsage::Decrypt => 1u8 << 2,
            OTKeyUsage::SignHash => 1u8 << 3,
            OTKeyUsage::VerifyHash => 1u8 << 4,
        }
    }

    /// Returns the bit this usage occupies in a usage mask.
    pub fn mask(self) -> (r: u8)
        ensures
            r == self.spec_mask(),
    {
        match self {
            OTKeyUsage::Empty => 0,
            OTKeyUsage::Export => 1u8 << 0,
            OTKeyUsage::Encrypt => 1u8 << 1,
            OTKeyUsage::Decrypt => 1u8 << 2,
            OTKeyUsage::SignHash => 1u8 << 3,
            OTKeyUsage::VerifyHash => 1u8 << 4,
        }
    }

    /// Combines two usage flags into one mask.
    pub fn bitor(self, rhs: Self) -> (r: u8)
        ensures
            r == self.spec_mask() | rhs.spec_mask(),
    {
        self.mask() | rhs.mask()
    }
}

/// Key storage classes.
#[derive(Clone, Copy, Debug, PartialEq, Eq, Structural)]
pub enum OTKeyStorage {
    Volatile,
    Persistent,
}

/// Key reference handle as used by a PSA-style key store.
pub type OTCryptoKeyRef = u32;

/// Key material required for crypto operations: literal bytes or a handle.
pub enum OTCryptoKey {
    Key(Option<Vec<u8>>),
    Ref(OTCryptoKeyRef),
}

// Length of a SHA-256 hash (in bytes)
pub const OT_CRYPTO_SHA256_HASH_SIZE: usize = 32;

/// SHA-256 hash.
pub type OTSha256Hash = [u8; 32];

// Max buffer size (in bytes) for representing an ECDSA key pair in DER format
pub const OT_CRYPTO_ECDSA_MAX_DER_SIZE: usize = 125;

/// ECDSA key pair (public and private keys), stored using Distinguished
/// Encoding Rules (per RFC 5915).
pub struct OTCryptoEcdsaKeyPair {
    pub der_bytes: [u8; 125],
    pub der_length: usize,
}

// Buffer size (in bytes) for representing an ECDSA public key
pub const OT_CRYPTO_ECDSA_PUBLIC_KEY_SIZE: usize = 64;

/// ECDSA public key, stored as the byte sequence representation of an
/// uncompressed curve point (RFC 6605, section 4).
pub type OTCryptoEcdsaPublicKey = [u8; 64];

// Buffer size (in bytes) for representing an ECDSA signature
pub const OT_CRYPTO_ECDSA_SIGNATURE_SIZE: usize = 64;

/// ECDSA signature, encoded as the concatenated binary representation of the
/// two MPIs `r` and `s` calculated during signing (RFC 6605, section 4).
pub type OTCryptoEcdsaSignature = [u8; 64];

/// Max PBKDF2 salt length: salt prefix (6) + extended PAN id (8) + network name (16)
pub const OT_CRYPTO_PBDKF2_MAX_SALT_SIZE: usize = 30;

} // verus!
