//! MLS cipher suites by their registered value.

use std::sync::Arc;
use vstd::prelude::*;

verus! {

/// MLS cipher suite, identified by its registered value. Values from 0xF000 on are for
/// suites whose registration is pending.
#[derive(Debug, Clone, PartialEq, Eq, Structural)]
pub struct MlsCipherSuite {
    value: u16,
}

impl View for MlsCipherSuite {
    type V = u16;

    closed spec fn view(&self) -> u16 {
        self.value
    }
}

impl MlsCipherSuite {
    pub const DHKEM_X25519_AES128: u16 = 0x0001;

    pub const DHKEM_P256_AES128: u16 = 0x0002;

    pub const DHKEM_X25519_CHACHA: u16 = 0x0003;

    pub const DHKEM_X448_AES256: u16 = 0x0004;

    pub const DHKEM_P521_AES256: u16 = 0x0005;

    pub const DHKEM_X448_CHACHA: u16 = 0x0006;

    pub const DHKEM_P384_AES256: u16 = 0x0007;

    /// X-Wing with AES-128-GCM, SHA-256 and Ed25519.
    pub const XWING_AES128: u16 = 0xFE4C;

    /// The suite of a raw value.
    pub fn new(value: u16) -> (r: Arc<MlsCipherSuite>)
        ensures
            r@ == value,
    {
        Arc::new(MlsCipherSuite { value })
    }

    /// X-Wing with AES-128-GCM.
    pub fn xwing() -> (r: Arc<MlsCipherSuite>)
        ensures
            r@ == 0xFE4C,
    {
        Arc::new(MlsCipherSuite { value: Self::XWING_AES128 })
    }

    /// X25519 with AES-128-GCM.
    pub fn x25519_aes128() -> (r: Arc<MlsCipherSuite>)
        ensures
            r@ == 0x0001,
    {
        Arc::new(MlsCipherSuite { value: Self::DHKEM_X25519_AES128 })
    }

    /// X25519 with ChaCha20-Poly1305.
    pub fn x25519_chacha() -> (r: Arc<MlsCipherSuite>)
        ensures
            r@ == 0x0003,
    {
        Arc::new(MlsCipherSuite { value: Self::DHKEM_X25519_CHACHA })
    }

    /// The raw value.
    pub fn value(&self) -> (r: u16)
        ensures
            r == self@,
    {
        self.value
    }

    /// Whether this library handles the suite itself. Classical suites are not: callers
    /// route them elsewhere.
    pub fn is_supported(&self) -> (r: bool)
        ensures
            r == (self@ == 0xFE4C),
    {
        self.value == Self::XWING_AES128
    }
}

} // verus!
