//! The values of settings that were never set.

use vstd::prelude::*;

verus! {

/// The bits of the 32-bit number 1.0: full volume.
pub const FULL_VOLUME: u32 = 0x3f80_0000;

pub fn yes() -> (value: bool)
    ensures
        value,
{
    true
}

/// Full volume, as the bits of a 32-bit number.
pub fn volume() -> (bits: u32)
    ensures
        bits == FULL_VOLUME,
{
    FULL_VOLUME
}

pub fn mcp_enabled() -> (value: bool)
    ensures
        !value,
{
    false
}

pub fn mcp_port() -> (port: u16)
    ensures
        port == 5577,
{
    5577
}

pub fn overlay_enabled() -> (value: bool)
    ensures
        !value,
{
    false
}

pub fn overlay_port() -> (port: u16)
    ensures
        port == 5578,
{
    5578
}

pub fn overlay_host() -> (host: String)
    ensures
        host@ == "127.0.0.1"@,
{
    "127.0.0.1".to_string()
}

pub fn max_quality() -> (quality: String)
    ensures
        quality@ == "HI_RES_LOSSLESS"@,
{
    "HI_RES_LOSSLESS".to_string()
}

} // verus!
