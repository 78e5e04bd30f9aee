//! The deterministic trait engine: maps an instance index to a rarity
//! tier and a display symbol via a SHA-256 digest of the index.
//!
//! For a non-zero index the 32-byte digest of the index's little-endian
//! encoding drives two byte-threshold checks, evaluated in priority
//! order: digest byte 25 below 1 selects the Absolute tier (1/256),
//! otherwise digest byte 24 below 13 selects the Glitch tier, otherwise
//! the Classic tier. Within a tier, bit slices of the 64-bit value formed
//! from digest bytes 0..8 (little-endian) index into a fixed ordered
//! symbol list. Index 0 is a hard-coded special case: the Seed tier.

use crate::hashing::{sha256, sha256_of};
use vstd::bytes::{spec_u128_to_le_bytes, spec_u64_from_le_bytes, u128_to_le_bytes, u64_from_le_bytes};
use vstd::prelude::*;
use vstd::slice::slice_subrange;

verus! {

/// The rarity classification of an instance.
#[derive(Clone, Copy, Debug, PartialEq, Eq, Structural)]
pub enum Tier {
    /// Index 0 only; chosen without hashing.
    Seed,
    /// Digest byte 25 below the absolute threshold (1 in 256).
    Absolute,
    /// Otherwise, digest byte 24 below the glitch threshold (13 in 256).
    Glitch,
    /// Every remaining non-zero index.
    Classic,
}

/// A derived tier together with its display symbol.
#[derive(Clone, Copy, Debug)]
pub struct TraitOutcome {
    pub tier: Tier,
    pub symbol: &'static str,
}

/// Digest byte 25 strictly below this selects the Absolute tier.
pub const ABSOLUTE_THRESHOLD: u8 = 1;

/// Digest byte 24 strictly below this (when not Absolute) selects Glitch.
pub const GLITCH_THRESHOLD: u8 = 13;

/// Bits to shift the 64-bit digest value before slicing a symbol code.
pub const EXAMPLE_BITS: u64 = 4;

/// Low-bit mask of the Glitch symbol code slice (3 bits wide).
pub const GLITCH_CODE_MASK: u64 = 7;

/// Low-bit mask of the Classic symbol code slice (5 bits wide).
pub const CLASSIC_CODE_MASK: u64 = 31;

/// The symbol of the Seed tier.
pub open spec fn seed_symbol() -> Seq<char> {
    "🌱"@
}

/// The two Absolute outcomes, chosen by bit 0 of the digest value.
pub open spec fn absolute_symbols() -> Seq<Seq<char>> {
    seq!["💀"@, "🍉"@]
}

/// The fixed ordered Glitch symbol list.
pub open spec fn glitch_symbols() -> Seq<Seq<char>> {
    seq!["🎈"@, "🧪"@, "☮️"@, "🌮"@, "🫐"@, "⛽"@, "⏰"@, "🐥"@]
}

/// The fixed ordered Classic symbol list.
pub open spec fn classic_symbols() -> Seq<Seq<char>> {
    seq![
        "⭐"@, "🌙"@, "☀️"@, "🏯"@, "🎯"@, "🕯️"@, "🎩"@, "🪬"@, "🐉"@, "🧁"@, "🦇"@,
        "🤡"@, "🪽"@, "🫦"@, "🎠"@, "🦁"@, "🦅"@, "🙃"@, "🥀"@, "🤐"@, "🫵"@, "🌎"@,
    ]
}

/// The 64-bit value formed from digest bytes 0..8, little-endian.
pub open spec fn spec_encoded(digest: Seq<u8>) -> u64
    recommends
        digest.len() >= 8,
{
    spec_u64_from_le_bytes(digest.subrange(0, 8))
}

/// Tier selection from a digest: the two byte thresholds, in priority
/// order (Absolute checked before Glitch), Classic as the default.
pub open spec fn spec_tier(digest: Seq<u8>) -> Tier
    recommends
        digest.len() == 32,
{
    if digest[25] < ABSOLUTE_THRESHOLD {
        Tier::Absolute
    } else if digest[24] < GLITCH_THRESHOLD {
        Tier::Glitch
    } else {
        Tier::Classic
    }
}

/// Symbol selection from a digest: bit slices of the 64-bit digest value
/// index into the chosen tier's fixed list, modulo the list length.
pub open spec fn spec_symbol(digest: Seq<u8>) -> Seq<char>
    recommends
        digest.len() == 32,
{
    let encoded = spec_encoded(digest);
    match spec_tier(digest) {
        Tier::Absolute => absolute_symbols()[(encoded & 1) as int],
        Tier::Glitch => glitch_symbols()[
            ((encoded >> EXAMPLE_BITS) & GLITCH_CODE_MASK) as int
                % (glitch_symbols().len() as int)
        ],
        _ => classic_symbols()[
            ((encoded >> EXAMPLE_BITS) & CLASSIC_CODE_MASK) as int
                % (classic_symbols().len() as int)
        ],
    }
}

/// The full derivation from an index: index 0 is the Seed tier with its
/// fixed symbol, bypassing hashing; every other index is classified by
/// the digest of its 16-byte little-endian encoding.
pub open spec fn spec_derive_tier(index: u128) -> Tier {
    if index == 0 {
        Tier::Seed
    } else {
        spec_tier(sha256_of(spec_u128_to_le_bytes(index)))
    }
}

/// The symbol the full derivation assigns to an index.
pub open spec fn spec_derive_symbol(index: u128) -> Seq<char> {
    if index == 0 {
        seed_symbol()
    } else {
        spec_symbol(sha256_of(spec_u128_to_le_bytes(index)))
    }
}

/// Tier selection is mutually exclusive and exhaustive: every 32-byte
/// digest selects exactly one of Absolute, Glitch and Classic, governed
/// by the two byte thresholds checked in that priority order, and never
/// Seed.
pub proof fn lemma_tier_selection(digest: Seq<u8>)
    requires
        digest.len() == 32,
    ensures
        spec_tier(digest) != Tier::Seed,
        spec_tier(digest) == Tier::Absolute <==> digest[25] < ABSOLUTE_THRESHOLD,
        spec_tier(digest) == Tier::Glitch <==> (digest[25] >= ABSOLUTE_THRESHOLD
            && digest[24] < GLITCH_THRESHOLD),
        spec_tier(digest) == Tier::Classic <==> (digest[25] >= ABSOLUTE_THRESHOLD
            && digest[24] >= GLITCH_THRESHOLD),
{
}

/// Every non-zero index lands in exactly one of the three hashed
/// tiers; the Seed tier belongs to index 0 alone.
pub proof fn lemma_tier_exhaustive(index: u128)
    ensures
        index == 0 ==> spec_derive_tier(index) == Tier::Seed,
        index != 0 ==> spec_derive_tier(index) != Tier::Seed,
        index != 0 ==> (spec_derive_tier(index) == Tier::Absolute || spec_derive_tier(index)
            == Tier::Glitch || spec_derive_tier(index) == Tier::Classic),
{
}

/// One Absolute outcome, by the low bit of the digest value.
fn absolute_symbol(code: u64) -> (r: &'static str)
    requires
        code < 2,
    ensures
        r@ == absolute_symbols()[code as int],
{
    if code == 0 {
        "💀"
    } else {
        "🍉"
    }
}

/// One Glitch symbol, by its position in the fixed list.
fn glitch_symbol(code: u64) -> (r: &'static str)
    requires
        code < 8,
    ensures
        r@ == glitch_symbols()[code as int],
{
    match code {
        0 => "🎈",
        1 => "🧪",
        2 => "☮️",
        3 => "🌮",
        4 => "🫐",
        5 => "⛽",
        6 => "⏰",
        _ => "🐥",
    }
}

/// One Classic symbol, by its position in the fixed list.
fn classic_symbol(code: u64) -> (r: &'static str)
    requires
        code < 22,
    ensures
        r@ == classic_symbols()[code as int],
{
    match code {
        0 => "⭐",
        1 => "🌙",
        2 => "☀️",
        3 => "🏯",
        4 => "🎯",
        5 => "🕯️",
        6 => "🎩",
        7 => "🪬",
        8 => "🐉",
        9 => "🧁",
        10 => "🦇",
        11 => "🤡",
        12 => "🪽",
        13 => "🫦",
        14 => "🎠",
        15 => "🦁",
        16 => "🦅",
        17 => "🙃",
        18 => "🥀",
        19 => "🤐",
        20 => "🫵",
        _ => "🌎",
    }
}

/// Classifies a 32-byte digest: the tier from the two byte thresholds,
/// the symbol from the bit slices of the digest value, exactly as the
/// specification functions state.
pub fn symbol_from_digest(digest: &Vec<u8>) -> (r: TraitOutcome)
    requires
        digest@.len() == 32,
    ensures
        r.tier == spec_tier(digest@),
        r.symbol@ == spec_symbol(digest@),
        r.tier != Tier::Seed,
{
    let encoded = u64_from_le_bytes(slice_subrange(digest.as_slice(), 0, 8));
    let absolute_chance_byte = digest[25];
    if absolute_chance_byte < ABSOLUTE_THRESHOLD {
        let absolute_card_code = encoded & 1;
        proof {
            assert(encoded & 1 < 2) by (bit_vector);
        }
        TraitOutcome { tier: Tier::Absolute, symbol: absolute_symbol(absolute_card_code) }
    } else {
        let chance_byte = digest[24];
        if chance_byte < GLITCH_THRESHOLD {
            let glitch_card_code = (encoded >> EXAMPLE_BITS) & GLITCH_CODE_MASK;
            let code = glitch_card_code % 8;
            proof {
                assert(glitch_symbols().len() == 8);
            }
            TraitOutcome { tier: Tier::Glitch, symbol: glitch_symbol(code) }
        } else {
            let card_code = (encoded >> EXAMPLE_BITS) & CLASSIC_CODE_MASK;
            let code = card_code % 22;
            proof {
                assert(classic_symbols().len() == 22);
            }
            TraitOutcome { tier: Tier::Classic, symbol: classic_symbol(code) }
        }
    }
}

/// Derives the tier and symbol of an instance from its index alone.
/// The result is a pure function of the index: repeated calls, on any
/// replica, return the identical tier and symbol.
pub fn derive_symbol(index: u128) -> (r: TraitOutcome)
    ensures
        r.tier == spec_derive_tier(index),
        r.symbol@ == spec_derive_symbol(index),
        index == 0 ==> r.tier == Tier::Seed && r.symbol@ == seed_symbol(),
{
    if index == 0 {
        TraitOutcome { tier: Tier::Seed, symbol: "🌱" }
    } else {
        let le = u128_to_le_bytes(index);
        let digest = sha256(le.as_slice());
        symbol_from_digest(&digest)
    }
}

} // verus!
