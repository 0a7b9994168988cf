use vstd::prelude::*;

verus! {

/// Seed namespace of campaign records: the ASCII text `ad`.
pub const SEED_AD: [u8; 2] = [0x61, 0x64];

/// Seed namespace of screen records: the ASCII text `screen`.
pub const SEED_SCREEN: [u8; 6] = [0x73, 0x63, 0x72, 0x65, 0x65, 0x6e];

// Content categories of a campaign, one bit each. Advertisers set them in
// `AdAccount::tag_mask`; renderers match them against a policy of their own.
// Bits 0 to 15 are for the categories below and their successors, bits 16 to
// 63 for later protocol versions.
/// No category.
pub const TAG_NONE: u64 = 0;

/// Bit 0: cryptocurrency.
pub const TAG_CRYPTO: u64 = 0x01;

/// Bit 1: betting.
pub const TAG_BETTING: u64 = 0x02;

/// Bit 2: not safe for work.
pub const TAG_NSFW: u64 = 0x04;

/// Bit 3: political.
pub const TAG_POLITICAL: u64 = 0x08;

/// Bit 4: alcohol.
pub const TAG_ALCOHOL: u64 = 0x10;

/// Width and height of a display, in pixels. Informational.
#[derive(Clone, Copy, Debug, PartialEq, Eq, Structural)]
pub struct Dimensions {
    pub width: u16,
    pub height: u16,
}

} // verus!
