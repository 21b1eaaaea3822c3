//! Named color palettes for root coloring.
//!
//! A rendered pixel's base color is chosen from an ordered palette of RGB
//! triples, keyed by the discovery index of the root the pixel converged
//! to. The palettes are fixed ordered lists of named color schemes; one is
//! selected explicitly at construction time.

use vstd::prelude::*;

verus! {

/// A named, fixed color scheme: an ordered list of RGB triples.
#[derive(Clone, Copy, Debug, PartialEq, Eq, Structural)]
pub enum Palette {
    /// Warm terracotta, pale yellow, slate blue, dusty violet.
    YellowDusty,
    /// Warm terracotta, sage green, slate blue, dusty violet.
    Dusty,
    /// Amber, cyan, purple, teal.
    Forgot,
    /// Deep reds and blues.
    RedSinister,
    /// Bright violets and cyan.
    GrapePopsicle,
    /// Five fruity pastels.
    Candymelon,
}

/// The ordered RGB triples of each palette.
pub open spec fn spec_colors(p: Palette) -> Seq<(u8, u8, u8)> {
    match p {
        Palette::YellowDusty => seq![
            (0xcfu8, 0x6au8, 0x4cu8),
            (0xf9u8, 0xeeu8, 0x98u8),
            (0x75u8, 0x87u8, 0xa6u8),
            (0x9bu8, 0x85u8, 0x9du8),
        ],
        Palette::Dusty => seq![
            (0xcfu8, 0x6au8, 0x4cu8),
            (0x8fu8, 0x9du8, 0x6au8),
            (0x75u8, 0x87u8, 0xa6u8),
            (0x9bu8, 0x85u8, 0x9du8),
        ],
        Palette::Forgot => seq![
            (0xfeu8, 0xc4u8, 0x18u8),
            (0x06u8, 0xb6u8, 0xefu8),
            (0x81u8, 0x5bu8, 0xa4u8),
            (0x5bu8, 0xc4u8, 0xbfu8),
        ],
        Palette::RedSinister => seq![
            (0xd7u8, 0x37u8, 0x37u8),
            (0x51u8, 0x6au8, 0xecu8),
            (0xb8u8, 0x54u8, 0xd4u8),
            (0x7bu8, 0x59u8, 0xc0u8),
        ],
        Palette::GrapePopsicle => seq![
            (0xe5u8, 0x8bu8, 0xf2u8),
            (0x6au8, 0xdbu8, 0xdeu8),
            (0x9du8, 0x83u8, 0xf0u8),
            (0x9bu8, 0x85u8, 0x9du8),
        ],
        Palette::Candymelon => seq![
            (0xffu8, 0xb3u8, 0x3cu8),
            (0xfau8, 0xe6u8, 0x70u8),
            (0xccu8, 0xebu8, 0x61u8),
            (0xffu8, 0x9au8, 0x81u8),
            (0x8du8, 0xe9u8, 0x87u8),
        ],
    }
}

impl Palette {
    /// The palette's colors, in order. Every palette is non-empty.
    pub fn colors(&self) -> (v: Vec<(u8, u8, u8)>)
        ensures
            v@ == spec_colors(*self),
            v@.len() >= 1,
    {
        let mut v: Vec<(u8, u8, u8)> = Vec::new();
        match self {
            Palette::YellowDusty => {
                v.push((0xcf, 0x6a, 0x4c));
                v.push((0xf9, 0xee, 0x98));
                v.push((0x75, 0x87, 0xa6));
                v.push((0x9b, 0x85, 0x9d));
            },
            Palette::Dusty => {
                v.push((0xcf, 0x6a, 0x4c));
                v.push((0x8f, 0x9d, 0x6a));
                v.push((0x75, 0x87, 0xa6));
                v.push((0x9b, 0x85, 0x9d));
            },
            Palette::Forgot => {
                v.push((0xfe, 0xc4, 0x18));
                v.push((0x06, 0xb6, 0xef));
                v.push((0x81, 0x5b, 0xa4));
                v.push((0x5b, 0xc4, 0xbf));
            },
            Palette::RedSinister => {
                v.push((0xd7, 0x37, 0x37));
                v.push((0x51, 0x6a, 0xec));
                v.push((0xb8, 0x54, 0xd4));
                v.push((0x7b, 0x59, 0xc0));
            },
            Palette::GrapePopsicle => {
                v.push((0xe5, 0x8b, 0xf2));
                v.push((0x6a, 0xdb, 0xde));
                v.push((0x9d, 0x83, 0xf0));
                v.push((0x9b, 0x85, 0x9d));
            },
            Palette::Candymelon => {
                v.push((0xff, 0xb3, 0x3c));
                v.push((0xfa, 0xe6, 0x70));
                v.push((0xcc, 0xeb, 0x61));
                v.push((0xff, 0x9a, 0x81));
                v.push((0x8d, 0xe9, 0x87));
            },
        }
        proof {
            assert(v@ =~= spec_colors(*self));
        }
        v
    }
}

} // verus!
