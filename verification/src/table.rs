//! Triangulation of one marching-cubes cell.
//!
//! A cell's eight corners are numbered by bits: corner `i` sits at
//! `(i&1, (i>>1)&1, (i>>2)&1)` relative to the cell.  Its twelve edges are
//! the x-spanning edges 0..=3 (low corners 0, 2, 4, 6), the y-spanning
//! edges 4..=7 (low corners 0, 1, 4, 5) and the z-spanning edges 8..=11
//! (low corners 0..=3).  A configuration mask has bit `i` set when corner
//! `i` samples below the surface threshold.  For each of the 256 masks the
//! table lists the surface triangles as triples of edge indices: the
//! crossing edges of each face are paired by walking the face boundary
//! from each edge's solid corner, the resulting closed loops are fanned
//! into triangles.

use vstd::prelude::*;

verus! {

/// Low and high corner of edge `e`.
pub open spec fn edge_corners_spec(e: int) -> (int, int) {
    if e < 4 {
        let c = 2 * e;
        (c, c + 1)
    } else if e < 8 {
        let c = if e == 4 { 0int } else if e == 5 { 1int } else if e == 6 { 4int } else { 5int };
        (c, c + 2)
    } else {
        (e - 8, e - 4)
    }
}

/// Low and high corner of edge `e`.
pub fn edge_corners(e: u8) -> (r: (u8, u8))
    requires
        e < 12,
    ensures
        r.0 < 8,
        r.1 < 8,
        (r.0 as int, r.1 as int) == edge_corners_spec(e as int),
{
    if e < 4 {
        let c = 2 * e;
        (c, c + 1)
    } else if e < 8 {
        let c: u8 = if e == 4 { 0 } else if e == 5 { 1 } else if e == 6 { 4 } else { 5 };
        (c, c + 2)
    } else {
        (e - 8, e - 4)
    }
}

/// Offset of corner `c` within its cell, one bit per axis.
pub open spec fn corner_bit_x(c: int) -> int {
    c % 2
}

/// Offset of corner `c` within its cell, one bit per axis.
pub open spec fn corner_bit_y(c: int) -> int {
    (c / 2) % 2
}

/// Offset of corner `c` within its cell, one bit per axis.
pub open spec fn corner_bit_z(c: int) -> int {
    c / 4
}

/// The triangles of configuration `mask`, as triples of edge indices.
#[verifier::opaque]
pub open spec fn cell_triangles_spec(mask: u8) -> Seq<(u8, u8, u8)> {
    match mask {
        0 => Seq::empty(),
        1 => seq![(0u8, 8u8, 4u8)],
        2 => seq![(0u8, 9u8, 5u8)],
        3 => seq![(4u8, 8u8, 9u8), (4u8, 9u8, 5u8)],
        4 => seq![(1u8, 10u8, 4u8)],
        5 => seq![(0u8, 8u8, 10u8), (0u8, 10u8, 1u8)],
        6 => seq![(0u8, 9u8, 5u8), (0u8, 5u8, 1u8), (0u8, 1u8, 10u8), (0u8, 10u8, 4u8)],
        7 => seq![(1u8, 10u8, 8u8), (1u8, 8u8, 9u8), (1u8, 9u8, 5u8)],
        8 => seq![(1u8, 11u8, 5u8)],
        9 => seq![(0u8, 8u8, 4u8), (0u8, 4u8, 1u8), (0u8, 1u8, 11u8), (0u8, 11u8, 5u8)],
        10 => seq![(0u8, 9u8, 11u8), (0u8, 11u8, 1u8)],
        11 => seq![(1u8, 11u8, 9u8), (1u8, 9u8, 8u8), (1u8, 8u8, 4u8)],
        12 => seq![(4u8, 10u8, 11u8), (4u8, 11u8, 5u8)],
        13 => seq![(0u8, 8u8, 10u8), (0u8, 10u8, 11u8), (0u8, 11u8, 5u8)],
        14 => seq![(0u8, 9u8, 11u8), (0u8, 11u8, 10u8), (0u8, 10u8, 4u8)],
        15 => seq![(8u8, 10u8, 11u8), (8u8, 11u8, 9u8)],
        16 => seq![(2u8, 8u8, 6u8)],
        17 => seq![(0u8, 2u8, 6u8), (0u8, 6u8, 4u8)],
        18 => seq![(0u8, 8u8, 6u8), (0u8, 6u8, 2u8), (0u8, 2u8, 9u8), (0u8, 9u8, 5u8)],
        19 => seq![(2u8, 9u8, 5u8), (2u8, 5u8, 4u8), (2u8, 4u8, 6u8)],
        20 => seq![(1u8, 10u8, 6u8), (1u8, 6u8, 2u8), (1u8, 2u8, 8u8), (1u8, 8u8, 4u8)],
        21 => seq![(0u8, 2u8, 6u8), (0u8, 6u8, 10u8), (0u8, 10u8, 1u8)],
        22 => seq![(0u8, 8u8, 4u8), (1u8, 10u8, 6u8), (1u8, 6u8, 2u8), (1u8, 2u8, 9u8), (1u8, 9u8, 5u8)],
        23 => seq![(1u8, 10u8, 6u8), (1u8, 6u8, 2u8), (1u8, 2u8, 9u8), (1u8, 9u8, 5u8)],
        24 => seq![(1u8, 11u8, 5u8), (2u8, 8u8, 6u8)],
        25 => seq![(0u8, 2u8, 6u8), (0u8, 6u8, 4u8), (0u8, 4u8, 1u8), (0u8, 1u8, 11u8), (0u8, 11u8, 5u8)],
        26 => seq![(0u8, 8u8, 6u8), (0u8, 6u8, 2u8), (0u8, 2u8, 9u8), (0u8, 9u8, 11u8), (0u8, 11u8, 1u8)],
        27 => seq![(1u8, 11u8, 9u8), (1u8, 9u8, 2u8), (1u8, 2u8, 6u8), (1u8, 6u8, 4u8)],
        28 => seq![(2u8, 8u8, 4u8), (2u8, 4u8, 5u8), (2u8, 5u8, 11u8), (2u8, 11u8, 10u8), (2u8, 10u8, 6u8)],
        29 => seq![(0u8, 2u8, 6u8), (0u8, 6u8, 10u8), (0u8, 10u8, 11u8), (0u8, 11u8, 5u8)],
        30 => seq![(0u8, 8u8, 4u8), (2u8, 9u8, 11u8), (2u8, 11u8, 10u8), (2u8, 10u8, 6u8)],
        31 => seq![(2u8, 9u8, 11u8), (2u8, 11u8, 10u8), (2u8, 10u8, 6u8)],
        32 => seq![(2u8, 9u8, 7u8)],
        33 => seq![(0u8, 9u8, 7u8), (0u8, 7u8, 2u8), (0u8, 2u8, 8u8), (0u8, 8u8, 4u8)],
        34 => seq![(0u8, 2u8, 7u8), (0u8, 7u8, 5u8)],
        35 => seq![(2u8, 8u8, 4u8), (2u8, 4u8, 5u8), (2u8, 5u8, 7u8)],
        36 => seq![(1u8, 10u8, 4u8), (2u8, 9u8, 7u8)],
        37 => seq![(0u8, 9u8, 7u8), (0u8, 7u8, 2u8), (0u8, 2u8, 8u8), (0u8, 8u8, 10u8), (0u8, 10u8, 1u8)],
        38 => seq![(0u8, 2u8, 7u8), (0u8, 7u8, 5u8), (0u8, 5u8, 1u8), (0u8, 1u8, 10u8), (0u8, 10u8, 4u8)],
        39 => seq![(1u8, 10u8, 8u8), (1u8, 8u8, 2u8), (1u8, 2u8, 7u8), (1u8, 7u8, 5u8)],
        40 => seq![(1u8, 11u8, 7u8), (1u8, 7u8, 2u8), (1u8, 2u8, 9u8), (1u8, 9u8, 5u8)],
        41 => seq![(0u8, 9u8, 5u8), (1u8, 11u8, 7u8), (1u8, 7u8, 2u8), (1u8, 2u8, 8u8), (1u8, 8u8, 4u8)],
        42 => seq![(0u8, 2u8, 7u8), (0u8, 7u8, 11u8), (0u8, 11u8, 1u8)],
        43 => seq![(1u8, 11u8, 7u8), (1u8, 7u8, 2u8), (1u8, 2u8, 8u8), (1u8, 8u8, 4u8)],
        44 => seq![(2u8, 9u8, 5u8), (2u8, 5u8, 4u8), (2u8, 4u8, 10u8), (2u8, 10u8, 11u8), (2u8, 11u8, 7u8)],
        45 => seq![(0u8, 9u8, 5u8), (2u8, 8u8, 10u8), (2u8, 10u8, 11u8), (2u8, 11u8, 7u8)],
        46 => seq![(0u8, 2u8, 7u8), (0u8, 7u8, 11u8), (0u8, 11u8, 10u8), (0u8, 10u8, 4u8)],
        47 => seq![(2u8, 8u8, 10u8), (2u8, 10u8, 11u8), (2u8, 11u8, 7u8)],
        48 => seq![(6u8, 8u8, 9u8), (6u8, 9u8, 7u8)],
        49 => seq![(0u8, 9u8, 7u8), (0u8, 7u8, 6u8), (0u8, 6u8, 4u8)],
        50 => seq![(0u8, 8u8, 6u8), (0u8, 6u8, 7u8), (0u8, 7u8, 5u8)],
        51 => seq![(4u8, 6u8, 7u8), (4u8, 7u8, 5u8)],
        52 => seq![(1u8, 10u8, 6u8), (1u8, 6u8, 7u8), (1u8, 7u8, 9u8), (1u8, 9u8, 8u8), (1u8, 8u8, 4u8)],
        53 => seq![(0u8, 9u8, 7u8), (0u8, 7u8, 6u8), (0u8, 6u8, 10u8), (0u8, 10u8, 1u8)],
        54 => seq![(0u8, 8u8, 4u8), (1u8, 10u8, 6u8), (1u8, 6u8, 7u8), (1u8, 7u8, 5u8)],
        55 => seq![(1u8, 10u8, 6u8), (1u8, 6u8, 7u8), (1u8, 7u8, 5u8)],
        56 => seq![(1u8, 11u8, 7u8), (1u8, 7u8, 6u8), (1u8, 6u8, 8u8), (1u8, 8u8, 9u8), (1u8, 9u8, 5u8)],
        57 => seq![(0u8, 9u8, 5u8), (1u8, 11u8, 7u8), (1u8, 7u8, 6u8), (1u8, 6u8, 4u8)],
        58 => seq![(0u8, 8u8, 6u8), (0u8, 6u8, 7u8), (0u8, 7u8, 11u8), (0u8, 11u8, 1u8)],
        59 => seq![(1u8, 11u8, 7u8), (1u8, 7u8, 6u8), (1u8, 6u8, 4u8)],
        60 => seq![(4u8, 8u8, 9u8), (4u8, 9u8, 5u8), (6u8, 10u8, 11u8), (6u8, 11u8, 7u8)],
        61 => seq![(0u8, 9u8, 5u8), (6u8, 10u8, 11u8), (6u8, 11u8, 7u8)],
        62 => seq![(0u8, 8u8, 4u8), (6u8, 10u8, 11u8), (6u8, 11u8, 7u8)],
        63 => seq![(6u8, 10u8, 11u8), (6u8, 11u8, 7u8)],
        64 => seq![(3u8, 10u8, 6u8)],
        65 => seq![(0u8, 8u8, 6u8), (0u8, 6u8, 3u8), (0u8, 3u8, 10u8), (0u8, 10u8, 4u8)],
        66 => seq![(0u8, 9u8, 5u8), (3u8, 10u8, 6u8)],
        67 => seq![(3u8, 10u8, 4u8), (3u8, 4u8, 5u8), (3u8, 5u8, 9u8), (3u8, 9u8, 8u8), (3u8, 8u8, 6u8)],
        68 => seq![(1u8, 3u8, 6u8), (1u8, 6u8, 4u8)],
        69 => seq![(0u8, 8u8, 6u8), (0u8, 6u8, 3u8), (0u8, 3u8, 1u8)],
        70 => seq![(0u8, 9u8, 5u8), (0u8, 5u8, 1u8), (0u8, 1u8, 3u8), (0u8, 3u8, 6u8), (0u8, 6u8, 4u8)],
        71 => seq![(1u8, 3u8, 6u8), (1u8, 6u8, 8u8), (1u8, 8u8, 9u8), (1u8, 9u8, 5u8)],
        72 => seq![(1u8, 10u8, 6u8), (1u8, 6u8, 3u8), (1u8, 3u8, 11u8), (1u8, 11u8, 5u8)],
        73 => seq![(0u8, 8u8, 6u8), (0u8, 6u8, 3u8), (0u8, 3u8, 11u8), (0u8, 11u8, 5u8), (1u8, 10u8, 4u8)],
        74 => seq![(0u8, 9u8, 11u8), (0u8, 11u8, 3u8), (0u8, 3u8, 6u8), (0u8, 6u8, 10u8), (0u8, 10u8, 1u8)],
        75 => seq![(1u8, 10u8, 4u8), (3u8, 11u8, 9u8), (3u8, 9u8, 8u8), (3u8, 8u8, 6u8)],
        76 => seq![(3u8, 11u8, 5u8), (3u8, 5u8, 4u8), (3u8, 4u8, 6u8)],
        77 => seq![(0u8, 8u8, 6u8), (0u8, 6u8, 3u8), (0u8, 3u8, 11u8), (0u8, 11u8, 5u8)],
        78 => seq![(0u8, 9u8, 11u8), (0u8, 11u8, 3u8), (0u8, 3u8, 6u8), (0u8, 6u8, 4u8)],
        79 => seq![(3u8, 11u8, 9u8), (3u8, 9u8, 8u8), (3u8, 8u8, 6u8)],
        80 => seq![(2u8, 8u8, 10u8), (2u8, 10u8, 3u8)],
        81 => seq![(0u8, 2u8, 3u8), (0u8, 3u8, 10u8), (0u8, 10u8, 4u8)],
        82 => seq![(0u8, 8u8, 10u8), (0u8, 10u8, 3u8), (0u8, 3u8, 2u8), (0u8, 2u8, 9u8), (0u8, 9u8, 5u8)],
        83 => seq![(2u8, 9u8, 5u8), (2u8, 5u8, 4u8), (2u8, 4u8, 10u8), (2u8, 10u8, 3u8)],
        84 => seq![(1u8, 3u8, 2u8), (1u8, 2u8, 8u8), (1u8, 8u8, 4u8)],
        85 => seq![(0u8, 2u8, 3u8), (0u8, 3u8, 1u8)],
        86 => seq![(0u8, 8u8, 4u8), (1u8, 3u8, 2u8), (1u8, 2u8, 9u8), (1u8, 9u8, 5u8)],
        87 => seq![(1u8, 3u8, 2u8), (1u8, 2u8, 9u8), (1u8, 9u8, 5u8)],
        88 => seq![(1u8, 10u8, 8u8), (1u8, 8u8, 2u8), (1u8, 2u8, 3u8), (1u8, 3u8, 11u8), (1u8, 11u8, 5u8)],
        89 => seq![(0u8, 2u8, 3u8), (0u8, 3u8, 11u8), (0u8, 11u8, 5u8), (1u8, 10u8, 4u8)],
        90 => seq![(0u8, 8u8, 10u8), (0u8, 10u8, 1u8), (2u8, 9u8, 11u8), (2u8, 11u8, 3u8)],
        91 => seq![(1u8, 10u8, 4u8), (2u8, 9u8, 11u8), (2u8, 11u8, 3u8)],
        92 => seq![(2u8, 8u8, 4u8), (2u8, 4u8, 5u8), (2u8, 5u8, 11u8), (2u8, 11u8, 3u8)],
        93 => seq![(0u8, 2u8, 3u8), (0u8, 3u8, 11u8), (0u8, 11u8, 5u8)],
        94 => seq![(0u8, 8u8, 4u8), (2u8, 9u8, 11u8), (2u8, 11u8, 3u8)],
        95 => seq![(2u8, 9u8, 11u8), (2u8, 11u8, 3u8)],
        96 => seq![(2u8, 9u8, 7u8), (2u8, 7u8, 3u8), (2u8, 3u8, 10u8), (2u8, 10u8, 6u8)],
        97 => seq![(0u8, 9u8, 7u8), (0u8, 7u8, 3u8), (0u8, 3u8, 10u8), (0u8, 10u8, 4u8), (2u8, 8u8, 6u8)],
        98 => seq![(0u8, 2u8, 6u8), (0u8, 6u8, 10u8), (0u8, 10u8, 3u8), (0u8, 3u8, 7u8), (0u8, 7u8, 5u8)],
        99 => seq![(2u8, 8u8, 6u8), (3u8, 10u8, 4u8), (3u8, 4u8, 5u8), (3u8, 5u8, 7u8)],
        100 => seq![(1u8, 3u8, 7u8), (1u8, 7u8, 9u8), (1u8, 9u8, 2u8), (1u8, 2u8, 6u8), (1u8, 6u8, 4u8)],
        101 => seq![(0u8, 9u8, 7u8), (0u8, 7u8, 3u8), (0u8, 3u8, 1u8), (2u8, 8u8, 6u8)],
        102 => seq![(0u8, 2u8, 6u8), (0u8, 6u8, 4u8), (1u8, 3u8, 7u8), (1u8, 7u8, 5u8)],
        103 => seq![(1u8, 3u8, 7u8), (1u8, 7u8, 5u8), (2u8, 8u8, 6u8)],
        104 => seq![(1u8, 10u8, 6u8), (1u8, 6u8, 2u8), (1u8, 2u8, 9u8), (1u8, 9u8, 5u8), (3u8, 11u8, 7u8)],
        105 => seq![(0u8, 9u8, 5u8), (1u8, 10u8, 4u8), (2u8, 8u8, 6u8), (3u8, 11u8, 7u8)],
        106 => seq![(0u8, 2u8, 6u8), (0u8, 6u8, 10u8), (0u8, 10u8, 1u8), (3u8, 11u8, 7u8)],
        107 => seq![(1u8, 10u8, 4u8), (2u8, 8u8, 6u8), (3u8, 11u8, 7u8)],
        108 => seq![(2u8, 9u8, 5u8), (2u8, 5u8, 4u8), (2u8, 4u8, 6u8), (3u8, 11u8, 7u8)],
        109 => seq![(0u8, 9u8, 5u8), (2u8, 8u8, 6u8), (3u8, 11u8, 7u8)],
        110 => seq![(0u8, 2u8, 6u8), (0u8, 6u8, 4u8), (3u8, 11u8, 7u8)],
        111 => seq![(2u8, 8u8, 6u8), (3u8, 11u8, 7u8)],
        112 => seq![(3u8, 10u8, 8u8), (3u8, 8u8, 9u8), (3u8, 9u8, 7u8)],
        113 => seq![(0u8, 9u8, 7u8), (0u8, 7u8, 3u8), (0u8, 3u8, 10u8), (0u8, 10u8, 4u8)],
        114 => seq![(0u8, 8u8, 10u8), (0u8, 10u8, 3u8), (0u8, 3u8, 7u8), (0u8, 7u8, 5u8)],
        115 => seq![(3u8, 10u8, 4u8), (3u8, 4u8, 5u8), (3u8, 5u8, 7u8)],
        116 => seq![(1u8, 3u8, 7u8), (1u8, 7u8, 9u8), (1u8, 9u8, 8u8), (1u8, 8u8, 4u8)],
        117 => seq![(0u8, 9u8, 7u8), (0u8, 7u8, 3u8), (0u8, 3u8, 1u8)],
        118 => seq![(0u8, 8u8, 4u8), (1u8, 3u8, 7u8), (1u8, 7u8, 5u8)],
        119 => seq![(1u8, 3u8, 7u8), (1u8, 7u8, 5u8)],
        120 => seq![(1u8, 10u8, 8u8), (1u8, 8u8, 9u8), (1u8, 9u8, 5u8), (3u8, 11u8, 7u8)],
        121 => seq![(0u8, 9u8, 5u8), (1u8, 10u8, 4u8), (3u8, 11u8, 7u8)],
        122 => seq![(0u8, 8u8, 10u8), (0u8, 10u8, 1u8), (3u8, 11u8, 7u8)],
        123 => seq![(1u8, 10u8, 4u8), (3u8, 11u8, 7u8)],
        124 => seq![(3u8, 11u8, 7u8), (4u8, 8u8, 9u8), (4u8, 9u8, 5u8)],
        125 => seq![(0u8, 9u8, 5u8), (3u8, 11u8, 7u8)],
        126 => seq![(0u8, 8u8, 4u8), (3u8, 11u8, 7u8)],
        127 => seq![(3u8, 11u8, 7u8)],
        128 => seq![(3u8, 11u8, 7u8)],
        129 => seq![(0u8, 8u8, 4u8), (3u8, 11u8, 7u8)],
        130 => seq![(0u8, 9u8, 7u8), (0u8, 7u8, 3u8), (0u8, 3u8, 11u8), (0u8, 11u8, 5u8)],
        131 => seq![(3u8, 11u8, 5u8), (3u8, 5u8, 4u8), (3u8, 4u8, 8u8), (3u8, 8u8, 9u8), (3u8, 9u8, 7u8)],
        132 => seq![(1u8, 11u8, 7u8), (1u8, 7u8, 3u8), (1u8, 3u8, 10u8), (1u8, 10u8, 4u8)],
        133 => seq![(0u8, 8u8, 10u8), (0u8, 10u8, 3u8), (0u8, 3u8, 7u8), (0u8, 7u8, 11u8), (0u8, 11u8, 1u8)],
        134 => seq![(0u8, 9u8, 7u8), (0u8, 7u8, 3u8), (0u8, 3u8, 10u8), (0u8, 10u8, 4u8), (1u8, 11u8, 5u8)],
        135 => seq![(1u8, 11u8, 5u8), (3u8, 10u8, 8u8), (3u8, 8u8, 9u8), (3u8, 9u8, 7u8)],
        136 => seq![(1u8, 3u8, 7u8), (1u8, 7u8, 5u8)],
        137 => seq![(0u8, 8u8, 4u8), (0u8, 4u8, 1u8), (0u8, 1u8, 3u8), (0u8, 3u8, 7u8), (0u8, 7u8, 5u8)],
        138 => seq![(0u8, 9u8, 7u8), (0u8, 7u8, 3u8), (0u8, 3u8, 1u8)],
        139 => seq![(1u8, 3u8, 7u8), (1u8, 7u8, 9u8), (1u8, 9u8, 8u8), (1u8, 8u8, 4u8)],
        140 => seq![(3u8, 10u8, 4u8), (3u8, 4u8, 5u8), (3u8, 5u8, 7u8)],
        141 => seq![(0u8, 8u8, 10u8), (0u8, 10u8, 3u8), (0u8, 3u8, 7u8), (0u8, 7u8, 5u8)],
        142 => seq![(0u8, 9u8, 7u8), (0u8, 7u8, 3u8), (0u8, 3u8, 10u8), (0u8, 10u8, 4u8)],
        143 => seq![(3u8, 10u8, 8u8), (3u8, 8u8, 9u8), (3u8, 9u8, 7u8)],
        144 => seq![(2u8, 8u8, 6u8), (2u8, 6u8, 3u8), (2u8, 3u8, 11u8), (2u8, 11u8, 7u8)],
        145 => seq![(0u8, 2u8, 7u8), (0u8, 7u8, 11u8), (0u8, 11u8, 3u8), (0u8, 3u8, 6u8), (0u8, 6u8, 4u8)],
        146 => seq![(0u8, 8u8, 6u8), (0u8, 6u8, 3u8), (0u8, 3u8, 11u8), (0u8, 11u8, 5u8), (2u8, 9u8, 7u8)],
        147 => seq![(2u8, 9u8, 7u8), (3u8, 11u8, 5u8), (3u8, 5u8, 4u8), (3u8, 4u8, 6u8)],
        148 => seq![(1u8, 11u8, 7u8), (1u8, 7u8, 2u8), (1u8, 2u8, 8u8), (1u8, 8u8, 4u8), (3u8, 10u8, 6u8)],
        149 => seq![(0u8, 2u8, 7u8), (0u8, 7u8, 11u8), (0u8, 11u8, 1u8), (3u8, 10u8, 6u8)],
        150 => seq![(0u8, 8u8, 4u8), (1u8, 11u8, 5u8), (2u8, 9u8, 7u8), (3u8, 10u8, 6u8)],
        151 => seq![(1u8, 11u8, 5u8), (2u8, 9u8, 7u8), (3u8, 10u8, 6u8)],
        152 => seq![(1u8, 3u8, 6u8), (1u8, 6u8, 8u8), (1u8, 8u8, 2u8), (1u8, 2u8, 7u8), (1u8, 7u8, 5u8)],
        153 => seq![(0u8, 2u8, 7u8), (0u8, 7u8, 5u8), (1u8, 3u8, 6u8), (1u8, 6u8, 4u8)],
        154 => seq![(0u8, 8u8, 6u8), (0u8, 6u8, 3u8), (0u8, 3u8, 1u8), (2u8, 9u8, 7u8)],
        155 => seq![(1u8, 3u8, 6u8), (1u8, 6u8, 4u8), (2u8, 9u8, 7u8)],
        156 => seq![(2u8, 8u8, 4u8), (2u8, 4u8, 5u8), (2u8, 5u8, 7u8), (3u8, 10u8, 6u8)],
        157 => seq![(0u8, 2u8, 7u8), (0u8, 7u8, 5u8), (3u8, 10u8, 6u8)],
        158 => seq![(0u8, 8u8, 4u8), (2u8, 9u8, 7u8), (3u8, 10u8, 6u8)],
        159 => seq![(2u8, 9u8, 7u8), (3u8, 10u8, 6u8)],
        160 => seq![(2u8, 9u8, 11u8), (2u8, 11u8, 3u8)],
        161 => seq![(0u8, 9u8, 11u8), (0u8, 11u8, 3u8), (0u8, 3u8, 2u8), (0u8, 2u8, 8u8), (0u8, 8u8, 4u8)],
        162 => seq![(0u8, 2u8, 3u8), (0u8, 3u8, 11u8), (0u8, 11u8, 5u8)],
        163 => seq![(2u8, 8u8, 4u8), (2u8, 4u8, 5u8), (2u8, 5u8, 11u8), (2u8, 11u8, 3u8)],
        164 => seq![(1u8, 11u8, 9u8), (1u8, 9u8, 2u8), (1u8, 2u8, 3u8), (1u8, 3u8, 10u8), (1u8, 10u8, 4u8)],
        165 => seq![(0u8, 9u8, 11u8), (0u8, 11u8, 1u8), (2u8, 8u8, 10u8), (2u8, 10u8, 3u8)],
        166 => seq![(0u8, 2u8, 3u8), (0u8, 3u8, 10u8), (0u8, 10u8, 4u8), (1u8, 11u8, 5u8)],
        167 => seq![(1u8, 11u8, 5u8), (2u8, 8u8, 10u8), (2u8, 10u8, 3u8)],
        168 => seq![(1u8, 3u8, 2u8), (1u8, 2u8, 9u8), (1u8, 9u8, 5u8)],
        169 => seq![(0u8, 9u8, 5u8), (1u8, 3u8, 2u8), (1u8, 2u8, 8u8), (1u8, 8u8, 4u8)],
        170 => seq![(0u8, 2u8, 3u8), (0u8, 3u8, 1u8)],
        171 => seq![(1u8, 3u8, 2u8), (1u8, 2u8, 8u8), (1u8, 8u8, 4u8)],
        172 => seq![(2u8, 9u8, 5u8), (2u8, 5u8, 4u8), (2u8, 4u8, 10u8), (2u8, 10u8, 3u8)],
        173 => seq![(0u8, 9u8, 5u8), (2u8, 8u8, 10u8), (2u8, 10u8, 3u8)],
        174 => seq![(0u8, 2u8, 3u8), (0u8, 3u8, 10u8), (0u8, 10u8, 4u8)],
        175 => seq![(2u8, 8u8, 10u8), (2u8, 10u8, 3u8)],
        176 => seq![(3u8, 11u8, 9u8), (3u8, 9u8, 8u8), (3u8, 8u8, 6u8)],
        177 => seq![(0u8, 9u8, 11u8), (0u8, 11u8, 3u8), (0u8, 3u8, 6u8), (0u8, 6u8, 4u8)],
        178 => seq![(0u8, 8u8, 6u8), (0u8, 6u8, 3u8), (0u8, 3u8, 11u8), (0u8, 11u8, 5u8)],
        179 => seq![(3u8, 11u8, 5u8), (3u8, 5u8, 4u8), (3u8, 4u8, 6u8)],
        180 => seq![(1u8, 11u8, 9u8), (1u8, 9u8, 8u8), (1u8, 8u8, 4u8), (3u8, 10u8, 6u8)],
        181 => seq![(0u8, 9u8, 11u8), (0u8, 11u8, 1u8), (3u8, 10u8, 6u8)],
        182 => seq![(0u8, 8u8, 4u8), (1u8, 11u8, 5u8), (3u8, 10u8, 6u8)],
        183 => seq![(1u8, 11u8, 5u8), (3u8, 10u8, 6u8)],
        184 => seq![(1u8, 3u8, 6u8), (1u8, 6u8, 8u8), (1u8, 8u8, 9u8), (1u8, 9u8, 5u8)],
        185 => seq![(0u8, 9u8, 5u8), (1u8, 3u8, 6u8), (1u8, 6u8, 4u8)],
        186 => seq![(0u8, 8u8, 6u8), (0u8, 6u8, 3u8), (0u8, 3u8, 1u8)],
        187 => seq![(1u8, 3u8, 6u8), (1u8, 6u8, 4u8)],
        188 => seq![(3u8, 10u8, 6u8), (4u8, 8u8, 9u8), (4u8, 9u8, 5u8)],
        189 => seq![(0u8, 9u8, 5u8), (3u8, 10u8, 6u8)],
        190 => seq![(0u8, 8u8, 4u8), (3u8, 10u8, 6u8)],
        191 => seq![(3u8, 10u8, 6u8)],
        192 => seq![(6u8, 10u8, 11u8), (6u8, 11u8, 7u8)],
        193 => seq![(0u8, 8u8, 6u8), (0u8, 6u8, 7u8), (0u8, 7u8, 11u8), (0u8, 11u8, 10u8), (0u8, 10u8, 4u8)],
        194 => seq![(0u8, 9u8, 7u8), (0u8, 7u8, 6u8), (0u8, 6u8, 10u8), (0u8, 10u8, 11u8), (0u8, 11u8, 5u8)],
        195 => seq![(4u8, 10u8, 11u8), (4u8, 11u8, 5u8), (6u8, 8u8, 9u8), (6u8, 9u8, 7u8)],
        196 => seq![(1u8, 11u8, 7u8), (1u8, 7u8, 6u8), (1u8, 6u8, 4u8)],
        197 => seq![(0u8, 8u8, 6u8), (0u8, 6u8, 7u8), (0u8, 7u8, 11u8), (0u8, 11u8, 1u8)],
        198 => seq![(0u8, 9u8, 7u8), (0u8, 7u8, 6u8), (0u8, 6u8, 4u8), (1u8, 11u8, 5u8)],
        199 => seq![(1u8, 11u8, 5u8), (6u8, 8u8, 9u8), (6u8, 9u8, 7u8)],
        200 => seq![(1u8, 10u8, 6u8), (1u8, 6u8, 7u8), (1u8, 7u8, 5u8)],
        201 => seq![(0u8, 8u8, 6u8), (0u8, 6u8, 7u8), (0u8, 7u8, 5u8), (1u8, 10u8, 4u8)],
        202 => seq![(0u8, 9u8, 7u8), (0u8, 7u8, 6u8), (0u8, 6u8, 10u8), (0u8, 10u8, 1u8)],
        203 => seq![(1u8, 10u8, 4u8), (6u8, 8u8, 9u8), (6u8, 9u8, 7u8)],
        204 => seq![(4u8, 6u8, 7u8), (4u8, 7u8, 5u8)],
        205 => seq![(0u8, 8u8, 6u8), (0u8, 6u8, 7u8), (0u8, 7u8, 5u8)],
        206 => seq![(0u8, 9u8, 7u8), (0u8, 7u8, 6u8), (0u8, 6u8, 4u8)],
        207 => seq![(6u8, 8u8, 9u8), (6u8, 9u8, 7u8)],
        208 => seq![(2u8, 8u8, 10u8), (2u8, 10u8, 11u8), (2u8, 11u8, 7u8)],
        209 => seq![(0u8, 2u8, 7u8), (0u8, 7u8, 11u8), (0u8, 11u8, 10u8), (0u8, 10u8, 4u8)],
        210 => seq![(0u8, 8u8, 10u8), (0u8, 10u8, 11u8), (0u8, 11u8, 5u8), (2u8, 9u8, 7u8)],
        211 => seq![(2u8, 9u8, 7u8), (4u8, 10u8, 11u8), (4u8, 11u8, 5u8)],
        212 => seq![(1u8, 11u8, 7u8), (1u8, 7u8, 2u8), (1u8, 2u8, 8u8), (1u8, 8u8, 4u8)],
        213 => seq![(0u8, 2u8, 7u8), (0u8, 7u8, 11u8), (0u8, 11u8, 1u8)],
        214 => seq![(0u8, 8u8, 4u8), (1u8, 11u8, 5u8), (2u8, 9u8, 7u8)],
        215 => seq![(1u8, 11u8, 5u8), (2u8, 9u8, 7u8)],
        216 => seq![(1u8, 10u8, 8u8), (1u8, 8u8, 2u8), (1u8, 2u8, 7u8), (1u8, 7u8, 5u8)],
        217 => seq![(0u8, 2u8, 7u8), (0u8, 7u8, 5u8), (1u8, 10u8, 4u8)],
        218 => seq![(0u8, 8u8, 10u8), (0u8, 10u8, 1u8), (2u8, 9u8, 7u8)],
        219 => seq![(1u8, 10u8, 4u8), (2u8, 9u8, 7u8)],
        220 => seq![(2u8, 8u8, 4u8), (2u8, 4u8, 5u8), (2u8, 5u8, 7u8)],
        221 => seq![(0u8, 2u8, 7u8), (0u8, 7u8, 5u8)],
        222 => seq![(0u8, 8u8, 4u8), (2u8, 9u8, 7u8)],
        223 => seq![(2u8, 9u8, 7u8)],
        224 => seq![(2u8, 9u8, 11u8), (2u8, 11u8, 10u8), (2u8, 10u8, 6u8)],
        225 => seq![(0u8, 9u8, 11u8), (0u8, 11u8, 10u8), (0u8, 10u8, 4u8), (2u8, 8u8, 6u8)],
        226 => seq![(0u8, 2u8, 6u8), (0u8, 6u8, 10u8), (0u8, 10u8, 11u8), (0u8, 11u8, 5u8)],
        227 => seq![(2u8, 8u8, 6u8), (4u8, 10u8, 11u8), (4u8, 11u8, 5u8)],
        228 => seq![(1u8, 11u8, 9u8), (1u8, 9u8, 2u8), (1u8, 2u8, 6u8), (1u8, 6u8, 4u8)],
        229 => seq![(0u8, 9u8, 11u8), (0u8, 11u8, 1u8), (2u8, 8u8, 6u8)],
        230 => seq![(0u8, 2u8, 6u8), (0u8, 6u8, 4u8), (1u8, 11u8, 5u8)],
        231 => seq![(1u8, 11u8, 5u8), (2u8, 8u8, 6u8)],
        232 => seq![(1u8, 10u8, 6u8), (1u8, 6u8, 2u8), (1u8, 2u8, 9u8), (1u8, 9u8, 5u8)],
        233 => seq![(0u8, 9u8, 5u8), (1u8, 10u8, 4u8), (2u8, 8u8, 6u8)],
        234 => seq![(0u8, 2u8, 6u8), (0u8, 6u8, 10u8), (0u8, 10u8, 1u8)],
        235 => seq![(1u8, 10u8, 4u8), (2u8, 8u8, 6u8)],
        236 => seq![(2u8, 9u8, 5u8), (2u8, 5u8, 4u8), (2u8, 4u8, 6u8)],
        237 => seq![(0u8, 9u8, 5u8), (2u8, 8u8, 6u8)],
        238 => seq![(0u8, 2u8, 6u8), (0u8, 6u8, 4u8)],
        239 => seq![(2u8, 8u8, 6u8)],
        240 => seq![(8u8, 10u8, 11u8), (8u8, 11u8, 9u8)],
        241 => seq![(0u8, 9u8, 11u8), (0u8, 11u8, 10u8), (0u8, 10u8, 4u8)],
        242 => seq![(0u8, 8u8, 10u8), (0u8, 10u8, 11u8), (0u8, 11u8, 5u8)],
        243 => seq![(4u8, 10u8, 11u8), (4u8, 11u8, 5u8)],
        244 => seq![(1u8, 11u8, 9u8), (1u8, 9u8, 8u8), (1u8, 8u8, 4u8)],
        245 => seq![(0u8, 9u8, 11u8), (0u8, 11u8, 1u8)],
        246 => seq![(0u8, 8u8, 4u8), (1u8, 11u8, 5u8)],
        247 => seq![(1u8, 11u8, 5u8)],
        248 => seq![(1u8, 10u8, 8u8), (1u8, 8u8, 9u8), (1u8, 9u8, 5u8)],
        249 => seq![(0u8, 9u8, 5u8), (1u8, 10u8, 4u8)],
        250 => seq![(0u8, 8u8, 10u8), (0u8, 10u8, 1u8)],
        251 => seq![(1u8, 10u8, 4u8)],
        252 => seq![(4u8, 8u8, 9u8), (4u8, 9u8, 5u8)],
        253 => seq![(0u8, 9u8, 5u8)],
        254 => seq![(0u8, 8u8, 4u8)],
        255 => Seq::empty(),
    }
}

/// Every listed edge index names one of the cell's twelve edges.
pub open spec fn wf_triple(t: (u8, u8, u8)) -> bool {
    t.0 < 12 && t.1 < 12 && t.2 < 12
}

/// Look up the triangulation of configuration `mask`: no triangles exactly
/// for the two trivial masks (cell entirely outside or entirely inside the
/// surface), at most five triangles, and only real edge indices.
pub fn cell_triangles(mask: u8) -> (r: Vec<(u8, u8, u8)>)
    ensures
        r@ == cell_triangles_spec(mask),
        r@.len() <= 5,
        forall|i: int| 0 <= i < r@.len() ==> wf_triple(#[trigger] r@[i]),
        (r@.len() == 0) <==> (mask == 0 || mask == 255),
{
    proof {
        reveal(cell_triangles_spec);
    }
    match mask {
        0 => vec![],
        1 => vec![(0u8, 8u8, 4u8)],
        2 => vec![(0u8, 9u8, 5u8)],
        3 => vec![(4u8, 8u8, 9u8), (4u8, 9u8, 5u8)],
        4 => vec![(1u8, 10u8, 4u8)],
        5 => vec![(0u8, 8u8, 10u8), (0u8, 10u8, 1u8)],
        6 => vec![(0u8, 9u8, 5u8), (0u8, 5u8, 1u8), (0u8, 1u8, 10u8), (0u8, 10u8, 4u8)],
        7 => vec![(1u8, 10u8, 8u8), (1u8, 8u8, 9u8), (1u8, 9u8, 5u8)],
        8 => vec![(1u8, 11u8, 5u8)],
        9 => vec![(0u8, 8u8, 4u8), (0u8, 4u8, 1u8), (0u8, 1u8, 11u8), (0u8, 11u8, 5u8)],
        10 => vec![(0u8, 9u8, 11u8), (0u8, 11u8, 1u8)],
        11 => vec![(1u8, 11u8, 9u8), (1u8, 9u8, 8u8), (1u8, 8u8, 4u8)],
        12 => vec![(4u8, 10u8, 11u8), (4u8, 11u8, 5u8)],
        13 => vec![(0u8, 8u8, 10u8), (0u8, 10u8, 11u8), (0u8, 11u8, 5u8)],
        14 => vec![(0u8, 9u8, 11u8), (0u8, 11u8, 10u8), (0u8, 10u8, 4u8)],
        15 => vec![(8u8, 10u8, 11u8), (8u8, 11u8, 9u8)],
        16 => vec![(2u8, 8u8, 6u8)],
        17 => vec![(0u8, 2u8, 6u8), (0u8, 6u8, 4u8)],
        18 => vec![(0u8, 8u8, 6u8), (0u8, 6u8, 2u8), (0u8, 2u8, 9u8), (0u8, 9u8, 5u8)],
        19 => vec![(2u8, 9u8, 5u8), (2u8, 5u8, 4u8), (2u8, 4u8, 6u8)],
        20 => vec![(1u8, 10u8, 6u8), (1u8, 6u8, 2u8), (1u8, 2u8, 8u8), (1u8, 8u8, 4u8)],
        21 => vec![(0u8, 2u8, 6u8), (0u8, 6u8, 10u8), (0u8, 10u8, 1u8)],
        22 => vec![(0u8, 8u8, 4u8), (1u8, 10u8, 6u8), (1u8, 6u8, 2u8), (1u8, 2u8, 9u8), (1u8, 9u8, 5u8)],
        23 => vec![(1u8, 10u8, 6u8), (1u8, 6u8, 2u8), (1u8, 2u8, 9u8), (1u8, 9u8, 5u8)],
        24 => vec![(1u8, 11u8, 5u8), (2u8, 8u8, 6u8)],
        25 => vec![(0u8, 2u8, 6u8), (0u8, 6u8, 4u8), (0u8, 4u8, 1u8), (0u8, 1u8, 11u8), (0u8, 11u8, 5u8)],
        26 => vec![(0u8, 8u8, 6u8), (0u8, 6u8, 2u8), (0u8, 2u8, 9u8), (0u8, 9u8, 11u8), (0u8, 11u8, 1u8)],
        27 => vec![(1u8, 11u8, 9u8), (1u8, 9u8, 2u8), (1u8, 2u8, 6u8), (1u8, 6u8, 4u8)],
        28 => vec![(2u8, 8u8, 4u8), (2u8, 4u8, 5u8), (2u8, 5u8, 11u8), (2u8, 11u8, 10u8), (2u8, 10u8, 6u8)],
        29 => vec![(0u8, 2u8, 6u8), (0u8, 6u8, 10u8), (0u8, 10u8, 11u8), (0u8, 11u8, 5u8)],
        30 => vec![(0u8, 8u8, 4u8), (2u8, 9u8, 11u8), (2u8, 11u8, 10u8), (2u8, 10u8, 6u8)],
        31 => vec![(2u8, 9u8, 11u8), (2u8, 11u8, 10u8), (2u8, 10u8, 6u8)],
        32 => vec![(2u8, 9u8, 7u8)],
        33 => vec![(0u8, 9u8, 7u8), (0u8, 7u8, 2u8), (0u8, 2u8, 8u8), (0u8, 8u8, 4u8)],
        34 => vec![(0u8, 2u8, 7u8), (0u8, 7u8, 5u8)],
        35 => vec![(2u8, 8u8, 4u8), (2u8, 4u8, 5u8), (2u8, 5u8, 7u8)],
        36 => vec![(1u8, 10u8, 4u8), (2u8, 9u8, 7u8)],
        37 => vec![(0u8, 9u8, 7u8), (0u8, 7u8, 2u8), (0u8, 2u8, 8u8), (0u8, 8u8, 10u8), (0u8, 10u8, 1u8)],
        38 => vec![(0u8, 2u8, 7u8), (0u8, 7u8, 5u8), (0u8, 5u8, 1u8), (0u8, 1u8, 10u8), (0u8, 10u8, 4u8)],
        39 => vec![(1u8, 10u8, 8u8), (1u8, 8u8, 2u8), (1u8, 2u8, 7u8), (1u8, 7u8, 5u8)],
        40 => vec![(1u8, 11u8, 7u8), (1u8, 7u8, 2u8), (1u8, 2u8, 9u8), (1u8, 9u8, 5u8)],
        41 => vec![(0u8, 9u8, 5u8), (1u8, 11u8, 7u8), (1u8, 7u8, 2u8), (1u8, 2u8, 8u8), (1u8, 8u8, 4u8)],
        42 => vec![(0u8, 2u8, 7u8), (0u8, 7u8, 11u8), (0u8, 11u8, 1u8)],
        43 => vec![(1u8, 11u8, 7u8), (1u8, 7u8, 2u8), (1u8, 2u8, 8u8), (1u8, 8u8, 4u8)],
        44 => vec![(2u8, 9u8, 5u8), (2u8, 5u8, 4u8), (2u8, 4u8, 10u8), (2u8, 10u8, 11u8), (2u8, 11u8, 7u8)],
        45 => vec![(0u8, 9u8, 5u8), (2u8, 8u8, 10u8), (2u8, 10u8, 11u8), (2u8, 11u8, 7u8)],
        46 => vec![(0u8, 2u8, 7u8), (0u8, 7u8, 11u8), (0u8, 11u8, 10u8), (0u8, 10u8, 4u8)],
        47 => vec![(2u8, 8u8, 10u8), (2u8, 10u8, 11u8), (2u8, 11u8, 7u8)],
        48 => vec![(6u8, 8u8, 9u8), (6u8, 9u8, 7u8)],
        49 => vec![(0u8, 9u8, 7u8), (0u8, 7u8, 6u8), (0u8, 6u8, 4u8)],
        50 => vec![(0u8, 8u8, 6u8), (0u8, 6u8, 7u8), (0u8, 7u8, 5u8)],
        51 => vec![(4u8, 6u8, 7u8), (4u8, 7u8, 5u8)],
        52 => vec![(1u8, 10u8, 6u8), (1u8, 6u8, 7u8), (1u8, 7u8, 9u8), (1u8, 9u8, 8u8), (1u8, 8u8, 4u8)],
        53 => vec![(0u8, 9u8, 7u8), (0u8, 7u8, 6u8), (0u8, 6u8, 10u8), (0u8, 10u8, 1u8)],
        54 => vec![(0u8, 8u8, 4u8), (1u8, 10u8, 6u8), (1u8, 6u8, 7u8), (1u8, 7u8, 5u8)],
        55 => vec![(1u8, 10u8, 6u8), (1u8, 6u8, 7u8), (1u8, 7u8, 5u8)],
        56 => vec![(1u8, 11u8, 7u8), (1u8, 7u8, 6u8), (1u8, 6u8, 8u8), (1u8, 8u8, 9u8), (1u8, 9u8, 5u8)],
        57 => vec![(0u8, 9u8, 5u8), (1u8, 11u8, 7u8), (1u8, 7u8, 6u8), (1u8, 6u8, 4u8)],
        58 => vec![(0u8, 8u8, 6u8), (0u8, 6u8, 7u8), (0u8, 7u8, 11u8), (0u8, 11u8, 1u8)],
        59 => vec![(1u8, 11u8, 7u8), (1u8, 7u8, 6u8), (1u8, 6u8, 4u8)],
        60 => vec![(4u8, 8u8, 9u8), (4u8, 9u8, 5u8), (6u8, 10u8, 11u8), (6u8, 11u8, 7u8)],
        61 => vec![(0u8, 9u8, 5u8), (6u8, 10u8, 11u8), (6u8, 11u8, 7u8)],
        62 => vec![(0u8, 8u8, 4u8), (6u8, 10u8, 11u8), (6u8, 11u8, 7u8)],
        63 => vec![(6u8, 10u8, 11u8), (6u8, 11u8, 7u8)],
        64 => vec![(3u8, 10u8, 6u8)],
        65 => vec![(0u8, 8u8, 6u8), (0u8, 6u8, 3u8), (0u8, 3u8, 10u8), (0u8, 10u8, 4u8)],
        66 => vec![(0u8, 9u8, 5u8), (3u8, 10u8, 6u8)],
        67 => vec![(3u8, 10u8, 4u8), (3u8, 4u8, 5u8), (3u8, 5u8, 9u8), (3u8, 9u8, 8u8), (3u8, 8u8, 6u8)],
        68 => vec![(1u8, 3u8, 6u8), (1u8, 6u8, 4u8)],
        69 => vec![(0u8, 8u8, 6u8), (0u8, 6u8, 3u8), (0u8, 3u8, 1u8)],
        70 => vec![(0u8, 9u8, 5u8), (0u8, 5u8, 1u8), (0u8, 1u8, 3u8), (0u8, 3u8, 6u8), (0u8, 6u8, 4u8)],
        71 => vec![(1u8, 3u8, 6u8), (1u8, 6u8, 8u8), (1u8, 8u8, 9u8), (1u8, 9u8, 5u8)],
        72 => vec![(1u8, 10u8, 6u8), (1u8, 6u8, 3u8), (1u8, 3u8, 11u8), (1u8, 11u8, 5u8)],
        73 => vec![(0u8, 8u8, 6u8), (0u8, 6u8, 3u8), (0u8, 3u8, 11u8), (0u8, 11u8, 5u8), (1u8, 10u8, 4u8)],
        74 => vec![(0u8, 9u8, 11u8), (0u8, 11u8, 3u8), (0u8, 3u8, 6u8), (0u8, 6u8, 10u8), (0u8, 10u8, 1u8)],
        75 => vec![(1u8, 10u8, 4u8), (3u8, 11u8, 9u8), (3u8, 9u8, 8u8), (3u8, 8u8, 6u8)],
        76 => vec![(3u8, 11u8, 5u8), (3u8, 5u8, 4u8), (3u8, 4u8, 6u8)],
        77 => vec![(0u8, 8u8, 6u8), (0u8, 6u8, 3u8), (0u8, 3u8, 11u8), (0u8, 11u8, 5u8)],
        78 => vec![(0u8, 9u8, 11u8), (0u8, 11u8, 3u8), (0u8, 3u8, 6u8), (0u8, 6u8, 4u8)],
        79 => vec![(3u8, 11u8, 9u8), (3u8, 9u8, 8u8), (3u8, 8u8, 6u8)],
        80 => vec![(2u8, 8u8, 10u8), (2u8, 10u8, 3u8)],
        81 => vec![(0u8, 2u8, 3u8), (0u8, 3u8, 10u8), (0u8, 10u8, 4u8)],
        82 => vec![(0u8, 8u8, 10u8), (0u8, 10u8, 3u8), (0u8, 3u8, 2u8), (0u8, 2u8, 9u8), (0u8, 9u8, 5u8)],
        83 => vec![(2u8, 9u8, 5u8), (2u8, 5u8, 4u8), (2u8, 4u8, 10u8), (2u8, 10u8, 3u8)],
        84 => vec![(1u8, 3u8, 2u8), (1u8, 2u8, 8u8), (1u8, 8u8, 4u8)],
        85 => vec![(0u8, 2u8, 3u8), (0u8, 3u8, 1u8)],
        86 => vec![(0u8, 8u8, 4u8), (1u8, 3u8, 2u8), (1u8, 2u8, 9u8), (1u8, 9u8, 5u8)],
        87 => vec![(1u8, 3u8, 2u8), (1u8, 2u8, 9u8), (1u8, 9u8, 5u8)],
        88 => vec![(1u8, 10u8, 8u8), (1u8, 8u8, 2u8), (1u8, 2u8, 3u8), (1u8, 3u8, 11u8), (1u8, 11u8, 5u8)],
        89 => vec![(0u8, 2u8, 3u8), (0u8, 3u8, 11u8), (0u8, 11u8, 5u8), (1u8, 10u8, 4u8)],
        90 => vec![(0u8, 8u8, 10u8), (0u8, 10u8, 1u8), (2u8, 9u8, 11u8), (2u8, 11u8, 3u8)],
        91 => vec![(1u8, 10u8, 4u8), (2u8, 9u8, 11u8), (2u8, 11u8, 3u8)],
        92 => vec![(2u8, 8u8, 4u8), (2u8, 4u8, 5u8), (2u8, 5u8, 11u8), (2u8, 11u8, 3u8)],
        93 => vec![(0u8, 2u8, 3u8), (0u8, 3u8, 11u8), (0u8, 11u8, 5u8)],
        94 => vec![(0u8, 8u8, 4u8), (2u8, 9u8, 11u8), (2u8, 11u8, 3u8)],
        95 => vec![(2u8, 9u8, 11u8), (2u8, 11u8, 3u8)],
        96 => vec![(2u8, 9u8, 7u8), (2u8, 7u8, 3u8), (2u8, 3u8, 10u8), (2u8, 10u8, 6u8)],
        97 => vec![(0u8, 9u8, 7u8), (0u8, 7u8, 3u8), (0u8, 3u8, 10u8), (0u8, 10u8, 4u8), (2u8, 8u8, 6u8)],
        98 => vec![(0u8, 2u8, 6u8), (0u8, 6u8, 10u8), (0u8, 10u8, 3u8), (0u8, 3u8, 7u8), (0u8, 7u8, 5u8)],
        99 => vec![(2u8, 8u8, 6u8), (3u8, 10u8, 4u8), (3u8, 4u8, 5u8), (3u8, 5u8, 7u8)],
        100 => vec![(1u8, 3u8, 7u8), (1u8, 7u8, 9u8), (1u8, 9u8, 2u8), (1u8, 2u8, 6u8), (1u8, 6u8, 4u8)],
        101 => vec![(0u8, 9u8, 7u8), (0u8, 7u8, 3u8), (0u8, 3u8, 1u8), (2u8, 8u8, 6u8)],
        102 => vec![(0u8, 2u8, 6u8), (0u8, 6u8, 4u8), (1u8, 3u8, 7u8), (1u8, 7u8, 5u8)],
        103 => vec![(1u8, 3u8, 7u8), (1u8, 7u8, 5u8), (2u8, 8u8, 6u8)],
        104 => vec![(1u8, 10u8, 6u8), (1u8, 6u8, 2u8), (1u8, 2u8, 9u8), (1u8, 9u8, 5u8), (3u8, 11u8, 7u8)],
        105 => vec![(0u8, 9u8, 5u8), (1u8, 10u8, 4u8), (2u8, 8u8, 6u8), (3u8, 11u8, 7u8)],
        106 => vec![(0u8, 2u8, 6u8), (0u8, 6u8, 10u8), (0u8, 10u8, 1u8), (3u8, 11u8, 7u8)],
        107 => vec![(1u8, 10u8, 4u8), (2u8, 8u8, 6u8), (3u8, 11u8, 7u8)],
        108 => vec![(2u8, 9u8, 5u8), (2u8, 5u8, 4u8), (2u8, 4u8, 6u8), (3u8, 11u8, 7u8)],
        109 => vec![(0u8, 9u8, 5u8), (2u8, 8u8, 6u8), (3u8, 11u8, 7u8)],
        110 => vec![(0u8, 2u8, 6u8), (0u8, 6u8, 4u8), (3u8, 11u8, 7u8)],
        111 => vec![(2u8, 8u8, 6u8), (3u8, 11u8, 7u8)],
        112 => vec![(3u8, 10u8, 8u8), (3u8, 8u8, 9u8), (3u8, 9u8, 7u8)],
        113 => vec![(0u8, 9u8, 7u8), (0u8, 7u8, 3u8), (0u8, 3u8, 10u8), (0u8, 10u8, 4u8)],
        114 => vec![(0u8, 8u8, 10u8), (0u8, 10u8, 3u8), (0u8, 3u8, 7u8), (0u8, 7u8, 5u8)],
        115 => vec![(3u8, 10u8, 4u8), (3u8, 4u8, 5u8), (3u8, 5u8, 7u8)],
        116 => vec![(1u8, 3u8, 7u8), (1u8, 7u8, 9u8), (1u8, 9u8, 8u8), (1u8, 8u8, 4u8)],
        117 => vec![(0u8, 9u8, 7u8), (0u8, 7u8, 3u8), (0u8, 3u8, 1u8)],
        118 => vec![(0u8, 8u8, 4u8), (1u8, 3u8, 7u8), (1u8, 7u8, 5u8)],
        119 => vec![(1u8, 3u8, 7u8), (1u8, 7u8, 5u8)],
        120 => vec![(1u8, 10u8, 8u8), (1u8, 8u8, 9u8), (1u8, 9u8, 5u8), (3u8, 11u8, 7u8)],
        121 => vec![(0u8, 9u8, 5u8), (1u8, 10u8, 4u8), (3u8, 11u8, 7u8)],
        122 => vec![(0u8, 8u8, 10u8), (0u8, 10u8, 1u8), (3u8, 11u8, 7u8)],
        123 => vec![(1u8, 10u8, 4u8), (3u8, 11u8, 7u8)],
        124 => vec![(3u8, 11u8, 7u8), (4u8, 8u8, 9u8), (4u8, 9u8, 5u8)],
        125 => vec![(0u8, 9u8, 5u8), (3u8, 11u8, 7u8)],
        126 => vec![(0u8, 8u8, 4u8), (3u8, 11u8, 7u8)],
        127 => vec![(3u8, 11u8, 7u8)],
        128 => vec![(3u8, 11u8, 7u8)],
        129 => vec![(0u8, 8u8, 4u8), (3u8, 11u8, 7u8)],
        130 => vec![(0u8, 9u8, 7u8), (0u8, 7u8, 3u8), (0u8, 3u8, 11u8), (0u8, 11u8, 5u8)],
        131 => vec![(3u8, 11u8, 5u8), (3u8, 5u8, 4u8), (3u8, 4u8, 8u8), (3u8, 8u8, 9u8), (3u8, 9u8, 7u8)],
        132 => vec![(1u8, 11u8, 7u8), (1u8, 7u8, 3u8), (1u8, 3u8, 10u8), (1u8, 10u8, 4u8)],
        133 => vec![(0u8, 8u8, 10u8), (0u8, 10u8, 3u8), (0u8, 3u8, 7u8), (0u8, 7u8, 11u8), (0u8, 11u8, 1u8)],
        134 => vec![(0u8, 9u8, 7u8), (0u8, 7u8, 3u8), (0u8, 3u8, 10u8), (0u8, 10u8, 4u8), (1u8, 11u8, 5u8)],
        135 => vec![(1u8, 11u8, 5u8), (3u8, 10u8, 8u8), (3u8, 8u8, 9u8), (3u8, 9u8, 7u8)],
        136 => vec![(1u8, 3u8, 7u8), (1u8, 7u8, 5u8)],
        137 => vec![(0u8, 8u8, 4u8), (0u8, 4u8, 1u8), (0u8, 1u8, 3u8), (0u8, 3u8, 7u8), (0u8, 7u8, 5u8)],
        138 => vec![(0u8, 9u8, 7u8), (0u8, 7u8, 3u8), (0u8, 3u8, 1u8)],
        139 => vec![(1u8, 3u8, 7u8), (1u8, 7u8, 9u8), (1u8, 9u8, 8u8), (1u8, 8u8, 4u8)],
        140 => vec![(3u8, 10u8, 4u8), (3u8, 4u8, 5u8), (3u8, 5u8, 7u8)],
        141 => vec![(0u8, 8u8, 10u8), (0u8, 10u8, 3u8), (0u8, 3u8, 7u8), (0u8, 7u8, 5u8)],
        142 => vec![(0u8, 9u8, 7u8), (0u8, 7u8, 3u8), (0u8, 3u8, 10u8), (0u8, 10u8, 4u8)],
        143 => vec![(3u8, 10u8, 8u8), (3u8, 8u8, 9u8), (3u8, 9u8, 7u8)],
        144 => vec![(2u8, 8u8, 6u8), (2u8, 6u8, 3u8), (2u8, 3u8, 11u8), (2u8, 11u8, 7u8)],
        145 => vec![(0u8, 2u8, 7u8), (0u8, 7u8, 11u8), (0u8, 11u8, 3u8), (0u8, 3u8, 6u8), (0u8, 6u8, 4u8)],
        146 => vec![(0u8, 8u8, 6u8), (0u8, 6u8, 3u8), (0u8, 3u8, 11u8), (0u8, 11u8, 5u8), (2u8, 9u8, 7u8)],
        147 => vec![(2u8, 9u8, 7u8), (3u8, 11u8, 5u8), (3u8, 5u8, 4u8), (3u8, 4u8, 6u8)],
        148 => vec![(1u8, 11u8, 7u8), (1u8, 7u8, 2u8), (1u8, 2u8, 8u8), (1u8, 8u8, 4u8), (3u8, 10u8, 6u8)],
        149 => vec![(0u8, 2u8, 7u8), (0u8, 7u8, 11u8), (0u8, 11u8, 1u8), (3u8, 10u8, 6u8)],
        150 => vec![(0u8, 8u8, 4u8), (1u8, 11u8, 5u8), (2u8, 9u8, 7u8), (3u8, 10u8, 6u8)],
        151 => vec![(1u8, 11u8, 5u8), (2u8, 9u8, 7u8), (3u8, 10u8, 6u8)],
        152 => vec![(1u8, 3u8, 6u8), (1u8, 6u8, 8u8), (1u8, 8u8, 2u8), (1u8, 2u8, 7u8), (1u8, 7u8, 5u8)],
        153 => vec![(0u8, 2u8, 7u8), (0u8, 7u8, 5u8), (1u8, 3u8, 6u8), (1u8, 6u8, 4u8)],
        154 => vec![(0u8, 8u8, 6u8), (0u8, 6u8, 3u8), (0u8, 3u8, 1u8), (2u8, 9u8, 7u8)],
        155 => vec![(1u8, 3u8, 6u8), (1u8, 6u8, 4u8), (2u8, 9u8, 7u8)],
        156 => vec![(2u8, 8u8, 4u8), (2u8, 4u8, 5u8), (2u8, 5u8, 7u8), (3u8, 10u8, 6u8)],
        157 => vec![(0u8, 2u8, 7u8), (0u8, 7u8, 5u8), (3u8, 10u8, 6u8)],
        158 => vec![(0u8, 8u8, 4u8), (2u8, 9u8, 7u8), (3u8, 10u8, 6u8)],
        159 => vec![(2u8, 9u8, 7u8), (3u8, 10u8, 6u8)],
        160 => vec![(2u8, 9u8, 11u8), (2u8, 11u8, 3u8)],
        161 => vec![(0u8, 9u8, 11u8), (0u8, 11u8, 3u8), (0u8, 3u8, 2u8), (0u8, 2u8, 8u8), (0u8, 8u8, 4u8)],
        162 => vec![(0u8, 2u8, 3u8), (0u8, 3u8, 11u8), (0u8, 11u8, 5u8)],
        163 => vec![(2u8, 8u8, 4u8), (2u8, 4u8, 5u8), (2u8, 5u8, 11u8), (2u8, 11u8, 3u8)],
        164 => vec![(1u8, 11u8, 9u8), (1u8, 9u8, 2u8), (1u8, 2u8, 3u8), (1u8, 3u8, 10u8), (1u8, 10u8, 4u8)],
        165 => vec![(0u8, 9u8, 11u8), (0u8, 11u8, 1u8), (2u8, 8u8, 10u8), (2u8, 10u8, 3u8)],
        166 => vec![(0u8, 2u8, 3u8), (0u8, 3u8, 10u8), (0u8, 10u8, 4u8), (1u8, 11u8, 5u8)],
        167 => vec![(1u8, 11u8, 5u8), (2u8, 8u8, 10u8), (2u8, 10u8, 3u8)],
        168 => vec![(1u8, 3u8, 2u8), (1u8, 2u8, 9u8), (1u8, 9u8, 5u8)],
        169 => vec![(0u8, 9u8, 5u8), (1u8, 3u8, 2u8), (1u8, 2u8, 8u8), (1u8, 8u8, 4u8)],
        170 => vec![(0u8, 2u8, 3u8), (0u8, 3u8, 1u8)],
        171 => vec![(1u8, 3u8, 2u8), (1u8, 2u8, 8u8), (1u8, 8u8, 4u8)],
        172 => vec![(2u8, 9u8, 5u8), (2u8, 5u8, 4u8), (2u8, 4u8, 10u8), (2u8, 10u8, 3u8)],
        173 => vec![(0u8, 9u8, 5u8), (2u8, 8u8, 10u8), (2u8, 10u8, 3u8)],
        174 => vec![(0u8, 2u8, 3u8), (0u8, 3u8, 10u8), (0u8, 10u8, 4u8)],
        175 => vec![(2u8, 8u8, 10u8), (2u8, 10u8, 3u8)],
        176 => vec![(3u8, 11u8, 9u8), (3u8, 9u8, 8u8), (3u8, 8u8, 6u8)],
        177 => vec![(0u8, 9u8, 11u8), (0u8, 11u8, 3u8), (0u8, 3u8, 6u8), (0u8, 6u8, 4u8)],
        178 => vec![(0u8, 8u8, 6u8), (0u8, 6u8, 3u8), (0u8, 3u8, 11u8), (0u8, 11u8, 5u8)],
        179 => vec![(3u8, 11u8, 5u8), (3u8, 5u8, 4u8), (3u8, 4u8, 6u8)],
        180 => vec![(1u8, 11u8, 9u8), (1u8, 9u8, 8u8), (1u8, 8u8, 4u8), (3u8, 10u8, 6u8)],
        181 => vec![(0u8, 9u8, 11u8), (0u8, 11u8, 1u8), (3u8, 10u8, 6u8)],
        182 => vec![(0u8, 8u8, 4u8), (1u8, 11u8, 5u8), (3u8, 10u8, 6u8)],
        183 => vec![(1u8, 11u8, 5u8), (3u8, 10u8, 6u8)],
        184 => vec![(1u8, 3u8, 6u8), (1u8, 6u8, 8u8), (1u8, 8u8, 9u8), (1u8, 9u8, 5u8)],
        185 => vec![(0u8, 9u8, 5u8), (1u8, 3u8, 6u8), (1u8, 6u8, 4u8)],
        186 => vec![(0u8, 8u8, 6u8), (0u8, 6u8, 3u8), (0u8, 3u8, 1u8)],
        187 => vec![(1u8, 3u8, 6u8), (1u8, 6u8, 4u8)],
        188 => vec![(3u8, 10u8, 6u8), (4u8, 8u8, 9u8), (4u8, 9u8, 5u8)],
        189 => vec![(0u8, 9u8, 5u8), (3u8, 10u8, 6u8)],
        190 => vec![(0u8, 8u8, 4u8), (3u8, 10u8, 6u8)],
        191 => vec![(3u8, 10u8, 6u8)],
        192 => vec![(6u8, 10u8, 11u8), (6u8, 11u8, 7u8)],
        193 => vec![(0u8, 8u8, 6u8), (0u8, 6u8, 7u8), (0u8, 7u8, 11u8), (0u8, 11u8, 10u8), (0u8, 10u8, 4u8)],
        194 => vec![(0u8, 9u8, 7u8), (0u8, 7u8, 6u8), (0u8, 6u8, 10u8), (0u8, 10u8, 11u8), (0u8, 11u8, 5u8)],
        195 => vec![(4u8, 10u8, 11u8), (4u8, 11u8, 5u8), (6u8, 8u8, 9u8), (6u8, 9u8, 7u8)],
        196 => vec![(1u8, 11u8, 7u8), (1u8, 7u8, 6u8), (1u8, 6u8, 4u8)],
        197 => vec![(0u8, 8u8, 6u8), (0u8, 6u8, 7u8), (0u8, 7u8, 11u8), (0u8, 11u8, 1u8)],
        198 => vec![(0u8, 9u8, 7u8), (0u8, 7u8, 6u8), (0u8, 6u8, 4u8), (1u8, 11u8, 5u8)],
        199 => vec![(1u8, 11u8, 5u8), (6u8, 8u8, 9u8), (6u8, 9u8, 7u8)],
        200 => vec![(1u8, 10u8, 6u8), (1u8, 6u8, 7u8), (1u8, 7u8, 5u8)],
        201 => vec![(0u8, 8u8, 6u8), (0u8, 6u8, 7u8), (0u8, 7u8, 5u8), (1u8, 10u8, 4u8)],
        202 => vec![(0u8, 9u8, 7u8), (0u8, 7u8, 6u8), (0u8, 6u8, 10u8), (0u8, 10u8, 1u8)],
        203 => vec![(1u8, 10u8, 4u8), (6u8, 8u8, 9u8), (6u8, 9u8, 7u8)],
        204 => vec![(4u8, 6u8, 7u8), (4u8, 7u8, 5u8)],
        205 => vec![(0u8, 8u8, 6u8), (0u8, 6u8, 7u8), (0u8, 7u8, 5u8)],
        206 => vec![(0u8, 9u8, 7u8), (0u8, 7u8, 6u8), (0u8, 6u8, 4u8)],
        207 => vec![(6u8, 8u8, 9u8), (6u8, 9u8, 7u8)],
        208 => vec![(2u8, 8u8, 10u8), (2u8, 10u8, 11u8), (2u8, 11u8, 7u8)],
        209 => vec![(0u8, 2u8, 7u8), (0u8, 7u8, 11u8), (0u8, 11u8, 10u8), (0u8, 10u8, 4u8)],
        210 => vec![(0u8, 8u8, 10u8), (0u8, 10u8, 11u8), (0u8, 11u8, 5u8), (2u8, 9u8, 7u8)],
        211 => vec![(2u8, 9u8, 7u8), (4u8, 10u8, 11u8), (4u8, 11u8, 5u8)],
        212 => vec![(1u8, 11u8, 7u8), (1u8, 7u8, 2u8), (1u8, 2u8, 8u8), (1u8, 8u8, 4u8)],
        213 => vec![(0u8, 2u8, 7u8), (0u8, 7u8, 11u8), (0u8, 11u8, 1u8)],
        214 => vec![(0u8, 8u8, 4u8), (1u8, 11u8, 5u8), (2u8, 9u8, 7u8)],
        215 => vec![(1u8, 11u8, 5u8), (2u8, 9u8, 7u8)],
        216 => vec![(1u8, 10u8, 8u8), (1u8, 8u8, 2u8), (1u8, 2u8, 7u8), (1u8, 7u8, 5u8)],
        217 => vec![(0u8, 2u8, 7u8), (0u8, 7u8, 5u8), (1u8, 10u8, 4u8)],
        218 => vec![(0u8, 8u8, 10u8), (0u8, 10u8, 1u8), (2u8, 9u8, 7u8)],
        219 => vec![(1u8, 10u8, 4u8), (2u8, 9u8, 7u8)],
        220 => vec![(2u8, 8u8, 4u8), (2u8, 4u8, 5u8), (2u8, 5u8, 7u8)],
        221 => vec![(0u8, 2u8, 7u8), (0u8, 7u8, 5u8)],
        222 => vec![(0u8, 8u8, 4u8), (2u8, 9u8, 7u8)],
        223 => vec![(2u8, 9u8, 7u8)],
        224 => vec![(2u8, 9u8, 11u8), (2u8, 11u8, 10u8), (2u8, 10u8, 6u8)],
        225 => vec![(0u8, 9u8, 11u8), (0u8, 11u8, 10u8), (0u8, 10u8, 4u8), (2u8, 8u8, 6u8)],
        226 => vec![(0u8, 2u8, 6u8), (0u8, 6u8, 10u8), (0u8, 10u8, 11u8), (0u8, 11u8, 5u8)],
        227 => vec![(2u8, 8u8, 6u8), (4u8, 10u8, 11u8), (4u8, 11u8, 5u8)],
        228 => vec![(1u8, 11u8, 9u8), (1u8, 9u8, 2u8), (1u8, 2u8, 6u8), (1u8, 6u8, 4u8)],
        229 => vec![(0u8, 9u8, 11u8), (0u8, 11u8, 1u8), (2u8, 8u8, 6u8)],
        230 => vec![(0u8, 2u8, 6u8), (0u8, 6u8, 4u8), (1u8, 11u8, 5u8)],
        231 => vec![(1u8, 11u8, 5u8), (2u8, 8u8, 6u8)],
        232 => vec![(1u8, 10u8, 6u8), (1u8, 6u8, 2u8), (1u8, 2u8, 9u8), (1u8, 9u8, 5u8)],
        233 => vec![(0u8, 9u8, 5u8), (1u8, 10u8, 4u8), (2u8, 8u8, 6u8)],
        234 => vec![(0u8, 2u8, 6u8), (0u8, 6u8, 10u8), (0u8, 10u8, 1u8)],
        235 => vec![(1u8, 10u8, 4u8), (2u8, 8u8, 6u8)],
        236 => vec![(2u8, 9u8, 5u8), (2u8, 5u8, 4u8), (2u8, 4u8, 6u8)],
        237 => vec![(0u8, 9u8, 5u8), (2u8, 8u8, 6u8)],
        238 => vec![(0u8, 2u8, 6u8), (0u8, 6u8, 4u8)],
        239 => vec![(2u8, 8u8, 6u8)],
        240 => vec![(8u8, 10u8, 11u8), (8u8, 11u8, 9u8)],
        241 => vec![(0u8, 9u8, 11u8), (0u8, 11u8, 10u8), (0u8, 10u8, 4u8)],
        242 => vec![(0u8, 8u8, 10u8), (0u8, 10u8, 11u8), (0u8, 11u8, 5u8)],
        243 => vec![(4u8, 10u8, 11u8), (4u8, 11u8, 5u8)],
        244 => vec![(1u8, 11u8, 9u8), (1u8, 9u8, 8u8), (1u8, 8u8, 4u8)],
        245 => vec![(0u8, 9u8, 11u8), (0u8, 11u8, 1u8)],
        246 => vec![(0u8, 8u8, 4u8), (1u8, 11u8, 5u8)],
        247 => vec![(1u8, 11u8, 5u8)],
        248 => vec![(1u8, 10u8, 8u8), (1u8, 8u8, 9u8), (1u8, 9u8, 5u8)],
        249 => vec![(0u8, 9u8, 5u8), (1u8, 10u8, 4u8)],
        250 => vec![(0u8, 8u8, 10u8), (0u8, 10u8, 1u8)],
        251 => vec![(1u8, 10u8, 4u8)],
        252 => vec![(4u8, 8u8, 9u8), (4u8, 9u8, 5u8)],
        253 => vec![(0u8, 9u8, 5u8)],
        254 => vec![(0u8, 8u8, 4u8)],
        255 => vec![],
    }
}

} // verus!
