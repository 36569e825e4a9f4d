//! Per-vertex blend-weight codec.
//!
//! A vertex carries four independent 8-bit weight lanes packed into one
//! 32-bit value, little-lane-first: lane 0 is bits 0..8, lane 1 bits 8..16,
//! lane 2 bits 16..24, lane 3 bits 24..32. The shading stage unpacks the
//! lanes with the inverse formulas, so packing and unpacking must round-trip
//! exactly.

use vstd::prelude::*;

verus! {

/// Lane 0 of a packed weight value: bits 0..8.
pub open spec fn lane0(v: u32) -> u32 {
    v & 0xff
}

/// Lane 1 of a packed weight value: bits 8..16.
pub open spec fn lane1(v: u32) -> u32 {
    (v >> 8) & 0xff
}

/// Lane 2 of a packed weight value: bits 16..24.
pub open spec fn lane2(v: u32) -> u32 {
    (v >> 16) & 0xff
}

/// Lane 3 of a packed weight value: bits 24..32.
pub open spec fn lane3(v: u32) -> u32 {
    (v >> 24) & 0xff
}

/// The packed form of four lanes, little-lane-first.
pub open spec fn pack_spec(w0: u32, w1: u32, w2: u32, w3: u32) -> u32 {
    w0 | (w1 << 8) | (w2 << 16) | (w3 << 24)
}

/// Packing four in-range lanes and unpacking the result gives the lanes
/// back unchanged: the codec round-trips.
pub proof fn lemma_pack_unpack_round_trip(w0: u32, w1: u32, w2: u32, w3: u32)
    by (bit_vector)
    requires
        w0 < 256,
        w1 < 256,
        w2 < 256,
        w3 < 256,
    ensures
        lane0(pack_spec(w0, w1, w2, w3)) == w0,
        lane1(pack_spec(w0, w1, w2, w3)) == w1,
        lane2(pack_spec(w0, w1, w2, w3)) == w2,
        lane3(pack_spec(w0, w1, w2, w3)) == w3,
{
}

/// Unpacking a value and packing the four lanes again gives the value back:
/// every 32-bit value is a valid packed weight.
pub proof fn lemma_unpack_pack_round_trip(v: u32)
    by (bit_vector)
    ensures
        pack_spec(lane0(v), lane1(v), lane2(v), lane3(v)) == v,
        lane0(v) < 256,
        lane1(v) < 256,
        lane2(v) < 256,
        lane3(v) < 256,
{
}

/// Packs four 8-bit weight lanes into one 32-bit value, little-lane-first.
/// Out-of-range lanes would bleed into their neighbours, so they are ruled
/// out up front instead of being masked away silently.
pub fn pack(w: [u32; 4]) -> (r: u32)
    requires
        w[0] < 256,
        w[1] < 256,
        w[2] < 256,
        w[3] < 256,
    ensures
        r == pack_spec(w[0], w[1], w[2], w[3]),
        lane0(r) == w[0],
        lane1(r) == w[1],
        lane2(r) == w[2],
        lane3(r) == w[3],
{
    proof {
        lemma_pack_unpack_round_trip(w[0], w[1], w[2], w[3]);
    }
    w[0] | (w[1] << 8) | (w[2] << 16) | (w[3] << 24)
}

/// Recovers the four 8-bit lanes of a packed weight value.
pub fn unpack(v: u32) -> (r: [u32; 4])
    ensures
        r[0] == lane0(v),
        r[1] == lane1(v),
        r[2] == lane2(v),
        r[3] == lane3(v),
        pack_spec(r[0], r[1], r[2], r[3]) == v,
        r[0] < 256 && r[1] < 256 && r[2] < 256 && r[3] < 256,
{
    proof {
        lemma_unpack_pack_round_trip(v);
    }
    [v & 0xff, (v >> 8) & 0xff, (v >> 16) & 0xff, (v >> 24) & 0xff]
}

/// The weight paired with `w0` so that the two lanes always sum to 255.
pub fn complement(w0: u32) -> (w1: u32)
    requires
        w0 <= 255,
    ensures
        w1 + w0 == 255,
        w1 <= 255,
{
    255 - w0
}

/// The packed per-vertex value for a two-material blend: lane 0 carries the
/// quantized weight, lane 2 its complement, lanes 1 and 3 are reserved and
/// stay zero.
pub open spec fn blend_weights_spec(w0: u32) -> u32 {
    pack_spec(w0, 0, (255 - w0) as u32, 0)
}

/// Builds the packed two-material blend value for one quantized weight.
pub fn blend_weights(w0: u32) -> (r: u32)
    requires
        w0 <= 255,
    ensures
        r == blend_weights_spec(w0),
        lane0(r) == w0,
        lane1(r) == 0,
        lane2(r) + w0 == 255,
        lane3(r) == 0,
{
    let w1 = complement(w0);
    let r = pack([w0, 0, w1, 0]);
    r
}

/// Builds the per-vertex weight attribute from one quantized weight per
/// vertex. The attribute has exactly one entry per vertex, in vertex order.
pub fn weight_attribute(quantized: &Vec<u32>) -> (r: Vec<u32>)
    requires
        forall|i: int| 0 <= i < quantized@.len() ==> quantized@[i] <= 255,
    ensures
        r@.len() == quantized@.len(),
        forall|i: int| 0 <= i < r@.len() ==> r@[i] == blend_weights_spec(quantized@[i]),
{
    let mut r: Vec<u32> = Vec::new();
    let mut i: usize = 0;
    while i < quantized.len()
        invariant
            i <= quantized@.len(),
            r@.len() == i,
            forall|j: int| 0 <= j < quantized@.len() ==> quantized@[j] <= 255,
            forall|j: int| 0 <= j < i ==> r@[j] == blend_weights_spec(quantized@[j]),
        decreases quantized@.len() - i,
    {
        let w = blend_weights(quantized[i]);
        r.push(w);
        i = i + 1;
    }
    r
}

} // verus!
