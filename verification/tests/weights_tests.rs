use triplanar_splatting::weights::{blend_weights, complement, pack, unpack, weight_attribute};

#[test]
fn pack_is_little_lane_first() {
    assert_eq!(pack([1, 2, 3, 4]), 0x0403_0201);
    assert_eq!(pack([0xff, 0, 0, 0]), 0x0000_00ff);
    assert_eq!(pack([0, 0, 0, 0xff]), 0xff00_0000);
    assert_eq!(pack([0, 0, 0, 0]), 0);
}

#[test]
fn unpack_recovers_lanes() {
    assert_eq!(unpack(0x0403_0201), [1, 2, 3, 4]);
    assert_eq!(unpack(0), [0, 0, 0, 0]);
    assert_eq!(unpack(0xffff_ffff), [255, 255, 255, 255]);
}

#[test]
fn pack_unpack_round_trip() {
    let cases = [
        [0, 0, 0, 0],
        [255, 255, 255, 255],
        [1, 2, 3, 4],
        [255, 0, 255, 0],
        [17, 34, 51, 68],
        [0, 255, 0, 255],
    ];
    for w in cases {
        assert_eq!(unpack(pack(w)), w);
    }
}

#[test]
fn unpack_pack_round_trip() {
    for v in [0u32, 1, 0xdead_beef, 0xffff_ffff, 0x8000_0001] {
        assert_eq!(pack(unpack(v)), v);
    }
}

#[test]
fn complement_sums_to_255() {
    assert_eq!(complement(0), 255);
    assert_eq!(complement(255), 0);
    assert_eq!(complement(100), 155);
    for w0 in 0..=255u32 {
        assert_eq!(complement(w0) + w0, 255);
    }
}

#[test]
fn blend_weights_puts_pair_in_lanes_0_and_2() {
    // A weight fully at one end: lane 0 saturated, lane 2 empty.
    assert_eq!(blend_weights(255), 0x0000_00ff);
    // Fully at the other end.
    assert_eq!(blend_weights(0), 0x00ff_0000);
    let v = blend_weights(100);
    let lanes = unpack(v);
    assert_eq!(lanes, [100, 0, 155, 0]);
    assert_eq!(lanes[0] + lanes[2], 255);
}

#[test]
fn weight_attribute_one_entry_per_vertex() {
    let quantized = vec![0u32, 128, 255];
    let attr = weight_attribute(&quantized);
    assert_eq!(attr.len(), 3);
    assert_eq!(attr[0], 0x00ff_0000);
    assert_eq!(attr[1], 128 | (127 << 16));
    assert_eq!(attr[2], 0x0000_00ff);
}

#[test]
fn weight_attribute_empty_mesh() {
    let attr = weight_attribute(&Vec::new());
    assert_eq!(attr.len(), 0);
}
