use triplanar_splatting::image::{merge_images, ImageData};
use triplanar_splatting::layers::LayerArray;

fn img(width: u32, height: u32, format: u32, usage: u32, data: Vec<u8>) -> ImageData {
    ImageData { width, height, format, usage, layers: 1, data }
}

/// 4x4 single-byte-per-pixel test layer filled from a base value.
fn layer_4x4(format: u32, base: u8) -> ImageData {
    let data: Vec<u8> = (0..16).map(|i| base + i as u8).collect();
    img(4, 4, format, 1, data)
}

#[test]
fn merge_stacks_two_layers_along_height() {
    let l0 = layer_4x4(1, 0);
    let l1 = layer_4x4(1, 100);
    let merged = merge_images(&vec![l0, l1]).expect("identically formatted layers must merge");
    assert_eq!(merged.width, 4);
    assert_eq!(merged.height, 8);
    assert_eq!(merged.format, 1);
    assert_eq!(merged.usage, 1);
    assert_eq!(merged.layers, 1);
    assert_eq!(merged.data.len(), 32);
    // The first four rows are layer 0's pixels, the last four layer 1's.
    assert_eq!(&merged.data[..16], &(0..16u8).collect::<Vec<u8>>()[..]);
    assert_eq!(&merged.data[16..], &(100..116u8).collect::<Vec<u8>>()[..]);
}

#[test]
fn merge_single_layer_is_the_layer_itself() {
    let l0 = layer_4x4(1, 5);
    let merged = merge_images(&vec![l0]).unwrap();
    assert_eq!(merged.width, 4);
    assert_eq!(merged.height, 4);
    assert_eq!(merged.layers, 1);
    assert_eq!(merged.data, (5..21u8).collect::<Vec<u8>>());
}

#[test]
fn merge_rejects_mismatched_formats() {
    // Layer 0 uses an 8-bit format tag, layer 1 a 16-bit one.
    let l0 = layer_4x4(8, 0);
    let l1 = layer_4x4(16, 0);
    let err = merge_images(&vec![l0, l1]).expect_err("mismatched formats must not merge");
    assert_eq!(err.layer, 1);
    assert_eq!(err.expected.format, 8);
    assert_eq!(err.found.format, 16);
    assert_eq!(err.expected.width, 4);
    assert_eq!(err.found.width, 4);
}

#[test]
fn merge_reports_first_mismatched_layer() {
    let l0 = layer_4x4(1, 0);
    let l1 = layer_4x4(1, 0);
    let l2 = img(8, 4, 1, 1, vec![0; 32]);
    let l3 = img(2, 4, 1, 1, vec![0; 8]);
    let err = merge_images(&vec![l0, l1, l2, l3]).unwrap_err();
    assert_eq!(err.layer, 2);
    assert_eq!(err.expected.width, 4);
    assert_eq!(err.found.width, 8);
}

#[test]
fn merge_is_deterministic() {
    let input = vec![layer_4x4(1, 0), layer_4x4(1, 50), layer_4x4(1, 200)];
    let a = merge_images(&input).unwrap();
    let b = merge_images(&input).unwrap();
    assert_eq!(a.width, b.width);
    assert_eq!(a.height, b.height);
    assert_eq!(a.format, b.format);
    assert_eq!(a.usage, b.usage);
    assert_eq!(a.layers, b.layers);
    assert_eq!(a.data, b.data);
}

#[test]
fn converged_layer_array_merges_in_either_notification_order() {
    for order in [[10u128, 20u128], [20u128, 10u128]] {
        let mut arr = LayerArray::new(&vec![10, 20]);
        for id in order {
            assert!(arr.notify_any(id));
        }
        assert!(arr.all_loaded());
        let resolved = vec![layer_4x4(1, 0), layer_4x4(1, 100)];
        let merged = arr.merge(&resolved).unwrap();
        assert_eq!(merged.height, 8);
        assert_eq!(&merged.data[..16], &(0..16u8).collect::<Vec<u8>>()[..]);
        assert_eq!(&merged.data[16..], &(100..116u8).collect::<Vec<u8>>()[..]);
    }
}
