//! Plain image data and the layer merge.
//!
//! The host's asset subsystem resolves loaded handles into plain image data:
//! extent, pixel format and usage tags, and the raw pixel bytes. Merging
//! stacks the layers of one texture channel along the height axis of a
//! single two-dimensional image, so the merged image keeps layer 0's width,
//! format and usage, multiplies the height by the layer count, and forces
//! the array-layer count to one; its bytes are the layers' bytes
//! concatenated in layer order. All layers must agree on width, height,
//! format and usage, or the merge reports the first disagreeing layer
//! instead of producing an image.

use vstd::prelude::*;

verus! {

/// What every layer of one channel must agree on: extent, pixel format and
/// usage classification. Formats and usage classes are carried as opaque
/// tags; the merge only ever compares them for equality.
#[derive(Clone, Copy, Debug, PartialEq, Eq, Structural)]
pub struct ImageDescriptor {
    pub width: u32,
    pub height: u32,
    pub format: u32,
    pub usage: u32,
}

/// One resolved image: its descriptor fields, its array-layer count, and its
/// raw pixel bytes.
#[derive(Clone, Debug)]
pub struct ImageData {
    pub width: u32,
    pub height: u32,
    pub format: u32,
    pub usage: u32,
    pub layers: u32,
    pub data: Vec<u8>,
}

/// The first layer that disagrees with layer 0, with the two conflicting
/// descriptors, reported instead of a merged image.
#[derive(Debug)]
pub struct LayerMismatch {
    pub layer: usize,
    pub expected: ImageDescriptor,
    pub found: ImageDescriptor,
}

/// The descriptor of an image: the fields the merge validates.
pub open spec fn descriptor_of(img: ImageData) -> ImageDescriptor {
    ImageDescriptor { width: img.width, height: img.height, format: img.format, usage: img.usage }
}

/// Reads the descriptor of an image.
pub fn descriptor(img: &ImageData) -> (d: ImageDescriptor)
    ensures
        d == descriptor_of(*img),
{
    ImageDescriptor { width: img.width, height: img.height, format: img.format, usage: img.usage }
}

/// Every layer after the first agrees with layer 0 on width, height, format
/// and usage.
pub open spec fn layers_consistent(imgs: Seq<ImageData>) -> bool {
    forall|i: int| 1 <= i < imgs.len() ==> #[trigger] descriptor_of(imgs[i]) == descriptor_of(imgs[0])
}

/// The bytes of the first `n` images concatenated in order.
pub open spec fn concat_data(imgs: Seq<ImageData>, n: int) -> Seq<u8>
    decreases n,
{
    if n <= 0 {
        Seq::empty()
    } else {
        concat_data(imgs, n - 1) + imgs[n - 1].data@
    }
}

/// `out` is the merge of `imgs`: layer 0's width, format and usage, the
/// height multiplied by the layer count, a single array layer, and the
/// layers' bytes concatenated in layer order. This pins the merged image
/// completely, so merging the same layers in the same order can only ever
/// produce one value.
pub open spec fn is_merged_of(out: ImageData, imgs: Seq<ImageData>) -> bool {
    &&& imgs.len() >= 1
    &&& out.width == imgs[0].width
    &&& out.height == imgs[0].height * imgs.len()
    &&& out.format == imgs[0].format
    &&& out.usage == imgs[0].usage
    &&& out.layers == 1
    &&& out.data@ == concat_data(imgs, imgs.len() as int)
}

/// `e` names the least layer index whose descriptor disagrees with layer 0.
pub open spec fn is_first_mismatch(e: LayerMismatch, imgs: Seq<ImageData>) -> bool {
    &&& 1 <= e.layer < imgs.len()
    &&& e.expected == descriptor_of(imgs[0])
    &&& e.found == descriptor_of(imgs[e.layer as int])
    &&& e.found != e.expected
    &&& forall|j: int| 1 <= j < e.layer ==> #[trigger] descriptor_of(imgs[j]) == descriptor_of(imgs[0])
}

/// Merge is deterministic: two images merged from the same layers in the
/// same order agree on every field and are byte-identical.
pub proof fn lemma_merge_deterministic(a: ImageData, b: ImageData, imgs: Seq<ImageData>)
    requires
        is_merged_of(a, imgs),
        is_merged_of(b, imgs),
    ensures
        a.width == b.width,
        a.height == b.height,
        a.format == b.format,
        a.usage == b.usage,
        a.layers == b.layers,
        a.data@ == b.data@,
{
}

/// Merges the resolved layers of one channel into a single stacked image.
/// Succeeds exactly when all layers agree on width, height, format and
/// usage; otherwise reports the first disagreeing layer and produces no
/// image. The height of the stacked image must fit the extent field.
pub fn merge_images(images: &Vec<ImageData>) -> (r: Result<ImageData, LayerMismatch>)
    requires
        images@.len() >= 1,
        images@.len() <= u32::MAX,
        images@[0].height * images@.len() <= u32::MAX,
    ensures
        r is Ok <==> layers_consistent(images@),
        r matches Ok(out) ==> is_merged_of(out, images@),
        r matches Err(e) ==> is_first_mismatch(e, images@),
{
    let n = images.len();
    let expected = descriptor(&images[0]);
    let mut i: usize = 1;
    while i < n
        invariant
            1 <= i <= n,
            n == images@.len(),
            expected == descriptor_of(images@[0]),
            forall|j: int| 1 <= j < i ==> #[trigger] descriptor_of(images@[j]) == descriptor_of(images@[0]),
        decreases n - i,
    {
        let found = descriptor(&images[i]);
        if found != expected {
            return Err(LayerMismatch { layer: i, expected, found });
        }
        i = i + 1;
    }

    let mut data: Vec<u8> = Vec::new();
    let mut i: usize = 0;
    while i < n
        invariant
            i <= n,
            n == images@.len(),
            data@ == concat_data(images@, i as int),
        decreases n - i,
    {
        let len = images[i].data.len();
        let mut j: usize = 0;
        while j < len
            invariant
                j <= len,
                i < n,
                n == images@.len(),
                len == images@[i as int].data@.len(),
                data@ == concat_data(images@, i as int) + images@[i as int].data@.subrange(0, j as int),
            decreases len - j,
        {
            let byte = images[i].data[j];
            data.push(byte);
            proof {
                assert(data@ == concat_data(images@, i as int)
                    + images@[i as int].data@.subrange(0, (j + 1) as int)) by {
                    assert(images@[i as int].data@.subrange(0, (j + 1) as int)
                        =~= images@[i as int].data@.subrange(0, j as int).push(byte));
                }
            }
            j = j + 1;
        }
        proof {
            assert(images@[i as int].data@.subrange(0, len as int) =~= images@[i as int].data@);
            assert(concat_data(images@, (i + 1) as int)
                == concat_data(images@, i as int) + images@[i as int].data@);
        }
        i = i + 1;
    }

    let height = images[0].height * (n as u32);
    Ok(ImageData {
        width: images[0].width,
        height,
        format: images[0].format,
        usage: images[0].usage,
        layers: 1,
        data,
    })
}

} // verus!
