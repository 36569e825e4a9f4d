//! A fixed-size array of load trackers, one per layer of a texture channel.
//!
//! The array is built once from the handles the host returned for the layer
//! load requests and is never resized. Every notification is forwarded to
//! every tracker without short-circuiting: the same handle may legitimately
//! sit in several slots, and each of them must observe the notification.

use vstd::prelude::*;
use crate::image::{ImageData, LayerMismatch, is_first_mismatch, is_merged_of, layers_consistent, merge_images};
use crate::loading::{ImageHandle, LoadingImage};

verus! {

/// Every tracker of the sequence is loaded.
pub open spec fn all_loaded_seq(s: Seq<LoadingImage>) -> bool {
    forall|i: int| 0 <= i < s.len() ==> s[i].loaded
}

/// Some tracker of the sequence carries this handle.
pub open spec fn any_matched(s: Seq<LoadingImage>, completed_id: ImageHandle) -> bool {
    exists|i: int| 0 <= i < s.len() && s[i].handle == completed_id
}

/// The trackers after one notification has been delivered to all of them:
/// handles are untouched, and every tracker whose handle equals the
/// completed one is loaded from now on.
pub open spec fn notified_seq(s: Seq<LoadingImage>, completed_id: ImageHandle) -> Seq<LoadingImage> {
    Seq::new(
        s.len(),
        |i: int|
            LoadingImage {
                handle: s[i].handle,
                loaded: s[i].loaded || s[i].handle == completed_id,
            },
    )
}

/// The trackers after a whole stream of notifications, delivered in order.
pub open spec fn apply_notifications(s: Seq<LoadingImage>, ids: Seq<ImageHandle>) -> Seq<LoadingImage>
    decreases ids.len(),
{
    if ids.len() == 0 {
        s
    } else {
        apply_notifications(notified_seq(s, ids[0]), ids.drop_first())
    }
}

proof fn lemma_contains_drop_first(ids: Seq<ImageHandle>, h: ImageHandle)
    requires
        ids.len() > 0,
    ensures
        ids.contains(h) <==> (ids[0] == h || ids.drop_first().contains(h)),
{
    if ids.contains(h) {
        let j = choose|j: int| 0 <= j < ids.len() && ids[j] == h;
        if j > 0 {
            assert(ids.drop_first()[j - 1] == h);
        }
    }
    if ids.drop_first().contains(h) {
        let j = choose|j: int| 0 <= j < ids.drop_first().len() && ids.drop_first()[j] == h;
        assert(ids[j + 1] == h);
    }
}

/// A notification never unloads a tracker: once every tracker is loaded,
/// every tracker stays loaded through any further notification.
pub proof fn lemma_all_loaded_stays(s: Seq<LoadingImage>, completed_id: ImageHandle)
    ensures
        all_loaded_seq(s) ==> all_loaded_seq(notified_seq(s, completed_id)),
{
}

/// Convergence: after a stream of notifications, the trackers are all
/// loaded exactly when every tracker was either loaded at the start or has
/// its handle somewhere in the stream. In particular, starting from fresh
/// trackers, full load is reached precisely once every tracker's handle has
/// been notified at least once, and it is never lost again.
pub proof fn lemma_all_loaded_iff_every_handle_notified(s: Seq<LoadingImage>, ids: Seq<ImageHandle>)
    ensures
        all_loaded_seq(apply_notifications(s, ids)) <==> (forall|i: int|
            0 <= i < s.len() ==> s[i].loaded || ids.contains(#[trigger] s[i].handle)),
    decreases ids.len(),
{
    if ids.len() == 0 {
        if forall|i: int| 0 <= i < s.len() ==> s[i].loaded || ids.contains(#[trigger] s[i].handle) {
            assert forall|i: int| 0 <= i < s.len() implies (#[trigger] s[i]).loaded by {
                assert(s[i].loaded || ids.contains(s[i].handle));
            }
        }
    } else {
        let s1 = notified_seq(s, ids[0]);
        let ids1 = ids.drop_first();
        lemma_all_loaded_iff_every_handle_notified(s1, ids1);
        assert(apply_notifications(s, ids) == apply_notifications(s1, ids1));
        if all_loaded_seq(apply_notifications(s, ids)) {
            assert forall|i: int| 0 <= i < s.len() implies s[i].loaded || ids.contains(
                #[trigger] s[i].handle,
            ) by {
                assert(s1[i].loaded || ids1.contains(s1[i].handle));
                lemma_contains_drop_first(ids, s[i].handle);
            }
        }
        if forall|i: int| 0 <= i < s.len() ==> s[i].loaded || ids.contains(#[trigger] s[i].handle) {
            assert forall|i: int| 0 <= i < s1.len() implies s1[i].loaded || ids1.contains(
                #[trigger] s1[i].handle,
            ) by {
                assert(s[i].loaded || ids.contains(s[i].handle));
                lemma_contains_drop_first(ids, s[i].handle);
            }
            assert(all_loaded_seq(apply_notifications(s1, ids1)));
        }
    }
}

/// The layers of one texture channel, as load trackers in layer order.
pub struct LayerArray {
    images: Vec<LoadingImage>,
}

impl View for LayerArray {
    type V = Seq<LoadingImage>;

    closed spec fn view(&self) -> Seq<LoadingImage> {
        self.images@
    }
}

impl LayerArray {
    /// Wraps the handles the host returned for this channel's layer load
    /// requests, in request order, each as a pending tracker.
    pub fn new(handles: &Vec<ImageHandle>) -> (r: LayerArray)
        ensures
            r@.len() == handles@.len(),
            forall|i: int| 0 <= i < r@.len() ==> (#[trigger] r@[i]).handle == handles@[i] && !r@[i].loaded,
    {
        let mut images: Vec<LoadingImage> = Vec::new();
        let mut i: usize = 0;
        while i < handles.len()
            invariant
                i <= handles@.len(),
                images@.len() == i,
                forall|j: int| 0 <= j < i ==> (#[trigger] images@[j]).handle == handles@[j]
                    && !images@[j].loaded,
            decreases handles@.len() - i,
        {
            images.push(LoadingImage::new(handles[i]));
            i = i + 1;
        }
        LayerArray { images }
    }

    /// The number of layers, fixed at construction.
    pub fn len(&self) -> (n: usize)
        ensures
            n == self@.len(),
    {
        self.images.len()
    }

    /// The handles of this channel's layers, in layer order. The host
    /// resolves them into the images that `merge` takes.
    pub fn handles(&self) -> (r: Vec<ImageHandle>)
        ensures
            r@.len() == self@.len(),
            forall|i: int| 0 <= i < r@.len() ==> r@[i] == self@[i].handle,
    {
        let mut r: Vec<ImageHandle> = Vec::new();
        let mut i: usize = 0;
        while i < self.images.len()
            invariant
                i <= self@.len(),
                self.images@ == self@,
                r@.len() == i,
                forall|j: int| 0 <= j < i ==> r@[j] == self@[j].handle,
            decreases self@.len() - i,
        {
            r.push(self.images[i].handle);
            i = i + 1;
        }
        r
    }

    /// Delivers one completion notification to every tracker, with no
    /// short-circuit, and reports whether any tracker matched it.
    pub fn notify_any(&mut self, completed_id: ImageHandle) -> (matched: bool)
        ensures
            final(self)@ == notified_seq(old(self)@, completed_id),
            matched == any_matched(old(self)@, completed_id),
    {
        let ghost s0 = self.images@;
        let mut matched = false;
        let mut i: usize = 0;
        while i < self.images.len()
            invariant
                i <= s0.len(),
                self.images@.len() == s0.len(),
                forall|k: int| 0 <= k < i ==> self.images@[k] == notified_seq(s0, completed_id)[k],
                forall|k: int| i <= k < s0.len() ==> self.images@[k] == s0[k],
                matched == exists|k: int| 0 <= k < i && (#[trigger] s0[k]).handle == completed_id,
            decreases s0.len() - i,
        {
            let mut im = self.images[i];
            let m = im.notify(completed_id);
            self.images.set(i, im);
            if m {
                matched = true;
                proof {
                    assert(s0[i as int].handle == completed_id);
                }
            }
            i = i + 1;
        }
        proof {
            assert(self.images@ =~= notified_seq(s0, completed_id));
        }
        matched
    }

    /// Whether every layer of this channel has finished loading.
    pub fn all_loaded(&self) -> (r: bool)
        ensures
            r == all_loaded_seq(self@),
    {
        let mut i: usize = 0;
        while i < self.images.len()
            invariant
                i <= self@.len(),
                self.images@ == self@,
                forall|k: int| 0 <= k < i ==> (#[trigger] self@[k]).loaded,
            decreases self@.len() - i,
        {
            if !self.images[i].loaded {
                return false;
            }
            i = i + 1;
        }
        true
    }

    /// Merges this channel's resolved layers, one image per tracker in layer
    /// order, into a single stacked image. The channel must have converged
    /// first, and the stacked height must fit the extent field.
    pub fn merge(&self, images: &Vec<ImageData>) -> (r: Result<ImageData, LayerMismatch>)
        requires
            all_loaded_seq(self@),
            images@.len() == self@.len(),
            images@.len() >= 1,
            images@.len() <= u32::MAX,
            images@[0].height * images@.len() <= u32::MAX,
        ensures
            r is Ok <==> layers_consistent(images@),
            r matches Ok(out) ==> is_merged_of(out, images@),
            r matches Err(e) ==> is_first_mismatch(e, images@),
    {
        merge_images(images)
    }
}

} // verus!
