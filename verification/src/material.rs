//! The convergence state machine for one material asset.
//!
//! A material waits for four texture channels — base color, occlusion,
//! normal map, metallic-roughness — each a layer array loading on its own.
//! Completion notifications are fanned out to all four channels without
//! short-circuiting. Once every channel has converged, finalization merges
//! each channel into one stacked image and latches the `spawned` flag, so
//! the merged textures are produced exactly once: any later call is a
//! no-op, and a notification arriving after the latch changes nothing.

use vstd::prelude::*;
use crate::image::{ImageData, LayerMismatch, is_first_mismatch, is_merged_of, layers_consistent};
use crate::layers::{
    LayerArray, all_loaded_seq, any_matched, apply_notifications,
    lemma_all_loaded_iff_every_handle_notified, notified_seq,
};
use crate::loading::{ImageHandle, LoadingImage};

verus! {

/// The four texture channels of one material.
#[derive(Clone, Copy, Debug, PartialEq, Eq, Structural)]
pub enum TextureChannel {
    BaseColor,
    Occlusion,
    NormalMap,
    MetalRough,
}

/// A layer mismatch, tagged with the channel whose merge found it.
#[derive(Debug)]
pub struct ChannelMismatch {
    pub channel: TextureChannel,
    pub mismatch: LayerMismatch,
}

/// The four merged channel textures produced by finalization.
#[derive(Debug)]
pub struct MergedTextures {
    pub base_color: ImageData,
    pub occlusion: ImageData,
    pub normal_map: ImageData,
    pub metal_rough: ImageData,
}

/// One material asset converging toward its spawn: four channels of layer
/// trackers and the one-shot latch.
pub struct MaterialAssetState {
    pub base_color: LayerArray,
    pub occlusion: LayerArray,
    pub normal_map: LayerArray,
    pub metal_rough: LayerArray,
    pub spawned: bool,
}

/// Every tracker across all four channels is loaded.
pub open spec fn material_all_loaded(m: MaterialAssetState) -> bool {
    &&& all_loaded_seq(m.base_color@)
    &&& all_loaded_seq(m.occlusion@)
    &&& all_loaded_seq(m.normal_map@)
    &&& all_loaded_seq(m.metal_rough@)
}

/// The resolved images of one channel fit its layer array: one image per
/// tracker, at least one layer, and a stacked height that fits the extent
/// field.
pub open spec fn channel_fits(imgs: Seq<ImageData>, trackers: Seq<LoadingImage>) -> bool {
    &&& imgs.len() == trackers.len()
    &&& 1 <= imgs.len() <= u32::MAX
    &&& imgs[0].height * imgs.len() <= u32::MAX
}

/// What one finalization call does, as a relation between the state before,
/// the state after, the four channels' resolved images, and the outcome:
/// a no-op once spawned or before convergence; the first inconsistent
/// channel reported, in channel order, with the state unchanged; otherwise
/// the four merged textures, with the latch set.
pub open spec fn finalize_post(
    pre: MaterialAssetState,
    post: MaterialAssetState,
    base_color: Seq<ImageData>,
    occlusion: Seq<ImageData>,
    normal_map: Seq<ImageData>,
    metal_rough: Seq<ImageData>,
    r: Result<Option<MergedTextures>, ChannelMismatch>,
) -> bool {
    if pre.spawned || !material_all_loaded(pre) {
        post == pre && r matches Ok(None)
    } else if !layers_consistent(base_color) {
        &&& post == pre
        &&& r matches Err(e) && e.channel == TextureChannel::BaseColor && is_first_mismatch(
            e.mismatch,
            base_color,
        )
    } else if !layers_consistent(occlusion) {
        &&& post == pre
        &&& r matches Err(e) && e.channel == TextureChannel::Occlusion && is_first_mismatch(
            e.mismatch,
            occlusion,
        )
    } else if !layers_consistent(normal_map) {
        &&& post == pre
        &&& r matches Err(e) && e.channel == TextureChannel::NormalMap && is_first_mismatch(
            e.mismatch,
            normal_map,
        )
    } else if !layers_consistent(metal_rough) {
        &&& post == pre
        &&& r matches Err(e) && e.channel == TextureChannel::MetalRough && is_first_mismatch(
            e.mismatch,
            metal_rough,
        )
    } else {
        &&& post.spawned
        &&& post.base_color == pre.base_color
        &&& post.occlusion == pre.occlusion
        &&& post.normal_map == pre.normal_map
        &&& post.metal_rough == pre.metal_rough
        &&& r matches Ok(Some(m)) && is_merged_of(m.base_color, base_color)
            && is_merged_of(m.occlusion, occlusion) && is_merged_of(m.normal_map, normal_map)
            && is_merged_of(m.metal_rough, metal_rough)
    }
}

/// Convergence of a whole material: after a stream of notifications has
/// been fanned out to the four channels' trackers, the material reports all
/// loaded exactly when every tracker across all four channels was loaded at
/// the start or has its handle somewhere in the stream. Together with
/// `lemma_all_loaded_stays`, full load is reached precisely when every
/// tracker has received a matching notification at least once, and is never
/// lost again.
pub proof fn lemma_material_converges_iff_every_handle_notified(
    base_color: Seq<LoadingImage>,
    occlusion: Seq<LoadingImage>,
    normal_map: Seq<LoadingImage>,
    metal_rough: Seq<LoadingImage>,
    ids: Seq<ImageHandle>,
)
    ensures
        (all_loaded_seq(apply_notifications(base_color, ids)) && all_loaded_seq(
            apply_notifications(occlusion, ids),
        ) && all_loaded_seq(apply_notifications(normal_map, ids)) && all_loaded_seq(
            apply_notifications(metal_rough, ids),
        )) <==> {
            &&& forall|i: int|
                0 <= i < base_color.len() ==> base_color[i].loaded || ids.contains(
                    #[trigger] base_color[i].handle,
                )
            &&& forall|i: int|
                0 <= i < occlusion.len() ==> occlusion[i].loaded || ids.contains(
                    #[trigger] occlusion[i].handle,
                )
            &&& forall|i: int|
                0 <= i < normal_map.len() ==> normal_map[i].loaded || ids.contains(
                    #[trigger] normal_map[i].handle,
                )
            &&& forall|i: int|
                0 <= i < metal_rough.len() ==> metal_rough[i].loaded || ids.contains(
                    #[trigger] metal_rough[i].handle,
                )
        },
{
    lemma_all_loaded_iff_every_handle_notified(base_color, ids);
    lemma_all_loaded_iff_every_handle_notified(occlusion, ids);
    lemma_all_loaded_iff_every_handle_notified(normal_map, ids);
    lemma_all_loaded_iff_every_handle_notified(metal_rough, ids);
}

/// Finalization is one-shot: once a call has produced merged textures, the
/// latch is set, and any later call — whatever images it is handed — is a
/// no-op that produces nothing and changes nothing.
pub proof fn lemma_finalize_once(
    s0: MaterialAssetState,
    s1: MaterialAssetState,
    s2: MaterialAssetState,
    b1: Seq<ImageData>,
    o1: Seq<ImageData>,
    n1: Seq<ImageData>,
    m1: Seq<ImageData>,
    b2: Seq<ImageData>,
    o2: Seq<ImageData>,
    n2: Seq<ImageData>,
    m2: Seq<ImageData>,
    r1: Result<Option<MergedTextures>, ChannelMismatch>,
    r2: Result<Option<MergedTextures>, ChannelMismatch>,
)
    requires
        finalize_post(s0, s1, b1, o1, n1, m1, r1),
        finalize_post(s1, s2, b2, o2, n2, m2, r2),
        r1 matches Ok(Some(_)),
    ensures
        r2 matches Ok(None),
        s2 == s1,
{
}

impl MaterialAssetState {
    /// A material whose four channels have just been requested: nothing
    /// loaded, nothing spawned.
    pub fn new(
        base_color: LayerArray,
        occlusion: LayerArray,
        normal_map: LayerArray,
        metal_rough: LayerArray,
    ) -> (r: MaterialAssetState)
        ensures
            r.base_color == base_color,
            r.occlusion == occlusion,
            r.normal_map == normal_map,
            r.metal_rough == metal_rough,
            !r.spawned,
    {
        MaterialAssetState { base_color, occlusion, normal_map, metal_rough, spawned: false }
    }

    /// Delivers one completion notification. Once spawned, the whole call is
    /// a no-op; otherwise the notification is forwarded to all four channels
    /// unconditionally. A true result reports that some tracker matched —
    /// the host then applies its texture-sampling configuration to the
    /// matched resource.
    pub fn notify(&mut self, completed_id: ImageHandle) -> (matched: bool)
        ensures
            final(self).spawned == old(self).spawned,
            old(self).spawned ==> *final(self) == *old(self) && !matched,
            !old(self).spawned ==> {
                &&& final(self).base_color@ == notified_seq(old(self).base_color@, completed_id)
                &&& final(self).occlusion@ == notified_seq(old(self).occlusion@, completed_id)
                &&& final(self).normal_map@ == notified_seq(old(self).normal_map@, completed_id)
                &&& final(self).metal_rough@ == notified_seq(old(self).metal_rough@, completed_id)
                &&& matched == (any_matched(old(self).base_color@, completed_id) || any_matched(
                    old(self).occlusion@,
                    completed_id,
                ) || any_matched(old(self).normal_map@, completed_id) || any_matched(
                    old(self).metal_rough@,
                    completed_id,
                ))
            },
    {
        if self.spawned {
            return false;
        }
        let m0 = self.base_color.notify_any(completed_id);
        let m1 = self.occlusion.notify_any(completed_id);
        let m2 = self.normal_map.notify_any(completed_id);
        let m3 = self.metal_rough.notify_any(completed_id);
        m0 || m1 || m2 || m3
    }

    /// Whether all four channels have converged.
    pub fn all_loaded(&self) -> (r: bool)
        ensures
            r == material_all_loaded(*self),
    {
        self.base_color.all_loaded() && self.occlusion.all_loaded()
            && self.normal_map.all_loaded() && self.metal_rough.all_loaded()
    }

    /// Finalizes the material from the four channels' resolved images, one
    /// image per layer in layer order. At most one call ever produces merged
    /// textures: success latches the state, and a call once spawned or
    /// before convergence is a no-op. A channel whose layers disagree is
    /// reported instead, leaving the state unlatched so the caller may try
    /// again with repaired assets.
    pub fn try_finalize(
        &mut self,
        base_color: &Vec<ImageData>,
        occlusion: &Vec<ImageData>,
        normal_map: &Vec<ImageData>,
        metal_rough: &Vec<ImageData>,
    ) -> (r: Result<Option<MergedTextures>, ChannelMismatch>)
        requires
            !old(self).spawned && material_all_loaded(*old(self)) ==> {
                &&& channel_fits(base_color@, old(self).base_color@)
                &&& channel_fits(occlusion@, old(self).occlusion@)
                &&& channel_fits(normal_map@, old(self).normal_map@)
                &&& channel_fits(metal_rough@, old(self).metal_rough@)
            },
        ensures
            finalize_post(
                *old(self),
                *final(self),
                base_color@,
                occlusion@,
                normal_map@,
                metal_rough@,
                r,
            ),
            final(self).spawned == (old(self).spawned || (r matches Ok(Some(_)))),
    {
        if self.spawned {
            return Ok(None);
        }
        if !self.all_loaded() {
            return Ok(None);
        }
        let base = match self.base_color.merge(base_color) {
            Ok(img) => img,
            Err(e) => {
                return Err(ChannelMismatch { channel: TextureChannel::BaseColor, mismatch: e });
            },
        };
        let occ = match self.occlusion.merge(occlusion) {
            Ok(img) => img,
            Err(e) => {
                return Err(ChannelMismatch { channel: TextureChannel::Occlusion, mismatch: e });
            },
        };
        let nrm = match self.normal_map.merge(normal_map) {
            Ok(img) => img,
            Err(e) => {
                return Err(ChannelMismatch { channel: TextureChannel::NormalMap, mismatch: e });
            },
        };
        let mr = match self.metal_rough.merge(metal_rough) {
            Ok(img) => img,
            Err(e) => {
                return Err(ChannelMismatch { channel: TextureChannel::MetalRough, mismatch: e });
            },
        };
        self.spawned = true;
        Ok(Some(MergedTextures { base_color: base, occlusion: occ, normal_map: nrm, metal_rough: mr }))
    }
}

} // verus!
