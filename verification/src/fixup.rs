//! Texture sampler fixup: the one-shot reaction to asset lifecycle events.
//!
//! The engine delivers a stream of created / modified / removed events for
//! image assets. When a newly created image is one of the two textures the
//! demo-asset record tracks, its sampler is overwritten to repeat
//! addressing on all three axes so the floor texture tiles. Everything
//! else — other handles, modified and removed events — is observed and
//! left alone. An event whose handle has no backing image in the store is
//! skipped rather than treated as fatal.
//!
//! [`ImageStore`] models the image side of the engine's asset store: the
//! runtime shell applies the same sampler change to the real store
//! whenever the verified routine changes it here.

use vstd::prelude::*;
use crate::scene::DodgeballAssets;
use crate::scene::TextureHandle;

verus! {

/// How a texture is addressed when sampled outside the unit UV range.
#[derive(Clone, Copy, Debug, PartialEq, Eq, Structural)]
pub enum AddressMode {
    ClampToEdge,
    Repeat,
    MirrorRepeat,
}

/// Sampler configuration: the addressing mode on each of the three axes.
#[derive(Clone, Copy, Debug, PartialEq, Eq, Structural)]
pub struct SamplerSpec {
    pub address_mode_u: AddressMode,
    pub address_mode_v: AddressMode,
    pub address_mode_w: AddressMode,
}

/// Repeat addressing on all three axes: the texture tiles.
pub open spec fn spec_repeat_sampler() -> SamplerSpec {
    SamplerSpec {
        address_mode_u: AddressMode::Repeat,
        address_mode_v: AddressMode::Repeat,
        address_mode_w: AddressMode::Repeat,
    }
}

/// Clamp addressing on all three axes: the stock sampler images load with.
pub open spec fn spec_clamp_sampler() -> SamplerSpec {
    SamplerSpec {
        address_mode_u: AddressMode::ClampToEdge,
        address_mode_v: AddressMode::ClampToEdge,
        address_mode_w: AddressMode::ClampToEdge,
    }
}

pub fn repeat_sampler() -> (s: SamplerSpec)
    ensures
        s == spec_repeat_sampler(),
{
    SamplerSpec {
        address_mode_u: AddressMode::Repeat,
        address_mode_v: AddressMode::Repeat,
        address_mode_w: AddressMode::Repeat,
    }
}

impl Default for SamplerSpec {
    /// The sampler an image starts with: clamp on all three axes.
    fn default() -> (s: Self)
        ensures
            s == spec_clamp_sampler(),
    {
        SamplerSpec {
            address_mode_u: AddressMode::ClampToEdge,
            address_mode_v: AddressMode::ClampToEdge,
            address_mode_w: AddressMode::ClampToEdge,
        }
    }
}

/// An asset lifecycle notification for one image, as the engine delivers
/// it each tick. Consumed, never stored.
#[derive(Clone, Copy, Debug, PartialEq, Eq, Structural)]
pub enum AssetEvent {
    Created { handle: TextureHandle },
    Modified { handle: TextureHandle },
    Removed { handle: TextureHandle },
}

/// One loaded image: its handle identity and its current sampler.
#[derive(Clone, Copy, Debug, PartialEq, Eq, Structural)]
pub struct ImageRecord {
    pub handle: TextureHandle,
    pub sampler: SamplerSpec,
}

/// The image side of the engine's asset store.
#[derive(Clone, Debug, PartialEq, Eq)]
pub struct ImageStore {
    pub images: Vec<ImageRecord>,
}

impl ImageStore {
    pub fn new() -> (s: ImageStore)
        ensures
            s.images@ == Seq::<ImageRecord>::empty(),
    {
        ImageStore { images: Vec::new() }
    }

    /// Records a newly loaded image with the given sampler.
    pub fn insert_image(&mut self, handle: TextureHandle, sampler: SamplerSpec)
        ensures
            final(self).images@ == old(self).images@.push(ImageRecord { handle, sampler }),
    {
        self.images.push(ImageRecord { handle, sampler });
    }
}

/// Whether the demo-asset record tracks the given handle identity: it is
/// the colour map or the normal map of the prototype floor.
pub open spec fn spec_is_tracked(assets: DodgeballAssets, id: u64) -> bool {
    id == assets.debug_assets.debug_grid_texture_c.id || id
        == assets.debug_assets.debug_grid_texture_n.id
}

/// Whether one event asks for the sampler fixup of the image with the
/// given identity: only a created event for a tracked handle does.
pub open spec fn spec_event_fixes(e: AssetEvent, assets: DodgeballAssets, id: u64) -> bool {
    match e {
        AssetEvent::Created { handle } => handle.id == id && spec_is_tracked(assets, id),
        AssetEvent::Modified { handle: _ } => false,
        AssetEvent::Removed { handle: _ } => false,
    }
}

/// Whether some event of the batch asks for the sampler fixup of the
/// image with the given identity.
pub open spec fn spec_should_fix(events: Seq<AssetEvent>, assets: DodgeballAssets, id: u64) -> bool {
    exists|k: int| 0 <= k < events.len() && spec_event_fixes(events[k], assets, id)
}

/// Whether a created event for this handle must receive the fixup.
pub fn created_event_matches(game_assets: &DodgeballAssets, handle: TextureHandle) -> (b: bool)
    ensures
        b == spec_is_tracked(*game_assets, handle.id),
{
    handle.id == game_assets.debug_assets.debug_grid_texture_c.id || handle.id
        == game_assets.debug_assets.debug_grid_texture_n.id
}

/// Sets the repeat sampler on every image whose handle has the given
/// identity; an identity with no backing image changes nothing.
fn apply_repeat_sampler(images: &mut ImageStore, id: u64)
    ensures
        final(images).images@.len() == old(images).images@.len(),
        forall|j: int|
            0 <= j < old(images).images@.len() ==> (#[trigger] final(images).images@[j]).handle
                == old(images).images@[j].handle,
        forall|j: int|
            0 <= j < old(images).images@.len() ==> (#[trigger] final(images).images@[j]).sampler
                == if old(images).images@[j].handle.id == id {
                spec_repeat_sampler()
            } else {
                old(images).images@[j].sampler
            },
{
    let mut i: usize = 0;
    while i < images.images.len()
        invariant
            i <= images.images@.len(),
            images.images@.len() == old(images).images@.len(),
            forall|j: int|
                0 <= j < images.images@.len() ==> (#[trigger] images.images@[j]).handle == old(
                    images,
                ).images@[j].handle,
            forall|j: int|
                0 <= j < i ==> (#[trigger] images.images@[j]).sampler == if old(
                    images,
                ).images@[j].handle.id == id {
                    spec_repeat_sampler()
                } else {
                    old(images).images@[j].sampler
                },
            forall|j: int|
                i <= j < images.images@.len() ==> (#[trigger] images.images@[j]).sampler == old(
                    images,
                ).images@[j].sampler,
        decreases images.images@.len() - i,
    {
        if images.images[i].handle.id == id {
            let handle = images.images[i].handle;
            images.images.set(i, ImageRecord { handle, sampler: repeat_sampler() });
        }
        i += 1;
    }
}

/// Extending a batch by one event asks for exactly the fixups of the
/// shorter batch plus whatever the new event asks for.
proof fn lemma_should_fix_extend(events: Seq<AssetEvent>, j: int, assets: DodgeballAssets, id: u64)
    requires
        0 <= j < events.len(),
    ensures
        spec_should_fix(events.take(j + 1), assets, id) == (spec_should_fix(
            events.take(j),
            assets,
            id,
        ) || spec_event_fixes(events[j], assets, id)),
{
    let shorter = events.take(j);
    let longer = events.take(j + 1);
    assert(longer =~= shorter.push(events[j]));
    if spec_should_fix(longer, assets, id) {
        let k = choose|k: int| 0 <= k < longer.len() && spec_event_fixes(longer[k], assets, id);
        if k < j {
            assert(shorter[k] == longer[k]);
            assert(spec_should_fix(shorter, assets, id));
        } else {
            assert(longer[k] == events[j]);
        }
    }
    if spec_should_fix(shorter, assets, id) {
        let k = choose|k: int| 0 <= k < shorter.len() && spec_event_fixes(shorter[k], assets, id);
        assert(longer[k] == shorter[k]);
        assert(spec_should_fix(longer, assets, id));
    }
    if spec_event_fixes(events[j], assets, id) {
        assert(spec_event_fixes(longer[j], assets, id));
        assert(spec_should_fix(longer, assets, id));
    }
}

/// Drains one batch of asset events. Every image a created event names
/// through one of the two tracked handles ends with the repeat sampler;
/// every other image keeps its sampler, and no image appears or
/// disappears. Modified and removed events, created events for untracked
/// handles, and events naming images missing from the store all change
/// nothing.
pub fn fixup_images(
    events: &Vec<AssetEvent>,
    images: &mut ImageStore,
    game_assets: &DodgeballAssets,
)
    ensures
        final(images).images@.len() == old(images).images@.len(),
        forall|j: int|
            0 <= j < old(images).images@.len() ==> (#[trigger] final(images).images@[j]).handle
                == old(images).images@[j].handle,
        forall|j: int|
            0 <= j < old(images).images@.len() ==> (#[trigger] final(images).images@[j]).sampler
                == if spec_should_fix(events@, *game_assets, old(images).images@[j].handle.id) {
                spec_repeat_sampler()
            } else {
                old(images).images@[j].sampler
            },
{
    let mut e: usize = 0;
    while e < events.len()
        invariant
            e <= events@.len(),
            images.images@.len() == old(images).images@.len(),
            forall|j: int|
                0 <= j < images.images@.len() ==> (#[trigger] images.images@[j]).handle == old(
                    images,
                ).images@[j].handle,
            forall|j: int|
                0 <= j < images.images@.len() ==> (#[trigger] images.images@[j]).sampler == if
                    spec_should_fix(
                    events@.take(e as int),
                    *game_assets,
                    old(images).images@[j].handle.id,
                ) {
                    spec_repeat_sampler()
                } else {
                    old(images).images@[j].sampler
                },
        decreases events@.len() - e,
    {
        let ev = events[e];
        let ghost pre = images.images@;
        match ev {
            AssetEvent::Created { handle } => {
                if created_event_matches(game_assets, handle) {
                    apply_repeat_sampler(images, handle.id);
                }
            },
            AssetEvent::Modified { handle: _ } => {},
            AssetEvent::Removed { handle: _ } => {},
        }
        proof {
            assert forall|j: int| 0 <= j < images.images@.len() implies (
            #[trigger] images.images@[j]).sampler == if spec_should_fix(
                events@.take(e + 1),
                *game_assets,
                old(images).images@[j].handle.id,
            ) {
                spec_repeat_sampler()
            } else {
                old(images).images@[j].sampler
            } by {
                lemma_should_fix_extend(
                    events@,
                    e as int,
                    *game_assets,
                    old(images).images@[j].handle.id,
                );
                assert(pre[j].handle == old(images).images@[j].handle);
            }
        }
        e += 1;
    }
    proof {
        assert(events@.take(events@.len() as int) =~= events@);
    }
}

/// A created event for a tracked handle makes the whole batch ask for that
/// image's fixup: after `fixup_images` its sampler is the repeat sampler.
pub proof fn lemma_created_tracked_fixes(
    events: Seq<AssetEvent>,
    assets: DodgeballAssets,
    id: u64,
)
    requires
        spec_is_tracked(assets, id),
        events.contains(AssetEvent::Created { handle: TextureHandle { id } }),
    ensures
        spec_should_fix(events, assets, id),
{
    let k = choose|k: int|
        0 <= k < events.len() && events[k] == (AssetEvent::Created {
            handle: TextureHandle { id },
        });
    assert(spec_event_fixes(events[k], assets, id));
}

/// An untracked handle is never fixed up, whatever the batch holds: its
/// image's sampler is left unchanged.
pub proof fn lemma_untracked_never_fixed(
    events: Seq<AssetEvent>,
    assets: DodgeballAssets,
    id: u64,
)
    requires
        !spec_is_tracked(assets, id),
    ensures
        !spec_should_fix(events, assets, id),
{
}

/// A batch without created events — modified and removed only — asks for
/// no fixup at all: `fixup_images` changes no sampler.
pub proof fn lemma_no_created_no_fix(events: Seq<AssetEvent>, assets: DodgeballAssets, id: u64)
    requires
        forall|k: int|
            0 <= k < events.len() ==> !(#[trigger] events[k] matches AssetEvent::Created {
                handle: _
            }),
    ensures
        !spec_should_fix(events, assets, id),
{
}

} // verus!
