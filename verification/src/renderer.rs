use vstd::prelude::*;
use crate::importer::AssetUuid;

verus! {

/// The kinds of asset the renderer keeps a storage for.
#[derive(Clone, Copy, Debug, PartialEq, Eq, Structural)]
pub enum RendererAssetKind {
    Shader,
    Pipeline,
    Renderpass,
    Material,
    MaterialInstance,
    Image,
    Buffer,
    Mesh,
    GltfMaterial,
}

/// One storage to register with the asset resource: its asset kind, and
/// whether the resource manager's load handler for that kind turns loaded
/// assets into GPU resources (else the storage only keeps the asset data).
#[derive(Clone, Copy, Debug, PartialEq, Eq, Structural)]
pub struct StorageRegistration {
    pub kind: RendererAssetKind,
    pub with_load_handler: bool,
}

/// A registration handled by the resource manager's load handler.
pub open spec fn handled(kind: RendererAssetKind) -> StorageRegistration {
    StorageRegistration { kind, with_load_handler: true }
}

/// A registration that only stores the asset data.
pub open spec fn stored(kind: RendererAssetKind) -> StorageRegistration {
    StorageRegistration { kind, with_load_handler: false }
}

/// The storages that setting up the renderer's assets registers, in order.
pub open spec fn spec_renderer_asset_storages() -> Seq<StorageRegistration> {
    seq![
        handled(RendererAssetKind::Shader),
        handled(RendererAssetKind::Pipeline),
        handled(RendererAssetKind::Renderpass),
        handled(RendererAssetKind::Material),
        handled(RendererAssetKind::MaterialInstance),
        handled(RendererAssetKind::Image),
        handled(RendererAssetKind::Buffer),
        handled(RendererAssetKind::Mesh),
        stored(RendererAssetKind::GltfMaterial),
    ]
}

/// The storages that setting up the renderer's assets registers, in order:
/// every GPU-backed kind through the resource manager's load handler, and
/// glTF materials as plain data.
pub fn renderer_asset_storages() -> (storages: Vec<StorageRegistration>)
    ensures
        storages@ == spec_renderer_asset_storages(),
{
    let mut storages = Vec::new();
    storages.push(StorageRegistration { kind: RendererAssetKind::Shader, with_load_handler: true });
    storages.push(StorageRegistration { kind: RendererAssetKind::Pipeline, with_load_handler: true });
    storages.push(StorageRegistration { kind: RendererAssetKind::Renderpass, with_load_handler: true });
    storages.push(StorageRegistration { kind: RendererAssetKind::Material, with_load_handler: true });
    storages.push(
        StorageRegistration { kind: RendererAssetKind::MaterialInstance, with_load_handler: true },
    );
    storages.push(StorageRegistration { kind: RendererAssetKind::Image, with_load_handler: true });
    storages.push(StorageRegistration { kind: RendererAssetKind::Buffer, with_load_handler: true });
    storages.push(StorageRegistration { kind: RendererAssetKind::Mesh, with_load_handler: true });
    storages.push(
        StorageRegistration { kind: RendererAssetKind::GltfMaterial, with_load_handler: false },
    );
    storages
}

/// The storages that creating the game renderer registers, in order.
pub open spec fn spec_game_renderer_storages() -> Seq<StorageRegistration> {
    seq![
        handled(RendererAssetKind::Shader),
        handled(RendererAssetKind::Pipeline),
        handled(RendererAssetKind::Material),
        handled(RendererAssetKind::MaterialInstance),
        handled(RendererAssetKind::Image),
    ]
}

/// The storages that creating the game renderer registers, in order, all
/// through the resource manager's load handlers.
pub fn game_renderer_storages() -> (storages: Vec<StorageRegistration>)
    ensures
        storages@ == spec_game_renderer_storages(),
{
    let mut storages = Vec::new();
    storages.push(StorageRegistration { kind: RendererAssetKind::Shader, with_load_handler: true });
    storages.push(StorageRegistration { kind: RendererAssetKind::Pipeline, with_load_handler: true });
    storages.push(StorageRegistration { kind: RendererAssetKind::Material, with_load_handler: true });
    storages.push(
        StorageRegistration { kind: RendererAssetKind::MaterialInstance, with_load_handler: true },
    );
    storages.push(StorageRegistration { kind: RendererAssetKind::Image, with_load_handler: true });
    storages
}

/// An asset the game renderer loads when it is created.
#[derive(Clone, Copy, Debug)]
pub struct EssentialAsset {
    pub id: AssetUuid,
    pub kind: RendererAssetKind,
    /// Creation blocks until the asset has loaded.
    pub wait_until_loaded: bool,
}

/// The sprite material.
pub open spec fn sprite_material_id() -> Seq<u8> {
    seq![0xf8u8, 0xc4, 0x89, 0x7e, 0x7c, 0x1d, 0x47, 0x36, 0x93, 0xb7, 0xf2, 0xde, 0xda, 0x15, 0x8e, 0xc7]
}

/// The sprite material instance.
pub open spec fn sprite_material_instance_id() -> Seq<u8> {
    seq![0x84u8, 0xd6, 0x6f, 0x60, 0x24, 0xb2, 0x4e, 0xb2, 0xb6, 0xff, 0x8d, 0xbc, 0x4d, 0x69, 0xe2, 0xc5]
}

/// The image bound into the sprites' custom material.
pub open spec fn override_image_id() -> Seq<u8> {
    seq![0xb7u8, 0x75, 0x3a, 0x66, 0x1b, 0x26, 0x41, 0x52, 0xad, 0x61, 0x93, 0x58, 0x4f, 0x44, 0x42, 0xaa]
}

/// The assets the game renderer starts loading when it is created, in order:
/// the sprite material and its instance, which creation waits for, and the
/// override image, which it does not wait for.
pub fn game_renderer_essential_assets() -> (assets: Vec<EssentialAsset>)
    ensures
        assets@.len() == 3,
        assets@[0].id.0@ == sprite_material_id(),
        assets@[0].kind == RendererAssetKind::Material,
        assets@[0].wait_until_loaded,
        assets@[1].id.0@ == sprite_material_instance_id(),
        assets@[1].kind == RendererAssetKind::MaterialInstance,
        assets@[1].wait_until_loaded,
        assets@[2].id.0@ == override_image_id(),
        assets@[2].kind == RendererAssetKind::Image,
        !assets@[2].wait_until_loaded,
{
    let material = AssetUuid(
        [0xf8, 0xc4, 0x89, 0x7e, 0x7c, 0x1d, 0x47, 0x36, 0x93, 0xb7, 0xf2, 0xde, 0xda, 0x15, 0x8e, 0xc7],
    );
    let instance = AssetUuid(
        [0x84, 0xd6, 0x6f, 0x60, 0x24, 0xb2, 0x4e, 0xb2, 0xb6, 0xff, 0x8d, 0xbc, 0x4d, 0x69, 0xe2, 0xc5],
    );
    let image = AssetUuid(
        [0xb7, 0x75, 0x3a, 0x66, 0x1b, 0x26, 0x41, 0x52, 0xad, 0x61, 0x93, 0x58, 0x4f, 0x44, 0x42, 0xaa],
    );
    let mut assets = Vec::new();
    assets.push(EssentialAsset { id: material, kind: RendererAssetKind::Material, wait_until_loaded: true });
    assets.push(
        EssentialAsset { id: instance, kind: RendererAssetKind::MaterialInstance, wait_until_loaded: true },
    );
    assets.push(EssentialAsset { id: image, kind: RendererAssetKind::Image, wait_until_loaded: false });
    assets
}


/// Where the sprites' custom material takes its override image: the
/// descriptor set layout of the sprite material's pass, and the binding in
/// it that the image goes to.
#[derive(Clone, Copy, Debug)]
pub struct CustomMaterialSlot {
    /// The pass of the sprite material.
    pub pass_index: u32,
    /// The descriptor set layout within that pass.
    pub descriptor_set_index: u32,
    /// The binding the override image is written to.
    pub image_binding: u32,
}

/// The sprites' custom material uses pass 0 of the sprite material, its
/// descriptor set layout 1, and takes the override image at binding 0.
pub fn sprite_custom_material_slot() -> (slot: CustomMaterialSlot)
    ensures
        slot.pass_index == 0,
        slot.descriptor_set_index == 1,
        slot.image_binding == 0,
{
    CustomMaterialSlot { pass_index: 0, descriptor_set_index: 1, image_binding: 0 }
}

/// The load state of an asset, as the asset loader reports it.
#[derive(Clone, Copy, Debug, PartialEq, Eq, Structural)]
pub enum LoadStatus {
    /// Nobody holds a reference to the asset.
    NotRequested,
    Loading,
    Loaded,
    Unloading,
    /// The asset daemon knows no asset with that id.
    DoesNotExist,
    /// Loading failed.
    Error,
}

/// What waiting for an essential asset does after one update of the asset
/// system and the renderer's resources.
#[derive(Clone, Copy, Debug, PartialEq, Eq, Structural)]
pub enum WaitDecision {
    /// Still loading: note that creation is blocked, sleep this many
    /// milliseconds, and update again.
    Sleep { millis: u64 },
    /// Loaded: stop waiting.
    Done,
    /// Report that the essential asset was not found, and update again.
    ReportMissing,
    /// Report the loading error, and update again.
    ReportError,
}

/// The decision of one step of waiting for an essential asset.
pub open spec fn spec_wait_decision(status: LoadStatus) -> WaitDecision {
    match status {
        LoadStatus::Loading => WaitDecision::Sleep { millis: 100 },
        LoadStatus::Loaded => WaitDecision::Done,
        LoadStatus::DoesNotExist => WaitDecision::ReportMissing,
        _ => WaitDecision::ReportError,
    }
}

/// One step of waiting for an essential asset that was requested and is
/// being held: sleep 100 ms while it loads, stop once it has loaded, and
/// report a missing asset or a loading error before trying again. A status
/// of `NotRequested` or `Unloading` cannot occur for an asset the caller
/// holds a handle to, and is not accepted.
pub fn wait_decision(status: LoadStatus) -> (decision: WaitDecision)
    requires
        status != LoadStatus::NotRequested,
        status != LoadStatus::Unloading,
    ensures
        decision == spec_wait_decision(status),
{
    match status {
        LoadStatus::Loading => WaitDecision::Sleep { millis: 100 },
        LoadStatus::Loaded => WaitDecision::Done,
        LoadStatus::DoesNotExist => WaitDecision::ReportMissing,
        _ => WaitDecision::ReportError,
    }
}

/// Waiting stops exactly when the asset has loaded: a missing asset or a
/// loading error is reported and waited on again, never given up on.
pub proof fn lemma_wait_stops_only_when_loaded(status: LoadStatus)
    requires
        status != LoadStatus::NotRequested,
        status != LoadStatus::Unloading,
    ensures
        (spec_wait_decision(status) == WaitDecision::Done) <==> (status == LoadStatus::Loaded),
{
}

/// The command buffers of one frame: the sprite pass's buffer for the
/// swapchain image being presented when the sprite pass exists, then the UI's
/// buffers.
pub open spec fn spec_frame_command_buffers<B>(
    sprite_pass_buffers: Option<Seq<B>>,
    present_index: int,
    ui: Seq<B>,
) -> Seq<B> {
    match sprite_pass_buffers {
        Some(bs) => seq![bs[present_index]] + ui,
        None => ui,
    }
}

/// A frame with the sprite pass submits first the sprite pass's buffer
/// recorded for the presented swapchain image itself, then every UI buffer in
/// order; a frame without the sprite pass submits the UI buffers alone.
pub proof fn lemma_frame_submits_presented_image_buffer<B>(
    sprite_pass_buffers: Seq<B>,
    present_index: int,
    ui: Seq<B>,
)
    requires
        0 <= present_index < sprite_pass_buffers.len(),
    ensures
        spec_frame_command_buffers(Some(sprite_pass_buffers), present_index, ui).len() == ui.len()
            + 1,
        spec_frame_command_buffers(Some(sprite_pass_buffers), present_index, ui)[0]
            == sprite_pass_buffers[present_index],
        forall|j: int|
            0 <= j < ui.len() ==> #[trigger] spec_frame_command_buffers(
                Some(sprite_pass_buffers),
                present_index,
                ui,
            )[j + 1] == ui[j],
        spec_frame_command_buffers(None, present_index, ui) == ui,
{
}

/// Orders the command buffers of one frame for submission: the sprite pass's
/// buffer for swapchain image `present_index` first (when the sprite pass
/// exists), then the UI's. The sprite pass keeps one buffer per swapchain
/// image, so `present_index` must name one of them.
pub fn frame_command_buffers<B: Copy>(
    sprite_pass_buffers: Option<&[B]>,
    present_index: usize,
    ui: Vec<B>,
) -> (buffers: Vec<B>)
    requires
        sprite_pass_buffers matches Some(bs) ==> present_index < bs@.len(),
    ensures
        buffers@ == spec_frame_command_buffers(
            match sprite_pass_buffers {
                Some(bs) => Some(bs@),
                None => None,
            },
            present_index as int,
            ui@,
        ),
        sprite_pass_buffers matches Some(bs) ==> {
            &&& buffers@.len() == ui@.len() + 1
            &&& buffers@[0] == bs@[present_index as int]
            &&& buffers@.subrange(1, buffers@.len() as int) == ui@
        },
        sprite_pass_buffers is None ==> buffers@ == ui@,
{
    let mut buffers = Vec::new();
    let mut ui = ui;
    match sprite_pass_buffers {
        Some(bs) => {
            buffers.push(bs[present_index]);
        },
        None => {},
    }
    buffers.append(&mut ui);
    buffers
}


/// Which optional parts of the game renderer exist: the sprite render pass
/// (built for the current swapchain) and the sprites' custom material (built
/// once, when the renderer is created).
#[derive(Clone, Copy, Debug, PartialEq, Eq, Structural)]
pub struct RendererParts {
    pub sprite_renderpass: bool,
    pub custom_material: bool,
}

/// What happens to the game renderer.
#[derive(Clone, Copy, Debug, PartialEq, Eq, Structural)]
pub enum RendererEvent {
    /// Creation finished: the custom material has been built.
    Created,
    /// A swapchain was created and the sprite render pass built for it.
    SwapchainCreated,
    /// The swapchain was destroyed: the sprite render pass and the custom
    /// material are dropped.
    SwapchainDestroyed,
}

/// The parts of the renderer after an event.
pub open spec fn spec_parts_after(parts: RendererParts, event: RendererEvent) -> RendererParts {
    match event {
        RendererEvent::Created => RendererParts { sprite_renderpass: parts.sprite_renderpass, custom_material: true },
        RendererEvent::SwapchainCreated => RendererParts { sprite_renderpass: true, custom_material: parts.custom_material },
        RendererEvent::SwapchainDestroyed => RendererParts { sprite_renderpass: false, custom_material: false },
    }
}

/// The parts of a renderer that creation has not finished yet.
pub fn new_renderer_parts() -> (parts: RendererParts)
    ensures
        !parts.sprite_renderpass,
        !parts.custom_material,
{
    RendererParts { sprite_renderpass: false, custom_material: false }
}

/// The parts of the renderer after an event: creation builds the custom
/// material, a new swapchain builds the sprite render pass, and destroying the
/// swapchain drops both (the custom material is not built again).
pub fn parts_after(parts: RendererParts, event: RendererEvent) -> (next: RendererParts)
    ensures
        next == spec_parts_after(parts, event),
{
    match event {
        RendererEvent::Created => RendererParts { sprite_renderpass: parts.sprite_renderpass, custom_material: true },
        RendererEvent::SwapchainCreated => RendererParts { sprite_renderpass: true, custom_material: parts.custom_material },
        RendererEvent::SwapchainDestroyed => RendererParts { sprite_renderpass: false, custom_material: false },
    }
}

/// Rendering binds the custom material's descriptor set, so it needs the
/// custom material; the sprite pass is drawn only when it exists.
pub fn can_render(parts: RendererParts) -> (ok: bool)
    ensures
        ok == parts.custom_material,
{
    parts.custom_material
}

/// The parts after a sequence of events.
pub open spec fn spec_parts_after_all(parts: RendererParts, events: Seq<RendererEvent>) -> RendererParts
    decreases events.len(),
{
    if events.len() == 0 {
        parts
    } else {
        spec_parts_after_all(spec_parts_after(parts, events[0]), events.drop_first())
    }
}

/// Once the swapchain has been destroyed, no later swapchain events bring
/// the custom material back: without a new creation the renderer cannot
/// render again, however many swapchains are created after.
pub proof fn lemma_no_render_after_swapchain_destroyed(
    parts: RendererParts,
    later: Seq<RendererEvent>,
)
    requires
        forall|i: int| 0 <= i < later.len() ==> later[i] != RendererEvent::Created,
    ensures
        !spec_parts_after_all(
            spec_parts_after(parts, RendererEvent::SwapchainDestroyed),
            later,
        ).custom_material,
{
    lemma_stays_without_material(spec_parts_after(parts, RendererEvent::SwapchainDestroyed), later);
}

/// Without a creation event, a renderer without its custom material stays
/// without it.
pub proof fn lemma_stays_without_material(parts: RendererParts, later: Seq<RendererEvent>)
    requires
        !parts.custom_material,
        forall|i: int| 0 <= i < later.len() ==> later[i] != RendererEvent::Created,
    ensures
        !spec_parts_after_all(parts, later).custom_material,
    decreases later.len(),
{
    if later.len() > 0 {
        assert(later[0] != RendererEvent::Created);
        let rest = later.drop_first();
        assert forall|i: int| 0 <= i < rest.len() implies rest[i] != RendererEvent::Created by {
            assert(rest[i] == later[i + 1]);
        }
        lemma_stays_without_material(spec_parts_after(parts, later[0]), rest);
    }
}

} // verus!
