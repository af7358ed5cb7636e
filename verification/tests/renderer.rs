use rafx_renderer::renderer::RendererAssetKind::{
    Buffer, GltfMaterial, Image, Material, MaterialInstance, Mesh, Pipeline, Renderpass, Shader,
};
use rafx_renderer::renderer::{
    can_render, new_renderer_parts, parts_after, RendererEvent,
    frame_command_buffers, game_renderer_essential_assets, game_renderer_storages,
    renderer_asset_storages, sprite_custom_material_slot, wait_decision, LoadStatus,
    RendererAssetKind, StorageRegistration, WaitDecision,
};

fn handled(kind: RendererAssetKind) -> StorageRegistration {
    StorageRegistration { kind, with_load_handler: true }
}

#[test]
fn renderer_assets_register_in_order() {
    let expected = vec![
        handled(Shader),
        handled(Pipeline),
        handled(Renderpass),
        handled(Material),
        handled(MaterialInstance),
        handled(Image),
        handled(Buffer),
        handled(Mesh),
        StorageRegistration { kind: GltfMaterial, with_load_handler: false },
    ];
    assert_eq!(renderer_asset_storages(), expected);
}

#[test]
fn game_renderer_registers_in_order() {
    let expected = vec![handled(Shader), handled(Pipeline), handled(Material), handled(MaterialInstance), handled(Image)];
    assert_eq!(game_renderer_storages(), expected);
}

#[test]
fn essential_assets_match_their_uuids() {
    let assets = game_renderer_essential_assets();
    assert_eq!(assets.len(), 3);
    let as_uuid = |b: [u8; 16]| uuid::Uuid::from_bytes(b).to_string();
    assert_eq!(as_uuid(assets[0].id.0), "f8c4897e-7c1d-4736-93b7-f2deda158ec7");
    assert_eq!(as_uuid(assets[1].id.0), "84d66f60-24b2-4eb2-b6ff-8dbc4d69e2c5");
    assert_eq!(as_uuid(assets[2].id.0), "b7753a66-1b26-4152-ad61-93584f4442aa");
    assert!(assets[0].wait_until_loaded && assets[1].wait_until_loaded);
    assert!(!assets[2].wait_until_loaded);
    assert_eq!(assets[2].kind, RendererAssetKind::Image);
}

#[test]
fn custom_material_slot() {
    let slot = sprite_custom_material_slot();
    assert_eq!((slot.pass_index, slot.descriptor_set_index, slot.image_binding), (0, 1, 0));
}

#[test]
fn waiting_decisions() {
    assert_eq!(wait_decision(LoadStatus::Loading), WaitDecision::Sleep { millis: 100 });
    assert_eq!(wait_decision(LoadStatus::Loaded), WaitDecision::Done);
    assert_eq!(wait_decision(LoadStatus::DoesNotExist), WaitDecision::ReportMissing);
    assert_eq!(wait_decision(LoadStatus::Error), WaitDecision::ReportError);
}

#[test]
fn frame_puts_sprite_pass_first() {
    let sprite = [10u64, 11, 12];
    let buffers = frame_command_buffers(Some(&sprite[..]), 1, vec![20, 21]);
    assert_eq!(buffers, vec![11, 20, 21]);
}

#[test]
fn frame_without_sprite_pass_is_ui_only() {
    let buffers = frame_command_buffers::<u64>(None, 5, vec![20]);
    assert_eq!(buffers, vec![20]);
}

#[test]
fn renderer_parts_through_a_swapchain_rebuild() {
    let parts = new_renderer_parts();
    assert!(!can_render(parts));
    let parts = parts_after(parts, RendererEvent::Created);
    assert!(can_render(parts) && !parts.sprite_renderpass);
    let parts = parts_after(parts, RendererEvent::SwapchainCreated);
    assert!(can_render(parts) && parts.sprite_renderpass);
    let parts = parts_after(parts, RendererEvent::SwapchainDestroyed);
    assert!(!can_render(parts) && !parts.sprite_renderpass);
    let parts = parts_after(parts, RendererEvent::SwapchainCreated);
    assert!(!can_render(parts) && parts.sprite_renderpass);
}
