use rafx_renderer::importer::{
    assign_asset_id, settle_asset_id, AssetUuid, CookedImportError, ShaderImporterCooked,
    ShaderImporterCookedState, ShaderImporterSpv, ShaderImporterSpvState, VulkanShaderPackage,
};

fn id(n: u8) -> AssetUuid {
    AssetUuid([n; 16])
}

#[test]
fn importer_versions_are_five() {
    assert_eq!(ShaderImporterSpv::version_static(), 5);
    assert_eq!(ShaderImporterSpv.version(), 5);
    assert_eq!(ShaderImporterCooked::version_static(), 5);
    assert_eq!(ShaderImporterCooked.version(), 5);
}

#[test]
fn default_states_remember_no_id() {
    assert!(ShaderImporterSpvState::default().0.is_none());
    assert!(ShaderImporterCookedState::default().0.is_none());
}

#[test]
fn settle_keeps_remembered_id() {
    let mut remembered = Some(id(7));
    let got = settle_asset_id(&mut remembered, id(9));
    assert_eq!(got.0, [7; 16]);
    assert_eq!(remembered.unwrap().0, [7; 16]);
}

#[test]
fn settle_adopts_fresh_id_when_none() {
    let mut remembered = None;
    let got = settle_asset_id(&mut remembered, id(9));
    assert_eq!(got.0, [9; 16]);
    assert_eq!(remembered.unwrap().0, [9; 16]);
}

#[test]
fn settled_id_is_stable_across_imports() {
    let mut remembered = None;
    let first = settle_asset_id(&mut remembered, id(1));
    let second = settle_asset_id(&mut remembered, id(2));
    assert_eq!(first.0, second.0);
}

#[test]
fn assigned_random_id_is_version_four() {
    let mut remembered = None;
    let got = assign_asset_id(&mut remembered);
    assert_eq!(got.0[6] >> 4, 4);
    assert_eq!(got.0[8] >> 6, 2);
    assert_eq!(remembered.unwrap().0, got.0);
}

#[test]
fn assigned_random_ids_differ() {
    let a = assign_asset_id(&mut None);
    let b = assign_asset_id(&mut None);
    assert_ne!(a.0, b.0);
}

#[test]
fn spv_import_wraps_bytes_in_one_asset() {
    let mut state = ShaderImporterSpvState(Some(id(3)));
    let value = ShaderImporterSpv
        .import::<String>(&mut state, Ok(vec![1, 2, 3]))
        .unwrap();
    assert_eq!(value.assets.len(), 1);
    let asset = &value.assets[0];
    assert_eq!(asset.id.0, [3; 16]);
    assert!(asset.search_tags.is_empty());
    assert!(asset.build_deps.is_empty());
    assert!(asset.load_deps.is_empty());
    assert!(asset.build_pipeline.is_none());
    match &asset.asset_data.vk {
        Some(VulkanShaderPackage::SpvBytes(bytes)) => assert_eq!(bytes, &vec![1, 2, 3]),
        None => panic!("no Vulkan form"),
    }
    assert_eq!(state.0.unwrap().0, [3; 16]);
}

#[test]
fn spv_import_twice_keeps_id() {
    let mut state = ShaderImporterSpvState::default();
    let first = ShaderImporterSpv.import::<String>(&mut state, Ok(vec![0])).unwrap();
    let second = ShaderImporterSpv.import::<String>(&mut state, Ok(vec![1])).unwrap();
    assert_eq!(first.assets[0].id.0, second.assets[0].id.0);
}

#[test]
fn spv_read_error_still_assigns_id() {
    let mut state = ShaderImporterSpvState::default();
    let r = ShaderImporterSpv.import(&mut state, Err("disk gone".to_string()));
    assert_eq!(r.err().unwrap(), "disk gone");
    assert!(state.0.is_some());
}

#[test]
fn cooked_import_wraps_package() {
    let mut state = ShaderImporterCookedState(Some(id(5)));
    let value = ShaderImporterCooked
        .import::<u64, String>(&mut state, Ok(Ok(42)))
        .ok()
        .unwrap();
    assert_eq!(value.assets.len(), 1);
    assert_eq!(value.assets[0].id.0, [5; 16]);
    assert_eq!(value.assets[0].asset_data, 42);
}

#[test]
fn cooked_decode_error_message() {
    let mut state = ShaderImporterCookedState::default();
    let r = ShaderImporterCooked.import::<u64, String>(&mut state, Ok(Err("Io(eof)".to_string())));
    match r {
        Err(CookedImportError::Deserialize(m)) => {
            assert_eq!(m, "Failed to deserialize cooked shader: Io(eof)")
        }
        _ => panic!("expected a decode error"),
    }
    assert!(state.0.is_some());
}

#[test]
fn cooked_read_error_is_passed_on() {
    let mut state = ShaderImporterCookedState(Some(id(8)));
    let r = ShaderImporterCooked.import::<u64, u32>(&mut state, Err(17));
    match r {
        Err(CookedImportError::Read(e)) => assert_eq!(e, 17),
        _ => panic!("expected a read error"),
    }
    assert_eq!(state.0.unwrap().0, [8; 16]);
}

#[test]
fn fresh_import_ids_are_version_four() {
    let mut spv = ShaderImporterSpvState::default();
    ShaderImporterSpv.import::<String>(&mut spv, Ok(vec![])).unwrap();
    let id = spv.0.unwrap().0;
    assert_eq!((id[6] >> 4, id[8] >> 6), (4, 2));
    let mut cooked = ShaderImporterCookedState::default();
    let _ = ShaderImporterCooked.import::<u64, String>(&mut cooked, Err("x".to_string()));
    let id = cooked.0.unwrap().0;
    assert_eq!((id[6] >> 4, id[8] >> 6), (4, 2));
}
