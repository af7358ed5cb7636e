use vstd::prelude::*;

verus! {

/// The 16 bytes of an asset's UUID.
#[derive(Clone, Copy, Debug)]
pub struct AssetUuid(pub [u8; 16]);

/// A reference from one imported asset to another.
pub enum AssetRef {
    Uuid(AssetUuid),
    Path(String),
}

/// One asset produced by an importer.
pub struct ImportedAsset<P> {
    /// The asset's id.
    pub id: AssetUuid,
    /// Tags that asset tooling searches by.
    pub search_tags: Vec<(String, Option<String>)>,
    /// Assets handed to the builder with this one.
    pub build_deps: Vec<AssetRef>,
    /// Assets that load before this one.
    pub load_deps: Vec<AssetRef>,
    /// The build pipeline invoked for build artifacts, if any.
    pub build_pipeline: Option<AssetUuid>,
    /// The imported data.
    pub asset_data: P,
}

/// Everything an importer produced from one source.
pub struct ImporterValue<P> {
    pub assets: Vec<ImportedAsset<P>>,
}

/// `v` holds exactly one asset: `id` with `data`, no search tags, no
/// dependencies and no build pipeline.
pub open spec fn is_single_asset<P>(v: ImporterValue<P>, id: AssetUuid, data: P) -> bool {
    &&& v.assets@.len() == 1
    &&& v.assets@[0].id == id
    &&& v.assets@[0].search_tags@.len() == 0
    &&& v.assets@[0].build_deps@.len() == 0
    &&& v.assets@[0].load_deps@.len() == 0
    &&& v.assets@[0].build_pipeline is None
    &&& v.assets@[0].asset_data == data
}

fn single_asset<P>(id: AssetUuid, data: P) -> (v: ImporterValue<P>)
    ensures
        is_single_asset(v, id, data),
{
    let asset = ImportedAsset {
        id,
        search_tags: Vec::new(),
        build_deps: Vec::new(),
        load_deps: Vec::new(),
        build_pipeline: None,
        asset_data: data,
    };
    let mut assets = Vec::new();
    assets.push(asset);
    ImporterValue { assets }
}

/// Calls `uuid::Uuid::new_v4` and returns its bytes. The crate draws the bytes
/// from the operating system's random source, then sets the version nibble to
/// 4 (byte 6) and the RFC 4122 variant bits `10` (byte 8); the contract states
/// those bits and nothing of the random rest.
#[verifier::external_body]
fn random_uuid_bytes() -> (bytes: [u8; 16])
    ensures
        bytes@[6] / 16 == 4,
        bytes@[8] / 64 == 2,
{
    *uuid::Uuid::new_v4().as_bytes()
}

/// The id an import settles on: the one the importer state remembers, else
/// the freshly drawn one.
pub open spec fn settled_asset_id(remembered: Option<AssetUuid>, fresh: AssetUuid) -> AssetUuid {
    match remembered {
        Some(id) => id,
        None => fresh,
    }
}

/// Settles the asset id of an import: keeps the remembered id if there is
/// one, else adopts `fresh`; the state remembers the result afterwards.
pub fn settle_asset_id(remembered: &mut Option<AssetUuid>, fresh: AssetUuid) -> (id: AssetUuid)
    ensures
        id == settled_asset_id(*old(remembered), fresh),
        *final(remembered) == Some(id),
{
    let id = match *remembered {
        Some(id) => id,
        None => fresh,
    };
    *remembered = Some(id);
    id
}

/// Settles the asset id of an import, drawing a random version-4 UUID only
/// when the state remembers none.
pub fn assign_asset_id(remembered: &mut Option<AssetUuid>) -> (id: AssetUuid)
    ensures
        *final(remembered) == Some(id),
        old(remembered).is_some() ==> id == old(remembered).unwrap(),
        old(remembered).is_none() ==> id.0@[6] / 16 == 4 && id.0@[8] / 64 == 2,
{
    let fresh = match *remembered {
        Some(id) => id,
        None => AssetUuid(random_uuid_bytes()),
    };
    settle_asset_id(remembered, fresh)
}

/// Once an importer state remembers an id, settling again returns that id
/// whatever fresh id is offered, and the state keeps it: re-importing a
/// source keeps its asset id.
pub proof fn lemma_settled_id_is_stable(remembered: Option<AssetUuid>, first: AssetUuid, later: AssetUuid)
    ensures
        settled_asset_id(Some(settled_asset_id(remembered, first)), later)
            == settled_asset_id(remembered, first),
{
}


/// The Vulkan form of a shader.
pub enum VulkanShaderPackage {
    /// Compiled SPIR-V bytes.
    SpvBytes(Vec<u8>),
}

/// A shader in the forms the backends take. Imported raw SPIR-V fills the
/// Vulkan form only; every other backend's form stays absent.
pub struct ShaderPackage {
    pub vk: Option<VulkanShaderPackage>,
}

/// The importer state of a raw SPIR-V shader source: the asset id it was
/// given the first time it was imported.
pub struct ShaderImporterSpvState(pub Option<AssetUuid>);

impl Default for ShaderImporterSpvState {
    fn default() -> (s: Self)
        ensures
            s.0 is None,
    {
        ShaderImporterSpvState(None)
    }
}

/// Imports raw SPIR-V files as shader assets.
pub struct ShaderImporterSpv;

impl ShaderImporterSpv {
    /// The importer's format version.
    pub fn version_static() -> (v: u32)
        ensures
            v == 5,
    {
        5
    }

    /// The importer's format version.
    pub fn version(&self) -> (v: u32)
        ensures
            v == 5,
    {
        Self::version_static()
    }

    /// Imports one SPIR-V source, given the outcome of reading it. The asset
    /// id is settled first (kept if the state remembers one, else drawn at
    /// random), so the state remembers it even when reading failed; a read
    /// error is handed back unchanged. The asset holds the bytes, unchanged,
    /// as the shader's Vulkan form.
    pub fn import<E>(
        &self,
        state: &mut ShaderImporterSpvState,
        source: Result<Vec<u8>, E>,
    ) -> (r: Result<ImporterValue<ShaderPackage>, E>)
        ensures
            final(state).0 is Some,
            old(state).0 is Some ==> final(state).0 == old(state).0,
            old(state).0 is None ==> final(state).0.unwrap().0@[6] / 16 == 4
                && final(state).0.unwrap().0@[8] / 64 == 2,
            match source {
                Err(e) => r == Err::<ImporterValue<ShaderPackage>, E>(e),
                Ok(bytes) => r is Ok && is_single_asset(
                    r->Ok_0,
                    final(state).0.unwrap(),
                    ShaderPackage { vk: Some(VulkanShaderPackage::SpvBytes(bytes)) },
                ),
            },
    {
        let fresh = match state.0 {
            Some(id) => id,
            None => AssetUuid(random_uuid_bytes()),
        };
        self.import_with_fresh_id(state, fresh, source)
    }

    /// Imports one SPIR-V source with `fresh` as the id drawn for it: the
    /// asset id is the remembered one if there is one, else `fresh`, and the
    /// state remembers it afterwards (even when reading failed).
    pub fn import_with_fresh_id<E>(
        &self,
        state: &mut ShaderImporterSpvState,
        fresh: AssetUuid,
        source: Result<Vec<u8>, E>,
    ) -> (r: Result<ImporterValue<ShaderPackage>, E>)
        ensures
            final(state).0 == Some(settled_asset_id(old(state).0, fresh)),
            match source {
                Err(e) => r == Err::<ImporterValue<ShaderPackage>, E>(e),
                Ok(bytes) => r is Ok && is_single_asset(
                    r->Ok_0,
                    settled_asset_id(old(state).0, fresh),
                    ShaderPackage { vk: Some(VulkanShaderPackage::SpvBytes(bytes)) },
                ),
            },
    {
        let asset_id = settle_asset_id(&mut state.0, fresh);
        match source {
            Err(e) => Err(e),
            Ok(spv_bytes) => {
                let package = ShaderPackage { vk: Some(VulkanShaderPackage::SpvBytes(spv_bytes)) };
                Ok(single_asset(asset_id, package))
            },
        }
    }
}

/// The importer state of a cooked shader source: the asset id it was given
/// the first time it was imported.
pub struct ShaderImporterCookedState(pub Option<AssetUuid>);

impl Default for ShaderImporterCookedState {
    fn default() -> (s: Self)
        ensures
            s.0 is None,
    {
        ShaderImporterCookedState(None)
    }
}

/// Why a cooked shader import failed.
pub enum CookedImportError<E> {
    /// Reading the source failed.
    Read(E),
    /// The bytes did not decode as a hashed shader package; the message says
    /// so and carries the decoder's description.
    Deserialize(String),
}

/// The message of a failed decode, around the decoder's description.
pub open spec fn deserialize_failure_message(detail: Seq<char>) -> Seq<char> {
    "Failed to deserialize cooked shader: "@ + detail
}

/// Imports cooked (already hashed and serialized) shader packages.
pub struct ShaderImporterCooked;

impl ShaderImporterCooked {
    /// The importer's format version.
    pub fn version_static() -> (v: u32)
        ensures
            v == 5,
    {
        5
    }

    /// The importer's format version.
    pub fn version(&self) -> (v: u32)
        ensures
            v == 5,
    {
        Self::version_static()
    }

    /// Imports one cooked source, given the outcome of reading it and, if the
    /// read succeeded, of decoding its bytes (the decoded package, or the
    /// decoder's description of what went wrong). The asset id is settled
    /// first, so the state remembers it whatever fails after.
    pub fn import<P, E>(
        &self,
        state: &mut ShaderImporterCookedState,
        source: Result<Result<P, String>, E>,
    ) -> (r: Result<ImporterValue<P>, CookedImportError<E>>)
        ensures
            final(state).0 is Some,
            old(state).0 is Some ==> final(state).0 == old(state).0,
            old(state).0 is None ==> final(state).0.unwrap().0@[6] / 16 == 4
                && final(state).0.unwrap().0@[8] / 64 == 2,
            match source {
                Err(e) => r matches Err(CookedImportError::Read(e2)) && e2 == e,
                Ok(Err(detail)) => r matches Err(CookedImportError::Deserialize(m))
                    && m@ == deserialize_failure_message(detail@),
                Ok(Ok(package)) => r is Ok && is_single_asset(r->Ok_0, final(state).0.unwrap(), package),
            },
    {
        let fresh = match state.0 {
            Some(id) => id,
            None => AssetUuid(random_uuid_bytes()),
        };
        self.import_with_fresh_id(state, fresh, source)
    }

    /// Imports one cooked source with `fresh` as the id drawn for it: the
    /// asset id is the remembered one if there is one, else `fresh`, and the
    /// state remembers it afterwards, whatever fails.
    pub fn import_with_fresh_id<P, E>(
        &self,
        state: &mut ShaderImporterCookedState,
        fresh: AssetUuid,
        source: Result<Result<P, String>, E>,
    ) -> (r: Result<ImporterValue<P>, CookedImportError<E>>)
        ensures
            final(state).0 == Some(settled_asset_id(old(state).0, fresh)),
            match source {
                Err(e) => r matches Err(CookedImportError::Read(e2)) && e2 == e,
                Ok(Err(detail)) => r matches Err(CookedImportError::Deserialize(m))
                    && m@ == deserialize_failure_message(detail@),
                Ok(Ok(package)) => r is Ok && is_single_asset(
                    r->Ok_0,
                    settled_asset_id(old(state).0, fresh),
                    package,
                ),
            },
    {
        let asset_id = settle_asset_id(&mut state.0, fresh);
        match source {
            Err(e) => Err(CookedImportError::Read(e)),
            Ok(Err(detail)) => {
                let message = String::from_str("Failed to deserialize cooked shader: ").concat(detail.as_str());
                Err(CookedImportError::Deserialize(message))
            },
            Ok(Ok(package)) => Ok(single_asset(asset_id, package)),
        }
    }
}


/// An import with nothing remembered takes the id drawn for it, so imports
/// offered different draws get different asset ids, and an import with an id
/// remembered ignores the draw.
pub proof fn lemma_fresh_draw_becomes_asset_id(first: AssetUuid, second: AssetUuid, remembered: AssetUuid)
    ensures
        settled_asset_id(None, first) == first,
        first != second ==> settled_asset_id(None, first) != settled_asset_id(None, second),
        settled_asset_id(Some(remembered), first) == remembered,
{
}

} // verus!
