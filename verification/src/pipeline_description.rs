use vstd::prelude::*;

verus! {

/// Which attachment of the render pass a reference names.
#[derive(Clone, Copy, Debug, PartialEq, Eq, Structural)]
pub enum AttachmentIndex {
    /// No attachment: the slot is unused.
    Unused,
    /// The attachment at this index of the render pass's attachments.
    Index(u32),
}

/// The layout an attachment is in while a subpass uses it.
#[derive(Clone, Copy, Debug, PartialEq, Eq, Structural)]
pub enum ImageLayout {
    Undefined,
    General,
    ColorAttachmentOptimal,
    DepthStencilAttachmentOptimal,
    DepthStencilReadOnlyOptimal,
    ShaderReadOnlyOptimal,
    TransferSrcOptimal,
    TransferDstOptimal,
    Preinitialized,
    PresentSrcKhr,
}

impl Default for ImageLayout {
    fn default() -> (l: Self)
        ensures
            l is Undefined,
    {
        ImageLayout::Undefined
    }
}

/// A reference from a subpass to an attachment, with the layout it is used in.
#[derive(Clone, Copy, Debug, PartialEq, Eq, Structural)]
pub struct AttachmentReference {
    pub attachment: AttachmentIndex,
    pub layout: ImageLayout,
}

/// The pipeline kind a subpass binds.
#[derive(Clone, Copy, Debug, PartialEq, Eq, Structural)]
pub enum PipelineBindPoint {
    Graphics,
    Compute,
}

/// How one subpass of a render pass uses the attachments.
pub struct SubpassDescription {
    pub pipeline_bind_point: PipelineBindPoint,
    pub input_attachments: Vec<AttachmentReference>,
    pub color_attachments: Vec<AttachmentReference>,
    /// Multisample resolve targets, one per color attachment when present.
    pub resolve_attachments: Vec<AttachmentReference>,
    pub depth_stencil_attachment: Option<AttachmentReference>,
}

/// What the render pass is built from for one subpass.
pub struct SubpassPlan {
    pub pipeline_bind_point: PipelineBindPoint,
    pub color_attachments: Vec<AttachmentReference>,
    pub input_attachments: Vec<AttachmentReference>,
    /// Empty when the subpass resolves nothing (and no resolve list is handed
    /// to Vulkan); otherwise exactly as long as `color_attachments`.
    pub resolve_attachments: Vec<AttachmentReference>,
    pub depth_stencil_attachment: Option<AttachmentReference>,
    /// The description named more resolve attachments than color
    /// attachments, and the extra ones were dropped (worth a warning).
    pub discarded_resolve_attachments: bool,
}

/// The reference that fills a resolve slot with no resolve target.
pub open spec fn unused_attachment_reference() -> AttachmentReference {
    AttachmentReference { attachment: AttachmentIndex::Unused, layout: ImageLayout::Undefined }
}

/// The resolve list handed to Vulkan: none when the description names none;
/// otherwise one per color attachment, the named ones first (extra ones
/// dropped) and unused references after them.
pub open spec fn planned_resolve(
    color_count: nat,
    resolve: Seq<AttachmentReference>,
) -> Seq<AttachmentReference> {
    if resolve.len() == 0 {
        Seq::empty()
    } else {
        Seq::new(
            color_count,
            |i: int|
                if i < resolve.len() {
                    resolve[i]
                } else {
                    unused_attachment_reference()
                },
        )
    }
}

/// `p` is the plan of subpass `s`.
pub open spec fn plans_subpass(p: SubpassPlan, s: SubpassDescription) -> bool {
    &&& p.pipeline_bind_point == s.pipeline_bind_point
    &&& p.color_attachments@ == s.color_attachments@
    &&& p.input_attachments@ == s.input_attachments@
    &&& p.resolve_attachments@ == planned_resolve(
        s.color_attachments@.len(),
        s.resolve_attachments@,
    )
    &&& p.depth_stencil_attachment == s.depth_stencil_attachment
    &&& p.discarded_resolve_attachments == (s.resolve_attachments@.len()
        > s.color_attachments@.len())
}

fn copy_references(refs: &Vec<AttachmentReference>) -> (copy: Vec<AttachmentReference>)
    ensures
        copy@ == refs@,
{
    let mut copy = Vec::new();
    let n = refs.len();
    for i in 0..n
        invariant
            n == refs@.len(),
            copy@ == refs@.take(i as int),
    {
        copy.push(refs[i]);
        assert(refs@.take(i + 1) == refs@.take(i as int).push(refs@[i as int]));
    }
    assert(refs@.take(n as int) == refs@);
    copy
}

/// The resolve list of a subpass: empty when the description names no
/// resolve attachment; otherwise truncated or padded with unused references
/// to the number of color attachments.
pub fn plan_resolve_attachments(
    color_count: usize,
    resolve: &Vec<AttachmentReference>,
) -> (planned: Vec<AttachmentReference>)
    ensures
        planned@ == planned_resolve(color_count as nat, resolve@),
{
    let mut planned: Vec<AttachmentReference> = Vec::new();
    if resolve.len() == 0 {
        return planned;
    }
    let unused = AttachmentReference {
        attachment: AttachmentIndex::Unused,
        layout: ImageLayout::default(),
    };
    let mut i: usize = 0;
    while i < color_count
        invariant
            i <= color_count,
            resolve@.len() > 0,
            unused == unused_attachment_reference(),
            planned@ == planned_resolve(color_count as nat, resolve@).take(i as int),
        decreases color_count - i,
    {
        if i < resolve.len() {
            planned.push(resolve[i]);
        } else {
            planned.push(unused);
        }
        assert(planned_resolve(color_count as nat, resolve@).take(i + 1) == planned_resolve(
            color_count as nat,
            resolve@,
        ).take(i as int).push(planned_resolve(color_count as nat, resolve@)[i as int]));
        i = i + 1;
    }
    assert(planned_resolve(color_count as nat, resolve@).take(color_count as int)
        == planned_resolve(color_count as nat, resolve@));
    planned
}

/// Plans one subpass: its color and input references as described, its
/// resolve list fitted to the color attachments, and its depth/stencil
/// reference if it has one.
pub fn plan_subpass(subpass: &SubpassDescription) -> (plan: SubpassPlan)
    ensures
        plans_subpass(plan, *subpass),
{
    let color_attachments = copy_references(&subpass.color_attachments);
    let input_attachments = copy_references(&subpass.input_attachments);
    let resolve_attachments = plan_resolve_attachments(
        subpass.color_attachments.len(),
        &subpass.resolve_attachments,
    );
    SubpassPlan {
        pipeline_bind_point: subpass.pipeline_bind_point,
        color_attachments,
        input_attachments,
        resolve_attachments,
        depth_stencil_attachment: subpass.depth_stencil_attachment,
        discarded_resolve_attachments: subpass.resolve_attachments.len()
            > subpass.color_attachments.len(),
    }
}

/// Plans every subpass of a render pass, in order.
pub fn plan_subpasses(subpasses: &Vec<SubpassDescription>) -> (plans: Vec<SubpassPlan>)
    ensures
        plans@.len() == subpasses@.len(),
        forall|i: int| 0 <= i < subpasses@.len() ==> plans_subpass(#[trigger] plans@[i], subpasses@[i]),
{
    let mut plans: Vec<SubpassPlan> = Vec::new();
    let n = subpasses.len();
    for i in 0..n
        invariant
            n == subpasses@.len(),
            plans@.len() == i,
            forall|j: int| 0 <= j < i ==> plans_subpass(#[trigger] plans@[j], subpasses@[j]),
    {
        let plan = plan_subpass(&subpasses[i]);
        plans.push(plan);
    }
    plans
}

/// The resolve list a subpass hands to Vulkan is either absent or exactly as
/// long as its color list; the named resolve targets keep their slots, extra
/// ones are dropped, and missing ones are unused references.
pub proof fn lemma_resolve_fits_color_attachments(
    color_count: nat,
    resolve: Seq<AttachmentReference>,
)
    ensures
        planned_resolve(color_count, resolve).len() == 0 || planned_resolve(color_count, resolve).len()
            == color_count,
        resolve.len() == 0 ==> planned_resolve(color_count, resolve).len() == 0,
        resolve.len() > 0 ==> planned_resolve(color_count, resolve).len() == color_count,
        forall|i: int|
            0 <= i < color_count && i < resolve.len() ==> #[trigger] planned_resolve(
                color_count,
                resolve,
            )[i] == resolve[i],
        forall|i: int|
            0 <= i < color_count && resolve.len() <= i && 0 < resolve.len()
                ==> #[trigger] planned_resolve(color_count, resolve)[i]
                == unused_attachment_reference(),
{
}


/// A shader stage of a graphics pipeline.
#[derive(Clone, Copy, Debug, PartialEq, Eq, Structural)]
pub enum ShaderStage {
    Vertex,
    TessellationControl,
    TessellationEvaluation,
    Geometry,
    Fragment,
    Compute,
    AllGraphics,
    All,
}

/// One shader stage of a graphics pipeline description: the stage and the
/// bytes of the name of the shader's entry point (without a terminating nul).
pub struct PipelineShaderStage {
    pub stage: ShaderStage,
    pub entry_name: Vec<u8>,
}

/// A shader stage bound to the shader module (by its raw handle) that runs it.
pub struct ShaderStagePlan<M> {
    pub stage: ShaderStage,
    pub module: M,
    pub entry_name: Vec<u8>,
}

fn copy_bytes(bytes: &Vec<u8>) -> (copy: Vec<u8>)
    ensures
        copy@ == bytes@,
{
    let mut copy = Vec::new();
    let n = bytes.len();
    for i in 0..n
        invariant
            n == bytes@.len(),
            copy@ == bytes@.take(i as int),
    {
        copy.push(bytes[i]);
        assert(bytes@.take(i + 1) == bytes@.take(i as int).push(bytes@[i as int]));
    }
    assert(bytes@.take(n as int) == bytes@);
    copy
}

/// Pairs the pipeline's shader stages with the shader modules, position by
/// position; stages or modules beyond the shorter list are left out.
pub fn plan_shader_stages<M: Copy>(
    stages: &Vec<PipelineShaderStage>,
    shader_modules: &[M],
) -> (plans: Vec<ShaderStagePlan<M>>)
    ensures
        plans@.len() == if stages@.len() <= shader_modules@.len() {
            stages@.len()
        } else {
            shader_modules@.len()
        },
        forall|i: int|
            0 <= i < plans@.len() ==> {
                &&& (#[trigger] plans@[i]).stage == stages@[i].stage
                &&& plans@[i].module == shader_modules@[i]
                &&& plans@[i].entry_name@ == stages@[i].entry_name@
            },
{
    let n = if stages.len() <= shader_modules.len() {
        stages.len()
    } else {
        shader_modules.len()
    };
    let mut plans: Vec<ShaderStagePlan<M>> = Vec::new();
    for i in 0..n
        invariant
            n <= stages@.len(),
            n <= shader_modules@.len(),
            plans@.len() == i,
            forall|j: int|
                0 <= j < i ==> {
                    &&& (#[trigger] plans@[j]).stage == stages@[j].stage
                    &&& plans@[j].module == shader_modules@[j]
                    &&& plans@[j].entry_name@ == stages@[j].entry_name@
                },
    {
        let stage = &stages[i];
        let module = shader_modules[i];
        plans.push(
            ShaderStagePlan { stage: stage.stage, module, entry_name: copy_bytes(&stage.entry_name) },
        );
    }
    plans
}

/// The outcome of creating one graphics pipeline from a batch call that
/// creates one pipeline per create-info: the first pipeline on success, and
/// on failure the error code (the partially created pipelines are dropped).
pub fn first_created_pipeline<H, E>(created: Result<Vec<H>, (Vec<H>, E)>) -> (r: Result<H, E>)
    requires
        created matches Ok(pipelines) ==> pipelines@.len() > 0,
    ensures
        match created {
            Ok(pipelines) => r == Ok::<H, E>(pipelines@[0]),
            Err((_, e)) => r == Err::<H, E>(e),
        },
{
    match created {
        Ok(mut pipelines) => Ok(pipelines.swap_remove(0)),
        Err((_, e)) => Err(e),
    }
}

} // verus!
