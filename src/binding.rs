//! The two-texture layout of the kernel and the per-frame bind group that
//! attaches the current image pair to it.
use vstd::prelude::*;
use crate::image::TextureFormat;
use crate::simulation::GameOfLifeImage;
use crate::store::{ImageHandle, ImageStore};

verus! {

/// How the kernel may touch a storage texture.
#[derive(Clone, Copy, Debug, PartialEq, Eq, Structural)]
pub enum StorageTextureAccess {
    ReadOnly,
    WriteOnly,
}

/// One storage-texture slot of a bind group layout.
#[derive(Clone, Copy, Debug, PartialEq, Eq, Structural)]
pub struct BindGroupLayoutEntry {
    pub binding: u32,
    pub access: StorageTextureAccess,
    pub format: TextureFormat,
}

/// The slots a bind group must fill, in order.
#[derive(Debug)]
pub struct BindGroupLayout {
    pub entries: Vec<BindGroupLayoutEntry>,
}

/// One image attached to one slot.
#[derive(Clone, Copy, Debug, PartialEq, Eq, Structural)]
pub struct BindGroupEntry {
    pub binding: u32,
    pub image: ImageHandle,
}

/// The images attached to the slots of a layout for one frame.
#[derive(Debug)]
pub struct BindGroup {
    pub entries: Vec<BindGroupEntry>,
}

/// Slot 0 reads the current generation, slot 1 receives the next one; both RGBA8.
pub open spec fn image_pair_layout() -> Seq<BindGroupLayoutEntry> {
    seq![
        BindGroupLayoutEntry {
            binding: 0,
            access: StorageTextureAccess::ReadOnly,
            format: TextureFormat::Rgba8Unorm,
        },
        BindGroupLayoutEntry {
            binding: 1,
            access: StorageTextureAccess::WriteOnly,
            format: TextureFormat::Rgba8Unorm,
        },
    ]
}

/// The entries that bind `images` to the pair layout.
pub open spec fn image_pair_entries(images: GameOfLifeImage) -> Seq<BindGroupEntry> {
    seq![
        BindGroupEntry { binding: 0, image: images.read_texture },
        BindGroupEntry { binding: 1, image: images.write_texture },
    ]
}

/// Every slot of `layout` is filled, in the layout's order.
pub open spec fn entries_match(entries: Seq<BindGroupEntry>, layout: Seq<BindGroupLayoutEntry>) -> bool {
    &&& entries.len() == layout.len()
    &&& forall|i: int| 0 <= i < entries.len() ==> #[trigger] entries[i].binding == layout[i].binding
}

/// Builds the layout that the simulation kernel is compiled against.
pub fn texture_bind_group_layout() -> (r: BindGroupLayout)
    ensures
        r.entries@ == image_pair_layout(),
{
    let mut entries: Vec<BindGroupLayoutEntry> = Vec::new();
    entries.push(
        BindGroupLayoutEntry {
            binding: 0,
            access: StorageTextureAccess::ReadOnly,
            format: TextureFormat::Rgba8Unorm,
        },
    );
    entries.push(
        BindGroupLayoutEntry {
            binding: 1,
            access: StorageTextureAccess::WriteOnly,
            format: TextureFormat::Rgba8Unorm,
        },
    );
    assert(entries@ =~= image_pair_layout());
    BindGroupLayout { entries }
}

/// Attaches the current pair to `layout`, `read` first and `write` second.
/// When either image is not yet resident on the GPU, nothing is built and the
/// frame goes without a bind group.
pub fn prepare_bind_group(
    layout: &BindGroupLayout,
    images: &GameOfLifeImage,
    read_resident: bool,
    write_resident: bool,
) -> (r: Option<BindGroup>)
    requires
        layout.entries@ == image_pair_layout(),
    ensures
        r is Some <==> read_resident && write_resident,
        r matches Some(bg) ==> bg.entries@ == image_pair_entries(*images) && entries_match(
            bg.entries@,
            layout.entries@,
        ),
{
    if !read_resident || !write_resident {
        return None;
    }
    let mut entries: Vec<BindGroupEntry> = Vec::new();
    entries.push(BindGroupEntry { binding: layout.entries[0].binding, image: images.read_texture });
    entries.push(BindGroupEntry { binding: layout.entries[1].binding, image: images.write_texture });
    assert(entries@ =~= image_pair_entries(*images));
    Some(BindGroup { entries })
}

/// During a dispatch with the pair's bind group, the `read` image sits only in
/// read-only slots, and the `write` image in exactly one slot, a write-only one.
pub proof fn lemma_read_never_written(
    store: &ImageStore,
    images: GameOfLifeImage,
    entries: Seq<BindGroupEntry>,
)
    requires
        images.wf_in(store),
        entries == image_pair_entries(images),
    ensures
        forall|i: int|
            0 <= i < entries.len() && #[trigger] entries[i].image == images.read_texture
                ==> image_pair_layout()[i].access == StorageTextureAccess::ReadOnly,
        forall|i: int|
            0 <= i < entries.len() && #[trigger] entries[i].image == images.write_texture
                ==> i == 1 && image_pair_layout()[i].access == StorageTextureAccess::WriteOnly,
{
}

/// Where the simulation kernel's source is found among the assets.
pub open spec fn kernel_path() -> Seq<char> {
    "shaders/game_of_life.wgsl"@
}

/// The name of the kernel's entry point.
pub open spec fn kernel_entry_point() -> Seq<char> {
    "update"@
}

/// What the pipeline cache is asked to compile.
#[derive(Debug)]
pub struct ComputePipelineDescriptor {
    pub layout: BindGroupLayout,
    pub shader: String,
    pub entry_point: String,
    pub zero_initialize_workgroup_memory: bool,
}

/// The simulation kernel, compiled against the two-texture layout.
pub fn update_pipeline_descriptor() -> (r: ComputePipelineDescriptor)
    ensures
        r.layout.entries@ == image_pair_layout(),
        r.shader@ == kernel_path(),
        r.entry_point@ == kernel_entry_point(),
        r.zero_initialize_workgroup_memory,
{
    let shader = "shaders/game_of_life.wgsl".to_owned();
    let entry_point = "update".to_owned();
    ComputePipelineDescriptor {
        layout: texture_bind_group_layout(),
        shader,
        entry_point,
        zero_initialize_workgroup_memory: true,
    }
}

} // verus!
