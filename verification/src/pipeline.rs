//! The GPU resource schema the renderer is built against: bind-group
//! layouts for the compute, particle-render and background passes, the
//! multisample count, surface format selection, and compute dispatch
//! geometry.
//!
//! The layouts are pure data with exact contracts; the process around the
//! library translates each entry into the graphics API's descriptor.

use vstd::prelude::*;

verus! {

/// Samples per pixel of the offscreen anti-aliasing target.
pub const SAMPLE_COUNT: u32 = 4;

/// Threads per compute workgroup of the particle-advance kernel.
pub const WORKGROUP_SIZE: u32 = 64;

/// The shader stage a binding is visible to.
#[derive(Clone, Copy, PartialEq, Debug)]
pub enum ShaderStage {
    Vertex,
    Fragment,
    Compute,
}

/// The kind of resource bound at one slot.
#[derive(Clone, Copy, PartialEq, Debug)]
pub enum BindingKind {
    UniformBuffer,
    StorageBufferReadOnly,
    StorageBufferReadWrite,
    Texture2d,
    FilteringSampler,
}

/// One slot of a bind-group layout.
#[derive(Clone, Copy, PartialEq, Debug)]
pub struct LayoutEntry {
    pub binding: u32,
    pub stage: ShaderStage,
    pub kind: BindingKind,
}

/// The compute pass's bind group: the mutable particle buffer, the
/// window-size uniform and the delta-time uniform.
pub fn compute_bind_group_layout() -> (entries: Vec<LayoutEntry>)
    ensures
        entries@.len() == 3,
        entries@[0] == (LayoutEntry {
            binding: 0,
            stage: ShaderStage::Compute,
            kind: BindingKind::StorageBufferReadWrite,
        }),
        entries@[1] == (LayoutEntry {
            binding: 1,
            stage: ShaderStage::Compute,
            kind: BindingKind::UniformBuffer,
        }),
        entries@[2] == (LayoutEntry {
            binding: 2,
            stage: ShaderStage::Compute,
            kind: BindingKind::UniformBuffer,
        }),
{
    let mut entries: Vec<LayoutEntry> = Vec::new();
    entries.push(LayoutEntry {
        binding: 0,
        stage: ShaderStage::Compute,
        kind: BindingKind::StorageBufferReadWrite,
    });
    entries.push(LayoutEntry {
        binding: 1,
        stage: ShaderStage::Compute,
        kind: BindingKind::UniformBuffer,
    });
    entries.push(LayoutEntry {
        binding: 2,
        stage: ShaderStage::Compute,
        kind: BindingKind::UniformBuffer,
    });
    entries
}

/// The particle render pass's bind group: the read-only particle buffer and
/// the window-size and point-size uniforms in the vertex stage, the
/// intensity uniform in the fragment stage.
pub fn render_bind_group_layout() -> (entries: Vec<LayoutEntry>)
    ensures
        entries@.len() == 4,
        entries@[0] == (LayoutEntry {
            binding: 0,
            stage: ShaderStage::Vertex,
            kind: BindingKind::StorageBufferReadOnly,
        }),
        entries@[1] == (LayoutEntry {
            binding: 1,
            stage: ShaderStage::Vertex,
            kind: BindingKind::UniformBuffer,
        }),
        entries@[2] == (LayoutEntry {
            binding: 2,
            stage: ShaderStage::Vertex,
            kind: BindingKind::UniformBuffer,
        }),
        entries@[3] == (LayoutEntry {
            binding: 3,
            stage: ShaderStage::Fragment,
            kind: BindingKind::UniformBuffer,
        }),
{
    let mut entries: Vec<LayoutEntry> = Vec::new();
    entries.push(LayoutEntry {
        binding: 0,
        stage: ShaderStage::Vertex,
        kind: BindingKind::StorageBufferReadOnly,
    });
    entries.push(LayoutEntry {
        binding: 1,
        stage: ShaderStage::Vertex,
        kind: BindingKind::UniformBuffer,
    });
    entries.push(LayoutEntry {
        binding: 2,
        stage: ShaderStage::Vertex,
        kind: BindingKind::UniformBuffer,
    });
    entries.push(LayoutEntry {
        binding: 3,
        stage: ShaderStage::Fragment,
        kind: BindingKind::UniformBuffer,
    });
    entries
}

/// The background pass's bind group: the background texture and its sampler
/// in the fragment stage, the window-size and window-position uniforms in
/// the vertex stage.
pub fn background_bind_group_layout() -> (entries: Vec<LayoutEntry>)
    ensures
        entries@.len() == 4,
        entries@[0] == (LayoutEntry {
            binding: 0,
            stage: ShaderStage::Fragment,
            kind: BindingKind::Texture2d,
        }),
        entries@[1] == (LayoutEntry {
            binding: 1,
            stage: ShaderStage::Fragment,
            kind: BindingKind::FilteringSampler,
        }),
        entries@[2] == (LayoutEntry {
            binding: 2,
            stage: ShaderStage::Vertex,
            kind: BindingKind::UniformBuffer,
        }),
        entries@[3] == (LayoutEntry {
            binding: 3,
            stage: ShaderStage::Vertex,
            kind: BindingKind::UniformBuffer,
        }),
{
    let mut entries: Vec<LayoutEntry> = Vec::new();
    entries.push(LayoutEntry {
        binding: 0,
        stage: ShaderStage::Fragment,
        kind: BindingKind::Texture2d,
    });
    entries.push(LayoutEntry {
        binding: 1,
        stage: ShaderStage::Fragment,
        kind: BindingKind::FilteringSampler,
    });
    entries.push(LayoutEntry {
        binding: 2,
        stage: ShaderStage::Vertex,
        kind: BindingKind::UniformBuffer,
    });
    entries.push(LayoutEntry {
        binding: 3,
        stage: ShaderStage::Vertex,
        kind: BindingKind::UniformBuffer,
    });
    entries
}

/// Workgroups to dispatch so that every particle gets a thread: the count
/// divided by the workgroup size, rounded up.
pub fn dispatch_workgroups(points_count: u32) -> (n: u32)
    requires
        points_count <= u32::MAX - 63,
    ensures
        n == (points_count + WORKGROUP_SIZE - 1) / (WORKGROUP_SIZE as int),
        n * WORKGROUP_SIZE >= points_count,
        points_count > 0 ==> (n - 1) * WORKGROUP_SIZE < points_count,
{
    (points_count + (WORKGROUP_SIZE - 1)) / WORKGROUP_SIZE
}

/// The index of the surface format the renderer presents in: the first sRGB
/// format when one is offered, the first format otherwise.
pub fn choose_surface_format(is_srgb: &Vec<bool>) -> (idx: usize)
    requires
        is_srgb.len() > 0,
    ensures
        idx < is_srgb.len(),
        (exists|i: int| 0 <= i < is_srgb.len() && is_srgb@[i]) ==> is_srgb@[idx as int]
            && (forall|j: int| 0 <= j < idx ==> !is_srgb@[j]),
        !(exists|i: int| 0 <= i < is_srgb.len() && is_srgb@[i]) ==> idx == 0,
{
    let mut n: usize = 0;
    while n < is_srgb.len()
        invariant
            n <= is_srgb.len(),
            forall|j: int| 0 <= j < n ==> !is_srgb@[j],
        decreases is_srgb.len() - n,
    {
        if is_srgb[n] {
            return n;
        }
        n = n + 1;
    }
    0
}

} // verus!
