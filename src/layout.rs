use vstd::prelude::*;

verus! {

/// The shader stages that see a binding.
#[derive(Clone, Copy, Debug, PartialEq, Eq, Structural)]
pub enum ShaderStages {
    Vertex,
    Fragment,
    VertexFragment,
    Compute,
}

/// How a shader reads a buffer.
#[derive(Clone, Copy, Debug, PartialEq, Eq, Structural)]
pub enum BufferBindingType {
    Uniform,
    Storage { read_only: bool },
}

/// The declared type of a buffer binding; `min_binding_size` is the buffer's byte length.
#[derive(Clone, Copy, Debug, PartialEq, Eq, Structural)]
pub struct BindingType {
    pub ty: BufferBindingType,
    pub has_dynamic_offset: bool,
    pub min_binding_size: u64,
}

/// One entry of a bind-group layout (never an array binding).
#[derive(Clone, Copy, Debug, PartialEq, Eq, Structural)]
pub struct BindGroupLayoutEntry {
    pub binding: u32,
    pub visibility: ShaderStages,
    pub ty: BindingType,
}

pub fn create_bind_group_layout_entry(
    binding: u32,
    visibility: ShaderStages,
    binding_type: BindingType,
) -> (r: BindGroupLayoutEntry)
    ensures
        r == (BindGroupLayoutEntry { binding, visibility, ty: binding_type }),
{
    BindGroupLayoutEntry { binding, visibility, ty: binding_type }
}

pub fn create_compute_bind_group_layout_entry(binding: u32, binding_type: BindingType) -> (r:
    BindGroupLayoutEntry)
    ensures
        r == (BindGroupLayoutEntry { binding, visibility: ShaderStages::Compute, ty: binding_type }),
{
    create_bind_group_layout_entry(binding, ShaderStages::Compute, binding_type)
}

pub fn create_fragment_bind_group_layout_entry(binding: u32, binding_type: BindingType) -> (r:
    BindGroupLayoutEntry)
    ensures
        r == (BindGroupLayoutEntry { binding, visibility: ShaderStages::Fragment, ty: binding_type }),
{
    create_bind_group_layout_entry(binding, ShaderStages::Fragment, binding_type)
}

pub fn create_vertex_bind_group_layout_entry(binding: u32, binding_type: BindingType) -> (r:
    BindGroupLayoutEntry)
    ensures
        r == (BindGroupLayoutEntry { binding, visibility: ShaderStages::Vertex, ty: binding_type }),
{
    create_bind_group_layout_entry(binding, ShaderStages::Vertex, binding_type)
}

pub fn create_render_bind_group_layout_entry(binding: u32, binding_type: BindingType) -> (r:
    BindGroupLayoutEntry)
    ensures
        r == (BindGroupLayoutEntry {
            binding,
            visibility: ShaderStages::VertexFragment,
            ty: binding_type,
        }),
{
    create_bind_group_layout_entry(binding, ShaderStages::VertexFragment, binding_type)
}

/// The binding type of a buffer of `size` bytes: uniform, or storage with the given
/// read-only flag; the minimum binding size is the whole buffer.
pub fn create_buffer_binding_type(
    storage: bool,
    read_only: bool,
    has_dynamic_offset: bool,
    size: u64,
) -> (r: BindingType)
    requires
        size > 0,
    ensures
        r.ty == (if storage {
            BufferBindingType::Storage { read_only }
        } else {
            BufferBindingType::Uniform
        }),
        r.has_dynamic_offset == has_dynamic_offset,
        r.min_binding_size == size,
{
    let ty = if storage {
        BufferBindingType::Storage { read_only }
    } else {
        BufferBindingType::Uniform
    };
    BindingType { ty, has_dynamic_offset, min_binding_size: size }
}

} // verus!
