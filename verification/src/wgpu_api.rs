//! The trusted boundary to the wgpu GPU API: declarations of the opaque
//! device-side types the engine carries, and thin wrappers around the calls
//! it makes. Each wrapper's body holds one step of the wgpu protocol and is
//! believed, not verified. A call whose validation can reject an input the
//! engine cannot exclude is bracketed by an error scope and reports the
//! rejection as an absence; a call whose panic condition the engine does
//! exclude carries that condition as a `requires`, stated over the engine's
//! tracking structs where it concerns buffer state.

use vstd::prelude::*;
use wgpu::util::DeviceExt;
use crate::compute_shader::DispatchCommands;
use crate::compute_shader::StagingBuffer;
use crate::compute_shader::StorageBuffer;

verus! {

/// Largest buffer the engine allocates, in bytes: the baseline (downlevel)
/// limit wgpu places on a storage buffer binding, so that allocating and
/// binding a buffer of this size cannot fail validation.
pub const MAX_BUFFER_BYTES: u64 = 134217728;

/// Largest workgroup count the engine may dispatch along one grid axis: the
/// baseline (downlevel) per-dimension limit wgpu validates at pass end.
pub const MAX_GRID_DIM: u32 = 65535;

#[verifier::external_type_specification]
#[verifier::external_body]
pub struct ExInstance(wgpu::Instance);

#[verifier::external_type_specification]
#[verifier::external_body]
pub struct ExAdapter(wgpu::Adapter);

#[verifier::external_type_specification]
#[verifier::external_body]
pub struct ExDevice(wgpu::Device);

#[verifier::external_type_specification]
#[verifier::external_body]
pub struct ExQueue(wgpu::Queue);

#[verifier::external_type_specification]
#[verifier::external_body]
pub struct ExBuffer(wgpu::Buffer);

#[verifier::external_type_specification]
#[verifier::external_body]
pub struct ExShaderModule(wgpu::ShaderModule);

#[verifier::external_type_specification]
#[verifier::external_body]
pub struct ExComputePipeline(wgpu::ComputePipeline);

#[verifier::external_type_specification]
#[verifier::external_body]
pub struct ExBindGroupLayout(wgpu::BindGroupLayout);

#[verifier::external_type_specification]
#[verifier::external_body]
pub struct ExPipelineLayout(wgpu::PipelineLayout);

#[verifier::external_type_specification]
#[verifier::external_body]
pub struct ExBindGroup(wgpu::BindGroup);

#[verifier::external_type_specification]
#[verifier::external_body]
pub struct ExCommandEncoder(wgpu::CommandEncoder);

#[verifier::external_type_specification]
#[verifier::external_body]
pub struct ExCommandBuffer(wgpu::CommandBuffer);

/// Relies on wgpu::Instance::default: creates a GPU API instance over all
/// available backends.
#[verifier::external_body]
pub(crate) fn new_instance() -> wgpu::Instance {
    wgpu::Instance::default()
}

/// Relies on wgpu::Instance::request_adapter with default power and
/// compatibility options, resolved by pollster::block_on: yields a handle to
/// one available physical GPU, or `None` when no adapter matches.
#[verifier::external_body]
pub(crate) fn request_adapter_blocking(instance: &wgpu::Instance) -> Option<wgpu::Adapter> {
    pollster::block_on(instance.request_adapter(&wgpu::RequestAdapterOptions::default()))
}

/// Relies on wgpu::Adapter::request_device with an empty feature set and
/// baseline (downlevel) limits, resolved by pollster::block_on: opens the
/// logical device and its sole submission queue, or `None` when the driver
/// rejects the request.
#[verifier::external_body]
pub(crate) fn request_device_blocking(adapter: &wgpu::Adapter) -> Option<
    (wgpu::Device, wgpu::Queue),
> {
    let desc = wgpu::DeviceDescriptor {
        label: None,
        features: wgpu::Features::empty(),
        limits: wgpu::Limits::downlevel_defaults(),
    };
    pollster::block_on(adapter.request_device(&desc, None)).ok()
}

/// Relies on wgpu::Device::create_buffer: allocates an uninitialized
/// host-mappable buffer of exactly `size` bytes with usages MAP_READ and
/// COPY_DST. The size bounds keep the allocation within what the baseline
/// limits validate.
#[verifier::external_body]
pub(crate) fn create_raw_staging_buffer(device: &wgpu::Device, size: u64) -> wgpu::Buffer
    requires
        size % 4 == 0,
        size <= MAX_BUFFER_BYTES,
{
    device.create_buffer(
        &wgpu::BufferDescriptor {
            label: None,
            size,
            usage: wgpu::BufferUsages::MAP_READ | wgpu::BufferUsages::COPY_DST,
            mapped_at_creation: false,
        },
    )
}

/// Relies on wgpu::util::DeviceExt::create_buffer_init: allocates a buffer
/// holding `contents`, usable as a kernel storage buffer and as source and
/// destination of copies. With a non-empty length that is a multiple of
/// four, the allocated size is exactly `contents.len()`.
#[verifier::external_body]
pub(crate) fn create_raw_storage_buffer(device: &wgpu::Device, contents: &Vec<u8>) -> wgpu::Buffer
    requires
        contents@.len() % 4 == 0,
        4 <= contents@.len() <= MAX_BUFFER_BYTES,
{
    device.create_buffer_init(
        &wgpu::util::BufferInitDescriptor {
            label: Some("Storage Buffer"),
            contents: contents.as_slice(),
            usage: wgpu::BufferUsages::STORAGE | wgpu::BufferUsages::COPY_DST
                | wgpu::BufferUsages::COPY_SRC,
        },
    )
}

/// Relies on wgpu::Device::create_bind_group_layout with a fixed, statically
/// valid descriptor: the one layout the engine uses, a single read-write
/// storage buffer at binding 0, visible to compute.
#[verifier::external_body]
pub(crate) fn create_storage_bind_group_layout(device: &wgpu::Device) -> wgpu::BindGroupLayout {
    let ty = wgpu::BindingType::Buffer {
        ty: wgpu::BufferBindingType::Storage { read_only: false },
        has_dynamic_offset: false,
        min_binding_size: None,
    };
    let entry = wgpu::BindGroupLayoutEntry {
        binding: 0,
        visibility: wgpu::ShaderStages::COMPUTE,
        ty,
        count: None,
    };
    device.create_bind_group_layout(
        &wgpu::BindGroupLayoutDescriptor { label: None, entries: &[entry] },
    )
}

/// Relies on wgpu::Device::create_pipeline_layout: a pipeline layout holding
/// exactly the one bind-group layout, at group index 0, with no push
/// constants; statically valid.
#[verifier::external_body]
pub(crate) fn create_pipeline_layout_raw(
    device: &wgpu::Device,
    layout: &wgpu::BindGroupLayout,
) -> wgpu::PipelineLayout {
    device.create_pipeline_layout(
        &wgpu::PipelineLayoutDescriptor {
            label: None,
            bind_group_layouts: &[layout],
            push_constant_ranges: &[],
        },
    )
}

/// Relies on wgpu::Device::create_shader_module, bracketed by
/// wgpu::Device::push_error_scope and pop_error_scope: compiles textual
/// kernel source into a shader module. Returns `None` when validation
/// rejects the source; the error scope keeps the rejection away from the
/// device's fatal error handler.
#[verifier::external_body]
pub(crate) fn create_shader_module_checked(device: &wgpu::Device, shader: &str) -> Option<
    wgpu::ShaderModule,
> {
    device.push_error_scope(wgpu::ErrorFilter::Validation);
    let module = device.create_shader_module(
        wgpu::ShaderModuleDescriptor {
            label: None,
            source: wgpu::ShaderSource::Wgsl(std::borrow::Cow::Borrowed(shader)),
        },
    );
    match pollster::block_on(device.pop_error_scope()) {
        None => Some(module),
        Some(_) => None,
    }
}

/// Relies on wgpu::Device::create_compute_pipeline, bracketed by
/// wgpu::Device::push_error_scope and pop_error_scope: builds a compute
/// pipeline from `module` over the explicit pipeline `layout`, with the
/// fixed entry point name "main". Returns `None` when validation rejects the
/// module against the layout or the entry point is absent.
#[verifier::external_body]
pub(crate) fn create_compute_pipeline_checked(
    device: &wgpu::Device,
    module: &wgpu::ShaderModule,
    layout: &wgpu::PipelineLayout,
) -> Option<wgpu::ComputePipeline> {
    device.push_error_scope(wgpu::ErrorFilter::Validation);
    let pipeline = device.create_compute_pipeline(
        &wgpu::ComputePipelineDescriptor {
            label: None,
            layout: Some(layout),
            module,
            entry_point: "main",
        },
    );
    match pollster::block_on(device.pop_error_scope()) {
        None => Some(pipeline),
        Some(_) => None,
    }
}

/// Relies on wgpu::Device::create_bind_group, bracketed by
/// wgpu::Device::push_error_scope and pop_error_scope: binds `buffer` as the
/// sole entire-buffer resource at binding slot 0 of `layout`. Returns `None`
/// when validation rejects the binding (a zero-size or wrongly-used buffer).
#[verifier::external_body]
pub(crate) fn create_bind_group_checked(
    device: &wgpu::Device,
    layout: &wgpu::BindGroupLayout,
    buffer: &wgpu::Buffer,
) -> Option<wgpu::BindGroup> {
    device.push_error_scope(wgpu::ErrorFilter::Validation);
    let bind_group = device.create_bind_group(
        &wgpu::BindGroupDescriptor {
            label: None,
            layout,
            entries: &[
                wgpu::BindGroupEntry { binding: 0, resource: buffer.as_entire_binding() },
            ],
        },
    );
    match pollster::block_on(device.pop_error_scope()) {
        None => Some(bind_group),
        Some(_) => None,
    }
}

/// Relies on wgpu::Device::create_command_encoder: opens an empty command
/// encoder.
#[verifier::external_body]
pub(crate) fn create_command_encoder_raw(device: &wgpu::Device) -> wgpu::CommandEncoder {
    device.create_command_encoder(&wgpu::CommandEncoderDescriptor { label: None })
}

/// Relies on wgpu::CommandEncoder::begin_compute_pass and the pass methods
/// set_pipeline, set_bind_group and dispatch_workgroups, bracketed by
/// wgpu::Device::push_error_scope and pop_error_scope: records one compute
/// pass that binds `pipeline` with `bind_group` at group index 0 and
/// dispatches an `x` by `y` by `z` grid of workgroups. The pass borrows the
/// encoder, so the whole pass is recorded in one step here. Returns whether
/// the recorded pass passed validation (a bind group whose layout does not
/// fit the pipeline is reported at pass end and caught by the scope);
/// dimensions beyond the baseline per-dimension limit are excluded by the
/// `requires`. Recording has no effect on the device until submission.
#[verifier::external_body]
pub(crate) fn record_compute_pass_checked(
    device: &wgpu::Device,
    encoder: &mut wgpu::CommandEncoder,
    pipeline: &wgpu::ComputePipeline,
    bind_group: &wgpu::BindGroup,
    x: u32,
    y: u32,
    z: u32,
) -> bool
    requires
        x <= MAX_GRID_DIM,
        y <= MAX_GRID_DIM,
        z <= MAX_GRID_DIM,
{
    device.push_error_scope(wgpu::ErrorFilter::Validation);
    {
        let mut pass = encoder.begin_compute_pass(&wgpu::ComputePassDescriptor { label: None });
        pass.set_pipeline(pipeline);
        pass.set_bind_group(0, bind_group, &[]);
        pass.dispatch_workgroups(x, y, z);
    }
    pollster::block_on(device.pop_error_scope()).is_none()
}

/// Relies on wgpu::CommandEncoder::copy_buffer_to_buffer: records a copy of
/// `size` bytes from the start of the storage buffer into the start of the
/// staging buffer. wgpu validates the copy eagerly, as it is recorded —
/// usages, alignment and bounds — so the `requires` pins `size` to exactly
/// both buffers' tracked allocated sizes; the engine creates every storage
/// buffer as a copy source and every staging buffer as a copy destination,
/// and the two are always distinct allocations.
#[verifier::external_body]
pub(crate) fn record_buffer_copy(
    encoder: &mut wgpu::CommandEncoder,
    storage: &StorageBuffer,
    staging: &StagingBuffer,
    size: u64,
)
    requires
        size == storage.size_spec(),
        size == staging.size_spec(),
        size % 4 == 0,
{
    encoder.copy_buffer_to_buffer(&storage.raw, 0, &staging.raw, 0, size);
}

/// Relies on wgpu::CommandEncoder::finish, bracketed by
/// wgpu::Device::push_error_scope and pop_error_scope: closes the encoder
/// into a submittable command buffer, or returns `None` when validation
/// rejects the recording (an out-of-range copy, or a pass that failed).
#[verifier::external_body]
pub(crate) fn finish_encoder_checked(
    device: &wgpu::Device,
    encoder: wgpu::CommandEncoder,
) -> Option<wgpu::CommandBuffer> {
    device.push_error_scope(wgpu::ErrorFilter::Validation);
    let commands = encoder.finish();
    match pollster::block_on(device.pop_error_scope()) {
        None => Some(commands),
        Some(_) => None,
    }
}

/// Relies on wgpu::Queue::submit: hands one recorded command buffer to the
/// device, which executes it asynchronously. wgpu rejects a submission that
/// reads or writes a mapped buffer, fatally; the `requires` ties the
/// commands to the staging buffer their copy targets — the only
/// host-mappable buffer the engine ever records — and demands that very
/// buffer unmapped. A lost device aborts here, wgpu's analogue of running
/// out of memory.
#[verifier::external_body]
pub(crate) fn submit_command_buffer(
    queue: &wgpu::Queue,
    commands: DispatchCommands,
    staging: &StagingBuffer,
)
    requires
        commands.target_spec() == *staging,
        !staging.is_mapped(),
{
    queue.submit(std::iter::once(commands.raw));
}

/// Relies on wgpu::Queue::write_buffer: enqueues a non-blocking, in-place
/// overwrite of the start of the storage buffer with `data`. wgpu validates
/// that the write is four-byte aligned and fits the buffer; the `requires`
/// pins `data` to exactly the tracked allocated size.
#[verifier::external_body]
pub(crate) fn queue_write_storage(queue: &wgpu::Queue, storage: &StorageBuffer, data: &Vec<u8>)
    requires
        data@.len() == storage.size_spec(),
        data@.len() % 4 == 0,
{
    queue.write_buffer(&storage.raw, 0, data.as_slice());
}

/// Relies on wgpu::BufferSlice::map_async over the staging buffer's full
/// range, a futures_intrusive one-shot channel that carries the completion
/// signal out of the callback, wgpu::Device::poll with Maintain::Wait to
/// block until the device finishes all enqueued work including the mapping
/// request, and pollster::block_on to await the signal. Returns whether
/// mapping succeeded; on success the whole buffer stays mapped for host
/// reads until `unmap_buffer`. Mapping an already-mapped buffer is rejected
/// synchronously, which the `requires` excludes. After a failed request
/// wgpu leaves the buffer's mapping record set even though nothing is
/// mapped, so on failure the wrapper unmaps the buffer under an error scope
/// to restore its unmapped state, and a later cycle may retry.
#[verifier::external_body]
pub(crate) fn map_buffer_blocking(device: &wgpu::Device, staging: &StagingBuffer) -> bool
    requires
        !staging.is_mapped(),
{
    let slice = staging.raw.slice(..);
    let (sender, receiver) = futures_intrusive::channel::shared::oneshot_channel();
    slice.map_async(wgpu::MapMode::Read, move |v| { let _ = sender.send(v); });
    device.poll(wgpu::Maintain::Wait);
    let ok = matches!(pollster::block_on(receiver.receive()), Some(Ok(())));
    if !ok {
        device.push_error_scope(wgpu::ErrorFilter::Validation);
        staging.raw.unmap();
        let _ = pollster::block_on(device.pop_error_scope());
    }
    ok
}

/// Relies on wgpu::BufferSlice::get_mapped_range over the full range of the
/// mapped staging buffer: copies the mapped bytes into an owned vector. The
/// view spans the whole buffer, and the engine allocates every staging
/// buffer with exactly its tracked size, so the copy has exactly that many
/// bytes. Reading an unmapped buffer aborts, which the `requires` excludes.
/// The mapped view is dropped before returning, as wgpu demands before the
/// buffer may be unmapped.
#[verifier::external_body]
pub(crate) fn read_mapped_buffer(staging: &StagingBuffer) -> (r: Vec<u8>)
    requires
        staging.is_mapped(),
    ensures
        r@.len() == staging.size_spec(),
{
    let view = staging.raw.slice(..).get_mapped_range();
    let data = view.to_vec();
    drop(view);
    data
}

/// Relies on wgpu::Buffer::unmap: releases the mapping of the staging
/// buffer, so a later copy may reuse it. Unmapping an unmapped buffer is
/// rejected, which the `requires` excludes.
#[verifier::external_body]
pub(crate) fn unmap_buffer(staging: &StagingBuffer)
    requires
        staging.is_mapped(),
{
    staging.raw.unmap();
}

} // verus!
