//! The GPU compute dispatch engine: device negotiation, the buffer set, the
//! compute pipeline and its bind group, command recording over a fixed
//! execution grid, and the blocking readback cycle. The engine tracks each
//! buffer's byte size, the storage buffer's generation tag and last written
//! contents, and whether the staging buffer is mapped; its contracts tie
//! every dispatch cycle to that bookkeeping, and the tracking fields are
//! sealed inside the library so a buffer's record cannot drift from the
//! device handle it describes.

use vstd::prelude::*;
use crate::codec;
use crate::wgpu_api::MAX_BUFFER_BYTES;
use crate::wgpu_api::create_bind_group_checked;
use crate::wgpu_api::create_command_encoder_raw;
use crate::wgpu_api::create_compute_pipeline_checked;
use crate::wgpu_api::create_pipeline_layout_raw;
use crate::wgpu_api::create_raw_staging_buffer;
use crate::wgpu_api::create_raw_storage_buffer;
use crate::wgpu_api::create_shader_module_checked;
use crate::wgpu_api::create_storage_bind_group_layout;
use crate::wgpu_api::finish_encoder_checked;
use crate::wgpu_api::map_buffer_blocking;
use crate::wgpu_api::new_instance;
use crate::wgpu_api::queue_write_storage;
use crate::wgpu_api::read_mapped_buffer;
use crate::wgpu_api::record_buffer_copy;
use crate::wgpu_api::record_compute_pass_checked;
use crate::wgpu_api::request_adapter_blocking;
use crate::wgpu_api::request_device_blocking;
use crate::wgpu_api::submit_command_buffer;
use crate::wgpu_api::unmap_buffer;

verus! {

/// Workgroups dispatched along each of the first two grid axes. The grid is
/// a design constant, not derived from the element count, so a kernel must
/// bounds-check its own indices against the actual array length.
pub const GRID_DIM: u32 = 64;

/// Device-resident storage buffer the kernel reads and writes. Beside the
/// opaque device handle it carries its allocated byte size, a generation tag
/// that changes whenever the buffer is replaced (not when it is rewritten in
/// place), and the image the host last wrote into it; the device may change
/// the actual contents when a kernel runs. The fields are sealed: only the
/// engine builds values, so the record always describes the handle.
pub struct StorageBuffer {
    pub(crate) raw: wgpu::Buffer,
    pub(crate) size: u64,
    pub(crate) generation: u64,
    pub(crate) last_written: Ghost<Seq<i32>>,
}

impl StorageBuffer {
    /// Allocated byte size of the buffer.
    pub closed spec fn size_spec(self) -> u64 {
        self.size
    }

    /// Generation tag of the buffer: fresh for every replacement.
    pub closed spec fn generation_spec(self) -> u64 {
        self.generation
    }

    /// The element image the host last wrote into the buffer.
    pub closed spec fn last_written_spec(self) -> Seq<i32> {
        self.last_written@
    }

    /// The allocated size is exactly four bytes per element last written,
    /// at least one element, and within the baseline device limits.
    pub open spec fn wf(self) -> bool {
        &&& self.size_spec() == self.last_written_spec().len() * 4
        &&& 1 <= self.last_written_spec().len()
        &&& self.size_spec() <= MAX_BUFFER_BYTES
    }

    /// Overwrites the buffer in place with `arr`'s little-endian bytes via a
    /// non-blocking queue write. An in-place rewrite keeps the generation
    /// tag: bind groups that refer to this buffer stay valid.
    pub fn write(&mut self, queue: &wgpu::Queue, arr: &Vec<i32>)
        requires
            old(self).wf(),
            arr@.len() * 4 == old(self).size_spec(),
        ensures
            final(self).wf(),
            final(self).size_spec() == old(self).size_spec(),
            final(self).generation_spec() == old(self).generation_spec(),
            final(self).last_written_spec() == arr@,
    {
        let bytes = codec::encode_i32s(arr);
        queue_write_storage(queue, self, &bytes);
        self.last_written = Ghost(arr@);
    }
}

/// Host-mappable staging buffer that shuttles results back to the host.
/// Beside the opaque device handle it carries its allocated byte size and
/// whether a mapped view is currently held: the mapping is exclusive, and
/// the buffer must be unmapped before a later copy may reuse it. The fields
/// are sealed: only the engine builds values, so the record always
/// describes the handle.
pub struct StagingBuffer {
    pub(crate) raw: wgpu::Buffer,
    pub(crate) size: u64,
    pub(crate) mapped: bool,
}

impl StagingBuffer {
    /// Allocated byte size of the buffer.
    pub closed spec fn size_spec(self) -> u64 {
        self.size
    }

    /// Whether a mapped view of the buffer is currently held.
    pub closed spec fn is_mapped(self) -> bool {
        self.mapped
    }

    /// Requests a read-only mapping of the whole buffer and blocks until the
    /// device answers. On success the buffer is mapped; on failure it is
    /// left unmapped. Only an unmapped buffer may be mapped.
    pub fn begin_map(&mut self, device: &wgpu::Device) -> (ok: bool)
        requires
            !old(self).is_mapped(),
        ensures
            final(self).is_mapped() == ok,
            final(self).size_spec() == old(self).size_spec(),
    {
        let ok = map_buffer_blocking(device, self);
        if ok {
            self.mapped = true;
        }
        ok
    }

    /// Copies the mapped bytes out of the buffer: exactly its allocated
    /// size, the full range of the mapping. Only a mapped buffer may be
    /// read.
    pub fn read_mapped(&self) -> (r: Vec<u8>)
        requires
            self.is_mapped(),
        ensures
            r@.len() == self.size_spec(),
    {
        read_mapped_buffer(self)
    }

    /// Releases the mapping, so the buffer can serve a later copy. Only a
    /// mapped buffer may be unmapped.
    pub fn unmap(&mut self)
        requires
            old(self).is_mapped(),
        ensures
            !final(self).is_mapped(),
            final(self).size_spec() == old(self).size_spec(),
    {
        unmap_buffer(self);
        self.mapped = false;
    }
}

/// A compiled kernel together with the explicit binding layout it was built
/// over: one read-write storage buffer at group 0, binding 0. Bind groups
/// for the pipeline are created from the very same layout object, so the two
/// always fit at dispatch; a kernel that declares incompatible bindings
/// fails pipeline creation instead.
pub struct KernelPipeline {
    pub raw: wgpu::ComputePipeline,
    pub layout: wgpu::BindGroupLayout,
}

/// A bind group that binds one storage buffer to the pipeline's binding slot
/// 0. It captures a reference to that buffer, not a copy, so it records the
/// generation tag of the buffer it was built from: dispatching demands that
/// the tag still matches the live storage buffer. The tag is sealed with
/// the handle, so it cannot be forged to pass off a stale bind group as
/// current.
pub struct StorageBindGroup {
    pub(crate) raw: wgpu::BindGroup,
    pub(crate) storage_generation: u64,
}

impl StorageBindGroup {
    /// Generation tag of the storage buffer this bind group was built from.
    pub closed spec fn storage_generation_spec(self) -> u64 {
        self.storage_generation
    }
}

/// One dispatch cycle's commands while they are being recorded: the encoder
/// and, as a ghost snapshot, the staging buffer its copy targets, so that
/// closing and submitting the commands can demand that very buffer,
/// unmapped. The fields are sealed: only the engine records commands.
pub struct DispatchEncoder {
    pub(crate) raw: wgpu::CommandEncoder,
    pub(crate) target: Ghost<StagingBuffer>,
}

impl DispatchEncoder {
    /// The staging buffer the recorded copy targets.
    pub closed spec fn target_spec(self) -> StagingBuffer {
        self.target@
    }
}

/// A closed command buffer ready for submission, still tied to the staging
/// buffer its copy targets. The fields are sealed: only the engine closes
/// encoders.
pub struct DispatchCommands {
    pub(crate) raw: wgpu::CommandBuffer,
    pub(crate) target: Ghost<StagingBuffer>,
}

impl DispatchCommands {
    /// The staging buffer the recorded copy targets.
    pub closed spec fn target_spec(self) -> StagingBuffer {
        self.target@
    }
}

/// Owns every device resource of one dispatch pipeline: the device and its
/// sole queue, the compiled pipeline with its layout, the buffer set with
/// its common byte size, and the bind group tying the storage buffer to the
/// pipeline.
pub struct GpuExecutor {
    pub device: wgpu::Device,
    pub queue: wgpu::Queue,
    pub compute_pipeline: KernelPipeline,
    pub size: u64,
    pub staging_buffer: StagingBuffer,
    pub storage_buffer: StorageBuffer,
    pub bind_group: StorageBindGroup,
}

impl GpuExecutor {
    /// Every buffer of the set has the same byte size, four bytes per
    /// element, and the bind group refers to the currently live storage
    /// buffer.
    pub open spec fn wf(self) -> bool {
        &&& self.storage_buffer.wf()
        &&& self.size == self.storage_buffer.size_spec()
        &&& self.staging_buffer.size_spec() == self.size
        &&& self.bind_group.storage_generation_spec() == self.storage_buffer.generation_spec()
    }

    /// Replaces the buffer set with one seeded from `arr` and rebuilds the
    /// bind group. A replaced storage buffer gets a fresh generation tag, and
    /// the bind group must be rebuilt with it, because it captured a
    /// reference to the old buffer; a merely rewritten buffer needs neither.
    /// When the device rejects the new binding, nothing is replaced.
    pub fn replace_buffers(&mut self, arr: &Vec<i32>) -> (ok: bool)
        requires
            old(self).wf(),
            1 <= arr@.len(),
            arr@.len() * 4 <= MAX_BUFFER_BYTES,
            old(self).storage_buffer.generation_spec() < u64::MAX,
        ensures
            final(self).wf(),
            ok ==> {
                &&& final(self).size == arr@.len() * 4
                &&& final(self).storage_buffer.generation_spec() == old(
                    self,
                ).storage_buffer.generation_spec() + 1
                &&& final(self).storage_buffer.last_written_spec() == arr@
                &&& !final(self).staging_buffer.is_mapped()
            },
            !ok ==> *final(self) == *old(self),
            final(self).device == old(self).device,
            final(self).queue == old(self).queue,
            final(self).compute_pipeline == old(self).compute_pipeline,
    {
        let generation: u64 = self.storage_buffer.generation + 1;
        let (size, staging_buffer, storage_buffer) = create_buffers(&self.device, arr, generation);
        let bind_group = match create_bind_group(
            &self.device,
            &storage_buffer,
            &self.compute_pipeline,
        ) {
            Some(bg) => bg,
            None => {
                return false;
            },
        };
        self.size = size;
        self.staging_buffer = staging_buffer;
        self.storage_buffer = storage_buffer;
        self.bind_group = bind_group;
        true
    }
}

/// Size invariant of the buffer set: in a well-formed executor the staging
/// buffer, the storage buffer and the recorded size are all equal, at four
/// bytes per element of the last written array. Dispatching rejects any
/// input that would break this before anything is submitted.
pub proof fn lemma_size_invariant(e: GpuExecutor)
    requires
        e.wf(),
    ensures
        e.staging_buffer.size_spec() == e.size,
        e.storage_buffer.size_spec() == e.size,
        e.size == e.storage_buffer.last_written_spec().len() * 4,
{
}

/// Negotiates a GPU: creates an API instance, requests an adapter with
/// default criteria, and opens a logical device and queue with an empty
/// feature set and baseline limits. Returns `None` when no adapter is
/// available or the driver rejects the device request; a failed negotiation
/// constructs nothing and is terminal for this attempt.
pub fn setup_gpu() -> Option<(wgpu::Device, wgpu::Queue)> {
    let instance = new_instance();
    let adapter = match request_adapter_blocking(&instance) {
        Some(a) => a,
        None => {
            return None;
        },
    };
    request_device_blocking(&adapter)
}

/// Allocates the buffer set for `arr`: an uninitialized host-mappable
/// staging buffer and a storage buffer pre-seeded with `arr`'s bytes, both
/// of exactly four bytes per element, so the later device-to-host copy is
/// valid. The array must hold at least one element: a zero-size buffer
/// cannot be bound. The storage buffer carries `generation` as its tag; pass
/// a tag not used by a storage buffer this one replaces.
pub fn create_buffers(device: &wgpu::Device, arr: &Vec<i32>, generation: u64) -> (r: (
    u64,
    StagingBuffer,
    StorageBuffer,
))
    requires
        1 <= arr@.len(),
        arr@.len() * 4 <= MAX_BUFFER_BYTES,
    ensures
        r.0 == arr@.len() * 4,
        r.1.size_spec() == r.0,
        !r.1.is_mapped(),
        r.2.size_spec() == r.0,
        r.2.generation_spec() == generation,
        r.2.last_written_spec() == arr@,
        r.2.wf(),
{
    let bytes = codec::encode_i32s(arr);
    let size: u64 = bytes.len() as u64;
    proof {
        assert(size == arr@.len() * 4);
        assert(size % 4 == 0) by (nonlinear_arith)
            requires
                size == arr@.len() * 4,
        ;
    }
    let staging_raw = create_raw_staging_buffer(device, size);
    let storage_raw = create_raw_storage_buffer(device, &bytes);
    let staging_buffer = StagingBuffer { raw: staging_raw, size, mapped: false };
    let storage_buffer = StorageBuffer {
        raw: storage_raw,
        size,
        generation,
        last_written: Ghost(arr@),
    };
    (size, staging_buffer, storage_buffer)
}

/// Compiles textual kernel source into a shader module and builds a compute
/// pipeline over the engine's explicit binding layout — one read-write
/// storage buffer at group 0, binding 0 — with the fixed entry point name
/// "main". Returns `None` when the source does not compile, the entry point
/// is absent, or the kernel's declared bindings do not fit that layout: a
/// configuration error, surfaced as a recoverable absence rather than an
/// abort.
pub fn create_pipeline(device: &wgpu::Device, shader: &str) -> Option<KernelPipeline> {
    let layout = create_storage_bind_group_layout(device);
    let pipeline_layout = create_pipeline_layout_raw(device, &layout);
    let module = match create_shader_module_checked(device, shader) {
        Some(m) => m,
        None => {
            return None;
        },
    };
    let raw = match create_compute_pipeline_checked(device, &module, &pipeline_layout) {
        Some(p) => p,
        None => {
            return None;
        },
    };
    Some(KernelPipeline { raw, layout })
}

/// Binds `storage_buffer` to binding slot 0 of the pipeline's binding
/// layout, as the sole entire-buffer resource, reusing the very layout
/// object the pipeline was built over. The bind group records the storage
/// buffer's generation tag: it must be rebuilt whenever the buffer is
/// replaced, though not when the buffer is rewritten in place. Returns
/// `None` when the device rejects the binding.
pub fn create_bind_group(
    device: &wgpu::Device,
    storage_buffer: &StorageBuffer,
    compute_pipeline: &KernelPipeline,
) -> (r: Option<StorageBindGroup>)
    ensures
        r is Some ==> r.unwrap().storage_generation_spec() == storage_buffer.generation_spec(),
{
    match create_bind_group_checked(device, &compute_pipeline.layout, &storage_buffer.raw) {
        Some(raw) => Some(
            StorageBindGroup { raw, storage_generation: storage_buffer.generation },
        ),
        None => None,
    }
}

/// Records one dispatch cycle's commands: a compute pass that binds the
/// pipeline and bind group and dispatches the fixed grid of workgroups, then
/// a copy of the full `size` bytes from the storage buffer into the staging
/// buffer. Recording demands that the bind group still refers to the live
/// storage buffer, that both buffers have exactly `size` bytes, and that the
/// staging buffer is not mapped; it has no effect on the device until the
/// encoder is submitted. Returns `None` when the device rejects the
/// recorded pass; the returned encoder stays tied to the staging buffer its
/// copy targets, which submission demands again.
pub fn create_encoder(
    device: &wgpu::Device,
    compute_pipeline: &KernelPipeline,
    bind_group: &StorageBindGroup,
    storage_buffer: &StorageBuffer,
    staging_buffer: &StagingBuffer,
    size: u64,
) -> (r: Option<DispatchEncoder>)
    requires
        bind_group.storage_generation_spec() == storage_buffer.generation_spec(),
        storage_buffer.size_spec() == size,
        staging_buffer.size_spec() == size,
        !staging_buffer.is_mapped(),
        size % 4 == 0,
    ensures
        r is Some ==> r.unwrap().target_spec() == *staging_buffer,
{
    let mut encoder = create_command_encoder_raw(device);
    let ok = record_compute_pass_checked(
        device,
        &mut encoder,
        &compute_pipeline.raw,
        &bind_group.raw,
        GRID_DIM,
        GRID_DIM,
        1,
    );
    if !ok {
        return None;
    }
    record_buffer_copy(&mut encoder, storage_buffer, staging_buffer, size);
    Some(DispatchEncoder { raw: encoder, target: Ghost(*staging_buffer) })
}

/// Closes a recorded dispatch cycle into a submittable command buffer, or
/// returns `None` when the device rejects the recording; the tie to the
/// staging buffer the copy targets carries over.
pub fn finish_dispatch(device: &wgpu::Device, encoder: DispatchEncoder) -> (r: Option<
    DispatchCommands,
>)
    ensures
        r is Some ==> r.unwrap().target_spec() == encoder.target_spec(),
{
    let DispatchEncoder { raw, target } = encoder;
    match finish_encoder_checked(device, raw) {
        Some(commands) => Some(DispatchCommands { raw: commands, target }),
        None => None,
    }
}

/// Runs one dispatch cycle on `gpu_executor` with `arr` as input: writes
/// `arr` into the storage buffer, records and submits the commands, blocks
/// until the device is done, maps the staging buffer, and decodes the copied
/// bytes back into integers.
///
/// A cycle begun while a mapped view from an earlier cycle is still held is
/// rejected untouched, as is an array whose byte size differs from the
/// buffers'; a rejected or failed cycle leaves no partial state. A returned
/// array always has exactly `arr`'s element count, and every accepted cycle
/// overwrites the whole storage buffer with `arr` before dispatching, so no
/// stale bytes from an earlier cycle survive into this one's input.
pub fn execute_gpu_inner(gpu_executor: &mut GpuExecutor, arr: &Vec<i32>) -> (r: Option<Vec<i32>>)
    requires
        old(gpu_executor).wf(),
    ensures
        final(gpu_executor).wf(),
        final(gpu_executor).size == old(gpu_executor).size,
        final(gpu_executor).storage_buffer.generation_spec() == old(
            gpu_executor,
        ).storage_buffer.generation_spec(),
        final(gpu_executor).device == old(gpu_executor).device,
        final(gpu_executor).queue == old(gpu_executor).queue,
        final(gpu_executor).compute_pipeline == old(gpu_executor).compute_pipeline,
        final(gpu_executor).bind_group == old(gpu_executor).bind_group,
        old(gpu_executor).staging_buffer.is_mapped() ==> r is None && *final(gpu_executor)
            == *old(gpu_executor),
        arr@.len() * 4 != old(gpu_executor).size ==> r is None,
        !old(gpu_executor).staging_buffer.is_mapped() && arr@.len() * 4 != old(gpu_executor).size
            ==> *final(gpu_executor) == *old(gpu_executor),
        !old(gpu_executor).staging_buffer.is_mapped()
            ==> !final(gpu_executor).staging_buffer.is_mapped(),
        !old(gpu_executor).staging_buffer.is_mapped() && arr@.len() * 4 == old(gpu_executor).size
            ==> final(gpu_executor).storage_buffer.last_written_spec() == arr@,
        r is Some ==> r.unwrap()@.len() == arr@.len() && !old(
            gpu_executor,
        ).staging_buffer.is_mapped() && arr@.len() * 4 == old(gpu_executor).size,
{
    if gpu_executor.staging_buffer.mapped {
        return None;
    }
    let byte_len: u64 = match (arr.len() as u64).checked_mul(4) {
        Some(b) => b,
        None => {
            return None;
        },
    };
    if byte_len != gpu_executor.size {
        return None;
    }
    gpu_executor.storage_buffer.write(&gpu_executor.queue, arr);
    let encoder = match create_encoder(
        &gpu_executor.device,
        &gpu_executor.compute_pipeline,
        &gpu_executor.bind_group,
        &gpu_executor.storage_buffer,
        &gpu_executor.staging_buffer,
        gpu_executor.size,
    ) {
        Some(e) => e,
        None => {
            return None;
        },
    };
    let commands = match finish_dispatch(&gpu_executor.device, encoder) {
        Some(c) => c,
        None => {
            return None;
        },
    };
    submit_command_buffer(&gpu_executor.queue, commands, &gpu_executor.staging_buffer);
    let ok = gpu_executor.staging_buffer.begin_map(&gpu_executor.device);
    if !ok {
        return None;
    }
    let data = gpu_executor.staging_buffer.read_mapped();
    gpu_executor.staging_buffer.unmap();
    codec::decode_i32s(&data, arr.len())
}

/// Builds a ready executor for `arr` and `shader`: negotiates the device,
/// allocates the buffer set seeded with `arr`, compiles the kernel, and
/// binds the storage buffer to the pipeline. Returns `None` when
/// negotiation, compilation or binding fails; nothing past the failing step
/// is constructed.
pub fn create_gpu_executor(arr: &Vec<i32>, shader: &str) -> (r: Option<GpuExecutor>)
    requires
        1 <= arr@.len(),
        arr@.len() * 4 <= MAX_BUFFER_BYTES,
    ensures
        r is Some ==> {
            &&& r.unwrap().wf()
            &&& r.unwrap().size == arr@.len() * 4
            &&& r.unwrap().storage_buffer.last_written_spec() == arr@
            &&& !r.unwrap().staging_buffer.is_mapped()
        },
{
    let (device, queue) = match setup_gpu() {
        Some(p) => p,
        None => {
            return None;
        },
    };
    let (size, staging_buffer, storage_buffer) = create_buffers(&device, arr, 0);
    let compute_pipeline = match create_pipeline(&device, shader) {
        Some(p) => p,
        None => {
            return None;
        },
    };
    let bind_group = match create_bind_group(&device, &storage_buffer, &compute_pipeline) {
        Some(bg) => bg,
        None => {
            return None;
        },
    };
    Some(
        GpuExecutor {
            device,
            queue,
            compute_pipeline,
            size,
            staging_buffer,
            storage_buffer,
            bind_group,
        },
    )
}

} // verus!
