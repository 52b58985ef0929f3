//! Dispatch cycles against a real device. Every test negotiates a GPU first
//! and returns quietly when none is available, so the suite also passes on
//! hosts without an adapter; on such a host the negotiation-failure path is
//! what runs.

use gpu_dispatch::compute_shader::create_gpu_executor;
use gpu_dispatch::compute_shader::execute_gpu_inner;
use gpu_dispatch::compute_shader::setup_gpu;
use gpu_dispatch::compute_shader::GRID_DIM;

/// A kernel that writes every element back unchanged, guarded by a bounds
/// check against the actual array length.
const IDENTITY_KERNEL: &str = "
@group(0) @binding(0) var<storage, read_write> data: array<i32>;
@compute @workgroup_size(1)
fn main(@builtin(global_invocation_id) id: vec3<u32>) {
    let i = id.x + 64u * id.y;
    if (i < arrayLength(&data)) {
        data[i] = data[i];
    }
}
";

/// A kernel that adds one to every element it reaches, guarded by a bounds
/// check against the actual array length.
const ADD_ONE_KERNEL: &str = "
@group(0) @binding(0) var<storage, read_write> data: array<i32>;
@compute @workgroup_size(1)
fn main(@builtin(global_invocation_id) id: vec3<u32>) {
    let i = id.x + 64u * id.y;
    if (i < arrayLength(&data)) {
        data[i] = data[i] + 1;
    }
}
";

#[test]
fn negotiation_failure_constructs_nothing() {
    // With no adapter available, setup_gpu reports the failure as an absent
    // result instead of building anything; with an adapter it yields the
    // device and queue every other test builds on.
    match setup_gpu() {
        None => {}
        Some((_device, _queue)) => {}
    }
}

#[test]
fn round_trip_identity_kernel() {
    for n in [1usize, 2, 63, 64, 100] {
        let v: Vec<i32> = (0..n as i32).map(|x| x * 31 - 7).collect();
        let Some(mut exec) = create_gpu_executor(&v, IDENTITY_KERNEL) else {
            return;
        };
        let got = execute_gpu_inner(&mut exec, &v);
        assert_eq!(got, Some(v));
    }
}

#[test]
fn fixed_grid_bounds_checked_kernel() {
    // The grid is fixed at GRID_DIM x GRID_DIM workgroups of one invocation
    // each, so exactly the first GRID_DIM * GRID_DIM elements are touched;
    // a bounds-checked kernel must leave the tail intact and corrupt nothing.
    let capacity = (GRID_DIM * GRID_DIM) as usize;
    for n in [1usize, 63, 4096, 4097] {
        let v: Vec<i32> = (0..n as i32).collect();
        let Some(mut exec) = create_gpu_executor(&v, ADD_ONE_KERNEL) else {
            return;
        };
        let got = execute_gpu_inner(&mut exec, &v).expect("dispatch failed");
        assert_eq!(got.len(), n);
        for (i, value) in got.iter().enumerate() {
            let expected = if i < capacity { v[i] + 1 } else { v[i] };
            assert_eq!(*value, expected, "element {} of count {}", i, n);
        }
    }
}

#[test]
fn repeated_execution_matches_each_input() {
    let first: Vec<i32> = (0..256).map(|x| x * 3).collect();
    let second: Vec<i32> = (0..256).map(|x| -x * 5 + 1).collect();
    let Some(mut exec) = create_gpu_executor(&first, IDENTITY_KERNEL) else {
        return;
    };
    let got_first = execute_gpu_inner(&mut exec, &first);
    assert_eq!(got_first, Some(first));
    let got_second = execute_gpu_inner(&mut exec, &second);
    assert_eq!(got_second, Some(second));
}

#[test]
fn mismatched_length_is_rejected() {
    let v: Vec<i32> = vec![1, 2, 3, 4];
    let Some(mut exec) = create_gpu_executor(&v, IDENTITY_KERNEL) else {
        return;
    };
    let longer: Vec<i32> = vec![1, 2, 3, 4, 5];
    assert_eq!(execute_gpu_inner(&mut exec, &longer), None);
    let shorter: Vec<i32> = vec![1, 2];
    assert_eq!(execute_gpu_inner(&mut exec, &shorter), None);
    // The executor is untouched and still serves matching input.
    assert_eq!(execute_gpu_inner(&mut exec, &v), Some(v));
}

#[test]
fn in_flight_mapping_blocks_next_cycle() {
    let v: Vec<i32> = vec![10, 20, 30, 40];
    let Some(mut exec) = create_gpu_executor(&v, IDENTITY_KERNEL) else {
        return;
    };
    // Hold a mapped view of the staging buffer, as a cycle that failed to
    // release it would.
    if !exec.staging_buffer.begin_map(&exec.device) {
        return;
    }
    // A cycle begun while the view is held is rejected, not interleaved.
    assert_eq!(execute_gpu_inner(&mut exec, &v), None);
    // Releasing the view makes the executor usable again.
    exec.staging_buffer.unmap();
    assert_eq!(execute_gpu_inner(&mut exec, &v), Some(v));
}

#[test]
fn replaced_buffers_serve_new_length() {
    let v: Vec<i32> = (0..32).collect();
    let Some(mut exec) = create_gpu_executor(&v, IDENTITY_KERNEL) else {
        return;
    };
    assert_eq!(execute_gpu_inner(&mut exec, &v), Some(v.clone()));
    let w: Vec<i32> = (0..48).map(|x| x - 9).collect();
    // A different length needs a replaced buffer set and a rebuilt bind group.
    assert_eq!(execute_gpu_inner(&mut exec, &w), None);
    assert!(exec.replace_buffers(&w));
    assert_eq!(execute_gpu_inner(&mut exec, &w), Some(w));
}

#[test]
fn kernel_without_bindings_is_accepted() {
    // The pipeline is built over the engine's explicit layout, so a kernel
    // that declares no bindings still compiles and dispatches; it touches
    // nothing, and the cycle reads back exactly what was written.
    let kernel = "
@compute @workgroup_size(1)
fn main() {
}
";
    let v: Vec<i32> = vec![5, -6, 7, -8];
    let Some(mut exec) = create_gpu_executor(&v, kernel) else {
        return;
    };
    assert_eq!(execute_gpu_inner(&mut exec, &v), Some(v));
}

#[test]
fn incompatible_binding_is_rejected_not_fatal() {
    // A kernel whose group-0 binding does not fit the engine's layout (a
    // uniform buffer instead of read-write storage) is a configuration
    // error: pipeline creation reports it and nothing is constructed.
    let kernel = "
@group(0) @binding(0) var<uniform> data: vec4<i32>;
@compute @workgroup_size(1)
fn main() {
    _ = data;
}
";
    let v: Vec<i32> = vec![1, 2, 3, 4];
    assert!(create_gpu_executor(&v, kernel).is_none());
}

#[test]
fn bad_kernel_source_is_rejected() {
    let v: Vec<i32> = vec![1, 2, 3, 4];
    // Fails whenever a device exists; without one, negotiation fails first.
    // Either way nothing is constructed.
    assert!(create_gpu_executor(&v, "this is not a kernel").is_none());
}
