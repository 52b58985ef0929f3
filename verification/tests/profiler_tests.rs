use gpu_dispatch::heap_profiler::measure_memory;
use gpu_dispatch::heap_profiler::ProfilingAllocator;

#[test]
fn alloc_raises_current_and_peak() {
    let mut c = ProfilingAllocator::new();
    assert_eq!(c.allocated, 0);
    assert_eq!(c.max_allocated, 0);
    c.record_alloc(100);
    assert_eq!(c.allocated, 100);
    assert_eq!(c.allocated_bytes(), 100);
}

#[test]
fn dealloc_lowers_current_but_keeps_peak() {
    let mut c = ProfilingAllocator::new();
    c.record_alloc(100);
    c.record_dealloc(40);
    assert_eq!(c.allocated, 60);
    assert_eq!(c.allocated_bytes(), 100);
}

#[test]
fn peak_tracks_largest_simultaneous_allocation() {
    let mut c = ProfilingAllocator::new();
    c.record_alloc(50);
    c.record_alloc(70);
    c.record_dealloc(120);
    c.record_alloc(30);
    assert_eq!(c.allocated, 30);
    assert_eq!(c.allocated_bytes(), 120);
}

#[test]
fn realloc_growth_moves_peak() {
    let mut c = ProfilingAllocator::new();
    c.record_alloc(60);
    c.record_realloc(60, 200);
    assert_eq!(c.allocated, 200);
    assert_eq!(c.allocated_bytes(), 200);
}

#[test]
fn realloc_shrink_keeps_peak() {
    let mut c = ProfilingAllocator::new();
    c.record_alloc(200);
    c.record_realloc(200, 50);
    assert_eq!(c.allocated, 50);
    assert_eq!(c.allocated_bytes(), 200);
}

#[test]
fn dealloc_below_zero_wraps_like_a_counter() {
    let mut c = ProfilingAllocator::new();
    c.record_dealloc(1);
    assert_eq!(c.allocated, usize::MAX);
    assert_eq!(c.allocated_bytes(), 0);
}

#[test]
fn reset_clears_both_counters() {
    let mut c = ProfilingAllocator::new();
    c.record_alloc(500);
    c.reset_bytes();
    assert_eq!(c.allocated, 0);
    assert_eq!(c.allocated_bytes(), 0);
}

#[test]
fn measure_memory_reports_peak_of_run() {
    let peak = measure_memory(|mut c: ProfilingAllocator| {
        c.record_alloc(1024);
        c.record_alloc(512);
        c.record_dealloc(1536);
        c.record_alloc(8);
        c
    });
    assert_eq!(peak, 1536);
}

#[test]
fn measure_memory_of_idle_run_is_zero() {
    let peak = measure_memory(|c: ProfilingAllocator| c);
    assert_eq!(peak, 0);
}
