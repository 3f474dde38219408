use sys_stats::cpu::CPUUsage;
use sys_stats::gpu::{DriverVersionData, GPUData, GPUUsage};
use sys_stats::macos::MacMemoryUsage;
use sys_stats::memory::{MemoryData, MemoryUsage};

#[test]
fn memory_data_constructors() {
    let zero = MemoryData::new();
    assert_eq!(zero.total, 0);
    assert_eq!(zero.free, 0);
    assert_eq!(zero.used, 0);
    let m = MemoryData::new_with_values(10, 4, 6);
    assert_eq!(m.total, 10);
    assert_eq!(m.free, 4);
    assert_eq!(m.used, 6);
}

#[test]
fn system_memory_readers_respond() {
    let info = MemoryUsage::get_system_memory_info();
    assert!(info.total > 0);
    assert!(MemoryUsage::total_system_memory() > 0);
    let _ = MemoryUsage::current_system_memory_usage();
    let _ = MemoryUsage::current_system_memory_free();
    let _ = MemoryUsage::current_system_memory_swap();
}

#[test]
fn logical_processors_are_present() {
    assert!(CPUUsage::logical_processors() >= 1);
    let _ = CPUUsage::num_of_cores();
    let _ = CPUUsage::get_cpu_name();
}

#[test]
fn free_gpu_memory_reading_is_in_bytes() {
    let free = GPUUsage::current_gpu_memory_free().unwrap();
    assert!(free == u64::MAX || free % 1024 == 0);
}

#[test]
fn generic_usage_reading_reports_no_dedicated_pool() {
    assert_eq!(GPUUsage::current_gpu_memory_usage(), Ok(0));
}

#[test]
fn single_device_list_wraps_the_record() {
    let record = GPUData::new_with_values(
        String::from("Apple M2"),
        String::from("applegpu_g14g"),
        0,
        1000,
        600,
        400,
        true,
        true,
        0,
        DriverVersionData {
            major: 0,
            minor: 0,
            build: 0,
            revision: 0,
        },
    );
    let list = MacMemoryUsage::get_gpus_list(record.clone());
    assert_eq!(list.len(), 1);
    assert_eq!(list[0], record);
}

#[test]
fn unified_platform_cpu_memory_readers_respond() {
    assert!(MacMemoryUsage::total_cpu_memory().unwrap() > 0);
    let used = MacMemoryUsage::current_cpu_memory_usage().unwrap();
    let free = MacMemoryUsage::current_cpu_memory_free().unwrap();
    let total = MacMemoryUsage::total_cpu_memory().unwrap();
    assert!(used <= total);
    assert!(free <= total);
    let _ = MacMemoryUsage::current_cpu_memory_swap().unwrap();
}
