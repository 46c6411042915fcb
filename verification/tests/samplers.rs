use sysinfo::System;
use zellij_load::system_info::cpu::{REFRESH_PAUSE_MILLIS, REFRESH_ROUNDS};
use zellij_load::system_info::gpu::gpu_name;
use zellij_load::system_info::{
    CpuStep, CpuUsage, GpuReading, GpuUsage, Load, MemUsage, SystemMessage, GPU,
};

fn rtx_reading() -> GpuReading {
    GpuReading {
        vendor: String::from("NVIDIA"),
        model: String::from("RTX4090"),
        used_vram: 2_000_000_000,
        total_vram: 24_000_000_000,
        load_pct: 37,
    }
}

#[test]
fn cpu_constants_are_four_rounds_of_a_tenth_of_a_second() {
    assert_eq!(REFRESH_ROUNDS, 4);
    assert_eq!(REFRESH_PAUSE_MILLIS, 100);
}

#[test]
fn cpu_default_is_zero_at_start_of_cycle() {
    let cpu = CpuUsage::default();
    assert_eq!(cpu.total(), Load { bits: 0 });
    assert_eq!(f32::from_bits(cpu.total().bits), 0.0);
    assert_eq!(cpu.refreshes(), 0);
    assert_eq!(Load::default().bits, 0);
}

#[test]
fn cpu_cycle_pauses_four_times_then_reads() {
    let mut sys = System::new();
    let mut cpu = CpuUsage::default();
    let mut pauses: Vec<u64> = Vec::new();
    loop {
        match cpu.update(&mut sys) {
            CpuStep::Pause { millis } => pauses.push(millis),
            CpuStep::Done => break,
        }
        assert_eq!(cpu.refreshes() as usize, pauses.len());
    }
    assert_eq!(pauses, vec![100, 100, 100, 100]);
    assert_eq!(cpu.refreshes(), 0);
}

#[test]
fn cpu_reading_is_the_load_that_the_host_holds() {
    let mut sys = System::new();
    let mut cpu = CpuUsage::default();
    cpu.record(Load { bits: 0x7fc0_1234 });
    while cpu.update(&mut sys) != CpuStep::Done {}
    assert_eq!(cpu.total().bits, sys.global_cpu_usage().to_bits());
}

#[test]
fn cpu_second_cycle_refreshes_again_before_it_reads() {
    let mut sys = System::new();
    let mut cpu = CpuUsage::default();
    while cpu.update(&mut sys) != CpuStep::Done {}
    for made in 1..=4 {
        assert_eq!(cpu.update(&mut sys), CpuStep::Pause { millis: 100 });
        assert_eq!(cpu.refreshes(), made);
    }
    assert_eq!(cpu.update(&mut sys), CpuStep::Done);
}

#[test]
fn cpu_pause_step_keeps_the_last_load() {
    let mut sys = System::new();
    let mut cpu = CpuUsage::default();
    cpu.record(Load { bits: 42.5f32.to_bits() });
    assert_eq!(cpu.update(&mut sys), CpuStep::Pause { millis: 100 });
    assert_eq!(cpu.total().bits, 42.5f32.to_bits());
    assert_eq!(cpu.refreshes(), 1);
}

#[test]
fn cpu_record_stores_load_and_restarts_cycle() {
    let mut sys = System::new();
    let mut cpu = CpuUsage::default();
    for _ in 0..3 {
        cpu.update(&mut sys);
    }
    assert_eq!(cpu.refreshes(), 3);
    cpu.record(Load { bits: 42.5f32.to_bits() });
    assert_eq!(f32::from_bits(cpu.total().bits), 42.5);
    assert_eq!(cpu.refreshes(), 0);
}

#[test]
fn mem_default_is_zero() {
    let mem = MemUsage::default();
    assert_eq!(mem, MemUsage { total: 0, idle: 0 });
    assert_eq!(mem.used(), 0);
}

#[test]
fn mem_update_reads_the_host() {
    let mut sys = System::new();
    let mut mem = MemUsage::default();
    mem.update(&mut sys);
    assert_eq!(mem.total, sys.total_memory());
    assert_eq!(mem.idle, sys.available_memory());
    assert!(mem.total > 0);
}

#[test]
fn mem_update_replaces_what_was_held() {
    let mut sys = System::new();
    let mut mem = MemUsage { total: 1, idle: u64::MAX };
    mem.update(&mut sys);
    assert_eq!(mem, MemUsage { total: sys.total_memory(), idle: sys.available_memory() });
}

#[test]
fn mem_record_stores_both_counters() {
    let mut mem = MemUsage::default();
    mem.record(16_000_000_000, 4_000_000_000);
    assert_eq!(mem.total, 16_000_000_000);
    assert_eq!(mem.idle, 4_000_000_000);
}

#[test]
fn mem_used_is_total_less_available() {
    let mem = MemUsage { total: 16_000_000_000, idle: 4_000_000_000 };
    assert_eq!(mem.used(), 12_000_000_000);
    assert_eq!(MemUsage { total: 7, idle: 7 }.used(), 0);
    assert_eq!(MemUsage { total: u64::MAX, idle: 0 }.used(), u64::MAX);
}

#[test]
fn mem_used_wraps_when_available_exceeds_total() {
    let mem = MemUsage { total: 0, idle: 1 };
    assert_eq!(mem.used(), u64::MAX);
    assert!(mem.used() > mem.total);
    let mem = MemUsage { total: 10, idle: 13 };
    assert_eq!(mem.used(), u64::MAX - 2);
    assert!(mem.used() > mem.total);
}

#[test]
fn gpu_name_is_vendor_space_model() {
    assert_eq!(gpu_name("NVIDIA", "RTX4090"), "NVIDIA RTX4090");
    assert_eq!(gpu_name("AMD", "Radeon RX 6800"), "AMD Radeon RX 6800");
    assert_eq!(gpu_name("", ""), " ");
    assert_eq!(gpu_name("Intel", ""), "Intel ");
}

#[test]
fn gpu_default_is_empty() {
    let gpu = GpuUsage::default();
    assert_eq!(
        gpu,
        GpuUsage { name: String::new(), gpu_utilization: 0, memory_used: 0, memory_total: 0 }
    );
}

#[test]
fn gpu_update_takes_in_a_reading() {
    let mut gpu = GpuUsage::default();
    gpu.update(&rtx_reading());
    assert_eq!(gpu.name, "NVIDIA RTX4090");
    assert_eq!(gpu.memory_used, 2_000_000_000);
    assert_eq!(gpu.memory_total, 24_000_000_000);
    assert_eq!(gpu.gpu_utilization, 37);
}

#[test]
fn gpu_sample_and_back() {
    let mut gpu = GpuUsage::default();
    gpu.update(&rtx_reading());
    let sample = gpu.sample();
    assert_eq!(sample, (String::from("NVIDIA RTX4090"), 2_000_000_000, 24_000_000_000, 37));
    assert_eq!(GpuUsage::from_sample(sample), gpu);
}

#[test]
fn gpu_info_maps_every_field() {
    let gpu = GpuUsage::from_sample((String::from("NVIDIA RTX4090"), 1, 2, 3));
    assert_eq!(
        gpu.info(),
        GPU {
            name: String::from("NVIDIA RTX4090"),
            memory_used: 1,
            memory_total: 2,
            gpu_utilization: 3,
        }
    );
}

#[test]
fn clones_are_equal_to_what_they_copy() {
    let gpu = GpuUsage::from_sample((String::from("NVIDIA RTX4090"), 1, 2, 3));
    assert_eq!(gpu.clone(), gpu);
    let info = gpu.info();
    assert_eq!(info.clone(), info);
    let message = SystemMessage {
        cpu_usage: Load { bits: 42.5f32.to_bits() },
        mem_used: 12,
        mem_total: 16,
        gpu_info: Some(info),
    };
    assert_eq!(message.clone(), message);
}

#[test]
fn message_defaults_are_empty() {
    let message = SystemMessage::default();
    assert_eq!(message.cpu_usage, Load { bits: 0 });
    assert_eq!(message.mem_used, 0);
    assert_eq!(message.mem_total, 0);
    assert_eq!(message.gpu_info, None);
    assert_eq!(
        GPU::default(),
        GPU { name: String::new(), memory_used: 0, memory_total: 0, gpu_utilization: 0 }
    );
}
