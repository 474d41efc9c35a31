use bedrock_vmx::exits::reasons::ExitReason;
use bedrock_vmx::fields::{VmcsField16, VmcsField32, VmcsField64, VmcsFieldNatural};
use bedrock_vmx::host::HostState;
use bedrock_vmx::logging::entry::LOG_ENTRY_FLAG_DETERMINISTIC;
use bedrock_vmx::monitor::Event;
use bedrock_vmx::cow::CowPageMap;
use bedrock_vmx::registers::cr::{ControlRegisters, Cr0, Cr2, Cr3, Cr4, Cr8};
use bedrock_vmx::registers::descriptor::{DescriptorTableRegisters, Gdtr, Idtr};
use bedrock_vmx::registers::dr::DebugRegisters;
use bedrock_vmx::registers::gpr::GeneralPurposeRegisters;
use bedrock_vmx::registers::guest::GuestRegisters;
use bedrock_vmx::registers::segment::{SegmentRegister, SegmentRegisters};
use bedrock_vmx::registers::syscall::{Efer, ExtendedControlRegisters};
use bedrock_vmx::traits::capabilities::VmxCapabilities;
use bedrock_vmx::traits::instruction_counter::NullInstructionCounter;
use bedrock_vmx::traits::registers::{get_registers, set_registers};
use bedrock_vmx::vm_state::log_buffer::LogBuffer;
use bedrock_vmx::vm_state::stats::{AllExitStats, ExitStats};
use bedrock_vmx::vm_state::vm::{LogMode, VmState};
use bedrock_vmx::vmcs::MockVmcs;

fn state() -> Box<VmState<NullInstructionCounter>> {
    Box::new(VmState::new(MockVmcs::new(), NullInstructionCounter, HostState::zero()))
}

#[test]
fn vmcs_reads_back_what_was_written() {
    let mut vmcs = MockVmcs::new();
    assert!(vmcs.read64(VmcsField64::GuestPhysicalAddr).is_err());
    vmcs.write16(VmcsField16::GuestCsSelector, 0x10).unwrap();
    vmcs.write32(VmcsField32::VmExitReason, 48).unwrap();
    vmcs.write64(VmcsField64::GuestPhysicalAddr, 0xABC).unwrap();
    vmcs.write_natural(VmcsFieldNatural::GuestRip, 0xFFFF_0000).unwrap();
    assert_eq!(vmcs.read16(VmcsField16::GuestCsSelector), Ok(0x10));
    assert_eq!(vmcs.read32(VmcsField32::VmExitReason), Ok(48));
    assert_eq!(vmcs.read64(VmcsField64::GuestPhysicalAddr), Ok(0xABC));
    assert_eq!(vmcs.read_natural(VmcsFieldNatural::GuestRip), Ok(0xFFFF_0000));
    vmcs.write32(VmcsField32::VmExitReason, 10).unwrap();
    assert_eq!(vmcs.read32(VmcsField32::VmExitReason), Ok(10));
    assert!(vmcs.read_natural(VmcsFieldNatural::GuestRflags).is_err());
}

#[test]
fn serial_output_collects_bytes_and_lines() {
    let mut s = state();
    for b in b"hi\nyo" {
        assert!(s.serial_write(*b));
    }
    assert_eq!(s.serial_output(), b"hi\nyo");
    assert_eq!(s.serial_output.line_count(), 2);
    s.serial_clear();
    assert_eq!(s.serial_output(), b"");
}

#[test]
fn serial_output_refuses_when_full() {
    let mut s = state();
    for _ in 0..4096 {
        assert!(s.serial_write(b'a'));
    }
    assert!(!s.serial_write(b'b'));
    assert_eq!(s.serial_output().len(), 4096);
    assert_eq!(s.serial_output.line_count(), 1);
}

#[test]
fn all_exits_mode_logs_every_exit() {
    let mut s = state();
    s.set_log_buffer(LogBuffer::new());
    s.set_log_mode(LogMode::AllExits, 0);
    s.emulated_tsc = 77;
    s.gprs.rax = 5;
    s.log_exit(ExitReason::Cpuid, 0x12, true);
    s.log_exit(ExitReason::Hlt, 0, false);
    assert_eq!(s.log_entry_count(), 2);
    let buf = s.log_buffer.as_ref().unwrap();
    let e0 = buf.get(0);
    assert_eq!(e0.tsc, 77);
    assert_eq!(e0.exit_reason, ExitReason::Cpuid.code());
    assert_eq!(e0.exit_qualification, 0x12);
    assert_eq!(e0.flags, LOG_ENTRY_FLAG_DETERMINISTIC);
    assert_eq!(e0.rax, 5);
    assert_eq!(buf.get(1).flags, 0);
    assert_eq!(s.pending_log_idx, Some(1));
}

#[test]
fn at_tsc_mode_logs_once() {
    let mut s = state();
    s.set_log_buffer(LogBuffer::new());
    s.set_log_mode(LogMode::AtTsc, 1000);
    s.emulated_tsc = 999;
    s.log_exit(ExitReason::Cpuid, 0, true);
    assert_eq!(s.log_entry_count(), 0);
    s.emulated_tsc = 1000;
    s.log_exit(ExitReason::Cpuid, 0, false);
    assert_eq!(s.log_entry_count(), 0);
    s.log_exit(ExitReason::Cpuid, 0, true);
    assert_eq!(s.log_entry_count(), 1);
    s.emulated_tsc = 2000;
    s.log_exit(ExitReason::Cpuid, 0, true);
    assert_eq!(s.log_entry_count(), 1);
}

#[test]
fn checkpoint_mode_logs_once_per_interval() {
    let mut s = state();
    s.set_log_buffer(LogBuffer::new());
    s.set_log_mode(LogMode::Checkpoints, 100);
    s.emulated_tsc = 50;
    s.log_exit(ExitReason::Cpuid, 0, true);
    assert_eq!(s.log_entry_count(), 0);
    s.emulated_tsc = 150;
    s.log_exit(ExitReason::Cpuid, 0, true);
    s.emulated_tsc = 199;
    s.log_exit(ExitReason::Cpuid, 0, true);
    assert_eq!(s.log_entry_count(), 1);
    s.emulated_tsc = 420;
    s.log_exit(ExitReason::Cpuid, 0, true);
    assert_eq!(s.log_entry_count(), 2);
    assert_eq!(s.last_checkpoint_idx, 4);
}

#[test]
fn logging_waits_for_start_tsc_and_needs_a_buffer() {
    let mut s = state();
    s.set_log_mode(LogMode::AllExits, 0);
    s.log_exit(ExitReason::Cpuid, 0, true);
    assert_eq!(s.log_entry_count(), 0);
    s.set_log_buffer(LogBuffer::new());
    s.set_log_start_tsc(500);
    s.emulated_tsc = 499;
    s.log_exit(ExitReason::Cpuid, 0, true);
    assert_eq!(s.log_entry_count(), 0);
    s.emulated_tsc = 500;
    s.log_exit(ExitReason::Cpuid, 0, true);
    assert_eq!(s.log_entry_count(), 1);
    s.disable_logging();
    s.log_exit(ExitReason::Cpuid, 0, true);
    assert_eq!(s.log_entry_count(), 1);
    assert!(!s.log_enabled());
}

#[test]
fn shutdown_logged_only_in_at_shutdown_mode() {
    let mut s = state();
    s.set_log_buffer(LogBuffer::new());
    s.set_log_mode(LogMode::AtShutdown, 0);
    s.log_exit(ExitReason::Cpuid, 0, true);
    assert_eq!(s.log_entry_count(), 0);
    s.log_shutdown();
    assert_eq!(s.log_entry_count(), 1);
    assert_eq!(s.log_buffer.as_ref().unwrap().get(0).exit_reason, ExitReason::VmcallShutdown.code());
    s.log_shutdown();
    assert_eq!(s.log_entry_count(), 1);
}

#[test]
fn exit_statistics_sum_up() {
    let mut stats = AllExitStats::zero();
    stats.record(ExitReason::Cpuid, 100);
    stats.record(ExitReason::Cpuid, 50);
    stats.record(ExitReason::Hlt, 10);
    stats.record(ExitReason::Monitor, 1);
    assert_eq!(stats.cpuid.count, 2);
    assert_eq!(stats.cpuid.cycles, 150);
    assert_eq!(stats.cpuid.avg_cycles(), 75);
    assert_eq!(stats.other.count, 1);
    assert_eq!(stats.total_exit_count(), 4);
    assert_eq!(stats.total_exit_cycles(), 161);
    assert_eq!(ExitStats::zero().avg_cycles(), 0);
    stats.reset();
    assert_eq!(stats.total_exit_count(), 0);
}

fn segment(sel: u16, base: u64) -> SegmentRegister {
    SegmentRegister::new(sel, 0xA09B, 0xFFFF_FFFF, base)
}

#[test]
fn registers_read_back_after_set() {
    let mut s = state();
    let mut caps = VmxCapabilities::zero();
    caps.cr0_fixed0 = 0x20;
    caps.cr0_fixed1 = u64::MAX;
    caps.cr4_fixed0 = 0x2000;
    caps.cr4_fixed1 = u64::MAX;
    let mut gprs = GeneralPurposeRegisters::zeroed();
    gprs.rax = 1;
    gprs.r15 = 15;
    let regs = GuestRegisters {
        gprs,
        control_regs: ControlRegisters {
            cr0: Cr0::new(0x8000_0011),
            cr2: Cr2::new(0),
            cr3: Cr3::new(0x1000),
            cr4: Cr4::new(0x20),
            cr8: Cr8::new(0),
        },
        debug_regs: DebugRegisters { dr0: 0, dr1: 0, dr2: 0, dr3: 0, dr6: 0, dr7: 0x400 },
        segment_regs: SegmentRegisters {
            cs: segment(0x10, 0),
            ds: segment(0x18, 0),
            es: segment(0x18, 0),
            fs: segment(0, 0x7000),
            gs: segment(0, 0x8000),
            ss: segment(0x18, 0),
            tr: segment(0x28, 0x9000),
            ldtr: segment(0, 0),
        },
        descriptor_tables: DescriptorTableRegisters {
            gdtr: Gdtr::new(0x5000, 0x37),
            idtr: Idtr::new(0x6000, 0xFFF),
        },
        extended_control_regs: ExtendedControlRegisters { efer: Efer::new(0x500) },
        rip: 0x40_0000,
        rflags: 0x2,
    };
    assert!(get_registers(&s).is_err());
    assert!(set_registers(&mut s, &regs, &caps).is_ok());
    let g = get_registers(&s).unwrap();
    assert_eq!(g.gprs.rax, 1);
    assert_eq!(g.gprs.r15, 15);
    assert_eq!(g.rip, 0x40_0000);
    assert_eq!(g.rflags, 0x2);
    assert_eq!(g.control_regs.cr0.bits(), 0x8000_0031);
    assert_eq!(g.control_regs.cr3.bits(), 0x1000);
    assert_eq!(g.control_regs.cr4.bits(), 0x2020);
    assert_eq!(g.debug_regs.dr7, 0x400);
    assert_eq!(g.segment_regs.cs.selector.bits(), 0x10);
    assert_eq!(g.segment_regs.fs.base, 0x7000);
    assert_eq!(g.segment_regs.tr.access_rights.bits(), 0xA09B);
    assert_eq!(g.segment_regs.tr.limit, 0xFFFF_FFFF);
    assert_eq!(g.descriptor_tables.gdtr.base, 0x5000);
    assert_eq!(g.descriptor_tables.gdtr.limit, 0x37);
    assert_eq!(g.descriptor_tables.idtr.limit, 0xFFF);
    assert_eq!(g.extended_control_regs.efer.bits(), 0x500);
}

#[test]
fn container_death_events() {
    let died = Event {
        type_: Some("container".to_string()),
        status: Some("died".to_string()),
        exit_code: Some(3),
    };
    assert_eq!(died.container_death_exit_code(), Some(3));
    let no_code = Event { exit_code: None, ..died.clone() };
    assert_eq!(no_code.container_death_exit_code(), Some(0));
    let start = Event { status: Some("start".to_string()), ..died.clone() };
    assert_eq!(start.container_death_exit_code(), None);
    let image = Event { type_: Some("image".to_string()), ..died.clone() };
    assert_eq!(image.container_death_exit_code(), None);
    let empty = Event { type_: None, status: None, exit_code: None };
    assert_eq!(empty.container_death_exit_code(), None);
}

#[test]
fn cow_page_map_keeps_pages_by_gpa() {
    let mut m: CowPageMap<u32> = CowPageMap::new();
    assert!(m.is_empty());
    assert!(m.insert(0x1000, 7).is_ok());
    assert!(m.insert(0x3000, 9).is_ok());
    assert_eq!(m.len(), 2);
    assert_eq!(m.get(0x1000), Some(&7));
    assert_eq!(m.get(0x2000), None);
    assert!(m.contains(0x3000));
    assert!(m.insert(0x1000, 8).is_ok());
    assert_eq!(m.get(0x1000), Some(&8));
    assert_eq!(m.len(), 2);
}

#[test]
fn begin_request_caps_the_length() {
    let mut r = bedrock_vmx::devices::random::RandomState::new();
    r.begin_request(0x1000, 1000, 7);
    assert_eq!(r.req_len, 256);
    assert!(r.awaiting);
    r.begin_request(0x2000, 16, 8);
    assert_eq!(r.req_len, 16);
    assert_eq!(r.buf_gva, 0x2000);
}
