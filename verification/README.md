# bedrock_vmx

The core of the bedrock VMX hypervisor: the state of a deterministic VM and
the handling of its VM exits, written in Verus with every function proved
against its contract.

Guest time is derived from a retired-instruction count, so that a guest sees
the same time at the same point of its execution on every run; VM exits are
logged so that runs can be compared.

## Layout

- `src/vmcs.rs`, `src/fields.rs`: the VMCS as a map from field encodings to
  values, with a read-after-write law.
- `src/vm_state/`: the state of one VM (registers, MSR bitmap, console output,
  exit statistics, log buffer) and the logging modes.
- `src/vm/`: a VM together with its guest memory.
- `src/exits/`: exit reasons and qualifications, the handlers that run inside
  the hypervisor (control registers, time, interrupts and the APIC timer, EPT
  violations and the guest page walk, hypercalls), and the exit path that ties
  them together. Handlers that live outside the crate (CPUID, MSR, port I/O,
  APIC MMIO, copy-on-write, copying a registered feedback buffer's pages
  ahead) are reached through the `ExitEmulation` trait.
- `src/decoder.rs`: decoding of the MOV forms used for MMIO emulation.
- `src/traits/`: VMX capabilities and control adjustment, guest register
  load/store, the VPID allocator, the instruction counter.
- `src/devices/`: APIC, I/O APIC, UART and RDRAND device state.
- `src/handler.rs`: tracking of the VMs that exist and their IDs.
- `src/monitor.rs`: the container-death rule of the workload monitor.
- `app/main.rs`: the workload monitor program (process and file I/O around
  `monitor::Event`).
- `tests/`: tests run against the compiled library.
