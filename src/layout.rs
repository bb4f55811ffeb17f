//! Fixed addresses and ranges of the x86_64 guest layout.
use vstd::prelude::*;

verus! {

/// Initial stack for the boot CPU.
pub const BOOT_STACK_POINTER: u64 = 0x8ff0;

/// Kernel command line start address.
pub const CMDLINE_START: u64 = 0x20000;

/// Kernel command line maximum size.
pub const CMDLINE_MAX_SIZE: usize = 2048;

/// Start of the high memory (1 MiB).
pub const HIMEM_START: u64 = 0x0010_0000;

/// First usable interrupt line for devices.
pub const IRQ_BASE: u32 = 5;

/// Last usable interrupt line for devices.
pub const IRQ_MAX: u32 = 23;

/// Address for the TSS setup.
pub const KVM_TSS_ADDRESS: u64 = 0xfffb_d000;

/// The zero page, holding the kernel boot parameters.
pub const ZERO_PAGE_START: u64 = 0x7000;

/// Local APIC address.
pub const APIC_ADDR: u32 = 0xfee0_0000;

/// I/O APIC address.
pub const IOAPIC_ADDR: u32 = 0xfec0_0000;

/// Start of the memory region that holds the ACPI tables: the beginning of
/// high memory.
pub const ACPI_MEM_START: u64 = 0x0010_0000;

/// Size of the memory region that holds the ACPI tables.
pub const ACPI_MEM_SIZE: u64 = 4096;

/// Start of the MMIO window for devices: the 768 MiB gap below 4 GiB.
pub const MMIO_MEM_START: u64 = 0xd000_0000;

/// Size of the MMIO window for devices.
pub const MMIO_MEM_SIZE: u64 = 0x3000_0000;

/// Where the root pointer is placed, inside the BIOS area that the guest
/// searches for it.
pub const RSDP_ADDR: u64 = 0x000e_0000;

} // verus!
