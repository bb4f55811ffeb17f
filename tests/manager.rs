use std::collections::BTreeMap;

use acpi_tables::layout::RSDP_ADDR;
use acpi_tables::{AcpiManager, AcpiManagerError, ArchLayout, GicLayout, GuestWrite, ResourceAllocator};

fn sum(bytes: &[u8]) -> u32 {
    bytes.iter().map(|&b| b as u32).sum()
}

fn u32_at(bytes: &[u8], off: usize) -> u32 {
    u32::from_le_bytes(bytes[off..off + 4].try_into().unwrap())
}

fn u64_at(bytes: &[u8], off: usize) -> u64 {
    u64::from_le_bytes(bytes[off..off + 8].try_into().unwrap())
}

/// Lays the writes out as guest memory would hold them.
fn memory(writes: &[GuestWrite]) -> BTreeMap<u64, Vec<u8>> {
    let mut mem = BTreeMap::new();
    for w in writes {
        assert!(mem.insert(w.address, w.bytes.clone()).is_none());
    }
    mem
}

/// Resolves `addr` to the table written there, checking its length field and checksum.
fn table_at<'a>(mem: &'a BTreeMap<u64, Vec<u8>>, addr: u64, signature: &[u8; 4]) -> &'a [u8] {
    let t = mem.get(&addr).expect("pointer to nothing");
    assert_eq!(&t[0..4], signature);
    assert_eq!(u32_at(t, 4) as usize, t.len());
    assert_eq!(sum(t) % 256, 0);
    t
}

fn follow_chain(writes: &[GuestWrite], rsdp_addr: u64, expected: &[&[u8; 4]]) {
    let mem = memory(writes);
    let rsdp = mem.get(&rsdp_addr).expect("no root pointer");
    assert_eq!(&rsdp[0..8], b"RSD PTR ");
    assert_eq!(sum(&rsdp[..20]) % 256, 0);
    assert_eq!(sum(rsdp) % 256, 0);
    let xsdt = table_at(&mem, u64_at(rsdp, 24), b"XSDT");
    assert_eq!((xsdt.len() - 36) / 8, expected.len());
    for (j, sig) in expected.iter().enumerate() {
        table_at(&mem, u64_at(xsdt, 36 + 8 * j), sig);
    }
    let fadt = table_at(&mem, u64_at(xsdt, 36), b"FACP");
    let dsdt_addr = u64_at(fadt, 140);
    assert_eq!(u32_at(fadt, 40) as u64, dsdt_addr);
    table_at(&mem, dsdt_addr, b"DSDT");
}

fn no_overlap(writes: &[GuestWrite]) {
    for w in &writes[..writes.len() - 1] {
        assert_eq!(w.address % 64, 0);
    }
    for (i, a) in writes.iter().enumerate() {
        for b in &writes[i + 1..] {
            let (a0, a1) = (a.address, a.address + a.bytes.len() as u64);
            let (b0, b1) = (b.address, b.address + b.bytes.len() as u64);
            assert!(a1 <= b0 || b1 <= a0);
        }
    }
}

#[test]
fn x86_chain_has_two_tables_and_every_pointer_resolves() {
    let mut alloc = ResourceAllocator::new().unwrap();
    let manager = AcpiManager::new(RSDP_ADDR, ArchLayout::X86_64);
    let writes = manager.create_acpi_tables(&mut alloc, &[0, 1, 2, 3], vec![0x10, 0x20, 0x30]).unwrap();
    assert_eq!(writes.len(), 5);
    assert_eq!(writes[4].address, RSDP_ADDR);
    follow_chain(&writes, RSDP_ADDR, &[b"FACP", b"APIC"]);
    no_overlap(&writes);
    let madt = &writes[2].bytes;
    // base, flags, one I/O APIC, four local APICs
    assert_eq!(madt.len(), 44 + 12 + 4 * 8);
    assert_eq!(u16::from_le_bytes([writes[1].bytes[109], writes[1].bytes[110]]), 0x1c);
    assert_eq!(u32_at(&writes[1].bytes, 112), 0x10_0030);
    assert_eq!(&writes[0].bytes[36..], &[0x10, 0x20, 0x30]);
}

#[test]
fn aarch64_chain_has_four_tables_and_every_pointer_resolves() {
    let mut alloc = ResourceAllocator::new().unwrap();
    let gic = GicLayout { dist_addr: 0x3fff_0000, redists_addr: 0x3ffd_0000, redists_size: 0x2_0000 };
    let manager = AcpiManager::new(0x4000_0000, ArchLayout::Aarch64(gic));
    let mpidrs = [0x8000_0000u64, 0x8000_0001];
    let writes = manager.create_acpi_tables(&mut alloc, &mpidrs, vec![]).unwrap();
    assert_eq!(writes.len(), 7);
    follow_chain(&writes, 0x4000_0000, &[b"FACP", b"APIC", b"PPTT", b"GTDT"]);
    no_overlap(&writes);
    let madt = &writes[2].bytes;
    assert_eq!(madt.len(), 44 + 2 * 80 + 24 + 16 + 20);
    assert_eq!(u64_at(madt, 44 + 68), 0x8000_0000 & 0xff_00ff_ffff);
    // the translation service sits right below the redistributors
    let its = 44 + 2 * 80 + 24 + 16;
    assert_eq!(madt[its], 0xF);
    assert_eq!(u64_at(madt, its + 8), 0x3ffb_0000);
    assert_eq!(writes[3].bytes.len(), 36 + 3 * 20);
}

#[test]
fn tables_that_do_not_fit_report_the_allocator() {
    let mut alloc = ResourceAllocator::with_ranges(5, 23, 0xd000_0000, 0x1000, 0x10_0000, 0x100).unwrap();
    let manager = AcpiManager::new(RSDP_ADDR, ArchLayout::X86_64);
    match manager.create_acpi_tables(&mut alloc, &[0], vec![0; 0x200]) {
        Err(AcpiManagerError::VmAllocator(_)) => {}
        other => panic!("unexpected: {:?}", other.map(|w| w.len())),
    }
}

#[test]
fn table_ending_at_the_top_of_the_address_space_is_not_placed() {
    // a 64-byte region ending at the last address: the address one past a
    // 64-byte DSDT placed there would not be representable
    let mut alloc = ResourceAllocator::with_ranges(5, 23, 0xd000_0000, 0x1000, u64::MAX - 63, 64).unwrap();
    let manager = AcpiManager::new(RSDP_ADDR, ArchLayout::X86_64);
    match manager.create_acpi_tables(&mut alloc, &[0], vec![0; 28]) {
        Err(AcpiManagerError::VmAllocator(_)) => {}
        other => panic!("unexpected: {:?}", other.map(|w| w.len())),
    }
}

#[test]
fn root_pointer_past_the_address_space_reports_the_table_error() {
    let mut alloc = ResourceAllocator::new().unwrap();
    let manager = AcpiManager::new(u64::MAX - 10, ArchLayout::X86_64);
    match manager.create_acpi_tables(&mut alloc, &[0], vec![]) {
        Err(AcpiManagerError::AcpiTables(acpi_tables::AcpiError::InvalidGuestAddress)) => {}
        other => panic!("unexpected: {:?}", other.map(|w| w.len())),
    }
}

#[test]
fn tables_fill_a_region_that_just_holds_them() {
    // x86_64 with one vCPU and no namespace bytes: DSDT 36, FADT 276,
    // MADT 64 and XSDT 52 bytes, each at the next 64-byte boundary
    let needed = 64 + 320 + 64 + 52;
    let mut alloc = ResourceAllocator::with_ranges(5, 23, 0xd000_0000, 0x1000, 0x10_0000, needed).unwrap();
    let manager = AcpiManager::new(RSDP_ADDR, ArchLayout::X86_64);
    let writes = manager.create_acpi_tables(&mut alloc, &[0], vec![]).unwrap();
    let addrs: Vec<u64> = writes.iter().map(|w| w.address).collect();
    assert_eq!(addrs, vec![0x10_0000, 0x10_0040, 0x10_0180, 0x10_01c0, RSDP_ADDR]);
    let mut short = ResourceAllocator::with_ranges(5, 23, 0xd000_0000, 0x1000, 0x10_0000, needed - 1).unwrap();
    assert!(matches!(
        manager.create_acpi_tables(&mut short, &[0], vec![]),
        Err(AcpiManagerError::VmAllocator(_))
    ));
}

#[test]
fn xsdt_builder_takes_more_than_four_tables() {
    let mut alloc = ResourceAllocator::new().unwrap();
    let manager = AcpiManager::new(RSDP_ADDR, ArchLayout::X86_64);
    let w = manager.build_xsdt(&mut alloc, vec![1, 2, 3, 4, 5, 6]).unwrap();
    assert_eq!(w.bytes.len(), 36 + 48);
    assert_eq!(u64_at(&w.bytes, 36 + 40), 6);
}
