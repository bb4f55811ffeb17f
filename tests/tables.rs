use acpi_tables::madt::{GicC, GicD, GicIts, GicR, IoAPIC, LocalAPIC, Madt};
use acpi_tables::pptt::Pptt;
use acpi_tables::{
    AcpiError, AddressSpace, Dsdt, Fadt, GenericAddressStructure, Gtdt, Rsdp, Sdt, SdtHeader, Xsdt,
};

const OEM: [u8; 6] = *b"FIRECK";

fn sum(bytes: &[u8]) -> u32 {
    bytes.iter().map(|&b| b as u32).sum()
}

fn u32_at(bytes: &[u8], off: usize) -> u32 {
    u32::from_le_bytes(bytes[off..off + 4].try_into().unwrap())
}

fn u64_at(bytes: &[u8], off: usize) -> u64 {
    u64::from_le_bytes(bytes[off..off + 8].try_into().unwrap())
}

/// Writes `table`, checks the checksum, the length and the header length
/// field, and returns the bytes.
fn finished<S: Sdt>(table: &mut S, address: u64) -> Vec<u8> {
    let len = table.len();
    let w = table.write_to_guest(address).unwrap();
    assert_eq!(w.address, address);
    assert_eq!(w.bytes.len(), len);
    assert_eq!(sum(&w.bytes) % 256, 0);
    assert_eq!(table.len(), len);
    w.bytes
}

#[test]
fn header_layout_is_36_bytes_in_order() {
    let h = SdtHeader {
        signature: *b"ABCD",
        length: 0x0102_0304,
        revision: 7,
        checksum: 9,
        oem_id: *b"OEMOEM",
        oem_table_id: *b"TABLEID!",
        oem_revision: 5,
        creator_id: *b"CRTR",
        creator_revison: 6,
    };
    let b = h.as_bytes();
    assert_eq!(b.len(), 36);
    assert_eq!(&b[0..4], b"ABCD");
    assert_eq!(&b[4..8], &[4, 3, 2, 1]);
    assert_eq!(b[8], 7);
    assert_eq!(b[9], 9);
    assert_eq!(&b[10..16], b"OEMOEM");
    assert_eq!(&b[16..24], b"TABLEID!");
    assert_eq!(u32_at(&b, 24), 5);
    assert_eq!(&b[28..32], b"CRTR");
    assert_eq!(u32_at(&b, 32), 6);
}

#[test]
fn generic_address_helpers() {
    let g = GenericAddressStructure::system_io_address(2, 0x504);
    assert_eq!(g.address_space_id, 1);
    assert_eq!(g.register_bit_width, 0);
    assert_eq!(g.access_size, 2);
    assert_eq!(g.address, 0x504);
    assert_eq!(AddressSpace::PCC.id(), 0xa0);
    assert_eq!(AddressSpace::FunctionalFixedHw.id(), 0x7f);
    let mut v = Vec::new();
    GenericAddressStructure::new(0, 32, 0, 4, 0x500).push_bytes(&mut v);
    assert_eq!(v, vec![0, 32, 0, 4, 0x00, 0x05, 0, 0, 0, 0, 0, 0]);
}

#[test]
fn dsdt_lengths_for_empty_single_and_many_bytes() {
    for n in [0usize, 1, 300] {
        let block: Vec<u8> = (0..n).map(|i| i as u8).collect();
        let mut dsdt = Dsdt::new(OEM, *b"FCVMDSDT", 0, block.clone());
        assert_eq!(dsdt.len(), 36 + n);
        let bytes = finished(&mut dsdt, 0x1000);
        assert_eq!(&bytes[0..4], b"DSDT");
        assert_eq!(u32_at(&bytes, 4) as usize, 36 + n);
        assert_eq!(&bytes[36..], block.as_slice());
        assert_eq!(&bytes[28..32], b"FCAT");
        assert_eq!(u32_at(&bytes, 32), 0x20240119);
    }
}

#[test]
fn xsdt_lists_addresses_in_order() {
    let addrs = vec![0x1000u64, 0xdead_beef_0000, 7];
    let mut xsdt = Xsdt::new(OEM, *b"FCMVXSDT", 0, addrs.clone());
    assert_eq!(xsdt.len(), 36 + 8 * 3);
    let bytes = finished(&mut xsdt, 0x2000);
    assert_eq!(&bytes[0..4], b"XSDT");
    assert_eq!(bytes[8], 1);
    for (j, a) in addrs.iter().enumerate() {
        assert_eq!(u64_at(&bytes, 36 + 8 * j), *a);
    }
    let mut empty = Xsdt::new(OEM, *b"FCMVXSDT", 0, vec![]);
    assert_eq!(empty.len(), 36);
    finished(&mut empty, 0);
}

#[test]
fn fadt_layout_and_pointers() {
    let evt = GenericAddressStructure::new(1, 32, 0, 4, 0x500);
    let cnt = GenericAddressStructure::new(1, 16, 0, 2, 0x504);
    let mut fadt = Fadt::new(OEM, *b"FCVMFADT", 0, 0x10_0040, 9, evt, cnt, *b"FIRECKVM");
    fadt.set_flags(0x10_0030);
    fadt.setup_iapc_flags(0x1c);
    assert_eq!(fadt.len(), 276);
    let bytes = finished(&mut fadt, 0x3000);
    assert_eq!(bytes.len(), 276);
    assert_eq!(&bytes[0..4], b"FACP");
    assert_eq!(bytes[8], 6);
    assert_eq!(u32_at(&bytes, 40), 0x10_0040);
    assert_eq!(u16::from_le_bytes([bytes[46], bytes[47]]), 9);
    assert_eq!(bytes[88], 4);
    assert_eq!(bytes[89], 2);
    assert_eq!(u16::from_le_bytes([bytes[109], bytes[110]]), 0x1c);
    assert_eq!(u32_at(&bytes, 112), 0x10_0030);
    assert_eq!(bytes[131], 5);
    assert_eq!(u64_at(&bytes, 140), 0x10_0040);
    assert_eq!(&bytes[148..150], &[1, 32]);
    assert_eq!(u64_at(&bytes, 152), 0x500);
    assert_eq!(&bytes[268..276], b"FIRECKVM");
}

#[test]
fn fadt_keeps_legacy_pointer_zero_above_4g() {
    let g = GenericAddressStructure::default();
    let mut fadt = Fadt::new(OEM, *b"FCVMFADT", 0, 0x1_0000_0000, 9, g, g, *b"FIRECKVM");
    let bytes = finished(&mut fadt, 0);
    assert_eq!(u32_at(&bytes, 40), 0);
    assert_eq!(u64_at(&bytes, 140), 0x1_0000_0000);
}

#[test]
fn madt_lengths_for_zero_one_and_many_entries() {
    let mut madt = Madt::new(OEM, *b"FCVMMADT", 0, 0xfee0_0000);
    assert_eq!(madt.len(), 44);
    let bytes = finished(&mut madt, 0);
    assert_eq!(&bytes[0..4], b"APIC");
    assert_eq!(u32_at(&bytes, 36), 0xfee0_0000);

    let mut one = Madt::new(OEM, *b"FCVMMADT", 0, 0xfee0_0000);
    one.setup_ioapic(0xfec0_0000);
    assert_eq!(one.len(), 56);
    let bytes = finished(&mut one, 0);
    assert_eq!(&bytes[44..56], &[1, 12, 0, 0, 0, 0, 0xc0, 0xfe, 0, 0, 0, 0]);

    let mut many = Madt::new(OEM, *b"FCVMMADT", 0, 0xfee0_0000);
    many.setup_ioapic(0xfec0_0000);
    many.setup_local_apic(3);
    assert_eq!(many.len(), 44 + 12 + 3 * 8);
    let bytes = finished(&mut many, 0);
    assert_eq!(u32_at(&bytes, 4) as usize, bytes.len());
    assert_eq!(&bytes[56..64], &[0, 8, 0, 0, 1, 0, 0, 0]);
    assert_eq!(&bytes[72..80], &[0, 8, 2, 2, 1, 0, 0, 0]);
}

/// Walks entries by their length bytes, as a guest does.
fn walk(entries: &[u8]) -> Vec<(u8, u8)> {
    let mut out = Vec::new();
    let mut i = 0;
    while i < entries.len() {
        let (t, l) = (entries[i], entries[i + 1]);
        assert!(l >= 2);
        out.push((t, l));
        i += l as usize;
    }
    assert_eq!(i, entries.len());
    out
}

#[test]
fn madt_entries_walk_back_by_type_and_length() {
    let mut madt = Madt::new(OEM, *b"FCVMMADT", 0, 0);
    let entries: Vec<Vec<u8>> = vec![
        GicC::new(0, 0x8000_0000).as_bytes(),
        GicC::new(1, 0x8000_0001).as_bytes(),
        GicD::new(0x0800_0000).as_bytes(),
        GicR::new(0x080a_0000, 0x00f6_0000).as_bytes(),
        GicIts::new(0x0808_0000).as_bytes(),
        LocalAPIC::new(4).as_bytes(),
        IoAPIC::new(0, 0xfec0_0000).as_bytes(),
    ];
    let mut total = 0;
    for e in &entries {
        madt.add_interrupt_controller(e);
        total += e.len();
    }
    assert_eq!(madt.len(), 44 + total);
    let bytes = finished(&mut madt, 0);
    let walked = walk(&bytes[44..]);
    let expected: Vec<(u8, u8)> = vec![(0xB, 80), (0xB, 80), (0xC, 24), (0xE, 16), (0xF, 20), (0, 8), (1, 12)];
    assert_eq!(walked, expected);
    for e in &entries {
        assert_eq!(e[1] as usize, e.len());
    }
}

#[test]
fn gicc_keeps_only_affinity_bits() {
    let g = GicC::new(3, u64::MAX);
    assert_eq!(g.mpidr, 0xff_00ff_ffff);
    assert_eq!(g.cpu_interface_number, 3);
    assert_eq!(g.uid, 3);
    let b = g.as_bytes();
    assert_eq!(b.len(), 80);
    assert_eq!(u64_at(&b, 68), 0xff_00ff_ffff);
    let d = GicD::new(0x1234);
    assert_eq!(d.version, 3);
    assert_eq!(u64_at(&d.as_bytes(), 8), 0x1234);
    let r = GicR::new(0x5678, 0x10);
    assert_eq!(r.range_length, 0x10);
    let its = GicIts::new(0x9abc);
    assert_eq!(u64_at(&its.as_bytes(), 8), 0x9abc);
}

#[test]
fn gtdt_describes_four_timers() {
    let mut gtdt = Gtdt::new(OEM, *b"FCVMGTDT", 0);
    assert_eq!(gtdt.len(), 104);
    let bytes = finished(&mut gtdt, 0x100);
    assert_eq!(&bytes[0..4], b"GTDT");
    // secure, non-secure, virtual and EL2 timers: interrupt then flags
    assert_eq!(u32_at(&bytes, 48), 29);
    assert_eq!(u32_at(&bytes, 52), 0);
    assert_eq!(u32_at(&bytes, 56), 30);
    assert_eq!(u32_at(&bytes, 60), 4);
    assert_eq!(u32_at(&bytes, 64), 27);
    assert_eq!(u32_at(&bytes, 72), 26);
}

#[test]
fn pptt_has_root_and_one_leaf_per_cpu() {
    for n in [0u8, 1, 4] {
        let mut pptt = Pptt::new(OEM, *b"FCVMPPTT", 0, n);
        assert_eq!(pptt.len(), 36 + 20 * (n as usize + 1));
        let bytes = finished(&mut pptt, 0);
        assert_eq!(&bytes[0..4], b"PPTT");
        assert_eq!(u32_at(&bytes, 36 + 4), 0x2);
        for cpu in 0..n as usize {
            let node = 36 + 20 * (cpu + 1);
            assert_eq!(bytes[node + 1], 20);
            assert_eq!(u32_at(&bytes, node + 4), 0xA);
            assert_eq!(u32_at(&bytes, node + 8), 36);
            assert_eq!(u32_at(&bytes, node + 12), cpu as u32);
        }
    }
}

#[test]
fn rsdp_checksums_both_hold() {
    let rsdp = Rsdp::new(OEM, 0x0010_0100);
    let bytes = rsdp.as_bytes();
    assert_eq!(bytes.len(), 36);
    assert_eq!(&bytes[0..8], b"RSD PTR ");
    assert_eq!(&bytes[9..15], b"FIRECK");
    assert_eq!(bytes[15], 2);
    assert_eq!(u32_at(&bytes, 16), 0);
    assert_eq!(u32_at(&bytes, 20), 36);
    assert_eq!(u64_at(&bytes, 24), 0x0010_0100);
    assert_eq!(sum(&bytes[..20]) % 256, 0);
    assert_eq!(sum(&bytes) % 256, 0);
    let mut rsdp = rsdp;
    let again = finished(&mut rsdp, 0xe0000);
    assert_eq!(again, bytes);
}

#[test]
fn write_past_the_address_space_is_refused() {
    let mut dsdt = Dsdt::new(OEM, *b"FCVMDSDT", 0, vec![1, 2, 3]);
    match dsdt.write_to_guest(u64::MAX - 10) {
        Err(AcpiError::InvalidGuestAddress) => {}
        other => panic!("unexpected: {:?}", other.map(|w| w.address)),
    }
    assert!(dsdt.write_to_guest(u64::MAX - 39 + 1).is_err());
    assert!(dsdt.write_to_guest(u64::MAX - 39 - 1).is_ok());
    assert!(!dsdt.is_empty());
}
