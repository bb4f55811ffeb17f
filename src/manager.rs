//! Builds the whole chain of tables in dependency order, places each one with
//! the resource allocator, and wires the pointers between them: DSDT, FADT,
//! MADT, then (on aarch64) PPTT and GTDT, then XSDT, and the root pointer
//! last, at its fixed address.
use crate::codec::{
    checksum_valid, le16, le32, le64, le64_concat, lemma_le64_concat, lemma_le_lengths,
    lemma_u64_at_shift, u64_at,
};
use crate::dsdt::{Dsdt, DSDT_SIGNATURE};
use crate::fadt::{
    fadt_fields_bytes, FadtView, fresh_fadt_fields, lemma_fadt_layout, Fadt, FadtFields,
    FADT_F_HW_REDUCED_ACPI, FADT_F_PWR_BUTTON, FADT_F_SLP_BUTTON, FADT_SIGNATURE, FADT_SIZE,
    FADT_X_DSDT_OFFSET, IAPC_BOOT_ARG_FLAGS_MSI_NOT_PRESENT, IAPC_BOOT_ARG_FLAGS_PCI_ASPM,
    IAPC_BOOT_ARG_FLAGS_VGA_NOT_PRESENT,
};
use crate::gtdt::{default_timers, gtdt_inner_bytes, Gtdt, GTDT_SIGNATURE, GTDT_SIZE};
use crate::layout::{APIC_ADDR, IOAPIC_ADDR};
use crate::madt::{
    gic_its_bytes, gicc_bytes, gicc_for, gicr_bytes, io_apic_bytes, lemma_local_apics_len,
    local_apics_bytes, madt_image,
    madt_payload, GicC, GicD, GicIts, GicR, IoAPIC, Madt, MadtView, MADT_FIXED_SIZE,
    MADT_SIGNATURE,
};
use crate::pptt::{
    leaf_nodes_bytes, node_bytes, root_node, Pptt, PPTT_SIGNATURE, PROCESSOR_NODE_SIZE,
};
use crate::resources::{
    address_range, aligned_fit, carved, first_fit, has_fit, is_power_of_two, ResourceAllocator,
};
use crate::rsdp::{
    lemma_rsdp_layout, lemma_rsdp_sealed_idempotent, lemma_rsdp_sealed_valid, rsdp_fields,
    rsdp_image, rsdp_sealed, Rsdp, RSDP_LEGACY_SIZE, RSDP_SIZE, RSDP_XSDT_OFFSET,
};
use crate::sdt::{
    fresh_header, header_bytes, lemma_header_len, lemma_sealed_header_idempotent, sealed_header,
    AcpiError, AddressSpace, GenericAddressStructure, GuestWrite, Sdt, SdtHeader, ACPI_SCI_INT,
    SDT_HEADER_SIZE,
};
use crate::xsdt::{Xsdt, XSDT_SIGNATURE};
use vm_allocator::AllocPolicy;
use vstd::prelude::*;

verus! {

/// The OEM name recorded in every table ("FIRECK").
pub const OEM_ID: [u8; 6] = [0x46, 0x49, 0x52, 0x45, 0x43, 0x4b];

/// The OEM revision recorded in every table.
pub const OEM_REVISION: u32 = 0;

/// Tells the guest which hypervisor it runs under ("FIRECKVM").
pub const HYPERVISOR_VENDOR_ID: [u8; 8] = [0x46, 0x49, 0x52, 0x45, 0x43, 0x4b, 0x56, 0x4d];

/// OEM table id of the DSDT ("FCVMDSDT").
pub const DSDT_TABLE_ID: [u8; 8] = [0x46, 0x43, 0x56, 0x4d, 0x44, 0x53, 0x44, 0x54];

/// OEM table id of the FADT ("FCVMFADT").
pub const FADT_TABLE_ID: [u8; 8] = [0x46, 0x43, 0x56, 0x4d, 0x46, 0x41, 0x44, 0x54];

/// OEM table id of the MADT ("FCVMMADT").
pub const MADT_TABLE_ID: [u8; 8] = [0x46, 0x43, 0x56, 0x4d, 0x4d, 0x41, 0x44, 0x54];

/// OEM table id of the PPTT ("FCVMPPTT").
pub const PPTT_TABLE_ID: [u8; 8] = [0x46, 0x43, 0x56, 0x4d, 0x50, 0x50, 0x54, 0x54];

/// OEM table id of the GTDT ("FCVMGTDT").
pub const GTDT_TABLE_ID: [u8; 8] = [0x46, 0x43, 0x56, 0x4d, 0x47, 0x54, 0x44, 0x54];

/// OEM table id of the XSDT ("FCMVXSDT").
pub const XSDT_TABLE_ID: [u8; 8] = [0x46, 0x43, 0x4d, 0x56, 0x58, 0x53, 0x44, 0x54];

/// The FADT's fixed feature flags: hardware-reduced ACPI, no power button
/// device, no sleep button device.
pub const FADT_FLAGS: u32 = 0x10_0030;

/// The PC boot flags of x86_64: no VGA, no MSI, no PCIe ASPM control.
pub const X86_IAPC_BOOT_FLAGS: u16 = 0x1c;

/// Alignment of every table in guest memory.
pub const ACPI_TABLE_ALIGNMENT: u64 = 64;

/// Distance of the interrupt translation service below the redistributors.
pub const GIC_ITS_OFFSET: u64 = 0x02_0000;

/// Failures of building the tables.
#[derive(Debug)]
pub enum AcpiManagerError {
    /// Could not allocate resources.
    VmAllocator(vm_allocator::Error),
    /// A table could not be produced.
    AcpiTables(AcpiError),
}

/// Where the GIC of an aarch64 machine sits.
#[derive(Clone, Copy, Debug)]
pub struct GicLayout {
    pub dist_addr: u64,
    pub redists_addr: u64,
    pub redists_size: u64,
}

/// The architecture the tables describe, chosen once when the manager is
/// built.
#[derive(Clone, Copy, Debug)]
pub enum ArchLayout {
    /// Local and I/O APIC entries, PC boot flags, no topology or timer table.
    X86_64,
    /// GIC entries, and the topology and timer tables.
    Aarch64(GicLayout),
}

/// How many tables the XSDT lists on `arch`.
pub open spec fn xsdt_entry_count(arch: ArchLayout) -> nat {
    match arch {
        ArchLayout::X86_64 => 2,
        ArchLayout::Aarch64(_) => 4,
    }
}

/// `w` is a table placed in the ACPI region of `before`, which `after` no
/// longer holds free.
pub open spec fn placed(w: GuestWrite, before: ResourceAllocator, after: ResourceAllocator) -> bool {
    &&& checksum_valid(w.bytes@)
    &&& w.address as int % ACPI_TABLE_ALIGNMENT as int == 0
    &&& address_range(w.address, w.bytes@.len() as u64).subset_of(before.acpi_free())
    &&& after.acpi_free() == before.acpi_free().difference(
        address_range(w.address, w.bytes@.len() as u64),
    )
    &&& after.gsi_range() == before.gsi_range()
    &&& after.gsi_allocated() == before.gsi_allocated()
    &&& after.mmio_free() == before.mmio_free()
    &&& first_fit(before.acpi_blocks(), w.address, w.bytes@.len() as u64, ACPI_TABLE_ALIGNMENT)
    &&& carved(before.acpi_blocks(), after.acpi_blocks(), w.address, w.bytes@.len() as u64)
}

/// The chain of finished tables: every table passes its checksum, the root
/// pointer sits at `rsdp_addr` with both checksums valid and points at the
/// XSDT, the XSDT lists the addresses of the `n` tables after the DSDT in
/// order, and the FADT points at the DSDT.
pub open spec fn chain_linked(w: Seq<GuestWrite>, n: nat, rsdp_addr: u64) -> bool {
    &&& w.len() == n + 3
    &&& forall|i: int| 0 <= i < w.len() ==> checksum_valid(#[trigger] w[i].bytes@)
    &&& w[n + 2int].address == rsdp_addr
    &&& w[n + 2int].bytes@.len() == RSDP_SIZE
    &&& checksum_valid(w[n + 2int].bytes@.subrange(0, RSDP_LEGACY_SIZE as int))
    &&& u64_at(w[n + 2int].bytes@, RSDP_XSDT_OFFSET as int) == w[n + 1int].address
    &&& w[n + 1int].bytes@.len() == SDT_HEADER_SIZE + 8 * n
    &&& forall|j: int|
        0 <= j < n ==> #[trigger] u64_at(w[n + 1int].bytes@, SDT_HEADER_SIZE + 8 * j) == w[j
            + 1].address
    &&& u64_at(w[1].bytes@, FADT_X_DSDT_OFFSET as int) == w[0].address
}

/// The allocator kept its interrupt lines and MMIO window as they were.
pub open spec fn unchanged_outside_acpi(before: ResourceAllocator, after: ResourceAllocator) -> bool {
    &&& after.gsi_range() == before.gsi_range()
    &&& after.gsi_allocated() == before.gsi_allocated()
    &&& after.mmio_free() == before.mmio_free()
}

/// Builds and places the ACPI tables of one machine.
#[derive(Debug)]
pub struct AcpiManager {
    rsdp_addr: u64,
    arch: ArchLayout,
}

/// Places `table` in the ACPI region, 64-byte aligned, first fit, and hands
/// back its finished bytes for that address.
fn write_acpi_table<S: Sdt>(
    alloc: &mut ResourceAllocator,
    table: &mut S,
) -> (r: Result<GuestWrite, AcpiManagerError>)
    ensures
        final(alloc).gsi_range() == old(alloc).gsi_range(),
        final(alloc).gsi_allocated() == old(alloc).gsi_allocated(),
        final(alloc).mmio_free() == old(alloc).mmio_free(),
        r matches Ok(w) ==> final(table)@ == old(table).sealed_view(),
        r matches Ok(w) ==> w.bytes@ == final(table).image(),
        r matches Ok(w) ==> w.bytes@.len() == old(table).image().len(),
        r matches Ok(w) ==> placed(w, *old(alloc), *final(alloc)),
        r matches Ok(w) ==> w.bytes@.len() == old(table).length_field(),
        r matches Err(e) ==> e is VmAllocator,
        old(table).length_field() > 0 && has_fit(
            old(alloc).acpi_blocks(),
            old(table).length_field() as u64,
            ACPI_TABLE_ALIGNMENT,
        ) ==> r is Ok,
{
    assert(is_power_of_two(ACPI_TABLE_ALIGNMENT)) by {
        assert(64u64 & 63u64 == 0u64) by (bit_vector);
    }
    let size = table.len() as u64;
    let addr = match alloc.allocate_acpi_memory(size, ACPI_TABLE_ALIGNMENT, AllocPolicy::FirstMatch) {
        Ok(a) => a,
        Err(e) => return Err(AcpiManagerError::VmAllocator(e)),
    };
    match table.write_to_guest(addr) {
        Ok(w) => Ok(w),
        Err(e) => Err(AcpiManagerError::AcpiTables(e)),
    }
}

impl AcpiManager {
    /// A manager for `arch` that writes the root pointer at `rsdp_addr`.
    pub fn new(rsdp_addr: u64, arch: ArchLayout) -> (r: Self)
        requires
            arch matches ArchLayout::Aarch64(gic) ==> gic.redists_addr >= GIC_ITS_OFFSET,
        ensures
            r.rsdp_addr() == rsdp_addr,
            r.arch() == arch,
    {
        AcpiManager { rsdp_addr, arch }
    }

    pub closed spec fn rsdp_addr(&self) -> u64 {
        self.rsdp_addr
    }

    pub closed spec fn arch(&self) -> ArchLayout {
        self.arch
    }

    #[verifier::type_invariant]
    spec fn its_below_redistributors(&self) -> bool {
        self.arch matches ArchLayout::Aarch64(gic) ==> gic.redists_addr >= GIC_ITS_OFFSET
    }
}

} // verus!

verus! {

/// CPU interface entries for processors `0..mpidrs.len()`, in order.
pub open spec fn gicc_entries_bytes(mpidrs: Seq<u64>) -> Seq<u8>
    decreases mpidrs.len(),
{
    if mpidrs.len() == 0 {
        seq![]
    } else {
        gicc_entries_bytes(mpidrs.drop_last()) + gicc_bytes(
            gicc_for((mpidrs.len() - 1) as u8, mpidrs.last()),
        )
    }
}

/// The distributor entry for a distributor at `dist_addr`.
pub open spec fn gicd_entry_bytes(dist_addr: u64) -> Seq<u8> {
    seq![0xCu8, 24u8] + le16(0) + le32(0) + le64(dist_addr) + le32(0) + seq![3u8, 0u8, 0u8, 0u8]
}

/// The redistributor entry of `gic`.
pub open spec fn gicr_entry_bytes(gic: GicLayout) -> Seq<u8> {
    gicr_bytes(
        GicR {
            entry_type: 0xE,
            length: 16,
            reserved: 0,
            base_address: gic.redists_addr,
            range_length: gic.redists_size as u32,
        },
    )
}

/// The interrupt translation service entry of `gic`, right below its
/// redistributors.
pub open spec fn its_entry_bytes(gic: GicLayout) -> Seq<u8> {
    gic_its_bytes(
        GicIts {
            entry_type: 0xF,
            length: 20,
            reserved0: 0,
            translation_id: 0,
            base_address: (gic.redists_addr - GIC_ITS_OFFSET) as u64,
            reserved1: 0,
        },
    )
}

/// The I/O APIC entry of x86_64.
pub open spec fn x86_io_apic_bytes() -> Seq<u8> {
    io_apic_bytes(
        IoAPIC {
            entry_type: 1,
            length: 12,
            ioapic_id: 0,
            reserved: 0,
            apic_address: IOAPIC_ADDR,
            gsi_base: 0,
        },
    )
}

/// The interrupt controller entries of the MADT on `arch` for processors
/// with affinity values `vcpus`.
pub open spec fn madt_entries_for(arch: ArchLayout, vcpus: Seq<u64>) -> Seq<u8> {
    match arch {
        ArchLayout::X86_64 => x86_io_apic_bytes() + local_apics_bytes(vcpus.len()),
        ArchLayout::Aarch64(gic) => gicc_entries_bytes(vcpus) + gicd_entry_bytes(gic.dist_addr)
            + gicr_entry_bytes(gic) + its_entry_bytes(gic),
    }
}

/// The byte size of the MADT on `arch` for `n` processors.
pub open spec fn madt_len(arch: ArchLayout, n: nat) -> nat {
    match arch {
        ArchLayout::X86_64 => (MADT_FIXED_SIZE + 12 + 8 * n) as nat,
        ArchLayout::Aarch64(_) => (MADT_FIXED_SIZE + 80 * n + 24 + 16 + 20) as nat,
    }
}

/// The finished bytes of a table whose header, before sealing, is `h`.
pub open spec fn sealed_table(h: SdtHeader, payload: Seq<u8>) -> Seq<u8> {
    header_bytes(sealed_header(h, payload)) + payload
}

/// The DSDT carrying `data`.
pub open spec fn expected_dsdt(data: Seq<u8>) -> Seq<u8> {
    sealed_table(
        fresh_header(
            DSDT_SIGNATURE,
            (SDT_HEADER_SIZE + data.len()) as u32,
            2,
            OEM_ID,
            DSDT_TABLE_ID,
            OEM_REVISION,
        ),
        data,
    )
}

/// The power-management event block of this machine: 32-bit I/O registers at 0x500.
pub open spec fn pm1a_evt_blk() -> GenericAddressStructure {
    GenericAddressStructure {
        address_space_id: 1,
        register_bit_width: 32,
        register_bit_offset: 0,
        access_size: 4,
        address: 0x500,
    }
}

/// The power-management control block of this machine: 16-bit I/O registers at 0x504.
pub open spec fn pm1a_cnt_blk() -> GenericAddressStructure {
    GenericAddressStructure {
        address_space_id: 1,
        register_bit_width: 16,
        register_bit_offset: 0,
        access_size: 2,
        address: 0x504,
    }
}

/// The FADT fields on `arch` for the DSDT at `dsdt_addr`.
pub open spec fn fadt_fields_for(arch: ArchLayout, dsdt_addr: u64) -> FadtFields {
    let f = fresh_fadt_fields(
        dsdt_addr,
        ACPI_SCI_INT,
        pm1a_evt_blk(),
        pm1a_cnt_blk(),
        HYPERVISOR_VENDOR_ID,
    );
    match arch {
        ArchLayout::X86_64 => FadtFields {
            flags: FADT_FLAGS,
            iapc_boot_arch: X86_IAPC_BOOT_FLAGS,
            ..f
        },
        ArchLayout::Aarch64(_) => FadtFields { flags: FADT_FLAGS, ..f },
    }
}

/// The FADT on `arch` pointing at the DSDT at `dsdt_addr`.
pub open spec fn expected_fadt(arch: ArchLayout, dsdt_addr: u64) -> Seq<u8> {
    sealed_table(
        fresh_header(FADT_SIGNATURE, FADT_SIZE, 6, OEM_ID, FADT_TABLE_ID, OEM_REVISION),
        fadt_fields_bytes(fadt_fields_for(arch, dsdt_addr)),
    )
}

/// The MADT on `arch` for processors with affinity values `vcpus`.
pub open spec fn expected_madt(arch: ArchLayout, vcpus: Seq<u64>) -> Seq<u8> {
    let entries = madt_entries_for(arch, vcpus);
    let m = MadtView {
        header: fresh_header(
            MADT_SIGNATURE,
            (MADT_FIXED_SIZE + entries.len()) as u32,
            6,
            OEM_ID,
            MADT_TABLE_ID,
            OEM_REVISION,
        ),
        base_address: APIC_ADDR,
        flags: 0,
        interrupt_controllers: entries,
    };
    sealed_table(m.header, madt_payload(m))
}

/// The PPTT for `nr_cpus` processors.
pub open spec fn expected_pptt(nr_cpus: u8) -> Seq<u8> {
    sealed_table(
        fresh_header(
            PPTT_SIGNATURE,
            (SDT_HEADER_SIZE + PROCESSOR_NODE_SIZE * (nr_cpus + 1)) as u32,
            2,
            OEM_ID,
            PPTT_TABLE_ID,
            OEM_REVISION,
        ),
        node_bytes(root_node()) + leaf_nodes_bytes(nr_cpus as nat),
    )
}

/// The GTDT.
pub open spec fn expected_gtdt() -> Seq<u8> {
    sealed_table(
        fresh_header(GTDT_SIGNATURE, GTDT_SIZE, 2, OEM_ID, GTDT_TABLE_ID, OEM_REVISION),
        gtdt_inner_bytes(default_timers()),
    )
}

/// The XSDT listing `addrs`.
pub open spec fn expected_xsdt(addrs: Seq<u64>) -> Seq<u8> {
    sealed_table(
        fresh_header(
            XSDT_SIGNATURE,
            (SDT_HEADER_SIZE + 8 * addrs.len()) as u32,
            1,
            OEM_ID,
            XSDT_TABLE_ID,
            OEM_REVISION,
        ),
        le64_concat(addrs),
    )
}

/// The root pointer to the XSDT at `xsdt_addr`.
pub open spec fn expected_rsdp(xsdt_addr: u64) -> Seq<u8> {
    rsdp_image(rsdp_sealed(rsdp_fields(OEM_ID, xsdt_addr)))
}

/// The writes of `w` hold exactly the tables of `arch` for processors with
/// affinity values `vcpus` and namespace bytes `data`: DSDT, FADT, MADT,
/// then on aarch64 PPTT and GTDT, then XSDT and root pointer, each pointing
/// at the addresses where the tables it names were placed.
pub open spec fn tables_as_built(w: Seq<GuestWrite>, arch: ArchLayout, vcpus: Seq<u64>, data: Seq<u8>) -> bool {
    let n = xsdt_entry_count(arch);
    &&& w.len() == n + 3
    &&& w[0].bytes@ == expected_dsdt(data)
    &&& w[1].bytes@ == expected_fadt(arch, w[0].address)
    &&& w[2].bytes@ == expected_madt(arch, vcpus)
    &&& arch is Aarch64 ==> w[3].bytes@ == expected_pptt(vcpus.len() as u8) && w[4].bytes@
        == expected_gtdt()
    &&& w[n + 1int].bytes@ == expected_xsdt(w.subrange(1, n + 1int).map_values(|t: GuestWrite| t.address))
    &&& w[n + 2int].bytes@ == expected_rsdp(w[n + 1int].address)
}

/// Appends the x86_64 interrupt controllers: the I/O APIC, then one local
/// APIC per processor.
pub fn setup_x86_interrupt_controllers(madt: &mut Madt, nr_cpus: u8)
    requires
        old(madt)@.header.length + 12 + 8 * nr_cpus <= u32::MAX,
    ensures
        final(madt)@ == (MadtView {
            header: SdtHeader {
                length: (old(madt)@.header.length + 12 + 8 * nr_cpus) as u32,
                ..old(madt)@.header
            },
            interrupt_controllers: old(madt)@.interrupt_controllers + x86_io_apic_bytes()
                + local_apics_bytes(nr_cpus as nat),
            ..old(madt)@
        }),
{
    madt.setup_ioapic(IOAPIC_ADDR);
    proof {
        lemma_le_lengths();
    }
    madt.setup_local_apic(nr_cpus);
    assert(madt@.interrupt_controllers =~= old(madt)@.interrupt_controllers + x86_io_apic_bytes()
        + local_apics_bytes(nr_cpus as nat));
}

/// Each CPU interface entry takes 80 bytes.
pub proof fn lemma_gicc_entries_len(mpidrs: Seq<u64>)
    ensures
        gicc_entries_bytes(mpidrs).len() == 80 * mpidrs.len(),
    decreases mpidrs.len(),
{
    lemma_le_lengths();
    if mpidrs.len() > 0 {
        lemma_gicc_entries_len(mpidrs.drop_last());
    }
}

/// Appends the aarch64 interrupt controllers: one CPU interface per
/// processor with its affinity, the distributor, the redistributors, and
/// the interrupt translation service right below the redistributors.
pub fn setup_gic_interrupt_controllers(madt: &mut Madt, mpidrs: &[u64], gic: GicLayout)
    requires
        mpidrs@.len() <= 255,
        gic.redists_addr >= GIC_ITS_OFFSET,
        old(madt)@.header.length + 80 * mpidrs@.len() + 24 + 16 + 20 <= u32::MAX,
    ensures
        final(madt)@ == (MadtView {
            header: SdtHeader {
                length: (old(madt)@.header.length + 80 * mpidrs@.len() + 24 + 16 + 20) as u32,
                ..old(madt)@.header
            },
            interrupt_controllers: old(madt)@.interrupt_controllers + gicc_entries_bytes(mpidrs@)
                + gicd_entry_bytes(gic.dist_addr) + gicr_entry_bytes(gic) + its_entry_bytes(gic),
            ..old(madt)@
        }),
{
    let ghost m0 = madt@;
    let mut cpu_id: usize = 0;
    while cpu_id < mpidrs.len()
        invariant
            cpu_id <= mpidrs@.len() <= 255,
            m0.header.length + 80 * mpidrs@.len() + 24 + 16 + 20 <= u32::MAX,
            madt@ == (MadtView {
                header: SdtHeader { length: (m0.header.length + 80 * cpu_id) as u32, ..m0.header },
                interrupt_controllers: m0.interrupt_controllers + gicc_entries_bytes(
                    mpidrs@.subrange(0, cpu_id as int),
                ),
                ..m0
            }),
        decreases mpidrs@.len() - cpu_id,
    {
        let gicc = GicC::new(cpu_id as u8, mpidrs[cpu_id]);
        let bytes = gicc.as_bytes();
        madt.add_interrupt_controller(bytes.as_slice());
        proof {
            let s = mpidrs@.subrange(0, cpu_id + 1 as int);
            assert(s.drop_last() =~= mpidrs@.subrange(0, cpu_id as int));
            assert(madt@.interrupt_controllers =~= m0.interrupt_controllers + gicc_entries_bytes(s));
        }
        cpu_id = cpu_id + 1;
    }
    proof {
        assert(mpidrs@.subrange(0, mpidrs@.len() as int) =~= mpidrs@);
        lemma_gicc_entries_len(mpidrs@);
    }
    let ghost after_cpus = madt@.interrupt_controllers;
    let gicd = GicD::new(gic.dist_addr);
    let gicd_bytes = gicd.as_bytes();
    assert(gicd_bytes@ =~= gicd_entry_bytes(gic.dist_addr));
    madt.add_interrupt_controller(gicd_bytes.as_slice());
    let gicr = GicR::new(gic.redists_addr, gic.redists_size as u32);
    let gicr_bytes = gicr.as_bytes();
    madt.add_interrupt_controller(gicr_bytes.as_slice());
    let its = GicIts::new(gic.redists_addr - GIC_ITS_OFFSET);
    let its_bytes = its.as_bytes();
    madt.add_interrupt_controller(its_bytes.as_slice());
    assert(madt@.interrupt_controllers =~= m0.interrupt_controllers + gicc_entries_bytes(mpidrs@)
        + gicd_entry_bytes(gic.dist_addr) + gicr_entry_bytes(gic) + its_entry_bytes(gic));
}

/// Sets the PC boot flags of x86_64: no VGA, no MSI, no PCIe ASPM control.
pub fn setup_x86_fadt(fadt: &mut Fadt)
    ensures
        final(fadt)@ == (FadtView {
            fields: FadtFields { iapc_boot_arch: X86_IAPC_BOOT_FLAGS, ..old(fadt)@.fields },
            ..old(fadt)@
        }),
{
    let flags: u16 = 1u16 << IAPC_BOOT_ARG_FLAGS_VGA_NOT_PRESENT | 1u16 << IAPC_BOOT_ARG_FLAGS_PCI_ASPM
        | 1u16 << IAPC_BOOT_ARG_FLAGS_MSI_NOT_PRESENT;
    assert(flags == 0x1c) by (bit_vector)
        requires
            flags == 1u16 << 2u16 | 1u16 << 4u16 | 1u16 << 3u16,
    ;
    fadt.setup_iapc_flags(flags);
}

impl AcpiManager {
    /// Builds the DSDT around the serialized namespace objects and places it.
    pub fn build_dsdt(
        &self,
        alloc: &mut ResourceAllocator,
        dsdt_data: Vec<u8>,
    ) -> (r: Result<GuestWrite, AcpiManagerError>)
        requires
            SDT_HEADER_SIZE + dsdt_data@.len() <= u32::MAX,
        ensures
            r matches Ok(w) ==> placed(w, *old(alloc), *final(alloc)),
            r matches Ok(w) ==> w.bytes@ == expected_dsdt(dsdt_data@),
            r matches Ok(w) ==> w.bytes@.len() == SDT_HEADER_SIZE + dsdt_data@.len(),
            has_fit(
                old(alloc).acpi_blocks(),
                (SDT_HEADER_SIZE + dsdt_data@.len()) as u64,
                ACPI_TABLE_ALIGNMENT,
            ) ==> r is Ok,
            r is Err ==> unchanged_outside_acpi(*old(alloc), *final(alloc)),
            r matches Err(e) ==> e is VmAllocator,
    {
        let ghost data = dsdt_data@;
        let mut dsdt = Dsdt::new(OEM_ID, DSDT_TABLE_ID, OEM_REVISION, dsdt_data);
        let ghost h = dsdt@.header;
        let r = write_acpi_table(alloc, &mut dsdt);
        proof {
            lemma_sealed_header_idempotent(
                fresh_header(DSDT_SIGNATURE, (SDT_HEADER_SIZE + data.len()) as u32, 2, OEM_ID, DSDT_TABLE_ID, OEM_REVISION),
                data,
            );
        }
        r
    }

    /// Builds the FADT pointing at the DSDT at `dsdt_addr` and places it.
    pub fn build_fadt(
        &self,
        alloc: &mut ResourceAllocator,
        dsdt_addr: u64,
    ) -> (r: Result<GuestWrite, AcpiManagerError>)
        ensures
            r matches Ok(w) ==> placed(w, *old(alloc), *final(alloc)),
            r matches Ok(w) ==> w.bytes@ == expected_fadt(self.arch(), dsdt_addr),
            r matches Ok(w) ==> w.bytes@.len() == FADT_SIZE,
            has_fit(old(alloc).acpi_blocks(), FADT_SIZE as u64, ACPI_TABLE_ALIGNMENT) ==> r is Ok,
            r matches Ok(w) ==> u64_at(w.bytes@, FADT_X_DSDT_OFFSET as int) == dsdt_addr,
            r is Err ==> unchanged_outside_acpi(*old(alloc), *final(alloc)),
            r matches Err(e) ==> e is VmAllocator,
    {
        let io = AddressSpace::SystemIO.id();
        let x_pm1a_evt_blk = GenericAddressStructure::new(io, 32, 0, 4, 0x500);
        let x_pm1a_cnt_blk = GenericAddressStructure::new(io, 16, 0, 2, 0x504);
        let mut fadt = Fadt::new(
            OEM_ID,
            FADT_TABLE_ID,
            OEM_REVISION,
            dsdt_addr,
            ACPI_SCI_INT,
            x_pm1a_evt_blk,
            x_pm1a_cnt_blk,
            HYPERVISOR_VENDOR_ID,
        );
        let flags: u32 = 1u32 << FADT_F_HW_REDUCED_ACPI | 1u32 << FADT_F_PWR_BUTTON | 1u32
            << FADT_F_SLP_BUTTON;
        assert(flags == 0x10_0030) by (bit_vector)
            requires
                flags == 1u32 << 20u32 | 1u32 << 4u32 | 1u32 << 5u32,
        ;
        fadt.set_flags(flags);
        match self.arch {
            ArchLayout::X86_64 => setup_x86_fadt(&mut fadt),
            ArchLayout::Aarch64(_) => {},
        }
        assert(fadt@.fields == fadt_fields_for(self.arch, dsdt_addr));
        let r = write_acpi_table(alloc, &mut fadt);
        proof {
            lemma_fadt_layout(fadt@.header, fadt@.fields);
        }
        r
    }

    /// Builds the MADT with the interrupt controllers of the architecture
    /// for the processors of `vcpus` and places it.
    pub fn build_madt(
        &self,
        alloc: &mut ResourceAllocator,
        vcpus: &[u64],
    ) -> (r: Result<GuestWrite, AcpiManagerError>)
        requires
            vcpus@.len() <= 255,
        ensures
            r matches Ok(w) ==> placed(w, *old(alloc), *final(alloc)),
            r matches Ok(w) ==> w.bytes@ == expected_madt(self.arch(), vcpus@),
            r matches Ok(w) ==> w.bytes@.len() == madt_len(self.arch(), vcpus@.len()),
            has_fit(
                old(alloc).acpi_blocks(),
                madt_len(self.arch(), vcpus@.len()) as u64,
                ACPI_TABLE_ALIGNMENT,
            ) ==> r is Ok,
            r is Err ==> unchanged_outside_acpi(*old(alloc), *final(alloc)),
            r matches Err(e) ==> e is VmAllocator,
    {
        proof {
            use_type_invariant(self);
            lemma_le_lengths();
            lemma_gicc_entries_len(vcpus@);
        }
        let mut madt = Madt::new(OEM_ID, MADT_TABLE_ID, OEM_REVISION, APIC_ADDR);
        match self.arch {
            ArchLayout::X86_64 => setup_x86_interrupt_controllers(&mut madt, vcpus.len() as u8),
            ArchLayout::Aarch64(gic) => setup_gic_interrupt_controllers(&mut madt, vcpus, gic),
        }
        proof {
            lemma_local_apics_len(vcpus@.len());
            let entries = madt_entries_for(self.arch, vcpus@);
            assert(madt@.interrupt_controllers == entries);
            assert(madt@.header == fresh_header(
                MADT_SIGNATURE,
                (MADT_FIXED_SIZE + entries.len()) as u32,
                6,
                OEM_ID,
                MADT_TABLE_ID,
                OEM_REVISION,
            ));
        }
        write_acpi_table(alloc, &mut madt)
    }

    /// Builds the PPTT for `nr_cpus` processors and places it.
    pub fn build_pptt(
        &self,
        alloc: &mut ResourceAllocator,
        nr_cpus: u8,
    ) -> (r: Result<GuestWrite, AcpiManagerError>)
        ensures
            r matches Ok(w) ==> placed(w, *old(alloc), *final(alloc)),
            r matches Ok(w) ==> w.bytes@ == expected_pptt(nr_cpus),
            r matches Ok(w) ==> w.bytes@.len() == SDT_HEADER_SIZE + PROCESSOR_NODE_SIZE * (nr_cpus
                + 1),
            has_fit(
                old(alloc).acpi_blocks(),
                (SDT_HEADER_SIZE + PROCESSOR_NODE_SIZE * (nr_cpus + 1)) as u64,
                ACPI_TABLE_ALIGNMENT,
            ) ==> r is Ok,
            r is Err ==> unchanged_outside_acpi(*old(alloc), *final(alloc)),
            r matches Err(e) ==> e is VmAllocator,
    {
        let mut pptt = Pptt::new(OEM_ID, PPTT_TABLE_ID, OEM_REVISION, nr_cpus);
        write_acpi_table(alloc, &mut pptt)
    }

    /// Builds the GTDT and places it.
    pub fn build_gtdt(
        &self,
        alloc: &mut ResourceAllocator,
    ) -> (r: Result<GuestWrite, AcpiManagerError>)
        ensures
            r matches Ok(w) ==> placed(w, *old(alloc), *final(alloc)),
            r matches Ok(w) ==> w.bytes@ == expected_gtdt(),
            r matches Ok(w) ==> w.bytes@.len() == GTDT_SIZE,
            has_fit(old(alloc).acpi_blocks(), GTDT_SIZE as u64, ACPI_TABLE_ALIGNMENT) ==> r is Ok,
            r is Err ==> unchanged_outside_acpi(*old(alloc), *final(alloc)),
            r matches Err(e) ==> e is VmAllocator,
    {
        let mut gtdt = Gtdt::new(OEM_ID, GTDT_TABLE_ID, OEM_REVISION);
        write_acpi_table(alloc, &mut gtdt)
    }

    /// Builds the XSDT listing `tables` in order and places it.
    pub fn build_xsdt(
        &self,
        alloc: &mut ResourceAllocator,
        tables: Vec<u64>,
    ) -> (r: Result<GuestWrite, AcpiManagerError>)
        requires
            SDT_HEADER_SIZE + 8 * tables@.len() <= u32::MAX,
        ensures
            r matches Ok(w) ==> placed(w, *old(alloc), *final(alloc)),
            r matches Ok(w) ==> w.bytes@ == expected_xsdt(tables@),
            r matches Ok(w) ==> w.bytes@.len() == SDT_HEADER_SIZE + 8 * tables@.len(),
            has_fit(
                old(alloc).acpi_blocks(),
                (SDT_HEADER_SIZE + 8 * tables@.len()) as u64,
                ACPI_TABLE_ALIGNMENT,
            ) ==> r is Ok,
            r matches Ok(w) ==> forall|j: int|
                0 <= j < tables@.len() ==> #[trigger] u64_at(w.bytes@, SDT_HEADER_SIZE + 8 * j)
                    == tables@[j],
            r is Err ==> unchanged_outside_acpi(*old(alloc), *final(alloc)),
            r matches Err(e) ==> e is VmAllocator,
    {
        let ghost addrs = tables@;
        let mut xsdt = Xsdt::new(OEM_ID, XSDT_TABLE_ID, OEM_REVISION, tables);
        let r = write_acpi_table(alloc, &mut xsdt);
        proof {
            lemma_le64_concat(addrs);
            lemma_header_len(xsdt@.header);
            let h = fresh_header(
                XSDT_SIGNATURE,
                (SDT_HEADER_SIZE + 8 * addrs.len()) as u32,
                1,
                OEM_ID,
                XSDT_TABLE_ID,
                OEM_REVISION,
            );
            lemma_sealed_header_idempotent(h, le64_concat(addrs));
            if r is Ok {
                let w = r->Ok_0;
                assert forall|j: int| 0 <= j < addrs.len() implies #[trigger] u64_at(
                    w.bytes@,
                    SDT_HEADER_SIZE + 8 * j,
                ) == addrs[j] by {
                    assert(u64_at(le64_concat(addrs), 8 * j) == addrs[j]);
                    lemma_u64_at_shift(header_bytes(xsdt@.header), le64_concat(addrs), 8 * j);
                }
            }
        }
        r
    }

    /// Builds the root pointer to the XSDT at `xsdt_addr`, for the fixed
    /// root pointer address.
    pub fn build_rsdp(&self, xsdt_addr: u64) -> (r: Result<GuestWrite, AcpiManagerError>)
        ensures
            r matches Ok(w) ==> w.address == self.rsdp_addr() && w.bytes@ == expected_rsdp(xsdt_addr),
            r matches Ok(w) ==> w.bytes@.len() == RSDP_SIZE && checksum_valid(w.bytes@)
                && checksum_valid(w.bytes@.subrange(0, RSDP_LEGACY_SIZE as int)) && u64_at(
                w.bytes@,
                RSDP_XSDT_OFFSET as int,
            ) == xsdt_addr,
            r is Err <==> self.rsdp_addr() + RSDP_SIZE > u64::MAX,
            r matches Err(e) ==> e is AcpiTables,
    {
        let mut rsdp = Rsdp::new(OEM_ID, xsdt_addr);
        let ghost before = rsdp@;
        let r = rsdp.write_to_guest(self.rsdp_addr);
        proof {
            lemma_rsdp_layout(rsdp@);
            lemma_rsdp_sealed_valid(before);
            lemma_rsdp_sealed_idempotent(rsdp_fields(OEM_ID, xsdt_addr));
        }
        match r {
            Ok(w) => Ok(w),
            Err(e) => Err(AcpiManagerError::AcpiTables(e)),
        }
    }
}

} // verus!

verus! {

/// The tables of `w` occupy address ranges that were free in `free` and
/// that do not overlap one another.
pub open spec fn tables_apart(w: Seq<GuestWrite>, free: Set<int>) -> bool {
    &&& forall|i: int|
        0 <= i < w.len() ==> #[trigger] address_range(w[i].address, w[i].bytes@.len() as u64).subset_of(free)
    &&& forall|i: int, j: int|
        0 <= i < j < w.len() ==> #[trigger] address_range(w[i].address, w[i].bytes@.len() as u64).disjoint(
            #[trigger] address_range(w[j].address, w[j].bytes@.len() as u64),
        )
}

impl AcpiManager {
    /// Builds every table of the machine in dependency order, places each
    /// one in the ACPI region, and links them: the FADT points at the DSDT,
    /// the XSDT lists the FADT, the MADT and (on aarch64) the PPTT and the
    /// GTDT, and the root pointer, last, points at the XSDT from its fixed
    /// address. Returns the writes in that order; the first failure ends the
    /// sequence. `vcpus` holds one affinity value per processor and
    /// `dsdt_data` the serialized namespace objects.
    #[verifier::rlimit(100)]
    pub fn create_acpi_tables(
        &self,
        alloc: &mut ResourceAllocator,
        vcpus: &[u64],
        dsdt_data: Vec<u8>,
    ) -> (r: Result<Vec<GuestWrite>, AcpiManagerError>)
        requires
            vcpus@.len() <= 255,
            SDT_HEADER_SIZE + dsdt_data@.len() <= u32::MAX,
        ensures
            final(alloc).gsi_range() == old(alloc).gsi_range(),
            final(alloc).gsi_allocated() == old(alloc).gsi_allocated(),
            final(alloc).mmio_free() == old(alloc).mmio_free(),
            r matches Ok(w) ==> chain_linked(w@, xsdt_entry_count(self.arch()), self.rsdp_addr()),
            r matches Ok(w) ==> tables_apart(w@.drop_last(), old(alloc).acpi_free()),
            r matches Ok(w) ==> tables_as_built(w@, self.arch(), vcpus@, dsdt_data@),
            r matches Err(e) ==> e is VmAllocator || self.rsdp_addr() + RSDP_SIZE > u64::MAX,
            r matches Ok(w) ==> forall|i: int|
                0 <= i < w@.len() - 1 ==> #[trigger] w@[i].address as int % ACPI_TABLE_ALIGNMENT as int
                    == 0,
            self.rsdp_addr() + RSDP_SIZE <= u64::MAX && acpi_room(
                old(alloc).acpi_blocks(),
                table_sizes(self.arch(), vcpus@.len(), dsdt_data@.len()),
            ) ==> r is Ok,
    {
        let ghost data = dsdt_data@;
        let ghost a0 = *alloc;
        let ghost sizes = table_sizes(self.arch, vcpus@.len(), dsdt_data@.len());
        let ghost room = acpi_room(a0.acpi_blocks(), sizes);
        assert(forall|i: int| 0 <= i < sizes.len() ==> #[trigger] sizes[i] >= 1);
        proof {
            lemma_fit_if_room(a0, sizes);
        }
        let dsdt = match self.build_dsdt(alloc, dsdt_data) {
            Ok(w) => w,
            Err(e) => return Err(e),
        };
        let ghost a1 = *alloc;
        let ghost s1 = sizes.drop_first();
        proof {
            lemma_room_if_placed(a0, a1, dsdt, sizes);
            lemma_fit_if_room(a1, s1);
        }
        let fadt = match self.build_fadt(alloc, dsdt.address) {
            Ok(w) => w,
            Err(e) => return Err(e),
        };
        let ghost a2 = *alloc;
        let ghost s2 = s1.drop_first();
        proof {
            lemma_room_if_placed(a1, a2, fadt, s1);
            lemma_fit_if_room(a2, s2);
        }
        let madt = match self.build_madt(alloc, vcpus) {
            Ok(w) => w,
            Err(e) => return Err(e),
        };
        let ghost a3 = *alloc;
        let ghost s3 = s2.drop_first();
        proof {
            lemma_room_if_placed(a2, a3, madt, s2);
        }
        assert(room ==> acpi_room(alloc.acpi_blocks(), s3));
        let ghost s_last = seq![(SDT_HEADER_SIZE + 8 * xsdt_entry_count(self.arch)) as nat];
        let mut tables: Vec<u64> = Vec::new();
        tables.push(fadt.address);
        tables.push(madt.address);
        let mut writes: Vec<GuestWrite> = Vec::new();
        writes.push(dsdt);
        writes.push(fadt);
        writes.push(madt);
        assert(tables_apart(writes@, a0.acpi_free()));
        match self.arch {
            ArchLayout::X86_64 => {
                assert(s3 =~= s_last);
            },
            ArchLayout::Aarch64(_) => {
                proof {
                    lemma_fit_if_room(a3, s3);
                }
                let pptt = match self.build_pptt(alloc, vcpus.len() as u8) {
                    Ok(w) => w,
                    Err(e) => return Err(e),
                };
                let ghost a4 = *alloc;
                let ghost s4 = s3.drop_first();
                proof {
                    lemma_room_if_placed(a3, a4, pptt, s3);
                    lemma_fit_if_room(a4, s4);
                }
                let gtdt = match self.build_gtdt(alloc) {
                    Ok(w) => w,
                    Err(e) => return Err(e),
                };
                proof {
                    lemma_room_if_placed(a4, *alloc, gtdt, s4);
                    assert(s4.drop_first() =~= s_last);
                }
                tables.push(pptt.address);
                tables.push(gtdt.address);
                let ghost before = writes@;
                writes.push(pptt);
                writes.push(gtdt);
                assert(tables_apart(writes@, a0.acpi_free())) by {
                    let w = writes@;
                    assert(w.subrange(0, 3) == before);
                }
            },
        }
        let ghost n = xsdt_entry_count(self.arch);
        assert(tables@.len() == n);
        let ghost listed = tables@;
        assert(room ==> acpi_room(alloc.acpi_blocks(), s_last));
        proof {
            lemma_fit_if_room(*alloc, s_last);
        }
        assert(writes@.subrange(1, n + 1int).map_values(|t: GuestWrite| t.address) =~= listed);
        let xsdt = match self.build_xsdt(alloc, tables) {
            Ok(w) => w,
            Err(e) => return Err(e),
        };
        let xsdt_addr = xsdt.address;
        writes.push(xsdt);
        let ghost placed_tables = writes@;
        let rsdp = match self.build_rsdp(xsdt_addr) {
            Ok(w) => w,
            Err(e) => return Err(e),
        };
        writes.push(rsdp);
        assert(writes@.drop_last() == placed_tables);
        assert(writes@.subrange(1, n + 1int).map_values(|t: GuestWrite| t.address) =~= listed);
        Ok(writes)
    }
}

} // verus!

verus! {

/// The first multiple of 64 at or above `x`.
pub open spec fn align64(x: int) -> int {
    (x + 63) / 64 * 64
}

/// Tables of the byte sizes `sizes` fit, in order, into the block
/// `lo..=hi`, each one at the next 64-byte boundary after the one before.
pub open spec fn fits_in_order(lo: int, hi: int, sizes: Seq<nat>) -> bool
    decreases sizes.len(),
{
    sizes.len() == 0 || {
        &&& align64(lo) + sizes[0] - 1 <= hi
        &&& align64(lo) + sizes[0] <= u64::MAX
        &&& fits_in_order(align64(lo) + sizes[0], hi, sizes.drop_first())
    }
}

/// One free block of `blocks` holds tables of the byte sizes `sizes`, in
/// order, each at the next 64-byte boundary.
pub open spec fn acpi_room(blocks: Set<(u64, u64)>, sizes: Seq<nat>) -> bool {
    sizes.len() == 0 || exists|b: (u64, u64)| #[trigger]
        blocks.contains(b) && fits_in_order(b.0 as int, b.1 as int, sizes)
}

/// The byte sizes of the tables placed on `arch`, in the order they are
/// built, for `n` processors and `d` bytes of namespace objects.
pub open spec fn table_sizes(arch: ArchLayout, n: nat, d: nat) -> Seq<nat> {
    match arch {
        ArchLayout::X86_64 => seq![
            (SDT_HEADER_SIZE + d) as nat,
            FADT_SIZE as nat,
            madt_len(arch, n),
            (SDT_HEADER_SIZE + 8 * 2) as nat,
        ],
        ArchLayout::Aarch64(_) => seq![
            (SDT_HEADER_SIZE + d) as nat,
            FADT_SIZE as nat,
            madt_len(arch, n),
            (SDT_HEADER_SIZE + PROCESSOR_NODE_SIZE * (n + 1)) as nat,
            GTDT_SIZE as nat,
            (SDT_HEADER_SIZE + 8 * 4) as nat,
        ],
    }
}

/// `align64(x)` is the least multiple of 64 at or above `x`.
pub proof fn lemma_align64(x: int, a: int)
    requires
        0 <= x,
    ensures
        x <= align64(x) <= x + 63,
        align64(x) % 64 == 0,
        a % 64 == 0 && x <= a ==> align64(x) <= a,
{
    let q = (x + 63) / 64;
    let r = (x + 63) % 64;
    vstd::arithmetic::div_mod::lemma_fundamental_div_mod(x + 63, 64);
    assert(0 <= r < 64);
    vstd::arithmetic::div_mod::lemma_mod_multiples_basic(q, 64);
    assert(q * 64 == 64 * q) by (nonlinear_arith);
    if a % 64 == 0 && x <= a {
        let m = a / 64;
        vstd::arithmetic::div_mod::lemma_fundamental_div_mod(a, 64);
        assert(64 * q <= a) by (nonlinear_arith)
            requires
                a == 64 * m,
                x <= a,
                x + 63 == 64 * q + r,
                0 <= r < 64,
        ;
    }
}

/// Tables that fit from some start also fit from any lower start.
pub proof fn lemma_fits_monotone(lo1: int, lo2: int, hi: int, sizes: Seq<nat>)
    requires
        0 <= lo1 <= lo2,
        fits_in_order(lo2, hi, sizes),
    ensures
        fits_in_order(lo1, hi, sizes),
    decreases sizes.len(),
{
    if sizes.len() > 0 {
        lemma_align64(lo2, 0);
        lemma_align64(lo1, align64(lo2));
        lemma_fits_monotone(
            align64(lo1) + sizes[0],
            align64(lo2) + sizes[0],
            hi,
            sizes.drop_first(),
        );
    }
}

/// Room for a sequence of tables gives an aligned fit for the first one.
pub proof fn lemma_room_has_fit(blocks: Set<(u64, u64)>, sizes: Seq<nat>)
    requires
        sizes.len() >= 1,
        acpi_room(blocks, sizes),
    ensures
        has_fit(blocks, sizes[0] as u64, ACPI_TABLE_ALIGNMENT),
{
    let b = choose|b: (u64, u64)| #[trigger]
        blocks.contains(b) && fits_in_order(b.0 as int, b.1 as int, sizes);
    let a0 = align64(b.0 as int);
    lemma_align64(b.0 as int, 0);
    assert(aligned_fit(blocks, a0, sizes[0] as u64, ACPI_TABLE_ALIGNMENT));
}

/// Where there is room for a sequence of tables, there is an aligned fit
/// for the first.
pub proof fn lemma_fit_if_room(before: ResourceAllocator, sizes: Seq<nat>)
    requires
        sizes.len() >= 1,
    ensures
        acpi_room(before.acpi_blocks(), sizes) ==> has_fit(
            before.acpi_blocks(),
            sizes[0] as u64,
            ACPI_TABLE_ALIGNMENT,
        ),
{
    if acpi_room(before.acpi_blocks(), sizes) {
        lemma_room_has_fit(before.acpi_blocks(), sizes);
    }
}

/// A table placed where there was room for it and those after it leaves
/// room for those after it.
pub proof fn lemma_room_if_placed(
    before: ResourceAllocator,
    after: ResourceAllocator,
    w: GuestWrite,
    sizes: Seq<nat>,
)
    requires
        sizes.len() >= 1,
        forall|i: int| 0 <= i < sizes.len() ==> #[trigger] sizes[i] >= 1,
        w.bytes@.len() == sizes[0],
        placed(w, before, after),
    ensures
        acpi_room(before.acpi_blocks(), sizes) ==> acpi_room(after.acpi_blocks(), sizes.drop_first()),
{
    if acpi_room(before.acpi_blocks(), sizes) {
        lemma_room_after_placement(before.acpi_blocks(), after.acpi_blocks(), sizes, w.address);
    }
}

/// Placing the first of a sequence of tables at the first fit leaves room
/// for the others: either it went into the block that held them all, right
/// at its first boundary, or that block is untouched.
pub proof fn lemma_room_after_placement(
    before: Set<(u64, u64)>,
    after: Set<(u64, u64)>,
    sizes: Seq<nat>,
    start: u64,
)
    requires
        sizes.len() >= 1,
        forall|i: int| 0 <= i < sizes.len() ==> #[trigger] sizes[i] >= 1,
        acpi_room(before, sizes),
        start as int % 64 == 0,
        first_fit(before, start, sizes[0] as u64, ACPI_TABLE_ALIGNMENT),
        carved(before, after, start, sizes[0] as u64),
    ensures
        acpi_room(after, sizes.drop_first()),
{
    let size = sizes[0] as u64;
    let rest = sizes.drop_first();
    let b = choose|b: (u64, u64)| #[trigger]
        before.contains(b) && fits_in_order(b.0 as int, b.1 as int, sizes);
    let lo = b.0 as int;
    let hi = b.1 as int;
    let a0 = align64(lo);
    lemma_align64(lo, start as int);
    assert(aligned_fit(before, a0, size, ACPI_TABLE_ALIGNMENT));
    assert(start <= a0);
    let c = choose|c: (u64, u64)| #[trigger]
        before.contains(c) && c.0 <= start && start + size - 1 <= c.1 && after == crate::resources::carve(
            before,
            c,
            start,
            size,
        );
    if rest.len() > 0 {
        assert(rest[0] >= 1);
        lemma_align64(a0 + size, 0);
        assert(fits_in_order(a0 + size, hi, rest));
        assert(align64(a0 + size) + rest[0] - 1 <= hi);
        assert(a0 + size <= hi);
        if c == b {
            assert(start == a0);
            let piece = ((start + size) as u64, b.1);
            assert(start + size - 1 < c.1);
            assert(after.contains(piece));
            assert(fits_in_order(piece.0 as int, piece.1 as int, rest));
        } else {
            assert(after.contains(b));
            lemma_fits_monotone(lo, a0 + size, hi, rest);
        }
    }
}

} // verus!
