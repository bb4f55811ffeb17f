//! Multiple APIC Description Table: a header, the local interrupt controller
//! address, flags, and a sequence of self-describing interrupt controller
//! entries, each starting with a type byte and a length byte.
use crate::codec::{
    le16, le32, le64, lemma_le_lengths, push_slice, push_u16, push_u32, push_u64,
};
use crate::sdt::{
    fresh_header, guest_write, header_bytes, lemma_header_len, lemma_sealed_header_valid,
    seal_header, sealed_header, AcpiError, GuestWrite, Sdt, SdtHeader,
};
use vstd::prelude::*;

verus! {

/// "APIC"
pub const MADT_SIGNATURE: [u8; 4] = [0x41, 0x50, 0x49, 0x43];

/// Bit of a local APIC entry's flags that marks the processor enabled.
pub const MADT_CPU_ENABLE_FLAG: u32 = 0;

/// Mask of the affinity fields of an MPIDR value (Aff3 in bits 39:32,
/// Aff2..Aff0 in bits 23:0); every other bit reads as zero.
pub const MPIDR_AFFINITY_MASK: u64 = 0xff_00ff_ffff;

/// Processor local APIC entry.
#[derive(Copy, Clone, Debug, Default)]
pub struct LocalAPIC {
    pub entry_type: u8,
    pub length: u8,
    pub processor_uid: u8,
    pub apic_id: u8,
    pub flags: u32,
}

pub open spec fn local_apic_bytes(e: LocalAPIC) -> Seq<u8> {
    seq![e.entry_type, e.length, e.processor_uid, e.apic_id] + le32(e.flags)
}

/// The entry describing processor `cpu_id`.
pub open spec fn local_apic_for(cpu_id: u8) -> LocalAPIC {
    LocalAPIC { entry_type: 0, length: 8, processor_uid: cpu_id, apic_id: cpu_id, flags: 1 }
}

impl LocalAPIC {
    pub fn new(cpu_id: u8) -> (r: Self)
        ensures
            r == local_apic_for(cpu_id),
    {
        let flags: u32 = 1u32 << MADT_CPU_ENABLE_FLAG;
        assert(flags == 1) by (bit_vector)
            requires
                flags == 1u32 << 0u32,
        ;
        LocalAPIC {
            entry_type: 0,
            length: 8,
            processor_uid: cpu_id,
            apic_id: cpu_id,
            flags,
        }
    }

    pub fn as_bytes(&self) -> (r: Vec<u8>)
        ensures
            r@ == local_apic_bytes(*self),
            r@.len() == 8,
    {
        proof {
            lemma_le_lengths();
        }
        let mut v: Vec<u8> = Vec::new();
        v.push(self.entry_type);
        v.push(self.length);
        v.push(self.processor_uid);
        v.push(self.apic_id);
        push_u32(&mut v, self.flags);
        assert(v@ =~= local_apic_bytes(*self));
        v
    }
}

/// I/O APIC entry.
#[derive(Copy, Clone, Debug, Default)]
pub struct IoAPIC {
    pub entry_type: u8,
    pub length: u8,
    pub ioapic_id: u8,
    pub reserved: u8,
    pub apic_address: u32,
    pub gsi_base: u32,
}

pub open spec fn io_apic_bytes(e: IoAPIC) -> Seq<u8> {
    seq![e.entry_type, e.length, e.ioapic_id, e.reserved] + le32(e.apic_address) + le32(
        e.gsi_base,
    )
}

impl IoAPIC {
    pub fn new(ioapic_id: u8, apic_address: u32) -> (r: Self)
        ensures
            r == (IoAPIC {
                entry_type: 1,
                length: 12,
                ioapic_id,
                reserved: 0,
                apic_address,
                gsi_base: 0,
            }),
    {
        IoAPIC { entry_type: 1, length: 12, ioapic_id, reserved: 0, apic_address, gsi_base: 0 }
    }

    pub fn as_bytes(&self) -> (r: Vec<u8>)
        ensures
            r@ == io_apic_bytes(*self),
            r@.len() == 12,
    {
        proof {
            lemma_le_lengths();
        }
        let mut v: Vec<u8> = Vec::new();
        v.push(self.entry_type);
        v.push(self.length);
        v.push(self.ioapic_id);
        v.push(self.reserved);
        push_u32(&mut v, self.apic_address);
        push_u32(&mut v, self.gsi_base);
        assert(v@ =~= io_apic_bytes(*self));
        v
    }
}

/// GIC CPU interface entry.
#[derive(Copy, Clone, Debug, Default)]
pub struct GicC {
    pub entry_type: u8,
    pub length: u8,
    pub reserved0: u16,
    pub cpu_interface_number: u32,
    pub uid: u32,
    pub flags: u32,
    pub parking_version: u32,
    pub performance_interrupt: u32,
    pub parked_address: u64,
    pub base_address: u64,
    pub gicv_base_address: u64,
    pub gich_base_address: u64,
    pub vgic_interrupt: u32,
    pub gicr_base_address: u64,
    pub mpidr: u64,
    pub proc_power_effi_class: u8,
    pub reserved1: u8,
    pub spe_overflow_interrupt: u16,
}

pub open spec fn gicc_bytes(e: GicC) -> Seq<u8> {
    seq![e.entry_type, e.length] + le16(e.reserved0) + le32(e.cpu_interface_number) + le32(e.uid)
        + le32(e.flags) + le32(e.parking_version) + le32(e.performance_interrupt) + le64(
        e.parked_address,
    ) + le64(e.base_address) + le64(e.gicv_base_address) + le64(e.gich_base_address) + le32(
        e.vgic_interrupt,
    ) + le64(e.gicr_base_address) + le64(e.mpidr) + seq![e.proc_power_effi_class, e.reserved1]
        + le16(e.spe_overflow_interrupt)
}

/// The CPU interface entry of processor `cpu_id` with affinity register `mpidr`.
pub open spec fn gicc_for(cpu_id: u8, mpidr: u64) -> GicC {
    GicC {
        entry_type: 0xB,
        length: 80,
        reserved0: 0,
        cpu_interface_number: cpu_id as u32,
        uid: cpu_id as u32,
        flags: 1,
        parking_version: 0,
        performance_interrupt: 0,
        parked_address: 0,
        base_address: 0,
        gicv_base_address: 0,
        gich_base_address: 0,
        vgic_interrupt: 0,
        gicr_base_address: 0,
        mpidr: mpidr & MPIDR_AFFINITY_MASK,
        proc_power_effi_class: 0,
        reserved1: 0,
        spe_overflow_interrupt: 0,
    }
}

impl GicC {
    /// The entry for processor `cpu_id`; only the affinity fields of `mpidr` are kept.
    pub fn new(cpu_id: u8, mpidr: u64) -> (r: Self)
        ensures
            r == gicc_for(cpu_id, mpidr),
    {
        GicC {
            entry_type: 0xB,
            length: 80,
            reserved0: 0,
            cpu_interface_number: cpu_id as u32,
            uid: cpu_id as u32,
            flags: 1,
            parking_version: 0,
            performance_interrupt: 0,
            parked_address: 0,
            base_address: 0,
            gicv_base_address: 0,
            gich_base_address: 0,
            vgic_interrupt: 0,
            gicr_base_address: 0,
            mpidr: mpidr & MPIDR_AFFINITY_MASK,
            proc_power_effi_class: 0,
            reserved1: 0,
            spe_overflow_interrupt: 0,
        }
    }

    pub fn as_bytes(&self) -> (r: Vec<u8>)
        ensures
            r@ == gicc_bytes(*self),
            r@.len() == 80,
    {
        proof {
            lemma_le_lengths();
        }
        let mut v: Vec<u8> = Vec::new();
        v.push(self.entry_type);
        v.push(self.length);
        push_u16(&mut v, self.reserved0);
        push_u32(&mut v, self.cpu_interface_number);
        push_u32(&mut v, self.uid);
        push_u32(&mut v, self.flags);
        push_u32(&mut v, self.parking_version);
        push_u32(&mut v, self.performance_interrupt);
        push_u64(&mut v, self.parked_address);
        push_u64(&mut v, self.base_address);
        push_u64(&mut v, self.gicv_base_address);
        push_u64(&mut v, self.gich_base_address);
        push_u32(&mut v, self.vgic_interrupt);
        push_u64(&mut v, self.gicr_base_address);
        push_u64(&mut v, self.mpidr);
        v.push(self.proc_power_effi_class);
        v.push(self.reserved1);
        push_u16(&mut v, self.spe_overflow_interrupt);
        assert(v@ =~= gicc_bytes(*self));
        v
    }
}

/// GIC distributor entry.
#[derive(Copy, Clone, Debug, Default)]
pub struct GicD {
    pub entry_type: u8,
    pub length: u8,
    pub reserved0: u16,
    pub gic_id: u32,
    pub base_address: u64,
    pub global_irq_base: u32,
    pub version: u8,
    pub reserved1: [u8; 3],
}

pub open spec fn gicd_bytes(e: GicD) -> Seq<u8> {
    seq![e.entry_type, e.length] + le16(e.reserved0) + le32(e.gic_id) + le64(e.base_address)
        + le32(e.global_irq_base) + seq![e.version] + e.reserved1@
}

impl GicD {
    pub fn new(dist_addr: u64) -> (r: Self)
        ensures
            r.entry_type == 0xC && r.length == 24 && r.reserved0 == 0 && r.gic_id == 0,
            r.base_address == dist_addr && r.global_irq_base == 0 && r.version == 3,
            r.reserved1@ == seq![0u8, 0u8, 0u8],
    {
        let r = GicD {
            entry_type: 0xC,
            length: 24,
            reserved0: 0,
            gic_id: 0,
            base_address: dist_addr,
            global_irq_base: 0,
            version: 3,
            reserved1: [0u8; 3],
        };
        assert(r.reserved1@ =~= seq![0u8, 0u8, 0u8]);
        r
    }

    pub fn as_bytes(&self) -> (r: Vec<u8>)
        ensures
            r@ == gicd_bytes(*self),
            r@.len() == 24,
    {
        proof {
            lemma_le_lengths();
        }
        let mut v: Vec<u8> = Vec::new();
        v.push(self.entry_type);
        v.push(self.length);
        push_u16(&mut v, self.reserved0);
        push_u32(&mut v, self.gic_id);
        push_u64(&mut v, self.base_address);
        push_u32(&mut v, self.global_irq_base);
        v.push(self.version);
        push_slice(&mut v, self.reserved1.as_slice());
        assert(v@ =~= gicd_bytes(*self));
        v
    }
}

/// GIC redistributor entry.
#[derive(Copy, Clone, Debug, Default)]
pub struct GicR {
    pub entry_type: u8,
    pub length: u8,
    pub reserved: u16,
    pub base_address: u64,
    pub range_length: u32,
}

pub open spec fn gicr_bytes(e: GicR) -> Seq<u8> {
    seq![e.entry_type, e.length] + le16(e.reserved) + le64(e.base_address) + le32(e.range_length)
}

impl GicR {
    pub fn new(redists_addr: u64, redists_size: u32) -> (r: Self)
        ensures
            r == (GicR {
                entry_type: 0xE,
                length: 16,
                reserved: 0,
                base_address: redists_addr,
                range_length: redists_size,
            }),
    {
        GicR {
            entry_type: 0xE,
            length: 16,
            reserved: 0,
            base_address: redists_addr,
            range_length: redists_size,
        }
    }

    pub fn as_bytes(&self) -> (r: Vec<u8>)
        ensures
            r@ == gicr_bytes(*self),
            r@.len() == 16,
    {
        proof {
            lemma_le_lengths();
        }
        let mut v: Vec<u8> = Vec::new();
        v.push(self.entry_type);
        v.push(self.length);
        push_u16(&mut v, self.reserved);
        push_u64(&mut v, self.base_address);
        push_u32(&mut v, self.range_length);
        assert(v@ =~= gicr_bytes(*self));
        v
    }
}

/// GIC interrupt translation service entry.
#[derive(Copy, Clone, Debug, Default)]
pub struct GicIts {
    pub entry_type: u8,
    pub length: u8,
    pub reserved0: u16,
    pub translation_id: u32,
    pub base_address: u64,
    pub reserved1: u32,
}

pub open spec fn gic_its_bytes(e: GicIts) -> Seq<u8> {
    seq![e.entry_type, e.length] + le16(e.reserved0) + le32(e.translation_id) + le64(
        e.base_address,
    ) + le32(e.reserved1)
}

impl GicIts {
    pub fn new(its_addr: u64) -> (r: Self)
        ensures
            r == (GicIts {
                entry_type: 0xF,
                length: 20,
                reserved0: 0,
                translation_id: 0,
                base_address: its_addr,
                reserved1: 0,
            }),
    {
        GicIts {
            entry_type: 0xF,
            length: 20,
            reserved0: 0,
            translation_id: 0,
            base_address: its_addr,
            reserved1: 0,
        }
    }

    pub fn as_bytes(&self) -> (r: Vec<u8>)
        ensures
            r@ == gic_its_bytes(*self),
            r@.len() == 20,
    {
        proof {
            lemma_le_lengths();
        }
        let mut v: Vec<u8> = Vec::new();
        v.push(self.entry_type);
        v.push(self.length);
        push_u16(&mut v, self.reserved0);
        push_u32(&mut v, self.translation_id);
        push_u64(&mut v, self.base_address);
        push_u32(&mut v, self.reserved1);
        assert(v@ =~= gic_its_bytes(*self));
        v
    }
}

} // verus!

verus! {

/// The model of a MADT: its header, its fixed fields and the bytes of the
/// interrupt controller entries appended so far.
pub struct MadtView {
    pub header: SdtHeader,
    pub base_address: u32,
    pub flags: u32,
    pub interrupt_controllers: Seq<u8>,
}

/// Byte size of the header plus the base address and flags words.
pub const MADT_FIXED_SIZE: u32 = 44;

/// Bytes that follow the header.
pub open spec fn madt_payload(m: MadtView) -> Seq<u8> {
    le32(m.base_address) + le32(m.flags) + m.interrupt_controllers
}

/// The table's bytes, in layout order.
pub open spec fn madt_image(m: MadtView) -> Seq<u8> {
    header_bytes(m.header) + madt_payload(m)
}

/// The model after appending the entry bytes `ic`.
pub open spec fn madt_with_controller(m: MadtView, ic: Seq<u8>) -> MadtView {
    MadtView {
        header: SdtHeader { length: (m.header.length + ic.len()) as u32, ..m.header },
        interrupt_controllers: m.interrupt_controllers + ic,
        ..m
    }
}

/// The model after appending each entry of `es` in turn.
pub open spec fn madt_with_controllers(m: MadtView, es: Seq<Seq<u8>>) -> MadtView
    decreases es.len(),
{
    if es.len() == 0 {
        m
    } else {
        madt_with_controller(madt_with_controllers(m, es.drop_last()), es.last())
    }
}

/// Total byte size of the entries of `es`.
pub open spec fn entries_len(es: Seq<Seq<u8>>) -> nat
    decreases es.len(),
{
    if es.len() == 0 {
        0
    } else {
        entries_len(es.drop_last()) + es.last().len()
    }
}

/// Local APIC entries for processors `0..n`, in order.
pub open spec fn local_apics_bytes(n: nat) -> Seq<u8>
    decreases n,
{
    if n == 0 {
        seq![]
    } else {
        local_apics_bytes((n - 1) as nat) + local_apic_bytes(local_apic_for((n - 1) as u8))
    }
}

/// Each local APIC entry takes 8 bytes.
pub proof fn lemma_local_apics_len(n: nat)
    ensures
        local_apics_bytes(n).len() == 8 * n,
    decreases n,
{
    lemma_le_lengths();
    if n > 0 {
        lemma_local_apics_len((n - 1) as nat);
    }
}

/// Multiple APIC Description Table.
#[derive(Debug)]
pub struct Madt {
    header: SdtHeader,
    base_address: u32,
    flags: u32,
    interrupt_controllers: Vec<u8>,
}

impl View for Madt {
    type V = MadtView;

    closed spec fn view(&self) -> MadtView {
        MadtView {
            header: self.header,
            base_address: self.base_address,
            flags: self.flags,
            interrupt_controllers: self.interrupt_controllers@,
        }
    }
}

impl Madt {
    #[verifier::type_invariant]
    spec fn length_matches(&self) -> bool {
        self.header.length == MADT_FIXED_SIZE + self.interrupt_controllers@.len()
    }

    /// An empty table whose entries are yet to be appended.
    pub fn new(
        oem_id: [u8; 6],
        oem_table_id: [u8; 8],
        oem_revision: u32,
        base_address: u32,
    ) -> (r: Self)
        ensures
            r@ == (MadtView {
                header: fresh_header(MADT_SIGNATURE, MADT_FIXED_SIZE, 6, oem_id, oem_table_id, oem_revision),
                base_address,
                flags: 0,
                interrupt_controllers: seq![],
            }),
    {
        let header = SdtHeader::new(MADT_SIGNATURE, MADT_FIXED_SIZE, 6, oem_id, oem_table_id, oem_revision);
        Madt { header, base_address, flags: 0, interrupt_controllers: Vec::new() }
    }

    /// Appends the bytes of one interrupt controller entry; the recorded
    /// length grows by exactly their number.
    pub fn add_interrupt_controller(&mut self, ic: &[u8])
        requires
            old(self)@.header.length + ic@.len() <= u32::MAX,
        ensures
            final(self)@ == madt_with_controller(old(self)@, ic@),
    {
        proof {
            use_type_invariant(&*self);
        }
        let mut controllers: Vec<u8> = Vec::new();
        push_slice(&mut controllers, self.interrupt_controllers.as_slice());
        push_slice(&mut controllers, ic);
        let header = SdtHeader { length: self.header.length + ic.len() as u32, ..self.header };
        *self = Madt {
            header,
            base_address: self.base_address,
            flags: self.flags,
            interrupt_controllers: controllers,
        };
        assert(self@.interrupt_controllers =~= old(self)@.interrupt_controllers + ic@);
    }

    /// Appends the entry of the I/O APIC at `ioapic_address`.
    pub fn setup_ioapic(&mut self, ioapic_address: u32)
        requires
            old(self)@.header.length + 12 <= u32::MAX,
        ensures
            final(self)@ == madt_with_controller(
                old(self)@,
                io_apic_bytes(
                    IoAPIC {
                        entry_type: 1,
                        length: 12,
                        ioapic_id: 0,
                        reserved: 0,
                        apic_address: ioapic_address,
                        gsi_base: 0,
                    },
                ),
            ),
    {
        let ioapic = IoAPIC::new(0, ioapic_address);
        let bytes = ioapic.as_bytes();
        self.add_interrupt_controller(bytes.as_slice());
    }

    /// Appends one local APIC entry for each processor `0..nr_cpus`.
    pub fn setup_local_apic(&mut self, nr_cpus: u8)
        requires
            old(self)@.header.length + 8 * nr_cpus <= u32::MAX,
        ensures
            final(self)@ == (MadtView {
                header: SdtHeader {
                    length: (old(self)@.header.length + 8 * nr_cpus) as u32,
                    ..old(self)@.header
                },
                interrupt_controllers: old(self)@.interrupt_controllers + local_apics_bytes(
                    nr_cpus as nat,
                ),
                ..old(self)@
            }),
    {
        let ghost m0 = self@;
        let mut cpu_id: u8 = 0;
        while cpu_id < nr_cpus
            invariant
                cpu_id <= nr_cpus,
                m0.header.length + 8 * nr_cpus <= u32::MAX,
                self@ == (MadtView {
                    header: SdtHeader { length: (m0.header.length + 8 * cpu_id) as u32, ..m0.header },
                    interrupt_controllers: m0.interrupt_controllers + local_apics_bytes(cpu_id as nat),
                    ..m0
                }),
            decreases nr_cpus - cpu_id,
        {
            let lapic = LocalAPIC::new(cpu_id);
            let bytes = lapic.as_bytes();
            self.add_interrupt_controller(bytes.as_slice());
            assert(self@.interrupt_controllers =~= m0.interrupt_controllers + local_apics_bytes(
                (cpu_id + 1) as nat,
            ));
            cpu_id = cpu_id + 1;
        }
    }

    /// The bytes that follow the header.
    fn payload(&self) -> (r: Vec<u8>)
        ensures
            r@ == madt_payload(self@),
    {
        let mut v: Vec<u8> = Vec::new();
        push_u32(&mut v, self.base_address);
        push_u32(&mut v, self.flags);
        push_slice(&mut v, self.interrupt_controllers.as_slice());
        assert(v@ =~= madt_payload(self@));
        v
    }
}

impl Sdt for Madt {
    open spec fn image(&self) -> Seq<u8> {
        madt_image(self@)
    }

    open spec fn length_field(&self) -> nat {
        self@.header.length as nat
    }

    open spec fn sealed_view(&self) -> MadtView {
        MadtView { header: sealed_header(self@.header, madt_payload(self@)), ..self@ }
    }

    fn len(&self) -> (r: usize) {
        proof {
            use_type_invariant(self);
            lemma_header_len(self@.header);
            lemma_le_lengths();
        }
        assert(self.length_field() == self.header.length);
        self.header.length as usize
    }

    fn write_to_guest(&mut self, address: u64) -> (r: Result<GuestWrite, AcpiError>) {
        proof {
            use_type_invariant(&*self);
        }
        let payload = self.payload();
        let mut header = self.header;
        seal_header(&mut header, payload.as_slice());
        self.header = header;
        let mut bytes = header.as_bytes();
        push_slice(&mut bytes, payload.as_slice());
        proof {
            lemma_header_len(old(self)@.header);
            lemma_sealed_header_valid(old(self)@.header, madt_payload(old(self)@));
        }
        guest_write(address, bytes)
    }
}

} // verus!

verus! {

/// An interrupt controller entry that describes itself: it holds at least a
/// type byte and a length byte, and its length byte is its size.
pub open spec fn self_describing(e: Seq<u8>) -> bool {
    e.len() >= 2 && e[1] as int == e.len()
}

/// Walks entry bytes the way a guest does: each entry is as long as its
/// length byte says. `None` when the bytes do not split that way.
pub open spec fn split_entries(s: Seq<u8>) -> Option<Seq<Seq<u8>>>
    decreases s.len(),
{
    if s.len() == 0 {
        Some(Seq::empty())
    } else if s.len() < 2 || (s[1] as int) < 2 || (s[1] as int) > s.len() {
        None
    } else {
        match split_entries(s.subrange(s[1] as int, s.len() as int)) {
            Some(rest) => Some(seq![s.subrange(0, s[1] as int)] + rest),
            None => None,
        }
    }
}

/// Self-describing entries laid end to end split back into the same entries.
pub proof fn lemma_split_flatten(es: Seq<Seq<u8>>)
    requires
        forall|i: int| 0 <= i < es.len() ==> self_describing(#[trigger] es[i]),
    ensures
        split_entries(es.flatten()) == Some(es),
    decreases es.len(),
{
    if es.len() > 0 {
        let e = es[0];
        let f = es.flatten();
        assert(self_describing(es[0]));
        assert forall|i: int| 0 <= i < es.drop_first().len() implies self_describing(
            #[trigger] es.drop_first()[i],
        ) by {
            assert(es.drop_first()[i] == es[i + 1]);
        }
        lemma_split_flatten(es.drop_first());
        assert(f == e + es.drop_first().flatten());
        assert(f[1] == e[1]);
        assert(f.subrange(e[1] as int, f.len() as int) =~= es.drop_first().flatten());
        assert(f.subrange(0, e[1] as int) =~= e);
        assert(seq![e] + es.drop_first() =~= es);
    }
}

/// Appending entries e1..eK to a table, one after another, grows its
/// recorded length by exactly their total size; the entry area then ends
/// with their bytes, and walking those bytes by each entry's type and length
/// fields yields exactly e1..eK again.
pub proof fn lemma_madt_entries(m: MadtView, es: Seq<Seq<u8>>)
    requires
        forall|i: int| 0 <= i < es.len() ==> self_describing(#[trigger] es[i]),
        m.header.length + entries_len(es) <= u32::MAX,
    ensures
        madt_with_controllers(m, es).header.length == m.header.length + entries_len(es),
        madt_with_controllers(m, es).interrupt_controllers == m.interrupt_controllers
            + es.flatten(),
        madt_image(madt_with_controllers(m, es)).subrange(
            MADT_FIXED_SIZE as int,
            madt_image(madt_with_controllers(m, es)).len() as int,
        ) == m.interrupt_controllers + es.flatten(),
        split_entries(es.flatten()) == Some(es),
    decreases es.len(),
{
    if es.len() > 0 {
        assert forall|i: int| 0 <= i < es.drop_last().len() implies self_describing(
            #[trigger] es.drop_last()[i],
        ) by {
            assert(es.drop_last()[i] == es[i]);
        }
        lemma_madt_entries(m, es.drop_last());
        es.drop_last().lemma_flatten_push(es.last());
        assert(es.drop_last().push(es.last()) =~= es);
    }
    let r = madt_with_controllers(m, es);
    lemma_header_len(r.header);
    lemma_le_lengths();
    assert(madt_image(r).subrange(MADT_FIXED_SIZE as int, madt_image(r).len() as int)
        =~= r.interrupt_controllers);
    lemma_split_flatten(es);
}

} // verus!
