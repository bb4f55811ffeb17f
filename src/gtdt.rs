//! Generic Timer Description Table: a header followed by a fixed description
//! of the secure, non-secure, virtual and hypervisor timers.
use crate::codec::{le32, le64, lemma_le_lengths, push_slice, push_u32, push_u64};
use crate::sdt::{
    fresh_header, guest_write, header_bytes, lemma_header_len, lemma_sealed_header_valid,
    seal_header, sealed_header, AcpiError, GuestWrite, Sdt, SdtHeader,
};
use vstd::prelude::*;

verus! {

/// "GTDT"
pub const GTDT_SIGNATURE: [u8; 4] = [0x47, 0x54, 0x44, 0x54];

/// Byte size of the whole table.
pub const GTDT_SIZE: u32 = 104;

/// Timer flag bit 0: 1 for edge triggered, 0 for level triggered.
pub const TIMER_INTERRUPT_MODE_BIT_POS: u32 = 0;

/// Timer flag bit 1: 1 for active low, 0 for active high.
pub const TIMER_INTERRUPT_POLARITY_BIT_POS: u32 = 1;

/// Timer flag bit 2: the timer keeps running in low-power states.
pub const ALWAYS_ON_COMPATIBILITY_BIT_POS: u32 = 2;

/// Timer description that follows the header.
#[derive(Clone, Copy, Debug, Default)]
pub struct GtdtInner {
    pub cntcontrolbase_physical_address: u32,
    pub reserved: u64,
    pub secure_el1_timer_gsiv: u32,
    pub secure_el1_timer_flags: u32,
    pub non_secure_el1_timer_gsiv: u32,
    pub non_secure_el1_timer_flags: u32,
    pub virtual_el1_timer_gsiv: u32,
    pub virtual_el1_timer_flags: u32,
    pub el2_timer_gsiv: u32,
    pub el2_timer_flags: u32,
    pub cntreadbase_physical_address: u64,
    pub platform_timer_cnt: u32,
    pub platform_timer_flags: u32,
    pub virtual_el2_timer_gsiv: u32,
    pub virtual_el2_timer_flags: u32,
}

/// The 68 bytes of the timer description.
pub open spec fn gtdt_inner_bytes(i: GtdtInner) -> Seq<u8> {
    le32(i.cntcontrolbase_physical_address) + le64(i.reserved) + le32(i.secure_el1_timer_gsiv)
        + le32(i.secure_el1_timer_flags) + le32(i.non_secure_el1_timer_gsiv) + le32(
        i.non_secure_el1_timer_flags,
    ) + le32(i.virtual_el1_timer_gsiv) + le32(i.virtual_el1_timer_flags) + le32(i.el2_timer_gsiv)
        + le32(i.el2_timer_flags) + le64(i.cntreadbase_physical_address) + le32(
        i.platform_timer_cnt,
    ) + le32(i.platform_timer_flags) + le32(i.virtual_el2_timer_gsiv) + le32(
        i.virtual_el2_timer_flags,
    )
}

/// The timers of this machine: interrupts 29, 30, 27 and 26, all level
/// triggered and active high; only the non-secure timer is always on.
pub open spec fn default_timers() -> GtdtInner {
    GtdtInner {
        cntcontrolbase_physical_address: 0,
        reserved: 0,
        secure_el1_timer_gsiv: 29,
        secure_el1_timer_flags: 0,
        non_secure_el1_timer_gsiv: 30,
        non_secure_el1_timer_flags: 4,
        virtual_el1_timer_gsiv: 27,
        virtual_el1_timer_flags: 0,
        el2_timer_gsiv: 26,
        el2_timer_flags: 0,
        cntreadbase_physical_address: 0,
        platform_timer_cnt: 0,
        platform_timer_flags: 0,
        virtual_el2_timer_gsiv: 0,
        virtual_el2_timer_flags: 0,
    }
}

impl GtdtInner {
    pub fn as_bytes(&self) -> (r: Vec<u8>)
        ensures
            r@ == gtdt_inner_bytes(*self),
            r@.len() == 68,
    {
        proof {
            lemma_le_lengths();
        }
        let mut v: Vec<u8> = Vec::new();
        push_u32(&mut v, self.cntcontrolbase_physical_address);
        push_u64(&mut v, self.reserved);
        push_u32(&mut v, self.secure_el1_timer_gsiv);
        push_u32(&mut v, self.secure_el1_timer_flags);
        push_u32(&mut v, self.non_secure_el1_timer_gsiv);
        push_u32(&mut v, self.non_secure_el1_timer_flags);
        push_u32(&mut v, self.virtual_el1_timer_gsiv);
        push_u32(&mut v, self.virtual_el1_timer_flags);
        push_u32(&mut v, self.el2_timer_gsiv);
        push_u32(&mut v, self.el2_timer_flags);
        push_u64(&mut v, self.cntreadbase_physical_address);
        push_u32(&mut v, self.platform_timer_cnt);
        push_u32(&mut v, self.platform_timer_flags);
        push_u32(&mut v, self.virtual_el2_timer_gsiv);
        push_u32(&mut v, self.virtual_el2_timer_flags);
        assert(v@ =~= gtdt_inner_bytes(*self));
        v
    }
}

/// The model of a GTDT.
pub struct GtdtView {
    pub header: SdtHeader,
    pub inner: GtdtInner,
}

pub open spec fn gtdt_image(g: GtdtView) -> Seq<u8> {
    header_bytes(g.header) + gtdt_inner_bytes(g.inner)
}

/// Generic Timer Description Table.
#[derive(Clone, Copy, Debug)]
pub struct Gtdt {
    header: SdtHeader,
    inner: GtdtInner,
}

impl View for Gtdt {
    type V = GtdtView;

    closed spec fn view(&self) -> GtdtView {
        GtdtView { header: self.header, inner: self.inner }
    }
}

impl Gtdt {
    #[verifier::type_invariant]
    spec fn length_matches(&self) -> bool {
        self.header.length == GTDT_SIZE
    }

    pub fn new(oem_id: [u8; 6], oem_table_id: [u8; 8], oem_revision: u32) -> (r: Self)
        ensures
            r@ == (GtdtView {
                header: fresh_header(GTDT_SIGNATURE, GTDT_SIZE, 2, oem_id, oem_table_id, oem_revision),
                inner: default_timers(),
            }),
    {
        let header = SdtHeader::new(GTDT_SIGNATURE, GTDT_SIZE, 2, oem_id, oem_table_id, oem_revision);
        let level_triggered: u32 = 0u32 << TIMER_INTERRUPT_MODE_BIT_POS;
        let active_high: u32 = 0u32 << TIMER_INTERRUPT_POLARITY_BIT_POS;
        let always_on: u32 = 1u32 << ALWAYS_ON_COMPATIBILITY_BIT_POS;
        assert((level_triggered | active_high) == 0 && (level_triggered | active_high | always_on)
            == 4) by (bit_vector)
            requires
                level_triggered == 0u32 << 0u32,
                active_high == 0u32 << 1u32,
                always_on == 1u32 << 2u32,
        ;
        Gtdt {
            header,
            inner: GtdtInner {
                cntcontrolbase_physical_address: 0,
                reserved: 0,
                secure_el1_timer_gsiv: 13 + 16,
                secure_el1_timer_flags: level_triggered | active_high,
                non_secure_el1_timer_gsiv: 14 + 16,
                non_secure_el1_timer_flags: level_triggered | active_high | always_on,
                virtual_el1_timer_gsiv: 11 + 16,
                virtual_el1_timer_flags: level_triggered | active_high,
                el2_timer_gsiv: 10 + 16,
                el2_timer_flags: level_triggered | active_high,
                cntreadbase_physical_address: 0,
                platform_timer_cnt: 0,
                platform_timer_flags: 0,
                virtual_el2_timer_gsiv: 0,
                virtual_el2_timer_flags: 0,
            },
        }
    }
}

impl Sdt for Gtdt {
    open spec fn image(&self) -> Seq<u8> {
        gtdt_image(self@)
    }

    open spec fn length_field(&self) -> nat {
        self@.header.length as nat
    }

    open spec fn sealed_view(&self) -> GtdtView {
        GtdtView { header: sealed_header(self@.header, gtdt_inner_bytes(self@.inner)), ..self@ }
    }

    fn len(&self) -> (r: usize) {
        proof {
            use_type_invariant(self);
            lemma_header_len(self@.header);
            lemma_le_lengths();
        }
        assert(self.length_field() == self.header.length);
        self.header.length as usize
    }

    fn write_to_guest(&mut self, address: u64) -> (r: Result<GuestWrite, AcpiError>) {
        proof {
            use_type_invariant(&*self);
        }
        let inner = self.inner.as_bytes();
        let mut header = self.header;
        seal_header(&mut header, inner.as_slice());
        self.header = header;
        let mut bytes = header.as_bytes();
        push_slice(&mut bytes, inner.as_slice());
        proof {
            lemma_header_len(old(self)@.header);
            lemma_sealed_header_valid(old(self)@.header, gtdt_inner_bytes(old(self)@.inner));
        }
        guest_write(address, bytes)
    }
}

} // verus!
