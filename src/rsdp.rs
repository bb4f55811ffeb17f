//! Root System Description Pointer: the structure the guest searches for to
//! find the ACPI tables. It points at the XSDT and carries two checksums, one
//! over its first 20 bytes and one over all of it.
use crate::codec::{
    byte_sum, checksum, checksum_byte, checksum_valid, le32, le64, lemma_bufs_sum_one,
    lemma_byte_sum_concat, lemma_byte_sum_single, lemma_checksum_byte_closes, lemma_le_lengths,
    lemma_u64_at_le64, push_slice, push_u32, push_u64, u64_at,
};
use crate::sdt::{guest_write, AcpiError, GuestWrite, Sdt};
use vstd::prelude::*;

verus! {

/// "RSD PTR " (the trailing space belongs to the signature).
pub const RSDP_SIGNATURE: [u8; 8] = [0x52, 0x53, 0x44, 0x20, 0x50, 0x54, 0x52, 0x20];

/// Byte size of the structure.
pub const RSDP_SIZE: u32 = 36;

/// Number of leading bytes covered by the first checksum.
pub const RSDP_LEGACY_SIZE: usize = 20;

/// Byte offset of the XSDT pointer.
pub const RSDP_XSDT_OFFSET: u32 = 24;

/// The model of the root pointer, field by field.
pub struct RsdpView {
    pub signature: [u8; 8],
    pub checksum: u8,
    pub oem_id: [u8; 6],
    pub revision: u8,
    pub rsdt_addr: u32,
    pub length: u32,
    pub xsdt_addr: u64,
    pub extended_checksum: u8,
    pub reserved: Seq<u8>,
}

/// Bytes 9..20: what the first checksum covers after the checksum itself.
pub open spec fn rsdp_legacy_rest(r: RsdpView) -> Seq<u8> {
    r.oem_id@ + seq![r.revision] + le32(r.rsdt_addr)
}

/// The first 20 bytes, covered by the first checksum.
pub open spec fn rsdp_legacy_bytes(r: RsdpView) -> Seq<u8> {
    r.signature@ + seq![r.checksum] + rsdp_legacy_rest(r)
}

/// Bytes 20..32: the total length and the XSDT pointer.
pub open spec fn rsdp_extended_bytes(r: RsdpView) -> Seq<u8> {
    le32(r.length) + le64(r.xsdt_addr)
}

/// The 36 bytes of the structure.
pub open spec fn rsdp_image(r: RsdpView) -> Seq<u8> {
    rsdp_legacy_bytes(r) + rsdp_extended_bytes(r) + seq![r.extended_checksum] + r.reserved
}

/// The structure with both checksums computed: first the one over the first
/// 20 bytes, then the extended one over all bytes, each with its own field
/// at zero while computing.
pub open spec fn rsdp_sealed(r: RsdpView) -> RsdpView {
    let c1 = checksum_byte(byte_sum(rsdp_legacy_bytes(RsdpView { checksum: 0, ..r })));
    let r1 = RsdpView { checksum: c1, ..r };
    RsdpView {
        extended_checksum: checksum_byte(
            byte_sum(rsdp_image(RsdpView { extended_checksum: 0, ..r1 })),
        ),
        ..r1
    }
}

/// `r` with its extended checksum byte set to `e`.
pub open spec fn rsdp_with_extended(r: RsdpView, e: u8) -> RsdpView {
    RsdpView { extended_checksum: e, ..r }
}

/// The root pointer of this implementation for the XSDT at `xsdt_addr`,
/// before its checksums are computed.
pub open spec fn rsdp_fields(oem_id: [u8; 6], xsdt_addr: u64) -> RsdpView {
    RsdpView {
        signature: RSDP_SIGNATURE,
        checksum: 0,
        oem_id,
        revision: 2,
        rsdt_addr: 0,
        length: RSDP_SIZE,
        xsdt_addr,
        extended_checksum: 0,
        reserved: seq![0u8, 0u8, 0u8],
    }
}

/// Lengths of the parts, and where the XSDT pointer sits.
pub proof fn lemma_rsdp_layout(r: RsdpView)
    requires
        r.reserved.len() == 3,
    ensures
        rsdp_legacy_bytes(r).len() == RSDP_LEGACY_SIZE,
        rsdp_image(r).len() == RSDP_SIZE,
        rsdp_image(r).subrange(0, RSDP_LEGACY_SIZE as int) == rsdp_legacy_bytes(r),
        u64_at(rsdp_image(r), RSDP_XSDT_OFFSET as int) == r.xsdt_addr,
{
    lemma_le_lengths();
    let img = rsdp_image(r);
    assert(img.subrange(0, 20) =~= rsdp_legacy_bytes(r));
    lemma_u64_at_le64(
        rsdp_legacy_bytes(r) + le32(r.length),
        r.xsdt_addr,
        seq![r.extended_checksum] + r.reserved,
    );
    assert(img =~= rsdp_legacy_bytes(r) + le32(r.length) + le64(r.xsdt_addr) + (seq![
        r.extended_checksum,
    ] + r.reserved));
}

/// Both checksums of a sealed root pointer hold: the one over the first 20
/// bytes on its own, whatever the extended checksum byte holds, and the
/// extended one over the whole structure.
pub proof fn lemma_rsdp_sealed_valid(r: RsdpView)
    requires
        r.reserved.len() == 3,
    ensures
        checksum_valid(rsdp_legacy_bytes(rsdp_sealed(r))),
        checksum_valid(rsdp_image(rsdp_sealed(r))),
        checksum_valid(rsdp_image(rsdp_sealed(r)).subrange(0, RSDP_LEGACY_SIZE as int)),
        forall|e: u8|
            checksum_valid(
                rsdp_legacy_bytes(#[trigger] rsdp_with_extended(rsdp_sealed(r), e)),
            ),
{
    let z = RsdpView { checksum: 0, ..r };
    let s = rsdp_sealed(r);
    let c1 = s.checksum;
    let r1 = RsdpView { checksum: c1, ..r };
    let z1 = RsdpView { extended_checksum: 0, ..r1 };
    let c2 = s.extended_checksum;
    lemma_byte_sum_single(0u8);
    lemma_byte_sum_single(c1);
    lemma_byte_sum_single(c2);
    lemma_byte_sum_concat(z.signature@, seq![0u8]);
    lemma_byte_sum_concat(z.signature@ + seq![0u8], rsdp_legacy_rest(z));
    lemma_byte_sum_concat(s.signature@, seq![c1]);
    lemma_byte_sum_concat(s.signature@ + seq![c1], rsdp_legacy_rest(s));
    lemma_checksum_byte_closes(byte_sum(rsdp_legacy_bytes(z)));
    let l = rsdp_legacy_bytes(s) + rsdp_extended_bytes(s);
    lemma_byte_sum_concat(l, seq![0u8]);
    lemma_byte_sum_concat(l + seq![0u8], s.reserved);
    lemma_byte_sum_concat(l, seq![c2]);
    lemma_byte_sum_concat(l + seq![c2], s.reserved);
    assert(rsdp_legacy_bytes(z1) == rsdp_legacy_bytes(s));
    assert(rsdp_extended_bytes(z1) == rsdp_extended_bytes(s));
    lemma_checksum_byte_closes(byte_sum(rsdp_image(z1)));
    lemma_rsdp_layout(s);
}

/// Sealing a sealed root pointer again changes nothing.
pub proof fn lemma_rsdp_sealed_idempotent(r: RsdpView)
    ensures
        rsdp_sealed(rsdp_sealed(r)) == rsdp_sealed(r),
{
    let s = rsdp_sealed(r);
    assert(rsdp_legacy_bytes(RsdpView { checksum: 0, ..s }) == rsdp_legacy_bytes(
        RsdpView { checksum: 0, ..r },
    ));
    let s1 = RsdpView { checksum: s.checksum, ..s };
    assert(RsdpView { extended_checksum: 0, ..s1 } == RsdpView {
        extended_checksum: 0,
        ..RsdpView { checksum: s.checksum, ..r }
    });
}

/// Root System Description Pointer.
#[derive(Clone, Copy, Debug)]
pub struct Rsdp {
    signature: [u8; 8],
    checksum: u8,
    oem_id: [u8; 6],
    revision: u8,
    rsdt_addr: u32,
    length: u32,
    xsdt_addr: u64,
    extended_checksum: u8,
    reserved: [u8; 3],
}

impl View for Rsdp {
    type V = RsdpView;

    closed spec fn view(&self) -> RsdpView {
        RsdpView {
            signature: self.signature,
            checksum: self.checksum,
            oem_id: self.oem_id,
            revision: self.revision,
            rsdt_addr: self.rsdt_addr,
            length: self.length,
            xsdt_addr: self.xsdt_addr,
            extended_checksum: self.extended_checksum,
            reserved: self.reserved@,
        }
    }
}

impl Rsdp {
    #[verifier::type_invariant]
    spec fn length_matches(&self) -> bool {
        self.length == RSDP_SIZE && self.reserved@.len() == 3
    }

    /// The first 20 bytes.
    fn legacy_bytes(&self) -> (r: Vec<u8>)
        ensures
            r@ == rsdp_legacy_bytes(self@),
    {
        let mut v: Vec<u8> = Vec::new();
        push_slice(&mut v, self.signature.as_slice());
        v.push(self.checksum);
        push_slice(&mut v, self.oem_id.as_slice());
        v.push(self.revision);
        push_u32(&mut v, self.rsdt_addr);
        assert(v@ =~= rsdp_legacy_bytes(self@));
        v
    }

    /// The structure's bytes in layout order.
    pub fn as_bytes(&self) -> (r: Vec<u8>)
        ensures
            r@ == rsdp_image(self@),
    {
        let mut v = self.legacy_bytes();
        push_u32(&mut v, self.length);
        push_u64(&mut v, self.xsdt_addr);
        v.push(self.extended_checksum);
        push_slice(&mut v, self.reserved.as_slice());
        assert(v@ =~= rsdp_image(self@));
        v
    }

    /// Computes both checksums, in order.
    fn seal(&mut self)
        ensures
            final(self)@ == rsdp_sealed(old(self)@),
    {
        proof {
            use_type_invariant(&*self);
        }
        self.checksum = 0;
        let legacy = self.legacy_bytes();
        let legacy_parts: [&[u8]; 1] = [legacy.as_slice()];
        let legacy_slice = legacy_parts.as_slice();
        let c1 = checksum(legacy_slice);
        proof {
            assert(legacy_slice@.map_values(|b: &[u8]| b@) =~= seq![legacy@]);
            lemma_bufs_sum_one(legacy@);
        }
        self.checksum = c1;
        self.extended_checksum = 0;
        let all = self.as_bytes();
        let all_parts: [&[u8]; 1] = [all.as_slice()];
        let all_slice = all_parts.as_slice();
        let c2 = checksum(all_slice);
        proof {
            assert(all_slice@.map_values(|b: &[u8]| b@) =~= seq![all@]);
            lemma_bufs_sum_one(all@);
        }
        self.extended_checksum = c2;
    }

    /// The root pointer to the XSDT at `xsdt_addr`, with both checksums set.
    pub fn new(oem_id: [u8; 6], xsdt_addr: u64) -> (r: Self)
        ensures
            r@ == rsdp_sealed(rsdp_fields(oem_id, xsdt_addr)),
            r@.xsdt_addr == xsdt_addr,
            checksum_valid(rsdp_image(r@).subrange(0, RSDP_LEGACY_SIZE as int)),
            checksum_valid(rsdp_image(r@)),
    {
        let mut rsdp = Rsdp {
            signature: RSDP_SIGNATURE,
            checksum: 0,
            oem_id,
            revision: 2,
            rsdt_addr: 0,
            length: RSDP_SIZE,
            xsdt_addr,
            extended_checksum: 0,
            reserved: [0u8; 3],
        };
        assert(rsdp.reserved@ =~= seq![0u8, 0u8, 0u8]);
        rsdp.seal();
        proof {
            lemma_rsdp_sealed_valid(rsdp_fields(oem_id, xsdt_addr));
        }
        rsdp
    }
}

impl Sdt for Rsdp {
    open spec fn image(&self) -> Seq<u8> {
        rsdp_image(self@)
    }

    open spec fn length_field(&self) -> nat {
        self@.length as nat
    }

    open spec fn sealed_view(&self) -> RsdpView {
        rsdp_sealed(self@)
    }

    fn len(&self) -> (r: usize) {
        proof {
            use_type_invariant(self);
            lemma_rsdp_layout(self@);
        }
        assert(self.length_field() == self.length);
        self.length as usize
    }

    fn write_to_guest(&mut self, address: u64) -> (r: Result<GuestWrite, AcpiError>) {
        proof {
            use_type_invariant(&*self);
        }
        self.seal();
        proof {
            lemma_rsdp_sealed_valid(old(self)@);
            lemma_rsdp_layout(old(self)@);
            lemma_rsdp_layout(self@);
        }
        let bytes = self.as_bytes();
        guest_write(address, bytes)
    }
}

} // verus!
