//! Differentiated System Description Table: a header followed by an opaque
//! definition block of serialized namespace objects.
use crate::codec::{checksum_valid, push_slice};
use crate::sdt::{
    fresh_header, guest_write, header_bytes, lemma_header_len, lemma_sealed_header_valid,
    seal_header, sealed_header, AcpiError, GuestWrite, Sdt, SdtHeader, SDT_HEADER_SIZE,
};
use vstd::prelude::*;

verus! {

/// "DSDT"
pub const DSDT_SIGNATURE: [u8; 4] = [0x44, 0x53, 0x44, 0x54];

/// The model of a DSDT: its header and its definition block.
pub struct DsdtView {
    pub header: SdtHeader,
    pub definition_block: Seq<u8>,
}

pub open spec fn dsdt_image(d: DsdtView) -> Seq<u8> {
    header_bytes(d.header) + d.definition_block
}

/// Differentiated System Description Table.
#[derive(Debug)]
pub struct Dsdt {
    header: SdtHeader,
    definition_block: Vec<u8>,
}

impl View for Dsdt {
    type V = DsdtView;

    closed spec fn view(&self) -> DsdtView {
        DsdtView { header: self.header, definition_block: self.definition_block@ }
    }
}

impl Dsdt {
    #[verifier::type_invariant]
    spec fn length_matches(&self) -> bool {
        self.header.length == SDT_HEADER_SIZE + self.definition_block@.len()
    }

    /// A table carrying `definition_block`, with its checksum already set.
    pub fn new(
        oem_id: [u8; 6],
        oem_table_id: [u8; 8],
        oem_revision: u32,
        definition_block: Vec<u8>,
    ) -> (r: Self)
        requires
            SDT_HEADER_SIZE + definition_block@.len() <= u32::MAX,
        ensures
            r@ == (DsdtView {
                header: sealed_header(
                    fresh_header(
                        DSDT_SIGNATURE,
                        (SDT_HEADER_SIZE + definition_block@.len()) as u32,
                        2,
                        oem_id,
                        oem_table_id,
                        oem_revision,
                    ),
                    definition_block@,
                ),
                definition_block: definition_block@,
            }),
            checksum_valid(r.image()),
    {
        let mut header = SdtHeader::new(
            DSDT_SIGNATURE,
            (SDT_HEADER_SIZE + definition_block.len()) as u32,
            2,
            oem_id,
            oem_table_id,
            oem_revision,
        );
        seal_header(&mut header, definition_block.as_slice());
        Dsdt { header, definition_block }
    }
}

impl Sdt for Dsdt {
    open spec fn image(&self) -> Seq<u8> {
        dsdt_image(self@)
    }

    open spec fn length_field(&self) -> nat {
        self@.header.length as nat
    }

    open spec fn sealed_view(&self) -> DsdtView {
        DsdtView { header: sealed_header(self@.header, self@.definition_block), ..self@ }
    }

    fn len(&self) -> (r: usize) {
        proof {
            use_type_invariant(self);
            lemma_header_len(self@.header);
        }
        assert(self.length_field() == self.header.length);
        self.header.length as usize
    }

    fn write_to_guest(&mut self, address: u64) -> (r: Result<GuestWrite, AcpiError>) {
        proof {
            use_type_invariant(&*self);
        }
        let mut header = self.header;
        seal_header(&mut header, self.definition_block.as_slice());
        self.header = header;
        let mut bytes = header.as_bytes();
        push_slice(&mut bytes, self.definition_block.as_slice());
        proof {
            lemma_header_len(old(self)@.header);
            lemma_sealed_header_valid(old(self)@.header, old(self)@.definition_block);
        }
        guest_write(address, bytes)
    }
}

} // verus!
