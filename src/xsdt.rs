//! Extended System Description Table: a header followed by the 64-bit guest
//! addresses of the other tables.
use crate::codec::{checksum_valid, le64_concat, lemma_le64_concat, push_slice, push_u64};
use crate::sdt::{
    fresh_header, guest_write, header_bytes, lemma_header_len, lemma_sealed_header_valid,
    seal_header, sealed_header, AcpiError, GuestWrite, Sdt, SdtHeader, SDT_HEADER_SIZE,
};
use vstd::prelude::*;

verus! {

/// "XSDT"
pub const XSDT_SIGNATURE: [u8; 4] = [0x58, 0x53, 0x44, 0x54];

/// The model of an XSDT: its header and the bytes of its address list.
pub struct XsdtView {
    pub header: SdtHeader,
    pub tables: Seq<u8>,
}

pub open spec fn xsdt_image(x: XsdtView) -> Seq<u8> {
    header_bytes(x.header) + x.tables
}

/// Extended System Description Table.
#[derive(Debug)]
pub struct Xsdt {
    header: SdtHeader,
    tables: Vec<u8>,
}

impl View for Xsdt {
    type V = XsdtView;

    closed spec fn view(&self) -> XsdtView {
        XsdtView { header: self.header, tables: self.tables@ }
    }
}

impl Xsdt {
    #[verifier::type_invariant]
    spec fn length_matches(&self) -> bool {
        self.header.length == SDT_HEADER_SIZE + self.tables@.len()
    }

    /// A table listing the addresses `tables` in the given order, with its
    /// checksum already set.
    pub fn new(
        oem_id: [u8; 6],
        oem_table_id: [u8; 8],
        oem_revision: u32,
        tables: Vec<u64>,
    ) -> (r: Self)
        requires
            SDT_HEADER_SIZE + 8 * tables@.len() <= u32::MAX,
        ensures
            r@ == (XsdtView {
                header: sealed_header(
                    fresh_header(
                        XSDT_SIGNATURE,
                        (SDT_HEADER_SIZE + 8 * tables@.len()) as u32,
                        1,
                        oem_id,
                        oem_table_id,
                        oem_revision,
                    ),
                    le64_concat(tables@),
                ),
                tables: le64_concat(tables@),
            }),
            checksum_valid(r.image()),
    {
        let mut tables_bytes: Vec<u8> = Vec::new();
        let mut i: usize = 0;
        while i < tables.len()
            invariant
                i <= tables@.len(),
                tables_bytes@ == le64_concat(tables@.subrange(0, i as int)),
            decreases tables@.len() - i,
        {
            push_u64(&mut tables_bytes, tables[i]);
            assert(tables@.subrange(0, i + 1 as int).drop_last() =~= tables@.subrange(0, i as int));
            i = i + 1;
        }
        assert(tables@.subrange(0, tables@.len() as int) =~= tables@);
        proof {
            lemma_le64_concat(tables@);
        }
        let mut header = SdtHeader::new(
            XSDT_SIGNATURE,
            (SDT_HEADER_SIZE + tables_bytes.len()) as u32,
            1,
            oem_id,
            oem_table_id,
            oem_revision,
        );
        seal_header(&mut header, tables_bytes.as_slice());
        Xsdt { header, tables: tables_bytes }
    }
}

impl Sdt for Xsdt {
    open spec fn image(&self) -> Seq<u8> {
        xsdt_image(self@)
    }

    open spec fn length_field(&self) -> nat {
        self@.header.length as nat
    }

    open spec fn sealed_view(&self) -> XsdtView {
        XsdtView { header: sealed_header(self@.header, self@.tables), ..self@ }
    }

    fn len(&self) -> (r: usize) {
        proof {
            use_type_invariant(self);
            lemma_header_len(self@.header);
        }
        assert(self.length_field() == self.header.length);
        self.header.length as usize
    }

    fn write_to_guest(&mut self, address: u64) -> (r: Result<GuestWrite, AcpiError>) {
        proof {
            use_type_invariant(&*self);
        }
        let mut header = self.header;
        seal_header(&mut header, self.tables.as_slice());
        self.header = header;
        let mut bytes = header.as_bytes();
        push_slice(&mut bytes, self.tables.as_slice());
        proof {
            lemma_header_len(old(self)@.header);
            lemma_sealed_header_valid(old(self)@.header, old(self)@.tables);
        }
        guest_write(address, bytes)
    }
}

} // verus!
