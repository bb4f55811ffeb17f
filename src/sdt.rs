//! What every System Descriptor Table shares: the common header, the generic
//! address descriptor, the error type, and the `Sdt` interface.
use crate::codec::{
    byte_sum, checksum, checksum_byte, checksum_valid, le32, le64, lemma_byte_sum_concat,
    lemma_bufs_sum_two, lemma_byte_sum_single, lemma_checksum_byte_closes, lemma_le_lengths,
    push_slice, push_u32, push_u64,
};
use vstd::prelude::*;

verus! {

/// Identifies this implementation as the creator of the tables ("FCAT").
pub const FC_ACPI_CREATOR_ID: [u8; 4] = [0x46, 0x43, 0x41, 0x54];

/// Build stamp of this implementation, recorded in every table.
pub const FC_ACPI_CREATOR_REVISION: u32 = 0x20240119;

/// Byte size of the common header.
pub const SDT_HEADER_SIZE: usize = 36;

/// Interrupt line of the system control interrupt.
pub const ACPI_SCI_INT: u16 = 9;

/// I/O port base of the power-management registers.
pub const ACPI_REGISTERS_BASE_ADDRESS: u16 = 0x500;

/// Byte length of the power-management registers (event block plus control block).
pub const ACPI_REGISTERS_LEN: u8 = 6;

/// `vm_memory::GuestMemoryError`, carried opaquely inside `AcpiError`.
#[verifier::external_type_specification]
#[verifier::external_body]
pub struct ExGuestMemoryError(vm_memory::GuestMemoryError);

/// Failures of table generation.
#[derive(Debug)]
pub enum AcpiError {
    /// Writing into guest memory failed.
    GuestMemory(vm_memory::GuestMemoryError),
    /// Address arithmetic on a guest address would overflow.
    InvalidGuestAddress,
    /// A register size cannot be described.
    InvalidRegisterSize,
}

/// Address spaces that a generic address descriptor can point into.
#[derive(Debug, Clone, Copy, PartialEq, Eq, Structural)]
pub enum AddressSpace {
    SystemMemory,
    SystemIO,
    PCI,
    EmbeddedController,
    SMBus,
    SystemCMOS,
    PciBarTarget,
    IPMI,
    GeneralPurposeIO,
    GenericSerialBus,
    PCC,
    PRM,
    FunctionalFixedHw,
}

/// The identifier that ACPI assigns to each address space.
pub open spec fn address_space_id(s: AddressSpace) -> u8 {
    match s {
        AddressSpace::SystemMemory => 0x00,
        AddressSpace::SystemIO => 0x01,
        AddressSpace::PCI => 0x02,
        AddressSpace::EmbeddedController => 0x03,
        AddressSpace::SMBus => 0x04,
        AddressSpace::SystemCMOS => 0x05,
        AddressSpace::PciBarTarget => 0x06,
        AddressSpace::IPMI => 0x07,
        AddressSpace::GeneralPurposeIO => 0x08,
        AddressSpace::GenericSerialBus => 0x09,
        AddressSpace::PCC => 0xa0,
        AddressSpace::PRM => 0xb0,
        AddressSpace::FunctionalFixedHw => 0x7f,
    }
}

impl AddressSpace {
    /// The identifier of this address space, as stored in a descriptor.
    pub fn id(&self) -> (r: u8)
        ensures
            r == address_space_id(*self),
    {
        match self {
            AddressSpace::SystemMemory => 0x00,
            AddressSpace::SystemIO => 0x01,
            AddressSpace::PCI => 0x02,
            AddressSpace::EmbeddedController => 0x03,
            AddressSpace::SMBus => 0x04,
            AddressSpace::SystemCMOS => 0x05,
            AddressSpace::PciBarTarget => 0x06,
            AddressSpace::IPMI => 0x07,
            AddressSpace::GeneralPurposeIO => 0x08,
            AddressSpace::GenericSerialBus => 0x09,
            AddressSpace::PCC => 0xa0,
            AddressSpace::PRM => 0xb0,
            AddressSpace::FunctionalFixedHw => 0x7f,
        }
    }
}

/// Describes where a hardware register lives and how it is accessed.
#[derive(Clone, Copy, Debug, Default, PartialEq, Eq, Structural)]
pub struct GenericAddressStructure {
    pub address_space_id: u8,
    pub register_bit_width: u8,
    pub register_bit_offset: u8,
    pub access_size: u8,
    pub address: u64,
}

/// The 12 bytes of a generic address descriptor.
pub open spec fn gas_bytes(g: GenericAddressStructure) -> Seq<u8> {
    seq![g.address_space_id, g.register_bit_width, g.register_bit_offset, g.access_size] + le64(
        g.address,
    )
}

impl GenericAddressStructure {
    pub fn new(
        address_space_id: u8,
        register_bit_width: u8,
        register_bit_offset: u8,
        access_size: u8,
        address: u64,
    ) -> (r: Self)
        ensures
            r == (GenericAddressStructure {
                address_space_id,
                register_bit_width,
                register_bit_offset,
                access_size,
                address,
            }),
    {
        GenericAddressStructure {
            address_space_id,
            register_bit_width,
            register_bit_offset,
            access_size,
            address,
        }
    }

    /// A descriptor with no bit width or offset.
    pub fn new_address(address_space_id: u8, access_size: u8, address: u64) -> (r: Self)
        ensures
            r == (GenericAddressStructure {
                address_space_id,
                register_bit_width: 0,
                register_bit_offset: 0,
                access_size,
                address,
            }),
    {
        Self::new(address_space_id, 0, 0, access_size, address)
    }

    /// A descriptor of a register in the system I/O space.
    pub fn system_io_address(access_size: u8, address: u64) -> (r: Self)
        ensures
            r == (GenericAddressStructure {
                address_space_id: address_space_id(AddressSpace::SystemIO),
                register_bit_width: 0,
                register_bit_offset: 0,
                access_size,
                address,
            }),
    {
        Self::new_address(AddressSpace::SystemIO.id(), access_size, address)
    }

    /// Appends the descriptor's bytes to `v`.
    pub fn push_bytes(&self, v: &mut Vec<u8>)
        ensures
            final(v)@ == old(v)@ + gas_bytes(*self),
    {
        v.push(self.address_space_id);
        v.push(self.register_bit_width);
        v.push(self.register_bit_offset);
        v.push(self.access_size);
        push_u64(v, self.address);
        assert(final(v)@ =~= old(v)@ + gas_bytes(*self));
    }
}

/// Header included in all System Descriptor Tables.
#[derive(Clone, Copy, Debug, Default)]
pub struct SdtHeader {
    pub signature: [u8; 4],
    pub length: u32,
    pub revision: u8,
    pub checksum: u8,
    pub oem_id: [u8; 6],
    pub oem_table_id: [u8; 8],
    pub oem_revision: u32,
    pub creator_id: [u8; 4],
    pub creator_revison: u32,
}

/// Header bytes before the checksum field.
pub open spec fn header_prefix(h: SdtHeader) -> Seq<u8> {
    h.signature@ + le32(h.length) + seq![h.revision]
}

/// Header bytes after the checksum field.
pub open spec fn header_suffix(h: SdtHeader) -> Seq<u8> {
    h.oem_id@ + h.oem_table_id@ + le32(h.oem_revision) + h.creator_id@ + le32(h.creator_revison)
}

/// The 36 bytes of a header, in layout order.
pub open spec fn header_bytes(h: SdtHeader) -> Seq<u8> {
    header_prefix(h) + seq![h.checksum] + header_suffix(h)
}

/// A fresh header of this implementation, with a zero checksum.
pub open spec fn fresh_header(
    signature: [u8; 4],
    length: u32,
    revision: u8,
    oem_id: [u8; 6],
    oem_table_id: [u8; 8],
    oem_revision: u32,
) -> SdtHeader {
    SdtHeader {
        signature,
        length,
        revision,
        checksum: 0,
        oem_id,
        oem_table_id,
        oem_revision,
        creator_id: FC_ACPI_CREATOR_ID,
        creator_revison: FC_ACPI_CREATOR_REVISION,
    }
}

/// The header whose checksum makes `header ++ payload` pass the checksum,
/// computed with the checksum field itself at zero.
pub open spec fn sealed_header(h: SdtHeader, payload: Seq<u8>) -> SdtHeader {
    SdtHeader {
        checksum: checksum_byte(
            byte_sum(header_bytes(SdtHeader { checksum: 0, ..h })) + byte_sum(payload),
        ),
        ..h
    }
}

/// Every header is 36 bytes long.
pub proof fn lemma_header_len(h: SdtHeader)
    ensures
        header_bytes(h).len() == SDT_HEADER_SIZE,
        header_prefix(h).len() == 9,
{
    lemma_le_lengths();
}

/// A sealed header passes the checksum together with its payload.
pub proof fn lemma_sealed_header_valid(h: SdtHeader, payload: Seq<u8>)
    ensures
        checksum_valid(header_bytes(sealed_header(h, payload)) + payload),
        header_bytes(sealed_header(h, payload)).len() == header_bytes(h).len(),
{
    let z = SdtHeader { checksum: 0, ..h };
    let s = sealed_header(h, payload);
    let c = s.checksum;
    lemma_header_len(h);
    lemma_header_len(s);
    lemma_byte_sum_concat(header_prefix(z), seq![0u8]);
    lemma_byte_sum_concat(header_prefix(z) + seq![0u8], header_suffix(z));
    lemma_byte_sum_concat(header_prefix(s), seq![c]);
    lemma_byte_sum_concat(header_prefix(s) + seq![c], header_suffix(s));
    lemma_byte_sum_concat(header_bytes(s), payload);
    lemma_byte_sum_single(0u8);
    lemma_byte_sum_single(c);
    lemma_checksum_byte_closes(byte_sum(header_bytes(z)) + byte_sum(payload));
}

/// Sealing a sealed header again changes nothing: the checksum is computed
/// with its own field at zero.
pub proof fn lemma_sealed_header_idempotent(h: SdtHeader, payload: Seq<u8>)
    ensures
        sealed_header(sealed_header(h, payload), payload) == sealed_header(h, payload),
{
    let s = sealed_header(h, payload);
    assert(SdtHeader { checksum: 0, ..s } == SdtHeader { checksum: 0, ..h });
}

impl SdtHeader {
    pub(crate) fn new(
        signature: [u8; 4],
        length: u32,
        table_revision: u8,
        oem_id: [u8; 6],
        oem_table_id: [u8; 8],
        oem_revision: u32,
    ) -> (r: Self)
        ensures
            r == fresh_header(signature, length, table_revision, oem_id, oem_table_id, oem_revision),
    {
        SdtHeader {
            signature,
            length,
            revision: table_revision,
            checksum: 0,
            oem_id,
            oem_table_id,
            oem_revision,
            creator_id: FC_ACPI_CREATOR_ID,
            creator_revison: FC_ACPI_CREATOR_REVISION,
        }
    }

    pub(crate) fn set_checksum(&mut self, checksum: u8)
        ensures
            *final(self) == (SdtHeader { checksum, ..*old(self) }),
    {
        self.checksum = checksum;
    }

    /// The header's bytes in layout order.
    pub fn as_bytes(&self) -> (r: Vec<u8>)
        ensures
            r@ == header_bytes(*self),
    {
        let mut v: Vec<u8> = Vec::new();
        push_slice(&mut v, self.signature.as_slice());
        push_u32(&mut v, self.length);
        v.push(self.revision);
        v.push(self.checksum);
        push_slice(&mut v, self.oem_id.as_slice());
        push_slice(&mut v, self.oem_table_id.as_slice());
        push_u32(&mut v, self.oem_revision);
        push_slice(&mut v, self.creator_id.as_slice());
        push_u32(&mut v, self.creator_revison);
        assert(v@ =~= header_bytes(*self));
        v
    }
}

/// Sets the checksum of `header` so that the header followed by `payload`
/// passes the checksum; the checksum field counts as zero while computing.
pub fn seal_header(header: &mut SdtHeader, payload: &[u8])
    ensures
        *final(header) == sealed_header(*old(header), payload@),
        checksum_valid(header_bytes(*final(header)) + payload@),
{
    header.set_checksum(0);
    let bytes = header.as_bytes();
    let parts: [&[u8]; 2] = [bytes.as_slice(), payload];
    let parts_slice = parts.as_slice();
    let c = checksum(parts_slice);
    proof {
        assert(parts_slice@.map_values(|b: &[u8]| b@) =~= seq![bytes@, payload@]);
        lemma_bufs_sum_two(bytes@, payload@);
    }
    header.set_checksum(c);
    proof {
        lemma_sealed_header_valid(*old(header), payload@);
    }
}

/// One write of a finished table into guest memory: its bytes, to be placed
/// contiguously from `address` on.
#[derive(Debug)]
pub struct GuestWrite {
    pub address: u64,
    pub bytes: Vec<u8>,
}

/// Functionality around System Descriptor Tables.
pub trait Sdt: View + Sized {
    /// The table's bytes, in layout order, as they stand.
    spec fn image(&self) -> Seq<u8>;

    /// The total length that the table records about itself.
    spec fn length_field(&self) -> nat;

    /// The table's model once its checksum fields are computed over its
    /// final image.
    spec fn sealed_view(&self) -> Self::V;

    /// The length of the table.
    fn len(&self) -> (r: usize)
        ensures
            r == self.image().len(),
            r == self.length_field(),
    ;

    /// Whether the table has no bytes.
    fn is_empty(&self) -> (r: bool)
        ensures
            r == (self.image().len() == 0),
    {
        self.len() == 0
    }

    /// Finalizes the checksum and hands back the table's bytes for guest
    /// memory at `address`. Fails when the end of the table would not be a
    /// representable guest address.
    fn write_to_guest(&mut self, address: u64) -> (r: Result<GuestWrite, AcpiError>)
        ensures
            final(self)@ == old(self).sealed_view(),
            final(self).image().len() == old(self).image().len(),
            final(self).length_field() == old(self).length_field(),
            checksum_valid(final(self).image()),
            r is Err <==> address + old(self).image().len() > u64::MAX,
            r matches Err(e) ==> e is InvalidGuestAddress,
            r matches Ok(w) ==> w.address == address && w.bytes@ == final(self).image(),
    ;
}

/// Pairs a finished image with its address, checking that its end is a
/// representable guest address.
pub fn guest_write(address: u64, bytes: Vec<u8>) -> (r: Result<GuestWrite, AcpiError>)
    ensures
        r is Err <==> address + bytes@.len() > u64::MAX,
        r matches Err(e) ==> e is InvalidGuestAddress,
        r matches Ok(w) ==> w.address == address && w.bytes@ == bytes@,
{
    match address.checked_add(bytes.len() as u64) {
        Some(_) => Ok(GuestWrite { address, bytes }),
        None => Err(AcpiError::InvalidGuestAddress),
    }
}

} // verus!
