//! Fixed ACPI Description Table: a header followed by a fixed 240-byte
//! description of the power-management hardware and the pointers to the DSDT.
use crate::codec::{
    le16, le32, le64, lemma_le_lengths, lemma_u64_at_le64, push_slice, push_u16,
    push_u32, push_u64, u64_at,
};
use crate::sdt::{
    fresh_header, gas_bytes, guest_write, header_bytes, lemma_header_len,
    lemma_sealed_header_valid, seal_header, sealed_header, AcpiError, GenericAddressStructure,
    GuestWrite, Sdt, SdtHeader,
};
use vstd::prelude::*;

verus! {

/// "FACP"
pub const FADT_SIGNATURE: [u8; 4] = [0x46, 0x41, 0x43, 0x50];

/// Byte size of the whole table for the revision produced here.
pub const FADT_SIZE: u32 = 276;

/// Boot architecture flag bit: no VGA device is present.
pub const IAPC_BOOT_ARG_FLAGS_VGA_NOT_PRESENT: u16 = 2;

/// Boot architecture flag bit: MSI must not be enabled.
pub const IAPC_BOOT_ARG_FLAGS_MSI_NOT_PRESENT: u16 = 3;

/// Boot architecture flag bit: PCIe ASPM controls must not be enabled.
pub const IAPC_BOOT_ARG_FLAGS_PCI_ASPM: u16 = 4;

/// Fixed feature flag bit: no power button device is present.
pub const FADT_F_PWR_BUTTON: u8 = 4;

/// Fixed feature flag bit: no sleep button device is present.
pub const FADT_F_SLP_BUTTON: u8 = 5;

/// Fixed feature flag bit: hardware-reduced ACPI.
pub const FADT_F_HW_REDUCED_ACPI: u8 = 20;

/// The fields that follow the header, in layout order.
#[derive(Copy, Clone, Debug, Default)]
pub struct FadtFields {
    pub firmware_control: u32,
    pub dsdt: u32,
    pub reserved_1: u8,
    pub preferred_pm_profile: u8,
    pub sci_int: u16,
    pub smi_cmd: u32,
    pub acpi_enable: u8,
    pub acpi_disable: u8,
    pub s4bios_req: u8,
    pub pstate_cnt: u8,
    pub pm1a_evt_blk: u32,
    pub pm1b_evt_blk: u32,
    pub pm1a_cnt_blk: u32,
    pub pm1b_cnt_blk: u32,
    pub pm2_cnt_blk: u32,
    pub pm_tmr_blk: u32,
    pub gpe0_blk: u32,
    pub gpe1_blk: u32,
    pub pm1_evt_len: u8,
    pub pm1_cnt_len: u8,
    pub pm2_cnt_len: u8,
    pub pm_tmr_len: u8,
    pub gpe0_blk_len: u8,
    pub gpe1_blk_len: u8,
    pub gpe1_base: u8,
    pub cst_cnt: u8,
    pub p_lvl2_lat: u16,
    pub p_lvl3_lat: u16,
    pub flush_size: u16,
    pub flush_stride: u16,
    pub duty_offset: u8,
    pub duty_width: u8,
    pub day_alrm: u8,
    pub mon_alrm: u8,
    pub century: u8,
    pub iapc_boot_arch: u16,
    pub reserved_2: u8,
    pub flags: u32,
    pub reset_reg: GenericAddressStructure,
    pub reset_value: u8,
    pub arm_boot_arch: u16,
    pub fadt_minor_version: u8,
    pub x_firmware_ctrl: u64,
    pub x_dsdt: u64,
    pub x_pm1a_evt_blk: GenericAddressStructure,
    pub x_pm1b_evt_blk: GenericAddressStructure,
    pub x_pm1a_cnt_blk: GenericAddressStructure,
    pub x_pm1b_cnt_blk: GenericAddressStructure,
    pub x_pm2_cnt_blk: GenericAddressStructure,
    pub x_pm_tmr_blk: GenericAddressStructure,
    pub x_gpe0_blk: GenericAddressStructure,
    pub x_gpe1_blk: GenericAddressStructure,
    pub sleep_control_reg: GenericAddressStructure,
    pub sleep_status_reg: GenericAddressStructure,
    pub hypervisor_vendor_id: [u8; 8],
}

/// Bytes 36..88: firmware pointers, interrupt, and legacy register blocks.
pub open spec fn fadt_blocks_bytes(f: FadtFields) -> Seq<u8> {
    le32(f.firmware_control) + le32(f.dsdt) + seq![f.reserved_1, f.preferred_pm_profile] + le16(
        f.sci_int,
    ) + le32(f.smi_cmd) + seq![f.acpi_enable, f.acpi_disable, f.s4bios_req, f.pstate_cnt]
        + le32(f.pm1a_evt_blk) + le32(f.pm1b_evt_blk) + le32(f.pm1a_cnt_blk) + le32(
        f.pm1b_cnt_blk,
    ) + le32(f.pm2_cnt_blk) + le32(f.pm_tmr_blk) + le32(f.gpe0_blk) + le32(f.gpe1_blk)
}

/// Bytes 88..116: register block lengths, latencies, and boot flags.
pub open spec fn fadt_lengths_bytes(f: FadtFields) -> Seq<u8> {
    seq![
        f.pm1_evt_len,
        f.pm1_cnt_len,
        f.pm2_cnt_len,
        f.pm_tmr_len,
        f.gpe0_blk_len,
        f.gpe1_blk_len,
        f.gpe1_base,
        f.cst_cnt,
    ] + le16(f.p_lvl2_lat) + le16(f.p_lvl3_lat) + le16(f.flush_size) + le16(f.flush_stride)
        + seq![f.duty_offset, f.duty_width, f.day_alrm, f.mon_alrm, f.century] + le16(
        f.iapc_boot_arch,
    ) + seq![f.reserved_2] + le32(f.flags)
}

/// Bytes 116..140: the reset register and the 64-bit firmware pointer.
pub open spec fn fadt_reset_bytes(f: FadtFields) -> Seq<u8> {
    gas_bytes(f.reset_reg) + seq![f.reset_value] + le16(f.arm_boot_arch) + seq![
        f.fadt_minor_version,
    ] + le64(f.x_firmware_ctrl)
}

/// The 104 bytes that precede the 64-bit DSDT pointer.
pub open spec fn fadt_head_bytes(f: FadtFields) -> Seq<u8> {
    fadt_blocks_bytes(f) + fadt_lengths_bytes(f) + fadt_reset_bytes(f)
}

/// The 128 bytes that follow the 64-bit DSDT pointer.
pub open spec fn fadt_tail_bytes(f: FadtFields) -> Seq<u8> {
    gas_bytes(f.x_pm1a_evt_blk) + gas_bytes(f.x_pm1b_evt_blk) + gas_bytes(f.x_pm1a_cnt_blk)
        + gas_bytes(f.x_pm1b_cnt_blk) + gas_bytes(f.x_pm2_cnt_blk) + gas_bytes(f.x_pm_tmr_blk)
        + gas_bytes(f.x_gpe0_blk) + gas_bytes(f.x_gpe1_blk) + gas_bytes(f.sleep_control_reg)
        + gas_bytes(f.sleep_status_reg) + f.hypervisor_vendor_id@
}

/// The 240 bytes that follow the header.
pub open spec fn fadt_fields_bytes(f: FadtFields) -> Seq<u8> {
    fadt_head_bytes(f) + le64(f.x_dsdt) + fadt_tail_bytes(f)
}

/// Byte offset of the 64-bit DSDT pointer in the table.
pub const FADT_X_DSDT_OFFSET: u32 = 140;

/// A descriptor with every field zero.
pub open spec fn zero_gas() -> GenericAddressStructure {
    GenericAddressStructure {
        address_space_id: 0,
        register_bit_width: 0,
        register_bit_offset: 0,
        access_size: 0,
        address: 0,
    }
}

/// The legacy 32-bit DSDT pointer: the address itself when it fits in 32
/// bits, zero otherwise (the 64-bit pointer then stands alone).
pub open spec fn legacy_dsdt(x_dsdt_addr: u64) -> u32 {
    if x_dsdt_addr <= u32::MAX {
        x_dsdt_addr as u32
    } else {
        0
    }
}

/// The fields of a fresh table: the DSDT pointers, the interrupt, the two
/// power-management register blocks and their lengths in bytes, the minor
/// revision and the vendor identification; everything else zero.
pub open spec fn fresh_fadt_fields(
    x_dsdt_addr: u64,
    sci_int: u16,
    x_pm1a_evt_blk: GenericAddressStructure,
    x_pm1a_cnt_blk: GenericAddressStructure,
    hypervisor_vendor_id: [u8; 8],
) -> FadtFields {
    FadtFields {
        firmware_control: 0,
        dsdt: legacy_dsdt(x_dsdt_addr),
        reserved_1: 0,
        preferred_pm_profile: 0,
        sci_int,
        smi_cmd: 0,
        acpi_enable: 0,
        acpi_disable: 0,
        s4bios_req: 0,
        pstate_cnt: 0,
        pm1a_evt_blk: 0,
        pm1b_evt_blk: 0,
        pm1a_cnt_blk: 0,
        pm1b_cnt_blk: 0,
        pm2_cnt_blk: 0,
        pm_tmr_blk: 0,
        gpe0_blk: 0,
        gpe1_blk: 0,
        pm1_evt_len: (x_pm1a_evt_blk.register_bit_width / 8) as u8,
        pm1_cnt_len: (x_pm1a_cnt_blk.register_bit_width / 8) as u8,
        pm2_cnt_len: 0,
        pm_tmr_len: 0,
        gpe0_blk_len: 0,
        gpe1_blk_len: 0,
        gpe1_base: 0,
        cst_cnt: 0,
        p_lvl2_lat: 0,
        p_lvl3_lat: 0,
        flush_size: 0,
        flush_stride: 0,
        duty_offset: 0,
        duty_width: 0,
        day_alrm: 0,
        mon_alrm: 0,
        century: 0,
        iapc_boot_arch: 0,
        reserved_2: 0,
        flags: 0,
        reset_reg: zero_gas(),
        reset_value: 0,
        arm_boot_arch: 0,
        fadt_minor_version: 5,
        x_firmware_ctrl: 0,
        x_dsdt: x_dsdt_addr,
        x_pm1a_evt_blk,
        x_pm1b_evt_blk: zero_gas(),
        x_pm1a_cnt_blk,
        x_pm1b_cnt_blk: zero_gas(),
        x_pm2_cnt_blk: zero_gas(),
        x_pm_tmr_blk: zero_gas(),
        x_gpe0_blk: zero_gas(),
        x_gpe1_blk: zero_gas(),
        sleep_control_reg: zero_gas(),
        sleep_status_reg: zero_gas(),
        hypervisor_vendor_id,
    }
}

/// The layout has the sizes that the standard fixes, and the 64-bit DSDT
/// pointer sits at its fixed offset.
pub proof fn lemma_fadt_layout(h: SdtHeader, f: FadtFields)
    ensures
        fadt_head_bytes(f).len() == 104,
        fadt_tail_bytes(f).len() == 128,
        fadt_fields_bytes(f).len() == 240,
        (header_bytes(h) + fadt_fields_bytes(f)).len() == FADT_SIZE,
        u64_at(header_bytes(h) + fadt_fields_bytes(f), FADT_X_DSDT_OFFSET as int) == f.x_dsdt,
{
    lemma_le_lengths();
    lemma_header_len(h);
    lemma_u64_at_le64(header_bytes(h) + fadt_head_bytes(f), f.x_dsdt, fadt_tail_bytes(f));
    assert(header_bytes(h) + fadt_fields_bytes(f) =~= header_bytes(h) + fadt_head_bytes(f) + le64(
        f.x_dsdt,
    ) + fadt_tail_bytes(f));
}

impl FadtFields {
    fn push_blocks(&self, v: &mut Vec<u8>)
        ensures
            final(v)@ == old(v)@ + fadt_blocks_bytes(*self),
    {
        push_u32(v, self.firmware_control);
        push_u32(v, self.dsdt);
        v.push(self.reserved_1);
        v.push(self.preferred_pm_profile);
        push_u16(v, self.sci_int);
        push_u32(v, self.smi_cmd);
        v.push(self.acpi_enable);
        v.push(self.acpi_disable);
        v.push(self.s4bios_req);
        v.push(self.pstate_cnt);
        push_u32(v, self.pm1a_evt_blk);
        push_u32(v, self.pm1b_evt_blk);
        push_u32(v, self.pm1a_cnt_blk);
        push_u32(v, self.pm1b_cnt_blk);
        push_u32(v, self.pm2_cnt_blk);
        push_u32(v, self.pm_tmr_blk);
        push_u32(v, self.gpe0_blk);
        push_u32(v, self.gpe1_blk);
        assert(final(v)@ =~= old(v)@ + fadt_blocks_bytes(*self));
    }

    fn push_lengths(&self, v: &mut Vec<u8>)
        ensures
            final(v)@ == old(v)@ + fadt_lengths_bytes(*self),
    {
        v.push(self.pm1_evt_len);
        v.push(self.pm1_cnt_len);
        v.push(self.pm2_cnt_len);
        v.push(self.pm_tmr_len);
        v.push(self.gpe0_blk_len);
        v.push(self.gpe1_blk_len);
        v.push(self.gpe1_base);
        v.push(self.cst_cnt);
        push_u16(v, self.p_lvl2_lat);
        push_u16(v, self.p_lvl3_lat);
        push_u16(v, self.flush_size);
        push_u16(v, self.flush_stride);
        v.push(self.duty_offset);
        v.push(self.duty_width);
        v.push(self.day_alrm);
        v.push(self.mon_alrm);
        v.push(self.century);
        push_u16(v, self.iapc_boot_arch);
        v.push(self.reserved_2);
        push_u32(v, self.flags);
        assert(final(v)@ =~= old(v)@ + fadt_lengths_bytes(*self));
    }

    fn push_reset(&self, v: &mut Vec<u8>)
        ensures
            final(v)@ == old(v)@ + fadt_reset_bytes(*self),
    {
        self.reset_reg.push_bytes(v);
        v.push(self.reset_value);
        push_u16(v, self.arm_boot_arch);
        v.push(self.fadt_minor_version);
        push_u64(v, self.x_firmware_ctrl);
        assert(final(v)@ =~= old(v)@ + fadt_reset_bytes(*self));
    }

    fn push_tail(&self, v: &mut Vec<u8>)
        ensures
            final(v)@ == old(v)@ + fadt_tail_bytes(*self),
    {
        self.x_pm1a_evt_blk.push_bytes(v);
        self.x_pm1b_evt_blk.push_bytes(v);
        self.x_pm1a_cnt_blk.push_bytes(v);
        self.x_pm1b_cnt_blk.push_bytes(v);
        self.x_pm2_cnt_blk.push_bytes(v);
        self.x_pm_tmr_blk.push_bytes(v);
        self.x_gpe0_blk.push_bytes(v);
        self.x_gpe1_blk.push_bytes(v);
        self.sleep_control_reg.push_bytes(v);
        self.sleep_status_reg.push_bytes(v);
        push_slice(v, self.hypervisor_vendor_id.as_slice());
        assert(final(v)@ =~= old(v)@ + fadt_tail_bytes(*self));
    }

    /// The fields' bytes in layout order.
    pub fn as_bytes(&self) -> (r: Vec<u8>)
        ensures
            r@ == fadt_fields_bytes(*self),
    {
        let mut v: Vec<u8> = Vec::new();
        self.push_blocks(&mut v);
        self.push_lengths(&mut v);
        self.push_reset(&mut v);
        push_u64(&mut v, self.x_dsdt);
        self.push_tail(&mut v);
        assert(v@ =~= fadt_fields_bytes(*self));
        v
    }
}

/// The model of a FADT.
pub struct FadtView {
    pub header: SdtHeader,
    pub fields: FadtFields,
}

pub open spec fn fadt_image(f: FadtView) -> Seq<u8> {
    header_bytes(f.header) + fadt_fields_bytes(f.fields)
}

/// Fixed ACPI Description Table.
#[derive(Copy, Clone, Debug)]
pub struct Fadt {
    header: SdtHeader,
    fields: FadtFields,
}

impl View for Fadt {
    type V = FadtView;

    closed spec fn view(&self) -> FadtView {
        FadtView { header: self.header, fields: self.fields }
    }
}

impl Fadt {
    #[verifier::type_invariant]
    spec fn length_matches(&self) -> bool {
        self.header.length == FADT_SIZE
    }

    /// A table pointing at the DSDT at `x_dsdt_addr`, with the given
    /// interrupt, power-management event and control blocks, and vendor
    /// identification.
    pub fn new(
        oem_id: [u8; 6],
        oem_table_id: [u8; 8],
        oem_revision: u32,
        x_dsdt_addr: u64,
        sci_int: u16,
        x_pm1a_evt_blk: GenericAddressStructure,
        x_pm1a_cnt_blk: GenericAddressStructure,
        hypervisor_vendor_id: [u8; 8],
    ) -> (r: Self)
        ensures
            r@ == (FadtView {
                header: fresh_header(FADT_SIGNATURE, FADT_SIZE, 6, oem_id, oem_table_id, oem_revision),
                fields: fresh_fadt_fields(
                    x_dsdt_addr,
                    sci_int,
                    x_pm1a_evt_blk,
                    x_pm1a_cnt_blk,
                    hypervisor_vendor_id,
                ),
            }),
    {
        let header = SdtHeader::new(FADT_SIGNATURE, FADT_SIZE, 6, oem_id, oem_table_id, oem_revision);
        let zero = GenericAddressStructure::new(0, 0, 0, 0, 0);
        let dsdt: u32 = if x_dsdt_addr <= u32::MAX as u64 {
            x_dsdt_addr as u32
        } else {
            0
        };
        let fields = FadtFields {
            firmware_control: 0,
            dsdt,
            reserved_1: 0,
            preferred_pm_profile: 0,
            sci_int,
            smi_cmd: 0,
            acpi_enable: 0,
            acpi_disable: 0,
            s4bios_req: 0,
            pstate_cnt: 0,
            pm1a_evt_blk: 0,
            pm1b_evt_blk: 0,
            pm1a_cnt_blk: 0,
            pm1b_cnt_blk: 0,
            pm2_cnt_blk: 0,
            pm_tmr_blk: 0,
            gpe0_blk: 0,
            gpe1_blk: 0,
            pm1_evt_len: x_pm1a_evt_blk.register_bit_width / 8,
            pm1_cnt_len: x_pm1a_cnt_blk.register_bit_width / 8,
            pm2_cnt_len: 0,
            pm_tmr_len: 0,
            gpe0_blk_len: 0,
            gpe1_blk_len: 0,
            gpe1_base: 0,
            cst_cnt: 0,
            p_lvl2_lat: 0,
            p_lvl3_lat: 0,
            flush_size: 0,
            flush_stride: 0,
            duty_offset: 0,
            duty_width: 0,
            day_alrm: 0,
            mon_alrm: 0,
            century: 0,
            iapc_boot_arch: 0,
            reserved_2: 0,
            flags: 0,
            reset_reg: zero,
            reset_value: 0,
            arm_boot_arch: 0,
            fadt_minor_version: 5,
            x_firmware_ctrl: 0,
            x_dsdt: x_dsdt_addr,
            x_pm1a_evt_blk,
            x_pm1b_evt_blk: zero,
            x_pm1a_cnt_blk,
            x_pm1b_cnt_blk: zero,
            x_pm2_cnt_blk: zero,
            x_pm_tmr_blk: zero,
            x_gpe0_blk: zero,
            x_gpe1_blk: zero,
            sleep_control_reg: zero,
            sleep_status_reg: zero,
            hypervisor_vendor_id,
        };
        Fadt { header, fields }
    }

    /// Sets the fixed feature flags.
    pub fn set_flags(&mut self, flags: u32)
        ensures
            final(self)@ == (FadtView { fields: FadtFields { flags, ..old(self)@.fields }, ..old(self)@ }),
    {
        proof {
            use_type_invariant(&*self);
        }
        self.fields.flags = flags;
    }

    /// Sets the boot architecture flags of PC-compatible machines.
    pub fn setup_iapc_flags(&mut self, flags: u16)
        ensures
            final(self)@ == (FadtView {
                fields: FadtFields { iapc_boot_arch: flags, ..old(self)@.fields },
                ..old(self)@
            }),
    {
        proof {
            use_type_invariant(&*self);
        }
        self.fields.iapc_boot_arch = flags;
    }
}

impl Sdt for Fadt {
    open spec fn image(&self) -> Seq<u8> {
        fadt_image(self@)
    }

    open spec fn length_field(&self) -> nat {
        self@.header.length as nat
    }

    open spec fn sealed_view(&self) -> FadtView {
        FadtView { header: sealed_header(self@.header, fadt_fields_bytes(self@.fields)), ..self@ }
    }

    fn len(&self) -> (r: usize) {
        proof {
            use_type_invariant(self);
            lemma_fadt_layout(self@.header, self@.fields);
        }
        assert(self.length_field() == self.header.length);
        self.header.length as usize
    }

    fn write_to_guest(&mut self, address: u64) -> (r: Result<GuestWrite, AcpiError>) {
        proof {
            use_type_invariant(&*self);
        }
        let fields = self.fields.as_bytes();
        let mut header = self.header;
        seal_header(&mut header, fields.as_slice());
        self.header = header;
        let mut bytes = header.as_bytes();
        push_slice(&mut bytes, fields.as_slice());
        proof {
            lemma_header_len(old(self)@.header);
            lemma_sealed_header_valid(old(self)@.header, fadt_fields_bytes(old(self)@.fields));
        }
        guest_write(address, bytes)
    }
}

} // verus!
