//! ACPI table generation for a virtual machine monitor: the tables a guest
//! reads at boot, the allocator that places them, and the sequence that
//! builds and links them.
pub mod codec;
pub mod dsdt;
pub mod fadt;
pub mod gtdt;
pub mod layout;
pub mod madt;
pub mod manager;
pub mod pptt;
pub mod resources;
pub mod rsdp;
pub mod sdt;
pub mod xsdt;

pub use codec::checksum;
pub use dsdt::Dsdt;
pub use fadt::Fadt;
pub use gtdt::{Gtdt, GtdtInner};
pub use madt::{GicC, GicD, GicIts, GicR, IoAPIC, LocalAPIC, Madt};
pub use manager::{AcpiManager, AcpiManagerError, ArchLayout, GicLayout};
pub use pptt::Pptt;
pub use resources::{ResourceAllocator, ResourceError};
pub use rsdp::Rsdp;
pub use sdt::{
    AcpiError, AddressSpace, GenericAddressStructure, GuestWrite, Sdt, SdtHeader,
    ACPI_REGISTERS_BASE_ADDRESS, ACPI_REGISTERS_LEN, ACPI_SCI_INT,
};
pub use vm_allocator::AllocPolicy;
pub use xsdt::Xsdt;
