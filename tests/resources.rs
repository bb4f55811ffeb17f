use acpi_tables::{AllocPolicy, ResourceAllocator};

fn allocator(irq_base: u32, irq_max: u32) -> ResourceAllocator {
    ResourceAllocator::with_ranges(irq_base, irq_max, 0xd000_0000, 0x1000, 0x10_0000, 0x1000).unwrap()
}

#[test]
fn default_allocator_hands_out_lines_from_five() {
    let mut a = ResourceAllocator::new().unwrap();
    assert_eq!(a.allocate_gsi(2).unwrap(), vec![5, 6]);
}

#[test]
fn gsi_batch_up_to_capacity_is_distinct_and_in_range() {
    let mut a = allocator(5, 23);
    let gsis = a.allocate_gsi(19).unwrap();
    assert_eq!(gsis.len(), 19);
    let mut sorted = gsis.clone();
    sorted.sort();
    sorted.dedup();
    assert_eq!(sorted.len(), 19);
    assert!(gsis.iter().all(|g| (5..=23).contains(g)));
    assert!(a.allocate_gsi(1).is_err());
}

#[test]
fn oversized_gsi_batch_fails_and_reserves_nothing() {
    let mut a = allocator(5, 23);
    assert!(a.allocate_gsi(20).is_err());
    // everything is still free: the full range can be had, smallest first
    let gsis = a.allocate_gsi(19).unwrap();
    assert_eq!(gsis, (5..=23).collect::<Vec<u32>>());
}

#[test]
fn failed_batch_after_partial_use_keeps_earlier_lines() {
    let mut a = allocator(10, 13);
    assert_eq!(a.allocate_gsi(2).unwrap(), vec![10, 11]);
    assert!(a.allocate_gsi(3).is_err());
    assert_eq!(a.allocate_gsi(2).unwrap(), vec![12, 13]);
}

#[test]
fn freed_line_is_handed_out_again() {
    let mut a = allocator(5, 7);
    assert_eq!(a.allocate_gsi(3).unwrap(), vec![5, 6, 7]);
    assert!(a.free_gsi(6).is_ok());
    assert!(a.free_gsi(6).is_err());
    assert!(a.free_gsi(100).is_err());
    assert_eq!(a.allocate_gsi(1).unwrap(), vec![6]);
}

#[test]
fn empty_ranges_are_refused() {
    assert!(ResourceAllocator::with_ranges(23, 5, 0, 0x1000, 0, 0x1000).is_err());
    assert!(ResourceAllocator::with_ranges(5, 23, 0, 0, 0, 0x1000).is_err());
    assert!(ResourceAllocator::with_ranges(5, 23, 0, 0x1000, u64::MAX, 2).is_err());
    assert!(ResourceAllocator::with_ranges(5, 5, 0, 1, 0, 1).is_ok());
}

#[test]
fn sequential_first_fit_allocations_do_not_overlap() {
    let mut a = allocator(5, 23);
    let s1 = 100u64;
    let s2 = 200u64;
    let a1 = a.allocate_acpi_memory(s1, 64, AllocPolicy::FirstMatch).unwrap();
    let a2 = a.allocate_acpi_memory(s2, 64, AllocPolicy::FirstMatch).unwrap();
    assert_eq!(a1 % 64, 0);
    assert_eq!(a2 % 64, 0);
    assert!(a1 + s1 <= a2 || a2 + s2 <= a1);
    assert_eq!(a1, 0x10_0000);
    let m = a.allocate_mmio_memory(0x100, 0x100, AllocPolicy::FirstMatch).unwrap();
    assert_eq!(m, 0xd000_0000);
}

#[test]
fn allocation_larger_than_free_space_fails() {
    let mut a = allocator(5, 23);
    assert!(a.allocate_acpi_memory(0x1001, 64, AllocPolicy::FirstMatch).is_err());
    assert!(a.allocate_acpi_memory(0x800, 64, AllocPolicy::FirstMatch).is_ok());
    assert!(a.allocate_acpi_memory(0x801, 64, AllocPolicy::FirstMatch).is_err());
    assert!(a.allocate_acpi_memory(0, 64, AllocPolicy::FirstMatch).is_err());
    assert!(a.allocate_mmio_memory(0x2000, 4, AllocPolicy::FirstMatch).is_err());
}

#[test]
fn zero_line_request_is_refused_and_reserves_nothing() {
    let mut a = allocator(5, 7);
    assert!(matches!(a.allocate_gsi(0), Err(acpi_tables::ResourceError::InvalidCount)));
    assert_eq!(a.allocate_gsi(3).unwrap(), vec![5, 6, 7]);
    assert!(matches!(a.allocate_gsi(1), Err(acpi_tables::ResourceError::Allocator(_))));
}

#[test]
fn first_fit_takes_the_lowest_aligned_start() {
    let mut a = allocator(5, 23);
    assert_eq!(a.allocate_acpi_memory(100, 64, AllocPolicy::FirstMatch).unwrap(), 0x10_0000);
    // the next 64-byte boundary after the first range
    assert_eq!(a.allocate_acpi_memory(200, 64, AllocPolicy::FirstMatch).unwrap(), 0x10_0080);
    assert_eq!(a.allocate_acpi_memory(1, 0x400, AllocPolicy::FirstMatch).unwrap(), 0x10_0400);
}

#[test]
fn failed_address_request_changes_nothing() {
    let mut a = allocator(5, 23);
    assert!(a.allocate_acpi_memory(0x2000, 64, AllocPolicy::FirstMatch).is_err());
    assert!(a.allocate_acpi_memory(64, 3, AllocPolicy::FirstMatch).is_err());
    // the whole region is still one free block
    assert_eq!(a.allocate_acpi_memory(0x1000, 64, AllocPolicy::FirstMatch).unwrap(), 0x10_0000);
}
