use acpi_tables::checksum;

#[test]
fn test_checksum() {
    assert_eq!(checksum(&[&[]]), 0u8);
    assert_eq!(checksum(&[]), 0u8);
    assert_eq!(checksum(&[&[1, 2, 3]]), 250u8);
    assert_eq!(checksum(&[&[1, 2, 3], &[]]), 250u8);
    assert_eq!(checksum(&[&[1, 2], &[3]]), 250u8);
    assert_eq!(checksum(&[&[1, 2], &[3], &[250]]), 0u8);
    assert_eq!(checksum(&[&[255]]), 1u8);
    assert_eq!(checksum(&[&[1, 2], &[3], &[250], &[255]]), 1u8);
}

fn byte_sum(bufs: &[&[u8]]) -> u32 {
    bufs.iter().flat_map(|b| b.iter()).map(|&x| x as u32).sum()
}

#[test]
fn checksum_closes_the_sum_for_varied_buffers() {
    let long: Vec<u8> = (0..1000u32).map(|i| (i * 7 % 256) as u8).collect();
    let cases: Vec<Vec<&[u8]>> = vec![
        vec![],
        vec![&[]],
        vec![&[255]],
        vec![&[0, 0, 0]],
        vec![&[128, 128]],
        vec![long.as_slice(), &[9, 8, 7]],
    ];
    for bufs in cases {
        let c = checksum(&bufs);
        assert_eq!((byte_sum(&bufs) + c as u32) % 256, 0);
    }
}

#[test]
fn checksum_of_single_full_byte_is_one() {
    assert_eq!(checksum(&[&[255]]), 1);
    assert_eq!(checksum(&[&[1, 2, 3, 250]]), 0);
    assert_eq!(checksum(&[&[1, 2, 250]]), 3);
}
