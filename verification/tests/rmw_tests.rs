use flash_mock::rmw::write_merged;
use flash_mock::{FlashMock, FlashMockError};

fn read_back<const R: usize, const W: usize, const E: usize>(
    m: &mut FlashMock<R, W, E>,
    offset: u32,
    len: usize,
) -> Vec<u8> {
    let mut buf: Vec<u8> = vec![0u8; len];
    m.read(offset, &mut buf).unwrap();
    buf
}

#[test]
fn overlay_within_one_erase_unit() {
    const E: usize = 4096;
    let mut m = FlashMock::<1, 4, E>::new(8192).unwrap();
    // Pre-populate the first erase unit with a known pattern.
    let pattern: Vec<u8> = (0..E).map(|i| (i % 251) as u8).collect();
    m.write(0, &pattern).unwrap();

    let k: usize = 1234;
    let b: Vec<u8> = (0u8..100).map(|v| v.wrapping_mul(3)).collect();
    write_merged(&mut m, k as u32, &b).unwrap();

    let mut expected = Vec::new();
    expected.extend_from_slice(&pattern[..k]);
    expected.extend_from_slice(&b);
    expected.extend_from_slice(&pattern[k + b.len()..]);
    assert_eq!(read_back(&mut m, 0, E), expected);
    // The untouched second erase unit keeps its erased state.
    assert_eq!(read_back(&mut m, E as u32, E), vec![0xFFu8; E]);
}

#[test]
fn overlay_across_erase_units() {
    const E: usize = 64;
    let mut m = FlashMock::<1, 4, E>::new(256).unwrap();
    let pattern: Vec<u8> = (0..256).map(|i| i as u8).collect();
    m.write(0, &pattern).unwrap();

    // The range [40, 200) straddles three erase units.
    let b: Vec<u8> = vec![0xABu8; 160];
    write_merged(&mut m, 40, &b).unwrap();

    let mut expected = pattern.clone();
    expected[40..200].copy_from_slice(&b);
    assert_eq!(read_back(&mut m, 0, 256), expected);
}

#[test]
fn unaligned_offset_and_length_accepted() {
    let mut m = FlashMock::<1, 4, 64>::new(256).unwrap();
    write_merged(&mut m, 3, &vec![7u8, 8, 9]).unwrap();
    assert_eq!(read_back(&mut m, 0, 8), vec![0xFF, 0xFF, 0xFF, 7, 8, 9, 0xFF, 0xFF]);
}

#[test]
fn rejects_range_past_capacity() {
    let mut m = FlashMock::<1, 4, 64>::new(256).unwrap();
    let before = m.as_bytes().clone();
    assert_eq!(
        write_merged(&mut m, 200, &vec![1u8; 57]),
        Err(FlashMockError::AlignmentOrBounds)
    );
    assert_eq!(m.as_bytes(), &before);
}

#[test]
fn rejects_units_wider_than_erase_unit() {
    // A read unit wider than the erase unit leaves the merge's page-sized
    // reads misaligned, so the adapter rejects the request up front.
    let mut m = FlashMock::<128, 4, 64>::new(256).unwrap();
    let before = m.as_bytes().clone();
    assert_eq!(
        write_merged(&mut m, 0, &vec![1u8, 2]),
        Err(FlashMockError::AlignmentOrBounds)
    );
    assert_eq!(m.as_bytes(), &before);
}

#[test]
fn persistence_across_reconstruction() {
    let saved: Vec<u8>;
    {
        let mut m = FlashMock::<1, 4, 64>::new(256).unwrap();
        write_merged(&mut m, 10, &vec![42u8, 43, 44]).unwrap();
        saved = m.as_bytes().clone();
    }
    let mut again = FlashMock::<1, 4, 64>::from_contents(saved).unwrap();
    assert_eq!(read_back(&mut again, 10, 3), vec![42u8, 43, 44]);
    assert_eq!(read_back(&mut again, 0, 10), vec![0xFFu8; 10]);
}

#[test]
fn from_contents_checks_geometry() {
    assert_eq!(
        FlashMock::<1, 4, 64>::from_contents(vec![0u8; 100]).unwrap_err(),
        FlashMockError::ConfigurationError
    );
    assert!(FlashMock::<1, 4, 64>::from_contents(vec![0u8; 128]).is_ok());
}

#[test]
fn overlay_of_exactly_one_full_unit() {
    const E: usize = 64;
    let mut m = FlashMock::<1, 4, E>::new(256).unwrap();
    let pattern: Vec<u8> = (0..256).map(|i| (255 - i) as u8).collect();
    m.write(0, &pattern).unwrap();

    let b: Vec<u8> = vec![0x5Au8; E];
    write_merged(&mut m, E as u32, &b).unwrap();

    let mut expected = pattern.clone();
    expected[E..2 * E].copy_from_slice(&b);
    assert_eq!(read_back(&mut m, 0, 256), expected);
}

#[test]
fn operations_at_the_capacity_edge() {
    let mut m = FlashMock::<1, 4, 64>::new(256).unwrap();
    m.write(252, &vec![1u8, 2, 3, 4]).unwrap();
    assert_eq!(read_back(&mut m, 252, 4), vec![1u8, 2, 3, 4]);
    write_merged(&mut m, 254, &vec![8u8, 9]).unwrap();
    assert_eq!(read_back(&mut m, 252, 4), vec![1u8, 2, 8, 9]);
    m.erase(0, 256).unwrap();
    assert_eq!(read_back(&mut m, 0, 256), vec![0xFFu8; 256]);
}
