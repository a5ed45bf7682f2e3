use sandbox_sdk::globals::{gnames, gobjects, le_bytes8, name_pattern, Region,
    FNAMEENTRY_PADDING, GOBJECTS_OFFSET};

fn wide_with_nul(s: &str) -> Vec<u8> {
    let mut out: Vec<u8> = Vec::new();
    for unit in s.encode_utf16() {
        out.extend_from_slice(&unit.to_le_bytes());
    }
    out.push(0);
    out.push(0);
    out
}

/// The synthetic process image of the anchor inference: two name-table
/// entries separated by one entry's padding, a heap span holding a pointer
/// to the first entry, and a module image holding a pointer to that pointer.
fn synthetic_image() -> (Vec<Region>, Region) {
    // [pad 0x18]["None\0"][pad 0x18]["ByteProperty\0"]
    let mut r1: Vec<u8> = vec![0xAA; FNAMEENTRY_PADDING];
    r1.extend_from_slice(&wide_with_nul("None"));
    r1.extend_from_slice(&vec![0xBB; FNAMEENTRY_PADDING]);
    r1.extend_from_slice(&wide_with_nul("ByteProperty"));
    r1.extend_from_slice(&[0xCC; 16]);
    let region1 = Region { base: 0x10000, bytes: r1 };

    // A candidate backing-array span: the first entry's address at offset 8.
    let mut r2: Vec<u8> = vec![0x11; 8];
    r2.extend_from_slice(&le_bytes8(0x10000));
    r2.extend_from_slice(&[0x22; 8]);
    let region2 = Region { base: 0x20000, bytes: r2 };

    // The module image: the candidate's own address at offset 4.
    let mut m: Vec<u8> = vec![0x33; 4];
    m.extend_from_slice(&le_bytes8(0x20008));
    m.extend_from_slice(&[0x44; 4]);
    let module = Region { base: 0x40000, bytes: m };

    (vec![region1, region2], module)
}

#[test]
fn resolves_gnames_in_synthetic_image() {
    let (regions, module) = synthetic_image();
    // The pattern matches at the start of the "None" text; less the entry
    // padding, that is the start of the first padding block: the region
    // base itself. The pointer to it sits at 0x20008, and that address
    // appears at offset 4 of the module image.
    assert_eq!(gnames(&regions, &module), Some(0x40004));
}

#[test]
fn gobjects_sits_at_fixed_offset() {
    let (regions, module) = synthetic_image();
    assert_eq!(gobjects(&regions, &module), Some(0x40004 + GOBJECTS_OFFSET));
}

#[test]
fn discovery_fails_without_name_entries() {
    let regions = vec![Region { base: 0x10000, bytes: vec![0u8; 256] }];
    let module = Region { base: 0x40000, bytes: vec![0u8; 64] };
    assert_eq!(gnames(&regions, &module), None);
    assert_eq!(gobjects(&regions, &module), None);
}

#[test]
fn discovery_fails_without_pointer_in_module() {
    let (regions, _) = synthetic_image();
    // The module image holds no pointer to the candidate.
    let module = Region { base: 0x40000, bytes: vec![0x33u8; 16] };
    assert_eq!(gnames(&regions, &module), None);
}

#[test]
fn discovery_fails_without_backing_pointer() {
    let (regions, module) = synthetic_image();
    // Only the name-table region, no span holding a pointer to the entry.
    let only_names = vec![Region { base: regions[0].base, bytes: regions[0].bytes.clone() }];
    assert_eq!(gnames(&only_names, &module), None);
}

#[test]
fn name_pattern_layout() {
    let p = name_pattern();
    // "None" with nul, one entry's padding as wildcards, "ByteProperty"
    // with nul.
    assert_eq!(p.len(), 10 + FNAMEENTRY_PADDING + 26);
    assert_eq!(p[0], Some(b'N'));
    assert_eq!(p[1], Some(0));
    assert_eq!(p[8], Some(0));
    assert_eq!(p[9], Some(0));
    for i in 0..FNAMEENTRY_PADDING {
        assert_eq!(p[10 + i], None);
    }
    assert_eq!(p[10 + FNAMEENTRY_PADDING], Some(b'B'));
    assert_eq!(p[p.len() - 1], Some(0));
}

#[test]
fn name_pattern_matches_the_entry_layout() {
    // Against the synthetic layout, the pattern matches exactly at the
    // start of the "None" text: one entry padding into the region.
    let (regions, _) = synthetic_image();
    let p = name_pattern();
    assert_eq!(
        sandbox_sdk::pattern::find_pattern(&p, &regions[0].bytes),
        Some(FNAMEENTRY_PADDING)
    );
}

#[test]
fn parsed_text_pattern_scans_memory() {
    // A pattern written as text, parsed and slid over a buffer.
    let p = sandbox_sdk::pattern::parse_pattern("4e 00 ?? 00").unwrap();
    let mut mem: Vec<u8> = vec![0xff; 6];
    mem.extend_from_slice(&[0x4e, 0x00, 0x6f, 0x00]);
    assert_eq!(sandbox_sdk::pattern::find_pattern(&p, &mem), Some(6));
}

#[test]
fn le_bytes8_little_endian() {
    assert_eq!(
        le_bytes8(0x0123456789ABCDEF),
        vec![0xEF, 0xCD, 0xAB, 0x89, 0x67, 0x45, 0x23, 0x01]
    );
    assert_eq!(le_bytes8(0), vec![0u8; 8]);
}
