use tux_pdf::cmap::{
    cmap_blocks, generate_cid_to_unicode_map, gid_to_unicode_beg, unicode_to_utf16be_hex, width_runs,
    CMAP_HEAD, CMAP_MIDDLE, CMAP_TAIL, GID_TO_UNICODE_END,
};

#[test]
fn bmp_character() {
    // 'A' = U+0041
    assert_eq!(unicode_to_utf16be_hex(0x0041), "0041");
}

#[test]
fn bmp_cjk_character() {
    // CJK character U+4E2D
    assert_eq!(unicode_to_utf16be_hex(0x4E2D), "4E2D");
}

#[test]
fn supplementary_plane_emoji() {
    // U+1F60A -> surrogate pair D83D DE0A
    assert_eq!(unicode_to_utf16be_hex(0x1F60A), "D83DDE0A");
}

#[test]
fn supplementary_plane_emoji_thumbs_up() {
    // U+1F44D -> surrogate pair D83D DC4D
    assert_eq!(unicode_to_utf16be_hex(0x1F44D), "D83DDC4D");
}

#[test]
fn boundary_bmp_max() {
    // U+FFFF is the last BMP character
    assert_eq!(unicode_to_utf16be_hex(0xFFFF), "FFFF");
}

#[test]
fn boundary_first_supplementary() {
    // U+10000 is the first supplementary plane character -> D800 DC00
    assert_eq!(unicode_to_utf16be_hex(0x10000), "D800DC00");
}

#[test]
fn zero_is_four_zero_digits() {
    assert_eq!(unicode_to_utf16be_hex(0), "0000");
}

#[test]
fn last_code_point_is_dbff_dfff() {
    assert_eq!(unicode_to_utf16be_hex(0x10FFFF), "DBFFDFFF");
}

#[test]
fn surrogate_pair_decodes_back() {
    for u in [0x10000u32, 0x1F60A, 0x1F44D, 0x10FFFF, 0x2A6D6] {
        let hex = unicode_to_utf16be_hex(u);
        let high = u32::from_str_radix(&hex[0..4], 16).unwrap();
        let low = u32::from_str_radix(&hex[4..8], 16).unwrap();
        assert!((0xD800..=0xDBFF).contains(&high));
        assert!((0xDC00..=0xDFFF).contains(&low));
        assert_eq!((high - 0xD800) * 1024 + (low - 0xDC00) + 0x10000, u);
    }
}

#[test]
fn cmap_header_names_the_face_twice() {
    let head = gid_to_unicode_beg("Roboto");
    assert_eq!(head, format!("{CMAP_HEAD}Roboto{CMAP_MIDDLE}Roboto{CMAP_TAIL}"));
    assert!(head.contains("/Ordering (Roboto) def"));
    assert!(head.contains("/CMapName /FontSpecific-Roboto def"));
}

#[test]
fn cid_to_unicode_map_lists_blocks() {
    let blocks = vec![vec![(0u32, 0u32), (1, 0x41)], vec![(0x100, 0x1F60A)]];
    let map = generate_cid_to_unicode_map("F".to_string(), blocks);
    let expected = format!(
        "{}2 beginbfchar\r\n<0000> <0000>\n<0001> <0041>\nendbfchar\r\n1 beginbfchar\r\n<0100> <D83DDE0A>\nendbfchar\r\n{}",
        gid_to_unicode_beg("F"),
        GID_TO_UNICODE_END
    );
    assert_eq!(map, expected);
}

#[test]
fn cmap_blocks_split_on_page_change() {
    let entries = vec![(0u32, 0u32), (1, 65), (255, 66), (256, 67), (300, 68)];
    let blocks = cmap_blocks(&entries);
    assert_eq!(blocks, vec![vec![(0, 0), (1, 65), (255, 66)], vec![(256, 67), (300, 68)]]);
}

#[test]
fn cmap_blocks_hold_at_most_100_entries() {
    let entries: Vec<(u32, u32)> = (0..250u32).map(|g| (g, g + 32)).collect();
    let blocks = cmap_blocks(&entries);
    assert_eq!(blocks.iter().map(|b| b.len()).collect::<Vec<_>>(), vec![100, 100, 50]);
    let flat: Vec<(u32, u32)> = blocks.into_iter().flatten().collect();
    assert_eq!(flat, entries);
}

#[test]
fn cmap_blocks_start_on_page_zero() {
    // The first block is for page 0: an entry on another page opens a new block,
    // leaving the first one empty.
    let entries = vec![(0x200u32, 65u32)];
    let blocks = cmap_blocks(&entries);
    assert_eq!(blocks, vec![vec![], vec![(0x200, 65)]]);
}

#[test]
fn width_runs_group_consecutive_glyphs() {
    let widths = vec![Some(500i64), Some(600), None, Some(700), Some(800), None];
    let runs = width_runs(&widths);
    assert_eq!(runs, vec![(0u16, vec![500, 600]), (3, vec![700, 800])]);
}

#[test]
fn width_runs_of_nothing_is_one_empty_run() {
    let widths: Vec<Option<i64>> = vec![None, None];
    assert_eq!(width_runs(&widths), vec![(0u16, vec![])]);
}
