use pixootop::fonts::{Font, Glyph};

fn mask(glyph: Glyph) -> Vec<String> {
    (0..glyph.height as u32)
        .map(|cy| {
            (0..glyph.width as u32)
                .map(|cx| if glyph.lit(cx, cy) { '#' } else { '.' })
                .collect()
        })
        .collect()
}

fn check(font: Font, table: &[(char, &[&str])]) {
    for (c, rows) in table {
        let glyph = font.glyph(*c).unwrap();
        assert_eq!(glyph.height as usize, rows.len(), "height of {c:?}");
        assert_eq!(glyph.width as usize, rows[0].len(), "width of {c:?}");
        assert_eq!(mask(glyph), *rows, "mask of {c:?}");
    }
}

#[test]
fn font_3x5_masks() {
    check(
        Font::Font3x5,
        &[
            ('0', &["###", "#.#", "#.#", "#.#", "###"]),
            ('1', &["##.", ".#.", ".#.", ".#.", "###"]),
            ('2', &["###", "..#", "###", "#..", "###"]),
            ('3', &["###", "..#", ".##", "..#", "###"]),
            ('4', &["#.#", "#.#", "###", "..#", "..#"]),
            ('5', &["###", "#..", "###", "..#", "###"]),
            ('6', &["###", "#..", "###", "#.#", "###"]),
            ('7', &["###", "..#", "..#", "..#", "..#"]),
            ('8', &["###", "#.#", "###", "#.#", "###"]),
            ('9', &["###", "#.#", "###", "..#", "###"]),
            (':', &[".", "#", ".", "#", "."]),
            (' ', &["...", "...", "...", "...", "..."]),
            ('I', &["#", "#", "#", "#", "#"]),
        ],
    );
}

#[test]
fn font_3x4_masks() {
    check(
        Font::Font3x4,
        &[
            ('0', &["###", "#.#", "#.#", "###"]),
            ('1', &["##.", ".#.", ".#.", "###"]),
            ('2', &["###", "..#", "##.", "###"]),
            ('3', &["###", ".##", "..#", "###"]),
            ('4', &["#.#", "#.#", "###", "..#"]),
            ('5', &["###", "##.", "..#", "###"]),
            ('6', &["###", "#..", "###", "###"]),
            ('7', &["###", "..#", "..#", "..#"]),
            ('8', &["###", "###", "#.#", "###"]),
            ('9', &["###", "###", "..#", "###"]),
            (':', &[".", "#", ".", "#"]),
            (' ', &["...", "...", "...", "..."]),
            ('I', &["#", "#", "#", "#"]),
        ],
    );
}

#[test]
fn font_3x3_masks() {
    check(
        Font::Font3x3,
        &[
            ('0', &["###", "#.#", "###"]),
            ('1', &["##.", ".#.", "###"]),
            ('2', &["##.", ".#.", ".##"]),
            ('3', &["###", ".##", "###"]),
            ('4', &["#.#", "###", "..#"]),
            ('5', &[".##", ".#.", "##."]),
            ('6', &["#..", "###", "###"]),
            ('7', &["###", "..#", "..#"]),
            ('8', &[".##", "###", "###"]),
            ('9', &["###", "###", "..#"]),
            (':', &["#", ".", "#"]),
            (' ', &[".", ".", "."]),
            ('I', &["#", "#", "#"]),
        ],
    );
}

#[test]
fn font_2x3_masks() {
    check(
        Font::Font2x3,
        &[
            ('0', &["..", "##", "##"]),
            ('1', &[".#", ".#", ".#"]),
            ('2', &["##", "..", ".#"]),
            ('3', &["#.", ".#", "#."]),
            ('4', &["#.", "##", ".#"]),
            ('5', &["##", "..", "#."]),
            ('6', &["#.", "##", "##"]),
            ('7', &["##", ".#", ".#"]),
            ('8', &["##", "##", "##"]),
            ('9', &["##", "##", ".#"]),
            (':', &["#", ".", "#"]),
            (' ', &[".", ".", "."]),
            ('I', &["#", "#", "#"]),
        ],
    );
}

#[test]
fn fonts_lack_other_characters() {
    for font in [Font::Font3x5, Font::Font3x4, Font::Font3x3, Font::Font2x3] {
        for c in ['a', 'i', 'A', 'O', '-', '.', '/', ';', '\u{e9}', '\n'] {
            assert_eq!(font.glyph(c), None);
        }
        for c in "0123456789: I".chars() {
            assert!(font.glyph(c).is_some());
        }
    }
}

#[test]
fn lit_is_false_outside_the_glyph() {
    let eight = Font::Font3x5.glyph('8').unwrap();
    assert!(eight.lit(0, 0));
    assert!(eight.lit(2, 4));
    assert!(!eight.lit(1, 1));
    assert!(!eight.lit(3, 0));
    assert!(!eight.lit(0, 5));
    assert!(!eight.lit(u32::MAX, u32::MAX));
}

#[test]
fn lit_reads_rows_from_the_top_and_columns_from_the_left() {
    let glyph = Glyph { width: 2, height: 3, bits: 0b10_00_01 };
    assert_eq!(mask(glyph), ["#.", "..", ".#"]);
    let wide = Glyph { width: 8, height: 4, bits: 0x80_00_00_01 };
    assert_eq!(mask(wide), ["#.......", "........", "........", ".......#"]);
}

#[test]
fn lit_is_false_beyond_the_bits() {
    let tall = Glyph { width: 8, height: 5, bits: u32::MAX };
    assert_eq!(mask(tall), ["........", "########", "########", "########", "########"]);
    let huge = Glyph { width: 255, height: 255, bits: u32::MAX };
    assert!(huge.lit(254, 254));
    assert!(huge.lit(223, 254));
    assert!(!huge.lit(222, 254));
    assert!(!huge.lit(0, 0));
}
