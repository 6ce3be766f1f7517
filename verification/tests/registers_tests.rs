use mov_decoder::registers::{lookup, Width};

// The byte-width table row by row: the canonical 8086 encoding.
#[test]
fn byte_table_entries() {
    let expected: [&str; 8] = ["al", "cl", "dl", "bl", "ah", "ch", "dh", "bh"];
    let mut sel: u8 = 0;
    while sel < 8 {
        assert_eq!(lookup(sel, Width::Byte), expected[sel as usize]);
        sel += 1;
    }
}

// The word-width table row by row.
#[test]
fn word_table_entries() {
    let expected: [&str; 8] = ["ax", "cx", "dx", "bx", "sp", "bp", "si", "di"];
    let mut sel: u8 = 0;
    while sel < 8 {
        assert_eq!(lookup(sel, Width::Word), expected[sel as usize]);
        sel += 1;
    }
}

// Every row of either table is a non-empty mnemonic, and no two selectors
// of the same width share one.
#[test]
fn tables_nonempty_and_distinct_per_width() {
    let widths: [Width; 2] = [Width::Byte, Width::Word];
    let mut k: usize = 0;
    while k < 2 {
        let width = widths[k];
        let mut s1: u8 = 0;
        while s1 < 8 {
            assert!(!lookup(s1, width).is_empty());
            let mut s2: u8 = 0;
            while s2 < 8 {
                if s1 != s2 {
                    assert_ne!(lookup(s1, width), lookup(s2, width));
                }
                s2 += 1;
            }
            s1 += 1;
        }
        k += 1;
    }
}
