use mov_decoder::decoder::{decode, extract_fields, DecodeError};

// Operation `100010`, direction 1, width 1, mode `11`, reg_a `011`, reg_b
// `001`: the first selector is the destination and the word-width table is
// used.
#[test]
fn decodes_word_width_direction_set() {
    let w: u16 = 0b1000101111011001;
    assert_eq!(decode(w), Ok(String::from("mov bx,cx")));
}

// The same fields with the direction bit cleared: the operands swap.
#[test]
fn decodes_word_width_direction_clear() {
    let w: u16 = 0b1000100111011001;
    assert_eq!(decode(w), Ok(String::from("mov cx,bx")));
}

// The same fields with the width bit cleared: the byte-width table is
// selected, the operand positions stay.
#[test]
fn decodes_byte_width() {
    let w: u16 = 0b1000101011011001;
    assert_eq!(decode(w), Ok(String::from("mov bl,cl")));
}

// A word whose operation field is not the MOV register-to-register class
// is reported, not guessed at.
#[test]
fn rejects_unsupported_operation() {
    let w: u16 = 0b0000000011011001;
    assert_eq!(decode(w), Err(DecodeError::UnsupportedOperation));
    let w2: u16 = 0b1111111111011001;
    assert_eq!(decode(w2), Err(DecodeError::UnsupportedOperation));
}

// A MOV-class word whose mode field is not the register-to-register mode
// is reported as an unsupported addressing mode.
#[test]
fn rejects_unsupported_mode() {
    let w: u16 = 0b1000101100011001;
    assert_eq!(decode(w), Err(DecodeError::UnsupportedMode));
    let w2: u16 = 0b1000101101011001;
    assert_eq!(decode(w2), Err(DecodeError::UnsupportedMode));
    let w3: u16 = 0b1000101110011001;
    assert_eq!(decode(w3), Err(DecodeError::UnsupportedMode));
}

// Flipping only the direction bit swaps source and destination and changes
// nothing else.
#[test]
fn direction_flip_swaps_operands() {
    let words: [u16; 3] = [0b1000101111011001, 0b1000101011000010, 0b1000100111110100];
    let mut k: usize = 0;
    while k < words.len() {
        let w = words[k];
        let line = decode(w).unwrap();
        let flipped = decode(w ^ 0x0200).unwrap();
        let dest = &line[4..6];
        let src = &line[7..9];
        let flipped_dest = &flipped[4..6];
        let flipped_src = &flipped[7..9];
        assert_eq!(dest, flipped_src);
        assert_eq!(src, flipped_dest);
        assert_eq!(&line[0..4], "mov ");
        assert_eq!(&flipped[0..4], "mov ");
        k += 1;
    }
}

// Flipping only the width bit keeps both operand positions and renames
// each operand into the other register table.
#[test]
fn width_flip_keeps_positions() {
    let w: u16 = 0b1000101111011001;
    assert_eq!(decode(w), Ok(String::from("mov bx,cx")));
    assert_eq!(decode(w ^ 0x0100), Ok(String::from("mov bl,cl")));
    let v: u16 = 0b1000100111011001;
    assert_eq!(decode(v), Ok(String::from("mov cx,bx")));
    assert_eq!(decode(v ^ 0x0100), Ok(String::from("mov cl,bl")));
}

// Field extraction is total and deterministic: re-extracting the fields of
// a word yields the same six values, for every word tried.
#[test]
fn extraction_is_deterministic_and_total() {
    let mut w: u32 = 0;
    while w <= 0xFFFF {
        let first = extract_fields(w as u16);
        let second = extract_fields(w as u16);
        assert_eq!(first, second);
        assert!(first.operation < 64);
        assert!(first.direction < 2);
        assert!(first.width < 2);
        assert!(first.mode < 4);
        assert!(first.reg_a < 8);
        assert!(first.reg_b < 8);
        w += 1;
    }
}

// The six fields of one concrete word land where the bit layout puts them.
#[test]
fn extracts_expected_fields() {
    let f = extract_fields(0b1000101111011001);
    assert_eq!(f.operation, 0b100010);
    assert_eq!(f.direction, 1);
    assert_eq!(f.width, 1);
    assert_eq!(f.mode, 0b11);
    assert_eq!(f.reg_a, 0b011);
    assert_eq!(f.reg_b, 0b001);
}
