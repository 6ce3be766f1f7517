//! The canonical 8086 register tables.
//!
//! A 3-bit register selector together with an operand-width flag picks one
//! of sixteen register mnemonics: eight byte-width registers and eight
//! word-width registers. The lookup is total over selectors 0 through 7 and
//! never fails.

use vstd::prelude::*;

verus! {

/// Operand width of an instruction: whether its register selectors name
/// the 8-bit (byte) or the 16-bit (word) register set.
#[derive(Clone, Copy, Debug, PartialEq, Eq, Structural)]
pub enum Width {
    Byte,
    Word,
}

/// The byte-width register table: selector to mnemonic.
pub open spec fn byte_reg_name(sel: int) -> Seq<char> {
    if sel == 0 {
        "al"@
    } else if sel == 1 {
        "cl"@
    } else if sel == 2 {
        "dl"@
    } else if sel == 3 {
        "bl"@
    } else if sel == 4 {
        "ah"@
    } else if sel == 5 {
        "ch"@
    } else if sel == 6 {
        "dh"@
    } else if sel == 7 {
        "bh"@
    } else {
        Seq::empty()
    }
}

/// The word-width register table: selector to mnemonic.
pub open spec fn word_reg_name(sel: int) -> Seq<char> {
    if sel == 0 {
        "ax"@
    } else if sel == 1 {
        "cx"@
    } else if sel == 2 {
        "dx"@
    } else if sel == 3 {
        "bx"@
    } else if sel == 4 {
        "sp"@
    } else if sel == 5 {
        "bp"@
    } else if sel == 6 {
        "si"@
    } else if sel == 7 {
        "di"@
    } else {
        Seq::empty()
    }
}

/// The register table selected by `width`.
pub open spec fn reg_name(width: Width, sel: int) -> Seq<char> {
    match width {
        Width::Byte => byte_reg_name(sel),
        Width::Word => word_reg_name(sel),
    }
}

/// Every register table row is a sound mnemonic: for each of the eight
/// selectors and either width, the table holds a two-character name, no
/// name contains a newline, and no two selectors of the same width share a
/// name.
pub proof fn lemma_tables_wellformed()
    ensures
        forall|s: int| 0 <= s < 8 ==> (#[trigger] byte_reg_name(s)).len() == 2,
        forall|s: int| 0 <= s < 8 ==> (#[trigger] word_reg_name(s)).len() == 2,
        forall|s: int, i: int| 0 <= s < 8 && 0 <= i < 2 ==> #[trigger] byte_reg_name(s)[i]
            != '\n',
        forall|s: int, i: int| 0 <= s < 8 && 0 <= i < 2 ==> #[trigger] word_reg_name(s)[i]
            != '\n',
        forall|s1: int, s2: int|
            0 <= s1 < 8 && 0 <= s2 < 8 && s1 != s2 ==> byte_reg_name(s1) != byte_reg_name(s2),
        forall|s1: int, s2: int|
            0 <= s1 < 8 && 0 <= s2 < 8 && s1 != s2 ==> word_reg_name(s1) != word_reg_name(s2),
{
    reveal_strlit("al");
    reveal_strlit("cl");
    reveal_strlit("dl");
    reveal_strlit("bl");
    reveal_strlit("ah");
    reveal_strlit("ch");
    reveal_strlit("dh");
    reveal_strlit("bh");
    reveal_strlit("ax");
    reveal_strlit("cx");
    reveal_strlit("dx");
    reveal_strlit("bx");
    reveal_strlit("sp");
    reveal_strlit("bp");
    reveal_strlit("si");
    reveal_strlit("di");
    assert forall|s1: int, s2: int|
        0 <= s1 < 8 && 0 <= s2 < 8 && s1 != s2 implies byte_reg_name(s1)
        != byte_reg_name(s2) by {
        if byte_reg_name(s1) == byte_reg_name(s2) {
            assert(byte_reg_name(s1)[0] == byte_reg_name(s2)[0]);
            assert(byte_reg_name(s1)[1] == byte_reg_name(s2)[1]);
        }
    }
    assert forall|s1: int, s2: int|
        0 <= s1 < 8 && 0 <= s2 < 8 && s1 != s2 implies word_reg_name(s1)
        != word_reg_name(s2) by {
        if word_reg_name(s1) == word_reg_name(s2) {
            assert(word_reg_name(s1)[0] == word_reg_name(s2)[0]);
            assert(word_reg_name(s1)[1] == word_reg_name(s2)[1]);
        }
    }
}

/// Resolves a register selector to its mnemonic in the table that `width`
/// selects. Total over the whole selector domain: every selector a 3-bit
/// field can produce has an entry.
pub fn lookup(sel: u8, width: Width) -> (r: &'static str)
    requires
        sel < 8,
    ensures
        r@ == reg_name(width, sel as int),
{
    match width {
        Width::Byte => {
            if sel == 0 {
                "al"
            } else if sel == 1 {
                "cl"
            } else if sel == 2 {
                "dl"
            } else if sel == 3 {
                "bl"
            } else if sel == 4 {
                "ah"
            } else if sel == 5 {
                "ch"
            } else if sel == 6 {
                "dh"
            } else {
                "bh"
            }
        },
        Width::Word => {
            if sel == 0 {
                "ax"
            } else if sel == 1 {
                "cx"
            } else if sel == 2 {
                "dx"
            } else if sel == 3 {
                "bx"
            } else if sel == 4 {
                "sp"
            } else if sel == 5 {
                "bp"
            } else if sel == 6 {
                "si"
            } else {
                "di"
            }
        },
    }
}

} // verus!
