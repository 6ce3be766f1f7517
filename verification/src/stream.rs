//! Decoding a whole input stream.
//!
//! The input is a raw byte sequence holding 16-bit big-endian instruction
//! words with no header and no padding; a trailing odd byte is discarded,
//! not an error. Each word is decoded independently, and the output lines
//! stand in the same order as their words: the result for position `i`
//! always comes from the word at position `i`.

use vstd::prelude::*;

use crate::decoder::DecodeError;
use crate::decoder::decode;
use crate::decoder::spec_decode;
use vstd::string::StringExecFns;

verus! {

/// The 16-bit big-endian word formed by the byte pair at position `i`: the
/// earlier byte is the high-order byte.
pub open spec fn word_at(bytes: Seq<u8>, i: int) -> u16 {
    (bytes[2 * i] * 256 + bytes[2 * i + 1]) as u16
}

/// Packs a raw byte sequence into 16-bit big-endian instruction words,
/// pairing consecutive bytes in order. A trailing odd byte is discarded.
pub fn words_from_bytes(bytes: &Vec<u8>) -> (words: Vec<u16>)
    ensures
        words@.len() == bytes@.len() / 2,
        forall|i: int| 0 <= i < words@.len() ==> words@[i] == word_at(bytes@, i),
{
    let n = bytes.len() / 2;
    let mut words: Vec<u16> = Vec::new();
    let mut i: usize = 0;
    while i < n
        invariant
            n == bytes@.len() / 2,
            i <= n,
            bytes@.len() <= usize::MAX,
            words@.len() == i,
            forall|j: int| 0 <= j < i ==> words@[j] == word_at(bytes@, j),
        decreases n - i,
    {
        let hi = bytes[2 * i];
        let lo = bytes[2 * i + 1];
        words.push((hi as u16) * 256 + (lo as u16));
        i = i + 1;
    }
    words
}

/// Whether an executable decode result carries exactly what the decoding
/// specification yields: the same line on success, the same error
/// otherwise.
pub open spec fn result_matches(r: Result<String, DecodeError>, s: Result<Seq<char>, DecodeError>) -> bool {
    match (r, s) {
        (Ok(line), Ok(l)) => line@ == l,
        (Err(e), Err(f)) => e == f,
        _ => false,
    }
}

/// Decodes a sequence of instruction words one by one. The output has one
/// entry per input word, in input order.
pub fn decode_words(words: &Vec<u16>) -> (out: Vec<Result<String, DecodeError>>)
    ensures
        out@.len() == words@.len(),
        forall|i: int| 0 <= i < words@.len() ==> result_matches(
            #[trigger] out@[i],
            spec_decode(words@[i]),
        ),
{
    let mut out: Vec<Result<String, DecodeError>> = Vec::new();
    let mut i: usize = 0;
    while i < words.len()
        invariant
            i <= words@.len(),
            out@.len() == i,
            forall|j: int| 0 <= j < i ==> result_matches(#[trigger] out@[j], spec_decode(words@[j])),
        decreases words@.len() - i,
    {
        out.push(decode(words[i]));
        i = i + 1;
    }
    out
}

/// The text of a run of assembly lines: each line in order, each followed
/// by one newline.
pub open spec fn lines_text(lines: Seq<Seq<char>>) -> Seq<char>
    decreases lines.len(),
{
    if lines.len() == 0 {
        Seq::empty()
    } else {
        lines_text(lines.drop_last()) + lines.last() + "\n"@
    }
}

/// The directive line that precedes the instruction lines in the output.
pub open spec fn header_text() -> Seq<char> {
    "bits 16;\n\n"@
}

/// Joins decoded assembly lines into the full output text: the leading
/// directive line, then every line in order, each terminated by a newline.
pub fn assemble_output(lines: &Vec<String>) -> (out: String)
    ensures
        out@ == header_text() + lines_text(lines@.map_values(|line: String| line@)),
{
    let ghost line_views = lines@.map_values(|line: String| line@);
    let mut out = String::new();
    out.append("bits 16;\n\n");
    let mut i: usize = 0;
    while i < lines.len()
        invariant
            i <= lines@.len(),
            line_views == lines@.map_values(|line: String| line@),
            out@ == header_text() + lines_text(line_views.take(i as int)),
        decreases lines@.len() - i,
    {
        out.append(lines[i].as_str());
        out.append("\n");
        proof {
            let taken = line_views.take(i + 1);
            assert(taken.drop_last() =~= line_views.take(i as int));
            assert(taken.last() == line_views[i as int]);
            assert(out@ =~= header_text() + lines_text(taken));
        }
        i = i + 1;
    }
    proof {
        assert(line_views.take(lines@.len() as int) =~= line_views);
    }
    out
}

/// Whether a line holds no newline, so that joining lines with newline
/// terminators keeps them apart.
pub open spec fn newline_free(line: Seq<char>) -> bool {
    forall|i: int| 0 <= i < line.len() ==> line[i] != '\n'
}

/// Splits text into its newline-terminated lines, the terminators removed,
/// carrying the characters read since the last terminator in `cur`.
/// Characters after the final newline belong to no line.
pub open spec fn split_lines_from(text: Seq<char>, cur: Seq<char>) -> Seq<Seq<char>>
    decreases text.len(),
{
    if text.len() == 0 {
        Seq::empty()
    } else if text[0] == '\n' {
        seq![cur] + split_lines_from(text.skip(1), Seq::empty())
    } else {
        split_lines_from(text.skip(1), cur.push(text[0]))
    }
}

/// The newline-terminated lines of `text`, in order, terminators removed.
pub open spec fn split_lines(text: Seq<char>) -> Seq<Seq<char>> {
    split_lines_from(text, Seq::empty())
}

/// Reading one terminated line off the front of the text: the characters
/// already carried complete it, and the rest splits on its own.
proof fn lemma_split_first_line(line: Seq<char>, rest: Seq<char>, cur: Seq<char>)
    requires
        newline_free(line),
    ensures
        split_lines_from(line + "\n"@ + rest, cur) == seq![cur + line] + split_lines_from(
            rest,
            Seq::empty(),
        ),
    decreases line.len(),
{
    reveal_strlit("\n");
    let text = line + "\n"@ + rest;
    if line.len() == 0 {
        assert(text.skip(1) =~= rest);
        assert(cur + line =~= cur);
    } else {
        assert(text[0] == line[0]);
        lemma_split_first_line(line.skip(1), rest, cur.push(line[0]));
        assert(text.skip(1) =~= line.skip(1) + "\n"@ + rest);
        assert(cur.push(line[0]) + line.skip(1) =~= cur + line);
    }
}

/// `lines_text` read off the front: the first line, its terminator, then
/// the text of the remaining lines.
proof fn lemma_lines_text_first(lines: Seq<Seq<char>>)
    requires
        lines.len() > 0,
    ensures
        lines_text(lines) == lines[0] + "\n"@ + lines_text(lines.skip(1)),
    decreases lines.len(),
{
    if lines.len() == 1 {
        assert(lines.drop_last() =~= Seq::<Seq<char>>::empty());
        assert(lines.skip(1) =~= Seq::<Seq<char>>::empty());
        assert(lines_text(lines) =~= lines[0] + "\n"@ + lines_text(lines.skip(1)));
    } else {
        let front = lines.drop_last();
        lemma_lines_text_first(front);
        assert(lines.skip(1).drop_last() =~= front.skip(1));
        assert(lines.skip(1).last() == lines.last());
        assert(lines_text(lines.skip(1)) == lines_text(front.skip(1)) + lines.last() + "\n"@);
        assert(lines_text(lines) =~= lines[0] + "\n"@ + lines_text(lines.skip(1)));
    }
}

/// Round trip over the line text: joining any newline-free lines with
/// newline terminators and splitting the text again yields exactly the
/// lines that were joined, in their order.
pub proof fn lemma_lines_round_trip(lines: Seq<Seq<char>>)
    requires
        forall|k: int| 0 <= k < lines.len() ==> newline_free(#[trigger] lines[k]),
    ensures
        split_lines(lines_text(lines)) == lines,
    decreases lines.len(),
{
    if lines.len() == 0 {
        assert(split_lines(lines_text(lines)) =~= lines);
    } else {
        lemma_lines_text_first(lines);
        lemma_split_first_line(lines[0], lines_text(lines.skip(1)), Seq::empty());
        lemma_lines_round_trip(lines.skip(1));
        assert(Seq::<char>::empty() + lines[0] =~= lines[0]);
        assert(seq![lines[0]] + lines.skip(1) =~= lines);
    }
}

/// Round trip over the whole output text: the text that `assemble_output`
/// builds from the decoded lines of any run of words splits back into the
/// directive line, one blank separator line, and then exactly one line per
/// word, each the rendering of its own word, in word order.
pub proof fn lemma_output_round_trip(words: Seq<u16>)
    ensures
        ({
            let lines = words.map_values(|w: u16| crate::decoder::spec_line(w));
            &&& lines.len() == words.len()
            &&& split_lines(header_text() + lines_text(lines)) == seq![
                "bits 16;"@,
                Seq::<char>::empty(),
            ] + lines
        }),
{
    let lines = words.map_values(|w: u16| crate::decoder::spec_line(w));
    let blank = Seq::<char>::empty();
    assert forall|k: int| 0 <= k < lines.len() implies newline_free(#[trigger] lines[k]) by {
        crate::decoder::lemma_line_shape(words[k]);
    }
    reveal_strlit("bits 16;\n\n");
    reveal_strlit("bits 16;");
    reveal_strlit("\n");
    let tail = lines_text(lines);
    lemma_split_first_line("bits 16;"@, blank + "\n"@ + tail, Seq::empty());
    assert(header_text() + tail =~= "bits 16;"@ + "\n"@ + (blank + "\n"@ + tail));
    lemma_split_first_line(blank, tail, Seq::empty());
    lemma_lines_round_trip(lines);
    assert(blank + "bits 16;"@ =~= "bits 16;"@);
    assert(blank + blank =~= blank);
    assert(seq!["bits 16;"@] + (seq![blank] + lines) =~= seq!["bits 16;"@, blank] + lines);
}

} // verus!
