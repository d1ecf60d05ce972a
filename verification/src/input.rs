//! Interpretation of what a user types into the command line client.

use vstd::prelude::*;

verus! {

/// The byte that ends a line.
pub const NEWLINE: u8 = 0x0A;

/// Whether a character is white space: whether it has the Unicode property White_Space.
pub open spec fn white_space(c: char) -> bool {
    let code = c as u32;
    ||| 0x09 <= code <= 0x0D
    ||| code == 0x20
    ||| code == 0x85
    ||| code == 0xA0
    ||| code == 0x1680
    ||| 0x2000 <= code <= 0x200A
    ||| 0x2028 <= code <= 0x2029
    ||| code == 0x202F
    ||| code == 0x205F
    ||| code == 0x3000
}

/// `char::is_whitespace` tells whether a character has the Unicode property White_Space. The contract
/// claims that these are the characters that [`white_space`] lists.
pub assume_specification[ char::is_whitespace ](c: char) -> (result: bool)
    ensures
        result == white_space(c),
;

/// Calls `String::from_utf8`, which turns bytes into text if they are valid UTF-8. The contract
/// claims that it does so exactly for valid UTF-8 and that the text is what the bytes encode.
#[verifier::external_body]
fn text_from_utf8(bytes: Vec<u8>) -> (text: Option<String>)
    ensures
        text is Some == vstd::utf8::valid_utf8(bytes@),
        text matches Some(t) ==> t@ == vstd::utf8::decode_utf8(bytes@),
{
    String::from_utf8(bytes).ok()
}

/// The value of a hexadecimal digit.
pub open spec fn hex_digit(c: char) -> Option<u8> {
    if '0' <= c <= '9' {
        Some((c as u32 - '0' as u32) as u8)
    } else if 'a' <= c <= 'f' {
        Some((c as u32 - 'a' as u32 + 10) as u8)
    } else if 'A' <= c <= 'F' {
        Some((c as u32 - 'A' as u32 + 10) as u8)
    } else {
        None
    }
}

/// The value of a hexadecimal number with one or two digits.
pub open spec fn hex_number(digits: Seq<char>) -> Option<u8> {
    if digits.len() == 1 {
        hex_digit(digits[0])
    } else if digits.len() == 2 {
        match (hex_digit(digits[0]), hex_digit(digits[1])) {
            (Some(high), Some(low)) => Some((16 * high + low) as u8),
            _ => None,
        }
    } else {
        None
    }
}

/// The values of the hexadecimal numbers that characters make up when they are taken two at a time.
/// Pairs that are not a number are left out.
pub open spec fn hex_numbers(chars: Seq<char>) -> Seq<u8>
    decreases chars.len(),
{
    if chars.len() == 0 {
        Seq::empty()
    } else {
        let width: int = if chars.len() == 1 {
            1
        } else {
            2
        };
        let rest = hex_numbers(chars.skip(width));
        match hex_number(chars.take(width)) {
            Some(value) => seq![value] + rest,
            None => rest,
        }
    }
}

/// The characters that are not white space.
pub open spec fn visible(text: Seq<char>) -> Seq<char> {
    text.filter(|c: char| !white_space(c))
}

/// Returns the value of a hexadecimal digit.
fn parse_digit(c: char) -> (value: Option<u8>)
    ensures
        value == hex_digit(c),
        value matches Some(v) ==> v < 16,
{
    if '0' <= c && c <= '9' {
        Some((c as u32 - '0' as u32) as u8)
    } else if 'a' <= c && c <= 'f' {
        Some((c as u32 - 'a' as u32 + 10) as u8)
    } else if 'A' <= c && c <= 'F' {
        Some((c as u32 - 'A' as u32 + 10) as u8)
    } else {
        None
    }
}

/// Parses characters that are not white space into a byte array; see [`parse_input`].
pub fn parse_hex(chars: &[char]) -> (bytes: Vec<u8>)
    ensures
        bytes@ == hex_numbers(chars@),
{
    let mut bytes: Vec<u8> = Vec::new();
    let mut i: usize = 0;
    assert(chars@.skip(0) =~= chars@);
    while i < chars.len()
        invariant
            i <= chars@.len(),
            bytes@ + hex_numbers(chars@.skip(i as int)) == hex_numbers(chars@),
        decreases chars@.len() - i,
    {
        let ghost before = bytes@;
        let ghost rest = chars@.skip(i as int);
        if chars.len() - i == 1 {
            assert(rest.take(1) =~= seq![chars@[i as int]]);
            assert(rest.skip(1) =~= chars@.skip(i + 1));
            if let Some(value) = parse_digit(chars[i]) {
                bytes.push(value);
                assert(bytes@ + hex_numbers(rest.skip(1)) =~= before + hex_numbers(rest));
            }
            i = i + 1;
        } else {
            assert(rest.take(2) =~= seq![chars@[i as int], chars@[i + 1]]);
            assert(rest.skip(2) =~= chars@.skip(i + 2));
            if let Some(high) = parse_digit(chars[i]) {
                if let Some(low) = parse_digit(chars[i + 1]) {
                    bytes.push(16 * high + low);
                    assert(bytes@ + hex_numbers(rest.skip(2)) =~= before + hex_numbers(rest));
                }
            }
            i = i + 2;
        }
    }
    assert(chars@.skip(i as int) =~= Seq::<char>::empty());
    assert(bytes@ + Seq::<u8>::empty() =~= bytes@);
    bytes
}

/// Parses a user input string into a byte array, assuming it is a sequence of two digit hexadecimal
/// numbers. Spaces and invalid parts of the input are discarded.
pub fn parse_input(s: &str) -> (bytes: Vec<u8>)
    ensures
        bytes@ == hex_numbers(visible(s@)),
{
    let mut chars: Vec<char> = Vec::new();
    assert(s@.take(0).filter(|c: char| !white_space(c)) =~= Seq::<char>::empty()) by {
        reveal(Seq::filter);
    }
    for c in iter: s.chars()
        invariant
            iter.seq() == s@,
            chars@ == visible(s@.take(iter.index())),
    {
        assert(s@.take(iter.index() + 1).drop_last() =~= s@.take(iter.index()));
        assert(s@.take(iter.index() + 1).last() == c);
        reveal(Seq::filter);
        if !c.is_whitespace() {
            chars.push(c);
        }
    }
    assert(s@.take(s@.len() as int) =~= s@);
    parse_hex(chars.as_slice())
}

/// Returns the bytes that a line of input stands for. A line that is not text stands for no bytes.
pub fn parse_line(line: Vec<u8>) -> (bytes: Vec<u8>)
    ensures
        bytes@ == (if vstd::utf8::valid_utf8(line@) {
            hex_numbers(visible(vstd::utf8::decode_utf8(line@)))
        } else {
            Seq::empty()
        }),
{
    match text_from_utf8(line) {
        Some(text) => parse_input(text.as_str()),
        None => Vec::new(),
    }
}

/// Bytes cut into lines that keep their newline, and the rest that is not a whole line.
pub open spec fn split_lines(bytes: Seq<u8>) -> (Seq<Seq<u8>>, Seq<u8>)
    decreases bytes.len(),
{
    if bytes.len() == 0 {
        (Seq::empty(), Seq::empty())
    } else {
        let (lines, rest) = split_lines(bytes.drop_last());
        if bytes.last() == NEWLINE {
            (lines.push(rest.push(NEWLINE)), Seq::empty())
        } else {
            (lines, rest.push(bytes.last()))
        }
    }
}

/// The lines in a vector, as sequences.
pub open spec fn contents(lines: Seq<Vec<u8>>) -> Seq<Seq<u8>> {
    lines.map_values(|line: Vec<u8>| line@)
}

/// Input that was read but does not make up a whole line yet.
pub struct LineBuffer {
    /// The incomplete line.
    input: Vec<u8>,
}

impl View for LineBuffer {
    type V = Seq<u8>;

    closed spec fn view(&self) -> Seq<u8> {
        self.input@
    }
}

impl LineBuffer {
    /// Whole lines are not stored.
    pub open spec fn wf(self) -> bool {
        !self@.contains(NEWLINE)
    }

    /// Returns a buffer that holds no input.
    pub fn new() -> (buffer: Self)
        ensures
            buffer.wf(),
            buffer@ == Seq::<u8>::empty(),
    {
        LineBuffer { input: Vec::new() }
    }

    /// Adds the most recent input to any previously stored input, and returns all
    /// newline-delimited inputs, each with its newline. Incomplete input is carried over.
    pub fn feed(&mut self, bytes: &[u8]) -> (lines: Vec<Vec<u8>>)
        requires
            old(self).wf(),
        ensures
            final(self).wf(),
            (contents(lines@), final(self)@) == split_lines(old(self)@ + bytes@),
    {
        let mut lines: Vec<Vec<u8>> = Vec::new();
        let mut i: usize = 0;
        proof {
            lemma_no_newline(old(self)@);
            assert(old(self)@ + bytes@.take(0) =~= old(self)@);
            assert(contents(lines@) =~= Seq::<Seq<u8>>::empty());
        }
        while i < bytes.len()
            invariant
                i <= bytes@.len(),
                (contents(lines@), self@) == split_lines(old(self)@ + bytes@.take(i as int)),
                self.wf(),
            decreases bytes@.len() - i,
        {
            let byte = bytes[i];
            let ghost before = old(self)@ + bytes@.take(i as int);
            let ghost after = old(self)@ + bytes@.take(i + 1);
            let ghost lines_before = lines@;
            let ghost rest = self@;
            assert(after.drop_last() =~= before);
            assert(after.last() == byte);
            self.input.push(byte);
            if byte == NEWLINE {
                let mut line: Vec<u8> = Vec::new();
                line.append(&mut self.input);
                assert(line@ =~= rest.push(NEWLINE));
                lines.push(line);
                assert(contents(lines@) =~= contents(lines_before).push(line@));
            } else {
                assert forall|k: int| 0 <= k < self@.len() implies self@[k] != NEWLINE by {
                    if k < rest.len() {
                        assert(rest.contains(rest[k]));
                    }
                }
            }
            i = i + 1;
        }
        assert(bytes@.take(i as int) =~= bytes@);
        lines
    }
}

/// Input without a newline is not a whole line.
proof fn lemma_no_newline(bytes: Seq<u8>)
    requires
        !bytes.contains(NEWLINE),
    ensures
        split_lines(bytes) == (Seq::<Seq<u8>>::empty(), bytes),
    decreases bytes.len(),
{
    if bytes.len() > 0 {
        assert(bytes.contains(bytes.last()));
        assert forall|k: int| 0 <= k < bytes.drop_last().len() implies bytes.drop_last()[k]
            != NEWLINE by {
            assert(bytes.contains(bytes[k]));
        }
        lemma_no_newline(bytes.drop_last());
        assert(bytes.drop_last().push(bytes.last()) =~= bytes);
    }
}

/// Law: no input is lost, added or reordered by cutting it into lines, each line ends with its only
/// newline, and what is carried over holds none.
pub proof fn law_lines_make_up_the_input(bytes: Seq<u8>)
    ensures
        split_lines(bytes).0.flatten() + split_lines(bytes).1 == bytes,
        forall|i: int|
            0 <= i < split_lines(bytes).0.len() ==> {
                let line = #[trigger] split_lines(bytes).0[i];
                line.len() > 0 && line.last() == NEWLINE && !line.drop_last().contains(NEWLINE)
            },
        !split_lines(bytes).1.contains(NEWLINE),
    decreases bytes.len(),
{
    let (lines, rest) = split_lines(bytes);
    if bytes.len() == 0 {
        assert(lines.flatten() =~= Seq::<u8>::empty());
    } else {
        law_lines_make_up_the_input(bytes.drop_last());
        let (lines_before, rest_before) = split_lines(bytes.drop_last());
        assert(bytes =~= bytes.drop_last().push(bytes.last()));
        if bytes.last() == NEWLINE {
            let line = rest_before.push(NEWLINE);
            assert(line.drop_last() =~= rest_before);
            assert(lines == lines_before.push(line));
            lines_before.lemma_flatten_push(line);
            assert(lines.flatten() + rest =~= bytes);
            assert forall|i: int| 0 <= i < lines.len() implies {
                let line = #[trigger] lines[i];
                line.len() > 0 && line.last() == NEWLINE && !line.drop_last().contains(NEWLINE)
            } by {
                if i < lines_before.len() {
                    assert(lines[i] == split_lines(bytes.drop_last()).0[i]);
                }
            }
        } else {
            assert(lines.flatten() + rest =~= bytes);
            assert forall|k: int| 0 <= k < rest.len() implies rest[k] != NEWLINE by {
                if k < rest_before.len() {
                    assert(rest_before.contains(rest_before[k]));
                }
            }
        }
    }
}

/// Law: how the input is cut into pieces when it is read makes no difference. The lines of a first
/// piece, and then the lines of what it carries over followed by a second piece, are the lines of
/// the two pieces together.
pub proof fn law_reading_in_pieces(first: Seq<u8>, second: Seq<u8>)
    ensures
        split_lines(first + second) == ({
            let (lines, rest) = split_lines(first);
            let (more_lines, last_rest) = split_lines(rest + second);
            (lines + more_lines, last_rest)
        }),
    decreases second.len(),
{
    let (lines, rest) = split_lines(first);
    if second.len() == 0 {
        law_lines_make_up_the_input(first);
        lemma_no_newline(rest);
        assert(first + second =~= first);
        assert(rest + second =~= rest);
        assert(lines + Seq::<Seq<u8>>::empty() =~= lines);
    } else {
        law_reading_in_pieces(first, second.drop_last());
        assert((first + second).drop_last() =~= first + second.drop_last());
        assert((rest + second).drop_last() =~= rest + second.drop_last());
        let (more_lines, last_rest) = split_lines(rest + second.drop_last());
        let line = last_rest.push(NEWLINE);
        assert((lines + more_lines).push(line) =~= lines + more_lines.push(line));
    }
}

/// Whether a text consists of the two digit hexadecimal numbers of the given bytes, with letters in
/// either case.
pub open spec fn spells(text: Seq<char>, bytes: Seq<u8>) -> bool {
    &&& text.len() == 2 * bytes.len()
    &&& forall|i: int|
        0 <= i < bytes.len() ==> {
            &&& hex_digit(text[2 * i]) == Some((#[trigger] bytes[i] / 16) as u8)
            &&& hex_digit(text[2 * i + 1]) == Some((bytes[i] % 16) as u8)
        }
}

/// What spells bytes is read as these bytes.
proof fn lemma_spelled_bytes(text: Seq<char>, bytes: Seq<u8>)
    requires
        spells(text, bytes),
    ensures
        hex_numbers(text) == bytes,
    decreases bytes.len(),
{
    if bytes.len() > 0 {
        let rest = bytes.drop_first();
        assert forall|i: int| 0 <= i < rest.len() implies {
            &&& hex_digit(text.skip(2)[2 * i]) == Some((#[trigger] rest[i] / 16) as u8)
            &&& hex_digit(text.skip(2)[2 * i + 1]) == Some((rest[i] % 16) as u8)
        } by {
            assert(rest[i] == bytes[i + 1]);
            assert(text.skip(2)[2 * i] == text[2 * (i + 1)]);
            assert(text.skip(2)[2 * i + 1] == text[2 * (i + 1) + 1]);
        }
        lemma_spelled_bytes(text.skip(2), rest);
        assert(hex_digit(text[0]) == Some((bytes[0] / 16) as u8));
        assert(text.take(2) =~= seq![text[0], text[1]]);
        assert(bytes =~= seq![bytes[0]] + rest);
    }
}

/// Law: bytes that are written as two digit hexadecimal numbers are read back as they were, whatever
/// the case of the letters and whatever white space there is.
pub proof fn law_hex_text_is_read_back(text: Seq<char>, bytes: Seq<u8>)
    requires
        spells(visible(text), bytes),
    ensures
        hex_numbers(visible(text)) == bytes,
{
    lemma_spelled_bytes(visible(text), bytes);
}

/// Law: a pair of characters that are not both hexadecimal digits is discarded whole, and the pairs
/// around it are read as if it were not there.
pub proof fn law_invalid_pairs_are_discarded(
    before: Seq<char>,
    first: char,
    second: char,
    after: Seq<char>,
)
    requires
        before.len() % 2 == 0,
        hex_digit(first) is None || hex_digit(second) is None,
    ensures
        hex_numbers(before + seq![first, second] + after) == hex_numbers(before + after),
    decreases before.len(),
{
    let text = before + seq![first, second] + after;
    if before.len() == 0 {
        assert(text.take(2) =~= seq![first, second]);
        assert(text.skip(2) =~= before + after);
    } else {
        let rest = before.skip(2);
        law_invalid_pairs_are_discarded(rest, first, second, after);
        assert(text.take(2) =~= before.take(2));
        assert((before + after).take(2) =~= before.take(2));
        assert(text.skip(2) =~= rest + seq![first, second] + after);
        assert((before + after).skip(2) =~= rest + after);
    }
}

/// Law: white space in the input makes no difference.
pub proof fn law_white_space_is_discarded(before: Seq<char>, space: char, after: Seq<char>)
    requires
        white_space(space),
    ensures
        hex_numbers(visible(before + seq![space] + after)) == hex_numbers(visible(before + after)),
{
    let pred = |c: char| !white_space(c);
    Seq::filter_distributes_over_add(before + seq![space], after, pred);
    Seq::filter_distributes_over_add(before, seq![space], pred);
    Seq::filter_distributes_over_add(before, after, pred);
    assert(seq![space].filter(pred) =~= Seq::<char>::empty()) by {
        reveal_with_fuel(Seq::filter, 2);
        assert(seq![space].drop_last() =~= Seq::<char>::empty());
    }
    assert(before.filter(pred) + Seq::<char>::empty() =~= before.filter(pred));
}

/// Law: the hexadecimal digits are the decimal ones, which stand for 0 to 9, and the letters from A
/// to F in either case, which stand for 10 to 15. No other character is one.
pub proof fn law_digits_have_their_values(c: char, value: u8)
    ensures
        hex_digit(c) == Some(value) <==> {
            ||| value < 10 && c as u32 == 0x30 + value
            ||| 10 <= value < 16 && c as u32 == 0x41 + (value - 10)
            ||| 10 <= value < 16 && c as u32 == 0x61 + (value - 10)
        },
        hex_digit(c) is None <==> {
            &&& !(0x30 <= c as u32 <= 0x39)
            &&& !(0x41 <= c as u32 <= 0x46)
            &&& !(0x61 <= c as u32 <= 0x66)
        },
{
}

/// Law: two digits are read as one number, of which the first digit is the high one. A digit that is
/// left over is read as a number by itself. Everything else that is this short is discarded.
pub proof fn law_pairs_are_numbers(first: char, second: char)
    ensures
        hex_numbers(Seq::empty()) == Seq::<u8>::empty(),
        hex_numbers(seq![first]) == (match hex_digit(first) {
            Some(value) => seq![value],
            None => Seq::empty(),
        }),
        ({
            let read = hex_numbers(seq![first, second]);
            match (hex_digit(first), hex_digit(second)) {
                (Some(high), Some(low)) => read.len() == 1 && read[0] == 16 * high + low,
                _ => read.len() == 0,
            }
        }),
{
    let one = seq![first];
    let two = seq![first, second];
    assert(one.take(1) =~= one);
    assert(one.skip(1) =~= Seq::<char>::empty());
    assert(two.take(2) =~= two);
    assert(two.skip(2) =~= Seq::<char>::empty());
    assert(hex_numbers(one.skip(1)) =~= Seq::<u8>::empty());
    assert(hex_numbers(two.skip(2)) =~= Seq::<u8>::empty());
}

/// Law: pairs are read one after the other, and what a pair stands for does not depend on what comes
/// before or after it: reading whole pairs and then more text is reading one after the other.
pub proof fn law_pairs_are_read_in_order(pairs: Seq<char>, rest: Seq<char>)
    requires
        pairs.len() % 2 == 0,
    ensures
        hex_numbers(pairs + rest) == hex_numbers(pairs) + hex_numbers(rest),
    decreases pairs.len(),
{
    let text = pairs + rest;
    if pairs.len() == 0 {
        assert(text =~= rest);
        assert(hex_numbers(pairs) + hex_numbers(rest) =~= hex_numbers(rest));
    } else {
        law_pairs_are_read_in_order(pairs.skip(2), rest);
        assert(text.take(2) =~= pairs.take(2));
        assert(text.skip(2) =~= pairs.skip(2) + rest);
        assert(hex_numbers(text) =~= hex_numbers(pairs) + hex_numbers(rest));
    }
}

/// Law: of the characters of a text, the white space is passed over and every other one is taken up,
/// in order: the taken up characters are those of the text without its white space.
pub proof fn law_only_white_space_is_passed_over(text: Seq<char>, c: char)
    ensures
        visible(Seq::empty()) == Seq::<char>::empty(),
        visible(text.push(c)) == (if white_space(c) {
            visible(text)
        } else {
            visible(text).push(c)
        }),
        visible(text) == text.filter(|c: char| !white_space(c)),
{
    reveal(Seq::filter);
    assert(text.push(c).drop_last() =~= text);
}

/// Law: if the text without its white space consists of the two digit hexadecimal numbers of some
/// bytes, with letters in either case, these bytes are what the text is read as.
pub proof fn law_typed_bytes_are_read(text: Seq<char>, typed: Seq<char>, bytes: Seq<u8>)
    requires
        typed == text.filter(|c: char| !white_space(c)),
        typed.len() == 2 * bytes.len(),
        forall|i: int|
            0 <= i < bytes.len() ==> {
                &&& hex_digit(typed[2 * i]) == Some((#[trigger] bytes[i] / 16) as u8)
                &&& hex_digit(typed[2 * i + 1]) == Some((bytes[i] % 16) as u8)
            },
    ensures
        hex_numbers(visible(text)) == bytes,
{
    lemma_spelled_bytes(typed, bytes);
}

/// Law: the bytes of a text that is typed on are those of what was there and then those of what is
/// added, if what was there consists of whole pairs.
pub proof fn law_typing_on_adds_bytes(text: Seq<char>, more: Seq<char>)
    requires
        visible(text).len() % 2 == 0,
    ensures
        hex_numbers(visible(text + more)) == hex_numbers(visible(text)) + hex_numbers(visible(more)),
{
    Seq::filter_distributes_over_add(text, more, |c: char| !white_space(c));
    law_pairs_are_read_in_order(visible(text), visible(more));
}

/// Law: the contents of lines are the bytes of each line, in order.
pub proof fn law_contents_are_the_lines(lines: Seq<Vec<u8>>)
    ensures
        contents(lines).len() == lines.len(),
        forall|i: int| 0 <= i < lines.len() ==> (#[trigger] contents(lines)[i]) == lines[i]@,
{
}

} // verus!
