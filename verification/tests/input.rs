//! Tests of the interpretation of input.

use ryder_bridge::input::{parse_hex, parse_input, parse_line, LineBuffer};

#[test]
fn test_parse_input() {
    assert_eq!(Vec::<u8>::new(), parse_input(""));
    assert_eq!(vec![1], parse_input("1"));
    assert_eq!(vec![1], parse_input("01"));
    assert_eq!(vec![1, 2, 3], parse_input("010203"));
    assert_eq!(vec![1, 2, 3], parse_input("01 02 03"));
    assert_eq!(vec![1, 3], parse_input("01 xx 03"));
}

#[test]
fn any_white_space_is_discarded() {
    assert_eq!(vec![0xAB, 0xCD], parse_input(" a\tB\u{a0}\u{3000}c\r\nD\n"));
    assert_eq!(vec![0xFF], parse_input("fF"));
}

#[test]
fn numbers_are_as_in_the_standard_library() {
    let digits = ['0', '9', 'a', 'f', 'A', 'F', 'g', 'G', '/', ':', '@', '`', '-', '\u{e9}'];
    for first in digits {
        let text = first.to_string();
        let expected: Vec<u8> = u8::from_str_radix(&text, 16).into_iter().collect();
        assert_eq!(expected, parse_hex(&[first]));
        for second in digits {
            let text = format!("{}{}", first, second);
            let expected: Vec<u8> = u8::from_str_radix(&text, 16).into_iter().collect();
            assert_eq!(expected, parse_hex(&[first, second]));
        }
    }
}

#[test]
fn signs_are_not_digits() {
    assert!(parse_input("+1").is_empty());
    assert!(parse_input("+").is_empty());
    assert!(parse_input("-1").is_empty());
    assert!(parse_hex(&['+', 'f']).is_empty());
    assert_eq!(vec![1, 2], parse_input("01 +1 02"));
    assert_eq!(vec![0xA], parse_input("+1a"));
}

#[test]
fn all_white_space_is_told_from_other_characters() {
    for c in '\0'..=char::MAX {
        let white_space = matches!(
            c,
            '\u{9}'..='\u{d}'
                | '\u{20}'
                | '\u{85}'
                | '\u{a0}'
                | '\u{1680}'
                | '\u{2000}'..='\u{200a}'
                | '\u{2028}'..='\u{2029}'
                | '\u{202f}'
                | '\u{205f}'
                | '\u{3000}'
        );
        let text: String = ['1', c, '2'].iter().collect();
        assert_eq!(white_space, parse_input(&text) == vec![0x12]);
    }
    for c in ['\u{8}', '\u{e}', '\u{180e}', '\u{200b}', '\u{2060}', '\u{feff}'] {
        assert!(parse_input(&format!("{}1", c)).is_empty());
    }
}

#[test]
fn bytes_are_read_back() {
    let bytes: Vec<u8> = (0..=255).collect();
    let text: String = bytes.iter().map(|b| format!("{:02x}", b)).collect();
    assert_eq!(bytes, parse_input(&text));
    assert_eq!(bytes, parse_input(&text.to_uppercase()));
}

#[test]
fn lines_that_are_not_text_are_empty() {
    assert_eq!(vec![0x0A, 0xB0], parse_line(b"0a b0\n".to_vec()));
    assert!(parse_line(vec![0x30, 0x31, 0xFF]).is_empty());
}

#[test]
fn input_is_cut_into_lines() {
    let mut buffer = LineBuffer::new();
    assert_eq!(vec![b"01\n".to_vec()], buffer.feed(b"01\n"));
    assert!(buffer.feed(b"0").is_empty());
    assert_eq!(
        vec![b"02\n".to_vec(), b"\n".to_vec(), b"0304\n".to_vec()],
        buffer.feed(b"2\n\n0304\n05")
    );
    assert_eq!(vec![b"05\n".to_vec()], buffer.feed(b"\n"));
    assert!(buffer.feed(b"").is_empty());
}

#[test]
fn pieces_make_no_difference() {
    let input = b"0102\n\n03\n0405";
    let whole = LineBuffer::new().feed(input);
    for cut in 0..input.len() {
        let mut buffer = LineBuffer::new();
        let mut lines = buffer.feed(&input[..cut]);
        lines.extend(buffer.feed(&input[cut..]));
        assert_eq!(whole, lines);
    }
}
