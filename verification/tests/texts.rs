use ferrink::bytes::{read_i32 as read_bytes_i32, read_i64, read_u16, read_u32};
use ferrink::number::{read_i32, read_unsigned};
use ferrink::pattern::{replace, split_at_every, split_once_at};
use ferrink::probe::Endianness;
use ferrink::sorting::sort_texts;
use ferrink::string_map::StringMap;
use ferrink::text::{
    control_char, find, from_chars, lower_char, push_decimal, push_signed_decimal,
    punctuation_char, split_at_char, split_lines, split_once, split_words, test_begins, test_ends,
    test_occurs, to_chars, trim, trim_end, trim_start, upper_char, whitespace_char, CharSet,
};
use ferrink::wording::byte_len;

fn texts(parts: &[&[char]]) -> Vec<String> {
    parts.iter().map(|part| from_chars(part)).collect()
}

#[test]
fn character_classes_agree_with_the_standard_library() {
    for c in '\0'..=char::MAX {
        assert_eq!(control_char(c), c.is_control(), "{c:?}");
        assert_eq!(whitespace_char(c), c.is_whitespace(), "{c:?}");
        assert_eq!(punctuation_char(c), c.is_ascii_punctuation(), "{c:?}");
        assert_eq!(lower_char(c), c.to_ascii_lowercase(), "{c:?}");
        assert_eq!(upper_char(c), c.to_ascii_uppercase(), "{c:?}");
        assert_eq!(CharSet::Digit.test(c), c.is_ascii_digit(), "{c:?}");
        assert_eq!(CharSet::Alphanumeric.test(c), c.is_ascii_alphanumeric(), "{c:?}");
        assert_eq!(
            CharSet::HexOrSpace.test(c),
            c.is_ascii_hexdigit() || c.is_ascii_whitespace(),
            "{c:?}"
        );
    }
}

#[test]
fn splitting_agrees_with_the_standard_library() {
    for text in [
        "",
        " ",
        "one",
        " one\ttwo\u{2003}three ",
        "a:b::c",
        ":a:",
        "first\nsecond\r\nthird",
        "ends\n",
        "\n\nblank",
        "\r\n",
        "lone\rreturn",
        "ünïcode\u{85}text",
    ] {
        let chars = to_chars(text);
        let words: Vec<&str> = text.split_whitespace().collect();
        assert_eq!(texts(&split_words(&chars)), words);
        let lines: Vec<&str> = text.lines().collect();
        assert_eq!(texts(&split_lines(&chars)), lines);
        let parts: Vec<&str> = text.split(':').collect();
        assert_eq!(texts(&split_at_char(&chars, ':')), parts);
        let pieces: Vec<&str> = text.split("\n\n").collect();
        assert_eq!(texts(&split_at_every(&chars, "\n\n")), pieces);
        assert_eq!(
            split_once(&chars, ':').map(|(a, b)| (from_chars(a), from_chars(b))),
            text.split_once(':').map(|(a, b)| (a.to_owned(), b.to_owned()))
        );
        assert_eq!(
            split_once_at(&chars, "on").map(|(a, b)| (from_chars(a), from_chars(b))),
            text.split_once("on").map(|(a, b)| (a.to_owned(), b.to_owned()))
        );
        assert_eq!(from_chars(trim(&chars, CharSet::Whitespace)), text.trim());
        assert_eq!(from_chars(trim_start(&chars, CharSet::Whitespace)), text.trim_start());
        assert_eq!(from_chars(trim_end(&chars, CharSet::Whitespace)), text.trim_end());
        assert_eq!(byte_len(text), text.len());
    }
}

#[test]
fn searching_agrees_with_the_standard_library() {
    for (text, needle) in [
        ("abcabc", "ca"),
        ("abcabc", "abc"),
        ("aab", "ab"),
        ("", "a"),
        ("a", ""),
        ("short", "shorter"),
    ] {
        let chars = to_chars(text);
        assert_eq!(find(&chars, &to_chars(needle)), text.find(needle));
        assert_eq!(test_occurs(&chars, needle), text.contains(needle));
        assert_eq!(test_begins(&chars, needle), text.starts_with(needle));
        assert_eq!(test_ends(&chars, needle), text.ends_with(needle));
    }
    assert_eq!(from_chars(&replace(&to_chars("a\\040b\\040\\04"), "\\040", ' ')), "a b \\04");
}

#[test]
fn numbers_are_written_and_read_back() {
    for n in [0, 1, 9, 10, 99, 100, 65_535, u64::from(u32::MAX), u64::MAX] {
        let mut text = String::new();
        push_decimal(&mut text, n);
        assert_eq!(text, n.to_string());
        assert_eq!(read_unsigned(&to_chars(&text), 10, u64::MAX), Some(n));
    }
    for n in [i64::from(i32::MIN), -1, 0, 7, i64::from(i32::MAX)] {
        let mut text = String::new();
        push_signed_decimal(&mut text, n);
        assert_eq!(text, n.to_string());
        assert_eq!(read_i32(&to_chars(&text)).map(i64::from), Some(n));
    }
    for text in ["", "+", "-", "+7", "-7", "007", "7 ", "4294967296", "ff", "-2147483649"] {
        assert_eq!(read_i32(&to_chars(text)), text.parse::<i32>().ok(), "{text}");
        assert_eq!(
            read_unsigned(&to_chars(text), 10, u64::from(u32::MAX)),
            text.parse::<u32>().ok().map(u64::from),
            "{text}"
        );
        assert_eq!(
            read_unsigned(&to_chars(text), 16, u64::from(u16::MAX)),
            u16::from_str_radix(text, 16).ok().map(u64::from),
            "{text}"
        );
    }
}

#[test]
fn bytes_are_read_in_either_order() {
    let bytes = [0x01, 0x02, 0x03, 0x04, 0x05, 0x06, 0x07, 0xf8, 0xff];
    assert_eq!(read_u16(Endianness::Little, &bytes, 1), 0x0302);
    assert_eq!(read_u16(Endianness::Big, &bytes, 1), 0x0203);
    assert_eq!(read_u32(Endianness::Little, &bytes, 0), 0x0403_0201);
    assert_eq!(read_u32(Endianness::Big, &bytes, 0), 0x0102_0304);
    assert_eq!(
        read_bytes_i32(Endianness::Little, &bytes, 5),
        i32::from_le_bytes([0x06, 0x07, 0xf8, 0xff])
    );
    assert_eq!(
        read_bytes_i32(Endianness::Big, &bytes, 5),
        i32::from_be_bytes([0x06, 0x07, 0xf8, 0xff])
    );
    assert_eq!(
        read_i64(Endianness::Little, &bytes, 1),
        i64::from_le_bytes([0x02, 0x03, 0x04, 0x05, 0x06, 0x07, 0xf8, 0xff])
    );
    assert_eq!(
        read_i64(Endianness::Big, &bytes, 1),
        i64::from_be_bytes([0x02, 0x03, 0x04, 0x05, 0x06, 0x07, 0xf8, 0xff])
    );
}

#[test]
fn sorting_keeps_every_text_in_byte_order() {
    let list: Vec<String> = ["beta", "", "alpha", "é", "Alpha", "beta", "z", "alphabet"]
        .iter()
        .map(|text| (*text).to_owned())
        .collect();
    let mut expected = list.clone();
    expected.sort();
    assert_eq!(sort_texts(&list), expected);
}

#[test]
fn maps_keep_one_value_for_each_key_in_key_order() {
    let mut map: StringMap<u8> = StringMap::new();
    map.insert("rel".to_owned(), 1);
    map.insert("abs".to_owned(), 2);
    map.insert("key".to_owned(), 3);
    map.insert("abs".to_owned(), 4);
    assert_eq!(map.get("abs"), Some(&4));
    assert_eq!(map.get("ev"), None);
    assert!(map.contains_key("key"));
    assert_eq!(map.remove("key"), Some(3));
    assert_eq!(map.remove("key"), None);
    assert!(!map.contains_key("key"));
    let copy = map.clone();
    assert_eq!(copy, map);
    assert_eq!(
        map.into_entries(),
        vec![("abs".to_owned(), 4), ("rel".to_owned(), 1)]
    );
}
