use pds_migration::input::{answer, characters, is_white_space};

#[test]
fn drops_the_end_of_the_line() {
    assert_eq!(answer("alice.example.com\n"), "alice.example.com");
    assert_eq!(answer("alice.example.com\r\n"), "alice.example.com");
}

#[test]
fn drops_white_space_on_both_sides() {
    assert_eq!(answer("  \t secret word \t\n"), "secret word");
    assert_eq!(answer("\u{a0}\u{2003}x\u{3000}\u{85}"), "x");
}

#[test]
fn keeps_white_space_within() {
    assert_eq!(answer(" a  b\tc \n"), "a  b\tc");
}

#[test]
fn keeps_a_bare_line() {
    assert_eq!(answer("did:plc:z72i7hdynmk6r22z27h6tvur"), "did:plc:z72i7hdynmk6r22z27h6tvur");
    assert_eq!(answer("pässwörd"), "pässwörd");
}

#[test]
fn makes_nothing_of_white_space_alone() {
    assert_eq!(answer(""), "");
    assert_eq!(answer("\n"), "");
    assert_eq!(answer(" \t \r\n"), "");
}

#[test]
fn agrees_with_the_trimming_of_the_standard_library() {
    for line in ["", " ", "x", " x", "x ", " x y ", "\u{1680}é\u{2028}", "\u{200b}x\u{200b}", "\u{feff}x", "a\u{0}"] {
        assert_eq!(answer(line), line.trim(), "{line:?}");
    }
}

#[test]
fn trimming_twice_is_trimming_once() {
    for line in ["  a b  ", "\n", "x\n"] {
        assert_eq!(answer(&answer(line)), answer(line));
    }
}

#[test]
fn knows_every_character_of_white_space() {
    let mut count = 0;
    for code in 0..=0x10ffffu32 {
        if let Some(c) = char::from_u32(code) {
            assert_eq!(is_white_space(c), c.is_whitespace(), "U+{code:04X}");
            if is_white_space(c) {
                count += 1;
            }
        }
    }
    assert_eq!(count, 25);
    assert!(is_white_space(' '));
    assert!(is_white_space('\u{3000}'));
    assert!(!is_white_space('\u{200b}'));
    assert!(!is_white_space('\u{180e}'));
    assert!(!is_white_space('a'));
}

#[test]
fn reads_the_characters_of_a_text() {
    assert_eq!(characters(""), Vec::<char>::new());
    assert_eq!(characters("did:\u{e9}"), vec!['d', 'i', 'd', ':', '\u{e9}']);
}
