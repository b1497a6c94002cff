use planet_renderer::number::{is_real, parse_index};
use planet_renderer::text::{is_whitespace, split_fields, split_words, to_chars};

const SAMPLES: [&str; 64] = [
    "", "0", "1", "-1", "+1", "1.", ".5", ".", "+.", "-.5", "1.5", "1e5", "1E5", "1e", "1e+", "1e-3",
    "1.e5", ".5E-10", "e5", "++1", "+-1", "1_000", "0x10", "1f32", "inf", "INF", "Infinity",
    "-infinity", "+NaN", "nan", "nAn", "in", "infinit", "infinityy", "na", " 1", "1 ", "1,5",
    "00012", "18446744073709551615", "18446744073709551616", "99999999999999999999999", "4294967295",
    "4294967296", "+", "-", "+0", "-0", "+12", "1/2", "12a", "a12", "١٢", "1e99999999999999999999",
    "0.000000000000000000000000000000000000000000000000001", "1e-", "1e+5", "1E+05", ".e5", "1..2",
    "1.2.3", "iNfInItY", "-nan", "+inf",
];

#[test]
fn real_literals_are_what_the_standard_parser_accepts() {
    for s in SAMPLES.iter() {
        assert_eq!(is_real(s), s.parse::<f32>().is_ok(), "token {:?}", s);
    }
}

#[test]
fn index_literals_are_what_the_standard_parser_reads() {
    for s in SAMPLES.iter() {
        assert_eq!(parse_index(s), s.parse::<usize>().ok(), "token {:?}", s);
    }
}

#[test]
fn parse_index_reads_decimal_digits() {
    assert_eq!(parse_index("42"), Some(42));
    assert_eq!(parse_index("+7"), Some(7));
    assert_eq!(parse_index("007"), Some(7));
    assert_eq!(parse_index("0"), Some(0));
    assert_eq!(parse_index(""), None);
    assert_eq!(parse_index("-7"), None);
    assert_eq!(parse_index("7 "), None);
    assert_eq!(parse_index(&usize::MAX.to_string()), Some(usize::MAX));
    assert_eq!(parse_index(&format!("{}0", usize::MAX)), None);
}

#[test]
fn whitespace_is_the_unicode_property() {
    let mut code: u32 = 0;
    while code <= 0x10ffff {
        if let Some(c) = char::from_u32(code) {
            assert_eq!(is_whitespace(c), c.is_whitespace(), "code point {:#x}", code);
        }
        code += 1;
    }
}

#[test]
fn words_are_the_runs_between_white_space() {
    let lines = [
        "",
        "   ",
        "v 1.0 2.0 3.0",
        "  f 1/2/3   4/5/6\t7/8/9  ",
        "one",
        " one",
        "one ",
        "a\u{a0}b\u{3000}c\u{2003}d",
        "# a comment line",
        "\tvt 0.5 0.25\r",
    ];
    for line in lines.iter() {
        let expected: Vec<String> = line.split_whitespace().map(|w| w.to_string()).collect();
        assert_eq!(split_words(line), expected, "line {:?}", line);
    }
    assert_eq!(split_words("  f 1/2/3   4//6 "), vec!["f".to_string(), "1/2/3".to_string(), "4//6".to_string()]);
}

#[test]
fn fields_are_the_pieces_between_separators() {
    let tokens = ["", "1", "1/2", "1/2/3", "1//3", "/", "//", "1/", "/1", "1/2/3/4", "a/b/", "é/ü"];
    for token in tokens.iter() {
        let expected: Vec<String> = token.split('/').map(|w| w.to_string()).collect();
        assert_eq!(split_fields(token, '/'), expected, "token {:?}", token);
    }
    assert_eq!(split_fields("1//3", '/'), vec!["1".to_string(), "".to_string(), "3".to_string()]);
}

#[test]
fn to_chars_keeps_every_character() {
    assert_eq!(to_chars("añ/3"), vec!['a', 'ñ', '/', '3']);
    assert_eq!(to_chars(""), Vec::<char>::new());
}

fn all_strings(alphabet: &[char], max_len: usize) -> Vec<String> {
    let mut out = vec![String::new()];
    let mut last = vec![String::new()];
    for _ in 0..max_len {
        let mut next = Vec::new();
        for s in last.iter() {
            for c in alphabet.iter() {
                let mut t = s.clone();
                t.push(*c);
                next.push(t);
            }
        }
        out.extend(next.iter().cloned());
        last = next;
    }
    out
}

#[test]
fn real_literals_agree_with_the_standard_parser_on_every_short_token() {
    let alphabet = ['0', '7', '.', 'e', 'E', '+', '-', 'i', 'n', 'f', 'a', 'N', ' ', 'x'];
    for s in all_strings(&alphabet, 4).iter() {
        assert_eq!(is_real(s), s.parse::<f32>().is_ok(), "token {:?}", s);
    }
}

#[test]
fn special_names_agree_with_the_standard_parser() {
    let alphabet = ['i', 'I', 'n', 'N', 'f', 'F', 't', 'T', 'y', 'Y', 'a', 'A'];
    for s in all_strings(&alphabet, 3).iter() {
        for sign in ["", "+", "-"] {
            let t = format!("{}{}", sign, s);
            assert_eq!(is_real(&t), t.parse::<f32>().is_ok(), "token {:?}", t);
        }
    }
    for body in ["infinity", "INFINITY", "Infinity", "iNfInItY", "infinitY", "infinite", "infinit", "infinityy", "nfinity"] {
        for sign in ["", "+", "-", "++"] {
            let t = format!("{}{}", sign, body);
            assert_eq!(is_real(&t), t.parse::<f32>().is_ok(), "token {:?}", t);
        }
    }
}

#[test]
fn index_literals_agree_with_the_standard_parser_on_every_short_token() {
    let alphabet = ['0', '1', '9', '+', '-', ' ', 'a', '.'];
    for s in all_strings(&alphabet, 5).iter() {
        assert_eq!(parse_index(s), s.parse::<usize>().ok(), "token {:?}", s);
    }
}

#[test]
fn index_literals_near_the_largest_index() {
    let max = usize::MAX as u128;
    for delta in 0..40u128 {
        let below = (max - delta).to_string();
        assert_eq!(parse_index(&below), Some((max - delta) as usize));
        let above = (max + 1 + delta).to_string();
        assert_eq!(parse_index(&above), None);
        let padded = format!("+000{}", below);
        assert_eq!(parse_index(&padded), Some((max - delta) as usize));
    }
}
