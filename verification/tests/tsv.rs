use ncas_netcdf::text::{decimal_string, find, from_chars, same_text, to_chars};
use ncas_netcdf::tsv::{copy_range, cut_blocks, join_below_titles, split_at, split_lines};

fn chars(text: &str) -> Vec<char> {
    text.chars().collect()
}

fn strings(rows: &Vec<Vec<char>>) -> Vec<String> {
    rows.iter().map(|row| row.iter().collect()).collect()
}

const SAMPLES: [&str; 14] = [
    "",
    "a",
    "a\n",
    "a\nb",
    "a\r\nb\r\n",
    "a\r",
    "a\r\r\n",
    "\n",
    "\n\n",
    "\n\n\n",
    "a\n\nb\n\n\nc\n\n\n\nd",
    "\r\n\r\n",
    "x\ty\tz\n\t\t\n",
    "é\tü\n\n→",
];

#[test]
fn lines_agree_with_the_standard_library() {
    for text in SAMPLES {
        let expected: Vec<String> = text.lines().map(|line| line.to_string()).collect();
        assert_eq!(strings(&split_lines(&chars(text))), expected);
    }
}

#[test]
fn fields_agree_with_the_standard_library() {
    for text in SAMPLES {
        let expected: Vec<String> = text.split('\t').map(|field| field.to_string()).collect();
        assert_eq!(strings(&split_at(&chars(text), '\t')), expected);
    }
}

#[test]
fn blocks_agree_with_the_standard_library() {
    for text in SAMPLES {
        let expected: Vec<String> = text.split("\n\n").map(|block| block.to_string()).collect();
        assert_eq!(strings(&cut_blocks(&chars(text))), expected);
    }
}

#[test]
fn joining_skips_the_title_line() {
    for text in SAMPLES {
        let mut lines = text.lines();
        lines.next();
        let expected = lines.collect::<Vec<_>>().join("\n");
        let joined: String = join_below_titles(&split_lines(&chars(text))).iter().collect();
        assert_eq!(joined, expected);
    }
}

#[test]
fn an_empty_text_has_one_field_and_no_line() {
    assert_eq!(split_at(&Vec::new(), '\t'), vec![Vec::<char>::new()]);
    assert_eq!(split_lines(&Vec::new()), Vec::<Vec<char>>::new());
    assert_eq!(cut_blocks(&Vec::new()), vec![Vec::<char>::new()]);
}

#[test]
fn ranges_are_copied() {
    let text = chars("abcdef");
    assert_eq!(copy_range(&text, 1, 4), chars("bcd"));
    assert_eq!(copy_range(&text, 2, 2), chars(""));
    assert_eq!(copy_range(&text, 0, 6), text);
}

#[test]
fn first_occurrence_is_found() {
    assert_eq!(find(&chars("a - b - c"), &chars(" - ")), 1);
    assert_eq!(find(&chars("abc"), &chars("c")), 2);
    assert_eq!(find(&chars("abc"), &chars("abc")), 0);
    assert_eq!(find(&chars("aab"), &chars("ab")), 1);
}

#[test]
fn missing_pattern_is_found_at_the_end() {
    assert_eq!(find(&chars("abc"), &chars("d")), 3);
    assert_eq!(find(&chars("ab"), &chars("abc")), 2);
    assert_eq!(find(&chars(""), &chars("a")), 0);
}

#[test]
fn empty_pattern_is_found_at_the_start() {
    assert_eq!(find(&chars("abc"), &chars("")), 0);
    assert_eq!(find(&chars(""), &chars("")), 0);
}

#[test]
fn characters_round_trip() {
    for text in SAMPLES {
        assert_eq!(to_chars(text), chars(text));
        assert_eq!(from_chars(&chars(text)), text);
    }
}

#[test]
fn texts_are_the_same_when_their_characters_are() {
    assert!(same_text("abc", "abc"));
    assert!(same_text("", ""));
    assert!(!same_text("abc", "abd"));
    assert!(!same_text("abc", "ab"));
    assert!(!same_text("type", "Type"));
}

#[test]
fn numbers_are_written_in_decimal() {
    for n in [0u32, 1, 9, 10, 11, 99, 100, 101, 12345, 1000000, 4294967295] {
        assert_eq!(decimal_string(n), n.to_string());
    }
}
