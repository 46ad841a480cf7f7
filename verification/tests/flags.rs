use ncas_netcdf::flags::{reformat_flag_meanings, reformat_flag_values};

fn values_by_replacing(text: &str) -> String {
    text.replace("b", "").replace(" ", "").replace(",", ", ")
}

fn meanings_by_replacing(text: &str) -> String {
    text.replace("|", " ").replace("  ", " ")
}

#[test]
fn flag_values_lose_b_and_spaces() {
    assert_eq!(reformat_flag_values("0b,1b,2b,3b,4b"), "0, 1, 2, 3, 4");
    assert_eq!(reformat_flag_values("0b, 1b, 2b,3b, 4b"), "0, 1, 2, 3, 4");
}

#[test]
fn flag_values_without_a_comma_are_joined() {
    assert_eq!(reformat_flag_values("0b, 1b, 2b,3b 4b"), "0, 1, 2, 34");
}

#[test]
fn flag_values_edge_cases() {
    assert_eq!(reformat_flag_values(""), "");
    assert_eq!(reformat_flag_values("b b b"), "");
    assert_eq!(reformat_flag_values(","), ", ");
    assert_eq!(reformat_flag_values(",,"), ", , ");
    assert_eq!(reformat_flag_values("abc"), "ac");
    assert_eq!(reformat_flag_values("1B,2"), "1B, 2");
}

#[test]
fn flag_values_agree_with_three_replacements() {
    for text in ["0b, 1b, 2b,3b 4b", " , b,b ,", "0b,1b", "bb,,  ,b1", "x y z", "é,b ü"] {
        assert_eq!(reformat_flag_values(text), values_by_replacing(text));
    }
}

#[test]
fn flag_meanings_separate_with_single_spaces() {
    assert_eq!(reformat_flag_meanings("a|b| c"), "a b c");
    assert_eq!(reformat_flag_meanings("meaning_1|meaning_2| meaning_3"), "meaning_1 meaning_2 meaning_3");
}

#[test]
fn flag_meanings_halve_runs_of_spaces_once() {
    assert_eq!(reformat_flag_meanings("a  b"), "a b");
    assert_eq!(reformat_flag_meanings("a   b"), "a  b");
    assert_eq!(reformat_flag_meanings("a    b"), "a  b");
    assert_eq!(reformat_flag_meanings("a|||b"), "a  b");
    assert_eq!(reformat_flag_meanings("a||||b"), "a  b");
    assert_eq!(reformat_flag_meanings("  "), " ");
    assert_eq!(reformat_flag_meanings(" "), " ");
    assert_eq!(reformat_flag_meanings(""), "");
}

#[test]
fn flag_meanings_agree_with_two_replacements() {
    for text in ["a|b| c", "||", "a  |  b", " | | ", "x", "a|b|c|d", "é | ü"] {
        assert_eq!(reformat_flag_meanings(text), meanings_by_replacing(text));
    }
}
