use sbf_engine::text::{chars_equal, chars_of, parse_usize_list_exec, parse_usize_token, split_spaces_exec};

fn chars(s: &str) -> Vec<char> {
    s.chars().collect()
}

#[test]
fn parses_space_separated_indices() {
    assert_eq!(parse_usize_list_exec("0 1 2 3 10 42"), Some(vec![0, 1, 2, 3, 10, 42]));
}

#[test]
fn parses_single_index() {
    assert_eq!(parse_usize_list_exec("7"), Some(vec![7]));
}

#[test]
fn empty_list_is_rejected() {
    assert_eq!(parse_usize_list_exec(""), None);
}

#[test]
fn double_space_gives_empty_token_and_is_rejected() {
    assert_eq!(parse_usize_list_exec("1  2"), None);
}

#[test]
fn trailing_space_is_rejected() {
    assert_eq!(parse_usize_list_exec("1 2 "), None);
}

#[test]
fn plus_sign_is_accepted_minus_is_not() {
    assert_eq!(parse_usize_list_exec("+5 6"), Some(vec![5, 6]));
    assert_eq!(parse_usize_list_exec("-5"), None);
    assert_eq!(parse_usize_list_exec("+"), None);
    assert_eq!(parse_usize_list_exec("++5"), None);
}

#[test]
fn agrees_with_std_parse() {
    for s in ["0", "007", "+12", "12a", "1.5", "", "+", "-0", "99999999999999999999", "٣"] {
        let expected: Option<usize> = s.parse().ok();
        assert_eq!(parse_usize_token(&chars(s)), expected, "token {:?}", s);
    }
}

#[test]
fn largest_usize_parses_and_one_more_does_not() {
    let max = usize::MAX.to_string();
    assert_eq!(parse_usize_token(&chars(&max)), Some(usize::MAX));
    let over = format!("{}0", usize::MAX);
    assert_eq!(parse_usize_token(&chars(&over)), None);
}

#[test]
fn splits_like_str_split() {
    for s in ["", "a", "a b", " a", "a  b ", "  "] {
        let expected: Vec<Vec<char>> = s.split(' ').map(|t| t.chars().collect()).collect();
        assert_eq!(split_spaces_exec(&chars(s)), expected, "input {:?}", s);
    }
}

#[test]
fn chars_of_and_equality() {
    assert_eq!(chars_of("héllo"), vec!['h', 'é', 'l', 'l', 'o']);
    assert!(chars_equal(&chars("abc"), &chars("abc")));
    assert!(!chars_equal(&chars("abc"), &chars("abd")));
    assert!(!chars_equal(&chars("abc"), &chars("ab")));
}

#[test]
fn split_tokens_rejoin_to_input() {
    for s in ["", "a", "ab cd", " x ", "1  2", "   "] {
        let toks = split_spaces_exec(&chars(s));
        assert!(toks.iter().all(|t| !t.contains(&' ')));
        let joined: Vec<String> = toks.iter().map(|t| t.iter().collect()).collect();
        assert_eq!(joined.join(" "), s);
    }
}
