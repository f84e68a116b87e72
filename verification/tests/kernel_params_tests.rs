use ochami_rs::kernel_params::{
    convert_kernel_params_to_map, find_key, put_param, render, split_word, split_words,
};

fn pairs(items: &[(&str, &str)]) -> Vec<(String, String)> {
    items.iter().map(|(k, v)| (k.to_string(), v.to_string())).collect()
}

#[test]
fn a_line_is_split_at_whitespace() {
    assert_eq!(split_words("a b  c"), vec!["a", "b", "c"]);
    assert_eq!(split_words("  a\tb\n"), vec!["a", "b"]);
    assert_eq!(split_words(""), Vec::<String>::new());
    assert_eq!(split_words("   "), Vec::<String>::new());
    assert_eq!(split_words("one"), vec!["one"]);
    for line in ["a\u{a0}b", " x=1\u{2003}y ", "é → ü"] {
        let expected: Vec<String> = line.split_whitespace().map(|w| w.to_string()).collect();
        assert_eq!(split_words(line), expected);
    }
}

#[test]
fn a_word_is_split_at_its_first_equals_sign() {
    assert_eq!(split_word("console=ttyS0,115200"), ("console".to_string(), "ttyS0,115200".to_string()));
    assert_eq!(split_word("quiet"), ("quiet".to_string(), String::new()));
    assert_eq!(split_word("root=live:LABEL=SQFSRAID"), ("root".to_string(), "live:LABEL=SQFSRAID".to_string()));
    assert_eq!(split_word("k="), ("k".to_string(), String::new()));
    assert_eq!(split_word("=v"), (String::new(), "v".to_string()));
    assert_eq!(split_word("="), (String::new(), String::new()));
    assert_eq!(split_word(""), (String::new(), String::new()));
}

#[test]
fn a_line_becomes_a_map() {
    assert_eq!(
        convert_kernel_params_to_map("console=ttyS0,115200 quiet root=live:LABEL=SQFSRAID"),
        pairs(&[("console", "ttyS0,115200"), ("quiet", ""), ("root", "live:LABEL=SQFSRAID")])
    );
    assert_eq!(convert_kernel_params_to_map(""), Vec::new());
}

#[test]
fn a_key_keeps_its_first_place_and_its_last_value() {
    assert_eq!(
        convert_kernel_params_to_map("a=1 b=2 a=3 c a"),
        pairs(&[("a", ""), ("b", "2"), ("c", "")])
    );
}

#[test]
fn the_same_entries_as_a_hash_map_holds() {
    let line = "console=ttyS0 bad_page=panic crashkernel=512M quiet console=tty0 x=1=2";
    let expected: std::collections::HashMap<String, String> = line
        .split_whitespace()
        .map(|p| {
            let (k, v) = p.split_once('=').unwrap_or((p, ""));
            (k.to_string(), v.to_string())
        })
        .collect();
    let map = convert_kernel_params_to_map(line);
    assert_eq!(map.len(), expected.len());
    for (k, v) in &map {
        assert_eq!(expected.get(k), Some(v));
    }
}

#[test]
fn entries_are_found_and_put() {
    let mut map = pairs(&[("a", "1"), ("b", "2")]);
    assert_eq!(find_key(&map, "a"), 0);
    assert_eq!(find_key(&map, "b"), 1);
    assert_eq!(find_key(&map, "c"), 2);
    put_param(&mut map, "a".to_string(), "9".to_string());
    put_param(&mut map, "c".to_string(), "3".to_string());
    assert_eq!(map, pairs(&[("a", "9"), ("b", "2"), ("c", "3")]));
}

#[test]
fn a_map_becomes_a_line() {
    assert_eq!(render(&pairs(&[("a", "1"), ("quiet", ""), ("b", "2")])), "a=1 quiet b=2");
    assert_eq!(render(&pairs(&[("quiet", "")])), "quiet");
    assert_eq!(render(&Vec::new()), "");
    assert_eq!(render(&pairs(&[("", ""), ("a", "")])), " a");
}
