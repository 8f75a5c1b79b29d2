use lang_switcher::translit::convert;

#[test]
fn latin_example_converts_to_cyrillic() {
    assert_eq!(convert(String::from("Ghbdtn")), String::from("Привет"));
}

#[test]
fn cyrillic_example_converts_to_latin() {
    assert_eq!(convert(String::from("Привет")), String::from("Ghbdtn"));
}

#[test]
fn empty_input_gives_empty_output() {
    assert_eq!(convert(String::from("")), String::from(""));
}

#[test]
fn round_trip_over_latin_letters() {
    let original = String::from("Ghbdtn");
    let there = convert(original.clone());
    let back = convert(there);
    assert_eq!(back, original);
}

#[test]
fn round_trip_over_mixed_case_letters() {
    let original = String::from("QwErTy");
    let back = convert(convert(original.clone()));
    assert_eq!(back, original);
}

#[test]
fn cyrillic_majority_converts_to_latin() {
    assert_eq!(convert(String::from("фыa")), String::from("asa"));
}

#[test]
fn tie_uses_the_reverse_table() {
    // One Latin character against one Cyrillic character: the tie falls to
    // the reverse table, so the Latin 'a' passes through unchanged.
    assert_eq!(convert(String::from("aф")), String::from("aa"));
}

#[test]
fn digits_and_whitespace_pass_through() {
    assert_eq!(convert(String::from("123 abc")), String::from("123 фис"));
}

#[test]
fn emoji_pass_through() {
    assert_eq!(convert(String::from("ghbdtn 😀")), String::from("привет 😀"));
}

#[test]
fn digits_pass_through_in_reverse_direction() {
    assert_eq!(convert(String::from("привет 2024")), String::from("ghbdtn 2024"));
}

#[test]
fn bracket_punctuation_converts_forward() {
    assert_eq!(convert(String::from("[f]")), String::from("хаъ"));
}

#[test]
fn shared_punctuation_breaks_the_round_trip() {
    // '@' maps to '"', which the Latin table also covers, so converting the
    // image goes forward again instead of back.
    assert_eq!(convert(String::from("@")), String::from("\""));
    assert_eq!(convert(String::from("\"")), String::from("Э"));
}
