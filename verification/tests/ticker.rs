use quant_core::ticker::normalize_ticker;

#[test]
fn trims_and_uppercases_and_appends_suffix() {
    assert_eq!(normalize_ticker(" petr4 "), "PETR4.SA");
}

#[test]
fn an_already_normal_symbol_only_gains_the_suffix() {
    assert_eq!(normalize_ticker("VALE3"), "VALE3.SA");
}

#[test]
fn empty_and_blank_input_yield_the_bare_suffix() {
    assert_eq!(normalize_ticker(""), ".SA");
    assert_eq!(normalize_ticker(" \t \n "), ".SA");
}

#[test]
fn inner_whitespace_and_digits_are_kept() {
    assert_eq!(normalize_ticker("\t b3sa3 \n"), "B3SA3.SA");
    assert_eq!(normalize_ticker("ab cd"), "AB CD.SA");
}

#[test]
fn punctuation_passes_unchanged() {
    assert_eq!(normalize_ticker("x-y_z."), "X-Y_Z..SA");
}

#[test]
fn case_mapping_is_unicode_wide() {
    assert_eq!(normalize_ticker("itaú4"), "ITAÚ4.SA");
    assert_eq!(normalize_ticker("ß"), "SS.SA");
}

#[test]
fn trimming_is_unicode_wide() {
    assert_eq!(normalize_ticker("\u{c}x\u{b}"), "X.SA");
    assert_eq!(normalize_ticker("\u{a0}ab\u{a0}"), "AB.SA");
}
