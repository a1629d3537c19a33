use nmsr_core::naming::{layer_file_name, push_decimal, replace_all, same_text};

fn decimal(value: usize) -> String {
    let mut out = String::new();
    push_decimal(&mut out, value);
    out
}

#[test]
fn a_single_layer_keeps_the_name_of_the_group() {
    assert_eq!(layer_file_name("Steve/Arms.qoi", 0, 1), "Steve/Arms.qoi");
    assert_eq!(layer_file_name("Body Layer.qoi", 0, 0), "Body Layer.qoi");
    assert_eq!(layer_file_name("no extension", 0, 1), "no extension");
}

#[test]
fn several_layers_carry_their_index_before_the_extension() {
    assert_eq!(layer_file_name("Steve/Arms.qoi", 0, 2), "Steve/Arms-0.qoi");
    assert_eq!(layer_file_name("Steve/Arms.qoi", 1, 2), "Steve/Arms-1.qoi");
    assert_eq!(layer_file_name("Body Layer.qoi", 12, 13), "Body Layer-12.qoi");
    assert_eq!(layer_file_name("Alex/Body Layer.png", 3, 4), "Alex/Body Layer-3.qoi");
}

#[test]
fn a_name_without_extension_gets_one() {
    assert_eq!(layer_file_name("Body", 1, 2), "Body-1.qoi");
    assert_eq!(layer_file_name("v1.2/Body", 1, 2), "v1.2/Body-1.qoi");
    assert_eq!(layer_file_name("renders/.hidden", 0, 2), "renders/.hidden-0.qoi");
    assert_eq!(layer_file_name(".hidden", 0, 2), ".hidden-0.qoi");
    assert_eq!(layer_file_name("", 0, 2), "-0.qoi");
    assert_eq!(layer_file_name("archive.tar.qoi", 5, 9), "archive.tar-5.qoi");
}

#[test]
fn numbers_are_written_in_decimal() {
    assert_eq!(decimal(0), "0");
    assert_eq!(decimal(7), "7");
    assert_eq!(decimal(10), "10");
    assert_eq!(decimal(109), "109");
    assert_eq!(decimal(1234567890), "1234567890");
    assert_eq!(decimal(usize::MAX), usize::MAX.to_string());
    let mut out = String::from("layer ");
    push_decimal(&mut out, 42);
    assert_eq!(out, "layer 42");
}

#[test]
fn replace_all_replaces_every_occurrence_from_the_left() {
    assert_eq!(replace_all("{model}/Arms.qoi", "{model}", "Alex"), "Alex/Arms.qoi");
    assert_eq!(replace_all("Body.qoi", "{model}", "Alex"), "Body.qoi");
    assert_eq!(replace_all("{model}/{model}.qoi", "{model}", "Steve"), "Steve/Steve.qoi");
    assert_eq!(replace_all("aaa", "aa", "b"), "ba");
    assert_eq!(replace_all("aaaa", "aa", "b"), "bb");
    assert_eq!(replace_all("abc", "abcd", "x"), "abc");
    assert_eq!(replace_all("", "a", "x"), "");
    assert_eq!(replace_all("{model", "{model}", "x"), "{model");
    assert_eq!(replace_all("x{model}", "{model}", ""), "x");
    assert_eq!(replace_all("grüße/{model}", "{model}", "Ä"), "grüße/Ä");
    assert_eq!(replace_all("abab", "ab", "abab"), "abababab");
}

#[test]
fn texts_are_compared_character_for_character() {
    assert!(same_text("head", "head"));
    assert!(same_text("", ""));
    assert!(!same_text("head", "heads"));
    assert!(!same_text("heads", "head"));
    assert!(!same_text("head", "heat"));
    assert!(same_text("grüße", "grüße"));
}
