use themesub::replace::replace_all;
use themesub::substitute::{apply_colors, ColorEntry};
use themesub::substitutor::Substitutor;
use themesub::variables::{parse_colors, substitute_text, VariablesError};

fn entry(key: &str, value: Option<&str>) -> ColorEntry {
    ColorEntry::new(key.to_string(), value.map(|v| v.to_string()))
}

#[test]
fn missing_key_keeps_its_placeholder() {
    let out = substitute_text(
        "background: $base; foreground: $text;",
        "colors = { base = \"#000000\" }",
    );
    assert_eq!(out, Ok("background: #000000; foreground: $text;".to_string()));
}

#[test]
fn every_occurrence_is_replaced() {
    let out = substitute_text("$a-$a-$a", "[colors]\na = \"x\"\n").unwrap();
    assert_eq!(out, "x-x-x");
}

#[test]
fn non_string_values_are_skipped() {
    let vars = "[colors]\na = 1\nb = \"blue\"\nc = true\nd = [1, 2]\ne = { f = \"g\" }\n";
    let out = substitute_text("$a $b $c $d $e", vars).unwrap();
    assert_eq!(out, "$a blue $c $d $e");
}

#[test]
fn no_colors_table_copies_the_template() {
    let template = "{ \"bg\": \"$base\" }\n";
    assert_eq!(substitute_text(template, "title = \"x\"\n").unwrap(), template);
    assert_eq!(substitute_text(template, "").unwrap(), template);
}

#[test]
fn colors_that_is_not_a_table_copies_the_template() {
    let template = "$base";
    assert_eq!(substitute_text(template, "colors = \"red\"\n").unwrap(), template);
}

#[test]
fn invalid_document_is_an_error() {
    assert_eq!(
        substitute_text("$a", "colors = { a = "),
        Err(VariablesError::InvalidToml)
    );
    assert!(parse_colors("[colors\n").is_err());
}

#[test]
fn parse_colors_lists_every_key() {
    let cs = parse_colors("[colors]\nbase = \"#111\"\nsize = 3\n").unwrap();
    assert_eq!(cs.len(), 2);
    assert_eq!(cs[0].key, "base");
    assert_eq!(cs[0].value, Some("#111".to_string()));
    assert_eq!(cs[1].key, "size");
    assert_eq!(cs[1].value, None);
}

#[test]
fn substituting_twice_is_stable_without_tokens_in_values() {
    let vars = "[colors]\nbase = \"#000000\"\ntext = \"#ffffff\"\n";
    let once = substitute_text("bg $base fg $text", vars).unwrap();
    assert_eq!(once, "bg #000000 fg #ffffff");
    assert_eq!(substitute_text(&once, vars).unwrap(), once);
}

#[test]
fn value_with_a_token_is_not_stable() {
    let colors = vec![entry("a", Some("$a!"))];
    let once = apply_colors("$a", &colors);
    assert_eq!(once, "$a!");
    assert_eq!(apply_colors(&once, &colors), "$a!!");
}

#[test]
fn later_entries_see_earlier_replacements() {
    let colors = vec![entry("a", Some("$b")), entry("b", Some("y"))];
    assert_eq!(apply_colors("$a $b", &colors), "y y");
    let reversed = vec![entry("b", Some("y")), entry("a", Some("$b"))];
    assert_eq!(apply_colors("$a $b", &reversed), "$b y");
}

#[test]
fn entries_with_no_string_value_change_nothing() {
    let colors = vec![entry("a", None), entry("b", Some("z"))];
    assert_eq!(apply_colors("$a$b", &colors), "$az");
}

#[test]
fn replace_all_scans_left_to_right_without_overlap() {
    assert_eq!(replace_all("aaaa", "aa", "b"), "bb");
    assert_eq!(replace_all("aaa", "aa", "b"), "ba");
    assert_eq!(replace_all("$a$ab", "$ab", "b"), "$ab");
    assert_eq!(replace_all("no tokens", "$x", "y"), "no tokens");
    assert_eq!(replace_all("", "$x", "y"), "");
    assert_eq!(replace_all("é$cé", "$c", "ü"), "éüé");
}

#[test]
fn substitutor_renders_from_texts() {
    let s = Substitutor::new(
        "theme.template".to_string(),
        "variables.toml".to_string(),
        "out.json".to_string(),
    );
    assert_eq!(s.template_file, "theme.template");
    assert_eq!(s.variables_file, "variables.toml");
    assert_eq!(s.output_file, "out.json");
    let out = s.substitute_variables("c: $c", "[colors]\nc = \"#abcdef\"\n");
    assert_eq!(out, Ok("c: #abcdef".to_string()));
}

#[test]
fn values_without_tokens_can_still_form_one() {
    let vars = "[colors]\na = \"q\"\nb = \"a\"\n";
    let once = substitute_text("$$b", vars).unwrap();
    assert_eq!(once, "$a");
    assert_eq!(substitute_text(&once, vars).unwrap(), "q");
}
