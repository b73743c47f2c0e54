use experienced::interpolation::{Interpolation, ParseError, RenderError};
use experienced::StringHashMap;

fn get_example_args() -> StringHashMap<String> {
    let mut hm = StringHashMap::new();
    hm.insert("interpolation".to_string(), "Interpolation".to_string());
    hm.insert("unused".to_string(), "ERROR".to_string());
    hm
}

#[test]
fn basic() {
    let interpolation =
        Interpolation::new("This is an example string for {interpolation}!").unwrap();
    println!("{interpolation:?}");
    let rendered = interpolation.render(&get_example_args());
    assert_eq!("This is an example string for Interpolation!", rendered);
}

#[test]
fn escapes() {
    let initial = "This is an example string for \\{interpolation} escapes!";
    let target = "This is an example string for {interpolation} escapes!";
    let interpolation = Interpolation::new(initial).unwrap();
    println!("{interpolation:?}");
    assert_eq!(target, interpolation.render(&StringHashMap::new()));
}

#[test]
fn recursive_escapes() {
    let initial = "This is an example string for \\\\{interpolation} recursive escapes!";
    let target = "This is an example string for \\Interpolation recursive escapes!";
    let interpolation = Interpolation::new(initial).unwrap();
    println!("{interpolation:?}");
    assert_eq!(target, interpolation.render(&get_example_args()));
}

#[test]
fn variables_are_right() {
    let interpolation =
        Interpolation::new("This is an example string for {interpolation} variable listing!")
            .unwrap();
    println!("{interpolation:?}");
    assert_eq!(interpolation.variables_used(), vec!["interpolation"]);
}

#[test]
fn lib_basic_roundtrip() {
    let roundtrip = "This is an example string for {interpolation}!";
    let interpolation = Interpolation::new(roundtrip).unwrap();
    println!("{interpolation:?}");
    assert_eq!(roundtrip, interpolation.input_value());
}

#[test]
fn escapes_roundtrip() {
    let roundtrip = "This is an example string for \\{interpolation} escapes!";
    let interpolation = Interpolation::new(roundtrip).unwrap();
    println!("{interpolation:?}");
    assert_eq!(roundtrip, interpolation.input_value());
}

#[test]
fn recursive_escapes_roundtrip() {
    let roundtrip = "This is an example string for \\\\{interpolation} recursive escapes!";
    let interpolation = Interpolation::new(roundtrip).unwrap();
    println!("{interpolation:?}");
    assert_eq!(roundtrip, interpolation.input_value());
}

#[test]
fn no_interpolation() {
    let unchanged = "This is an example string for a lack of interpolation!";
    let interpolation = Interpolation::new(unchanged).unwrap();
    println!("{interpolation:?}");
    assert_eq!(unchanged, interpolation.render(&StringHashMap::new()));
}

#[test]
fn error_nonexistents_found() {
    let one_interp = "{nonexistent}";
    let interpolation = Interpolation::new(one_interp).unwrap();
    println!("{interpolation:?}");
    assert_eq!(
        Err(RenderError::UnknownVariables(vec!["nonexistent"])),
        interpolation.try_render(&StringHashMap::new())
    );
}

#[test]
fn error_nonexistents_found_2() {
    let one_interp = "{nonexistent} {nonexistent2}";
    let interpolation = Interpolation::new(one_interp).unwrap();
    println!("{interpolation:?}");
    assert_eq!(
        Err(RenderError::UnknownVariables(vec!["nonexistent", "nonexistent2"])),
        interpolation.try_render(&StringHashMap::new())
    );
}

#[test]
fn error_bad_ident() {
    let bad_template = "{a)";
    let interpolation = Interpolation::new(bad_template);
    assert_eq!(interpolation, Err(ParseError::InvalidCharInIdentifier(')', 2)));
}

#[test]
fn error_unclosed() {
    let bad_template = "{a";
    let interpolation = Interpolation::new(bad_template);
    assert_eq!(interpolation, Err(ParseError::UnclosedIdentifier(1)));
}

#[test]
fn error_bad_escape() {
    let bad_template = "\\a";
    let interpolation = Interpolation::new(bad_template);
    assert_eq!(interpolation, Err(ParseError::InvalidEscape('a', 1)));
}

#[test]
fn error_unfinished_escape() {
    assert_eq!(Interpolation::new("abc\\"), Err(ParseError::UnfinishedEscape(3)));
    assert_eq!(
        Interpolation::new("{a}\\").unwrap_err().to_string(),
        "`\\` at position 4 escapes nothing, only `{` and `\\` can be escaped"
    );
    let doubled = Interpolation::new("abc\\\\").unwrap();
    assert_eq!(doubled.input_value(), "abc\\\\");
}

#[test]
fn try_render_with_every_variable_known() {
    let interpolation = Interpolation::new("{interpolation} and {unused}").unwrap();
    assert_eq!(
        Ok("Interpolation and ERROR".to_string()),
        interpolation.try_render(&get_example_args())
    );
}

#[test]
fn render_leaves_unknown_variables_empty() {
    let interpolation = Interpolation::new("a{x}b{interpolation}c").unwrap();
    assert_eq!("abInterpolationc", interpolation.render(&get_example_args()));
}

#[test]
fn printing_a_parsed_template_gives_back_its_source() {
    for source in ["", "plain", "{a}{b}", "x\\{y\\\\{z}w", "{user_mention} reached {level}!"] {
        let interpolation = Interpolation::new(source).unwrap();
        assert_eq!(source, interpolation.input_value());
    }
}

#[test]
fn parsing_printed_text_gives_the_same_template() {
    let interpolation = Interpolation::new("a \\\\ b \\{ c {d}").unwrap();
    let again = Interpolation::new(&interpolation.input_value()).unwrap();
    assert_eq!(interpolation, again);
}

#[test]
fn variables_listed_in_order_of_use_with_repeats() {
    let interpolation = Interpolation::new("{b}{a}{b}").unwrap();
    assert_eq!(interpolation.variables_used(), vec!["b", "a", "b"]);
}

#[test]
fn parse_error_messages() {
    assert_eq!(
        "Unclosed identifier (mismatched pair at 2)",
        Interpolation::new("{a").unwrap_err().to_string()
    );
    assert_eq!(
        "Invalid character `')'` in identifier at 3",
        Interpolation::new("{a)").unwrap_err().to_string()
    );
    assert_eq!(
        "`'a'` at position 2 cannot be escaped, only `{` and `\\` can",
        Interpolation::new("\\a").unwrap_err().to_string()
    );
}

#[test]
fn render_error_message_lists_names() {
    let interpolation = Interpolation::new("{x} {y}").unwrap();
    let err = interpolation.try_render(&StringHashMap::new()).unwrap_err();
    assert_eq!("Unknown variables used: x, y", err.to_string());
}

#[test]
fn missing_values_render_as_empty_values() {
    let interpolation = Interpolation::new("a{x}b{y}c{x}").unwrap();
    let mut args = StringHashMap::new();
    args.insert("y".to_string(), "Y".to_string());
    args.insert("unused".to_string(), "U".to_string());
    let rendered = interpolation.render(&args);
    assert_eq!(rendered, "abYc");
    let mut filled = StringHashMap::new();
    filled.insert("y".to_string(), "Y".to_string());
    filled.insert("x".to_string(), String::new());
    assert_eq!(interpolation.try_render(&filled).unwrap(), rendered);
}

#[test]
fn unknown_variables_are_used_ones_without_value() {
    let interpolation = Interpolation::new("{a}{b}{a}{c}").unwrap();
    let mut args = StringHashMap::new();
    args.insert("b".to_string(), "B".to_string());
    let missing: Vec<&str> =
        interpolation.variables_used().into_iter().filter(|v| !args.contains_key(*v)).collect();
    assert_eq!(missing, vec!["a", "a", "c"]);
    assert_eq!(
        interpolation.try_render(&args),
        Err(RenderError::UnknownVariables(missing))
    );
}
