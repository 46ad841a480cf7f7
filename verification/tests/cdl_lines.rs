use ncas_netcdf::cdl::{
    create_dimension_text, format_line, map_data_type, requirement_level_string,
    RequirementLevel,
};

#[test]
fn required_comment_follows_the_padding() {
    let text = requirement_level_string(&RequirementLevel::Required, 3);
    assert_eq!(text, "   // Required");
}

#[test]
fn conditional_comment_gives_the_reason() {
    let level = RequirementLevel::RequiredIf("the variable is present".to_string());
    let text = requirement_level_string(&level, 2);
    assert_eq!(text, "  // Required if the variable is present");
}

#[test]
fn optional_comment_without_padding() {
    let text = requirement_level_string(&RequirementLevel::Optional, 0);
    assert_eq!(text, "// Optional");
}

#[test]
fn time_dimension_is_padded_to_column_100() {
    let text = create_dimension_text("time", Some(100), true);
    let content = "        time = 100 ;";
    let expected = format!("{}{}// Required\n", content, " ".repeat(100 - content.len()));
    assert_eq!(text, expected);
    assert_eq!(text.find("// Required"), Some(100));
    assert!(text.ends_with("// Required\n"));
}

#[test]
fn dimension_without_length_has_a_placeholder() {
    let text = create_dimension_text("index", None, false);
    assert_eq!(text, "        index = <dim length> ;\n");
}

#[test]
fn dimension_lengths_are_written_in_decimal() {
    assert_eq!(create_dimension_text("a", Some(0), false), "        a = 0 ;\n");
    assert_eq!(create_dimension_text("a", Some(7), false), "        a = 7 ;\n");
    assert_eq!(create_dimension_text("a", Some(10), false), "        a = 10 ;\n");
    assert_eq!(create_dimension_text("a", Some(4294967295), false), "        a = 4294967295 ;\n");
}

#[test]
fn long_line_gets_two_spaces_before_the_comment() {
    let content = "x".repeat(101);
    let text = format_line(content.clone(), true, &RequirementLevel::Optional);
    assert_eq!(text, format!("{}  // Optional\n", content));
}

#[test]
fn line_of_exactly_100_characters_gets_no_padding() {
    let content = "x".repeat(100);
    let text = format_line(content.clone(), true, &RequirementLevel::Required);
    assert_eq!(text, format!("{}// Required\n", content));
}

#[test]
fn line_without_annotation_is_unchanged() {
    let text = format_line("        lat = 1 ;".to_string(), false, &RequirementLevel::Required);
    assert_eq!(text, "        lat = 1 ;\n");
}

#[test]
fn data_types_follow_the_lexicon() {
    assert_eq!(map_data_type("int8"), "byte");
    assert_eq!(map_data_type("byte"), "byte");
    assert_eq!(map_data_type("int32"), "int");
    assert_eq!(map_data_type("float32"), "float");
    assert_eq!(map_data_type("float64"), "double");
    assert_eq!(map_data_type("string"), "string");
    assert_eq!(map_data_type("int64"), "unknown");
    assert_eq!(map_data_type(""), "unknown");
    assert_eq!(map_data_type("unknown"), "unknown");
}
