use ncas_netcdf::cdl::{
    attribute_section, create_attribute_text, create_variable_text, dimension_section,
    source_in_record, variable_section, RecordField, RequirementLevel,
};
use ncas_netcdf::common::Common;
use ncas_netcdf::data_products::DataProduct;
use ncas_netcdf::deployments::Deployment;
use ncas_netcdf::instruments::InstRecord;
use ncas_netcdf::netcdf_components::{Dimension, GlobalAttribute, Variable};

fn pad(content: &str, comment: &str) -> String {
    let spaces = if content.chars().count() > 100 { 2 } else { 100 - content.chars().count() };
    format!("{}{}{}\n", content, " ".repeat(spaces), comment)
}

fn variable(name: &str, attributes: &[(&str, &str)]) -> Variable {
    Variable {
        name: name.to_string(),
        attributes: attributes.iter().map(|(n, v)| (n.to_string(), v.to_string())).collect(),
    }
}

fn attribute(name: &str, value: &str, example: &str) -> GlobalAttribute {
    GlobalAttribute {
        name: name.to_string(),
        value: value.to_string(),
        example: example.to_string(),
        compliance: String::new(),
    }
}

fn record() -> InstRecord {
    let mut record = InstRecord::unknown("ncas-lidar-1".to_string());
    record.manufacturer = Some("Halo Photonics".to_string());
    record.model_no = Some("Streamline".to_string());
    record.serial_number = Some("1210-18".to_string());
    record.descriptor = Some("NCAS Doppler Aerosol Lidar unit 1".to_string());
    record
}

fn deployment() -> Deployment {
    Deployment {
        name: "land".to_string(),
        variables: vec![variable(
            "time",
            &[("type", "float64"), ("dimension", "time"), ("units", "seconds since 1970-01-01")],
        )],
        dimensions: vec![Dimension { name: "time".to_string(), length: None }],
    }
}

fn data_product() -> DataProduct {
    DataProduct {
        name: "aerosol-backscatter".to_string(),
        variables: vec![variable(
            "qc_flag",
            &[("type", "byte"), ("dimension", "time, index"), ("flag_values", "0, 1, 2")],
        )],
        dimensions: vec![Dimension { name: "index".to_string(), length: Some(3) }],
        global_attributes: vec![attribute("laser_wavelength", "", "1550 nm")],
    }
}

#[test]
fn dimension_section_lists_deployment_before_product() {
    let text = dimension_section(&deployment(), &data_product(), false);
    assert_eq!(text, "dimensions:\n        time = <dim length> ;\n        index = 3 ;\n");
}

#[test]
fn dimension_section_without_dimensions_is_the_heading() {
    let mut deployment = deployment();
    deployment.dimensions.clear();
    let mut product = data_product();
    product.dimensions.clear();
    assert_eq!(dimension_section(&deployment, &product, true), "dimensions:\n");
}

#[test]
fn dimensions_are_always_required() {
    let text = dimension_section(&deployment(), &data_product(), true);
    let expected = format!(
        "dimensions:\n{}{}",
        pad("        time = <dim length> ;", "// Required"),
        pad("        index = 3 ;", "// Required"),
    );
    assert_eq!(text, expected);
}

#[test]
fn variable_lines_follow_the_declaration() {
    let v = variable(
        "altitude",
        &[("type", "float32"), ("units", "m"), ("dimension", "time, index"), ("long_name", "Height")],
    );
    let text = create_variable_text(
        &v,
        false,
        RequirementLevel::Required,
        RequirementLevel::Required,
    );
    assert_eq!(
        text,
        "        float altitude(time, index) ;\n                altitude:units = \"m\" ;\n                altitude:long_name = \"Height\" ;\n"
    );
}

#[test]
fn variable_without_type_is_unknown() {
    let v = variable("x", &[("dimension", "time")]);
    let text =
        create_variable_text(&v, false, RequirementLevel::Required, RequirementLevel::Required);
    assert_eq!(text, "        unknown x(time) ;\n");
}

#[test]
fn variable_without_dimension_has_empty_parentheses() {
    let v = variable("x", &[("type", "int32")]);
    let text =
        create_variable_text(&v, false, RequirementLevel::Required, RequirementLevel::Required);
    assert_eq!(text, "        int x() ;\n");
}

#[test]
fn variable_without_attributes_is_unknown_and_empty() {
    let v = variable("x", &[]);
    let text =
        create_variable_text(&v, false, RequirementLevel::Optional, RequirementLevel::Optional);
    assert_eq!(text, "        unknown x() ;\n");
}

#[test]
fn variable_with_a_type_outside_the_lexicon_is_unknown() {
    let v = variable("x", &[("type", "int64")]);
    let text =
        create_variable_text(&v, false, RequirementLevel::Required, RequirementLevel::Required);
    assert_eq!(text, "        unknown x() ;\n");
}

#[test]
fn dimension_list_is_inserted_verbatim() {
    let v = variable("x", &[("type", "byte"), ("dimension", " time ,index  ")]);
    let text =
        create_variable_text(&v, false, RequirementLevel::Required, RequirementLevel::Required);
    assert_eq!(text, "        byte x( time ,index  ) ;\n");
}

#[test]
fn fill_value_ignores_the_table() {
    let with_number = variable("x", &[("_FillValue", "-999")]);
    let with_text = variable("x", &[("_FillValue", "anything else")]);
    let first = create_variable_text(
        &with_number,
        false,
        RequirementLevel::Required,
        RequirementLevel::Required,
    );
    let second = create_variable_text(
        &with_text,
        false,
        RequirementLevel::Required,
        RequirementLevel::Required,
    );
    assert_eq!(first, "        unknown x() ;\n                x:_FillValue = -1.e+20f ;\n");
    assert_eq!(first, second);
}

#[test]
fn variable_levels_differ_between_declaration_and_attributes() {
    let v = variable("x", &[("type", "float32"), ("units", "K")]);
    let text = create_variable_text(
        &v,
        true,
        RequirementLevel::Optional,
        RequirementLevel::RequiredIf("the variable is present".to_string()),
    );
    let expected = format!(
        "{}{}",
        pad("        float x() ;", "// Optional"),
        pad("                x:units = \"K\" ;", "// Required if the variable is present"),
    );
    assert_eq!(text, expected);
}

#[test]
fn long_attribute_line_gets_two_spaces() {
    let value = "v".repeat(120);
    let v = variable("x", &[("comment", value.as_str())]);
    let text =
        create_variable_text(&v, true, RequirementLevel::Required, RequirementLevel::Required);
    let expected = format!(
        "{}                x:comment = \"{}\" ;  // Required\n",
        pad("        unknown x() ;", "// Required"),
        value
    );
    assert_eq!(text, expected);
}

#[test]
fn width_is_counted_in_characters() {
    let v = variable("x", &[("units", "°C")]);
    let text =
        create_variable_text(&v, true, RequirementLevel::Required, RequirementLevel::Required);
    let line = text.lines().nth(1).unwrap();
    let before: String = line.chars().take(100).collect();
    let behind: String = line.chars().skip(100).collect();
    assert_eq!(before.trim_end(), "                x:units = \"°C\" ;");
    assert_eq!(behind, "// Required");
}

#[test]
fn variable_section_marks_product_variables_optional() {
    let text = variable_section(&deployment(), &data_product(), true);
    let expected = format!(
        "variables:\n{}{}{}{}",
        pad("        double time(time) ;", "// Required"),
        pad("                time:units = \"seconds since 1970-01-01\" ;", "// Required"),
        pad("        byte qc_flag(time, index) ;", "// Optional"),
        pad(
            "                qc_flag:flag_values = \"0, 1, 2\" ;",
            "// Required if the variable is present"
        ),
    );
    assert_eq!(text, expected);
}

#[test]
fn variable_section_without_annotations() {
    let text = variable_section(&deployment(), &data_product(), false);
    assert_eq!(
        text,
        "variables:\n        double time(time) ;\n                time:units = \"seconds since 1970-01-01\" ;\n        byte qc_flag(time, index) ;\n                qc_flag:flag_values = \"0, 1, 2\" ;\n"
    );
}

#[test]
fn manufacturer_comes_from_the_record() {
    let a = attribute("instrument_manufacturer", "Table Value", "Table Example");
    let text = create_attribute_text(&a, &record(), false);
    assert_eq!(text, "                instrument_manufacturer = \"Halo Photonics\" ;\n");
}

#[test]
fn model_serial_number_and_source_come_from_the_record() {
    let r = record();
    let model = create_attribute_text(&attribute("instrument_model", "a", "b"), &r, false);
    let serial = create_attribute_text(&attribute("instrument_serial_number", "a", "b"), &r, false);
    let source = create_attribute_text(&attribute("source", "a", "b"), &r, false);
    assert_eq!(model, "                instrument_model = \"Streamline\" ;\n");
    assert_eq!(serial, "                instrument_serial_number = \"1210-18\" ;\n");
    assert_eq!(source, "                source = \"NCAS Doppler Aerosol Lidar unit 1\" ;\n");
}

#[test]
fn unset_record_field_renders_example() {
    let r = InstRecord::unknown("nobody".to_string());
    let text = create_attribute_text(
        &attribute("instrument_manufacturer", "Table Value", "Table Example"),
        &r,
        false,
    );
    assert_eq!(text, "                instrument_manufacturer = \"EXAMPLE\" ;\n");
}

#[test]
fn fixed_value_is_used_verbatim() {
    let text = create_attribute_text(&attribute("Conventions", "CF-1.6", "x"), &record(), false);
    assert_eq!(text, "                Conventions = \"CF-1.6\" ;\n");
}

#[test]
fn empty_value_falls_back_to_the_example() {
    let text = create_attribute_text(&attribute("title", "", "Lidar data"), &record(), false);
    assert_eq!(text, "                title = \"EXAMPLE: Lidar data\" ;\n");
}

#[test]
fn global_attributes_are_required() {
    let text = create_attribute_text(&attribute("title", "", "Lidar data"), &record(), true);
    assert_eq!(text, pad("                title = \"EXAMPLE: Lidar data\" ;", "// Required"));
}

#[test]
fn attribute_section_lists_common_before_product() {
    let common = Common { global_attributes: vec![attribute("Conventions", "CF-1.6", "")] };
    let text = attribute_section(&common, &data_product(), &record(), false);
    assert_eq!(
        text,
        "\n// global attributes:\n                Conventions = \"CF-1.6\" ;\n                laser_wavelength = \"EXAMPLE: 1550 nm\" ;\n"
    );
}

#[test]
fn four_attributes_have_a_source_in_the_record() {
    assert_eq!(source_in_record("instrument_manufacturer"), Some(RecordField::Manufacturer));
    assert_eq!(source_in_record("instrument_model"), Some(RecordField::ModelNo));
    assert_eq!(source_in_record("instrument_serial_number"), Some(RecordField::SerialNumber));
    assert_eq!(source_in_record("source"), Some(RecordField::Descriptor));
    assert_eq!(source_in_record("Source"), None);
    assert_eq!(source_in_record("instrument_name"), None);
    assert_eq!(source_in_record(""), None);
}
