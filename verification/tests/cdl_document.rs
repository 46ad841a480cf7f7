use ncas_netcdf::cdl::make_cdl;
use ncas_netcdf::common::Common;
use ncas_netcdf::data_products::DataProduct;
use ncas_netcdf::deployments::Deployment;
use ncas_netcdf::instruments::InstRecord;
use ncas_netcdf::netcdf_components::{Dimension, GlobalAttribute, Variable};
use ncas_netcdf::{build_cdl, CDLData};

fn common() -> Common {
    Common {
        global_attributes: vec![
            GlobalAttribute {
                name: "Conventions".to_string(),
                value: "CF-1.6, NCAS-AMF-2.0.0".to_string(),
                example: "".to_string(),
                compliance: "".to_string(),
            },
            GlobalAttribute {
                name: "instrument_manufacturer".to_string(),
                value: "".to_string(),
                example: "Some Company".to_string(),
                compliance: "".to_string(),
            },
        ],
    }
}

fn deployment() -> Deployment {
    Deployment {
        name: "land".to_string(),
        variables: vec![Variable {
            name: "time".to_string(),
            attributes: vec![
                ("type".to_string(), "float64".to_string()),
                ("dimension".to_string(), "time".to_string()),
                ("_FillValue".to_string(), "-1.00E+20".to_string()),
            ],
        }],
        dimensions: vec![Dimension { name: "time".to_string(), length: None }],
    }
}

fn data_product() -> DataProduct {
    DataProduct {
        name: "surface-met".to_string(),
        variables: vec![Variable {
            name: "air_temperature".to_string(),
            attributes: vec![
                ("type".to_string(), "float32".to_string()),
                ("dimension".to_string(), "time".to_string()),
                ("units".to_string(), "K".to_string()),
            ],
        }],
        dimensions: vec![Dimension { name: "index".to_string(), length: Some(2) }],
        global_attributes: vec![GlobalAttribute {
            name: "title".to_string(),
            value: "".to_string(),
            example: "Surface meteorology".to_string(),
            compliance: "".to_string(),
        }],
    }
}

fn record() -> InstRecord {
    let mut record = InstRecord::unknown("ncas-aws-1".to_string());
    record.manufacturer = Some("Vaisala".to_string());
    record.mobile_fixed = Some("fixed - Land".to_string());
    record
}

const PLAIN: &str = "netcdf foo {\n\
dimensions:\n        time = <dim length> ;\n        index = 2 ;\n\
variables:\n        double time(time) ;\n                time:_FillValue = -1.e+20f ;\n        float air_temperature(time) ;\n                air_temperature:units = \"K\" ;\n\
\n// global attributes:\n                Conventions = \"CF-1.6, NCAS-AMF-2.0.0\" ;\n                instrument_manufacturer = \"Vaisala\" ;\n                title = \"EXAMPLE: Surface meteorology\" ;\n\
}";

#[test]
fn template_without_annotations() {
    let cdl = make_cdl("foo.nc".to_string(), common(), deployment(), data_product(), record(), false)
        .unwrap();
    assert_eq!(cdl, PLAIN);
}

#[test]
fn header_strips_the_suffix() {
    let with_suffix =
        make_cdl("foo.nc".to_string(), common(), deployment(), data_product(), record(), false)
            .unwrap();
    let without_suffix =
        make_cdl("foo".to_string(), common(), deployment(), data_product(), record(), false)
            .unwrap();
    assert!(with_suffix.starts_with("netcdf foo {\n"));
    assert!(without_suffix.starts_with("netcdf foo {\n"));
    assert_eq!(with_suffix, without_suffix);
}

#[test]
fn header_strips_one_suffix_only() {
    let cdl =
        make_cdl("a.nc.nc".to_string(), common(), deployment(), data_product(), record(), false)
            .unwrap();
    assert!(cdl.starts_with("netcdf a.nc {\n"));
    let short =
        make_cdl(".nc".to_string(), common(), deployment(), data_product(), record(), false)
            .unwrap();
    assert!(short.starts_with("netcdf  {\n"));
    let inner =
        make_cdl("a.nc.txt".to_string(), common(), deployment(), data_product(), record(), false)
            .unwrap();
    assert!(inner.starts_with("netcdf a.nc.txt {\n"));
}

#[test]
fn template_ends_with_the_brace() {
    let cdl = make_cdl("foo.nc".to_string(), common(), deployment(), data_product(), record(), true)
        .unwrap();
    assert!(cdl.ends_with("// Required\n}"));
    assert!(!cdl.ends_with('\n'));
}

#[test]
fn plain_template_has_no_requirement_comment() {
    let cdl = make_cdl("foo.nc".to_string(), common(), deployment(), data_product(), record(), false)
        .unwrap();
    assert!(!cdl.contains("// Required"));
    assert!(!cdl.contains("// Optional"));
    assert!(!cdl.contains("// Required if"));
}

#[test]
fn plain_template_repeats_a_comment_that_an_entity_spells_out() {
    let mut product = data_product();
    product.global_attributes[0].value = "see // Optional".to_string();
    let cdl =
        make_cdl("foo.nc".to_string(), common(), deployment(), product, record(), false).unwrap();
    assert!(cdl.contains("                title = \"see // Optional\" ;\n"));
}

#[test]
fn annotated_template_comments_every_entity_line() {
    let cdl = make_cdl("foo.nc".to_string(), common(), deployment(), data_product(), record(), true)
        .unwrap();
    let lines: Vec<&str> = cdl.lines().collect();
    assert_eq!(lines.len(), 15);
    assert_eq!(lines[0], "netcdf foo {");
    assert_eq!(lines[1], "dimensions:");
    assert_eq!(lines[4], "variables:");
    assert_eq!(lines[9], "");
    assert_eq!(lines[10], "// global attributes:");
    assert_eq!(lines[14], "}");
    for at in [2, 3, 5, 6, 11, 12, 13] {
        assert_eq!(lines[at].find("// Required"), Some(100));
        assert!(lines[at].ends_with("// Required"));
    }
    assert_eq!(lines[7].find("// Optional"), Some(100));
    assert_eq!(lines[8].find("// Required if the variable is present"), Some(100));
}

#[test]
fn rendering_twice_gives_the_same_text() {
    let first = make_cdl("foo.nc".to_string(), common(), deployment(), data_product(), record(), true)
        .unwrap();
    let second =
        make_cdl("foo.nc".to_string(), common(), deployment(), data_product(), record(), true)
            .unwrap();
    assert_eq!(first, second);
}

#[test]
fn attribute_order_is_the_declared_order() {
    let mut product = data_product();
    product.variables[0].attributes = vec![
        ("zeta".to_string(), "1".to_string()),
        ("type".to_string(), "float32".to_string()),
        ("alpha".to_string(), "2".to_string()),
        ("middle".to_string(), "3".to_string()),
    ];
    let cdl =
        make_cdl("foo.nc".to_string(), common(), deployment(), product, record(), false).unwrap();
    let zeta = cdl.find("air_temperature:zeta").unwrap();
    let alpha = cdl.find("air_temperature:alpha").unwrap();
    let middle = cdl.find("air_temperature:middle").unwrap();
    assert!(zeta < alpha && alpha < middle);
}

#[test]
fn build_names_and_renders() {
    let CDLData { filename, cdl } =
        build_cdl(common(), record(), data_product(), deployment(), "20240101", false).unwrap();
    assert_eq!(filename, "ncas-aws-1_land_20240101_surface-met_v1.0.nc");
    assert!(cdl.starts_with("netcdf ncas-aws-1_land_20240101_surface-met_v1.0 {\n"));
    assert_eq!(cdl[cdl.find('\n').unwrap()..], PLAIN[PLAIN.find('\n').unwrap()..]);
}
