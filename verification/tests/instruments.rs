use ncas_netcdf::instruments::{select_instrument, InstRecord};
use ncas_netcdf::netcdf_components::Variable;
use ncas_netcdf::sources::{
    common_table_url, deployment_table_url, instrument_table_url, product_table_url,
    DeploymentTable, ProductTable,
};

fn row(name: Option<&str>, manufacturer: &str) -> InstRecord {
    let mut record = InstRecord::unknown(String::new());
    record.instrument_name = name.map(|n| n.to_string());
    record.manufacturer = Some(manufacturer.to_string());
    record
}

#[test]
fn unknown_instrument_keeps_its_name_only() {
    let record = select_instrument(vec![row(Some("a"), "A"), row(None, "B")], "z".to_string());
    assert_eq!(record.instrument_name.as_deref(), Some("z"));
    assert!(record.instrument.is_none());
    assert!(record.manufacturer.is_none());
    assert!(record.model_no.is_none());
    assert!(record.serial_number.is_none());
    assert!(record.old_instrument_name.is_none());
    assert!(record.data_product.is_none());
    assert!(record.mobile_fixed.is_none());
    assert!(record.host.is_none());
    assert!(record.scientist.is_none());
    assert!(record.category.is_none());
    assert!(record.descriptor.is_none());
    assert!(record.owner.is_none());
    assert!(record.pid.is_none());
}

#[test]
fn instrument_of_an_empty_table_is_unknown() {
    let record = select_instrument(Vec::new(), "z".to_string());
    assert_eq!(record.instrument_name.as_deref(), Some("z"));
    assert!(record.manufacturer.is_none());
}

#[test]
fn instrument_is_found_by_its_name() {
    let record = select_instrument(
        vec![row(Some("a"), "A"), row(Some("b"), "B"), row(Some("c"), "C")],
        "b".to_string(),
    );
    assert_eq!(record.instrument_name.as_deref(), Some("b"));
    assert_eq!(record.manufacturer.as_deref(), Some("B"));
}

#[test]
fn last_row_of_a_name_wins() {
    let record = select_instrument(
        vec![row(Some("a"), "first"), row(Some("b"), "B"), row(Some("a"), "last")],
        "a".to_string(),
    );
    assert_eq!(record.manufacturer.as_deref(), Some("last"));
}

#[test]
fn record_describes_its_own_name() {
    assert!(row(Some("a"), "A").describes("a"));
    assert!(!row(Some("a"), "A").describes("A"));
    assert!(!row(None, "A").describes(""));
}

#[test]
fn attributes_are_looked_up_and_set() {
    let mut variable = Variable::new("x".to_string());
    assert!(variable.attribute("units").is_none());
    variable.set_attribute("units".to_string(), "m".to_string());
    variable.set_attribute("type".to_string(), "float32".to_string());
    variable.set_attribute("units".to_string(), "km".to_string());
    assert_eq!(variable.name, "x");
    assert_eq!(
        variable.attributes,
        vec![("units".to_string(), "km".to_string()), ("type".to_string(), "float32".to_string())]
    );
    assert_eq!(variable.attribute("units").map(|v| v.as_str()), Some("km"));
    assert_eq!(variable.attribute("type").map(|v| v.as_str()), Some("float32"));
    assert!(variable.attribute("Units").is_none());
}

#[test]
fn first_attribute_of_a_name_is_looked_up() {
    let variable = Variable {
        name: "x".to_string(),
        attributes: vec![
            ("units".to_string(), "m".to_string()),
            ("units".to_string(), "km".to_string()),
        ],
    };
    assert_eq!(variable.attribute("units").map(|v| v.as_str()), Some("m"));
}

#[test]
fn table_addresses() {
    assert_eq!(
        common_table_url("v2.1.0"),
        "https://raw.githubusercontent.com/ncasuk/AMF_CVs/v2.1.0/product-definitions/tsv/_common/global-attributes.tsv"
    );
    assert_eq!(
        product_table_url("v2.1.0", "o3", ProductTable::GlobalAttributes),
        "https://raw.githubusercontent.com/ncasuk/AMF_CVs/v2.1.0/product-definitions/tsv/o3/global-attributes-specific.tsv"
    );
    assert_eq!(
        product_table_url("v2.1.0", "o3", ProductTable::Variables),
        "https://raw.githubusercontent.com/ncasuk/AMF_CVs/v2.1.0/product-definitions/tsv/o3/variables-specific.tsv"
    );
    assert_eq!(
        product_table_url("v2.1.0", "o3", ProductTable::Dimensions),
        "https://raw.githubusercontent.com/ncasuk/AMF_CVs/v2.1.0/product-definitions/tsv/o3/dimensions-specific.tsv"
    );
    assert_eq!(
        deployment_table_url("v2.0.0", "land", DeploymentTable::Variables),
        "https://raw.githubusercontent.com/ncasuk/AMF_CVs/v2.0.0/product-definitions/tsv/_common/variables-land.tsv"
    );
    assert_eq!(
        deployment_table_url("v2.0.0", "sea", DeploymentTable::Dimensions),
        "https://raw.githubusercontent.com/ncasuk/AMF_CVs/v2.0.0/product-definitions/tsv/_common/dimensions-sea.tsv"
    );
    assert_eq!(
        instrument_table_url(),
        "https://raw.githubusercontent.com/ncasuk/ncas-data-instrument-vocabs/refs/heads/main/product-definitions/tsv/_instrument_vocabs/ncas-instrument-name-and-descriptors.tsv"
    );
}
