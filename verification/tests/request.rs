use ncas_netcdf::error::{CdlError, Parameter, RecordKind, TableKind};
use ncas_netcdf::request::{read_parameters, respond, CdlResponse};
use ncas_netcdf::CDLData;

fn some(text: &str) -> Option<String> {
    Some(text.to_string())
}

#[test]
fn missing_instrument_is_reported() {
    let result = read_parameters(None, some("surface-met"), some("2024"), None, None, None);
    let error = result.unwrap_err();
    assert!(matches!(error, CdlError::MissingParameter(Parameter::Instrument)));
    assert_eq!(error.message(), "Instrument parameter is required");
    match respond(Err(error)) {
        CdlResponse::Failure { error } => assert_eq!(error, "Instrument parameter is required"),
        CdlResponse::Template { .. } => panic!("an error has no template"),
    }
}

#[test]
fn empty_instrument_is_reported() {
    let error =
        read_parameters(some(""), some("surface-met"), some("2024"), None, None, None).unwrap_err();
    assert_eq!(error.message(), "Instrument parameter is required");
}

#[test]
fn missing_data_product_is_reported() {
    let error = read_parameters(some("lidar"), None, some("2024"), None, None, None).unwrap_err();
    assert!(matches!(error, CdlError::MissingParameter(Parameter::DataProduct)));
    assert_eq!(error.message(), "Data product parameter is required");
    let empty = read_parameters(some("lidar"), some(""), None, None, None, None).unwrap_err();
    assert_eq!(empty.message(), "Data product parameter is required");
}

#[test]
fn missing_start_date_is_reported() {
    let error = read_parameters(some("lidar"), some("o3"), None, None, None, None).unwrap_err();
    assert!(matches!(error, CdlError::MissingParameter(Parameter::StartDate)));
    assert_eq!(error.message(), "Start date parameter is required");
    let empty = read_parameters(some("lidar"), some("o3"), some(""), None, None, None).unwrap_err();
    assert_eq!(empty.message(), "Start date parameter is required");
}

#[test]
fn instrument_is_checked_first() {
    let error = read_parameters(None, None, None, None, None, None).unwrap_err();
    assert_eq!(error.message(), "Instrument parameter is required");
}

#[test]
fn defaults_are_filled_in() {
    let request =
        read_parameters(some("lidar"), some("o3"), some("20240101"), None, None, None).unwrap();
    assert_eq!(request.instrument, "lidar");
    assert_eq!(request.data_product, "o3");
    assert_eq!(request.start_date, "20240101");
    assert_eq!(request.deployment, "land");
    assert_eq!(request.tag, "v2.1.0");
    assert!(!request.include_requirement_info);
}

#[test]
fn given_values_replace_the_defaults() {
    let request = read_parameters(
        some("lidar"),
        some("o3"),
        some("20240101"),
        some("sea"),
        some("v2.0.0"),
        some("true"),
    )
    .unwrap();
    assert_eq!(request.deployment, "sea");
    assert_eq!(request.tag, "v2.0.0");
    assert!(request.include_requirement_info);
}

#[test]
fn empty_optional_values_are_kept() {
    let request =
        read_parameters(some("lidar"), some("o3"), some("1"), some(""), some(""), some("")).unwrap();
    assert_eq!(request.deployment, "");
    assert_eq!(request.tag, "");
    assert!(!request.include_requirement_info);
}

#[test]
fn only_true_asks_for_requirement_information() {
    for text in ["True", "TRUE", "1", "yes", "false", " true"] {
        let request =
            read_parameters(some("lidar"), some("o3"), some("1"), None, None, some(text)).unwrap();
        assert!(!request.include_requirement_info);
    }
}

#[test]
fn template_is_answered_with_its_file_name() {
    let data = CDLData { filename: "a.nc".to_string(), cdl: "netcdf a {\n}".to_string() };
    match respond(Ok(data)) {
        CdlResponse::Template { filename, cdl } => {
            assert_eq!(filename, "a.nc");
            assert_eq!(cdl, "netcdf a {\n}");
        },
        CdlResponse::Failure { .. } => panic!("a template is no failure"),
    }
}

#[test]
fn error_messages() {
    assert_eq!(CdlError::FetchError("connection refused".to_string()).message(), "connection refused");
    let dimension = CdlError::MalformedRecord {
        record: RecordKind::Dimension,
        table: TableKind::DataProduct,
        table_name: "o3".to_string(),
    };
    assert_eq!(dimension.message(), "Can not find name for dimension in data product o3");
    let attribute = CdlError::MalformedRecord {
        record: RecordKind::GlobalAttribute,
        table: TableKind::DataProduct,
        table_name: "o3".to_string(),
    };
    assert_eq!(attribute.message(), "Can not find name for global attribute in data product o3");
    let deployment = CdlError::MalformedRecord {
        record: RecordKind::Dimension,
        table: TableKind::Deployment,
        table_name: "land".to_string(),
    };
    assert_eq!(deployment.message(), "Can not find name for dimension in deployment land");
    let variable = CdlError::MalformedRecord {
        record: RecordKind::Variable,
        table: TableKind::Deployment,
        table_name: "land".to_string(),
    };
    assert_eq!(variable.message(), "Can not find name for variable in deployment land");
}
