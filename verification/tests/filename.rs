use ncas_netcdf::filename::{
    compose_file_name, file_name_on_platform, normalize_platform, platform_part,
};
use ncas_netcdf::instruments::InstRecord;

fn platform_by_splitting(entry: Option<&str>) -> String {
    let platform = entry.unwrap_or("fixed - unknown").to_string();
    if platform.contains("fixed - ") {
        platform.split(" - ").nth(1).unwrap_or("unknown").to_lowercase()
    } else {
        platform.to_lowercase()
    }
}

#[test]
fn platform_behind_fixed_is_taken() {
    assert_eq!(normalize_platform(&Some("fixed - Land".to_string())), "land");
    assert_eq!(platform_part(&Some("fixed - Land".to_string())), "Land");
}

#[test]
fn platform_without_fixed_is_taken_whole() {
    assert_eq!(normalize_platform(&Some("Mobile".to_string())), "mobile");
    assert_eq!(normalize_platform(&Some("Fixed - Land".to_string())), "fixed - land");
    assert_eq!(platform_part(&Some("Fixed - Land".to_string())), "Fixed - Land");
}

#[test]
fn platform_of_an_instrument_without_entry_is_unknown() {
    assert_eq!(normalize_platform(&None), "unknown");
    assert_eq!(platform_part(&None), "unknown");
}

#[test]
fn platform_ends_at_the_next_dash() {
    assert_eq!(normalize_platform(&Some("fixed - Ship - North".to_string())), "ship");
    assert_eq!(normalize_platform(&Some("fixed -  - x".to_string())), "");
    assert_eq!(normalize_platform(&Some("fixed - ".to_string())), "");
}

#[test]
fn platform_is_what_follows_the_first_dash() {
    assert_eq!(normalize_platform(&Some("a - B - fixed - c".to_string())), "b");
    assert_eq!(normalize_platform(&Some("mobile/fixed - Van".to_string())), "van");
}

#[test]
fn platform_agrees_with_splitting() {
    for entry in [
        "fixed - Land",
        "Fixed - Land",
        "fixed - ",
        "fixed -",
        " - fixed - x",
        "a - b - fixed - c - d",
        "fixed - - - ",
        "",
        "MOBILE",
        "fixed - ÉCOLE",
    ] {
        assert_eq!(normalize_platform(&Some(entry.to_string())), platform_by_splitting(Some(entry)));
    }
    assert_eq!(normalize_platform(&None), platform_by_splitting(None));
}

#[test]
fn file_name_joins_its_parts() {
    let name = file_name_on_platform(
        &Some("ncas-ceilometer-3".to_string()),
        "land",
        "20200102",
        "aerosol-backscatter",
    );
    assert_eq!(name, "ncas-ceilometer-3_land_20200102_aerosol-backscatter_v1.0.nc");
}

#[test]
fn file_name_without_instrument_name_is_unknown() {
    let name = file_name_on_platform(&None, "ship", "2020", "o3");
    assert_eq!(name, "unknown_ship_2020_o3_v1.0.nc");
}

#[test]
fn file_name_of_a_record() {
    let mut record = InstRecord::unknown("ncas-aws-7".to_string());
    record.mobile_fixed = Some("fixed - SHIP".to_string());
    assert_eq!(
        compose_file_name(&record, "20230506", "surface-met"),
        "ncas-aws-7_ship_20230506_surface-met_v1.0.nc"
    );
    let unknown = InstRecord::unknown("x".to_string());
    assert_eq!(compose_file_name(&unknown, "d", "p"), "x_unknown_d_p_v1.0.nc");
}
