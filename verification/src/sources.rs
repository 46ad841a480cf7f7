//! Where the vocabulary tables are published.

use vstd::prelude::*;

verus! {

/// The tables of a data product.
#[derive(Debug, Clone, Copy, PartialEq, Eq, Structural)]
pub enum ProductTable {
    GlobalAttributes,
    Variables,
    Dimensions,
}

/// The tables of a deployment mode.
#[derive(Debug, Clone, Copy, PartialEq, Eq, Structural)]
pub enum DeploymentTable {
    Variables,
    Dimensions,
}

/// The address of the table directory of the vocabulary version `tag`.
pub open spec fn tables_address(tag: Seq<char>) -> Seq<char> {
    "https://raw.githubusercontent.com/ncasuk/AMF_CVs/"@ + tag + "/product-definitions/tsv/"@
}

/// The file name of a table of a data product.
pub open spec fn product_table_file(table: ProductTable) -> Seq<char> {
    match table {
        ProductTable::GlobalAttributes => "/global-attributes-specific.tsv"@,
        ProductTable::Variables => "/variables-specific.tsv"@,
        ProductTable::Dimensions => "/dimensions-specific.tsv"@,
    }
}

/// The start of the file name of a table of a deployment mode.
pub open spec fn deployment_table_file(table: DeploymentTable) -> Seq<char> {
    match table {
        DeploymentTable::Variables => "_common/variables-"@,
        DeploymentTable::Dimensions => "_common/dimensions-"@,
    }
}

fn tables_url(tag: &str) -> (out: String)
    ensures
        out@ == tables_address(tag@),
{
    let mut out = String::from_str("https://raw.githubusercontent.com/ncasuk/AMF_CVs/");
    out.append(tag);
    out.append("/product-definitions/tsv/");
    out
}

/// The address of the table of the common global attributes in the
/// vocabulary version `tag`.
pub fn common_table_url(tag: &str) -> (out: String)
    ensures
        out@ == tables_address(tag@) + "_common/global-attributes.tsv"@,
{
    let mut out = tables_url(tag);
    out.append("_common/global-attributes.tsv");
    out
}

/// The address of a table of the data product `data_product` in the
/// vocabulary version `tag`.
pub fn product_table_url(tag: &str, data_product: &str, table: ProductTable) -> (out: String)
    ensures
        out@ == tables_address(tag@) + data_product@ + product_table_file(table),
{
    let mut out = tables_url(tag);
    out.append(data_product);
    match table {
        ProductTable::GlobalAttributes => out.append("/global-attributes-specific.tsv"),
        ProductTable::Variables => out.append("/variables-specific.tsv"),
        ProductTable::Dimensions => out.append("/dimensions-specific.tsv"),
    }
    out
}

/// The address of a table of the deployment mode `deployment` in the
/// vocabulary version `tag`.
pub fn deployment_table_url(tag: &str, deployment: &str, table: DeploymentTable) -> (out: String)
    ensures
        out@ == tables_address(tag@) + deployment_table_file(table) + deployment@ + ".tsv"@,
{
    let mut out = tables_url(tag);
    match table {
        DeploymentTable::Variables => out.append("_common/variables-"),
        DeploymentTable::Dimensions => out.append("_common/dimensions-"),
    }
    out.append(deployment);
    out.append(".tsv");
    out
}

/// The address of the instrument table, which has no versions.
pub fn instrument_table_url() -> (out: String)
    ensures
        out@
            == "https://raw.githubusercontent.com/ncasuk/ncas-data-instrument-vocabs/refs/heads/main/product-definitions/tsv/_instrument_vocabs/ncas-instrument-name-and-descriptors.tsv"@,
{
    String::from_str(
        "https://raw.githubusercontent.com/ncasuk/ncas-data-instrument-vocabs/refs/heads/main/product-definitions/tsv/_instrument_vocabs/ncas-instrument-name-and-descriptors.tsv",
    )
}

} // verus!
