//! Renders CDL templates for NCAS instrument data products from the
//! controlled-vocabulary tables.

use crate::cdl::{cdl_text, make_cdl};
use crate::common::Common;
use crate::data_products::DataProduct;
use crate::deployments::Deployment;
use crate::error::CdlError;
use crate::filename::{compose_file_name, file_name_text, platform_text};
use crate::instruments::InstRecord;
use vstd::prelude::*;

pub mod cdl;
pub mod cdl_theorems;
pub mod common;
pub mod data_products;
pub mod deployments;
pub mod error;
pub mod filename;
pub mod flags;
pub mod instruments;
pub mod netcdf_components;
pub mod plain_rendering;
pub mod request;
pub mod sources;
pub mod text;
pub mod tsv;
pub mod variable_tables;

verus! {

/// A rendered template and the name of the file that it describes.
#[derive(Debug)]
pub struct CDLData {
    pub filename: String,
    pub cdl: String,
}

/// What a [`CDLData`] holds.
pub struct CDLDataView {
    pub filename: Seq<char>,
    pub cdl: Seq<char>,
}

impl View for CDLData {
    type V = CDLDataView;

    open spec fn view(&self) -> CDLDataView {
        CDLDataView { filename: self.filename@, cdl: self.cdl@ }
    }
}

/// Names and renders the template of a data product of an instrument in a
/// deployment mode, from the entities that the vocabulary tables gave. The
/// template is rendered under the file name that is returned with it.
pub fn build_cdl(
    common: Common,
    instrument_record: InstRecord,
    data_product: DataProduct,
    deployment: Deployment,
    start_date: &str,
    include_requirement_info: bool,
) -> (out: Result<CDLData, CdlError>)
    ensures
        out matches Ok(data) && data@.filename == file_name_text(
            instrument_record@.instrument_name,
            platform_text(instrument_record@.mobile_fixed),
            start_date@,
            data_product@.name,
        ) && data@.cdl == cdl_text(
            data@.filename,
            common@,
            deployment@,
            data_product@,
            instrument_record@,
            include_requirement_info,
        ),
{
    let file_name = compose_file_name(&instrument_record, start_date, data_product.name.as_str());
    match make_cdl(
        file_name.clone(),
        common,
        deployment,
        data_product,
        instrument_record,
        include_requirement_info,
    ) {
        Ok(cdl) => Ok(CDLData { filename: file_name, cdl }),
        Err(error) => Err(error),
    }
}

} // verus!
