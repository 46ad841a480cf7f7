//! A request for a template: its parameters, their defaults, and the answer
//! that goes back to the caller.

use crate::error::{error_message, CdlError, CdlErrorView, Parameter};
use crate::netcdf_components::optional_text;
use crate::text::same_text;
use crate::{CDLData, CDLDataView};
use vstd::prelude::*;

verus! {

/// The parameters of a request, with the defaults filled in.
#[derive(Debug)]
pub struct CdlRequest {
    pub instrument: String,
    pub data_product: String,
    pub start_date: String,
    pub deployment: String,
    pub tag: String,
    pub include_requirement_info: bool,
}

/// What a [`CdlRequest`] holds.
pub struct CdlRequestView {
    pub instrument: Seq<char>,
    pub data_product: Seq<char>,
    pub start_date: Seq<char>,
    pub deployment: Seq<char>,
    pub tag: Seq<char>,
    pub include_requirement_info: bool,
}

impl View for CdlRequest {
    type V = CdlRequestView;

    open spec fn view(&self) -> CdlRequestView {
        CdlRequestView {
            instrument: self.instrument@,
            data_product: self.data_product@,
            start_date: self.start_date@,
            deployment: self.deployment@,
            tag: self.tag@,
            include_requirement_info: self.include_requirement_info,
        }
    }
}

/// Whether a required parameter is there and not empty.
pub open spec fn given(parameter: Option<Seq<char>>) -> bool {
    parameter matches Some(text) && text.len() > 0
}

/// The value of an optional parameter, or its default.
pub open spec fn or_default(parameter: Option<Seq<char>>, default: Seq<char>) -> Seq<char> {
    match parameter {
        Some(text) => text,
        None => default,
    }
}

/// What the parameters of a query ask for: the first required parameter
/// that is missing, in the order instrument, data product, start date, or
/// the request with `land` as the default deployment mode, `v2.1.0` as the
/// default vocabulary version, and requirement information only where it is
/// asked for with `true`.
pub open spec fn requested(
    instrument: Option<Seq<char>>,
    data_product: Option<Seq<char>>,
    start_date: Option<Seq<char>>,
    deployment_mode: Option<Seq<char>>,
    ncas_general_version: Option<Seq<char>>,
    include_requirement_info: Option<Seq<char>>,
) -> Result<CdlRequestView, CdlErrorView> {
    if !given(instrument) {
        Err(CdlErrorView::MissingParameter(Parameter::Instrument))
    } else if !given(data_product) {
        Err(CdlErrorView::MissingParameter(Parameter::DataProduct))
    } else if !given(start_date) {
        Err(CdlErrorView::MissingParameter(Parameter::StartDate))
    } else {
        Ok(
            CdlRequestView {
                instrument: instrument->0,
                data_product: data_product->0,
                start_date: start_date->0,
                deployment: or_default(deployment_mode, "land"@),
                tag: or_default(ncas_general_version, "v2.1.0"@),
                include_requirement_info: include_requirement_info == Some("true"@),
            },
        )
    }
}

/// What a result of reading the parameters holds.
pub open spec fn request_view(result: Result<CdlRequest, CdlError>) -> Result<
    CdlRequestView,
    CdlErrorView,
> {
    match result {
        Ok(request) => Ok(request@),
        Err(error) => Err(error@),
    }
}

fn required(parameter: Option<String>, which: Parameter) -> (out: Result<String, CdlError>)
    ensures
        match out {
            Ok(text) => given(optional_text(parameter)) && Some(text@) == optional_text(parameter),
            Err(error) => !given(optional_text(parameter)) && error@
                == CdlErrorView::MissingParameter(which),
        },
{
    match parameter {
        Some(text) => {
            if text.as_str().is_empty() {
                Err(CdlError::MissingParameter(which))
            } else {
                Ok(text)
            }
        },
        None => Err(CdlError::MissingParameter(which)),
    }
}

fn optional(parameter: Option<String>, default: &str) -> (out: String)
    ensures
        out@ == or_default(optional_text(parameter), default@),
{
    match parameter {
        Some(text) => text,
        None => default.to_owned(),
    }
}

/// Reads the parameters of a query.
pub fn read_parameters(
    instrument: Option<String>,
    data_product: Option<String>,
    start_date: Option<String>,
    deployment_mode: Option<String>,
    ncas_general_version: Option<String>,
    include_requirement_info: Option<String>,
) -> (out: Result<CdlRequest, CdlError>)
    ensures
        request_view(out) == requested(
            optional_text(instrument),
            optional_text(data_product),
            optional_text(start_date),
            optional_text(deployment_mode),
            optional_text(ncas_general_version),
            optional_text(include_requirement_info),
        ),
{
    let tag = optional(ncas_general_version, "v2.1.0");
    let deployment = optional(deployment_mode, "land");
    let annotate = match &include_requirement_info {
        Some(text) => same_text(text.as_str(), "true"),
        None => false,
    };
    let instrument = match required(instrument, Parameter::Instrument) {
        Ok(text) => text,
        Err(error) => {
            return Err(error);
        },
    };
    let data_product = match required(data_product, Parameter::DataProduct) {
        Ok(text) => text,
        Err(error) => {
            return Err(error);
        },
    };
    let start_date = match required(start_date, Parameter::StartDate) {
        Ok(text) => text,
        Err(error) => {
            return Err(error);
        },
    };
    Ok(
        CdlRequest {
            instrument,
            data_product,
            start_date,
            deployment,
            tag,
            include_requirement_info: annotate,
        },
    )
}

/// The answer to a request: the template with its file name, or the
/// message of the error, never both.
#[derive(Debug)]
pub enum CdlResponse {
    Template { filename: String, cdl: String },
    Failure { error: String },
}

/// What a [`CdlResponse`] holds.
pub enum CdlResponseView {
    Template { filename: Seq<char>, cdl: Seq<char> },
    Failure { error: Seq<char> },
}

impl View for CdlResponse {
    type V = CdlResponseView;

    open spec fn view(&self) -> CdlResponseView {
        match self {
            CdlResponse::Template { filename, cdl } => CdlResponseView::Template {
                filename: filename@,
                cdl: cdl@,
            },
            CdlResponse::Failure { error } => CdlResponseView::Failure { error: error@ },
        }
    }
}

/// The answer to the outcome of a request.
pub open spec fn answer(outcome: Result<CDLDataView, CdlErrorView>) -> CdlResponseView {
    match outcome {
        Ok(data) => CdlResponseView::Template { filename: data.filename, cdl: data.cdl },
        Err(error) => CdlResponseView::Failure { error: error_message(error) },
    }
}

/// What the outcome of a request holds.
pub open spec fn outcome_view(outcome: Result<CDLData, CdlError>) -> Result<
    CDLDataView,
    CdlErrorView,
> {
    match outcome {
        Ok(data) => Ok(data@),
        Err(error) => Err(error@),
    }
}

/// Turns the outcome of a request into its answer.
pub fn respond(outcome: Result<CDLData, CdlError>) -> (out: CdlResponse)
    ensures
        out@ == answer(outcome_view(outcome)),
{
    match outcome {
        Ok(data) => CdlResponse::Template { filename: data.filename, cdl: data.cdl },
        Err(error) => CdlResponse::Failure { error: error.message() },
    }
}

} // verus!
