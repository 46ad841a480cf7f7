//! The ways in which a request for a CDL template fails, each with the
//! message that is shown to the caller.

use crate::netcdf_components::optional_text;
use vstd::prelude::*;

verus! {

/// A query parameter that a request must give.
#[derive(Debug, Clone, Copy, PartialEq, Eq, Structural)]
pub enum Parameter {
    Instrument,
    DataProduct,
    StartDate,
}

/// The kind of vocabulary row that must carry a name.
#[derive(Debug, Clone, Copy, PartialEq, Eq, Structural)]
pub enum RecordKind {
    Dimension,
    GlobalAttribute,
    Variable,
}

/// The kind of table a vocabulary row belongs to.
#[derive(Debug, Clone, Copy, PartialEq, Eq, Structural)]
pub enum TableKind {
    DataProduct,
    Deployment,
}

/// Why no CDL template was produced.
#[derive(Debug)]
pub enum CdlError {
    /// A required query parameter is absent or empty.
    MissingParameter(Parameter),
    /// A vocabulary table could not be fetched or read; the text says why.
    FetchError(String),
    /// A row or a block of the table `table_name` has no name.
    MalformedRecord { record: RecordKind, table: TableKind, table_name: String },
}

/// What a [`CdlError`] holds.
pub enum CdlErrorView {
    MissingParameter(Parameter),
    FetchError(Seq<char>),
    MalformedRecord { record: RecordKind, table: TableKind, table_name: Seq<char> },
}

impl View for CdlError {
    type V = CdlErrorView;

    open spec fn view(&self) -> CdlErrorView {
        match self {
            CdlError::MissingParameter(parameter) => CdlErrorView::MissingParameter(*parameter),
            CdlError::FetchError(reason) => CdlErrorView::FetchError(reason@),
            CdlError::MalformedRecord { record, table, table_name } => {
                CdlErrorView::MalformedRecord {
                    record: *record,
                    table: *table,
                    table_name: table_name@,
                }
            },
        }
    }
}

/// The name of a parameter as it opens an error message.
pub open spec fn parameter_title(parameter: Parameter) -> Seq<char> {
    match parameter {
        Parameter::Instrument => "Instrument"@,
        Parameter::DataProduct => "Data product"@,
        Parameter::StartDate => "Start date"@,
    }
}

/// The words for a kind of row in an error message.
pub open spec fn record_words(record: RecordKind) -> Seq<char> {
    match record {
        RecordKind::Dimension => "dimension"@,
        RecordKind::GlobalAttribute => "global attribute"@,
        RecordKind::Variable => "variable"@,
    }
}

/// The words for a kind of table in an error message.
pub open spec fn table_words(table: TableKind) -> Seq<char> {
    match table {
        TableKind::DataProduct => "data product"@,
        TableKind::Deployment => "deployment"@,
    }
}

/// The message of an error.
pub open spec fn error_message(error: CdlErrorView) -> Seq<char> {
    match error {
        CdlErrorView::MissingParameter(parameter) => parameter_title(parameter)
            + " parameter is required"@,
        CdlErrorView::FetchError(reason) => reason,
        CdlErrorView::MalformedRecord { record, table, table_name } => "Can not find name for "@
            + record_words(record) + " in "@ + table_words(table) + " "@ + table_name,
    }
}

impl CdlError {
    /// The message that tells the caller what went wrong.
    pub fn message(&self) -> (out: String)
        ensures
            out@ == error_message(self@),
    {
        match self {
            CdlError::MissingParameter(parameter) => {
                let mut out = match parameter {
                    Parameter::Instrument => String::from_str("Instrument"),
                    Parameter::DataProduct => String::from_str("Data product"),
                    Parameter::StartDate => String::from_str("Start date"),
                };
                out.append(" parameter is required");
                out
            },
            CdlError::FetchError(reason) => reason.clone(),
            CdlError::MalformedRecord { record, table, table_name } => {
                let mut out = String::from_str("Can not find name for ");
                match record {
                    RecordKind::Dimension => out.append("dimension"),
                    RecordKind::GlobalAttribute => out.append("global attribute"),
                    RecordKind::Variable => out.append("variable"),
                }
                out.append(" in ");
                match table {
                    TableKind::DataProduct => out.append("data product"),
                    TableKind::Deployment => out.append("deployment"),
                }
                out.append(" ");
                out.append(table_name.as_str());
                out
            },
        }
    }
}

/// What is reported of a table whose rows were read in order: the error of
/// turning the rows before the first unreadable one into entities comes
/// first, then the reason why that row could not be read, as a fetch error;
/// where there is neither, the entities.
pub open spec fn reported<T>(converted: Result<T, CdlError>, stopped: Option<Seq<char>>) -> Result<
    T,
    CdlErrorView,
> {
    match converted {
        Err(error) => Err(error@),
        Ok(entities) => match stopped {
            Some(reason) => Err(CdlErrorView::FetchError(reason)),
            None => Ok(entities),
        },
    }
}

/// Decides what is reported of a table whose rows were read in order, up to
/// the first row that could not be read; `stopped` holds the reason for that
/// row.
pub fn in_order<T>(converted: Result<T, CdlError>, stopped: Option<String>) -> (out: Result<
    T,
    CdlError,
>)
    ensures
        match out {
            Ok(entities) => reported(converted, optional_text(stopped))
                == Ok::<T, CdlErrorView>(entities),
            Err(error) => reported(converted, optional_text(stopped))
                == Err::<T, CdlErrorView>(error@),
        },
{
    match converted {
        Err(error) => Err(error),
        Ok(entities) => match stopped {
            Some(reason) => Err(CdlError::FetchError(reason)),
            None => Ok(entities),
        },
    }
}

} // verus!
