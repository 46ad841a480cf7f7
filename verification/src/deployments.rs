//! A deployment mode: the dimensions and variables that every file of a
//! platform kind must hold, and the rows of its tables.

use crate::error::{CdlError, CdlErrorView, RecordKind, TableKind};
use crate::netcdf_components::{
    dimensions_view, variables_view, Dimension, DimensionView, Variable, VariableView,
};
use crate::variable_tables::{
    every_block_is_named, every_row_is_read, read_variables, variables_in,
};
use vstd::prelude::*;

verus! {

/// A deployment mode with its schema, each list in table order.
#[derive(Debug)]
pub struct Deployment {
    pub name: String,
    pub variables: Vec<Variable>,
    pub dimensions: Vec<Dimension>,
}

/// What a [`Deployment`] holds.
pub struct DeploymentView {
    pub name: Seq<char>,
    pub variables: Seq<VariableView>,
    pub dimensions: Seq<DimensionView>,
}

impl View for Deployment {
    type V = DeploymentView;

    open spec fn view(&self) -> DeploymentView {
        DeploymentView {
            name: self.name@,
            variables: variables_view(self.variables@),
            dimensions: dimensions_view(self.dimensions@),
        }
    }
}

/// A row of the dimension table of a deployment mode.
#[derive(Debug)]
pub struct DimensionCV {
    pub name: Option<String>,
    pub length: Option<u32>,
    pub units: Option<String>,
}

/// A row of the variable table of a deployment mode.
#[derive(Debug)]
pub struct VariableCV {
    pub variable: Option<String>,
    pub attribute: Option<String>,
    pub value: Option<String>,
    pub compliance: Option<String>,
}

/// The error for a dimension row of the deployment mode `deployment` that
/// has no name.
pub open spec fn nameless_dimension(deployment: Seq<char>) -> CdlErrorView {
    CdlErrorView::MalformedRecord {
        record: RecordKind::Dimension,
        table: TableKind::Deployment,
        table_name: deployment,
    }
}

/// The dimension that a row with a name describes.
pub open spec fn dimension_of(record: DimensionCV) -> DimensionView {
    DimensionView { name: record.name->0@, length: record.length }
}

/// Turns the rows of the dimension table of the deployment mode `deployment`
/// into dimensions, in order. A row without a name is an error.
pub fn dimensions_from_records(records: &Vec<DimensionCV>, deployment: &str) -> (out: Result<
    Vec<Dimension>,
    CdlError,
>)
    ensures
        match out {
            Ok(dimensions) => {
                &&& forall|i: int| 0 <= i < records.len() ==> (#[trigger] records[i]).name is Some
                &&& dimensions_view(dimensions@) == records@.map_values(
                    |record: DimensionCV| dimension_of(record),
                )
            },
            Err(error) => {
                &&& exists|i: int| 0 <= i < records.len() && (#[trigger] records[i]).name is None
                &&& error@ == nameless_dimension(deployment@)
            },
        },
{
    let ghost wanted = records@.map_values(|record: DimensionCV| dimension_of(record));
    let mut dimensions: Vec<Dimension> = Vec::new();
    let mut i: usize = 0;
    assert(dimensions_view(dimensions@) =~= wanted.take(0));
    while i < records.len()
        invariant
            i <= records.len(),
            wanted == records@.map_values(|record: DimensionCV| dimension_of(record)),
            forall|k: int| 0 <= k < i ==> (#[trigger] records[k]).name is Some,
            dimensions_view(dimensions@) == wanted.take(i as int),
        decreases records.len() - i,
    {
        let record = &records[i];
        match &record.name {
            Some(name) => {
                let dimension = Dimension { name: name.clone(), length: record.length };
                let ghost before = dimensions_view(dimensions@);
                dimensions.push(dimension);
                assert(dimensions_view(dimensions@) =~= before.push(dimension@));
                assert(dimensions_view(dimensions@) =~= wanted.take(i + 1));
            },
            None => {
                return Err(
                    CdlError::MalformedRecord {
                        record: RecordKind::Dimension,
                        table: TableKind::Deployment,
                        table_name: deployment.to_owned(),
                    },
                );
            },
        }
        i = i + 1;
    }
    assert(wanted.take(i as int) =~= wanted);
    Ok(dimensions)
}

/// The error for a variable table of the deployment mode `deployment` that
/// cannot be turned into variables.
pub open spec fn nameless_variable(deployment: Seq<char>) -> CdlErrorView {
    CdlErrorView::MalformedRecord {
        record: RecordKind::Variable,
        table: TableKind::Deployment,
        table_name: deployment,
    }
}

/// Reads the variables of the deployment mode `deployment` from the text of
/// its variable table. A row that starts with an empty field and has fewer
/// than three fields is an error, and so is a block that gives attributes
/// and names no variable; no part of the variables is returned then.
pub fn read_deployment_variables(text: &str, deployment: &str) -> (out: Result<
    Vec<Variable>,
    CdlError,
>)
    ensures
        match out {
            Ok(variables) => {
                &&& every_row_is_read(TableKind::Deployment, text@)
                &&& every_block_is_named(TableKind::Deployment, text@)
                &&& variables_view(variables@) == variables_in(TableKind::Deployment, text@)
                &&& forall|i: int|
                    0 <= i < variables.len() ==> (#[trigger] variables[i]).well_formed()
            },
            Err(error) => {
                &&& !(every_row_is_read(TableKind::Deployment, text@) && every_block_is_named(
                    TableKind::Deployment,
                    text@,
                ))
                &&& error@ == nameless_variable(deployment@)
            },
        },
{
    read_variables(text, TableKind::Deployment, deployment)
}

} // verus!
