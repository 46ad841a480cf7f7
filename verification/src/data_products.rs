//! A data product: the dimensions, variables and global attributes that are
//! specific to one kind of measurement, and the rows of its tables.

use crate::error::{CdlError, CdlErrorView, RecordKind, TableKind};
use crate::netcdf_components::{
    dimensions_view, global_attributes_view, variables_view, Dimension, DimensionView, GlobalAttribute, GlobalAttributeView, Variable, VariableView,
};
use crate::variable_tables::{
    every_block_is_named, lemma_data_product_table_is_read, read_variables, variables_in,
};
use vstd::prelude::*;

verus! {

/// A data product with its own schema, each list in table order.
#[derive(Debug)]
pub struct DataProduct {
    pub name: String,
    pub variables: Vec<Variable>,
    pub dimensions: Vec<Dimension>,
    pub global_attributes: Vec<GlobalAttribute>,
}

/// What a [`DataProduct`] holds.
pub struct DataProductView {
    pub name: Seq<char>,
    pub variables: Seq<VariableView>,
    pub dimensions: Seq<DimensionView>,
    pub global_attributes: Seq<GlobalAttributeView>,
}

impl View for DataProduct {
    type V = DataProductView;

    open spec fn view(&self) -> DataProductView {
        DataProductView {
            name: self.name@,
            variables: variables_view(self.variables@),
            dimensions: dimensions_view(self.dimensions@),
            global_attributes: global_attributes_view(self.global_attributes@),
        }
    }
}

/// A row of the dimension table of a data product.
#[derive(Debug)]
pub struct DimensionCV {
    pub name: Option<String>,
    pub length: Option<u32>,
}

/// A row of the global attribute table of a data product.
#[derive(Debug)]
pub struct GlobalAttributeCV {
    pub name: Option<String>,
    pub description: Option<String>,
    pub example: Option<String>,
    pub fixed_value: Option<String>,
    pub compliance_checking_rules: Option<String>,
    pub convention_providence: Option<String>,
}

/// A row of the variable table of a data product.
#[derive(Debug)]
pub struct VariableCV {
    pub variable: Option<String>,
    pub attribute: Option<String>,
    pub value: Option<String>,
    pub proposed_name: Option<String>,
    pub example_value: Option<String>,
}

/// The error for a row of a table of the data product `data_product` that
/// has no name.
pub open spec fn nameless(record: RecordKind, data_product: Seq<char>) -> CdlErrorView {
    CdlErrorView::MalformedRecord { record, table: TableKind::DataProduct, table_name: data_product }
}

/// The dimension that a row with a name describes.
pub open spec fn dimension_of(record: DimensionCV) -> DimensionView {
    DimensionView { name: record.name->0@, length: record.length }
}

/// The text of an optional field, empty where the field is absent.
pub open spec fn text_or_empty(field: Option<String>) -> Seq<char> {
    match field {
        Some(text) => text@,
        None => Seq::empty(),
    }
}

/// The global attribute that a row with a name describes: absent fields are
/// empty.
pub open spec fn global_attribute_of(record: GlobalAttributeCV) -> GlobalAttributeView {
    GlobalAttributeView {
        name: record.name->0@,
        value: text_or_empty(record.fixed_value),
        example: text_or_empty(record.example),
        compliance: text_or_empty(record.compliance_checking_rules),
    }
}

fn or_empty(field: &Option<String>) -> (out: String)
    ensures
        out@ == text_or_empty(*field),
{
    match field {
        Some(text) => text.clone(),
        None => String::new(),
    }
}

/// Turns the rows of the dimension table of the data product `data_product`
/// into dimensions, in order. A row without a name is an error.
pub fn dimensions_from_records(records: &Vec<DimensionCV>, data_product: &str) -> (out: Result<
    Vec<Dimension>,
    CdlError,
>)
    ensures
        match out {
            Ok(dimensions) => {
                &&& forall|i: int| 0 <= i < records.len() ==> (#[trigger] records[i]).name is Some
                &&& dimensions_view(dimensions@) == records@.map_values(
                    |record: DimensionCV| dimension_of(record),
                )
            },
            Err(error) => {
                &&& exists|i: int| 0 <= i < records.len() && (#[trigger] records[i]).name is None
                &&& error@ == nameless(RecordKind::Dimension, data_product@)
            },
        },
{
    let ghost wanted = records@.map_values(|record: DimensionCV| dimension_of(record));
    let mut dimensions: Vec<Dimension> = Vec::new();
    let mut i: usize = 0;
    assert(dimensions_view(dimensions@) =~= wanted.take(0));
    while i < records.len()
        invariant
            i <= records.len(),
            wanted == records@.map_values(|record: DimensionCV| dimension_of(record)),
            forall|k: int| 0 <= k < i ==> (#[trigger] records[k]).name is Some,
            dimensions_view(dimensions@) == wanted.take(i as int),
        decreases records.len() - i,
    {
        let record = &records[i];
        match &record.name {
            Some(name) => {
                let dimension = Dimension { name: name.clone(), length: record.length };
                let ghost before = dimensions_view(dimensions@);
                dimensions.push(dimension);
                assert(dimensions_view(dimensions@) =~= before.push(dimension@));
                assert(dimensions_view(dimensions@) =~= wanted.take(i + 1));
            },
            None => {
                return Err(
                    CdlError::MalformedRecord {
                        record: RecordKind::Dimension,
                        table: TableKind::DataProduct,
                        table_name: data_product.to_owned(),
                    },
                );
            },
        }
        i = i + 1;
    }
    assert(wanted.take(i as int) =~= wanted);
    Ok(dimensions)
}

/// Turns the rows of the global attribute table of the data product
/// `data_product` into global attributes, in order. A row without a name is
/// an error.
pub fn global_attributes_from_records(
    records: &Vec<GlobalAttributeCV>,
    data_product: &str,
) -> (out: Result<Vec<GlobalAttribute>, CdlError>)
    ensures
        match out {
            Ok(attributes) => {
                &&& forall|i: int| 0 <= i < records.len() ==> (#[trigger] records[i]).name is Some
                &&& global_attributes_view(attributes@) == records@.map_values(
                    |record: GlobalAttributeCV| global_attribute_of(record),
                )
            },
            Err(error) => {
                &&& exists|i: int| 0 <= i < records.len() && (#[trigger] records[i]).name is None
                &&& error@ == nameless(RecordKind::GlobalAttribute, data_product@)
            },
        },
{
    let ghost wanted = records@.map_values(
        |record: GlobalAttributeCV| global_attribute_of(record),
    );
    let mut attributes: Vec<GlobalAttribute> = Vec::new();
    let mut i: usize = 0;
    assert(global_attributes_view(attributes@) =~= wanted.take(0));
    while i < records.len()
        invariant
            i <= records.len(),
            wanted == records@.map_values(|record: GlobalAttributeCV| global_attribute_of(record)),
            forall|k: int| 0 <= k < i ==> (#[trigger] records[k]).name is Some,
            global_attributes_view(attributes@) == wanted.take(i as int),
        decreases records.len() - i,
    {
        let record = &records[i];
        match &record.name {
            Some(name) => {
                let attribute = GlobalAttribute {
                    name: name.clone(),
                    value: or_empty(&record.fixed_value),
                    example: or_empty(&record.example),
                    compliance: or_empty(&record.compliance_checking_rules),
                };
                let ghost before = global_attributes_view(attributes@);
                attributes.push(attribute);
                assert(global_attributes_view(attributes@) =~= before.push(attribute@));
                assert(global_attributes_view(attributes@) =~= wanted.take(i + 1));
            },
            None => {
                return Err(
                    CdlError::MalformedRecord {
                        record: RecordKind::GlobalAttribute,
                        table: TableKind::DataProduct,
                        table_name: data_product.to_owned(),
                    },
                );
            },
        }
        i = i + 1;
    }
    assert(wanted.take(i as int) =~= wanted);
    Ok(attributes)
}

/// Reads the variables of the data product `data_product` from the text of
/// its variable table. A block that gives attributes and names no variable
/// is an error, and no part of the variables is returned.
pub fn read_data_product_variables(text: &str, data_product: &str) -> (out: Result<
    Vec<Variable>,
    CdlError,
>)
    ensures
        match out {
            Ok(variables) => {
                &&& every_block_is_named(TableKind::DataProduct, text@)
                &&& variables_view(variables@) == variables_in(TableKind::DataProduct, text@)
                &&& forall|i: int|
                    0 <= i < variables.len() ==> (#[trigger] variables[i]).well_formed()
            },
            Err(error) => {
                &&& !every_block_is_named(TableKind::DataProduct, text@)
                &&& error@ == nameless(RecordKind::Variable, data_product@)
            },
        },
{
    proof {
        lemma_data_product_table_is_read(text@);
    }
    read_variables(text, TableKind::DataProduct, data_product)
}

} // verus!
