//! The instrument table: one record per instrument, and the choice of the
//! record that describes a named instrument.

use crate::netcdf_components::optional_text;
use crate::text::same_text;
use vstd::prelude::*;

verus! {

/// One row of the instrument table. A field is absent where the row leaves
/// the column empty, or where no row describes the instrument.
#[derive(Debug)]
pub struct InstRecord {
    pub instrument: Option<String>,
    pub manufacturer: Option<String>,
    pub model_no: Option<String>,
    pub serial_number: Option<String>,
    pub old_instrument_name: Option<String>,
    pub instrument_name: Option<String>,
    pub data_product: Option<String>,
    pub mobile_fixed: Option<String>,
    pub host: Option<String>,
    pub scientist: Option<String>,
    pub category: Option<String>,
    pub descriptor: Option<String>,
    pub owner: Option<String>,
    pub pid: Option<String>,
}

/// What an [`InstRecord`] holds.
pub struct InstRecordView {
    pub instrument: Option<Seq<char>>,
    pub manufacturer: Option<Seq<char>>,
    pub model_no: Option<Seq<char>>,
    pub serial_number: Option<Seq<char>>,
    pub old_instrument_name: Option<Seq<char>>,
    pub instrument_name: Option<Seq<char>>,
    pub data_product: Option<Seq<char>>,
    pub mobile_fixed: Option<Seq<char>>,
    pub host: Option<Seq<char>>,
    pub scientist: Option<Seq<char>>,
    pub category: Option<Seq<char>>,
    pub descriptor: Option<Seq<char>>,
    pub owner: Option<Seq<char>>,
    pub pid: Option<Seq<char>>,
}

impl View for InstRecord {
    type V = InstRecordView;

    open spec fn view(&self) -> InstRecordView {
        InstRecordView {
            instrument: optional_text(self.instrument),
            manufacturer: optional_text(self.manufacturer),
            model_no: optional_text(self.model_no),
            serial_number: optional_text(self.serial_number),
            old_instrument_name: optional_text(self.old_instrument_name),
            instrument_name: optional_text(self.instrument_name),
            data_product: optional_text(self.data_product),
            mobile_fixed: optional_text(self.mobile_fixed),
            host: optional_text(self.host),
            scientist: optional_text(self.scientist),
            category: optional_text(self.category),
            descriptor: optional_text(self.descriptor),
            owner: optional_text(self.owner),
            pid: optional_text(self.pid),
        }
    }
}

/// The record of an instrument that the table does not describe: it holds
/// the name that was asked for and nothing else.
pub open spec fn unknown_instrument(instrument_name: Seq<char>) -> InstRecordView {
    InstRecordView {
        instrument: None,
        manufacturer: None,
        model_no: None,
        serial_number: None,
        old_instrument_name: None,
        instrument_name: Some(instrument_name),
        data_product: None,
        mobile_fixed: None,
        host: None,
        scientist: None,
        category: None,
        descriptor: None,
        owner: None,
        pid: None,
    }
}

/// The record that describes the instrument called `instrument_name`: the
/// last row of the table with that name, or the record of an unknown
/// instrument where no row has it.
pub open spec fn selected_record(
    records: Seq<InstRecordView>,
    instrument_name: Seq<char>,
) -> InstRecordView
    decreases records.len(),
{
    if records.len() == 0 {
        unknown_instrument(instrument_name)
    } else if records.last().instrument_name == Some(instrument_name) {
        records.last()
    } else {
        selected_record(records.drop_last(), instrument_name)
    }
}

/// What a list of instrument records holds.
pub open spec fn records_view(records: Seq<InstRecord>) -> Seq<InstRecordView> {
    records.map_values(|record: InstRecord| record@)
}

impl InstRecord {
    /// The record of an instrument that the table does not describe.
    pub fn unknown(instrument_name: String) -> (record: InstRecord)
        ensures
            record@ == unknown_instrument(instrument_name@),
    {
        InstRecord {
            instrument: None,
            manufacturer: None,
            model_no: None,
            serial_number: None,
            old_instrument_name: None,
            instrument_name: Some(instrument_name),
            data_product: None,
            mobile_fixed: None,
            host: None,
            scientist: None,
            category: None,
            descriptor: None,
            owner: None,
            pid: None,
        }
    }

    /// Whether the record describes the instrument called `instrument_name`.
    pub fn describes(&self, instrument_name: &str) -> (same: bool)
        ensures
            same == (self@.instrument_name == Some(instrument_name@)),
    {
        match &self.instrument_name {
            Some(name) => same_text(name.as_str(), instrument_name),
            None => false,
        }
    }
}

/// Picks the record of the instrument called `instrument_name` from the rows
/// of the instrument table. An instrument that the table does not describe
/// is no error: its record holds the name alone.
pub fn select_instrument(records: Vec<InstRecord>, instrument_name: String) -> (record:
    InstRecord)
    ensures
        record@ == selected_record(records_view(records@), instrument_name@),
{
    let ghost all = records_view(records@);
    let mut left = records;
    while left.len() > 0
        invariant
            all == records_view(records@),
            selected_record(records_view(left@), instrument_name@) == selected_record(
                all,
                instrument_name@,
            ),
        decreases left.len(),
    {
        let ghost before = records_view(left@);
        let last = left.pop().unwrap();
        assert(before.last() == last@);
        assert(before.drop_last() =~= records_view(left@));
        if last.describes(instrument_name.as_str()) {
            return last;
        }
    }
    assert(records_view(left@) =~= Seq::empty());
    InstRecord::unknown(instrument_name)
}

} // verus!
