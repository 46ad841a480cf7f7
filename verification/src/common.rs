//! The global attributes that every data product shares.

use crate::netcdf_components::{global_attributes_view, GlobalAttribute, GlobalAttributeView};
use crate::text::{from_chars, to_chars};
use crate::tsv::{below_titles, lines, split_at, split_char, split_lines, texts};
use vstd::prelude::*;

verus! {

/// The global attributes common to all data products, in table order.
#[derive(Debug)]
pub struct Common {
    pub global_attributes: Vec<GlobalAttribute>,
}

/// What a [`Common`] holds.
pub struct CommonView {
    pub global_attributes: Seq<GlobalAttributeView>,
}

impl View for Common {
    type V = CommonView;

    open spec fn view(&self) -> CommonView {
        CommonView { global_attributes: global_attributes_view(self.global_attributes@) }
    }
}

/// The field at position `at` of a row, or nothing where the row is shorter.
pub open spec fn field_or_empty(fields: Seq<Seq<char>>, at: int) -> Seq<char> {
    if 0 <= at < fields.len() {
        fields[at]
    } else {
        Seq::empty()
    }
}

/// The global attribute that a row of the common table describes: its name
/// in the first field, its example in the third, its fixed value in the
/// fourth and its compliance rule in the fifth.
pub open spec fn common_attribute(row: Seq<char>) -> GlobalAttributeView {
    let fields = split_char(row, '\t');
    GlobalAttributeView {
        name: field_or_empty(fields, 0),
        value: field_or_empty(fields, 3),
        example: field_or_empty(fields, 2),
        compliance: field_or_empty(fields, 4),
    }
}

/// The global attributes that the text of the common table describes: one
/// for each line behind the title line.
pub open spec fn common_attributes_in(text: Seq<char>) -> Seq<GlobalAttributeView> {
    below_titles(lines(text)).map_values(|row: Seq<char>| common_attribute(row))
}

fn field_text(fields: &Vec<Vec<char>>, at: usize) -> (out: String)
    ensures
        out@ == field_or_empty(texts(fields@), at as int),
{
    if at < fields.len() {
        from_chars(&fields[at])
    } else {
        String::new()
    }
}

/// Reads the common global attributes from the text of their table.
pub fn read_common(text: &str) -> (out: Common)
    ensures
        out@.global_attributes == common_attributes_in(text@),
{
    let chars = to_chars(text);
    let rows = split_lines(&chars);
    let mut attributes: Vec<GlobalAttribute> = Vec::new();
    if rows.len() == 0 {
        assert(global_attributes_view(attributes@) =~= common_attributes_in(text@));
        return Common { global_attributes: attributes };
    }
    let ghost below = below_titles(lines(text@));
    let ghost wanted = common_attributes_in(text@);
    let mut i: usize = 1;
    assert(global_attributes_view(attributes@) =~= wanted.take(0));
    while i < rows.len()
        invariant
            1 <= i <= rows.len(),
            texts(rows@) == lines(text@),
            below == below_titles(lines(text@)),
            wanted == common_attributes_in(text@),
            global_attributes_view(attributes@) == wanted.take(i - 1),
        decreases rows.len() - i,
    {
        let fields = split_at(&rows[i], '\t');
        assert(below[i - 1] == rows[i as int]@);
        let attribute = GlobalAttribute {
            name: field_text(&fields, 0),
            value: field_text(&fields, 3),
            example: field_text(&fields, 2),
            compliance: field_text(&fields, 4),
        };
        assert(attribute@ == wanted[i - 1]);
        let ghost before = global_attributes_view(attributes@);
        attributes.push(attribute);
        assert(global_attributes_view(attributes@) =~= before.push(attribute@));
        assert(global_attributes_view(attributes@) =~= wanted.take(i as int));
        i = i + 1;
    }
    assert(wanted.take(i - 1) =~= wanted);
    Common { global_attributes: attributes }
}

} // verus!
