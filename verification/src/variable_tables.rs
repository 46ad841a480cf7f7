//! Reading the variables of a data product or of a deployment mode from the
//! text of their table.
//!
//! Behind its title line a table holds blocks, set apart by empty lines. A
//! block describes one variable: a row names it, and each further row gives
//! one attribute in tab-separated fields. A block that gives attributes
//! and names no variable makes the table unusable.

use crate::error::{CdlError, CdlErrorView, RecordKind, TableKind};
use crate::flags::{
    flag_meanings_text, flag_values_text, reformat_flag_meanings, reformat_flag_values,
};
use crate::netcdf_components::{variables_view, with_attribute, Variable, VariableView};
use crate::text::{from_chars, same_text, to_chars};
use crate::tsv::{
    below_titles, cut_blocks, join_below_titles, join_lines, lines, split_at, split_blocks,
    split_char, split_lines, texts,
};
use vstd::prelude::*;

verus! {

/// The value of an attribute as it is stored: flag values and flag meanings
/// are rewritten, every other value is kept.
pub open spec fn stored_value(name: Seq<char>, value: Seq<char>) -> Seq<char> {
    if name == "flag_values"@ {
        flag_values_text(value)
    } else if name == "flag_meanings"@ {
        flag_meanings_text(value)
    } else {
        value
    }
}

/// The name and the attributes of the variable that a block describes, as
/// far as its rows have been read.
pub struct Block {
    pub name: Seq<char>,
    pub attributes: Seq<(Seq<char>, Seq<char>)>,
}

/// What one row adds to a block, or nothing where the row is too short to be
/// read.
///
/// In the table of a data product a row of one field names the variable, a
/// row of three fields sets the attribute of its second field to its third,
/// and any other row is passed over. In the table of a deployment mode a
/// row whose first field is not empty names the variable; any other row
/// must have three fields, and sets an attribute unless its third field is
/// empty.
pub open spec fn read_row(table: TableKind, block: Block, fields: Seq<Seq<char>>) -> Option<
    Block,
> {
    match table {
        TableKind::DataProduct => {
            if fields.len() == 1 {
                Some(Block { name: fields[0], attributes: block.attributes })
            } else if fields.len() == 3 {
                Some(
                    Block {
                        name: block.name,
                        attributes: with_attribute(
                            block.attributes,
                            fields[1],
                            stored_value(fields[1], fields[2]),
                        ),
                    },
                )
            } else {
                Some(block)
            }
        },
        TableKind::Deployment => {
            if fields[0].len() != 0 {
                Some(Block { name: fields[0], attributes: block.attributes })
            } else if fields.len() < 3 {
                None
            } else if fields[2].len() != 0 {
                Some(
                    Block {
                        name: block.name,
                        attributes: with_attribute(
                            block.attributes,
                            fields[1],
                            stored_value(fields[1], fields[2]),
                        ),
                    },
                )
            } else {
                Some(block)
            }
        },
    }
}

/// The block that a list of rows describes, read from the first row on.
pub open spec fn read_rows(table: TableKind, rows: Seq<Seq<char>>) -> Option<Block>
    decreases rows.len(),
{
    if rows.len() == 0 {
        Some(Block { name: Seq::empty(), attributes: Seq::empty() })
    } else {
        match read_rows(table, rows.drop_last()) {
            Some(block) => read_row(table, block, split_char(rows.last(), '\t')),
            None => None,
        }
    }
}

/// Whether a block names the variable that its attributes belong to. A
/// block without a name and without attributes describes nothing, and is in
/// order.
pub open spec fn block_is_named(block: Block) -> bool {
    block.name.len() > 0 || block.attributes.len() == 0
}

/// The blocks of the text of a table: what stands behind the title line, cut
/// at the empty lines.
pub open spec fn blocks_of(text: Seq<char>) -> Seq<Seq<char>> {
    split_blocks(join_lines(below_titles(lines(text))))
}

/// Whether every row of every block can be read.
pub open spec fn rows_are_read(table: TableKind, blocks: Seq<Seq<char>>) -> bool {
    forall|i: int|
        0 <= i < blocks.len() ==> read_rows(table, lines(#[trigger] blocks[i])) is Some
}

/// Whether every block that can be read names its variable.
pub open spec fn blocks_are_named(table: TableKind, blocks: Seq<Seq<char>>) -> bool {
    forall|i: int|
        0 <= i < blocks.len() ==> match read_rows(table, lines(#[trigger] blocks[i])) {
            Some(block) => block_is_named(block),
            None => true,
        }
}

/// Whether every row of the table can be read. A row of the table of a
/// deployment mode cannot be read where it starts with an empty field and
/// has fewer than three fields.
pub open spec fn every_row_is_read(table: TableKind, text: Seq<char>) -> bool {
    rows_are_read(table, blocks_of(text))
}

/// Whether every block of the table that gives attributes names the
/// variable that they belong to.
pub open spec fn every_block_is_named(table: TableKind, text: Seq<char>) -> bool {
    blocks_are_named(table, blocks_of(text))
}

/// The variables that a list of blocks names, in order.
pub open spec fn named_variables(table: TableKind, blocks: Seq<Seq<char>>) -> Seq<VariableView>
    decreases blocks.len(),
{
    if blocks.len() == 0 {
        Seq::empty()
    } else {
        let before = named_variables(table, blocks.drop_last());
        match read_rows(table, lines(blocks.last())) {
            Some(block) => {
                if block.name.len() == 0 {
                    before
                } else {
                    before.push(VariableView { name: block.name, attributes: block.attributes })
                }
            },
            None => before,
        }
    }
}

/// The variables that the text of a table names, in order.
pub open spec fn variables_in(table: TableKind, text: Seq<char>) -> Seq<VariableView> {
    named_variables(table, blocks_of(text))
}

/// The error for a table of variables that cannot be turned into variables:
/// a row is too short to be read, or a block gives attributes and names no
/// variable.
pub open spec fn nameless_variable(table: TableKind, table_name: Seq<char>) -> CdlErrorView {
    CdlErrorView::MalformedRecord { record: RecordKind::Variable, table, table_name }
}

/// Every row of the table of a data product can be read.
pub proof fn lemma_data_product_rows_are_read(rows: Seq<Seq<char>>)
    ensures
        read_rows(TableKind::DataProduct, rows) is Some,
    decreases rows.len(),
{
    if rows.len() > 0 {
        lemma_data_product_rows_are_read(rows.drop_last());
    }
}

/// Every row of every block of the table of a data product can be read.
pub proof fn lemma_data_product_table_is_read(text: Seq<char>)
    ensures
        every_row_is_read(TableKind::DataProduct, text),
{
    let blocks = blocks_of(text);
    assert forall|i: int| 0 <= i < blocks.len() implies read_rows(
        TableKind::DataProduct,
        lines(#[trigger] blocks[i]),
    ) is Some by {
        lemma_data_product_rows_are_read(lines(blocks[i]));
    }
}

fn store_attribute(variable: &mut Variable, name: &Vec<char>, value: &Vec<char>)
    ensures
        final(variable)@.name == old(variable)@.name,
        final(variable)@.attributes == with_attribute(
            old(variable)@.attributes,
            name@,
            stored_value(name@, value@),
        ),
        old(variable).well_formed() ==> final(variable).well_formed(),
{
    let name = from_chars(name);
    let value = from_chars(value);
    let stored = if same_text(name.as_str(), "flag_values") {
        reformat_flag_values(value.as_str())
    } else if same_text(name.as_str(), "flag_meanings") {
        reformat_flag_meanings(value.as_str())
    } else {
        value
    };
    variable.set_attribute(name, stored);
}

fn read_block(block: &Vec<char>, table: TableKind) -> (out: Option<Variable>)
    ensures
        match read_rows(table, lines(block@)) {
            Some(read) => out matches Some(variable) && variable@.name == read.name
                && variable@.attributes == read.attributes,
            None => out is None,
        },
        out matches Some(variable) ==> variable.well_formed(),
{
    let rows = split_lines(block);
    let mut variable = Variable::new(String::new());
    let mut j: usize = 0;
    assert(texts(rows@).take(0) =~= Seq::empty());
    while j < rows.len()
        invariant
            j <= rows.len(),
            texts(rows@) == lines(block@),
            read_rows(table, texts(rows@).take(j as int)) == Some(
                Block { name: variable@.name, attributes: variable@.attributes },
            ),
            variable.well_formed(),
        decreases rows.len() - j,
    {
        let ghost all = texts(rows@);
        let ghost before = Block { name: variable@.name, attributes: variable@.attributes };
        assert(all.take(j + 1).drop_last() =~= all.take(j as int));
        assert(all.take(j + 1).last() == rows[j as int]@);
        let fields = split_at(&rows[j], '\t');
        let ghost cut = split_char(rows[j as int]@, '\t');
        assert(forall|k: int| 0 <= k < fields.len() ==> fields[k]@ == #[trigger] cut[k]);
        match table {
            TableKind::DataProduct => {
                if fields.len() == 1 {
                    variable.name = from_chars(&fields[0]);
                } else if fields.len() == 3 {
                    store_attribute(&mut variable, &fields[1], &fields[2]);
                }
            },
            TableKind::Deployment => {
                if fields[0].len() != 0 {
                    variable.name = from_chars(&fields[0]);
                } else if fields.len() < 3 {
                    proof {
                        lemma_unread_stays_unread(table, all, j + 1);
                        assert(all.take(all.len() as int) =~= all);
                    }
                    return None;
                } else if fields[2].len() != 0 {
                    store_attribute(&mut variable, &fields[1], &fields[2]);
                }
            },
        }
        j = j + 1;
    }
    assert(texts(rows@).take(j as int) =~= texts(rows@));
    Some(variable)
}

/// Rows that cannot be read up to some row cannot be read to their end.
pub proof fn lemma_unread_stays_unread(table: TableKind, rows: Seq<Seq<char>>, upto: int)
    requires
        0 <= upto <= rows.len(),
        read_rows(table, rows.take(upto)) is None,
    ensures
        read_rows(table, rows) is None,
    decreases rows.len() - upto,
{
    if upto < rows.len() {
        assert(rows.take(upto + 1).drop_last() =~= rows.take(upto));
        lemma_unread_stays_unread(table, rows, upto + 1);
    } else {
        assert(rows.take(upto) =~= rows);
    }
}

/// Reads the variables from the text of the table of the data product or
/// deployment mode called `table_name`. Every row has to be readable, and
/// every block that gives attributes has to name its variable; a table
/// that fails either is an error, and no part of its variables is returned.
pub fn read_variables(text: &str, table: TableKind, table_name: &str) -> (out: Result<
    Vec<Variable>,
    CdlError,
>)
    ensures
        match out {
            Ok(variables) => {
                &&& every_row_is_read(table, text@)
                &&& every_block_is_named(table, text@)
                &&& variables_view(variables@) == variables_in(table, text@)
                &&& forall|i: int|
                    0 <= i < variables.len() ==> (#[trigger] variables[i]).well_formed()
            },
            Err(error) => {
                &&& !(every_row_is_read(table, text@) && every_block_is_named(table, text@))
                &&& error@ == nameless_variable(table, table_name@)
            },
        },
{
    let chars = to_chars(text);
    let rows = split_lines(&chars);
    let body = join_below_titles(&rows);
    let blocks = cut_blocks(&body);
    let ghost all = texts(blocks@);
    let mut variables: Vec<Variable> = Vec::new();
    let mut i: usize = 0;
    assert(all.take(0) =~= Seq::empty());
    assert(variables_view(variables@) =~= Seq::empty());
    while i < blocks.len()
        invariant
            i <= blocks.len(),
            all == texts(blocks@),
            all == blocks_of(text@),
            forall|k: int|
                0 <= k < i ==> (match read_rows(table, lines(#[trigger] all[k])) {
                    Some(block) => block_is_named(block),
                    None => false,
                }),
            variables_view(variables@) == named_variables(table, all.take(i as int)),
            forall|k: int| 0 <= k < variables.len() ==> (#[trigger] variables[k]).well_formed(),
        decreases blocks.len() - i,
    {
        assert(all.take(i + 1).drop_last() =~= all.take(i as int));
        assert(all.take(i + 1).last() == blocks[i as int]@);
        assert(all[i as int] == blocks[i as int]@);
        let ghost before = variables_view(variables@);
        match read_block(&blocks[i], table) {
            Some(variable) => {
                if !variable.name.as_str().is_empty() {
                    variables.push(variable);
                    assert(variables_view(variables@) =~= before.push(variable@));
                } else if variable.attributes.len() > 0 {
                    return Err(
                        CdlError::MalformedRecord {
                            record: RecordKind::Variable,
                            table,
                            table_name: table_name.to_owned(),
                        },
                    );
                }
            },
            None => {
                return Err(
                    CdlError::MalformedRecord {
                        record: RecordKind::Variable,
                        table,
                        table_name: table_name.to_owned(),
                    },
                );
            },
        }
        i = i + 1;
    }
    assert(all.take(i as int) =~= all);
    Ok(variables)
}

} // verus!
