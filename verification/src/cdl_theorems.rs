//! What holds of every rendering, proved from the definitions in
//! [`crate::cdl`].

use crate::cdl::{
    cdl_type, declared_type, field_or_example, formatted_line, header_text, in_declaration,
    renders, requirement_comment, resolved_value, variable_attribute_content, variable_attribute_lines, variable_content,
    variable_text, RequirementLevelView,
};
use crate::common::CommonView;
use crate::data_products::DataProductView;
use crate::deployments::DeploymentView;
use crate::instruments::InstRecordView;
use crate::netcdf_components::{
    attribute_position, attribute_value, lemma_attribute_position, lemma_position_is_first,
    GlobalAttributeView,
    VariableView,
};
use crate::error::CdlError;
use crate::text::ends_with;
use vstd::prelude::*;

verus! {

/// In a line with requirement information the comment starts at the
/// alignment column, behind spaces, as long as the content line does not
/// reach past the column; behind a longer content line it starts two spaces
/// later. The line ends with the comment and a line feed.
pub proof fn lemma_comment_is_aligned(content: Seq<char>, level: RequirementLevelView)
    ensures
        ({
            let line = formatted_line(content, true, level);
            let start = if content.len() <= 100 {
                100
            } else {
                content.len() as int + 2
            };
            &&& line.len() == start + requirement_comment(level).len() + 1
            &&& line.subrange(0, content.len() as int) == content
            &&& forall|i: int| content.len() <= i < start ==> line[i] == ' '
            &&& line.subrange(start, start + requirement_comment(level).len())
                == requirement_comment(level)
            &&& line.last() == '\n'
        }),
{
    reveal_strlit("\n");
    let line = formatted_line(content, true, level);
    let start = if content.len() <= 100 {
        100
    } else {
        content.len() as int + 2
    };
    assert(line.subrange(0, content.len() as int) =~= content);
    assert(line.subrange(start, start + requirement_comment(level).len())
        =~= requirement_comment(level));
}

/// The value that is looked up under a name does not change when the value
/// of an attribute with another name does.
pub proof fn lemma_lookup_ignores_other_attributes(
    attributes: Seq<(Seq<char>, Seq<char>)>,
    at: int,
    value: Seq<char>,
    name: Seq<char>,
)
    requires
        0 <= at < attributes.len(),
        attributes[at].0 != name,
    ensures
        attribute_value(attributes.update(at, (attributes[at].0, value)), name) == attribute_value(
            attributes,
            name,
        ),
{
    let changed = attributes.update(at, (attributes[at].0, value));
    lemma_position_is_first(attributes, name);
    let found = attribute_position(attributes, name) as int;
    assert forall|j: int| 0 <= j < found implies (#[trigger] changed[j]).0 != name by {
        assert(attributes[j].0 != name);
    }
    lemma_attribute_position(changed, name, found);
}

/// The fill value of a variable is always rendered as the same literal: the
/// line of an attribute called `_FillValue` is the same for every value that
/// the table may give.
pub proof fn lemma_fill_value_line(
    variable_name: Seq<char>,
    value: Seq<char>,
    annotate: bool,
    level: RequirementLevelView,
)
    ensures
        variable_attribute_lines(variable_name, seq![("_FillValue"@, value)], annotate, level)
            == formatted_line(
            "                "@ + variable_name + ":_FillValue = -1.e+20f ;"@,
            annotate,
            level,
        ),
{
    reveal_strlit("_FillValue");
    reveal_strlit("type");
    reveal_strlit("dimension");
    let only = seq![("_FillValue"@, value)];
    assert(only.drop_last() =~= Seq::empty());
    assert(only.last() == ("_FillValue"@, value));
    assert("_FillValue"@.len() == 10 && "type"@.len() == 4 && "dimension"@.len() == 9);
    assert(!in_declaration("_FillValue"@));
    assert(variable_attribute_lines(variable_name, only.drop_last(), annotate, level)
        =~= Seq::empty());
    assert(Seq::<char>::empty() + formatted_line(
        variable_attribute_content(variable_name, "_FillValue"@, value),
        annotate,
        level,
    ) =~= formatted_line(
        variable_attribute_content(variable_name, "_FillValue"@, value),
        annotate,
        level,
    ));
}

/// The attribute lines of a variable do not change when the value of an
/// attribute called `_FillValue` does.
pub proof fn lemma_fill_value_lines_ignore_source(
    variable_name: Seq<char>,
    attributes: Seq<(Seq<char>, Seq<char>)>,
    at: int,
    value: Seq<char>,
    annotate: bool,
    level: RequirementLevelView,
)
    requires
        0 <= at < attributes.len(),
        attributes[at].0 == "_FillValue"@,
    ensures
        variable_attribute_lines(
            variable_name,
            attributes.update(at, ("_FillValue"@, value)),
            annotate,
            level,
        ) == variable_attribute_lines(variable_name, attributes, annotate, level),
    decreases attributes.len(),
{
    let changed = attributes.update(at, ("_FillValue"@, value));
    if at == attributes.len() - 1 {
        assert(changed.drop_last() =~= attributes.drop_last());
    } else {
        assert(changed.drop_last() =~= attributes.drop_last().update(at, ("_FillValue"@, value)));
        assert(changed.last() == attributes.last());
        lemma_fill_value_lines_ignore_source(
            variable_name,
            attributes.drop_last(),
            at,
            value,
            annotate,
            level,
        );
    }
}

/// A variable is rendered the same whatever value the table gives for its
/// `_FillValue` attribute.
pub proof fn lemma_fill_value_ignores_source(
    variable: VariableView,
    at: int,
    value: Seq<char>,
    annotate: bool,
    variable_level: RequirementLevelView,
    attribute_level: RequirementLevelView,
)
    requires
        0 <= at < variable.attributes.len(),
        variable.attributes[at].0 == "_FillValue"@,
    ensures
        variable_text(
            VariableView {
                name: variable.name,
                attributes: variable.attributes.update(at, ("_FillValue"@, value)),
            },
            annotate,
            variable_level,
            attribute_level,
        ) == variable_text(variable, annotate, variable_level, attribute_level),
{
    reveal_strlit("_FillValue");
    reveal_strlit("type");
    reveal_strlit("dimension");
    assert("_FillValue"@.len() == 10 && "type"@.len() == 4 && "dimension"@.len() == 9);
    lemma_lookup_ignores_other_attributes(variable.attributes, at, value, "type"@);
    lemma_lookup_ignores_other_attributes(variable.attributes, at, value, "dimension"@);
    lemma_fill_value_lines_ignore_source(
        variable.name,
        variable.attributes,
        at,
        value,
        annotate,
        attribute_level,
    );
}

/// The global attribute `instrument_manufacturer` is rendered with the
/// manufacturer of the instrument record, and never with the value or the
/// example of the vocabulary table. The same holds of `instrument_model`,
/// `instrument_serial_number` and `source` with the model number, the serial
/// number and the descriptor of the record.
pub proof fn lemma_instrument_attributes_come_from_the_record(
    attribute: GlobalAttributeView,
    record: InstRecordView,
)
    ensures
        attribute.name == "instrument_manufacturer"@ ==> resolved_value(attribute, record)
            == field_or_example(record.manufacturer),
        attribute.name == "instrument_model"@ ==> resolved_value(attribute, record)
            == field_or_example(record.model_no),
        attribute.name == "instrument_serial_number"@ ==> resolved_value(attribute, record)
            == field_or_example(record.serial_number),
        attribute.name == "source"@ ==> resolved_value(attribute, record) == field_or_example(
            record.descriptor,
        ),
{
    reveal_strlit("instrument_manufacturer");
    reveal_strlit("instrument_model");
    reveal_strlit("instrument_serial_number");
    reveal_strlit("source");
    assert("instrument_manufacturer"@.len() == 23);
    assert("instrument_model"@.len() == 16);
    assert("instrument_serial_number"@.len() == 24);
    assert("source"@.len() == 6);
}

/// A variable without a `type` attribute is declared with the type `unknown`,
/// and one without a `dimension` attribute with an empty pair of parentheses.
pub proof fn lemma_variable_defaults(variable: VariableView)
    ensures
        (forall|i: int|
            0 <= i < variable.attributes.len() ==> (#[trigger] variable.attributes[i]).0 != "type"@)
            ==> cdl_type(declared_type(variable.attributes)) == "unknown"@,
        (forall|i: int|
            0 <= i < variable.attributes.len() ==> (#[trigger] variable.attributes[i]).0
                != "dimension"@) ==> variable_content(variable) == "        "@ + cdl_type(
            declared_type(variable.attributes),
        ) + " "@ + variable.name + "() ;"@,
{
    reveal_strlit("unknown");
    reveal_strlit("int8");
    reveal_strlit("byte");
    reveal_strlit("int32");
    reveal_strlit("float32");
    reveal_strlit("float64");
    reveal_strlit("string");
    reveal_strlit("(");
    reveal_strlit(") ;");
    reveal_strlit("() ;");
    assert("unknown"@.len() == 7 && "unknown"@[0] == 'u');
    assert("int8"@.len() == 4 && "byte"@.len() == 4 && "int32"@.len() == 5);
    assert("float32"@[0] == 'f' && "float64"@[0] == 'f' && "string"@.len() == 6);
    if forall|i: int|
        0 <= i < variable.attributes.len() ==> (#[trigger] variable.attributes[i]).0 != "type"@ {
        lemma_attribute_position(
            variable.attributes,
            "type"@,
            variable.attributes.len() as int,
        );
    }
    if forall|i: int|
        0 <= i < variable.attributes.len() ==> (#[trigger] variable.attributes[i]).0
            != "dimension"@ {
        lemma_attribute_position(
            variable.attributes,
            "dimension"@,
            variable.attributes.len() as int,
        );
        let front = "        "@ + cdl_type(declared_type(variable.attributes)) + " "@
            + variable.name;
        assert(front + "("@ + Seq::<char>::empty() + ") ;"@ =~= front + "() ;"@);
    }
}

/// The opening line names the dataset without a closing `.nc`: a file name
/// with the suffix and the same name without it open the template alike.
pub proof fn lemma_header_strips_suffix(stem: Seq<char>)
    ensures
        header_text(stem + ".nc"@) == "netcdf "@ + stem + " {\n"@,
        !ends_with(stem, ".nc"@) ==> header_text(stem) == header_text(stem + ".nc"@),
{
    reveal_strlit(".nc");
    let full = stem + ".nc"@;
    assert(full.subrange(full.len() - 3, full.len() as int) =~= ".nc"@);
    assert(full.subrange(0, full.len() - 3) =~= stem);
}

/// Rendering is a function of what the entities hold: two renderings of
/// entities with the same content succeed with the same text.
pub proof fn lemma_rendering_is_repeatable(
    file_name: Seq<char>,
    common: CommonView,
    deployment: DeploymentView,
    data_product: DataProductView,
    record: InstRecordView,
    annotate: bool,
    first: Result<String, CdlError>,
    second: Result<String, CdlError>,
)
    requires
        renders(file_name, common, deployment, data_product, record, annotate, first),
        renders(file_name, common, deployment, data_product, record, annotate, second),
    ensures
        first is Ok,
        second is Ok,
        first->Ok_0@ == second->Ok_0@,
{
}

} // verus!
