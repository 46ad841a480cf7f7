//! A rendering without requirement information holds a requirement comment
//! only where the entities themselves spell one out.

use crate::cdl::{
    attribute_section_text, cdl_text, cdl_type, declared_dimensions, declared_type,
    dimension_length_text, dimension_lines, dimension_section_text, dimension_text, file_stem,
    formatted_line, global_attribute_lines, global_attribute_text, header_text, if_present,
    in_declaration, resolved_value, variable_attribute_content, variable_attribute_lines,
    variable_section_text, variable_text, variable_texts, RequirementLevelView,
};
use crate::common::CommonView;
use crate::data_products::DataProductView;
use crate::deployments::DeploymentView;
use crate::instruments::InstRecordView;
use crate::netcdf_components::{DimensionView, GlobalAttributeView, VariableView};
use crate::text::{contains, decimal, occurs_at};
use vstd::prelude::*;

verus! {

/// Whether `text` holds one of the requirement comments as a substring.
pub open spec fn has_requirement_comment(text: Seq<char>) -> bool {
    contains(text, "// Required"@) || contains(text, "// Optional"@) || contains(
        text,
        "// Required if"@,
    )
}

/// Whether a requirement comment stands in `text` from position `at` on.
/// Every conditional comment starts as a plain one.
pub open spec fn comment_at(text: Seq<char>, at: int) -> bool {
    occurs_at(text, "// Required"@, at) || occurs_at(text, "// Optional"@, at)
}

/// Whether `text` holds a requirement comment, said by its position.
pub open spec fn has_comment(text: Seq<char>) -> bool {
    exists|at: int| comment_at(text, at)
}

/// A character that stands in no requirement comment behind its first place.
pub open spec fn foreign(c: char) -> bool {
    c != '/' && c != ' ' && c != 'R' && c != 'e' && c != 'q' && c != 'u' && c != 'i' && c != 'r'
        && c != 'd' && c != 'O' && c != 'p' && c != 't' && c != 'o' && c != 'n' && c != 'a' && c
        != 'l'
}

/// Whether `text` is free of slashes, so that no comment starts in it.
pub open spec fn slash_free(text: Seq<char>) -> bool {
    forall|i: int| 0 <= i < text.len() ==> text[i] != '/'
}

/// A text that keeps comments apart: none starts in it, and none that starts
/// before it runs into it.
pub open spec fn separates(text: Seq<char>) -> bool {
    &&& text.len() >= 1
    &&& slash_free(text)
    &&& foreign(text[0]) || (text[0] == ' ' && text.len() >= 2 && text[1] != 'R' && text[1]
        != 'O')
}

/// What is known of the characters where a comment stands.
pub proof fn lemma_comment_shape(text: Seq<char>, at: int)
    requires
        comment_at(text, at),
    ensures
        0 <= at,
        at + 11 <= text.len(),
        text[at] == '/',
        text[at + 1] == '/',
        text[at + 2] == ' ',
        text[at + 3] == 'R' || text[at + 3] == 'O',
        forall|k: int| 1 <= k < 11 && k != 2 ==> #[trigger] text[at + k] != ' ',
        forall|k: int| 1 <= k < 11 ==> !foreign(#[trigger] text[at + k]),
{
    reveal_strlit("// Required");
    reveal_strlit("// Optional");
    let required = "// Required"@;
    let optional = "// Optional"@;
    let part = text.subrange(at, at + 11);
    assert(required.len() == 11 && optional.len() == 11);
    assert forall|k: int| 0 <= k < 11 implies text[at + k] == #[trigger] part[k] by {}
    assert(part[0] == '/' && part[1] == '/' && part[2] == ' ');
    assert(part[3] == 'R' || part[3] == 'O');
    assert(text[at] == part[0]);
    assert(text[at + 1] == part[1]);
    assert(text[at + 2] == part[2]);
    assert(text[at + 3] == part[3]);
    assert forall|k: int| 1 <= k < 11 implies !foreign(#[trigger] text[at + k]) && (k != 2
        ==> text[at + k] != ' ') by {
        assert(text[at + k] == part[k]);
        if part == required {
            assert(part[1] == '/' && part[2] == ' ' && part[3] == 'R' && part[4] == 'e' && part[5]
                == 'q' && part[6] == 'u' && part[7] == 'i' && part[8] == 'r' && part[9] == 'e'
                && part[10] == 'd');
        } else {
            assert(part[1] == '/' && part[2] == ' ' && part[3] == 'O' && part[4] == 'p' && part[5]
                == 't' && part[6] == 'i' && part[7] == 'o' && part[8] == 'n' && part[9] == 'a'
                && part[10] == 'l');
        }
    }
}

/// A comment inside a part of a text is a comment inside the text.
pub proof fn lemma_comment_inside(before: Seq<char>, part: Seq<char>, after: Seq<char>)
    requires
        has_comment(part),
    ensures
        has_comment(before + part + after),
{
    reveal_strlit("// Required");
    reveal_strlit("// Optional");
    let at = choose|at: int| comment_at(part, at);
    let whole = before + part + after;
    let to = at + before.len();
    assert(whole.subrange(to, to + 11) =~= part.subrange(at, at + 11));
    assert(comment_at(whole, to));
}

/// Where a separating text stands between two texts, a comment in the whole
/// lies in the text before it or in the text behind it.
pub proof fn lemma_separated(before: Seq<char>, between: Seq<char>, after: Seq<char>)
    requires
        separates(between),
    ensures
        has_comment(before + between + after) <==> has_comment(before) || has_comment(after),
{
    reveal_strlit("// Required");
    reveal_strlit("// Optional");
    let whole = before + between + after;
    if has_comment(before) {
        lemma_comment_inside(Seq::empty(), before, between + after);
        assert(Seq::<char>::empty() + before + (between + after) =~= whole);
    }
    if has_comment(after) {
        lemma_comment_inside(before + between, after, Seq::empty());
        assert(before + between + after + Seq::<char>::empty() =~= whole);
    }
    if has_comment(whole) {
        let at = choose|at: int| comment_at(whole, at);
        lemma_comment_shape(whole, at);
        let left = before.len() as int;
        let right = left + between.len();
        if at >= right {
            assert(after.subrange(at - right, at - right + 11) =~= whole.subrange(at, at + 11));
            assert(comment_at(after, at - right));
        } else if at >= left {
            assert(whole[at] == between[at - left]);
            assert(false);
        } else if at + 11 <= left {
            assert(before.subrange(at, at + 11) =~= whole.subrange(at, at + 11));
            assert(comment_at(before, at));
        } else {
            let k = left - at;
            assert(1 <= k < 11);
            assert(whole[at + k] == between[0]);
            assert(!foreign(whole[at + k]));
            assert(between[0] == ' ');
            assert(k == 2);
            assert(whole[at + 3] == between[1]);
            assert(false);
        }
    }
}

/// A text without a slash holds no comment.
pub proof fn lemma_slash_free_has_no_comment(text: Seq<char>)
    requires
        slash_free(text),
    ensures
        !has_comment(text),
{
    if has_comment(text) {
        let at = choose|at: int| comment_at(text, at);
        lemma_comment_shape(text, at);
    }
}

/// A text behind a text without a slash holds a comment exactly where the
/// two together do.
pub proof fn lemma_behind_slash_free(before: Seq<char>, after: Seq<char>)
    requires
        slash_free(before),
    ensures
        has_comment(before + after) <==> has_comment(after),
{
    reveal_strlit("// Required");
    reveal_strlit("// Optional");
    let whole = before + after;
    if has_comment(after) {
        lemma_comment_inside(before, after, Seq::empty());
        assert(before + after + Seq::<char>::empty() =~= whole);
    }
    if has_comment(whole) {
        let at = choose|at: int| comment_at(whole, at);
        lemma_comment_shape(whole, at);
        let left = before.len() as int;
        if at < left {
            assert(whole[at] == before[at]);
        }
        assert(after.subrange(at - left, at - left + 11) =~= whole.subrange(at, at + 11));
        assert(comment_at(after, at - left));
    }
}

/// Two texts without a slash make a text without a slash.
pub proof fn lemma_slash_free_join(first: Seq<char>, second: Seq<char>)
    requires
        slash_free(first),
        slash_free(second),
    ensures
        slash_free(first + second),
{
}

/// The fixed texts that open a line hold no slash.
pub proof fn lemma_openers()
    ensures
        slash_free("        "@),
        slash_free("                "@),
        slash_free(" "@),
        slash_free("netcdf "@),
        slash_free("dimensions:\n"@),
        slash_free("variables:\n"@),
        slash_free("}"@),
        slash_free("byte"@),
        slash_free("int"@),
        slash_free("float"@),
        slash_free("double"@),
        slash_free("string"@),
        slash_free("unknown"@),
{
    reveal_strlit("        ");
    reveal_strlit("                ");
    reveal_strlit(" ");
    reveal_strlit("netcdf ");
    reveal_strlit("dimensions:\n");
    reveal_strlit("variables:\n");
    reveal_strlit("}");
    reveal_strlit("byte");
    reveal_strlit("int");
    reveal_strlit("float");
    reveal_strlit("double");
    reveal_strlit("string");
    reveal_strlit("unknown");
}

/// A separating text stays one when a text without a slash follows it.
pub proof fn lemma_separates_longer(separator: Seq<char>, more: Seq<char>)
    requires
        separates(separator),
        slash_free(more),
    ensures
        separates(separator + more),
{
    let joined = separator + more;
    assert(joined[0] == separator[0]);
    if separator.len() >= 2 {
        assert(joined[1] == separator[1]);
    }
}

/// The fixed texts that stand behind a field of a line keep comments apart.
pub proof fn lemma_separators()
    ensures
        separates(" = "@),
        separates("("@),
        separates(") ;"@),
        separates(":"@),
        separates(" = \""@),
        separates("\" ;"@),
        separates(":_FillValue = -1.e+20f ;"@),
        separates(" {\n"@),
        separates("\n"@),
        slash_free(" ;"@),
        slash_free("<dim length>"@),
        slash_free("type"@),
        slash_free("dimension"@),
        slash_free("_FillValue"@),
{
    reveal_strlit(" = ");
    reveal_strlit("(");
    reveal_strlit(") ;");
    reveal_strlit(":");
    reveal_strlit(" = \"");
    reveal_strlit("\" ;");
    reveal_strlit(":_FillValue = -1.e+20f ;");
    reveal_strlit(" {\n");
    reveal_strlit("\n");
    reveal_strlit(" ;");
    reveal_strlit("<dim length>");
    reveal_strlit("type");
    reveal_strlit("dimension");
    reveal_strlit("_FillValue");
}

/// A decimal numeral holds no slash.
pub proof fn lemma_decimal_slash_free(n: nat)
    ensures
        slash_free(decimal(n)),
    decreases n,
{
    if n >= 10 {
        lemma_decimal_slash_free(n / 10);
    }
}

/// A line with one field: a comment in it, or behind it, lies in the field
/// or behind the line.
pub proof fn lemma_one_field(
    opener: Seq<char>,
    field: Seq<char>,
    closer: Seq<char>,
    rest: Seq<char>,
)
    requires
        slash_free(opener),
        separates(closer),
    ensures
        has_comment(opener + field + closer + rest) <==> has_comment(field) || has_comment(rest),
{
    assert(opener + field + closer + rest =~= opener + (field + closer + rest));
    lemma_behind_slash_free(opener, field + closer + rest);
    lemma_separated(field, closer, rest);
}

/// A line with two fields.
pub proof fn lemma_two_fields(
    opener: Seq<char>,
    first: Seq<char>,
    between: Seq<char>,
    second: Seq<char>,
    closer: Seq<char>,
    rest: Seq<char>,
)
    requires
        slash_free(opener),
        separates(between),
        separates(closer),
    ensures
        has_comment(opener + first + between + second + closer + rest) <==> has_comment(first)
            || has_comment(second) || has_comment(rest),
{
    let tail = second + closer + rest;
    assert(opener + first + between + second + closer + rest =~= opener + (first + between
        + tail));
    lemma_behind_slash_free(opener, first + between + tail);
    lemma_separated(first, between, tail);
    lemma_separated(second, closer, rest);
}

/// A line with three fields.
pub proof fn lemma_three_fields(
    opener: Seq<char>,
    first: Seq<char>,
    between: Seq<char>,
    second: Seq<char>,
    then: Seq<char>,
    third: Seq<char>,
    closer: Seq<char>,
    rest: Seq<char>,
)
    requires
        slash_free(opener),
        separates(between),
        separates(then),
        separates(closer),
    ensures
        has_comment(opener + first + between + second + then + third + closer + rest)
            <==> has_comment(first) || has_comment(second) || has_comment(third) || has_comment(
            rest,
        ),
{
    let tail = third + closer + rest;
    let middle = second + then + tail;
    assert(opener + first + between + second + then + third + closer + rest =~= opener + (first
        + between + middle));
    lemma_behind_slash_free(opener, first + between + middle);
    lemma_separated(first, between, middle);
    lemma_separated(second, then, tail);
    lemma_separated(third, closer, rest);
}

/// A plain dimension line, and what follows it, hold a comment exactly where
/// the name of the dimension or what follows does.
pub proof fn lemma_plain_dimension(name: Seq<char>, length: Option<u32>, rest: Seq<char>)
    ensures
        has_comment(dimension_text(name, length, false) + rest) <==> has_comment(name)
            || has_comment(rest),
{
    lemma_openers();
    lemma_separators();
    let written = dimension_length_text(length);
    match length {
        Some(n) => lemma_decimal_slash_free(n as nat),
        None => {},
    }
    lemma_separates_longer(" = "@, written);
    lemma_separates_longer(" = "@ + written, " ;"@);
    lemma_separates_longer(" = "@ + written + " ;"@, "\n"@);
    let closer = " = "@ + written + " ;"@ + "\n"@;
    assert(dimension_text(name, length, false) + rest =~= "        "@ + name + closer + rest);
    lemma_one_field("        "@, name, closer, rest);
}

/// Whether the name of one of the dimensions holds a comment.
pub open spec fn dimensions_mention(dimensions: Seq<DimensionView>) -> bool {
    exists|i: int| 0 <= i < dimensions.len() && has_comment((#[trigger] dimensions[i]).name)
}

/// Plain dimension lines, and what follows them, hold a comment exactly
/// where a name or what follows does.
pub proof fn lemma_plain_dimensions(dimensions: Seq<DimensionView>, rest: Seq<char>)
    ensures
        has_comment(dimension_lines(dimensions, false) + rest) <==> dimensions_mention(dimensions)
            || has_comment(rest),
    decreases dimensions.len(),
{
    if dimensions.len() == 0 {
        assert(dimension_lines(dimensions, false) + rest =~= rest);
    } else {
        let before = dimensions.drop_last();
        let last = dimensions.last();
        let line = dimension_text(last.name, last.length, false);
        assert(dimension_lines(dimensions, false) + rest =~= dimension_lines(before, false) + (
        line + rest));
        lemma_plain_dimensions(before, line + rest);
        lemma_plain_dimension(last.name, last.length, rest);
        if dimensions_mention(dimensions) {
            let i = choose|i: int|
                0 <= i < dimensions.len() && has_comment((#[trigger] dimensions[i]).name);
            if i < before.len() {
                assert(before[i] == dimensions[i]);
            }
        }
        if dimensions_mention(before) {
            let i = choose|i: int| 0 <= i < before.len() && has_comment((#[trigger] before[i]).name);
            assert(before[i] == dimensions[i]);
        }
        if has_comment(last.name) {
            assert(dimensions[dimensions.len() - 1] == last);
        }
    }
}

/// The CDL name of a type holds no slash.
pub proof fn lemma_cdl_type_slash_free(declared: Seq<char>)
    ensures
        slash_free(cdl_type(declared)),
{
    lemma_openers();
}

/// Whether an attribute of a variable brings a comment into its line: by
/// its name, or by its value unless the line ignores the value.
pub open spec fn attribute_mentions(attribute: (Seq<char>, Seq<char>)) -> bool {
    !in_declaration(attribute.0) && (has_comment(attribute.0) || (attribute.0 != "_FillValue"@
        && has_comment(attribute.1)))
}

/// Whether one of the attributes of a variable brings a comment into its
/// line.
pub open spec fn attributes_mention(attributes: Seq<(Seq<char>, Seq<char>)>) -> bool {
    exists|i: int| 0 <= i < attributes.len() && attribute_mentions(#[trigger] attributes[i])
}

/// Whether a variable brings a comment into its lines: by its name, by its
/// dimension list, or by one of its attributes.
pub open spec fn variable_mentions(variable: VariableView) -> bool {
    has_comment(variable.name) || has_comment(declared_dimensions(variable.attributes))
        || attributes_mention(variable.attributes)
}

/// Whether one of the variables brings a comment into its lines.
pub open spec fn variables_mention(variables: Seq<VariableView>) -> bool {
    exists|i: int| 0 <= i < variables.len() && variable_mentions(#[trigger] variables[i])
}

/// A plain attribute line of a variable, and what follows it, hold a comment
/// exactly where the name of the variable, the attribute or what follows
/// does.
pub proof fn lemma_plain_attribute(
    variable_name: Seq<char>,
    attribute: (Seq<char>, Seq<char>),
    level: RequirementLevelView,
    rest: Seq<char>,
)
    requires
        !in_declaration(attribute.0),
    ensures
        has_comment(
            formatted_line(
                variable_attribute_content(variable_name, attribute.0, attribute.1),
                false,
                level,
            ) + rest,
        ) <==> has_comment(variable_name) || attribute_mentions(attribute) || has_comment(rest),
{
    lemma_openers();
    lemma_separators();
    let opener = "                "@;
    let line = formatted_line(
        variable_attribute_content(variable_name, attribute.0, attribute.1),
        false,
        level,
    );
    if attribute.0 == "_FillValue"@ {
        lemma_slash_free_has_no_comment(attribute.0);
        lemma_separates_longer(":_FillValue = -1.e+20f ;"@, "\n"@);
        let closer = ":_FillValue = -1.e+20f ;"@ + "\n"@;
        assert(line + rest =~= opener + variable_name + closer + rest);
        lemma_one_field(opener, variable_name, closer, rest);
    } else {
        lemma_separates_longer("\" ;"@, "\n"@);
        let closer = "\" ;"@ + "\n"@;
        assert(line + rest =~= opener + variable_name + ":"@ + attribute.0 + " = \""@
            + attribute.1 + closer + rest);
        lemma_three_fields(
            opener,
            variable_name,
            ":"@,
            attribute.0,
            " = \""@,
            attribute.1,
            closer,
            rest,
        );
    }
}

/// Plain attribute lines of a variable, and what follows them: apart from
/// the name of the variable, they hold a comment exactly where one of the
/// attributes or what follows does.
pub proof fn lemma_plain_attributes(
    variable_name: Seq<char>,
    attributes: Seq<(Seq<char>, Seq<char>)>,
    level: RequirementLevelView,
    rest: Seq<char>,
)
    ensures
        has_comment(variable_name) || has_comment(
            variable_attribute_lines(variable_name, attributes, false, level) + rest,
        ) <==> has_comment(variable_name) || attributes_mention(attributes) || has_comment(rest),
    decreases attributes.len(),
{
    if attributes.len() == 0 {
        assert(variable_attribute_lines(variable_name, attributes, false, level) + rest =~= rest);
    } else {
        let before = attributes.drop_last();
        let last = attributes.last();
        let earlier = variable_attribute_lines(variable_name, before, false, level);
        if attributes_mention(attributes) {
            let i = choose|i: int|
                0 <= i < attributes.len() && attribute_mentions(#[trigger] attributes[i]);
            if i < before.len() {
                assert(before[i] == attributes[i]);
            }
        }
        if attributes_mention(before) {
            let i = choose|i: int| 0 <= i < before.len() && attribute_mentions(#[trigger] before[i]);
            assert(before[i] == attributes[i]);
        }
        if attribute_mentions(last) {
            assert(attributes[attributes.len() - 1] == last);
        }
        if in_declaration(last.0) {
            lemma_plain_attributes(variable_name, before, level, rest);
        } else {
            let line = formatted_line(
                variable_attribute_content(variable_name, last.0, last.1),
                false,
                level,
            );
            assert(variable_attribute_lines(variable_name, attributes, false, level) + rest
                =~= earlier + (line + rest));
            lemma_plain_attributes(variable_name, before, level, line + rest);
            lemma_plain_attribute(variable_name, last, level, rest);
        }
    }
}

/// The plain lines of a variable, and what follows them, hold a comment
/// exactly where the variable or what follows brings one.
pub proof fn lemma_plain_variable(
    variable: VariableView,
    variable_level: RequirementLevelView,
    attribute_level: RequirementLevelView,
    rest: Seq<char>,
)
    ensures
        has_comment(variable_text(variable, false, variable_level, attribute_level) + rest)
            <==> variable_mentions(variable) || has_comment(rest),
{
    lemma_openers();
    lemma_separators();
    let kind = cdl_type(declared_type(variable.attributes));
    lemma_cdl_type_slash_free(declared_type(variable.attributes));
    lemma_slash_free_join("        "@, kind);
    lemma_slash_free_join("        "@ + kind, " "@);
    let opener = "        "@ + kind + " "@;
    lemma_separates_longer(") ;"@, "\n"@);
    let closer = ") ;"@ + "\n"@;
    let listed = declared_dimensions(variable.attributes);
    let lines = variable_attribute_lines(
        variable.name,
        variable.attributes,
        false,
        attribute_level,
    );
    assert(variable_text(variable, false, variable_level, attribute_level) + rest =~= opener
        + variable.name + "("@ + listed + closer + (lines + rest));
    lemma_two_fields(opener, variable.name, "("@, listed, closer, lines + rest);
    lemma_plain_attributes(variable.name, variable.attributes, attribute_level, rest);
}

/// The plain lines of a list of variables, and what follows them, hold a
/// comment exactly where one of the variables or what follows brings one.
pub proof fn lemma_plain_variables(
    variables: Seq<VariableView>,
    variable_level: RequirementLevelView,
    attribute_level: RequirementLevelView,
    rest: Seq<char>,
)
    ensures
        has_comment(variable_texts(variables, false, variable_level, attribute_level) + rest)
            <==> variables_mention(variables) || has_comment(rest),
    decreases variables.len(),
{
    if variables.len() == 0 {
        assert(variable_texts(variables, false, variable_level, attribute_level) + rest
            =~= rest);
    } else {
        let before = variables.drop_last();
        let last = variables.last();
        let lines = variable_text(last, false, variable_level, attribute_level);
        assert(variable_texts(variables, false, variable_level, attribute_level) + rest
            =~= variable_texts(before, false, variable_level, attribute_level) + (lines + rest));
        lemma_plain_variables(before, variable_level, attribute_level, lines + rest);
        lemma_plain_variable(last, variable_level, attribute_level, rest);
        if variables_mention(variables) {
            let i = choose|i: int|
                0 <= i < variables.len() && variable_mentions(#[trigger] variables[i]);
            if i < before.len() {
                assert(before[i] == variables[i]);
            }
        }
        if variables_mention(before) {
            let i = choose|i: int| 0 <= i < before.len() && variable_mentions(#[trigger] before[i]);
            assert(before[i] == variables[i]);
        }
        if variable_mentions(last) {
            assert(variables[variables.len() - 1] == last);
        }
    }
}

/// Whether a global attribute brings a comment into its line: by its name or
/// by the value it is rendered with.
pub open spec fn global_attribute_mentions(
    attribute: GlobalAttributeView,
    record: InstRecordView,
) -> bool {
    has_comment(attribute.name) || has_comment(resolved_value(attribute, record))
}

/// Whether one of the global attributes brings a comment into its line.
pub open spec fn global_attributes_mention(
    attributes: Seq<GlobalAttributeView>,
    record: InstRecordView,
) -> bool {
    exists|i: int|
        0 <= i < attributes.len() && global_attribute_mentions(#[trigger] attributes[i], record)
}

/// A plain line of a global attribute, and what follows it, hold a comment
/// exactly where the attribute or what follows brings one.
pub proof fn lemma_plain_global_attribute(
    attribute: GlobalAttributeView,
    record: InstRecordView,
    rest: Seq<char>,
)
    ensures
        has_comment(global_attribute_text(attribute, record, false) + rest)
            <==> global_attribute_mentions(attribute, record) || has_comment(rest),
{
    lemma_openers();
    lemma_separators();
    lemma_separates_longer("\" ;"@, "\n"@);
    let closer = "\" ;"@ + "\n"@;
    let value = resolved_value(attribute, record);
    assert(global_attribute_text(attribute, record, false) + rest =~= "                "@
        + attribute.name + " = \""@ + value + closer + rest);
    lemma_two_fields("                "@, attribute.name, " = \""@, value, closer, rest);
}

/// The plain lines of a list of global attributes, and what follows them,
/// hold a comment exactly where one of the attributes or what follows brings
/// one.
pub proof fn lemma_plain_global_attributes(
    attributes: Seq<GlobalAttributeView>,
    record: InstRecordView,
    rest: Seq<char>,
)
    ensures
        has_comment(global_attribute_lines(attributes, record, false) + rest)
            <==> global_attributes_mention(attributes, record) || has_comment(rest),
    decreases attributes.len(),
{
    if attributes.len() == 0 {
        assert(global_attribute_lines(attributes, record, false) + rest =~= rest);
    } else {
        let before = attributes.drop_last();
        let last = attributes.last();
        let line = global_attribute_text(last, record, false);
        assert(global_attribute_lines(attributes, record, false) + rest
            =~= global_attribute_lines(before, record, false) + (line + rest));
        lemma_plain_global_attributes(before, record, line + rest);
        lemma_plain_global_attribute(last, record, rest);
        if global_attributes_mention(attributes, record) {
            let i = choose|i: int|
                0 <= i < attributes.len() && global_attribute_mentions(
                    #[trigger] attributes[i],
                    record,
                );
            if i < before.len() {
                assert(before[i] == attributes[i]);
            }
        }
        if global_attributes_mention(before, record) {
            let i = choose|i: int|
                0 <= i < before.len() && global_attribute_mentions(#[trigger] before[i], record);
            assert(before[i] == attributes[i]);
        }
        if global_attribute_mentions(last, record) {
            assert(attributes[attributes.len() - 1] == last);
        }
    }
}

/// The heading of the global attribute section starts like a comment and is
/// none: it adds no comment to what follows it.
pub proof fn lemma_behind_attribute_heading(rest: Seq<char>)
    ensures
        has_comment("\n// global attributes:\n"@ + rest) <==> has_comment(rest),
{
    reveal_strlit("\n// global attributes:\n");
    reveal_strlit("// Required");
    reveal_strlit("// Optional");
    let heading = "\n// global attributes:\n"@;
    let whole = heading + rest;
    if has_comment(rest) {
        lemma_comment_inside(heading, rest, Seq::empty());
        assert(heading + rest + Seq::<char>::empty() =~= whole);
    }
    if has_comment(whole) {
        let at = choose|at: int| comment_at(whole, at);
        lemma_comment_shape(whole, at);
        assert(heading.len() == 23);
        if at < 23 {
            assert(whole[at] == heading[at]);
            assert(whole[at + 1] == heading[at + 1]);
            assert(heading[1] == '/' && heading[2] == '/' && heading[3] == ' ' && heading[4]
                == 'g');
            if at == 1 {
                assert(whole[at + 3] == heading[4]);
            }
            assert(false);
        }
        assert(rest.subrange(at - 23, at - 23 + 11) =~= whole.subrange(at, at + 11));
        assert(comment_at(rest, at - 23));
    }
}

/// The three requirement comments are found wherever a plain or an optional
/// one is: the conditional comment starts as the plain one.
pub proof fn lemma_comment_forms(text: Seq<char>)
    ensures
        has_requirement_comment(text) <==> has_comment(text),
{
    reveal_strlit("// Required");
    reveal_strlit("// Optional");
    reveal_strlit("// Required if");
    if contains(text, "// Required if"@) {
        let at = choose|at: int| occurs_at(text, "// Required if"@, at);
        let longer = text.subrange(at, at + 14);
        assert(text.subrange(at, at + 11) =~= longer.subrange(0, 11));
        assert(longer.subrange(0, 11) =~= "// Required"@);
        assert(comment_at(text, at));
    }
    if contains(text, "// Required"@) {
        let at = choose|at: int| occurs_at(text, "// Required"@, at);
        assert(comment_at(text, at));
    }
    if contains(text, "// Optional"@) {
        let at = choose|at: int| occurs_at(text, "// Optional"@, at);
        assert(comment_at(text, at));
    }
    if has_comment(text) {
        let at = choose|at: int| comment_at(text, at);
        assert(occurs_at(text, "// Required"@, at) || occurs_at(text, "// Optional"@, at));
    }
}

/// Whether the entities themselves spell out a requirement comment in a text
/// that is rendered: the name of the dataset, the name of a dimension, a
/// variable, or a global attribute.
pub open spec fn entities_mention(
    file_name: Seq<char>,
    common: CommonView,
    deployment: DeploymentView,
    data_product: DataProductView,
    record: InstRecordView,
) -> bool {
    ||| has_comment(file_stem(file_name))
    ||| dimensions_mention(deployment.dimensions)
    ||| dimensions_mention(data_product.dimensions)
    ||| variables_mention(deployment.variables)
    ||| variables_mention(data_product.variables)
    ||| global_attributes_mention(common.global_attributes, record)
    ||| global_attributes_mention(data_product.global_attributes, record)
}

/// The plain dimension section, and what follows it.
pub proof fn lemma_plain_dimension_section(
    deployment: DeploymentView,
    data_product: DataProductView,
    rest: Seq<char>,
)
    ensures
        has_comment(dimension_section_text(deployment, data_product, false) + rest)
            <==> dimensions_mention(deployment.dimensions) || dimensions_mention(
            data_product.dimensions,
        ) || has_comment(rest),
{
    lemma_openers();
    let second = dimension_lines(data_product.dimensions, false) + rest;
    let first = dimension_lines(deployment.dimensions, false) + second;
    lemma_plain_dimensions(data_product.dimensions, rest);
    lemma_plain_dimensions(deployment.dimensions, second);
    lemma_behind_slash_free("dimensions:\n"@, first);
    assert(dimension_section_text(deployment, data_product, false) + rest =~= "dimensions:\n"@
        + first);
}

/// The plain variable section, and what follows it.
pub proof fn lemma_plain_variable_section(
    deployment: DeploymentView,
    data_product: DataProductView,
    rest: Seq<char>,
)
    ensures
        has_comment(variable_section_text(deployment, data_product, false) + rest)
            <==> variables_mention(deployment.variables) || variables_mention(
            data_product.variables,
        ) || has_comment(rest),
{
    lemma_openers();
    let second = variable_texts(
        data_product.variables,
        false,
        RequirementLevelView::Optional,
        if_present(),
    ) + rest;
    let first = variable_texts(
        deployment.variables,
        false,
        RequirementLevelView::Required,
        RequirementLevelView::Required,
    ) + second;
    lemma_plain_variables(
        data_product.variables,
        RequirementLevelView::Optional,
        if_present(),
        rest,
    );
    lemma_plain_variables(
        deployment.variables,
        RequirementLevelView::Required,
        RequirementLevelView::Required,
        second,
    );
    lemma_behind_slash_free("variables:\n"@, first);
    assert(variable_section_text(deployment, data_product, false) + rest =~= "variables:\n"@
        + first);
}

/// The plain global attribute section, and what follows it.
pub proof fn lemma_plain_attribute_section(
    common: CommonView,
    data_product: DataProductView,
    record: InstRecordView,
    rest: Seq<char>,
)
    ensures
        has_comment(attribute_section_text(common, data_product, record, false) + rest)
            <==> global_attributes_mention(common.global_attributes, record)
            || global_attributes_mention(data_product.global_attributes, record) || has_comment(
            rest,
        ),
{
    let second = global_attribute_lines(data_product.global_attributes, record, false) + rest;
    let first = global_attribute_lines(common.global_attributes, record, false) + second;
    lemma_plain_global_attributes(data_product.global_attributes, record, rest);
    lemma_plain_global_attributes(common.global_attributes, record, second);
    lemma_behind_attribute_heading(first);
    assert(attribute_section_text(common, data_product, record, false) + rest
        =~= "\n// global attributes:\n"@ + first);
}

/// A template that is rendered without requirement information holds a
/// requirement comment exactly where the entities spell one out in a text
/// that is rendered.
pub proof fn lemma_plain_rendering_comments(
    file_name: Seq<char>,
    common: CommonView,
    deployment: DeploymentView,
    data_product: DataProductView,
    record: InstRecordView,
)
    ensures
        has_requirement_comment(
            cdl_text(file_name, common, deployment, data_product, record, false),
        ) <==> entities_mention(file_name, common, deployment, data_product, record),
{
    lemma_openers();
    lemma_separators();
    let whole = cdl_text(file_name, common, deployment, data_product, record, false);
    lemma_comment_forms(whole);
    let end = "}"@;
    lemma_slash_free_has_no_comment(end);
    let attributes = attribute_section_text(common, data_product, record, false) + end;
    let variables = variable_section_text(deployment, data_product, false) + attributes;
    let dimensions = dimension_section_text(deployment, data_product, false) + variables;
    lemma_plain_attribute_section(common, data_product, record, end);
    lemma_plain_variable_section(deployment, data_product, attributes);
    lemma_plain_dimension_section(deployment, data_product, variables);
    lemma_one_field("netcdf "@, file_stem(file_name), " {\n"@, dimensions);
    assert(whole =~= header_text(file_name) + dimensions);
    assert(header_text(file_name) + dimensions == "netcdf "@ + file_stem(file_name) + " {\n"@
        + dimensions);
}

/// A template that is rendered without requirement information holds none
/// of the requirement comments, as long as the entities spell none out in a
/// text that is rendered.
pub proof fn lemma_plain_rendering_has_no_comment(
    file_name: Seq<char>,
    common: CommonView,
    deployment: DeploymentView,
    data_product: DataProductView,
    record: InstRecordView,
)
    requires
        !entities_mention(file_name, common, deployment, data_product, record),
    ensures
        !contains(
            cdl_text(file_name, common, deployment, data_product, record, false),
            "// Required"@,
        ),
        !contains(
            cdl_text(file_name, common, deployment, data_product, record, false),
            "// Optional"@,
        ),
        !contains(
            cdl_text(file_name, common, deployment, data_product, record, false),
            "// Required if"@,
        ),
{
    lemma_plain_rendering_comments(file_name, common, deployment, data_product, record);
}

} // verus!
