//! The CDL renderer: turns the vocabulary entities into the text of a CDL
//! template, line by line, with an optional requirement comment that starts
//! at a fixed column.

use crate::common::{Common, CommonView};
use crate::data_products::{DataProduct, DataProductView};
use crate::deployments::{Deployment, DeploymentView};
use crate::error::CdlError;
use crate::instruments::{InstRecord, InstRecordView};
use crate::netcdf_components::{
    attribute_value, dimensions_view, global_attributes_view, variables_view, Dimension,
    DimensionView, GlobalAttribute, GlobalAttributeView, Variable, VariableView,
};
use crate::text::{blank, decimal, decimal_string, ends_with, same_text, spaces};
use vstd::prelude::*;

verus! {

/// How strongly the vocabulary asks for a schema element.
#[derive(Debug)]
pub enum RequirementLevel {
    Required,
    RequiredIf(String),
    Optional,
}

/// What a [`RequirementLevel`] holds.
pub enum RequirementLevelView {
    Required,
    RequiredIf(Seq<char>),
    Optional,
}

impl View for RequirementLevel {
    type V = RequirementLevelView;

    open spec fn view(&self) -> RequirementLevelView {
        match self {
            RequirementLevel::Required => RequirementLevelView::Required,
            RequirementLevel::RequiredIf(reason) => RequirementLevelView::RequiredIf(reason@),
            RequirementLevel::Optional => RequirementLevelView::Optional,
        }
    }
}

impl Clone for RequirementLevel {
    fn clone(&self) -> (out: Self)
        ensures
            out@ == self@,
    {
        match self {
            RequirementLevel::Required => RequirementLevel::Required,
            RequirementLevel::RequiredIf(reason) => RequirementLevel::RequiredIf(reason.clone()),
            RequirementLevel::Optional => RequirementLevel::Optional,
        }
    }
}

/// The column at which a requirement comment starts, counted in characters.
pub const MAX_LINE_LENGTH: usize = 100;

/// The comment that states a requirement level.
pub open spec fn requirement_comment(level: RequirementLevelView) -> Seq<char> {
    match level {
        RequirementLevelView::Required => "// Required"@,
        RequirementLevelView::RequiredIf(reason) => "// Required if "@ + reason,
        RequirementLevelView::Optional => "// Optional"@,
    }
}

/// A requirement comment behind `pad` spaces.
pub open spec fn requirement_text(level: RequirementLevelView, pad: nat) -> Seq<char> {
    spaces(pad) + requirement_comment(level)
}

/// The number of spaces between a content line of `width` characters and its
/// comment: as many as bring the comment to the alignment column, and two
/// where the content line already reaches past it.
pub open spec fn padding_width(width: nat) -> nat {
    if width > MAX_LINE_LENGTH as nat {
        2
    } else {
        (MAX_LINE_LENGTH as nat - width) as nat
    }
}

/// A finished line: the content line, the aligned requirement comment where
/// comments are asked for, and a line feed.
pub open spec fn formatted_line(
    content: Seq<char>,
    annotate: bool,
    level: RequirementLevelView,
) -> Seq<char> {
    if annotate {
        content + requirement_text(level, padding_width(content.len())) + "\n"@
    } else {
        content + "\n"@
    }
}

/// Renders the comment for `level` behind `spaces` spaces.
pub fn requirement_level_string(level: &RequirementLevel, spaces: usize) -> (out: String)
    ensures
        out@ == requirement_text(level@, spaces as nat),
{
    let mut out = blank(spaces);
    match level {
        RequirementLevel::Required => {
            out.append("// Required");
        },
        RequirementLevel::RequiredIf(reason) => {
            out.append("// Required if ");
            out.append(reason.as_str());
            assert(out@ =~= requirement_text(level@, spaces as nat));
        },
        RequirementLevel::Optional => {
            out.append("// Optional");
        },
    }
    out
}

/// Finishes a content line: appends the requirement comment for `level` at
/// the alignment column when `requirement_info` is set, and ends the line.
pub fn format_line(content: String, requirement_info: bool, level: &RequirementLevel) -> (out:
    String)
    ensures
        out@ == formatted_line(content@, requirement_info, level@),
{
    let mut out = content;
    if requirement_info {
        let width = out.as_str().unicode_len();
        let pad: usize = if width > MAX_LINE_LENGTH {
            2
        } else {
            MAX_LINE_LENGTH - width
        };
        let comment = requirement_level_string(level, pad);
        out.append(comment.as_str());
    }
    out.append("\n");
    out
}

/// The CDL name of a declared data type; `unknown` for a type that the
/// lexicon does not hold.
pub open spec fn cdl_type(declared: Seq<char>) -> Seq<char> {
    if declared == "int8"@ || declared == "byte"@ {
        "byte"@
    } else if declared == "int32"@ {
        "int"@
    } else if declared == "float32"@ {
        "float"@
    } else if declared == "float64"@ {
        "double"@
    } else if declared == "string"@ {
        "string"@
    } else {
        "unknown"@
    }
}

/// Maps a declared data type to its CDL name.
pub fn map_data_type(data_type: &str) -> (out: String)
    ensures
        out@ == cdl_type(data_type@),
{
    if same_text(data_type, "int8") || same_text(data_type, "byte") {
        String::from_str("byte")
    } else if same_text(data_type, "int32") {
        String::from_str("int")
    } else if same_text(data_type, "float32") {
        String::from_str("float")
    } else if same_text(data_type, "float64") {
        String::from_str("double")
    } else if same_text(data_type, "string") {
        String::from_str("string")
    } else {
        String::from_str("unknown")
    }
}

/// The declared type of a variable: the value of its `type` attribute, and
/// `unknown` where it has none.
pub open spec fn declared_type(attributes: Seq<(Seq<char>, Seq<char>)>) -> Seq<char> {
    match attribute_value(attributes, "type"@) {
        Some(declared) => declared,
        None => "unknown"@,
    }
}

/// The dimension list of a variable: the value of its `dimension` attribute
/// as it stands, and nothing where it has none.
pub open spec fn declared_dimensions(attributes: Seq<(Seq<char>, Seq<char>)>) -> Seq<char> {
    match attribute_value(attributes, "dimension"@) {
        Some(dimensions) => dimensions,
        None => Seq::empty(),
    }
}

/// The content line that declares a variable.
pub open spec fn variable_content(variable: VariableView) -> Seq<char> {
    "        "@ + cdl_type(declared_type(variable.attributes)) + " "@ + variable.name + "("@
        + declared_dimensions(variable.attributes) + ") ;"@
}

/// Whether an attribute is part of the variable's declaration and so has no
/// line of its own.
pub open spec fn in_declaration(name: Seq<char>) -> bool {
    name == "type"@ || name == "dimension"@
}

/// The content line of one attribute of a variable. The fill value is always
/// the same literal, whatever value the table gives.
pub open spec fn variable_attribute_content(
    variable_name: Seq<char>,
    name: Seq<char>,
    value: Seq<char>,
) -> Seq<char> {
    if name == "_FillValue"@ {
        "                "@ + variable_name + ":_FillValue = -1.e+20f ;"@
    } else {
        "                "@ + variable_name + ":"@ + name + " = \""@ + value + "\" ;"@
    }
}

/// The finished lines of the attributes of a variable, in their order, without
/// those that are part of the declaration.
pub open spec fn variable_attribute_lines(
    variable_name: Seq<char>,
    attributes: Seq<(Seq<char>, Seq<char>)>,
    annotate: bool,
    level: RequirementLevelView,
) -> Seq<char>
    decreases attributes.len(),
{
    if attributes.len() == 0 {
        Seq::empty()
    } else {
        let before = variable_attribute_lines(
            variable_name,
            attributes.drop_last(),
            annotate,
            level,
        );
        let (name, value) = attributes.last();
        if in_declaration(name) {
            before
        } else {
            before + formatted_line(
                variable_attribute_content(variable_name, name, value),
                annotate,
                level,
            )
        }
    }
}

/// The finished lines of a variable: its declaration, then its attributes.
pub open spec fn variable_text(
    variable: VariableView,
    annotate: bool,
    variable_level: RequirementLevelView,
    attribute_level: RequirementLevelView,
) -> Seq<char> {
    formatted_line(variable_content(variable), annotate, variable_level)
        + variable_attribute_lines(variable.name, variable.attributes, annotate, attribute_level)
}

fn create_variable_attribute_content(variable_name: &str, name: &str, value: &str) -> (out:
    String)
    ensures
        out@ == variable_attribute_content(variable_name@, name@, value@),
{
    let mut out = String::from_str("                ");
    out.append(variable_name);
    if same_text(name, "_FillValue") {
        out.append(":_FillValue = -1.e+20f ;");
    } else {
        out.append(":");
        out.append(name);
        out.append(" = \"");
        out.append(value);
        out.append("\" ;");
    }
    out
}

/// Renders a variable: the line that declares it, with the requirement level
/// of the variable, then one line for each attribute, with the requirement
/// level of its attributes.
pub fn create_variable_text(
    variable: &Variable,
    requirement_info: bool,
    requirement_level_variable: RequirementLevel,
    requirement_level_varattr: RequirementLevel,
) -> (out: String)
    ensures
        out@ == variable_text(
            variable@,
            requirement_info,
            requirement_level_variable@,
            requirement_level_varattr@,
        ),
{
    let vartype = match variable.attribute("type") {
        Some(declared) => map_data_type(declared.as_str()),
        None => map_data_type("unknown"),
    };
    let mut line = String::from_str("        ");
    line.append(vartype.as_str());
    line.append(" ");
    line.append(variable.name.as_str());
    line.append("(");
    match variable.attribute("dimension") {
        Some(dimensions) => {
            line.append(dimensions.as_str());
        },
        None => {},
    }
    line.append(") ;");
    assert(line@ =~= variable_content(variable@));
    let mut out = format_line(line, requirement_info, &requirement_level_variable);
    let ghost declaration = out@;
    let ghost attributes = variable@.attributes;
    assert(attributes.take(0) =~= Seq::empty());
    let mut i: usize = 0;
    while i < variable.attributes.len()
        invariant
            i <= variable.attributes.len(),
            attributes == variable@.attributes,
            attributes.len() == variable.attributes.len(),
            out@ == declaration + variable_attribute_lines(
                variable@.name,
                attributes.take(i as int),
                requirement_info,
                requirement_level_varattr@,
            ),
        decreases variable.attributes.len() - i,
    {
        let name = variable.attributes[i].0.as_str();
        let value = variable.attributes[i].1.as_str();
        proof {
            let upto = attributes.take(i + 1);
            assert(upto.drop_last() =~= attributes.take(i as int));
            assert(upto.last() == (name@, value@));
        }
        if !(same_text(name, "type") || same_text(name, "dimension")) {
            let content = create_variable_attribute_content(
                variable.name.as_str(),
                name,
                value,
            );
            let text = format_line(content, requirement_info, &requirement_level_varattr);
            out.append(text.as_str());
            assert(out@ =~= declaration + variable_attribute_lines(
                variable@.name,
                attributes.take(i + 1),
                requirement_info,
                requirement_level_varattr@,
            ));
        }
        i = i + 1;
    }
    assert(attributes.take(i as int) =~= attributes);
    out
}

/// The length of a dimension as it is written: in decimal, or a placeholder
/// where the vocabulary gives none.
pub open spec fn dimension_length_text(length: Option<u32>) -> Seq<char> {
    match length {
        Some(n) => decimal(n as nat),
        None => "<dim length>"@,
    }
}

/// The content line of a dimension.
pub open spec fn dimension_content(name: Seq<char>, length: Option<u32>) -> Seq<char> {
    "        "@ + name + " = "@ + dimension_length_text(length) + " ;"@
}

/// The finished line of a dimension. A dimension is always required.
pub open spec fn dimension_text(name: Seq<char>, length: Option<u32>, annotate: bool) -> Seq<
    char,
> {
    formatted_line(dimension_content(name, length), annotate, RequirementLevelView::Required)
}

/// Renders one dimension.
pub fn create_dimension_text(
    dimension_name: &str,
    dimension_length: Option<u32>,
    requirement_info: bool,
) -> (out: String)
    ensures
        out@ == dimension_text(dimension_name@, dimension_length, requirement_info),
{
    let mut line = String::from_str("        ");
    line.append(dimension_name);
    line.append(" = ");
    match dimension_length {
        Some(length) => {
            let digits = decimal_string(length);
            line.append(digits.as_str());
        },
        None => {
            line.append("<dim length>");
        },
    }
    line.append(" ;");
    format_line(line, requirement_info, &RequirementLevel::Required)
}

/// The finished lines of a list of dimensions, in order.
pub open spec fn dimension_lines(dimensions: Seq<DimensionView>, annotate: bool) -> Seq<char>
    decreases dimensions.len(),
{
    if dimensions.len() == 0 {
        Seq::empty()
    } else {
        dimension_lines(dimensions.drop_last(), annotate) + dimension_text(
            dimensions.last().name,
            dimensions.last().length,
            annotate,
        )
    }
}

/// The dimension section: its heading, the dimensions of the deployment, then
/// those of the data product.
pub open spec fn dimension_section_text(
    deployment: DeploymentView,
    data_product: DataProductView,
    annotate: bool,
) -> Seq<char> {
    "dimensions:\n"@ + dimension_lines(deployment.dimensions, annotate) + dimension_lines(
        data_product.dimensions,
        annotate,
    )
}

fn append_dimensions(section: &mut String, dimensions: &Vec<Dimension>, requirement_info: bool)
    ensures
        final(section)@ == old(section)@ + dimension_lines(
            dimensions_view(dimensions@),
            requirement_info,
        ),
{
    let ghost start = section@;
    let ghost all = dimensions_view(dimensions@);
    assert(start + dimension_lines(all.take(0), requirement_info) =~= start);
    let mut i: usize = 0;
    while i < dimensions.len()
        invariant
            i <= dimensions.len(),
            all == dimensions_view(dimensions@),
            section@ == start + dimension_lines(all.take(i as int), requirement_info),
        decreases dimensions.len() - i,
    {
        let dimension = &dimensions[i];
        let text = create_dimension_text(
            dimension.name.as_str(),
            dimension.length,
            requirement_info,
        );
        section.append(text.as_str());
        proof {
            let upto = all.take(i + 1);
            assert(upto.drop_last() =~= all.take(i as int));
            assert(upto.last() == dimension@);
            assert(section@ =~= start + dimension_lines(upto, requirement_info));
        }
        i = i + 1;
    }
    assert(all.take(i as int) =~= all);
}

/// Renders the dimension section.
pub fn dimension_section(
    deployment: &Deployment,
    data_product: &DataProduct,
    requirement_info: bool,
) -> (out: String)
    ensures
        out@ == dimension_section_text(deployment@, data_product@, requirement_info),
{
    let mut section = String::from_str("dimensions:\n");
    append_dimensions(&mut section, &deployment.dimensions, requirement_info);
    append_dimensions(&mut section, &data_product.dimensions, requirement_info);
    section
}

/// The finished lines of a list of variables, in order, each with the given
/// requirement levels.
pub open spec fn variable_texts(
    variables: Seq<VariableView>,
    annotate: bool,
    variable_level: RequirementLevelView,
    attribute_level: RequirementLevelView,
) -> Seq<char>
    decreases variables.len(),
{
    if variables.len() == 0 {
        Seq::empty()
    } else {
        variable_texts(variables.drop_last(), annotate, variable_level, attribute_level)
            + variable_text(variables.last(), annotate, variable_level, attribute_level)
    }
}

/// The requirement level of the attributes of a variable that the data
/// product adds.
pub open spec fn if_present() -> RequirementLevelView {
    RequirementLevelView::RequiredIf("the variable is present"@)
}

/// The variable section: its heading, the variables of the deployment, which
/// are required, then those of the data product, which are optional and whose
/// attributes are required once the variable is there.
pub open spec fn variable_section_text(
    deployment: DeploymentView,
    data_product: DataProductView,
    annotate: bool,
) -> Seq<char> {
    "variables:\n"@ + variable_texts(
        deployment.variables,
        annotate,
        RequirementLevelView::Required,
        RequirementLevelView::Required,
    ) + variable_texts(
        data_product.variables,
        annotate,
        RequirementLevelView::Optional,
        if_present(),
    )
}

fn append_variables(
    section: &mut String,
    variables: &Vec<Variable>,
    requirement_info: bool,
    variable_level: &RequirementLevel,
    attribute_level: &RequirementLevel,
)
    ensures
        final(section)@ == old(section)@ + variable_texts(
            variables_view(variables@),
            requirement_info,
            variable_level@,
            attribute_level@,
        ),
{
    let ghost start = section@;
    let ghost all = variables_view(variables@);
    assert(start + variable_texts(
        all.take(0),
        requirement_info,
        variable_level@,
        attribute_level@,
    ) =~= start);
    let mut i: usize = 0;
    while i < variables.len()
        invariant
            i <= variables.len(),
            all == variables_view(variables@),
            section@ == start + variable_texts(
                all.take(i as int),
                requirement_info,
                variable_level@,
                attribute_level@,
            ),
        decreases variables.len() - i,
    {
        let text = create_variable_text(
            &variables[i],
            requirement_info,
            variable_level.clone(),
            attribute_level.clone(),
        );
        section.append(text.as_str());
        proof {
            let upto = all.take(i + 1);
            assert(upto.drop_last() =~= all.take(i as int));
            assert(upto.last() == variables[i as int]@);
            assert(section@ =~= start + variable_texts(
                upto,
                requirement_info,
                variable_level@,
                attribute_level@,
            ));
        }
        i = i + 1;
    }
    assert(all.take(i as int) =~= all);
}

/// Renders the variable section.
pub fn variable_section(
    deployment: &Deployment,
    data_product: &DataProduct,
    requirement_info: bool,
) -> (out: String)
    ensures
        out@ == variable_section_text(deployment@, data_product@, requirement_info),
{
    let mut section = String::from_str("variables:\n");
    append_variables(
        &mut section,
        &deployment.variables,
        requirement_info,
        &RequirementLevel::Required,
        &RequirementLevel::Required,
    );
    let present = RequirementLevel::RequiredIf(String::from_str("the variable is present"));
    append_variables(
        &mut section,
        &data_product.variables,
        requirement_info,
        &RequirementLevel::Optional,
        &present,
    );
    section
}

/// A field of the instrument record that a global attribute can take its
/// value from.
#[derive(Debug, Clone, Copy, PartialEq, Eq, Structural)]
pub enum RecordField {
    Manufacturer,
    ModelNo,
    SerialNumber,
    Descriptor,
}

/// The field of the instrument record that the global attribute called
/// `name` takes its value from; `None` for an attribute that takes it from
/// the vocabulary table.
pub open spec fn record_source(name: Seq<char>) -> Option<RecordField> {
    if name == "instrument_manufacturer"@ {
        Some(RecordField::Manufacturer)
    } else if name == "instrument_model"@ {
        Some(RecordField::ModelNo)
    } else if name == "instrument_serial_number"@ {
        Some(RecordField::SerialNumber)
    } else if name == "source"@ {
        Some(RecordField::Descriptor)
    } else {
        None
    }
}

/// What the instrument record holds in a field.
pub open spec fn record_field(record: InstRecordView, field: RecordField) -> Option<Seq<char>> {
    match field {
        RecordField::Manufacturer => record.manufacturer,
        RecordField::ModelNo => record.model_no,
        RecordField::SerialNumber => record.serial_number,
        RecordField::Descriptor => record.descriptor,
    }
}

/// The text of an instrument record field, or the word `EXAMPLE` where the
/// record leaves the field out.
pub open spec fn field_or_example(field: Option<Seq<char>>) -> Seq<char> {
    match field {
        Some(value) => value,
        None => "EXAMPLE"@,
    }
}

/// The value that a global attribute is rendered with. An attribute with a
/// source in the instrument record takes the field of the record, whatever
/// the vocabulary table holds for it. Every other attribute takes its fixed
/// value, or its example behind `EXAMPLE: ` where the table fixes none.
pub open spec fn resolved_value(attribute: GlobalAttributeView, record: InstRecordView) -> Seq<
    char,
> {
    match record_source(attribute.name) {
        Some(field) => field_or_example(record_field(record, field)),
        None => {
            if attribute.value.len() == 0 {
                "EXAMPLE: "@ + attribute.example
            } else {
                attribute.value
            }
        },
    }
}

/// Looks up the field of the instrument record that the global attribute
/// called `name` takes its value from.
pub fn source_in_record(name: &str) -> (out: Option<RecordField>)
    ensures
        out == record_source(name@),
{
    if same_text(name, "instrument_manufacturer") {
        Some(RecordField::Manufacturer)
    } else if same_text(name, "instrument_model") {
        Some(RecordField::ModelNo)
    } else if same_text(name, "instrument_serial_number") {
        Some(RecordField::SerialNumber)
    } else if same_text(name, "source") {
        Some(RecordField::Descriptor)
    } else {
        None
    }
}

/// The content line of a global attribute.
pub open spec fn global_attribute_content(
    attribute: GlobalAttributeView,
    record: InstRecordView,
) -> Seq<char> {
    "                "@ + attribute.name + " = \""@ + resolved_value(attribute, record)
        + "\" ;"@
}

/// The finished line of a global attribute. A global attribute is always
/// required.
pub open spec fn global_attribute_text(
    attribute: GlobalAttributeView,
    record: InstRecordView,
    annotate: bool,
) -> Seq<char> {
    formatted_line(
        global_attribute_content(attribute, record),
        annotate,
        RequirementLevelView::Required,
    )
}

fn field_text(record: &InstRecord, field: RecordField) -> (out: String)
    ensures
        out@ == field_or_example(record_field(record@, field)),
{
    let held = match field {
        RecordField::Manufacturer => &record.manufacturer,
        RecordField::ModelNo => &record.model_no,
        RecordField::SerialNumber => &record.serial_number,
        RecordField::Descriptor => &record.descriptor,
    };
    match held {
        Some(value) => value.clone(),
        None => String::from_str("EXAMPLE"),
    }
}

/// Renders one global attribute.
pub fn create_attribute_text(
    attr: &GlobalAttribute,
    instrument_record: &InstRecord,
    requirement_info: bool,
) -> (out: String)
    ensures
        out@ == global_attribute_text(attr@, instrument_record@, requirement_info),
{
    let name = attr.name.as_str();
    let value = match source_in_record(name) {
        Some(field) => field_text(instrument_record, field),
        None => {
            if attr.value.as_str().is_empty() {
                let mut example = String::from_str("EXAMPLE: ");
                example.append(attr.example.as_str());
                example
            } else {
                attr.value.clone()
            }
        },
    };
    let mut line = String::from_str("                ");
    line.append(name);
    line.append(" = \"");
    line.append(value.as_str());
    line.append("\" ;");
    format_line(line, requirement_info, &RequirementLevel::Required)
}

/// The finished lines of a list of global attributes, in order.
pub open spec fn global_attribute_lines(
    attributes: Seq<GlobalAttributeView>,
    record: InstRecordView,
    annotate: bool,
) -> Seq<char>
    decreases attributes.len(),
{
    if attributes.len() == 0 {
        Seq::empty()
    } else {
        global_attribute_lines(attributes.drop_last(), record, annotate) + global_attribute_text(
            attributes.last(),
            record,
            annotate,
        )
    }
}

/// The global attribute section: an empty line, its heading, the attributes
/// that all data products share, then those of the data product.
pub open spec fn attribute_section_text(
    common: CommonView,
    data_product: DataProductView,
    record: InstRecordView,
    annotate: bool,
) -> Seq<char> {
    "\n// global attributes:\n"@ + global_attribute_lines(
        common.global_attributes,
        record,
        annotate,
    ) + global_attribute_lines(data_product.global_attributes, record, annotate)
}

fn append_global_attributes(
    section: &mut String,
    attributes: &Vec<GlobalAttribute>,
    instrument_record: &InstRecord,
    requirement_info: bool,
)
    ensures
        final(section)@ == old(section)@ + global_attribute_lines(
            global_attributes_view(attributes@),
            instrument_record@,
            requirement_info,
        ),
{
    let ghost start = section@;
    let ghost all = global_attributes_view(attributes@);
    assert(start + global_attribute_lines(all.take(0), instrument_record@, requirement_info)
        =~= start);
    let mut i: usize = 0;
    while i < attributes.len()
        invariant
            i <= attributes.len(),
            all == global_attributes_view(attributes@),
            section@ == start + global_attribute_lines(
                all.take(i as int),
                instrument_record@,
                requirement_info,
            ),
        decreases attributes.len() - i,
    {
        let text = create_attribute_text(&attributes[i], instrument_record, requirement_info);
        section.append(text.as_str());
        proof {
            let upto = all.take(i + 1);
            assert(upto.drop_last() =~= all.take(i as int));
            assert(upto.last() == attributes[i as int]@);
            assert(section@ =~= start + global_attribute_lines(
                upto,
                instrument_record@,
                requirement_info,
            ));
        }
        i = i + 1;
    }
    assert(all.take(i as int) =~= all);
}

/// Renders the global attribute section.
pub fn attribute_section(
    common: &Common,
    data_product: &DataProduct,
    instrument_record: &InstRecord,
    requirement_info: bool,
) -> (out: String)
    ensures
        out@ == attribute_section_text(
            common@,
            data_product@,
            instrument_record@,
            requirement_info,
        ),
{
    let mut section = String::from_str("\n// global attributes:\n");
    append_global_attributes(
        &mut section,
        &common.global_attributes,
        instrument_record,
        requirement_info,
    );
    append_global_attributes(
        &mut section,
        &data_product.global_attributes,
        instrument_record,
        requirement_info,
    );
    section
}

/// The name of the dataset: the file name without a closing `.nc`.
pub open spec fn file_stem(file_name: Seq<char>) -> Seq<char> {
    if ends_with(file_name, ".nc"@) {
        file_name.subrange(0, file_name.len() - 3)
    } else {
        file_name
    }
}

/// The line that opens the template.
pub open spec fn header_text(file_name: Seq<char>) -> Seq<char> {
    "netcdf "@ + file_stem(file_name) + " {\n"@
}

/// The whole template: the opening line, the dimension, variable and global
/// attribute sections, and the closing brace, with no line feed behind it.
pub open spec fn cdl_text(
    file_name: Seq<char>,
    common: CommonView,
    deployment: DeploymentView,
    data_product: DataProductView,
    record: InstRecordView,
    annotate: bool,
) -> Seq<char> {
    header_text(file_name) + dimension_section_text(deployment, data_product, annotate)
        + variable_section_text(deployment, data_product, annotate) + attribute_section_text(
        common,
        data_product,
        record,
        annotate,
    ) + "}"@
}

fn dataset_name(file_name: &str) -> (stem: &str)
    ensures
        stem@ == file_stem(file_name@),
{
    proof {
        reveal_strlit(".nc");
    }
    let n = file_name.unicode_len();
    if n >= 3 && file_name.get_char(n - 3) == '.' && file_name.get_char(n - 2) == 'n'
        && file_name.get_char(n - 1) == 'c' {
        assert(file_name@.subrange(n - 3, n as int) =~= ".nc"@);
        file_name.substring_char(0, n - 3)
    } else {
        assert(!ends_with(file_name@, ".nc"@)) by {
            if ends_with(file_name@, ".nc"@) {
                let tail = file_name@.subrange(n - 3, n as int);
                assert(tail[0] == '.' && tail[1] == 'n' && tail[2] == 'c');
            }
        }
        file_name
    }
}

/// Whether `out` is the outcome of rendering the entities: the template, and
/// never an error.
pub open spec fn renders(
    file_name: Seq<char>,
    common: CommonView,
    deployment: DeploymentView,
    data_product: DataProductView,
    record: InstRecordView,
    annotate: bool,
    out: Result<String, CdlError>,
) -> bool {
    out matches Ok(cdl) && cdl@ == cdl_text(
        file_name,
        common,
        deployment,
        data_product,
        record,
        annotate,
    )
}

/// Renders the CDL template of a data product of an instrument in a
/// deployment mode. It always succeeds.
pub fn make_cdl(
    file_name: String,
    common: Common,
    deployment: Deployment,
    data_product: DataProduct,
    instrument_record: InstRecord,
    requirement_info: bool,
) -> (out: Result<String, CdlError>)
    ensures
        renders(
            file_name@,
            common@,
            deployment@,
            data_product@,
            instrument_record@,
            requirement_info,
            out,
        ),
{
    let mut cdl = String::from_str("netcdf ");
    cdl.append(dataset_name(file_name.as_str()));
    cdl.append(" {\n");
    let dimensions = dimension_section(&deployment, &data_product, requirement_info);
    cdl.append(dimensions.as_str());
    let variables = variable_section(&deployment, &data_product, requirement_info);
    cdl.append(variables.as_str());
    let attributes = attribute_section(
        &common,
        &data_product,
        &instrument_record,
        requirement_info,
    );
    cdl.append(attributes.as_str());
    cdl.append("}");
    Ok(cdl)
}

} // verus!
