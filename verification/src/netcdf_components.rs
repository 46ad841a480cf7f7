//! The building blocks of a NetCDF schema: dimensions, variables and global
//! attributes, each with the mathematical value its contracts speak of.

use crate::text::same_text;
use vstd::prelude::*;

verus! {

/// A named dimension. Without a length it is rendered with a placeholder.
#[derive(Debug)]
pub struct Dimension {
    pub name: String,
    pub length: Option<u32>,
}

/// What a [`Dimension`] holds.
pub struct DimensionView {
    pub name: Seq<char>,
    pub length: Option<u32>,
}

impl View for Dimension {
    type V = DimensionView;

    open spec fn view(&self) -> DimensionView {
        DimensionView { name: self.name@, length: self.length }
    }
}

/// A variable with its attributes in the order in which they were declared.
/// Each attribute is a pair of name and value; a name occurs once.
#[derive(Debug)]
pub struct Variable {
    pub name: String,
    pub attributes: Vec<(String, String)>,
}

/// What a [`Variable`] holds.
pub struct VariableView {
    pub name: Seq<char>,
    pub attributes: Seq<(Seq<char>, Seq<char>)>,
}

/// The name and value of one attribute.
pub open spec fn pair_view(pair: (String, String)) -> (Seq<char>, Seq<char>) {
    (pair.0@, pair.1@)
}

/// The names and values of a list of attributes, in order.
pub open spec fn pairs_view(pairs: Seq<(String, String)>) -> Seq<(Seq<char>, Seq<char>)> {
    pairs.map_values(|pair: (String, String)| pair_view(pair))
}

impl View for Variable {
    type V = VariableView;

    open spec fn view(&self) -> VariableView {
        VariableView { name: self.name@, attributes: pairs_view(self.attributes@) }
    }
}

/// The position of the first attribute called `name`, or the number of
/// attributes if there is none.
pub open spec fn attribute_position(
    attributes: Seq<(Seq<char>, Seq<char>)>,
    name: Seq<char>,
) -> nat
    decreases attributes.len(),
{
    if attributes.len() == 0 {
        0
    } else if attributes.first().0 == name {
        0
    } else {
        1 + attribute_position(attributes.drop_first(), name)
    }
}

/// The value of the attribute called `name`, if there is one.
pub open spec fn attribute_value(
    attributes: Seq<(Seq<char>, Seq<char>)>,
    name: Seq<char>,
) -> Option<Seq<char>> {
    let at = attribute_position(attributes, name);
    if at < attributes.len() {
        Some(attributes[at as int].1)
    } else {
        None
    }
}

/// An attribute called `name` that has no attribute of that name before it
/// stands at the attribute position of `name`; where no attribute has the
/// name, the position is the number of attributes.
pub proof fn lemma_attribute_position(
    attributes: Seq<(Seq<char>, Seq<char>)>,
    name: Seq<char>,
    at: int,
)
    requires
        0 <= at <= attributes.len(),
        forall|j: int| 0 <= j < at ==> (#[trigger] attributes[j]).0 != name,
        at < attributes.len() ==> attributes[at].0 == name,
    ensures
        attribute_position(attributes, name) == at,
    decreases at,
{
    if at > 0 {
        let rest = attributes.drop_first();
        assert(attributes.first() == attributes[0]);
        assert forall|j: int| 0 <= j < at - 1 implies (#[trigger] rest[j]).0 != name by {
            assert(rest[j] == attributes[j + 1]);
        }
        if at < attributes.len() {
            assert(rest[at - 1] == attributes[at]);
        }
        lemma_attribute_position(rest, name, at - 1);
    }
}

impl Variable {
    /// Looks up the value of the attribute called `name`.
    pub fn attribute(&self, name: &str) -> (found: Option<&String>)
        ensures
            optional_text_ref(found) == attribute_value(self@.attributes, name@),
    {
        let mut i: usize = 0;
        while i < self.attributes.len()
            invariant
                i <= self.attributes.len(),
                forall|j: int| 0 <= j < i ==> (#[trigger] self@.attributes[j]).0 != name@,
            decreases self.attributes.len() - i,
        {
            if same_text(self.attributes[i].0.as_str(), name) {
                proof {
                    lemma_attribute_position(self@.attributes, name@, i as int);
                }
                return Some(&self.attributes[i].1);
            }
            i = i + 1;
        }
        proof {
            lemma_attribute_position(self@.attributes, name@, i as int);
        }
        None
    }
}

/// The text of an optional borrowed string.
pub open spec fn optional_text_ref(text: Option<&String>) -> Option<Seq<char>> {
    match text {
        Some(s) => Some(s@),
        None => None,
    }
}

/// The attributes with `name` set to `value`: in the place where the name
/// stands already, or behind the others where it is new.
pub open spec fn with_attribute(
    attributes: Seq<(Seq<char>, Seq<char>)>,
    name: Seq<char>,
    value: Seq<char>,
) -> Seq<(Seq<char>, Seq<char>)> {
    let at = attribute_position(attributes, name);
    if at < attributes.len() {
        attributes.update(at as int, (name, value))
    } else {
        attributes.push((name, value))
    }
}

/// Setting an attribute keeps the names distinct, and the attribute then
/// has the value that was set.
pub proof fn lemma_with_attribute(
    attributes: Seq<(Seq<char>, Seq<char>)>,
    name: Seq<char>,
    value: Seq<char>,
)
    requires
        distinct_names(attributes),
    ensures
        distinct_names(with_attribute(attributes, name, value)),
        attribute_value(with_attribute(attributes, name, value), name) == Some(value),
{
    let at = attribute_position(attributes, name) as int;
    lemma_position_is_first(attributes, name);
    let changed = with_attribute(attributes, name, value);
    assert forall|j: int| 0 <= j < at implies (#[trigger] changed[j]).0 != name by {
        assert(attributes[j].0 != name);
    }
    lemma_attribute_position(changed, name, at);
    assert forall|i: int, j: int| 0 <= i < j < changed.len() implies (#[trigger] changed[i]).0 != (
    #[trigger] changed[j]).0 by {
        if at < attributes.len() {
            assert(changed[i].0 == attributes[i].0);
            assert(changed[j].0 == attributes[j].0);
        } else if j == attributes.len() {
            assert(attributes[i].0 != name);
        } else {
            assert(changed[i] == attributes[i]);
            assert(changed[j] == attributes[j]);
        }
    }
}

/// The attribute position of a name is where the name stands first.
pub proof fn lemma_position_is_first(attributes: Seq<(Seq<char>, Seq<char>)>, name: Seq<char>)
    ensures
        attribute_position(attributes, name) <= attributes.len(),
        attribute_position(attributes, name) < attributes.len() ==> attributes[attribute_position(
            attributes,
            name,
        ) as int].0 == name,
        forall|j: int|
            0 <= j < attribute_position(attributes, name) ==> (#[trigger] attributes[j]).0 != name,
    decreases attributes.len(),
{
    if attributes.len() > 0 && attributes.first().0 != name {
        let rest = attributes.drop_first();
        lemma_position_is_first(rest, name);
        let at = attribute_position(rest, name) as int;
        if at < rest.len() {
            assert(rest[at] == attributes[at + 1]);
        }
        assert forall|j: int| 0 <= j < at + 1 implies (#[trigger] attributes[j]).0 != name by {
            if j > 0 {
                assert(rest[j - 1] == attributes[j]);
            }
        }
    }
}

impl Variable {
    /// Whether the variable is well formed: no two of its attributes share
    /// a name.
    pub open spec fn well_formed(&self) -> bool {
        distinct_names(self@.attributes)
    }

    /// A variable called `name` without attributes.
    pub fn new(name: String) -> (variable: Variable)
        ensures
            variable@.name == name@,
            variable@.attributes == Seq::<(Seq<char>, Seq<char>)>::empty(),
            variable.well_formed(),
    {
        let variable = Variable { name, attributes: Vec::new() };
        assert(variable@.attributes =~= Seq::empty());
        variable
    }

    /// Sets the attribute `name` to `value`. An attribute that the variable
    /// has already keeps its place and takes the new value; a new one goes
    /// behind the others.
    pub fn set_attribute(&mut self, name: String, value: String)
        ensures
            final(self)@.name == old(self)@.name,
            final(self)@.attributes == with_attribute(old(self)@.attributes, name@, value@),
            old(self).well_formed() ==> final(self).well_formed(),
    {
        let ghost before = self@.attributes;
        proof {
            if distinct_names(before) {
                lemma_with_attribute(before, name@, value@);
            }
        }
        let mut i: usize = 0;
        while i < self.attributes.len()
            invariant
                i <= self.attributes.len(),
                self@.attributes == before,
                before == old(self)@.attributes,
                distinct_names(before) ==> distinct_names(with_attribute(before, name@, value@)),
                self@.name == old(self)@.name,
                forall|j: int| 0 <= j < i ==> (#[trigger] before[j]).0 != name@,
            decreases self.attributes.len() - i,
        {
            if same_text(self.attributes[i].0.as_str(), name.as_str()) {
                proof {
                    lemma_attribute_position(before, name@, i as int);
                }
                self.attributes.set(i, (name, value));
                assert(self@.attributes =~= before.update(i as int, (name@, value@)));
                return ;
            }
            i = i + 1;
        }
        proof {
            lemma_attribute_position(before, name@, i as int);
        }
        self.attributes.push((name, value));
        assert(self@.attributes =~= before.push((name@, value@)));
    }
}

/// No two attributes share a name.
pub open spec fn distinct_names(attributes: Seq<(Seq<char>, Seq<char>)>) -> bool {
    forall|i: int, j: int|
        0 <= i < j < attributes.len() ==> (#[trigger] attributes[i]).0 != (
        #[trigger] attributes[j]).0
}

/// A global attribute of the vocabulary: its name, its fixed value (empty
/// where the table fixes none), an example value and its compliance rule.
#[derive(Debug)]
pub struct GlobalAttribute {
    pub name: String,
    pub value: String,
    pub example: String,
    pub compliance: String,
}

/// What a [`GlobalAttribute`] holds.
pub struct GlobalAttributeView {
    pub name: Seq<char>,
    pub value: Seq<char>,
    pub example: Seq<char>,
    pub compliance: Seq<char>,
}

impl View for GlobalAttribute {
    type V = GlobalAttributeView;

    open spec fn view(&self) -> GlobalAttributeView {
        GlobalAttributeView {
            name: self.name@,
            value: self.value@,
            example: self.example@,
            compliance: self.compliance@,
        }
    }
}

/// The values of a list of dimensions, in order.
pub open spec fn dimensions_view(dimensions: Seq<Dimension>) -> Seq<DimensionView> {
    dimensions.map_values(|d: Dimension| d@)
}

/// The values of a list of variables, in order.
pub open spec fn variables_view(variables: Seq<Variable>) -> Seq<VariableView> {
    variables.map_values(|v: Variable| v@)
}

/// The values of a list of global attributes, in order.
pub open spec fn global_attributes_view(attributes: Seq<GlobalAttribute>) -> Seq<
    GlobalAttributeView,
> {
    attributes.map_values(|a: GlobalAttribute| a@)
}

/// The text of an optional string.
pub open spec fn optional_text(text: Option<String>) -> Option<Seq<char>> {
    match text {
        Some(s) => Some(s@),
        None => None,
    }
}

} // verus!
