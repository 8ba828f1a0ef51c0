//! Tool declarations without the boilerplate: name the arguments, get the
//! schema.

use vstd::prelude::*;

verus! {

/// One argument of a tool.
#[derive(Debug, Clone, PartialEq, Eq)]
pub struct ToolArg {
    name: String,
    description: String,
    arg_type: ToolArgType,
    is_mandatory: bool,
}

/// The type of a tool's argument.
#[derive(Debug, Clone, Copy, PartialEq, Eq, Structural)]
pub enum ToolArgType {
    String,
    Integer,
    Float,
    Bool,
    Array,
}

impl ToolArgType {
    /// The name of the type in a schema.
    pub open spec fn schema_name(&self) -> Seq<char> {
        match self {
            ToolArgType::String => "string"@,
            ToolArgType::Integer => "integer"@,
            ToolArgType::Float => "float"@,
            ToolArgType::Bool => "boolean"@,
            ToolArgType::Array => "array"@,
        }
    }

    /// The name of the type in a schema.
    pub fn to_string(&self) -> (name: String)
        ensures
            name@ == self.schema_name(),
    {
        match self {
            ToolArgType::String => "string".to_string(),
            ToolArgType::Integer => "integer".to_string(),
            ToolArgType::Float => "float".to_string(),
            ToolArgType::Bool => "boolean".to_string(),
            ToolArgType::Array => "array".to_string(),
        }
    }
}

impl ToolArg {
    pub closed spec fn spec_name(&self) -> Seq<char> {
        self.name@
    }

    pub closed spec fn spec_description(&self) -> Seq<char> {
        self.description@
    }

    pub closed spec fn spec_arg_type(&self) -> ToolArgType {
        self.arg_type
    }

    pub closed spec fn spec_is_mandatory(&self) -> bool {
        self.is_mandatory
    }

    pub fn new(name: &str, description: &str, arg_type: ToolArgType, is_mandatory: bool) -> (arg:
        Self)
        ensures
            arg.spec_name() == name@,
            arg.spec_description() == description@,
            arg.spec_arg_type() == arg_type,
            arg.spec_is_mandatory() == is_mandatory,
    {
        Self {
            name: name.to_string(),
            description: description.to_string(),
            arg_type,
            is_mandatory,
        }
    }
}

/// One property of a tool's input schema.
#[derive(Debug, Clone, PartialEq, Eq)]
pub struct ToolProperty {
    pub name: String,
    pub arg_type: ToolArgType,
    pub description: String,
}

/// A tool as the model is told of it: a JSON object schema whose
/// properties are the arguments by name, and the names that must be given.
#[derive(Debug, Clone, PartialEq, Eq)]
pub struct ToolSchema {
    pub name: String,
    pub description: String,
    /// No two properties share a name; their order means nothing.
    pub properties: Vec<ToolProperty>,
    pub required: Vec<String>,
}

/// Whether no argument after place `i` has the name of the one at `i`.
pub open spec fn is_last_of_its_name(inputs: Seq<ToolArg>, i: int) -> bool {
    forall|j: int| i < j < inputs.len() ==> (#[trigger] inputs[j]).spec_name() != inputs[i].spec_name()
}

/// Whether `property` says what `arg` says.
pub open spec fn declares(property: &ToolProperty, arg: &ToolArg) -> bool {
    &&& property.name@ == arg.spec_name()
    &&& property.arg_type == arg.spec_arg_type()
    &&& property.description@ == arg.spec_description()
}

/// The names of the mandatory arguments, in the order given and as often
/// as given.
pub open spec fn required_names(inputs: Seq<ToolArg>) -> Seq<Seq<char>>
    decreases inputs.len(),
{
    if inputs.len() == 0 {
        Seq::empty()
    } else if inputs.last().spec_is_mandatory() {
        required_names(inputs.drop_last()).push(inputs.last().spec_name())
    } else {
        required_names(inputs.drop_last())
    }
}

/// Whether `property` is taken from the last argument of its name, at
/// place `from` or after.
pub open spec fn comes_from(property: &ToolProperty, inputs: Seq<ToolArg>, from: int) -> bool {
    exists|j: int|
        from <= j < inputs.len() && is_last_of_its_name(inputs, j) && #[trigger] declares(
            property,
            &inputs[j],
        )
}

/// Whether some property has this name.
pub open spec fn has_property(properties: Seq<ToolProperty>, name: Seq<char>) -> bool {
    exists|k: int| 0 <= k < properties.len() && (#[trigger] properties[k]).name@ == name
}

/// Whether `properties` are those of `inputs` from place `from` on: one
/// for each name, taken from the last argument of that name.
pub open spec fn are_properties_of(
    properties: Seq<ToolProperty>,
    inputs: Seq<ToolArg>,
    from: int,
) -> bool {
    &&& forall|k: int, l: int|
        #![trigger properties[k], properties[l]]
        0 <= k < l < properties.len() ==> properties[k].name@ != properties[l].name@
    &&& forall|j: int|
        from <= j < inputs.len() ==> has_property(properties, (#[trigger] inputs[j]).spec_name())
    &&& forall|k: int|
        0 <= k < properties.len() ==> comes_from(#[trigger] &properties[k], inputs, from)
}

/// An argument whose name has a property already adds nothing.
proof fn lemma_property_kept(properties: Seq<ToolProperty>, inputs: Seq<ToolArg>, i: int)
    requires
        0 <= i < inputs.len(),
        are_properties_of(properties, inputs, i + 1),
        has_property(properties, inputs[i].spec_name()),
    ensures
        are_properties_of(properties, inputs, i),
{
    assert forall|k: int| 0 <= k < properties.len() implies comes_from(
        #[trigger] &properties[k],
        inputs,
        i,
    ) by {
        assert(comes_from(&properties[k], inputs, i + 1));
        let j = choose|j: int|
            i + 1 <= j < inputs.len() && is_last_of_its_name(inputs, j) && #[trigger] declares(
                &properties[k],
                &inputs[j],
            );
        assert(declares(&properties[k], &inputs[j]));
    }
}

/// An argument whose name has no property yet is the last of its name,
/// and its property joins the others.
proof fn lemma_property_added(
    properties: Seq<ToolProperty>,
    inputs: Seq<ToolArg>,
    i: int,
    property: ToolProperty,
)
    requires
        0 <= i < inputs.len(),
        are_properties_of(properties, inputs, i + 1),
        !has_property(properties, inputs[i].spec_name()),
        declares(&property, &inputs[i]),
    ensures
        are_properties_of(properties.push(property), inputs, i),
{
    let extended = properties.push(property);
    let n = properties.len() as int;
    assert(is_last_of_its_name(inputs, i)) by {
        assert forall|j: int| i < j < inputs.len() implies (#[trigger] inputs[j]).spec_name()
            != inputs[i].spec_name() by {
            assert(has_property(properties, inputs[j].spec_name()));
        }
    }
    assert forall|k: int, l: int|
        #![trigger extended[k], extended[l]]
        0 <= k < l < extended.len() implies extended[k].name@ != extended[l].name@ by {
        assert(extended[k] == properties[k]);
        if l < n {
            assert(extended[l] == properties[l]);
        }
    }
    assert forall|j: int| i <= j < inputs.len() implies has_property(
        extended,
        (#[trigger] inputs[j]).spec_name(),
    ) by {
        if j == i {
            assert(extended[n].name@ == inputs[j].spec_name());
        } else {
            assert(has_property(properties, inputs[j].spec_name()));
            let k = choose|k: int|
                0 <= k < properties.len() && (#[trigger] properties[k]).name@
                    == inputs[j].spec_name();
            assert(extended[k].name@ == inputs[j].spec_name());
        }
    }
    assert forall|k: int| 0 <= k < extended.len() implies comes_from(
        #[trigger] &extended[k],
        inputs,
        i,
    ) by {
        if k == n {
            assert(declares(&extended[k], &inputs[i]));
        } else {
            assert(extended[k] == properties[k]);
            assert(comes_from(&properties[k], inputs, i + 1));
            let j = choose|j: int|
                i + 1 <= j < inputs.len() && is_last_of_its_name(inputs, j)
                    && #[trigger] declares(&properties[k], &inputs[j]);
            assert(declares(&extended[k], &inputs[j]));
        }
    }
}

/// Where among `properties` the one named `name` stands, if any does.
fn position(properties: &Vec<ToolProperty>, name: &String) -> (found: Option<usize>)
    ensures
        match found {
            Some(k) => k < properties@.len() && properties@[k as int].name@ == name@,
            None => !has_property(properties@, name@),
        },
{
    let mut k: usize = 0;
    while k < properties.len()
        invariant
            k <= properties@.len(),
            forall|l: int| 0 <= l < k ==> (#[trigger] properties@[l]).name@ != name@,
        decreases properties@.len() - k,
    {
        if properties[k].name == *name {
            return Some(k);
        }
        k += 1;
    }
    None
}

/// Declares a tool. Each argument becomes a property under its name; where
/// a name occurs more than once, the last argument of that name counts.
/// Every mandatory argument is listed as required.
pub fn mk_tool(name: &str, description: &str, inputs: &Vec<ToolArg>) -> (tool: ToolSchema)
    ensures
        tool.name@ == name@,
        tool.description@ == description@,
        are_properties_of(tool.properties@, inputs@, 0),
        tool.required@.len() == required_names(inputs@).len(),
        forall|i: int|
            0 <= i < tool.required@.len() ==> (#[trigger] tool.required@[i])@ == required_names(
                inputs@,
            )[i],
{
    let mut properties: Vec<ToolProperty> = Vec::new();
    let mut i: usize = inputs.len();
    while i > 0
        invariant
            i <= inputs@.len(),
            are_properties_of(properties@, inputs@, i as int),
        decreases i,
    {
        i -= 1;
        let input = &inputs[i];
        match position(&properties, &input.name) {
            Some(k) => {
                proof {
                    lemma_property_kept(properties@, inputs@, i as int);
                }
            },
            None => {
                let property = ToolProperty {
                    name: input.name.clone(),
                    arg_type: input.arg_type,
                    description: input.description.clone(),
                };
                proof {
                    lemma_property_added(properties@, inputs@, i as int, property);
                }
                properties.push(property);
            },
        }
    }
    let mut required: Vec<String> = Vec::new();
    let mut i: usize = 0;
    while i < inputs.len()
        invariant
            i <= inputs@.len(),
            required@.len() == required_names(inputs@.take(i as int)).len(),
            forall|j: int|
                0 <= j < required@.len() ==> (#[trigger] required@[j])@ == required_names(
                    inputs@.take(i as int),
                )[j],
        decreases inputs@.len() - i,
    {
        assert(inputs@.take(i + 1).drop_last() =~= inputs@.take(i as int));
        if inputs[i].is_mandatory {
            required.push(inputs[i].name.clone());
        }
        i += 1;
    }
    assert(inputs@.take(i as int) =~= inputs@);
    ToolSchema { name: name.to_string(), description: description.to_string(), properties, required }
}

} // verus!
