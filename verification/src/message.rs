//! The structured payload exchanged with every predictor: an ordered mapping
//! from named text fields to values, each tagged as an input or an output
//! field, together with the schema a predictor declares. A predictor may only
//! be invoked on a message that carries every input field its schema declares;
//! a missing field is a wiring bug, not a runtime condition to recover from.

use vstd::prelude::*;

verus! {

/// The closed set of field names used by the pipeline's predictors.
#[derive(Clone, Copy, Debug, PartialEq, Eq, Structural)]
pub enum FieldName {
    UserMessage,
    Intent,
    UserQuestion,
    SearchQuery,
    ConversationHistory,
    SearchResults,
    Response,
}

/// Whether a field carries data into a predictor or out of it.
#[derive(Clone, Copy, Debug, PartialEq, Eq, Structural)]
pub enum FieldKind {
    Input,
    Output,
}

/// One named text field of a structured message.
pub struct MessageField {
    pub name: FieldName,
    pub kind: FieldKind,
    pub value: String,
}

/// An ordered mapping from field names to text values, the uniform payload
/// between the orchestrator and every predictor.
pub struct StructuredMessage {
    pub fields: Vec<MessageField>,
}

/// One field a schema declares: a name and a direction, no value.
#[derive(Clone, Copy, Debug, PartialEq, Eq, Structural)]
pub struct SchemaField {
    pub name: FieldName,
    pub kind: FieldKind,
}

/// The named input/output shape a predictor declares.
pub struct Schema {
    pub fields: Vec<SchemaField>,
}

/// No two fields of the message share a name: the message is a mapping.
pub open spec fn names_unique(fields: Seq<MessageField>) -> bool {
    forall|i: int, j: int| 0 <= i < j < fields.len() ==> fields[i].name != fields[j].name
}

/// The message carries a field of this name.
pub open spec fn spec_has_field(fields: Seq<MessageField>, name: FieldName) -> bool {
    exists|i: int| 0 <= i < fields.len() && fields[i].name == name
}

/// The message carries an input field of this name.
pub open spec fn spec_has_input(fields: Seq<MessageField>, name: FieldName) -> bool {
    exists|i: int|
        0 <= i < fields.len() && fields[i].name == name && fields[i].kind == FieldKind::Input
}

/// Every input field the schema declares is present in the message as an
/// input field. Extra message fields are ignored.
pub open spec fn spec_input_conforms(schema: Seq<SchemaField>, fields: Seq<MessageField>) -> bool {
    forall|i: int|
        0 <= i < schema.len() && schema[i].kind == FieldKind::Input ==> spec_has_input(
            fields,
            schema[i].name,
        )
}

impl StructuredMessage {
    /// A message with no fields.
    pub fn new() -> (m: StructuredMessage)
        ensures
            m.fields@.len() == 0,
    {
        StructuredMessage { fields: Vec::new() }
    }

    /// Whether the message carries an input field named `name`.
    pub fn has_input_field(&self, name: FieldName) -> (r: bool)
        ensures
            r == spec_has_input(self.fields@, name),
    {
        let mut i: usize = 0;
        while i < self.fields.len()
            invariant
                i <= self.fields@.len(),
                forall|j: int|
                    0 <= j < i ==> !(self.fields@[j].name == name && self.fields@[j].kind
                        == FieldKind::Input),
            decreases self.fields@.len() - i,
        {
            if self.fields[i].name == name && self.fields[i].kind == FieldKind::Input {
                return true;
            }
            i = i + 1;
        }
        false
    }

    /// The value of the field named `name`, if the message carries one.
    /// The message must be a mapping (unique names) for the value to be
    /// determined by the name.
    pub fn get_value(&self, name: FieldName) -> (r: Option<String>)
        requires
            names_unique(self.fields@),
        ensures
            r is Some <==> spec_has_field(self.fields@, name),
            r matches Some(v) ==> exists|i: int|
                0 <= i < self.fields@.len() && self.fields@[i].name == name
                    && self.fields@[i].value == v,
    {
        let mut i: usize = 0;
        while i < self.fields.len()
            invariant
                i <= self.fields@.len(),
                forall|j: int| 0 <= j < i ==> self.fields@[j].name != name,
            decreases self.fields@.len() - i,
        {
            if self.fields[i].name == name {
                return Some(self.fields[i].value.clone());
            }
            i = i + 1;
        }
        None
    }
}

impl Schema {
    /// Whether `msg` carries every input field this schema declares.
    pub fn accepts(&self, msg: &StructuredMessage) -> (r: bool)
        ensures
            r == spec_input_conforms(self.fields@, msg.fields@),
    {
        let mut i: usize = 0;
        while i < self.fields.len()
            invariant
                i <= self.fields@.len(),
                forall|j: int|
                    0 <= j < i && self.fields@[j].kind == FieldKind::Input ==> spec_has_input(
                        msg.fields@,
                        self.fields@[j].name,
                    ),
            decreases self.fields@.len() - i,
        {
            if self.fields[i].kind == FieldKind::Input {
                if !msg.has_input_field(self.fields[i].name) {
                    return false;
                }
            }
            i = i + 1;
        }
        true
    }
}

} // verus!
