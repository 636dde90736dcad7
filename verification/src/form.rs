//! The inbound form and its validation.

use crate::failure::Failure;
use vstd::hash_map::StringHashMap;
use vstd::prelude::*;

verus! {

/// Name of the form field that holds the message.
pub const FIELD_MSG: &'static str = "msg";

/// Name of the form field that holds the sender.
pub const FIELD_TEL: &'static str = "tel";

/// The fields of an inbound form: a map from field name to value. Names are
/// case-sensitive, each name has one value, and the order of entry is
/// irrelevant.
pub struct InboundForm {
    fields: StringHashMap<String>,
}

impl View for InboundForm {
    type V = Map<Seq<char>, Seq<char>>;

    closed spec fn view(&self) -> Map<Seq<char>, Seq<char>> {
        self.fields@.map_values(|value: String| value@)
    }
}

impl InboundForm {
    /// A form without fields.
    pub fn new() -> (form: InboundForm)
        ensures
            form@ == Map::<Seq<char>, Seq<char>>::empty(),
    {
        let form = InboundForm { fields: StringHashMap::new() };
        form
    }

    /// Sets the field `name` to `value`, replacing the value it had.
    pub fn insert(&mut self, name: String, value: String)
        ensures
            final(self)@ == old(self)@.insert(name@, value@),
    {
        self.fields.insert(name, value);
    }

    /// The value of the field `name`, if the form has that field.
    pub fn get(&self, name: &str) -> (value: Option<&String>)
        ensures
            match value {
                Some(text) => self@.contains_key(name@) && text@ == self@[name@],
                None => !self@.contains_key(name@),
            },
    {
        self.fields.get(name)
    }
}

/// The two fields every relayed request needs.
#[derive(Clone, Debug, PartialEq, Eq)]
pub struct ValidatedFields {
    /// The free-text message.
    pub msg: String,
    /// The sender's identifier.
    pub tel: String,
}

/// The mathematical content of [`ValidatedFields`].
pub struct FieldsView {
    pub msg: Seq<char>,
    pub tel: Seq<char>,
}

impl View for ValidatedFields {
    type V = FieldsView;

    open spec fn view(&self) -> FieldsView {
        FieldsView { msg: self.msg@, tel: self.tel@ }
    }
}

/// Whether a form holds both required fields. Other fields do not matter, nor
/// does what the two hold.
pub open spec fn is_complete(form: Map<Seq<char>, Seq<char>>) -> bool {
    form.contains_key(FIELD_MSG@) && form.contains_key(FIELD_TEL@)
}

/// The required fields of a complete form, exactly as the form holds them.
pub open spec fn required_fields(form: Map<Seq<char>, Seq<char>>) -> FieldsView {
    FieldsView { msg: form[FIELD_MSG@], tel: form[FIELD_TEL@] }
}

/// Extracts the required fields. A form is accepted exactly when it holds both
/// `msg` and `tel`; their values are taken as they are, empty ones included.
pub fn validate(form: &InboundForm) -> (checked: Result<ValidatedFields, Failure>)
    ensures
        checked is Ok <==> is_complete(form@),
        checked matches Ok(fields) ==> fields@ == required_fields(form@),
        checked matches Err(failure) ==> failure == Failure::BadRequest,
{
    match (form.get(FIELD_MSG), form.get(FIELD_TEL)) {
        (Some(msg), Some(tel)) => Ok(ValidatedFields { msg: msg.clone(), tel: tel.clone() }),
        _ => Err(Failure::BadRequest),
    }
}

} // verus!
