//! The query of the provider's redirect: `code` and `state`.

use rocket::form::Form;
use rocket::http::RawStr;
use vstd::prelude::*;

use crate::text::str_eq;

verus! {

/// Where `mark` first stands in `text`, or the length of `text` if it does
/// not stand there.
pub open spec fn position_of(text: Seq<char>, mark: char) -> nat
    decreases text.len(),
{
    if text.len() == 0 || text[0] == mark {
        0
    } else {
        1 + position_of(text.drop_first(), mark)
    }
}

/// The name and the value of one field as it is written: what stands before
/// its first `=`, and what stands after it. A field without `=` is all name.
pub open spec fn form_field(field: Seq<char>) -> (Seq<char>, Seq<char>) {
    let at = position_of(field, '=') as int;
    if at < field.len() {
        (field.take(at), field.skip(at + 1))
    } else {
        (field, Seq::empty())
    }
}

/// The fields of a raw `x-www-form-urlencoded` string, in their order, each
/// as the name and the value written there. The string is cut at every `&`;
/// an empty piece is no field. Nothing is decoded.
pub open spec fn form_fields(query: Seq<char>) -> Seq<(Seq<char>, Seq<char>)>
    decreases query.len(),
{
    if query.len() == 0 {
        Seq::empty()
    } else {
        let at = position_of(query, '&') as int;
        let rest = if at < query.len() {
            form_fields(query.skip(at + 1))
        } else {
            Seq::empty()
        };
        if at == 0 {
            rest
        } else {
            seq![form_field(query.take(at))] + rest
        }
    }
}

/// The text that a raw form value stands for, or nothing where the value
/// does not decode to text: what `rocket::http::RawStr::url_decode` returns
/// for it.
pub uninterp spec fn url_decoded(raw: Seq<char>) -> Option<Seq<char>>;

/// One field of a query: its name as written, and its value decoded, or no
/// value where what was written does not decode.
#[derive(Clone, Debug, PartialEq, Eq)]
pub struct QueryField {
    pub name: String,
    pub value: Option<String>,
}

/// What a `QueryField` says.
pub struct FieldText {
    pub name: Seq<char>,
    pub value: Option<Seq<char>>,
}

impl View for QueryField {
    type V = FieldText;

    open spec fn view(&self) -> FieldText {
        FieldText {
            name: self.name@,
            value: match self.value {
                Some(text) => Some(text@),
                None => None,
            },
        }
    }
}

/// The two parameters that the provider's redirect carries.
#[derive(Clone, Debug, PartialEq, Eq)]
pub struct CallbackQuery {
    /// The authorization code, to be exchanged for a token.
    pub code: String,
    /// The state that the authorization request was sent with.
    pub state: String,
}

/// What a `CallbackQuery` says.
pub struct CallbackParams {
    pub code: Seq<char>,
    pub state: Seq<char>,
}

impl View for CallbackQuery {
    type V = CallbackParams;

    open spec fn view(&self) -> CallbackParams {
        CallbackParams { code: self.code@, state: self.state@ }
    }
}

/// What a list of fields says, field by field.
pub open spec fn fields_text(fields: Seq<QueryField>) -> Seq<FieldText> {
    fields.map_values(|field: QueryField| field@)
}

/// The value of the last field of that name: nothing if no field has the
/// name, and no value if the last one does not decode.
pub open spec fn last_value(fields: Seq<FieldText>, name: Seq<char>) -> Option<Option<Seq<char>>>
    decreases fields.len(),
{
    if fields.len() == 0 {
        None
    } else if fields.last().name == name {
        Some(fields.last().value)
    } else {
        last_value(fields.drop_last(), name)
    }
}

/// Every field of that name has a value that decodes.
pub open spec fn well_encoded(fields: Seq<FieldText>, name: Seq<char>) -> bool {
    forall|i: int|
        0 <= i < fields.len() && (#[trigger] fields[i]).name == name ==> fields[i].value is Some
}

/// The parameters that a list of fields gives. Both `code` and `state` must
/// be there, and every value given for either must decode; where one is given
/// more than once the last counts. Fields of other names are passed over.
pub open spec fn callback_params(fields: Seq<FieldText>) -> Option<CallbackParams> {
    if well_encoded(fields, "code"@) && well_encoded(fields, "state"@) {
        match (last_value(fields, "code"@), last_value(fields, "state"@)) {
            (Some(Some(code)), Some(Some(state))) => Some(CallbackParams { code, state }),
            _ => None,
        }
    } else {
        None
    }
}

/// The fields of a raw query with their values decoded.
pub open spec fn decoded_fields(raw: Seq<(Seq<char>, Seq<char>)>) -> Seq<FieldText> {
    raw.map_values(
        |field: (Seq<char>, Seq<char>)| FieldText { name: field.0, value: url_decoded(field.1) },
    )
}

/// The parameters that a raw query string gives.
pub open spec fn parsed_query(query: Seq<char>) -> Option<CallbackParams> {
    callback_params(decoded_fields(form_fields(query)))
}

/// What a list of raw fields says, field by field.
pub open spec fn raw_text(fields: Seq<(String, String)>) -> Seq<(Seq<char>, Seq<char>)> {
    fields.map_values(|field: (String, String)| (field.0@, field.1@))
}

/// Splits a raw query string into its fields with
/// `rocket::form::Form::values`. The contract claims what Rocket documents
/// of it: the string is split on `&`, empty pieces are dropped, and each
/// other piece is split at its first `=` into a name and a value, neither of
/// them decoded.
#[verifier::external_body]
fn form_values(query: &str) -> (fields: Vec<(String, String)>)
    ensures
        raw_text(fields@) == form_fields(query@),
{
    let mut fields = Vec::new();
    for field in Form::values(query) {
        fields.push((field.name.source().as_str().to_string(), field.value.to_string()));
    }
    fields
}

/// Decodes a raw form value with `rocket::http::RawStr::url_decode`, which
/// fails where the percent-encoded bytes are not valid UTF-8. The contract
/// claims only that the outcome is the one that `url_decoded` names for the
/// value: that the same value always decodes in the same way.
#[verifier::external_body]
fn url_decode(raw: &str) -> (text: Option<String>)
    ensures
        match text {
            Some(decoded) => url_decoded(raw@) == Some(decoded@),
            None => url_decoded(raw@) is None,
        },
{
    match RawStr::new(raw).url_decode() {
        Ok(decoded) => Some(decoded.into_owned()),
        Err(_) => None,
    }
}

impl CallbackQuery {
    /// Picks `code` and `state` out of the fields of a query.
    pub fn from_fields(fields: &Vec<QueryField>) -> (query: Option<CallbackQuery>)
        ensures
            match query {
                Some(q) => callback_params(fields_text(fields@)) == Some(q@),
                None => callback_params(fields_text(fields@)) is None,
            },
    {
        let ghost all = fields_text(fields@);
        let mut code: Option<String> = None;
        let mut state: Option<String> = None;
        let mut i: usize = 0;
        while i < fields.len()
            invariant
                i <= fields@.len(),
                all == fields_text(fields@),
                well_encoded(all.take(i as int), "code"@),
                well_encoded(all.take(i as int), "state"@),
                match code {
                    Some(text) => last_value(all.take(i as int), "code"@) == Some(Some(text@)),
                    None => last_value(all.take(i as int), "code"@) is None,
                },
                match state {
                    Some(text) => last_value(all.take(i as int), "state"@) == Some(Some(text@)),
                    None => last_value(all.take(i as int), "state"@) is None,
                },
            decreases fields@.len() - i,
        {
            let field = &fields[i];
            proof {
                assert(all.take(i + 1).drop_last() == all.take(i as int));
                assert(all.take(i + 1).last() == field@);
                lemma_names_differ();
            }
            if str_eq(field.name.as_str(), "code") {
                match &field.value {
                    Some(text) => {
                        code = Some(text.clone());
                    },
                    None => {
                        proof {
                            assert(all[i as int].name == "code"@ && all[i as int].value is None);
                        }
                        return None;
                    },
                }
            } else if str_eq(field.name.as_str(), "state") {
                match &field.value {
                    Some(text) => {
                        state = Some(text.clone());
                    },
                    None => {
                        proof {
                            assert(all[i as int].name == "state"@ && all[i as int].value is None);
                        }
                        return None;
                    },
                }
            }
            proof {
                assert forall|j: int| 0 <= j < i + 1 && (#[trigger] all.take(i + 1)[j]).name
                    == "code"@ implies all.take(i + 1)[j].value is Some by {
                    if j < i {
                        assert(all.take(i as int)[j] == all.take(i + 1)[j]);
                    }
                }
                assert forall|j: int| 0 <= j < i + 1 && (#[trigger] all.take(i + 1)[j]).name
                    == "state"@ implies all.take(i + 1)[j].value is Some by {
                    if j < i {
                        assert(all.take(i as int)[j] == all.take(i + 1)[j]);
                    }
                }
            }
            i += 1;
        }
        proof {
            assert(all.take(i as int) == all);
        }
        match (code, state) {
            (Some(code), Some(state)) => Some(CallbackQuery { code, state }),
            _ => None,
        }
    }

    /// Parses the raw query string of the provider's redirect.
    pub fn parse(query: &str) -> (parsed: Option<CallbackQuery>)
        ensures
            match parsed {
                Some(q) => parsed_query(query@) == Some(q@),
                None => parsed_query(query@) is None,
            },
    {
        let fields = query_fields(query);
        CallbackQuery::from_fields(&fields)
    }
}

/// The fields of a raw query string, in their order, with their values
/// decoded.
pub fn query_fields(query: &str) -> (fields: Vec<QueryField>)
    ensures
        fields_text(fields@) == decoded_fields(form_fields(query@)),
{
    let raw = form_values(query);
    let ghost decoded = decoded_fields(form_fields(query@));
    let mut fields: Vec<QueryField> = Vec::new();
    let mut i: usize = 0;
    while i < raw.len()
        invariant
            i <= raw@.len(),
            raw_text(raw@) == form_fields(query@),
            decoded == decoded_fields(form_fields(query@)),
            fields_text(fields@) == decoded.take(i as int),
        decreases raw@.len() - i,
    {
        let name = raw[i].0.clone();
        let value = url_decode(raw[i].1.as_str());
        let field = QueryField { name, value };
        proof {
            assert(raw_text(raw@)[i as int] == (raw@[i as int].0@, raw@[i as int].1@));
            assert(field@ == decoded[i as int]);
            assert(fields_text(fields@.push(field)) =~= fields_text(fields@).push(field@));
            assert(decoded.take(i + 1) =~= decoded.take(i as int).push(decoded[i as int]));
        }
        fields.push(field);
        i += 1;
    }
    proof {
        assert(decoded.take(i as int) == decoded);
    }
    fields
}

/// The two names are not the same.
proof fn lemma_names_differ()
    ensures
        "code"@ != "state"@,
{
    reveal_strlit("code");
    reveal_strlit("state");
    assert("code"@.len() == 4);
    assert("state"@.len() == 5);
}

} // verus!
