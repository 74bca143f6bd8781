use vstd::prelude::*;

verus! {

#[verifier::external_type_specification]
#[verifier::external_body]
pub struct ExValue(serde_json::Value);

/// The shape of a parsed JSON value, as far as this library reads one:
/// texts carry their characters, arrays their elements in order, objects a
/// map from member name to member value. Numbers are never read here, so
/// they carry nothing.
pub enum JsonModel {
    Null,
    Bool(bool),
    Number,
    Text(Seq<char>),
    Array(Seq<JsonModel>),
    Object(Map<Seq<char>, JsonModel>),
}

/// The shape of a `serde_json::Value`. Each accessor below states what it
/// returns over this model, so the verified walk of a parsed tree knows
/// what it is looking at.
pub uninterp spec fn model_of(v: serde_json::Value) -> JsonModel;

/// What parsing a response body yields: `None` when the text is not
/// well-formed JSON, otherwise the shape of the one document it holds.
/// The result depends on the text alone.
pub uninterp spec fn spec_parsed_doc(s: Seq<char>) -> Option<JsonModel>;

/// Relies on `serde_json::from_str::<Value>`: parses the text as one JSON
/// document, `Some` exactly when it is well-formed; the parse is a pure
/// function of the text, named `spec_parsed_doc`.
#[verifier::external_body]
fn parse_json(s: &str) -> (r: Option<serde_json::Value>)
    ensures
        r matches Some(v) ==> spec_parsed_doc(s@) == Some(model_of(v)),
        r is None ==> spec_parsed_doc(s@) is None,
{
    serde_json::from_str(s).ok()
}

/// Relies on `serde_json::Value::get` with a string key: the member stored
/// under `key` when the value is an object holding that key, `None` for an
/// object without the key and for every non-object.
#[verifier::external_body]
fn json_get<'a>(v: &'a serde_json::Value, key: &str) -> (r: Option<&'a serde_json::Value>)
    ensures
        match model_of(*v) {
            JsonModel::Object(m) => {
                &&& m.contains_key(key@) ==> (r matches Some(u) && model_of(*u) == m[key@])
                &&& !m.contains_key(key@) ==> r is None
            },
            _ => r is None,
        },
{
    v.get(key)
}

/// Relies on `serde_json::Value::as_array`: the elements in order when the
/// value is an array, `None` otherwise.
#[verifier::external_body]
fn json_array<'a>(v: &'a serde_json::Value) -> (r: Option<&'a Vec<serde_json::Value>>)
    ensures
        match model_of(*v) {
            JsonModel::Array(items) => r matches Some(a) && a@.len() == items.len() && (forall|
                i: int,
            |
                0 <= i < items.len() ==> model_of(#[trigger] a@[i]) == items[i]),
            _ => r is None,
        },
{
    v.as_array()
}

/// Relies on `serde_json::Value::as_str`: the text when the value is a
/// string, `None` otherwise.
#[verifier::external_body]
fn json_str(v: &serde_json::Value) -> (r: Option<String>)
    ensures
        match model_of(*v) {
            JsonModel::Text(t) => r matches Some(s) && s@ == t,
            _ => r is None,
        },
{
    match v.as_str() {
        Some(s) => Some(String::from(s)),
        None => None,
    }
}

/// The message content of one choice: the string under `message.content`,
/// `None` when the choice does not hold that shape.
pub open spec fn spec_content_of_choice(c: JsonModel) -> Option<Seq<char>> {
    match c {
        JsonModel::Object(m) => if m.contains_key("message"@) {
            match m["message"@] {
                JsonModel::Object(mm) => if mm.contains_key("content"@) {
                    match mm["content"@] {
                        JsonModel::Text(t) => Some(t),
                        _ => None,
                    }
                } else {
                    None
                },
                _ => None,
            }
        } else {
            None
        },
        _ => None,
    }
}

/// The contents of all choices, in order; `None` as soon as any one choice
/// lacks the expected shape.
pub open spec fn spec_contents_of_choices(cs: Seq<JsonModel>) -> Option<Seq<Seq<char>>>
    decreases cs.len(),
{
    if cs.len() == 0 {
        Some(Seq::empty())
    } else {
        match (spec_contents_of_choices(cs.drop_last()), spec_content_of_choice(cs.last())) {
            (Some(init), Some(last)) => Some(init.push(last)),
            _ => None,
        }
    }
}

/// What a response body yields: the contents of its choices when the body
/// is a JSON object whose `choices` member is an array of well-shaped
/// choices, `None` otherwise. A pure function of the body text.
pub open spec fn spec_response_choices(body: Seq<char>) -> Option<Seq<Seq<char>>> {
    match spec_parsed_doc(body) {
        Some(doc) => match doc {
            JsonModel::Object(m) => if m.contains_key("choices"@) {
                match m["choices"@] {
                    JsonModel::Array(cs) => spec_contents_of_choices(cs),
                    _ => None,
                }
            } else {
                None
            },
            _ => None,
        },
        None => None,
    }
}

proof fn lemma_choice_failure(cs: Seq<JsonModel>, i: int)
    requires
        0 <= i < cs.len(),
        spec_content_of_choice(cs[i]) is None,
    ensures
        spec_contents_of_choices(cs) is None,
    decreases cs.len(),
{
    if i == cs.len() - 1 {
        assert(cs.last() == cs[i]);
    } else {
        lemma_choice_failure(cs.drop_last(), i);
    }
}

/// Pull the message content of every choice out of a response body:
/// exactly `spec_response_choices` of the text.
pub(crate) fn extract_choice_contents(body: &str) -> (r: Option<Vec<String>>)
    ensures
        r.deep_view() == spec_response_choices(body@),
{
    let parsed = parse_json(body);
    let v = match parsed {
        Option::Some(v) => v,
        Option::None => {
            return Option::None;
        },
    };
    let choices = match json_get(&v, "choices") {
        Option::Some(c) => c,
        Option::None => {
            return Option::None;
        },
    };
    let items = match json_array(choices) {
        Option::Some(a) => a,
        Option::None => {
            return Option::None;
        },
    };
    let ghost cs: Seq<JsonModel> = match model_of(*choices) {
        JsonModel::Array(s) => s,
        _ => Seq::empty(),
    };
    let mut out: Vec<String> = Vec::new();
    let mut i: usize = 0;
    while i < items.len()
        invariant
            i <= items@.len(),
            cs.len() == items@.len(),
            forall|j: int| 0 <= j < cs.len() ==> model_of(#[trigger] items@[j]) == cs[j],
            spec_contents_of_choices(cs.take(i as int)) == Some(out.deep_view()),
            spec_response_choices(body@) == spec_contents_of_choices(cs),
        decreases items@.len() - i,
    {
        let msg = match json_get(&items[i], "message") {
            Option::Some(m) => m,
            Option::None => {
                proof {
                    lemma_choice_failure(cs, i as int);
                }
                return Option::None;
            },
        };
        let content = match json_get(msg, "content") {
            Option::Some(c) => c,
            Option::None => {
                proof {
                    lemma_choice_failure(cs, i as int);
                }
                return Option::None;
            },
        };
        let text = match json_str(content) {
            Option::Some(t) => t,
            Option::None => {
                proof {
                    lemma_choice_failure(cs, i as int);
                }
                return Option::None;
            },
        };
        proof {
            assert(spec_content_of_choice(cs[i as int]) == Some(text@));
            assert(cs.take((i + 1) as int).drop_last() =~= cs.take(i as int));
            assert(cs.take((i + 1) as int).last() == cs[i as int]);
        }
        let ghost prev = out.deep_view();
        out.push(text);
        proof {
            assert(out.deep_view() =~= prev.push(text@));
        }
        i = i + 1;
    }
    proof {
        assert(cs.take(items@.len() as int) =~= cs);
    }
    Option::Some(out)
}

} // verus!
