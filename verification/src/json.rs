//! The JSON values the pipeline works on, the trusted boundary to the
//! serde_json parser, and the normalization that the hook protocol applies to
//! tool arguments (joining array-valued `command` fields, copying a `cmd`
//! alias into `command`).

use vstd::prelude::*;

use crate::strutil::str_eq;

verus! {

use vstd::pervasive::VecAdditionalExecFns;

/// A JSON document: objects are ordered lists of key/value entries, numbers
/// keep their decimal rendering.
#[derive(Debug, PartialEq)]
pub enum JsonValue {
    Null,
    Bool(bool),
    Num(String),
    Str(String),
    Arr(Vec<JsonValue>),
    Obj(Vec<(String, JsonValue)>),
}

#[verifier::external_type_specification]
#[verifier::external_body]
pub struct ExValue(serde_json::Value);

/// What serde_json's parser yields for a text, carried over into the
/// library's value form: `None` for text that is not valid JSON, otherwise
/// the parsed document. The result depends on the characters alone.
pub uninterp spec fn json_parsed(s: Seq<char>) -> Option<JsonValue>;

/// Relies on serde_json::from_str::<serde_json::Value>: parses a JSON text,
/// failing exactly on invalid JSON. Parsed objects arrive with unique keys
/// (a repeated key collapses, the later value winning) in serde_json's map
/// order, which is deterministic.
#[verifier::external_body]
pub fn parse_json(s: &str) -> (r: Option<JsonValue>)
    ensures
        r == json_parsed(s@),
{
    match serde_json::from_str::<serde_json::Value>(s) {
        Ok(v) => Some(value_of(v)),
        Err(_) => None,
    }
}

/// Relies on the shape of serde_json::Value: carries each variant over into
/// the library's value form, arm by arm; numbers keep serde_json's decimal
/// rendering.
#[verifier::external_body]
fn value_of(v: serde_json::Value) -> JsonValue {
    match v {
        serde_json::Value::Null => JsonValue::Null,
        serde_json::Value::Bool(b) => JsonValue::Bool(b),
        serde_json::Value::Number(n) => JsonValue::Num(n.to_string()),
        serde_json::Value::String(s) => JsonValue::Str(s),
        serde_json::Value::Array(a) => JsonValue::Arr(a.into_iter().map(value_of).collect()),
        serde_json::Value::Object(m) => JsonValue::Obj(
            m.into_iter().map(|(k, w)| (k, value_of(w))).collect(),
        ),
    }
}

/// The value under the first entry with the given key, if any.
pub open spec fn obj_lookup(entries: Seq<(String, JsonValue)>, key: Seq<char>) -> Option<JsonValue>
    decreases entries.len(),
{
    if entries.len() == 0 {
        None
    } else if entries[0].0@ == key {
        Some(entries[0].1)
    } else {
        obj_lookup(entries.drop_first(), key)
    }
}

proof fn lemma_obj_lookup_none(entries: Seq<(String, JsonValue)>, key: Seq<char>)
    requires
        forall|j: int| 0 <= j < entries.len() ==> entries[j].0@ != key,
    ensures
        obj_lookup(entries, key) is None,
    decreases entries.len(),
{
    if entries.len() > 0 {
        lemma_obj_lookup_none(entries.drop_first(), key);
    }
}

proof fn lemma_obj_lookup_first(entries: Seq<(String, JsonValue)>, key: Seq<char>, i: int)
    requires
        0 <= i < entries.len(),
        entries[i].0@ == key,
        forall|j: int| 0 <= j < i ==> entries[j].0@ != key,
    ensures
        obj_lookup(entries, key) == Some(entries[i].1),
    decreases entries.len(),
{
    if i > 0 {
        lemma_obj_lookup_first(entries.drop_first(), key, i - 1);
    }
}

/// The views of the string elements, in order; other elements contribute
/// nothing.
pub open spec fn str_items(items: Seq<JsonValue>) -> Seq<Seq<char>>
    decreases items.len(),
{
    if items.len() == 0 {
        Seq::empty()
    } else {
        let rest = str_items(items.drop_last());
        if items.last() is Str {
            rest.push(items.last()->Str_0@)
        } else {
            rest
        }
    }
}

/// The parts joined with a single space between consecutive parts.
pub open spec fn join_spaces(parts: Seq<Seq<char>>) -> Seq<char>
    decreases parts.len(),
{
    if parts.len() == 0 {
        Seq::empty()
    } else if parts.len() == 1 {
        parts[0]
    } else {
        join_spaces(parts.drop_last()) + seq![' '] + parts.last()
    }
}

/// The index of the first entry with the given key.
pub fn obj_find_key(entries: &Vec<(String, JsonValue)>, key: &str) -> (r: Option<usize>)
    ensures
        match r {
            Some(i) => i < entries@.len() && entries@[i as int].0@ == key@ && forall|j: int|
                0 <= j < i ==> entries@[j].0@ != key@,
            None => forall|j: int| 0 <= j < entries@.len() ==> entries@[j].0@ != key@,
        },
{
    let mut i: usize = 0;
    while i < entries.len()
        invariant
            i <= entries@.len(),
            forall|j: int| 0 <= j < i ==> entries@[j].0@ != key@,
        decreases entries@.len() - i,
    {
        if str_eq(entries[i].0.as_str(), key) {
            return Some(i);
        }
        i = i + 1;
    }
    None
}

/// A borrow of the value under the first entry with the given key.
pub fn obj_get<'a>(entries: &'a Vec<(String, JsonValue)>, key: &str) -> (r: Option<&'a JsonValue>)
    ensures
        match r {
            Some(v) => obj_lookup(entries@, key@) == Some(*v),
            None => obj_lookup(entries@, key@) is None,
        },
{
    match obj_find_key(entries, key) {
        Some(i) => {
            proof {
                lemma_obj_lookup_first(entries@, key@, i as int);
            }
            Some(&entries[i].1)
        },
        None => {
            proof {
                lemma_obj_lookup_none(entries@, key@);
            }
            None
        },
    }
}

/// The string elements of `items` joined with single spaces.
pub fn join_str_items(items: &Vec<JsonValue>) -> (r: String)
    ensures
        r@ == join_spaces(str_items(items@)),
{
    let mut s = String::new();
    let mut some_part = false;
    let mut i: usize = 0;
    assert(items@.take(0) =~= Seq::<JsonValue>::empty());
    while i < items.len()
        invariant
            i <= items@.len(),
            s@ == join_spaces(str_items(items@.take(i as int))),
            some_part == (str_items(items@.take(i as int)).len() > 0),
        decreases items@.len() - i,
    {
        assert(items@.take(i + 1 as int).drop_last() =~= items@.take(i as int));
        assert(items@.take(i + 1 as int).last() == items@[i as int]);
        match &items[i] {
            JsonValue::Str(t) => {
                let ghost parts = str_items(items@.take(i as int));
                proof {
                    reveal_strlit(" ");
                    assert(" "@ =~= seq![' ']);
                    assert(parts.push(t@).drop_last() =~= parts);
                }
                if some_part {
                    s.append(" ");
                }
                s.append(t.as_str());
                some_part = true;
            },
            _ => {},
        }
        i = i + 1;
    }
    assert(items@.take(items@.len() as int) =~= items@);
    s
}

/// The views of the strings, in order.
pub open spec fn string_views(ss: Seq<String>) -> Seq<Seq<char>> {
    ss.map(|i: int, s: String| s@)
}

/// The strings joined with single spaces.
pub fn join_strings(items: &Vec<String>) -> (r: String)
    ensures
        r@ == join_spaces(string_views(items@)),
{
    let mut s = String::new();
    let mut i: usize = 0;
    assert(string_views(items@.take(0)) =~= Seq::<Seq<char>>::empty());
    while i < items.len()
        invariant
            i <= items@.len(),
            s@ == join_spaces(string_views(items@.take(i as int))),
        decreases items@.len() - i,
    {
        let ghost parts = string_views(items@.take(i as int));
        proof {
            reveal_strlit(" ");
            assert(" "@ =~= seq![' ']);
            assert(string_views(items@.take(i + 1 as int)).drop_last() =~= parts);
            assert(string_views(items@.take(i + 1 as int)).last() == items@[i as int]@);
        }
        if i > 0 {
            assert(parts.len() == i);
            s.append(" ");
        }
        s.append(items[i].as_str());
        i = i + 1;
    }
    assert(string_views(items@.take(items@.len() as int)) =~= string_views(items@));
    s
}

/// The object is missing a `command` entry while holding a string-valued
/// `cmd` entry, so normalization copies the alias over.
pub open spec fn needs_cmd_alias(entries: Seq<(String, JsonValue)>) -> bool {
    &&& obj_lookup(entries, "command"@) is None
    &&& obj_lookup(entries, "cmd"@) is Some
    &&& obj_lookup(entries, "cmd"@).unwrap() is Str
}

/// Entry `i` is the first `command` entry and holds an array, so
/// normalization joins it into one string.
pub open spec fn is_first_command_array(entries: Seq<(String, JsonValue)>, i: int) -> bool {
    &&& entries[i].0@ == "command"@
    &&& (forall|j: int| 0 <= j < i ==> entries[j].0@ != "command"@)
    &&& entries[i].1 is Arr
}

/// How the entries of a normalized object relate to the original ones: the
/// `cmd` alias is appended as `command` when `command` was absent, and the
/// first array-valued `command` entry is joined into a single
/// space-separated string; every other entry is untouched.
pub open spec fn norm_obj_rel(
    e: Seq<(String, JsonValue)>,
    f: Seq<(String, JsonValue)>,
) -> bool {
    &&& f.len() == e.len() + (if needs_cmd_alias(e) { 1int } else { 0int })
    &&& (needs_cmd_alias(e) ==> {
        &&& f.last().0@ == "command"@
        &&& f.last().1 is Str
        &&& f.last().1->Str_0@ == obj_lookup(e, "cmd"@).unwrap()->Str_0@
    })
    &&& forall|i: int| 0 <= i < e.len() ==> {
        &&& (#[trigger] f[i]).0 == e[i].0
        &&& (if is_first_command_array(e, i) {
            f[i].1 is Str && f[i].1->Str_0@ == join_spaces(str_items(e[i].1->Arr_0@))
        } else {
            f[i].1 == e[i].1
        })
    }
}

/// Normalize tool arguments for hook consumption: copy a string-valued `cmd`
/// into `command` when `command` is absent, then join an array-valued
/// `command` into one space-separated string of its string elements.
/// Non-object values are left as they are.
pub fn normalize_command_to_string(value: JsonValue) -> (r: JsonValue)
    ensures
        match value {
            JsonValue::Obj(e) => r is Obj && norm_obj_rel(e@, r->Obj_0@),
            _ => r == value,
        },
{
    match value {
        JsonValue::Obj(mut entries) => {
            let ghost e0 = entries@;
            let got_cmd = obj_get(&entries, "cmd");
            let alias: Option<String> = match got_cmd {
                Some(JsonValue::Str(s)) => Some(s.clone()),
                _ => None,
            };
            let ghost galias = alias;
            proof {
                assert(galias is Some <==> (obj_lookup(e0, "cmd"@) is Some && obj_lookup(
                    e0,
                    "cmd"@,
                ).unwrap() is Str));
                assert(galias is Some ==> galias.unwrap()@ == obj_lookup(
                    e0,
                    "cmd"@,
                ).unwrap()->Str_0@);
            }
            let found1 = obj_find_key(&entries, "command");
            let pushed: bool = if found1.is_none() {
                if let Some(s) = alias {
                    entries.push(("command".to_owned(), JsonValue::Str(s)));
                    true
                } else {
                    false
                }
            } else {
                false
            };
            let ghost e1 = entries@;
            proof {
                if pushed {
                    assert(needs_cmd_alias(e0)) by {
                        lemma_obj_lookup_none(e0, "command"@);
                    }
                    assert(e1.len() == e0.len() + 1);
                    assert(forall|j: int| 0 <= j < e0.len() ==> e1[j] == e0[j]);
                    assert(e1.last().0@ == "command"@);
                    assert(e1.last().1 is Str);
                    assert(e1.last().1->Str_0@ == obj_lookup(e0, "cmd"@).unwrap()->Str_0@);
                } else {
                    assert(e1 == e0);
                    assert(!needs_cmd_alias(e0)) by {
                        if found1 is Some {
                            lemma_obj_lookup_first(e0, "command"@, found1.unwrap() as int);
                        }
                    }
                }
            }
            let found2 = obj_find_key(&entries, "command");
            let join: Option<(usize, String)> = match found2 {
                Some(i) => match &entries[i].1 {
                    JsonValue::Arr(items) => Some((i, join_str_items(items))),
                    _ => None,
                },
                None => None,
            };
            proof {
                if pushed {
                    // the appended alias is the only (string-valued) command
                    // entry, so nothing is joined
                    assert(e1[e1.len() - 1].0@ == "command"@);
                    assert(found2 is Some);
                    assert(found2.unwrap() == e1.len() - 1);
                    assert(join is None);
                }
            }
            if let Some((i, joined)) = join {
                let ghost gjoined = joined@;
                let key = entries[i].0.clone();
                entries.set(i, (key, JsonValue::Str(joined)));
                proof {
                    let f = entries@;
                    assert(!pushed);
                    assert(is_first_command_array(e0, i as int));
                    assert(f[i as int].0 == e0[i as int].0);
                    assert(f[i as int].1 is Str);
                    assert(f[i as int].1->Str_0@ == join_spaces(
                        str_items(e0[i as int].1->Arr_0@),
                    ));
                    assert forall|k: int| 0 <= k < e0.len() && k != i implies !is_first_command_array(
                        e0,
                        k,
                    ) && f[k] == e0[k] by {
                        if k > i {
                            assert(e0[i as int].0@ == "command"@);
                        }
                    }
                    assert(norm_obj_rel(e0, f));
                }
            } else {
                proof {
                    let f = entries@;
                    if pushed {
                        assert forall|k: int| 0 <= k < e0.len() implies !is_first_command_array(
                            e0,
                            k,
                        ) && f[k] == e0[k] by {}
                        assert(norm_obj_rel(e0, f));
                    } else {
                        assert forall|k: int| 0 <= k < e0.len() implies !is_first_command_array(
                            e0,
                            k,
                        ) by {
                            if found2 is Some {
                                let i2 = found2.unwrap() as int;
                                if k > i2 {
                                    assert(e0[i2].0@ == "command"@);
                                }
                            }
                        }
                        assert(norm_obj_rel(e0, f));
                    }
                }
            }
            JsonValue::Obj(entries)
        },
        other => other,
    }
}

} // verus!
