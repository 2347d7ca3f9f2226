//! Decoding of the shapes in which the database hands back record ids,
//! numbers and timestamps: a JSON value model, the record-id key extraction,
//! the lenient integer and timestamp readers.

use vstd::prelude::*;
use vstd::string::*;
use crate::text::{
    contains_char, eq_ignore_ascii_case, eq_ignore_ascii_case_spec, is_trim_of, owned, parse_i64,
    parse_i64_spec, push_str, str_equal, trim, TrimClass,
};
use crate::clock::{now_utc, UtcTime};

verus! {

broadcast use vstd::string::group_string_axioms;

/// A JSON value. A number is held as its decimal text (as `serde_json`
/// displays it); an object as its entries, whose keys are distinct.
#[derive(Debug)]
pub enum JsonValue {
    Null,
    Bool(bool),
    Number(String),
    String(String),
    Array(Vec<JsonValue>),
    Object(Vec<(String, JsonValue)>),
}

/// The index of the entry with key `k`, when there is one.
pub open spec fn entry_index(m: Seq<(String, JsonValue)>, k: Seq<char>) -> Option<int>
    decreases m.len(),
{
    if m.len() == 0 {
        None
    } else {
        match entry_index(m.drop_last(), k) {
            Some(i) => Some(i),
            None => if m.last().0@ == k {
                Some((m.len() - 1) as int)
            } else {
                None
            },
        }
    }
}

proof fn lemma_entry_index(m: Seq<(String, JsonValue)>, k: Seq<char>)
    ensures
        entry_index(m, k) matches Some(i) ==> 0 <= i < m.len() && m[i].0@ == k && forall|j: int|
            0 <= j < i ==> m[j].0@ != k,
        entry_index(m, k) is None ==> forall|j: int| 0 <= j < m.len() ==> m[j].0@ != k,
    decreases m.len(),
{
    if m.len() > 0 {
        lemma_entry_index(m.drop_last(), k);
        assert forall|j: int| 0 <= j < m.len() - 1 implies m.drop_last()[j] == m[j] by {}
    }
}

/// The index of the entry `k1`, else of the entry `k2`.
pub open spec fn entry_index2(m: Seq<(String, JsonValue)>, k1: Seq<char>, k2: Seq<char>) -> Option<
    int,
> {
    match entry_index(m, k1) {
        Some(i) => Some(i),
        None => entry_index(m, k2),
    }
}

/// The string held by the entry `k`, when it holds a string.
pub open spec fn entry_str(m: Seq<(String, JsonValue)>, k: Seq<char>) -> Option<Seq<char>> {
    match entry_index(m, k) {
        Some(i) => match m[i].1 {
            JsonValue::String(s) => Some(s@),
            _ => None,
        },
        None => None,
    }
}

/// The index of the first of `keys` that has an entry.
pub open spec fn first_entry(m: Seq<(String, JsonValue)>, keys: Seq<Seq<char>>) -> Option<int>
    decreases keys.len(),
{
    if keys.len() == 0 {
        None
    } else {
        match entry_index(m, keys[0]) {
            Some(i) => Some(i),
            None => first_entry(m, keys.drop_first()),
        }
    }
}

/// The wrapper keys whose content is the key itself, in the order they are
/// tried.
pub open spec fn wrapper_keys() -> Seq<Seq<char>> {
    seq![
        "Thing"@,
        "RecordId"@,
        "String"@,
        "Strand"@,
        "value"@,
        "id"@,
        "key"@,
        "Int"@,
        "Float"@,
        "Number"@,
        "Uuid"@,
    ]
}

/// The key text of a record id in any of the shapes the database uses: a
/// string, number or boolean as its text; `{table, key|id}` and
/// `{tb, id|key}` as `table:key`; a wrapper object as the key of its
/// content.
pub open spec fn key_of(v: JsonValue) -> Option<Seq<char>>
    decreases v,
{
    match v {
        JsonValue::String(s) => Some(s@),
        JsonValue::Number(n) => Some(n@),
        JsonValue::Bool(b) => Some(
            if b {
                "true"@
            } else {
                "false"@
            },
        ),
        JsonValue::Object(m) => {
            let tabled = match entry_str(m@, "table"@) {
                Some(table) => match entry_index2(m@, "key"@, "id"@) {
                    Some(i) => if 0 <= i < m@.len() {
                        proof {
                            assert(decreases_to!(v => m));
                            assert(decreases_to!(m => m@));
                            assert(decreases_to!(m@ => m@[i]));
                        }
                        match key_of(m@[i].1) {
                            Some(key) => Some(table + ":"@ + key),
                            None => None,
                        }
                    } else {
                        None
                    },
                    None => None,
                },
                None => None,
            };
            let tb_shaped = match entry_str(m@, "tb"@) {
                Some(tb) => match entry_index2(m@, "id"@, "key"@) {
                    Some(i) => if 0 <= i < m@.len() {
                        proof {
                            assert(decreases_to!(v => m));
                            assert(decreases_to!(m => m@));
                            assert(decreases_to!(m@ => m@[i]));
                        }
                        match key_of(m@[i].1) {
                            Some(key) => Some(tb + ":"@ + key),
                            None => None,
                        }
                    } else {
                        None
                    },
                    None => None,
                },
                None => None,
            };
            if tabled is Some {
                tabled
            } else if tb_shaped is Some {
                tb_shaped
            } else {
                match first_entry(m@, wrapper_keys()) {
                    Some(i) => if 0 <= i < m@.len() {
                        proof {
                            assert(decreases_to!(v => m));
                            assert(decreases_to!(m => m@));
                            assert(decreases_to!(m@ => m@[i]));
                        }
                        key_of(m@[i].1)
                    } else {
                        None
                    },
                    None => None,
                }
            }
        },
        _ => None,
    }
}

/// The index of the entry `key`.
pub fn find_entry(m: &Vec<(String, JsonValue)>, key: &str) -> (r: Option<usize>)
    ensures
        r matches Some(i) ==> entry_index(m@, key@) == Some(i as int) && i < m@.len(),
        r is None ==> entry_index(m@, key@) is None,
{
    proof {
        lemma_entry_index(m@, key@);
    }
    let mut i: usize = 0;
    while i < m.len()
        invariant
            i <= m@.len(),
            forall|j: int| 0 <= j < i ==> m@[j].0@ != key@,
        decreases m@.len() - i,
    {
        if str_equal(m[i].0.as_str(), key) {
            proof {
                lemma_entry_index(m@, key@);
                if let Some(k) = entry_index(m@, key@) {
                    if k > i {
                        assert(m@[i as int].0@ == key@);
                    }
                    assert(k == i as int);
                }
            }
            return Some(i);
        }
        i = i + 1;
    }
    proof {
        lemma_entry_index(m@, key@);
    }
    None
}

fn find_entry2(m: &Vec<(String, JsonValue)>, k1: &str, k2: &str) -> (r: Option<usize>)
    ensures
        r matches Some(i) ==> entry_index2(m@, k1@, k2@) == Some(i as int) && i < m@.len(),
        r is None ==> entry_index2(m@, k1@, k2@) is None,
{
    match find_entry(m, k1) {
        Some(i) => Some(i),
        None => find_entry(m, k2),
    }
}

/// The string of the entry `key`, when it holds one.
pub fn entry_string<'a>(m: &'a Vec<(String, JsonValue)>, key: &str) -> (r: Option<&'a String>)
    ensures
        r matches Some(s) ==> entry_str(m@, key@) == Some(s@),
        r is None ==> entry_str(m@, key@) is None,
{
    match find_entry(m, key) {
        Some(i) => match &m[i].1 {
            JsonValue::String(s) => Some(s),
            _ => None,
        },
        None => None,
    }
}

fn find_wrapper(m: &Vec<(String, JsonValue)>) -> (r: Option<usize>)
    ensures
        r matches Some(i) ==> first_entry(m@, wrapper_keys()) == Some(i as int) && i < m@.len(),
        r is None ==> first_entry(m@, wrapper_keys()) is None,
{
    let keys: [&str; 11] = [
        "Thing",
        "RecordId",
        "String",
        "Strand",
        "value",
        "id",
        "key",
        "Int",
        "Float",
        "Number",
        "Uuid",
    ];
    let ghost wk = wrapper_keys();
    let mut j: usize = 0;
    assert(wk.skip(0) =~= wk);
    while j < 11
        invariant
            j <= 11,
            wk == wrapper_keys(),
            forall|t: int| 0 <= t < 11 ==> (#[trigger] keys@[t])@ == wk[t],
            first_entry(m@, wk) == first_entry(m@, wk.skip(j as int)),
        decreases 11 - j,
    {
        let ghost rest = wk.skip(j as int);
        assert(rest.drop_first() =~= wk.skip(j + 1));
        assert(rest[0] == wk[j as int]);
        match find_entry(m, keys[j]) {
            Some(i) => {
                return Some(i);
            },
            None => {},
        }
        j = j + 1;
    }
    None
}

/// Joins a table name and a key with `:`.
fn join_table_key(table: &str, key: &str) -> (r: String)
    ensures
        r@ == table@ + ":"@ + key@,
{
    let mut s = owned(table);
    push_str(&mut s, ":");
    push_str(&mut s, key);
    s
}

/// The key text of a record id (see `key_of`).
pub fn extract_key(value: &JsonValue) -> (r: Option<String>)
    ensures
        r matches Some(s) ==> key_of(*value) == Some(s@),
        r is None ==> key_of(*value) is None,
    decreases value,
{
    proof {
        reveal_strlit("true");
        reveal_strlit("false");
    }
    match value {
        JsonValue::String(s) => Some(s.clone()),
        JsonValue::Number(n) => Some(n.clone()),
        JsonValue::Bool(b) => Some(
            if *b {
                owned("true")
            } else {
                owned("false")
            },
        ),
        JsonValue::Object(m) => {
            let tabled = match entry_string(m, "table") {
                Some(table) => match find_entry2(m, "key", "id") {
                    Some(i) => {
                        proof {
                            assert(decreases_to!(*value => m));
                            assert(decreases_to!(m => m@));
                            assert(decreases_to!(m@ => m@[i as int]));
                        }
                        match extract_key(&m[i].1) {
                            Some(key) => Some(join_table_key(table.as_str(), key.as_str())),
                            None => None,
                        }
                    },
                    None => None,
                },
                None => None,
            };
            if tabled.is_some() {
                return tabled;
            }
            let tb_shaped = match entry_string(m, "tb") {
                Some(tb) => match find_entry2(m, "id", "key") {
                    Some(i) => {
                        proof {
                            assert(decreases_to!(*value => m));
                            assert(decreases_to!(m => m@));
                            assert(decreases_to!(m@ => m@[i as int]));
                        }
                        match extract_key(&m[i].1) {
                            Some(key) => Some(join_table_key(tb.as_str(), key.as_str())),
                            None => None,
                        }
                    },
                    None => None,
                },
                None => None,
            };
            if tb_shaped.is_some() {
                return tb_shaped;
            }
            match find_wrapper(m) {
                Some(i) => {
                    proof {
                        assert(decreases_to!(*value => m));
                        assert(decreases_to!(m => m@));
                        assert(decreases_to!(m@ => m@[i as int]));
                    }
                    extract_key(&m[i].1)
                },
                None => None,
            }
        },
        _ => None,
    }
}

/// The entries of an object without its `Thing` entry.
pub open spec fn without_thing(m: Seq<(String, JsonValue)>) -> Seq<(String, JsonValue)> {
    match entry_index(m, "Thing"@) {
        Some(i) => m.remove(i),
        None => m,
    }
}

/// The key of the content of a `Thing` wrapper, `{"tb": t, "id"|"key": k}`
/// with a non-empty table: `t:k`.
pub open spec fn thing_content_key(thing: JsonValue) -> Option<Seq<char>> {
    match thing {
        JsonValue::Object(tm) => match entry_str(tm@, "tb"@) {
            Some(tb) => if tb.len() > 0 {
                match entry_index2(tm@, "id"@, "key"@) {
                    Some(j) => if 0 <= j < tm@.len() {
                        match key_of(tm@[j].1) {
                            Some(k) => Some(tb + ":"@ + k),
                            None => None,
                        }
                    } else {
                        None
                    },
                    None => None,
                }
            } else {
                None
            },
            None => None,
        },
        _ => None,
    }
}

/// The key of a wrapped `{"Thing": {"tb": t, "id"|"key": k}}` record id.
pub open spec fn thing_wrapped_key(m: Seq<(String, JsonValue)>) -> Option<Seq<char>> {
    match entry_index(m, "Thing"@) {
        Some(i) => if 0 <= i < m.len() {
            thing_content_key(m[i].1)
        } else {
            None
        },
        None => None,
    }
}

/// The key of a `{table_key: t, k1|k2: k}` record id: `k` itself when it
/// already names its table (holds a `:`), `t:k` otherwise.
pub open spec fn tabled_key(
    m: Seq<(String, JsonValue)>,
    table_key: Seq<char>,
    k1: Seq<char>,
    k2: Seq<char>,
) -> Option<Seq<char>> {
    match entry_str(m, table_key) {
        Some(t) => match entry_index2(m, k1, k2) {
            Some(j) => if 0 <= j < m.len() {
                match key_of(m[j].1) {
                    Some(k) => if k.contains(':') {
                        Some(k)
                    } else {
                        Some(t + ":"@ + k)
                    },
                    None => None,
                }
            } else {
                None
            },
            None => None,
        },
        None => None,
    }
}

/// The key of the content of the first of `keys` present in `m`, when it
/// has one.
pub open spec fn wrapped_key(m: Seq<(String, JsonValue)>, keys: Seq<Seq<char>>) -> Option<
    Seq<char>,
> {
    match first_entry(m, keys) {
        Some(j) => if 0 <= j < m.len() {
            key_of(m[j].1)
        } else {
            None
        },
        None => None,
    }
}

/// The record id that an object decodes to, when any of its shapes
/// resolves, in the order: wrapped `Thing`, `{tb, id|key}`,
/// `{table, key|id}`, `RecordId` wrapper, scalar wrapper (`String`,
/// `Strand` or `value`).
pub open spec fn resolve_object_key(m: Seq<(String, JsonValue)>) -> Option<Seq<char>> {
    let rest = without_thing(m);
    if thing_wrapped_key(m) is Some {
        thing_wrapped_key(m)
    } else if tabled_key(rest, "tb"@, "id"@, "key"@) is Some {
        tabled_key(rest, "tb"@, "id"@, "key"@)
    } else if tabled_key(rest, "table"@, "key"@, "id"@) is Some {
        tabled_key(rest, "table"@, "key"@, "id"@)
    } else if wrapped_key(rest, seq!["RecordId"@]) is Some {
        wrapped_key(rest, seq!["RecordId"@])
    } else {
        wrapped_key(rest, seq!["String"@, "Strand"@, "value"@])
    }
}

/// A decoded record id: its key text, or, when no shape resolves, the
/// object's entries (without `Thing`), which the caller renders as JSON
/// text.
#[derive(Debug)]
pub enum ThingId {
    Key(String),
    Unresolved(Vec<(String, JsonValue)>),
}

/// A record id that is neither a string nor an object ("invalid record id
/// type").
#[derive(Debug, Clone, Copy, PartialEq, Eq, Structural)]
pub struct InvalidRecordId;

fn first_of(m: &Vec<(String, JsonValue)>, keys: &[&str]) -> (r: Option<usize>)
    ensures
        r matches Some(i) ==> first_entry(m@, keys@.map_values(|k: &str| k@)) == Some(i as int)
            && i < m@.len(),
        r is None ==> first_entry(m@, keys@.map_values(|k: &str| k@)) is None,
{
    let ghost wk = keys@.map_values(|k: &str| k@);
    let mut j: usize = 0;
    assert(wk.skip(0) =~= wk);
    while j < keys.len()
        invariant
            j <= keys@.len(),
            wk == keys@.map_values(|k: &str| k@),
            first_entry(m@, wk) == first_entry(m@, wk.skip(j as int)),
        decreases keys@.len() - j,
    {
        let ghost rest = wk.skip(j as int);
        assert(rest.drop_first() =~= wk.skip(j + 1));
        assert(rest[0] == wk[j as int]);
        match find_entry(m, keys[j]) {
            Some(i) => {
                return Some(i);
            },
            None => {},
        }
        j = j + 1;
    }
    None
}

fn wrapped_key_exec(m: &Vec<(String, JsonValue)>, keys: &[&str]) -> (r: Option<String>)
    ensures
        r matches Some(s) ==> wrapped_key(m@, keys@.map_values(|k: &str| k@)) == Some(s@),
        r is None ==> wrapped_key(m@, keys@.map_values(|k: &str| k@)) is None,
{
    match first_of(m, keys) {
        Some(j) => extract_key(&m[j].1),
        None => None,
    }
}

fn tabled_key_exec(m: &Vec<(String, JsonValue)>, table_key: &str, k1: &str, k2: &str) -> (r:
    Option<String>)
    ensures
        r matches Some(s) ==> tabled_key(m@, table_key@, k1@, k2@) == Some(s@),
        r is None ==> tabled_key(m@, table_key@, k1@, k2@) is None,
{
    match entry_string(m, table_key) {
        Some(t) => match find_entry2(m, k1, k2) {
            Some(j) => match extract_key(&m[j].1) {
                Some(k) => {
                    if contains_char(k.as_str(), ':') {
                        Some(k)
                    } else {
                        Some(join_table_key(t.as_str(), k.as_str()))
                    }
                },
                None => None,
            },
            None => None,
        },
        None => None,
    }
}

fn thing_wrapped_key_exec(thing: &JsonValue) -> (r: Option<String>)
    ensures
        r matches Some(x) ==> thing_content_key(*thing) == Some(x@),
        r is None ==> thing_content_key(*thing) is None,
{
    match thing {
        JsonValue::Object(tm) => match entry_string(tm, "tb") {
            Some(tb) => {
                if tb.as_str().unicode_len() == 0 {
                    return None;
                }
                match find_entry2(tm, "id", "key") {
                    Some(j) => match extract_key(&tm[j].1) {
                        Some(k) => Some(join_table_key(tb.as_str(), k.as_str())),
                        None => None,
                    },
                    None => None,
                }
            },
            None => None,
        },
        _ => None,
    }
}

/// Decodes a record id: a string as is; an object by its shapes (see
/// `resolve_object_key`), or its entries without `Thing` when none
/// resolves; anything else is invalid.
pub fn resolve_thing_id(value: JsonValue) -> (r: Result<ThingId, InvalidRecordId>)
    ensures
        value matches JsonValue::String(s) ==> (r matches Ok(ThingId::Key(k)) && k == s),
        value matches JsonValue::Object(m) ==> (resolve_object_key(m@) is Some ==> (r matches Ok(ThingId::Key(k)) && Some(k@) == resolve_object_key(m@))),
        value matches JsonValue::Object(m) ==> (resolve_object_key(m@) is None ==> (r matches Ok(ThingId::Unresolved(rest)) && rest@ == without_thing(m@))),
        !(value is String || value is Object) ==> r is Err,
{
    match value {
        JsonValue::String(s) => Ok(ThingId::Key(s)),
        JsonValue::Object(m) => {
            let ghost m0 = m@;
            let mut map = m;
            let thing_key: Option<String> = match find_entry(&map, "Thing") {
                Some(i) => {
                    let entry = map.remove(i);
                    thing_wrapped_key_exec(&entry.1)
                },
                None => None,
            };
            assert(map@ == without_thing(m0));
            if let Some(k) = thing_key {
                return Ok(ThingId::Key(k));
            }
            if let Some(k) = tabled_key_exec(&map, "tb", "id", "key") {
                return Ok(ThingId::Key(k));
            }
            if let Some(k) = tabled_key_exec(&map, "table", "key", "id") {
                return Ok(ThingId::Key(k));
            }
            let record_keys: [&str; 1] = ["RecordId"];
            assert(record_keys@.map_values(|k: &str| k@) =~= seq!["RecordId"@]);
            if let Some(k) = wrapped_key_exec(&map, &record_keys) {
                return Ok(ThingId::Key(k));
            }
            let scalar_keys: [&str; 3] = ["String", "Strand", "value"];
            assert(scalar_keys@.map_values(|k: &str| k@) =~= seq!["String"@, "Strand"@, "value"@]);
            if let Some(k) = wrapped_key_exec(&map, &scalar_keys) {
                return Ok(ThingId::Key(k));
            }
            Ok(ThingId::Unresolved(map))
        },
        _ => Err(InvalidRecordId),
    }
}

/// Whether an object has an entry `key`.
pub open spec fn has_entry(m: Seq<(String, JsonValue)>, key: Seq<char>) -> bool {
    entry_index(m, key) is Some
}

/// Decodes an optional record id: `null` and `{"None": ..}` are absent;
/// anything else is decoded as a record id.
pub fn resolve_optional_thing_id(value: JsonValue) -> (r: Result<Option<ThingId>, InvalidRecordId>)
    ensures
        value is Null ==> r matches Ok(None),
        value matches JsonValue::Object(m) ==> (has_entry(m@, "None"@) ==> r matches Ok(None)),
        value matches JsonValue::String(s) ==> (r matches Ok(Some(ThingId::Key(k))) && k == s),
        value matches JsonValue::Object(m) ==> (!has_entry(m@, "None"@) && resolve_object_key(m@) is Some ==> (r matches Ok(Some(ThingId::Key(k))) && Some(k@) == resolve_object_key(m@))),
        value matches JsonValue::Object(m) ==> (!has_entry(m@, "None"@) && resolve_object_key(m@) is None ==> (r matches Ok(Some(ThingId::Unresolved(rest))) && rest@ == without_thing(m@))),
        !(value is Null || value is String || value is Object) ==> r is Err,
{
    match value {
        JsonValue::Null => Ok(None),
        JsonValue::Object(m) => {
            if find_entry(&m, "None").is_some() {
                Ok(None)
            } else {
                match resolve_thing_id(JsonValue::Object(m)) {
                    Ok(t) => Ok(Some(t)),
                    Err(e) => Err(e),
                }
            }
        },
        other => match resolve_thing_id(other) {
            Ok(t) => Ok(Some(t)),
            Err(e) => Err(e),
        },
    }
}

/// `serde_json::Value::as_i64` on a number held as its text.
pub open spec fn number_as_i64(text: Seq<char>) -> Option<i64> {
    parse_i64_spec(text)
}

/// The reasons the lenient integer reader refuses a value.
#[derive(Debug)]
pub enum LooseI64Error {
    /// A number that is no `i64` ("invalid numeric value").
    InvalidNumber,
    /// A string that is no integer ("invalid i64 string: <trimmed text>").
    InvalidString(String),
    /// A value of another kind ("invalid i64 value: <value>").
    InvalidValue(JsonValue),
}

/// Reads an integer leniently: a number that fits `i64`; a string holding
/// one (surrounding white space ignored); 0 for `null`, `{"None": ..}`, an
/// empty string or the word `none` in any case.
pub fn loose_i64(value: JsonValue) -> (r: Result<i64, LooseI64Error>)
    ensures
        value matches JsonValue::Number(n) ==> (number_as_i64(n@) is Some ==> (r matches Ok(y) && Some(y) == number_as_i64(n@))),
        value matches JsonValue::Number(n) ==> (number_as_i64(n@) is None ==> (r matches Err(LooseI64Error::InvalidNumber))),
        value matches JsonValue::String(s) ==> exists|t: Seq<char>| #[trigger] is_trim_of(TrimClass::Whitespace, s@, t) && (
            if t.len() == 0 || eq_ignore_ascii_case_spec(t, "none"@) {
                r matches Ok(y) && y == 0
            } else {
                match parse_i64_spec(t) {
                    Some(x) => r matches Ok(y) && y == x,
                    None => r matches Err(LooseI64Error::InvalidString(e)) && e@ == t,
                }
            }),
        value is Null ==> (r matches Ok(y) && y == 0),
        value matches JsonValue::Object(m) ==> (has_entry(m@, "None"@) ==> (r matches Ok(y) && y == 0)),
        value matches JsonValue::Object(m) ==> (!has_entry(m@, "None"@) ==> (r matches Err(LooseI64Error::InvalidValue(v)) && v == value)),
        value is Bool || value is Array ==> (r matches Err(LooseI64Error::InvalidValue(v)) && v == value),
{
    match value {
        JsonValue::Number(n) => match parse_i64(n.as_str()) {
            Some(x) => Ok(x),
            None => Err(LooseI64Error::InvalidNumber),
        },
        JsonValue::String(s) => {
            let t = trim(s.as_str());
            if t.unicode_len() == 0 || eq_ignore_ascii_case(t, "none") {
                Ok(0)
            } else {
                match parse_i64(t) {
                    Some(x) => Ok(x),
                    None => Err(LooseI64Error::InvalidString(owned(t))),
                }
            }
        },
        JsonValue::Null => Ok(0),
        JsonValue::Object(m) => {
            if find_entry(&m, "None").is_some() {
                Ok(0)
            } else {
                Err(LooseI64Error::InvalidValue(JsonValue::Object(m)))
            }
        },
        other => Err(LooseI64Error::InvalidValue(other)),
    }
}

/// The `total` count of an aggregate row: its `total` entry read as an
/// `i64`, or 0.
pub open spec fn pluck_spec(v: JsonValue) -> i64 {
    match v {
        JsonValue::Object(m) => match entry_index(m@, "total"@) {
            Some(i) => if 0 <= i < m@.len() {
                match m@[i].1 {
                    JsonValue::Number(n) => match number_as_i64(n@) {
                        Some(x) => x,
                        None => 0,
                    },
                    _ => 0,
                }
            } else {
                0
            },
            None => 0,
        },
        _ => 0,
    }
}

/// The `total` count of an aggregate row.
pub fn pluck(v: &JsonValue) -> (r: i64)
    ensures
        r == pluck_spec(*v),
{
    match v {
        JsonValue::Object(m) => match find_entry(m, "total") {
            Some(i) => match &m[i].1 {
                JsonValue::Number(n) => match parse_i64(n.as_str()) {
                    Some(x) => x,
                    None => 0,
                },
                _ => 0,
            },
            None => 0,
        },
        _ => 0,
    }
}

/// The instant an RFC 3339 timestamp denotes, in UTC.
pub uninterp spec fn spec_parse_rfc3339(text: Seq<char>) -> Option<UtcTime>;

/// `chrono::DateTime::parse_from_rfc3339`, converted to UTC: the instant,
/// named `spec_parse_rfc3339`; any instant chrono yields lies within its
/// range.
#[verifier::external_body]
fn parse_rfc3339(text: &str) -> (r: Option<UtcTime>)
    ensures
        r == spec_parse_rfc3339(text@),
        r matches Some(t) ==> t.wf(),
{
    match chrono::DateTime::parse_from_rfc3339(text) {
        Ok(dt) => {
            let u = dt.with_timezone(&chrono::Utc);
            Some(UtcTime { secs: u.timestamp(), nanos: u.timestamp_subsec_nanos() })
        },
        Err(_) => None,
    }
}

/// The text of a stored timestamp: a string; an object's `datetime` string;
/// a one-element array holding a string.
pub open spec fn datetime_text(v: JsonValue) -> Option<Seq<char>> {
    match v {
        JsonValue::String(s) => Some(s@),
        JsonValue::Object(m) => entry_str(m@, "datetime"@),
        JsonValue::Array(a) => if a@.len() == 1 {
            match a@[0] {
                JsonValue::String(s) => Some(s@),
                _ => None,
            }
        } else {
            None
        },
        _ => None,
    }
}

/// The reasons a stored timestamp is refused.
#[derive(Debug)]
pub enum DateTimeError {
    /// The value has none of the timestamp shapes.
    NoTimestamp,
    /// The text is no RFC 3339 timestamp.
    InvalidRfc3339(String),
}

/// Reads a stored timestamp (see `datetime_text`) and parses it as RFC 3339.
pub fn surreal_datetime(v: &JsonValue) -> (r: Result<UtcTime, DateTimeError>)
    ensures
        datetime_text(*v) is None ==> r matches Err(DateTimeError::NoTimestamp),
        datetime_text(*v) matches Some(t) ==> match spec_parse_rfc3339(t) {
            Some(x) => r == Ok::<UtcTime, DateTimeError>(x),
            None => r matches Err(DateTimeError::InvalidRfc3339(e)) && e@ == t,
        },
{
    let text: Option<&String> = match v {
        JsonValue::String(s) => Some(s),
        JsonValue::Object(m) => entry_string(m, "datetime"),
        JsonValue::Array(a) => {
            if a.len() == 1 {
                match &a[0] {
                    JsonValue::String(s) => Some(s),
                    _ => None,
                }
            } else {
                None
            }
        },
        _ => None,
    };
    match text {
        None => Err(DateTimeError::NoTimestamp),
        Some(t) => match parse_rfc3339(t.as_str()) {
            Some(x) => Ok(x),
            None => Err(DateTimeError::InvalidRfc3339(t.clone())),
        },
    }
}

/// Reads an optional stored timestamp: a timestamp when the value is one,
/// absent for `null`.
pub fn surreal_datetime_option(v: &JsonValue) -> (r: Result<Option<UtcTime>, DateTimeError>)
    ensures
        datetime_text(*v) matches Some(t) ==> (spec_parse_rfc3339(t) matches Some(x) ==> r == Ok::<Option<UtcTime>, DateTimeError>(Some(x))),
        !(datetime_text(*v) matches Some(t) && spec_parse_rfc3339(t) is Some) && v is Null ==> r matches Ok(None),
        !(datetime_text(*v) matches Some(t) && spec_parse_rfc3339(t) is Some) && !(v is Null) ==> r is Err,
{
    match surreal_datetime(v) {
        Ok(t) => Ok(Some(t)),
        Err(e) => match v {
            JsonValue::Null => Ok(None),
            _ => Err(e),
        },
    }
}

/// The reasons the lenient timestamp reader refuses a value.
#[derive(Debug)]
pub enum LooseDateTimeError {
    /// A string that is no RFC 3339 timestamp ("invalid RFC3339 datetime:
    /// <trimmed text>").
    InvalidRfc3339(String),
    /// Another value that is no stored timestamp ("invalid datetime value:
    /// <value>").
    InvalidValue(JsonValue),
}

/// Reads a timestamp leniently: the current time for `null`,
/// `{"None": ..}`, an empty string or the word `none`; a string holding an
/// RFC 3339 timestamp (surrounding white space ignored); any other stored
/// timestamp shape.
pub fn loose_datetime_now(value: JsonValue) -> (r: Result<UtcTime, LooseDateTimeError>)
    ensures
        value is Null ==> (r matches Ok(t) && t.wf()),
        value matches JsonValue::Object(m) ==> (has_entry(m@, "None"@) ==> (r matches Ok(t) && t.wf())),
        value matches JsonValue::String(s) ==> exists|t: Seq<char>| #[trigger] is_trim_of(TrimClass::Whitespace, s@, t) && (
            if t.len() == 0 || eq_ignore_ascii_case_spec(t, "none"@) {
                r matches Ok(x) && x.wf()
            } else {
                match spec_parse_rfc3339(t) {
                    Some(x) => r == Ok::<UtcTime, LooseDateTimeError>(x),
                    None => r matches Err(LooseDateTimeError::InvalidRfc3339(e)) && e@ == t,
                }
            }),
        !(value is Null || value is String) && !(value matches JsonValue::Object(m) && has_entry(m@, "None"@)) ==> (
            datetime_text(value) matches Some(t) ==> (spec_parse_rfc3339(t) matches Some(x) ==> r == Ok::<UtcTime, LooseDateTimeError>(x))),
        !(value is Null || value is String) && !(value matches JsonValue::Object(m) && has_entry(m@, "None"@)) ==> (
            !(datetime_text(value) matches Some(t) && spec_parse_rfc3339(t) is Some) ==> (r matches Err(LooseDateTimeError::InvalidValue(v)) && v == value)),
{
    match value {
        JsonValue::Null => Ok(now_utc()),
        JsonValue::String(s) => {
            let t = trim(s.as_str());
            if t.unicode_len() == 0 || eq_ignore_ascii_case(t, "none") {
                Ok(now_utc())
            } else {
                match parse_rfc3339(t) {
                    Some(x) => Ok(x),
                    None => Err(LooseDateTimeError::InvalidRfc3339(owned(t))),
                }
            }
        },
        JsonValue::Object(m) => {
            if find_entry(&m, "None").is_some() {
                Ok(now_utc())
            } else {
                let other = JsonValue::Object(m);
                match surreal_datetime(&other) {
                    Ok(x) => Ok(x),
                    Err(_) => Err(LooseDateTimeError::InvalidValue(other)),
                }
            }
        },
        other => match surreal_datetime(&other) {
            Ok(x) => Ok(x),
            Err(_) => Err(LooseDateTimeError::InvalidValue(other)),
        },
    }
}

/// A string record id decodes to itself.
pub proof fn law_string_id_passes_through(s: String)
    ensures
        key_of(JsonValue::String(s)) == Some(s@),
{
}

} // verus!
