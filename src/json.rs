use vstd::prelude::*;

use crate::region::same_text;

verus! {

/// A parsed JSON document. Numbers keep their value when it is an integer;
/// any other number is only known to be fractional. An object lists its
/// members in order; where a name occurs twice, the first occurrence counts.
#[derive(Debug)]
pub enum Json {
    Null,
    Bool(bool),
    Int(i128),
    Fractional,
    Str(String),
    Array(Vec<Json>),
    Object(Vec<(String, Json)>),
}

/// The value of the first member named `key` at or after position `i`.
pub open spec fn lookup_from(f: Seq<(String, Json)>, key: Seq<char>, i: int) -> Option<Json>
    decreases f.len() - i,
{
    if i < 0 || i >= f.len() {
        None
    } else if f[i].0@ == key {
        Some(f[i].1)
    } else {
        lookup_from(f, key, i + 1)
    }
}

/// The value of the member named `key` in an object's members.
pub open spec fn lookup(f: Seq<(String, Json)>, key: Seq<char>) -> Option<Json> {
    lookup_from(f, key, 0)
}

/// An integer that fits in `i32`.
pub open spec fn as_i32(j: Option<Json>) -> Option<i32> {
    match j {
        Some(Json::Int(n)) => if i32::MIN <= n <= i32::MAX {
            Some(n as i32)
        } else {
            None
        },
        _ => None,
    }
}

/// An integer that fits in `i64`.
pub open spec fn as_i64(j: Option<Json>) -> Option<i64> {
    match j {
        Some(Json::Int(n)) => if i64::MIN <= n <= i64::MAX {
            Some(n as i64)
        } else {
            None
        },
        _ => None,
    }
}

/// An integer that fits in `u32`.
pub open spec fn as_u32(j: Option<Json>) -> Option<u32> {
    match j {
        Some(Json::Int(n)) => if 0 <= n <= u32::MAX {
            Some(n as u32)
        } else {
            None
        },
        _ => None,
    }
}

/// An integer that fits in `u64`.
pub open spec fn as_u64(j: Option<Json>) -> Option<u64> {
    match j {
        Some(Json::Int(n)) => if 0 <= n <= u64::MAX {
            Some(n as u64)
        } else {
            None
        },
        _ => None,
    }
}

/// A boolean.
pub open spec fn as_bool(j: Option<Json>) -> Option<bool> {
    match j {
        Some(Json::Bool(b)) => Some(b),
        _ => None,
    }
}

/// A string.
pub open spec fn as_text(j: Option<Json>) -> Option<Seq<char>> {
    match j {
        Some(Json::Str(s)) => Some(s@),
        _ => None,
    }
}

/// An optional integer member: absent or null reads as `None`.
pub open spec fn as_opt_i64(j: Option<Json>) -> Option<Option<i64>> {
    match j {
        None => Some(None),
        Some(Json::Null) => Some(None),
        _ => match as_i64(j) {
            Some(n) => Some(Some(n)),
            None => None,
        },
    }
}

/// An optional string member: absent or null reads as `None`.
pub open spec fn as_opt_text(j: Option<Json>) -> Option<Option<Seq<char>>> {
    match j {
        None => Some(None),
        Some(Json::Null) => Some(None),
        Some(Json::Str(s)) => Some(Some(s@)),
        _ => None,
    }
}

/// The characters of an optional string.
pub open spec fn opt_view(o: Option<String>) -> Option<Seq<char>> {
    match o {
        Some(s) => Some(s@),
        None => None,
    }
}

/// Whether a value is a string.
pub open spec fn is_text(j: Json) -> bool {
    j is Str
}

/// The characters of a string value.
pub open spec fn text_of(j: Json) -> Seq<char> {
    match j {
        Json::Str(s) => s@,
        _ => Seq::empty(),
    }
}

/// An array of strings.
pub open spec fn as_text_list(j: Option<Json>) -> Option<Seq<Seq<char>>> {
    match j {
        Some(Json::Array(a)) => if forall|i: int| 0 <= i < a@.len() ==> is_text(#[trigger] a@[i]) {
            Some(a@.map_values(|x: Json| text_of(x)))
        } else {
            None
        },
        _ => None,
    }
}

/// The characters of each string.
pub open spec fn texts_view(v: Seq<String>) -> Seq<Seq<char>> {
    v.map_values(|s: String| s@)
}

/// The value of the member named `key`.
pub fn member<'a>(f: &'a Vec<(String, Json)>, key: &str) -> (r: Option<&'a Json>)
    ensures
        match r {
            Some(v) => lookup(f@, key@) == Some(*v),
            None => lookup(f@, key@) is None,
        },
{
    let mut i: usize = 0;
    while i < f.len()
        invariant
            0 <= i <= f@.len(),
            lookup(f@, key@) == lookup_from(f@, key@, i as int),
        decreases f@.len() - i,
    {
        if same_text(f[i].0.as_str(), key) {
            return Some(&f[i].1);
        }
        i = i + 1;
    }
    None
}

/// The member named `key`, read as an `i32`.
pub fn member_i32(f: &Vec<(String, Json)>, key: &str) -> (r: Option<i32>)
    ensures
        r == as_i32(lookup(f@, key@)),
{
    match member(f, key) {
        Some(Json::Int(n)) => if i32::MIN as i128 <= *n && *n <= i32::MAX as i128 {
            Some(*n as i32)
        } else {
            None
        },
        _ => None,
    }
}

/// The member named `key`, read as an `i64`.
pub fn member_i64(f: &Vec<(String, Json)>, key: &str) -> (r: Option<i64>)
    ensures
        r == as_i64(lookup(f@, key@)),
{
    match member(f, key) {
        Some(Json::Int(n)) => if i64::MIN as i128 <= *n && *n <= i64::MAX as i128 {
            Some(*n as i64)
        } else {
            None
        },
        _ => None,
    }
}

/// The member named `key`, read as a `u32`.
pub fn member_u32(f: &Vec<(String, Json)>, key: &str) -> (r: Option<u32>)
    ensures
        r == as_u32(lookup(f@, key@)),
{
    match member(f, key) {
        Some(Json::Int(n)) => if 0 <= *n && *n <= u32::MAX as i128 {
            Some(*n as u32)
        } else {
            None
        },
        _ => None,
    }
}

/// The member named `key`, read as a `u64`.
pub fn member_u64(f: &Vec<(String, Json)>, key: &str) -> (r: Option<u64>)
    ensures
        r == as_u64(lookup(f@, key@)),
{
    match member(f, key) {
        Some(Json::Int(n)) => if 0 <= *n && *n <= u64::MAX as i128 {
            Some(*n as u64)
        } else {
            None
        },
        _ => None,
    }
}

/// The member named `key`, read as a boolean.
pub fn member_bool(f: &Vec<(String, Json)>, key: &str) -> (r: Option<bool>)
    ensures
        r == as_bool(lookup(f@, key@)),
{
    match member(f, key) {
        Some(Json::Bool(b)) => Some(*b),
        _ => None,
    }
}

/// The member named `key`, read as a string.
pub fn member_text(f: &Vec<(String, Json)>, key: &str) -> (r: Option<String>)
    ensures
        opt_view(r) == as_text(lookup(f@, key@)),
{
    match member(f, key) {
        Some(Json::Str(s)) => Some(s.clone()),
        _ => None,
    }
}

/// The optional member named `key`, read as an `i64`; the outer `None`
/// means it is present but not such an integer.
pub fn member_opt_i64(f: &Vec<(String, Json)>, key: &str) -> (r: Option<Option<i64>>)
    ensures
        r == as_opt_i64(lookup(f@, key@)),
{
    match member(f, key) {
        None => Some(None),
        Some(Json::Null) => Some(None),
        Some(Json::Int(n)) => if i64::MIN as i128 <= *n && *n <= i64::MAX as i128 {
            Some(Some(*n as i64))
        } else {
            None
        },
        _ => None,
    }
}

/// The optional member named `key`, read as a string; the outer `None`
/// means it is present but not a string.
pub fn member_opt_text(f: &Vec<(String, Json)>, key: &str) -> (r: Option<Option<String>>)
    ensures
        match r {
            Some(o) => as_opt_text(lookup(f@, key@)) == Some(opt_view(o)),
            None => as_opt_text(lookup(f@, key@)) is None,
        },
{
    match member(f, key) {
        None => Some(None),
        Some(Json::Null) => Some(None),
        Some(Json::Str(s)) => Some(Some(s.clone())),
        _ => None,
    }
}

/// Reads an array of strings.
pub fn text_list(j: &Json) -> (r: Option<Vec<String>>)
    ensures
        r is None ==> as_text_list(Some(*j)) is None,
        r matches Some(v) ==> as_text_list(Some(*j)) == Some(texts_view(v@)),
{
    match j {
        Json::Array(a) => {
            let mut out: Vec<String> = Vec::new();
            let mut i: usize = 0;
            while i < a.len()
                invariant
                    *j == Json::Array(*a),
                    0 <= i <= a@.len(),
                    out@.len() == i,
                    forall|k: int| 0 <= k < i ==> is_text(#[trigger] a@[k]),
                    forall|k: int| 0 <= k < i ==> out@[k]@ == #[trigger] text_of(a@[k]),
                decreases a@.len() - i,
            {
                match &a[i] {
                    Json::Str(s) => {
                        out.push(s.clone());
                    },
                    _ => {
                        assert(!is_text(a@[i as int]));
                        return None;
                    },
                }
                i = i + 1;
            }
            assert(texts_view(out@) =~= a@.map_values(|x: Json| text_of(x)));
            Some(out)
        },
        _ => None,
    }
}

/// The member named `key`, read as an array of strings.
pub fn member_text_list(f: &Vec<(String, Json)>, key: &str) -> (r: Option<Vec<String>>)
    ensures
        match r {
            Some(v) => as_text_list(lookup(f@, key@)) == Some(texts_view(v@)),
            None => as_text_list(lookup(f@, key@)) is None,
        },
{
    match member(f, key) {
        Some(j) => text_list(j),
        None => None,
    }
}

} // verus!
