//! Outside types that values of this library carry through without looking inside, what
//! is known of the outside functions that read them, and the ordered-map reading of string
//! pairs that the library's own lists share with `IndexMap`.
use vstd::prelude::*;
use crate::text::str_eq;

verus! {

/// `std::io::Error`, carried by the error types of the file system operations.
#[verifier::external_type_specification]
#[verifier::external_body]
pub struct ExIoError(std::io::Error);

/// `zip::result::ZipError`, carried by the error of an SDK bundle that cannot be unpacked.
#[verifier::external_type_specification]
#[verifier::external_body]
pub struct ExZipError(zip::result::ZipError);

/// `reqwest::Error`, carried by the error of a request that could not be performed.
#[verifier::external_type_specification]
#[verifier::external_body]
pub struct ExRequestError(reqwest::Error);

/// `<std::io::Error as Display>::to_string`. Nothing is claimed of the text, which may
/// come from the operating system.
#[verifier::external_body]
pub(crate) fn io_error_text(error: &std::io::Error) -> String {
    error.to_string()
}

/// `<zip::result::ZipError as Display>::to_string`. Nothing is claimed of the text, which
/// may come from an underlying I/O error.
#[verifier::external_body]
pub(crate) fn zip_error_text(error: &zip::result::ZipError) -> String {
    error.to_string()
}

/// `<reqwest::Error as Display>::to_string`. Nothing is claimed of the text, which may
/// come from an underlying connection error.
#[verifier::external_body]
pub(crate) fn request_error_text(error: &reqwest::Error) -> String {
    error.to_string()
}


/// `indexmap::IndexMap`, the ordered map that deploy tasks and loaders keep their string
/// parameters in.
#[verifier::external_type_specification]
#[verifier::external_body]
#[verifier::reject_recursive_types(K)]
#[verifier::reject_recursive_types(V)]
#[verifier::reject_recursive_types(S)]
pub struct ExIndexMap<K, V, S>(indexmap::IndexMap<K, V, S>);

/// Names the entries of a string map, as its key and value texts in the map's order.
pub uninterp spec fn index_map_entries(map: indexmap::IndexMap<String, String>) -> Seq<(Seq<char>, Seq<char>)>;

/// Position of the first entry whose key is `key`.
pub open spec fn spec_key_position(entries: Seq<(Seq<char>, Seq<char>)>, key: Seq<char>) -> Option<int>
    decreases entries.len(),
{
    if entries.len() == 0 {
        None
    } else if entries[0].0 == key {
        Some(0)
    } else {
        match spec_key_position(entries.drop_first(), key) {
            Some(i) => Some(i + 1),
            None => None,
        }
    }
}

/// Where a key sits in an ordered map, and that it sits nowhere else before.
pub proof fn lemma_key_position(entries: Seq<(Seq<char>, Seq<char>)>, key: Seq<char>)
    ensures
        match spec_key_position(entries, key) {
            Some(i) => 0 <= i < entries.len() && entries[i].0 == key && forall|j: int|
                0 <= j < i ==> entries[j].0 != key,
            None => forall|j: int| 0 <= j < entries.len() ==> entries[j].0 != key,
        },
    decreases entries.len(),
{
    if entries.len() > 0 {
        lemma_key_position(entries.drop_first(), key);
        assert forall|j: int| 1 <= j < entries.len() implies entries[j] == entries.drop_first()[j
            - 1] by {}
    }
}

/// Value stored for `key` in an ordered map.
pub open spec fn spec_map_get(entries: Seq<(Seq<char>, Seq<char>)>, key: Seq<char>) -> Option<Seq<char>> {
    match spec_key_position(entries, key) {
        Some(i) => Some(entries[i].1),
        None => None,
    }
}

/// An ordered map after inserting `key` with `value`: an existing key keeps its place and
/// takes the new value, a new key is appended last.
pub open spec fn spec_map_insert(entries: Seq<(Seq<char>, Seq<char>)>, key: Seq<char>, value: Seq<char>) -> Seq<(Seq<char>, Seq<char>)> {
    match spec_key_position(entries, key) {
        Some(i) => entries.update(i, (key, value)),
        None => entries.push((key, value)),
    }
}

/// A list of string pairs as the texts of its keys and values, in order.
pub open spec fn pairs_view(v: Seq<(String, String)>) -> Seq<(Seq<char>, Seq<char>)> {
    v.map_values(|e: (String, String)| (e.0@, e.1@))
}

/// Sets `key` to `value` in a list of string pairs kept as an ordered map, as
/// [`spec_map_insert`] says.
pub(crate) fn pairs_insert(v: &mut Vec<(String, String)>, key: String, value: String)
    ensures
        pairs_view(final(v)@) == spec_map_insert(pairs_view(old(v)@), key@, value@),
{
    let ghost entries = pairs_view(v@);
    proof {
        lemma_key_position(entries, key@);
    }
    let mut i: usize = 0;
    while i < v.len()
        invariant
            i <= v@.len(),
            entries == pairs_view(v@),
            v@ == old(v)@,
            forall|j: int| 0 <= j < i ==> entries[j].0 != key@,
            match spec_key_position(entries, key@) {
                Some(p) => 0 <= p < entries.len() && entries[p].0 == key@ && forall|j: int|
                    0 <= j < p ==> entries[j].0 != key@,
                None => forall|j: int| 0 <= j < entries.len() ==> entries[j].0 != key@,
            },
        decreases v@.len() - i,
    {
        assert(entries[i as int] == (v@[i as int].0@, v@[i as int].1@));
        if str_eq(v[i].0.as_str(), key.as_str()) {
            v.set(i, (key, value));
            assert(pairs_view(v@) =~= entries.update(i as int, (key@, value@)));
            return;
        }
        i += 1;
    }
    v.push((key, value));
    assert(pairs_view(v@) =~= entries.push((key@, value@)));
}

/// The value stored for `key` in a list of string pairs kept as an ordered map.
pub(crate) fn pairs_get<'a>(v: &'a Vec<(String, String)>, key: &str) -> (r: Option<&'a String>)
    ensures
        match r {
            Some(s) => spec_map_get(pairs_view(v@), key@) == Some(s@),
            None => spec_map_get(pairs_view(v@), key@) is None,
        },
{
    let ghost entries = pairs_view(v@);
    proof {
        lemma_key_position(entries, key@);
    }
    let mut i: usize = 0;
    while i < v.len()
        invariant
            i <= v@.len(),
            entries == pairs_view(v@),
            forall|j: int| 0 <= j < i ==> entries[j].0 != key@,
            match spec_key_position(entries, key@) {
                Some(p) => 0 <= p < entries.len() && entries[p].0 == key@ && forall|j: int|
                    0 <= j < p ==> entries[j].0 != key@,
                None => forall|j: int| 0 <= j < entries.len() ==> entries[j].0 != key@,
            },
        decreases v@.len() - i,
    {
        assert(entries[i as int] == (v@[i as int].0@, v@[i as int].1@));
        if str_eq(v[i].0.as_str(), key) {
            return Some(&v[i].1);
        }
        i += 1;
    }
    None
}

/// `IndexMap::new`: an empty map.
#[verifier::external_body]
pub(crate) fn index_map_new() -> (m: indexmap::IndexMap<String, String>)
    ensures
        index_map_entries(m) == Seq::<(Seq<char>, Seq<char>)>::empty(),
{
    indexmap::IndexMap::new()
}

/// `IndexMap::insert`: an existing key keeps its place in the order and takes the new
/// value; a new key is inserted last.
#[verifier::external_body]
pub(crate) fn index_map_insert(map: &mut indexmap::IndexMap<String, String>, key: String, value: String)
    ensures
        index_map_entries(*final(map)) == spec_map_insert(index_map_entries(*old(map)), key@, value@),
{
    map.insert(key, value);
}

/// `IndexMap::get`: the value stored for `key`.
#[verifier::external_body]
pub(crate) fn index_map_get<'a>(map: &'a indexmap::IndexMap<String, String>, key: &str) -> (v: Option<&'a String>)
    ensures
        match v {
            Some(v) => spec_map_get(index_map_entries(*map), key@) == Some(v@),
            None => spec_map_get(index_map_entries(*map), key@) is None,
        },
{
    map.get(key)
}

/// `IndexMap::len`: the number of entries.
#[verifier::external_body]
pub(crate) fn index_map_len(map: &indexmap::IndexMap<String, String>) -> (n: usize)
    ensures
        n == index_map_entries(*map).len(),
{
    map.len()
}

/// `IndexMap::get_index`: the entry at position `index` in the map's order.
#[verifier::external_body]
pub(crate) fn index_map_get_index<'a>(map: &'a indexmap::IndexMap<String, String>, index: usize) -> (e: Option<(&'a String, &'a String)>)
    ensures
        match e {
            Some(e) => index < index_map_entries(*map).len() && index_map_entries(*map)[index as int] == (e.0@, e.1@),
            None => index >= index_map_entries(*map).len(),
        },
{
    map.get_index(index)
}


/// Names what `regex::Regex::new(pattern)` followed by `captures(text)` yields: `None` when
/// the pattern does not compile or nothing in `text` matches it, and otherwise every
/// capture group of the leftmost-first match, group 0 being the whole match, `None` for a
/// group that did not take part in it.
pub uninterp spec fn regex_captures(pattern: Seq<char>, text: Seq<char>) -> Option<Seq<Option<Seq<char>>>>;

/// `regex::Regex::new(pattern)`, then `Regex::captures(text)`, each group taken as text.
///
/// The one wrapper stands for those two outside calls composed: [`regex_captures`] names
/// what they yield together, and a pattern that does not compile yields `None`.
#[verifier::external_body]
pub(crate) fn captures(pattern: &str, text: &str) -> (r: Option<Vec<Option<String>>>)
    ensures
        match r {
            None => regex_captures(pattern@, text@) is None,
            Some(groups) => regex_captures(pattern@, text@) == Some(
                groups@.map_values(|g: Option<String>| match g {
                    Some(s) => Some(s@),
                    None => None,
                }),
            ),
        },
{
    let regex = regex::Regex::new(pattern).ok()?;
    let caps = regex.captures(text)?;
    Some((0..caps.len()).map(|i| caps.get(i).map(|m| m.as_str().to_owned())).collect())
}

/// Names what `regex::Regex::new(pattern)` followed by `captures_iter(text)` yields for the
/// capture group `group`: one entry per successive non-overlapping match, `None` where the
/// group did not take part in the match; no entries when the pattern does not compile.
pub uninterp spec fn regex_group_matches(pattern: Seq<char>, text: Seq<char>, group: nat) -> Seq<Option<Seq<char>>>;

/// `regex::Regex::new(pattern)`, then `Regex::captures_iter(text)`, keeping capture group
/// `group` of every match.
///
/// The one wrapper stands for those two outside calls composed: [`regex_group_matches`]
/// names what they yield together.
#[verifier::external_body]
pub(crate) fn group_matches(pattern: &str, text: &str, group: usize) -> (r: Vec<Option<String>>)
    ensures
        r@.map_values(|g: Option<String>| match g {
            Some(s) => Some(s@),
            None => None,
        }) == regex_group_matches(pattern@, text@, group as nat),
{
    match regex::Regex::new(pattern) {
        Ok(regex) => regex.captures_iter(text).map(|caps| caps.get(group).map(|m| m.as_str().to_owned())).collect(),
        Err(_) => Vec::new(),
    }
}

} // verus!
