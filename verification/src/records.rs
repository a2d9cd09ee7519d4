//! The JSON forms in which lists are stored: platforms by their variant
//! names, adapted contents as `[platform, text]` pairs, texts, named
//! values, and publication results; and the reading of stored texts back.
use crate::json::{json_array_document, json_document, json_get, json_items, json_keys, json_str, member_str, parse_json, parse_json_array, Json};
use crate::task::flows::{string_entries, strings_view};
use crate::types::{Platform, PublishResult};
use vstd::prelude::*;

verus! {

broadcast use vstd::string::group_string_axioms;

/// A stored platform: its variant name.
pub fn platform_json(p: Platform) -> (r: Json)
    ensures
        json_str(r) == Some(p.debug_text()),
{
    Json::string(p.debug_name())
}

/// Stored platforms: an array of their variant names.
pub fn platforms_json(ps: &Vec<Platform>) -> (r: Json)
    ensures
        r is Array,
        json_items(r).len() == ps@.len(),
        forall|i: int| 0 <= i < ps@.len() ==> json_str(#[trigger] json_items(r)[i]) == Some(ps@[i].debug_text()),
{
    let mut items: Vec<Json> = Vec::new();
    let mut i: usize = 0;
    while i < ps.len()
        invariant
            i <= ps.len(),
            items@.len() == i,
            forall|k: int| 0 <= k < i ==> json_str(#[trigger] items@[k]) == Some(ps@[k].debug_text()),
        decreases ps.len() - i,
    {
        items.push(platform_json(ps[i]));
        i = i + 1;
    }
    Json::Array(items)
}

/// Stored texts: an array of strings.
pub fn strings_json(v: &Vec<String>) -> (r: Json)
    ensures
        r is Array,
        json_items(r).len() == v@.len(),
        forall|i: int| 0 <= i < v@.len() ==> json_str(#[trigger] json_items(r)[i]) == Some(v@[i]@),
{
    let mut items: Vec<Json> = Vec::new();
    let mut i: usize = 0;
    while i < v.len()
        invariant
            i <= v.len(),
            items@.len() == i,
            forall|k: int| 0 <= k < i ==> json_str(#[trigger] items@[k]) == Some(v@[k]@),
        decreases v.len() - i,
    {
        items.push(Json::string(v[i].as_str()));
        i = i + 1;
    }
    Json::Array(items)
}

/// `e` is the stored pair of a platform and a text.
pub open spec fn pair_entry(e: Json, p: Platform, text: Seq<char>) -> bool {
    &&& json_items(e).len() == 2
    &&& json_str(json_items(e)[0]) == Some(p.debug_text())
    &&& json_str(json_items(e)[1]) == Some(text)
    &&& e is Array
}

/// Stored adapted contents: an array of `[platform, text]` pairs.
pub fn adapted_json(v: &Vec<(Platform, String)>) -> (r: Json)
    ensures
        r is Array,
        json_items(r).len() == v@.len(),
        forall|i: int| 0 <= i < v@.len() ==> pair_entry(#[trigger] json_items(r)[i], v@[i].0, v@[i].1@),
{
    let mut items: Vec<Json> = Vec::new();
    let mut i: usize = 0;
    while i < v.len()
        invariant
            i <= v.len(),
            items@.len() == i,
            forall|k: int| 0 <= k < i ==> pair_entry(#[trigger] items@[k], v@[k].0, v@[k].1@),
        decreases v.len() - i,
    {
        let pair = vec![platform_json(v[i].0), Json::string(v[i].1.as_str())];
        items.push(Json::Array(pair));
        i = i + 1;
    }
    Json::Array(items)
}

/// Stored named values: an object of strings.
pub fn named_values_json(v: &Vec<(String, String)>) -> (r: Json)
    ensures
        r is Object,
        json_keys(r).len() == v@.len(),
        forall|i: int| 0 <= i < v@.len() ==> #[trigger] json_keys(r)[i] == v@[i].0@,
        match r {
            Json::Object(fields) => forall|i: int| 0 <= i < v@.len() ==> json_str(#[trigger] fields@[i].1)
                == Some(v@[i].1@),
            _ => false,
        },
{
    let mut fields: Vec<(String, Json)> = Vec::new();
    let mut i: usize = 0;
    while i < v.len()
        invariant
            i <= v.len(),
            fields@.len() == i,
            forall|k: int| 0 <= k < i ==> (#[trigger] fields@[k]).0@ == v@[k].0@,
            forall|k: int| 0 <= k < i ==> json_str((#[trigger] fields@[k]).1) == Some(v@[k].1@),
        decreases v.len() - i,
    {
        let name = v[i].0.clone();
        fields.push((name, Json::string(v[i].1.as_str())));
        i = i + 1;
    }
    let r = Json::Object(fields);
    assert(json_keys(r).len() == v@.len());
    r
}

fn opt_string_json(o: &Option<String>) -> (r: Json)
    ensures
        match o {
            Some(s) => json_str(r) == Some(s@),
            None => r == Json::Null,
        },
{
    match o {
        Some(s) => Json::string(s.as_str()),
        None => Json::Null,
    }
}

/// `e` is the stored form of the result `r`: its fields in order, absent
/// texts as `null`.
pub open spec fn result_entry(e: Json, r: PublishResult) -> bool {
    &&& json_keys(e) == seq!["platform"@, "success"@, "post_id"@, "post_url"@, "error_code"@, "error_message"@]
    &&& member_str(e, "platform"@) == Some(r.platform.debug_text())
    &&& json_get(e, "success"@) == Some(Json::Bool(r.success))
    &&& opt_member(e, "post_id"@) == crate::publish::platforms::ov(r.post_id)
    &&& opt_member(e, "post_url"@) == crate::publish::platforms::ov(r.post_url)
    &&& opt_member(e, "error_code"@) == crate::publish::platforms::ov(r.error_code)
    &&& opt_member(e, "error_message"@) == crate::publish::platforms::ov(r.error_message)
}

/// A member that is a string or `null`: its text, or nothing.
pub open spec fn opt_member(e: Json, k: Seq<char>) -> Option<Seq<char>> {
    match json_get(e, k) {
        Some(Json::Null) => None,
        Some(v) => json_str(v),
        None => None,
    }
}

proof fn lemma_field_at(fields: Seq<(String, Json)>, k: int, key: Seq<char>)
    requires
        0 <= k < fields.len(),
        fields[k].0@ == key,
        forall|j: int| 0 <= j < k ==> (#[trigger] fields[j]).0@ != key,
    ensures
        crate::json::field_lookup(fields, key) == Some(fields[k].1),
    decreases k,
{
    if k > 0 {
        lemma_field_at(fields.drop_first(), k - 1, key);
    }
}

/// The stored form of a publication result.
pub fn publish_result_json(r: &PublishResult) -> (e: Json)
    ensures
        result_entry(e, *r),
{
    let fields = vec![
        ("platform".to_owned(), platform_json(r.platform)),
        ("success".to_owned(), Json::Bool(r.success)),
        ("post_id".to_owned(), opt_string_json(&r.post_id)),
        ("post_url".to_owned(), opt_string_json(&r.post_url)),
        ("error_code".to_owned(), opt_string_json(&r.error_code)),
        ("error_message".to_owned(), opt_string_json(&r.error_message)),
    ];
    let e = Json::Object(fields);
    proof {
        reveal_strlit("platform");
        reveal_strlit("success");
        reveal_strlit("post_id");
        reveal_strlit("post_url");
        reveal_strlit("error_code");
        reveal_strlit("error_message");
        assert("platform"@.len() == 8 && "success"@.len() == 7 && "post_id"@.len() == 7
            && "post_url"@.len() == 8 && "error_code"@.len() == 10 && "error_message"@.len() == 13);
        assert("platform"@[1] != "post_url"@[1]);
        assert("success"@[0] != "post_id"@[0]);
        assert(json_keys(e) =~= seq!["platform"@, "success"@, "post_id"@, "post_url"@, "error_code"@, "error_message"@]);
        lemma_field_at(fields@, 0, "platform"@);
        lemma_field_at(fields@, 1, "success"@);
        lemma_field_at(fields@, 2, "post_id"@);
        lemma_field_at(fields@, 3, "post_url"@);
        lemma_field_at(fields@, 4, "error_code"@);
        lemma_field_at(fields@, 5, "error_message"@);
    }
    e
}

/// The stored form of publication results: an array of their forms.
pub fn publish_results_json(v: &Vec<PublishResult>) -> (r: Json)
    ensures
        r is Array,
        json_items(r).len() == v@.len(),
        forall|i: int| 0 <= i < v@.len() ==> result_entry(#[trigger] json_items(r)[i], v@[i]),
{
    let mut items: Vec<Json> = Vec::new();
    let mut i: usize = 0;
    while i < v.len()
        invariant
            i <= v.len(),
            items@.len() == i,
            forall|k: int| 0 <= k < i ==> result_entry(#[trigger] items@[k], v@[k]),
        decreases v.len() - i,
    {
        items.push(publish_result_json(&v[i]));
        i = i + 1;
    }
    Json::Array(items)
}

/// Where every item is a string, the strings among the items are all of
/// them, in order.
pub proof fn lemma_string_entries_of_strings(items: Seq<Json>)
    requires
        forall|i: int| 0 <= i < items.len() ==> (#[trigger] json_str(items[i])) is Some,
    ensures
        string_entries(items).len() == items.len(),
        forall|i: int| 0 <= i < items.len() ==> Some(#[trigger] string_entries(items)[i]) == json_str(items[i]),
    decreases items.len(),
{
    if items.len() > 0 {
        let dl = items.drop_last();
        assert forall|i: int| 0 <= i < dl.len() implies (#[trigger] json_str(dl[i])) is Some by {
            assert(dl[i] == items[i]);
        }
        lemma_string_entries_of_strings(dl);
        assert(json_str(items[items.len() - 1]) is Some);
        assert forall|i: int| 0 <= i < items.len() implies Some(#[trigger] string_entries(items)[i]) == json_str(items[i]) by {
            if i < items.len() - 1 {
                assert(dl[i] == items[i]);
                assert(Some(string_entries(dl)[i]) == json_str(dl[i]));
            }
        }
    }
}

/// Stored texts read back: the strings of a stored array of strings;
/// nothing where the text is no such array.
pub open spec fn stored_strings(text: Seq<char>) -> Seq<Seq<char>> {
    match json_array_document(text) {
        Some(items) => if string_entries(items@).len() == items@.len() {
            string_entries(items@)
        } else {
            seq![]
        },
        None => seq![],
    }
}

/// Reads back stored texts (`serde_json::from_str::<Vec<String>>`, with
/// an empty list where the text is not an array of strings).
pub fn read_stored_strings(text: &str) -> (r: Vec<String>)
    ensures
        strings_view(r@) == stored_strings(text@),
{
    match parse_json_array(text) {
        Some(items) => {
            let mut out: Vec<String> = Vec::new();
            let mut i: usize = 0;
            while i < items.len()
                invariant
                    i <= items.len(),
                    json_array_document(text@) == Some(items),
                    strings_view(out@) == string_entries(items@.take(i as int)),
                    string_entries(items@.take(i as int)).len() == i,
                decreases items.len() - i,
            {
                assert(items@.take(i + 1).drop_last() =~= items@.take(i as int));
                match items[i].as_str() {
                    Some(s) => {
                        let ghost before = out@;
                        out.push(s.to_owned());
                        assert(strings_view(out@) =~= strings_view(before).push(s@));
                    },
                    None => {
                        proof {
                            lemma_string_entries_len(items@, i as int);
                            assert(json_array_document(text@) == Some(items));
                            assert(stored_strings(text@) == Seq::<Seq<char>>::empty());
                        }
                        let empty: Vec<String> = Vec::new();
                        assert(strings_view(empty@) =~= Seq::<Seq<char>>::empty());
                        return empty;
                    },
                }
                i = i + 1;
            }
            assert(items@.take(items.len() as int) =~= items@);
            out
        },
        None => {
            assert(strings_view(Seq::<String>::empty()) =~= Seq::empty());
            Vec::new()
        },
    }
}

proof fn lemma_string_entries_len(items: Seq<Json>, i: int)
    requires
        0 <= i < items.len(),
        json_str(items[i]) is None,
    ensures
        string_entries(items).len() < items.len(),
{
    lemma_string_entries_bound(items, i);
}

proof fn lemma_string_entries_bound(items: Seq<Json>, i: int)
    requires
        0 <= i < items.len(),
        json_str(items[i]) is None,
    ensures
        string_entries(items).len() < items.len(),
    decreases items.len(),
{
    lemma_string_entries_at_most(items.drop_last());
    if i < items.len() - 1 {
        lemma_string_entries_bound(items.drop_last(), i);
    }
}

proof fn lemma_string_entries_at_most(items: Seq<Json>)
    ensures
        string_entries(items).len() <= items.len(),
    decreases items.len(),
{
    if items.len() > 0 {
        lemma_string_entries_at_most(items.drop_last());
    }
}

} // verus!
