//! The query string of a listing request, built from its JSON parameters.
//!
//! The parameters are read the way the API's clients send them: a flat JSON
//! object whose fields are split at commas, each field at its first colon,
//! with quotes and whitespace trimmed. Scalar values become `key=value`
//! pairs with the value percent-encoded; `tag_ids` arrays become one
//! `tag_ids=id` pair per element.

use vstd::prelude::*;
use crate::encoding::{url_encode, url_encoded};
use crate::text::{
    char_vec_views, chars_equal, chars_of, copy_range, find_char, find_seq, first_index_of,
    first_occurrence, is_first_index, is_whitespace, join, join_exec, split, split_exec,
    split_once, split_once_exec, string_from_chars, string_views, strip_end, strip_end_exec,
    strip_start, strip_start_exec, trim, trim_char, trim_exec, trim_matching_exec, CharPattern,
};
use crate::validation::{is_blank_object, is_empty_json_object};

verus! {

/// The key and value of a `key: value` field, trimmed of whitespace and then of quotes;
/// `None` when the field has no colon.
pub open spec fn field_parts(field: Seq<char>) -> Option<(Seq<char>, Seq<char>)> {
    match split_once(field, ':') {
        Some((k, v)) => Some((trim_char(trim(k), '"'), trim_char(trim(v), '"'))),
        None => None,
    }
}

/// A value that yields no query pair: empty, `null`, or (when arrays are
/// skipped) one that starts with `[`.
pub open spec fn is_skipped_value(value: Seq<char>, skip_arrays: bool) -> bool {
    value.len() == 0 || value == "null"@ || (skip_arrays && value[0] == '[')
}

/// The query pair of one field, when it yields one.
pub open spec fn field_query_pair(field: Seq<char>, skip_arrays: bool) -> Option<Seq<char>> {
    match field_parts(field) {
        Some((k, v)) => if is_skipped_value(v, skip_arrays) {
            None
        } else {
            Some(k + "="@ + url_encoded(v))
        },
        None => None,
    }
}

/// The query pairs of a sequence of fields, in order, skipping those that yield none.
pub open spec fn fields_query_pairs(fields: Seq<Seq<char>>, skip_arrays: bool) -> Seq<Seq<char>>
    decreases fields.len(),
{
    if fields.len() == 0 {
        Seq::<Seq<char>>::empty()
    } else {
        let prev = fields_query_pairs(fields.drop_last(), skip_arrays);
        match field_query_pair(fields.last(), skip_arrays) {
            Some(p) => prev.push(p),
            None => prev,
        }
    }
}

/// The text between the braces of the object: trimmed, then every leading `{`
/// and every trailing `}` removed.
pub open spec fn object_body(json: Seq<char>) -> Seq<char> {
    strip_end(strip_start(trim(json), CharPattern::Exactly('{')), CharPattern::Exactly('}'))
}

/// The query pairs of the scalar fields of the object.
pub open spec fn object_query_pairs(json: Seq<char>, skip_arrays: bool) -> Seq<Seq<char>> {
    if object_body(json).len() == 0 {
        Seq::<Seq<char>>::empty()
    } else {
        fields_query_pairs(split(object_body(json), ','), skip_arrays)
    }
}

/// Splits a field at its first colon and trims key and value.
fn split_field(field: &Vec<char>) -> (res: Option<(Vec<char>, Vec<char>)>)
    ensures
        match res {
            Some((k, v)) => field_parts(field@) == Some((k@, v@)),
            None => field_parts(field@) is None,
        },
{
    match split_once_exec(field, ':') {
        Some((k, v)) => {
            let key = trim_matching_exec(&trim_exec(&k), CharPattern::Exactly('"'));
            let value = trim_matching_exec(&trim_exec(&v), CharPattern::Exactly('"'));
            Some((key, value))
        },
        None => None,
    }
}

/// `key=value` with the value percent-encoded.
fn encoded_pair(key: &Vec<char>, value: &Vec<char>) -> (res: String)
    ensures
        res@ == key@ + "="@ + url_encoded(value@),
{
    let mut pair = string_from_chars(key);
    pair.append("=");
    let v = string_from_chars(value);
    let encoded = url_encode(v.as_str());
    pair.append(encoded.as_str());
    pair
}

/// The query pair of one field.
pub(crate) fn field_query_pair_exec(field: &Vec<char>, skip_arrays: bool) -> (res: Option<String>)
    ensures
        match res {
            Some(p) => field_query_pair(field@, skip_arrays) == Some(p@),
            None => field_query_pair(field@, skip_arrays) is None,
        },
{
    match split_field(field) {
        Some((key, value)) => {
            if value.len() == 0 || chars_equal(&value, &chars_of("null")) || (skip_arrays
                && value[0] == '[') {
                None
            } else {
                Some(encoded_pair(&key, &value))
            }
        },
        None => None,
    }
}

/// Extracts the query pair of one `"key": value` field; `None` for a field
/// without a colon or whose value is empty, `null` or an array.
pub fn extract_query_pair_from_json_field(field: &str) -> (res: Option<String>)
    ensures
        match res {
            Some(p) => field_query_pair(field@, true) == Some(p@),
            None => field_query_pair(field@, true) is None,
        },
{
    field_query_pair_exec(&chars_of(field), true)
}

/// The query pairs of the object's fields.
pub(crate) fn object_query_pairs_exec(json: &str, skip_arrays: bool) -> (res: Vec<String>)
    ensures
        string_views(res@) == object_query_pairs(json@, skip_arrays),
{
    let trimmed = trim_exec(&chars_of(json));
    let opened = strip_start_exec(&trimmed, CharPattern::Exactly('{'));
    let body = strip_end_exec(&opened, CharPattern::Exactly('}'));
    let mut pairs: Vec<String> = Vec::new();
    if body.len() == 0 {
        assert(string_views(pairs@) =~= Seq::<Seq<char>>::empty());
        return pairs;
    }
    let fields = split_exec(&body, ',');
    let ghost all = char_vec_views(fields@);
    let mut i: usize = 0;
    assert(all.take(0) =~= Seq::<Seq<char>>::empty());
    assert(string_views(pairs@) =~= Seq::<Seq<char>>::empty());
    while i < fields.len()
        invariant
            i <= fields.len(),
            all == char_vec_views(fields@),
            all == split(object_body(json@), ','),
            string_views(pairs@) == fields_query_pairs(all.take(i as int), skip_arrays),
        decreases fields.len() - i,
    {
        assert(all.take(i + 1).drop_last() =~= all.take(i as int));
        assert(all.take(i + 1).last() == fields@[i as int]@);
        let ghost before = string_views(pairs@);
        match field_query_pair_exec(&fields[i], skip_arrays) {
            Some(p) => {
                pairs.push(p);
                assert(string_views(pairs@) =~= before.push(pairs@.last()@));
            },
            None => {},
        }
        i = i + 1;
    }
    assert(all.take(fields.len() as int) =~= all);
    pairs
}

/// The `key=value` query pairs of the object's scalar fields, in order.
pub fn parse_json_params_to_query_pairs(json_params: &str) -> (res: Vec<String>)
    ensures
        string_views(res@) == object_query_pairs(json_params@, true),
{
    object_query_pairs_exec(json_params, true)
}

/// The quoted key under which tag identifiers are given.
pub open spec fn tag_ids_key() -> Seq<char> {
    "\"tag_ids\""@
}

/// The `tag_ids=id` pairs of the elements of a tag array, skipping empty ones.
pub open spec fn tag_id_pairs_of(elements: Seq<Seq<char>>) -> Seq<Seq<char>>
    decreases elements.len(),
{
    if elements.len() == 0 {
        Seq::<Seq<char>>::empty()
    } else {
        let prev = tag_id_pairs_of(elements.drop_last());
        let id = trim_char(trim(elements.last()), '"');
        if id.len() == 0 {
            prev
        } else {
            prev.push("tag_ids="@ + url_encoded(id))
        }
    }
}

/// The text between the `[` and `]` that follow the first `"tag_ids"`, if both are there.
pub open spec fn tag_array_contents(json: Seq<char>) -> Option<Seq<char>> {
    match first_occurrence(json, tag_ids_key()) {
        None => None,
        Some(k) => {
            let after_key = json.skip(k + tag_ids_key().len());
            match first_index_of(after_key, '[') {
                None => None,
                Some(b) => {
                    let contents = after_key.skip(b + 1);
                    match first_index_of(contents, ']') {
                        None => None,
                        Some(e) => Some(contents.take(e)),
                    }
                },
            }
        },
    }
}

/// The `tag_ids=id` pairs of the parameters.
pub open spec fn tag_id_pairs(json: Seq<char>) -> Seq<Seq<char>> {
    match tag_array_contents(json) {
        Some(elements) => tag_id_pairs_of(split(elements, ',')),
        None => Seq::<Seq<char>>::empty(),
    }
}

/// The text of the tag array, as `tag_array_contents` states it.
fn tag_array_contents_exec(json: &Vec<char>) -> (res: Option<Vec<char>>)
    ensures
        match res {
            Some(c) => tag_array_contents(json@) == Some(c@),
            None => tag_array_contents(json@) is None,
        },
{
    let key = chars_of("\"tag_ids\"");
    let key_position = match find_seq(json, &key) {
        Some(position) => position,
        None => return None,
    };
    assert(key_position + key.len() <= json.len());
    let after_key = copy_range(json, key_position + key.len(), json.len());
    assert(after_key@ =~= json@.skip(key_position + tag_ids_key().len()));
    let bracket_start = match find_char(&after_key, '[') {
        Some(position) => position,
        None => return None,
    };
    let contents = copy_range(&after_key, bracket_start + 1, after_key.len());
    assert(contents@ =~= after_key@.skip(bracket_start + 1));
    let bracket_end = match find_char(&contents, ']') {
        Some(position) => position,
        None => return None,
    };
    let elements = copy_range(&contents, 0, bracket_end);
    assert(elements@ =~= contents@.take(bracket_end as int));
    Some(elements)
}

/// The `tag_ids=id` query pairs of the `tag_ids` array, one per non-empty element.
pub fn extract_tag_ids_from_json_parameters(json_params: &str) -> (res: Vec<String>)
    ensures
        string_views(res@) == tag_id_pairs(json_params@),
{
    let json = chars_of(json_params);
    let mut pairs: Vec<String> = Vec::new();
    let elements = match tag_array_contents_exec(&json) {
        Some(elements) => elements,
        None => {
            assert(string_views(pairs@) =~= Seq::<Seq<char>>::empty());
            return pairs;
        },
    };
    let items = split_exec(&elements, ',');
    let ghost all = char_vec_views(items@);
    let mut i: usize = 0;
    assert(all.take(0) =~= Seq::<Seq<char>>::empty());
    assert(string_views(pairs@) =~= Seq::<Seq<char>>::empty());
    while i < items.len()
        invariant
            i <= items.len(),
            all == char_vec_views(items@),
            tag_array_contents(json_params@) == Some(elements@),
            all == split(elements@, ','),
            string_views(pairs@) == tag_id_pairs_of(all.take(i as int)),
        decreases items.len() - i,
    {
        assert(all.take(i + 1).drop_last() =~= all.take(i as int));
        assert(all.take(i + 1).last() == items@[i as int]@);
        let ghost before = string_views(pairs@);
        let id = trim_matching_exec(&trim_exec(&items[i]), CharPattern::Exactly('"'));
        if id.len() > 0 {
            let mut pair = String::from_str("tag_ids=");
            let encoded = url_encode(string_from_chars(&id).as_str());
            pair.append(encoded.as_str());
            pairs.push(pair);
            assert(string_views(pairs@) =~= before.push(pairs@.last()@));
        }
        i = i + 1;
    }
    assert(all.take(items.len() as int) =~= all);
    pairs
}

/// The query string of the parameters: empty for a blank or empty object or
/// when no pair results, else `?` and the pairs joined by `&`.
pub open spec fn query_string(json: Seq<char>) -> Seq<char> {
    if is_blank_object(json) {
        Seq::<char>::empty()
    } else {
        let pairs = object_query_pairs(json, true) + tag_id_pairs(json);
        if pairs.len() == 0 {
            Seq::<char>::empty()
        } else {
            "?"@ + join(pairs, "&"@)
        }
    }
}

/// Builds the query string (with its leading `?`) from JSON parameters; it never fails.
pub fn build_query_string_from_json_parameters(json_params: &str) -> (res: Result<String, String>)
    ensures
        res matches Ok(q) && q@ == query_string(json_params@),
{
    if is_empty_json_object(json_params) {
        return Ok(String::new());
    }
    let mut parameters = parse_json_params_to_query_pairs(json_params);
    let mut tag_id_parameters = extract_tag_ids_from_json_parameters(json_params);
    let ghost first = parameters@;
    let ghost second = tag_id_parameters@;
    parameters.append(&mut tag_id_parameters);
    assert(string_views(parameters@) =~= string_views(first) + string_views(second));
    if parameters.len() == 0 {
        Ok(String::new())
    } else {
        let mut query = String::from_str("?");
        let joined = join_exec(&parameters, "&");
        query.append(joined.as_str());
        Ok(query)
    }
}

/// A query string is empty or starts with `?`.
pub proof fn lemma_query_string_is_empty_or_starts_with_question_mark(json: Seq<char>)
    ensures
        query_string(json).len() == 0 || query_string(json)[0] == '?',
{
    reveal_strlit("?");
}

/// A field is split into key and value at its first `:`, whatever follows
/// it; each part is trimmed of whitespace and then of quotes.
pub proof fn lemma_field_splits_at_first_colon(field: Seq<char>, i: int)
    requires
        0 <= i < field.len(),
        field[i] == ':',
        forall|j: int| 0 <= j < i ==> field[j] != ':',
    ensures
        field_parts(field) == Some(
            (trim_char(trim(field.take(i)), '"'), trim_char(trim(field.skip(i + 1)), '"')),
        ),
{
    assert(is_first_index(field, ':', i));
    let j = choose|j: int| is_first_index(field, ':', j);
    assert(is_first_index(field, ':', j));
    if j < i {
        assert(field[j] != ':');
    }
    if i < j {
        assert(field[i] != ':');
    }
    assert(j == i);
}

/// A field without a colon yields no key and value.
pub proof fn lemma_field_without_colon(field: Seq<char>)
    requires
        forall|j: int| 0 <= j < field.len() ==> field[j] != ':',
    ensures
        field_parts(field) is None,
{
    if exists|j: int| is_first_index(field, ':', j) {
        let j = choose|j: int| is_first_index(field, ':', j);
        assert(field[j] == ':');
    }
}

/// Whitespace after the colon does not change a field: `"k":"v"` and
/// `"k": "v"` give the same key and value (and so the same query pair).
pub proof fn lemma_space_after_colon_is_ignored(key: Seq<char>, value: Seq<char>)
    requires
        forall|j: int| 0 <= j < key.len() ==> key[j] != ':',
    ensures
        field_parts(key + seq![':'] + value) == field_parts(key + seq![':', ' '] + value),
        field_query_pair(key + seq![':'] + value, true) == field_query_pair(
            key + seq![':', ' '] + value,
            true,
        ),
        field_query_pair(key + seq![':'] + value, false) == field_query_pair(
            key + seq![':', ' '] + value,
            false,
        ),
{
    let f1 = key + seq![':'] + value;
    let f2 = key + seq![':', ' '] + value;
    let i = key.len() as int;
    assert(f1[i] == ':');
    assert(f2[i] == ':');
    assert forall|j: int| 0 <= j < i implies f1[j] != ':' && f2[j] != ':' by {
        assert(f1[j] == key[j]);
        assert(f2[j] == key[j]);
    }
    lemma_field_splits_at_first_colon(f1, i);
    lemma_field_splits_at_first_colon(f2, i);
    assert(f1.take(i) =~= key);
    assert(f2.take(i) =~= key);
    assert(f1.skip(i + 1) =~= value);
    let after = f2.skip(i + 1);
    assert(after =~= seq![' '] + value);
    assert(after.drop_first() =~= value);
    assert(is_whitespace(after[0]));
    assert(strip_start(after, CharPattern::Whitespace) == strip_start(value, CharPattern::Whitespace));
}

/// Compact JSON parameters (no space after the colon) give their query pair:
/// `"limit":"20"` yields `limit=20` as `"limit": "20"` does.
pub proof fn lemma_compact_field_yields_its_pair(key: Seq<char>, value: Seq<char>)
    requires
        forall|j: int| 0 <= j < key.len() ==> key[j] != ':',
    ensures
        field_parts(key + seq![':'] + value) == Some(
            (trim_char(trim(key), '"'), trim_char(trim(value), '"')),
        ),
{
    let f = key + seq![':'] + value;
    let i = key.len() as int;
    assert(f[i] == ':');
    assert forall|j: int| 0 <= j < i implies f[j] != ':' by {
        assert(f[j] == key[j]);
    }
    lemma_field_splits_at_first_colon(f, i);
    assert(f.take(i) =~= key);
    assert(f.skip(i + 1) =~= value);
}

/// What one `key:value` field yields: nothing for an empty or `null` value,
/// nothing for a value that starts with `[` when arrays are skipped, and
/// otherwise the key, `=`, and the percent-encoded value, both trimmed of
/// whitespace and then of quotes.
pub proof fn lemma_field_query_pair_cases(key: Seq<char>, value: Seq<char>, skip_arrays: bool)
    requires
        forall|j: int| 0 <= j < key.len() ==> key[j] != ':',
    ensures
        ({
            let f = key + seq![':'] + value;
            let k = trim_char(trim(key), '"');
            let v = trim_char(trim(value), '"');
            &&& (v.len() == 0 || v == seq!['n', 'u', 'l', 'l']) ==> field_query_pair(f, skip_arrays)
                is None
            &&& (v.len() > 0 && v[0] == '[' && skip_arrays) ==> field_query_pair(f, skip_arrays)
                is None
            &&& (v.len() > 0 && v != seq!['n', 'u', 'l', 'l'] && !(skip_arrays && v[0] == '['))
                ==> field_query_pair(f, skip_arrays) == Some(k + seq!['='] + url_encoded(v))
        }),
{
    reveal_strlit("null");
    reveal_strlit("=");
    lemma_compact_field_yields_its_pair(key, value);
    assert("null"@ =~= seq!['n', 'u', 'l', 'l']);
    assert("="@ =~= seq!['=']);
}

/// The key under which tag identifiers are read is the 9 characters `"tag_ids"`,
/// and each identifier becomes `tag_ids=` and its encoding.
pub proof fn lemma_tag_ids_key_is_quoted_tag_ids()
    ensures
        tag_ids_key() == seq!['"', 't', 'a', 'g', '_', 'i', 'd', 's', '"'],
        tag_id_pairs_of(seq![seq!['x']]) == seq![
            seq!['t', 'a', 'g', '_', 'i', 'd', 's', '='] + url_encoded(seq!['x']),
        ],
{
    reveal_strlit("\"tag_ids\"");
    reveal_strlit("tag_ids=");
    assert(tag_ids_key() =~= seq!['"', 't', 'a', 'g', '_', 'i', 'd', 's', '"']);
    let e = seq!['x'];
    assert(!is_whitespace('x'));
    assert(strip_start(e, CharPattern::Whitespace) == e);
    assert(e.drop_last() =~= Seq::<char>::empty());
    assert(strip_end(e, CharPattern::Whitespace) == e);
    assert(strip_start(e, CharPattern::Exactly('"')) == e);
    assert(strip_end(e, CharPattern::Exactly('"')) == e);
    let el = seq![e];
    assert(el.drop_last() =~= Seq::<Seq<char>>::empty());
    assert(el.last() == e);
    assert(trim(e) == e);
    assert(trim_char(e, '"') == e);
    assert(tag_id_pairs_of(el.drop_last()) =~= Seq::<Seq<char>>::empty());
    assert("tag_ids="@ =~= seq!['t', 'a', 'g', '_', 'i', 'd', 's', '=']);
    assert(tag_id_pairs_of(el) =~= seq![
        seq!['t', 'a', 'g', '_', 'i', 'd', 's', '='] + url_encoded(seq!['x']),
    ]);
}

/// The pairs of a query string follow a `?` and are separated by `&`: with
/// one pair it is `?p`, with two `?p&q`, and one more pair adds `&` and it.
pub proof fn lemma_query_string_separators(json: Seq<char>)
    ensures
        ({
            let pairs = object_query_pairs(json, true) + tag_id_pairs(json);
            &&& is_blank_object(json) ==> query_string(json).len() == 0
            &&& !is_blank_object(json) && pairs.len() == 0 ==> query_string(json).len() == 0
            &&& !is_blank_object(json) && pairs.len() == 1 ==> query_string(json) == seq!['?']
                + pairs[0]
            &&& !is_blank_object(json) && pairs.len() == 2 ==> query_string(json) == seq!['?']
                + pairs[0] + seq!['&'] + pairs[1]
        }),
{
    reveal_strlit("?");
    reveal_strlit("&");
    assert("?"@ =~= seq!['?']);
    assert("&"@ =~= seq!['&']);
    let pairs = object_query_pairs(json, true) + tag_id_pairs(json);
    if pairs.len() == 2 {
        assert(pairs.drop_last().len() == 1);
        assert(join(pairs.drop_last(), "&"@) == pairs[0]);
    }
}

/// Fields are separated by commas: a body without a comma is one field.
pub proof fn lemma_body_without_comma_is_one_field(json: Seq<char>, skip_arrays: bool)
    requires
        object_body(json).len() > 0,
        forall|j: int| 0 <= j < object_body(json).len() ==> object_body(json)[j] != ',',
    ensures
        object_query_pairs(json, skip_arrays) == (match field_query_pair(object_body(json), skip_arrays) {
            Some(p) => seq![p],
            None => Seq::<Seq<char>>::empty(),
        }),
{
    let b = object_body(json);
    crate::text::lemma_split_rejoins(b, ',');
    crate::text::lemma_split_nonempty(b, ',');
    let pieces = split(b, ',');
    if pieces.len() >= 2 {
        // a second piece means a comma sits between the first two
        assert(join(pieces, seq![',']) == join(pieces.drop_last(), seq![',']) + seq![',']
            + pieces.last());
        let k = join(pieces.drop_last(), seq![',']).len() as int;
        assert((join(pieces.drop_last(), seq![',']) + seq![','] + pieces.last())[k] == ',');
        assert(b[k] == ',');
    }
    assert(pieces.len() == 1);
    assert(join(pieces, seq![',']) == pieces[0]);
    assert(pieces[0] == b);
    assert(pieces.drop_last() =~= Seq::<Seq<char>>::empty());
    assert(pieces.last() == b);
    assert(fields_query_pairs(pieces.drop_last(), skip_arrays) =~= Seq::<Seq<char>>::empty());
    match field_query_pair(b, skip_arrays) {
        Some(p) => {
            assert(fields_query_pairs(pieces, skip_arrays) =~= seq![p]);
        },
        None => {
            assert(fields_query_pairs(pieces, skip_arrays) =~= Seq::<Seq<char>>::empty());
        },
    }
}

} // verus!
