use crate::autocomplete::jq_functions::matches_prefix;
use crate::autocomplete::state::{
    plain_suggestion, views_of, Suggestion, SuggestionType, SuggestionView,
};
use crate::text::{
    is_prefix, lemma_lex_irreflexive, lemma_lex_total, lemma_lex_transitive,
    lex_lt, lowercase_of, str_eq, str_lt, string_from_chars, to_chars, to_lowercase,
};
use serde_json::Value;
use vstd::prelude::*;
use vstd::slice::slice_subrange;

verus! {

#[verifier::external_type_specification]
#[verifier::external_body]
pub struct ExValue(serde_json::Value);

#[verifier::external_type_specification]
#[verifier::external_body]
pub struct ExJsonError(serde_json::Error);

/// The shape of a JSON document: what field suggestions depend on.
pub enum JsonTree {
    /// Null, a boolean, a number or a string.
    Scalar,
    /// The elements of an array, in order.
    Array(Seq<JsonTree>),
    /// The members of an object, by key.
    Object(Map<Seq<char>, JsonTree>),
}

/// The shape of a parsed value.
pub uninterp spec fn tree_of(v: serde_json::Value) -> JsonTree;

/// The shape of the document that a text is parsed to, `None` where the text
/// is no JSON document.
pub uninterp spec fn parsed_json(text: Seq<char>) -> Option<JsonTree>;

/// The views of a list of strings, in order.
pub open spec fn texts_of(list: Seq<String>) -> Seq<Seq<char>> {
    list.map_values(|s: String| s@)
}

/// Each text comes strictly before the next.
pub open spec fn strictly_sorted(list: Seq<Seq<char>>) -> bool {
    forall|i: int, j: int| 0 <= i < j < list.len() ==> lex_lt(#[trigger] list[i], #[trigger] list[j])
}

/// Calls `serde_json::from_str` for a `Value`: the text is a JSON document
/// exactly when a value comes back, and the value then has the document's
/// shape.
#[verifier::external_body]
fn parse_value(text: &str) -> (r: Result<Value, serde_json::Error>)
    ensures
        match r {
            Ok(v) => parsed_json(text@) == Some(tree_of(v)),
            Err(_) => parsed_json(text@) is None,
        },
{
    serde_json::from_str(text)
}

/// The message of a `serde_json::Error`, as its `Display` writes it.
#[verifier::external_body]
fn error_text(e: &serde_json::Error) -> String {
    e.to_string()
}

/// The keys of an object, through `Value::as_object` and `Map::keys`: each
/// key once, in the order in which the map hands them out; `None` for a value
/// that is no object.
#[verifier::external_body]
fn object_keys(v: &Value) -> (r: Option<Vec<String>>)
    ensures
        match r {
            Some(keys) => tree_of(*v) matches JsonTree::Object(m) && texts_of(
                keys@,
            ).no_duplicates() && (forall|k: Seq<char>|
                m.contains_key(k) <==> texts_of(keys@).contains(k)),
            None => !(tree_of(*v) is Object),
        },
{
    match v.as_object() {
        Some(m) => Some(m.keys().cloned().collect()),
        None => None,
    }
}

/// `Value::get` with a key: the member of an object under that key, `None`
/// where the value is no object or has no such member.
#[verifier::external_body]
fn member_of<'a>(v: &'a Value, key: &str) -> (r: Option<&'a Value>)
    ensures
        match r {
            Some(c) => tree_of(*v) matches JsonTree::Object(m) && m.contains_key(key@) && tree_of(
                *c,
            ) == m[key@],
            None => !(tree_of(*v) matches JsonTree::Object(m) && m.contains_key(key@)),
        },
{
    v.get(key)
}

/// `Value::get` with an index: the element of an array at that index, `None`
/// where the value is no array or is shorter.
#[verifier::external_body]
fn element_of<'a>(v: &'a Value, index: usize) -> (r: Option<&'a Value>)
    ensures
        match r {
            Some(c) => tree_of(*v) matches JsonTree::Array(e) && index < e.len() && tree_of(*c)
                == e[index as int],
            None => !(tree_of(*v) matches JsonTree::Array(e) && index < e.len()),
        },
{
    v.get(index)
}

/// `Value::as_array` and the array's `len`: the number of elements of an
/// array, `None` for a value that is no array.
#[verifier::external_body]
fn array_len(v: &Value) -> (r: Option<usize>)
    ensures
        match r {
            Some(n) => tree_of(*v) matches JsonTree::Array(e) && e.len() == n,
            None => !(tree_of(*v) is Array),
        },
{
    match v.as_array() {
        Some(a) => Some(a.len()),
        None => None,
    }
}

/// One step down a document: to a member of an object or to an element of
/// an array.
pub enum Step {
    Member(Seq<char>),
    Element(int),
}

/// The node that `steps` lead to from `t`.
pub open spec fn node_at(t: JsonTree, steps: Seq<Step>) -> Option<JsonTree>
    decreases steps.len(),
{
    if steps.len() == 0 {
        Some(t)
    } else {
        match (t, steps[0]) {
            (JsonTree::Object(m), Step::Member(f)) => if m.contains_key(f) {
                node_at(m[f], steps.drop_first())
            } else {
                None
            },
            (JsonTree::Array(e), Step::Element(i)) => if 0 <= i < e.len() {
                node_at(e[i], steps.drop_first())
            } else {
                None
            },
            _ => None,
        }
    }
}

/// Whether `steps` lead from `t` to an object with the key `k`.
pub open spec fn reaches_key(t: JsonTree, steps: Seq<Step>, k: Seq<char>) -> bool {
    node_at(t, steps) matches Some(JsonTree::Object(m)) && m.contains_key(k)
}

/// Whether `k` is a key of an object anywhere in `t`.
pub open spec fn tree_has_key(t: JsonTree, k: Seq<char>) -> bool {
    exists|steps: Seq<Step>| #[trigger] reaches_key(t, steps, k)
}

/// The index of the first `c` in `s`, or the length of `s` where it holds
/// none.
pub open spec fn first_index_of(s: Seq<char>, c: char) -> nat
    decreases s.len(),
{
    if s.len() == 0 || s[0] == c {
        0
    } else {
        1 + first_index_of(s.drop_first(), c)
    }
}

/// The first index of a character lies in the text or at its end, holds the
/// character where it lies in the text, and no earlier index does.
pub proof fn lemma_first_index_of(s: Seq<char>, c: char)
    ensures
        first_index_of(s, c) <= s.len(),
        first_index_of(s, c) < s.len() ==> s[first_index_of(s, c) as int] == c,
        forall|k: int| 0 <= k < first_index_of(s, c) ==> #[trigger] s[k] != c,
    decreases s.len(),
{
    if s.len() > 0 && s[0] != c {
        let t = s.drop_first();
        lemma_first_index_of(t, c);
        assert forall|k: int| 0 <= k < first_index_of(s, c) implies #[trigger] s[k] != c by {
            if k > 0 {
                assert(s[k] == t[k - 1]);
            }
        }
    }
}

/// One step of a path: the member named by `segment`, whose name ends before
/// its first `[`; and, where the segment holds a `[`, the first element of
/// the array found there.
pub open spec fn step_into(t: JsonTree, segment: Seq<char>) -> Option<JsonTree> {
    let bracket = first_index_of(segment, '[');
    let name = segment.take(bracket as int);
    match t {
        JsonTree::Object(m) => if m.contains_key(name) {
            if bracket < segment.len() {
                match m[name] {
                    JsonTree::Array(e) => if e.len() > 0 {
                        Some(e[0])
                    } else {
                        None
                    },
                    _ => None,
                }
            } else {
                Some(m[name])
            }
        } else {
            None
        },
        _ => None,
    }
}

/// The node that the segments of `path` lead to from `t`; the segments are
/// parted by dots, and empty ones are passed over.
pub open spec fn walk(t: JsonTree, path: Seq<char>) -> Option<JsonTree>
    decreases path.len(),
{
    if path.len() == 0 {
        Some(t)
    } else {
        let end = first_index_of(path, '.');
        let segment = path.take(end as int);
        let rest = if end < path.len() {
            path.skip(end as int + 1)
        } else {
            Seq::<char>::empty()
        };
        if end > path.len() {
            None
        } else if segment.len() == 0 {
            walk(t, rest)
        } else {
            match step_into(t, segment) {
                Some(child) => walk(child, rest),
                None => None,
            }
        }
    }
}

/// The node at `path`, which may begin with a dot.
pub open spec fn resolve(t: JsonTree, path: Seq<char>) -> Option<JsonTree> {
    if path.len() > 0 && path[0] == '.' {
        walk(t, path.skip(1))
    } else {
        walk(t, path)
    }
}

/// The keys that a node offers: those of an object, those that the first
/// element of an array offers, none otherwise.
pub open spec fn offered_keys(t: JsonTree) -> Set<Seq<char>>
    decreases t,
{
    match t {
        JsonTree::Object(m) => m.dom(),
        JsonTree::Array(e) => if e.len() > 0 {
            offered_keys(e[0])
        } else {
            Set::<Seq<char>>::empty()
        },
        JsonTree::Scalar => Set::<Seq<char>>::empty(),
    }
}

/// A key as it is suggested: behind a dot.
pub open spec fn rendered(key: Seq<char>) -> Seq<char> {
    seq!['.'] + key
}

/// Whether a key is offered for `prefix`: always for the empty prefix, else
/// where its lower-case form begins with that of the prefix.
pub open spec fn field_matches(key: Seq<char>, prefix: Seq<char>) -> bool {
    prefix.len() == 0 || matches_prefix(key, prefix)
}

/// `list` is the listing of the keys of `keys` that match `prefix`: one
/// field suggestion for each, rendered behind a dot, in the strict order of
/// their texts.
pub open spec fn is_field_listing(
    list: Seq<SuggestionView>,
    keys: Set<Seq<char>>,
    prefix: Seq<char>,
) -> bool {
    &&& forall|i: int|
        0 <= i < list.len() ==> {
            let e = #[trigger] list[i];
            &&& e.text.len() > 0
            &&& e == plain_suggestion(rendered(e.text.skip(1)), SuggestionType::Field)
            &&& keys.contains(e.text.skip(1))
            &&& field_matches(e.text.skip(1), prefix)
        }
    &&& forall|k: Seq<char>|
        keys.contains(k) && field_matches(k, prefix) ==> list.contains(
            plain_suggestion(#[trigger] rendered(k), SuggestionType::Field),
        )
    &&& forall|i: int, j: int|
        0 <= i < j < list.len() ==> lex_lt((#[trigger] list[i]).text, (#[trigger] list[j]).text)
}

/// The keys that are offered at `path` of a document: those of the root for
/// the empty path and for a lone dot, those of the node that the path
/// resolves to otherwise, none where there is no document or no such node.
pub open spec fn keys_at(document: Option<JsonTree>, path: Seq<char>) -> Set<Seq<char>> {
    match document {
        None => Set::<Seq<char>>::empty(),
        Some(t) => if path.len() == 0 || path == seq!['.'] {
            offered_keys(t)
        } else {
            match resolve(t, path) {
                Some(node) => offered_keys(node),
                None => Set::<Seq<char>>::empty(),
            }
        },
    }
}

/// Puts `item` into a strictly sorted list, unless the list holds it.
pub(crate) fn insert_sorted(list: &mut Vec<String>, item: String)
    requires
        strictly_sorted(texts_of(old(list)@)),
    ensures
        strictly_sorted(texts_of(final(list)@)),
        forall|k: Seq<char>| #[trigger]
            texts_of(final(list)@).contains(k) <==> (texts_of(old(list)@).contains(k) || k
                == item@),
{
    let ghost before = texts_of(list@);
    let mut p: usize = 0;
    while p < list.len() && str_lt(list[p].as_str(), item.as_str())
        invariant
            p <= list.len(),
            before == texts_of(list@),
            forall|i: int| 0 <= i < p ==> lex_lt(#[trigger] before[i], item@),
        decreases list.len() - p,
    {
        p = p + 1;
    }
    if p < list.len() && str_eq(list[p].as_str(), item.as_str()) {
        assert(before[p as int] == item@);
        assert(before.contains(item@));
        return ;
    }
    list.insert(p, item);
    let ghost after = texts_of(list@);
    proof {
        assert(after =~= before.insert(p as int, item@));
        if p < before.len() {
            lemma_lex_total(before[p as int], item@);
        }
        assert forall|i: int, j: int| 0 <= i < j < after.len() implies lex_lt(
            #[trigger] after[i],
            #[trigger] after[j],
        ) by {
            if j == p {
            } else if i == p {
                if j - 1 > p {
                    lemma_lex_transitive(item@, before[p as int], before[j - 1]);
                }
            } else if i < p && j > p {
                assert(lex_lt(before[i], before[j - 1]));
            } else if i < p {
                assert(lex_lt(before[i], before[j]));
            } else {
                assert(lex_lt(before[i - 1], before[j - 1]));
            }
        }
        assert forall|k: Seq<char>| after.contains(k) <==> (before.contains(k) || k
            == item@) by {
            if after.contains(k) {
                let i = choose|i: int| 0 <= i < after.len() && after[i] == k;
                if i < p {
                    assert(before[i] == k);
                } else if i > p {
                    assert(before[i - 1] == k);
                }
            }
            if before.contains(k) {
                let i = choose|i: int| 0 <= i < before.len() && before[i] == k;
                if i < p {
                    assert(after[i] == k);
                } else {
                    assert(after[i + 1] == k);
                }
            }
            if k == item@ {
                assert(after[p as int] == k);
            }
        }
    }
}

/// Finds the fields that a JSON document holds and suggests them by path.
pub struct JsonAnalyzer {
    field_names: Vec<String>,
    root_value: Option<Value>,
}

impl JsonAnalyzer {
    /// The shape of the document held, `None` before the first document.
    pub closed spec fn document(&self) -> Option<JsonTree> {
        match self.root_value {
            Some(v) => Some(tree_of(v)),
            None => None,
        }
    }

    /// The field names held, in order.
    pub closed spec fn names(&self) -> Seq<Seq<char>> {
        texts_of(self.field_names@)
    }

    /// The names held are those of the document, each once, in strict order.
    pub open spec fn wf(&self) -> bool {
        &&& strictly_sorted(self.names())
        &&& forall|k: Seq<char>|
            self.names().contains(k) <==> (self.document() matches Some(t) && tree_has_key(t, k))
    }

    #[verifier::type_invariant]
    spec fn inv(&self) -> bool {
        self.wf()
    }

    /// An analyzer without a document.
    pub fn new() -> (a: JsonAnalyzer)
        ensures
            a.wf(),
            a.document() is None,
            a.names().len() == 0,
    {
        let a = JsonAnalyzer { field_names: Vec::new(), root_value: None };
        assert(texts_of(a.field_names@) =~= Seq::<Seq<char>>::empty());
        a
    }

    /// Parses `json` and takes it as the document. A text that is no JSON
    /// document is refused, and what was held before stays.
    pub fn analyze(&mut self, json: &str) -> (r: Result<(), String>)
        ensures
            final(self).wf(),
            match r {
                Ok(_) => parsed_json(json@) is Some && final(self).document() == parsed_json(
                    json@,
                ),
                Err(message) => parsed_json(json@) is None && *final(self) == *old(self)
                    && "Failed to parse JSON: "@.is_prefix_of(message@),
            },
    {
        proof {
            use_type_invariant(&*self);
        }
        match parse_value(json) {
            Ok(value) => {
                let mut names: Vec<String> = Vec::new();
                assert(texts_of(names@) =~= Seq::<Seq<char>>::empty());
                collect_fields(&value, &mut names);
                *self = JsonAnalyzer { field_names: names, root_value: Some(value) };
                Ok(())
            },
            Err(e) => {
                let message = String::from_str("Failed to parse JSON: ").concat(
                    error_text(&e).as_str(),
                );
                Err(message)
            },
        }
    }

    /// The suggestions for the fields at `path` that match `prefix`, sorted
    /// by their text; none where the path leads nowhere.
    pub fn get_contextual_field_suggestions(&self, path: &str, prefix: &str) -> (list: Vec<
        Suggestion,
    >)
        ensures
            is_field_listing(views_of(list@), keys_at(self.document(), path@), prefix@),
    {
        let chars = to_chars(path);
        if chars.len() == 0 || (chars.len() == 1 && chars[0] == '.') {
            if chars.len() == 1 {
                assert(path@ =~= seq!['.']);
            }
            return self.get_top_level_fields(prefix);
        }
        assert(path@ != seq!['.']) by {
            if path@ == seq!['.'] {
                assert(path@.len() == 1);
            }
        }
        match self.get_value_at_path(path) {
            Some(value) => extract_fields_from_value(value, prefix),
            None => {
                let list: Vec<Suggestion> = Vec::new();
                assert(views_of(list@) =~= Seq::<SuggestionView>::empty());
                list
            },
        }
    }

    /// The suggestions for the fields of the root.
    pub fn get_top_level_fields(&self, prefix: &str) -> (list: Vec<Suggestion>)
        ensures
            is_field_listing(
                views_of(list@),
                match self.document() {
                    Some(t) => offered_keys(t),
                    None => Set::<Seq<char>>::empty(),
                },
                prefix@,
            ),
    {
        match &self.root_value {
            Some(root) => extract_fields_from_value(root, prefix),
            None => {
                let list: Vec<Suggestion> = Vec::new();
                assert(views_of(list@) =~= Seq::<SuggestionView>::empty());
                list
            },
        }
    }

    /// The value that `path` leads to from the root.
    pub fn get_value_at_path(&self, path: &str) -> (r: Option<&Value>)
        ensures
            match r {
                Some(v) => self.document() matches Some(t) && resolve(t, path@) == Some(
                    tree_of(*v),
                ),
                None => !(self.document() matches Some(t) && resolve(t, path@) is Some),
            },
    {
        let root = match &self.root_value {
            Some(root) => root,
            None => {
                return None;
            },
        };
        let chars = to_chars(path);
        let start: usize = if chars.len() > 0 && chars[0] == '.' {
            1
        } else {
            0
        };
        assert(chars@.skip(0) =~= chars@);
        walk_value(root, &chars, start)
    }

    /// All the field names of the document, at any depth, each once, sorted.
    pub fn get_all_fields(&self) -> (fields: Vec<String>)
        ensures
            self.wf(),
            texts_of(fields@) == self.names(),
    {
        proof {
            use_type_invariant(self);
        }
        let mut fields: Vec<String> = Vec::new();
        let mut i: usize = 0;
        while i < self.field_names.len()
            invariant
                i <= self.field_names.len(),
                texts_of(fields@) == texts_of(self.field_names@).take(i as int),
            decreases self.field_names.len() - i,
        {
            let ghost before = fields@;
            fields.push(self.field_names[i].clone());
            assert(texts_of(fields@) =~= texts_of(before).push(self.field_names@[i as int]@));
            assert(texts_of(self.field_names@).take(i + 1) =~= texts_of(self.field_names@).take(
                i as int,
            ).push(self.field_names@[i as int]@));
            i = i + 1;
        }
        assert(texts_of(self.field_names@).take(i as int) =~= texts_of(self.field_names@));
        fields
    }
}

impl Default for JsonAnalyzer {
    fn default() -> (a: JsonAnalyzer)
        ensures
            a.wf(),
            a.document() is None,
            a.names().len() == 0,
    {
        JsonAnalyzer::new()
    }
}

/// Follows the segments of `chars[from..]` from `root`.
pub(crate) fn walk_value<'a>(root: &'a Value, chars: &Vec<char>, from: usize) -> (r: Option<&'a Value>)
    requires
        from <= chars.len(),
    ensures
        match r {
            Some(v) => walk(tree_of(*root), chars@.skip(from as int)) == Some(tree_of(*v)),
            None => walk(tree_of(*root), chars@.skip(from as int)) is None,
        },
{
    let mut current: &Value = root;
    let mut pos: usize = from;
    while pos < chars.len()
        invariant
            from <= pos <= chars.len(),
            walk(tree_of(*root), chars@.skip(from as int)) == walk(
                tree_of(*current),
                chars@.skip(pos as int),
            ),
        decreases chars.len() - pos,
    {
        let ghost path = chars@.skip(pos as int);
        assert(path.skip(0) =~= path);
        // the segment ends before the next dot
        let mut end: usize = pos;
        let mut bracket: usize = chars.len();
        while end < chars.len() && chars[end] != '.'
            invariant
                pos <= end <= chars.len(),
                bracket <= chars.len(),
                path == chars@.skip(pos as int),
                first_index_of(path, '.') == (end - pos) + first_index_of(
                    path.skip(end - pos),
                    '.',
                ),
                bracket == chars.len() ==> forall|k: int| pos <= k < end ==> chars@[k] != '[',
                bracket < chars.len() ==> pos <= bracket < end && chars@[bracket as int] == '['
                    && forall|k: int| pos <= k < bracket ==> chars@[k] != '[',
            decreases chars.len() - end,
        {
            if bracket == chars.len() && chars[end] == '[' {
                bracket = end;
            }
            assert(path.skip(end - pos)[0] == chars@[end as int]);
            assert(path.skip(end - pos).drop_first() =~= path.skip(end - pos + 1));
            end = end + 1;
        }
        proof {
            if end < chars.len() {
                assert(path.skip(end - pos)[0] == chars@[end as int]);
            }
            assert(first_index_of(path, '.') == end - pos);
        }
        let ghost segment = path.take(end - pos);
        let ghost rest = if end - pos < path.len() {
            path.skip(end - pos + 1)
        } else {
            Seq::<char>::empty()
        };
        let next: usize = if end < chars.len() {
            end + 1
        } else {
            end
        };
        assert(rest =~= chars@.skip(next as int));
        if end > pos {
            let name_end = if bracket < chars.len() {
                bracket
            } else {
                end
            };
            proof {
                lemma_first_index_of(segment, '[');
                let b = first_index_of(segment, '[');
                if bracket < chars.len() {
                    assert(segment[bracket - pos] == '[');
                    if b < bracket - pos {
                        assert(segment[b as int] == chars@[pos + b]);
                    }
                    assert(b == bracket - pos);
                } else {
                    if b < segment.len() {
                        assert(segment[b as int] == chars@[pos + b]);
                    }
                    assert(b == segment.len());
                }
                assert(segment.take(b as int) =~= chars@.subrange(pos as int, name_end as int));
            }
            let name = string_from_chars(slice_subrange(chars.as_slice(), pos, name_end));
            let member = match member_of(current, name.as_str()) {
                Some(member) => member,
                None => {
                    return None;
                },
            };
            if bracket < chars.len() {
                current =
                match element_of(member, 0) {
                    Some(first) => first,
                    None => {
                        return None;
                    },
                };
            } else {
                current = member;
            }
        }
        pos = next;
    }
    assert(chars@.skip(pos as int).len() == 0);
    Some(current)
}

/// The suggestions for the fields that `value` offers and that match
/// `prefix`, sorted by their text.
pub fn extract_fields_from_value(value: &Value, prefix: &str) -> (list: Vec<Suggestion>)
    ensures
        is_field_listing(views_of(list@), offered_keys(tree_of(*value)), prefix@),
    decreases tree_of(*value),
{
    match object_keys(value) {
        Some(keys) => list_fields(&keys, prefix, Ghost(offered_keys(tree_of(*value)))),
        None => {
            match element_of(value, 0) {
                Some(first) => extract_fields_from_value(first, prefix),
                None => {
                    let list: Vec<Suggestion> = Vec::new();
                    assert(views_of(list@) =~= Seq::<SuggestionView>::empty());
                    list
                },
            }
        },
    }
}

/// The listing of `keys` for `prefix`.
fn list_fields(keys: &Vec<String>, prefix: &str, Ghost(offered): Ghost<Set<Seq<char>>>) -> (list:
    Vec<Suggestion>)
    requires
        forall|k: Seq<char>| offered.contains(k) <==> texts_of(keys@).contains(k),
    ensures
        is_field_listing(views_of(list@), offered, prefix@),
{
    let any = prefix.unicode_len() == 0;
    let wanted = to_chars(to_lowercase(prefix).as_str());
    let mut texts: Vec<String> = Vec::new();
    let mut i: usize = 0;
    assert(texts_of(texts@) =~= Seq::<Seq<char>>::empty());
    while i < keys.len()
        invariant
            i <= keys.len(),
            any == (prefix@.len() == 0),
            wanted@ == lowercase_of(prefix@),
            strictly_sorted(texts_of(texts@)),
            forall|t: Seq<char>|
                texts_of(texts@).contains(t) <==> exists|j: int|
                    0 <= j < i && field_matches(#[trigger] keys@[j]@, prefix@) && t == rendered(
                        keys@[j]@,
                    ),
        decreases keys.len() - i,
    {
        let key = &keys[i];
        let ghost before = texts_of(texts@);
        let take = any || is_prefix(&wanted, &to_chars(to_lowercase(key.as_str()).as_str()));
        if take {
            let text = String::from_str(".").concat(key.as_str());
            proof {
                reveal_strlit(".");
                assert("."@ =~= seq!['.']);
                assert(text@ =~= rendered(key@));
            }
            insert_sorted(&mut texts, text);
        }
        proof {
            let after = texts_of(texts@);
            assert forall|t: Seq<char>| after.contains(t) <==> exists|j: int|
                0 <= j < i + 1 && field_matches(#[trigger] keys@[j]@, prefix@) && t == rendered(
                    keys@[j]@,
                ) by {
                if after.contains(t) {
                    if before.contains(t) {
                        let j = choose|j: int|
                            0 <= j < i && field_matches(#[trigger] keys@[j]@, prefix@) && t
                                == rendered(keys@[j]@);
                        assert(0 <= j < i + 1 && field_matches(keys@[j]@, prefix@));
                    } else {
                        assert(field_matches(keys@[i as int]@, prefix@) && t == rendered(
                            keys@[i as int]@,
                        ));
                    }
                }
                if exists|j: int|
                    0 <= j < i + 1 && field_matches(#[trigger] keys@[j]@, prefix@) && t
                        == rendered(keys@[j]@) {
                    let j = choose|j: int|
                        0 <= j < i + 1 && field_matches(#[trigger] keys@[j]@, prefix@) && t
                            == rendered(keys@[j]@);
                    if j < i {
                        assert(before.contains(t));
                    }
                }
            }
        }
        i = i + 1;
    }
    let mut list: Vec<Suggestion> = Vec::new();
    let mut n: usize = 0;
    assert(views_of(list@) =~= Seq::<SuggestionView>::empty());
    while n < texts.len()
        invariant
            n <= texts.len(),
            list@.len() == n,
            forall|k: int|
                0 <= k < n ==> (#[trigger] list@[k])@ == plain_suggestion(
                    texts@[k]@,
                    SuggestionType::Field,
                ),
        decreases texts.len() - n,
    {
        list.push(Suggestion::new(texts[n].as_str(), SuggestionType::Field));
        n = n + 1;
    }
    proof {
        let views = views_of(list@);
        let sorted = texts_of(texts@);
        assert forall|k: int| 0 <= k < views.len() implies {
            let e = #[trigger] views[k];
            &&& e.text.len() > 0
            &&& e == plain_suggestion(rendered(e.text.skip(1)), SuggestionType::Field)
            &&& offered.contains(e.text.skip(1))
            &&& field_matches(e.text.skip(1), prefix@)
        } by {
            let e = views[k];
            assert(e == list@[k]@);
            assert(sorted[k] == e.text);
            assert(sorted.contains(e.text));
            let j = choose|j: int|
                0 <= j < i && field_matches(#[trigger] keys@[j]@, prefix@) && e.text == rendered(
                    keys@[j]@,
                );
            assert(e.text.skip(1) =~= keys@[j]@);
            assert(texts_of(keys@)[j] == keys@[j]@);
            assert(texts_of(keys@).contains(keys@[j]@));
        }
        assert forall|k: Seq<char>| offered.contains(k) && field_matches(k, prefix@) implies (
        views.contains(plain_suggestion(#[trigger] rendered(k), SuggestionType::Field))) by {
            assert(texts_of(keys@).contains(k));
            let j = choose|j: int| 0 <= j < keys@.len() && texts_of(keys@)[j] == k;
            assert(field_matches(keys@[j]@, prefix@));
            assert(sorted.contains(rendered(k)));
            let p = choose|p: int| 0 <= p < sorted.len() && sorted[p] == rendered(k);
            assert(views[p] == list@[p]@);
        }
        assert forall|a: int, b: int| 0 <= a < b < views.len() implies lex_lt(
            (#[trigger] views[a]).text,
            (#[trigger] views[b]).text,
        ) by {
            assert(views[a] == list@[a]@);
            assert(views[b] == list@[b]@);
            assert(lex_lt(sorted[a], sorted[b]));
        }
    }
    list
}

/// The keys of a tree are those of its root and those of the trees below
/// it.
pub proof fn lemma_tree_has_key(t: JsonTree, k: Seq<char>)
    ensures
        t matches JsonTree::Object(m) ==> (tree_has_key(t, k) <==> (m.contains_key(k)
            || exists|f: Seq<char>| m.contains_key(f) && #[trigger] tree_has_key(m[f], k))),
        t matches JsonTree::Array(e) ==> (tree_has_key(t, k) <==> exists|i: int|
            0 <= i < e.len() && #[trigger] tree_has_key(e[i], k)),
        t is Scalar ==> !tree_has_key(t, k),
{
    if tree_has_key(t, k) {
        let steps = choose|steps: Seq<Step>| #[trigger] reaches_key(t, steps, k);
        if steps.len() > 0 {
            match (t, steps[0]) {
                (JsonTree::Object(m), Step::Member(f)) => {
                    assert(reaches_key(m[f], steps.drop_first(), k));
                    assert(tree_has_key(m[f], k));
                },
                (JsonTree::Array(e), Step::Element(i)) => {
                    assert(reaches_key(e[i], steps.drop_first(), k));
                    assert(tree_has_key(e[i], k));
                },
                _ => {},
            }
        }
    }
    match t {
        JsonTree::Object(m) => {
            if m.contains_key(k) {
                assert(reaches_key(t, Seq::<Step>::empty(), k));
            }
            if exists|f: Seq<char>| m.contains_key(f) && #[trigger] tree_has_key(m[f], k) {
                let f = choose|f: Seq<char>| m.contains_key(f) && #[trigger] tree_has_key(m[f], k);
                let below = choose|steps: Seq<Step>| #[trigger] reaches_key(m[f], steps, k);
                let steps = seq![Step::Member(f)] + below;
                assert(steps.drop_first() =~= below);
                assert(reaches_key(t, steps, k));
            }
        },
        JsonTree::Array(e) => {
            if exists|i: int| 0 <= i < e.len() && #[trigger] tree_has_key(e[i], k) {
                let i = choose|i: int| 0 <= i < e.len() && #[trigger] tree_has_key(e[i], k);
                let below = choose|steps: Seq<Step>| #[trigger] reaches_key(e[i], steps, k);
                let steps = seq![Step::Element(i)] + below;
                assert(steps.drop_first() =~= below);
                assert(reaches_key(t, steps, k));
            }
        },
        JsonTree::Scalar => {},
    }
}

/// Whether `k` is the key `key` or a key somewhere below the member under
/// `key`.
pub open spec fn member_reaches(
    members: Map<Seq<char>, JsonTree>,
    key: Seq<char>,
    k: Seq<char>,
) -> bool {
    k == key || tree_has_key(members[key], k)
}

/// Puts the keys of every object in `value` into `names`.
pub(crate) fn collect_fields(value: &Value, names: &mut Vec<String>)
    requires
        strictly_sorted(texts_of(old(names)@)),
    ensures
        strictly_sorted(texts_of(final(names)@)),
        forall|k: Seq<char>| #[trigger]
            texts_of(final(names)@).contains(k) <==> (texts_of(old(names)@).contains(k)
                || tree_has_key(tree_of(*value), k)),
    decreases tree_of(*value),
{
    let ghost start = texts_of(names@);
    let ghost tree = tree_of(*value);
    match object_keys(value) {
        Some(keys) => {
            let ghost members = tree->Object_0;
            let mut i: usize = 0;
            while i < keys.len()
                invariant
                    i <= keys.len(),
                    tree == tree_of(*value),
                    tree == JsonTree::Object(members),
                    forall|k: Seq<char>|
                        members.contains_key(k) <==> texts_of(keys@).contains(k),
                    strictly_sorted(texts_of(names@)),
                    forall|k: Seq<char>| #[trigger]
                        texts_of(names@).contains(k) <==> (start.contains(k) || exists|j: int|
                            0 <= j < i && #[trigger] member_reaches(members, keys@[j]@, k)),
                decreases keys.len() - i,
            {
                let ghost before = texts_of(names@);
                let key = &keys[i];
                assert(texts_of(keys@)[i as int] == key@);
                assert(texts_of(keys@).contains(key@));
                insert_sorted(names, key.clone());
                let ghost middle = texts_of(names@);
                match member_of(value, key.as_str()) {
                    Some(member) => {
                        collect_fields(member, names);
                    },
                    None => {},
                }
                proof {
                    let after = texts_of(names@);
                    assert forall|k: Seq<char>| #[trigger]
                        after.contains(k) <==> (start.contains(k) || exists|j: int|
                            0 <= j < i + 1 && #[trigger] member_reaches(
                                members,
                                keys@[j]@,
                                k,
                            )) by {
                        assert(after.contains(k) <==> (middle.contains(k) || tree_has_key(
                            members[key@],
                            k,
                        )));
                        assert(middle.contains(k) <==> (before.contains(k) || k == key@));
                        if after.contains(k) && !start.contains(k) {
                            if before.contains(k) {
                                let j = choose|j: int|
                                    0 <= j < i && #[trigger] member_reaches(
                                        members,
                                        keys@[j]@,
                                        k,
                                    );
                                assert(0 <= j < i + 1 && member_reaches(members, keys@[j]@, k));
                            } else {
                                assert(member_reaches(members, keys@[i as int]@, k));
                            }
                        }
                        if exists|j: int|
                            0 <= j < i + 1 && #[trigger] member_reaches(members, keys@[j]@, k) {
                            let j = choose|j: int|
                                0 <= j < i + 1 && #[trigger] member_reaches(
                                    members,
                                    keys@[j]@,
                                    k,
                                );
                            if j < i {
                                assert(before.contains(k));
                            }
                        }
                    }
                }
                i = i + 1;
            }
            proof {
                let after = texts_of(names@);
                assert forall|k: Seq<char>| #[trigger]
                    after.contains(k) <==> (start.contains(k) || tree_has_key(tree, k)) by {
                    if after.contains(k) && !start.contains(k) {
                        let j = choose|j: int|
                            0 <= j < i && #[trigger] member_reaches(members, keys@[j]@, k);
                        assert(texts_of(keys@)[j] == keys@[j]@);
                        assert(texts_of(keys@).contains(keys@[j]@));
                        assert(members.contains_key(keys@[j]@));
                        if k != keys@[j]@ {
                            assert(tree_has_key(members[keys@[j]@], k));
                        }
                    }
                    lemma_tree_has_key(tree, k);
                    if tree_has_key(tree, k) {
                        if members.contains_key(k) {
                            assert(texts_of(keys@).contains(k));
                            let j = choose|j: int| 0 <= j < keys@.len() && texts_of(keys@)[j] == k;
                            assert(member_reaches(members, keys@[j]@, k));
                        } else {
                            let f = choose|f: Seq<char>|
                                members.contains_key(f) && #[trigger] tree_has_key(members[f], k);
                            assert(texts_of(keys@).contains(f));
                            let j = choose|j: int| 0 <= j < keys@.len() && texts_of(keys@)[j] == f;
                            assert(member_reaches(members, keys@[j]@, k));
                        }
                    }
                }
            }
        },
        None => {
            match array_len(value) {
                Some(n) => {
                    let ghost e = tree->Array_0;
                    let mut i: usize = 0;
                    while i < n
                        invariant
                            i <= n,
                            n == e.len(),
                            tree == tree_of(*value),
                            tree == JsonTree::Array(e),
                            strictly_sorted(texts_of(names@)),
                            forall|k: Seq<char>| #[trigger]
                                texts_of(names@).contains(k) <==> (start.contains(k)
                                    || exists|j: int|
                                    0 <= j < i && #[trigger] tree_has_key(e[j], k)),
                        decreases n - i,
                    {
                        let ghost before = texts_of(names@);
                        match element_of(value, i) {
                            Some(element) => {
                                collect_fields(element, names);
                            },
                            None => {},
                        }
                        proof {
                            let after = texts_of(names@);
                            assert forall|k: Seq<char>| #[trigger]
                                after.contains(k) <==> (start.contains(k) || exists|j: int|
                                    0 <= j < i + 1 && #[trigger] tree_has_key(e[j], k)) by {
                                assert(after.contains(k) <==> (before.contains(k) || tree_has_key(
                                    e[i as int],
                                    k,
                                )));
                                if after.contains(k) && !start.contains(k) {
                                    if before.contains(k) {
                                        let j = choose|j: int|
                                            0 <= j < i && #[trigger] tree_has_key(e[j], k);
                                        assert(0 <= j < i + 1 && tree_has_key(e[j], k));
                                    }
                                }
                                if exists|j: int|
                                    0 <= j < i + 1 && #[trigger] tree_has_key(e[j], k) {
                                    let j = choose|j: int|
                                        0 <= j < i + 1 && #[trigger] tree_has_key(e[j], k);
                                    if j < i {
                                        assert(before.contains(k));
                                    }
                                }
                            }
                        }
                        i = i + 1;
                    }
                },
                None => {},
            }
            proof {
                assert forall|k: Seq<char>| #[trigger]
                    texts_of(names@).contains(k) <==> (start.contains(k) || tree_has_key(
                        tree,
                        k,
                    )) by {
                    lemma_tree_has_key(tree, k);
                }
            }
        },
    }
}

/// The texts of a listing, in order.
pub open spec fn listing_texts(list: Seq<SuggestionView>) -> Seq<Seq<char>> {
    list.map_values(|e: SuggestionView| e.text)
}

/// Two strictly sorted lists that hold the same texts are the same list.
pub proof fn lemma_sorted_lists_equal(a: Seq<Seq<char>>, b: Seq<Seq<char>>)
    requires
        strictly_sorted(a),
        strictly_sorted(b),
        forall|t: Seq<char>| a.contains(t) <==> b.contains(t),
    ensures
        a == b,
    decreases a.len(),
{
    if a.len() == 0 {
        if b.len() > 0 {
            assert(b.contains(b[0]));
        }
        assert(a =~= b);
    } else {
        let x = a.last();
        assert(a.contains(x));
        if b.len() == 0 {
            assert(!b.contains(x));
        }
        let y = b.last();
        assert(b.contains(y));
        let i = choose|i: int| 0 <= i < b.len() && b[i] == x;
        let j = choose|j: int| 0 <= j < a.len() && a[j] == y;
        lemma_lex_total(x, y);
        if x != y {
            // x lies before the end of b, and y before the end of a
            assert(lex_lt(b[i], b[b.len() - 1]));
            assert(lex_lt(a[j], a[a.len() - 1]));
        }
        let a0 = a.drop_last();
        let b0 = b.drop_last();
        assert forall|t: Seq<char>| a0.contains(t) <==> b0.contains(t) by {
            if a0.contains(t) {
                let k = choose|k: int| 0 <= k < a0.len() && a0[k] == t;
                assert(a[k] == t);
                assert(lex_lt(a[k], a[a.len() - 1]));
                lemma_lex_irreflexive(x);
                assert(a.contains(t));
                let m = choose|m: int| 0 <= m < b.len() && b[m] == t;
                assert(m < b.len() - 1);
                assert(b0[m] == t);
            }
            if b0.contains(t) {
                let k = choose|k: int| 0 <= k < b0.len() && b0[k] == t;
                assert(b[k] == t);
                assert(lex_lt(b[k], b[b.len() - 1]));
                lemma_lex_irreflexive(y);
                assert(b.contains(t));
                let m = choose|m: int| 0 <= m < a.len() && a[m] == t;
                assert(m < a.len() - 1);
                assert(a0[m] == t);
            }
        }
        assert(strictly_sorted(a0)) by {
            assert forall|p: int, q: int| 0 <= p < q < a0.len() implies lex_lt(
                #[trigger] a0[p],
                #[trigger] a0[q],
            ) by {
                assert(lex_lt(a[p], a[q]));
            }
        }
        assert(strictly_sorted(b0)) by {
            assert forall|p: int, q: int| 0 <= p < q < b0.len() implies lex_lt(
                #[trigger] b0[p],
                #[trigger] b0[q],
            ) by {
                assert(lex_lt(b[p], b[q]));
            }
        }
        lemma_sorted_lists_equal(a0, b0);
        assert(a =~= a0.push(x));
        assert(b =~= b0.push(y));
    }
}

/// The keys and the prefix determine the listing: two listings of the same
/// keys for the same prefix are equal.
pub proof fn lemma_field_listing_unique(
    a: Seq<SuggestionView>,
    b: Seq<SuggestionView>,
    keys: Set<Seq<char>>,
    prefix: Seq<char>,
)
    requires
        is_field_listing(a, keys, prefix),
        is_field_listing(b, keys, prefix),
    ensures
        a == b,
{
    let ta = listing_texts(a);
    let tb = listing_texts(b);
    lemma_listing_texts(a, b, keys, prefix);
    lemma_listing_texts(b, a, keys, prefix);
    assert(strictly_sorted(ta)) by {
        assert forall|p: int, q: int| 0 <= p < q < ta.len() implies lex_lt(
            #[trigger] ta[p],
            #[trigger] ta[q],
        ) by {
            assert(lex_lt(a[p].text, a[q].text));
        }
    }
    assert(strictly_sorted(tb)) by {
        assert forall|p: int, q: int| 0 <= p < q < tb.len() implies lex_lt(
            #[trigger] tb[p],
            #[trigger] tb[q],
        ) by {
            assert(lex_lt(b[p].text, b[q].text));
        }
    }
    lemma_sorted_lists_equal(ta, tb);
    assert(a.len() == b.len());
    assert forall|i: int| 0 <= i < a.len() implies a[i] == b[i] by {
        assert(ta[i] == tb[i]);
        let x = a[i];
        let y = b[i];
        assert(x.text == y.text);
    }
    assert(a =~= b);
}

/// Every text of one listing is a text of any other listing of the same
/// keys for the same prefix.
proof fn lemma_listing_texts(
    a: Seq<SuggestionView>,
    b: Seq<SuggestionView>,
    keys: Set<Seq<char>>,
    prefix: Seq<char>,
)
    requires
        is_field_listing(a, keys, prefix),
        is_field_listing(b, keys, prefix),
    ensures
        forall|t: Seq<char>| #[trigger]
            listing_texts(a).contains(t) ==> listing_texts(b).contains(t),
{
    let ta = listing_texts(a);
    let tb = listing_texts(b);
    assert forall|t: Seq<char>| ta.contains(t) implies tb.contains(t) by {
        let i = choose|i: int| 0 <= i < ta.len() && ta[i] == t;
        let e = a[i];
        let k = e.text.skip(1);
        assert(keys.contains(k) && field_matches(k, prefix));
        let wanted = plain_suggestion(rendered(k), SuggestionType::Field);
        assert(e == wanted);
        assert(b.contains(wanted));
        let j = choose|j: int| 0 <= j < b.len() && b[j] == wanted;
        assert(tb[j] == t);
    }
}

} // verus!
