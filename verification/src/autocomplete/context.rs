use crate::text::{
    is_whitespace, is_whitespace_char, last_index_of, leading_space, lemma_last_index_of,
    rfind_char, string_from_chars, to_chars, trim_end_index, trimmed, trimmed_end,
};
use crate::autocomplete::jq_functions::{builtins_for, filter_builtins};
use crate::autocomplete::json_analyzer::{is_field_listing, keys_at, JsonAnalyzer, JsonTree};
use crate::autocomplete::state::{views_of, Suggestion, SuggestionView};
use vstd::prelude::*;
use vstd::slice::{slice_subrange, slice_to_vec};

verus! {

/// What the text before the cursor calls for.
#[derive(Debug, Clone, Copy, PartialEq, Eq, Structural)]
pub enum SuggestionContext {
    /// At the start, or after a pipe or an operator: functions and patterns.
    FunctionContext,
    /// After a dot: field names.
    FieldContext,
}

/// Characters that end a token when a query is scanned backwards.
pub open spec fn is_delimiter_char(ch: char) -> bool {
    ch == '|' || ch == ';' || ch == '(' || ch == ')' || ch == '[' || ch == ']' || ch == '{'
        || ch == '}' || ch == ',' || ch == ' ' || ch == '\t' || ch == '\n' || ch == '\r'
}

/// Characters after which a path starts afresh.
pub open spec fn is_reset_char(ch: char) -> bool {
    ch == '|' || ch == '(' || ch == ';'
}

/// Where the token that ends at `end` begins: the scan goes back from `end`
/// and stops behind the nearest delimiter.
pub open spec fn token_start(s: Seq<char>, end: nat) -> nat
    decreases end,
{
    if end > 0 && !is_delimiter_char(s[end - 1]) {
        token_start(s, (end - 1) as nat)
    } else {
        end
    }
}

/// The index just behind the last pipe, opening parenthesis or semicolon of
/// `s`, or 0 where it holds none.
pub open spec fn reset_point(s: Seq<char>) -> nat
    decreases s.len(),
{
    if s.len() == 0 {
        0
    } else if is_reset_char(s.last()) {
        s.len()
    } else {
        reset_point(s.drop_last())
    }
}

/// The context at the end of `before`, and the part of the token there that
/// suggestions are matched against.
pub open spec fn context_of(before: Seq<char>) -> (SuggestionContext, Seq<char>) {
    let i = trimmed_end(before);
    if i == 0 {
        (SuggestionContext::FunctionContext, Seq::<char>::empty())
    } else if before[i - 1] == '.' {
        (SuggestionContext::FieldContext, Seq::<char>::empty())
    } else {
        let start = token_start(before, i);
        let partial = before.subrange(start as int, i as int);
        if partial.len() > 0 && partial[0] == '.' {
            (SuggestionContext::FieldContext, partial.skip(last_index_of(partial, '.') + 1))
        } else {
            let j = trimmed_end(before.take(start as int));
            if j > 0 && before[j - 1] == '.' {
                (SuggestionContext::FieldContext, partial)
            } else {
                (SuggestionContext::FunctionContext, partial)
            }
        }
    }
}

/// The text before the cursor: the first `cursor` characters of `text`, all
/// of it where it has fewer.
pub open spec fn text_before(text: Seq<char>, cursor: nat) -> Seq<char> {
    if cursor <= text.len() {
        text.take(cursor as int)
    } else {
        text
    }
}

/// The path that `text` ends with: what follows its last reset character,
/// trimmed, and nothing where that does not begin with a dot.
pub open spec fn clean_path_of(text: Seq<char>) -> Seq<char> {
    let rest = trimmed(text.skip(reset_point(text) as int));
    if rest.len() > 0 && rest[0] != '.' {
        Seq::<char>::empty()
    } else {
        rest
    }
}

/// The path of the object whose field is being typed at the end of `before`.
pub open spec fn path_before_field(before: Seq<char>) -> Seq<char> {
    let dot = last_index_of(before, '.');
    if dot <= 0 {
        Seq::<char>::empty()
    } else {
        clean_path_of(before.take(dot))
    }
}

/// Tells whether `ch` separates the tokens of a query.
pub fn is_delimiter(ch: char) -> (b: bool)
    ensures
        b == is_delimiter_char(ch),
{
    ch == '|' || ch == ';' || ch == '(' || ch == ')' || ch == '[' || ch == ']' || ch == '{'
        || ch == '}' || ch == ',' || ch == ' ' || ch == '\t' || ch == '\n' || ch == '\r'
}

/// Classifies the end of `before_cursor` and gives the partial word there.
pub fn analyze_context(before_cursor: &str) -> (r: (SuggestionContext, String))
    ensures
        r.0 == context_of(before_cursor@).0,
        r.1@ == context_of(before_cursor@).1,
{
    let chars = to_chars(before_cursor);
    analyze_chars(&chars)
}

/// `analyze_context` on characters.
pub fn analyze_chars(chars: &Vec<char>) -> (r: (SuggestionContext, String))
    ensures
        r.0 == context_of(chars@).0,
        r.1@ == context_of(chars@).1,
{
    assert(chars@.take(chars@.len() as int) =~= chars@);
    let i = trim_end_index(chars, chars.len());
    if i == 0 {
        return (SuggestionContext::FunctionContext, String::new());
    }
    if chars[i - 1] == '.' {
        return (SuggestionContext::FieldContext, String::new());
    }
    let mut start: usize = i;
    while start > 0 && !is_delimiter(chars[start - 1])
        invariant
            start <= i <= chars.len(),
            token_start(chars@, i as nat) == token_start(chars@, start as nat),
        decreases start,
    {
        start = start - 1;
    }
    let ghost partial = chars@.subrange(start as int, i as int);
    if start < i && chars[start] == '.' {
        let dot = rfind_char(chars, i, '.');
        proof {
            lemma_last_index_of(chars@.take(i as int), '.');
            lemma_last_index_in_suffix(chars@.take(i as int), start as int, '.');
            assert(chars@.take(i as int).skip(start as int) =~= partial);
        }
        let d = match dot {
            Some(d) => d,
            None => start,
        };
        let field = string_from_chars(slice_subrange(chars.as_slice(), d + 1, i));
        assert(chars@.subrange(d + 1, i as int) =~= partial.skip(d - start + 1));
        return (SuggestionContext::FieldContext, field);
    }
    let word = string_from_chars(slice_subrange(chars.as_slice(), start, i));
    let j = trim_end_index(chars, start);
    if j > 0 && chars[j - 1] == '.' {
        return (SuggestionContext::FieldContext, word);
    }
    (SuggestionContext::FunctionContext, word)
}

/// The last occurrence of `c` in a suffix of `s` that holds one is the last
/// occurrence in `s`.
pub proof fn lemma_last_index_in_suffix(s: Seq<char>, from: int, c: char)
    requires
        0 <= from < s.len(),
        s[from] == c,
    ensures
        last_index_of(s, c) >= from,
        last_index_of(s.skip(from), c) == last_index_of(s, c) - from,
{
    let t = s.skip(from);
    lemma_last_index_of(s, c);
    lemma_last_index_of(t, c);
    let a = last_index_of(s, c);
    let b = last_index_of(t, c);
    assert(t[0] == c);
    if a < from {
        assert(s[from] != c);
    }
    assert(t[a - from] == s[a]);
    assert(b >= 0) by {
        if b < 0 {
            assert(t[0] != c);
        }
    }
    assert(s[b + from] == t[b]);
    if b < a - from {
        assert(t[a - from] != c);
    }
    if a < b + from {
        assert(s[b + from] != c);
    }
}

/// The path before the field that is being typed: `.products.ty` gives
/// `.products`, `.na` and `.` give the empty path.
pub fn extract_path_before_current_field(before_cursor: &str) -> (path: String)
    ensures
        path@ == path_before_field(before_cursor@),
{
    let chars = to_chars(before_cursor);
    path_before_field_chars(&chars)
}

/// `extract_path_before_current_field` on characters.
pub fn path_before_field_chars(chars: &Vec<char>) -> (path: String)
    ensures
        path@ == path_before_field(chars@),
{
    assert(chars@.take(chars@.len() as int) =~= chars@);
    match rfind_char(chars, chars.len(), '.') {
        None => String::new(),
        Some(dot) => {
            if dot == 0 {
                String::new()
            } else {
                clean_path_chars(chars, dot)
            }
        },
    }
}

/// The clean path of the first `end` characters of `chars`.
pub(crate) fn clean_path_chars(chars: &Vec<char>, end: usize) -> (path: String)
    requires
        end <= chars.len(),
    ensures
        path@ == clean_path_of(chars@.take(end as int)),
{
    let ghost text = chars@.take(end as int);
    let mut reset: usize = end;
    while reset > 0 && !is_reset(chars[reset - 1])
        invariant
            reset <= end <= chars.len(),
            text == chars@.take(end as int),
            reset_point(text) == reset_point(chars@.take(reset as int)),
        decreases reset,
    {
        assert(chars@.take(reset as int).drop_last() =~= chars@.take(reset - 1));
        reset = reset - 1;
    }
    assert(reset_point(text) == reset) by {
        if reset > 0 {
            assert(chars@.take(reset as int).last() == chars@[reset - 1]);
        }
    }
    let ghost rest = text.skip(reset as int);
    assert(rest.take(end - reset) =~= rest);
    let mut stop: usize = end;
    while stop > reset && is_whitespace(chars[stop - 1])
        invariant
            reset <= stop <= end <= chars.len(),
            rest == chars@.take(end as int).skip(reset as int),
            trimmed_end(rest) == trimmed_end(rest.take(stop - reset)),
        decreases stop,
    {
        assert(rest.take(stop - reset).drop_last() =~= rest.take(stop - reset - 1));
        assert(rest.take(stop - reset).last() == chars@[stop - 1]);
        stop = stop - 1;
    }
    assert(trimmed_end(rest) == stop - reset) by {
        if stop > reset {
            assert(rest.take(stop - reset).last() == chars@[stop - 1]);
        }
    }
    let ghost head = rest.take(stop - reset);
    assert(head.skip(0) =~= head);
    assert(head =~= chars@.subrange(reset as int, stop as int));
    let mut first: usize = reset;
    while first < stop && is_whitespace(chars[first])
        invariant
            reset <= first <= stop <= end <= chars.len(),
            head == chars@.subrange(reset as int, stop as int),
            leading_space(head) == (first - reset) + leading_space(head.skip(first - reset)),
        decreases stop - first,
    {
        assert(head.skip(first - reset)[0] == chars@[first as int]);
        assert(head.skip(first - reset).drop_first() =~= head.skip(first - reset + 1));
        first = first + 1;
    }
    assert(leading_space(head) == first - reset) by {
        if first < stop {
            assert(head.skip(first - reset)[0] == chars@[first as int]);
        }
    }
    assert(trimmed(rest) =~= chars@.subrange(first as int, stop as int));
    if first < stop && chars[first] != '.' {
        return String::new();
    }
    string_from_chars(slice_subrange(chars.as_slice(), first, stop))
}

/// Tells whether a path starts afresh after `ch`.
pub fn is_reset(ch: char) -> (b: bool)
    ensures
        b == is_reset_char(ch),
{
    ch == '|' || ch == '(' || ch == ';'
}

/// The clean path that `text` ends with: `map(.items) | .products` gives
/// `.products`.
pub fn extract_clean_path(text: &str) -> (path: String)
    ensures
        path@ == clean_path_of(text@),
{
    let chars = to_chars(text);
    assert(chars@.take(chars@.len() as int) =~= chars@);
    clean_path_chars(&chars, chars.len())
}

/// With nothing before the cursor the context is that of functions, and the
/// partial word is empty, whatever the text holds.
pub proof fn lemma_empty_before_cursor(text: Seq<char>)
    ensures
        context_of(text_before(text, 0)) == (
            SuggestionContext::FunctionContext,
            Seq::<char>::empty(),
        ),
{
    assert(text_before(text, 0).len() == 0);
}

/// Right after a dot, white space or none between, the context is that of
/// fields and the partial word is empty.
pub proof fn lemma_after_dot(before: Seq<char>)
    requires
        trimmed_end(before) > 0,
        before[trimmed_end(before) - 1] == '.',
    ensures
        context_of(before) == (SuggestionContext::FieldContext, Seq::<char>::empty()),
{
}

/// A text that ends in a dot is in the context of fields, with an empty
/// partial word.
pub proof fn lemma_ends_in_dot(before: Seq<char>)
    requires
        before.len() > 0,
        before.last() == '.',
    ensures
        context_of(before) == (SuggestionContext::FieldContext, Seq::<char>::empty()),
{
    assert(!is_whitespace_char('.'));
}

/// Whether `list` is what is suggested at `cursor` in `query`, over a
/// document of the given shape: in the context of fields the listing of the
/// fields at the path before the cursor, else what the catalog offers for the
/// partial word.
pub open spec fn is_suggested(
    list: Seq<SuggestionView>,
    query: Seq<char>,
    cursor: nat,
    document: Option<JsonTree>,
) -> bool {
    let before = text_before(query, cursor);
    let (context, partial) = context_of(before);
    match context {
        SuggestionContext::FieldContext => is_field_listing(
            list,
            keys_at(document, path_before_field(before)),
            partial,
        ),
        SuggestionContext::FunctionContext => list == builtins_for(partial),
    }
}

/// The suggestions for the cursor at character `cursor_pos` of `query`.
pub fn get_suggestions(query: &str, cursor_pos: usize, json_analyzer: &JsonAnalyzer) -> (list:
    Vec<Suggestion>)
    ensures
        is_suggested(views_of(list@), query@, cursor_pos as nat, json_analyzer.document()),
{
    let chars = to_chars(query);
    let end = if cursor_pos < chars.len() {
        cursor_pos
    } else {
        chars.len()
    };
    let before = slice_to_vec(slice_subrange(chars.as_slice(), 0, end));
    assert(before@ =~= text_before(query@, cursor_pos as nat));
    let (context, partial) = analyze_chars(&before);
    match context {
        SuggestionContext::FieldContext => {
            let path = path_before_field_chars(&before);
            json_analyzer.get_contextual_field_suggestions(path.as_str(), partial.as_str())
        },
        SuggestionContext::FunctionContext => filter_builtins(partial.as_str()),
    }
}

} // verus!
