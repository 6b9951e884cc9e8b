use crate::autocomplete::state::{views_of, Suggestion, SuggestionType, SuggestionView};
use crate::text::{is_prefix, lowercase_of, to_chars, to_lowercase};
use vstd::prelude::*;

verus! {

/// The number of entries of the catalog.
pub const CATALOG_LEN: usize = 116;

/// A described suggestion, as plain values.
pub open spec fn described(
    text: Seq<char>,
    kind: SuggestionType,
    description: Seq<char>,
) -> SuggestionView {
    SuggestionView { text, suggestion_type: kind, description: Some(description) }
}

/// The catalog's entry at `i`: patterns first, then operators, then the
/// functions by group.
pub open spec fn catalog_entry(i: usize) -> SuggestionView {
    match i {
        0 => described(".[]"@, SuggestionType::Pattern, "Iterate over array/object values"@),
        1 => described(".[0]"@, SuggestionType::Pattern, "First array element"@),
        2 => described(".[-1]"@, SuggestionType::Pattern, "Last array element"@),
        3 => described(".."@, SuggestionType::Pattern, "Recursive descent (all values)"@),
        4 => described("|"@, SuggestionType::Operator, "Pipe operator"@),
        5 => described("//"@, SuggestionType::Operator, "Alternative operator (default value)"@),
        6 => described("and"@, SuggestionType::Operator, "Logical AND"@),
        7 => described("or"@, SuggestionType::Operator, "Logical OR"@),
        8 => described("not"@, SuggestionType::Operator, "Logical NOT"@),
        9 => described("map"@, SuggestionType::Function, "Apply expression to each element"@),
        10 => described("select"@, SuggestionType::Function, "Filter elements by condition"@),
        11 => described("sort"@, SuggestionType::Function, "Sort array"@),
        12 => described("sort_by"@, SuggestionType::Function, "Sort array by expression"@),
        13 => described("reverse"@, SuggestionType::Function, "Reverse array"@),
        14 => described("unique"@, SuggestionType::Function, "Remove duplicate values"@),
        15 => described("unique_by"@, SuggestionType::Function, "Remove duplicates by expression"@),
        16 => described("group_by"@, SuggestionType::Function, "Group array elements by expression"@),
        17 => described("flatten"@, SuggestionType::Function, "Flatten nested arrays"@),
        18 => described("add"@, SuggestionType::Function, "Sum array elements or concatenate"@),
        19 => described("length"@, SuggestionType::Function, "Length of array/object/string"@),
        20 => described("first"@, SuggestionType::Function, "First element"@),
        21 => described("last"@, SuggestionType::Function, "Last element"@),
        22 => described("nth"@, SuggestionType::Function, "Nth element"@),
        23 => described("indices"@, SuggestionType::Function, "Find all indices of value"@),
        24 => described("index"@, SuggestionType::Function, "Find first index of value"@),
        25 => described("rindex"@, SuggestionType::Function, "Find last index of value"@),
        26 => described("inside"@, SuggestionType::Function, "Check if element is inside array"@),
        27 => described("contains"@, SuggestionType::Function, "Check if contains value"@),
        28 => described("startswith"@, SuggestionType::Function, "Check if starts with value"@),
        29 => described("endswith"@, SuggestionType::Function, "Check if ends with value"@),
        30 => described("limit"@, SuggestionType::Function, "Limit output count"@),
        31 => described("range"@, SuggestionType::Function, "Generate range"@),
        32 => described("min"@, SuggestionType::Function, "Minimum value"@),
        33 => described("max"@, SuggestionType::Function, "Maximum value"@),
        34 => described("min_by"@, SuggestionType::Function, "Minimum by expression"@),
        35 => described("max_by"@, SuggestionType::Function, "Maximum by expression"@),
        36 => described("keys"@, SuggestionType::Function, "Get object keys or array indices"@),
        37 => described("keys_unsorted"@, SuggestionType::Function, "Get object keys (unsorted)"@),
        38 => described("values"@, SuggestionType::Function, "Get all values"@),
        39 => described("to_entries"@, SuggestionType::Function, "Convert object to key-value pairs"@),
        40 => described("from_entries"@, SuggestionType::Function, "Convert key-value pairs to object"@),
        41 => described("with_entries"@, SuggestionType::Function, "Transform object entries"@),
        42 => described("has"@, SuggestionType::Function, "Check if key exists"@),
        43 => described("in"@, SuggestionType::Function, "Check if value is in object"@),
        44 => described("del"@, SuggestionType::Function, "Delete key/path"@),
        45 => described("getpath"@, SuggestionType::Function, "Get value at path"@),
        46 => described("setpath"@, SuggestionType::Function, "Set value at path"@),
        47 => described("delpaths"@, SuggestionType::Function, "Delete multiple paths"@),
        48 => described("paths"@, SuggestionType::Function, "Get all paths (leaf paths)"@),
        49 => described("leaf_paths"@, SuggestionType::Function, "Get all leaf paths"@),
        50 => described("tostring"@, SuggestionType::Function, "Convert to string"@),
        51 => described("tonumber"@, SuggestionType::Function, "Convert to number"@),
        52 => described("split"@, SuggestionType::Function, "Split string by delimiter"@),
        53 => described("join"@, SuggestionType::Function, "Join array with delimiter"@),
        54 => described("ltrimstr"@, SuggestionType::Function, "Remove prefix string"@),
        55 => described("rtrimstr"@, SuggestionType::Function, "Remove suffix string"@),
        56 => described("ascii_downcase"@, SuggestionType::Function, "Convert to lowercase"@),
        57 => described("ascii_upcase"@, SuggestionType::Function, "Convert to uppercase"@),
        58 => described("test"@, SuggestionType::Function, "Test regex match"@),
        59 => described("match"@, SuggestionType::Function, "Match regex"@),
        60 => described("capture"@, SuggestionType::Function, "Capture regex groups"@),
        61 => described("scan"@, SuggestionType::Function, "Scan for all regex matches"@),
        62 => described("splits"@, SuggestionType::Function, "Split by regex"@),
        63 => described("sub"@, SuggestionType::Function, "Replace first regex match"@),
        64 => described("gsub"@, SuggestionType::Function, "Replace all regex matches"@),
        65 => described("type"@, SuggestionType::Function, "Get value type"@),
        66 => described("arrays"@, SuggestionType::Function, "Select arrays"@),
        67 => described("objects"@, SuggestionType::Function, "Select objects"@),
        68 => described("iterables"@, SuggestionType::Function, "Select arrays/objects"@),
        69 => described("booleans"@, SuggestionType::Function, "Select booleans"@),
        70 => described("numbers"@, SuggestionType::Function, "Select numbers"@),
        71 => described("strings"@, SuggestionType::Function, "Select strings"@),
        72 => described("nulls"@, SuggestionType::Function, "Select nulls"@),
        73 => described("values"@, SuggestionType::Function, "Select non-null values"@),
        74 => described("scalars"@, SuggestionType::Function, "Select non-iterable values"@),
        75 => described("floor"@, SuggestionType::Function, "Round down"@),
        76 => described("ceil"@, SuggestionType::Function, "Round up"@),
        77 => described("round"@, SuggestionType::Function, "Round to nearest"@),
        78 => described("sqrt"@, SuggestionType::Function, "Square root"@),
        79 => described("abs"@, SuggestionType::Function, "Absolute value"@),
        80 => described("now"@, SuggestionType::Function, "Current Unix timestamp"@),
        81 => described("fromdateiso8601"@, SuggestionType::Function, "Parse ISO8601 date"@),
        82 => described("todateiso8601"@, SuggestionType::Function, "Format as ISO8601 date"@),
        83 => described("fromdate"@, SuggestionType::Function, "Parse date string"@),
        84 => described("todate"@, SuggestionType::Function, "Format date"@),
        85 => described("strftime"@, SuggestionType::Function, "Format timestamp"@),
        86 => described("strptime"@, SuggestionType::Function, "Parse timestamp"@),
        87 => described("@json"@, SuggestionType::Function, "Format as JSON string"@),
        88 => described("@uri"@, SuggestionType::Function, "URL encode"@),
        89 => described("@csv"@, SuggestionType::Function, "Format as CSV"@),
        90 => described("@tsv"@, SuggestionType::Function, "Format as TSV"@),
        91 => described("@html"@, SuggestionType::Function, "HTML encode"@),
        92 => described("@base64"@, SuggestionType::Function, "Base64 encode"@),
        93 => described("@base64d"@, SuggestionType::Function, "Base64 decode"@),
        94 => described("recurse"@, SuggestionType::Function, "Apply recursively"@),
        95 => described("walk"@, SuggestionType::Function, "Apply to all values recursively"@),
        96 => described("transpose"@, SuggestionType::Function, "Transpose matrix"@),
        97 => described("until"@, SuggestionType::Function, "Repeat until condition"@),
        98 => described("while"@, SuggestionType::Function, "Repeat while condition"@),
        99 => described("repeat"@, SuggestionType::Function, "Repeat expression infinitely"@),
        100 => described("env"@, SuggestionType::Function, "Access environment variables"@),
        101 => described("$ENV"@, SuggestionType::Function, "Environment object"@),
        102 => described("error"@, SuggestionType::Function, "Raise error"@),
        103 => described("empty"@, SuggestionType::Function, "Produce no output"@),
        104 => described("if"@, SuggestionType::Function, "Conditional expression"@),
        105 => described("then"@, SuggestionType::Function, "Then clause"@),
        106 => described("else"@, SuggestionType::Function, "Else clause"@),
        107 => described("elif"@, SuggestionType::Function, "Else-if clause"@),
        108 => described("end"@, SuggestionType::Function, "End block"@),
        109 => described("as"@, SuggestionType::Function, "Bind variable"@),
        110 => described("|="@, SuggestionType::Operator, "Update assignment"@),
        111 => described("+="@, SuggestionType::Operator, "Addition assignment"@),
        112 => described("-="@, SuggestionType::Operator, "Subtraction assignment"@),
        113 => described("*="@, SuggestionType::Operator, "Multiplication assignment"@),
        114 => described("/="@, SuggestionType::Operator, "Division assignment"@),
        115 => described("//="@, SuggestionType::Operator, "Alternative assignment"@),
        _ => described(""@, SuggestionType::Function, ""@),
    }
}

/// The whole catalog, in its fixed order.
pub open spec fn catalog() -> Seq<SuggestionView> {
    Seq::new(CATALOG_LEN as nat, |i: int| catalog_entry(i as usize))
}

/// Whether `text` begins with `prefix` once both are in lower case.
pub open spec fn matches_prefix(text: Seq<char>, prefix: Seq<char>) -> bool {
    lowercase_of(prefix).is_prefix_of(lowercase_of(text))
}

/// The entries of `list` whose text matches `prefix`, in the order of `list`.
pub open spec fn entries_matching(list: Seq<SuggestionView>, prefix: Seq<char>) -> Seq<
    SuggestionView,
>
    decreases list.len(),
{
    if list.len() == 0 {
        Seq::<SuggestionView>::empty()
    } else {
        let rest = entries_matching(list.drop_last(), prefix);
        if matches_prefix(list.last().text, prefix) {
            rest.push(list.last())
        } else {
            rest
        }
    }
}

/// What the catalog offers for `prefix`: nothing for the empty prefix, else
/// the matching entries in catalog order.
pub open spec fn builtins_for(prefix: Seq<char>) -> Seq<SuggestionView> {
    if prefix.len() == 0 {
        Seq::<SuggestionView>::empty()
    } else {
        entries_matching(catalog(), prefix)
    }
}

fn entry(text: &str, kind: SuggestionType, description: &str) -> (s: Suggestion)
    ensures
        s@ == described(text@, kind, description@),
{
    Suggestion::new(text, kind).with_description(description)
}

/// Builds the catalog's entry at `i`.
pub fn builtin_at(i: usize) -> (s: Suggestion)
    ensures
        s@ == catalog_entry(i),
{
    match i {
        0 => entry(".[]", SuggestionType::Pattern, "Iterate over array/object values"),
        1 => entry(".[0]", SuggestionType::Pattern, "First array element"),
        2 => entry(".[-1]", SuggestionType::Pattern, "Last array element"),
        3 => entry("..", SuggestionType::Pattern, "Recursive descent (all values)"),
        4 => entry("|", SuggestionType::Operator, "Pipe operator"),
        5 => entry("//", SuggestionType::Operator, "Alternative operator (default value)"),
        6 => entry("and", SuggestionType::Operator, "Logical AND"),
        7 => entry("or", SuggestionType::Operator, "Logical OR"),
        8 => entry("not", SuggestionType::Operator, "Logical NOT"),
        9 => entry("map", SuggestionType::Function, "Apply expression to each element"),
        10 => entry("select", SuggestionType::Function, "Filter elements by condition"),
        11 => entry("sort", SuggestionType::Function, "Sort array"),
        12 => entry("sort_by", SuggestionType::Function, "Sort array by expression"),
        13 => entry("reverse", SuggestionType::Function, "Reverse array"),
        14 => entry("unique", SuggestionType::Function, "Remove duplicate values"),
        15 => entry("unique_by", SuggestionType::Function, "Remove duplicates by expression"),
        16 => entry("group_by", SuggestionType::Function, "Group array elements by expression"),
        17 => entry("flatten", SuggestionType::Function, "Flatten nested arrays"),
        18 => entry("add", SuggestionType::Function, "Sum array elements or concatenate"),
        19 => entry("length", SuggestionType::Function, "Length of array/object/string"),
        20 => entry("first", SuggestionType::Function, "First element"),
        21 => entry("last", SuggestionType::Function, "Last element"),
        22 => entry("nth", SuggestionType::Function, "Nth element"),
        23 => entry("indices", SuggestionType::Function, "Find all indices of value"),
        24 => entry("index", SuggestionType::Function, "Find first index of value"),
        25 => entry("rindex", SuggestionType::Function, "Find last index of value"),
        26 => entry("inside", SuggestionType::Function, "Check if element is inside array"),
        27 => entry("contains", SuggestionType::Function, "Check if contains value"),
        28 => entry("startswith", SuggestionType::Function, "Check if starts with value"),
        29 => entry("endswith", SuggestionType::Function, "Check if ends with value"),
        30 => entry("limit", SuggestionType::Function, "Limit output count"),
        31 => entry("range", SuggestionType::Function, "Generate range"),
        32 => entry("min", SuggestionType::Function, "Minimum value"),
        33 => entry("max", SuggestionType::Function, "Maximum value"),
        34 => entry("min_by", SuggestionType::Function, "Minimum by expression"),
        35 => entry("max_by", SuggestionType::Function, "Maximum by expression"),
        36 => entry("keys", SuggestionType::Function, "Get object keys or array indices"),
        37 => entry("keys_unsorted", SuggestionType::Function, "Get object keys (unsorted)"),
        38 => entry("values", SuggestionType::Function, "Get all values"),
        39 => entry("to_entries", SuggestionType::Function, "Convert object to key-value pairs"),
        40 => entry("from_entries", SuggestionType::Function, "Convert key-value pairs to object"),
        41 => entry("with_entries", SuggestionType::Function, "Transform object entries"),
        42 => entry("has", SuggestionType::Function, "Check if key exists"),
        43 => entry("in", SuggestionType::Function, "Check if value is in object"),
        44 => entry("del", SuggestionType::Function, "Delete key/path"),
        45 => entry("getpath", SuggestionType::Function, "Get value at path"),
        46 => entry("setpath", SuggestionType::Function, "Set value at path"),
        47 => entry("delpaths", SuggestionType::Function, "Delete multiple paths"),
        48 => entry("paths", SuggestionType::Function, "Get all paths (leaf paths)"),
        49 => entry("leaf_paths", SuggestionType::Function, "Get all leaf paths"),
        50 => entry("tostring", SuggestionType::Function, "Convert to string"),
        51 => entry("tonumber", SuggestionType::Function, "Convert to number"),
        52 => entry("split", SuggestionType::Function, "Split string by delimiter"),
        53 => entry("join", SuggestionType::Function, "Join array with delimiter"),
        54 => entry("ltrimstr", SuggestionType::Function, "Remove prefix string"),
        55 => entry("rtrimstr", SuggestionType::Function, "Remove suffix string"),
        56 => entry("ascii_downcase", SuggestionType::Function, "Convert to lowercase"),
        57 => entry("ascii_upcase", SuggestionType::Function, "Convert to uppercase"),
        58 => entry("test", SuggestionType::Function, "Test regex match"),
        59 => entry("match", SuggestionType::Function, "Match regex"),
        60 => entry("capture", SuggestionType::Function, "Capture regex groups"),
        61 => entry("scan", SuggestionType::Function, "Scan for all regex matches"),
        62 => entry("splits", SuggestionType::Function, "Split by regex"),
        63 => entry("sub", SuggestionType::Function, "Replace first regex match"),
        64 => entry("gsub", SuggestionType::Function, "Replace all regex matches"),
        65 => entry("type", SuggestionType::Function, "Get value type"),
        66 => entry("arrays", SuggestionType::Function, "Select arrays"),
        67 => entry("objects", SuggestionType::Function, "Select objects"),
        68 => entry("iterables", SuggestionType::Function, "Select arrays/objects"),
        69 => entry("booleans", SuggestionType::Function, "Select booleans"),
        70 => entry("numbers", SuggestionType::Function, "Select numbers"),
        71 => entry("strings", SuggestionType::Function, "Select strings"),
        72 => entry("nulls", SuggestionType::Function, "Select nulls"),
        73 => entry("values", SuggestionType::Function, "Select non-null values"),
        74 => entry("scalars", SuggestionType::Function, "Select non-iterable values"),
        75 => entry("floor", SuggestionType::Function, "Round down"),
        76 => entry("ceil", SuggestionType::Function, "Round up"),
        77 => entry("round", SuggestionType::Function, "Round to nearest"),
        78 => entry("sqrt", SuggestionType::Function, "Square root"),
        79 => entry("abs", SuggestionType::Function, "Absolute value"),
        80 => entry("now", SuggestionType::Function, "Current Unix timestamp"),
        81 => entry("fromdateiso8601", SuggestionType::Function, "Parse ISO8601 date"),
        82 => entry("todateiso8601", SuggestionType::Function, "Format as ISO8601 date"),
        83 => entry("fromdate", SuggestionType::Function, "Parse date string"),
        84 => entry("todate", SuggestionType::Function, "Format date"),
        85 => entry("strftime", SuggestionType::Function, "Format timestamp"),
        86 => entry("strptime", SuggestionType::Function, "Parse timestamp"),
        87 => entry("@json", SuggestionType::Function, "Format as JSON string"),
        88 => entry("@uri", SuggestionType::Function, "URL encode"),
        89 => entry("@csv", SuggestionType::Function, "Format as CSV"),
        90 => entry("@tsv", SuggestionType::Function, "Format as TSV"),
        91 => entry("@html", SuggestionType::Function, "HTML encode"),
        92 => entry("@base64", SuggestionType::Function, "Base64 encode"),
        93 => entry("@base64d", SuggestionType::Function, "Base64 decode"),
        94 => entry("recurse", SuggestionType::Function, "Apply recursively"),
        95 => entry("walk", SuggestionType::Function, "Apply to all values recursively"),
        96 => entry("transpose", SuggestionType::Function, "Transpose matrix"),
        97 => entry("until", SuggestionType::Function, "Repeat until condition"),
        98 => entry("while", SuggestionType::Function, "Repeat while condition"),
        99 => entry("repeat", SuggestionType::Function, "Repeat expression infinitely"),
        100 => entry("env", SuggestionType::Function, "Access environment variables"),
        101 => entry("$ENV", SuggestionType::Function, "Environment object"),
        102 => entry("error", SuggestionType::Function, "Raise error"),
        103 => entry("empty", SuggestionType::Function, "Produce no output"),
        104 => entry("if", SuggestionType::Function, "Conditional expression"),
        105 => entry("then", SuggestionType::Function, "Then clause"),
        106 => entry("else", SuggestionType::Function, "Else clause"),
        107 => entry("elif", SuggestionType::Function, "Else-if clause"),
        108 => entry("end", SuggestionType::Function, "End block"),
        109 => entry("as", SuggestionType::Function, "Bind variable"),
        110 => entry("|=", SuggestionType::Operator, "Update assignment"),
        111 => entry("+=", SuggestionType::Operator, "Addition assignment"),
        112 => entry("-=", SuggestionType::Operator, "Subtraction assignment"),
        113 => entry("*=", SuggestionType::Operator, "Multiplication assignment"),
        114 => entry("/=", SuggestionType::Operator, "Division assignment"),
        115 => entry("//=", SuggestionType::Operator, "Alternative assignment"),
        _ => entry("", SuggestionType::Function, ""),
    }
}

/// The catalog's entries that begin with `prefix`, whatever the case of
/// either, in catalog order; none for the empty prefix.
pub fn filter_builtins(prefix: &str) -> (list: Vec<Suggestion>)
    ensures
        views_of(list@) == builtins_for(prefix@),
{
    let mut list: Vec<Suggestion> = Vec::new();
    if prefix.unicode_len() == 0 {
        assert(views_of(list@) =~= Seq::<SuggestionView>::empty());
        return list;
    }
    let wanted = to_chars(to_lowercase(prefix).as_str());
    let mut i: usize = 0;
    assert(catalog().take(0) =~= Seq::<SuggestionView>::empty());
    assert(views_of(list@) =~= Seq::<SuggestionView>::empty());
    while i < CATALOG_LEN
        invariant
            i <= CATALOG_LEN,
            wanted@ == lowercase_of(prefix@),
            views_of(list@) == entries_matching(catalog().take(i as int), prefix@),
        decreases CATALOG_LEN - i,
    {
        let candidate = builtin_at(i);
        let lowered = to_chars(to_lowercase(candidate.text.as_str()).as_str());
        proof {
            let next = catalog().take(i + 1);
            assert(next.drop_last() =~= catalog().take(i as int));
            assert(next.last() == candidate@);
        }
        if is_prefix(&wanted, &lowered) {
            let ghost before = list@;
            list.push(candidate);
            assert(views_of(list@) =~= views_of(before).push(candidate@));
        }
        i = i + 1;
    }
    assert(catalog().take(CATALOG_LEN as int) =~= catalog());
    list
}

/// Every entry that the catalog offers for a prefix matches it, and every
/// matching entry of the catalog is offered.
pub proof fn lemma_matching_entries(list: Seq<SuggestionView>, prefix: Seq<char>)
    ensures
        forall|e: SuggestionView| #[trigger]
            entries_matching(list, prefix).contains(e) <==> list.contains(e) && matches_prefix(
                e.text,
                prefix,
            ),
    decreases list.len(),
{
    let found = entries_matching(list, prefix);
    if list.len() > 0 {
        let head = list.drop_last();
        let rest = entries_matching(head, prefix);
        lemma_matching_entries(head, prefix);
        assert forall|e: SuggestionView| #[trigger]
            found.contains(e) <==> list.contains(e) && matches_prefix(e.text, prefix) by {
            if found.contains(e) {
                let k = choose|k: int| 0 <= k < found.len() && found[k] == e;
                if k < rest.len() {
                    assert(rest[k] == e);
                    assert(entries_matching(head, prefix).contains(e));
                    let j = choose|j: int| 0 <= j < head.len() && head[j] == e;
                    assert(list[j] == e);
                } else {
                    assert(e == list.last());
                    assert(list[list.len() - 1] == e);
                }
            }
            if list.contains(e) && matches_prefix(e.text, prefix) {
                let j = choose|j: int| 0 <= j < list.len() && list[j] == e;
                if j < head.len() {
                    assert(head[j] == e);
                    assert(head.contains(e));
                    assert(entries_matching(head, prefix).contains(e));
                    let k = choose|k: int| 0 <= k < rest.len() && rest[k] == e;
                    assert(found[k] == e);
                } else {
                    assert(found[found.len() - 1] == e);
                }
            }
        }
    }
}

} // verus!
