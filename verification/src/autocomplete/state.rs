use crate::autocomplete::context::{get_suggestions, is_suggested};
use crate::autocomplete::json_analyzer::JsonAnalyzer;
use vstd::prelude::*;

verus! {

/// What a suggestion stands for.
#[derive(Debug, Clone, Copy, PartialEq, Eq, Structural)]
pub enum SuggestionType {
    Field,
    Function,
    Operator,
    Pattern,
}

/// One entry of the suggestion list.
#[derive(Debug)]
pub struct Suggestion {
    pub text: String,
    pub suggestion_type: SuggestionType,
    pub description: Option<String>,
}

/// A suggestion as plain values.
pub struct SuggestionView {
    pub text: Seq<char>,
    pub suggestion_type: SuggestionType,
    pub description: Option<Seq<char>>,
}

impl View for Suggestion {
    type V = SuggestionView;

    open spec fn view(&self) -> SuggestionView {
        SuggestionView {
            text: self.text@,
            suggestion_type: self.suggestion_type,
            description: match self.description {
                Some(d) => Some(d@),
                None => None,
            },
        }
    }
}

/// The views of a list of suggestions, in order.
pub open spec fn views_of(list: Seq<Suggestion>) -> Seq<SuggestionView> {
    list.map_values(|s: Suggestion| s@)
}

/// A suggestion without a description, as plain values.
pub open spec fn plain_suggestion(text: Seq<char>, kind: SuggestionType) -> SuggestionView {
    SuggestionView { text, suggestion_type: kind, description: None }
}

impl Suggestion {
    /// A suggestion without a description.
    pub fn new(text: &str, suggestion_type: SuggestionType) -> (s: Suggestion)
        ensures
            s@ == plain_suggestion(text@, suggestion_type),
    {
        Suggestion { text: text.to_owned(), suggestion_type, description: None }
    }

    /// The same suggestion with `description` attached.
    pub fn with_description(self, description: &str) -> (s: Suggestion)
        ensures
            s@ == (SuggestionView { description: Some(description@), ..self@ }),
    {
        Suggestion {
            text: self.text,
            suggestion_type: self.suggestion_type,
            description: Some(description.to_owned()),
        }
    }
}

impl Clone for Suggestion {
    fn clone(&self) -> (s: Suggestion)
        ensures
            s@ == self@,
    {
        let description = match &self.description {
            Some(d) => Some(d.clone()),
            None => None,
        };
        Suggestion {
            text: self.text.clone(),
            suggestion_type: self.suggestion_type,
            description,
        }
    }
}

impl PartialEq for Suggestion {
    fn eq(&self, other: &Suggestion) -> (b: bool) {
        self.text == other.text
    }
}

impl vstd::std_specs::cmp::PartialEqSpecImpl for Suggestion {
    open spec fn obeys_eq_spec() -> bool {
        true
    }

    open spec fn eq_spec(&self, other: &Suggestion) -> bool {
        self.text@ == other.text@
    }
}

/// The suggestion list with its selection.
#[derive(Debug)]
pub struct AutocompleteState {
    suggestions: Vec<Suggestion>,
    selected_index: Option<usize>,
    visible: bool,
}

impl AutocompleteState {
    /// The suggestions held.
    pub closed spec fn entries(&self) -> Seq<Suggestion> {
        self.suggestions@
    }

    /// The index of the selected suggestion.
    pub closed spec fn selection(&self) -> Option<usize> {
        self.selected_index
    }

    /// Whether the list is shown.
    pub closed spec fn shown(&self) -> bool {
        self.visible
    }

    /// The list is shown exactly while it holds something, and exactly then
    /// one of its entries is selected.
    pub open spec fn wf(&self) -> bool {
        &&& self.shown() == (self.entries().len() > 0)
        &&& self.selection() is Some == (self.entries().len() > 0)
        &&& self.selection() matches Some(i) ==> i < self.entries().len()
    }

    #[verifier::type_invariant]
    spec fn inv(&self) -> bool {
        self.wf()
    }

    /// An empty, hidden list.
    pub fn new() -> (s: AutocompleteState)
        ensures
            s.wf(),
            s.entries().len() == 0,
    {
        AutocompleteState { suggestions: Vec::new(), selected_index: None, visible: false }
    }

    /// Replaces the list and selects its first entry.
    pub fn update_suggestions(&mut self, suggestions: Vec<Suggestion>)
        ensures
            final(self).wf(),
            final(self).entries() == suggestions@,
            final(self).selection() == (if suggestions@.len() > 0 {
                Some(0usize)
            } else {
                None
            }),
    {
        let selected = if suggestions.len() > 0 {
            Some(0)
        } else {
            None
        };
        let visible = suggestions.len() > 0;
        *self = AutocompleteState { suggestions, selected_index: selected, visible };
    }

    /// Makes the list anew for the cursor at character `cursor_offset` of
    /// `query`, over the document of `index`, and selects its first entry.
    pub fn refresh(&mut self, query: &str, cursor_offset: usize, index: &JsonAnalyzer)
        ensures
            final(self).wf(),
            is_suggested(
                views_of(final(self).entries()),
                query@,
                cursor_offset as nat,
                index.document(),
            ),
            final(self).selection() == (if final(self).entries().len() > 0 {
                Some(0usize)
            } else {
                None
            }),
    {
        let suggestions = get_suggestions(query, cursor_offset, index);
        self.update_suggestions(suggestions);
    }

    /// Empties and hides the list.
    pub fn close(&mut self)
        ensures
            final(self).wf(),
            final(self).entries().len() == 0,
    {
        *self = AutocompleteState { suggestions: Vec::new(), selected_index: None, visible: false };
    }

    /// Whether the list is shown.
    pub fn is_visible(&self) -> (b: bool)
        ensures
            self.wf(),
            b == self.shown(),
    {
        proof {
            use_type_invariant(self);
        }
        self.visible
    }

    /// The suggestions held, in order.
    pub fn suggestions(&self) -> (list: &Vec<Suggestion>)
        ensures
            self.wf(),
            list@ == self.entries(),
    {
        proof {
            use_type_invariant(self);
        }
        &self.suggestions
    }

    /// The index of the selected suggestion.
    pub fn selected_index(&self) -> (i: Option<usize>)
        ensures
            self.wf(),
            i == self.selection(),
    {
        proof {
            use_type_invariant(self);
        }
        self.selected_index
    }

    /// The selected suggestion.
    pub fn selected(&self) -> (s: Option<&Suggestion>)
        ensures
            self.wf(),
            match s {
                Some(e) => self.selection() matches Some(i) && *e == self.entries()[i as int],
                None => self.selection() is None,
            },
    {
        proof {
            use_type_invariant(self);
        }
        match self.selected_index {
            Some(i) => Some(&self.suggestions[i]),
            None => None,
        }
    }

    /// Moves the selection one entry down, from the last entry to the first.
    pub fn select_next(&mut self)
        ensures
            final(self).wf(),
            final(self).entries() == old(self).entries(),
            final(self).selection() == next_selection(
                old(self).selection(),
                old(self).entries().len(),
            ),
    {
        proof {
            use_type_invariant(&*self);
        }
        let len = self.suggestions.len();
        match self.selected_index {
            Some(i) => {
                let next = if i + 1 < len {
                    i + 1
                } else {
                    0
                };
                self.selected_index = Some(next);
            },
            None => {},
        }
    }

    /// Moves the selection one entry up, from the first entry to the last.
    pub fn select_previous(&mut self)
        ensures
            final(self).wf(),
            final(self).entries() == old(self).entries(),
            final(self).selection() == previous_selection(
                old(self).selection(),
                old(self).entries().len(),
            ),
    {
        proof {
            use_type_invariant(&*self);
        }
        let len = self.suggestions.len();
        match self.selected_index {
            Some(i) => {
                let previous = if i == 0 {
                    len - 1
                } else {
                    i - 1
                };
                self.selected_index = Some(previous);
            },
            None => {},
        }
    }
}

/// The selection after a step down in a list of `len` entries.
pub open spec fn next_selection(selected: Option<usize>, len: nat) -> Option<usize> {
    match selected {
        Some(i) => Some(
            if i + 1 < len {
                (i + 1) as usize
            } else {
                0usize
            },
        ),
        None => None,
    }
}

/// The selection after a step up in a list of `len` entries.
pub open spec fn previous_selection(selected: Option<usize>, len: nat) -> Option<usize> {
    match selected {
        Some(i) => Some(
            if i == 0 {
                (len - 1) as usize
            } else {
                (i - 1) as usize
            },
        ),
        None => None,
    }
}

} // verus!
