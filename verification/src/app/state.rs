use crate::autocomplete::json_analyzer::JsonAnalyzer;
use crate::autocomplete::state::AutocompleteState;
use crate::buffer::{
    buffer_anchor, buffer_cursor, buffer_lines, buffer_text, new_buffer, Buffer,
};
use crate::editor::EditorMode;
use vstd::prelude::*;

verus! {

/// The pane that takes the keys.
#[derive(Debug, Clone, Copy, PartialEq, Eq, Structural)]
pub enum Focus {
    InputField,
    ResultsPane,
}

/// What is printed when the session ends.
#[derive(Debug, Clone, Copy, PartialEq, Eq, Structural)]
pub enum OutputMode {
    /// The query itself.
    Query,
    /// The last result.
    Results,
}

/// What a key press asks of the caller.
#[derive(Debug)]
pub enum Action {
    /// Nothing.
    Idle,
    /// To run this query and hand the result to `App::set_query_result`.
    Execute(String),
}

/// The state of a session.
pub struct App {
    pub json_input: String,
    pub textarea: Buffer,
    pub query_result: Result<String, String>,
    pub last_successful_result: Option<String>,
    pub should_quit: bool,
    pub focus: Focus,
    pub editor_mode: EditorMode,
    pub output_mode: Option<OutputMode>,
    pub results_scroll: usize,
    pub results_viewport_height: usize,
    pub autocomplete: AutocompleteState,
    pub json_analyzer: JsonAnalyzer,
}

/// The first of `lines`, the empty text where there is none.
pub open spec fn first_line(lines: Seq<Seq<char>>) -> Seq<char> {
    if lines.len() > 0 {
        lines[0]
    } else {
        Seq::<char>::empty()
    }
}

/// The number of line feeds in a text.
pub open spec fn terminated_count(text: Seq<char>) -> nat
    decreases text.len(),
{
    if text.len() == 0 {
        0
    } else {
        terminated_count(text.drop_last()) + if text.last() == '\n' {
            1nat
        } else {
            0nat
        }
    }
}

/// The number of lines of a text: each line feed ends one, and what follows
/// the last line feed is one more unless it is empty.
pub open spec fn line_count(text: Seq<char>) -> nat {
    terminated_count(text) + if text.len() > 0 && text.last() != '\n' {
        1nat
    } else {
        0nat
    }
}

/// The text that the results pane shows: the result of the query, or, after
/// a query that failed, the last result of one that did not.
pub open spec fn shown_text(result: Result<String, String>, last: Option<String>) -> Seq<char> {
    match result {
        Ok(text) => text@,
        Err(_) => match last {
            Some(text) => text@,
            None => Seq::<char>::empty(),
        },
    }
}

/// The greatest offset at which the view still ends within `lines` lines.
pub open spec fn max_scroll_of(lines: nat, viewport_height: usize) -> nat {
    if lines > viewport_height {
        (lines - viewport_height) as nat
    } else {
        0
    }
}

/// The offset brought back within `max`.
pub open spec fn clamped_scroll(scroll: usize, max: nat) -> usize {
    if scroll <= max {
        scroll
    } else {
        max as usize
    }
}

/// Counts the lines of `text`.
pub fn count_lines(text: &str) -> (n: usize)
    ensures
        n == line_count(text@),
{
    let chars = crate::text::to_chars(text);
    let mut count: usize = 0;
    let mut i: usize = 0;
    assert(chars@.take(0) =~= Seq::<char>::empty());
    while i < chars.len()
        invariant
            i <= chars.len(),
            count == terminated_count(chars@.take(i as int)),
            count <= i,
        decreases chars.len() - i,
    {
        assert(chars@.take(i + 1).drop_last() =~= chars@.take(i as int));
        if chars[i] == '\n' {
            count = count + 1;
        }
        i = i + 1;
    }
    assert(chars@.take(i as int) =~= chars@);
    if chars.len() > 0 && chars[chars.len() - 1] != '\n' {
        proof {
            assert(chars@.drop_last() =~= chars@.take(chars@.len() - 1));
            assert(terminated_count(chars@) == terminated_count(chars@.drop_last()));
            lemma_terminated_bound(chars@.drop_last());
        }
        count + 1
    } else {
        count
    }
}

/// A text has no more line feeds than characters.
pub proof fn lemma_terminated_bound(text: Seq<char>)
    ensures
        terminated_count(text) <= text.len(),
    decreases text.len(),
{
    if text.len() > 0 {
        lemma_terminated_bound(text.drop_last());
    }
}

impl App {
    /// The query: the first line of the buffer.
    pub open spec fn query_text(self) -> Seq<char> {
        first_line(buffer_lines(self.textarea))
    }

    /// The greatest scroll offset for what the results pane shows.
    pub open spec fn max_scroll_spec(self) -> nat {
        max_scroll_of(
            line_count(shown_text(self.query_result, self.last_successful_result)),
            self.results_viewport_height,
        )
    }

    /// A session over the document `json_input`: the query is empty, the
    /// result is the document itself, keys are typed into the query.
    pub fn new(json_input: String) -> (app: App)
        ensures
            app.json_input == json_input,
            buffer_lines(app.textarea) == seq![Seq::<char>::empty()],
            buffer_cursor(app.textarea) == (0nat, 0nat),
            buffer_anchor(app.textarea) is None,
            app.query_result == Ok::<String, String>(json_input),
            app.last_successful_result == Some(json_input),
            !app.should_quit,
            app.focus == Focus::InputField,
            app.editor_mode == EditorMode::Insert,
            app.output_mode is None,
            app.results_scroll == 0,
            app.results_viewport_height == 0,
            app.autocomplete.entries().len() == 0,
            app.json_analyzer.document() == crate::autocomplete::json_analyzer::parsed_json(
                json_input@,
            ),
    {
        let mut json_analyzer = JsonAnalyzer::new();
        let _ = json_analyzer.analyze(json_input.as_str());
        App {
            query_result: Ok(json_input.clone()),
            last_successful_result: Some(json_input.clone()),
            json_input,
            textarea: new_buffer(),
            should_quit: false,
            focus: Focus::InputField,
            editor_mode: EditorMode::Insert,
            output_mode: None,
            results_scroll: 0,
            results_viewport_height: 0,
            autocomplete: AutocompleteState::new(),
            json_analyzer,
        }
    }

    /// Whether the session is over.
    pub fn should_quit(&self) -> (b: bool)
        ensures
            b == self.should_quit,
    {
        self.should_quit
    }

    /// What is to be printed once the session is over.
    pub fn output_mode(&self) -> (mode: Option<OutputMode>)
        ensures
            mode == self.output_mode,
    {
        self.output_mode
    }

    /// The query as it stands.
    pub fn query(&self) -> (text: String)
        ensures
            text@ == self.query_text(),
    {
        let mut lines = buffer_text(&self.textarea);
        if lines.len() > 0 {
            lines.swap_remove(0)
        } else {
            String::new()
        }
    }

    /// The greatest scroll offset for what the results pane shows.
    pub fn max_scroll(&self) -> (max: usize)
        ensures
            max == self.max_scroll_spec(),
    {
        let lines = match &self.query_result {
            Ok(text) => count_lines(text.as_str()),
            Err(_) => match &self.last_successful_result {
                Some(text) => count_lines(text.as_str()),
                None => {
                    assert(line_count(Seq::<char>::empty()) == 0);
                    0
                },
            },
        };
        if lines > self.results_viewport_height {
            lines - self.results_viewport_height
        } else {
            0
        }
    }

    /// Takes the result of the query that was last asked for: it is shown,
    /// and kept as the last good result where it is one.
    pub fn set_query_result(&mut self, result: Result<String, String>)
        ensures
            *final(self) == (App {
                query_result: result,
                last_successful_result: match result {
                    Ok(text) => Some(text),
                    Err(_) => old(self).last_successful_result,
                },
                ..*old(self)
            }),
    {
        match &result {
            Ok(text) => {
                self.last_successful_result = Some(text.clone());
            },
            Err(_) => {},
        }
        self.query_result = result;
    }

    /// Takes the height of the results pane and brings the scroll offset back
    /// within what is shown.
    pub fn set_viewport_height(&mut self, height: usize)
        ensures
            final(self).results_viewport_height == height,
            final(self).results_scroll <= final(self).max_scroll_spec(),
            final(self).results_scroll == clamped_scroll(
                old(self).results_scroll,
                final(self).max_scroll_spec(),
            ),
            *final(self) == (App {
                results_viewport_height: height,
                results_scroll: final(self).results_scroll,
                ..*old(self)
            }),
    {
        self.results_viewport_height = height;
        let max = self.max_scroll();
        if self.results_scroll > max {
            self.results_scroll = max;
        }
    }
}

} // verus!
