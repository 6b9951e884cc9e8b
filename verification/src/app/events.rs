use crate::app::keys::{plain_key, KeyCode, KeyEvent};
use crate::app::state::{first_line, Action, App, Focus, OutputMode};
use crate::autocomplete::context::is_suggested;
use crate::autocomplete::state::{next_selection, previous_selection, views_of};
use crate::buffer::{
    applied, arrow_key, buffer_cursor, buffer_lines, buffer_position, cancel_selection, char_key,
    cut, delete_char, delete_line_by_end, delete_line_by_head, delete_next_char, edit_key, input,
    insert_str, is_one_piece, key_view, line_state, move_cursor, redo, start_selection, undo,
    ArrowKey, Buffer, BufferOp, EditKey, KeyView, LineState, Motion,
};
use crate::editor::EditorMode;
use tui_textarea::Key;
use vstd::prelude::*;

verus! {

/// What a key does to the buffer and to the mode, and whether the query is to
/// be run again.
pub struct Plan {
    /// The operations on the buffer, in order.
    pub ops: Seq<BufferOp>,
    /// The mode to enter, `None` to stay.
    pub mode: Option<EditorMode>,
    /// Whether the query is run again.
    pub execute: bool,
}

/// A plan that moves the cursor.
pub open spec fn motion_plan(motion: Motion) -> Plan {
    Plan { ops: seq![BufferOp::Move(motion)], mode: None, execute: false }
}

/// A plan that enters Insert mode after `ops`.
pub open spec fn insert_plan(ops: Seq<BufferOp>) -> Plan {
    Plan { ops, mode: Some(EditorMode::Insert), execute: false }
}

/// A plan that edits and has the query run again.
pub open spec fn edit_plan(op: BufferOp) -> Plan {
    Plan { ops: seq![op], mode: None, execute: true }
}

/// A plan that does nothing.
pub open spec fn no_plan() -> Plan {
    Plan { ops: Seq::<BufferOp>::empty(), mode: None, execute: false }
}

/// What a key does in Normal mode.
pub open spec fn normal_plan(key: KeyEvent) -> Plan {
    match key.code {
        KeyCode::Char('h') | KeyCode::Left => motion_plan(Motion::Back),
        KeyCode::Char('l') | KeyCode::Right => motion_plan(Motion::Forward),
        KeyCode::Char('0') | KeyCode::Home => motion_plan(Motion::Head),
        KeyCode::Char('$') | KeyCode::End => motion_plan(Motion::End),
        KeyCode::Char('w') => motion_plan(Motion::WordForward),
        KeyCode::Char('b') => motion_plan(Motion::WordBack),
        KeyCode::Char('e') => motion_plan(Motion::WordEnd),
        KeyCode::Char('i') => insert_plan(Seq::<BufferOp>::empty()),
        KeyCode::Char('a') => insert_plan(seq![BufferOp::Move(Motion::Forward)]),
        KeyCode::Char('I') => insert_plan(seq![BufferOp::Move(Motion::Head)]),
        KeyCode::Char('A') => insert_plan(seq![BufferOp::Move(Motion::End)]),
        KeyCode::Char('x') => edit_plan(BufferOp::DeleteNext),
        KeyCode::Char('X') => edit_plan(BufferOp::DeletePrevious),
        KeyCode::Char('D') => edit_plan(BufferOp::DeleteToEnd),
        KeyCode::Char('C') => Plan {
            ops: seq![BufferOp::DeleteToEnd, BufferOp::CancelSelection],
            mode: Some(EditorMode::Insert),
            execute: true,
        },
        KeyCode::Char('d') => Plan {
            ops: seq![BufferOp::StartSelection],
            mode: Some(EditorMode::Operator('d')),
            execute: false,
        },
        KeyCode::Char('c') => Plan {
            ops: seq![BufferOp::StartSelection],
            mode: Some(EditorMode::Operator('c')),
            execute: false,
        },
        KeyCode::Char('u') => edit_plan(BufferOp::Undo),
        KeyCode::Char('r') => if key.modifiers.control {
            edit_plan(BufferOp::Redo)
        } else {
            no_plan()
        },
        _ => no_plan(),
    }
}

/// The motion that a key stands for behind an operator, and whether the
/// cursor goes one character further to take in the one under it.
pub open spec fn motion_of(code: KeyCode) -> Option<(Motion, bool)> {
    match code {
        KeyCode::Char('w') => Some((Motion::WordForward, false)),
        KeyCode::Char('b') => Some((Motion::WordBack, false)),
        KeyCode::Char('e') => Some((Motion::WordEnd, true)),
        KeyCode::Char('0') | KeyCode::Home => Some((Motion::Head, false)),
        KeyCode::Char('$') | KeyCode::End => Some((Motion::End, false)),
        KeyCode::Char('h') | KeyCode::Left => Some((Motion::Back, false)),
        KeyCode::Char('l') | KeyCode::Right => Some((Motion::Forward, false)),
        _ => None,
    }
}

/// What an operator does with what its motion selected: `d` and `c` cut
/// it, anything else lets it go.
pub open spec fn operator_op(operator: char) -> BufferOp {
    if operator == 'd' || operator == 'c' {
        BufferOp::Cut
    } else {
        BufferOp::CancelSelection
    }
}

/// The mode that follows an operator: Insert after `c`, Normal otherwise.
pub open spec fn mode_after(operator: char) -> EditorMode {
    if operator == 'c' {
        EditorMode::Insert
    } else {
        EditorMode::Normal
    }
}

/// What a key does while `operator` waits for its motion.
pub open spec fn operator_plan(operator: char, key: KeyEvent) -> Plan {
    if key.code == KeyCode::Char(operator) {
        Plan {
            ops: seq![BufferOp::DeleteToHead, BufferOp::DeleteToEnd],
            mode: Some(mode_after(operator)),
            execute: true,
        }
    } else {
        match motion_of(key.code) {
            Some((motion, further)) => Plan {
                ops: if further {
                    seq![BufferOp::Move(motion), BufferOp::Move(Motion::Forward), operator_op(
                        operator,
                    )]
                } else {
                    seq![BufferOp::Move(motion), operator_op(operator)]
                },
                mode: Some(mode_after(operator)),
                execute: true,
            },
            None => Plan {
                ops: seq![BufferOp::CancelSelection],
                mode: Some(EditorMode::Normal),
                execute: false,
            },
        }
    }
}

/// Whether `after` can be the buffer that the operations make of `before`,
/// one after the other.
pub open spec fn ops_applied(before: Buffer, ops: Seq<BufferOp>, after: Buffer) -> bool {
    if ops.len() == 0 {
        after == before
    } else if ops.len() == 1 {
        applied(before, ops[0], after)
    } else if ops.len() == 2 {
        exists|mid: Buffer| #[trigger] applied(before, ops[0], mid) && applied(mid, ops[1], after)
    } else if ops.len() == 3 {
        exists|first: Buffer, second: Buffer|
            #[trigger] applied(before, ops[0], first) && #[trigger] applied(first, ops[1], second)
                && applied(second, ops[2], after)
    } else {
        exists|first: Buffer, second: Buffer, third: Buffer|
            #[trigger] applied(before, ops[0], first) && #[trigger] applied(first, ops[1], second)
                && #[trigger] applied(second, ops[2], third) && applied(third, ops[3], after)
    }
}

/// Whether `action` asks for `query` to be run where `execute` holds, and
/// for nothing where it does not.
pub open spec fn asks(action: Action, execute: bool, query: Seq<char>) -> bool {
    match action {
        Action::Execute(q) => execute && q@ == query,
        Action::Idle => !execute,
    }
}

/// The parts of a session that no key of the input field changes: the
/// document and what was found in it, the results, the focus, the height of
/// the results pane, and whether and how the session ends.
pub open spec fn rest_kept(pre: App, post: App) -> bool {
    &&& post.json_input == pre.json_input
    &&& post.query_result == pre.query_result
    &&& post.last_successful_result == pre.last_successful_result
    &&& post.should_quit == pre.should_quit
    &&& post.focus == pre.focus
    &&& post.output_mode == pre.output_mode
    &&& post.results_viewport_height == pre.results_viewport_height
    &&& post.json_analyzer == pre.json_analyzer
}

/// Whether `post` and `action` are what `plan` makes of `pre`: the buffer
/// has gone through the plan's operations, the mode is the plan's, and where
/// the plan has the query run again the results are scrolled back to the top
/// and the action carries the query as it then stands.
pub open spec fn plan_done(pre: App, plan: Plan, post: App, action: Action) -> bool {
    &&& ops_applied(pre.textarea, plan.ops, post.textarea)
    &&& post.editor_mode == match plan.mode {
        Some(mode) => mode,
        None => pre.editor_mode,
    }
    &&& post.results_scroll == if plan.execute {
        0
    } else {
        pre.results_scroll
    }
    &&& asks(action, plan.execute, post.query_text())
    &&& post.autocomplete == pre.autocomplete
    &&& rest_kept(pre, post)
}

/// The sum that stops at the greatest `usize`.
pub open spec fn saturating_sum(a: usize, b: usize) -> usize {
    if a + b > usize::MAX {
        usize::MAX
    } else {
        (a + b) as usize
    }
}

/// The difference that stops at 0.
pub open spec fn saturating_difference(a: usize, b: usize) -> usize {
    if a < b {
        0
    } else {
        (a - b) as usize
    }
}

/// The scroll offset after a key in the results pane.
pub open spec fn scroll_after(key: KeyEvent, scroll: usize, viewport_height: usize, max: nat) -> usize {
    let half = (viewport_height / 2) as usize;
    match key.code {
        KeyCode::Up | KeyCode::Char('k') => saturating_difference(scroll, 1),
        KeyCode::Down | KeyCode::Char('j') => saturating_sum(scroll, 1),
        KeyCode::Char('K') => saturating_difference(scroll, 10),
        KeyCode::Char('J') => saturating_sum(scroll, 10),
        KeyCode::Home | KeyCode::Char('g') => 0,
        KeyCode::Char('G') => max as usize,
        KeyCode::PageUp => saturating_difference(scroll, half),
        KeyCode::PageDown => saturating_sum(scroll, half),
        KeyCode::Char('u') => if key.modifiers.control {
            saturating_difference(scroll, half)
        } else {
            scroll
        },
        KeyCode::Char('d') => if key.modifiers.control {
            saturating_sum(scroll, half)
        } else {
            scroll
        },
        _ => scroll,
    }
}

/// What a key does whatever has the focus.
pub enum GlobalCommand {
    /// The session ends, and nothing is printed.
    Quit,
    /// The session ends, and the query or the result is printed.
    QuitWith(OutputMode),
    /// The focus goes to the other pane.
    ToggleFocus,
    /// The selected suggestion replaces the query.
    Accept,
}

/// The command that a key stands for in any state, `None` where the key is
/// left to the pane that has the focus. The rules are tried in this order.
pub open spec fn global_command(
    key: KeyEvent,
    focus: Focus,
    mode: EditorMode,
    suggesting: bool,
) -> Option<GlobalCommand> {
    if key.code == KeyCode::Char('c') && key.modifiers.control {
        Some(GlobalCommand::Quit)
    } else if key.code == KeyCode::Tab && !key.modifiers.control {
        if focus == Focus::InputField && suggesting {
            Some(GlobalCommand::Accept)
        } else {
            None
        }
    } else if key.code == KeyCode::BackTab {
        Some(GlobalCommand::ToggleFocus)
    } else if key.code == KeyCode::Char('q') && mode != EditorMode::Insert {
        Some(GlobalCommand::Quit)
    } else if key.code == KeyCode::Enter {
        if key.modifiers.shift || key.modifiers.alt {
            Some(GlobalCommand::QuitWith(OutputMode::Query))
        } else {
            Some(GlobalCommand::QuitWith(OutputMode::Results))
        }
    } else {
        None
    }
}

/// The other pane.
pub open spec fn other_focus(focus: Focus) -> Focus {
    match focus {
        Focus::InputField => Focus::ResultsPane,
        Focus::ResultsPane => Focus::InputField,
    }
}

/// Whether `post` and `action` are what accepting the selected suggestion
/// makes of `pre`: the selection is given up, the line emptied and the
/// suggestion's text put in,
/// the suggestions are gone, and the query is to be run again.
pub open spec fn accept_done(pre: App, post: App, action: Action) -> bool {
    match pre.autocomplete.selection() {
        Some(i) => {
            &&& ops_applied(
                pre.textarea,
                seq![
                    BufferOp::CancelSelection,
                    BufferOp::DeleteToHead,
                    BufferOp::DeleteToEnd,
                    BufferOp::Insert(pre.autocomplete.entries()[i as int].text@),
                ],
                post.textarea,
            )
            &&& post.autocomplete.wf()
            &&& post.autocomplete.entries().len() == 0
            &&& post.editor_mode == pre.editor_mode
            &&& post.results_scroll == 0
            &&& asks(action, true, post.query_text())
            &&& rest_kept(pre, post)
        },
        None => post == pre && action is Idle,
    }
}

/// Whether `post` and `action` are what a global command makes of `pre`.
pub open spec fn global_done(pre: App, command: GlobalCommand, post: App, action: Action) -> bool {
    match command {
        GlobalCommand::Quit => post == (App { should_quit: true, ..pre }) && action is Idle,
        GlobalCommand::QuitWith(mode) => post == (App {
            should_quit: true,
            output_mode: Some(mode),
            ..pre
        }) && action is Idle,
        GlobalCommand::ToggleFocus => post == (App { focus: other_focus(pre.focus), ..pre })
            && action is Idle,
        GlobalCommand::Accept => accept_done(pre, post, action),
    }
}

/// Whether the suggestions of `app` are those for its query and cursor, the
/// first of them selected.
pub open spec fn refreshed(app: App) -> bool {
    &&& app.autocomplete.wf()
    &&& is_suggested(
        views_of(app.autocomplete.entries()),
        app.query_text(),
        buffer_cursor(app.textarea).1,
        app.json_analyzer.document(),
    )
    &&& app.autocomplete.selection() == if app.autocomplete.entries().len() > 0 {
        Some(0usize)
    } else {
        None
    }
}

/// Whether `post` and `action` are what a key that was typed into the
/// buffer makes of `pre`, where the buffer has become `typed` and tells
/// that its text `changed`:
/// a change scrolls the results back and has the query run again, once; and
/// the suggestions are made anew in any case.
pub open spec fn typed_done(
    pre: App,
    typed: Buffer,
    changed: bool,
    post: App,
    action: Action,
) -> bool {
    &&& post.textarea == typed
    &&& post.editor_mode == pre.editor_mode
    &&& post.results_scroll == if changed {
        0
    } else {
        pre.results_scroll
    }
    &&& asks(action, changed, post.query_text())
    &&& refreshed(post)
    &&& rest_kept(pre, post)
}

/// Whether `post` and `action` are what a key makes of `pre` in Insert
/// mode.
pub open spec fn insert_done(pre: App, key: KeyEvent, post: App, action: Action) -> bool {
    let suggesting = pre.autocomplete.shown();
    if key.code == KeyCode::Esc {
        if suggesting {
            &&& post == (App { autocomplete: post.autocomplete, ..pre })
            &&& post.autocomplete.wf()
            &&& post.autocomplete.entries().len() == 0
            &&& action is Idle
        } else {
            post == (App { editor_mode: EditorMode::Normal, ..pre }) && action is Idle
        }
    } else if suggesting && (key.code == KeyCode::Down || key.code == KeyCode::Up) {
        &&& post == (App { autocomplete: post.autocomplete, ..pre })
        &&& post.autocomplete.wf()
        &&& post.autocomplete.entries() == pre.autocomplete.entries()
        &&& post.autocomplete.selection() == if key.code == KeyCode::Down {
            next_selection(pre.autocomplete.selection(), pre.autocomplete.entries().len())
        } else {
            previous_selection(pre.autocomplete.selection(), pre.autocomplete.entries().len())
        }
        &&& action is Idle
    } else {
        exists|typed: Buffer, changed: bool| #[trigger] typed_done(pre, typed, changed, post, action)
    }
}

/// Whether `post` and `action` are what a key makes of `pre` while the
/// input field has the focus.
pub open spec fn input_field_done(pre: App, key: KeyEvent, post: App, action: Action) -> bool {
    match pre.editor_mode {
        EditorMode::Insert => insert_done(pre, key, post, action),
        EditorMode::Normal => plan_done(pre, normal_plan(key), post, action),
        EditorMode::Operator(operator) => plan_done(
            pre,
            operator_plan(operator, key),
            post,
            action,
        ),
    }
}

/// Whether `post` and `action` are what a key makes of `pre` while the
/// results pane has the focus: the offset alone changes.
pub open spec fn results_done(pre: App, key: KeyEvent, post: App, action: Action) -> bool {
    &&& post == (App {
        results_scroll: scroll_after(
            key,
            pre.results_scroll,
            pre.results_viewport_height,
            pre.max_scroll_spec(),
        ),
        ..pre
    })
    &&& action is Idle
}

/// Whether `post` and `action` are what the key press makes of `pre`: the
/// global commands come first, then the pane that has the focus.
pub open spec fn key_step(pre: App, key: KeyEvent, post: App, action: Action) -> bool {
    match global_command(key, pre.focus, pre.editor_mode, pre.autocomplete.shown()) {
        Some(command) => global_done(pre, command, post, action),
        None => match pre.focus {
            Focus::InputField => input_field_done(pre, key, post, action),
            Focus::ResultsPane => results_done(pre, key, post, action),
        },
    }
}

/// What the key that is handed to the text area stands for: the key that
/// was pressed, and the key that stands for none where the text area has no
/// key for it.
pub open spec fn forwarded_key(code: KeyCode) -> KeyView {
    match code {
        KeyCode::Char(c) => KeyView::Char(c),
        KeyCode::Backspace => KeyView::Edit(EditKey::Backspace),
        KeyCode::Delete => KeyView::Edit(EditKey::Delete),
        KeyCode::Tab => KeyView::Edit(EditKey::Tab),
        KeyCode::Enter => KeyView::Edit(EditKey::Enter),
        KeyCode::Esc => KeyView::Edit(EditKey::Esc),
        KeyCode::Left => KeyView::Arrow(ArrowKey::Left),
        KeyCode::Right => KeyView::Arrow(ArrowKey::Right),
        KeyCode::Up => KeyView::Arrow(ArrowKey::Up),
        KeyCode::Down => KeyView::Arrow(ArrowKey::Down),
        KeyCode::Home => KeyView::Arrow(ArrowKey::Home),
        KeyCode::End => KeyView::Arrow(ArrowKey::End),
        KeyCode::PageUp => KeyView::Arrow(ArrowKey::PageUp),
        KeyCode::PageDown => KeyView::Arrow(ArrowKey::PageDown),
        KeyCode::BackTab | KeyCode::Other => KeyView::Edit(EditKey::Null),
    }
}

/// The key of the text area that stands for `code`.
fn buffer_key(code: KeyCode) -> (key: Key)
    ensures
        key_view(key) == forwarded_key(code),
{
    match code {
        KeyCode::Char(c) => char_key(c),
        KeyCode::Backspace => edit_key(EditKey::Backspace),
        KeyCode::Delete => edit_key(EditKey::Delete),
        KeyCode::Tab => edit_key(EditKey::Tab),
        KeyCode::Enter => edit_key(EditKey::Enter),
        KeyCode::Esc => edit_key(EditKey::Esc),
        KeyCode::Left => arrow_key(ArrowKey::Left),
        KeyCode::Right => arrow_key(ArrowKey::Right),
        KeyCode::Up => arrow_key(ArrowKey::Up),
        KeyCode::Down => arrow_key(ArrowKey::Down),
        KeyCode::Home => arrow_key(ArrowKey::Home),
        KeyCode::End => arrow_key(ArrowKey::End),
        KeyCode::PageUp => arrow_key(ArrowKey::PageUp),
        KeyCode::PageDown => arrow_key(ArrowKey::PageDown),
        KeyCode::BackTab | KeyCode::Other => edit_key(EditKey::Null),
    }
}

/// The motion that `code` stands for behind an operator.
pub fn operator_motion(code: KeyCode) -> (r: Option<(Motion, bool)>)
    ensures
        r == motion_of(code),
{
    match code {
        KeyCode::Char('w') => Some((Motion::WordForward, false)),
        KeyCode::Char('b') => Some((Motion::WordBack, false)),
        KeyCode::Char('e') => Some((Motion::WordEnd, true)),
        KeyCode::Char('0') | KeyCode::Home => Some((Motion::Head, false)),
        KeyCode::Char('$') | KeyCode::End => Some((Motion::End, false)),
        KeyCode::Char('h') | KeyCode::Left => Some((Motion::Back, false)),
        KeyCode::Char('l') | KeyCode::Right => Some((Motion::Forward, false)),
        _ => None,
    }
}

impl App {
    /// Takes a key press: changes the session as `key_step` says and tells
    /// what the caller is to do.
    pub fn handle_key_event(&mut self, key: KeyEvent) -> (action: Action)
        ensures
            key_step(*old(self), key, *final(self), action),
    {
        match self.handle_global_keys(key) {
            Some(action) => action,
            None => match self.focus {
                Focus::InputField => self.handle_input_field_key(key),
                Focus::ResultsPane => self.handle_results_pane_key(key),
            },
        }
    }

    /// Takes the keys that mean the same whatever has the focus; `None`
    /// where `key` is none of them.
    pub fn handle_global_keys(&mut self, key: KeyEvent) -> (handled: Option<Action>)
        ensures
            match global_command(
                key,
                old(self).focus,
                old(self).editor_mode,
                old(self).autocomplete.shown(),
            ) {
                Some(command) => handled matches Some(action) && global_done(
                    *old(self),
                    command,
                    *final(self),
                    action,
                ),
                None => handled is None && *final(self) == *old(self),
            },
    {
        if key.code == KeyCode::Char('c') && key.modifiers.control {
            self.should_quit = true;
            return Some(Action::Idle);
        }
        if key.code == KeyCode::Tab && !key.modifiers.control {
            if self.focus == Focus::InputField && self.autocomplete.is_visible() {
                return Some(self.accept_suggestion());
            }
            return None;
        }
        if key.code == KeyCode::BackTab {
            self.focus =
            match self.focus {
                Focus::InputField => Focus::ResultsPane,
                Focus::ResultsPane => Focus::InputField,
            };
            return Some(Action::Idle);
        }
        if key.code == KeyCode::Char('q') && self.editor_mode != EditorMode::Insert {
            self.should_quit = true;
            return Some(Action::Idle);
        }
        if key.code == KeyCode::Enter {
            if key.modifiers.shift || key.modifiers.alt {
                self.output_mode = Some(OutputMode::Query);
            } else {
                self.output_mode = Some(OutputMode::Results);
            }
            self.should_quit = true;
            return Some(Action::Idle);
        }
        None
    }

    /// Puts the selected suggestion in the place of the query.
    pub fn accept_suggestion(&mut self) -> (action: Action)
        ensures
            accept_done(*old(self), *final(self), action),
    {
        let text = match self.autocomplete.selected() {
            Some(suggestion) => suggestion.text.clone(),
            None => {
                return Action::Idle;
            },
        };
        let ghost start = self.textarea;
        cancel_selection(&mut self.textarea);
        let ghost first = self.textarea;
        delete_line_by_head(&mut self.textarea);
        let ghost second = self.textarea;
        delete_line_by_end(&mut self.textarea);
        let ghost third = self.textarea;
        insert_str(&mut self.textarea, text.as_str());
        proof {
            let ops = seq![
                BufferOp::CancelSelection,
                BufferOp::DeleteToHead,
                BufferOp::DeleteToEnd,
                BufferOp::Insert(text@),
            ];
            assert(applied(start, ops[0], first) && applied(first, ops[1], second) && applied(
                second,
                ops[2],
                third,
            ) && applied(third, ops[3], self.textarea));
        }
        self.autocomplete.close();
        self.execute_query()
    }

    /// Takes a key while the input field has the focus.
    pub fn handle_input_field_key(&mut self, key: KeyEvent) -> (action: Action)
        ensures
            input_field_done(*old(self), key, *final(self), action),
    {
        match self.editor_mode {
            EditorMode::Insert => {
                if key.code == KeyCode::Esc {
                    if self.autocomplete.is_visible() {
                        self.autocomplete.close();
                    } else {
                        self.editor_mode = EditorMode::Normal;
                    }
                    return Action::Idle;
                }
                if self.autocomplete.is_visible() {
                    if key.code == KeyCode::Down {
                        self.autocomplete.select_next();
                        return Action::Idle;
                    }
                    if key.code == KeyCode::Up {
                        self.autocomplete.select_previous();
                        return Action::Idle;
                    }
                }
                self.handle_insert_mode_key(key)
            },
            EditorMode::Normal => self.handle_normal_mode_key(key),
            EditorMode::Operator(_) => self.handle_operator_mode_key(key),
        }
    }

    /// Types a key into the buffer.
    pub fn handle_insert_mode_key(&mut self, key: KeyEvent) -> (action: Action)
        ensures
            exists|typed: Buffer, changed: bool| #[trigger]
                typed_done(*old(self), typed, changed, *final(self), action),
    {
        let changed = input(
            &mut self.textarea,
            buffer_key(key.code),
            key.modifiers.control,
            key.modifiers.alt,
            key.modifiers.shift,
        );
        let ghost typed = self.textarea;
        let action = self.after_input(changed);
        assert(typed_done(*old(self), typed, changed, *self, action));
        action
    }

    /// What follows on a key that was typed into the buffer: where the text
    /// changed the results are scrolled back and the query is to be run
    /// again; the suggestions are made anew.
    pub fn after_input(&mut self, content_changed: bool) -> (action: Action)
        ensures
            typed_done(*old(self), old(self).textarea, content_changed, *final(self), action),
    {
        let action = if content_changed {
            self.execute_query()
        } else {
            Action::Idle
        };
        self.update_autocomplete();
        action
    }

    /// Makes the suggestions anew for the query and the cursor as they are.
    pub fn update_autocomplete(&mut self)
        ensures
            refreshed(*final(self)),
            *final(self) == (App { autocomplete: final(self).autocomplete, ..*old(self) }),
    {
        let query = self.query();
        let cursor = buffer_position(&self.textarea);
        self.autocomplete.refresh(query.as_str(), cursor.1, &self.json_analyzer);
    }

    /// Scrolls the results back to the top and asks for the query to be run.
    pub fn execute_query(&mut self) -> (action: Action)
        ensures
            *final(self) == (App { results_scroll: 0, ..*old(self) }),
            asks(action, true, old(self).query_text()),
    {
        self.results_scroll = 0;
        Action::Execute(self.query())
    }

    /// Takes a key in Normal mode.
    pub fn handle_normal_mode_key(&mut self, key: KeyEvent) -> (action: Action)
        ensures
            plan_done(*old(self), normal_plan(key), *final(self), action),
    {
        let mut execute = false;
        match key.code {
            KeyCode::Char('h') | KeyCode::Left => {
                move_cursor(&mut self.textarea, Motion::Back);
            },
            KeyCode::Char('l') | KeyCode::Right => {
                move_cursor(&mut self.textarea, Motion::Forward);
            },
            KeyCode::Char('0') | KeyCode::Home => {
                move_cursor(&mut self.textarea, Motion::Head);
            },
            KeyCode::Char('$') | KeyCode::End => {
                move_cursor(&mut self.textarea, Motion::End);
            },
            KeyCode::Char('w') => {
                move_cursor(&mut self.textarea, Motion::WordForward);
            },
            KeyCode::Char('b') => {
                move_cursor(&mut self.textarea, Motion::WordBack);
            },
            KeyCode::Char('e') => {
                move_cursor(&mut self.textarea, Motion::WordEnd);
            },
            KeyCode::Char('i') => {
                self.editor_mode = EditorMode::Insert;
            },
            KeyCode::Char('a') => {
                move_cursor(&mut self.textarea, Motion::Forward);
                self.editor_mode = EditorMode::Insert;
            },
            KeyCode::Char('I') => {
                move_cursor(&mut self.textarea, Motion::Head);
                self.editor_mode = EditorMode::Insert;
            },
            KeyCode::Char('A') => {
                move_cursor(&mut self.textarea, Motion::End);
                self.editor_mode = EditorMode::Insert;
            },
            KeyCode::Char('x') => {
                delete_next_char(&mut self.textarea);
                execute = true;
            },
            KeyCode::Char('X') => {
                delete_char(&mut self.textarea);
                execute = true;
            },
            KeyCode::Char('D') => {
                delete_line_by_end(&mut self.textarea);
                execute = true;
            },
            KeyCode::Char('C') => {
                delete_line_by_end(&mut self.textarea);
                let ghost mid = self.textarea;
                cancel_selection(&mut self.textarea);
                assert(applied(old(self).textarea, BufferOp::DeleteToEnd, mid) && applied(
                    mid,
                    BufferOp::CancelSelection,
                    self.textarea,
                ));
                self.editor_mode = EditorMode::Insert;
                execute = true;
            },
            KeyCode::Char('d') => {
                self.editor_mode = EditorMode::Operator('d');
                start_selection(&mut self.textarea);
            },
            KeyCode::Char('c') => {
                self.editor_mode = EditorMode::Operator('c');
                start_selection(&mut self.textarea);
            },
            KeyCode::Char('u') => {
                undo(&mut self.textarea);
                assert(applied(old(self).textarea, BufferOp::Undo, self.textarea));
                execute = true;
            },
            KeyCode::Char('r') => {
                if key.modifiers.control {
                    redo(&mut self.textarea);
                    assert(applied(old(self).textarea, BufferOp::Redo, self.textarea));
                    execute = true;
                }
            },
            _ => {},
        }
        if execute {
            self.execute_query()
        } else {
            Action::Idle
        }
    }

    /// Takes the key that follows an operator.
    pub fn handle_operator_mode_key(&mut self, key: KeyEvent) -> (action: Action)
        ensures
            match old(self).editor_mode {
                EditorMode::Operator(operator) => plan_done(
                    *old(self),
                    operator_plan(operator, key),
                    *final(self),
                    action,
                ),
                _ => *final(self) == *old(self) && action is Idle,
            },
    {
        let operator = match self.editor_mode {
            EditorMode::Operator(operator) => operator,
            _ => {
                return Action::Idle;
            },
        };
        let ghost start = self.textarea;
        if key.code == KeyCode::Char(operator) {
            delete_line_by_head(&mut self.textarea);
            let ghost mid = self.textarea;
            delete_line_by_end(&mut self.textarea);
            assert(applied(start, BufferOp::DeleteToHead, mid) && applied(
                mid,
                BufferOp::DeleteToEnd,
                self.textarea,
            ));
            self.editor_mode = if operator == 'c' {
                EditorMode::Insert
            } else {
                EditorMode::Normal
            };
            return self.execute_query();
        }
        match operator_motion(key.code) {
            Some((motion, further)) => {
                move_cursor(&mut self.textarea, motion);
                let ghost first = self.textarea;
                if further {
                    move_cursor(&mut self.textarea, Motion::Forward);
                }
                let ghost second = self.textarea;
                if operator == 'd' || operator == 'c' {
                    cut(&mut self.textarea);
                } else {
                    cancel_selection(&mut self.textarea);
                }
                proof {
                    let ops = operator_plan(operator, key).ops;
                    if further {
                        assert(applied(start, ops[0], first) && applied(first, ops[1], second)
                            && applied(second, ops[2], self.textarea));
                    } else {
                        assert(applied(start, ops[0], first) && applied(
                            first,
                            ops[1],
                            self.textarea,
                        ));
                    }
                }
                self.editor_mode = if operator == 'c' {
                    EditorMode::Insert
                } else {
                    EditorMode::Normal
                };
                self.execute_query()
            },
            None => {
                cancel_selection(&mut self.textarea);
                self.editor_mode = EditorMode::Normal;
                Action::Idle
            },
        }
    }

    /// Takes a key while the results pane has the focus.
    pub fn handle_results_pane_key(&mut self, key: KeyEvent) -> (action: Action)
        ensures
            results_done(*old(self), key, *final(self), action),
    {
        let half = self.results_viewport_height / 2;
        match key.code {
            KeyCode::Up | KeyCode::Char('k') => {
                self.results_scroll = self.results_scroll.saturating_sub(1);
            },
            KeyCode::Down | KeyCode::Char('j') => {
                self.results_scroll = self.results_scroll.saturating_add(1);
            },
            KeyCode::Char('K') => {
                self.results_scroll = self.results_scroll.saturating_sub(10);
            },
            KeyCode::Char('J') => {
                self.results_scroll = self.results_scroll.saturating_add(10);
            },
            KeyCode::Home | KeyCode::Char('g') => {
                self.results_scroll = 0;
            },
            KeyCode::Char('G') => {
                self.results_scroll = self.max_scroll();
            },
            KeyCode::PageUp => {
                self.results_scroll = self.results_scroll.saturating_sub(half);
            },
            KeyCode::PageDown => {
                self.results_scroll = self.results_scroll.saturating_add(half);
            },
            KeyCode::Char('u') => {
                if key.modifiers.control {
                    self.results_scroll = self.results_scroll.saturating_sub(half);
                }
            },
            KeyCode::Char('d') => {
                if key.modifiers.control {
                    self.results_scroll = self.results_scroll.saturating_add(half);
                }
            },
            _ => {},
        }
        Action::Idle
    }
}

/// In Normal mode an operator typed twice empties a buffer of one line,
/// wherever the cursor stands; Normal mode follows on `d`, Insert mode on
/// `c`, and the query is to be run again.
pub proof fn lemma_operator_twice_empties_line(
    start: App,
    between: App,
    end: App,
    operator: char,
    first: Action,
    second: Action,
)
    requires
        operator == 'd' || operator == 'c',
        start.focus == Focus::InputField,
        start.editor_mode == EditorMode::Normal,
        line_state(start.textarea) is Some,
        key_step(start, plain_key(KeyCode::Char(operator)), between, first),
        key_step(between, plain_key(KeyCode::Char(operator)), end, second),
    ensures
        line_state(end.textarea) == Some(
            LineState { text: Seq::<char>::empty(), col: 0, anchor: None },
        ),
        between.editor_mode == EditorMode::Operator(operator),
        end.editor_mode == mode_after(operator),
        end.results_scroll == 0,
        first is Idle,
        asks(second, true, Seq::<char>::empty()),
{
    let key = plain_key(KeyCode::Char(operator));
    let line = line_state(start.textarea)->0;
    assert(plan_done(start, normal_plan(key), between, first));
    assert(normal_plan(key).ops =~= seq![BufferOp::StartSelection]);
    assert(plan_done(between, operator_plan(operator, key), end, second));
    let ops = operator_plan(operator, key).ops;
    assert(ops =~= seq![BufferOp::DeleteToHead, BufferOp::DeleteToEnd]);
    let mid = choose|mid: Buffer| #[trigger]
        applied(between.textarea, ops[0], mid) && applied(mid, ops[1], end.textarea);
    let emptied = line_state(end.textarea)->0;
    assert(emptied.text =~= Seq::<char>::empty());
    assert(buffer_lines(end.textarea)[0] =~= Seq::<char>::empty());
}

/// In Normal mode `d` and then `$` cut a buffer of one line off at the
/// cursor, which stays where it is.
pub proof fn lemma_delete_to_line_end(
    start: App,
    between: App,
    end: App,
    first: Action,
    second: Action,
)
    requires
        start.focus == Focus::InputField,
        start.editor_mode == EditorMode::Normal,
        line_state(start.textarea) is Some,
        key_step(start, plain_key(KeyCode::Char('d')), between, first),
        key_step(between, plain_key(KeyCode::Char('$')), end, second),
    ensures
        line_state(end.textarea) == Some(
            LineState {
                text: line_state(start.textarea)->0.text.take(
                    line_state(start.textarea)->0.col as int,
                ),
                col: line_state(start.textarea)->0.col,
                anchor: None,
            },
        ),
        end.editor_mode == EditorMode::Normal,
        end.results_scroll == 0,
        second is Execute,
{
    let line = line_state(start.textarea)->0;
    assert(plan_done(start, normal_plan(plain_key(KeyCode::Char('d'))), between, first));
    let key = plain_key(KeyCode::Char('$'));
    assert(plan_done(between, operator_plan('d', key), end, second));
    let ops = operator_plan('d', key).ops;
    assert(ops =~= seq![BufferOp::Move(Motion::End), BufferOp::Cut]);
    let mid = choose|mid: Buffer| #[trigger]
        applied(between.textarea, ops[0], mid) && applied(mid, ops[1], end.textarea);
    let cut = line_state(end.textarea)->0;
    assert(cut.text =~= line.text.take(line.col as int));
}

/// An operator followed by a key that is neither the operator again nor a
/// motion is given up: the text stays, and so does the cursor of a buffer
/// of one line; the mode is Normal again and the query is not run.
pub proof fn lemma_unsupported_motion_cancels(
    start: App,
    between: App,
    end: App,
    operator: char,
    key: KeyEvent,
    first: Action,
    second: Action,
)
    requires
        operator == 'd' || operator == 'c',
        start.focus == Focus::InputField,
        start.editor_mode == EditorMode::Normal,
        key.code != KeyCode::Char(operator),
        motion_of(key.code) is None,
        global_command(
            key,
            Focus::InputField,
            EditorMode::Operator(operator),
            start.autocomplete.shown(),
        ) is None,
        key_step(start, plain_key(KeyCode::Char(operator)), between, first),
        key_step(between, key, end, second),
    ensures
        buffer_lines(end.textarea) == buffer_lines(start.textarea),
        line_state(start.textarea) matches Some(line) ==> line_state(end.textarea) == Some(
            line.unselected(),
        ),
        end.editor_mode == EditorMode::Normal,
        end.results_scroll == start.results_scroll,
        second is Idle,
{
    let begin = plain_key(KeyCode::Char(operator));
    assert(plan_done(start, normal_plan(begin), between, first));
    assert(normal_plan(begin).ops =~= seq![BufferOp::StartSelection]);
    assert(plan_done(between, operator_plan(operator, key), end, second));
    assert(operator_plan(operator, key).ops =~= seq![BufferOp::CancelSelection]);
}

/// The scroll offset never leaves the range of its type: a step up from the
/// top stays at the top; `G` goes to the greatest offset; a page key moves
/// by half the height of the pane, as far as the range allows.
pub proof fn lemma_scroll_steps(key: KeyEvent, scroll: usize, viewport_height: usize, max: nat)
    requires
        max <= usize::MAX,
    ensures
        0 <= scroll_after(key, scroll, viewport_height, max) <= usize::MAX,
        (key.code == KeyCode::Up || key.code == KeyCode::Char('k')) ==> scroll_after(
            key,
            scroll,
            viewport_height,
            max,
        ) == if scroll == 0 {
            0
        } else {
            scroll - 1
        },
        key.code == KeyCode::Char('G') ==> scroll_after(key, scroll, viewport_height, max) == max,
        (key.code == KeyCode::PageUp && scroll >= viewport_height / 2) ==> scroll_after(
            key,
            scroll,
            viewport_height,
            max,
        ) == scroll - viewport_height / 2,
        (key.code == KeyCode::PageUp && scroll < viewport_height / 2) ==> scroll_after(
            key,
            scroll,
            viewport_height,
            max,
        ) == 0,
        (key.code == KeyCode::PageDown && scroll + viewport_height / 2 <= usize::MAX)
            ==> scroll_after(key, scroll, viewport_height, max) == scroll + viewport_height / 2,
{
}

/// A key typed in Insert mode that changes the text scrolls the results
/// back to the top and asks for the query to be run, once; one that leaves
/// the text alone asks for nothing and leaves the offset.
pub proof fn lemma_typing_runs_query(
    pre: App,
    typed: Buffer,
    changed: bool,
    post: App,
    action: Action,
)
    requires
        typed_done(pre, typed, changed, post, action),
    ensures
        changed ==> post.results_scroll == 0 && (action matches Action::Execute(query) && query@
            == first_line(buffer_lines(typed))),
        !changed ==> post.results_scroll == pre.results_scroll && action is Idle,
        refreshed(post),
{
}

/// A key that reaches the buffer in Insert mode either has the query run
/// again, once, with the results scrolled back to the top, or asks for
/// nothing and leaves the offset; the suggestions are made anew either way.
pub proof fn lemma_typed_key(pre: App, key: KeyEvent, post: App, action: Action)
    requires
        pre.focus == Focus::InputField,
        pre.editor_mode == EditorMode::Insert,
        global_command(key, pre.focus, pre.editor_mode, pre.autocomplete.shown()) is None,
        key.code != KeyCode::Esc,
        !(pre.autocomplete.shown() && (key.code == KeyCode::Down || key.code == KeyCode::Up)),
        key_step(pre, key, post, action),
    ensures
        action matches Action::Execute(query) ==> post.results_scroll == 0 && query@
            == post.query_text(),
        action is Idle ==> post.results_scroll == pre.results_scroll,
        post.editor_mode == EditorMode::Insert,
        refreshed(post),
{
    let (typed, changed) = choose|typed: Buffer, changed: bool| #[trigger]
        typed_done(pre, typed, changed, post, action);
    lemma_typing_runs_query(pre, typed, changed, post, action);
}

/// Tab, while suggestions are shown and the input field has the focus, puts
/// the text of the selected suggestion in the place of a buffer of one line,
/// the cursor behind it; the suggestions are gone and the query is to be
/// run again.
pub proof fn lemma_accept_replaces_line(pre: App, post: App, action: Action)
    requires
        pre.focus == Focus::InputField,
        pre.autocomplete.wf(),
        pre.autocomplete.shown(),
        line_state(pre.textarea) is Some,
        is_one_piece(pre.autocomplete.entries()[pre.autocomplete.selection()->0 as int].text@),
        key_step(pre, plain_key(KeyCode::Tab), post, action),
    ensures
        line_state(post.textarea) == Some(
            LineState {
                text: pre.autocomplete.entries()[pre.autocomplete.selection()->0 as int].text@,
                col: pre.autocomplete.entries()[pre.autocomplete.selection()->0 as int].text@.len(),
                anchor: None,
            },
        ),
        post.autocomplete.entries().len() == 0,
        post.results_scroll == 0,
        asks(
            action,
            true,
            pre.autocomplete.entries()[pre.autocomplete.selection()->0 as int].text@,
        ),
{
    let text = pre.autocomplete.entries()[pre.autocomplete.selection()->0 as int].text@;
    assert(accept_done(pre, post, action));
    let ops = seq![
        BufferOp::CancelSelection,
        BufferOp::DeleteToHead,
        BufferOp::DeleteToEnd,
        BufferOp::Insert(text),
    ];
    let (first, second, third) = choose|first: Buffer, second: Buffer, third: Buffer|
        #[trigger] applied(pre.textarea, ops[0], first) && #[trigger] applied(
            first,
            ops[1],
            second,
        ) && #[trigger] applied(second, ops[2], third) && applied(third, ops[3], post.textarea);
    let emptied = line_state(third)->0;
    assert(emptied.text =~= Seq::<char>::empty());
    let filled = line_state(post.textarea)->0;
    assert(filled.text =~= text);
    assert(buffer_lines(post.textarea)[0] =~= text);
}

} // verus!
