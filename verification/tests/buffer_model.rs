use jiq::app::keys::{KeyCode, KeyEvent, KeyModifiers};
use jiq::app::state::App;
use jiq::editor::EditorMode;

/// A line, the column of the cursor and the column at which the selection
/// began, handled as the keys of Normal mode are meant to handle them.
#[derive(Debug, Clone)]
struct Line {
    text: Vec<char>,
    col: usize,
    anchor: Option<usize>,
}

impl Line {
    fn selection(&self) -> Option<(usize, usize)> {
        match self.anchor {
            Some(a) if a < self.col => Some((a, self.col)),
            Some(a) if self.col < a => Some((self.col, a)),
            _ => None,
        }
    }

    fn without(&mut self, from: usize, to: usize) {
        self.text.drain(from..to);
        self.col = from;
        self.anchor = None;
    }

    fn delete(&mut self, from: usize, to: usize) {
        match self.selection() {
            Some((a, b)) => self.without(a, b),
            None => self.without(from, to),
        }
    }

    fn text(&self) -> String {
        self.text.iter().collect()
    }
}

struct Random(u64);

impl Random {
    fn next(&mut self, bound: usize) -> usize {
        self.0 = self.0.wrapping_mul(6364136223846793005).wrapping_add(1442695040888963407);
        ((self.0 >> 33) as usize) % bound
    }
}

fn press(app: &mut App, c: char) {
    app.handle_key_event(KeyEvent::new(KeyCode::Char(c), KeyModifiers::empty()));
}

fn check(app: &App, line: &Line, step: &str) {
    assert_eq!(app.textarea.lines(), vec![line.text()], "lines after {}", step);
    assert_eq!(app.textarea.cursor(), (0, line.col), "cursor after {}", step);
}

#[test]
fn test_keys_of_normal_mode_against_a_line() {
    let pieces = ["", ".", ".name", " | ", "map(", "é", ".né.x", "a b  c", "[]", "世界", ")"];
    let mut random = Random(7);
    for round in 0..300 {
        let mut app = App::new("{}".to_string());
        app.editor_mode = EditorMode::Normal;
        let mut line = Line { text: Vec::new(), col: 0, anchor: None };
        for _ in 0..40 {
            let len = line.text.len();
            let col = line.col;
            let step;
            match random.next(13) {
                0 => {
                    let piece = pieces[random.next(pieces.len())];
                    step = format!("insert {:?}", piece);
                    app.textarea.insert_str(piece);
                    if let Some((a, b)) = line.selection() {
                        line.without(a, b);
                    }
                    line.anchor = None;
                    let at = line.col;
                    for (i, c) in piece.chars().enumerate() {
                        line.text.insert(at + i, c);
                    }
                    line.col = at + piece.chars().count();
                }
                1 => {
                    step = "h".to_string();
                    press(&mut app, 'h');
                    line.col = col.saturating_sub(1);
                }
                2 => {
                    step = "l".to_string();
                    press(&mut app, 'l');
                    line.col = (col + 1).min(len);
                }
                3 => {
                    step = "0".to_string();
                    press(&mut app, '0');
                    line.col = 0;
                }
                4 => {
                    step = "$".to_string();
                    press(&mut app, '$');
                    line.col = len;
                }
                5 => {
                    step = "x".to_string();
                    press(&mut app, 'x');
                    line.delete(col, (col + 1).min(len));
                }
                6 => {
                    step = "X".to_string();
                    press(&mut app, 'X');
                    line.delete(col.saturating_sub(1), col);
                }
                7 => {
                    step = "D".to_string();
                    press(&mut app, 'D');
                    line.delete(col, len);
                }
                8 => {
                    step = "C".to_string();
                    press(&mut app, 'C');
                    line.delete(col, len);
                    assert_eq!(app.editor_mode, EditorMode::Insert);
                    app.editor_mode = EditorMode::Normal;
                }
                9 => {
                    // an operator and a motion by a character or to an end
                    let operator = ['d', 'c'][random.next(2)];
                    let motion = ['h', 'l', '0', '$'][random.next(4)];
                    step = format!("{}{}", operator, motion);
                    press(&mut app, operator);
                    press(&mut app, motion);
                    line.anchor = Some(col);
                    line.col = match motion {
                        'h' => col.saturating_sub(1),
                        'l' => (col + 1).min(len),
                        '0' => 0,
                        _ => len,
                    };
                    match line.selection() {
                        Some((a, b)) => line.without(a, b),
                        None => line.anchor = None,
                    }
                    app.editor_mode = EditorMode::Normal;
                }
                10 => {
                    // an operator typed twice
                    let operator = ['d', 'c'][random.next(2)];
                    step = format!("{}{}", operator, operator);
                    press(&mut app, operator);
                    press(&mut app, operator);
                    line.text.clear();
                    line.col = 0;
                    line.anchor = None;
                    app.editor_mode = EditorMode::Normal;
                }
                11 => {
                    // an operator that is given up
                    step = "dz".to_string();
                    press(&mut app, 'd');
                    press(&mut app, 'z');
                    line.anchor = None;
                }
                _ => {
                    // a selection is begun and left open: the next keys meet it
                    step = "d, left open".to_string();
                    press(&mut app, 'd');
                    app.editor_mode = EditorMode::Normal;
                    line.anchor = Some(col);
                }
            }
            check(&app, &line, &format!("{} in round {}", step, round));
        }
    }
}

#[test]
fn test_moves_by_a_word_stay_in_the_line() {
    let lines = [".name.first", "map(.a) | select(.b)", "  a  ", "", "x", "a.b c-d", "é è"];
    for text in lines {
        let len = text.chars().count();
        for col in 0..=len {
            for key in ['w', 'b', 'e'] {
                let mut app = App::new("{}".to_string());
                app.textarea.insert_str(text);
                app.editor_mode = EditorMode::Normal;
                press(&mut app, '0');
                for _ in 0..col {
                    press(&mut app, 'l');
                }
                press(&mut app, key);
                let (row, after) = app.textarea.cursor();
                assert_eq!(row, 0);
                assert_eq!(app.textarea.lines(), vec![text.to_string()]);
                if key == 'b' {
                    assert!(after <= col, "{:?} {} {}", text, col, key);
                } else {
                    assert!(col <= after && after <= len, "{:?} {} {}", text, col, key);
                }
            }
        }
    }
}

#[test]
fn test_operators_with_moves_by_a_word_cut_one_range() {
    let lines = [".name.first", "map(.a) | select(.b)", "  a  ", "x", "a.b c-d", "é è"];
    for text in lines {
        let chars: Vec<char> = text.chars().collect();
        let len = chars.len();
        for col in 0..=len {
            for key in ['w', 'b', 'e'] {
                let mut app = App::new("{}".to_string());
                app.textarea.insert_str(text);
                app.editor_mode = EditorMode::Normal;
                press(&mut app, '0');
                for _ in 0..col {
                    press(&mut app, 'l');
                }
                press(&mut app, 'd');
                press(&mut app, key);
                let left: String = app.query();
                let (_, cursor) = app.textarea.cursor();
                let cut = len - left.chars().count();
                // what is left is the line without one range that begins or ends
                // at the place of the cursor
                let (from, to) = if key == 'b' { (col - cut, col) } else { (col, col + cut) };
                let expected: String =
                    chars[..from].iter().chain(chars[to..].iter()).collect();
                assert_eq!(left, expected, "{:?} {} {}", text, col, key);
                assert_eq!(cursor, from);
                assert_eq!(app.editor_mode, EditorMode::Normal);
            }
        }
    }
}
