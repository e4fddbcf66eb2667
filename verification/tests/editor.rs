use line_editor::model::Key;
use line_editor::position::{position_of, Position, Screen};
use line_editor::surface::Command;
use line_editor::terminal::Terminal;

/// A screen that keeps track of its cursor the way a terminal does.
struct Display {
    width: i64,
    x: i64,
    y: i64,
}

impl Display {
    fn new(width: i64) -> Display {
        Display { width, x: 0, y: 0 }
    }

    fn screen(&self) -> Screen {
        Screen { width: self.width, cursor: Position { x: self.x, y: self.y } }
    }

    fn perform(&mut self, commands: &[Command]) {
        for command in commands {
            match command {
                Command::MoveTo(at) => {
                    self.x = at.x;
                    self.y = at.y;
                }
                Command::Print(bytes) => {
                    for byte in bytes {
                        if *byte == b'\n' {
                            self.x = 0;
                            self.y += 1;
                        } else {
                            self.x += 1;
                            if self.x == self.width {
                                self.x = 0;
                                self.y += 1;
                            }
                        }
                    }
                }
                _ => {}
            }
        }
    }
}

fn opened(prompt: &str, display: &mut Display) -> Terminal {
    let mut terminal = Terminal::new(prompt).unwrap();
    let commands = terminal.open_line();
    display.perform(&commands);
    terminal
}

fn press(terminal: &mut Terminal, display: &mut Display, key: Key) -> Option<String> {
    let step = terminal.input(key, display.screen());
    display.perform(&step.commands);
    step.line
}

fn type_text(terminal: &mut Terminal, display: &mut Display, text: &str) {
    for c in text.chars() {
        assert_eq!(press(terminal, display, Key::Character(c)), None);
    }
}

fn at(x: i64, y: i64) -> Command {
    Command::MoveTo(Position { x, y })
}

fn print(text: &str) -> Command {
    Command::Print(text.as_bytes().to_vec())
}

fn lines(entries: &[&str]) -> Vec<String> {
    entries.iter().map(|entry| entry.to_string()).collect()
}

#[test]
fn new_terminal_is_fresh() {
    let terminal = Terminal::new("debug> ").unwrap();
    assert_eq!(terminal.prompt(), &b"debug> ".to_vec());
    assert!(terminal.buffer().is_empty());
    assert_eq!(terminal.cursor_offset(), 0);
    assert!(terminal.history().entries().is_empty());
    assert!(terminal.history().at_top());
}

#[test]
fn new_terminal_needs_a_printable_prompt() {
    assert!(Terminal::new("").is_some());
    assert!(Terminal::new("> ").is_some());
    assert!(Terminal::new("\u{bb} ").is_none());
    assert!(Terminal::new("a\tb").is_none());
    assert!(Terminal::new("debug\n").is_none());
}

#[test]
fn open_line_prints_the_prompt() {
    let mut terminal = Terminal::new("debug> ").unwrap();
    assert_eq!(terminal.open_line(), vec![print("debug> ")]);
    assert_eq!(terminal.print_prompt(), print("debug> "));
    assert_eq!(terminal.cursor_offset(), 0);
}

#[test]
fn typing_at_the_end_prints_the_character() {
    let mut display = Display::new(80);
    let mut terminal = opened("debug> ", &mut display);
    let step = terminal.input(Key::Character('l'), display.screen());
    assert_eq!(step.commands, vec![print("l")]);
    assert_eq!(step.line, None);
    assert_eq!(terminal.buffer(), &b"l".to_vec());
    assert_eq!(terminal.cursor_offset(), 1);
}

#[test]
fn enter_returns_the_line_and_records_it() {
    let mut display = Display::new(80);
    let mut terminal = opened("debug> ", &mut display);
    type_text(&mut terminal, &mut display, "ls -la");
    assert_eq!(terminal.buffer(), &b"ls -la".to_vec());
    assert_eq!(terminal.cursor_offset(), 6);
    let step = terminal.input(Key::Character('\n'), display.screen());
    assert_eq!(step.line, Some("ls -la".to_string()));
    assert_eq!(
        step.commands,
        vec![at(0, 0), Command::DeleteLine, print("debug> "), print("ls -la\n")]
    );
    assert_eq!(terminal.history().entries(), &lines(&["ls -la"]));
    assert!(terminal.buffer().is_empty());
    assert_eq!(terminal.cursor_offset(), 0);
    assert!(terminal.history().at_top());
}

#[test]
fn up_saves_the_draft_and_then_shows_older_lines() {
    let mut display = Display::new(80);
    let mut terminal = opened("debug> ", &mut display);
    type_text(&mut terminal, &mut display, "ls -la");
    assert_eq!(press(&mut terminal, &mut display, Key::Character('\n')), Some("ls -la".to_string()));
    display.perform(&terminal.open_line());
    type_text(&mut terminal, &mut display, "pwd");

    assert_eq!(press(&mut terminal, &mut display, Key::Up), None);
    assert_eq!(terminal.history().entries(), &lines(&["ls -la", "pwd"]));
    assert!(!terminal.history().at_top());
    assert_eq!(terminal.buffer(), &b"pwd".to_vec());
    assert_eq!(terminal.cursor_offset(), 3);

    assert_eq!(press(&mut terminal, &mut display, Key::Up), None);
    assert_eq!(terminal.buffer(), &b"ls -la".to_vec());
    assert_eq!(terminal.cursor_offset(), 6);
    assert_eq!(terminal.history().entries(), &lines(&["ls -la", "pwd"]));
}

#[test]
fn up_past_the_oldest_line_empties_the_line_and_down_comes_back() {
    let mut display = Display::new(80);
    let mut terminal = opened("debug> ", &mut display);
    type_text(&mut terminal, &mut display, "one");
    press(&mut terminal, &mut display, Key::Character('\n'));
    display.perform(&terminal.open_line());
    type_text(&mut terminal, &mut display, "two");
    press(&mut terminal, &mut display, Key::Up);
    press(&mut terminal, &mut display, Key::Up);
    assert_eq!(terminal.buffer(), &b"one".to_vec());

    press(&mut terminal, &mut display, Key::Up);
    assert!(terminal.buffer().is_empty());
    assert_eq!(terminal.cursor_offset(), 0);
    assert_eq!(terminal.history().cursor(), 0);
    press(&mut terminal, &mut display, Key::Up);
    assert!(terminal.buffer().is_empty());
    assert_eq!(terminal.history().cursor(), 0);

    press(&mut terminal, &mut display, Key::Down);
    assert_eq!(terminal.buffer(), &b"two".to_vec());
    assert_eq!(terminal.cursor_offset(), 3);
    press(&mut terminal, &mut display, Key::Down);
    assert!(terminal.buffer().is_empty());
    assert!(terminal.history().at_top());
    assert_eq!(terminal.history().entries(), &lines(&["one", "two"]));
}

#[test]
fn up_and_down_send_the_redraw() {
    let mut display = Display::new(80);
    let mut terminal = opened("debug> ", &mut display);
    type_text(&mut terminal, &mut display, "one");
    press(&mut terminal, &mut display, Key::Character('\n'));
    display.perform(&terminal.open_line());
    assert_eq!(display.screen(), Screen { width: 80, cursor: Position { x: 7, y: 1 } });
    type_text(&mut terminal, &mut display, "ab");

    let up = terminal.prev_command(display.screen());
    assert_eq!(up, vec![at(0, 1), Command::DeleteLine, print("debug> "), print("ab")]);
    display.perform(&up);
    let up = terminal.prev_command(display.screen());
    assert_eq!(up, vec![at(0, 1), Command::DeleteLine, print("debug> "), print("one")]);
    display.perform(&up);
    let up = terminal.prev_command(display.screen());
    assert_eq!(up, vec![at(0, 1), Command::DeleteLine, print("debug> ")]);
    display.perform(&up);
    let down = terminal.next_command(display.screen());
    assert_eq!(down, vec![at(0, 1), Command::DeleteLine, print("debug> "), print("ab")]);
    display.perform(&down);
    let down = terminal.next_command(display.screen());
    assert_eq!(down, vec![at(0, 1), Command::DeleteLine, print("debug> ")]);
}

#[test]
fn down_at_the_top_clears_the_line() {
    let mut display = Display::new(80);
    let mut terminal = opened("debug> ", &mut display);
    type_text(&mut terminal, &mut display, "draft");
    let down = terminal.next_command(display.screen());
    assert_eq!(down, vec![at(0, 0), Command::DeleteLine, print("debug> ")]);
    assert!(terminal.buffer().is_empty());
    assert_eq!(terminal.cursor_offset(), 0);
    assert!(terminal.history().at_top());
    assert!(terminal.history().entries().is_empty());
}

#[test]
fn insert_in_the_middle_redraws_the_line() {
    let mut display = Display::new(80);
    let mut terminal = opened("debug> ", &mut display);
    type_text(&mut terminal, &mut display, "abc");
    press(&mut terminal, &mut display, Key::Left);
    press(&mut terminal, &mut display, Key::Left);
    assert_eq!(terminal.cursor_offset(), 1);
    assert_eq!(display.screen().cursor, Position { x: 8, y: 0 });

    let commands = terminal.insert(b"x", display.screen());
    assert_eq!(terminal.buffer(), &b"axbc".to_vec());
    assert_eq!(terminal.cursor_offset(), 2);
    assert_eq!(
        commands,
        vec![at(0, 0), Command::DeleteLine, print("debug> "), print("axbc"), at(9, 0)]
    );
}

#[test]
fn insert_of_several_characters() {
    let mut display = Display::new(80);
    let mut terminal = opened("debug> ", &mut display);
    display.perform(&terminal.insert(b"hello", display.screen()));
    assert_eq!(terminal.buffer(), &b"hello".to_vec());
    assert_eq!(terminal.cursor_offset(), 5);
    display.perform(&terminal.move_to_start(display.screen()));
    let commands = terminal.insert(b"oh, ", display.screen());
    assert_eq!(terminal.buffer(), &b"oh, hello".to_vec());
    assert_eq!(terminal.cursor_offset(), 4);
    assert_eq!(
        commands,
        vec![at(0, 0), Command::DeleteLine, print("debug> "), print("oh, hello"), at(11, 0)]
    );
}

#[test]
fn backspace_at_offset_zero_changes_nothing() {
    let mut display = Display::new(80);
    let mut terminal = opened("debug> ", &mut display);
    assert_eq!(terminal.backspace(display.screen()), vec![]);
    assert!(terminal.buffer().is_empty());
    assert_eq!(terminal.cursor_offset(), 0);

    type_text(&mut terminal, &mut display, "abc");
    display.perform(&terminal.move_to_start(display.screen()));
    assert_eq!(terminal.backspace(display.screen()), vec![]);
    assert_eq!(terminal.buffer(), &b"abc".to_vec());
    assert_eq!(terminal.cursor_offset(), 0);
}

#[test]
fn backspace_at_the_end_deletes_the_last_cell() {
    let mut display = Display::new(80);
    let mut terminal = opened("debug> ", &mut display);
    type_text(&mut terminal, &mut display, "abc");
    let commands = terminal.backspace(display.screen());
    assert_eq!(commands, vec![at(9, 0), Command::DeleteChar]);
    assert_eq!(terminal.buffer(), &b"ab".to_vec());
    assert_eq!(terminal.cursor_offset(), 2);
}

#[test]
fn backspace_in_the_middle_redraws_the_line() {
    let mut display = Display::new(80);
    let mut terminal = opened("debug> ", &mut display);
    type_text(&mut terminal, &mut display, "abc");
    press(&mut terminal, &mut display, Key::Left);
    let commands = terminal.backspace(display.screen());
    assert_eq!(
        commands,
        vec![at(8, 0), at(0, 0), Command::DeleteLine, print("debug> "), print("ac"), at(8, 0)]
    );
    assert_eq!(terminal.buffer(), &b"ac".to_vec());
    assert_eq!(terminal.cursor_offset(), 1);
}

#[test]
fn insert_then_backspace_restores_the_line() {
    for offset in 0..4 {
        let mut display = Display::new(80);
        let mut terminal = opened("debug> ", &mut display);
        type_text(&mut terminal, &mut display, "abc");
        display.perform(&terminal.move_to_start(display.screen()));
        for _ in 0..offset {
            press(&mut terminal, &mut display, Key::Right);
        }
        assert_eq!(terminal.cursor_offset(), offset);
        press(&mut terminal, &mut display, Key::Character('x'));
        assert_eq!(terminal.buffer().len(), 4);
        assert_eq!(terminal.cursor_offset(), offset + 1);
        press(&mut terminal, &mut display, Key::Backspace);
        assert_eq!(terminal.buffer(), &b"abc".to_vec());
        assert_eq!(terminal.cursor_offset(), offset);
        assert_eq!(display.screen().cursor, Position { x: 7 + offset as i64, y: 0 });
    }
}

#[test]
fn clear_to_start_keeps_what_follows_the_caret() {
    let mut display = Display::new(80);
    let mut terminal = opened("debug> ", &mut display);
    type_text(&mut terminal, &mut display, "hello world");
    for _ in 0..5 {
        press(&mut terminal, &mut display, Key::Left);
    }
    let commands = terminal.clear_to_start(display.screen());
    assert_eq!(
        commands,
        vec![at(0, 0), Command::DeleteLine, print("debug> "), print("world"), at(7, 0)]
    );
    assert_eq!(terminal.buffer(), &b"world".to_vec());
    assert_eq!(terminal.cursor_offset(), 0);
}

#[test]
fn clear_line_deletes_every_row_bottom_up() {
    let mut display = Display::new(10);
    let mut terminal = opened("$> ", &mut display);
    type_text(&mut terminal, &mut display, "123456789");
    assert_eq!(display.screen().cursor, Position { x: 2, y: 1 });
    let commands = terminal.clear_line(display.screen());
    assert_eq!(
        commands,
        vec![at(0, 1), Command::DeleteLine, at(0, 0), Command::DeleteLine, print("$> ")]
    );
    assert!(terminal.buffer().is_empty());
    assert_eq!(terminal.cursor_offset(), 0);
    display.perform(&commands);
    assert_eq!(display.screen().cursor, Position { x: 3, y: 0 });
    assert_eq!(terminal.line_start_position(display.screen()), Position { x: 3, y: 0 });
}

#[test]
fn clear_line_from_the_middle_of_a_wrapped_line() {
    let mut display = Display::new(10);
    let mut terminal = opened("$> ", &mut display);
    type_text(&mut terminal, &mut display, "0123456789abcdefghijklmn");
    assert_eq!(display.screen().cursor, Position { x: 7, y: 2 });
    for _ in 0..12 {
        press(&mut terminal, &mut display, Key::Left);
    }
    assert_eq!(terminal.cursor_offset(), 12);
    assert_eq!(display.screen().cursor, Position { x: 5, y: 1 });
    assert_eq!(terminal.line_start_position(display.screen()), Position { x: 3, y: 0 });
    assert_eq!(terminal.line_end_position(display.screen()), Position { x: 7, y: 2 });
    let commands = terminal.clear_line(display.screen());
    assert_eq!(
        commands,
        vec![
            at(0, 2),
            Command::DeleteLine,
            at(0, 1),
            Command::DeleteLine,
            at(0, 0),
            Command::DeleteLine,
            print("$> ")
        ]
    );
}

#[test]
fn moves_stop_at_the_ends_of_the_line() {
    let mut display = Display::new(80);
    let mut terminal = opened("debug> ", &mut display);
    assert_eq!(terminal.move_left(display.screen()), vec![]);
    assert_eq!(terminal.move_right(display.screen()), vec![]);
    assert_eq!(terminal.cursor_offset(), 0);
    type_text(&mut terminal, &mut display, "ab");
    assert_eq!(terminal.move_right(display.screen()), vec![]);
    assert_eq!(terminal.cursor_offset(), 2);
    assert_eq!(terminal.move_left(display.screen()), vec![at(8, 0)]);
    assert_eq!(terminal.cursor_offset(), 1);
    display.perform(&[at(8, 0)]);
    assert_eq!(terminal.move_right(display.screen()), vec![at(9, 0)]);
    assert_eq!(terminal.cursor_offset(), 2);
}

#[test]
fn moves_wrap_at_the_margins() {
    let mut display = Display::new(10);
    let mut terminal = opened("$> ", &mut display);
    type_text(&mut terminal, &mut display, "12345678");
    assert_eq!(display.screen().cursor, Position { x: 1, y: 1 });
    display.perform(&terminal.move_left(display.screen()));
    assert_eq!(display.screen().cursor, Position { x: 0, y: 1 });
    let commands = terminal.move_left(display.screen());
    assert_eq!(commands, vec![at(9, 0)]);
    display.perform(&commands);
    assert_eq!(terminal.cursor_offset(), 6);
    let commands = terminal.move_right(display.screen());
    assert_eq!(commands, vec![at(0, 1)]);
    assert_eq!(terminal.cursor_offset(), 7);
}

#[test]
fn move_to_start_and_end_snap_the_caret() {
    let mut display = Display::new(10);
    let mut terminal = opened("$> ", &mut display);
    type_text(&mut terminal, &mut display, "123456789");
    let commands = terminal.move_to_start(display.screen());
    assert_eq!(commands, vec![at(3, 0)]);
    assert_eq!(terminal.cursor_offset(), 0);
    display.perform(&commands);
    let commands = terminal.move_to_end(display.screen());
    assert_eq!(commands, vec![at(2, 1)]);
    assert_eq!(terminal.cursor_offset(), 9);
}

#[test]
fn move_to_start_twice_is_move_to_start_once() {
    let mut display = Display::new(10);
    let mut terminal = opened("$> ", &mut display);
    type_text(&mut terminal, &mut display, "123456789");
    display.perform(&terminal.move_to_start(display.screen()));
    let after_first = display.screen();
    assert_eq!(terminal.cursor_offset(), 0);
    display.perform(&terminal.move_to_start(display.screen()));
    assert_eq!(terminal.cursor_offset(), 0);
    assert_eq!(display.screen(), after_first);
    assert_eq!(terminal.buffer(), &b"123456789".to_vec());
}

#[test]
fn control_characters_edit_the_line() {
    let mut display = Display::new(80);
    let mut terminal = opened("debug> ", &mut display);
    type_text(&mut terminal, &mut display, "hello");
    press(&mut terminal, &mut display, Key::Character('\u{1}'));
    assert_eq!(terminal.cursor_offset(), 0);
    assert_eq!(display.screen().cursor, Position { x: 7, y: 0 });
    press(&mut terminal, &mut display, Key::Character('\u{5}'));
    assert_eq!(terminal.cursor_offset(), 5);
    assert_eq!(display.screen().cursor, Position { x: 12, y: 0 });
    press(&mut terminal, &mut display, Key::Character('\u{7f}'));
    assert_eq!(terminal.buffer(), &b"hell".to_vec());
    press(&mut terminal, &mut display, Key::Left);
    press(&mut terminal, &mut display, Key::Left);
    press(&mut terminal, &mut display, Key::Character('\u{15}'));
    assert_eq!(terminal.buffer(), &b"ll".to_vec());
    assert_eq!(terminal.cursor_offset(), 0);
    press(&mut terminal, &mut display, Key::Character('\u{c}'));
    assert!(terminal.buffer().is_empty());
    assert_eq!(terminal.cursor_offset(), 0);
}

#[test]
fn keys_that_ask_for_nothing_change_nothing() {
    let mut display = Display::new(80);
    let mut terminal = opened("debug> ", &mut display);
    type_text(&mut terminal, &mut display, "ab");
    for key in [
        Key::Other,
        Key::Character('\t'),
        Key::Character('\u{1b}'),
        Key::Character('\u{e9}'),
        Key::Character('\u{142}'),
    ] {
        let step = terminal.input(key, display.screen());
        assert_eq!(step.commands, vec![]);
        assert_eq!(step.line, None);
        assert_eq!(terminal.buffer(), &b"ab".to_vec());
        assert_eq!(terminal.cursor_offset(), 2);
    }
}

#[test]
fn resize_fits_the_scrolling_region() {
    let mut display = Display::new(80);
    let mut terminal = opened("debug> ", &mut display);
    type_text(&mut terminal, &mut display, "ab");
    assert_eq!(terminal.on_resized(), vec![Command::FitScrollRegion]);
    let step = terminal.input(Key::Resize, display.screen());
    assert_eq!(step.commands, vec![Command::FitScrollRegion]);
    assert_eq!(step.line, None);
    assert_eq!(terminal.buffer(), &b"ab".to_vec());
    assert_eq!(terminal.cursor_offset(), 2);
}

#[test]
fn blank_lines_are_returned_but_not_recorded() {
    let mut display = Display::new(80);
    let mut terminal = opened("debug> ", &mut display);
    assert_eq!(press(&mut terminal, &mut display, Key::Character('\n')), Some(String::new()));
    display.perform(&terminal.open_line());
    type_text(&mut terminal, &mut display, "   ");
    assert_eq!(press(&mut terminal, &mut display, Key::Character('\n')), Some("   ".to_string()));
    assert!(terminal.history().entries().is_empty());
    assert!(terminal.history().at_top());
    display.perform(&terminal.open_line());
    type_text(&mut terminal, &mut display, " x ");
    assert_eq!(press(&mut terminal, &mut display, Key::Character('\n')), Some(" x ".to_string()));
    assert_eq!(terminal.history().entries(), &lines(&[" x "]));
}

#[test]
fn a_blank_line_submitted_while_browsing_leaves_the_cursor() {
    let mut display = Display::new(80);
    let mut terminal = opened("debug> ", &mut display);
    press(&mut terminal, &mut display, Key::Up);
    assert_eq!(terminal.history().entries(), &lines(&[""]));
    assert!(!terminal.history().at_top());
    assert_eq!(press(&mut terminal, &mut display, Key::Character('\n')), Some(String::new()));
    assert_eq!(terminal.history().entries(), &lines(&[""]));
    assert!(!terminal.history().at_top());
}

#[test]
fn line_feed_of_a_browsed_line_records_it_again() {
    let mut display = Display::new(80);
    let mut terminal = opened("debug> ", &mut display);
    type_text(&mut terminal, &mut display, "make");
    press(&mut terminal, &mut display, Key::Character('\n'));
    display.perform(&terminal.open_line());
    press(&mut terminal, &mut display, Key::Up);
    press(&mut terminal, &mut display, Key::Up);
    assert_eq!(terminal.buffer(), &b"make".to_vec());
    let (line, commands) = terminal.line_feed(display.screen());
    assert_eq!(line, "make".to_string());
    assert_eq!(commands, vec![at(0, 1), Command::DeleteLine, print("debug> "), print("make\n")]);
    assert_eq!(terminal.history().entries(), &lines(&["make", "", "make"]));
    assert!(terminal.history().at_top());
    assert!(terminal.buffer().is_empty());
}

#[test]
fn the_caret_stays_within_the_line() {
    let mut display = Display::new(12);
    let mut terminal = opened("> ", &mut display);
    let keys = [
        Key::Left,
        Key::Character('a'),
        Key::Character('b'),
        Key::Right,
        Key::Left,
        Key::Left,
        Key::Left,
        Key::Backspace,
        Key::Character('c'),
        Key::Up,
        Key::Character('d'),
        Key::Up,
        Key::Up,
        Key::Down,
        Key::Character('\u{15}'),
        Key::Character('e'),
        Key::Character('\u{1}'),
        Key::Backspace,
        Key::Character('\u{5}'),
        Key::Right,
        Key::Character('\n'),
        Key::Backspace,
        Key::Down,
        Key::Up,
        Key::Character('\u{c}'),
        Key::Left,
    ];
    for key in keys {
        let line = press(&mut terminal, &mut display, key);
        assert!(terminal.cursor_offset() <= terminal.buffer().len());
        if line.is_some() {
            display.perform(&terminal.open_line());
        }
    }
}

#[test]
fn typed_text_leaves_the_cursor_on_the_cell_of_the_caret() {
    let mut display = Display::new(10);
    let mut terminal = opened("$> ", &mut display);
    for typed in 1..40 {
        press(&mut terminal, &mut display, Key::Character('x'));
        assert_eq!(terminal.cursor_offset(), typed);
        if (3 + typed) % 10 != 0 {
            let origin = terminal.line_start_position(display.screen());
            assert_eq!(origin, Position { x: 3, y: 0 });
            assert_eq!(display.screen().cursor, position_of(10, 3, origin.y, typed as i64));
            assert_eq!(terminal.line_end_position(display.screen()), display.screen().cursor);
        }
    }
}

#[test]
fn a_redraw_leaves_the_cursor_where_the_commands_say() {
    let mut display = Display::new(10);
    let mut terminal = opened("$> ", &mut display);
    type_text(&mut terminal, &mut display, "0123456789ab");
    for _ in 0..4 {
        press(&mut terminal, &mut display, Key::Left);
    }
    assert_eq!(display.screen().cursor, Position { x: 1, y: 1 });
    let commands = terminal.insert(b"XY", display.screen());
    assert_eq!(
        commands,
        vec![
            at(0, 1),
            Command::DeleteLine,
            at(0, 0),
            Command::DeleteLine,
            print("$> "),
            print("01234567XY89ab"),
            at(3, 1)
        ]
    );
    display.perform(&commands);
    assert_eq!(terminal.cursor_offset(), 10);
    assert_eq!(display.screen().cursor, position_of(10, 3, 0, 10));
}

#[test]
fn the_line_has_room_up_to_the_largest_coordinate() {
    let mut display = Display::new(80);
    let mut terminal = opened("debug> ", &mut display);
    assert!(terminal.has_room(0));
    assert!(terminal.has_room(0x7fff_ffff - 7));
    assert!(!terminal.has_room(0x7fff_ffff - 6));
    type_text(&mut terminal, &mut display, "abc");
    assert!(terminal.has_room(0x7fff_ffff - 10));
    assert!(!terminal.has_room(0x7fff_ffff - 9));
    assert!(!terminal.has_room(usize::MAX));
}
