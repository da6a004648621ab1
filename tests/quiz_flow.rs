use terminal_quiz::bank::reference_questions;
use terminal_quiz::quiz::{Effect, Key, Line, LineKind, Question, QuizError, QuizState};
use terminal_quiz::text::{is_hint, trim_text};

const ANSWERS: [&str; 10] = [
    "./VirtualBox",
    "sudo gdb -p $(pidof VirtualBoxVM)",
    "handle SIGTRAP nostop noprint nopass",
    "set solib-search-path /home/pde/Downloads/VirtualBox-7.0.10/out/linux.amd64/debug/bin:/home/pde/Downloads/VirtualBox-7.0.10/out/linux.amd64/debug/bin/components",
    "break virtioNetR3CtrlVlan if uVlanId >= 4096",
    "c",
    "info locals",
    "sudo rmmod virtio-net",
    "sudo insmod exploit.ko",
    "breakpoint hit and info locals",
];

fn type_text(quiz: &mut QuizState, s: &str) {
    for c in s.chars() {
        quiz.append_char(c);
    }
}

fn submit_text(quiz: &mut QuizState, s: &str) -> Option<String> {
    type_text(quiz, s);
    quiz.submit()
}

fn quiz_at(index: usize) -> QuizState {
    let mut quiz = QuizState::new();
    for answer in ANSWERS.iter().take(index) {
        assert!(submit_text(&mut quiz, answer).is_some());
    }
    assert_eq!(quiz.current_index(), index);
    quiz
}

fn last_line(quiz: &QuizState) -> &Line {
    quiz.transcript().last().unwrap()
}

#[test]
fn fresh_quiz_shows_first_prompt() {
    let quiz = QuizState::new();
    assert_eq!(quiz.current_index(), 0);
    assert_eq!(quiz.question_count(), 10);
    assert_eq!(quiz.input_buffer(), "");
    assert_eq!(quiz.scroll_offset(), 0);
    assert_eq!(quiz.question(7).answer, "sudo rmmod virtio-net");
    assert_eq!(quiz.transcript().len(), 1);
    assert_eq!(quiz.transcript()[0].kind, LineKind::Prompt);
    assert_eq!(
        quiz.transcript()[0].text,
        "1. What command starts VirtualBox in the debug build?"
    );
}

#[test]
fn reference_bank_has_ten_questions() {
    let bank = reference_questions();
    assert_eq!(bank.len(), 10);
    for (q, a) in bank.iter().zip(ANSWERS.iter()) {
        assert_eq!(q.answer, *a);
    }
    assert_eq!(bank[5].hint, "Hint: c");
}

#[test]
fn empty_bank_is_refused() {
    assert!(matches!(QuizState::with_questions(Vec::new()), Err(QuizError::EmptyBank)));
}

#[test]
fn custom_bank_is_used() {
    let quiz = QuizState::with_questions(vec![Question::new("Say yes", "Hint: yes", "yes")]);
    let mut quiz = match quiz {
        Ok(s) => s,
        Err(_) => panic!("bank is not empty"),
    };
    assert_eq!(quiz.transcript()[0].text, "Say yes");
    assert_eq!(submit_text(&mut quiz, "yes"), Some("yes".to_string()));
    assert!(quiz.is_complete());
    assert_eq!(last_line(&quiz).kind, LineKind::Complete);
}

#[test]
fn padded_and_bare_answer_have_same_effect() {
    let mut padded = quiz_at(5);
    let mut bare = quiz_at(5);
    assert_eq!(submit_text(&mut padded, "  c  "), Some("  c  ".to_string()));
    assert_eq!(submit_text(&mut bare, "c"), Some("c".to_string()));
    assert_eq!(padded.transcript(), bare.transcript());
    assert_eq!(padded.current_index(), 6);
    assert_eq!(bare.current_index(), 6);
}

#[test]
fn hint_in_any_case_keeps_question() {
    for word in ["hint", "HINT", "Hint", "  hInT \t"] {
        let mut quiz = QuizState::new();
        assert!(submit_text(&mut quiz, word).is_some());
        assert_eq!(quiz.current_index(), 0);
        assert_eq!(quiz.transcript().len(), 2);
        assert_eq!(last_line(&quiz).kind, LineKind::Hint);
        assert_eq!(
            last_line(&quiz).text,
            "Hint: From the debug/bin directory, run ./VirtualBox"
        );
    }
}

#[test]
fn answer_match_is_case_sensitive() {
    let mut quiz = quiz_at(5);
    let before = quiz.transcript().len();
    assert_eq!(submit_text(&mut quiz, "C"), Some("C".to_string()));
    assert_eq!(quiz.current_index(), 5);
    assert_eq!(quiz.transcript().len(), before + 1);
    assert_eq!(last_line(&quiz).kind, LineKind::Incorrect);
    assert_eq!(last_line(&quiz).text, "Incorrect, try again or type 'hint'");
}

#[test]
fn inner_whitespace_must_match() {
    let mut quiz = quiz_at(6);
    submit_text(&mut quiz, "info  locals");
    assert_eq!(quiz.current_index(), 6);
    assert_eq!(last_line(&quiz).kind, LineKind::Incorrect);
}

#[test]
fn index_moves_by_at_most_one() {
    let mut quiz = QuizState::new();
    let inputs = ["nope", "./VirtualBox", "hint", "", "   ", "wrong", ANSWERS[1], ANSWERS[2], "x"];
    let mut last = quiz.current_index();
    for input in inputs {
        submit_text(&mut quiz, input);
        let now = quiz.current_index();
        assert!(now >= last && now <= last + 1);
        last = now;
    }
    assert_eq!(last, 3);
}

#[test]
fn blank_submission_changes_nothing() {
    let mut quiz = QuizState::new();
    quiz.scroll_down();
    type_text(&mut quiz, " \t  ");
    assert_eq!(quiz.input_buffer(), " \t  ");
    assert_eq!(quiz.submit(), None);
    assert_eq!(quiz.input_buffer(), "");
    assert_eq!(quiz.transcript().len(), 1);
    assert_eq!(quiz.current_index(), 0);
    assert_eq!(quiz.scroll_offset(), 1);
}

#[test]
fn ten_correct_answers_complete_the_quiz() {
    let mut quiz = quiz_at(10);
    assert!(quiz.is_complete());
    assert_eq!(last_line(&quiz).kind, LineKind::Complete);
    assert_eq!(last_line(&quiz).text, "Quiz complete!");
    assert_eq!(quiz.transcript().len(), 21);
    let kinds: Vec<LineKind> = quiz.transcript().iter().map(|l| l.kind).collect();
    assert_eq!(kinds[1], LineKind::Correct);
    assert_eq!(kinds[2], LineKind::Prompt);
    assert_eq!(quiz.transcript()[2].text, "2. How do you attach gdb to the VM process?");
}

#[test]
fn submission_after_completion_only_clears_input() {
    let mut quiz = quiz_at(10);
    let before = quiz.transcript().len();
    assert_eq!(submit_text(&mut quiz, "hint"), None);
    assert_eq!(quiz.input_buffer(), "");
    assert_eq!(quiz.transcript().len(), before);
    assert_eq!(quiz.current_index(), 10);
}

#[test]
fn scroll_up_stops_at_zero() {
    let mut quiz = QuizState::new();
    quiz.scroll_up();
    assert_eq!(quiz.scroll_offset(), 0);
    quiz.scroll_down();
    quiz.scroll_down();
    quiz.scroll_up();
    assert_eq!(quiz.scroll_offset(), 1);
}

#[test]
fn scroll_down_never_fails() {
    let mut quiz = QuizState::new();
    for _ in 0..70_000u32 {
        quiz.scroll_down();
    }
    assert_eq!(quiz.scroll_offset(), u16::MAX);
}

#[test]
fn submission_resets_scroll() {
    let mut quiz = QuizState::new();
    quiz.scroll_down();
    quiz.scroll_down();
    submit_text(&mut quiz, "wrong");
    assert_eq!(quiz.scroll_offset(), 0);
}

#[test]
fn log_line_is_untrimmed_input() {
    let mut quiz = quiz_at(7);
    assert_eq!(
        submit_text(&mut quiz, "sudo rmmod virtio-net"),
        Some("sudo rmmod virtio-net".to_string())
    );
    assert_eq!(quiz.current_index(), 8);
    assert_eq!(submit_text(&mut quiz, " nope "), Some(" nope ".to_string()));
}

#[test]
fn quit_key_never_reaches_input() {
    let mut quiz = QuizState::new();
    assert_eq!(quiz.handle_key(Key::Char('a')), Effect::Continue);
    assert_eq!(quiz.handle_key(Key::Char('q')), Effect::Quit);
    assert_eq!(quiz.input_buffer(), "a");
}

#[test]
fn keys_edit_scroll_and_submit() {
    let mut quiz = QuizState::new();
    for c in "./VirtualBoxx".chars() {
        assert_eq!(quiz.handle_key(Key::Char(c)), Effect::Continue);
    }
    assert_eq!(quiz.handle_key(Key::Backspace), Effect::Continue);
    assert_eq!(quiz.input_buffer(), "./VirtualBox");
    assert_eq!(quiz.handle_key(Key::Down), Effect::Continue);
    assert_eq!(quiz.scroll_offset(), 1);
    assert_eq!(quiz.handle_key(Key::Up), Effect::Continue);
    assert_eq!(quiz.scroll_offset(), 0);
    assert_eq!(quiz.handle_key(Key::Other), Effect::Continue);
    assert_eq!(quiz.handle_key(Key::Enter), Effect::Log("./VirtualBox".to_string()));
    assert_eq!(quiz.current_index(), 1);
    assert_eq!(quiz.handle_key(Key::Enter), Effect::Continue);
}

#[test]
fn backspace_on_empty_input_is_harmless() {
    let mut quiz = QuizState::new();
    quiz.backspace();
    assert_eq!(quiz.input_buffer(), "");
    quiz.append_char('é');
    quiz.append_char('x');
    quiz.backspace();
    assert_eq!(quiz.input_buffer(), "é");
}

#[test]
fn cursor_follows_typed_characters() {
    let mut quiz = QuizState::new();
    assert_eq!(quiz.cursor_offset(), 1);
    type_text(&mut quiz, "ab");
    assert_eq!(quiz.cursor_offset(), 3);
}

#[test]
fn trimming_removes_unicode_whitespace() {
    assert_eq!(trim_text("  c  "), "c");
    assert_eq!(trim_text("\t a b \n"), "a b");
    assert_eq!(trim_text("\u{3000}x\u{a0}"), "x");
    assert_eq!(trim_text(" \r\n "), "");
    assert_eq!(trim_text(""), "");
    assert_eq!(trim_text("x_y"), "x_y");
}

#[test]
fn hint_token_detection() {
    assert!(is_hint("hint"));
    assert!(is_hint("HiNt"));
    assert!(!is_hint("hints"));
    assert!(!is_hint("hin"));
    assert!(!is_hint(" hint"));
    assert!(!is_hint("hınt"));
}
