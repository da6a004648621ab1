//! The quiz state machine: progress through the question bank, the input
//! buffer being typed, the transcript shown to the learner, and the view's
//! scroll offset.

use vstd::prelude::*;
use crate::text::{is_hint, is_hint_token, trim, trim_text};

verus! {

/// One quiz item: what is asked, the hint offered on request, and the exact
/// answer expected.
#[derive(Clone, Debug)]
pub struct Question {
    pub prompt: String,
    pub hint: String,
    pub answer: String,
}

pub struct QuestionView {
    pub prompt: Seq<char>,
    pub hint: Seq<char>,
    pub answer: Seq<char>,
}

impl View for Question {
    type V = QuestionView;

    open spec fn view(&self) -> QuestionView {
        QuestionView { prompt: self.prompt@, hint: self.hint@, answer: self.answer@ }
    }
}

impl Question {
    pub fn new(prompt: &str, hint: &str, answer: &str) -> (r: Question)
        ensures
            r@ == (QuestionView { prompt: prompt@, hint: hint@, answer: answer@ }),
    {
        Question {
            prompt: String::from_str(prompt),
            hint: String::from_str(hint),
            answer: String::from_str(answer),
        }
    }
}

/// What a transcript line is, so that a renderer can style it.
#[derive(Clone, Copy, Debug, PartialEq, Eq, Structural)]
pub enum LineKind {
    Prompt,
    Correct,
    Incorrect,
    Hint,
    Complete,
}

/// One line of the transcript.
#[derive(Clone, Debug, PartialEq, Eq)]
pub struct Line {
    pub kind: LineKind,
    pub text: String,
}

impl View for Line {
    type V = (LineKind, Seq<char>);

    open spec fn view(&self) -> (LineKind, Seq<char>) {
        (self.kind, self.text@)
    }
}

pub open spec fn questions_view(v: Seq<Question>) -> Seq<QuestionView> {
    v.map_values(|q: Question| q@)
}

pub open spec fn lines_view(v: Seq<Line>) -> Seq<(LineKind, Seq<char>)> {
    v.map_values(|l: Line| l@)
}

pub open spec fn correct_message() -> Seq<char> {
    "Correct!"@
}

pub open spec fn incorrect_message() -> Seq<char> {
    "Incorrect, try again or type 'hint'"@
}

pub open spec fn complete_message() -> Seq<char> {
    "Quiz complete!"@
}

/// The abstract state of a quiz.
pub struct QuizView {
    pub questions: Seq<QuestionView>,
    pub index: nat,
    pub input: Seq<char>,
    pub transcript: Seq<(LineKind, Seq<char>)>,
    pub scroll: nat,
}

impl QuizView {
    /// The bank is not empty and the index never passes its end.
    pub open spec fn wf(self) -> bool {
        &&& self.questions.len() > 0
        &&& self.index <= self.questions.len()
        &&& self.scroll <= u16::MAX
    }

    pub open spec fn is_complete(self) -> bool {
        self.index >= self.questions.len()
    }

    /// The state right after construction: the first prompt is shown.
    pub open spec fn initial(questions: Seq<QuestionView>) -> QuizView {
        QuizView {
            questions,
            index: 0,
            input: Seq::empty(),
            transcript: seq![(LineKind::Prompt, questions[0].prompt)],
            scroll: 0,
        }
    }
}

/// The line shown once question `i` becomes current, or the completion
/// message when `i` is past the last question.
pub open spec fn next_line(questions: Seq<QuestionView>, i: nat) -> (LineKind, Seq<char>) {
    if i < questions.len() {
        (LineKind::Prompt, questions[i as int].prompt)
    } else {
        (LineKind::Complete, complete_message())
    }
}

/// Whether the trimmed answer `t` solves `q`: not a hint request, and equal
/// to the expected answer character for character.
pub open spec fn solves(q: QuestionView, t: Seq<char>) -> bool {
    !is_hint_token(t) && t == q.answer
}

/// The lines that answering question `i` with the trimmed text `t` adds.
pub open spec fn response(questions: Seq<QuestionView>, i: nat, t: Seq<char>) -> Seq<
    (LineKind, Seq<char>),
> {
    let q = questions[i as int];
    if is_hint_token(t) {
        seq![(LineKind::Hint, q.hint)]
    } else if t == q.answer {
        seq![(LineKind::Correct, correct_message()), next_line(questions, i + 1)]
    } else {
        seq![(LineKind::Incorrect, incorrect_message())]
    }
}

/// Whether submitting in state `v` evaluates an answer (and so writes the
/// untrimmed input to the answer log): the trimmed input is not empty and a
/// question is still open.
pub open spec fn evaluates(v: QuizView) -> bool {
    trim(v.input).len() > 0 && !v.is_complete()
}

/// The state after submitting the input of `v`.
pub open spec fn submit_step(v: QuizView) -> QuizView {
    let t = trim(v.input);
    if evaluates(v) {
        QuizView {
            index: if solves(v.questions[v.index as int], t) {
                v.index + 1
            } else {
                v.index
            },
            input: Seq::empty(),
            transcript: v.transcript + response(v.questions, v.index, t),
            scroll: 0,
            ..v
        }
    } else {
        QuizView { input: Seq::empty(), ..v }
    }
}

/// A key press, as the quiz sees it.
#[derive(Clone, Copy, Debug, PartialEq, Eq, Structural)]
pub enum Key {
    Char(char),
    Backspace,
    Enter,
    Up,
    Down,
    Other,
}

/// The character reserved for leaving the quiz; it never reaches the input.
pub open spec fn quit_char() -> char {
    'q'
}

/// What the program around the quiz does after a key press.
#[derive(Debug, PartialEq, Eq)]
pub enum Effect {
    /// Nothing beyond redrawing.
    Continue,
    /// Append this line to the answer log, then redraw.
    Log(String),
    /// Leave the quiz.
    Quit,
}

/// The state after a key press.
pub open spec fn key_step(v: QuizView, key: Key) -> QuizView {
    match key {
        Key::Char(c) => if c == quit_char() {
            v
        } else {
            QuizView { input: v.input.push(c), ..v }
        },
        Key::Backspace => QuizView {
            input: if v.input.len() > 0 {
                v.input.drop_last()
            } else {
                v.input
            },
            ..v
        },
        Key::Enter => submit_step(v),
        Key::Up => QuizView { scroll: if v.scroll > 0 { (v.scroll - 1) as nat } else { 0 }, ..v },
        Key::Down => QuizView {
            scroll: if v.scroll < u16::MAX { v.scroll + 1 } else { v.scroll },
            ..v
        },
        Key::Other => v,
    }
}

/// Whether `e` is the effect owed for pressing `key` in state `v`.
pub open spec fn effect_of(v: QuizView, key: Key, e: Effect) -> bool {
    match key {
        Key::Char(c) => if c == quit_char() {
            e is Quit
        } else {
            e is Continue
        },
        Key::Enter => match e {
            Effect::Log(l) => evaluates(v) && l@ == v.input,
            Effect::Continue => !evaluates(v),
            Effect::Quit => false,
        },
        _ => e is Continue,
    }
}

/// Why a quiz cannot be built.
#[derive(Clone, Copy, Debug, PartialEq, Eq, Structural)]
pub enum QuizError {
    /// The question bank holds no question.
    EmptyBank,
}

/// A quiz in progress.
pub struct QuizState {
    questions: Vec<Question>,
    current_index: usize,
    input_buffer: String,
    transcript: Vec<Line>,
    scroll_offset: u16,
}

impl View for QuizState {
    type V = QuizView;

    closed spec fn view(&self) -> QuizView {
        QuizView {
            questions: questions_view(self.questions@),
            index: self.current_index as nat,
            input: self.input_buffer@,
            transcript: lines_view(self.transcript@),
            scroll: self.scroll_offset as nat,
        }
    }
}

/// Relies on `String::push`: appends `c` at the end.
#[verifier::external_body]
fn push_char(s: &mut String, c: char)
    ensures
        final(s)@ == old(s)@.push(c),
{
    s.push(c)
}

/// Relies on `String::pop`: removes and returns the last character, or
/// returns `None` and leaves an empty string as it is.
#[verifier::external_body]
fn pop_char(s: &mut String) -> (r: Option<char>)
    ensures
        old(s)@.len() > 0 ==> r == Some(old(s)@.last()) && final(s)@ == old(s)@.drop_last(),
        old(s)@.len() == 0 ==> r is None && final(s)@ == old(s)@,
{
    s.pop()
}

fn copy_line(kind: LineKind, text: &String) -> (r: Line)
    ensures
        r@ == (kind, text@),
{
    Line { kind, text: text.clone() }
}

impl QuizState {
    /// Starts a quiz on `questions`, showing the first prompt.
    pub fn with_questions(questions: Vec<Question>) -> (r: Result<QuizState, QuizError>)
        ensures
            questions@.len() == 0 <==> r == Err::<QuizState, QuizError>(QuizError::EmptyBank),
            r matches Ok(s) ==> s@ == QuizView::initial(questions_view(questions@)),
            r matches Ok(s) ==> s@.wf(),
    {
        if questions.len() == 0 {
            return Err(QuizError::EmptyBank);
        }
        Ok(QuizState::start(questions))
    }

    /// Starts a quiz on a bank that is known not to be empty.
    pub(crate) fn start(questions: Vec<Question>) -> (r: QuizState)
        requires
            questions@.len() > 0,
        ensures
            r@ == QuizView::initial(questions_view(questions@)),
            r@.wf(),
    {
        let first = copy_line(LineKind::Prompt, &questions[0].prompt);
        let mut transcript: Vec<Line> = Vec::new();
        transcript.push(first);
        let s = QuizState {
            questions,
            current_index: 0,
            input_buffer: String::new(),
            transcript,
            scroll_offset: 0,
        };
        assert(s@.transcript =~= QuizView::initial(s@.questions).transcript);
        s
    }

    /// Evaluates the input buffer against the current question, and clears
    /// it. Returns the untrimmed input when it was evaluated, for the answer
    /// log.
    pub fn submit(&mut self) -> (r: Option<String>)
        requires
            old(self)@.wf(),
        ensures
            final(self)@ == submit_step(old(self)@),
            final(self)@.wf(),
            r is Some <==> evaluates(old(self)@),
            r matches Some(l) ==> l@ == old(self)@.input,
    {
        let trimmed = trim_text(self.input_buffer.as_str());
        if trimmed.as_str().unicode_len() == 0 || self.current_index >= self.questions.len() {
            self.input_buffer = String::new();
            return None;
        }
        let ghost v0 = self@;
        let idx = self.current_index;
        let logged = self.input_buffer.clone();
        if is_hint(trimmed.as_str()) {
            let line = copy_line(LineKind::Hint, &self.questions[idx].hint);
            self.transcript.push(line);
        } else if trimmed == self.questions[idx].answer {
            self.transcript.push(
                Line { kind: LineKind::Correct, text: String::from_str("Correct!") },
            );
            self.current_index = idx + 1;
            if self.current_index < self.questions.len() {
                let line = copy_line(LineKind::Prompt, &self.questions[idx + 1].prompt);
                self.transcript.push(line);
            } else {
                self.transcript.push(
                    Line { kind: LineKind::Complete, text: String::from_str("Quiz complete!") },
                );
            }
        } else {
            self.transcript.push(
                Line {
                    kind: LineKind::Incorrect,
                    text: String::from_str("Incorrect, try again or type 'hint'"),
                },
            );
        }
        self.input_buffer = String::new();
        self.scroll_offset = 0;
        assert(self@.transcript =~= submit_step(v0).transcript);
        Some(logged)
    }

    /// Adds `c` at the end of the input buffer.
    pub fn append_char(&mut self, c: char)
        ensures
            final(self)@ == (QuizView { input: old(self)@.input.push(c), ..old(self)@ }),
    {
        push_char(&mut self.input_buffer, c);
    }

    /// Removes the last character of the input buffer, if there is one.
    pub fn backspace(&mut self)
        ensures
            final(self)@ == key_step(old(self)@, Key::Backspace),
    {
        let _ = pop_char(&mut self.input_buffer);
    }

    /// Moves the view one line back; stays at 0.
    pub fn scroll_up(&mut self)
        ensures
            final(self)@ == key_step(old(self)@, Key::Up),
            final(self)@.scroll == if old(self)@.scroll == 0 {
                0
            } else {
                old(self)@.scroll - 1
            },
    {
        if self.scroll_offset > 0 {
            self.scroll_offset = self.scroll_offset - 1;
        }
    }

    /// Moves the view one line on; stops at the largest offset a view can
    /// take instead of failing.
    pub fn scroll_down(&mut self)
        ensures
            final(self)@ == key_step(old(self)@, Key::Down),
            old(self)@.scroll < u16::MAX ==> final(self)@.scroll == old(self)@.scroll + 1,
    {
        if self.scroll_offset < u16::MAX {
            self.scroll_offset = self.scroll_offset + 1;
        }
    }

    /// Applies one key press: text editing, scrolling, submission, or the
    /// quit character.
    pub fn handle_key(&mut self, key: Key) -> (r: Effect)
        requires
            old(self)@.wf(),
        ensures
            final(self)@ == key_step(old(self)@, key),
            final(self)@.wf(),
            effect_of(old(self)@, key, r),
    {
        match key {
            Key::Char(c) => {
                if c == 'q' {
                    return Effect::Quit;
                }
                self.append_char(c);
            },
            Key::Backspace => self.backspace(),
            Key::Enter => {
                return match self.submit() {
                    Some(l) => Effect::Log(l),
                    None => Effect::Continue,
                };
            },
            Key::Up => self.scroll_up(),
            Key::Down => self.scroll_down(),
            Key::Other => {},
        }
        Effect::Continue
    }

    /// The index of the current question; the bank's length once complete.
    pub fn current_index(&self) -> (r: usize)
        ensures
            r == self@.index,
    {
        self.current_index
    }

    /// The number of questions in the bank.
    pub fn question_count(&self) -> (r: usize)
        ensures
            r == self@.questions.len(),
    {
        self.questions.len()
    }

    /// The question at position `i` of the bank.
    pub fn question(&self, i: usize) -> (r: &Question)
        requires
            i < self@.questions.len(),
        ensures
            r@ == self@.questions[i as int],
    {
        &self.questions[i]
    }

    /// Whether every question has been answered.
    pub fn is_complete(&self) -> (r: bool)
        ensures
            r == self@.is_complete(),
    {
        self.current_index >= self.questions.len()
    }

    /// The text typed so far.
    pub fn input_buffer(&self) -> (r: &str)
        ensures
            r@ == self@.input,
    {
        self.input_buffer.as_str()
    }

    /// The transcript, oldest line first.
    pub fn transcript(&self) -> (r: &[Line])
        ensures
            lines_view(r@) == self@.transcript,
    {
        self.transcript.as_slice()
    }

    /// The view's scroll offset.
    pub fn scroll_offset(&self) -> (r: u16)
        ensures
            r == self@.scroll,
    {
        self.scroll_offset
    }

    /// Where the cursor stands in the input pane, counted from the pane's
    /// left border: just after the last typed character.
    pub fn cursor_offset(&self) -> (r: u16)
        ensures
            r == if self@.input.len() + 1 < u16::MAX {
                (self@.input.len() + 1) as int
            } else {
                u16::MAX as int
            },
    {
        let n = self.input_buffer.as_str().unicode_len();
        if n < (u16::MAX - 1) as usize {
            (n + 1) as u16
        } else {
            u16::MAX
        }
    }
}

} // verus!
