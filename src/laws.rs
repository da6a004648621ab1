//! Properties of the quiz that hold across calls, stated over the abstract
//! state and proved.

use vstd::prelude::*;
use crate::quiz::{key_step, submit_step, evaluates, Key, LineKind, QuizView};
use crate::text::{is_hint_token, is_white_space, trim, trim_end, trim_start};

verus! {

/// The state after submitting each of `inputs` in turn, each typed into an
/// input buffer of its own.
pub open spec fn submit_all(v: QuizView, inputs: Seq<Seq<char>>) -> QuizView
    decreases inputs.len(),
{
    if inputs.len() == 0 {
        v
    } else {
        submit_all(submit_step(QuizView { input: inputs[0], ..v }), inputs.drop_first())
    }
}

/// The state after pressing the down arrow `n` times.
pub open spec fn scroll_down_times(v: QuizView, n: nat) -> QuizView
    decreases n,
{
    if n == 0 {
        v
    } else {
        scroll_down_times(key_step(v, Key::Down), (n - 1) as nat)
    }
}

proof fn lemma_trim_start_head(s: Seq<char>)
    ensures
        trim_start(s).len() == 0 || !is_white_space(trim_start(s)[0]),
    decreases s.len(),
{
    if s.len() > 0 && is_white_space(s[0]) {
        lemma_trim_start_head(s.drop_first());
    }
}

proof fn lemma_trim_end_prefix(s: Seq<char>)
    ensures
        trim_end(s).len() <= s.len(),
        trim_end(s) == s.subrange(0, trim_end(s).len() as int),
        trim_end(s).len() == 0 || !is_white_space(trim_end(s).last()),
    decreases s.len(),
{
    if s.len() > 0 && is_white_space(s.last()) {
        lemma_trim_end_prefix(s.drop_last());
        assert(s.drop_last().subrange(0, trim_end(s).len() as int) =~= s.subrange(
            0,
            trim_end(s).len() as int,
        ));
    } else {
        assert(s.subrange(0, s.len() as int) =~= s);
    }
}

/// Trimming twice is trimming once.
pub proof fn law_trim_idempotent(s: Seq<char>)
    ensures
        trim(trim(s)) == trim(s),
{
    let u = trim_start(s);
    let w = trim_end(u);
    lemma_trim_start_head(s);
    lemma_trim_end_prefix(u);
    if w.len() > 0 {
        assert(w[0] == u[0]);
        assert(trim_start(w) == w);
        assert(trim_end(w) == w);
    }
}

/// Submitting an answer with whitespace around it does to the quiz exactly
/// what submitting the trimmed answer does.
pub proof fn law_submit_ignores_outer_whitespace(v: QuizView, s: Seq<char>)
    ensures
        submit_step(QuizView { input: s, ..v }) == submit_step(QuizView { input: trim(s), ..v }),
        evaluates(QuizView { input: s, ..v }) == evaluates(QuizView { input: trim(s), ..v }),
{
    law_trim_idempotent(s);
}

/// Asking for a hint, spelt "hint", "HINT" or "Hint", shows the current
/// question's hint and keeps the quiz on that question.
pub proof fn law_hint_keeps_question(v: QuizView)
    requires
        v.wf(),
        !v.is_complete(),
        v.input == "hint"@ || v.input == "HINT"@ || v.input == "Hint"@,
    ensures
        submit_step(v).index == v.index,
        submit_step(v).transcript == v.transcript.push(
            (LineKind::Hint, v.questions[v.index as int].hint),
        ),
{
    reveal_strlit("hint");
    reveal_strlit("HINT");
    reveal_strlit("Hint");
    let s = v.input;
    assert(!is_white_space(s[0]));
    assert(trim_start(s) == s);
    assert(!is_white_space(s.last()));
    assert(trim(s) == s);
    assert(is_hint_token(s));
    assert(submit_step(v).transcript =~= v.transcript.push(
        (LineKind::Hint, v.questions[v.index as int].hint),
    ));
}

/// A submission whose text is blank changes neither the transcript nor the
/// question, writes nothing to the answer log, and leaves the input empty.
pub proof fn law_blank_submission_changes_nothing(v: QuizView)
    requires
        trim(v.input).len() == 0,
    ensures
        !evaluates(v),
        submit_step(v).transcript == v.transcript,
        submit_step(v).index == v.index,
        submit_step(v).scroll == v.scroll,
        submit_step(v).input.len() == 0,
{
}

/// One submission keeps the state well formed, moves the question on by at
/// most one, and only adds lines to the transcript: at least one whenever
/// the input was evaluated.
pub proof fn law_submit_step(v: QuizView)
    requires
        v.wf(),
    ensures
        submit_step(v).wf(),
        v.index <= submit_step(v).index <= v.index + 1,
        submit_step(v).questions == v.questions,
        v.transcript.is_prefix_of(submit_step(v).transcript),
        evaluates(v) ==> submit_step(v).transcript.len() > v.transcript.len(),
{
    assert(v.transcript.is_prefix_of(submit_step(v).transcript)) by {
        assert forall|i: int| 0 <= i < v.transcript.len() implies submit_step(v).transcript[i]
            == v.transcript[i] by {}
    }
}

/// Over any sequence of submissions the question index never goes back and
/// moves on by at most one per submission.
pub proof fn law_index_monotone(v: QuizView, inputs: Seq<Seq<char>>)
    requires
        v.wf(),
    ensures
        submit_all(v, inputs).wf(),
        v.index <= submit_all(v, inputs).index <= v.index + inputs.len(),
    decreases inputs.len(),
{
    if inputs.len() > 0 {
        let typed = QuizView { input: inputs[0], ..v };
        law_submit_step(typed);
        law_index_monotone(submit_step(typed), inputs.drop_first());
    }
}

/// Scrolling up at the top stays at the top.
pub proof fn law_scroll_up_at_top(v: QuizView)
    requires
        v.scroll == 0,
    ensures
        key_step(v, Key::Up).scroll == 0,
        key_step(v, Key::Up).wf() == v.wf(),
{
}

/// Any number of presses of the down arrow keeps the state well formed and
/// scrolls by that many lines, up to the largest offset.
pub proof fn law_scroll_down_any_times(v: QuizView, n: nat)
    requires
        v.wf(),
    ensures
        scroll_down_times(v, n).wf(),
        scroll_down_times(v, n).scroll == if v.scroll + n < u16::MAX {
            v.scroll + n
        } else {
            u16::MAX as nat
        },
        scroll_down_times(v, n).transcript == v.transcript,
        scroll_down_times(v, n).index == v.index,
    decreases n,
{
    if n > 0 {
        law_scroll_down_any_times(key_step(v, Key::Down), (n - 1) as nat);
    }
}

} // verus!
