//! A whole input session as a fold: which send intents, in which order, and
//! how many missing-context hints a sequence of typed lines produces.

use crate::input::{next_ctx, InputState, LineOutcome, SendIntent, SendIntentView};
use crate::text::{is_blank, lemma_nonblank_head, trimmed};
use vstd::prelude::*;

verus! {

/// The send intents a sequence of lines produces, in typing order, starting
/// from the given context.
pub open spec fn script_intents(ctx: Option<Seq<char>>, lines: Seq<Seq<char>>) -> Seq<
    SendIntentView,
>
    decreases lines.len(),
{
    if lines.len() == 0 {
        Seq::empty()
    } else {
        let l = lines[0];
        let rest = lines.drop_first();
        if !is_blank(l) && l[0] != '=' && ctx is Some {
            seq![SendIntentView { to: ctx->0, msg: l }] + script_intents(ctx, rest)
        } else {
            script_intents(next_ctx(ctx, l), rest)
        }
    }
}

/// How many missing-context hints a sequence of lines produces, starting
/// from the given context.
pub open spec fn script_hints(ctx: Option<Seq<char>>, lines: Seq<Seq<char>>) -> nat
    decreases lines.len(),
{
    if lines.len() == 0 {
        0
    } else {
        let l = lines[0];
        let rest = lines.drop_first();
        if !is_blank(l) && l[0] != '=' && ctx is None {
            1 + script_hints(ctx, rest)
        } else {
            script_hints(next_ctx(ctx, l), rest)
        }
    }
}

/// The context a sequence of lines leaves active, starting from the given
/// one: the fold of [`next_ctx`] over the lines.
pub open spec fn script_ctx(ctx: Option<Seq<char>>, lines: Seq<Seq<char>>) -> Option<Seq<char>>
    decreases lines.len(),
{
    if lines.len() == 0 {
        ctx
    } else {
        script_ctx(next_ctx(ctx, lines[0]), lines.drop_first())
    }
}

/// What running a script of lines leaves behind: the intents handed to
/// dispatch, the number of hints, and the final input state.
pub struct ScriptOutcome {
    /// The send intents, in the order the lines were typed.
    pub intents: Vec<SendIntent>,
    /// How many missing-context hints went to the error channel.
    pub hints: usize,
    /// The input state after the last line.
    pub state: InputState,
}

/// Run a whole script of lines through the input state machine, from the
/// startup state, and collect everything it hands on.
pub fn run_script(lines: &Vec<String>) -> (r: ScriptOutcome)
    ensures
        r.intents.deep_view() == script_intents(None, lines.deep_view()),
        r.hints == script_hints(None, lines.deep_view()),
        r.state.wf(),
        r.state.ctx_spec() == script_ctx(None, lines.deep_view()),
{
    let mut state = InputState::new();
    let mut intents: Vec<SendIntent> = Vec::new();
    let mut hints: usize = 0;
    let mut i: usize = 0;
    proof {
        assert(lines.deep_view().subrange(0, lines.deep_view().len() as int) =~= lines.deep_view());
    }
    while i < lines.len()
        invariant
            i <= lines.len(),
            lines.deep_view().len() == lines@.len(),
            state.wf(),
            hints <= i,
            script_intents(None, lines.deep_view()) == intents.deep_view() + script_intents(
                state.ctx_spec(),
                lines.deep_view().subrange(i as int, lines@.len() as int),
            ),
            script_hints(None, lines.deep_view()) == hints + script_hints(
                state.ctx_spec(),
                lines.deep_view().subrange(i as int, lines@.len() as int),
            ),
            script_ctx(None, lines.deep_view()) == script_ctx(
                state.ctx_spec(),
                lines.deep_view().subrange(i as int, lines@.len() as int),
            ),
        decreases lines@.len() - i,
    {
        let ghost pending = lines.deep_view().subrange(i as int, lines@.len() as int);
        proof {
            assert(pending[0] == lines.deep_view()[i as int]);
            assert(pending.drop_first() =~= lines.deep_view().subrange(
                i as int + 1,
                lines@.len() as int,
            ));
        }
        let out = state.step(lines[i].as_str());
        match out {
            LineOutcome::Send(intent) => {
                let ghost prev = intents.deep_view();
                let ghost iv = intent@;
                intents.push(intent);
                proof {
                    assert(intents.deep_view() =~= prev.push(iv));
                    assert(prev.push(iv) + script_intents(state.ctx_spec(), pending.drop_first())
                        =~= prev + (seq![iv] + script_intents(
                        state.ctx_spec(),
                        pending.drop_first(),
                    )));
                }
            },
            LineOutcome::Hint => {
                hints = hints + 1;
            },
            _ => {},
        }
        i = i + 1;
    }
    proof {
        assert(lines.deep_view().subrange(lines@.len() as int, lines@.len() as int).len() == 0);
    }
    ScriptOutcome { intents, hints, state }
}

/// A chat line typed while no context is set yields no intent and exactly
/// one hint, whatever follows it. Blank lines are left out: they yield
/// neither an intent nor a hint.
pub proof fn lemma_hint_without_context(l: Seq<char>, rest: Seq<Seq<char>>)
    requires
        !is_blank(l),
        l[0] != '=',
    ensures
        script_intents(None, seq![l] + rest) == script_intents(None, rest),
        script_hints(None, seq![l] + rest) == 1 + script_hints(None, rest),
{
    let lines = seq![l] + rest;
    assert(lines[0] == l);
    assert(lines.drop_first() =~= rest);
}

/// A directive line `=X` sets the context to `X` trimmed — to `X` verbatim
/// when `X` carries no surrounding blanks, the empty context included — and
/// yields no intent and no hint of its own.
pub proof fn lemma_context_directive(ctx: Option<Seq<char>>, x: Seq<char>, rest: Seq<Seq<char>>)
    ensures
        next_ctx(ctx, seq!['='] + x) == Some(trimmed(x)),
        trimmed(x) == x ==> next_ctx(ctx, seq!['='] + x) == Some(x),
        script_intents(ctx, seq![seq!['='] + x] + rest) == script_intents(Some(trimmed(x)), rest),
        script_hints(ctx, seq![seq!['='] + x] + rest) == script_hints(Some(trimmed(x)), rest),
{
    let l = seq!['='] + x;
    assert(l[0] == '=');
    lemma_nonblank_head(l);
    assert(l.drop_first() =~= x);
    let lines = seq![l] + rest;
    assert(lines[0] == l);
    assert(lines.drop_first() =~= rest);
}

/// A chat line typed with an active context yields exactly the one intent
/// `{target: context, body: line}`, ahead of whatever later lines yield:
/// intents keep typing order.
pub proof fn lemma_send_line(c: Seq<char>, l: Seq<char>, rest: Seq<Seq<char>>)
    requires
        !is_blank(l),
        l[0] != '=',
    ensures
        script_intents(Some(c), seq![l] + rest) == seq![SendIntentView { to: c, msg: l }]
            + script_intents(Some(c), rest),
        script_hints(Some(c), seq![l] + rest) == script_hints(Some(c), rest),
{
    let lines = seq![l] + rest;
    assert(lines[0] == l);
    assert(lines.drop_first() =~= rest);
}

} // verus!
