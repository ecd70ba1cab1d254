//! The input loop's state machine: how one raw console line, read against
//! the current conversation context, becomes a context switch, a send
//! intent, a hint, or nothing.

use crate::render::{ctx_view, prompt_for, prompt_spec};
use crate::text::{is_blank, lemma_empty_is_blank, line_is_blank, trim, trimmed};
use vstd::prelude::*;

verus! {

/// One outbound chat message: target and body. Created by the input loop,
/// consumed exactly once by the dispatch loop.
pub struct SendIntent {
    /// The conversation partner the message goes to.
    pub to: String,
    /// The message body, the typed line kept verbatim.
    pub msg: String,
}

/// The mathematical view of a [`SendIntent`].
pub ghost struct SendIntentView {
    /// View of the target identifier.
    pub to: Seq<char>,
    /// View of the message body.
    pub msg: Seq<char>,
}

impl View for SendIntent {
    type V = SendIntentView;

    open spec fn view(&self) -> SendIntentView {
        SendIntentView { to: self.to@, msg: self.msg@ }
    }
}

impl DeepView for SendIntent {
    type V = SendIntentView;

    open spec fn deep_view(&self) -> SendIntentView {
        self.view()
    }
}

/// What interpreting one line did.
pub enum LineOutcome {
    /// The line was blank: nothing changes.
    Ignored,
    /// The line was a context directive: the context and prompt changed,
    /// nothing is enqueued.
    ContextSet,
    /// A chat line with an active context: this intent goes to dispatch.
    Send(SendIntent),
    /// A chat line with no context: a hint goes to the error channel.
    Hint,
}

/// The context after a line is interpreted: a directive `=X` replaces it by
/// the trimmed rest of the line; every other line leaves it alone.
pub open spec fn next_ctx(ctx: Option<Seq<char>>, l: Seq<char>) -> Option<Seq<char>> {
    if !is_blank(l) && l[0] == '=' {
        Some(trimmed(l.drop_first()))
    } else {
        ctx
    }
}

/// The input loop's whole state: the active conversation context and the
/// prompt derived from it.
pub struct InputState {
    /// The current send target; starts unset.
    pub ctx: Option<String>,
    /// The prompt shown for the next read.
    pub prompt: String,
}

impl InputState {
    /// View of the context.
    pub open spec fn ctx_spec(self) -> Option<Seq<char>> {
        ctx_view(self.ctx)
    }

    /// The prompt always reflects the context.
    pub open spec fn wf(self) -> bool {
        self.prompt@ == prompt_spec(self.ctx_spec())
    }

    /// The state at startup: no context, bare prompt.
    pub fn new() -> (s: Self)
        ensures
            s.wf(),
            s.ctx_spec() is None,
            s.prompt@ == "=> "@,
    {
        let prompt = prompt_for(&None);
        InputState { ctx: None, prompt }
    }

    /// Interpret one line. Blank lines do nothing; a leading `=` makes the
    /// rest (trimmed) the new context; anything else is a chat line, sent to
    /// the active context or answered with a hint when none is set.
    pub fn step(&mut self, line: &str) -> (out: LineOutcome)
        requires
            old(self).wf(),
        ensures
            final(self).wf(),
            final(self).ctx_spec() == next_ctx(old(self).ctx_spec(), line@),
            is_blank(line@) ==> out is Ignored && *final(self) == *old(self),
            !is_blank(line@) && line@[0] == '=' ==> out is ContextSet,
            !is_blank(line@) && line@[0] != '=' ==> *final(self) == *old(self),
            (!is_blank(line@) && line@[0] != '=' && old(self).ctx_spec() is Some) ==> (out matches
                LineOutcome::Send(si) && si@.to == old(self).ctx_spec()->0 && si@.msg == line@),
            (!is_blank(line@) && line@[0] != '=' && old(self).ctx_spec() is None) ==> out is Hint,
    {
        if line_is_blank(line) {
            return LineOutcome::Ignored;
        }
        proof {
            if line@.len() == 0 {
                lemma_empty_is_blank(line@);
            }
        }
        let first = line.get_char(0);
        if first == '=' {
            let n = line.unicode_len();
            let rest = line.substring_char(1, n);
            proof {
                assert(rest@ =~= line@.drop_first());
            }
            let new_ctx = trim(rest);
            self.ctx = Some(new_ctx);
            self.prompt = prompt_for(&self.ctx);
            return LineOutcome::ContextSet;
        }
        match &self.ctx {
            Some(to) => {
                let intent = SendIntent { to: to.clone(), msg: line.to_owned() };
                LineOutcome::Send(intent)
            },
            None => LineOutcome::Hint,
        }
    }
}

/// Whether a read line enters the editor's recall history: chat lines do
/// (sent or hinted), blank lines and context directives do not.
pub fn records_history(out: &LineOutcome) -> (b: bool)
    ensures
        b == (out is Send || out is Hint),
{
    match out {
        LineOutcome::Send(_) => true,
        LineOutcome::Hint => true,
        _ => false,
    }
}

} // verus!
