use buschat::input::{records_history, InputState, LineOutcome};

#[test]
fn startup_state() {
    let st = InputState::new();
    assert!(st.ctx.is_none());
    assert_eq!(st.prompt, "=> ");
}

#[test]
fn empty_line_ignored() {
    let mut st = InputState::new();
    let out = st.step("");
    assert!(matches!(out, LineOutcome::Ignored));
    assert!(st.ctx.is_none());
    assert_eq!(st.prompt, "=> ");
}

#[test]
fn blank_line_ignored() {
    let mut st = InputState::new();
    st.step("=bob");
    let out = st.step("  \t ");
    assert!(matches!(out, LineOutcome::Ignored));
    assert_eq!(st.ctx.as_deref(), Some("bob"));
}

#[test]
fn directive_sets_context_and_prompt() {
    let mut st = InputState::new();
    let out = st.step("=peer1");
    assert!(matches!(out, LineOutcome::ContextSet));
    assert_eq!(st.ctx.as_deref(), Some("peer1"));
    assert_eq!(st.prompt, "[peer1] => ");
}

#[test]
fn directive_trims_its_argument() {
    let mut st = InputState::new();
    let out = st.step("=  spaced \t");
    assert!(matches!(out, LineOutcome::ContextSet));
    assert_eq!(st.ctx.as_deref(), Some("spaced"));
    assert_eq!(st.prompt, "[spaced] => ");
}

#[test]
fn bare_directive_gives_empty_context() {
    let mut st = InputState::new();
    let out = st.step("=");
    assert!(matches!(out, LineOutcome::ContextSet));
    assert_eq!(st.ctx.as_deref(), Some(""));
    assert_eq!(st.prompt, "[] => ");
}

#[test]
fn embedded_equals_stays_in_context() {
    let mut st = InputState::new();
    let out = st.step("=a=b");
    assert!(matches!(out, LineOutcome::ContextSet));
    assert_eq!(st.ctx.as_deref(), Some("a=b"));
}

#[test]
fn send_with_context() {
    let mut st = InputState::new();
    st.step("=bob");
    let out = st.step("hello world");
    match out {
        LineOutcome::Send(intent) => {
            assert_eq!(intent.to, "bob");
            assert_eq!(intent.msg, "hello world");
        }
        _ => panic!("expected a send"),
    }
    assert_eq!(st.ctx.as_deref(), Some("bob"));
    assert_eq!(st.prompt, "[bob] => ");
}

#[test]
fn send_keeps_body_untrimmed() {
    let mut st = InputState::new();
    st.step("=bob");
    let out = st.step("  hi there  ");
    match out {
        LineOutcome::Send(intent) => {
            assert_eq!(intent.msg, "  hi there  ");
        }
        _ => panic!("expected a send"),
    }
}

#[test]
fn equals_after_blank_is_a_message() {
    let mut st = InputState::new();
    st.step("=bob");
    let out = st.step(" =carol");
    match out {
        LineOutcome::Send(intent) => {
            assert_eq!(intent.to, "bob");
            assert_eq!(intent.msg, " =carol");
        }
        _ => panic!("expected a send"),
    }
    assert_eq!(st.ctx.as_deref(), Some("bob"));
}

#[test]
fn hint_without_context() {
    let mut st = InputState::new();
    let out = st.step("hello");
    assert!(matches!(out, LineOutcome::Hint));
    assert!(st.ctx.is_none());
    assert_eq!(st.prompt, "=> ");
}

#[test]
fn history_records_chat_lines_only() {
    let mut st = InputState::new();
    let hinted = st.step("hello");
    assert!(records_history(&hinted));
    let directive = st.step("=bob");
    assert!(!records_history(&directive));
    let sent = st.step("hi");
    assert!(records_history(&sent));
    let ignored = st.step("");
    assert!(!records_history(&ignored));
}
