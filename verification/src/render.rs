//! Everything the client shows or addresses, pinned down as sequences of
//! characters: the prompt, the inbound-message line, the outbound bus
//! endpoint, the send acknowledgments and the missing-context hint.

use vstd::prelude::*;
use vstd::string::StringExecFns;

verus! {

/// The view of an optional conversation context.
pub open spec fn ctx_view(ctx: Option<String>) -> Option<Seq<char>> {
    match ctx {
        Some(c) => Some(c@),
        None => None,
    }
}

/// The prompt for a given context: `"=> "` while none is set,
/// `"[<context>] => "` once one is.
pub open spec fn prompt_spec(ctx: Option<Seq<char>>) -> Seq<char> {
    match ctx {
        Some(c) => "["@ + c + "] => "@,
        None => "=> "@,
    }
}

/// Render the prompt for a context.
pub fn prompt_for(ctx: &Option<String>) -> (p: String)
    ensures
        p@ == prompt_spec(ctx_view(*ctx)),
{
    match ctx {
        Some(c) => {
            let mut p = "[".to_owned();
            p.append(c.as_str());
            p.append("] => ");
            p
        },
        None => "=> ".to_owned(),
    }
}

/// How an inbound chat event is shown: `"[from: <sender>]: <body>"`.
pub open spec fn inbound_line_spec(sender: Seq<char>, body: Seq<char>) -> Seq<char> {
    "[from: "@ + sender + "]: "@ + body
}

/// Render an inbound chat event for the console.
pub fn format_inbound(sender: &str, body: &str) -> (r: String)
    ensures
        r@ == inbound_line_spec(sender@, body@),
{
    let mut r = "[from: ".to_owned();
    r.append(sender);
    r.append("]: ");
    r.append(body);
    r
}

/// The outbound bus address of a target's chat endpoint:
/// `"/net/<target>/chat"`.
pub open spec fn endpoint_spec(target: Seq<char>) -> Seq<char> {
    "/net/"@ + target + "/chat"@
}

/// Render the outbound bus address for a target.
pub fn chat_endpoint(target: &str) -> (r: String)
    ensures
        r@ == endpoint_spec(target@),
{
    let mut r = "/net/".to_owned();
    r.append(target);
    r.append("/chat");
    r
}

/// The endpoint this client binds for inbound chat.
pub fn public_chat_endpoint() -> (r: &'static str)
    ensures
        r@ == "/public/chat"@,
{
    "/public/chat"
}

/// The acknowledgment a completed send prints: a fixed line on success, the
/// error detail appended on failure.
pub open spec fn ack_line_spec(outcome: Result<(), Seq<char>>) -> Seq<char> {
    match outcome {
        Ok(_) => "send done!"@,
        Err(detail) => "send error: "@ + detail,
    }
}

/// Render the acknowledgment for a send outcome, the failure detail given as
/// the error's rendered text.
pub fn ack_line(outcome: &Result<(), String>) -> (r: String)
    ensures
        ({
            match *outcome {
                Ok(u) => r@ == ack_line_spec(Ok(u)),
                Err(ref detail) => r@ == ack_line_spec(Err(detail@)),
            }
        }),
{
    match outcome {
        Ok(_) => "send done!".to_owned(),
        Err(detail) => {
            let mut r = "send error: ".to_owned();
            r.append(detail.as_str());
            r
        },
    }
}

/// The hint shown on the error channel when a chat line is typed while no
/// context is set.
pub fn context_hint() -> (r: &'static str)
    ensures
        r@ == "setup context, for eg. =0x889ff52ece3d5368051f4f8216650a7843f8926b"@,
{
    "setup context, for eg. =0x889ff52ece3d5368051f4f8216650a7843f8926b"
}

} // verus!
