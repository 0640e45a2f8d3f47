//! The relay (echo) command's dispatch decision: which platform call
//! its optional text, reply target, direct-message target and
//! attachment combine into.

use vstd::prelude::*;

verus! {

/// The one platform action an echo invocation performs.
#[derive(Clone, Copy, Debug, PartialEq, Eq, Structural)]
pub enum EchoAction {
    /// Reply, pinging, to the given message with the text (a reply
    /// carries no attachment, even when one was supplied).
    ReplyToMessage,
    /// Direct-message the given user.
    DirectMessage { with_text: bool, with_attachment: bool },
    /// Send to the invoking channel.
    SendToChannel { with_text: bool, with_attachment: bool },
    /// Nothing was supplied that could be sent.
    DoNothing,
}

/// The decision tree of the relay command. A reply target is only
/// honoured together with text; otherwise a direct-message target wins
/// over the channel; with neither text nor attachment nothing happens.
pub open spec fn spec_plan_echo(
    has_text: bool,
    has_reply_target: bool,
    has_user: bool,
    has_attachment: bool,
) -> EchoAction {
    if has_attachment {
        if has_reply_target && has_text {
            EchoAction::ReplyToMessage
        } else if has_user {
            EchoAction::DirectMessage { with_text: has_text, with_attachment: true }
        } else {
            EchoAction::SendToChannel { with_text: has_text, with_attachment: true }
        }
    } else if has_text {
        if has_reply_target {
            EchoAction::ReplyToMessage
        } else if has_user {
            EchoAction::DirectMessage { with_text: true, with_attachment: false }
        } else {
            EchoAction::SendToChannel { with_text: true, with_attachment: false }
        }
    } else {
        EchoAction::DoNothing
    }
}

/// Decides what one echo invocation does with the platform.
pub fn plan_echo(has_text: bool, has_reply_target: bool, has_user: bool, has_attachment: bool) -> (
    action: EchoAction)
    ensures
        action == spec_plan_echo(has_text, has_reply_target, has_user, has_attachment),
{
    if has_attachment {
        if has_reply_target && has_text {
            EchoAction::ReplyToMessage
        } else if has_user {
            EchoAction::DirectMessage { with_text: has_text, with_attachment: true }
        } else {
            EchoAction::SendToChannel { with_text: has_text, with_attachment: true }
        }
    } else if has_text {
        if has_reply_target {
            EchoAction::ReplyToMessage
        } else if has_user {
            EchoAction::DirectMessage { with_text: true, with_attachment: false }
        } else {
            EchoAction::SendToChannel { with_text: true, with_attachment: false }
        }
    } else {
        EchoAction::DoNothing
    }
}

} // verus!
