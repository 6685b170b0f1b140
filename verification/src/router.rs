//! The event router: dispatches an inbound event by its shape. A text
//! message holding the trigger name asks for a random sticker reply; a
//! sticker submission stores a fresh token in the registry and asks for a
//! confirmation prompt; a button callback is parsed, its pending entry
//! consumed, and the matching collection mutation requested.

use vstd::prelude::*;
use vstd::string::StringExecFns;

use crate::random::{fresh_rng, generate_token, is_token};
use crate::registry::Registry;
use crate::sticker::StickerRef;
use crate::text::{
    classify_decision, contains_trigger, decision_part, has_comma, spec_decision, split_payload,
    text_has_trigger, token_part, Decision,
};

verus! {

/// An inbound event, already classified by shape by the transport: a text
/// message, a sticker message, or anything else the router ignores. The
/// classification is a tagged union, so a sticker's caption can never reach
/// the keyword branch.
#[derive(Debug, PartialEq)]
pub enum MessageEvent {
    Text(String),
    Sticker(StickerRef),
    Unhandled,
}

/// The confirmation prompt to send after a sticker submission: its two
/// buttons carry the same fresh token, joined to the user's decision.
#[derive(Debug, PartialEq)]
pub struct ConfirmPrompt {
    pub token: String,
    pub yes_payload: String,
    pub no_payload: String,
}

/// What the transport must do in reply to a message event.
#[derive(Debug, PartialEq)]
pub enum MessageAction {
    /// Fetch the collection and reply with one randomly chosen member;
    /// stay silent if the collection is empty.
    ReplyRandomSticker,
    /// Send a yes/no confirmation prompt with the two given button payloads.
    SendPrompt(ConfirmPrompt),
    /// Send nothing.
    Silent,
}

/// The payload suffix of the approving button.
pub open spec fn yes_suffix() -> Seq<char> {
    seq![',', 'y', 'e', 's']
}

/// The payload suffix of the rejecting button.
pub open spec fn no_suffix() -> Seq<char> {
    seq![',', 'n', 'o']
}

/// A well-formed prompt: a 32-character alphanumeric token, and the two
/// payloads made of that token plus ",yes" and ",no".
pub open spec fn prompt_ok(p: ConfirmPrompt) -> bool {
    &&& is_token(p.token@)
    &&& p.yes_payload@ == p.token@ + yes_suffix()
    &&& p.no_payload@ == p.token@ + no_suffix()
}

/// Routes an inbound message event. A text message asks for a random
/// sticker reply exactly when it contains the trigger name, and leaves the
/// registry alone. A sticker submission stores the sticker under a fresh
/// token and asks for a confirmation prompt carrying that token. Any other
/// event is ignored.
pub fn route_message(reg: &mut Registry, ev: MessageEvent) -> (r: MessageAction)
    ensures
        match ev {
            MessageEvent::Text(t) => {
                &&& final(reg)@ == old(reg)@
                &&& r == (if contains_trigger(t@) {
                    MessageAction::ReplyRandomSticker
                } else {
                    MessageAction::Silent
                })
            },
            MessageEvent::Sticker(s) => {
                &&& (r matches MessageAction::SendPrompt(p) && prompt_ok(p) && final(reg)@ == old(
                    reg,
                )@.insert(p.token@, s))
            },
            MessageEvent::Unhandled => {
                &&& final(reg)@ == old(reg)@
                &&& r == MessageAction::Silent
            },
        },
{
    match ev {
        MessageEvent::Text(t) => {
            if text_has_trigger(t.as_str()) {
                MessageAction::ReplyRandomSticker
            } else {
                MessageAction::Silent
            }
        },
        MessageEvent::Sticker(s) => {
            let mut rng = fresh_rng();
            let token = generate_token(&mut rng);
            let yes_payload = token.clone().concat(",yes");
            let no_payload = token.clone().concat(",no");
            proof {
                reveal_strlit(",yes");
                reveal_strlit(",no");
                assert(",yes"@ =~= yes_suffix());
                assert(",no"@ =~= no_suffix());
            }
            reg.put(token.clone(), s);
            MessageAction::SendPrompt(ConfirmPrompt { token, yes_payload, no_payload })
        },
        MessageEvent::Unhandled => MessageAction::Silent,
    }
}

/// Error taxonomy surfaced to the caller of the callback and mutation
/// paths.
#[derive(Clone, Copy, Debug, PartialEq, Eq, Structural)]
pub enum BotError {
    /// The token is absent from the registry, or the sticker is absent
    /// from the live collection on removal.
    NotFound,
    /// The stored reference carries no emoji metadata, which the original
    /// submission was required to include.
    MissingEmoji,
}

/// What the transport must do in reply to a button callback.
#[derive(Debug, PartialEq)]
pub enum CallbackAction {
    /// Add the sticker to the managed collection.
    AddSticker(StickerRef),
    /// Remove the sticker from the managed collection.
    RemoveSticker(StickerRef),
    /// Acknowledge the callback; nothing to mutate.
    Acknowledge,
}

/// The mutation a consumed entry asks for, given the decision field.
pub open spec fn action_for(d: Seq<char>, s: StickerRef) -> CallbackAction {
    match spec_decision(d) {
        Decision::Approve => CallbackAction::AddSticker(s),
        Decision::Reject => CallbackAction::RemoveSticker(s),
        Decision::Other => CallbackAction::Acknowledge,
    }
}

/// Routes a button callback. A payload without a comma is malformed and
/// silently acknowledged, with the registry untouched. Otherwise the
/// payload splits at its first comma into token and decision: an unknown
/// token is a genuine anomaly and fails with NotFound, leaving the
/// registry unchanged; a known token consumes its entry one-shot, and the
/// decision picks the mutation ("yes" adds, "no" removes, anything else is
/// acknowledged with the entry still consumed).
pub fn route_callback(reg: &mut Registry, payload: &str) -> (r: Result<CallbackAction, BotError>)
    ensures
        !has_comma(payload@) ==> {
            &&& r == Ok::<CallbackAction, BotError>(CallbackAction::Acknowledge)
            &&& final(reg)@ == old(reg)@
        },
        has_comma(payload@) && !old(reg)@.contains_key(token_part(payload@)) ==> {
            &&& r == Err::<CallbackAction, BotError>(BotError::NotFound)
            &&& final(reg)@ == old(reg)@
        },
        has_comma(payload@) && old(reg)@.contains_key(token_part(payload@)) ==> {
            &&& final(reg)@ == old(reg)@.remove(token_part(payload@))
            &&& r == Ok::<CallbackAction, BotError>(
                action_for(decision_part(payload@), old(reg)@[token_part(payload@)]),
            )
        },
{
    match split_payload(payload) {
        None => Ok(CallbackAction::Acknowledge),
        Some((token, decision)) => {
            match reg.take(token.as_str()) {
                None => Err(BotError::NotFound),
                Some(sticker) => {
                    match classify_decision(decision.as_str()) {
                        Decision::Approve => Ok(CallbackAction::AddSticker(sticker)),
                        Decision::Reject => Ok(CallbackAction::RemoveSticker(sticker)),
                        Decision::Other => Ok(CallbackAction::Acknowledge),
                    }
                },
            }
        },
    }
}

} // verus!
