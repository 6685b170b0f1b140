use sally_says_bot::registry::Registry;
use sally_says_bot::router::{
    route_callback, route_message, BotError, CallbackAction, MessageAction, MessageEvent,
};
use sally_says_bot::sticker::StickerRef;

fn submitted_sticker() -> StickerRef {
    StickerRef {
        file_id: String::from("abc"),
        unique_id: String::from("u1"),
        is_animated: false,
        emoji: Some(String::from("\u{1f600}")),
    }
}

#[test]
fn sticker_submission_builds_prompt_and_stores_entry() {
    let mut reg = Registry::new();
    let action = route_message(&mut reg, MessageEvent::Sticker(submitted_sticker()));
    assert_eq!(reg.len(), 1);
    match action {
        MessageAction::SendPrompt(p) => {
            assert_eq!(p.token.chars().count(), 32);
            assert!(p.token.chars().all(|c| c.is_ascii_alphanumeric()));
            assert_eq!(p.yes_payload, format!("{},yes", p.token));
            assert_eq!(p.no_payload, format!("{},no", p.token));
        }
        other => panic!("expected a confirmation prompt, got {:?}", other),
    }
}

#[test]
fn callback_yes_confirms_add_and_consumes_entry() {
    let mut reg = Registry::new();
    let action = route_message(&mut reg, MessageEvent::Sticker(submitted_sticker()));
    let token = match action {
        MessageAction::SendPrompt(p) => p.token,
        other => panic!("expected a confirmation prompt, got {:?}", other),
    };
    let r = route_callback(&mut reg, &format!("{},yes", token));
    assert_eq!(r, Ok(CallbackAction::AddSticker(submitted_sticker())));
    assert_eq!(reg.len(), 0);
    assert_eq!(reg.take(&token), None);
}

#[test]
fn callback_no_asks_for_removal() {
    let mut reg = Registry::new();
    let action = route_message(&mut reg, MessageEvent::Sticker(submitted_sticker()));
    let token = match action {
        MessageAction::SendPrompt(p) => p.token,
        other => panic!("expected a confirmation prompt, got {:?}", other),
    };
    let r = route_callback(&mut reg, &format!("{},no", token));
    assert_eq!(r, Ok(CallbackAction::RemoveSticker(submitted_sticker())));
    assert_eq!(reg.len(), 0);
}

#[test]
fn trigger_text_asks_for_random_reply() {
    let mut reg = Registry::new();
    let text = String::from("\u{6211}\u{611b}\u{838e}\u{8389}");
    let action = route_message(&mut reg, MessageEvent::Text(text));
    assert_eq!(action, MessageAction::ReplyRandomSticker);
    assert_eq!(reg.len(), 0);
}

#[test]
fn plain_text_is_silent() {
    let mut reg = Registry::new();
    let action = route_message(&mut reg, MessageEvent::Text(String::from("hello there")));
    assert_eq!(action, MessageAction::Silent);
    assert_eq!(reg.len(), 0);
}

#[test]
fn trigger_characters_apart_do_not_count() {
    let mut reg = Registry::new();
    let text = String::from("\u{838e}x\u{8389}");
    let action = route_message(&mut reg, MessageEvent::Text(text));
    assert_eq!(action, MessageAction::Silent);
}

#[test]
fn sticker_event_never_reaches_keyword_branch() {
    // Routing is by event shape alone: a sticker submission always yields a
    // confirmation prompt, never the keyword reply.
    let mut reg = Registry::new();
    let action = route_message(&mut reg, MessageEvent::Sticker(submitted_sticker()));
    assert!(matches!(action, MessageAction::SendPrompt(_)));
    let mut reg2 = Registry::new();
    let trigger = String::from("\u{838e}\u{8389}");
    let action2 = route_message(&mut reg2, MessageEvent::Text(trigger));
    assert!(!matches!(action2, MessageAction::SendPrompt(_)));
    assert_eq!(reg2.len(), 0);
}

#[test]
fn unhandled_event_is_silent() {
    let mut reg = Registry::new();
    let action = route_message(&mut reg, MessageEvent::Unhandled);
    assert_eq!(action, MessageAction::Silent);
    assert_eq!(reg.len(), 0);
}

#[test]
fn malformed_callback_is_ignored_without_mutation() {
    let mut reg = Registry::new();
    reg.put(String::from("onlytoken"), submitted_sticker());
    let r = route_callback(&mut reg, "onlytoken");
    assert_eq!(r, Ok(CallbackAction::Acknowledge));
    // The registry is untouched: the stored entry is still there.
    assert_eq!(reg.len(), 1);
    assert_eq!(reg.take("onlytoken"), Some(submitted_sticker()));
}

#[test]
fn unknown_token_fails_with_not_found() {
    let mut reg = Registry::new();
    let r = route_callback(&mut reg, "nonexistent,yes");
    assert_eq!(r, Err(BotError::NotFound));
    assert_eq!(reg.len(), 0);
}

#[test]
fn unknown_decision_consumes_entry_without_mutation() {
    let mut reg = Registry::new();
    reg.put(String::from("tok"), submitted_sticker());
    let r = route_callback(&mut reg, "tok,maybe");
    assert_eq!(r, Ok(CallbackAction::Acknowledge));
    // The entry is consumed even though nothing was mutated.
    assert_eq!(reg.len(), 0);
}

#[test]
fn payload_splits_at_first_comma_only() {
    let mut reg = Registry::new();
    reg.put(String::from("tok"), submitted_sticker());
    // The decision field is everything after the first comma, so "yes,x"
    // is an unknown decision, not an approval.
    let r = route_callback(&mut reg, "tok,yes,x");
    assert_eq!(r, Ok(CallbackAction::Acknowledge));
    assert_eq!(reg.len(), 0);
}

#[test]
fn empty_decision_is_a_no_op() {
    let mut reg = Registry::new();
    reg.put(String::from("tok"), submitted_sticker());
    let r = route_callback(&mut reg, "tok,");
    assert_eq!(r, Ok(CallbackAction::Acknowledge));
    assert_eq!(reg.len(), 0);
}

#[test]
fn callback_is_one_shot() {
    let mut reg = Registry::new();
    let action = route_message(&mut reg, MessageEvent::Sticker(submitted_sticker()));
    let token = match action {
        MessageAction::SendPrompt(p) => p.token,
        other => panic!("expected a confirmation prompt, got {:?}", other),
    };
    let payload = format!("{},yes", token);
    let first = route_callback(&mut reg, &payload);
    assert_eq!(first, Ok(CallbackAction::AddSticker(submitted_sticker())));
    let second = route_callback(&mut reg, &payload);
    assert_eq!(second, Err(BotError::NotFound));
}
