//! The dispatch pump: registration, draining, exactly-once invocation.

use discord_game_sdk::callbacks::{
    complete_result, complete_result_bytes, complete_result_text, complete_result_value,
    CallbackShape, CallbackValue,
};
use discord_game_sdk::discord::Discord;
use discord_game_sdk::error::{
    DiscordError, STATUS_INTERNAL_ERROR, STATUS_NOT_FOUND, STATUS_OK,
};

#[test]
fn three_operations_scan_order() {
    // Register A, B, C in that order; the mock native layer fires B's
    // trampoline, then A's, and leaves C unfired. One pump visits entries in
    // insertion order: A fires, then B; C stays pending.
    let mut d = Discord::new(1).unwrap();
    let (token_a, sender_a) = d.register_callback(CallbackShape::Unit);
    let (token_b, sender_b) = d.register_callback(CallbackShape::Unit);
    let (token_c, _sender_c) = d.register_callback(CallbackShape::Unit);

    complete_result(&sender_b, STATUS_OK);
    complete_result(&sender_a, STATUS_OK);

    let fired = d.run_callbacks(STATUS_OK).unwrap();
    let tokens: Vec<u64> = fired.iter().map(|f| f.token).collect();
    assert_eq!(tokens, vec![token_a, token_b]);
    assert_eq!(d.pending_len(), 1);
    assert_eq!(d.pending_token_at(0), token_c);
}

#[test]
fn all_fire_exactly_once_across_calls() {
    // N operations issued before any poll fire exactly N times in total,
    // each exactly once, across several pumps.
    let mut d = Discord::new(2).unwrap();
    let (token_a, sender_a) = d.register_callback(CallbackShape::Unit);
    let (token_b, sender_b) = d.register_callback(CallbackShape::Unit);
    let (token_c, sender_c) = d.register_callback(CallbackShape::Unit);

    complete_result(&sender_a, STATUS_OK);
    complete_result(&sender_c, STATUS_OK);
    let first = d.run_callbacks(STATUS_OK).unwrap();
    let first_tokens: Vec<u64> = first.iter().map(|f| f.token).collect();
    assert_eq!(first_tokens, vec![token_a, token_c]);

    complete_result(&sender_b, STATUS_OK);
    let second = d.run_callbacks(STATUS_OK).unwrap();
    let second_tokens: Vec<u64> = second.iter().map(|f| f.token).collect();
    assert_eq!(second_tokens, vec![token_b]);

    assert_eq!(d.pending_len(), 0);
    let third = d.run_callbacks(STATUS_OK).unwrap();
    assert!(third.is_empty());
}

#[test]
fn second_delivery_is_ignored() {
    // A misbehaving native stub may send into an entry's channel twice: the
    // channel holds one slot, so the second send is dropped, and once the
    // entry has fired it is gone, so nothing fires again.
    let mut d = Discord::new(3).unwrap();
    let (token, sender) = d.register_callback(CallbackShape::Unit);

    complete_result(&sender, STATUS_OK);
    complete_result(&sender, STATUS_NOT_FOUND);

    let fired = d.run_callbacks(STATUS_OK).unwrap();
    assert_eq!(fired.len(), 1);
    assert_eq!(fired[0].token, token);
    assert_eq!(fired[0].outcome, Ok(CallbackValue::Unit));

    // The entry is removed; a further delivery finds no destination and is
    // swallowed, and no later pump fires anything.
    complete_result(&sender, STATUS_OK);
    let later = d.run_callbacks(STATUS_OK).unwrap();
    assert!(later.is_empty());
    assert_eq!(d.pending_len(), 0);
}

#[test]
fn driver_failure_leaves_entries_pending() {
    // A driver-level failure invalidates the round: the projected error is
    // returned, nothing fires, and every entry stays for the next pump.
    let mut d = Discord::new(4).unwrap();
    let (token_a, sender_a) = d.register_callback(CallbackShape::Unit);
    let (token_b, _sender_b) = d.register_callback(CallbackShape::Unit);
    complete_result(&sender_a, STATUS_OK);

    let out = d.run_callbacks(STATUS_INTERNAL_ERROR);
    assert_eq!(out, Err(DiscordError::InternalError));
    assert_eq!(d.pending_len(), 2);
    assert_eq!(d.pending_token_at(0), token_a);
    assert_eq!(d.pending_token_at(1), token_b);

    // The next successful round retries and drains the ready entry.
    let fired = d.run_callbacks(STATUS_OK).unwrap();
    assert_eq!(fired.len(), 1);
    assert_eq!(fired[0].token, token_a);
    assert_eq!(d.pending_len(), 1);
}

#[test]
fn destruction_abandons_pending_entries() {
    // Dropping the handle while entries are pending leaves no dangling
    // invocation: a trampoline firing afterwards finds its channel without a
    // receiver and its delivery is swallowed, not surfaced.
    let mut d = Discord::new(5).unwrap();
    let (_token_a, sender_a) = d.register_callback(CallbackShape::Unit);
    let (_token_b, sender_b) = d.register_callback(CallbackShape::Text);
    complete_result(&sender_a, STATUS_OK);
    drop(d);
    complete_result(&sender_a, STATUS_OK);
    complete_result_text(&sender_b, STATUS_OK, String::from("late"));
}

#[test]
fn continuation_can_register_again() {
    // The host reacts to a firing by issuing a new operation; the fresh
    // entry gets a fresh token and waits for the next round.
    let mut d = Discord::new(6).unwrap();
    let (token_a, sender_a) = d.register_callback(CallbackShape::Unit);
    complete_result(&sender_a, STATUS_OK);
    let fired = d.run_callbacks(STATUS_OK).unwrap();
    assert_eq!(fired.len(), 1);

    let (token_b, sender_b) = d.register_callback(CallbackShape::Unit);
    assert_ne!(token_a, token_b);
    complete_result(&sender_b, STATUS_OK);
    let fired2 = d.run_callbacks(STATUS_OK).unwrap();
    assert_eq!(fired2.len(), 1);
    assert_eq!(fired2[0].token, token_b);
}

#[test]
fn text_payload_delivered_on_success_only() {
    let mut d = Discord::new(7).unwrap();
    let (_ta, sender_a) = d.register_callback(CallbackShape::Text);
    let (_tb, sender_b) = d.register_callback(CallbackShape::Text);
    complete_result_text(&sender_a, STATUS_OK, String::from("hello"));
    complete_result_text(&sender_b, STATUS_NOT_FOUND, String::from("dropped"));

    let fired = d.run_callbacks(STATUS_OK).unwrap();
    assert_eq!(fired.len(), 2);
    assert_eq!(fired[0].outcome, Ok(CallbackValue::Text(String::from("hello"))));
    assert_eq!(fired[1].outcome, Err(DiscordError::NotFound));
}

#[test]
fn bytes_and_value_payloads() {
    let mut d = Discord::new(8).unwrap();
    let (_ta, sender_a) = d.register_callback(CallbackShape::Bytes);
    let (_tb, sender_b) = d.register_callback(CallbackShape::Value);
    complete_result_bytes(&sender_a, STATUS_OK, vec![1, 2, 3]);
    complete_result_value(&sender_b, STATUS_OK, -9);

    let fired = d.run_callbacks(STATUS_OK).unwrap();
    assert_eq!(fired.len(), 2);
    assert_eq!(fired[0].shape, CallbackShape::Bytes);
    assert_eq!(fired[0].outcome, Ok(CallbackValue::Bytes(vec![1, 2, 3])));
    assert_eq!(fired[1].shape, CallbackShape::Value);
    assert_eq!(fired[1].outcome, Ok(CallbackValue::Value(-9)));
}
