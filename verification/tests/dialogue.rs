use gatekeeper::dialogue::{
    dispatch, edit_after_review, get_markdown_display_name, get_plaintext_display_name,
    invite_expiry, is_bot_blocked_result, locale_from_code, moderation_request_message,
    plan_review, should_forward, Command, Config, Incoming, MessageEvent, Reply, SendError,
    Sender, SessionUpdate, State, INVITE_TTL_SECS,
};
use gatekeeper::review::{Review, ReviewAction};
use gatekeeper::text::{escape_markdown, u64_to_dec};

fn applicant() -> Sender {
    Sender {
        id: 987654,
        first_name: "Ada".to_string(),
        last_name: Some("Lovelace".to_string()),
        username: Some("ada".to_string()),
        language_code: Some(b"de-DE".to_vec()),
    }
}

fn private_message(state_sender: Option<Sender>, event: MessageEvent) -> Incoming {
    Incoming {
        chat_id: 123456,
        chat_is_private: true,
        sender: state_sender,
        event,
    }
}

#[test]
fn approve_flow_reaches_await_approval_and_back_to_start() {
    // a join command prompts for the reason
    let outcome = dispatch(
        &State::Start,
        private_message(Some(applicant()), MessageEvent::Command(Command::Start)),
    );
    assert_eq!(outcome.reply, Some(Reply::ReasonPrompt));
    assert_eq!(outcome.update, SessionUpdate::Store(State::ReceiveReason));

    // the reason posts the moderation request with one token per action
    let outcome = dispatch(
        &State::ReceiveReason,
        private_message(Some(applicant()), MessageEvent::Text("hello".to_string())),
    );
    assert_eq!(outcome.reply, Some(Reply::ReasonReceived));
    assert_eq!(outcome.update, SessionUpdate::EnterAwaitApproval);
    let moderation = outcome.moderation.expect("a reason must post a moderation request");
    assert_eq!(moderation.approve.action, ReviewAction::Approve);
    assert_eq!(moderation.approve.chat_id, 123456);
    assert_eq!(moderation.approve.user_id, 987654);
    assert_eq!(moderation.approve.locale, b"de-DE".to_vec());
    assert_eq!(moderation.deny.action, ReviewAction::Deny);
    assert_eq!(moderation.block.action, ReviewAction::Block);
    assert_eq!(moderation.request_contact.action, ReviewAction::RequestContact);

    // the moderator presses the approve control: the token round-trips and
    // its application issues an invite and clears the session
    let decoded = Review::decode(&moderation.approve.encode()).unwrap();
    let plan = plan_review(&decoded);
    assert!(plan.create_invite);
    assert_eq!(plan.reply, Reply::RequestApproved);
    assert_eq!(plan.update, SessionUpdate::Clear);
    assert!(plan.followup.is_none());

    // with the session removed, a further message finds no session again
    let outcome = dispatch(
        &State::Start,
        private_message(Some(applicant()), MessageEvent::Text("hello again".to_string())),
    );
    assert_eq!(outcome.reply, None);
    assert_eq!(outcome.update, SessionUpdate::Keep);
}

#[test]
fn block_flow_parks_the_session() {
    let token = Review::new(ReviewAction::Block, 123456, 987654, b"de-DE".to_vec());
    let plan = plan_review(&token);
    assert!(!plan.create_invite);
    assert_eq!(plan.reply, Reply::Blocked);
    assert_eq!(plan.update, SessionUpdate::Store(State::Blocked));
    let followup = plan.followup.expect("a block must offer an unblock control");
    assert_eq!(followup.action, ReviewAction::Unblock);
    assert_eq!(followup.chat_id, 123456);
    assert_eq!(followup.user_id, 987654);
    assert_eq!(followup.locale, b"de-DE".to_vec());

    // once blocked, every applicant message is answered the same way and the
    // session does not move
    let events = [
        MessageEvent::Text("please".to_string()),
        MessageEvent::NonText,
        MessageEvent::Command(Command::Start),
        MessageEvent::Command(Command::Cancel),
    ];
    for event in events {
        let outcome = dispatch(&State::Blocked, private_message(Some(applicant()), event));
        assert_eq!(outcome.reply, Some(Reply::Blocked));
        assert_eq!(outcome.update, SessionUpdate::Keep);
        assert!(outcome.moderation.is_none());
        assert!(outcome.delete_moderator_message.is_none());
    }
}

#[test]
fn unblock_and_contact_plans() {
    let unblock = Review::new(ReviewAction::Unblock, 1, 2, b"en".to_vec());
    let plan = plan_review(&unblock);
    assert_eq!(plan.reply, Reply::Unblocked);
    assert_eq!(plan.update, SessionUpdate::Clear);
    assert!(plan.followup.is_none());

    let contact = Review::new(ReviewAction::RequestContact, 1, 2, b"en".to_vec());
    let plan = plan_review(&contact);
    assert_eq!(plan.reply, Reply::ContactRequested);
    assert_eq!(plan.update, SessionUpdate::Clear);
    assert_eq!(plan.followup.expect("contact offers a block control").action, ReviewAction::Block);

    let deny = Review::new(ReviewAction::Deny, 1, 2, b"en".to_vec());
    let plan = plan_review(&deny);
    assert_eq!(plan.reply, Reply::RequestDenied);
    assert_eq!(plan.update, SessionUpdate::Clear);
    assert!(plan.followup.is_none());
}

#[test]
fn cancel_deletes_the_pending_notification() {
    let outcome = dispatch(
        &State::AwaitApproval { message_id: 42 },
        private_message(Some(applicant()), MessageEvent::Command(Command::Cancel)),
    );
    assert_eq!(outcome.reply, Some(Reply::CancellingJoinRequest));
    assert_eq!(outcome.update, SessionUpdate::Clear);
    assert_eq!(outcome.delete_moderator_message, Some(42));

    // without a pending notification there is nothing to delete
    let outcome = dispatch(
        &State::Start,
        private_message(Some(applicant()), MessageEvent::Command(Command::Cancel)),
    );
    assert_eq!(outcome.reply, Some(Reply::CancellingJoinRequest));
    assert_eq!(outcome.delete_moderator_message, None);
}

#[test]
fn group_chats_are_mostly_ignored() {
    let group = |event| Incoming {
        chat_id: -100,
        chat_is_private: false,
        sender: Some(applicant()),
        event,
    };
    for command in [Command::Start, Command::Help, Command::Cancel] {
        let outcome = dispatch(&State::Start, group(MessageEvent::Command(command)));
        assert_eq!(outcome.reply, None);
        assert_eq!(outcome.update, SessionUpdate::Keep);
    }
    // the privacy policy is answered wherever it is asked for
    let outcome = dispatch(&State::Start, group(MessageEvent::Command(Command::Privacy)));
    assert_eq!(outcome.reply, Some(Reply::PrivacyPolicy));
}

#[test]
fn review_waits_and_missing_reasons_are_prompted() {
    let outcome = dispatch(
        &State::AwaitApproval { message_id: 7 },
        private_message(Some(applicant()), MessageEvent::Text("anyone there?".to_string())),
    );
    assert_eq!(outcome.reply, Some(Reply::UnderReview));
    assert_eq!(outcome.update, SessionUpdate::Keep);

    let outcome = dispatch(
        &State::ReceiveReason,
        private_message(Some(applicant()), MessageEvent::NonText),
    );
    assert_eq!(outcome.reply, Some(Reply::ReasonMissing));
    assert_eq!(outcome.update, SessionUpdate::Keep);

    // a text without a sender cannot be attributed: nothing happens
    let outcome = dispatch(
        &State::ReceiveReason,
        private_message(None, MessageEvent::Text("hello".to_string())),
    );
    assert_eq!(outcome.reply, None);
    assert_eq!(outcome.update, SessionUpdate::Keep);
}

#[test]
fn locale_falls_back_to_english() {
    assert_eq!(locale_from_code(&None), b"en".to_vec());
    assert_eq!(locale_from_code(&Some(b"!!".to_vec())), b"en".to_vec());
    assert_eq!(locale_from_code(&Some(b"".to_vec())), b"en".to_vec());
    assert_eq!(locale_from_code(&Some(b"de".to_vec())), b"de".to_vec());
    assert_eq!(locale_from_code(&Some(b"sr-Cyrl".to_vec())), b"sr-Cyrl".to_vec());
}

#[test]
fn display_names_render_exactly() {
    let user = applicant();
    assert_eq!(get_plaintext_display_name(&user), "Ada Lovelace (@ada)");
    assert_eq!(
        get_markdown_display_name(&user),
        "[Ada Lovelace](tg://user?id=987654) \\(@ada\\)"
    );

    let bare = Sender {
        id: 1,
        first_name: "Mr. Dot".to_string(),
        last_name: None,
        username: None,
        language_code: None,
    };
    assert_eq!(get_plaintext_display_name(&bare), "Mr. Dot");
    assert_eq!(get_markdown_display_name(&bare), "[Mr\\. Dot](tg://user?id=1)");
}

#[test]
fn moderation_message_trims_and_escapes_the_reason() {
    let text = moderation_request_message(&applicant(), &"  I code. A lot!  ".to_string());
    assert_eq!(
        text,
        "[Ada Lovelace](tg://user?id=987654) \\(@ada\\) would like to join for the \
         following reason:\n\nI code\\. A lot\\!"
    );
}

#[test]
fn audit_line_is_appended_and_keyboard_withheld_when_blocked() {
    let moderator = Sender {
        id: 5,
        first_name: "Mo".to_string(),
        last_name: None,
        username: Some("mod".to_string()),
        language_code: None,
    };
    let followup = Some(Review::new(ReviewAction::Unblock, 1, 2, b"en".to_vec()));

    let edit = edit_after_review(&"original".to_string(), ReviewAction::Block, &moderator, followup, false);
    assert_eq!(edit.text, "original\n\nBlocked by Mo (@mod)");
    assert_eq!(edit.keyboard.expect("keyboard kept").action, ReviewAction::Unblock);

    let followup = Some(Review::new(ReviewAction::Unblock, 1, 2, b"en".to_vec()));
    let edit = edit_after_review(&"original".to_string(), ReviewAction::Block, &moderator, followup, true);
    assert_eq!(edit.text, "original\n\nBlocked by Mo (@mod)\n\nUser has blocked this bot");
    assert!(edit.keyboard.is_none());

    let edit = edit_after_review(&"t".to_string(), ReviewAction::RequestContact, &moderator, None, false);
    assert_eq!(edit.text, "t\n\nContact requested by Mo (@mod)");
    let edit = edit_after_review(&"t".to_string(), ReviewAction::Approve, &moderator, None, false);
    assert_eq!(edit.text, "t\n\nApproved by Mo (@mod)");
    let edit = edit_after_review(&"t".to_string(), ReviewAction::Deny, &moderator, None, false);
    assert_eq!(edit.text, "t\n\nDenied by Mo (@mod)");
    let edit = edit_after_review(&"t".to_string(), ReviewAction::Unblock, &moderator, None, false);
    assert_eq!(edit.text, "t\n\nUnblocked by Mo (@mod)");
}

#[test]
fn bot_blocked_classification() {
    assert_eq!(is_bot_blocked_result(Ok(())), Ok(false));
    assert_eq!(is_bot_blocked_result(Err(SendError::BotBlocked)), Ok(true));
    assert_eq!(is_bot_blocked_result(Err(SendError::Other)), Err(SendError::Other));
}

#[test]
fn channel_posts_forward_only_from_the_configured_channel() {
    let config = Config {
        primary_chat_id: 10,
        moderator_chat_id: 20,
        channel_id: Some(-30),
    };
    assert!(should_forward(&config, -30));
    assert!(!should_forward(&config, -31));
    let without = Config {
        primary_chat_id: 10,
        moderator_chat_id: 20,
        channel_id: None,
    };
    assert!(!should_forward(&without, -30));
}

#[test]
fn invites_are_time_boxed_to_a_day() {
    assert_eq!(INVITE_TTL_SECS, 86400);
    assert_eq!(invite_expiry(1_700_000_000), 1_700_000_000 + 86400);
}

#[test]
fn sessions_start_at_start() {
    assert_eq!(State::default(), State::Start);
}

#[test]
fn text_helpers_render_exactly() {
    assert_eq!(u64_to_dec(0), "0");
    assert_eq!(u64_to_dec(1234567890), "1234567890");
    assert_eq!(u64_to_dec(u64::MAX), "18446744073709551615");
    assert_eq!(
        escape_markdown(&"_*[]()~`>#+-=|{}.!\\ plain".to_string()),
        "\\_\\*\\[\\]\\(\\)\\~\\`\\>\\#\\+\\-\\=\\|\\{\\}\\.\\!\\\\ plain"
    );
}
