//! The join-dialogue state machine. A session moves from `Start` through
//! `ReceiveReason` to `AwaitApproval`, and from there is resolved by a
//! moderator's decision or parked in `Blocked`. The decisions live here as
//! pure transition functions; delivering notifications, posting the moderator
//! message and storing sessions are the caller's, which hands back plain
//! values (the posted message id, the delivery outcome).

use crate::review::{locale_ok, Review, ReviewAction, ReviewData};
use crate::text::{
    dec_str, escape_markdown, md_escaped, push_char, trim_text, trimmed_of, u64_to_dec,
};
use vstd::prelude::*;
use vstd::string::StringExecFns;

verus! {

/// A session's state. `AwaitApproval` carries the id of the moderator
/// notification awaiting resolution; `Blocked` is durable until a moderator
/// unblocks the applicant.
#[derive(Clone, Copy, Debug, PartialEq, Eq, Structural)]
pub enum State {
    Start,
    ReceiveReason,
    AwaitApproval { message_id: i32 },
    Blocked,
}

impl Default for State {
    /// A chat without a session is at `Start`.
    fn default() -> (r: Self)
        ensures
            r == State::Start,
    {
        State::Start
    }
}

/// The process configuration the workflow reads.
pub struct Config {
    pub primary_chat_id: i64,
    pub moderator_chat_id: i64,
    pub channel_id: Option<i64>,
}

/// A channel post is forwarded (and pinned) into the primary chat exactly
/// when it originates from the configured channel.
pub fn should_forward(config: &Config, origin_chat: i64) -> (r: bool)
    ensures
        r == (config.channel_id == Some(origin_chat)),
{
    match config.channel_id {
        Some(id) => id == origin_chat,
        None => false,
    }
}

/// How long an invite credential stays valid, in seconds.
pub const INVITE_TTL_SECS: i64 = 86400;

/// When an invite issued now expires: a single-use invite is time-boxed to a
/// day.
pub fn invite_expiry(now: i64) -> (t: i64)
    requires
        now <= i64::MAX - INVITE_TTL_SECS,
    ensures
        t == now + INVITE_TTL_SECS,
{
    now + INVITE_TTL_SECS
}

/// The applicant or moderator a message came from.
pub struct Sender {
    pub id: u64,
    pub first_name: String,
    pub last_name: Option<String>,
    pub username: Option<String>,
    pub language_code: Option<Vec<u8>>,
}

/// The locale every token and notification falls back to.
pub open spec fn fallback_locale() -> Seq<u8> {
    seq![101u8, 110u8]  // the bytes of "en"
}

/// The locale a message resolves to: the sender's language code where it is a
/// well-formed language tag that fits the token scheme, the fallback
/// otherwise.
pub open spec fn spec_locale_from_code(code: Option<Seq<u8>>) -> Seq<u8> {
    match code {
        Some(c) => if locale_ok(c) && c.len() <= 255 {
            c
        } else {
            fallback_locale()
        },
        None => fallback_locale(),
    }
}

fn fallback_locale_bytes() -> (r: Vec<u8>)
    ensures
        r@ == fallback_locale(),
{
    let mut v: Vec<u8> = Vec::new();
    v.push(101);
    v.push(110);
    proof {
        assert(v@ =~= fallback_locale());
    }
    v
}

/// Resolve a sender's language code to the locale used in tokens and
/// notifications.
pub fn locale_from_code(code: &Option<Vec<u8>>) -> (r: Vec<u8>)
    ensures
        r@ == spec_locale_from_code(code.deep_view()),
        r@.len() <= 255,
{
    match code {
        Some(c) => {
            proof {
                assert(c.deep_view() =~= c@);
            }
            if c.len() <= 255 && crate::review::check_locale_bytes(c) {
                vstd::slice::slice_to_vec(c.as_slice())
            } else {
                fallback_locale_bytes()
            }
        },
        None => fallback_locale_bytes(),
    }
}

/// A sender's full name: the first name, then the last name if there is one.
pub open spec fn full_name_of(user: Sender) -> Seq<char> {
    match user.last_name {
        Some(last) => user.first_name@ + seq![' '] + last@,
        None => user.first_name@,
    }
}

/// The plain-text display name: the full name, then the username in
/// parentheses if there is one.
pub open spec fn plain_display_name_of(user: Sender) -> Seq<char> {
    full_name_of(user) + match user.username {
        Some(name) => " (@"@ + name@ + seq![')'],
        None => Seq::<char>::empty(),
    }
}

/// The MarkdownV2 display name: the escaped full name as a link to the user,
/// then the escaped username part if there is one.
pub open spec fn md_display_name_of(user: Sender) -> Seq<char> {
    seq!['['] + md_escaped(full_name_of(user)) + "](tg://user?id="@ + dec_str(user.id as nat)
        + seq![')'] + match user.username {
        Some(name) => md_escaped(" (@"@ + name@ + seq![')']),
        None => Seq::<char>::empty(),
    }
}

fn full_name(user: &Sender) -> (r: String)
    ensures
        r@ == full_name_of(*user),
{
    let mut name = user.first_name.clone();
    match &user.last_name {
        Some(last) => {
            push_char(&mut name, ' ');
            name.append(last.as_str());
        },
        None => {},
    }
    name
}

/// The display name a plain-text context shows for a sender.
pub fn get_plaintext_display_name(user: &Sender) -> (r: String)
    ensures
        r@ == plain_display_name_of(*user),
{
    let mut name = full_name(user);
    match &user.username {
        Some(username) => {
            name.append(" (@");
            name.append(username.as_str());
            push_char(&mut name, ')');
        },
        None => {},
    }
    proof {
        assert(name@ =~= plain_display_name_of(*user));
    }
    name
}

/// The display name a MarkdownV2 context shows for a sender: a user link.
pub fn get_markdown_display_name(user: &Sender) -> (r: String)
    ensures
        r@ == md_display_name_of(*user),
{
    let name = full_name(user);
    let mut out = String::new();
    push_char(&mut out, '[');
    let escaped = escape_markdown(&name);
    out.append(escaped.as_str());
    out.append("](tg://user?id=");
    let id_text = u64_to_dec(user.id);
    out.append(id_text.as_str());
    push_char(&mut out, ')');
    match &user.username {
        Some(username) => {
            let mut tag = String::new();
            tag.append(" (@");
            tag.append(username.as_str());
            push_char(&mut tag, ')');
            let escaped_tag = escape_markdown(&tag);
            out.append(escaped_tag.as_str());
            proof {
                assert(tag@ =~= " (@"@ + username@ + seq![')']);
            }
        },
        None => {},
    }
    proof {
        assert(out@ =~= md_display_name_of(*user));
    }
    out
}

/// The moderator notification for a join request: who asks, and the trimmed,
/// escaped reason they gave.
pub open spec fn moderation_request_text(user: Sender, reason: Seq<char>) -> Seq<char> {
    md_display_name_of(user) + " would like to join for the following reason:\n\n"@ + md_escaped(
        trimmed_of(reason),
    )
}

/// Build the moderator notification for a join request.
pub fn moderation_request_message(user: &Sender, reason: &String) -> (r: String)
    ensures
        r@ == moderation_request_text(*user, reason@),
{
    let mut text = get_markdown_display_name(user);
    text.append(" would like to join for the following reason:\n\n");
    let trimmed = trim_text(reason);
    let escaped = escape_markdown(&trimmed);
    text.append(escaped.as_str());
    proof {
        assert(text@ =~= moderation_request_text(*user, reason@));
    }
    text
}

/// A command an applicant can issue in the private chat.
#[derive(Clone, Copy, Debug, PartialEq, Eq, Structural)]
pub enum Command {
    Help,
    Privacy,
    Start,
    Cancel,
}

/// What kind of message arrived: a recognized command, an ordinary text
/// message carrying its text, or something without text.
pub enum MessageEvent {
    Command(Command),
    Text(String),
    NonText,
}

/// An incoming applicant-side message, reduced to what the state machine
/// reads.
pub struct Incoming {
    pub chat_id: i64,
    pub chat_is_private: bool,
    pub sender: Option<Sender>,
    pub event: MessageEvent,
}

/// Which localized notification the applicant receives.
#[derive(Clone, Copy, Debug, PartialEq, Eq, Structural)]
pub enum Reply {
    ReasonPrompt,
    ReasonMissing,
    ReasonReceived,
    UnderReview,
    Blocked,
    CancellingJoinRequest,
    Help,
    PrivacyPolicy,
    RequestApproved,
    RequestDenied,
    Unblocked,
    ContactRequested,
}

/// What happens to the session. `EnterAwaitApproval` asks the caller to post
/// the moderation request and store `AwaitApproval` with the id of the
/// message it posted.
#[derive(Clone, Copy, Debug, PartialEq, Eq, Structural)]
pub enum SessionUpdate {
    Keep,
    Store(State),
    Clear,
    EnterAwaitApproval,
}

/// The moderator notification a join request produces: its text and one
/// token per offered decision.
pub struct ModerationRequest {
    pub text: String,
    pub approve: Review,
    pub deny: Review,
    pub block: Review,
    pub request_contact: Review,
}

/// Everything an applicant-side message makes the workflow do.
pub struct MessageOutcome {
    pub reply: Option<Reply>,
    pub update: SessionUpdate,
    pub delete_moderator_message: Option<i32>,
    pub moderation: Option<ModerationRequest>,
}

/// The token a join request offers for one action.
pub open spec fn offered_token(msg: Incoming, user: Sender, action: ReviewAction) -> ReviewData {
    ReviewData {
        action,
        chat_id: msg.chat_id,
        user_id: user.id,
        locale: spec_locale_from_code(user.language_code.deep_view()),
    }
}

/// An outcome that replies nothing and changes nothing.
pub open spec fn is_silence(o: MessageOutcome) -> bool {
    &&& o.reply is None
    &&& o.update == SessionUpdate::Keep
    &&& o.delete_moderator_message is None
    &&& o.moderation is None
}

/// An outcome that only replies.
pub open spec fn is_plain_reply(o: MessageOutcome, reply: Reply) -> bool {
    &&& o.reply == Some(reply)
    &&& o.update == SessionUpdate::Keep
    &&& o.delete_moderator_message is None
    &&& o.moderation is None
}

/// Advance a session on an applicant-side message.
///
/// Routing order, as the update schema wires it: a blocked session answers
/// everything; then commands; then the state-specific handling of ordinary
/// messages. A message in an unknown context is ignored.
pub fn dispatch(state: &State, msg: Incoming) -> (o: MessageOutcome)
    ensures
        // a blocked session never advances and is answered the same way
        // whatever the message holds, in the private chat only
        *state == State::Blocked ==> o.update == SessionUpdate::Keep && o.moderation is None
            && o.delete_moderator_message is None && o.reply == (if msg.chat_is_private {
            Some(Reply::Blocked)
        } else {
            None::<Reply>
        }),
        // the join command prompts for a reason and opens the session
        (*state != State::Blocked && (msg.event matches MessageEvent::Command(Command::Start)))
            ==> (if msg.chat_is_private {
            o.reply == Some(Reply::ReasonPrompt) && o.update == SessionUpdate::Store(
                State::ReceiveReason,
            ) && o.delete_moderator_message is None && o.moderation is None
        } else {
            is_silence(o)
        }),
        (*state != State::Blocked && (msg.event matches MessageEvent::Command(Command::Help)))
            ==> (if msg.chat_is_private {
            is_plain_reply(o, Reply::Help)
        } else {
            is_silence(o)
        }),
        // the privacy command is answered wherever it is issued
        (*state != State::Blocked && (msg.event matches MessageEvent::Command(Command::Privacy)))
            ==> is_plain_reply(o, Reply::PrivacyPolicy),
        // cancelling deletes the pending moderator notification, if any, and
        // closes the session
        (*state != State::Blocked && (msg.event matches MessageEvent::Command(Command::Cancel)))
            ==> (if msg.chat_is_private {
            o.reply == Some(Reply::CancellingJoinRequest) && o.update == SessionUpdate::Clear
                && o.moderation is None && o.delete_moderator_message == (match *state {
                State::AwaitApproval { message_id } => Some(message_id),
                _ => None::<i32>,
            })
        } else {
            is_silence(o)
        }),
        // a text reason posts the moderation request with one token per
        // offered decision and moves the session to await approval
        *state == State::ReceiveReason ==> (msg.event matches MessageEvent::Text(reason) ==> (
        msg.sender matches Some(user) ==> {
            &&& o.reply == Some(Reply::ReasonReceived)
            &&& o.update == SessionUpdate::EnterAwaitApproval
            &&& o.delete_moderator_message is None
            &&& (o.moderation matches Some(m) && m.text@ == moderation_request_text(
                user,
                reason@,
            ) && m.approve@ == offered_token(msg, user, ReviewAction::Approve) && m.deny@
                == offered_token(msg, user, ReviewAction::Deny) && m.block@ == offered_token(
                msg,
                user,
                ReviewAction::Block,
            ) && m.request_contact@ == offered_token(msg, user, ReviewAction::RequestContact))
        })),
        (*state == State::ReceiveReason && msg.sender is None && (msg.event
            matches MessageEvent::Text(_))) ==> is_silence(o),
        // a message without text cannot carry a reason
        (*state == State::ReceiveReason && (msg.event matches MessageEvent::NonText))
            ==> is_plain_reply(o, Reply::ReasonMissing),
        // while a request is under review, ordinary messages are held off
        ((*state matches State::AwaitApproval { .. }) && !(msg.event
            matches MessageEvent::Command(_))) ==> is_plain_reply(o, Reply::UnderReview),
        // without a session, ordinary messages are ignored
        (*state == State::Start && !(msg.event matches MessageEvent::Command(_))) ==> is_silence(
            o,
        ),
{
    if *state == State::Blocked {
        return MessageOutcome {
            reply: if msg.chat_is_private {
                Some(Reply::Blocked)
            } else {
                None
            },
            update: SessionUpdate::Keep,
            delete_moderator_message: None,
            moderation: None,
        };
    }
    match msg.event {
        MessageEvent::Command(command) => {
            if command == Command::Privacy {
                return MessageOutcome {
                    reply: Some(Reply::PrivacyPolicy),
                    update: SessionUpdate::Keep,
                    delete_moderator_message: None,
                    moderation: None,
                };
            }
            if !msg.chat_is_private {
                return MessageOutcome {
                    reply: None,
                    update: SessionUpdate::Keep,
                    delete_moderator_message: None,
                    moderation: None,
                };
            }
            match command {
                Command::Start => MessageOutcome {
                    reply: Some(Reply::ReasonPrompt),
                    update: SessionUpdate::Store(State::ReceiveReason),
                    delete_moderator_message: None,
                    moderation: None,
                },
                Command::Help => MessageOutcome {
                    reply: Some(Reply::Help),
                    update: SessionUpdate::Keep,
                    delete_moderator_message: None,
                    moderation: None,
                },
                Command::Cancel => MessageOutcome {
                    reply: Some(Reply::CancellingJoinRequest),
                    update: SessionUpdate::Clear,
                    delete_moderator_message: match state {
                        State::AwaitApproval { message_id } => Some(*message_id),
                        _ => None,
                    },
                    moderation: None,
                },
                Command::Privacy => MessageOutcome {
                    reply: Some(Reply::PrivacyPolicy),
                    update: SessionUpdate::Keep,
                    delete_moderator_message: None,
                    moderation: None,
                },
            }
        },
        MessageEvent::Text(reason) => {
            match state {
                State::ReceiveReason => {
                    match msg.sender {
                        Some(user) => {
                            let locale = locale_from_code(&user.language_code);
                            let text = moderation_request_message(&user, &reason);
                            let approve = Review::new(
                                ReviewAction::Approve,
                                msg.chat_id,
                                user.id,
                                vstd::slice::slice_to_vec(locale.as_slice()),
                            );
                            let deny = Review::new(
                                ReviewAction::Deny,
                                msg.chat_id,
                                user.id,
                                vstd::slice::slice_to_vec(locale.as_slice()),
                            );
                            let block = Review::new(
                                ReviewAction::Block,
                                msg.chat_id,
                                user.id,
                                vstd::slice::slice_to_vec(locale.as_slice()),
                            );
                            let request_contact = Review::new(
                                ReviewAction::RequestContact,
                                msg.chat_id,
                                user.id,
                                locale,
                            );
                            MessageOutcome {
                                reply: Some(Reply::ReasonReceived),
                                update: SessionUpdate::EnterAwaitApproval,
                                delete_moderator_message: None,
                                moderation: Some(
                                    ModerationRequest {
                                        text,
                                        approve,
                                        deny,
                                        block,
                                        request_contact,
                                    },
                                ),
                            }
                        },
                        None => MessageOutcome {
                            reply: None,
                            update: SessionUpdate::Keep,
                            delete_moderator_message: None,
                            moderation: None,
                        },
                    }
                },
                State::AwaitApproval { .. } => MessageOutcome {
                    reply: Some(Reply::UnderReview),
                    update: SessionUpdate::Keep,
                    delete_moderator_message: None,
                    moderation: None,
                },
                _ => MessageOutcome {
                    reply: None,
                    update: SessionUpdate::Keep,
                    delete_moderator_message: None,
                    moderation: None,
                },
            }
        },
        MessageEvent::NonText => {
            match state {
                State::ReceiveReason => MessageOutcome {
                    reply: Some(Reply::ReasonMissing),
                    update: SessionUpdate::Keep,
                    delete_moderator_message: None,
                    moderation: None,
                },
                State::AwaitApproval { .. } => MessageOutcome {
                    reply: Some(Reply::UnderReview),
                    update: SessionUpdate::Keep,
                    delete_moderator_message: None,
                    moderation: None,
                },
                _ => MessageOutcome {
                    reply: None,
                    update: SessionUpdate::Keep,
                    delete_moderator_message: None,
                    moderation: None,
                },
            }
        },
    }
}

/// Everything applying a decoded review token makes the workflow do, in
/// order: create the invite if one is owed, notify the applicant, store or
/// clear the session, and offer the follow-up control.
pub struct ReviewPlan {
    /// Approve only: issue a single-use invite, time-boxed by
    /// [`invite_expiry`], and carry it in the notification.
    pub create_invite: bool,
    /// The notification the applicant receives.
    pub reply: Reply,
    /// What happens to the applicant's session.
    pub update: SessionUpdate,
    /// The token behind the control that replaces the keyboard, if any.
    pub followup: Option<Review>,
}

/// Plan the application of a decoded review token.
pub fn plan_review(review: &Review) -> (p: ReviewPlan)
    ensures
        p.create_invite == (review.action == ReviewAction::Approve),
        p.reply == (match review.action {
            ReviewAction::Approve => Reply::RequestApproved,
            ReviewAction::Deny => Reply::RequestDenied,
            ReviewAction::Block => Reply::Blocked,
            ReviewAction::Unblock => Reply::Unblocked,
            ReviewAction::RequestContact => Reply::ContactRequested,
        }),
        // a block is durable; every other outcome closes the session
        p.update == (if review.action == ReviewAction::Block {
            SessionUpdate::Store(State::Blocked)
        } else {
            SessionUpdate::Clear
        }),
        // a blocked applicant can be unblocked; a contacted one can still be
        // blocked; every other outcome is final
        match review.action {
            ReviewAction::Block => p.followup matches Some(f) && f@ == (ReviewData {
                action: ReviewAction::Unblock,
                ..review@
            }),
            ReviewAction::RequestContact => p.followup matches Some(f) && f@ == (ReviewData {
                action: ReviewAction::Block,
                ..review@
            }),
            _ => p.followup is None,
        },
{
    let followup_action = match review.action {
        ReviewAction::Block => Some(ReviewAction::Unblock),
        ReviewAction::RequestContact => Some(ReviewAction::Block),
        _ => None,
    };
    let followup = match followup_action {
        Some(action) => Some(
            Review {
                action,
                chat_id: review.chat_id,
                user_id: review.user_id,
                locale: vstd::slice::slice_to_vec(review.locale.as_slice()),
            },
        ),
        None => None,
    };
    ReviewPlan {
        create_invite: review.action == ReviewAction::Approve,
        reply: match review.action {
            ReviewAction::Approve => Reply::RequestApproved,
            ReviewAction::Deny => Reply::RequestDenied,
            ReviewAction::Block => Reply::Blocked,
            ReviewAction::Unblock => Reply::Unblocked,
            ReviewAction::RequestContact => Reply::ContactRequested,
        },
        update: if review.action == ReviewAction::Block {
            SessionUpdate::Store(State::Blocked)
        } else {
            SessionUpdate::Clear
        },
        followup,
    }
}

/// Why delivering a notification to the applicant failed.
#[derive(Clone, Copy, Debug, PartialEq, Eq, Structural)]
pub enum SendError {
    /// The applicant has disabled receiving messages from the workflow.
    BotBlocked,
    /// Any other delivery failure.
    Other,
}

/// Classify a delivery attempt: an applicant who has disabled messages is a
/// fact to note, not an error; anything else is surfaced to the per-event
/// error boundary.
pub fn is_bot_blocked_result(result: Result<(), SendError>) -> (r: Result<bool, SendError>)
    ensures
        r == (match result {
            Ok(_) => Ok::<bool, SendError>(false),
            Err(SendError::BotBlocked) => Ok::<bool, SendError>(true),
            Err(SendError::Other) => Err::<bool, SendError>(SendError::Other),
        }),
{
    match result {
        Ok(_) => Ok(false),
        Err(SendError::BotBlocked) => Ok(true),
        Err(error) => Err(error),
    }
}

/// The audit word a resolved review appends to the moderator notification.
pub open spec fn audit_word(action: ReviewAction) -> Seq<char> {
    match action {
        ReviewAction::Approve => "Approved"@,
        ReviewAction::Deny => "Denied"@,
        ReviewAction::Block => "Blocked"@,
        ReviewAction::Unblock => "Unblocked"@,
        ReviewAction::RequestContact => "Contact requested"@,
    }
}

/// The moderator notification after a review is applied: the original text,
/// an audit line naming the moderator who decided, and a note when the
/// applicant has disabled messages.
pub open spec fn review_audit_text(
    text: Seq<char>,
    action: ReviewAction,
    reviewer: Seq<char>,
    bot_blocked: bool,
) -> Seq<char> {
    text + "\n\n"@ + audit_word(action) + " by "@ + reviewer + (if bot_blocked {
        "\n\nUser has blocked this bot"@
    } else {
        Seq::<char>::empty()
    })
}

/// The edit a resolved review applies to the moderator notification.
pub struct ModeratorEdit {
    /// The new text: the old one with the audit line appended.
    pub text: String,
    /// The control that replaces the keyboard; withheld when the applicant
    /// has disabled messages, because there is nothing further to do.
    pub keyboard: Option<Review>,
}

/// Build the edit of the moderator notification after a review is applied.
pub fn edit_after_review(
    original_text: &String,
    action: ReviewAction,
    reviewer: &Sender,
    followup: Option<Review>,
    bot_blocked: bool,
) -> (e: ModeratorEdit)
    ensures
        e.text@ == review_audit_text(
            original_text@,
            action,
            plain_display_name_of(*reviewer),
            bot_blocked,
        ),
        e.keyboard == (if bot_blocked {
            None::<Review>
        } else {
            followup
        }),
{
    let mut text = original_text.clone();
    text.append("\n\n");
    match action {
        ReviewAction::Approve => text.append("Approved"),
        ReviewAction::Deny => text.append("Denied"),
        ReviewAction::Block => text.append("Blocked"),
        ReviewAction::Unblock => text.append("Unblocked"),
        ReviewAction::RequestContact => text.append("Contact requested"),
    }
    text.append(" by ");
    let reviewer_name = get_plaintext_display_name(reviewer);
    text.append(reviewer_name.as_str());
    if bot_blocked {
        text.append("\n\nUser has blocked this bot");
    }
    proof {
        assert(text@ =~= review_audit_text(
            original_text@,
            action,
            plain_display_name_of(*reviewer),
            bot_blocked,
        ));
    }
    ModeratorEdit {
        text,
        keyboard: if bot_blocked {
            None
        } else {
            followup
        },
    }
}

} // verus!

