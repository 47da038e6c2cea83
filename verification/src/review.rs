//! The review codec: a moderation decision, the chat and user it concerns and
//! the applicant's locale, packed into a fixed binary layout and carried as
//! unpadded standard base64 inside a button payload.

use vstd::prelude::*;

verus! {

/// A moderator's decision on a join request.
///
/// The wire tag of each action (see [`spec_action_tag`]) is a stable
/// identifier: outstanding encoded tokens must stay valid across deploys, so
/// new actions append new codes and never reuse or reorder existing ones.
#[derive(Clone, Copy, Debug, PartialEq, Eq, Structural)]
pub enum ReviewAction {
    Approve,
    Deny,
    Block,
    Unblock,
    RequestContact,
}

/// The registry of wire tags, one per action.
pub open spec fn spec_action_tag(action: ReviewAction) -> u8 {
    match action {
        ReviewAction::Deny => 0,
        ReviewAction::Approve => 1,
        ReviewAction::Block => 2,
        ReviewAction::Unblock => 3,
        ReviewAction::RequestContact => 4,
    }
}

/// The action registered under a wire tag, if any.
pub open spec fn spec_action_of_tag(tag: u8) -> Option<ReviewAction> {
    if tag == 0 {
        Some(ReviewAction::Deny)
    } else if tag == 1 {
        Some(ReviewAction::Approve)
    } else if tag == 2 {
        Some(ReviewAction::Block)
    } else if tag == 3 {
        Some(ReviewAction::Unblock)
    } else if tag == 4 {
        Some(ReviewAction::RequestContact)
    } else {
        None
    }
}

/// A wire tag that no action is registered under.
#[derive(Debug)]
pub struct InvalidReviewActionError {}

impl ReviewAction {
    /// The wire tag of this action.
    pub fn tag(self) -> (tag: u8)
        ensures
            tag == spec_action_tag(self),
    {
        match self {
            ReviewAction::Deny => 0,
            ReviewAction::Approve => 1,
            ReviewAction::Block => 2,
            ReviewAction::Unblock => 3,
            ReviewAction::RequestContact => 4,
        }
    }

    /// The action registered under a wire tag.
    pub fn try_from(value: u8) -> (result: Result<ReviewAction, InvalidReviewActionError>)
        ensures
            match result {
                Ok(action) => spec_action_of_tag(value) == Some(action),
                Err(_) => spec_action_of_tag(value) is None,
            },
    {
        match value {
            0 => Ok(ReviewAction::Deny),
            1 => Ok(ReviewAction::Approve),
            2 => Ok(ReviewAction::Block),
            3 => Ok(ReviewAction::Unblock),
            4 => Ok(ReviewAction::RequestContact),
            _ => Err(InvalidReviewActionError {}),
        }
    }
}

/// A tag and the action registered under it name each other.
pub proof fn lemma_action_tag_round_trip(action: ReviewAction)
    ensures
        spec_action_of_tag(spec_action_tag(action)) == Some(action),
{
}

/// What the unpadded standard base64 encoding of a byte sequence reads as.
/// The exact text is pinned down only through [`b64_encode`] and
/// [`b64_decode`], which promise that decoding inverts encoding.
pub uninterp spec fn b64_of(bytes: Seq<u8>) -> Seq<char>;

/// Whether a byte sequence is valid UTF-8 and parses as a well-formed
/// language tag. Pinned down only through [`check_locale_bytes`].
pub uninterp spec fn locale_ok(bytes: Seq<u8>) -> bool;

/// Relies on base64's `BASE64_STANDARD_NO_PAD` engine: `encode` maps a byte
/// sequence to its unpadded standard-alphabet base64 text, whose length the
/// crate documents as four characters for every three bytes, rounded up.
#[verifier::external_body]
fn b64_encode(bytes: &Vec<u8>) -> (encoded: String)
    ensures
        encoded@ == b64_of(bytes@),
        encoded@.len() == (bytes@.len() * 4 + 2) / 3,
{
    base64::Engine::encode(&base64::prelude::BASE64_STANDARD_NO_PAD, bytes.as_slice())
}

/// Relies on base64's `BASE64_STANDARD_NO_PAD` engine: `decode` rejects
/// padding and set trailing bits, so it accepts exactly the strings `encode`
/// produces and returns the bytes that encode to the input.
#[verifier::external_body]
fn b64_decode(data: &str) -> (decoded: Option<Vec<u8>>)
    ensures
        match decoded {
            Some(bytes) => data@ == b64_of(bytes@) && (forall|other: Seq<u8>|
                b64_of(other) == data@ ==> other == bytes@),
            None => forall|other: Seq<u8>| b64_of(other) != data@,
        },
{
    match base64::Engine::decode(&base64::prelude::BASE64_STANDARD_NO_PAD, data) {
        Ok(bytes) => Some(bytes),
        Err(_) => None,
    }
}

/// Relies on std's `str::from_utf8` to read the bytes as text and on
/// unic_langid's `LanguageIdentifier` parser to judge the tag; both results
/// depend on the bytes alone.
#[verifier::external_body]
pub(crate) fn check_locale_bytes(bytes: &Vec<u8>) -> (valid: bool)
    ensures
        valid == locale_ok(bytes@),
{
    match core::str::from_utf8(bytes.as_slice()) {
        Ok(text) => text.parse::<unic_langid::LanguageIdentifier>().is_ok(),
        Err(_) => false,
    }
}

/// A review token: the decision, the applicant chat and user it concerns and
/// the applicant's locale (the bytes of a language tag). Reconstructed purely
/// from its encoded form; never persisted.
#[derive(Debug)]
pub struct Review {
    pub action: ReviewAction,
    pub chat_id: i64,
    pub user_id: u64,
    pub locale: Vec<u8>,
}

/// The mathematical value of a review token.
pub ghost struct ReviewData {
    pub action: ReviewAction,
    pub chat_id: i64,
    pub user_id: u64,
    pub locale: Seq<u8>,
}

impl View for Review {
    type V = ReviewData;

    open spec fn view(&self) -> ReviewData {
        ReviewData {
            action: self.action,
            chat_id: self.chat_id,
            user_id: self.user_id,
            locale: self.locale@,
        }
    }
}

impl ReviewData {
    /// The scheme stores the locale length in one byte.
    pub open spec fn wf(self) -> bool {
        self.locale.len() <= 255
    }

    /// The fixed binary layout: one action tag byte, the chat id as eight
    /// little-endian bytes (two's complement), the user id as eight
    /// little-endian bytes, one locale-length byte, then the locale bytes.
    pub open spec fn wire(self) -> Seq<u8> {
        seq![spec_action_tag(self.action)]
            + vstd::bytes::spec_u64_to_le_bytes(self.chat_id as u64)
            + vstd::bytes::spec_u64_to_le_bytes(self.user_id)
            + seq![self.locale.len() as u8]
            + self.locale
    }
}

/// Why decoding a token failed.
#[derive(Clone, Copy, Debug, PartialEq, Eq, Structural)]
pub enum TryFromError {
    /// The text is not well-formed unpadded standard base64.
    InvalidBase64,
    /// The decoded buffer is shorter than the fixed 18-byte header, or the
    /// declared locale length exceeds what remains after it.
    TooShort,
    /// The action tag byte is not a registered action.
    InvalidReviewAction,
    /// The locale bytes are not valid UTF-8 or are not a well-formed
    /// language tag.
    InvalidLocale,
}

/// What parsing a decoded buffer yields: the checks run in a fixed order, and
/// bytes past the declared locale length are ignored.
pub open spec fn spec_parse_wire(v: Seq<u8>) -> Result<ReviewData, TryFromError> {
    if v.len() < 18 {
        Err(TryFromError::TooShort)
    } else if v.len() < 18 + v[17] {
        Err(TryFromError::TooShort)
    } else if spec_action_of_tag(v[0]) is None {
        Err(TryFromError::InvalidReviewAction)
    } else if !locale_ok(v.subrange(18, 18 + v[17] as int)) {
        Err(TryFromError::InvalidLocale)
    } else {
        Ok(ReviewData {
            action: spec_action_of_tag(v[0])->Some_0,
            chat_id: vstd::bytes::spec_u64_from_le_bytes(v.subrange(1, 9)) as i64,
            user_id: vstd::bytes::spec_u64_from_le_bytes(v.subrange(9, 17)),
            locale: v.subrange(18, 18 + v[17] as int),
        })
    }
}

/// The decode result seen at the level of token values.
pub open spec fn spec_decode_view(r: Result<Review, TryFromError>) -> Result<
    ReviewData,
    TryFromError,
> {
    match r {
        Ok(review) => Ok(review@),
        Err(e) => Err(e),
    }
}

impl Review {
    pub fn new(action: ReviewAction, chat_id: i64, user_id: u64, locale: Vec<u8>) -> (r: Review)
        requires
            locale@.len() <= 255,
        ensures
            r@ == (ReviewData { action, chat_id, user_id, locale: locale@ }),
    {
        Review { action, chat_id, user_id, locale }
    }

    /// Encode the token for transport inside a button payload: the fixed
    /// binary layout as unpadded standard base64. Pure and deterministic.
    pub fn encode(&self) -> (encoded: String)
        requires
            self@.wf(),
        ensures
            encoded@ == b64_of(self@.wire()),
            encoded@.len() == ((18 + self@.locale.len()) * 4 + 2) / 3,
    {
        let mut buffer: Vec<u8> = Vec::new();
        buffer.push(self.action.tag());
        let mut chat_bytes = vstd::bytes::u64_to_le_bytes(self.chat_id as u64);
        buffer.append(&mut chat_bytes);
        let mut user_bytes = vstd::bytes::u64_to_le_bytes(self.user_id);
        buffer.append(&mut user_bytes);
        buffer.push(self.locale.len() as u8);
        let mut locale_bytes = self.locale.clone();
        buffer.append(&mut locale_bytes);
        proof {
            assert(buffer@ =~= self@.wire());
        }
        b64_encode(&buffer)
    }

    /// Decode a button payload back into the token it carries.
    ///
    /// Validation order: the text must be well-formed unpadded base64, the
    /// buffer at least 18 bytes, the declared locale length in bounds, the
    /// action tag registered, and the locale a well-formed language tag.
    /// Pure: two calls on the same text return the same result.
    pub fn decode(data: &str) -> (r: Result<Review, TryFromError>)
        ensures
            forall|v: Seq<u8>| data@ == b64_of(v) ==> spec_decode_view(r) == spec_parse_wire(v),
            (forall|v: Seq<u8>| data@ != b64_of(v)) ==> r == Err::<Review, TryFromError>(
                TryFromError::InvalidBase64,
            ),
    {
        let buffer = match b64_decode(data) {
            Some(v) => v,
            None => {
                return Err(TryFromError::InvalidBase64);
            },
        };
        if buffer.len() < 18 {
            return Err(TryFromError::TooShort);
        }
        let locale_length = buffer[17] as usize;
        if buffer.len() - 18 < locale_length {
            return Err(TryFromError::TooShort);
        }
        let action = match ReviewAction::try_from(buffer[0]) {
            Ok(action) => action,
            Err(_) => {
                return Err(TryFromError::InvalidReviewAction);
            },
        };
        let chat_id = vstd::bytes::u64_from_le_bytes(
            vstd::slice::slice_subrange(buffer.as_slice(), 1, 9),
        ) as i64;
        let user_id = vstd::bytes::u64_from_le_bytes(
            vstd::slice::slice_subrange(buffer.as_slice(), 9, 17),
        );
        let locale = vstd::slice::slice_to_vec(
            vstd::slice::slice_subrange(buffer.as_slice(), 18, 18 + locale_length),
        );
        if !check_locale_bytes(&locale) {
            return Err(TryFromError::InvalidLocale);
        }
        Ok(Review { action, chat_id, user_id, locale })
    }
}

/// Law: a token round-trips byte for byte. Parsing the wire form of any
/// well-formed token whose locale is a well-formed language tag yields the
/// token back; together with the contracts of [`Review::encode`] and
/// [`Review::decode`], decoding the encoding of such a token returns it
/// unchanged. (A locale that is no well-formed language tag is rejected with
/// `InvalidLocale` on decode, so it is left out here.)
pub proof fn lemma_wire_round_trip(d: ReviewData)
    requires
        d.wf(),
        locale_ok(d.locale),
    ensures
        spec_parse_wire(d.wire()) == Ok::<ReviewData, TryFromError>(d),
{
    vstd::bytes::lemma_auto_spec_u64_to_from_le_bytes();
    let w = d.wire();
    assert(w.len() == 18 + d.locale.len());
    assert(w[17] == d.locale.len() as u8);
    assert(w[0] == spec_action_tag(d.action));
    lemma_action_tag_round_trip(d.action);
    assert(w.subrange(1, 9) =~= vstd::bytes::spec_u64_to_le_bytes(d.chat_id as u64));
    assert(w.subrange(9, 17) =~= vstd::bytes::spec_u64_to_le_bytes(d.user_id));
    assert(w.subrange(18, 18 + w[17] as int) =~= d.locale);
    let c = d.chat_id;
    assert((c as u64) as i64 == c) by (bit_vector);
}

/// Law: the encoded form fits the 64-byte button-payload limit whenever the
/// locale is at most 30 bytes; the wire form is 18 bytes plus the locale, and
/// unpadded base64 spends four characters on every three bytes.
pub proof fn lemma_encoded_size_fits_payload(d: ReviewData)
    requires
        d.locale.len() <= 30,
    ensures
        ((18 + d.locale.len()) * 4 + 2) / 3 <= 64,
{
}

} // verus!
