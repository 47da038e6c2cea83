//! The cached remote block-list gate. A process-wide snapshot of a remote
//! list of user identifiers answers membership queries; it is served as long
//! as it is fresh, revalidated with a conditional fetch once stale, replaced
//! wholesale on a successful refresh, and kept as-is on "not modified", on a
//! malformed payload and on transport failure: a transient failure never
//! blocks the join flow.
//!
//! The decisions live here and are verified; issuing the HTTP request, like
//! every other suspension point, is the caller's. A caller asks [`Countersign::check`]
//! what to do, performs the fetch if told so, and hands the outcome to
//! [`Countersign::apply_fetch`].

use std::collections::HashSet;
use vstd::prelude::*;

verus! {

broadcast use vstd::std_specs::hash::group_hash_axioms;

/// How long a snapshot is served without revalidation, in seconds.
pub const FRESHNESS_WINDOW_SECS: u64 = 900;

/// Whether a byte is a decimal digit.
pub open spec fn is_dec_digit(b: u8) -> bool {
    48 <= b <= 57
}

/// Whether a byte sequence is one or more decimal digits.
pub open spec fn is_dec_digits(s: Seq<u8>) -> bool {
    s.len() > 0 && forall|i: int| 0 <= i < s.len() ==> is_dec_digit(#[trigger] s[i])
}

/// The value of a sequence of decimal digits, most significant first.
pub open spec fn dec_val(s: Seq<u8>) -> nat
    decreases s.len(),
{
    if s.len() == 0 {
        0
    } else {
        dec_val(s.drop_last()) * 10 + ((s.last() - 48) as nat)
    }
}

/// What std's `u64` parser accepts: an optional leading plus sign, then one
/// or more decimal digits whose value fits in the type.
pub open spec fn spec_parse_u64(s: Seq<u8>) -> Option<u64> {
    let digits = if s.len() > 0 && s[0] == 43 {
        s.subrange(1, s.len() as int)
    } else {
        s
    };
    if is_dec_digits(digits) && dec_val(digits) <= u64::MAX {
        Some(dec_val(digits) as u64)
    } else {
        None
    }
}

/// Appending digits never lowers the value of a digit run.
proof fn lemma_dec_val_prefix_le(s: Seq<u8>, i: int, j: int)
    requires
        0 <= i <= j <= s.len(),
    ensures
        dec_val(s.subrange(0, i)) <= dec_val(s.subrange(0, j)),
    decreases j - i,
{
    if i < j {
        lemma_dec_val_prefix_le(s, i, j - 1);
        assert(s.subrange(0, j).drop_last() =~= s.subrange(0, j - 1));
        let prev = dec_val(s.subrange(0, j - 1));
        assert(prev <= prev * 10);
    }
}

/// Parse the decimal text of a user identifier, as std's `u64` parser reads
/// it: an optional leading plus sign, then decimal digits; anything else, an
/// empty digit run or a value over `u64::MAX` is rejected.
pub fn parse_decimal_u64(s: &Vec<u8>) -> (r: Option<u64>)
    ensures
        r == spec_parse_u64(s@),
{
    let start: usize = if s.len() > 0 && s[0] == 43 {
        1
    } else {
        0
    };
    let ghost digits = if s@.len() > 0 && s@[0] == 43 {
        s@.subrange(1, s@.len() as int)
    } else {
        s@
    };
    proof {
        assert(digits =~= s@.subrange(start as int, s@.len() as int));
    }
    if s.len() == start {
        return None;
    }
    let mut acc: u64 = 0;
    let mut i: usize = start;
    while i < s.len()
        invariant
            start <= i <= s@.len(),
            start == (if s@.len() > 0 && s@[0] == 43 {
                1int
            } else {
                0int
            }),
            digits == (if s@.len() > 0 && s@[0] == 43 {
                s@.subrange(1, s@.len() as int)
            } else {
                s@
            }),
            digits =~= s@.subrange(start as int, s@.len() as int),
            forall|k: int| start <= k < i ==> is_dec_digit(#[trigger] s@[k]),
            acc == dec_val(s@.subrange(start as int, i as int)),
        decreases s@.len() - i,
    {
        let b = s[i];
        if b < 48 || b > 57 {
            proof {
                assert(digits[i - start] == s@[i as int]);
                assert(!is_dec_digits(digits));
                assert(spec_parse_u64(s@) is None);
            }
            return None;
        }
        let d = (b - 48) as u64;
        proof {
            assert(s@.subrange(start as int, i + 1).drop_last() =~= s@.subrange(
                start as int,
                i as int,
            ));
            assert(s@.subrange(start as int, i + 1).last() == s@[i as int]);
            assert(dec_val(s@.subrange(start as int, i + 1)) == acc * 10 + d);
        }
        let next = match acc.checked_mul(10) {
            Some(m) => match m.checked_add(d) {
                Some(x) => x,
                None => {
                    proof {
                        assert(m == acc * 10);
                        assert(acc * 10 + d > u64::MAX);
                        assert(s@.subrange(start as int, i + 1) =~= digits.subrange(
                            0,
                            i + 1 - start,
                        ));
                        lemma_overflow_means_none(digits, i + 1 - start);
                        assert(spec_parse_u64(s@) is None);
                    }
                    return None;
                },
            },
            None => {
                proof {
                    assert(acc * 10 + d >= acc * 10 > u64::MAX);
                    assert(s@.subrange(start as int, i + 1) =~= digits.subrange(
                        0,
                        i + 1 - start,
                    ));
                    lemma_overflow_means_none(digits, i + 1 - start);
                }
                return None;
            },
        };
        acc = next;
        i += 1;
    }
    proof {
        assert(digits =~= s@.subrange(start as int, i as int));
        assert(is_dec_digits(digits));
    }
    Some(acc)
}

/// If a prefix of the digit run already overflows, the whole run cannot
/// parse: either a later byte is no digit, or the full value is larger still.
proof fn lemma_overflow_means_none(digits: Seq<u8>, n: int)
    requires
        0 < n <= digits.len(),
        dec_val(digits.subrange(0, n)) > u64::MAX,
    ensures
        !(is_dec_digits(digits) && dec_val(digits) <= u64::MAX),
{
    if is_dec_digits(digits) {
        lemma_dec_val_prefix_le(digits, n, digits.len() as int);
        assert(digits.subrange(0, digits.len() as int) =~= digits);
        assert(dec_val(digits) > u64::MAX);
    }
}

/// Whether every entry of a fetched payload parses as a user identifier.
pub open spec fn all_ids_parse(items: Seq<Seq<u8>>) -> bool {
    forall|i: int| 0 <= i < items.len() ==> (#[trigger] spec_parse_u64(items[i])) is Some
}

/// The set of user identifiers a fetched payload carries.
pub open spec fn parsed_ids(items: Seq<Seq<u8>>) -> Set<u64> {
    Set::new(
        |u: u64|
            exists|i: int|
                0 <= i < items.len() && #[trigger] spec_parse_u64(items[i]) == Some(u),
    )
}

/// Parse a fetched payload: every entry must be the decimal text of a user
/// identifier, or the whole payload is rejected.
fn parse_ids(items: &Vec<Vec<u8>>) -> (r: Option<HashSet<u64>>)
    ensures
        match r {
            Some(ids) => all_ids_parse(items.deep_view()) && ids@ == parsed_ids(
                items.deep_view(),
            ),
            None => !all_ids_parse(items.deep_view()),
        },
{
    let mut ids: HashSet<u64> = HashSet::new();
    let mut i: usize = 0;
    proof {
        assert(ids@ =~= Set::new(
            |u: u64|
                exists|k: int| 0 <= k < 0 && #[trigger] spec_parse_u64(items.deep_view()[k])
                    == Some(u),
        ));
    }
    while i < items.len()
        invariant
            i <= items@.len(),
            forall|k: int| 0 <= k < i ==> (#[trigger] spec_parse_u64(items.deep_view()[k]))
                is Some,
            ids@ == Set::new(
                |u: u64|
                    exists|k: int| 0 <= k < i && #[trigger] spec_parse_u64(
                        items.deep_view()[k],
                    ) == Some(u),
            ),
        decreases items@.len() - i,
    {
        proof {
            assert(items.deep_view()[i as int] =~= items@[i as int]@);
        }
        match parse_decimal_u64(&items[i]) {
            Some(u) => {
                let ghost before = ids@;
                ids.insert(u);
                proof {
                    let dv = items.deep_view();
                    assert(spec_parse_u64(dv[i as int]) == Some(u));
                    assert forall|v: u64|
                        ids@.contains(v) <==> (exists|k: int|
                            0 <= k < i + 1 && #[trigger] spec_parse_u64(dv[k]) == Some(v)) by {
                        if ids@.contains(v) {
                            if v == u {
                                assert(spec_parse_u64(dv[i as int]) == Some(v));
                            } else {
                                assert(before.contains(v));
                            }
                        }
                        if exists|k: int| 0 <= k < i + 1 && #[trigger] spec_parse_u64(dv[k])
                            == Some(v) {
                            let k = choose|k: int|
                                0 <= k < i + 1 && #[trigger] spec_parse_u64(dv[k]) == Some(v);
                            if k < i {
                                assert(before.contains(v));
                            } else {
                                assert(v == u);
                            }
                        }
                    }
                    assert(ids@ =~= Set::new(
                        |v: u64|
                            exists|k: int| 0 <= k < i + 1 && #[trigger] spec_parse_u64(
                                dv[k],
                            ) == Some(v),
                    ));
                }
            },
            None => {
                proof {
                    assert(spec_parse_u64(items.deep_view()[i as int]) is None);
                }
                return None;
            },
        }
        i += 1;
    }
    proof {
        assert(ids@ =~= parsed_ids(items.deep_view()));
    }
    Some(ids)
}

/// The cached snapshot of the remote block-list: the identifiers it listed,
/// the cache validator of the response that carried them, and when they were
/// fetched (seconds on the caller's monotonic clock).
pub struct CachedResponse {
    pub ids: HashSet<u64>,
    pub etag: Option<String>,
    pub last_updated: u64,
}

impl Default for CachedResponse {
    /// An empty snapshot, fetched at the clock's origin.
    fn default() -> (r: Self)
        ensures
            r.ids@ == Set::<u64>::empty(),
            r.etag is None,
            r.last_updated == 0,
    {
        CachedResponse { ids: HashSet::new(), etag: None, last_updated: 0 }
    }
}

/// What a membership query decides: serve the cached answer, or serve it
/// provisionally and revalidate with a conditional fetch carrying the cached
/// validator.
pub enum GateCheck {
    Fresh { known: bool },
    Stale { known: bool, etag: Option<String> },
}

/// What a refresh attempt came back with. A response body arrives as the raw
/// byte strings of the decimal identifiers it listed, with the validator of
/// the response, if any.
pub enum FetchOutcome {
    NotModified,
    Body { ids: Vec<Vec<u8>>, etag: Option<String> },
    TransportFailed,
}

/// The known-scammer gate: one shared snapshot answering membership queries
/// with bounded staleness.
pub struct Countersign {
    pub cache: CachedResponse,
}

impl Countersign {
    /// The identifiers the snapshot currently lists.
    pub open spec fn ids(self) -> Set<u64> {
        self.cache.ids@
    }

    /// Whether the snapshot may still be served without revalidation at the
    /// given time.
    pub open spec fn is_fresh(self, now: u64) -> bool {
        now < self.cache.last_updated + FRESHNESS_WINDOW_SECS
    }

    /// A gate with an empty snapshot, as if fetched now.
    pub fn new(now: u64) -> (r: Self)
        ensures
            r.ids() == Set::<u64>::empty(),
            r.cache.etag is None,
            r.cache.last_updated == now,
    {
        Countersign { cache: CachedResponse { ids: HashSet::new(), etag: None, last_updated: now } }
    }

    /// Answer a membership query, or ask the caller for a conditional fetch:
    /// within the freshness window the cached answer is final and no network
    /// access happens; past it, the cached answer is provisional and the
    /// cached validator is handed out for revalidation.
    pub fn check(&self, user_id: u64, now: u64) -> (r: GateCheck)
        ensures
            r is Fresh <==> self.is_fresh(now),
            match r {
                GateCheck::Fresh { known } => known == self.ids().contains(user_id),
                GateCheck::Stale { known, etag } => known == self.ids().contains(user_id)
                    && match (etag, &self.cache.etag) {
                    (Some(a), Some(b)) => a@ == b@,
                    (None, None) => true,
                    _ => false,
                },
            },
    {
        let known = self.cache.ids.contains(&user_id);
        let fresh = if now >= self.cache.last_updated {
            now - self.cache.last_updated < FRESHNESS_WINDOW_SECS
        } else {
            true
        };
        if fresh {
            GateCheck::Fresh { known }
        } else {
            let etag = match &self.cache.etag {
                Some(tag) => Some(tag.clone()),
                None => None,
            };
            GateCheck::Stale { known, etag }
        }
    }

    /// Apply what a refresh attempt came back with, and answer the original
    /// membership query from the snapshot that results.
    ///
    /// "Not modified" and transport failure leave the snapshot untouched and
    /// fall back to the cached answer; no error reaches the caller, since a
    /// transient failure must never block the join flow. So does a payload
    /// with an entry that is no identifier. A
    /// parsed body replaces the snapshot wholesale: the new identifiers (no
    /// union with the prior set), the new validator, fetched now.
    pub fn apply_fetch(&mut self, outcome: FetchOutcome, user_id: u64, now: u64) -> (known: bool)
        ensures
            match outcome {
                FetchOutcome::NotModified | FetchOutcome::TransportFailed => *final(self) == *old(self)
                    && known == old(self).ids().contains(user_id),
                FetchOutcome::Body { ids, etag } => {
                    if all_ids_parse(ids.deep_view()) {
                        &&& final(self).ids() == parsed_ids(ids.deep_view())
                        &&& final(self).cache.etag == etag
                        &&& final(self).cache.last_updated == now
                        &&& known == parsed_ids(ids.deep_view()).contains(user_id)
                    } else {
                        *final(self) == *old(self) && known == old(self).ids().contains(user_id)
                    }
                },
            },
    {
        match outcome {
            FetchOutcome::NotModified | FetchOutcome::TransportFailed => self.cache.ids.contains(
                &user_id,
            ),
            FetchOutcome::Body { ids, etag } => {
                match parse_ids(&ids) {
                    Some(parsed) => {
                        self.cache = CachedResponse { ids: parsed, etag, last_updated: now };
                        self.cache.ids.contains(&user_id)
                    },
                    None => self.cache.ids.contains(&user_id),
                }
            },
        }
    }
}

} // verus!

