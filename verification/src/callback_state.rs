//! The single-use, time-limited token that ties a callback to the login
//! attempt this process started.

use crate::decimal::{decimal_digits, push_decimal};
use crate::digest::{sha256_hex, sha256_hex_of};
use crate::text::same_text;
use vstd::prelude::*;
use vstd::string::StringExecFns;
use vstd::utf8::encode_utf8;

verus! {

/// How long an issued token is accepted, in milliseconds.
pub const CALLBACK_STATE_TTL_MS: u64 = 300000;

/// Why a callback was turned away.
#[derive(Debug, Clone, Copy, PartialEq, Eq, Structural)]
pub enum CallbackRejectReason {
    InvalidPayload,
    MissingState,
    InvalidState,
    ExpiredState,
    ReplayedState,
    UnsupportedContentType,
    InvalidContentLength,
    InvalidEncoding,
    StateUnavailable,
}

impl CallbackRejectReason {
    /// The HTTP status that answers a callback rejected for this reason.
    pub open spec fn status(self) -> u16 {
        match self {
            CallbackRejectReason::InvalidPayload => 400,
            CallbackRejectReason::MissingState => 400,
            CallbackRejectReason::InvalidContentLength => 400,
            CallbackRejectReason::InvalidEncoding => 400,
            CallbackRejectReason::InvalidState => 401,
            CallbackRejectReason::ExpiredState => 401,
            CallbackRejectReason::StateUnavailable => 401,
            CallbackRejectReason::ReplayedState => 409,
            CallbackRejectReason::UnsupportedContentType => 415,
        }
    }

    /// The machine-readable code of this reason.
    pub open spec fn code_text(self) -> Seq<char> {
        match self {
            CallbackRejectReason::InvalidPayload => "INVALID_PAYLOAD"@,
            CallbackRejectReason::MissingState => "MISSING_STATE"@,
            CallbackRejectReason::InvalidState => "INVALID_STATE"@,
            CallbackRejectReason::ExpiredState => "EXPIRED_STATE"@,
            CallbackRejectReason::ReplayedState => "REPLAYED_STATE"@,
            CallbackRejectReason::UnsupportedContentType => "UNSUPPORTED_CONTENT_TYPE"@,
            CallbackRejectReason::InvalidContentLength => "INVALID_CONTENT_LENGTH"@,
            CallbackRejectReason::InvalidEncoding => "INVALID_ENCODING"@,
            CallbackRejectReason::StateUnavailable => "STATE_UNAVAILABLE"@,
        }
    }

    /// The sentence that explains this reason to a person.
    pub open spec fn message_text(self) -> Seq<char> {
        match self {
            CallbackRejectReason::InvalidPayload => "Invalid callback payload"@,
            CallbackRejectReason::MissingState => "Missing callback state"@,
            CallbackRejectReason::InvalidState => "Invalid callback state"@,
            CallbackRejectReason::ExpiredState => "Callback state expired"@,
            CallbackRejectReason::ReplayedState => "Callback state already consumed"@,
            CallbackRejectReason::UnsupportedContentType => "Unsupported content type"@,
            CallbackRejectReason::InvalidContentLength => "Invalid content length"@,
            CallbackRejectReason::InvalidEncoding => "Callback body is not valid UTF-8"@,
            CallbackRejectReason::StateUnavailable => "Callback state unavailable"@,
        }
    }

    pub fn status_code(&self) -> (r: u16)
        ensures
            r == self.status(),
    {
        match self {
            CallbackRejectReason::InvalidPayload
            | CallbackRejectReason::MissingState
            | CallbackRejectReason::InvalidContentLength
            | CallbackRejectReason::InvalidEncoding => 400,
            CallbackRejectReason::InvalidState
            | CallbackRejectReason::ExpiredState
            | CallbackRejectReason::StateUnavailable => 401,
            CallbackRejectReason::ReplayedState => 409,
            CallbackRejectReason::UnsupportedContentType => 415,
        }
    }

    pub fn code(&self) -> (r: &'static str)
        ensures
            r@ == self.code_text(),
    {
        match self {
            CallbackRejectReason::InvalidPayload => "INVALID_PAYLOAD",
            CallbackRejectReason::MissingState => "MISSING_STATE",
            CallbackRejectReason::InvalidState => "INVALID_STATE",
            CallbackRejectReason::ExpiredState => "EXPIRED_STATE",
            CallbackRejectReason::ReplayedState => "REPLAYED_STATE",
            CallbackRejectReason::UnsupportedContentType => "UNSUPPORTED_CONTENT_TYPE",
            CallbackRejectReason::InvalidContentLength => "INVALID_CONTENT_LENGTH",
            CallbackRejectReason::InvalidEncoding => "INVALID_ENCODING",
            CallbackRejectReason::StateUnavailable => "STATE_UNAVAILABLE",
        }
    }

    pub fn message(&self) -> (r: &'static str)
        ensures
            r@ == self.message_text(),
    {
        match self {
            CallbackRejectReason::InvalidPayload => "Invalid callback payload",
            CallbackRejectReason::MissingState => "Missing callback state",
            CallbackRejectReason::InvalidState => "Invalid callback state",
            CallbackRejectReason::ExpiredState => "Callback state expired",
            CallbackRejectReason::ReplayedState => "Callback state already consumed",
            CallbackRejectReason::UnsupportedContentType => "Unsupported content type",
            CallbackRejectReason::InvalidContentLength => "Invalid content length",
            CallbackRejectReason::InvalidEncoding => "Callback body is not valid UTF-8",
            CallbackRejectReason::StateUnavailable => "Callback state unavailable",
        }
    }
}

/// One outstanding authentication attempt.
#[derive(Debug, Clone, PartialEq, Eq)]
pub struct CallbackState {
    pub token: String,
    pub expires_at_ms: u64,
    pub consumed: bool,
}

/// What a validation attempt found.
#[derive(Debug, Clone, Copy, PartialEq, Eq, Structural)]
pub enum CallbackValidation {
    Valid,
    Missing,
    Invalid,
    Expired,
    Replayed,
    LockError,
}

impl CallbackValidation {
    /// The rejection that answers this finding; none for `Valid`. A state
    /// that could not be locked is refused like a wrong one.
    pub open spec fn rejection_of(self) -> Option<CallbackRejectReason> {
        match self {
            CallbackValidation::Valid => None,
            CallbackValidation::Missing => Some(CallbackRejectReason::MissingState),
            CallbackValidation::Invalid => Some(CallbackRejectReason::InvalidState),
            CallbackValidation::Expired => Some(CallbackRejectReason::ExpiredState),
            CallbackValidation::Replayed => Some(CallbackRejectReason::ReplayedState),
            CallbackValidation::LockError => Some(CallbackRejectReason::StateUnavailable),
        }
    }

    pub fn rejection(&self) -> (r: Option<CallbackRejectReason>)
        ensures
            r == self.rejection_of(),
    {
        match self {
            CallbackValidation::Valid => None,
            CallbackValidation::Missing => Some(CallbackRejectReason::MissingState),
            CallbackValidation::Invalid => Some(CallbackRejectReason::InvalidState),
            CallbackValidation::Expired => Some(CallbackRejectReason::ExpiredState),
            CallbackValidation::Replayed => Some(CallbackRejectReason::ReplayedState),
            CallbackValidation::LockError => Some(CallbackRejectReason::StateUnavailable),
        }
    }
}

/// The token that is waiting to be used, as contracts see it.
pub ghost struct PendingToken {
    pub token: Seq<char>,
    pub expires_at_ms: u64,
}

/// The live token of a state; none once it is consumed.
pub open spec fn pending_of(state: CallbackState) -> Option<PendingToken> {
    if state.consumed {
        None
    } else {
        Some(PendingToken { token: state.token@, expires_at_ms: state.expires_at_ms })
    }
}

/// The token a caller handed in, as contracts see it.
pub open spec fn received_of(received: Option<&str>) -> Option<Seq<char>> {
    match received {
        Some(s) => Some(s@),
        None => None,
    }
}

/// The finding for `received` at time `now_ms` against the pending token.
///
/// No token: `Missing`. No pending token: `Replayed`. A token that is not
/// exactly the pending one: `Invalid`. The pending token after its time has
/// run out: `Expired`. Otherwise `Valid`.
pub open spec fn validation_of(
    pending: Option<PendingToken>,
    received: Option<Seq<char>>,
    now_ms: u64,
) -> CallbackValidation {
    match received {
        None => CallbackValidation::Missing,
        Some(token) => match pending {
            None => CallbackValidation::Replayed,
            Some(p) => if token != p.token {
                CallbackValidation::Invalid
            } else if now_ms > p.expires_at_ms {
                CallbackValidation::Expired
            } else {
                CallbackValidation::Valid
            },
        },
    }
}

/// The pending token after a validation attempt: gone once it was accepted
/// or found expired, untouched otherwise.
pub open spec fn pending_after(
    pending: Option<PendingToken>,
    received: Option<Seq<char>>,
    now_ms: u64,
) -> Option<PendingToken> {
    match validation_of(pending, received, now_ms) {
        CallbackValidation::Valid | CallbackValidation::Expired => None,
        _ => pending,
    }
}

/// The bytes that are hashed into a token: the process id, the time and the
/// issue counter in decimal, each followed by `-`, then the caller's entropy.
pub open spec fn token_seed(entropy: Seq<u8>, counter: u64, now_ms: u64, process_id: u32) -> Seq<
    u8,
> {
    encode_utf8(
        decimal_digits(process_id as nat) + "-"@ + decimal_digits(now_ms as nat) + "-"@
            + decimal_digits(counter as nat) + "-"@,
    ) + entropy
}

/// The token issued from these inputs: `auth-` and 64 hexadecimal digits.
pub open spec fn token_for(entropy: Seq<u8>, counter: u64, now_ms: u64, process_id: u32) -> Seq<
    char,
> {
    "auth-"@ + sha256_hex_of(token_seed(entropy, counter, now_ms, process_id))
}

/// The time at which a token issued at `now_ms` stops being accepted.
pub open spec fn expiry_of(now_ms: u64) -> u64 {
    if now_ms + CALLBACK_STATE_TTL_MS > u64::MAX {
        u64::MAX
    } else {
        (now_ms + CALLBACK_STATE_TTL_MS) as u64
    }
}

/// Mints tokens and accepts each of them at most once.
pub struct CallbackStateIssuer {
    slot: Option<CallbackState>,
    issued: u64,
}

impl CallbackStateIssuer {
    /// The token that is waiting to be used.
    pub closed spec fn pending(&self) -> Option<PendingToken> {
        match self.slot {
            Some(state) => pending_of(state),
            None => None,
        }
    }

    /// How many tokens were issued so far.
    pub closed spec fn issued_count(&self) -> u64 {
        self.issued
    }

    /// An issuer with nothing pending.
    pub fn new() -> (r: Self)
        ensures
            r.pending() is None,
            r.issued_count() == 0,
    {
        CallbackStateIssuer { slot: None, issued: 0 }
    }

    /// An issuer that waits for `state`.
    pub fn resume(state: CallbackState) -> (r: Self)
        ensures
            r.pending() == pending_of(state),
            r.issued_count() == 0,
    {
        CallbackStateIssuer { slot: Some(state), issued: 0 }
    }

    /// Whether a token is waiting to be used.
    pub fn has_pending(&self) -> (r: bool)
        ensures
            r == self.pending() is Some,
    {
        match &self.slot {
            Some(state) => !state.consumed,
            None => false,
        }
    }

    /// Starts a new attempt. The token comes from the caller's entropy, the
    /// issue counter, the time and the process id; whatever was pending
    /// before is dropped.
    pub fn issue(&mut self, entropy: &[u8], now_ms: u64, process_id: u32) -> (state: CallbackState)
        ensures
            state.token@ == token_for(entropy@, old(self).issued_count(), now_ms, process_id),
            state.token@.len() == 69,
            state.expires_at_ms == expiry_of(now_ms),
            !state.consumed,
            final(self).pending() == pending_of(state),
            old(self).issued_count() < u64::MAX ==> final(self).issued_count() == old(
                self,
            ).issued_count() + 1,
            old(self).issued_count() == u64::MAX ==> final(self).issued_count() == u64::MAX,
    {
        let mut label = String::new();
        push_decimal(&mut label, process_id as u64);
        label.append("-");
        push_decimal(&mut label, now_ms);
        label.append("-");
        push_decimal(&mut label, self.issued);
        label.append("-");
        let mut seed: Vec<u8> = Vec::new();
        seed.extend_from_slice(label.as_str().as_bytes());
        seed.extend_from_slice(entropy);
        assert(seed@ =~= token_seed(entropy@, self.issued, now_ms, process_id));
        let digest = sha256_hex(seed.as_slice());
        let mut token = String::new();
        token.append("auth-");
        token.append(digest.as_str());
        proof {
            reveal_strlit("auth-");
            assert(token@ =~= token_for(entropy@, self.issued, now_ms, process_id));
        }
        let expires_at_ms: u64 = now_ms.saturating_add(CALLBACK_STATE_TTL_MS);
        let kept = CallbackState { token: token.clone(), expires_at_ms, consumed: false };
        self.slot = Some(kept);
        self.issued = self.issued.saturating_add(1);
        CallbackState { token, expires_at_ms, consumed: false }
    }

    /// Judges `received` against the pending token, and uses the token up
    /// when it is accepted or found expired.
    pub fn validate_and_consume(&mut self, received: Option<&str>, now_ms: u64) -> (r:
        CallbackValidation)
        ensures
            r == validation_of(old(self).pending(), received_of(received), now_ms),
            r != CallbackValidation::LockError,
            final(self).pending() == pending_after(
                old(self).pending(),
                received_of(received),
                now_ms,
            ),
            final(self).issued_count() == old(self).issued_count(),
    {
        let token: &str = match received {
            Some(t) => t,
            None => {
                return CallbackValidation::Missing;
            },
        };
        let verdict = match &self.slot {
            None => CallbackValidation::Replayed,
            Some(state) => {
                if state.consumed {
                    CallbackValidation::Replayed
                } else if !same_text(token, state.token.as_str()) {
                    CallbackValidation::Invalid
                } else if now_ms > state.expires_at_ms {
                    CallbackValidation::Expired
                } else {
                    CallbackValidation::Valid
                }
            },
        };
        match verdict {
            CallbackValidation::Valid | CallbackValidation::Expired => {
                self.slot = None;
            },
            _ => {},
        }
        verdict
    }
}

/// A token is accepted at most once: after `Valid`, the same token is
/// answered with `Replayed`, at any later time.
pub proof fn lemma_valid_then_replayed(
    pending: Option<PendingToken>,
    token: Seq<char>,
    now_ms: u64,
    later_ms: u64,
)
    requires
        validation_of(pending, Some(token), now_ms) == CallbackValidation::Valid,
    ensures
        validation_of(pending_after(pending, Some(token), now_ms), Some(token), later_ms)
            == CallbackValidation::Replayed,
{
}

/// The pending token presented after its time has run out is answered with
/// `Expired`, and presented again with `Replayed`.
pub proof fn lemma_expired_then_replayed(pending: PendingToken, now_ms: u64, later_ms: u64)
    requires
        now_ms > pending.expires_at_ms,
    ensures
        validation_of(Some(pending), Some(pending.token), now_ms) == CallbackValidation::Expired,
        validation_of(
            pending_after(Some(pending), Some(pending.token), now_ms),
            Some(pending.token),
            later_ms,
        ) == CallbackValidation::Replayed,
{
}

/// While a token is pending, every other token is answered with `Invalid`,
/// at any time, and leaves the pending one in place; a request without a
/// token is answered with `Missing`, whatever is pending.
pub proof fn lemma_mismatch_is_invalid(
    pending: PendingToken,
    anything: Option<PendingToken>,
    token: Seq<char>,
    now_ms: u64,
)
    requires
        token != pending.token,
    ensures
        validation_of(Some(pending), Some(token), now_ms) == CallbackValidation::Invalid,
        pending_after(Some(pending), Some(token), now_ms) == Some(pending),
        validation_of(anything, None, now_ms) == CallbackValidation::Missing,
        pending_after(anything, None, now_ms) == anything,
{
}

/// One validation attempt: the token that was handed in, and when.
pub ghost struct Attempt {
    pub received: Option<Seq<char>>,
    pub now_ms: u64,
}

/// How many of a run of attempts, made one after the other, are answered
/// with `Valid`.
pub open spec fn valid_count(pending: Option<PendingToken>, attempts: Seq<Attempt>) -> nat
    decreases attempts.len(),
{
    if attempts.len() == 0 {
        0
    } else {
        let first = attempts[0];
        let rest = attempts.subrange(1, attempts.len() as int);
        let after = pending_after(pending, first.received, first.now_ms);
        if validation_of(pending, first.received, first.now_ms) == CallbackValidation::Valid {
            1 + valid_count(after, rest)
        } else {
            valid_count(after, rest)
        }
    }
}

/// Once nothing is pending, nothing becomes pending by validating, and no
/// attempt is answered with `Valid`.
pub proof fn lemma_used_up_stays_used_up(attempts: Seq<Attempt>)
    ensures
        valid_count(None, attempts) == 0,
        forall|received: Option<Seq<char>>, now_ms: u64|
            pending_after(None, received, now_ms) is None && validation_of(None, received, now_ms)
                != CallbackValidation::Valid,
    decreases attempts.len(),
{
    if attempts.len() > 0 {
        lemma_used_up_stays_used_up(attempts.subrange(1, attempts.len() as int));
    }
}

/// Of the attempts that follow an issuance, however many and whatever they
/// hand in, at most one is answered with `Valid`.
pub proof fn lemma_at_most_one_valid(pending: Option<PendingToken>, attempts: Seq<Attempt>)
    ensures
        valid_count(pending, attempts) <= 1,
    decreases attempts.len(),
{
    if attempts.len() > 0 {
        let first = attempts[0];
        let rest = attempts.subrange(1, attempts.len() as int);
        if validation_of(pending, first.received, first.now_ms) == CallbackValidation::Valid {
            lemma_used_up_stays_used_up(rest);
        } else {
            lemma_at_most_one_valid(pending_after(pending, first.received, first.now_ms), rest);
        }
    }
}

} // verus!
