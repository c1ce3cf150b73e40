//! Credential renewal decisions.
//!
//! A node keeps its credential fresh by a soft renew against the issuer and,
//! when the renewal token is missing, expired or rejected, by a
//! stable-identity reissue (a hard rebind). Every renewal trigger runs the
//! same single flight. The awaited issuer calls, the session store and the
//! runtime handles that a commit re-identifies live outside the library;
//! each decision between those calls is a verified function here: which path
//! to take, how an issuer failure is answered, and how an issuer reply is
//! checked before any credential material is committed.
//!
//! The actor identity is held by its canonical text form. Credentials and
//! TURN credentials are carried through unexamined as the type parameters
//! `C` and `T`.
use vstd::prelude::*;

verus! {

/// A protobuf timestamp: whole seconds since the Unix epoch and a
/// nanosecond fraction.
#[derive(Debug, Clone, Copy, PartialEq, Eq, Structural, Hash)]
pub struct Timestamp {
    pub seconds: i64,
    pub nanos: i32,
}

// ---- Decimal text ----------------------------------------------------------

/// The text of one decimal digit.
pub open spec fn digit_text(d: int) -> Seq<char> {
    if d == 0 {
        "0"@
    } else if d == 1 {
        "1"@
    } else if d == 2 {
        "2"@
    } else if d == 3 {
        "3"@
    } else if d == 4 {
        "4"@
    } else if d == 5 {
        "5"@
    } else if d == 6 {
        "6"@
    } else if d == 7 {
        "7"@
    } else if d == 8 {
        "8"@
    } else {
        "9"@
    }
}

/// The decimal text of a number, most significant digit first, without
/// leading zeros.
pub open spec fn decimal_text(n: nat) -> Seq<char>
    decreases n,
{
    if n < 10 {
        digit_text(n as int)
    } else {
        decimal_text(n / 10) + digit_text((n % 10) as int)
    }
}

fn push_digit(out: &mut String, d: u32)
    requires
        d < 10,
    ensures
        final(out)@ == old(out)@ + digit_text(d as int),
{
    match d {
        0 => out.append("0"),
        1 => out.append("1"),
        2 => out.append("2"),
        3 => out.append("3"),
        4 => out.append("4"),
        5 => out.append("5"),
        6 => out.append("6"),
        7 => out.append("7"),
        8 => out.append("8"),
        _ => out.append("9"),
    }
}

pub(crate) fn push_decimal(out: &mut String, n: u32)
    ensures
        final(out)@ == old(out)@ + decimal_text(n as nat),
    decreases n,
{
    let ghost start = out@;
    if n >= 10 {
        push_decimal(out, n / 10);
    }
    push_digit(out, n % 10);
    proof {
        if n >= 10 {
            assert(out@ =~= start + (decimal_text((n / 10) as nat) + digit_text((n % 10) as int)));
        } else {
            assert(n % 10 == n);
        }
    }
}

// ---- Which path a renewal takes -------------------------------------------

/// Whether a deadline in whole Unix seconds has passed at `now`: a deadline
/// equal to the current second has passed.
pub fn is_expired(expires_at: i64, now: i64) -> (b: bool)
    ensures
        b == (expires_at <= now),
{
    expires_at <= now
}

/// A renewal token can be presented when it is non-empty and has not expired.
pub open spec fn token_usable(token: Seq<u8>, expires_at: i64, now: i64) -> bool {
    token.len() > 0 && !(expires_at <= now)
}

/// How a renewal begins.
#[derive(Debug, Clone, Copy, PartialEq, Eq, Structural, Hash)]
pub enum RenewalPath {
    /// Present the renewal token for a soft renew.
    SoftRenew,
    /// Skip the soft renew and reissue for the stable identity.
    HardRebind,
}

/// How a renewal begins: a soft renew while the renewal token is usable,
/// else a hard rebind straight away.
pub fn renewal_path(token: &Vec<u8>, token_expires_at: i64, now: i64) -> (p: RenewalPath)
    ensures
        p == (if token_usable(token@, token_expires_at, now) {
            RenewalPath::SoftRenew
        } else {
            RenewalPath::HardRebind
        }),
{
    if token.len() > 0 && !is_expired(token_expires_at, now) {
        RenewalPath::SoftRenew
    } else {
        RenewalPath::HardRebind
    }
}

// ---- Retry backoff ---------------------------------------------------------

/// The base delay in seconds of the call made after `attempt` earlier calls:
/// 5, 10, 20, 40, then 60 from then on.
pub open spec fn backoff_base_secs(attempt: u32) -> int {
    if attempt == 0 {
        5
    } else if attempt == 1 {
        10
    } else if attempt == 2 {
        20
    } else if attempt == 3 {
        40
    } else {
        60
    }
}

/// The delay in milliseconds returned by the call made after `attempt`
/// earlier calls. The jitter is deterministic and seeded by the attempt
/// count after the call: when that count is even the delay is a quarter of
/// the base (rounded down to whole seconds) shorter, otherwise it is the
/// base. No delay is shorter than one second.
pub open spec fn backoff_delay_ms(attempt: u32) -> int {
    let base = backoff_base_secs(attempt);
    let jitter = if (attempt + 1) % 2 == 0 {
        -(base / 4)
    } else {
        0
    };
    let ms = base * 1000 + jitter * 1000;
    if ms < 1000 {
        1000
    } else {
        ms
    }
}

/// Exponential backoff over a fixed ladder with a deterministic jitter.
pub struct Backoff {
    attempt: u32,
}

impl Backoff {
    /// How many delays this backoff has handed out.
    pub closed spec fn attempts(&self) -> u32 {
        self.attempt
    }

    /// A fresh backoff, before its first delay.
    pub fn new() -> (b: Backoff)
        ensures
            b.attempts() == 0,
    {
        Backoff { attempt: 0 }
    }

    /// The next delay in milliseconds: 5, 8, 20, 30, 60, 45, 60, 45, ...
    /// seconds, each within a quarter below the ladder 5, 10, 20, 40, 60.
    pub fn next(&mut self) -> (ms: u64)
        requires
            old(self).attempts() < u32::MAX,
        ensures
            ms == backoff_delay_ms(old(self).attempts()),
            final(self).attempts() == old(self).attempts() + 1,
    {
        let base: u64 = match self.attempt {
            0 => 5,
            1 => 10,
            2 => 20,
            3 => 40,
            _ => 60,
        };
        self.attempt = self.attempt + 1;
        let ms: u64 = if self.attempt % 2 == 0 {
            base * 1000 - (base / 4) * 1000
        } else {
            base * 1000
        };
        if ms < 1000 {
            1000
        } else {
            ms
        }
    }
}

/// Every backoff delay lies within a quarter below its ladder step, and none
/// exceeds one minute.
pub proof fn lemma_backoff_within_ladder(attempt: u32)
    ensures
        backoff_delay_ms(attempt) <= backoff_base_secs(attempt) * 1000,
        4 * backoff_delay_ms(attempt) >= 3 * backoff_base_secs(attempt) * 1000,
        backoff_delay_ms(attempt) <= 60_000,
        backoff_delay_ms(attempt) >= 1000,
{
}

// ---- Single flight -------------------------------------------------------------

/// The guard that lets only one renewal run at a time: every trigger tries to
/// begin, and only the one that finds no renewal in flight starts one.
pub struct RenewalFlight {
    renewing: bool,
}

impl RenewalFlight {
    /// Whether a renewal is in flight.
    pub closed spec fn in_flight(&self) -> bool {
        self.renewing
    }

    /// No renewal in flight.
    pub fn new() -> (f: RenewalFlight)
        ensures
            !f.in_flight(),
    {
        RenewalFlight { renewing: false }
    }

    /// Try to begin a renewal: it starts exactly when none is in flight, and
    /// afterwards one is in flight either way.
    pub fn try_begin(&mut self) -> (started: bool)
        ensures
            started == !old(self).in_flight(),
            final(self).in_flight(),
    {
        let was = self.renewing;
        self.renewing = true;
        !was
    }

    /// The renewal in flight ended (or was cancelled).
    pub fn finish(&mut self)
        ensures
            !final(self).in_flight(),
    {
        self.renewing = false;
    }
}

// ---- Session and issuer replies --------------------------------------------

/// The node's credential session.
#[derive(Debug, Clone, PartialEq, Eq)]
pub struct SessionSnapshot<C, T> {
    /// The actor identity, by its canonical text form.
    pub actor_id: String,
    pub credential: C,
    pub credential_expires_at: Timestamp,
    pub turn_credential: T,
    /// Empty when no renewal token was issued.
    pub renewal_token: Vec<u8>,
    pub renewal_token_expires_at: Timestamp,
    /// Bumped by every hard rebind commit.
    pub generation: u64,
}

/// A credential stamped for publication to membership subscribers.
#[derive(Debug, Clone, PartialEq, Eq)]
pub struct PublishedCredential<C, T> {
    pub credential: C,
    pub credential_expires_at: Option<Timestamp>,
    pub turn_credential: Option<T>,
    pub actor_id: String,
    pub revision: u64,
}

/// Publish a session's credential under `revision`.
pub fn publish_session<C, T>(s: SessionSnapshot<C, T>, revision: u64) -> (p: PublishedCredential<C, T>)
    ensures
        p == (PublishedCredential {
            credential: s.credential,
            credential_expires_at: Some(s.credential_expires_at),
            turn_credential: Some(s.turn_credential),
            actor_id: s.actor_id,
            revision,
        }),
{
    PublishedCredential {
        credential: s.credential,
        credential_expires_at: Some(s.credential_expires_at),
        turn_credential: Some(s.turn_credential),
        actor_id: s.actor_id,
        revision,
    }
}

/// The credential the node presents, shared by its tasks; the lock that
/// shares it lives with the caller.
#[derive(Debug, Clone, PartialEq, Eq)]
pub struct CredentialState<C, T> {
    pub credential: C,
    pub expires_at: Option<Timestamp>,
    /// The time-limited TURN credential, updated together with the credential.
    pub turn_credential: Option<T>,
}

impl<C, T> CredentialState<C, T> {
    /// A state holding the given credential.
    pub fn new(credential: C, expires_at: Option<Timestamp>, turn_credential: Option<T>) -> (s: Self)
        ensures
            s == (CredentialState { credential, expires_at, turn_credential }),
    {
        CredentialState { credential, expires_at, turn_credential }
    }

    /// Replace the credential and its expiry. The TURN credential is replaced
    /// only by a present one: an absent TURN credential never erases the old.
    pub fn update(&mut self, credential: C, expires_at: Option<Timestamp>, turn_credential: Option<T>)
        ensures
            final(self).credential == credential,
            final(self).expires_at == expires_at,
            final(self).turn_credential == if turn_credential is Some {
                turn_credential
            } else {
                old(self).turn_credential
            },
    {
        self.credential = credential;
        self.expires_at = expires_at;
        if turn_credential.is_some() {
            self.turn_credential = turn_credential;
        }
    }
}

/// What the issuer returned for a successful renew or reissue call. Any of
/// the expiry and token fields may be absent from a malformed reply.
#[derive(Debug, Clone, PartialEq, Eq)]
pub struct IssuedCredential<C, T> {
    /// The identity the credential was issued for, by its canonical text.
    pub actor_id: String,
    pub credential: C,
    pub turn_credential: T,
    pub credential_expires_at: Option<Timestamp>,
    pub renewal_token: Option<Vec<u8>>,
    pub renewal_token_expires_at: Option<Timestamp>,
}

/// An error status in an issuer reply.
#[derive(Debug, Clone, PartialEq, Eq)]
pub struct IssuerError {
    pub code: u32,
    pub message: String,
}

/// The result carried by an issuer reply.
#[derive(Debug, Clone, PartialEq, Eq)]
pub enum IssuerReply<C, T> {
    Success(IssuedCredential<C, T>),
    Error(IssuerError),
    /// The reply carried no result at all.
    Missing,
}

/// The credential material of a reply, all of it present.
#[derive(Debug, Clone, PartialEq, Eq)]
pub struct FreshCredential<C, T> {
    pub credential: C,
    pub credential_expires_at: Timestamp,
    pub turn_credential: T,
    pub renewal_token: Vec<u8>,
    pub renewal_token_expires_at: Timestamp,
}

/// Whether a reply carries every expiry and the renewal token.
pub open spec fn fields_complete<C, T>(ok: IssuedCredential<C, T>) -> bool {
    &&& ok.credential_expires_at is Some
    &&& ok.renewal_token is Some
    &&& ok.renewal_token_expires_at is Some
}

/// The credential material of a complete reply.
pub open spec fn fresh_of<C, T>(ok: IssuedCredential<C, T>) -> FreshCredential<C, T> {
    FreshCredential {
        credential: ok.credential,
        credential_expires_at: ok.credential_expires_at->0,
        turn_credential: ok.turn_credential,
        renewal_token: ok.renewal_token->0,
        renewal_token_expires_at: ok.renewal_token_expires_at->0,
    }
}

/// The reason for the first absent field of an incomplete reply, checked in
/// the order credential expiry, renewal token, renewal token expiry.
pub open spec fn missing_field_text<C, T>(ok: IssuedCredential<C, T>, lead: Seq<char>) -> Seq<char> {
    if ok.credential_expires_at is None {
        lead + " missing credential expiry"@
    } else if ok.renewal_token is None {
        lead + " missing renewal token"@
    } else {
        lead + " missing renewal token expiry"@
    }
}

fn complete_fields<C, T>(ok: IssuedCredential<C, T>, lead: &str) -> (r: Result<FreshCredential<C, T>, String>)
    ensures
        match r {
            Ok(f) => fields_complete(ok) && f == fresh_of(ok),
            Err(m) => !fields_complete(ok) && m@ == missing_field_text(ok, lead@),
        },
{
    let IssuedCredential {
        actor_id: _,
        credential,
        turn_credential,
        credential_expires_at,
        renewal_token,
        renewal_token_expires_at,
    } = ok;
    match credential_expires_at {
        None => {
            let mut m = String::from_str(lead);
            m.append(" missing credential expiry");
            Err(m)
        },
        Some(ce) => match renewal_token {
            None => {
                let mut m = String::from_str(lead);
                m.append(" missing renewal token");
                Err(m)
            },
            Some(rt) => match renewal_token_expires_at {
                None => {
                    let mut m = String::from_str(lead);
                    m.append(" missing renewal token expiry");
                    Err(m)
                },
                Some(re) => Ok(
                    FreshCredential {
                        credential,
                        credential_expires_at: ce,
                        turn_credential,
                        renewal_token: rt,
                        renewal_token_expires_at: re,
                    },
                ),
            },
        },
    }
}

/// The text of an issuer error status after `lead`: the code in decimal, a
/// colon and the message.
pub open spec fn status_text(lead: Seq<char>, e: IssuerError) -> Seq<char> {
    lead + decimal_text(e.code as nat) + ": "@ + e.message@
}

fn status_message(lead: &str, e: &IssuerError) -> (m: String)
    ensures
        m@ == status_text(lead@, *e),
{
    let mut m = String::from_str(lead);
    push_decimal(&mut m, e.code);
    m.append(": ");
    m.append(e.message.as_str());
    m
}

/// How a reply is judged before anything is committed.
pub enum ReplyVerdict {
    /// Commit what the reply carries.
    Accept,
    /// The realm denied membership.
    Denied,
    /// Refuse the reply for this reason; nothing is committed.
    Refuse(Seq<char>),
}

/// How a soft renew reply is judged. A reply is accepted only when it is a
/// success issued for the expected identity, the credential's claims decode
/// to that same identity, and every expiry and the renewal token are
/// present; otherwise the first failing check names the reason.
pub open spec fn renewal_verdict<C, T>(
    expected: Seq<char>,
    reply: IssuerReply<C, T>,
    claims: Result<String, String>,
) -> ReplyVerdict {
    match reply {
        IssuerReply::Error(e) => ReplyVerdict::Refuse(status_text("renew response contained error "@, e)),
        IssuerReply::Missing => ReplyVerdict::Refuse("renew response missing result"@),
        IssuerReply::Success(ok) => if ok.actor_id@ != expected {
            ReplyVerdict::Refuse("renew response changed ActrId"@)
        } else {
            match claims {
                Err(d) => ReplyVerdict::Refuse("renew credential claims decode failed: "@ + d@),
                Ok(a) => if a@ != expected {
                    ReplyVerdict::Refuse("renew credential claims actor_id mismatch"@)
                } else if !fields_complete(ok) {
                    ReplyVerdict::Refuse(missing_field_text(ok, "renew response"@))
                } else {
                    ReplyVerdict::Accept
                },
            }
        },
    }
}

/// Check a soft renew reply against the expected identity. `claims` is what
/// decoding the issued credential's claims gave: the actor identity they
/// name, or the decoding error's text.
pub fn check_renewal<C, T>(
    expected: &String,
    reply: IssuerReply<C, T>,
    claims: Result<String, String>,
) -> (r: Result<FreshCredential<C, T>, String>)
    ensures
        match renewal_verdict(expected@, reply, claims) {
            ReplyVerdict::Refuse(m) => r matches Err(e) && e@ == m,
            _ => reply matches IssuerReply::Success(ok) && r == Ok::<FreshCredential<C, T>, String>(
                fresh_of(ok),
            ),
        },
{
    match reply {
        IssuerReply::Error(e) => Err(status_message("renew response contained error ", &e)),
        IssuerReply::Missing => Err(String::from_str("renew response missing result")),
        IssuerReply::Success(ok) => {
            if !(ok.actor_id == *expected) {
                return Err(String::from_str("renew response changed ActrId"));
            }
            match claims {
                Err(d) => {
                    let mut m = String::from_str("renew credential claims decode failed: ");
                    m.append(d.as_str());
                    Err(m)
                },
                Ok(a) => {
                    if !(a == *expected) {
                        return Err(String::from_str("renew credential claims actor_id mismatch"));
                    }
                    complete_fields(ok, "renew response")
                },
            }
        },
    }
}

/// An accepted renewal keeps the identity: the reply was a success for the
/// expected actor, its claims name that actor, and it was complete.
pub proof fn lemma_accepted_renewal_keeps_identity<C, T>(
    expected: Seq<char>,
    reply: IssuerReply<C, T>,
    claims: Result<String, String>,
)
    requires
        renewal_verdict(expected, reply, claims) == ReplyVerdict::Accept,
    ensures
        reply matches IssuerReply::Success(ok) && ok.actor_id@ == expected && fields_complete(ok),
        claims matches Ok(a) && a@ == expected,
{
}

// ---- Issuer failures -------------------------------------------------------

/// Why a soft renew call failed before it produced a reply.
#[derive(Debug, Clone, PartialEq, Eq)]
pub enum RenewFailure {
    /// The realm is unavailable to this node (a denial).
    RealmUnavailable,
    /// The renewal token was rejected.
    TokenRejected,
    /// The issuer asked the node to slow down, possibly naming a delay (in
    /// nanoseconds).
    RateLimited { retry_after: Option<u64> },
    /// A transient failure, with the text of its cause.
    Retryable(String),
    /// Any other failure, with its full text.
    Other(String),
}

/// What a soft renew on the membership path comes to.
#[derive(Debug, Clone, PartialEq, Eq)]
pub enum SoftRenewOutcome<C, T> {
    /// A fresh credential was issued and checked.
    Renewed(FreshCredential<C, T>),
    /// The realm denied membership; the session is marked unavailable.
    Denied,
    /// A transient failure; retry later.
    Deferred(String),
    /// The renewal token was rejected; continue with a hard rebind.
    FallThroughToHardRebind,
}

/// Whether `o` defers with exactly the text `m`.
pub open spec fn defers_with<C, T>(o: SoftRenewOutcome<C, T>, m: Seq<char>) -> bool {
    o matches SoftRenewOutcome::Deferred(r) && r@ == m
}

/// What the membership path makes of a failed soft renew call: a realm
/// denial denies, a rejected token falls through to a hard rebind, and
/// every other failure defers with its reason.
pub open spec fn soft_failure_answers<C, T>(f: RenewFailure, o: SoftRenewOutcome<C, T>) -> bool {
    match f {
        RenewFailure::RealmUnavailable => o == SoftRenewOutcome::<C, T>::Denied,
        RenewFailure::TokenRejected => o == SoftRenewOutcome::<C, T>::FallThroughToHardRebind,
        RenewFailure::RateLimited { .. } => defers_with(o, "renewal rate limited"@),
        RenewFailure::Retryable(e) => defers_with(o, "retryable renew error: "@ + e@),
        RenewFailure::Other(e) => defers_with(o, e@),
    }
}

/// What the membership path makes of a failed soft renew call.
pub fn soft_renew_failure<C, T>(f: RenewFailure) -> (o: SoftRenewOutcome<C, T>)
    ensures
        soft_failure_answers(f, o),
{
    match f {
        RenewFailure::RealmUnavailable => SoftRenewOutcome::Denied,
        RenewFailure::TokenRejected => SoftRenewOutcome::FallThroughToHardRebind,
        RenewFailure::RateLimited { .. } => SoftRenewOutcome::Deferred(
            String::from_str("renewal rate limited"),
        ),
        RenewFailure::Retryable(e) => {
            let mut m = String::from_str("retryable renew error: ");
            m.append(e.as_str());
            SoftRenewOutcome::Deferred(m)
        },
        RenewFailure::Other(e) => SoftRenewOutcome::Deferred(e),
    }
}

/// What the legacy renewal trigger does after a failed soft renew call.
#[derive(Debug, Clone, PartialEq, Eq)]
pub enum LegacyRenewStep {
    /// Continue with a hard rebind.
    HardRebind,
    /// End this attempt: mark the realm unavailable when asked, wait for
    /// the pause (in nanoseconds) when there is one, and report the reason.
    Abandon { mark_realm_unavailable: bool, pause: Option<u64>, reason: String },
}

/// The first delay of a fresh backoff, in nanoseconds.
pub open spec fn first_backoff_nanos() -> int {
    backoff_delay_ms(0) * 1_000_000
}

/// What the legacy renewal trigger does after a failed soft renew call: a
/// rejected token goes on to a hard rebind; a realm denial marks the realm
/// unavailable; a rate limit waits for the delay the issuer named; a
/// transient failure waits for the first step of a fresh backoff.
pub open spec fn legacy_failure_answers(f: RenewFailure, s: LegacyRenewStep) -> bool {
    match f {
        RenewFailure::TokenRejected => s == LegacyRenewStep::HardRebind,
        RenewFailure::RealmUnavailable => s matches LegacyRenewStep::Abandon {
            mark_realm_unavailable,
            pause,
            reason,
        } && mark_realm_unavailable && pause is None && reason@
            == "realm unavailable during renewal"@,
        RenewFailure::RateLimited { retry_after } => s matches LegacyRenewStep::Abandon {
            mark_realm_unavailable,
            pause,
            reason,
        } && !mark_realm_unavailable && pause == retry_after && reason@ == "renewal rate limited"@,
        RenewFailure::Retryable(e) => s matches LegacyRenewStep::Abandon {
            mark_realm_unavailable,
            pause,
            reason,
        } && !mark_realm_unavailable && pause == Some(first_backoff_nanos() as u64) && reason@
            == "retryable renew error: "@ + e@,
        RenewFailure::Other(e) => s matches LegacyRenewStep::Abandon {
            mark_realm_unavailable,
            pause,
            reason,
        } && !mark_realm_unavailable && pause is None && reason@ == e@,
    }
}

/// What the legacy renewal trigger does after a failed soft renew call.
pub fn legacy_renew_failure(f: RenewFailure) -> (s: LegacyRenewStep)
    ensures
        legacy_failure_answers(f, s),
{
    match f {
        RenewFailure::TokenRejected => LegacyRenewStep::HardRebind,
        RenewFailure::RealmUnavailable => LegacyRenewStep::Abandon {
            mark_realm_unavailable: true,
            pause: None,
            reason: String::from_str("realm unavailable during renewal"),
        },
        RenewFailure::RateLimited { retry_after } => LegacyRenewStep::Abandon {
            mark_realm_unavailable: false,
            pause: retry_after,
            reason: String::from_str("renewal rate limited"),
        },
        RenewFailure::Retryable(e) => {
            let mut backoff = Backoff::new();
            let ms = backoff.next();
            let mut reason = String::from_str("retryable renew error: ");
            reason.append(e.as_str());
            LegacyRenewStep::Abandon {
                mark_realm_unavailable: false,
                pause: Some(ms * 1_000_000),
                reason,
            }
        },
        RenewFailure::Other(e) => LegacyRenewStep::Abandon {
            mark_realm_unavailable: false,
            pause: None,
            reason: e,
        },
    }
}

/// Both renewal paths hand a rejected renewal token, and only that, on to a
/// hard rebind, and both treat a realm denial as terminal.
pub proof fn lemma_renewal_paths_agree_on_failures<C, T>(
    f: RenewFailure,
    o: SoftRenewOutcome<C, T>,
    s: LegacyRenewStep,
)
    requires
        soft_failure_answers(f, o),
        legacy_failure_answers(f, s),
    ensures
        (o == SoftRenewOutcome::<C, T>::FallThroughToHardRebind) == (s == LegacyRenewStep::HardRebind),
        (o == SoftRenewOutcome::<C, T>::FallThroughToHardRebind) == (f == RenewFailure::TokenRejected),
        (o == SoftRenewOutcome::<C, T>::Denied) == (s matches LegacyRenewStep::Abandon {
            mark_realm_unavailable,
            ..
        } && mark_realm_unavailable),
{
}


/// What a soft renew on the membership path comes to, from the call's
/// result: a failed call is answered as [`soft_failure_answers`] says; a
/// reply is judged by [`renewal_verdict`], and a refused one defers with the
/// refusal's reason.
pub fn soft_renew_outcome<C, T>(
    expected: &String,
    call: Result<IssuerReply<C, T>, RenewFailure>,
    claims: Result<String, String>,
) -> (o: SoftRenewOutcome<C, T>)
    ensures
        match call {
            Err(f) => soft_failure_answers(f, o),
            Ok(reply) => match renewal_verdict(expected@, reply, claims) {
                ReplyVerdict::Refuse(m) => defers_with(o, m),
                _ => reply matches IssuerReply::Success(ok) && o == SoftRenewOutcome::Renewed(
                    fresh_of(ok),
                ),
            },
        },
{
    match call {
        Err(f) => soft_renew_failure(f),
        Ok(reply) => match check_renewal(expected, reply, claims) {
            Ok(fresh) => SoftRenewOutcome::Renewed(fresh),
            Err(m) => SoftRenewOutcome::Deferred(m),
        },
    }
}

// ---- Hard rebind -----------------------------------------------------------

/// The generation after a commit: one more, saturating at the maximum.
pub open spec fn next_generation(g: u64) -> u64 {
    if g == u64::MAX {
        g
    } else {
        (g + 1) as u64
    }
}

/// The session a hard rebind commits: the old identity, the reply's
/// credential material, and the next generation.
pub open spec fn committed_snapshot<C, T>(
    actor_id: String,
    generation: u64,
    ok: IssuedCredential<C, T>,
) -> SessionSnapshot<C, T> {
    SessionSnapshot {
        actor_id,
        credential: ok.credential,
        credential_expires_at: ok.credential_expires_at->0,
        turn_credential: ok.turn_credential,
        renewal_token: ok.renewal_token->0,
        renewal_token_expires_at: ok.renewal_token_expires_at->0,
        generation: next_generation(generation),
    }
}

/// How the legacy hard rebind judges a reissue call. Every refusal happens
/// before anything is committed.
pub open spec fn legacy_rebind_verdict<C, T>(
    old_actor: Seq<char>,
    call: Result<IssuerReply<C, T>, String>,
) -> ReplyVerdict {
    match call {
        Err(t) => ReplyVerdict::Refuse("hard rebind reissue failed before commit: "@ + t@),
        Ok(IssuerReply::Error(e)) => ReplyVerdict::Refuse(
            status_text("hard rebind reissue rejected before commit "@, e),
        ),
        Ok(IssuerReply::Missing) => ReplyVerdict::Refuse("hard rebind reissue response missing result"@),
        Ok(IssuerReply::Success(ok)) => if ok.actor_id@ != old_actor {
            ReplyVerdict::Refuse(
                "credential reissue changed ActrId ("@ + ok.actor_id@ + " != "@ + old_actor + ")"@,
            )
        } else if !fields_complete(ok) {
            ReplyVerdict::Refuse(missing_field_text(ok, "hard rebind response"@))
        } else {
            ReplyVerdict::Accept
        },
    }
}

/// How the credential-only hard rebind judges a reissue call: as the legacy
/// one, except that a rejection with code 403 is a realm denial and the
/// reasons read differently.
pub open spec fn credential_only_rebind_verdict<C, T>(
    old_actor: Seq<char>,
    call: Result<IssuerReply<C, T>, String>,
) -> ReplyVerdict {
    match call {
        Err(t) => ReplyVerdict::Refuse("hard rebind reissue failed: "@ + t@),
        Ok(IssuerReply::Error(e)) => if e.code == 403 {
            ReplyVerdict::Denied
        } else {
            ReplyVerdict::Refuse(status_text("hard rebind reissue rejected "@, e))
        },
        Ok(IssuerReply::Missing) => ReplyVerdict::Refuse("hard rebind reissue response missing result"@),
        Ok(IssuerReply::Success(ok)) => if ok.actor_id@ != old_actor {
            ReplyVerdict::Refuse(
                "credential reissue returned a different ActrId ("@ + ok.actor_id@ + " != "@ + old_actor
                    + ")"@,
            )
        } else if !fields_complete(ok) {
            ReplyVerdict::Refuse(missing_field_text(ok, "hard rebind response"@))
        } else {
            ReplyVerdict::Accept
        },
    }
}

fn identity_change_message(lead: &str, new_actor: &String, old_actor: &String) -> (m: String)
    ensures
        m@ == lead@ + new_actor@ + " != "@ + old_actor@ + ")"@,
{
    let mut m = String::from_str(lead);
    m.append(new_actor.as_str());
    m.append(" != ");
    m.append(old_actor.as_str());
    m.append(")");
    m
}

fn commit_snapshot<C, T>(old: &SessionSnapshot<C, T>, fresh: FreshCredential<C, T>) -> (s: SessionSnapshot<C, T>)
    ensures
        s == (SessionSnapshot {
            actor_id: old.actor_id,
            credential: fresh.credential,
            credential_expires_at: fresh.credential_expires_at,
            turn_credential: fresh.turn_credential,
            renewal_token: fresh.renewal_token,
            renewal_token_expires_at: fresh.renewal_token_expires_at,
            generation: next_generation(old.generation),
        }),
{
    SessionSnapshot {
        actor_id: old.actor_id.clone(),
        credential: fresh.credential,
        credential_expires_at: fresh.credential_expires_at,
        turn_credential: fresh.turn_credential,
        renewal_token: fresh.renewal_token,
        renewal_token_expires_at: fresh.renewal_token_expires_at,
        generation: old.generation.saturating_add(1),
    }
}

/// The legacy hard rebind's check of a reissue call (`Err` holds the call's
/// transport error text): the session to commit, with the old identity and
/// the next generation, or the reason nothing is committed.
pub fn hard_rebind_commit<C, T>(
    old: &SessionSnapshot<C, T>,
    call: Result<IssuerReply<C, T>, String>,
) -> (r: Result<SessionSnapshot<C, T>, String>)
    ensures
        match legacy_rebind_verdict(old.actor_id@, call) {
            ReplyVerdict::Refuse(m) => r matches Err(e) && e@ == m,
            _ => call matches Ok(IssuerReply::Success(ok)) && r == Ok::<SessionSnapshot<C, T>, String>(
                committed_snapshot(old.actor_id, old.generation, ok),
            ),
        },
        r matches Ok(s) ==> s.actor_id == old.actor_id && s.generation == next_generation(
            old.generation,
        ),
{
    match call {
        Err(t) => {
            let mut m = String::from_str("hard rebind reissue failed before commit: ");
            m.append(t.as_str());
            Err(m)
        },
        Ok(IssuerReply::Error(e)) => Err(status_message("hard rebind reissue rejected before commit ", &e)),
        Ok(IssuerReply::Missing) => Err(String::from_str("hard rebind reissue response missing result")),
        Ok(IssuerReply::Success(ok)) => {
            if !(ok.actor_id == old.actor_id) {
                return Err(
                    identity_change_message(
                        "credential reissue changed ActrId (",
                        &ok.actor_id,
                        &old.actor_id,
                    ),
                );
            }
            match complete_fields(ok, "hard rebind response") {
                Ok(fresh) => Ok(commit_snapshot(old, fresh)),
                Err(m) => Err(m),
            }
        },
    }
}

/// What the legacy hard rebind does once its session is committed.
#[derive(Debug, Clone, PartialEq, Eq)]
pub enum CommittedRebindStep {
    /// Mark the session active; the rebind succeeded.
    MarkActive,
    /// Leave the reconnect to the signaling client's automatic schedule and
    /// report this reason; the new session stays committed.
    ScheduleReconnect { reason: String },
}

/// What the legacy hard rebind does once its session is committed, from the
/// result of the one signaling reconnect it makes (`None` when no runtime
/// handles are installed, so no reconnect was tried): a successful or
/// untried reconnect marks the session active; a failed one schedules an
/// automatic reconnect and reports that the commit stands but signaling did
/// not reconnect.
pub fn after_rebind_commit(reconnect: Option<Result<(), String>>) -> (s: CommittedRebindStep)
    ensures
        match reconnect {
            Some(Err(t)) => s matches CommittedRebindStep::ScheduleReconnect { reason } && reason@
                == "hard rebind committed but signaling reconnect failed: "@ + t@,
            _ => s == CommittedRebindStep::MarkActive,
        },
{
    match reconnect {
        Some(Err(t)) => {
            let mut reason = String::from_str("hard rebind committed but signaling reconnect failed: ");
            reason.append(t.as_str());
            CommittedRebindStep::ScheduleReconnect { reason }
        },
        _ => CommittedRebindStep::MarkActive,
    }
}

/// What a credential-only hard rebind comes to.
#[derive(Debug, Clone, PartialEq, Eq)]
pub enum RebindOutcome<C, T> {
    /// Commit this session, then publish its credential.
    Commit(SessionSnapshot<C, T>),
    /// The realm denied membership; the session is marked unavailable.
    Denied,
    /// A transient failure; nothing was committed.
    Deferred(String),
}

/// The credential-only hard rebind's check of a reissue call (`Err` holds
/// the call's transport error text).
pub fn credential_only_rebind<C, T>(
    old: &SessionSnapshot<C, T>,
    call: Result<IssuerReply<C, T>, String>,
) -> (o: RebindOutcome<C, T>)
    ensures
        match credential_only_rebind_verdict(old.actor_id@, call) {
            ReplyVerdict::Refuse(m) => o matches RebindOutcome::Deferred(e) && e@ == m,
            ReplyVerdict::Denied => o == RebindOutcome::<C, T>::Denied,
            ReplyVerdict::Accept => call matches Ok(IssuerReply::Success(ok)) && o == RebindOutcome::Commit(
                committed_snapshot(old.actor_id, old.generation, ok),
            ),
        },
{
    match call {
        Err(t) => {
            let mut m = String::from_str("hard rebind reissue failed: ");
            m.append(t.as_str());
            RebindOutcome::Deferred(m)
        },
        Ok(IssuerReply::Error(e)) => {
            if e.code == 403 {
                RebindOutcome::Denied
            } else {
                RebindOutcome::Deferred(status_message("hard rebind reissue rejected ", &e))
            }
        },
        Ok(IssuerReply::Missing) => RebindOutcome::Deferred(
            String::from_str("hard rebind reissue response missing result"),
        ),
        Ok(IssuerReply::Success(ok)) => {
            if !(ok.actor_id == old.actor_id) {
                return RebindOutcome::Deferred(
                    identity_change_message(
                        "credential reissue returned a different ActrId (",
                        &ok.actor_id,
                        &old.actor_id,
                    ),
                );
            }
            match complete_fields(ok, "hard rebind response") {
                Ok(fresh) => RebindOutcome::Commit(commit_snapshot(old, fresh)),
                Err(m) => RebindOutcome::Deferred(m),
            }
        },
    }
}

/// Both hard rebinds commit exactly the same replies, and only the
/// credential-only one turns a 403 rejection into a realm denial.
pub proof fn lemma_rebind_paths_commit_alike<C, T>(
    old_actor: Seq<char>,
    call: Result<IssuerReply<C, T>, String>,
)
    ensures
        (legacy_rebind_verdict(old_actor, call) == ReplyVerdict::Accept) == (
        credential_only_rebind_verdict(old_actor, call) == ReplyVerdict::Accept),
        legacy_rebind_verdict(old_actor, call) != ReplyVerdict::Denied,
        (credential_only_rebind_verdict(old_actor, call) == ReplyVerdict::Denied) == (call matches Ok(
            IssuerReply::Error(e),
        ) && e.code == 403),
{
}

/// The possession proof presented with a reissue: the last renewal token,
/// even an expired or rejected one, and none when no token was issued.
pub fn possession_proof(token: Vec<u8>) -> (p: Option<Vec<u8>>)
    ensures
        p == (if token@.len() == 0 {
            None
        } else {
            Some(token)
        }),
{
    if token.len() == 0 {
        None
    } else {
        Some(token)
    }
}

/// Check what a manufacturer re-sign needs from a package registration:
/// a non-empty target and a non-empty raw manifest.
pub fn resign_inputs(target: Option<String>, manifest_raw: Option<Vec<u8>>) -> (r: Result<
    (String, Vec<u8>),
    String,
>)
    ensures
        match r {
            Ok((t, m)) => target == Some(t) && t@.len() > 0 && manifest_raw == Some(m) && m@.len() > 0,
            Err(e) => if !(target matches Some(t) && t@.len() > 0) {
                e@ == "hard rebind manufacturer re-sign failed: package target is missing"@
            } else {
                !(manifest_raw matches Some(m) && m@.len() > 0) && e@
                    == "hard rebind manufacturer re-sign failed: package manifest is missing"@
            },
        },
{
    let t = match target {
        Some(t) => {
            if t.as_str().is_empty() {
                return Err(
                    String::from_str("hard rebind manufacturer re-sign failed: package target is missing"),
                );
            }
            t
        },
        None => {
            return Err(
                String::from_str("hard rebind manufacturer re-sign failed: package target is missing"),
            );
        },
    };
    match manifest_raw {
        Some(m) => {
            if m.len() == 0 {
                return Err(
                    String::from_str("hard rebind manufacturer re-sign failed: package manifest is missing"),
                );
            }
            Ok((t, m))
        },
        None => Err(
            String::from_str("hard rebind manufacturer re-sign failed: package manifest is missing"),
        ),
    }
}

/// The reason a manufacturer re-sign failed with `detail`.
pub fn resign_failure(detail: &str) -> (m: String)
    ensures
        m@ == "hard rebind manufacturer re-sign failed: "@ + detail@,
{
    let mut m = String::from_str("hard rebind manufacturer re-sign failed: ");
    m.append(detail);
    m
}

} // verus!
