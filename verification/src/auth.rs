//! Customer authentication: e-mail and password rules, one-time-code
//! targets, bearer tokens, sessions and the claims of a session token.

use crate::clock::{in_datetime_range, now_micros, seconds_of, shift, shifted};
use crate::error::{fails_with, provider_error, sqlx_unique_violation, AppError};
use crate::text::{
    append_text, chars_of, has_char, lemma_split_at_first, lemma_split_at_first_none, same_text,
    split_at_first, split_once_char, strip_prefix_text, trim_chars, trimmed, utf8_len,
    string_from_chars, utf8_len_below,
};
use vstd::prelude::*;
use vstd::string::*;

verus! {

/// `POST /auth/register`
pub struct RegisterUser {
    pub email: String,
    pub otp: String,
    pub password: String,
    pub phone: String,
}

/// `POST /auth/login`: `id` is the e-mail address or the phone number.
pub struct LoginUser {
    pub id: String,
    pub password: String,
}

/// `POST /auth/send-otp`
pub struct OtpRequest {
    pub email: Option<String>,
    pub phone: Option<String>,
}

/// `POST /auth/verify-otp`
pub struct VerifyOtpRequest {
    pub code: String,
    pub email: Option<String>,
    pub phone: Option<String>,
}

/// `POST /auth/password-reset/request`
pub struct PasswordResetRequest {
    pub email: String,
}

/// `POST /auth/password-reset/confirm`
pub struct PasswordResetConfirmRequest {
    pub email: String,
    pub code: String,
    pub new_password: String,
}

/// The answer to a successful login.
pub struct TokenResponse {
    pub token: String,
}

/// The profile a signed-in customer reads (`GET /me`).
pub struct UserResponse {
    pub id: u128,
    pub display_name: Option<String>,
    pub email: String,
    pub phone: String,
    pub kyc_status: String,
    pub email_verified: bool,
    pub phone_verified: bool,
}

/// An address with a non-empty local part, an `@`, and a non-empty domain
/// that has a dot; surrounding white space is ignored.
pub open spec fn valid_email(email: Seq<char>) -> bool {
    match split_at_first(trimmed(email), '@') {
        Some((local, domain)) => local.len() > 0 && domain.len() > 0 && domain.contains('.'),
        None => false,
    }
}

/// Any address made of a non-empty local part without `@`, an `@`, and a
/// non-empty domain that has a dot is accepted, once surrounding white space
/// is set aside: nothing else is asked of the local part. An address with no
/// `@`, an empty local part, or a domain without a dot is refused.
pub proof fn law_well_formed_addresses_are_accepted(email: Seq<char>, l: Seq<char>, d: Seq<char>)
    ensures
        trimmed(email) == l + seq!['@'] + d && l.len() > 0 && !l.contains('@') && d.len() > 0
            && d.contains('.') ==> valid_email(email),
        !trimmed(email).contains('@') ==> !valid_email(email),
        trimmed(email) == l + seq!['@'] + d && !l.contains('@') && (l.len() == 0 || d.len() == 0
            || !d.contains('.')) ==> !valid_email(email),
{
    if trimmed(email) == l + seq!['@'] + d && !l.contains('@') {
        lemma_split_at_first(trimmed(email), '@', l, d);
    }
    if !trimmed(email).contains('@') {
        lemma_split_at_first_none(trimmed(email), '@');
    }
}

/// The e-mail check of sign-up and password reset.
pub fn ensure_valid_email(email: &str) -> (r: Result<(), AppError>)
    ensures
        r is Ok <==> valid_email(email@),
        !valid_email(email@) ==> fails_with(r, "VALID_EMAIL_REQUIRED"@),
        forall|l: Seq<char>, d: Seq<char>|
            #![trigger l + seq!['@'] + d]
            trimmed(email@) == l + seq!['@'] + d && l.len() > 0 && !l.contains('@') && d.len() > 0
                && d.contains('.') ==> r is Ok,
{
    proof {
        assert forall|l: Seq<char>, d: Seq<char>|
            #![trigger l + seq!['@'] + d]
            trimmed(email@) == l + seq!['@'] + d && l.len() > 0 && !l.contains('@') && d.len() > 0
                && d.contains('.') implies valid_email(email@) by {
            law_well_formed_addresses_are_accepted(email@, l, d);
        }
    }
    let v = chars_of(email);
    let t = trim_chars(&v);
    match split_once_char(&t, '@') {
        None => {
            proof {
                lemma_split_at_first_none(t@, '@');
            }
            Err(provider_error("VALID_EMAIL_REQUIRED"))
        },
        Some((local, domain)) => {
            proof {
                lemma_split_at_first(t@, '@', local@, domain@);
            }
            if local.len() == 0 || domain.len() == 0 || !has_char(&domain, '.') {
                Err(provider_error("VALID_EMAIL_REQUIRED"))
            } else {
                Ok(())
            }
        },
    }
}

/// Where a one-time code is sent.
pub enum OtpChannel {
    Email,
    Phone,
}

/// The channel name the code store keys on.
pub fn channel_name(c: &OtpChannel) -> (r: &'static str)
    ensures
        *c is Email ==> r@ == "EMAIL"@,
        *c is Phone ==> r@ == "PHONE"@,
{
    match c {
        OtpChannel::Email => "EMAIL",
        OtpChannel::Phone => "PHONE",
    }
}

/// The channel and raw target of a code request: the e-mail address when one
/// is given, else the phone number.
pub fn otp_target(email: Option<String>, phone: Option<String>) -> (r: Result<
    (OtpChannel, String),
    AppError,
>)
    ensures
        email matches Some(e) ==> (r matches Ok((c, t)) && c is Email && t == e),
        email is None && phone is Some ==> (r matches Ok((c, t)) && c is Phone && Some(t)
            == phone),
        email is None && phone is None ==> fails_with(r, "EMAIL_OR_PHONE_REQUIRED"@),
{
    match email {
        Some(e) => Ok((OtpChannel::Email, e)),
        None => match phone {
            Some(p) => Ok((OtpChannel::Phone, p)),
            None => Err(provider_error("EMAIL_OR_PHONE_REQUIRED")),
        },
    }
}

/// A new password is used trimmed and must be at least six bytes long.
pub fn check_new_password(new_password: &str) -> (r: Result<String, AppError>)
    ensures
        utf8_len(trimmed(new_password@)) < 6 ==> fails_with(r, "PASSWORD_TOO_SHORT"@),
        utf8_len(trimmed(new_password@)) >= 6 ==> (r matches Ok(t) && t@ == trimmed(
            new_password@,
        )),
{
    let v = chars_of(new_password);
    let t = trim_chars(&v);
    if utf8_len_below(&t, 6) {
        return Err(provider_error("PASSWORD_TOO_SHORT"));
    }
    Ok(string_from_chars(&t))
}

/// The token of an `Authorization: Bearer <token>` header; any other header,
/// or none, is `Unauthorized`.
pub fn bearer_token(header: Option<&str>) -> (r: Result<String, AppError>)
    ensures
        header is None ==> r matches Err(AppError::Unauthorized),
        header matches Some(h) ==> (r matches Ok(t) ==> h@ == "Bearer "@ + t@),
        header matches Some(h) ==> ("Bearer "@.len() <= h@.len() && h@.take(
            "Bearer "@.len() as int,
        ) == "Bearer "@ <==> r is Ok),
        r is Err ==> r matches Err(AppError::Unauthorized),
{
    match header {
        None => Err(AppError::Unauthorized),
        Some(h) => match strip_prefix_text(h, "Bearer ") {
            Some(t) => {
                assert(h@.take("Bearer "@.len() as int) =~= "Bearer "@);
                Ok(t)
            },
            None => Err(AppError::Unauthorized),
        },
    }
}

/// A session whose row was found with the status `active`.
pub open spec fn session_active(status: Option<String>) -> bool {
    status matches Some(s) && s@ == "active"@
}

/// A token is honoured only while its session is active.
pub fn require_active_session(status: Option<String>) -> (r: Result<(), AppError>)
    ensures
        r is Ok <==> session_active(status),
        r is Err ==> r matches Err(AppError::Unauthorized),
{
    match status {
        Some(s) => if same_text(s.as_str(), "active") {
            Ok(())
        } else {
            Err(AppError::Unauthorized)
        },
        None => Err(AppError::Unauthorized),
    }
}

/// A row of the session table.
pub struct SessionRow {
    pub id: u128,
    pub user_id: u128,
    /// Microseconds since the Unix epoch.
    pub expires_at: i64,
    pub status: String,
}

/// `r` is session `session_id` of `user_id`.
pub open spec fn is_session(r: SessionRow, session_id: u128, user_id: u128) -> bool {
    r.id == session_id && r.user_id == user_id
}

/// The status of the first unexpired row of session `session_id` of
/// `user_id` in `rows`, `None` when there is none.
pub open spec fn session_lookup(rows: Seq<SessionRow>, session_id: u128, user_id: u128, now: i64) -> Option<
    Seq<char>,
>
    decreases rows.len(),
{
    if rows.len() == 0 {
        None
    } else if is_session(rows[0], session_id, user_id) && rows[0].expires_at > now {
        Some(rows[0].status@)
    } else {
        session_lookup(rows.drop_first(), session_id, user_id, now)
    }
}

/// A token of session `session_id` of `user_id` is honoured at `now`: its
/// row is found unexpired with the status `active`.
pub open spec fn session_honoured(rows: Seq<SessionRow>, session_id: u128, user_id: u128, now: i64) -> bool {
    session_lookup(rows, session_id, user_id, now) == Some("active"@)
}

/// The session table once session `session_id` of `user_id` has been
/// deleted: the other rows, in their order.
pub open spec fn sessions_after_logout(rows: Seq<SessionRow>, session_id: u128, user_id: u128) -> Seq<
    SessionRow,
>
    decreases rows.len(),
{
    if rows.len() == 0 {
        rows
    } else {
        let kept = sessions_after_logout(rows.drop_last(), session_id, user_id);
        if is_session(rows.last(), session_id, user_id) {
            kept
        } else {
            kept.push(rows.last())
        }
    }
}

/// The status that the lookup of a token's session finds.
pub fn session_status(rows: &Vec<SessionRow>, session_id: u128, user_id: u128, now: i64) -> (r: Option<
    String,
>)
    ensures
        match r {
            Some(s) => session_lookup(rows@, session_id, user_id, now) == Some(s@),
            None => session_lookup(rows@, session_id, user_id, now) is None,
        },
{
    let mut i: usize = 0;
    assert(rows@.skip(0) =~= rows@);
    while i < rows.len()
        invariant
            i <= rows.len(),
            session_lookup(rows@.skip(i as int), session_id, user_id, now) == session_lookup(
                rows@,
                session_id,
                user_id,
                now,
            ),
        decreases rows.len() - i,
    {
        let r = &rows[i];
        assert(rows@.skip(i as int)[0] == rows@[i as int]);
        if r.id == session_id && r.user_id == user_id && r.expires_at > now {
            return Some(r.status.clone());
        }
        assert(rows@.skip(i as int).drop_first() =~= rows@.skip(i + 1));
        i = i + 1;
    }
    assert(rows@.skip(i as int) =~= Seq::<SessionRow>::empty());
    None
}

/// The middleware's check of a token's session: honoured only when its row
/// is found unexpired with the status `active`, else `Unauthorized`.
pub fn check_session(rows: &Vec<SessionRow>, session_id: u128, user_id: u128, now: i64) -> (r: Result<
    (),
    AppError,
>)
    ensures
        r is Ok <==> session_honoured(rows@, session_id, user_id, now),
        r is Err ==> r matches Err(AppError::Unauthorized),
{
    let status = session_status(rows, session_id, user_id, now);
    proof {
        reveal_strlit("active");
    }
    require_active_session(status)
}

/// Logging out deletes the rows of the token's session (and no other).
pub fn logout_sessions(rows: &mut Vec<SessionRow>, session_id: u128, user_id: u128)
    ensures
        final(rows)@ == sessions_after_logout(old(rows)@, session_id, user_id),
{
    let mut kept: Vec<SessionRow> = Vec::new();
    let mut i: usize = 0;
    while i < rows.len()
        invariant
            i <= rows.len(),
            kept@ == sessions_after_logout(rows@.take(i as int), session_id, user_id),
        decreases rows.len() - i,
    {
        let r = &rows[i];
        assert(rows@.take(i + 1).drop_last() =~= rows@.take(i as int));
        assert(rows@.take(i + 1).last() == rows@[i as int]);
        if !(r.id == session_id && r.user_id == user_id) {
            kept.push(SessionRow { id: r.id, user_id: r.user_id, expires_at: r.expires_at, status: r.status.clone() });
        }
        i = i + 1;
    }
    assert(rows@.take(i as int) =~= rows@);
    *rows = kept;
}

/// No row left after a logout is the logged-out session.
proof fn lemma_logout_removes_session(rows: Seq<SessionRow>, session_id: u128, user_id: u128)
    ensures
        forall|k: int|
            0 <= k < sessions_after_logout(rows, session_id, user_id).len() ==> !is_session(
                #[trigger] sessions_after_logout(rows, session_id, user_id)[k],
                session_id,
                user_id,
            ),
    decreases rows.len(),
{
    if rows.len() > 0 {
        lemma_logout_removes_session(rows.drop_last(), session_id, user_id);
        let kept = sessions_after_logout(rows.drop_last(), session_id, user_id);
        if !is_session(rows.last(), session_id, user_id) {
            assert forall|k: int| 0 <= k < kept.push(rows.last()).len() implies !is_session(
                #[trigger] kept.push(rows.last())[k],
                session_id,
                user_id,
            ) by {
                if k < kept.len() {
                    assert(kept.push(rows.last())[k] == kept[k]);
                }
            }
        }
    }
}

/// The lookup finds nothing in rows none of which is the session.
proof fn lemma_lookup_without_session(rows: Seq<SessionRow>, session_id: u128, user_id: u128, now: i64)
    requires
        forall|k: int| 0 <= k < rows.len() ==> !is_session(#[trigger] rows[k], session_id, user_id),
    ensures
        session_lookup(rows, session_id, user_id, now) is None,
    decreases rows.len(),
{
    if rows.len() > 0 {
        assert(!is_session(rows[0], session_id, user_id));
        assert forall|k: int| 0 <= k < rows.drop_first().len() implies !is_session(
            #[trigger] rows.drop_first()[k],
            session_id,
            user_id,
        ) by {
            assert(rows.drop_first()[k] == rows[k + 1]);
        }
        lemma_lookup_without_session(rows.drop_first(), session_id, user_id, now);
    }
}

/// Once a session has been logged out, its token is refused at any time,
/// whatever the table held: the lookup finds no row, and a token is
/// honoured only for a row found `active`.
pub proof fn law_logged_out_tokens_are_refused(rows: Seq<SessionRow>, session_id: u128, user_id: u128, now: i64)
    ensures
        session_lookup(sessions_after_logout(rows, session_id, user_id), session_id, user_id, now) is None,
        !session_honoured(sessions_after_logout(rows, session_id, user_id), session_id, user_id, now),
        !session_active(None),
{
    lemma_logout_removes_session(rows, session_id, user_id);
    lemma_lookup_without_session(sessions_after_logout(rows, session_id, user_id), session_id, user_id, now);
}

/// The error a failed insert of a new user is answered with: an address or
/// phone already registered gets the same answer as a wrong password, so
/// that registration does not reveal who has an account.
pub fn user_conflict_error(unique_violation: bool, e: sqlx::Error) -> (r: AppError)
    ensures
        unique_violation ==> r matches AppError::InvalidCredentials,
        !unique_violation ==> r == AppError::DatabaseError(e),
{
    if unique_violation {
        AppError::InvalidCredentials
    } else {
        AppError::DatabaseError(e)
    }
}

/// The error a failed insert of a new user is answered with (which one the
/// database's answer decides).
pub fn register_insert_error(e: sqlx::Error) -> (r: AppError)
    ensures
        r matches AppError::InvalidCredentials || r == AppError::DatabaseError(e),
{
    let unique = sqlx_unique_violation(&e);
    user_conflict_error(unique, e)
}

/// An e-mail to send.
pub struct OutgoingEmail {
    pub to: String,
    pub subject: String,
    pub body: String,
}

/// The e-mail that carries a sign-up verification code.
pub fn verification_email(to: String, code: &str) -> (m: OutgoingEmail)
    ensures
        m.to == to,
        m.subject@ == "Your Pera verification code"@,
        m.body@ == "Your Pera verification code is "@ + code@ + ". It expires in 10 minutes."@,
{
    let mut body = String::from_str("Your Pera verification code is ");
    append_text(&mut body, code);
    append_text(&mut body, ". It expires in 10 minutes.");
    OutgoingEmail { to, subject: String::from_str("Your Pera verification code"), body }
}

/// The e-mail that carries a password reset code.
pub fn password_reset_email(to: String, code: &str) -> (m: OutgoingEmail)
    ensures
        m.to == to,
        m.subject@ == "Reset your Pera password"@,
        m.body@ == "Your Pera password reset code is "@ + code@ + ". It expires in 10 minutes."@,
{
    let mut body = String::from_str("Your Pera password reset code is ");
    append_text(&mut body, code);
    append_text(&mut body, ". It expires in 10 minutes.");
    OutgoingEmail { to, subject: String::from_str("Reset your Pera password"), body }
}

/// How long a customer session lasts, in seconds (seven days).
pub const SESSION_SECONDS: i64 = 604_800;

/// The claims of a customer session token.
#[derive(Clone, Copy)]
pub struct Claims {
    /// The user.
    pub sub: u128,
    /// The session.
    pub jti: u128,
    /// Issued at, in seconds since the epoch.
    pub iat: i64,
    /// Expires at, in seconds since the epoch.
    pub exp: i64,
}

impl Claims {
    /// The claims of a session opened at `now`: valid for seven days; `None`
    /// where chrono would panic (the expiry is beyond its range).
    pub fn issue_at(user_id: u128, session_id: u128, now: i64) -> (r: Option<Claims>)
        ensures
            match shifted(now as int, SESSION_SECONDS as int) {
                Some(t) => r matches Some(c) && c.sub == user_id && c.jti == session_id && c.iat
                    == (now as int) / 1_000_000 && c.exp == t / 1_000_000,
                None => r is None,
            },
    {
        match shift(now, SESSION_SECONDS) {
            None => None,
            Some(t) => Some(
                Claims { sub: user_id, jti: session_id, iat: seconds_of(now), exp: seconds_of(t) },
            ),
        }
    }

    /// The claims of a session opened now.
    pub fn issue(user_id: u128, session_id: u128) -> (r: Option<Claims>)
        ensures
            exists|now: int|
                in_datetime_range(now) && match shifted(now, SESSION_SECONDS as int) {
                    Some(t) => r matches Some(c) && c.sub == user_id && c.jti == session_id
                        && c.iat == now / 1_000_000 && c.exp == t / 1_000_000,
                    None => r is None,
                },
            r matches Some(c) ==> c.exp == c.iat + SESSION_SECONDS,
    {
        let now = now_micros();
        let r = Claims::issue_at(user_id, session_id, now);
        proof {
            if let Some(c) = r {
                let t = shifted(now as int, SESSION_SECONDS as int)->0;
                assert(t == now + SESSION_SECONDS * 1_000_000);
                assert((now + SESSION_SECONDS * 1_000_000) / 1_000_000 == now / 1_000_000
                    + SESSION_SECONDS) by (nonlinear_arith);
            }
        }
        r
    }
}

} // verus!
