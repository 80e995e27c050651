//! Back-office administrators: claims, roles and permissions.

use crate::clock::{in_datetime_range, now_micros, seconds_of, shift, shifted};
use crate::error::{fails_with, AppError};
use crate::text::{append_text, same_text, uuid_string, uuid_text};
use vstd::prelude::*;
use vstd::string::*;

verus! {

/// How long an administrator session lasts, in seconds (eight hours).
pub const ADMIN_SESSION_SECONDS: i64 = 28_800;

/// The claims of an administrator token.
pub struct AdminClaims {
    pub sub: u128,
    /// The role name, such as `super_admin` or `support`.
    pub role: String,
    pub iat: i64,
    pub exp: i64,
}

/// `POST /admin/login`
pub struct AdminLoginPayload {
    pub email: String,
    pub password: String,
}

/// The permission keys of the signed-in administrator's role.
pub struct AdminPermissions(pub Vec<String>);

/// A permission a handler requires.
pub struct RequirePermission(pub String);

/// A role with its permission keys.
pub struct RoleWithPermissions {
    pub id: u128,
    pub role_name: String,
    pub permissions: Vec<String>,
}

/// `POST /admin/management/roles`
pub struct CreateRolePayload {
    pub role_name: String,
    pub description: String,
    pub permissions: Vec<String>,
}

/// `POST /admin/management/users/assign-role`
pub struct AssignRolePayload {
    pub user_id: u128,
    pub role_id: u128,
}

/// `POST /admin/settings`: the settings to write, key and value.
pub struct UpdateSettingsPayload {
    pub settings: Vec<(String, String)>,
}

/// The permission keys hold `key`.
pub open spec fn has_permission(perms: Seq<String>, key: Seq<char>) -> bool {
    exists|i: int| 0 <= i < perms.len() && #[trigger] perms[i]@ == key
}

/// No key occurs twice.
pub open spec fn keys_distinct(perms: Seq<String>) -> bool {
    forall|i: int, j: int| 0 <= i < j < perms.len() ==> perms[i]@ != perms[j]@
}

/// Appending `x` adds exactly `x`'s text to the keys held.
proof fn lemma_has_permission_push(s: Seq<String>, x: String, k: Seq<char>)
    ensures
        has_permission(s.push(x), k) <==> (has_permission(s, k) || x@ == k),
{
    let t = s.push(x);
    if has_permission(t, k) {
        let n = choose|n: int| 0 <= n < t.len() && #[trigger] t[n]@ == k;
        if n < s.len() {
            assert(s[n]@ == k);
        }
    }
    if has_permission(s, k) {
        let n = choose|n: int| 0 <= n < s.len() && #[trigger] s[n]@ == k;
        assert(t[n]@ == k);
    }
    if x@ == k {
        assert(t[s.len() as int]@ == k);
    }
}

impl AdminPermissions {
    /// The permission keys read for a role, each kept once (as collecting
    /// them into a set does), in the order they first occur.
    pub fn from_keys(keys: Vec<String>) -> (p: AdminPermissions)
        ensures
            keys_distinct(p.0@),
            forall|k: Seq<char>| has_permission(p.0@, k) <==> has_permission(keys@, k),
    {
        let mut set: Vec<String> = Vec::new();
        let mut i: usize = 0;
        while i < keys.len()
            invariant
                i <= keys@.len(),
                keys_distinct(set@),
                forall|k: Seq<char>|
                    has_permission(set@, k) <==> has_permission(keys@.take(i as int), k),
            decreases keys.len() - i,
        {
            let k = &keys[i];
            let mut seen = false;
            let mut j: usize = 0;
            while j < set.len()
                invariant
                    j <= set@.len(),
                    seen <==> exists|m: int| 0 <= m < j && #[trigger] set@[m]@ == k@,
                decreases set.len() - j,
            {
                if same_text(set[j].as_str(), k.as_str()) {
                    seen = true;
                }
                j = j + 1;
            }
            let ghost before = set@;
            let ghost prefix = keys@.take(i as int);
            assert(keys@.take(i + 1) =~= prefix.push(keys@[i as int]));
            proof {
                assert forall|k2: Seq<char>|
                    has_permission(keys@.take(i + 1), k2) <==> (has_permission(prefix, k2)
                        || k@ == k2) by {
                    lemma_has_permission_push(prefix, keys@[i as int], k2);
                }
            }
            if !seen {
                set.push(k.clone());
                proof {
                    assert(set@ =~= before.push(keys@[i as int]));
                    assert forall|k2: Seq<char>|
                        has_permission(set@, k2) <==> has_permission(keys@.take(i + 1), k2) by {
                        lemma_has_permission_push(before, keys@[i as int], k2);
                    }
                }
            } else {
                proof {
                    assert(has_permission(before, k@));
                }
            }
            i = i + 1;
        }
        assert(keys@.take(keys@.len() as int) =~= keys@);
        AdminPermissions(set)
    }
}

/// A handler that needs `key` refuses an administrator without it.
pub fn require_permission(perms: &AdminPermissions, key: &str) -> (r: Result<(), AppError>)
    ensures
        r is Ok <==> has_permission(perms.0@, key@),
        r is Err ==> r matches Err(AppError::Unauthorized),
{
    let mut i: usize = 0;
    while i < perms.0.len()
        invariant
            i <= perms.0@.len(),
            forall|j: int| 0 <= j < i ==> #[trigger] perms.0@[j]@ != key@,
        decreases perms.0.len() - i,
    {
        if same_text(perms.0[i].as_str(), key) {
            assert(perms.0@[i as int]@ == key@);
            return Ok(());
        }
        i = i + 1;
    }
    Err(AppError::Unauthorized)
}

/// System settings are for the `super_admin` role only.
pub fn require_super_admin(claims: &AdminClaims) -> (r: Result<(), AppError>)
    ensures
        r is Ok <==> claims.role@ == "super_admin"@,
        r is Err ==> r matches Err(AppError::Unauthorized),
{
    if same_text(claims.role.as_str(), "super_admin") {
        Ok(())
    } else {
        Err(AppError::Unauthorized)
    }
}

impl AdminClaims {
    /// The claims of an administrator of `role` signing in at `now`: valid
    /// for eight hours; `None` where chrono would panic.
    pub fn issue_at(admin_id: u128, role: String, now: i64) -> (r: Option<AdminClaims>)
        ensures
            match shifted(now as int, ADMIN_SESSION_SECONDS as int) {
                Some(t) => r matches Some(c) && c.sub == admin_id && c.role == role && c.iat
                    == (now as int) / 1_000_000 && c.exp == t / 1_000_000,
                None => r is None,
            },
    {
        match shift(now, ADMIN_SESSION_SECONDS) {
            None => None,
            Some(t) => Some(
                AdminClaims { sub: admin_id, role, iat: seconds_of(now), exp: seconds_of(t) },
            ),
        }
    }

    /// The claims of an administrator signing in now.
    pub fn issue(admin_id: u128, role: String) -> (r: Option<AdminClaims>)
        ensures
            exists|now: int|
                in_datetime_range(now) && match shifted(now, ADMIN_SESSION_SECONDS as int) {
                    Some(t) => r matches Some(c) && c.sub == admin_id && c.role == role && c.iat
                        == now / 1_000_000 && c.exp == t / 1_000_000,
                    None => r is None,
                },
            r matches Some(c) ==> c.exp == c.iat + ADMIN_SESSION_SECONDS,
    {
        let now = now_micros();
        let r = AdminClaims::issue_at(admin_id, role, now);
        proof {
            if r is Some {
                assert((now + ADMIN_SESSION_SECONDS * 1_000_000) / 1_000_000 == now / 1_000_000
                    + ADMIN_SESSION_SECONDS) by (nonlinear_arith);
            }
        }
        r
    }
}

/// The greeting of the administrators' test endpoint.
pub fn admin_stats_message(claims: &AdminClaims) -> (r: String)
    ensures
        r@ == "Welcome, admin "@ + uuid_text(claims.sub) + " (Role: "@ + claims.role@ + ")"@,
{
    let mut s = String::from_str("Welcome, admin ");
    let id = uuid_string(claims.sub);
    append_text(&mut s, id.as_str());
    append_text(&mut s, " (Role: ");
    append_text(&mut s, claims.role.as_str());
    append_text(&mut s, ")");
    s
}

/// The permissions of a role as listed; a role without any has none.
pub fn role_permissions(permissions: Option<Vec<String>>) -> (r: Vec<String>)
    ensures
        match permissions {
            Some(p) => r == p,
            None => r@.len() == 0,
        },
{
    match permissions {
        Some(p) => p,
        None => Vec::new(),
    }
}

} // verus!
