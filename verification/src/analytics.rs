//! Back-office analytics: dashboard figures and the dormancy report.

use crate::clock::{in_datetime_range, now_micros, shift, shifted};
use crate::error::AppError;
use crate::text::{uuid_string, uuid_text};
use vstd::prelude::*;
use vstd::string::*;
use vstd::utf8::{decode_utf8, valid_utf8};

verus! {

/// The figures of the administrators' dashboard (volumes in minor units).
pub struct DashboardStats {
    pub total_users: i64,
    pub new_users_today: i64,
    pub total_volume_ngn: i64,
    pub total_volume_usd: i64,
    pub dormant_users_7_days: i64,
    pub dormant_users_30_days: i64,
    pub dormant_users_90_days: i64,
}

impl Default for DashboardStats {
    fn default() -> (s: Self)
        ensures
            s.total_users == 0 && s.new_users_today == 0 && s.total_volume_ngn == 0
                && s.total_volume_usd == 0 && s.dormant_users_7_days == 0
                && s.dormant_users_30_days == 0 && s.dormant_users_90_days == 0,
    {
        DashboardStats {
            total_users: 0,
            new_users_today: 0,
            total_volume_ngn: 0,
            total_volume_usd: 0,
            dormant_users_7_days: 0,
            dormant_users_30_days: 0,
            dormant_users_90_days: 0,
        }
    }
}

/// The aggregates as the database returns them (`NULL` over no rows).
pub struct DashboardCounts {
    pub total_users: Option<i64>,
    pub new_users_today: Option<i64>,
    pub total_volume_ngn: Option<i64>,
    pub total_volume_usd: Option<i64>,
    pub dormant_users_7_days: Option<i64>,
    pub dormant_users_30_days: Option<i64>,
    pub dormant_users_90_days: Option<i64>,
}

/// An aggregate the database left `NULL` counts as zero.
pub open spec fn or_zero(v: Option<i64>) -> i64 {
    match v {
        Some(x) => x,
        None => 0,
    }
}

fn value_or_zero(v: Option<i64>) -> (r: i64)
    ensures
        r == or_zero(v),
{
    match v {
        Some(x) => x,
        None => 0,
    }
}

/// The dashboard from the aggregates, an absent one counting as zero.
pub fn dashboard_stats(c: DashboardCounts) -> (s: DashboardStats)
    ensures
        s.total_users == or_zero(c.total_users),
        s.new_users_today == or_zero(c.new_users_today),
        s.total_volume_ngn == or_zero(c.total_volume_ngn),
        s.total_volume_usd == or_zero(c.total_volume_usd),
        s.dormant_users_7_days == or_zero(c.dormant_users_7_days),
        s.dormant_users_30_days == or_zero(c.dormant_users_30_days),
        s.dormant_users_90_days == or_zero(c.dormant_users_90_days),
{
    let mut s = DashboardStats::default();
    s.total_users = value_or_zero(c.total_users);
    s.new_users_today = value_or_zero(c.new_users_today);
    s.total_volume_ngn = value_or_zero(c.total_volume_ngn);
    s.total_volume_usd = value_or_zero(c.total_volume_usd);
    s.dormant_users_7_days = value_or_zero(c.dormant_users_7_days);
    s.dormant_users_30_days = value_or_zero(c.dormant_users_30_days);
    s.dormant_users_90_days = value_or_zero(c.dormant_users_90_days);
    s
}

/// Microseconds in a day.
pub const DAY_MICROS: i64 = 86_400_000_000;

/// The instant the UTC day of `now` began (midnight), from which the users
/// who joined today are counted.
pub fn start_of_day_at(now: i64) -> (r: i64)
    requires
        in_datetime_range(now as int),
    ensures
        r == (now as int / DAY_MICROS as int) * DAY_MICROS,
        r <= now < r + DAY_MICROS,
{
    let q = now / DAY_MICROS;
    let m = now % DAY_MICROS;
    let d = if m < 0 {
        q - 1
    } else {
        q
    };
    assert(q * DAY_MICROS + m == now);
    d * DAY_MICROS
}

/// `GET /admin/reports/dormancy?days=..`
pub struct DormancyQuery {
    pub days: i64,
}

/// Days of inactivity the dormancy report uses when none are asked for.
pub fn default_days() -> (d: i64)
    ensures
        d == 30,
{
    30
}

/// The instant `days` days before `now`: users without a transaction since
/// then are dormant. `None` where chrono would panic.
pub fn dormancy_cutoff_at(now: i64, days: i64) -> (r: Option<i64>)
    ensures
        match r {
            Some(t) => shifted(now as int, -(days * 86400)) == Some(t as int),
            None => shifted(now as int, -(days * 86400)) is None,
        },
{
    match crate::clock::checked_scale(days, 86400) {
        None => None,
        Some(secs) => if secs == i64::MIN {
            None
        } else {
            shift(now, -secs)
        },
    }
}

/// The dormancy cutoff `days` days before now.
pub fn dormancy_cutoff(days: i64) -> (r: Option<i64>)
    ensures
        exists|now: int|
            in_datetime_range(now) && match r {
                Some(t) => shifted(now, -(days * 86400)) == Some(t as int),
                None => shifted(now, -(days * 86400)) is None,
            },
{
    let now = now_micros();
    dormancy_cutoff_at(now, days)
}

/// A dormant user in the report.
pub struct DormantUserRecord {
    pub user_id: u128,
    pub email: String,
    pub phone: String,
    pub last_transaction_at: Option<i64>,
}

/// A csv writer into memory. Verus cannot declare csv's `Writer<W:
/// io::Write>` (it does not know the bound), so the writer is held out of
/// Verus's sight and spoken of through `csv_records`.
#[verifier::external_body]
pub struct CsvBuffer {
    writer: csv::Writer<Vec<u8>>,
}

/// The records a CSV writer has written, in order, each as its fields, while
/// its output is exactly those records; `None` once a refused write has left
/// part of a record behind.
pub uninterp spec fn csv_records(w: CsvBuffer) -> Option<Seq<Seq<Seq<char>>>>;

/// The bytes (RFC 4180 quoting, `\n` line ends) that csv's writer makes of
/// `records`.
pub uninterp spec fn csv_bytes(records: Seq<Seq<Seq<char>>>) -> Seq<u8>;

/// The text of the instant `us` as chrono's `DateTime::to_rfc3339` writes it.
pub uninterp spec fn rfc3339_text(us: i64) -> Seq<char>;

/// The fields of a record, as text.
pub open spec fn field_texts(fields: Seq<String>) -> Seq<Seq<char>> {
    fields.map_values(|f: String| f@)
}

/// csv's `Writer::from_writer(vec![])`: a writer that has written nothing.
#[verifier::external_body]
fn csv_writer() -> (w: CsvBuffer)
    ensures
        csv_records(w) == Some(Seq::<Seq<Seq<char>>>::empty()),
{
    CsvBuffer { writer: csv::Writer::from_writer(vec![]) }
}

/// csv's `Writer::write_record` into memory. The writer is not flexible, so
/// a record is refused exactly when it has another number of fields than the
/// first record (writing to a `Vec` cannot fail); a record written is
/// appended. What a refused record leaves behind is left unsaid.
#[verifier::external_body]
fn csv_write_record(w: &mut CsvBuffer, fields: &Vec<String>) -> (ok: bool)
    ensures
        csv_records(*old(w)) matches Some(rs) ==> (ok <==> (rs.len() == 0 || rs[0].len()
            == fields@.len())),
        ok ==> (csv_records(*old(w)) matches Some(rs) ==> csv_records(*final(w)) == Some(
            rs.push(field_texts(fields@)),
        )),
{
    w.writer.write_record(fields).is_ok()
}

/// csv's `Writer::into_inner` into memory: flushing into a `Vec` cannot fail.
/// The bytes of records of text are valid UTF-8 (the writer adds only ASCII
/// quotes, commas and line ends around the fields' own bytes).
#[verifier::external_body]
fn csv_into_inner(w: CsvBuffer) -> (r: Option<Vec<u8>>)
    ensures
        r is Some,
        r matches Some(b) ==> (csv_records(w) matches Some(rs) ==> b@ == csv_bytes(rs)),
        r matches Some(b) ==> (csv_records(w) is Some ==> valid_utf8(b@)),
{
    w.writer.into_inner().ok()
}

/// std's `String::from_utf8`: the text the bytes encode, or `None` exactly
/// when they are not valid UTF-8.
#[verifier::external_body]
fn utf8_string(bytes: Vec<u8>) -> (r: Option<String>)
    ensures
        r is Some <==> valid_utf8(bytes@),
        r matches Some(s) ==> s@ == decode_utf8(bytes@),
{
    String::from_utf8(bytes).ok()
}

/// chrono's `DateTime::<Utc>::from_timestamp_micros(us)` and `to_rfc3339`;
/// the instant is in range, so the first always succeeds.
#[verifier::external_body]
fn rfc3339_of(us: i64) -> (r: String)
    requires
        in_datetime_range(us as int),
    ensures
        r@ == rfc3339_text(us),
{
    match chrono::DateTime::<chrono::Utc>::from_timestamp_micros(us) {
        Some(d) => d.to_rfc3339(),
        None => String::new(),
    }
}

/// The header of the dormancy report.
pub open spec fn dormancy_header() -> Seq<Seq<char>> {
    seq!["user_id"@, "email"@, "phone"@, "last_transaction_at"@]
}

/// The report line of a dormant user.
pub open spec fn dormancy_line(u: DormantUserRecord) -> Seq<Seq<char>> {
    seq![
        uuid_text(u.user_id),
        u.email@,
        u.phone@,
        match u.last_transaction_at {
            Some(t) => rfc3339_text(t),
            None => Seq::empty(),
        },
    ]
}

/// The report lines of `users`.
pub open spec fn dormancy_lines(users: Seq<DormantUserRecord>) -> Seq<Seq<Seq<char>>> {
    users.map_values(|u: DormantUserRecord| dormancy_line(u))
}

/// The dormancy report as CSV: a header, then one line per user.
pub fn dormancy_csv(users: &Vec<DormantUserRecord>) -> (r: Result<String, AppError>)
    requires
        forall|i: int|
            0 <= i < users@.len() ==> ((#[trigger] users@[i]).last_transaction_at matches Some(
                t,
            ) ==> in_datetime_range(t as int)),
    ensures
        r matches Ok(s) && s@ == decode_utf8(
            csv_bytes(seq![dormancy_header()] + dormancy_lines(users@)),
        ),
{
    let mut w = csv_writer();
    let mut header: Vec<String> = Vec::new();
    header.push(String::from_str("user_id"));
    header.push(String::from_str("email"));
    header.push(String::from_str("phone"));
    header.push(String::from_str("last_transaction_at"));
    assert(field_texts(header@) =~= dormancy_header());
    if !csv_write_record(&mut w, &header) {
        return Err(AppError::InternalServerError);
    }
    assert(dormancy_lines(users@.take(0)) =~= Seq::<Seq<Seq<char>>>::empty());
    assert(Seq::<Seq<Seq<char>>>::empty().push(dormancy_header()) =~= seq![dormancy_header()]
        + dormancy_lines(users@.take(0)));
    let mut i: usize = 0;
    while i < users.len()
        invariant
            i <= users@.len(),
            forall|k: int|
                0 <= k < users@.len() ==> ((#[trigger] users@[k]).last_transaction_at matches Some(
                    t,
                ) ==> in_datetime_range(t as int)),
            csv_records(w) == Some(seq![dormancy_header()] + dormancy_lines(users@.take(i as int))),
        decreases users.len() - i,
    {
        let u = &users[i];
        let mut line: Vec<String> = Vec::new();
        line.push(uuid_string(u.user_id));
        line.push(u.email.clone());
        line.push(u.phone.clone());
        let last = match u.last_transaction_at {
            Some(t) => rfc3339_of(t),
            None => String::new(),
        };
        line.push(last);
        assert(field_texts(line@) =~= dormancy_line(users@[i as int]));
        assert((seq![dormancy_header()] + dormancy_lines(users@.take(i as int)))[0]
            == dormancy_header());
        if !csv_write_record(&mut w, &line) {
            return Err(AppError::InternalServerError);
        }
        assert(users@.take(i + 1) =~= users@.take(i as int).push(users@[i as int]));
        assert(dormancy_lines(users@.take(i + 1)) =~= dormancy_lines(users@.take(i as int)).push(
            dormancy_line(users@[i as int]),
        ));
        i = i + 1;
    }
    assert(users@.take(i as int) =~= users@);
    match csv_into_inner(w) {
        Some(bytes) => match utf8_string(bytes) {
            Some(s) => Ok(s),
            None => Err(AppError::InternalServerError),
        },
        None => Err(AppError::InternalServerError),
    }
}

} // verus!
