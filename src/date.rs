use chrono::Datelike;
use vstd::prelude::*;

use crate::cli::Args;
use crate::text::{decimal, push_decimal, same_text};

verus! {

/// A day of the week.
#[derive(Clone, Copy, Debug, PartialEq, Eq, Structural)]
pub enum Weekday {
    Mon,
    Tue,
    Wed,
    Thu,
    Fri,
    Sat,
    Sun,
}

/// Errors of the date calculation.
#[derive(Debug)]
pub enum StandupError {
    /// A weekday token that names no day; it holds the token as given.
    InvalidWeekday(String),
}

/// A result seen through the characters it holds; an error is seen as its token.
pub open spec fn result_view(r: Result<String, StandupError>) -> Result<Seq<char>, Seq<char>> {
    match r {
        Ok(s) => Ok(s@),
        Err(StandupError::InvalidWeekday(t)) => Err(t@),
    }
}

/// What `str::to_uppercase` makes of a string.
pub uninterp spec fn upper_of(s: Seq<char>) -> Seq<char>;

/// Relies on str::to_uppercase: the upper-case form of the string, which
/// depends on its characters alone.
#[verifier::external_body]
fn uppercase(s: &str) -> (r: String)
    ensures
        r@ == upper_of(s@),
{
    s.to_uppercase()
}

/// The day that an upper-case token names, in its three-letter or full spelling.
pub open spec fn weekday_from_upper(u: Seq<char>) -> Option<Weekday> {
    if u == "MON"@ || u == "MONDAY"@ {
        Some(Weekday::Mon)
    } else if u == "TUE"@ || u == "TUESDAY"@ {
        Some(Weekday::Tue)
    } else if u == "WED"@ || u == "WEDNESDAY"@ {
        Some(Weekday::Wed)
    } else if u == "THU"@ || u == "THURSDAY"@ {
        Some(Weekday::Thu)
    } else if u == "FRI"@ || u == "FRIDAY"@ {
        Some(Weekday::Fri)
    } else if u == "SAT"@ || u == "SATURDAY"@ {
        Some(Weekday::Sat)
    } else if u == "SUN"@ || u == "SUNDAY"@ {
        Some(Weekday::Sun)
    } else {
        None
    }
}

/// The day that a token names, whatever its case.
pub open spec fn weekday_of(s: Seq<char>) -> Option<Weekday> {
    weekday_from_upper(upper_of(s))
}

/// The full English name of a day.
pub open spec fn weekday_name_spec(w: Weekday) -> Seq<char> {
    match w {
        Weekday::Mon => "Monday"@,
        Weekday::Tue => "Tuesday"@,
        Weekday::Wed => "Wednesday"@,
        Weekday::Thu => "Thursday"@,
        Weekday::Fri => "Friday"@,
        Weekday::Sat => "Saturday"@,
        Weekday::Sun => "Sunday"@,
    }
}

/// The day that an upper-case token names; this is what follows the
/// upper-casing in `parse_weekday`.
pub fn weekday_from_upper_text(u: &str) -> (r: Option<Weekday>)
    ensures
        r == weekday_from_upper(u@),
{
    if same_text(u, "MON") || same_text(u, "MONDAY") {
        Some(Weekday::Mon)
    } else if same_text(u, "TUE") || same_text(u, "TUESDAY") {
        Some(Weekday::Tue)
    } else if same_text(u, "WED") || same_text(u, "WEDNESDAY") {
        Some(Weekday::Wed)
    } else if same_text(u, "THU") || same_text(u, "THURSDAY") {
        Some(Weekday::Thu)
    } else if same_text(u, "FRI") || same_text(u, "FRIDAY") {
        Some(Weekday::Fri)
    } else if same_text(u, "SAT") || same_text(u, "SATURDAY") {
        Some(Weekday::Sat)
    } else if same_text(u, "SUN") || same_text(u, "SUNDAY") {
        Some(Weekday::Sun)
    } else {
        None
    }
}

/// Reads a weekday token, case-insensitively, in its three-letter or full spelling.
pub fn parse_weekday(s: &str) -> (r: Result<Weekday, StandupError>)
    ensures
        match r {
            Ok(w) => weekday_of(s@) == Some(w),
            Err(StandupError::InvalidWeekday(t)) => weekday_of(s@) is None && t@ == s@,
        },
{
    let u = uppercase(s);
    match weekday_from_upper_text(u.as_str()) {
        Some(w) => Ok(w),
        None => Err(StandupError::InvalidWeekday(String::from_str(s))),
    }
}

/// The full English name of a day.
pub fn weekday_name(w: Weekday) -> (r: &'static str)
    ensures
        r@ == weekday_name_spec(w),
{
    match w {
        Weekday::Mon => "Monday",
        Weekday::Tue => "Tuesday",
        Weekday::Wed => "Wednesday",
        Weekday::Thu => "Thursday",
        Weekday::Fri => "Friday",
        Weekday::Sat => "Saturday",
        Weekday::Sun => "Sunday",
    }
}

/// The index of the first '-' at or after `k`, or the length where there is none.
pub open spec fn dash_from(s: Seq<char>, k: int) -> int
    decreases s.len() - k,
{
    if k >= s.len() {
        s.len() as int
    } else if s[k] == '-' {
        k
    } else {
        dash_from(s, k + 1)
    }
}

/// The first '-'-separated part of a weekday range.
pub open spec fn start_token(s: Seq<char>) -> Seq<char> {
    s.subrange(0, dash_from(s, 0))
}

/// The second '-'-separated part of a weekday range, "FRI" where there is none.
pub open spec fn end_token(s: Seq<char>) -> Seq<char> {
    let i = dash_from(s, 0);
    if i >= s.len() {
        "FRI"@
    } else {
        s.subrange(i + 1, dash_from(s, i + 1))
    }
}

/// "N days ago".
pub open spec fn days_ago(n: u32) -> Seq<char> {
    decimal(n as nat) + " days ago"@
}

/// The boundary for a weekday range on a given day: "last <end day>" on the
/// range's first day, "yesterday" on any other; the offending token where one
/// names no day.
pub open spec fn weekday_boundary(weekdays: Seq<char>, today: Weekday) -> Result<Seq<char>, Seq<char>> {
    match weekday_of(start_token(weekdays)) {
        None => Err(start_token(weekdays)),
        Some(first) => match weekday_of(end_token(weekdays)) {
            None => Err(end_token(weekdays)),
            Some(last) => if today == first {
                Ok("last "@ + weekday_name_spec(last))
            } else {
                Ok("yesterday"@)
            },
        },
    }
}

/// The lower boundary of the log query: a day count wins, then an after-date
/// (which gives the epoch, the date itself filtering later), then the weekday range.
pub open spec fn since_spec(args: Args, today: Weekday) -> Result<Seq<char>, Seq<char>> {
    if args.days is Some {
        Ok(days_ago(args.days->0))
    } else if args.after is Some {
        Ok("1970-01-01"@)
    } else {
        weekday_boundary(args.weekdays@, today)
    }
}

fn find_dash(s: &str, from: usize) -> (r: usize)
    requires
        from <= s@.len(),
    ensures
        r as int == dash_from(s@, from as int),
        from <= r <= s@.len(),
{
    let n = s.unicode_len();
    let mut i = from;
    while i < n
        invariant
            n == s@.len(),
            from <= i <= n,
            dash_from(s@, i as int) == dash_from(s@, from as int),
        decreases n - i,
    {
        if s.get_char(i) == '-' {
            return i;
        }
        i += 1;
    }
    i
}

/// The lower boundary of the log query on a given day of the week.
pub fn since_on(args: &Args, today: Weekday) -> (r: Result<String, StandupError>)
    ensures
        result_view(r) == since_spec(*args, today),
{
    if let Some(days) = args.days {
        let mut s = String::new();
        push_decimal(&mut s, days);
        s.append(" days ago");
        return Ok(s);
    }
    if args.after.is_some() {
        return Ok(String::from_str("1970-01-01"));
    }
    let w = args.weekdays.as_str();
    let n = w.unicode_len();
    let i = find_dash(w, 0);
    let week_start = match parse_weekday(w.substring_char(0, i)) {
        Ok(d) => d,
        Err(e) => return Err(e),
    };
    let week_end = if i >= n {
        match parse_weekday("FRI") {
            Ok(d) => d,
            Err(e) => return Err(e),
        }
    } else {
        let j = find_dash(w, i + 1);
        match parse_weekday(w.substring_char(i + 1, j)) {
            Ok(d) => d,
            Err(e) => return Err(e),
        }
    };
    if today == week_start {
        let mut s = String::from_str("last ");
        s.append(weekday_name(week_end));
        Ok(s)
    } else {
        Ok(String::from_str("yesterday"))
    }
}

/// Where neither a day count nor an after-date is given, a weekday range whose
/// two parts each name a day (in any case, three-letter or full) always yields
/// a boundary, whatever the day; where a part names no day, the result is
/// InvalidWeekday carrying the first such part.
pub proof fn lemma_weekday_range(args: Args, today: Weekday)
    requires
        args.days is None,
        args.after is None,
    ensures
        since_spec(args, today) is Ok <==> (weekday_of(start_token(args.weekdays@)) is Some
            && weekday_of(end_token(args.weekdays@)) is Some),
        since_spec(args, today) is Err ==> {
            let t = since_spec(args, today)->Err_0;
            weekday_of(t) is None && (t == start_token(args.weekdays@) || t == end_token(args.weekdays@))
        },
{
}

/// A day count fixes the boundary to "N days ago", whatever the other date
/// settings and the day.
pub proof fn lemma_days_win(args: Args, today: Weekday)
    requires
        args.days is Some,
    ensures
        since_spec(args, today) == Ok::<Seq<char>, Seq<char>>(decimal(args.days->0 as nat) + " days ago"@),
{
}

/// Without a day count, an after-date fixes the boundary to the epoch date.
pub proof fn lemma_after_gives_epoch(args: Args, today: Weekday)
    requires
        args.days is None,
        args.after is Some,
    ensures
        since_spec(args, today) == Ok::<Seq<char>, Seq<char>>("1970-01-01"@),
{
}

/// Relies on chrono::Local::now and Datelike::weekday: the day of the week of
/// the local date at the moment of the call.
#[verifier::external_body]
fn today_weekday() -> (r: Weekday) {
    match chrono::Local::now().weekday() {
        chrono::Weekday::Mon => Weekday::Mon,
        chrono::Weekday::Tue => Weekday::Tue,
        chrono::Weekday::Wed => Weekday::Wed,
        chrono::Weekday::Thu => Weekday::Thu,
        chrono::Weekday::Fri => Weekday::Fri,
        chrono::Weekday::Sat => Weekday::Sat,
        chrono::Weekday::Sun => Weekday::Sun,
    }
}

/// The lower boundary of the log query for today's day of the week.
pub fn calculate_since(args: &Args) -> (r: Result<String, StandupError>)
    ensures
        exists|today: Weekday| result_view(r) == #[trigger] since_spec(*args, today),
{
    let today = today_weekday();
    since_on(args, today)
}

} // verus!
