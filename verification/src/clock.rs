//! The build date: pinned on the command line, else by the environment,
//! else today's date.
use vstd::prelude::*;
use crate::models::Date;
use crate::text::{trim, trimmed};

verus! {

/// What `chrono::NaiveDate::parse_from_str(text, "%Y-%m-%d")` gives, as
/// year, month and day.
pub uninterp spec fn ymd_parsed(text: Seq<char>) -> Option<(i32, u32, u32)>;

/// Parses a `YYYY-MM-DD` date.
///
/// Calls `chrono::NaiveDate::parse_from_str` with the format `%Y-%m-%d` and
/// reads the year, month and day of the date it gives.  Its result is a
/// function of the text; chrono only builds valid calendar dates, so a month
/// lies in 1..=12 and a day in 1..=31.
#[verifier::external_body]
fn parse_ymd(text: &str) -> (r: Option<(i32, u32, u32)>)
    ensures
        r == ymd_parsed(text@),
        r matches Some(d) ==> 1 <= d.1 <= 12 && 1 <= d.2 <= 31,
{
    match chrono::NaiveDate::parse_from_str(text, "%Y-%m-%d") {
        Ok(d) => Some((chrono::Datelike::year(&d), chrono::Datelike::month(&d), chrono::Datelike::day(&d))),
        Err(_) => None,
    }
}

/// The date that a `YYYY-MM-DD` text names, white space around it ignored.
pub open spec fn date_of_text(text: Seq<char>) -> Option<Date> {
    match ymd_parsed(trimmed(text)) {
        Some(d) => Some(Date { year: d.0, month: d.1, day: d.2 }),
        None => None,
    }
}

/// The date a `YYYY-MM-DD` text names (the build-date variable's format).
pub fn parse_build_date(text: &str) -> (r: Option<Date>)
    ensures
        r == date_of_text(text@),
{
    let t = trim(text);
    match parse_ymd(t.as_str()) {
        Some((year, month, day)) => Some(Date { year, month, day }),
        None => None,
    }
}

/// The text of an optional string.
pub open spec fn env_view(env_value: Option<&str>) -> Option<Seq<char>> {
    match env_value {
        Some(t) => Some(t@),
        None => None,
    }
}

/// The build date from the command line's date, the environment's text and
/// today: the first, else the date the text names (when it parses), else
/// today.
pub open spec fn resolved_date(explicit: Option<Date>, env: Option<Seq<char>>, today: Date) -> Date {
    match explicit {
        Some(d) => d,
        None => match env {
            Some(t) => match date_of_text(t) {
                Some(d) => d,
                None => today,
            },
            None => today,
        },
    }
}

/// The build date: the one given on the command line, else the one the
/// environment names (when it parses), else today.
pub fn resolve_build_date(explicit: Option<Date>, env_value: Option<&str>, today: Date) -> (r: Date)
    ensures
        r == match explicit {
            Some(d) => d,
            None => match env_value {
                Some(t) => match date_of_text(t@) {
                    Some(d) => d,
                    None => today,
                },
                None => today,
            },
        },
        r == resolved_date(explicit, env_view(env_value), today),
{
    match explicit {
        Some(d) => d,
        None => match env_value {
            Some(t) => match parse_build_date(t) {
                Some(d) => d,
                None => today,
            },
            None => today,
        },
    }
}

/// The date pinned once: `d` if one is pinned, else the candidate.
pub open spec fn kept_or(pinned: Option<Date>, candidate: Date) -> Date {
    match pinned {
        Some(d) => d,
        None => candidate,
    }
}

/// The build date of a run, pinned by the first resolution.
pub struct BuildDateCell {
    /// The pinned date, once there is one.
    pub pinned: Option<Date>,
}

impl BuildDateCell {
    /// A cell with no date pinned.
    pub fn new() -> (c: Self)
        ensures
            c.pinned is None,
    {
        BuildDateCell { pinned: None }
    }

    /// Pins the date resolved from the command line's date, the
    /// environment's text and today, unless a date is pinned already.
    pub fn pin(&mut self, explicit: Option<Date>, env_value: Option<&str>, today: Date)
        ensures
            final(self).pinned == Some(kept_or(old(self).pinned, resolved_date(explicit, env_view(env_value), today))),
    {
        match self.pinned {
            Some(_) => {},
            None => {
                self.pinned = Some(resolve_build_date(explicit, env_value, today));
            },
        }
    }

    /// The pinned date; when none is pinned yet, the one the environment's
    /// text or today gives is pinned first.
    pub fn date(&mut self, env_value: Option<&str>, today: Date) -> (r: Date)
        ensures
            r == kept_or(old(self).pinned, resolved_date(None, env_view(env_value), today)),
            final(self).pinned == Some(r),
    {
        match self.pinned {
            Some(d) => d,
            None => {
                let d = resolve_build_date(None, env_value, today);
                self.pinned = Some(d);
                d
            },
        }
    }
}

/// Once a date is pinned, a later pin keeps it and a later read returns it,
/// whatever the command line, the environment and the day then say; the
/// first pin or read fixes the date that every later read returns.
pub proof fn lemma_pinned_date_stays(
    pinned: Option<Date>,
    explicit: Option<Date>,
    env: Option<Seq<char>>,
    today: Date,
    later_explicit: Option<Date>,
    later_env: Option<Seq<char>>,
    later_today: Date,
)
    ensures
        ({
            let first = kept_or(pinned, resolved_date(explicit, env, today));
            &&& kept_or(Some(first), resolved_date(later_explicit, later_env, later_today)) == first
            &&& kept_or(Some(first), resolved_date(None, later_env, later_today)) == first
        }),
        pinned is None ==> kept_or(pinned, resolved_date(explicit, env, today)) == resolved_date(explicit, env, today),
{
}

} // verus!
