//! The label that marks pull requests merged during Hacktoberfest.

use crate::github::client::{add_labels_to_issue, issue_labels_url, Payload, PostRequest};
use crate::github::data::GitHubPullRequestEvent;
use crate::text::{str_eq, string_views};
use chrono::{DateTime, Datelike};
use vstd::prelude::*;
use vstd::string::*;

verus! {

/// A day of the calendar.
#[derive(Clone, Copy, Debug, PartialEq, Eq, Structural)]
pub struct CalendarDate {
    pub year: i32,
    pub month: u32,
    pub day: u32,
}

/// The day, in UTC, on which the moment `seconds` after the start of 1970
/// falls: year, month and day. There is none for a moment that the
/// calendar of `chrono` does not reach.
pub uninterp spec fn utc_date(seconds: int) -> Option<(int, int, int)>;

/// `chrono::DateTime::from_timestamp` and `date_naive`, with `year`,
/// `month` and `day` of `Datelike`: the day in UTC of a moment, where the
/// calendar reaches it.
#[verifier::external_body]
fn date_of(seconds: i64) -> (date: Option<CalendarDate>)
    ensures
        match date {
            Some(d) => utc_date(seconds as int) == Some(
                (d.year as int, d.month as int, d.day as int),
            ),
            None => utc_date(seconds as int) is None,
        },
{
    match DateTime::from_timestamp(seconds, 0) {
        Some(moment) => {
            let day = moment.date_naive();
            Some(CalendarDate { year: day.year(), month: day.month(), day: day.day() })
        },
        None => None,
    }
}

/// Whether a day lies in the weeks around October in which merged pull
/// requests count: from 25 September to 5 November of its year.
pub open spec fn in_season(date: CalendarDate) -> bool {
    ||| date.month == 9 && date.day >= 25
    ||| date.month == 10
    ||| date.month == 11 && date.day <= 5
}

/// The accounts whose pull requests do not count.
pub open spec fn is_bot(login: Seq<char>) -> bool {
    login == "williambotman"@ || login == "renovate[bot]"@
}

/// Whether the pull request of `event` earns the label on `today`.
pub open spec fn earns_label(event: GitHubPullRequestEvent, today: Option<CalendarDate>) -> bool {
    &&& event.pull_request.merged
    &&& !is_bot(event.pull_request.user.login@)
    &&& today matches Some(date) && in_season(date)
}

/// Whether `request` labels the pull request of `event`.
pub open spec fn labels_pull_request(event: GitHubPullRequestEvent, request: PostRequest) -> bool {
    &&& request.url@ == issue_labels_url(event.repository, event.pull_request.number)
    &&& request.payload matches Payload::Labels { labels } && string_views(labels@)
        == seq!["hacktoberfest-accepted"@]
}

pub fn is_in_season(date: CalendarDate) -> (b: bool)
    ensures
        b == in_season(date),
{
    (date.month == 9 && date.day >= 25) || date.month == 10 || (date.month == 11 && date.day <= 5)
}

/// The request that labels a merged pull request during the season, if it
/// earns the label on `today`.
pub fn label_on(event: &GitHubPullRequestEvent, today: Option<CalendarDate>) -> (request: Option<
    PostRequest,
>)
    ensures
        match request {
            Some(request) => earns_label(*event, today) && labels_pull_request(*event, request),
            None => !earns_label(*event, today),
        },
{
    if !event.pull_request.merged {
        return None;
    }
    let login = event.pull_request.user.login.as_str();
    if str_eq(login, "williambotman") || str_eq(login, "renovate[bot]") {
        return None;
    }
    match today {
        Some(date) => {
            if is_in_season(date) {
                let labels = vec!["hacktoberfest-accepted"];
                let request = add_labels_to_issue(
                    &event.repository,
                    labels,
                    event.pull_request.number,
                );
                proof {
                    let sent = request.payload->labels;
                    assert(string_views(sent@) =~= seq!["hacktoberfest-accepted"@]);
                }
                Some(request)
            } else {
                None
            }
        },
        None => None,
    }
}

/// The day on which the moment `now` falls, as the label is decided by it.
pub open spec fn day_of(now: i64) -> Option<CalendarDate> {
    match utc_date(now as int) {
        Some((year, month, day)) => Some(
            CalendarDate { year: year as i32, month: month as u32, day: day as u32 },
        ),
        None => None,
    }
}

/// The request that labels a merged pull request during the season. `now`
/// is the moment of the decision, in seconds since the start of 1970.
pub fn hacktoberfest_label(event: &GitHubPullRequestEvent, now: i64) -> (request: Option<
    PostRequest,
>)
    ensures
        match request {
            Some(request) => earns_label(*event, day_of(now)) && labels_pull_request(
                *event,
                request,
            ),
            None => !earns_label(*event, day_of(now)),
        },
{
    label_on(event, date_of(now))
}

} // verus!
