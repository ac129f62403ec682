//! What the dashboard shows: the clock text and the address of the
//! account-balance chart.
use vstd::prelude::*;
use chrono::DateTime;

verus! {

/// The UTC time of `secs` seconds since the epoch as chrono formats it with
/// `%d. %m %Y %H:%M:%S`, or nothing when chrono cannot represent that instant.
pub uninterp spec fn utc_clock_text(secs: int) -> Option<Seq<char>>;

/// Formats an instant as the dashboard's clock (`DateTime::from_timestamp_secs`,
/// then `format("%d. %m %Y %H:%M:%S")`): the text chrono gives, or `None` when
/// chrono finds the instant out of range.
#[verifier::external_body]
fn clock_text(secs: i64) -> (res: Option<String>)
    ensures
        res is Some <==> utc_clock_text(secs as int) is Some,
        res matches Some(t) ==> utc_clock_text(secs as int) == Some(t@),
{
    match DateTime::from_timestamp_secs(secs) {
        Some(t) => Some(t.format("%d. %m %Y %H:%M:%S").to_string()),
        None => None,
    }
}

/// The address of the account-balance chart, with the clock text as a query
/// parameter so that every tick fetches it anew.
pub open spec fn plot_image_url_text(timestamp: Seq<char>) -> Seq<char> {
    "http://localhost:8000/plot/account_balance_history?timestamp="@ + timestamp
}

/// The address of the account-balance chart for a given clock text.
pub fn plot_image_url(timestamp: &str) -> (res: String)
    ensures
        res@ == plot_image_url_text(timestamp@),
        res@ == "http://localhost:8000/plot/account_balance_history?timestamp="@ + timestamp@,
{
    let mut url = "http://localhost:8000/plot/account_balance_history?timestamp=".to_owned();
    url.append(timestamp);
    url
}

/// What the dashboard shows for an instant: the clock text, and the chart
/// address that carries it.
#[derive(Debug, PartialEq)]
pub struct DashboardView {
    pub clock: String,
    pub chart_url: String,
}

/// The dashboard for the instant `secs` seconds after the epoch; `None` when
/// the instant cannot be shown as a date.
pub fn dashboard_view(secs: i64) -> (res: Option<DashboardView>)
    ensures
        res is Some <==> utc_clock_text(secs as int) is Some,
        res matches Some(v) ==> {
            &&& utc_clock_text(secs as int) == Some(v.clock@)
            &&& v.chart_url@ == plot_image_url_text(v.clock@)
            &&& v.chart_url@ == "http://localhost:8000/plot/account_balance_history?timestamp="@
                + v.clock@
        },
{
    match clock_text(secs) {
        Some(clock) => {
            let chart_url = plot_image_url(clock.as_str());
            Some(DashboardView { clock, chart_url })
        },
        None => None,
    }
}

/// The chart address is the chart's fixed location followed by the whole
/// clock text: the text can be read back from the address's end, and two
/// different clock texts give two different addresses.
pub proof fn lemma_chart_url_carries_clock(a: Seq<char>, b: Seq<char>)
    ensures
        plot_image_url_text(a) == "http://localhost:8000/plot/account_balance_history?timestamp="@
            + a,
        plot_image_url_text(a).len() == "http://localhost:8000/plot/account_balance_history?timestamp="@.len()
            + a.len(),
        plot_image_url_text(a).skip(
            "http://localhost:8000/plot/account_balance_history?timestamp="@.len() as int,
        ) == a,
        plot_image_url_text(a) == plot_image_url_text(b) ==> a == b,
{
    let p = "http://localhost:8000/plot/account_balance_history?timestamp="@;
    assert((p + a).skip(p.len() as int) =~= a);
    assert((p + b).skip(p.len() as int) =~= b);
}

} // verus!
