//! Decisions of the local report server: which UI it serves, who may use
//! it, where the root sends a visitor, and when the live view pushes an
//! update or ends.
use crate::model::Timestamp;
use crate::text::text_eq;
use vstd::prelude::*;

verus! {

/// The two pages the server can be started for.
#[derive(Clone, Copy, Debug, PartialEq, Eq, Structural)]
pub enum UiMode {
    Report,
    Live,
}

impl UiMode {
    /// The caption printed with the page's address.
    pub fn label(self) -> (r: &'static str)
        ensures
            r@ == (match self {
                UiMode::Report => "Report"@,
                UiMode::Live => "Live mode"@,
            }),
    {
        match self {
            UiMode::Report => "Report",
            UiMode::Live => "Live mode",
        }
    }

    /// The first path segment of the page's address.
    pub fn route_prefix(self) -> (r: &'static str)
        ensures
            r@ == (match self {
                UiMode::Report => "reports"@,
                UiMode::Live => "live"@,
            }),
    {
        match self {
            UiMode::Report => "reports",
            UiMode::Live => "live",
        }
    }
}

/// Whether a request's token opens the server: it must be present and equal
/// to the server's one-time token.
pub fn authorize(expected: &str, token: Option<&str>) -> (r: bool)
    ensures
        r == (token matches Some(t) && t@ == expected@),
{
    match token {
        Some(t) => text_eq(t, expected),
        None => false,
    }
}

/// Where the root page sends a visitor when a session exists: the report of
/// the most recent session, carrying the token along.
pub fn report_redirect_target(session_id: &str, token: &str) -> (r: String)
    ensures
        r@ == "/reports/"@ + session_id@ + "?token="@ + token@,
{
    let mut target = "/reports/".to_owned();
    target.append(session_id);
    target.append("?token=");
    target.append(token);
    target
}

/// What identifies one state of a session for the live view: the flush
/// number of its collector, its last update and its status.
#[derive(Clone, Debug)]
pub struct LiveRevision {
    pub flush_seq: Option<u64>,
    pub last_updated_at: Timestamp,
    pub status: String,
}

/// Two revisions name the same state.
pub open spec fn same_revision(a: LiveRevision, b: LiveRevision) -> bool {
    a.flush_seq == b.flush_seq && a.last_updated_at == b.last_updated_at && a.status@ == b.status@
}

/// What the live view does after reading the session again.
#[derive(Clone, Copy, Debug, PartialEq, Eq, Structural)]
pub struct LiveStep {
    /// Push the fresh report to the browser.
    pub send: bool,
    /// Close the view after this step.
    pub finish: bool,
}

/// One step of the live view: the report is pushed when its revision differs
/// from the last one pushed (or none was pushed yet), and the view ends once
/// the session is no longer running.
pub fn live_step(last_sent: &Option<LiveRevision>, current: &LiveRevision) -> (r: LiveStep)
    ensures
        r.send == (match *last_sent {
            Some(l) => !same_revision(l, *current),
            None => true,
        }),
        r.finish == (current.status@ != "running"@),
{
    let send = match last_sent {
        Some(l) => !(l.flush_seq == current.flush_seq && l.last_updated_at.secs
            == current.last_updated_at.secs && l.last_updated_at.nanos == current.last_updated_at.nanos
            && text_eq(l.status.as_str(), current.status.as_str())),
        None => true,
    };
    LiveStep { send, finish: !text_eq(current.status.as_str(), "running") }
}

} // verus!
