//! Request counters and their plain-text exposition.
//!
//! The counters are plain integers behind `&mut`: whoever shares one
//! [`AppMetrics`] between request handlers serialises access to it, and then
//! no update is lost. Each counter is 64 bits wide and wraps at its maximum.

use vstd::prelude::*;

use crate::envelope::{JsonResponse, Rendering};
use crate::text::{decimal, push_decimal};
use vstd::string::StringExecFns;

verus! {

/// The counters of one process.
#[derive(Clone, Copy, Debug, PartialEq, Eq)]
pub struct AppMetrics {
    /// Requests handled, of either kind.
    pub requests_total: u64,
    /// Requests to pretty-print.
    pub format_requests: u64,
    /// Requests to minify.
    pub minify_requests: u64,
    /// Requests answered without success.
    pub errors_total: u64,
}

/// The counter value that follows `n`: one more, or zero after the maximum.
pub open spec fn bumped(n: u64) -> u64 {
    if n == u64::MAX {
        0
    } else {
        (n + 1) as u64
    }
}

/// How many of `events` asked for `kind`.
pub open spec fn count_kind(events: Seq<(Rendering, bool)>, kind: Rendering) -> nat
    decreases events.len(),
{
    if events.len() == 0 {
        0
    } else {
        count_kind(events.drop_last(), kind) + if events.last().0 == kind {
            1nat
        } else {
            0nat
        }
    }
}

/// How many of `events` ended without success.
pub open spec fn count_failures(events: Seq<(Rendering, bool)>) -> nat
    decreases events.len(),
{
    if events.len() == 0 {
        0
    } else {
        count_failures(events.drop_last()) + if events.last().1 {
            0nat
        } else {
            1nat
        }
    }
}

impl AppMetrics {
    /// The counters after one more request of `kind` that ended with
    /// `success`.
    pub open spec fn after(self, kind: Rendering, success: bool) -> AppMetrics {
        AppMetrics {
            requests_total: bumped(self.requests_total),
            format_requests: if kind == Rendering::Pretty {
                bumped(self.format_requests)
            } else {
                self.format_requests
            },
            minify_requests: if kind == Rendering::Compact {
                bumped(self.minify_requests)
            } else {
                self.minify_requests
            },
            errors_total: if success {
                self.errors_total
            } else {
                bumped(self.errors_total)
            },
        }
    }

    /// The counters after the requests `events`, each a kind and whether it
    /// succeeded, in the order they were handled.
    pub open spec fn after_all(self, events: Seq<(Rendering, bool)>) -> AppMetrics
        decreases events.len(),
    {
        if events.len() == 0 {
            self
        } else {
            self.after_all(events.drop_last()).after(events.last().0, events.last().1)
        }
    }

    /// Counters that have seen no request.
    pub fn new() -> (metrics: AppMetrics)
        ensures
            metrics == (AppMetrics {
                requests_total: 0,
                format_requests: 0,
                minify_requests: 0,
                errors_total: 0,
            }),
    {
        AppMetrics { requests_total: 0, format_requests: 0, minify_requests: 0, errors_total: 0 }
    }

    /// Counts one handled request of `kind` and, when `response` reports no
    /// success, one error.
    pub fn record(&mut self, kind: Rendering, response: &JsonResponse)
        ensures
            *final(self) == old(self).after(kind, response.success),
    {
        self.requests_total = self.requests_total.wrapping_add(1);
        match kind {
            Rendering::Pretty => {
                self.format_requests = self.format_requests.wrapping_add(1);
            },
            Rendering::Compact => {
                self.minify_requests = self.minify_requests.wrapping_add(1);
            },
        }
        if !response.success {
            self.errors_total = self.errors_total.wrapping_add(1);
        }
    }
}

/// The three lines that expose one counter: its help text, its type, and its
/// name with its value.
pub open spec fn counter_lines(name: Seq<char>, help: Seq<char>, value: nat) -> Seq<char> {
    "# HELP "@ + name + " "@ + help + "\n"@ + "# TYPE "@ + name + " counter\n"@ + name + " "@
        + decimal(value) + "\n"@
}

/// The exposition of all four counters, in a fixed order.
pub open spec fn exposition(metrics: AppMetrics) -> Seq<char> {
    counter_lines(
        "requests_total"@,
        "Total number of requests"@,
        metrics.requests_total as nat,
    ) + counter_lines(
        "format_requests_total"@,
        "Total number of format requests"@,
        metrics.format_requests as nat,
    ) + counter_lines(
        "minify_requests_total"@,
        "Total number of minify requests"@,
        metrics.minify_requests as nat,
    ) + counter_lines("errors_total"@, "Total number of errors"@, metrics.errors_total as nat)
}

/// Appends the three lines of one counter to `out`.
fn push_counter(out: &mut String, name: &str, help: &str, value: u64)
    ensures
        final(out)@ == old(out)@ + counter_lines(name@, help@, value as nat),
{
    out.append("# HELP ");
    out.append(name);
    out.append(" ");
    out.append(help);
    out.append("\n");
    out.append("# TYPE ");
    out.append(name);
    out.append(" counter\n");
    out.append(name);
    out.append(" ");
    push_decimal(out, value);
    out.append("\n");
    assert(out@ =~= old(out)@ + counter_lines(name@, help@, value as nat));
}

/// Renders the counters in the plain-text exposition format.
pub fn metrics(data: &AppMetrics) -> (text: String)
    ensures
        text@ == exposition(*data),
{
    let mut text = String::new();
    push_counter(&mut text, "requests_total", "Total number of requests", data.requests_total);
    push_counter(
        &mut text,
        "format_requests_total",
        "Total number of format requests",
        data.format_requests,
    );
    push_counter(
        &mut text,
        "minify_requests_total",
        "Total number of minify requests",
        data.minify_requests,
    );
    push_counter(&mut text, "errors_total", "Total number of errors", data.errors_total);
    assert(text@ =~= exposition(*data));
    text
}

/// As long as a counter does not pass its maximum, it has counted exactly
/// the requests it is for, and so has not decreased.
pub proof fn law_counters_never_decrease(before: AppMetrics, events: Seq<(Rendering, bool)>)
    ensures
        before.requests_total + events.len() <= u64::MAX ==> {
            &&& before.after_all(events).requests_total == before.requests_total + events.len()
            &&& before.after_all(events).requests_total >= before.requests_total
        },
        before.format_requests + count_kind(events, Rendering::Pretty) <= u64::MAX ==> {
            &&& before.after_all(events).format_requests == before.format_requests + count_kind(
                events,
                Rendering::Pretty,
            )
            &&& before.after_all(events).format_requests >= before.format_requests
        },
        before.minify_requests + count_kind(events, Rendering::Compact) <= u64::MAX ==> {
            &&& before.after_all(events).minify_requests == before.minify_requests + count_kind(
                events,
                Rendering::Compact,
            )
            &&& before.after_all(events).minify_requests >= before.minify_requests
        },
        before.errors_total + count_failures(events) <= u64::MAX ==> {
            &&& before.after_all(events).errors_total == before.errors_total + count_failures(
                events,
            )
            &&& before.after_all(events).errors_total >= before.errors_total
        },
    decreases events.len(),
{
    if events.len() > 0 {
        law_counters_never_decrease(before, events.drop_last());
    }
}

} // verus!
