//! The report renderer: a pure function from a request's timing record (and
//! its redirect history) to a deterministic, ordered breakdown.
//!
//! The report is computed in two layers. `report_items` produces the
//! structured sequence of entries — one block per redirect hop, oldest
//! first, then the final attempt's connection-phase entries, the redirect
//! lag, the first-byte times and the total — and `render_report` turns that
//! sequence into text, one line per entry. A phase with a missing boundary
//! contributes no entry at all: partial data degrades to a shorter report,
//! never to an error or a placeholder.

use vstd::prelude::*;

use crate::stats::ConnectionStats;
use crate::stats::HttpConnectionStats;
use crate::stats::RedirectStats;
use crate::stats::RequestStats;
use crate::stats::spec_phase_duration;
use crate::stats::spec_redirect_lag;

verus! {

/// One entry of a rendered timing report. Durations are relative
/// (nanoseconds between two recorded instants); `NextRedirect` carries the
/// absolute instant a hop ended in a redirect.
#[derive(Clone, Copy, Debug, PartialEq, Eq, Structural)]
pub enum ReportItem {
    /// Duration of the DNS resolution phase.
    Dns(u64),
    /// Duration of the TCP connect phase.
    Connect(u64),
    /// Duration of the TLS handshake phase.
    Tls(u64),
    /// The instant a redirect hop ended and the next hop began.
    NextRedirect(u64),
    /// How long after the poll start the most recent redirect hop ended.
    RedirectLag(u64),
    /// Time from the poll start to the first received header byte.
    HeaderTtfb(u64),
    /// Time from the poll start to the first received body byte.
    BodyTtfb(u64),
    /// Total request duration, poll start to finish.
    Total(u64),
}

/// The connection-phase entries of one snapshot: DNS, connect, TLS, in that
/// order, each present exactly when both of its boundary instants are.
pub open spec fn spec_phase_items(c: ConnectionStats) -> Seq<ReportItem> {
    (match spec_phase_duration(c.dns_resolve_start, c.dns_resolve_end) {
        Some(d) => seq![ReportItem::Dns(d)],
        None => Seq::<ReportItem>::empty(),
    }) + (match spec_phase_duration(c.connect_start, c.connect_end) {
        Some(d) => seq![ReportItem::Connect(d)],
        None => Seq::<ReportItem>::empty(),
    }) + (match spec_phase_duration(c.tls_connect_start, c.tls_connect_end) {
        Some(d) => seq![ReportItem::Tls(d)],
        None => Seq::<ReportItem>::empty(),
    })
}

/// The connection-phase entries of one attempt: empty when the attempt rode
/// a pooled connection and carries no snapshot.
pub open spec fn spec_http_items(h: HttpConnectionStats) -> Seq<ReportItem> {
    match h.connection_stats {
        Some(c) => spec_phase_items(c),
        None => Seq::<ReportItem>::empty(),
    }
}

/// One redirect hop's block: the hop's connection-phase entries, then the
/// instant the hop ended in a redirect.
pub open spec fn spec_hop_items(hop: RedirectStats) -> Seq<ReportItem> {
    spec_http_items(hop.connection_stats) + seq![ReportItem::NextRedirect(hop.finished)]
}

/// The blocks of a whole redirect chain, oldest hop first.
pub open spec fn spec_chain_items(hops: Seq<RedirectStats>) -> Seq<ReportItem>
    decreases hops.len(),
{
    if hops.len() == 0 {
        Seq::<ReportItem>::empty()
    } else {
        spec_chain_items(hops.drop_last()) + spec_hop_items(hops.last())
    }
}

/// The full report of one request, in its fixed order: the redirect chain's
/// blocks (oldest first), the final attempt's connection-phase entries, the
/// redirect lag (only when the chain is non-empty), the first-byte times
/// (only when recorded), and the total (only when the request finished).
pub open spec fn spec_report_items(r: RequestStats) -> Seq<ReportItem> {
    spec_chain_items(r.redirects@) + spec_http_items(r.http_stats) + (match spec_redirect_lag(
        r.redirects@,
        r.poll_start,
    ) {
        Some(d) => seq![ReportItem::RedirectLag(d)],
        None => Seq::<ReportItem>::empty(),
    }) + (match r.spec_header_ttfb() {
        Some(d) => seq![ReportItem::HeaderTtfb(d)],
        None => Seq::<ReportItem>::empty(),
    }) + (match r.spec_body_ttfb() {
        Some(d) => seq![ReportItem::BodyTtfb(d)],
        None => Seq::<ReportItem>::empty(),
    }) + (match r.spec_request_end() {
        Some(d) => seq![ReportItem::Total(d)],
        None => Seq::<ReportItem>::empty(),
    })
}

/// Appends one snapshot's connection-phase entries.
fn push_phase_items(out: &mut Vec<ReportItem>, c: &ConnectionStats)
    ensures
        final(out)@ == old(out)@ + spec_phase_items(*c),
{
    match c.get_dns_duration() {
        Some(d) => out.push(ReportItem::Dns(d)),
        None => {},
    }
    match c.get_connect_duration() {
        Some(d) => out.push(ReportItem::Connect(d)),
        None => {},
    }
    match c.get_tls_duration() {
        Some(d) => out.push(ReportItem::Tls(d)),
        None => {},
    }
    assert(final(out)@ =~= old(out)@ + spec_phase_items(*c));
}

/// Appends one attempt's connection-phase entries, if it has a snapshot.
fn push_http_items(out: &mut Vec<ReportItem>, h: &HttpConnectionStats)
    ensures
        final(out)@ == old(out)@ + spec_http_items(*h),
{
    match &h.connection_stats {
        Some(c) => push_phase_items(out, c),
        None => {
            assert(final(out)@ =~= old(out)@ + spec_http_items(*h));
        },
    }
}

impl RequestStats {
    /// The structured timing report of this request: one block per redirect
    /// hop (oldest first), the final attempt's connection-phase entries, and
    /// the derived request-level durations, exactly as `spec_report_items`
    /// lays them out.
    pub fn report_items(&self) -> (items: Vec<ReportItem>)
        ensures
            items@ == spec_report_items(*self),
    {
        let mut out: Vec<ReportItem> = Vec::new();
        let mut k: usize = 0;
        while k < self.redirects.len()
            invariant
                0 <= k <= self.redirects.len(),
                out@ == spec_chain_items(self.redirects@.take(k as int)),
            decreases self.redirects.len() - k,
        {
            let hop = &self.redirects[k];
            push_http_items(&mut out, &hop.connection_stats);
            out.push(ReportItem::NextRedirect(hop.finished));
            proof {
                let taken = self.redirects@.take(k + 1 as int);
                assert(taken.drop_last() =~= self.redirects@.take(k as int));
                assert(taken.last() == self.redirects@[k as int]);
                assert(out@ =~= spec_chain_items(taken));
            }
            k = k + 1;
        }
        proof {
            assert(self.redirects@.take(self.redirects@.len() as int) =~= self.redirects@);
        }
        push_http_items(&mut out, &self.http_stats);
        match self.get_last_redirect_start() {
            Some(d) => out.push(ReportItem::RedirectLag(d)),
            None => {},
        }
        match self.get_header_ttfb() {
            Some(d) => out.push(ReportItem::HeaderTtfb(d)),
            None => {},
        }
        match self.get_body_ttfb() {
            Some(d) => out.push(ReportItem::BodyTtfb(d)),
            None => {},
        }
        match self.get_request_end() {
            Some(d) => out.push(ReportItem::Total(d)),
            None => {},
        }
        assert(out@ =~= spec_report_items(*self));
        out
    }
}

/// The decimal digit character for a value below ten.
pub open spec fn spec_digit(d: u64) -> char {
    if d == 0 {
        '0'
    } else if d == 1 {
        '1'
    } else if d == 2 {
        '2'
    } else if d == 3 {
        '3'
    } else if d == 4 {
        '4'
    } else if d == 5 {
        '5'
    } else if d == 6 {
        '6'
    } else if d == 7 {
        '7'
    } else if d == 8 {
        '8'
    } else {
        '9'
    }
}

/// The decimal digits of `n`, most significant first, with no leading zero
/// except for `n == 0` itself.
pub open spec fn spec_dec(n: u64) -> Seq<char>
    decreases n,
{
    if n < 10 {
        seq![spec_digit(n)]
    } else {
        spec_dec((n / 10) as u64) + seq![spec_digit(n % 10)]
    }
}

/// The text of one report entry: its label, its value in decimal, the
/// nanosecond unit, and a line break.
pub open spec fn spec_line(item: ReportItem) -> Seq<char> {
    match item {
        ReportItem::Dns(d) => "dns: "@ + spec_dec(d) + "ns\n"@,
        ReportItem::Connect(d) => "connect: "@ + spec_dec(d) + "ns\n"@,
        ReportItem::Tls(d) => "tls: "@ + spec_dec(d) + "ns\n"@,
        ReportItem::NextRedirect(t) => "next redirect: "@ + spec_dec(t) + "ns\n"@,
        ReportItem::RedirectLag(d) => "redirection: "@ + spec_dec(d) + "ns\n"@,
        ReportItem::HeaderTtfb(d) => "time to first header byte: "@ + spec_dec(d) + "ns\n"@,
        ReportItem::BodyTtfb(d) => "time to first body byte: "@ + spec_dec(d) + "ns\n"@,
        ReportItem::Total(d) => "total time: "@ + spec_dec(d) + "ns\n"@,
    }
}

/// The text of a whole report: the entries' lines, in order.
pub open spec fn spec_render(items: Seq<ReportItem>) -> Seq<char>
    decreases items.len(),
{
    if items.len() == 0 {
        Seq::<char>::empty()
    } else {
        spec_render(items.drop_last()) + spec_line(items.last())
    }
}

/// The one-character string for a decimal digit.
fn digit_str(d: u64) -> (s: &'static str)
    requires
        d < 10,
    ensures
        s@ == seq![spec_digit(d)],
{
    proof {
        reveal_strlit("0");
        reveal_strlit("1");
        reveal_strlit("2");
        reveal_strlit("3");
        reveal_strlit("4");
        reveal_strlit("5");
        reveal_strlit("6");
        reveal_strlit("7");
        reveal_strlit("8");
        reveal_strlit("9");
    }
    if d == 0 {
        "0"
    } else if d == 1 {
        "1"
    } else if d == 2 {
        "2"
    } else if d == 3 {
        "3"
    } else if d == 4 {
        "4"
    } else if d == 5 {
        "5"
    } else if d == 6 {
        "6"
    } else if d == 7 {
        "7"
    } else if d == 8 {
        "8"
    } else {
        "9"
    }
}

/// Appends the decimal digits of `n`.
fn append_dec(out: &mut String, n: u64)
    ensures
        final(out)@ == old(out)@ + spec_dec(n),
    decreases n,
{
    if n >= 10 {
        append_dec(out, n / 10);
    }
    out.append(digit_str(n % 10));
    proof {
        if n < 10 {
            assert(n % 10 == n);
        }
        assert(final(out)@ =~= old(out)@ + spec_dec(n));
    }
}

/// Appends one labelled duration line.
fn append_labeled(out: &mut String, label: &str, value: u64)
    ensures
        final(out)@ == old(out)@ + label@ + spec_dec(value) + "ns\n"@,
{
    out.append(label);
    append_dec(out, value);
    out.append("ns\n");
    assert(final(out)@ =~= old(out)@ + label@ + spec_dec(value) + "ns\n"@);
}

/// Appends the text of one report entry.
fn append_line(out: &mut String, item: &ReportItem)
    ensures
        final(out)@ == old(out)@ + spec_line(*item),
{
    match item {
        ReportItem::Dns(d) => append_labeled(out, "dns: ", *d),
        ReportItem::Connect(d) => append_labeled(out, "connect: ", *d),
        ReportItem::Tls(d) => append_labeled(out, "tls: ", *d),
        ReportItem::NextRedirect(t) => append_labeled(out, "next redirect: ", *t),
        ReportItem::RedirectLag(d) => append_labeled(out, "redirection: ", *d),
        ReportItem::HeaderTtfb(d) => append_labeled(out, "time to first header byte: ", *d),
        ReportItem::BodyTtfb(d) => append_labeled(out, "time to first body byte: ", *d),
        ReportItem::Total(d) => append_labeled(out, "total time: ", *d),
    }
    assert(final(out)@ =~= old(out)@ + spec_line(*item));
}

impl RequestStats {
    /// The rendered timing report of this request: the text of every entry
    /// of `report_items`, in order, one line each. Purely a diagnostic
    /// convenience — the exact wording is not a stable wire format.
    pub fn render_report(&self) -> (text: String)
        ensures
            text@ == spec_render(spec_report_items(*self)),
    {
        let items = self.report_items();
        let mut out = String::new();
        let mut i: usize = 0;
        while i < items.len()
            invariant
                0 <= i <= items.len(),
                items@ == spec_report_items(*self),
                out@ == spec_render(items@.take(i as int)),
            decreases items.len() - i,
        {
            append_line(&mut out, &items[i]);
            proof {
                let taken = items@.take(i + 1 as int);
                assert(taken.drop_last() =~= items@.take(i as int));
                assert(taken.last() == items@[i as int]);
            }
            i = i + 1;
        }
        proof {
            assert(items@.take(items@.len() as int) =~= items@);
        }
        out
    }
}

/// Law: a connection-phase entry appears in a snapshot's block only when
/// both of that phase's boundary instants are present — a phase with a
/// missing boundary is skipped, never rendered with a placeholder.
pub proof fn lemma_phase_items_need_both_boundaries(c: ConnectionStats)
    ensures
        !(c.dns_resolve_start is Some && c.dns_resolve_end is Some) ==> forall|i: int|
            0 <= i < spec_phase_items(c).len() ==> !((#[trigger] spec_phase_items(c)[i]) is Dns),
        !(c.connect_start is Some && c.connect_end is Some) ==> forall|i: int|
            0 <= i < spec_phase_items(c).len() ==> !((#[trigger] spec_phase_items(c)[i])
                is Connect),
        !(c.tls_connect_start is Some && c.tls_connect_end is Some) ==> forall|i: int|
            0 <= i < spec_phase_items(c).len() ==> !((#[trigger] spec_phase_items(c)[i]) is Tls),
{
}

/// True when `h` carries no fully recorded DNS phase: either no snapshot at
/// all, or a snapshot with at least one DNS boundary missing.
pub open spec fn lacks_dns(h: HttpConnectionStats) -> bool {
    h.connection_stats matches Some(c) ==> !(c.dns_resolve_start is Some && c.dns_resolve_end
        is Some)
}

/// True when `h` carries no fully recorded TCP connect phase.
pub open spec fn lacks_connect(h: HttpConnectionStats) -> bool {
    h.connection_stats matches Some(c) ==> !(c.connect_start is Some && c.connect_end is Some)
}

/// True when `h` carries no fully recorded TLS phase.
pub open spec fn lacks_tls(h: HttpConnectionStats) -> bool {
    h.connection_stats matches Some(c) ==> !(c.tls_connect_start is Some && c.tls_connect_end
        is Some)
}

/// Law, lifted over a redirect chain: when no hop fully recorded a phase,
/// none of the chain's blocks contains that phase's entry.
pub proof fn lemma_chain_items_skip_unrecorded_phases(hops: Seq<RedirectStats>)
    ensures
        (forall|k: int| 0 <= k < hops.len() ==> lacks_dns((#[trigger] hops[k]).connection_stats))
            ==> forall|i: int|
            0 <= i < spec_chain_items(hops).len() ==> !((#[trigger] spec_chain_items(hops)[i])
                is Dns),
        (forall|k: int|
            0 <= k < hops.len() ==> lacks_connect((#[trigger] hops[k]).connection_stats))
            ==> forall|i: int|
            0 <= i < spec_chain_items(hops).len() ==> !((#[trigger] spec_chain_items(hops)[i])
                is Connect),
        (forall|k: int| 0 <= k < hops.len() ==> lacks_tls((#[trigger] hops[k]).connection_stats))
            ==> forall|i: int|
            0 <= i < spec_chain_items(hops).len() ==> !((#[trigger] spec_chain_items(hops)[i])
                is Tls),
    decreases hops.len(),
{
    if hops.len() > 0 {
        lemma_chain_items_skip_unrecorded_phases(hops.drop_last());
        match hops.last().connection_stats.connection_stats {
            Some(c) => lemma_phase_items_need_both_boundaries(c),
            None => {},
        }
        assert(forall|k: int|
            0 <= k < hops.drop_last().len() ==> hops.drop_last()[k] == hops[k]);
    }
}

/// Law (graceful degradation, over the whole report): when neither the
/// final attempt nor any redirect hop fully recorded a connection phase,
/// the report contains no entry for that phase — partial data shortens the
/// report instead of producing a placeholder.
pub proof fn lemma_report_skips_unrecorded_phases(r: RequestStats)
    ensures
        (lacks_dns(r.http_stats) && (forall|k: int|
            0 <= k < r.redirects@.len() ==> lacks_dns(
                (#[trigger] r.redirects@[k]).connection_stats,
            ))) ==> forall|i: int|
            0 <= i < spec_report_items(r).len() ==> !((#[trigger] spec_report_items(r)[i]) is Dns),
        (lacks_connect(r.http_stats) && (forall|k: int|
            0 <= k < r.redirects@.len() ==> lacks_connect(
                (#[trigger] r.redirects@[k]).connection_stats,
            ))) ==> forall|i: int|
            0 <= i < spec_report_items(r).len() ==> !((#[trigger] spec_report_items(r)[i])
                is Connect),
        (lacks_tls(r.http_stats) && (forall|k: int|
            0 <= k < r.redirects@.len() ==> lacks_tls(
                (#[trigger] r.redirects@[k]).connection_stats,
            ))) ==> forall|i: int|
            0 <= i < spec_report_items(r).len() ==> !((#[trigger] spec_report_items(r)[i]) is Tls),
{
    lemma_chain_items_skip_unrecorded_phases(r.redirects@);
    match r.http_stats.connection_stats {
        Some(c) => lemma_phase_items_need_both_boundaries(c),
        None => {},
    }
}

} // verus!
