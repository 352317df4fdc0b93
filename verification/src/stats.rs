//! The timing records themselves: the connection-phase snapshot, the
//! per-request record, and the redirect chain, together with every derived
//! duration and the laws that hold of them.

use vstd::prelude::*;

verus! {

/// Difference of two instants, clamped to zero.
///
/// Every derived duration goes through this, so a timestamp written out of
/// chronological order degrades to a zero duration instead of a negative or
/// wrapped-around one.
pub open spec fn sat_sub(later: u64, earlier: u64) -> u64 {
    if later >= earlier {
        (later - earlier) as u64
    } else {
        0
    }
}

/// Duration of a phase delimited by two optional boundary instants: present
/// exactly when both boundaries were recorded.
pub open spec fn spec_phase_duration(start: Option<u64>, end: Option<u64>) -> Option<u64> {
    match (start, end) {
        (Some(s), Some(e)) => Some(sat_sub(e, s)),
        _ => None,
    }
}

/// Saturating difference of two instants.
pub fn duration_between(later: u64, earlier: u64) -> (d: u64)
    ensures
        d == sat_sub(later, earlier),
{
    if later >= earlier {
        later - earlier
    } else {
        0
    }
}

/// One physical connection's establishment timestamps.
///
/// Every field is an optional monotonic instant in nanoseconds; each phase
/// may be absent as a pair (no DNS for IP-literal targets, no TLS for
/// plaintext), and a pooled connection carries no snapshot at all. The
/// connection layer populates a snapshot in chronological order and it is
/// copied, never shared, into every request that uses the connection.
#[derive(Clone, Copy, Debug)]
pub struct ConnectionStats {
    /// The instant connection establishment began.
    pub start_time: Option<u64>,
    /// The instant DNS resolution began.
    pub dns_resolve_start: Option<u64>,
    /// The instant DNS resolution completed.
    pub dns_resolve_end: Option<u64>,
    /// The instant the TCP connect began.
    pub connect_start: Option<u64>,
    /// The instant the TCP connect completed.
    pub connect_end: Option<u64>,
    /// The instant the TLS handshake began.
    pub tls_connect_start: Option<u64>,
    /// The instant the TLS handshake completed.
    pub tls_connect_end: Option<u64>,
}

/// The snapshot of an instantaneous, already-established connection: start
/// and connect boundaries all equal to `now`, everything else absent.
pub open spec fn spec_instantaneous(now: u64) -> ConnectionStats {
    ConnectionStats {
        start_time: Some(now),
        dns_resolve_start: None,
        dns_resolve_end: None,
        connect_start: Some(now),
        connect_end: Some(now),
        tls_connect_start: None,
        tls_connect_end: None,
    }
}

impl ConnectionStats {
    /// True when no phase boundary has been recorded.
    pub open spec fn all_absent(self) -> bool {
        &&& self.start_time is None
        &&& self.dns_resolve_start is None
        &&& self.dns_resolve_end is None
        &&& self.connect_start is None
        &&& self.connect_end is None
        &&& self.tls_connect_start is None
        &&& self.tls_connect_end is None
    }

    /// An all-absent snapshot; the connection layer fills the boundaries in
    /// as each phase runs.
    pub fn new() -> (c: Self)
        ensures
            c.all_absent(),
    {
        ConnectionStats {
            start_time: None,
            dns_resolve_start: None,
            dns_resolve_end: None,
            connect_start: None,
            connect_end: None,
            tls_connect_start: None,
            tls_connect_end: None,
        }
    }

    /// The synthetic snapshot for a connection whose sub-phases are not
    /// observable (a multiplexed protocol): established instantaneously at
    /// `now`, so its connect duration is exactly zero.
    pub fn instantaneous(now: u64) -> (c: Self)
        ensures
            c == spec_instantaneous(now),
    {
        ConnectionStats {
            start_time: Some(now),
            dns_resolve_start: None,
            dns_resolve_end: None,
            connect_start: Some(now),
            connect_end: Some(now),
            tls_connect_start: None,
            tls_connect_end: None,
        }
    }

    /// How long DNS resolution took; `None` exactly when the phase was
    /// never (or only partially) recorded.
    pub fn get_dns_duration(&self) -> (d: Option<u64>)
        ensures
            d == spec_phase_duration(self.dns_resolve_start, self.dns_resolve_end),
    {
        match (self.dns_resolve_start, self.dns_resolve_end) {
            (Some(s), Some(e)) => Some(duration_between(e, s)),
            _ => None,
        }
    }

    /// How long the TCP connect took; `None` exactly when the phase was
    /// never (or only partially) recorded.
    pub fn get_connect_duration(&self) -> (d: Option<u64>)
        ensures
            d == spec_phase_duration(self.connect_start, self.connect_end),
    {
        match (self.connect_start, self.connect_end) {
            (Some(s), Some(e)) => Some(duration_between(e, s)),
            _ => None,
        }
    }

    /// How long the TLS handshake took; `None` exactly when the phase was
    /// never (or only partially) recorded.
    pub fn get_tls_duration(&self) -> (d: Option<u64>)
        ensures
            d == spec_phase_duration(self.tls_connect_start, self.tls_connect_end),
    {
        match (self.tls_connect_start, self.tls_connect_end) {
            (Some(s), Some(e)) => Some(duration_between(e, s)),
            _ => None,
        }
    }
}

/// Connection-level timing of one HTTP request: the first header and body
/// bytes, plus the snapshot of the connection that served it (absent when
/// the connection came from the pool and its establishment was not observed).
#[derive(Clone, Copy, Debug)]
pub struct HttpConnectionStats {
    /// The approximate instant the first body byte was received.
    pub first_body_byte_time: Option<u64>,
    /// The approximate instant the first header byte was received.
    pub first_header_byte_time: Option<u64>,
    /// The connection stats for this request, if the connection was not pooled.
    pub connection_stats: Option<ConnectionStats>,
}

impl HttpConnectionStats {
    /// True when nothing has been recorded.
    pub open spec fn all_absent(self) -> bool {
        &&& self.first_body_byte_time is None
        &&& self.first_header_byte_time is None
        &&& self.connection_stats is None
    }

    /// Stats with nothing recorded yet.
    pub fn new() -> (s: Self)
        ensures
            s.all_absent(),
    {
        HttpConnectionStats {
            first_body_byte_time: None,
            first_header_byte_time: None,
            connection_stats: None,
        }
    }

    /// Stats for a multiplexed request, carrying the synthetic instantaneous
    /// connection snapshot for the instant `now`. The zero-width connect
    /// phase makes such requests countable while claiming no establishment
    /// work that was never observed.
    pub fn new_http2(now: u64) -> (s: Self)
        ensures
            s.connection_stats == Some(spec_instantaneous(now)),
            s.first_body_byte_time is None,
            s.first_header_byte_time is None,
    {
        HttpConnectionStats {
            connection_stats: Some(ConnectionStats::instantaneous(now)),
            first_body_byte_time: None,
            first_header_byte_time: None,
        }
    }
}

/// One completed hop of a redirect chain: the hop's connection-level stats,
/// frozen at the instant the hop ended in a redirect.
#[derive(Clone, Copy, Debug)]
pub struct RedirectStats {
    /// The approximate instant the redirect finished.
    pub finished: u64,
    /// The hop's connection-level stats.
    pub connection_stats: HttpConnectionStats,
}

/// First-write-wins update of an optional instant: a later write never
/// overwrites a recorded value.
pub open spec fn first_write(cur: Option<u64>, t: u64) -> Option<u64> {
    match cur {
        None => Some(t),
        Some(_) => cur,
    }
}

/// Time to first byte: the saturating distance from the poll start to an
/// optional byte-arrival instant, present exactly when the instant is.
pub open spec fn spec_ttfb(byte_time: Option<u64>, poll_start: u64) -> Option<u64> {
    match byte_time {
        Some(t) => Some(sat_sub(t, poll_start)),
        None => None,
    }
}

/// Redirect lag: the saturating distance from the poll start to the instant
/// the most recent hop ended, `None` when the request was never redirected.
pub open spec fn spec_redirect_lag(hops: Seq<RedirectStats>, poll_start: u64) -> Option<u64> {
    if hops.len() == 0 {
        None
    } else {
        Some(sat_sub(hops.last().finished, poll_start))
    }
}

/// Connection- and request-level stats for one HTTP request, across every
/// redirect hop it followed.
///
/// The dispatch layer drives one record per request: `set_poll_start` once
/// when it begins waiting for response data, the first-byte markers on the
/// first received header and body bytes, `push_redirect` when a hop ends in
/// a redirect, and `set_finish` once the response is delivered. All getters
/// are relative to the poll start and saturate at zero.
#[derive(Clone, Debug)]
pub struct RequestStats {
    /// Connection-level stats of the final attempt.
    pub http_stats: HttpConnectionStats,
    /// Stats for all the redirect hops (save the final request), oldest first.
    pub redirects: Vec<RedirectStats>,
    /// The approximate instant this request started waiting for data.
    pub poll_start: u64,
    /// The approximate instant the response was delivered to the caller.
    pub finish: Option<u64>,
}

impl RequestStats {
    /// Time to the first header byte, relative to the poll start.
    pub open spec fn spec_header_ttfb(self) -> Option<u64> {
        spec_ttfb(self.http_stats.first_header_byte_time, self.poll_start)
    }

    /// Time to the first body byte, relative to the poll start.
    pub open spec fn spec_body_ttfb(self) -> Option<u64> {
        spec_ttfb(self.http_stats.first_body_byte_time, self.poll_start)
    }

    /// When the most recent redirect hop ended, relative to the poll start.
    pub open spec fn spec_last_redirect_start(self) -> Option<u64> {
        spec_redirect_lag(self.redirects@, self.poll_start)
    }

    /// Total request duration, present exactly when the request finished.
    pub open spec fn spec_request_end(self) -> Option<u64> {
        match self.finish {
            Some(f) => Some(sat_sub(f, self.poll_start)),
            None => None,
        }
    }

    /// How long the request waited on connection establishment before it
    /// could start polling: zero when the connection was reused and no
    /// establishment start was recorded.
    pub open spec fn spec_transfer_wait(self) -> u64 {
        match self.http_stats.connection_stats {
            Some(c) => match c.start_time {
                Some(s) => sat_sub(self.poll_start, s),
                None => 0,
            },
            None => 0,
        }
    }

    /// A record with nothing recorded and both endpoints at `now`; useful as
    /// a default where detailed stats are not supported.
    pub fn empty(now: u64) -> (r: Self)
        ensures
            r.http_stats.all_absent(),
            r.redirects@.len() == 0,
            r.poll_start == now,
            r.finish is None,
    {
        RequestStats {
            http_stats: HttpConnectionStats::new(),
            redirects: Vec::new(),
            poll_start: now,
            finish: None,
        }
    }

    /// The baseline every derived duration is measured from.
    fn get_request_start(&self) -> (t: u64)
        ensures
            t == self.poll_start,
    {
        self.poll_start
    }

    /// Returns the time (relative to the poll start) that the first header
    /// byte was received from the server.
    pub fn get_header_ttfb(&self) -> (d: Option<u64>)
        ensures
            d == self.spec_header_ttfb(),
    {
        match self.http_stats.first_header_byte_time {
            Some(t) => Some(duration_between(t, self.get_request_start())),
            None => None,
        }
    }

    /// Returns the time (relative to the poll start) that the first body
    /// byte was received from the server.
    pub fn get_body_ttfb(&self) -> (d: Option<u64>)
        ensures
            d == self.spec_body_ttfb(),
    {
        match self.http_stats.first_body_byte_time {
            Some(t) => Some(duration_between(t, self.get_request_start())),
            None => None,
        }
    }

    /// Returns the time (relative to the poll start) that the last
    /// redirection began: the tail of the chain, so the final hop of a
    /// multi-hop request. `None` when the request was never redirected.
    pub fn get_last_redirect_start(&self) -> (d: Option<u64>)
        ensures
            d == self.spec_last_redirect_start(),
    {
        if self.redirects.len() == 0 {
            None
        } else {
            let hop = &self.redirects[self.redirects.len() - 1];
            Some(duration_between(hop.finished, self.get_request_start()))
        }
    }

    /// Returns the total request time (this does not include body time),
    /// `None` when the request has not finished.
    pub fn get_request_end(&self) -> (d: Option<u64>)
        ensures
            d == self.spec_request_end(),
    {
        match self.finish {
            Some(f) => Some(duration_between(f, self.get_request_start())),
            None => None,
        }
    }

    /// Returns how long the request waited on connection establishment
    /// before polling began; zero for a reused connection.
    pub fn get_transfer_wait(&self) -> (d: u64)
        ensures
            d == self.spec_transfer_wait(),
    {
        match self.http_stats.connection_stats {
            Some(c) => match c.start_time {
                Some(s) => duration_between(self.poll_start, s),
                None => 0,
            },
            None => 0,
        }
    }

    /// Sets the instant we started waiting for data from the server.
    /// Called once per request, at its start.
    pub fn set_poll_start(&mut self, start: u64)
        ensures
            final(self).poll_start == start,
            final(self).http_stats == old(self).http_stats,
            final(self).redirects@ == old(self).redirects@,
            final(self).finish == old(self).finish,
    {
        self.poll_start = start;
    }

    /// Sets the time this request finished. Last write wins: a repeated
    /// call moves the endpoint.
    pub fn set_finish(&mut self, finish: u64)
        ensures
            final(self).finish == Some(finish),
            final(self).http_stats == old(self).http_stats,
            final(self).redirects@ == old(self).redirects@,
            final(self).poll_start == old(self).poll_start,
    {
        self.finish = Some(finish);
    }

    /// Marks the arrival of the first header byte. First write wins: a
    /// repeated call is a no-op, so the marker is idempotent.
    pub fn record_first_header_byte(&mut self, t: u64)
        ensures
            final(self).http_stats.first_header_byte_time == first_write(
                old(self).http_stats.first_header_byte_time,
                t,
            ),
            final(self).http_stats.first_body_byte_time == old(
                self,
            ).http_stats.first_body_byte_time,
            final(self).http_stats.connection_stats == old(self).http_stats.connection_stats,
            final(self).redirects@ == old(self).redirects@,
            final(self).poll_start == old(self).poll_start,
            final(self).finish == old(self).finish,
    {
        if self.http_stats.first_header_byte_time.is_none() {
            self.http_stats.first_header_byte_time = Some(t);
        }
    }

    /// Marks the arrival of the first body byte. First write wins: a
    /// repeated call is a no-op, so the marker is idempotent.
    pub fn record_first_body_byte(&mut self, t: u64)
        ensures
            final(self).http_stats.first_body_byte_time == first_write(
                old(self).http_stats.first_body_byte_time,
                t,
            ),
            final(self).http_stats.first_header_byte_time == old(
                self,
            ).http_stats.first_header_byte_time,
            final(self).http_stats.connection_stats == old(self).http_stats.connection_stats,
            final(self).redirects@ == old(self).redirects@,
            final(self).poll_start == old(self).poll_start,
            final(self).finish == old(self).finish,
    {
        if self.http_stats.first_body_byte_time.is_none() {
            self.http_stats.first_body_byte_time = Some(t);
        }
    }

    /// Appends one completed hop to the redirect chain. Appending is the
    /// only mutation of the chain: entries are never removed or reordered,
    /// so the chain stays in chronological order, oldest hop first.
    pub fn push_redirect(&mut self, hop: RedirectStats)
        ensures
            final(self).redirects@ == old(self).redirects@.push(hop),
            final(self).http_stats == old(self).http_stats,
            final(self).poll_start == old(self).poll_start,
            final(self).finish == old(self).finish,
    {
        self.redirects.push(hop);
    }
}

/// "Whenever both instants are present, the first is no later than the
/// second." Absent instants impose no constraint.
pub open spec fn le_opt(earlier: Option<u64>, later: Option<u64>) -> bool {
    match (earlier, later) {
        (Some(a), Some(b)) => a <= b,
        _ => true,
    }
}

/// A snapshot's boundaries in the order the connection layer records them.
pub open spec fn boundary_seq(c: ConnectionStats) -> Seq<Option<u64>> {
    seq![
        c.start_time,
        c.dns_resolve_start,
        c.dns_resolve_end,
        c.connect_start,
        c.connect_end,
        c.tls_connect_start,
        c.tls_connect_end,
    ]
}

/// The connection layer's call contract: boundaries are recorded in
/// chronological order, and a phase's end is never set without its start.
pub open spec fn snapshot_chronological(c: ConnectionStats) -> bool {
    &&& forall|i: int, j: int|
        0 <= i <= j < 7 ==> le_opt(#[trigger] boundary_seq(c)[i], #[trigger] boundary_seq(c)[j])
    &&& c.dns_resolve_end is Some ==> c.dns_resolve_start is Some
    &&& c.connect_end is Some ==> c.connect_start is Some
    &&& c.tls_connect_end is Some ==> c.tls_connect_start is Some
}

/// The dispatch layer's call contract for one whole request: the final
/// attempt's connection was established (chronologically) before polling
/// began; redirect hops ended in order, at or after the poll start; and the
/// poll start, the first-byte instants and the finish are in chronological
/// order wherever they are present.
pub open spec fn record_chronological(r: RequestStats) -> bool {
    &&& r.http_stats.connection_stats matches Some(c) ==> {
        &&& snapshot_chronological(c)
        &&& forall|i: int|
            0 <= i < 7 ==> le_opt(#[trigger] boundary_seq(c)[i], Some(r.poll_start))
    }
    &&& forall|k: int|
        0 <= k < r.redirects@.len() ==> {
            &&& r.poll_start <= (#[trigger] r.redirects@[k]).finished
            &&& r.redirects@[k].connection_stats.connection_stats matches Some(c)
                ==> snapshot_chronological(c)
        }
    &&& forall|k1: int, k2: int|
        0 <= k1 <= k2 < r.redirects@.len() ==> (#[trigger] r.redirects@[k1]).finished <= (
        #[trigger] r.redirects@[k2]).finished
    &&& le_opt(Some(r.poll_start), r.http_stats.first_header_byte_time)
    &&& le_opt(Some(r.poll_start), r.http_stats.first_body_byte_time)
    &&& le_opt(Some(r.poll_start), r.finish)
    &&& le_opt(r.http_stats.first_header_byte_time, r.http_stats.first_body_byte_time)
    &&& le_opt(r.http_stats.first_header_byte_time, r.finish)
    &&& le_opt(r.http_stats.first_body_byte_time, r.finish)
}

/// Law: for a snapshot recorded in chronological order, each phase duration
/// is present exactly when both of the phase's boundaries were recorded, and
/// is their exact difference — the saturation never clamps.
pub proof fn lemma_snapshot_durations_exact_under_chronology(c: ConnectionStats)
    requires
        snapshot_chronological(c),
    ensures
        spec_phase_duration(c.dns_resolve_start, c.dns_resolve_end) is Some <==> (
        c.dns_resolve_start is Some && c.dns_resolve_end is Some),
        c.dns_resolve_start matches Some(s) ==> c.dns_resolve_end matches Some(e)
            ==> spec_phase_duration(c.dns_resolve_start, c.dns_resolve_end) == Some((e - s) as u64),
        spec_phase_duration(c.connect_start, c.connect_end) is Some <==> (c.connect_start is Some
            && c.connect_end is Some),
        c.connect_start matches Some(s) ==> c.connect_end matches Some(e) ==> spec_phase_duration(
            c.connect_start,
            c.connect_end,
        ) == Some((e - s) as u64),
        spec_phase_duration(c.tls_connect_start, c.tls_connect_end) is Some <==> (
        c.tls_connect_start is Some && c.tls_connect_end is Some),
        c.tls_connect_start matches Some(s) ==> c.tls_connect_end matches Some(e)
            ==> spec_phase_duration(c.tls_connect_start, c.tls_connect_end) == Some(
            (e - s) as u64,
        ),
{
    assert(le_opt(boundary_seq(c)[1], boundary_seq(c)[2]));
    assert(le_opt(boundary_seq(c)[3], boundary_seq(c)[4]));
    assert(le_opt(boundary_seq(c)[5], boundary_seq(c)[6]));
}

/// Law: under the chronological call contract, every derived getter returns
/// `Some` exactly when its phase was recorded, and the saturation never
/// clamps — each duration is the exact difference of its boundary instants
/// (hence non-negative by construction).
pub proof fn lemma_getters_exact_under_chronology(r: RequestStats)
    requires
        record_chronological(r),
    ensures
        r.spec_header_ttfb() is Some <==> r.http_stats.first_header_byte_time is Some,
        r.http_stats.first_header_byte_time matches Some(t) ==> r.spec_header_ttfb() == Some(
            (t - r.poll_start) as u64,
        ),
        r.spec_body_ttfb() is Some <==> r.http_stats.first_body_byte_time is Some,
        r.http_stats.first_body_byte_time matches Some(t) ==> r.spec_body_ttfb() == Some(
            (t - r.poll_start) as u64,
        ),
        r.spec_request_end() is Some <==> r.finish is Some,
        r.finish matches Some(f) ==> r.spec_request_end() == Some((f - r.poll_start) as u64),
        r.spec_last_redirect_start() is Some <==> r.redirects@.len() > 0,
        r.redirects@.len() > 0 ==> r.spec_last_redirect_start() == Some(
            (r.redirects@.last().finished - r.poll_start) as u64,
        ),
        r.http_stats.connection_stats matches Some(c) ==> {
            &&& c.dns_resolve_start matches Some(s) ==> c.dns_resolve_end matches Some(e)
                ==> spec_phase_duration(c.dns_resolve_start, c.dns_resolve_end) == Some(
                (e - s) as u64,
            )
            &&& c.connect_start matches Some(s) ==> c.connect_end matches Some(e)
                ==> spec_phase_duration(c.connect_start, c.connect_end) == Some((e - s) as u64)
            &&& c.tls_connect_start matches Some(s) ==> c.tls_connect_end matches Some(e)
                ==> spec_phase_duration(c.tls_connect_start, c.tls_connect_end) == Some(
                (e - s) as u64,
            )
            &&& c.start_time matches Some(s) ==> r.spec_transfer_wait() == (r.poll_start
                - s) as u64
        },
{
    if r.redirects@.len() > 0 {
        assert(r.poll_start <= r.redirects@[r.redirects@.len() - 1].finished);
    }
    match r.http_stats.connection_stats {
        Some(c) => {
            lemma_snapshot_durations_exact_under_chronology(c);
            assert(le_opt(boundary_seq(c)[0], Some(r.poll_start)));
        },
        None => {},
    }
}

/// Law: the first-byte markers are idempotent. Marking twice leaves the
/// marker, and hence the derived time to first byte, exactly as the first
/// marking left it: the first write wins.
pub proof fn lemma_first_byte_marker_idempotent(
    cur: Option<u64>,
    t1: u64,
    t2: u64,
    poll_start: u64,
)
    ensures
        first_write(first_write(cur, t1), t2) == first_write(cur, t1),
        spec_ttfb(first_write(first_write(cur, t1), t2), poll_start) == spec_ttfb(
            first_write(cur, t1),
            poll_start,
        ),
{
}

/// Law: the redirect-lag getter reads the tail of the chain. After a hop is
/// appended, the lag reflects that newest hop, whatever hops came before it.
pub proof fn lemma_redirect_lag_reads_newest_hop(
    hops: Seq<RedirectStats>,
    hop: RedirectStats,
    poll_start: u64,
)
    ensures
        spec_redirect_lag(hops.push(hop), poll_start) == Some(sat_sub(hop.finished, poll_start)),
{
    assert(hops.push(hop).last() == hop);
}

} // verus!
