use request_timing::ConnectionStats;
use request_timing::HttpConnectionStats;
use request_timing::RedirectStats;
use request_timing::ReportItem;
use request_timing::RequestStats;

const MS: u64 = 1_000_000;
const T0: u64 = 7_000_000;

fn full_phase_record() -> RequestStats {
    let snapshot = ConnectionStats {
        start_time: Some(T0),
        dns_resolve_start: Some(T0),
        dns_resolve_end: Some(T0 + 10 * MS),
        connect_start: Some(T0 + 10 * MS),
        connect_end: Some(T0 + 30 * MS),
        tls_connect_start: Some(T0 + 30 * MS),
        tls_connect_end: Some(T0 + 60 * MS),
    };
    let mut r = RequestStats::empty(T0);
    r.http_stats.connection_stats = Some(snapshot);
    r.set_poll_start(T0 + 60 * MS);
    r.record_first_header_byte(T0 + 110 * MS);
    r.set_finish(T0 + 200 * MS);
    r
}

#[test]
fn scenario_full_phases() {
    let r = full_phase_record();
    let c = r.http_stats.connection_stats.unwrap();
    assert_eq!(c.get_dns_duration(), Some(10 * MS));
    assert_eq!(c.get_connect_duration(), Some(20 * MS));
    assert_eq!(c.get_tls_duration(), Some(30 * MS));
    assert_eq!(r.get_header_ttfb(), Some(50 * MS));
    assert_eq!(r.get_request_end(), Some(140 * MS));
    assert_eq!(r.get_transfer_wait(), 60 * MS);
}

#[test]
fn scenario_full_phases_report() {
    let r = full_phase_record();
    assert_eq!(
        r.report_items(),
        vec![
            ReportItem::Dns(10 * MS),
            ReportItem::Connect(20 * MS),
            ReportItem::Tls(30 * MS),
            ReportItem::HeaderTtfb(50 * MS),
            ReportItem::Total(140 * MS),
        ]
    );
    let expected = "dns: 10000000ns\n\
                    connect: 20000000ns\n\
                    tls: 30000000ns\n\
                    time to first header byte: 50000000ns\n\
                    total time: 140000000ns\n";
    assert_eq!(r.render_report(), expected);
}

#[test]
fn scenario_pooled_connection() {
    let mut r = RequestStats::empty(T0);
    r.record_first_header_byte(T0 + 20 * MS);
    r.set_finish(T0 + 80 * MS);
    assert_eq!(r.get_header_ttfb(), Some(20 * MS));
    assert_eq!(r.get_request_end(), Some(80 * MS));
    assert_eq!(r.get_transfer_wait(), 0);
    let text = r.render_report();
    assert!(!text.contains("dns:"));
    assert!(!text.contains("connect:"));
    assert!(!text.contains("tls:"));
    assert_eq!(
        text,
        "time to first header byte: 20000000ns\ntotal time: 80000000ns\n"
    );
}

#[test]
fn scenario_multiplexed_snapshot() {
    let mut r = RequestStats::empty(T0);
    r.http_stats = HttpConnectionStats::new_http2(T0);
    let c = r.http_stats.connection_stats.unwrap();
    assert_eq!(c.get_connect_duration(), Some(0));
    assert_eq!(c.get_dns_duration(), None);
    assert_eq!(c.get_tls_duration(), None);
    r.record_first_header_byte(T0 + 20 * MS);
    r.set_finish(T0 + 80 * MS);
    assert_eq!(r.get_header_ttfb(), Some(20 * MS));
    assert_eq!(r.get_request_end(), Some(80 * MS));
    let text = r.render_report();
    assert!(!text.contains("dns:"));
    assert!(!text.contains("tls:"));
    assert!(text.contains("connect: 0ns\n"));
}

#[test]
fn scenario_one_redirect() {
    let mut hop1 = RequestStats::empty(T0);
    hop1.set_poll_start(T0);
    let entry = RedirectStats {
        finished: T0 + 15 * MS,
        connection_stats: hop1.http_stats,
    };
    let mut r = RequestStats::empty(T0 + 15 * MS);
    r.push_redirect(entry);
    r.set_finish(T0 + 95 * MS);
    assert_eq!(r.redirects.len(), 1);
    assert_eq!(r.redirects[0].finished, T0 + 15 * MS);
    assert_eq!(r.get_request_end(), Some(80 * MS));
    assert_eq!(r.get_last_redirect_start(), Some(0));
}

#[test]
fn first_byte_markers_are_idempotent() {
    let mut r = RequestStats::empty(T0);
    r.record_first_header_byte(T0 + 5 * MS);
    r.record_first_header_byte(T0 + 90 * MS);
    assert_eq!(r.get_header_ttfb(), Some(5 * MS));
    r.record_first_body_byte(T0 + 9 * MS);
    r.record_first_body_byte(T0 + 1 * MS);
    assert_eq!(r.get_body_ttfb(), Some(9 * MS));
}

#[test]
fn redirect_lag_reads_newest_hop() {
    let mut r = RequestStats::empty(T0);
    r.push_redirect(RedirectStats {
        finished: T0 + 15 * MS,
        connection_stats: HttpConnectionStats::new(),
    });
    assert_eq!(r.get_last_redirect_start(), Some(15 * MS));
    r.push_redirect(RedirectStats {
        finished: T0 + 40 * MS,
        connection_stats: HttpConnectionStats::new(),
    });
    assert_eq!(r.redirects.len(), 2);
    assert_eq!(r.get_last_redirect_start(), Some(40 * MS));
}

#[test]
fn partial_phase_emits_no_line() {
    let mut r = RequestStats::empty(T0);
    r.http_stats.connection_stats = Some(ConnectionStats {
        start_time: Some(T0),
        dns_resolve_start: Some(T0),
        dns_resolve_end: None,
        connect_start: None,
        connect_end: Some(T0 + 30 * MS),
        tls_connect_start: Some(T0 + 30 * MS),
        tls_connect_end: Some(T0 + 60 * MS),
    });
    let c = r.http_stats.connection_stats.unwrap();
    assert_eq!(c.get_dns_duration(), None);
    assert_eq!(c.get_connect_duration(), None);
    assert_eq!(r.report_items(), vec![ReportItem::Tls(30 * MS)]);
    let text = r.render_report();
    assert!(!text.contains("dns:"));
    assert!(!text.contains("connect:"));
    assert_eq!(text, "tls: 30000000ns\n");
}

#[test]
fn redirect_hop_blocks_come_oldest_first() {
    let mut r = RequestStats::empty(T0 + 40 * MS);
    r.push_redirect(RedirectStats {
        finished: T0 + 15 * MS,
        connection_stats: HttpConnectionStats::new_http2(T0),
    });
    r.push_redirect(RedirectStats {
        finished: T0 + 40 * MS,
        connection_stats: HttpConnectionStats::new(),
    });
    r.set_finish(T0 + 95 * MS);
    assert_eq!(
        r.report_items(),
        vec![
            ReportItem::Connect(0),
            ReportItem::NextRedirect(T0 + 15 * MS),
            ReportItem::NextRedirect(T0 + 40 * MS),
            ReportItem::RedirectLag(0),
            ReportItem::Total(55 * MS),
        ]
    );
}

#[test]
fn empty_record_has_no_derived_durations() {
    let r = RequestStats::empty(T0);
    assert_eq!(r.get_header_ttfb(), None);
    assert_eq!(r.get_body_ttfb(), None);
    assert_eq!(r.get_last_redirect_start(), None);
    assert_eq!(r.get_request_end(), None);
    assert_eq!(r.get_transfer_wait(), 0);
    assert_eq!(r.poll_start, T0);
    assert!(r.redirects.is_empty());
    assert_eq!(r.report_items(), vec![]);
    assert_eq!(r.render_report(), "");
}

#[test]
fn out_of_order_timestamps_saturate_to_zero() {
    let mut r = RequestStats::empty(T0);
    r.record_first_header_byte(T0 - 5 * MS);
    r.set_finish(T0 - 1);
    assert_eq!(r.get_header_ttfb(), Some(0));
    assert_eq!(r.get_request_end(), Some(0));
    r.http_stats.connection_stats = Some(ConnectionStats {
        start_time: Some(T0 + 3 * MS),
        dns_resolve_start: Some(T0 + 10 * MS),
        dns_resolve_end: Some(T0 + 2 * MS),
        connect_start: None,
        connect_end: None,
        tls_connect_start: None,
        tls_connect_end: None,
    });
    let c = r.http_stats.connection_stats.unwrap();
    assert_eq!(c.get_dns_duration(), Some(0));
    assert_eq!(r.get_transfer_wait(), 0);
}

#[test]
fn set_finish_last_write_wins() {
    let mut r = RequestStats::empty(T0);
    r.set_finish(T0 + 10 * MS);
    r.set_finish(T0 + 25 * MS);
    assert_eq!(r.get_request_end(), Some(25 * MS));
}

#[test]
fn set_poll_start_moves_the_baseline() {
    let mut r = RequestStats::empty(T0);
    r.record_first_header_byte(T0 + 50 * MS);
    assert_eq!(r.get_header_ttfb(), Some(50 * MS));
    r.set_poll_start(T0 + 20 * MS);
    assert_eq!(r.get_header_ttfb(), Some(30 * MS));
}

#[test]
fn instantaneous_snapshot_shape() {
    let c = ConnectionStats::instantaneous(T0);
    assert_eq!(c.start_time, Some(T0));
    assert_eq!(c.connect_start, Some(T0));
    assert_eq!(c.connect_end, Some(T0));
    assert_eq!(c.dns_resolve_start, None);
    assert_eq!(c.dns_resolve_end, None);
    assert_eq!(c.tls_connect_start, None);
    assert_eq!(c.tls_connect_end, None);
    assert_eq!(c.get_connect_duration(), Some(0));
    let fresh = ConnectionStats::new();
    assert_eq!(fresh.get_dns_duration(), None);
    assert_eq!(fresh.get_connect_duration(), None);
    assert_eq!(fresh.get_tls_duration(), None);
}

#[test]
fn body_ttfb_and_next_redirect_lines_render() {
    let mut r = RequestStats::empty(T0);
    r.push_redirect(RedirectStats {
        finished: T0 + 2 * MS,
        connection_stats: HttpConnectionStats::new(),
    });
    r.record_first_body_byte(T0 + 7 * MS);
    let text = r.render_report();
    assert_eq!(
        text,
        format!(
            "next redirect: {}ns\nredirection: 2000000ns\ntime to first body byte: 7000000ns\n",
            T0 + 2 * MS
        )
    );
}
