use wakesp::address::{Endpoint, Ipv4Address};
use wakesp::dns::{
    exchange_step, finish_exchange, get_dns_address, get_dns_check_delay, read_public_ip, DnsAction,
    DnsPhase, DnsUpdater, Exchange, ExchangeAction, ExchangeStage, ResolvedAddress,
    DNS_CHECK_DELAY_FALLBACK,
};

fn ip(a: u8, b: u8, c: u8, d: u8) -> Ipv4Address {
    Ipv4Address { octets: [a, b, c, d] }
}

const REPLY_1234: &str = "HTTP/1.1 200 OK\r\nContent-Type: text/plain\r\nContent-Length: 7\r\n\r\n1.2.3.4";
const REPLY_1235: &str = "HTTP/1.1 200 OK\r\nContent-Type: text/plain\r\nContent-Length: 7\r\n\r\n1.2.3.5";

/// Runs one cycle of the updater with stubs in place of the two services,
/// and returns how often the provider was asked to update and the seconds
/// slept.
fn cycle(dns: &mut DnsUpdater, public_ip: Exchange, provider: Exchange) -> (usize, Vec<u64>) {
    let mut updates = 0;
    let mut sleeps = Vec::new();
    assert_eq!(dns.next_action(), DnsAction::WaitForNetwork);
    let mut action = dns.network_ready();
    assert_eq!(action, DnsAction::FetchPublicIp);
    action = dns.public_ip_fetched(public_ip);
    if action == DnsAction::UpdateRecord {
        updates += 1;
        action = dns.update_sent(provider);
    }
    if let DnsAction::Sleep { seconds } = action {
        sleeps.push(seconds);
        action = dns.woke_up();
    }
    assert_eq!(action, DnsAction::WaitForNetwork);
    (updates, sleeps)
}

#[test]
fn the_first_address_is_sent_to_the_provider_and_stored() {
    let mut dns = DnsUpdater::new(60);
    assert_eq!(dns.last_ip, None);
    let (updates, sleeps) = cycle(&mut dns, Exchange::Response(REPLY_1234), Exchange::Response("HTTP/1.1 200 OK\r\n\r\ngood"));
    assert_eq!(updates, 1);
    assert_eq!(sleeps, vec![60]);
    assert_eq!(dns.last_ip, Some(ip(1, 2, 3, 4)));
}

#[test]
fn an_unchanged_address_needs_no_update_and_sleeps_the_full_interval() {
    let mut dns = DnsUpdater::new(300);
    cycle(&mut dns, Exchange::Response(REPLY_1234), Exchange::Response(""));
    let (updates, sleeps) = cycle(&mut dns, Exchange::Response(REPLY_1234), Exchange::Failed);
    assert_eq!(updates, 0);
    assert_eq!(sleeps, vec![300]);
    assert_eq!(dns.last_ip, Some(ip(1, 2, 3, 4)));
}

#[test]
fn a_changed_address_is_sent_and_replaces_the_stored_one() {
    let mut dns = DnsUpdater::new(60);
    cycle(&mut dns, Exchange::Response(REPLY_1234), Exchange::Response(""));
    let (updates, sleeps) = cycle(&mut dns, Exchange::Response(REPLY_1235), Exchange::Response("ok"));
    assert_eq!(updates, 1);
    assert_eq!(sleeps, vec![60]);
    assert_eq!(dns.last_ip, Some(ip(1, 2, 3, 5)));
}

#[test]
fn an_empty_response_of_the_provider_counts_as_an_update() {
    let mut dns = DnsUpdater::new(60);
    let (updates, sleeps) = cycle(&mut dns, Exchange::Response(REPLY_1234), Exchange::Response(""));
    assert_eq!(updates, 1);
    assert_eq!(sleeps, vec![60]);
    assert_eq!(dns.last_ip, Some(ip(1, 2, 3, 4)));
}

#[test]
fn a_failed_update_keeps_the_old_address_and_retries_at_once() {
    let mut dns = DnsUpdater::new(60);
    let (updates, sleeps) = cycle(&mut dns, Exchange::Response(REPLY_1234), Exchange::Failed);
    assert_eq!(updates, 1);
    assert!(sleeps.is_empty());
    assert_eq!(dns.last_ip, None);
    cycle(&mut dns, Exchange::Response(REPLY_1234), Exchange::Response("ok"));
    let (updates, sleeps) = cycle(&mut dns, Exchange::Response(REPLY_1235), Exchange::Failed);
    assert_eq!(updates, 1);
    assert!(sleeps.is_empty());
    assert_eq!(dns.last_ip, Some(ip(1, 2, 3, 4)));
}

#[test]
fn a_response_of_the_provider_that_is_no_text_counts_as_an_update() {
    let mut dns = DnsUpdater::new(60);
    let (updates, sleeps) = cycle(&mut dns, Exchange::Response(REPLY_1234), Exchange::NotText);
    assert_eq!(updates, 1);
    assert_eq!(sleeps, vec![60]);
    assert_eq!(dns.last_ip, Some(ip(1, 2, 3, 4)));
    let (updates, sleeps) = cycle(&mut dns, Exchange::Response(REPLY_1235), finish_exchange(&[0xff, 0xfe]));
    assert_eq!(updates, 1);
    assert_eq!(sleeps, vec![60]);
    assert_eq!(dns.last_ip, Some(ip(1, 2, 3, 5)));
    let (updates, sleeps) = cycle(&mut dns, Exchange::Response(REPLY_1235), Exchange::NotText);
    assert_eq!(updates, 0);
    assert_eq!(sleeps, vec![60]);
}

#[test]
fn an_update_step_by_step_after_a_response_that_is_no_text() {
    let mut dns = DnsUpdater::new(7);
    dns.network_ready();
    assert_eq!(dns.public_ip_fetched(Exchange::Response("4.3.2.1")), DnsAction::UpdateRecord);
    assert_eq!(dns.update_sent(Exchange::NotText), DnsAction::Sleep { seconds: 7 });
    assert_eq!(dns.phase, DnsPhase::Sleeping);
    assert_eq!(dns.last_ip, Some(ip(4, 3, 2, 1)));
}

#[test]
fn a_failed_fetch_restarts_the_cycle_without_sleeping() {
    for exchange in [
        Exchange::Failed,
        Exchange::NotText,
        Exchange::Response(""),
        Exchange::Response("HTTP/1.1 500\r\n\r\noops"),
        Exchange::Response("HTTP/1.1 200 OK\r\n\r\n1.2.3"),
        Exchange::Response("HTTP/1.1 200 OK\r\n\r\n1.2.3.4\n"),
    ] {
        let mut dns = DnsUpdater::new(60);
        let (updates, sleeps) = cycle(&mut dns, exchange, Exchange::Response("ok"));
        assert_eq!(updates, 0);
        assert!(sleeps.is_empty());
        assert_eq!(dns.last_ip, None);
        assert_eq!(dns.phase, DnsPhase::WaitingForNetwork);
    }
}

#[test]
fn the_updater_remembers_the_candidate_while_updating() {
    let mut dns = DnsUpdater::new(5);
    dns.network_ready();
    assert_eq!(dns.phase, DnsPhase::FetchingPublicIp);
    assert_eq!(dns.public_ip_fetched(Exchange::Response("9.8.7.6")), DnsAction::UpdateRecord);
    assert_eq!(dns.phase, DnsPhase::Updating { candidate: ip(9, 8, 7, 6) });
    assert_eq!(dns.last_ip, None);
    assert_eq!(dns.update_sent(Exchange::Response("x")), DnsAction::Sleep { seconds: 5 });
    assert_eq!(dns.phase, DnsPhase::Sleeping);
    assert_eq!(dns.last_ip, Some(ip(9, 8, 7, 6)));
    assert_eq!(dns.woke_up(), DnsAction::WaitForNetwork);
    assert_eq!(dns.delay_seconds, 5);
}

#[test]
fn the_address_is_read_behind_the_first_empty_line() {
    assert_eq!(read_public_ip(REPLY_1234), Some(ip(1, 2, 3, 4)));
    assert_eq!(read_public_ip("\r\n\r\n10.0.0.1"), Some(ip(10, 0, 0, 1)));
    assert_eq!(read_public_ip("h\r\n\r\n1.2.3.4\r\n\r\n5.6.7.8"), None);
    assert_eq!(read_public_ip("h\r\n\r\n"), None);
    assert_eq!(read_public_ip("h\n\n1.2.3.4"), None);
}

#[test]
fn a_response_without_an_empty_line_is_all_body() {
    assert_eq!(read_public_ip("1.2.3.4"), Some(ip(1, 2, 3, 4)));
    assert_eq!(read_public_ip("HTTP/1.1 200 OK\r\n1.2.3.4"), None);
}

#[test]
fn the_check_interval_falls_back_to_a_minute() {
    assert_eq!(get_dns_check_delay("300"), 300);
    assert_eq!(get_dns_check_delay("0"), 0);
    assert_eq!(get_dns_check_delay("18446744073709551615"), u64::MAX);
    assert_eq!(get_dns_check_delay("18446744073709551616"), 60);
    assert_eq!(get_dns_check_delay(""), 60);
    assert_eq!(get_dns_check_delay("-5"), 60);
    assert_eq!(get_dns_check_delay("5s"), 60);
    assert_eq!(get_dns_check_delay(" 5"), 60);
    assert_eq!(get_dns_check_delay("1.5"), 60);
    assert_eq!(DNS_CHECK_DELAY_FALLBACK, 60);
}

#[test]
fn the_first_ipv4_address_of_the_answer_is_taken() {
    let answer = [ResolvedAddress::Other, ResolvedAddress::V4(ip(1, 1, 1, 1)), ResolvedAddress::V4(ip(2, 2, 2, 2))];
    assert_eq!(get_dns_address(&answer), Some(Endpoint { addr: ip(1, 1, 1, 1), port: 80 }));
    assert_eq!(get_dns_address(&[ResolvedAddress::V4(ip(3, 3, 3, 3))]), Some(Endpoint { addr: ip(3, 3, 3, 3), port: 80 }));
}

#[test]
fn an_answer_without_ipv4_address_gives_no_endpoint() {
    assert_eq!(get_dns_address(&[]), None);
    assert_eq!(get_dns_address(&[ResolvedAddress::Other, ResolvedAddress::Other]), None);
}

#[test]
fn an_exchange_goes_through_its_stages() {
    assert_eq!(exchange_step(ExchangeStage::Resolve, true), ExchangeAction::Proceed(ExchangeStage::Connect));
    assert_eq!(exchange_step(ExchangeStage::Connect, true), ExchangeAction::Proceed(ExchangeStage::Write));
    assert_eq!(exchange_step(ExchangeStage::Write, true), ExchangeAction::Proceed(ExchangeStage::Read));
    assert_eq!(exchange_step(ExchangeStage::Read, true), ExchangeAction::Finish);
}

#[test]
fn a_failed_stage_ends_the_exchange() {
    assert_eq!(exchange_step(ExchangeStage::Resolve, false), ExchangeAction::Fail { abort: false });
    assert_eq!(exchange_step(ExchangeStage::Connect, false), ExchangeAction::Fail { abort: true });
    assert_eq!(exchange_step(ExchangeStage::Write, false), ExchangeAction::Fail { abort: true });
    assert_eq!(exchange_step(ExchangeStage::Read, false), ExchangeAction::Fail { abort: true });
}

#[test]
fn a_response_is_text_only_if_it_is_utf8() {
    match finish_exchange(b"HTTP/1.1 200 OK\r\n\r\n1.2.3.4") {
        Exchange::Response(text) => assert_eq!(text, "HTTP/1.1 200 OK\r\n\r\n1.2.3.4"),
        _ => panic!("the response is valid UTF-8"),
    }
    match finish_exchange(b"") {
        Exchange::Response(text) => assert_eq!(text, ""),
        _ => panic!("the empty response is valid UTF-8"),
    }
    assert!(matches!(finish_exchange(&[b'1', 0xff]), Exchange::NotText));
}
