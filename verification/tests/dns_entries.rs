use token_info::dns::{
    decimal_text, format_ip_record, format_mx_record, get_dns_entries, DnsAnswer, IpRecord,
    MxRecord,
};

#[test]
fn numbers_are_written_in_decimal() {
    assert_eq!(decimal_text(0), "0");
    assert_eq!(decimal_text(7), "7");
    assert_eq!(decimal_text(10), "10");
    assert_eq!(decimal_text(905), "905");
    assert_eq!(decimal_text(65535), "65535");
}

#[test]
fn address_records_are_described() {
    assert_eq!(
        format_ip_record(&IpRecord::V4("93.184.216.34".to_string())),
        "A Record: IPv4: 93.184.216.34"
    );
    assert_eq!(
        format_ip_record(&IpRecord::V6("2606:2800:220:1::1".to_string())),
        "AAAA Record: IPv6: 2606:2800:220:1::1"
    );
}

#[test]
fn mail_exchange_records_are_described() {
    let record = MxRecord { preference: 10, exchange: "mail.example.com.".to_string() };
    assert_eq!(
        format_mx_record(&record),
        "MX Record: Preference: 10, Exchange: mail.example.com."
    );
}

#[test]
fn entries_follow_the_records() {
    let answer = DnsAnswer {
        addresses: Some(vec![
            IpRecord::V4("1.2.3.4".to_string()),
            IpRecord::V6("::1".to_string()),
            IpRecord::V4("5.6.7.8".to_string()),
        ]),
        exchanges: Some(vec![
            MxRecord { preference: 20, exchange: "b.example.com.".to_string() },
            MxRecord { preference: 0, exchange: "a.example.com.".to_string() },
        ]),
    };
    assert_eq!(
        get_dns_entries(&answer),
        vec![
            "A Record: IPv4: 1.2.3.4",
            "AAAA Record: IPv6: ::1",
            "A Record: IPv4: 5.6.7.8",
            "MX Record: Preference: 20, Exchange: b.example.com.",
            "MX Record: Preference: 0, Exchange: a.example.com.",
        ]
    );
}

#[test]
fn failed_lookups_add_no_entry() {
    let none = DnsAnswer { addresses: None, exchanges: None };
    assert!(get_dns_entries(&none).is_empty());
    let only_mx = DnsAnswer {
        addresses: None,
        exchanges: Some(vec![MxRecord { preference: 1, exchange: "mx.".to_string() }]),
    };
    assert_eq!(get_dns_entries(&only_mx), vec!["MX Record: Preference: 1, Exchange: mx."]);
    let empty = DnsAnswer { addresses: Some(vec![]), exchanges: Some(vec![]) };
    assert!(get_dns_entries(&empty).is_empty());
}
