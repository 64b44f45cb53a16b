use nu_plugin_nnm::decode::{DecodedCode, Ipv4Addr, NMFlags, ValFromU32};
use nu_plugin_nnm::value::ReportValue;

/// A domain of three enumerators, as a service might define one.
struct Connectivity;

impl NMFlags for Connectivity {
    fn label(raw: u32) -> Option<String> {
        match raw {
            0 => Some("UNKNOWN".to_string()),
            1 => Some("NONE".to_string()),
            4 => Some("FULL".to_string()),
            _ => None,
        }
    }
}

/// A domain that names nothing.
struct Nameless;

impl NMFlags for Nameless {
    fn label(_raw: u32) -> Option<String> {
        None
    }
}

#[test]
fn known_code_reads_as_its_label() {
    assert_eq!(
        Connectivity::from_u32_to_str_val(4),
        ReportValue::Text("FULL".to_string())
    );
    assert_eq!(
        Connectivity::from_u32_to_str_val(0),
        ReportValue::Text("UNKNOWN".to_string())
    );
}

#[test]
fn unknown_code_reads_as_the_raw_integer() {
    assert_eq!(Connectivity::from_u32_to_str_val(3), ReportValue::Integer(3));
    assert_eq!(
        Connectivity::from_u32_to_str_val(u32::MAX),
        ReportValue::Integer(4294967295)
    );
    assert_eq!(Nameless::from_u32_to_str_val(0), ReportValue::Integer(0));
}

#[test]
fn bit_combination_without_a_name_passes_through() {
    // 1 and 4 are named, their combination 5 is not.
    assert_eq!(Connectivity::from_u32_to_str_val(5), ReportValue::Integer(5));
}

#[test]
fn lookup_keeps_the_raw_code() {
    let named = DecodedCode::lookup::<Connectivity>(1);
    assert_eq!(named.raw, 1);
    assert_eq!(named.label, Some("NONE".to_string()));
    let unnamed = DecodedCode::lookup::<Connectivity>(2);
    assert_eq!(unnamed.raw, 2);
    assert_eq!(unnamed.label, None);
}

#[test]
fn decoded_code_to_value_prefers_the_label() {
    let named = DecodedCode { raw: 70, label: Some("ACTIVATED".to_string()) };
    assert_eq!(named.to_value(), ReportValue::Text("ACTIVATED".to_string()));
    let unnamed = DecodedCode { raw: 70, label: None };
    assert_eq!(unnamed.to_value(), ReportValue::Integer(70));
}

#[test]
fn address_reads_as_dotted_quad() {
    assert_eq!(
        Ipv4Addr::from_u32_to_str_val(0xC0A8_0001),
        ReportValue::Text("192.168.0.1".to_string())
    );
    assert_eq!(
        Ipv4Addr::from_u32_to_str_val(0x0A00_0064),
        ReportValue::Text("10.0.0.100".to_string())
    );
}

#[test]
fn address_extremes() {
    assert_eq!(Ipv4Addr::from_bits(0).to_string(), "0.0.0.0");
    assert_eq!(Ipv4Addr::from_bits(u32::MAX).to_string(), "255.255.255.255");
}

#[test]
fn address_bytes_come_most_significant_first() {
    assert_eq!(Ipv4Addr::from_bits(0x0102_0304).to_string(), "1.2.3.4");
    assert_eq!(Ipv4Addr::from_bits(0x7F00_0001).to_string(), "127.0.0.1");
    assert_eq!(Ipv4Addr::from_bits(0x0100_007F).to_string(), "1.0.0.127");
}

#[test]
fn address_digits_of_every_width() {
    // One, two and three digits, with zeros inside and at the end.
    assert_eq!(Ipv4Addr::from_bits(0x0963_6DC8).to_string(), "9.99.109.200");
    assert_eq!(Ipv4Addr::from_bits(0x0A64_65FF).to_string(), "10.100.101.255");
}

#[test]
fn address_at_the_byte_borders() {
    assert_eq!(Ipv4Addr::from_bits(1).to_string(), "0.0.0.1");
    assert_eq!(Ipv4Addr::from_bits(255).to_string(), "0.0.0.255");
    assert_eq!(Ipv4Addr::from_bits(256).to_string(), "0.0.1.0");
    assert_eq!(Ipv4Addr::from_bits(65535).to_string(), "0.0.255.255");
    assert_eq!(Ipv4Addr::from_bits(65536).to_string(), "0.1.0.0");
    assert_eq!(Ipv4Addr::from_bits(0x00FF_FFFF).to_string(), "0.255.255.255");
    assert_eq!(Ipv4Addr::from_bits(0x0100_0000).to_string(), "1.0.0.0");
    assert_eq!(Ipv4Addr::from_bits(0xDEAD_BEEF).to_string(), "222.173.190.239");
}

#[test]
fn from_bits_keeps_the_bits() {
    assert_eq!(Ipv4Addr::from_bits(0xC0A8_0001).bits, 0xC0A8_0001);
}

#[test]
fn decoding_asks_the_domain_for_every_code() {
    for raw in 0..8u32 {
        let expected = match Connectivity::label(raw) {
            Some(name) => ReportValue::Text(name),
            None => ReportValue::Integer(raw as i64),
        };
        assert_eq!(Connectivity::from_u32_to_str_val(raw), expected);
        assert_eq!(DecodedCode::lookup::<Connectivity>(raw).label, Connectivity::label(raw));
    }
}
