use atmoweb_tui::atmoweb::{
    format_fixed, query_string, query_url, reply_is_nonblank, setpoint_query, status_url, wrap_reply,
};
use atmoweb_tui::atmoweb::{reading_name, setpoint_name, Reading};
use atmoweb_tui::tui::app::Setpoint;

#[test]
fn reply_framing() {
    assert_eq!(wrap_reply("\"Temp1Read\":22.5,\r\n"), "{\"Temp1Read\":22.5}");
    assert_eq!(wrap_reply("  \t\"A\":1,,\n"), "{\"A\":1}");
    assert_eq!(wrap_reply("\"A\":1 , "), "{\"A\":1 }");
    assert_eq!(wrap_reply("   "), "{}");
    assert_eq!(wrap_reply(""), "{}");
    assert_eq!(wrap_reply("\u{3000}x\u{a0}"), "{x}");
}

#[test]
fn reply_blankness() {
    assert!(!reply_is_nonblank(""));
    assert!(!reply_is_nonblank(" \n\t\u{2003}"));
    assert!(reply_is_nonblank(" 1 "));
}

#[test]
fn queries_and_urls() {
    assert_eq!(query_string(&[("Temp1Read", None)]), "Temp1Read=");
    assert_eq!(query_string(&[("TempSet", Some("20.5")), ("FanSet", None)]), "TempSet=20.5&FanSet=");
    assert_eq!(query_string(&[]), "");
    assert_eq!(query_url("192.168.1.22", "Temp1Read="), "http://192.168.1.22/atmoweb?Temp1Read=");
    assert_eq!(status_url("192.168.1.22"), "http://192.168.1.22/atmoweb?SN=");
}

#[test]
fn fixed_point_text() {
    assert_eq!(format_fixed(20_500), "20.5");
    assert_eq!(format_fixed(100_000), "100");
    assert_eq!(format_fixed(0), "0");
    assert_eq!(format_fixed(-2_000), "-2");
    assert_eq!(format_fixed(-250), "-0.25");
    assert_eq!(format_fixed(1_005), "1.005");
    assert_eq!(format_fixed(7), "0.007");
    assert_eq!(format_fixed(i64::MIN), "-9223372036854775.808");
    assert_eq!(setpoint_query(Setpoint::Temp(20_500)), "TempSet=20.5");
    assert_eq!(setpoint_query(Setpoint::Flap(50_000)), "FlapSet=50");
    assert_eq!(setpoint_query(Setpoint::Fan(1_000)), "FanSet=1");
}

#[test]
fn parameter_names() {
    assert_eq!(setpoint_name(Setpoint::Temp(0)), "TempSet");
    assert_eq!(setpoint_name(Setpoint::Flap(0)), "FlapSet");
    assert_eq!(setpoint_name(Setpoint::Fan(0)), "FanSet");
    assert_eq!(reading_name(Reading::Temp1), "Temp1Read");
    assert_eq!(reading_name(Reading::SetTemp), "TempSet");
    assert_eq!(reading_name(Reading::Flap), "FlapSet");
    assert_eq!(reading_name(Reading::Fan), "FanRead");
}

#[test]
fn white_space_is_unicode_white_space() {
    let listed = |c: char| {
        matches!(c as u32,
            0x09..=0x0d | 0x20 | 0x85 | 0xa0 | 0x1680 | 0x2000..=0x200a
            | 0x2028 | 0x2029 | 0x202f | 0x205f | 0x3000)
    };
    let mut count = 0;
    for c in (0u32..=0x10ffff).filter_map(char::from_u32) {
        assert_eq!(c.is_whitespace(), listed(c));
        let mut buf = [0u8; 4];
        assert_eq!(reply_is_nonblank(c.encode_utf8(&mut buf)), !listed(c));
        if listed(c) {
            count += 1;
        }
    }
    assert_eq!(count, 25);
}
