use yeelight::codec::{encode_request, join_commas, quote, render_i64, render_u64, ParamList};
use yeelight::vocab::{AdjustAction, CfAction, Class, FlowMode, MusicAction, Power, Prop, Property};

#[test]
fn decimal_rendering() {
    assert_eq!(render_u64(0), "0");
    assert_eq!(render_u64(500), "500");
    assert_eq!(render_u64(u64::MAX), "18446744073709551615");
    assert_eq!(render_i64(-1), "-1");
    assert_eq!(render_i64(0), "0");
    assert_eq!(render_i64(i64::MIN), "-9223372036854775808");
}

#[test]
fn quoting_and_joining() {
    assert_eq!(quote("on"), "\"on\"");
    assert_eq!(quote(""), "\"\"");
    assert_eq!(join_commas(&vec![]), "");
    assert_eq!(join_commas(&vec!["a".to_string()]), "a");
    assert_eq!(join_commas(&vec!["a".to_string(), "".to_string(), "c".to_string()]), "a,,c");
}

#[test]
fn request_line_shape() {
    assert_eq!(
        encode_request(1, "set_power", "\"on\",\"smooth\",500,0"),
        "{\"id\":1,\"method\":\"set_power\",\"params\":[\"on\",\"smooth\",500,0]}\r\n"
    );
    assert_eq!(
        encode_request(42, "toggle", ""),
        "{\"id\":42,\"method\":\"toggle\",\"params\":[]}\r\n"
    );
}

#[test]
fn param_list() {
    let mut p = ParamList::new();
    assert_eq!(p.render(), "");
    p.push_text("living room");
    p.push_u64(7);
    p.push_i64(-20);
    p.push_raw(MusicAction::On.to_string());
    assert_eq!(p.render(), "\"living room\",7,-20,1");
}

#[test]
fn vocabulary_texts() {
    assert_eq!(Power::Off.to_string(), "\"off\"");
    assert_eq!(Property::BgColorMode.to_string(), "\"bg_lmode\"");
    assert_eq!(Property::NightLightBright.to_string(), "\"nl_br\"");
    assert_eq!(Class::AutoDelayOff.to_string(), "\"auto_delay_off\"");
    assert_eq!(Prop::Color.to_string(), "\"color\"");
    assert_eq!(AdjustAction::Circle.to_string(), "\"circle\"");
    assert_eq!(CfAction::Off.to_string(), "2");
    assert_eq!(FlowMode::Sleep.to_string(), "7");
}
