use yeelight::flow::{FlowExpresion, FlowTuple, Properties};
use yeelight::vocab::{FlowMode, Property};

#[test]
fn tuple_constructors() {
    let t = FlowTuple::rgb(1000, 0xff_00_00, 100);
    assert_eq!(t, FlowTuple::new(1000, FlowMode::Color, 0xff0000, 100));
    let c = FlowTuple::ct(500, 2700, 50);
    assert_eq!((c.mode, c.value, c.brightness), (FlowMode::CT, 2700, 50));
    let s = FlowTuple::sleep(250);
    assert_eq!((s.duration, s.mode, s.value, s.brightness), (250, FlowMode::Sleep, 0, -1));
}

#[test]
fn tuple_text() {
    assert_eq!(FlowTuple::rgb(1000, 16711680, 100).to_string(), "1000,1,16711680,100");
    assert_eq!(FlowTuple::sleep(500).to_string(), "500,7,0,-1");
}

#[test]
fn flow_text() {
    let police = FlowExpresion(vec![
        FlowTuple::rgb(1000, 0xff_00_00, 100),
        FlowTuple::rgb(1000, 0x00_00_ff, 100),
    ]);
    assert_eq!(police.stringify(), "\"1000,1,16711680,100,1000,1,255,100\"");
    assert_eq!(FlowExpresion(vec![]).stringify(), "\"\"");
}

#[test]
fn properties_text() {
    let props = Properties(vec![Property::Name, Property::Power, Property::Bright]);
    assert_eq!(props.stringify(), "\"name\",\"power\",\"bright\"");
    assert_eq!(Properties(vec![]).stringify(), "");
}

#[test]
fn flow_from_text() {
    let f = FlowExpresion::from_str("1000,1,16711680,100,500,sleep,0,-1").unwrap();
    assert_eq!(f.0, vec![FlowTuple::rgb(1000, 16711680, 100), FlowTuple::sleep(500)]);
    let g = FlowExpresion::from_str("10,CT,2700,5,7,Color").unwrap();
    assert_eq!(g.0, vec![FlowTuple::ct(10, 2700, 5)]);
    assert_eq!(FlowExpresion::from_str("").unwrap().0, vec![]);
    let h = FlowExpresion::from_str("+3,2,4000,+9").unwrap();
    assert_eq!(h.0, vec![FlowTuple::ct(3, 4000, 9)]);
}

#[test]
fn flow_from_text_errors() {
    let e = FlowExpresion::from_str("1000,9,0,100").unwrap_err();
    assert_eq!(
        e.to_string(),
        "Could not parse FlowMode: 9\nvalid values: 1 (Color), 2(CT), 7(Sleep)"
    );
    let d = FlowExpresion::from_str("x,1,0,100").unwrap_err();
    assert_eq!(d.to_string(), "invalid digit found in string");
    let b = FlowExpresion::from_str("1,1,0,200").unwrap_err();
    assert_eq!(b.to_string(), "number too large to fit in target type");
    let v = FlowExpresion::from_str("1,1,,100").unwrap_err();
    assert_eq!(v.to_string(), "cannot parse integer from empty string");
}

#[test]
fn flow_mode_names() {
    assert_eq!(FlowMode::from_text("COLOR"), Some(FlowMode::Color));
    assert_eq!(FlowMode::from_text("ct"), Some(FlowMode::CT));
    assert_eq!(FlowMode::from_text("7"), Some(FlowMode::Sleep));
    assert_eq!(FlowMode::from_text("3"), None);
}
