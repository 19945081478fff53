use yeelight::codec::ParamList;
use yeelight::flow::Properties;
use yeelight::reader::{BulbError, Dispatch, Reader, WireMessage};
use yeelight::vocab::{Effect, Mode, Power, Property};
use yeelight::writer::{after_write, finish, AfterWrite, Writer};

fn set_power_params() -> String {
    let mut p = ParamList::new();
    p.push_raw(Power::On.to_string());
    p.push_raw(Effect::Smooth.to_string());
    p.push_u64(500);
    p.push_raw(Mode::Normal.to_string());
    p.render()
}

fn result(id: u64, values: &[&str]) -> WireMessage {
    WireMessage::Result {
        id,
        result: values.iter().map(|v| v.to_string()).collect(),
    }
}

fn notification() -> WireMessage {
    let mut params = serde_json::Map::new();
    params.insert("power".to_string(), serde_json::Value::String("on".to_string()));
    params.insert("bright".to_string(), serde_json::Value::String("10".to_string()));
    WireMessage::Notification { method: "props".to_string(), params }
}

#[test]
fn get_prop() {
    let expect = "{\"id\":1,\"method\":\"get_prop\",\"params\":[\"name\",\"power\"]}\r\n";
    let mut writer = Writer::new();
    let mut reader: Reader<u32, u32> = Reader::new();
    let prop = Properties(vec![Property::Name, Property::Power]);
    let req = writer.prepare("get_prop", &prop.stringify()).unwrap();
    assert_eq!(req.line, expect);
    assert!(req.expect_reply);
    assert!(reader.register(req.id, 7).is_ok());
    match reader.dispatch(result(1, &["bulb_name", "on"])) {
        Dispatch::Reply(7, Ok(properties)) => assert_eq!(properties, vec!["bulb_name", "on"]),
        _ => panic!("unexpected dispatch"),
    }
}

#[test]
fn get_prop_power_bright_in_order() {
    let mut writer = Writer::new();
    let mut reader: Reader<u32, u32> = Reader::new();
    let prop = Properties(vec![Property::Power, Property::Bright]);
    let req = writer.prepare("get_prop", &prop.stringify()).unwrap();
    assert_eq!(
        req.line,
        "{\"id\":1,\"method\":\"get_prop\",\"params\":[\"power\",\"bright\"]}\r\n"
    );
    reader.register(req.id, 1).unwrap();
    match reader.dispatch(result(1, &["on", "50"])) {
        Dispatch::Reply(1, Ok(values)) => assert_eq!(values, vec!["on", "50"]),
        _ => panic!("unexpected dispatch"),
    }
}

#[test]
fn set_power() {
    let expect = "{\"id\":1,\"method\":\"set_power\",\"params\":[\"on\",\"smooth\",500,0]}\r\n";
    let mut writer = Writer::new();
    let mut reader: Reader<u32, u32> = Reader::new();
    let req = writer.prepare("set_power", &set_power_params()).unwrap();
    assert_eq!(req.id, 1);
    assert_eq!(req.line, expect);
    reader.register(req.id, 3).unwrap();
    match reader.dispatch(result(1, &["ok"])) {
        Dispatch::Reply(3, Ok(properties)) => assert_eq!(properties, vec!["ok"]),
        _ => panic!("unexpected dispatch"),
    }
    assert!(!reader.is_pending(1));
}

#[test]
fn unsupported() {
    let expect = "{\"id\":1,\"method\":\"set_power\",\"params\":[\"on\",\"smooth\",500,0]}\r\n";
    let mut writer = Writer::new();
    let mut reader: Reader<u32, u32> = Reader::new();
    let req = writer.prepare("set_power", &set_power_params()).unwrap();
    assert_eq!(req.line, expect);
    reader.register(req.id, 1).unwrap();
    let msg = WireMessage::Error { id: 1, code: -1, message: "unsupported method".to_string() };
    match reader.dispatch(msg) {
        Dispatch::Reply(1, Err(error)) => {
            assert_eq!("Bulb response error: unsupported method (code -1)", error.to_string());
            if let BulbError::ErrResponse(code, message) = error {
                assert_eq!(code, -1);
                assert_eq!(message, "unsupported method");
            } else {
                panic!("unexpected error kind");
            }
        }
        _ => panic!("unexpected dispatch"),
    }
    assert!(!reader.is_pending(1));
    assert_eq!(reader.pending_count(), 0);
}

#[test]
fn no_response() {
    let expect = "{\"id\":1,\"method\":\"set_power\",\"params\":[\"on\",\"smooth\",500,0]}\r\n";
    let mut writer = Writer::new();
    let reader: Reader<u32, u32> = Reader::new();
    writer.set_get_response(true);
    writer.set_get_response(false);
    let req = writer.prepare("set_power", &set_power_params()).unwrap();
    assert_eq!(req.line, expect);
    assert!(!req.expect_reply);
    assert_eq!(reader.pending_count(), 0);
}

#[test]
fn notify() {
    let expect = "{\"id\":1,\"method\":\"set_power\",\"params\":[\"on\",\"smooth\",500,0]}\r\n";
    let mut writer = Writer::new();
    let mut reader: Reader<u32, &str> = Reader::new();
    assert!(reader.set_sink("receiver").is_none());
    let req = writer.prepare("set_power", &set_power_params()).unwrap();
    assert_eq!(req.line, expect);
    reader.register(req.id, 9).unwrap();
    match reader.dispatch(notification()) {
        Dispatch::Notify(n) => {
            assert_eq!(n.0.len(), 2);
            assert_eq!(n.0["power"], "on");
        }
        _ => panic!("notification not forwarded"),
    }
    assert_eq!(reader.sink(), Some(&"receiver"));
    assert!(reader.is_pending(1));
    match reader.dispatch(result(1, &["ok"])) {
        Dispatch::Reply(9, Ok(properties)) => assert_eq!(properties, vec!["ok"]),
        _ => panic!("unexpected dispatch"),
    }
}

#[test]
fn replies_in_any_order_reach_their_callers() {
    let mut writer = Writer::new();
    let mut reader: Reader<&str, u32> = Reader::new();
    let a = writer.prepare("get_prop", "\"power\"").unwrap();
    let b = writer.prepare("get_prop", "\"bright\"").unwrap();
    let c = writer.prepare("toggle", "").unwrap();
    reader.register(a.id, "a").unwrap();
    reader.register(b.id, "b").unwrap();
    reader.register(c.id, "c").unwrap();
    let order = [(c.id, "c"), (a.id, "a"), (b.id, "b")];
    for (id, who) in order {
        match reader.dispatch(result(id, &[who])) {
            Dispatch::Reply(h, Ok(v)) => {
                assert_eq!(h, who);
                assert_eq!(v, vec![who]);
            }
            _ => panic!("reply not matched"),
        }
    }
    assert_eq!(reader.pending_count(), 0);
}

#[test]
fn ids_increase_across_fire_and_forget() {
    let mut writer = Writer::new();
    let first = writer.prepare("toggle", "").unwrap();
    writer.set_get_response(false);
    let second = writer.prepare("toggle", "").unwrap();
    writer.set_get_response(true);
    let third = writer.prepare("toggle", "").unwrap();
    assert_eq!((first.id, second.id, third.id), (1, 2, 3));
    assert!(first.expect_reply && !second.expect_reply && third.expect_reply);
    assert_eq!(third.line, "{\"id\":3,\"method\":\"toggle\",\"params\":[]}\r\n");
}

#[test]
fn notification_between_request_and_reply() {
    let mut reader: Reader<u32, u32> = Reader::new();
    reader.set_sink(1);
    reader.register(5, 50).unwrap();
    assert!(matches!(reader.dispatch(notification()), Dispatch::Notify(_)));
    assert!(reader.is_pending(5));
    assert_eq!(reader.pending_count(), 1);
    assert!(matches!(reader.dispatch(result(5, &["ok"])), Dispatch::Reply(50, Ok(_))));
}

#[test]
fn sink_replacement_splits_stream() {
    let mut reader: Reader<u32, u32> = Reader::new();
    assert!(matches!(reader.dispatch(notification()), Dispatch::NoSink));
    assert_eq!(reader.set_sink(1), None);
    assert!(matches!(reader.dispatch(notification()), Dispatch::Notify(_)));
    assert_eq!(reader.sink(), Some(&1));
    assert_eq!(reader.set_sink(2), Some(1));
    assert!(matches!(reader.dispatch(notification()), Dispatch::Notify(_)));
    assert_eq!(reader.sink(), Some(&2));
}

#[test]
fn teardown_hands_out_every_pending_handle() {
    let mut reader: Reader<u32, u32> = Reader::new();
    reader.register(1, 10).unwrap();
    reader.register(2, 20).unwrap();
    reader.register(3, 30).unwrap();
    assert!(matches!(reader.dispatch(result(2, &["ok"])), Dispatch::Reply(20, _)));
    assert_eq!(reader.teardown(), vec![10, 30]);
    assert_eq!(reader.pending_count(), 0);
    assert!(reader.is_closed());
    assert_eq!(reader.register(4, 40), Err(40));
}

#[test]
fn unmatched_and_duplicate_ids() {
    let mut reader: Reader<u32, u32> = Reader::new();
    assert!(matches!(reader.dispatch(result(8, &["ok"])), Dispatch::Unmatched(8)));
    reader.register(8, 1).unwrap();
    assert_eq!(reader.register(8, 2), Err(2));
    assert_eq!(reader.cancel(8), Some(1));
    assert_eq!(reader.cancel(8), None);
    assert!(matches!(reader.dispatch(result(8, &["ok"])), Dispatch::Unmatched(8)));
}

#[test]
fn recv_error_text() {
    let (tx, rx) = tokio::sync::oneshot::channel::<u8>();
    drop(tx);
    let e = rx.blocking_recv().unwrap_err();
    assert_eq!(BulbError::Recv(e).to_string(), "channel closed");
}

#[test]
fn io_error_text() {
    let e = std::io::Error::new(std::io::ErrorKind::Other, "broken pipe");
    assert_eq!(BulbError::Io(e).to_string(), "broken pipe");
}

#[test]
fn error_conversions() {
    let io: BulbError = std::io::Error::new(std::io::ErrorKind::Other, "reset").into();
    assert!(matches!(io, BulbError::Io(_)));
    let (tx, rx) = tokio::sync::oneshot::channel::<u8>();
    drop(tx);
    let recv: BulbError = rx.blocking_recv().unwrap_err().into();
    assert!(matches!(recv, BulbError::Recv(_)));
}

#[test]
fn fire_and_forget_returns_none() {
    assert!(matches!(after_write(false, Ok(())), AfterWrite::Done(Ok(None))));
    assert!(matches!(after_write(true, Ok(())), AfterWrite::AwaitReply));
    let e = std::io::Error::new(std::io::ErrorKind::BrokenPipe, "gone");
    assert!(matches!(after_write(false, Err(e)), AfterWrite::Done(Err(BulbError::Io(_)))));
    let e = std::io::Error::new(std::io::ErrorKind::BrokenPipe, "gone");
    assert!(matches!(after_write(true, Err(e)), AfterWrite::Done(Err(BulbError::Io(_)))));
}

#[test]
fn awaited_outcomes() {
    assert_eq!(finish(Ok(Ok(vec!["ok".to_string()]))).unwrap(), Some(vec!["ok".to_string()]));
    let e = finish(Ok(Err(BulbError::ErrResponse(-1, "unsupported method".to_string()))));
    assert!(matches!(e, Err(BulbError::ErrResponse(-1, _))));
    let (tx, rx) = tokio::sync::oneshot::channel::<Result<Vec<String>, BulbError>>();
    drop(tx);
    assert!(matches!(finish(rx.blocking_recv()), Err(BulbError::Recv(_))));
}
