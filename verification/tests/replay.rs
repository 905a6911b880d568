use serde_json::{Number, Value};
use std::collections::VecDeque;
use wschannel::channel::{RecvError, WebSocket};
use wschannel::frame::Frame;
use wschannel::protocol::JsonProtocol;

type Source = VecDeque<Result<Frame, tungstenite::Error>>;

fn channel() -> WebSocket<JsonProtocol> {
    WebSocket::connect(JsonProtocol, "ws://localhost/")
        .unwrap()
        .complete(Ok(()))
        .unwrap()
}

fn source(frames: Vec<Frame>) -> Source {
    frames.into_iter().map(Ok).collect()
}

fn frames_left(inbound: Source) -> Vec<Frame> {
    inbound.into_iter().map(|item| item.unwrap()).collect()
}

fn record(op: &str, id: u64) -> Value {
    let mut fields = serde_json::Map::new();
    fields.insert("op".to_string(), Value::String(op.to_string()));
    fields.insert("id".to_string(), Value::Number(Number::from(id)));
    Value::Object(fields)
}

#[test]
fn replay_of_keep_alives_then_data() {
    let mut inbound = source(vec![
        Frame::Ping(vec![]),
        Frame::Pong(vec![7]),
        Frame::Binary(b"{\"op\":\"pong\",\"id\":1}".to_vec()),
        Frame::Binary(b"garbage".to_vec()),
    ]);
    let result = channel().recv_replayed(&mut inbound);
    assert_eq!(result.unwrap(), record("pong", 1));
    assert_eq!(frames_left(inbound), vec![Frame::Binary(b"garbage".to_vec())]);
}

#[test]
fn replay_of_a_close_frame_first() {
    let mut inbound = source(vec![Frame::Close(None), Frame::Binary(b"1".to_vec())]);
    let result = channel().recv_replayed(&mut inbound);
    assert!(matches!(result, Err(RecvError::ConnectionClosed)));
    assert_eq!(inbound.len(), 1);
    assert!(matches!(inbound.front(), Some(Ok(Frame::Binary(_)))));
}

#[test]
fn replay_of_a_close_frame_behind_keep_alives() {
    let mut inbound =
        source(vec![Frame::Ping(vec![]), Frame::Close(Some((1001, "done".to_string())))]);
    let result = channel().recv_replayed(&mut inbound);
    assert!(matches!(result, Err(RecvError::ConnectionClosed)));
    assert!(inbound.is_empty());
}

#[test]
fn replay_of_nothing() {
    let mut inbound = Source::new();
    let result = channel().recv_replayed(&mut inbound);
    assert!(matches!(result, Err(RecvError::StreamEnded)));
    assert!(inbound.is_empty());
}

#[test]
fn replay_of_keep_alives_alone() {
    let mut inbound =
        source(vec![Frame::Ping(vec![]), Frame::Pong(vec![]), Frame::Ping(vec![1, 2])]);
    let result = channel().recv_replayed(&mut inbound);
    assert!(matches!(result, Err(RecvError::StreamEnded)));
    assert!(inbound.is_empty());
}

#[test]
fn replay_of_malformed_data_reads_no_further() {
    let mut inbound = source(vec![
        Frame::Ping(vec![]),
        Frame::Text("{\"op\": ".to_string()),
        Frame::Binary(b"{\"op\":\"pong\",\"id\":1}".to_vec()),
    ]);
    let result = channel().recv_replayed(&mut inbound);
    assert!(matches!(result, Err(RecvError::Decoding(_))));
    assert_eq!(
        frames_left(inbound),
        vec![Frame::Binary(b"{\"op\":\"pong\",\"id\":1}".to_vec())]
    );
}

#[test]
fn replay_of_a_read_failure() {
    let mut inbound = Source::new();
    inbound.push_back(Ok(Frame::Pong(vec![])));
    inbound.push_back(Err(tungstenite::Error::AttackAttempt));
    inbound.push_back(Ok(Frame::Text("1".to_string())));
    let result = channel().recv_replayed(&mut inbound);
    assert!(matches!(result, Err(RecvError::Transport(tungstenite::Error::AttackAttempt))));
    assert_eq!(inbound.len(), 1);
    assert!(matches!(inbound.front(), Some(Ok(Frame::Text(_)))));
}

#[test]
fn replay_continues_where_the_last_call_stopped() {
    let ws = channel();
    let mut inbound = source(vec![
        Frame::Text("1".to_string()),
        Frame::Ping(vec![]),
        Frame::Binary(b"2".to_vec()),
    ]);
    let first = ws.recv_replayed(&mut inbound);
    assert_eq!(first.unwrap(), Value::Number(Number::from(1u64)));
    assert_eq!(inbound.len(), 2);
    let second = ws.recv_replayed(&mut inbound);
    assert_eq!(second.unwrap(), Value::Number(Number::from(2u64)));
    assert!(inbound.is_empty());
    let third = ws.recv_replayed(&mut inbound);
    assert!(matches!(third, Err(RecvError::StreamEnded)));
}

#[test]
fn sent_value_comes_back_on_replay() {
    let ws = channel();
    let value = record("echo", 99);
    let frame = ws.send(&value).unwrap();
    let mut inbound = source(vec![Frame::Pong(vec![]), frame]);
    let result = ws.recv_replayed(&mut inbound);
    assert_eq!(result.unwrap(), value);
    assert!(inbound.is_empty());
}

#[test]
fn ping_then_pong_end_to_end() {
    let ws = channel();
    let frame = ws.send(&record("ping", 1)).unwrap();
    let payload = match &frame {
        Frame::Binary(data) => data.clone(),
        Frame::Text(text) => text.as_bytes().to_vec(),
        _ => panic!("a value is sent as a data frame"),
    };
    let on_wire: Value = serde_json::from_slice(&payload).unwrap();
    assert_eq!(on_wire, record("ping", 1));
    assert_eq!(on_wire, serde_json::from_str::<Value>("{\"op\":\"ping\",\"id\":1}").unwrap());

    let mut inbound = source(vec![Frame::Text("{\"op\":\"pong\",\"id\":1}".to_string())]);
    let result = ws.recv_replayed(&mut inbound);
    assert_eq!(result.unwrap(), record("pong", 1));
    assert!(inbound.is_empty());
}
