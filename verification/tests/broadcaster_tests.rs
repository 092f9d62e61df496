use cmdpiped::broadcaster::{keep_probed, Broadcaster, Client, LineSendError, LineSender};
use cmdpiped::frame::Frame;
use cmdpiped::HttpMode;

use tokio::sync::mpsc::Receiver;

fn recv_text(rx: &mut Receiver<Frame>) -> Vec<u8> {
    match rx.try_recv() {
        Ok(Frame::Text(b)) => b,
        Ok(Frame::Ping) => panic!("expected a text frame, got a ping"),
        Err(_) => panic!("expected a frame, the channel was empty or closed"),
    }
}

fn drained(rx: &mut Receiver<Frame>) -> bool {
    rx.try_recv().is_err()
}

fn receiver_of(client: Client) -> Receiver<Frame> {
    client.into_receiver()
}

#[test]
fn sse_client_gets_greeting_then_lines_in_order() {
    let mut b = Broadcaster::new(HttpMode::Sse);
    let client = b.new_sse_client();
    let mut rx = receiver_of(client);
    b.send(b"A");
    b.send(b"B");
    assert_eq!(recv_text(&mut rx), b"data: connected\n\n".to_vec());
    assert_eq!(recv_text(&mut rx), b"data: A\n\n".to_vec());
    assert_eq!(recv_text(&mut rx), b"data: B\n\n".to_vec());
    assert!(drained(&mut rx));
}

#[test]
fn ws_client_gets_raw_text_frame() {
    let mut b = Broadcaster::new(HttpMode::Ws);
    let client = b.add_ws_client();
    let mut rx = receiver_of(client);
    b.send(b"Hello from cmdpiped");
    assert_eq!(recv_text(&mut rx), b"Hello from cmdpiped".to_vec());
    assert!(drained(&mut rx));
}

#[test]
fn ws_client_gets_no_greeting() {
    let mut b = Broadcaster::new(HttpMode::Ws);
    let client = b.add_ws_client();
    let mut rx = receiver_of(client);
    assert!(drained(&mut rx));
}

#[test]
fn one_send_reaches_every_client_with_identical_bytes() {
    let mut b = Broadcaster::new(HttpMode::Sse);
    let mut rx1 = receiver_of(b.new_sse_client());
    let mut rx2 = receiver_of(b.new_sse_client());
    b.send(b"payload");
    let _ = recv_text(&mut rx1);
    let _ = recv_text(&mut rx2);
    let got1 = recv_text(&mut rx1);
    let got2 = recv_text(&mut rx2);
    assert_eq!(got1, got2);
    assert_eq!(got1, b"data: payload\n\n".to_vec());
}

#[test]
fn clients_len_counts_registrations() {
    let mut b = Broadcaster::new(HttpMode::Sse);
    assert_eq!(b.clients_len(), 0);
    let _rx1 = receiver_of(b.new_sse_client());
    let _rx2 = receiver_of(b.add_ws_client());
    assert_eq!(b.clients_len(), 2);
}

#[test]
fn prune_on_empty_registry_reports_empty() {
    let mut b = Broadcaster::new(HttpMode::Sse);
    let empty = b.remove_stale_clients();
    assert!(empty);
    assert_eq!(b.clients_len(), 0);
}

#[test]
fn prune_drops_failed_client_and_keeps_live_one() {
    let mut b = Broadcaster::new(HttpMode::Sse);
    let gone = b.new_sse_client();
    let mut live = receiver_of(b.new_sse_client());
    drop(gone);
    assert_eq!(b.clients_len(), 2);
    let empty = b.remove_stale_clients();
    assert!(!empty);
    assert_eq!(b.clients_len(), 1);
    assert_eq!(recv_text(&mut live), b"data: connected\n\n".to_vec());
    assert_eq!(recv_text(&mut live), b"data: ping\n\n".to_vec());
    assert!(drained(&mut live));
}

#[test]
fn prune_sends_protocol_ping_to_ws_client() {
    let mut b = Broadcaster::new(HttpMode::Ws);
    let mut rx = receiver_of(b.add_ws_client());
    let empty = b.remove_stale_clients();
    assert!(!empty);
    assert_eq!(b.clients_len(), 1);
    match rx.try_recv() {
        Ok(Frame::Ping) => {}
        _ => panic!("expected a protocol ping"),
    }
}

#[test]
fn prune_drops_disconnected_ws_client() {
    let mut b = Broadcaster::new(HttpMode::Ws);
    let gone = b.add_ws_client();
    drop(gone);
    let empty = b.remove_stale_clients();
    assert!(empty);
    assert_eq!(b.clients_len(), 0);
}

#[test]
fn peer_failure_never_blocks_delivery_to_others() {
    let mut b = Broadcaster::new(HttpMode::Sse);
    let gone = b.new_sse_client();
    let mut live = receiver_of(b.new_sse_client());
    drop(gone);
    b.send(b"still here");
    assert_eq!(recv_text(&mut live), b"data: connected\n\n".to_vec());
    assert_eq!(recv_text(&mut live), b"data: still here\n\n".to_vec());
    assert_eq!(b.clients_len(), 2);
}

#[test]
fn accepted_probe_keeps_the_handle() {
    let (tx, _rx) = tokio::sync::mpsc::channel::<Frame>(1);
    let mut kept: Vec<LineSender> = Vec::new();
    keep_probed(LineSender::Sse(tx), Ok(()), &mut kept);
    assert_eq!(kept.len(), 1);
}

#[test]
fn failed_probe_drops_the_handle() {
    let (tx1, _rx1) = tokio::sync::mpsc::channel::<Frame>(1);
    let (tx2, _rx2) = tokio::sync::mpsc::channel::<Frame>(1);
    let mut kept: Vec<LineSender> = Vec::new();
    keep_probed(LineSender::Ws(tx1), Err(LineSendError::Closed), &mut kept);
    assert_eq!(kept.len(), 0);
    keep_probed(LineSender::Sse(tx2), Err(LineSendError::Full), &mut kept);
    assert_eq!(kept.len(), 0);
}

#[test]
fn full_channel_drops_line_without_blocking_or_unregistering() {
    let mut b = Broadcaster::new(HttpMode::Sse);
    let mut rx = receiver_of(b.new_sse_client());
    for i in 0..99 {
        b.send(format!("line{}", i).as_bytes());
    }
    b.send(b"overflow");
    assert_eq!(b.clients_len(), 1);
    assert_eq!(recv_text(&mut rx), b"data: connected\n\n".to_vec());
    for i in 0..99 {
        let want = format!("data: line{}\n\n", i).into_bytes();
        assert_eq!(recv_text(&mut rx), want);
    }
    assert!(drained(&mut rx));
}
