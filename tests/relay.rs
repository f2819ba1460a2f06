use spi_bridge::relay::{start_cycle, BusFault, Cycle, Relay, RelayAction};
use spi_bridge::slave::echo_reply;

/// Runs a relay against a bus that answers the `n`-th exchange with
/// `bus(n, word)`; gives the words exchanged and the response.
fn drive(mut relay: Relay, bus: impl Fn(usize, u16) -> Result<u16, BusFault>) -> (Vec<u16>, Vec<u8>) {
    let mut sent = Vec::new();
    loop {
        match relay.action() {
            RelayAction::Exchange(w) => {
                let outcome = bus(sent.len(), w);
                sent.push(w);
                relay.on_exchange(outcome);
            }
            RelayAction::Respond(bytes) => return (sent, bytes),
        }
    }
}

fn run_frame(frame: &[u8], bus: impl Fn(usize, u16) -> Result<u16, BusFault>) -> (Vec<u16>, Vec<u8>) {
    match start_cycle(frame) {
        Cycle::Run(relay) => drive(relay, bus),
        Cycle::Respond(line) => (Vec::new(), line),
        Cycle::Idle => (Vec::new(), Vec::new()),
    }
}

#[test]
fn write_frame_sends_one_word_and_acknowledges() {
    let (sent, response) = run_frame(b"w\x01\x02", |_, _| Ok(0x5a5a));
    assert_eq!(sent, vec![0x0102]);
    assert_eq!(response, b"OOK\r\n".to_vec());
}

#[test]
fn read_frame_answers_with_what_the_bus_returned() {
    let (sent, response) = run_frame(b"r\x80\x00", |_, _| Ok(0x47c3));
    assert_eq!(sent, vec![0x8000]);
    assert_eq!(response, vec![b'O', 0x47, 0xc3]);
}

#[test]
fn invalid_mode_gets_a_diagnostic_and_no_exchange() {
    let (sent, response) = run_frame(b"x\x01\x02", |_, _| Ok(0));
    assert!(sent.is_empty());
    assert_eq!(response[0], b'E');
    let text = String::from_utf8(response.clone()).unwrap();
    assert!(text.contains("mode invalid"));
    assert!(text.contains("mode=120"));
    assert!(text.ends_with("\r\n"));
}

#[test]
fn lone_marker_is_ignored() {
    assert!(matches!(start_cycle(b"w"), Cycle::Idle));
    let (sent, response) = run_frame(b"w", |_, _| Ok(0));
    assert!(sent.is_empty());
    assert!(response.is_empty());
}

#[test]
fn even_frame_gets_a_count_diagnostic() {
    let (sent, response) = run_frame(b"w\x01\x02\x03", |_, _| Ok(0));
    assert!(sent.is_empty());
    assert_eq!(response, b"Ecount is invalid. count must be odd: count=4\r\n".to_vec());
}

#[test]
fn write_read_response_has_one_mark_and_two_bytes_per_word() {
    let frame = b"r\x00\x01\x00\x02\x00\x03";
    let (sent, response) = run_frame(frame, |n, w| Ok(w + 0x100 * (n as u16 + 1)));
    assert_eq!(sent, vec![0x0001, 0x0002, 0x0003]);
    assert_eq!(response.len(), 1 + 2 * 3);
    assert_eq!(response.len(), frame.len());
    assert_eq!(response, vec![b'O', 0x01, 0x01, 0x02, 0x02, 0x03, 0x03]);
}

#[test]
fn longest_write_read_frame() {
    let mut frame = vec![b'r'];
    for i in 0..127u16 {
        frame.extend_from_slice(&i.to_be_bytes());
    }
    assert_eq!(frame.len(), 255);
    let (sent, response) = run_frame(&frame, |_, w| Ok(!w));
    assert_eq!(sent.len(), 127);
    assert_eq!(response.len(), 255);
    assert_eq!(response[0], b'O');
    assert_eq!(&response[1..3], &[0xff, 0xff]);
    assert_eq!(&response[253..], &(!126u16).to_be_bytes());
}

#[test]
fn bus_fault_stops_the_remaining_words() {
    let (sent, response) =
        run_frame(b"r\x00\x01\x00\x02\x00\x03", |n, _| if n == 1 { Err(BusFault) } else { Ok(0) });
    assert_eq!(sent, vec![0x0001, 0x0002]);
    assert_eq!(response, b"Espi exchange error at word 1\r\n".to_vec());
}

#[test]
fn bus_fault_on_first_word_of_write_frame() {
    let (sent, response) = run_frame(b"w\x00\x01\x00\x02", |_, _| Err(BusFault));
    assert_eq!(sent.len(), 1);
    assert_eq!(response, b"Espi exchange error at word 0\r\n".to_vec());
}

#[test]
fn outcomes_after_a_fault_are_ignored() {
    let mut relay = match start_cycle(b"w\x00\x01\x00\x02") {
        Cycle::Run(relay) => relay,
        _ => panic!("frame refused"),
    };
    assert!(relay.is_pending());
    relay.on_exchange(Err(BusFault));
    assert!(!relay.is_pending());
    relay.on_exchange(Ok(7));
    assert!(!relay.is_pending());
    match relay.action() {
        RelayAction::Respond(bytes) => assert_eq!(bytes, b"Espi exchange error at word 0\r\n".to_vec()),
        RelayAction::Exchange(_) => panic!("exchange after a fault"),
    }
}

#[test]
fn write_frame_discards_the_replies() {
    let (sent, response) = run_frame(b"w\x12\x34\x56\x78", |_, _| Ok(0xdead));
    assert_eq!(sent, vec![0x1234, 0x5678]);
    assert_eq!(response, b"OOK\r\n".to_vec());
}

#[test]
fn echo_device_answers_with_the_next_word() {
    assert_eq!(echo_reply(0x00ab), 0x00ac);
    assert_eq!(echo_reply(0xffff), 0x0000);
    // the master's next exchange receives the echo of the word it sent before
    let (sent, response) = run_frame(b"r\x00\xab\x00\x00", |n, _| {
        if n == 0 { Ok(0) } else { Ok(echo_reply(0x00ab)) }
    });
    assert_eq!(sent, vec![0x00ab, 0x0000]);
    assert_eq!(response, vec![b'O', 0x00, 0x00, 0x00, 0xac]);
}
