use groundwork::forward::{
    Action, Direction, Event, ForwardError, Forwarder, ForwardingOutcome, Side,
};

fn collect(fwd: &mut Forwarder, events: Vec<Event>) -> (Vec<u8>, Vec<u8>, Vec<Action>) {
    let mut ab = Vec::new();
    let mut ba = Vec::new();
    let mut other = Vec::new();
    for e in events {
        match fwd.step(e) {
            Some(Action::Write(Direction::AToB, b)) => ab.extend(b),
            Some(Action::Write(Direction::BToA, b)) => ba.extend(b),
            Some(a) => other.push(a),
            None => {}
        }
    }
    (ab, ba, other)
}

fn chunks(data: &[u8], size: usize, d: Direction) -> Vec<Event> {
    data.chunks(size).map(|c| Event::Read(d, c.to_vec())).collect()
}

#[test]
fn round_trip_empty_payload() {
    let mut f = Forwarder::new();
    let (ab, ba, _) = collect(
        &mut f,
        vec![Event::Eof(Direction::AToB), Event::Eof(Direction::BToA)],
    );
    assert!(ab.is_empty() && ba.is_empty());
    assert_eq!(f.result, Some(Ok(ForwardingOutcome::Clean)));
}

#[test]
fn round_trip_larger_than_buffer() {
    let data: Vec<u8> = (0..20000u32).map(|i| (i * 31 % 251) as u8).collect();
    let mut f = Forwarder::new();
    let mut evs = chunks(&data, 8192, Direction::AToB);
    evs.push(Event::Eof(Direction::AToB));
    let echo = chunks(&data, 4096, Direction::BToA);
    evs.extend(echo);
    evs.push(Event::Eof(Direction::BToA));
    let (ab, ba, _) = collect(&mut f, evs);
    assert_eq!(ab, data);
    assert_eq!(ba, data);
    assert!(f.is_done());
    assert_eq!(f.result, Some(Ok(ForwardingOutcome::Clean)));
}

#[test]
fn half_close_keeps_other_direction() {
    let mut f = Forwarder::new();
    let (ab, ba, other) = collect(
        &mut f,
        vec![
            Event::Read(Direction::AToB, b"hello".to_vec()),
            Event::Eof(Direction::AToB),
            Event::Read(Direction::BToA, b"still".to_vec()),
            Event::Read(Direction::BToA, b" here".to_vec()),
        ],
    );
    assert_eq!(ab, b"hello".to_vec());
    assert_eq!(ba, b"still here".to_vec());
    assert!(matches!(other.as_slice(), [Action::ShutdownWrite(Direction::AToB)]));
    assert!(!f.is_done());
    assert!(f.b_to_a_open);
    assert!(!f.a_to_b_open);
    let r = f.step(Event::Eof(Direction::BToA));
    assert!(matches!(r, Some(Action::ShutdownWrite(Direction::BToA))));
    assert_eq!(f.result, Some(Ok(ForwardingOutcome::Clean)));
}

#[test]
fn error_closes_both_and_tags_side() {
    let mut f = Forwarder::new();
    let _ = f.step(Event::Read(Direction::AToB, vec![1, 2, 3]));
    let r = f.step(Event::Failed(Side::B));
    assert!(matches!(r, Some(Action::CloseBoth)));
    assert_eq!(f.result, Some(Err(ForwardError::Io(Side::B))));
    assert!(f.step(Event::Read(Direction::BToA, vec![9])).is_none());
    assert_eq!(f.result, Some(Err(ForwardError::Io(Side::B))));
}

#[test]
fn data_after_eof_is_not_written() {
    let mut f = Forwarder::new();
    let _ = f.step(Event::Eof(Direction::BToA));
    assert!(f.step(Event::Read(Direction::BToA, vec![5])).is_none());
    assert!(f.step(Event::Eof(Direction::BToA)).is_none());
    assert!(!f.is_done());
}

#[test]
fn two_hops_deliver_input_at_far_end() {
    let data: Vec<u8> = (0..30000u32).map(|i| (i % 256) as u8).collect();
    let mut near = Forwarder::new();
    let mut evs = chunks(&data, 1000, Direction::AToB);
    evs.push(Event::Eof(Direction::AToB));
    let (mid, _, _) = collect(&mut near, evs);
    let mut far = Forwarder::new();
    let mut evs2 = chunks(&mid, 16384, Direction::AToB);
    evs2.push(Event::Eof(Direction::AToB));
    let (out, _, _) = collect(&mut far, evs2);
    assert_eq!(out, data);
}

#[test]
fn concurrent_pairs_do_not_mix() {
    let payloads: Vec<Vec<u8>> = vec![vec![1u8; 10], vec![2u8; 9000], vec![3u8; 1]];
    let mut pairs: Vec<Forwarder> = payloads.iter().map(|_| Forwarder::new()).collect();
    let mut out: Vec<Vec<u8>> = vec![Vec::new(); payloads.len()];
    // interleave the chunks of all pairs
    for round in 0..10 {
        for (k, p) in payloads.iter().enumerate() {
            let chunk: Vec<u8> = p.chunks(1000).nth(round).map(|c| c.to_vec()).unwrap_or_default();
            if chunk.is_empty() {
                continue;
            }
            if let Some(Action::Write(Direction::AToB, b)) =
                pairs[k].step(Event::Read(Direction::AToB, chunk))
            {
                out[k].extend(b);
            }
        }
    }
    assert_eq!(out, payloads);
}
