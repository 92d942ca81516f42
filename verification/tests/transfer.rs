use connie::transfer::{
    packet_count, sender_packets, receiver_full_packets, send_step, receive_step, Packet,
    SendStep, ReceiveStep, MAX_TRANSFER,
};
use connie::framing::{vector_frame, read_vector_frame, frame_length, truncate_read};

const P: u64 = 65533;

#[test]
fn packet_count_is_ceiling() {
    assert_eq!(packet_count(0), 0);
    assert_eq!(packet_count(1), 1);
    assert_eq!(packet_count(P), 1);
    assert_eq!(packet_count(P + 1), 2);
    assert_eq!(packet_count(3 * P), 3);
    assert_eq!(packet_count(u64::MAX), 65535);
}

#[test]
fn sender_packets_small_and_exact() {
    assert!(sender_packets(0).is_empty());
    assert_eq!(sender_packets(10), vec![Packet::Last(10)]);
    assert_eq!(sender_packets(P), vec![Packet::Last(65533)]);
    assert_eq!(sender_packets(2 * P), vec![Packet::Full, Packet::Full]);
    assert_eq!(sender_packets(2 * P + 5), vec![Packet::Full, Packet::Full, Packet::Last(5)]);
}

#[test]
fn sender_packets_at_the_limit() {
    let pkts = sender_packets(MAX_TRANSFER);
    assert_eq!(pkts.len(), 65535);
    assert!(pkts.iter().all(|p| *p == Packet::Full));
}

#[test]
fn steps_follow_the_rules() {
    assert_eq!(send_step(1, 10, 0, 0), SendStep::Last(10));
    assert_eq!(send_step(3, 2 * P + 1, 0, 0), SendStep::Full);
    assert_eq!(send_step(3, 2 * P + 1, 2, 2 * P), SendStep::Last(1));
    assert_eq!(send_step(2, 2 * P, 2, 2 * P), SendStep::Done);
    assert_eq!(receive_step(3, 2 * P + 1, 0), ReceiveStep::Full);
    assert_eq!(receive_step(3, 2 * P + 1, 2), ReceiveStep::Last);
    assert_eq!(receive_step(2, 10, 0), ReceiveStep::Last);
}

fn receiver_takes(size: u64) -> bool {
    let tol = packet_count(size);
    let k = receiver_full_packets(tol, size) as usize;
    let pkts = sender_packets(size);
    pkts.len() == k + 1
        && pkts[..k].iter().all(|p| *p == Packet::Full)
        && matches!(pkts[k], Packet::Last(_))
}

#[test]
fn transfer_law_on_concrete_sizes() {
    assert!(receiver_takes(1));
    assert!(receiver_takes(P));
    assert!(receiver_takes(P + 1));
    assert!(receiver_takes(5 * P + 77));
    assert!(!receiver_takes(0));
    assert!(!receiver_takes(2 * P));
    assert!(!receiver_takes(7 * P));
    assert_eq!(receiver_full_packets(6, 5 * P + 77), 5);
}

#[test]
fn vector_frames_round_trip() {
    let payload = vec![7u8, 8, 9];
    let mut f = vector_frame(&payload);
    assert_eq!(f, vec![0, 3, 7, 8, 9]);
    f.push(42);
    assert_eq!(read_vector_frame(&f), Some(payload));
    let long = vec![1u8; 300];
    let lf = vector_frame(&long);
    assert_eq!(&lf[..2], &[1, 44]);
    assert_eq!(read_vector_frame(&lf).unwrap().len(), 300);
    assert_eq!(read_vector_frame(&vec![0, 5, 1]), None);
    assert_eq!(read_vector_frame(&vec![0]), None);
    assert_eq!(frame_length(1, 44), 300);
    assert_eq!(truncate_read(vec![1, 2, 3, 4], 2), vec![1, 2]);
}
