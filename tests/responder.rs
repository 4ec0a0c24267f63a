use tap_arp::ethertype::EtherType;
use tap_arp::responder::{
    build_reply, check_sent, fill_range, handle, swap_ranges, validate, FrameError, Outcome,
};

fn arp_request() -> Vec<u8> {
    let mut f = vec![0x00, 0x00, 0x08, 0x06];
    f.extend_from_slice(&[0xAA; 6]);
    f.extend_from_slice(&[0xBB; 6]);
    f.extend_from_slice(&[0x08, 0x06]);
    f.extend_from_slice(&[0x00, 0x01, 0x08, 0x00, 6, 4, 0x00, 0x01]);
    f.extend_from_slice(&[0xBB; 6]);
    f.extend_from_slice(&[10, 107, 1, 3]);
    f.extend_from_slice(&[0x00; 6]);
    f.extend_from_slice(&[10, 107, 1, 2]);
    f
}

fn frame_of(proto: [u8; 2], len: usize) -> Vec<u8> {
    let mut f: Vec<u8> = (0..len).map(|i| (i * 7 + 3) as u8).collect();
    f[2] = proto[0];
    f[3] = proto[1];
    f
}

#[test]
fn request_becomes_reply() {
    let mut f = arp_request();
    assert_eq!(f.len(), 46);
    assert_eq!(handle(&mut f, 46), Outcome::Reply(46));
    assert_eq!(&f[4..10], &[0xBB; 6]);
    assert_eq!(&f[10..16], &[0xAA; 6]);
    assert_eq!(&f[32..36], &[10, 107, 1, 2]);
    assert_eq!(&f[42..46], &[10, 107, 1, 3]);
    assert_eq!(&f[36..42], &[0xBB; 6]);
    assert_eq!(&f[26..32], &[0x02; 6]);
    assert_eq!(&f[0..4], &[0x00, 0x00, 0x08, 0x06]);
    assert_eq!(&f[16..26], &arp_request()[16..26]);
}

#[test]
fn reply_length_equals_request_length() {
    let mut f = arp_request();
    let out = handle(&mut f, 46);
    assert_eq!(out, Outcome::Reply(46));
    assert_eq!(check_sent(46, 46), Ok(()));
}

#[test]
fn long_arp_frame_keeps_its_tail() {
    let mut f = frame_of([0x08, 0x06], 80);
    let before = f.clone();
    assert_eq!(validate(&f, 60), Ok(EtherType::ARP));
    assert_eq!(handle(&mut f, 60), Outcome::Reply(60));
    assert_eq!(&f[46..], &before[46..]);
    assert_eq!(&f[26..32], &[before[45]; 6]);
    assert_eq!(&f[36..42], &before[26..32]);
    assert_eq!(&f[42..46], &before[32..36]);
    assert_eq!(&f[32..36], &before[42..46]);
    assert_eq!(&f[4..10], &before[10..16]);
    assert_eq!(&f[10..16], &before[4..10]);
    assert_eq!(&f[16..26], &before[16..26]);
}

#[test]
fn ipv6_is_ignored() {
    let mut f = frame_of([0x86, 0xDD], 60);
    let before = f.clone();
    assert_eq!(handle(&mut f, 60), Outcome::Ignored);
    assert_eq!(f, before);
}

#[test]
fn ipv4_is_observed_only() {
    let mut f = frame_of([0x08, 0x00], 60);
    let before = f.clone();
    assert_eq!(handle(&mut f, 60), Outcome::Observed(EtherType::IPv4));
    assert_eq!(f, before);
}

#[test]
fn other_protocol_is_observed_only() {
    let mut f = frame_of([0x12, 0x34], 4);
    let before = f.clone();
    assert_eq!(handle(&mut f, 4), Outcome::Observed(EtherType::Other(0x1234)));
    assert_eq!(f, before);
}

#[test]
fn validate_reports_each_violation() {
    let f = frame_of([0x08, 0x06], 46);
    assert_eq!(validate(&f, 47), Err(FrameError::SizeBeyondBuffer));
    assert_eq!(validate(&f, 3), Err(FrameError::MissingPrefix));
    assert_eq!(validate(&f, 0), Err(FrameError::MissingPrefix));
    assert_eq!(validate(&f, 45), Err(FrameError::ShortArp));
    assert_eq!(validate(&f, 4), Err(FrameError::ShortArp));
    assert_eq!(validate(&f, 46), Ok(EtherType::ARP));
    let g = frame_of([0x08, 0x00], 20);
    assert_eq!(validate(&g, 4), Ok(EtherType::IPv4));
    let h = frame_of([0x86, 0xDD], 10);
    assert_eq!(validate(&h, 10), Ok(EtherType::IPv6));
}

#[test]
fn short_send_is_reported() {
    assert_eq!(check_sent(46, 45), Err(FrameError::ShortSend));
    assert_eq!(check_sent(46, 47), Err(FrameError::ShortSend));
    assert_eq!(check_sent(60, 60), Ok(()));
}

#[test]
fn arbitrary_arp_frames_reply_with_full_size() {
    for seed in 0u32..200 {
        let len = 46 + (seed as usize % 40);
        let mut f: Vec<u8> = (0..len).map(|i| ((i as u32 * 31 + seed * 17) % 251) as u8).collect();
        f[2] = 0x08;
        f[3] = 0x06;
        let before = f.clone();
        assert_eq!(validate(&f, len), Ok(EtherType::ARP));
        assert_eq!(handle(&mut f, len), Outcome::Reply(len));
        assert_eq!(f.len(), before.len());
        assert_eq!(&f[26..32], &[before[45]; 6]);
    }
}

#[test]
fn swap_ranges_exchanges_blocks() {
    let mut v = vec![0, 1, 2, 3, 4, 5, 6, 7, 8];
    swap_ranges(&mut v, 1, 5, 3);
    assert_eq!(v, vec![0, 5, 6, 7, 4, 1, 2, 3, 8]);
    let mut w = vec![1, 2];
    swap_ranges(&mut w, 0, 1, 1);
    assert_eq!(w, vec![2, 1]);
}

#[test]
fn fill_range_sets_block() {
    let mut v = vec![1, 2, 3, 4, 5];
    fill_range(&mut v, 1, 3, 9);
    assert_eq!(v, vec![1, 9, 9, 9, 5]);
}

#[test]
fn build_reply_matches_handle() {
    let mut a = arp_request();
    let mut b = arp_request();
    build_reply(&mut a);
    handle(&mut b, 46);
    assert_eq!(a, b);
}
