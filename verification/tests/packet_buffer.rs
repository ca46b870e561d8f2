use rns_tun::packet_buffer::PacketBuffer;
use rns_tun::MTU;

#[test]
fn round_trip_small_packet() {
    // Loopback double: write one packet into the interface buffer, read
    // it back, and it comes out exactly as it went in.
    let mut buffer = PacketBuffer::new();
    let packet = vec![0x45, 0x00, 0x01, 0x02, 0xff];
    buffer.store(&packet);
    assert_eq!(buffer.take_packet(), packet);
}

#[test]
fn round_trip_full_mtu_packet() {
    let mut buffer = PacketBuffer::new();
    let packet: Vec<u8> = (0..MTU).map(|i| (i % 251) as u8).collect();
    buffer.store(&packet);
    assert_eq!(buffer.take_packet(), packet);
}

#[test]
fn round_trip_empty_packet() {
    let mut buffer = PacketBuffer::new();
    buffer.store(&[]);
    assert_eq!(buffer.take_packet(), Vec::<u8>::new());
}

#[test]
fn stale_bytes_do_not_leak() {
    // A long packet followed by a short one: the read after the short
    // write must not hand out the long packet's tail.
    let mut buffer = PacketBuffer::new();
    buffer.store(&[0xee; 100]);
    buffer.store(&[1, 2, 3]);
    assert_eq!(buffer.take_packet(), vec![1, 2, 3]);
}

#[test]
fn fresh_buffer_holds_empty_packet() {
    let buffer = PacketBuffer::new();
    assert_eq!(buffer.take_packet(), Vec::<u8>::new());
}
