use swf_audio::ByteSource;
use swf_audio::StreamTagDemuxer;
use swf_audio::stream_tag_reader;

/// Encodes a short-form tag record: code and body length packed into one
/// 16-bit little-endian word, then the body.
fn tag(code: u16, body: &[u8]) -> Vec<u8> {
    assert!(body.len() < 63);
    let word: u16 = code * 64 + body.len() as u16;
    let mut out = vec![(word % 256) as u8, (word / 256) as u8];
    out.extend_from_slice(body);
    out
}

/// Encodes a long-form tag record: the length marker 63 in the leading
/// word, the real length as a 32-bit little-endian word, then the body.
fn long_tag(code: u16, body: &[u8]) -> Vec<u8> {
    let word: u16 = code * 64 + 63;
    let mut out = vec![(word % 256) as u8, (word / 256) as u8];
    let n = body.len() as u32;
    out.push((n % 256) as u8);
    out.push((n / 256 % 256) as u8);
    out.push((n / 65536 % 256) as u8);
    out.push((n / 16777216) as u8);
    out.extend_from_slice(body);
    out
}

fn show_frame() -> Vec<u8> {
    tag(1, &[])
}

fn sound_block(body: &[u8]) -> Vec<u8> {
    tag(19, body)
}

fn drain(d: &mut StreamTagDemuxer) -> Vec<u8> {
    let mut out = vec![];
    while let Some(b) = d.next_byte() {
        out.push(b);
    }
    out
}

fn concat(parts: &[Vec<u8>]) -> Vec<u8> {
    let mut out = vec![];
    for p in parts {
        out.extend_from_slice(p);
    }
    out
}

#[test]
fn concatenation_of_blocks() {
    let data = concat(&[
        show_frame(),
        sound_block(&[0, 0, 0, 0, 0xAA, 0xBB]),
        show_frame(),
        sound_block(&[0, 0, 0, 0, 0xCC]),
    ]);
    let mut d = StreamTagDemuxer::new(data);
    assert_eq!(drain(&mut d), vec![0xAA, 0xBB, 0xCC]);
    assert_eq!(d.frame_count(), 2);
}

#[test]
fn concatenation_independent_of_show_frames() {
    let data = concat(&[
        sound_block(&[0, 0, 0, 0, 0xAA, 0xBB]),
        show_frame(),
        show_frame(),
        show_frame(),
        sound_block(&[0, 0, 0, 0, 0xCC]),
        show_frame(),
    ]);
    let mut d = StreamTagDemuxer::new(data);
    assert_eq!(drain(&mut d), vec![0xAA, 0xBB, 0xCC]);
    assert_eq!(d.frame_count(), 4);
}

#[test]
fn truncated_block_stops_silently() {
    let mut data = concat(&[
        show_frame(),
        sound_block(&[0, 0, 0, 0, 0xAA, 0xBB]),
        show_frame(),
    ]);
    // A streaming-sound block declaring ten body bytes, with only six
    // present: scanning must stop silently before it.
    let word: u16 = 19 * 64 + 10;
    data.push((word % 256) as u8);
    data.push((word / 256) as u8);
    data.extend_from_slice(&[0, 0, 0, 0, 0xEE, 0xFF]);
    let mut d = StreamTagDemuxer::new(data);
    assert_eq!(drain(&mut d), vec![0xAA, 0xBB]);
}

#[test]
fn empty_block_skipped_within_one_pull() {
    // A block of exactly the four-byte header contributes nothing, and the
    // very first pull already reaches the next block's bytes.
    let data = concat(&[sound_block(&[0, 0, 0, 0]), sound_block(&[0, 0, 0, 0, 0xDD])]);
    let mut d = StreamTagDemuxer::new(data);
    assert_eq!(d.next_byte(), Some(0xDD));
    assert_eq!(d.next_byte(), None);
}

#[test]
fn empty_container_is_exhausted() {
    let mut d = StreamTagDemuxer::new(vec![]);
    assert_eq!(d.next_byte(), None);
    assert_eq!(d.next_byte(), None);
    assert_eq!(d.next_byte(), None);
    assert_eq!(d.frame_count(), 0);
}

#[test]
fn other_tags_are_skipped() {
    let data = concat(&[
        tag(2, &[1, 2, 3]),
        sound_block(&[0, 0, 0, 0, 0x10]),
        tag(77, &[9, 9, 9, 9, 9, 9]),
        sound_block(&[0, 0, 0, 0, 0x20]),
        tag(0, &[]),
    ]);
    let mut d = StreamTagDemuxer::new(data);
    assert_eq!(drain(&mut d), vec![0x10, 0x20]);
    assert_eq!(d.frame_count(), 0);
}

#[test]
fn long_form_records_are_understood() {
    let mut body = vec![0, 0, 0, 0];
    for i in 0..70u8 {
        body.push(i);
    }
    let data = concat(&[
        long_tag(5, &[8; 80]),
        show_frame(),
        long_tag(19, &body),
        sound_block(&[0, 0, 0, 0, 0x33]),
    ]);
    let mut d = StreamTagDemuxer::new(data);
    let mut expected: Vec<u8> = (0..70u8).collect();
    expected.push(0x33);
    assert_eq!(drain(&mut d), expected);
    assert_eq!(d.frame_count(), 1);
}

#[test]
fn trailing_show_frames_are_counted() {
    let data = concat(&[sound_block(&[0, 0, 0, 0, 0x42]), show_frame(), show_frame()]);
    let mut d = StreamTagDemuxer::new(data);
    assert_eq!(drain(&mut d), vec![0x42]);
    assert_eq!(d.frame_count(), 2);
}

#[test]
fn block_shorter_than_header_stops_scanning() {
    let data = concat(&[sound_block(&[7, 7]), sound_block(&[0, 0, 0, 0, 0x55])]);
    let mut d = StreamTagDemuxer::new(data);
    assert_eq!(drain(&mut d), vec![]);
}

#[test]
fn half_a_header_is_exhaustion() {
    let data = concat(&[sound_block(&[0, 0, 0, 0, 0x61]), vec![0x99]]);
    let mut d = StreamTagDemuxer::new(data);
    assert_eq!(drain(&mut d), vec![0x61]);
    assert_eq!(d.next_byte(), None);
}

#[test]
fn reader_over_container() {
    let data = concat(&[
        show_frame(),
        sound_block(&[0, 0, 0, 0, 1, 2, 3]),
        sound_block(&[0, 0, 0, 0, 4]),
    ]);
    let mut r = stream_tag_reader(data);
    let mut buf = vec![0u8; 10];
    let n = r.read(&mut buf);
    assert_eq!(n, 4);
    assert_eq!(&buf[..4], &[1, 2, 3, 4]);
    assert_eq!(r.read(&mut buf), 0);
}
