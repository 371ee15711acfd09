use kvm_link::framing::{encode_frame, encode_frames, frame_message, FrameReader};
use kvm_link::wire::ChannelMessage;

#[test]
fn frames_survive_one_byte_chunks() {
    let m1: Vec<u8> = vec![10, 11, 12];
    let m2: Vec<u8> = vec![];
    let m3: Vec<u8> = vec![30; 40];
    let mut stream = Vec::new();
    for m in [&m1, &m2, &m3] {
        stream.extend(encode_frame(m).unwrap());
    }
    let mut reader = FrameReader::new();
    let mut got: Vec<Vec<u8>> = Vec::new();
    for b in &stream {
        got.extend(reader.push_bytes(&[*b]));
    }
    assert_eq!(got, vec![m1, m2, m3]);
}

#[test]
fn frames_survive_merged_and_split_chunks() {
    let m1: Vec<u8> = vec![1, 2];
    let m2: Vec<u8> = vec![3, 4, 5];
    let mut stream = encode_frame(&m1).unwrap();
    stream.extend(encode_frame(&m2).unwrap());
    let mut reader = FrameReader::new();
    assert_eq!(reader.push_bytes(&stream[..4]), vec![m1]);
    assert_eq!(reader.push_bytes(&stream[4..6]), Vec::<Vec<u8>>::new());
    assert_eq!(reader.push_bytes(&stream[6..]), vec![m2]);
}

#[test]
fn prefix_is_the_length() {
    assert_eq!(encode_frame(&[7, 8, 9]), Some(vec![3u8, 7, 8, 9]));
    assert_eq!(encode_frame(&[0u8; 255]).unwrap().len(), 256);
    assert_eq!(encode_frame(&[0u8; 256]), None);
    assert_eq!(frame_message(&ChannelMessage::ChangeDisplay), vec![1u8, 1]);
}

#[test]
fn series_of_frames_is_each_prefix_then_payload() {
    let ps: Vec<Vec<u8>> = vec![vec![1], vec![2, 3], vec![]];
    assert_eq!(encode_frames(&ps), Some(vec![1u8, 1, 2, 2, 3, 0]));
    assert_eq!(encode_frames(&vec![vec![1u8], vec![0u8; 256]]), None);
}

#[test]
fn chunking_does_not_change_what_is_received() {
    let ps: Vec<Vec<u8>> = vec![vec![5; 3], vec![6; 200], vec![7], vec![8; 255]];
    let stream = encode_frames(&ps).unwrap();
    let bytes: Vec<Vec<u8>> = stream.iter().map(|b| vec![*b]).collect();
    let uneven: Vec<Vec<u8>> = vec![
        stream[..2].to_vec(),
        stream[2..210].to_vec(),
        Vec::new(),
        stream[210..].to_vec(),
    ];
    let mut a = FrameReader::new();
    let mut b = FrameReader::new();
    assert_eq!(a.push_chunks(&bytes), ps);
    assert_eq!(b.push_chunks(&uneven), ps);
    assert_eq!(a.push_bytes(&[]), Vec::<Vec<u8>>::new());
}
