use kvm_link::ring::SampleRing;

#[test]
fn overflow_keeps_the_oldest_samples() {
    let mut ring = SampleRing::new(4);
    assert_eq!(ring.push_slice(&[1, 2, 3]), 3);
    assert_eq!(ring.push_slice(&[4, 5, 6]), 1);
    assert_eq!(ring.push_slice(&[7]), 0);
    assert_eq!(ring.len(), 4);
    assert_eq!(ring.capacity(), 4);
    let mut out = vec![0u32; 6];
    assert_eq!(ring.pop_slice(&mut out), 4);
    assert_eq!(out, vec![1, 2, 3, 4, 0, 0]);
    assert!(ring.is_empty());
}

#[test]
fn popping_an_empty_ring_reads_nothing() {
    let mut ring = SampleRing::new(8);
    let mut out = vec![9u32; 3];
    assert_eq!(ring.pop_slice(&mut out), 0);
    assert_eq!(out, vec![9, 9, 9]);
}

#[test]
fn underrun_pull_is_all_silence() {
    let mut ring = SampleRing::new(16);
    assert_eq!(ring.pull_playback(10), vec![0u32; 10]);
}

#[test]
fn short_pull_is_padded_with_silence() {
    let mut ring = SampleRing::new(16);
    ring.push_slice(&[7, 8]);
    assert_eq!(ring.pull_playback(4), vec![7, 8, 0, 0]);
    assert!(ring.is_empty());
}

#[test]
fn frames_leave_only_whole() {
    let mut ring = SampleRing::new(16);
    ring.push_slice(&[1, 2, 3]);
    assert_eq!(ring.take_frame(4), None);
    assert_eq!(ring.len(), 3);
    ring.push_slice(&[4, 5]);
    assert_eq!(ring.take_frame(4), Some(vec![1, 2, 3, 4]));
    assert_eq!(ring.len(), 1);
}

#[test]
fn filling_past_capacity_slice_by_slice_keeps_the_first_samples() {
    let mut ring = SampleRing::new(5);
    let slices: Vec<Vec<u32>> = vec![vec![1, 2], vec![3], vec![4, 5, 6], vec![7, 8]];
    assert_eq!(ring.push_slices(&slices), 5);
    assert_eq!(ring.len(), 5);
    assert_eq!(ring.pull_playback(5), vec![1, 2, 3, 4, 5]);
    let mut out = vec![0u32; 2];
    assert_eq!(ring.pop_slice(&mut out), 0);
}
