use goxlr_audio_helper::queue::SampleQueue;

#[test]
fn push_and_read_in_order() {
    let mut q = SampleQueue::new(1024);
    assert_eq!(q.len(), 0);
    assert_eq!(q.capacity(), 1024);
    q.push(1);
    q.push(2);
    q.push(3);
    assert_eq!(q.len(), 3);
    let mut out = vec![0u32; 3];
    q.read_window(&mut out);
    assert_eq!(out, vec![1, 2, 3]);
    // the read is a peek: nothing was consumed
    assert_eq!(q.len(), 3);
    assert_eq!(q.peek(0), 1);
    assert_eq!(q.peek(2), 3);
}

#[test]
fn eviction_keeps_length_at_capacity() {
    let mut q = SampleQueue::new(4);
    for s in 1..=7u32 {
        q.push(s);
    }
    // three samples past capacity: the three oldest are gone
    assert_eq!(q.len(), 4);
    let mut out = vec![0u32; 4];
    q.read_window(&mut out);
    assert_eq!(out, vec![4, 5, 6, 7]);
}

#[test]
fn underrun_leaves_leading_slots() {
    let mut q = SampleQueue::new(1024);
    q.push(10);
    q.push(20);
    q.push(30);
    let mut out = vec![99u32; 8];
    q.read_window(&mut out);
    assert_eq!(out, vec![99, 99, 99, 99, 99, 10, 20, 30]);
}

#[test]
fn window_shorter_than_contents_reads_oldest() {
    let mut q = SampleQueue::new(16);
    for s in [5u32, 6, 7, 8, 9] {
        q.push(s);
    }
    let mut out = vec![0u32; 2];
    q.read_window(&mut out);
    assert_eq!(out, vec![5, 6]);
}

#[test]
fn empty_queue_leaves_window_untouched() {
    let q = SampleQueue::new(8);
    let mut out = vec![42u32; 4];
    q.read_window(&mut out);
    assert_eq!(out, vec![42, 42, 42, 42]);
}

#[test]
fn sustained_pushes_with_reads() {
    // one produced stream of 10,000 samples, window reads interleaved; the
    // queue ends at its capacity holding the newest samples
    let mut q = SampleQueue::new(1024);
    let mut window = vec![0u32; 64];
    for s in 0..10_000u32 {
        q.push(s);
        if s % 97 == 0 {
            q.read_window(&mut window);
        }
    }
    assert_eq!(q.len(), 1024);
    let mut out = vec![0u32; 1024];
    q.read_window(&mut out);
    for (i, v) in out.iter().enumerate() {
        assert_eq!(*v, (10_000 - 1024 + i) as u32);
    }
}

