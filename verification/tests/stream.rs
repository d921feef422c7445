use goxlr_audio_helper::queue::SampleQueue;
use goxlr_audio_helper::stream::{demux_endpoint, demux_wide, mux_endpoint, mux_wide};

fn make_queues(n: usize, capacity: usize) -> Vec<SampleQueue> {
    let mut v = Vec::new();
    for _ in 0..n {
        v.push(SampleQueue::new(capacity));
    }
    v
}

#[test]
fn demux_wide_routes_each_channel() {
    // five-channel capture direction, base offsets {0,2,4,6,8}, width 10
    let offsets: Vec<usize> = vec![0, 2, 4, 6, 8];
    let mut queues = make_queues(5, 1024);
    // one frame [a0,a1,b0,b1,c0,c1,d0,d1,e0,e1]
    let frame: Vec<u32> = vec![100, 101, 200, 201, 300, 301, 400, 401, 500, 501];
    demux_wide(&mut queues, &offsets, 10, &frame, 1);
    // channel "b" received exactly its slice
    assert_eq!(queues[1].len(), 2);
    assert_eq!(queues[1].peek(0), 200);
    assert_eq!(queues[1].peek(1), 201);
    // and so did every other channel
    for (c, base) in [100u32, 200, 300, 400, 500].iter().enumerate() {
        assert_eq!(queues[c].len(), 2);
        assert_eq!(queues[c].peek(0), *base);
        assert_eq!(queues[c].peek(1), *base + 1);
    }
}

#[test]
fn demux_then_mux_round_trip() {
    // render-direction table: offsets {2,4,0}, width 21; two frames
    let offsets: Vec<usize> = vec![2, 4, 0];
    let mut queues = make_queues(3, 1024);
    let mut input = vec![0u32; 42];
    for (i, v) in input.iter_mut().enumerate() {
        *v = 1000 + i as u32;
    }
    demux_wide(&mut queues, &offsets, 21, &input, 2);
    let mut output = vec![7u32; 42];
    mux_wide(&mut output, &queues, &offsets, 21, 2);
    for f in 0..2usize {
        for off in [2usize, 4, 0] {
            // each channel's two-sample slices come back unchanged
            assert_eq!(output[f * 21 + off], input[f * 21 + off]);
            assert_eq!(output[f * 21 + off + 1], input[f * 21 + off + 1]);
        }
        // slots owned by no channel keep the caller's filler
        for i in 6..21usize {
            assert_eq!(output[f * 21 + i], 7);
        }
    }
}

#[test]
fn mux_wide_leaves_underrun_frames_untouched() {
    let offsets: Vec<usize> = vec![0];
    let mut queues = make_queues(1, 64);
    queues[0].push(11);
    queues[0].push(12);
    // two frames requested, one frame's worth of samples available
    let mut output = vec![9u32; 8];
    mux_wide(&mut output, &queues, &offsets, 4, 2);
    assert_eq!(output, vec![11, 12, 9, 9, 9, 9, 9, 9]);
}

#[test]
fn demux_endpoint_pushes_whole_buffer() {
    let mut q = SampleQueue::new(1024);
    let input: Vec<u32> = vec![1, 2, 3, 4];
    demux_endpoint(&mut q, &input, 2);
    assert_eq!(q.len(), 4);
    for i in 0..4usize {
        assert_eq!(q.peek(i), (i + 1) as u32);
    }
}

#[test]
fn demux_endpoint_evicts_oldest_on_overflow() {
    let mut q = SampleQueue::new(4);
    let input: Vec<u32> = vec![1, 2, 3, 4, 5, 6];
    demux_endpoint(&mut q, &input, 3);
    assert_eq!(q.len(), 4);
    let mut out = vec![0u32; 4];
    q.read_window(&mut out);
    assert_eq!(out, vec![3, 4, 5, 6]);
}

#[test]
fn mux_endpoint_fills_trailing_slots_on_underrun() {
    let mut q = SampleQueue::new(1024);
    q.push(21);
    q.push(22);
    q.push(23);
    let mut output = vec![0u32; 8];
    mux_endpoint(&q, &mut output, 4);
    assert_eq!(output, vec![0, 0, 0, 0, 0, 21, 22, 23]);
}
