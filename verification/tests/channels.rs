use goxlr_audio_helper::channels::{
    capture_offsets, render_offsets, GoXLRInputChannels, GoXLROutputChannels,
};

#[test]
fn output_channel_offsets() {
    let all = GoXLROutputChannels::all_channels();
    assert_eq!(all.len(), 5);
    let offs: Vec<usize> = all.iter().map(|c| c.get_left()).collect();
    assert_eq!(offs, vec![0, 2, 4, 6, 8]);
}

#[test]
fn output_channel_labels() {
    let all = GoXLROutputChannels::all_channels();
    let labels: Vec<&str> = all.iter().map(|c| c.get_channel_string()).collect();
    assert_eq!(labels, vec!["System", "Game", "Chat", "Music", "Sample"]);
}

#[test]
fn input_channel_offsets() {
    let all = GoXLRInputChannels::all_channels();
    assert_eq!(all.len(), 3);
    let offs: Vec<usize> = all.iter().map(|c| c.get_left()).collect();
    assert_eq!(offs, vec![2, 4, 0]);
}

#[test]
fn input_channel_labels() {
    let all = GoXLRInputChannels::all_channels();
    let labels: Vec<&str> = all.iter().map(|c| c.get_channel_string()).collect();
    assert_eq!(labels, vec!["ChatMic", "Sampler", "StreamMix"]);
}

#[test]
fn offset_tables_follow_channel_order() {
    assert_eq!(capture_offsets(), vec![0, 2, 4, 6, 8]);
    assert_eq!(render_offsets(), vec![2, 4, 0]);
}
