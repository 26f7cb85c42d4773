//! The command builders: each produces the exact protocol line, durations
//! carry millisecond precision with a padded fraction, and batches are
//! framed between the list markers.

use mpdris::commands::{
    binarylimit_request, command_list, encode_batch, idle_request, loop_status_commands,
    pause_command, ping_request, play_command, play_song_command, previous_paused_commands,
    random_command, seek_command, seek_relative_command, setvol_command, status_request,
    stop_command, toggle_command,
};

#[test]
fn fixed_commands() {
    assert_eq!(status_request(), "status");
    assert_eq!(ping_request(), "ping");
    assert_eq!(play_command(), "play");
    assert_eq!(stop_command(), "stop");
    assert_eq!(toggle_command(), "pause");
    assert_eq!(pause_command(), "pause 1");
    assert_eq!(binarylimit_request(), "binarylimit 1024");
    assert_eq!(
        idle_request(),
        "idle stored_playlist playlist player mixer options"
    );
}

#[test]
fn play_song_seeks_to_the_id() {
    assert_eq!(play_song_command(0), "seekid 0 0");
    assert_eq!(play_song_command(42), "seekid 42 0");
    assert_eq!(play_song_command(4294967295), "seekid 4294967295 0");
}

#[test]
fn seek_writes_seconds_and_padded_millis() {
    assert_eq!(seek_command(0), "seekcur 0.000");
    assert_eq!(seek_command(61_500_000), "seekcur 61.500");
    assert_eq!(seek_command(1_050_000), "seekcur 1.050");
    assert_eq!(seek_command(2_005_999), "seekcur 2.005");
}

#[test]
fn relative_seek_carries_a_sign() {
    assert_eq!(seek_relative_command(true, 5_000_000), "seekcur +5.000");
    assert_eq!(seek_relative_command(false, 1_050_000), "seekcur -1.050");
}

#[test]
fn volume_and_shuffle_commands() {
    assert_eq!(setvol_command(0), "setvol 0");
    assert_eq!(setvol_command(85), "setvol 85");
    assert_eq!(random_command(true), "random 1");
    assert_eq!(random_command(false), "random 0");
}

#[test]
fn batches_are_framed_with_the_markers() {
    let inner = vec![String::from("previous"), String::from("pause")];
    let framed = command_list(&inner);
    assert_eq!(
        framed,
        vec![
            String::from("command_list_begin"),
            String::from("previous"),
            String::from("pause"),
            String::from("command_list_end"),
        ]
    );
}

#[test]
fn loop_status_batch_sets_both_flags() {
    assert_eq!(
        loop_status_commands(true, false),
        vec![
            String::from("command_list_begin"),
            String::from("repeat 1"),
            String::from("single 0"),
            String::from("command_list_end"),
        ]
    );
    assert_eq!(
        loop_status_commands(false, false),
        vec![
            String::from("command_list_begin"),
            String::from("repeat 0"),
            String::from("single 0"),
            String::from("command_list_end"),
        ]
    );
}

#[test]
fn previous_paused_batch() {
    assert_eq!(
        previous_paused_commands(),
        vec![
            String::from("command_list_begin"),
            String::from("previous"),
            String::from("pause"),
            String::from("command_list_end"),
        ]
    );
}

#[test]
fn encode_batch_terminates_every_line() {
    let batch = vec![String::from("repeat 1"), String::from("single 1")];
    assert_eq!(encode_batch(&batch), "repeat 1\nsingle 1\n");
    assert_eq!(encode_batch(&Vec::new()), "");
}
