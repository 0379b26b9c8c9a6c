use wallpaper_core::playback::BusMessage;
use wallpaper_core::playback::PlaybackController;
use wallpaper_core::playback::PlaybackError;

#[test]
fn eos_with_repeat_requests_exactly_one_rewind() {
    let mut c = PlaybackController::new(true);
    let r = c.pump_events(&vec![BusMessage::EndOfStream]);
    assert!(r.is_ok());
    assert!(c.needs_rewind());
    assert_eq!(c.pending_rewinds(), 1);
    assert!(!c.is_error());
    // The seek succeeds: playing again, no further rewind requested.
    assert!(c.rewind_completed(Ok(())).is_ok());
    assert!(c.is_playing());
    assert_eq!(c.pending_rewinds(), 0);
    assert!(c.pump_events(&Vec::new()).is_ok());
    assert!(!c.needs_rewind());
}

#[test]
fn eos_without_repeat_stops() {
    let mut c = PlaybackController::new(false);
    let r = c.pump_events(&vec![BusMessage::EndOfStream]);
    assert!(r.is_ok());
    assert!(c.is_stopped());
    assert!(!c.needs_rewind());
    // Stopped is terminal: a later end-of-stream changes nothing.
    assert!(c.pump_events(&vec![BusMessage::EndOfStream]).is_ok());
    assert!(c.is_stopped());
}

#[test]
fn two_eos_in_one_batch_owe_two_rewinds() {
    let mut c = PlaybackController::new(true);
    let r = c.pump_events(&vec![BusMessage::EndOfStream, BusMessage::EndOfStream]);
    assert!(r.is_ok());
    // One rewind per end-of-stream event: both are owed and each gets its
    // own seek.
    assert_eq!(c.pending_rewinds(), 2);
    assert!(c.rewind_completed(Ok(())).is_ok());
    assert!(c.needs_rewind());
    assert_eq!(c.pending_rewinds(), 1);
    assert!(c.rewind_completed(Ok(())).is_ok());
    assert!(c.is_playing());
    assert_eq!(c.pending_rewinds(), 0);
}

#[test]
fn fatal_error_propagates_with_cause() {
    let mut c = PlaybackController::new(true);
    let msgs = vec![BusMessage::FatalError(String::from("demuxer failed"))];
    let r = c.pump_events(&msgs);
    assert!(matches!(r, Err(PlaybackError::Fatal(m)) if m == "demuxer failed"));
    assert!(c.is_error());
}

#[test]
fn error_is_terminal_and_resurfaced() {
    let mut c = PlaybackController::new(true);
    let _ = c.pump_events(&vec![BusMessage::FatalError(String::from("boom"))]);
    // Later messages are ignored; the original cause is surfaced again.
    let r = c.pump_events(&vec![BusMessage::EndOfStream, BusMessage::Other]);
    assert!(matches!(r, Err(PlaybackError::Fatal(m)) if m == "boom"));
    assert!(c.is_error());
    assert!(!c.needs_rewind());
}

#[test]
fn other_messages_are_ignored() {
    let mut c = PlaybackController::new(true);
    let r = c.pump_events(&vec![BusMessage::Other, BusMessage::Other]);
    assert!(r.is_ok());
    assert!(c.is_playing());
}

#[test]
fn rewind_failure_is_fatal() {
    let mut c = PlaybackController::new(true);
    assert!(c.pump_events(&vec![BusMessage::EndOfStream]).is_ok());
    let r = c.rewind_completed(Err(String::from("seek refused")));
    assert!(matches!(r, Err(PlaybackError::RewindFailed(m)) if m == "seek refused"));
    assert!(c.is_error());
    // The failed rewind's cause is what later calls surface.
    let r2 = c.pump_events(&Vec::new());
    assert!(matches!(r2, Err(PlaybackError::Fatal(m)) if m == "seek refused"));
}

#[test]
fn fatal_after_eos_in_one_batch_wins() {
    let mut c = PlaybackController::new(true);
    let msgs = vec![
        BusMessage::EndOfStream,
        BusMessage::FatalError(String::from("socket closed")),
    ];
    let r = c.pump_events(&msgs);
    assert!(matches!(r, Err(PlaybackError::Fatal(m)) if m == "socket closed"));
    assert!(c.is_error());
}

#[test]
fn error_message_accessor() {
    let e = PlaybackError::Fatal(String::from("cause a"));
    assert_eq!(e.message(), "cause a");
    let e2 = PlaybackError::RewindFailed(String::from("cause b"));
    assert_eq!(e2.message(), "cause b");
}

#[test]
fn draining_in_batches_matches_one_batch() {
    // One batch of three messages...
    let mut one = PlaybackController::new(true);
    let r = one.pump_events(&vec![
        BusMessage::Other,
        BusMessage::EndOfStream,
        BusMessage::Other,
    ]);
    assert!(r.is_ok());
    // ...and the same messages over two calls land in the same state.
    let mut two = PlaybackController::new(true);
    assert!(two.pump_events(&vec![BusMessage::Other]).is_ok());
    assert!(two
        .pump_events(&vec![BusMessage::EndOfStream, BusMessage::Other])
        .is_ok());
    assert_eq!(one.needs_rewind(), two.needs_rewind());
    assert_eq!(one.pending_rewinds(), two.pending_rewinds());
    assert_eq!(one.is_playing(), two.is_playing());
    assert_eq!(one.is_stopped(), two.is_stopped());
    assert_eq!(one.is_error(), two.is_error());
}

#[test]
fn eos_across_batches_owe_one_rewind_each() {
    let mut c = PlaybackController::new(true);
    assert!(c.pump_events(&vec![BusMessage::EndOfStream]).is_ok());
    assert!(c.pump_events(&vec![BusMessage::Other, BusMessage::EndOfStream]).is_ok());
    assert_eq!(c.pending_rewinds(), 2);
}

#[test]
fn empty_batch_changes_nothing() {
    let mut c = PlaybackController::new(true);
    assert!(c.pump_events(&Vec::new()).is_ok());
    assert!(c.is_playing());
    assert!(!c.needs_rewind());
}
