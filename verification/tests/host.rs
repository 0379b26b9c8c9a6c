use wallpaper_core::host::PlaybackHost;
use wallpaper_core::playback::BusMessage;
use wallpaper_core::surface::ResizeError;
use wallpaper_core::surface::SurfaceDescriptor;

const MS: u64 = 1_000_000;

fn host() -> PlaybackHost {
    PlaybackHost::new(SurfaceDescriptor { width: 4, height: 4 }, true, 33 * MS, 1000)
}

#[test]
fn fresh_host_is_running() {
    let h = host();
    assert!(!h.is_halted());
    assert!(h.session().is_playing());
    assert_eq!(h.accumulated_ns(), 0);
}

#[test]
fn resize_failure_halts_the_host() {
    let mut h = host();
    let r = h.on_resize(SurfaceDescriptor { width: 0, height: 0 }, Err(String::from("minimized")));
    assert!(matches!(r, Err(ResizeError::Rejected(m)) if m == "minimized"));
    assert!(h.is_halted());
    assert_eq!(h.session().size(), SurfaceDescriptor { width: 4, height: 4 });
}

#[test]
fn successful_resize_keeps_running() {
    let mut h = host();
    let r = h.on_resize(SurfaceDescriptor { width: 8, height: 4 }, Ok(()));
    assert!(r.is_ok());
    assert!(!h.is_halted());
    assert_eq!(h.session().size(), SurfaceDescriptor { width: 8, height: 4 });
}

#[test]
fn fatal_tick_halts_the_host() {
    let mut h = host();
    h.push_message(BusMessage::FatalError(String::from("bus failure")));
    let mut dest = vec![0u8; 64];
    let r = h.on_tick(33 * MS, &mut dest);
    assert!(r.is_err());
    assert!(h.is_halted());
    assert!(h.session().is_error());
}

#[test]
fn frames_flow_through_the_host() {
    let mut h = host();
    h.store_frame(vec![4u8; 64]);
    let mut dest = vec![0u8; 64];
    let out = h.on_tick(0, &mut dest).expect("no fatal error");
    assert!(out.drew);
    assert_eq!(dest, vec![4u8; 64]);
    assert!(!h.is_halted());
}

#[test]
fn rewind_flow_through_the_host() {
    let mut h = host();
    h.push_message(BusMessage::EndOfStream);
    let mut dest = vec![0u8; 64];
    let out = h.on_tick(40 * MS, &mut dest).expect("no fatal error");
    assert_eq!(out.updates_run, 1);
    assert!(h.session().needs_rewind());
    assert!(h.rewind_completed(Ok(())).is_ok());
    assert!(h.session().is_playing());
    assert!(!h.is_halted());
}

#[test]
fn failed_rewind_halts_the_host() {
    let mut h = host();
    h.push_message(BusMessage::EndOfStream);
    let mut dest = vec![0u8; 64];
    let _ = h.on_tick(40 * MS, &mut dest).expect("no fatal error");
    assert!(h.session().needs_rewind());
    let r = h.rewind_completed(Err(String::from("flush failed")));
    assert!(r.is_err());
    assert!(h.is_halted());
    assert!(h.session().is_error());
}

#[test]
fn scale_factor_is_recorded_only() {
    let mut h = host();
    h.set_scale_factor(1500);
    // Buffer layout is unaffected: a frame sized for the surface still lands.
    h.store_frame(vec![1u8; 64]);
    let mut dest = vec![0u8; 64];
    let out = h.on_tick(0, &mut dest).expect("no fatal error");
    assert!(out.drew);
}

#[test]
fn input_update_through_the_host() {
    let mut h = host();
    h.push_message(BusMessage::EndOfStream);
    // The input path asks for an unscheduled update: the queue drains now.
    assert!(h.update().is_ok());
    assert!(h.session().needs_rewind());
    assert_eq!(h.session().pending_messages(), 0);
    assert!(!h.is_halted());
}

#[test]
fn input_update_surfaces_fatal_and_halts() {
    let mut h = host();
    h.push_message(BusMessage::FatalError(String::from("input-path fault")));
    assert!(h.update().is_err());
    assert!(h.is_halted());
}

#[test]
fn same_size_resize_through_host_drains_queue() {
    let mut h = host();
    h.push_message(BusMessage::EndOfStream);
    let r = h.on_resize(SurfaceDescriptor { width: 4, height: 4 }, Ok(()));
    // The repeated size changes nothing about the surface but the forced
    // update still ran.
    assert!(r.is_ok());
    assert_eq!(h.session().size(), SurfaceDescriptor { width: 4, height: 4 });
    assert_eq!(h.session().pending_messages(), 0);
    assert!(h.session().needs_rewind());
    assert!(!h.is_halted());
}

#[test]
fn every_owed_rewind_is_settled_through_the_host() {
    let mut h = host();
    h.push_message(BusMessage::EndOfStream);
    h.push_message(BusMessage::EndOfStream);
    assert!(h.update().is_ok());
    assert_eq!(h.session().pending_rewinds(), 2);
    assert!(h.rewind_completed(Ok(())).is_ok());
    assert!(h.session().needs_rewind());
    assert!(h.rewind_completed(Ok(())).is_ok());
    assert!(h.session().is_playing());
}
