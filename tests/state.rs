use std::sync::atomic::Ordering;
use vectorscope::capture::{
    capture_target, init_capture_area, is_capture_area_valid, region_request, set_capture_area,
    CaptureArea, CaptureError, CaptureTarget, RegionRequest,
};
use vectorscope::encoding::to_data_uri;
use vectorscope::payload::{publications, render_payload, Payload};
use vectorscope::raster::Raster;
use vectorscope::worker::{
    create_image_process_thread, create_vector_scope_thread, requested_overlays, IntentFlags,
    MainViewModel, Overlays, ScopeKind, Worker,
};

#[test]
fn region_sentinel() {
    let mut area = CaptureArea::new();
    assert!(!is_capture_area_valid(&area));
    set_capture_area(&mut area, (10, 20), (110, 220));
    assert!(is_capture_area_valid(&area));
    set_capture_area(&mut area, (5, 5), (5, 5));
    assert!(!is_capture_area_valid(&area));
    set_capture_area(&mut area, (-50, 3), (0, 4));
    assert!(is_capture_area_valid(&area));
    init_capture_area(&mut area);
    assert_eq!(area, CaptureArea { top_left: (0, 0), bottom_right: (0, 0) });
    assert!(!is_capture_area_valid(&area));
}

#[test]
fn capture_target_falls_back_to_entire_screen() {
    assert_eq!(capture_target(None), CaptureTarget::EntireScreen);
    assert_eq!(capture_target(Some(CaptureArea::new())), CaptureTarget::EntireScreen);
    let area = CaptureArea { top_left: (1, 2), bottom_right: (3, 4) };
    assert_eq!(
        capture_target(Some(area)),
        CaptureTarget::Region { top_left: (1, 2), bottom_right: (3, 4) }
    );
}

#[test]
fn region_moves_into_display_coordinates() {
    assert_eq!(
        region_request((2000, 100), (2400, 400), (1920, 0)),
        Ok(RegionRequest { x: 80, y: 100, width: 400, height: 300 })
    );
    assert_eq!(region_request((10, 10), (5, 20), (0, 0)), Err(CaptureError::InvalidRectangle));
    assert_eq!(region_request((10, 10), (10, 20), (0, 0)), Err(CaptureError::InvalidRectangle));
    assert_eq!(
        region_request((i32::MIN, 0), (0, 10), (1, 0)),
        Err(CaptureError::OutOfRange)
    );
}

#[test]
fn start_twice_spawns_one_loop() {
    let mut worker = Worker::new();
    assert!(!worker.is_running());
    let first = worker.run();
    assert!(first.is_some());
    let second = worker.run();
    assert!(second.is_none());
    assert!(worker.is_running());
    let flag = first.unwrap();
    assert!(flag.load(Ordering::Relaxed));
    worker.stop();
    assert!(!worker.is_running());
    assert!(!flag.load(Ordering::Relaxed));
}

#[test]
fn stop_on_idle_worker_is_noop() {
    let mut worker = Worker::new();
    worker.stop();
    assert!(!worker.is_running());
    worker.stop();
    assert!(!worker.is_running());
}

#[test]
fn restart_hands_out_fresh_flag() {
    let mut worker = Worker::new();
    let old = worker.run().unwrap();
    worker.stop();
    let new = worker.run().unwrap();
    assert!(!old.load(Ordering::Relaxed));
    assert!(new.load(Ordering::Relaxed));
}

#[test]
fn reconciliation_transitions() {
    let mut vm = MainViewModel::new();
    assert!(!vm.image_process.worker_thread.is_running());
    assert!(vm.set_is_vector_scope_window_open(true).is_some());
    assert!(vm.image_process.worker_thread.is_running());
    // re-setting an equal value changes nothing
    assert!(vm.set_is_vector_scope_window_open(true).is_none());
    assert!(vm.set_is_waveform_window_open(true).is_none());
    assert!(vm.image_process.worker_thread.is_running());
    assert!(vm.set_is_vector_scope_window_open(false).is_none());
    assert!(vm.image_process.worker_thread.is_running());
    assert!(vm.set_is_waveform_window_open(false).is_none());
    assert!(!vm.image_process.worker_thread.is_running());
}

#[test]
fn manual_mode_stops_loop_with_window_open() {
    let mut vm = MainViewModel::new();
    let flag = vm.set_is_waveform_window_open(true).unwrap();
    assert!(vm.set_manual_mode(true).is_none());
    assert!(!vm.image_process.worker_thread.is_running());
    assert!(vm.flags.waveform_open);
    assert!(!flag.load(Ordering::Relaxed));
    assert!(vm.set_manual_mode(false).is_some());
    assert!(vm.image_process.worker_thread.is_running());
}

#[test]
fn workers_start_idle_and_know_their_overlays() {
    let combined = create_image_process_thread();
    let single = create_vector_scope_thread();
    assert!(!combined.worker_thread.is_running());
    assert!(!single.worker_thread.is_running());
    let flags = IntentFlags { vector_scope_open: false, waveform_open: true, manual_mode: false };
    assert_eq!(
        requested_overlays(combined.kind(), &flags),
        Overlays { vector_scope: false, waveform: true }
    );
    assert_eq!(
        requested_overlays(single.kind(), &flags),
        Overlays { vector_scope: true, waveform: false }
    );
    assert_eq!(
        requested_overlays(ScopeKind::Waveform, &IntentFlags::new()),
        Overlays { vector_scope: false, waveform: true }
    );
}

#[test]
fn data_uri_is_unpadded_base64() {
    assert_eq!(to_data_uri(&vec![]).unwrap(), "data:image/png;base64,");
    assert_eq!(to_data_uri(&vec![0xff]).unwrap(), "data:image/png;base64,/w");
    assert_eq!(to_data_uri(&b"Man".to_vec()).unwrap(), "data:image/png;base64,TWFu");
}

#[test]
fn payload_holds_only_requested_overlays() {
    let raster = Raster::new(2, 1, vec![1, 2, 3, 255, 4, 5, 6, 255]).unwrap();
    let none = render_payload(&raster, &vec![], Overlays { vector_scope: false, waveform: false });
    assert!(none.base64_vector_scope.is_empty() && none.base64_waveform.is_empty());
    let wf = render_payload(&raster, &vec![], Overlays { vector_scope: false, waveform: true });
    assert!(wf.base64_vector_scope.is_empty());
    assert!(wf.base64_waveform.starts_with("data:image/png;base64,iVBORw0KGgo"));
    let both = render_payload(&raster, &vec![], Overlays { vector_scope: true, waveform: true });
    assert!(both.base64_vector_scope.starts_with("data:image/png;base64,iVBORw0KGgo"));
    let out = publications(both);
    assert_eq!(out.len(), 2);
    assert_eq!(out[0].kind, ScopeKind::VectorScope);
    assert_eq!(out[1].kind, ScopeKind::Waveform);
}

#[test]
fn publications_skip_empty_parts() {
    let out = publications(Payload::new(String::new(), "w".to_string()));
    assert_eq!(out.len(), 1);
    assert_eq!(out[0].kind, ScopeKind::Waveform);
    assert_eq!(out[0].data, "w");
    assert!(publications(Payload::new(String::new(), String::new())).is_empty());
}

#[test]
fn process_threads_run_and_stop() {
    let mut t = create_image_process_thread();
    let flag = t.run().unwrap();
    assert!(t.run().is_none());
    t.stop();
    assert!(!flag.load(Ordering::Relaxed));
    t.stop();
    assert!(!t.worker_thread.is_running());
    let mut v = create_vector_scope_thread();
    assert!(v.run().is_some());
    assert!(v.worker_thread.is_running());
}

#[test]
fn failing_waveform_leaves_vector_scope_in_place() {
    let raster = Raster::new(0, 2, Vec::new()).unwrap();
    let both = render_payload(&raster, &vec![], Overlays { vector_scope: true, waveform: true });
    assert!(both.base64_vector_scope.starts_with("data:image/png;base64,iVBORw0KGgo"));
    assert!(both.base64_waveform.is_empty());
    let out = publications(both);
    assert_eq!(out.len(), 1);
    assert_eq!(out[0].kind, ScopeKind::VectorScope);
}
