use harmonium::artwork::layer::{LayerStep, ProcessStatus, SendOutcome};
use harmonium::artwork::overlay::ArtworkOverlay;
use harmonium::artwork::ueberzug::{
    add_command, add_command_with_area, arguments, collect_output, parse_window_id,
    parse_window_size, parse_xwininfo_dimension, poll_step, query_window_size_with_runner,
    placed, reap_result, remove_command, transform, transform_cell, transform_size, xwininfo_timeout,
    AxisCorrection, CoordinateCalibration, Manager, PollStatus, PollStep, RefreshAnswer,
    RefreshStep, RoundedArea, TerminalMetrics, XwininfoCommandRunner, XwininfoError, PROGRAM,
    XWININFO_OUTPUT_LIMIT,
};
use harmonium::geometry::Rect;
use harmonium::path::FilePath;
use harmonium::time::Duration;
use std::sync::{Arc, Mutex};

struct ScriptedXwininfo {
    response: Mutex<Option<Result<Vec<u8>, XwininfoError>>>,
    calls: Arc<Mutex<Vec<(u64, Duration)>>>,
}

impl ScriptedXwininfo {
    fn new(
        response: Result<Vec<u8>, XwininfoError>,
        calls: Arc<Mutex<Vec<(u64, Duration)>>>,
    ) -> Self {
        Self {
            response: Mutex::new(Some(response)),
            calls,
        }
    }
}

impl XwininfoCommandRunner for ScriptedXwininfo {
    fn run(&self, window_id: u64, timeout: Duration) -> Result<Vec<u8>, XwininfoError> {
        self.calls
            .lock()
            .expect("xwininfo call lock")
            .push((window_id, timeout));
        self.response
            .lock()
            .expect("xwininfo response lock")
            .take()
            .expect("scripted xwininfo called once")
    }
}

fn overlay() -> ArtworkOverlay {
    ArtworkOverlay::new(
        4,
        FilePath::from_text("/cache/cover.png"),
        Rect {
            x: 7,
            y: 3,
            width: 20,
            height: 10,
        },
    )
}

fn metrics() -> TerminalMetrics {
    TerminalMetrics {
        columns: 80,
        rows: 24,
        pixel_width: 800,
        pixel_height: 480,
    }
}

/// Scale and offset of an axis as the placement uses them.
fn scale_and_offset(axis: AxisCorrection) -> (f64, f64) {
    let font = f64::from(axis.span) / f64::from(axis.cells);
    (f64::from(axis.font) / font, (axis.shift as f64 / 2.0) / font)
}

/// Corrected coordinates and extents, rounded.
fn round(area: Rect, calibration: CoordinateCalibration) -> RoundedArea {
    let (x, y) = match calibration {
        CoordinateCalibration::Padding { x, y } => (scale_and_offset(x), scale_and_offset(y)),
        CoordinateCalibration::Identity => ((1.0, 0.0), (1.0, 0.0)),
    };
    let cell = |cell: u16, (scale, offset): (f64, f64)| (f64::from(cell) * scale + offset).round();
    let size = |size: u16, (scale, _): (f64, f64)| (f64::from(size) * scale).round();
    RoundedArea {
        x: cell(area.x, x) as i64,
        y: cell(area.y, y) as i64,
        width: size(area.width, x) as i64,
        height: size(area.height, y) as i64,
    }
}

/// A correction that moves images by half of these pixels and scales nothing.
fn moved(x: i64, y: i64) -> CoordinateCalibration {
    CoordinateCalibration::Padding {
        x: AxisCorrection { cells: 80, font: 10, span: 800, shift: x },
        y: AxisCorrection { cells: 24, font: 20, span: 480, shift: y },
    }
}

#[test]
fn command_uses_original_json_parser_mode() {
    assert_eq!(PROGRAM, "ueberzug");
    assert_eq!(arguments(), ["layer", "--parser", "json"]);
}

#[test]
fn legacy_payload_uses_legacy_scaler() {
    assert_eq!(add_command(&overlay())["scaler"], "contain");
    assert_eq!(remove_command("art")["action"], "remove");
}

#[test]
fn xwininfo_success_uses_the_bounded_injected_runner() {
    let calls = Arc::new(Mutex::new(Vec::new()));
    let runner = ScriptedXwininfo::new(Ok(b"Width: 800\nHeight: 480\n".to_vec()), calls.clone());

    assert_eq!(query_window_size_with_runner(42, &runner), Some((800, 480)));
    assert_eq!(
        *calls.lock().expect("xwininfo call lock"),
        vec![(42, xwininfo_timeout())]
    );
    assert_eq!(xwininfo_timeout(), Duration::from_millis(100));
}

#[test]
fn malformed_xwininfo_output_falls_back_without_calibration() {
    let calls = Arc::new(Mutex::new(Vec::new()));
    let runner = ScriptedXwininfo::new(Ok(b"Width: not-a-number\nHeight: 480\n".to_vec()), calls);

    assert_eq!(
        CoordinateCalibration::discover_with_runner(metrics(), Some("42"), &runner),
        None
    );
}

#[test]
fn timed_out_xwininfo_falls_back_without_calibration() {
    let calls = Arc::new(Mutex::new(Vec::new()));
    let runner = ScriptedXwininfo::new(Err(XwininfoError::TimedOut), calls);

    assert_eq!(
        CoordinateCalibration::discover_with_runner(metrics(), Some("42"), &runner),
        None
    );
}

#[test]
fn discovery_without_a_window_asks_nobody() {
    let calls = Arc::new(Mutex::new(Vec::new()));
    let runner = ScriptedXwininfo::new(Err(XwininfoError::TimedOut), calls.clone());
    assert_eq!(
        CoordinateCalibration::discover_with_runner(metrics(), None, &runner),
        None
    );
    assert!(calls.lock().expect("xwininfo call lock").is_empty());
}

#[test]
fn discovery_pairs_the_metrics_with_their_calibration() {
    let calls = Arc::new(Mutex::new(Vec::new()));
    let runner = ScriptedXwininfo::new(
        Ok(b"  Width: 900\r\n  Height: 1000\r\n".to_vec()),
        calls,
    );
    assert_eq!(
        CoordinateCalibration::discover_with_runner(metrics(), Some("42"), &runner),
        Some((metrics(), CoordinateCalibration::Identity))
    );
}

#[test]
fn polling_ends_with_exit_timeout_or_failure() {
    let limit = Duration::from_millis(10);
    let early = Duration::from_millis(9);
    assert!(matches!(
        poll_step(PollStatus::Running, early, limit),
        PollStep::Sleep
    ));
    assert!(matches!(
        poll_step(PollStatus::Running, limit, limit),
        PollStep::Abort(XwininfoError::TimedOut)
    ));
    assert!(matches!(
        poll_step(PollStatus::Exited(true), limit, limit),
        PollStep::Collect
    ));
    assert!(matches!(
        poll_step(PollStatus::Exited(false), early, limit),
        PollStep::Abort(XwininfoError::NonSuccess)
    ));
    match poll_step(PollStatus::Failed("gone".to_string()), early, limit) {
        PollStep::Abort(error) => {
            assert_eq!(error.describe(), "could not wait for xwininfo: gone")
        }
        _ => panic!("expected an error"),
    }
}

#[test]
fn output_is_bounded_and_every_failure_has_its_text() {
    assert_eq!(collect_output(None), Err(XwininfoError::MissingStdout));
    assert_eq!(
        collect_output(Some(Err("eof".to_string()))),
        Err(XwininfoError::Read("eof".to_string()))
    );
    assert_eq!(
        collect_output(Some(Ok(vec![b' '; XWININFO_OUTPUT_LIMIT]))).map(|output| output.len()),
        Ok(65_536)
    );
    assert_eq!(
        collect_output(Some(Ok(vec![b' '; XWININFO_OUTPUT_LIMIT + 1]))),
        Err(XwininfoError::OutputTooLarge)
    );
    for (error, text) in [
        (XwininfoError::Spawn("x".to_string()), "could not start xwininfo: x"),
        (XwininfoError::Read("x".to_string()), "could not read xwininfo output: x"),
        (XwininfoError::MissingStdout, "xwininfo stdout pipe was not available"),
        (XwininfoError::NonSuccess, "xwininfo exited unsuccessfully"),
        (XwininfoError::TimedOut, "xwininfo timed out"),
        (XwininfoError::OutputTooLarge, "xwininfo output exceeded its limit"),
    ] {
        assert_eq!(error.describe(), text);
    }
}

#[test]
fn waiting_counts_more_than_killing() {
    let failed = |text: &str| Err(text.to_string());
    assert_eq!(reap_result(failed("kill"), failed("wait")), failed("wait"));
    assert_eq!(reap_result(Ok(()), failed("wait")), failed("wait"));
    assert_eq!(reap_result(failed("kill"), Ok(())), failed("kill"));
    assert_eq!(reap_result(Ok(()), Ok(())), Ok(()));
}

#[test]
fn calibration_uses_window_dimensions_when_pty_pixel_metrics_are_zero() {
    let metrics = TerminalMetrics {
        columns: 80,
        rows: 24,
        pixel_width: 0,
        pixel_height: 0,
    };
    let calibration =
        CoordinateCalibration::from_metrics(metrics, 800, 480).expect("valid X11 fallback");
    match calibration {
        CoordinateCalibration::Identity => {}
        CoordinateCalibration::Padding { x, y } => {
            assert_eq!(scale_and_offset(x), (1.0, 0.0));
            assert_eq!(scale_and_offset(y), (1.0, 0.0));
        }
    }
}

#[test]
fn calibration_rejects_missing_or_zero_required_metrics() {
    let valid_window = (800, 480);
    assert_eq!(
        CoordinateCalibration::from_metrics(
            TerminalMetrics {
                columns: 0,
                rows: 24,
                pixel_width: 0,
                pixel_height: 0,
            },
            valid_window.0,
            valid_window.1,
        ),
        None
    );
    assert_eq!(
        CoordinateCalibration::from_metrics(
            TerminalMetrics {
                columns: 80,
                rows: 0,
                pixel_width: 0,
                pixel_height: 0,
            },
            valid_window.0,
            valid_window.1,
        ),
        None
    );
    assert_eq!(
        CoordinateCalibration::from_metrics(
            TerminalMetrics {
                columns: 80,
                rows: 24,
                pixel_width: 0,
                pixel_height: 0,
            },
            0,
            valid_window.1,
        ),
        None
    );
    assert_eq!(parse_window_id(None), None);
    assert_eq!(parse_window_id(Some("not-a-window")), None);
    assert_eq!(parse_xwininfo_dimension("Width: invalid", "Width:"), None);
    assert_eq!(parse_xwininfo_dimension("Width: 0", "Width:"), None);
}

#[test]
fn calibration_matches_ueberzug_padding_model_without_fixed_offsets() {
    let metrics = TerminalMetrics {
        columns: 80,
        rows: 24,
        pixel_width: 800,
        pixel_height: 935,
    };
    let calibration =
        CoordinateCalibration::from_metrics(metrics, 800, 935).expect("valid metrics");
    let (x, y) = match calibration {
        CoordinateCalibration::Padding { x, y } => (scale_and_offset(x), scale_and_offset(y)),
        CoordinateCalibration::Identity => panic!("expected a correction"),
    };

    assert!(x.0 > 1.0);
    assert_eq!(y.0, 1.0);
    assert!(x.1 < -1.0);
    assert!(y.1.abs() < f64::EPSILON);

    let fallback = CoordinateCalibration::from_metrics(metrics, 900, 1000).expect("valid metrics");
    assert_eq!(fallback, CoordinateCalibration::Identity);
}

#[test]
fn calibration_counts_spare_pixels_exactly() {
    let metrics = TerminalMetrics {
        columns: 80,
        rows: 24,
        pixel_width: 810,
        pixel_height: 935,
    };
    assert_eq!(
        CoordinateCalibration::from_metrics(metrics, 810, 935),
        Some(CoordinateCalibration::Padding {
            x: AxisCorrection { cells: 80, font: 10, span: 787, shift: -13 },
            y: AxisCorrection { cells: 24, font: 38, span: 912, shift: 0 },
        })
    );
}

#[test]
fn calibration_needs_a_pixel_per_cell() {
    let narrow = TerminalMetrics {
        columns: 80,
        rows: 24,
        pixel_width: 79,
        pixel_height: 480,
    };
    assert_eq!(CoordinateCalibration::from_metrics(narrow, 79, 480), None);
    let swallowed = TerminalMetrics {
        columns: 1,
        rows: 60,
        pixel_width: 30,
        pixel_height: 119,
    };
    assert_eq!(CoordinateCalibration::from_metrics(swallowed, 30, 119), None);
}

#[test]
fn calibrated_payload_transforms_only_original_ueberzug_coordinates() {
    let overlay = overlay();
    let calibration = moved(-25, 30);
    let rounded = round(overlay.rect, calibration);
    let area = placed(overlay.rect, Some(calibration), rounded);
    let value = add_command_with_area(&overlay, area);

    assert_eq!(value["x"], 6);
    assert_eq!(value["y"], 4);
    assert_eq!(value["width"], 20);
    assert_eq!(value["height"], 10);
    assert_eq!(value["scaler"], "contain");
}

#[test]
fn calibrated_manager_writes_transformed_payload() {
    let mut manager = Manager::new();
    manager.calibration = Some(moved(-20, 40));
    let desired = overlay();
    let rounded = round(desired.rect, moved(-20, 40));
    let step = manager.reconcile(
        Some(desired),
        rounded,
        RefreshStep::Ready,
        ProcessStatus::Running,
    );

    let text = match step {
        LayerStep::Send(line) => String::from_utf8(line).expect("JSON payload"),
        _ => panic!("expected a command"),
    };
    assert!(text.contains("\"x\":6"));
    assert!(text.contains("\"y\":4"));
}

#[test]
fn ueberzug_broken_process_io_disables_without_panicking() {
    let mut manager = Manager::new();
    let desired = overlay();
    let rounded = round(desired.rect, CoordinateCalibration::Identity);
    let step = manager.reconcile(
        Some(desired),
        rounded,
        RefreshStep::Ready,
        ProcessStatus::Running,
    );
    assert!(matches!(step, LayerStep::Send(_)));
    assert!(matches!(manager.sent(SendOutcome::Failed), LayerStep::Disable));
    assert!(!manager.is_enabled());
}

#[test]
fn placements_are_cut_to_the_range_of_cells() {
    assert_eq!(transform_cell(-3), 0);
    assert_eq!(transform_cell(70_000), 65_535);
    assert_eq!(transform_size(0, -3), 0);
    assert_eq!(transform_size(5, 0), 1);
    assert_eq!(transform_size(5, 6), 6);
}

#[test]
fn only_corrections_of_both_axes_move_an_image() {
    let area = overlay().rect;
    let rounded = RoundedArea { x: -4, y: 70_000, width: 0, height: 12 };
    assert_eq!(placed(area, None, rounded), area);
    assert_eq!(placed(area, Some(CoordinateCalibration::Identity), rounded), area);
    let corrected = Rect { x: 0, y: 65_535, width: 1, height: 12 };
    assert_eq!(placed(area, Some(moved(0, 0)), rounded), corrected);
    assert_eq!(transform(area, rounded), corrected);
    let empty = Rect { width: 0, ..area };
    assert_eq!(transform(empty, rounded), Rect { width: 0, ..corrected });
}

#[test]
fn paths_matter_only_where_a_command_names_them() {
    let unprintable = ArtworkOverlay::new(1, FilePath::from_bytes(vec![0xff]), overlay().rect);
    let rounded = round(overlay().rect, CoordinateCalibration::Identity);

    let mut manager = Manager::new();
    assert!(manager
        .pipe
        .adds_at_once(&Some(overlay()), ProcessStatus::Running));
    assert!(!manager.pipe.adds_at_once(&None, ProcessStatus::Running));
    assert!(!manager
        .pipe
        .adds_at_once(&Some(overlay()), ProcessStatus::Exited));
    assert!(matches!(
        manager.reconcile(
            Some(unprintable.clone()),
            rounded,
            RefreshStep::Unusable,
            ProcessStatus::Running
        ),
        LayerStep::Disable
    ));
    assert!(matches!(
        manager.reconcile(
            Some(unprintable.clone()),
            rounded,
            RefreshStep::Ready,
            ProcessStatus::Running
        ),
        LayerStep::Rest
    ));

    // A removal names the previous image only
    let mut manager = Manager::new();
    manager.pipe.active = Some(overlay());
    assert!(matches!(
        manager.reconcile(
            Some(unprintable),
            rounded,
            RefreshStep::Ready,
            ProcessStatus::Running
        ),
        LayerStep::Send(_)
    ));
    assert!(matches!(manager.sent(SendOutcome::Failed), LayerStep::Disable));
}

#[test]
fn window_ids_are_decimal_numbers() {
    assert_eq!(parse_window_id(Some("42")), Some(42));
    assert_eq!(parse_window_id(Some("+7")), Some(7));
    assert_eq!(parse_window_id(Some("18446744073709551615")), Some(u64::MAX));
    assert_eq!(parse_window_id(Some("18446744073709551616")), None);
    for text in ["", "+", "-1", " 42", "0x2a"] {
        assert_eq!(parse_window_id(Some(text)), None);
    }
}

#[test]
fn dimensions_come_from_the_first_labelled_line() {
    assert_eq!(parse_xwininfo_dimension("a\n\t Width:  12 \nWidth: 13", "Width:"), Some(12));
    assert_eq!(parse_xwininfo_dimension("Width: x\nWidth: 13", "Width:"), None);
    assert_eq!(parse_xwininfo_dimension("Border Width: 4", "Width:"), None);
    assert_eq!(parse_xwininfo_dimension("Width: 4294967296", "Width:"), None);
    assert_eq!(parse_window_size(&b"Width: 1\nHeight: 2".to_vec()), Some((1, 2)));
    assert_eq!(parse_window_size(&b"Width: 1\n".to_vec()), None);
    assert_eq!(parse_window_size(&vec![0xff, 0xfe]), None);
}

#[test]
fn calibration_follows_the_terminal_size() {
    let old = metrics();
    let new = TerminalMetrics { columns: 100, ..old };
    let fresh = CoordinateCalibration::from_metrics(new, 801, 481).expect("calibration");
    let mut manager = Manager::calibrated(old, CoordinateCalibration::Identity);

    assert_eq!(
        manager.refresh_runtime_calibration(Some(old), RefreshAnswer::Waiting),
        RefreshStep::Ready
    );
    assert_eq!(
        manager.refresh_runtime_calibration(Some(new), RefreshAnswer::Waiting),
        RefreshStep::Discover(new)
    );
    assert_eq!(
        manager.refresh_runtime_calibration(Some(new), RefreshAnswer::Waiting),
        RefreshStep::Ready
    );
    assert_eq!(manager.calibration(), Some(CoordinateCalibration::Identity));
    assert_eq!(
        manager.refresh_runtime_calibration(
            Some(new),
            RefreshAnswer::Finished(Some((new, fresh)))
        ),
        RefreshStep::Ready
    );
    assert_eq!(manager.calibration(), Some(fresh));
    assert_eq!(
        manager.refresh_runtime_calibration(None, RefreshAnswer::Waiting),
        RefreshStep::Unusable
    );
}

#[test]
fn outdated_calibrations_are_asked_for_again() {
    let old = metrics();
    let new = TerminalMetrics { columns: 100, ..old };
    let newest = TerminalMetrics { columns: 120, ..old };
    let mut manager = Manager::calibrated(old, CoordinateCalibration::Identity);
    manager.refresh_runtime_calibration(Some(new), RefreshAnswer::Waiting);
    assert_eq!(
        manager.refresh_runtime_calibration(
            Some(newest),
            RefreshAnswer::Finished(Some((new, CoordinateCalibration::Identity)))
        ),
        RefreshStep::Discover(newest)
    );
    assert_eq!(
        manager.refresh_runtime_calibration(Some(newest), RefreshAnswer::Lost),
        RefreshStep::Unusable
    );
    let rounded = round(overlay().rect, CoordinateCalibration::Identity);
    assert!(matches!(
        manager.reconcile(None, rounded, RefreshStep::Unusable, ProcessStatus::Running),
        LayerStep::Disable
    ));
    assert!(!manager.is_enabled());
}
