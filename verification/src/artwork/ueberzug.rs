//! Images drawn by original `ueberzug`.
//!
//! Original `ueberzug` infers the terminal's cell size and padding on its own
//! and applies the larger padding to both axes, which shifts images. The
//! placement is corrected for that from the sizes of the terminal and of its
//! window.
use crate::artwork::layer;
use crate::artwork::layer::{LayerPipe, LayerStep, ProcessStatus, Scaler, SendOutcome};
use crate::artwork::overlay;
use crate::artwork::overlay::ArtworkOverlay;
use crate::geometry::Rect;
use crate::json;
use crate::text;
use crate::time::Duration;
use serde_json::Value;
use vstd::prelude::*;
use vstd::utf8::*;

verus! {

/// Program that draws the images.
pub const PROGRAM: &'static str = "ueberzug";

/// Arguments that make it read commands in JSON.
pub fn arguments() -> (list: Vec<&'static str>)
    ensures
        list@ == seq!["layer", "--parser", "json"],
{
    vec!["layer", "--parser", "json"]
}

/// Largest answer of `xwininfo`, in bytes.
pub const XWININFO_OUTPUT_LIMIT: usize = 65_536;

/// Longest time that `xwininfo` may take, in milliseconds.
pub const XWININFO_TIMEOUT_MILLIS: u64 = 100;

/// Time between two looks at `xwininfo`, in milliseconds.
pub const XWININFO_POLL_INTERVAL_MILLIS: u64 = 5;

/// Longest time that `xwininfo` may take.
pub open spec fn answer_limit() -> Duration {
    Duration { nanos: 100_000_000 }
}

/// Longest time that `xwininfo` may take.
pub fn xwininfo_timeout() -> (limit: Duration)
    ensures
        limit == answer_limit(),
{
    Duration::from_millis(XWININFO_TIMEOUT_MILLIS)
}

/// Why `xwininfo` gave no answer.
#[derive(Debug, PartialEq, Eq)]
pub enum XwininfoError {
    Spawn(String),
    Wait(String),
    Read(String),
    MissingStdout,
    NonSuccess,
    TimedOut,
    OutputTooLarge,
}

/// Line about an error.
pub open spec fn xwininfo_error_text(error: XwininfoError) -> Seq<char> {
    match error {
        XwininfoError::Spawn(reason) => "could not start xwininfo: "@ + reason@,
        XwininfoError::Wait(reason) => "could not wait for xwininfo: "@ + reason@,
        XwininfoError::Read(reason) => "could not read xwininfo output: "@ + reason@,
        XwininfoError::MissingStdout => "xwininfo stdout pipe was not available"@,
        XwininfoError::NonSuccess => "xwininfo exited unsuccessfully"@,
        XwininfoError::TimedOut => "xwininfo timed out"@,
        XwininfoError::OutputTooLarge => "xwininfo output exceeded its limit"@,
    }
}

impl XwininfoError {
    /// Line about the error for the log.
    pub fn describe(&self) -> (line: String)
        ensures
            line@ == xwininfo_error_text(*self),
    {
        match self {
            XwininfoError::Spawn(reason) => {
                let mut line = "could not start xwininfo: ".to_string();
                line.append(reason.as_str());
                line
            },
            XwininfoError::Wait(reason) => {
                let mut line = "could not wait for xwininfo: ".to_string();
                line.append(reason.as_str());
                line
            },
            XwininfoError::Read(reason) => {
                let mut line = "could not read xwininfo output: ".to_string();
                line.append(reason.as_str());
                line
            },
            XwininfoError::MissingStdout => "xwininfo stdout pipe was not available".to_string(),
            XwininfoError::NonSuccess => "xwininfo exited unsuccessfully".to_string(),
            XwininfoError::TimedOut => "xwininfo timed out".to_string(),
            XwininfoError::OutputTooLarge => "xwininfo output exceeded its limit".to_string(),
        }
    }
}

/// State of the `xwininfo` process.
pub enum PollStatus {
    /// It ended, with or without success.
    Exited(bool),
    /// It still runs.
    Running,
    /// It cannot be told.
    Failed(String),
}

/// What to do about the `xwininfo` process.
pub enum PollStep {
    /// Read its output.
    Collect,
    /// Look again after a while.
    Sleep,
    /// End the process, if it still runs, and report the error.
    Abort(XwininfoError),
}

/// Decide what to do about the `xwininfo` process after it ran for some time.
pub fn poll_step(status: PollStatus, elapsed: Duration, timeout: Duration) -> (step: PollStep)
    ensures
        step == match status {
            PollStatus::Exited(true) => PollStep::Collect,
            PollStatus::Exited(false) => PollStep::Abort(XwininfoError::NonSuccess),
            PollStatus::Running => if elapsed.nanos >= timeout.nanos {
                PollStep::Abort(XwininfoError::TimedOut)
            } else {
                PollStep::Sleep
            },
            PollStatus::Failed(reason) => PollStep::Abort(XwininfoError::Wait(reason)),
        },
{
    match status {
        PollStatus::Exited(success) => if success {
            PollStep::Collect
        } else {
            PollStep::Abort(XwininfoError::NonSuccess)
        },
        PollStatus::Running => if elapsed.nanos >= timeout.nanos {
            PollStep::Abort(XwininfoError::TimedOut)
        } else {
            PollStep::Sleep
        },
        PollStatus::Failed(reason) => PollStep::Abort(XwininfoError::Wait(reason)),
    }
}

/// Accept the output of a successful `xwininfo`, unless there is no pipe, it
/// cannot be read, or it is too long.
pub fn collect_output(stdout: Option<Result<Vec<u8>, String>>) -> (output: Result<
    Vec<u8>,
    XwininfoError,
>)
    ensures
        output == match stdout {
            None => Err(XwininfoError::MissingStdout),
            Some(Err(reason)) => Err(XwininfoError::Read(reason)),
            Some(Ok(bytes)) => if bytes@.len() > XWININFO_OUTPUT_LIMIT {
                Err(XwininfoError::OutputTooLarge)
            } else {
                Ok(bytes)
            },
        },
{
    match stdout {
        None => Err(XwininfoError::MissingStdout),
        Some(Err(reason)) => Err(XwininfoError::Read(reason)),
        Some(Ok(bytes)) => if bytes.len() > XWININFO_OUTPUT_LIMIT {
            Err(XwininfoError::OutputTooLarge)
        } else {
            Ok(bytes)
        },
    }
}

/// Outcome of ending a process: waiting for it counts more than ending it.
pub fn reap_result(kill: Result<(), String>, wait: Result<(), String>) -> (outcome: Result<
    (),
    String,
>)
    ensures
        outcome == if wait is Err {
            wait
        } else {
            kill
        },
{
    match wait {
        Err(reason) => Err(reason),
        Ok(_) => kill,
    }
}

/// Somebody who asks `xwininfo` about a window.
pub trait XwininfoCommandRunner {
    /// Output about a window, or why there is none in time.
    fn run(&self, window_id: u64, timeout: Duration) -> Result<Vec<u8>, XwininfoError>;
}

/// Size of the terminal in cells and in pixels.
#[derive(Debug, Clone, Copy, PartialEq, Eq, Structural)]
pub struct TerminalMetrics {
    pub columns: u16,
    pub rows: u16,
    pub pixel_width: u16,
    pub pixel_height: u16,
}

/// Correction of one axis: with cells of `font` pixels, where `ueberzug` takes
/// `span` pixels for all cells together. Everything moves by half of `shift`
/// pixels.
#[derive(Debug, Clone, Copy, PartialEq, Eq, Structural)]
pub struct AxisCorrection {
    pub cells: u16,
    pub font: u32,
    pub span: u32,
    pub shift: i64,
}

/// Correction of the placement for original `ueberzug`.
#[derive(Debug, Clone, Copy, PartialEq, Eq, Structural)]
pub enum CoordinateCalibration {
    /// The terminal's own cells are right.
    Identity,
    /// Both axes are corrected.
    Padding { x: AxisCorrection, y: AxisCorrection },
}

/// Pixels of an axis: those that the terminal reports, else those of its
/// window.
pub open spec fn axis_pixels(reported: u16, window: u32) -> int {
    if reported == 0 {
        window as int
    } else {
        reported as int
    }
}

/// Larger of two numbers.
pub open spec fn larger(a: int, b: int) -> int {
    if a >= b {
        a
    } else {
        b
    }
}

/// Correction for the sizes of a terminal and of its window, if there is one.
///
/// The pixels that do not make up whole cells are padding, half of it on each
/// side. A terminal that is smaller than its window in both directions needs no
/// correction. Otherwise `ueberzug` takes the larger padding for both axes.
pub open spec fn calibration_for(
    metrics: TerminalMetrics,
    window_width: u32,
    window_height: u32,
) -> Option<CoordinateCalibration> {
    let width = axis_pixels(metrics.pixel_width, window_width);
    let height = axis_pixels(metrics.pixel_height, window_height);
    if metrics.columns == 0 || metrics.rows == 0 || window_width == 0 || window_height == 0 {
        None
    } else if width < metrics.columns || height < metrics.rows {
        None
    } else if width < window_width && height < window_height {
        Some(CoordinateCalibration::Identity)
    } else {
        let spare_width = width % (metrics.columns as int);
        let spare_height = height % (metrics.rows as int);
        let shared = larger(spare_width, spare_height);
        if width <= shared || height <= shared {
            None
        } else {
            Some(
                CoordinateCalibration::Padding {
                    x: AxisCorrection {
                        cells: metrics.columns,
                        font: (width / (metrics.columns as int)) as u32,
                        span: (width - shared) as u32,
                        shift: (spare_width - shared) as i64,
                    },
                    y: AxisCorrection {
                        cells: metrics.rows,
                        font: (height / (metrics.rows as int)) as u32,
                        span: (height - shared) as u32,
                        shift: (spare_height - shared) as i64,
                    },
                },
            )
        }
    }
}

/// Whether a correction leaves an axis alone.
pub open spec fn is_exact(axis: AxisCorrection) -> bool {
    axis.span == axis.font * axis.cells && axis.shift == 0
}

/// The axis with the larger padding is never corrected, and the other one never
/// moves to the right or down. With equal paddings nothing is corrected.
pub proof fn law_larger_padding_is_exact(
    metrics: TerminalMetrics,
    window_width: u32,
    window_height: u32,
)
    requires
        calibration_for(metrics, window_width, window_height) matches Some(
            CoordinateCalibration::Padding { x, y },
        ),
    ensures
        calibration_for(metrics, window_width, window_height) matches Some(
            CoordinateCalibration::Padding { x, y },
        ) && {
            &&& is_exact(x) || is_exact(y)
            &&& x.shift <= 0 && y.shift <= 0
            &&& x.font >= 1 && y.font >= 1
            &&& x.span >= 1 && y.span >= 1
            &&& x.span <= x.font * x.cells && y.span <= y.font * y.cells
            &&& axis_pixels(metrics.pixel_width, window_width) % (metrics.columns as int)
                == axis_pixels(metrics.pixel_height, window_height) % (metrics.rows as int)
                ==> is_exact(x) && is_exact(y)
        },
{
    let width = axis_pixels(metrics.pixel_width, window_width);
    let height = axis_pixels(metrics.pixel_height, window_height);
    lemma_axis(width, metrics.columns as int);
    lemma_axis(height, metrics.rows as int);
    assert(width / (metrics.columns as int) <= width) by (nonlinear_arith)
        requires
            width >= 0,
            metrics.columns >= 1,
    ;
    assert(height / (metrics.rows as int) <= height) by (nonlinear_arith)
        requires
            height >= 0,
            metrics.rows >= 1,
    ;
}

/// Pixels of an axis are whole cells and spare pixels.
proof fn lemma_axis(pixels: int, cells: int)
    requires
        cells >= 1,
        pixels >= cells,
    ensures
        pixels == (pixels / cells) * cells + pixels % cells,
        0 <= pixels % cells < cells,
        pixels / cells >= 1,
{
    assert(pixels == (pixels / cells) * cells + pixels % cells) by (nonlinear_arith)
        requires
            cells >= 1,
    ;
    assert(0 <= pixels % cells < cells) by (nonlinear_arith)
        requires
            cells >= 1,
    ;
    assert(pixels / cells >= 1) by (nonlinear_arith)
        requires
            cells >= 1,
            pixels >= cells,
    ;
}

/// Window of the terminal, from the environment.
pub fn parse_window_id(value: Option<&str>) -> (id: Option<u64>)
    ensures
        id is Some == (value is Some && text::decimal(value->0@, u64::MAX as nat) is Some),
        id matches Some(n) ==> text::decimal(value->0@, u64::MAX as nat) == Some(n as nat),
{
    match value {
        Some(digits) => text::parse_decimal(&text::chars_of(digits), u64::MAX),
        None => None,
    }
}

/// Size that stands behind a label in the output of `xwininfo`.
pub open spec fn labelled_size(output: Seq<char>, label: Seq<char>) -> Option<nat> {
    match text::labelled(output, label) {
        Some(rest) => match text::decimal(text::trimmed(rest), u32::MAX as nat) {
            Some(size) if size > 0 => Some(size),
            _ => None,
        },
        None => None,
    }
}

/// Size that stands behind a label in the output of `xwininfo`. Only the first
/// line with the label counts, and it has to hold a positive number.
pub fn parse_xwininfo_dimension(output: &str, label: &str) -> (size: Option<u32>)
    ensures
        size is Some == labelled_size(output@, label@) is Some,
        size matches Some(n) ==> labelled_size(output@, label@) == Some(n as nat),
{
    match text::find_labelled(&text::chars_of(output), &text::chars_of(label)) {
        Some(rest) => match text::parse_decimal(&text::trim(&rest), u32::MAX as u64) {
            Some(value) => if value > 0 {
                Some(value as u32)
            } else {
                None
            },
            None => None,
        },
        None => None,
    }
}

/// Size of a window in the output of `xwininfo`.
pub open spec fn window_size(output: Seq<u8>) -> Option<(nat, nat)> {
    if valid_utf8(output) {
        match (
            labelled_size(decode_utf8(output), "Width:"@),
            labelled_size(decode_utf8(output), "Height:"@),
        ) {
            (Some(width), Some(height)) => Some((width, height)),
            _ => None,
        }
    } else {
        None
    }
}

/// Read the size of a window from the output of `xwininfo`.
pub fn parse_window_size(output: &Vec<u8>) -> (size: Option<(u32, u32)>)
    ensures
        size is Some == window_size(output@) is Some,
        size matches Some((width, height)) ==> window_size(output@) == Some(
            (width as nat, height as nat),
        ),
{
    match text::text_from_utf8(output.as_slice()) {
        None => None,
        Some(lines) => match parse_xwininfo_dimension(lines.as_str(), "Width:") {
            None => None,
            Some(width) => match parse_xwininfo_dimension(lines.as_str(), "Height:") {
                None => None,
                Some(height) => Some((width, height)),
            },
        },
    }
}

/// Size of a window that an answer of `xwininfo` tells.
pub open spec fn told_size(answer: Result<Vec<u8>, XwininfoError>) -> Option<(nat, nat)> {
    match answer {
        Ok(output) => window_size(output@),
        Err(_) => None,
    }
}

/// Ask for the size of a window.
pub fn query_window_size_with_runner<R: XwininfoCommandRunner>(window_id: u64, runner: &R) -> (size:
    Option<(u32, u32)>)
    requires
        call_requires(R::run, (runner, window_id, answer_limit())),
    ensures
        exists|answer: Result<Vec<u8>, XwininfoError>|
            {
                &&& #[trigger] call_ensures(R::run, (runner, window_id, answer_limit()), answer)
                &&& size is Some == told_size(answer) is Some
                &&& size matches Some((width, height)) ==> told_size(answer) == Some(
                    (width as nat, height as nat),
                )
            },
{
    let answer = runner.run(window_id, xwininfo_timeout());
    let ghost kept = answer;
    assert(call_ensures(R::run, (runner, window_id, answer_limit()), kept));
    match answer {
        Ok(output) => parse_window_size(&output),
        Err(_) => None,
    }
}

impl CoordinateCalibration {
    /// Work out the correction for a terminal in a window of a given size.
    pub fn from_metrics(metrics: TerminalMetrics, window_width: u32, window_height: u32) -> (found:
        Option<Self>)
        ensures
            found == calibration_for(metrics, window_width, window_height),
    {
        if metrics.columns == 0 || metrics.rows == 0 || window_width == 0 || window_height == 0 {
            return None;
        }
        let width: u32 = if metrics.pixel_width == 0 {
            window_width
        } else {
            metrics.pixel_width as u32
        };
        let height: u32 = if metrics.pixel_height == 0 {
            window_height
        } else {
            metrics.pixel_height as u32
        };
        let columns: u32 = metrics.columns as u32;
        let rows: u32 = metrics.rows as u32;
        if width < columns || height < rows {
            return None;
        }
        if width < window_width && height < window_height {
            return Some(CoordinateCalibration::Identity);
        }
        let spare_width: u32 = width % columns;
        let spare_height: u32 = height % rows;
        let shared: u32 = if spare_width >= spare_height {
            spare_width
        } else {
            spare_height
        };
        if width <= shared || height <= shared {
            return None;
        }
        Some(
            CoordinateCalibration::Padding {
                x: AxisCorrection {
                    cells: metrics.columns,
                    font: width / columns,
                    span: width - shared,
                    shift: spare_width as i64 - shared as i64,
                },
                y: AxisCorrection {
                    cells: metrics.rows,
                    font: height / rows,
                    span: height - shared,
                    shift: spare_height as i64 - shared as i64,
                },
            },
        )
    }

    /// Work out the correction for a terminal, asking for the size of the
    /// window that the environment names.
    pub fn discover_with_runner<R: XwininfoCommandRunner>(
        metrics: TerminalMetrics,
        window_id_value: Option<&str>,
        runner: &R,
    ) -> (found: Option<(TerminalMetrics, Self)>)
        requires
            forall|id: u64| #[trigger]
                call_requires(R::run, (runner, id, answer_limit())),
        ensures
            match window_id_value {
                Some(digits) if text::decimal(digits@, u64::MAX as nat) is Some => exists|
                    answer: Result<Vec<u8>, XwininfoError>,
                |
                    {
                        &&& #[trigger] call_ensures(
                            R::run,
                            (
                                runner,
                                text::decimal(digits@, u64::MAX as nat)->0 as u64,
                                answer_limit(),
                            ),
                            answer,
                        )
                        &&& found == match told_size(answer) {
                            Some((width, height)) => match calibration_for(
                                metrics,
                                width as u32,
                                height as u32,
                            ) {
                                Some(calibration) => Some((metrics, calibration)),
                                None => None,
                            },
                            None => None,
                        }
                    },
                _ => found is None,
            },
    {
        match parse_window_id(window_id_value) {
            None => None,
            Some(window_id) => match query_window_size_with_runner(window_id, runner) {
                None => None,
                Some((width, height)) => match Self::from_metrics(metrics, width, height) {
                    None => None,
                    Some(calibration) => Some((metrics, calibration)),
                },
            },
        }
    }
}

/// A rounded coordinate cut to the range of cells.
pub open spec fn cut_cell(rounded: i64) -> u16 {
    if rounded < 0 {
        0
    } else if rounded > 65535 {
        65535
    } else {
        rounded as u16
    }
}

/// A rounded extent cut to the range of cells. An extent that was there does
/// not vanish.
pub open spec fn cut_size(size: u16, rounded: i64) -> u16 {
    if size != 0 && rounded < 1 {
        1
    } else {
        cut_cell(rounded)
    }
}

/// Cut a rounded coordinate to the range of cells.
pub fn transform_cell(rounded: i64) -> (cell: u16)
    ensures
        cell == cut_cell(rounded),
{
    if rounded < 0 {
        0
    } else if rounded > 65535 {
        65535
    } else {
        rounded as u16
    }
}

/// Cut a rounded extent to the range of cells, keeping one cell of an extent
/// that was there.
pub fn transform_size(size: u16, rounded: i64) -> (cells: u16)
    ensures
        cells == cut_size(size, rounded),
        size != 0 ==> cells >= 1,
{
    if size != 0 && rounded < 1 {
        1
    } else {
        transform_cell(rounded)
    }
}

/// Corrected coordinates and extents of an image, each rounded to whole cells.
#[derive(Debug, Clone, Copy, PartialEq, Eq, Structural)]
pub struct RoundedArea {
    pub x: i64,
    pub y: i64,
    pub width: i64,
    pub height: i64,
}

/// Area for an image whose coordinates and extents were corrected and rounded.
pub open spec fn cut_area(area: Rect, rounded: RoundedArea) -> Rect {
    Rect {
        x: cut_cell(rounded.x),
        y: cut_cell(rounded.y),
        width: cut_size(area.width, rounded.width),
        height: cut_size(area.height, rounded.height),
    }
}

/// Area for an image after its corrected coordinates and extents were rounded.
pub fn transform(area: Rect, rounded: RoundedArea) -> (corrected: Rect)
    ensures
        corrected == cut_area(area, rounded),
{
    Rect {
        x: transform_cell(rounded.x),
        y: transform_cell(rounded.y),
        width: transform_size(area.width, rounded.width),
        height: transform_size(area.height, rounded.height),
    }
}

/// Area that an image is drawn in: its own, unless there is a correction of both
/// axes.
pub open spec fn placement(
    area: Rect,
    calibration: Option<CoordinateCalibration>,
    rounded: RoundedArea,
) -> Rect {
    match calibration {
        Some(CoordinateCalibration::Padding { .. }) => cut_area(area, rounded),
        _ => area,
    }
}

/// Place an image. `rounded` is what the correction makes of its area, and
/// counts only where both axes are corrected.
pub fn placed(area: Rect, calibration: Option<CoordinateCalibration>, rounded: RoundedArea) -> (found:
    Rect)
    ensures
        found == placement(area, calibration, rounded),
{
    match calibration {
        Some(CoordinateCalibration::Padding { x: _, y: _ }) => transform(area, rounded),
        _ => area,
    }
}

/// Area of the desired image, if there is one.
pub open spec fn desired_area(
    desired: Option<ArtworkOverlay>,
    calibration: Option<CoordinateCalibration>,
    rounded: RoundedArea,
) -> Rect {
    match desired {
        Some(image) => placement(image.rect, calibration, rounded),
        None => Rect { x: 0, y: 0, width: 0, height: 0 },
    }
}

/// Build the command that shows an image in its own area.
pub fn add_command(overlay: &ArtworkOverlay) -> (command: Value)
    requires
        valid_utf8(overlay.path@),
    ensures
        json::object_members(command) == Some(
            layer::show_members(*overlay, overlay.rect, Scaler::Contain),
        ),
{
    add_command_with_area(overlay, overlay.rect)
}

/// Build the command that shows an image in a corrected area.
pub fn add_command_with_area(overlay: &ArtworkOverlay, area: Rect) -> (command: Value)
    requires
        valid_utf8(overlay.path@),
    ensures
        json::object_members(command) == Some(
            layer::show_members(*overlay, area, Scaler::Contain),
        ),
{
    overlay::build_add_command(overlay, area, layer::scaler_name(Scaler::Contain))
}

/// Build the command that removes an image.
pub fn remove_command(identifier: &str) -> (command: Value)
    ensures
        json::object_members(command) == Some(overlay::remove_members(identifier@)),
{
    overlay::build_remove_command(identifier)
}

/// What became of the correction that is being worked out.
#[derive(Debug, Clone, Copy, PartialEq, Eq)]
pub enum RefreshAnswer {
    /// It is not finished.
    Waiting,
    /// Nobody works on it any more.
    Lost,
    /// It is finished, perhaps in vain.
    Finished(Option<(TerminalMetrics, CoordinateCalibration)>),
}

/// What to do before an image is placed.
#[derive(Debug, Clone, Copy, PartialEq, Eq, Structural)]
pub enum RefreshStep {
    /// Go on with the correction at hand.
    Ready,
    /// Let somebody work out the correction for these sizes, and go on with the
    /// one at hand.
    Discover(TerminalMetrics),
    /// There is no usable correction.
    Unusable,
}

/// Conversation with original `ueberzug`.
pub struct Manager {
    pub pipe: LayerPipe,
    pub calibration: Option<CoordinateCalibration>,
    /// Whether the correction follows the terminal's size.
    pub refresh_calibration: bool,
    /// Terminal that the correction is for.
    pub metrics: Option<TerminalMetrics>,
    /// Terminal that a correction is being worked out for.
    pub calibration_refresh: Option<TerminalMetrics>,
}

/// Manager after an answer about the correction that is being worked out; none
/// if it is not usable. The flag tells whether to go on.
pub open spec fn after_refresh_answer(
    m: Manager,
    metrics: TerminalMetrics,
    answer: RefreshAnswer,
) -> Manager {
    match (m.calibration_refresh, answer) {
        (Some(pending), RefreshAnswer::Finished(Some((measured, calibration)))) => {
            if measured == pending && measured == metrics {
                Manager {
                    calibration_refresh: None,
                    metrics: Some(measured),
                    calibration: Some(calibration),
                    ..m
                }
            } else {
                Manager { calibration_refresh: None, ..m }
            }
        },
        _ => m,
    }
}

/// Whether the correction that is being worked out came to nothing.
pub open spec fn refresh_lost(m: Manager, answer: RefreshAnswer) -> bool {
    m.calibration_refresh is Some && (answer is Lost || answer
        == RefreshAnswer::Finished(None::<(TerminalMetrics, CoordinateCalibration)>))
}

/// What to do before an image is placed.
pub open spec fn refresh_step(
    m: Manager,
    metrics: Option<TerminalMetrics>,
    answer: RefreshAnswer,
) -> RefreshStep {
    if !m.refresh_calibration {
        RefreshStep::Ready
    } else {
        match metrics {
            None => RefreshStep::Unusable,
            Some(now) => {
                let next = after_refresh_answer(m, now, answer);
                if refresh_lost(m, answer) {
                    RefreshStep::Unusable
                } else if m.calibration_refresh is Some && answer is Waiting {
                    RefreshStep::Ready
                } else if next.metrics == Some(now) {
                    if next.calibration is Some {
                        RefreshStep::Ready
                    } else {
                        RefreshStep::Unusable
                    }
                } else {
                    RefreshStep::Discover(now)
                }
            },
        }
    }
}

/// Manager after the terminal was measured.
pub open spec fn refreshed(
    m: Manager,
    metrics: Option<TerminalMetrics>,
    answer: RefreshAnswer,
) -> Manager {
    match metrics {
        Some(now) if m.refresh_calibration => {
            let next = after_refresh_answer(m, now, answer);
            if refresh_step(m, metrics, answer) is Discover {
                Manager { calibration_refresh: Some(now), ..next }
            } else {
                next
            }
        },
        _ => m,
    }
}

impl Manager {
    /// Start a conversation without a correction.
    pub fn new() -> (manager: Self)
        ensures
            manager == (Manager {
                pipe: LayerPipe {
                    scaler: Scaler::Contain,
                    active: None,
                    enabled: true,
                    stage: layer::LayerStage::Idle,
                },
                calibration: None,
                refresh_calibration: false,
                metrics: None,
                calibration_refresh: None,
            }),
    {
        Manager {
            pipe: LayerPipe::new(Scaler::Contain),
            calibration: None,
            refresh_calibration: false,
            metrics: None,
            calibration_refresh: None,
        }
    }

    /// Start a conversation whose correction follows the terminal's size.
    pub fn calibrated(metrics: TerminalMetrics, calibration: CoordinateCalibration) -> (manager:
        Self)
        ensures
            manager == (Manager {
                pipe: LayerPipe {
                    scaler: Scaler::Contain,
                    active: None,
                    enabled: true,
                    stage: layer::LayerStage::Idle,
                },
                calibration: Some(calibration),
                refresh_calibration: true,
                metrics: Some(metrics),
                calibration_refresh: None,
            }),
    {
        Manager {
            pipe: LayerPipe::new(Scaler::Contain),
            calibration: Some(calibration),
            refresh_calibration: true,
            metrics: Some(metrics),
            calibration_refresh: None,
        }
    }

    /// Whether commands can still be sent.
    pub fn is_enabled(&self) -> (enabled: bool)
        ensures
            enabled == self.pipe.enabled,
    {
        self.pipe.enabled
    }

    /// Correction at hand.
    pub fn calibration(&self) -> (found: Option<CoordinateCalibration>)
        ensures
            found == self.calibration,
    {
        self.calibration
    }

    /// Bring the correction up to date with the size of the terminal, if it can
    /// be told, and with what became of a correction that is being worked out.
    ///
    /// A finished correction is used only if it is for the size that it was
    /// asked for and that the terminal has now. Until one is finished, the
    /// correction at hand stays in use.
    pub fn refresh_runtime_calibration(
        &mut self,
        metrics: Option<TerminalMetrics>,
        answer: RefreshAnswer,
    ) -> (step: RefreshStep)
        ensures
            step == refresh_step(*old(self), metrics, answer),
            *final(self) == refreshed(*old(self), metrics, answer),
    {
        if !self.refresh_calibration {
            return RefreshStep::Ready;
        }
        let now = match metrics {
            Some(now) => now,
            None => {
                return RefreshStep::Unusable;
            },
        };
        match self.calibration_refresh {
            Some(pending) => match answer {
                RefreshAnswer::Finished(Some((measured, calibration))) => {
                    self.calibration_refresh = None;
                    if measured == pending && measured == now {
                        self.metrics = Some(measured);
                        self.calibration = Some(calibration);
                    }
                },
                RefreshAnswer::Finished(None) | RefreshAnswer::Lost => {
                    return RefreshStep::Unusable;
                },
                RefreshAnswer::Waiting => {
                    return RefreshStep::Ready;
                },
            },
            None => {},
        }
        let current = match self.metrics {
            Some(known) => known == now,
            None => false,
        };
        if current {
            return if self.calibration.is_some() {
                RefreshStep::Ready
            } else {
                RefreshStep::Unusable
            };
        }
        self.calibration_refresh = Some(now);
        RefreshStep::Discover(now)
    }

    /// Make the desired image known after a frame was drawn. `rounded` is what
    /// the correction at hand makes of its area, and `refresh` is what
    /// [`Manager::refresh_runtime_calibration`] said for this frame.
    pub fn reconcile(
        &mut self,
        desired: Option<ArtworkOverlay>,
        rounded: RoundedArea,
        refresh: RefreshStep,
        status: ProcessStatus,
    ) -> (step: LayerStep)
        requires
            !(refresh is Unusable) ==> layer::printable(
                layer::added_at_once(old(self).pipe, desired, status),
            ),
        ensures
            !old(self).pipe.enabled ==> *final(self) == *old(self) && step is Rest,
            old(self).pipe.enabled && refresh is Unusable ==> *final(self) == (Manager {
                pipe: LayerPipe { enabled: false, ..old(self).pipe },
                ..*old(self)
            }) && step is Disable,
            old(self).pipe.enabled && !(refresh is Unusable) ==> {
                let area = desired_area(desired, old(self).calibration, rounded);
                &&& *final(self) == (Manager {
                    pipe: layer::reconciled(old(self).pipe, desired, area, status),
                    ..*old(self)
                })
                &&& layer::reconciles(old(self).pipe, desired, area, status, step)
            },
    {
        if !self.pipe.enabled {
            return LayerStep::Rest;
        }
        match refresh {
            RefreshStep::Unusable => self.pipe.disable(),
            _ => {
                let area = match &desired {
                    Some(image) => placed(image.rect, self.calibration, rounded),
                    None => Rect { x: 0, y: 0, width: 0, height: 0 },
                };
                self.pipe.reconcile(desired, area, status)
            },
        }
    }

    /// Report how sending a command went.
    pub fn sent(&mut self, outcome: SendOutcome) -> (step: LayerStep)
        requires
            layer::printable(layer::added_next(old(self).pipe, outcome)),
        ensures
            *final(self) == (Manager {
                pipe: layer::acknowledged(old(self).pipe, outcome),
                ..*old(self)
            }),
            layer::follows(old(self).pipe, outcome, step),
    {
        self.pipe.sent(outcome)
    }

    /// End the conversation.
    pub fn cleanup_layer(&mut self) -> (step: LayerStep)
        ensures
            *final(self) == (Manager { pipe: final(self).pipe, ..*old(self) }),
            layer::cleans_up(old(self).pipe, final(self).pipe, step),
    {
        self.pipe.cleanup_layer()
    }
}

/// A correction that was worked out for another size is never used.
pub proof fn law_stale_calibrations_are_not_used(
    m: Manager,
    now: TerminalMetrics,
    measured: TerminalMetrics,
    calibration: CoordinateCalibration,
)
    requires
        m.refresh_calibration,
        m.calibration_refresh is Some,
        measured != now || m.calibration_refresh != Some(measured),
    ensures
        refreshed(m, Some(now), RefreshAnswer::Finished(Some((measured, calibration)))).calibration
            == m.calibration,
        refreshed(m, Some(now), RefreshAnswer::Finished(Some((measured, calibration)))).metrics
            == m.metrics,
{
}

/// At most one correction is worked out at a time: while one is on its way,
/// nothing is asked for.
pub proof fn law_one_calibration_at_a_time(m: Manager, now: Option<TerminalMetrics>)
    requires
        m.calibration_refresh is Some,
    ensures
        !(refresh_step(m, now, RefreshAnswer::Waiting) is Discover),
        refreshed(m, now, RefreshAnswer::Waiting) == m,
{
}

} // verus!
