//! Promises about the correction for original `ueberzug`.
//!
//! Each law is about the calls themselves: what a call may return for what it
//! was given.
use crate::artwork::ueberzug;
use crate::artwork::ueberzug::{
    CoordinateCalibration, Manager, PollStatus, PollStep, RefreshAnswer, RefreshStep, RoundedArea,
    TerminalMetrics, XwininfoCommandRunner, XwininfoError,
};
use crate::geometry::Rect;
use crate::text;
use crate::time::Duration;
use vstd::math;
use vstd::prelude::*;
use vstd::utf8::*;

verus! {

/// Pixels of a terminal: its own, or those of its window where it tells none.
pub open spec fn pixels(reported: u16, window: u32) -> int {
    if reported != 0 {
        reported as int
    } else {
        window as int
    }
}

/// A correction is there only for a terminal with cells of at least a pixel in a
/// window with an extent. A terminal that is smaller than its window both ways
/// needs none. Otherwise each axis has cells of as many whole pixels as fit, and
/// both axes lose the pixels that are left over on the axis where more are.
pub proof fn law_corrections_share_the_larger_padding(
    metrics: TerminalMetrics,
    window_width: u32,
    window_height: u32,
    found: Option<CoordinateCalibration>,
)
    requires
        call_ensures(
            CoordinateCalibration::from_metrics,
            (metrics, window_width, window_height),
            found,
        ),
    ensures
        ({
            let width = pixels(metrics.pixel_width, window_width);
            let height = pixels(metrics.pixel_height, window_height);
            let columns = metrics.columns as int;
            let rows = metrics.rows as int;
            let sound = columns > 0 && rows > 0 && window_width > 0 && window_height > 0 && width
                >= columns && height >= rows;
            let inside = width < window_width && height < window_height;
            &&& !sound ==> found is None
            &&& sound && inside ==> found == Some(CoordinateCalibration::Identity)
            &&& found matches Some(CoordinateCalibration::Padding { x, y }) ==> {
                let spare_width = width - x.font * columns;
                let spare_height = height - y.font * rows;
                let shared = math::max(spare_width, spare_height);
                &&& sound && !inside
                &&& x.cells == columns && y.cells == rows
                &&& 0 <= spare_width < columns
                &&& 0 <= spare_height < rows
                &&& x.span == width - shared && y.span == height - shared
                &&& x.shift == spare_width - shared && y.shift == spare_height - shared
                &&& shared < width && shared < height
            }
            &&& sound && !inside && width >= rows && height >= columns ==> (
            found matches Some(c) && c is Padding)
        }),
{
    let width = pixels(metrics.pixel_width, window_width);
    let height = pixels(metrics.pixel_height, window_height);
    let columns = metrics.columns as int;
    let rows = metrics.rows as int;
    if columns > 0 {
        assert(width == (width / columns) * columns + width % columns && 0 <= width % columns
            < columns) by (nonlinear_arith)
            requires
                columns > 0,
        ;
        assert(0 <= width / columns <= width) by (nonlinear_arith)
            requires
                columns > 0,
                width >= 0,
        ;
    }
    if rows > 0 {
        assert(height == (height / rows) * rows + height % rows && 0 <= height % rows < rows)
            by (nonlinear_arith)
            requires
                rows > 0,
        ;
        assert(0 <= height / rows <= height) by (nonlinear_arith)
            requires
                rows > 0,
                height >= 0,
        ;
    }
}

/// A correction that follows the terminal stays in use until another one is
/// finished. A new size asks for a new correction, once; one that comes for just
/// the size that was asked for and that the terminal has is used; one that comes
/// for another size is not; and one that fails leaves none to use.
pub proof fn law_corrections_follow_the_terminal(
    manager: &mut Manager,
    metrics: Option<TerminalMetrics>,
    answer: RefreshAnswer,
    step: RefreshStep,
)
    requires
        call_ensures(Manager::refresh_runtime_calibration, (manager, metrics, answer), step),
        old(manager).calibration is Some,
    ensures
        final(manager).pipe == old(manager).pipe,
        final(manager).refresh_calibration == old(manager).refresh_calibration,
        !old(manager).refresh_calibration ==> step is Ready && *final(manager) == *old(manager),
        old(manager).refresh_calibration && metrics is None ==> step is Unusable && *final(manager)
            == *old(manager),
        old(manager).refresh_calibration && metrics is Some ==> {
            let now = metrics->0;
            let known = old(manager).metrics == Some(now);
            match old(manager).calibration_refresh {
                None => {
                    &&& known ==> step is Ready && *final(manager) == *old(manager)
                    &&& !known ==> step == RefreshStep::Discover(now) && *final(manager) == (
                    Manager { calibration_refresh: Some(now), ..*old(manager) })
                },
                Some(asked) => {
                    &&& answer is Waiting ==> step is Ready && *final(manager) == *old(manager)
                    &&& answer is Lost ==> step is Unusable
                    &&& answer matches RefreshAnswer::Finished(found) ==> {
                        let right = found matches Some((measured, _)) && measured == asked && asked
                            == now;
                        &&& found is None ==> step is Unusable
                        &&& right ==> step is Ready && *final(manager) == (Manager {
                            calibration: match found {
                                Some((_, correction)) => Some(correction),
                                None => None,
                            },
                            metrics: Some(now),
                            calibration_refresh: None,
                            ..*old(manager)
                        })
                        &&& found is Some && !right ==> {
                            &&& final(manager).calibration == old(manager).calibration
                            &&& final(manager).metrics == old(manager).metrics
                            &&& known ==> step is Ready
                                && final(manager).calibration_refresh is None
                            &&& !known ==> step == RefreshStep::Discover(now)
                                && final(manager).calibration_refresh == Some(now)
                        }
                    }
                },
            }
        },
{
}

/// Cells and extents are cut to the range that a command can hold, and an extent
/// that was there does not vanish. Only a correction of both axes moves an image.
pub proof fn law_placements_stay_in_range(
    area: Rect,
    calibration: Option<CoordinateCalibration>,
    rounded: RoundedArea,
    found: Rect,
    value: i64,
    cell: u16,
    size: u16,
    extent: u16,
)
    requires
        call_ensures(ueberzug::placed, (area, calibration, rounded), found),
        call_ensures(ueberzug::transform_cell, (value,), cell),
        call_ensures(ueberzug::transform_size, (size, value), extent),
    ensures
        cell == math::max(0, math::min(value as int, 65535)),
        extent == math::max(math::min(size as int, 1), math::min(value as int, 65535)),
        calibration is None || calibration->0 is Identity ==> found == area,
        calibration matches Some(CoordinateCalibration::Padding { .. }) ==> {
            &&& found.x == math::max(0, math::min(rounded.x as int, 65535))
            &&& found.y == math::max(0, math::min(rounded.y as int, 65535))
            &&& found.width == math::max(
                math::min(area.width as int, 1),
                math::min(rounded.width as int, 65535),
            )
            &&& found.height == math::max(
                math::min(area.height as int, 1),
                math::min(rounded.height as int, 65535),
            )
        },
{
}

/// `xwininfo` is waited for until its time is up. Its output counts only if it
/// ended well, and only if it is not too long.
pub proof fn law_answers_count_only_in_time_and_in_full(
    elapsed: Duration,
    timeout: Duration,
    reason: String,
    running: PollStep,
    good: PollStep,
    bad: PollStep,
    unknown: PollStep,
    output: Vec<u8>,
    collected: Result<Vec<u8>, XwininfoError>,
    unread: Result<Vec<u8>, XwininfoError>,
    missing: Result<Vec<u8>, XwininfoError>,
)
    requires
        call_ensures(ueberzug::poll_step, (PollStatus::Running, elapsed, timeout), running),
        call_ensures(ueberzug::poll_step, (PollStatus::Exited(true), elapsed, timeout), good),
        call_ensures(ueberzug::poll_step, (PollStatus::Exited(false), elapsed, timeout), bad),
        call_ensures(ueberzug::poll_step, (PollStatus::Failed(reason), elapsed, timeout), unknown),
        call_ensures(
            ueberzug::collect_output,
            (Some(Ok::<Vec<u8>, String>(output)),),
            collected,
        ),
        call_ensures(
            ueberzug::collect_output,
            (Some(Err::<Vec<u8>, String>(reason)),),
            unread,
        ),
        call_ensures(ueberzug::collect_output, (None::<Result<Vec<u8>, String>>,), missing),
    ensures
        elapsed.nanos < timeout.nanos ==> running is Sleep,
        elapsed.nanos >= timeout.nanos ==> running == PollStep::Abort(XwininfoError::TimedOut),
        good is Collect,
        bad == PollStep::Abort(XwininfoError::NonSuccess),
        unknown == PollStep::Abort(XwininfoError::Wait(reason)),
        output@.len() <= 64 * 1024 ==> collected == Ok::<Vec<u8>, XwininfoError>(output),
        output@.len() > 64 * 1024 ==> collected == Err::<Vec<u8>, XwininfoError>(
            XwininfoError::OutputTooLarge,
        ),
        unread == Err::<Vec<u8>, XwininfoError>(XwininfoError::Read(reason)),
        missing == Err::<Vec<u8>, XwininfoError>(XwininfoError::MissingStdout),
{
}

/// The size of a window is its width and its height, both of which have to be
/// there.
pub proof fn law_window_sizes_have_both_sides(
    output: &Vec<u8>,
    lines: &str,
    size: Option<(u32, u32)>,
    width: Option<u32>,
    height: Option<u32>,
    wide: &str,
    high: &str,
)
    requires
        call_ensures(ueberzug::parse_window_size, (output,), size),
        valid_utf8(output@),
        lines@ == decode_utf8(output@),
        wide@ == "Width:"@,
        high@ == "Height:"@,
        call_ensures(ueberzug::parse_xwininfo_dimension, (lines, wide), width),
        call_ensures(ueberzug::parse_xwininfo_dimension, (lines, high), height),
    ensures
        size is Some == (width is Some && height is Some),
        size matches Some(both) ==> both == (width->0, height->0),
        width matches Some(n) ==> n > 0,
        height matches Some(n) ==> n > 0,
{
}

/// A line that does not begin with the label, white space aside, does not matter.
/// The first one that does gives the number behind the label.
pub proof fn law_the_first_labelled_line_counts(
    line: Seq<char>,
    rest: &str,
    output: &str,
    label: &str,
    size: Option<u32>,
    other: Option<u32>,
    indent: Seq<char>,
    number: Seq<char>,
    n: nat,
)
    requires
        !line.contains('\n'),
        line.len() == 0 || line.last() != '\r',
        output@ == line.push('\n') + rest@,
        call_ensures(ueberzug::parse_xwininfo_dimension, (output, label), size),
        call_ensures(ueberzug::parse_xwininfo_dimension, (rest, label), other),
        label@.len() > 0,
        !text::is_white(label@[0]),
        line == indent + number,
        forall|i: int| 0 <= i < indent.len() ==> text::is_white(#[trigger] indent[i]),
        number.len() > 0 ==> !text::is_white(number[0]),
    ensures
        !label@.is_prefix_of(number) ==> size == other,
        label@.is_prefix_of(number) && number.skip(label@.len() as int) == seq![' ']
            + text::decimal_text(n) && 0 < n <= u32::MAX ==> size == Some(n as u32),
{
    let whole = output@;
    assert(whole[line.len() as int] == '\n');
    assert forall|i: int| 0 <= i < line.len() implies #[trigger] whole[i] != '\n' by {
        assert(line.contains(line[i]));
    }
    text::lemma_line_end_is(whole, line.len() as int);
    assert(whole.take(line.len() as int) =~= line);
    if line.len() > 0 {
        assert(whole[line.len() - 1] == line.last());
    }
    assert(text::first_line(whole) == line);
    text::lemma_trimmed_start_is(indent, number);
    assert(text::trimmed_start(line) == number);
    assert(whole.skip(line.len() as int + 1) =~= rest@);
    if label@.is_prefix_of(number) && number.skip(label@.len() as int) == seq![' ']
        + text::decimal_text(n) && 0 < n <= u32::MAX {
        let digits = text::decimal_text(n);
        text::law_decimal_text_reads_back(n, u32::MAX as nat);
        text::lemma_decimal_text_is_digits(n);
        text::lemma_trimmed_start_is(seq![' '], digits);
        assert(!text::is_white(digits.last()));
        assert(text::trimmed(seq![' '] + digits) == digits);
    }
}

/// A correction is worked out for the terminal that was measured, with the size of
/// the window that the environment names. Without a window, or without an answer,
/// there is none.
pub proof fn law_corrections_are_for_the_measured_terminal<R: XwininfoCommandRunner>(
    metrics: TerminalMetrics,
    window: Option<&str>,
    runner: &R,
    found: Option<(TerminalMetrics, CoordinateCalibration)>,
    id: Option<u64>,
)
    requires
        call_ensures(
            CoordinateCalibration::discover_with_runner::<R>,
            (metrics, window, runner),
            found,
        ),
        call_ensures(ueberzug::parse_window_id, (window,), id),
    ensures
        id is None ==> found is None,
        found matches Some((measured, _)) ==> measured == metrics,
        id matches Some(n) ==> exists|answer: Result<Vec<u8>, XwininfoError>|
            {
                &&& #[trigger] call_ensures(
                    R::run,
                    (runner, n, Duration { nanos: 100_000_000 }),
                    answer,
                )
                &&& answer is Err ==> found is None
                &&& answer matches Ok(output) ==> match ueberzug::window_size(output@) {
                    None => found is None,
                    Some((width, height)) => found == match ueberzug::calibration_for(
                        metrics,
                        width as u32,
                        height as u32,
                    ) {
                        Some(correction) => Some((metrics, correction)),
                        None => None,
                    },
                }
            },
{
    if id is Some {
        let n = id->0;
        let answer = choose|answer: Result<Vec<u8>, XwininfoError>|
            {
                &&& #[trigger] call_ensures(
                    R::run,
                    (runner, n, ueberzug::answer_limit()),
                    answer,
                )
                &&& found == match ueberzug::told_size(answer) {
                    Some((width, height)) => match ueberzug::calibration_for(
                        metrics,
                        width as u32,
                        height as u32,
                    ) {
                        Some(correction) => Some((metrics, correction)),
                        None => None,
                    },
                    None => None,
                }
            };
        assert(call_ensures(R::run, (runner, n, Duration { nanos: 100_000_000 }), answer));
    }
}

/// A window is asked about once, within its time, and its size is what the answer
/// tells.
pub proof fn law_windows_have_the_size_that_is_told<R: XwininfoCommandRunner>(
    id: u64,
    runner: &R,
    size: Option<(u32, u32)>,
)
    requires
        call_ensures(ueberzug::query_window_size_with_runner::<R>, (id, runner), size),
    ensures
        exists|answer: Result<Vec<u8>, XwininfoError>|
            {
                &&& #[trigger] call_ensures(
                    R::run,
                    (runner, id, Duration { nanos: 100_000_000 }),
                    answer,
                )
                &&& answer is Err ==> size is None
                &&& answer matches Ok(output) ==> match ueberzug::window_size(output@) {
                    None => size is None,
                    Some((width, height)) => size matches Some((w, h)) && w == width && h == height,
                }
            },
{
    let answer = choose|answer: Result<Vec<u8>, XwininfoError>|
        {
            &&& #[trigger] call_ensures(R::run, (runner, id, ueberzug::answer_limit()), answer)
            &&& size is Some == ueberzug::told_size(answer) is Some
            &&& size matches Some((width, height)) ==> ueberzug::told_size(answer) == Some(
                (width as nat, height as nat),
            )
        };
    assert(call_ensures(R::run, (runner, id, Duration { nanos: 100_000_000 }), answer));
}

/// Windows are named by whole numbers, and a process was ended only if it was also
/// waited for.
pub proof fn law_windows_are_named_by_numbers(
    value: &str,
    id: Option<u64>,
    chars: Vec<char>,
    number: Option<u64>,
    none: Option<u64>,
    kill: Result<(), String>,
    wait: Result<(), String>,
    outcome: Result<(), String>,
)
    requires
        call_ensures(ueberzug::parse_window_id, (Some(value),), id),
        chars@ == value@,
        call_ensures(text::parse_decimal, (&chars, u64::MAX), number),
        call_ensures(ueberzug::parse_window_id, (None::<&str>,), none),
        call_ensures(ueberzug::reap_result, (kill, wait), outcome),
    ensures
        id == number,
        none is None,
        outcome is Ok == (kill is Ok && wait is Ok),
        wait is Err ==> outcome == wait,
        wait is Ok && kill is Err ==> outcome == kill,
{
}

} // verus!
