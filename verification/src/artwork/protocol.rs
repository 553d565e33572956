//! Resizing covers for the terminal without blocking the interface.
//!
//! Encoding a cover is slow, so the interface hands its protocol to a worker
//! and goes on without one. Requests are numbered. A completion is applied
//! only if it answers the request that is still pending, so a cover that was
//! replaced in the meantime never comes back.
use crate::artwork::images;
use crate::artwork::terminal;
use crate::artwork::terminal::Fitting;
use crate::geometry::{FontSize, Size};
use ratatui_image::protocol::StatefulProtocol;
use vstd::prelude::*;

verus! {

/// Largest edge of playlist artwork in terminal pixels.
pub const PLAYLIST_ARTWORK_MAX_PIXELS: u32 = 144;

/// Largest edge that a resize request produces, in terminal pixels.
pub const MAX_RESIZE_PIXELS: u32 = 1024;

/// Requests and completions that may wait for the worker and for the interface.
pub const RESIZE_QUEUE_CAPACITY: usize = 4;

/// Whole cells of `cell` pixels that fit into `pixels`. A cell without extent
/// counts as one pixel.
pub open spec fn whole_cells(pixels: u32, cell: u16) -> u16 {
    if cell >= 1 {
        (pixels as int / cell as int) as u16
    } else {
        pixels as u16
    }
}

/// Area of whole cells that fits into a square of `pixels`.
pub open spec fn whole_area(pixels: u32, font: FontSize) -> Size {
    Size { width: whole_cells(pixels, font.width), height: whole_cells(pixels, font.height) }
}

/// A number of cells, but at least one.
pub open spec fn some_cells(cells: u16) -> u16 {
    if cells >= 1 {
        cells
    } else {
        1
    }
}

/// Area of whole cells that fits into a square of `pixels`, but at least one
/// cell in each direction.
pub open spec fn area_within(pixels: u32, font: FontSize) -> Size {
    Size {
        width: some_cells(whole_cells(pixels, font.width)),
        height: some_cells(whole_cells(pixels, font.height)),
    }
}

/// Count the whole cells of `cell` pixels that fit into `pixels`.
fn count_cells(pixels: u32, cell: u16) -> (cells: u16)
    requires
        pixels <= 65535,
    ensures
        cells == whole_cells(pixels, cell),
{
    if cell >= 1 {
        assert(pixels as int / cell as int <= pixels) by (nonlinear_arith)
            requires
                cell >= 1,
        ;
        (pixels / cell as u32) as u16
    } else {
        pixels as u16
    }
}

/// Convert the playlist bound into a target in terminal cells. Each side is
/// rounded down, so that even a large font never exceeds the bound: a cell that
/// is larger than the bound leaves none.
pub fn playlist_target_for_font(font_size: FontSize) -> (target: Size)
    ensures
        target == whole_area(PLAYLIST_ARTWORK_MAX_PIXELS, font_size),
        target.width * font_size.width <= PLAYLIST_ARTWORK_MAX_PIXELS,
        target.height * font_size.height <= PLAYLIST_ARTWORK_MAX_PIXELS,
        font_size.width >= 1 ==> (target.width + 1) * font_size.width > PLAYLIST_ARTWORK_MAX_PIXELS,
        font_size.height >= 1 ==> (target.height + 1) * font_size.height
            > PLAYLIST_ARTWORK_MAX_PIXELS,
{
    proof {
        law_whole_area_is_the_largest_within_the_bound(PLAYLIST_ARTWORK_MAX_PIXELS, font_size);
    }
    Size {
        width: count_cells(PLAYLIST_ARTWORK_MAX_PIXELS, font_size.width),
        height: count_cells(PLAYLIST_ARTWORK_MAX_PIXELS, font_size.height),
    }
}

/// Convert the worker's bound into a target in terminal cells. Each side is
/// rounded down but keeps at least one cell.
pub fn resize_target_for_font(font_size: FontSize) -> (target: Size)
    ensures
        target == area_within(MAX_RESIZE_PIXELS, font_size),
{
    let width = count_cells(MAX_RESIZE_PIXELS, font_size.width);
    let height = count_cells(MAX_RESIZE_PIXELS, font_size.height);
    Size {
        width: if width >= 1 {
            width
        } else {
            1
        },
        height: if height >= 1 {
            height
        } else {
            1
        },
    }
}

/// Whole cells never exceed the pixel bound, whatever the font, and with a font
/// that has an extent one cell more would.
pub proof fn law_whole_area_is_the_largest_within_the_bound(pixels: u32, font: FontSize)
    requires
        pixels <= 65535,
    ensures
        whole_area(pixels, font).width * font.width <= pixels,
        whole_area(pixels, font).height * font.height <= pixels,
        font.width >= 1 ==> (whole_area(pixels, font).width + 1) * font.width > pixels,
        font.height >= 1 ==> (whole_area(pixels, font).height + 1) * font.height > pixels,
{
    lemma_whole_cells(pixels, font.width);
    lemma_whole_cells(pixels, font.height);
}

/// A target that keeps a cell in each direction stays within the pixel bound
/// unless a single cell already exceeds it.
pub proof fn law_area_within_exceeds_the_bound_by_one_cell_at_most(pixels: u32, font: FontSize)
    requires
        pixels <= 65535,
    ensures
        area_within(pixels, font).width >= 1,
        area_within(pixels, font).height >= 1,
        font.width <= pixels ==> area_within(pixels, font).width * font.width <= pixels,
        font.height <= pixels ==> area_within(pixels, font).height * font.height <= pixels,
        font.width > pixels ==> area_within(pixels, font).width == 1,
        font.height > pixels ==> area_within(pixels, font).height == 1,
{
    lemma_whole_cells(pixels, font.width);
    lemma_whole_cells(pixels, font.height);
}

/// One side of an area of whole cells.
proof fn lemma_whole_cells(pixels: u32, cell: u16)
    requires
        pixels <= 65535,
    ensures
        whole_cells(pixels, cell) * cell <= pixels,
        cell >= 1 ==> (whole_cells(pixels, cell) + 1) * cell > pixels,
        1 <= cell <= pixels ==> whole_cells(pixels, cell) >= 1,
        cell > pixels ==> whole_cells(pixels, cell) == 0,
{
    if cell >= 1 {
        let whole = pixels as int / cell as int;
        assert(0 <= whole <= pixels && whole * cell <= pixels && (whole + 1) * cell > pixels)
            by (nonlinear_arith)
            requires
                cell >= 1,
                pixels >= 0,
                whole == pixels as int / cell as int,
        ;
        assert(pixels < cell ==> whole == 0) by (nonlinear_arith)
            requires
                cell >= 1,
                pixels >= 0,
                whole == pixels as int / cell as int,
        ;
        assert(pixels >= cell ==> whole >= 1) by (nonlinear_arith)
            requires
                cell >= 1,
                pixels >= 0,
                whole == pixels as int / cell as int,
        ;
    }
}

/// Whether a protocol with this font can be encoded for any target within
/// `limit`.
pub open spec fn fits(font: FontSize, limit: Size) -> bool {
    &&& limit.width >= 1
    &&& limit.height >= 1
    &&& terminal::encodable(font, limit)
}

/// The worker's bound for a font suits every protocol with that font.
pub proof fn law_resize_target_fits_its_font(font: FontSize)
    requires
        font.width >= 1,
        font.height >= 1,
    ensures
        fits(font, area_within(MAX_RESIZE_PIXELS, font)),
{
    law_area_within_exceeds_the_bound_by_one_cell_at_most(MAX_RESIZE_PIXELS, font);
    let target = area_within(MAX_RESIZE_PIXELS, font);
    if font.width > MAX_RESIZE_PIXELS {
        assert(target.width * font.width == font.width) by (nonlinear_arith)
            requires
                target.width == 1,
        ;
    }
    if font.height > MAX_RESIZE_PIXELS {
        assert(target.height * font.height == font.height) by (nonlinear_arith)
            requires
                target.height == 1,
        ;
    }
}

/// One numbered request to the resize worker.
pub struct ResizeRequest {
    pub generation: u64,
    pub target: Size,
    pub protocol: StatefulProtocol,
}

/// Answer of the resize worker, routed back to whoever asked.
pub struct ResizeResponse {
    pub generation: u64,
    pub target: Size,
    pub result: Result<StatefulProtocol, String>,
}

/// What became of a completion.
#[derive(Debug, Clone, Copy, PartialEq, Eq, Structural)]
pub enum ResizeOutcome {
    /// The encoded protocol is in place.
    Applied,
    /// The completion does not answer the pending request.
    Stale,
    /// The encoder failed.
    Failed,
}

/// How the worker's queue received a request. A request that was not accepted
/// comes back.
pub enum Submission {
    /// The request waits for the worker.
    Accepted { generation: u64, target: Size },
    /// The queue has no room.
    Full(ResizeRequest),
    /// The worker is gone.
    Unavailable(ResizeRequest),
}

/// Protocol of a cover, shared in turns between the interface and the worker.
pub struct ArtworkThreadProtocol {
    /// The protocol, while the interface has it.
    pub inner: Option<StatefulProtocol>,
    /// Number of the last request or replacement.
    pub generation: u64,
    /// Request that the worker has not answered.
    pub pending: Option<(u64, Size)>,
    /// Target of the last applied completion.
    pub last_encoded_target: Option<Size>,
    /// Largest target that is ever requested.
    pub resize_target: Size,
    /// Whether the worker refused or failed a request since somebody asked.
    pub worker_failed: bool,
}

/// A target cut down to the limit, with at least one cell in each direction.
pub open spec fn bounded(target: Size, limit: Size) -> Size {
    let width = if target.width <= limit.width { target.width } else { limit.width };
    let height = if target.height <= limit.height { target.height } else { limit.height };
    Size {
        width: if width >= 1 { width } else { 1 },
        height: if height >= 1 { height } else { 1 },
    }
}

/// Successor of a generation number.
pub open spec fn next_generation(generation: u64) -> u64 {
    if generation == u64::MAX {
        0
    } else {
        (generation + 1) as u64
    }
}

/// Whether a completion answers the pending request.
pub open spec fn answers(p: ArtworkThreadProtocol, response: ResizeResponse) -> bool {
    p.pending == Some((response.generation, response.target)) && p.generation
        == response.generation
}

/// Outcome of a completion.
pub open spec fn outcome_of(p: ArtworkThreadProtocol, response: ResizeResponse) -> ResizeOutcome {
    if !answers(p, response) {
        ResizeOutcome::Stale
    } else if response.result is Ok {
        ResizeOutcome::Applied
    } else {
        ResizeOutcome::Failed
    }
}

/// Protocol after a completion.
pub open spec fn after_response(
    p: ArtworkThreadProtocol,
    response: ResizeResponse,
) -> ArtworkThreadProtocol {
    match outcome_of(p, response) {
        ResizeOutcome::Stale => p,
        ResizeOutcome::Applied => ArtworkThreadProtocol {
            inner: Some(response.result->Ok_0),
            pending: None,
            last_encoded_target: Some(response.target),
            ..p
        },
        ResizeOutcome::Failed => ArtworkThreadProtocol {
            inner: None,
            pending: None,
            worker_failed: true,
            ..p
        },
    }
}

/// Protocol after the queue received, or refused, a request.
pub open spec fn after_submission(
    p: ArtworkThreadProtocol,
    submission: Submission,
) -> ArtworkThreadProtocol {
    match submission {
        Submission::Accepted { generation, target } => ArtworkThreadProtocol {
            pending: Some((generation, target)),
            ..p
        },
        Submission::Full(request) => ArtworkThreadProtocol { inner: Some(request.protocol), ..p },
        Submission::Unavailable(request) => ArtworkThreadProtocol {
            inner: Some(request.protocol),
            worker_failed: true,
            ..p
        },
    }
}

/// Protocol after another one took its place.
pub open spec fn after_replacement(
    p: ArtworkThreadProtocol,
    protocol: StatefulProtocol,
    resize_target: Size,
) -> ArtworkThreadProtocol {
    ArtworkThreadProtocol {
        inner: Some(protocol),
        generation: next_generation(p.generation),
        pending: None,
        last_encoded_target: None,
        resize_target,
        worker_failed: false,
    }
}

/// Target that the protocol has to be encoded for before it can be drawn into
/// an area, if any.
pub open spec fn needed_target(p: ArtworkThreadProtocol, area: Size) -> Option<Size> {
    match p.inner {
        None => None,
        Some(protocol) => {
            let contents = terminal::protocol_contents(protocol);
            let wanted = terminal::fitted_cells(
                images::extent_of(contents.picture),
                contents.font,
                Fitting::Scale,
                bounded(area, p.resize_target),
            );
            let target = bounded(wanted, p.resize_target);
            if (contents.outdated || wanted != contents.area) && p.last_encoded_target != Some(
                target,
            ) {
                Some(target)
            } else {
                None
            }
        },
    }
}

impl ArtworkThreadProtocol {
    /// The protocol, while it is here, can be encoded for every bounded target.
    pub open spec fn wf(self) -> bool {
        self.inner matches Some(protocol) ==> fits(
            terminal::protocol_contents(protocol).font,
            self.resize_target,
        )
    }

    /// Wrap a protocol that was not encoded yet.
    pub fn new(protocol: StatefulProtocol, resize_target: Size) -> (wrapped: Self)
        ensures
            wrapped == (ArtworkThreadProtocol {
                inner: Some(protocol),
                generation: 0,
                pending: None,
                last_encoded_target: None,
                resize_target,
                worker_failed: false,
            }),
    {
        ArtworkThreadProtocol {
            inner: Some(protocol),
            generation: 0,
            pending: None,
            last_encoded_target: None,
            resize_target,
            worker_failed: false,
        }
    }

    /// Put another protocol in place. Completions on their way become stale.
    pub fn replace_protocol(&mut self, protocol: StatefulProtocol, resize_target: Size)
        ensures
            *final(self) == after_replacement(*old(self), protocol, resize_target),
    {
        self.inner = Some(protocol);
        self.generation = self.generation.wrapping_add(1);
        self.pending = None;
        self.last_encoded_target = None;
        self.resize_target = resize_target;
        self.worker_failed = false;
    }

    /// Drop the protocol. Completions on their way become stale.
    pub fn empty_protocol(&mut self)
        ensures
            *final(self) == (ArtworkThreadProtocol {
                inner: None,
                generation: next_generation(old(self).generation),
                pending: None,
                ..*old(self)
            }),
    {
        self.inner = None;
        self.generation = self.generation.wrapping_add(1);
        self.pending = None;
    }

    /// Apply a completion of the worker, unless it is stale.
    pub fn update_resized_protocol(&mut self, response: ResizeResponse) -> (outcome: ResizeOutcome)
        ensures
            outcome == outcome_of(*old(self), response),
            *final(self) == after_response(*old(self), response),
    {
        let answered = match self.pending {
            Some(pending) => pending.0 == response.generation && pending.1 == response.target,
            None => false,
        };
        if !answered || self.generation != response.generation {
            return ResizeOutcome::Stale;
        }
        self.pending = None;
        match response.result {
            Ok(protocol) => {
                self.inner = Some(protocol);
                self.last_encoded_target = Some(response.target);
                ResizeOutcome::Applied
            },
            Err(_) => {
                self.inner = None;
                self.worker_failed = true;
                ResizeOutcome::Failed
            },
        }
    }

    /// Ask, once, whether the worker refused or failed a request.
    /// `response_failed` tells whether the worker could not answer one; it is
    /// looked at, and reset, only if nothing else failed.
    pub fn take_worker_failure(&mut self, response_failed: &mut bool) -> (failed: bool)
        ensures
            failed == (old(self).worker_failed || *old(response_failed)),
            *final(self) == (ArtworkThreadProtocol { worker_failed: false, ..*old(self) }),
            *final(response_failed) == (old(self).worker_failed && *old(response_failed)),
    {
        if self.worker_failed {
            self.worker_failed = false;
            true
        } else {
            let failed = *response_failed;
            *response_failed = false;
            failed
        }
    }

    /// Cells that the cover covers inside an area, while the protocol is here.
    pub fn size_for(&self, fitting: Fitting, area: Size) -> (cells: Option<Size>)
        ensures
            cells is Some == self.inner is Some,
            cells matches Some(c) ==> c.width >= 1 && c.height >= 1 && c == terminal::fitted_cells(
                images::extent_of(terminal::protocol_contents(self.inner->0).picture),
                terminal::protocol_contents(self.inner->0).font,
                fitting,
                area,
            ),
    {
        match &self.inner {
            Some(protocol) => Some(terminal::cells_for(protocol, fitting, area)),
            None => None,
        }
    }

    /// Cut a target down to the largest one that is ever requested.
    pub fn bounded_target(&self, target: Size) -> (size: Size)
        ensures
            size == bounded(target, self.resize_target),
    {
        let width: u16 = if target.width <= self.resize_target.width {
            target.width
        } else {
            self.resize_target.width
        };
        let height: u16 = if target.height <= self.resize_target.height {
            target.height
        } else {
            self.resize_target.height
        };
        Size {
            width: if width >= 1 {
                width
            } else {
                1
            },
            height: if height >= 1 {
                height
            } else {
                1
            },
        }
    }

    /// Target to encode for before the cover can be drawn into an area, if any.
    pub fn needs_resize(&self, area: Size) -> (target: Option<Size>)
        requires
            self.wf(),
        ensures
            target == needed_target(*self, area),
    {
        match &self.inner {
            None => None,
            Some(protocol) => {
                let limit = self.bounded_target(area);
                proof {
                    let font = terminal::protocol_contents(*protocol).font;
                    let top = self.resize_target;
                    assert(limit.width * font.width <= top.width * font.width) by (nonlinear_arith)
                        requires
                            limit.width <= top.width,
                            font.width >= 0,
                    ;
                    assert(limit.height * font.height <= top.height * font.height)
                        by (nonlinear_arith)
                        requires
                            limit.height <= top.height,
                            font.height >= 0,
                    ;
                }
                match terminal::cells_to_encode(protocol, limit) {
                    None => None,
                    Some(requested) => {
                        let target = self.bounded_target(requested);
                        let repeated = match self.last_encoded_target {
                            Some(last) => last == target,
                            None => false,
                        };
                        if repeated {
                            None
                        } else {
                            Some(target)
                        }
                    },
                }
            },
        }
    }

    /// Hand the protocol out as a request for the worker. There is none while
    /// the protocol is away.
    pub fn resize_encode(&mut self, size: Size) -> (request: Option<ResizeRequest>)
        ensures
            old(self).inner is None ==> request is None && *final(self) == *old(self),
            old(self).inner matches Some(protocol) ==> {
                &&& request == Some(
                    ResizeRequest {
                        generation: next_generation(old(self).generation),
                        target: bounded(size, old(self).resize_target),
                        protocol,
                    },
                )
                &&& *final(self) == (ArtworkThreadProtocol {
                    inner: None,
                    generation: next_generation(old(self).generation),
                    ..*old(self)
                })
            },
    {
        match self.inner.take() {
            None => None,
            Some(protocol) => {
                let target = self.bounded_target(size);
                self.generation = self.generation.wrapping_add(1);
                Some(ResizeRequest { generation: self.generation, target, protocol })
            },
        }
    }

    /// Note how the worker's queue received the request.
    pub fn submitted(&mut self, submission: Submission)
        ensures
            *final(self) == after_submission(*old(self), submission),
    {
        match submission {
            Submission::Accepted { generation, target } => {
                self.pending = Some((generation, target));
            },
            Submission::Full(request) => {
                self.inner = Some(request.protocol);
            },
            Submission::Unavailable(request) => {
                self.inner = Some(request.protocol);
                self.worker_failed = true;
            },
        }
    }
}

/// Whether a request can be encoded.
pub open spec fn encodable_request(request: ResizeRequest) -> bool {
    terminal::encodable(terminal::protocol_contents(request.protocol).font, request.target)
}

/// Whether a result is what the encoding of a request can come to: the same
/// picture, encoded for the target.
///
/// Half blocks always succeed. A target without cells is left alone, and the
/// outcome that nobody had asked for yet is handed on.
pub open spec fn encodes(request: ResizeRequest, result: Result<StatefulProtocol, String>) -> bool {
    let before = terminal::protocol_contents(request.protocol);
    if request.target.is_blank() {
        &&& result is Ok == (before.outcome == Some(true))
        &&& (result matches Ok(p) ==> terminal::protocol_contents(p) == (
        terminal::ProtocolContents { outcome: None, ..before }))
    } else {
        &&& (before.halfblocks ==> result is Ok)
        &&& (result matches Ok(p) ==> terminal::protocol_contents(p) == (
        terminal::ProtocolContents {
            area: request.target,
            outdated: false,
            outcome: None,
            ..before
        }))
    }
}

/// Encode one request, as the worker does.
///
/// There is no answer when the encoder did not report how it went, which is so
/// for a target without cells, unless an earlier outcome was never asked for.
pub fn encode_request(request: ResizeRequest) -> (response: Option<ResizeResponse>)
    requires
        encodable_request(request),
    ensures
        ({
            let before = terminal::protocol_contents(request.protocol);
            response is None <==> request.target.is_blank() && before.outcome is None
        }),
        response matches Some(r) ==> r.generation == request.generation && r.target
            == request.target,
        response matches Some(r) ==> encodes(request, r.result),
{
    let ResizeRequest { generation, target, mut protocol } = request;
    terminal::encode(&mut protocol, target);
    let outcome = terminal::take_outcome(&mut protocol);
    respond(generation, target, protocol, outcome)
}

/// Answer a request with what the encoder reported: the protocol if it succeeded,
/// its diagnostic if it failed, and nothing if it did not report.
pub fn respond(
    generation: u64,
    target: Size,
    protocol: StatefulProtocol,
    outcome: Option<Result<(), String>>,
) -> (response: Option<ResizeResponse>)
    ensures
        response == match outcome {
            None => None,
            Some(Ok(_)) => Some(ResizeResponse { generation, target, result: Ok(protocol) }),
            Some(Err(message)) => Some(ResizeResponse { generation, target, result: Err(message) }),
        },
{
    match outcome {
        None => None,
        Some(Ok(_)) => Some(ResizeResponse { generation, target, result: Ok(protocol) }),
        Some(Err(message)) => Some(ResizeResponse { generation, target, result: Err(message) }),
    }
}

/// What the worker found when it looked into its queue.
pub enum Received {
    /// Somebody wants a cover encoded.
    Request(ResizeRequest),
    /// The application is closing.
    Shutdown,
    /// Nothing came for a while.
    Timeout,
    /// Nobody can send any more.
    Disconnected,
}

/// What the worker does next.
pub enum WorkerStep {
    /// Look into the queue again.
    Wait,
    /// Send the answer to whoever asked; if that fails, mark the request failed.
    Answer(ResizeResponse),
    /// Mark the request failed and look into the queue again.
    MarkFailed,
    /// Leave.
    Stop,
}

/// Whether a step is what the worker does with what it found.
pub open spec fn takes_up(received: Received, shutting_down: bool, step: WorkerStep) -> bool {
    match received {
        Received::Timeout => step is Wait,
        Received::Disconnected | Received::Shutdown => step is Stop,
        Received::Request(request) => if shutting_down {
            step is Stop
        } else {
            let before = terminal::protocol_contents(request.protocol);
            if request.target.is_blank() && before.outcome is None {
                step is MarkFailed
            } else {
                &&& step matches WorkerStep::Answer(r)
                &&& r.generation == request.generation
                &&& r.target == request.target
                &&& encodes(request, r.result)
            }
        },
    }
}

/// Decide what the worker does with what it found. `shutting_down` tells
/// whether the application asked it to leave in the meantime.
pub fn worker_step(received: Received, shutting_down: bool) -> (step: WorkerStep)
    requires
        received matches Received::Request(request) ==> encodable_request(request),
    ensures
        takes_up(received, shutting_down, step),
{
    match received {
        Received::Timeout => WorkerStep::Wait,
        Received::Disconnected => WorkerStep::Stop,
        Received::Shutdown => WorkerStep::Stop,
        Received::Request(request) => {
            if shutting_down {
                WorkerStep::Stop
            } else {
                match encode_request(request) {
                    Some(response) => WorkerStep::Answer(response),
                    None => WorkerStep::MarkFailed,
                }
            }
        },
    }
}

/// Decide what the worker does after it sent an answer: one that did not reach
/// whoever asked counts as failed.
pub fn delivery_step(delivered: bool) -> (step: WorkerStep)
    ensures
        step == after_delivery(delivered),
{
    if delivered {
        WorkerStep::Wait
    } else {
        WorkerStep::MarkFailed
    }
}

/// What the worker does after it sent an answer.
pub open spec fn after_delivery(delivered: bool) -> WorkerStep {
    if delivered {
        WorkerStep::Wait
    } else {
        WorkerStep::MarkFailed
    }
}

/// One turn of the worker: what it found, what it did, and whether an answer
/// reached whoever asked.
pub ghost struct Turn {
    pub received: Received,
    pub shutting_down: bool,
    pub step: WorkerStep,
    pub delivered: bool,
}

/// Whether turns make up a run of the worker: each one is what the worker does,
/// and it left after none but the last.
pub open spec fn is_run(turns: Seq<Turn>) -> bool {
    &&& forall|i: int|
        0 <= i < turns.len() ==> takes_up(
            (#[trigger] turns[i]).received,
            turns[i].shutting_down,
            turns[i].step,
        )
    &&& forall|i: int| 0 <= i < turns.len() - 1 ==> !((#[trigger] turns[i]).step is Stop)
}

/// Whether a turn takes up a request.
pub open spec fn serves(turn: Turn) -> bool {
    turn.received is Request && !turn.shutting_down
}

/// Requests that a run took up, in order.
pub open spec fn served(turns: Seq<Turn>) -> Seq<ResizeRequest>
    decreases turns.len(),
{
    if turns.len() == 0 {
        Seq::empty()
    } else {
        let front = served(turns.drop_last());
        if serves(turns.last()) {
            front.push(turns.last().received->Request_0)
        } else {
            front
        }
    }
}

/// Answers that reached whoever asked, one place for each request that was
/// taken up.
pub open spec fn answered(turns: Seq<Turn>) -> Seq<Option<ResizeResponse>>
    decreases turns.len(),
{
    if turns.len() == 0 {
        Seq::empty()
    } else {
        let front = answered(turns.drop_last());
        let last = turns.last();
        if serves(last) {
            front.push(
                match last.step {
                    WorkerStep::Answer(response) if after_delivery(last.delivered) is Wait => Some(
                        response,
                    ),
                    _ => None,
                },
            )
        } else {
            front
        }
    }
}

/// Whether requests were marked failed, one place for each request that was
/// taken up.
pub open spec fn marked(turns: Seq<Turn>) -> Seq<bool>
    decreases turns.len(),
{
    if turns.len() == 0 {
        Seq::empty()
    } else {
        let front = marked(turns.drop_last());
        let last = turns.last();
        if serves(last) {
            front.push(
                match last.step {
                    WorkerStep::Answer(_) => after_delivery(last.delivered) is MarkFailed,
                    step => step is MarkFailed,
                },
            )
        } else {
            front
        }
    }
}

/// Over a whole run, every request that was taken up has exactly one fate: it is
/// answered once, with its own generation and target, or it is marked failed.
pub proof fn law_every_request_is_answered_or_marked(turns: Seq<Turn>)
    requires
        is_run(turns),
    ensures
        answered(turns).len() == served(turns).len(),
        marked(turns).len() == served(turns).len(),
        forall|k: int|
            #![trigger answered(turns)[k]]
            #![trigger marked(turns)[k]]
            0 <= k < served(turns).len() ==> {
                &&& answered(turns)[k] is None == marked(turns)[k]
                &&& answered(turns)[k] matches Some(response) ==> response.generation == served(
                    turns,
                )[k].generation && response.target == served(turns)[k].target
            },
    decreases turns.len(),
{
    if turns.len() > 0 {
        let front = turns.drop_last();
        assert(is_run(front)) by {
            assert forall|i: int| 0 <= i < front.len() implies takes_up(
                (#[trigger] front[i]).received,
                front[i].shutting_down,
                front[i].step,
            ) by {
                assert(front[i] == turns[i]);
            }
            assert forall|i: int| 0 <= i < front.len() - 1 implies !((
            #[trigger] front[i]).step is Stop) by {
                assert(front[i] == turns[i]);
            }
        }
        law_every_request_is_answered_or_marked(front);
        let last = turns[turns.len() - 1];
        assert(takes_up(last.received, last.shutting_down, last.step));
        assert forall|k: int|
            #![trigger answered(turns)[k]]
            #![trigger marked(turns)[k]]
            0 <= k < served(turns).len() implies {
            &&& answered(turns)[k] is None == marked(turns)[k]
            &&& answered(turns)[k] matches Some(response) ==> response.generation == served(
                turns,
            )[k].generation && response.target == served(turns)[k].target
        } by {
            if k < served(front).len() {
                assert(answered(turns)[k] == answered(front)[k]);
                assert(marked(turns)[k] == marked(front)[k]);
                assert(served(turns)[k] == served(front)[k]);
            }
        }
    }
}

/// A request never ends a run, whatever became of it: any turn can follow.
pub proof fn law_requests_keep_the_worker_running(turns: Seq<Turn>, next: Turn)
    requires
        is_run(turns),
        turns.len() > 0,
        serves(turns.last()),
        takes_up(next.received, next.shutting_down, next.step),
    ensures
        is_run(turns.push(next)),
{
    let more = turns.push(next);
    let last = turns[turns.len() - 1];
    assert(takes_up(last.received, last.shutting_down, last.step));
    assert forall|i: int| 0 <= i < more.len() implies takes_up(
        (#[trigger] more[i]).received,
        more[i].shutting_down,
        more[i].step,
    ) by {
        if i < turns.len() {
            assert(more[i] == turns[i]);
        }
    }
    assert forall|i: int| 0 <= i < more.len() - 1 implies !((#[trigger] more[i]).step is Stop) by {
        assert(more[i] == turns[i]);
    }
}

/// A completion that was requested before the protocol was replaced is stale.
pub proof fn law_replacement_makes_completions_stale(
    before: ArtworkThreadProtocol,
    protocol: StatefulProtocol,
    resize_target: Size,
    response: ResizeResponse,
)
    ensures
        outcome_of(after_replacement(before, protocol, resize_target), response) is Stale,
        after_response(after_replacement(before, protocol, resize_target), response)
            == after_replacement(before, protocol, resize_target),
{
}

/// A completion is applied at most once: a second copy of it is stale.
pub proof fn law_completions_apply_once(
    before: ArtworkThreadProtocol,
    response: ResizeResponse,
    again: ResizeResponse,
)
    requires
        answers(before, response),
    ensures
        outcome_of(after_response(before, response), again) is Stale,
{
}

/// The answer to an accepted request is never stale.
pub proof fn law_accepted_requests_are_answered(
    before: ArtworkThreadProtocol,
    size: Size,
    response: ResizeResponse,
)
    requires
        before.inner is Some,
        response.generation == next_generation(before.generation),
        response.target == bounded(size, before.resize_target),
    ensures
        ({
            let asked = ArtworkThreadProtocol {
                inner: None,
                generation: next_generation(before.generation),
                ..before
            };
            let waiting = after_submission(
                asked,
                Submission::Accepted { generation: response.generation, target: response.target },
            );
            answers(waiting, response)
        }),
{
}

/// A refused request leaves the protocol where it was; only the generation
/// moves on.
pub proof fn law_full_queue_keeps_the_protocol(before: ArtworkThreadProtocol, size: Size)
    requires
        before.inner is Some,
    ensures
        ({
            let generation = next_generation(before.generation);
            let asked = ArtworkThreadProtocol { inner: None, generation, ..before };
            let request = ResizeRequest {
                generation,
                target: bounded(size, before.resize_target),
                protocol: before.inner->0,
            };
            after_submission(asked, Submission::Full(request)) == (ArtworkThreadProtocol {
                generation,
                ..before
            })
        }),
{
}

/// Requests never exceed the largest target, and every request can be encoded.
pub proof fn law_requests_are_bounded(p: ArtworkThreadProtocol, size: Size)
    requires
        p.wf(),
        p.inner is Some,
    ensures
        1 <= bounded(size, p.resize_target).width <= p.resize_target.width,
        1 <= bounded(size, p.resize_target).height <= p.resize_target.height,
        terminal::encodable(
            terminal::protocol_contents(p.inner->0).font,
            bounded(size, p.resize_target),
        ),
{
    let font = terminal::protocol_contents(p.inner->0).font;
    let top = p.resize_target;
    let cut = bounded(size, top);
    assert(cut.width * font.width <= top.width * font.width) by (nonlinear_arith)
        requires
            cut.width <= top.width,
            font.width >= 0,
    ;
    assert(cut.height * font.height <= top.height * font.height) by (nonlinear_arith)
        requires
            cut.height <= top.height,
            font.height >= 0,
    ;
}

} // verus!
