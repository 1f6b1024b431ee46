//! What the panel shows and how it is refreshed. The panel is bistable: it is
//! painted in full once, and from then on only the difference to the last
//! frame is sent. Drawing itself (fonts, glyphs, the bus) is the caller's.

use crate::connectivity::status_text;
use crate::reading::lemma_unavailable_is_distinct;
use crate::reading::readout_text;
use crate::reading::temperature_text;
use crate::reading::unavailable_text;
use crate::reading::TemperatureReading;
use crate::reading::SENTINEL_CENTI;
use crate::sensor::lemma_failures_keep_reading;
use crate::sensor::read_outcome_of;
use crate::sensor::reading_after;
use crate::sensor::PeripheralError;
use crate::store::SharedStateStore;
use crate::store::StoreSnapshot;
use vstd::prelude::*;

verus! {

/// Time between two frames, in milliseconds.
pub const DISPLAY_PERIOD_MS: u32 = 1000;

/// Horizontal space between two items of the status row, in pixels.
pub const ROW_GAP: i32 = 5;

/// Why a frame did not reach the panel.
#[derive(Clone, Copy, Debug, PartialEq, Eq, Structural)]
pub enum RenderError {
    /// The panel did not take a command.
    Panel,
    /// An item could not be drawn into the frame.
    Draw,
    /// An item has no place in the frame.
    Layout,
}

/// A position in the frame, in pixels from its top left corner.
#[derive(Clone, Copy, Debug, PartialEq, Eq, Structural)]
pub struct Point {
    pub x: i32,
    pub y: i32,
}

/// The content of one frame: the status row (link glyph, address text and,
/// while an upload is under way, the upload glyph) and the temperature readout.
#[derive(Debug, PartialEq, Eq)]
pub struct Frame {
    pub address_text: String,
    pub uploading: bool,
    pub temperature_text: String,
}

/// One item of the status row.
#[derive(Debug, PartialEq, Eq)]
pub enum RowItem {
    /// The glyph that stands for the wireless link.
    LinkGlyph,
    /// A piece of text.
    Text(String),
    /// The glyph that stands for an upload under way.
    UploadGlyph,
}

/// What the caller is to do with the panel in one cycle.
#[derive(Debug, PartialEq, Eq)]
pub enum RenderJob {
    /// Clear the panel and paint it in full; the painted frame is the base of
    /// the updates that follow.
    PaintBase,
    /// Send this frame as an update of the last one.
    Update(Frame),
}

/// Whether `frame` is the frame of `snapshot`: the address text of its link
/// status, its upload flag, and the readout of its temperature.
pub open spec fn frame_shows(frame: Frame, snapshot: StoreSnapshot) -> bool {
    &&& frame.address_text@ == status_text(snapshot.connectivity)
    &&& frame.uploading == snapshot.upload_in_flight
    &&& frame.temperature_text@ == readout_text(snapshot.temperature.centi as int)
}

/// Whether `row` is the status row of `frame`, in drawing order from the left:
/// the link glyph, the address text and, while an upload is under way, the
/// upload glyph.
pub open spec fn row_shows(row: Seq<RowItem>, frame: Frame) -> bool {
    &&& row.len() == if frame.uploading {
        3int
    } else {
        2int
    }
    &&& row[0] is LinkGlyph
    &&& row[1] matches RowItem::Text(text) && text@ == frame.address_text@
    &&& frame.uploading ==> row[2] is UploadGlyph
}

/// Whether the base frame stands after these render outcomes (true for a
/// success), given whether it stood before them.
pub open spec fn painted_after(painted: bool, outcomes: Seq<bool>) -> bool
    decreases outcomes.len(),
{
    if outcomes.len() == 0 {
        painted
    } else {
        painted_after(painted, outcomes.drop_last()) || outcomes.last()
    }
}

/// Where the status row starts: the bottom left corner of the link glyph.
pub fn status_row_origin() -> (p: Point)
    ensures
        p == (Point { x: 0, y: 128 }),
{
    Point { x: 0, y: 128 }
}

/// Where the temperature readout is anchored: the right end of its middle line.
pub fn readout_anchor() -> (p: Point)
    ensures
        p == (Point { x: 280, y: 64 }),
{
    Point { x: 280, y: 64 }
}

/// What [`next_in_row`] returns for the bottom right corner of the item drawn
/// last, if it has one.
pub open spec fn next_in_row_of(previous_corner: Option<Point>) -> Result<Point, RenderError> {
    match previous_corner {
        Some(p) => if p.x + ROW_GAP <= i32::MAX {
            Ok(Point { x: (p.x + ROW_GAP) as i32, y: p.y })
        } else {
            Err(RenderError::Layout)
        },
        None => Err(RenderError::Layout),
    }
}

/// Where the next item of the status row starts: one gap to the right of the
/// bottom right corner of the item drawn last. An item without extent has no
/// such corner, and then, or where the frame's coordinates end, the next item
/// has no place.
pub fn next_in_row(previous_corner: Option<Point>) -> (r: Result<Point, RenderError>)
    ensures
        r == next_in_row_of(previous_corner),
{
    match previous_corner {
        Some(p) => {
            if p.x <= i32::MAX - ROW_GAP {
                Ok(Point { x: p.x + ROW_GAP, y: p.y })
            } else {
                Err(RenderError::Layout)
            }
        },
        None => Err(RenderError::Layout),
    }
}

/// The frame of a snapshot of the store.
pub fn compose_frame(snapshot: &StoreSnapshot) -> (frame: Frame)
    ensures
        frame_shows(frame, *snapshot),
{
    Frame {
        address_text: snapshot.connectivity.text(),
        uploading: snapshot.upload_in_flight,
        temperature_text: snapshot.temperature.readout(),
    }
}

impl Frame {
    /// The items of the status row, in drawing order from the left. The first
    /// starts at [`status_row_origin`]; each of the others starts where
    /// [`next_in_row`] puts it after the one before.
    pub fn status_row(&self) -> (row: Vec<RowItem>)
        ensures
            row_shows(row@, *self),
    {
        let mut row: Vec<RowItem> = Vec::new();
        row.push(RowItem::LinkGlyph);
        row.push(RowItem::Text(self.address_text.clone()));
        if self.uploading {
            row.push(RowItem::UploadGlyph);
        }
        row
    }
}

/// The display task's own state: whether the base frame stands on the panel.
pub struct DisplayLoop {
    base_painted: bool,
}

impl DisplayLoop {
    /// Whether the base frame stands on the panel.
    pub closed spec fn painted(&self) -> bool {
        self.base_painted
    }

    /// The state at start-up: nothing painted yet.
    pub fn new() -> (d: Self)
        ensures
            !d.painted(),
    {
        DisplayLoop { base_painted: false }
    }

    /// Whether the base frame stands on the panel.
    pub fn is_painted(&self) -> (b: bool)
        ensures
            b == self.painted(),
    {
        self.base_painted
    }

    /// The job of the next cycle for a given snapshot: the full paint as long
    /// as the base frame does not stand, an update with the snapshot's frame
    /// from then on.
    pub fn next_job(&self, snapshot: &StoreSnapshot) -> (job: RenderJob)
        ensures
            !self.painted() ==> job == RenderJob::PaintBase,
            self.painted() ==> job is Update && frame_shows(job->Update_0, *snapshot),
    {
        if self.base_painted {
            RenderJob::Update(compose_frame(snapshot))
        } else {
            RenderJob::PaintBase
        }
    }

    /// The job of the next cycle for the store as it stands: the full paint
    /// as long as the base frame does not stand, an update with the frame of
    /// what the store holds from then on.
    pub fn cycle(&self, store: &SharedStateStore) -> (job: RenderJob)
        ensures
            !self.painted() ==> job == RenderJob::PaintBase,
            self.painted() ==> job is Update && frame_shows(job->Update_0, store@),
    {
        if self.base_painted {
            let snapshot = store.snapshot();
            self.next_job(&snapshot)
        } else {
            RenderJob::PaintBase
        }
    }

    /// Takes note of how the last job ended. After a success the base frame
    /// stands; after a failure the panel keeps what it showed, the state stays
    /// as it was, and the failure is handed back to be logged.
    pub fn record(&mut self, outcome: Result<(), RenderError>) -> (report: Option<RenderError>)
        ensures
            final(self).painted() == (old(self).painted() || outcome is Ok),
            report == match outcome {
                Ok(_) => None,
                Err(e) => Some(e),
            },
    {
        match outcome {
            Ok(_) => {
                self.base_painted = true;
                None
            },
            Err(e) => Some(e),
        }
    }
}

/// Until a read of the sensor succeeds for the first time, the readout is the
/// unavailable marker: after any run of failed read cycles from the start, the
/// frame shows the marker and no temperature.
pub proof fn lemma_readout_before_first_reading(
    exchanges: Seq<Result<u32, PeripheralError>>,
    frame: Frame,
    snapshot: StoreSnapshot,
)
    requires
        forall|i: int| 0 <= i < exchanges.len() ==> read_outcome_of(#[trigger] exchanges[i]) is Err,
        snapshot.temperature == reading_after(
            TemperatureReading { centi: SENTINEL_CENTI },
            exchanges,
        ),
        frame_shows(frame, snapshot),
    ensures
        frame.temperature_text@ == unavailable_text(),
        forall|centi: int| frame.temperature_text@ != temperature_text(centi),
{
    lemma_failures_keep_reading(TemperatureReading { centi: SENTINEL_CENTI }, exchanges);
    assert forall|centi: int| frame.temperature_text@ != temperature_text(centi) by {
        lemma_unavailable_is_distinct(centi);
    }
}

/// The base frame, once it stands, stands for good: whatever outcomes follow.
pub proof fn lemma_painted_stays(outcomes: Seq<bool>)
    ensures
        painted_after(true, outcomes),
    decreases outcomes.len(),
{
    if outcomes.len() > 0 {
        lemma_painted_stays(outcomes.drop_last());
    }
}

/// The base frame stands after a run of cycles exactly if one of them
/// succeeded: so every cycle up to and including the first success is a full
/// paint, and every cycle after it is an update.
pub proof fn lemma_full_paint_until_first_success(outcomes: Seq<bool>)
    ensures
        painted_after(false, outcomes) <==> exists|i: int| 0 <= i < outcomes.len() && outcomes[i],
    decreases outcomes.len(),
{
    if outcomes.len() > 0 {
        let head = outcomes.drop_last();
        lemma_full_paint_until_first_success(head);
        if painted_after(false, outcomes) {
            if outcomes.last() {
                assert(outcomes[outcomes.len() - 1]);
            } else {
                let i = choose|i: int| 0 <= i < head.len() && head[i];
                assert(outcomes[i]);
            }
        }
        if exists|i: int| 0 <= i < outcomes.len() && outcomes[i] {
            let i = choose|i: int| 0 <= i < outcomes.len() && outcomes[i];
            if i < head.len() {
                assert(head[i]);
            }
        }
    }
}

} // verus!
