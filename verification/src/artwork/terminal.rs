//! Terminal image protocols, provided by `ratatui-image`.
//!
//! A picker knows the terminal's cell size and graphics protocol. From a
//! bitmap it makes a stateful protocol, which is encoded for an area of cells
//! before it is drawn.
use crate::artwork::images;
use crate::geometry::{FontSize, Size};
use image::DynamicImage;
use ratatui_image::picker::Picker;
use ratatui_image::protocol::StatefulProtocol;
use ratatui_image::ResizeEncodeRender;
use vstd::prelude::*;

verus! {

/// Terminal graphics picker of `ratatui-image`.
#[verifier::external_type_specification]
#[verifier::external_body]
pub struct ExPicker(Picker);

/// Stateful image protocol of `ratatui-image`.
#[verifier::external_type_specification]
#[verifier::external_body]
pub struct ExStatefulProtocol(StatefulProtocol);

/// What a picker holds.
pub ghost struct PickerContents {
    /// Pixel extent of a cell.
    pub font: FontSize,
    /// Whether it draws with half blocks.
    pub halfblocks: bool,
    /// Whether it lays a visible background colour under bitmaps.
    pub backdrop: bool,
}

/// Contents of a picker.
pub uninterp spec fn picker_contents(picker: Picker) -> PickerContents;

/// What a stateful protocol holds.
pub ghost struct ProtocolContents {
    /// The bitmap that is drawn.
    pub picture: DynamicImage,
    /// Pixel extent of a cell.
    pub font: FontSize,
    /// Whether it draws with half blocks.
    pub halfblocks: bool,
    /// Area of the last successful encoding; both sides are zero before it.
    pub area: Size,
    /// Whether the last successful encoding shows another source bitmap.
    pub outdated: bool,
    /// Whether the last encoding succeeded, until somebody has asked for it.
    pub outcome: Option<bool>,
}

/// Contents of a stateful protocol.
pub uninterp spec fn protocol_contents(protocol: StatefulProtocol) -> ProtocolContents;

/// How a bitmap is fitted into an area of cells.
#[derive(Debug, Clone, Copy, PartialEq, Eq, Structural)]
pub enum Fitting {
    /// Shrink it where it is too large.
    Fit,
    /// Shrink or enlarge it.
    Scale,
}

/// Cells that a bitmap covers once it is fitted into an area.
pub uninterp spec fn fitted_cells(
    bitmap: images::Extent,
    font: FontSize,
    fitting: Fitting,
    area: Size,
) -> Size;

/// Whether an area of cells is at most 65535 pixels wide and high, with a font
/// that has both sides.
pub open spec fn encodable(font: FontSize, area: Size) -> bool {
    &&& font.width >= 1
    &&& font.height >= 1
    &&& area.width * font.width <= 65535
    &&& area.height * font.height <= 65535
}

/// `Picker::halfblocks` makes a picker that draws with half blocks, takes a cell
/// to be 10 by 20 pixels and has no background colour.
#[verifier::external_body]
pub(crate) fn halfblocks_picker() -> (picker: Picker)
    ensures
        picker_contents(picker) == (PickerContents {
            font: FontSize { width: 10, height: 20 },
            halfblocks: true,
            backdrop: false,
        }),
{
    Picker::halfblocks()
}

/// `Picker::font_size` returns the pixel extent of a cell.
#[verifier::external_body]
pub(crate) fn font_size(picker: &Picker) -> (font: FontSize)
    ensures
        font == picker_contents(*picker).font,
{
    let font = picker.font_size();
    FontSize { width: font.width, height: font.height }
}

/// `Picker::protocol_type` tells which graphics protocol the picker selected.
#[verifier::external_body]
pub(crate) fn draws_halfblocks(picker: &Picker) -> (halfblocks: bool)
    ensures
        halfblocks == picker_contents(*picker).halfblocks,
{
    picker.protocol_type() == ratatui_image::picker::ProtocolType::Halfblocks
}

/// `Picker::new_resize_protocol` wraps a bitmap into a protocol that has not
/// been encoded yet. It draws that very bitmap, unless the picker lays a visible
/// background colour under it, which keeps its extent. Whether the fresh protocol
/// counts as outdated rests on a hash of the bitmap and is not stated.
#[verifier::external_body]
pub(crate) fn new_protocol(picker: &Picker, bitmap: DynamicImage) -> (protocol: StatefulProtocol)
    ensures
        images::extent_of(protocol_contents(protocol).picture) == images::extent_of(bitmap),
        !picker_contents(*picker).backdrop ==> protocol_contents(protocol).picture == bitmap,
        protocol_contents(protocol).font == picker_contents(*picker).font,
        protocol_contents(protocol).halfblocks == picker_contents(*picker).halfblocks,
        protocol_contents(protocol).area == (Size { width: 0, height: 0 }),
        protocol_contents(protocol).outcome is None,
{
    picker.new_resize_protocol(bitmap)
}

/// `StatefulProtocol::size_for` calculates the cells that the bitmap covers
/// once it is fitted into an area, at least one in each direction.
#[verifier::external_body]
pub(crate) fn cells_for(protocol: &StatefulProtocol, fitting: Fitting, area: Size) -> (cells: Size)
    ensures
        cells == fitted_cells(
            images::extent_of(protocol_contents(*protocol).picture),
            protocol_contents(*protocol).font,
            fitting,
            area,
        ),
        cells.width >= 1,
        cells.height >= 1,
{
    let resize = match fitting {
        Fitting::Fit => ratatui_image::Resize::Fit(None),
        Fitting::Scale => ratatui_image::Resize::Scale(None),
    };
    let cells = protocol.size_for(resize, ratatui::layout::Size::new(area.width, area.height));
    Size { width: cells.width, height: cells.height }
}

/// `StatefulProtocol::needs_resize` with scaling returns the cells that the
/// bitmap covers once it is scaled into an area, unless the last encoding was
/// for just these cells and is not outdated.
#[verifier::external_body]
pub(crate) fn cells_to_encode(protocol: &StatefulProtocol, area: Size) -> (cells: Option<Size>)
    requires
        encodable(protocol_contents(*protocol).font, area),
        area.width >= 1,
        area.height >= 1,
    ensures
        ({
            let contents = protocol_contents(*protocol);
            let sides = images::extent_of(contents.picture);
            let wanted = fitted_cells(sides, contents.font, Fitting::Scale, area);
            cells == if contents.outdated || wanted != contents.area {
                Some(wanted)
            } else {
                None
            }
        }),
        cells matches Some(c) ==> 1 <= c.width <= area.width && 1 <= c.height <= area.height,
{
    protocol.needs_resize(
        &ratatui_image::Resize::Scale(None),
        ratatui::layout::Size::new(area.width, area.height),
    ).map(|cells| Size { width: cells.width, height: cells.height })
}

/// `StatefulProtocol::resize_encode` scales the bitmap into an area and encodes
/// it for the terminal. An area without cells is left alone. Half blocks always
/// encode; the other encoders may fail, and then the previous encoding stands.
/// What the terminal is sent rests on random picture numbers for some protocols
/// and is not stated.
#[verifier::external_body]
pub(crate) fn encode(protocol: &mut StatefulProtocol, area: Size)
    requires
        encodable(protocol_contents(*old(protocol)).font, area),
    ensures
        area.is_blank() ==> protocol_contents(*final(protocol)) == protocol_contents(
            *old(protocol),
        ),
        !area.is_blank() ==> {
            let before = protocol_contents(*old(protocol));
            let after = protocol_contents(*final(protocol));
            ||| after == (ProtocolContents { area, outdated: false, outcome: Some(true), ..before })
            ||| !before.halfblocks && after == (ProtocolContents { outcome: Some(false), ..before })
        },
{
    protocol.resize_encode(
        &ratatui_image::Resize::Scale(None),
        ratatui::layout::Size::new(area.width, area.height),
    )
}

/// `StatefulProtocol::last_encoding_result` hands out, once, how the last
/// encoding ended. The wording of the diagnostic is left open.
#[verifier::external_body]
pub(crate) fn take_outcome(protocol: &mut StatefulProtocol) -> (outcome: Option<
    Result<(), String>,
>)
    ensures
        protocol_contents(*final(protocol)) == (ProtocolContents {
            outcome: None,
            ..protocol_contents(*old(protocol))
        }),
        outcome is Some == protocol_contents(*old(protocol)).outcome is Some,
        outcome matches Some(result) ==> protocol_contents(*old(protocol)).outcome == Some(
            result is Ok,
        ),
{
    protocol.last_encoding_result().map(|result| result.map_err(|error| error.to_string()))
}

} // verus!
