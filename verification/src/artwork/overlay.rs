//! Placement of artwork that an external process draws.
use crate::digest;
use crate::geometry::Rect;
use crate::json;
use crate::json::{JsonMember, JsonScalar};
use crate::path;
use crate::path::FilePath;
use crate::text;
use serde_json::Value;
use vstd::bytes::*;
use vstd::prelude::*;
use vstd::utf8::*;

verus! {

/// Exact placement of one artwork layer in terminal cells.
#[derive(Debug)]
pub struct ArtworkOverlay {
    /// Stable name that replaces and removes the image.
    pub identifier: String,
    /// Image file.
    pub path: FilePath,
    /// Area on the terminal.
    pub rect: Rect,
}

/// Bytes whose digest names an overlay: the index of its track, as eight bytes
/// with the lowest first, and the text of its path.
pub open spec fn overlay_identity(track_index: usize, file: Seq<u8>) -> Seq<u8> {
    spec_u64_to_le_bytes(track_index as u64) + encode_utf8(text::displayed(file))
}

/// Name of an overlay.
pub open spec fn overlay_identifier(track_index: usize, file: Seq<u8>) -> Seq<char> {
    "harmonium-artwork-"@ + digest::hex_text(digest::sha256(overlay_identity(track_index, file)))
}

/// Whether two overlays are equal.
pub open spec fn same_overlay(a: ArtworkOverlay, b: ArtworkOverlay) -> bool {
    &&& a.identifier@ == b.identifier@
    &&& path::same_location(a.path@, b.path@)
    &&& a.rect == b.rect
}

impl Clone for ArtworkOverlay {
    fn clone(&self) -> (copy: Self)
        ensures
            copy.identifier@ == self.identifier@,
            copy.path@ == self.path@,
            copy.rect == self.rect,
    {
        ArtworkOverlay {
            identifier: self.identifier.clone(),
            path: self.path.clone(),
            rect: self.rect,
        }
    }
}

impl ArtworkOverlay {
    /// Place an image of a track. Its name tells neither the track nor the path.
    pub fn new(track_index: usize, path: FilePath, rect: Rect) -> (overlay: Self)
        ensures
            overlay.identifier@ == overlay_identifier(track_index, path@),
            overlay.path == path,
            overlay.rect == rect,
    {
        let mut bytes = u64_to_le_bytes(track_index as u64);
        let ghost index_bytes = bytes@;
        let name = text::bytes_of(path.to_text_lossy().as_str());
        bytes.extend_from_slice(name.as_slice());
        assert(bytes@ =~= overlay_identity(track_index, path@));
        let hash = digest::digest(bytes.as_slice());
        let mut identifier = "harmonium-artwork-".to_string();
        identifier.append(digest::hex_bytes(hash.as_slice()).as_str());
        ArtworkOverlay { identifier, path, rect }
    }

    /// Whether two overlays are equal.
    pub fn same(&self, other: &ArtworkOverlay) -> (same: bool)
        ensures
            same == same_overlay(*self, *other),
    {
        text::same_text(self.identifier.as_str(), other.identifier.as_str()) && self.path.same_path(
            &other.path,
        ) && self.rect == other.rect
    }
}

/// Whether two optional overlays are equal.
pub open spec fn same_placement(a: Option<ArtworkOverlay>, b: Option<ArtworkOverlay>) -> bool {
    match (a, b) {
        (Some(x), Some(y)) => same_overlay(x, y),
        (None, None) => true,
        _ => false,
    }
}

/// Whether two optional overlays are equal.
pub fn unchanged(a: &Option<ArtworkOverlay>, b: &Option<ArtworkOverlay>) -> (same: bool)
    ensures
        same == same_placement(*a, *b),
{
    match (a, b) {
        (Some(x), Some(y)) => x.same(y),
        (None, None) => true,
        _ => false,
    }
}

/// Members of the command that shows an image.
pub open spec fn add_members(
    identifier: Seq<char>,
    file: Seq<char>,
    rect: Rect,
    scaler: Seq<char>,
) -> Map<Seq<char>, JsonMember> {
    Map::empty().insert("action"@, JsonMember::Text("add"@)).insert(
        "identifier"@,
        JsonMember::Text(identifier),
    ).insert("path"@, JsonMember::Text(file)).insert("x"@, JsonMember::Number(rect.x as nat)).insert(
        "y"@,
        JsonMember::Number(rect.y as nat),
    ).insert("width"@, JsonMember::Number(rect.width as nat)).insert(
        "height"@,
        JsonMember::Number(rect.height as nat),
    ).insert("scaler"@, JsonMember::Text(scaler))
}

/// Members of the command that removes an image.
pub open spec fn remove_members(identifier: Seq<char>) -> Map<Seq<char>, JsonMember> {
    Map::empty().insert("action"@, JsonMember::Text("remove"@)).insert(
        "identifier"@,
        JsonMember::Text(identifier),
    )
}

/// Build the command that shows an image in an area with a scaler.
pub fn build_add_command(overlay: &ArtworkOverlay, rect: Rect, scaler: &str) -> (command: Value)
    requires
        valid_utf8(overlay.path@),
    ensures
        json::object_members(command) == Some(
            add_members(overlay.identifier@, decode_utf8(overlay.path@), rect, scaler@),
        ),
{
    let mut command = json::new_object();
    json::put_member(&mut command, "action", JsonScalar::Text("add".to_string()));
    json::put_member(&mut command, "identifier", JsonScalar::Text(overlay.identifier.clone()));
    json::put_member(&mut command, "path", JsonScalar::Text(overlay.path.to_text_lossy()));
    json::put_member(&mut command, "x", JsonScalar::Number(rect.x as u64));
    json::put_member(&mut command, "y", JsonScalar::Number(rect.y as u64));
    json::put_member(&mut command, "width", JsonScalar::Number(rect.width as u64));
    json::put_member(&mut command, "height", JsonScalar::Number(rect.height as u64));
    json::put_member(&mut command, "scaler", JsonScalar::Text(scaler.to_string()));
    command
}

/// Build the command that removes an image.
pub fn build_remove_command(identifier: &str) -> (command: Value)
    ensures
        json::object_members(command) == Some(remove_members(identifier@)),
{
    let mut command = json::new_object();
    json::put_member(&mut command, "action", JsonScalar::Text("remove".to_string()));
    json::put_member(&mut command, "identifier", JsonScalar::Text(identifier.to_string()));
    command
}

} // verus!
