//! Work that the player hands out.
use crate::config::ArtworkSource as SourceConfig;
use crate::metadata;
use crate::metadata::TrackMetadata;
use crate::path::FilePath;
use crate::player::audio::{AudioCommand, AudioOrder};
use crate::player::lyrics::{LyricsQuery, LyricsRequest};
use crate::player::playlist;
use vstd::prelude::*;

verus! {

/// Work that is done outside of the player.
pub enum Effect {
    /// Tell the audio worker.
    Audio(AudioCommand),
    /// Read the tags of files.
    LoadMetadata(Vec<FilePath>),
    /// Load the cover of a queue entry. Streams have no path.
    LoadArtwork {
        track_index: usize,
        path: Option<FilePath>,
        metadata: Option<TrackMetadata>,
        source_config: SourceConfig,
        cache_dir: FilePath,
    },
    /// Look up the lyrics of a queue entry.
    LoadLyrics { track_index: usize, request: LyricsRequest },
    /// Save the queue under the name that it has.
    SaveActivePlaylist { name: String },
}

/// What an effect says.
pub ghost enum Order {
    Audio(AudioOrder),
    LoadMetadata(Seq<Seq<u8>>),
    LoadArtwork {
        track_index: int,
        path: Option<Seq<u8>>,
        metadata: Option<metadata::Tags>,
        source_config: SourceConfig,
        cache_dir: Seq<u8>,
    },
    LoadLyrics { track_index: int, request: LyricsQuery },
    SaveActivePlaylist(Seq<char>),
}

impl View for Effect {
    type V = Order;

    open spec fn view(&self) -> Order {
        match self {
            Effect::Audio(command) => Order::Audio(command@),
            Effect::LoadMetadata(files) => Order::LoadMetadata(playlist::file_views(files@)),
            Effect::LoadArtwork { track_index, path, metadata, source_config, cache_dir } => {
                Order::LoadArtwork {
                    track_index: *track_index as int,
                    path: match path {
                        Some(file) => Some(file@),
                        None => None,
                    },
                    metadata: metadata::optional_tags(*metadata),
                    source_config: *source_config,
                    cache_dir: cache_dir@,
                }
            },
            Effect::LoadLyrics { track_index, request } => Order::LoadLyrics {
                track_index: *track_index as int,
                request: request@,
            },
            Effect::SaveActivePlaylist { name } => Order::SaveActivePlaylist(name@),
        }
    }
}

/// What effects say.
pub open spec fn orders(effects: Seq<Effect>) -> Seq<Order> {
    effects.map_values(|e: Effect| e@)
}

/// Adding an effect adds what it says.
pub proof fn lemma_orders_push(effects: Seq<Effect>, effect: Effect)
    ensures
        orders(effects.push(effect)) == orders(effects).push(effect@),
{
    assert(orders(effects.push(effect)) =~= orders(effects).push(effect@));
}

/// Effects one after the other say what they say one after the other.
pub proof fn lemma_orders_append(first: Seq<Effect>, second: Seq<Effect>)
    ensures
        orders(first + second) == orders(first) + orders(second),
{
    assert(orders(first + second) =~= orders(first) + orders(second));
}

/// One effect on its own.
pub fn only(effect: Effect) -> (effects: Vec<Effect>)
    ensures
        orders(effects@) == seq![effect@],
{
    let mut effects: Vec<Effect> = Vec::new();
    effects.push(effect);
    assert(orders(effects@) =~= seq![effect@]);
    effects
}

/// No effect.
pub fn nothing() -> (effects: Vec<Effect>)
    ensures
        orders(effects@) == Seq::<Order>::empty(),
{
    let effects: Vec<Effect> = Vec::new();
    assert(orders(effects@) =~= Seq::<Order>::empty());
    effects
}

/// Add an effect.
pub fn add_effect(effects: &mut Vec<Effect>, effect: Effect)
    ensures
        orders(final(effects)@) == orders(old(effects)@).push(effect@),
{
    proof {
        lemma_orders_push(effects@, effect);
    }
    effects.push(effect);
}

} // verus!
