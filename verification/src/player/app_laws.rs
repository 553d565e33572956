//! Promises that the player keeps to its user.
//!
//! Each law is about the calls themselves: what a command or a report hands out
//! and what it changes.
use crate::path;
use crate::player::app;
use crate::player::app::{App, Command};
use crate::player::audio::{AudioCommand, AudioOrder};
use crate::player::effect;
use crate::player::effect::{Effect, Order};
use crate::player::navigation;
use crate::player::notice::Notice;
use crate::player::playlist;
use crate::player::playlist::Playlist;
use crate::player::track;
use crate::player::track::{Track, TrackLocation};
use crate::time::Duration;
use vstd::math;
use vstd::prelude::*;

verus! {

/// Whether an effect plays an entry from its start.
pub open spec fn plays(e: Effect, entry: Track, index: int) -> bool {
    &&& e matches Effect::Audio(AudioCommand::Play { source, track_index, generation })
    &&& source@ == entry.location@
    &&& track_index == index
    &&& generation is Some == entry.location is Url
}

/// Whether the player plays an entry from its start.
pub open spec fn is_playing(before: App, after: App, index: int) -> bool {
    let entry = before.playlist.tracks@[index];
    &&& after.playback.status is Playing
    &&& after.playback.track_index == Some(index as usize)
    &&& after.playback.elapsed.nanos == 0
    &&& after.playback.duration == match entry.metadata {
        Some(tags) => Some(tags.duration),
        None => None,
    }
    &&& after.playlist.cursor == index
    &&& after.playlist.tracks == before.playlist.tracks
    &&& after.playback.volume_percent == before.playback.volume_percent
    &&& after.playback.speed == before.playback.speed
    &&& after.playback_mode == before.playback_mode
    &&& after.resume.last_track is Some
    &&& after.resume.last_track->0@ == entry.location@
    &&& after.resume.position_ms == 0
    &&& !after.navigation.unplayed@.contains(index as usize)
}

/// Whether nothing of a player changed but its messages, of which one is new.
pub open spec fn only_says(before: App, after: App, note: Notice) -> bool {
    &&& after == (App { notifications: after.notifications, ..before })
    &&& after.notifications@.len() > 0
    &&& after.notifications@.last() == note
}

proof fn lemma_first_effect(effects: Seq<Effect>, first: Order, rest: Seq<Order>)
    requires
        effect::orders(effects) == seq![first] + rest,
    ensures
        effects.len() == 1 + rest.len(),
        effects[0]@ == first,
        forall|k: int| #![trigger effects[k]] 1 <= k < effects.len() ==> effects[k]@ == rest[k - 1],
{
    assert(effect::orders(effects).len() == effects.len());
    assert(effect::orders(effects)[0] == effects[0]@);
    assert forall|k: int| #![trigger effects[k]] 1 <= k < effects.len() implies effects[k]@
        == rest[k - 1] by {
        assert(effect::orders(effects)[k] == effects[k]@);
    }
}

proof fn lemma_only_effect(effects: Seq<Effect>, only: Order)
    requires
        effect::orders(effects) == seq![only],
    ensures
        effects.len() == 1,
        effects[0]@ == only,
{
    assert(effect::orders(effects).len() == effects.len());
    assert(effect::orders(effects)[0] == effects[0]@);
}

proof fn lemma_no_effect(effects: Seq<Effect>)
    requires
        effect::orders(effects) == Seq::<Order>::empty(),
    ensures
        effects.len() == 0,
{
    assert(effect::orders(effects).len() == effects.len());
}

proof fn lemma_queues_can_be_counted(queue: Playlist)
    ensures
        queue.tracks@.len() <= usize::MAX,
{
    assert(queue.tracks.len() == queue.tracks@.len());
}

proof fn lemma_begins(before: App, after: App, effects: Seq<Effect>, back: bool)
    requires
        before.wf(),
        before.playlist.tracks@.len() > 0,
        app::begins(before, after, effect::orders(effects), back),
    ensures
        is_playing(before, after, before.playlist.cursor as int),
        effects.len() >= 1,
        plays(
            effects[0],
            before.playlist.tracks@[before.playlist.cursor as int],
            before.playlist.cursor as int,
        ),
{
    lemma_first_effect(
        effects,
        app::play_order(before, before.playlist.cursor),
        app::companion_orders(before),
    );
    navigation::law_without_leaves_the_others(
        before.navigation.unplayed@,
        before.playlist.cursor,
    );
}

/// Starting the entry under the cursor plays it, and the one that played before is
/// remembered. With artwork on, its cover is asked for with the settings of the
/// user; with lyrics in view, the words of a file are; and for a crossfade the
/// entry that follows is made ready.
pub proof fn law_starting_an_entry_plays_it(player: &mut App, effects: Vec<Effect>)
    requires
        old(player).wf(),
        old(player).playlist.tracks@.len() > 0,
        call_ensures(App::begin_current_track, (player,), effects),
    ensures
        ({
            let index = old(player).playlist.cursor as int;
            let len = old(player).playlist.tracks@.len() as int;
            let entry = old(player).playlist.tracks@[index];
            let cover: int = if old(player).artwork.enabled {
                1
            } else {
                0
            };
            let words: int = if old(player).lyrics.visible && entry.location is Local {
                1
            } else {
                0
            };
            let mode = old(player).playback_mode;
            let fades = old(player).settings.crossfade_seconds > 0 && !mode.shuffle
                && !(mode.repeat is Track) && (index + 1 < len || mode.repeat is All);
            &&& is_playing(*old(player), *final(player), index)
            &&& plays(effects@[0], entry, index)
            &&& entry.location is Local ==> final(player).stream_generation
                == old(player).stream_generation
            &&& entry.location is Url ==> {
                &&& final(player).stream_generation != old(player).stream_generation
                &&& effects@[0] matches Effect::Audio(AudioCommand::Play { generation, .. })
                &&& generation == Some(final(player).stream_generation)
            }
            &&& effects@.len() == 1 + cover + words + if fades {
                1int
            } else {
                0
            }
            &&& cover == 1 ==> {
                &&& effects@[1] matches Effect::LoadArtwork {
                    track_index,
                    path,
                    metadata,
                    source_config,
                    cache_dir,
                }
                &&& track_index == index
                &&& source_config == old(player).settings.artwork_source
                &&& cache_dir@ == old(player).settings.cache_dir@
                &&& path is Some == entry.location is Local
                &&& entry.location matches TrackLocation::Local(file) ==> path->0@ == file@
                &&& metadata is Some == entry.metadata is Some
                &&& metadata matches Some(tags) ==> tags.artist@ == entry.metadata->0.artist@
                    && tags.album@ == entry.metadata->0.album@
                &&& final(player).artwork_loading
            }
            &&& words == 1 ==> {
                &&& effects@[1 + cover] matches Effect::LoadLyrics { track_index, request }
                &&& track_index == index
                &&& request.audio_path@ == entry.location->Local_0@
                &&& final(player).lyrics.loading
                &&& final(player).lyrics.document is None
            }
            &&& fades ==> {
                let next = if index + 1 < len {
                    index + 1
                } else {
                    0
                };
                &&& effects@[1 + cover + words] matches Effect::Audio(
                    AudioCommand::PreloadNext { source, track_index },
                )
                &&& track_index == next
                &&& source@ == old(player).playlist.tracks@[next].location@
            }
            &&& old(player).playback.track_index matches Some(previous) ==> previous < len
                && previous != index ==> final(player).navigation.history@
                == old(player).navigation.history@.push(previous)
        }),
{
    let before = *old(player);
    lemma_queues_can_be_counted(before.playlist);
    lemma_begins(before, *final(player), effects@, false);
    lemma_first_effect(
        effects@,
        app::play_order(before, before.playlist.cursor),
        app::companion_orders(before),
    );
    let index = before.playlist.cursor;
    let entry = before.playlist.tracks@[index as int];
    let others = app::companion_orders(before);
    let cover: int = if before.artwork.enabled {
        1
    } else {
        0
    };
    let words: int = if app::wants_lyrics(before, entry) {
        1
    } else {
        0
    };
    if cover == 1 {
        assert(others[0] == app::artwork_order(before, index));
        assert(effects@[1]@ == others[0]);
    }
    if words == 1 {
        assert(others[cover] == app::lyrics_order(before, index));
        assert(effects@[1 + cover]@ == others[cover]);
    }
    if app::crossfade_target(before) is Some {
        assert(others.len() == cover + words + 1);
        assert(effects@[1 + cover + words]@ == others[cover + words]);
    }
}

/// Pausing a player that plays pauses it, and pausing it again lets it go on; a
/// player that is stopped stays so.
pub proof fn law_pausing_twice_goes_on(
    player: &mut App,
    first: Vec<Effect>,
    again: &mut App,
    second: Vec<Effect>,
)
    requires
        old(player).wf(),
        old(player).screen.popup is None,
        call_ensures(App::handle_command, (player, Command::TogglePause), first),
        *old(again) == *final(player),
        call_ensures(App::handle_command, (again, Command::TogglePause), second),
    ensures
        old(player).playback.status is Playing ==> {
            &&& final(player).playback.status is Paused
            &&& first@.len() == 1 && first@[0] == Effect::Audio(AudioCommand::Pause)
            &&& *final(again) == *old(player)
            &&& second@.len() == 1 && second@[0] == Effect::Audio(AudioCommand::Resume)
        },
        old(player).playback.status is Paused ==> {
            &&& final(player).playback.status is Playing
            &&& first@.len() == 1 && first@[0] == Effect::Audio(AudioCommand::Resume)
            &&& *final(again) == *old(player)
        },
        old(player).playback.status is Stopped ==> first@.len() == 0 && *final(player)
            == *old(player),
        final(player).playback.track_index == old(player).playback.track_index,
        final(player).playback.elapsed == old(player).playback.elapsed,
{
    if old(player).playback.status is Playing {
        lemma_only_effect(first@, Order::Audio(AudioOrder::Pause));
        lemma_only_effect(second@, Order::Audio(AudioOrder::Resume));
    } else if old(player).playback.status is Paused {
        lemma_only_effect(first@, Order::Audio(AudioOrder::Resume));
    } else {
        lemma_no_effect(first@);
    }
}

/// The volume moves by five percent and stays between nothing and a hundred; the
/// worker is told the volume that is shown.
pub proof fn law_volume_steps_by_five(
    louder: &mut App,
    up: Vec<Effect>,
    softer: &mut App,
    down: Vec<Effect>,
)
    requires
        old(louder).wf(),
        old(louder).screen.popup is None,
        call_ensures(App::handle_command, (louder, Command::VolumeUp), up),
        old(softer).wf(),
        old(softer).screen.popup is None,
        call_ensures(App::handle_command, (softer, Command::VolumeDown), down),
    ensures
        final(louder).playback.volume_percent.value == math::min(
            old(louder).playback.volume_percent.value + 5,
            100,
        ),
        up@.len() == 1,
        up@[0] == Effect::Audio(AudioCommand::SetVolume(final(louder).playback.volume_percent)),
        final(softer).playback.volume_percent.value == math::max(
            old(softer).playback.volume_percent.value - 5,
            0,
        ),
        down@.len() == 1,
        down@[0] == Effect::Audio(AudioCommand::SetVolume(final(softer).playback.volume_percent)),
        final(louder).playlist == old(louder).playlist,
        final(louder).playback.status == old(louder).playback.status,
        final(softer).playback.status == old(softer).playback.status,
{
    lemma_only_effect(
        up@,
        Order::Audio(AudioOrder::SetVolume(final(louder).playback.volume_percent)),
    );
    lemma_only_effect(
        down@,
        Order::Audio(AudioOrder::SetVolume(final(softer).playback.volume_percent)),
    );
}

/// The speed moves by a tenth, stays between a half and twice the normal speed, and
/// goes back to normal; the worker is told the speed that is shown.
pub proof fn law_speed_steps_by_a_tenth(
    faster: &mut App,
    up: Vec<Effect>,
    slower: &mut App,
    down: Vec<Effect>,
    resetting: &mut App,
    reset: Vec<Effect>,
)
    requires
        old(faster).wf(),
        old(faster).screen.popup is None,
        call_ensures(App::handle_command, (faster, Command::SpeedUp), up),
        old(slower).wf(),
        old(slower).screen.popup is None,
        call_ensures(App::handle_command, (slower, Command::SpeedDown), down),
        old(resetting).wf(),
        old(resetting).screen.popup is None,
        call_ensures(App::handle_command, (resetting, Command::SpeedReset), reset),
    ensures
        final(faster).playback.speed.tenths == math::min(
            old(faster).playback.speed.tenths + 1,
            20,
        ),
        up@.len() == 1,
        up@[0] == Effect::Audio(AudioCommand::SetSpeed(final(faster).playback.speed)),
        final(slower).playback.speed.tenths == math::max(
            old(slower).playback.speed.tenths - 1,
            5,
        ),
        down@.len() == 1,
        down@[0] == Effect::Audio(AudioCommand::SetSpeed(final(slower).playback.speed)),
        final(resetting).playback.speed.tenths == 10,
        reset@.len() == 1,
        reset@[0] == Effect::Audio(AudioCommand::SetSpeed(final(resetting).playback.speed)),
        final(faster).playback.status == old(faster).playback.status,
        final(slower).playback.track_index == old(slower).playback.track_index,
{
    lemma_only_effect(up@, Order::Audio(AudioOrder::SetSpeed(final(faster).playback.speed)));
    lemma_only_effect(down@, Order::Audio(AudioOrder::SetSpeed(final(slower).playback.speed)));
    lemma_only_effect(reset@, Order::Audio(AudioOrder::SetSpeed(final(resetting).playback.speed)));
}

/// A seek goes five seconds each way, and thirty in a track of ten minutes or more.
/// Without a track there is nothing to seek in.
pub proof fn law_seeks_depend_on_the_length(
    onward: &mut App,
    ahead: Vec<Effect>,
    backward: &mut App,
    behind: Vec<Effect>,
)
    requires
        old(onward).wf(),
        old(onward).screen.popup is None,
        call_ensures(App::handle_command, (onward, Command::SeekForward), ahead),
        *old(backward) == *old(onward),
        call_ensures(App::handle_command, (backward, Command::SeekBackward), behind),
    ensures
        *final(onward) == *old(onward),
        *final(backward) == *old(backward),
        old(onward).playback.track_index is None ==> ahead@.len() == 0 && behind@.len() == 0,
        old(onward).playback.track_index is Some ==> {
            let long = old(onward).playback.duration is Some
                && old(onward).playback.duration->0.nanos >= 600_000_000_000;
            let amount = Duration {
                nanos: if long {
                    30_000_000_000
                } else {
                    5_000_000_000
                },
            };
            &&& ahead@.len() == 1
            &&& ahead@[0] == Effect::Audio(AudioCommand::SeekBy { forward: true, amount })
            &&& behind@.len() == 1
            &&& behind@[0] == Effect::Audio(AudioCommand::SeekBy { forward: false, amount })
        },
{
    if old(onward).playback.track_index is Some {
        lemma_only_effect(ahead@, effect::orders(ahead@)[0]);
        lemma_only_effect(behind@, effect::orders(behind@)[0]);
    } else {
        lemma_no_effect(ahead@);
        lemma_no_effect(behind@);
    }
}

/// Playing the selected entry plays the one under the cursor; an empty queue plays
/// nothing.
pub proof fn law_the_selected_entry_is_played(player: &mut App, effects: Vec<Effect>)
    requires
        old(player).wf(),
        old(player).screen.popup is None,
        call_ensures(App::handle_command, (player, Command::PlaySelected), effects),
    ensures
        old(player).playlist.tracks@.len() == 0 ==> effects@.len() == 0 && only_says(
            *old(player),
            *final(player),
            Notice::QueueEmpty,
        ),
        old(player).playlist.tracks@.len() > 0 ==> {
            let index = old(player).playlist.cursor as int;
            &&& is_playing(*old(player), *final(player), index)
            &&& effects@.len() >= 1
            &&& plays(effects@[0], old(player).playlist.tracks@[index], index)
        },
{
    if old(player).playlist.tracks@.len() == 0 {
        lemma_no_effect(effects@);
    } else {
        lemma_begins(*old(player), *final(player), effects@, false);
    }
}

/// Skipping in a queue that is not shuffled plays the entry after the current one,
/// or after the cursor if nothing plays. At the end it starts over in a queue that
/// repeats as a whole, and says that there is no more in any other one.
pub proof fn law_skipping_plays_the_next_entry(player: &mut App, effects: Vec<Effect>)
    requires
        old(player).wf(),
        old(player).screen.popup is None,
        !old(player).playback_mode.shuffle,
        old(player).playback.track_index matches Some(index) ==> index
            < old(player).playlist.tracks@.len(),
        call_ensures(App::handle_command, (player, Command::NextTrack), effects),
    ensures
        ({
            let len = old(player).playlist.tracks@.len() as int;
            let from = match old(player).playback.track_index {
                Some(index) => index as int,
                None => old(player).playlist.cursor as int,
            };
            let wraps = old(player).playback_mode.repeat is All;
            &&& len == 0 ==> effects@.len() == 0 && only_says(
                *old(player),
                *final(player),
                Notice::QueueEmpty,
            )
            &&& from + 1 < len ==> is_playing(*old(player), *final(player), from + 1)
                && effects@.len() >= 1 && plays(
                effects@[0],
                old(player).playlist.tracks@[from + 1],
                from + 1,
            )
            &&& len > 0 && from + 1 == len && wraps ==> is_playing(*old(player), *final(player), 0)
                && effects@.len() >= 1 && plays(effects@[0], old(player).playlist.tracks@[0], 0)
            &&& len > 0 && from + 1 == len && !wraps ==> effects@.len() == 0 && only_says(
                *old(player),
                *final(player),
                Notice::NoNextTrack,
            )
        }),
{
    let before = *old(player);
    let len = before.playlist.tracks@.len();
    lemma_queues_can_be_counted(before.playlist);
    if len == 0 {
        lemma_no_effect(effects@);
    } else {
        match navigation::next_by_hand(
            before.playback_mode,
            before.navigation.unplayed@,
            app::skip_origin(before),
            len,
            before.roll,
        ) {
            Some(next) => {
                let there = app::at_entry(app::rolled(before), next);
                lemma_begins(there, *final(player), effects@, false);
            },
            None => {
                lemma_no_effect(effects@);
            },
        }
    }
}

/// Skipping in a shuffled queue plays an entry that the pass has not played, and
/// after the last one some entry other than the current one.
pub proof fn law_shuffled_skips_play_the_unplayed(player: &mut App, effects: Vec<Effect>)
    requires
        old(player).wf(),
        old(player).screen.popup is None,
        old(player).playback_mode.shuffle,
        old(player).playback.track_index is Some,
        old(player).playback.track_index->0 < old(player).playlist.tracks@.len(),
        old(player).playlist.tracks@.len() >= 2,
        call_ensures(App::handle_command, (player, Command::NextTrack), effects),
    ensures
        ({
            let current = old(player).playback.track_index->0;
            let next = final(player).playlist.cursor;
            &&& next < old(player).playlist.tracks@.len()
            &&& is_playing(*old(player), *final(player), next as int)
            &&& effects@.len() >= 1
            &&& plays(effects@[0], old(player).playlist.tracks@[next as int], next as int)
            &&& old(player).navigation.unplayed@.len() > 0
                ==> old(player).navigation.unplayed@.contains(next)
            &&& old(player).navigation.unplayed@.len() == 0 ==> next != current
            &&& final(player).roll != old(player).roll
        }),
{
    let before = *old(player);
    let len = before.playlist.tracks@.len();
    let current = before.playback.track_index->0;
    let unplayed = before.navigation.unplayed@;
    lemma_queues_can_be_counted(before.playlist);
    navigation::law_shuffled_skip_always_plays(
        before.playback_mode,
        unplayed,
        current,
        len,
        before.roll,
    );
    navigation::law_draws_stay_in_the_queue(unplayed, current, len, true, before.roll);
    let next = navigation::next_by_hand(before.playback_mode, unplayed, current, len, before.roll)->0;
    if unplayed.len() == 0 {
        navigation::law_draws_never_repeat(unplayed, current, len, before.roll);
    } else {
        let n = unplayed.len() as int;
        let k = before.roll as int % n;
        assert(0 <= k < n);
        assert(unplayed[k] == next);
    }
    let there = app::at_entry(app::rolled(before), next);
    lemma_begins(there, *final(player), effects@, false);
}

/// Going back in a track that has played for three seconds starts it over.
/// Earlier than that, the track that was heard before it plays, or, if nothing
/// was, the one before it in the queue; and the first track starts over.
pub proof fn law_going_back_restarts_or_plays_the_previous(player: &mut App, effects: Vec<Effect>)
    requires
        old(player).wf(),
        old(player).screen.popup is None,
        old(player).playback.track_index matches Some(index) ==> index
            < old(player).playlist.tracks@.len(),
        call_ensures(App::handle_command, (player, Command::PreviousTrack), effects),
    ensures
        ({
            let history = old(player).navigation.history@;
            let late = old(player).playback.elapsed.nanos >= 3_000_000_000;
            let index = old(player).playback.track_index->0 as int;
            let silent = old(player).playback.track_index is None;
            &&& silent ==> effects@.len() == 0 && *final(player) == *old(player)
            &&& !silent && (late || (history.len() == 0 && index == 0)) ==> {
                &&& effects@.len() == 1
                &&& effects@[0] == Effect::Audio(AudioCommand::SeekTo(Duration { nanos: 0 }))
                &&& final(player).playback.track_index == old(player).playback.track_index
                &&& final(player).playback.elapsed.nanos == 0
                &&& final(player).playback.status == old(player).playback.status
                &&& final(player).navigation == old(player).navigation
            }
            &&& !silent && !late && history.len() > 0 ==> {
                let heard = history.last() as int;
                &&& is_playing(*old(player), *final(player), heard)
                &&& effects@.len() >= 1
                &&& plays(effects@[0], old(player).playlist.tracks@[heard], heard)
                &&& final(player).navigation.history@ == history.drop_last()
            }
            &&& !silent && !late && history.len() == 0 && index > 0 ==> {
                &&& is_playing(*old(player), *final(player), index - 1)
                &&& effects@.len() >= 1
                &&& plays(effects@[0], old(player).playlist.tracks@[index - 1], index - 1)
                &&& final(player).navigation.history@.len() == 0
            }
        }),
{
    let before = *old(player);
    let after = *final(player);
    let history = before.navigation.history@;
    let orders = effect::orders(effects@);
    match before.playback.track_index {
        None => {
            lemma_no_effect(effects@);
        },
        Some(index) => {
            if before.playback.elapsed.nanos >= 3_000_000_000 || (history.len() == 0 && index == 0) {
                lemma_only_effect(effects@, orders[0]);
            } else if history.len() > 0 {
                let popped = choose|popped: App|
                    {
                        &&& popped == (App {
                            navigation: popped.navigation,
                            ..app::at_entry(before, history.last())
                        })
                        &&& popped.navigation.history@ == history.drop_last()
                        &&& popped.navigation.unplayed@ == before.navigation.unplayed@
                        &&& #[trigger] app::begins(popped, after, orders, true)
                    };
                assert(history[history.len() - 1] < before.playlist.tracks@.len());
                assert forall|i: int|
                    0 <= i < popped.navigation.history@.len() implies #[trigger] popped.navigation.history@[i]
                    < popped.playlist.tracks@.len() by {
                    assert(popped.navigation.history@[i] == history[i]);
                }
                lemma_begins(popped, after, effects@, true);
            } else {
                lemma_begins(app::at_entry(before, (index - 1) as usize), after, effects@, true);
            }
        },
    }
}

/// Cycling the repeat mode three times goes through all modes and back to the
/// first, and plays nothing.
pub proof fn law_repeat_command_goes_round(player: &mut App, effects: Vec<Effect>)
    requires
        old(player).wf(),
        old(player).screen.popup is None,
        call_ensures(App::handle_command, (player, Command::CycleRepeat), effects),
    ensures
        effects@.len() == 0,
        old(player).playback_mode.repeat is Off ==> final(player).playback_mode.repeat is Track,
        old(player).playback_mode.repeat is Track ==> final(player).playback_mode.repeat is All,
        old(player).playback_mode.repeat is All ==> final(player).playback_mode.repeat is Off,
        final(player).playback_mode.shuffle == old(player).playback_mode.shuffle,
        final(player).playback == old(player).playback,
        final(player).playlist == old(player).playlist,
        final(player).notifications@.last() == Notice::Repeat(final(player).playback_mode.repeat),
{
    lemma_no_effect(effects@);
}

/// Shuffling can play every entry but the current one, each once; switching it off
/// ends the pass. What plays goes on, and what was heard is remembered.
pub proof fn law_shuffling_begins_a_pass(player: &mut App, effects: Vec<Effect>)
    requires
        old(player).wf(),
        old(player).screen.popup is None,
        call_ensures(App::handle_command, (player, Command::ToggleShuffle), effects),
    ensures
        effects@.len() == 0,
        final(player).playback_mode.shuffle == !old(player).playback_mode.shuffle,
        final(player).playback_mode.repeat == old(player).playback_mode.repeat,
        final(player).playback == old(player).playback,
        final(player).playlist == old(player).playlist,
        final(player).navigation.history@ == old(player).navigation.history@,
        final(player).playback_mode.shuffle ==> forall|e: usize|
            #[trigger] final(player).navigation.unplayed@.contains(e) <==> e
                < old(player).playlist.tracks@.len() && old(player).playback.track_index != Some(e),
        !final(player).playback_mode.shuffle ==> final(player).navigation.unplayed@.len() == 0,
        final(player).notifications@.last() == Notice::Shuffle(final(player).playback_mode.shuffle),
{
    lemma_no_effect(effects@);
    let len = old(player).playlist.tracks@.len();
    let playing = old(player).playback.track_index;
    lemma_queues_can_be_counted(old(player).playlist);
    navigation::law_all_but_leaves_one_out(len, playing);
    let pass = final(player).navigation.unplayed@;
    if final(player).playback_mode.shuffle {
        assert forall|e: usize| #[trigger] pass.contains(e) implies e < len && playing != Some(e) by {
            let k = choose|k: int| 0 <= k < pass.len() && pass[k] == e;
            assert(navigation::all_but(len, playing)[k] == e);
        }
    }
}

/// Whether the queue of a player is saved last, if it has a name.
pub open spec fn saves_last(before: App, effects: Seq<Effect>, others: int) -> bool {
    match before.active_playlist_name {
        Some(name) => effects.len() == others + 1 && (
        effects[others] matches Effect::SaveActivePlaylist { name: saved } && saved@ == name@),
        None => effects.len() == others,
    }
}

/// Deleting takes the entry under the cursor out of the queue and leaves all others
/// in order. The entry that plays keeps playing, wherever it is now; if it is the
/// one that was deleted, playback stops.
pub proof fn law_deleting_removes_the_selected_entry(player: &mut App, effects: Vec<Effect>)
    requires
        old(player).wf(),
        old(player).screen.popup is None,
        old(player).playlist.tracks@.len() > 0,
        call_ensures(App::handle_command, (player, Command::DeleteQueueEntry), effects),
    ensures
        ({
            let gone = old(player).playlist.cursor as int;
            let before = old(player).playlist.tracks@;
            let after = final(player).playlist.tracks@;
            let stops = old(player).playback.track_index == Some(old(player).playlist.cursor);
            &&& after.len() + 1 == before.len()
            &&& forall|i: int| 0 <= i < gone ==> #[trigger] after[i] == before[i]
            &&& forall|i: int| gone <= i < after.len() ==> #[trigger] after[i] == before[i + 1]
            &&& stops ==> {
                &&& final(player).playback.status is Stopped
                &&& final(player).playback.track_index is None
                &&& final(player).resume.last_track is None
                &&& effects@.len() >= 1 && effects@[0] == Effect::Audio(AudioCommand::Stop)
                &&& saves_last(*old(player), effects@, 1)
            }
            &&& !stops ==> {
                &&& final(player).playback.status == old(player).playback.status
                &&& final(player).playback.elapsed == old(player).playback.elapsed
                &&& saves_last(*old(player), effects@, 0)
                &&& old(player).playback.track_index is None
                    ==> final(player).playback.track_index is None
                &&& old(player).playback.track_index matches Some(playing) ==> playing
                    < before.len() ==> {
                    &&& final(player).playback.track_index is Some
                    &&& final(player).playback.track_index->0 < after.len()
                    &&& after[final(player).playback.track_index->0 as int]
                        == before[playing as int]
                }
            }
            &&& final(player).navigation.history@.len() == 0
        }),
{
    let before = *old(player);
    let stops = before.playback.track_index == Some(before.playlist.cursor);
    let orders = effect::orders(effects@);
    assert(orders.len() == effects@.len());
    if stops {
        assert(orders =~= seq![Order::Audio(AudioOrder::Stop)] + app::autosave(before));
        lemma_first_effect(effects@, Order::Audio(AudioOrder::Stop), app::autosave(before));
        if before.active_playlist_name is Some {
            assert(effects@[1]@ == app::autosave(before)[0]);
        }
    } else {
        assert(orders =~= app::autosave(before));
        if before.active_playlist_name is Some {
            lemma_only_effect(effects@, app::autosave(before)[0]);
        }
    }
}

/// Clearing the queue empties it and lets what plays go on.
pub proof fn law_clearing_empties_the_queue(player: &mut App, effects: Vec<Effect>)
    requires
        old(player).wf(),
        old(player).screen.popup is None,
        call_ensures(App::handle_command, (player, Command::ClearQueue), effects),
    ensures
        final(player).playlist.tracks@.len() == 0,
        final(player).playback == old(player).playback,
        final(player).navigation.history@.len() == 0,
        final(player).navigation.unplayed@.len() == 0,
        saves_last(*old(player), effects@, 0),
{
    let before = *old(player);
    assert(effect::orders(effects@).len() == effects@.len());
    if before.active_playlist_name is Some {
        lemma_only_effect(effects@, app::autosave(before)[0]);
    }
}

/// Moving the selected entry changes places with its neighbour. The cursor goes
/// along, and the entry that plays stays the one that plays.
pub proof fn law_moving_entries_keeps_what_plays(
    player: &mut App,
    up: bool,
    command: Command,
    effects: Vec<Effect>,
)
    requires
        old(player).wf(),
        old(player).screen.popup is None,
        command == if up {
            Command::SwapSelectedUp
        } else {
            Command::SwapSelectedDown
        },
        old(player).playlist.tracks@.len() > 0,
        call_ensures(App::handle_command, (player, command), effects),
    ensures
        ({
            let from = old(player).playlist.cursor as int;
            let to = if up {
                from - 1
            } else {
                from + 1
            };
            let before = old(player).playlist.tracks@;
            let after = final(player).playlist.tracks@;
            let room = 0 <= to < before.len();
            &&& !room ==> effects@.len() == 0 && *final(player) == *old(player)
            &&& room ==> {
                &&& after.len() == before.len()
                &&& after[to] == before[from]
                &&& after[from] == before[to]
                &&& forall|i: int|
                    0 <= i < before.len() && i != from && i != to ==> #[trigger] after[i]
                        == before[i]
                &&& final(player).playlist.cursor == to
                &&& saves_last(*old(player), effects@, 0)
                &&& old(player).playback.track_index matches Some(playing) ==> playing
                    < before.len() ==> {
                    &&& final(player).playback.track_index is Some
                    &&& after[final(player).playback.track_index->0 as int]
                        == before[playing as int]
                }
                &&& final(player).playback.status == old(player).playback.status
            }
        }),
{
    let before = *old(player);
    assert(effect::orders(effects@).len() == effects@.len());
    let room = if up {
        before.playlist.cursor > 0
    } else {
        before.playlist.cursor + 1 < before.playlist.tracks@.len()
    };
    lemma_queues_can_be_counted(before.playlist);
    if !room {
        lemma_no_effect(effects@);
    } else if before.active_playlist_name is Some {
        lemma_only_effect(effects@, app::autosave(before)[0]);
    } else {
        lemma_no_effect(effects@);
    }
}

/// A track that ends is followed by the next one: in a queue that is not shuffled
/// by the entry at the next position, from the last to the first only in a queue
/// that repeats as a whole, and by itself if the track repeats. Otherwise playback
/// stops.
pub proof fn law_ended_tracks_are_followed(
    player: &mut App,
    reported: usize,
    current: usize,
    effects: Vec<Effect>,
)
    requires
        old(player).wf(),
        call_ensures(App::apply_track_ended, (player, reported), effects),
        old(player).playback.track_index == Some(current),
        current < old(player).playlist.tracks@.len(),
        !old(player).playback_mode.shuffle,
        old(player).resume.last_track matches Some(location) ==> call_ensures(
            Playlist::position_of,
            (&old(player).playlist, &location),
            Some(current),
        ),
        old(player).resume.last_track is None ==> reported == current,
    ensures
        ({
            let len = old(player).playlist.tracks@.len() as int;
            let mode = old(player).playback_mode.repeat;
            let next = if mode is Track {
                current as int
            } else {
                (current + 1) % len
            };
            let ends = mode is Off && current + 1 == len;
            &&& !ends ==> is_playing(*old(player), *final(player), next) && effects@.len() >= 1
                && plays(effects@[0], old(player).playlist.tracks@[next], next)
            &&& ends ==> {
                &&& effects@.len() == 0
                &&& final(player).playback.status is Stopped
                &&& final(player).playback.track_index is None
                &&& final(player).playback.elapsed.nanos == 0
                &&& final(player).playlist == old(player).playlist
            }
        }),
{
    let before = *old(player);
    let len = before.playlist.tracks@.len();
    lemma_queues_can_be_counted(before.playlist);
    assert(app::current_position(before, reported) == Some(current as int));
    if current + 1 == len {
        assert((current + 1) % (len as int) == 0) by (nonlinear_arith)
            requires
                current + 1 == len,
        ;
    } else {
        assert((current + 1) % (len as int) == current + 1) by (nonlinear_arith)
            requires
                0 <= current + 1 < len,
        ;
    }
    match navigation::next_by_itself(
        before.playback_mode,
        before.navigation.unplayed@,
        current,
        len,
        before.roll,
    ) {
        Some(next) => {
            let there = app::at_entry(app::rolled(before), next);
            lemma_begins(there, *final(player), effects@, false);
        },
        None => {
            lemma_no_effect(effects@);
        },
    }
}

/// A report about the end of a track that does not play, or that is not the one
/// that plays, changes nothing.
pub proof fn law_stale_ends_change_nothing(player: &mut App, reported: usize, effects: Vec<Effect>)
    requires
        old(player).wf(),
        call_ensures(App::apply_track_ended, (player, reported), effects),
        old(player).playback.track_index is None || (old(player).resume.last_track is None
            && old(player).playback.track_index != Some(reported)),
    ensures
        effects@.len() == 0,
        *final(player) == *old(player),
{
    lemma_no_effect(effects@);
}

/// A shuffled queue goes on with an entry that its pass has not played, and after
/// the last one with some other entry if the queue repeats as a whole; otherwise
/// playback stops.
pub proof fn law_shuffled_queues_go_on(
    player: &mut App,
    reported: usize,
    current: usize,
    effects: Vec<Effect>,
)
    requires
        old(player).wf(),
        call_ensures(App::apply_track_ended, (player, reported), effects),
        old(player).playback.track_index == Some(current),
        reported == current,
        old(player).resume.last_track is None,
        current < old(player).playlist.tracks@.len(),
        old(player).playback_mode.shuffle,
        old(player).playlist.tracks@.len() >= 2,
    ensures
        ({
            let mode = old(player).playback_mode.repeat;
            let unplayed = old(player).navigation.unplayed@;
            let next = final(player).playlist.cursor;
            let ends = mode is Off && unplayed.len() == 0;
            &&& ends ==> effects@.len() == 0 && final(player).playback.status is Stopped
                && final(player).playback.track_index is None
            &&& !ends ==> {
                &&& next < old(player).playlist.tracks@.len()
                &&& is_playing(*old(player), *final(player), next as int)
                &&& effects@.len() >= 1
                &&& plays(effects@[0], old(player).playlist.tracks@[next as int], next as int)
                &&& mode is Track ==> next == current
                &&& !(mode is Track) && unplayed.len() > 0 ==> unplayed.contains(next)
                &&& mode is All && unplayed.len() == 0 ==> next != current
            }
        }),
{
    let before = *old(player);
    let len = before.playlist.tracks@.len();
    let unplayed = before.navigation.unplayed@;
    let again = before.playback_mode.repeat is All;
    lemma_queues_can_be_counted(before.playlist);
    navigation::law_shuffled_skip_always_plays(
        before.playback_mode,
        unplayed,
        current,
        len,
        before.roll,
    );
    navigation::law_draws_stay_in_the_queue(unplayed, current, len, again, before.roll);
    if unplayed.len() == 0 {
        navigation::law_draws_never_repeat(unplayed, current, len, before.roll);
    } else {
        let n = unplayed.len() as int;
        let k = before.roll as int % n;
        assert(0 <= k < n);
        assert(unplayed.contains(unplayed[k]));
    }
    match navigation::next_by_itself(before.playback_mode, unplayed, current, len, before.roll) {
        Some(next) => {
            let there = app::at_entry(app::rolled(before), next);
            lemma_begins(there, *final(player), effects@, false);
        },
        None => {
            lemma_no_effect(effects@);
        },
    }
}

} // verus!
