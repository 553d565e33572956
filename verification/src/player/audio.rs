//! What the audio worker is told, and what it reports.
use crate::player::track;
use crate::player::track::TrackLocation;
use crate::time::Duration;
use vstd::prelude::*;

verus! {

/// State of the audio output.
#[derive(Debug, Clone, Copy, PartialEq, Eq, Structural)]
pub enum PlayStatus {
    Stopped,
    Playing,
    Paused,
}

/// Whether the output device is still there.
#[derive(Debug, Clone, Copy, PartialEq, Eq, Structural)]
pub enum SinkHealth {
    Healthy,
    Lost,
}

/// Loudest volume.
pub const VOLUME_MAX: u16 = 100;

/// Change of the volume with one key press.
pub const VOLUME_STEP: u16 = 5;

/// Volume of a new session.
pub const VOLUME_DEFAULT: u16 = 70;

/// Volume in percent, at most 100.
#[derive(Debug, Clone, Copy, PartialEq, Eq, Structural)]
pub struct VolumePercent {
    pub value: u16,
}

/// Volume after a step, cut to the range of volumes.
pub open spec fn stepped_volume(volume: VolumePercent, louder: bool) -> VolumePercent {
    VolumePercent {
        value: if louder {
            if volume.value + VOLUME_STEP <= VOLUME_MAX {
                (volume.value + VOLUME_STEP) as u16
            } else {
                VOLUME_MAX
            }
        } else if volume.value >= VOLUME_STEP {
            (volume.value - VOLUME_STEP) as u16
        } else {
            0
        },
    }
}

impl VolumePercent {
    /// Whether this is a volume.
    pub open spec fn wf(self) -> bool {
        self.value <= VOLUME_MAX
    }

    /// Accept a volume of at most 100 percent.
    pub fn new(value: u16) -> (volume: Option<Self>)
        ensures
            volume == if value <= VOLUME_MAX {
                Some(VolumePercent { value })
            } else {
                None
            },
    {
        if value <= VOLUME_MAX {
            Some(VolumePercent { value })
        } else {
            None
        }
    }

    /// Step the volume.
    pub fn step(self, louder: bool) -> (volume: Self)
        requires
            self.wf(),
        ensures
            volume == stepped_volume(self, louder),
            volume.wf(),
    {
        let value: u16 = if louder {
            if self.value + VOLUME_STEP <= VOLUME_MAX {
                self.value + VOLUME_STEP
            } else {
                VOLUME_MAX
            }
        } else if self.value >= VOLUME_STEP {
            self.value - VOLUME_STEP
        } else {
            0
        };
        VolumePercent { value }
    }
}

/// Slowest speed, in tenths.
pub const SPEED_MIN_TENTHS: u16 = 5;

/// Fastest speed, in tenths.
pub const SPEED_MAX_TENTHS: u16 = 20;

/// Normal speed, in tenths.
pub const SPEED_DEFAULT_TENTHS: u16 = 10;

/// Playback speed in tenths, from 0.5 to 2.0. Whole tenths make stepping exact.
#[derive(Debug, Clone, Copy, PartialEq, Eq, Structural)]
pub struct PlaybackSpeed {
    pub tenths: u16,
}

/// Speed after a step, cut to the range of speeds.
pub open spec fn stepped_tenths(speed: PlaybackSpeed, faster: bool) -> PlaybackSpeed {
    PlaybackSpeed {
        tenths: if faster {
            if speed.tenths < SPEED_MAX_TENTHS {
                (speed.tenths + 1) as u16
            } else {
                SPEED_MAX_TENTHS
            }
        } else if speed.tenths > SPEED_MIN_TENTHS {
            (speed.tenths - 1) as u16
        } else {
            SPEED_MIN_TENTHS
        },
    }
}

impl PlaybackSpeed {
    /// Whether this is a speed.
    pub open spec fn wf(self) -> bool {
        SPEED_MIN_TENTHS <= self.tenths <= SPEED_MAX_TENTHS
    }

    /// Accept a speed from 0.5 to 2.0.
    pub fn new(tenths: u16) -> (speed: Option<Self>)
        ensures
            speed == if SPEED_MIN_TENTHS <= tenths <= SPEED_MAX_TENTHS {
                Some(PlaybackSpeed { tenths })
            } else {
                None
            },
    {
        if SPEED_MIN_TENTHS <= tenths && tenths <= SPEED_MAX_TENTHS {
            Some(PlaybackSpeed { tenths })
        } else {
            None
        }
    }

    /// Speed in tenths.
    pub fn tenths(&self) -> (tenths: u16)
        ensures
            tenths == self.tenths,
    {
        self.tenths
    }

    /// Step the speed.
    pub fn step(self, faster: bool) -> (speed: Self)
        ensures
            speed == stepped_tenths(self, faster),
            self.wf() ==> speed.wf(),
    {
        let tenths: u16 = if faster {
            if self.tenths < SPEED_MAX_TENTHS {
                self.tenths + 1
            } else {
                SPEED_MAX_TENTHS
            }
        } else if self.tenths > SPEED_MIN_TENTHS {
            self.tenths - 1
        } else {
            SPEED_MIN_TENTHS
        };
        PlaybackSpeed { tenths }
    }
}

/// As many steps up as down come back to the same speed, as long as the bounds
/// are not met.
pub proof fn law_speed_steps_cancel(speed: PlaybackSpeed)
    requires
        speed.wf(),
        speed.tenths < SPEED_MAX_TENTHS,
    ensures
        stepped_tenths(stepped_tenths(speed, true), false) == speed,
{
}

/// Seconds of a seek in a short track.
pub const SHORT_SEEK_SECONDS: u64 = 5;

/// Seconds of a seek in a long track.
pub const LONG_SEEK_SECONDS: u64 = 30;

/// Seconds that make a track long.
pub const LONG_TRACK_SECONDS: u64 = 600;

/// Length of a seek in a track of a given length.
pub open spec fn seek_nanos(duration: Option<Duration>) -> int {
    if duration matches Some(d) && d.nanos >= LONG_TRACK_SECONDS * 1_000_000_000 {
        LONG_SEEK_SECONDS * 1_000_000_000
    } else {
        SHORT_SEEK_SECONDS * 1_000_000_000
    }
}

/// Length of a seek in a track of a given length.
pub fn seek_amount(duration: Option<Duration>) -> (amount: Duration)
    ensures
        amount.nanos == seek_nanos(duration),
{
    match duration {
        Some(d) => if d.nanos >= Duration::from_secs(LONG_TRACK_SECONDS).nanos {
            Duration::from_secs(LONG_SEEK_SECONDS)
        } else {
            Duration::from_secs(SHORT_SEEK_SECONDS)
        },
        None => Duration::from_secs(SHORT_SEEK_SECONDS),
    }
}

/// A command to the audio worker.
#[derive(Debug, PartialEq, Eq)]
pub enum AudioCommand {
    /// Play a queue entry. Streams are numbered, so that a late answer for an
    /// earlier start can be told apart.
    Play { source: TrackLocation, track_index: usize, generation: Option<u64> },
    /// Get the next queue entry ready for a crossfade.
    PreloadNext { source: TrackLocation, track_index: usize },
    Pause,
    Resume,
    Stop,
    SeekTo(Duration),
    SeekBy { forward: bool, amount: Duration },
    SetVolume(VolumePercent),
    SetSpeed(PlaybackSpeed),
}

/// What a command says.
pub ghost enum AudioOrder {
    Play { source: track::Location, track_index: int, generation: Option<u64> },
    PreloadNext { source: track::Location, track_index: int },
    Pause,
    Resume,
    Stop,
    SeekTo(Duration),
    SeekBy { forward: bool, amount: Duration },
    SetVolume(VolumePercent),
    SetSpeed(PlaybackSpeed),
}

impl View for AudioCommand {
    type V = AudioOrder;

    open spec fn view(&self) -> AudioOrder {
        match self {
            AudioCommand::Play { source, track_index, generation } => AudioOrder::Play {
                source: source@,
                track_index: *track_index as int,
                generation: *generation,
            },
            AudioCommand::PreloadNext { source, track_index } => AudioOrder::PreloadNext {
                source: source@,
                track_index: *track_index as int,
            },
            AudioCommand::Pause => AudioOrder::Pause,
            AudioCommand::Resume => AudioOrder::Resume,
            AudioCommand::Stop => AudioOrder::Stop,
            AudioCommand::SeekTo(position) => AudioOrder::SeekTo(*position),
            AudioCommand::SeekBy { forward, amount } => AudioOrder::SeekBy {
                forward: *forward,
                amount: *amount,
            },
            AudioCommand::SetVolume(volume) => AudioOrder::SetVolume(*volume),
            AudioCommand::SetSpeed(speed) => AudioOrder::SetSpeed(*speed),
        }
    }
}

/// What the audio worker reports from time to time.
#[derive(Debug, Clone, Copy, PartialEq, Eq)]
pub struct PlaybackSnapshot {
    pub status: PlayStatus,
    pub track_index: Option<usize>,
    pub elapsed: Duration,
    pub duration: Option<Duration>,
    pub sink_health: SinkHealth,
}

} // verus!
