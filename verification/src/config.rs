//! Run parameters, validated once and read-only afterwards.

use vstd::prelude::*;
use vstd::string::*;

verus! {

/// Gain 1.0, written as the bit pattern of an IEEE-754 single.
pub const FULL_VOLUME: u32 = 0x3F80_0000;

/// Gain 0.0, written as the bit pattern of an IEEE-754 single.
pub const SILENT_VOLUME: u32 = 0;

/// Pause before a decoded clip is handed to the sink, unless configured otherwise.
pub const DEFAULT_PLAYBACK_DELAY_MS: u64 = 500;

/// The gain nearest to `bits` inside `[0.0, 1.0]`.
///
/// A gain is held as the bit pattern of an IEEE-754 single. Among patterns
/// with a clear sign bit the numeric order is the order of the patterns, so
/// the range `[0.0, 1.0]` is exactly `0 ..= FULL_VOLUME`. Patterns with the
/// sign bit set (negative gains, `-0.0`) go to silence; patterns above
/// `FULL_VOLUME` (larger gains, infinity, NaN) go to full volume.
pub open spec fn clamped_volume(bits: u32) -> u32 {
    if bits > 0x7FFF_FFFF {
        SILENT_VOLUME
    } else if bits > FULL_VOLUME {
        FULL_VOLUME
    } else {
        bits
    }
}

/// Whether `bits` is a gain inside `[0.0, 1.0]`.
pub open spec fn volume_in_range(bits: u32) -> bool {
    bits <= FULL_VOLUME
}

pub fn clamp_volume(bits: u32) -> (clamped: u32)
    ensures
        clamped == clamped_volume(bits),
        volume_in_range(clamped),
        volume_in_range(bits) ==> clamped == bits,
{
    if bits > 0x7FFF_FFFF {
        SILENT_VOLUME
    } else if bits > FULL_VOLUME {
        FULL_VOLUME
    } else {
        bits
    }
}

/// Why a set of run parameters was refused.
#[derive(Clone, Copy, Debug, PartialEq, Eq, Structural)]
pub enum ConfigError {
    /// The identity sent in the handshake is empty.
    EmptyIdentity,
    /// The first reconnect delay is zero seconds.
    ZeroDelay,
    /// The backoff multiplier is zero.
    ZeroBackoff,
    /// The delay cap is below the first delay.
    MaxDelayBelowDelay,
    /// No retry is allowed at all.
    ZeroAttempts,
    /// The two status tokens are the same text.
    SameStatusTokens,
}

/// What a `Config` holds, as mathematical values.
pub struct ConfigView {
    pub username: Seq<char>,
    pub url: Seq<char>,
    pub volume: u32,
    pub delay: u64,
    pub max_delay: u64,
    pub backoff: u64,
    pub attempts: u64,
    pub died_status: Seq<char>,
    pub left_status: Seq<char>,
    pub playback_delay_ms: u64,
}

impl ConfigView {
    /// The invariant of every `Config`.
    pub open spec fn wf(self) -> bool {
        &&& self.username.len() > 0
        &&& self.delay > 0
        &&& self.backoff >= 1
        &&& self.max_delay >= self.delay
        &&& self.attempts > 0
        &&& volume_in_range(self.volume)
        &&& self.died_status != self.left_status
    }
}

/// Immutable run parameters.
#[derive(Clone, Debug)]
pub struct Config {
    username: String,
    url: String,
    volume: u32,
    delay: u64,
    max_delay: u64,
    backoff: u64,
    attempts: u64,
    died_status: String,
    left_status: String,
    playback_delay_ms: u64,
}

impl View for Config {
    type V = ConfigView;

    closed spec fn view(&self) -> ConfigView {
        ConfigView {
            username: self.username@,
            url: self.url@,
            volume: self.volume,
            delay: self.delay,
            max_delay: self.max_delay,
            backoff: self.backoff,
            attempts: self.attempts,
            died_status: self.died_status@,
            left_status: self.left_status@,
            playback_delay_ms: self.playback_delay_ms,
        }
    }
}

/// The first rule that the numbers and the identity break, if any.
pub open spec fn first_violation(
    username: Seq<char>,
    delay: u64,
    max_delay: u64,
    backoff: u64,
    attempts: u64,
) -> Option<ConfigError> {
    if username.len() == 0 {
        Some(ConfigError::EmptyIdentity)
    } else if delay == 0 {
        Some(ConfigError::ZeroDelay)
    } else if backoff == 0 {
        Some(ConfigError::ZeroBackoff)
    } else if max_delay < delay {
        Some(ConfigError::MaxDelayBelowDelay)
    } else if attempts == 0 {
        Some(ConfigError::ZeroAttempts)
    } else {
        None
    }
}

impl Config {
    /// Checks the parameters and clamps the volume into range.
    ///
    /// The status tokens start as `died` and `left`, the playback delay as
    /// `DEFAULT_PLAYBACK_DELAY_MS`.
    pub fn new(
        username: String,
        url: String,
        volume: u32,
        delay: u64,
        max_delay: u64,
        backoff: u64,
        attempts: u64,
    ) -> (made: Result<Config, ConfigError>)
        ensures
            match made {
                Ok(config) => {
                    &&& first_violation(username@, delay, max_delay, backoff, attempts) is None
                    &&& config@.wf()
                    &&& config@ == (ConfigView {
                        username: username@,
                        url: url@,
                        volume: clamped_volume(volume),
                        delay,
                        max_delay,
                        backoff,
                        attempts,
                        died_status: "died"@,
                        left_status: "left"@,
                        playback_delay_ms: DEFAULT_PLAYBACK_DELAY_MS,
                    })
                },
                Err(error) => first_violation(username@, delay, max_delay, backoff, attempts)
                    == Some(error),
            },
    {
        if username.as_str().is_empty() {
            return Err(ConfigError::EmptyIdentity);
        }
        if delay == 0 {
            return Err(ConfigError::ZeroDelay);
        }
        if backoff == 0 {
            return Err(ConfigError::ZeroBackoff);
        }
        if max_delay < delay {
            return Err(ConfigError::MaxDelayBelowDelay);
        }
        if attempts == 0 {
            return Err(ConfigError::ZeroAttempts);
        }
        proof {
            reveal_strlit("died");
            reveal_strlit("left");
            assert("died"@[0] != "left"@[0]);
        }
        Ok(
            Config {
                username,
                url,
                volume: clamp_volume(volume),
                delay,
                max_delay,
                backoff,
                attempts,
                died_status: "died".to_owned(),
                left_status: "left".to_owned(),
                playback_delay_ms: DEFAULT_PLAYBACK_DELAY_MS,
            },
        )
    }

    /// The same parameters with other status tokens.
    pub fn with_status_tokens(self, died: String, left: String) -> (made: Result<
        Config,
        ConfigError,
    >)
        ensures
            match made {
                Ok(config) => {
                    &&& died@ != left@
                    &&& config@ == (ConfigView {
                        died_status: died@,
                        left_status: left@,
                        ..self@
                    })
                },
                Err(error) => died@ == left@ && error == ConfigError::SameStatusTokens,
            },
    {
        if died == left {
            return Err(ConfigError::SameStatusTokens);
        }
        Ok(
            Config {
                username: self.username,
                url: self.url,
                volume: self.volume,
                delay: self.delay,
                max_delay: self.max_delay,
                backoff: self.backoff,
                attempts: self.attempts,
                died_status: died,
                left_status: left,
                playback_delay_ms: self.playback_delay_ms,
            },
        )
    }

    /// The same parameters with another pause before a clip starts.
    pub fn with_playback_delay(self, millis: u64) -> (made: Config)
        ensures
            made@ == (ConfigView { playback_delay_ms: millis, ..self@ }),
    {
        Config {
            username: self.username,
            url: self.url,
            volume: self.volume,
            delay: self.delay,
            max_delay: self.max_delay,
            backoff: self.backoff,
            attempts: self.attempts,
            died_status: self.died_status,
            left_status: self.left_status,
            playback_delay_ms: millis,
        }
    }

    /// The identity sent in the handshake.
    pub fn username(&self) -> (username: &String)
        ensures
            username@ == self@.username,
    {
        &self.username
    }

    /// The address of the feed.
    pub fn url(&self) -> (url: &String)
        ensures
            url@ == self@.url,
    {
        &self.url
    }

    /// The volume to return to when the player dies.
    pub fn volume(&self) -> (volume: u32)
        ensures
            volume == self@.volume,
    {
        self.volume
    }

    /// Seconds to wait after the first failed connection attempt.
    pub fn delay(&self) -> (delay: u64)
        ensures
            delay == self@.delay,
    {
        self.delay
    }

    /// The longest wait between two attempts, in seconds.
    pub fn max_delay(&self) -> (max_delay: u64)
        ensures
            max_delay == self@.max_delay,
    {
        self.max_delay
    }

    /// The factor by which the wait grows after each failure.
    pub fn backoff(&self) -> (backoff: u64)
        ensures
            backoff == self@.backoff,
    {
        self.backoff
    }

    /// How many retries are allowed.
    pub fn attempts(&self) -> (attempts: u64)
        ensures
            attempts == self@.attempts,
    {
        self.attempts
    }

    /// The status token that restores the default volume.
    pub fn died_status(&self) -> (token: &String)
        ensures
            token@ == self@.died_status,
    {
        &self.died_status
    }

    /// The status token that stops playback.
    pub fn left_status(&self) -> (token: &String)
        ensures
            token@ == self@.left_status,
    {
        &self.left_status
    }

    /// Milliseconds to wait before a decoded clip is handed to the sink.
    pub fn playback_delay_ms(&self) -> (millis: u64)
        ensures
            millis == self@.playback_delay_ms,
    {
        self.playback_delay_ms
    }
}

} // verus!
