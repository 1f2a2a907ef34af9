//! The daemon's settings: which source and sink to use, the tick interval
//! and the texts to publish.
use vstd::prelude::*;

verus! {

/// Where playback state is read from.
#[derive(Debug, Clone, Copy, PartialEq, Eq, Structural)]
pub enum Service {
    Spotify,
    AppleMusic,
}

/// Where the status text is published.
#[derive(Debug, Clone)]
pub enum TelegramConfig {
    /// The account's profile bio, through a user session.
    Bio { api_id: i32, api_hash: String },
    /// One message of a channel, edited through a bot.
    Channel { token: String, channel_id: i64, message_id: i64 },
}

#[derive(Debug, Clone)]
pub struct Config {
    pub service: Service,
    /// Seconds between ticks.
    pub interval: u64,
    /// Status text with `{artist}`, `{title}`, `{progress}`, `{duration}`.
    pub template: String,
    /// Status text while nothing plays.
    pub default: String,
    pub telegram: TelegramConfig,
}

impl Default for Config {
    fn default() -> (r: Self)
        ensures
            r.service == Service::Spotify,
            r.interval == 60,
            r.template@ == "{artist} — {title} [{progress} / {duration}]"@,
            r.default@ == "nothing playing"@,
            r.telegram matches TelegramConfig::Bio { api_id, api_hash } && api_id == 123456789
                && api_hash@ == Seq::<char>::empty(),
    {
        Config {
            service: Service::Spotify,
            interval: 60,
            template: String::from_str("{artist} — {title} [{progress} / {duration}]"),
            default: String::from_str("nothing playing"),
            telegram: TelegramConfig::Bio { api_id: 123456789, api_hash: String::new() },
        }
    }
}

impl Config {
    /// The tick period in milliseconds; `None` where the interval is zero or
    /// too large to count in milliseconds, which makes the config unusable.
    pub fn tick_period_ms(&self) -> (r: Option<u64>)
        ensures
            r is Some <==> 0 < self.interval && self.interval * 1000 <= u64::MAX,
            r matches Some(p) ==> p == self.interval * 1000,
    {
        if self.interval == 0 || self.interval > u64::MAX / 1000 {
            None
        } else {
            Some(self.interval * 1000)
        }
    }
}

} // verus!
