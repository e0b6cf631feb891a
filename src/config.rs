use vstd::prelude::*;
use vstd::utf8::encode_utf8;

verus! {

/// Whether `needle` occurs in `hay` as a contiguous run.
pub open spec fn has_infix(hay: Seq<u8>, needle: Seq<u8>) -> bool {
    exists|i: int| 0 <= i && i + needle.len() <= hay.len() && #[trigger] hay.subrange(i, i + needle.len()) == needle
}

/// The text that marks a webhook address as not yet filled in.
pub open spec fn placeholder_bytes() -> Seq<u8> {
    encode_utf8("YOUR_WEBHOOK"@)
}

/// The highest GPIO line number that the sensor may use.
pub const MAX_GPIO_PIN: u8 = 27;

/// Application configuration.
#[derive(Debug, Clone)]
pub struct Config {
    pub discord: DiscordConfig,
    pub sensor: SensorConfig,
    pub camera: CameraConfig,
    pub logging: LoggingConfig,
}

#[derive(Debug, Clone)]
pub struct DiscordConfig {
    pub webhook_url: String,
}

#[derive(Debug, Clone, Copy)]
pub struct SensorConfig {
    pub gpio_pin: u8,
    pub cooldown_seconds: u64,
}

#[derive(Debug, Clone)]
pub struct CameraConfig {
    pub script_path: String,
    pub output_dir: String,
    pub filename_format: String,
    pub resolution: Resolution,
}

#[derive(Debug, Clone, Copy)]
pub struct Resolution {
    pub width: u32,
    pub height: u32,
}

#[derive(Debug, Clone)]
pub struct LoggingConfig {
    pub level: String,
    pub file: Option<String>,
}

/// Why a configuration was rejected.
#[derive(Debug, Clone, Copy, PartialEq, Eq, Structural)]
pub enum ConfigError {
    /// The webhook address is empty or still the placeholder.
    WebhookUrl,
    /// The GPIO line is out of range.
    GpioPin,
    /// The cooldown is zero.
    Cooldown,
}

/// Outcome of validating a configuration: the first check that fails, in the
/// order webhook address, GPIO line, cooldown.
pub open spec fn config_check(c: Config) -> Result<(), ConfigError> {
    if c.discord.webhook_url@.len() == 0 || has_infix(encode_utf8(c.discord.webhook_url@), placeholder_bytes()) {
        Err(ConfigError::WebhookUrl)
    } else if c.sensor.gpio_pin > MAX_GPIO_PIN {
        Err(ConfigError::GpioPin)
    } else if c.sensor.cooldown_seconds == 0 {
        Err(ConfigError::Cooldown)
    } else {
        Ok(())
    }
}

/// Whether `needle` occurs in `hay`.
pub fn contains_bytes(hay: &[u8], needle: &[u8]) -> (r: bool)
    ensures
        r == has_infix(hay@, needle@),
{
    let n = hay.len();
    let m = needle.len();
    if m > n {
        return false;
    }
    let mut i: usize = 0;
    while i <= n - m
        invariant
            n == hay@.len(),
            m == needle@.len(),
            m <= n,
            i <= n - m + 1,
            forall|k: int| 0 <= k < i ==> #[trigger] hay@.subrange(k, k + m) != needle@,
        decreases n - m + 1 - i,
    {
        let mut j: usize = 0;
        while j < m && hay[i + j] == needle[j]
            invariant
                n == hay@.len(),
                m == needle@.len(),
                i + m <= n,
                j <= m,
                forall|k: int| 0 <= k < j ==> hay@[i + k] == needle@[k],
            decreases m - j,
        {
            j = j + 1;
        }
        if j == m {
            assert(hay@.subrange(i as int, i + m) =~= needle@);
            return true;
        }
        assert(hay@.subrange(i as int, i + m)[j as int] != needle@[j as int]);
        i = i + 1;
    }
    false
}

impl Config {
    /// Check the values that must hold before monitoring starts.
    pub fn validate(&self) -> (r: Result<(), ConfigError>)
        ensures
            r == config_check(*self),
    {
        let url = self.discord.webhook_url.as_str();
        if url.is_empty() || contains_bytes(url.as_bytes(), "YOUR_WEBHOOK".as_bytes()) {
            return Err(ConfigError::WebhookUrl);
        }
        if self.sensor.gpio_pin > MAX_GPIO_PIN {
            return Err(ConfigError::GpioPin);
        }
        if self.sensor.cooldown_seconds == 0 {
            return Err(ConfigError::Cooldown);
        }
        Ok(())
    }
}

} // verus!
