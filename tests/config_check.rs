use raspberry_eye::{
    contains_bytes, CameraConfig, Config, ConfigError, DiscordConfig, LoggingConfig, Resolution, SensorConfig,
};

fn config(url: &str, pin: u8, cooldown: u64) -> Config {
    Config {
        discord: DiscordConfig { webhook_url: url.to_string() },
        sensor: SensorConfig { gpio_pin: pin, cooldown_seconds: cooldown },
        camera: CameraConfig {
            script_path: "capture.py".to_string(),
            output_dir: "images".to_string(),
            filename_format: "%Y%m%d_%H%M%S.jpg".to_string(),
            resolution: Resolution { width: 1920, height: 1080 },
        },
        logging: LoggingConfig { level: "info".to_string(), file: None },
    }
}

const URL: &str = "https://discord.com/api/webhooks/1/abc";

#[test]
fn valid_config_passes() {
    assert_eq!(config(URL, 17, 30).validate(), Ok(()));
    assert_eq!(config(URL, 0, 1).validate(), Ok(()));
    assert_eq!(config(URL, 27, 1).validate(), Ok(()));
}

#[test]
fn empty_webhook_rejected() {
    assert_eq!(config("", 17, 30).validate(), Err(ConfigError::WebhookUrl));
}

#[test]
fn placeholder_webhook_rejected() {
    assert_eq!(
        config("https://discord.com/api/webhooks/YOUR_WEBHOOK_ID", 17, 30).validate(),
        Err(ConfigError::WebhookUrl)
    );
    assert_eq!(config("YOUR_WEBHOOK", 17, 30).validate(), Err(ConfigError::WebhookUrl));
    assert_eq!(config("YOUR_WEBHOO", 17, 30).validate(), Ok(()));
}

#[test]
fn gpio_pin_out_of_range_rejected() {
    assert_eq!(config(URL, 28, 30).validate(), Err(ConfigError::GpioPin));
    assert_eq!(config(URL, 255, 30).validate(), Err(ConfigError::GpioPin));
}

#[test]
fn zero_cooldown_rejected() {
    assert_eq!(config(URL, 17, 0).validate(), Err(ConfigError::Cooldown));
}

#[test]
fn webhook_checked_before_other_fields() {
    assert_eq!(config("", 99, 0).validate(), Err(ConfigError::WebhookUrl));
    assert_eq!(config(URL, 99, 0).validate(), Err(ConfigError::GpioPin));
}

#[test]
fn substring_search() {
    assert!(contains_bytes(b"abcabd", b"abd"));
    assert!(contains_bytes(b"abc", b""));
    assert!(contains_bytes(b"", b""));
    assert!(!contains_bytes(b"ab", b"abc"));
    assert!(!contains_bytes(b"abcab", b"abd"));
}
