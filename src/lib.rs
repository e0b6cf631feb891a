//! Motion-triggered camera: the cooldown gate that turns sensor samples into
//! detection events, the decisions around image capture and webhook delivery,
//! and the control loop that sequences them.

pub mod camera;
pub mod clock;
pub mod config;
pub mod discord;
pub mod motion;
pub mod orchestrator;

pub use camera::{capture_outcome, path_joined, Camera, CaptureError, ProcessReport, TEST_HEIGHT, TEST_WIDTH};
pub use discord::{
    alert_message, alert_text, attachment_file_name, attachment_name, decimal, decimal_text,
    file_name_of, status_detail, DiscordClient, NotificationOutcome,
};
pub use clock::{display_pattern, display_timestamp, strftime_of};
pub use config::{
    contains_bytes, CameraConfig, Config, ConfigError, DiscordConfig, LoggingConfig, Resolution, SensorConfig,
    MAX_GPIO_PIN,
};
pub use motion::{MotionDetector, MotionEvent};
pub use orchestrator::{
    captures, notifications, run, transition, LoopAction, LoopEvent, Orchestrator, Phase,
};
