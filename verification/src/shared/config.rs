//! Configuration of the service.
use vstd::prelude::*;
use vstd::string::StringExecFns;
use crate::domain::video_creation::ImageSpec;
use crate::shared::text::{append_decimal, decimal, parse_u64, parse_u64_spec};

verus! {

/// Configuration of the video streaming service.
#[derive(Debug)]
pub struct Config {
    /// The video file that is streamed.
    pub video_path: String,
    /// The content type it is served with.
    pub content_type: String,
    /// The address the server binds to.
    pub host: String,
    pub port: u16,
    /// The image specification of requests that give none.
    pub default_image_width: u32,
    pub default_image_height: u32,
    pub default_duration_per_image: u32,
    /// The encoder and its settings.
    pub ffmpeg_path: String,
    pub ffmpeg_codec: String,
    pub ffmpeg_pixel_format: String,
    /// Settings for development.
    pub rust_log: String,
    pub rust_backtrace: String,
}

/// The mathematical content of a configuration.
pub struct ConfigView {
    pub video_path: Seq<char>,
    pub content_type: Seq<char>,
    pub host: Seq<char>,
    pub port: u16,
    pub default_image_width: u32,
    pub default_image_height: u32,
    pub default_duration_per_image: u32,
    pub ffmpeg_path: Seq<char>,
    pub ffmpeg_codec: Seq<char>,
    pub ffmpeg_pixel_format: Seq<char>,
    pub rust_log: Seq<char>,
    pub rust_backtrace: Seq<char>,
}

impl View for Config {
    type V = ConfigView;

    open spec fn view(&self) -> ConfigView {
        ConfigView {
            video_path: self.video_path@,
            content_type: self.content_type@,
            host: self.host@,
            port: self.port,
            default_image_width: self.default_image_width,
            default_image_height: self.default_image_height,
            default_duration_per_image: self.default_duration_per_image,
            ffmpeg_path: self.ffmpeg_path@,
            ffmpeg_codec: self.ffmpeg_codec@,
            ffmpeg_pixel_format: self.ffmpeg_pixel_format@,
            rust_log: self.rust_log@,
            rust_backtrace: self.rust_backtrace@,
        }
    }
}

impl Clone for Config {
    fn clone(&self) -> (r: Self)
        ensures
            r@ == self@,
    {
        Config {
            video_path: self.video_path.clone(),
            content_type: self.content_type.clone(),
            host: self.host.clone(),
            port: self.port,
            default_image_width: self.default_image_width,
            default_image_height: self.default_image_height,
            default_duration_per_image: self.default_duration_per_image,
            ffmpeg_path: self.ffmpeg_path.clone(),
            ffmpeg_codec: self.ffmpeg_codec.clone(),
            ffmpeg_pixel_format: self.ffmpeg_pixel_format.clone(),
            rust_log: self.rust_log.clone(),
            rust_backtrace: self.rust_backtrace.clone(),
        }
    }
}

/// The configuration that applies where nothing is set.
pub open spec fn default_config() -> ConfigView {
    ConfigView {
        video_path: "assets/videos/sample.webm"@,
        content_type: "video/webm"@,
        host: "127.0.0.1"@,
        port: 8080,
        default_image_width: 800,
        default_image_height: 600,
        default_duration_per_image: 1,
        ffmpeg_path: "ffmpeg"@,
        ffmpeg_codec: "libx264"@,
        ffmpeg_pixel_format: "yuv420p"@,
        rust_log: "info"@,
        rust_backtrace: "1"@,
    }
}

/// The settings found in the environment, each as the text it was set
/// to, or `None` where it is not set.
#[derive(Debug)]
pub struct Settings {
    pub video_path: Option<String>,
    pub content_type: Option<String>,
    pub host: Option<String>,
    pub port: Option<String>,
    pub default_image_width: Option<String>,
    pub default_image_height: Option<String>,
    pub default_duration_per_image: Option<String>,
    pub ffmpeg_path: Option<String>,
    pub ffmpeg_codec: Option<String>,
    pub ffmpeg_pixel_format: Option<String>,
    pub rust_log: Option<String>,
    pub rust_backtrace: Option<String>,
}

/// The text of a setting, or the default where it is not set.
pub open spec fn text_or(setting: Option<String>, default: Seq<char>) -> Seq<char> {
    match setting {
        Some(text) => text@,
        None => default,
    }
}

/// The number that a setting is set to, where it is set to a decimal
/// numeral of at most `max`; the default where it is not set; `None`
/// where it is set to anything else.
pub open spec fn number_or(setting: Option<String>, default: u64, max: u64) -> Option<u64> {
    match setting {
        Some(text) => match parse_u64_spec(text@) {
            Some(n) => if n <= max {
                Some(n)
            } else {
                None
            },
            None => None,
        },
        None => Some(default),
    }
}

/// The text of a setting, or the default where it is not set.
fn setting_text(setting: Option<String>, default: &str) -> (r: String)
    ensures
        r@ == text_or(setting, default@),
{
    match setting {
        Some(text) => text,
        None => String::from_str(default),
    }
}

/// The number that a setting is set to; see `number_or`.
fn setting_number(setting: &Option<String>, default: u64, max: u64) -> (r: Option<u64>)
    ensures
        r == number_or(*setting, default, max),
{
    match setting {
        Some(text) => match parse_u64(text.as_str()) {
            Some(n) => if n <= max {
                Some(n)
            } else {
                None
            },
            None => None,
        },
        None => Some(default),
    }
}

/// The text of the address `host:port`.
pub open spec fn address_text(host: Seq<char>, port: u16) -> Seq<char> {
    host + ":"@ + decimal(port as nat)
}

impl Config {
    /// The configuration that applies where nothing is set.
    pub fn new() -> (r: Self)
        ensures
            r@ == default_config(),
    {
        Config {
            video_path: String::from_str("assets/videos/sample.webm"),
            content_type: String::from_str("video/webm"),
            host: String::from_str("127.0.0.1"),
            port: 8080,
            default_image_width: 800,
            default_image_height: 600,
            default_duration_per_image: 1,
            ffmpeg_path: String::from_str("ffmpeg"),
            ffmpeg_codec: String::from_str("libx264"),
            ffmpeg_pixel_format: String::from_str("yuv420p"),
            rust_log: String::from_str("info"),
            rust_backtrace: String::from_str("1"),
        }
    }

    /// The configuration that the settings give: each text as it is
    /// set, each number as the decimal numeral it is set to, and the
    /// default for whatever is not set. A number that is set to
    /// something else than a numeral of its width is refused, with a
    /// message that names the setting; the port is looked at first, then
    /// the image width, its height, and the duration per image.
    pub fn from_settings(settings: Settings) -> (r: Result<Config, String>)
        ensures
            ({
                let port = number_or(settings.port, 8080, 0xffff);
                let width = number_or(settings.default_image_width, 800, 0xffff_ffff);
                let height = number_or(settings.default_image_height, 600, 0xffff_ffff);
                let duration = number_or(settings.default_duration_per_image, 1, 0xffff_ffff);
                let defaults = default_config();
                &&& port is None ==> (r matches Err(msg) && msg@ == "PORT must be a valid number"@)
                &&& port is Some && width is None ==> (r matches Err(msg) && msg@
                    == "DEFAULT_IMAGE_WIDTH must be a valid number"@)
                &&& port is Some && width is Some && height is None ==> (r matches Err(msg) && msg@
                    == "DEFAULT_IMAGE_HEIGHT must be a valid number"@)
                &&& port is Some && width is Some && height is Some && duration is None ==> (
                r matches Err(msg) && msg@ == "DEFAULT_DURATION_PER_IMAGE must be a valid number"@)
                &&& port is Some && width is Some && height is Some && duration is Some ==> (
                r matches Ok(config) && config@ == (ConfigView {
                    video_path: text_or(settings.video_path, defaults.video_path),
                    content_type: text_or(settings.content_type, defaults.content_type),
                    host: text_or(settings.host, defaults.host),
                    port: port->0 as u16,
                    default_image_width: width->0 as u32,
                    default_image_height: height->0 as u32,
                    default_duration_per_image: duration->0 as u32,
                    ffmpeg_path: text_or(settings.ffmpeg_path, defaults.ffmpeg_path),
                    ffmpeg_codec: text_or(settings.ffmpeg_codec, defaults.ffmpeg_codec),
                    ffmpeg_pixel_format: text_or(
                        settings.ffmpeg_pixel_format,
                        defaults.ffmpeg_pixel_format,
                    ),
                    rust_log: text_or(settings.rust_log, defaults.rust_log),
                    rust_backtrace: text_or(settings.rust_backtrace, defaults.rust_backtrace),
                }))
            }),
    {
        let port = match setting_number(&settings.port, 8080, 0xffff) {
            Some(n) => n as u16,
            None => {
                return Err(String::from_str("PORT must be a valid number"));
            },
        };
        let width = match setting_number(&settings.default_image_width, 800, 0xffff_ffff) {
            Some(n) => n as u32,
            None => {
                return Err(String::from_str("DEFAULT_IMAGE_WIDTH must be a valid number"));
            },
        };
        let height = match setting_number(&settings.default_image_height, 600, 0xffff_ffff) {
            Some(n) => n as u32,
            None => {
                return Err(String::from_str("DEFAULT_IMAGE_HEIGHT must be a valid number"));
            },
        };
        let duration = match setting_number(
            &settings.default_duration_per_image,
            1,
            0xffff_ffff,
        ) {
            Some(n) => n as u32,
            None => {
                return Err(String::from_str("DEFAULT_DURATION_PER_IMAGE must be a valid number"));
            },
        };
        Ok(
            Config {
                video_path: setting_text(settings.video_path, "assets/videos/sample.webm"),
                content_type: setting_text(settings.content_type, "video/webm"),
                host: setting_text(settings.host, "127.0.0.1"),
                port,
                default_image_width: width,
                default_image_height: height,
                default_duration_per_image: duration,
                ffmpeg_path: setting_text(settings.ffmpeg_path, "ffmpeg"),
                ffmpeg_codec: setting_text(settings.ffmpeg_codec, "libx264"),
                ffmpeg_pixel_format: setting_text(settings.ffmpeg_pixel_format, "yuv420p"),
                rust_log: setting_text(settings.rust_log, "info"),
                rust_backtrace: setting_text(settings.rust_backtrace, "1"),
            },
        )
    }

    /// The address of the server: host, a colon, and the port.
    pub fn server_address(&self) -> (r: String)
        ensures
            r@ == address_text(self.host@, self.port),
    {
        let mut out = self.host.clone();
        out.append(":");
        append_decimal(&mut out, self.port as u128);
        out
    }

    /// The image specification of requests that give none.
    pub fn default_image_spec(&self) -> (r: ImageSpec)
        ensures
            r == (ImageSpec {
                width: self.default_image_width,
                height: self.default_image_height,
                duration_seconds: self.default_duration_per_image,
            }),
    {
        ImageSpec {
            width: self.default_image_width,
            height: self.default_image_height,
            duration_seconds: self.default_duration_per_image,
        }
    }

    /// Whether the configuration can be used: the port, the image
    /// dimensions and the duration per image are all positive.
    pub open spec fn usable(self) -> bool {
        self.port > 0 && self.default_image_width > 0 && self.default_image_height > 0
            && self.default_duration_per_image > 0
    }

    /// Checks the configuration, and names the first setting that
    /// cannot be used: the port, then the image dimensions, then the
    /// duration per image.
    pub fn validate(&self) -> (r: Result<(), String>)
        ensures
            self.usable() <==> r is Ok,
            self.port == 0 ==> (r matches Err(msg) && msg@ == "PORT cannot be 0"@),
            self.port > 0 && (self.default_image_width == 0 || self.default_image_height == 0) ==> (
            r matches Err(msg) && msg@ == "Image dimensions cannot be 0"@),
            self.port > 0 && self.default_image_width > 0 && self.default_image_height > 0
                && self.default_duration_per_image == 0 ==> (r matches Err(msg) && msg@
                == "Duration per image must be positive"@),
    {
        if self.port == 0 {
            return Err(String::from_str("PORT cannot be 0"));
        }
        if self.default_image_width == 0 || self.default_image_height == 0 {
            return Err(String::from_str("Image dimensions cannot be 0"));
        }
        if self.default_duration_per_image == 0 {
            return Err(String::from_str("Duration per image must be positive"));
        }
        Ok(())
    }
}

impl Default for Config {
    fn default() -> (r: Self)
        ensures
            r@ == default_config(),
    {
        Config::new()
    }
}

} // verus!
