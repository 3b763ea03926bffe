//! The configuration: which graphic to show, and how to render it.
use crate::util::path_utils::{get_path, resolved};
use vstd::prelude::*;

verus! {

/// The `[ascii]` table: a text file that holds the art.
#[derive(Debug)]
pub struct AsciiConfig {
    /// The path to the art file.
    pub path: String,
}

/// The `[image]` table: an image file and hints for rendering it as text.
#[derive(Debug)]
pub struct ImageConfig {
    /// The path to the image file.
    pub path: String,
    /// Width of the rendering, in columns.
    pub width: Option<u32>,
    /// Height of the rendering, in rows.
    pub height: Option<u32>,
    /// Whether the rendering carries colour.
    pub colored: Option<bool>,
    /// Whether the image is to be shown as ASCII art.
    pub as_ascii: Option<bool>,
}

/// The whole configuration. It is valid when exactly one of the two tables is
/// present; `Config::new` makes only valid ones.
#[derive(Debug)]
pub struct Config {
    pub ascii: Option<AsciiConfig>,
    pub image: Option<ImageConfig>,
}

/// Why a pair of tables is no configuration.
#[derive(Debug, Clone, Copy, PartialEq, Eq)]
pub enum ConfigError {
    /// Both `[ascii]` and `[image]` are present.
    BothDefined,
    /// Neither `[ascii]` nor `[image]` is present.
    NoneDefined,
}

/// What the ASCII backend is asked for: the size of the rendering in
/// characters, each side only if it is fixed, and whether to colour it.
#[derive(Debug, Clone, Copy, PartialEq, Eq)]
pub struct RenderOptions {
    pub width: Option<u32>,
    pub height: Option<u32>,
    pub colored: bool,
}

/// Width used where the `[image]` table fixes neither side.
pub const DEFAULT_ASCII_WIDTH: u32 = 100;

/// Height used where the `[image]` table fixes neither side.
pub const DEFAULT_ASCII_HEIGHT: u32 = 100;

/// The request that an `[image]` table with these hints stands for. A side
/// that the table fixes is asked for and one that it leaves open is left to
/// the backend, which keeps the picture's proportions; where both are open,
/// both get their default. Colour is off unless the table turns it on.
pub open spec fn render_options_of(
    width: Option<u32>,
    height: Option<u32>,
    colored: Option<bool>,
) -> RenderOptions {
    RenderOptions {
        width: if width is None && height is None {
            Some(DEFAULT_ASCII_WIDTH)
        } else {
            width
        },
        height: if width is None && height is None {
            Some(DEFAULT_ASCII_HEIGHT)
        } else {
            height
        },
        colored: colored == Some(true),
    }
}

impl Config {
    /// Exactly one of the two tables is present.
    pub open spec fn is_valid(&self) -> bool {
        (self.ascii is Some) != (self.image is Some)
    }

    /// Makes a configuration of the two tables, which must be exactly one.
    pub fn new(ascii: Option<AsciiConfig>, image: Option<ImageConfig>) -> (out: Result<
        Config,
        ConfigError,
    >)
        ensures
            match out {
                Ok(config) => config.ascii == ascii && config.image == image && config.is_valid(),
                Err(ConfigError::BothDefined) => ascii is Some && image is Some,
                Err(ConfigError::NoneDefined) => ascii is None && image is None,
            },
    {
        if ascii.is_some() && image.is_some() {
            Err(ConfigError::BothDefined)
        } else if ascii.is_none() && image.is_none() {
            Err(ConfigError::NoneDefined)
        } else {
            Ok(Config { ascii, image })
        }
    }
}

impl ConfigError {
    /// The words in which the error is reported to the user.
    pub fn message(&self) -> (out: String)
        ensures
            out@ == match self {
                ConfigError::BothDefined => "Config error: Both 'ascii' and 'image' are defined. Only one must be specified."@,
                ConfigError::NoneDefined => "Config error: Neither 'ascii' nor 'image' is defined. One must be specified."@,
            },
    {
        match self {
            ConfigError::BothDefined => String::from_str(
                "Config error: Both 'ascii' and 'image' are defined. Only one must be specified.",
            ),
            ConfigError::NoneDefined => String::from_str(
                "Config error: Neither 'ascii' nor 'image' is defined. One must be specified.",
            ),
        }
    }
}

impl AsciiConfig {
    /// An `[ascii]` table for the art file at `path`, resolved for a user whose
    /// home directory is `home`.
    pub fn new(path: &str, home: &str) -> (out: Self)
        ensures
            out.path@ == resolved(path@, home@),
    {
        let path = get_path(path, home);
        AsciiConfig { path }
    }
}

impl ImageConfig {
    /// An `[image]` table for the image file at `path`, resolved for a user
    /// whose home directory is `home`, with the given hints.
    pub fn new(
        path: &str,
        home: &str,
        width: Option<u32>,
        height: Option<u32>,
        colored: Option<bool>,
        as_ascii: Option<bool>,
    ) -> (out: Self)
        ensures
            out.path@ == resolved(path@, home@),
            out.width == width,
            out.height == height,
            out.colored == colored,
            out.as_ascii == as_ascii,
    {
        let path = get_path(path, home);
        ImageConfig { path, width, height, colored, as_ascii }
    }

    /// What to ask the ASCII backend for.
    pub fn get_render_options(&self) -> (out: RenderOptions)
        ensures
            out == render_options_of(self.width, self.height, self.colored),
            out.width is Some || out.height is Some,
    {
        let colored = match self.colored {
            Some(colored) => colored,
            None => false,
        };
        if self.width.is_none() && self.height.is_none() {
            RenderOptions {
                width: Some(DEFAULT_ASCII_WIDTH),
                height: Some(DEFAULT_ASCII_HEIGHT),
                colored,
            }
        } else {
            RenderOptions { width: self.width, height: self.height, colored }
        }
    }
}

} // verus!
