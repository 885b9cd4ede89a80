//! Display geometry, brightness and wiring configuration, and the range of
//! matrices this agent supports.

use vstd::prelude::*;

verus! {

/// Narrowest supported matrix, in pixels.
pub const RECOMMENDED_MIN_WIDTH: u16 = 100;
/// Widest supported matrix, in pixels.
pub const RECOMMENDED_MAX_WIDTH: u16 = 300;
/// Lowest supported matrix, in pixels.
pub const RECOMMENDED_MIN_HEIGHT: u16 = 5;
/// Tallest supported matrix, in pixels.
pub const RECOMMENDED_MAX_HEIGHT: u16 = 20;

/// The corner at which the physical LED chain starts.
#[derive(Debug, Clone, Copy, PartialEq, Eq, Structural)]
pub enum PixelOrigin {
    TopLeft,
    TopRight,
    BottomLeft,
    BottomRight,
}

/// Geometry, brightness and wiring of one LED matrix.
#[derive(Debug, Clone, Copy, PartialEq, Eq, Structural)]
pub struct DisplayConfig {
    pub width: u16,
    pub height: u16,
    pub brightness: u8,
    pub serpentine: bool,
    pub origin: PixelOrigin,
}

/// The class of a refusal, as the agent reports it.
#[derive(Debug, Clone, Copy, PartialEq, Eq, Structural)]
pub enum ErrorKind {
    /// The caller handed over a value that the agent does not accept.
    InvalidInput,
}

/// Why a display configuration was refused.
#[derive(Debug, PartialEq, Eq)]
pub enum ConfigError {
    /// The width lies outside `RECOMMENDED_MIN_WIDTH..=RECOMMENDED_MAX_WIDTH`.
    WidthOutOfRange { width: u16 },
    /// The height lies outside `RECOMMENDED_MIN_HEIGHT..=RECOMMENDED_MAX_HEIGHT`.
    HeightOutOfRange { height: u16 },
    /// The pixel origin setting names no known corner; holds the setting,
    /// lower-cased.
    UnsupportedOrigin { value: Vec<u8> },
    /// The shared display contracts' own validation refused the
    /// configuration, for this reason.
    SharedValidation { reason: String },
}

impl ConfigError {
    /// Every configuration error is a refusal of the caller's input.
    pub fn kind(&self) -> (k: ErrorKind)
        ensures
            k == ErrorKind::InvalidInput,
    {
        ErrorKind::InvalidInput
    }
}

impl DisplayConfig {
    /// Number of LEDs on the matrix.
    pub open spec fn spec_pixel_count(self) -> nat {
        self.width as nat * self.height as nat
    }

    /// Whether the geometry lies in the supported product range.
    pub open spec fn is_supported(self) -> bool {
        &&& RECOMMENDED_MIN_WIDTH <= self.width <= RECOMMENDED_MAX_WIDTH
        &&& RECOMMENDED_MIN_HEIGHT <= self.height <= RECOMMENDED_MAX_HEIGHT
    }

    /// Number of LEDs on the matrix, `width * height`.
    pub fn pixel_count(&self) -> (n: usize)
        ensures
            n == self.spec_pixel_count(),
    {
        let w = self.width as usize;
        let h = self.height as usize;
        proof {
            lemma_pixel_count_fits_u32(self.width, self.height);
        }
        w * h
    }
}

/// The product of two `u16` values never exceeds `u32::MAX`.
pub proof fn lemma_pixel_count_fits_u32(width: u16, height: u16)
    ensures
        width as nat * height as nat <= u32::MAX,
{
    assert(width as nat * height as nat <= 65535 * 65535) by (nonlinear_arith)
        requires
            width <= 65535,
            height <= 65535,
    ;
}

/// The error that `validate_supported_config` gives for an unsupported
/// configuration: the width is checked before the height.
pub open spec fn spec_range_error(config: DisplayConfig) -> ConfigError {
    if !(RECOMMENDED_MIN_WIDTH <= config.width <= RECOMMENDED_MAX_WIDTH) {
        ConfigError::WidthOutOfRange { width: config.width }
    } else {
        ConfigError::HeightOutOfRange { height: config.height }
    }
}

/// The verdict on a configuration, given the verdict of the shared display
/// contracts' own validation: that validation's refusal comes first, then the
/// width, then the height.
pub open spec fn spec_validate(
    config: DisplayConfig,
    shared: Result<(), String>,
) -> Result<(), ConfigError> {
    match shared {
        Err(reason) => Err(ConfigError::SharedValidation { reason }),
        Ok(_) => if config.is_supported() {
            Ok(())
        } else {
            Err(spec_range_error(config))
        },
    }
}

/// Accepts exactly the configurations that pass the shared display contracts'
/// own validation, whose verdict is `shared`, and whose width lies in
/// 100..=300 and height in 5..=20. A refusal by the shared validation is
/// reported first.
pub fn validate_supported_config(
    config: &DisplayConfig,
    shared: Result<(), String>,
) -> (r: Result<(), ConfigError>)
    ensures
        r == spec_validate(*config, shared),
        r is Ok <==> shared is Ok && config.is_supported(),
{
    if let Err(reason) = shared {
        return Err(ConfigError::SharedValidation { reason });
    }
    if config.width < RECOMMENDED_MIN_WIDTH || config.width > RECOMMENDED_MAX_WIDTH {
        return Err(ConfigError::WidthOutOfRange { width: config.width });
    }
    if config.height < RECOMMENDED_MIN_HEIGHT || config.height > RECOMMENDED_MAX_HEIGHT {
        return Err(ConfigError::HeightOutOfRange { height: config.height });
    }
    Ok(())
}

/// Wire code of a pixel origin in the HUB75 packet header.
pub open spec fn spec_origin_code(origin: PixelOrigin) -> u8 {
    match origin {
        PixelOrigin::TopLeft => 0,
        PixelOrigin::TopRight => 1,
        PixelOrigin::BottomLeft => 2,
        PixelOrigin::BottomRight => 3,
    }
}

/// Wire code of a pixel origin: 0 top-left, 1 top-right, 2 bottom-left,
/// 3 bottom-right.
pub fn origin_code(origin: PixelOrigin) -> (code: u8)
    ensures
        code == spec_origin_code(origin),
{
    match origin {
        PixelOrigin::TopLeft => 0,
        PixelOrigin::TopRight => 1,
        PixelOrigin::BottomLeft => 2,
        PixelOrigin::BottomRight => 3,
    }
}

/// Distinct origins have distinct wire codes, and every code is below 4.
pub proof fn lemma_origin_code_injective(a: PixelOrigin, b: PixelOrigin)
    ensures
        spec_origin_code(a) < 4,
        spec_origin_code(a) == spec_origin_code(b) ==> a == b,
{
}

/// A persisted configuration, where one was found, is what the agent runs
/// with, provided it is valid; otherwise the startup configuration stands.
pub open spec fn spec_resolve_persisted(
    persisted: Option<(DisplayConfig, Result<(), String>)>,
    fallback: DisplayConfig,
) -> Result<DisplayConfig, ConfigError> {
    match persisted {
        Some((c, shared)) => match spec_validate(c, shared) {
            Ok(_) => Ok(c),
            Err(e) => Err(e),
        },
        None => Ok(fallback),
    }
}

/// Picks the configuration to run with after start-up: `persisted` is the
/// configuration read back from storage together with the shared contracts'
/// verdict on it (`None` where none was stored), and it wins over `fallback`
/// when it is valid.
pub fn resolve_persisted_config(
    persisted: Option<(DisplayConfig, Result<(), String>)>,
    fallback: DisplayConfig,
) -> (r: Result<DisplayConfig, ConfigError>)
    ensures
        r == spec_resolve_persisted(persisted, fallback),
{
    match persisted {
        Some((c, shared)) => {
            match validate_supported_config(&c, shared) {
                Ok(()) => Ok(c),
                Err(e) => Err(e),
            }
        },
        None => Ok(fallback),
    }
}

/// A valid persisted configuration always wins over the start-up
/// configuration.
pub proof fn lemma_persisted_config_wins(
    persisted: DisplayConfig,
    shared: Result<(), String>,
    fallback: DisplayConfig,
)
    requires
        shared is Ok,
        persisted.is_supported(),
    ensures
        spec_resolve_persisted(Some((persisted, shared)), fallback) == Ok::<
            DisplayConfig,
            ConfigError,
        >(persisted),
{
}

} // verus!
