//! Start-up settings as the agent reads them from its environment: each
//! setting arrives as the raw bytes of a variable's value (`None` where the
//! variable is unset) and is decoded here, with the documented defaults.

use vstd::prelude::*;
use crate::config::{ConfigError, DisplayConfig, PixelOrigin};

verus! {

/// Default matrix width.
pub const DEFAULT_WIDTH: u16 = 100;
/// Default matrix height.
pub const DEFAULT_HEIGHT: u16 = 10;
/// Default brightness.
pub const DEFAULT_BRIGHTNESS: u8 = 96;
/// Default frame interval in milliseconds.
pub const DEFAULT_FRAME_INTERVAL_MS: u64 = 50;
/// Default telemetry interval in seconds.
pub const DEFAULT_TELEMETRY_INTERVAL_SECS: u64 = 5;

/// ASCII lower-casing of one byte; other bytes stay as they are.
pub open spec fn lower_byte(b: u8) -> u8 {
    if 65 <= b <= 90 {
        (b + 32) as u8
    } else {
        b
    }
}

/// ASCII lower-casing of a byte string.
pub open spec fn lower_bytes(s: Seq<u8>) -> Seq<u8> {
    Seq::new(s.len(), |i: int| lower_byte(s[i]))
}

/// Lower-casing, with `-` read as `_`.
pub open spec fn origin_byte(b: u8) -> u8 {
    if b == 45 {
        95
    } else {
        lower_byte(b)
    }
}

/// An origin setting brought to the `snake_case` form of its name.
pub open spec fn origin_name(s: Seq<u8>) -> Seq<u8> {
    Seq::new(s.len(), |i: int| origin_byte(s[i]))
}

/// The words that switch a flag on.
pub open spec fn is_true_word(s: Seq<u8>) -> bool {
    ||| s == seq![49u8]
    ||| s == seq![116u8, 114u8, 117u8, 101u8]
    ||| s == seq![121u8, 101u8, 115u8]
    ||| s == seq![111u8, 110u8]
}

/// The words that switch a flag off.
pub open spec fn is_false_word(s: Seq<u8>) -> bool {
    ||| s == seq![48u8]
    ||| s == seq![102u8, 97u8, 108u8, 115u8, 101u8]
    ||| s == seq![110u8, 111u8]
    ||| s == seq![111u8, 102u8, 102u8]
}

/// A flag setting, read case-insensitively: `1`, `true`, `yes`, `on` are
/// true; `0`, `false`, `no`, `off` are false; anything else is no flag.
pub open spec fn spec_parse_flag(s: Seq<u8>) -> Option<bool> {
    let l = lower_bytes(s);
    if is_true_word(l) {
        Some(true)
    } else if is_false_word(l) {
        Some(false)
    } else {
        None
    }
}

/// The corner that an origin setting names, if it names one.
pub open spec fn spec_origin_from_name(n: Seq<u8>) -> Option<PixelOrigin> {
    if n == seq![116u8, 111u8, 112u8, 95u8, 108u8, 101u8, 102u8, 116u8] {
        Some(PixelOrigin::TopLeft)
    } else if n == seq![116u8, 111u8, 112u8, 95u8, 114u8, 105u8, 103u8, 104u8, 116u8] {
        Some(PixelOrigin::TopRight)
    } else if n == seq![98u8, 111u8, 116u8, 116u8, 111u8, 109u8, 95u8, 108u8, 101u8, 102u8, 116u8] {
        Some(PixelOrigin::BottomLeft)
    } else if n == seq![
        98u8,
        111u8,
        116u8,
        116u8,
        111u8,
        109u8,
        95u8,
        114u8,
        105u8,
        103u8,
        104u8,
        116u8,
    ] {
        Some(PixelOrigin::BottomRight)
    } else {
        None
    }
}

/// Whether `r` is the reading of the origin setting `s`: `top_left`,
/// `top_right`, `bottom_left` or `bottom_right`, read case-insensitively and
/// with `-` for `_`; anything else is refused with the setting lower-cased.
pub open spec fn is_origin_reading(s: Seq<u8>, r: Result<PixelOrigin, ConfigError>) -> bool {
    match spec_origin_from_name(origin_name(s)) {
        Some(o) => r == Ok::<PixelOrigin, ConfigError>(o),
        None => match r {
            Err(ConfigError::UnsupportedOrigin { value }) => value@ == lower_bytes(s),
            _ => false,
        },
    }
}

/// Whether `b` is an ASCII decimal digit.
pub open spec fn is_digit(b: u8) -> bool {
    48 <= b <= 57
}

/// Whether every byte of `s` is a decimal digit.
pub open spec fn all_digits(s: Seq<u8>) -> bool {
    forall|i: int| 0 <= i < s.len() ==> is_digit(#[trigger] s[i])
}

/// The decimal value of a string of digits.
pub open spec fn digits_value(s: Seq<u8>) -> nat
    decreases s.len(),
{
    if s.len() == 0 {
        0
    } else {
        10 * digits_value(s.drop_last()) + (s.last() - 48) as nat
    }
}

/// The digits of an unsigned number: the string without one leading `+`.
pub open spec fn unsigned_digits(s: Seq<u8>) -> Seq<u8> {
    if s.len() > 0 && s[0] == 43 {
        s.drop_first()
    } else {
        s
    }
}

/// An unsigned decimal number as Rust's integer parsing reads it: an optional
/// `+`, then one or more digits, whose value must not exceed `max`.
pub open spec fn spec_parse_unsigned(s: Seq<u8>, max: nat) -> Option<nat> {
    let d = unsigned_digits(s);
    if d.len() > 0 && all_digits(d) && digits_value(d) <= max {
        Some(digits_value(d))
    } else {
        None
    }
}

/// A numeric setting, or `fallback` where it is unset or unreadable.
pub open spec fn spec_number_setting(raw: Option<Seq<u8>>, max: nat, fallback: nat) -> nat {
    match raw {
        Some(s) => match spec_parse_unsigned(s, max) {
            Some(v) => v,
            None => fallback,
        },
        None => fallback,
    }
}

/// The view of an optional byte string.
pub open spec fn raw_view(raw: Option<&[u8]>) -> Option<Seq<u8>> {
    match raw {
        Some(s) => Some(s@),
        None => None,
    }
}

/// ASCII lower-casing of `s`.
pub fn ascii_lowercase(s: &[u8]) -> (r: Vec<u8>)
    ensures
        r@ == lower_bytes(s@),
{
    let n = s.len();
    let mut out: Vec<u8> = Vec::with_capacity(n);
    for i in 0..n
        invariant
            n == s@.len(),
            out@ =~= lower_bytes(s@.take(i as int)),
    {
        let b = s[i];
        out.push(if 65 <= b && b <= 90 { b + 32 } else { b });
    }
    assert(s@.take(n as int) =~= s@);
    out
}

/// Whether `a` holds exactly the bytes of `b`.
fn bytes_equal(a: &[u8], b: &[u8]) -> (r: bool)
    ensures
        r == (a@ == b@),
{
    if a.len() != b.len() {
        return false;
    }
    let n = a.len();
    for i in 0..n
        invariant
            n == a@.len(),
            n == b@.len(),
            forall|j: int| 0 <= j < i ==> a@[j] == b@[j],
    {
        if a[i] != b[i] {
            return false;
        }
    }
    assert(a@ =~= b@);
    true
}

/// Reads a flag setting: `1`, `true`, `yes`, `on` or `0`, `false`, `no`,
/// `off`, in any letter case; `None` for anything else.
pub fn parse_flag(s: &[u8]) -> (r: Option<bool>)
    ensures
        r == spec_parse_flag(s@),
{
    let l = ascii_lowercase(s);
    let l = l.as_slice();
    let one: [u8; 1] = [49];
    let true_word: [u8; 4] = [116, 114, 117, 101];
    let yes: [u8; 3] = [121, 101, 115];
    let on: [u8; 2] = [111, 110];
    let zero: [u8; 1] = [48];
    let false_word: [u8; 5] = [102, 97, 108, 115, 101];
    let no: [u8; 2] = [110, 111];
    let off: [u8; 3] = [111, 102, 102];
    assert(one@ == seq![49u8]);
    assert(true_word@ == seq![116u8, 114u8, 117u8, 101u8]);
    assert(yes@ == seq![121u8, 101u8, 115u8]);
    assert(on@ == seq![111u8, 110u8]);
    assert(zero@ == seq![48u8]);
    assert(false_word@ == seq![102u8, 97u8, 108u8, 115u8, 101u8]);
    assert(no@ == seq![110u8, 111u8]);
    assert(off@ == seq![111u8, 102u8, 102u8]);
    if bytes_equal(l, &one) || bytes_equal(l, &true_word) || bytes_equal(l, &yes)
        || bytes_equal(l, &on) {
        Some(true)
    } else if bytes_equal(l, &zero) || bytes_equal(l, &false_word) || bytes_equal(l, &no)
        || bytes_equal(l, &off) {
        Some(false)
    } else {
        None
    }
}

/// A flag setting, or `fallback` where it is unset or names no flag value.
pub fn flag_setting(raw: Option<&[u8]>, fallback: bool) -> (r: bool)
    ensures
        r == match raw_view(raw) {
            Some(s) => match spec_parse_flag(s) {
                Some(b) => b,
                None => fallback,
            },
            None => fallback,
        },
{
    match raw {
        Some(s) => match parse_flag(s) {
            Some(b) => b,
            None => fallback,
        },
        None => fallback,
    }
}

/// Reads an origin setting: `top_left`, `top_right`, `bottom_left` or
/// `bottom_right`, in any letter case and with `-` in place of `_`. Anything
/// else is refused, with the setting lower-cased in the error.
pub fn parse_origin(s: &[u8]) -> (r: Result<PixelOrigin, ConfigError>)
    ensures
        is_origin_reading(s@, r),
{
    let lower = ascii_lowercase(s);
    let n = lower.len();
    let mut name: Vec<u8> = Vec::with_capacity(n);
    for i in 0..n
        invariant
            n == s@.len(),
            lower@ == lower_bytes(s@),
            name@ =~= origin_name(s@.take(i as int)),
    {
        let b = lower[i];
        name.push(if b == 45 { 95u8 } else { b });
    }
    assert(s@.take(n as int) =~= s@);
    let name = name.as_slice();
    let top_left: [u8; 8] = [116, 111, 112, 95, 108, 101, 102, 116];
    let top_right: [u8; 9] = [116, 111, 112, 95, 114, 105, 103, 104, 116];
    let bottom_left: [u8; 11] = [98, 111, 116, 116, 111, 109, 95, 108, 101, 102, 116];
    let bottom_right: [u8; 12] = [98, 111, 116, 116, 111, 109, 95, 114, 105, 103, 104, 116];
    assert(top_left@ == seq![116u8, 111u8, 112u8, 95u8, 108u8, 101u8, 102u8, 116u8]);
    assert(top_right@ == seq![116u8, 111u8, 112u8, 95u8, 114u8, 105u8, 103u8, 104u8, 116u8]);
    assert(bottom_left@ == seq![
        98u8,
        111u8,
        116u8,
        116u8,
        111u8,
        109u8,
        95u8,
        108u8,
        101u8,
        102u8,
        116u8,
    ]);
    assert(bottom_right@ == seq![
        98u8,
        111u8,
        116u8,
        116u8,
        111u8,
        109u8,
        95u8,
        114u8,
        105u8,
        103u8,
        104u8,
        116u8,
    ]);
    if bytes_equal(name, &top_left) {
        Ok(PixelOrigin::TopLeft)
    } else if bytes_equal(name, &top_right) {
        Ok(PixelOrigin::TopRight)
    } else if bytes_equal(name, &bottom_left) {
        Ok(PixelOrigin::BottomLeft)
    } else if bytes_equal(name, &bottom_right) {
        Ok(PixelOrigin::BottomRight)
    } else {
        Err(ConfigError::UnsupportedOrigin { value: lower })
    }
}

/// An origin setting, or `fallback` where it is unset; a set but unknown
/// origin is refused.
pub fn origin_setting(raw: Option<&[u8]>, fallback: PixelOrigin) -> (r: Result<
    PixelOrigin,
    ConfigError,
>)
    ensures
        match raw_view(raw) {
            Some(s) => is_origin_reading(s, r),
            None => r == Ok::<PixelOrigin, ConfigError>(fallback),
        },
{
    match raw {
        Some(s) => parse_origin(s),
        None => Ok(fallback),
    }
}

/// A string of digits is worth at least any of its prefixes.
proof fn lemma_digits_value_prefix(s: Seq<u8>, i: int)
    requires
        0 <= i <= s.len(),
        all_digits(s),
    ensures
        digits_value(s.take(i)) <= digits_value(s),
    decreases s.len(),
{
    if i < s.len() {
        let p = s.drop_last();
        assert(p.take(i) =~= s.take(i));
        assert(all_digits(p)) by {
            assert forall|j: int| 0 <= j < p.len() implies is_digit(#[trigger] p[j]) by {
                assert(p[j] == s[j]);
            }
        }
        lemma_digits_value_prefix(p, i);
    } else {
        assert(s.take(i) =~= s);
    }
}

/// Reads an unsigned decimal number as Rust's integer parsing does: an
/// optional `+`, then one or more digits. `None` where the form is wrong or
/// the value exceeds `max`.
pub fn parse_unsigned(s: &[u8], max: u64) -> (r: Option<u64>)
    ensures
        r == match spec_parse_unsigned(s@, max as nat) {
            Some(v) => Some(v as u64),
            None => None::<u64>,
        },
{
    let start: usize = if s.len() > 0 && s[0] == 43 {
        1
    } else {
        0
    };
    let ghost d = unsigned_digits(s@);
    assert(d =~= s@.subrange(start as int, s@.len() as int));
    let n = s.len();
    if start == n {
        return None;
    }
    let mut acc: u64 = 0;
    let mut i: usize = start;
    while i < n
        invariant
            start <= i <= n,
            n == s@.len(),
            d == s@.subrange(start as int, n as int),
            d == unsigned_digits(s@),
            d.len() > 0,
            all_digits(d.take(i - start)),
            acc == digits_value(d.take(i - start)),
            acc <= max,
        decreases n - i,
    {
        let b = s[i];
        let k = i - start;
        assert(d[k as int] == b);
        if b < 48 || b > 57 {
            assert(!all_digits(d)) by {
                assert(!is_digit(d[k as int]));
            }
            return None;
        }
        let digit = (b - 48) as u64;
        assert(d.take(k + 1).drop_last() =~= d.take(k as int));
        assert(d.take(k + 1).last() == b);
        assert(all_digits(d.take(k + 1))) by {
            assert forall|j: int| 0 <= j < k + 1 implies is_digit(#[trigger] d.take(k + 1)[j]) by {
                if j < k {
                    assert(d.take(k + 1)[j] == d.take(k as int)[j]);
                }
            }
        }
        if digit > max || acc > (max - digit) / 10 {
            proof {
                assert(digits_value(d.take(k + 1)) > max);
                if all_digits(d) {
                    lemma_digits_value_prefix(d, k + 1);
                }
            }
            return None;
        }
        acc = acc * 10 + digit;
        i = i + 1;
    }
    assert(d.take(n - start) =~= d);
    Some(acc)
}

/// A numeric setting no larger than `max`, or `fallback` where it is unset
/// or unreadable.
pub fn number_setting(raw: Option<&[u8]>, max: u64, fallback: u64) -> (r: u64)
    ensures
        r == spec_number_setting(raw_view(raw), max as nat, fallback as nat),
{
    match raw {
        Some(s) => match parse_unsigned(s, max) {
            Some(v) => v,
            None => fallback,
        },
        None => fallback,
    }
}

/// A `u64` setting, or `fallback` where it is unset or unreadable.
pub fn u64_setting(raw: Option<&[u8]>, fallback: u64) -> (r: u64)
    ensures
        r == spec_number_setting(raw_view(raw), u64::MAX as nat, fallback as nat),
{
    number_setting(raw, u64::MAX, fallback)
}

/// A `u16` setting, or `fallback` where it is unset or unreadable.
pub fn u16_setting(raw: Option<&[u8]>, fallback: u16) -> (r: u16)
    ensures
        r == spec_number_setting(raw_view(raw), u16::MAX as nat, fallback as nat),
{
    let v = number_setting(raw, u16::MAX as u64, fallback as u64);
    v as u16
}

/// A `u8` setting, or `fallback` where it is unset or unreadable.
pub fn u8_setting(raw: Option<&[u8]>, fallback: u8) -> (r: u8)
    ensures
        r == spec_number_setting(raw_view(raw), u8::MAX as nat, fallback as nat),
{
    let v = number_setting(raw, u8::MAX as u64, fallback as u64);
    v as u8
}

/// An interval setting: the number given, or `fallback` where it is unset or
/// unreadable, raised to at least 1.
pub fn interval_setting(raw: Option<&[u8]>, fallback: u64) -> (r: u64)
    ensures
        r >= 1,
        r == if spec_number_setting(raw_view(raw), u64::MAX as nat, fallback as nat) == 0 {
            1
        } else {
            spec_number_setting(raw_view(raw), u64::MAX as nat, fallback as nat)
        },
{
    let v = u64_setting(raw, fallback);
    if v < 1 {
        1
    } else {
        v
    }
}

/// Whether `value` is what the numeric setting `raw` gives: the number that a
/// plain string of decimal digits spells, where it is at most `max`; the
/// fallback where the setting is unset or its number exceeds `max`.
pub open spec fn reads_as_number(raw: Option<&[u8]>, max: nat, fallback: nat, value: nat) -> bool {
    match raw {
        Some(s) => s@.len() > 0 && all_digits(s@) ==> if digits_value(s@) <= max {
            value == digits_value(s@)
        } else {
            value == fallback
        },
        None => value == fallback,
    }
}

/// A plain string of digits is read as the number it spells, up to `max`.
proof fn lemma_plain_digits_read(s: Seq<u8>, max: nat, fallback: nat)
    requires
        s.len() > 0,
        all_digits(s),
    ensures
        spec_number_setting(Some(s), max, fallback) == if digits_value(s) <= max {
            digits_value(s)
        } else {
            fallback
        },
{
    assert(is_digit(s[0]));
    assert(unsigned_digits(s) == s);
}

/// The raw values of the display settings, one per variable.
pub struct DisplaySettings<'a> {
    pub width: Option<&'a [u8]>,
    pub height: Option<&'a [u8]>,
    pub brightness: Option<&'a [u8]>,
    pub serpentine: Option<&'a [u8]>,
    pub origin: Option<&'a [u8]>,
}

/// The origin that a setting selects, top-left where it is unset; `None`
/// where it names no corner.
pub open spec fn spec_origin_choice(raw: Option<Seq<u8>>) -> Option<PixelOrigin> {
    match raw {
        Some(s) => spec_origin_from_name(origin_name(s)),
        None => Some(PixelOrigin::TopLeft),
    }
}

/// The configuration that the settings describe, before it is validated;
/// `None` where the origin setting names no corner.
pub open spec fn spec_settings_config(settings: DisplaySettings) -> Option<DisplayConfig> {
    match spec_origin_choice(raw_view(settings.origin)) {
        Some(origin) => Some(
            DisplayConfig {
                width: spec_number_setting(
                    raw_view(settings.width),
                    u16::MAX as nat,
                    DEFAULT_WIDTH as nat,
                ) as u16,
                height: spec_number_setting(
                    raw_view(settings.height),
                    u16::MAX as nat,
                    DEFAULT_HEIGHT as nat,
                ) as u16,
                brightness: spec_number_setting(
                    raw_view(settings.brightness),
                    u8::MAX as nat,
                    DEFAULT_BRIGHTNESS as nat,
                ) as u8,
                serpentine: match raw_view(settings.serpentine) {
                    Some(s) => match spec_parse_flag(s) {
                        Some(b) => b,
                        None => true,
                    },
                    None => true,
                },
                origin,
            },
        ),
        None => None,
    }
}

/// The display configuration that the settings describe, each field falling
/// back to its default (100 x 10, brightness 96, serpentine, top-left); it is
/// refused if the origin setting names no corner. The configuration is not
/// yet validated: that is `validate_supported_config`'s part, which comes
/// after the origin.
pub fn config_from_settings(settings: &DisplaySettings) -> (r: Result<DisplayConfig, ConfigError>)
    ensures
        match spec_settings_config(*settings) {
            Some(c) => r == Ok::<DisplayConfig, ConfigError>(c),
            None => r is Err && is_origin_reading(
                raw_view(settings.origin).unwrap(),
                Err(r->Err_0),
            ),
        },
        match r {
            Ok(c) => {
                &&& reads_as_number(settings.width, u16::MAX as nat, DEFAULT_WIDTH as nat, c.width as nat)
                &&& reads_as_number(settings.height, u16::MAX as nat, DEFAULT_HEIGHT as nat, c.height as nat)
                &&& reads_as_number(
                    settings.brightness,
                    u8::MAX as nat,
                    DEFAULT_BRIGHTNESS as nat,
                    c.brightness as nat,
                )
                &&& settings.serpentine is None ==> c.serpentine
                &&& settings.origin is None ==> c.origin == PixelOrigin::TopLeft
            },
            Err(_) => settings.origin is Some,
        },
{
    let width = u16_setting(settings.width, DEFAULT_WIDTH);
    let height = u16_setting(settings.height, DEFAULT_HEIGHT);
    let brightness = u8_setting(settings.brightness, DEFAULT_BRIGHTNESS);
    let serpentine = flag_setting(settings.serpentine, true);
    let origin = match origin_setting(settings.origin, PixelOrigin::TopLeft) {
        Ok(o) => o,
        Err(e) => return Err(e),
    };
    proof {
        if let Some(w) = settings.width {
            if w@.len() > 0 && all_digits(w@) {
                lemma_plain_digits_read(w@, u16::MAX as nat, DEFAULT_WIDTH as nat);
            }
        }
        if let Some(h) = settings.height {
            if h@.len() > 0 && all_digits(h@) {
                lemma_plain_digits_read(h@, u16::MAX as nat, DEFAULT_HEIGHT as nat);
            }
        }
        if let Some(b) = settings.brightness {
            if b@.len() > 0 && all_digits(b@) {
                lemma_plain_digits_read(b@, u8::MAX as nat, DEFAULT_BRIGHTNESS as nat);
            }
        }
    }
    Ok(DisplayConfig { width, height, brightness, serpentine, origin })
}

/// Every width, height and brightness spelled in plain digits within its
/// type's range is kept as given: widths and heights up to 65535 (so every
/// supported width 100..=300), brightness up to 255; a larger number falls
/// back to the default.
pub proof fn lemma_settings_keep_numbers(settings: DisplaySettings)
    requires
        spec_settings_config(settings) is Some,
    ensures
        ({
            let c = spec_settings_config(settings).unwrap();
            &&& reads_as_number(settings.width, u16::MAX as nat, DEFAULT_WIDTH as nat, c.width as nat)
            &&& reads_as_number(settings.height, u16::MAX as nat, DEFAULT_HEIGHT as nat, c.height as nat)
            &&& reads_as_number(
                settings.brightness,
                u8::MAX as nat,
                DEFAULT_BRIGHTNESS as nat,
                c.brightness as nat,
            )
        }),
{
    if let Some(w) = settings.width {
        if w@.len() > 0 && all_digits(w@) {
            lemma_plain_digits_read(w@, u16::MAX as nat, DEFAULT_WIDTH as nat);
        }
    }
    if let Some(h) = settings.height {
        if h@.len() > 0 && all_digits(h@) {
            lemma_plain_digits_read(h@, u16::MAX as nat, DEFAULT_HEIGHT as nat);
        }
    }
    if let Some(b) = settings.brightness {
        if b@.len() > 0 && all_digits(b@) {
            lemma_plain_digits_read(b@, u8::MAX as nat, DEFAULT_BRIGHTNESS as nat);
        }
    }
}

} // verus!
