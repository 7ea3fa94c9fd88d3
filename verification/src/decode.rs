//! Reading what the SDK reports in its own layout.
//!
//! The SDK fills fixed-size records: text in zero-padded byte fields, lists
//! in arrays that end at a sentinel, truth values and enumerations as
//! integers. The functions here turn the contents of such records into the
//! driver's own types. None of them fails halfway: a record holding text
//! that is not UTF-8, or a code that names nothing, yields `None`.

use crate::structs::{SVBCameraInfo, SVBCameraProperty, SVBCameraPropertyEx, SVBControlCaps};
use crate::types::{SVBBayerPattern, SVBControlType, SVBImageType};
use vstd::prelude::*;
use vstd::utf8::{decode_utf8, valid_utf8};

verus! {

/// What a trim removes from both ends of a text.
pub enum Strip {
    /// White space, as Unicode defines it.
    WhiteSpace,
    /// One given character.
    Char(char),
}

/// The characters with the Unicode property `White_Space`.
pub open spec fn is_white_space(c: char) -> bool {
    let code = c as u32;
    ||| 0x09 <= code <= 0x0d
    ||| code == 0x20
    ||| code == 0x85
    ||| code == 0xa0
    ||| code == 0x1680
    ||| 0x2000 <= code <= 0x200a
    ||| code == 0x2028
    ||| code == 0x2029
    ||| code == 0x202f
    ||| code == 0x205f
    ||| code == 0x3000
}

impl Strip {
    /// Whether a trim of this kind removes `c`.
    pub open spec fn takes(self, c: char) -> bool {
        match self {
            Strip::WhiteSpace => is_white_space(c),
            Strip::Char(unwanted) => c == unwanted,
        }
    }
}

/// `text` without the longest run of stripped characters at its start.
pub open spec fn trim_start_of(text: Seq<char>, strip: Strip) -> Seq<char>
    decreases text.len(),
{
    if text.len() > 0 && strip.takes(text.first()) {
        trim_start_of(text.drop_first(), strip)
    } else {
        text
    }
}

/// `text` without the longest run of stripped characters at its end.
pub open spec fn trim_end_of(text: Seq<char>, strip: Strip) -> Seq<char>
    decreases text.len(),
{
    if text.len() > 0 && strip.takes(text.last()) {
        trim_end_of(text.drop_last(), strip)
    } else {
        text
    }
}

/// `text` without the stripped characters at either end.
pub open spec fn trimmed(text: Seq<char>, strip: Strip) -> Seq<char> {
    trim_end_of(trim_start_of(text, strip), strip)
}

/// The text in a byte field of the SDK: the bytes read as UTF-8, without
/// white space at the ends, and then without zero characters at the ends.
/// A field that is not UTF-8 holds no text.
pub open spec fn text_of(bytes: Seq<u8>) -> Option<Seq<char>> {
    if valid_utf8(bytes) {
        Some(trimmed(trimmed(decode_utf8(bytes), Strip::WhiteSpace), Strip::Char('\0')))
    } else {
        None
    }
}

/// `String::from_utf8` of std: the bytes as a string if they are valid
/// UTF-8, in which case the string holds the characters they encode, and
/// `None` if they are not.
#[verifier::external_body]
fn string_from_utf8(bytes: Vec<u8>) -> (text: Option<String>)
    ensures
        text is Some <==> valid_utf8(bytes@),
        text matches Some(s) ==> s@ == decode_utf8(bytes@),
{
    String::from_utf8(bytes).ok()
}

/// `str::trim` of std: the slice without leading and trailing white space,
/// where white space is what Unicode's property `White_Space` says.
#[verifier::external_body]
fn trim_white_space<'a>(text: &'a str) -> (kept: &'a str)
    ensures
        kept@ == trimmed(text@, Strip::WhiteSpace),
{
    text.trim()
}

/// `str::trim_matches` of std with a character as its pattern: the slice
/// without the leading and trailing occurrences of that character.
#[verifier::external_body]
fn trim_char<'a>(text: &'a str, unwanted: char) -> (kept: &'a str)
    ensures
        kept@ == trimmed(text@, Strip::Char(unwanted)),
{
    text.trim_matches(unwanted)
}

/// The text in a byte field of the SDK.
pub fn decode_text(bytes: Vec<u8>) -> (text: Option<String>)
    ensures
        text is Some <==> text_of(bytes@) is Some,
        text matches Some(s) ==> Some(s@) == text_of(bytes@),
{
    match string_from_utf8(bytes) {
        None => None,
        Some(whole) => {
            let kept = trim_char(trim_white_space(whole.as_str()), '\0');
            Some(kept.to_owned())
        },
    }
}

/// The longest start of `values` that does not hold `stop`.
pub open spec fn before_sentinel(values: Seq<i32>, stop: i32) -> Seq<i32>
    decreases values.len(),
{
    if values.len() > 0 && values.first() != stop {
        seq![values.first()] + before_sentinel(values.drop_first(), stop)
    } else {
        Seq::empty()
    }
}

/// The entries of an array of the SDK that ends at the first `stop`.
pub fn take_before_sentinel(values: &Vec<i32>, stop: i32) -> (taken: Vec<i32>)
    ensures
        taken@ == before_sentinel(values@, stop),
{
    let mut taken: Vec<i32> = Vec::new();
    let mut i: usize = 0;
    proof {
        assert(values@.skip(0) =~= values@);
    }
    while i < values.len() && values[i] != stop
        invariant
            i <= values.len(),
            before_sentinel(values@, stop) == taken@ + before_sentinel(
                values@.skip(i as int),
                stop,
            ),
        decreases values.len() - i,
    {
        proof {
            let rest = values@.skip(i as int);
            assert(rest.drop_first() =~= values@.skip(i + 1));
        }
        taken.push(values[i]);
        i += 1;
    }
    taken
}

/// The pixel encodings that a list of codes names, if every code names one.
pub open spec fn image_types_of(codes: Seq<i32>) -> Option<Seq<SVBImageType>>
    decreases codes.len(),
{
    if codes.len() == 0 {
        Some(Seq::empty())
    } else {
        match (image_types_of(codes.drop_last()), SVBImageType::of_code(codes.last() as int)) {
            (Some(front), Some(last)) => Some(front.push(last)),
            _ => None,
        }
    }
}

/// The pixel encodings that a list of codes names; `None` if a code names
/// none.
pub fn decode_image_types(codes: &Vec<i32>) -> (formats: Option<Vec<SVBImageType>>)
    ensures
        formats is Some <==> image_types_of(codes@) is Some,
        formats matches Some(list) ==> Some(list@) == image_types_of(codes@),
{
    let mut list: Vec<SVBImageType> = Vec::new();
    let mut i: usize = 0;
    while i < codes.len()
        invariant
            i <= codes.len(),
            image_types_of(codes@.take(i as int)) == Some(list@),
        decreases codes.len() - i,
    {
        proof {
            assert(codes@.take(i + 1).drop_last() =~= codes@.take(i as int));
        }
        match SVBImageType::checked_from(codes[i]) {
            Some(format) => {
                list.push(format);
            },
            None => {
                proof {
                    lemma_image_types_prefix(codes@, i + 1);
                }
                return None;
            },
        }
        i += 1;
    }
    proof {
        assert(codes@.take(i as int) =~= codes@);
    }
    Some(list)
}

/// A list of codes names no encodings if a start of it names none.
pub proof fn lemma_image_types_prefix(codes: Seq<i32>, n: int)
    requires
        0 <= n <= codes.len(),
        image_types_of(codes.take(n)) is None,
    ensures
        image_types_of(codes) is None,
    decreases codes.len() - n,
{
    if n < codes.len() {
        assert(codes.take(n + 1).drop_last() =~= codes.take(n));
        lemma_image_types_prefix(codes, n + 1);
    } else {
        assert(codes.take(n) =~= codes);
    }
}

/// Identity of a camera as the SDK reports it.
pub struct RawCameraInfo {
    pub friendly_name: Vec<u8>,
    pub serial_number: Vec<u8>,
    pub port_type: Vec<u8>,
    pub device_id: u32,
    pub camera_id: i32,
}

/// Sensor geometry as the SDK reports it. The binning factors end at the
/// first zero, the pixel encodings at the first `-1`.
pub struct RawCameraProperty {
    pub max_height: i64,
    pub max_width: i64,
    pub is_color_cam: i32,
    pub bayer_pattern: i32,
    pub supported_bins: Vec<i32>,
    pub supported_video_format: Vec<i32>,
    pub max_bit_depth: i32,
    pub is_triggerable: i32,
}

/// Optional capabilities as the SDK reports them.
pub struct RawCameraPropertyEx {
    pub support_control_temp: i32,
}

/// A control descriptor as the SDK reports it.
pub struct RawControlCaps {
    pub name: Vec<u8>,
    pub description: Vec<u8>,
    pub max_value: i64,
    pub min_value: i64,
    pub default_value: i64,
    pub is_auto_supported: i32,
    pub is_writeable: i32,
    pub control_type: i32,
}

/// The low 32 bits of a value of the SDK's long integer type, as a signed
/// number.
fn low_word(value: i64) -> (low: i32)
    ensures
        low == value as i32,
{
    #[verifier::truncate]
    (value as i32)
}

impl SVBCameraInfo {
    /// Reads the identity of a camera; `None` if one of the text fields is
    /// not UTF-8.
    pub fn from_raw(raw: RawCameraInfo) -> (info: Option<Self>)
        ensures
            info is Some <==> text_of(raw.friendly_name@) is Some && text_of(raw.serial_number@)
                is Some && text_of(raw.port_type@) is Some,
            info matches Some(i) ==> {
                &&& Some(i.friendly_name@) == text_of(raw.friendly_name@)
                &&& Some(i.serial_number@) == text_of(raw.serial_number@)
                &&& Some(i.port_type@) == text_of(raw.port_type@)
                &&& i.device_id == raw.device_id
                &&& i.camera_id == raw.camera_id
            },
    {
        let friendly_name = decode_text(raw.friendly_name);
        let serial_number = decode_text(raw.serial_number);
        let port_type = decode_text(raw.port_type);
        match (friendly_name, serial_number, port_type) {
            (Some(friendly_name), Some(serial_number), Some(port_type)) => Some(
                SVBCameraInfo {
                    friendly_name,
                    serial_number,
                    port_type,
                    device_id: raw.device_id,
                    camera_id: raw.camera_id,
                },
            ),
            _ => None,
        }
    }
}

impl SVBCameraProperty {
    /// Reads the geometry of a sensor; `None` if the colour filter layout or
    /// one of the pixel encodings listed is unknown.
    pub fn from_raw(raw: &RawCameraProperty) -> (property: Option<Self>)
        ensures
            property is Some <==> SVBBayerPattern::of_code(raw.bayer_pattern as int) is Some
                && image_types_of(before_sentinel(raw.supported_video_format@, -1i32)) is Some,
            property matches Some(p) ==> {
                &&& p.max_height == raw.max_height as i32
                &&& p.max_width == raw.max_width as i32
                &&& p.is_color_cam == (raw.is_color_cam != 0)
                &&& Some(p.bayer_pattern) == SVBBayerPattern::of_code(raw.bayer_pattern as int)
                &&& p.supported_bins@ == before_sentinel(raw.supported_bins@, 0)
                &&& Some(p.supported_video_format@) == image_types_of(
                    before_sentinel(raw.supported_video_format@, -1i32),
                )
                &&& p.max_bit_depth == raw.max_bit_depth
                &&& p.is_triggerable == (raw.is_triggerable != 0)
            },
    {
        let supported_bins = take_before_sentinel(&raw.supported_bins, 0);
        let format_codes = take_before_sentinel(&raw.supported_video_format, -1);
        let supported_video_format = match decode_image_types(&format_codes) {
            Some(formats) => formats,
            None => {
                return None;
            },
        };
        let bayer_pattern = match SVBBayerPattern::checked_from(raw.bayer_pattern) {
            Some(pattern) => pattern,
            None => {
                return None;
            },
        };
        Some(
            SVBCameraProperty {
                max_height: low_word(raw.max_height),
                max_width: low_word(raw.max_width),
                is_color_cam: raw.is_color_cam != 0,
                bayer_pattern,
                supported_bins,
                supported_video_format,
                max_bit_depth: raw.max_bit_depth,
                is_triggerable: raw.is_triggerable != 0,
            },
        )
    }
}

impl SVBCameraPropertyEx {
    /// Reads the optional capabilities of a camera.
    pub fn from_raw(raw: &RawCameraPropertyEx) -> (property: Self)
        ensures
            property.support_control_temp == (raw.support_control_temp != 0),
    {
        SVBCameraPropertyEx { support_control_temp: raw.support_control_temp != 0 }
    }
}

impl SVBControlCaps {
    /// Reads a control descriptor; `None` if one of the text fields is not
    /// UTF-8 or the control kind is unknown.
    pub fn from_raw(raw: RawControlCaps) -> (caps: Option<Self>)
        ensures
            caps is Some <==> text_of(raw.name@) is Some && text_of(raw.description@) is Some
                && SVBControlType::of_code(raw.control_type as int) is Some,
            caps matches Some(c) ==> {
                &&& Some(c.name@) == text_of(raw.name@)
                &&& Some(c.description@) == text_of(raw.description@)
                &&& c.max_value == raw.max_value as i32
                &&& c.min_value == raw.min_value as i32
                &&& c.default_value == raw.default_value as i32
                &&& c.is_auto_supported == (raw.is_auto_supported != 0)
                &&& c.is_writeable == (raw.is_writeable != 0)
                &&& Some(c.control_type) == SVBControlType::of_code(raw.control_type as int)
            },
    {
        let name = decode_text(raw.name);
        let description = decode_text(raw.description);
        let control_type = SVBControlType::checked_from(raw.control_type);
        match (name, description, control_type) {
            (Some(name), Some(description), Some(control_type)) => Some(
                SVBControlCaps {
                    name,
                    description,
                    max_value: low_word(raw.max_value),
                    min_value: low_word(raw.min_value),
                    default_value: low_word(raw.default_value),
                    is_auto_supported: raw.is_auto_supported != 0,
                    is_writeable: raw.is_writeable != 0,
                    control_type,
                },
            ),
            _ => None,
        }
    }
}

} // verus!
