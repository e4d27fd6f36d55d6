//! Utility types for handling a stream or sink format.

#![allow(non_camel_case_types)]

use vstd::prelude::*;

verus! {

/// Represents the type of encoding used in a stream or accepted by a sink.
#[derive(Debug, Copy, Clone, PartialEq, Eq, Structural)]
pub enum pa_encoding_t {
    /// Any encoding format, PCM or compressed.
    Any,
    /// Any PCM format.
    PCM,
    /// AC3 data encapsulated in IEC 61937 header/padding.
    AC3_IEC61937,
    /// EAC3 data encapsulated in IEC 61937 header/padding.
    EAC3_IEC61937,
    /// MPEG-1 or MPEG-2 (Part 3, not AAC) data encapsulated in IEC 61937 header/padding.
    MPEG_IEC61937,
    /// DTS data encapsulated in IEC 61937 header/padding.
    DTS_IEC61937,
    /// MPEG-2 AAC data encapsulated in IEC 61937 header/padding.
    MPEG2_AAC_IEC61937,
    /// Dolby TrueHD data encapsulated in IEC 61937 header/padding.
    TRUEHD_IEC61937,
    /// DTS-HD Master Audio encapsulated in IEC 61937 header/padding.
    DTSHD_IEC61937,
    /// Represents an invalid encoding.
    Invalid,
}

pub const PA_ENCODING_ANY: pa_encoding_t = pa_encoding_t::Any;

pub const PA_ENCODING_PCM: pa_encoding_t = pa_encoding_t::PCM;

pub const PA_ENCODING_AC3_IEC61937: pa_encoding_t = pa_encoding_t::AC3_IEC61937;

pub const PA_ENCODING_EAC3_IEC61937: pa_encoding_t = pa_encoding_t::EAC3_IEC61937;

pub const PA_ENCODING_MPEG_IEC61937: pa_encoding_t = pa_encoding_t::MPEG_IEC61937;

pub const PA_ENCODING_DTS_IEC61937: pa_encoding_t = pa_encoding_t::DTS_IEC61937;

pub const PA_ENCODING_MPEG2_AAC_IEC61937: pa_encoding_t = pa_encoding_t::MPEG2_AAC_IEC61937;

pub const PA_ENCODING_TRUEHD_IEC61937: pa_encoding_t = pa_encoding_t::TRUEHD_IEC61937;

pub const PA_ENCODING_DTSHD_IEC61937: pa_encoding_t = pa_encoding_t::DTSHD_IEC61937;

pub const PA_ENCODING_INVALID: pa_encoding_t = pa_encoding_t::Invalid;

impl pa_encoding_t {
    /// The value this variant has on the native side.
    pub open spec fn discriminant(self) -> int {
        match self {
            pa_encoding_t::Any => 0,
            pa_encoding_t::PCM => 1,
            pa_encoding_t::AC3_IEC61937 => 2,
            pa_encoding_t::EAC3_IEC61937 => 3,
            pa_encoding_t::MPEG_IEC61937 => 4,
            pa_encoding_t::DTS_IEC61937 => 5,
            pa_encoding_t::MPEG2_AAC_IEC61937 => 6,
            pa_encoding_t::TRUEHD_IEC61937 => 7,
            pa_encoding_t::DTSHD_IEC61937 => 8,
            pa_encoding_t::Invalid => -1,
        }
    }

    /// The native value of this variant.
    pub fn to_i32(self) -> (raw: i32)
        ensures
            raw == self.discriminant(),
    {
        match self {
            pa_encoding_t::Any => 0,
            pa_encoding_t::PCM => 1,
            pa_encoding_t::AC3_IEC61937 => 2,
            pa_encoding_t::EAC3_IEC61937 => 3,
            pa_encoding_t::MPEG_IEC61937 => 4,
            pa_encoding_t::DTS_IEC61937 => 5,
            pa_encoding_t::MPEG2_AAC_IEC61937 => 6,
            pa_encoding_t::TRUEHD_IEC61937 => 7,
            pa_encoding_t::DTSHD_IEC61937 => 8,
            pa_encoding_t::Invalid => -1,
        }
    }

    /// The variant with the native value `raw`, if there is one.
    pub fn from_i32(raw: i32) -> (variant: Option<pa_encoding_t>)
        ensures
            variant matches Some(v) ==> v.discriminant() == raw,
            variant is None ==> forall|v: pa_encoding_t| v.discriminant() != raw,
    {
        if raw == 0 {
            Some(pa_encoding_t::Any)
        } else if raw == 1 {
            Some(pa_encoding_t::PCM)
        } else if raw == 2 {
            Some(pa_encoding_t::AC3_IEC61937)
        } else if raw == 3 {
            Some(pa_encoding_t::EAC3_IEC61937)
        } else if raw == 4 {
            Some(pa_encoding_t::MPEG_IEC61937)
        } else if raw == 5 {
            Some(pa_encoding_t::DTS_IEC61937)
        } else if raw == 6 {
            Some(pa_encoding_t::MPEG2_AAC_IEC61937)
        } else if raw == 7 {
            Some(pa_encoding_t::TRUEHD_IEC61937)
        } else if raw == 8 {
            Some(pa_encoding_t::DTSHD_IEC61937)
        } else if raw == -1 {
            Some(pa_encoding_t::Invalid)
        } else {
            None
        }
    }
}

/// Going to the native value and back gives the same variant, and no
/// two variants share a native value.
pub proof fn lemma_encoding_discriminants_are_distinct(a: pa_encoding_t, b: pa_encoding_t)
    ensures
        a.discriminant() == b.discriminant() ==> a == b,
{
}

impl Default for pa_encoding_t {
    /// The invalid value: what a call yields when nothing could be asked.
    fn default() -> (value: pa_encoding_t)
        ensures
            value == pa_encoding_t::Invalid,
    {
        pa_encoding_t::Invalid
    }
}

/// Represents the type of value of a property.
#[derive(Debug, Copy, Clone, PartialEq, Eq, Structural)]
pub enum pa_prop_type_t {
    /// Integer.
    Int,
    /// Integer range.
    IntRange,
    /// Integer array.
    IntArray,
    /// String.
    String,
    /// String array.
    StringArray,
    /// Invalid.
    Invalid,
}

pub const PA_PROP_TYPE_INT: pa_prop_type_t = pa_prop_type_t::Int;

pub const PA_PROP_TYPE_INT_RANGE: pa_prop_type_t = pa_prop_type_t::IntRange;

pub const PA_PROP_TYPE_INT_ARRAY: pa_prop_type_t = pa_prop_type_t::IntArray;

pub const PA_PROP_TYPE_STRING: pa_prop_type_t = pa_prop_type_t::String;

pub const PA_PROP_TYPE_STRING_ARRAY: pa_prop_type_t = pa_prop_type_t::StringArray;

pub const PA_PROP_TYPE_INVALID: pa_prop_type_t = pa_prop_type_t::Invalid;

impl pa_prop_type_t {
    /// The value this variant has on the native side.
    pub open spec fn discriminant(self) -> int {
        match self {
            pa_prop_type_t::Int => 0,
            pa_prop_type_t::IntRange => 1,
            pa_prop_type_t::IntArray => 2,
            pa_prop_type_t::String => 3,
            pa_prop_type_t::StringArray => 4,
            pa_prop_type_t::Invalid => -1,
        }
    }

    /// The native value of this variant.
    pub fn to_i32(self) -> (raw: i32)
        ensures
            raw == self.discriminant(),
    {
        match self {
            pa_prop_type_t::Int => 0,
            pa_prop_type_t::IntRange => 1,
            pa_prop_type_t::IntArray => 2,
            pa_prop_type_t::String => 3,
            pa_prop_type_t::StringArray => 4,
            pa_prop_type_t::Invalid => -1,
        }
    }

    /// The variant with the native value `raw`, if there is one.
    pub fn from_i32(raw: i32) -> (variant: Option<pa_prop_type_t>)
        ensures
            variant matches Some(v) ==> v.discriminant() == raw,
            variant is None ==> forall|v: pa_prop_type_t| v.discriminant() != raw,
    {
        if raw == 0 {
            Some(pa_prop_type_t::Int)
        } else if raw == 1 {
            Some(pa_prop_type_t::IntRange)
        } else if raw == 2 {
            Some(pa_prop_type_t::IntArray)
        } else if raw == 3 {
            Some(pa_prop_type_t::String)
        } else if raw == 4 {
            Some(pa_prop_type_t::StringArray)
        } else if raw == -1 {
            Some(pa_prop_type_t::Invalid)
        } else {
            None
        }
    }
}

/// Going to the native value and back gives the same variant, and no
/// two variants share a native value.
pub proof fn lemma_prop_type_discriminants_are_distinct(a: pa_prop_type_t, b: pa_prop_type_t)
    ensures
        a.discriminant() == b.discriminant() ==> a == b,
{
}

impl Default for pa_prop_type_t {
    /// The invalid value: what a call yields when nothing could be asked.
    fn default() -> (value: pa_prop_type_t)
        ensures
            value == pa_prop_type_t::Invalid,
    {
        pa_prop_type_t::Invalid
    }
}

/// The number of encodings the base protocol knows.
pub const PA_ENCODING_MAX: usize = 7;

/// The maximum length of strings returned by `pa_format_info_snprint()`.
pub const PA_FORMAT_INFO_SNPRINT_MAX: usize = 256;

} // verus!
