//! The native enumerations that operations take, and the option sets of the
//! operations that have optional parameters.

use vstd::prelude::*;

verus! {

/// How a thumbnail's target size constrains the result.
#[derive(Clone, Copy, Debug, PartialEq, Eq, Structural)]
pub enum VipsSize {
    /// Size both up and down.
    Both,
    /// Only upsize.
    Up,
    /// Only downsize.
    Down,
    /// Force the size, breaking the aspect ratio.
    Force,
}

/// Where a crop looks for the part worth keeping.
#[derive(Clone, Copy, Debug, PartialEq, Eq, Structural)]
pub enum VipsInteresting {
    Nothing,
    Centre,
    Entropy,
    Attention,
    Low,
    High,
    All,
}

/// The rendering intent of a colour conversion.
#[derive(Clone, Copy, Debug, PartialEq, Eq, Structural)]
pub enum VipsIntent {
    Perceptual,
    Relative,
    Saturation,
    Absolute,
    Auto,
}

/// How the border of an embedded image is filled.
#[derive(Clone, Copy, Debug, PartialEq, Eq, Structural)]
pub enum VipsExtend {
    Black,
    Copy,
    Repeat,
    Mirror,
    White,
    Background,
}

/// The number format of one band element.
#[derive(Clone, Copy, Debug, PartialEq, Eq, Structural)]
pub enum VipsBandFormat {
    NotSet,
    UChar,
    Char,
    UShort,
    Short,
    UInt,
    Int,
    Float,
    Complex,
    Double,
    DpComplex,
}

/// The native number of each [`VipsSize`].
pub open spec fn size_code(v: VipsSize) -> u32 {
    match v {
        VipsSize::Both => 0,
        VipsSize::Up => 1,
        VipsSize::Down => 2,
        VipsSize::Force => 3,
    }
}

/// The native number of each [`VipsInteresting`].
pub open spec fn interesting_code(v: VipsInteresting) -> u32 {
    match v {
        VipsInteresting::Nothing => 0,
        VipsInteresting::Centre => 1,
        VipsInteresting::Entropy => 2,
        VipsInteresting::Attention => 3,
        VipsInteresting::Low => 4,
        VipsInteresting::High => 5,
        VipsInteresting::All => 6,
    }
}

/// The native number of each [`VipsIntent`].
pub open spec fn intent_code(v: VipsIntent) -> u32 {
    match v {
        VipsIntent::Perceptual => 0,
        VipsIntent::Relative => 1,
        VipsIntent::Saturation => 2,
        VipsIntent::Absolute => 3,
        VipsIntent::Auto => 32,
    }
}

/// The native number of each [`VipsExtend`].
pub open spec fn extend_code(v: VipsExtend) -> u32 {
    match v {
        VipsExtend::Black => 0,
        VipsExtend::Copy => 1,
        VipsExtend::Repeat => 2,
        VipsExtend::Mirror => 3,
        VipsExtend::White => 4,
        VipsExtend::Background => 5,
    }
}

/// The native number of each [`VipsBandFormat`].
pub open spec fn band_format_code(v: VipsBandFormat) -> i32 {
    match v {
        VipsBandFormat::NotSet => -1i32,
        VipsBandFormat::UChar => 0,
        VipsBandFormat::Char => 1,
        VipsBandFormat::UShort => 2,
        VipsBandFormat::Short => 3,
        VipsBandFormat::UInt => 4,
        VipsBandFormat::Int => 5,
        VipsBandFormat::Float => 6,
        VipsBandFormat::Complex => 7,
        VipsBandFormat::Double => 8,
        VipsBandFormat::DpComplex => 9,
    }
}

impl VipsSize {
    /// The number the native side knows this member by.
    pub fn code(self) -> (n: u32)
        ensures
            n == size_code(self),
    {
        match self {
            VipsSize::Both => 0,
            VipsSize::Up => 1,
            VipsSize::Down => 2,
            VipsSize::Force => 3,
        }
    }
}

impl VipsInteresting {
    /// The number the native side knows this member by.
    pub fn code(self) -> (n: u32)
        ensures
            n == interesting_code(self),
    {
        match self {
            VipsInteresting::Nothing => 0,
            VipsInteresting::Centre => 1,
            VipsInteresting::Entropy => 2,
            VipsInteresting::Attention => 3,
            VipsInteresting::Low => 4,
            VipsInteresting::High => 5,
            VipsInteresting::All => 6,
        }
    }
}

impl VipsIntent {
    /// The number the native side knows this member by.
    pub fn code(self) -> (n: u32)
        ensures
            n == intent_code(self),
    {
        match self {
            VipsIntent::Perceptual => 0,
            VipsIntent::Relative => 1,
            VipsIntent::Saturation => 2,
            VipsIntent::Absolute => 3,
            VipsIntent::Auto => 32,
        }
    }
}

impl VipsExtend {
    /// The number the native side knows this member by.
    pub fn code(self) -> (n: u32)
        ensures
            n == extend_code(self),
    {
        match self {
            VipsExtend::Black => 0,
            VipsExtend::Copy => 1,
            VipsExtend::Repeat => 2,
            VipsExtend::Mirror => 3,
            VipsExtend::White => 4,
            VipsExtend::Background => 5,
        }
    }
}

impl VipsBandFormat {
    /// The number the native side knows this format by.
    pub fn code(self) -> (n: i32)
        ensures
            n == band_format_code(self),
    {
        match self {
            VipsBandFormat::NotSet => -1,
            VipsBandFormat::UChar => 0,
            VipsBandFormat::Char => 1,
            VipsBandFormat::UShort => 2,
            VipsBandFormat::Short => 3,
            VipsBandFormat::UInt => 4,
            VipsBandFormat::Int => 5,
            VipsBandFormat::Float => 6,
            VipsBandFormat::Complex => 7,
            VipsBandFormat::Double => 8,
            VipsBandFormat::DpComplex => 9,
        }
    }
}

/// A native array of numbers, known by its address.
#[derive(Clone, Copy, Debug, PartialEq, Eq, Structural)]
pub struct VipsArrayDouble {
    pub address: usize,
}

/// The optional parameters of a thumbnail, each given or not.
#[derive(Debug)]
pub struct VipsThumbnailOptions {
    /// The target height; the width is a positional argument.
    pub height: Option<u32>,
    pub size: Option<VipsSize>,
    pub auto_rotate: Option<bool>,
    pub crop: Option<VipsInteresting>,
    pub linear: Option<bool>,
    pub import_profile: Option<String>,
    pub export_profile: Option<String>,
    pub intent: Option<VipsIntent>,
}

impl VipsThumbnailOptions {
    /// The option set in which nothing is given.
    pub fn new() -> (options: Self)
        ensures
            options.height is None,
            options.size is None,
            options.auto_rotate is None,
            options.crop is None,
            options.linear is None,
            options.import_profile is None,
            options.export_profile is None,
            options.intent is None,
    {
        VipsThumbnailOptions {
            height: None,
            size: None,
            auto_rotate: None,
            crop: None,
            linear: None,
            import_profile: None,
            export_profile: None,
            intent: None,
        }
    }
}

impl Default for VipsThumbnailOptions {
    fn default() -> (options: Self)
        ensures
            options.height is None,
            options.size is None,
            options.auto_rotate is None,
            options.crop is None,
            options.linear is None,
            options.import_profile is None,
            options.export_profile is None,
            options.intent is None,
    {
        VipsThumbnailOptions::new()
    }
}

/// The optional parameters of an embedding, each given or not.
#[derive(Debug)]
pub struct VipsEmbedOptions {
    pub extend: Option<VipsExtend>,
    pub background: Option<VipsArrayDouble>,
}

impl Default for VipsEmbedOptions {
    fn default() -> (options: Self)
        ensures
            options.extend is None,
            options.background is None,
    {
        VipsEmbedOptions { extend: None, background: None }
    }
}

} // verus!
