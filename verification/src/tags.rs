//! The table of standard tags, and the closed sets of values that some tags take.
//!
//! Every set is a flat table between symbols and their numeric codes; a
//! code outside the table resolves to `None`.

use crate::error::ParseError;
use vstd::prelude::*;

verus! {

/// The name of a standard tag.
#[derive(Clone, Copy, Debug, PartialEq, Eq, Structural)]
pub enum Tag {
    /// A general indication of the kind of data contained in this subfile.
    NewSubfileType,
    /// A general indication of the kind of data contained in this subfile.
    SubfileType,
    /// The number of columns in the image, i.e., the number of pixels per row.
    ImageWidth,
    /// The number of rows of pixels in the image.
    ImageLength,
    /// Number of bits per component.
    BitsPerSample,
    /// Compression scheme used on the image data.
    Compression,
    /// The color space of the image data.
    PhotometricInterpretation,
    /// For black and white TIFF files that represent shades of gray, the technique used to convert from gray to black and white pixels.
    Threshholding,
    /// The width of the dithering or halftoning matrix used to create a dithered or halftoned bilevel file.
    CellWidth,
    /// The length of the dithering or halftoning matrix used to create a dithered or halftoned bilevel file.
    CellLength,
    /// The logical order of bits within a byte.
    FillOrder,
    /// The name of the document from which this image was scanned.
    DocumentName,
    /// A string that describes the subject of the image.
    ImageDescription,
    /// The scanner manufacturer.
    Make,
    /// The scanner model name or number.
    Model,
    /// For each strip, the byte offset of that strip.
    StripOffsets,
    /// The orientation of the image with respect to the rows and columns.
    Orientation,
    /// The number of components per pixel.
    SamplesPerPixel,
    /// The number of rows per strip.
    RowsPerStrip,
    /// For each strip, the number of bytes in the strip after compression.
    StripByteCounts,
    /// The minimum component value used.
    MinSampleValue,
    /// The maximum component value used.
    MaxSampleValue,
    /// The number of pixels per ResolutionUnit in the ImageWidth direction.
    XResolution,
    /// The number of pixels per ResolutionUnit in the ImageLength direction.
    YResolution,
    /// How the components of each pixel are stored.
    PlanarConfiguration,
    /// The name of the page from which this image was scanned.
    PageName,
    /// X position of the image.
    XPosition,
    /// Y position of the image.
    YPosition,
    /// For each string of contiguous unused bytes in a TIFF file, the byte offset of the string.
    FreeOffsets,
    /// For each string of contiguous unused bytes in a TIFF file, the number of bytes in the string.
    FreeByteCounts,
    /// The precision of the information contained in the GrayResponseCurve.
    GrayResponseUnit,
    /// For grayscale data, the optical density of each possible pixel value.
    GrayResponseCurve,
    /// Options for Group 3 Fax compression.
    OptionsT4,
    /// Options for Group 4 Fax compression.
    OptionsT6,
    /// The unit of measurement for XResolution and YResolution.
    ResolutionUnit,
    /// The page number of the page from which this image was scanned.
    PageNumber,
    /// Describes a transfer function for the image in tabular style.
    TransferFunction,
    /// Name and version number of the software package(s) used to create the image.
    Software,
    /// Date and time of image creation.
    DateTime,
    /// Person who created the image.
    Artist,
    /// The computer and/or operating system in use at the time of image creation.
    HostComputer,
    /// A mathematical operator that is applied to the image data before an encoding scheme is applied.
    Predictor,
    /// The chromaticity of the white point of the image.
    WhitePoint,
    /// The chromaticities of the primaries of the image.
    PrimaryChromaticities,
    /// A color map for palette color images.
    ColorMap,
    /// Conveys to the halftone function the range of gray levels within a colorimetrically-specified image that should retain tonal detail.
    HalftoneHints,
    /// The tile width in pixels. This is the number of columns in each tile.
    TileWidth,
    /// The tile length (height) in pixels. This is the number of rows in each tile.
    TileLength,
    /// For each tile, the byte offset of that tile, as compressed and stored on disk.
    TileOffsets,
    /// For each tile, the number of (compressed) bytes in that tile.
    TileByteCounts,
    /// Used in the TIFF-F standard, denotes the number of 'bad' scan lines encountered by the facsimile device.
    BadFaxLines,
    /// Used in the TIFF-F standard, indicates if 'bad' lines encountered during reception are stored in the data, or if 'bad' lines have been replaced by the receiver.
    CleanFaxData,
    /// Used in the TIFF-F standard, denotes the maximum number of consecutive 'bad' scanlines received.
    ConsecutiveBadFaxLines,
    /// Offset to child IFDs.
    SubIFDs,
    /// The set of inks used in a separated (PhotometricInterpretation=5) image.
    InkSet,
    /// The name of each ink used in a separated image.
    InkNames,
    /// The number of inks.
    NumberOfInks,
    /// The component values that correspond to a 0% dot and 100% dot.
    DotRange,
    /// A description of the printing environment for which this separation is intended.
    TargetPrinter,
    /// Description of extra components.
    ExtraSamples,
    /// Specifies how to interpret each data sample in a pixel.
    SampleFormat,
    /// Specifies the minimum sample value.
    SMinSampleValue,
    /// Specifies the maximum sample value.
    SMaxSampleValue,
    /// Expands the range of the TransferFunction.
    TransferRange,
    /// Mirrors the essentials of PostScript's path creation functionality.
    ClipPath,
    /// The number of units that span the width of the image, in terms of integer ClipPath coordinates.
    XClipPathUnits,
    /// The number of units that span the height of the image, in terms of integer ClipPath coordinates.
    YClipPathUnits,
    /// Aims to broaden the support for indexed images to include support for any color space.
    Indexed,
    /// JPEG quantization and/or Huffman tables.
    JPEGTables,
    /// OPI-related.
    OPIProxy,
    /// Used in the TIFF-FX standard to point to an IFD containing tags that are globally applicable to the complete TIFF file.
    GlobalParametersIFD,
    /// Used in the TIFF-FX standard, denotes the type of data stored in this file or IFD.
    ProfileType,
    /// Used in the TIFF-FX standard, denotes the 'profile' that applies to this file.
    FaxProfile,
    /// Used in the TIFF-FX standard, indicates which coding methods are used in the file.
    CodingMethods,
    /// Used in the TIFF-FX standard, denotes the year of the standard specified by the FaxProfile field.
    VersionYear,
    /// Used in the TIFF-FX standard, denotes the mode of the standard specified by the FaxProfile field.
    ModeNumber,
    /// Used in the TIFF-F and TIFF-FX standards, holds information about the ITULAB (PhotometricInterpretation = 10) encoding.
    Decode,
    /// Defined in the Mixed Raster Content part of RFC 2301, is the default color needed in areas where no image is available.
    DefaultImageColor,
    /// Old-style JPEG compression field. TechNote2 invalidates this part of the specification.
    JPEGProc,
    /// Old-style JPEG compression field. TechNote2 invalidates this part of the specification.
    JPEGInterchangeFormat,
    /// Old-style JPEG compression field. TechNote2 invalidates this part of the specification.
    JPEGInterchangeFormatLength,
    /// Old-style JPEG compression field. TechNote2 invalidates this part of the specification.
    JPEGRestartInterval,
    /// Old-style JPEG compression field. TechNote2 invalidates this part of the specification.
    JPEGLosslessPredictors,
    /// Old-style JPEG compression field. TechNote2 invalidates this part of the specification.
    JPEGPointTransforms,
    /// Old-style JPEG compression field. TechNote2 invalidates this part of the specification.
    JPEGQTables,
    /// Old-style JPEG compression field. TechNote2 invalidates this part of the specification.
    JPEGDCTables,
    /// Old-style JPEG compression field. TechNote2 invalidates this part of the specification.
    JPEGACTables,
    /// The transformation from RGB to YCbCr image data.
    YCbCrCoefficients,
    /// Specifies the subsampling factors used for the chrominance components of a YCbCr image.
    YCbCrSubSampling,
    /// Specifies the positioning of subsampled chrominance components relative to luminance samples.
    YCbCrPositioning,
    /// Specifies a pair of headroom and footroom image data values (codes) for each pixel component.
    ReferenceBlackWhite,
    /// Defined in the Mixed Raster Content part of RFC 2301, used to replace RowsPerStrip for IFDs with variable-sized strips.
    StripRowCounts,
    /// XML packet containing XMP metadata.
    XMP,
    /// OPI-related.
    ImageID,
    /// Copyright notice.
    Copyright,
    /// Exact affine transformations between raster and model space.
    ModelPixelScale,
    /// Raster->model tiepoint pairs.
    Georeference,
    /// Collection of Photoshop 'Image Resource Blocks'.
    Photoshop,
    /// Defined in the Mixed Raster Content part of RFC 2301, used to denote the particular function of this Image in the mixed raster scheme.
    ImageLayer,
    /// GeoKey Directory, which defines and references the "GeoKeys".
    GeoKeyDirectory,
    /// ASCII valued GeoKeys, referenced by the GeoKeyDirectoryTag.
    GeoAsciiParams,
    /// Xml maps keys Item.name to Item tag text as value.
    GdalMetadata,
    /// ASCII represented pixel value interpreted as transparent.
    GdalNoData,
}

impl Tag {
    /// The numeric identifier under which the tag is stored in a file.
    pub open spec fn spec_code(self) -> u64 {
        match self {
            Tag::NewSubfileType => 254,
            Tag::SubfileType => 255,
            Tag::ImageWidth => 256,
            Tag::ImageLength => 257,
            Tag::BitsPerSample => 258,
            Tag::Compression => 259,
            Tag::PhotometricInterpretation => 262,
            Tag::Threshholding => 263,
            Tag::CellWidth => 264,
            Tag::CellLength => 265,
            Tag::FillOrder => 266,
            Tag::DocumentName => 269,
            Tag::ImageDescription => 270,
            Tag::Make => 271,
            Tag::Model => 272,
            Tag::StripOffsets => 273,
            Tag::Orientation => 274,
            Tag::SamplesPerPixel => 277,
            Tag::RowsPerStrip => 278,
            Tag::StripByteCounts => 279,
            Tag::MinSampleValue => 280,
            Tag::MaxSampleValue => 281,
            Tag::XResolution => 282,
            Tag::YResolution => 283,
            Tag::PlanarConfiguration => 284,
            Tag::PageName => 285,
            Tag::XPosition => 286,
            Tag::YPosition => 287,
            Tag::FreeOffsets => 288,
            Tag::FreeByteCounts => 289,
            Tag::GrayResponseUnit => 290,
            Tag::GrayResponseCurve => 291,
            Tag::OptionsT4 => 292,
            Tag::OptionsT6 => 293,
            Tag::ResolutionUnit => 296,
            Tag::PageNumber => 297,
            Tag::TransferFunction => 301,
            Tag::Software => 305,
            Tag::DateTime => 306,
            Tag::Artist => 315,
            Tag::HostComputer => 316,
            Tag::Predictor => 317,
            Tag::WhitePoint => 318,
            Tag::PrimaryChromaticities => 319,
            Tag::ColorMap => 320,
            Tag::HalftoneHints => 321,
            Tag::TileWidth => 322,
            Tag::TileLength => 323,
            Tag::TileOffsets => 324,
            Tag::TileByteCounts => 325,
            Tag::BadFaxLines => 326,
            Tag::CleanFaxData => 327,
            Tag::ConsecutiveBadFaxLines => 328,
            Tag::SubIFDs => 330,
            Tag::InkSet => 332,
            Tag::InkNames => 333,
            Tag::NumberOfInks => 334,
            Tag::DotRange => 336,
            Tag::TargetPrinter => 337,
            Tag::ExtraSamples => 338,
            Tag::SampleFormat => 339,
            Tag::SMinSampleValue => 340,
            Tag::SMaxSampleValue => 341,
            Tag::TransferRange => 342,
            Tag::ClipPath => 343,
            Tag::XClipPathUnits => 344,
            Tag::YClipPathUnits => 345,
            Tag::Indexed => 346,
            Tag::JPEGTables => 347,
            Tag::OPIProxy => 351,
            Tag::GlobalParametersIFD => 400,
            Tag::ProfileType => 401,
            Tag::FaxProfile => 402,
            Tag::CodingMethods => 403,
            Tag::VersionYear => 404,
            Tag::ModeNumber => 405,
            Tag::Decode => 433,
            Tag::DefaultImageColor => 434,
            Tag::JPEGProc => 512,
            Tag::JPEGInterchangeFormat => 513,
            Tag::JPEGInterchangeFormatLength => 514,
            Tag::JPEGRestartInterval => 515,
            Tag::JPEGLosslessPredictors => 517,
            Tag::JPEGPointTransforms => 518,
            Tag::JPEGQTables => 519,
            Tag::JPEGDCTables => 520,
            Tag::JPEGACTables => 521,
            Tag::YCbCrCoefficients => 529,
            Tag::YCbCrSubSampling => 530,
            Tag::YCbCrPositioning => 531,
            Tag::ReferenceBlackWhite => 532,
            Tag::StripRowCounts => 559,
            Tag::XMP => 700,
            Tag::ImageID => 32781,
            Tag::Copyright => 33432,
            Tag::ModelPixelScale => 33550,
            Tag::Georeference => 33922,
            Tag::Photoshop => 34377,
            Tag::ImageLayer => 34732,
            Tag::GeoKeyDirectory => 34735,
            Tag::GeoAsciiParams => 34737,
            Tag::GdalMetadata => 42112,
            Tag::GdalNoData => 42113,
        }
    }

    /// The tag that a numeric identifier names, if it names one.
    pub open spec fn spec_from_code(v: u64) -> Option<Tag> {
        if v == 254 {
            Some(Tag::NewSubfileType)
        } else if v == 255 {
            Some(Tag::SubfileType)
        } else if v == 256 {
            Some(Tag::ImageWidth)
        } else if v == 257 {
            Some(Tag::ImageLength)
        } else if v == 258 {
            Some(Tag::BitsPerSample)
        } else if v == 259 {
            Some(Tag::Compression)
        } else if v == 262 {
            Some(Tag::PhotometricInterpretation)
        } else if v == 263 {
            Some(Tag::Threshholding)
        } else if v == 264 {
            Some(Tag::CellWidth)
        } else if v == 265 {
            Some(Tag::CellLength)
        } else if v == 266 {
            Some(Tag::FillOrder)
        } else if v == 269 {
            Some(Tag::DocumentName)
        } else if v == 270 {
            Some(Tag::ImageDescription)
        } else if v == 271 {
            Some(Tag::Make)
        } else if v == 272 {
            Some(Tag::Model)
        } else if v == 273 {
            Some(Tag::StripOffsets)
        } else if v == 274 {
            Some(Tag::Orientation)
        } else if v == 277 {
            Some(Tag::SamplesPerPixel)
        } else if v == 278 {
            Some(Tag::RowsPerStrip)
        } else if v == 279 {
            Some(Tag::StripByteCounts)
        } else if v == 280 {
            Some(Tag::MinSampleValue)
        } else if v == 281 {
            Some(Tag::MaxSampleValue)
        } else if v == 282 {
            Some(Tag::XResolution)
        } else if v == 283 {
            Some(Tag::YResolution)
        } else if v == 284 {
            Some(Tag::PlanarConfiguration)
        } else if v == 285 {
            Some(Tag::PageName)
        } else if v == 286 {
            Some(Tag::XPosition)
        } else if v == 287 {
            Some(Tag::YPosition)
        } else if v == 288 {
            Some(Tag::FreeOffsets)
        } else if v == 289 {
            Some(Tag::FreeByteCounts)
        } else if v == 290 {
            Some(Tag::GrayResponseUnit)
        } else if v == 291 {
            Some(Tag::GrayResponseCurve)
        } else if v == 292 {
            Some(Tag::OptionsT4)
        } else if v == 293 {
            Some(Tag::OptionsT6)
        } else if v == 296 {
            Some(Tag::ResolutionUnit)
        } else if v == 297 {
            Some(Tag::PageNumber)
        } else if v == 301 {
            Some(Tag::TransferFunction)
        } else if v == 305 {
            Some(Tag::Software)
        } else if v == 306 {
            Some(Tag::DateTime)
        } else if v == 315 {
            Some(Tag::Artist)
        } else if v == 316 {
            Some(Tag::HostComputer)
        } else if v == 317 {
            Some(Tag::Predictor)
        } else if v == 318 {
            Some(Tag::WhitePoint)
        } else if v == 319 {
            Some(Tag::PrimaryChromaticities)
        } else if v == 320 {
            Some(Tag::ColorMap)
        } else if v == 321 {
            Some(Tag::HalftoneHints)
        } else if v == 322 {
            Some(Tag::TileWidth)
        } else if v == 323 {
            Some(Tag::TileLength)
        } else if v == 324 {
            Some(Tag::TileOffsets)
        } else if v == 325 {
            Some(Tag::TileByteCounts)
        } else if v == 326 {
            Some(Tag::BadFaxLines)
        } else if v == 327 {
            Some(Tag::CleanFaxData)
        } else if v == 328 {
            Some(Tag::ConsecutiveBadFaxLines)
        } else if v == 330 {
            Some(Tag::SubIFDs)
        } else if v == 332 {
            Some(Tag::InkSet)
        } else if v == 333 {
            Some(Tag::InkNames)
        } else if v == 334 {
            Some(Tag::NumberOfInks)
        } else if v == 336 {
            Some(Tag::DotRange)
        } else if v == 337 {
            Some(Tag::TargetPrinter)
        } else if v == 338 {
            Some(Tag::ExtraSamples)
        } else if v == 339 {
            Some(Tag::SampleFormat)
        } else if v == 340 {
            Some(Tag::SMinSampleValue)
        } else if v == 341 {
            Some(Tag::SMaxSampleValue)
        } else if v == 342 {
            Some(Tag::TransferRange)
        } else if v == 343 {
            Some(Tag::ClipPath)
        } else if v == 344 {
            Some(Tag::XClipPathUnits)
        } else if v == 345 {
            Some(Tag::YClipPathUnits)
        } else if v == 346 {
            Some(Tag::Indexed)
        } else if v == 347 {
            Some(Tag::JPEGTables)
        } else if v == 351 {
            Some(Tag::OPIProxy)
        } else if v == 400 {
            Some(Tag::GlobalParametersIFD)
        } else if v == 401 {
            Some(Tag::ProfileType)
        } else if v == 402 {
            Some(Tag::FaxProfile)
        } else if v == 403 {
            Some(Tag::CodingMethods)
        } else if v == 404 {
            Some(Tag::VersionYear)
        } else if v == 405 {
            Some(Tag::ModeNumber)
        } else if v == 433 {
            Some(Tag::Decode)
        } else if v == 434 {
            Some(Tag::DefaultImageColor)
        } else if v == 512 {
            Some(Tag::JPEGProc)
        } else if v == 513 {
            Some(Tag::JPEGInterchangeFormat)
        } else if v == 514 {
            Some(Tag::JPEGInterchangeFormatLength)
        } else if v == 515 {
            Some(Tag::JPEGRestartInterval)
        } else if v == 517 {
            Some(Tag::JPEGLosslessPredictors)
        } else if v == 518 {
            Some(Tag::JPEGPointTransforms)
        } else if v == 519 {
            Some(Tag::JPEGQTables)
        } else if v == 520 {
            Some(Tag::JPEGDCTables)
        } else if v == 521 {
            Some(Tag::JPEGACTables)
        } else if v == 529 {
            Some(Tag::YCbCrCoefficients)
        } else if v == 530 {
            Some(Tag::YCbCrSubSampling)
        } else if v == 531 {
            Some(Tag::YCbCrPositioning)
        } else if v == 532 {
            Some(Tag::ReferenceBlackWhite)
        } else if v == 559 {
            Some(Tag::StripRowCounts)
        } else if v == 700 {
            Some(Tag::XMP)
        } else if v == 32781 {
            Some(Tag::ImageID)
        } else if v == 33432 {
            Some(Tag::Copyright)
        } else if v == 33550 {
            Some(Tag::ModelPixelScale)
        } else if v == 33922 {
            Some(Tag::Georeference)
        } else if v == 34377 {
            Some(Tag::Photoshop)
        } else if v == 34732 {
            Some(Tag::ImageLayer)
        } else if v == 34735 {
            Some(Tag::GeoKeyDirectory)
        } else if v == 34737 {
            Some(Tag::GeoAsciiParams)
        } else if v == 42112 {
            Some(Tag::GdalMetadata)
        } else if v == 42113 {
            Some(Tag::GdalNoData)
        } else {
            None
        }
    }

    /// The numeric identifier under which the tag is stored in a file.
    pub fn code(&self) -> (v: u64)
        ensures
            v == self.spec_code(),
    {
        match self {
            Tag::NewSubfileType => 254,
            Tag::SubfileType => 255,
            Tag::ImageWidth => 256,
            Tag::ImageLength => 257,
            Tag::BitsPerSample => 258,
            Tag::Compression => 259,
            Tag::PhotometricInterpretation => 262,
            Tag::Threshholding => 263,
            Tag::CellWidth => 264,
            Tag::CellLength => 265,
            Tag::FillOrder => 266,
            Tag::DocumentName => 269,
            Tag::ImageDescription => 270,
            Tag::Make => 271,
            Tag::Model => 272,
            Tag::StripOffsets => 273,
            Tag::Orientation => 274,
            Tag::SamplesPerPixel => 277,
            Tag::RowsPerStrip => 278,
            Tag::StripByteCounts => 279,
            Tag::MinSampleValue => 280,
            Tag::MaxSampleValue => 281,
            Tag::XResolution => 282,
            Tag::YResolution => 283,
            Tag::PlanarConfiguration => 284,
            Tag::PageName => 285,
            Tag::XPosition => 286,
            Tag::YPosition => 287,
            Tag::FreeOffsets => 288,
            Tag::FreeByteCounts => 289,
            Tag::GrayResponseUnit => 290,
            Tag::GrayResponseCurve => 291,
            Tag::OptionsT4 => 292,
            Tag::OptionsT6 => 293,
            Tag::ResolutionUnit => 296,
            Tag::PageNumber => 297,
            Tag::TransferFunction => 301,
            Tag::Software => 305,
            Tag::DateTime => 306,
            Tag::Artist => 315,
            Tag::HostComputer => 316,
            Tag::Predictor => 317,
            Tag::WhitePoint => 318,
            Tag::PrimaryChromaticities => 319,
            Tag::ColorMap => 320,
            Tag::HalftoneHints => 321,
            Tag::TileWidth => 322,
            Tag::TileLength => 323,
            Tag::TileOffsets => 324,
            Tag::TileByteCounts => 325,
            Tag::BadFaxLines => 326,
            Tag::CleanFaxData => 327,
            Tag::ConsecutiveBadFaxLines => 328,
            Tag::SubIFDs => 330,
            Tag::InkSet => 332,
            Tag::InkNames => 333,
            Tag::NumberOfInks => 334,
            Tag::DotRange => 336,
            Tag::TargetPrinter => 337,
            Tag::ExtraSamples => 338,
            Tag::SampleFormat => 339,
            Tag::SMinSampleValue => 340,
            Tag::SMaxSampleValue => 341,
            Tag::TransferRange => 342,
            Tag::ClipPath => 343,
            Tag::XClipPathUnits => 344,
            Tag::YClipPathUnits => 345,
            Tag::Indexed => 346,
            Tag::JPEGTables => 347,
            Tag::OPIProxy => 351,
            Tag::GlobalParametersIFD => 400,
            Tag::ProfileType => 401,
            Tag::FaxProfile => 402,
            Tag::CodingMethods => 403,
            Tag::VersionYear => 404,
            Tag::ModeNumber => 405,
            Tag::Decode => 433,
            Tag::DefaultImageColor => 434,
            Tag::JPEGProc => 512,
            Tag::JPEGInterchangeFormat => 513,
            Tag::JPEGInterchangeFormatLength => 514,
            Tag::JPEGRestartInterval => 515,
            Tag::JPEGLosslessPredictors => 517,
            Tag::JPEGPointTransforms => 518,
            Tag::JPEGQTables => 519,
            Tag::JPEGDCTables => 520,
            Tag::JPEGACTables => 521,
            Tag::YCbCrCoefficients => 529,
            Tag::YCbCrSubSampling => 530,
            Tag::YCbCrPositioning => 531,
            Tag::ReferenceBlackWhite => 532,
            Tag::StripRowCounts => 559,
            Tag::XMP => 700,
            Tag::ImageID => 32781,
            Tag::Copyright => 33432,
            Tag::ModelPixelScale => 33550,
            Tag::Georeference => 33922,
            Tag::Photoshop => 34377,
            Tag::ImageLayer => 34732,
            Tag::GeoKeyDirectory => 34735,
            Tag::GeoAsciiParams => 34737,
            Tag::GdalMetadata => 42112,
            Tag::GdalNoData => 42113,
        }
    }

    /// Resolves a numeric identifier to the tag that it names. An identifier
    /// outside the table gives `None`.
    pub fn from_code(v: u64) -> (r: Option<Tag>)
        ensures
            r == Tag::spec_from_code(v),
    {
        match v {
            254 => Some(Tag::NewSubfileType),
            255 => Some(Tag::SubfileType),
            256 => Some(Tag::ImageWidth),
            257 => Some(Tag::ImageLength),
            258 => Some(Tag::BitsPerSample),
            259 => Some(Tag::Compression),
            262 => Some(Tag::PhotometricInterpretation),
            263 => Some(Tag::Threshholding),
            264 => Some(Tag::CellWidth),
            265 => Some(Tag::CellLength),
            266 => Some(Tag::FillOrder),
            269 => Some(Tag::DocumentName),
            270 => Some(Tag::ImageDescription),
            271 => Some(Tag::Make),
            272 => Some(Tag::Model),
            273 => Some(Tag::StripOffsets),
            274 => Some(Tag::Orientation),
            277 => Some(Tag::SamplesPerPixel),
            278 => Some(Tag::RowsPerStrip),
            279 => Some(Tag::StripByteCounts),
            280 => Some(Tag::MinSampleValue),
            281 => Some(Tag::MaxSampleValue),
            282 => Some(Tag::XResolution),
            283 => Some(Tag::YResolution),
            284 => Some(Tag::PlanarConfiguration),
            285 => Some(Tag::PageName),
            286 => Some(Tag::XPosition),
            287 => Some(Tag::YPosition),
            288 => Some(Tag::FreeOffsets),
            289 => Some(Tag::FreeByteCounts),
            290 => Some(Tag::GrayResponseUnit),
            291 => Some(Tag::GrayResponseCurve),
            292 => Some(Tag::OptionsT4),
            293 => Some(Tag::OptionsT6),
            296 => Some(Tag::ResolutionUnit),
            297 => Some(Tag::PageNumber),
            301 => Some(Tag::TransferFunction),
            305 => Some(Tag::Software),
            306 => Some(Tag::DateTime),
            315 => Some(Tag::Artist),
            316 => Some(Tag::HostComputer),
            317 => Some(Tag::Predictor),
            318 => Some(Tag::WhitePoint),
            319 => Some(Tag::PrimaryChromaticities),
            320 => Some(Tag::ColorMap),
            321 => Some(Tag::HalftoneHints),
            322 => Some(Tag::TileWidth),
            323 => Some(Tag::TileLength),
            324 => Some(Tag::TileOffsets),
            325 => Some(Tag::TileByteCounts),
            326 => Some(Tag::BadFaxLines),
            327 => Some(Tag::CleanFaxData),
            328 => Some(Tag::ConsecutiveBadFaxLines),
            330 => Some(Tag::SubIFDs),
            332 => Some(Tag::InkSet),
            333 => Some(Tag::InkNames),
            334 => Some(Tag::NumberOfInks),
            336 => Some(Tag::DotRange),
            337 => Some(Tag::TargetPrinter),
            338 => Some(Tag::ExtraSamples),
            339 => Some(Tag::SampleFormat),
            340 => Some(Tag::SMinSampleValue),
            341 => Some(Tag::SMaxSampleValue),
            342 => Some(Tag::TransferRange),
            343 => Some(Tag::ClipPath),
            344 => Some(Tag::XClipPathUnits),
            345 => Some(Tag::YClipPathUnits),
            346 => Some(Tag::Indexed),
            347 => Some(Tag::JPEGTables),
            351 => Some(Tag::OPIProxy),
            400 => Some(Tag::GlobalParametersIFD),
            401 => Some(Tag::ProfileType),
            402 => Some(Tag::FaxProfile),
            403 => Some(Tag::CodingMethods),
            404 => Some(Tag::VersionYear),
            405 => Some(Tag::ModeNumber),
            433 => Some(Tag::Decode),
            434 => Some(Tag::DefaultImageColor),
            512 => Some(Tag::JPEGProc),
            513 => Some(Tag::JPEGInterchangeFormat),
            514 => Some(Tag::JPEGInterchangeFormatLength),
            515 => Some(Tag::JPEGRestartInterval),
            517 => Some(Tag::JPEGLosslessPredictors),
            518 => Some(Tag::JPEGPointTransforms),
            519 => Some(Tag::JPEGQTables),
            520 => Some(Tag::JPEGDCTables),
            521 => Some(Tag::JPEGACTables),
            529 => Some(Tag::YCbCrCoefficients),
            530 => Some(Tag::YCbCrSubSampling),
            531 => Some(Tag::YCbCrPositioning),
            532 => Some(Tag::ReferenceBlackWhite),
            559 => Some(Tag::StripRowCounts),
            700 => Some(Tag::XMP),
            32781 => Some(Tag::ImageID),
            33432 => Some(Tag::Copyright),
            33550 => Some(Tag::ModelPixelScale),
            33922 => Some(Tag::Georeference),
            34377 => Some(Tag::Photoshop),
            34732 => Some(Tag::ImageLayer),
            34735 => Some(Tag::GeoKeyDirectory),
            34737 => Some(Tag::GeoAsciiParams),
            42112 => Some(Tag::GdalMetadata),
            42113 => Some(Tag::GdalNoData),
            _ => None,
        }
    }

    /// Every tag is found again from its own identifier.
    pub proof fn lemma_code_round_trip(self)
        ensures
            Tag::spec_from_code(self.spec_code()) == Some(self),
    {
    }

    /// A tag that an identifier resolves to has that identifier, so no two
    /// identifiers name the same tag.
    pub proof fn lemma_from_code_sound(v: u64)
        ensures
            Tag::spec_from_code(v) matches Some(tag) ==> tag.spec_code() == v,
    {
    }
}

/// A 64-bit number is converted to the tag that it identifies; a number
/// outside the table is refused as an unrecognized tag.
impl TryFrom<u64> for Tag {
    type Error = ParseError;

    fn try_from(v: u64) -> (r: Result<Tag, ParseError>) {
        match Tag::from_code(v) {
            Some(tag) => Ok(tag),
            None => Err(ParseError::UnrecognizedTag),
        }
    }
}

impl vstd::std_specs::convert::TryFromSpecImpl<u64> for Tag {
    open spec fn obeys_try_from_spec() -> bool {
        true
    }

    open spec fn try_from_spec(v: u64) -> Result<Tag, ParseError> {
        match Tag::spec_from_code(v) {
            Some(tag) => Ok(tag),
            None => Err(ParseError::UnrecognizedTag),
        }
    }
}

/// The value of a tag, under the tag's name.
pub enum TagValue {
    NewSubfileType(u32),
    SubfileType(SubfileType),
    ImageWidth(u32),
    ImageLength(u32),
    BitsPerSample(u32),
    Compression(Compression),
    PhotometricInterpretation(PhotometricInterpretation),
    Threshholding(u32),
    CellWidth(u32),
    CellLength(u32),
    FillOrder(u32),
    DocumentName(u32),
    ImageDescription(u32),
    Make(u32),
    Model(u32),
    StripOffsets(u32),
    Orientation(u32),
    SamplesPerPixel(u32),
    RowsPerStrip(u32),
    StripByteCounts(u32),
    MinSampleValue(u32),
    MaxSampleValue(u32),
    XResolution(u32),
    YResolution(u32),
    PlanarConfiguration(PlanarConfiguration),
    PageName(u32),
    XPosition(u32),
    YPosition(u32),
    FreeOffsets(u32),
    FreeByteCounts(u32),
    GrayResponseUnit(u32),
    GrayResponseCurve(u32),
    OptionsT4(u32),
    OptionsT6(u32),
    ResolutionUnit(ResolutionUnit),
    PageNumber(u32),
    TransferFunction(u32),
    Software(u32),
    DateTime(u32),
    Artist(u32),
    HostComputer(u32),
    Predictor(Predictor),
    WhitePoint(u32),
    PrimaryChromaticities(u32),
    ColorMap(u32),
    HalftoneHints(u32),
    TileWidth(u32),
    TileLength(u32),
    TileOffsets(u32),
    TileByteCounts(u32),
    BadFaxLines(u32),
    CleanFaxData(u32),
    ConsecutiveBadFaxLines(u32),
    SubIFDs(u32),
    InkSet(u32),
    InkNames(u32),
    NumberOfInks(u32),
    DotRange(u32),
    TargetPrinter(u32),
    ExtraSamples(u32),
    SampleFormat(SampleFormat),
    SMinSampleValue(u32),
    SMaxSampleValue(u32),
    TransferRange(u32),
    ClipPath(u32),
    XClipPathUnits(u32),
    YClipPathUnits(u32),
    Indexed(u32),
    JPEGTables(u32),
    OPIProxy(u32),
    GlobalParametersIFD(u32),
    ProfileType(u32),
    FaxProfile(u32),
    CodingMethods(u32),
    VersionYear(u32),
    ModeNumber(u32),
    Decode(u32),
    DefaultImageColor(u32),
    JPEGProc(u32),
    JPEGInterchangeFormat(u32),
    JPEGInterchangeFormatLength(u32),
    JPEGRestartInterval(u32),
    JPEGLosslessPredictors(u32),
    JPEGPointTransforms(u32),
    JPEGQTables(u32),
    JPEGDCTables(u32),
    JPEGACTables(u32),
    YCbCrCoefficients(u32),
    YCbCrSubSampling(u32),
    YCbCrPositioning(u32),
    ReferenceBlackWhite(u32),
    StripRowCounts(u32),
    XMP(u32),
    ImageID(u32),
    Copyright(u32),
    ModelPixelScale(u32),
    Georeference(u32),
    Photoshop(u32),
    ImageLayer(u32),
    GeoKeyDirectory(u32),
    GeoAsciiParams(u32),
    GdalMetadata(u32),
    GdalNoData(u32),
}

/// The compression scheme of the image data.
#[derive(Clone, Copy, Debug, PartialEq, Eq, Structural)]
pub enum Compression {
    Uncompressed,
    Ccitt1d,
    Group3Fax,
    Group4Fax,
    LZW,
    JpegOld,
    JpegNew,
    Deflate,
    PackBits,
}

impl Compression {
    /// The numeric code of the value.
    pub open spec fn spec_repr(self) -> u32 {
        match self {
            Compression::Uncompressed => 1,
            Compression::Ccitt1d => 2,
            Compression::Group3Fax => 3,
            Compression::Group4Fax => 4,
            Compression::LZW => 5,
            Compression::JpegOld => 6,
            Compression::JpegNew => 7,
            Compression::Deflate => 8,
            Compression::PackBits => 32773,
        }
    }

    /// The value that a numeric code stands for, if it stands for one.
    pub open spec fn spec_from_repr(discriminant: u32) -> Option<Compression> {
        if discriminant == 1 {
            Some(Compression::Uncompressed)
        } else if discriminant == 2 {
            Some(Compression::Ccitt1d)
        } else if discriminant == 3 {
            Some(Compression::Group3Fax)
        } else if discriminant == 4 {
            Some(Compression::Group4Fax)
        } else if discriminant == 5 {
            Some(Compression::LZW)
        } else if discriminant == 6 {
            Some(Compression::JpegOld)
        } else if discriminant == 7 {
            Some(Compression::JpegNew)
        } else if discriminant == 8 {
            Some(Compression::Deflate)
        } else if discriminant == 32773 {
            Some(Compression::PackBits)
        } else {
            None
        }
    }

    /// The numeric code of the value.
    pub fn repr(&self) -> (v: u32)
        ensures
            v == self.spec_repr(),
    {
        match self {
            Compression::Uncompressed => 1,
            Compression::Ccitt1d => 2,
            Compression::Group3Fax => 3,
            Compression::Group4Fax => 4,
            Compression::LZW => 5,
            Compression::JpegOld => 6,
            Compression::JpegNew => 7,
            Compression::Deflate => 8,
            Compression::PackBits => 32773,
        }
    }

    /// Resolves a numeric code. A code outside the table gives `None`.
    pub fn from_repr(discriminant: u32) -> (r: Option<Compression>)
        ensures
            r == Compression::spec_from_repr(discriminant),
            r matches Some(value) ==> value.spec_repr() == discriminant,
            r is None ==> forall|value: Compression| value.spec_repr() != discriminant,
    {
        match discriminant {
            1 => Some(Compression::Uncompressed),
            2 => Some(Compression::Ccitt1d),
            3 => Some(Compression::Group3Fax),
            4 => Some(Compression::Group4Fax),
            5 => Some(Compression::LZW),
            6 => Some(Compression::JpegOld),
            7 => Some(Compression::JpegNew),
            8 => Some(Compression::Deflate),
            32773 => Some(Compression::PackBits),
            _ => None,
        }
    }
}

/// The kind of data in a subfile, as GeoTIFF files number it.
#[derive(Clone, Copy, Debug, PartialEq, Eq, Structural)]
pub enum GeoKey {
    Standard,
    ReducedResolution,
    MultiPage,
    TransparencyMask,
}

impl GeoKey {
    /// The numeric code of the value.
    pub open spec fn spec_repr(self) -> u32 {
        match self {
            GeoKey::Standard => 0,
            GeoKey::ReducedResolution => 1,
            GeoKey::MultiPage => 2,
            GeoKey::TransparencyMask => 4,
        }
    }

    /// The value that a numeric code stands for, if it stands for one.
    pub open spec fn spec_from_repr(discriminant: u32) -> Option<GeoKey> {
        if discriminant == 0 {
            Some(GeoKey::Standard)
        } else if discriminant == 1 {
            Some(GeoKey::ReducedResolution)
        } else if discriminant == 2 {
            Some(GeoKey::MultiPage)
        } else if discriminant == 4 {
            Some(GeoKey::TransparencyMask)
        } else {
            None
        }
    }

    /// The numeric code of the value.
    pub fn repr(&self) -> (v: u32)
        ensures
            v == self.spec_repr(),
    {
        match self {
            GeoKey::Standard => 0,
            GeoKey::ReducedResolution => 1,
            GeoKey::MultiPage => 2,
            GeoKey::TransparencyMask => 4,
        }
    }

    /// Resolves a numeric code. A code outside the table gives `None`.
    pub fn from_repr(discriminant: u32) -> (r: Option<GeoKey>)
        ensures
            r == GeoKey::spec_from_repr(discriminant),
            r matches Some(value) ==> value.spec_repr() == discriminant,
            r is None ==> forall|value: GeoKey| value.spec_repr() != discriminant,
    {
        match discriminant {
            0 => Some(GeoKey::Standard),
            1 => Some(GeoKey::ReducedResolution),
            2 => Some(GeoKey::MultiPage),
            4 => Some(GeoKey::TransparencyMask),
            _ => None,
        }
    }
}

/// The colour space of the image data.
#[derive(Clone, Copy, Debug, PartialEq, Eq, Structural)]
pub enum PhotometricInterpretation {
    WhiteIsZero,
    BlackIsZero,
    PaletteColor,
    RGB,
    TransparencyMask,
    YCbCr,
}

impl PhotometricInterpretation {
    /// The numeric code of the value.
    pub open spec fn spec_repr(self) -> u32 {
        match self {
            PhotometricInterpretation::WhiteIsZero => 0,
            PhotometricInterpretation::BlackIsZero => 1,
            PhotometricInterpretation::PaletteColor => 2,
            PhotometricInterpretation::RGB => 3,
            PhotometricInterpretation::TransparencyMask => 4,
            PhotometricInterpretation::YCbCr => 5,
        }
    }

    /// The value that a numeric code stands for, if it stands for one.
    pub open spec fn spec_from_repr(discriminant: u32) -> Option<PhotometricInterpretation> {
        if discriminant == 0 {
            Some(PhotometricInterpretation::WhiteIsZero)
        } else if discriminant == 1 {
            Some(PhotometricInterpretation::BlackIsZero)
        } else if discriminant == 2 {
            Some(PhotometricInterpretation::PaletteColor)
        } else if discriminant == 3 {
            Some(PhotometricInterpretation::RGB)
        } else if discriminant == 4 {
            Some(PhotometricInterpretation::TransparencyMask)
        } else if discriminant == 5 {
            Some(PhotometricInterpretation::YCbCr)
        } else {
            None
        }
    }

    /// The numeric code of the value.
    pub fn repr(&self) -> (v: u32)
        ensures
            v == self.spec_repr(),
    {
        match self {
            PhotometricInterpretation::WhiteIsZero => 0,
            PhotometricInterpretation::BlackIsZero => 1,
            PhotometricInterpretation::PaletteColor => 2,
            PhotometricInterpretation::RGB => 3,
            PhotometricInterpretation::TransparencyMask => 4,
            PhotometricInterpretation::YCbCr => 5,
        }
    }

    /// Resolves a numeric code. A code outside the table gives `None`.
    pub fn from_repr(discriminant: u32) -> (r: Option<PhotometricInterpretation>)
        ensures
            r == PhotometricInterpretation::spec_from_repr(discriminant),
            r matches Some(value) ==> value.spec_repr() == discriminant,
            r is None ==> forall|value: PhotometricInterpretation| value.spec_repr() != discriminant,
    {
        match discriminant {
            0 => Some(PhotometricInterpretation::WhiteIsZero),
            1 => Some(PhotometricInterpretation::BlackIsZero),
            2 => Some(PhotometricInterpretation::PaletteColor),
            3 => Some(PhotometricInterpretation::RGB),
            4 => Some(PhotometricInterpretation::TransparencyMask),
            5 => Some(PhotometricInterpretation::YCbCr),
            _ => None,
        }
    }
}

/// How the components of each pixel are stored.
#[derive(Clone, Copy, Debug, PartialEq, Eq, Structural)]
pub enum PlanarConfiguration {
    Chunky,
    Planar,
}

impl PlanarConfiguration {
    /// The numeric code of the value.
    pub open spec fn spec_repr(self) -> u32 {
        match self {
            PlanarConfiguration::Chunky => 1,
            PlanarConfiguration::Planar => 2,
        }
    }

    /// The value that a numeric code stands for, if it stands for one.
    pub open spec fn spec_from_repr(discriminant: u32) -> Option<PlanarConfiguration> {
        if discriminant == 1 {
            Some(PlanarConfiguration::Chunky)
        } else if discriminant == 2 {
            Some(PlanarConfiguration::Planar)
        } else {
            None
        }
    }

    /// The numeric code of the value.
    pub fn repr(&self) -> (v: u32)
        ensures
            v == self.spec_repr(),
    {
        match self {
            PlanarConfiguration::Chunky => 1,
            PlanarConfiguration::Planar => 2,
        }
    }

    /// Resolves a numeric code. A code outside the table gives `None`.
    pub fn from_repr(discriminant: u32) -> (r: Option<PlanarConfiguration>)
        ensures
            r == PlanarConfiguration::spec_from_repr(discriminant),
            r matches Some(value) ==> value.spec_repr() == discriminant,
            r is None ==> forall|value: PlanarConfiguration| value.spec_repr() != discriminant,
    {
        match discriminant {
            1 => Some(PlanarConfiguration::Chunky),
            2 => Some(PlanarConfiguration::Planar),
            _ => None,
        }
    }
}

/// The operator applied to the image data before it is encoded.
#[derive(Clone, Copy, Debug, PartialEq, Eq, Structural)]
pub enum Predictor {
    NoPrediction,
    Horizontal,
}

impl Predictor {
    /// The numeric code of the value.
    pub open spec fn spec_repr(self) -> u32 {
        match self {
            Predictor::NoPrediction => 1,
            Predictor::Horizontal => 2,
        }
    }

    /// The value that a numeric code stands for, if it stands for one.
    pub open spec fn spec_from_repr(discriminant: u32) -> Option<Predictor> {
        if discriminant == 1 {
            Some(Predictor::NoPrediction)
        } else if discriminant == 2 {
            Some(Predictor::Horizontal)
        } else {
            None
        }
    }

    /// The numeric code of the value.
    pub fn repr(&self) -> (v: u32)
        ensures
            v == self.spec_repr(),
    {
        match self {
            Predictor::NoPrediction => 1,
            Predictor::Horizontal => 2,
        }
    }

    /// Resolves a numeric code. A code outside the table gives `None`.
    pub fn from_repr(discriminant: u32) -> (r: Option<Predictor>)
        ensures
            r == Predictor::spec_from_repr(discriminant),
            r matches Some(value) ==> value.spec_repr() == discriminant,
            r is None ==> forall|value: Predictor| value.spec_repr() != discriminant,
    {
        match discriminant {
            1 => Some(Predictor::NoPrediction),
            2 => Some(Predictor::Horizontal),
            _ => None,
        }
    }
}

/// The unit in which the resolution is measured.
#[derive(Clone, Copy, Debug, PartialEq, Eq, Structural)]
pub enum ResolutionUnit {
    NoAbsoluteUnit,
    Inch,
    Centimeter,
}

impl ResolutionUnit {
    /// The numeric code of the value.
    pub open spec fn spec_repr(self) -> u32 {
        match self {
            ResolutionUnit::NoAbsoluteUnit => 1,
            ResolutionUnit::Inch => 2,
            ResolutionUnit::Centimeter => 3,
        }
    }

    /// The value that a numeric code stands for, if it stands for one.
    pub open spec fn spec_from_repr(discriminant: u32) -> Option<ResolutionUnit> {
        if discriminant == 1 {
            Some(ResolutionUnit::NoAbsoluteUnit)
        } else if discriminant == 2 {
            Some(ResolutionUnit::Inch)
        } else if discriminant == 3 {
            Some(ResolutionUnit::Centimeter)
        } else {
            None
        }
    }

    /// The numeric code of the value.
    pub fn repr(&self) -> (v: u32)
        ensures
            v == self.spec_repr(),
    {
        match self {
            ResolutionUnit::NoAbsoluteUnit => 1,
            ResolutionUnit::Inch => 2,
            ResolutionUnit::Centimeter => 3,
        }
    }

    /// Resolves a numeric code. A code outside the table gives `None`.
    pub fn from_repr(discriminant: u32) -> (r: Option<ResolutionUnit>)
        ensures
            r == ResolutionUnit::spec_from_repr(discriminant),
            r matches Some(value) ==> value.spec_repr() == discriminant,
            r is None ==> forall|value: ResolutionUnit| value.spec_repr() != discriminant,
    {
        match discriminant {
            1 => Some(ResolutionUnit::NoAbsoluteUnit),
            2 => Some(ResolutionUnit::Inch),
            3 => Some(ResolutionUnit::Centimeter),
            _ => None,
        }
    }
}

/// How each data sample in a pixel is to be read.
#[derive(Clone, Copy, Debug, PartialEq, Eq, Structural)]
pub enum SampleFormat {
    UnsignedInteger,
    Signed2Compliment,
    FloatIEEE,
    Undefined,
}

impl SampleFormat {
    /// The numeric code of the value.
    pub open spec fn spec_repr(self) -> u32 {
        match self {
            SampleFormat::UnsignedInteger => 1,
            SampleFormat::Signed2Compliment => 2,
            SampleFormat::FloatIEEE => 3,
            SampleFormat::Undefined => 4,
        }
    }

    /// The value that a numeric code stands for, if it stands for one.
    pub open spec fn spec_from_repr(discriminant: u32) -> Option<SampleFormat> {
        if discriminant == 1 {
            Some(SampleFormat::UnsignedInteger)
        } else if discriminant == 2 {
            Some(SampleFormat::Signed2Compliment)
        } else if discriminant == 3 {
            Some(SampleFormat::FloatIEEE)
        } else if discriminant == 4 {
            Some(SampleFormat::Undefined)
        } else {
            None
        }
    }

    /// The numeric code of the value.
    pub fn repr(&self) -> (v: u32)
        ensures
            v == self.spec_repr(),
    {
        match self {
            SampleFormat::UnsignedInteger => 1,
            SampleFormat::Signed2Compliment => 2,
            SampleFormat::FloatIEEE => 3,
            SampleFormat::Undefined => 4,
        }
    }

    /// Resolves a numeric code. A code outside the table gives `None`.
    pub fn from_repr(discriminant: u32) -> (r: Option<SampleFormat>)
        ensures
            r == SampleFormat::spec_from_repr(discriminant),
            r matches Some(value) ==> value.spec_repr() == discriminant,
            r is None ==> forall|value: SampleFormat| value.spec_repr() != discriminant,
    {
        match discriminant {
            1 => Some(SampleFormat::UnsignedInteger),
            2 => Some(SampleFormat::Signed2Compliment),
            3 => Some(SampleFormat::FloatIEEE),
            4 => Some(SampleFormat::Undefined),
            _ => None,
        }
    }
}

/// The kind of data in a subfile.
#[derive(Clone, Copy, Debug, PartialEq, Eq, Structural)]
pub enum SubfileType {
    Standard,
    ReducedResolution,
    MultiPage,
    TransparencyMask,
}

impl SubfileType {
    /// The numeric code of the value.
    pub open spec fn spec_repr(self) -> u32 {
        match self {
            SubfileType::Standard => 0,
            SubfileType::ReducedResolution => 1,
            SubfileType::MultiPage => 2,
            SubfileType::TransparencyMask => 4,
        }
    }

    /// The value that a numeric code stands for, if it stands for one.
    pub open spec fn spec_from_repr(discriminant: u32) -> Option<SubfileType> {
        if discriminant == 0 {
            Some(SubfileType::Standard)
        } else if discriminant == 1 {
            Some(SubfileType::ReducedResolution)
        } else if discriminant == 2 {
            Some(SubfileType::MultiPage)
        } else if discriminant == 4 {
            Some(SubfileType::TransparencyMask)
        } else {
            None
        }
    }

    /// The numeric code of the value.
    pub fn repr(&self) -> (v: u32)
        ensures
            v == self.spec_repr(),
    {
        match self {
            SubfileType::Standard => 0,
            SubfileType::ReducedResolution => 1,
            SubfileType::MultiPage => 2,
            SubfileType::TransparencyMask => 4,
        }
    }

    /// Resolves a numeric code. A code outside the table gives `None`.
    pub fn from_repr(discriminant: u32) -> (r: Option<SubfileType>)
        ensures
            r == SubfileType::spec_from_repr(discriminant),
            r matches Some(value) ==> value.spec_repr() == discriminant,
            r is None ==> forall|value: SubfileType| value.spec_repr() != discriminant,
    {
        match discriminant {
            0 => Some(SubfileType::Standard),
            1 => Some(SubfileType::ReducedResolution),
            2 => Some(SubfileType::MultiPage),
            4 => Some(SubfileType::TransparencyMask),
            _ => None,
        }
    }
}

/// The kind of model coordinate system of a GeoTIFF file.
#[derive(Clone, Copy, Debug, PartialEq, Eq, Structural)]
pub enum ModelTypeCode {
    Projected,
    Geographic,
    Geocentric,
}

impl ModelTypeCode {
    /// The numeric code of the value.
    pub open spec fn spec_repr(self) -> u64 {
        match self {
            ModelTypeCode::Projected => 1,
            ModelTypeCode::Geographic => 2,
            ModelTypeCode::Geocentric => 3,
        }
    }

    /// The value that a numeric code stands for, if it stands for one.
    pub open spec fn spec_from_repr(discriminant: u64) -> Option<ModelTypeCode> {
        if discriminant == 1 {
            Some(ModelTypeCode::Projected)
        } else if discriminant == 2 {
            Some(ModelTypeCode::Geographic)
        } else if discriminant == 3 {
            Some(ModelTypeCode::Geocentric)
        } else {
            None
        }
    }

    /// The numeric code of the value.
    pub fn repr(&self) -> (v: u64)
        ensures
            v == self.spec_repr(),
    {
        match self {
            ModelTypeCode::Projected => 1,
            ModelTypeCode::Geographic => 2,
            ModelTypeCode::Geocentric => 3,
        }
    }

    /// Resolves a numeric code. A code outside the table gives `None`.
    pub fn from_repr(discriminant: u64) -> (r: Option<ModelTypeCode>)
        ensures
            r == ModelTypeCode::spec_from_repr(discriminant),
            r matches Some(value) ==> value.spec_repr() == discriminant,
            r is None ==> forall|value: ModelTypeCode| value.spec_repr() != discriminant,
    {
        match discriminant {
            1 => Some(ModelTypeCode::Projected),
            2 => Some(ModelTypeCode::Geographic),
            3 => Some(ModelTypeCode::Geocentric),
            _ => None,
        }
    }
}

} // verus!
