//! File formats, each named by a four-character code.
use vstd::prelude::*;

verus! {

/// Packs four bytes into one number, the first byte in the highest place.
pub open spec fn four_cc(a: u8, b: u8, c: u8, d: u8) -> int {
    a * 0x100_0000 + b * 0x1_0000 + c * 0x100 + d
}

/// A file format that the toolkit knows.
#[allow(clippy::upper_case_acronyms)]
#[derive(Clone, Copy, Debug, PartialEq, Eq, Hash, Structural)]
pub enum FileType {
    /// PDF.
    PDF,
    /// General PostScript following DSC conventions.
    PS,
    /// Encapsulated PostScript.
    EPS,
    /// JPEG.
    JPEG,
    /// JPEG 2000, ISO 15444-1.
    JPEG2K,
    /// TIFF.
    TIFF,
    /// GIF.
    GIF,
    /// PNG.
    PNG,
    /// WebP.
    WEBP,
    /// Flash.
    SWF,
    /// Flash authoring.
    FLA,
    /// Flash video.
    FLV,
    /// QuickTime.
    MOV,
    /// AVI.
    AVI,
    /// Cineon.
    CIN,
    /// WAV.
    WAV,
    /// MP3.
    MP3,
    /// Audition session.
    SES,
    /// Audition loop.
    CEL,
    /// MPEG.
    MPEG,
    /// MPEG-2.
    MPEG2,
    /// MPEG-4, ISO 14496-12 and -14.
    MPEG4,
    /// Windows Media audio and video.
    WMAV,
    /// AIFF.
    AIFF,
    /// HTML.
    HTML,
    /// XML.
    XML,
    /// Plain text.
    TEXT,
    /// Photoshop.
    Photoshop,
    /// Illustrator.
    Illustrator,
    /// InDesign.
    InDesign,
    /// After Effects project.
    AEProject,
    /// After Effects project template.
    AEProjTemplate,
    /// After Effects filter preset.
    AEFilterPreset,
    /// Encore project.
    EncoreProject,
    /// Premiere project.
    PremiereProject,
    /// Premiere title.
    PremiereTitle,
    /// UCF.
    UCFFile,
    /// Any other format.
    Unknown,
}

impl FileType {
    /// The four characters that name the format, as bytes.
    pub open spec fn spec_tag(self) -> (u8, u8, u8, u8) {
        match self {
            FileType::PDF => (80u8, 68u8, 70u8, 32u8),
            FileType::PS => (80u8, 83u8, 32u8, 32u8),
            FileType::EPS => (69u8, 80u8, 83u8, 32u8),
            FileType::JPEG => (74u8, 80u8, 69u8, 71u8),
            FileType::JPEG2K => (74u8, 80u8, 88u8, 32u8),
            FileType::TIFF => (84u8, 73u8, 70u8, 70u8),
            FileType::GIF => (71u8, 73u8, 70u8, 32u8),
            FileType::PNG => (80u8, 78u8, 71u8, 32u8),
            FileType::WEBP => (87u8, 69u8, 66u8, 80u8),
            FileType::SWF => (83u8, 87u8, 70u8, 32u8),
            FileType::FLA => (70u8, 76u8, 65u8, 32u8),
            FileType::FLV => (70u8, 76u8, 86u8, 32u8),
            FileType::MOV => (77u8, 79u8, 86u8, 32u8),
            FileType::AVI => (65u8, 86u8, 73u8, 32u8),
            FileType::CIN => (67u8, 73u8, 78u8, 32u8),
            FileType::WAV => (87u8, 65u8, 86u8, 32u8),
            FileType::MP3 => (77u8, 80u8, 51u8, 32u8),
            FileType::SES => (83u8, 69u8, 83u8, 32u8),
            FileType::CEL => (67u8, 69u8, 76u8, 32u8),
            FileType::MPEG => (77u8, 80u8, 69u8, 71u8),
            FileType::MPEG2 => (77u8, 80u8, 50u8, 32u8),
            FileType::MPEG4 => (77u8, 80u8, 52u8, 32u8),
            FileType::WMAV => (87u8, 77u8, 65u8, 86u8),
            FileType::AIFF => (65u8, 73u8, 70u8, 70u8),
            FileType::HTML => (72u8, 84u8, 77u8, 76u8),
            FileType::XML => (88u8, 77u8, 76u8, 32u8),
            FileType::TEXT => (116u8, 101u8, 120u8, 116u8),
            FileType::Photoshop => (80u8, 83u8, 68u8, 32u8),
            FileType::Illustrator => (65u8, 73u8, 32u8, 32u8),
            FileType::InDesign => (73u8, 78u8, 68u8, 68u8),
            FileType::AEProject => (65u8, 69u8, 80u8, 32u8),
            FileType::AEProjTemplate => (65u8, 69u8, 84u8, 32u8),
            FileType::AEFilterPreset => (70u8, 70u8, 88u8, 32u8),
            FileType::EncoreProject => (78u8, 67u8, 79u8, 82u8),
            FileType::PremiereProject => (80u8, 82u8, 80u8, 74u8),
            FileType::PremiereTitle => (80u8, 82u8, 84u8, 76u8),
            FileType::UCFFile => (85u8, 67u8, 70u8, 32u8),
            FileType::Unknown => (32u8, 32u8, 32u8, 32u8),
        }
    }

    /// The 32-bit code of the format: its four characters, packed with the
    /// first in the highest place.
    pub open spec fn spec_code(self) -> int {
        let t = self.spec_tag();
        four_cc(t.0, t.1, t.2, t.3)
    }

    /// The format that a code names; a code that names no format stands for
    /// the catch-all `Unknown`.
    pub open spec fn spec_from_code(code: int) -> FileType {
        if code == FileType::PDF.spec_code() {
            FileType::PDF
        } else if code == FileType::PS.spec_code() {
            FileType::PS
        } else if code == FileType::EPS.spec_code() {
            FileType::EPS
        } else if code == FileType::JPEG.spec_code() {
            FileType::JPEG
        } else if code == FileType::JPEG2K.spec_code() {
            FileType::JPEG2K
        } else if code == FileType::TIFF.spec_code() {
            FileType::TIFF
        } else if code == FileType::GIF.spec_code() {
            FileType::GIF
        } else if code == FileType::PNG.spec_code() {
            FileType::PNG
        } else if code == FileType::WEBP.spec_code() {
            FileType::WEBP
        } else if code == FileType::SWF.spec_code() {
            FileType::SWF
        } else if code == FileType::FLA.spec_code() {
            FileType::FLA
        } else if code == FileType::FLV.spec_code() {
            FileType::FLV
        } else if code == FileType::MOV.spec_code() {
            FileType::MOV
        } else if code == FileType::AVI.spec_code() {
            FileType::AVI
        } else if code == FileType::CIN.spec_code() {
            FileType::CIN
        } else if code == FileType::WAV.spec_code() {
            FileType::WAV
        } else if code == FileType::MP3.spec_code() {
            FileType::MP3
        } else if code == FileType::SES.spec_code() {
            FileType::SES
        } else if code == FileType::CEL.spec_code() {
            FileType::CEL
        } else if code == FileType::MPEG.spec_code() {
            FileType::MPEG
        } else if code == FileType::MPEG2.spec_code() {
            FileType::MPEG2
        } else if code == FileType::MPEG4.spec_code() {
            FileType::MPEG4
        } else if code == FileType::WMAV.spec_code() {
            FileType::WMAV
        } else if code == FileType::AIFF.spec_code() {
            FileType::AIFF
        } else if code == FileType::HTML.spec_code() {
            FileType::HTML
        } else if code == FileType::XML.spec_code() {
            FileType::XML
        } else if code == FileType::TEXT.spec_code() {
            FileType::TEXT
        } else if code == FileType::Photoshop.spec_code() {
            FileType::Photoshop
        } else if code == FileType::Illustrator.spec_code() {
            FileType::Illustrator
        } else if code == FileType::InDesign.spec_code() {
            FileType::InDesign
        } else if code == FileType::AEProject.spec_code() {
            FileType::AEProject
        } else if code == FileType::AEProjTemplate.spec_code() {
            FileType::AEProjTemplate
        } else if code == FileType::AEFilterPreset.spec_code() {
            FileType::AEFilterPreset
        } else if code == FileType::EncoreProject.spec_code() {
            FileType::EncoreProject
        } else if code == FileType::PremiereProject.spec_code() {
            FileType::PremiereProject
        } else if code == FileType::PremiereTitle.spec_code() {
            FileType::PremiereTitle
        } else if code == FileType::UCFFile.spec_code() {
            FileType::UCFFile
        } else {
            FileType::Unknown
        }
    }

    /// The 32-bit code of the format.
    pub fn code(self) -> (r: u32)
        ensures
            r == self.spec_code(),
    {
        match self {
            FileType::PDF => 0x5044_4620u32,
            FileType::PS => 0x5053_2020u32,
            FileType::EPS => 0x4550_5320u32,
            FileType::JPEG => 0x4A50_4547u32,
            FileType::JPEG2K => 0x4A50_5820u32,
            FileType::TIFF => 0x5449_4646u32,
            FileType::GIF => 0x4749_4620u32,
            FileType::PNG => 0x504E_4720u32,
            FileType::WEBP => 0x5745_4250u32,
            FileType::SWF => 0x5357_4620u32,
            FileType::FLA => 0x464C_4120u32,
            FileType::FLV => 0x464C_5620u32,
            FileType::MOV => 0x4D4F_5620u32,
            FileType::AVI => 0x4156_4920u32,
            FileType::CIN => 0x4349_4E20u32,
            FileType::WAV => 0x5741_5620u32,
            FileType::MP3 => 0x4D50_3320u32,
            FileType::SES => 0x5345_5320u32,
            FileType::CEL => 0x4345_4C20u32,
            FileType::MPEG => 0x4D50_4547u32,
            FileType::MPEG2 => 0x4D50_3220u32,
            FileType::MPEG4 => 0x4D50_3420u32,
            FileType::WMAV => 0x574D_4156u32,
            FileType::AIFF => 0x4149_4646u32,
            FileType::HTML => 0x4854_4D4Cu32,
            FileType::XML => 0x584D_4C20u32,
            FileType::TEXT => 0x7465_7874u32,
            FileType::Photoshop => 0x5053_4420u32,
            FileType::Illustrator => 0x4149_2020u32,
            FileType::InDesign => 0x494E_4444u32,
            FileType::AEProject => 0x4145_5020u32,
            FileType::AEProjTemplate => 0x4145_5420u32,
            FileType::AEFilterPreset => 0x4646_5820u32,
            FileType::EncoreProject => 0x4E43_4F52u32,
            FileType::PremiereProject => 0x5052_504Au32,
            FileType::PremiereTitle => 0x5052_544Cu32,
            FileType::UCFFile => 0x5543_4620u32,
            FileType::Unknown => 0x2020_2020u32,
        }
    }

    /// The format that a code from the native side names. This never fails:
    /// a code that names no format yields `Unknown`.
    pub fn from_code(code: u32) -> (r: FileType)
        ensures
            r == Self::spec_from_code(code as int),
            r != FileType::Unknown ==> r.spec_code() == code,
    {
        match code {
            0x5044_4620u32 => FileType::PDF,
            0x5053_2020u32 => FileType::PS,
            0x4550_5320u32 => FileType::EPS,
            0x4A50_4547u32 => FileType::JPEG,
            0x4A50_5820u32 => FileType::JPEG2K,
            0x5449_4646u32 => FileType::TIFF,
            0x4749_4620u32 => FileType::GIF,
            0x504E_4720u32 => FileType::PNG,
            0x5745_4250u32 => FileType::WEBP,
            0x5357_4620u32 => FileType::SWF,
            0x464C_4120u32 => FileType::FLA,
            0x464C_5620u32 => FileType::FLV,
            0x4D4F_5620u32 => FileType::MOV,
            0x4156_4920u32 => FileType::AVI,
            0x4349_4E20u32 => FileType::CIN,
            0x5741_5620u32 => FileType::WAV,
            0x4D50_3320u32 => FileType::MP3,
            0x5345_5320u32 => FileType::SES,
            0x4345_4C20u32 => FileType::CEL,
            0x4D50_4547u32 => FileType::MPEG,
            0x4D50_3220u32 => FileType::MPEG2,
            0x4D50_3420u32 => FileType::MPEG4,
            0x574D_4156u32 => FileType::WMAV,
            0x4149_4646u32 => FileType::AIFF,
            0x4854_4D4Cu32 => FileType::HTML,
            0x584D_4C20u32 => FileType::XML,
            0x7465_7874u32 => FileType::TEXT,
            0x5053_4420u32 => FileType::Photoshop,
            0x4149_2020u32 => FileType::Illustrator,
            0x494E_4444u32 => FileType::InDesign,
            0x4145_5020u32 => FileType::AEProject,
            0x4145_5420u32 => FileType::AEProjTemplate,
            0x4646_5820u32 => FileType::AEFilterPreset,
            0x4E43_4F52u32 => FileType::EncoreProject,
            0x5052_504Au32 => FileType::PremiereProject,
            0x5052_544Cu32 => FileType::PremiereTitle,
            0x5543_4620u32 => FileType::UCFFile,
            _ => FileType::Unknown,
        }
    }
}

/// No two formats share a code: mapping the code of a format back yields
/// that format.
pub proof fn lemma_file_type_round_trip(t: FileType)
    ensures
        FileType::spec_from_code(t.spec_code()) == t,
{
}

} // verus!
