//! Error kinds reported by the native XMP toolkit, and the mapping between
//! them and the integer codes that cross the native boundary.
use vstd::prelude::*;
use vstd::string::StringExecFns;

verus! {

/// One kind of failure, as the native toolkit classifies it.
#[allow(clippy::upper_case_acronyms)]
#[derive(Clone, Copy, Debug, PartialEq, Eq, Hash, Structural)]
pub enum XmpError {
    /// Generic unknown error.
    Unknown,
    /// Generic undefined error.
    TBD,
    /// Generic unavailable error.
    Unavailable,
    /// Generic bad object error.
    BadObject,
    /// Generic bad parameter error.
    BadParam,
    /// Generic bad value error.
    BadValue,
    /// Generic assertion failure.
    AssertFailure,
    /// Generic enforcement failure.
    EnforceFailure,
    /// Generic unimplemented error.
    Unimplemented,
    /// Generic internal failure.
    InternalFailure,
    /// Generic deprecated error.
    Deprecated,
    /// Generic external failure.
    ExternalFailure,
    /// Generic user abort error.
    UserAbort,
    /// Generic standard exception.
    StdException,
    /// Generic unknown exception.
    UnknownException,
    /// Generic out-of-memory error.
    NoMemory,
    /// Bad schema parameter.
    BadSchema,
    /// Bad XPath parameter.
    BadXPath,
    /// Bad options parameter.
    BadOptions,
    /// Bad index parameter.
    BadIndex,
    /// Bad iteration position.
    BadIterPosition,
    /// XML parsing error.
    BadParse,
    /// Serialization error.
    BadSerialize,
    /// File format error.
    BadFileFormat,
    /// No file handler found for format.
    NoFileHandler,
    /// Data too large for JPEG file format.
    TooLargeForJPEG,
    /// XML format error.
    BadXML,
    /// RDF format error.
    BadRDF,
    /// XMP format error.
    BadXMP,
    /// Empty iterator.
    EmptyIterator,
    /// Unicode error.
    BadUnicode,
    /// TIFF format error.
    BadTIFF,
    /// JPEG format error.
    BadJPEG,
    /// PSD format error.
    BadPSD,
    /// PSIR format error.
    BadPSIR,
    /// IPTC format error.
    BadIPTC,
    /// MPEG format error.
    BadMPEG,
}

/// Whether `code` is one of the integers the native toolkit assigns to an
/// error kind: the generic block `-15..=0`, the parameter block `-110..=-101`
/// and the structure block `-211..=-201`.
pub open spec fn is_known_code(code: int) -> bool {
    -15 <= code <= 0 || -110 <= code <= -101 || -211 <= code <= -201
}

impl XmpError {
    /// The integer the native toolkit uses for this kind.
    pub open spec fn spec_code(self) -> int {
        match self {
            XmpError::Unknown => 0,
            XmpError::TBD => -1,
            XmpError::Unavailable => -2,
            XmpError::BadObject => -3,
            XmpError::BadParam => -4,
            XmpError::BadValue => -5,
            XmpError::AssertFailure => -6,
            XmpError::EnforceFailure => -7,
            XmpError::Unimplemented => -8,
            XmpError::InternalFailure => -9,
            XmpError::Deprecated => -10,
            XmpError::ExternalFailure => -11,
            XmpError::UserAbort => -12,
            XmpError::StdException => -13,
            XmpError::UnknownException => -14,
            XmpError::NoMemory => -15,
            XmpError::BadSchema => -101,
            XmpError::BadXPath => -102,
            XmpError::BadOptions => -103,
            XmpError::BadIndex => -104,
            XmpError::BadIterPosition => -105,
            XmpError::BadParse => -106,
            XmpError::BadSerialize => -107,
            XmpError::BadFileFormat => -108,
            XmpError::NoFileHandler => -109,
            XmpError::TooLargeForJPEG => -110,
            XmpError::BadXML => -201,
            XmpError::BadRDF => -202,
            XmpError::BadXMP => -203,
            XmpError::EmptyIterator => -204,
            XmpError::BadUnicode => -205,
            XmpError::BadTIFF => -206,
            XmpError::BadJPEG => -207,
            XmpError::BadPSD => -208,
            XmpError::BadPSIR => -209,
            XmpError::BadIPTC => -210,
            XmpError::BadMPEG => -211,
        }
    }

    /// The kind a native code stands for. Codes outside the three known
    /// blocks collapse to the undefined kind `TBD`.
    pub open spec fn spec_from_code(code: int) -> XmpError {
        if code == 0 {
            XmpError::Unknown
        } else if code == -1 {
            XmpError::TBD
        } else if code == -2 {
            XmpError::Unavailable
        } else if code == -3 {
            XmpError::BadObject
        } else if code == -4 {
            XmpError::BadParam
        } else if code == -5 {
            XmpError::BadValue
        } else if code == -6 {
            XmpError::AssertFailure
        } else if code == -7 {
            XmpError::EnforceFailure
        } else if code == -8 {
            XmpError::Unimplemented
        } else if code == -9 {
            XmpError::InternalFailure
        } else if code == -10 {
            XmpError::Deprecated
        } else if code == -11 {
            XmpError::ExternalFailure
        } else if code == -12 {
            XmpError::UserAbort
        } else if code == -13 {
            XmpError::StdException
        } else if code == -14 {
            XmpError::UnknownException
        } else if code == -15 {
            XmpError::NoMemory
        } else if code == -101 {
            XmpError::BadSchema
        } else if code == -102 {
            XmpError::BadXPath
        } else if code == -103 {
            XmpError::BadOptions
        } else if code == -104 {
            XmpError::BadIndex
        } else if code == -105 {
            XmpError::BadIterPosition
        } else if code == -106 {
            XmpError::BadParse
        } else if code == -107 {
            XmpError::BadSerialize
        } else if code == -108 {
            XmpError::BadFileFormat
        } else if code == -109 {
            XmpError::NoFileHandler
        } else if code == -110 {
            XmpError::TooLargeForJPEG
        } else if code == -201 {
            XmpError::BadXML
        } else if code == -202 {
            XmpError::BadRDF
        } else if code == -203 {
            XmpError::BadXMP
        } else if code == -204 {
            XmpError::EmptyIterator
        } else if code == -205 {
            XmpError::BadUnicode
        } else if code == -206 {
            XmpError::BadTIFF
        } else if code == -207 {
            XmpError::BadJPEG
        } else if code == -208 {
            XmpError::BadPSD
        } else if code == -209 {
            XmpError::BadPSIR
        } else if code == -210 {
            XmpError::BadIPTC
        } else if code == -211 {
            XmpError::BadMPEG
        } else {
            XmpError::TBD
        }
    }

    /// The integer the native toolkit uses for this kind.
    pub fn code(self) -> (r: i32)
        ensures
            r == self.spec_code(),
            is_known_code(r as int),
    {
        match self {
            XmpError::Unknown => 0,
            XmpError::TBD => -1,
            XmpError::Unavailable => -2,
            XmpError::BadObject => -3,
            XmpError::BadParam => -4,
            XmpError::BadValue => -5,
            XmpError::AssertFailure => -6,
            XmpError::EnforceFailure => -7,
            XmpError::Unimplemented => -8,
            XmpError::InternalFailure => -9,
            XmpError::Deprecated => -10,
            XmpError::ExternalFailure => -11,
            XmpError::UserAbort => -12,
            XmpError::StdException => -13,
            XmpError::UnknownException => -14,
            XmpError::NoMemory => -15,
            XmpError::BadSchema => -101,
            XmpError::BadXPath => -102,
            XmpError::BadOptions => -103,
            XmpError::BadIndex => -104,
            XmpError::BadIterPosition => -105,
            XmpError::BadParse => -106,
            XmpError::BadSerialize => -107,
            XmpError::BadFileFormat => -108,
            XmpError::NoFileHandler => -109,
            XmpError::TooLargeForJPEG => -110,
            XmpError::BadXML => -201,
            XmpError::BadRDF => -202,
            XmpError::BadXMP => -203,
            XmpError::EmptyIterator => -204,
            XmpError::BadUnicode => -205,
            XmpError::BadTIFF => -206,
            XmpError::BadJPEG => -207,
            XmpError::BadPSD => -208,
            XmpError::BadPSIR => -209,
            XmpError::BadIPTC => -210,
            XmpError::BadMPEG => -211,
        }
    }

    /// Maps a native code to its kind, never failing: a code that no kind
    /// owns yields `TBD`.
    pub fn from_code(code: i32) -> (r: XmpError)
        ensures
            r == Self::spec_from_code(code as int),
            is_known_code(code as int) ==> r.spec_code() == code,
            !is_known_code(code as int) ==> r == XmpError::TBD,
    {
        match code {
            0 => XmpError::Unknown,
            -1 => XmpError::TBD,
            -2 => XmpError::Unavailable,
            -3 => XmpError::BadObject,
            -4 => XmpError::BadParam,
            -5 => XmpError::BadValue,
            -6 => XmpError::AssertFailure,
            -7 => XmpError::EnforceFailure,
            -8 => XmpError::Unimplemented,
            -9 => XmpError::InternalFailure,
            -10 => XmpError::Deprecated,
            -11 => XmpError::ExternalFailure,
            -12 => XmpError::UserAbort,
            -13 => XmpError::StdException,
            -14 => XmpError::UnknownException,
            -15 => XmpError::NoMemory,
            -101 => XmpError::BadSchema,
            -102 => XmpError::BadXPath,
            -103 => XmpError::BadOptions,
            -104 => XmpError::BadIndex,
            -105 => XmpError::BadIterPosition,
            -106 => XmpError::BadParse,
            -107 => XmpError::BadSerialize,
            -108 => XmpError::BadFileFormat,
            -109 => XmpError::NoFileHandler,
            -110 => XmpError::TooLargeForJPEG,
            -201 => XmpError::BadXML,
            -202 => XmpError::BadRDF,
            -203 => XmpError::BadXMP,
            -204 => XmpError::EmptyIterator,
            -205 => XmpError::BadUnicode,
            -206 => XmpError::BadTIFF,
            -207 => XmpError::BadJPEG,
            -208 => XmpError::BadPSD,
            -209 => XmpError::BadPSIR,
            -210 => XmpError::BadIPTC,
            -211 => XmpError::BadMPEG,
            _ => XmpError::TBD,
        }
    }
}

/// Every kind has a code in one of the known blocks, and mapping that code
/// back yields the same kind.
pub proof fn lemma_code_round_trip(e: XmpError)
    ensures
        is_known_code(e.spec_code()),
        XmpError::spec_from_code(e.spec_code()) == e,
{
}

/// A code in a known block maps to the kind that owns exactly that code; any
/// other code maps to `TBD`.
pub proof fn lemma_from_code_total(code: int)
    ensures
        is_known_code(code) ==> XmpError::spec_from_code(code).spec_code() == code,
        !is_known_code(code) ==> XmpError::spec_from_code(code) == XmpError::TBD,
{
}

/// A failure of an XMP operation.
#[derive(Clone, Copy, Debug, PartialEq, Eq, Hash, Structural)]
pub struct Error(pub XmpError);

impl vstd::std_specs::convert::FromSpecImpl<XmpError> for Error {
    open spec fn obeys_from_spec() -> bool {
        true
    }

    open spec fn from_spec(e: XmpError) -> Error {
        Error(e)
    }
}

impl From<XmpError> for Error {
    fn from(e: XmpError) -> (r: Error)
        ensures
            r == Error(e),
    {
        Error(e)
    }
}

impl Error {
    /// The kind of this failure.
    pub fn kind(&self) -> (r: XmpError)
        ensures
            r == self.0,
    {
        self.0
    }

    /// The native code of this failure.
    pub fn code(&self) -> (r: i32)
        ensures
            r == self.0.spec_code(),
    {
        self.0.code()
    }
}

/// The character of one decimal digit.
pub open spec fn digit(d: int) -> char {
    if d == 0 {
        '0'
    } else if d == 1 {
        '1'
    } else if d == 2 {
        '2'
    } else if d == 3 {
        '3'
    } else if d == 4 {
        '4'
    } else if d == 5 {
        '5'
    } else if d == 6 {
        '6'
    } else if d == 7 {
        '7'
    } else if d == 8 {
        '8'
    } else {
        '9'
    }
}

/// The decimal digits of a natural number, without leading zeros.
pub open spec fn digits(n: nat) -> Seq<char>
    decreases n,
{
    if n < 10 {
        seq![digit(n as int)]
    } else {
        digits(n / 10).push(digit((n % 10) as int))
    }
}

/// An integer in decimal, with a minus sign if it is negative.
pub open spec fn decimal(n: int) -> Seq<char> {
    if n < 0 {
        seq!['-'] + digits((-n) as nat)
    } else {
        digits(n as nat)
    }
}

impl XmpError {
    /// The kind as text.
    pub open spec fn spec_text(self) -> Seq<char> {
        match self {
            XmpError::Unknown => "0"@,
            XmpError::TBD => "-1"@,
            XmpError::Unavailable => "-2"@,
            XmpError::BadObject => "-3"@,
            XmpError::BadParam => "-4"@,
            XmpError::BadValue => "-5"@,
            XmpError::AssertFailure => "-6"@,
            XmpError::EnforceFailure => "-7"@,
            XmpError::Unimplemented => "-8"@,
            XmpError::InternalFailure => "-9"@,
            XmpError::Deprecated => "-10"@,
            XmpError::ExternalFailure => "-11"@,
            XmpError::UserAbort => "-12"@,
            XmpError::StdException => "-13"@,
            XmpError::UnknownException => "-14"@,
            XmpError::NoMemory => "-15"@,
            XmpError::BadSchema => "-101"@,
            XmpError::BadXPath => "-102"@,
            XmpError::BadOptions => "-103"@,
            XmpError::BadIndex => "-104"@,
            XmpError::BadIterPosition => "-105"@,
            XmpError::BadParse => "-106"@,
            XmpError::BadSerialize => "-107"@,
            XmpError::BadFileFormat => "-108"@,
            XmpError::NoFileHandler => "-109"@,
            XmpError::TooLargeForJPEG => "-110"@,
            XmpError::BadXML => "-201"@,
            XmpError::BadRDF => "-202"@,
            XmpError::BadXMP => "-203"@,
            XmpError::EmptyIterator => "-204"@,
            XmpError::BadUnicode => "-205"@,
            XmpError::BadTIFF => "-206"@,
            XmpError::BadJPEG => "-207"@,
            XmpError::BadPSD => "-208"@,
            XmpError::BadPSIR => "-209"@,
            XmpError::BadIPTC => "-210"@,
            XmpError::BadMPEG => "-211"@,
        }
    }

    /// The kind as text: its native code in decimal.
    pub fn as_str(self) -> (r: &'static str)
        ensures
            r@ == self.spec_text(),
            r@ == decimal(self.spec_code()),
    {
        proof {
            lemma_text_is_decimal(self);
        }
        match self {
            XmpError::Unknown => "0",
            XmpError::TBD => "-1",
            XmpError::Unavailable => "-2",
            XmpError::BadObject => "-3",
            XmpError::BadParam => "-4",
            XmpError::BadValue => "-5",
            XmpError::AssertFailure => "-6",
            XmpError::EnforceFailure => "-7",
            XmpError::Unimplemented => "-8",
            XmpError::InternalFailure => "-9",
            XmpError::Deprecated => "-10",
            XmpError::ExternalFailure => "-11",
            XmpError::UserAbort => "-12",
            XmpError::StdException => "-13",
            XmpError::UnknownException => "-14",
            XmpError::NoMemory => "-15",
            XmpError::BadSchema => "-101",
            XmpError::BadXPath => "-102",
            XmpError::BadOptions => "-103",
            XmpError::BadIndex => "-104",
            XmpError::BadIterPosition => "-105",
            XmpError::BadParse => "-106",
            XmpError::BadSerialize => "-107",
            XmpError::BadFileFormat => "-108",
            XmpError::NoFileHandler => "-109",
            XmpError::TooLargeForJPEG => "-110",
            XmpError::BadXML => "-201",
            XmpError::BadRDF => "-202",
            XmpError::BadXMP => "-203",
            XmpError::EmptyIterator => "-204",
            XmpError::BadUnicode => "-205",
            XmpError::BadTIFF => "-206",
            XmpError::BadJPEG => "-207",
            XmpError::BadPSD => "-208",
            XmpError::BadPSIR => "-209",
            XmpError::BadIPTC => "-210",
            XmpError::BadMPEG => "-211",
        }
    }
}

/// The text of every kind is its native code, written in decimal.
pub proof fn lemma_text_is_decimal(e: XmpError)
    ensures
        e.spec_text() == decimal(e.spec_code()),
{
    reveal_with_fuel(digits, 3);
    reveal_strlit("0");
    reveal_strlit("-1");
    reveal_strlit("-2");
    reveal_strlit("-3");
    reveal_strlit("-4");
    reveal_strlit("-5");
    reveal_strlit("-6");
    reveal_strlit("-7");
    reveal_strlit("-8");
    reveal_strlit("-9");
    reveal_strlit("-10");
    reveal_strlit("-11");
    reveal_strlit("-12");
    reveal_strlit("-13");
    reveal_strlit("-14");
    reveal_strlit("-15");
    reveal_strlit("-101");
    reveal_strlit("-102");
    reveal_strlit("-103");
    reveal_strlit("-104");
    reveal_strlit("-105");
    reveal_strlit("-106");
    reveal_strlit("-107");
    reveal_strlit("-108");
    reveal_strlit("-109");
    reveal_strlit("-110");
    reveal_strlit("-201");
    reveal_strlit("-202");
    reveal_strlit("-203");
    reveal_strlit("-204");
    reveal_strlit("-205");
    reveal_strlit("-206");
    reveal_strlit("-207");
    reveal_strlit("-208");
    reveal_strlit("-209");
    reveal_strlit("-210");
    reveal_strlit("-211");
    assert(e.spec_text() =~= decimal(e.spec_code()));
}

impl Error {
    /// The failure as text: its native code in decimal.
    pub fn to_string(&self) -> (r: String)
        ensures
            r@ == decimal(self.0.spec_code()),
    {
        String::from_str(self.0.as_str())
    }
}

/// Turns the last-error code read from the native toolkit into a typed error.
///
/// The code must be read on the thread that made the failing call, right
/// after it; a code that no kind owns becomes `TBD`.
pub fn get_error(code: i32) -> (r: Error)
    ensures
        r == Error(XmpError::spec_from_code(code as int)),
{
    Error::from(XmpError::from_code(code))
}

} // verus!
