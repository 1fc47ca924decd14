//! The two choices a caller makes: which generator to run and how to render its value.
use vstd::prelude::*;
use vstd::string::StrSliceExecFns;

use crate::text::decimal;
use crate::uuid::UUIDType;

verus! {

/// How a value is rendered.
#[derive(Clone, Copy, Debug, PartialEq, Eq, Structural)]
pub enum OutputFormat {
    /// Canonical hyphenated hexadecimal.
    STR,
    /// Single integer value, in decimal.
    SIV,
}

/// Which generator makes a value. Versions 2, 3 and 5 are accepted and made as version 4.
#[derive(Clone, Copy, Debug, PartialEq, Eq, Structural)]
pub enum UuidVersion {
    V0,
    V1,
    V2,
    V3,
    V4,
    V5,
}

/// What `str::to_lowercase` makes of a text.
pub uninterp spec fn lower_of(s: Seq<char>) -> Seq<char>;

/// What `str::trim` makes of a text.
pub uninterp spec fn trim_of(s: Seq<char>) -> Seq<char>;

/// Relies on `str::to_lowercase`: the lowercase mapping of the text.
#[verifier::external_body]
fn lowercase(s: &str) -> (r: String)
    ensures
        r@ == lower_of(s@),
{
    s.to_lowercase()
}

/// Relies on `str::trim`: the text without leading and trailing whitespace.
#[verifier::external_body]
fn trimmed(s: &str) -> (r: &str)
    ensures
        r@ == trim_of(s@),
{
    s.trim()
}

/// The token as it is compared: lowercased, then trimmed.
pub open spec fn normalized(s: Seq<char>) -> Seq<char> {
    trim_of(lower_of(s))
}

/// The format that a normalized token names; `Err(-1)` for any other token.
pub open spec fn format_of_token(t: Seq<char>) -> Result<OutputFormat, i32> {
    if t == "str"@ {
        Ok(OutputFormat::STR)
    } else if t == "siv"@ {
        Ok(OutputFormat::SIV)
    } else {
        Err(-1i32)
    }
}

/// The version that a normalized token names; `Err(-1)` for any other token.
pub open spec fn version_of_token(t: Seq<char>) -> Result<UuidVersion, i32> {
    if t == "0"@ || t == "nil"@ {
        Ok(UuidVersion::V0)
    } else if t == "1"@ || t == "mac"@ {
        Ok(UuidVersion::V1)
    } else if t == "2"@ || t == "dce"@ {
        Ok(UuidVersion::V2)
    } else if t == "3"@ || t == "md5"@ {
        Ok(UuidVersion::V3)
    } else if t == "4"@ || t == "random"@ {
        Ok(UuidVersion::V4)
    } else if t == "5"@ || t == "sha1"@ {
        Ok(UuidVersion::V5)
    } else {
        Err(-1i32)
    }
}

/// Whether two texts hold the same characters.
fn same_text(a: &str, b: &str) -> (r: bool)
    ensures
        r == (a@ == b@),
{
    let n = a.unicode_len();
    if n != b.unicode_len() {
        return false;
    }
    let mut i: usize = 0;
    while i < n
        invariant
            n == a@.len() == b@.len(),
            i <= n,
            forall|k: int| 0 <= k < i ==> a@[k] == b@[k],
        decreases n - i,
    {
        if a.get_char(i) != b.get_char(i) {
            return false;
        }
        i = i + 1;
    }
    assert(a@ =~= b@);
    true
}

impl OutputFormat {
    /// The format named by an already normalized token.
    pub fn from_token(t: &str) -> (r: Result<Self, i32>)
        ensures
            r == format_of_token(t@),
    {
        if same_text(t, "str") {
            Ok(OutputFormat::STR)
        } else if same_text(t, "siv") {
            Ok(OutputFormat::SIV)
        } else {
            Err(-1)
        }
    }

    /// The format named by `s`, compared without case and surrounding whitespace.
    pub fn parse(s: &str) -> (r: Result<Self, i32>)
        ensures
            r == format_of_token(normalized(s@)),
    {
        let lower = lowercase(s);
        Self::from_token(trimmed(lower.as_str()))
    }
}

impl UuidVersion {
    /// The version named by an already normalized token.
    pub fn from_token(t: &str) -> (r: Result<Self, i32>)
        ensures
            r == version_of_token(t@),
    {
        if same_text(t, "0") || same_text(t, "nil") {
            Ok(UuidVersion::V0)
        } else if same_text(t, "1") || same_text(t, "mac") {
            Ok(UuidVersion::V1)
        } else if same_text(t, "2") || same_text(t, "dce") {
            Ok(UuidVersion::V2)
        } else if same_text(t, "3") || same_text(t, "md5") {
            Ok(UuidVersion::V3)
        } else if same_text(t, "4") || same_text(t, "random") {
            Ok(UuidVersion::V4)
        } else if same_text(t, "5") || same_text(t, "sha1") {
            Ok(UuidVersion::V5)
        } else {
            Err(-1)
        }
    }

    /// The version named by `s`, compared without case and surrounding whitespace.
    pub fn parse(s: &str) -> (r: Result<Self, i32>)
        ensures
            r == version_of_token(normalized(s@)),
    {
        let lower = lowercase(s);
        Self::from_token(trimmed(lower.as_str()))
    }
}

impl std::str::FromStr for OutputFormat {
    type Err = i32;

    fn from_str(s: &str) -> Result<Self, i32> {
        Self::parse(s)
    }
}

impl std::str::FromStr for UuidVersion {
    type Err = i32;

    fn from_str(s: &str) -> Result<Self, i32> {
        Self::parse(s)
    }
}

/// The all-zero value.
pub open spec fn nil() -> UUIDType {
    UUIDType { time_low: 0, time_mid: 0, time_hi_and_version: 0, clk_seq_and_reserved: 0, node: 0 }
}

/// `u` is a possible outcome of the generator that `version` selects.
pub open spec fn made_by(u: UUIDType, version: UuidVersion) -> bool {
    u.wf() && match version {
        UuidVersion::V0 => u == nil(),
        UuidVersion::V1 => u.version() == 1 && u.variant_bits() == 2,
        _ => u.version() == 4 && u.variant_bits() == 2,
    }
}

/// The text of `u` in `format`.
pub open spec fn rendered(u: UUIDType, format: OutputFormat) -> Seq<char> {
    match format {
        OutputFormat::STR => u.canonical(),
        OutputFormat::SIV => decimal(u.siv()),
    }
}

/// `line` is the text in `format` of some possible outcome of the generator that
/// `version` selects.
pub open spec fn valid_line(line: Seq<char>, version: UuidVersion, format: OutputFormat) -> bool {
    exists|u: UUIDType| made_by(u, version) && line == rendered(u, format)
}

impl UUIDType {
    /// A new value from the generator that `version` selects: nil for version 0,
    /// time-based for version 1, random version 4 for every other.
    pub fn generate(version: UuidVersion) -> (r: Self)
        ensures
            made_by(r, version),
    {
        match version {
            UuidVersion::V0 => UUIDType::generate_v0_nil(),
            UuidVersion::V1 => UUIDType::generate_v1_time(),
            _ => UUIDType::generate_v4_random(),
        }
    }

    /// The value rendered in `format`.
    pub fn format(self, format: OutputFormat) -> (r: String)
        ensures
            r@ == rendered(self, format),
    {
        match format {
            OutputFormat::STR => self.to_string(),
            OutputFormat::SIV => self.to_siv_string(),
        }
    }
}

/// `count` newly generated values, one text each, in the order they were made.
pub fn generate_lines(count: u16, version: UuidVersion, format: OutputFormat) -> (r: Vec<String>)
    ensures
        r.len() == count,
        forall|i: int| 0 <= i < r.len() ==> valid_line(#[trigger] r[i]@, version, format),
{
    let mut lines: Vec<String> = Vec::new();
    let mut n: u16 = 0;
    while n < count
        invariant
            n <= count,
            lines.len() == n,
            forall|i: int| 0 <= i < lines.len() ==> valid_line(#[trigger] lines[i]@, version, format),
        decreases count - n,
    {
        let u = UUIDType::generate(version);
        let line = u.format(format);
        lines.push(line);
        n = n + 1;
        assert(made_by(u, version) && lines[n - 1]@ == rendered(u, format));
    }
    lines
}

} // verus!
