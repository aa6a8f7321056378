//! Resolution of operating-system input-locale identifiers to readable
//! locale names.

use vstd::prelude::*;
use vstd::slice::slice_subrange;

verus! {

/// Largest number of UTF-16 code units a resolved locale name may occupy,
/// terminator included: the platform's fixed buffer size for locale names.
pub const LOCALE_NAME_MAX_LENGTH: usize = 85;

/// The low 16 bits of a platform word, as a `u32`: a keyboard-layout handle
/// packs the language identifier into its low word.
pub open spec fn loword_spec(l: isize) -> u32 {
    (l as u32) & 0xffff
}

/// Extracts the language identifier from the low word of a keyboard-layout
/// handle value.
pub fn loword(l: isize) -> (r: u32)
    ensures
        r == loword_spec(l),
        r < 0x10000,
        0 <= l < 0x10000 ==> r == l as u32,
{
    proof {
        assert(((l as u32) & 0xffff) < 0x10000) by (bit_vector);
        assert(0 <= l < 0x10000 ==> ((l as u32) & 0xffff) == l as u32) by (bit_vector);
    }
    (#[verifier::truncate] (l as u32)) & 0xffff
}

/// What decoding a sequence of UTF-16 code units yields. Left without a
/// definition here: the decoding itself is done by the standard library, and
/// `from_utf16_lossy` below states its result under this name.
pub uninterp spec fn utf16_lossy_of(units: Seq<u16>) -> Seq<char>;

/// Relies on `alloc::string::String::from_utf16_lossy`: decodes UTF-16 code
/// units into a string, replacing ill-formed sequences with the replacement
/// character. The result depends on the code units alone; every unit is
/// consumed by exactly one decoded character (or surrogate pair), so the
/// result is empty exactly when the input is, and never holds more
/// characters than there were units.
#[verifier::external_body]
fn from_utf16_lossy(units: &[u16]) -> (r: String)
    ensures
        r@ == utf16_lossy_of(units@),
        r@.len() == 0 <==> units@.len() == 0,
        r@.len() <= units@.len(),
{
    String::from_utf16_lossy(units)
}

/// A resolved locale name: a readable locale tag, or `Unknown` when the
/// operating system reported no mapping for the identifier.
pub enum LocaleName {
    Tag(String),
    Unknown,
}

impl View for LocaleName {
    type V = Seq<char>;

    open spec fn view(&self) -> Seq<char> {
        match self {
            LocaleName::Tag(t) => t@,
            LocaleName::Unknown => "unknown"@,
        }
    }
}

impl LocaleName {
    /// True when resolution failed and the sentinel stands in place of a tag.
    pub open spec fn is_unknown_spec(&self) -> bool {
        self is Unknown
    }

    pub fn is_unknown(&self) -> (b: bool)
        ensures
            b == self.is_unknown_spec(),
    {
        match self {
            LocaleName::Unknown => true,
            LocaleName::Tag(_) => false,
        }
    }

    /// The text published on the output channel for this name: the tag
    /// itself, or the sentinel text `"unknown"`.
    pub fn text(&self) -> (s: String)
        ensures
            s@ == self@,
    {
        match self {
            LocaleName::Tag(t) => t.clone(),
            LocaleName::Unknown => "unknown".to_owned(),
        }
    }
}

/// Observer of the active keyboard language.
pub struct Language {}

impl Language {
    pub fn new() -> Language {
        Language {}
    }

    /// What resolving a locale lookup outcome yields: the decoded prefix of
    /// the buffer when the operating system reported a positive length
    /// within the buffer's extent, and the unknown sentinel otherwise.
    pub open spec fn resolved_spec(result: i32, units: Seq<u16>) -> Seq<char> {
        if 0 < result && result <= units.len() {
            utf16_lossy_of(units.take(result as int))
        } else {
            "unknown"@
        }
    }

    /// Turns the operating system's locale-name lookup outcome into a
    /// `LocaleName`. `result` is the length the lookup reported, in code
    /// units; `units` is the buffer it filled. A zero or negative result —
    /// the operating system knows no mapping — or one past the buffer's
    /// extent resolves to `Unknown`: resolution failure is expected and
    /// non-fatal, never an error.
    pub fn resolve(&self, result: i32, units: &Vec<u16>) -> (name: LocaleName)
        requires
            units@.len() <= LOCALE_NAME_MAX_LENGTH,
        ensures
            name@ == Self::resolved_spec(result, units@),
            0 < result <= units@.len() ==> !name.is_unknown_spec(),
            !(0 < result <= units@.len()) ==> name.is_unknown_spec(),
            name@.len() > 0,
            name@.len() <= LOCALE_NAME_MAX_LENGTH,
    {
        if result > 0 && result as usize <= units.len() {
            let n: usize = result as usize;
            let prefix: &[u16] = slice_subrange(units.as_slice(), 0, n);
            let s = from_utf16_lossy(prefix);
            proof {
                assert(units@.subrange(0, n as int) =~= units@.take(result as int));
            }
            LocaleName::Tag(s)
        } else {
            proof {
                reveal_strlit("unknown");
            }
            LocaleName::Unknown
        }
    }
}

} // verus!
