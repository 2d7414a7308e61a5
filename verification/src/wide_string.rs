//! NUL-terminated strings of 16-bit code units, the form in which the host's
//! native interfaces take text.

use vstd::prelude::*;
use vstd::string::is_ascii;
use vstd::string::is_ascii_spec_bytes;
use vstd::string::StringSliceAdditionalSpecFns;

verus! {

/// The UTF-16 code units of a string, as `str::encode_utf16` computes them: a
/// pure function of the characters alone.
pub uninterp spec fn utf16_units_of(s: Seq<char>) -> Seq<u16>;

/// Relies on str::encode_utf16: the UTF-16 code units of the string, a
/// function of its characters alone; an empty string has no units.
#[verifier::external_body]
fn str_to_utf16_units(s: &str) -> (r: Vec<u16>)
    ensures
        r@ == utf16_units_of(s@),
        s@.len() == 0 ==> r@.len() == 0,
{
    s.encode_utf16().collect()
}

/// The code units of an ASCII string: one unit per character, each the
/// character's code point.
pub open spec fn ascii_units(s: Seq<char>) -> Seq<u16> {
    Seq::new(s.len(), |i: int| (s[i] as u8) as u16)
}

/// Converts an ASCII string into its code units, one unit per character.
pub fn ascii_to_units(s: &str) -> (r: Vec<u16>)
    requires
        is_ascii(s),
    ensures
        r@ == ascii_units(s@),
{
    proof {
        is_ascii_spec_bytes(s);
    }
    let bs = s.as_bytes();
    let mut r: Vec<u16> = Vec::new();
    let mut i: usize = 0;
    while i < bs.len()
        invariant
            i <= bs@.len(),
            bs@ == s.spec_bytes(),
            bs@.len() == s@.len(),
            forall|j: int| 0 <= j < bs@.len() ==> bs@[j] == s@[j] as u8,
            r@ == ascii_units(s@).take(i as int),
        decreases bs@.len() - i,
    {
        r.push(bs[i] as u16);
        proof {
            assert(ascii_units(s@).take(i as int).push((s@[i as int] as u8) as u16)
                =~= ascii_units(s@).take(i as int + 1));
        }
        i = i + 1;
    }
    proof {
        assert(ascii_units(s@).take(s@.len() as int) =~= ascii_units(s@));
    }
    r
}

/// Whether a unit sequence carries its NUL terminator.
pub open spec fn is_terminated(ws: Seq<u16>) -> bool {
    ws.len() > 0 && ws.last() == 0
}

/// A NUL-terminated string of 16-bit code units. The terminator counts as a
/// unit of the string.
#[derive(Clone, Debug, PartialEq, Eq, Hash)]
pub struct WideString {
    units: Vec<u16>,
}

impl View for WideString {
    type V = Seq<u16>;

    closed spec fn view(&self) -> Seq<u16> {
        self.units@
    }
}

impl WideString {
    /// A constructed wide string always carries its terminator.
    pub open spec fn well_formed(&self) -> bool {
        is_terminated(self@)
    }

    /// Builds a wide string from bare units, appending the terminator unless
    /// the units already end with one.
    pub fn from_units(units: Vec<u16>) -> (r: WideString)
        ensures
            r.well_formed(),
            is_terminated(units@) ==> r@ == units@,
            !is_terminated(units@) ==> r@ == units@.push(0),
    {
        let mut units = units;
        if !(units.len() > 0 && units[units.len() - 1] == 0) {
            units.push(0);
        }
        WideString { units }
    }

    /// Builds a wide string from the UTF-16 code units of a string, appending
    /// the terminator unless the units already end with one.
    pub fn from_str(s: &str) -> (r: WideString)
        ensures
            r.well_formed(),
            is_terminated(utf16_units_of(s@)) ==> r@ == utf16_units_of(s@),
            !is_terminated(utf16_units_of(s@)) ==> r@ == utf16_units_of(s@).push(0),
    {
        Self::from_units(str_to_utf16_units(s))
    }

    /// The length in code units, the terminator included.
    pub fn len_chars(&self) -> (n: usize)
        ensures
            n == self@.len(),
    {
        self.units.len()
    }

    /// The length in bytes of the encoded form, two bytes per unit.
    pub fn len_bytes(&self) -> (n: usize)
        requires
            self@.len() <= usize::MAX / 2,
        ensures
            n == 2 * self@.len(),
    {
        self.units.len() * 2
    }

    /// The units, terminator included.
    pub fn as_units(&self) -> (r: &Vec<u16>)
        ensures
            r@ == self@,
    {
        &self.units
    }
}

/// A wide string that may be absent; the host's interfaces take an absent one
/// where they accept a null pointer.
#[derive(Clone, Debug, PartialEq, Eq, Hash)]
pub struct OptionalWideString {
    inner: Option<WideString>,
}

impl View for OptionalWideString {
    type V = Option<Seq<u16>>;

    closed spec fn view(&self) -> Option<Seq<u16>> {
        match self.inner {
            Option::Some(ref ws) => Option::Some(ws@),
            Option::None => Option::None,
        }
    }
}

impl OptionalWideString {
    /// The absent wide string.
    pub fn none() -> (r: OptionalWideString)
        ensures
            r@ is None,
    {
        OptionalWideString { inner: Option::None }
    }

    /// A present wide string.
    pub fn some(ws: WideString) -> (r: OptionalWideString)
        ensures
            r@ == Some(ws@),
    {
        OptionalWideString { inner: Option::Some(ws) }
    }

    /// The contained wide string, if present.
    pub fn as_wide_string(&self) -> (r: Option<&WideString>)
        ensures
            match r {
                Some(ws) => self@ == Some(ws@),
                None => self@ is None,
            },
    {
        match &self.inner {
            Option::Some(ws) => Option::Some(ws),
            Option::None => Option::None,
        }
    }
}

} // verus!
