use vstd::prelude::*;
use vstd::string::StrSliceExecFns;

verus! {

/// The four 2x2 colour filter arrangements.
#[derive(Clone, Copy, Debug, PartialEq, Eq, Structural)]
pub enum BayerPattern {
    RGGB,
    BGGR,
    GRBG,
    GBRG,
}

/// Why a pattern name was refused.
#[derive(Clone, Copy, Debug, PartialEq, Eq, Structural)]
pub enum PatternError {
    /// The text names none of the four arrangements.
    Unrecognized,
}

/// Source channel (0 = red, 1 = green, 2 = blue) of each tile position, in the
/// tile's raster order: top-left, top-right, bottom-left, bottom-right.
pub open spec fn offsets_of(p: BayerPattern) -> Seq<u8> {
    match p {
        BayerPattern::RGGB => seq![0u8, 1, 1, 2],
        BayerPattern::BGGR => seq![2u8, 1, 1, 0],
        BayerPattern::GRBG => seq![1u8, 0, 2, 1],
        BayerPattern::GBRG => seq![1u8, 2, 0, 1],
    }
}

/// The upper-case name of each arrangement.
pub open spec fn name_of(p: BayerPattern) -> Seq<char> {
    match p {
        BayerPattern::RGGB => seq!['R', 'G', 'G', 'B'],
        BayerPattern::BGGR => seq!['B', 'G', 'G', 'R'],
        BayerPattern::GRBG => seq!['G', 'R', 'B', 'G'],
        BayerPattern::GBRG => seq!['G', 'B', 'R', 'G'],
    }
}

/// The arrangement whose upper-case name is exactly `s`, if any.
pub open spec fn pattern_named(s: Seq<char>) -> Option<BayerPattern> {
    if s == name_of(BayerPattern::RGGB) {
        Some(BayerPattern::RGGB)
    } else if s == name_of(BayerPattern::BGGR) {
        Some(BayerPattern::BGGR)
    } else if s == name_of(BayerPattern::GRBG) {
        Some(BayerPattern::GRBG)
    } else if s == name_of(BayerPattern::GBRG) {
        Some(BayerPattern::GBRG)
    } else {
        None
    }
}

/// Each arrangement is found again from its own name, and no two
/// arrangements share a name.
pub proof fn lemma_name_round_trip(p: BayerPattern, q: BayerPattern)
    ensures
        pattern_named(name_of(p)) == Some(p),
        name_of(p) == name_of(q) ==> p == q,
{
    assert(name_of(BayerPattern::RGGB)[0] != name_of(BayerPattern::BGGR)[0]);
    assert(name_of(BayerPattern::RGGB)[0] != name_of(BayerPattern::GRBG)[0]);
    assert(name_of(BayerPattern::RGGB)[0] != name_of(BayerPattern::GBRG)[0]);
    assert(name_of(BayerPattern::BGGR)[0] != name_of(BayerPattern::GRBG)[0]);
    assert(name_of(BayerPattern::BGGR)[0] != name_of(BayerPattern::GBRG)[0]);
    assert(name_of(BayerPattern::GRBG)[1] != name_of(BayerPattern::GBRG)[1]);
}

/// What `str::to_uppercase` returns for a text.
pub uninterp spec fn upper_of(s: Seq<char>) -> Seq<char>;

/// What `str::trim` returns for a text.
pub uninterp spec fn trimmed_of(s: Seq<char>) -> Seq<char>;

/// Relies on `str::to_uppercase`: the result depends on the characters alone.
#[verifier::external_body]
fn uppercase(s: &str) -> (r: String)
    ensures
        r@ == upper_of(s@),
{
    s.to_uppercase()
}

/// Relies on `str::trim`: the result depends on the characters alone.
#[verifier::external_body]
fn trim(s: &str) -> (r: &str)
    ensures
        r@ == trimmed_of(s@),
{
    s.trim()
}

/// Whether `s` holds exactly the characters of `name`.
fn same_chars(s: &str, name: &str) -> (r: bool)
    ensures
        r == (s@ == name@),
{
    let n = s.unicode_len();
    if n != name.unicode_len() {
        return false;
    }
    let mut i: usize = 0;
    while i < n
        invariant
            n == s@.len(),
            n == name@.len(),
            i <= n,
            forall|j: int| 0 <= j < i ==> s@[j] == name@[j],
        decreases n - i,
    {
        if s.get_char(i) != name.get_char(i) {
            return false;
        }
        i = i + 1;
    }
    assert(s@ =~= name@);
    true
}

impl BayerPattern {
    /// The arrangement whose name is exactly `s` (upper case, no spaces).
    pub fn from_name(s: &str) -> (r: Option<BayerPattern>)
        ensures
            r == pattern_named(s@),
    {
        proof {
            reveal_strlit("RGGB");
            reveal_strlit("BGGR");
            reveal_strlit("GRBG");
            reveal_strlit("GBRG");
            assert("RGGB"@ =~= name_of(BayerPattern::RGGB));
            assert("BGGR"@ =~= name_of(BayerPattern::BGGR));
            assert("GRBG"@ =~= name_of(BayerPattern::GRBG));
            assert("GBRG"@ =~= name_of(BayerPattern::GBRG));
        }
        if same_chars(s, "RGGB") {
            Some(BayerPattern::RGGB)
        } else if same_chars(s, "BGGR") {
            Some(BayerPattern::BGGR)
        } else if same_chars(s, "GRBG") {
            Some(BayerPattern::GRBG)
        } else if same_chars(s, "GBRG") {
            Some(BayerPattern::GBRG)
        } else {
            None
        }
    }

    /// Parses a pattern name regardless of letter case and surrounding
    /// whitespace.
    pub fn from_str(bayer_pattern: &str) -> (r: Result<BayerPattern, PatternError>)
        ensures
            match pattern_named(trimmed_of(upper_of(bayer_pattern@))) {
                Some(p) => r == Ok::<BayerPattern, PatternError>(p),
                None => r == Err::<BayerPattern, PatternError>(PatternError::Unrecognized),
            },
    {
        let upper = uppercase(bayer_pattern);
        let trimmed = trim(upper.as_str());
        match BayerPattern::from_name(trimmed) {
            Some(p) => Ok(p),
            None => Err(PatternError::Unrecognized),
        }
    }

    /// The upper-case name of the arrangement.
    pub fn as_str(&self) -> (r: &'static str)
        ensures
            r@ == name_of(*self),
    {
        proof {
            reveal_strlit("RGGB");
            reveal_strlit("BGGR");
            reveal_strlit("GRBG");
            reveal_strlit("GBRG");
        }
        match self {
            BayerPattern::RGGB => "RGGB",
            BayerPattern::BGGR => "BGGR",
            BayerPattern::GRBG => "GRBG",
            BayerPattern::GBRG => "GBRG",
        }
    }

    /// The source channel of each tile position, in raster order.
    pub fn color_offsets(&self) -> (r: Vec<u8>)
        ensures
            r@ == offsets_of(*self),
    {
        let r = match self {
            BayerPattern::RGGB => vec![0u8, 1, 1, 2],
            BayerPattern::BGGR => vec![2u8, 1, 1, 0],
            BayerPattern::GRBG => vec![1u8, 0, 2, 1],
            BayerPattern::GBRG => vec![1u8, 2, 0, 1],
        };
        assert(r@ =~= offsets_of(*self));
        r
    }
}

} // verus!
