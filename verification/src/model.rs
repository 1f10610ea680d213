//! Hardware model-family detection.
//!
//! The family is detected from the advertised device name.  The known
//! variant names overlap as substrings (the generic family name is contained
//! in every more specific one), so detection checks a priority-ordered list,
//! most specific pattern first; a name that matches nothing falls back to
//! the generic two-piece family.

use vstd::prelude::*;

verus! {

/// The hardware model families of the handset line.  The two `One` families
/// are one-piece designs without a separate holder.
#[derive(Debug, Clone, Copy, PartialEq, Eq, Structural)]
pub enum IQOSModel {
    IlumaOne,
    Iluma,
    IlumaPrime,
    IlumaIOne,
    IlumaI,
    IlumaIPrime,
}

/// `needle` occurs contiguously inside `hay`.
pub open spec fn spec_contains_bytes(hay: Seq<u8>, needle: Seq<u8>) -> bool {
    exists|i: int|
        0 <= i <= hay.len() - needle.len() && #[trigger] hay.subrange(i, i + needle.len())
            == needle
}

/// Whether `hay` matches `needle` starting at position `start`.
fn matches_at(hay: &[u8], needle: &[u8], start: usize) -> (r: bool)
    requires
        start + needle@.len() <= hay@.len() <= usize::MAX,
    ensures
        r == (hay@.subrange(start as int, start + needle@.len()) == needle@),
{
    let mut j: usize = 0;
    while j < needle.len()
        invariant
            0 <= j <= needle@.len(),
            start + needle@.len() <= hay@.len() <= usize::MAX,
            forall|k: int| 0 <= k < j ==> hay@[start + k] == needle@[k],
        decreases needle@.len() - j,
    {
        if hay[start + j] != needle[j] {
            proof {
                let sub = hay@.subrange(start as int, start + needle@.len());
                assert(sub[j as int] != needle@[j as int]);
            }
            return false;
        }
        j = j + 1;
    }
    proof {
        assert(hay@.subrange(start as int, start + needle@.len()) =~= needle@);
    }
    true
}

/// Whether `needle` occurs contiguously inside `hay`.
pub fn contains_bytes(hay: &[u8], needle: &[u8]) -> (r: bool)
    ensures
        r == spec_contains_bytes(hay@, needle@),
{
    if needle.len() > hay.len() {
        proof {
            assert(!spec_contains_bytes(hay@, needle@));
        }
        return false;
    }
    if needle.len() == 0 {
        proof {
            assert(hay@.subrange(0, 0 + needle@.len() as int) =~= needle@);
            assert(spec_contains_bytes(hay@, needle@));
        }
        return true;
    }
    let last = hay.len() - needle.len();
    let mut i: usize = 0;
    while i <= last
        invariant
            0 <= i <= last + 1,
            needle@.len() >= 1,
            last == hay@.len() - needle@.len(),
            hay@.len() <= usize::MAX,
            forall|k: int|
                0 <= k < i ==> #[trigger] hay@.subrange(k, k + needle@.len()) != needle@,
        decreases last - i + 1,
    {
        if matches_at(hay, needle, i) {
            return true;
        }
        i = i + 1;
    }
    false
}

/// The advertised substring of the most specific two-piece variant.
pub open spec fn spec_name_iluma_i_prime() -> Seq<u8> {
    seq![
        'I' as u8,
        'L' as u8,
        'U' as u8,
        'M' as u8,
        'A' as u8,
        ' ' as u8,
        'i' as u8,
        ' ' as u8,
        'P' as u8,
        'r' as u8,
        'i' as u8,
        'm' as u8,
        'e' as u8,
    ]
}

/// The advertised substring of the first-generation premium variant.
pub open spec fn spec_name_iluma_prime() -> Seq<u8> {
    seq![
        'I' as u8,
        'L' as u8,
        'U' as u8,
        'M' as u8,
        'A' as u8,
        ' ' as u8,
        'P' as u8,
        'r' as u8,
        'i' as u8,
        'm' as u8,
        'e' as u8,
    ]
}

/// The advertised substring of the second-generation base variant.
pub open spec fn spec_name_iluma_i() -> Seq<u8> {
    seq!['I' as u8, 'L' as u8, 'U' as u8, 'M' as u8, 'A' as u8, ' ' as u8, 'i' as u8]
}

/// The advertised substring of the second-generation one-piece variant.
pub open spec fn spec_name_i_one() -> Seq<u8> {
    seq!['i' as u8, ' ' as u8, 'O' as u8, 'N' as u8, 'E' as u8]
}

/// The advertised substring of the generic two-piece family.
pub open spec fn spec_name_iluma() -> Seq<u8> {
    seq!['I' as u8, 'L' as u8, 'U' as u8, 'M' as u8, 'A' as u8]
}

/// The advertised substring of the first-generation one-piece variant.
pub open spec fn spec_name_one() -> Seq<u8> {
    seq!['O' as u8, 'N' as u8, 'E' as u8]
}

/// The family an advertised device name denotes: the first pattern of the
/// priority-ordered list contained in the name, with the generic two-piece
/// family as the fallback for a name that matches nothing.
///
/// A more specific pattern always ranks above every pattern it contains
/// ("ILUMA i Prime" above "ILUMA i" and "ILUMA"), and the one-piece
/// patterns rank above the base patterns their names extend ("i ONE" above
/// "ILUMA i", "ONE" above "ILUMA"), so that each named variant is
/// reachable.
pub open spec fn spec_model_of_name(name: Seq<u8>) -> IQOSModel {
    if spec_contains_bytes(name, spec_name_iluma_i_prime()) {
        IQOSModel::IlumaIPrime
    } else if spec_contains_bytes(name, spec_name_iluma_prime()) {
        IQOSModel::IlumaPrime
    } else if spec_contains_bytes(name, spec_name_i_one()) {
        IQOSModel::IlumaIOne
    } else if spec_contains_bytes(name, spec_name_one()) {
        IQOSModel::IlumaOne
    } else if spec_contains_bytes(name, spec_name_iluma_i()) {
        IQOSModel::IlumaI
    } else if spec_contains_bytes(name, spec_name_iluma()) {
        IQOSModel::Iluma
    } else {
        IQOSModel::Iluma
    }
}

/// The model is a one-piece design, without a separate holder.
pub open spec fn spec_is_one_piece(m: IQOSModel) -> bool {
    m is IlumaOne || m is IlumaIOne
}

impl IQOSModel {
    /// Detects the model family from the advertised device name, given as
    /// the name's bytes.
    pub fn from_name(name: &[u8]) -> (r: Self)
        ensures
            r == spec_model_of_name(name@),
    {
        let iluma_i_prime: Vec<u8> = vec![
            'I' as u8,
            'L' as u8,
            'U' as u8,
            'M' as u8,
            'A' as u8,
            ' ' as u8,
            'i' as u8,
            ' ' as u8,
            'P' as u8,
            'r' as u8,
            'i' as u8,
            'm' as u8,
            'e' as u8,
        ];
        proof {
            assert(iluma_i_prime@ =~= spec_name_iluma_i_prime());
        }
        if contains_bytes(name, iluma_i_prime.as_slice()) {
            return IQOSModel::IlumaIPrime;
        }
        let iluma_prime: Vec<u8> = vec![
            'I' as u8,
            'L' as u8,
            'U' as u8,
            'M' as u8,
            'A' as u8,
            ' ' as u8,
            'P' as u8,
            'r' as u8,
            'i' as u8,
            'm' as u8,
            'e' as u8,
        ];
        proof {
            assert(iluma_prime@ =~= spec_name_iluma_prime());
        }
        if contains_bytes(name, iluma_prime.as_slice()) {
            return IQOSModel::IlumaPrime;
        }
        let i_one: Vec<u8> = vec!['i' as u8, ' ' as u8, 'O' as u8, 'N' as u8, 'E' as u8];
        proof {
            assert(i_one@ =~= spec_name_i_one());
        }
        if contains_bytes(name, i_one.as_slice()) {
            return IQOSModel::IlumaIOne;
        }
        let one: Vec<u8> = vec!['O' as u8, 'N' as u8, 'E' as u8];
        proof {
            assert(one@ =~= spec_name_one());
        }
        if contains_bytes(name, one.as_slice()) {
            return IQOSModel::IlumaOne;
        }
        let iluma_i: Vec<u8> = vec![
            'I' as u8,
            'L' as u8,
            'U' as u8,
            'M' as u8,
            'A' as u8,
            ' ' as u8,
            'i' as u8,
        ];
        proof {
            assert(iluma_i@ =~= spec_name_iluma_i());
        }
        if contains_bytes(name, iluma_i.as_slice()) {
            return IQOSModel::IlumaI;
        }
        let iluma: Vec<u8> = vec!['I' as u8, 'L' as u8, 'U' as u8, 'M' as u8, 'A' as u8];
        proof {
            assert(iluma@ =~= spec_name_iluma());
        }
        if contains_bytes(name, iluma.as_slice()) {
            return IQOSModel::Iluma;
        }
        IQOSModel::Iluma
    }

    /// True for the one-piece families, which carry no separate holder.
    pub fn is_iluma_one(&self) -> (r: bool)
        ensures
            r == spec_is_one_piece(*self),
    {
        matches!(self, IQOSModel::IlumaOne | IQOSModel::IlumaIOne)
    }
}

} // verus!
