//! Commonly found licenses of the SPDX license list.
//!
//! Each license carries four attributes (identifier, display name, libre flag,
//! OSI flag), held in tables indexed by its ordinal. A license is found again
//! from its identifier by exact match.
use vstd::prelude::*;

use crate::text::str_eq;
use crate::ParseError;

mod decl;
mod laws;
mod order;

pub use self::decl::{SpdxLicense, COUNT};
pub use self::laws::{
    lemma_agpl_family, lemma_catalog_once, lemma_creative_commons_family, lemma_gpl_family,
    lemma_parse_to_string, lemma_tables_aligned,
};
pub use self::order::{lemma_id_nonempty, lemma_ids_distinct};

verus! {

impl SpdxLicense {
    /// Every license of the catalog, in catalog order.
    pub open spec fn catalog() -> Seq<SpdxLicense> {
        Seq::new(COUNT as nat, |i: int| Self::from_ordinal(i as nat))
    }

    /// The identifier table: entry `i` is the identifier of the license of
    /// ordinal `i`.
    pub open spec fn id_table() -> Seq<Seq<char>> {
        Self::catalog().map_values(|l: SpdxLicense| l.spec_id())
    }

    /// The display name table, indexed by ordinal.
    pub open spec fn name_table() -> Seq<Seq<char>> {
        Self::catalog().map_values(|l: SpdxLicense| l.spec_name())
    }

    /// The libre flag table, indexed by ordinal.
    pub open spec fn libre_table() -> Seq<bool> {
        Self::catalog().map_values(|l: SpdxLicense| l.spec_libre())
    }

    /// The OSI flag table, indexed by ordinal.
    pub open spec fn osi_table() -> Seq<bool> {
        Self::catalog().map_values(|l: SpdxLicense| l.spec_osi())
    }

    /// The license whose identifier is exactly `s`, if there is one.
    pub open spec fn lookup(s: Seq<char>) -> Option<SpdxLicense> {
        if exists|l: SpdxLicense| l.spec_id() == s {
            Some(choose|l: SpdxLicense| l.spec_id() == s)
        } else {
            None
        }
    }

    /// The ordinal lies in the span from `first` to `last`, both included.
    pub open spec fn in_span(self, first: SpdxLicense, last: SpdxLicense) -> bool {
        first.ordinal() <= self.ordinal() <= last.ordinal()
    }

    /// The span of catalog order taken by the Creative Commons licenses.
    pub open spec fn spec_is_creative_commons(self) -> bool {
        self.in_span(SpdxLicense::CcBy1, SpdxLicense::CC01)
    }

    /// The span of catalog order taken by the GNU General Public Licenses.
    pub open spec fn spec_is_gpl(self) -> bool {
        self.in_span(SpdxLicense::Gpl1Only, SpdxLicense::Gpl3OrLater)
    }

    /// The span of catalog order taken by the Affero General Public Licenses.
    pub open spec fn spec_is_agpl(self) -> bool {
        self.in_span(SpdxLicense::Agpl1Only, SpdxLicense::Agpl3OrLater)
    }

    /// Returns the number of licenses in the catalog.
    pub fn count() -> (r: usize)
        ensures
            r == COUNT,
    {
        COUNT
    }

    /// Returns every license, each once, in catalog order.
    pub fn all() -> (r: Vec<SpdxLicense>)
        ensures
            r@ == Self::catalog(),
    {
        let mut v: Vec<SpdxLicense> = Vec::new();
        let mut i: usize = 0;
        while i < COUNT
            invariant
                i <= COUNT,
                v@.len() == i,
                forall|k: int| 0 <= k < i ==> v@[k] == Self::from_ordinal(k as nat),
            decreases COUNT - i,
        {
            v.push(Self::from_index(i));
            i = i + 1;
        }
        assert(v@ =~= Self::catalog());
        v
    }

    /// Finds the license whose identifier is exactly `id`.
    fn from_id(id: &str) -> (r: Option<SpdxLicense>)
        ensures
            r == Self::lookup(id@),
    {
        let mut i: usize = 0;
        while i < COUNT
            invariant
                i <= COUNT,
                forall|k: nat| k < i ==> Self::from_ordinal(k).spec_id() != id@,
            decreases COUNT - i,
        {
            let l = Self::from_index(i);
            if str_eq(l.id(), id) {
                proof {
                    let c = choose|c: SpdxLicense| c.spec_id() == id@;
                    if c != l {
                        lemma_ids_distinct(c, l);
                    }
                }
                return Some(l);
            }
            i = i + 1;
        }
        proof {
            assert forall|l: SpdxLicense| l.spec_id() != id@ by {
                Self::lemma_ordinal(l);
            }
        }
        None
    }

    /// What parsing `input` gives: `Empty` for the empty string, else the
    /// license whose identifier is exactly `input`, else `UnknownIdentifier`
    /// with the input handed back.
    pub open spec fn spec_parse<'a>(input: &'a str) -> Result<SpdxLicense, ParseError<'a>> {
        if input@.len() == 0 {
            Err(ParseError::Empty)
        } else {
            match Self::lookup(input@) {
                Some(l) => Ok(l),
                None => Err(ParseError::UnknownIdentifier(input)),
            }
        }
    }

    /// Parses `input` as the identifier of a license. The match is exact: no
    /// case folding, trimming or aliasing.
    pub fn parse<'a>(input: &'a str) -> (r: Result<SpdxLicense, ParseError<'a>>)
        ensures
            r == Self::spec_parse(input),
    {
        Self::try_from(input)
    }

    /// Renders the license as text: its identifier.
    pub fn to_string(self) -> (r: String)
        ensures
            r@ == self.spec_id(),
    {
        self.id().to_owned()
    }

    /// Returns whether the license is associated with Creative Commons.
    pub fn is_creative_commons(self) -> (r: bool)
        ensures
            r == self.spec_is_creative_commons(),
    {
        let min = SpdxLicense::CcBy1.index();
        let max = SpdxLicense::CC01.index();
        let val = self.index();
        val >= min && val <= max
    }

    /// Returns whether the license is a GNU General Public License.
    pub fn is_gpl(self) -> (r: bool)
        ensures
            r == self.spec_is_gpl(),
    {
        let min = SpdxLicense::Gpl1Only.index();
        let max = SpdxLicense::Gpl3OrLater.index();
        let val = self.index();
        val >= min && val <= max
    }

    /// Returns whether the license is an Affero General Public License.
    pub fn is_agpl(self) -> (r: bool)
        ensures
            r == self.spec_is_agpl(),
    {
        let min = SpdxLicense::Agpl1Only.index();
        let max = SpdxLicense::Agpl3OrLater.index();
        let val = self.index();
        val >= min && val <= max
    }

    /// Ordinals are the positions `0 .. COUNT`, one license for each.
    pub proof fn lemma_ordinal(l: SpdxLicense)
        ensures
            l.ordinal() < COUNT,
            Self::from_ordinal(l.ordinal()) == l,
    {
    }

    /// Each position `0 .. COUNT` is the ordinal of the license found there.
    #[verifier::spinoff_prover]
    #[verifier::rlimit(100)]
    pub proof fn lemma_from_ordinal(i: nat)
        requires
            i < COUNT,
        ensures
            Self::from_ordinal(i).ordinal() == i,
    {
    }
}

impl<'a> TryFrom<&'a str> for SpdxLicense {
    type Error = ParseError<'a>;

    fn try_from(id: &'a str) -> (r: Result<SpdxLicense, ParseError<'a>>)
        ensures
            r == SpdxLicense::spec_parse(id),
    {
        if id.is_empty() {
            return Err(ParseError::Empty);
        }
        match SpdxLicense::from_id(id) {
            Some(l) => Ok(l),
            None => Err(ParseError::UnknownIdentifier(id)),
        }
    }
}

impl<'a> vstd::std_specs::convert::TryFromSpecImpl<&'a str> for SpdxLicense {
    open spec fn obeys_try_from_spec() -> bool {
        true
    }

    open spec fn try_from_spec(v: &'a str) -> Result<SpdxLicense, ParseError<'a>> {
        SpdxLicense::spec_parse(v)
    }
}

} // verus!
