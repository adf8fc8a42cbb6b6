//! Laws that relate the operations of the catalog to one another.
use vstd::prelude::*;

use super::decl::{SpdxLicense, COUNT};
use super::order::{lemma_id_nonempty, lemma_ids_distinct};

verus! {

/// Rendering a license as text and parsing the text gives the license back:
/// its identifier is not empty, and it is the identifier of that license alone.
pub proof fn lemma_parse_to_string(l: SpdxLicense)
    ensures
        l.spec_id().len() > 0,
        SpdxLicense::lookup(l.spec_id()) == Some(l),
{
    lemma_id_nonempty(l);
    let c = choose|c: SpdxLicense| c.spec_id() == l.spec_id();
    if c != l {
        lemma_ids_distinct(c, l);
    }
}

/// The enumeration of the catalog has `COUNT` entries and holds every license
/// exactly once, at its ordinal.
pub proof fn lemma_catalog_once(l: SpdxLicense)
    ensures
        SpdxLicense::catalog().len() == COUNT,
        SpdxLicense::catalog()[l.ordinal() as int] == l,
        forall|i: int|
            0 <= i < COUNT && #[trigger] SpdxLicense::catalog()[i] == l ==> i == l.ordinal(),
{
    SpdxLicense::lemma_ordinal(l);
    assert forall|i: int| 0 <= i < COUNT && #[trigger] SpdxLicense::catalog()[i] == l implies i
        == l.ordinal() by {
        SpdxLicense::lemma_from_ordinal(i as nat);
    }
}

/// Each attribute table has `COUNT` entries, and the entry at a license's
/// ordinal is that license's attribute.
pub proof fn lemma_tables_aligned(l: SpdxLicense)
    ensures
        SpdxLicense::id_table().len() == COUNT,
        SpdxLicense::name_table().len() == COUNT,
        SpdxLicense::libre_table().len() == COUNT,
        SpdxLicense::osi_table().len() == COUNT,
        SpdxLicense::id_table()[l.ordinal() as int] == l.spec_id(),
        SpdxLicense::name_table()[l.ordinal() as int] == l.spec_name(),
        SpdxLicense::libre_table()[l.ordinal() as int] == l.spec_libre(),
        SpdxLicense::osi_table()[l.ordinal() as int] == l.spec_osi(),
{
    SpdxLicense::lemma_ordinal(l);
}

/// The GNU General Public Licenses are exactly the licenses declared from `Gpl1Only` to
/// `Gpl3OrLater`, and the licenses declared just before and just after that
/// span are not among them: no other license sits inside the span.
pub proof fn lemma_gpl_family(l: SpdxLicense)
    ensures
        l.spec_is_gpl() <==> matches!(
            l,
            SpdxLicense::Gpl1Only
            | SpdxLicense::Gpl1OrLater
            | SpdxLicense::Gpl2Only
            | SpdxLicense::Gpl2OrLater
            | SpdxLicense::Gpl3Only
            | SpdxLicense::Gpl3OrLater
        ),
        !SpdxLicense::Gnuplot.spec_is_gpl(),
        !SpdxLicense::GSoap1_3b.spec_is_gpl(),
        SpdxLicense::from_ordinal((SpdxLicense::Gpl1Only.ordinal() - 1) as nat) == SpdxLicense::Gnuplot,
        SpdxLicense::from_ordinal(SpdxLicense::Gpl3OrLater.ordinal() + 1) == SpdxLicense::GSoap1_3b,
{
}

/// The Affero General Public Licenses are exactly the licenses declared from `Agpl1Only` to
/// `Agpl3OrLater`, and the licenses declared just before and just after that
/// span are not among them: no other license sits inside the span.
pub proof fn lemma_agpl_family(l: SpdxLicense)
    ensures
        l.spec_is_agpl() <==> matches!(
            l,
            SpdxLicense::Agpl1Only
            | SpdxLicense::Agpl1OrLater
            | SpdxLicense::Agpl3Only
            | SpdxLicense::Agpl3OrLater
        ),
        !SpdxLicense::Afmparse.spec_is_agpl(),
        !SpdxLicense::Aladdin.spec_is_agpl(),
        SpdxLicense::from_ordinal((SpdxLicense::Agpl1Only.ordinal() - 1) as nat) == SpdxLicense::Afmparse,
        SpdxLicense::from_ordinal(SpdxLicense::Agpl3OrLater.ordinal() + 1) == SpdxLicense::Aladdin,
{
}

/// The Creative Commons licenses are exactly the licenses declared from `CcBy1` to
/// `CC01`, and the licenses declared just before and just after that
/// span are not among them: no other license sits inside the span.
pub proof fn lemma_creative_commons_family(l: SpdxLicense)
    ensures
        l.spec_is_creative_commons() <==> matches!(
            l,
            SpdxLicense::CcBy1
            | SpdxLicense::CcBy2
            | SpdxLicense::CcBy2_5
            | SpdxLicense::CcBy3
            | SpdxLicense::CcBy4
            | SpdxLicense::CcByNc1
            | SpdxLicense::CcByNc2
            | SpdxLicense::CcByNc2_5
            | SpdxLicense::CcByNc3
            | SpdxLicense::CcByNc4
            | SpdxLicense::CcByNcNd1
            | SpdxLicense::CcByNcNd2
            | SpdxLicense::CcByNcNd2_5
            | SpdxLicense::CcByNcNd3
            | SpdxLicense::CcByNcNd4
            | SpdxLicense::CcByNcSa1
            | SpdxLicense::CcByNcSa2
            | SpdxLicense::CcByNcSa2_5
            | SpdxLicense::CcByNcSa3
            | SpdxLicense::CcByNcSa4
            | SpdxLicense::CcByNd1
            | SpdxLicense::CcByNd2
            | SpdxLicense::CcByNd2_5
            | SpdxLicense::CcByNd3
            | SpdxLicense::CcByNd4
            | SpdxLicense::CcBySa1
            | SpdxLicense::CcBySa2
            | SpdxLicense::CcBySa2_5
            | SpdxLicense::CcBySa3
            | SpdxLicense::CcBySa4
            | SpdxLicense::CcPddc
            | SpdxLicense::CC01
        ),
        !SpdxLicense::Catosl1_1.spec_is_creative_commons(),
        !SpdxLicense::Cddl1.spec_is_creative_commons(),
        SpdxLicense::from_ordinal((SpdxLicense::CcBy1.ordinal() - 1) as nat) == SpdxLicense::Catosl1_1,
        SpdxLicense::from_ordinal(SpdxLicense::CC01.ordinal() + 1) == SpdxLicense::Cddl1,
{
}

} // verus!
