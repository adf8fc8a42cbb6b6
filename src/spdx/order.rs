//! The catalog ordered by identifier, and the proof that no two licenses
//! share an identifier.
use vstd::prelude::*;

use super::decl::{SpdxLicense, COUNT};

verus! {

/// Strict lexicographic order on character sequences, comparing characters by
/// code point from position `i` on; a proper prefix comes first.
pub open spec fn lt_from(a: Seq<char>, b: Seq<char>, i: nat) -> bool
    decreases a.len() - i,
{
    if i >= a.len() {
        i < b.len()
    } else if i >= b.len() {
        false
    } else if (a[i as int] as u32) < (b[i as int] as u32) {
        true
    } else if a[i as int] == b[i as int] {
        lt_from(a, b, i + 1)
    } else {
        false
    }
}

/// `a` comes strictly before `b` in lexicographic order.
#[verifier::opaque]
pub open spec fn precedes(a: Seq<char>, b: Seq<char>) -> bool {
    lt_from(a, b, 0)
}

proof fn lemma_lt_from_irreflexive(a: Seq<char>, i: nat)
    ensures
        !lt_from(a, a, i),
    decreases a.len() - i,
{
    if i < a.len() {
        lemma_lt_from_irreflexive(a, i + 1);
    }
}

proof fn lemma_lt_from_transitive(a: Seq<char>, b: Seq<char>, c: Seq<char>, i: nat)
    requires
        lt_from(a, b, i),
        lt_from(b, c, i),
    ensures
        lt_from(a, c, i),
    decreases a.len() - i,
{
    if i < a.len() && i < b.len() && i < c.len() && a[i as int] == b[i as int] && b[i as int] == c[i as int] {
        lemma_lt_from_transitive(a, b, c, i + 1);
    }
}

/// Two sequences in strict lexicographic order are distinct.
proof fn lemma_precedes_distinct(a: Seq<char>, b: Seq<char>)
    requires
        precedes(a, b),
    ensures
        a != b,
{
    reveal(precedes);
    lemma_lt_from_irreflexive(a, 0);
}

/// Identifier order is strictly ascending from position 0 to position 15.
#[verifier::spinoff_prover]
#[verifier::rlimit(60)]
proof fn lemma_ids_ascending_0(p: nat)
    requires
        0 <= p < 15,
    ensures
        precedes(SpdxLicense::with_id_rank(p).spec_id(), SpdxLicense::with_id_rank(p + 1).spec_id()),
{
    assert(precedes("-PHP\u{a0}3.0"@, "-PHP\u{a0}3.01"@)) by {
        reveal(precedes);
        reveal_strlit("-PHP\u{a0}3.0");
        reveal_strlit("-PHP\u{a0}3.01");
        reveal_with_fuel(lt_from, 10);
    }
    assert(precedes("-PHP\u{a0}3.01"@, "AAL"@)) by {
        reveal(precedes);
        reveal_strlit("-PHP\u{a0}3.01");
        reveal_strlit("AAL");
        reveal_with_fuel(lt_from, 2);
    }
    assert(precedes("AAL"@, "ADSL"@)) by {
        reveal(precedes);
        reveal_strlit("AAL");
        reveal_strlit("ADSL");
        reveal_with_fuel(lt_from, 3);
    }
    assert(precedes("ADSL"@, "AFL-1.1"@)) by {
        reveal(precedes);
        reveal_strlit("ADSL");
        reveal_strlit("AFL-1.1");
        reveal_with_fuel(lt_from, 3);
    }
    assert(precedes("AFL-1.1"@, "AFL-1.2"@)) by {
        reveal(precedes);
        reveal_strlit("AFL-1.1");
        reveal_strlit("AFL-1.2");
        reveal_with_fuel(lt_from, 8);
    }
    assert(precedes("AFL-1.2"@, "AFL-2.0"@)) by {
        reveal(precedes);
        reveal_strlit("AFL-1.2");
        reveal_strlit("AFL-2.0");
        reveal_with_fuel(lt_from, 6);
    }
    assert(precedes("AFL-2.0"@, "AFL-2.1"@)) by {
        reveal(precedes);
        reveal_strlit("AFL-2.0");
        reveal_strlit("AFL-2.1");
        reveal_with_fuel(lt_from, 8);
    }
    assert(precedes("AFL-2.1"@, "AFL-3.0"@)) by {
        reveal(precedes);
        reveal_strlit("AFL-2.1");
        reveal_strlit("AFL-3.0");
        reveal_with_fuel(lt_from, 6);
    }
    assert(precedes("AFL-3.0"@, "AGPL-1.0-only"@)) by {
        reveal(precedes);
        reveal_strlit("AFL-3.0");
        reveal_strlit("AGPL-1.0-only");
        reveal_with_fuel(lt_from, 3);
    }
    assert(precedes("AGPL-1.0-only"@, "AGPL-1.0-or-later"@)) by {
        reveal(precedes);
        reveal_strlit("AGPL-1.0-only");
        reveal_strlit("AGPL-1.0-or-later");
        reveal_with_fuel(lt_from, 12);
    }
    assert(precedes("AGPL-1.0-or-later"@, "AGPL-3.0-only"@)) by {
        reveal(precedes);
        reveal_strlit("AGPL-1.0-or-later");
        reveal_strlit("AGPL-3.0-only");
        reveal_with_fuel(lt_from, 7);
    }
    assert(precedes("AGPL-3.0-only"@, "AGPL-3.0-or-later"@)) by {
        reveal(precedes);
        reveal_strlit("AGPL-3.0-only");
        reveal_strlit("AGPL-3.0-or-later");
        reveal_with_fuel(lt_from, 12);
    }
    assert(precedes("AGPL-3.0-or-later"@, "AMDPLPA"@)) by {
        reveal(precedes);
        reveal_strlit("AGPL-3.0-or-later");
        reveal_strlit("AMDPLPA");
        reveal_with_fuel(lt_from, 3);
    }
    assert(precedes("AMDPLPA"@, "AML"@)) by {
        reveal(precedes);
        reveal_strlit("AMDPLPA");
        reveal_strlit("AML");
        reveal_with_fuel(lt_from, 4);
    }
    assert(precedes("AML"@, "AMPAS"@)) by {
        reveal(precedes);
        reveal_strlit("AML");
        reveal_strlit("AMPAS");
        reveal_with_fuel(lt_from, 4);
    }
}

/// Identifier order is strictly ascending from position 15 to position 30.
#[verifier::spinoff_prover]
#[verifier::rlimit(60)]
proof fn lemma_ids_ascending_1(p: nat)
    requires
        15 <= p < 30,
    ensures
        precedes(SpdxLicense::with_id_rank(p).spec_id(), SpdxLicense::with_id_rank(p + 1).spec_id()),
{
    assert(precedes("AMPAS"@, "ANTLR-PD"@)) by {
        reveal(precedes);
        reveal_strlit("AMPAS");
        reveal_strlit("ANTLR-PD");
        reveal_with_fuel(lt_from, 3);
    }
    assert(precedes("ANTLR-PD"@, "APAFML"@)) by {
        reveal(precedes);
        reveal_strlit("ANTLR-PD");
        reveal_strlit("APAFML");
        reveal_with_fuel(lt_from, 3);
    }
    assert(precedes("APAFML"@, "APL-1.0"@)) by {
        reveal(precedes);
        reveal_strlit("APAFML");
        reveal_strlit("APL-1.0");
        reveal_with_fuel(lt_from, 4);
    }
    assert(precedes("APL-1.0"@, "APSL-1.0"@)) by {
        reveal(precedes);
        reveal_strlit("APL-1.0");
        reveal_strlit("APSL-1.0");
        reveal_with_fuel(lt_from, 4);
    }
    assert(precedes("APSL-1.0"@, "APSL-1.1"@)) by {
        reveal(precedes);
        reveal_strlit("APSL-1.0");
        reveal_strlit("APSL-1.1");
        reveal_with_fuel(lt_from, 9);
    }
    assert(precedes("APSL-1.1"@, "APSL-1.2"@)) by {
        reveal(precedes);
        reveal_strlit("APSL-1.1");
        reveal_strlit("APSL-1.2");
        reveal_with_fuel(lt_from, 9);
    }
    assert(precedes("APSL-1.2"@, "APSL-2.0"@)) by {
        reveal(precedes);
        reveal_strlit("APSL-1.2");
        reveal_strlit("APSL-2.0");
        reveal_with_fuel(lt_from, 7);
    }
    assert(precedes("APSL-2.0"@, "Abstyles"@)) by {
        reveal(precedes);
        reveal_strlit("APSL-2.0");
        reveal_strlit("Abstyles");
        reveal_with_fuel(lt_from, 3);
    }
    assert(precedes("Abstyles"@, "Adobe-2006"@)) by {
        reveal(precedes);
        reveal_strlit("Abstyles");
        reveal_strlit("Adobe-2006");
        reveal_with_fuel(lt_from, 3);
    }
    assert(precedes("Adobe-2006"@, "Adobe-Glyph"@)) by {
        reveal(precedes);
        reveal_strlit("Adobe-2006");
        reveal_strlit("Adobe-Glyph");
        reveal_with_fuel(lt_from, 8);
    }
    assert(precedes("Adobe-Glyph"@, "Afmparse"@)) by {
        reveal(precedes);
        reveal_strlit("Adobe-Glyph");
        reveal_strlit("Afmparse");
        reveal_with_fuel(lt_from, 3);
    }
    assert(precedes("Afmparse"@, "Aladdin"@)) by {
        reveal(precedes);
        reveal_strlit("Afmparse");
        reveal_strlit("Aladdin");
        reveal_with_fuel(lt_from, 3);
    }
    assert(precedes("Aladdin"@, "Apache-1.0"@)) by {
        reveal(precedes);
        reveal_strlit("Aladdin");
        reveal_strlit("Apache-1.0");
        reveal_with_fuel(lt_from, 3);
    }
    assert(precedes("Apache-1.0"@, "Apache-1.1"@)) by {
        reveal(precedes);
        reveal_strlit("Apache-1.0");
        reveal_strlit("Apache-1.1");
        reveal_with_fuel(lt_from, 11);
    }
    assert(precedes("Apache-1.1"@, "Apache-2.0"@)) by {
        reveal(precedes);
        reveal_strlit("Apache-1.1");
        reveal_strlit("Apache-2.0");
        reveal_with_fuel(lt_from, 9);
    }
}

/// Identifier order is strictly ascending from position 30 to position 45.
#[verifier::spinoff_prover]
#[verifier::rlimit(60)]
proof fn lemma_ids_ascending_2(p: nat)
    requires
        30 <= p < 45,
    ensures
        precedes(SpdxLicense::with_id_rank(p).spec_id(), SpdxLicense::with_id_rank(p + 1).spec_id()),
{
    assert(precedes("Apache-2.0"@, "Artistic-1.0"@)) by {
        reveal(precedes);
        reveal_strlit("Apache-2.0");
        reveal_strlit("Artistic-1.0");
        reveal_with_fuel(lt_from, 3);
    }
    assert(precedes("Artistic-1.0"@, "Artistic-1.0-Perl"@)) by {
        reveal(precedes);
        reveal_strlit("Artistic-1.0");
        reveal_strlit("Artistic-1.0-Perl");
        reveal_with_fuel(lt_from, 14);
    }
    assert(precedes("Artistic-1.0-Perl"@, "Artistic-1.0-cl8"@)) by {
        reveal(precedes);
        reveal_strlit("Artistic-1.0-Perl");
        reveal_strlit("Artistic-1.0-cl8");
        reveal_with_fuel(lt_from, 15);
    }
    assert(precedes("Artistic-1.0-cl8"@, "Artistic-2.0"@)) by {
        reveal(precedes);
        reveal_strlit("Artistic-1.0-cl8");
        reveal_strlit("Artistic-2.0");
        reveal_with_fuel(lt_from, 11);
    }
    assert(precedes("Artistic-2.0"@, "BSD-1-Clause"@)) by {
        reveal(precedes);
        reveal_strlit("Artistic-2.0");
        reveal_strlit("BSD-1-Clause");
        reveal_with_fuel(lt_from, 2);
    }
    assert(precedes("BSD-1-Clause"@, "BSD-2-Clause"@)) by {
        reveal(precedes);
        reveal_strlit("BSD-1-Clause");
        reveal_strlit("BSD-2-Clause");
        reveal_with_fuel(lt_from, 6);
    }
    assert(precedes("BSD-2-Clause"@, "BSD-2-Clause-FreeBSD"@)) by {
        reveal(precedes);
        reveal_strlit("BSD-2-Clause");
        reveal_strlit("BSD-2-Clause-FreeBSD");
        reveal_with_fuel(lt_from, 14);
    }
    assert(precedes("BSD-2-Clause-FreeBSD"@, "BSD-2-Clause-NetBSD"@)) by {
        reveal(precedes);
        reveal_strlit("BSD-2-Clause-FreeBSD");
        reveal_strlit("BSD-2-Clause-NetBSD");
        reveal_with_fuel(lt_from, 15);
    }
    assert(precedes("BSD-2-Clause-NetBSD"@, "BSD-2-Clause-Patent"@)) by {
        reveal(precedes);
        reveal_strlit("BSD-2-Clause-NetBSD");
        reveal_strlit("BSD-2-Clause-Patent");
        reveal_with_fuel(lt_from, 15);
    }
    assert(precedes("BSD-2-Clause-Patent"@, "BSD-3-Clause"@)) by {
        reveal(precedes);
        reveal_strlit("BSD-2-Clause-Patent");
        reveal_strlit("BSD-3-Clause");
        reveal_with_fuel(lt_from, 6);
    }
    assert(precedes("BSD-3-Clause"@, "BSD-3-Clause-Attribution"@)) by {
        reveal(precedes);
        reveal_strlit("BSD-3-Clause");
        reveal_strlit("BSD-3-Clause-Attribution");
        reveal_with_fuel(lt_from, 14);
    }
    assert(precedes("BSD-3-Clause-Attribution"@, "BSD-3-Clause-Clear"@)) by {
        reveal(precedes);
        reveal_strlit("BSD-3-Clause-Attribution");
        reveal_strlit("BSD-3-Clause-Clear");
        reveal_with_fuel(lt_from, 15);
    }
    assert(precedes("BSD-3-Clause-Clear"@, "BSD-3-Clause-LBNL"@)) by {
        reveal(precedes);
        reveal_strlit("BSD-3-Clause-Clear");
        reveal_strlit("BSD-3-Clause-LBNL");
        reveal_with_fuel(lt_from, 15);
    }
    assert(precedes("BSD-3-Clause-LBNL"@, "BSD-3-Clause-No-Nuclear-License"@)) by {
        reveal(precedes);
        reveal_strlit("BSD-3-Clause-LBNL");
        reveal_strlit("BSD-3-Clause-No-Nuclear-License");
        reveal_with_fuel(lt_from, 15);
    }
    assert(precedes("BSD-3-Clause-No-Nuclear-License"@, "BSD-3-Clause-No-Nuclear-License-2014"@)) by {
        reveal(precedes);
        reveal_strlit("BSD-3-Clause-No-Nuclear-License");
        reveal_strlit("BSD-3-Clause-No-Nuclear-License-2014");
        reveal_with_fuel(lt_from, 33);
    }
}

/// Identifier order is strictly ascending from position 45 to position 60.
#[verifier::spinoff_prover]
#[verifier::rlimit(60)]
proof fn lemma_ids_ascending_3(p: nat)
    requires
        45 <= p < 60,
    ensures
        precedes(SpdxLicense::with_id_rank(p).spec_id(), SpdxLicense::with_id_rank(p + 1).spec_id()),
{
    assert(precedes("BSD-3-Clause-No-Nuclear-License-2014"@, "BSD-3-Clause-No-Nuclear-Warranty"@)) by {
        reveal(precedes);
        reveal_strlit("BSD-3-Clause-No-Nuclear-License-2014");
        reveal_strlit("BSD-3-Clause-No-Nuclear-Warranty");
        reveal_with_fuel(lt_from, 26);
    }
    assert(precedes("BSD-3-Clause-No-Nuclear-Warranty"@, "BSD-3-Clause-Open-MPI"@)) by {
        reveal(precedes);
        reveal_strlit("BSD-3-Clause-No-Nuclear-Warranty");
        reveal_strlit("BSD-3-Clause-Open-MPI");
        reveal_with_fuel(lt_from, 15);
    }
    assert(precedes("BSD-3-Clause-Open-MPI"@, "BSD-4-Clause"@)) by {
        reveal(precedes);
        reveal_strlit("BSD-3-Clause-Open-MPI");
        reveal_strlit("BSD-4-Clause");
        reveal_with_fuel(lt_from, 6);
    }
    assert(precedes("BSD-4-Clause"@, "BSD-4-Clause-UC"@)) by {
        reveal(precedes);
        reveal_strlit("BSD-4-Clause");
        reveal_strlit("BSD-4-Clause-UC");
        reveal_with_fuel(lt_from, 14);
    }
    assert(precedes("BSD-4-Clause-UC"@, "BSD-Protection"@)) by {
        reveal(precedes);
        reveal_strlit("BSD-4-Clause-UC");
        reveal_strlit("BSD-Protection");
        reveal_with_fuel(lt_from, 6);
    }
    assert(precedes("BSD-Protection"@, "BSD-Source-Code"@)) by {
        reveal(precedes);
        reveal_strlit("BSD-Protection");
        reveal_strlit("BSD-Source-Code");
        reveal_with_fuel(lt_from, 6);
    }
    assert(precedes("BSD-Source-Code"@, "BSD\u{a0}0"@)) by {
        reveal(precedes);
        reveal_strlit("BSD-Source-Code");
        reveal_strlit("BSD\u{a0}0");
        reveal_with_fuel(lt_from, 5);
    }
    assert(precedes("BSD\u{a0}0"@, "BSL-1.0"@)) by {
        reveal(precedes);
        reveal_strlit("BSD\u{a0}0");
        reveal_strlit("BSL-1.0");
        reveal_with_fuel(lt_from, 4);
    }
    assert(precedes("BSL-1.0"@, "Bahyph"@)) by {
        reveal(precedes);
        reveal_strlit("BSL-1.0");
        reveal_strlit("Bahyph");
        reveal_with_fuel(lt_from, 3);
    }
    assert(precedes("Bahyph"@, "Barr"@)) by {
        reveal(precedes);
        reveal_strlit("Bahyph");
        reveal_strlit("Barr");
        reveal_with_fuel(lt_from, 4);
    }
    assert(precedes("Barr"@, "Beerware"@)) by {
        reveal(precedes);
        reveal_strlit("Barr");
        reveal_strlit("Beerware");
        reveal_with_fuel(lt_from, 3);
    }
    assert(precedes("Beerware"@, "BitTorrent-1.0"@)) by {
        reveal(precedes);
        reveal_strlit("Beerware");
        reveal_strlit("BitTorrent-1.0");
        reveal_with_fuel(lt_from, 3);
    }
    assert(precedes("BitTorrent-1.0"@, "BitTorrent-1.1"@)) by {
        reveal(precedes);
        reveal_strlit("BitTorrent-1.0");
        reveal_strlit("BitTorrent-1.1");
        reveal_with_fuel(lt_from, 15);
    }
    assert(precedes("BitTorrent-1.1"@, "BlueOak-1.0.0"@)) by {
        reveal(precedes);
        reveal_strlit("BitTorrent-1.1");
        reveal_strlit("BlueOak-1.0.0");
        reveal_with_fuel(lt_from, 3);
    }
    assert(precedes("BlueOak-1.0.0"@, "Borceux"@)) by {
        reveal(precedes);
        reveal_strlit("BlueOak-1.0.0");
        reveal_strlit("Borceux");
        reveal_with_fuel(lt_from, 3);
    }
}

/// Identifier order is strictly ascending from position 60 to position 75.
#[verifier::spinoff_prover]
#[verifier::rlimit(60)]
proof fn lemma_ids_ascending_4(p: nat)
    requires
        60 <= p < 75,
    ensures
        precedes(SpdxLicense::with_id_rank(p).spec_id(), SpdxLicense::with_id_rank(p + 1).spec_id()),
{
    assert(precedes("Borceux"@, "CATOSL-1.1"@)) by {
        reveal(precedes);
        reveal_strlit("Borceux");
        reveal_strlit("CATOSL-1.1");
        reveal_with_fuel(lt_from, 2);
    }
    assert(precedes("CATOSL-1.1"@, "CC-BY-1.0"@)) by {
        reveal(precedes);
        reveal_strlit("CATOSL-1.1");
        reveal_strlit("CC-BY-1.0");
        reveal_with_fuel(lt_from, 3);
    }
    assert(precedes("CC-BY-1.0"@, "CC-BY-2.0"@)) by {
        reveal(precedes);
        reveal_strlit("CC-BY-1.0");
        reveal_strlit("CC-BY-2.0");
        reveal_with_fuel(lt_from, 8);
    }
    assert(precedes("CC-BY-2.0"@, "CC-BY-2.5"@)) by {
        reveal(precedes);
        reveal_strlit("CC-BY-2.0");
        reveal_strlit("CC-BY-2.5");
        reveal_with_fuel(lt_from, 10);
    }
    assert(precedes("CC-BY-2.5"@, "CC-BY-3.0"@)) by {
        reveal(precedes);
        reveal_strlit("CC-BY-2.5");
        reveal_strlit("CC-BY-3.0");
        reveal_with_fuel(lt_from, 8);
    }
    assert(precedes("CC-BY-3.0"@, "CC-BY-4.0"@)) by {
        reveal(precedes);
        reveal_strlit("CC-BY-3.0");
        reveal_strlit("CC-BY-4.0");
        reveal_with_fuel(lt_from, 8);
    }
    assert(precedes("CC-BY-4.0"@, "CC-BY-NC-1.0"@)) by {
        reveal(precedes);
        reveal_strlit("CC-BY-4.0");
        reveal_strlit("CC-BY-NC-1.0");
        reveal_with_fuel(lt_from, 8);
    }
    assert(precedes("CC-BY-NC-1.0"@, "CC-BY-NC-2.0"@)) by {
        reveal(precedes);
        reveal_strlit("CC-BY-NC-1.0");
        reveal_strlit("CC-BY-NC-2.0");
        reveal_with_fuel(lt_from, 11);
    }
    assert(precedes("CC-BY-NC-2.0"@, "CC-BY-NC-2.5"@)) by {
        reveal(precedes);
        reveal_strlit("CC-BY-NC-2.0");
        reveal_strlit("CC-BY-NC-2.5");
        reveal_with_fuel(lt_from, 13);
    }
    assert(precedes("CC-BY-NC-2.5"@, "CC-BY-NC-3.0"@)) by {
        reveal(precedes);
        reveal_strlit("CC-BY-NC-2.5");
        reveal_strlit("CC-BY-NC-3.0");
        reveal_with_fuel(lt_from, 11);
    }
    assert(precedes("CC-BY-NC-3.0"@, "CC-BY-NC-4.0"@)) by {
        reveal(precedes);
        reveal_strlit("CC-BY-NC-3.0");
        reveal_strlit("CC-BY-NC-4.0");
        reveal_with_fuel(lt_from, 11);
    }
    assert(precedes("CC-BY-NC-4.0"@, "CC-BY-NC-ND-1.0"@)) by {
        reveal(precedes);
        reveal_strlit("CC-BY-NC-4.0");
        reveal_strlit("CC-BY-NC-ND-1.0");
        reveal_with_fuel(lt_from, 11);
    }
    assert(precedes("CC-BY-NC-ND-1.0"@, "CC-BY-NC-ND-2.0"@)) by {
        reveal(precedes);
        reveal_strlit("CC-BY-NC-ND-1.0");
        reveal_strlit("CC-BY-NC-ND-2.0");
        reveal_with_fuel(lt_from, 14);
    }
    assert(precedes("CC-BY-NC-ND-2.0"@, "CC-BY-NC-ND-2.5"@)) by {
        reveal(precedes);
        reveal_strlit("CC-BY-NC-ND-2.0");
        reveal_strlit("CC-BY-NC-ND-2.5");
        reveal_with_fuel(lt_from, 16);
    }
    assert(precedes("CC-BY-NC-ND-2.5"@, "CC-BY-NC-ND-3.0"@)) by {
        reveal(precedes);
        reveal_strlit("CC-BY-NC-ND-2.5");
        reveal_strlit("CC-BY-NC-ND-3.0");
        reveal_with_fuel(lt_from, 14);
    }
}

/// Identifier order is strictly ascending from position 75 to position 90.
#[verifier::spinoff_prover]
#[verifier::rlimit(60)]
proof fn lemma_ids_ascending_5(p: nat)
    requires
        75 <= p < 90,
    ensures
        precedes(SpdxLicense::with_id_rank(p).spec_id(), SpdxLicense::with_id_rank(p + 1).spec_id()),
{
    assert(precedes("CC-BY-NC-ND-3.0"@, "CC-BY-NC-ND-4.0"@)) by {
        reveal(precedes);
        reveal_strlit("CC-BY-NC-ND-3.0");
        reveal_strlit("CC-BY-NC-ND-4.0");
        reveal_with_fuel(lt_from, 14);
    }
    assert(precedes("CC-BY-NC-ND-4.0"@, "CC-BY-NC-SA-1.0"@)) by {
        reveal(precedes);
        reveal_strlit("CC-BY-NC-ND-4.0");
        reveal_strlit("CC-BY-NC-SA-1.0");
        reveal_with_fuel(lt_from, 11);
    }
    assert(precedes("CC-BY-NC-SA-1.0"@, "CC-BY-NC-SA-2.0"@)) by {
        reveal(precedes);
        reveal_strlit("CC-BY-NC-SA-1.0");
        reveal_strlit("CC-BY-NC-SA-2.0");
        reveal_with_fuel(lt_from, 14);
    }
    assert(precedes("CC-BY-NC-SA-2.0"@, "CC-BY-NC-SA-2.5"@)) by {
        reveal(precedes);
        reveal_strlit("CC-BY-NC-SA-2.0");
        reveal_strlit("CC-BY-NC-SA-2.5");
        reveal_with_fuel(lt_from, 16);
    }
    assert(precedes("CC-BY-NC-SA-2.5"@, "CC-BY-NC-SA-3.0"@)) by {
        reveal(precedes);
        reveal_strlit("CC-BY-NC-SA-2.5");
        reveal_strlit("CC-BY-NC-SA-3.0");
        reveal_with_fuel(lt_from, 14);
    }
    assert(precedes("CC-BY-NC-SA-3.0"@, "CC-BY-NC-SA-4.0"@)) by {
        reveal(precedes);
        reveal_strlit("CC-BY-NC-SA-3.0");
        reveal_strlit("CC-BY-NC-SA-4.0");
        reveal_with_fuel(lt_from, 14);
    }
    assert(precedes("CC-BY-NC-SA-4.0"@, "CC-BY-ND-1.0"@)) by {
        reveal(precedes);
        reveal_strlit("CC-BY-NC-SA-4.0");
        reveal_strlit("CC-BY-ND-1.0");
        reveal_with_fuel(lt_from, 9);
    }
    assert(precedes("CC-BY-ND-1.0"@, "CC-BY-ND-2.0"@)) by {
        reveal(precedes);
        reveal_strlit("CC-BY-ND-1.0");
        reveal_strlit("CC-BY-ND-2.0");
        reveal_with_fuel(lt_from, 11);
    }
    assert(precedes("CC-BY-ND-2.0"@, "CC-BY-ND-2.5"@)) by {
        reveal(precedes);
        reveal_strlit("CC-BY-ND-2.0");
        reveal_strlit("CC-BY-ND-2.5");
        reveal_with_fuel(lt_from, 13);
    }
    assert(precedes("CC-BY-ND-2.5"@, "CC-BY-ND-3.0"@)) by {
        reveal(precedes);
        reveal_strlit("CC-BY-ND-2.5");
        reveal_strlit("CC-BY-ND-3.0");
        reveal_with_fuel(lt_from, 11);
    }
    assert(precedes("CC-BY-ND-3.0"@, "CC-BY-ND-4.0"@)) by {
        reveal(precedes);
        reveal_strlit("CC-BY-ND-3.0");
        reveal_strlit("CC-BY-ND-4.0");
        reveal_with_fuel(lt_from, 11);
    }
    assert(precedes("CC-BY-ND-4.0"@, "CC-BY-SA-1.0"@)) by {
        reveal(precedes);
        reveal_strlit("CC-BY-ND-4.0");
        reveal_strlit("CC-BY-SA-1.0");
        reveal_with_fuel(lt_from, 8);
    }
    assert(precedes("CC-BY-SA-1.0"@, "CC-BY-SA-2.0"@)) by {
        reveal(precedes);
        reveal_strlit("CC-BY-SA-1.0");
        reveal_strlit("CC-BY-SA-2.0");
        reveal_with_fuel(lt_from, 11);
    }
    assert(precedes("CC-BY-SA-2.0"@, "CC-BY-SA-2.5"@)) by {
        reveal(precedes);
        reveal_strlit("CC-BY-SA-2.0");
        reveal_strlit("CC-BY-SA-2.5");
        reveal_with_fuel(lt_from, 13);
    }
    assert(precedes("CC-BY-SA-2.5"@, "CC-BY-SA-3.0"@)) by {
        reveal(precedes);
        reveal_strlit("CC-BY-SA-2.5");
        reveal_strlit("CC-BY-SA-3.0");
        reveal_with_fuel(lt_from, 11);
    }
}

/// Identifier order is strictly ascending from position 90 to position 105.
#[verifier::spinoff_prover]
#[verifier::rlimit(60)]
proof fn lemma_ids_ascending_6(p: nat)
    requires
        90 <= p < 105,
    ensures
        precedes(SpdxLicense::with_id_rank(p).spec_id(), SpdxLicense::with_id_rank(p + 1).spec_id()),
{
    assert(precedes("CC-BY-SA-3.0"@, "CC-BY-SA-4.0"@)) by {
        reveal(precedes);
        reveal_strlit("CC-BY-SA-3.0");
        reveal_strlit("CC-BY-SA-4.0");
        reveal_with_fuel(lt_from, 11);
    }
    assert(precedes("CC-BY-SA-4.0"@, "CC-PDDC"@)) by {
        reveal(precedes);
        reveal_strlit("CC-BY-SA-4.0");
        reveal_strlit("CC-PDDC");
        reveal_with_fuel(lt_from, 5);
    }
    assert(precedes("CC-PDDC"@, "CC0-1.0"@)) by {
        reveal(precedes);
        reveal_strlit("CC-PDDC");
        reveal_strlit("CC0-1.0");
        reveal_with_fuel(lt_from, 4);
    }
    assert(precedes("CC0-1.0"@, "CDDL-1.0"@)) by {
        reveal(precedes);
        reveal_strlit("CC0-1.0");
        reveal_strlit("CDDL-1.0");
        reveal_with_fuel(lt_from, 3);
    }
    assert(precedes("CDDL-1.0"@, "CDDL-1.1"@)) by {
        reveal(precedes);
        reveal_strlit("CDDL-1.0");
        reveal_strlit("CDDL-1.1");
        reveal_with_fuel(lt_from, 9);
    }
    assert(precedes("CDDL-1.1"@, "CDLA-Permissive-1.0"@)) by {
        reveal(precedes);
        reveal_strlit("CDDL-1.1");
        reveal_strlit("CDLA-Permissive-1.0");
        reveal_with_fuel(lt_from, 4);
    }
    assert(precedes("CDLA-Permissive-1.0"@, "CDLA-Sharing-1.0"@)) by {
        reveal(precedes);
        reveal_strlit("CDLA-Permissive-1.0");
        reveal_strlit("CDLA-Sharing-1.0");
        reveal_with_fuel(lt_from, 7);
    }
    assert(precedes("CDLA-Sharing-1.0"@, "CECILL-1.0"@)) by {
        reveal(precedes);
        reveal_strlit("CDLA-Sharing-1.0");
        reveal_strlit("CECILL-1.0");
        reveal_with_fuel(lt_from, 3);
    }
    assert(precedes("CECILL-1.0"@, "CECILL-1.1"@)) by {
        reveal(precedes);
        reveal_strlit("CECILL-1.0");
        reveal_strlit("CECILL-1.1");
        reveal_with_fuel(lt_from, 11);
    }
    assert(precedes("CECILL-1.1"@, "CECILL-2.0"@)) by {
        reveal(precedes);
        reveal_strlit("CECILL-1.1");
        reveal_strlit("CECILL-2.0");
        reveal_with_fuel(lt_from, 9);
    }
    assert(precedes("CECILL-2.0"@, "CECILL-2.1"@)) by {
        reveal(precedes);
        reveal_strlit("CECILL-2.0");
        reveal_strlit("CECILL-2.1");
        reveal_with_fuel(lt_from, 11);
    }
    assert(precedes("CECILL-2.1"@, "CECILL-B"@)) by {
        reveal(precedes);
        reveal_strlit("CECILL-2.1");
        reveal_strlit("CECILL-B");
        reveal_with_fuel(lt_from, 9);
    }
    assert(precedes("CECILL-B"@, "CECILL-C"@)) by {
        reveal(precedes);
        reveal_strlit("CECILL-B");
        reveal_strlit("CECILL-C");
        reveal_with_fuel(lt_from, 9);
    }
    assert(precedes("CECILL-C"@, "CERN-OHL-1.1"@)) by {
        reveal(precedes);
        reveal_strlit("CECILL-C");
        reveal_strlit("CERN-OHL-1.1");
        reveal_with_fuel(lt_from, 4);
    }
    assert(precedes("CERN-OHL-1.1"@, "CERN-OHL-1.2"@)) by {
        reveal(precedes);
        reveal_strlit("CERN-OHL-1.1");
        reveal_strlit("CERN-OHL-1.2");
        reveal_with_fuel(lt_from, 13);
    }
}

/// Identifier order is strictly ascending from position 105 to position 120.
#[verifier::spinoff_prover]
#[verifier::rlimit(60)]
proof fn lemma_ids_ascending_7(p: nat)
    requires
        105 <= p < 120,
    ensures
        precedes(SpdxLicense::with_id_rank(p).spec_id(), SpdxLicense::with_id_rank(p + 1).spec_id()),
{
    assert(precedes("CERN-OHL-1.2"@, "CNRI-Jython"@)) by {
        reveal(precedes);
        reveal_strlit("CERN-OHL-1.2");
        reveal_strlit("CNRI-Jython");
        reveal_with_fuel(lt_from, 3);
    }
    assert(precedes("CNRI-Jython"@, "CNRI-Python"@)) by {
        reveal(precedes);
        reveal_strlit("CNRI-Jython");
        reveal_strlit("CNRI-Python");
        reveal_with_fuel(lt_from, 7);
    }
    assert(precedes("CNRI-Python"@, "CNRI-Python-GPL-Compatible"@)) by {
        reveal(precedes);
        reveal_strlit("CNRI-Python");
        reveal_strlit("CNRI-Python-GPL-Compatible");
        reveal_with_fuel(lt_from, 13);
    }
    assert(precedes("CNRI-Python-GPL-Compatible"@, "CPAL-1.0"@)) by {
        reveal(precedes);
        reveal_strlit("CNRI-Python-GPL-Compatible");
        reveal_strlit("CPAL-1.0");
        reveal_with_fuel(lt_from, 3);
    }
    assert(precedes("CPAL-1.0"@, "CPL-1.0"@)) by {
        reveal(precedes);
        reveal_strlit("CPAL-1.0");
        reveal_strlit("CPL-1.0");
        reveal_with_fuel(lt_from, 4);
    }
    assert(precedes("CPL-1.0"@, "CPOL-1.02"@)) by {
        reveal(precedes);
        reveal_strlit("CPL-1.0");
        reveal_strlit("CPOL-1.02");
        reveal_with_fuel(lt_from, 4);
    }
    assert(precedes("CPOL-1.02"@, "CUA-OPL-1.0"@)) by {
        reveal(precedes);
        reveal_strlit("CPOL-1.02");
        reveal_strlit("CUA-OPL-1.0");
        reveal_with_fuel(lt_from, 3);
    }
    assert(precedes("CUA-OPL-1.0"@, "Caldera"@)) by {
        reveal(precedes);
        reveal_strlit("CUA-OPL-1.0");
        reveal_strlit("Caldera");
        reveal_with_fuel(lt_from, 3);
    }
    assert(precedes("Caldera"@, "ClArtistic"@)) by {
        reveal(precedes);
        reveal_strlit("Caldera");
        reveal_strlit("ClArtistic");
        reveal_with_fuel(lt_from, 3);
    }
    assert(precedes("ClArtistic"@, "Condor-1.1"@)) by {
        reveal(precedes);
        reveal_strlit("ClArtistic");
        reveal_strlit("Condor-1.1");
        reveal_with_fuel(lt_from, 3);
    }
    assert(precedes("Condor-1.1"@, "Crossword"@)) by {
        reveal(precedes);
        reveal_strlit("Condor-1.1");
        reveal_strlit("Crossword");
        reveal_with_fuel(lt_from, 3);
    }
    assert(precedes("Crossword"@, "CrystalStacker"@)) by {
        reveal(precedes);
        reveal_strlit("Crossword");
        reveal_strlit("CrystalStacker");
        reveal_with_fuel(lt_from, 4);
    }
    assert(precedes("CrystalStacker"@, "Cube"@)) by {
        reveal(precedes);
        reveal_strlit("CrystalStacker");
        reveal_strlit("Cube");
        reveal_with_fuel(lt_from, 3);
    }
    assert(precedes("Cube"@, "D-FSL-1.0"@)) by {
        reveal(precedes);
        reveal_strlit("Cube");
        reveal_strlit("D-FSL-1.0");
        reveal_with_fuel(lt_from, 2);
    }
    assert(precedes("D-FSL-1.0"@, "DOC"@)) by {
        reveal(precedes);
        reveal_strlit("D-FSL-1.0");
        reveal_strlit("DOC");
        reveal_with_fuel(lt_from, 3);
    }
}

/// Identifier order is strictly ascending from position 120 to position 135.
#[verifier::spinoff_prover]
#[verifier::rlimit(60)]
proof fn lemma_ids_ascending_8(p: nat)
    requires
        120 <= p < 135,
    ensures
        precedes(SpdxLicense::with_id_rank(p).spec_id(), SpdxLicense::with_id_rank(p + 1).spec_id()),
{
    assert(precedes("DOC"@, "DSDP"@)) by {
        reveal(precedes);
        reveal_strlit("DOC");
        reveal_strlit("DSDP");
        reveal_with_fuel(lt_from, 3);
    }
    assert(precedes("DSDP"@, "Dotseqn"@)) by {
        reveal(precedes);
        reveal_strlit("DSDP");
        reveal_strlit("Dotseqn");
        reveal_with_fuel(lt_from, 3);
    }
    assert(precedes("Dotseqn"@, "ECL-1.0"@)) by {
        reveal(precedes);
        reveal_strlit("Dotseqn");
        reveal_strlit("ECL-1.0");
        reveal_with_fuel(lt_from, 2);
    }
    assert(precedes("ECL-1.0"@, "ECL-2.0"@)) by {
        reveal(precedes);
        reveal_strlit("ECL-1.0");
        reveal_strlit("ECL-2.0");
        reveal_with_fuel(lt_from, 6);
    }
    assert(precedes("ECL-2.0"@, "EFL-1.0"@)) by {
        reveal(precedes);
        reveal_strlit("ECL-2.0");
        reveal_strlit("EFL-1.0");
        reveal_with_fuel(lt_from, 3);
    }
    assert(precedes("EFL-1.0"@, "EFL-2.0"@)) by {
        reveal(precedes);
        reveal_strlit("EFL-1.0");
        reveal_strlit("EFL-2.0");
        reveal_with_fuel(lt_from, 6);
    }
    assert(precedes("EFL-2.0"@, "EPL-1.0"@)) by {
        reveal(precedes);
        reveal_strlit("EFL-2.0");
        reveal_strlit("EPL-1.0");
        reveal_with_fuel(lt_from, 3);
    }
    assert(precedes("EPL-1.0"@, "EPL-2.0"@)) by {
        reveal(precedes);
        reveal_strlit("EPL-1.0");
        reveal_strlit("EPL-2.0");
        reveal_with_fuel(lt_from, 6);
    }
    assert(precedes("EPL-2.0"@, "EUDatagrid"@)) by {
        reveal(precedes);
        reveal_strlit("EPL-2.0");
        reveal_strlit("EUDatagrid");
        reveal_with_fuel(lt_from, 3);
    }
    assert(precedes("EUDatagrid"@, "EUPL-1.0"@)) by {
        reveal(precedes);
        reveal_strlit("EUDatagrid");
        reveal_strlit("EUPL-1.0");
        reveal_with_fuel(lt_from, 4);
    }
    assert(precedes("EUPL-1.0"@, "EUPL-1.1"@)) by {
        reveal(precedes);
        reveal_strlit("EUPL-1.0");
        reveal_strlit("EUPL-1.1");
        reveal_with_fuel(lt_from, 9);
    }
    assert(precedes("EUPL-1.1"@, "EUPL-1.2"@)) by {
        reveal(precedes);
        reveal_strlit("EUPL-1.1");
        reveal_strlit("EUPL-1.2");
        reveal_with_fuel(lt_from, 9);
    }
    assert(precedes("EUPL-1.2"@, "Entessa"@)) by {
        reveal(precedes);
        reveal_strlit("EUPL-1.2");
        reveal_strlit("Entessa");
        reveal_with_fuel(lt_from, 3);
    }
    assert(precedes("Entessa"@, "ErlPL-1.1"@)) by {
        reveal(precedes);
        reveal_strlit("Entessa");
        reveal_strlit("ErlPL-1.1");
        reveal_with_fuel(lt_from, 3);
    }
    assert(precedes("ErlPL-1.1"@, "Eurosym"@)) by {
        reveal(precedes);
        reveal_strlit("ErlPL-1.1");
        reveal_strlit("Eurosym");
        reveal_with_fuel(lt_from, 3);
    }
}

/// Identifier order is strictly ascending from position 135 to position 150.
#[verifier::spinoff_prover]
#[verifier::rlimit(60)]
proof fn lemma_ids_ascending_9(p: nat)
    requires
        135 <= p < 150,
    ensures
        precedes(SpdxLicense::with_id_rank(p).spec_id(), SpdxLicense::with_id_rank(p + 1).spec_id()),
{
    assert(precedes("Eurosym"@, "FSFAP"@)) by {
        reveal(precedes);
        reveal_strlit("Eurosym");
        reveal_strlit("FSFAP");
        reveal_with_fuel(lt_from, 2);
    }
    assert(precedes("FSFAP"@, "FSFUL"@)) by {
        reveal(precedes);
        reveal_strlit("FSFAP");
        reveal_strlit("FSFUL");
        reveal_with_fuel(lt_from, 5);
    }
    assert(precedes("FSFUL"@, "FSFULLR"@)) by {
        reveal(precedes);
        reveal_strlit("FSFUL");
        reveal_strlit("FSFULLR");
        reveal_with_fuel(lt_from, 7);
    }
    assert(precedes("FSFULLR"@, "FTL"@)) by {
        reveal(precedes);
        reveal_strlit("FSFULLR");
        reveal_strlit("FTL");
        reveal_with_fuel(lt_from, 3);
    }
    assert(precedes("FTL"@, "Fair"@)) by {
        reveal(precedes);
        reveal_strlit("FTL");
        reveal_strlit("Fair");
        reveal_with_fuel(lt_from, 3);
    }
    assert(precedes("Fair"@, "Frameworx-1.0"@)) by {
        reveal(precedes);
        reveal_strlit("Fair");
        reveal_strlit("Frameworx-1.0");
        reveal_with_fuel(lt_from, 3);
    }
    assert(precedes("Frameworx-1.0"@, "FreeImage"@)) by {
        reveal(precedes);
        reveal_strlit("Frameworx-1.0");
        reveal_strlit("FreeImage");
        reveal_with_fuel(lt_from, 4);
    }
    assert(precedes("FreeImage"@, "GFDL-1.1-only"@)) by {
        reveal(precedes);
        reveal_strlit("FreeImage");
        reveal_strlit("GFDL-1.1-only");
        reveal_with_fuel(lt_from, 2);
    }
    assert(precedes("GFDL-1.1-only"@, "GFDL-1.1-or-later"@)) by {
        reveal(precedes);
        reveal_strlit("GFDL-1.1-only");
        reveal_strlit("GFDL-1.1-or-later");
        reveal_with_fuel(lt_from, 12);
    }
    assert(precedes("GFDL-1.1-or-later"@, "GFDL-1.2-only"@)) by {
        reveal(precedes);
        reveal_strlit("GFDL-1.1-or-later");
        reveal_strlit("GFDL-1.2-only");
        reveal_with_fuel(lt_from, 9);
    }
    assert(precedes("GFDL-1.2-only"@, "GFDL-1.2-or-later"@)) by {
        reveal(precedes);
        reveal_strlit("GFDL-1.2-only");
        reveal_strlit("GFDL-1.2-or-later");
        reveal_with_fuel(lt_from, 12);
    }
    assert(precedes("GFDL-1.2-or-later"@, "GFDL-1.3-only"@)) by {
        reveal(precedes);
        reveal_strlit("GFDL-1.2-or-later");
        reveal_strlit("GFDL-1.3-only");
        reveal_with_fuel(lt_from, 9);
    }
    assert(precedes("GFDL-1.3-only"@, "GFDL-1.3-or-later"@)) by {
        reveal(precedes);
        reveal_strlit("GFDL-1.3-only");
        reveal_strlit("GFDL-1.3-or-later");
        reveal_with_fuel(lt_from, 12);
    }
    assert(precedes("GFDL-1.3-or-later"@, "GL2PS"@)) by {
        reveal(precedes);
        reveal_strlit("GFDL-1.3-or-later");
        reveal_strlit("GL2PS");
        reveal_with_fuel(lt_from, 3);
    }
    assert(precedes("GL2PS"@, "GPL-1.0-only"@)) by {
        reveal(precedes);
        reveal_strlit("GL2PS");
        reveal_strlit("GPL-1.0-only");
        reveal_with_fuel(lt_from, 3);
    }
}

/// Identifier order is strictly ascending from position 150 to position 165.
#[verifier::spinoff_prover]
#[verifier::rlimit(60)]
proof fn lemma_ids_ascending_10(p: nat)
    requires
        150 <= p < 165,
    ensures
        precedes(SpdxLicense::with_id_rank(p).spec_id(), SpdxLicense::with_id_rank(p + 1).spec_id()),
{
    assert(precedes("GPL-1.0-only"@, "GPL-1.0-or-later"@)) by {
        reveal(precedes);
        reveal_strlit("GPL-1.0-only");
        reveal_strlit("GPL-1.0-or-later");
        reveal_with_fuel(lt_from, 11);
    }
    assert(precedes("GPL-1.0-or-later"@, "GPL-2.0-only"@)) by {
        reveal(precedes);
        reveal_strlit("GPL-1.0-or-later");
        reveal_strlit("GPL-2.0-only");
        reveal_with_fuel(lt_from, 6);
    }
    assert(precedes("GPL-2.0-only"@, "GPL-2.0-or-later"@)) by {
        reveal(precedes);
        reveal_strlit("GPL-2.0-only");
        reveal_strlit("GPL-2.0-or-later");
        reveal_with_fuel(lt_from, 11);
    }
    assert(precedes("GPL-2.0-or-later"@, "GPL-3.0-only"@)) by {
        reveal(precedes);
        reveal_strlit("GPL-2.0-or-later");
        reveal_strlit("GPL-3.0-only");
        reveal_with_fuel(lt_from, 6);
    }
    assert(precedes("GPL-3.0-only"@, "GPL-3.0-or-later"@)) by {
        reveal(precedes);
        reveal_strlit("GPL-3.0-only");
        reveal_strlit("GPL-3.0-or-later");
        reveal_with_fuel(lt_from, 11);
    }
    assert(precedes("GPL-3.0-or-later"@, "Giftware"@)) by {
        reveal(precedes);
        reveal_strlit("GPL-3.0-or-later");
        reveal_strlit("Giftware");
        reveal_with_fuel(lt_from, 3);
    }
    assert(precedes("Giftware"@, "Glide"@)) by {
        reveal(precedes);
        reveal_strlit("Giftware");
        reveal_strlit("Glide");
        reveal_with_fuel(lt_from, 3);
    }
    assert(precedes("Glide"@, "Glulxe"@)) by {
        reveal(precedes);
        reveal_strlit("Glide");
        reveal_strlit("Glulxe");
        reveal_with_fuel(lt_from, 4);
    }
    assert(precedes("Glulxe"@, "HPND"@)) by {
        reveal(precedes);
        reveal_strlit("Glulxe");
        reveal_strlit("HPND");
        reveal_with_fuel(lt_from, 2);
    }
    assert(precedes("HPND"@, "HPND-sell-variant"@)) by {
        reveal(precedes);
        reveal_strlit("HPND");
        reveal_strlit("HPND-sell-variant");
        reveal_with_fuel(lt_from, 6);
    }
    assert(precedes("HPND-sell-variant"@, "HaskellReport"@)) by {
        reveal(precedes);
        reveal_strlit("HPND-sell-variant");
        reveal_strlit("HaskellReport");
        reveal_with_fuel(lt_from, 3);
    }
    assert(precedes("HaskellReport"@, "IBM-pibs"@)) by {
        reveal(precedes);
        reveal_strlit("HaskellReport");
        reveal_strlit("IBM-pibs");
        reveal_with_fuel(lt_from, 2);
    }
    assert(precedes("IBM-pibs"@, "ICU"@)) by {
        reveal(precedes);
        reveal_strlit("IBM-pibs");
        reveal_strlit("ICU");
        reveal_with_fuel(lt_from, 3);
    }
    assert(precedes("ICU"@, "IJG"@)) by {
        reveal(precedes);
        reveal_strlit("ICU");
        reveal_strlit("IJG");
        reveal_with_fuel(lt_from, 3);
    }
    assert(precedes("IJG"@, "IPA"@)) by {
        reveal(precedes);
        reveal_strlit("IJG");
        reveal_strlit("IPA");
        reveal_with_fuel(lt_from, 3);
    }
}

/// Identifier order is strictly ascending from position 165 to position 180.
#[verifier::spinoff_prover]
#[verifier::rlimit(60)]
proof fn lemma_ids_ascending_11(p: nat)
    requires
        165 <= p < 180,
    ensures
        precedes(SpdxLicense::with_id_rank(p).spec_id(), SpdxLicense::with_id_rank(p + 1).spec_id()),
{
    assert(precedes("IPA"@, "IPL-1.0"@)) by {
        reveal(precedes);
        reveal_strlit("IPA");
        reveal_strlit("IPL-1.0");
        reveal_with_fuel(lt_from, 4);
    }
    assert(precedes("IPL-1.0"@, "ISC"@)) by {
        reveal(precedes);
        reveal_strlit("IPL-1.0");
        reveal_strlit("ISC");
        reveal_with_fuel(lt_from, 3);
    }
    assert(precedes("ISC"@, "ImageMagick"@)) by {
        reveal(precedes);
        reveal_strlit("ISC");
        reveal_strlit("ImageMagick");
        reveal_with_fuel(lt_from, 3);
    }
    assert(precedes("ImageMagick"@, "Imlib2"@)) by {
        reveal(precedes);
        reveal_strlit("ImageMagick");
        reveal_strlit("Imlib2");
        reveal_with_fuel(lt_from, 4);
    }
    assert(precedes("Imlib2"@, "Info-ZIP"@)) by {
        reveal(precedes);
        reveal_strlit("Imlib2");
        reveal_strlit("Info-ZIP");
        reveal_with_fuel(lt_from, 3);
    }
    assert(precedes("Info-ZIP"@, "Intel"@)) by {
        reveal(precedes);
        reveal_strlit("Info-ZIP");
        reveal_strlit("Intel");
        reveal_with_fuel(lt_from, 4);
    }
    assert(precedes("Intel"@, "Intel-ACPI"@)) by {
        reveal(precedes);
        reveal_strlit("Intel");
        reveal_strlit("Intel-ACPI");
        reveal_with_fuel(lt_from, 7);
    }
    assert(precedes("Intel-ACPI"@, "Interbase-1.0"@)) by {
        reveal(precedes);
        reveal_strlit("Intel-ACPI");
        reveal_strlit("Interbase-1.0");
        reveal_with_fuel(lt_from, 6);
    }
    assert(precedes("Interbase-1.0"@, "JPNIC"@)) by {
        reveal(precedes);
        reveal_strlit("Interbase-1.0");
        reveal_strlit("JPNIC");
        reveal_with_fuel(lt_from, 2);
    }
    assert(precedes("JPNIC"@, "JSON"@)) by {
        reveal(precedes);
        reveal_strlit("JPNIC");
        reveal_strlit("JSON");
        reveal_with_fuel(lt_from, 3);
    }
    assert(precedes("JSON"@, "JasPer-2.0"@)) by {
        reveal(precedes);
        reveal_strlit("JSON");
        reveal_strlit("JasPer-2.0");
        reveal_with_fuel(lt_from, 3);
    }
    assert(precedes("JasPer-2.0"@, "LAL-1.2"@)) by {
        reveal(precedes);
        reveal_strlit("JasPer-2.0");
        reveal_strlit("LAL-1.2");
        reveal_with_fuel(lt_from, 2);
    }
    assert(precedes("LAL-1.2"@, "LAL-1.3"@)) by {
        reveal(precedes);
        reveal_strlit("LAL-1.2");
        reveal_strlit("LAL-1.3");
        reveal_with_fuel(lt_from, 8);
    }
    assert(precedes("LAL-1.3"@, "LGPL-2.0-only"@)) by {
        reveal(precedes);
        reveal_strlit("LAL-1.3");
        reveal_strlit("LGPL-2.0-only");
        reveal_with_fuel(lt_from, 3);
    }
    assert(precedes("LGPL-2.0-only"@, "LGPL-2.0-or-later"@)) by {
        reveal(precedes);
        reveal_strlit("LGPL-2.0-only");
        reveal_strlit("LGPL-2.0-or-later");
        reveal_with_fuel(lt_from, 12);
    }
}

/// Identifier order is strictly ascending from position 180 to position 195.
#[verifier::spinoff_prover]
#[verifier::rlimit(60)]
proof fn lemma_ids_ascending_12(p: nat)
    requires
        180 <= p < 195,
    ensures
        precedes(SpdxLicense::with_id_rank(p).spec_id(), SpdxLicense::with_id_rank(p + 1).spec_id()),
{
    assert(precedes("LGPL-2.0-or-later"@, "LGPL-2.1-only"@)) by {
        reveal(precedes);
        reveal_strlit("LGPL-2.0-or-later");
        reveal_strlit("LGPL-2.1-only");
        reveal_with_fuel(lt_from, 9);
    }
    assert(precedes("LGPL-2.1-only"@, "LGPL-2.1-or-later"@)) by {
        reveal(precedes);
        reveal_strlit("LGPL-2.1-only");
        reveal_strlit("LGPL-2.1-or-later");
        reveal_with_fuel(lt_from, 12);
    }
    assert(precedes("LGPL-2.1-or-later"@, "LGPL-3.0-only"@)) by {
        reveal(precedes);
        reveal_strlit("LGPL-2.1-or-later");
        reveal_strlit("LGPL-3.0-only");
        reveal_with_fuel(lt_from, 7);
    }
    assert(precedes("LGPL-3.0-only"@, "LGPL-3.0-or-later"@)) by {
        reveal(precedes);
        reveal_strlit("LGPL-3.0-only");
        reveal_strlit("LGPL-3.0-or-later");
        reveal_with_fuel(lt_from, 12);
    }
    assert(precedes("LGPL-3.0-or-later"@, "LGPLLR"@)) by {
        reveal(precedes);
        reveal_strlit("LGPL-3.0-or-later");
        reveal_strlit("LGPLLR");
        reveal_with_fuel(lt_from, 6);
    }
    assert(precedes("LGPLLR"@, "LPL-1.0"@)) by {
        reveal(precedes);
        reveal_strlit("LGPLLR");
        reveal_strlit("LPL-1.0");
        reveal_with_fuel(lt_from, 3);
    }
    assert(precedes("LPL-1.0"@, "LPL-1.02"@)) by {
        reveal(precedes);
        reveal_strlit("LPL-1.0");
        reveal_strlit("LPL-1.02");
        reveal_with_fuel(lt_from, 9);
    }
    assert(precedes("LPL-1.02"@, "LPPL-1.0"@)) by {
        reveal(precedes);
        reveal_strlit("LPL-1.02");
        reveal_strlit("LPPL-1.0");
        reveal_with_fuel(lt_from, 4);
    }
    assert(precedes("LPPL-1.0"@, "LPPL-1.1"@)) by {
        reveal(precedes);
        reveal_strlit("LPPL-1.0");
        reveal_strlit("LPPL-1.1");
        reveal_with_fuel(lt_from, 9);
    }
    assert(precedes("LPPL-1.1"@, "LPPL-1.2"@)) by {
        reveal(precedes);
        reveal_strlit("LPPL-1.1");
        reveal_strlit("LPPL-1.2");
        reveal_with_fuel(lt_from, 9);
    }
    assert(precedes("LPPL-1.2"@, "LPPL-1.3a"@)) by {
        reveal(precedes);
        reveal_strlit("LPPL-1.2");
        reveal_strlit("LPPL-1.3a");
        reveal_with_fuel(lt_from, 9);
    }
    assert(precedes("LPPL-1.3a"@, "LPPL-1.3c"@)) by {
        reveal(precedes);
        reveal_strlit("LPPL-1.3a");
        reveal_strlit("LPPL-1.3c");
        reveal_with_fuel(lt_from, 10);
    }
    assert(precedes("LPPL-1.3c"@, "Latex2e"@)) by {
        reveal(precedes);
        reveal_strlit("LPPL-1.3c");
        reveal_strlit("Latex2e");
        reveal_with_fuel(lt_from, 3);
    }
    assert(precedes("Latex2e"@, "Leptonica"@)) by {
        reveal(precedes);
        reveal_strlit("Latex2e");
        reveal_strlit("Leptonica");
        reveal_with_fuel(lt_from, 3);
    }
    assert(precedes("Leptonica"@, "LiLiQ-P-1.1"@)) by {
        reveal(precedes);
        reveal_strlit("Leptonica");
        reveal_strlit("LiLiQ-P-1.1");
        reveal_with_fuel(lt_from, 3);
    }
}

/// Identifier order is strictly ascending from position 195 to position 210.
#[verifier::spinoff_prover]
#[verifier::rlimit(60)]
proof fn lemma_ids_ascending_13(p: nat)
    requires
        195 <= p < 210,
    ensures
        precedes(SpdxLicense::with_id_rank(p).spec_id(), SpdxLicense::with_id_rank(p + 1).spec_id()),
{
    assert(precedes("LiLiQ-P-1.1"@, "LiLiQ-R-1.1"@)) by {
        reveal(precedes);
        reveal_strlit("LiLiQ-P-1.1");
        reveal_strlit("LiLiQ-R-1.1");
        reveal_with_fuel(lt_from, 8);
    }
    assert(precedes("LiLiQ-R-1.1"@, "LiLiQ-Rplus-1.1"@)) by {
        reveal(precedes);
        reveal_strlit("LiLiQ-R-1.1");
        reveal_strlit("LiLiQ-Rplus-1.1");
        reveal_with_fuel(lt_from, 9);
    }
    assert(precedes("LiLiQ-Rplus-1.1"@, "Libpng"@)) by {
        reveal(precedes);
        reveal_strlit("LiLiQ-Rplus-1.1");
        reveal_strlit("Libpng");
        reveal_with_fuel(lt_from, 4);
    }
    assert(precedes("Libpng"@, "Linux-OpenIB"@)) by {
        reveal(precedes);
        reveal_strlit("Libpng");
        reveal_strlit("Linux-OpenIB");
        reveal_with_fuel(lt_from, 4);
    }
    assert(precedes("Linux-OpenIB"@, "MIT"@)) by {
        reveal(precedes);
        reveal_strlit("Linux-OpenIB");
        reveal_strlit("MIT");
        reveal_with_fuel(lt_from, 2);
    }
    assert(precedes("MIT"@, "MIT-0"@)) by {
        reveal(precedes);
        reveal_strlit("MIT");
        reveal_strlit("MIT-0");
        reveal_with_fuel(lt_from, 5);
    }
    assert(precedes("MIT-0"@, "MIT-CMU"@)) by {
        reveal(precedes);
        reveal_strlit("MIT-0");
        reveal_strlit("MIT-CMU");
        reveal_with_fuel(lt_from, 6);
    }
    assert(precedes("MIT-CMU"@, "MIT-advertising"@)) by {
        reveal(precedes);
        reveal_strlit("MIT-CMU");
        reveal_strlit("MIT-advertising");
        reveal_with_fuel(lt_from, 6);
    }
    assert(precedes("MIT-advertising"@, "MIT-enna"@)) by {
        reveal(precedes);
        reveal_strlit("MIT-advertising");
        reveal_strlit("MIT-enna");
        reveal_with_fuel(lt_from, 6);
    }
    assert(precedes("MIT-enna"@, "MIT-feh"@)) by {
        reveal(precedes);
        reveal_strlit("MIT-enna");
        reveal_strlit("MIT-feh");
        reveal_with_fuel(lt_from, 6);
    }
    assert(precedes("MIT-feh"@, "MITNFA"@)) by {
        reveal(precedes);
        reveal_strlit("MIT-feh");
        reveal_strlit("MITNFA");
        reveal_with_fuel(lt_from, 5);
    }
    assert(precedes("MITNFA"@, "MPL-1.0"@)) by {
        reveal(precedes);
        reveal_strlit("MITNFA");
        reveal_strlit("MPL-1.0");
        reveal_with_fuel(lt_from, 3);
    }
    assert(precedes("MPL-1.0"@, "MPL-1.1"@)) by {
        reveal(precedes);
        reveal_strlit("MPL-1.0");
        reveal_strlit("MPL-1.1");
        reveal_with_fuel(lt_from, 8);
    }
    assert(precedes("MPL-1.1"@, "MPL-2.0"@)) by {
        reveal(precedes);
        reveal_strlit("MPL-1.1");
        reveal_strlit("MPL-2.0");
        reveal_with_fuel(lt_from, 6);
    }
    assert(precedes("MPL-2.0"@, "MPL-2.0-no-copyleft-exception"@)) by {
        reveal(precedes);
        reveal_strlit("MPL-2.0");
        reveal_strlit("MPL-2.0-no-copyleft-exception");
        reveal_with_fuel(lt_from, 9);
    }
}

/// Identifier order is strictly ascending from position 210 to position 225.
#[verifier::spinoff_prover]
#[verifier::rlimit(60)]
proof fn lemma_ids_ascending_14(p: nat)
    requires
        210 <= p < 225,
    ensures
        precedes(SpdxLicense::with_id_rank(p).spec_id(), SpdxLicense::with_id_rank(p + 1).spec_id()),
{
    assert(precedes("MPL-2.0-no-copyleft-exception"@, "MS-PL"@)) by {
        reveal(precedes);
        reveal_strlit("MPL-2.0-no-copyleft-exception");
        reveal_strlit("MS-PL");
        reveal_with_fuel(lt_from, 3);
    }
    assert(precedes("MS-PL"@, "MS-RL"@)) by {
        reveal(precedes);
        reveal_strlit("MS-PL");
        reveal_strlit("MS-RL");
        reveal_with_fuel(lt_from, 5);
    }
    assert(precedes("MS-RL"@, "MTLL"@)) by {
        reveal(precedes);
        reveal_strlit("MS-RL");
        reveal_strlit("MTLL");
        reveal_with_fuel(lt_from, 3);
    }
    assert(precedes("MTLL"@, "MakeIndex"@)) by {
        reveal(precedes);
        reveal_strlit("MTLL");
        reveal_strlit("MakeIndex");
        reveal_with_fuel(lt_from, 3);
    }
    assert(precedes("MakeIndex"@, "MirOS"@)) by {
        reveal(precedes);
        reveal_strlit("MakeIndex");
        reveal_strlit("MirOS");
        reveal_with_fuel(lt_from, 3);
    }
    assert(precedes("MirOS"@, "Motosoto"@)) by {
        reveal(precedes);
        reveal_strlit("MirOS");
        reveal_strlit("Motosoto");
        reveal_with_fuel(lt_from, 3);
    }
    assert(precedes("Motosoto"@, "MulanPSL-1.0"@)) by {
        reveal(precedes);
        reveal_strlit("Motosoto");
        reveal_strlit("MulanPSL-1.0");
        reveal_with_fuel(lt_from, 3);
    }
    assert(precedes("MulanPSL-1.0"@, "Multics"@)) by {
        reveal(precedes);
        reveal_strlit("MulanPSL-1.0");
        reveal_strlit("Multics");
        reveal_with_fuel(lt_from, 5);
    }
    assert(precedes("Multics"@, "Mup"@)) by {
        reveal(precedes);
        reveal_strlit("Multics");
        reveal_strlit("Mup");
        reveal_with_fuel(lt_from, 4);
    }
    assert(precedes("Mup"@, "NASA-1.3"@)) by {
        reveal(precedes);
        reveal_strlit("Mup");
        reveal_strlit("NASA-1.3");
        reveal_with_fuel(lt_from, 2);
    }
    assert(precedes("NASA-1.3"@, "NBPL-1.0"@)) by {
        reveal(precedes);
        reveal_strlit("NASA-1.3");
        reveal_strlit("NBPL-1.0");
        reveal_with_fuel(lt_from, 3);
    }
    assert(precedes("NBPL-1.0"@, "NCSA"@)) by {
        reveal(precedes);
        reveal_strlit("NBPL-1.0");
        reveal_strlit("NCSA");
        reveal_with_fuel(lt_from, 3);
    }
    assert(precedes("NCSA"@, "NGPL"@)) by {
        reveal(precedes);
        reveal_strlit("NCSA");
        reveal_strlit("NGPL");
        reveal_with_fuel(lt_from, 3);
    }
    assert(precedes("NGPL"@, "NLOD-1.0"@)) by {
        reveal(precedes);
        reveal_strlit("NGPL");
        reveal_strlit("NLOD-1.0");
        reveal_with_fuel(lt_from, 3);
    }
    assert(precedes("NLOD-1.0"@, "NLPL"@)) by {
        reveal(precedes);
        reveal_strlit("NLOD-1.0");
        reveal_strlit("NLPL");
        reveal_with_fuel(lt_from, 4);
    }
}

/// Identifier order is strictly ascending from position 225 to position 240.
#[verifier::spinoff_prover]
#[verifier::rlimit(60)]
proof fn lemma_ids_ascending_15(p: nat)
    requires
        225 <= p < 240,
    ensures
        precedes(SpdxLicense::with_id_rank(p).spec_id(), SpdxLicense::with_id_rank(p + 1).spec_id()),
{
    assert(precedes("NLPL"@, "NOSL"@)) by {
        reveal(precedes);
        reveal_strlit("NLPL");
        reveal_strlit("NOSL");
        reveal_with_fuel(lt_from, 3);
    }
    assert(precedes("NOSL"@, "NPL-1.0"@)) by {
        reveal(precedes);
        reveal_strlit("NOSL");
        reveal_strlit("NPL-1.0");
        reveal_with_fuel(lt_from, 3);
    }
    assert(precedes("NPL-1.0"@, "NPL-1.1"@)) by {
        reveal(precedes);
        reveal_strlit("NPL-1.0");
        reveal_strlit("NPL-1.1");
        reveal_with_fuel(lt_from, 8);
    }
    assert(precedes("NPL-1.1"@, "NPOSL-3.0"@)) by {
        reveal(precedes);
        reveal_strlit("NPL-1.1");
        reveal_strlit("NPOSL-3.0");
        reveal_with_fuel(lt_from, 4);
    }
    assert(precedes("NPOSL-3.0"@, "NRL"@)) by {
        reveal(precedes);
        reveal_strlit("NPOSL-3.0");
        reveal_strlit("NRL");
        reveal_with_fuel(lt_from, 3);
    }
    assert(precedes("NRL"@, "NTP"@)) by {
        reveal(precedes);
        reveal_strlit("NRL");
        reveal_strlit("NTP");
        reveal_with_fuel(lt_from, 3);
    }
    assert(precedes("NTP"@, "Naumen"@)) by {
        reveal(precedes);
        reveal_strlit("NTP");
        reveal_strlit("Naumen");
        reveal_with_fuel(lt_from, 3);
    }
    assert(precedes("Naumen"@, "Net-SNMP"@)) by {
        reveal(precedes);
        reveal_strlit("Naumen");
        reveal_strlit("Net-SNMP");
        reveal_with_fuel(lt_from, 3);
    }
    assert(precedes("Net-SNMP"@, "NetCDF"@)) by {
        reveal(precedes);
        reveal_strlit("Net-SNMP");
        reveal_strlit("NetCDF");
        reveal_with_fuel(lt_from, 5);
    }
    assert(precedes("NetCDF"@, "Newsletr"@)) by {
        reveal(precedes);
        reveal_strlit("NetCDF");
        reveal_strlit("Newsletr");
        reveal_with_fuel(lt_from, 4);
    }
    assert(precedes("Newsletr"@, "Nokia"@)) by {
        reveal(precedes);
        reveal_strlit("Newsletr");
        reveal_strlit("Nokia");
        reveal_with_fuel(lt_from, 3);
    }
    assert(precedes("Nokia"@, "Noweb"@)) by {
        reveal(precedes);
        reveal_strlit("Nokia");
        reveal_strlit("Noweb");
        reveal_with_fuel(lt_from, 4);
    }
    assert(precedes("Noweb"@, "OCCT-PL"@)) by {
        reveal(precedes);
        reveal_strlit("Noweb");
        reveal_strlit("OCCT-PL");
        reveal_with_fuel(lt_from, 2);
    }
    assert(precedes("OCCT-PL"@, "OCLC-2.0"@)) by {
        reveal(precedes);
        reveal_strlit("OCCT-PL");
        reveal_strlit("OCLC-2.0");
        reveal_with_fuel(lt_from, 4);
    }
    assert(precedes("OCLC-2.0"@, "ODC-By-1.0"@)) by {
        reveal(precedes);
        reveal_strlit("OCLC-2.0");
        reveal_strlit("ODC-By-1.0");
        reveal_with_fuel(lt_from, 3);
    }
}

/// Identifier order is strictly ascending from position 240 to position 255.
#[verifier::spinoff_prover]
#[verifier::rlimit(60)]
proof fn lemma_ids_ascending_16(p: nat)
    requires
        240 <= p < 255,
    ensures
        precedes(SpdxLicense::with_id_rank(p).spec_id(), SpdxLicense::with_id_rank(p + 1).spec_id()),
{
    assert(precedes("ODC-By-1.0"@, "ODbL-1.0"@)) by {
        reveal(precedes);
        reveal_strlit("ODC-By-1.0");
        reveal_strlit("ODbL-1.0");
        reveal_with_fuel(lt_from, 4);
    }
    assert(precedes("ODbL-1.0"@, "OFL-1.0"@)) by {
        reveal(precedes);
        reveal_strlit("ODbL-1.0");
        reveal_strlit("OFL-1.0");
        reveal_with_fuel(lt_from, 3);
    }
    assert(precedes("OFL-1.0"@, "OFL-1.1"@)) by {
        reveal(precedes);
        reveal_strlit("OFL-1.0");
        reveal_strlit("OFL-1.1");
        reveal_with_fuel(lt_from, 8);
    }
    assert(precedes("OFL-1.1"@, "OGL-Canada-2.0"@)) by {
        reveal(precedes);
        reveal_strlit("OFL-1.1");
        reveal_strlit("OGL-Canada-2.0");
        reveal_with_fuel(lt_from, 3);
    }
    assert(precedes("OGL-Canada-2.0"@, "OGL-UK-1.0"@)) by {
        reveal(precedes);
        reveal_strlit("OGL-Canada-2.0");
        reveal_strlit("OGL-UK-1.0");
        reveal_with_fuel(lt_from, 6);
    }
    assert(precedes("OGL-UK-1.0"@, "OGL-UK-2.0"@)) by {
        reveal(precedes);
        reveal_strlit("OGL-UK-1.0");
        reveal_strlit("OGL-UK-2.0");
        reveal_with_fuel(lt_from, 9);
    }
    assert(precedes("OGL-UK-2.0"@, "OGL-UK-3.0"@)) by {
        reveal(precedes);
        reveal_strlit("OGL-UK-2.0");
        reveal_strlit("OGL-UK-3.0");
        reveal_with_fuel(lt_from, 9);
    }
    assert(precedes("OGL-UK-3.0"@, "OGTSL"@)) by {
        reveal(precedes);
        reveal_strlit("OGL-UK-3.0");
        reveal_strlit("OGTSL");
        reveal_with_fuel(lt_from, 4);
    }
    assert(precedes("OGTSL"@, "OLDAP-1.1"@)) by {
        reveal(precedes);
        reveal_strlit("OGTSL");
        reveal_strlit("OLDAP-1.1");
        reveal_with_fuel(lt_from, 3);
    }
    assert(precedes("OLDAP-1.1"@, "OLDAP-1.2"@)) by {
        reveal(precedes);
        reveal_strlit("OLDAP-1.1");
        reveal_strlit("OLDAP-1.2");
        reveal_with_fuel(lt_from, 10);
    }
    assert(precedes("OLDAP-1.2"@, "OLDAP-1.3"@)) by {
        reveal(precedes);
        reveal_strlit("OLDAP-1.2");
        reveal_strlit("OLDAP-1.3");
        reveal_with_fuel(lt_from, 10);
    }
    assert(precedes("OLDAP-1.3"@, "OLDAP-1.4"@)) by {
        reveal(precedes);
        reveal_strlit("OLDAP-1.3");
        reveal_strlit("OLDAP-1.4");
        reveal_with_fuel(lt_from, 10);
    }
    assert(precedes("OLDAP-1.4"@, "OLDAP-2.0"@)) by {
        reveal(precedes);
        reveal_strlit("OLDAP-1.4");
        reveal_strlit("OLDAP-2.0");
        reveal_with_fuel(lt_from, 8);
    }
    assert(precedes("OLDAP-2.0"@, "OLDAP-2.0.1"@)) by {
        reveal(precedes);
        reveal_strlit("OLDAP-2.0");
        reveal_strlit("OLDAP-2.0.1");
        reveal_with_fuel(lt_from, 11);
    }
    assert(precedes("OLDAP-2.0.1"@, "OLDAP-2.1"@)) by {
        reveal(precedes);
        reveal_strlit("OLDAP-2.0.1");
        reveal_strlit("OLDAP-2.1");
        reveal_with_fuel(lt_from, 10);
    }
}

/// Identifier order is strictly ascending from position 255 to position 270.
#[verifier::spinoff_prover]
#[verifier::rlimit(60)]
proof fn lemma_ids_ascending_17(p: nat)
    requires
        255 <= p < 270,
    ensures
        precedes(SpdxLicense::with_id_rank(p).spec_id(), SpdxLicense::with_id_rank(p + 1).spec_id()),
{
    assert(precedes("OLDAP-2.1"@, "OLDAP-2.2"@)) by {
        reveal(precedes);
        reveal_strlit("OLDAP-2.1");
        reveal_strlit("OLDAP-2.2");
        reveal_with_fuel(lt_from, 10);
    }
    assert(precedes("OLDAP-2.2"@, "OLDAP-2.2.1"@)) by {
        reveal(precedes);
        reveal_strlit("OLDAP-2.2");
        reveal_strlit("OLDAP-2.2.1");
        reveal_with_fuel(lt_from, 11);
    }
    assert(precedes("OLDAP-2.2.1"@, "OLDAP-2.2.2"@)) by {
        reveal(precedes);
        reveal_strlit("OLDAP-2.2.1");
        reveal_strlit("OLDAP-2.2.2");
        reveal_with_fuel(lt_from, 12);
    }
    assert(precedes("OLDAP-2.2.2"@, "OLDAP-2.3"@)) by {
        reveal(precedes);
        reveal_strlit("OLDAP-2.2.2");
        reveal_strlit("OLDAP-2.3");
        reveal_with_fuel(lt_from, 10);
    }
    assert(precedes("OLDAP-2.3"@, "OLDAP-2.4"@)) by {
        reveal(precedes);
        reveal_strlit("OLDAP-2.3");
        reveal_strlit("OLDAP-2.4");
        reveal_with_fuel(lt_from, 10);
    }
    assert(precedes("OLDAP-2.4"@, "OLDAP-2.5"@)) by {
        reveal(precedes);
        reveal_strlit("OLDAP-2.4");
        reveal_strlit("OLDAP-2.5");
        reveal_with_fuel(lt_from, 10);
    }
    assert(precedes("OLDAP-2.5"@, "OLDAP-2.6"@)) by {
        reveal(precedes);
        reveal_strlit("OLDAP-2.5");
        reveal_strlit("OLDAP-2.6");
        reveal_with_fuel(lt_from, 10);
    }
    assert(precedes("OLDAP-2.6"@, "OLDAP-2.7"@)) by {
        reveal(precedes);
        reveal_strlit("OLDAP-2.6");
        reveal_strlit("OLDAP-2.7");
        reveal_with_fuel(lt_from, 10);
    }
    assert(precedes("OLDAP-2.7"@, "OLDAP-2.8"@)) by {
        reveal(precedes);
        reveal_strlit("OLDAP-2.7");
        reveal_strlit("OLDAP-2.8");
        reveal_with_fuel(lt_from, 10);
    }
    assert(precedes("OLDAP-2.8"@, "OML"@)) by {
        reveal(precedes);
        reveal_strlit("OLDAP-2.8");
        reveal_strlit("OML");
        reveal_with_fuel(lt_from, 3);
    }
    assert(precedes("OML"@, "OPL-1.0"@)) by {
        reveal(precedes);
        reveal_strlit("OML");
        reveal_strlit("OPL-1.0");
        reveal_with_fuel(lt_from, 3);
    }
    assert(precedes("OPL-1.0"@, "OSET-PL-2.1"@)) by {
        reveal(precedes);
        reveal_strlit("OPL-1.0");
        reveal_strlit("OSET-PL-2.1");
        reveal_with_fuel(lt_from, 3);
    }
    assert(precedes("OSET-PL-2.1"@, "OSL-1.0"@)) by {
        reveal(precedes);
        reveal_strlit("OSET-PL-2.1");
        reveal_strlit("OSL-1.0");
        reveal_with_fuel(lt_from, 4);
    }
    assert(precedes("OSL-1.0"@, "OSL-1.1"@)) by {
        reveal(precedes);
        reveal_strlit("OSL-1.0");
        reveal_strlit("OSL-1.1");
        reveal_with_fuel(lt_from, 8);
    }
    assert(precedes("OSL-1.1"@, "OSL-2.0"@)) by {
        reveal(precedes);
        reveal_strlit("OSL-1.1");
        reveal_strlit("OSL-2.0");
        reveal_with_fuel(lt_from, 6);
    }
}

/// Identifier order is strictly ascending from position 270 to position 285.
#[verifier::spinoff_prover]
#[verifier::rlimit(60)]
proof fn lemma_ids_ascending_18(p: nat)
    requires
        270 <= p < 285,
    ensures
        precedes(SpdxLicense::with_id_rank(p).spec_id(), SpdxLicense::with_id_rank(p + 1).spec_id()),
{
    assert(precedes("OSL-2.0"@, "OSL-2.1"@)) by {
        reveal(precedes);
        reveal_strlit("OSL-2.0");
        reveal_strlit("OSL-2.1");
        reveal_with_fuel(lt_from, 8);
    }
    assert(precedes("OSL-2.1"@, "OSL-3.0"@)) by {
        reveal(precedes);
        reveal_strlit("OSL-2.1");
        reveal_strlit("OSL-3.0");
        reveal_with_fuel(lt_from, 6);
    }
    assert(precedes("OSL-3.0"@, "OpenSSL"@)) by {
        reveal(precedes);
        reveal_strlit("OSL-3.0");
        reveal_strlit("OpenSSL");
        reveal_with_fuel(lt_from, 3);
    }
    assert(precedes("OpenSSL"@, "PDDL-1.0"@)) by {
        reveal(precedes);
        reveal_strlit("OpenSSL");
        reveal_strlit("PDDL-1.0");
        reveal_with_fuel(lt_from, 2);
    }
    assert(precedes("PDDL-1.0"@, "Parity-6.0.0"@)) by {
        reveal(precedes);
        reveal_strlit("PDDL-1.0");
        reveal_strlit("Parity-6.0.0");
        reveal_with_fuel(lt_from, 3);
    }
    assert(precedes("Parity-6.0.0"@, "Plexus"@)) by {
        reveal(precedes);
        reveal_strlit("Parity-6.0.0");
        reveal_strlit("Plexus");
        reveal_with_fuel(lt_from, 3);
    }
    assert(precedes("Plexus"@, "PostgreSQL"@)) by {
        reveal(precedes);
        reveal_strlit("Plexus");
        reveal_strlit("PostgreSQL");
        reveal_with_fuel(lt_from, 3);
    }
    assert(precedes("PostgreSQL"@, "Python-2.0"@)) by {
        reveal(precedes);
        reveal_strlit("PostgreSQL");
        reveal_strlit("Python-2.0");
        reveal_with_fuel(lt_from, 3);
    }
    assert(precedes("Python-2.0"@, "QPL-1.0"@)) by {
        reveal(precedes);
        reveal_strlit("Python-2.0");
        reveal_strlit("QPL-1.0");
        reveal_with_fuel(lt_from, 2);
    }
    assert(precedes("QPL-1.0"@, "Qhull"@)) by {
        reveal(precedes);
        reveal_strlit("QPL-1.0");
        reveal_strlit("Qhull");
        reveal_with_fuel(lt_from, 3);
    }
    assert(precedes("Qhull"@, "RHeCos-1.1"@)) by {
        reveal(precedes);
        reveal_strlit("Qhull");
        reveal_strlit("RHeCos-1.1");
        reveal_with_fuel(lt_from, 2);
    }
    assert(precedes("RHeCos-1.1"@, "RPL-1.1"@)) by {
        reveal(precedes);
        reveal_strlit("RHeCos-1.1");
        reveal_strlit("RPL-1.1");
        reveal_with_fuel(lt_from, 3);
    }
    assert(precedes("RPL-1.1"@, "RPL-1.5"@)) by {
        reveal(precedes);
        reveal_strlit("RPL-1.1");
        reveal_strlit("RPL-1.5");
        reveal_with_fuel(lt_from, 8);
    }
    assert(precedes("RPL-1.5"@, "RPSL-1.0"@)) by {
        reveal(precedes);
        reveal_strlit("RPL-1.5");
        reveal_strlit("RPSL-1.0");
        reveal_with_fuel(lt_from, 4);
    }
    assert(precedes("RPSL-1.0"@, "RSA-MD"@)) by {
        reveal(precedes);
        reveal_strlit("RPSL-1.0");
        reveal_strlit("RSA-MD");
        reveal_with_fuel(lt_from, 3);
    }
}

/// Identifier order is strictly ascending from position 285 to position 300.
#[verifier::spinoff_prover]
#[verifier::rlimit(60)]
proof fn lemma_ids_ascending_19(p: nat)
    requires
        285 <= p < 300,
    ensures
        precedes(SpdxLicense::with_id_rank(p).spec_id(), SpdxLicense::with_id_rank(p + 1).spec_id()),
{
    assert(precedes("RSA-MD"@, "RSCPL"@)) by {
        reveal(precedes);
        reveal_strlit("RSA-MD");
        reveal_strlit("RSCPL");
        reveal_with_fuel(lt_from, 4);
    }
    assert(precedes("RSCPL"@, "Rdisc"@)) by {
        reveal(precedes);
        reveal_strlit("RSCPL");
        reveal_strlit("Rdisc");
        reveal_with_fuel(lt_from, 3);
    }
    assert(precedes("Rdisc"@, "Ruby"@)) by {
        reveal(precedes);
        reveal_strlit("Rdisc");
        reveal_strlit("Ruby");
        reveal_with_fuel(lt_from, 3);
    }
    assert(precedes("Ruby"@, "SAX-PD"@)) by {
        reveal(precedes);
        reveal_strlit("Ruby");
        reveal_strlit("SAX-PD");
        reveal_with_fuel(lt_from, 2);
    }
    assert(precedes("SAX-PD"@, "SCEA"@)) by {
        reveal(precedes);
        reveal_strlit("SAX-PD");
        reveal_strlit("SCEA");
        reveal_with_fuel(lt_from, 3);
    }
    assert(precedes("SCEA"@, "SGI-B-1.0"@)) by {
        reveal(precedes);
        reveal_strlit("SCEA");
        reveal_strlit("SGI-B-1.0");
        reveal_with_fuel(lt_from, 3);
    }
    assert(precedes("SGI-B-1.0"@, "SGI-B-1.1"@)) by {
        reveal(precedes);
        reveal_strlit("SGI-B-1.0");
        reveal_strlit("SGI-B-1.1");
        reveal_with_fuel(lt_from, 10);
    }
    assert(precedes("SGI-B-1.1"@, "SGI-B-2.0"@)) by {
        reveal(precedes);
        reveal_strlit("SGI-B-1.1");
        reveal_strlit("SGI-B-2.0");
        reveal_with_fuel(lt_from, 8);
    }
    assert(precedes("SGI-B-2.0"@, "SHL-0.5"@)) by {
        reveal(precedes);
        reveal_strlit("SGI-B-2.0");
        reveal_strlit("SHL-0.5");
        reveal_with_fuel(lt_from, 3);
    }
    assert(precedes("SHL-0.5"@, "SHL-0.51"@)) by {
        reveal(precedes);
        reveal_strlit("SHL-0.5");
        reveal_strlit("SHL-0.51");
        reveal_with_fuel(lt_from, 9);
    }
    assert(precedes("SHL-0.51"@, "SISSL"@)) by {
        reveal(precedes);
        reveal_strlit("SHL-0.51");
        reveal_strlit("SISSL");
        reveal_with_fuel(lt_from, 3);
    }
    assert(precedes("SISSL"@, "SISSL-1.2"@)) by {
        reveal(precedes);
        reveal_strlit("SISSL");
        reveal_strlit("SISSL-1.2");
        reveal_with_fuel(lt_from, 7);
    }
    assert(precedes("SISSL-1.2"@, "SMLNJ"@)) by {
        reveal(precedes);
        reveal_strlit("SISSL-1.2");
        reveal_strlit("SMLNJ");
        reveal_with_fuel(lt_from, 3);
    }
    assert(precedes("SMLNJ"@, "SMPPL"@)) by {
        reveal(precedes);
        reveal_strlit("SMLNJ");
        reveal_strlit("SMPPL");
        reveal_with_fuel(lt_from, 4);
    }
    assert(precedes("SMPPL"@, "SNIA"@)) by {
        reveal(precedes);
        reveal_strlit("SMPPL");
        reveal_strlit("SNIA");
        reveal_with_fuel(lt_from, 3);
    }
}

/// Identifier order is strictly ascending from position 300 to position 315.
#[verifier::spinoff_prover]
#[verifier::rlimit(60)]
proof fn lemma_ids_ascending_20(p: nat)
    requires
        300 <= p < 315,
    ensures
        precedes(SpdxLicense::with_id_rank(p).spec_id(), SpdxLicense::with_id_rank(p + 1).spec_id()),
{
    assert(precedes("SNIA"@, "SPL-1.0"@)) by {
        reveal(precedes);
        reveal_strlit("SNIA");
        reveal_strlit("SPL-1.0");
        reveal_with_fuel(lt_from, 3);
    }
    assert(precedes("SPL-1.0"@, "SSH-OpenSSH"@)) by {
        reveal(precedes);
        reveal_strlit("SPL-1.0");
        reveal_strlit("SSH-OpenSSH");
        reveal_with_fuel(lt_from, 3);
    }
    assert(precedes("SSH-OpenSSH"@, "SSH-short"@)) by {
        reveal(precedes);
        reveal_strlit("SSH-OpenSSH");
        reveal_strlit("SSH-short");
        reveal_with_fuel(lt_from, 6);
    }
    assert(precedes("SSH-short"@, "SSPL-1.0"@)) by {
        reveal(precedes);
        reveal_strlit("SSH-short");
        reveal_strlit("SSPL-1.0");
        reveal_with_fuel(lt_from, 4);
    }
    assert(precedes("SSPL-1.0"@, "SWL"@)) by {
        reveal(precedes);
        reveal_strlit("SSPL-1.0");
        reveal_strlit("SWL");
        reveal_with_fuel(lt_from, 3);
    }
    assert(precedes("SWL"@, "Saxpath"@)) by {
        reveal(precedes);
        reveal_strlit("SWL");
        reveal_strlit("Saxpath");
        reveal_with_fuel(lt_from, 3);
    }
    assert(precedes("Saxpath"@, "Sendmail"@)) by {
        reveal(precedes);
        reveal_strlit("Saxpath");
        reveal_strlit("Sendmail");
        reveal_with_fuel(lt_from, 3);
    }
    assert(precedes("Sendmail"@, "Sendmail-8.23"@)) by {
        reveal(precedes);
        reveal_strlit("Sendmail");
        reveal_strlit("Sendmail-8.23");
        reveal_with_fuel(lt_from, 10);
    }
    assert(precedes("Sendmail-8.23"@, "SimPL-2.0"@)) by {
        reveal(precedes);
        reveal_strlit("Sendmail-8.23");
        reveal_strlit("SimPL-2.0");
        reveal_with_fuel(lt_from, 3);
    }
    assert(precedes("SimPL-2.0"@, "Sleepycat"@)) by {
        reveal(precedes);
        reveal_strlit("SimPL-2.0");
        reveal_strlit("Sleepycat");
        reveal_with_fuel(lt_from, 3);
    }
    assert(precedes("Sleepycat"@, "Spencer-86"@)) by {
        reveal(precedes);
        reveal_strlit("Sleepycat");
        reveal_strlit("Spencer-86");
        reveal_with_fuel(lt_from, 3);
    }
    assert(precedes("Spencer-86"@, "Spencer-94"@)) by {
        reveal(precedes);
        reveal_strlit("Spencer-86");
        reveal_strlit("Spencer-94");
        reveal_with_fuel(lt_from, 10);
    }
    assert(precedes("Spencer-94"@, "Spencer-99"@)) by {
        reveal(precedes);
        reveal_strlit("Spencer-94");
        reveal_strlit("Spencer-99");
        reveal_with_fuel(lt_from, 11);
    }
    assert(precedes("Spencer-99"@, "SugarCRM-1.1.3"@)) by {
        reveal(precedes);
        reveal_strlit("Spencer-99");
        reveal_strlit("SugarCRM-1.1.3");
        reveal_with_fuel(lt_from, 3);
    }
    assert(precedes("SugarCRM-1.1.3"@, "TAPR-OHL-1.0"@)) by {
        reveal(precedes);
        reveal_strlit("SugarCRM-1.1.3");
        reveal_strlit("TAPR-OHL-1.0");
        reveal_with_fuel(lt_from, 2);
    }
}

/// Identifier order is strictly ascending from position 315 to position 330.
#[verifier::spinoff_prover]
#[verifier::rlimit(60)]
proof fn lemma_ids_ascending_21(p: nat)
    requires
        315 <= p < 330,
    ensures
        precedes(SpdxLicense::with_id_rank(p).spec_id(), SpdxLicense::with_id_rank(p + 1).spec_id()),
{
    assert(precedes("TAPR-OHL-1.0"@, "TCL"@)) by {
        reveal(precedes);
        reveal_strlit("TAPR-OHL-1.0");
        reveal_strlit("TCL");
        reveal_with_fuel(lt_from, 3);
    }
    assert(precedes("TCL"@, "TCP-wrappers"@)) by {
        reveal(precedes);
        reveal_strlit("TCL");
        reveal_strlit("TCP-wrappers");
        reveal_with_fuel(lt_from, 4);
    }
    assert(precedes("TCP-wrappers"@, "TMate"@)) by {
        reveal(precedes);
        reveal_strlit("TCP-wrappers");
        reveal_strlit("TMate");
        reveal_with_fuel(lt_from, 3);
    }
    assert(precedes("TMate"@, "TORQUE-1.1"@)) by {
        reveal(precedes);
        reveal_strlit("TMate");
        reveal_strlit("TORQUE-1.1");
        reveal_with_fuel(lt_from, 3);
    }
    assert(precedes("TORQUE-1.1"@, "TOSL"@)) by {
        reveal(precedes);
        reveal_strlit("TORQUE-1.1");
        reveal_strlit("TOSL");
        reveal_with_fuel(lt_from, 4);
    }
    assert(precedes("TOSL"@, "TU-Berlin-1.0"@)) by {
        reveal(precedes);
        reveal_strlit("TOSL");
        reveal_strlit("TU-Berlin-1.0");
        reveal_with_fuel(lt_from, 3);
    }
    assert(precedes("TU-Berlin-1.0"@, "TU-Berlin-2.0"@)) by {
        reveal(precedes);
        reveal_strlit("TU-Berlin-1.0");
        reveal_strlit("TU-Berlin-2.0");
        reveal_with_fuel(lt_from, 12);
    }
    assert(precedes("TU-Berlin-2.0"@, "UCL-1.0"@)) by {
        reveal(precedes);
        reveal_strlit("TU-Berlin-2.0");
        reveal_strlit("UCL-1.0");
        reveal_with_fuel(lt_from, 2);
    }
    assert(precedes("UCL-1.0"@, "UPL-1.0"@)) by {
        reveal(precedes);
        reveal_strlit("UCL-1.0");
        reveal_strlit("UPL-1.0");
        reveal_with_fuel(lt_from, 3);
    }
    assert(precedes("UPL-1.0"@, "Unicode-DFS-2015"@)) by {
        reveal(precedes);
        reveal_strlit("UPL-1.0");
        reveal_strlit("Unicode-DFS-2015");
        reveal_with_fuel(lt_from, 3);
    }
    assert(precedes("Unicode-DFS-2015"@, "Unicode-DFS-2016"@)) by {
        reveal(precedes);
        reveal_strlit("Unicode-DFS-2015");
        reveal_strlit("Unicode-DFS-2016");
        reveal_with_fuel(lt_from, 17);
    }
    assert(precedes("Unicode-DFS-2016"@, "Unicode-TOU"@)) by {
        reveal(precedes);
        reveal_strlit("Unicode-DFS-2016");
        reveal_strlit("Unicode-TOU");
        reveal_with_fuel(lt_from, 10);
    }
    assert(precedes("Unicode-TOU"@, "Unlicense"@)) by {
        reveal(precedes);
        reveal_strlit("Unicode-TOU");
        reveal_strlit("Unlicense");
        reveal_with_fuel(lt_from, 4);
    }
    assert(precedes("Unlicense"@, "VOSTROM"@)) by {
        reveal(precedes);
        reveal_strlit("Unlicense");
        reveal_strlit("VOSTROM");
        reveal_with_fuel(lt_from, 2);
    }
    assert(precedes("VOSTROM"@, "VSL-1.0"@)) by {
        reveal(precedes);
        reveal_strlit("VOSTROM");
        reveal_strlit("VSL-1.0");
        reveal_with_fuel(lt_from, 3);
    }
}

/// Identifier order is strictly ascending from position 330 to position 345.
#[verifier::spinoff_prover]
#[verifier::rlimit(60)]
proof fn lemma_ids_ascending_22(p: nat)
    requires
        330 <= p < 345,
    ensures
        precedes(SpdxLicense::with_id_rank(p).spec_id(), SpdxLicense::with_id_rank(p + 1).spec_id()),
{
    assert(precedes("VSL-1.0"@, "Vim"@)) by {
        reveal(precedes);
        reveal_strlit("VSL-1.0");
        reveal_strlit("Vim");
        reveal_with_fuel(lt_from, 3);
    }
    assert(precedes("Vim"@, "W3C"@)) by {
        reveal(precedes);
        reveal_strlit("Vim");
        reveal_strlit("W3C");
        reveal_with_fuel(lt_from, 2);
    }
    assert(precedes("W3C"@, "W3C-19980720"@)) by {
        reveal(precedes);
        reveal_strlit("W3C");
        reveal_strlit("W3C-19980720");
        reveal_with_fuel(lt_from, 5);
    }
    assert(precedes("W3C-19980720"@, "W3C-20150513"@)) by {
        reveal(precedes);
        reveal_strlit("W3C-19980720");
        reveal_strlit("W3C-20150513");
        reveal_with_fuel(lt_from, 6);
    }
    assert(precedes("W3C-20150513"@, "WTFPL"@)) by {
        reveal(precedes);
        reveal_strlit("W3C-20150513");
        reveal_strlit("WTFPL");
        reveal_with_fuel(lt_from, 3);
    }
    assert(precedes("WTFPL"@, "Watcom-1.0"@)) by {
        reveal(precedes);
        reveal_strlit("WTFPL");
        reveal_strlit("Watcom-1.0");
        reveal_with_fuel(lt_from, 3);
    }
    assert(precedes("Watcom-1.0"@, "Wsuipa"@)) by {
        reveal(precedes);
        reveal_strlit("Watcom-1.0");
        reveal_strlit("Wsuipa");
        reveal_with_fuel(lt_from, 3);
    }
    assert(precedes("Wsuipa"@, "X11"@)) by {
        reveal(precedes);
        reveal_strlit("Wsuipa");
        reveal_strlit("X11");
        reveal_with_fuel(lt_from, 2);
    }
    assert(precedes("X11"@, "XFree86-1.1"@)) by {
        reveal(precedes);
        reveal_strlit("X11");
        reveal_strlit("XFree86-1.1");
        reveal_with_fuel(lt_from, 3);
    }
    assert(precedes("XFree86-1.1"@, "XSkat"@)) by {
        reveal(precedes);
        reveal_strlit("XFree86-1.1");
        reveal_strlit("XSkat");
        reveal_with_fuel(lt_from, 3);
    }
    assert(precedes("XSkat"@, "Xerox"@)) by {
        reveal(precedes);
        reveal_strlit("XSkat");
        reveal_strlit("Xerox");
        reveal_with_fuel(lt_from, 3);
    }
    assert(precedes("Xerox"@, "Xnet"@)) by {
        reveal(precedes);
        reveal_strlit("Xerox");
        reveal_strlit("Xnet");
        reveal_with_fuel(lt_from, 3);
    }
    assert(precedes("Xnet"@, "YPL-1.0"@)) by {
        reveal(precedes);
        reveal_strlit("Xnet");
        reveal_strlit("YPL-1.0");
        reveal_with_fuel(lt_from, 2);
    }
    assert(precedes("YPL-1.0"@, "YPL-1.1"@)) by {
        reveal(precedes);
        reveal_strlit("YPL-1.0");
        reveal_strlit("YPL-1.1");
        reveal_with_fuel(lt_from, 8);
    }
    assert(precedes("YPL-1.1"@, "ZPL-1.1"@)) by {
        reveal(precedes);
        reveal_strlit("YPL-1.1");
        reveal_strlit("ZPL-1.1");
        reveal_with_fuel(lt_from, 2);
    }
}

/// Identifier order is strictly ascending from position 345 to position 360.
#[verifier::spinoff_prover]
#[verifier::rlimit(60)]
proof fn lemma_ids_ascending_23(p: nat)
    requires
        345 <= p < 360,
    ensures
        precedes(SpdxLicense::with_id_rank(p).spec_id(), SpdxLicense::with_id_rank(p + 1).spec_id()),
{
    assert(precedes("ZPL-1.1"@, "ZPL-2.0"@)) by {
        reveal(precedes);
        reveal_strlit("ZPL-1.1");
        reveal_strlit("ZPL-2.0");
        reveal_with_fuel(lt_from, 6);
    }
    assert(precedes("ZPL-2.0"@, "ZPL-2.1"@)) by {
        reveal(precedes);
        reveal_strlit("ZPL-2.0");
        reveal_strlit("ZPL-2.1");
        reveal_with_fuel(lt_from, 8);
    }
    assert(precedes("ZPL-2.1"@, "Zed"@)) by {
        reveal(precedes);
        reveal_strlit("ZPL-2.1");
        reveal_strlit("Zed");
        reveal_with_fuel(lt_from, 3);
    }
    assert(precedes("Zed"@, "Zend-2.0"@)) by {
        reveal(precedes);
        reveal_strlit("Zed");
        reveal_strlit("Zend-2.0");
        reveal_with_fuel(lt_from, 4);
    }
    assert(precedes("Zend-2.0"@, "Zimbra-1.3"@)) by {
        reveal(precedes);
        reveal_strlit("Zend-2.0");
        reveal_strlit("Zimbra-1.3");
        reveal_with_fuel(lt_from, 3);
    }
    assert(precedes("Zimbra-1.3"@, "Zimbra-1.4"@)) by {
        reveal(precedes);
        reveal_strlit("Zimbra-1.3");
        reveal_strlit("Zimbra-1.4");
        reveal_with_fuel(lt_from, 11);
    }
    assert(precedes("Zimbra-1.4"@, "Zlib"@)) by {
        reveal(precedes);
        reveal_strlit("Zimbra-1.4");
        reveal_strlit("Zlib");
        reveal_with_fuel(lt_from, 3);
    }
    assert(precedes("Zlib"@, "blessing"@)) by {
        reveal(precedes);
        reveal_strlit("Zlib");
        reveal_strlit("blessing");
        reveal_with_fuel(lt_from, 2);
    }
    assert(precedes("blessing"@, "bzip2-1.0.5"@)) by {
        reveal(precedes);
        reveal_strlit("blessing");
        reveal_strlit("bzip2-1.0.5");
        reveal_with_fuel(lt_from, 3);
    }
    assert(precedes("bzip2-1.0.5"@, "bzip2-1.0.6"@)) by {
        reveal(precedes);
        reveal_strlit("bzip2-1.0.5");
        reveal_strlit("bzip2-1.0.6");
        reveal_with_fuel(lt_from, 12);
    }
    assert(precedes("bzip2-1.0.6"@, "copyleft-next-0.3.0"@)) by {
        reveal(precedes);
        reveal_strlit("bzip2-1.0.6");
        reveal_strlit("copyleft-next-0.3.0");
        reveal_with_fuel(lt_from, 2);
    }
    assert(precedes("copyleft-next-0.3.0"@, "copyleft-next-0.3.1"@)) by {
        reveal(precedes);
        reveal_strlit("copyleft-next-0.3.0");
        reveal_strlit("copyleft-next-0.3.1");
        reveal_with_fuel(lt_from, 20);
    }
    assert(precedes("copyleft-next-0.3.1"@, "curl"@)) by {
        reveal(precedes);
        reveal_strlit("copyleft-next-0.3.1");
        reveal_strlit("curl");
        reveal_with_fuel(lt_from, 3);
    }
    assert(precedes("curl"@, "diffmark"@)) by {
        reveal(precedes);
        reveal_strlit("curl");
        reveal_strlit("diffmark");
        reveal_with_fuel(lt_from, 2);
    }
    assert(precedes("diffmark"@, "dvipdfm"@)) by {
        reveal(precedes);
        reveal_strlit("diffmark");
        reveal_strlit("dvipdfm");
        reveal_with_fuel(lt_from, 3);
    }
}

/// Identifier order is strictly ascending from position 360 to position 373.
#[verifier::spinoff_prover]
#[verifier::rlimit(60)]
proof fn lemma_ids_ascending_24(p: nat)
    requires
        360 <= p < 373,
    ensures
        precedes(SpdxLicense::with_id_rank(p).spec_id(), SpdxLicense::with_id_rank(p + 1).spec_id()),
{
    assert(precedes("dvipdfm"@, "eGenix"@)) by {
        reveal(precedes);
        reveal_strlit("dvipdfm");
        reveal_strlit("eGenix");
        reveal_with_fuel(lt_from, 2);
    }
    assert(precedes("eGenix"@, "etalab-2.0"@)) by {
        reveal(precedes);
        reveal_strlit("eGenix");
        reveal_strlit("etalab-2.0");
        reveal_with_fuel(lt_from, 3);
    }
    assert(precedes("etalab-2.0"@, "gSOAP-1.3b"@)) by {
        reveal(precedes);
        reveal_strlit("etalab-2.0");
        reveal_strlit("gSOAP-1.3b");
        reveal_with_fuel(lt_from, 2);
    }
    assert(precedes("gSOAP-1.3b"@, "gnuplot"@)) by {
        reveal(precedes);
        reveal_strlit("gSOAP-1.3b");
        reveal_strlit("gnuplot");
        reveal_with_fuel(lt_from, 3);
    }
    assert(precedes("gnuplot"@, "iMatix"@)) by {
        reveal(precedes);
        reveal_strlit("gnuplot");
        reveal_strlit("iMatix");
        reveal_with_fuel(lt_from, 2);
    }
    assert(precedes("iMatix"@, "libpng-2.0"@)) by {
        reveal(precedes);
        reveal_strlit("iMatix");
        reveal_strlit("libpng-2.0");
        reveal_with_fuel(lt_from, 2);
    }
    assert(precedes("libpng-2.0"@, "libtiff"@)) by {
        reveal(precedes);
        reveal_strlit("libpng-2.0");
        reveal_strlit("libtiff");
        reveal_with_fuel(lt_from, 5);
    }
    assert(precedes("libtiff"@, "mpich2"@)) by {
        reveal(precedes);
        reveal_strlit("libtiff");
        reveal_strlit("mpich2");
        reveal_with_fuel(lt_from, 2);
    }
    assert(precedes("mpich2"@, "psfrag"@)) by {
        reveal(precedes);
        reveal_strlit("mpich2");
        reveal_strlit("psfrag");
        reveal_with_fuel(lt_from, 2);
    }
    assert(precedes("psfrag"@, "psutils"@)) by {
        reveal(precedes);
        reveal_strlit("psfrag");
        reveal_strlit("psutils");
        reveal_with_fuel(lt_from, 4);
    }
    assert(precedes("psutils"@, "xinetd"@)) by {
        reveal(precedes);
        reveal_strlit("psutils");
        reveal_strlit("xinetd");
        reveal_with_fuel(lt_from, 2);
    }
    assert(precedes("xinetd"@, "xpp"@)) by {
        reveal(precedes);
        reveal_strlit("xinetd");
        reveal_strlit("xpp");
        reveal_with_fuel(lt_from, 3);
    }
    assert(precedes("xpp"@, "zlib-acknowledgement"@)) by {
        reveal(precedes);
        reveal_strlit("xpp");
        reveal_strlit("zlib-acknowledgement");
        reveal_with_fuel(lt_from, 2);
    }
}

/// Neighbours in identifier order are strictly ordered.
proof fn lemma_ids_ascending(p: nat)
    requires
        p + 1 < COUNT,
    ensures
        precedes(SpdxLicense::with_id_rank(p).spec_id(), SpdxLicense::with_id_rank(p + 1).spec_id()),
{
    if p < 15 {
        lemma_ids_ascending_0(p);
    } else if p < 30 {
        lemma_ids_ascending_1(p);
    } else if p < 45 {
        lemma_ids_ascending_2(p);
    } else if p < 60 {
        lemma_ids_ascending_3(p);
    } else if p < 75 {
        lemma_ids_ascending_4(p);
    } else if p < 90 {
        lemma_ids_ascending_5(p);
    } else if p < 105 {
        lemma_ids_ascending_6(p);
    } else if p < 120 {
        lemma_ids_ascending_7(p);
    } else if p < 135 {
        lemma_ids_ascending_8(p);
    } else if p < 150 {
        lemma_ids_ascending_9(p);
    } else if p < 165 {
        lemma_ids_ascending_10(p);
    } else if p < 180 {
        lemma_ids_ascending_11(p);
    } else if p < 195 {
        lemma_ids_ascending_12(p);
    } else if p < 210 {
        lemma_ids_ascending_13(p);
    } else if p < 225 {
        lemma_ids_ascending_14(p);
    } else if p < 240 {
        lemma_ids_ascending_15(p);
    } else if p < 255 {
        lemma_ids_ascending_16(p);
    } else if p < 270 {
        lemma_ids_ascending_17(p);
    } else if p < 285 {
        lemma_ids_ascending_18(p);
    } else if p < 300 {
        lemma_ids_ascending_19(p);
    } else if p < 315 {
        lemma_ids_ascending_20(p);
    } else if p < 330 {
        lemma_ids_ascending_21(p);
    } else if p < 345 {
        lemma_ids_ascending_22(p);
    } else if p < 360 {
        lemma_ids_ascending_23(p);
    } else {
        lemma_ids_ascending_24(p);
    }
}

/// Every license has a position in identifier order, and that position leads
/// back to it.
proof fn lemma_id_rank(v: SpdxLicense)
    ensures
        v.id_rank() < COUNT,
        SpdxLicense::with_id_rank(v.id_rank()) == v,
{
}

/// Identifier order is strictly ascending between any two positions.
proof fn lemma_ids_sorted(p: nat, q: nat)
    requires
        p < q < COUNT,
    ensures
        precedes(SpdxLicense::with_id_rank(p).spec_id(), SpdxLicense::with_id_rank(q).spec_id()),
    decreases q - p,
{
    lemma_ids_ascending((q - 1) as nat);
    if p + 1 < q {
        lemma_ids_sorted(p, (q - 1) as nat);
        reveal(precedes);
        lemma_lt_from_transitive(
            SpdxLicense::with_id_rank(p).spec_id(),
            SpdxLicense::with_id_rank((q - 1) as nat).spec_id(),
            SpdxLicense::with_id_rank(q).spec_id(),
            0,
        );
    }
}

/// Distinct licenses have distinct identifiers.
pub proof fn lemma_ids_distinct(a: SpdxLicense, b: SpdxLicense)
    requires
        a != b,
    ensures
        a.spec_id() != b.spec_id(),
{
    lemma_id_rank(a);
    lemma_id_rank(b);
    if a.id_rank() < b.id_rank() {
        lemma_ids_sorted(a.id_rank(), b.id_rank());
        lemma_precedes_distinct(a.spec_id(), b.spec_id());
    } else {
        lemma_ids_sorted(b.id_rank(), a.id_rank());
        lemma_precedes_distinct(b.spec_id(), a.spec_id());
    }
}

/// No license has an empty identifier.
pub proof fn lemma_id_nonempty(v: SpdxLicense)
    ensures
        v.spec_id().len() > 0,
{
    lemma_id_rank(v);
    if v.id_rank() == 0 {
        reveal_strlit("-PHP\u{a0}3.0");
    } else {
        lemma_ids_sorted(0, v.id_rank());
        reveal(precedes);
    }
}

} // verus!
