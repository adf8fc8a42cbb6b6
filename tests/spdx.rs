use std::collections::HashSet;
use std::convert::TryFrom;

use linfo::spdx::COUNT;
use linfo::text::str_eq;
use linfo::{ParseError, SpdxLicense};

#[test]
fn parse_to_string_round_trip() {
    for l in SpdxLicense::all() {
        let text = l.to_string();
        assert_eq!(text, l.id());
        assert_eq!(SpdxLicense::parse(&text), Ok(l));
    }
}

#[test]
fn all_has_count_entries_each_once() {
    let all = SpdxLicense::all();
    assert_eq!(all.len(), SpdxLicense::count());
    assert_eq!(SpdxLicense::count(), COUNT);
    assert_eq!(COUNT, 374);
    assert_eq!(SpdxLicense::COUNT, COUNT);
    let distinct: HashSet<SpdxLicense> = all.iter().copied().collect();
    assert_eq!(distinct.len(), COUNT);
    for (i, l) in all.iter().enumerate() {
        assert_eq!(l.index(), i);
        assert_eq!(SpdxLicense::from_index(i), *l);
    }
}

#[test]
fn catalog_order_ends() {
    assert_eq!(SpdxLicense::all()[0], SpdxLicense::Bsd0);
    assert_eq!(SpdxLicense::Bsd0.index(), 0);
    assert_eq!(SpdxLicense::Zpl2_1.index(), COUNT - 1);
}

#[test]
fn identifiers_are_unique() {
    let all = SpdxLicense::all();
    for a in &all {
        for b in &all {
            if a != b {
                assert_ne!(a.id(), b.id());
            }
        }
    }
    let ids: HashSet<&str> = all.iter().map(|l| l.id()).collect();
    assert_eq!(ids.len(), COUNT);
}

#[test]
fn attribute_tables_cover_every_license() {
    let all = SpdxLicense::all();
    let ids: Vec<&str> = all.iter().map(|l| l.id()).collect();
    let names: Vec<&str> = all.iter().map(|l| l.name()).collect();
    let libre: Vec<bool> = all.iter().map(|l| l.is_libre()).collect();
    let osi: Vec<bool> = all.iter().map(|l| l.is_osi_approved()).collect();
    assert_eq!(ids.len(), SpdxLicense::count());
    assert_eq!(names.len(), SpdxLicense::count());
    assert_eq!(libre.len(), SpdxLicense::count());
    assert_eq!(osi.len(), SpdxLicense::count());
    assert!(ids.iter().all(|s| !s.is_empty()));
    assert!(names.iter().all(|s| !s.is_empty()));
}

#[test]
fn parse_empty_input() {
    assert_eq!(SpdxLicense::parse(""), Err(ParseError::Empty));
}

#[test]
fn parse_unknown_input() {
    assert_eq!(
        SpdxLicense::parse("NOT-A-REAL-LICENSE"),
        Err(ParseError::UnknownIdentifier("NOT-A-REAL-LICENSE"))
    );
}

#[test]
fn parse_mit() {
    let mit = SpdxLicense::parse("MIT").unwrap();
    assert_eq!(mit, SpdxLicense::Mit);
    assert!(mit.is_libre());
    assert!(mit.is_osi_approved());
    assert_eq!(mit.id(), "MIT");
    assert_eq!(mit.name(), "MIT License");
    assert!(!mit.is_gpl());
    assert!(!mit.is_agpl());
    assert!(!mit.is_creative_commons());
}

#[test]
fn parse_is_case_sensitive() {
    assert_eq!(SpdxLicense::parse("mit"), Err(ParseError::UnknownIdentifier("mit")));
    assert_eq!(
        SpdxLicense::parse("apache-2.0"),
        Err(ParseError::UnknownIdentifier("apache-2.0"))
    );
}

#[test]
fn parse_does_not_trim() {
    assert_eq!(SpdxLicense::parse(" MIT"), Err(ParseError::UnknownIdentifier(" MIT")));
    assert_eq!(SpdxLicense::parse("MIT "), Err(ParseError::UnknownIdentifier("MIT ")));
    assert_eq!(SpdxLicense::parse("MI"), Err(ParseError::UnknownIdentifier("MI")));
}

#[test]
fn try_from_matches_parse() {
    assert_eq!(SpdxLicense::try_from("Apache-2.0"), Ok(SpdxLicense::Apache2));
    assert_eq!(SpdxLicense::try_from(""), Err(ParseError::Empty));
    assert_eq!(SpdxLicense::try_from("nope"), Err(ParseError::UnknownIdentifier("nope")));
}

#[test]
fn attributes_of_some_licenses() {
    assert_eq!(SpdxLicense::Apache2.to_string(), "Apache-2.0");
    assert_eq!(SpdxLicense::Apache2.name(), "Apache License 2.0");
    assert!(SpdxLicense::Wtfpl.is_libre());
    assert!(!SpdxLicense::Wtfpl.is_osi_approved());
    assert_eq!(SpdxLicense::Zpl2_1.id(), "ZPL-2.1");
}

#[test]
fn identifiers_with_no_break_space_are_kept() {
    // These identifiers hold a no-break space (U+00A0), and the PHP ones a
    // leading hyphen; they are carried as declared.
    assert_eq!(SpdxLicense::Bsd0.id(), "BSD\u{a0}0");
    assert_eq!(SpdxLicense::parse("BSD\u{a0}0"), Ok(SpdxLicense::Bsd0));
    assert_eq!(SpdxLicense::parse("-PHP\u{a0}3.0"), Ok(SpdxLicense::Php3));
    assert_eq!(SpdxLicense::parse("-PHP\u{a0}3.01"), Ok(SpdxLicense::Php3_01));
    assert_eq!(
        SpdxLicense::parse("BSD 0"),
        Err(ParseError::UnknownIdentifier("BSD 0"))
    );
}

fn check_family(first: SpdxLicense, last: SpdxLicense, pred: fn(SpdxLicense) -> bool) {
    let (lo, hi) = (first.index(), last.index());
    assert!(lo <= hi);
    for i in lo..=hi {
        assert!(pred(SpdxLicense::from_index(i)));
    }
    assert!(!pred(SpdxLicense::from_index(lo - 1)));
    assert!(!pred(SpdxLicense::from_index(hi + 1)));
    let members = SpdxLicense::all().into_iter().filter(|l| pred(*l)).count();
    assert_eq!(members, hi - lo + 1);
}

#[test]
fn gpl_family_is_contiguous() {
    check_family(SpdxLicense::Gpl1Only, SpdxLicense::Gpl3OrLater, SpdxLicense::is_gpl);
    assert!(SpdxLicense::parse("GPL-2.0-or-later").unwrap().is_gpl());
    assert!(!SpdxLicense::Gnuplot.is_gpl());
    assert!(!SpdxLicense::GSoap1_3b.is_gpl());
    assert!(!SpdxLicense::Agpl3Only.is_gpl());
}

#[test]
fn agpl_family_is_contiguous() {
    check_family(SpdxLicense::Agpl1Only, SpdxLicense::Agpl3OrLater, SpdxLicense::is_agpl);
    assert!(SpdxLicense::parse("AGPL-3.0-only").unwrap().is_agpl());
    assert!(!SpdxLicense::Afmparse.is_agpl());
    assert!(!SpdxLicense::Aladdin.is_agpl());
}

#[test]
fn creative_commons_family_is_contiguous() {
    check_family(SpdxLicense::CcBy1, SpdxLicense::CC01, SpdxLicense::is_creative_commons);
    assert!(SpdxLicense::CcPddc.is_creative_commons());
    assert!(!SpdxLicense::Catosl1_1.is_creative_commons());
    assert!(!SpdxLicense::Cddl1.is_creative_commons());
}

#[test]
fn str_eq_is_exact() {
    assert!(str_eq("MIT", "MIT"));
    assert!(str_eq("", ""));
    assert!(!str_eq("MIT", "mit"));
    assert!(!str_eq("MIT", "MI"));
    assert!(!str_eq("abc", "abd"));
    assert!(str_eq("Qu\u{e9}bec", "Qu\u{e9}bec"));
    assert!(!str_eq("Qu\u{e9}bec", "Quebec"));
}
