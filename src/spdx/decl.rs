use vstd::prelude::*;

verus! {

/// The number of licenses in the catalog.
pub const COUNT: usize = 374;

/// A commonly found license of the SPDX license list.
///
/// Variants are declared in catalog order: the position of a variant in this
/// declaration is its ordinal, and each family of licenses occupies one
/// contiguous run of ordinals.
#[derive(Clone, Copy, Debug, PartialEq, Eq, Hash, Structural)]
pub enum SpdxLicense {
    /// BSD Zero Clause License (`BSD 0`).
    Bsd0,
    /// Attribution Assurance License (`AAL`).
    Aal,
    /// Abstyles License (`Abstyles`).
    Abstyles,
    /// Adobe Systems Incorporated Source Code License Agreement (`Adobe-2006`).
    Adobe2006,
    /// Adobe Glyph List License (`Adobe-Glyph`).
    AdobeGlyph,
    /// Amazon Digital Services License (`ADSL`).
    Adsl,
    /// Academic Free License v1.1 (`AFL-1.1`).
    Afl1_1,
    /// Academic Free License v1.2 (`AFL-1.2`).
    Afl1_2,
    /// Academic Free License v2.0 (`AFL-2.0`).
    Afl2,
    /// Academic Free License v2.1 (`AFL-2.1`).
    Afl2_1,
    /// Academic Free License v3.0 (`AFL-3.0`).
    Afl3,
    /// Afmparse License (`Afmparse`).
    Afmparse,
    /// Affero General Public License v1.0 only (`AGPL-1.0-only`).
    Agpl1Only,
    /// Affero General Public License v1.0 or later (`AGPL-1.0-or-later`).
    Agpl1OrLater,
    /// GNU Affero General Public License v3.0 only (`AGPL-3.0-only`).
    Agpl3Only,
    /// GNU Affero General Public License v3.0 or later (`AGPL-3.0-or-later`).
    Agpl3OrLater,
    /// Aladdin Free Public License (`Aladdin`).
    Aladdin,
    /// AMD's plpa_map.c License (`AMDPLPA`).
    Amdplpa,
    /// Apple MIT License (`AML`).
    Aml,
    /// Academy of Motion Picture Arts and Sciences BSD (`AMPAS`).
    Ampas,
    /// ANTLR Software Rights Notice (`ANTLR-PD`).
    AntlrPd,
    /// Apache License 1.0 (`Apache-1.0`).
    Apache1,
    /// Apache License 1.1 (`Apache-1.1`).
    Apache1_1,
    /// Apache License 2.0 (`Apache-2.0`).
    Apache2,
    /// Adobe Postscript AFM License (`APAFML`).
    Apafml,
    /// Adaptive Public License 1.0 (`APL-1.0`).
    Apl1,
    /// Apple Public Source License 1.0 (`APSL-1.0`).
    Apsl1,
    /// Apple Public Source License 1.1 (`APSL-1.1`).
    Apsl1_1,
    /// Apple Public Source License 1.2 (`APSL-1.2`).
    Apsl1_2,
    /// Apple Public Source License 2.0 (`APSL-2.0`).
    Apsl2,
    /// Artistic License 1.0 (`Artistic-1.0`).
    Artistic1,
    /// Artistic License 1.0 w/clause 8 (`Artistic-1.0-cl8`).
    Artistic1Cl8,
    /// Artistic License 1.0 (Perl) (`Artistic-1.0-Perl`).
    Artistic1Perl,
    /// Artistic License 2.0 (`Artistic-2.0`).
    Artistic2,
    /// Bahyph License (`Bahyph`).
    Bahyph,
    /// Barr License (`Barr`).
    Barr,
    /// Beerware License (`Beerware`).
    Beerware,
    /// BitTorrent Open Source License v1.0 (`BitTorrent-1.0`).
    BitTorrent1,
    /// BitTorrent Open Source License v1.1 (`BitTorrent-1.1`).
    BitTorrent1_1,
    /// SQLite Blessing (`blessing`).
    Blessing,
    /// Blue Oak Model License 1.0.0 (`BlueOak-1.0.0`).
    BlueOak1,
    /// Borceux license (`Borceux`).
    Borceux,
    /// BSD 1-Clause License (`BSD-1-Clause`).
    Bsd1Clause,
    /// BSD 2-Clause "Simplified" License (`BSD-2-Clause`).
    Bsd2Clause,
    /// BSD 2-Clause FreeBSD License (`BSD-2-Clause-FreeBSD`).
    Bsd2ClauseFreeBsd,
    /// BSD 2-Clause NetBSD License (`BSD-2-Clause-NetBSD`).
    Bsd2ClauseNetBsd,
    /// BSD-2-Clause Plus Patent License (`BSD-2-Clause-Patent`).
    Bsd2ClausePatent,
    /// BSD 3-Clause "New" or "Revised" License (`BSD-3-Clause`).
    Bsd3Clause,
    /// BSD with attribution (`BSD-3-Clause-Attribution`).
    Bsd3ClauseAttribution,
    /// BSD 3-Clause Clear License (`BSD-3-Clause-Clear`).
    Bsd3ClauseClear,
    /// Lawrence Berkeley National Labs BSD variant license (`BSD-3-Clause-LBNL`).
    Bsd3ClauseLbnl,
    /// BSD 3-Clause No Nuclear License (`BSD-3-Clause-No-Nuclear-License`).
    Bsd3ClauseNoNuclearLicense,
    /// BSD 3-Clause No Nuclear License 2014 (`BSD-3-Clause-No-Nuclear-License-2014`).
    Bsd3ClauseNoNuclearLicense2014,
    /// BSD 3-Clause No Nuclear Warranty (`BSD-3-Clause-No-Nuclear-Warranty`).
    Bsd3ClauseNoNuclearWarranty,
    /// BSD 3-Clause Open MPI variant (`BSD-3-Clause-Open-MPI`).
    Bsd3ClauseOpenMpi,
    /// BSD 4-Clause "Original" or "Old" License (`BSD-4-Clause`).
    Bsd4Clause,
    /// BSD-4-Clause (University of California-Specific) (`BSD-4-Clause-UC`).
    Bsd4ClauseUc,
    /// BSD Protection License (`BSD-Protection`).
    BsdProtection,
    /// BSD Source Code Attribution (`BSD-Source-Code`).
    BsdSourceCode,
    /// Boost Software License 1.0 (`BSL-1.0`).
    Bsl1,
    /// bzip2 and libbzip2 License v1.0.5 (`bzip2-1.0.5`).
    Bzip21_0_5,
    /// bzip2 and libbzip2 License v1.0.6 (`bzip2-1.0.6`).
    Bzip21_0_6,
    /// Caldera License (`Caldera`).
    Caldera,
    /// Computer Associates Trusted Open Source License 1.1 (`CATOSL-1.1`).
    Catosl1_1,
    /// Creative Commons Attribution 1.0 Generic (`CC-BY-1.0`).
    CcBy1,
    /// Creative Commons Attribution 2.0 Generic (`CC-BY-2.0`).
    CcBy2,
    /// Creative Commons Attribution 2.5 Generic (`CC-BY-2.5`).
    CcBy2_5,
    /// Creative Commons Attribution 3.0 Unported (`CC-BY-3.0`).
    CcBy3,
    /// Creative Commons Attribution 4.0 International (`CC-BY-4.0`).
    CcBy4,
    /// Creative Commons Attribution Non Commercial 1.0 Generic (`CC-BY-NC-1.0`).
    CcByNc1,
    /// Creative Commons Attribution Non Commercial 2.0 Generic (`CC-BY-NC-2.0`).
    CcByNc2,
    /// Creative Commons Attribution Non Commercial 2.5 Generic (`CC-BY-NC-2.5`).
    CcByNc2_5,
    /// Creative Commons Attribution Non Commercial 3.0 Unported (`CC-BY-NC-3.0`).
    CcByNc3,
    /// Creative Commons Attribution Non Commercial 4.0 International (`CC-BY-NC-4.0`).
    CcByNc4,
    /// Creative Commons Attribution Non Commercial No Derivatives 1.0 Generic (`CC-BY-NC-ND-1.0`).
    CcByNcNd1,
    /// Creative Commons Attribution Non Commercial No Derivatives 2.0 Generic (`CC-BY-NC-ND-2.0`).
    CcByNcNd2,
    /// Creative Commons Attribution Non Commercial No Derivatives 2.5 Generic (`CC-BY-NC-ND-2.5`).
    CcByNcNd2_5,
    /// Creative Commons Attribution Non Commercial No Derivatives 3.0 Unported (`CC-BY-NC-ND-3.0`).
    CcByNcNd3,
    /// Creative Commons Attribution Non Commercial No Derivatives 4.0 International (`CC-BY-NC-ND-4.0`).
    CcByNcNd4,
    /// Creative Commons Attribution Non Commercial Share Alike 1.0 Generic (`CC-BY-NC-SA-1.0`).
    CcByNcSa1,
    /// Creative Commons Attribution Non Commercial Share Alike 2.0 Generic (`CC-BY-NC-SA-2.0`).
    CcByNcSa2,
    /// Creative Commons Attribution Non Commercial Share Alike 2.5 Generic (`CC-BY-NC-SA-2.5`).
    CcByNcSa2_5,
    /// Creative Commons Attribution Non Commercial Share Alike 3.0 Unported (`CC-BY-NC-SA-3.0`).
    CcByNcSa3,
    /// Creative Commons Attribution Non Commercial Share Alike 4.0 International (`CC-BY-NC-SA-4.0`).
    CcByNcSa4,
    /// Creative Commons Attribution No Derivatives 1.0 Generic (`CC-BY-ND-1.0`).
    CcByNd1,
    /// Creative Commons Attribution No Derivatives 2.0 Generic (`CC-BY-ND-2.0`).
    CcByNd2,
    /// Creative Commons Attribution No Derivatives 2.5 Generic (`CC-BY-ND-2.5`).
    CcByNd2_5,
    /// Creative Commons Attribution No Derivatives 3.0 Unported (`CC-BY-ND-3.0`).
    CcByNd3,
    /// Creative Commons Attribution No Derivatives 4.0 International (`CC-BY-ND-4.0`).
    CcByNd4,
    /// Creative Commons Attribution Share Alike 1.0 Generic (`CC-BY-SA-1.0`).
    CcBySa1,
    /// Creative Commons Attribution Share Alike 2.0 Generic (`CC-BY-SA-2.0`).
    CcBySa2,
    /// Creative Commons Attribution Share Alike 2.5 Generic (`CC-BY-SA-2.5`).
    CcBySa2_5,
    /// Creative Commons Attribution Share Alike 3.0 Unported (`CC-BY-SA-3.0`).
    CcBySa3,
    /// Creative Commons Attribution Share Alike 4.0 International (`CC-BY-SA-4.0`).
    CcBySa4,
    /// Creative Commons Public Domain Dedication and Certification (`CC-PDDC`).
    CcPddc,
    /// Creative Commons Zero v1.0 Universal (`CC0-1.0`).
    CC01,
    /// Common Development and Distribution License 1.0 (`CDDL-1.0`).
    Cddl1,
    /// Common Development and Distribution License 1.1 (`CDDL-1.1`).
    Cddl1_1,
    /// Community Data License Agreement Permissive 1.0 (`CDLA-Permissive-1.0`).
    CdlaPermissive1,
    /// Community Data License Agreement Sharing 1.0 (`CDLA-Sharing-1.0`).
    CdlaSharing1,
    /// CeCILL Free Software License Agreement v1.0 (`CECILL-1.0`).
    Cecill1,
    /// CeCILL Free Software License Agreement v1.1 (`CECILL-1.1`).
    Cecill1_1,
    /// CeCILL Free Software License Agreement v2.0 (`CECILL-2.0`).
    Cecill2,
    /// CeCILL Free Software License Agreement v2.1 (`CECILL-2.1`).
    Cecill2_1,
    /// CeCILL-B Free Software License Agreement (`CECILL-B`).
    CecillB,
    /// CeCILL-C Free Software License Agreement (`CECILL-C`).
    CecillC,
    /// CERN Open Hardware Licence v1.1 (`CERN-OHL-1.1`).
    CernOhl1_1,
    /// CERN Open Hardware Licence v1.2 (`CERN-OHL-1.2`).
    CernOhl1_2,
    /// Clarified Artistic License (`ClArtistic`).
    ClArtistic,
    /// CNRI Jython License (`CNRI-Jython`).
    CnriJython,
    /// CNRI Python License (`CNRI-Python`).
    CnriPython,
    /// CNRI Python Open Source GPL Compatible License Agreement (`CNRI-Python-GPL-Compatible`).
    CnriPythonGplCompatible,
    /// Condor Public License v1.1 (`Condor-1.1`).
    Condor1_1,
    /// copyleft-next 0.3.0 (`copyleft-next-0.3.0`).
    CopyleftNext0_3,
    /// copyleft-next 0.3.1 (`copyleft-next-0.3.1`).
    CopyleftNext0_3_1,
    /// Common Public Attribution License 1.0 (`CPAL-1.0`).
    Cpal1,
    /// Common Public License 1.0 (`CPL-1.0`).
    Cpl1,
    /// Code Project Open License 1.02 (`CPOL-1.02`).
    Cpol1_02,
    /// Crossword License (`Crossword`).
    Crossword,
    /// CrystalStacker License (`CrystalStacker`).
    CrystalStacker,
    /// CUA Office Public License v1.0 (`CUA-OPL-1.0`).
    CuaOpl1,
    /// Cube License (`Cube`).
    Cube,
    /// curl License (`curl`).
    Curl,
    /// Deutsche Freie Software Lizenz (`D-FSL-1.0`).
    DFsl1,
    /// diffmark license (`diffmark`).
    Diffmark,
    /// DOC License (`DOC`).
    Doc,
    /// Dotseqn License (`Dotseqn`).
    Dotseqn,
    /// DSDP License (`DSDP`).
    Dsdp,
    /// dvipdfm License (`dvipdfm`).
    Dvipdfm,
    /// Educational Community License v1.0 (`ECL-1.0`).
    Ecl1,
    /// Educational Community License v2.0 (`ECL-2.0`).
    Ecl2,
    /// Eiffel Forum License v1.0 (`EFL-1.0`).
    Efl1,
    /// Eiffel Forum License v2.0 (`EFL-2.0`).
    Efl2,
    /// eGenix.com Public License 1.1.0 (`eGenix`).
    EGenix,
    /// Entessa Public License v1.0 (`Entessa`).
    Entessa,
    /// Eclipse Public License 1.0 (`EPL-1.0`).
    Epl1,
    /// Eclipse Public License 2.0 (`EPL-2.0`).
    Epl2,
    /// Erlang Public License v1.1 (`ErlPL-1.1`).
    ErlPl1_1,
    /// Etalab Open License 2.0 (`etalab-2.0`).
    Etalab2,
    /// EU DataGrid Software License (`EUDatagrid`).
    EUDatagrid,
    /// European Union Public License 1.0 (`EUPL-1.0`).
    Eupl1,
    /// European Union Public License 1.1 (`EUPL-1.1`).
    Eupl1_1,
    /// European Union Public License 1.2 (`EUPL-1.2`).
    Eupl1_2,
    /// Eurosym License (`Eurosym`).
    Eurosym,
    /// Fair License (`Fair`).
    Fair,
    /// Frameworx Open License 1.0 (`Frameworx-1.0`).
    Frameworx1,
    /// FreeImage Public License v1.0 (`FreeImage`).
    FreeImage,
    /// FSF All Permissive License (`FSFAP`).
    Fsfap,
    /// FSF Unlimited License (`FSFUL`).
    Fsful,
    /// FSF Unlimited License (with License Retention) (`FSFULLR`).
    Fsfullr,
    /// Freetype Project License (`FTL`).
    Ftl,
    /// GNU Free Documentation License v1.1 only (`GFDL-1.1-only`).
    Gfdl1_1Only,
    /// GNU Free Documentation License v1.1 or later (`GFDL-1.1-or-later`).
    Gfdl1_1OrLater,
    /// GNU Free Documentation License v1.2 only (`GFDL-1.2-only`).
    Gfdl1_2Only,
    /// GNU Free Documentation License v1.2 or later (`GFDL-1.2-or-later`).
    Gfdl1_2OrLater,
    /// GNU Free Documentation License v1.3 only (`GFDL-1.3-only`).
    Gfdl1_3Only,
    /// GNU Free Documentation License v1.3 or later (`GFDL-1.3-or-later`).
    Gfdl1_3OrLater,
    /// Giftware License (`Giftware`).
    Giftware,
    /// GL2PS License (`GL2PS`).
    GL2Ps,
    /// 3dfx Glide License (`Glide`).
    Glide,
    /// Glulxe License (`Glulxe`).
    Glulxe,
    /// gnuplot License (`gnuplot`).
    Gnuplot,
    /// GNU General Public License v1.0 only (`GPL-1.0-only`).
    Gpl1Only,
    /// GNU General Public License v1.0 or later (`GPL-1.0-or-later`).
    Gpl1OrLater,
    /// GNU General Public License v2.0 only (`GPL-2.0-only`).
    Gpl2Only,
    /// GNU General Public License v2.0 or later (`GPL-2.0-or-later`).
    Gpl2OrLater,
    /// GNU General Public License v3.0 only (`GPL-3.0-only`).
    Gpl3Only,
    /// GNU General Public License v3.0 or later (`GPL-3.0-or-later`).
    Gpl3OrLater,
    /// gSOAP Public License v1.3b (`gSOAP-1.3b`).
    GSoap1_3b,
    /// Haskell Language Report License (`HaskellReport`).
    HaskellReport,
    /// Historical Permission Notice and Disclaimer (`HPND`).
    Hpnd,
    /// Historical Permission Notice and Disclaimer - sell variant (`HPND-sell-variant`).
    HpndSellVariant,
    /// IBM PowerPC Initialization and Boot Software (`IBM-pibs`).
    IbmPibs,
    /// ICU License (`ICU`).
    Icu,
    /// Independent JPEG Group License (`IJG`).
    Ijg,
    /// ImageMagick License (`ImageMagick`).
    ImageMagick,
    /// iMatix Standard Function Library Agreement (`iMatix`).
    IMatix,
    /// Imlib2 License (`Imlib2`).
    Imlib2,
    /// Info-ZIP License (`Info-ZIP`).
    InfoZip,
    /// Intel Open Source License (`Intel`).
    Intel,
    /// Intel ACPI Software License Agreement (`Intel-ACPI`).
    IntelAcpi,
    /// Interbase Public License v1.0 (`Interbase-1.0`).
    Interbase1,
    /// IPA Font License (`IPA`).
    Ipa,
    /// IBM Public License v1.0 (`IPL-1.0`).
    Ipl1,
    /// ISC License (`ISC`).
    Isc,
    /// JasPer License (`JasPer-2.0`).
    JasPer2,
    /// Japan Network Information Center License (`JPNIC`).
    Jpnic,
    /// JSON License (`JSON`).
    Json,
    /// Licence Art Libre 1.2 (`LAL-1.2`).
    Lal1_2,
    /// Licence Art Libre 1.3 (`LAL-1.3`).
    Lal1_3,
    /// Latex2e License (`Latex2e`).
    Latex2e,
    /// Leptonica License (`Leptonica`).
    Leptonica,
    /// GNU Library General Public License v2 only (`LGPL-2.0-only`).
    Lgpl2Only,
    /// GNU Library General Public License v2 or later (`LGPL-2.0-or-later`).
    Lgpl2OrLater,
    /// GNU Lesser General Public License v2.1 only (`LGPL-2.1-only`).
    Lgpl2_1Only,
    /// GNU Lesser General Public License v2.1 or later (`LGPL-2.1-or-later`).
    Lgpl2_1OrLater,
    /// GNU Lesser General Public License v3.0 only (`LGPL-3.0-only`).
    Lgpl3Only,
    /// GNU Lesser General Public License v3.0 or later (`LGPL-3.0-or-later`).
    Lgpl3OrLater,
    /// Lesser General Public License For Linguistic Resources (`LGPLLR`).
    Lgpllr,
    /// libpng License (`Libpng`).
    Libpng,
    /// PNG Reference Library version 2 (`libpng-2.0`).
    Libpng2,
    /// libtiff License (`libtiff`).
    Libtiff,
    /// Licence Libre du Québec – Permissive version 1.1 (`LiLiQ-P-1.1`).
    LiLiQP1_1,
    /// Licence Libre du Québec – Réciprocité version 1.1 (`LiLiQ-R-1.1`).
    LiLiQR1_1,
    /// Licence Libre du Québec – Réciprocité forte version 1.1 (`LiLiQ-Rplus-1.1`).
    LiLiQRplus1_1,
    /// Linux Kernel Variant of OpenIB.org license (`Linux-OpenIB`).
    LinuxOpenIb,
    /// Lucent Public License Version 1.0 (`LPL-1.0`).
    Lpl1,
    /// Lucent Public License v1.02 (`LPL-1.02`).
    Lpl1_02,
    /// LaTeX Project Public License v1.0 (`LPPL-1.0`).
    Lppl1,
    /// LaTeX Project Public License v1.1 (`LPPL-1.1`).
    Lppl1_1,
    /// LaTeX Project Public License v1.2 (`LPPL-1.2`).
    Lppl1_2,
    /// LaTeX Project Public License v1.3a (`LPPL-1.3a`).
    Lppl1_3a,
    /// LaTeX Project Public License v1.3c (`LPPL-1.3c`).
    Lppl1_3c,
    /// MakeIndex License (`MakeIndex`).
    MakeIndex,
    /// The MirOS Licence (`MirOS`).
    MirOs,
    /// MIT License (`MIT`).
    Mit,
    /// MIT No Attribution (`MIT-0`).
    Mit0,
    /// Enlightenment License (e16) (`MIT-advertising`).
    MitAdvertising,
    /// CMU License (`MIT-CMU`).
    MitCmu,
    /// enna License (`MIT-enna`).
    MitEnna,
    /// feh License (`MIT-feh`).
    MitFeh,
    /// MIT +no-false-attribs license (`MITNFA`).
    Mitnfa,
    /// Motosoto License (`Motosoto`).
    Motosoto,
    /// mpich2 License (`mpich2`).
    Mpich2,
    /// Mozilla Public License 1.0 (`MPL-1.0`).
    Mpl1,
    /// Mozilla Public License 1.1 (`MPL-1.1`).
    Mpl1_1,
    /// Mozilla Public License 2.0 (`MPL-2.0`).
    Mpl2,
    /// Mozilla Public License 2.0 (no copyleft exception) (`MPL-2.0-no-copyleft-exception`).
    Mpl2NoCopyleftException,
    /// Microsoft Public License (`MS-PL`).
    MsPl,
    /// Microsoft Reciprocal License (`MS-RL`).
    MsRl,
    /// Matrix Template Library License (`MTLL`).
    Mtll,
    /// Mulan Permissive Software License, Version 1 (`MulanPSL-1.0`).
    MulanPsl1,
    /// Multics License (`Multics`).
    Multics,
    /// Mup License (`Mup`).
    Mup,
    /// NASA Open Source Agreement 1.3 (`NASA-1.3`).
    Nasa1_3,
    /// Naumen Public License (`Naumen`).
    Naumen,
    /// Net Boolean Public License v1 (`NBPL-1.0`).
    Nbpl1,
    /// University of Illinois/NCSA Open Source License (`NCSA`).
    Ncsa,
    /// Net-SNMP License (`Net-SNMP`).
    NetSnmp,
    /// NetCDF license (`NetCDF`).
    NetCdf,
    /// Newsletr License (`Newsletr`).
    Newsletr,
    /// Nethack General Public License (`NGPL`).
    Ngpl,
    /// Norwegian Licence for Open Government Data (`NLOD-1.0`).
    Nlod1,
    /// No Limit Public License (`NLPL`).
    Nlpl,
    /// Nokia Open Source License (`Nokia`).
    Nokia,
    /// Netizen Open Source License (`NOSL`).
    Nosl,
    /// Noweb License (`Noweb`).
    Noweb,
    /// Netscape Public License v1.0 (`NPL-1.0`).
    Npl1,
    /// Netscape Public License v1.1 (`NPL-1.1`).
    Npl1_1,
    /// Non-Profit Open Software License 3.0 (`NPOSL-3.0`).
    Nposl3,
    /// NRL License (`NRL`).
    Nrl,
    /// NTP License (`NTP`).
    Ntp,
    /// Open CASCADE Technology Public License (`OCCT-PL`).
    OcctPl,
    /// OCLC Research Public License 2.0 (`OCLC-2.0`).
    Oclc2,
    /// ODC Open Database License v1.0 (`ODbL-1.0`).
    ODbL1,
    /// Open Data Commons Attribution License v1.0 (`ODC-By-1.0`).
    OdcBy1,
    /// SIL Open Font License 1.0 (`OFL-1.0`).
    Ofl1,
    /// SIL Open Font License 1.1 (`OFL-1.1`).
    Ofl1_1,
    /// Open Government Licence - Canada (`OGL-Canada-2.0`).
    OglCanada2,
    /// Open Government Licence v1.0 (`OGL-UK-1.0`).
    OglUk1,
    /// Open Government Licence v2.0 (`OGL-UK-2.0`).
    OglUk2,
    /// Open Government Licence v3.0 (`OGL-UK-3.0`).
    OglUk3,
    /// Open Group Test Suite License (`OGTSL`).
    Ogtsl,
    /// Open LDAP Public License v1.1 (`OLDAP-1.1`).
    Oldap1_1,
    /// Open LDAP Public License v1.2 (`OLDAP-1.2`).
    Oldap1_2,
    /// Open LDAP Public License v1.3 (`OLDAP-1.3`).
    Oldap1_3,
    /// Open LDAP Public License v1.4 (`OLDAP-1.4`).
    Oldap1_4,
    /// Open LDAP Public License v2.0 (or possibly 2.0A and 2.0B) (`OLDAP-2.0`).
    Oldap2,
    /// Open LDAP Public License v2.0.1 (`OLDAP-2.0.1`).
    Oldap2_0_1,
    /// Open LDAP Public License v2.1 (`OLDAP-2.1`).
    Oldap2_1,
    /// Open LDAP Public License v2.2 (`OLDAP-2.2`).
    Oldap2_2,
    /// Open LDAP Public License v2.2.1 (`OLDAP-2.2.1`).
    Oldap2_2_1,
    /// Open LDAP Public License 2.2.2 (`OLDAP-2.2.2`).
    Oldap2_2_2,
    /// Open LDAP Public License v2.3 (`OLDAP-2.3`).
    Oldap2_3,
    /// Open LDAP Public License v2.4 (`OLDAP-2.4`).
    Oldap2_4,
    /// Open LDAP Public License v2.5 (`OLDAP-2.5`).
    Oldap2_5,
    /// Open LDAP Public License v2.6 (`OLDAP-2.6`).
    Oldap2_6,
    /// Open LDAP Public License v2.7 (`OLDAP-2.7`).
    Oldap2_7,
    /// Open LDAP Public License v2.8 (`OLDAP-2.8`).
    Oldap2_8,
    /// Open Market License (`OML`).
    Oml,
    /// OpenSSL License (`OpenSSL`).
    OpenSsl,
    /// Open Public License v1.0 (`OPL-1.0`).
    Opl1,
    /// OSET Public License version 2.1 (`OSET-PL-2.1`).
    OsetPl2_1,
    /// Open Software License 1.0 (`OSL-1.0`).
    Osl1,
    /// Open Software License 1.1 (`OSL-1.1`).
    Osl1_1,
    /// Open Software License 2.0 (`OSL-2.0`).
    Osl2,
    /// Open Software License 2.1 (`OSL-2.1`).
    Osl2_1,
    /// Open Software License 3.0 (`OSL-3.0`).
    Osl3,
    /// The Parity Public License 6.0.0 (`Parity-6.0.0`).
    Parity6,
    /// ODC Public Domain Dedication & License 1.0 (`PDDL-1.0`).
    Pddl1,
    /// PHP License v3.0 (`-PHP 3.0`).
    Php3,
    /// PHP License v3.01 (`-PHP 3.01`).
    Php3_01,
    /// Plexus Classworlds License (`Plexus`).
    Plexus,
    /// PostgreSQL License (`PostgreSQL`).
    PostgreSql,
    /// psfrag License (`psfrag`).
    Psfrag,
    /// psutils License (`psutils`).
    Psutils,
    /// Python License 2.0 (`Python-2.0`).
    Python2,
    /// Qhull License (`Qhull`).
    Qhull,
    /// Q Public License 1.0 (`QPL-1.0`).
    Qpl1,
    /// Rdisc License (`Rdisc`).
    Rdisc,
    /// Red Hat eCos Public License v1.1 (`RHeCos-1.1`).
    RHeCos1_1,
    /// Reciprocal Public License 1.1 (`RPL-1.1`).
    Rpl1_1,
    /// Reciprocal Public License 1.5 (`RPL-1.5`).
    Rpl1_5,
    /// RealNetworks Public Source License v1.0 (`RPSL-1.0`).
    Rpsl1,
    /// RSA Message-Digest License (`RSA-MD`).
    RsaMd,
    /// Ricoh Source Code Public License (`RSCPL`).
    Rscpl,
    /// Ruby License (`Ruby`).
    Ruby,
    /// Sax Public Domain Notice (`SAX-PD`).
    SaxPd,
    /// Saxpath License (`Saxpath`).
    Saxpath,
    /// SCEA Shared Source License (`SCEA`).
    Scea,
    /// Sendmail License (`Sendmail`).
    Sendmail,
    /// Sendmail License 8.23 (`Sendmail-8.23`).
    Sendmail8_23,
    /// SGI Free Software License B v1.0 (`SGI-B-1.0`).
    SgiB1,
    /// SGI Free Software License B v1.1 (`SGI-B-1.1`).
    SgiB1_1,
    /// SGI Free Software License B v2.0 (`SGI-B-2.0`).
    SgiB2,
    /// Solderpad Hardware License v0.5 (`SHL-0.5`).
    Shl0_5,
    /// Solderpad Hardware License, Version 0.51 (`SHL-0.51`).
    Shl0_51,
    /// Simple Public License 2.0 (`SimPL-2.0`).
    SimPl2,
    /// Sun Industry Standards Source License v1.1 (`SISSL`).
    Sissl,
    /// Sun Industry Standards Source License v1.2 (`SISSL-1.2`).
    Sissl1_2,
    /// Sleepycat License (`Sleepycat`).
    Sleepycat,
    /// Standard ML of New Jersey License (`SMLNJ`).
    Smlnj,
    /// Secure Messaging Protocol Public License (`SMPPL`).
    Smppl,
    /// SNIA Public License 1.1 (`SNIA`).
    Snia,
    /// Spencer License 86 (`Spencer-86`).
    Spencer86,
    /// Spencer License 94 (`Spencer-94`).
    Spencer94,
    /// Spencer License 99 (`Spencer-99`).
    Spencer99,
    /// Sun Public License v1.0 (`SPL-1.0`).
    Spl1,
    /// SSH OpenSSH license (`SSH-OpenSSH`).
    SshOpenSsh,
    /// SSH short notice (`SSH-short`).
    SshShort,
    /// Server Side Public License, v 1 (`SSPL-1.0`).
    Sspl1,
    /// SugarCRM Public License v1.1.3 (`SugarCRM-1.1.3`).
    SugarCrm1_1_3,
    /// Scheme Widget Library (SWL) Software License Agreement (`SWL`).
    Swl,
    /// TAPR Open Hardware License v1.0 (`TAPR-OHL-1.0`).
    TaprOhl1,
    /// TCL/TK License (`TCL`).
    Tcl,
    /// TCP Wrappers License (`TCP-wrappers`).
    TcpWrappers,
    /// TMate Open Source License (`TMate`).
    TMate,
    /// TORQUE v2.5+ Software License v1.1 (`TORQUE-1.1`).
    Torque1_1,
    /// Trusster Open Source License (`TOSL`).
    Tosl,
    /// Technische Universitaet Berlin License 1.0 (`TU-Berlin-1.0`).
    TuBerlin1,
    /// Technische Universitaet Berlin License 2.0 (`TU-Berlin-2.0`).
    TuBerlin2,
    /// Upstream Compatibility License v1.0 (`UCL-1.0`).
    Ucl1,
    /// Unicode License Agreement - Data Files and Software (2015) (`Unicode-DFS-2015`).
    UnicodeDfs2015,
    /// Unicode License Agreement - Data Files and Software (2016) (`Unicode-DFS-2016`).
    UnicodeDfs2016,
    /// Unicode Terms of Use (`Unicode-TOU`).
    UnicodeTou,
    /// The Unlicense (`Unlicense`).
    Unlicense,
    /// Universal Permissive License v1.0 (`UPL-1.0`).
    Upl1,
    /// Vim License (`Vim`).
    Vim,
    /// VOSTROM Public License for Open Source (`VOSTROM`).
    Vostrom,
    /// Vovida Software License v1.0 (`VSL-1.0`).
    Vsl1,
    /// W3C Software Notice and License (2002-12-31) (`W3C`).
    W3C,
    /// W3C Software Notice and License (1998-07-20) (`W3C-19980720`).
    W3C19980720,
    /// W3C Software Notice and Document License (2015-05-13) (`W3C-20150513`).
    W3C20150513,
    /// Sybase Open Watcom Public License 1.0 (`Watcom-1.0`).
    Watcom1,
    /// Wsuipa License (`Wsuipa`).
    Wsuipa,
    /// Do What The F*ck You Want To Public License (`WTFPL`).
    Wtfpl,
    /// X11 License (`X11`).
    X11,
    /// Xerox License (`Xerox`).
    Xerox,
    /// XFree86 License 1.1 (`XFree86-1.1`).
    XFree861_1,
    /// xinetd License (`xinetd`).
    Xinetd,
    /// X.Net License (`Xnet`).
    Xnet,
    /// XPP License (`xpp`).
    Xpp,
    /// XSkat License (`XSkat`).
    XSkat,
    /// Yahoo! Public License v1.0 (`YPL-1.0`).
    Ypl1,
    /// Yahoo! Public License v1.1 (`YPL-1.1`).
    Ypl1_1,
    /// Zed License (`Zed`).
    Zed,
    /// Zend License v2.0 (`Zend-2.0`).
    Zend2,
    /// Zimbra Public License v1.3 (`Zimbra-1.3`).
    Zimbra1_3,
    /// Zimbra Public License v1.4 (`Zimbra-1.4`).
    Zimbra1_4,
    /// zlib License (`Zlib`).
    Zlib,
    /// zlib/libpng License with Acknowledgement (`zlib-acknowledgement`).
    ZlibAcknowledgement,
    /// Zope Public License 1.1 (`ZPL-1.1`).
    Zpl1_1,
    /// Zope Public License 2.0 (`ZPL-2.0`).
    Zpl2,
    /// Zope Public License 2.1 (`ZPL-2.1`).
    Zpl2_1,
}

impl SpdxLicense {
    /// The number of licenses in the catalog.
    pub const COUNT: usize = COUNT;

    /// Position of the license in catalog order.
    pub open spec fn ordinal(self) -> nat {
        match self {
            SpdxLicense::Bsd0 => 0,
            SpdxLicense::Aal => 1,
            SpdxLicense::Abstyles => 2,
            SpdxLicense::Adobe2006 => 3,
            SpdxLicense::AdobeGlyph => 4,
            SpdxLicense::Adsl => 5,
            SpdxLicense::Afl1_1 => 6,
            SpdxLicense::Afl1_2 => 7,
            SpdxLicense::Afl2 => 8,
            SpdxLicense::Afl2_1 => 9,
            SpdxLicense::Afl3 => 10,
            SpdxLicense::Afmparse => 11,
            SpdxLicense::Agpl1Only => 12,
            SpdxLicense::Agpl1OrLater => 13,
            SpdxLicense::Agpl3Only => 14,
            SpdxLicense::Agpl3OrLater => 15,
            SpdxLicense::Aladdin => 16,
            SpdxLicense::Amdplpa => 17,
            SpdxLicense::Aml => 18,
            SpdxLicense::Ampas => 19,
            SpdxLicense::AntlrPd => 20,
            SpdxLicense::Apache1 => 21,
            SpdxLicense::Apache1_1 => 22,
            SpdxLicense::Apache2 => 23,
            SpdxLicense::Apafml => 24,
            SpdxLicense::Apl1 => 25,
            SpdxLicense::Apsl1 => 26,
            SpdxLicense::Apsl1_1 => 27,
            SpdxLicense::Apsl1_2 => 28,
            SpdxLicense::Apsl2 => 29,
            SpdxLicense::Artistic1 => 30,
            SpdxLicense::Artistic1Cl8 => 31,
            SpdxLicense::Artistic1Perl => 32,
            SpdxLicense::Artistic2 => 33,
            SpdxLicense::Bahyph => 34,
            SpdxLicense::Barr => 35,
            SpdxLicense::Beerware => 36,
            SpdxLicense::BitTorrent1 => 37,
            SpdxLicense::BitTorrent1_1 => 38,
            SpdxLicense::Blessing => 39,
            SpdxLicense::BlueOak1 => 40,
            SpdxLicense::Borceux => 41,
            SpdxLicense::Bsd1Clause => 42,
            SpdxLicense::Bsd2Clause => 43,
            SpdxLicense::Bsd2ClauseFreeBsd => 44,
            SpdxLicense::Bsd2ClauseNetBsd => 45,
            SpdxLicense::Bsd2ClausePatent => 46,
            SpdxLicense::Bsd3Clause => 47,
            SpdxLicense::Bsd3ClauseAttribution => 48,
            SpdxLicense::Bsd3ClauseClear => 49,
            SpdxLicense::Bsd3ClauseLbnl => 50,
            SpdxLicense::Bsd3ClauseNoNuclearLicense => 51,
            SpdxLicense::Bsd3ClauseNoNuclearLicense2014 => 52,
            SpdxLicense::Bsd3ClauseNoNuclearWarranty => 53,
            SpdxLicense::Bsd3ClauseOpenMpi => 54,
            SpdxLicense::Bsd4Clause => 55,
            SpdxLicense::Bsd4ClauseUc => 56,
            SpdxLicense::BsdProtection => 57,
            SpdxLicense::BsdSourceCode => 58,
            SpdxLicense::Bsl1 => 59,
            SpdxLicense::Bzip21_0_5 => 60,
            SpdxLicense::Bzip21_0_6 => 61,
            SpdxLicense::Caldera => 62,
            SpdxLicense::Catosl1_1 => 63,
            SpdxLicense::CcBy1 => 64,
            SpdxLicense::CcBy2 => 65,
            SpdxLicense::CcBy2_5 => 66,
            SpdxLicense::CcBy3 => 67,
            SpdxLicense::CcBy4 => 68,
            SpdxLicense::CcByNc1 => 69,
            SpdxLicense::CcByNc2 => 70,
            SpdxLicense::CcByNc2_5 => 71,
            SpdxLicense::CcByNc3 => 72,
            SpdxLicense::CcByNc4 => 73,
            SpdxLicense::CcByNcNd1 => 74,
            SpdxLicense::CcByNcNd2 => 75,
            SpdxLicense::CcByNcNd2_5 => 76,
            SpdxLicense::CcByNcNd3 => 77,
            SpdxLicense::CcByNcNd4 => 78,
            SpdxLicense::CcByNcSa1 => 79,
            SpdxLicense::CcByNcSa2 => 80,
            SpdxLicense::CcByNcSa2_5 => 81,
            SpdxLicense::CcByNcSa3 => 82,
            SpdxLicense::CcByNcSa4 => 83,
            SpdxLicense::CcByNd1 => 84,
            SpdxLicense::CcByNd2 => 85,
            SpdxLicense::CcByNd2_5 => 86,
            SpdxLicense::CcByNd3 => 87,
            SpdxLicense::CcByNd4 => 88,
            SpdxLicense::CcBySa1 => 89,
            SpdxLicense::CcBySa2 => 90,
            SpdxLicense::CcBySa2_5 => 91,
            SpdxLicense::CcBySa3 => 92,
            SpdxLicense::CcBySa4 => 93,
            SpdxLicense::CcPddc => 94,
            SpdxLicense::CC01 => 95,
            SpdxLicense::Cddl1 => 96,
            SpdxLicense::Cddl1_1 => 97,
            SpdxLicense::CdlaPermissive1 => 98,
            SpdxLicense::CdlaSharing1 => 99,
            SpdxLicense::Cecill1 => 100,
            SpdxLicense::Cecill1_1 => 101,
            SpdxLicense::Cecill2 => 102,
            SpdxLicense::Cecill2_1 => 103,
            SpdxLicense::CecillB => 104,
            SpdxLicense::CecillC => 105,
            SpdxLicense::CernOhl1_1 => 106,
            SpdxLicense::CernOhl1_2 => 107,
            SpdxLicense::ClArtistic => 108,
            SpdxLicense::CnriJython => 109,
            SpdxLicense::CnriPython => 110,
            SpdxLicense::CnriPythonGplCompatible => 111,
            SpdxLicense::Condor1_1 => 112,
            SpdxLicense::CopyleftNext0_3 => 113,
            SpdxLicense::CopyleftNext0_3_1 => 114,
            SpdxLicense::Cpal1 => 115,
            SpdxLicense::Cpl1 => 116,
            SpdxLicense::Cpol1_02 => 117,
            SpdxLicense::Crossword => 118,
            SpdxLicense::CrystalStacker => 119,
            SpdxLicense::CuaOpl1 => 120,
            SpdxLicense::Cube => 121,
            SpdxLicense::Curl => 122,
            SpdxLicense::DFsl1 => 123,
            SpdxLicense::Diffmark => 124,
            SpdxLicense::Doc => 125,
            SpdxLicense::Dotseqn => 126,
            SpdxLicense::Dsdp => 127,
            SpdxLicense::Dvipdfm => 128,
            SpdxLicense::Ecl1 => 129,
            SpdxLicense::Ecl2 => 130,
            SpdxLicense::Efl1 => 131,
            SpdxLicense::Efl2 => 132,
            SpdxLicense::EGenix => 133,
            SpdxLicense::Entessa => 134,
            SpdxLicense::Epl1 => 135,
            SpdxLicense::Epl2 => 136,
            SpdxLicense::ErlPl1_1 => 137,
            SpdxLicense::Etalab2 => 138,
            SpdxLicense::EUDatagrid => 139,
            SpdxLicense::Eupl1 => 140,
            SpdxLicense::Eupl1_1 => 141,
            SpdxLicense::Eupl1_2 => 142,
            SpdxLicense::Eurosym => 143,
            SpdxLicense::Fair => 144,
            SpdxLicense::Frameworx1 => 145,
            SpdxLicense::FreeImage => 146,
            SpdxLicense::Fsfap => 147,
            SpdxLicense::Fsful => 148,
            SpdxLicense::Fsfullr => 149,
            SpdxLicense::Ftl => 150,
            SpdxLicense::Gfdl1_1Only => 151,
            SpdxLicense::Gfdl1_1OrLater => 152,
            SpdxLicense::Gfdl1_2Only => 153,
            SpdxLicense::Gfdl1_2OrLater => 154,
            SpdxLicense::Gfdl1_3Only => 155,
            SpdxLicense::Gfdl1_3OrLater => 156,
            SpdxLicense::Giftware => 157,
            SpdxLicense::GL2Ps => 158,
            SpdxLicense::Glide => 159,
            SpdxLicense::Glulxe => 160,
            SpdxLicense::Gnuplot => 161,
            SpdxLicense::Gpl1Only => 162,
            SpdxLicense::Gpl1OrLater => 163,
            SpdxLicense::Gpl2Only => 164,
            SpdxLicense::Gpl2OrLater => 165,
            SpdxLicense::Gpl3Only => 166,
            SpdxLicense::Gpl3OrLater => 167,
            SpdxLicense::GSoap1_3b => 168,
            SpdxLicense::HaskellReport => 169,
            SpdxLicense::Hpnd => 170,
            SpdxLicense::HpndSellVariant => 171,
            SpdxLicense::IbmPibs => 172,
            SpdxLicense::Icu => 173,
            SpdxLicense::Ijg => 174,
            SpdxLicense::ImageMagick => 175,
            SpdxLicense::IMatix => 176,
            SpdxLicense::Imlib2 => 177,
            SpdxLicense::InfoZip => 178,
            SpdxLicense::Intel => 179,
            SpdxLicense::IntelAcpi => 180,
            SpdxLicense::Interbase1 => 181,
            SpdxLicense::Ipa => 182,
            SpdxLicense::Ipl1 => 183,
            SpdxLicense::Isc => 184,
            SpdxLicense::JasPer2 => 185,
            SpdxLicense::Jpnic => 186,
            SpdxLicense::Json => 187,
            SpdxLicense::Lal1_2 => 188,
            SpdxLicense::Lal1_3 => 189,
            SpdxLicense::Latex2e => 190,
            SpdxLicense::Leptonica => 191,
            SpdxLicense::Lgpl2Only => 192,
            SpdxLicense::Lgpl2OrLater => 193,
            SpdxLicense::Lgpl2_1Only => 194,
            SpdxLicense::Lgpl2_1OrLater => 195,
            SpdxLicense::Lgpl3Only => 196,
            SpdxLicense::Lgpl3OrLater => 197,
            SpdxLicense::Lgpllr => 198,
            SpdxLicense::Libpng => 199,
            SpdxLicense::Libpng2 => 200,
            SpdxLicense::Libtiff => 201,
            SpdxLicense::LiLiQP1_1 => 202,
            SpdxLicense::LiLiQR1_1 => 203,
            SpdxLicense::LiLiQRplus1_1 => 204,
            SpdxLicense::LinuxOpenIb => 205,
            SpdxLicense::Lpl1 => 206,
            SpdxLicense::Lpl1_02 => 207,
            SpdxLicense::Lppl1 => 208,
            SpdxLicense::Lppl1_1 => 209,
            SpdxLicense::Lppl1_2 => 210,
            SpdxLicense::Lppl1_3a => 211,
            SpdxLicense::Lppl1_3c => 212,
            SpdxLicense::MakeIndex => 213,
            SpdxLicense::MirOs => 214,
            SpdxLicense::Mit => 215,
            SpdxLicense::Mit0 => 216,
            SpdxLicense::MitAdvertising => 217,
            SpdxLicense::MitCmu => 218,
            SpdxLicense::MitEnna => 219,
            SpdxLicense::MitFeh => 220,
            SpdxLicense::Mitnfa => 221,
            SpdxLicense::Motosoto => 222,
            SpdxLicense::Mpich2 => 223,
            SpdxLicense::Mpl1 => 224,
            SpdxLicense::Mpl1_1 => 225,
            SpdxLicense::Mpl2 => 226,
            SpdxLicense::Mpl2NoCopyleftException => 227,
            SpdxLicense::MsPl => 228,
            SpdxLicense::MsRl => 229,
            SpdxLicense::Mtll => 230,
            SpdxLicense::MulanPsl1 => 231,
            SpdxLicense::Multics => 232,
            SpdxLicense::Mup => 233,
            SpdxLicense::Nasa1_3 => 234,
            SpdxLicense::Naumen => 235,
            SpdxLicense::Nbpl1 => 236,
            SpdxLicense::Ncsa => 237,
            SpdxLicense::NetSnmp => 238,
            SpdxLicense::NetCdf => 239,
            SpdxLicense::Newsletr => 240,
            SpdxLicense::Ngpl => 241,
            SpdxLicense::Nlod1 => 242,
            SpdxLicense::Nlpl => 243,
            SpdxLicense::Nokia => 244,
            SpdxLicense::Nosl => 245,
            SpdxLicense::Noweb => 246,
            SpdxLicense::Npl1 => 247,
            SpdxLicense::Npl1_1 => 248,
            SpdxLicense::Nposl3 => 249,
            SpdxLicense::Nrl => 250,
            SpdxLicense::Ntp => 251,
            SpdxLicense::OcctPl => 252,
            SpdxLicense::Oclc2 => 253,
            SpdxLicense::ODbL1 => 254,
            SpdxLicense::OdcBy1 => 255,
            SpdxLicense::Ofl1 => 256,
            SpdxLicense::Ofl1_1 => 257,
            SpdxLicense::OglCanada2 => 258,
            SpdxLicense::OglUk1 => 259,
            SpdxLicense::OglUk2 => 260,
            SpdxLicense::OglUk3 => 261,
            SpdxLicense::Ogtsl => 262,
            SpdxLicense::Oldap1_1 => 263,
            SpdxLicense::Oldap1_2 => 264,
            SpdxLicense::Oldap1_3 => 265,
            SpdxLicense::Oldap1_4 => 266,
            SpdxLicense::Oldap2 => 267,
            SpdxLicense::Oldap2_0_1 => 268,
            SpdxLicense::Oldap2_1 => 269,
            SpdxLicense::Oldap2_2 => 270,
            SpdxLicense::Oldap2_2_1 => 271,
            SpdxLicense::Oldap2_2_2 => 272,
            SpdxLicense::Oldap2_3 => 273,
            SpdxLicense::Oldap2_4 => 274,
            SpdxLicense::Oldap2_5 => 275,
            SpdxLicense::Oldap2_6 => 276,
            SpdxLicense::Oldap2_7 => 277,
            SpdxLicense::Oldap2_8 => 278,
            SpdxLicense::Oml => 279,
            SpdxLicense::OpenSsl => 280,
            SpdxLicense::Opl1 => 281,
            SpdxLicense::OsetPl2_1 => 282,
            SpdxLicense::Osl1 => 283,
            SpdxLicense::Osl1_1 => 284,
            SpdxLicense::Osl2 => 285,
            SpdxLicense::Osl2_1 => 286,
            SpdxLicense::Osl3 => 287,
            SpdxLicense::Parity6 => 288,
            SpdxLicense::Pddl1 => 289,
            SpdxLicense::Php3 => 290,
            SpdxLicense::Php3_01 => 291,
            SpdxLicense::Plexus => 292,
            SpdxLicense::PostgreSql => 293,
            SpdxLicense::Psfrag => 294,
            SpdxLicense::Psutils => 295,
            SpdxLicense::Python2 => 296,
            SpdxLicense::Qhull => 297,
            SpdxLicense::Qpl1 => 298,
            SpdxLicense::Rdisc => 299,
            SpdxLicense::RHeCos1_1 => 300,
            SpdxLicense::Rpl1_1 => 301,
            SpdxLicense::Rpl1_5 => 302,
            SpdxLicense::Rpsl1 => 303,
            SpdxLicense::RsaMd => 304,
            SpdxLicense::Rscpl => 305,
            SpdxLicense::Ruby => 306,
            SpdxLicense::SaxPd => 307,
            SpdxLicense::Saxpath => 308,
            SpdxLicense::Scea => 309,
            SpdxLicense::Sendmail => 310,
            SpdxLicense::Sendmail8_23 => 311,
            SpdxLicense::SgiB1 => 312,
            SpdxLicense::SgiB1_1 => 313,
            SpdxLicense::SgiB2 => 314,
            SpdxLicense::Shl0_5 => 315,
            SpdxLicense::Shl0_51 => 316,
            SpdxLicense::SimPl2 => 317,
            SpdxLicense::Sissl => 318,
            SpdxLicense::Sissl1_2 => 319,
            SpdxLicense::Sleepycat => 320,
            SpdxLicense::Smlnj => 321,
            SpdxLicense::Smppl => 322,
            SpdxLicense::Snia => 323,
            SpdxLicense::Spencer86 => 324,
            SpdxLicense::Spencer94 => 325,
            SpdxLicense::Spencer99 => 326,
            SpdxLicense::Spl1 => 327,
            SpdxLicense::SshOpenSsh => 328,
            SpdxLicense::SshShort => 329,
            SpdxLicense::Sspl1 => 330,
            SpdxLicense::SugarCrm1_1_3 => 331,
            SpdxLicense::Swl => 332,
            SpdxLicense::TaprOhl1 => 333,
            SpdxLicense::Tcl => 334,
            SpdxLicense::TcpWrappers => 335,
            SpdxLicense::TMate => 336,
            SpdxLicense::Torque1_1 => 337,
            SpdxLicense::Tosl => 338,
            SpdxLicense::TuBerlin1 => 339,
            SpdxLicense::TuBerlin2 => 340,
            SpdxLicense::Ucl1 => 341,
            SpdxLicense::UnicodeDfs2015 => 342,
            SpdxLicense::UnicodeDfs2016 => 343,
            SpdxLicense::UnicodeTou => 344,
            SpdxLicense::Unlicense => 345,
            SpdxLicense::Upl1 => 346,
            SpdxLicense::Vim => 347,
            SpdxLicense::Vostrom => 348,
            SpdxLicense::Vsl1 => 349,
            SpdxLicense::W3C => 350,
            SpdxLicense::W3C19980720 => 351,
            SpdxLicense::W3C20150513 => 352,
            SpdxLicense::Watcom1 => 353,
            SpdxLicense::Wsuipa => 354,
            SpdxLicense::Wtfpl => 355,
            SpdxLicense::X11 => 356,
            SpdxLicense::Xerox => 357,
            SpdxLicense::XFree861_1 => 358,
            SpdxLicense::Xinetd => 359,
            SpdxLicense::Xnet => 360,
            SpdxLicense::Xpp => 361,
            SpdxLicense::XSkat => 362,
            SpdxLicense::Ypl1 => 363,
            SpdxLicense::Ypl1_1 => 364,
            SpdxLicense::Zed => 365,
            SpdxLicense::Zend2 => 366,
            SpdxLicense::Zimbra1_3 => 367,
            SpdxLicense::Zimbra1_4 => 368,
            SpdxLicense::Zlib => 369,
            SpdxLicense::ZlibAcknowledgement => 370,
            SpdxLicense::Zpl1_1 => 371,
            SpdxLicense::Zpl2 => 372,
            SpdxLicense::Zpl2_1 => 373,
        }
    }

    /// The identifier of the license.
    pub open spec fn spec_id(self) -> Seq<char> {
        match self {
            SpdxLicense::Bsd0 => "BSD\u{a0}0"@,
            SpdxLicense::Aal => "AAL"@,
            SpdxLicense::Abstyles => "Abstyles"@,
            SpdxLicense::Adobe2006 => "Adobe-2006"@,
            SpdxLicense::AdobeGlyph => "Adobe-Glyph"@,
            SpdxLicense::Adsl => "ADSL"@,
            SpdxLicense::Afl1_1 => "AFL-1.1"@,
            SpdxLicense::Afl1_2 => "AFL-1.2"@,
            SpdxLicense::Afl2 => "AFL-2.0"@,
            SpdxLicense::Afl2_1 => "AFL-2.1"@,
            SpdxLicense::Afl3 => "AFL-3.0"@,
            SpdxLicense::Afmparse => "Afmparse"@,
            SpdxLicense::Agpl1Only => "AGPL-1.0-only"@,
            SpdxLicense::Agpl1OrLater => "AGPL-1.0-or-later"@,
            SpdxLicense::Agpl3Only => "AGPL-3.0-only"@,
            SpdxLicense::Agpl3OrLater => "AGPL-3.0-or-later"@,
            SpdxLicense::Aladdin => "Aladdin"@,
            SpdxLicense::Amdplpa => "AMDPLPA"@,
            SpdxLicense::Aml => "AML"@,
            SpdxLicense::Ampas => "AMPAS"@,
            SpdxLicense::AntlrPd => "ANTLR-PD"@,
            SpdxLicense::Apache1 => "Apache-1.0"@,
            SpdxLicense::Apache1_1 => "Apache-1.1"@,
            SpdxLicense::Apache2 => "Apache-2.0"@,
            SpdxLicense::Apafml => "APAFML"@,
            SpdxLicense::Apl1 => "APL-1.0"@,
            SpdxLicense::Apsl1 => "APSL-1.0"@,
            SpdxLicense::Apsl1_1 => "APSL-1.1"@,
            SpdxLicense::Apsl1_2 => "APSL-1.2"@,
            SpdxLicense::Apsl2 => "APSL-2.0"@,
            SpdxLicense::Artistic1 => "Artistic-1.0"@,
            SpdxLicense::Artistic1Cl8 => "Artistic-1.0-cl8"@,
            SpdxLicense::Artistic1Perl => "Artistic-1.0-Perl"@,
            SpdxLicense::Artistic2 => "Artistic-2.0"@,
            SpdxLicense::Bahyph => "Bahyph"@,
            SpdxLicense::Barr => "Barr"@,
            SpdxLicense::Beerware => "Beerware"@,
            SpdxLicense::BitTorrent1 => "BitTorrent-1.0"@,
            SpdxLicense::BitTorrent1_1 => "BitTorrent-1.1"@,
            SpdxLicense::Blessing => "blessing"@,
            SpdxLicense::BlueOak1 => "BlueOak-1.0.0"@,
            SpdxLicense::Borceux => "Borceux"@,
            SpdxLicense::Bsd1Clause => "BSD-1-Clause"@,
            SpdxLicense::Bsd2Clause => "BSD-2-Clause"@,
            SpdxLicense::Bsd2ClauseFreeBsd => "BSD-2-Clause-FreeBSD"@,
            SpdxLicense::Bsd2ClauseNetBsd => "BSD-2-Clause-NetBSD"@,
            SpdxLicense::Bsd2ClausePatent => "BSD-2-Clause-Patent"@,
            SpdxLicense::Bsd3Clause => "BSD-3-Clause"@,
            SpdxLicense::Bsd3ClauseAttribution => "BSD-3-Clause-Attribution"@,
            SpdxLicense::Bsd3ClauseClear => "BSD-3-Clause-Clear"@,
            SpdxLicense::Bsd3ClauseLbnl => "BSD-3-Clause-LBNL"@,
            SpdxLicense::Bsd3ClauseNoNuclearLicense => "BSD-3-Clause-No-Nuclear-License"@,
            SpdxLicense::Bsd3ClauseNoNuclearLicense2014 => "BSD-3-Clause-No-Nuclear-License-2014"@,
            SpdxLicense::Bsd3ClauseNoNuclearWarranty => "BSD-3-Clause-No-Nuclear-Warranty"@,
            SpdxLicense::Bsd3ClauseOpenMpi => "BSD-3-Clause-Open-MPI"@,
            SpdxLicense::Bsd4Clause => "BSD-4-Clause"@,
            SpdxLicense::Bsd4ClauseUc => "BSD-4-Clause-UC"@,
            SpdxLicense::BsdProtection => "BSD-Protection"@,
            SpdxLicense::BsdSourceCode => "BSD-Source-Code"@,
            SpdxLicense::Bsl1 => "BSL-1.0"@,
            SpdxLicense::Bzip21_0_5 => "bzip2-1.0.5"@,
            SpdxLicense::Bzip21_0_6 => "bzip2-1.0.6"@,
            SpdxLicense::Caldera => "Caldera"@,
            SpdxLicense::Catosl1_1 => "CATOSL-1.1"@,
            SpdxLicense::CcBy1 => "CC-BY-1.0"@,
            SpdxLicense::CcBy2 => "CC-BY-2.0"@,
            SpdxLicense::CcBy2_5 => "CC-BY-2.5"@,
            SpdxLicense::CcBy3 => "CC-BY-3.0"@,
            SpdxLicense::CcBy4 => "CC-BY-4.0"@,
            SpdxLicense::CcByNc1 => "CC-BY-NC-1.0"@,
            SpdxLicense::CcByNc2 => "CC-BY-NC-2.0"@,
            SpdxLicense::CcByNc2_5 => "CC-BY-NC-2.5"@,
            SpdxLicense::CcByNc3 => "CC-BY-NC-3.0"@,
            SpdxLicense::CcByNc4 => "CC-BY-NC-4.0"@,
            SpdxLicense::CcByNcNd1 => "CC-BY-NC-ND-1.0"@,
            SpdxLicense::CcByNcNd2 => "CC-BY-NC-ND-2.0"@,
            SpdxLicense::CcByNcNd2_5 => "CC-BY-NC-ND-2.5"@,
            SpdxLicense::CcByNcNd3 => "CC-BY-NC-ND-3.0"@,
            SpdxLicense::CcByNcNd4 => "CC-BY-NC-ND-4.0"@,
            SpdxLicense::CcByNcSa1 => "CC-BY-NC-SA-1.0"@,
            SpdxLicense::CcByNcSa2 => "CC-BY-NC-SA-2.0"@,
            SpdxLicense::CcByNcSa2_5 => "CC-BY-NC-SA-2.5"@,
            SpdxLicense::CcByNcSa3 => "CC-BY-NC-SA-3.0"@,
            SpdxLicense::CcByNcSa4 => "CC-BY-NC-SA-4.0"@,
            SpdxLicense::CcByNd1 => "CC-BY-ND-1.0"@,
            SpdxLicense::CcByNd2 => "CC-BY-ND-2.0"@,
            SpdxLicense::CcByNd2_5 => "CC-BY-ND-2.5"@,
            SpdxLicense::CcByNd3 => "CC-BY-ND-3.0"@,
            SpdxLicense::CcByNd4 => "CC-BY-ND-4.0"@,
            SpdxLicense::CcBySa1 => "CC-BY-SA-1.0"@,
            SpdxLicense::CcBySa2 => "CC-BY-SA-2.0"@,
            SpdxLicense::CcBySa2_5 => "CC-BY-SA-2.5"@,
            SpdxLicense::CcBySa3 => "CC-BY-SA-3.0"@,
            SpdxLicense::CcBySa4 => "CC-BY-SA-4.0"@,
            SpdxLicense::CcPddc => "CC-PDDC"@,
            SpdxLicense::CC01 => "CC0-1.0"@,
            SpdxLicense::Cddl1 => "CDDL-1.0"@,
            SpdxLicense::Cddl1_1 => "CDDL-1.1"@,
            SpdxLicense::CdlaPermissive1 => "CDLA-Permissive-1.0"@,
            SpdxLicense::CdlaSharing1 => "CDLA-Sharing-1.0"@,
            SpdxLicense::Cecill1 => "CECILL-1.0"@,
            SpdxLicense::Cecill1_1 => "CECILL-1.1"@,
            SpdxLicense::Cecill2 => "CECILL-2.0"@,
            SpdxLicense::Cecill2_1 => "CECILL-2.1"@,
            SpdxLicense::CecillB => "CECILL-B"@,
            SpdxLicense::CecillC => "CECILL-C"@,
            SpdxLicense::CernOhl1_1 => "CERN-OHL-1.1"@,
            SpdxLicense::CernOhl1_2 => "CERN-OHL-1.2"@,
            SpdxLicense::ClArtistic => "ClArtistic"@,
            SpdxLicense::CnriJython => "CNRI-Jython"@,
            SpdxLicense::CnriPython => "CNRI-Python"@,
            SpdxLicense::CnriPythonGplCompatible => "CNRI-Python-GPL-Compatible"@,
            SpdxLicense::Condor1_1 => "Condor-1.1"@,
            SpdxLicense::CopyleftNext0_3 => "copyleft-next-0.3.0"@,
            SpdxLicense::CopyleftNext0_3_1 => "copyleft-next-0.3.1"@,
            SpdxLicense::Cpal1 => "CPAL-1.0"@,
            SpdxLicense::Cpl1 => "CPL-1.0"@,
            SpdxLicense::Cpol1_02 => "CPOL-1.02"@,
            SpdxLicense::Crossword => "Crossword"@,
            SpdxLicense::CrystalStacker => "CrystalStacker"@,
            SpdxLicense::CuaOpl1 => "CUA-OPL-1.0"@,
            SpdxLicense::Cube => "Cube"@,
            SpdxLicense::Curl => "curl"@,
            SpdxLicense::DFsl1 => "D-FSL-1.0"@,
            SpdxLicense::Diffmark => "diffmark"@,
            SpdxLicense::Doc => "DOC"@,
            SpdxLicense::Dotseqn => "Dotseqn"@,
            SpdxLicense::Dsdp => "DSDP"@,
            SpdxLicense::Dvipdfm => "dvipdfm"@,
            SpdxLicense::Ecl1 => "ECL-1.0"@,
            SpdxLicense::Ecl2 => "ECL-2.0"@,
            SpdxLicense::Efl1 => "EFL-1.0"@,
            SpdxLicense::Efl2 => "EFL-2.0"@,
            SpdxLicense::EGenix => "eGenix"@,
            SpdxLicense::Entessa => "Entessa"@,
            SpdxLicense::Epl1 => "EPL-1.0"@,
            SpdxLicense::Epl2 => "EPL-2.0"@,
            SpdxLicense::ErlPl1_1 => "ErlPL-1.1"@,
            SpdxLicense::Etalab2 => "etalab-2.0"@,
            SpdxLicense::EUDatagrid => "EUDatagrid"@,
            SpdxLicense::Eupl1 => "EUPL-1.0"@,
            SpdxLicense::Eupl1_1 => "EUPL-1.1"@,
            SpdxLicense::Eupl1_2 => "EUPL-1.2"@,
            SpdxLicense::Eurosym => "Eurosym"@,
            SpdxLicense::Fair => "Fair"@,
            SpdxLicense::Frameworx1 => "Frameworx-1.0"@,
            SpdxLicense::FreeImage => "FreeImage"@,
            SpdxLicense::Fsfap => "FSFAP"@,
            SpdxLicense::Fsful => "FSFUL"@,
            SpdxLicense::Fsfullr => "FSFULLR"@,
            SpdxLicense::Ftl => "FTL"@,
            SpdxLicense::Gfdl1_1Only => "GFDL-1.1-only"@,
            SpdxLicense::Gfdl1_1OrLater => "GFDL-1.1-or-later"@,
            SpdxLicense::Gfdl1_2Only => "GFDL-1.2-only"@,
            SpdxLicense::Gfdl1_2OrLater => "GFDL-1.2-or-later"@,
            SpdxLicense::Gfdl1_3Only => "GFDL-1.3-only"@,
            SpdxLicense::Gfdl1_3OrLater => "GFDL-1.3-or-later"@,
            SpdxLicense::Giftware => "Giftware"@,
            SpdxLicense::GL2Ps => "GL2PS"@,
            SpdxLicense::Glide => "Glide"@,
            SpdxLicense::Glulxe => "Glulxe"@,
            SpdxLicense::Gnuplot => "gnuplot"@,
            SpdxLicense::Gpl1Only => "GPL-1.0-only"@,
            SpdxLicense::Gpl1OrLater => "GPL-1.0-or-later"@,
            SpdxLicense::Gpl2Only => "GPL-2.0-only"@,
            SpdxLicense::Gpl2OrLater => "GPL-2.0-or-later"@,
            SpdxLicense::Gpl3Only => "GPL-3.0-only"@,
            SpdxLicense::Gpl3OrLater => "GPL-3.0-or-later"@,
            SpdxLicense::GSoap1_3b => "gSOAP-1.3b"@,
            SpdxLicense::HaskellReport => "HaskellReport"@,
            SpdxLicense::Hpnd => "HPND"@,
            SpdxLicense::HpndSellVariant => "HPND-sell-variant"@,
            SpdxLicense::IbmPibs => "IBM-pibs"@,
            SpdxLicense::Icu => "ICU"@,
            SpdxLicense::Ijg => "IJG"@,
            SpdxLicense::ImageMagick => "ImageMagick"@,
            SpdxLicense::IMatix => "iMatix"@,
            SpdxLicense::Imlib2 => "Imlib2"@,
            SpdxLicense::InfoZip => "Info-ZIP"@,
            SpdxLicense::Intel => "Intel"@,
            SpdxLicense::IntelAcpi => "Intel-ACPI"@,
            SpdxLicense::Interbase1 => "Interbase-1.0"@,
            SpdxLicense::Ipa => "IPA"@,
            SpdxLicense::Ipl1 => "IPL-1.0"@,
            SpdxLicense::Isc => "ISC"@,
            SpdxLicense::JasPer2 => "JasPer-2.0"@,
            SpdxLicense::Jpnic => "JPNIC"@,
            SpdxLicense::Json => "JSON"@,
            SpdxLicense::Lal1_2 => "LAL-1.2"@,
            SpdxLicense::Lal1_3 => "LAL-1.3"@,
            SpdxLicense::Latex2e => "Latex2e"@,
            SpdxLicense::Leptonica => "Leptonica"@,
            SpdxLicense::Lgpl2Only => "LGPL-2.0-only"@,
            SpdxLicense::Lgpl2OrLater => "LGPL-2.0-or-later"@,
            SpdxLicense::Lgpl2_1Only => "LGPL-2.1-only"@,
            SpdxLicense::Lgpl2_1OrLater => "LGPL-2.1-or-later"@,
            SpdxLicense::Lgpl3Only => "LGPL-3.0-only"@,
            SpdxLicense::Lgpl3OrLater => "LGPL-3.0-or-later"@,
            SpdxLicense::Lgpllr => "LGPLLR"@,
            SpdxLicense::Libpng => "Libpng"@,
            SpdxLicense::Libpng2 => "libpng-2.0"@,
            SpdxLicense::Libtiff => "libtiff"@,
            SpdxLicense::LiLiQP1_1 => "LiLiQ-P-1.1"@,
            SpdxLicense::LiLiQR1_1 => "LiLiQ-R-1.1"@,
            SpdxLicense::LiLiQRplus1_1 => "LiLiQ-Rplus-1.1"@,
            SpdxLicense::LinuxOpenIb => "Linux-OpenIB"@,
            SpdxLicense::Lpl1 => "LPL-1.0"@,
            SpdxLicense::Lpl1_02 => "LPL-1.02"@,
            SpdxLicense::Lppl1 => "LPPL-1.0"@,
            SpdxLicense::Lppl1_1 => "LPPL-1.1"@,
            SpdxLicense::Lppl1_2 => "LPPL-1.2"@,
            SpdxLicense::Lppl1_3a => "LPPL-1.3a"@,
            SpdxLicense::Lppl1_3c => "LPPL-1.3c"@,
            SpdxLicense::MakeIndex => "MakeIndex"@,
            SpdxLicense::MirOs => "MirOS"@,
            SpdxLicense::Mit => "MIT"@,
            SpdxLicense::Mit0 => "MIT-0"@,
            SpdxLicense::MitAdvertising => "MIT-advertising"@,
            SpdxLicense::MitCmu => "MIT-CMU"@,
            SpdxLicense::MitEnna => "MIT-enna"@,
            SpdxLicense::MitFeh => "MIT-feh"@,
            SpdxLicense::Mitnfa => "MITNFA"@,
            SpdxLicense::Motosoto => "Motosoto"@,
            SpdxLicense::Mpich2 => "mpich2"@,
            SpdxLicense::Mpl1 => "MPL-1.0"@,
            SpdxLicense::Mpl1_1 => "MPL-1.1"@,
            SpdxLicense::Mpl2 => "MPL-2.0"@,
            SpdxLicense::Mpl2NoCopyleftException => "MPL-2.0-no-copyleft-exception"@,
            SpdxLicense::MsPl => "MS-PL"@,
            SpdxLicense::MsRl => "MS-RL"@,
            SpdxLicense::Mtll => "MTLL"@,
            SpdxLicense::MulanPsl1 => "MulanPSL-1.0"@,
            SpdxLicense::Multics => "Multics"@,
            SpdxLicense::Mup => "Mup"@,
            SpdxLicense::Nasa1_3 => "NASA-1.3"@,
            SpdxLicense::Naumen => "Naumen"@,
            SpdxLicense::Nbpl1 => "NBPL-1.0"@,
            SpdxLicense::Ncsa => "NCSA"@,
            SpdxLicense::NetSnmp => "Net-SNMP"@,
            SpdxLicense::NetCdf => "NetCDF"@,
            SpdxLicense::Newsletr => "Newsletr"@,
            SpdxLicense::Ngpl => "NGPL"@,
            SpdxLicense::Nlod1 => "NLOD-1.0"@,
            SpdxLicense::Nlpl => "NLPL"@,
            SpdxLicense::Nokia => "Nokia"@,
            SpdxLicense::Nosl => "NOSL"@,
            SpdxLicense::Noweb => "Noweb"@,
            SpdxLicense::Npl1 => "NPL-1.0"@,
            SpdxLicense::Npl1_1 => "NPL-1.1"@,
            SpdxLicense::Nposl3 => "NPOSL-3.0"@,
            SpdxLicense::Nrl => "NRL"@,
            SpdxLicense::Ntp => "NTP"@,
            SpdxLicense::OcctPl => "OCCT-PL"@,
            SpdxLicense::Oclc2 => "OCLC-2.0"@,
            SpdxLicense::ODbL1 => "ODbL-1.0"@,
            SpdxLicense::OdcBy1 => "ODC-By-1.0"@,
            SpdxLicense::Ofl1 => "OFL-1.0"@,
            SpdxLicense::Ofl1_1 => "OFL-1.1"@,
            SpdxLicense::OglCanada2 => "OGL-Canada-2.0"@,
            SpdxLicense::OglUk1 => "OGL-UK-1.0"@,
            SpdxLicense::OglUk2 => "OGL-UK-2.0"@,
            SpdxLicense::OglUk3 => "OGL-UK-3.0"@,
            SpdxLicense::Ogtsl => "OGTSL"@,
            SpdxLicense::Oldap1_1 => "OLDAP-1.1"@,
            SpdxLicense::Oldap1_2 => "OLDAP-1.2"@,
            SpdxLicense::Oldap1_3 => "OLDAP-1.3"@,
            SpdxLicense::Oldap1_4 => "OLDAP-1.4"@,
            SpdxLicense::Oldap2 => "OLDAP-2.0"@,
            SpdxLicense::Oldap2_0_1 => "OLDAP-2.0.1"@,
            SpdxLicense::Oldap2_1 => "OLDAP-2.1"@,
            SpdxLicense::Oldap2_2 => "OLDAP-2.2"@,
            SpdxLicense::Oldap2_2_1 => "OLDAP-2.2.1"@,
            SpdxLicense::Oldap2_2_2 => "OLDAP-2.2.2"@,
            SpdxLicense::Oldap2_3 => "OLDAP-2.3"@,
            SpdxLicense::Oldap2_4 => "OLDAP-2.4"@,
            SpdxLicense::Oldap2_5 => "OLDAP-2.5"@,
            SpdxLicense::Oldap2_6 => "OLDAP-2.6"@,
            SpdxLicense::Oldap2_7 => "OLDAP-2.7"@,
            SpdxLicense::Oldap2_8 => "OLDAP-2.8"@,
            SpdxLicense::Oml => "OML"@,
            SpdxLicense::OpenSsl => "OpenSSL"@,
            SpdxLicense::Opl1 => "OPL-1.0"@,
            SpdxLicense::OsetPl2_1 => "OSET-PL-2.1"@,
            SpdxLicense::Osl1 => "OSL-1.0"@,
            SpdxLicense::Osl1_1 => "OSL-1.1"@,
            SpdxLicense::Osl2 => "OSL-2.0"@,
            SpdxLicense::Osl2_1 => "OSL-2.1"@,
            SpdxLicense::Osl3 => "OSL-3.0"@,
            SpdxLicense::Parity6 => "Parity-6.0.0"@,
            SpdxLicense::Pddl1 => "PDDL-1.0"@,
            SpdxLicense::Php3 => "-PHP\u{a0}3.0"@,
            SpdxLicense::Php3_01 => "-PHP\u{a0}3.01"@,
            SpdxLicense::Plexus => "Plexus"@,
            SpdxLicense::PostgreSql => "PostgreSQL"@,
            SpdxLicense::Psfrag => "psfrag"@,
            SpdxLicense::Psutils => "psutils"@,
            SpdxLicense::Python2 => "Python-2.0"@,
            SpdxLicense::Qhull => "Qhull"@,
            SpdxLicense::Qpl1 => "QPL-1.0"@,
            SpdxLicense::Rdisc => "Rdisc"@,
            SpdxLicense::RHeCos1_1 => "RHeCos-1.1"@,
            SpdxLicense::Rpl1_1 => "RPL-1.1"@,
            SpdxLicense::Rpl1_5 => "RPL-1.5"@,
            SpdxLicense::Rpsl1 => "RPSL-1.0"@,
            SpdxLicense::RsaMd => "RSA-MD"@,
            SpdxLicense::Rscpl => "RSCPL"@,
            SpdxLicense::Ruby => "Ruby"@,
            SpdxLicense::SaxPd => "SAX-PD"@,
            SpdxLicense::Saxpath => "Saxpath"@,
            SpdxLicense::Scea => "SCEA"@,
            SpdxLicense::Sendmail => "Sendmail"@,
            SpdxLicense::Sendmail8_23 => "Sendmail-8.23"@,
            SpdxLicense::SgiB1 => "SGI-B-1.0"@,
            SpdxLicense::SgiB1_1 => "SGI-B-1.1"@,
            SpdxLicense::SgiB2 => "SGI-B-2.0"@,
            SpdxLicense::Shl0_5 => "SHL-0.5"@,
            SpdxLicense::Shl0_51 => "SHL-0.51"@,
            SpdxLicense::SimPl2 => "SimPL-2.0"@,
            SpdxLicense::Sissl => "SISSL"@,
            SpdxLicense::Sissl1_2 => "SISSL-1.2"@,
            SpdxLicense::Sleepycat => "Sleepycat"@,
            SpdxLicense::Smlnj => "SMLNJ"@,
            SpdxLicense::Smppl => "SMPPL"@,
            SpdxLicense::Snia => "SNIA"@,
            SpdxLicense::Spencer86 => "Spencer-86"@,
            SpdxLicense::Spencer94 => "Spencer-94"@,
            SpdxLicense::Spencer99 => "Spencer-99"@,
            SpdxLicense::Spl1 => "SPL-1.0"@,
            SpdxLicense::SshOpenSsh => "SSH-OpenSSH"@,
            SpdxLicense::SshShort => "SSH-short"@,
            SpdxLicense::Sspl1 => "SSPL-1.0"@,
            SpdxLicense::SugarCrm1_1_3 => "SugarCRM-1.1.3"@,
            SpdxLicense::Swl => "SWL"@,
            SpdxLicense::TaprOhl1 => "TAPR-OHL-1.0"@,
            SpdxLicense::Tcl => "TCL"@,
            SpdxLicense::TcpWrappers => "TCP-wrappers"@,
            SpdxLicense::TMate => "TMate"@,
            SpdxLicense::Torque1_1 => "TORQUE-1.1"@,
            SpdxLicense::Tosl => "TOSL"@,
            SpdxLicense::TuBerlin1 => "TU-Berlin-1.0"@,
            SpdxLicense::TuBerlin2 => "TU-Berlin-2.0"@,
            SpdxLicense::Ucl1 => "UCL-1.0"@,
            SpdxLicense::UnicodeDfs2015 => "Unicode-DFS-2015"@,
            SpdxLicense::UnicodeDfs2016 => "Unicode-DFS-2016"@,
            SpdxLicense::UnicodeTou => "Unicode-TOU"@,
            SpdxLicense::Unlicense => "Unlicense"@,
            SpdxLicense::Upl1 => "UPL-1.0"@,
            SpdxLicense::Vim => "Vim"@,
            SpdxLicense::Vostrom => "VOSTROM"@,
            SpdxLicense::Vsl1 => "VSL-1.0"@,
            SpdxLicense::W3C => "W3C"@,
            SpdxLicense::W3C19980720 => "W3C-19980720"@,
            SpdxLicense::W3C20150513 => "W3C-20150513"@,
            SpdxLicense::Watcom1 => "Watcom-1.0"@,
            SpdxLicense::Wsuipa => "Wsuipa"@,
            SpdxLicense::Wtfpl => "WTFPL"@,
            SpdxLicense::X11 => "X11"@,
            SpdxLicense::Xerox => "Xerox"@,
            SpdxLicense::XFree861_1 => "XFree86-1.1"@,
            SpdxLicense::Xinetd => "xinetd"@,
            SpdxLicense::Xnet => "Xnet"@,
            SpdxLicense::Xpp => "xpp"@,
            SpdxLicense::XSkat => "XSkat"@,
            SpdxLicense::Ypl1 => "YPL-1.0"@,
            SpdxLicense::Ypl1_1 => "YPL-1.1"@,
            SpdxLicense::Zed => "Zed"@,
            SpdxLicense::Zend2 => "Zend-2.0"@,
            SpdxLicense::Zimbra1_3 => "Zimbra-1.3"@,
            SpdxLicense::Zimbra1_4 => "Zimbra-1.4"@,
            SpdxLicense::Zlib => "Zlib"@,
            SpdxLicense::ZlibAcknowledgement => "zlib-acknowledgement"@,
            SpdxLicense::Zpl1_1 => "ZPL-1.1"@,
            SpdxLicense::Zpl2 => "ZPL-2.0"@,
            SpdxLicense::Zpl2_1 => "ZPL-2.1"@,
        }
    }

    /// The display name of the license.
    pub open spec fn spec_name(self) -> Seq<char> {
        match self {
            SpdxLicense::Bsd0 => "BSD Zero Clause License"@,
            SpdxLicense::Aal => "Attribution Assurance License"@,
            SpdxLicense::Abstyles => "Abstyles License"@,
            SpdxLicense::Adobe2006 => "Adobe Systems Incorporated Source Code License Agreement"@,
            SpdxLicense::AdobeGlyph => "Adobe Glyph List License"@,
            SpdxLicense::Adsl => "Amazon Digital Services License"@,
            SpdxLicense::Afl1_1 => "Academic Free License v1.1"@,
            SpdxLicense::Afl1_2 => "Academic Free License v1.2"@,
            SpdxLicense::Afl2 => "Academic Free License v2.0"@,
            SpdxLicense::Afl2_1 => "Academic Free License v2.1"@,
            SpdxLicense::Afl3 => "Academic Free License v3.0"@,
            SpdxLicense::Afmparse => "Afmparse License"@,
            SpdxLicense::Agpl1Only => "Affero General Public License v1.0 only"@,
            SpdxLicense::Agpl1OrLater => "Affero General Public License v1.0 or later"@,
            SpdxLicense::Agpl3Only => "GNU Affero General Public License v3.0 only"@,
            SpdxLicense::Agpl3OrLater => "GNU Affero General Public License v3.0 or later"@,
            SpdxLicense::Aladdin => "Aladdin Free Public License"@,
            SpdxLicense::Amdplpa => "AMD's plpa_map.c License"@,
            SpdxLicense::Aml => "Apple MIT License"@,
            SpdxLicense::Ampas => "Academy of Motion Picture Arts and Sciences BSD"@,
            SpdxLicense::AntlrPd => "ANTLR Software Rights Notice"@,
            SpdxLicense::Apache1 => "Apache License 1.0"@,
            SpdxLicense::Apache1_1 => "Apache License 1.1"@,
            SpdxLicense::Apache2 => "Apache License 2.0"@,
            SpdxLicense::Apafml => "Adobe Postscript AFM License"@,
            SpdxLicense::Apl1 => "Adaptive Public License 1.0"@,
            SpdxLicense::Apsl1 => "Apple Public Source License 1.0"@,
            SpdxLicense::Apsl1_1 => "Apple Public Source License 1.1"@,
            SpdxLicense::Apsl1_2 => "Apple Public Source License 1.2"@,
            SpdxLicense::Apsl2 => "Apple Public Source License 2.0"@,
            SpdxLicense::Artistic1 => "Artistic License 1.0"@,
            SpdxLicense::Artistic1Cl8 => "Artistic License 1.0 w/clause 8"@,
            SpdxLicense::Artistic1Perl => "Artistic License 1.0 (Perl)"@,
            SpdxLicense::Artistic2 => "Artistic License 2.0"@,
            SpdxLicense::Bahyph => "Bahyph License"@,
            SpdxLicense::Barr => "Barr License"@,
            SpdxLicense::Beerware => "Beerware License"@,
            SpdxLicense::BitTorrent1 => "BitTorrent Open Source License v1.0"@,
            SpdxLicense::BitTorrent1_1 => "BitTorrent Open Source License v1.1"@,
            SpdxLicense::Blessing => "SQLite Blessing"@,
            SpdxLicense::BlueOak1 => "Blue Oak Model License 1.0.0"@,
            SpdxLicense::Borceux => "Borceux license"@,
            SpdxLicense::Bsd1Clause => "BSD 1-Clause License"@,
            SpdxLicense::Bsd2Clause => "BSD 2-Clause \"Simplified\" License"@,
            SpdxLicense::Bsd2ClauseFreeBsd => "BSD 2-Clause FreeBSD License"@,
            SpdxLicense::Bsd2ClauseNetBsd => "BSD 2-Clause NetBSD License"@,
            SpdxLicense::Bsd2ClausePatent => "BSD-2-Clause Plus Patent License"@,
            SpdxLicense::Bsd3Clause => "BSD 3-Clause \"New\" or \"Revised\" License"@,
            SpdxLicense::Bsd3ClauseAttribution => "BSD with attribution"@,
            SpdxLicense::Bsd3ClauseClear => "BSD 3-Clause Clear License"@,
            SpdxLicense::Bsd3ClauseLbnl => "Lawrence Berkeley National Labs BSD variant license"@,
            SpdxLicense::Bsd3ClauseNoNuclearLicense => "BSD 3-Clause No Nuclear License"@,
            SpdxLicense::Bsd3ClauseNoNuclearLicense2014 => "BSD 3-Clause No Nuclear License 2014"@,
            SpdxLicense::Bsd3ClauseNoNuclearWarranty => "BSD 3-Clause No Nuclear Warranty"@,
            SpdxLicense::Bsd3ClauseOpenMpi => "BSD 3-Clause Open MPI variant"@,
            SpdxLicense::Bsd4Clause => "BSD 4-Clause \"Original\" or \"Old\" License"@,
            SpdxLicense::Bsd4ClauseUc => "BSD-4-Clause (University of California-Specific)"@,
            SpdxLicense::BsdProtection => "BSD Protection License"@,
            SpdxLicense::BsdSourceCode => "BSD Source Code Attribution"@,
            SpdxLicense::Bsl1 => "Boost Software License 1.0"@,
            SpdxLicense::Bzip21_0_5 => "bzip2 and libbzip2 License v1.0.5"@,
            SpdxLicense::Bzip21_0_6 => "bzip2 and libbzip2 License v1.0.6"@,
            SpdxLicense::Caldera => "Caldera License"@,
            SpdxLicense::Catosl1_1 => "Computer Associates Trusted Open Source License 1.1"@,
            SpdxLicense::CcBy1 => "Creative Commons Attribution 1.0 Generic"@,
            SpdxLicense::CcBy2 => "Creative Commons Attribution 2.0 Generic"@,
            SpdxLicense::CcBy2_5 => "Creative Commons Attribution 2.5 Generic"@,
            SpdxLicense::CcBy3 => "Creative Commons Attribution 3.0 Unported"@,
            SpdxLicense::CcBy4 => "Creative Commons Attribution 4.0 International"@,
            SpdxLicense::CcByNc1 => "Creative Commons Attribution Non Commercial 1.0 Generic"@,
            SpdxLicense::CcByNc2 => "Creative Commons Attribution Non Commercial 2.0 Generic"@,
            SpdxLicense::CcByNc2_5 => "Creative Commons Attribution Non Commercial 2.5 Generic"@,
            SpdxLicense::CcByNc3 => "Creative Commons Attribution Non Commercial 3.0 Unported"@,
            SpdxLicense::CcByNc4 => "Creative Commons Attribution Non Commercial 4.0 International"@,
            SpdxLicense::CcByNcNd1 => "Creative Commons Attribution Non Commercial No Derivatives 1.0 Generic"@,
            SpdxLicense::CcByNcNd2 => "Creative Commons Attribution Non Commercial No Derivatives 2.0 Generic"@,
            SpdxLicense::CcByNcNd2_5 => "Creative Commons Attribution Non Commercial No Derivatives 2.5 Generic"@,
            SpdxLicense::CcByNcNd3 => "Creative Commons Attribution Non Commercial No Derivatives 3.0 Unported"@,
            SpdxLicense::CcByNcNd4 => "Creative Commons Attribution Non Commercial No Derivatives 4.0 International"@,
            SpdxLicense::CcByNcSa1 => "Creative Commons Attribution Non Commercial Share Alike 1.0 Generic"@,
            SpdxLicense::CcByNcSa2 => "Creative Commons Attribution Non Commercial Share Alike 2.0 Generic"@,
            SpdxLicense::CcByNcSa2_5 => "Creative Commons Attribution Non Commercial Share Alike 2.5 Generic"@,
            SpdxLicense::CcByNcSa3 => "Creative Commons Attribution Non Commercial Share Alike 3.0 Unported"@,
            SpdxLicense::CcByNcSa4 => "Creative Commons Attribution Non Commercial Share Alike 4.0 International"@,
            SpdxLicense::CcByNd1 => "Creative Commons Attribution No Derivatives 1.0 Generic"@,
            SpdxLicense::CcByNd2 => "Creative Commons Attribution No Derivatives 2.0 Generic"@,
            SpdxLicense::CcByNd2_5 => "Creative Commons Attribution No Derivatives 2.5 Generic"@,
            SpdxLicense::CcByNd3 => "Creative Commons Attribution No Derivatives 3.0 Unported"@,
            SpdxLicense::CcByNd4 => "Creative Commons Attribution No Derivatives 4.0 International"@,
            SpdxLicense::CcBySa1 => "Creative Commons Attribution Share Alike 1.0 Generic"@,
            SpdxLicense::CcBySa2 => "Creative Commons Attribution Share Alike 2.0 Generic"@,
            SpdxLicense::CcBySa2_5 => "Creative Commons Attribution Share Alike 2.5 Generic"@,
            SpdxLicense::CcBySa3 => "Creative Commons Attribution Share Alike 3.0 Unported"@,
            SpdxLicense::CcBySa4 => "Creative Commons Attribution Share Alike 4.0 International"@,
            SpdxLicense::CcPddc => "Creative Commons Public Domain Dedication and Certification"@,
            SpdxLicense::CC01 => "Creative Commons Zero v1.0 Universal"@,
            SpdxLicense::Cddl1 => "Common Development and Distribution License 1.0"@,
            SpdxLicense::Cddl1_1 => "Common Development and Distribution License 1.1"@,
            SpdxLicense::CdlaPermissive1 => "Community Data License Agreement Permissive 1.0"@,
            SpdxLicense::CdlaSharing1 => "Community Data License Agreement Sharing 1.0"@,
            SpdxLicense::Cecill1 => "CeCILL Free Software License Agreement v1.0"@,
            SpdxLicense::Cecill1_1 => "CeCILL Free Software License Agreement v1.1"@,
            SpdxLicense::Cecill2 => "CeCILL Free Software License Agreement v2.0"@,
            SpdxLicense::Cecill2_1 => "CeCILL Free Software License Agreement v2.1"@,
            SpdxLicense::CecillB => "CeCILL-B Free Software License Agreement"@,
            SpdxLicense::CecillC => "CeCILL-C Free Software License Agreement"@,
            SpdxLicense::CernOhl1_1 => "CERN Open Hardware Licence v1.1"@,
            SpdxLicense::CernOhl1_2 => "CERN Open Hardware Licence v1.2"@,
            SpdxLicense::ClArtistic => "Clarified Artistic License"@,
            SpdxLicense::CnriJython => "CNRI Jython License"@,
            SpdxLicense::CnriPython => "CNRI Python License"@,
            SpdxLicense::CnriPythonGplCompatible => "CNRI Python Open Source GPL Compatible License Agreement"@,
            SpdxLicense::Condor1_1 => "Condor Public License v1.1"@,
            SpdxLicense::CopyleftNext0_3 => "copyleft-next 0.3.0"@,
            SpdxLicense::CopyleftNext0_3_1 => "copyleft-next 0.3.1"@,
            SpdxLicense::Cpal1 => "Common Public Attribution License 1.0"@,
            SpdxLicense::Cpl1 => "Common Public License 1.0"@,
            SpdxLicense::Cpol1_02 => "Code Project Open License 1.02"@,
            SpdxLicense::Crossword => "Crossword License"@,
            SpdxLicense::CrystalStacker => "CrystalStacker License"@,
            SpdxLicense::CuaOpl1 => "CUA Office Public License v1.0"@,
            SpdxLicense::Cube => "Cube License"@,
            SpdxLicense::Curl => "curl License"@,
            SpdxLicense::DFsl1 => "Deutsche Freie Software Lizenz"@,
            SpdxLicense::Diffmark => "diffmark license"@,
            SpdxLicense::Doc => "DOC License"@,
            SpdxLicense::Dotseqn => "Dotseqn License"@,
            SpdxLicense::Dsdp => "DSDP License"@,
            SpdxLicense::Dvipdfm => "dvipdfm License"@,
            SpdxLicense::Ecl1 => "Educational Community License v1.0"@,
            SpdxLicense::Ecl2 => "Educational Community License v2.0"@,
            SpdxLicense::Efl1 => "Eiffel Forum License v1.0"@,
            SpdxLicense::Efl2 => "Eiffel Forum License v2.0"@,
            SpdxLicense::EGenix => "eGenix.com Public License 1.1.0"@,
            SpdxLicense::Entessa => "Entessa Public License v1.0"@,
            SpdxLicense::Epl1 => "Eclipse Public License 1.0"@,
            SpdxLicense::Epl2 => "Eclipse Public License 2.0"@,
            SpdxLicense::ErlPl1_1 => "Erlang Public License v1.1"@,
            SpdxLicense::Etalab2 => "Etalab Open License 2.0"@,
            SpdxLicense::EUDatagrid => "EU DataGrid Software License"@,
            SpdxLicense::Eupl1 => "European Union Public License 1.0"@,
            SpdxLicense::Eupl1_1 => "European Union Public License 1.1"@,
            SpdxLicense::Eupl1_2 => "European Union Public License 1.2"@,
            SpdxLicense::Eurosym => "Eurosym License"@,
            SpdxLicense::Fair => "Fair License"@,
            SpdxLicense::Frameworx1 => "Frameworx Open License 1.0"@,
            SpdxLicense::FreeImage => "FreeImage Public License v1.0"@,
            SpdxLicense::Fsfap => "FSF All Permissive License"@,
            SpdxLicense::Fsful => "FSF Unlimited License"@,
            SpdxLicense::Fsfullr => "FSF Unlimited License (with License Retention)"@,
            SpdxLicense::Ftl => "Freetype Project License"@,
            SpdxLicense::Gfdl1_1Only => "GNU Free Documentation License v1.1 only"@,
            SpdxLicense::Gfdl1_1OrLater => "GNU Free Documentation License v1.1 or later"@,
            SpdxLicense::Gfdl1_2Only => "GNU Free Documentation License v1.2 only"@,
            SpdxLicense::Gfdl1_2OrLater => "GNU Free Documentation License v1.2 or later"@,
            SpdxLicense::Gfdl1_3Only => "GNU Free Documentation License v1.3 only"@,
            SpdxLicense::Gfdl1_3OrLater => "GNU Free Documentation License v1.3 or later"@,
            SpdxLicense::Giftware => "Giftware License"@,
            SpdxLicense::GL2Ps => "GL2PS License"@,
            SpdxLicense::Glide => "3dfx Glide License"@,
            SpdxLicense::Glulxe => "Glulxe License"@,
            SpdxLicense::Gnuplot => "gnuplot License"@,
            SpdxLicense::Gpl1Only => "GNU General Public License v1.0 only"@,
            SpdxLicense::Gpl1OrLater => "GNU General Public License v1.0 or later"@,
            SpdxLicense::Gpl2Only => "GNU General Public License v2.0 only"@,
            SpdxLicense::Gpl2OrLater => "GNU General Public License v2.0 or later"@,
            SpdxLicense::Gpl3Only => "GNU General Public License v3.0 only"@,
            SpdxLicense::Gpl3OrLater => "GNU General Public License v3.0 or later"@,
            SpdxLicense::GSoap1_3b => "gSOAP Public License v1.3b"@,
            SpdxLicense::HaskellReport => "Haskell Language Report License"@,
            SpdxLicense::Hpnd => "Historical Permission Notice and Disclaimer"@,
            SpdxLicense::HpndSellVariant => "Historical Permission Notice and Disclaimer - sell variant"@,
            SpdxLicense::IbmPibs => "IBM PowerPC Initialization and Boot Software"@,
            SpdxLicense::Icu => "ICU License"@,
            SpdxLicense::Ijg => "Independent JPEG Group License"@,
            SpdxLicense::ImageMagick => "ImageMagick License"@,
            SpdxLicense::IMatix => "iMatix Standard Function Library Agreement"@,
            SpdxLicense::Imlib2 => "Imlib2 License"@,
            SpdxLicense::InfoZip => "Info-ZIP License"@,
            SpdxLicense::Intel => "Intel Open Source License"@,
            SpdxLicense::IntelAcpi => "Intel ACPI Software License Agreement"@,
            SpdxLicense::Interbase1 => "Interbase Public License v1.0"@,
            SpdxLicense::Ipa => "IPA Font License"@,
            SpdxLicense::Ipl1 => "IBM Public License v1.0"@,
            SpdxLicense::Isc => "ISC License"@,
            SpdxLicense::JasPer2 => "JasPer License"@,
            SpdxLicense::Jpnic => "Japan Network Information Center License"@,
            SpdxLicense::Json => "JSON License"@,
            SpdxLicense::Lal1_2 => "Licence Art Libre 1.2"@,
            SpdxLicense::Lal1_3 => "Licence Art Libre 1.3"@,
            SpdxLicense::Latex2e => "Latex2e License"@,
            SpdxLicense::Leptonica => "Leptonica License"@,
            SpdxLicense::Lgpl2Only => "GNU Library General Public License v2 only"@,
            SpdxLicense::Lgpl2OrLater => "GNU Library General Public License v2 or later"@,
            SpdxLicense::Lgpl2_1Only => "GNU Lesser General Public License v2.1 only"@,
            SpdxLicense::Lgpl2_1OrLater => "GNU Lesser General Public License v2.1 or later"@,
            SpdxLicense::Lgpl3Only => "GNU Lesser General Public License v3.0 only"@,
            SpdxLicense::Lgpl3OrLater => "GNU Lesser General Public License v3.0 or later"@,
            SpdxLicense::Lgpllr => "Lesser General Public License For Linguistic Resources"@,
            SpdxLicense::Libpng => "libpng License"@,
            SpdxLicense::Libpng2 => "PNG Reference Library version 2"@,
            SpdxLicense::Libtiff => "libtiff License"@,
            SpdxLicense::LiLiQP1_1 => "Licence Libre du Qu\u{e9}bec \u{2013} Permissive version 1.1"@,
            SpdxLicense::LiLiQR1_1 => "Licence Libre du Qu\u{e9}bec \u{2013} R\u{e9}ciprocit\u{e9} version 1.1"@,
            SpdxLicense::LiLiQRplus1_1 => "Licence Libre du Qu\u{e9}bec \u{2013} R\u{e9}ciprocit\u{e9} forte version 1.1"@,
            SpdxLicense::LinuxOpenIb => "Linux Kernel Variant of OpenIB.org license"@,
            SpdxLicense::Lpl1 => "Lucent Public License Version 1.0"@,
            SpdxLicense::Lpl1_02 => "Lucent Public License v1.02"@,
            SpdxLicense::Lppl1 => "LaTeX Project Public License v1.0"@,
            SpdxLicense::Lppl1_1 => "LaTeX Project Public License v1.1"@,
            SpdxLicense::Lppl1_2 => "LaTeX Project Public License v1.2"@,
            SpdxLicense::Lppl1_3a => "LaTeX Project Public License v1.3a"@,
            SpdxLicense::Lppl1_3c => "LaTeX Project Public License v1.3c"@,
            SpdxLicense::MakeIndex => "MakeIndex License"@,
            SpdxLicense::MirOs => "The MirOS Licence"@,
            SpdxLicense::Mit => "MIT License"@,
            SpdxLicense::Mit0 => "MIT No Attribution"@,
            SpdxLicense::MitAdvertising => "Enlightenment License (e16)"@,
            SpdxLicense::MitCmu => "CMU License"@,
            SpdxLicense::MitEnna => "enna License"@,
            SpdxLicense::MitFeh => "feh License"@,
            SpdxLicense::Mitnfa => "MIT +no-false-attribs license"@,
            SpdxLicense::Motosoto => "Motosoto License"@,
            SpdxLicense::Mpich2 => "mpich2 License"@,
            SpdxLicense::Mpl1 => "Mozilla Public License 1.0"@,
            SpdxLicense::Mpl1_1 => "Mozilla Public License 1.1"@,
            SpdxLicense::Mpl2 => "Mozilla Public License 2.0"@,
            SpdxLicense::Mpl2NoCopyleftException => "Mozilla Public License 2.0 (no copyleft exception)"@,
            SpdxLicense::MsPl => "Microsoft Public License"@,
            SpdxLicense::MsRl => "Microsoft Reciprocal License"@,
            SpdxLicense::Mtll => "Matrix Template Library License"@,
            SpdxLicense::MulanPsl1 => "Mulan Permissive Software License, Version 1"@,
            SpdxLicense::Multics => "Multics License"@,
            SpdxLicense::Mup => "Mup License"@,
            SpdxLicense::Nasa1_3 => "NASA Open Source Agreement 1.3"@,
            SpdxLicense::Naumen => "Naumen Public License"@,
            SpdxLicense::Nbpl1 => "Net Boolean Public License v1"@,
            SpdxLicense::Ncsa => "University of Illinois/NCSA Open Source License"@,
            SpdxLicense::NetSnmp => "Net-SNMP License"@,
            SpdxLicense::NetCdf => "NetCDF license"@,
            SpdxLicense::Newsletr => "Newsletr License"@,
            SpdxLicense::Ngpl => "Nethack General Public License"@,
            SpdxLicense::Nlod1 => "Norwegian Licence for Open Government Data"@,
            SpdxLicense::Nlpl => "No Limit Public License"@,
            SpdxLicense::Nokia => "Nokia Open Source License"@,
            SpdxLicense::Nosl => "Netizen Open Source License"@,
            SpdxLicense::Noweb => "Noweb License"@,
            SpdxLicense::Npl1 => "Netscape Public License v1.0"@,
            SpdxLicense::Npl1_1 => "Netscape Public License v1.1"@,
            SpdxLicense::Nposl3 => "Non-Profit Open Software License 3.0"@,
            SpdxLicense::Nrl => "NRL License"@,
            SpdxLicense::Ntp => "NTP License"@,
            SpdxLicense::OcctPl => "Open CASCADE Technology Public License"@,
            SpdxLicense::Oclc2 => "OCLC Research Public License 2.0"@,
            SpdxLicense::ODbL1 => "ODC Open Database License v1.0"@,
            SpdxLicense::OdcBy1 => "Open Data Commons Attribution License v1.0"@,
            SpdxLicense::Ofl1 => "SIL Open Font License 1.0"@,
            SpdxLicense::Ofl1_1 => "SIL Open Font License 1.1"@,
            SpdxLicense::OglCanada2 => "Open Government Licence - Canada"@,
            SpdxLicense::OglUk1 => "Open Government Licence v1.0"@,
            SpdxLicense::OglUk2 => "Open Government Licence v2.0"@,
            SpdxLicense::OglUk3 => "Open Government Licence v3.0"@,
            SpdxLicense::Ogtsl => "Open Group Test Suite License"@,
            SpdxLicense::Oldap1_1 => "Open LDAP Public License v1.1"@,
            SpdxLicense::Oldap1_2 => "Open LDAP Public License v1.2"@,
            SpdxLicense::Oldap1_3 => "Open LDAP Public License v1.3"@,
            SpdxLicense::Oldap1_4 => "Open LDAP Public License v1.4"@,
            SpdxLicense::Oldap2 => "Open LDAP Public License v2.0 (or possibly 2.0A and 2.0B)"@,
            SpdxLicense::Oldap2_0_1 => "Open LDAP Public License v2.0.1"@,
            SpdxLicense::Oldap2_1 => "Open LDAP Public License v2.1"@,
            SpdxLicense::Oldap2_2 => "Open LDAP Public License v2.2"@,
            SpdxLicense::Oldap2_2_1 => "Open LDAP Public License v2.2.1"@,
            SpdxLicense::Oldap2_2_2 => "Open LDAP Public License 2.2.2"@,
            SpdxLicense::Oldap2_3 => "Open LDAP Public License v2.3"@,
            SpdxLicense::Oldap2_4 => "Open LDAP Public License v2.4"@,
            SpdxLicense::Oldap2_5 => "Open LDAP Public License v2.5"@,
            SpdxLicense::Oldap2_6 => "Open LDAP Public License v2.6"@,
            SpdxLicense::Oldap2_7 => "Open LDAP Public License v2.7"@,
            SpdxLicense::Oldap2_8 => "Open LDAP Public License v2.8"@,
            SpdxLicense::Oml => "Open Market License"@,
            SpdxLicense::OpenSsl => "OpenSSL License"@,
            SpdxLicense::Opl1 => "Open Public License v1.0"@,
            SpdxLicense::OsetPl2_1 => "OSET Public License version 2.1"@,
            SpdxLicense::Osl1 => "Open Software License 1.0"@,
            SpdxLicense::Osl1_1 => "Open Software License 1.1"@,
            SpdxLicense::Osl2 => "Open Software License 2.0"@,
            SpdxLicense::Osl2_1 => "Open Software License 2.1"@,
            SpdxLicense::Osl3 => "Open Software License 3.0"@,
            SpdxLicense::Parity6 => "The Parity Public License 6.0.0"@,
            SpdxLicense::Pddl1 => "ODC Public Domain Dedication & License 1.0"@,
            SpdxLicense::Php3 => "PHP License v3.0"@,
            SpdxLicense::Php3_01 => "PHP License v3.01"@,
            SpdxLicense::Plexus => "Plexus Classworlds License"@,
            SpdxLicense::PostgreSql => "PostgreSQL License"@,
            SpdxLicense::Psfrag => "psfrag License"@,
            SpdxLicense::Psutils => "psutils License"@,
            SpdxLicense::Python2 => "Python License 2.0"@,
            SpdxLicense::Qhull => "Qhull License"@,
            SpdxLicense::Qpl1 => "Q Public License 1.0"@,
            SpdxLicense::Rdisc => "Rdisc License"@,
            SpdxLicense::RHeCos1_1 => "Red Hat eCos Public License v1.1"@,
            SpdxLicense::Rpl1_1 => "Reciprocal Public License 1.1"@,
            SpdxLicense::Rpl1_5 => "Reciprocal Public License 1.5"@,
            SpdxLicense::Rpsl1 => "RealNetworks Public Source License v1.0"@,
            SpdxLicense::RsaMd => "RSA Message-Digest License"@,
            SpdxLicense::Rscpl => "Ricoh Source Code Public License"@,
            SpdxLicense::Ruby => "Ruby License"@,
            SpdxLicense::SaxPd => "Sax Public Domain Notice"@,
            SpdxLicense::Saxpath => "Saxpath License"@,
            SpdxLicense::Scea => "SCEA Shared Source License"@,
            SpdxLicense::Sendmail => "Sendmail License"@,
            SpdxLicense::Sendmail8_23 => "Sendmail License 8.23"@,
            SpdxLicense::SgiB1 => "SGI Free Software License B v1.0"@,
            SpdxLicense::SgiB1_1 => "SGI Free Software License B v1.1"@,
            SpdxLicense::SgiB2 => "SGI Free Software License B v2.0"@,
            SpdxLicense::Shl0_5 => "Solderpad Hardware License v0.5"@,
            SpdxLicense::Shl0_51 => "Solderpad Hardware License, Version 0.51"@,
            SpdxLicense::SimPl2 => "Simple Public License 2.0"@,
            SpdxLicense::Sissl => "Sun Industry Standards Source License v1.1"@,
            SpdxLicense::Sissl1_2 => "Sun Industry Standards Source License v1.2"@,
            SpdxLicense::Sleepycat => "Sleepycat License"@,
            SpdxLicense::Smlnj => "Standard ML of New Jersey License"@,
            SpdxLicense::Smppl => "Secure Messaging Protocol Public License"@,
            SpdxLicense::Snia => "SNIA Public License 1.1"@,
            SpdxLicense::Spencer86 => "Spencer License 86"@,
            SpdxLicense::Spencer94 => "Spencer License 94"@,
            SpdxLicense::Spencer99 => "Spencer License 99"@,
            SpdxLicense::Spl1 => "Sun Public License v1.0"@,
            SpdxLicense::SshOpenSsh => "SSH OpenSSH license"@,
            SpdxLicense::SshShort => "SSH short notice"@,
            SpdxLicense::Sspl1 => "Server Side Public License, v 1"@,
            SpdxLicense::SugarCrm1_1_3 => "SugarCRM Public License v1.1.3"@,
            SpdxLicense::Swl => "Scheme Widget Library (SWL) Software License Agreement"@,
            SpdxLicense::TaprOhl1 => "TAPR Open Hardware License v1.0"@,
            SpdxLicense::Tcl => "TCL/TK License"@,
            SpdxLicense::TcpWrappers => "TCP Wrappers License"@,
            SpdxLicense::TMate => "TMate Open Source License"@,
            SpdxLicense::Torque1_1 => "TORQUE v2.5+ Software License v1.1"@,
            SpdxLicense::Tosl => "Trusster Open Source License"@,
            SpdxLicense::TuBerlin1 => "Technische Universitaet Berlin License 1.0"@,
            SpdxLicense::TuBerlin2 => "Technische Universitaet Berlin License 2.0"@,
            SpdxLicense::Ucl1 => "Upstream Compatibility License v1.0"@,
            SpdxLicense::UnicodeDfs2015 => "Unicode License Agreement - Data Files and Software (2015)"@,
            SpdxLicense::UnicodeDfs2016 => "Unicode License Agreement - Data Files and Software (2016)"@,
            SpdxLicense::UnicodeTou => "Unicode Terms of Use"@,
            SpdxLicense::Unlicense => "The Unlicense"@,
            SpdxLicense::Upl1 => "Universal Permissive License v1.0"@,
            SpdxLicense::Vim => "Vim License"@,
            SpdxLicense::Vostrom => "VOSTROM Public License for Open Source"@,
            SpdxLicense::Vsl1 => "Vovida Software License v1.0"@,
            SpdxLicense::W3C => "W3C Software Notice and License (2002-12-31)"@,
            SpdxLicense::W3C19980720 => "W3C Software Notice and License (1998-07-20)"@,
            SpdxLicense::W3C20150513 => "W3C Software Notice and Document License (2015-05-13)"@,
            SpdxLicense::Watcom1 => "Sybase Open Watcom Public License 1.0"@,
            SpdxLicense::Wsuipa => "Wsuipa License"@,
            SpdxLicense::Wtfpl => "Do What The F*ck You Want To Public License"@,
            SpdxLicense::X11 => "X11 License"@,
            SpdxLicense::Xerox => "Xerox License"@,
            SpdxLicense::XFree861_1 => "XFree86 License 1.1"@,
            SpdxLicense::Xinetd => "xinetd License"@,
            SpdxLicense::Xnet => "X.Net License"@,
            SpdxLicense::Xpp => "XPP License"@,
            SpdxLicense::XSkat => "XSkat License"@,
            SpdxLicense::Ypl1 => "Yahoo! Public License v1.0"@,
            SpdxLicense::Ypl1_1 => "Yahoo! Public License v1.1"@,
            SpdxLicense::Zed => "Zed License"@,
            SpdxLicense::Zend2 => "Zend License v2.0"@,
            SpdxLicense::Zimbra1_3 => "Zimbra Public License v1.3"@,
            SpdxLicense::Zimbra1_4 => "Zimbra Public License v1.4"@,
            SpdxLicense::Zlib => "zlib License"@,
            SpdxLicense::ZlibAcknowledgement => "zlib/libpng License with Acknowledgement"@,
            SpdxLicense::Zpl1_1 => "Zope Public License 1.1"@,
            SpdxLicense::Zpl2 => "Zope Public License 2.0"@,
            SpdxLicense::Zpl2_1 => "Zope Public License 2.1"@,
        }
    }

    /// Whether the license is considered free/libre by the FSF.
    pub open spec fn spec_libre(self) -> bool {
        match self {
            SpdxLicense::Bsd0 => false,
            SpdxLicense::Aal => false,
            SpdxLicense::Abstyles => false,
            SpdxLicense::Adobe2006 => false,
            SpdxLicense::AdobeGlyph => false,
            SpdxLicense::Adsl => false,
            SpdxLicense::Afl1_1 => true,
            SpdxLicense::Afl1_2 => true,
            SpdxLicense::Afl2 => true,
            SpdxLicense::Afl2_1 => true,
            SpdxLicense::Afl3 => true,
            SpdxLicense::Afmparse => false,
            SpdxLicense::Agpl1Only => false,
            SpdxLicense::Agpl1OrLater => false,
            SpdxLicense::Agpl3Only => true,
            SpdxLicense::Agpl3OrLater => true,
            SpdxLicense::Aladdin => false,
            SpdxLicense::Amdplpa => false,
            SpdxLicense::Aml => false,
            SpdxLicense::Ampas => false,
            SpdxLicense::AntlrPd => false,
            SpdxLicense::Apache1 => true,
            SpdxLicense::Apache1_1 => true,
            SpdxLicense::Apache2 => true,
            SpdxLicense::Apafml => false,
            SpdxLicense::Apl1 => false,
            SpdxLicense::Apsl1 => false,
            SpdxLicense::Apsl1_1 => false,
            SpdxLicense::Apsl1_2 => false,
            SpdxLicense::Apsl2 => true,
            SpdxLicense::Artistic1 => false,
            SpdxLicense::Artistic1Cl8 => false,
            SpdxLicense::Artistic1Perl => false,
            SpdxLicense::Artistic2 => true,
            SpdxLicense::Bahyph => false,
            SpdxLicense::Barr => false,
            SpdxLicense::Beerware => false,
            SpdxLicense::BitTorrent1 => false,
            SpdxLicense::BitTorrent1_1 => true,
            SpdxLicense::Blessing => false,
            SpdxLicense::BlueOak1 => false,
            SpdxLicense::Borceux => false,
            SpdxLicense::Bsd1Clause => false,
            SpdxLicense::Bsd2Clause => false,
            SpdxLicense::Bsd2ClauseFreeBsd => true,
            SpdxLicense::Bsd2ClauseNetBsd => false,
            SpdxLicense::Bsd2ClausePatent => false,
            SpdxLicense::Bsd3Clause => true,
            SpdxLicense::Bsd3ClauseAttribution => false,
            SpdxLicense::Bsd3ClauseClear => true,
            SpdxLicense::Bsd3ClauseLbnl => false,
            SpdxLicense::Bsd3ClauseNoNuclearLicense => false,
            SpdxLicense::Bsd3ClauseNoNuclearLicense2014 => false,
            SpdxLicense::Bsd3ClauseNoNuclearWarranty => false,
            SpdxLicense::Bsd3ClauseOpenMpi => false,
            SpdxLicense::Bsd4Clause => true,
            SpdxLicense::Bsd4ClauseUc => false,
            SpdxLicense::BsdProtection => false,
            SpdxLicense::BsdSourceCode => false,
            SpdxLicense::Bsl1 => true,
            SpdxLicense::Bzip21_0_5 => false,
            SpdxLicense::Bzip21_0_6 => false,
            SpdxLicense::Caldera => false,
            SpdxLicense::Catosl1_1 => false,
            SpdxLicense::CcBy1 => false,
            SpdxLicense::CcBy2 => false,
            SpdxLicense::CcBy2_5 => false,
            SpdxLicense::CcBy3 => false,
            SpdxLicense::CcBy4 => true,
            SpdxLicense::CcByNc1 => false,
            SpdxLicense::CcByNc2 => false,
            SpdxLicense::CcByNc2_5 => false,
            SpdxLicense::CcByNc3 => false,
            SpdxLicense::CcByNc4 => false,
            SpdxLicense::CcByNcNd1 => false,
            SpdxLicense::CcByNcNd2 => false,
            SpdxLicense::CcByNcNd2_5 => false,
            SpdxLicense::CcByNcNd3 => false,
            SpdxLicense::CcByNcNd4 => false,
            SpdxLicense::CcByNcSa1 => false,
            SpdxLicense::CcByNcSa2 => false,
            SpdxLicense::CcByNcSa2_5 => false,
            SpdxLicense::CcByNcSa3 => false,
            SpdxLicense::CcByNcSa4 => false,
            SpdxLicense::CcByNd1 => false,
            SpdxLicense::CcByNd2 => false,
            SpdxLicense::CcByNd2_5 => false,
            SpdxLicense::CcByNd3 => false,
            SpdxLicense::CcByNd4 => false,
            SpdxLicense::CcBySa1 => false,
            SpdxLicense::CcBySa2 => false,
            SpdxLicense::CcBySa2_5 => false,
            SpdxLicense::CcBySa3 => false,
            SpdxLicense::CcBySa4 => true,
            SpdxLicense::CcPddc => false,
            SpdxLicense::CC01 => true,
            SpdxLicense::Cddl1 => true,
            SpdxLicense::Cddl1_1 => false,
            SpdxLicense::CdlaPermissive1 => false,
            SpdxLicense::CdlaSharing1 => false,
            SpdxLicense::Cecill1 => false,
            SpdxLicense::Cecill1_1 => false,
            SpdxLicense::Cecill2 => true,
            SpdxLicense::Cecill2_1 => false,
            SpdxLicense::CecillB => true,
            SpdxLicense::CecillC => true,
            SpdxLicense::CernOhl1_1 => false,
            SpdxLicense::CernOhl1_2 => false,
            SpdxLicense::ClArtistic => true,
            SpdxLicense::CnriJython => false,
            SpdxLicense::CnriPython => false,
            SpdxLicense::CnriPythonGplCompatible => false,
            SpdxLicense::Condor1_1 => true,
            SpdxLicense::CopyleftNext0_3 => false,
            SpdxLicense::CopyleftNext0_3_1 => false,
            SpdxLicense::Cpal1 => true,
            SpdxLicense::Cpl1 => true,
            SpdxLicense::Cpol1_02 => false,
            SpdxLicense::Crossword => false,
            SpdxLicense::CrystalStacker => false,
            SpdxLicense::CuaOpl1 => false,
            SpdxLicense::Cube => false,
            SpdxLicense::Curl => false,
            SpdxLicense::DFsl1 => false,
            SpdxLicense::Diffmark => false,
            SpdxLicense::Doc => false,
            SpdxLicense::Dotseqn => false,
            SpdxLicense::Dsdp => false,
            SpdxLicense::Dvipdfm => false,
            SpdxLicense::Ecl1 => false,
            SpdxLicense::Ecl2 => true,
            SpdxLicense::Efl1 => false,
            SpdxLicense::Efl2 => true,
            SpdxLicense::EGenix => false,
            SpdxLicense::Entessa => false,
            SpdxLicense::Epl1 => true,
            SpdxLicense::Epl2 => true,
            SpdxLicense::ErlPl1_1 => false,
            SpdxLicense::Etalab2 => false,
            SpdxLicense::EUDatagrid => true,
            SpdxLicense::Eupl1 => false,
            SpdxLicense::Eupl1_1 => true,
            SpdxLicense::Eupl1_2 => true,
            SpdxLicense::Eurosym => false,
            SpdxLicense::Fair => false,
            SpdxLicense::Frameworx1 => false,
            SpdxLicense::FreeImage => false,
            SpdxLicense::Fsfap => true,
            SpdxLicense::Fsful => false,
            SpdxLicense::Fsfullr => false,
            SpdxLicense::Ftl => true,
            SpdxLicense::Gfdl1_1Only => true,
            SpdxLicense::Gfdl1_1OrLater => true,
            SpdxLicense::Gfdl1_2Only => true,
            SpdxLicense::Gfdl1_2OrLater => true,
            SpdxLicense::Gfdl1_3Only => true,
            SpdxLicense::Gfdl1_3OrLater => true,
            SpdxLicense::Giftware => false,
            SpdxLicense::GL2Ps => false,
            SpdxLicense::Glide => false,
            SpdxLicense::Glulxe => false,
            SpdxLicense::Gnuplot => true,
            SpdxLicense::Gpl1Only => false,
            SpdxLicense::Gpl1OrLater => false,
            SpdxLicense::Gpl2Only => true,
            SpdxLicense::Gpl2OrLater => true,
            SpdxLicense::Gpl3Only => true,
            SpdxLicense::Gpl3OrLater => true,
            SpdxLicense::GSoap1_3b => false,
            SpdxLicense::HaskellReport => false,
            SpdxLicense::Hpnd => true,
            SpdxLicense::HpndSellVariant => false,
            SpdxLicense::IbmPibs => false,
            SpdxLicense::Icu => false,
            SpdxLicense::Ijg => true,
            SpdxLicense::ImageMagick => false,
            SpdxLicense::IMatix => true,
            SpdxLicense::Imlib2 => true,
            SpdxLicense::InfoZip => false,
            SpdxLicense::Intel => true,
            SpdxLicense::IntelAcpi => false,
            SpdxLicense::Interbase1 => false,
            SpdxLicense::Ipa => true,
            SpdxLicense::Ipl1 => true,
            SpdxLicense::Isc => true,
            SpdxLicense::JasPer2 => false,
            SpdxLicense::Jpnic => false,
            SpdxLicense::Json => false,
            SpdxLicense::Lal1_2 => false,
            SpdxLicense::Lal1_3 => false,
            SpdxLicense::Latex2e => false,
            SpdxLicense::Leptonica => false,
            SpdxLicense::Lgpl2Only => false,
            SpdxLicense::Lgpl2OrLater => false,
            SpdxLicense::Lgpl2_1Only => true,
            SpdxLicense::Lgpl2_1OrLater => true,
            SpdxLicense::Lgpl3Only => true,
            SpdxLicense::Lgpl3OrLater => true,
            SpdxLicense::Lgpllr => false,
            SpdxLicense::Libpng => false,
            SpdxLicense::Libpng2 => false,
            SpdxLicense::Libtiff => false,
            SpdxLicense::LiLiQP1_1 => false,
            SpdxLicense::LiLiQR1_1 => false,
            SpdxLicense::LiLiQRplus1_1 => false,
            SpdxLicense::LinuxOpenIb => false,
            SpdxLicense::Lpl1 => false,
            SpdxLicense::Lpl1_02 => true,
            SpdxLicense::Lppl1 => false,
            SpdxLicense::Lppl1_1 => false,
            SpdxLicense::Lppl1_2 => true,
            SpdxLicense::Lppl1_3a => true,
            SpdxLicense::Lppl1_3c => false,
            SpdxLicense::MakeIndex => false,
            SpdxLicense::MirOs => false,
            SpdxLicense::Mit => true,
            SpdxLicense::Mit0 => false,
            SpdxLicense::MitAdvertising => false,
            SpdxLicense::MitCmu => false,
            SpdxLicense::MitEnna => false,
            SpdxLicense::MitFeh => false,
            SpdxLicense::Mitnfa => false,
            SpdxLicense::Motosoto => false,
            SpdxLicense::Mpich2 => false,
            SpdxLicense::Mpl1 => false,
            SpdxLicense::Mpl1_1 => true,
            SpdxLicense::Mpl2 => true,
            SpdxLicense::Mpl2NoCopyleftException => false,
            SpdxLicense::MsPl => true,
            SpdxLicense::MsRl => true,
            SpdxLicense::Mtll => false,
            SpdxLicense::MulanPsl1 => false,
            SpdxLicense::Multics => false,
            SpdxLicense::Mup => false,
            SpdxLicense::Nasa1_3 => false,
            SpdxLicense::Naumen => false,
            SpdxLicense::Nbpl1 => false,
            SpdxLicense::Ncsa => true,
            SpdxLicense::NetSnmp => false,
            SpdxLicense::NetCdf => false,
            SpdxLicense::Newsletr => false,
            SpdxLicense::Ngpl => false,
            SpdxLicense::Nlod1 => false,
            SpdxLicense::Nlpl => false,
            SpdxLicense::Nokia => true,
            SpdxLicense::Nosl => true,
            SpdxLicense::Noweb => false,
            SpdxLicense::Npl1 => true,
            SpdxLicense::Npl1_1 => true,
            SpdxLicense::Nposl3 => false,
            SpdxLicense::Nrl => false,
            SpdxLicense::Ntp => false,
            SpdxLicense::OcctPl => false,
            SpdxLicense::Oclc2 => false,
            SpdxLicense::ODbL1 => true,
            SpdxLicense::OdcBy1 => false,
            SpdxLicense::Ofl1 => true,
            SpdxLicense::Ofl1_1 => true,
            SpdxLicense::OglCanada2 => false,
            SpdxLicense::OglUk1 => false,
            SpdxLicense::OglUk2 => false,
            SpdxLicense::OglUk3 => false,
            SpdxLicense::Ogtsl => false,
            SpdxLicense::Oldap1_1 => false,
            SpdxLicense::Oldap1_2 => false,
            SpdxLicense::Oldap1_3 => false,
            SpdxLicense::Oldap1_4 => false,
            SpdxLicense::Oldap2 => false,
            SpdxLicense::Oldap2_0_1 => false,
            SpdxLicense::Oldap2_1 => false,
            SpdxLicense::Oldap2_2 => false,
            SpdxLicense::Oldap2_2_1 => false,
            SpdxLicense::Oldap2_2_2 => false,
            SpdxLicense::Oldap2_3 => true,
            SpdxLicense::Oldap2_4 => false,
            SpdxLicense::Oldap2_5 => false,
            SpdxLicense::Oldap2_6 => false,
            SpdxLicense::Oldap2_7 => true,
            SpdxLicense::Oldap2_8 => false,
            SpdxLicense::Oml => false,
            SpdxLicense::OpenSsl => true,
            SpdxLicense::Opl1 => false,
            SpdxLicense::OsetPl2_1 => false,
            SpdxLicense::Osl1 => true,
            SpdxLicense::Osl1_1 => true,
            SpdxLicense::Osl2 => true,
            SpdxLicense::Osl2_1 => true,
            SpdxLicense::Osl3 => true,
            SpdxLicense::Parity6 => false,
            SpdxLicense::Pddl1 => false,
            SpdxLicense::Php3 => false,
            SpdxLicense::Php3_01 => true,
            SpdxLicense::Plexus => false,
            SpdxLicense::PostgreSql => false,
            SpdxLicense::Psfrag => false,
            SpdxLicense::Psutils => false,
            SpdxLicense::Python2 => true,
            SpdxLicense::Qhull => false,
            SpdxLicense::Qpl1 => true,
            SpdxLicense::Rdisc => false,
            SpdxLicense::RHeCos1_1 => false,
            SpdxLicense::Rpl1_1 => false,
            SpdxLicense::Rpl1_5 => false,
            SpdxLicense::Rpsl1 => true,
            SpdxLicense::RsaMd => false,
            SpdxLicense::Rscpl => false,
            SpdxLicense::Ruby => true,
            SpdxLicense::SaxPd => false,
            SpdxLicense::Saxpath => false,
            SpdxLicense::Scea => false,
            SpdxLicense::Sendmail => false,
            SpdxLicense::Sendmail8_23 => false,
            SpdxLicense::SgiB1 => false,
            SpdxLicense::SgiB1_1 => false,
            SpdxLicense::SgiB2 => true,
            SpdxLicense::Shl0_5 => false,
            SpdxLicense::Shl0_51 => false,
            SpdxLicense::SimPl2 => false,
            SpdxLicense::Sissl => true,
            SpdxLicense::Sissl1_2 => false,
            SpdxLicense::Sleepycat => true,
            SpdxLicense::Smlnj => true,
            SpdxLicense::Smppl => false,
            SpdxLicense::Snia => false,
            SpdxLicense::Spencer86 => false,
            SpdxLicense::Spencer94 => false,
            SpdxLicense::Spencer99 => false,
            SpdxLicense::Spl1 => true,
            SpdxLicense::SshOpenSsh => false,
            SpdxLicense::SshShort => false,
            SpdxLicense::Sspl1 => false,
            SpdxLicense::SugarCrm1_1_3 => false,
            SpdxLicense::Swl => false,
            SpdxLicense::TaprOhl1 => false,
            SpdxLicense::Tcl => false,
            SpdxLicense::TcpWrappers => false,
            SpdxLicense::TMate => false,
            SpdxLicense::Torque1_1 => false,
            SpdxLicense::Tosl => false,
            SpdxLicense::TuBerlin1 => false,
            SpdxLicense::TuBerlin2 => false,
            SpdxLicense::Ucl1 => false,
            SpdxLicense::UnicodeDfs2015 => false,
            SpdxLicense::UnicodeDfs2016 => false,
            SpdxLicense::UnicodeTou => false,
            SpdxLicense::Unlicense => true,
            SpdxLicense::Upl1 => true,
            SpdxLicense::Vim => true,
            SpdxLicense::Vostrom => false,
            SpdxLicense::Vsl1 => false,
            SpdxLicense::W3C => true,
            SpdxLicense::W3C19980720 => false,
            SpdxLicense::W3C20150513 => false,
            SpdxLicense::Watcom1 => false,
            SpdxLicense::Wsuipa => false,
            SpdxLicense::Wtfpl => true,
            SpdxLicense::X11 => true,
            SpdxLicense::Xerox => false,
            SpdxLicense::XFree861_1 => true,
            SpdxLicense::Xinetd => true,
            SpdxLicense::Xnet => false,
            SpdxLicense::Xpp => false,
            SpdxLicense::XSkat => false,
            SpdxLicense::Ypl1 => false,
            SpdxLicense::Ypl1_1 => true,
            SpdxLicense::Zed => false,
            SpdxLicense::Zend2 => true,
            SpdxLicense::Zimbra1_3 => true,
            SpdxLicense::Zimbra1_4 => false,
            SpdxLicense::Zlib => true,
            SpdxLicense::ZlibAcknowledgement => false,
            SpdxLicense::Zpl1_1 => false,
            SpdxLicense::Zpl2 => true,
            SpdxLicense::Zpl2_1 => true,
        }
    }

    /// Whether the license is approved by the OSI.
    pub open spec fn spec_osi(self) -> bool {
        match self {
            SpdxLicense::Bsd0 => true,
            SpdxLicense::Aal => true,
            SpdxLicense::Abstyles => false,
            SpdxLicense::Adobe2006 => false,
            SpdxLicense::AdobeGlyph => false,
            SpdxLicense::Adsl => false,
            SpdxLicense::Afl1_1 => true,
            SpdxLicense::Afl1_2 => true,
            SpdxLicense::Afl2 => true,
            SpdxLicense::Afl2_1 => true,
            SpdxLicense::Afl3 => true,
            SpdxLicense::Afmparse => false,
            SpdxLicense::Agpl1Only => false,
            SpdxLicense::Agpl1OrLater => false,
            SpdxLicense::Agpl3Only => true,
            SpdxLicense::Agpl3OrLater => true,
            SpdxLicense::Aladdin => false,
            SpdxLicense::Amdplpa => false,
            SpdxLicense::Aml => false,
            SpdxLicense::Ampas => false,
            SpdxLicense::AntlrPd => false,
            SpdxLicense::Apache1 => false,
            SpdxLicense::Apache1_1 => true,
            SpdxLicense::Apache2 => true,
            SpdxLicense::Apafml => false,
            SpdxLicense::Apl1 => true,
            SpdxLicense::Apsl1 => true,
            SpdxLicense::Apsl1_1 => true,
            SpdxLicense::Apsl1_2 => true,
            SpdxLicense::Apsl2 => true,
            SpdxLicense::Artistic1 => true,
            SpdxLicense::Artistic1Cl8 => true,
            SpdxLicense::Artistic1Perl => true,
            SpdxLicense::Artistic2 => true,
            SpdxLicense::Bahyph => false,
            SpdxLicense::Barr => false,
            SpdxLicense::Beerware => false,
            SpdxLicense::BitTorrent1 => false,
            SpdxLicense::BitTorrent1_1 => false,
            SpdxLicense::Blessing => false,
            SpdxLicense::BlueOak1 => false,
            SpdxLicense::Borceux => false,
            SpdxLicense::Bsd1Clause => false,
            SpdxLicense::Bsd2Clause => true,
            SpdxLicense::Bsd2ClauseFreeBsd => false,
            SpdxLicense::Bsd2ClauseNetBsd => false,
            SpdxLicense::Bsd2ClausePatent => true,
            SpdxLicense::Bsd3Clause => true,
            SpdxLicense::Bsd3ClauseAttribution => false,
            SpdxLicense::Bsd3ClauseClear => false,
            SpdxLicense::Bsd3ClauseLbnl => true,
            SpdxLicense::Bsd3ClauseNoNuclearLicense => false,
            SpdxLicense::Bsd3ClauseNoNuclearLicense2014 => false,
            SpdxLicense::Bsd3ClauseNoNuclearWarranty => false,
            SpdxLicense::Bsd3ClauseOpenMpi => false,
            SpdxLicense::Bsd4Clause => false,
            SpdxLicense::Bsd4ClauseUc => false,
            SpdxLicense::BsdProtection => false,
            SpdxLicense::BsdSourceCode => false,
            SpdxLicense::Bsl1 => true,
            SpdxLicense::Bzip21_0_5 => false,
            SpdxLicense::Bzip21_0_6 => false,
            SpdxLicense::Caldera => false,
            SpdxLicense::Catosl1_1 => true,
            SpdxLicense::CcBy1 => false,
            SpdxLicense::CcBy2 => false,
            SpdxLicense::CcBy2_5 => false,
            SpdxLicense::CcBy3 => false,
            SpdxLicense::CcBy4 => false,
            SpdxLicense::CcByNc1 => false,
            SpdxLicense::CcByNc2 => false,
            SpdxLicense::CcByNc2_5 => false,
            SpdxLicense::CcByNc3 => false,
            SpdxLicense::CcByNc4 => false,
            SpdxLicense::CcByNcNd1 => false,
            SpdxLicense::CcByNcNd2 => false,
            SpdxLicense::CcByNcNd2_5 => false,
            SpdxLicense::CcByNcNd3 => false,
            SpdxLicense::CcByNcNd4 => false,
            SpdxLicense::CcByNcSa1 => false,
            SpdxLicense::CcByNcSa2 => false,
            SpdxLicense::CcByNcSa2_5 => false,
            SpdxLicense::CcByNcSa3 => false,
            SpdxLicense::CcByNcSa4 => false,
            SpdxLicense::CcByNd1 => false,
            SpdxLicense::CcByNd2 => false,
            SpdxLicense::CcByNd2_5 => false,
            SpdxLicense::CcByNd3 => false,
            SpdxLicense::CcByNd4 => false,
            SpdxLicense::CcBySa1 => false,
            SpdxLicense::CcBySa2 => false,
            SpdxLicense::CcBySa2_5 => false,
            SpdxLicense::CcBySa3 => false,
            SpdxLicense::CcBySa4 => false,
            SpdxLicense::CcPddc => false,
            SpdxLicense::CC01 => false,
            SpdxLicense::Cddl1 => true,
            SpdxLicense::Cddl1_1 => false,
            SpdxLicense::CdlaPermissive1 => false,
            SpdxLicense::CdlaSharing1 => false,
            SpdxLicense::Cecill1 => false,
            SpdxLicense::Cecill1_1 => false,
            SpdxLicense::Cecill2 => false,
            SpdxLicense::Cecill2_1 => true,
            SpdxLicense::CecillB => false,
            SpdxLicense::CecillC => false,
            SpdxLicense::CernOhl1_1 => false,
            SpdxLicense::CernOhl1_2 => false,
            SpdxLicense::ClArtistic => false,
            SpdxLicense::CnriJython => false,
            SpdxLicense::CnriPython => true,
            SpdxLicense::CnriPythonGplCompatible => false,
            SpdxLicense::Condor1_1 => false,
            SpdxLicense::CopyleftNext0_3 => false,
            SpdxLicense::CopyleftNext0_3_1 => false,
            SpdxLicense::Cpal1 => true,
            SpdxLicense::Cpl1 => true,
            SpdxLicense::Cpol1_02 => false,
            SpdxLicense::Crossword => false,
            SpdxLicense::CrystalStacker => false,
            SpdxLicense::CuaOpl1 => true,
            SpdxLicense::Cube => false,
            SpdxLicense::Curl => false,
            SpdxLicense::DFsl1 => false,
            SpdxLicense::Diffmark => false,
            SpdxLicense::Doc => false,
            SpdxLicense::Dotseqn => false,
            SpdxLicense::Dsdp => false,
            SpdxLicense::Dvipdfm => false,
            SpdxLicense::Ecl1 => true,
            SpdxLicense::Ecl2 => true,
            SpdxLicense::Efl1 => true,
            SpdxLicense::Efl2 => true,
            SpdxLicense::EGenix => false,
            SpdxLicense::Entessa => true,
            SpdxLicense::Epl1 => true,
            SpdxLicense::Epl2 => true,
            SpdxLicense::ErlPl1_1 => false,
            SpdxLicense::Etalab2 => false,
            SpdxLicense::EUDatagrid => true,
            SpdxLicense::Eupl1 => false,
            SpdxLicense::Eupl1_1 => true,
            SpdxLicense::Eupl1_2 => true,
            SpdxLicense::Eurosym => false,
            SpdxLicense::Fair => true,
            SpdxLicense::Frameworx1 => true,
            SpdxLicense::FreeImage => false,
            SpdxLicense::Fsfap => false,
            SpdxLicense::Fsful => false,
            SpdxLicense::Fsfullr => false,
            SpdxLicense::Ftl => false,
            SpdxLicense::Gfdl1_1Only => false,
            SpdxLicense::Gfdl1_1OrLater => false,
            SpdxLicense::Gfdl1_2Only => false,
            SpdxLicense::Gfdl1_2OrLater => false,
            SpdxLicense::Gfdl1_3Only => false,
            SpdxLicense::Gfdl1_3OrLater => false,
            SpdxLicense::Giftware => false,
            SpdxLicense::GL2Ps => false,
            SpdxLicense::Glide => false,
            SpdxLicense::Glulxe => false,
            SpdxLicense::Gnuplot => false,
            SpdxLicense::Gpl1Only => false,
            SpdxLicense::Gpl1OrLater => false,
            SpdxLicense::Gpl2Only => true,
            SpdxLicense::Gpl2OrLater => true,
            SpdxLicense::Gpl3Only => true,
            SpdxLicense::Gpl3OrLater => true,
            SpdxLicense::GSoap1_3b => false,
            SpdxLicense::HaskellReport => false,
            SpdxLicense::Hpnd => true,
            SpdxLicense::HpndSellVariant => false,
            SpdxLicense::IbmPibs => false,
            SpdxLicense::Icu => false,
            SpdxLicense::Ijg => false,
            SpdxLicense::ImageMagick => false,
            SpdxLicense::IMatix => false,
            SpdxLicense::Imlib2 => false,
            SpdxLicense::InfoZip => false,
            SpdxLicense::Intel => true,
            SpdxLicense::IntelAcpi => false,
            SpdxLicense::Interbase1 => false,
            SpdxLicense::Ipa => true,
            SpdxLicense::Ipl1 => true,
            SpdxLicense::Isc => true,
            SpdxLicense::JasPer2 => false,
            SpdxLicense::Jpnic => false,
            SpdxLicense::Json => false,
            SpdxLicense::Lal1_2 => false,
            SpdxLicense::Lal1_3 => false,
            SpdxLicense::Latex2e => false,
            SpdxLicense::Leptonica => false,
            SpdxLicense::Lgpl2Only => true,
            SpdxLicense::Lgpl2OrLater => true,
            SpdxLicense::Lgpl2_1Only => true,
            SpdxLicense::Lgpl2_1OrLater => true,
            SpdxLicense::Lgpl3Only => true,
            SpdxLicense::Lgpl3OrLater => true,
            SpdxLicense::Lgpllr => false,
            SpdxLicense::Libpng => false,
            SpdxLicense::Libpng2 => false,
            SpdxLicense::Libtiff => false,
            SpdxLicense::LiLiQP1_1 => true,
            SpdxLicense::LiLiQR1_1 => true,
            SpdxLicense::LiLiQRplus1_1 => true,
            SpdxLicense::LinuxOpenIb => false,
            SpdxLicense::Lpl1 => true,
            SpdxLicense::Lpl1_02 => true,
            SpdxLicense::Lppl1 => false,
            SpdxLicense::Lppl1_1 => false,
            SpdxLicense::Lppl1_2 => false,
            SpdxLicense::Lppl1_3a => false,
            SpdxLicense::Lppl1_3c => true,
            SpdxLicense::MakeIndex => false,
            SpdxLicense::MirOs => true,
            SpdxLicense::Mit => true,
            SpdxLicense::Mit0 => true,
            SpdxLicense::MitAdvertising => false,
            SpdxLicense::MitCmu => false,
            SpdxLicense::MitEnna => false,
            SpdxLicense::MitFeh => false,
            SpdxLicense::Mitnfa => false,
            SpdxLicense::Motosoto => true,
            SpdxLicense::Mpich2 => false,
            SpdxLicense::Mpl1 => true,
            SpdxLicense::Mpl1_1 => true,
            SpdxLicense::Mpl2 => true,
            SpdxLicense::Mpl2NoCopyleftException => true,
            SpdxLicense::MsPl => true,
            SpdxLicense::MsRl => true,
            SpdxLicense::Mtll => false,
            SpdxLicense::MulanPsl1 => false,
            SpdxLicense::Multics => true,
            SpdxLicense::Mup => false,
            SpdxLicense::Nasa1_3 => true,
            SpdxLicense::Naumen => true,
            SpdxLicense::Nbpl1 => false,
            SpdxLicense::Ncsa => true,
            SpdxLicense::NetSnmp => false,
            SpdxLicense::NetCdf => false,
            SpdxLicense::Newsletr => false,
            SpdxLicense::Ngpl => true,
            SpdxLicense::Nlod1 => false,
            SpdxLicense::Nlpl => false,
            SpdxLicense::Nokia => true,
            SpdxLicense::Nosl => false,
            SpdxLicense::Noweb => false,
            SpdxLicense::Npl1 => false,
            SpdxLicense::Npl1_1 => false,
            SpdxLicense::Nposl3 => true,
            SpdxLicense::Nrl => false,
            SpdxLicense::Ntp => true,
            SpdxLicense::OcctPl => false,
            SpdxLicense::Oclc2 => true,
            SpdxLicense::ODbL1 => false,
            SpdxLicense::OdcBy1 => false,
            SpdxLicense::Ofl1 => false,
            SpdxLicense::Ofl1_1 => true,
            SpdxLicense::OglCanada2 => false,
            SpdxLicense::OglUk1 => false,
            SpdxLicense::OglUk2 => false,
            SpdxLicense::OglUk3 => false,
            SpdxLicense::Ogtsl => true,
            SpdxLicense::Oldap1_1 => false,
            SpdxLicense::Oldap1_2 => false,
            SpdxLicense::Oldap1_3 => false,
            SpdxLicense::Oldap1_4 => false,
            SpdxLicense::Oldap2 => false,
            SpdxLicense::Oldap2_0_1 => false,
            SpdxLicense::Oldap2_1 => false,
            SpdxLicense::Oldap2_2 => false,
            SpdxLicense::Oldap2_2_1 => false,
            SpdxLicense::Oldap2_2_2 => false,
            SpdxLicense::Oldap2_3 => false,
            SpdxLicense::Oldap2_4 => false,
            SpdxLicense::Oldap2_5 => false,
            SpdxLicense::Oldap2_6 => false,
            SpdxLicense::Oldap2_7 => false,
            SpdxLicense::Oldap2_8 => false,
            SpdxLicense::Oml => false,
            SpdxLicense::OpenSsl => false,
            SpdxLicense::Opl1 => false,
            SpdxLicense::OsetPl2_1 => true,
            SpdxLicense::Osl1 => true,
            SpdxLicense::Osl1_1 => false,
            SpdxLicense::Osl2 => true,
            SpdxLicense::Osl2_1 => true,
            SpdxLicense::Osl3 => true,
            SpdxLicense::Parity6 => false,
            SpdxLicense::Pddl1 => false,
            SpdxLicense::Php3 => true,
            SpdxLicense::Php3_01 => false,
            SpdxLicense::Plexus => false,
            SpdxLicense::PostgreSql => true,
            SpdxLicense::Psfrag => false,
            SpdxLicense::Psutils => false,
            SpdxLicense::Python2 => true,
            SpdxLicense::Qhull => false,
            SpdxLicense::Qpl1 => true,
            SpdxLicense::Rdisc => false,
            SpdxLicense::RHeCos1_1 => false,
            SpdxLicense::Rpl1_1 => true,
            SpdxLicense::Rpl1_5 => true,
            SpdxLicense::Rpsl1 => true,
            SpdxLicense::RsaMd => false,
            SpdxLicense::Rscpl => true,
            SpdxLicense::Ruby => false,
            SpdxLicense::SaxPd => false,
            SpdxLicense::Saxpath => false,
            SpdxLicense::Scea => false,
            SpdxLicense::Sendmail => false,
            SpdxLicense::Sendmail8_23 => false,
            SpdxLicense::SgiB1 => false,
            SpdxLicense::SgiB1_1 => false,
            SpdxLicense::SgiB2 => false,
            SpdxLicense::Shl0_5 => false,
            SpdxLicense::Shl0_51 => false,
            SpdxLicense::SimPl2 => true,
            SpdxLicense::Sissl => true,
            SpdxLicense::Sissl1_2 => false,
            SpdxLicense::Sleepycat => true,
            SpdxLicense::Smlnj => false,
            SpdxLicense::Smppl => false,
            SpdxLicense::Snia => false,
            SpdxLicense::Spencer86 => false,
            SpdxLicense::Spencer94 => false,
            SpdxLicense::Spencer99 => false,
            SpdxLicense::Spl1 => true,
            SpdxLicense::SshOpenSsh => false,
            SpdxLicense::SshShort => false,
            SpdxLicense::Sspl1 => false,
            SpdxLicense::SugarCrm1_1_3 => false,
            SpdxLicense::Swl => false,
            SpdxLicense::TaprOhl1 => false,
            SpdxLicense::Tcl => false,
            SpdxLicense::TcpWrappers => false,
            SpdxLicense::TMate => false,
            SpdxLicense::Torque1_1 => false,
            SpdxLicense::Tosl => false,
            SpdxLicense::TuBerlin1 => false,
            SpdxLicense::TuBerlin2 => false,
            SpdxLicense::Ucl1 => true,
            SpdxLicense::UnicodeDfs2015 => false,
            SpdxLicense::UnicodeDfs2016 => false,
            SpdxLicense::UnicodeTou => false,
            SpdxLicense::Unlicense => false,
            SpdxLicense::Upl1 => true,
            SpdxLicense::Vim => false,
            SpdxLicense::Vostrom => false,
            SpdxLicense::Vsl1 => true,
            SpdxLicense::W3C => true,
            SpdxLicense::W3C19980720 => false,
            SpdxLicense::W3C20150513 => false,
            SpdxLicense::Watcom1 => true,
            SpdxLicense::Wsuipa => false,
            SpdxLicense::Wtfpl => false,
            SpdxLicense::X11 => false,
            SpdxLicense::Xerox => false,
            SpdxLicense::XFree861_1 => false,
            SpdxLicense::Xinetd => false,
            SpdxLicense::Xnet => true,
            SpdxLicense::Xpp => false,
            SpdxLicense::XSkat => false,
            SpdxLicense::Ypl1 => false,
            SpdxLicense::Ypl1_1 => false,
            SpdxLicense::Zed => false,
            SpdxLicense::Zend2 => false,
            SpdxLicense::Zimbra1_3 => false,
            SpdxLicense::Zimbra1_4 => false,
            SpdxLicense::Zlib => true,
            SpdxLicense::ZlibAcknowledgement => false,
            SpdxLicense::Zpl1_1 => false,
            SpdxLicense::Zpl2 => true,
            SpdxLicense::Zpl2_1 => false,
        }
    }

    /// The license at a position of catalog order.
    pub open spec fn from_ordinal(i: nat) -> SpdxLicense {
        if i < 187 {
            if i < 93 {
                if i < 46 {
                    if i < 23 {
                        if i < 11 {
                            if i < 5 {
                                if i < 2 {
                                    if i < 1 {
                                        SpdxLicense::Bsd0
                                    } else {
                                        SpdxLicense::Aal
                                    }
                                } else {
                                    if i < 3 {
                                        SpdxLicense::Abstyles
                                    } else {
                                        if i < 4 {
                                            SpdxLicense::Adobe2006
                                        } else {
                                            SpdxLicense::AdobeGlyph
                                        }
                                    }
                                }
                            } else {
                                if i < 8 {
                                    if i < 6 {
                                        SpdxLicense::Adsl
                                    } else {
                                        if i < 7 {
                                            SpdxLicense::Afl1_1
                                        } else {
                                            SpdxLicense::Afl1_2
                                        }
                                    }
                                } else {
                                    if i < 9 {
                                        SpdxLicense::Afl2
                                    } else {
                                        if i < 10 {
                                            SpdxLicense::Afl2_1
                                        } else {
                                            SpdxLicense::Afl3
                                        }
                                    }
                                }
                            }
                        } else {
                            if i < 17 {
                                if i < 14 {
                                    if i < 12 {
                                        SpdxLicense::Afmparse
                                    } else {
                                        if i < 13 {
                                            SpdxLicense::Agpl1Only
                                        } else {
                                            SpdxLicense::Agpl1OrLater
                                        }
                                    }
                                } else {
                                    if i < 15 {
                                        SpdxLicense::Agpl3Only
                                    } else {
                                        if i < 16 {
                                            SpdxLicense::Agpl3OrLater
                                        } else {
                                            SpdxLicense::Aladdin
                                        }
                                    }
                                }
                            } else {
                                if i < 20 {
                                    if i < 18 {
                                        SpdxLicense::Amdplpa
                                    } else {
                                        if i < 19 {
                                            SpdxLicense::Aml
                                        } else {
                                            SpdxLicense::Ampas
                                        }
                                    }
                                } else {
                                    if i < 21 {
                                        SpdxLicense::AntlrPd
                                    } else {
                                        if i < 22 {
                                            SpdxLicense::Apache1
                                        } else {
                                            SpdxLicense::Apache1_1
                                        }
                                    }
                                }
                            }
                        }
                    } else {
                        if i < 34 {
                            if i < 28 {
                                if i < 25 {
                                    if i < 24 {
                                        SpdxLicense::Apache2
                                    } else {
                                        SpdxLicense::Apafml
                                    }
                                } else {
                                    if i < 26 {
                                        SpdxLicense::Apl1
                                    } else {
                                        if i < 27 {
                                            SpdxLicense::Apsl1
                                        } else {
                                            SpdxLicense::Apsl1_1
                                        }
                                    }
                                }
                            } else {
                                if i < 31 {
                                    if i < 29 {
                                        SpdxLicense::Apsl1_2
                                    } else {
                                        if i < 30 {
                                            SpdxLicense::Apsl2
                                        } else {
                                            SpdxLicense::Artistic1
                                        }
                                    }
                                } else {
                                    if i < 32 {
                                        SpdxLicense::Artistic1Cl8
                                    } else {
                                        if i < 33 {
                                            SpdxLicense::Artistic1Perl
                                        } else {
                                            SpdxLicense::Artistic2
                                        }
                                    }
                                }
                            }
                        } else {
                            if i < 40 {
                                if i < 37 {
                                    if i < 35 {
                                        SpdxLicense::Bahyph
                                    } else {
                                        if i < 36 {
                                            SpdxLicense::Barr
                                        } else {
                                            SpdxLicense::Beerware
                                        }
                                    }
                                } else {
                                    if i < 38 {
                                        SpdxLicense::BitTorrent1
                                    } else {
                                        if i < 39 {
                                            SpdxLicense::BitTorrent1_1
                                        } else {
                                            SpdxLicense::Blessing
                                        }
                                    }
                                }
                            } else {
                                if i < 43 {
                                    if i < 41 {
                                        SpdxLicense::BlueOak1
                                    } else {
                                        if i < 42 {
                                            SpdxLicense::Borceux
                                        } else {
                                            SpdxLicense::Bsd1Clause
                                        }
                                    }
                                } else {
                                    if i < 44 {
                                        SpdxLicense::Bsd2Clause
                                    } else {
                                        if i < 45 {
                                            SpdxLicense::Bsd2ClauseFreeBsd
                                        } else {
                                            SpdxLicense::Bsd2ClauseNetBsd
                                        }
                                    }
                                }
                            }
                        }
                    }
                } else {
                    if i < 69 {
                        if i < 57 {
                            if i < 51 {
                                if i < 48 {
                                    if i < 47 {
                                        SpdxLicense::Bsd2ClausePatent
                                    } else {
                                        SpdxLicense::Bsd3Clause
                                    }
                                } else {
                                    if i < 49 {
                                        SpdxLicense::Bsd3ClauseAttribution
                                    } else {
                                        if i < 50 {
                                            SpdxLicense::Bsd3ClauseClear
                                        } else {
                                            SpdxLicense::Bsd3ClauseLbnl
                                        }
                                    }
                                }
                            } else {
                                if i < 54 {
                                    if i < 52 {
                                        SpdxLicense::Bsd3ClauseNoNuclearLicense
                                    } else {
                                        if i < 53 {
                                            SpdxLicense::Bsd3ClauseNoNuclearLicense2014
                                        } else {
                                            SpdxLicense::Bsd3ClauseNoNuclearWarranty
                                        }
                                    }
                                } else {
                                    if i < 55 {
                                        SpdxLicense::Bsd3ClauseOpenMpi
                                    } else {
                                        if i < 56 {
                                            SpdxLicense::Bsd4Clause
                                        } else {
                                            SpdxLicense::Bsd4ClauseUc
                                        }
                                    }
                                }
                            }
                        } else {
                            if i < 63 {
                                if i < 60 {
                                    if i < 58 {
                                        SpdxLicense::BsdProtection
                                    } else {
                                        if i < 59 {
                                            SpdxLicense::BsdSourceCode
                                        } else {
                                            SpdxLicense::Bsl1
                                        }
                                    }
                                } else {
                                    if i < 61 {
                                        SpdxLicense::Bzip21_0_5
                                    } else {
                                        if i < 62 {
                                            SpdxLicense::Bzip21_0_6
                                        } else {
                                            SpdxLicense::Caldera
                                        }
                                    }
                                }
                            } else {
                                if i < 66 {
                                    if i < 64 {
                                        SpdxLicense::Catosl1_1
                                    } else {
                                        if i < 65 {
                                            SpdxLicense::CcBy1
                                        } else {
                                            SpdxLicense::CcBy2
                                        }
                                    }
                                } else {
                                    if i < 67 {
                                        SpdxLicense::CcBy2_5
                                    } else {
                                        if i < 68 {
                                            SpdxLicense::CcBy3
                                        } else {
                                            SpdxLicense::CcBy4
                                        }
                                    }
                                }
                            }
                        }
                    } else {
                        if i < 81 {
                            if i < 75 {
                                if i < 72 {
                                    if i < 70 {
                                        SpdxLicense::CcByNc1
                                    } else {
                                        if i < 71 {
                                            SpdxLicense::CcByNc2
                                        } else {
                                            SpdxLicense::CcByNc2_5
                                        }
                                    }
                                } else {
                                    if i < 73 {
                                        SpdxLicense::CcByNc3
                                    } else {
                                        if i < 74 {
                                            SpdxLicense::CcByNc4
                                        } else {
                                            SpdxLicense::CcByNcNd1
                                        }
                                    }
                                }
                            } else {
                                if i < 78 {
                                    if i < 76 {
                                        SpdxLicense::CcByNcNd2
                                    } else {
                                        if i < 77 {
                                            SpdxLicense::CcByNcNd2_5
                                        } else {
                                            SpdxLicense::CcByNcNd3
                                        }
                                    }
                                } else {
                                    if i < 79 {
                                        SpdxLicense::CcByNcNd4
                                    } else {
                                        if i < 80 {
                                            SpdxLicense::CcByNcSa1
                                        } else {
                                            SpdxLicense::CcByNcSa2
                                        }
                                    }
                                }
                            }
                        } else {
                            if i < 87 {
                                if i < 84 {
                                    if i < 82 {
                                        SpdxLicense::CcByNcSa2_5
                                    } else {
                                        if i < 83 {
                                            SpdxLicense::CcByNcSa3
                                        } else {
                                            SpdxLicense::CcByNcSa4
                                        }
                                    }
                                } else {
                                    if i < 85 {
                                        SpdxLicense::CcByNd1
                                    } else {
                                        if i < 86 {
                                            SpdxLicense::CcByNd2
                                        } else {
                                            SpdxLicense::CcByNd2_5
                                        }
                                    }
                                }
                            } else {
                                if i < 90 {
                                    if i < 88 {
                                        SpdxLicense::CcByNd3
                                    } else {
                                        if i < 89 {
                                            SpdxLicense::CcByNd4
                                        } else {
                                            SpdxLicense::CcBySa1
                                        }
                                    }
                                } else {
                                    if i < 91 {
                                        SpdxLicense::CcBySa2
                                    } else {
                                        if i < 92 {
                                            SpdxLicense::CcBySa2_5
                                        } else {
                                            SpdxLicense::CcBySa3
                                        }
                                    }
                                }
                            }
                        }
                    }
                }
            } else {
                if i < 140 {
                    if i < 116 {
                        if i < 104 {
                            if i < 98 {
                                if i < 95 {
                                    if i < 94 {
                                        SpdxLicense::CcBySa4
                                    } else {
                                        SpdxLicense::CcPddc
                                    }
                                } else {
                                    if i < 96 {
                                        SpdxLicense::CC01
                                    } else {
                                        if i < 97 {
                                            SpdxLicense::Cddl1
                                        } else {
                                            SpdxLicense::Cddl1_1
                                        }
                                    }
                                }
                            } else {
                                if i < 101 {
                                    if i < 99 {
                                        SpdxLicense::CdlaPermissive1
                                    } else {
                                        if i < 100 {
                                            SpdxLicense::CdlaSharing1
                                        } else {
                                            SpdxLicense::Cecill1
                                        }
                                    }
                                } else {
                                    if i < 102 {
                                        SpdxLicense::Cecill1_1
                                    } else {
                                        if i < 103 {
                                            SpdxLicense::Cecill2
                                        } else {
                                            SpdxLicense::Cecill2_1
                                        }
                                    }
                                }
                            }
                        } else {
                            if i < 110 {
                                if i < 107 {
                                    if i < 105 {
                                        SpdxLicense::CecillB
                                    } else {
                                        if i < 106 {
                                            SpdxLicense::CecillC
                                        } else {
                                            SpdxLicense::CernOhl1_1
                                        }
                                    }
                                } else {
                                    if i < 108 {
                                        SpdxLicense::CernOhl1_2
                                    } else {
                                        if i < 109 {
                                            SpdxLicense::ClArtistic
                                        } else {
                                            SpdxLicense::CnriJython
                                        }
                                    }
                                }
                            } else {
                                if i < 113 {
                                    if i < 111 {
                                        SpdxLicense::CnriPython
                                    } else {
                                        if i < 112 {
                                            SpdxLicense::CnriPythonGplCompatible
                                        } else {
                                            SpdxLicense::Condor1_1
                                        }
                                    }
                                } else {
                                    if i < 114 {
                                        SpdxLicense::CopyleftNext0_3
                                    } else {
                                        if i < 115 {
                                            SpdxLicense::CopyleftNext0_3_1
                                        } else {
                                            SpdxLicense::Cpal1
                                        }
                                    }
                                }
                            }
                        }
                    } else {
                        if i < 128 {
                            if i < 122 {
                                if i < 119 {
                                    if i < 117 {
                                        SpdxLicense::Cpl1
                                    } else {
                                        if i < 118 {
                                            SpdxLicense::Cpol1_02
                                        } else {
                                            SpdxLicense::Crossword
                                        }
                                    }
                                } else {
                                    if i < 120 {
                                        SpdxLicense::CrystalStacker
                                    } else {
                                        if i < 121 {
                                            SpdxLicense::CuaOpl1
                                        } else {
                                            SpdxLicense::Cube
                                        }
                                    }
                                }
                            } else {
                                if i < 125 {
                                    if i < 123 {
                                        SpdxLicense::Curl
                                    } else {
                                        if i < 124 {
                                            SpdxLicense::DFsl1
                                        } else {
                                            SpdxLicense::Diffmark
                                        }
                                    }
                                } else {
                                    if i < 126 {
                                        SpdxLicense::Doc
                                    } else {
                                        if i < 127 {
                                            SpdxLicense::Dotseqn
                                        } else {
                                            SpdxLicense::Dsdp
                                        }
                                    }
                                }
                            }
                        } else {
                            if i < 134 {
                                if i < 131 {
                                    if i < 129 {
                                        SpdxLicense::Dvipdfm
                                    } else {
                                        if i < 130 {
                                            SpdxLicense::Ecl1
                                        } else {
                                            SpdxLicense::Ecl2
                                        }
                                    }
                                } else {
                                    if i < 132 {
                                        SpdxLicense::Efl1
                                    } else {
                                        if i < 133 {
                                            SpdxLicense::Efl2
                                        } else {
                                            SpdxLicense::EGenix
                                        }
                                    }
                                }
                            } else {
                                if i < 137 {
                                    if i < 135 {
                                        SpdxLicense::Entessa
                                    } else {
                                        if i < 136 {
                                            SpdxLicense::Epl1
                                        } else {
                                            SpdxLicense::Epl2
                                        }
                                    }
                                } else {
                                    if i < 138 {
                                        SpdxLicense::ErlPl1_1
                                    } else {
                                        if i < 139 {
                                            SpdxLicense::Etalab2
                                        } else {
                                            SpdxLicense::EUDatagrid
                                        }
                                    }
                                }
                            }
                        }
                    }
                } else {
                    if i < 163 {
                        if i < 151 {
                            if i < 145 {
                                if i < 142 {
                                    if i < 141 {
                                        SpdxLicense::Eupl1
                                    } else {
                                        SpdxLicense::Eupl1_1
                                    }
                                } else {
                                    if i < 143 {
                                        SpdxLicense::Eupl1_2
                                    } else {
                                        if i < 144 {
                                            SpdxLicense::Eurosym
                                        } else {
                                            SpdxLicense::Fair
                                        }
                                    }
                                }
                            } else {
                                if i < 148 {
                                    if i < 146 {
                                        SpdxLicense::Frameworx1
                                    } else {
                                        if i < 147 {
                                            SpdxLicense::FreeImage
                                        } else {
                                            SpdxLicense::Fsfap
                                        }
                                    }
                                } else {
                                    if i < 149 {
                                        SpdxLicense::Fsful
                                    } else {
                                        if i < 150 {
                                            SpdxLicense::Fsfullr
                                        } else {
                                            SpdxLicense::Ftl
                                        }
                                    }
                                }
                            }
                        } else {
                            if i < 157 {
                                if i < 154 {
                                    if i < 152 {
                                        SpdxLicense::Gfdl1_1Only
                                    } else {
                                        if i < 153 {
                                            SpdxLicense::Gfdl1_1OrLater
                                        } else {
                                            SpdxLicense::Gfdl1_2Only
                                        }
                                    }
                                } else {
                                    if i < 155 {
                                        SpdxLicense::Gfdl1_2OrLater
                                    } else {
                                        if i < 156 {
                                            SpdxLicense::Gfdl1_3Only
                                        } else {
                                            SpdxLicense::Gfdl1_3OrLater
                                        }
                                    }
                                }
                            } else {
                                if i < 160 {
                                    if i < 158 {
                                        SpdxLicense::Giftware
                                    } else {
                                        if i < 159 {
                                            SpdxLicense::GL2Ps
                                        } else {
                                            SpdxLicense::Glide
                                        }
                                    }
                                } else {
                                    if i < 161 {
                                        SpdxLicense::Glulxe
                                    } else {
                                        if i < 162 {
                                            SpdxLicense::Gnuplot
                                        } else {
                                            SpdxLicense::Gpl1Only
                                        }
                                    }
                                }
                            }
                        }
                    } else {
                        if i < 175 {
                            if i < 169 {
                                if i < 166 {
                                    if i < 164 {
                                        SpdxLicense::Gpl1OrLater
                                    } else {
                                        if i < 165 {
                                            SpdxLicense::Gpl2Only
                                        } else {
                                            SpdxLicense::Gpl2OrLater
                                        }
                                    }
                                } else {
                                    if i < 167 {
                                        SpdxLicense::Gpl3Only
                                    } else {
                                        if i < 168 {
                                            SpdxLicense::Gpl3OrLater
                                        } else {
                                            SpdxLicense::GSoap1_3b
                                        }
                                    }
                                }
                            } else {
                                if i < 172 {
                                    if i < 170 {
                                        SpdxLicense::HaskellReport
                                    } else {
                                        if i < 171 {
                                            SpdxLicense::Hpnd
                                        } else {
                                            SpdxLicense::HpndSellVariant
                                        }
                                    }
                                } else {
                                    if i < 173 {
                                        SpdxLicense::IbmPibs
                                    } else {
                                        if i < 174 {
                                            SpdxLicense::Icu
                                        } else {
                                            SpdxLicense::Ijg
                                        }
                                    }
                                }
                            }
                        } else {
                            if i < 181 {
                                if i < 178 {
                                    if i < 176 {
                                        SpdxLicense::ImageMagick
                                    } else {
                                        if i < 177 {
                                            SpdxLicense::IMatix
                                        } else {
                                            SpdxLicense::Imlib2
                                        }
                                    }
                                } else {
                                    if i < 179 {
                                        SpdxLicense::InfoZip
                                    } else {
                                        if i < 180 {
                                            SpdxLicense::Intel
                                        } else {
                                            SpdxLicense::IntelAcpi
                                        }
                                    }
                                }
                            } else {
                                if i < 184 {
                                    if i < 182 {
                                        SpdxLicense::Interbase1
                                    } else {
                                        if i < 183 {
                                            SpdxLicense::Ipa
                                        } else {
                                            SpdxLicense::Ipl1
                                        }
                                    }
                                } else {
                                    if i < 185 {
                                        SpdxLicense::Isc
                                    } else {
                                        if i < 186 {
                                            SpdxLicense::JasPer2
                                        } else {
                                            SpdxLicense::Jpnic
                                        }
                                    }
                                }
                            }
                        }
                    }
                }
            }
        } else {
            if i < 280 {
                if i < 233 {
                    if i < 210 {
                        if i < 198 {
                            if i < 192 {
                                if i < 189 {
                                    if i < 188 {
                                        SpdxLicense::Json
                                    } else {
                                        SpdxLicense::Lal1_2
                                    }
                                } else {
                                    if i < 190 {
                                        SpdxLicense::Lal1_3
                                    } else {
                                        if i < 191 {
                                            SpdxLicense::Latex2e
                                        } else {
                                            SpdxLicense::Leptonica
                                        }
                                    }
                                }
                            } else {
                                if i < 195 {
                                    if i < 193 {
                                        SpdxLicense::Lgpl2Only
                                    } else {
                                        if i < 194 {
                                            SpdxLicense::Lgpl2OrLater
                                        } else {
                                            SpdxLicense::Lgpl2_1Only
                                        }
                                    }
                                } else {
                                    if i < 196 {
                                        SpdxLicense::Lgpl2_1OrLater
                                    } else {
                                        if i < 197 {
                                            SpdxLicense::Lgpl3Only
                                        } else {
                                            SpdxLicense::Lgpl3OrLater
                                        }
                                    }
                                }
                            }
                        } else {
                            if i < 204 {
                                if i < 201 {
                                    if i < 199 {
                                        SpdxLicense::Lgpllr
                                    } else {
                                        if i < 200 {
                                            SpdxLicense::Libpng
                                        } else {
                                            SpdxLicense::Libpng2
                                        }
                                    }
                                } else {
                                    if i < 202 {
                                        SpdxLicense::Libtiff
                                    } else {
                                        if i < 203 {
                                            SpdxLicense::LiLiQP1_1
                                        } else {
                                            SpdxLicense::LiLiQR1_1
                                        }
                                    }
                                }
                            } else {
                                if i < 207 {
                                    if i < 205 {
                                        SpdxLicense::LiLiQRplus1_1
                                    } else {
                                        if i < 206 {
                                            SpdxLicense::LinuxOpenIb
                                        } else {
                                            SpdxLicense::Lpl1
                                        }
                                    }
                                } else {
                                    if i < 208 {
                                        SpdxLicense::Lpl1_02
                                    } else {
                                        if i < 209 {
                                            SpdxLicense::Lppl1
                                        } else {
                                            SpdxLicense::Lppl1_1
                                        }
                                    }
                                }
                            }
                        }
                    } else {
                        if i < 221 {
                            if i < 215 {
                                if i < 212 {
                                    if i < 211 {
                                        SpdxLicense::Lppl1_2
                                    } else {
                                        SpdxLicense::Lppl1_3a
                                    }
                                } else {
                                    if i < 213 {
                                        SpdxLicense::Lppl1_3c
                                    } else {
                                        if i < 214 {
                                            SpdxLicense::MakeIndex
                                        } else {
                                            SpdxLicense::MirOs
                                        }
                                    }
                                }
                            } else {
                                if i < 218 {
                                    if i < 216 {
                                        SpdxLicense::Mit
                                    } else {
                                        if i < 217 {
                                            SpdxLicense::Mit0
                                        } else {
                                            SpdxLicense::MitAdvertising
                                        }
                                    }
                                } else {
                                    if i < 219 {
                                        SpdxLicense::MitCmu
                                    } else {
                                        if i < 220 {
                                            SpdxLicense::MitEnna
                                        } else {
                                            SpdxLicense::MitFeh
                                        }
                                    }
                                }
                            }
                        } else {
                            if i < 227 {
                                if i < 224 {
                                    if i < 222 {
                                        SpdxLicense::Mitnfa
                                    } else {
                                        if i < 223 {
                                            SpdxLicense::Motosoto
                                        } else {
                                            SpdxLicense::Mpich2
                                        }
                                    }
                                } else {
                                    if i < 225 {
                                        SpdxLicense::Mpl1
                                    } else {
                                        if i < 226 {
                                            SpdxLicense::Mpl1_1
                                        } else {
                                            SpdxLicense::Mpl2
                                        }
                                    }
                                }
                            } else {
                                if i < 230 {
                                    if i < 228 {
                                        SpdxLicense::Mpl2NoCopyleftException
                                    } else {
                                        if i < 229 {
                                            SpdxLicense::MsPl
                                        } else {
                                            SpdxLicense::MsRl
                                        }
                                    }
                                } else {
                                    if i < 231 {
                                        SpdxLicense::Mtll
                                    } else {
                                        if i < 232 {
                                            SpdxLicense::MulanPsl1
                                        } else {
                                            SpdxLicense::Multics
                                        }
                                    }
                                }
                            }
                        }
                    }
                } else {
                    if i < 256 {
                        if i < 244 {
                            if i < 238 {
                                if i < 235 {
                                    if i < 234 {
                                        SpdxLicense::Mup
                                    } else {
                                        SpdxLicense::Nasa1_3
                                    }
                                } else {
                                    if i < 236 {
                                        SpdxLicense::Naumen
                                    } else {
                                        if i < 237 {
                                            SpdxLicense::Nbpl1
                                        } else {
                                            SpdxLicense::Ncsa
                                        }
                                    }
                                }
                            } else {
                                if i < 241 {
                                    if i < 239 {
                                        SpdxLicense::NetSnmp
                                    } else {
                                        if i < 240 {
                                            SpdxLicense::NetCdf
                                        } else {
                                            SpdxLicense::Newsletr
                                        }
                                    }
                                } else {
                                    if i < 242 {
                                        SpdxLicense::Ngpl
                                    } else {
                                        if i < 243 {
                                            SpdxLicense::Nlod1
                                        } else {
                                            SpdxLicense::Nlpl
                                        }
                                    }
                                }
                            }
                        } else {
                            if i < 250 {
                                if i < 247 {
                                    if i < 245 {
                                        SpdxLicense::Nokia
                                    } else {
                                        if i < 246 {
                                            SpdxLicense::Nosl
                                        } else {
                                            SpdxLicense::Noweb
                                        }
                                    }
                                } else {
                                    if i < 248 {
                                        SpdxLicense::Npl1
                                    } else {
                                        if i < 249 {
                                            SpdxLicense::Npl1_1
                                        } else {
                                            SpdxLicense::Nposl3
                                        }
                                    }
                                }
                            } else {
                                if i < 253 {
                                    if i < 251 {
                                        SpdxLicense::Nrl
                                    } else {
                                        if i < 252 {
                                            SpdxLicense::Ntp
                                        } else {
                                            SpdxLicense::OcctPl
                                        }
                                    }
                                } else {
                                    if i < 254 {
                                        SpdxLicense::Oclc2
                                    } else {
                                        if i < 255 {
                                            SpdxLicense::ODbL1
                                        } else {
                                            SpdxLicense::OdcBy1
                                        }
                                    }
                                }
                            }
                        }
                    } else {
                        if i < 268 {
                            if i < 262 {
                                if i < 259 {
                                    if i < 257 {
                                        SpdxLicense::Ofl1
                                    } else {
                                        if i < 258 {
                                            SpdxLicense::Ofl1_1
                                        } else {
                                            SpdxLicense::OglCanada2
                                        }
                                    }
                                } else {
                                    if i < 260 {
                                        SpdxLicense::OglUk1
                                    } else {
                                        if i < 261 {
                                            SpdxLicense::OglUk2
                                        } else {
                                            SpdxLicense::OglUk3
                                        }
                                    }
                                }
                            } else {
                                if i < 265 {
                                    if i < 263 {
                                        SpdxLicense::Ogtsl
                                    } else {
                                        if i < 264 {
                                            SpdxLicense::Oldap1_1
                                        } else {
                                            SpdxLicense::Oldap1_2
                                        }
                                    }
                                } else {
                                    if i < 266 {
                                        SpdxLicense::Oldap1_3
                                    } else {
                                        if i < 267 {
                                            SpdxLicense::Oldap1_4
                                        } else {
                                            SpdxLicense::Oldap2
                                        }
                                    }
                                }
                            }
                        } else {
                            if i < 274 {
                                if i < 271 {
                                    if i < 269 {
                                        SpdxLicense::Oldap2_0_1
                                    } else {
                                        if i < 270 {
                                            SpdxLicense::Oldap2_1
                                        } else {
                                            SpdxLicense::Oldap2_2
                                        }
                                    }
                                } else {
                                    if i < 272 {
                                        SpdxLicense::Oldap2_2_1
                                    } else {
                                        if i < 273 {
                                            SpdxLicense::Oldap2_2_2
                                        } else {
                                            SpdxLicense::Oldap2_3
                                        }
                                    }
                                }
                            } else {
                                if i < 277 {
                                    if i < 275 {
                                        SpdxLicense::Oldap2_4
                                    } else {
                                        if i < 276 {
                                            SpdxLicense::Oldap2_5
                                        } else {
                                            SpdxLicense::Oldap2_6
                                        }
                                    }
                                } else {
                                    if i < 278 {
                                        SpdxLicense::Oldap2_7
                                    } else {
                                        if i < 279 {
                                            SpdxLicense::Oldap2_8
                                        } else {
                                            SpdxLicense::Oml
                                        }
                                    }
                                }
                            }
                        }
                    }
                }
            } else {
                if i < 327 {
                    if i < 303 {
                        if i < 291 {
                            if i < 285 {
                                if i < 282 {
                                    if i < 281 {
                                        SpdxLicense::OpenSsl
                                    } else {
                                        SpdxLicense::Opl1
                                    }
                                } else {
                                    if i < 283 {
                                        SpdxLicense::OsetPl2_1
                                    } else {
                                        if i < 284 {
                                            SpdxLicense::Osl1
                                        } else {
                                            SpdxLicense::Osl1_1
                                        }
                                    }
                                }
                            } else {
                                if i < 288 {
                                    if i < 286 {
                                        SpdxLicense::Osl2
                                    } else {
                                        if i < 287 {
                                            SpdxLicense::Osl2_1
                                        } else {
                                            SpdxLicense::Osl3
                                        }
                                    }
                                } else {
                                    if i < 289 {
                                        SpdxLicense::Parity6
                                    } else {
                                        if i < 290 {
                                            SpdxLicense::Pddl1
                                        } else {
                                            SpdxLicense::Php3
                                        }
                                    }
                                }
                            }
                        } else {
                            if i < 297 {
                                if i < 294 {
                                    if i < 292 {
                                        SpdxLicense::Php3_01
                                    } else {
                                        if i < 293 {
                                            SpdxLicense::Plexus
                                        } else {
                                            SpdxLicense::PostgreSql
                                        }
                                    }
                                } else {
                                    if i < 295 {
                                        SpdxLicense::Psfrag
                                    } else {
                                        if i < 296 {
                                            SpdxLicense::Psutils
                                        } else {
                                            SpdxLicense::Python2
                                        }
                                    }
                                }
                            } else {
                                if i < 300 {
                                    if i < 298 {
                                        SpdxLicense::Qhull
                                    } else {
                                        if i < 299 {
                                            SpdxLicense::Qpl1
                                        } else {
                                            SpdxLicense::Rdisc
                                        }
                                    }
                                } else {
                                    if i < 301 {
                                        SpdxLicense::RHeCos1_1
                                    } else {
                                        if i < 302 {
                                            SpdxLicense::Rpl1_1
                                        } else {
                                            SpdxLicense::Rpl1_5
                                        }
                                    }
                                }
                            }
                        }
                    } else {
                        if i < 315 {
                            if i < 309 {
                                if i < 306 {
                                    if i < 304 {
                                        SpdxLicense::Rpsl1
                                    } else {
                                        if i < 305 {
                                            SpdxLicense::RsaMd
                                        } else {
                                            SpdxLicense::Rscpl
                                        }
                                    }
                                } else {
                                    if i < 307 {
                                        SpdxLicense::Ruby
                                    } else {
                                        if i < 308 {
                                            SpdxLicense::SaxPd
                                        } else {
                                            SpdxLicense::Saxpath
                                        }
                                    }
                                }
                            } else {
                                if i < 312 {
                                    if i < 310 {
                                        SpdxLicense::Scea
                                    } else {
                                        if i < 311 {
                                            SpdxLicense::Sendmail
                                        } else {
                                            SpdxLicense::Sendmail8_23
                                        }
                                    }
                                } else {
                                    if i < 313 {
                                        SpdxLicense::SgiB1
                                    } else {
                                        if i < 314 {
                                            SpdxLicense::SgiB1_1
                                        } else {
                                            SpdxLicense::SgiB2
                                        }
                                    }
                                }
                            }
                        } else {
                            if i < 321 {
                                if i < 318 {
                                    if i < 316 {
                                        SpdxLicense::Shl0_5
                                    } else {
                                        if i < 317 {
                                            SpdxLicense::Shl0_51
                                        } else {
                                            SpdxLicense::SimPl2
                                        }
                                    }
                                } else {
                                    if i < 319 {
                                        SpdxLicense::Sissl
                                    } else {
                                        if i < 320 {
                                            SpdxLicense::Sissl1_2
                                        } else {
                                            SpdxLicense::Sleepycat
                                        }
                                    }
                                }
                            } else {
                                if i < 324 {
                                    if i < 322 {
                                        SpdxLicense::Smlnj
                                    } else {
                                        if i < 323 {
                                            SpdxLicense::Smppl
                                        } else {
                                            SpdxLicense::Snia
                                        }
                                    }
                                } else {
                                    if i < 325 {
                                        SpdxLicense::Spencer86
                                    } else {
                                        if i < 326 {
                                            SpdxLicense::Spencer94
                                        } else {
                                            SpdxLicense::Spencer99
                                        }
                                    }
                                }
                            }
                        }
                    }
                } else {
                    if i < 350 {
                        if i < 338 {
                            if i < 332 {
                                if i < 329 {
                                    if i < 328 {
                                        SpdxLicense::Spl1
                                    } else {
                                        SpdxLicense::SshOpenSsh
                                    }
                                } else {
                                    if i < 330 {
                                        SpdxLicense::SshShort
                                    } else {
                                        if i < 331 {
                                            SpdxLicense::Sspl1
                                        } else {
                                            SpdxLicense::SugarCrm1_1_3
                                        }
                                    }
                                }
                            } else {
                                if i < 335 {
                                    if i < 333 {
                                        SpdxLicense::Swl
                                    } else {
                                        if i < 334 {
                                            SpdxLicense::TaprOhl1
                                        } else {
                                            SpdxLicense::Tcl
                                        }
                                    }
                                } else {
                                    if i < 336 {
                                        SpdxLicense::TcpWrappers
                                    } else {
                                        if i < 337 {
                                            SpdxLicense::TMate
                                        } else {
                                            SpdxLicense::Torque1_1
                                        }
                                    }
                                }
                            }
                        } else {
                            if i < 344 {
                                if i < 341 {
                                    if i < 339 {
                                        SpdxLicense::Tosl
                                    } else {
                                        if i < 340 {
                                            SpdxLicense::TuBerlin1
                                        } else {
                                            SpdxLicense::TuBerlin2
                                        }
                                    }
                                } else {
                                    if i < 342 {
                                        SpdxLicense::Ucl1
                                    } else {
                                        if i < 343 {
                                            SpdxLicense::UnicodeDfs2015
                                        } else {
                                            SpdxLicense::UnicodeDfs2016
                                        }
                                    }
                                }
                            } else {
                                if i < 347 {
                                    if i < 345 {
                                        SpdxLicense::UnicodeTou
                                    } else {
                                        if i < 346 {
                                            SpdxLicense::Unlicense
                                        } else {
                                            SpdxLicense::Upl1
                                        }
                                    }
                                } else {
                                    if i < 348 {
                                        SpdxLicense::Vim
                                    } else {
                                        if i < 349 {
                                            SpdxLicense::Vostrom
                                        } else {
                                            SpdxLicense::Vsl1
                                        }
                                    }
                                }
                            }
                        }
                    } else {
                        if i < 362 {
                            if i < 356 {
                                if i < 353 {
                                    if i < 351 {
                                        SpdxLicense::W3C
                                    } else {
                                        if i < 352 {
                                            SpdxLicense::W3C19980720
                                        } else {
                                            SpdxLicense::W3C20150513
                                        }
                                    }
                                } else {
                                    if i < 354 {
                                        SpdxLicense::Watcom1
                                    } else {
                                        if i < 355 {
                                            SpdxLicense::Wsuipa
                                        } else {
                                            SpdxLicense::Wtfpl
                                        }
                                    }
                                }
                            } else {
                                if i < 359 {
                                    if i < 357 {
                                        SpdxLicense::X11
                                    } else {
                                        if i < 358 {
                                            SpdxLicense::Xerox
                                        } else {
                                            SpdxLicense::XFree861_1
                                        }
                                    }
                                } else {
                                    if i < 360 {
                                        SpdxLicense::Xinetd
                                    } else {
                                        if i < 361 {
                                            SpdxLicense::Xnet
                                        } else {
                                            SpdxLicense::Xpp
                                        }
                                    }
                                }
                            }
                        } else {
                            if i < 368 {
                                if i < 365 {
                                    if i < 363 {
                                        SpdxLicense::XSkat
                                    } else {
                                        if i < 364 {
                                            SpdxLicense::Ypl1
                                        } else {
                                            SpdxLicense::Ypl1_1
                                        }
                                    }
                                } else {
                                    if i < 366 {
                                        SpdxLicense::Zed
                                    } else {
                                        if i < 367 {
                                            SpdxLicense::Zend2
                                        } else {
                                            SpdxLicense::Zimbra1_3
                                        }
                                    }
                                }
                            } else {
                                if i < 371 {
                                    if i < 369 {
                                        SpdxLicense::Zimbra1_4
                                    } else {
                                        if i < 370 {
                                            SpdxLicense::Zlib
                                        } else {
                                            SpdxLicense::ZlibAcknowledgement
                                        }
                                    }
                                } else {
                                    if i < 372 {
                                        SpdxLicense::Zpl1_1
                                    } else {
                                        if i < 373 {
                                            SpdxLicense::Zpl2
                                        } else {
                                            SpdxLicense::Zpl2_1
                                        }
                                    }
                                }
                            }
                        }
                    }
                }
            }
        }
    }

    /// Position of the license when the catalog is ordered by identifier.
    pub open spec fn id_rank(self) -> nat {
        match self {
            SpdxLicense::Bsd0 => 52,
            SpdxLicense::Aal => 2,
            SpdxLicense::Abstyles => 23,
            SpdxLicense::Adobe2006 => 24,
            SpdxLicense::AdobeGlyph => 25,
            SpdxLicense::Adsl => 3,
            SpdxLicense::Afl1_1 => 4,
            SpdxLicense::Afl1_2 => 5,
            SpdxLicense::Afl2 => 6,
            SpdxLicense::Afl2_1 => 7,
            SpdxLicense::Afl3 => 8,
            SpdxLicense::Afmparse => 26,
            SpdxLicense::Agpl1Only => 9,
            SpdxLicense::Agpl1OrLater => 10,
            SpdxLicense::Agpl3Only => 11,
            SpdxLicense::Agpl3OrLater => 12,
            SpdxLicense::Aladdin => 27,
            SpdxLicense::Amdplpa => 13,
            SpdxLicense::Aml => 14,
            SpdxLicense::Ampas => 15,
            SpdxLicense::AntlrPd => 16,
            SpdxLicense::Apache1 => 28,
            SpdxLicense::Apache1_1 => 29,
            SpdxLicense::Apache2 => 30,
            SpdxLicense::Apafml => 17,
            SpdxLicense::Apl1 => 18,
            SpdxLicense::Apsl1 => 19,
            SpdxLicense::Apsl1_1 => 20,
            SpdxLicense::Apsl1_2 => 21,
            SpdxLicense::Apsl2 => 22,
            SpdxLicense::Artistic1 => 31,
            SpdxLicense::Artistic1Cl8 => 33,
            SpdxLicense::Artistic1Perl => 32,
            SpdxLicense::Artistic2 => 34,
            SpdxLicense::Bahyph => 54,
            SpdxLicense::Barr => 55,
            SpdxLicense::Beerware => 56,
            SpdxLicense::BitTorrent1 => 57,
            SpdxLicense::BitTorrent1_1 => 58,
            SpdxLicense::Blessing => 353,
            SpdxLicense::BlueOak1 => 59,
            SpdxLicense::Borceux => 60,
            SpdxLicense::Bsd1Clause => 35,
            SpdxLicense::Bsd2Clause => 36,
            SpdxLicense::Bsd2ClauseFreeBsd => 37,
            SpdxLicense::Bsd2ClauseNetBsd => 38,
            SpdxLicense::Bsd2ClausePatent => 39,
            SpdxLicense::Bsd3Clause => 40,
            SpdxLicense::Bsd3ClauseAttribution => 41,
            SpdxLicense::Bsd3ClauseClear => 42,
            SpdxLicense::Bsd3ClauseLbnl => 43,
            SpdxLicense::Bsd3ClauseNoNuclearLicense => 44,
            SpdxLicense::Bsd3ClauseNoNuclearLicense2014 => 45,
            SpdxLicense::Bsd3ClauseNoNuclearWarranty => 46,
            SpdxLicense::Bsd3ClauseOpenMpi => 47,
            SpdxLicense::Bsd4Clause => 48,
            SpdxLicense::Bsd4ClauseUc => 49,
            SpdxLicense::BsdProtection => 50,
            SpdxLicense::BsdSourceCode => 51,
            SpdxLicense::Bsl1 => 53,
            SpdxLicense::Bzip21_0_5 => 354,
            SpdxLicense::Bzip21_0_6 => 355,
            SpdxLicense::Caldera => 113,
            SpdxLicense::Catosl1_1 => 61,
            SpdxLicense::CcBy1 => 62,
            SpdxLicense::CcBy2 => 63,
            SpdxLicense::CcBy2_5 => 64,
            SpdxLicense::CcBy3 => 65,
            SpdxLicense::CcBy4 => 66,
            SpdxLicense::CcByNc1 => 67,
            SpdxLicense::CcByNc2 => 68,
            SpdxLicense::CcByNc2_5 => 69,
            SpdxLicense::CcByNc3 => 70,
            SpdxLicense::CcByNc4 => 71,
            SpdxLicense::CcByNcNd1 => 72,
            SpdxLicense::CcByNcNd2 => 73,
            SpdxLicense::CcByNcNd2_5 => 74,
            SpdxLicense::CcByNcNd3 => 75,
            SpdxLicense::CcByNcNd4 => 76,
            SpdxLicense::CcByNcSa1 => 77,
            SpdxLicense::CcByNcSa2 => 78,
            SpdxLicense::CcByNcSa2_5 => 79,
            SpdxLicense::CcByNcSa3 => 80,
            SpdxLicense::CcByNcSa4 => 81,
            SpdxLicense::CcByNd1 => 82,
            SpdxLicense::CcByNd2 => 83,
            SpdxLicense::CcByNd2_5 => 84,
            SpdxLicense::CcByNd3 => 85,
            SpdxLicense::CcByNd4 => 86,
            SpdxLicense::CcBySa1 => 87,
            SpdxLicense::CcBySa2 => 88,
            SpdxLicense::CcBySa2_5 => 89,
            SpdxLicense::CcBySa3 => 90,
            SpdxLicense::CcBySa4 => 91,
            SpdxLicense::CcPddc => 92,
            SpdxLicense::CC01 => 93,
            SpdxLicense::Cddl1 => 94,
            SpdxLicense::Cddl1_1 => 95,
            SpdxLicense::CdlaPermissive1 => 96,
            SpdxLicense::CdlaSharing1 => 97,
            SpdxLicense::Cecill1 => 98,
            SpdxLicense::Cecill1_1 => 99,
            SpdxLicense::Cecill2 => 100,
            SpdxLicense::Cecill2_1 => 101,
            SpdxLicense::CecillB => 102,
            SpdxLicense::CecillC => 103,
            SpdxLicense::CernOhl1_1 => 104,
            SpdxLicense::CernOhl1_2 => 105,
            SpdxLicense::ClArtistic => 114,
            SpdxLicense::CnriJython => 106,
            SpdxLicense::CnriPython => 107,
            SpdxLicense::CnriPythonGplCompatible => 108,
            SpdxLicense::Condor1_1 => 115,
            SpdxLicense::CopyleftNext0_3 => 356,
            SpdxLicense::CopyleftNext0_3_1 => 357,
            SpdxLicense::Cpal1 => 109,
            SpdxLicense::Cpl1 => 110,
            SpdxLicense::Cpol1_02 => 111,
            SpdxLicense::Crossword => 116,
            SpdxLicense::CrystalStacker => 117,
            SpdxLicense::CuaOpl1 => 112,
            SpdxLicense::Cube => 118,
            SpdxLicense::Curl => 358,
            SpdxLicense::DFsl1 => 119,
            SpdxLicense::Diffmark => 359,
            SpdxLicense::Doc => 120,
            SpdxLicense::Dotseqn => 122,
            SpdxLicense::Dsdp => 121,
            SpdxLicense::Dvipdfm => 360,
            SpdxLicense::Ecl1 => 123,
            SpdxLicense::Ecl2 => 124,
            SpdxLicense::Efl1 => 125,
            SpdxLicense::Efl2 => 126,
            SpdxLicense::EGenix => 361,
            SpdxLicense::Entessa => 133,
            SpdxLicense::Epl1 => 127,
            SpdxLicense::Epl2 => 128,
            SpdxLicense::ErlPl1_1 => 134,
            SpdxLicense::Etalab2 => 362,
            SpdxLicense::EUDatagrid => 129,
            SpdxLicense::Eupl1 => 130,
            SpdxLicense::Eupl1_1 => 131,
            SpdxLicense::Eupl1_2 => 132,
            SpdxLicense::Eurosym => 135,
            SpdxLicense::Fair => 140,
            SpdxLicense::Frameworx1 => 141,
            SpdxLicense::FreeImage => 142,
            SpdxLicense::Fsfap => 136,
            SpdxLicense::Fsful => 137,
            SpdxLicense::Fsfullr => 138,
            SpdxLicense::Ftl => 139,
            SpdxLicense::Gfdl1_1Only => 143,
            SpdxLicense::Gfdl1_1OrLater => 144,
            SpdxLicense::Gfdl1_2Only => 145,
            SpdxLicense::Gfdl1_2OrLater => 146,
            SpdxLicense::Gfdl1_3Only => 147,
            SpdxLicense::Gfdl1_3OrLater => 148,
            SpdxLicense::Giftware => 156,
            SpdxLicense::GL2Ps => 149,
            SpdxLicense::Glide => 157,
            SpdxLicense::Glulxe => 158,
            SpdxLicense::Gnuplot => 364,
            SpdxLicense::Gpl1Only => 150,
            SpdxLicense::Gpl1OrLater => 151,
            SpdxLicense::Gpl2Only => 152,
            SpdxLicense::Gpl2OrLater => 153,
            SpdxLicense::Gpl3Only => 154,
            SpdxLicense::Gpl3OrLater => 155,
            SpdxLicense::GSoap1_3b => 363,
            SpdxLicense::HaskellReport => 161,
            SpdxLicense::Hpnd => 159,
            SpdxLicense::HpndSellVariant => 160,
            SpdxLicense::IbmPibs => 162,
            SpdxLicense::Icu => 163,
            SpdxLicense::Ijg => 164,
            SpdxLicense::ImageMagick => 168,
            SpdxLicense::IMatix => 365,
            SpdxLicense::Imlib2 => 169,
            SpdxLicense::InfoZip => 170,
            SpdxLicense::Intel => 171,
            SpdxLicense::IntelAcpi => 172,
            SpdxLicense::Interbase1 => 173,
            SpdxLicense::Ipa => 165,
            SpdxLicense::Ipl1 => 166,
            SpdxLicense::Isc => 167,
            SpdxLicense::JasPer2 => 176,
            SpdxLicense::Jpnic => 174,
            SpdxLicense::Json => 175,
            SpdxLicense::Lal1_2 => 177,
            SpdxLicense::Lal1_3 => 178,
            SpdxLicense::Latex2e => 193,
            SpdxLicense::Leptonica => 194,
            SpdxLicense::Lgpl2Only => 179,
            SpdxLicense::Lgpl2OrLater => 180,
            SpdxLicense::Lgpl2_1Only => 181,
            SpdxLicense::Lgpl2_1OrLater => 182,
            SpdxLicense::Lgpl3Only => 183,
            SpdxLicense::Lgpl3OrLater => 184,
            SpdxLicense::Lgpllr => 185,
            SpdxLicense::Libpng => 198,
            SpdxLicense::Libpng2 => 366,
            SpdxLicense::Libtiff => 367,
            SpdxLicense::LiLiQP1_1 => 195,
            SpdxLicense::LiLiQR1_1 => 196,
            SpdxLicense::LiLiQRplus1_1 => 197,
            SpdxLicense::LinuxOpenIb => 199,
            SpdxLicense::Lpl1 => 186,
            SpdxLicense::Lpl1_02 => 187,
            SpdxLicense::Lppl1 => 188,
            SpdxLicense::Lppl1_1 => 189,
            SpdxLicense::Lppl1_2 => 190,
            SpdxLicense::Lppl1_3a => 191,
            SpdxLicense::Lppl1_3c => 192,
            SpdxLicense::MakeIndex => 214,
            SpdxLicense::MirOs => 215,
            SpdxLicense::Mit => 200,
            SpdxLicense::Mit0 => 201,
            SpdxLicense::MitAdvertising => 203,
            SpdxLicense::MitCmu => 202,
            SpdxLicense::MitEnna => 204,
            SpdxLicense::MitFeh => 205,
            SpdxLicense::Mitnfa => 206,
            SpdxLicense::Motosoto => 216,
            SpdxLicense::Mpich2 => 368,
            SpdxLicense::Mpl1 => 207,
            SpdxLicense::Mpl1_1 => 208,
            SpdxLicense::Mpl2 => 209,
            SpdxLicense::Mpl2NoCopyleftException => 210,
            SpdxLicense::MsPl => 211,
            SpdxLicense::MsRl => 212,
            SpdxLicense::Mtll => 213,
            SpdxLicense::MulanPsl1 => 217,
            SpdxLicense::Multics => 218,
            SpdxLicense::Mup => 219,
            SpdxLicense::Nasa1_3 => 220,
            SpdxLicense::Naumen => 232,
            SpdxLicense::Nbpl1 => 221,
            SpdxLicense::Ncsa => 222,
            SpdxLicense::NetSnmp => 233,
            SpdxLicense::NetCdf => 234,
            SpdxLicense::Newsletr => 235,
            SpdxLicense::Ngpl => 223,
            SpdxLicense::Nlod1 => 224,
            SpdxLicense::Nlpl => 225,
            SpdxLicense::Nokia => 236,
            SpdxLicense::Nosl => 226,
            SpdxLicense::Noweb => 237,
            SpdxLicense::Npl1 => 227,
            SpdxLicense::Npl1_1 => 228,
            SpdxLicense::Nposl3 => 229,
            SpdxLicense::Nrl => 230,
            SpdxLicense::Ntp => 231,
            SpdxLicense::OcctPl => 238,
            SpdxLicense::Oclc2 => 239,
            SpdxLicense::ODbL1 => 241,
            SpdxLicense::OdcBy1 => 240,
            SpdxLicense::Ofl1 => 242,
            SpdxLicense::Ofl1_1 => 243,
            SpdxLicense::OglCanada2 => 244,
            SpdxLicense::OglUk1 => 245,
            SpdxLicense::OglUk2 => 246,
            SpdxLicense::OglUk3 => 247,
            SpdxLicense::Ogtsl => 248,
            SpdxLicense::Oldap1_1 => 249,
            SpdxLicense::Oldap1_2 => 250,
            SpdxLicense::Oldap1_3 => 251,
            SpdxLicense::Oldap1_4 => 252,
            SpdxLicense::Oldap2 => 253,
            SpdxLicense::Oldap2_0_1 => 254,
            SpdxLicense::Oldap2_1 => 255,
            SpdxLicense::Oldap2_2 => 256,
            SpdxLicense::Oldap2_2_1 => 257,
            SpdxLicense::Oldap2_2_2 => 258,
            SpdxLicense::Oldap2_3 => 259,
            SpdxLicense::Oldap2_4 => 260,
            SpdxLicense::Oldap2_5 => 261,
            SpdxLicense::Oldap2_6 => 262,
            SpdxLicense::Oldap2_7 => 263,
            SpdxLicense::Oldap2_8 => 264,
            SpdxLicense::Oml => 265,
            SpdxLicense::OpenSsl => 273,
            SpdxLicense::Opl1 => 266,
            SpdxLicense::OsetPl2_1 => 267,
            SpdxLicense::Osl1 => 268,
            SpdxLicense::Osl1_1 => 269,
            SpdxLicense::Osl2 => 270,
            SpdxLicense::Osl2_1 => 271,
            SpdxLicense::Osl3 => 272,
            SpdxLicense::Parity6 => 275,
            SpdxLicense::Pddl1 => 274,
            SpdxLicense::Php3 => 0,
            SpdxLicense::Php3_01 => 1,
            SpdxLicense::Plexus => 276,
            SpdxLicense::PostgreSql => 277,
            SpdxLicense::Psfrag => 369,
            SpdxLicense::Psutils => 370,
            SpdxLicense::Python2 => 278,
            SpdxLicense::Qhull => 280,
            SpdxLicense::Qpl1 => 279,
            SpdxLicense::Rdisc => 287,
            SpdxLicense::RHeCos1_1 => 281,
            SpdxLicense::Rpl1_1 => 282,
            SpdxLicense::Rpl1_5 => 283,
            SpdxLicense::Rpsl1 => 284,
            SpdxLicense::RsaMd => 285,
            SpdxLicense::Rscpl => 286,
            SpdxLicense::Ruby => 288,
            SpdxLicense::SaxPd => 289,
            SpdxLicense::Saxpath => 306,
            SpdxLicense::Scea => 290,
            SpdxLicense::Sendmail => 307,
            SpdxLicense::Sendmail8_23 => 308,
            SpdxLicense::SgiB1 => 291,
            SpdxLicense::SgiB1_1 => 292,
            SpdxLicense::SgiB2 => 293,
            SpdxLicense::Shl0_5 => 294,
            SpdxLicense::Shl0_51 => 295,
            SpdxLicense::SimPl2 => 309,
            SpdxLicense::Sissl => 296,
            SpdxLicense::Sissl1_2 => 297,
            SpdxLicense::Sleepycat => 310,
            SpdxLicense::Smlnj => 298,
            SpdxLicense::Smppl => 299,
            SpdxLicense::Snia => 300,
            SpdxLicense::Spencer86 => 311,
            SpdxLicense::Spencer94 => 312,
            SpdxLicense::Spencer99 => 313,
            SpdxLicense::Spl1 => 301,
            SpdxLicense::SshOpenSsh => 302,
            SpdxLicense::SshShort => 303,
            SpdxLicense::Sspl1 => 304,
            SpdxLicense::SugarCrm1_1_3 => 314,
            SpdxLicense::Swl => 305,
            SpdxLicense::TaprOhl1 => 315,
            SpdxLicense::Tcl => 316,
            SpdxLicense::TcpWrappers => 317,
            SpdxLicense::TMate => 318,
            SpdxLicense::Torque1_1 => 319,
            SpdxLicense::Tosl => 320,
            SpdxLicense::TuBerlin1 => 321,
            SpdxLicense::TuBerlin2 => 322,
            SpdxLicense::Ucl1 => 323,
            SpdxLicense::UnicodeDfs2015 => 325,
            SpdxLicense::UnicodeDfs2016 => 326,
            SpdxLicense::UnicodeTou => 327,
            SpdxLicense::Unlicense => 328,
            SpdxLicense::Upl1 => 324,
            SpdxLicense::Vim => 331,
            SpdxLicense::Vostrom => 329,
            SpdxLicense::Vsl1 => 330,
            SpdxLicense::W3C => 332,
            SpdxLicense::W3C19980720 => 333,
            SpdxLicense::W3C20150513 => 334,
            SpdxLicense::Watcom1 => 336,
            SpdxLicense::Wsuipa => 337,
            SpdxLicense::Wtfpl => 335,
            SpdxLicense::X11 => 338,
            SpdxLicense::Xerox => 341,
            SpdxLicense::XFree861_1 => 339,
            SpdxLicense::Xinetd => 371,
            SpdxLicense::Xnet => 342,
            SpdxLicense::Xpp => 372,
            SpdxLicense::XSkat => 340,
            SpdxLicense::Ypl1 => 343,
            SpdxLicense::Ypl1_1 => 344,
            SpdxLicense::Zed => 348,
            SpdxLicense::Zend2 => 349,
            SpdxLicense::Zimbra1_3 => 350,
            SpdxLicense::Zimbra1_4 => 351,
            SpdxLicense::Zlib => 352,
            SpdxLicense::ZlibAcknowledgement => 373,
            SpdxLicense::Zpl1_1 => 345,
            SpdxLicense::Zpl2 => 346,
            SpdxLicense::Zpl2_1 => 347,
        }
    }

    /// The license at a position of the catalog ordered by identifier.
    pub open spec fn with_id_rank(p: nat) -> SpdxLicense {
        if p < 187 {
            if p < 93 {
                if p < 46 {
                    if p < 23 {
                        if p < 11 {
                            if p < 5 {
                                if p < 2 {
                                    if p < 1 {
                                        SpdxLicense::Php3
                                    } else {
                                        SpdxLicense::Php3_01
                                    }
                                } else {
                                    if p < 3 {
                                        SpdxLicense::Aal
                                    } else {
                                        if p < 4 {
                                            SpdxLicense::Adsl
                                        } else {
                                            SpdxLicense::Afl1_1
                                        }
                                    }
                                }
                            } else {
                                if p < 8 {
                                    if p < 6 {
                                        SpdxLicense::Afl1_2
                                    } else {
                                        if p < 7 {
                                            SpdxLicense::Afl2
                                        } else {
                                            SpdxLicense::Afl2_1
                                        }
                                    }
                                } else {
                                    if p < 9 {
                                        SpdxLicense::Afl3
                                    } else {
                                        if p < 10 {
                                            SpdxLicense::Agpl1Only
                                        } else {
                                            SpdxLicense::Agpl1OrLater
                                        }
                                    }
                                }
                            }
                        } else {
                            if p < 17 {
                                if p < 14 {
                                    if p < 12 {
                                        SpdxLicense::Agpl3Only
                                    } else {
                                        if p < 13 {
                                            SpdxLicense::Agpl3OrLater
                                        } else {
                                            SpdxLicense::Amdplpa
                                        }
                                    }
                                } else {
                                    if p < 15 {
                                        SpdxLicense::Aml
                                    } else {
                                        if p < 16 {
                                            SpdxLicense::Ampas
                                        } else {
                                            SpdxLicense::AntlrPd
                                        }
                                    }
                                }
                            } else {
                                if p < 20 {
                                    if p < 18 {
                                        SpdxLicense::Apafml
                                    } else {
                                        if p < 19 {
                                            SpdxLicense::Apl1
                                        } else {
                                            SpdxLicense::Apsl1
                                        }
                                    }
                                } else {
                                    if p < 21 {
                                        SpdxLicense::Apsl1_1
                                    } else {
                                        if p < 22 {
                                            SpdxLicense::Apsl1_2
                                        } else {
                                            SpdxLicense::Apsl2
                                        }
                                    }
                                }
                            }
                        }
                    } else {
                        if p < 34 {
                            if p < 28 {
                                if p < 25 {
                                    if p < 24 {
                                        SpdxLicense::Abstyles
                                    } else {
                                        SpdxLicense::Adobe2006
                                    }
                                } else {
                                    if p < 26 {
                                        SpdxLicense::AdobeGlyph
                                    } else {
                                        if p < 27 {
                                            SpdxLicense::Afmparse
                                        } else {
                                            SpdxLicense::Aladdin
                                        }
                                    }
                                }
                            } else {
                                if p < 31 {
                                    if p < 29 {
                                        SpdxLicense::Apache1
                                    } else {
                                        if p < 30 {
                                            SpdxLicense::Apache1_1
                                        } else {
                                            SpdxLicense::Apache2
                                        }
                                    }
                                } else {
                                    if p < 32 {
                                        SpdxLicense::Artistic1
                                    } else {
                                        if p < 33 {
                                            SpdxLicense::Artistic1Perl
                                        } else {
                                            SpdxLicense::Artistic1Cl8
                                        }
                                    }
                                }
                            }
                        } else {
                            if p < 40 {
                                if p < 37 {
                                    if p < 35 {
                                        SpdxLicense::Artistic2
                                    } else {
                                        if p < 36 {
                                            SpdxLicense::Bsd1Clause
                                        } else {
                                            SpdxLicense::Bsd2Clause
                                        }
                                    }
                                } else {
                                    if p < 38 {
                                        SpdxLicense::Bsd2ClauseFreeBsd
                                    } else {
                                        if p < 39 {
                                            SpdxLicense::Bsd2ClauseNetBsd
                                        } else {
                                            SpdxLicense::Bsd2ClausePatent
                                        }
                                    }
                                }
                            } else {
                                if p < 43 {
                                    if p < 41 {
                                        SpdxLicense::Bsd3Clause
                                    } else {
                                        if p < 42 {
                                            SpdxLicense::Bsd3ClauseAttribution
                                        } else {
                                            SpdxLicense::Bsd3ClauseClear
                                        }
                                    }
                                } else {
                                    if p < 44 {
                                        SpdxLicense::Bsd3ClauseLbnl
                                    } else {
                                        if p < 45 {
                                            SpdxLicense::Bsd3ClauseNoNuclearLicense
                                        } else {
                                            SpdxLicense::Bsd3ClauseNoNuclearLicense2014
                                        }
                                    }
                                }
                            }
                        }
                    }
                } else {
                    if p < 69 {
                        if p < 57 {
                            if p < 51 {
                                if p < 48 {
                                    if p < 47 {
                                        SpdxLicense::Bsd3ClauseNoNuclearWarranty
                                    } else {
                                        SpdxLicense::Bsd3ClauseOpenMpi
                                    }
                                } else {
                                    if p < 49 {
                                        SpdxLicense::Bsd4Clause
                                    } else {
                                        if p < 50 {
                                            SpdxLicense::Bsd4ClauseUc
                                        } else {
                                            SpdxLicense::BsdProtection
                                        }
                                    }
                                }
                            } else {
                                if p < 54 {
                                    if p < 52 {
                                        SpdxLicense::BsdSourceCode
                                    } else {
                                        if p < 53 {
                                            SpdxLicense::Bsd0
                                        } else {
                                            SpdxLicense::Bsl1
                                        }
                                    }
                                } else {
                                    if p < 55 {
                                        SpdxLicense::Bahyph
                                    } else {
                                        if p < 56 {
                                            SpdxLicense::Barr
                                        } else {
                                            SpdxLicense::Beerware
                                        }
                                    }
                                }
                            }
                        } else {
                            if p < 63 {
                                if p < 60 {
                                    if p < 58 {
                                        SpdxLicense::BitTorrent1
                                    } else {
                                        if p < 59 {
                                            SpdxLicense::BitTorrent1_1
                                        } else {
                                            SpdxLicense::BlueOak1
                                        }
                                    }
                                } else {
                                    if p < 61 {
                                        SpdxLicense::Borceux
                                    } else {
                                        if p < 62 {
                                            SpdxLicense::Catosl1_1
                                        } else {
                                            SpdxLicense::CcBy1
                                        }
                                    }
                                }
                            } else {
                                if p < 66 {
                                    if p < 64 {
                                        SpdxLicense::CcBy2
                                    } else {
                                        if p < 65 {
                                            SpdxLicense::CcBy2_5
                                        } else {
                                            SpdxLicense::CcBy3
                                        }
                                    }
                                } else {
                                    if p < 67 {
                                        SpdxLicense::CcBy4
                                    } else {
                                        if p < 68 {
                                            SpdxLicense::CcByNc1
                                        } else {
                                            SpdxLicense::CcByNc2
                                        }
                                    }
                                }
                            }
                        }
                    } else {
                        if p < 81 {
                            if p < 75 {
                                if p < 72 {
                                    if p < 70 {
                                        SpdxLicense::CcByNc2_5
                                    } else {
                                        if p < 71 {
                                            SpdxLicense::CcByNc3
                                        } else {
                                            SpdxLicense::CcByNc4
                                        }
                                    }
                                } else {
                                    if p < 73 {
                                        SpdxLicense::CcByNcNd1
                                    } else {
                                        if p < 74 {
                                            SpdxLicense::CcByNcNd2
                                        } else {
                                            SpdxLicense::CcByNcNd2_5
                                        }
                                    }
                                }
                            } else {
                                if p < 78 {
                                    if p < 76 {
                                        SpdxLicense::CcByNcNd3
                                    } else {
                                        if p < 77 {
                                            SpdxLicense::CcByNcNd4
                                        } else {
                                            SpdxLicense::CcByNcSa1
                                        }
                                    }
                                } else {
                                    if p < 79 {
                                        SpdxLicense::CcByNcSa2
                                    } else {
                                        if p < 80 {
                                            SpdxLicense::CcByNcSa2_5
                                        } else {
                                            SpdxLicense::CcByNcSa3
                                        }
                                    }
                                }
                            }
                        } else {
                            if p < 87 {
                                if p < 84 {
                                    if p < 82 {
                                        SpdxLicense::CcByNcSa4
                                    } else {
                                        if p < 83 {
                                            SpdxLicense::CcByNd1
                                        } else {
                                            SpdxLicense::CcByNd2
                                        }
                                    }
                                } else {
                                    if p < 85 {
                                        SpdxLicense::CcByNd2_5
                                    } else {
                                        if p < 86 {
                                            SpdxLicense::CcByNd3
                                        } else {
                                            SpdxLicense::CcByNd4
                                        }
                                    }
                                }
                            } else {
                                if p < 90 {
                                    if p < 88 {
                                        SpdxLicense::CcBySa1
                                    } else {
                                        if p < 89 {
                                            SpdxLicense::CcBySa2
                                        } else {
                                            SpdxLicense::CcBySa2_5
                                        }
                                    }
                                } else {
                                    if p < 91 {
                                        SpdxLicense::CcBySa3
                                    } else {
                                        if p < 92 {
                                            SpdxLicense::CcBySa4
                                        } else {
                                            SpdxLicense::CcPddc
                                        }
                                    }
                                }
                            }
                        }
                    }
                }
            } else {
                if p < 140 {
                    if p < 116 {
                        if p < 104 {
                            if p < 98 {
                                if p < 95 {
                                    if p < 94 {
                                        SpdxLicense::CC01
                                    } else {
                                        SpdxLicense::Cddl1
                                    }
                                } else {
                                    if p < 96 {
                                        SpdxLicense::Cddl1_1
                                    } else {
                                        if p < 97 {
                                            SpdxLicense::CdlaPermissive1
                                        } else {
                                            SpdxLicense::CdlaSharing1
                                        }
                                    }
                                }
                            } else {
                                if p < 101 {
                                    if p < 99 {
                                        SpdxLicense::Cecill1
                                    } else {
                                        if p < 100 {
                                            SpdxLicense::Cecill1_1
                                        } else {
                                            SpdxLicense::Cecill2
                                        }
                                    }
                                } else {
                                    if p < 102 {
                                        SpdxLicense::Cecill2_1
                                    } else {
                                        if p < 103 {
                                            SpdxLicense::CecillB
                                        } else {
                                            SpdxLicense::CecillC
                                        }
                                    }
                                }
                            }
                        } else {
                            if p < 110 {
                                if p < 107 {
                                    if p < 105 {
                                        SpdxLicense::CernOhl1_1
                                    } else {
                                        if p < 106 {
                                            SpdxLicense::CernOhl1_2
                                        } else {
                                            SpdxLicense::CnriJython
                                        }
                                    }
                                } else {
                                    if p < 108 {
                                        SpdxLicense::CnriPython
                                    } else {
                                        if p < 109 {
                                            SpdxLicense::CnriPythonGplCompatible
                                        } else {
                                            SpdxLicense::Cpal1
                                        }
                                    }
                                }
                            } else {
                                if p < 113 {
                                    if p < 111 {
                                        SpdxLicense::Cpl1
                                    } else {
                                        if p < 112 {
                                            SpdxLicense::Cpol1_02
                                        } else {
                                            SpdxLicense::CuaOpl1
                                        }
                                    }
                                } else {
                                    if p < 114 {
                                        SpdxLicense::Caldera
                                    } else {
                                        if p < 115 {
                                            SpdxLicense::ClArtistic
                                        } else {
                                            SpdxLicense::Condor1_1
                                        }
                                    }
                                }
                            }
                        }
                    } else {
                        if p < 128 {
                            if p < 122 {
                                if p < 119 {
                                    if p < 117 {
                                        SpdxLicense::Crossword
                                    } else {
                                        if p < 118 {
                                            SpdxLicense::CrystalStacker
                                        } else {
                                            SpdxLicense::Cube
                                        }
                                    }
                                } else {
                                    if p < 120 {
                                        SpdxLicense::DFsl1
                                    } else {
                                        if p < 121 {
                                            SpdxLicense::Doc
                                        } else {
                                            SpdxLicense::Dsdp
                                        }
                                    }
                                }
                            } else {
                                if p < 125 {
                                    if p < 123 {
                                        SpdxLicense::Dotseqn
                                    } else {
                                        if p < 124 {
                                            SpdxLicense::Ecl1
                                        } else {
                                            SpdxLicense::Ecl2
                                        }
                                    }
                                } else {
                                    if p < 126 {
                                        SpdxLicense::Efl1
                                    } else {
                                        if p < 127 {
                                            SpdxLicense::Efl2
                                        } else {
                                            SpdxLicense::Epl1
                                        }
                                    }
                                }
                            }
                        } else {
                            if p < 134 {
                                if p < 131 {
                                    if p < 129 {
                                        SpdxLicense::Epl2
                                    } else {
                                        if p < 130 {
                                            SpdxLicense::EUDatagrid
                                        } else {
                                            SpdxLicense::Eupl1
                                        }
                                    }
                                } else {
                                    if p < 132 {
                                        SpdxLicense::Eupl1_1
                                    } else {
                                        if p < 133 {
                                            SpdxLicense::Eupl1_2
                                        } else {
                                            SpdxLicense::Entessa
                                        }
                                    }
                                }
                            } else {
                                if p < 137 {
                                    if p < 135 {
                                        SpdxLicense::ErlPl1_1
                                    } else {
                                        if p < 136 {
                                            SpdxLicense::Eurosym
                                        } else {
                                            SpdxLicense::Fsfap
                                        }
                                    }
                                } else {
                                    if p < 138 {
                                        SpdxLicense::Fsful
                                    } else {
                                        if p < 139 {
                                            SpdxLicense::Fsfullr
                                        } else {
                                            SpdxLicense::Ftl
                                        }
                                    }
                                }
                            }
                        }
                    }
                } else {
                    if p < 163 {
                        if p < 151 {
                            if p < 145 {
                                if p < 142 {
                                    if p < 141 {
                                        SpdxLicense::Fair
                                    } else {
                                        SpdxLicense::Frameworx1
                                    }
                                } else {
                                    if p < 143 {
                                        SpdxLicense::FreeImage
                                    } else {
                                        if p < 144 {
                                            SpdxLicense::Gfdl1_1Only
                                        } else {
                                            SpdxLicense::Gfdl1_1OrLater
                                        }
                                    }
                                }
                            } else {
                                if p < 148 {
                                    if p < 146 {
                                        SpdxLicense::Gfdl1_2Only
                                    } else {
                                        if p < 147 {
                                            SpdxLicense::Gfdl1_2OrLater
                                        } else {
                                            SpdxLicense::Gfdl1_3Only
                                        }
                                    }
                                } else {
                                    if p < 149 {
                                        SpdxLicense::Gfdl1_3OrLater
                                    } else {
                                        if p < 150 {
                                            SpdxLicense::GL2Ps
                                        } else {
                                            SpdxLicense::Gpl1Only
                                        }
                                    }
                                }
                            }
                        } else {
                            if p < 157 {
                                if p < 154 {
                                    if p < 152 {
                                        SpdxLicense::Gpl1OrLater
                                    } else {
                                        if p < 153 {
                                            SpdxLicense::Gpl2Only
                                        } else {
                                            SpdxLicense::Gpl2OrLater
                                        }
                                    }
                                } else {
                                    if p < 155 {
                                        SpdxLicense::Gpl3Only
                                    } else {
                                        if p < 156 {
                                            SpdxLicense::Gpl3OrLater
                                        } else {
                                            SpdxLicense::Giftware
                                        }
                                    }
                                }
                            } else {
                                if p < 160 {
                                    if p < 158 {
                                        SpdxLicense::Glide
                                    } else {
                                        if p < 159 {
                                            SpdxLicense::Glulxe
                                        } else {
                                            SpdxLicense::Hpnd
                                        }
                                    }
                                } else {
                                    if p < 161 {
                                        SpdxLicense::HpndSellVariant
                                    } else {
                                        if p < 162 {
                                            SpdxLicense::HaskellReport
                                        } else {
                                            SpdxLicense::IbmPibs
                                        }
                                    }
                                }
                            }
                        }
                    } else {
                        if p < 175 {
                            if p < 169 {
                                if p < 166 {
                                    if p < 164 {
                                        SpdxLicense::Icu
                                    } else {
                                        if p < 165 {
                                            SpdxLicense::Ijg
                                        } else {
                                            SpdxLicense::Ipa
                                        }
                                    }
                                } else {
                                    if p < 167 {
                                        SpdxLicense::Ipl1
                                    } else {
                                        if p < 168 {
                                            SpdxLicense::Isc
                                        } else {
                                            SpdxLicense::ImageMagick
                                        }
                                    }
                                }
                            } else {
                                if p < 172 {
                                    if p < 170 {
                                        SpdxLicense::Imlib2
                                    } else {
                                        if p < 171 {
                                            SpdxLicense::InfoZip
                                        } else {
                                            SpdxLicense::Intel
                                        }
                                    }
                                } else {
                                    if p < 173 {
                                        SpdxLicense::IntelAcpi
                                    } else {
                                        if p < 174 {
                                            SpdxLicense::Interbase1
                                        } else {
                                            SpdxLicense::Jpnic
                                        }
                                    }
                                }
                            }
                        } else {
                            if p < 181 {
                                if p < 178 {
                                    if p < 176 {
                                        SpdxLicense::Json
                                    } else {
                                        if p < 177 {
                                            SpdxLicense::JasPer2
                                        } else {
                                            SpdxLicense::Lal1_2
                                        }
                                    }
                                } else {
                                    if p < 179 {
                                        SpdxLicense::Lal1_3
                                    } else {
                                        if p < 180 {
                                            SpdxLicense::Lgpl2Only
                                        } else {
                                            SpdxLicense::Lgpl2OrLater
                                        }
                                    }
                                }
                            } else {
                                if p < 184 {
                                    if p < 182 {
                                        SpdxLicense::Lgpl2_1Only
                                    } else {
                                        if p < 183 {
                                            SpdxLicense::Lgpl2_1OrLater
                                        } else {
                                            SpdxLicense::Lgpl3Only
                                        }
                                    }
                                } else {
                                    if p < 185 {
                                        SpdxLicense::Lgpl3OrLater
                                    } else {
                                        if p < 186 {
                                            SpdxLicense::Lgpllr
                                        } else {
                                            SpdxLicense::Lpl1
                                        }
                                    }
                                }
                            }
                        }
                    }
                }
            }
        } else {
            if p < 280 {
                if p < 233 {
                    if p < 210 {
                        if p < 198 {
                            if p < 192 {
                                if p < 189 {
                                    if p < 188 {
                                        SpdxLicense::Lpl1_02
                                    } else {
                                        SpdxLicense::Lppl1
                                    }
                                } else {
                                    if p < 190 {
                                        SpdxLicense::Lppl1_1
                                    } else {
                                        if p < 191 {
                                            SpdxLicense::Lppl1_2
                                        } else {
                                            SpdxLicense::Lppl1_3a
                                        }
                                    }
                                }
                            } else {
                                if p < 195 {
                                    if p < 193 {
                                        SpdxLicense::Lppl1_3c
                                    } else {
                                        if p < 194 {
                                            SpdxLicense::Latex2e
                                        } else {
                                            SpdxLicense::Leptonica
                                        }
                                    }
                                } else {
                                    if p < 196 {
                                        SpdxLicense::LiLiQP1_1
                                    } else {
                                        if p < 197 {
                                            SpdxLicense::LiLiQR1_1
                                        } else {
                                            SpdxLicense::LiLiQRplus1_1
                                        }
                                    }
                                }
                            }
                        } else {
                            if p < 204 {
                                if p < 201 {
                                    if p < 199 {
                                        SpdxLicense::Libpng
                                    } else {
                                        if p < 200 {
                                            SpdxLicense::LinuxOpenIb
                                        } else {
                                            SpdxLicense::Mit
                                        }
                                    }
                                } else {
                                    if p < 202 {
                                        SpdxLicense::Mit0
                                    } else {
                                        if p < 203 {
                                            SpdxLicense::MitCmu
                                        } else {
                                            SpdxLicense::MitAdvertising
                                        }
                                    }
                                }
                            } else {
                                if p < 207 {
                                    if p < 205 {
                                        SpdxLicense::MitEnna
                                    } else {
                                        if p < 206 {
                                            SpdxLicense::MitFeh
                                        } else {
                                            SpdxLicense::Mitnfa
                                        }
                                    }
                                } else {
                                    if p < 208 {
                                        SpdxLicense::Mpl1
                                    } else {
                                        if p < 209 {
                                            SpdxLicense::Mpl1_1
                                        } else {
                                            SpdxLicense::Mpl2
                                        }
                                    }
                                }
                            }
                        }
                    } else {
                        if p < 221 {
                            if p < 215 {
                                if p < 212 {
                                    if p < 211 {
                                        SpdxLicense::Mpl2NoCopyleftException
                                    } else {
                                        SpdxLicense::MsPl
                                    }
                                } else {
                                    if p < 213 {
                                        SpdxLicense::MsRl
                                    } else {
                                        if p < 214 {
                                            SpdxLicense::Mtll
                                        } else {
                                            SpdxLicense::MakeIndex
                                        }
                                    }
                                }
                            } else {
                                if p < 218 {
                                    if p < 216 {
                                        SpdxLicense::MirOs
                                    } else {
                                        if p < 217 {
                                            SpdxLicense::Motosoto
                                        } else {
                                            SpdxLicense::MulanPsl1
                                        }
                                    }
                                } else {
                                    if p < 219 {
                                        SpdxLicense::Multics
                                    } else {
                                        if p < 220 {
                                            SpdxLicense::Mup
                                        } else {
                                            SpdxLicense::Nasa1_3
                                        }
                                    }
                                }
                            }
                        } else {
                            if p < 227 {
                                if p < 224 {
                                    if p < 222 {
                                        SpdxLicense::Nbpl1
                                    } else {
                                        if p < 223 {
                                            SpdxLicense::Ncsa
                                        } else {
                                            SpdxLicense::Ngpl
                                        }
                                    }
                                } else {
                                    if p < 225 {
                                        SpdxLicense::Nlod1
                                    } else {
                                        if p < 226 {
                                            SpdxLicense::Nlpl
                                        } else {
                                            SpdxLicense::Nosl
                                        }
                                    }
                                }
                            } else {
                                if p < 230 {
                                    if p < 228 {
                                        SpdxLicense::Npl1
                                    } else {
                                        if p < 229 {
                                            SpdxLicense::Npl1_1
                                        } else {
                                            SpdxLicense::Nposl3
                                        }
                                    }
                                } else {
                                    if p < 231 {
                                        SpdxLicense::Nrl
                                    } else {
                                        if p < 232 {
                                            SpdxLicense::Ntp
                                        } else {
                                            SpdxLicense::Naumen
                                        }
                                    }
                                }
                            }
                        }
                    }
                } else {
                    if p < 256 {
                        if p < 244 {
                            if p < 238 {
                                if p < 235 {
                                    if p < 234 {
                                        SpdxLicense::NetSnmp
                                    } else {
                                        SpdxLicense::NetCdf
                                    }
                                } else {
                                    if p < 236 {
                                        SpdxLicense::Newsletr
                                    } else {
                                        if p < 237 {
                                            SpdxLicense::Nokia
                                        } else {
                                            SpdxLicense::Noweb
                                        }
                                    }
                                }
                            } else {
                                if p < 241 {
                                    if p < 239 {
                                        SpdxLicense::OcctPl
                                    } else {
                                        if p < 240 {
                                            SpdxLicense::Oclc2
                                        } else {
                                            SpdxLicense::OdcBy1
                                        }
                                    }
                                } else {
                                    if p < 242 {
                                        SpdxLicense::ODbL1
                                    } else {
                                        if p < 243 {
                                            SpdxLicense::Ofl1
                                        } else {
                                            SpdxLicense::Ofl1_1
                                        }
                                    }
                                }
                            }
                        } else {
                            if p < 250 {
                                if p < 247 {
                                    if p < 245 {
                                        SpdxLicense::OglCanada2
                                    } else {
                                        if p < 246 {
                                            SpdxLicense::OglUk1
                                        } else {
                                            SpdxLicense::OglUk2
                                        }
                                    }
                                } else {
                                    if p < 248 {
                                        SpdxLicense::OglUk3
                                    } else {
                                        if p < 249 {
                                            SpdxLicense::Ogtsl
                                        } else {
                                            SpdxLicense::Oldap1_1
                                        }
                                    }
                                }
                            } else {
                                if p < 253 {
                                    if p < 251 {
                                        SpdxLicense::Oldap1_2
                                    } else {
                                        if p < 252 {
                                            SpdxLicense::Oldap1_3
                                        } else {
                                            SpdxLicense::Oldap1_4
                                        }
                                    }
                                } else {
                                    if p < 254 {
                                        SpdxLicense::Oldap2
                                    } else {
                                        if p < 255 {
                                            SpdxLicense::Oldap2_0_1
                                        } else {
                                            SpdxLicense::Oldap2_1
                                        }
                                    }
                                }
                            }
                        }
                    } else {
                        if p < 268 {
                            if p < 262 {
                                if p < 259 {
                                    if p < 257 {
                                        SpdxLicense::Oldap2_2
                                    } else {
                                        if p < 258 {
                                            SpdxLicense::Oldap2_2_1
                                        } else {
                                            SpdxLicense::Oldap2_2_2
                                        }
                                    }
                                } else {
                                    if p < 260 {
                                        SpdxLicense::Oldap2_3
                                    } else {
                                        if p < 261 {
                                            SpdxLicense::Oldap2_4
                                        } else {
                                            SpdxLicense::Oldap2_5
                                        }
                                    }
                                }
                            } else {
                                if p < 265 {
                                    if p < 263 {
                                        SpdxLicense::Oldap2_6
                                    } else {
                                        if p < 264 {
                                            SpdxLicense::Oldap2_7
                                        } else {
                                            SpdxLicense::Oldap2_8
                                        }
                                    }
                                } else {
                                    if p < 266 {
                                        SpdxLicense::Oml
                                    } else {
                                        if p < 267 {
                                            SpdxLicense::Opl1
                                        } else {
                                            SpdxLicense::OsetPl2_1
                                        }
                                    }
                                }
                            }
                        } else {
                            if p < 274 {
                                if p < 271 {
                                    if p < 269 {
                                        SpdxLicense::Osl1
                                    } else {
                                        if p < 270 {
                                            SpdxLicense::Osl1_1
                                        } else {
                                            SpdxLicense::Osl2
                                        }
                                    }
                                } else {
                                    if p < 272 {
                                        SpdxLicense::Osl2_1
                                    } else {
                                        if p < 273 {
                                            SpdxLicense::Osl3
                                        } else {
                                            SpdxLicense::OpenSsl
                                        }
                                    }
                                }
                            } else {
                                if p < 277 {
                                    if p < 275 {
                                        SpdxLicense::Pddl1
                                    } else {
                                        if p < 276 {
                                            SpdxLicense::Parity6
                                        } else {
                                            SpdxLicense::Plexus
                                        }
                                    }
                                } else {
                                    if p < 278 {
                                        SpdxLicense::PostgreSql
                                    } else {
                                        if p < 279 {
                                            SpdxLicense::Python2
                                        } else {
                                            SpdxLicense::Qpl1
                                        }
                                    }
                                }
                            }
                        }
                    }
                }
            } else {
                if p < 327 {
                    if p < 303 {
                        if p < 291 {
                            if p < 285 {
                                if p < 282 {
                                    if p < 281 {
                                        SpdxLicense::Qhull
                                    } else {
                                        SpdxLicense::RHeCos1_1
                                    }
                                } else {
                                    if p < 283 {
                                        SpdxLicense::Rpl1_1
                                    } else {
                                        if p < 284 {
                                            SpdxLicense::Rpl1_5
                                        } else {
                                            SpdxLicense::Rpsl1
                                        }
                                    }
                                }
                            } else {
                                if p < 288 {
                                    if p < 286 {
                                        SpdxLicense::RsaMd
                                    } else {
                                        if p < 287 {
                                            SpdxLicense::Rscpl
                                        } else {
                                            SpdxLicense::Rdisc
                                        }
                                    }
                                } else {
                                    if p < 289 {
                                        SpdxLicense::Ruby
                                    } else {
                                        if p < 290 {
                                            SpdxLicense::SaxPd
                                        } else {
                                            SpdxLicense::Scea
                                        }
                                    }
                                }
                            }
                        } else {
                            if p < 297 {
                                if p < 294 {
                                    if p < 292 {
                                        SpdxLicense::SgiB1
                                    } else {
                                        if p < 293 {
                                            SpdxLicense::SgiB1_1
                                        } else {
                                            SpdxLicense::SgiB2
                                        }
                                    }
                                } else {
                                    if p < 295 {
                                        SpdxLicense::Shl0_5
                                    } else {
                                        if p < 296 {
                                            SpdxLicense::Shl0_51
                                        } else {
                                            SpdxLicense::Sissl
                                        }
                                    }
                                }
                            } else {
                                if p < 300 {
                                    if p < 298 {
                                        SpdxLicense::Sissl1_2
                                    } else {
                                        if p < 299 {
                                            SpdxLicense::Smlnj
                                        } else {
                                            SpdxLicense::Smppl
                                        }
                                    }
                                } else {
                                    if p < 301 {
                                        SpdxLicense::Snia
                                    } else {
                                        if p < 302 {
                                            SpdxLicense::Spl1
                                        } else {
                                            SpdxLicense::SshOpenSsh
                                        }
                                    }
                                }
                            }
                        }
                    } else {
                        if p < 315 {
                            if p < 309 {
                                if p < 306 {
                                    if p < 304 {
                                        SpdxLicense::SshShort
                                    } else {
                                        if p < 305 {
                                            SpdxLicense::Sspl1
                                        } else {
                                            SpdxLicense::Swl
                                        }
                                    }
                                } else {
                                    if p < 307 {
                                        SpdxLicense::Saxpath
                                    } else {
                                        if p < 308 {
                                            SpdxLicense::Sendmail
                                        } else {
                                            SpdxLicense::Sendmail8_23
                                        }
                                    }
                                }
                            } else {
                                if p < 312 {
                                    if p < 310 {
                                        SpdxLicense::SimPl2
                                    } else {
                                        if p < 311 {
                                            SpdxLicense::Sleepycat
                                        } else {
                                            SpdxLicense::Spencer86
                                        }
                                    }
                                } else {
                                    if p < 313 {
                                        SpdxLicense::Spencer94
                                    } else {
                                        if p < 314 {
                                            SpdxLicense::Spencer99
                                        } else {
                                            SpdxLicense::SugarCrm1_1_3
                                        }
                                    }
                                }
                            }
                        } else {
                            if p < 321 {
                                if p < 318 {
                                    if p < 316 {
                                        SpdxLicense::TaprOhl1
                                    } else {
                                        if p < 317 {
                                            SpdxLicense::Tcl
                                        } else {
                                            SpdxLicense::TcpWrappers
                                        }
                                    }
                                } else {
                                    if p < 319 {
                                        SpdxLicense::TMate
                                    } else {
                                        if p < 320 {
                                            SpdxLicense::Torque1_1
                                        } else {
                                            SpdxLicense::Tosl
                                        }
                                    }
                                }
                            } else {
                                if p < 324 {
                                    if p < 322 {
                                        SpdxLicense::TuBerlin1
                                    } else {
                                        if p < 323 {
                                            SpdxLicense::TuBerlin2
                                        } else {
                                            SpdxLicense::Ucl1
                                        }
                                    }
                                } else {
                                    if p < 325 {
                                        SpdxLicense::Upl1
                                    } else {
                                        if p < 326 {
                                            SpdxLicense::UnicodeDfs2015
                                        } else {
                                            SpdxLicense::UnicodeDfs2016
                                        }
                                    }
                                }
                            }
                        }
                    }
                } else {
                    if p < 350 {
                        if p < 338 {
                            if p < 332 {
                                if p < 329 {
                                    if p < 328 {
                                        SpdxLicense::UnicodeTou
                                    } else {
                                        SpdxLicense::Unlicense
                                    }
                                } else {
                                    if p < 330 {
                                        SpdxLicense::Vostrom
                                    } else {
                                        if p < 331 {
                                            SpdxLicense::Vsl1
                                        } else {
                                            SpdxLicense::Vim
                                        }
                                    }
                                }
                            } else {
                                if p < 335 {
                                    if p < 333 {
                                        SpdxLicense::W3C
                                    } else {
                                        if p < 334 {
                                            SpdxLicense::W3C19980720
                                        } else {
                                            SpdxLicense::W3C20150513
                                        }
                                    }
                                } else {
                                    if p < 336 {
                                        SpdxLicense::Wtfpl
                                    } else {
                                        if p < 337 {
                                            SpdxLicense::Watcom1
                                        } else {
                                            SpdxLicense::Wsuipa
                                        }
                                    }
                                }
                            }
                        } else {
                            if p < 344 {
                                if p < 341 {
                                    if p < 339 {
                                        SpdxLicense::X11
                                    } else {
                                        if p < 340 {
                                            SpdxLicense::XFree861_1
                                        } else {
                                            SpdxLicense::XSkat
                                        }
                                    }
                                } else {
                                    if p < 342 {
                                        SpdxLicense::Xerox
                                    } else {
                                        if p < 343 {
                                            SpdxLicense::Xnet
                                        } else {
                                            SpdxLicense::Ypl1
                                        }
                                    }
                                }
                            } else {
                                if p < 347 {
                                    if p < 345 {
                                        SpdxLicense::Ypl1_1
                                    } else {
                                        if p < 346 {
                                            SpdxLicense::Zpl1_1
                                        } else {
                                            SpdxLicense::Zpl2
                                        }
                                    }
                                } else {
                                    if p < 348 {
                                        SpdxLicense::Zpl2_1
                                    } else {
                                        if p < 349 {
                                            SpdxLicense::Zed
                                        } else {
                                            SpdxLicense::Zend2
                                        }
                                    }
                                }
                            }
                        }
                    } else {
                        if p < 362 {
                            if p < 356 {
                                if p < 353 {
                                    if p < 351 {
                                        SpdxLicense::Zimbra1_3
                                    } else {
                                        if p < 352 {
                                            SpdxLicense::Zimbra1_4
                                        } else {
                                            SpdxLicense::Zlib
                                        }
                                    }
                                } else {
                                    if p < 354 {
                                        SpdxLicense::Blessing
                                    } else {
                                        if p < 355 {
                                            SpdxLicense::Bzip21_0_5
                                        } else {
                                            SpdxLicense::Bzip21_0_6
                                        }
                                    }
                                }
                            } else {
                                if p < 359 {
                                    if p < 357 {
                                        SpdxLicense::CopyleftNext0_3
                                    } else {
                                        if p < 358 {
                                            SpdxLicense::CopyleftNext0_3_1
                                        } else {
                                            SpdxLicense::Curl
                                        }
                                    }
                                } else {
                                    if p < 360 {
                                        SpdxLicense::Diffmark
                                    } else {
                                        if p < 361 {
                                            SpdxLicense::Dvipdfm
                                        } else {
                                            SpdxLicense::EGenix
                                        }
                                    }
                                }
                            }
                        } else {
                            if p < 368 {
                                if p < 365 {
                                    if p < 363 {
                                        SpdxLicense::Etalab2
                                    } else {
                                        if p < 364 {
                                            SpdxLicense::GSoap1_3b
                                        } else {
                                            SpdxLicense::Gnuplot
                                        }
                                    }
                                } else {
                                    if p < 366 {
                                        SpdxLicense::IMatix
                                    } else {
                                        if p < 367 {
                                            SpdxLicense::Libpng2
                                        } else {
                                            SpdxLicense::Libtiff
                                        }
                                    }
                                }
                            } else {
                                if p < 371 {
                                    if p < 369 {
                                        SpdxLicense::Mpich2
                                    } else {
                                        if p < 370 {
                                            SpdxLicense::Psfrag
                                        } else {
                                            SpdxLicense::Psutils
                                        }
                                    }
                                } else {
                                    if p < 372 {
                                        SpdxLicense::Xinetd
                                    } else {
                                        if p < 373 {
                                            SpdxLicense::Xpp
                                        } else {
                                            SpdxLicense::ZlibAcknowledgement
                                        }
                                    }
                                }
                            }
                        }
                    }
                }
            }
        }
    }

    /// Returns the ordinal of this license.
    pub fn index(self) -> (r: usize)
        ensures
            r == self.ordinal(),
    {
        match self {
            SpdxLicense::Bsd0 => 0,
            SpdxLicense::Aal => 1,
            SpdxLicense::Abstyles => 2,
            SpdxLicense::Adobe2006 => 3,
            SpdxLicense::AdobeGlyph => 4,
            SpdxLicense::Adsl => 5,
            SpdxLicense::Afl1_1 => 6,
            SpdxLicense::Afl1_2 => 7,
            SpdxLicense::Afl2 => 8,
            SpdxLicense::Afl2_1 => 9,
            SpdxLicense::Afl3 => 10,
            SpdxLicense::Afmparse => 11,
            SpdxLicense::Agpl1Only => 12,
            SpdxLicense::Agpl1OrLater => 13,
            SpdxLicense::Agpl3Only => 14,
            SpdxLicense::Agpl3OrLater => 15,
            SpdxLicense::Aladdin => 16,
            SpdxLicense::Amdplpa => 17,
            SpdxLicense::Aml => 18,
            SpdxLicense::Ampas => 19,
            SpdxLicense::AntlrPd => 20,
            SpdxLicense::Apache1 => 21,
            SpdxLicense::Apache1_1 => 22,
            SpdxLicense::Apache2 => 23,
            SpdxLicense::Apafml => 24,
            SpdxLicense::Apl1 => 25,
            SpdxLicense::Apsl1 => 26,
            SpdxLicense::Apsl1_1 => 27,
            SpdxLicense::Apsl1_2 => 28,
            SpdxLicense::Apsl2 => 29,
            SpdxLicense::Artistic1 => 30,
            SpdxLicense::Artistic1Cl8 => 31,
            SpdxLicense::Artistic1Perl => 32,
            SpdxLicense::Artistic2 => 33,
            SpdxLicense::Bahyph => 34,
            SpdxLicense::Barr => 35,
            SpdxLicense::Beerware => 36,
            SpdxLicense::BitTorrent1 => 37,
            SpdxLicense::BitTorrent1_1 => 38,
            SpdxLicense::Blessing => 39,
            SpdxLicense::BlueOak1 => 40,
            SpdxLicense::Borceux => 41,
            SpdxLicense::Bsd1Clause => 42,
            SpdxLicense::Bsd2Clause => 43,
            SpdxLicense::Bsd2ClauseFreeBsd => 44,
            SpdxLicense::Bsd2ClauseNetBsd => 45,
            SpdxLicense::Bsd2ClausePatent => 46,
            SpdxLicense::Bsd3Clause => 47,
            SpdxLicense::Bsd3ClauseAttribution => 48,
            SpdxLicense::Bsd3ClauseClear => 49,
            SpdxLicense::Bsd3ClauseLbnl => 50,
            SpdxLicense::Bsd3ClauseNoNuclearLicense => 51,
            SpdxLicense::Bsd3ClauseNoNuclearLicense2014 => 52,
            SpdxLicense::Bsd3ClauseNoNuclearWarranty => 53,
            SpdxLicense::Bsd3ClauseOpenMpi => 54,
            SpdxLicense::Bsd4Clause => 55,
            SpdxLicense::Bsd4ClauseUc => 56,
            SpdxLicense::BsdProtection => 57,
            SpdxLicense::BsdSourceCode => 58,
            SpdxLicense::Bsl1 => 59,
            SpdxLicense::Bzip21_0_5 => 60,
            SpdxLicense::Bzip21_0_6 => 61,
            SpdxLicense::Caldera => 62,
            SpdxLicense::Catosl1_1 => 63,
            SpdxLicense::CcBy1 => 64,
            SpdxLicense::CcBy2 => 65,
            SpdxLicense::CcBy2_5 => 66,
            SpdxLicense::CcBy3 => 67,
            SpdxLicense::CcBy4 => 68,
            SpdxLicense::CcByNc1 => 69,
            SpdxLicense::CcByNc2 => 70,
            SpdxLicense::CcByNc2_5 => 71,
            SpdxLicense::CcByNc3 => 72,
            SpdxLicense::CcByNc4 => 73,
            SpdxLicense::CcByNcNd1 => 74,
            SpdxLicense::CcByNcNd2 => 75,
            SpdxLicense::CcByNcNd2_5 => 76,
            SpdxLicense::CcByNcNd3 => 77,
            SpdxLicense::CcByNcNd4 => 78,
            SpdxLicense::CcByNcSa1 => 79,
            SpdxLicense::CcByNcSa2 => 80,
            SpdxLicense::CcByNcSa2_5 => 81,
            SpdxLicense::CcByNcSa3 => 82,
            SpdxLicense::CcByNcSa4 => 83,
            SpdxLicense::CcByNd1 => 84,
            SpdxLicense::CcByNd2 => 85,
            SpdxLicense::CcByNd2_5 => 86,
            SpdxLicense::CcByNd3 => 87,
            SpdxLicense::CcByNd4 => 88,
            SpdxLicense::CcBySa1 => 89,
            SpdxLicense::CcBySa2 => 90,
            SpdxLicense::CcBySa2_5 => 91,
            SpdxLicense::CcBySa3 => 92,
            SpdxLicense::CcBySa4 => 93,
            SpdxLicense::CcPddc => 94,
            SpdxLicense::CC01 => 95,
            SpdxLicense::Cddl1 => 96,
            SpdxLicense::Cddl1_1 => 97,
            SpdxLicense::CdlaPermissive1 => 98,
            SpdxLicense::CdlaSharing1 => 99,
            SpdxLicense::Cecill1 => 100,
            SpdxLicense::Cecill1_1 => 101,
            SpdxLicense::Cecill2 => 102,
            SpdxLicense::Cecill2_1 => 103,
            SpdxLicense::CecillB => 104,
            SpdxLicense::CecillC => 105,
            SpdxLicense::CernOhl1_1 => 106,
            SpdxLicense::CernOhl1_2 => 107,
            SpdxLicense::ClArtistic => 108,
            SpdxLicense::CnriJython => 109,
            SpdxLicense::CnriPython => 110,
            SpdxLicense::CnriPythonGplCompatible => 111,
            SpdxLicense::Condor1_1 => 112,
            SpdxLicense::CopyleftNext0_3 => 113,
            SpdxLicense::CopyleftNext0_3_1 => 114,
            SpdxLicense::Cpal1 => 115,
            SpdxLicense::Cpl1 => 116,
            SpdxLicense::Cpol1_02 => 117,
            SpdxLicense::Crossword => 118,
            SpdxLicense::CrystalStacker => 119,
            SpdxLicense::CuaOpl1 => 120,
            SpdxLicense::Cube => 121,
            SpdxLicense::Curl => 122,
            SpdxLicense::DFsl1 => 123,
            SpdxLicense::Diffmark => 124,
            SpdxLicense::Doc => 125,
            SpdxLicense::Dotseqn => 126,
            SpdxLicense::Dsdp => 127,
            SpdxLicense::Dvipdfm => 128,
            SpdxLicense::Ecl1 => 129,
            SpdxLicense::Ecl2 => 130,
            SpdxLicense::Efl1 => 131,
            SpdxLicense::Efl2 => 132,
            SpdxLicense::EGenix => 133,
            SpdxLicense::Entessa => 134,
            SpdxLicense::Epl1 => 135,
            SpdxLicense::Epl2 => 136,
            SpdxLicense::ErlPl1_1 => 137,
            SpdxLicense::Etalab2 => 138,
            SpdxLicense::EUDatagrid => 139,
            SpdxLicense::Eupl1 => 140,
            SpdxLicense::Eupl1_1 => 141,
            SpdxLicense::Eupl1_2 => 142,
            SpdxLicense::Eurosym => 143,
            SpdxLicense::Fair => 144,
            SpdxLicense::Frameworx1 => 145,
            SpdxLicense::FreeImage => 146,
            SpdxLicense::Fsfap => 147,
            SpdxLicense::Fsful => 148,
            SpdxLicense::Fsfullr => 149,
            SpdxLicense::Ftl => 150,
            SpdxLicense::Gfdl1_1Only => 151,
            SpdxLicense::Gfdl1_1OrLater => 152,
            SpdxLicense::Gfdl1_2Only => 153,
            SpdxLicense::Gfdl1_2OrLater => 154,
            SpdxLicense::Gfdl1_3Only => 155,
            SpdxLicense::Gfdl1_3OrLater => 156,
            SpdxLicense::Giftware => 157,
            SpdxLicense::GL2Ps => 158,
            SpdxLicense::Glide => 159,
            SpdxLicense::Glulxe => 160,
            SpdxLicense::Gnuplot => 161,
            SpdxLicense::Gpl1Only => 162,
            SpdxLicense::Gpl1OrLater => 163,
            SpdxLicense::Gpl2Only => 164,
            SpdxLicense::Gpl2OrLater => 165,
            SpdxLicense::Gpl3Only => 166,
            SpdxLicense::Gpl3OrLater => 167,
            SpdxLicense::GSoap1_3b => 168,
            SpdxLicense::HaskellReport => 169,
            SpdxLicense::Hpnd => 170,
            SpdxLicense::HpndSellVariant => 171,
            SpdxLicense::IbmPibs => 172,
            SpdxLicense::Icu => 173,
            SpdxLicense::Ijg => 174,
            SpdxLicense::ImageMagick => 175,
            SpdxLicense::IMatix => 176,
            SpdxLicense::Imlib2 => 177,
            SpdxLicense::InfoZip => 178,
            SpdxLicense::Intel => 179,
            SpdxLicense::IntelAcpi => 180,
            SpdxLicense::Interbase1 => 181,
            SpdxLicense::Ipa => 182,
            SpdxLicense::Ipl1 => 183,
            SpdxLicense::Isc => 184,
            SpdxLicense::JasPer2 => 185,
            SpdxLicense::Jpnic => 186,
            SpdxLicense::Json => 187,
            SpdxLicense::Lal1_2 => 188,
            SpdxLicense::Lal1_3 => 189,
            SpdxLicense::Latex2e => 190,
            SpdxLicense::Leptonica => 191,
            SpdxLicense::Lgpl2Only => 192,
            SpdxLicense::Lgpl2OrLater => 193,
            SpdxLicense::Lgpl2_1Only => 194,
            SpdxLicense::Lgpl2_1OrLater => 195,
            SpdxLicense::Lgpl3Only => 196,
            SpdxLicense::Lgpl3OrLater => 197,
            SpdxLicense::Lgpllr => 198,
            SpdxLicense::Libpng => 199,
            SpdxLicense::Libpng2 => 200,
            SpdxLicense::Libtiff => 201,
            SpdxLicense::LiLiQP1_1 => 202,
            SpdxLicense::LiLiQR1_1 => 203,
            SpdxLicense::LiLiQRplus1_1 => 204,
            SpdxLicense::LinuxOpenIb => 205,
            SpdxLicense::Lpl1 => 206,
            SpdxLicense::Lpl1_02 => 207,
            SpdxLicense::Lppl1 => 208,
            SpdxLicense::Lppl1_1 => 209,
            SpdxLicense::Lppl1_2 => 210,
            SpdxLicense::Lppl1_3a => 211,
            SpdxLicense::Lppl1_3c => 212,
            SpdxLicense::MakeIndex => 213,
            SpdxLicense::MirOs => 214,
            SpdxLicense::Mit => 215,
            SpdxLicense::Mit0 => 216,
            SpdxLicense::MitAdvertising => 217,
            SpdxLicense::MitCmu => 218,
            SpdxLicense::MitEnna => 219,
            SpdxLicense::MitFeh => 220,
            SpdxLicense::Mitnfa => 221,
            SpdxLicense::Motosoto => 222,
            SpdxLicense::Mpich2 => 223,
            SpdxLicense::Mpl1 => 224,
            SpdxLicense::Mpl1_1 => 225,
            SpdxLicense::Mpl2 => 226,
            SpdxLicense::Mpl2NoCopyleftException => 227,
            SpdxLicense::MsPl => 228,
            SpdxLicense::MsRl => 229,
            SpdxLicense::Mtll => 230,
            SpdxLicense::MulanPsl1 => 231,
            SpdxLicense::Multics => 232,
            SpdxLicense::Mup => 233,
            SpdxLicense::Nasa1_3 => 234,
            SpdxLicense::Naumen => 235,
            SpdxLicense::Nbpl1 => 236,
            SpdxLicense::Ncsa => 237,
            SpdxLicense::NetSnmp => 238,
            SpdxLicense::NetCdf => 239,
            SpdxLicense::Newsletr => 240,
            SpdxLicense::Ngpl => 241,
            SpdxLicense::Nlod1 => 242,
            SpdxLicense::Nlpl => 243,
            SpdxLicense::Nokia => 244,
            SpdxLicense::Nosl => 245,
            SpdxLicense::Noweb => 246,
            SpdxLicense::Npl1 => 247,
            SpdxLicense::Npl1_1 => 248,
            SpdxLicense::Nposl3 => 249,
            SpdxLicense::Nrl => 250,
            SpdxLicense::Ntp => 251,
            SpdxLicense::OcctPl => 252,
            SpdxLicense::Oclc2 => 253,
            SpdxLicense::ODbL1 => 254,
            SpdxLicense::OdcBy1 => 255,
            SpdxLicense::Ofl1 => 256,
            SpdxLicense::Ofl1_1 => 257,
            SpdxLicense::OglCanada2 => 258,
            SpdxLicense::OglUk1 => 259,
            SpdxLicense::OglUk2 => 260,
            SpdxLicense::OglUk3 => 261,
            SpdxLicense::Ogtsl => 262,
            SpdxLicense::Oldap1_1 => 263,
            SpdxLicense::Oldap1_2 => 264,
            SpdxLicense::Oldap1_3 => 265,
            SpdxLicense::Oldap1_4 => 266,
            SpdxLicense::Oldap2 => 267,
            SpdxLicense::Oldap2_0_1 => 268,
            SpdxLicense::Oldap2_1 => 269,
            SpdxLicense::Oldap2_2 => 270,
            SpdxLicense::Oldap2_2_1 => 271,
            SpdxLicense::Oldap2_2_2 => 272,
            SpdxLicense::Oldap2_3 => 273,
            SpdxLicense::Oldap2_4 => 274,
            SpdxLicense::Oldap2_5 => 275,
            SpdxLicense::Oldap2_6 => 276,
            SpdxLicense::Oldap2_7 => 277,
            SpdxLicense::Oldap2_8 => 278,
            SpdxLicense::Oml => 279,
            SpdxLicense::OpenSsl => 280,
            SpdxLicense::Opl1 => 281,
            SpdxLicense::OsetPl2_1 => 282,
            SpdxLicense::Osl1 => 283,
            SpdxLicense::Osl1_1 => 284,
            SpdxLicense::Osl2 => 285,
            SpdxLicense::Osl2_1 => 286,
            SpdxLicense::Osl3 => 287,
            SpdxLicense::Parity6 => 288,
            SpdxLicense::Pddl1 => 289,
            SpdxLicense::Php3 => 290,
            SpdxLicense::Php3_01 => 291,
            SpdxLicense::Plexus => 292,
            SpdxLicense::PostgreSql => 293,
            SpdxLicense::Psfrag => 294,
            SpdxLicense::Psutils => 295,
            SpdxLicense::Python2 => 296,
            SpdxLicense::Qhull => 297,
            SpdxLicense::Qpl1 => 298,
            SpdxLicense::Rdisc => 299,
            SpdxLicense::RHeCos1_1 => 300,
            SpdxLicense::Rpl1_1 => 301,
            SpdxLicense::Rpl1_5 => 302,
            SpdxLicense::Rpsl1 => 303,
            SpdxLicense::RsaMd => 304,
            SpdxLicense::Rscpl => 305,
            SpdxLicense::Ruby => 306,
            SpdxLicense::SaxPd => 307,
            SpdxLicense::Saxpath => 308,
            SpdxLicense::Scea => 309,
            SpdxLicense::Sendmail => 310,
            SpdxLicense::Sendmail8_23 => 311,
            SpdxLicense::SgiB1 => 312,
            SpdxLicense::SgiB1_1 => 313,
            SpdxLicense::SgiB2 => 314,
            SpdxLicense::Shl0_5 => 315,
            SpdxLicense::Shl0_51 => 316,
            SpdxLicense::SimPl2 => 317,
            SpdxLicense::Sissl => 318,
            SpdxLicense::Sissl1_2 => 319,
            SpdxLicense::Sleepycat => 320,
            SpdxLicense::Smlnj => 321,
            SpdxLicense::Smppl => 322,
            SpdxLicense::Snia => 323,
            SpdxLicense::Spencer86 => 324,
            SpdxLicense::Spencer94 => 325,
            SpdxLicense::Spencer99 => 326,
            SpdxLicense::Spl1 => 327,
            SpdxLicense::SshOpenSsh => 328,
            SpdxLicense::SshShort => 329,
            SpdxLicense::Sspl1 => 330,
            SpdxLicense::SugarCrm1_1_3 => 331,
            SpdxLicense::Swl => 332,
            SpdxLicense::TaprOhl1 => 333,
            SpdxLicense::Tcl => 334,
            SpdxLicense::TcpWrappers => 335,
            SpdxLicense::TMate => 336,
            SpdxLicense::Torque1_1 => 337,
            SpdxLicense::Tosl => 338,
            SpdxLicense::TuBerlin1 => 339,
            SpdxLicense::TuBerlin2 => 340,
            SpdxLicense::Ucl1 => 341,
            SpdxLicense::UnicodeDfs2015 => 342,
            SpdxLicense::UnicodeDfs2016 => 343,
            SpdxLicense::UnicodeTou => 344,
            SpdxLicense::Unlicense => 345,
            SpdxLicense::Upl1 => 346,
            SpdxLicense::Vim => 347,
            SpdxLicense::Vostrom => 348,
            SpdxLicense::Vsl1 => 349,
            SpdxLicense::W3C => 350,
            SpdxLicense::W3C19980720 => 351,
            SpdxLicense::W3C20150513 => 352,
            SpdxLicense::Watcom1 => 353,
            SpdxLicense::Wsuipa => 354,
            SpdxLicense::Wtfpl => 355,
            SpdxLicense::X11 => 356,
            SpdxLicense::Xerox => 357,
            SpdxLicense::XFree861_1 => 358,
            SpdxLicense::Xinetd => 359,
            SpdxLicense::Xnet => 360,
            SpdxLicense::Xpp => 361,
            SpdxLicense::XSkat => 362,
            SpdxLicense::Ypl1 => 363,
            SpdxLicense::Ypl1_1 => 364,
            SpdxLicense::Zed => 365,
            SpdxLicense::Zend2 => 366,
            SpdxLicense::Zimbra1_3 => 367,
            SpdxLicense::Zimbra1_4 => 368,
            SpdxLicense::Zlib => 369,
            SpdxLicense::ZlibAcknowledgement => 370,
            SpdxLicense::Zpl1_1 => 371,
            SpdxLicense::Zpl2 => 372,
            SpdxLicense::Zpl2_1 => 373,
        }
    }

    /// Returns the string identifier of this license.
    pub fn id(self) -> (r: &'static str)
        ensures
            r@ == self.spec_id(),
    {
        match self {
            SpdxLicense::Bsd0 => "BSD\u{a0}0",
            SpdxLicense::Aal => "AAL",
            SpdxLicense::Abstyles => "Abstyles",
            SpdxLicense::Adobe2006 => "Adobe-2006",
            SpdxLicense::AdobeGlyph => "Adobe-Glyph",
            SpdxLicense::Adsl => "ADSL",
            SpdxLicense::Afl1_1 => "AFL-1.1",
            SpdxLicense::Afl1_2 => "AFL-1.2",
            SpdxLicense::Afl2 => "AFL-2.0",
            SpdxLicense::Afl2_1 => "AFL-2.1",
            SpdxLicense::Afl3 => "AFL-3.0",
            SpdxLicense::Afmparse => "Afmparse",
            SpdxLicense::Agpl1Only => "AGPL-1.0-only",
            SpdxLicense::Agpl1OrLater => "AGPL-1.0-or-later",
            SpdxLicense::Agpl3Only => "AGPL-3.0-only",
            SpdxLicense::Agpl3OrLater => "AGPL-3.0-or-later",
            SpdxLicense::Aladdin => "Aladdin",
            SpdxLicense::Amdplpa => "AMDPLPA",
            SpdxLicense::Aml => "AML",
            SpdxLicense::Ampas => "AMPAS",
            SpdxLicense::AntlrPd => "ANTLR-PD",
            SpdxLicense::Apache1 => "Apache-1.0",
            SpdxLicense::Apache1_1 => "Apache-1.1",
            SpdxLicense::Apache2 => "Apache-2.0",
            SpdxLicense::Apafml => "APAFML",
            SpdxLicense::Apl1 => "APL-1.0",
            SpdxLicense::Apsl1 => "APSL-1.0",
            SpdxLicense::Apsl1_1 => "APSL-1.1",
            SpdxLicense::Apsl1_2 => "APSL-1.2",
            SpdxLicense::Apsl2 => "APSL-2.0",
            SpdxLicense::Artistic1 => "Artistic-1.0",
            SpdxLicense::Artistic1Cl8 => "Artistic-1.0-cl8",
            SpdxLicense::Artistic1Perl => "Artistic-1.0-Perl",
            SpdxLicense::Artistic2 => "Artistic-2.0",
            SpdxLicense::Bahyph => "Bahyph",
            SpdxLicense::Barr => "Barr",
            SpdxLicense::Beerware => "Beerware",
            SpdxLicense::BitTorrent1 => "BitTorrent-1.0",
            SpdxLicense::BitTorrent1_1 => "BitTorrent-1.1",
            SpdxLicense::Blessing => "blessing",
            SpdxLicense::BlueOak1 => "BlueOak-1.0.0",
            SpdxLicense::Borceux => "Borceux",
            SpdxLicense::Bsd1Clause => "BSD-1-Clause",
            SpdxLicense::Bsd2Clause => "BSD-2-Clause",
            SpdxLicense::Bsd2ClauseFreeBsd => "BSD-2-Clause-FreeBSD",
            SpdxLicense::Bsd2ClauseNetBsd => "BSD-2-Clause-NetBSD",
            SpdxLicense::Bsd2ClausePatent => "BSD-2-Clause-Patent",
            SpdxLicense::Bsd3Clause => "BSD-3-Clause",
            SpdxLicense::Bsd3ClauseAttribution => "BSD-3-Clause-Attribution",
            SpdxLicense::Bsd3ClauseClear => "BSD-3-Clause-Clear",
            SpdxLicense::Bsd3ClauseLbnl => "BSD-3-Clause-LBNL",
            SpdxLicense::Bsd3ClauseNoNuclearLicense => "BSD-3-Clause-No-Nuclear-License",
            SpdxLicense::Bsd3ClauseNoNuclearLicense2014 => "BSD-3-Clause-No-Nuclear-License-2014",
            SpdxLicense::Bsd3ClauseNoNuclearWarranty => "BSD-3-Clause-No-Nuclear-Warranty",
            SpdxLicense::Bsd3ClauseOpenMpi => "BSD-3-Clause-Open-MPI",
            SpdxLicense::Bsd4Clause => "BSD-4-Clause",
            SpdxLicense::Bsd4ClauseUc => "BSD-4-Clause-UC",
            SpdxLicense::BsdProtection => "BSD-Protection",
            SpdxLicense::BsdSourceCode => "BSD-Source-Code",
            SpdxLicense::Bsl1 => "BSL-1.0",
            SpdxLicense::Bzip21_0_5 => "bzip2-1.0.5",
            SpdxLicense::Bzip21_0_6 => "bzip2-1.0.6",
            SpdxLicense::Caldera => "Caldera",
            SpdxLicense::Catosl1_1 => "CATOSL-1.1",
            SpdxLicense::CcBy1 => "CC-BY-1.0",
            SpdxLicense::CcBy2 => "CC-BY-2.0",
            SpdxLicense::CcBy2_5 => "CC-BY-2.5",
            SpdxLicense::CcBy3 => "CC-BY-3.0",
            SpdxLicense::CcBy4 => "CC-BY-4.0",
            SpdxLicense::CcByNc1 => "CC-BY-NC-1.0",
            SpdxLicense::CcByNc2 => "CC-BY-NC-2.0",
            SpdxLicense::CcByNc2_5 => "CC-BY-NC-2.5",
            SpdxLicense::CcByNc3 => "CC-BY-NC-3.0",
            SpdxLicense::CcByNc4 => "CC-BY-NC-4.0",
            SpdxLicense::CcByNcNd1 => "CC-BY-NC-ND-1.0",
            SpdxLicense::CcByNcNd2 => "CC-BY-NC-ND-2.0",
            SpdxLicense::CcByNcNd2_5 => "CC-BY-NC-ND-2.5",
            SpdxLicense::CcByNcNd3 => "CC-BY-NC-ND-3.0",
            SpdxLicense::CcByNcNd4 => "CC-BY-NC-ND-4.0",
            SpdxLicense::CcByNcSa1 => "CC-BY-NC-SA-1.0",
            SpdxLicense::CcByNcSa2 => "CC-BY-NC-SA-2.0",
            SpdxLicense::CcByNcSa2_5 => "CC-BY-NC-SA-2.5",
            SpdxLicense::CcByNcSa3 => "CC-BY-NC-SA-3.0",
            SpdxLicense::CcByNcSa4 => "CC-BY-NC-SA-4.0",
            SpdxLicense::CcByNd1 => "CC-BY-ND-1.0",
            SpdxLicense::CcByNd2 => "CC-BY-ND-2.0",
            SpdxLicense::CcByNd2_5 => "CC-BY-ND-2.5",
            SpdxLicense::CcByNd3 => "CC-BY-ND-3.0",
            SpdxLicense::CcByNd4 => "CC-BY-ND-4.0",
            SpdxLicense::CcBySa1 => "CC-BY-SA-1.0",
            SpdxLicense::CcBySa2 => "CC-BY-SA-2.0",
            SpdxLicense::CcBySa2_5 => "CC-BY-SA-2.5",
            SpdxLicense::CcBySa3 => "CC-BY-SA-3.0",
            SpdxLicense::CcBySa4 => "CC-BY-SA-4.0",
            SpdxLicense::CcPddc => "CC-PDDC",
            SpdxLicense::CC01 => "CC0-1.0",
            SpdxLicense::Cddl1 => "CDDL-1.0",
            SpdxLicense::Cddl1_1 => "CDDL-1.1",
            SpdxLicense::CdlaPermissive1 => "CDLA-Permissive-1.0",
            SpdxLicense::CdlaSharing1 => "CDLA-Sharing-1.0",
            SpdxLicense::Cecill1 => "CECILL-1.0",
            SpdxLicense::Cecill1_1 => "CECILL-1.1",
            SpdxLicense::Cecill2 => "CECILL-2.0",
            SpdxLicense::Cecill2_1 => "CECILL-2.1",
            SpdxLicense::CecillB => "CECILL-B",
            SpdxLicense::CecillC => "CECILL-C",
            SpdxLicense::CernOhl1_1 => "CERN-OHL-1.1",
            SpdxLicense::CernOhl1_2 => "CERN-OHL-1.2",
            SpdxLicense::ClArtistic => "ClArtistic",
            SpdxLicense::CnriJython => "CNRI-Jython",
            SpdxLicense::CnriPython => "CNRI-Python",
            SpdxLicense::CnriPythonGplCompatible => "CNRI-Python-GPL-Compatible",
            SpdxLicense::Condor1_1 => "Condor-1.1",
            SpdxLicense::CopyleftNext0_3 => "copyleft-next-0.3.0",
            SpdxLicense::CopyleftNext0_3_1 => "copyleft-next-0.3.1",
            SpdxLicense::Cpal1 => "CPAL-1.0",
            SpdxLicense::Cpl1 => "CPL-1.0",
            SpdxLicense::Cpol1_02 => "CPOL-1.02",
            SpdxLicense::Crossword => "Crossword",
            SpdxLicense::CrystalStacker => "CrystalStacker",
            SpdxLicense::CuaOpl1 => "CUA-OPL-1.0",
            SpdxLicense::Cube => "Cube",
            SpdxLicense::Curl => "curl",
            SpdxLicense::DFsl1 => "D-FSL-1.0",
            SpdxLicense::Diffmark => "diffmark",
            SpdxLicense::Doc => "DOC",
            SpdxLicense::Dotseqn => "Dotseqn",
            SpdxLicense::Dsdp => "DSDP",
            SpdxLicense::Dvipdfm => "dvipdfm",
            SpdxLicense::Ecl1 => "ECL-1.0",
            SpdxLicense::Ecl2 => "ECL-2.0",
            SpdxLicense::Efl1 => "EFL-1.0",
            SpdxLicense::Efl2 => "EFL-2.0",
            SpdxLicense::EGenix => "eGenix",
            SpdxLicense::Entessa => "Entessa",
            SpdxLicense::Epl1 => "EPL-1.0",
            SpdxLicense::Epl2 => "EPL-2.0",
            SpdxLicense::ErlPl1_1 => "ErlPL-1.1",
            SpdxLicense::Etalab2 => "etalab-2.0",
            SpdxLicense::EUDatagrid => "EUDatagrid",
            SpdxLicense::Eupl1 => "EUPL-1.0",
            SpdxLicense::Eupl1_1 => "EUPL-1.1",
            SpdxLicense::Eupl1_2 => "EUPL-1.2",
            SpdxLicense::Eurosym => "Eurosym",
            SpdxLicense::Fair => "Fair",
            SpdxLicense::Frameworx1 => "Frameworx-1.0",
            SpdxLicense::FreeImage => "FreeImage",
            SpdxLicense::Fsfap => "FSFAP",
            SpdxLicense::Fsful => "FSFUL",
            SpdxLicense::Fsfullr => "FSFULLR",
            SpdxLicense::Ftl => "FTL",
            SpdxLicense::Gfdl1_1Only => "GFDL-1.1-only",
            SpdxLicense::Gfdl1_1OrLater => "GFDL-1.1-or-later",
            SpdxLicense::Gfdl1_2Only => "GFDL-1.2-only",
            SpdxLicense::Gfdl1_2OrLater => "GFDL-1.2-or-later",
            SpdxLicense::Gfdl1_3Only => "GFDL-1.3-only",
            SpdxLicense::Gfdl1_3OrLater => "GFDL-1.3-or-later",
            SpdxLicense::Giftware => "Giftware",
            SpdxLicense::GL2Ps => "GL2PS",
            SpdxLicense::Glide => "Glide",
            SpdxLicense::Glulxe => "Glulxe",
            SpdxLicense::Gnuplot => "gnuplot",
            SpdxLicense::Gpl1Only => "GPL-1.0-only",
            SpdxLicense::Gpl1OrLater => "GPL-1.0-or-later",
            SpdxLicense::Gpl2Only => "GPL-2.0-only",
            SpdxLicense::Gpl2OrLater => "GPL-2.0-or-later",
            SpdxLicense::Gpl3Only => "GPL-3.0-only",
            SpdxLicense::Gpl3OrLater => "GPL-3.0-or-later",
            SpdxLicense::GSoap1_3b => "gSOAP-1.3b",
            SpdxLicense::HaskellReport => "HaskellReport",
            SpdxLicense::Hpnd => "HPND",
            SpdxLicense::HpndSellVariant => "HPND-sell-variant",
            SpdxLicense::IbmPibs => "IBM-pibs",
            SpdxLicense::Icu => "ICU",
            SpdxLicense::Ijg => "IJG",
            SpdxLicense::ImageMagick => "ImageMagick",
            SpdxLicense::IMatix => "iMatix",
            SpdxLicense::Imlib2 => "Imlib2",
            SpdxLicense::InfoZip => "Info-ZIP",
            SpdxLicense::Intel => "Intel",
            SpdxLicense::IntelAcpi => "Intel-ACPI",
            SpdxLicense::Interbase1 => "Interbase-1.0",
            SpdxLicense::Ipa => "IPA",
            SpdxLicense::Ipl1 => "IPL-1.0",
            SpdxLicense::Isc => "ISC",
            SpdxLicense::JasPer2 => "JasPer-2.0",
            SpdxLicense::Jpnic => "JPNIC",
            SpdxLicense::Json => "JSON",
            SpdxLicense::Lal1_2 => "LAL-1.2",
            SpdxLicense::Lal1_3 => "LAL-1.3",
            SpdxLicense::Latex2e => "Latex2e",
            SpdxLicense::Leptonica => "Leptonica",
            SpdxLicense::Lgpl2Only => "LGPL-2.0-only",
            SpdxLicense::Lgpl2OrLater => "LGPL-2.0-or-later",
            SpdxLicense::Lgpl2_1Only => "LGPL-2.1-only",
            SpdxLicense::Lgpl2_1OrLater => "LGPL-2.1-or-later",
            SpdxLicense::Lgpl3Only => "LGPL-3.0-only",
            SpdxLicense::Lgpl3OrLater => "LGPL-3.0-or-later",
            SpdxLicense::Lgpllr => "LGPLLR",
            SpdxLicense::Libpng => "Libpng",
            SpdxLicense::Libpng2 => "libpng-2.0",
            SpdxLicense::Libtiff => "libtiff",
            SpdxLicense::LiLiQP1_1 => "LiLiQ-P-1.1",
            SpdxLicense::LiLiQR1_1 => "LiLiQ-R-1.1",
            SpdxLicense::LiLiQRplus1_1 => "LiLiQ-Rplus-1.1",
            SpdxLicense::LinuxOpenIb => "Linux-OpenIB",
            SpdxLicense::Lpl1 => "LPL-1.0",
            SpdxLicense::Lpl1_02 => "LPL-1.02",
            SpdxLicense::Lppl1 => "LPPL-1.0",
            SpdxLicense::Lppl1_1 => "LPPL-1.1",
            SpdxLicense::Lppl1_2 => "LPPL-1.2",
            SpdxLicense::Lppl1_3a => "LPPL-1.3a",
            SpdxLicense::Lppl1_3c => "LPPL-1.3c",
            SpdxLicense::MakeIndex => "MakeIndex",
            SpdxLicense::MirOs => "MirOS",
            SpdxLicense::Mit => "MIT",
            SpdxLicense::Mit0 => "MIT-0",
            SpdxLicense::MitAdvertising => "MIT-advertising",
            SpdxLicense::MitCmu => "MIT-CMU",
            SpdxLicense::MitEnna => "MIT-enna",
            SpdxLicense::MitFeh => "MIT-feh",
            SpdxLicense::Mitnfa => "MITNFA",
            SpdxLicense::Motosoto => "Motosoto",
            SpdxLicense::Mpich2 => "mpich2",
            SpdxLicense::Mpl1 => "MPL-1.0",
            SpdxLicense::Mpl1_1 => "MPL-1.1",
            SpdxLicense::Mpl2 => "MPL-2.0",
            SpdxLicense::Mpl2NoCopyleftException => "MPL-2.0-no-copyleft-exception",
            SpdxLicense::MsPl => "MS-PL",
            SpdxLicense::MsRl => "MS-RL",
            SpdxLicense::Mtll => "MTLL",
            SpdxLicense::MulanPsl1 => "MulanPSL-1.0",
            SpdxLicense::Multics => "Multics",
            SpdxLicense::Mup => "Mup",
            SpdxLicense::Nasa1_3 => "NASA-1.3",
            SpdxLicense::Naumen => "Naumen",
            SpdxLicense::Nbpl1 => "NBPL-1.0",
            SpdxLicense::Ncsa => "NCSA",
            SpdxLicense::NetSnmp => "Net-SNMP",
            SpdxLicense::NetCdf => "NetCDF",
            SpdxLicense::Newsletr => "Newsletr",
            SpdxLicense::Ngpl => "NGPL",
            SpdxLicense::Nlod1 => "NLOD-1.0",
            SpdxLicense::Nlpl => "NLPL",
            SpdxLicense::Nokia => "Nokia",
            SpdxLicense::Nosl => "NOSL",
            SpdxLicense::Noweb => "Noweb",
            SpdxLicense::Npl1 => "NPL-1.0",
            SpdxLicense::Npl1_1 => "NPL-1.1",
            SpdxLicense::Nposl3 => "NPOSL-3.0",
            SpdxLicense::Nrl => "NRL",
            SpdxLicense::Ntp => "NTP",
            SpdxLicense::OcctPl => "OCCT-PL",
            SpdxLicense::Oclc2 => "OCLC-2.0",
            SpdxLicense::ODbL1 => "ODbL-1.0",
            SpdxLicense::OdcBy1 => "ODC-By-1.0",
            SpdxLicense::Ofl1 => "OFL-1.0",
            SpdxLicense::Ofl1_1 => "OFL-1.1",
            SpdxLicense::OglCanada2 => "OGL-Canada-2.0",
            SpdxLicense::OglUk1 => "OGL-UK-1.0",
            SpdxLicense::OglUk2 => "OGL-UK-2.0",
            SpdxLicense::OglUk3 => "OGL-UK-3.0",
            SpdxLicense::Ogtsl => "OGTSL",
            SpdxLicense::Oldap1_1 => "OLDAP-1.1",
            SpdxLicense::Oldap1_2 => "OLDAP-1.2",
            SpdxLicense::Oldap1_3 => "OLDAP-1.3",
            SpdxLicense::Oldap1_4 => "OLDAP-1.4",
            SpdxLicense::Oldap2 => "OLDAP-2.0",
            SpdxLicense::Oldap2_0_1 => "OLDAP-2.0.1",
            SpdxLicense::Oldap2_1 => "OLDAP-2.1",
            SpdxLicense::Oldap2_2 => "OLDAP-2.2",
            SpdxLicense::Oldap2_2_1 => "OLDAP-2.2.1",
            SpdxLicense::Oldap2_2_2 => "OLDAP-2.2.2",
            SpdxLicense::Oldap2_3 => "OLDAP-2.3",
            SpdxLicense::Oldap2_4 => "OLDAP-2.4",
            SpdxLicense::Oldap2_5 => "OLDAP-2.5",
            SpdxLicense::Oldap2_6 => "OLDAP-2.6",
            SpdxLicense::Oldap2_7 => "OLDAP-2.7",
            SpdxLicense::Oldap2_8 => "OLDAP-2.8",
            SpdxLicense::Oml => "OML",
            SpdxLicense::OpenSsl => "OpenSSL",
            SpdxLicense::Opl1 => "OPL-1.0",
            SpdxLicense::OsetPl2_1 => "OSET-PL-2.1",
            SpdxLicense::Osl1 => "OSL-1.0",
            SpdxLicense::Osl1_1 => "OSL-1.1",
            SpdxLicense::Osl2 => "OSL-2.0",
            SpdxLicense::Osl2_1 => "OSL-2.1",
            SpdxLicense::Osl3 => "OSL-3.0",
            SpdxLicense::Parity6 => "Parity-6.0.0",
            SpdxLicense::Pddl1 => "PDDL-1.0",
            SpdxLicense::Php3 => "-PHP\u{a0}3.0",
            SpdxLicense::Php3_01 => "-PHP\u{a0}3.01",
            SpdxLicense::Plexus => "Plexus",
            SpdxLicense::PostgreSql => "PostgreSQL",
            SpdxLicense::Psfrag => "psfrag",
            SpdxLicense::Psutils => "psutils",
            SpdxLicense::Python2 => "Python-2.0",
            SpdxLicense::Qhull => "Qhull",
            SpdxLicense::Qpl1 => "QPL-1.0",
            SpdxLicense::Rdisc => "Rdisc",
            SpdxLicense::RHeCos1_1 => "RHeCos-1.1",
            SpdxLicense::Rpl1_1 => "RPL-1.1",
            SpdxLicense::Rpl1_5 => "RPL-1.5",
            SpdxLicense::Rpsl1 => "RPSL-1.0",
            SpdxLicense::RsaMd => "RSA-MD",
            SpdxLicense::Rscpl => "RSCPL",
            SpdxLicense::Ruby => "Ruby",
            SpdxLicense::SaxPd => "SAX-PD",
            SpdxLicense::Saxpath => "Saxpath",
            SpdxLicense::Scea => "SCEA",
            SpdxLicense::Sendmail => "Sendmail",
            SpdxLicense::Sendmail8_23 => "Sendmail-8.23",
            SpdxLicense::SgiB1 => "SGI-B-1.0",
            SpdxLicense::SgiB1_1 => "SGI-B-1.1",
            SpdxLicense::SgiB2 => "SGI-B-2.0",
            SpdxLicense::Shl0_5 => "SHL-0.5",
            SpdxLicense::Shl0_51 => "SHL-0.51",
            SpdxLicense::SimPl2 => "SimPL-2.0",
            SpdxLicense::Sissl => "SISSL",
            SpdxLicense::Sissl1_2 => "SISSL-1.2",
            SpdxLicense::Sleepycat => "Sleepycat",
            SpdxLicense::Smlnj => "SMLNJ",
            SpdxLicense::Smppl => "SMPPL",
            SpdxLicense::Snia => "SNIA",
            SpdxLicense::Spencer86 => "Spencer-86",
            SpdxLicense::Spencer94 => "Spencer-94",
            SpdxLicense::Spencer99 => "Spencer-99",
            SpdxLicense::Spl1 => "SPL-1.0",
            SpdxLicense::SshOpenSsh => "SSH-OpenSSH",
            SpdxLicense::SshShort => "SSH-short",
            SpdxLicense::Sspl1 => "SSPL-1.0",
            SpdxLicense::SugarCrm1_1_3 => "SugarCRM-1.1.3",
            SpdxLicense::Swl => "SWL",
            SpdxLicense::TaprOhl1 => "TAPR-OHL-1.0",
            SpdxLicense::Tcl => "TCL",
            SpdxLicense::TcpWrappers => "TCP-wrappers",
            SpdxLicense::TMate => "TMate",
            SpdxLicense::Torque1_1 => "TORQUE-1.1",
            SpdxLicense::Tosl => "TOSL",
            SpdxLicense::TuBerlin1 => "TU-Berlin-1.0",
            SpdxLicense::TuBerlin2 => "TU-Berlin-2.0",
            SpdxLicense::Ucl1 => "UCL-1.0",
            SpdxLicense::UnicodeDfs2015 => "Unicode-DFS-2015",
            SpdxLicense::UnicodeDfs2016 => "Unicode-DFS-2016",
            SpdxLicense::UnicodeTou => "Unicode-TOU",
            SpdxLicense::Unlicense => "Unlicense",
            SpdxLicense::Upl1 => "UPL-1.0",
            SpdxLicense::Vim => "Vim",
            SpdxLicense::Vostrom => "VOSTROM",
            SpdxLicense::Vsl1 => "VSL-1.0",
            SpdxLicense::W3C => "W3C",
            SpdxLicense::W3C19980720 => "W3C-19980720",
            SpdxLicense::W3C20150513 => "W3C-20150513",
            SpdxLicense::Watcom1 => "Watcom-1.0",
            SpdxLicense::Wsuipa => "Wsuipa",
            SpdxLicense::Wtfpl => "WTFPL",
            SpdxLicense::X11 => "X11",
            SpdxLicense::Xerox => "Xerox",
            SpdxLicense::XFree861_1 => "XFree86-1.1",
            SpdxLicense::Xinetd => "xinetd",
            SpdxLicense::Xnet => "Xnet",
            SpdxLicense::Xpp => "xpp",
            SpdxLicense::XSkat => "XSkat",
            SpdxLicense::Ypl1 => "YPL-1.0",
            SpdxLicense::Ypl1_1 => "YPL-1.1",
            SpdxLicense::Zed => "Zed",
            SpdxLicense::Zend2 => "Zend-2.0",
            SpdxLicense::Zimbra1_3 => "Zimbra-1.3",
            SpdxLicense::Zimbra1_4 => "Zimbra-1.4",
            SpdxLicense::Zlib => "Zlib",
            SpdxLicense::ZlibAcknowledgement => "zlib-acknowledgement",
            SpdxLicense::Zpl1_1 => "ZPL-1.1",
            SpdxLicense::Zpl2 => "ZPL-2.0",
            SpdxLicense::Zpl2_1 => "ZPL-2.1",
        }
    }

    /// Returns the full name of this license.
    pub fn name(self) -> (r: &'static str)
        ensures
            r@ == self.spec_name(),
    {
        match self {
            SpdxLicense::Bsd0 => "BSD Zero Clause License",
            SpdxLicense::Aal => "Attribution Assurance License",
            SpdxLicense::Abstyles => "Abstyles License",
            SpdxLicense::Adobe2006 => "Adobe Systems Incorporated Source Code License Agreement",
            SpdxLicense::AdobeGlyph => "Adobe Glyph List License",
            SpdxLicense::Adsl => "Amazon Digital Services License",
            SpdxLicense::Afl1_1 => "Academic Free License v1.1",
            SpdxLicense::Afl1_2 => "Academic Free License v1.2",
            SpdxLicense::Afl2 => "Academic Free License v2.0",
            SpdxLicense::Afl2_1 => "Academic Free License v2.1",
            SpdxLicense::Afl3 => "Academic Free License v3.0",
            SpdxLicense::Afmparse => "Afmparse License",
            SpdxLicense::Agpl1Only => "Affero General Public License v1.0 only",
            SpdxLicense::Agpl1OrLater => "Affero General Public License v1.0 or later",
            SpdxLicense::Agpl3Only => "GNU Affero General Public License v3.0 only",
            SpdxLicense::Agpl3OrLater => "GNU Affero General Public License v3.0 or later",
            SpdxLicense::Aladdin => "Aladdin Free Public License",
            SpdxLicense::Amdplpa => "AMD's plpa_map.c License",
            SpdxLicense::Aml => "Apple MIT License",
            SpdxLicense::Ampas => "Academy of Motion Picture Arts and Sciences BSD",
            SpdxLicense::AntlrPd => "ANTLR Software Rights Notice",
            SpdxLicense::Apache1 => "Apache License 1.0",
            SpdxLicense::Apache1_1 => "Apache License 1.1",
            SpdxLicense::Apache2 => "Apache License 2.0",
            SpdxLicense::Apafml => "Adobe Postscript AFM License",
            SpdxLicense::Apl1 => "Adaptive Public License 1.0",
            SpdxLicense::Apsl1 => "Apple Public Source License 1.0",
            SpdxLicense::Apsl1_1 => "Apple Public Source License 1.1",
            SpdxLicense::Apsl1_2 => "Apple Public Source License 1.2",
            SpdxLicense::Apsl2 => "Apple Public Source License 2.0",
            SpdxLicense::Artistic1 => "Artistic License 1.0",
            SpdxLicense::Artistic1Cl8 => "Artistic License 1.0 w/clause 8",
            SpdxLicense::Artistic1Perl => "Artistic License 1.0 (Perl)",
            SpdxLicense::Artistic2 => "Artistic License 2.0",
            SpdxLicense::Bahyph => "Bahyph License",
            SpdxLicense::Barr => "Barr License",
            SpdxLicense::Beerware => "Beerware License",
            SpdxLicense::BitTorrent1 => "BitTorrent Open Source License v1.0",
            SpdxLicense::BitTorrent1_1 => "BitTorrent Open Source License v1.1",
            SpdxLicense::Blessing => "SQLite Blessing",
            SpdxLicense::BlueOak1 => "Blue Oak Model License 1.0.0",
            SpdxLicense::Borceux => "Borceux license",
            SpdxLicense::Bsd1Clause => "BSD 1-Clause License",
            SpdxLicense::Bsd2Clause => "BSD 2-Clause \"Simplified\" License",
            SpdxLicense::Bsd2ClauseFreeBsd => "BSD 2-Clause FreeBSD License",
            SpdxLicense::Bsd2ClauseNetBsd => "BSD 2-Clause NetBSD License",
            SpdxLicense::Bsd2ClausePatent => "BSD-2-Clause Plus Patent License",
            SpdxLicense::Bsd3Clause => "BSD 3-Clause \"New\" or \"Revised\" License",
            SpdxLicense::Bsd3ClauseAttribution => "BSD with attribution",
            SpdxLicense::Bsd3ClauseClear => "BSD 3-Clause Clear License",
            SpdxLicense::Bsd3ClauseLbnl => "Lawrence Berkeley National Labs BSD variant license",
            SpdxLicense::Bsd3ClauseNoNuclearLicense => "BSD 3-Clause No Nuclear License",
            SpdxLicense::Bsd3ClauseNoNuclearLicense2014 => "BSD 3-Clause No Nuclear License 2014",
            SpdxLicense::Bsd3ClauseNoNuclearWarranty => "BSD 3-Clause No Nuclear Warranty",
            SpdxLicense::Bsd3ClauseOpenMpi => "BSD 3-Clause Open MPI variant",
            SpdxLicense::Bsd4Clause => "BSD 4-Clause \"Original\" or \"Old\" License",
            SpdxLicense::Bsd4ClauseUc => "BSD-4-Clause (University of California-Specific)",
            SpdxLicense::BsdProtection => "BSD Protection License",
            SpdxLicense::BsdSourceCode => "BSD Source Code Attribution",
            SpdxLicense::Bsl1 => "Boost Software License 1.0",
            SpdxLicense::Bzip21_0_5 => "bzip2 and libbzip2 License v1.0.5",
            SpdxLicense::Bzip21_0_6 => "bzip2 and libbzip2 License v1.0.6",
            SpdxLicense::Caldera => "Caldera License",
            SpdxLicense::Catosl1_1 => "Computer Associates Trusted Open Source License 1.1",
            SpdxLicense::CcBy1 => "Creative Commons Attribution 1.0 Generic",
            SpdxLicense::CcBy2 => "Creative Commons Attribution 2.0 Generic",
            SpdxLicense::CcBy2_5 => "Creative Commons Attribution 2.5 Generic",
            SpdxLicense::CcBy3 => "Creative Commons Attribution 3.0 Unported",
            SpdxLicense::CcBy4 => "Creative Commons Attribution 4.0 International",
            SpdxLicense::CcByNc1 => "Creative Commons Attribution Non Commercial 1.0 Generic",
            SpdxLicense::CcByNc2 => "Creative Commons Attribution Non Commercial 2.0 Generic",
            SpdxLicense::CcByNc2_5 => "Creative Commons Attribution Non Commercial 2.5 Generic",
            SpdxLicense::CcByNc3 => "Creative Commons Attribution Non Commercial 3.0 Unported",
            SpdxLicense::CcByNc4 => "Creative Commons Attribution Non Commercial 4.0 International",
            SpdxLicense::CcByNcNd1 => "Creative Commons Attribution Non Commercial No Derivatives 1.0 Generic",
            SpdxLicense::CcByNcNd2 => "Creative Commons Attribution Non Commercial No Derivatives 2.0 Generic",
            SpdxLicense::CcByNcNd2_5 => "Creative Commons Attribution Non Commercial No Derivatives 2.5 Generic",
            SpdxLicense::CcByNcNd3 => "Creative Commons Attribution Non Commercial No Derivatives 3.0 Unported",
            SpdxLicense::CcByNcNd4 => "Creative Commons Attribution Non Commercial No Derivatives 4.0 International",
            SpdxLicense::CcByNcSa1 => "Creative Commons Attribution Non Commercial Share Alike 1.0 Generic",
            SpdxLicense::CcByNcSa2 => "Creative Commons Attribution Non Commercial Share Alike 2.0 Generic",
            SpdxLicense::CcByNcSa2_5 => "Creative Commons Attribution Non Commercial Share Alike 2.5 Generic",
            SpdxLicense::CcByNcSa3 => "Creative Commons Attribution Non Commercial Share Alike 3.0 Unported",
            SpdxLicense::CcByNcSa4 => "Creative Commons Attribution Non Commercial Share Alike 4.0 International",
            SpdxLicense::CcByNd1 => "Creative Commons Attribution No Derivatives 1.0 Generic",
            SpdxLicense::CcByNd2 => "Creative Commons Attribution No Derivatives 2.0 Generic",
            SpdxLicense::CcByNd2_5 => "Creative Commons Attribution No Derivatives 2.5 Generic",
            SpdxLicense::CcByNd3 => "Creative Commons Attribution No Derivatives 3.0 Unported",
            SpdxLicense::CcByNd4 => "Creative Commons Attribution No Derivatives 4.0 International",
            SpdxLicense::CcBySa1 => "Creative Commons Attribution Share Alike 1.0 Generic",
            SpdxLicense::CcBySa2 => "Creative Commons Attribution Share Alike 2.0 Generic",
            SpdxLicense::CcBySa2_5 => "Creative Commons Attribution Share Alike 2.5 Generic",
            SpdxLicense::CcBySa3 => "Creative Commons Attribution Share Alike 3.0 Unported",
            SpdxLicense::CcBySa4 => "Creative Commons Attribution Share Alike 4.0 International",
            SpdxLicense::CcPddc => "Creative Commons Public Domain Dedication and Certification",
            SpdxLicense::CC01 => "Creative Commons Zero v1.0 Universal",
            SpdxLicense::Cddl1 => "Common Development and Distribution License 1.0",
            SpdxLicense::Cddl1_1 => "Common Development and Distribution License 1.1",
            SpdxLicense::CdlaPermissive1 => "Community Data License Agreement Permissive 1.0",
            SpdxLicense::CdlaSharing1 => "Community Data License Agreement Sharing 1.0",
            SpdxLicense::Cecill1 => "CeCILL Free Software License Agreement v1.0",
            SpdxLicense::Cecill1_1 => "CeCILL Free Software License Agreement v1.1",
            SpdxLicense::Cecill2 => "CeCILL Free Software License Agreement v2.0",
            SpdxLicense::Cecill2_1 => "CeCILL Free Software License Agreement v2.1",
            SpdxLicense::CecillB => "CeCILL-B Free Software License Agreement",
            SpdxLicense::CecillC => "CeCILL-C Free Software License Agreement",
            SpdxLicense::CernOhl1_1 => "CERN Open Hardware Licence v1.1",
            SpdxLicense::CernOhl1_2 => "CERN Open Hardware Licence v1.2",
            SpdxLicense::ClArtistic => "Clarified Artistic License",
            SpdxLicense::CnriJython => "CNRI Jython License",
            SpdxLicense::CnriPython => "CNRI Python License",
            SpdxLicense::CnriPythonGplCompatible => "CNRI Python Open Source GPL Compatible License Agreement",
            SpdxLicense::Condor1_1 => "Condor Public License v1.1",
            SpdxLicense::CopyleftNext0_3 => "copyleft-next 0.3.0",
            SpdxLicense::CopyleftNext0_3_1 => "copyleft-next 0.3.1",
            SpdxLicense::Cpal1 => "Common Public Attribution License 1.0",
            SpdxLicense::Cpl1 => "Common Public License 1.0",
            SpdxLicense::Cpol1_02 => "Code Project Open License 1.02",
            SpdxLicense::Crossword => "Crossword License",
            SpdxLicense::CrystalStacker => "CrystalStacker License",
            SpdxLicense::CuaOpl1 => "CUA Office Public License v1.0",
            SpdxLicense::Cube => "Cube License",
            SpdxLicense::Curl => "curl License",
            SpdxLicense::DFsl1 => "Deutsche Freie Software Lizenz",
            SpdxLicense::Diffmark => "diffmark license",
            SpdxLicense::Doc => "DOC License",
            SpdxLicense::Dotseqn => "Dotseqn License",
            SpdxLicense::Dsdp => "DSDP License",
            SpdxLicense::Dvipdfm => "dvipdfm License",
            SpdxLicense::Ecl1 => "Educational Community License v1.0",
            SpdxLicense::Ecl2 => "Educational Community License v2.0",
            SpdxLicense::Efl1 => "Eiffel Forum License v1.0",
            SpdxLicense::Efl2 => "Eiffel Forum License v2.0",
            SpdxLicense::EGenix => "eGenix.com Public License 1.1.0",
            SpdxLicense::Entessa => "Entessa Public License v1.0",
            SpdxLicense::Epl1 => "Eclipse Public License 1.0",
            SpdxLicense::Epl2 => "Eclipse Public License 2.0",
            SpdxLicense::ErlPl1_1 => "Erlang Public License v1.1",
            SpdxLicense::Etalab2 => "Etalab Open License 2.0",
            SpdxLicense::EUDatagrid => "EU DataGrid Software License",
            SpdxLicense::Eupl1 => "European Union Public License 1.0",
            SpdxLicense::Eupl1_1 => "European Union Public License 1.1",
            SpdxLicense::Eupl1_2 => "European Union Public License 1.2",
            SpdxLicense::Eurosym => "Eurosym License",
            SpdxLicense::Fair => "Fair License",
            SpdxLicense::Frameworx1 => "Frameworx Open License 1.0",
            SpdxLicense::FreeImage => "FreeImage Public License v1.0",
            SpdxLicense::Fsfap => "FSF All Permissive License",
            SpdxLicense::Fsful => "FSF Unlimited License",
            SpdxLicense::Fsfullr => "FSF Unlimited License (with License Retention)",
            SpdxLicense::Ftl => "Freetype Project License",
            SpdxLicense::Gfdl1_1Only => "GNU Free Documentation License v1.1 only",
            SpdxLicense::Gfdl1_1OrLater => "GNU Free Documentation License v1.1 or later",
            SpdxLicense::Gfdl1_2Only => "GNU Free Documentation License v1.2 only",
            SpdxLicense::Gfdl1_2OrLater => "GNU Free Documentation License v1.2 or later",
            SpdxLicense::Gfdl1_3Only => "GNU Free Documentation License v1.3 only",
            SpdxLicense::Gfdl1_3OrLater => "GNU Free Documentation License v1.3 or later",
            SpdxLicense::Giftware => "Giftware License",
            SpdxLicense::GL2Ps => "GL2PS License",
            SpdxLicense::Glide => "3dfx Glide License",
            SpdxLicense::Glulxe => "Glulxe License",
            SpdxLicense::Gnuplot => "gnuplot License",
            SpdxLicense::Gpl1Only => "GNU General Public License v1.0 only",
            SpdxLicense::Gpl1OrLater => "GNU General Public License v1.0 or later",
            SpdxLicense::Gpl2Only => "GNU General Public License v2.0 only",
            SpdxLicense::Gpl2OrLater => "GNU General Public License v2.0 or later",
            SpdxLicense::Gpl3Only => "GNU General Public License v3.0 only",
            SpdxLicense::Gpl3OrLater => "GNU General Public License v3.0 or later",
            SpdxLicense::GSoap1_3b => "gSOAP Public License v1.3b",
            SpdxLicense::HaskellReport => "Haskell Language Report License",
            SpdxLicense::Hpnd => "Historical Permission Notice and Disclaimer",
            SpdxLicense::HpndSellVariant => "Historical Permission Notice and Disclaimer - sell variant",
            SpdxLicense::IbmPibs => "IBM PowerPC Initialization and Boot Software",
            SpdxLicense::Icu => "ICU License",
            SpdxLicense::Ijg => "Independent JPEG Group License",
            SpdxLicense::ImageMagick => "ImageMagick License",
            SpdxLicense::IMatix => "iMatix Standard Function Library Agreement",
            SpdxLicense::Imlib2 => "Imlib2 License",
            SpdxLicense::InfoZip => "Info-ZIP License",
            SpdxLicense::Intel => "Intel Open Source License",
            SpdxLicense::IntelAcpi => "Intel ACPI Software License Agreement",
            SpdxLicense::Interbase1 => "Interbase Public License v1.0",
            SpdxLicense::Ipa => "IPA Font License",
            SpdxLicense::Ipl1 => "IBM Public License v1.0",
            SpdxLicense::Isc => "ISC License",
            SpdxLicense::JasPer2 => "JasPer License",
            SpdxLicense::Jpnic => "Japan Network Information Center License",
            SpdxLicense::Json => "JSON License",
            SpdxLicense::Lal1_2 => "Licence Art Libre 1.2",
            SpdxLicense::Lal1_3 => "Licence Art Libre 1.3",
            SpdxLicense::Latex2e => "Latex2e License",
            SpdxLicense::Leptonica => "Leptonica License",
            SpdxLicense::Lgpl2Only => "GNU Library General Public License v2 only",
            SpdxLicense::Lgpl2OrLater => "GNU Library General Public License v2 or later",
            SpdxLicense::Lgpl2_1Only => "GNU Lesser General Public License v2.1 only",
            SpdxLicense::Lgpl2_1OrLater => "GNU Lesser General Public License v2.1 or later",
            SpdxLicense::Lgpl3Only => "GNU Lesser General Public License v3.0 only",
            SpdxLicense::Lgpl3OrLater => "GNU Lesser General Public License v3.0 or later",
            SpdxLicense::Lgpllr => "Lesser General Public License For Linguistic Resources",
            SpdxLicense::Libpng => "libpng License",
            SpdxLicense::Libpng2 => "PNG Reference Library version 2",
            SpdxLicense::Libtiff => "libtiff License",
            SpdxLicense::LiLiQP1_1 => "Licence Libre du Qu\u{e9}bec \u{2013} Permissive version 1.1",
            SpdxLicense::LiLiQR1_1 => "Licence Libre du Qu\u{e9}bec \u{2013} R\u{e9}ciprocit\u{e9} version 1.1",
            SpdxLicense::LiLiQRplus1_1 => "Licence Libre du Qu\u{e9}bec \u{2013} R\u{e9}ciprocit\u{e9} forte version 1.1",
            SpdxLicense::LinuxOpenIb => "Linux Kernel Variant of OpenIB.org license",
            SpdxLicense::Lpl1 => "Lucent Public License Version 1.0",
            SpdxLicense::Lpl1_02 => "Lucent Public License v1.02",
            SpdxLicense::Lppl1 => "LaTeX Project Public License v1.0",
            SpdxLicense::Lppl1_1 => "LaTeX Project Public License v1.1",
            SpdxLicense::Lppl1_2 => "LaTeX Project Public License v1.2",
            SpdxLicense::Lppl1_3a => "LaTeX Project Public License v1.3a",
            SpdxLicense::Lppl1_3c => "LaTeX Project Public License v1.3c",
            SpdxLicense::MakeIndex => "MakeIndex License",
            SpdxLicense::MirOs => "The MirOS Licence",
            SpdxLicense::Mit => "MIT License",
            SpdxLicense::Mit0 => "MIT No Attribution",
            SpdxLicense::MitAdvertising => "Enlightenment License (e16)",
            SpdxLicense::MitCmu => "CMU License",
            SpdxLicense::MitEnna => "enna License",
            SpdxLicense::MitFeh => "feh License",
            SpdxLicense::Mitnfa => "MIT +no-false-attribs license",
            SpdxLicense::Motosoto => "Motosoto License",
            SpdxLicense::Mpich2 => "mpich2 License",
            SpdxLicense::Mpl1 => "Mozilla Public License 1.0",
            SpdxLicense::Mpl1_1 => "Mozilla Public License 1.1",
            SpdxLicense::Mpl2 => "Mozilla Public License 2.0",
            SpdxLicense::Mpl2NoCopyleftException => "Mozilla Public License 2.0 (no copyleft exception)",
            SpdxLicense::MsPl => "Microsoft Public License",
            SpdxLicense::MsRl => "Microsoft Reciprocal License",
            SpdxLicense::Mtll => "Matrix Template Library License",
            SpdxLicense::MulanPsl1 => "Mulan Permissive Software License, Version 1",
            SpdxLicense::Multics => "Multics License",
            SpdxLicense::Mup => "Mup License",
            SpdxLicense::Nasa1_3 => "NASA Open Source Agreement 1.3",
            SpdxLicense::Naumen => "Naumen Public License",
            SpdxLicense::Nbpl1 => "Net Boolean Public License v1",
            SpdxLicense::Ncsa => "University of Illinois/NCSA Open Source License",
            SpdxLicense::NetSnmp => "Net-SNMP License",
            SpdxLicense::NetCdf => "NetCDF license",
            SpdxLicense::Newsletr => "Newsletr License",
            SpdxLicense::Ngpl => "Nethack General Public License",
            SpdxLicense::Nlod1 => "Norwegian Licence for Open Government Data",
            SpdxLicense::Nlpl => "No Limit Public License",
            SpdxLicense::Nokia => "Nokia Open Source License",
            SpdxLicense::Nosl => "Netizen Open Source License",
            SpdxLicense::Noweb => "Noweb License",
            SpdxLicense::Npl1 => "Netscape Public License v1.0",
            SpdxLicense::Npl1_1 => "Netscape Public License v1.1",
            SpdxLicense::Nposl3 => "Non-Profit Open Software License 3.0",
            SpdxLicense::Nrl => "NRL License",
            SpdxLicense::Ntp => "NTP License",
            SpdxLicense::OcctPl => "Open CASCADE Technology Public License",
            SpdxLicense::Oclc2 => "OCLC Research Public License 2.0",
            SpdxLicense::ODbL1 => "ODC Open Database License v1.0",
            SpdxLicense::OdcBy1 => "Open Data Commons Attribution License v1.0",
            SpdxLicense::Ofl1 => "SIL Open Font License 1.0",
            SpdxLicense::Ofl1_1 => "SIL Open Font License 1.1",
            SpdxLicense::OglCanada2 => "Open Government Licence - Canada",
            SpdxLicense::OglUk1 => "Open Government Licence v1.0",
            SpdxLicense::OglUk2 => "Open Government Licence v2.0",
            SpdxLicense::OglUk3 => "Open Government Licence v3.0",
            SpdxLicense::Ogtsl => "Open Group Test Suite License",
            SpdxLicense::Oldap1_1 => "Open LDAP Public License v1.1",
            SpdxLicense::Oldap1_2 => "Open LDAP Public License v1.2",
            SpdxLicense::Oldap1_3 => "Open LDAP Public License v1.3",
            SpdxLicense::Oldap1_4 => "Open LDAP Public License v1.4",
            SpdxLicense::Oldap2 => "Open LDAP Public License v2.0 (or possibly 2.0A and 2.0B)",
            SpdxLicense::Oldap2_0_1 => "Open LDAP Public License v2.0.1",
            SpdxLicense::Oldap2_1 => "Open LDAP Public License v2.1",
            SpdxLicense::Oldap2_2 => "Open LDAP Public License v2.2",
            SpdxLicense::Oldap2_2_1 => "Open LDAP Public License v2.2.1",
            SpdxLicense::Oldap2_2_2 => "Open LDAP Public License 2.2.2",
            SpdxLicense::Oldap2_3 => "Open LDAP Public License v2.3",
            SpdxLicense::Oldap2_4 => "Open LDAP Public License v2.4",
            SpdxLicense::Oldap2_5 => "Open LDAP Public License v2.5",
            SpdxLicense::Oldap2_6 => "Open LDAP Public License v2.6",
            SpdxLicense::Oldap2_7 => "Open LDAP Public License v2.7",
            SpdxLicense::Oldap2_8 => "Open LDAP Public License v2.8",
            SpdxLicense::Oml => "Open Market License",
            SpdxLicense::OpenSsl => "OpenSSL License",
            SpdxLicense::Opl1 => "Open Public License v1.0",
            SpdxLicense::OsetPl2_1 => "OSET Public License version 2.1",
            SpdxLicense::Osl1 => "Open Software License 1.0",
            SpdxLicense::Osl1_1 => "Open Software License 1.1",
            SpdxLicense::Osl2 => "Open Software License 2.0",
            SpdxLicense::Osl2_1 => "Open Software License 2.1",
            SpdxLicense::Osl3 => "Open Software License 3.0",
            SpdxLicense::Parity6 => "The Parity Public License 6.0.0",
            SpdxLicense::Pddl1 => "ODC Public Domain Dedication & License 1.0",
            SpdxLicense::Php3 => "PHP License v3.0",
            SpdxLicense::Php3_01 => "PHP License v3.01",
            SpdxLicense::Plexus => "Plexus Classworlds License",
            SpdxLicense::PostgreSql => "PostgreSQL License",
            SpdxLicense::Psfrag => "psfrag License",
            SpdxLicense::Psutils => "psutils License",
            SpdxLicense::Python2 => "Python License 2.0",
            SpdxLicense::Qhull => "Qhull License",
            SpdxLicense::Qpl1 => "Q Public License 1.0",
            SpdxLicense::Rdisc => "Rdisc License",
            SpdxLicense::RHeCos1_1 => "Red Hat eCos Public License v1.1",
            SpdxLicense::Rpl1_1 => "Reciprocal Public License 1.1",
            SpdxLicense::Rpl1_5 => "Reciprocal Public License 1.5",
            SpdxLicense::Rpsl1 => "RealNetworks Public Source License v1.0",
            SpdxLicense::RsaMd => "RSA Message-Digest License",
            SpdxLicense::Rscpl => "Ricoh Source Code Public License",
            SpdxLicense::Ruby => "Ruby License",
            SpdxLicense::SaxPd => "Sax Public Domain Notice",
            SpdxLicense::Saxpath => "Saxpath License",
            SpdxLicense::Scea => "SCEA Shared Source License",
            SpdxLicense::Sendmail => "Sendmail License",
            SpdxLicense::Sendmail8_23 => "Sendmail License 8.23",
            SpdxLicense::SgiB1 => "SGI Free Software License B v1.0",
            SpdxLicense::SgiB1_1 => "SGI Free Software License B v1.1",
            SpdxLicense::SgiB2 => "SGI Free Software License B v2.0",
            SpdxLicense::Shl0_5 => "Solderpad Hardware License v0.5",
            SpdxLicense::Shl0_51 => "Solderpad Hardware License, Version 0.51",
            SpdxLicense::SimPl2 => "Simple Public License 2.0",
            SpdxLicense::Sissl => "Sun Industry Standards Source License v1.1",
            SpdxLicense::Sissl1_2 => "Sun Industry Standards Source License v1.2",
            SpdxLicense::Sleepycat => "Sleepycat License",
            SpdxLicense::Smlnj => "Standard ML of New Jersey License",
            SpdxLicense::Smppl => "Secure Messaging Protocol Public License",
            SpdxLicense::Snia => "SNIA Public License 1.1",
            SpdxLicense::Spencer86 => "Spencer License 86",
            SpdxLicense::Spencer94 => "Spencer License 94",
            SpdxLicense::Spencer99 => "Spencer License 99",
            SpdxLicense::Spl1 => "Sun Public License v1.0",
            SpdxLicense::SshOpenSsh => "SSH OpenSSH license",
            SpdxLicense::SshShort => "SSH short notice",
            SpdxLicense::Sspl1 => "Server Side Public License, v 1",
            SpdxLicense::SugarCrm1_1_3 => "SugarCRM Public License v1.1.3",
            SpdxLicense::Swl => "Scheme Widget Library (SWL) Software License Agreement",
            SpdxLicense::TaprOhl1 => "TAPR Open Hardware License v1.0",
            SpdxLicense::Tcl => "TCL/TK License",
            SpdxLicense::TcpWrappers => "TCP Wrappers License",
            SpdxLicense::TMate => "TMate Open Source License",
            SpdxLicense::Torque1_1 => "TORQUE v2.5+ Software License v1.1",
            SpdxLicense::Tosl => "Trusster Open Source License",
            SpdxLicense::TuBerlin1 => "Technische Universitaet Berlin License 1.0",
            SpdxLicense::TuBerlin2 => "Technische Universitaet Berlin License 2.0",
            SpdxLicense::Ucl1 => "Upstream Compatibility License v1.0",
            SpdxLicense::UnicodeDfs2015 => "Unicode License Agreement - Data Files and Software (2015)",
            SpdxLicense::UnicodeDfs2016 => "Unicode License Agreement - Data Files and Software (2016)",
            SpdxLicense::UnicodeTou => "Unicode Terms of Use",
            SpdxLicense::Unlicense => "The Unlicense",
            SpdxLicense::Upl1 => "Universal Permissive License v1.0",
            SpdxLicense::Vim => "Vim License",
            SpdxLicense::Vostrom => "VOSTROM Public License for Open Source",
            SpdxLicense::Vsl1 => "Vovida Software License v1.0",
            SpdxLicense::W3C => "W3C Software Notice and License (2002-12-31)",
            SpdxLicense::W3C19980720 => "W3C Software Notice and License (1998-07-20)",
            SpdxLicense::W3C20150513 => "W3C Software Notice and Document License (2015-05-13)",
            SpdxLicense::Watcom1 => "Sybase Open Watcom Public License 1.0",
            SpdxLicense::Wsuipa => "Wsuipa License",
            SpdxLicense::Wtfpl => "Do What The F*ck You Want To Public License",
            SpdxLicense::X11 => "X11 License",
            SpdxLicense::Xerox => "Xerox License",
            SpdxLicense::XFree861_1 => "XFree86 License 1.1",
            SpdxLicense::Xinetd => "xinetd License",
            SpdxLicense::Xnet => "X.Net License",
            SpdxLicense::Xpp => "XPP License",
            SpdxLicense::XSkat => "XSkat License",
            SpdxLicense::Ypl1 => "Yahoo! Public License v1.0",
            SpdxLicense::Ypl1_1 => "Yahoo! Public License v1.1",
            SpdxLicense::Zed => "Zed License",
            SpdxLicense::Zend2 => "Zend License v2.0",
            SpdxLicense::Zimbra1_3 => "Zimbra Public License v1.3",
            SpdxLicense::Zimbra1_4 => "Zimbra Public License v1.4",
            SpdxLicense::Zlib => "zlib License",
            SpdxLicense::ZlibAcknowledgement => "zlib/libpng License with Acknowledgement",
            SpdxLicense::Zpl1_1 => "Zope Public License 1.1",
            SpdxLicense::Zpl2 => "Zope Public License 2.0",
            SpdxLicense::Zpl2_1 => "Zope Public License 2.1",
        }
    }

    /// Considered libre/free by the Free Software Foundation (FSF).
    pub fn is_libre(self) -> (r: bool)
        ensures
            r == self.spec_libre(),
    {
        match self {
            SpdxLicense::Bsd0 => false,
            SpdxLicense::Aal => false,
            SpdxLicense::Abstyles => false,
            SpdxLicense::Adobe2006 => false,
            SpdxLicense::AdobeGlyph => false,
            SpdxLicense::Adsl => false,
            SpdxLicense::Afl1_1 => true,
            SpdxLicense::Afl1_2 => true,
            SpdxLicense::Afl2 => true,
            SpdxLicense::Afl2_1 => true,
            SpdxLicense::Afl3 => true,
            SpdxLicense::Afmparse => false,
            SpdxLicense::Agpl1Only => false,
            SpdxLicense::Agpl1OrLater => false,
            SpdxLicense::Agpl3Only => true,
            SpdxLicense::Agpl3OrLater => true,
            SpdxLicense::Aladdin => false,
            SpdxLicense::Amdplpa => false,
            SpdxLicense::Aml => false,
            SpdxLicense::Ampas => false,
            SpdxLicense::AntlrPd => false,
            SpdxLicense::Apache1 => true,
            SpdxLicense::Apache1_1 => true,
            SpdxLicense::Apache2 => true,
            SpdxLicense::Apafml => false,
            SpdxLicense::Apl1 => false,
            SpdxLicense::Apsl1 => false,
            SpdxLicense::Apsl1_1 => false,
            SpdxLicense::Apsl1_2 => false,
            SpdxLicense::Apsl2 => true,
            SpdxLicense::Artistic1 => false,
            SpdxLicense::Artistic1Cl8 => false,
            SpdxLicense::Artistic1Perl => false,
            SpdxLicense::Artistic2 => true,
            SpdxLicense::Bahyph => false,
            SpdxLicense::Barr => false,
            SpdxLicense::Beerware => false,
            SpdxLicense::BitTorrent1 => false,
            SpdxLicense::BitTorrent1_1 => true,
            SpdxLicense::Blessing => false,
            SpdxLicense::BlueOak1 => false,
            SpdxLicense::Borceux => false,
            SpdxLicense::Bsd1Clause => false,
            SpdxLicense::Bsd2Clause => false,
            SpdxLicense::Bsd2ClauseFreeBsd => true,
            SpdxLicense::Bsd2ClauseNetBsd => false,
            SpdxLicense::Bsd2ClausePatent => false,
            SpdxLicense::Bsd3Clause => true,
            SpdxLicense::Bsd3ClauseAttribution => false,
            SpdxLicense::Bsd3ClauseClear => true,
            SpdxLicense::Bsd3ClauseLbnl => false,
            SpdxLicense::Bsd3ClauseNoNuclearLicense => false,
            SpdxLicense::Bsd3ClauseNoNuclearLicense2014 => false,
            SpdxLicense::Bsd3ClauseNoNuclearWarranty => false,
            SpdxLicense::Bsd3ClauseOpenMpi => false,
            SpdxLicense::Bsd4Clause => true,
            SpdxLicense::Bsd4ClauseUc => false,
            SpdxLicense::BsdProtection => false,
            SpdxLicense::BsdSourceCode => false,
            SpdxLicense::Bsl1 => true,
            SpdxLicense::Bzip21_0_5 => false,
            SpdxLicense::Bzip21_0_6 => false,
            SpdxLicense::Caldera => false,
            SpdxLicense::Catosl1_1 => false,
            SpdxLicense::CcBy1 => false,
            SpdxLicense::CcBy2 => false,
            SpdxLicense::CcBy2_5 => false,
            SpdxLicense::CcBy3 => false,
            SpdxLicense::CcBy4 => true,
            SpdxLicense::CcByNc1 => false,
            SpdxLicense::CcByNc2 => false,
            SpdxLicense::CcByNc2_5 => false,
            SpdxLicense::CcByNc3 => false,
            SpdxLicense::CcByNc4 => false,
            SpdxLicense::CcByNcNd1 => false,
            SpdxLicense::CcByNcNd2 => false,
            SpdxLicense::CcByNcNd2_5 => false,
            SpdxLicense::CcByNcNd3 => false,
            SpdxLicense::CcByNcNd4 => false,
            SpdxLicense::CcByNcSa1 => false,
            SpdxLicense::CcByNcSa2 => false,
            SpdxLicense::CcByNcSa2_5 => false,
            SpdxLicense::CcByNcSa3 => false,
            SpdxLicense::CcByNcSa4 => false,
            SpdxLicense::CcByNd1 => false,
            SpdxLicense::CcByNd2 => false,
            SpdxLicense::CcByNd2_5 => false,
            SpdxLicense::CcByNd3 => false,
            SpdxLicense::CcByNd4 => false,
            SpdxLicense::CcBySa1 => false,
            SpdxLicense::CcBySa2 => false,
            SpdxLicense::CcBySa2_5 => false,
            SpdxLicense::CcBySa3 => false,
            SpdxLicense::CcBySa4 => true,
            SpdxLicense::CcPddc => false,
            SpdxLicense::CC01 => true,
            SpdxLicense::Cddl1 => true,
            SpdxLicense::Cddl1_1 => false,
            SpdxLicense::CdlaPermissive1 => false,
            SpdxLicense::CdlaSharing1 => false,
            SpdxLicense::Cecill1 => false,
            SpdxLicense::Cecill1_1 => false,
            SpdxLicense::Cecill2 => true,
            SpdxLicense::Cecill2_1 => false,
            SpdxLicense::CecillB => true,
            SpdxLicense::CecillC => true,
            SpdxLicense::CernOhl1_1 => false,
            SpdxLicense::CernOhl1_2 => false,
            SpdxLicense::ClArtistic => true,
            SpdxLicense::CnriJython => false,
            SpdxLicense::CnriPython => false,
            SpdxLicense::CnriPythonGplCompatible => false,
            SpdxLicense::Condor1_1 => true,
            SpdxLicense::CopyleftNext0_3 => false,
            SpdxLicense::CopyleftNext0_3_1 => false,
            SpdxLicense::Cpal1 => true,
            SpdxLicense::Cpl1 => true,
            SpdxLicense::Cpol1_02 => false,
            SpdxLicense::Crossword => false,
            SpdxLicense::CrystalStacker => false,
            SpdxLicense::CuaOpl1 => false,
            SpdxLicense::Cube => false,
            SpdxLicense::Curl => false,
            SpdxLicense::DFsl1 => false,
            SpdxLicense::Diffmark => false,
            SpdxLicense::Doc => false,
            SpdxLicense::Dotseqn => false,
            SpdxLicense::Dsdp => false,
            SpdxLicense::Dvipdfm => false,
            SpdxLicense::Ecl1 => false,
            SpdxLicense::Ecl2 => true,
            SpdxLicense::Efl1 => false,
            SpdxLicense::Efl2 => true,
            SpdxLicense::EGenix => false,
            SpdxLicense::Entessa => false,
            SpdxLicense::Epl1 => true,
            SpdxLicense::Epl2 => true,
            SpdxLicense::ErlPl1_1 => false,
            SpdxLicense::Etalab2 => false,
            SpdxLicense::EUDatagrid => true,
            SpdxLicense::Eupl1 => false,
            SpdxLicense::Eupl1_1 => true,
            SpdxLicense::Eupl1_2 => true,
            SpdxLicense::Eurosym => false,
            SpdxLicense::Fair => false,
            SpdxLicense::Frameworx1 => false,
            SpdxLicense::FreeImage => false,
            SpdxLicense::Fsfap => true,
            SpdxLicense::Fsful => false,
            SpdxLicense::Fsfullr => false,
            SpdxLicense::Ftl => true,
            SpdxLicense::Gfdl1_1Only => true,
            SpdxLicense::Gfdl1_1OrLater => true,
            SpdxLicense::Gfdl1_2Only => true,
            SpdxLicense::Gfdl1_2OrLater => true,
            SpdxLicense::Gfdl1_3Only => true,
            SpdxLicense::Gfdl1_3OrLater => true,
            SpdxLicense::Giftware => false,
            SpdxLicense::GL2Ps => false,
            SpdxLicense::Glide => false,
            SpdxLicense::Glulxe => false,
            SpdxLicense::Gnuplot => true,
            SpdxLicense::Gpl1Only => false,
            SpdxLicense::Gpl1OrLater => false,
            SpdxLicense::Gpl2Only => true,
            SpdxLicense::Gpl2OrLater => true,
            SpdxLicense::Gpl3Only => true,
            SpdxLicense::Gpl3OrLater => true,
            SpdxLicense::GSoap1_3b => false,
            SpdxLicense::HaskellReport => false,
            SpdxLicense::Hpnd => true,
            SpdxLicense::HpndSellVariant => false,
            SpdxLicense::IbmPibs => false,
            SpdxLicense::Icu => false,
            SpdxLicense::Ijg => true,
            SpdxLicense::ImageMagick => false,
            SpdxLicense::IMatix => true,
            SpdxLicense::Imlib2 => true,
            SpdxLicense::InfoZip => false,
            SpdxLicense::Intel => true,
            SpdxLicense::IntelAcpi => false,
            SpdxLicense::Interbase1 => false,
            SpdxLicense::Ipa => true,
            SpdxLicense::Ipl1 => true,
            SpdxLicense::Isc => true,
            SpdxLicense::JasPer2 => false,
            SpdxLicense::Jpnic => false,
            SpdxLicense::Json => false,
            SpdxLicense::Lal1_2 => false,
            SpdxLicense::Lal1_3 => false,
            SpdxLicense::Latex2e => false,
            SpdxLicense::Leptonica => false,
            SpdxLicense::Lgpl2Only => false,
            SpdxLicense::Lgpl2OrLater => false,
            SpdxLicense::Lgpl2_1Only => true,
            SpdxLicense::Lgpl2_1OrLater => true,
            SpdxLicense::Lgpl3Only => true,
            SpdxLicense::Lgpl3OrLater => true,
            SpdxLicense::Lgpllr => false,
            SpdxLicense::Libpng => false,
            SpdxLicense::Libpng2 => false,
            SpdxLicense::Libtiff => false,
            SpdxLicense::LiLiQP1_1 => false,
            SpdxLicense::LiLiQR1_1 => false,
            SpdxLicense::LiLiQRplus1_1 => false,
            SpdxLicense::LinuxOpenIb => false,
            SpdxLicense::Lpl1 => false,
            SpdxLicense::Lpl1_02 => true,
            SpdxLicense::Lppl1 => false,
            SpdxLicense::Lppl1_1 => false,
            SpdxLicense::Lppl1_2 => true,
            SpdxLicense::Lppl1_3a => true,
            SpdxLicense::Lppl1_3c => false,
            SpdxLicense::MakeIndex => false,
            SpdxLicense::MirOs => false,
            SpdxLicense::Mit => true,
            SpdxLicense::Mit0 => false,
            SpdxLicense::MitAdvertising => false,
            SpdxLicense::MitCmu => false,
            SpdxLicense::MitEnna => false,
            SpdxLicense::MitFeh => false,
            SpdxLicense::Mitnfa => false,
            SpdxLicense::Motosoto => false,
            SpdxLicense::Mpich2 => false,
            SpdxLicense::Mpl1 => false,
            SpdxLicense::Mpl1_1 => true,
            SpdxLicense::Mpl2 => true,
            SpdxLicense::Mpl2NoCopyleftException => false,
            SpdxLicense::MsPl => true,
            SpdxLicense::MsRl => true,
            SpdxLicense::Mtll => false,
            SpdxLicense::MulanPsl1 => false,
            SpdxLicense::Multics => false,
            SpdxLicense::Mup => false,
            SpdxLicense::Nasa1_3 => false,
            SpdxLicense::Naumen => false,
            SpdxLicense::Nbpl1 => false,
            SpdxLicense::Ncsa => true,
            SpdxLicense::NetSnmp => false,
            SpdxLicense::NetCdf => false,
            SpdxLicense::Newsletr => false,
            SpdxLicense::Ngpl => false,
            SpdxLicense::Nlod1 => false,
            SpdxLicense::Nlpl => false,
            SpdxLicense::Nokia => true,
            SpdxLicense::Nosl => true,
            SpdxLicense::Noweb => false,
            SpdxLicense::Npl1 => true,
            SpdxLicense::Npl1_1 => true,
            SpdxLicense::Nposl3 => false,
            SpdxLicense::Nrl => false,
            SpdxLicense::Ntp => false,
            SpdxLicense::OcctPl => false,
            SpdxLicense::Oclc2 => false,
            SpdxLicense::ODbL1 => true,
            SpdxLicense::OdcBy1 => false,
            SpdxLicense::Ofl1 => true,
            SpdxLicense::Ofl1_1 => true,
            SpdxLicense::OglCanada2 => false,
            SpdxLicense::OglUk1 => false,
            SpdxLicense::OglUk2 => false,
            SpdxLicense::OglUk3 => false,
            SpdxLicense::Ogtsl => false,
            SpdxLicense::Oldap1_1 => false,
            SpdxLicense::Oldap1_2 => false,
            SpdxLicense::Oldap1_3 => false,
            SpdxLicense::Oldap1_4 => false,
            SpdxLicense::Oldap2 => false,
            SpdxLicense::Oldap2_0_1 => false,
            SpdxLicense::Oldap2_1 => false,
            SpdxLicense::Oldap2_2 => false,
            SpdxLicense::Oldap2_2_1 => false,
            SpdxLicense::Oldap2_2_2 => false,
            SpdxLicense::Oldap2_3 => true,
            SpdxLicense::Oldap2_4 => false,
            SpdxLicense::Oldap2_5 => false,
            SpdxLicense::Oldap2_6 => false,
            SpdxLicense::Oldap2_7 => true,
            SpdxLicense::Oldap2_8 => false,
            SpdxLicense::Oml => false,
            SpdxLicense::OpenSsl => true,
            SpdxLicense::Opl1 => false,
            SpdxLicense::OsetPl2_1 => false,
            SpdxLicense::Osl1 => true,
            SpdxLicense::Osl1_1 => true,
            SpdxLicense::Osl2 => true,
            SpdxLicense::Osl2_1 => true,
            SpdxLicense::Osl3 => true,
            SpdxLicense::Parity6 => false,
            SpdxLicense::Pddl1 => false,
            SpdxLicense::Php3 => false,
            SpdxLicense::Php3_01 => true,
            SpdxLicense::Plexus => false,
            SpdxLicense::PostgreSql => false,
            SpdxLicense::Psfrag => false,
            SpdxLicense::Psutils => false,
            SpdxLicense::Python2 => true,
            SpdxLicense::Qhull => false,
            SpdxLicense::Qpl1 => true,
            SpdxLicense::Rdisc => false,
            SpdxLicense::RHeCos1_1 => false,
            SpdxLicense::Rpl1_1 => false,
            SpdxLicense::Rpl1_5 => false,
            SpdxLicense::Rpsl1 => true,
            SpdxLicense::RsaMd => false,
            SpdxLicense::Rscpl => false,
            SpdxLicense::Ruby => true,
            SpdxLicense::SaxPd => false,
            SpdxLicense::Saxpath => false,
            SpdxLicense::Scea => false,
            SpdxLicense::Sendmail => false,
            SpdxLicense::Sendmail8_23 => false,
            SpdxLicense::SgiB1 => false,
            SpdxLicense::SgiB1_1 => false,
            SpdxLicense::SgiB2 => true,
            SpdxLicense::Shl0_5 => false,
            SpdxLicense::Shl0_51 => false,
            SpdxLicense::SimPl2 => false,
            SpdxLicense::Sissl => true,
            SpdxLicense::Sissl1_2 => false,
            SpdxLicense::Sleepycat => true,
            SpdxLicense::Smlnj => true,
            SpdxLicense::Smppl => false,
            SpdxLicense::Snia => false,
            SpdxLicense::Spencer86 => false,
            SpdxLicense::Spencer94 => false,
            SpdxLicense::Spencer99 => false,
            SpdxLicense::Spl1 => true,
            SpdxLicense::SshOpenSsh => false,
            SpdxLicense::SshShort => false,
            SpdxLicense::Sspl1 => false,
            SpdxLicense::SugarCrm1_1_3 => false,
            SpdxLicense::Swl => false,
            SpdxLicense::TaprOhl1 => false,
            SpdxLicense::Tcl => false,
            SpdxLicense::TcpWrappers => false,
            SpdxLicense::TMate => false,
            SpdxLicense::Torque1_1 => false,
            SpdxLicense::Tosl => false,
            SpdxLicense::TuBerlin1 => false,
            SpdxLicense::TuBerlin2 => false,
            SpdxLicense::Ucl1 => false,
            SpdxLicense::UnicodeDfs2015 => false,
            SpdxLicense::UnicodeDfs2016 => false,
            SpdxLicense::UnicodeTou => false,
            SpdxLicense::Unlicense => true,
            SpdxLicense::Upl1 => true,
            SpdxLicense::Vim => true,
            SpdxLicense::Vostrom => false,
            SpdxLicense::Vsl1 => false,
            SpdxLicense::W3C => true,
            SpdxLicense::W3C19980720 => false,
            SpdxLicense::W3C20150513 => false,
            SpdxLicense::Watcom1 => false,
            SpdxLicense::Wsuipa => false,
            SpdxLicense::Wtfpl => true,
            SpdxLicense::X11 => true,
            SpdxLicense::Xerox => false,
            SpdxLicense::XFree861_1 => true,
            SpdxLicense::Xinetd => true,
            SpdxLicense::Xnet => false,
            SpdxLicense::Xpp => false,
            SpdxLicense::XSkat => false,
            SpdxLicense::Ypl1 => false,
            SpdxLicense::Ypl1_1 => true,
            SpdxLicense::Zed => false,
            SpdxLicense::Zend2 => true,
            SpdxLicense::Zimbra1_3 => true,
            SpdxLicense::Zimbra1_4 => false,
            SpdxLicense::Zlib => true,
            SpdxLicense::ZlibAcknowledgement => false,
            SpdxLicense::Zpl1_1 => false,
            SpdxLicense::Zpl2 => true,
            SpdxLicense::Zpl2_1 => true,
        }
    }

    /// The license is approved by the Open Source Initiative (OSI).
    pub fn is_osi_approved(self) -> (r: bool)
        ensures
            r == self.spec_osi(),
    {
        match self {
            SpdxLicense::Bsd0 => true,
            SpdxLicense::Aal => true,
            SpdxLicense::Abstyles => false,
            SpdxLicense::Adobe2006 => false,
            SpdxLicense::AdobeGlyph => false,
            SpdxLicense::Adsl => false,
            SpdxLicense::Afl1_1 => true,
            SpdxLicense::Afl1_2 => true,
            SpdxLicense::Afl2 => true,
            SpdxLicense::Afl2_1 => true,
            SpdxLicense::Afl3 => true,
            SpdxLicense::Afmparse => false,
            SpdxLicense::Agpl1Only => false,
            SpdxLicense::Agpl1OrLater => false,
            SpdxLicense::Agpl3Only => true,
            SpdxLicense::Agpl3OrLater => true,
            SpdxLicense::Aladdin => false,
            SpdxLicense::Amdplpa => false,
            SpdxLicense::Aml => false,
            SpdxLicense::Ampas => false,
            SpdxLicense::AntlrPd => false,
            SpdxLicense::Apache1 => false,
            SpdxLicense::Apache1_1 => true,
            SpdxLicense::Apache2 => true,
            SpdxLicense::Apafml => false,
            SpdxLicense::Apl1 => true,
            SpdxLicense::Apsl1 => true,
            SpdxLicense::Apsl1_1 => true,
            SpdxLicense::Apsl1_2 => true,
            SpdxLicense::Apsl2 => true,
            SpdxLicense::Artistic1 => true,
            SpdxLicense::Artistic1Cl8 => true,
            SpdxLicense::Artistic1Perl => true,
            SpdxLicense::Artistic2 => true,
            SpdxLicense::Bahyph => false,
            SpdxLicense::Barr => false,
            SpdxLicense::Beerware => false,
            SpdxLicense::BitTorrent1 => false,
            SpdxLicense::BitTorrent1_1 => false,
            SpdxLicense::Blessing => false,
            SpdxLicense::BlueOak1 => false,
            SpdxLicense::Borceux => false,
            SpdxLicense::Bsd1Clause => false,
            SpdxLicense::Bsd2Clause => true,
            SpdxLicense::Bsd2ClauseFreeBsd => false,
            SpdxLicense::Bsd2ClauseNetBsd => false,
            SpdxLicense::Bsd2ClausePatent => true,
            SpdxLicense::Bsd3Clause => true,
            SpdxLicense::Bsd3ClauseAttribution => false,
            SpdxLicense::Bsd3ClauseClear => false,
            SpdxLicense::Bsd3ClauseLbnl => true,
            SpdxLicense::Bsd3ClauseNoNuclearLicense => false,
            SpdxLicense::Bsd3ClauseNoNuclearLicense2014 => false,
            SpdxLicense::Bsd3ClauseNoNuclearWarranty => false,
            SpdxLicense::Bsd3ClauseOpenMpi => false,
            SpdxLicense::Bsd4Clause => false,
            SpdxLicense::Bsd4ClauseUc => false,
            SpdxLicense::BsdProtection => false,
            SpdxLicense::BsdSourceCode => false,
            SpdxLicense::Bsl1 => true,
            SpdxLicense::Bzip21_0_5 => false,
            SpdxLicense::Bzip21_0_6 => false,
            SpdxLicense::Caldera => false,
            SpdxLicense::Catosl1_1 => true,
            SpdxLicense::CcBy1 => false,
            SpdxLicense::CcBy2 => false,
            SpdxLicense::CcBy2_5 => false,
            SpdxLicense::CcBy3 => false,
            SpdxLicense::CcBy4 => false,
            SpdxLicense::CcByNc1 => false,
            SpdxLicense::CcByNc2 => false,
            SpdxLicense::CcByNc2_5 => false,
            SpdxLicense::CcByNc3 => false,
            SpdxLicense::CcByNc4 => false,
            SpdxLicense::CcByNcNd1 => false,
            SpdxLicense::CcByNcNd2 => false,
            SpdxLicense::CcByNcNd2_5 => false,
            SpdxLicense::CcByNcNd3 => false,
            SpdxLicense::CcByNcNd4 => false,
            SpdxLicense::CcByNcSa1 => false,
            SpdxLicense::CcByNcSa2 => false,
            SpdxLicense::CcByNcSa2_5 => false,
            SpdxLicense::CcByNcSa3 => false,
            SpdxLicense::CcByNcSa4 => false,
            SpdxLicense::CcByNd1 => false,
            SpdxLicense::CcByNd2 => false,
            SpdxLicense::CcByNd2_5 => false,
            SpdxLicense::CcByNd3 => false,
            SpdxLicense::CcByNd4 => false,
            SpdxLicense::CcBySa1 => false,
            SpdxLicense::CcBySa2 => false,
            SpdxLicense::CcBySa2_5 => false,
            SpdxLicense::CcBySa3 => false,
            SpdxLicense::CcBySa4 => false,
            SpdxLicense::CcPddc => false,
            SpdxLicense::CC01 => false,
            SpdxLicense::Cddl1 => true,
            SpdxLicense::Cddl1_1 => false,
            SpdxLicense::CdlaPermissive1 => false,
            SpdxLicense::CdlaSharing1 => false,
            SpdxLicense::Cecill1 => false,
            SpdxLicense::Cecill1_1 => false,
            SpdxLicense::Cecill2 => false,
            SpdxLicense::Cecill2_1 => true,
            SpdxLicense::CecillB => false,
            SpdxLicense::CecillC => false,
            SpdxLicense::CernOhl1_1 => false,
            SpdxLicense::CernOhl1_2 => false,
            SpdxLicense::ClArtistic => false,
            SpdxLicense::CnriJython => false,
            SpdxLicense::CnriPython => true,
            SpdxLicense::CnriPythonGplCompatible => false,
            SpdxLicense::Condor1_1 => false,
            SpdxLicense::CopyleftNext0_3 => false,
            SpdxLicense::CopyleftNext0_3_1 => false,
            SpdxLicense::Cpal1 => true,
            SpdxLicense::Cpl1 => true,
            SpdxLicense::Cpol1_02 => false,
            SpdxLicense::Crossword => false,
            SpdxLicense::CrystalStacker => false,
            SpdxLicense::CuaOpl1 => true,
            SpdxLicense::Cube => false,
            SpdxLicense::Curl => false,
            SpdxLicense::DFsl1 => false,
            SpdxLicense::Diffmark => false,
            SpdxLicense::Doc => false,
            SpdxLicense::Dotseqn => false,
            SpdxLicense::Dsdp => false,
            SpdxLicense::Dvipdfm => false,
            SpdxLicense::Ecl1 => true,
            SpdxLicense::Ecl2 => true,
            SpdxLicense::Efl1 => true,
            SpdxLicense::Efl2 => true,
            SpdxLicense::EGenix => false,
            SpdxLicense::Entessa => true,
            SpdxLicense::Epl1 => true,
            SpdxLicense::Epl2 => true,
            SpdxLicense::ErlPl1_1 => false,
            SpdxLicense::Etalab2 => false,
            SpdxLicense::EUDatagrid => true,
            SpdxLicense::Eupl1 => false,
            SpdxLicense::Eupl1_1 => true,
            SpdxLicense::Eupl1_2 => true,
            SpdxLicense::Eurosym => false,
            SpdxLicense::Fair => true,
            SpdxLicense::Frameworx1 => true,
            SpdxLicense::FreeImage => false,
            SpdxLicense::Fsfap => false,
            SpdxLicense::Fsful => false,
            SpdxLicense::Fsfullr => false,
            SpdxLicense::Ftl => false,
            SpdxLicense::Gfdl1_1Only => false,
            SpdxLicense::Gfdl1_1OrLater => false,
            SpdxLicense::Gfdl1_2Only => false,
            SpdxLicense::Gfdl1_2OrLater => false,
            SpdxLicense::Gfdl1_3Only => false,
            SpdxLicense::Gfdl1_3OrLater => false,
            SpdxLicense::Giftware => false,
            SpdxLicense::GL2Ps => false,
            SpdxLicense::Glide => false,
            SpdxLicense::Glulxe => false,
            SpdxLicense::Gnuplot => false,
            SpdxLicense::Gpl1Only => false,
            SpdxLicense::Gpl1OrLater => false,
            SpdxLicense::Gpl2Only => true,
            SpdxLicense::Gpl2OrLater => true,
            SpdxLicense::Gpl3Only => true,
            SpdxLicense::Gpl3OrLater => true,
            SpdxLicense::GSoap1_3b => false,
            SpdxLicense::HaskellReport => false,
            SpdxLicense::Hpnd => true,
            SpdxLicense::HpndSellVariant => false,
            SpdxLicense::IbmPibs => false,
            SpdxLicense::Icu => false,
            SpdxLicense::Ijg => false,
            SpdxLicense::ImageMagick => false,
            SpdxLicense::IMatix => false,
            SpdxLicense::Imlib2 => false,
            SpdxLicense::InfoZip => false,
            SpdxLicense::Intel => true,
            SpdxLicense::IntelAcpi => false,
            SpdxLicense::Interbase1 => false,
            SpdxLicense::Ipa => true,
            SpdxLicense::Ipl1 => true,
            SpdxLicense::Isc => true,
            SpdxLicense::JasPer2 => false,
            SpdxLicense::Jpnic => false,
            SpdxLicense::Json => false,
            SpdxLicense::Lal1_2 => false,
            SpdxLicense::Lal1_3 => false,
            SpdxLicense::Latex2e => false,
            SpdxLicense::Leptonica => false,
            SpdxLicense::Lgpl2Only => true,
            SpdxLicense::Lgpl2OrLater => true,
            SpdxLicense::Lgpl2_1Only => true,
            SpdxLicense::Lgpl2_1OrLater => true,
            SpdxLicense::Lgpl3Only => true,
            SpdxLicense::Lgpl3OrLater => true,
            SpdxLicense::Lgpllr => false,
            SpdxLicense::Libpng => false,
            SpdxLicense::Libpng2 => false,
            SpdxLicense::Libtiff => false,
            SpdxLicense::LiLiQP1_1 => true,
            SpdxLicense::LiLiQR1_1 => true,
            SpdxLicense::LiLiQRplus1_1 => true,
            SpdxLicense::LinuxOpenIb => false,
            SpdxLicense::Lpl1 => true,
            SpdxLicense::Lpl1_02 => true,
            SpdxLicense::Lppl1 => false,
            SpdxLicense::Lppl1_1 => false,
            SpdxLicense::Lppl1_2 => false,
            SpdxLicense::Lppl1_3a => false,
            SpdxLicense::Lppl1_3c => true,
            SpdxLicense::MakeIndex => false,
            SpdxLicense::MirOs => true,
            SpdxLicense::Mit => true,
            SpdxLicense::Mit0 => true,
            SpdxLicense::MitAdvertising => false,
            SpdxLicense::MitCmu => false,
            SpdxLicense::MitEnna => false,
            SpdxLicense::MitFeh => false,
            SpdxLicense::Mitnfa => false,
            SpdxLicense::Motosoto => true,
            SpdxLicense::Mpich2 => false,
            SpdxLicense::Mpl1 => true,
            SpdxLicense::Mpl1_1 => true,
            SpdxLicense::Mpl2 => true,
            SpdxLicense::Mpl2NoCopyleftException => true,
            SpdxLicense::MsPl => true,
            SpdxLicense::MsRl => true,
            SpdxLicense::Mtll => false,
            SpdxLicense::MulanPsl1 => false,
            SpdxLicense::Multics => true,
            SpdxLicense::Mup => false,
            SpdxLicense::Nasa1_3 => true,
            SpdxLicense::Naumen => true,
            SpdxLicense::Nbpl1 => false,
            SpdxLicense::Ncsa => true,
            SpdxLicense::NetSnmp => false,
            SpdxLicense::NetCdf => false,
            SpdxLicense::Newsletr => false,
            SpdxLicense::Ngpl => true,
            SpdxLicense::Nlod1 => false,
            SpdxLicense::Nlpl => false,
            SpdxLicense::Nokia => true,
            SpdxLicense::Nosl => false,
            SpdxLicense::Noweb => false,
            SpdxLicense::Npl1 => false,
            SpdxLicense::Npl1_1 => false,
            SpdxLicense::Nposl3 => true,
            SpdxLicense::Nrl => false,
            SpdxLicense::Ntp => true,
            SpdxLicense::OcctPl => false,
            SpdxLicense::Oclc2 => true,
            SpdxLicense::ODbL1 => false,
            SpdxLicense::OdcBy1 => false,
            SpdxLicense::Ofl1 => false,
            SpdxLicense::Ofl1_1 => true,
            SpdxLicense::OglCanada2 => false,
            SpdxLicense::OglUk1 => false,
            SpdxLicense::OglUk2 => false,
            SpdxLicense::OglUk3 => false,
            SpdxLicense::Ogtsl => true,
            SpdxLicense::Oldap1_1 => false,
            SpdxLicense::Oldap1_2 => false,
            SpdxLicense::Oldap1_3 => false,
            SpdxLicense::Oldap1_4 => false,
            SpdxLicense::Oldap2 => false,
            SpdxLicense::Oldap2_0_1 => false,
            SpdxLicense::Oldap2_1 => false,
            SpdxLicense::Oldap2_2 => false,
            SpdxLicense::Oldap2_2_1 => false,
            SpdxLicense::Oldap2_2_2 => false,
            SpdxLicense::Oldap2_3 => false,
            SpdxLicense::Oldap2_4 => false,
            SpdxLicense::Oldap2_5 => false,
            SpdxLicense::Oldap2_6 => false,
            SpdxLicense::Oldap2_7 => false,
            SpdxLicense::Oldap2_8 => false,
            SpdxLicense::Oml => false,
            SpdxLicense::OpenSsl => false,
            SpdxLicense::Opl1 => false,
            SpdxLicense::OsetPl2_1 => true,
            SpdxLicense::Osl1 => true,
            SpdxLicense::Osl1_1 => false,
            SpdxLicense::Osl2 => true,
            SpdxLicense::Osl2_1 => true,
            SpdxLicense::Osl3 => true,
            SpdxLicense::Parity6 => false,
            SpdxLicense::Pddl1 => false,
            SpdxLicense::Php3 => true,
            SpdxLicense::Php3_01 => false,
            SpdxLicense::Plexus => false,
            SpdxLicense::PostgreSql => true,
            SpdxLicense::Psfrag => false,
            SpdxLicense::Psutils => false,
            SpdxLicense::Python2 => true,
            SpdxLicense::Qhull => false,
            SpdxLicense::Qpl1 => true,
            SpdxLicense::Rdisc => false,
            SpdxLicense::RHeCos1_1 => false,
            SpdxLicense::Rpl1_1 => true,
            SpdxLicense::Rpl1_5 => true,
            SpdxLicense::Rpsl1 => true,
            SpdxLicense::RsaMd => false,
            SpdxLicense::Rscpl => true,
            SpdxLicense::Ruby => false,
            SpdxLicense::SaxPd => false,
            SpdxLicense::Saxpath => false,
            SpdxLicense::Scea => false,
            SpdxLicense::Sendmail => false,
            SpdxLicense::Sendmail8_23 => false,
            SpdxLicense::SgiB1 => false,
            SpdxLicense::SgiB1_1 => false,
            SpdxLicense::SgiB2 => false,
            SpdxLicense::Shl0_5 => false,
            SpdxLicense::Shl0_51 => false,
            SpdxLicense::SimPl2 => true,
            SpdxLicense::Sissl => true,
            SpdxLicense::Sissl1_2 => false,
            SpdxLicense::Sleepycat => true,
            SpdxLicense::Smlnj => false,
            SpdxLicense::Smppl => false,
            SpdxLicense::Snia => false,
            SpdxLicense::Spencer86 => false,
            SpdxLicense::Spencer94 => false,
            SpdxLicense::Spencer99 => false,
            SpdxLicense::Spl1 => true,
            SpdxLicense::SshOpenSsh => false,
            SpdxLicense::SshShort => false,
            SpdxLicense::Sspl1 => false,
            SpdxLicense::SugarCrm1_1_3 => false,
            SpdxLicense::Swl => false,
            SpdxLicense::TaprOhl1 => false,
            SpdxLicense::Tcl => false,
            SpdxLicense::TcpWrappers => false,
            SpdxLicense::TMate => false,
            SpdxLicense::Torque1_1 => false,
            SpdxLicense::Tosl => false,
            SpdxLicense::TuBerlin1 => false,
            SpdxLicense::TuBerlin2 => false,
            SpdxLicense::Ucl1 => true,
            SpdxLicense::UnicodeDfs2015 => false,
            SpdxLicense::UnicodeDfs2016 => false,
            SpdxLicense::UnicodeTou => false,
            SpdxLicense::Unlicense => false,
            SpdxLicense::Upl1 => true,
            SpdxLicense::Vim => false,
            SpdxLicense::Vostrom => false,
            SpdxLicense::Vsl1 => true,
            SpdxLicense::W3C => true,
            SpdxLicense::W3C19980720 => false,
            SpdxLicense::W3C20150513 => false,
            SpdxLicense::Watcom1 => true,
            SpdxLicense::Wsuipa => false,
            SpdxLicense::Wtfpl => false,
            SpdxLicense::X11 => false,
            SpdxLicense::Xerox => false,
            SpdxLicense::XFree861_1 => false,
            SpdxLicense::Xinetd => false,
            SpdxLicense::Xnet => true,
            SpdxLicense::Xpp => false,
            SpdxLicense::XSkat => false,
            SpdxLicense::Ypl1 => false,
            SpdxLicense::Ypl1_1 => false,
            SpdxLicense::Zed => false,
            SpdxLicense::Zend2 => false,
            SpdxLicense::Zimbra1_3 => false,
            SpdxLicense::Zimbra1_4 => false,
            SpdxLicense::Zlib => true,
            SpdxLicense::ZlibAcknowledgement => false,
            SpdxLicense::Zpl1_1 => false,
            SpdxLicense::Zpl2 => true,
            SpdxLicense::Zpl2_1 => false,
        }
    }

    /// Returns the license at position `i` of catalog order.
    pub fn from_index(i: usize) -> (r: SpdxLicense)
        requires
            i < COUNT,
        ensures
            r == Self::from_ordinal(i as nat),
    {
        match i {
            0 => SpdxLicense::Bsd0,
            1 => SpdxLicense::Aal,
            2 => SpdxLicense::Abstyles,
            3 => SpdxLicense::Adobe2006,
            4 => SpdxLicense::AdobeGlyph,
            5 => SpdxLicense::Adsl,
            6 => SpdxLicense::Afl1_1,
            7 => SpdxLicense::Afl1_2,
            8 => SpdxLicense::Afl2,
            9 => SpdxLicense::Afl2_1,
            10 => SpdxLicense::Afl3,
            11 => SpdxLicense::Afmparse,
            12 => SpdxLicense::Agpl1Only,
            13 => SpdxLicense::Agpl1OrLater,
            14 => SpdxLicense::Agpl3Only,
            15 => SpdxLicense::Agpl3OrLater,
            16 => SpdxLicense::Aladdin,
            17 => SpdxLicense::Amdplpa,
            18 => SpdxLicense::Aml,
            19 => SpdxLicense::Ampas,
            20 => SpdxLicense::AntlrPd,
            21 => SpdxLicense::Apache1,
            22 => SpdxLicense::Apache1_1,
            23 => SpdxLicense::Apache2,
            24 => SpdxLicense::Apafml,
            25 => SpdxLicense::Apl1,
            26 => SpdxLicense::Apsl1,
            27 => SpdxLicense::Apsl1_1,
            28 => SpdxLicense::Apsl1_2,
            29 => SpdxLicense::Apsl2,
            30 => SpdxLicense::Artistic1,
            31 => SpdxLicense::Artistic1Cl8,
            32 => SpdxLicense::Artistic1Perl,
            33 => SpdxLicense::Artistic2,
            34 => SpdxLicense::Bahyph,
            35 => SpdxLicense::Barr,
            36 => SpdxLicense::Beerware,
            37 => SpdxLicense::BitTorrent1,
            38 => SpdxLicense::BitTorrent1_1,
            39 => SpdxLicense::Blessing,
            40 => SpdxLicense::BlueOak1,
            41 => SpdxLicense::Borceux,
            42 => SpdxLicense::Bsd1Clause,
            43 => SpdxLicense::Bsd2Clause,
            44 => SpdxLicense::Bsd2ClauseFreeBsd,
            45 => SpdxLicense::Bsd2ClauseNetBsd,
            46 => SpdxLicense::Bsd2ClausePatent,
            47 => SpdxLicense::Bsd3Clause,
            48 => SpdxLicense::Bsd3ClauseAttribution,
            49 => SpdxLicense::Bsd3ClauseClear,
            50 => SpdxLicense::Bsd3ClauseLbnl,
            51 => SpdxLicense::Bsd3ClauseNoNuclearLicense,
            52 => SpdxLicense::Bsd3ClauseNoNuclearLicense2014,
            53 => SpdxLicense::Bsd3ClauseNoNuclearWarranty,
            54 => SpdxLicense::Bsd3ClauseOpenMpi,
            55 => SpdxLicense::Bsd4Clause,
            56 => SpdxLicense::Bsd4ClauseUc,
            57 => SpdxLicense::BsdProtection,
            58 => SpdxLicense::BsdSourceCode,
            59 => SpdxLicense::Bsl1,
            60 => SpdxLicense::Bzip21_0_5,
            61 => SpdxLicense::Bzip21_0_6,
            62 => SpdxLicense::Caldera,
            63 => SpdxLicense::Catosl1_1,
            64 => SpdxLicense::CcBy1,
            65 => SpdxLicense::CcBy2,
            66 => SpdxLicense::CcBy2_5,
            67 => SpdxLicense::CcBy3,
            68 => SpdxLicense::CcBy4,
            69 => SpdxLicense::CcByNc1,
            70 => SpdxLicense::CcByNc2,
            71 => SpdxLicense::CcByNc2_5,
            72 => SpdxLicense::CcByNc3,
            73 => SpdxLicense::CcByNc4,
            74 => SpdxLicense::CcByNcNd1,
            75 => SpdxLicense::CcByNcNd2,
            76 => SpdxLicense::CcByNcNd2_5,
            77 => SpdxLicense::CcByNcNd3,
            78 => SpdxLicense::CcByNcNd4,
            79 => SpdxLicense::CcByNcSa1,
            80 => SpdxLicense::CcByNcSa2,
            81 => SpdxLicense::CcByNcSa2_5,
            82 => SpdxLicense::CcByNcSa3,
            83 => SpdxLicense::CcByNcSa4,
            84 => SpdxLicense::CcByNd1,
            85 => SpdxLicense::CcByNd2,
            86 => SpdxLicense::CcByNd2_5,
            87 => SpdxLicense::CcByNd3,
            88 => SpdxLicense::CcByNd4,
            89 => SpdxLicense::CcBySa1,
            90 => SpdxLicense::CcBySa2,
            91 => SpdxLicense::CcBySa2_5,
            92 => SpdxLicense::CcBySa3,
            93 => SpdxLicense::CcBySa4,
            94 => SpdxLicense::CcPddc,
            95 => SpdxLicense::CC01,
            96 => SpdxLicense::Cddl1,
            97 => SpdxLicense::Cddl1_1,
            98 => SpdxLicense::CdlaPermissive1,
            99 => SpdxLicense::CdlaSharing1,
            100 => SpdxLicense::Cecill1,
            101 => SpdxLicense::Cecill1_1,
            102 => SpdxLicense::Cecill2,
            103 => SpdxLicense::Cecill2_1,
            104 => SpdxLicense::CecillB,
            105 => SpdxLicense::CecillC,
            106 => SpdxLicense::CernOhl1_1,
            107 => SpdxLicense::CernOhl1_2,
            108 => SpdxLicense::ClArtistic,
            109 => SpdxLicense::CnriJython,
            110 => SpdxLicense::CnriPython,
            111 => SpdxLicense::CnriPythonGplCompatible,
            112 => SpdxLicense::Condor1_1,
            113 => SpdxLicense::CopyleftNext0_3,
            114 => SpdxLicense::CopyleftNext0_3_1,
            115 => SpdxLicense::Cpal1,
            116 => SpdxLicense::Cpl1,
            117 => SpdxLicense::Cpol1_02,
            118 => SpdxLicense::Crossword,
            119 => SpdxLicense::CrystalStacker,
            120 => SpdxLicense::CuaOpl1,
            121 => SpdxLicense::Cube,
            122 => SpdxLicense::Curl,
            123 => SpdxLicense::DFsl1,
            124 => SpdxLicense::Diffmark,
            125 => SpdxLicense::Doc,
            126 => SpdxLicense::Dotseqn,
            127 => SpdxLicense::Dsdp,
            128 => SpdxLicense::Dvipdfm,
            129 => SpdxLicense::Ecl1,
            130 => SpdxLicense::Ecl2,
            131 => SpdxLicense::Efl1,
            132 => SpdxLicense::Efl2,
            133 => SpdxLicense::EGenix,
            134 => SpdxLicense::Entessa,
            135 => SpdxLicense::Epl1,
            136 => SpdxLicense::Epl2,
            137 => SpdxLicense::ErlPl1_1,
            138 => SpdxLicense::Etalab2,
            139 => SpdxLicense::EUDatagrid,
            140 => SpdxLicense::Eupl1,
            141 => SpdxLicense::Eupl1_1,
            142 => SpdxLicense::Eupl1_2,
            143 => SpdxLicense::Eurosym,
            144 => SpdxLicense::Fair,
            145 => SpdxLicense::Frameworx1,
            146 => SpdxLicense::FreeImage,
            147 => SpdxLicense::Fsfap,
            148 => SpdxLicense::Fsful,
            149 => SpdxLicense::Fsfullr,
            150 => SpdxLicense::Ftl,
            151 => SpdxLicense::Gfdl1_1Only,
            152 => SpdxLicense::Gfdl1_1OrLater,
            153 => SpdxLicense::Gfdl1_2Only,
            154 => SpdxLicense::Gfdl1_2OrLater,
            155 => SpdxLicense::Gfdl1_3Only,
            156 => SpdxLicense::Gfdl1_3OrLater,
            157 => SpdxLicense::Giftware,
            158 => SpdxLicense::GL2Ps,
            159 => SpdxLicense::Glide,
            160 => SpdxLicense::Glulxe,
            161 => SpdxLicense::Gnuplot,
            162 => SpdxLicense::Gpl1Only,
            163 => SpdxLicense::Gpl1OrLater,
            164 => SpdxLicense::Gpl2Only,
            165 => SpdxLicense::Gpl2OrLater,
            166 => SpdxLicense::Gpl3Only,
            167 => SpdxLicense::Gpl3OrLater,
            168 => SpdxLicense::GSoap1_3b,
            169 => SpdxLicense::HaskellReport,
            170 => SpdxLicense::Hpnd,
            171 => SpdxLicense::HpndSellVariant,
            172 => SpdxLicense::IbmPibs,
            173 => SpdxLicense::Icu,
            174 => SpdxLicense::Ijg,
            175 => SpdxLicense::ImageMagick,
            176 => SpdxLicense::IMatix,
            177 => SpdxLicense::Imlib2,
            178 => SpdxLicense::InfoZip,
            179 => SpdxLicense::Intel,
            180 => SpdxLicense::IntelAcpi,
            181 => SpdxLicense::Interbase1,
            182 => SpdxLicense::Ipa,
            183 => SpdxLicense::Ipl1,
            184 => SpdxLicense::Isc,
            185 => SpdxLicense::JasPer2,
            186 => SpdxLicense::Jpnic,
            187 => SpdxLicense::Json,
            188 => SpdxLicense::Lal1_2,
            189 => SpdxLicense::Lal1_3,
            190 => SpdxLicense::Latex2e,
            191 => SpdxLicense::Leptonica,
            192 => SpdxLicense::Lgpl2Only,
            193 => SpdxLicense::Lgpl2OrLater,
            194 => SpdxLicense::Lgpl2_1Only,
            195 => SpdxLicense::Lgpl2_1OrLater,
            196 => SpdxLicense::Lgpl3Only,
            197 => SpdxLicense::Lgpl3OrLater,
            198 => SpdxLicense::Lgpllr,
            199 => SpdxLicense::Libpng,
            200 => SpdxLicense::Libpng2,
            201 => SpdxLicense::Libtiff,
            202 => SpdxLicense::LiLiQP1_1,
            203 => SpdxLicense::LiLiQR1_1,
            204 => SpdxLicense::LiLiQRplus1_1,
            205 => SpdxLicense::LinuxOpenIb,
            206 => SpdxLicense::Lpl1,
            207 => SpdxLicense::Lpl1_02,
            208 => SpdxLicense::Lppl1,
            209 => SpdxLicense::Lppl1_1,
            210 => SpdxLicense::Lppl1_2,
            211 => SpdxLicense::Lppl1_3a,
            212 => SpdxLicense::Lppl1_3c,
            213 => SpdxLicense::MakeIndex,
            214 => SpdxLicense::MirOs,
            215 => SpdxLicense::Mit,
            216 => SpdxLicense::Mit0,
            217 => SpdxLicense::MitAdvertising,
            218 => SpdxLicense::MitCmu,
            219 => SpdxLicense::MitEnna,
            220 => SpdxLicense::MitFeh,
            221 => SpdxLicense::Mitnfa,
            222 => SpdxLicense::Motosoto,
            223 => SpdxLicense::Mpich2,
            224 => SpdxLicense::Mpl1,
            225 => SpdxLicense::Mpl1_1,
            226 => SpdxLicense::Mpl2,
            227 => SpdxLicense::Mpl2NoCopyleftException,
            228 => SpdxLicense::MsPl,
            229 => SpdxLicense::MsRl,
            230 => SpdxLicense::Mtll,
            231 => SpdxLicense::MulanPsl1,
            232 => SpdxLicense::Multics,
            233 => SpdxLicense::Mup,
            234 => SpdxLicense::Nasa1_3,
            235 => SpdxLicense::Naumen,
            236 => SpdxLicense::Nbpl1,
            237 => SpdxLicense::Ncsa,
            238 => SpdxLicense::NetSnmp,
            239 => SpdxLicense::NetCdf,
            240 => SpdxLicense::Newsletr,
            241 => SpdxLicense::Ngpl,
            242 => SpdxLicense::Nlod1,
            243 => SpdxLicense::Nlpl,
            244 => SpdxLicense::Nokia,
            245 => SpdxLicense::Nosl,
            246 => SpdxLicense::Noweb,
            247 => SpdxLicense::Npl1,
            248 => SpdxLicense::Npl1_1,
            249 => SpdxLicense::Nposl3,
            250 => SpdxLicense::Nrl,
            251 => SpdxLicense::Ntp,
            252 => SpdxLicense::OcctPl,
            253 => SpdxLicense::Oclc2,
            254 => SpdxLicense::ODbL1,
            255 => SpdxLicense::OdcBy1,
            256 => SpdxLicense::Ofl1,
            257 => SpdxLicense::Ofl1_1,
            258 => SpdxLicense::OglCanada2,
            259 => SpdxLicense::OglUk1,
            260 => SpdxLicense::OglUk2,
            261 => SpdxLicense::OglUk3,
            262 => SpdxLicense::Ogtsl,
            263 => SpdxLicense::Oldap1_1,
            264 => SpdxLicense::Oldap1_2,
            265 => SpdxLicense::Oldap1_3,
            266 => SpdxLicense::Oldap1_4,
            267 => SpdxLicense::Oldap2,
            268 => SpdxLicense::Oldap2_0_1,
            269 => SpdxLicense::Oldap2_1,
            270 => SpdxLicense::Oldap2_2,
            271 => SpdxLicense::Oldap2_2_1,
            272 => SpdxLicense::Oldap2_2_2,
            273 => SpdxLicense::Oldap2_3,
            274 => SpdxLicense::Oldap2_4,
            275 => SpdxLicense::Oldap2_5,
            276 => SpdxLicense::Oldap2_6,
            277 => SpdxLicense::Oldap2_7,
            278 => SpdxLicense::Oldap2_8,
            279 => SpdxLicense::Oml,
            280 => SpdxLicense::OpenSsl,
            281 => SpdxLicense::Opl1,
            282 => SpdxLicense::OsetPl2_1,
            283 => SpdxLicense::Osl1,
            284 => SpdxLicense::Osl1_1,
            285 => SpdxLicense::Osl2,
            286 => SpdxLicense::Osl2_1,
            287 => SpdxLicense::Osl3,
            288 => SpdxLicense::Parity6,
            289 => SpdxLicense::Pddl1,
            290 => SpdxLicense::Php3,
            291 => SpdxLicense::Php3_01,
            292 => SpdxLicense::Plexus,
            293 => SpdxLicense::PostgreSql,
            294 => SpdxLicense::Psfrag,
            295 => SpdxLicense::Psutils,
            296 => SpdxLicense::Python2,
            297 => SpdxLicense::Qhull,
            298 => SpdxLicense::Qpl1,
            299 => SpdxLicense::Rdisc,
            300 => SpdxLicense::RHeCos1_1,
            301 => SpdxLicense::Rpl1_1,
            302 => SpdxLicense::Rpl1_5,
            303 => SpdxLicense::Rpsl1,
            304 => SpdxLicense::RsaMd,
            305 => SpdxLicense::Rscpl,
            306 => SpdxLicense::Ruby,
            307 => SpdxLicense::SaxPd,
            308 => SpdxLicense::Saxpath,
            309 => SpdxLicense::Scea,
            310 => SpdxLicense::Sendmail,
            311 => SpdxLicense::Sendmail8_23,
            312 => SpdxLicense::SgiB1,
            313 => SpdxLicense::SgiB1_1,
            314 => SpdxLicense::SgiB2,
            315 => SpdxLicense::Shl0_5,
            316 => SpdxLicense::Shl0_51,
            317 => SpdxLicense::SimPl2,
            318 => SpdxLicense::Sissl,
            319 => SpdxLicense::Sissl1_2,
            320 => SpdxLicense::Sleepycat,
            321 => SpdxLicense::Smlnj,
            322 => SpdxLicense::Smppl,
            323 => SpdxLicense::Snia,
            324 => SpdxLicense::Spencer86,
            325 => SpdxLicense::Spencer94,
            326 => SpdxLicense::Spencer99,
            327 => SpdxLicense::Spl1,
            328 => SpdxLicense::SshOpenSsh,
            329 => SpdxLicense::SshShort,
            330 => SpdxLicense::Sspl1,
            331 => SpdxLicense::SugarCrm1_1_3,
            332 => SpdxLicense::Swl,
            333 => SpdxLicense::TaprOhl1,
            334 => SpdxLicense::Tcl,
            335 => SpdxLicense::TcpWrappers,
            336 => SpdxLicense::TMate,
            337 => SpdxLicense::Torque1_1,
            338 => SpdxLicense::Tosl,
            339 => SpdxLicense::TuBerlin1,
            340 => SpdxLicense::TuBerlin2,
            341 => SpdxLicense::Ucl1,
            342 => SpdxLicense::UnicodeDfs2015,
            343 => SpdxLicense::UnicodeDfs2016,
            344 => SpdxLicense::UnicodeTou,
            345 => SpdxLicense::Unlicense,
            346 => SpdxLicense::Upl1,
            347 => SpdxLicense::Vim,
            348 => SpdxLicense::Vostrom,
            349 => SpdxLicense::Vsl1,
            350 => SpdxLicense::W3C,
            351 => SpdxLicense::W3C19980720,
            352 => SpdxLicense::W3C20150513,
            353 => SpdxLicense::Watcom1,
            354 => SpdxLicense::Wsuipa,
            355 => SpdxLicense::Wtfpl,
            356 => SpdxLicense::X11,
            357 => SpdxLicense::Xerox,
            358 => SpdxLicense::XFree861_1,
            359 => SpdxLicense::Xinetd,
            360 => SpdxLicense::Xnet,
            361 => SpdxLicense::Xpp,
            362 => SpdxLicense::XSkat,
            363 => SpdxLicense::Ypl1,
            364 => SpdxLicense::Ypl1_1,
            365 => SpdxLicense::Zed,
            366 => SpdxLicense::Zend2,
            367 => SpdxLicense::Zimbra1_3,
            368 => SpdxLicense::Zimbra1_4,
            369 => SpdxLicense::Zlib,
            370 => SpdxLicense::ZlibAcknowledgement,
            371 => SpdxLicense::Zpl1_1,
            372 => SpdxLicense::Zpl2,
            _ => SpdxLicense::Zpl2_1,
        }
    }
}

} // verus!
