//! Facts about the `log2` tables, checked entry by entry: each rounded-down
//! entry lies at or below its rounded-up one, and so does each rounded-down
//! multiple of `log2(10)`.
use crate::kernel::tables::{log2_lower_at, log2_upper_at, LOG2_POW10_LOWER, LOG2_POW10_UPPER};
use vstd::prelude::*;

verus! {

/// Entry `i` sits at or below its rounded-up twin.
pub open spec fn log2_entry_fits(i: int) -> bool {
    log2_lower_at(i) <= log2_upper_at(i)
}

/// Every entry below `n` fits.
pub open spec fn log2_entries_fit_below(n: int) -> bool
    decreases n,
{
    if n <= 0 {
        true
    } else {
        log2_entry_fits(n - 1) && log2_entries_fit_below(n - 1)
    }
}

/// Entries 0 to 255 fit.
proof fn lemma_log2_page_0()
    ensures
        log2_entries_fit_below(256),
{
    reveal(log2_lower_at);
    reveal(log2_upper_at);
    assert(log2_entries_fit_below(0));
    assert(log2_lower_at(0) == 0u64 && log2_upper_at(0) == 0u64);
    assert(log2_entries_fit_below(1));
    assert(log2_lower_at(1) == 12991470209511300u64 && log2_upper_at(1) == 12991470209511304u64);
    assert(log2_entries_fit_below(2));
    assert(log2_lower_at(2) == 25976601570169166u64 && log2_upper_at(2) == 25976601570169170u64);
    assert(log2_entries_fit_below(3));
    assert(log2_lower_at(3) == 38955400264708765u64 && log2_upper_at(3) == 38955400264708769u64);
    assert(log2_entries_fit_below(4));
    assert(log2_lower_at(4) == 51927872466823971u64 && log2_upper_at(4) == 51927872466823975u64);
    assert(log2_entries_fit_below(5));
    assert(log2_lower_at(5) == 64894024341184995u64 && log2_upper_at(5) == 64894024341184999u64);
    assert(log2_entries_fit_below(6));
    assert(log2_lower_at(6) == 77853862043455949u64 && log2_upper_at(6) == 77853862043455953u64);
    assert(log2_entries_fit_below(7));
    assert(log2_lower_at(7) == 90807391720312388u64 && log2_upper_at(7) == 90807391720312392u64);
    assert(log2_entries_fit_below(8));
    assert(log2_lower_at(8) == 103754619509458804u64 && log2_upper_at(8) == 103754619509458808u64);
    assert(log2_entries_fit_below(9));
    assert(log2_lower_at(9) == 116695551539646060u64 && log2_upper_at(9) == 116695551539646064u64);
    assert(log2_entries_fit_below(10));
    assert(log2_lower_at(10) == 129630193930688822u64 && log2_upper_at(10) == 129630193930688826u64);
    assert(log2_entries_fit_below(11));
    assert(log2_lower_at(11) == 142558552793482903u64 && log2_upper_at(11) == 142558552793482907u64);
    assert(log2_entries_fit_below(12));
    assert(log2_lower_at(12) == 155480634230022590u64 && log2_upper_at(12) == 155480634230022594u64);
    assert(log2_entries_fit_below(13));
    assert(log2_lower_at(13) == 168396444333417928u64 && log2_upper_at(13) == 168396444333417932u64);
    assert(log2_entries_fit_below(14));
    assert(log2_lower_at(14) == 181305989187911958u64 && log2_upper_at(14) == 181305989187911961u64);
    assert(log2_entries_fit_below(15));
    assert(log2_lower_at(15) == 194209274868897912u64 && log2_upper_at(15) == 194209274868897916u64);
    assert(log2_entries_fit_below(16));
    assert(log2_lower_at(16) == 207106307442936365u64 && log2_upper_at(16) == 207106307442936369u64);
    assert(log2_entries_fit_below(17));
    assert(log2_lower_at(17) == 219997092967772359u64 && log2_upper_at(17) == 219997092967772363u64);
    assert(log2_entries_fit_below(18));
    assert(log2_lower_at(18) == 232881637492352457u64 && log2_upper_at(18) == 232881637492352461u64);
    assert(log2_entries_fit_below(19));
    assert(log2_lower_at(19) == 245759947056841789u64 && log2_upper_at(19) == 245759947056841793u64);
    assert(log2_entries_fit_below(20));
    assert(log2_lower_at(20) == 258632027692641045u64 && log2_upper_at(20) == 258632027692641049u64);
    assert(log2_entries_fit_below(21));
    assert(log2_lower_at(21) == 271497885422403401u64 && log2_upper_at(21) == 271497885422403405u64);
    assert(log2_entries_fit_below(22));
    assert(log2_lower_at(22) == 284357526260051449u64 && log2_upper_at(22) == 284357526260051453u64);
    assert(log2_entries_fit_below(23));
    assert(log2_lower_at(23) == 297210956210794058u64 && log2_upper_at(23) == 297210956210794062u64);
    assert(log2_entries_fit_below(24));
    assert(log2_lower_at(24) == 310058181271143184u64 && log2_upper_at(24) == 310058181271143188u64);
    assert(log2_entries_fit_below(25));
    assert(log2_lower_at(25) == 322899207428930685u64 && log2_upper_at(25) == 322899207428930689u64);
    assert(log2_entries_fit_below(26));
    assert(log2_lower_at(26) == 335734040663325039u64 && log2_upper_at(26) == 335734040663325043u64);
    assert(log2_entries_fit_below(27));
    assert(log2_lower_at(27) == 348562686944848060u64 && log2_upper_at(27) == 348562686944848064u64);
    assert(log2_entries_fit_below(28));
    assert(log2_lower_at(28) == 361385152235391564u64 && log2_upper_at(28) == 361385152235391568u64);
    assert(log2_entries_fit_below(29));
    assert(log2_lower_at(29) == 374201442488233987u64 && log2_upper_at(29) == 374201442488233991u64);
    assert(log2_entries_fit_below(30));
    assert(log2_lower_at(30) == 387011563648056977u64 && log2_upper_at(30) == 387011563648056981u64);
    assert(log2_entries_fit_below(31));
    assert(log2_lower_at(31) == 399815521650961929u64 && log2_upper_at(31) == 399815521650961933u64);
    assert(log2_entries_fit_below(32));
    assert(log2_lower_at(32) == 412613322424486495u64 && log2_upper_at(32) == 412613322424486499u64);
    assert(log2_entries_fit_below(33));
    assert(log2_lower_at(33) == 425404971887621052u64 && log2_upper_at(33) == 425404971887621056u64);
    assert(log2_entries_fit_below(34));
    assert(log2_lower_at(34) == 438190475950825119u64 && log2_upper_at(34) == 438190475950825123u64);
    assert(log2_entries_fit_below(35));
    assert(log2_lower_at(35) == 450969840516043742u64 && log2_upper_at(35) == 450969840516043746u64);
    assert(log2_entries_fit_below(36));
    assert(log2_lower_at(36) == 463743071476723858u64 && log2_upper_at(36) == 463743071476723862u64);
    assert(log2_entries_fit_below(37));
    assert(log2_lower_at(37) == 476510174717830580u64 && log2_upper_at(37) == 476510174717830584u64);
    assert(log2_entries_fit_below(38));
    assert(log2_lower_at(38) == 489271156115863475u64 && log2_upper_at(38) == 489271156115863479u64);
    assert(log2_entries_fit_below(39));
    assert(log2_lower_at(39) == 502026021538872797u64 && log2_upper_at(39) == 502026021538872801u64);
    assert(log2_entries_fit_below(40));
    assert(log2_lower_at(40) == 514774776846475670u64 && log2_upper_at(40) == 514774776846475674u64);
    assert(log2_entries_fit_below(41));
    assert(log2_lower_at(41) == 527517427889872249u64 && log2_upper_at(41) == 527517427889872253u64);
    assert(log2_entries_fit_below(42));
    assert(log2_lower_at(42) == 540253980511861815u64 && log2_upper_at(42) == 540253980511861819u64);
    assert(log2_entries_fit_below(43));
    assert(log2_lower_at(43) == 552984440546858873u64 && log2_upper_at(43) == 552984440546858877u64);
    assert(log2_entries_fit_below(44));
    assert(log2_lower_at(44) == 565708813820909168u64 && log2_upper_at(44) == 565708813820909172u64);
    assert(log2_entries_fit_below(45));
    assert(log2_lower_at(45) == 578427106151705695u64 && log2_upper_at(45) == 578427106151705699u64);
    assert(log2_entries_fit_below(46));
    assert(log2_lower_at(46) == 591139323348604650u64 && log2_upper_at(46) == 591139323348604654u64);
    assert(log2_entries_fit_below(47));
    assert(log2_lower_at(47) == 603845471212641365u64 && log2_upper_at(47) == 603845471212641369u64);
    assert(log2_entries_fit_below(48));
    assert(log2_lower_at(48) == 616545555536546166u64 && log2_upper_at(48) == 616545555536546170u64);
    assert(log2_entries_fit_below(49));
    assert(log2_lower_at(49) == 629239582104760246u64 && log2_upper_at(49) == 629239582104760250u64);
    assert(log2_entries_fit_below(50));
    assert(log2_lower_at(50) == 641927556693451456u64 && log2_upper_at(50) == 641927556693451460u64);
    assert(log2_entries_fit_below(51));
    assert(log2_lower_at(51) == 654609485070530084u64 && log2_upper_at(51) == 654609485070530088u64);
    assert(log2_entries_fit_below(52));
    assert(log2_lower_at(52) == 667285372995664579u64 && log2_upper_at(52) == 667285372995664583u64);
    assert(log2_entries_fit_below(53));
    assert(log2_lower_at(53) == 679955226220297251u64 && log2_upper_at(53) == 679955226220297255u64);
    assert(log2_entries_fit_below(54));
    assert(log2_lower_at(54) == 692619050487659927u64 && log2_upper_at(54) == 692619050487659931u64);
    assert(log2_entries_fit_below(55));
    assert(log2_lower_at(55) == 705276851532789577u64 && log2_upper_at(55) == 705276851532789581u64);
    assert(log2_entries_fit_below(56));
    assert(log2_lower_at(56) == 717928635082543886u64 && log2_upper_at(56) == 717928635082543890u64);
    assert(log2_entries_fit_below(57));
    assert(log2_lower_at(57) == 730574406855616810u64 && log2_upper_at(57) == 730574406855616814u64);
    assert(log2_entries_fit_below(58));
    assert(log2_lower_at(58) == 743214172562554085u64 && log2_upper_at(58) == 743214172562554089u64);
    assert(log2_entries_fit_below(59));
    assert(log2_lower_at(59) == 755847937905768691u64 && log2_upper_at(59) == 755847937905768695u64);
    assert(log2_entries_fit_below(60));
    assert(log2_lower_at(60) == 768475708579556300u64 && log2_upper_at(60) == 768475708579556304u64);
    assert(log2_entries_fit_below(61));
    assert(log2_lower_at(61) == 781097490270110662u64 && log2_upper_at(61) == 781097490270110666u64);
    assert(log2_entries_fit_below(62));
    assert(log2_lower_at(62) == 793713288655538976u64 && log2_upper_at(62) == 793713288655538980u64);
    assert(log2_entries_fit_below(63));
    assert(log2_lower_at(63) == 806323109405877220u64 && log2_upper_at(63) == 806323109405877224u64);
    assert(log2_entries_fit_below(64));
    assert(log2_lower_at(64) == 818926958183105430u64 && log2_upper_at(64) == 818926958183105434u64);
    assert(log2_entries_fit_below(65));
    assert(log2_lower_at(65) == 831524840641162965u64 && log2_upper_at(65) == 831524840641162969u64);
    assert(log2_entries_fit_below(66));
    assert(log2_lower_at(66) == 844116762425963712u64 && log2_upper_at(66) == 844116762425963716u64);
    assert(log2_entries_fit_below(67));
    assert(log2_lower_at(67) == 856702729175411284u64 && log2_upper_at(67) == 856702729175411288u64);
    assert(log2_entries_fit_below(68));
    assert(log2_lower_at(68) == 869282746519414150u64 && log2_upper_at(68) == 869282746519414154u64);
    assert(log2_entries_fit_below(69));
    assert(log2_lower_at(69) == 881856820079900756u64 && log2_upper_at(69) == 881856820079900760u64);
    assert(log2_entries_fit_below(70));
    assert(log2_lower_at(70) == 894424955470834594u64 && log2_upper_at(70) == 894424955470834598u64);
    assert(log2_entries_fit_below(71));
    assert(log2_lower_at(71) == 906987158298229243u64 && log2_upper_at(71) == 906987158298229247u64);
    assert(log2_entries_fit_below(72));
    assert(log2_lower_at(72) == 919543434160163374u64 && log2_upper_at(72) == 919543434160163378u64);
    assert(log2_entries_fit_below(73));
    assert(log2_lower_at(73) == 932093788646795713u64 && log2_upper_at(73) == 932093788646795717u64);
    assert(log2_entries_fit_below(74));
    assert(log2_lower_at(74) == 944638227340379974u64 && log2_upper_at(74) == 944638227340379978u64);
    assert(log2_entries_fit_below(75));
    assert(log2_lower_at(75) == 957176755815279769u64 && log2_upper_at(75) == 957176755815279773u64);
    assert(log2_entries_fit_below(76));
    assert(log2_lower_at(76) == 969709379637983450u64 && log2_upper_at(76) == 969709379637983454u64);
    assert(log2_entries_fit_below(77));
    assert(log2_lower_at(77) == 982236104367118949u64 && log2_upper_at(77) == 982236104367118953u64);
    assert(log2_entries_fit_below(78));
    assert(log2_lower_at(78) == 994756935553468577u64 && log2_upper_at(78) == 994756935553468581u64);
    assert(log2_entries_fit_below(79));
    assert(log2_lower_at(79) == 1007271878739983768u64 && log2_upper_at(79) == 1007271878739983772u64);
    assert(log2_entries_fit_below(80));
    assert(log2_lower_at(80) == 1019780939461799801u64 && log2_upper_at(80) == 1019780939461799805u64);
    assert(log2_entries_fit_below(81));
    assert(log2_lower_at(81) == 1032284123246250505u64 && log2_upper_at(81) == 1032284123246250509u64);
    assert(log2_entries_fit_below(82));
    assert(log2_lower_at(82) == 1044781435612882902u64 && log2_upper_at(82) == 1044781435612882906u64);
    assert(log2_entries_fit_below(83));
    assert(log2_lower_at(83) == 1057272882073471822u64 && log2_upper_at(83) == 1057272882073471826u64);
    assert(log2_entries_fit_below(84));
    assert(log2_lower_at(84) == 1069758468132034503u64 && log2_upper_at(84) == 1069758468132034507u64);
    assert(log2_entries_fit_below(85));
    assert(log2_lower_at(85) == 1082238199284845124u64 && log2_upper_at(85) == 1082238199284845128u64);
    assert(log2_entries_fit_below(86));
    assert(log2_lower_at(86) == 1094712081020449338u64 && log2_upper_at(86) == 1094712081020449342u64);
    assert(log2_entries_fit_below(87));
    assert(log2_lower_at(87) == 1107180118819678749u64 && log2_upper_at(87) == 1107180118819678753u64);
    assert(log2_entries_fit_below(88));
    assert(log2_lower_at(88) == 1119642318155665360u64 && log2_upper_at(88) == 1119642318155665364u64);
    assert(log2_entries_fit_below(89));
    assert(log2_lower_at(89) == 1132098684493855985u64 && log2_upper_at(89) == 1132098684493855989u64);
    assert(log2_entries_fit_below(90));
    assert(log2_lower_at(90) == 1144549223292026638u64 && log2_upper_at(90) == 1144549223292026642u64);
    assert(log2_entries_fit_below(91));
    assert(log2_lower_at(91) == 1156993940000296883u64 && log2_upper_at(91) == 1156993940000296887u64);
    assert(log2_entries_fit_below(92));
    assert(log2_lower_at(92) == 1169432840061144134u64 && log2_upper_at(92) == 1169432840061144138u64);
    assert(log2_entries_fit_below(93));
    assert(log2_lower_at(93) == 1181865928909417954u64 && log2_upper_at(93) == 1181865928909417958u64);
    assert(log2_entries_fit_below(94));
    assert(log2_lower_at(94) == 1194293211972354286u64 && log2_upper_at(94) == 1194293211972354290u64);
    assert(log2_entries_fit_below(95));
    assert(log2_lower_at(95) == 1206714694669589680u64 && log2_upper_at(95) == 1206714694669589684u64);
    assert(log2_entries_fit_below(96));
    assert(log2_lower_at(96) == 1219130382413175474u64 && log2_upper_at(96) == 1219130382413175478u64);
    assert(log2_entries_fit_below(97));
    assert(log2_lower_at(97) == 1231540280607591929u64 && log2_upper_at(97) == 1231540280607591933u64);
    assert(log2_entries_fit_below(98));
    assert(log2_lower_at(98) == 1243944394649762359u64 && log2_upper_at(98) == 1243944394649762363u64);
    assert(log2_entries_fit_below(99));
    assert(log2_lower_at(99) == 1256342729929067210u64 && log2_upper_at(99) == 1256342729929067214u64);
    assert(log2_entries_fit_below(100));
    assert(log2_lower_at(100) == 1268735291827358097u64 && log2_upper_at(100) == 1268735291827358101u64);
    assert(log2_entries_fit_below(101));
    assert(log2_lower_at(101) == 1281122085718971845u64 && log2_upper_at(101) == 1281122085718971849u64);
    assert(log2_entries_fit_below(102));
    assert(log2_lower_at(102) == 1293503116970744448u64 && log2_upper_at(102) == 1293503116970744452u64);
    assert(log2_entries_fit_below(103));
    assert(log2_lower_at(103) == 1305878390942025040u64 && log2_upper_at(103) == 1305878390942025044u64);
    assert(log2_entries_fit_below(104));
    assert(log2_lower_at(104) == 1318247912984689800u64 && log2_upper_at(104) == 1318247912984689804u64);
    assert(log2_entries_fit_below(105));
    assert(log2_lower_at(105) == 1330611688443155850u64 && log2_upper_at(105) == 1330611688443155854u64);
    assert(log2_entries_fit_below(106));
    assert(log2_lower_at(106) == 1342969722654395107u64 && log2_upper_at(106) == 1342969722654395111u64);
    assert(log2_entries_fit_below(107));
    assert(log2_lower_at(107) == 1355322020947948096u64 && log2_upper_at(107) == 1355322020947948100u64);
    assert(log2_entries_fit_below(108));
    assert(log2_lower_at(108) == 1367668588645937757u64 && log2_upper_at(108) == 1367668588645937761u64);
    assert(log2_entries_fit_below(109));
    assert(log2_lower_at(109) == 1380009431063083194u64 && log2_upper_at(109) == 1380009431063083198u64);
    assert(log2_entries_fit_below(110));
    assert(log2_lower_at(110) == 1392344553506713393u64 && log2_upper_at(110) == 1392344553506713397u64);
    assert(log2_entries_fit_below(111));
    assert(log2_lower_at(111) == 1404673961276780942u64 && log2_upper_at(111) == 1404673961276780946u64);
    assert(log2_entries_fit_below(112));
    assert(log2_lower_at(112) == 1416997659665875670u64 && log2_upper_at(112) == 1416997659665875674u64);
    assert(log2_entries_fit_below(113));
    assert(log2_lower_at(113) == 1429315653959238287u64 && log2_upper_at(113) == 1429315653959238291u64);
    assert(log2_entries_fit_below(114));
    assert(log2_lower_at(114) == 1441627949434773985u64 && log2_upper_at(114) == 1441627949434773989u64);
    assert(log2_entries_fit_below(115));
    assert(log2_lower_at(115) == 1453934551363066008u64 && log2_upper_at(115) == 1453934551363066012u64);
    assert(log2_entries_fit_below(116));
    assert(log2_lower_at(116) == 1466235465007389187u64 && log2_upper_at(116) == 1466235465007389191u64);
    assert(log2_entries_fit_below(117));
    assert(log2_lower_at(117) == 1478530695623723446u64 && log2_upper_at(117) == 1478530695623723450u64);
    assert(log2_entries_fit_below(118));
    assert(log2_lower_at(118) == 1490820248460767276u64 && log2_upper_at(118) == 1490820248460767280u64);
    assert(log2_entries_fit_below(119));
    assert(log2_lower_at(119) == 1503104128759951183u64 && log2_upper_at(119) == 1503104128759951187u64);
    assert(log2_entries_fit_below(120));
    assert(log2_lower_at(120) == 1515382341755451091u64 && log2_upper_at(120) == 1515382341755451095u64);
    assert(log2_entries_fit_below(121));
    assert(log2_lower_at(121) == 1527654892674201736u64 && log2_upper_at(121) == 1527654892674201740u64);
    assert(log2_entries_fit_below(122));
    assert(log2_lower_at(122) == 1539921786735910010u64 && log2_upper_at(122) == 1539921786735910014u64);
    assert(log2_entries_fit_below(123));
    assert(log2_lower_at(123) == 1552183029153068284u64 && log2_upper_at(123) == 1552183029153068288u64);
    assert(log2_entries_fit_below(124));
    assert(log2_lower_at(124) == 1564438625130967685u64 && log2_upper_at(124) == 1564438625130967689u64);
    assert(log2_entries_fit_below(125));
    assert(log2_lower_at(125) == 1576688579867711378u64 && log2_upper_at(125) == 1576688579867711382u64);
    assert(log2_entries_fit_below(126));
    assert(log2_lower_at(126) == 1588932898554227779u64 && log2_upper_at(126) == 1588932898554227783u64);
    assert(log2_entries_fit_below(127));
    assert(log2_lower_at(127) == 1601171586374283753u64 && log2_upper_at(127) == 1601171586374283757u64);
    assert(log2_entries_fit_below(128));
    assert(log2_lower_at(128) == 1613404648504497787u64 && log2_upper_at(128) == 1613404648504497791u64);
    assert(log2_entries_fit_below(129));
    assert(log2_lower_at(129) == 1625632090114353122u64 && log2_upper_at(129) == 1625632090114353126u64);
    assert(log2_entries_fit_below(130));
    assert(log2_lower_at(130) == 1637853916366210864u64 && log2_upper_at(130) == 1637853916366210868u64);
    assert(log2_entries_fit_below(131));
    assert(log2_lower_at(131) == 1650070132415323061u64 && log2_upper_at(131) == 1650070132415323065u64);
    assert(log2_entries_fit_below(132));
    assert(log2_lower_at(132) == 1662280743409845754u64 && log2_upper_at(132) == 1662280743409845758u64);
    assert(log2_entries_fit_below(133));
    assert(log2_lower_at(133) == 1674485754490851983u64 && log2_upper_at(133) == 1674485754490851987u64);
    assert(log2_entries_fit_below(134));
    assert(log2_lower_at(134) == 1686685170792344783u64 && log2_upper_at(134) == 1686685170792344787u64);
    assert(log2_entries_fit_below(135));
    assert(log2_lower_at(135) == 1698878997441270138u64 && log2_upper_at(135) == 1698878997441270142u64);
    assert(log2_entries_fit_below(136));
    assert(log2_lower_at(136) == 1711067239557529916u64 && log2_upper_at(136) == 1711067239557529920u64);
    assert(log2_entries_fit_below(137));
    assert(log2_lower_at(137) == 1723249902253994755u64 && log2_upper_at(137) == 1723249902253994759u64);
    assert(log2_entries_fit_below(138));
    assert(log2_lower_at(138) == 1735426990636516946u64 && log2_upper_at(138) == 1735426990636516950u64);
    assert(log2_entries_fit_below(139));
    assert(log2_lower_at(139) == 1747598509803943260u64 && log2_upper_at(139) == 1747598509803943264u64);
    assert(log2_entries_fit_below(140));
    assert(log2_lower_at(140) == 1759764464848127764u64 && log2_upper_at(140) == 1759764464848127768u64);
    assert(log2_entries_fit_below(141));
    assert(log2_lower_at(141) == 1771924860853944605u64 && log2_upper_at(141) == 1771924860853944609u64);
    assert(log2_entries_fit_below(142));
    assert(log2_lower_at(142) == 1784079702899300755u64 && log2_upper_at(142) == 1784079702899300759u64);
    assert(log2_entries_fit_below(143));
    assert(log2_lower_at(143) == 1796228996055148733u64 && log2_upper_at(143) == 1796228996055148737u64);
    assert(log2_entries_fit_below(144));
    assert(log2_lower_at(144) == 1808372745385499309u64 && log2_upper_at(144) == 1808372745385499313u64);
    assert(log2_entries_fit_below(145));
    assert(log2_lower_at(145) == 1820510955947434155u64 && log2_upper_at(145) == 1820510955947434159u64);
    assert(log2_entries_fit_below(146));
    assert(log2_lower_at(146) == 1832643632791118492u64 && log2_upper_at(146) == 1832643632791118496u64);
    assert(log2_entries_fit_below(147));
    assert(log2_lower_at(147) == 1844770780959813686u64 && log2_upper_at(147) == 1844770780959813690u64);
    assert(log2_entries_fit_below(148));
    assert(log2_lower_at(148) == 1856892405489889840u64 && log2_upper_at(148) == 1856892405489889844u64);
    assert(log2_entries_fit_below(149));
    assert(log2_lower_at(149) == 1869008511410838331u64 && log2_upper_at(149) == 1869008511410838335u64);
    assert(log2_entries_fit_below(150));
    assert(log2_lower_at(150) == 1881119103745284335u64 && log2_upper_at(150) == 1881119103745284339u64);
    assert(log2_entries_fit_below(151));
    assert(log2_lower_at(151) == 1893224187508999318u64 && log2_upper_at(151) == 1893224187508999322u64);
    assert(log2_entries_fit_below(152));
    assert(log2_lower_at(152) == 1905323767710913513u64 && log2_upper_at(152) == 1905323767710913517u64);
    assert(log2_entries_fit_below(153));
    assert(log2_lower_at(153) == 1917417849353128334u64 && log2_upper_at(153) == 1917417849353128338u64);
    assert(log2_entries_fit_below(154));
    assert(log2_lower_at(154) == 1929506437430928797u64 && log2_upper_at(154) == 1929506437430928801u64);
    assert(log2_entries_fit_below(155));
    assert(log2_lower_at(155) == 1941589536932795903u64 && log2_upper_at(155) == 1941589536932795907u64);
    assert(log2_entries_fit_below(156));
    assert(log2_lower_at(156) == 1953667152840418976u64 && log2_upper_at(156) == 1953667152840418980u64);
    assert(log2_entries_fit_below(157));
    assert(log2_lower_at(157) == 1965739290128707996u64 && log2_upper_at(157) == 1965739290128708000u64);
    assert(log2_entries_fit_below(158));
    assert(log2_lower_at(158) == 1977805953765805895u64 && log2_upper_at(158) == 1977805953765805899u64);
    assert(log2_entries_fit_below(159));
    assert(log2_lower_at(159) == 1989867148713100818u64 && log2_upper_at(159) == 1989867148713100822u64);
    assert(log2_entries_fit_below(160));
    assert(log2_lower_at(160) == 2001922879925238370u64 && log2_upper_at(160) == 2001922879925238374u64);
    assert(log2_entries_fit_below(161));
    assert(log2_lower_at(161) == 2013973152350133817u64 && log2_upper_at(161) == 2013973152350133821u64);
    assert(log2_entries_fit_below(162));
    assert(log2_lower_at(162) == 2026017970928984286u64 && log2_upper_at(162) == 2026017970928984290u64);
    assert(log2_entries_fit_below(163));
    assert(log2_lower_at(163) == 2038057340596280907u64 && log2_upper_at(163) == 2038057340596280911u64);
    assert(log2_entries_fit_below(164));
    assert(log2_lower_at(164) == 2050091266279820951u64 && log2_upper_at(164) == 2050091266279820955u64);
    assert(log2_entries_fit_below(165));
    assert(log2_lower_at(165) == 2062119752900719931u64 && log2_upper_at(165) == 2062119752900719936u64);
    assert(log2_entries_fit_below(166));
    assert(log2_lower_at(166) == 2074142805373423674u64 && log2_upper_at(166) == 2074142805373423678u64);
    assert(log2_entries_fit_below(167));
    assert(log2_lower_at(167) == 2086160428605720371u64 && log2_upper_at(167) == 2086160428605720375u64);
    assert(log2_entries_fit_below(168));
    assert(log2_lower_at(168) == 2098172627498752586u64 && log2_upper_at(168) == 2098172627498752590u64);
    assert(log2_entries_fit_below(169));
    assert(log2_lower_at(169) == 2110179406947029274u64 && log2_upper_at(169) == 2110179406947029278u64);
    assert(log2_entries_fit_below(170));
    assert(log2_lower_at(170) == 2122180771838437722u64 && log2_upper_at(170) == 2122180771838437726u64);
    assert(log2_entries_fit_below(171));
    assert(log2_lower_at(171) == 2134176727054255496u64 && log2_upper_at(171) == 2134176727054255500u64);
    assert(log2_entries_fit_below(172));
    assert(log2_lower_at(172) == 2146167277469162358u64 && log2_upper_at(172) == 2146167277469162362u64);
    assert(log2_entries_fit_below(173));
    assert(log2_lower_at(173) == 2158152427951252149u64 && log2_upper_at(173) == 2158152427951252153u64);
    assert(log2_entries_fit_below(174));
    assert(log2_lower_at(174) == 2170132183362044645u64 && log2_upper_at(174) == 2170132183362044649u64);
    assert(log2_entries_fit_below(175));
    assert(log2_lower_at(175) == 2182106548556497391u64 && log2_upper_at(175) == 2182106548556497395u64);
    assert(log2_entries_fit_below(176));
    assert(log2_lower_at(176) == 2194075528383017498u64 && log2_upper_at(176) == 2194075528383017503u64);
    assert(log2_entries_fit_below(177));
    assert(log2_lower_at(177) == 2206039127683473440u64 && log2_upper_at(177) == 2206039127683473444u64);
    assert(log2_entries_fit_below(178));
    assert(log2_lower_at(178) == 2217997351293206791u64 && log2_upper_at(178) == 2217997351293206795u64);
    assert(log2_entries_fit_below(179));
    assert(log2_lower_at(179) == 2229950204041043953u64 && log2_upper_at(179) == 2229950204041043957u64);
    assert(log2_entries_fit_below(180));
    assert(log2_lower_at(180) == 2241897690749307859u64 && log2_upper_at(180) == 2241897690749307863u64);
    assert(log2_entries_fit_below(181));
    assert(log2_lower_at(181) == 2253839816233829647u64 && log2_upper_at(181) == 2253839816233829651u64);
    assert(log2_entries_fit_below(182));
    assert(log2_lower_at(182) == 2265776585303960300u64 && log2_upper_at(182) == 2265776585303960304u64);
    assert(log2_entries_fit_below(183));
    assert(log2_lower_at(183) == 2277708002762582278u64 && log2_upper_at(183) == 2277708002762582282u64);
    assert(log2_entries_fit_below(184));
    assert(log2_lower_at(184) == 2289634073406121101u64 && log2_upper_at(184) == 2289634073406121105u64);
    assert(log2_entries_fit_below(185));
    assert(log2_lower_at(185) == 2301554802024556931u64 && log2_upper_at(185) == 2301554802024556936u64);
    assert(log2_entries_fit_below(186));
    assert(log2_lower_at(186) == 2313470193401436105u64 && log2_upper_at(186) == 2313470193401436109u64);
    assert(log2_entries_fit_below(187));
    assert(log2_lower_at(187) == 2325380252313882649u64 && log2_upper_at(187) == 2325380252313882653u64);
    assert(log2_entries_fit_below(188));
    assert(log2_lower_at(188) == 2337284983532609785u64 && log2_upper_at(188) == 2337284983532609789u64);
    assert(log2_entries_fit_below(189));
    assert(log2_lower_at(189) == 2349184391821931380u64 && log2_upper_at(189) == 2349184391821931384u64);
    assert(log2_entries_fit_below(190));
    assert(log2_lower_at(190) == 2361078481939773401u64 && log2_upper_at(190) == 2361078481939773405u64);
    assert(log2_entries_fit_below(191));
    assert(log2_lower_at(191) == 2372967258637685318u64 && log2_upper_at(191) == 2372967258637685322u64);
    assert(log2_entries_fit_below(192));
    assert(log2_lower_at(192) == 2384850726660851497u64 && log2_upper_at(192) == 2384850726660851501u64);
    assert(log2_entries_fit_below(193));
    assert(log2_lower_at(193) == 2396728890748102568u64 && log2_upper_at(193) == 2396728890748102572u64);
    assert(log2_entries_fit_below(194));
    assert(log2_lower_at(194) == 2408601755631926752u64 && log2_upper_at(194) == 2408601755631926756u64);
    assert(log2_entries_fit_below(195));
    assert(log2_lower_at(195) == 2420469326038481192u64 && log2_upper_at(195) == 2420469326038481196u64);
    assert(log2_entries_fit_below(196));
    assert(log2_lower_at(196) == 2432331606687603218u64 && log2_upper_at(196) == 2432331606687603222u64);
    assert(log2_entries_fit_below(197));
    assert(log2_lower_at(197) == 2444188602292821638u64 && log2_upper_at(197) == 2444188602292821642u64);
    assert(log2_entries_fit_below(198));
    assert(log2_lower_at(198) == 2456040317561367945u64 && log2_upper_at(198) == 2456040317561367949u64);
    assert(log2_entries_fit_below(199));
    assert(log2_lower_at(199) == 2467886757194187551u64 && log2_upper_at(199) == 2467886757194187556u64);
    assert(log2_entries_fit_below(200));
    assert(log2_lower_at(200) == 2479727925885950973u64 && log2_upper_at(200) == 2479727925885950977u64);
    assert(log2_entries_fit_below(201));
    assert(log2_lower_at(201) == 2491563828325064981u64 && log2_upper_at(201) == 2491563828325064985u64);
    assert(log2_entries_fit_below(202));
    assert(log2_lower_at(202) == 2503394469193683753u64 && log2_upper_at(202) == 2503394469193683757u64);
    assert(log2_entries_fit_below(203));
    assert(log2_lower_at(203) == 2515219853167719979u64 && log2_upper_at(203) == 2515219853167719983u64);
    assert(log2_entries_fit_below(204));
    assert(log2_lower_at(204) == 2527039984916855954u64 && log2_upper_at(204) == 2527039984916855959u64);
    assert(log2_entries_fit_below(205));
    assert(log2_lower_at(205) == 2538854869104554638u64 && log2_upper_at(205) == 2538854869104554642u64);
    assert(log2_entries_fit_below(206));
    assert(log2_lower_at(206) == 2550664510388070697u64 && log2_upper_at(206) == 2550664510388070701u64);
    assert(log2_entries_fit_below(207));
    assert(log2_lower_at(207) == 2562468913418461518u64 && log2_upper_at(207) == 2562468913418461522u64);
    assert(log2_entries_fit_below(208));
    assert(log2_lower_at(208) == 2574268082840598202u64 && log2_upper_at(208) == 2574268082840598206u64);
    assert(log2_entries_fit_below(209));
    assert(log2_lower_at(209) == 2586062023293176528u64 && log2_upper_at(209) == 2586062023293176532u64);
    assert(log2_entries_fit_below(210));
    assert(log2_lower_at(210) == 2597850739408727892u64 && log2_upper_at(210) == 2597850739408727896u64);
    assert(log2_entries_fit_below(211));
    assert(log2_lower_at(211) == 2609634235813630231u64 && log2_upper_at(211) == 2609634235813630235u64);
    assert(log2_entries_fit_below(212));
    assert(log2_lower_at(212) == 2621412517128118906u64 && log2_upper_at(212) == 2621412517128118910u64);
    assert(log2_entries_fit_below(213));
    assert(log2_lower_at(213) == 2633185587966297589u64 && log2_upper_at(213) == 2633185587966297593u64);
    assert(log2_entries_fit_below(214));
    assert(log2_lower_at(214) == 2644953452936149090u64 && log2_upper_at(214) == 2644953452936149094u64);
    assert(log2_entries_fit_below(215));
    assert(log2_lower_at(215) == 2656716116639546186u64 && log2_upper_at(215) == 2656716116639546190u64);
    assert(log2_entries_fit_below(216));
    assert(log2_lower_at(216) == 2668473583672262423u64 && log2_upper_at(216) == 2668473583672262428u64);
    assert(log2_entries_fit_below(217));
    assert(log2_lower_at(217) == 2680225858623982886u64 && log2_upper_at(217) == 2680225858623982890u64);
    assert(log2_entries_fit_below(218));
    assert(log2_lower_at(218) == 2691972946078314942u64 && log2_upper_at(218) == 2691972946078314946u64);
    assert(log2_entries_fit_below(219));
    assert(log2_lower_at(219) == 2703714850612798974u64 && log2_upper_at(219) == 2703714850612798978u64);
    assert(log2_entries_fit_below(220));
    assert(log2_lower_at(220) == 2715451576798919087u64 && log2_upper_at(220) == 2715451576798919091u64);
    assert(log2_entries_fit_below(221));
    assert(log2_lower_at(221) == 2727183129202113777u64 && log2_upper_at(221) == 2727183129202113781u64);
    assert(log2_entries_fit_below(222));
    assert(log2_lower_at(222) == 2738909512381786594u64 && log2_upper_at(222) == 2738909512381786598u64);
    assert(log2_entries_fit_below(223));
    assert(log2_lower_at(223) == 2750630730891316767u64 && log2_upper_at(223) == 2750630730891316772u64);
    assert(log2_entries_fit_below(224));
    assert(log2_lower_at(224) == 2762346789278069820u64 && log2_upper_at(224) == 2762346789278069825u64);
    assert(log2_entries_fit_below(225));
    assert(log2_lower_at(225) == 2774057692083408154u64 && log2_upper_at(225) == 2774057692083408158u64);
    assert(log2_entries_fit_below(226));
    assert(log2_lower_at(226) == 2785763443842701609u64 && log2_upper_at(226) == 2785763443842701613u64);
    assert(log2_entries_fit_below(227));
    assert(log2_lower_at(227) == 2797464049085337996u64 && log2_upper_at(227) == 2797464049085338000u64);
    assert(log2_entries_fit_below(228));
    assert(log2_lower_at(228) == 2809159512334733629u64 && log2_upper_at(228) == 2809159512334733633u64);
    assert(log2_entries_fit_below(229));
    assert(log2_lower_at(229) == 2820849838108343801u64 && log2_upper_at(229) == 2820849838108343805u64);
    assert(log2_entries_fit_below(230));
    assert(log2_lower_at(230) == 2832535030917673261u64 && log2_upper_at(230) == 2832535030917673265u64);
    assert(log2_entries_fit_below(231));
    assert(log2_lower_at(231) == 2844215095268286660u64 && log2_upper_at(231) == 2844215095268286664u64);
    assert(log2_entries_fit_below(232));
    assert(log2_lower_at(232) == 2855890035659818975u64 && log2_upper_at(232) == 2855890035659818979u64);
    assert(log2_entries_fit_below(233));
    assert(log2_lower_at(233) == 2867559856585985900u64 && log2_upper_at(233) == 2867559856585985904u64);
    assert(log2_entries_fit_below(234));
    assert(log2_lower_at(234) == 2879224562534594244u64 && log2_upper_at(234) == 2879224562534594249u64);
    assert(log2_entries_fit_below(235));
    assert(log2_lower_at(235) == 2890884157987552270u64 && log2_upper_at(235) == 2890884157987552274u64);
    assert(log2_entries_fit_below(236));
    assert(log2_lower_at(236) == 2902538647420880028u64 && log2_upper_at(236) == 2902538647420880032u64);
    assert(log2_entries_fit_below(237));
    assert(log2_lower_at(237) == 2914188035304719674u64 && log2_upper_at(237) == 2914188035304719678u64);
    assert(log2_entries_fit_below(238));
    assert(log2_lower_at(238) == 2925832326103345746u64 && log2_upper_at(238) == 2925832326103345750u64);
    assert(log2_entries_fit_below(239));
    assert(log2_lower_at(239) == 2937471524275175440u64 && log2_upper_at(239) == 2937471524275175444u64);
    assert(log2_entries_fit_below(240));
    assert(log2_lower_at(240) == 2949105634272778847u64 && log2_upper_at(240) == 2949105634272778851u64);
    assert(log2_entries_fit_below(241));
    assert(log2_lower_at(241) == 2960734660542889171u64 && log2_upper_at(241) == 2960734660542889175u64);
    assert(log2_entries_fit_below(242));
    assert(log2_lower_at(242) == 2972358607526412929u64 && log2_upper_at(242) == 2972358607526412933u64);
    assert(log2_entries_fit_below(243));
    assert(log2_lower_at(243) == 2983977479658440126u64 && log2_upper_at(243) == 2983977479658440130u64);
    assert(log2_entries_fit_below(244));
    assert(log2_lower_at(244) == 2995591281368254408u64 && log2_upper_at(244) == 2995591281368254412u64);
    assert(log2_entries_fit_below(245));
    assert(log2_lower_at(245) == 3007200017079343197u64 && log2_upper_at(245) == 3007200017079343201u64);
    assert(log2_entries_fit_below(246));
    assert(log2_lower_at(246) == 3018803691209407792u64 && log2_upper_at(246) == 3018803691209407796u64);
    assert(log2_entries_fit_below(247));
    assert(log2_lower_at(247) == 3030402308170373460u64 && log2_upper_at(247) == 3030402308170373464u64);
    assert(log2_entries_fit_below(248));
    assert(log2_lower_at(248) == 3041995872368399504u64 && log2_upper_at(248) == 3041995872368399508u64);
    assert(log2_entries_fit_below(249));
    assert(log2_lower_at(249) == 3053584388203889302u64 && log2_upper_at(249) == 3053584388203889306u64);
    assert(log2_entries_fit_below(250));
    assert(log2_lower_at(250) == 3065167860071500332u64 && log2_upper_at(250) == 3065167860071500336u64);
    assert(log2_entries_fit_below(251));
    assert(log2_lower_at(251) == 3076746292360154166u64 && log2_upper_at(251) == 3076746292360154171u64);
    assert(log2_entries_fit_below(252));
    assert(log2_lower_at(252) == 3088319689453046453u64 && log2_upper_at(252) == 3088319689453046457u64);
    assert(log2_entries_fit_below(253));
    assert(log2_lower_at(253) == 3099888055727656866u64 && log2_upper_at(253) == 3099888055727656871u64);
    assert(log2_entries_fit_below(254));
    assert(log2_lower_at(254) == 3111451395555759051u64 && log2_upper_at(254) == 3111451395555759055u64);
    assert(log2_entries_fit_below(255));
    assert(log2_lower_at(255) == 3123009713303430529u64 && log2_upper_at(255) == 3123009713303430533u64);
    assert(log2_entries_fit_below(256));
}

/// Entries 256 to 511 fit.
proof fn lemma_log2_page_1()
    requires
        log2_entries_fit_below(256),
    ensures
        log2_entries_fit_below(512),
{
    reveal(log2_lower_at);
    reveal(log2_upper_at);
    assert(log2_lower_at(256) == 3134563013331062588u64 && log2_upper_at(256) == 3134563013331062592u64);
    assert(log2_entries_fit_below(257));
    assert(log2_lower_at(257) == 3146111299993370159u64 && log2_upper_at(257) == 3146111299993370163u64);
    assert(log2_entries_fit_below(258));
    assert(log2_lower_at(258) == 3157654577639401652u64 && log2_upper_at(258) == 3157654577639401656u64);
    assert(log2_entries_fit_below(259));
    assert(log2_lower_at(259) == 3169192850612548798u64 && log2_upper_at(259) == 3169192850612548802u64);
    assert(log2_entries_fit_below(260));
    assert(log2_lower_at(260) == 3180726123250556446u64 && log2_upper_at(260) == 3180726123250556451u64);
    assert(log2_entries_fit_below(261));
    assert(log2_lower_at(261) == 3192254399885532351u64 && log2_upper_at(261) == 3192254399885532355u64);
    assert(log2_entries_fit_below(262));
    assert(log2_lower_at(262) == 3203777684843956931u64 && log2_upper_at(262) == 3203777684843956935u64);
    assert(log2_entries_fit_below(263));
    assert(log2_lower_at(263) == 3215295982446693018u64 && log2_upper_at(263) == 3215295982446693022u64);
    assert(log2_entries_fit_below(264));
    assert(log2_lower_at(264) == 3226809297008995575u64 && log2_upper_at(264) == 3226809297008995579u64);
    assert(log2_entries_fit_below(265));
    assert(log2_lower_at(265) == 3238317632840521395u64 && log2_upper_at(265) == 3238317632840521399u64);
    assert(log2_entries_fit_below(266));
    assert(log2_lower_at(266) == 3249820994245338777u64 && log2_upper_at(266) == 3249820994245338781u64);
    assert(log2_entries_fit_below(267));
    assert(log2_lower_at(267) == 3261319385521937195u64 && log2_upper_at(267) == 3261319385521937199u64);
    assert(log2_entries_fit_below(268));
    assert(log2_lower_at(268) == 3272812810963236927u64 && log2_upper_at(268) == 3272812810963236931u64);
    assert(log2_entries_fit_below(269));
    assert(log2_lower_at(269) == 3284301274856598669u64 && log2_upper_at(269) == 3284301274856598673u64);
    assert(log2_entries_fit_below(270));
    assert(log2_lower_at(270) == 3295784781483833145u64 && log2_upper_at(270) == 3295784781483833149u64);
    assert(log2_entries_fit_below(271));
    assert(log2_lower_at(271) == 3307263335121210658u64 && log2_upper_at(271) == 3307263335121210662u64);
    assert(log2_entries_fit_below(272));
    assert(log2_lower_at(272) == 3318736940039470675u64 && log2_upper_at(272) == 3318736940039470679u64);
    assert(log2_entries_fit_below(273));
    assert(log2_lower_at(273) == 3330205600503831328u64 && log2_upper_at(273) == 3330205600503831332u64);
    assert(log2_entries_fit_below(274));
    assert(log2_lower_at(274) == 3341669320773998956u64 && log2_upper_at(274) == 3341669320773998960u64);
    assert(log2_entries_fit_below(275));
    assert(log2_lower_at(275) == 3353128105104177585u64 && log2_upper_at(275) == 3353128105104177589u64);
    assert(log2_entries_fit_below(276));
    assert(log2_lower_at(276) == 3364581957743078395u64 && log2_upper_at(276) == 3364581957743078399u64);
    assert(log2_entries_fit_below(277));
    assert(log2_lower_at(277) == 3376030882933929184u64 && log2_upper_at(277) == 3376030882933929188u64);
    assert(log2_entries_fit_below(278));
    assert(log2_lower_at(278) == 3387474884914483794u64 && log2_upper_at(278) == 3387474884914483798u64);
    assert(log2_entries_fit_below(279));
    assert(log2_lower_at(279) == 3398913967917031517u64 && log2_upper_at(279) == 3398913967917031521u64);
    assert(log2_entries_fit_below(280));
    assert(log2_lower_at(280) == 3410348136168406498u64 && log2_upper_at(280) == 3410348136168406502u64);
    assert(log2_entries_fit_below(281));
    assert(log2_lower_at(281) == 3421777393889997097u64 && log2_upper_at(281) == 3421777393889997101u64);
    assert(log2_entries_fit_below(282));
    assert(log2_lower_at(282) == 3433201745297755247u64 && log2_upper_at(282) == 3433201745297755251u64);
    assert(log2_entries_fit_below(283));
    assert(log2_lower_at(283) == 3444621194602205775u64 && log2_upper_at(283) == 3444621194602205779u64);
    assert(log2_entries_fit_below(284));
    assert(log2_lower_at(284) == 3456035746008455726u64 && log2_upper_at(284) == 3456035746008455730u64);
    assert(log2_entries_fit_below(285));
    assert(log2_lower_at(285) == 3467445403716203641u64 && log2_upper_at(285) == 3467445403716203645u64);
    assert(log2_entries_fit_below(286));
    assert(log2_lower_at(286) == 3478850171919748833u64 && log2_upper_at(286) == 3478850171919748837u64);
    assert(log2_entries_fit_below(287));
    assert(log2_lower_at(287) == 3490250054808000645u64 && log2_upper_at(287) == 3490250054808000649u64);
    assert(log2_entries_fit_below(288));
    assert(log2_lower_at(288) == 3501645056564487673u64 && log2_upper_at(288) == 3501645056564487677u64);
    assert(log2_entries_fit_below(289));
    assert(log2_lower_at(289) == 3513035181367366980u64 && log2_upper_at(289) == 3513035181367366984u64);
    assert(log2_entries_fit_below(290));
    assert(log2_lower_at(290) == 3524420433389433285u64 && log2_upper_at(290) == 3524420433389433289u64);
    assert(log2_entries_fit_below(291));
    assert(log2_lower_at(291) == 3535800816798128142u64 && log2_upper_at(291) == 3535800816798128146u64);
    assert(log2_entries_fit_below(292));
    assert(log2_lower_at(292) == 3547176335755549086u64 && log2_upper_at(292) == 3547176335755549091u64);
    assert(log2_entries_fit_below(293));
    assert(log2_lower_at(293) == 3558546994418458778u64 && log2_upper_at(293) == 3558546994418458782u64);
    assert(log2_entries_fit_below(294));
    assert(log2_lower_at(294) == 3569912796938294098u64 && log2_upper_at(294) == 3569912796938294102u64);
    assert(log2_entries_fit_below(295));
    assert(log2_lower_at(295) == 3581273747461175254u64 && log2_upper_at(295) == 3581273747461175258u64);
    assert(log2_entries_fit_below(296));
    assert(log2_lower_at(296) == 3592629850127914857u64 && log2_upper_at(296) == 3592629850127914861u64);
    assert(log2_entries_fit_below(297));
    assert(log2_lower_at(297) == 3603981109074026974u64 && log2_upper_at(297) == 3603981109074026978u64);
    assert(log2_entries_fit_below(298));
    assert(log2_lower_at(298) == 3615327528429736158u64 && log2_upper_at(298) == 3615327528429736162u64);
    assert(log2_entries_fit_below(299));
    assert(log2_lower_at(299) == 3626669112319986476u64 && log2_upper_at(299) == 3626669112319986480u64);
    assert(log2_entries_fit_below(300));
    assert(log2_lower_at(300) == 3638005864864450491u64 && log2_upper_at(300) == 3638005864864450495u64);
    assert(log2_entries_fit_below(301));
    assert(log2_lower_at(301) == 3649337790177538262u64 && log2_upper_at(301) == 3649337790177538266u64);
    assert(log2_entries_fit_below(302));
    assert(log2_lower_at(302) == 3660664892368406285u64 && log2_upper_at(302) == 3660664892368406289u64);
    assert(log2_entries_fit_below(303));
    assert(log2_lower_at(303) == 3671987175540966443u64 && log2_upper_at(303) == 3671987175540966447u64);
    assert(log2_entries_fit_below(304));
    assert(log2_lower_at(304) == 3683304643793894917u64 && log2_upper_at(304) == 3683304643793894921u64);
    assert(log2_entries_fit_below(305));
    assert(log2_lower_at(305) == 3694617301220641102u64 && log2_upper_at(305) == 3694617301220641106u64);
    assert(log2_entries_fit_below(306));
    assert(log2_lower_at(306) == 3705925151909436486u64 && log2_upper_at(306) == 3705925151909436490u64);
    assert(log2_entries_fit_below(307));
    assert(log2_lower_at(307) == 3717228199943303506u64 && log2_upper_at(307) == 3717228199943303510u64);
    assert(log2_entries_fit_below(308));
    assert(log2_lower_at(308) == 3728526449400064406u64 && log2_upper_at(308) == 3728526449400064411u64);
    assert(log2_entries_fit_below(309));
    assert(log2_lower_at(309) == 3739819904352350054u64 && log2_upper_at(309) == 3739819904352350058u64);
    assert(log2_entries_fit_below(310));
    assert(log2_lower_at(310) == 3751108568867608757u64 && log2_upper_at(310) == 3751108568867608761u64);
    assert(log2_entries_fit_below(311));
    assert(log2_lower_at(311) == 3762392447008115045u64 && log2_upper_at(311) == 3762392447008115049u64);
    assert(log2_entries_fit_below(312));
    assert(log2_lower_at(312) == 3773671542830978451u64 && log2_upper_at(312) == 3773671542830978455u64);
    assert(log2_entries_fit_below(313));
    assert(log2_lower_at(313) == 3784945860388152252u64 && log2_upper_at(313) == 3784945860388152256u64);
    assert(log2_entries_fit_below(314));
    assert(log2_lower_at(314) == 3796215403726442209u64 && log2_upper_at(314) == 3796215403726442213u64);
    assert(log2_entries_fit_below(315));
    assert(log2_lower_at(315) == 3807480176887515286u64 && log2_upper_at(315) == 3807480176887515290u64);
    assert(log2_entries_fit_below(316));
    assert(log2_lower_at(316) == 3818740183907908340u64 && log2_upper_at(316) == 3818740183907908344u64);
    assert(log2_entries_fit_below(317));
    assert(log2_lower_at(317) == 3829995428819036800u64 && log2_upper_at(317) == 3829995428819036804u64);
    assert(log2_entries_fit_below(318));
    assert(log2_lower_at(318) == 3841245915647203332u64 && log2_upper_at(318) == 3841245915647203337u64);
    assert(log2_entries_fit_below(319));
    assert(log2_lower_at(319) == 3852491648413606477u64 && log2_upper_at(319) == 3852491648413606482u64);
    assert(log2_entries_fit_below(320));
    assert(log2_lower_at(320) == 3863732631134349279u64 && log2_upper_at(320) == 3863732631134349283u64);
    assert(log2_entries_fit_below(321));
    assert(log2_lower_at(321) == 3874968867820447879u64 && log2_upper_at(321) == 3874968867820447883u64);
    assert(log2_entries_fit_below(322));
    assert(log2_lower_at(322) == 3886200362477840125u64 && log2_upper_at(322) == 3886200362477840129u64);
    assert(log2_entries_fit_below(323));
    assert(log2_lower_at(323) == 3897427119107394114u64 && log2_upper_at(323) == 3897427119107394118u64);
    assert(log2_entries_fit_below(324));
    assert(log2_lower_at(324) == 3908649141704916760u64 && log2_upper_at(324) == 3908649141704916764u64);
    assert(log2_entries_fit_below(325));
    assert(log2_lower_at(325) == 3919866434261162324u64 && log2_upper_at(325) == 3919866434261162328u64);
    assert(log2_entries_fit_below(326));
    assert(log2_lower_at(326) == 3931079000761840930u64 && log2_upper_at(326) == 3931079000761840934u64);
    assert(log2_entries_fit_below(327));
    assert(log2_lower_at(327) == 3942286845187627058u64 && log2_upper_at(327) == 3942286845187627062u64);
    assert(log2_entries_fit_below(328));
    assert(log2_lower_at(328) == 3953489971514168021u64 && log2_upper_at(328) == 3953489971514168026u64);
    assert(log2_entries_fit_below(329));
    assert(log2_lower_at(329) == 3964688383712092442u64 && log2_upper_at(329) == 3964688383712092446u64);
    assert(log2_entries_fit_below(330));
    assert(log2_lower_at(330) == 3975882085747018679u64 && log2_upper_at(330) == 3975882085747018683u64);
    assert(log2_entries_fit_below(331));
    assert(log2_lower_at(331) == 3987071081579563257u64 && log2_upper_at(331) == 3987071081579563261u64);
    assert(log2_entries_fit_below(332));
    assert(log2_lower_at(332) == 3998255375165349287u64 && log2_upper_at(332) == 3998255375165349292u64);
    assert(log2_entries_fit_below(333));
    assert(log2_lower_at(333) == 4009434970455014839u64 && log2_upper_at(333) == 4009434970455014843u64);
    assert(log2_entries_fit_below(334));
    assert(log2_lower_at(334) == 4020609871394221324u64 && log2_upper_at(334) == 4020609871394221328u64);
    assert(log2_entries_fit_below(335));
    assert(log2_lower_at(335) == 4031780081923661852u64 && log2_upper_at(335) == 4031780081923661856u64);
    assert(log2_entries_fit_below(336));
    assert(log2_lower_at(336) == 4042945605979069567u64 && log2_upper_at(336) == 4042945605979069571u64);
    assert(log2_entries_fit_below(337));
    assert(log2_lower_at(337) == 4054106447491225965u64 && log2_upper_at(337) == 4054106447491225969u64);
    assert(log2_entries_fit_below(338));
    assert(log2_lower_at(338) == 4065262610385969198u64 && log2_upper_at(338) == 4065262610385969202u64);
    assert(log2_entries_fit_below(339));
    assert(log2_lower_at(339) == 4076414098584202362u64 && log2_upper_at(339) == 4076414098584202366u64);
    assert(log2_entries_fit_below(340));
    assert(log2_lower_at(340) == 4087560916001901763u64 && log2_upper_at(340) == 4087560916001901767u64);
    assert(log2_entries_fit_below(341));
    assert(log2_lower_at(341) == 4098703066550125171u64 && log2_upper_at(341) == 4098703066550125175u64);
    assert(log2_entries_fit_below(342));
    assert(log2_lower_at(342) == 4109840554135020041u64 && log2_upper_at(342) == 4109840554135020045u64);
    assert(log2_entries_fit_below(343));
    assert(log2_lower_at(343) == 4120973382657831752u64 && log2_upper_at(343) == 4120973382657831756u64);
    assert(log2_entries_fit_below(344));
    assert(log2_lower_at(344) == 4132101556014911787u64 && log2_upper_at(344) == 4132101556014911791u64);
    assert(log2_entries_fit_below(345));
    assert(log2_lower_at(345) == 4143225078097725922u64 && log2_upper_at(345) == 4143225078097725926u64);
    assert(log2_entries_fit_below(346));
    assert(log2_lower_at(346) == 4154343952792862392u64 && log2_upper_at(346) == 4154343952792862397u64);
    assert(log2_entries_fit_below(347));
    assert(log2_lower_at(347) == 4165458183982040033u64 && log2_upper_at(347) == 4165458183982040038u64);
    assert(log2_entries_fit_below(348));
    assert(log2_lower_at(348) == 4176567775542116426u64 && log2_upper_at(348) == 4176567775542116430u64);
    assert(log2_entries_fit_below(349));
    assert(log2_lower_at(349) == 4187672731345095993u64 && log2_upper_at(349) == 4187672731345095997u64);
    assert(log2_entries_fit_below(350));
    assert(log2_lower_at(350) == 4198773055258138106u64 && log2_upper_at(350) == 4198773055258138110u64);
    assert(log2_entries_fit_below(351));
    assert(log2_lower_at(351) == 4209868751143565170u64 && log2_upper_at(351) == 4209868751143565175u64);
    assert(log2_entries_fit_below(352));
    assert(log2_lower_at(352) == 4220959822858870671u64 && log2_upper_at(352) == 4220959822858870675u64);
    assert(log2_entries_fit_below(353));
    assert(log2_lower_at(353) == 4232046274256727244u64 && log2_upper_at(353) == 4232046274256727248u64);
    assert(log2_entries_fit_below(354));
    assert(log2_lower_at(354) == 4243128109184994678u64 && log2_upper_at(354) == 4243128109184994682u64);
    assert(log2_entries_fit_below(355));
    assert(log2_lower_at(355) == 4254205331486727951u64 && log2_upper_at(355) == 4254205331486727955u64);
    assert(log2_entries_fit_below(356));
    assert(log2_lower_at(356) == 4265277945000185214u64 && log2_upper_at(356) == 4265277945000185219u64);
    assert(log2_entries_fit_below(357));
    assert(log2_lower_at(357) == 4276345953558835775u64 && log2_upper_at(357) == 4276345953558835779u64);
    assert(log2_entries_fit_below(358));
    assert(log2_lower_at(358) == 4287409360991368064u64 && log2_upper_at(358) == 4287409360991368069u64);
    assert(log2_entries_fit_below(359));
    assert(log2_lower_at(359) == 4298468171121697570u64 && log2_upper_at(359) == 4298468171121697574u64);
    assert(log2_entries_fit_below(360));
    assert(log2_lower_at(360) == 4309522387768974786u64 && log2_upper_at(360) == 4309522387768974791u64);
    assert(log2_entries_fit_below(361));
    assert(log2_lower_at(361) == 4320572014747593107u64 && log2_upper_at(361) == 4320572014747593111u64);
    assert(log2_entries_fit_below(362));
    assert(log2_lower_at(362) == 4331617055867196740u64 && log2_upper_at(362) == 4331617055867196744u64);
    assert(log2_entries_fit_below(363));
    assert(log2_lower_at(363) == 4342657514932688578u64 && log2_upper_at(363) == 4342657514932688582u64);
    assert(log2_entries_fit_below(364));
    assert(log2_lower_at(364) == 4353693395744238065u64 && log2_upper_at(364) == 4353693395744238069u64);
    assert(log2_entries_fit_below(365));
    assert(log2_lower_at(365) == 4364724702097289049u64 && log2_upper_at(365) == 4364724702097289053u64);
    assert(log2_entries_fit_below(366));
    assert(log2_lower_at(366) == 4375751437782567608u64 && log2_upper_at(366) == 4375751437782567612u64);
    assert(log2_entries_fit_below(367));
    assert(log2_lower_at(367) == 4386773606586089871u64 && log2_upper_at(367) == 4386773606586089875u64);
    assert(log2_entries_fit_below(368));
    assert(log2_lower_at(368) == 4397791212289169804u64 && log2_upper_at(368) == 4397791212289169808u64);
    assert(log2_entries_fit_below(369));
    assert(log2_lower_at(369) == 4408804258668427021u64 && log2_upper_at(369) == 4408804258668427025u64);
    assert(log2_entries_fit_below(370));
    assert(log2_lower_at(370) == 4419812749495794521u64 && log2_upper_at(370) == 4419812749495794525u64);
    assert(log2_entries_fit_below(371));
    assert(log2_lower_at(371) == 4430816688538526455u64 && log2_upper_at(371) == 4430816688538526460u64);
    assert(log2_entries_fit_below(372));
    assert(log2_lower_at(372) == 4441816079559205865u64 && log2_upper_at(372) == 4441816079559205869u64);
    assert(log2_entries_fit_below(373));
    assert(log2_lower_at(373) == 4452810926315752391u64 && log2_upper_at(373) == 4452810926315752395u64);
    assert(log2_entries_fit_below(374));
    assert(log2_lower_at(374) == 4463801232561429982u64 && log2_upper_at(374) == 4463801232561429987u64);
    assert(log2_entries_fit_below(375));
    assert(log2_lower_at(375) == 4474787002044854582u64 && log2_upper_at(375) == 4474787002044854586u64);
    assert(log2_entries_fit_below(376));
    assert(log2_lower_at(376) == 4485768238510001805u64 && log2_upper_at(376) == 4485768238510001810u64);
    assert(log2_entries_fit_below(377));
    assert(log2_lower_at(377) == 4496744945696214578u64 && log2_upper_at(377) == 4496744945696214582u64);
    assert(log2_entries_fit_below(378));
    assert(log2_lower_at(378) == 4507717127338210802u64 && log2_upper_at(378) == 4507717127338210807u64);
    assert(log2_entries_fit_below(379));
    assert(log2_lower_at(379) == 4518684787166090954u64 && log2_upper_at(379) == 4518684787166090958u64);
    assert(log2_entries_fit_below(380));
    assert(log2_lower_at(380) == 4529647928905345711u64 && log2_upper_at(380) == 4529647928905345715u64);
    assert(log2_entries_fit_below(381));
    assert(log2_lower_at(381) == 4540606556276863538u64 && log2_upper_at(381) == 4540606556276863542u64);
    assert(log2_entries_fit_below(382));
    assert(log2_lower_at(382) == 4551560672996938261u64 && log2_upper_at(382) == 4551560672996938265u64);
    assert(log2_entries_fit_below(383));
    assert(log2_lower_at(383) == 4562510282777276638u64 && log2_upper_at(383) == 4562510282777276642u64);
    assert(log2_entries_fit_below(384));
    assert(log2_lower_at(384) == 4573455389325005893u64 && log2_upper_at(384) == 4573455389325005897u64);
    assert(log2_entries_fit_below(385));
    assert(log2_lower_at(385) == 4584395996342681260u64 && log2_upper_at(385) == 4584395996342681264u64);
    assert(log2_entries_fit_below(386));
    assert(log2_lower_at(386) == 4595332107528293487u64 && log2_upper_at(386) == 4595332107528293491u64);
    assert(log2_entries_fit_below(387));
    assert(log2_lower_at(387) == 4606263726575276342u64 && log2_upper_at(387) == 4606263726575276346u64);
    assert(log2_entries_fit_below(388));
    assert(log2_lower_at(388) == 4617190857172514092u64 && log2_upper_at(388) == 4617190857172514096u64);
    assert(log2_entries_fit_below(389));
    assert(log2_lower_at(389) == 4628113503004348978u64 && log2_upper_at(389) == 4628113503004348982u64);
    assert(log2_entries_fit_below(390));
    assert(log2_lower_at(390) == 4639031667750588666u64 && log2_upper_at(390) == 4639031667750588670u64);
    assert(log2_entries_fit_below(391));
    assert(log2_lower_at(391) == 4649945355086513682u64 && log2_upper_at(391) == 4649945355086513686u64);
    assert(log2_entries_fit_below(392));
    assert(log2_lower_at(392) == 4660854568682884841u64 && log2_upper_at(392) == 4660854568682884845u64);
    assert(log2_entries_fit_below(393));
    assert(log2_lower_at(393) == 4671759312205950652u64 && log2_upper_at(393) == 4671759312205950657u64);
    assert(log2_entries_fit_below(394));
    assert(log2_lower_at(394) == 4682659589317454710u64 && log2_upper_at(394) == 4682659589317454714u64);
    assert(log2_entries_fit_below(395));
    assert(log2_lower_at(395) == 4693555403674643072u64 && log2_upper_at(395) == 4693555403674643076u64);
    assert(log2_entries_fit_below(396));
    assert(log2_lower_at(396) == 4704446758930271622u64 && log2_upper_at(396) == 4704446758930271626u64);
    assert(log2_entries_fit_below(397));
    assert(log2_lower_at(397) == 4715333658732613418u64 && log2_upper_at(397) == 4715333658732613423u64);
    assert(log2_entries_fit_below(398));
    assert(log2_lower_at(398) == 4726216106725466030u64 && log2_upper_at(398) == 4726216106725466035u64);
    assert(log2_entries_fit_below(399));
    assert(log2_lower_at(399) == 4737094106548158846u64 && log2_upper_at(399) == 4737094106548158850u64);
    assert(log2_entries_fit_below(400));
    assert(log2_lower_at(400) == 4747967661835560378u64 && log2_upper_at(400) == 4747967661835560383u64);
    assert(log2_entries_fit_below(401));
    assert(log2_lower_at(401) == 4758836776218085556u64 && log2_upper_at(401) == 4758836776218085561u64);
    assert(log2_entries_fit_below(402));
    assert(log2_lower_at(402) == 4769701453321702997u64 && log2_upper_at(402) == 4769701453321703002u64);
    assert(log2_entries_fit_below(403));
    assert(log2_lower_at(403) == 4780561696767942262u64 && log2_upper_at(403) == 4780561696767942266u64);
    assert(log2_entries_fit_below(404));
    assert(log2_lower_at(404) == 4791417510173901092u64 && log2_upper_at(404) == 4791417510173901096u64);
    assert(log2_entries_fit_below(405));
    assert(log2_lower_at(405) == 4802268897152252651u64 && log2_upper_at(405) == 4802268897152252656u64);
    assert(log2_entries_fit_below(406));
    assert(log2_lower_at(406) == 4813115861311252732u64 && log2_upper_at(406) == 4813115861311252736u64);
    assert(log2_entries_fit_below(407));
    assert(log2_lower_at(407) == 4823958406254746952u64 && log2_upper_at(407) == 4823958406254746956u64);
    assert(log2_entries_fit_below(408));
    assert(log2_lower_at(408) == 4834796535582177937u64 && log2_upper_at(408) == 4834796535582177941u64);
    assert(log2_entries_fit_below(409));
    assert(log2_lower_at(409) == 4845630252888592507u64 && log2_upper_at(409) == 4845630252888592511u64);
    assert(log2_entries_fit_below(410));
    assert(log2_lower_at(410) == 4856459561764648800u64 && log2_upper_at(410) == 4856459561764648804u64);
    assert(log2_entries_fit_below(411));
    assert(log2_lower_at(411) == 4867284465796623449u64 && log2_upper_at(411) == 4867284465796623453u64);
    assert(log2_entries_fit_below(412));
    assert(log2_lower_at(412) == 4878104968566418678u64 && log2_upper_at(412) == 4878104968566418682u64);
    assert(log2_entries_fit_below(413));
    assert(log2_lower_at(413) == 4888921073651569426u64 && log2_upper_at(413) == 4888921073651569430u64);
    assert(log2_entries_fit_below(414));
    assert(log2_lower_at(414) == 4899732784625250446u64 && log2_upper_at(414) == 4899732784625250450u64);
    assert(log2_entries_fit_below(415));
    assert(log2_lower_at(415) == 4910540105056283387u64 && log2_upper_at(415) == 4910540105056283391u64);
    assert(log2_entries_fit_below(416));
    assert(log2_lower_at(416) == 4921343038509143849u64 && log2_upper_at(416) == 4921343038509143853u64);
    assert(log2_entries_fit_below(417));
    assert(log2_lower_at(417) == 4932141588543968462u64 && log2_upper_at(417) == 4932141588543968466u64);
    assert(log2_entries_fit_below(418));
    assert(log2_lower_at(418) == 4942935758716561900u64 && log2_upper_at(418) == 4942935758716561905u64);
    assert(log2_entries_fit_below(419));
    assert(log2_lower_at(419) == 4953725552578403920u64 && log2_upper_at(419) == 4953725552578403924u64);
    assert(log2_entries_fit_below(420));
    assert(log2_lower_at(420) == 4964510973676656372u64 && log2_upper_at(420) == 4964510973676656376u64);
    assert(log2_entries_fit_below(421));
    assert(log2_lower_at(421) == 4975292025554170193u64 && log2_upper_at(421) == 4975292025554170198u64);
    assert(log2_entries_fit_below(422));
    assert(log2_lower_at(422) == 4986068711749492392u64 && log2_upper_at(422) == 4986068711749492396u64);
    assert(log2_entries_fit_below(423));
    assert(log2_lower_at(423) == 4996841035796873013u64 && log2_upper_at(423) == 4996841035796873017u64);
    assert(log2_entries_fit_below(424));
    assert(log2_lower_at(424) == 5007609001226272100u64 && log2_upper_at(424) == 5007609001226272104u64);
    assert(log2_entries_fit_below(425));
    assert(log2_lower_at(425) == 5018372611563366624u64 && log2_upper_at(425) == 5018372611563366628u64);
    assert(log2_entries_fit_below(426));
    assert(log2_lower_at(426) == 5029131870329557423u64 && log2_upper_at(426) == 5029131870329557427u64);
    assert(log2_entries_fit_below(427));
    assert(log2_lower_at(427) == 5039886781041976104u64 && log2_upper_at(427) == 5039886781041976109u64);
    assert(log2_entries_fit_below(428));
    assert(log2_lower_at(428) == 5050637347213491945u64 && log2_upper_at(428) == 5050637347213491949u64);
    assert(log2_entries_fit_below(429));
    assert(log2_lower_at(429) == 5061383572352718779u64 && log2_upper_at(429) == 5061383572352718783u64);
    assert(log2_entries_fit_below(430));
    assert(log2_lower_at(430) == 5072125459964021868u64 && log2_upper_at(430) == 5072125459964021872u64);
    assert(log2_entries_fit_below(431));
    assert(log2_lower_at(431) == 5082863013547524753u64 && log2_upper_at(431) == 5082863013547524757u64);
    assert(log2_entries_fit_below(432));
    assert(log2_lower_at(432) == 5093596236599116105u64 && log2_upper_at(432) == 5093596236599116109u64);
    assert(log2_entries_fit_below(433));
    assert(log2_lower_at(433) == 5104325132610456544u64 && log2_upper_at(433) == 5104325132610456548u64);
    assert(log2_entries_fit_below(434));
    assert(log2_lower_at(434) == 5115049705068985461u64 && log2_upper_at(434) == 5115049705068985465u64);
    assert(log2_entries_fit_below(435));
    assert(log2_lower_at(435) == 5125769957457927828u64 && log2_upper_at(435) == 5125769957457927832u64);
    assert(log2_entries_fit_below(436));
    assert(log2_lower_at(436) == 5136485893256300961u64 && log2_upper_at(436) == 5136485893256300966u64);
    assert(log2_entries_fit_below(437));
    assert(log2_lower_at(437) == 5147197515938921321u64 && log2_upper_at(437) == 5147197515938921325u64);
    assert(log2_entries_fit_below(438));
    assert(log2_lower_at(438) == 5157904828976411258u64 && log2_upper_at(438) == 5157904828976411262u64);
    assert(log2_entries_fit_below(439));
    assert(log2_lower_at(439) == 5168607835835205766u64 && log2_upper_at(439) == 5168607835835205770u64);
    assert(log2_entries_fit_below(440));
    assert(log2_lower_at(440) == 5179306539977559214u64 && log2_upper_at(440) == 5179306539977559218u64);
    assert(log2_entries_fit_below(441));
    assert(log2_lower_at(441) == 5190000944861552060u64 && log2_upper_at(441) == 5190000944861552064u64);
    assert(log2_entries_fit_below(442));
    assert(log2_lower_at(442) == 5200691053941097569u64 && log2_upper_at(442) == 5200691053941097573u64);
    assert(log2_entries_fit_below(443));
    assert(log2_lower_at(443) == 5211376870665948498u64 && log2_upper_at(443) == 5211376870665948502u64);
    assert(log2_entries_fit_below(444));
    assert(log2_lower_at(444) == 5222058398481703779u64 && log2_upper_at(444) == 5222058398481703783u64);
    assert(log2_entries_fit_below(445));
    assert(log2_lower_at(445) == 5232735640829815177u64 && log2_upper_at(445) == 5232735640829815181u64);
    assert(log2_entries_fit_below(446));
    assert(log2_lower_at(446) == 5243408601147593961u64 && log2_upper_at(446) == 5243408601147593965u64);
    assert(log2_entries_fit_below(447));
    assert(log2_lower_at(447) == 5254077282868217520u64 && log2_upper_at(447) == 5254077282868217524u64);
    assert(log2_entries_fit_below(448));
    assert(log2_lower_at(448) == 5264741689420736008u64 && log2_upper_at(448) == 5264741689420736012u64);
    assert(log2_entries_fit_below(449));
    assert(log2_lower_at(449) == 5275401824230078946u64 && log2_upper_at(449) == 5275401824230078950u64);
    assert(log2_entries_fit_below(450));
    assert(log2_lower_at(450) == 5286057690717061828u64 && log2_upper_at(450) == 5286057690717061833u64);
    assert(log2_entries_fit_below(451));
    assert(log2_lower_at(451) == 5296709292298392705u64 && log2_upper_at(451) == 5296709292298392709u64);
    assert(log2_entries_fit_below(452));
    assert(log2_lower_at(452) == 5307356632386678754u64 && log2_upper_at(452) == 5307356632386678758u64);
    assert(log2_entries_fit_below(453));
    assert(log2_lower_at(453) == 5317999714390432848u64 && log2_upper_at(453) == 5317999714390432853u64);
    assert(log2_entries_fit_below(454));
    assert(log2_lower_at(454) == 5328638541714080090u64 && log2_upper_at(454) == 5328638541714080094u64);
    assert(log2_entries_fit_below(455));
    assert(log2_lower_at(455) == 5339273117757964358u64 && log2_upper_at(455) == 5339273117757964363u64);
    assert(log2_entries_fit_below(456));
    assert(log2_lower_at(456) == 5349903445918354825u64 && log2_upper_at(456) == 5349903445918354829u64);
    assert(log2_entries_fit_below(457));
    assert(log2_lower_at(457) == 5360529529587452456u64 && log2_upper_at(457) == 5360529529587452460u64);
    assert(log2_entries_fit_below(458));
    assert(log2_lower_at(458) == 5371151372153396519u64 && log2_upper_at(458) == 5371151372153396523u64);
    assert(log2_entries_fit_below(459));
    assert(log2_lower_at(459) == 5381768977000271045u64 && log2_upper_at(459) == 5381768977000271050u64);
    assert(log2_entries_fit_below(460));
    assert(log2_lower_at(460) == 5392382347508111327u64 && log2_upper_at(460) == 5392382347508111331u64);
    assert(log2_entries_fit_below(461));
    assert(log2_lower_at(461) == 5402991487052910344u64 && log2_upper_at(461) == 5402991487052910348u64);
    assert(log2_entries_fit_below(462));
    assert(log2_lower_at(462) == 5413596399006625232u64 && log2_upper_at(462) == 5413596399006625236u64);
    assert(log2_entries_fit_below(463));
    assert(log2_lower_at(463) == 5424197086737183692u64 && log2_upper_at(463) == 5424197086737183696u64);
    assert(log2_entries_fit_below(464));
    assert(log2_lower_at(464) == 5434793553608490427u64 && log2_upper_at(464) == 5434793553608490431u64);
    assert(log2_entries_fit_below(465));
    assert(log2_lower_at(465) == 5445385802980433525u64 && log2_upper_at(465) == 5445385802980433529u64);
    assert(log2_entries_fit_below(466));
    assert(log2_lower_at(466) == 5455973838208890874u64 && log2_upper_at(466) == 5455973838208890879u64);
    assert(log2_entries_fit_below(467));
    assert(log2_lower_at(467) == 5466557662645736525u64 && log2_upper_at(467) == 5466557662645736530u64);
    assert(log2_entries_fit_below(468));
    assert(log2_lower_at(468) == 5477137279638847067u64 && log2_upper_at(468) == 5477137279638847071u64);
    assert(log2_entries_fit_below(469));
    assert(log2_lower_at(469) == 5487712692532107974u64 && log2_upper_at(469) == 5487712692532107979u64);
    assert(log2_entries_fit_below(470));
    assert(log2_lower_at(470) == 5498283904665419958u64 && log2_upper_at(470) == 5498283904665419962u64);
    assert(log2_entries_fit_below(471));
    assert(log2_lower_at(471) == 5508850919374705281u64 && log2_upper_at(471) == 5508850919374705285u64);
    assert(log2_entries_fit_below(472));
    assert(log2_lower_at(472) == 5519413739991914088u64 && log2_upper_at(472) == 5519413739991914092u64);
    assert(log2_entries_fit_below(473));
    assert(log2_lower_at(473) == 5529972369845030701u64 && log2_upper_at(473) == 5529972369845030706u64);
    assert(log2_entries_fit_below(474));
    assert(log2_lower_at(474) == 5540526812258079915u64 && log2_upper_at(474) == 5540526812258079919u64);
    assert(log2_entries_fit_below(475));
    assert(log2_lower_at(475) == 5551077070551133267u64 && log2_upper_at(475) == 5551077070551133271u64);
    assert(log2_entries_fit_below(476));
    assert(log2_lower_at(476) == 5561623148040315315u64 && log2_upper_at(476) == 5561623148040315319u64);
    assert(log2_entries_fit_below(477));
    assert(log2_lower_at(477) == 5572165048037809888u64 && log2_upper_at(477) == 5572165048037809893u64);
    assert(log2_entries_fit_below(478));
    assert(log2_lower_at(478) == 5582702773851866323u64 && log2_upper_at(478) == 5582702773851866327u64);
    assert(log2_entries_fit_below(479));
    assert(log2_lower_at(479) == 5593236328786805695u64 && log2_upper_at(479) == 5593236328786805699u64);
    assert(log2_entries_fit_below(480));
    assert(log2_lower_at(480) == 5603765716143027043u64 && log2_upper_at(480) == 5603765716143027047u64);
    assert(log2_entries_fit_below(481));
    assert(log2_lower_at(481) == 5614290939217013565u64 && log2_upper_at(481) == 5614290939217013569u64);
    assert(log2_entries_fit_below(482));
    assert(log2_lower_at(482) == 5624812001301338805u64 && log2_upper_at(482) == 5624812001301338809u64);
    assert(log2_entries_fit_below(483));
    assert(log2_lower_at(483) == 5635328905684672851u64 && log2_upper_at(483) == 5635328905684672855u64);
    assert(log2_entries_fit_below(484));
    assert(log2_lower_at(484) == 5645841655651788485u64 && log2_upper_at(484) == 5645841655651788490u64);
    assert(log2_entries_fit_below(485));
    assert(log2_lower_at(485) == 5656350254483567357u64 && log2_upper_at(485) == 5656350254483567362u64);
    assert(log2_entries_fit_below(486));
    assert(log2_lower_at(486) == 5666854705457006104u64 && log2_upper_at(486) == 5666854705457006108u64);
    assert(log2_entries_fit_below(487));
    assert(log2_lower_at(487) == 5677355011845222506u64 && log2_upper_at(487) == 5677355011845222511u64);
    assert(log2_entries_fit_below(488));
    assert(log2_lower_at(488) == 5687851176917461588u64 && log2_upper_at(488) == 5687851176917461592u64);
    assert(log2_entries_fit_below(489));
    assert(log2_lower_at(489) == 5698343203939101737u64 && log2_upper_at(489) == 5698343203939101742u64);
    assert(log2_entries_fit_below(490));
    assert(log2_lower_at(490) == 5708831096171660793u64 && log2_upper_at(490) == 5708831096171660798u64);
    assert(log2_entries_fit_below(491));
    assert(log2_lower_at(491) == 5719314856872802135u64 && log2_upper_at(491) == 5719314856872802139u64);
    assert(log2_entries_fit_below(492));
    assert(log2_lower_at(492) == 5729794489296340747u64 && log2_upper_at(492) == 5729794489296340751u64);
    assert(log2_entries_fit_below(493));
    assert(log2_lower_at(493) == 5740269996692249282u64 && log2_upper_at(493) == 5740269996692249287u64);
    assert(log2_entries_fit_below(494));
    assert(log2_lower_at(494) == 5750741382306664110u64 && log2_upper_at(494) == 5750741382306664114u64);
    assert(log2_entries_fit_below(495));
    assert(log2_lower_at(495) == 5761208649381891346u64 && log2_upper_at(495) == 5761208649381891350u64);
    assert(log2_entries_fit_below(496));
    assert(log2_lower_at(496) == 5771671801156412883u64 && log2_upper_at(496) == 5771671801156412887u64);
    assert(log2_entries_fit_below(497));
    assert(log2_lower_at(497) == 5782130840864892404u64 && log2_upper_at(497) == 5782130840864892408u64);
    assert(log2_entries_fit_below(498));
    assert(log2_lower_at(498) == 5792585771738181370u64 && log2_upper_at(498) == 5792585771738181375u64);
    assert(log2_entries_fit_below(499));
    assert(log2_lower_at(499) == 5803036597003325015u64 && log2_upper_at(499) == 5803036597003325019u64);
    assert(log2_entries_fit_below(500));
    assert(log2_lower_at(500) == 5813483319883568334u64 && log2_upper_at(500) == 5813483319883568338u64);
    assert(log2_entries_fit_below(501));
    assert(log2_lower_at(501) == 5823925943598362026u64 && log2_upper_at(501) == 5823925943598362030u64);
    assert(log2_entries_fit_below(502));
    assert(log2_lower_at(502) == 5834364471363368461u64 && log2_upper_at(502) == 5834364471363368466u64);
    assert(log2_entries_fit_below(503));
    assert(log2_lower_at(503) == 5844798906390467619u64 && log2_upper_at(503) == 5844798906390467624u64);
    assert(log2_entries_fit_below(504));
    assert(log2_lower_at(504) == 5855229251887763026u64 && log2_upper_at(504) == 5855229251887763031u64);
    assert(log2_entries_fit_below(505));
    assert(log2_lower_at(505) == 5865655511059587650u64 && log2_upper_at(505) == 5865655511059587654u64);
    assert(log2_entries_fit_below(506));
    assert(log2_lower_at(506) == 5876077687106509834u64 && log2_upper_at(506) == 5876077687106509838u64);
    assert(log2_entries_fit_below(507));
    assert(log2_lower_at(507) == 5886495783225339174u64 && log2_upper_at(507) == 5886495783225339178u64);
    assert(log2_entries_fit_below(508));
    assert(log2_lower_at(508) == 5896909802609132412u64 && log2_upper_at(508) == 5896909802609132416u64);
    assert(log2_entries_fit_below(509));
    assert(log2_lower_at(509) == 5907319748447199299u64 && log2_upper_at(509) == 5907319748447199303u64);
    assert(log2_entries_fit_below(510));
    assert(log2_lower_at(510) == 5917725623925108465u64 && log2_upper_at(510) == 5917725623925108470u64);
    assert(log2_entries_fit_below(511));
    assert(log2_lower_at(511) == 5928127432224693258u64 && log2_upper_at(511) == 5928127432224693262u64);
    assert(log2_entries_fit_below(512));
}

/// Entries 512 to 767 fit.
proof fn lemma_log2_page_2()
    requires
        log2_entries_fit_below(512),
    ensures
        log2_entries_fit_below(768),
{
    reveal(log2_lower_at);
    reveal(log2_upper_at);
    assert(log2_lower_at(512) == 5938525176524057592u64 && log2_upper_at(512) == 5938525176524057596u64);
    assert(log2_entries_fit_below(513));
    assert(log2_lower_at(513) == 5948918859997581757u64 && log2_upper_at(513) == 5948918859997581761u64);
    assert(log2_entries_fit_below(514));
    assert(log2_lower_at(514) == 5959308485815928258u64 && log2_upper_at(514) == 5959308485815928263u64);
    assert(log2_entries_fit_below(515));
    assert(log2_lower_at(515) == 5969694057146047599u64 && log2_upper_at(515) == 5969694057146047603u64);
    assert(log2_entries_fit_below(516));
    assert(log2_lower_at(516) == 5980075577151184073u64 && log2_upper_at(516) == 5980075577151184078u64);
    assert(log2_entries_fit_below(517));
    assert(log2_lower_at(517) == 5990453048990881566u64 && log2_upper_at(517) == 5990453048990881571u64);
    assert(log2_entries_fit_below(518));
    assert(log2_lower_at(518) == 6000826475820989294u64 && log2_upper_at(518) == 6000826475820989298u64);
    assert(log2_entries_fit_below(519));
    assert(log2_lower_at(519) == 6011195860793667595u64 && log2_upper_at(519) == 6011195860793667599u64);
    assert(log2_entries_fit_below(520));
    assert(log2_lower_at(520) == 6021561207057393644u64 && log2_upper_at(520) == 6021561207057393648u64);
    assert(log2_entries_fit_below(521));
    assert(log2_lower_at(521) == 6031922517756967218u64 && log2_upper_at(521) == 6031922517756967223u64);
    assert(log2_entries_fit_below(522));
    assert(log2_lower_at(522) == 6042279796033516396u64 && log2_upper_at(522) == 6042279796033516400u64);
    assert(log2_entries_fit_below(523));
    assert(log2_lower_at(523) == 6052633045024503290u64 && log2_upper_at(523) == 6052633045024503294u64);
    assert(log2_entries_fit_below(524));
    assert(log2_lower_at(524) == 6062982267863729737u64 && log2_upper_at(524) == 6062982267863729741u64);
    assert(log2_entries_fit_below(525));
    assert(log2_lower_at(525) == 6073327467681343000u64 && log2_upper_at(525) == 6073327467681343005u64);
    assert(log2_entries_fit_below(526));
    assert(log2_lower_at(526) == 6083668647603841438u64 && log2_upper_at(526) == 6083668647603841443u64);
    assert(log2_entries_fit_below(527));
    assert(log2_lower_at(527) == 6094005810754080183u64 && log2_upper_at(527) == 6094005810754080187u64);
    assert(log2_entries_fit_below(528));
    assert(log2_lower_at(528) == 6104338960251276789u64 && log2_upper_at(528) == 6104338960251276793u64);
    assert(log2_entries_fit_below(529));
    assert(log2_lower_at(529) == 6114668099211016893u64 && log2_upper_at(529) == 6114668099211016898u64);
    assert(log2_entries_fit_below(530));
    assert(log2_lower_at(530) == 6124993230745259842u64 && log2_upper_at(530) == 6124993230745259846u64);
    assert(log2_entries_fit_below(531));
    assert(log2_lower_at(531) == 6135314357962344319u64 && log2_upper_at(531) == 6135314357962344323u64);
    assert(log2_entries_fit_below(532));
    assert(log2_lower_at(532) == 6145631483966993960u64 && log2_upper_at(532) == 6145631483966993965u64);
    assert(log2_entries_fit_below(533));
    assert(log2_lower_at(533) == 6155944611860322953u64 && log2_upper_at(533) == 6155944611860322958u64);
    assert(log2_entries_fit_below(534));
    assert(log2_lower_at(534) == 6166253744739841643u64 && log2_upper_at(534) == 6166253744739841647u64);
    assert(log2_entries_fit_below(535));
    assert(log2_lower_at(535) == 6176558885699462096u64 && log2_upper_at(535) == 6176558885699462100u64);
    assert(log2_entries_fit_below(536));
    assert(log2_lower_at(536) == 6186860037829503681u64 && log2_upper_at(536) == 6186860037829503685u64);
    assert(log2_entries_fit_below(537));
    assert(log2_lower_at(537) == 6197157204216698637u64 && log2_upper_at(537) == 6197157204216698641u64);
    assert(log2_entries_fit_below(538));
    assert(log2_lower_at(538) == 6207450387944197605u64 && log2_upper_at(538) == 6207450387944197609u64);
    assert(log2_entries_fit_below(539));
    assert(log2_lower_at(539) == 6217739592091575183u64 && log2_upper_at(539) == 6217739592091575187u64);
    assert(log2_entries_fit_below(540));
    assert(log2_lower_at(540) == 6228024819734835440u64 && log2_upper_at(540) == 6228024819734835444u64);
    assert(log2_entries_fit_below(541));
    assert(log2_lower_at(541) == 6238306073946417447u64 && log2_upper_at(541) == 6238306073946417452u64);
    assert(log2_entries_fit_below(542));
    assert(log2_lower_at(542) == 6248583357795200776u64 && log2_upper_at(542) == 6248583357795200781u64);
    assert(log2_entries_fit_below(543));
    assert(log2_lower_at(543) == 6258856674346511003u64 && log2_upper_at(543) == 6258856674346511007u64);
    assert(log2_entries_fit_below(544));
    assert(log2_lower_at(544) == 6269126026662125179u64 && log2_upper_at(544) == 6269126026662125183u64);
    assert(log2_entries_fit_below(545));
    assert(log2_lower_at(545) == 6279391417800277325u64 && log2_upper_at(545) == 6279391417800277329u64);
    assert(log2_entries_fit_below(546));
    assert(log2_lower_at(546) == 6289652850815663876u64 && log2_upper_at(546) == 6289652850815663881u64);
    assert(log2_entries_fit_below(547));
    assert(log2_lower_at(547) == 6299910328759449156u64 && log2_upper_at(547) == 6299910328759449161u64);
    assert(log2_entries_fit_below(548));
    assert(log2_lower_at(548) == 6310163854679270803u64 && log2_upper_at(548) == 6310163854679270807u64);
    assert(log2_entries_fit_below(549));
    assert(log2_lower_at(549) == 6320413431619245213u64 && log2_upper_at(549) == 6320413431619245217u64);
    assert(log2_entries_fit_below(550));
    assert(log2_lower_at(550) == 6330659062619972955u64 && log2_upper_at(550) == 6330659062619972960u64);
    assert(log2_entries_fit_below(551));
    assert(log2_lower_at(551) == 6340900750718544198u64 && log2_upper_at(551) == 6340900750718544202u64);
    assert(log2_entries_fit_below(552));
    assert(log2_lower_at(552) == 6351138498948544091u64 && log2_upper_at(552) == 6351138498948544095u64);
    assert(log2_entries_fit_below(553));
    assert(log2_lower_at(553) == 6361372310340058166u64 && log2_upper_at(553) == 6361372310340058170u64);
    assert(log2_entries_fit_below(554));
    assert(log2_lower_at(554) == 6371602187919677727u64 && log2_upper_at(554) == 6371602187919677731u64);
    assert(log2_entries_fit_below(555));
    assert(log2_lower_at(555) == 6381828134710505203u64 && log2_upper_at(555) == 6381828134710505207u64);
    assert(log2_entries_fit_below(556));
    assert(log2_lower_at(556) == 6392050153732159522u64 && log2_upper_at(556) == 6392050153732159527u64);
    assert(log2_entries_fit_below(557));
    assert(log2_lower_at(557) == 6402268248000781451u64 && log2_upper_at(557) == 6402268248000781455u64);
    assert(log2_entries_fit_below(558));
    assert(log2_lower_at(558) == 6412482420529038947u64 && log2_upper_at(558) == 6412482420529038951u64);
    assert(log2_entries_fit_below(559));
    assert(log2_lower_at(559) == 6422692674326132477u64 && log2_upper_at(559) == 6422692674326132481u64);
    assert(log2_entries_fit_below(560));
    assert(log2_lower_at(560) == 6432899012397800339u64 && log2_upper_at(560) == 6432899012397800344u64);
    assert(log2_entries_fit_below(561));
    assert(log2_lower_at(561) == 6443101437746323973u64 && log2_upper_at(561) == 6443101437746323977u64);
    assert(log2_entries_fit_below(562));
    assert(log2_lower_at(562) == 6453299953370533266u64 && log2_upper_at(562) == 6453299953370533270u64);
    assert(log2_entries_fit_below(563));
    assert(log2_lower_at(563) == 6463494562265811822u64 && log2_upper_at(563) == 6463494562265811826u64);
    assert(log2_entries_fit_below(564));
    assert(log2_lower_at(564) == 6473685267424102262u64 && log2_upper_at(564) == 6473685267424102267u64);
    assert(log2_entries_fit_below(565));
    assert(log2_lower_at(565) == 6483872071833911482u64 && log2_upper_at(565) == 6483872071833911486u64);
    assert(log2_entries_fit_below(566));
    assert(log2_lower_at(566) == 6494054978480315911u64 && log2_upper_at(566) == 6494054978480315915u64);
    assert(log2_entries_fit_below(567));
    assert(log2_lower_at(567) == 6504233990344966760u64 && log2_upper_at(567) == 6504233990344966765u64);
    assert(log2_entries_fit_below(568));
    assert(log2_lower_at(568) == 6514409110406095266u64 && log2_upper_at(568) == 6514409110406095270u64);
    assert(log2_entries_fit_below(569));
    assert(log2_lower_at(569) == 6524580341638517908u64 && log2_upper_at(569) == 6524580341638517912u64);
    assert(log2_entries_fit_below(570));
    assert(log2_lower_at(570) == 6534747687013641639u64 && log2_upper_at(570) == 6534747687013641644u64);
    assert(log2_entries_fit_below(571));
    assert(log2_lower_at(571) == 6544911149499469089u64 && log2_upper_at(571) == 6544911149499469094u64);
    assert(log2_entries_fit_below(572));
    assert(log2_lower_at(572) == 6555070732060603758u64 && log2_upper_at(572) == 6555070732060603763u64);
    assert(log2_entries_fit_below(573));
    assert(log2_lower_at(573) == 6565226437658255213u64 && log2_upper_at(573) == 6565226437658255217u64);
    assert(log2_entries_fit_below(574));
    assert(log2_lower_at(574) == 6575378269250244264u64 && log2_upper_at(574) == 6575378269250244268u64);
    assert(log2_entries_fit_below(575));
    assert(log2_lower_at(575) == 6585526229791008130u64 && log2_upper_at(575) == 6585526229791008135u64);
    assert(log2_entries_fit_below(576));
    assert(log2_lower_at(576) == 6595670322231605596u64 && log2_upper_at(576) == 6595670322231605601u64);
    assert(log2_entries_fit_below(577));
    assert(log2_lower_at(577) == 6605810549519722171u64 && log2_upper_at(577) == 6605810549519722176u64);
    assert(log2_entries_fit_below(578));
    assert(log2_lower_at(578) == 6615946914599675222u64 && log2_upper_at(578) == 6615946914599675227u64);
    assert(log2_entries_fit_below(579));
    assert(log2_lower_at(579) == 6626079420412419100u64 && log2_upper_at(579) == 6626079420412419104u64);
    assert(log2_entries_fit_below(580));
    assert(log2_lower_at(580) == 6636208069895550264u64 && log2_upper_at(580) == 6636208069895550269u64);
    assert(log2_entries_fit_below(581));
    assert(log2_lower_at(581) == 6646332865983312393u64 && log2_upper_at(581) == 6646332865983312397u64);
    assert(log2_entries_fit_below(582));
    assert(log2_lower_at(582) == 6656453811606601479u64 && log2_upper_at(582) == 6656453811606601483u64);
    assert(log2_entries_fit_below(583));
    assert(log2_lower_at(583) == 6666570909692970925u64 && log2_upper_at(583) == 6666570909692970930u64);
    assert(log2_entries_fit_below(584));
    assert(log2_lower_at(584) == 6676684163166636624u64 && log2_upper_at(584) == 6676684163166636628u64);
    assert(log2_entries_fit_below(585));
    assert(log2_lower_at(585) == 6686793574948482021u64 && log2_upper_at(585) == 6686793574948482025u64);
    assert(log2_entries_fit_below(586));
    assert(log2_lower_at(586) == 6696899147956063195u64 && log2_upper_at(586) == 6696899147956063200u64);
    assert(log2_entries_fit_below(587));
    assert(log2_lower_at(587) == 6707000885103613893u64 && log2_upper_at(587) == 6707000885103613897u64);
    assert(log2_entries_fit_below(588));
    assert(log2_lower_at(588) == 6717098789302050574u64 && log2_upper_at(588) == 6717098789302050578u64);
    assert(log2_entries_fit_below(589));
    assert(log2_lower_at(589) == 6727192863458977448u64 && log2_upper_at(589) == 6727192863458977453u64);
    assert(log2_entries_fit_below(590));
    assert(log2_lower_at(590) == 6737283110478691503u64 && log2_upper_at(590) == 6737283110478691507u64);
    assert(log2_entries_fit_below(591));
    assert(log2_lower_at(591) == 6747369533262187509u64 && log2_upper_at(591) == 6747369533262187513u64);
    assert(log2_entries_fit_below(592));
    assert(log2_lower_at(592) == 6757452134707163023u64 && log2_upper_at(592) == 6757452134707163027u64);
    assert(log2_entries_fit_below(593));
    assert(log2_lower_at(593) == 6767530917708023395u64 && log2_upper_at(593) == 6767530917708023399u64);
    assert(log2_entries_fit_below(594));
    assert(log2_lower_at(594) == 6777605885155886735u64 && log2_upper_at(594) == 6777605885155886740u64);
    assert(log2_entries_fit_below(595));
    assert(log2_lower_at(595) == 6787677039938588911u64 && log2_upper_at(595) == 6787677039938588916u64);
    assert(log2_entries_fit_below(596));
    assert(log2_lower_at(596) == 6797744384940688499u64 && log2_upper_at(596) == 6797744384940688504u64);
    assert(log2_entries_fit_below(597));
    assert(log2_lower_at(597) == 6807807923043471742u64 && log2_upper_at(597) == 6807807923043471747u64);
    assert(log2_entries_fit_below(598));
    assert(log2_lower_at(598) == 6817867657124957505u64 && log2_upper_at(598) == 6817867657124957510u64);
    assert(log2_entries_fit_below(599));
    assert(log2_lower_at(599) == 6827923590059902213u64 && log2_upper_at(599) == 6827923590059902217u64);
    assert(log2_entries_fit_below(600));
    assert(log2_lower_at(600) == 6837975724719804764u64 && log2_upper_at(600) == 6837975724719804769u64);
    assert(log2_entries_fit_below(601));
    assert(log2_lower_at(601) == 6848024063972911473u64 && log2_upper_at(601) == 6848024063972911478u64);
    assert(log2_entries_fit_below(602));
    assert(log2_lower_at(602) == 6858068610684220966u64 && log2_upper_at(602) == 6858068610684220971u64);
    assert(log2_entries_fit_below(603));
    assert(log2_lower_at(603) == 6868109367715489089u64 && log2_upper_at(603) == 6868109367715489093u64);
    assert(log2_entries_fit_below(604));
    assert(log2_lower_at(604) == 6878146337925233795u64 && log2_upper_at(604) == 6878146337925233800u64);
    assert(log2_entries_fit_below(605));
    assert(log2_lower_at(605) == 6888179524168740028u64 && log2_upper_at(605) == 6888179524168740032u64);
    assert(log2_entries_fit_below(606));
    assert(log2_lower_at(606) == 6898208929298064596u64 && log2_upper_at(606) == 6898208929298064600u64);
    assert(log2_entries_fit_below(607));
    assert(log2_lower_at(607) == 6908234556162041042u64 && log2_upper_at(607) == 6908234556162041046u64);
    assert(log2_entries_fit_below(608));
    assert(log2_lower_at(608) == 6918256407606284487u64 && log2_upper_at(608) == 6918256407606284492u64);
    assert(log2_entries_fit_below(609));
    assert(log2_lower_at(609) == 6928274486473196492u64 && log2_upper_at(609) == 6928274486473196497u64);
    assert(log2_entries_fit_below(610));
    assert(log2_lower_at(610) == 6938288795601969880u64 && log2_upper_at(610) == 6938288795601969885u64);
    assert(log2_entries_fit_below(611));
    assert(log2_lower_at(611) == 6948299337828593568u64 && log2_upper_at(611) == 6948299337828593572u64);
    assert(log2_entries_fit_below(612));
    assert(log2_lower_at(612) == 6958306115985857394u64 && log2_upper_at(612) == 6958306115985857398u64);
    assert(log2_entries_fit_below(613));
    assert(log2_lower_at(613) == 6968309132903356915u64 && log2_upper_at(613) == 6968309132903356919u64);
    assert(log2_entries_fit_below(614));
    assert(log2_lower_at(614) == 6978308391407498217u64 && log2_upper_at(614) == 6978308391407498221u64);
    assert(log2_entries_fit_below(615));
    assert(log2_lower_at(615) == 6988303894321502702u64 && log2_upper_at(615) == 6988303894321502706u64);
    assert(log2_entries_fit_below(616));
    assert(log2_lower_at(616) == 6998295644465411867u64 && log2_upper_at(616) == 6998295644465411872u64);
    assert(log2_entries_fit_below(617));
    assert(log2_lower_at(617) == 7008283644656092095u64 && log2_upper_at(617) == 7008283644656092099u64);
    assert(log2_entries_fit_below(618));
    assert(log2_lower_at(618) == 7018267897707239392u64 && log2_upper_at(618) == 7018267897707239396u64);
    assert(log2_entries_fit_below(619));
    assert(log2_lower_at(619) == 7028248406429384165u64 && log2_upper_at(619) == 7028248406429384169u64);
    assert(log2_entries_fit_below(620));
    assert(log2_lower_at(620) == 7038225173629895963u64 && log2_upper_at(620) == 7038225173629895968u64);
    assert(log2_entries_fit_below(621));
    assert(log2_lower_at(621) == 7048198202112988215u64 && log2_upper_at(621) == 7048198202112988219u64);
    assert(log2_entries_fit_below(622));
    assert(log2_lower_at(622) == 7058167494679722952u64 && log2_upper_at(622) == 7058167494679722957u64);
    assert(log2_entries_fit_below(623));
    assert(log2_lower_at(623) == 7068133054128015538u64 && log2_upper_at(623) == 7068133054128015543u64);
    assert(log2_entries_fit_below(624));
    assert(log2_lower_at(624) == 7078094883252639377u64 && log2_upper_at(624) == 7078094883252639382u64);
    assert(log2_entries_fit_below(625));
    assert(log2_lower_at(625) == 7088052984845230613u64 && log2_upper_at(625) == 7088052984845230617u64);
    assert(log2_entries_fit_below(626));
    assert(log2_lower_at(626) == 7098007361694292830u64 && log2_upper_at(626) == 7098007361694292834u64);
    assert(log2_entries_fit_below(627));
    assert(log2_lower_at(627) == 7107958016585201727u64 && log2_upper_at(627) == 7107958016585201731u64);
    assert(log2_entries_fit_below(628));
    assert(log2_lower_at(628) == 7117904952300209809u64 && log2_upper_at(628) == 7117904952300209813u64);
    assert(log2_entries_fit_below(629));
    assert(log2_lower_at(629) == 7127848171618451044u64 && log2_upper_at(629) == 7127848171618451049u64);
    assert(log2_entries_fit_below(630));
    assert(log2_lower_at(630) == 7137787677315945517u64 && log2_upper_at(630) == 7137787677315945521u64);
    assert(log2_entries_fit_below(631));
    assert(log2_lower_at(631) == 7147723472165604099u64 && log2_upper_at(631) == 7147723472165604103u64);
    assert(log2_entries_fit_below(632));
    assert(log2_lower_at(632) == 7157655558937233066u64 && log2_upper_at(632) == 7157655558937233070u64);
    assert(log2_entries_fit_below(633));
    assert(log2_lower_at(633) == 7167583940397538754u64 && log2_upper_at(633) == 7167583940397538758u64);
    assert(log2_entries_fit_below(634));
    assert(log2_lower_at(634) == 7177508619310132158u64 && log2_upper_at(634) == 7177508619310132162u64);
    assert(log2_entries_fit_below(635));
    assert(log2_lower_at(635) == 7187429598435533577u64 && log2_upper_at(635) == 7187429598435533582u64);
    assert(log2_entries_fit_below(636));
    assert(log2_lower_at(636) == 7197346880531177193u64 && log2_upper_at(636) == 7197346880531177197u64);
    assert(log2_entries_fit_below(637));
    assert(log2_lower_at(637) == 7207260468351415690u64 && log2_upper_at(637) == 7207260468351415694u64);
    assert(log2_entries_fit_below(638));
    assert(log2_lower_at(638) == 7217170364647524834u64 && log2_upper_at(638) == 7217170364647524838u64);
    assert(log2_entries_fit_below(639));
    assert(log2_lower_at(639) == 7227076572167708050u64 && log2_upper_at(639) == 7227076572167708055u64);
    assert(log2_entries_fit_below(640));
    assert(log2_lower_at(640) == 7236979093657101009u64 && log2_upper_at(640) == 7236979093657101014u64);
    assert(log2_entries_fit_below(641));
    assert(log2_lower_at(641) == 7246877931857776179u64 && log2_upper_at(641) == 7246877931857776183u64);
    assert(log2_entries_fit_below(642));
    assert(log2_lower_at(642) == 7256773089508747392u64 && log2_upper_at(642) == 7256773089508747397u64);
    assert(log2_entries_fit_below(643));
    assert(log2_lower_at(643) == 7266664569345974378u64 && log2_upper_at(643) == 7266664569345974383u64);
    assert(log2_entries_fit_below(644));
    assert(log2_lower_at(644) == 7276552374102367317u64 && log2_upper_at(644) == 7276552374102367321u64);
    assert(log2_entries_fit_below(645));
    assert(log2_lower_at(645) == 7286436506507791357u64 && log2_upper_at(645) == 7286436506507791362u64);
    assert(log2_entries_fit_below(646));
    assert(log2_lower_at(646) == 7296316969289071147u64 && log2_upper_at(646) == 7296316969289071151u64);
    assert(log2_entries_fit_below(647));
    assert(log2_lower_at(647) == 7306193765169995349u64 && log2_upper_at(647) == 7306193765169995354u64);
    assert(log2_entries_fit_below(648));
    assert(log2_lower_at(648) == 7316066896871321137u64 && log2_upper_at(648) == 7316066896871321142u64);
    assert(log2_entries_fit_below(649));
    assert(log2_lower_at(649) == 7325936367110778697u64 && log2_upper_at(649) == 7325936367110778702u64);
    assert(log2_entries_fit_below(650));
    assert(log2_lower_at(650) == 7335802178603075714u64 && log2_upper_at(650) == 7335802178603075719u64);
    assert(log2_entries_fit_below(651));
    assert(log2_lower_at(651) == 7345664334059901862u64 && log2_upper_at(651) == 7345664334059901867u64);
    assert(log2_entries_fit_below(652));
    assert(log2_lower_at(652) == 7355522836189933262u64 && log2_upper_at(652) == 7355522836189933266u64);
    assert(log2_entries_fit_below(653));
    assert(log2_lower_at(653) == 7365377687698836953u64 && log2_upper_at(653) == 7365377687698836957u64);
    assert(log2_entries_fit_below(654));
    assert(log2_lower_at(654) == 7375228891289275345u64 && log2_upper_at(654) == 7375228891289275350u64);
    assert(log2_entries_fit_below(655));
    assert(log2_lower_at(655) == 7385076449660910674u64 && log2_upper_at(655) == 7385076449660910678u64);
    assert(log2_entries_fit_below(656));
    assert(log2_lower_at(656) == 7394920365510409424u64 && log2_upper_at(656) == 7394920365510409429u64);
    assert(log2_entries_fit_below(657));
    assert(log2_lower_at(657) == 7404760641531446780u64 && log2_upper_at(657) == 7404760641531446784u64);
    assert(log2_entries_fit_below(658));
    assert(log2_lower_at(658) == 7414597280414711027u64 && log2_upper_at(658) == 7414597280414711032u64);
    assert(log2_entries_fit_below(659));
    assert(log2_lower_at(659) == 7424430284847907990u64 && log2_upper_at(659) == 7424430284847907995u64);
    assert(log2_entries_fit_below(660));
    assert(log2_lower_at(660) == 7434259657515765412u64 && log2_upper_at(660) == 7434259657515765417u64);
    assert(log2_entries_fit_below(661));
    assert(log2_lower_at(661) == 7444085401100037378u64 && log2_upper_at(661) == 7444085401100037382u64);
    assert(log2_entries_fit_below(662));
    assert(log2_lower_at(662) == 7453907518279508683u64 && log2_upper_at(662) == 7453907518279508688u64);
    assert(log2_entries_fit_below(663));
    assert(log2_lower_at(663) == 7463726011729999237u64 && log2_upper_at(663) == 7463726011729999241u64);
    assert(log2_entries_fit_below(664));
    assert(log2_lower_at(664) == 7473540884124368418u64 && log2_upper_at(664) == 7473540884124368423u64);
    assert(log2_entries_fit_below(665));
    assert(log2_lower_at(665) == 7483352138132519444u64 && log2_upper_at(665) == 7483352138132519448u64);
    assert(log2_entries_fit_below(666));
    assert(log2_lower_at(666) == 7493159776421403740u64 && log2_upper_at(666) == 7493159776421403744u64);
    assert(log2_entries_fit_below(667));
    assert(log2_lower_at(667) == 7502963801655025277u64 && log2_upper_at(667) == 7502963801655025282u64);
    assert(log2_entries_fit_below(668));
    assert(log2_lower_at(668) == 7512764216494444917u64 && log2_upper_at(668) == 7512764216494444921u64);
    assert(log2_entries_fit_below(669));
    assert(log2_lower_at(669) == 7522561023597784744u64 && log2_upper_at(669) == 7522561023597784748u64);
    assert(log2_entries_fit_below(670));
    assert(log2_lower_at(670) == 7532354225620232395u64 && log2_upper_at(670) == 7532354225620232400u64);
    assert(log2_entries_fit_below(671));
    assert(log2_lower_at(671) == 7542143825214045380u64 && log2_upper_at(671) == 7542143825214045384u64);
    assert(log2_entries_fit_below(672));
    assert(log2_lower_at(672) == 7551929825028555380u64 && log2_upper_at(672) == 7551929825028555384u64);
    assert(log2_entries_fit_below(673));
    assert(log2_lower_at(673) == 7561712227710172556u64 && log2_upper_at(673) == 7561712227710172560u64);
    assert(log2_entries_fit_below(674));
    assert(log2_lower_at(674) == 7571491035902389848u64 && log2_upper_at(674) == 7571491035902389853u64);
    assert(log2_entries_fit_below(675));
    assert(log2_lower_at(675) == 7581266252245787251u64 && log2_upper_at(675) == 7581266252245787256u64);
    assert(log2_entries_fit_below(676));
    assert(log2_lower_at(676) == 7591037879378036104u64 && log2_upper_at(676) == 7591037879378036108u64);
    assert(log2_entries_fit_below(677));
    assert(log2_lower_at(677) == 7600805919933903346u64 && log2_upper_at(677) == 7600805919933903350u64);
    assert(log2_entries_fit_below(678));
    assert(log2_lower_at(678) == 7610570376545255798u64 && log2_upper_at(678) == 7610570376545255803u64);
    assert(log2_entries_fit_below(679));
    assert(log2_lower_at(679) == 7620331251841064397u64 && log2_upper_at(679) == 7620331251841064401u64);
    assert(log2_entries_fit_below(680));
    assert(log2_lower_at(680) == 7630088548447408457u64 && log2_upper_at(680) == 7630088548447408461u64);
    assert(log2_entries_fit_below(681));
    assert(log2_lower_at(681) == 7639842268987479903u64 && log2_upper_at(681) == 7639842268987479908u64);
    assert(log2_entries_fit_below(682));
    assert(log2_lower_at(682) == 7649592416081587508u64 && log2_upper_at(682) == 7649592416081587512u64);
    assert(log2_entries_fit_below(683));
    assert(log2_lower_at(683) == 7659338992347161103u64 && log2_upper_at(683) == 7659338992347161107u64);
    assert(log2_entries_fit_below(684));
    assert(log2_lower_at(684) == 7669082000398755811u64 && log2_upper_at(684) == 7669082000398755815u64);
    assert(log2_entries_fit_below(685));
    assert(log2_lower_at(685) == 7678821442848056242u64 && log2_upper_at(685) == 7678821442848056246u64);
    assert(log2_entries_fit_below(686));
    assert(log2_lower_at(686) == 7688557322303880695u64 && log2_upper_at(686) == 7688557322303880699u64);
    assert(log2_entries_fit_below(687));
    assert(log2_lower_at(687) == 7698289641372185356u64 && log2_upper_at(687) == 7698289641372185361u64);
    assert(log2_entries_fit_below(688));
    assert(log2_lower_at(688) == 7708018402656068484u64 && log2_upper_at(688) == 7708018402656068489u64);
    assert(log2_entries_fit_below(689));
    assert(log2_lower_at(689) == 7717743608755774576u64 && log2_upper_at(689) == 7717743608755774581u64);
    assert(log2_entries_fit_below(690));
    assert(log2_lower_at(690) == 7727465262268698558u64 && log2_upper_at(690) == 7727465262268698563u64);
    assert(log2_entries_fit_below(691));
    assert(log2_lower_at(691) == 7737183365789389921u64 && log2_upper_at(691) == 7737183365789389925u64);
    assert(log2_entries_fit_below(692));
    assert(log2_lower_at(692) == 7746897921909556902u64 && log2_upper_at(692) == 7746897921909556906u64);
    assert(log2_entries_fit_below(693));
    assert(log2_lower_at(693) == 7756608933218070610u64 && log2_upper_at(693) == 7756608933218070614u64);
    assert(log2_entries_fit_below(694));
    assert(log2_lower_at(694) == 7766316402300969183u64 && log2_upper_at(694) == 7766316402300969187u64);
    assert(log2_entries_fit_below(695));
    assert(log2_lower_at(695) == 7776020331741461905u64 && log2_upper_at(695) == 7776020331741461910u64);
    assert(log2_entries_fit_below(696));
    assert(log2_lower_at(696) == 7785720724119933336u64 && log2_upper_at(696) == 7785720724119933340u64);
    assert(log2_entries_fit_below(697));
    assert(log2_lower_at(697) == 7795417582013947432u64 && log2_upper_at(697) == 7795417582013947437u64);
    assert(log2_entries_fit_below(698));
    assert(log2_lower_at(698) == 7805110907998251657u64 && log2_upper_at(698) == 7805110907998251661u64);
    assert(log2_entries_fit_below(699));
    assert(log2_lower_at(699) == 7814800704644781071u64 && log2_upper_at(699) == 7814800704644781075u64);
    assert(log2_entries_fit_below(700));
    assert(log2_lower_at(700) == 7824486974522662439u64 && log2_upper_at(700) == 7824486974522662443u64);
    assert(log2_entries_fit_below(701));
    assert(log2_lower_at(701) == 7834169720198218314u64 && log2_upper_at(701) == 7834169720198218318u64);
    assert(log2_entries_fit_below(702));
    assert(log2_lower_at(702) == 7843848944234971106u64 && log2_upper_at(702) == 7843848944234971110u64);
    assert(log2_entries_fit_below(703));
    assert(log2_lower_at(703) == 7853524649193647176u64 && log2_upper_at(703) == 7853524649193647180u64);
    assert(log2_entries_fit_below(704));
    assert(log2_lower_at(704) == 7863196837632180878u64 && log2_upper_at(704) == 7863196837632180883u64);
    assert(log2_entries_fit_below(705));
    assert(log2_lower_at(705) == 7872865512105718633u64 && log2_upper_at(705) == 7872865512105718637u64);
    assert(log2_entries_fit_below(706));
    assert(log2_lower_at(706) == 7882530675166622970u64 && log2_upper_at(706) == 7882530675166622974u64);
    assert(log2_entries_fit_below(707));
    assert(log2_lower_at(707) == 7892192329364476568u64 && log2_upper_at(707) == 7892192329364476573u64);
    assert(log2_entries_fit_below(708));
    assert(log2_lower_at(708) == 7901850477246086303u64 && log2_upper_at(708) == 7901850477246086307u64);
    assert(log2_entries_fit_below(709));
    assert(log2_lower_at(709) == 7911505121355487258u64 && log2_upper_at(709) == 7911505121355487262u64);
    assert(log2_entries_fit_below(710));
    assert(log2_lower_at(710) == 7921156264233946759u64 && log2_upper_at(710) == 7921156264233946763u64);
    assert(log2_entries_fit_below(711));
    assert(log2_lower_at(711) == 7930803908419968384u64 && log2_upper_at(711) == 7930803908419968388u64);
    assert(log2_entries_fit_below(712));
    assert(log2_lower_at(712) == 7940448056449295963u64 && log2_upper_at(712) == 7940448056449295967u64);
    assert(log2_entries_fit_below(713));
    assert(log2_lower_at(713) == 7950088710854917584u64 && log2_upper_at(713) == 7950088710854917588u64);
    assert(log2_entries_fit_below(714));
    assert(log2_lower_at(714) == 7959725874167069582u64 && log2_upper_at(714) == 7959725874167069587u64);
    assert(log2_entries_fit_below(715));
    assert(log2_lower_at(715) == 7969359548913240528u64 && log2_upper_at(715) == 7969359548913240533u64);
    assert(log2_entries_fit_below(716));
    assert(log2_lower_at(716) == 7978989737618175196u64 && log2_upper_at(716) == 7978989737618175201u64);
    assert(log2_entries_fit_below(717));
    assert(log2_lower_at(717) == 7988616442803878543u64 && log2_upper_at(717) == 7988616442803878548u64);
    assert(log2_entries_fit_below(718));
    assert(log2_lower_at(718) == 7998239666989619668u64 && log2_upper_at(718) == 7998239666989619673u64);
    assert(log2_entries_fit_below(719));
    assert(log2_lower_at(719) == 8007859412691935763u64 && log2_upper_at(719) == 8007859412691935767u64);
    assert(log2_entries_fit_below(720));
    assert(log2_lower_at(720) == 8017475682424636075u64 && log2_upper_at(720) == 8017475682424636079u64);
    assert(log2_entries_fit_below(721));
    assert(log2_lower_at(721) == 8027088478698805829u64 && log2_upper_at(721) == 8027088478698805833u64);
    assert(log2_entries_fit_below(722));
    assert(log2_lower_at(722) == 8036697804022810181u64 && log2_upper_at(722) == 8036697804022810186u64);
    assert(log2_entries_fit_below(723));
    assert(log2_lower_at(723) == 8046303660902298127u64 && log2_upper_at(723) == 8046303660902298132u64);
    assert(log2_entries_fit_below(724));
    assert(log2_lower_at(724) == 8055906051840206440u64 && log2_upper_at(724) == 8055906051840206444u64);
    assert(log2_entries_fit_below(725));
    assert(log2_lower_at(725) == 8065504979336763575u64 && log2_upper_at(725) == 8065504979336763579u64);
    assert(log2_entries_fit_below(726));
    assert(log2_lower_at(726) == 8075100445889493570u64 && log2_upper_at(726) == 8075100445889493574u64);
    assert(log2_entries_fit_below(727));
    assert(log2_lower_at(727) == 8084692453993219950u64 && log2_upper_at(727) == 8084692453993219955u64);
    assert(log2_entries_fit_below(728));
    assert(log2_lower_at(728) == 8094281006140069630u64 && log2_upper_at(728) == 8094281006140069634u64);
    assert(log2_entries_fit_below(729));
    assert(log2_lower_at(729) == 8103866104819476778u64 && log2_upper_at(729) == 8103866104819476783u64);
    assert(log2_entries_fit_below(730));
    assert(log2_lower_at(730) == 8113447752518186705u64 && log2_upper_at(730) == 8113447752518186709u64);
    assert(log2_entries_fit_below(731));
    assert(log2_lower_at(731) == 8123025951720259743u64 && log2_upper_at(731) == 8123025951720259747u64);
    assert(log2_entries_fit_below(732));
    assert(log2_lower_at(732) == 8132600704907075091u64 && log2_upper_at(732) == 8132600704907075095u64);
    assert(log2_entries_fit_below(733));
    assert(log2_lower_at(733) == 8142172014557334691u64 && log2_upper_at(733) == 8142172014557334695u64);
    assert(log2_entries_fit_below(734));
    assert(log2_lower_at(734) == 8151739883147067063u64 && log2_upper_at(734) == 8151739883147067068u64);
    assert(log2_entries_fit_below(735));
    assert(log2_lower_at(735) == 8161304313149631157u64 && log2_upper_at(735) == 8161304313149631161u64);
    assert(log2_entries_fit_below(736));
    assert(log2_lower_at(736) == 8170865307035720184u64 && log2_upper_at(736) == 8170865307035720188u64);
    assert(log2_entries_fit_below(737));
    assert(log2_lower_at(737) == 8180422867273365451u64 && log2_upper_at(737) == 8180422867273365456u64);
    assert(log2_entries_fit_below(738));
    assert(log2_lower_at(738) == 8189976996327940184u64 && log2_upper_at(738) == 8189976996327940189u64);
    assert(log2_entries_fit_below(739));
    assert(log2_lower_at(739) == 8199527696662163329u64 && log2_upper_at(739) == 8199527696662163333u64);
    assert(log2_entries_fit_below(740));
    assert(log2_lower_at(740) == 8209074970736103384u64 && log2_upper_at(740) == 8209074970736103389u64);
    assert(log2_entries_fit_below(741));
    assert(log2_lower_at(741) == 8218618821007182181u64 && log2_upper_at(741) == 8218618821007182186u64);
    assert(log2_entries_fit_below(742));
    assert(log2_lower_at(742) == 8228159249930178696u64 && log2_upper_at(742) == 8228159249930178701u64);
    assert(log2_entries_fit_below(743));
    assert(log2_lower_at(743) == 8237696259957232821u64 && log2_upper_at(743) == 8237696259957232825u64);
    assert(log2_entries_fit_below(744));
    assert(log2_lower_at(744) == 8247229853537849164u64 && log2_upper_at(744) == 8247229853537849168u64);
    assert(log2_entries_fit_below(745));
    assert(log2_lower_at(745) == 8256760033118900811u64 && log2_upper_at(745) == 8256760033118900815u64);
    assert(log2_entries_fit_below(746));
    assert(log2_lower_at(746) == 8266286801144633099u64 && log2_upper_at(746) == 8266286801144633104u64);
    assert(log2_entries_fit_below(747));
    assert(log2_lower_at(747) == 8275810160056667377u64 && log2_upper_at(747) == 8275810160056667382u64);
    assert(log2_entries_fit_below(748));
    assert(log2_lower_at(748) == 8285330112294004757u64 && log2_upper_at(748) == 8285330112294004761u64);
    assert(log2_entries_fit_below(749));
    assert(log2_lower_at(749) == 8294846660293029869u64 && log2_upper_at(749) == 8294846660293029874u64);
    assert(log2_entries_fit_below(750));
    assert(log2_lower_at(750) == 8304359806487514594u64 && log2_upper_at(750) == 8304359806487514598u64);
    assert(log2_entries_fit_below(751));
    assert(log2_lower_at(751) == 8313869553308621805u64 && log2_upper_at(751) == 8313869553308621810u64);
    assert(log2_entries_fit_below(752));
    assert(log2_lower_at(752) == 8323375903184909092u64 && log2_upper_at(752) == 8323375903184909097u64);
    assert(log2_entries_fit_below(753));
    assert(log2_lower_at(753) == 8332878858542332482u64 && log2_upper_at(753) == 8332878858542332487u64);
    assert(log2_entries_fit_below(754));
    assert(log2_lower_at(754) == 8342378421804250155u64 && log2_upper_at(754) == 8342378421804250159u64);
    assert(log2_entries_fit_below(755));
    assert(log2_lower_at(755) == 8351874595391426157u64 && log2_upper_at(755) == 8351874595391426161u64);
    assert(log2_entries_fit_below(756));
    assert(log2_lower_at(756) == 8361367381722034088u64 && log2_upper_at(756) == 8361367381722034092u64);
    assert(log2_entries_fit_below(757));
    assert(log2_lower_at(757) == 8370856783211660813u64 && log2_upper_at(757) == 8370856783211660818u64);
    assert(log2_entries_fit_below(758));
    assert(log2_lower_at(758) == 8380342802273310133u64 && log2_upper_at(758) == 8380342802273310137u64);
    assert(log2_entries_fit_below(759));
    assert(log2_lower_at(759) == 8389825441317406483u64 && log2_upper_at(759) == 8389825441317406488u64);
    assert(log2_entries_fit_below(760));
    assert(log2_lower_at(760) == 8399304702751798599u64 && log2_upper_at(760) == 8399304702751798603u64);
    assert(log2_entries_fit_below(761));
    assert(log2_lower_at(761) == 8408780588981763179u64 && log2_upper_at(761) == 8408780588981763183u64);
    assert(log2_entries_fit_below(762));
    assert(log2_lower_at(762) == 8418253102410008566u64 && log2_upper_at(762) == 8418253102410008570u64);
    assert(log2_entries_fit_below(763));
    assert(log2_lower_at(763) == 8427722245436678376u64 && log2_upper_at(763) == 8427722245436678381u64);
    assert(log2_entries_fit_below(764));
    assert(log2_lower_at(764) == 8437188020459355173u64 && log2_upper_at(764) == 8437188020459355177u64);
    assert(log2_entries_fit_below(765));
    assert(log2_lower_at(765) == 8446650429873064091u64 && log2_upper_at(765) == 8446650429873064096u64);
    assert(log2_entries_fit_below(766));
    assert(log2_lower_at(766) == 8456109476070276483u64 && log2_upper_at(766) == 8456109476070276488u64);
    assert(log2_entries_fit_below(767));
    assert(log2_lower_at(767) == 8465565161440913547u64 && log2_upper_at(767) == 8465565161440913551u64);
    assert(log2_entries_fit_below(768));
}

/// Entries 768 to 1023 fit.
proof fn lemma_log2_page_3()
    requires
        log2_entries_fit_below(768),
    ensures
        log2_entries_fit_below(1024),
{
    reveal(log2_lower_at);
    reveal(log2_upper_at);
    assert(log2_lower_at(768) == 8475017488372349944u64 && log2_upper_at(768) == 8475017488372349948u64);
    assert(log2_entries_fit_below(769));
    assert(log2_lower_at(769) == 8484466459249417416u64 && log2_upper_at(769) == 8484466459249417421u64);
    assert(log2_entries_fit_below(770));
    assert(log2_lower_at(770) == 8493912076454408409u64 && log2_upper_at(770) == 8493912076454408414u64);
    assert(log2_entries_fit_below(771));
    assert(log2_lower_at(771) == 8503354342367079660u64 && log2_upper_at(771) == 8503354342367079664u64);
    assert(log2_entries_fit_below(772));
    assert(log2_lower_at(772) == 8512793259364655795u64 && log2_upper_at(772) == 8512793259364655799u64);
    assert(log2_entries_fit_below(773));
    assert(log2_lower_at(773) == 8522228829821832939u64 && log2_upper_at(773) == 8522228829821832944u64);
    assert(log2_entries_fit_below(774));
    assert(log2_lower_at(774) == 8531661056110782278u64 && log2_upper_at(774) == 8531661056110782282u64);
    assert(log2_entries_fit_below(775));
    assert(log2_lower_at(775) == 8541089940601153648u64 && log2_upper_at(775) == 8541089940601153652u64);
    assert(log2_entries_fit_below(776));
    assert(log2_lower_at(776) == 8550515485660079108u64 && log2_upper_at(776) == 8550515485660079112u64);
    assert(log2_entries_fit_below(777));
    assert(log2_lower_at(777) == 8559937693652176499u64 && log2_upper_at(777) == 8559937693652176503u64);
    assert(log2_entries_fit_below(778));
    assert(log2_lower_at(778) == 8569356566939553018u64 && log2_upper_at(778) == 8569356566939553023u64);
    assert(log2_entries_fit_below(779));
    assert(log2_lower_at(779) == 8578772107881808748u64 && log2_upper_at(779) == 8578772107881808752u64);
    assert(log2_entries_fit_below(780));
    assert(log2_lower_at(780) == 8588184318836040224u64 && log2_upper_at(780) == 8588184318836040228u64);
    assert(log2_entries_fit_below(781));
    assert(log2_lower_at(781) == 8597593202156843967u64 && log2_upper_at(781) == 8597593202156843972u64);
    assert(log2_entries_fit_below(782));
    assert(log2_lower_at(782) == 8606998760196320019u64 && log2_upper_at(782) == 8606998760196320023u64);
    assert(log2_entries_fit_below(783));
    assert(log2_lower_at(783) == 8616400995304075463u64 && log2_upper_at(783) == 8616400995304075468u64);
    assert(log2_entries_fit_below(784));
    assert(log2_lower_at(784) == 8625799909827227960u64 && log2_upper_at(784) == 8625799909827227965u64);
    assert(log2_entries_fit_below(785));
    assert(log2_lower_at(785) == 8635195506110409255u64 && log2_upper_at(785) == 8635195506110409260u64);
    assert(log2_entries_fit_below(786));
    assert(log2_lower_at(786) == 8644587786495768683u64 && log2_upper_at(786) == 8644587786495768687u64);
    assert(log2_entries_fit_below(787));
    assert(log2_lower_at(787) == 8653976753322976679u64 && log2_upper_at(787) == 8653976753322976684u64);
    assert(log2_entries_fit_below(788));
    assert(log2_lower_at(788) == 8663362408929228278u64 && log2_upper_at(788) == 8663362408929228283u64);
    assert(log2_entries_fit_below(789));
    assert(log2_lower_at(789) == 8672744755649246594u64 && log2_upper_at(789) == 8672744755649246598u64);
    assert(log2_entries_fit_below(790));
    assert(log2_lower_at(790) == 8682123795815286309u64 && log2_upper_at(790) == 8682123795815286314u64);
    assert(log2_entries_fit_below(791));
    assert(log2_lower_at(791) == 8691499531757137165u64 && log2_upper_at(791) == 8691499531757137169u64);
    assert(log2_entries_fit_below(792));
    assert(log2_lower_at(792) == 8700871965802127413u64 && log2_upper_at(792) == 8700871965802127417u64);
    assert(log2_entries_fit_below(793));
    assert(log2_lower_at(793) == 8710241100275127299u64 && log2_upper_at(793) == 8710241100275127303u64);
    assert(log2_entries_fit_below(794));
    assert(log2_lower_at(794) == 8719606937498552510u64 && log2_upper_at(794) == 8719606937498552515u64);
    assert(log2_entries_fit_below(795));
    assert(log2_lower_at(795) == 8728969479792367643u64 && log2_upper_at(795) == 8728969479792367647u64);
    assert(log2_entries_fit_below(796));
    assert(log2_lower_at(796) == 8738328729474089634u64 && log2_upper_at(796) == 8738328729474089639u64);
    assert(log2_entries_fit_below(797));
    assert(log2_lower_at(797) == 8747684688858791222u64 && log2_upper_at(797) == 8747684688858791226u64);
    assert(log2_entries_fit_below(798));
    assert(log2_lower_at(798) == 8757037360259104367u64 && log2_upper_at(798) == 8757037360259104371u64);
    assert(log2_entries_fit_below(799));
    assert(log2_lower_at(799) == 8766386745985223681u64 && log2_upper_at(799) == 8766386745985223686u64);
    assert(log2_entries_fit_below(800));
    assert(log2_lower_at(800) == 8775732848344909871u64 && log2_upper_at(800) == 8775732848344909875u64);
    assert(log2_entries_fit_below(801));
    assert(log2_lower_at(801) == 8785075669643493128u64 && log2_upper_at(801) == 8785075669643493133u64);
    assert(log2_entries_fit_below(802));
    assert(log2_lower_at(802) == 8794415212183876567u64 && log2_upper_at(802) == 8794415212183876572u64);
    assert(log2_entries_fit_below(803));
    assert(log2_lower_at(803) == 8803751478266539608u64 && log2_upper_at(803) == 8803751478266539613u64);
    assert(log2_entries_fit_below(804));
    assert(log2_lower_at(804) == 8813084470189541394u64 && log2_upper_at(804) == 8813084470189541399u64);
    assert(log2_entries_fit_below(805));
    assert(log2_lower_at(805) == 8822414190248524179u64 && log2_upper_at(805) == 8822414190248524183u64);
    assert(log2_entries_fit_below(806));
    assert(log2_lower_at(806) == 8831740640736716712u64 && log2_upper_at(806) == 8831740640736716717u64);
    assert(log2_entries_fit_below(807));
    assert(log2_lower_at(807) == 8841063823944937620u64 && log2_upper_at(807) == 8841063823944937625u64);
    assert(log2_entries_fit_below(808));
    assert(log2_lower_at(808) == 8850383742161598797u64 && log2_upper_at(808) == 8850383742161598801u64);
    assert(log2_entries_fit_below(809));
    assert(log2_lower_at(809) == 8859700397672708753u64 && log2_upper_at(809) == 8859700397672708757u64);
    assert(log2_entries_fit_below(810));
    assert(log2_lower_at(810) == 8869013792761875991u64 && log2_upper_at(810) == 8869013792761875996u64);
    assert(log2_entries_fit_below(811));
    assert(log2_lower_at(811) == 8878323929710312369u64 && log2_upper_at(811) == 8878323929710312373u64);
    assert(log2_entries_fit_below(812));
    assert(log2_lower_at(812) == 8887630810796836442u64 && log2_upper_at(812) == 8887630810796836447u64);
    assert(log2_entries_fit_below(813));
    assert(log2_lower_at(813) == 8896934438297876812u64 && log2_upper_at(813) == 8896934438297876817u64);
    assert(log2_entries_fit_below(814));
    assert(log2_lower_at(814) == 8906234814487475474u64 && log2_upper_at(814) == 8906234814487475479u64);
    assert(log2_entries_fit_below(815));
    assert(log2_lower_at(815) == 8915531941637291150u64 && log2_upper_at(815) == 8915531941637291155u64);
    assert(log2_entries_fit_below(816));
    assert(log2_lower_at(816) == 8924825822016602611u64 && log2_upper_at(816) == 8924825822016602615u64);
    assert(log2_entries_fit_below(817));
    assert(log2_lower_at(817) == 8934116457892312004u64 && log2_upper_at(817) == 8934116457892312008u64);
    assert(log2_entries_fit_below(818));
    assert(log2_lower_at(818) == 8943403851528948170u64 && log2_upper_at(818) == 8943403851528948175u64);
    assert(log2_entries_fit_below(819));
    assert(log2_lower_at(819) == 8952688005188669968u64 && log2_upper_at(819) == 8952688005188669972u64);
    assert(log2_entries_fit_below(820));
    assert(log2_lower_at(820) == 8961968921131269551u64 && log2_upper_at(820) == 8961968921131269555u64);
    assert(log2_entries_fit_below(821));
    assert(log2_lower_at(821) == 8971246601614175701u64 && log2_upper_at(821) == 8971246601614175705u64);
    assert(log2_entries_fit_below(822));
    assert(log2_lower_at(822) == 8980521048892457097u64 && log2_upper_at(822) == 8980521048892457101u64);
    assert(log2_entries_fit_below(823));
    assert(log2_lower_at(823) == 8989792265218825615u64 && log2_upper_at(823) == 8989792265218825619u64);
    assert(log2_entries_fit_below(824));
    assert(log2_lower_at(824) == 8999060252843639617u64 && log2_upper_at(824) == 8999060252843639622u64);
    assert(log2_entries_fit_below(825));
    assert(log2_lower_at(825) == 9008325014014907212u64 && log2_upper_at(825) == 9008325014014907217u64);
    assert(log2_entries_fit_below(826));
    assert(log2_lower_at(826) == 9017586550978289546u64 && log2_upper_at(826) == 9017586550978289550u64);
    assert(log2_entries_fit_below(827));
    assert(log2_lower_at(827) == 9026844865977104046u64 && log2_upper_at(827) == 9026844865977104050u64);
    assert(log2_entries_fit_below(828));
    assert(log2_lower_at(828) == 9036099961252327704u64 && log2_upper_at(828) == 9036099961252327709u64);
    assert(log2_entries_fit_below(829));
    assert(log2_lower_at(829) == 9045351839042600319u64 && log2_upper_at(829) == 9045351839042600324u64);
    assert(log2_entries_fit_below(830));
    assert(log2_lower_at(830) == 9054600501584227742u64 && log2_upper_at(830) == 9054600501584227746u64);
    assert(log2_entries_fit_below(831));
    assert(log2_lower_at(831) == 9063845951111185133u64 && log2_upper_at(831) == 9063845951111185138u64);
    assert(log2_entries_fit_below(832));
    assert(log2_lower_at(832) == 9073088189855120183u64 && log2_upper_at(832) == 9073088189855120188u64);
    assert(log2_entries_fit_below(833));
    assert(log2_lower_at(833) == 9082327220045356353u64 && log2_upper_at(833) == 9082327220045356357u64);
    assert(log2_entries_fit_below(834));
    assert(log2_lower_at(834) == 9091563043908896110u64 && log2_upper_at(834) == 9091563043908896115u64);
    assert(log2_entries_fit_below(835));
    assert(log2_lower_at(835) == 9100795663670424128u64 && log2_upper_at(835) == 9100795663670424132u64);
    assert(log2_entries_fit_below(836));
    assert(log2_lower_at(836) == 9110025081552310518u64 && log2_upper_at(836) == 9110025081552310523u64);
    assert(log2_entries_fit_below(837));
    assert(log2_lower_at(837) == 9119251299774614039u64 && log2_upper_at(837) == 9119251299774614043u64);
    assert(log2_entries_fit_below(838));
    assert(log2_lower_at(838) == 9128474320555085287u64 && log2_upper_at(838) == 9128474320555085292u64);
    assert(log2_entries_fit_below(839));
    assert(log2_lower_at(839) == 9137694146109169907u64 && log2_upper_at(839) == 9137694146109169912u64);
    assert(log2_entries_fit_below(840));
    assert(log2_lower_at(840) == 9146910778650011787u64 && log2_upper_at(840) == 9146910778650011792u64);
    assert(log2_entries_fit_below(841));
    assert(log2_lower_at(841) == 9156124220388456235u64 && log2_upper_at(841) == 9156124220388456239u64);
    assert(log2_entries_fit_below(842));
    assert(log2_lower_at(842) == 9165334473533053167u64 && log2_upper_at(842) == 9165334473533053172u64);
    assert(log2_entries_fit_below(843));
    assert(log2_lower_at(843) == 9174541540290060287u64 && log2_upper_at(843) == 9174541540290060291u64);
    assert(log2_entries_fit_below(844));
    assert(log2_lower_at(844) == 9183745422863446249u64 && log2_upper_at(844) == 9183745422863446254u64);
    assert(log2_entries_fit_below(845));
    assert(log2_lower_at(845) == 9192946123454893830u64 && log2_upper_at(845) == 9192946123454893835u64);
    assert(log2_entries_fit_below(846));
    assert(log2_lower_at(846) == 9202143644263803089u64 && log2_upper_at(846) == 9202143644263803093u64);
    assert(log2_entries_fit_below(847));
    assert(log2_lower_at(847) == 9211337987487294519u64 && log2_upper_at(847) == 9211337987487294524u64);
    assert(log2_entries_fit_below(848));
    assert(log2_lower_at(848) == 9220529155320212196u64 && log2_upper_at(848) == 9220529155320212200u64);
    assert(log2_entries_fit_below(849));
    assert(log2_lower_at(849) == 9229717149955126927u64 && log2_upper_at(849) == 9229717149955126931u64);
    assert(log2_entries_fit_below(850));
    assert(log2_lower_at(850) == 9238901973582339380u64 && log2_upper_at(850) == 9238901973582339385u64);
    assert(log2_entries_fit_below(851));
    assert(log2_lower_at(851) == 9248083628389883229u64 && log2_upper_at(851) == 9248083628389883233u64);
    assert(log2_entries_fit_below(852));
    assert(log2_lower_at(852) == 9257262116563528267u64 && log2_upper_at(852) == 9257262116563528272u64);
    assert(log2_entries_fit_below(853));
    assert(log2_lower_at(853) == 9266437440286783542u64 && log2_upper_at(853) == 9266437440286783547u64);
    assert(log2_entries_fit_below(854));
    assert(log2_lower_at(854) == 9275609601740900463u64 && log2_upper_at(854) == 9275609601740900468u64);
    assert(log2_entries_fit_below(855));
    assert(log2_lower_at(855) == 9284778603104875916u64 && log2_upper_at(855) == 9284778603104875921u64);
    assert(log2_entries_fit_below(856));
    assert(log2_lower_at(856) == 9293944446555455375u64 && log2_upper_at(856) == 9293944446555455379u64);
    assert(log2_entries_fit_below(857));
    assert(log2_lower_at(857) == 9303107134267135988u64 && log2_upper_at(857) == 9303107134267135992u64);
    assert(log2_entries_fit_below(858));
    assert(log2_lower_at(858) == 9312266668412169687u64 && log2_upper_at(858) == 9312266668412169692u64);
    assert(log2_entries_fit_below(859));
    assert(log2_lower_at(859) == 9321423051160566272u64 && log2_upper_at(859) == 9321423051160566277u64);
    assert(log2_entries_fit_below(860));
    assert(log2_lower_at(860) == 9330576284680096493u64 && log2_upper_at(860) == 9330576284680096498u64);
    assert(log2_entries_fit_below(861));
    assert(log2_lower_at(861) == 9339726371136295138u64 && log2_upper_at(861) == 9339726371136295143u64);
    assert(log2_entries_fit_below(862));
    assert(log2_lower_at(862) == 9348873312692464090u64 && log2_upper_at(862) == 9348873312692464095u64);
    assert(log2_entries_fit_below(863));
    assert(log2_lower_at(863) == 9358017111509675417u64 && log2_upper_at(863) == 9358017111509675422u64);
    assert(log2_entries_fit_below(864));
    assert(log2_lower_at(864) == 9367157769746774426u64 && log2_upper_at(864) == 9367157769746774431u64);
    assert(log2_entries_fit_below(865));
    assert(log2_lower_at(865) == 9376295289560382714u64 && log2_upper_at(865) == 9376295289560382719u64);
    assert(log2_entries_fit_below(866));
    assert(log2_lower_at(866) == 9385429673104901229u64 && log2_upper_at(866) == 9385429673104901233u64);
    assert(log2_entries_fit_below(867));
    assert(log2_lower_at(867) == 9394560922532513318u64 && log2_upper_at(867) == 9394560922532513323u64);
    assert(log2_entries_fit_below(868));
    assert(log2_lower_at(868) == 9403689039993187770u64 && log2_upper_at(868) == 9403689039993187775u64);
    assert(log2_entries_fit_below(869));
    assert(log2_lower_at(869) == 9412814027634681849u64 && log2_upper_at(869) == 9412814027634681854u64);
    assert(log2_entries_fit_below(870));
    assert(log2_lower_at(870) == 9421935887602544325u64 && log2_upper_at(870) == 9421935887602544329u64);
    assert(log2_entries_fit_below(871));
    assert(log2_lower_at(871) == 9431054622040118508u64 && log2_upper_at(871) == 9431054622040118513u64);
    assert(log2_entries_fit_below(872));
    assert(log2_lower_at(872) == 9440170233088545266u64 && log2_upper_at(872) == 9440170233088545270u64);
    assert(log2_entries_fit_below(873));
    assert(log2_lower_at(873) == 9449282722886766039u64 && log2_upper_at(873) == 9449282722886766044u64);
    assert(log2_entries_fit_below(874));
    assert(log2_lower_at(874) == 9458392093571525851u64 && log2_upper_at(874) == 9458392093571525856u64);
    assert(log2_entries_fit_below(875));
    assert(log2_lower_at(875) == 9467498347277376323u64 && log2_upper_at(875) == 9467498347277376327u64);
    assert(log2_entries_fit_below(876));
    assert(log2_lower_at(876) == 9476601486136678666u64 && log2_upper_at(876) == 9476601486136678671u64);
    assert(log2_entries_fit_below(877));
    assert(log2_lower_at(877) == 9485701512279606682u64 && log2_upper_at(877) == 9485701512279606686u64);
    assert(log2_entries_fit_below(878));
    assert(log2_lower_at(878) == 9494798427834149745u64 && log2_upper_at(878) == 9494798427834149750u64);
    assert(log2_entries_fit_below(879));
    assert(log2_lower_at(879) == 9503892234926115806u64 && log2_upper_at(879) == 9503892234926115810u64);
    assert(log2_entries_fit_below(880));
    assert(log2_lower_at(880) == 9512982935679134353u64 && log2_upper_at(880) == 9512982935679134358u64);
    assert(log2_entries_fit_below(881));
    assert(log2_lower_at(881) == 9522070532214659399u64 && log2_upper_at(881) == 9522070532214659403u64);
    assert(log2_entries_fit_below(882));
    assert(log2_lower_at(882) == 9531155026651972449u64 && log2_upper_at(882) == 9531155026651972454u64);
    assert(log2_entries_fit_below(883));
    assert(log2_lower_at(883) == 9540236421108185469u64 && log2_upper_at(883) == 9540236421108185473u64);
    assert(log2_entries_fit_below(884));
    assert(log2_lower_at(884) == 9549314717698243832u64 && log2_upper_at(884) == 9549314717698243836u64);
    assert(log2_entries_fit_below(885));
    assert(log2_lower_at(885) == 9558389918534929293u64 && log2_upper_at(885) == 9558389918534929297u64);
    assert(log2_entries_fit_below(886));
    assert(log2_lower_at(886) == 9567462025728862931u64 && log2_upper_at(886) == 9567462025728862935u64);
    assert(log2_entries_fit_below(887));
    assert(log2_lower_at(887) == 9576531041388508083u64 && log2_upper_at(887) == 9576531041388508088u64);
    assert(log2_entries_fit_below(888));
    assert(log2_lower_at(888) == 9585596967620173311u64 && log2_upper_at(888) == 9585596967620173315u64);
    assert(log2_entries_fit_below(889));
    assert(log2_lower_at(889) == 9594659806528015304u64 && log2_upper_at(889) == 9594659806528015309u64);
    assert(log2_entries_fit_below(890));
    assert(log2_lower_at(890) == 9603719560214041835u64 && log2_upper_at(890) == 9603719560214041840u64);
    assert(log2_entries_fit_below(891));
    assert(log2_lower_at(891) == 9612776230778114675u64 && log2_upper_at(891) == 9612776230778114679u64);
    assert(log2_entries_fit_below(892));
    assert(log2_lower_at(892) == 9621829820317952510u64 && log2_upper_at(892) == 9621829820317952514u64);
    assert(log2_entries_fit_below(893));
    assert(log2_lower_at(893) == 9630880330929133862u64 && log2_upper_at(893) == 9630880330929133867u64);
    assert(log2_entries_fit_below(894));
    assert(log2_lower_at(894) == 9639927764705100005u64 && log2_upper_at(894) == 9639927764705100010u64);
    assert(log2_entries_fit_below(895));
    assert(log2_lower_at(895) == 9648972123737157857u64 && log2_upper_at(895) == 9648972123737157862u64);
    assert(log2_entries_fit_below(896));
    assert(log2_lower_at(896) == 9658013410114482881u64 && log2_upper_at(896) == 9658013410114482885u64);
    assert(log2_entries_fit_below(897));
    assert(log2_lower_at(897) == 9667051625924121999u64 && log2_upper_at(897) == 9667051625924122003u64);
    assert(log2_entries_fit_below(898));
    assert(log2_lower_at(898) == 9676086773250996461u64 && log2_upper_at(898) == 9676086773250996466u64);
    assert(log2_entries_fit_below(899));
    assert(log2_lower_at(899) == 9685118854177904741u64 && log2_upper_at(899) == 9685118854177904746u64);
    assert(log2_entries_fit_below(900));
    assert(log2_lower_at(900) == 9694147870785525418u64 && log2_upper_at(900) == 9694147870785525423u64);
    assert(log2_entries_fit_below(901));
    assert(log2_lower_at(901) == 9703173825152420049u64 && log2_upper_at(901) == 9703173825152420054u64);
    assert(log2_entries_fit_below(902));
    assert(log2_lower_at(902) == 9712196719355036043u64 && log2_upper_at(902) == 9712196719355036048u64);
    assert(log2_entries_fit_below(903));
    assert(log2_lower_at(903) == 9721216555467709521u64 && log2_upper_at(903) == 9721216555467709525u64);
    assert(log2_entries_fit_below(904));
    assert(log2_lower_at(904) == 9730233335562668188u64 && log2_upper_at(904) == 9730233335562668192u64);
    assert(log2_entries_fit_below(905));
    assert(log2_lower_at(905) == 9739247061710034175u64 && log2_upper_at(905) == 9739247061710034179u64);
    assert(log2_entries_fit_below(906));
    assert(log2_lower_at(906) == 9748257735977826904u64 && log2_upper_at(906) == 9748257735977826909u64);
    assert(log2_entries_fit_below(907));
    assert(log2_lower_at(907) == 9757265360431965932u64 && log2_upper_at(907) == 9757265360431965937u64);
    assert(log2_entries_fit_below(908));
    assert(log2_lower_at(908) == 9766269937136273787u64 && log2_upper_at(908) == 9766269937136273792u64);
    assert(log2_entries_fit_below(909));
    assert(log2_lower_at(909) == 9775271468152478806u64 && log2_upper_at(909) == 9775271468152478811u64);
    assert(log2_entries_fit_below(910));
    assert(log2_lower_at(910) == 9784269955540217972u64 && log2_upper_at(910) == 9784269955540217976u64);
    assert(log2_entries_fit_below(911));
    assert(log2_lower_at(911) == 9793265401357039744u64 && log2_upper_at(911) == 9793265401357039749u64);
    assert(log2_entries_fit_below(912));
    assert(log2_lower_at(912) == 9802257807658406871u64 && log2_upper_at(912) == 9802257807658406876u64);
    assert(log2_entries_fit_below(913));
    assert(log2_lower_at(913) == 9811247176497699215u64 && log2_upper_at(913) == 9811247176497699219u64);
    assert(log2_entries_fit_below(914));
    assert(log2_lower_at(914) == 9820233509926216562u64 && log2_upper_at(914) == 9820233509926216567u64);
    assert(log2_entries_fit_below(915));
    assert(log2_lower_at(915) == 9829216809993181438u64 && log2_upper_at(915) == 9829216809993181443u64);
    assert(log2_entries_fit_below(916));
    assert(log2_lower_at(916) == 9838197078745741901u64 && log2_upper_at(916) == 9838197078745741906u64);
    assert(log2_entries_fit_below(917));
    assert(log2_lower_at(917) == 9847174318228974353u64 && log2_upper_at(917) == 9847174318228974357u64);
    assert(log2_entries_fit_below(918));
    assert(log2_lower_at(918) == 9856148530485886317u64 && log2_upper_at(918) == 9856148530485886322u64);
    assert(log2_entries_fit_below(919));
    assert(log2_lower_at(919) == 9865119717557419249u64 && log2_upper_at(919) == 9865119717557419254u64);
    assert(log2_entries_fit_below(920));
    assert(log2_lower_at(920) == 9874087881482451305u64 && log2_upper_at(920) == 9874087881482451309u64);
    assert(log2_entries_fit_below(921));
    assert(log2_lower_at(921) == 9883053024297800123u64 && log2_upper_at(921) == 9883053024297800128u64);
    assert(log2_entries_fit_below(922));
    assert(log2_lower_at(922) == 9892015148038225614u64 && log2_upper_at(922) == 9892015148038225618u64);
    assert(log2_entries_fit_below(923));
    assert(log2_lower_at(923) == 9900974254736432714u64 && log2_upper_at(923) == 9900974254736432718u64);
    assert(log2_entries_fit_below(924));
    assert(log2_lower_at(924) == 9909930346423074157u64 && log2_upper_at(924) == 9909930346423074162u64);
    assert(log2_entries_fit_below(925));
    assert(log2_lower_at(925) == 9918883425126753246u64 && log2_upper_at(925) == 9918883425126753250u64);
    assert(log2_entries_fit_below(926));
    assert(log2_lower_at(926) == 9927833492874026590u64 && log2_upper_at(926) == 9927833492874026595u64);
    assert(log2_entries_fit_below(927));
    assert(log2_lower_at(927) == 9936780551689406880u64 && log2_upper_at(927) == 9936780551689406884u64);
    assert(log2_entries_fit_below(928));
    assert(log2_lower_at(928) == 9945724603595365614u64 && log2_upper_at(928) == 9945724603595365619u64);
    assert(log2_entries_fit_below(929));
    assert(log2_lower_at(929) == 9954665650612335858u64 && log2_upper_at(929) == 9954665650612335863u64);
    assert(log2_entries_fit_below(930));
    assert(log2_lower_at(930) == 9963603694758714972u64 && log2_upper_at(930) == 9963603694758714977u64);
    assert(log2_entries_fit_below(931));
    assert(log2_lower_at(931) == 9972538738050867355u64 && log2_upper_at(931) == 9972538738050867360u64);
    assert(log2_entries_fit_below(932));
    assert(log2_lower_at(932) == 9981470782503127159u64 && log2_upper_at(932) == 9981470782503127164u64);
    assert(log2_entries_fit_below(933));
    assert(log2_lower_at(933) == 9990399830127801035u64 && log2_upper_at(933) == 9990399830127801040u64);
    assert(log2_entries_fit_below(934));
    assert(log2_lower_at(934) == 9999325882935170830u64 && log2_upper_at(934) == 9999325882935170835u64);
    assert(log2_entries_fit_below(935));
    assert(log2_lower_at(935) == 10008248942933496321u64 && log2_upper_at(935) == 10008248942933496325u64);
    assert(log2_entries_fit_below(936));
    assert(log2_lower_at(936) == 10017169012129017914u64 && log2_upper_at(936) == 10017169012129017919u64);
    assert(log2_entries_fit_below(937));
    assert(log2_lower_at(937) == 10026086092525959358u64 && log2_upper_at(937) == 10026086092525959363u64);
    assert(log2_entries_fit_below(938));
    assert(log2_lower_at(938) == 10035000186126530442u64 && log2_upper_at(938) == 10035000186126530447u64);
    assert(log2_entries_fit_below(939));
    assert(log2_lower_at(939) == 10043911294930929693u64 && log2_upper_at(939) == 10043911294930929698u64);
    assert(log2_entries_fit_below(940));
    assert(log2_lower_at(940) == 10052819420937347078u64 && log2_upper_at(940) == 10052819420937347083u64);
    assert(log2_entries_fit_below(941));
    assert(log2_lower_at(941) == 10061724566141966680u64 && log2_upper_at(941) == 10061724566141966685u64);
    assert(log2_entries_fit_below(942));
    assert(log2_lower_at(942) == 10070626732538969379u64 && log2_upper_at(942) == 10070626732538969384u64);
    assert(log2_entries_fit_below(943));
    assert(log2_lower_at(943) == 10079525922120535555u64 && log2_upper_at(943) == 10079525922120535560u64);
    assert(log2_entries_fit_below(944));
    assert(log2_lower_at(944) == 10088422136876847731u64 && log2_upper_at(944) == 10088422136876847736u64);
    assert(log2_entries_fit_below(945));
    assert(log2_lower_at(945) == 10097315378796093270u64 && log2_upper_at(945) == 10097315378796093275u64);
    assert(log2_entries_fit_below(946));
    assert(log2_lower_at(946) == 10106205649864467029u64 && log2_upper_at(946) == 10106205649864467034u64);
    assert(log2_entries_fit_below(947));
    assert(log2_lower_at(947) == 10115092952066174019u64 && log2_upper_at(947) == 10115092952066174023u64);
    assert(log2_entries_fit_below(948));
    assert(log2_lower_at(948) == 10123977287383432065u64 && log2_upper_at(948) == 10123977287383432070u64);
    assert(log2_entries_fit_below(949));
    assert(log2_lower_at(949) == 10132858657796474458u64 && log2_upper_at(949) == 10132858657796474463u64);
    assert(log2_entries_fit_below(950));
    assert(log2_lower_at(950) == 10141737065283552613u64 && log2_upper_at(950) == 10141737065283552618u64);
    assert(log2_entries_fit_below(951));
    assert(log2_lower_at(951) == 10150612511820938692u64 && log2_upper_at(951) == 10150612511820938697u64);
    assert(log2_entries_fit_below(952));
    assert(log2_lower_at(952) == 10159484999382928263u64 && log2_upper_at(952) == 10159484999382928268u64);
    assert(log2_entries_fit_below(953));
    assert(log2_lower_at(953) == 10168354529941842925u64 && log2_upper_at(953) == 10168354529941842930u64);
    assert(log2_entries_fit_below(954));
    assert(log2_lower_at(954) == 10177221105468032940u64 && log2_upper_at(954) == 10177221105468032944u64);
    assert(log2_entries_fit_below(955));
    assert(log2_lower_at(955) == 10186084727929879860u64 && log2_upper_at(955) == 10186084727929879864u64);
    assert(log2_entries_fit_below(956));
    assert(log2_lower_at(956) == 10194945399293799148u64 && log2_upper_at(956) == 10194945399293799153u64);
    assert(log2_entries_fit_below(957));
    assert(log2_lower_at(957) == 10203803121524242807u64 && log2_upper_at(957) == 10203803121524242811u64);
    assert(log2_entries_fit_below(958));
    assert(log2_lower_at(958) == 10212657896583701968u64 && log2_upper_at(958) == 10212657896583701973u64);
    assert(log2_entries_fit_below(959));
    assert(log2_lower_at(959) == 10221509726432709522u64 && log2_upper_at(959) == 10221509726432709526u64);
    assert(log2_entries_fit_below(960));
    assert(log2_lower_at(960) == 10230358613029842716u64 && log2_upper_at(960) == 10230358613029842720u64);
    assert(log2_entries_fit_below(961));
    assert(log2_lower_at(961) == 10239204558331725748u64 && log2_upper_at(961) == 10239204558331725753u64);
    assert(log2_entries_fit_below(962));
    assert(log2_lower_at(962) == 10248047564293032379u64 && log2_upper_at(962) == 10248047564293032383u64);
    assert(log2_entries_fit_below(963));
    assert(log2_lower_at(963) == 10256887632866488500u64 && log2_upper_at(963) == 10256887632866488504u64);
    assert(log2_entries_fit_below(964));
    assert(log2_lower_at(964) == 10265724766002874741u64 && log2_upper_at(964) == 10265724766002874746u64);
    assert(log2_entries_fit_below(965));
    assert(log2_lower_at(965) == 10274558965651029047u64 && log2_upper_at(965) == 10274558965651029052u64);
    assert(log2_entries_fit_below(966));
    assert(log2_lower_at(966) == 10283390233757849254u64 && log2_upper_at(966) == 10283390233757849258u64);
    assert(log2_entries_fit_below(967));
    assert(log2_lower_at(967) == 10292218572268295657u64 && log2_upper_at(967) == 10292218572268295662u64);
    assert(log2_entries_fit_below(968));
    assert(log2_lower_at(968) == 10301043983125393601u64 && log2_upper_at(968) == 10301043983125393605u64);
    assert(log2_entries_fit_below(969));
    assert(log2_lower_at(969) == 10309866468270236026u64 && log2_upper_at(969) == 10309866468270236031u64);
    assert(log2_entries_fit_below(970));
    assert(log2_lower_at(970) == 10318686029641986035u64 && log2_upper_at(970) == 10318686029641986039u64);
    assert(log2_entries_fit_below(971));
    assert(log2_lower_at(971) == 10327502669177879459u64 && log2_upper_at(971) == 10327502669177879464u64);
    assert(log2_entries_fit_below(972));
    assert(log2_lower_at(972) == 10336316388813227400u64 && log2_upper_at(972) == 10336316388813227404u64);
    assert(log2_entries_fit_below(973));
    assert(log2_lower_at(973) == 10345127190481418780u64 && log2_upper_at(973) == 10345127190481418784u64);
    assert(log2_entries_fit_below(974));
    assert(log2_lower_at(974) == 10353935076113922898u64 && log2_upper_at(974) == 10353935076113922902u64);
    assert(log2_entries_fit_below(975));
    assert(log2_lower_at(975) == 10362740047640291955u64 && log2_upper_at(975) == 10362740047640291959u64);
    assert(log2_entries_fit_below(976));
    assert(log2_lower_at(976) == 10371542106988163600u64 && log2_upper_at(976) == 10371542106988163605u64);
    assert(log2_entries_fit_below(977));
    assert(log2_lower_at(977) == 10380341256083263457u64 && log2_upper_at(977) == 10380341256083263462u64);
    assert(log2_entries_fit_below(978));
    assert(log2_lower_at(978) == 10389137496849407658u64 && log2_upper_at(978) == 10389137496849407663u64);
    assert(log2_entries_fit_below(979));
    assert(log2_lower_at(979) == 10397930831208505363u64 && log2_upper_at(979) == 10397930831208505368u64);
    assert(log2_entries_fit_below(980));
    assert(log2_lower_at(980) == 10406721261080561278u64 && log2_upper_at(980) == 10406721261080561283u64);
    assert(log2_entries_fit_below(981));
    assert(log2_lower_at(981) == 10415508788383678174u64 && log2_upper_at(981) == 10415508788383678178u64);
    assert(log2_entries_fit_below(982));
    assert(log2_lower_at(982) == 10424293415034059398u64 && log2_upper_at(982) == 10424293415034059402u64);
    assert(log2_entries_fit_below(983));
    assert(log2_lower_at(983) == 10433075142946011374u64 && log2_upper_at(983) == 10433075142946011379u64);
    assert(log2_entries_fit_below(984));
    assert(log2_lower_at(984) == 10441853974031946120u64 && log2_upper_at(984) == 10441853974031946124u64);
    assert(log2_entries_fit_below(985));
    assert(log2_lower_at(985) == 10450629910202383728u64 && log2_upper_at(985) == 10450629910202383733u64);
    assert(log2_entries_fit_below(986));
    assert(log2_lower_at(986) == 10459402953365954876u64 && log2_upper_at(986) == 10459402953365954881u64);
    assert(log2_entries_fit_below(987));
    assert(log2_lower_at(987) == 10468173105429403303u64 && log2_upper_at(987) == 10468173105429403308u64);
    assert(log2_entries_fit_below(988));
    assert(log2_lower_at(988) == 10476940368297588314u64 && log2_upper_at(988) == 10476940368297588319u64);
    assert(log2_entries_fit_below(989));
    assert(log2_lower_at(989) == 10485704743873487241u64 && log2_upper_at(989) == 10485704743873487246u64);
    assert(log2_entries_fit_below(990));
    assert(log2_lower_at(990) == 10494466234058197941u64 && log2_upper_at(990) == 10494466234058197946u64);
    assert(log2_entries_fit_below(991));
    assert(log2_lower_at(991) == 10503224840750941253u64 && log2_upper_at(991) == 10503224840750941258u64);
    assert(log2_entries_fit_below(992));
    assert(log2_lower_at(992) == 10511980565849063486u64 && log2_upper_at(992) == 10511980565849063490u64);
    assert(log2_entries_fit_below(993));
    assert(log2_lower_at(993) == 10520733411248038865u64 && log2_upper_at(993) == 10520733411248038870u64);
    assert(log2_entries_fit_below(994));
    assert(log2_lower_at(994) == 10529483378841472016u64 && log2_upper_at(994) == 10529483378841472020u64);
    assert(log2_entries_fit_below(995));
    assert(log2_lower_at(995) == 10538230470521100399u64 && log2_upper_at(995) == 10538230470521100403u64);
    assert(log2_entries_fit_below(996));
    assert(log2_lower_at(996) == 10546974688176796784u64 && log2_upper_at(996) == 10546974688176796788u64);
    assert(log2_entries_fit_below(997));
    assert(log2_lower_at(997) == 10555716033696571684u64 && log2_upper_at(997) == 10555716033696571689u64);
    assert(log2_entries_fit_below(998));
    assert(log2_lower_at(998) == 10564454508966575815u64 && log2_upper_at(998) == 10564454508966575820u64);
    assert(log2_entries_fit_below(999));
    assert(log2_lower_at(999) == 10573190115871102530u64 && log2_upper_at(999) == 10573190115871102535u64);
    assert(log2_entries_fit_below(1000));
    assert(log2_lower_at(1000) == 10581922856292590257u64 && log2_upper_at(1000) == 10581922856292590261u64);
    assert(log2_entries_fit_below(1001));
    assert(log2_lower_at(1001) == 10590652732111624934u64 && log2_upper_at(1001) == 10590652732111624939u64);
    assert(log2_entries_fit_below(1002));
    assert(log2_lower_at(1002) == 10599379745206942436u64 && log2_upper_at(1002) == 10599379745206942441u64);
    assert(log2_entries_fit_below(1003));
    assert(log2_lower_at(1003) == 10608103897455431007u64 && log2_upper_at(1003) == 10608103897455431011u64);
    assert(log2_entries_fit_below(1004));
    assert(log2_lower_at(1004) == 10616825190732133684u64 && log2_upper_at(1004) == 10616825190732133689u64);
    assert(log2_entries_fit_below(1005));
    assert(log2_lower_at(1005) == 10625543626910250699u64 && log2_upper_at(1005) == 10625543626910250704u64);
    assert(log2_entries_fit_below(1006));
    assert(log2_lower_at(1006) == 10634259207861141913u64 && log2_upper_at(1006) == 10634259207861141918u64);
    assert(log2_entries_fit_below(1007));
    assert(log2_lower_at(1007) == 10642971935454329214u64 && log2_upper_at(1007) == 10642971935454329219u64);
    assert(log2_entries_fit_below(1008));
    assert(log2_lower_at(1008) == 10651681811557498922u64 && log2_upper_at(1008) == 10651681811557498926u64);
    assert(log2_entries_fit_below(1009));
    assert(log2_lower_at(1009) == 10660388838036504199u64 && log2_upper_at(1009) == 10660388838036504204u64);
    assert(log2_entries_fit_below(1010));
    assert(log2_lower_at(1010) == 10669093016755367443u64 && log2_upper_at(1010) == 10669093016755367447u64);
    assert(log2_entries_fit_below(1011));
    assert(log2_lower_at(1011) == 10677794349576282685u64 && log2_upper_at(1011) == 10677794349576282690u64);
    assert(log2_entries_fit_below(1012));
    assert(log2_lower_at(1012) == 10686492838359617971u64 && log2_upper_at(1012) == 10686492838359617975u64);
    assert(log2_entries_fit_below(1013));
    assert(log2_lower_at(1013) == 10695188484963917761u64 && log2_upper_at(1013) == 10695188484963917766u64);
    assert(log2_entries_fit_below(1014));
    assert(log2_lower_at(1014) == 10703881291245905301u64 && log2_upper_at(1014) == 10703881291245905305u64);
    assert(log2_entries_fit_below(1015));
    assert(log2_lower_at(1015) == 10712571259060485008u64 && log2_upper_at(1015) == 10712571259060485013u64);
    assert(log2_entries_fit_below(1016));
    assert(log2_lower_at(1016) == 10721258390260744846u64 && log2_upper_at(1016) == 10721258390260744850u64);
    assert(log2_entries_fit_below(1017));
    assert(log2_lower_at(1017) == 10729942686697958684u64 && log2_upper_at(1017) == 10729942686697958689u64);
    assert(log2_entries_fit_below(1018));
    assert(log2_lower_at(1018) == 10738624150221588683u64 && log2_upper_at(1018) == 10738624150221588688u64);
    assert(log2_entries_fit_below(1019));
    assert(log2_lower_at(1019) == 10747302782679287647u64 && log2_upper_at(1019) == 10747302782679287652u64);
    assert(log2_entries_fit_below(1020));
    assert(log2_lower_at(1020) == 10755978585916901377u64 && log2_upper_at(1020) == 10755978585916901382u64);
    assert(log2_entries_fit_below(1021));
    assert(log2_lower_at(1021) == 10764651561778471048u64 && log2_upper_at(1021) == 10764651561778471053u64);
    assert(log2_entries_fit_below(1022));
    assert(log2_lower_at(1022) == 10773321712106235530u64 && log2_upper_at(1022) == 10773321712106235534u64);
    assert(log2_entries_fit_below(1023));
    assert(log2_lower_at(1023) == 10781989038740633767u64 && log2_upper_at(1023) == 10781989038740633771u64);
    assert(log2_entries_fit_below(1024));
}

/// Entries 1024 to 1279 fit.
proof fn lemma_log2_page_4()
    requires
        log2_entries_fit_below(1024),
    ensures
        log2_entries_fit_below(1280),
{
    reveal(log2_lower_at);
    reveal(log2_upper_at);
    assert(log2_lower_at(1024) == 10790653543520307101u64 && log2_upper_at(1024) == 10790653543520307106u64);
    assert(log2_entries_fit_below(1025));
    assert(log2_lower_at(1025) == 10799315228282101617u64 && log2_upper_at(1025) == 10799315228282101622u64);
    assert(log2_entries_fit_below(1026));
    assert(log2_lower_at(1026) == 10807974094861070479u64 && log2_upper_at(1026) == 10807974094861070484u64);
    assert(log2_entries_fit_below(1027));
    assert(log2_lower_at(1027) == 10816630145090476271u64 && log2_upper_at(1027) == 10816630145090476275u64);
    assert(log2_entries_fit_below(1028));
    assert(log2_lower_at(1028) == 10825283380801793309u64 && log2_upper_at(1028) == 10825283380801793314u64);
    assert(log2_entries_fit_below(1029));
    assert(log2_lower_at(1029) == 10833933803824709986u64 && log2_upper_at(1029) == 10833933803824709991u64);
    assert(log2_entries_fit_below(1030));
    assert(log2_lower_at(1030) == 10842581415987131076u64 && log2_upper_at(1030) == 10842581415987131080u64);
    assert(log2_entries_fit_below(1031));
    assert(log2_lower_at(1031) == 10851226219115180061u64 && log2_upper_at(1031) == 10851226219115180066u64);
    assert(log2_entries_fit_below(1032));
    assert(log2_lower_at(1032) == 10859868215033201444u64 && log2_upper_at(1032) == 10859868215033201449u64);
    assert(log2_entries_fit_below(1033));
    assert(log2_lower_at(1033) == 10868507405563763054u64 && log2_upper_at(1033) == 10868507405563763059u64);
    assert(log2_entries_fit_below(1034));
    assert(log2_lower_at(1034) == 10877143792527658358u64 && log2_upper_at(1034) == 10877143792527658363u64);
    assert(log2_entries_fit_below(1035));
    assert(log2_lower_at(1035) == 10885777377743908760u64 && log2_upper_at(1035) == 10885777377743908765u64);
    assert(log2_entries_fit_below(1036));
    assert(log2_lower_at(1036) == 10894408163029765906u64 && log2_upper_at(1036) == 10894408163029765910u64);
    assert(log2_entries_fit_below(1037));
    assert(log2_lower_at(1037) == 10903036150200713965u64 && log2_upper_at(1037) == 10903036150200713969u64);
    assert(log2_entries_fit_below(1038));
    assert(log2_lower_at(1038) == 10911661341070471935u64 && log2_upper_at(1038) == 10911661341070471940u64);
    assert(log2_entries_fit_below(1039));
    assert(log2_lower_at(1039) == 10920283737450995927u64 && log2_upper_at(1039) == 10920283737450995932u64);
    assert(log2_entries_fit_below(1040));
    assert(log2_lower_at(1040) == 10928903341152481437u64 && log2_upper_at(1040) == 10928903341152481442u64);
    assert(log2_entries_fit_below(1041));
    assert(log2_lower_at(1041) == 10937520153983365652u64 && log2_upper_at(1041) == 10937520153983365656u64);
    assert(log2_entries_fit_below(1042));
    assert(log2_lower_at(1042) == 10946134177750329692u64 && log2_upper_at(1042) == 10946134177750329697u64);
    assert(log2_entries_fit_below(1043));
    assert(log2_lower_at(1043) == 10954745414258300918u64 && log2_upper_at(1043) == 10954745414258300922u64);
    assert(log2_entries_fit_below(1044));
    assert(log2_lower_at(1044) == 10963353865310455172u64 && log2_upper_at(1044) == 10963353865310455177u64);
    assert(log2_entries_fit_below(1045));
    assert(log2_lower_at(1045) == 10971959532708219062u64 && log2_upper_at(1045) == 10971959532708219067u64);
    assert(log2_entries_fit_below(1046));
    assert(log2_lower_at(1046) == 10980562418251272214u64 && log2_upper_at(1046) == 10980562418251272218u64);
    assert(log2_entries_fit_below(1047));
    assert(log2_lower_at(1047) == 10989162523737549537u64 && log2_upper_at(1047) == 10989162523737549542u64);
    assert(log2_entries_fit_below(1048));
    assert(log2_lower_at(1048) == 10997759850963243470u64 && log2_upper_at(1048) == 10997759850963243474u64);
    assert(log2_entries_fit_below(1049));
    assert(log2_lower_at(1049) == 11006354401722806233u64 && log2_upper_at(1049) == 11006354401722806238u64);
    assert(log2_entries_fit_below(1050));
    assert(log2_lower_at(1050) == 11014946177808952086u64 && log2_upper_at(1050) == 11014946177808952091u64);
    assert(log2_entries_fit_below(1051));
    assert(log2_lower_at(1051) == 11023535181012659559u64 && log2_upper_at(1051) == 11023535181012659563u64);
    assert(log2_entries_fit_below(1052));
    assert(log2_lower_at(1052) == 11032121413123173697u64 && log2_upper_at(1052) == 11032121413123173702u64);
    assert(log2_entries_fit_below(1053));
    assert(log2_lower_at(1053) == 11040704875928008299u64 && log2_upper_at(1053) == 11040704875928008303u64);
    assert(log2_entries_fit_below(1054));
    assert(log2_lower_at(1054) == 11049285571212948146u64 && log2_upper_at(1054) == 11049285571212948151u64);
    assert(log2_entries_fit_below(1055));
    assert(log2_lower_at(1055) == 11057863500762051240u64 && log2_upper_at(1055) == 11057863500762051244u64);
    assert(log2_entries_fit_below(1056));
    assert(log2_lower_at(1056) == 11066438666357651009u64 && log2_upper_at(1056) == 11066438666357651013u64);
    assert(log2_entries_fit_below(1057));
    assert(log2_lower_at(1057) == 11075011069780358554u64 && log2_upper_at(1057) == 11075011069780358559u64);
    assert(log2_entries_fit_below(1058));
    assert(log2_lower_at(1058) == 11083580712809064850u64 && log2_upper_at(1058) == 11083580712809064855u64);
    assert(log2_entries_fit_below(1059));
    assert(log2_lower_at(1059) == 11092147597220942970u64 && log2_upper_at(1059) == 11092147597220942975u64);
    assert(log2_entries_fit_below(1060));
    assert(log2_lower_at(1060) == 11100711724791450289u64 && log2_upper_at(1060) == 11100711724791450293u64);
    assert(log2_entries_fit_below(1061));
    assert(log2_lower_at(1061) == 11109273097294330698u64 && log2_upper_at(1061) == 11109273097294330703u64);
    assert(log2_entries_fit_below(1062));
    assert(log2_lower_at(1062) == 11117831716501616806u64 && log2_upper_at(1062) == 11117831716501616811u64);
    assert(log2_entries_fit_below(1063));
    assert(log2_lower_at(1063) == 11126387584183632141u64 && log2_upper_at(1063) == 11126387584183632146u64);
    assert(log2_entries_fit_below(1064));
    assert(log2_lower_at(1064) == 11134940702108993346u64 && log2_upper_at(1064) == 11134940702108993351u64);
    assert(log2_entries_fit_below(1065));
    assert(log2_lower_at(1065) == 11143491072044612371u64 && log2_upper_at(1065) == 11143491072044612375u64);
    assert(log2_entries_fit_below(1066));
    assert(log2_lower_at(1066) == 11152038695755698666u64 && log2_upper_at(1066) == 11152038695755698670u64);
    assert(log2_entries_fit_below(1067));
    assert(log2_lower_at(1067) == 11160583575005761371u64 && log2_upper_at(1067) == 11160583575005761376u64);
    assert(log2_entries_fit_below(1068));
    assert(log2_lower_at(1068) == 11169125711556611490u64 && log2_upper_at(1068) == 11169125711556611495u64);
    assert(log2_entries_fit_below(1069));
    assert(log2_lower_at(1069) == 11177665107168364078u64 && log2_upper_at(1069) == 11177665107168364083u64);
    assert(log2_entries_fit_below(1070));
    assert(log2_lower_at(1070) == 11186201763599440415u64 && log2_upper_at(1070) == 11186201763599440420u64);
    assert(log2_entries_fit_below(1071));
    assert(log2_lower_at(1071) == 11194735682606570177u64 && log2_upper_at(1071) == 11194735682606570182u64);
    assert(log2_entries_fit_below(1072));
    assert(log2_lower_at(1072) == 11203266865944793600u64 && log2_upper_at(1072) == 11203266865944793605u64);
    assert(log2_entries_fit_below(1073));
    assert(log2_lower_at(1073) == 11211795315367463661u64 && log2_upper_at(1073) == 11211795315367463666u64);
    assert(log2_entries_fit_below(1074));
    assert(log2_lower_at(1074) == 11220321032626248230u64 && log2_upper_at(1074) == 11220321032626248235u64);
    assert(log2_entries_fit_below(1075));
    assert(log2_lower_at(1075) == 11228844019471132221u64 && log2_upper_at(1075) == 11228844019471132226u64);
    assert(log2_entries_fit_below(1076));
    assert(log2_lower_at(1076) == 11237364277650419765u64 && log2_upper_at(1076) == 11237364277650419769u64);
    assert(log2_entries_fit_below(1077));
    assert(log2_lower_at(1077) == 11245881808910736346u64 && log2_upper_at(1077) == 11245881808910736351u64);
    assert(log2_entries_fit_below(1078));
    assert(log2_lower_at(1078) == 11254396614997030963u64 && log2_upper_at(1078) == 11254396614997030968u64);
    assert(log2_entries_fit_below(1079));
    assert(log2_lower_at(1079) == 11262908697652578256u64 && log2_upper_at(1079) == 11262908697652578260u64);
    assert(log2_entries_fit_below(1080));
    assert(log2_lower_at(1080) == 11271418058618980671u64 && log2_upper_at(1080) == 11271418058618980676u64);
    assert(log2_entries_fit_below(1081));
    assert(log2_lower_at(1081) == 11279924699636170579u64 && log2_upper_at(1081) == 11279924699636170584u64);
    assert(log2_entries_fit_below(1082));
    assert(log2_lower_at(1082) == 11288428622442412417u64 && log2_upper_at(1082) == 11288428622442412422u64);
    assert(log2_entries_fit_below(1083));
    assert(log2_lower_at(1083) == 11296929828774304829u64 && log2_upper_at(1083) == 11296929828774304834u64);
    assert(log2_entries_fit_below(1084));
    assert(log2_lower_at(1084) == 11305428320366782775u64 && log2_upper_at(1084) == 11305428320366782780u64);
    assert(log2_entries_fit_below(1085));
    assert(log2_lower_at(1085) == 11313924098953119666u64 && log2_upper_at(1085) == 11313924098953119671u64);
    assert(log2_entries_fit_below(1086));
    assert(log2_lower_at(1086) == 11322417166264929491u64 && log2_upper_at(1086) == 11322417166264929496u64);
    assert(log2_entries_fit_below(1087));
    assert(log2_lower_at(1087) == 11330907524032168919u64 && log2_upper_at(1087) == 11330907524032168924u64);
    assert(log2_entries_fit_below(1088));
    assert(log2_lower_at(1088) == 11339395173983139428u64 && log2_upper_at(1088) == 11339395173983139433u64);
    assert(log2_entries_fit_below(1089));
    assert(log2_lower_at(1089) == 11347880117844489408u64 && log2_upper_at(1089) == 11347880117844489412u64);
    assert(log2_entries_fit_below(1090));
    assert(log2_lower_at(1090) == 11356362357341216270u64 && log2_upper_at(1090) == 11356362357341216275u64);
    assert(log2_entries_fit_below(1091));
    assert(log2_lower_at(1091) == 11364841894196668552u64 && log2_upper_at(1091) == 11364841894196668557u64);
    assert(log2_entries_fit_below(1092));
    assert(log2_lower_at(1092) == 11373318730132548019u64 && log2_upper_at(1092) == 11373318730132548024u64);
    assert(log2_entries_fit_below(1093));
    assert(log2_lower_at(1093) == 11381792866868911755u64 && log2_upper_at(1093) == 11381792866868911760u64);
    assert(log2_entries_fit_below(1094));
    assert(log2_lower_at(1094) == 11390264306124174266u64 && log2_upper_at(1094) == 11390264306124174270u64);
    assert(log2_entries_fit_below(1095));
    assert(log2_lower_at(1095) == 11398733049615109566u64 && log2_upper_at(1095) == 11398733049615109570u64);
    assert(log2_entries_fit_below(1096));
    assert(log2_lower_at(1096) == 11407199099056853268u64 && log2_upper_at(1096) == 11407199099056853272u64);
    assert(log2_entries_fit_below(1097));
    assert(log2_lower_at(1097) == 11415662456162904659u64 && log2_upper_at(1097) == 11415662456162904664u64);
    assert(log2_entries_fit_below(1098));
    assert(log2_lower_at(1098) == 11424123122645128794u64 && log2_upper_at(1098) == 11424123122645128799u64);
    assert(log2_entries_fit_below(1099));
    assert(log2_lower_at(1099) == 11432581100213758561u64 && log2_upper_at(1099) == 11432581100213758566u64);
    assert(log2_entries_fit_below(1100));
    assert(log2_lower_at(1100) == 11441036390577396762u64 && log2_upper_at(1100) == 11441036390577396767u64);
    assert(log2_entries_fit_below(1101));
    assert(log2_lower_at(1101) == 11449488995443018190u64 && log2_upper_at(1101) == 11449488995443018195u64);
    assert(log2_entries_fit_below(1102));
    assert(log2_lower_at(1102) == 11457938916515971683u64 && log2_upper_at(1102) == 11457938916515971688u64);
    assert(log2_entries_fit_below(1103));
    assert(log2_lower_at(1103) == 11466386155499982191u64 && log2_upper_at(1103) == 11466386155499982195u64);
    assert(log2_entries_fit_below(1104));
    assert(log2_lower_at(1104) == 11474830714097152854u64 && log2_upper_at(1104) == 11474830714097152858u64);
    assert(log2_entries_fit_below(1105));
    assert(log2_lower_at(1105) == 11483272594007967032u64 && log2_upper_at(1105) == 11483272594007967036u64);
    assert(log2_entries_fit_below(1106));
    assert(log2_lower_at(1106) == 11491711796931290384u64 && log2_upper_at(1106) == 11491711796931290389u64);
    assert(log2_entries_fit_below(1107));
    assert(log2_lower_at(1107) == 11500148324564372907u64 && log2_upper_at(1107) == 11500148324564372912u64);
    assert(log2_entries_fit_below(1108));
    assert(log2_lower_at(1108) == 11508582178602850988u64 && log2_upper_at(1108) == 11508582178602850993u64);
    assert(log2_entries_fit_below(1109));
    assert(log2_lower_at(1109) == 11517013360740749449u64 && log2_upper_at(1109) == 11517013360740749453u64);
    assert(log2_entries_fit_below(1110));
    assert(log2_lower_at(1110) == 11525441872670483578u64 && log2_upper_at(1110) == 11525441872670483583u64);
    assert(log2_entries_fit_below(1111));
    assert(log2_lower_at(1111) == 11533867716082861190u64 && log2_upper_at(1111) == 11533867716082861195u64);
    assert(log2_entries_fit_below(1112));
    assert(log2_lower_at(1112) == 11542290892667084636u64 && log2_upper_at(1112) == 11542290892667084640u64);
    assert(log2_entries_fit_below(1113));
    assert(log2_lower_at(1113) == 11550711404110752859u64 && log2_upper_at(1113) == 11550711404110752864u64);
    assert(log2_entries_fit_below(1114));
    assert(log2_lower_at(1114) == 11559129252099863402u64 && log2_upper_at(1114) == 11559129252099863407u64);
    assert(log2_entries_fit_below(1115));
    assert(log2_lower_at(1115) == 11567544438318814448u64 && log2_upper_at(1115) == 11567544438318814453u64);
    assert(log2_entries_fit_below(1116));
    assert(log2_lower_at(1116) == 11575956964450406837u64 && log2_upper_at(1116) == 11575956964450406842u64);
    assert(log2_entries_fit_below(1117));
    assert(log2_lower_at(1117) == 11584366832175846078u64 && log2_upper_at(1117) == 11584366832175846083u64);
    assert(log2_entries_fit_below(1118));
    assert(log2_lower_at(1118) == 11592774043174744383u64 && log2_upper_at(1118) == 11592774043174744388u64);
    assert(log2_entries_fit_below(1119));
    assert(log2_lower_at(1119) == 11601178599125122660u64 && log2_upper_at(1119) == 11601178599125122665u64);
    assert(log2_entries_fit_below(1120));
    assert(log2_lower_at(1120) == 11609580501703412535u64 && log2_upper_at(1120) == 11609580501703412540u64);
    assert(log2_entries_fit_below(1121));
    assert(log2_lower_at(1121) == 11617979752584458351u64 && log2_upper_at(1121) == 11617979752584458356u64);
    assert(log2_entries_fit_below(1122));
    assert(log2_lower_at(1122) == 11626376353441519180u64 && log2_upper_at(1122) == 11626376353441519185u64);
    assert(log2_entries_fit_below(1123));
    assert(log2_lower_at(1123) == 11634770305946270817u64 && log2_upper_at(1123) == 11634770305946270822u64);
    assert(log2_entries_fit_below(1124));
    assert(log2_lower_at(1124) == 11643161611768807770u64 && log2_upper_at(1124) == 11643161611768807775u64);
    assert(log2_entries_fit_below(1125));
    assert(log2_lower_at(1125) == 11651550272577645271u64 && log2_upper_at(1125) == 11651550272577645276u64);
    assert(log2_entries_fit_below(1126));
    assert(log2_lower_at(1126) == 11659936290039721254u64 && log2_upper_at(1126) == 11659936290039721259u64);
    assert(log2_entries_fit_below(1127));
    assert(log2_lower_at(1127) == 11668319665820398340u64 && log2_upper_at(1127) == 11668319665820398344u64);
    assert(log2_entries_fit_below(1128));
    assert(log2_lower_at(1128) == 11676700401583465835u64 && log2_upper_at(1128) == 11676700401583465839u64);
    assert(log2_entries_fit_below(1129));
    assert(log2_lower_at(1129) == 11685078498991141696u64 && log2_upper_at(1129) == 11685078498991141701u64);
    assert(log2_entries_fit_below(1130));
    assert(log2_lower_at(1130) == 11693453959704074522u64 && log2_upper_at(1130) == 11693453959704074527u64);
    assert(log2_entries_fit_below(1131));
    assert(log2_lower_at(1131) == 11701826785381345519u64 && log2_upper_at(1131) == 11701826785381345524u64);
    assert(log2_entries_fit_below(1132));
    assert(log2_lower_at(1132) == 11710196977680470478u64 && log2_upper_at(1132) == 11710196977680470483u64);
    assert(log2_entries_fit_below(1133));
    assert(log2_lower_at(1133) == 11718564538257401738u64 && log2_upper_at(1133) == 11718564538257401743u64);
    assert(log2_entries_fit_below(1134));
    assert(log2_lower_at(1134) == 11726929468766530158u64 && log2_upper_at(1134) == 11726929468766530163u64);
    assert(log2_entries_fit_below(1135));
    assert(log2_lower_at(1135) == 11735291770860687079u64 && log2_upper_at(1135) == 11735291770860687083u64);
    assert(log2_entries_fit_below(1136));
    assert(log2_lower_at(1136) == 11743651446191146276u64 && log2_upper_at(1136) == 11743651446191146281u64);
    assert(log2_entries_fit_below(1137));
    assert(log2_lower_at(1137) == 11752008496407625926u64 && log2_upper_at(1137) == 11752008496407625931u64);
    assert(log2_entries_fit_below(1138));
    assert(log2_lower_at(1138) == 11760362923158290551u64 && log2_upper_at(1138) == 11760362923158290556u64);
    assert(log2_entries_fit_below(1139));
    assert(log2_lower_at(1139) == 11768714728089752975u64 && log2_upper_at(1139) == 11768714728089752980u64);
    assert(log2_entries_fit_below(1140));
    assert(log2_lower_at(1140) == 11777063912847076265u64 && log2_upper_at(1140) == 11777063912847076270u64);
    assert(log2_entries_fit_below(1141));
    assert(log2_lower_at(1141) == 11785410479073775682u64 && log2_upper_at(1141) == 11785410479073775687u64);
    assert(log2_entries_fit_below(1142));
    assert(log2_lower_at(1142) == 11793754428411820619u64 && log2_upper_at(1142) == 11793754428411820624u64);
    assert(log2_entries_fit_below(1143));
    assert(log2_lower_at(1143) == 11802095762501636535u64 && log2_upper_at(1143) == 11802095762501636540u64);
    assert(log2_entries_fit_below(1144));
    assert(log2_lower_at(1144) == 11810434482982106903u64 && log2_upper_at(1144) == 11810434482982106908u64);
    assert(log2_entries_fit_below(1145));
    assert(log2_lower_at(1145) == 11818770591490575123u64 && log2_upper_at(1145) == 11818770591490575128u64);
    assert(log2_entries_fit_below(1146));
    assert(log2_lower_at(1146) == 11827104089662846471u64 && log2_upper_at(1146) == 11827104089662846476u64);
    assert(log2_entries_fit_below(1147));
    assert(log2_lower_at(1147) == 11835434979133190004u64 && log2_upper_at(1147) == 11835434979133190009u64);
    assert(log2_entries_fit_below(1148));
    assert(log2_lower_at(1148) == 11843763261534340503u64 && log2_upper_at(1148) == 11843763261534340508u64);
    assert(log2_entries_fit_below(1149));
    assert(log2_lower_at(1149) == 11852088938497500383u64 && log2_upper_at(1149) == 11852088938497500387u64);
    assert(log2_entries_fit_below(1150));
    assert(log2_lower_at(1150) == 11860412011652341604u64 && log2_upper_at(1150) == 11860412011652341609u64);
    assert(log2_entries_fit_below(1151));
    assert(log2_lower_at(1151) == 11868732482627007602u64 && log2_upper_at(1151) == 11868732482627007606u64);
    assert(log2_entries_fit_below(1152));
    assert(log2_lower_at(1152) == 11877050353048115184u64 && log2_upper_at(1152) == 11877050353048115189u64);
    assert(log2_entries_fit_below(1153));
    assert(log2_lower_at(1153) == 11885365624540756442u64 && log2_upper_at(1153) == 11885365624540756447u64);
    assert(log2_entries_fit_below(1154));
    assert(log2_lower_at(1154) == 11893678298728500657u64 && log2_upper_at(1154) == 11893678298728500662u64);
    assert(log2_entries_fit_below(1155));
    assert(log2_lower_at(1155) == 11901988377233396210u64 && log2_upper_at(1155) == 11901988377233396215u64);
    assert(log2_entries_fit_below(1156));
    assert(log2_lower_at(1156) == 11910295861675972462u64 && log2_upper_at(1156) == 11910295861675972467u64);
    assert(log2_entries_fit_below(1157));
    assert(log2_lower_at(1157) == 11918600753675241669u64 && log2_upper_at(1157) == 11918600753675241673u64);
    assert(log2_entries_fit_below(1158));
    assert(log2_lower_at(1158) == 11926903054848700860u64 && log2_upper_at(1158) == 11926903054848700865u64);
    assert(log2_entries_fit_below(1159));
    assert(log2_lower_at(1159) == 11935202766812333743u64 && log2_upper_at(1159) == 11935202766812333747u64);
    assert(log2_entries_fit_below(1160));
    assert(log2_lower_at(1160) == 11943499891180612575u64 && log2_upper_at(1160) == 11943499891180612580u64);
    assert(log2_entries_fit_below(1161));
    assert(log2_lower_at(1161) == 11951794429566500066u64 && log2_upper_at(1161) == 11951794429566500071u64);
    assert(log2_entries_fit_below(1162));
    assert(log2_lower_at(1162) == 11960086383581451239u64 && log2_upper_at(1162) == 11960086383581451244u64);
    assert(log2_entries_fit_below(1163));
    assert(log2_lower_at(1163) == 11968375754835415321u64 && log2_upper_at(1163) == 11968375754835415326u64);
    assert(log2_entries_fit_below(1164));
    assert(log2_lower_at(1164) == 11976662544936837617u64 && log2_upper_at(1164) == 11976662544936837622u64);
    assert(log2_entries_fit_below(1165));
    assert(log2_lower_at(1165) == 11984946755492661388u64 && log2_upper_at(1165) == 11984946755492661393u64);
    assert(log2_entries_fit_below(1166));
    assert(log2_lower_at(1166) == 11993228388108329706u64 && log2_upper_at(1166) == 11993228388108329711u64);
    assert(log2_entries_fit_below(1167));
    assert(log2_lower_at(1167) == 12001507444387787332u64 && log2_upper_at(1167) == 12001507444387787337u64);
    assert(log2_entries_fit_below(1168));
    assert(log2_lower_at(1168) == 12009783925933482575u64 && log2_upper_at(1168) == 12009783925933482580u64);
    assert(log2_entries_fit_below(1169));
    assert(log2_lower_at(1169) == 12018057834346369166u64 && log2_upper_at(1169) == 12018057834346369171u64);
    assert(log2_entries_fit_below(1170));
    assert(log2_lower_at(1170) == 12026329171225908088u64 && log2_upper_at(1170) == 12026329171225908093u64);
    assert(log2_entries_fit_below(1171));
    assert(log2_lower_at(1171) == 12034597938170069463u64 && log2_upper_at(1171) == 12034597938170069468u64);
    assert(log2_entries_fit_below(1172));
    assert(log2_lower_at(1172) == 12042864136775334381u64 && log2_upper_at(1172) == 12042864136775334386u64);
    assert(log2_entries_fit_below(1173));
    assert(log2_lower_at(1173) == 12051127768636696763u64 && log2_upper_at(1173) == 12051127768636696768u64);
    assert(log2_entries_fit_below(1174));
    assert(log2_lower_at(1174) == 12059388835347665202u64 && log2_upper_at(1174) == 12059388835347665207u64);
    assert(log2_entries_fit_below(1175));
    assert(log2_lower_at(1175) == 12067647338500264801u64 && log2_upper_at(1175) == 12067647338500264806u64);
    assert(log2_entries_fit_below(1176));
    assert(log2_lower_at(1176) == 12075903279685039031u64 && log2_upper_at(1176) == 12075903279685039036u64);
    assert(log2_entries_fit_below(1177));
    assert(log2_lower_at(1177) == 12084156660491051553u64 && log2_upper_at(1177) == 12084156660491051557u64);
    assert(log2_entries_fit_below(1178));
    assert(log2_lower_at(1178) == 12092407482505888051u64 && log2_upper_at(1178) == 12092407482505888056u64);
    assert(log2_entries_fit_below(1179));
    assert(log2_lower_at(1179) == 12100655747315658087u64 && log2_upper_at(1179) == 12100655747315658091u64);
    assert(log2_entries_fit_below(1180));
    assert(log2_lower_at(1180) == 12108901456504996902u64 && log2_upper_at(1180) == 12108901456504996907u64);
    assert(log2_entries_fit_below(1181));
    assert(log2_lower_at(1181) == 12117144611657067263u64 && log2_upper_at(1181) == 12117144611657067268u64);
    assert(log2_entries_fit_below(1182));
    assert(log2_lower_at(1182) == 12125385214353561273u64 && log2_upper_at(1182) == 12125385214353561278u64);
    assert(log2_entries_fit_below(1183));
    assert(log2_lower_at(1183) == 12133623266174702208u64 && log2_upper_at(1183) == 12133623266174702213u64);
    assert(log2_entries_fit_below(1184));
    assert(log2_lower_at(1184) == 12141858768699246316u64 && log2_upper_at(1184) == 12141858768699246321u64);
    assert(log2_entries_fit_below(1185));
    assert(log2_lower_at(1185) == 12150091723504484649u64 && log2_upper_at(1185) == 12150091723504484654u64);
    assert(log2_entries_fit_below(1186));
    assert(log2_lower_at(1186) == 12158322132166244861u64 && log2_upper_at(1186) == 12158322132166244866u64);
    assert(log2_entries_fit_below(1187));
    assert(log2_lower_at(1187) == 12166549996258893032u64 && log2_upper_at(1187) == 12166549996258893037u64);
    assert(log2_entries_fit_below(1188));
    assert(log2_lower_at(1188) == 12174775317355335467u64 && log2_upper_at(1188) == 12174775317355335472u64);
    assert(log2_entries_fit_below(1189));
    assert(log2_lower_at(1189) == 12182998097027020498u64 && log2_upper_at(1189) == 12182998097027020503u64);
    assert(log2_entries_fit_below(1190));
    assert(log2_lower_at(1190) == 12191218336843940292u64 && log2_upper_at(1190) == 12191218336843940297u64);
    assert(log2_entries_fit_below(1191));
    assert(log2_lower_at(1191) == 12199436038374632643u64 && log2_upper_at(1191) == 12199436038374632648u64);
    assert(log2_entries_fit_below(1192));
    assert(log2_lower_at(1192) == 12207651203186182774u64 && log2_upper_at(1192) == 12207651203186182779u64);
    assert(log2_entries_fit_below(1193));
    assert(log2_lower_at(1193) == 12215863832844225126u64 && log2_upper_at(1193) == 12215863832844225131u64);
    assert(log2_entries_fit_below(1194));
    assert(log2_lower_at(1194) == 12224073928912945148u64 && log2_upper_at(1194) == 12224073928912945153u64);
    assert(log2_entries_fit_below(1195));
    assert(log2_lower_at(1195) == 12232281492955081086u64 && log2_upper_at(1195) == 12232281492955081091u64);
    assert(log2_entries_fit_below(1196));
    assert(log2_lower_at(1196) == 12240486526531925773u64 && log2_upper_at(1196) == 12240486526531925778u64);
    assert(log2_entries_fit_below(1197));
    assert(log2_lower_at(1197) == 12248689031203328395u64 && log2_upper_at(1197) == 12248689031203328400u64);
    assert(log2_entries_fit_below(1198));
    assert(log2_lower_at(1198) == 12256889008527696289u64 && log2_upper_at(1198) == 12256889008527696294u64);
    assert(log2_entries_fit_below(1199));
    assert(log2_lower_at(1199) == 12265086460061996709u64 && log2_upper_at(1199) == 12265086460061996714u64);
    assert(log2_entries_fit_below(1200));
    assert(log2_lower_at(1200) == 12273281387361758603u64 && log2_upper_at(1200) == 12273281387361758607u64);
    assert(log2_entries_fit_below(1201));
    assert(log2_lower_at(1201) == 12281473791981074378u64 && log2_upper_at(1201) == 12281473791981074383u64);
    assert(log2_entries_fit_below(1202));
    assert(log2_lower_at(1202) == 12289663675472601683u64 && log2_upper_at(1202) == 12289663675472601688u64);
    assert(log2_entries_fit_below(1203));
    assert(log2_lower_at(1203) == 12297851039387565154u64 && log2_upper_at(1203) == 12297851039387565159u64);
    assert(log2_entries_fit_below(1204));
    assert(log2_lower_at(1204) == 12306035885275758193u64 && log2_upper_at(1204) == 12306035885275758198u64);
    assert(log2_entries_fit_below(1205));
    assert(log2_lower_at(1205) == 12314218214685544728u64 && log2_upper_at(1205) == 12314218214685544732u64);
    assert(log2_entries_fit_below(1206));
    assert(log2_lower_at(1206) == 12322398029163860957u64 && log2_upper_at(1206) == 12322398029163860961u64);
    assert(log2_entries_fit_below(1207));
    assert(log2_lower_at(1207) == 12330575330256217115u64 && log2_upper_at(1207) == 12330575330256217120u64);
    assert(log2_entries_fit_below(1208));
    assert(log2_lower_at(1208) == 12338750119506699223u64 && log2_upper_at(1208) == 12338750119506699228u64);
    assert(log2_entries_fit_below(1209));
    assert(log2_lower_at(1209) == 12346922398457970834u64 && log2_upper_at(1209) == 12346922398457970839u64);
    assert(log2_entries_fit_below(1210));
    assert(log2_lower_at(1210) == 12355092168651274787u64 && log2_upper_at(1210) == 12355092168651274792u64);
    assert(log2_entries_fit_below(1211));
    assert(log2_lower_at(1211) == 12363259431626434945u64 && log2_upper_at(1211) == 12363259431626434949u64);
    assert(log2_entries_fit_below(1212));
    assert(log2_lower_at(1212) == 12371424188921857932u64 && log2_upper_at(1212) == 12371424188921857937u64);
    assert(log2_entries_fit_below(1213));
    assert(log2_lower_at(1213) == 12379586442074534884u64 && log2_upper_at(1213) == 12379586442074534888u64);
    assert(log2_entries_fit_below(1214));
    assert(log2_lower_at(1214) == 12387746192620043175u64 && log2_upper_at(1214) == 12387746192620043180u64);
    assert(log2_entries_fit_below(1215));
    assert(log2_lower_at(1215) == 12395903442092548161u64 && log2_upper_at(1215) == 12395903442092548166u64);
    assert(log2_entries_fit_below(1216));
    assert(log2_lower_at(1216) == 12404058192024804889u64 && log2_upper_at(1216) == 12404058192024804894u64);
    assert(log2_entries_fit_below(1217));
    assert(log2_lower_at(1217) == 12412210443948159855u64 && log2_upper_at(1217) == 12412210443948159860u64);
    assert(log2_entries_fit_below(1218));
    assert(log2_lower_at(1218) == 12420360199392552705u64 && log2_upper_at(1218) == 12420360199392552709u64);
    assert(log2_entries_fit_below(1219));
    assert(log2_lower_at(1219) == 12428507459886517966u64 && log2_upper_at(1219) == 12428507459886517971u64);
    assert(log2_entries_fit_below(1220));
    assert(log2_lower_at(1220) == 12436652226957186772u64 && log2_upper_at(1220) == 12436652226957186777u64);
    assert(log2_entries_fit_below(1221));
    assert(log2_lower_at(1221) == 12444794502130288576u64 && log2_upper_at(1221) == 12444794502130288581u64);
    assert(log2_entries_fit_below(1222));
    assert(log2_lower_at(1222) == 12452934286930152858u64 && log2_upper_at(1222) == 12452934286930152863u64);
    assert(log2_entries_fit_below(1223));
    assert(log2_lower_at(1223) == 12461071582879710852u64 && log2_upper_at(1223) == 12461071582879710856u64);
    assert(log2_entries_fit_below(1224));
    assert(log2_lower_at(1224) == 12469206391500497242u64 && log2_upper_at(1224) == 12469206391500497247u64);
    assert(log2_entries_fit_below(1225));
    assert(log2_lower_at(1225) == 12477338714312651885u64 && log2_upper_at(1225) == 12477338714312651889u64);
    assert(log2_entries_fit_below(1226));
    assert(log2_lower_at(1226) == 12485468552834921491u64 && log2_upper_at(1226) == 12485468552834921496u64);
    assert(log2_entries_fit_below(1227));
    assert(log2_lower_at(1227) == 12493595908584661351u64 && log2_upper_at(1227) == 12493595908584661355u64);
    assert(log2_entries_fit_below(1228));
    assert(log2_lower_at(1228) == 12501720783077837017u64 && log2_upper_at(1228) == 12501720783077837022u64);
    assert(log2_entries_fit_below(1229));
    assert(log2_lower_at(1229) == 12509843177829026012u64 && log2_upper_at(1229) == 12509843177829026017u64);
    assert(log2_entries_fit_below(1230));
    assert(log2_lower_at(1230) == 12517963094351419511u64 && log2_upper_at(1230) == 12517963094351419516u64);
    assert(log2_entries_fit_below(1231));
    assert(log2_lower_at(1231) == 12526080534156824048u64 && log2_upper_at(1231) == 12526080534156824053u64);
    assert(log2_entries_fit_below(1232));
    assert(log2_lower_at(1232) == 12534195498755663189u64 && log2_upper_at(1232) == 12534195498755663194u64);
    assert(log2_entries_fit_below(1233));
    assert(log2_lower_at(1233) == 12542307989656979228u64 && log2_upper_at(1233) == 12542307989656979233u64);
    assert(log2_entries_fit_below(1234));
    assert(log2_lower_at(1234) == 12550418008368434869u64 && log2_upper_at(1234) == 12550418008368434873u64);
    assert(log2_entries_fit_below(1235));
    assert(log2_lower_at(1235) == 12558525556396314905u64 && log2_upper_at(1235) == 12558525556396314910u64);
    assert(log2_entries_fit_below(1236));
    assert(log2_lower_at(1236) == 12566630635245527898u64 && log2_upper_at(1236) == 12566630635245527902u64);
    assert(log2_entries_fit_below(1237));
    assert(log2_lower_at(1237) == 12574733246419607857u64 && log2_upper_at(1237) == 12574733246419607862u64);
    assert(log2_entries_fit_below(1238));
    assert(log2_lower_at(1238) == 12582833391420715910u64 && log2_upper_at(1238) == 12582833391420715915u64);
    assert(log2_entries_fit_below(1239));
    assert(log2_lower_at(1239) == 12590931071749641968u64 && log2_upper_at(1239) == 12590931071749641973u64);
    assert(log2_entries_fit_below(1240));
    assert(log2_lower_at(1240) == 12599026288905806411u64 && log2_upper_at(1240) == 12599026288905806416u64);
    assert(log2_entries_fit_below(1241));
    assert(log2_lower_at(1241) == 12607119044387261731u64 && log2_upper_at(1241) == 12607119044387261736u64);
    assert(log2_entries_fit_below(1242));
    assert(log2_lower_at(1242) == 12615209339690694216u64 && log2_upper_at(1242) == 12615209339690694221u64);
    assert(log2_entries_fit_below(1243));
    assert(log2_lower_at(1243) == 12623297176311425593u64 && log2_upper_at(1243) == 12623297176311425598u64);
    assert(log2_entries_fit_below(1244));
    assert(log2_lower_at(1244) == 12631382555743414707u64 && log2_upper_at(1244) == 12631382555743414712u64);
    assert(log2_entries_fit_below(1245));
    assert(log2_lower_at(1245) == 12639465479479259150u64 && log2_upper_at(1245) == 12639465479479259155u64);
    assert(log2_entries_fit_below(1246));
    assert(log2_lower_at(1246) == 12647545949010196945u64 && log2_upper_at(1246) == 12647545949010196949u64);
    assert(log2_entries_fit_below(1247));
    assert(log2_lower_at(1247) == 12655623965826108166u64 && log2_upper_at(1247) == 12655623965826108171u64);
    assert(log2_entries_fit_below(1248));
    assert(log2_lower_at(1248) == 12663699531415516610u64 && log2_upper_at(1248) == 12663699531415516615u64);
    assert(log2_entries_fit_below(1249));
    assert(log2_lower_at(1249) == 12671772647265591437u64 && log2_upper_at(1249) == 12671772647265591441u64);
    assert(log2_entries_fit_below(1250));
    assert(log2_lower_at(1250) == 12679843314862148796u64 && log2_upper_at(1250) == 12679843314862148801u64);
    assert(log2_entries_fit_below(1251));
    assert(log2_lower_at(1251) == 12687911535689653497u64 && log2_upper_at(1251) == 12687911535689653502u64);
    assert(log2_entries_fit_below(1252));
    assert(log2_lower_at(1252) == 12695977311231220615u64 && log2_upper_at(1252) == 12695977311231220620u64);
    assert(log2_entries_fit_below(1253));
    assert(log2_lower_at(1253) == 12704040642968617159u64 && log2_upper_at(1253) == 12704040642968617164u64);
    assert(log2_entries_fit_below(1254));
    assert(log2_lower_at(1254) == 12712101532382263676u64 && log2_upper_at(1254) == 12712101532382263681u64);
    assert(log2_entries_fit_below(1255));
    assert(log2_lower_at(1255) == 12720159980951235902u64 && log2_upper_at(1255) == 12720159980951235907u64);
    assert(log2_entries_fit_below(1256));
    assert(log2_lower_at(1256) == 12728215990153266379u64 && log2_upper_at(1256) == 12728215990153266384u64);
    assert(log2_entries_fit_below(1257));
    assert(log2_lower_at(1257) == 12736269561464746092u64 && log2_upper_at(1257) == 12736269561464746096u64);
    assert(log2_entries_fit_below(1258));
    assert(log2_lower_at(1258) == 12744320696360726078u64 && log2_upper_at(1258) == 12744320696360726083u64);
    assert(log2_entries_fit_below(1259));
    assert(log2_lower_at(1259) == 12752369396314919059u64 && log2_upper_at(1259) == 12752369396314919064u64);
    assert(log2_entries_fit_below(1260));
    assert(log2_lower_at(1260) == 12760415662799701054u64 && log2_upper_at(1260) == 12760415662799701059u64);
    assert(log2_entries_fit_below(1261));
    assert(log2_lower_at(1261) == 12768459497286113000u64 && log2_upper_at(1261) == 12768459497286113005u64);
    assert(log2_entries_fit_below(1262));
    assert(log2_lower_at(1262) == 12776500901243862357u64 && log2_upper_at(1262) == 12776500901243862361u64);
    assert(log2_entries_fit_below(1263));
    assert(log2_lower_at(1263) == 12784539876141324731u64 && log2_upper_at(1263) == 12784539876141324735u64);
    assert(log2_entries_fit_below(1264));
    assert(log2_lower_at(1264) == 12792576423445545472u64 && log2_upper_at(1264) == 12792576423445545477u64);
    assert(log2_entries_fit_below(1265));
    assert(log2_lower_at(1265) == 12800610544622241292u64 && log2_upper_at(1265) == 12800610544622241297u64);
    assert(log2_entries_fit_below(1266));
    assert(log2_lower_at(1266) == 12808642241135801854u64 && log2_upper_at(1266) == 12808642241135801859u64);
    assert(log2_entries_fit_below(1267));
    assert(log2_lower_at(1267) == 12816671514449291388u64 && log2_upper_at(1267) == 12816671514449291392u64);
    assert(log2_entries_fit_below(1268));
    assert(log2_lower_at(1268) == 12824698366024450280u64 && log2_upper_at(1268) == 12824698366024450285u64);
    assert(log2_entries_fit_below(1269));
    assert(log2_lower_at(1269) == 12832722797321696670u64 && log2_upper_at(1269) == 12832722797321696675u64);
    assert(log2_entries_fit_below(1270));
    assert(log2_lower_at(1270) == 12840744809800128056u64 && log2_upper_at(1270) == 12840744809800128061u64);
    assert(log2_entries_fit_below(1271));
    assert(log2_lower_at(1271) == 12848764404917522868u64 && log2_upper_at(1271) == 12848764404917522873u64);
    assert(log2_entries_fit_below(1272));
    assert(log2_lower_at(1272) == 12856781584130342082u64 && log2_upper_at(1272) == 12856781584130342087u64);
    assert(log2_entries_fit_below(1273));
    assert(log2_lower_at(1273) == 12864796348893730779u64 && log2_upper_at(1273) == 12864796348893730784u64);
    assert(log2_entries_fit_below(1274));
    assert(log2_lower_at(1274) == 12872808700661519749u64 && log2_upper_at(1274) == 12872808700661519753u64);
    assert(log2_entries_fit_below(1275));
    assert(log2_lower_at(1275) == 12880818640886227072u64 && log2_upper_at(1275) == 12880818640886227077u64);
    assert(log2_entries_fit_below(1276));
    assert(log2_lower_at(1276) == 12888826171019059691u64 && log2_upper_at(1276) == 12888826171019059695u64);
    assert(log2_entries_fit_below(1277));
    assert(log2_lower_at(1277) == 12896831292509914986u64 && log2_upper_at(1277) == 12896831292509914991u64);
    assert(log2_entries_fit_below(1278));
    assert(log2_lower_at(1278) == 12904834006807382366u64 && log2_upper_at(1278) == 12904834006807382371u64);
    assert(log2_entries_fit_below(1279));
    assert(log2_lower_at(1279) == 12912834315358744824u64 && log2_upper_at(1279) == 12912834315358744829u64);
    assert(log2_entries_fit_below(1280));
}

/// Entries 1280 to 1535 fit.
proof fn lemma_log2_page_5()
    requires
        log2_entries_fit_below(1280),
    ensures
        log2_entries_fit_below(1536),
{
    reveal(log2_lower_at);
    reveal(log2_upper_at);
    assert(log2_lower_at(1280) == 12920832219609980518u64 && log2_upper_at(1280) == 12920832219609980523u64);
    assert(log2_entries_fit_below(1281));
    assert(log2_lower_at(1281) == 12928827721005764338u64 && log2_upper_at(1281) == 12928827721005764343u64);
    assert(log2_entries_fit_below(1282));
    assert(log2_lower_at(1282) == 12936820820989469463u64 && log2_upper_at(1282) == 12936820820989469467u64);
    assert(log2_entries_fit_below(1283));
    assert(log2_lower_at(1283) == 12944811521003168935u64 && log2_upper_at(1283) == 12944811521003168940u64);
    assert(log2_entries_fit_below(1284));
    assert(log2_lower_at(1284) == 12952799822487637215u64 && log2_upper_at(1284) == 12952799822487637220u64);
    assert(log2_entries_fit_below(1285));
    assert(log2_lower_at(1285) == 12960785726882351750u64 && log2_upper_at(1285) == 12960785726882351754u64);
    assert(log2_entries_fit_below(1286));
    assert(log2_lower_at(1286) == 12968769235625494509u64 && log2_upper_at(1286) == 12968769235625494513u64);
    assert(log2_entries_fit_below(1287));
    assert(log2_lower_at(1287) == 12976750350153953556u64 && log2_upper_at(1287) == 12976750350153953561u64);
    assert(log2_entries_fit_below(1288));
    assert(log2_lower_at(1288) == 12984729071903324603u64 && log2_upper_at(1288) == 12984729071903324608u64);
    assert(log2_entries_fit_below(1289));
    assert(log2_lower_at(1289) == 12992705402307912537u64 && log2_upper_at(1289) == 12992705402307912542u64);
    assert(log2_entries_fit_below(1290));
    assert(log2_lower_at(1290) == 13000679342800732999u64 && log2_upper_at(1290) == 13000679342800733003u64);
    assert(log2_entries_fit_below(1291));
    assert(log2_lower_at(1291) == 13008650894813513896u64 && log2_upper_at(1291) == 13008650894813513901u64);
    assert(log2_entries_fit_below(1292));
    assert(log2_lower_at(1292) == 13016620059776696970u64 && log2_upper_at(1292) == 13016620059776696974u64);
    assert(log2_entries_fit_below(1293));
    assert(log2_lower_at(1293) == 13024586839119439322u64 && log2_upper_at(1293) == 13024586839119439327u64);
    assert(log2_entries_fit_below(1294));
    assert(log2_lower_at(1294) == 13032551234269614964u64 && log2_upper_at(1294) == 13032551234269614969u64);
    assert(log2_entries_fit_below(1295));
    assert(log2_lower_at(1295) == 13040513246653816328u64 && log2_upper_at(1295) == 13040513246653816333u64);
    assert(log2_entries_fit_below(1296));
    assert(log2_lower_at(1296) == 13048472877697355838u64 && log2_upper_at(1296) == 13048472877697355842u64);
    assert(log2_entries_fit_below(1297));
    assert(log2_lower_at(1297) == 13056430128824267404u64 && log2_upper_at(1297) == 13056430128824267409u64);
    assert(log2_entries_fit_below(1298));
    assert(log2_lower_at(1298) == 13064385001457307972u64 && log2_upper_at(1298) == 13064385001457307977u64);
    assert(log2_entries_fit_below(1299));
    assert(log2_lower_at(1299) == 13072337497017959044u64 && log2_upper_at(1299) == 13072337497017959049u64);
    assert(log2_entries_fit_below(1300));
    assert(log2_lower_at(1300) == 13080287616926428206u64 && log2_upper_at(1300) == 13080287616926428211u64);
    assert(log2_entries_fit_below(1301));
    assert(log2_lower_at(1301) == 13088235362601650641u64 && log2_upper_at(1301) == 13088235362601650646u64);
    assert(log2_entries_fit_below(1302));
    assert(log2_lower_at(1302) == 13096180735461290658u64 && log2_upper_at(1302) == 13096180735461290663u64);
    assert(log2_entries_fit_below(1303));
    assert(log2_lower_at(1303) == 13104123736921743207u64 && log2_upper_at(1303) == 13104123736921743212u64);
    assert(log2_entries_fit_below(1304));
    assert(log2_lower_at(1304) == 13112064368398135385u64 && log2_upper_at(1304) == 13112064368398135390u64);
    assert(log2_entries_fit_below(1305));
    assert(log2_lower_at(1305) == 13120002631304327964u64 && log2_upper_at(1305) == 13120002631304327969u64);
    assert(log2_entries_fit_below(1306));
    assert(log2_lower_at(1306) == 13127938527052916886u64 && log2_upper_at(1306) == 13127938527052916891u64);
    assert(log2_entries_fit_below(1307));
    assert(log2_lower_at(1307) == 13135872057055234785u64 && log2_upper_at(1307) == 13135872057055234790u64);
    assert(log2_entries_fit_below(1308));
    assert(log2_lower_at(1308) == 13143803222721352488u64 && log2_upper_at(1308) == 13143803222721352493u64);
    assert(log2_entries_fit_below(1309));
    assert(log2_lower_at(1309) == 13151732025460080505u64 && log2_upper_at(1309) == 13151732025460080510u64);
    assert(log2_entries_fit_below(1310));
    assert(log2_lower_at(1310) == 13159658466678970557u64 && log2_upper_at(1310) == 13159658466678970562u64);
    assert(log2_entries_fit_below(1311));
    assert(log2_lower_at(1311) == 13167582547784317055u64 && log2_upper_at(1311) == 13167582547784317060u64);
    assert(log2_entries_fit_below(1312));
    assert(log2_lower_at(1312) == 13175504270181158602u64 && log2_upper_at(1312) == 13175504270181158606u64);
    assert(log2_entries_fit_below(1313));
    assert(log2_lower_at(1313) == 13183423635273279491u64 && log2_upper_at(1313) == 13183423635273279496u64);
    assert(log2_entries_fit_below(1314));
    assert(log2_lower_at(1314) == 13191340644463211193u64 && log2_upper_at(1314) == 13191340644463211198u64);
    assert(log2_entries_fit_below(1315));
    assert(log2_lower_at(1315) == 13199255299152233857u64 && log2_upper_at(1315) == 13199255299152233862u64);
    assert(log2_entries_fit_below(1316));
    assert(log2_lower_at(1316) == 13207167600740377777u64 && log2_upper_at(1316) == 13207167600740377782u64);
    assert(log2_entries_fit_below(1317));
    assert(log2_lower_at(1317) == 13215077550626424909u64 && log2_upper_at(1317) == 13215077550626424914u64);
    assert(log2_entries_fit_below(1318));
    assert(log2_lower_at(1318) == 13222985150207910323u64 && log2_upper_at(1318) == 13222985150207910327u64);
    assert(log2_entries_fit_below(1319));
    assert(log2_lower_at(1319) == 13230890400881123706u64 && log2_upper_at(1319) == 13230890400881123710u64);
    assert(log2_entries_fit_below(1320));
    assert(log2_lower_at(1320) == 13238793304041110833u64 && log2_upper_at(1320) == 13238793304041110838u64);
    assert(log2_entries_fit_below(1321));
    assert(log2_lower_at(1321) == 13246693861081675047u64 && log2_upper_at(1321) == 13246693861081675052u64);
    assert(log2_entries_fit_below(1322));
    assert(log2_lower_at(1322) == 13254592073395378730u64 && log2_upper_at(1322) == 13254592073395378734u64);
    assert(log2_entries_fit_below(1323));
    assert(log2_lower_at(1323) == 13262487942373544780u64 && log2_upper_at(1323) == 13262487942373544785u64);
    assert(log2_entries_fit_below(1324));
    assert(log2_lower_at(1324) == 13270381469406258075u64 && log2_upper_at(1324) == 13270381469406258080u64);
    assert(log2_entries_fit_below(1325));
    assert(log2_lower_at(1325) == 13278272655882366955u64 && log2_upper_at(1325) == 13278272655882366959u64);
    assert(log2_entries_fit_below(1326));
    assert(log2_lower_at(1326) == 13286161503189484668u64 && log2_upper_at(1326) == 13286161503189484673u64);
    assert(log2_entries_fit_below(1327));
    assert(log2_lower_at(1327) == 13294048012713990854u64 && log2_upper_at(1327) == 13294048012713990859u64);
    assert(log2_entries_fit_below(1328));
    assert(log2_lower_at(1328) == 13301932185841032999u64 && log2_upper_at(1328) == 13301932185841033004u64);
    assert(log2_entries_fit_below(1329));
    assert(log2_lower_at(1329) == 13309814023954527881u64 && log2_upper_at(1329) == 13309814023954527886u64);
    assert(log2_entries_fit_below(1330));
    assert(log2_lower_at(1330) == 13317693528437163056u64 && log2_upper_at(1330) == 13317693528437163061u64);
    assert(log2_entries_fit_below(1331));
    assert(log2_lower_at(1331) == 13325570700670398290u64 && log2_upper_at(1331) == 13325570700670398295u64);
    assert(log2_entries_fit_below(1332));
    assert(log2_lower_at(1332) == 13333445542034467017u64 && log2_upper_at(1332) == 13333445542034467022u64);
    assert(log2_entries_fit_below(1333));
    assert(log2_lower_at(1333) == 13341318053908377799u64 && log2_upper_at(1333) == 13341318053908377803u64);
    assert(log2_entries_fit_below(1334));
    assert(log2_lower_at(1334) == 13349188237669915767u64 && log2_upper_at(1334) == 13349188237669915772u64);
    assert(log2_entries_fit_below(1335));
    assert(log2_lower_at(1335) == 13357056094695644064u64 && log2_upper_at(1335) == 13357056094695644069u64);
    assert(log2_entries_fit_below(1336));
    assert(log2_lower_at(1336) == 13364921626360905307u64 && log2_upper_at(1336) == 13364921626360905312u64);
    assert(log2_entries_fit_below(1337));
    assert(log2_lower_at(1337) == 13372784834039823005u64 && log2_upper_at(1337) == 13372784834039823010u64);
    assert(log2_entries_fit_below(1338));
    assert(log2_lower_at(1338) == 13380645719105303021u64 && log2_upper_at(1338) == 13380645719105303025u64);
    assert(log2_entries_fit_below(1339));
    assert(log2_lower_at(1339) == 13388504282929034996u64 && log2_upper_at(1339) == 13388504282929035001u64);
    assert(log2_entries_fit_below(1340));
    assert(log2_lower_at(1340) == 13396360526881493793u64 && log2_upper_at(1340) == 13396360526881493798u64);
    assert(log2_entries_fit_below(1341));
    assert(log2_lower_at(1341) == 13404214452331940931u64 && log2_upper_at(1341) == 13404214452331940936u64);
    assert(log2_entries_fit_below(1342));
    assert(log2_lower_at(1342) == 13412066060648426011u64 && log2_upper_at(1342) == 13412066060648426016u64);
    assert(log2_entries_fit_below(1343));
    assert(log2_lower_at(1343) == 13419915353197788144u64 && log2_upper_at(1343) == 13419915353197788149u64);
    assert(log2_entries_fit_below(1344));
    assert(log2_lower_at(1344) == 13427762331345657397u64 && log2_upper_at(1344) == 13427762331345657402u64);
    assert(log2_entries_fit_below(1345));
    assert(log2_lower_at(1345) == 13435606996456456192u64 && log2_upper_at(1345) == 13435606996456456197u64);
    assert(log2_entries_fit_below(1346));
    assert(log2_lower_at(1346) == 13443449349893400751u64 && log2_upper_at(1346) == 13443449349893400756u64);
    assert(log2_entries_fit_below(1347));
    assert(log2_lower_at(1347) == 13451289393018502509u64 && log2_upper_at(1347) == 13451289393018502514u64);
    assert(log2_entries_fit_below(1348));
    assert(log2_lower_at(1348) == 13459127127192569528u64 && log2_upper_at(1348) == 13459127127192569533u64);
    assert(log2_entries_fit_below(1349));
    assert(log2_lower_at(1349) == 13466962553775207925u64 && log2_upper_at(1349) == 13466962553775207930u64);
    assert(log2_entries_fit_below(1350));
    assert(log2_lower_at(1350) == 13474795674124823276u64 && log2_upper_at(1350) == 13474795674124823281u64);
    assert(log2_entries_fit_below(1351));
    assert(log2_lower_at(1351) == 13482626489598622044u64 && log2_upper_at(1351) == 13482626489598622049u64);
    assert(log2_entries_fit_below(1352));
    assert(log2_lower_at(1352) == 13490455001552612972u64 && log2_upper_at(1352) == 13490455001552612977u64);
    assert(log2_entries_fit_below(1353));
    assert(log2_lower_at(1353) == 13498281211341608505u64 && log2_upper_at(1353) == 13498281211341608510u64);
    assert(log2_entries_fit_below(1354));
    assert(log2_lower_at(1354) == 13506105120319226192u64 && log2_upper_at(1354) == 13506105120319226197u64);
    assert(log2_entries_fit_below(1355));
    assert(log2_lower_at(1355) == 13513926729837890087u64 && log2_upper_at(1355) == 13513926729837890092u64);
    assert(log2_entries_fit_below(1356));
    assert(log2_lower_at(1356) == 13521746041248832160u64 && log2_upper_at(1356) == 13521746041248832165u64);
    assert(log2_entries_fit_below(1357));
    assert(log2_lower_at(1357) == 13529563055902093696u64 && log2_upper_at(1357) == 13529563055902093701u64);
    assert(log2_entries_fit_below(1358));
    assert(log2_lower_at(1358) == 13537377775146526684u64 && log2_upper_at(1358) == 13537377775146526689u64);
    assert(log2_entries_fit_below(1359));
    assert(log2_lower_at(1359) == 13545190200329795227u64 && log2_upper_at(1359) == 13545190200329795231u64);
    assert(log2_entries_fit_below(1360));
    assert(log2_lower_at(1360) == 13553000332798376922u64 && log2_upper_at(1360) == 13553000332798376927u64);
    assert(log2_entries_fit_below(1361));
    assert(log2_lower_at(1361) == 13560808173897564269u64 && log2_upper_at(1361) == 13560808173897564274u64);
    assert(log2_entries_fit_below(1362));
    assert(log2_lower_at(1362) == 13568613724971466049u64 && log2_upper_at(1362) == 13568613724971466054u64);
    assert(log2_entries_fit_below(1363));
    assert(log2_lower_at(1363) == 13576416987363008711u64 && log2_upper_at(1363) == 13576416987363008716u64);
    assert(log2_entries_fit_below(1364));
    assert(log2_lower_at(1364) == 13584217962413937771u64 && log2_upper_at(1364) == 13584217962413937776u64);
    assert(log2_entries_fit_below(1365));
    assert(log2_lower_at(1365) == 13592016651464819185u64 && log2_upper_at(1365) == 13592016651464819190u64);
    assert(log2_entries_fit_below(1366));
    assert(log2_lower_at(1366) == 13599813055855040734u64 && log2_upper_at(1366) == 13599813055855040739u64);
    assert(log2_entries_fit_below(1367));
    assert(log2_lower_at(1367) == 13607607176922813406u64 && log2_upper_at(1367) == 13607607176922813411u64);
    assert(log2_entries_fit_below(1368));
    assert(log2_lower_at(1368) == 13615399016005172772u64 && log2_upper_at(1368) == 13615399016005172777u64);
    assert(log2_entries_fit_below(1369));
    assert(log2_lower_at(1369) == 13623188574437980366u64 && log2_upper_at(1369) == 13623188574437980371u64);
    assert(log2_entries_fit_below(1370));
    assert(log2_lower_at(1370) == 13630975853555925054u64 && log2_upper_at(1370) == 13630975853555925058u64);
    assert(log2_entries_fit_below(1371));
    assert(log2_lower_at(1371) == 13638760854692524408u64 && log2_upper_at(1371) == 13638760854692524413u64);
    assert(log2_entries_fit_below(1372));
    assert(log2_lower_at(1372) == 13646543579180126077u64 && log2_upper_at(1372) == 13646543579180126082u64);
    assert(log2_entries_fit_below(1373));
    assert(log2_lower_at(1373) == 13654324028349909158u64 && log2_upper_at(1373) == 13654324028349909163u64);
    assert(log2_entries_fit_below(1374));
    assert(log2_lower_at(1374) == 13662102203531885556u64 && log2_upper_at(1374) == 13662102203531885561u64);
    assert(log2_entries_fit_below(1375));
    assert(log2_lower_at(1375) == 13669878106054901349u64 && log2_upper_at(1375) == 13669878106054901354u64);
    assert(log2_entries_fit_below(1376));
    assert(log2_lower_at(1376) == 13677651737246638157u64 && log2_upper_at(1376) == 13677651737246638162u64);
    assert(log2_entries_fit_below(1377));
    assert(log2_lower_at(1377) == 13685423098433614494u64 && log2_upper_at(1377) == 13685423098433614499u64);
    assert(log2_entries_fit_below(1378));
    assert(log2_lower_at(1378) == 13693192190941187133u64 && log2_upper_at(1378) == 13693192190941187138u64);
    assert(log2_entries_fit_below(1379));
    assert(log2_lower_at(1379) == 13700959016093552451u64 && log2_upper_at(1379) == 13700959016093552456u64);
    assert(log2_entries_fit_below(1380));
    assert(log2_lower_at(1380) == 13708723575213747800u64 && log2_upper_at(1380) == 13708723575213747805u64);
    assert(log2_entries_fit_below(1381));
    assert(log2_lower_at(1381) == 13716485869623652848u64 && log2_upper_at(1381) == 13716485869623652853u64);
    assert(log2_entries_fit_below(1382));
    assert(log2_lower_at(1382) == 13724245900643990928u64 && log2_upper_at(1382) == 13724245900643990933u64);
    assert(log2_entries_fit_below(1383));
    assert(log2_lower_at(1383) == 13732003669594330389u64 && log2_upper_at(1383) == 13732003669594330394u64);
    assert(log2_entries_fit_below(1384));
    assert(log2_lower_at(1384) == 13739759177793085952u64 && log2_upper_at(1384) == 13739759177793085957u64);
    assert(log2_entries_fit_below(1385));
    assert(log2_lower_at(1385) == 13747512426557520032u64 && log2_upper_at(1385) == 13747512426557520037u64);
    assert(log2_entries_fit_below(1386));
    assert(log2_lower_at(1386) == 13755263417203744106u64 && log2_upper_at(1386) == 13755263417203744111u64);
    assert(log2_entries_fit_below(1387));
    assert(log2_lower_at(1387) == 13763012151046720034u64 && log2_upper_at(1387) == 13763012151046720039u64);
    assert(log2_entries_fit_below(1388));
    assert(log2_lower_at(1388) == 13770758629400261404u64 && log2_upper_at(1388) == 13770758629400261409u64);
    assert(log2_entries_fit_below(1389));
    assert(log2_lower_at(1389) == 13778502853577034879u64 && log2_upper_at(1389) == 13778502853577034884u64);
    assert(log2_entries_fit_below(1390));
    assert(log2_lower_at(1390) == 13786244824888561513u64 && log2_upper_at(1390) == 13786244824888561518u64);
    assert(log2_entries_fit_below(1391));
    assert(log2_lower_at(1391) == 13793984544645218092u64 && log2_upper_at(1391) == 13793984544645218097u64);
    assert(log2_entries_fit_below(1392));
    assert(log2_lower_at(1392) == 13801722014156238471u64 && log2_upper_at(1392) == 13801722014156238476u64);
    assert(log2_entries_fit_below(1393));
    assert(log2_lower_at(1393) == 13809457234729714894u64 && log2_upper_at(1393) == 13809457234729714899u64);
    assert(log2_entries_fit_below(1394));
    assert(log2_lower_at(1394) == 13817190207672599324u64 && log2_upper_at(1394) == 13817190207672599329u64);
    assert(log2_entries_fit_below(1395));
    assert(log2_lower_at(1395) == 13824920934290704769u64 && log2_upper_at(1395) == 13824920934290704774u64);
    assert(log2_entries_fit_below(1396));
    assert(log2_lower_at(1396) == 13832649415888706606u64 && log2_upper_at(1396) == 13832649415888706611u64);
    assert(log2_entries_fit_below(1397));
    assert(log2_lower_at(1397) == 13840375653770143895u64 && log2_upper_at(1397) == 13840375653770143900u64);
    assert(log2_entries_fit_below(1398));
    assert(log2_lower_at(1398) == 13848099649237420708u64 && log2_upper_at(1398) == 13848099649237420713u64);
    assert(log2_entries_fit_below(1399));
    assert(log2_lower_at(1399) == 13855821403591807437u64 && log2_upper_at(1399) == 13855821403591807442u64);
    assert(log2_entries_fit_below(1400));
    assert(log2_lower_at(1400) == 13863540918133442118u64 && log2_upper_at(1400) == 13863540918133442123u64);
    assert(log2_entries_fit_below(1401));
    assert(log2_lower_at(1401) == 13871258194161331738u64 && log2_upper_at(1401) == 13871258194161331743u64);
    assert(log2_entries_fit_below(1402));
    assert(log2_lower_at(1402) == 13878973232973353555u64 && log2_upper_at(1402) == 13878973232973353560u64);
    assert(log2_entries_fit_below(1403));
    assert(log2_lower_at(1403) == 13886686035866256393u64 && log2_upper_at(1403) == 13886686035866256398u64);
    assert(log2_entries_fit_below(1404));
    assert(log2_lower_at(1404) == 13894396604135661958u64 && log2_upper_at(1404) == 13894396604135661963u64);
    assert(log2_entries_fit_below(1405));
    assert(log2_lower_at(1405) == 13902104939076066156u64 && log2_upper_at(1405) == 13902104939076066161u64);
    assert(log2_entries_fit_below(1406));
    assert(log2_lower_at(1406) == 13909811041980840371u64 && log2_upper_at(1406) == 13909811041980840376u64);
    assert(log2_entries_fit_below(1407));
    assert(log2_lower_at(1407) == 13917514914142232791u64 && log2_upper_at(1407) == 13917514914142232796u64);
    assert(log2_entries_fit_below(1408));
    assert(log2_lower_at(1408) == 13925216556851369692u64 && log2_upper_at(1408) == 13925216556851369697u64);
    assert(log2_entries_fit_below(1409));
    assert(log2_lower_at(1409) == 13932915971398256749u64 && log2_upper_at(1409) == 13932915971398256754u64);
    assert(log2_entries_fit_below(1410));
    assert(log2_lower_at(1410) == 13940613159071780320u64 && log2_upper_at(1410) == 13940613159071780325u64);
    assert(log2_entries_fit_below(1411));
    assert(log2_lower_at(1411) == 13948308121159708754u64 && log2_upper_at(1411) == 13948308121159708759u64);
    assert(log2_entries_fit_below(1412));
    assert(log2_lower_at(1412) == 13956000858948693667u64 && log2_upper_at(1412) == 13956000858948693672u64);
    assert(log2_entries_fit_below(1413));
    assert(log2_lower_at(1413) == 13963691373724271250u64 && log2_upper_at(1413) == 13963691373724271255u64);
    assert(log2_entries_fit_below(1414));
    assert(log2_lower_at(1414) == 13971379666770863548u64 && log2_upper_at(1414) == 13971379666770863553u64);
    assert(log2_entries_fit_below(1415));
    assert(log2_lower_at(1415) == 13979065739371779749u64 && log2_upper_at(1415) == 13979065739371779754u64);
    assert(log2_entries_fit_below(1416));
    assert(log2_lower_at(1416) == 13986749592809217469u64 && log2_upper_at(1416) == 13986749592809217474u64);
    assert(log2_entries_fit_below(1417));
    assert(log2_lower_at(1417) == 13994431228364264032u64 && log2_upper_at(1417) == 13994431228364264037u64);
    assert(log2_entries_fit_below(1418));
    assert(log2_lower_at(1418) == 14002110647316897768u64 && log2_upper_at(1418) == 14002110647316897773u64);
    assert(log2_entries_fit_below(1419));
    assert(log2_lower_at(1419) == 14009787850945989269u64 && log2_upper_at(1419) == 14009787850945989274u64);
    assert(log2_entries_fit_below(1420));
    assert(log2_lower_at(1420) == 14017462840529302679u64 && log2_upper_at(1420) == 14017462840529302684u64);
    assert(log2_entries_fit_below(1421));
    assert(log2_lower_at(1421) == 14025135617343496973u64 && log2_upper_at(1421) == 14025135617343496978u64);
    assert(log2_entries_fit_below(1422));
    assert(log2_lower_at(1422) == 14032806182664127222u64 && log2_upper_at(1422) == 14032806182664127227u64);
    assert(log2_entries_fit_below(1423));
    assert(log2_lower_at(1423) == 14040474537765645879u64 && log2_upper_at(1423) == 14040474537765645884u64);
    assert(log2_entries_fit_below(1424));
    assert(log2_lower_at(1424) == 14048140683921404033u64 && log2_upper_at(1424) == 14048140683921404038u64);
    assert(log2_entries_fit_below(1425));
    assert(log2_lower_at(1425) == 14055804622403652688u64 && log2_upper_at(1425) == 14055804622403652693u64);
    assert(log2_entries_fit_below(1426));
    assert(log2_lower_at(1426) == 14063466354483544029u64 && log2_upper_at(1426) == 14063466354483544033u64);
    assert(log2_entries_fit_below(1427));
    assert(log2_lower_at(1427) == 14071125881431132683u64 && log2_upper_at(1427) == 14071125881431132688u64);
    assert(log2_entries_fit_below(1428));
    assert(log2_lower_at(1428) == 14078783204515376987u64 && log2_upper_at(1428) == 14078783204515376992u64);
    assert(log2_entries_fit_below(1429));
    assert(log2_lower_at(1429) == 14086438325004140247u64 && log2_upper_at(1429) == 14086438325004140252u64);
    assert(log2_entries_fit_below(1430));
    assert(log2_lower_at(1430) == 14094091244164191995u64 && log2_upper_at(1430) == 14094091244164192000u64);
    assert(log2_entries_fit_below(1431));
    assert(log2_lower_at(1431) == 14101741963261209252u64 && log2_upper_at(1431) == 14101741963261209257u64);
    assert(log2_entries_fit_below(1432));
    assert(log2_lower_at(1432) == 14109390483559777776u64 && log2_upper_at(1432) == 14109390483559777781u64);
    assert(log2_entries_fit_below(1433));
    assert(log2_lower_at(1433) == 14117036806323393333u64 && log2_upper_at(1433) == 14117036806323393338u64);
    assert(log2_entries_fit_below(1434));
    assert(log2_lower_at(1434) == 14124680932814462925u64 && log2_upper_at(1434) == 14124680932814462930u64);
    assert(log2_entries_fit_below(1435));
    assert(log2_lower_at(1435) == 14132322864294306061u64 && log2_upper_at(1435) == 14132322864294306066u64);
    assert(log2_entries_fit_below(1436));
    assert(log2_lower_at(1436) == 14139962602023155995u64 && log2_upper_at(1436) == 14139962602023156000u64);
    assert(log2_entries_fit_below(1437));
    assert(log2_lower_at(1437) == 14147600147260160976u64 && log2_upper_at(1437) == 14147600147260160981u64);
    assert(log2_entries_fit_below(1438));
    assert(log2_lower_at(1438) == 14155235501263385500u64 && log2_upper_at(1438) == 14155235501263385505u64);
    assert(log2_entries_fit_below(1439));
    assert(log2_lower_at(1439) == 14162868665289811532u64 && log2_upper_at(1439) == 14162868665289811537u64);
    assert(log2_entries_fit_below(1440));
    assert(log2_lower_at(1440) == 14170499640595339777u64 && log2_upper_at(1440) == 14170499640595339781u64);
    assert(log2_entries_fit_below(1441));
    assert(log2_lower_at(1441) == 14178128428434790896u64 && log2_upper_at(1441) == 14178128428434790901u64);
    assert(log2_entries_fit_below(1442));
    assert(log2_lower_at(1442) == 14185755030061906756u64 && log2_upper_at(1442) == 14185755030061906761u64);
    assert(log2_entries_fit_below(1443));
    assert(log2_lower_at(1443) == 14193379446729351664u64 && log2_upper_at(1443) == 14193379446729351669u64);
    assert(log2_entries_fit_below(1444));
    assert(log2_lower_at(1444) == 14201001679688713600u64 && log2_upper_at(1444) == 14201001679688713605u64);
    assert(log2_entries_fit_below(1445));
    assert(log2_lower_at(1445) == 14208621730190505448u64 && log2_upper_at(1445) == 14208621730190505453u64);
    assert(log2_entries_fit_below(1446));
    assert(log2_lower_at(1446) == 14216239599484166234u64 && log2_upper_at(1446) == 14216239599484166239u64);
    assert(log2_entries_fit_below(1447));
    assert(log2_lower_at(1447) == 14223855288818062349u64 && log2_upper_at(1447) == 14223855288818062354u64);
    assert(log2_entries_fit_below(1448));
    assert(log2_lower_at(1448) == 14231468799439488777u64 && log2_upper_at(1448) == 14231468799439488782u64);
    assert(log2_entries_fit_below(1449));
    assert(log2_lower_at(1449) == 14239080132594670322u64 && log2_upper_at(1449) == 14239080132594670327u64);
    assert(log2_entries_fit_below(1450));
    assert(log2_lower_at(1450) == 14246689289528762830u64 && log2_upper_at(1450) == 14246689289528762835u64);
    assert(log2_entries_fit_below(1451));
    assert(log2_lower_at(1451) == 14254296271485854417u64 && log2_upper_at(1451) == 14254296271485854422u64);
    assert(log2_entries_fit_below(1452));
    assert(log2_lower_at(1452) == 14261901079708966685u64 && log2_upper_at(1452) == 14261901079708966690u64);
    assert(log2_entries_fit_below(1453));
    assert(log2_lower_at(1453) == 14269503715440055937u64 && log2_upper_at(1453) == 14269503715440055942u64);
    assert(log2_entries_fit_below(1454));
    assert(log2_lower_at(1454) == 14277104179920014401u64 && log2_upper_at(1454) == 14277104179920014406u64);
    assert(log2_entries_fit_below(1455));
    assert(log2_lower_at(1455) == 14284702474388671442u64 && log2_upper_at(1455) == 14284702474388671447u64);
    assert(log2_entries_fit_below(1456));
    assert(log2_lower_at(1456) == 14292298600084794778u64 && log2_upper_at(1456) == 14292298600084794783u64);
    assert(log2_entries_fit_below(1457));
    assert(log2_lower_at(1457) == 14299892558246091683u64 && log2_upper_at(1457) == 14299892558246091688u64);
    assert(log2_entries_fit_below(1458));
    assert(log2_lower_at(1458) == 14307484350109210208u64 && log2_upper_at(1458) == 14307484350109210213u64);
    assert(log2_entries_fit_below(1459));
    assert(log2_lower_at(1459) == 14315073976909740387u64 && log2_upper_at(1459) == 14315073976909740392u64);
    assert(log2_entries_fit_below(1460));
    assert(log2_lower_at(1460) == 14322661439882215436u64 && log2_upper_at(1460) == 14322661439882215441u64);
    assert(log2_entries_fit_below(1461));
    assert(log2_lower_at(1461) == 14330246740260112971u64 && log2_upper_at(1461) == 14330246740260112976u64);
    assert(log2_entries_fit_below(1462));
    assert(log2_lower_at(1462) == 14337829879275856191u64 && log2_upper_at(1462) == 14337829879275856196u64);
    assert(log2_entries_fit_below(1463));
    assert(log2_lower_at(1463) == 14345410858160815103u64 && log2_upper_at(1463) == 14345410858160815108u64);
    assert(log2_entries_fit_below(1464));
    assert(log2_lower_at(1464) == 14352989678145307709u64 && log2_upper_at(1464) == 14352989678145307714u64);
    assert(log2_entries_fit_below(1465));
    assert(log2_lower_at(1465) == 14360566340458601200u64 && log2_upper_at(1465) == 14360566340458601204u64);
    assert(log2_entries_fit_below(1466));
    assert(log2_lower_at(1466) == 14368140846328913163u64 && log2_upper_at(1466) == 14368140846328913168u64);
    assert(log2_entries_fit_below(1467));
    assert(log2_lower_at(1467) == 14375713196983412765u64 && log2_upper_at(1467) == 14375713196983412770u64);
    assert(log2_entries_fit_below(1468));
    assert(log2_lower_at(1468) == 14383283393648221962u64 && log2_upper_at(1468) == 14383283393648221967u64);
    assert(log2_entries_fit_below(1469));
    assert(log2_lower_at(1469) == 14390851437548416664u64 && log2_upper_at(1469) == 14390851437548416669u64);
    assert(log2_entries_fit_below(1470));
    assert(log2_lower_at(1470) == 14398417329908027958u64 && log2_upper_at(1470) == 14398417329908027963u64);
    assert(log2_entries_fit_below(1471));
    assert(log2_lower_at(1471) == 14405981071950043263u64 && log2_upper_at(1471) == 14405981071950043268u64);
    assert(log2_entries_fit_below(1472));
    assert(log2_lower_at(1472) == 14413542664896407536u64 && log2_upper_at(1472) == 14413542664896407541u64);
    assert(log2_entries_fit_below(1473));
    assert(log2_lower_at(1473) == 14421102109968024453u64 && log2_upper_at(1473) == 14421102109968024458u64);
    assert(log2_entries_fit_below(1474));
    assert(log2_lower_at(1474) == 14428659408384757595u64 && log2_upper_at(1474) == 14428659408384757600u64);
    assert(log2_entries_fit_below(1475));
    assert(log2_lower_at(1475) == 14436214561365431613u64 && log2_upper_at(1475) == 14436214561365431618u64);
    assert(log2_entries_fit_below(1476));
    assert(log2_lower_at(1476) == 14443767570127833425u64 && log2_upper_at(1476) == 14443767570127833430u64);
    assert(log2_entries_fit_below(1477));
    assert(log2_lower_at(1477) == 14451318435888713390u64 && log2_upper_at(1477) == 14451318435888713395u64);
    assert(log2_entries_fit_below(1478));
    assert(log2_lower_at(1478) == 14458867159863786475u64 && log2_upper_at(1478) == 14458867159863786480u64);
    assert(log2_entries_fit_below(1479));
    assert(log2_lower_at(1479) == 14466413743267733447u64 && log2_upper_at(1479) == 14466413743267733452u64);
    assert(log2_entries_fit_below(1480));
    assert(log2_lower_at(1480) == 14473958187314202019u64 && log2_upper_at(1480) == 14473958187314202024u64);
    assert(log2_entries_fit_below(1481));
    assert(log2_lower_at(1481) == 14481500493215808052u64 && log2_upper_at(1481) == 14481500493215808057u64);
    assert(log2_entries_fit_below(1482));
    assert(log2_lower_at(1482) == 14489040662184136700u64 && log2_upper_at(1482) == 14489040662184136705u64);
    assert(log2_entries_fit_below(1483));
    assert(log2_lower_at(1483) == 14496578695429743588u64 && log2_upper_at(1483) == 14496578695429743593u64);
    assert(log2_entries_fit_below(1484));
    assert(log2_lower_at(1484) == 14504114594162155984u64 && log2_upper_at(1484) == 14504114594162155989u64);
    assert(log2_entries_fit_below(1485));
    assert(log2_lower_at(1485) == 14511648359589873949u64 && log2_upper_at(1485) == 14511648359589873954u64);
    assert(log2_entries_fit_below(1486));
    assert(log2_lower_at(1486) == 14519179992920371508u64 && log2_upper_at(1486) == 14519179992920371513u64);
    assert(log2_entries_fit_below(1487));
    assert(log2_lower_at(1487) == 14526709495360097816u64 && log2_upper_at(1487) == 14526709495360097821u64);
    assert(log2_entries_fit_below(1488));
    assert(log2_lower_at(1488) == 14534236868114478309u64 && log2_upper_at(1488) == 14534236868114478314u64);
    assert(log2_entries_fit_below(1489));
    assert(log2_lower_at(1489) == 14541762112387915859u64 && log2_upper_at(1489) == 14541762112387915864u64);
    assert(log2_entries_fit_below(1490));
    assert(log2_lower_at(1490) == 14549285229383791947u64 && log2_upper_at(1490) == 14549285229383791952u64);
    assert(log2_entries_fit_below(1491));
    assert(log2_lower_at(1491) == 14556806220304467801u64 && log2_upper_at(1491) == 14556806220304467806u64);
    assert(log2_entries_fit_below(1492));
    assert(log2_lower_at(1492) == 14564325086351285553u64 && log2_upper_at(1492) == 14564325086351285558u64);
    assert(log2_entries_fit_below(1493));
    assert(log2_lower_at(1493) == 14571841828724569399u64 && log2_upper_at(1493) == 14571841828724569404u64);
    assert(log2_entries_fit_below(1494));
    assert(log2_lower_at(1494) == 14579356448623626733u64 && log2_upper_at(1494) == 14579356448623626738u64);
    assert(log2_entries_fit_below(1495));
    assert(log2_lower_at(1495) == 14586868947246749314u64 && log2_upper_at(1495) == 14586868947246749319u64);
    assert(log2_entries_fit_below(1496));
    assert(log2_lower_at(1496) == 14594379325791214391u64 && log2_upper_at(1496) == 14594379325791214396u64);
    assert(log2_entries_fit_below(1497));
    assert(log2_lower_at(1497) == 14601887585453285871u64 && log2_upper_at(1497) == 14601887585453285876u64);
    assert(log2_entries_fit_below(1498));
    assert(log2_lower_at(1498) == 14609393727428215445u64 && log2_upper_at(1498) == 14609393727428215450u64);
    assert(log2_entries_fit_below(1499));
    assert(log2_lower_at(1499) == 14616897752910243729u64 && log2_upper_at(1499) == 14616897752910243734u64);
    assert(log2_entries_fit_below(1500));
    assert(log2_lower_at(1500) == 14624399663092601425u64 && log2_upper_at(1500) == 14624399663092601430u64);
    assert(log2_entries_fit_below(1501));
    assert(log2_lower_at(1501) == 14631899459167510434u64 && log2_upper_at(1501) == 14631899459167510439u64);
    assert(log2_entries_fit_below(1502));
    assert(log2_lower_at(1502) == 14639397142326185005u64 && log2_upper_at(1502) == 14639397142326185010u64);
    assert(log2_entries_fit_below(1503));
    assert(log2_lower_at(1503) == 14646892713758832871u64 && log2_upper_at(1503) == 14646892713758832876u64);
    assert(log2_entries_fit_below(1504));
    assert(log2_lower_at(1504) == 14654386174654656381u64 && log2_upper_at(1504) == 14654386174654656386u64);
    assert(log2_entries_fit_below(1505));
    assert(log2_lower_at(1505) == 14661877526201853625u64 && log2_upper_at(1505) == 14661877526201853630u64);
    assert(log2_entries_fit_below(1506));
    assert(log2_lower_at(1506) == 14669366769587619582u64 && log2_upper_at(1506) == 14669366769587619587u64);
    assert(log2_entries_fit_below(1507));
    assert(log2_lower_at(1507) == 14676853905998147227u64 && log2_upper_at(1507) == 14676853905998147232u64);
    assert(log2_entries_fit_below(1508));
    assert(log2_lower_at(1508) == 14684338936618628678u64 && log2_upper_at(1508) == 14684338936618628683u64);
    assert(log2_entries_fit_below(1509));
    assert(log2_lower_at(1509) == 14691821862633256303u64 && log2_upper_at(1509) == 14691821862633256308u64);
    assert(log2_entries_fit_below(1510));
    assert(log2_lower_at(1510) == 14699302685225223862u64 && log2_upper_at(1510) == 14699302685225223867u64);
    assert(log2_entries_fit_below(1511));
    assert(log2_lower_at(1511) == 14706781405576727619u64 && log2_upper_at(1511) == 14706781405576727624u64);
    assert(log2_entries_fit_below(1512));
    assert(log2_lower_at(1512) == 14714258024868967463u64 && log2_upper_at(1512) == 14714258024868967468u64);
    assert(log2_entries_fit_below(1513));
    assert(log2_lower_at(1513) == 14721732544282148034u64 && log2_upper_at(1513) == 14721732544282148039u64);
    assert(log2_entries_fit_below(1514));
    assert(log2_lower_at(1514) == 14729204964995479828u64 && log2_upper_at(1514) == 14729204964995479833u64);
    assert(log2_entries_fit_below(1515));
    assert(log2_lower_at(1515) == 14736675288187180335u64 && log2_upper_at(1515) == 14736675288187180340u64);
    assert(log2_entries_fit_below(1516));
    assert(log2_lower_at(1516) == 14744143515034475126u64 && log2_upper_at(1516) == 14744143515034475131u64);
    assert(log2_entries_fit_below(1517));
    assert(log2_lower_at(1517) == 14751609646713598986u64 && log2_upper_at(1517) == 14751609646713598991u64);
    assert(log2_entries_fit_below(1518));
    assert(log2_lower_at(1518) == 14759073684399797027u64 && log2_upper_at(1518) == 14759073684399797032u64);
    assert(log2_entries_fit_below(1519));
    assert(log2_lower_at(1519) == 14766535629267325781u64 && log2_upper_at(1519) == 14766535629267325786u64);
    assert(log2_entries_fit_below(1520));
    assert(log2_lower_at(1520) == 14773995482489454322u64 && log2_upper_at(1520) == 14773995482489454327u64);
    assert(log2_entries_fit_below(1521));
    assert(log2_lower_at(1521) == 14781453245238465369u64 && log2_upper_at(1521) == 14781453245238465374u64);
    assert(log2_entries_fit_below(1522));
    assert(log2_lower_at(1522) == 14788908918685656389u64 && log2_upper_at(1522) == 14788908918685656394u64);
    assert(log2_entries_fit_below(1523));
    assert(log2_lower_at(1523) == 14796362504001340712u64 && log2_upper_at(1523) == 14796362504001340717u64);
    assert(log2_entries_fit_below(1524));
    assert(log2_lower_at(1524) == 14803814002354848609u64 && log2_upper_at(1524) == 14803814002354848614u64);
    assert(log2_entries_fit_below(1525));
    assert(log2_lower_at(1525) == 14811263414914528426u64 && log2_upper_at(1525) == 14811263414914528431u64);
    assert(log2_entries_fit_below(1526));
    assert(log2_lower_at(1526) == 14818710742847747650u64 && log2_upper_at(1526) == 14818710742847747655u64);
    assert(log2_entries_fit_below(1527));
    assert(log2_lower_at(1527) == 14826155987320894035u64 && log2_upper_at(1527) == 14826155987320894040u64);
    assert(log2_entries_fit_below(1528));
    assert(log2_lower_at(1528) == 14833599149499376671u64 && log2_upper_at(1528) == 14833599149499376676u64);
    assert(log2_entries_fit_below(1529));
    assert(log2_lower_at(1529) == 14841040230547627104u64 && log2_upper_at(1529) == 14841040230547627109u64);
    assert(log2_entries_fit_below(1530));
    assert(log2_lower_at(1530) == 14848479231629100410u64 && log2_upper_at(1530) == 14848479231629100415u64);
    assert(log2_entries_fit_below(1531));
    assert(log2_lower_at(1531) == 14855916153906276303u64 && log2_upper_at(1531) == 14855916153906276308u64);
    assert(log2_entries_fit_below(1532));
    assert(log2_lower_at(1532) == 14863350998540660203u64 && log2_upper_at(1532) == 14863350998540660208u64);
    assert(log2_entries_fit_below(1533));
    assert(log2_lower_at(1533) == 14870783766692784349u64 && log2_upper_at(1533) == 14870783766692784354u64);
    assert(log2_entries_fit_below(1534));
    assert(log2_lower_at(1534) == 14878214459522208868u64 && log2_upper_at(1534) == 14878214459522208873u64);
    assert(log2_entries_fit_below(1535));
    assert(log2_lower_at(1535) == 14885643078187522866u64 && log2_upper_at(1535) == 14885643078187522871u64);
    assert(log2_entries_fit_below(1536));
}

/// Entries 1536 to 1791 fit.
proof fn lemma_log2_page_6()
    requires
        log2_entries_fit_below(1536),
    ensures
        log2_entries_fit_below(1792),
{
    reveal(log2_lower_at);
    reveal(log2_upper_at);
    assert(log2_lower_at(1536) == 14893069623846345520u64 && log2_upper_at(1536) == 14893069623846345525u64);
    assert(log2_entries_fit_below(1537));
    assert(log2_lower_at(1537) == 14900494097655327143u64 && log2_upper_at(1537) == 14900494097655327148u64);
    assert(log2_entries_fit_below(1538));
    assert(log2_lower_at(1538) == 14907916500770150284u64 && log2_upper_at(1538) == 14907916500770150289u64);
    assert(log2_entries_fit_below(1539));
    assert(log2_lower_at(1539) == 14915336834345530787u64 && log2_upper_at(1539) == 14915336834345530792u64);
    assert(log2_entries_fit_below(1540));
    assert(log2_lower_at(1540) == 14922755099535218892u64 && log2_upper_at(1540) == 14922755099535218897u64);
    assert(log2_entries_fit_below(1541));
    assert(log2_lower_at(1541) == 14930171297492000288u64 && log2_upper_at(1541) == 14930171297492000293u64);
    assert(log2_entries_fit_below(1542));
    assert(log2_lower_at(1542) == 14937585429367697210u64 && log2_upper_at(1542) == 14937585429367697215u64);
    assert(log2_entries_fit_below(1543));
    assert(log2_lower_at(1543) == 14944997496313169494u64 && log2_upper_at(1543) == 14944997496313169499u64);
    assert(log2_entries_fit_below(1544));
    assert(log2_lower_at(1544) == 14952407499478315661u64 && log2_upper_at(1544) == 14952407499478315666u64);
    assert(log2_entries_fit_below(1545));
    assert(log2_lower_at(1545) == 14959815440012073975u64 && log2_upper_at(1545) == 14959815440012073980u64);
    assert(log2_entries_fit_below(1546));
    assert(log2_lower_at(1546) == 14967221319062423528u64 && log2_upper_at(1546) == 14967221319062423533u64);
    assert(log2_entries_fit_below(1547));
    assert(log2_lower_at(1547) == 14974625137776385297u64 && log2_upper_at(1547) == 14974625137776385302u64);
    assert(log2_entries_fit_below(1548));
    assert(log2_lower_at(1548) == 14982026897300023208u64 && log2_upper_at(1548) == 14982026897300023213u64);
    assert(log2_entries_fit_below(1549));
    assert(log2_lower_at(1549) == 14989426598778445210u64 && log2_upper_at(1549) == 14989426598778445215u64);
    assert(log2_entries_fit_below(1550));
    assert(log2_lower_at(1550) == 14996824243355804324u64 && log2_upper_at(1550) == 14996824243355804329u64);
    assert(log2_entries_fit_below(1551));
    assert(log2_lower_at(1551) == 15004219832175299723u64 && log2_upper_at(1551) == 15004219832175299728u64);
    assert(log2_entries_fit_below(1552));
    assert(log2_lower_at(1552) == 15011613366379177775u64 && log2_upper_at(1552) == 15011613366379177780u64);
    assert(log2_entries_fit_below(1553));
    assert(log2_lower_at(1553) == 15019004847108733107u64 && log2_upper_at(1553) == 15019004847108733112u64);
    assert(log2_entries_fit_below(1554));
    assert(log2_lower_at(1554) == 15026394275504309669u64 && log2_upper_at(1554) == 15026394275504309674u64);
    assert(log2_entries_fit_below(1555));
    assert(log2_lower_at(1555) == 15033781652705301780u64 && log2_upper_at(1555) == 15033781652705301785u64);
    assert(log2_entries_fit_below(1556));
    assert(log2_lower_at(1556) == 15041166979850155184u64 && log2_upper_at(1556) == 15041166979850155189u64);
    assert(log2_entries_fit_below(1557));
    assert(log2_lower_at(1557) == 15048550258076368111u64 && log2_upper_at(1557) == 15048550258076368116u64);
    assert(log2_entries_fit_below(1558));
    assert(log2_lower_at(1558) == 15055931488520492316u64 && log2_upper_at(1558) == 15055931488520492321u64);
    assert(log2_entries_fit_below(1559));
    assert(log2_lower_at(1559) == 15063310672318134137u64 && log2_upper_at(1559) == 15063310672318134142u64);
    assert(log2_entries_fit_below(1560));
    assert(log2_lower_at(1560) == 15070687810603955541u64 && log2_upper_at(1560) == 15070687810603955546u64);
    assert(log2_entries_fit_below(1561));
    assert(log2_lower_at(1561) == 15078062904511675166u64 && log2_upper_at(1561) == 15078062904511675171u64);
    assert(log2_entries_fit_below(1562));
    assert(log2_lower_at(1562) == 15085435955174069382u64 && log2_upper_at(1562) == 15085435955174069387u64);
    assert(log2_entries_fit_below(1563));
    assert(log2_lower_at(1563) == 15092806963722973308u64 && log2_upper_at(1563) == 15092806963722973313u64);
    assert(log2_entries_fit_below(1564));
    assert(log2_lower_at(1564) == 15100175931289281888u64 && log2_upper_at(1564) == 15100175931289281893u64);
    assert(log2_entries_fit_below(1565));
    assert(log2_lower_at(1565) == 15107542859002950900u64 && log2_upper_at(1565) == 15107542859002950906u64);
    assert(log2_entries_fit_below(1566));
    assert(log2_lower_at(1566) == 15114907747992998020u64 && log2_upper_at(1566) == 15114907747992998025u64);
    assert(log2_entries_fit_below(1567));
    assert(log2_lower_at(1567) == 15122270599387503842u64 && log2_upper_at(1567) == 15122270599387503847u64);
    assert(log2_entries_fit_below(1568));
    assert(log2_lower_at(1568) == 15129631414313612929u64 && log2_upper_at(1568) == 15129631414313612934u64);
    assert(log2_entries_fit_below(1569));
    assert(log2_lower_at(1569) == 15136990193897534840u64 && log2_upper_at(1569) == 15136990193897534845u64);
    assert(log2_entries_fit_below(1570));
    assert(log2_lower_at(1570) == 15144346939264545167u64 && log2_upper_at(1570) == 15144346939264545172u64);
    assert(log2_entries_fit_below(1571));
    assert(log2_lower_at(1571) == 15151701651538986568u64 && log2_upper_at(1571) == 15151701651538986573u64);
    assert(log2_entries_fit_below(1572));
    assert(log2_lower_at(1572) == 15159054331844269791u64 && log2_upper_at(1572) == 15159054331844269796u64);
    assert(log2_entries_fit_below(1573));
    assert(log2_lower_at(1573) == 15166404981302874713u64 && log2_upper_at(1573) == 15166404981302874718u64);
    assert(log2_entries_fit_below(1574));
    assert(log2_lower_at(1574) == 15173753601036351365u64 && log2_upper_at(1574) == 15173753601036351370u64);
    assert(log2_entries_fit_below(1575));
    assert(log2_lower_at(1575) == 15181100192165320959u64 && log2_upper_at(1575) == 15181100192165320964u64);
    assert(log2_entries_fit_below(1576));
    assert(log2_lower_at(1576) == 15188444755809476909u64 && log2_upper_at(1576) == 15188444755809476914u64);
    assert(log2_entries_fit_below(1577));
    assert(log2_lower_at(1577) == 15195787293087585859u64 && log2_upper_at(1577) == 15195787293087585864u64);
    assert(log2_entries_fit_below(1578));
    assert(log2_lower_at(1578) == 15203127805117488707u64 && log2_upper_at(1578) == 15203127805117488712u64);
    assert(log2_entries_fit_below(1579));
    assert(log2_lower_at(1579) == 15210466293016101623u64 && log2_upper_at(1579) == 15210466293016101628u64);
    assert(log2_entries_fit_below(1580));
    assert(log2_lower_at(1580) == 15217802757899417069u64 && log2_upper_at(1580) == 15217802757899417074u64);
    assert(log2_entries_fit_below(1581));
    assert(log2_lower_at(1581) == 15225137200882504815u64 && log2_upper_at(1581) == 15225137200882504821u64);
    assert(log2_entries_fit_below(1582));
    assert(log2_lower_at(1582) == 15232469623079512967u64 && log2_upper_at(1582) == 15232469623079512972u64);
    assert(log2_entries_fit_below(1583));
    assert(log2_lower_at(1583) == 15239800025603668967u64 && log2_upper_at(1583) == 15239800025603668972u64);
    assert(log2_entries_fit_below(1584));
    assert(log2_lower_at(1584) == 15247128409567280617u64 && log2_upper_at(1584) == 15247128409567280622u64);
    assert(log2_entries_fit_below(1585));
    assert(log2_lower_at(1585) == 15254454776081737084u64 && log2_upper_at(1585) == 15254454776081737089u64);
    assert(log2_entries_fit_below(1586));
    assert(log2_lower_at(1586) == 15261779126257509927u64 && log2_upper_at(1586) == 15261779126257509932u64);
    assert(log2_entries_fit_below(1587));
    assert(log2_lower_at(1587) == 15269101461204154089u64 && log2_upper_at(1587) == 15269101461204154094u64);
    assert(log2_entries_fit_below(1588));
    assert(log2_lower_at(1588) == 15276421782030308907u64 && log2_upper_at(1588) == 15276421782030308912u64);
    assert(log2_entries_fit_below(1589));
    assert(log2_lower_at(1589) == 15283740089843699140u64 && log2_upper_at(1589) == 15283740089843699145u64);
    assert(log2_entries_fit_below(1590));
    assert(log2_lower_at(1590) == 15291056385751135945u64 && log2_upper_at(1590) == 15291056385751135950u64);
    assert(log2_entries_fit_below(1591));
    assert(log2_lower_at(1591) == 15298370670858517904u64 && log2_upper_at(1591) == 15298370670858517909u64);
    assert(log2_entries_fit_below(1592));
    assert(log2_lower_at(1592) == 15305682946270832018u64 && log2_upper_at(1592) == 15305682946270832024u64);
    assert(log2_entries_fit_below(1593));
    assert(log2_lower_at(1593) == 15312993213092154708u64 && log2_upper_at(1593) == 15312993213092154713u64);
    assert(log2_entries_fit_below(1594));
    assert(log2_lower_at(1594) == 15320301472425652815u64 && log2_upper_at(1594) == 15320301472425652821u64);
    assert(log2_entries_fit_below(1595));
    assert(log2_lower_at(1595) == 15327607725373584604u64 && log2_upper_at(1595) == 15327607725373584609u64);
    assert(log2_entries_fit_below(1596));
    assert(log2_lower_at(1596) == 15334911973037300755u64 && log2_upper_at(1596) == 15334911973037300760u64);
    assert(log2_entries_fit_below(1597));
    assert(log2_lower_at(1597) == 15342214216517245365u64 && log2_upper_at(1597) == 15342214216517245371u64);
    assert(log2_entries_fit_below(1598));
    assert(log2_lower_at(1598) == 15349514456912956938u64 && log2_upper_at(1598) == 15349514456912956943u64);
    assert(log2_entries_fit_below(1599));
    assert(log2_lower_at(1599) == 15356812695323069381u64 && log2_upper_at(1599) == 15356812695323069387u64);
    assert(log2_entries_fit_below(1600));
    assert(log2_lower_at(1600) == 15364108932845312995u64 && log2_upper_at(1600) == 15364108932845313000u64);
    assert(log2_entries_fit_below(1601));
    assert(log2_lower_at(1601) == 15371403170576515468u64 && log2_upper_at(1601) == 15371403170576515473u64);
    assert(log2_entries_fit_below(1602));
    assert(log2_lower_at(1602) == 15378695409612602858u64 && log2_upper_at(1602) == 15378695409612602863u64);
    assert(log2_entries_fit_below(1603));
    assert(log2_lower_at(1603) == 15385985651048600589u64 && log2_upper_at(1603) == 15385985651048600594u64);
    assert(log2_entries_fit_below(1604));
    assert(log2_lower_at(1604) == 15393273895978634431u64 && log2_upper_at(1604) == 15393273895978634437u64);
    assert(log2_entries_fit_below(1605));
    assert(log2_lower_at(1605) == 15400560145495931492u64 && log2_upper_at(1605) == 15400560145495931497u64);
    assert(log2_entries_fit_below(1606));
    assert(log2_lower_at(1606) == 15407844400692821194u64 && log2_upper_at(1606) == 15407844400692821199u64);
    assert(log2_entries_fit_below(1607));
    assert(log2_lower_at(1607) == 15415126662660736258u64 && log2_upper_at(1607) == 15415126662660736263u64);
    assert(log2_entries_fit_below(1608));
    assert(log2_lower_at(1608) == 15422406932490213696u64 && log2_upper_at(1608) == 15422406932490213701u64);
    assert(log2_entries_fit_below(1609));
    assert(log2_lower_at(1609) == 15429685211270895767u64 && log2_upper_at(1609) == 15429685211270895772u64);
    assert(log2_entries_fit_below(1610));
    assert(log2_lower_at(1610) == 15436961500091530987u64 && log2_upper_at(1610) == 15436961500091530992u64);
    assert(log2_entries_fit_below(1611));
    assert(log2_lower_at(1611) == 15444235800039975073u64 && log2_upper_at(1611) == 15444235800039975078u64);
    assert(log2_entries_fit_below(1612));
    assert(log2_lower_at(1612) == 15451508112203191946u64 && log2_upper_at(1612) == 15451508112203191951u64);
    assert(log2_entries_fit_below(1613));
    assert(log2_lower_at(1613) == 15458778437667254691u64 && log2_upper_at(1613) == 15458778437667254696u64);
    assert(log2_entries_fit_below(1614));
    assert(log2_lower_at(1614) == 15466046777517346533u64 && log2_upper_at(1614) == 15466046777517346539u64);
    assert(log2_entries_fit_below(1615));
    assert(log2_lower_at(1615) == 15473313132837761814u64 && log2_upper_at(1615) == 15473313132837761819u64);
    assert(log2_entries_fit_below(1616));
    assert(log2_lower_at(1616) == 15480577504711906952u64 && log2_upper_at(1616) == 15480577504711906957u64);
    assert(log2_entries_fit_below(1617));
    assert(log2_lower_at(1617) == 15487839894222301424u64 && log2_upper_at(1617) == 15487839894222301429u64);
    assert(log2_entries_fit_below(1618));
    assert(log2_lower_at(1618) == 15495100302450578724u64 && log2_upper_at(1618) == 15495100302450578729u64);
    assert(log2_entries_fit_below(1619));
    assert(log2_lower_at(1619) == 15502358730477487334u64 && log2_upper_at(1619) == 15502358730477487339u64);
    assert(log2_entries_fit_below(1620));
    assert(log2_lower_at(1620) == 15509615179382891686u64 && log2_upper_at(1620) == 15509615179382891691u64);
    assert(log2_entries_fit_below(1621));
    assert(log2_lower_at(1621) == 15516869650245773135u64 && log2_upper_at(1621) == 15516869650245773140u64);
    assert(log2_entries_fit_below(1622));
    assert(log2_lower_at(1622) == 15524122144144230903u64 && log2_upper_at(1622) == 15524122144144230908u64);
    assert(log2_entries_fit_below(1623));
    assert(log2_lower_at(1623) == 15531372662155483062u64 && log2_upper_at(1623) == 15531372662155483067u64);
    assert(log2_entries_fit_below(1624));
    assert(log2_lower_at(1624) == 15538621205355867480u64 && log2_upper_at(1624) == 15538621205355867485u64);
    assert(log2_entries_fit_below(1625));
    assert(log2_lower_at(1625) == 15545867774820842785u64 && log2_upper_at(1625) == 15545867774820842790u64);
    assert(log2_entries_fit_below(1626));
    assert(log2_lower_at(1626) == 15553112371624989321u64 && log2_upper_at(1626) == 15553112371624989327u64);
    assert(log2_entries_fit_below(1627));
    assert(log2_lower_at(1627) == 15560354996842010102u64 && log2_upper_at(1627) == 15560354996842010107u64);
    assert(log2_entries_fit_below(1628));
    assert(log2_lower_at(1628) == 15567595651544731768u64 && log2_upper_at(1628) == 15567595651544731773u64);
    assert(log2_entries_fit_below(1629));
    assert(log2_lower_at(1629) == 15574834336805105549u64 && log2_upper_at(1629) == 15574834336805105555u64);
    assert(log2_entries_fit_below(1630));
    assert(log2_lower_at(1630) == 15582071053694208193u64 && log2_upper_at(1630) == 15582071053694208198u64);
    assert(log2_entries_fit_below(1631));
    assert(log2_lower_at(1631) == 15589305803282242945u64 && log2_upper_at(1631) == 15589305803282242950u64);
    assert(log2_entries_fit_below(1632));
    assert(log2_lower_at(1632) == 15596538586638540473u64 && log2_upper_at(1632) == 15596538586638540478u64);
    assert(log2_entries_fit_below(1633));
    assert(log2_lower_at(1633) == 15603769404831559833u64 && log2_upper_at(1633) == 15603769404831559839u64);
    assert(log2_entries_fit_below(1634));
    assert(log2_lower_at(1634) == 15610998258928889409u64 && log2_upper_at(1634) == 15610998258928889414u64);
    assert(log2_entries_fit_below(1635));
    assert(log2_lower_at(1635) == 15618225149997247853u64 && log2_upper_at(1635) == 15618225149997247858u64);
    assert(log2_entries_fit_below(1636));
    assert(log2_lower_at(1636) == 15625450079102485042u64 && log2_upper_at(1636) == 15625450079102485047u64);
    assert(log2_entries_fit_below(1637));
    assert(log2_lower_at(1637) == 15632673047309583010u64 && log2_upper_at(1637) == 15632673047309583015u64);
    assert(log2_entries_fit_below(1638));
    assert(log2_lower_at(1638) == 15639894055682656905u64 && log2_upper_at(1638) == 15639894055682656910u64);
    assert(log2_entries_fit_below(1639));
    assert(log2_lower_at(1639) == 15647113105284955905u64 && log2_upper_at(1639) == 15647113105284955910u64);
    assert(log2_entries_fit_below(1640));
    assert(log2_lower_at(1640) == 15654330197178864179u64 && log2_upper_at(1640) == 15654330197178864184u64);
    assert(log2_entries_fit_below(1641));
    assert(log2_lower_at(1641) == 15661545332425901824u64 && log2_upper_at(1641) == 15661545332425901829u64);
    assert(log2_entries_fit_below(1642));
    assert(log2_lower_at(1642) == 15668758512086725780u64 && log2_upper_at(1642) == 15668758512086725785u64);
    assert(log2_entries_fit_below(1643));
    assert(log2_lower_at(1643) == 15675969737221130797u64 && log2_upper_at(1643) == 15675969737221130802u64);
    assert(log2_entries_fit_below(1644));
    assert(log2_lower_at(1644) == 15683179008888050342u64 && log2_upper_at(1644) == 15683179008888050347u64);
    assert(log2_entries_fit_below(1645));
    assert(log2_lower_at(1645) == 15690386328145557550u64 && log2_upper_at(1645) == 15690386328145557556u64);
    assert(log2_entries_fit_below(1646));
    assert(log2_lower_at(1646) == 15697591696050866146u64 && log2_upper_at(1646) == 15697591696050866151u64);
    assert(log2_entries_fit_below(1647));
    assert(log2_lower_at(1647) == 15704795113660331380u64 && log2_upper_at(1647) == 15704795113660331385u64);
    assert(log2_entries_fit_below(1648));
    assert(log2_lower_at(1648) == 15711996582029450953u64 && log2_upper_at(1648) == 15711996582029450959u64);
    assert(log2_entries_fit_below(1649));
    assert(log2_lower_at(1649) == 15719196102212865948u64 && log2_upper_at(1649) == 15719196102212865953u64);
    assert(log2_entries_fit_below(1650));
    assert(log2_lower_at(1650) == 15726393675264361757u64 && log2_upper_at(1650) == 15726393675264361762u64);
    assert(log2_entries_fit_below(1651));
    assert(log2_lower_at(1651) == 15733589302236869002u64 && log2_upper_at(1651) == 15733589302236869007u64);
    assert(log2_entries_fit_below(1652));
    assert(log2_lower_at(1652) == 15740782984182464464u64 && log2_upper_at(1652) == 15740782984182464469u64);
    assert(log2_entries_fit_below(1653));
    assert(log2_lower_at(1653) == 15747974722152372001u64 && log2_upper_at(1653) == 15747974722152372006u64);
    assert(log2_entries_fit_below(1654));
    assert(log2_lower_at(1654) == 15755164517196963474u64 && log2_upper_at(1654) == 15755164517196963479u64);
    assert(log2_entries_fit_below(1655));
    assert(log2_lower_at(1655) == 15762352370365759673u64 && log2_upper_at(1655) == 15762352370365759678u64);
    assert(log2_entries_fit_below(1656));
    assert(log2_lower_at(1656) == 15769538282707431218u64 && log2_upper_at(1656) == 15769538282707431223u64);
    assert(log2_entries_fit_below(1657));
    assert(log2_lower_at(1657) == 15776722255269799494u64 && log2_upper_at(1657) == 15776722255269799499u64);
    assert(log2_entries_fit_below(1658));
    assert(log2_lower_at(1658) == 15783904289099837564u64 && log2_upper_at(1658) == 15783904289099837569u64);
    assert(log2_entries_fit_below(1659));
    assert(log2_lower_at(1659) == 15791084385243671081u64 && log2_upper_at(1659) == 15791084385243671086u64);
    assert(log2_entries_fit_below(1660));
    assert(log2_lower_at(1660) == 15798262544746579202u64 && log2_upper_at(1660) == 15798262544746579207u64);
    assert(log2_entries_fit_below(1661));
    assert(log2_lower_at(1661) == 15805438768652995506u64 && log2_upper_at(1661) == 15805438768652995511u64);
    assert(log2_entries_fit_below(1662));
    assert(log2_lower_at(1662) == 15812613058006508897u64 && log2_upper_at(1662) == 15812613058006508902u64);
    assert(log2_entries_fit_below(1663));
    assert(log2_lower_at(1663) == 15819785413849864527u64 && log2_upper_at(1663) == 15819785413849864533u64);
    assert(log2_entries_fit_below(1664));
    assert(log2_lower_at(1664) == 15826955837224964695u64 && log2_upper_at(1664) == 15826955837224964700u64);
    assert(log2_entries_fit_below(1665));
    assert(log2_lower_at(1665) == 15834124329172869762u64 && log2_upper_at(1665) == 15834124329172869767u64);
    assert(log2_entries_fit_below(1666));
    assert(log2_lower_at(1666) == 15841290890733799046u64 && log2_upper_at(1666) == 15841290890733799051u64);
    assert(log2_entries_fit_below(1667));
    assert(log2_lower_at(1667) == 15848455522947131750u64 && log2_upper_at(1667) == 15848455522947131755u64);
    assert(log2_entries_fit_below(1668));
    assert(log2_lower_at(1668) == 15855618226851407842u64 && log2_upper_at(1668) == 15855618226851407847u64);
    assert(log2_entries_fit_below(1669));
    assert(log2_lower_at(1669) == 15862779003484328970u64 && log2_upper_at(1669) == 15862779003484328975u64);
    assert(log2_entries_fit_below(1670));
    assert(log2_lower_at(1670) == 15869937853882759369u64 && log2_upper_at(1670) == 15869937853882759374u64);
    assert(log2_entries_fit_below(1671));
    assert(log2_lower_at(1671) == 15877094779082726748u64 && log2_upper_at(1671) == 15877094779082726753u64);
    assert(log2_entries_fit_below(1672));
    assert(log2_lower_at(1672) == 15884249780119423207u64 && log2_upper_at(1672) == 15884249780119423212u64);
    assert(log2_entries_fit_below(1673));
    assert(log2_lower_at(1673) == 15891402858027206116u64 && log2_upper_at(1673) == 15891402858027206121u64);
    assert(log2_entries_fit_below(1674));
    assert(log2_lower_at(1674) == 15898554013839599028u64 && log2_upper_at(1674) == 15898554013839599033u64);
    assert(log2_entries_fit_below(1675));
    assert(log2_lower_at(1675) == 15905703248589292566u64 && log2_upper_at(1675) == 15905703248589292571u64);
    assert(log2_entries_fit_below(1676));
    assert(log2_lower_at(1676) == 15912850563308145322u64 && log2_upper_at(1676) == 15912850563308145327u64);
    assert(log2_entries_fit_below(1677));
    assert(log2_lower_at(1677) == 15919995959027184754u64 && log2_upper_at(1677) == 15919995959027184759u64);
    assert(log2_entries_fit_below(1678));
    assert(log2_lower_at(1678) == 15927139436776608063u64 && log2_upper_at(1678) == 15927139436776608068u64);
    assert(log2_entries_fit_below(1679));
    assert(log2_lower_at(1679) == 15934280997585783105u64 && log2_upper_at(1679) == 15934280997585783110u64);
    assert(log2_entries_fit_below(1680));
    assert(log2_lower_at(1680) == 15941420642483249270u64 && log2_upper_at(1680) == 15941420642483249275u64);
    assert(log2_entries_fit_below(1681));
    assert(log2_lower_at(1681) == 15948558372496718363u64 && log2_upper_at(1681) == 15948558372496718368u64);
    assert(log2_entries_fit_below(1682));
    assert(log2_lower_at(1682) == 15955694188653075506u64 && log2_upper_at(1682) == 15955694188653075512u64);
    assert(log2_entries_fit_below(1683));
    assert(log2_lower_at(1683) == 15962828091978380023u64 && log2_upper_at(1683) == 15962828091978380028u64);
    assert(log2_entries_fit_below(1684));
    assert(log2_lower_at(1684) == 15969960083497866316u64 && log2_upper_at(1684) == 15969960083497866321u64);
    assert(log2_entries_fit_below(1685));
    assert(log2_lower_at(1685) == 15977090164235944755u64 && log2_upper_at(1685) == 15977090164235944760u64);
    assert(log2_entries_fit_below(1686));
    assert(log2_lower_at(1686) == 15984218335216202555u64 && log2_upper_at(1686) == 15984218335216202560u64);
    assert(log2_entries_fit_below(1687));
    assert(log2_lower_at(1687) == 15991344597461404674u64 && log2_upper_at(1687) == 15991344597461404679u64);
    assert(log2_entries_fit_below(1688));
    assert(log2_lower_at(1688) == 15998468951993494668u64 && log2_upper_at(1688) == 15998468951993494673u64);
    assert(log2_entries_fit_below(1689));
    assert(log2_lower_at(1689) == 16005591399833595595u64 && log2_upper_at(1689) == 16005591399833595601u64);
    assert(log2_entries_fit_below(1690));
    assert(log2_lower_at(1690) == 16012711942002010880u64 && log2_upper_at(1690) == 16012711942002010885u64);
    assert(log2_entries_fit_below(1691));
    assert(log2_lower_at(1691) == 16019830579518225192u64 && log2_upper_at(1691) == 16019830579518225197u64);
    assert(log2_entries_fit_below(1692));
    assert(log2_lower_at(1692) == 16026947313400905324u64 && log2_upper_at(1692) == 16026947313400905329u64);
    assert(log2_entries_fit_below(1693));
    assert(log2_lower_at(1693) == 16034062144667901063u64 && log2_upper_at(1693) == 16034062144667901068u64);
    assert(log2_entries_fit_below(1694));
    assert(log2_lower_at(1694) == 16041175074336246072u64 && log2_upper_at(1694) == 16041175074336246077u64);
    assert(log2_entries_fit_below(1695));
    assert(log2_lower_at(1695) == 16048286103422158747u64 && log2_upper_at(1695) == 16048286103422158752u64);
    assert(log2_entries_fit_below(1696));
    assert(log2_lower_at(1696) == 16055395232941043109u64 && log2_upper_at(1696) == 16055395232941043114u64);
    assert(log2_entries_fit_below(1697));
    assert(log2_lower_at(1697) == 16062502463907489657u64 && log2_upper_at(1697) == 16062502463907489662u64);
    assert(log2_entries_fit_below(1698));
    assert(log2_lower_at(1698) == 16069607797335276241u64 && log2_upper_at(1698) == 16069607797335276246u64);
    assert(log2_entries_fit_below(1699));
    assert(log2_lower_at(1699) == 16076711234237368930u64 && log2_upper_at(1699) == 16076711234237368935u64);
    assert(log2_entries_fit_below(1700));
    assert(log2_lower_at(1700) == 16083812775625922890u64 && log2_upper_at(1700) == 16083812775625922895u64);
    assert(log2_entries_fit_below(1701));
    assert(log2_lower_at(1701) == 16090912422512283221u64 && log2_upper_at(1701) == 16090912422512283226u64);
    assert(log2_entries_fit_below(1702));
    assert(log2_lower_at(1702) == 16098010175906985858u64 && log2_upper_at(1702) == 16098010175906985864u64);
    assert(log2_entries_fit_below(1703));
    assert(log2_lower_at(1703) == 16105106036819758401u64 && log2_upper_at(1703) == 16105106036819758406u64);
    assert(log2_entries_fit_below(1704));
    assert(log2_lower_at(1704) == 16112200006259520997u64 && log2_upper_at(1704) == 16112200006259521002u64);
    assert(log2_entries_fit_below(1705));
    assert(log2_lower_at(1705) == 16119292085234387191u64 && log2_upper_at(1705) == 16119292085234387197u64);
    assert(log2_entries_fit_below(1706));
    assert(log2_lower_at(1706) == 16126382274751664800u64 && log2_upper_at(1706) == 16126382274751664805u64);
    assert(log2_entries_fit_below(1707));
    assert(log2_lower_at(1707) == 16133470575817856744u64 && log2_upper_at(1707) == 16133470575817856749u64);
    assert(log2_entries_fit_below(1708));
    assert(log2_lower_at(1708) == 16140556989438661930u64 && log2_upper_at(1708) == 16140556989438661935u64);
    assert(log2_entries_fit_below(1709));
    assert(log2_lower_at(1709) == 16147641516618976096u64 && log2_upper_at(1709) == 16147641516618976101u64);
    assert(log2_entries_fit_below(1710));
    assert(log2_lower_at(1710) == 16154724158362892671u64 && log2_upper_at(1710) == 16154724158362892676u64);
    assert(log2_entries_fit_below(1711));
    assert(log2_lower_at(1711) == 16161804915673703621u64 && log2_upper_at(1711) == 16161804915673703626u64);
    assert(log2_entries_fit_below(1712));
    assert(log2_lower_at(1712) == 16168883789553900308u64 && log2_upper_at(1712) == 16168883789553900313u64);
    assert(log2_entries_fit_below(1713));
    assert(log2_lower_at(1713) == 16175960781005174342u64 && log2_upper_at(1713) == 16175960781005174347u64);
    assert(log2_entries_fit_below(1714));
    assert(log2_lower_at(1714) == 16183035891028418429u64 && log2_upper_at(1714) == 16183035891028418434u64);
    assert(log2_entries_fit_below(1715));
    assert(log2_lower_at(1715) == 16190109120623727218u64 && log2_upper_at(1715) == 16190109120623727223u64);
    assert(log2_entries_fit_below(1716));
    assert(log2_lower_at(1716) == 16197180470790398158u64 && log2_upper_at(1716) == 16197180470790398164u64);
    assert(log2_entries_fit_below(1717));
    assert(log2_lower_at(1717) == 16204249942526932334u64 && log2_upper_at(1717) == 16204249942526932339u64);
    assert(log2_entries_fit_below(1718));
    assert(log2_lower_at(1718) == 16211317536831035323u64 && log2_upper_at(1718) == 16211317536831035328u64);
    assert(log2_entries_fit_below(1719));
    assert(log2_lower_at(1719) == 16218383254699618025u64 && log2_upper_at(1719) == 16218383254699618030u64);
    assert(log2_entries_fit_below(1720));
    assert(log2_lower_at(1720) == 16225447097128797529u64 && log2_upper_at(1720) == 16225447097128797534u64);
    assert(log2_entries_fit_below(1721));
    assert(log2_lower_at(1721) == 16232509065113897931u64 && log2_upper_at(1721) == 16232509065113897936u64);
    assert(log2_entries_fit_below(1722));
    assert(log2_lower_at(1722) == 16239569159649451193u64 && log2_upper_at(1722) == 16239569159649451198u64);
    assert(log2_entries_fit_below(1723));
    assert(log2_lower_at(1723) == 16246627381729197976u64 && log2_upper_at(1723) == 16246627381729197981u64);
    assert(log2_entries_fit_below(1724));
    assert(log2_lower_at(1724) == 16253683732346088481u64 && log2_upper_at(1724) == 16253683732346088486u64);
    assert(log2_entries_fit_below(1725));
    assert(log2_lower_at(1725) == 16260738212492283280u64 && log2_upper_at(1725) == 16260738212492283285u64);
    assert(log2_entries_fit_below(1726));
    assert(log2_lower_at(1726) == 16267790823159154168u64 && log2_upper_at(1726) == 16267790823159154174u64);
    assert(log2_entries_fit_below(1727));
    assert(log2_lower_at(1727) == 16274841565337284992u64 && log2_upper_at(1727) == 16274841565337284997u64);
    assert(log2_entries_fit_below(1728));
    assert(log2_lower_at(1728) == 16281890440016472474u64 && log2_upper_at(1728) == 16281890440016472479u64);
    assert(log2_entries_fit_below(1729));
    assert(log2_lower_at(1729) == 16288937448185727059u64 && log2_upper_at(1729) == 16288937448185727065u64);
    assert(log2_entries_fit_below(1730));
    assert(log2_lower_at(1730) == 16295982590833273754u64 && log2_upper_at(1730) == 16295982590833273759u64);
    assert(log2_entries_fit_below(1731));
    assert(log2_lower_at(1731) == 16303025868946552933u64 && log2_upper_at(1731) == 16303025868946552938u64);
    assert(log2_entries_fit_below(1732));
    assert(log2_lower_at(1732) == 16310067283512221193u64 && log2_upper_at(1732) == 16310067283512221198u64);
    assert(log2_entries_fit_below(1733));
    assert(log2_lower_at(1733) == 16317106835516152170u64 && log2_upper_at(1733) == 16317106835516152175u64);
    assert(log2_entries_fit_below(1734));
    assert(log2_lower_at(1734) == 16324144525943437377u64 && log2_upper_at(1734) == 16324144525943437382u64);
    assert(log2_entries_fit_below(1735));
    assert(log2_lower_at(1735) == 16331180355778387017u64 && log2_upper_at(1735) == 16331180355778387022u64);
    assert(log2_entries_fit_below(1736));
    assert(log2_lower_at(1736) == 16338214326004530823u64 && log2_upper_at(1736) == 16338214326004530828u64);
    assert(log2_entries_fit_below(1737));
    assert(log2_lower_at(1737) == 16345246437604618870u64 && log2_upper_at(1737) == 16345246437604618876u64);
    assert(log2_entries_fit_below(1738));
    assert(log2_lower_at(1738) == 16352276691560622417u64 && log2_upper_at(1738) == 16352276691560622422u64);
    assert(log2_entries_fit_below(1739));
    assert(log2_lower_at(1739) == 16359305088853734708u64 && log2_upper_at(1739) == 16359305088853734713u64);
    assert(log2_entries_fit_below(1740));
    assert(log2_lower_at(1740) == 16366331630464371809u64 && log2_upper_at(1740) == 16366331630464371815u64);
    assert(log2_entries_fit_below(1741));
    assert(log2_lower_at(1741) == 16373356317372173425u64 && log2_upper_at(1741) == 16373356317372173430u64);
    assert(log2_entries_fit_below(1742));
    assert(log2_lower_at(1742) == 16380379150556003712u64 && log2_upper_at(1742) == 16380379150556003717u64);
    assert(log2_entries_fit_below(1743));
    assert(log2_lower_at(1743) == 16387400130993952110u64 && log2_upper_at(1743) == 16387400130993952115u64);
    assert(log2_entries_fit_below(1744));
    assert(log2_lower_at(1744) == 16394419259663334148u64 && log2_upper_at(1744) == 16394419259663334153u64);
    assert(log2_entries_fit_below(1745));
    assert(log2_lower_at(1745) == 16401436537540692261u64 && log2_upper_at(1745) == 16401436537540692266u64);
    assert(log2_entries_fit_below(1746));
    assert(log2_lower_at(1746) == 16408451965601796614u64 && log2_upper_at(1746) == 16408451965601796619u64);
    assert(log2_entries_fit_below(1747));
    assert(log2_lower_at(1747) == 16415465544821645907u64 && log2_upper_at(1747) == 16415465544821645912u64);
    assert(log2_entries_fit_below(1748));
    assert(log2_lower_at(1748) == 16422477276174468195u64 && log2_upper_at(1748) == 16422477276174468200u64);
    assert(log2_entries_fit_below(1749));
    assert(log2_lower_at(1749) == 16429487160633721691u64 && log2_upper_at(1749) == 16429487160633721697u64);
    assert(log2_entries_fit_below(1750));
    assert(log2_lower_at(1750) == 16436495199172095590u64 && log2_upper_at(1750) == 16436495199172095595u64);
    assert(log2_entries_fit_below(1751));
    assert(log2_lower_at(1751) == 16443501392761510861u64 && log2_upper_at(1751) == 16443501392761510866u64);
    assert(log2_entries_fit_below(1752));
    assert(log2_lower_at(1752) == 16450505742373121078u64 && log2_upper_at(1752) == 16450505742373121083u64);
    assert(log2_entries_fit_below(1753));
    assert(log2_lower_at(1753) == 16457508248977313208u64 && log2_upper_at(1753) == 16457508248977313213u64);
    assert(log2_entries_fit_below(1754));
    assert(log2_lower_at(1754) == 16464508913543708424u64 && log2_upper_at(1754) == 16464508913543708429u64);
    assert(log2_entries_fit_below(1755));
    assert(log2_lower_at(1755) == 16471507737041162915u64 && log2_upper_at(1755) == 16471507737041162920u64);
    assert(log2_entries_fit_below(1756));
    assert(log2_lower_at(1756) == 16478504720437768689u64 && log2_upper_at(1756) == 16478504720437768695u64);
    assert(log2_entries_fit_below(1757));
    assert(log2_lower_at(1757) == 16485499864700854376u64 && log2_upper_at(1757) == 16485499864700854381u64);
    assert(log2_entries_fit_below(1758));
    assert(log2_lower_at(1758) == 16492493170796986019u64 && log2_upper_at(1758) == 16492493170796986024u64);
    assert(log2_entries_fit_below(1759));
    assert(log2_lower_at(1759) == 16499484639691967898u64 && log2_upper_at(1759) == 16499484639691967903u64);
    assert(log2_entries_fit_below(1760));
    assert(log2_lower_at(1760) == 16506474272350843310u64 && log2_upper_at(1760) == 16506474272350843315u64);
    assert(log2_entries_fit_below(1761));
    assert(log2_lower_at(1761) == 16513462069737895379u64 && log2_upper_at(1761) == 16513462069737895384u64);
    assert(log2_entries_fit_below(1762));
    assert(log2_lower_at(1762) == 16520448032816647852u64 && log2_upper_at(1762) == 16520448032816647857u64);
    assert(log2_entries_fit_below(1763));
    assert(log2_lower_at(1763) == 16527432162549865893u64 && log2_upper_at(1763) == 16527432162549865898u64);
    assert(log2_entries_fit_below(1764));
    assert(log2_lower_at(1764) == 16534414459899556882u64 && log2_upper_at(1764) == 16534414459899556887u64);
    assert(log2_entries_fit_below(1765));
    assert(log2_lower_at(1765) == 16541394925826971211u64 && log2_upper_at(1765) == 16541394925826971216u64);
    assert(log2_entries_fit_below(1766));
    assert(log2_lower_at(1766) == 16548373561292603079u64 && log2_upper_at(1766) == 16548373561292603084u64);
    assert(log2_entries_fit_below(1767));
    assert(log2_lower_at(1767) == 16555350367256191277u64 && log2_upper_at(1767) == 16555350367256191282u64);
    assert(log2_entries_fit_below(1768));
    assert(log2_lower_at(1768) == 16562325344676719988u64 && log2_upper_at(1768) == 16562325344676719993u64);
    assert(log2_entries_fit_below(1769));
    assert(log2_lower_at(1769) == 16569298494512419574u64 && log2_upper_at(1769) == 16569298494512419579u64);
    assert(log2_entries_fit_below(1770));
    assert(log2_lower_at(1770) == 16576269817720767371u64 && log2_upper_at(1770) == 16576269817720767377u64);
    assert(log2_entries_fit_below(1771));
    assert(log2_lower_at(1771) == 16583239315258488472u64 && log2_upper_at(1771) == 16583239315258488477u64);
    assert(log2_entries_fit_below(1772));
    assert(log2_lower_at(1772) == 16590206988081556514u64 && log2_upper_at(1772) == 16590206988081556519u64);
    assert(log2_entries_fit_below(1773));
    assert(log2_lower_at(1773) == 16597172837145194473u64 && log2_upper_at(1773) == 16597172837145194478u64);
    assert(log2_entries_fit_below(1774));
    assert(log2_lower_at(1774) == 16604136863403875436u64 && log2_upper_at(1774) == 16604136863403875441u64);
    assert(log2_entries_fit_below(1775));
    assert(log2_lower_at(1775) == 16611099067811323407u64 && log2_upper_at(1775) == 16611099067811323412u64);
    assert(log2_entries_fit_below(1776));
    assert(log2_lower_at(1776) == 16618059451320514064u64 && log2_upper_at(1776) == 16618059451320514069u64);
    assert(log2_entries_fit_below(1777));
    assert(log2_lower_at(1777) == 16625018014883675563u64 && log2_upper_at(1777) == 16625018014883675568u64);
    assert(log2_entries_fit_below(1778));
    assert(log2_lower_at(1778) == 16631974759452289313u64 && log2_upper_at(1778) == 16631974759452289319u64);
    assert(log2_entries_fit_below(1779));
    assert(log2_lower_at(1779) == 16638929685977090750u64 && log2_upper_at(1779) == 16638929685977090755u64);
    assert(log2_entries_fit_below(1780));
    assert(log2_lower_at(1780) == 16645882795408070128u64 && log2_upper_at(1780) == 16645882795408070133u64);
    assert(log2_entries_fit_below(1781));
    assert(log2_lower_at(1781) == 16652834088694473287u64 && log2_upper_at(1781) == 16652834088694473292u64);
    assert(log2_entries_fit_below(1782));
    assert(log2_lower_at(1782) == 16659783566784802438u64 && log2_upper_at(1782) == 16659783566784802443u64);
    assert(log2_entries_fit_below(1783));
    assert(log2_lower_at(1783) == 16666731230626816935u64 && log2_upper_at(1783) == 16666731230626816940u64);
    assert(log2_entries_fit_below(1784));
    assert(log2_lower_at(1784) == 16673677081167534056u64 && log2_upper_at(1784) == 16673677081167534061u64);
    assert(log2_entries_fit_below(1785));
    assert(log2_lower_at(1785) == 16680621119353229770u64 && log2_upper_at(1785) == 16680621119353229775u64);
    assert(log2_entries_fit_below(1786));
    assert(log2_lower_at(1786) == 16687563346129439513u64 && log2_upper_at(1786) == 16687563346129439519u64);
    assert(log2_entries_fit_below(1787));
    assert(log2_lower_at(1787) == 16694503762440958972u64 && log2_upper_at(1787) == 16694503762440958977u64);
    assert(log2_entries_fit_below(1788));
    assert(log2_lower_at(1788) == 16701442369231844830u64 && log2_upper_at(1788) == 16701442369231844835u64);
    assert(log2_entries_fit_below(1789));
    assert(log2_lower_at(1789) == 16708379167445415570u64 && log2_upper_at(1789) == 16708379167445415575u64);
    assert(log2_entries_fit_below(1790));
    assert(log2_lower_at(1790) == 16715314158024252213u64 && log2_upper_at(1790) == 16715314158024252218u64);
    assert(log2_entries_fit_below(1791));
    assert(log2_lower_at(1791) == 16722247341910199108u64 && log2_upper_at(1791) == 16722247341910199113u64);
    assert(log2_entries_fit_below(1792));
}

/// Entries 1792 to 2047 fit.
proof fn lemma_log2_page_7()
    requires
        log2_entries_fit_below(1792),
    ensures
        log2_entries_fit_below(2048),
{
    reveal(log2_lower_at);
    reveal(log2_upper_at);
    assert(log2_lower_at(1792) == 16729178720044364694u64 && log2_upper_at(1792) == 16729178720044364699u64);
    assert(log2_entries_fit_below(1793));
    assert(log2_lower_at(1793) == 16736108293367122261u64 && log2_upper_at(1793) == 16736108293367122267u64);
    assert(log2_entries_fit_below(1794));
    assert(log2_lower_at(1794) == 16743036062818110717u64 && log2_upper_at(1794) == 16743036062818110722u64);
    assert(log2_entries_fit_below(1795));
    assert(log2_lower_at(1795) == 16749962029336235363u64 && log2_upper_at(1795) == 16749962029336235368u64);
    assert(log2_entries_fit_below(1796));
    assert(log2_lower_at(1796) == 16756886193859668638u64 && log2_upper_at(1796) == 16756886193859668643u64);
    assert(log2_entries_fit_below(1797));
    assert(log2_lower_at(1797) == 16763808557325850901u64 && log2_upper_at(1797) == 16763808557325850906u64);
    assert(log2_entries_fit_below(1798));
    assert(log2_lower_at(1798) == 16770729120671491178u64 && log2_upper_at(1798) == 16770729120671491183u64);
    assert(log2_entries_fit_below(1799));
    assert(log2_lower_at(1799) == 16777647884832567924u64 && log2_upper_at(1799) == 16777647884832567932u64);
    assert(log2_entries_fit_below(1800));
    assert(log2_lower_at(1800) == 16784564850744329798u64 && log2_upper_at(1800) == 16784564850744329803u64);
    assert(log2_entries_fit_below(1801));
    assert(log2_lower_at(1801) == 16791480019341296398u64 && log2_upper_at(1801) == 16791480019341296403u64);
    assert(log2_entries_fit_below(1802));
    assert(log2_lower_at(1802) == 16798393391557259036u64 && log2_upper_at(1802) == 16798393391557259042u64);
    assert(log2_entries_fit_below(1803));
    assert(log2_lower_at(1803) == 16805304968325281486u64 && log2_upper_at(1803) == 16805304968325281491u64);
    assert(log2_entries_fit_below(1804));
    assert(log2_lower_at(1804) == 16812214750577700748u64 && log2_upper_at(1804) == 16812214750577700753u64);
    assert(log2_entries_fit_below(1805));
    assert(log2_lower_at(1805) == 16819122739246127789u64 && log2_upper_at(1805) == 16819122739246127794u64);
    assert(log2_entries_fit_below(1806));
    assert(log2_lower_at(1806) == 16826028935261448313u64 && log2_upper_at(1806) == 16826028935261448318u64);
    assert(log2_entries_fit_below(1807));
    assert(log2_lower_at(1807) == 16832933339553823498u64 && log2_upper_at(1807) == 16832933339553823503u64);
    assert(log2_entries_fit_below(1808));
    assert(log2_lower_at(1808) == 16839835953052690760u64 && log2_upper_at(1808) == 16839835953052690765u64);
    assert(log2_entries_fit_below(1809));
    assert(log2_lower_at(1809) == 16846736776686764499u64 && log2_upper_at(1809) == 16846736776686764504u64);
    assert(log2_entries_fit_below(1810));
    assert(log2_lower_at(1810) == 16853635811384036842u64 && log2_upper_at(1810) == 16853635811384036847u64);
    assert(log2_entries_fit_below(1811));
    assert(log2_lower_at(1811) == 16860533058071778405u64 && log2_upper_at(1811) == 16860533058071778410u64);
    assert(log2_entries_fit_below(1812));
    assert(log2_lower_at(1812) == 16867428517676539033u64 && log2_upper_at(1812) == 16867428517676539038u64);
    assert(log2_entries_fit_below(1813));
    assert(log2_lower_at(1813) == 16874322191124148543u64 && log2_upper_at(1813) == 16874322191124148548u64);
    assert(log2_entries_fit_below(1814));
    assert(log2_lower_at(1814) == 16881214079339717481u64 && log2_upper_at(1814) == 16881214079339717486u64);
    assert(log2_entries_fit_below(1815));
    assert(log2_lower_at(1815) == 16888104183247637858u64 && log2_upper_at(1815) == 16888104183247637863u64);
    assert(log2_entries_fit_below(1816));
    assert(log2_lower_at(1816) == 16894992503771583891u64 && log2_upper_at(1816) == 16894992503771583899u64);
    assert(log2_entries_fit_below(1817));
    assert(log2_lower_at(1817) == 16901879041834512764u64 && log2_upper_at(1817) == 16901879041834512769u64);
    assert(log2_entries_fit_below(1818));
    assert(log2_lower_at(1818) == 16908763798358665344u64 && log2_upper_at(1818) == 16908763798358665350u64);
    assert(log2_entries_fit_below(1819));
    assert(log2_lower_at(1819) == 16915646774265566946u64 && log2_upper_at(1819) == 16915646774265566952u64);
    assert(log2_entries_fit_below(1820));
    assert(log2_lower_at(1820) == 16922527970476028053u64 && log2_upper_at(1820) == 16922527970476028058u64);
    assert(log2_entries_fit_below(1821));
    assert(log2_lower_at(1821) == 16929407387910145073u64 && log2_upper_at(1821) == 16929407387910145078u64);
    assert(log2_entries_fit_below(1822));
    assert(log2_lower_at(1822) == 16936285027487301062u64 && log2_upper_at(1822) == 16936285027487301067u64);
    assert(log2_entries_fit_below(1823));
    assert(log2_lower_at(1823) == 16943160890126166474u64 && log2_upper_at(1823) == 16943160890126166479u64);
    assert(log2_entries_fit_below(1824));
    assert(log2_lower_at(1824) == 16950034976744699888u64 && log2_upper_at(1824) == 16950034976744699893u64);
    assert(log2_entries_fit_below(1825));
    assert(log2_lower_at(1825) == 16956907288260148745u64 && log2_upper_at(1825) == 16956907288260148750u64);
    assert(log2_entries_fit_below(1826));
    assert(log2_lower_at(1826) == 16963777825589050088u64 && log2_upper_at(1826) == 16963777825589050093u64);
    assert(log2_entries_fit_below(1827));
    assert(log2_lower_at(1827) == 16970646589647231290u64 && log2_upper_at(1827) == 16970646589647231295u64);
    assert(log2_entries_fit_below(1828));
    assert(log2_lower_at(1828) == 16977513581349810786u64 && log2_upper_at(1828) == 16977513581349810791u64);
    assert(log2_entries_fit_below(1829));
    assert(log2_lower_at(1829) == 16984378801611198804u64 && log2_upper_at(1829) == 16984378801611198810u64);
    assert(log2_entries_fit_below(1830));
    assert(log2_lower_at(1830) == 16991242251345098109u64 && log2_upper_at(1830) == 16991242251345098114u64);
    assert(log2_entries_fit_below(1831));
    assert(log2_lower_at(1831) == 16998103931464504710u64 && log2_upper_at(1831) == 16998103931464504715u64);
    assert(log2_entries_fit_below(1832));
    assert(log2_lower_at(1832) == 17004963842881708601u64 && log2_upper_at(1832) == 17004963842881708606u64);
    assert(log2_entries_fit_below(1833));
    assert(log2_lower_at(1833) == 17011821986508294497u64 && log2_upper_at(1833) == 17011821986508294502u64);
    assert(log2_entries_fit_below(1834));
    assert(log2_lower_at(1834) == 17018678363255142541u64 && log2_upper_at(1834) == 17018678363255142546u64);
    assert(log2_entries_fit_below(1835));
    assert(log2_lower_at(1835) == 17025532974032429052u64 && log2_upper_at(1835) == 17025532974032429057u64);
    assert(log2_entries_fit_below(1836));
    assert(log2_lower_at(1836) == 17032385819749627225u64 && log2_upper_at(1836) == 17032385819749627230u64);
    assert(log2_entries_fit_below(1837));
    assert(log2_lower_at(1837) == 17039236901315507881u64 && log2_upper_at(1837) == 17039236901315507886u64);
    assert(log2_entries_fit_below(1838));
    assert(log2_lower_at(1838) == 17046086219638140172u64 && log2_upper_at(1838) == 17046086219638140177u64);
    assert(log2_entries_fit_below(1839));
    assert(log2_lower_at(1839) == 17052933775624892309u64 && log2_upper_at(1839) == 17052933775624892314u64);
    assert(log2_entries_fit_below(1840));
    assert(log2_lower_at(1840) == 17059779570182432284u64 && log2_upper_at(1840) == 17059779570182432289u64);
    assert(log2_entries_fit_below(1841));
    assert(log2_lower_at(1841) == 17066623604216728589u64 && log2_upper_at(1841) == 17066623604216728594u64);
    assert(log2_entries_fit_below(1842));
    assert(log2_lower_at(1842) == 17073465878633050938u64 && log2_upper_at(1842) == 17073465878633050944u64);
    assert(log2_entries_fit_below(1843));
    assert(log2_lower_at(1843) == 17080306394335970978u64 && log2_upper_at(1843) == 17080306394335970986u64);
    assert(log2_entries_fit_below(1844));
    assert(log2_lower_at(1844) == 17087145152229363022u64 && log2_upper_at(1844) == 17087145152229363027u64);
    assert(log2_entries_fit_below(1845));
    assert(log2_lower_at(1845) == 17093982153216404740u64 && log2_upper_at(1845) == 17093982153216404745u64);
    assert(log2_entries_fit_below(1846));
    assert(log2_lower_at(1846) == 17100817398199577904u64 && log2_upper_at(1846) == 17100817398199577910u64);
    assert(log2_entries_fit_below(1847));
    assert(log2_lower_at(1847) == 17107650888080669083u64 && log2_upper_at(1847) == 17107650888080669088u64);
    assert(log2_entries_fit_below(1848));
    assert(log2_lower_at(1848) == 17114482623760770364u64 && log2_upper_at(1848) == 17114482623760770370u64);
    assert(log2_entries_fit_below(1849));
    assert(log2_lower_at(1849) == 17121312606140280060u64 && log2_upper_at(1849) == 17121312606140280065u64);
    assert(log2_entries_fit_below(1850));
    assert(log2_lower_at(1850) == 17128140836118903429u64 && log2_upper_at(1850) == 17128140836118903435u64);
    assert(log2_entries_fit_below(1851));
    assert(log2_lower_at(1851) == 17134967314595653382u64 && log2_upper_at(1851) == 17134967314595653387u64);
    assert(log2_entries_fit_below(1852));
    assert(log2_lower_at(1852) == 17141792042468851192u64 && log2_upper_at(1852) == 17141792042468851198u64);
    assert(log2_entries_fit_below(1853));
    assert(log2_lower_at(1853) == 17148615020636127206u64 && log2_upper_at(1853) == 17148615020636127211u64);
    assert(log2_entries_fit_below(1854));
    assert(log2_lower_at(1854) == 17155436249994421548u64 && log2_upper_at(1854) == 17155436249994421553u64);
    assert(log2_entries_fit_below(1855));
    assert(log2_lower_at(1855) == 17162255731439984831u64 && log2_upper_at(1855) == 17162255731439984837u64);
    assert(log2_entries_fit_below(1856));
    assert(log2_lower_at(1856) == 17169073465868378864u64 && log2_upper_at(1856) == 17169073465868378869u64);
    assert(log2_entries_fit_below(1857));
    assert(log2_lower_at(1857) == 17175889454174477357u64 && log2_upper_at(1857) == 17175889454174477362u64);
    assert(log2_entries_fit_below(1858));
    assert(log2_lower_at(1858) == 17182703697252466624u64 && log2_upper_at(1858) == 17182703697252466629u64);
    assert(log2_entries_fit_below(1859));
    assert(log2_lower_at(1859) == 17189516195995846287u64 && log2_upper_at(1859) == 17189516195995846293u64);
    assert(log2_entries_fit_below(1860));
    assert(log2_lower_at(1860) == 17196326951297429979u64 && log2_upper_at(1860) == 17196326951297429984u64);
    assert(log2_entries_fit_below(1861));
    assert(log2_lower_at(1861) == 17203135964049346052u64 && log2_upper_at(1861) == 17203135964049346057u64);
    assert(log2_entries_fit_below(1862));
    assert(log2_lower_at(1862) == 17209943235143038264u64 && log2_upper_at(1862) == 17209943235143038269u64);
    assert(log2_entries_fit_below(1863));
    assert(log2_lower_at(1863) == 17216748765469266496u64 && log2_upper_at(1863) == 17216748765469266501u64);
    assert(log2_entries_fit_below(1864));
    assert(log2_lower_at(1864) == 17223552555918107441u64 && log2_upper_at(1864) == 17223552555918107446u64);
    assert(log2_entries_fit_below(1865));
    assert(log2_lower_at(1865) == 17230354607378955305u64 && log2_upper_at(1865) == 17230354607378955310u64);
    assert(log2_entries_fit_below(1866));
    assert(log2_lower_at(1866) == 17237154920740522507u64 && log2_upper_at(1866) == 17237154920740522512u64);
    assert(log2_entries_fit_below(1867));
    assert(log2_lower_at(1867) == 17243953496890840368u64 && log2_upper_at(1867) == 17243953496890840373u64);
    assert(log2_entries_fit_below(1868));
    assert(log2_lower_at(1868) == 17250750336717259815u64 && log2_upper_at(1868) == 17250750336717259820u64);
    assert(log2_entries_fit_below(1869));
    assert(log2_lower_at(1869) == 17257545441106452074u64 && log2_upper_at(1869) == 17257545441106452080u64);
    assert(log2_entries_fit_below(1870));
    assert(log2_lower_at(1870) == 17264338810944409364u64 && log2_upper_at(1870) == 17264338810944409369u64);
    assert(log2_entries_fit_below(1871));
    assert(log2_lower_at(1871) == 17271130447116445588u64 && log2_upper_at(1871) == 17271130447116445593u64);
    assert(log2_entries_fit_below(1872));
    assert(log2_lower_at(1872) == 17277920350507197020u64 && log2_upper_at(1872) == 17277920350507197025u64);
    assert(log2_entries_fit_below(1873));
    assert(log2_lower_at(1873) == 17284708522000623016u64 && log2_upper_at(1873) == 17284708522000623021u64);
    assert(log2_entries_fit_below(1874));
    assert(log2_lower_at(1874) == 17291494962480006676u64 && log2_upper_at(1874) == 17291494962480006681u64);
    assert(log2_entries_fit_below(1875));
    assert(log2_lower_at(1875) == 17298279672827955562u64 && log2_upper_at(1875) == 17298279672827955568u64);
    assert(log2_entries_fit_below(1876));
    assert(log2_lower_at(1876) == 17305062653926402368u64 && log2_upper_at(1876) == 17305062653926402373u64);
    assert(log2_entries_fit_below(1877));
    assert(log2_lower_at(1877) == 17311843906656605612u64 && log2_upper_at(1877) == 17311843906656605617u64);
    assert(log2_entries_fit_below(1878));
    assert(log2_lower_at(1878) == 17318623431899150326u64 && log2_upper_at(1878) == 17318623431899150331u64);
    assert(log2_entries_fit_below(1879));
    assert(log2_lower_at(1879) == 17325401230533948741u64 && log2_upper_at(1879) == 17325401230533948746u64);
    assert(log2_entries_fit_below(1880));
    assert(log2_lower_at(1880) == 17332177303440240972u64 && log2_upper_at(1880) == 17332177303440240977u64);
    assert(log2_entries_fit_below(1881));
    assert(log2_lower_at(1881) == 17338951651496595701u64 && log2_upper_at(1881) == 17338951651496595706u64);
    assert(log2_entries_fit_below(1882));
    assert(log2_lower_at(1882) == 17345724275580910860u64 && log2_upper_at(1882) == 17345724275580910865u64);
    assert(log2_entries_fit_below(1883));
    assert(log2_lower_at(1883) == 17352495176570414318u64 && log2_upper_at(1883) == 17352495176570414326u64);
    assert(log2_entries_fit_below(1884));
    assert(log2_lower_at(1884) == 17359264355341664563u64 && log2_upper_at(1884) == 17359264355341664568u64);
    assert(log2_entries_fit_below(1885));
    assert(log2_lower_at(1885) == 17366031812770551369u64 && log2_upper_at(1885) == 17366031812770551374u64);
    assert(log2_entries_fit_below(1886));
    assert(log2_lower_at(1886) == 17372797549732296494u64 && log2_upper_at(1886) == 17372797549732296499u64);
    assert(log2_entries_fit_below(1887));
    assert(log2_lower_at(1887) == 17379561567101454355u64 && log2_upper_at(1887) == 17379561567101454363u64);
    assert(log2_entries_fit_below(1888));
    assert(log2_lower_at(1888) == 17386323865751912698u64 && log2_upper_at(1888) == 17386323865751912703u64);
    assert(log2_entries_fit_below(1889));
    assert(log2_lower_at(1889) == 17393084446556893283u64 && log2_upper_at(1889) == 17393084446556893288u64);
    assert(log2_entries_fit_below(1890));
    assert(log2_lower_at(1890) == 17399843310388952555u64 && log2_upper_at(1890) == 17399843310388952560u64);
    assert(log2_entries_fit_below(1891));
    assert(log2_lower_at(1891) == 17406600458119982324u64 && log2_upper_at(1891) == 17406600458119982332u64);
    assert(log2_entries_fit_below(1892));
    assert(log2_lower_at(1892) == 17413355890621210446u64 && log2_upper_at(1892) == 17413355890621210451u64);
    assert(log2_entries_fit_below(1893));
    assert(log2_lower_at(1893) == 17420109608763201478u64 && log2_upper_at(1893) == 17420109608763201483u64);
    assert(log2_entries_fit_below(1894));
    assert(log2_lower_at(1894) == 17426861613415857366u64 && log2_upper_at(1894) == 17426861613415857374u64);
    assert(log2_entries_fit_below(1895));
    assert(log2_lower_at(1895) == 17433611905448418124u64 && log2_upper_at(1895) == 17433611905448418129u64);
    assert(log2_entries_fit_below(1896));
    assert(log2_lower_at(1896) == 17440360485729462485u64 && log2_upper_at(1896) == 17440360485729462490u64);
    assert(log2_entries_fit_below(1897));
    assert(log2_lower_at(1897) == 17447107355126908583u64 && log2_upper_at(1897) == 17447107355126908588u64);
    assert(log2_entries_fit_below(1898));
    assert(log2_lower_at(1898) == 17453852514508014624u64 && log2_upper_at(1898) == 17453852514508014629u64);
    assert(log2_entries_fit_below(1899));
    assert(log2_lower_at(1899) == 17460595964739379554u64 && log2_upper_at(1899) == 17460595964739379559u64);
    assert(log2_entries_fit_below(1900));
    assert(log2_lower_at(1900) == 17467337706686943725u64 && log2_upper_at(1900) == 17467337706686943731u64);
    assert(log2_entries_fit_below(1901));
    assert(log2_lower_at(1901) == 17474077741215989561u64 && log2_upper_at(1901) == 17474077741215989567u64);
    assert(log2_entries_fit_below(1902));
    assert(log2_lower_at(1902) == 17480816069191142231u64 && log2_upper_at(1902) == 17480816069191142236u64);
    assert(log2_entries_fit_below(1903));
    assert(log2_lower_at(1903) == 17487552691476370300u64 && log2_upper_at(1903) == 17487552691476370305u64);
    assert(log2_entries_fit_below(1904));
    assert(log2_lower_at(1904) == 17494287608934986415u64 && log2_upper_at(1904) == 17494287608934986420u64);
    assert(log2_entries_fit_below(1905));
    assert(log2_lower_at(1905) == 17501020822429647948u64 && log2_upper_at(1905) == 17501020822429647953u64);
    assert(log2_entries_fit_below(1906));
    assert(log2_lower_at(1906) == 17507752332822357676u64 && log2_upper_at(1906) == 17507752332822357681u64);
    assert(log2_entries_fit_below(1907));
    assert(log2_lower_at(1907) == 17514482140974464429u64 && log2_upper_at(1907) == 17514482140974464435u64);
    assert(log2_entries_fit_below(1908));
    assert(log2_lower_at(1908) == 17521210247746663763u64 && log2_upper_at(1908) == 17521210247746663768u64);
    assert(log2_entries_fit_below(1909));
    assert(log2_lower_at(1909) == 17527936653998998608u64 && log2_upper_at(1909) == 17527936653998998613u64);
    assert(log2_entries_fit_below(1910));
    assert(log2_lower_at(1910) == 17534661360590859941u64 && log2_upper_at(1910) == 17534661360590859946u64);
    assert(log2_entries_fit_below(1911));
    assert(log2_lower_at(1911) == 17541384368380987436u64 && log2_upper_at(1911) == 17541384368380987442u64);
    assert(log2_entries_fit_below(1912));
    assert(log2_lower_at(1912) == 17548105678227470127u64 && log2_upper_at(1912) == 17548105678227470133u64);
    assert(log2_entries_fit_below(1913));
    assert(log2_lower_at(1913) == 17554825290987747058u64 && log2_upper_at(1913) == 17554825290987747063u64);
    assert(log2_entries_fit_below(1914));
    assert(log2_lower_at(1914) == 17561543207518607947u64 && log2_upper_at(1914) == 17561543207518607952u64);
    assert(log2_entries_fit_below(1915));
    assert(log2_lower_at(1915) == 17568259428676193840u64 && log2_upper_at(1915) == 17568259428676193845u64);
    assert(log2_entries_fit_below(1916));
    assert(log2_lower_at(1916) == 17574973955315997756u64 && log2_upper_at(1916) == 17574973955315997764u64);
    assert(log2_entries_fit_below(1917));
    assert(log2_lower_at(1917) == 17581686788292865363u64 && log2_upper_at(1917) == 17581686788292865368u64);
    assert(log2_entries_fit_below(1918));
    assert(log2_lower_at(1918) == 17588397928460995604u64 && log2_upper_at(1918) == 17588397928460995609u64);
    assert(log2_entries_fit_below(1919));
    assert(log2_lower_at(1919) == 17595107376673941365u64 && log2_upper_at(1919) == 17595107376673941370u64);
    assert(log2_entries_fit_below(1920));
    assert(log2_lower_at(1920) == 17601815133784610125u64 && log2_upper_at(1920) == 17601815133784610130u64);
    assert(log2_entries_fit_below(1921));
    assert(log2_lower_at(1921) == 17608521200645264610u64 && log2_upper_at(1921) == 17608521200645264615u64);
    assert(log2_entries_fit_below(1922));
    assert(log2_lower_at(1922) == 17615225578107523427u64 && log2_upper_at(1922) == 17615225578107523432u64);
    assert(log2_entries_fit_below(1923));
    assert(log2_lower_at(1923) == 17621928267022361731u64 && log2_upper_at(1923) == 17621928267022361739u64);
    assert(log2_entries_fit_below(1924));
    assert(log2_lower_at(1924) == 17628629268240111866u64 && log2_upper_at(1924) == 17628629268240111871u64);
    assert(log2_entries_fit_below(1925));
    assert(log2_lower_at(1925) == 17635328582610464007u64 && log2_upper_at(1925) == 17635328582610464012u64);
    assert(log2_entries_fit_below(1926));
    assert(log2_lower_at(1926) == 17642026210982466811u64 && log2_upper_at(1926) == 17642026210982466816u64);
    assert(log2_entries_fit_below(1927));
    assert(log2_lower_at(1927) == 17648722154204528071u64 && log2_upper_at(1927) == 17648722154204528076u64);
    assert(log2_entries_fit_below(1928));
    assert(log2_lower_at(1928) == 17655416413124415344u64 && log2_upper_at(1928) == 17655416413124415349u64);
    assert(log2_entries_fit_below(1929));
    assert(log2_lower_at(1929) == 17662108988589256605u64 && log2_upper_at(1929) == 17662108988589256614u64);
    assert(log2_entries_fit_below(1930));
    assert(log2_lower_at(1930) == 17668799881445540900u64 && log2_upper_at(1930) == 17668799881445540905u64);
    assert(log2_entries_fit_below(1931));
    assert(log2_lower_at(1931) == 17675489092539118959u64 && log2_upper_at(1931) == 17675489092539118964u64);
    assert(log2_entries_fit_below(1932));
    assert(log2_lower_at(1932) == 17682176622715203869u64 && log2_upper_at(1932) == 17682176622715203874u64);
    assert(log2_entries_fit_below(1933));
    assert(log2_lower_at(1933) == 17688862472818371698u64 && log2_upper_at(1933) == 17688862472818371706u64);
    assert(log2_entries_fit_below(1934));
    assert(log2_lower_at(1934) == 17695546643692562140u64 && log2_upper_at(1934) == 17695546643692562148u64);
    assert(log2_entries_fit_below(1935));
    assert(log2_lower_at(1935) == 17702229136181079153u64 && log2_upper_at(1935) == 17702229136181079158u64);
    assert(log2_entries_fit_below(1936));
    assert(log2_lower_at(1936) == 17708909951126591592u64 && log2_upper_at(1936) == 17708909951126591597u64);
    assert(log2_entries_fit_below(1937));
    assert(log2_lower_at(1937) == 17715589089371133858u64 && log2_upper_at(1937) == 17715589089371133863u64);
    assert(log2_entries_fit_below(1938));
    assert(log2_lower_at(1938) == 17722266551756106524u64 && log2_upper_at(1938) == 17722266551756106529u64);
    assert(log2_entries_fit_below(1939));
    assert(log2_lower_at(1939) == 17728942339122276982u64 && log2_upper_at(1939) == 17728942339122276987u64);
    assert(log2_entries_fit_below(1940));
    assert(log2_lower_at(1940) == 17735616452309780066u64 && log2_upper_at(1940) == 17735616452309780071u64);
    assert(log2_entries_fit_below(1941));
    assert(log2_lower_at(1941) == 17742288892158118692u64 && log2_upper_at(1941) == 17742288892158118697u64);
    assert(log2_entries_fit_below(1942));
    assert(log2_lower_at(1942) == 17748959659506164495u64 && log2_upper_at(1942) == 17748959659506164501u64);
    assert(log2_entries_fit_below(1943));
    assert(log2_lower_at(1943) == 17755628755192158459u64 && log2_upper_at(1943) == 17755628755192158464u64);
    assert(log2_entries_fit_below(1944));
    assert(log2_lower_at(1944) == 17762296180053711543u64 && log2_upper_at(1944) == 17762296180053711548u64);
    assert(log2_entries_fit_below(1945));
    assert(log2_lower_at(1945) == 17768961934927805319u64 && log2_upper_at(1945) == 17768961934927805324u64);
    assert(log2_entries_fit_below(1946));
    assert(log2_lower_at(1946) == 17775626020650792608u64 && log2_upper_at(1946) == 17775626020650792616u64);
    assert(log2_entries_fit_below(1947));
    assert(log2_lower_at(1947) == 17782288438058398096u64 && log2_upper_at(1947) == 17782288438058398101u64);
    assert(log2_entries_fit_below(1948));
    assert(log2_lower_at(1948) == 17788949187985718972u64 && log2_upper_at(1948) == 17788949187985718977u64);
    assert(log2_entries_fit_below(1949));
    assert(log2_lower_at(1949) == 17795608271267225551u64 && log2_upper_at(1949) == 17795608271267225556u64);
    assert(log2_entries_fit_below(1950));
    assert(log2_lower_at(1950) == 17802265688736761906u64 && log2_upper_at(1950) == 17802265688736761911u64);
    assert(log2_entries_fit_below(1951));
    assert(log2_lower_at(1951) == 17808921441227546493u64 && log2_upper_at(1951) == 17808921441227546499u64);
    assert(log2_entries_fit_below(1952));
    assert(log2_lower_at(1952) == 17815575529572172777u64 && log2_upper_at(1952) == 17815575529572172782u64);
    assert(log2_entries_fit_below(1953));
    assert(log2_lower_at(1953) == 17822227954602609850u64 && log2_upper_at(1953) == 17822227954602609856u64);
    assert(log2_entries_fit_below(1954));
    assert(log2_lower_at(1954) == 17828878717150203068u64 && log2_upper_at(1954) == 17828878717150203073u64);
    assert(log2_entries_fit_below(1955));
    assert(log2_lower_at(1955) == 17835527818045674661u64 && log2_upper_at(1955) == 17835527818045674669u64);
    assert(log2_entries_fit_below(1956));
    assert(log2_lower_at(1956) == 17842175258119124370u64 && log2_upper_at(1956) == 17842175258119124376u64);
    assert(log2_entries_fit_below(1957));
    assert(log2_lower_at(1957) == 17848821038200030054u64 && log2_upper_at(1957) == 17848821038200030059u64);
    assert(log2_entries_fit_below(1958));
    assert(log2_lower_at(1958) == 17855465159117248322u64 && log2_upper_at(1958) == 17855465159117248327u64);
    assert(log2_entries_fit_below(1959));
    assert(log2_lower_at(1959) == 17862107621699015144u64 && log2_upper_at(1959) == 17862107621699015149u64);
    assert(log2_entries_fit_below(1960));
    assert(log2_lower_at(1960) == 17868748426772946479u64 && log2_upper_at(1960) == 17868748426772946484u64);
    assert(log2_entries_fit_below(1961));
    assert(log2_lower_at(1961) == 17875387575166038893u64 && log2_upper_at(1961) == 17875387575166038898u64);
    assert(log2_entries_fit_below(1962));
    assert(log2_lower_at(1962) == 17882025067704670170u64 && log2_upper_at(1962) == 17882025067704670176u64);
    assert(log2_entries_fit_below(1963));
    assert(log2_lower_at(1963) == 17888660905214599931u64 && log2_upper_at(1963) == 17888660905214599937u64);
    assert(log2_entries_fit_below(1964));
    assert(log2_lower_at(1964) == 17895295088520970261u64 && log2_upper_at(1964) == 17895295088520970267u64);
    assert(log2_entries_fit_below(1965));
    assert(log2_lower_at(1965) == 17901927618448306308u64 && log2_upper_at(1965) == 17901927618448306314u64);
    assert(log2_entries_fit_below(1966));
    assert(log2_lower_at(1966) == 17908558495820516914u64 && log2_upper_at(1966) == 17908558495820516919u64);
    assert(log2_entries_fit_below(1967));
    assert(log2_lower_at(1967) == 17915187721460895210u64 && log2_upper_at(1967) == 17915187721460895218u64);
    assert(log2_entries_fit_below(1968));
    assert(log2_lower_at(1968) == 17921815296192119255u64 && log2_upper_at(1968) == 17921815296192119260u64);
    assert(log2_entries_fit_below(1969));
    assert(log2_lower_at(1969) == 17928441220836252621u64 && log2_upper_at(1969) == 17928441220836252626u64);
    assert(log2_entries_fit_below(1970));
    assert(log2_lower_at(1970) == 17935065496214745025u64 && log2_upper_at(1970) == 17935065496214745033u64);
    assert(log2_entries_fit_below(1971));
    assert(log2_lower_at(1971) == 17941688123148432934u64 && log2_upper_at(1971) == 17941688123148432939u64);
    assert(log2_entries_fit_below(1972));
    assert(log2_lower_at(1972) == 17948309102457540171u64 && log2_upper_at(1972) == 17948309102457540176u64);
    assert(log2_entries_fit_below(1973));
    assert(log2_lower_at(1973) == 17954928434961678524u64 && log2_upper_at(1973) == 17954928434961678532u64);
    assert(log2_entries_fit_below(1974));
    assert(log2_lower_at(1974) == 17961546121479848370u64 && log2_upper_at(1974) == 17961546121479848375u64);
    assert(log2_entries_fit_below(1975));
    assert(log2_lower_at(1975) == 17968162162830439263u64 && log2_upper_at(1975) == 17968162162830439268u64);
    assert(log2_entries_fit_below(1976));
    assert(log2_lower_at(1976) == 17974776559831230548u64 && log2_upper_at(1976) == 17974776559831230553u64);
    assert(log2_entries_fit_below(1977));
    assert(log2_lower_at(1977) == 17981389313299391974u64 && log2_upper_at(1977) == 17981389313299391982u64);
    assert(log2_entries_fit_below(1978));
    assert(log2_lower_at(1978) == 17988000424051484298u64 && log2_upper_at(1978) == 17988000424051484303u64);
    assert(log2_entries_fit_below(1979));
    assert(log2_lower_at(1979) == 17994609892903459878u64 && log2_upper_at(1979) == 17994609892903459883u64);
    assert(log2_entries_fit_below(1980));
    assert(log2_lower_at(1980) == 18001217720670663290u64 && log2_upper_at(1980) == 18001217720670663299u64);
    assert(log2_entries_fit_below(1981));
    assert(log2_lower_at(1981) == 18007823908167831935u64 && log2_upper_at(1981) == 18007823908167831941u64);
    assert(log2_entries_fit_below(1982));
    assert(log2_lower_at(1982) == 18014428456209096624u64 && log2_upper_at(1982) == 18014428456209096632u64);
    assert(log2_entries_fit_below(1983));
    assert(log2_lower_at(1983) == 18021031365607982196u64 && log2_upper_at(1983) == 18021031365607982202u64);
    assert(log2_entries_fit_below(1984));
    assert(log2_lower_at(1984) == 18027632637177408111u64 && log2_upper_at(1984) == 18027632637177408116u64);
    assert(log2_entries_fit_below(1985));
    assert(log2_lower_at(1985) == 18034232271729689056u64 && log2_upper_at(1985) == 18034232271729689061u64);
    assert(log2_entries_fit_below(1986));
    assert(log2_lower_at(1986) == 18040830270076535539u64 && log2_upper_at(1986) == 18040830270076535547u64);
    assert(log2_entries_fit_below(1987));
    assert(log2_lower_at(1987) == 18047426633029054494u64 && log2_upper_at(1987) == 18047426633029054502u64);
    assert(log2_entries_fit_below(1988));
    assert(log2_lower_at(1988) == 18054021361397749877u64 && log2_upper_at(1988) == 18054021361397749882u64);
    assert(log2_entries_fit_below(1989));
    assert(log2_lower_at(1989) == 18060614455992523255u64 && log2_upper_at(1989) == 18060614455992523260u64);
    assert(log2_entries_fit_below(1990));
    assert(log2_lower_at(1990) == 18067205917622674418u64 && log2_upper_at(1990) == 18067205917622674424u64);
    assert(log2_entries_fit_below(1991));
    assert(log2_lower_at(1991) == 18073795747096901967u64 && log2_upper_at(1991) == 18073795747096901975u64);
    assert(log2_entries_fit_below(1992));
    assert(log2_lower_at(1992) == 18080383945223303908u64 && log2_upper_at(1992) == 18080383945223303916u64);
    assert(log2_entries_fit_below(1993));
    assert(log2_lower_at(1993) == 18086970512809378252u64 && log2_upper_at(1993) == 18086970512809378257u64);
    assert(log2_entries_fit_below(1994));
    assert(log2_lower_at(1994) == 18093555450662023595u64 && log2_upper_at(1994) == 18093555450662023600u64);
    assert(log2_entries_fit_below(1995));
    assert(log2_lower_at(1995) == 18100138759587539735u64 && log2_upper_at(1995) == 18100138759587539741u64);
    assert(log2_entries_fit_below(1996));
    assert(log2_lower_at(1996) == 18106720440391628242u64 && log2_upper_at(1996) == 18106720440391628247u64);
    assert(log2_entries_fit_below(1997));
    assert(log2_lower_at(1997) == 18113300493879393060u64 && log2_upper_at(1997) == 18113300493879393065u64);
    assert(log2_entries_fit_below(1998));
    assert(log2_lower_at(1998) == 18119878920855341098u64 && log2_upper_at(1998) == 18119878920855341103u64);
    assert(log2_entries_fit_below(1999));
    assert(log2_lower_at(1999) == 18126455722123382819u64 && log2_upper_at(1999) == 18126455722123382824u64);
    assert(log2_entries_fit_below(2000));
    assert(log2_lower_at(2000) == 18133030898486832825u64 && log2_upper_at(2000) == 18133030898486832833u64);
    assert(log2_entries_fit_below(2001));
    assert(log2_lower_at(2001) == 18139604450748410457u64 && log2_upper_at(2001) == 18139604450748410463u64);
    assert(log2_entries_fit_below(2002));
    assert(log2_lower_at(2002) == 18146176379710240367u64 && log2_upper_at(2002) == 18146176379710240372u64);
    assert(log2_entries_fit_below(2003));
    assert(log2_lower_at(2003) == 18152746686173853116u64 && log2_upper_at(2003) == 18152746686173853124u64);
    assert(log2_entries_fit_below(2004));
    assert(log2_lower_at(2004) == 18159315370940185767u64 && log2_upper_at(2004) == 18159315370940185772u64);
    assert(log2_entries_fit_below(2005));
    assert(log2_lower_at(2005) == 18165882434809582450u64 && log2_upper_at(2005) == 18165882434809582455u64);
    assert(log2_entries_fit_below(2006));
    assert(log2_lower_at(2006) == 18172447878581794967u64 && log2_upper_at(2006) == 18172447878581794972u64);
    assert(log2_entries_fit_below(2007));
    assert(log2_lower_at(2007) == 18179011703055983366u64 && log2_upper_at(2007) == 18179011703055983371u64);
    assert(log2_entries_fit_below(2008));
    assert(log2_lower_at(2008) == 18185573909030716526u64 && log2_upper_at(2008) == 18185573909030716534u64);
    assert(log2_entries_fit_below(2009));
    assert(log2_lower_at(2009) == 18192134497303972751u64 && log2_upper_at(2009) == 18192134497303972756u64);
    assert(log2_entries_fit_below(2010));
    assert(log2_lower_at(2010) == 18198693468673140327u64 && log2_upper_at(2010) == 18198693468673140333u64);
    assert(log2_entries_fit_below(2011));
    assert(log2_lower_at(2011) == 18205250823935018132u64 && log2_upper_at(2011) == 18205250823935018137u64);
    assert(log2_entries_fit_below(2012));
    assert(log2_lower_at(2012) == 18211806563885816195u64 && log2_upper_at(2012) == 18211806563885816203u64);
    assert(log2_entries_fit_below(2013));
    assert(log2_lower_at(2013) == 18218360689321156294u64 && log2_upper_at(2013) == 18218360689321156299u64);
    assert(log2_entries_fit_below(2014));
    assert(log2_lower_at(2014) == 18224913201036072514u64 && log2_upper_at(2014) == 18224913201036072522u64);
    assert(log2_entries_fit_below(2015));
    assert(log2_lower_at(2015) == 18231464099825011852u64 && log2_upper_at(2015) == 18231464099825011857u64);
    assert(log2_entries_fit_below(2016));
    assert(log2_lower_at(2016) == 18238013386481834770u64 && log2_upper_at(2016) == 18238013386481834775u64);
    assert(log2_entries_fit_below(2017));
    assert(log2_lower_at(2017) == 18244561061799815788u64 && log2_upper_at(2017) == 18244561061799815793u64);
    assert(log2_entries_fit_below(2018));
    assert(log2_lower_at(2018) == 18251107126571644051u64 && log2_upper_at(2018) == 18251107126571644059u64);
    assert(log2_entries_fit_below(2019));
    assert(log2_lower_at(2019) == 18257651581589423918u64 && log2_upper_at(2019) == 18257651581589423924u64);
    assert(log2_entries_fit_below(2020));
    assert(log2_lower_at(2020) == 18264194427644675520u64 && log2_upper_at(2020) == 18264194427644675526u64);
    assert(log2_entries_fit_below(2021));
    assert(log2_lower_at(2021) == 18270735665528335346u64 && log2_upper_at(2021) == 18270735665528335352u64);
    assert(log2_entries_fit_below(2022));
    assert(log2_lower_at(2022) == 18277275296030756816u64 && log2_upper_at(2022) == 18277275296030756821u64);
    assert(log2_entries_fit_below(2023));
    assert(log2_lower_at(2023) == 18283813319941710844u64 && log2_upper_at(2023) == 18283813319941710850u64);
    assert(log2_entries_fit_below(2024));
    assert(log2_lower_at(2024) == 18290349738050386427u64 && log2_upper_at(2024) == 18290349738050386432u64);
    assert(log2_entries_fit_below(2025));
    assert(log2_lower_at(2025) == 18296884551145391199u64 && log2_upper_at(2025) == 18296884551145391207u64);
    assert(log2_entries_fit_below(2026));
    assert(log2_lower_at(2026) == 18303417760014752018u64 && log2_upper_at(2026) == 18303417760014752026u64);
    assert(log2_entries_fit_below(2027));
    assert(log2_lower_at(2027) == 18309949365445915524u64 && log2_upper_at(2027) == 18309949365445915529u64);
    assert(log2_entries_fit_below(2028));
    assert(log2_lower_at(2028) == 18316479368225748710u64 && log2_upper_at(2028) == 18316479368225748718u64);
    assert(log2_entries_fit_below(2029));
    assert(log2_lower_at(2029) == 18323007769140539500u64 && log2_upper_at(2029) == 18323007769140539505u64);
    assert(log2_entries_fit_below(2030));
    assert(log2_lower_at(2030) == 18329534568975997304u64 && log2_upper_at(2030) == 18329534568975997310u64);
    assert(log2_entries_fit_below(2031));
    assert(log2_lower_at(2031) == 18336059768517253600u64 && log2_upper_at(2031) == 18336059768517253606u64);
    assert(log2_entries_fit_below(2032));
    assert(log2_lower_at(2032) == 18342583368548862481u64 && log2_upper_at(2032) == 18342583368548862489u64);
    assert(log2_entries_fit_below(2033));
    assert(log2_lower_at(2033) == 18349105369854801249u64 && log2_upper_at(2033) == 18349105369854801254u64);
    assert(log2_entries_fit_below(2034));
    assert(log2_lower_at(2034) == 18355625773218470946u64 && log2_upper_at(2034) == 18355625773218470954u64);
    assert(log2_entries_fit_below(2035));
    assert(log2_lower_at(2035) == 18362144579422696950u64 && log2_upper_at(2035) == 18362144579422696958u64);
    assert(log2_entries_fit_below(2036));
    assert(log2_lower_at(2036) == 18368661789249729522u64 && log2_upper_at(2036) == 18368661789249729527u64);
    assert(log2_entries_fit_below(2037));
    assert(log2_lower_at(2037) == 18375177403481244365u64 && log2_upper_at(2037) == 18375177403481244373u64);
    assert(log2_entries_fit_below(2038));
    assert(log2_lower_at(2038) == 18381691422898343208u64 && log2_upper_at(2038) == 18381691422898343214u64);
    assert(log2_entries_fit_below(2039));
    assert(log2_lower_at(2039) == 18388203848281554341u64 && log2_upper_at(2039) == 18388203848281554346u64);
    assert(log2_entries_fit_below(2040));
    assert(log2_lower_at(2040) == 18394714680410833196u64 && log2_upper_at(2040) == 18394714680410833202u64);
    assert(log2_entries_fit_below(2041));
    assert(log2_lower_at(2041) == 18401223920065562900u64 && log2_upper_at(2041) == 18401223920065562908u64);
    assert(log2_entries_fit_below(2042));
    assert(log2_lower_at(2042) == 18407731568024554838u64 && log2_upper_at(2042) == 18407731568024554843u64);
    assert(log2_entries_fit_below(2043));
    assert(log2_lower_at(2043) == 18414237625066049199u64 && log2_upper_at(2043) == 18414237625066049205u64);
    assert(log2_entries_fit_below(2044));
    assert(log2_lower_at(2044) == 18420742091967715559u64 && log2_upper_at(2044) == 18420742091967715567u64);
    assert(log2_entries_fit_below(2045));
    assert(log2_lower_at(2045) == 18427244969506653413u64 && log2_upper_at(2045) == 18427244969506653422u64);
    assert(log2_entries_fit_below(2046));
    assert(log2_lower_at(2046) == 18433746258459392755u64 && log2_upper_at(2046) == 18433746258459392760u64);
    assert(log2_entries_fit_below(2047));
    assert(log2_lower_at(2047) == 18440245959601894610u64 && log2_upper_at(2047) == 18440245959601894618u64);
    assert(log2_entries_fit_below(2048));
}

/// Each rounded-down multiple of `log2(10)` lies at or below its rounded-up twin.
pub proof fn lemma_log2_pow10_fits(p: int)
    requires
        0 <= p < 20,
    ensures
        LOG2_POW10_LOWER[p] <= LOG2_POW10_UPPER[p],
{
    assert(LOG2_POW10_LOWER[0] == 0i128 && LOG2_POW10_UPPER[0] == 0i128);
    assert(LOG2_POW10_LOWER[1] == 7659844674706589055i128 && LOG2_POW10_UPPER[1] == 7659844674706589056i128);
    assert(LOG2_POW10_LOWER[2] == 15319689349413178110i128 && LOG2_POW10_UPPER[2] == 15319689349413178111i128);
    assert(LOG2_POW10_LOWER[3] == 22979534024119767165i128 && LOG2_POW10_UPPER[3] == 22979534024119767167i128);
    assert(LOG2_POW10_LOWER[4] == 30639378698826356220i128 && LOG2_POW10_UPPER[4] == 30639378698826356222i128);
    assert(LOG2_POW10_LOWER[5] == 38299223373532945275i128 && LOG2_POW10_UPPER[5] == 38299223373532945278i128);
    assert(LOG2_POW10_LOWER[6] == 45959068048239534330i128 && LOG2_POW10_UPPER[6] == 45959068048239534333i128);
    assert(LOG2_POW10_LOWER[7] == 53618912722946123385i128 && LOG2_POW10_UPPER[7] == 53618912722946123389i128);
    assert(LOG2_POW10_LOWER[8] == 61278757397652712440i128 && LOG2_POW10_UPPER[8] == 61278757397652712444i128);
    assert(LOG2_POW10_LOWER[9] == 68938602072359301495i128 && LOG2_POW10_UPPER[9] == 68938602072359301500i128);
    assert(LOG2_POW10_LOWER[10] == 76598446747065890550i128 && LOG2_POW10_UPPER[10] == 76598446747065890555i128);
    assert(LOG2_POW10_LOWER[11] == 84258291421772479605i128 && LOG2_POW10_UPPER[11] == 84258291421772479611i128);
    assert(LOG2_POW10_LOWER[12] == 91918136096479068660i128 && LOG2_POW10_UPPER[12] == 91918136096479068666i128);
    assert(LOG2_POW10_LOWER[13] == 99577980771185657715i128 && LOG2_POW10_UPPER[13] == 99577980771185657722i128);
    assert(LOG2_POW10_LOWER[14] == 107237825445892246770i128 && LOG2_POW10_UPPER[14] == 107237825445892246777i128);
    assert(LOG2_POW10_LOWER[15] == 114897670120598835825i128 && LOG2_POW10_UPPER[15] == 114897670120598835833i128);
    assert(LOG2_POW10_LOWER[16] == 122557514795305424880i128 && LOG2_POW10_UPPER[16] == 122557514795305424888i128);
    assert(LOG2_POW10_LOWER[17] == 130217359470012013935i128 && LOG2_POW10_UPPER[17] == 130217359470012013944i128);
    assert(LOG2_POW10_LOWER[18] == 137877204144718602990i128 && LOG2_POW10_UPPER[18] == 137877204144718602999i128);
    assert(LOG2_POW10_LOWER[19] == 145537048819425192045i128 && LOG2_POW10_UPPER[19] == 145537048819425192055i128);
}

/// The first entries are `log2(1) = 0`.
pub proof fn lemma_log2_first_entries()
    ensures
        log2_lower_at(0) == 0,
        log2_upper_at(0) == 0,
{
    reveal(log2_lower_at);
    reveal(log2_upper_at);
    assert(log2_lower_at(0) == 0u64);
    assert(log2_upper_at(0) == 0u64);
}

/// What holds of every entry below `n` holds of each of them.
proof fn lemma_fit_below_each(n: int, i: int)
    requires
        log2_entries_fit_below(n),
        0 <= i < n,
    ensures
        log2_entry_fits(i),
    decreases n,
{
    if i < n - 1 {
        lemma_fit_below_each(n - 1, i);
    }
}

/// Every entry of the `log2` tables fits.
pub proof fn lemma_log2_entry_fits(i: int)
    requires
        0 <= i < 2048,
    ensures
        log2_entry_fits(i),
{
    lemma_log2_page_0();
    lemma_log2_page_1();
    lemma_log2_page_2();
    lemma_log2_page_3();
    lemma_log2_page_4();
    lemma_log2_page_5();
    lemma_log2_page_6();
    lemma_log2_page_7();
    lemma_fit_below_each(2048, i);
}

} // verus!
