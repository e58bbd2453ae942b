//! Facts about the `exp2` tables, checked entry by entry: each rounded-down
//! entry lies at or below its rounded-up one, the rounded-up entries never
//! decrease, and a rounded-down entry
//! carried across a whole table step by the truncated series stays at or
//! below the next rounded-up entry (the last one stays below `2^64`).
use crate::arith::word;
use crate::kernel::tables::{exp2_lower_at, exp2_upper_at};
use vstd::prelude::*;

verus! {

/// The truncated series at the largest residual a table step can have.
pub open spec fn full_step_series() -> int {
    12788472657347411521
}

/// A rounded-down entry advanced by the truncated series over one full
/// table step, before any carry.
pub open spec fn advanced_lower(i: int) -> int {
    exp2_lower_at(i) + (exp2_lower_at(i) * full_step_series() / word()) / 2048
}

/// Entry `i` sits below its rounded-up twin and, advanced over a full
/// step, below the next rounded-up entry.
pub open spec fn exp2_entry_fits(i: int) -> bool {
    &&& 0x8000_0000_0000_0000 <= exp2_lower_at(i) <= exp2_upper_at(i)
    &&& i < 2047 ==> exp2_upper_at(i) <= exp2_upper_at(i + 1)
    &&& i < 2047 ==> advanced_lower(i) <= exp2_upper_at(i + 1)
    &&& i == 2047 ==> advanced_lower(i) < word()
}

/// Every entry below `n` fits.
pub open spec fn exp2_entries_fit_below(n: int) -> bool
    decreases n,
{
    if n <= 0 {
        true
    } else {
        exp2_entry_fits(n - 1) && exp2_entries_fit_below(n - 1)
    }
}

/// Entries 0 to 255 fit.
proof fn lemma_exp2_page_0()
    ensures
        exp2_entries_fit_below(256),
{
    reveal(exp2_lower_at);
    reveal(exp2_upper_at);
    assert(exp2_entries_fit_below(0));
    assert(exp2_lower_at(0) == 9223372036854775808u64 && exp2_upper_at(0) == 9223372036854775808u64);
    assert(exp2_upper_at(1) == 9226494222562136017u64);
    assert(exp2_entries_fit_below(1));
    assert(exp2_lower_at(1) == 9226494222562136015u64 && exp2_upper_at(1) == 9226494222562136017u64);
    assert(exp2_upper_at(2) == 9229617465154500137u64);
    assert(exp2_entries_fit_below(2));
    assert(exp2_lower_at(2) == 9229617465154500135u64 && exp2_upper_at(2) == 9229617465154500137u64);
    assert(exp2_upper_at(3) == 9232741764989632253u64);
    assert(exp2_entries_fit_below(3));
    assert(exp2_lower_at(3) == 9232741764989632248u64 && exp2_upper_at(3) == 9232741764989632253u64);
    assert(exp2_upper_at(4) == 9235867122425417554u64);
    assert(exp2_entries_fit_below(4));
    assert(exp2_lower_at(4) == 9235867122425417552u64 && exp2_upper_at(4) == 9235867122425417554u64);
    assert(exp2_upper_at(5) == 9238993537819862380u64);
    assert(exp2_entries_fit_below(5));
    assert(exp2_lower_at(5) == 9238993537819862375u64 && exp2_upper_at(5) == 9238993537819862380u64);
    assert(exp2_upper_at(6) == 9242121011531094256u64);
    assert(exp2_entries_fit_below(6));
    assert(exp2_lower_at(6) == 9242121011531094251u64 && exp2_upper_at(6) == 9242121011531094256u64);
    assert(exp2_upper_at(7) == 9245249543917361935u64);
    assert(exp2_entries_fit_below(7));
    assert(exp2_lower_at(7) == 9245249543917361927u64 && exp2_upper_at(7) == 9245249543917361935u64);
    assert(exp2_upper_at(8) == 9248379135337035442u64);
    assert(exp2_entries_fit_below(8));
    assert(exp2_lower_at(8) == 9248379135337035440u64 && exp2_upper_at(8) == 9248379135337035442u64);
    assert(exp2_upper_at(9) == 9251509786148606116u64);
    assert(exp2_entries_fit_below(9));
    assert(exp2_lower_at(9) == 9251509786148606111u64 && exp2_upper_at(9) == 9251509786148606116u64);
    assert(exp2_upper_at(10) == 9254641496710686643u64);
    assert(exp2_entries_fit_below(10));
    assert(exp2_lower_at(10) == 9254641496710686638u64 && exp2_upper_at(10) == 9254641496710686643u64);
    assert(exp2_upper_at(11) == 9257774267382011104u64);
    assert(exp2_entries_fit_below(11));
    assert(exp2_lower_at(11) == 9257774267382011096u64 && exp2_upper_at(11) == 9257774267382011104u64);
    assert(exp2_upper_at(12) == 9260908098521435015u64);
    assert(exp2_entries_fit_below(12));
    assert(exp2_lower_at(12) == 9260908098521435010u64 && exp2_upper_at(12) == 9260908098521435015u64);
    assert(exp2_upper_at(13) == 9264042990487935368u64);
    assert(exp2_entries_fit_below(13));
    assert(exp2_lower_at(13) == 9264042990487935360u64 && exp2_upper_at(13) == 9264042990487935368u64);
    assert(exp2_upper_at(14) == 9267178943640610671u64);
    assert(exp2_entries_fit_below(14));
    assert(exp2_lower_at(14) == 9267178943640610663u64 && exp2_upper_at(14) == 9267178943640610671u64);
    assert(exp2_upper_at(15) == 9270315958338680988u64);
    assert(exp2_entries_fit_below(15));
    assert(exp2_lower_at(15) == 9270315958338680977u64 && exp2_upper_at(15) == 9270315958338680988u64);
    assert(exp2_upper_at(16) == 9273454034941487981u64);
    assert(exp2_entries_fit_below(16));
    assert(exp2_lower_at(16) == 9273454034941487979u64 && exp2_upper_at(16) == 9273454034941487981u64);
    assert(exp2_upper_at(17) == 9276593173808494963u64);
    assert(exp2_entries_fit_below(17));
    assert(exp2_lower_at(17) == 9276593173808494958u64 && exp2_upper_at(17) == 9276593173808494963u64);
    assert(exp2_upper_at(18) == 9279733375299286914u64);
    assert(exp2_entries_fit_below(18));
    assert(exp2_lower_at(18) == 9279733375299286909u64 && exp2_upper_at(18) == 9279733375299286914u64);
    assert(exp2_upper_at(19) == 9282874639773570543u64);
    assert(exp2_entries_fit_below(19));
    assert(exp2_lower_at(19) == 9282874639773570535u64 && exp2_upper_at(19) == 9282874639773570543u64);
    assert(exp2_upper_at(20) == 9286016967591174322u64);
    assert(exp2_entries_fit_below(20));
    assert(exp2_lower_at(20) == 9286016967591174317u64 && exp2_upper_at(20) == 9286016967591174322u64);
    assert(exp2_upper_at(21) == 9289160359112048527u64);
    assert(exp2_entries_fit_below(21));
    assert(exp2_lower_at(21) == 9289160359112048519u64 && exp2_upper_at(21) == 9289160359112048527u64);
    assert(exp2_upper_at(22) == 9292304814696265283u64);
    assert(exp2_entries_fit_below(22));
    assert(exp2_lower_at(22) == 9292304814696265275u64 && exp2_upper_at(22) == 9292304814696265283u64);
    assert(exp2_upper_at(23) == 9295450334704018596u64);
    assert(exp2_entries_fit_below(23));
    assert(exp2_lower_at(23) == 9295450334704018585u64 && exp2_upper_at(23) == 9295450334704018596u64);
    assert(exp2_upper_at(24) == 9298596919495624407u64);
    assert(exp2_entries_fit_below(24));
    assert(exp2_lower_at(24) == 9298596919495624402u64 && exp2_upper_at(24) == 9298596919495624407u64);
    assert(exp2_upper_at(25) == 9301744569431520625u64);
    assert(exp2_entries_fit_below(25));
    assert(exp2_lower_at(25) == 9301744569431520617u64 && exp2_upper_at(25) == 9301744569431520625u64);
    assert(exp2_upper_at(26) == 9304893284872267170u64);
    assert(exp2_entries_fit_below(26));
    assert(exp2_lower_at(26) == 9304893284872267162u64 && exp2_upper_at(26) == 9304893284872267170u64);
    assert(exp2_upper_at(27) == 9308043066178546012u64);
    assert(exp2_entries_fit_below(27));
    assert(exp2_lower_at(27) == 9308043066178546001u64 && exp2_upper_at(27) == 9308043066178546012u64);
    assert(exp2_upper_at(28) == 9311193913711161217u64);
    assert(exp2_entries_fit_below(28));
    assert(exp2_lower_at(28) == 9311193913711161209u64 && exp2_upper_at(28) == 9311193913711161217u64);
    assert(exp2_upper_at(29) == 9314345827831038987u64);
    assert(exp2_entries_fit_below(29));
    assert(exp2_lower_at(29) == 9314345827831038975u64 && exp2_upper_at(29) == 9314345827831038987u64);
    assert(exp2_upper_at(30) == 9317498808899227699u64);
    assert(exp2_entries_fit_below(30));
    assert(exp2_lower_at(30) == 9317498808899227688u64 && exp2_upper_at(30) == 9317498808899227699u64);
    assert(exp2_upper_at(31) == 9320652857276897947u64);
    assert(exp2_entries_fit_below(31));
    assert(exp2_lower_at(31) == 9320652857276897932u64 && exp2_upper_at(31) == 9320652857276897947u64);
    assert(exp2_upper_at(32) == 9323807973325342580u64);
    assert(exp2_entries_fit_below(32));
    assert(exp2_lower_at(32) == 9323807973325342578u64 && exp2_upper_at(32) == 9323807973325342580u64);
    assert(exp2_upper_at(33) == 9326964157405976766u64);
    assert(exp2_entries_fit_below(33));
    assert(exp2_lower_at(33) == 9326964157405976761u64 && exp2_upper_at(33) == 9326964157405976766u64);
    assert(exp2_upper_at(34) == 9330121409880337993u64);
    assert(exp2_entries_fit_below(34));
    assert(exp2_lower_at(34) == 9330121409880337988u64 && exp2_upper_at(34) == 9330121409880337993u64);
    assert(exp2_upper_at(35) == 9333279731110086143u64);
    assert(exp2_entries_fit_below(35));
    assert(exp2_lower_at(35) == 9333279731110086135u64 && exp2_upper_at(35) == 9333279731110086143u64);
    assert(exp2_upper_at(36) == 9336439121457003519u64);
    assert(exp2_entries_fit_below(36));
    assert(exp2_lower_at(36) == 9336439121457003514u64 && exp2_upper_at(36) == 9336439121457003519u64);
    assert(exp2_upper_at(37) == 9339599581282994895u64);
    assert(exp2_entries_fit_below(37));
    assert(exp2_lower_at(37) == 9339599581282994887u64 && exp2_upper_at(37) == 9339599581282994895u64);
    assert(exp2_upper_at(38) == 9342761110950087548u64);
    assert(exp2_entries_fit_below(38));
    assert(exp2_lower_at(38) == 9342761110950087540u64 && exp2_upper_at(38) == 9342761110950087548u64);
    assert(exp2_upper_at(39) == 9345923710820431305u64);
    assert(exp2_entries_fit_below(39));
    assert(exp2_lower_at(39) == 9345923710820431294u64 && exp2_upper_at(39) == 9345923710820431305u64);
    assert(exp2_upper_at(40) == 9349087381256298584u64);
    assert(exp2_entries_fit_below(40));
    assert(exp2_lower_at(40) == 9349087381256298579u64 && exp2_upper_at(40) == 9349087381256298584u64);
    assert(exp2_upper_at(41) == 9352252122620084439u64);
    assert(exp2_entries_fit_below(41));
    assert(exp2_lower_at(41) == 9352252122620084431u64 && exp2_upper_at(41) == 9352252122620084439u64);
    assert(exp2_upper_at(42) == 9355417935274306593u64);
    assert(exp2_entries_fit_below(42));
    assert(exp2_lower_at(42) == 9355417935274306585u64 && exp2_upper_at(42) == 9355417935274306593u64);
    assert(exp2_upper_at(43) == 9358584819581605484u64);
    assert(exp2_entries_fit_below(43));
    assert(exp2_lower_at(43) == 9358584819581605472u64 && exp2_upper_at(43) == 9358584819581605484u64);
    assert(exp2_upper_at(44) == 9361752775904744308u64);
    assert(exp2_entries_fit_below(44));
    assert(exp2_lower_at(44) == 9361752775904744300u64 && exp2_upper_at(44) == 9361752775904744308u64);
    assert(exp2_upper_at(45) == 9364921804606609061u64);
    assert(exp2_entries_fit_below(45));
    assert(exp2_lower_at(45) == 9364921804606609050u64 && exp2_upper_at(45) == 9364921804606609061u64);
    assert(exp2_upper_at(46) == 9368091906050208577u64);
    assert(exp2_entries_fit_below(46));
    assert(exp2_lower_at(46) == 9368091906050208566u64 && exp2_upper_at(46) == 9368091906050208577u64);
    assert(exp2_upper_at(47) == 9371263080598674571u64);
    assert(exp2_entries_fit_below(47));
    assert(exp2_lower_at(47) == 9371263080598674557u64 && exp2_upper_at(47) == 9371263080598674571u64);
    assert(exp2_upper_at(48) == 9374435328615261677u64);
    assert(exp2_entries_fit_below(48));
    assert(exp2_lower_at(48) == 9374435328615261672u64 && exp2_upper_at(48) == 9374435328615261677u64);
    assert(exp2_upper_at(49) == 9377608650463347509u64);
    assert(exp2_entries_fit_below(49));
    assert(exp2_lower_at(49) == 9377608650463347501u64 && exp2_upper_at(49) == 9377608650463347509u64);
    assert(exp2_upper_at(50) == 9380783046506432670u64);
    assert(exp2_entries_fit_below(50));
    assert(exp2_lower_at(50) == 9380783046506432662u64 && exp2_upper_at(50) == 9380783046506432670u64);
    assert(exp2_upper_at(51) == 9383958517108140818u64);
    assert(exp2_entries_fit_below(51));
    assert(exp2_lower_at(51) == 9383958517108140807u64 && exp2_upper_at(51) == 9383958517108140818u64);
    assert(exp2_upper_at(52) == 9387135062632218700u64);
    assert(exp2_entries_fit_below(52));
    assert(exp2_lower_at(52) == 9387135062632218692u64 && exp2_upper_at(52) == 9387135062632218700u64);
    assert(exp2_upper_at(53) == 9390312683442536194u64);
    assert(exp2_entries_fit_below(53));
    assert(exp2_lower_at(53) == 9390312683442536183u64 && exp2_upper_at(53) == 9390312683442536194u64);
    assert(exp2_upper_at(54) == 9393491379903086353u64);
    assert(exp2_entries_fit_below(54));
    assert(exp2_lower_at(54) == 9393491379903086342u64 && exp2_upper_at(54) == 9393491379903086353u64);
    assert(exp2_upper_at(55) == 9396671152377985439u64);
    assert(exp2_entries_fit_below(55));
    assert(exp2_lower_at(55) == 9396671152377985425u64 && exp2_upper_at(55) == 9396671152377985439u64);
    assert(exp2_upper_at(56) == 9399852001231472976u64);
    assert(exp2_entries_fit_below(56));
    assert(exp2_lower_at(56) == 9399852001231472968u64 && exp2_upper_at(56) == 9399852001231472976u64);
    assert(exp2_upper_at(57) == 9403033926827911785u64);
    assert(exp2_entries_fit_below(57));
    assert(exp2_lower_at(57) == 9403033926827911774u64 && exp2_upper_at(57) == 9403033926827911785u64);
    assert(exp2_upper_at(58) == 9406216929531788025u64);
    assert(exp2_entries_fit_below(58));
    assert(exp2_lower_at(58) == 9406216929531788014u64 && exp2_upper_at(58) == 9406216929531788025u64);
    assert(exp2_upper_at(59) == 9409401009707711236u64);
    assert(exp2_entries_fit_below(59));
    assert(exp2_lower_at(59) == 9409401009707711222u64 && exp2_upper_at(59) == 9409401009707711236u64);
    assert(exp2_upper_at(60) == 9412586167720414383u64);
    assert(exp2_entries_fit_below(60));
    assert(exp2_lower_at(60) == 9412586167720414371u64 && exp2_upper_at(60) == 9412586167720414383u64);
    assert(exp2_upper_at(61) == 9415772403934753895u64);
    assert(exp2_entries_fit_below(61));
    assert(exp2_lower_at(61) == 9415772403934753880u64 && exp2_upper_at(61) == 9415772403934753895u64);
    assert(exp2_upper_at(62) == 9418959718715709710u64);
    assert(exp2_entries_fit_below(62));
    assert(exp2_lower_at(62) == 9418959718715709696u64 && exp2_upper_at(62) == 9418959718715709710u64);
    assert(exp2_upper_at(63) == 9422148112428385311u64);
    assert(exp2_entries_fit_below(63));
    assert(exp2_lower_at(63) == 9422148112428385293u64 && exp2_upper_at(63) == 9422148112428385311u64);
    assert(exp2_upper_at(64) == 9425337585438007768u64);
    assert(exp2_entries_fit_below(64));
    assert(exp2_lower_at(64) == 9425337585438007766u64 && exp2_upper_at(64) == 9425337585438007768u64);
    assert(exp2_upper_at(65) == 9428528138109927802u64);
    assert(exp2_entries_fit_below(65));
    assert(exp2_lower_at(65) == 9428528138109927797u64 && exp2_upper_at(65) == 9428528138109927802u64);
    assert(exp2_upper_at(66) == 9431719770809619788u64);
    assert(exp2_entries_fit_below(66));
    assert(exp2_lower_at(66) == 9431719770809619783u64 && exp2_upper_at(66) == 9431719770809619788u64);
    assert(exp2_upper_at(67) == 9434912483902681824u64);
    assert(exp2_entries_fit_below(67));
    assert(exp2_lower_at(67) == 9434912483902681816u64 && exp2_upper_at(67) == 9434912483902681824u64);
    assert(exp2_upper_at(68) == 9438106277754835765u64);
    assert(exp2_entries_fit_below(68));
    assert(exp2_lower_at(68) == 9438106277754835760u64 && exp2_upper_at(68) == 9438106277754835765u64);
    assert(exp2_upper_at(69) == 9441301152731927268u64);
    assert(exp2_entries_fit_below(69));
    assert(exp2_lower_at(69) == 9441301152731927260u64 && exp2_upper_at(69) == 9441301152731927268u64);
    assert(exp2_upper_at(70) == 9444497109199925831u64);
    assert(exp2_entries_fit_below(70));
    assert(exp2_lower_at(70) == 9444497109199925823u64 && exp2_upper_at(70) == 9444497109199925831u64);
    assert(exp2_upper_at(71) == 9447694147524924831u64);
    assert(exp2_entries_fit_below(71));
    assert(exp2_lower_at(71) == 9447694147524924820u64 && exp2_upper_at(71) == 9447694147524924831u64);
    assert(exp2_upper_at(72) == 9450892268073141577u64);
    assert(exp2_entries_fit_below(72));
    assert(exp2_lower_at(72) == 9450892268073141572u64 && exp2_upper_at(72) == 9450892268073141577u64);
    assert(exp2_upper_at(73) == 9454091471210917345u64);
    assert(exp2_entries_fit_below(73));
    assert(exp2_lower_at(73) == 9454091471210917337u64 && exp2_upper_at(73) == 9454091471210917345u64);
    assert(exp2_upper_at(74) == 9457291757304717417u64);
    assert(exp2_entries_fit_below(74));
    assert(exp2_lower_at(74) == 9457291757304717409u64 && exp2_upper_at(74) == 9457291757304717417u64);
    assert(exp2_upper_at(75) == 9460493126721131127u64);
    assert(exp2_entries_fit_below(75));
    assert(exp2_lower_at(75) == 9460493126721131115u64 && exp2_upper_at(75) == 9460493126721131127u64);
    assert(exp2_upper_at(76) == 9463695579826871903u64);
    assert(exp2_entries_fit_below(76));
    assert(exp2_lower_at(76) == 9463695579826871895u64 && exp2_upper_at(76) == 9463695579826871903u64);
    assert(exp2_upper_at(77) == 9466899116988777310u64);
    assert(exp2_entries_fit_below(77));
    assert(exp2_lower_at(77) == 9466899116988777299u64 && exp2_upper_at(77) == 9466899116988777310u64);
    assert(exp2_upper_at(78) == 9470103738573809090u64);
    assert(exp2_entries_fit_below(78));
    assert(exp2_lower_at(78) == 9470103738573809079u64 && exp2_upper_at(78) == 9470103738573809090u64);
    assert(exp2_upper_at(79) == 9473309444949053202u64);
    assert(exp2_entries_fit_below(79));
    assert(exp2_lower_at(79) == 9473309444949053188u64 && exp2_upper_at(79) == 9473309444949053202u64);
    assert(exp2_upper_at(80) == 9476516236481719865u64);
    assert(exp2_entries_fit_below(80));
    assert(exp2_lower_at(80) == 9476516236481719860u64 && exp2_upper_at(80) == 9476516236481719865u64);
    assert(exp2_upper_at(81) == 9479724113539143614u64);
    assert(exp2_entries_fit_below(81));
    assert(exp2_lower_at(81) == 9479724113539143606u64 && exp2_upper_at(81) == 9479724113539143614u64);
    assert(exp2_upper_at(82) == 9482933076488783315u64);
    assert(exp2_entries_fit_below(82));
    assert(exp2_lower_at(82) == 9482933076488783307u64 && exp2_upper_at(82) == 9482933076488783315u64);
    assert(exp2_upper_at(83) == 9486143125698222229u64);
    assert(exp2_entries_fit_below(83));
    assert(exp2_lower_at(83) == 9486143125698222218u64 && exp2_upper_at(83) == 9486143125698222229u64);
    assert(exp2_upper_at(84) == 9489354261535168044u64);
    assert(exp2_entries_fit_below(84));
    assert(exp2_lower_at(84) == 9489354261535168036u64 && exp2_upper_at(84) == 9489354261535168044u64);
    assert(exp2_upper_at(85) == 9492566484367452921u64);
    assert(exp2_entries_fit_below(85));
    assert(exp2_lower_at(85) == 9492566484367452910u64 && exp2_upper_at(85) == 9492566484367452921u64);
    assert(exp2_upper_at(86) == 9495779794563033539u64);
    assert(exp2_entries_fit_below(86));
    assert(exp2_lower_at(86) == 9495779794563033528u64 && exp2_upper_at(86) == 9495779794563033539u64);
    assert(exp2_upper_at(87) == 9498994192489991124u64);
    assert(exp2_entries_fit_below(87));
    assert(exp2_lower_at(87) == 9498994192489991110u64 && exp2_upper_at(87) == 9498994192489991124u64);
    assert(exp2_upper_at(88) == 9502209678516531510u64);
    assert(exp2_entries_fit_below(88));
    assert(exp2_lower_at(88) == 9502209678516531502u64 && exp2_upper_at(88) == 9502209678516531510u64);
    assert(exp2_upper_at(89) == 9505426253010985169u64);
    assert(exp2_entries_fit_below(89));
    assert(exp2_lower_at(89) == 9505426253010985158u64 && exp2_upper_at(89) == 9505426253010985169u64);
    assert(exp2_upper_at(90) == 9508643916341807253u64);
    assert(exp2_entries_fit_below(90));
    assert(exp2_lower_at(90) == 9508643916341807242u64 && exp2_upper_at(90) == 9508643916341807253u64);
    assert(exp2_upper_at(91) == 9511862668877577641u64);
    assert(exp2_entries_fit_below(91));
    assert(exp2_lower_at(91) == 9511862668877577627u64 && exp2_upper_at(91) == 9511862668877577641u64);
    assert(exp2_upper_at(92) == 9515082510987000978u64);
    assert(exp2_entries_fit_below(92));
    assert(exp2_lower_at(92) == 9515082510987000967u64 && exp2_upper_at(92) == 9515082510987000978u64);
    assert(exp2_upper_at(93) == 9518303443038906721u64);
    assert(exp2_entries_fit_below(93));
    assert(exp2_lower_at(93) == 9518303443038906706u64 && exp2_upper_at(93) == 9518303443038906721u64);
    assert(exp2_upper_at(94) == 9521525465402249177u64);
    assert(exp2_entries_fit_below(94));
    assert(exp2_lower_at(94) == 9521525465402249162u64 && exp2_upper_at(94) == 9521525465402249177u64);
    assert(exp2_upper_at(95) == 9524748578446107546u64);
    assert(exp2_entries_fit_below(95));
    assert(exp2_lower_at(95) == 9524748578446107527u64 && exp2_upper_at(95) == 9524748578446107546u64);
    assert(exp2_upper_at(96) == 9527972782539685960u64);
    assert(exp2_entries_fit_below(96));
    assert(exp2_lower_at(96) == 9527972782539685955u64 && exp2_upper_at(96) == 9527972782539685960u64);
    assert(exp2_upper_at(97) == 9531198078052313549u64);
    assert(exp2_entries_fit_below(97));
    assert(exp2_lower_at(97) == 9531198078052313541u64 && exp2_upper_at(97) == 9531198078052313549u64);
    assert(exp2_upper_at(98) == 9534424465353444442u64);
    assert(exp2_entries_fit_below(98));
    assert(exp2_lower_at(98) == 9534424465353444434u64 && exp2_upper_at(98) == 9534424465353444442u64);
    assert(exp2_upper_at(99) == 9537651944812657840u64);
    assert(exp2_entries_fit_below(99));
    assert(exp2_lower_at(99) == 9537651944812657828u64 && exp2_upper_at(99) == 9537651944812657840u64);
    assert(exp2_upper_at(100) == 9540880516799658047u64);
    assert(exp2_entries_fit_below(100));
    assert(exp2_lower_at(100) == 9540880516799658038u64 && exp2_upper_at(100) == 9540880516799658047u64);
    assert(exp2_upper_at(101) == 9544110181684274520u64);
    assert(exp2_entries_fit_below(101));
    assert(exp2_lower_at(101) == 9544110181684274508u64 && exp2_upper_at(101) == 9544110181684274520u64);
    assert(exp2_upper_at(102) == 9547340939836461900u64);
    assert(exp2_entries_fit_below(102));
    assert(exp2_lower_at(102) == 9547340939836461889u64 && exp2_upper_at(102) == 9547340939836461900u64);
    assert(exp2_upper_at(103) == 9550572791626300065u64);
    assert(exp2_entries_fit_below(103));
    assert(exp2_lower_at(103) == 9550572791626300050u64 && exp2_upper_at(103) == 9550572791626300065u64);
    assert(exp2_upper_at(104) == 9553805737423994164u64);
    assert(exp2_entries_fit_below(104));
    assert(exp2_lower_at(104) == 9553805737423994156u64 && exp2_upper_at(104) == 9553805737423994164u64);
    assert(exp2_upper_at(105) == 9557039777599874669u64);
    assert(exp2_entries_fit_below(105));
    assert(exp2_lower_at(105) == 9557039777599874658u64 && exp2_upper_at(105) == 9557039777599874669u64);
    assert(exp2_upper_at(106) == 9560274912524397410u64);
    assert(exp2_entries_fit_below(106));
    assert(exp2_lower_at(106) == 9560274912524397398u64 && exp2_upper_at(106) == 9560274912524397410u64);
    assert(exp2_upper_at(107) == 9563511142568143614u64);
    assert(exp2_entries_fit_below(107));
    assert(exp2_lower_at(107) == 9563511142568143598u64 && exp2_upper_at(107) == 9563511142568143614u64);
    assert(exp2_upper_at(108) == 9566748468101819958u64);
    assert(exp2_entries_fit_below(108));
    assert(exp2_lower_at(108) == 9566748468101819946u64 && exp2_upper_at(108) == 9566748468101819958u64);
    assert(exp2_upper_at(109) == 9569986889496258605u64);
    assert(exp2_entries_fit_below(109));
    assert(exp2_lower_at(109) == 9569986889496258591u64 && exp2_upper_at(109) == 9569986889496258605u64);
    assert(exp2_upper_at(110) == 9573226407122417250u64);
    assert(exp2_entries_fit_below(110));
    assert(exp2_lower_at(110) == 9573226407122417236u64 && exp2_upper_at(110) == 9573226407122417250u64);
    assert(exp2_upper_at(111) == 9576467021351379155u64);
    assert(exp2_entries_fit_below(111));
    assert(exp2_lower_at(111) == 9576467021351379138u64 && exp2_upper_at(111) == 9576467021351379155u64);
    assert(exp2_upper_at(112) == 9579708732554353196u64);
    assert(exp2_entries_fit_below(112));
    assert(exp2_lower_at(112) == 9579708732554353188u64 && exp2_upper_at(112) == 9579708732554353196u64);
    assert(exp2_upper_at(113) == 9582951541102673919u64);
    assert(exp2_entries_fit_below(113));
    assert(exp2_lower_at(113) == 9582951541102673908u64 && exp2_upper_at(113) == 9582951541102673919u64);
    assert(exp2_upper_at(114) == 9586195447367801556u64);
    assert(exp2_entries_fit_below(114));
    assert(exp2_lower_at(114) == 9586195447367801545u64 && exp2_upper_at(114) == 9586195447367801556u64);
    assert(exp2_upper_at(115) == 9589440451721322085u64);
    assert(exp2_entries_fit_below(115));
    assert(exp2_lower_at(115) == 9589440451721322070u64 && exp2_upper_at(115) == 9589440451721322085u64);
    assert(exp2_upper_at(116) == 9592686554534947269u64);
    assert(exp2_entries_fit_below(116));
    assert(exp2_lower_at(116) == 9592686554534947258u64 && exp2_upper_at(116) == 9592686554534947269u64);
    assert(exp2_upper_at(117) == 9595933756180514700u64);
    assert(exp2_entries_fit_below(117));
    assert(exp2_lower_at(117) == 9595933756180514686u64 && exp2_upper_at(117) == 9595933756180514700u64);
    assert(exp2_upper_at(118) == 9599182057029987840u64);
    assert(exp2_entries_fit_below(118));
    assert(exp2_lower_at(118) == 9599182057029987826u64 && exp2_upper_at(118) == 9599182057029987840u64);
    assert(exp2_upper_at(119) == 9602431457455456060u64);
    assert(exp2_entries_fit_below(119));
    assert(exp2_lower_at(119) == 9602431457455456043u64 && exp2_upper_at(119) == 9602431457455456060u64);
    assert(exp2_upper_at(120) == 9605681957829134690u64);
    assert(exp2_entries_fit_below(120));
    assert(exp2_lower_at(120) == 9605681957829134679u64 && exp2_upper_at(120) == 9605681957829134690u64);
    assert(exp2_upper_at(121) == 9608933558523365059u64);
    assert(exp2_entries_fit_below(121));
    assert(exp2_lower_at(121) == 9608933558523365044u64 && exp2_upper_at(121) == 9608933558523365059u64);
    assert(exp2_upper_at(122) == 9612186259910614532u64);
    assert(exp2_entries_fit_below(122));
    assert(exp2_lower_at(122) == 9612186259910614518u64 && exp2_upper_at(122) == 9612186259910614532u64);
    assert(exp2_upper_at(123) == 9615440062363476560u64);
    assert(exp2_entries_fit_below(123));
    assert(exp2_lower_at(123) == 9615440062363476542u64 && exp2_upper_at(123) == 9615440062363476560u64);
    assert(exp2_upper_at(124) == 9618694966254670718u64);
    assert(exp2_entries_fit_below(124));
    assert(exp2_lower_at(124) == 9618694966254670703u64 && exp2_upper_at(124) == 9618694966254670718u64);
    assert(exp2_upper_at(125) == 9621950971957042753u64);
    assert(exp2_entries_fit_below(125));
    assert(exp2_lower_at(125) == 9621950971957042734u64 && exp2_upper_at(125) == 9621950971957042753u64);
    assert(exp2_upper_at(126) == 9625208079843564620u64);
    assert(exp2_entries_fit_below(126));
    assert(exp2_lower_at(126) == 9625208079843564603u64 && exp2_upper_at(126) == 9625208079843564620u64);
    assert(exp2_upper_at(127) == 9628466290287334530u64);
    assert(exp2_entries_fit_below(127));
    assert(exp2_lower_at(127) == 9628466290287334509u64 && exp2_upper_at(127) == 9628466290287334530u64);
    assert(exp2_upper_at(128) == 9631725603661576982u64);
    assert(exp2_entries_fit_below(128));
    assert(exp2_lower_at(128) == 9631725603661576980u64 && exp2_upper_at(128) == 9631725603661576982u64);
    assert(exp2_upper_at(129) == 9634986020339642839u64);
    assert(exp2_entries_fit_below(129));
    assert(exp2_lower_at(129) == 9634986020339642833u64 && exp2_upper_at(129) == 9634986020339642839u64);
    assert(exp2_upper_at(130) == 9638247540695009320u64);
    assert(exp2_entries_fit_below(130));
    assert(exp2_lower_at(130) == 9638247540695009315u64 && exp2_upper_at(130) == 9638247540695009320u64);
    assert(exp2_upper_at(131) == 9641510165101280080u64);
    assert(exp2_entries_fit_below(131));
    assert(exp2_lower_at(131) == 9641510165101280072u64 && exp2_upper_at(131) == 9641510165101280080u64);
    assert(exp2_upper_at(132) == 9644773893932185239u64);
    assert(exp2_entries_fit_below(132));
    assert(exp2_lower_at(132) == 9644773893932185234u64 && exp2_upper_at(132) == 9644773893932185239u64);
    assert(exp2_upper_at(133) == 9648038727561581433u64);
    assert(exp2_entries_fit_below(133));
    assert(exp2_lower_at(133) == 9648038727561581424u64 && exp2_upper_at(133) == 9648038727561581433u64);
    assert(exp2_upper_at(134) == 9651304666363451845u64);
    assert(exp2_entries_fit_below(134));
    assert(exp2_lower_at(134) == 9651304666363451837u64 && exp2_upper_at(134) == 9651304666363451845u64);
    assert(exp2_upper_at(135) == 9654571710711906257u64);
    assert(exp2_entries_fit_below(135));
    assert(exp2_lower_at(135) == 9654571710711906246u64 && exp2_upper_at(135) == 9654571710711906257u64);
    assert(exp2_upper_at(136) == 9657839860981181090u64);
    assert(exp2_entries_fit_below(136));
    assert(exp2_lower_at(136) == 9657839860981181085u64 && exp2_upper_at(136) == 9657839860981181090u64);
    assert(exp2_upper_at(137) == 9661109117545639451u64);
    assert(exp2_entries_fit_below(137));
    assert(exp2_lower_at(137) == 9661109117545639443u64 && exp2_upper_at(137) == 9661109117545639451u64);
    assert(exp2_upper_at(138) == 9664379480779771165u64);
    assert(exp2_entries_fit_below(138));
    assert(exp2_lower_at(138) == 9664379480779771157u64 && exp2_upper_at(138) == 9664379480779771165u64);
    assert(exp2_upper_at(139) == 9667650951058192829u64);
    assert(exp2_entries_fit_below(139));
    assert(exp2_lower_at(139) == 9667650951058192817u64 && exp2_upper_at(139) == 9667650951058192829u64);
    assert(exp2_upper_at(140) == 9670923528755647848u64);
    assert(exp2_entries_fit_below(140));
    assert(exp2_lower_at(140) == 9670923528755647840u64 && exp2_upper_at(140) == 9670923528755647848u64);
    assert(exp2_upper_at(141) == 9674197214247006485u64);
    assert(exp2_entries_fit_below(141));
    assert(exp2_lower_at(141) == 9674197214247006474u64 && exp2_upper_at(141) == 9674197214247006485u64);
    assert(exp2_upper_at(142) == 9677472007907265897u64);
    assert(exp2_entries_fit_below(142));
    assert(exp2_lower_at(142) == 9677472007907265886u64 && exp2_upper_at(142) == 9677472007907265897u64);
    assert(exp2_upper_at(143) == 9680747910111550179u64);
    assert(exp2_entries_fit_below(143));
    assert(exp2_lower_at(143) == 9680747910111550164u64 && exp2_upper_at(143) == 9680747910111550179u64);
    assert(exp2_upper_at(144) == 9684024921235110406u64);
    assert(exp2_entries_fit_below(144));
    assert(exp2_lower_at(144) == 9684024921235110401u64 && exp2_upper_at(144) == 9684024921235110406u64);
    assert(exp2_upper_at(145) == 9687303041653324694u64);
    assert(exp2_entries_fit_below(145));
    assert(exp2_lower_at(145) == 9687303041653324686u64 && exp2_upper_at(145) == 9687303041653324694u64);
    assert(exp2_upper_at(146) == 9690582271741698208u64);
    assert(exp2_entries_fit_below(146));
    assert(exp2_lower_at(146) == 9690582271741698200u64 && exp2_upper_at(146) == 9690582271741698208u64);
    assert(exp2_upper_at(147) == 9693862611875863235u64);
    assert(exp2_entries_fit_below(147));
    assert(exp2_lower_at(147) == 9693862611875863224u64 && exp2_upper_at(147) == 9693862611875863235u64);
    assert(exp2_upper_at(148) == 9697144062431579214u64);
    assert(exp2_entries_fit_below(148));
    assert(exp2_lower_at(148) == 9697144062431579206u64 && exp2_upper_at(148) == 9697144062431579214u64);
    assert(exp2_upper_at(149) == 9700426623784732781u64);
    assert(exp2_entries_fit_below(149));
    assert(exp2_lower_at(149) == 9700426623784732770u64 && exp2_upper_at(149) == 9700426623784732781u64);
    assert(exp2_upper_at(150) == 9703710296311337816u64);
    assert(exp2_entries_fit_below(150));
    assert(exp2_lower_at(150) == 9703710296311337805u64 && exp2_upper_at(150) == 9703710296311337816u64);
    assert(exp2_upper_at(151) == 9706995080387535477u64);
    assert(exp2_entries_fit_below(151));
    assert(exp2_lower_at(151) == 9706995080387535462u64 && exp2_upper_at(151) == 9706995080387535477u64);
    assert(exp2_upper_at(152) == 9710280976389594253u64);
    assert(exp2_entries_fit_below(152));
    assert(exp2_lower_at(152) == 9710280976389594244u64 && exp2_upper_at(152) == 9710280976389594253u64);
    assert(exp2_upper_at(153) == 9713567984693910003u64);
    assert(exp2_entries_fit_below(153));
    assert(exp2_lower_at(153) == 9713567984693909992u64 && exp2_upper_at(153) == 9713567984693910003u64);
    assert(exp2_upper_at(154) == 9716856105677005999u64);
    assert(exp2_entries_fit_below(154));
    assert(exp2_lower_at(154) == 9716856105677005988u64 && exp2_upper_at(154) == 9716856105677005999u64);
    assert(exp2_upper_at(155) == 9720145339715532966u64);
    assert(exp2_entries_fit_below(155));
    assert(exp2_lower_at(155) == 9720145339715532951u64 && exp2_upper_at(155) == 9720145339715532966u64);
    assert(exp2_upper_at(156) == 9723435687186269130u64);
    assert(exp2_entries_fit_below(156));
    assert(exp2_lower_at(156) == 9723435687186269119u64 && exp2_upper_at(156) == 9723435687186269130u64);
    assert(exp2_upper_at(157) == 9726727148466120262u64);
    assert(exp2_entries_fit_below(157));
    assert(exp2_lower_at(157) == 9726727148466120246u64 && exp2_upper_at(157) == 9726727148466120262u64);
    assert(exp2_upper_at(158) == 9730019723932119716u64);
    assert(exp2_entries_fit_below(158));
    assert(exp2_lower_at(158) == 9730019723932119701u64 && exp2_upper_at(158) == 9730019723932119716u64);
    assert(exp2_upper_at(159) == 9733313413961428474u64);
    assert(exp2_entries_fit_below(159));
    assert(exp2_lower_at(159) == 9733313413961428455u64 && exp2_upper_at(159) == 9733313413961428474u64);
    assert(exp2_upper_at(160) == 9736608218931335187u64);
    assert(exp2_entries_fit_below(160));
    assert(exp2_lower_at(160) == 9736608218931335181u64 && exp2_upper_at(160) == 9736608218931335187u64);
    assert(exp2_upper_at(161) == 9739904139219256238u64);
    assert(exp2_entries_fit_below(161));
    assert(exp2_lower_at(161) == 9739904139219256229u64 && exp2_upper_at(161) == 9739904139219256238u64);
    assert(exp2_upper_at(162) == 9743201175202735748u64);
    assert(exp2_entries_fit_below(162));
    assert(exp2_lower_at(162) == 9743201175202735739u64 && exp2_upper_at(162) == 9743201175202735748u64);
    assert(exp2_upper_at(163) == 9746499327259445649u64);
    assert(exp2_entries_fit_below(163));
    assert(exp2_lower_at(163) == 9746499327259445638u64 && exp2_upper_at(163) == 9746499327259445649u64);
    assert(exp2_upper_at(164) == 9749798595767185717u64);
    assert(exp2_entries_fit_below(164));
    assert(exp2_lower_at(164) == 9749798595767185709u64 && exp2_upper_at(164) == 9749798595767185717u64);
    assert(exp2_upper_at(165) == 9753098981103883617u64);
    assert(exp2_entries_fit_below(165));
    assert(exp2_lower_at(165) == 9753098981103883606u64 && exp2_upper_at(165) == 9753098981103883617u64);
    assert(exp2_upper_at(166) == 9756400483647594944u64);
    assert(exp2_entries_fit_below(166));
    assert(exp2_lower_at(166) == 9756400483647594933u64 && exp2_upper_at(166) == 9756400483647594944u64);
    assert(exp2_upper_at(167) == 9759703103776503268u64);
    assert(exp2_entries_fit_below(167));
    assert(exp2_lower_at(167) == 9759703103776503254u64 && exp2_upper_at(167) == 9759703103776503268u64);
    assert(exp2_upper_at(168) == 9763006841868920177u64);
    assert(exp2_entries_fit_below(168));
    assert(exp2_lower_at(168) == 9763006841868920168u64 && exp2_upper_at(168) == 9763006841868920177u64);
    assert(exp2_upper_at(169) == 9766311698303285323u64);
    assert(exp2_entries_fit_below(169));
    assert(exp2_lower_at(169) == 9766311698303285312u64 && exp2_upper_at(169) == 9766311698303285323u64);
    assert(exp2_upper_at(170) == 9769617673458166463u64);
    assert(exp2_entries_fit_below(170));
    assert(exp2_lower_at(170) == 9769617673458166451u64 && exp2_upper_at(170) == 9769617673458166463u64);
    assert(exp2_upper_at(171) == 9772924767712259496u64);
    assert(exp2_entries_fit_below(171));
    assert(exp2_lower_at(171) == 9772924767712259480u64 && exp2_upper_at(171) == 9772924767712259496u64);
    assert(exp2_upper_at(172) == 9776232981444388518u64);
    assert(exp2_entries_fit_below(172));
    assert(exp2_lower_at(172) == 9776232981444388507u64 && exp2_upper_at(172) == 9776232981444388518u64);
    assert(exp2_upper_at(173) == 9779542315033505861u64);
    assert(exp2_entries_fit_below(173));
    assert(exp2_lower_at(173) == 9779542315033505846u64 && exp2_upper_at(173) == 9779542315033505861u64);
    assert(exp2_upper_at(174) == 9782852768858692132u64);
    assert(exp2_entries_fit_below(174));
    assert(exp2_lower_at(174) == 9782852768858692118u64 && exp2_upper_at(174) == 9782852768858692132u64);
    assert(exp2_upper_at(175) == 9786164343299156262u64);
    assert(exp2_entries_fit_below(175));
    assert(exp2_lower_at(175) == 9786164343299156244u64 && exp2_upper_at(175) == 9786164343299156262u64);
    assert(exp2_upper_at(176) == 9789477038734235541u64);
    assert(exp2_entries_fit_below(176));
    assert(exp2_lower_at(176) == 9789477038734235533u64 && exp2_upper_at(176) == 9789477038734235541u64);
    assert(exp2_upper_at(177) == 9792790855543395684u64);
    assert(exp2_entries_fit_below(177));
    assert(exp2_lower_at(177) == 9792790855543395672u64 && exp2_upper_at(177) == 9792790855543395684u64);
    assert(exp2_upper_at(178) == 9796105794106230841u64);
    assert(exp2_entries_fit_below(178));
    assert(exp2_lower_at(178) == 9796105794106230829u64 && exp2_upper_at(178) == 9796105794106230841u64);
    assert(exp2_upper_at(179) == 9799421854802463664u64);
    assert(exp2_entries_fit_below(179));
    assert(exp2_lower_at(179) == 9799421854802463649u64 && exp2_upper_at(179) == 9799421854802463664u64);
    assert(exp2_upper_at(180) == 9802739038011945345u64);
    assert(exp2_entries_fit_below(180));
    assert(exp2_lower_at(180) == 9802739038011945334u64 && exp2_upper_at(180) == 9802739038011945345u64);
    assert(exp2_upper_at(181) == 9806057344114655659u64);
    assert(exp2_entries_fit_below(181));
    assert(exp2_lower_at(181) == 9806057344114655644u64 && exp2_upper_at(181) == 9806057344114655659u64);
    assert(exp2_upper_at(182) == 9809376773490703006u64);
    assert(exp2_entries_fit_below(182));
    assert(exp2_lower_at(182) == 9809376773490702991u64 && exp2_upper_at(182) == 9809376773490703006u64);
    assert(exp2_upper_at(183) == 9812697326520324453u64);
    assert(exp2_entries_fit_below(183));
    assert(exp2_lower_at(183) == 9812697326520324435u64 && exp2_upper_at(183) == 9812697326520324453u64);
    assert(exp2_upper_at(184) == 9816019003583885786u64);
    assert(exp2_entries_fit_below(184));
    assert(exp2_lower_at(184) == 9816019003583885775u64 && exp2_upper_at(184) == 9816019003583885786u64);
    assert(exp2_upper_at(185) == 9819341805061881546u64);
    assert(exp2_entries_fit_below(185));
    assert(exp2_lower_at(185) == 9819341805061881531u64 && exp2_upper_at(185) == 9819341805061881546u64);
    assert(exp2_upper_at(186) == 9822665731334935073u64);
    assert(exp2_entries_fit_below(186));
    assert(exp2_lower_at(186) == 9822665731334935058u64 && exp2_upper_at(186) == 9822665731334935073u64);
    assert(exp2_upper_at(187) == 9825990782783798549u64);
    assert(exp2_entries_fit_below(187));
    assert(exp2_lower_at(187) == 9825990782783798532u64 && exp2_upper_at(187) == 9825990782783798549u64);
    assert(exp2_upper_at(188) == 9829316959789353049u64);
    assert(exp2_entries_fit_below(188));
    assert(exp2_lower_at(188) == 9829316959789353034u64 && exp2_upper_at(188) == 9829316959789353049u64);
    assert(exp2_upper_at(189) == 9832644262732608576u64);
    assert(exp2_entries_fit_below(189));
    assert(exp2_lower_at(189) == 9832644262732608557u64 && exp2_upper_at(189) == 9832644262732608576u64);
    assert(exp2_upper_at(190) == 9835972691994704109u64);
    assert(exp2_entries_fit_below(190));
    assert(exp2_lower_at(190) == 9835972691994704091u64 && exp2_upper_at(190) == 9835972691994704109u64);
    assert(exp2_upper_at(191) == 9839302247956907643u64);
    assert(exp2_entries_fit_below(191));
    assert(exp2_lower_at(191) == 9839302247956907622u64 && exp2_upper_at(191) == 9839302247956907643u64);
    assert(exp2_upper_at(192) == 9842632931000616234u64);
    assert(exp2_entries_fit_below(192));
    assert(exp2_lower_at(192) == 9842632931000616229u64 && exp2_upper_at(192) == 9842632931000616234u64);
    assert(exp2_upper_at(193) == 9845964741507356059u64);
    assert(exp2_entries_fit_below(193));
    assert(exp2_lower_at(193) == 9845964741507356051u64 && exp2_upper_at(193) == 9845964741507356059u64);
    assert(exp2_upper_at(194) == 9849297679858782428u64);
    assert(exp2_entries_fit_below(194));
    assert(exp2_lower_at(194) == 9849297679858782420u64 && exp2_upper_at(194) == 9849297679858782428u64);
    assert(exp2_upper_at(195) == 9852631746436679848u64);
    assert(exp2_entries_fit_below(195));
    assert(exp2_lower_at(195) == 9852631746436679836u64 && exp2_upper_at(195) == 9852631746436679848u64);
    assert(exp2_upper_at(196) == 9855966941622962064u64);
    assert(exp2_entries_fit_below(196));
    assert(exp2_lower_at(196) == 9855966941622962056u64 && exp2_upper_at(196) == 9855966941622962064u64);
    assert(exp2_upper_at(197) == 9859303265799672105u64);
    assert(exp2_entries_fit_below(197));
    assert(exp2_lower_at(197) == 9859303265799672094u64 && exp2_upper_at(197) == 9859303265799672105u64);
    assert(exp2_upper_at(198) == 9862640719348982323u64);
    assert(exp2_entries_fit_below(198));
    assert(exp2_lower_at(198) == 9862640719348982311u64 && exp2_upper_at(198) == 9862640719348982323u64);
    assert(exp2_upper_at(199) == 9865979302653194432u64);
    assert(exp2_entries_fit_below(199));
    assert(exp2_lower_at(199) == 9865979302653194418u64 && exp2_upper_at(199) == 9865979302653194432u64);
    assert(exp2_upper_at(200) == 9869319016094739568u64);
    assert(exp2_entries_fit_below(200));
    assert(exp2_lower_at(200) == 9869319016094739559u64 && exp2_upper_at(200) == 9869319016094739568u64);
    assert(exp2_upper_at(201) == 9872659860056178320u64);
    assert(exp2_entries_fit_below(201));
    assert(exp2_lower_at(201) == 9872659860056178308u64 && exp2_upper_at(201) == 9872659860056178320u64);
    assert(exp2_upper_at(202) == 9876001834920200774u64);
    assert(exp2_entries_fit_below(202));
    assert(exp2_lower_at(202) == 9876001834920200763u64 && exp2_upper_at(202) == 9876001834920200774u64);
    assert(exp2_upper_at(203) == 9879344941069626562u64);
    assert(exp2_entries_fit_below(203));
    assert(exp2_lower_at(203) == 9879344941069626546u64 && exp2_upper_at(203) == 9879344941069626562u64);
    assert(exp2_upper_at(204) == 9882689178887404901u64);
    assert(exp2_entries_fit_below(204));
    assert(exp2_lower_at(204) == 9882689178887404889u64 && exp2_upper_at(204) == 9882689178887404901u64);
    assert(exp2_upper_at(205) == 9886034548756614642u64);
    assert(exp2_entries_fit_below(205));
    assert(exp2_lower_at(205) == 9886034548756614628u64 && exp2_upper_at(205) == 9886034548756614642u64);
    assert(exp2_upper_at(206) == 9889381051060464313u64);
    assert(exp2_entries_fit_below(206));
    assert(exp2_lower_at(206) == 9889381051060464299u64 && exp2_upper_at(206) == 9889381051060464313u64);
    assert(exp2_upper_at(207) == 9892728686182292157u64);
    assert(exp2_entries_fit_below(207));
    assert(exp2_lower_at(207) == 9892728686182292139u64 && exp2_upper_at(207) == 9892728686182292157u64);
    assert(exp2_upper_at(208) == 9896077454505566177u64);
    assert(exp2_entries_fit_below(208));
    assert(exp2_lower_at(208) == 9896077454505566168u64 && exp2_upper_at(208) == 9896077454505566177u64);
    assert(exp2_upper_at(209) == 9899427356413884197u64);
    assert(exp2_entries_fit_below(209));
    assert(exp2_lower_at(209) == 9899427356413884186u64 && exp2_upper_at(209) == 9899427356413884197u64);
    assert(exp2_upper_at(210) == 9902778392290973878u64);
    assert(exp2_entries_fit_below(210));
    assert(exp2_lower_at(210) == 9902778392290973867u64 && exp2_upper_at(210) == 9902778392290973878u64);
    assert(exp2_upper_at(211) == 9906130562520692783u64);
    assert(exp2_entries_fit_below(211));
    assert(exp2_lower_at(211) == 9906130562520692768u64 && exp2_upper_at(211) == 9906130562520692783u64);
    assert(exp2_upper_at(212) == 9909483867487028408u64);
    assert(exp2_entries_fit_below(212));
    assert(exp2_lower_at(212) == 9909483867487028397u64 && exp2_upper_at(212) == 9909483867487028408u64);
    assert(exp2_upper_at(213) == 9912838307574098237u64);
    assert(exp2_entries_fit_below(213));
    assert(exp2_lower_at(213) == 9912838307574098222u64 && exp2_upper_at(213) == 9912838307574098237u64);
    assert(exp2_upper_at(214) == 9916193883166149782u64);
    assert(exp2_entries_fit_below(214));
    assert(exp2_lower_at(214) == 9916193883166149767u64 && exp2_upper_at(214) == 9916193883166149782u64);
    assert(exp2_upper_at(215) == 9919550594647560617u64);
    assert(exp2_entries_fit_below(215));
    assert(exp2_lower_at(215) == 9919550594647560599u64 && exp2_upper_at(215) == 9919550594647560617u64);
    assert(exp2_upper_at(216) == 9922908442402838441u64);
    assert(exp2_entries_fit_below(216));
    assert(exp2_lower_at(216) == 9922908442402838430u64 && exp2_upper_at(216) == 9922908442402838441u64);
    assert(exp2_upper_at(217) == 9926267426816621110u64);
    assert(exp2_entries_fit_below(217));
    assert(exp2_lower_at(217) == 9926267426816621096u64 && exp2_upper_at(217) == 9926267426816621110u64);
    assert(exp2_upper_at(218) == 9929627548273676679u64);
    assert(exp2_entries_fit_below(218));
    assert(exp2_lower_at(218) == 9929627548273676665u64 && exp2_upper_at(218) == 9929627548273676679u64);
    assert(exp2_upper_at(219) == 9932988807158903452u64);
    assert(exp2_entries_fit_below(219));
    assert(exp2_lower_at(219) == 9932988807158903434u64 && exp2_upper_at(219) == 9932988807158903452u64);
    assert(exp2_upper_at(220) == 9936351203857330023u64);
    assert(exp2_entries_fit_below(220));
    assert(exp2_lower_at(220) == 9936351203857330008u64 && exp2_upper_at(220) == 9936351203857330023u64);
    assert(exp2_upper_at(221) == 9939714738754115324u64);
    assert(exp2_entries_fit_below(221));
    assert(exp2_lower_at(221) == 9939714738754115306u64 && exp2_upper_at(221) == 9939714738754115324u64);
    assert(exp2_upper_at(222) == 9943079412234548666u64);
    assert(exp2_entries_fit_below(222));
    assert(exp2_lower_at(222) == 9943079412234548647u64 && exp2_upper_at(222) == 9943079412234548666u64);
    assert(exp2_upper_at(223) == 9946445224684049780u64);
    assert(exp2_entries_fit_below(223));
    assert(exp2_lower_at(223) == 9946445224684049757u64 && exp2_upper_at(223) == 9946445224684049780u64);
    assert(exp2_upper_at(224) == 9949812176488168862u64);
    assert(exp2_entries_fit_below(224));
    assert(exp2_lower_at(224) == 9949812176488168853u64 && exp2_upper_at(224) == 9949812176488168862u64);
    assert(exp2_upper_at(225) == 9953180268032586639u64);
    assert(exp2_entries_fit_below(225));
    assert(exp2_lower_at(225) == 9953180268032586627u64 && exp2_upper_at(225) == 9953180268032586639u64);
    assert(exp2_upper_at(226) == 9956549499703114372u64);
    assert(exp2_entries_fit_below(226));
    assert(exp2_lower_at(226) == 9956549499703114361u64 && exp2_upper_at(226) == 9956549499703114372u64);
    assert(exp2_upper_at(227) == 9959919871885693931u64);
    assert(exp2_entries_fit_below(227));
    assert(exp2_lower_at(227) == 9959919871885693916u64 && exp2_upper_at(227) == 9959919871885693931u64);
    assert(exp2_upper_at(228) == 9963291384966397829u64);
    assert(exp2_entries_fit_below(228));
    assert(exp2_lower_at(228) == 9963291384966397816u64 && exp2_upper_at(228) == 9963291384966397829u64);
    assert(exp2_upper_at(229) == 9966664039331429270u64);
    assert(exp2_entries_fit_below(229));
    assert(exp2_lower_at(229) == 9966664039331429254u64 && exp2_upper_at(229) == 9966664039331429270u64);
    assert(exp2_upper_at(230) == 9970037835367122188u64);
    assert(exp2_entries_fit_below(230));
    assert(exp2_lower_at(230) == 9970037835367122173u64 && exp2_upper_at(230) == 9970037835367122188u64);
    assert(exp2_upper_at(231) == 9973412773459941295u64);
    assert(exp2_entries_fit_below(231));
    assert(exp2_lower_at(231) == 9973412773459941277u64 && exp2_upper_at(231) == 9973412773459941295u64);
    assert(exp2_upper_at(232) == 9976788853996482125u64);
    assert(exp2_entries_fit_below(232));
    assert(exp2_lower_at(232) == 9976788853996482113u64 && exp2_upper_at(232) == 9976788853996482125u64);
    assert(exp2_upper_at(233) == 9980166077363471079u64);
    assert(exp2_entries_fit_below(233));
    assert(exp2_lower_at(233) == 9980166077363471064u64 && exp2_upper_at(233) == 9980166077363471079u64);
    assert(exp2_upper_at(234) == 9983544443947765467u64);
    assert(exp2_entries_fit_below(234));
    assert(exp2_lower_at(234) == 9983544443947765452u64 && exp2_upper_at(234) == 9983544443947765467u64);
    assert(exp2_upper_at(235) == 9986923954136353551u64);
    assert(exp2_entries_fit_below(235));
    assert(exp2_lower_at(235) == 9986923954136353531u64 && exp2_upper_at(235) == 9986923954136353551u64);
    assert(exp2_upper_at(236) == 9990304608316354593u64);
    assert(exp2_entries_fit_below(236));
    assert(exp2_lower_at(236) == 9990304608316354577u64 && exp2_upper_at(236) == 9990304608316354593u64);
    assert(exp2_upper_at(237) == 9993686406875018898u64);
    assert(exp2_entries_fit_below(237));
    assert(exp2_lower_at(237) == 9993686406875018881u64 && exp2_upper_at(237) == 9993686406875018898u64);
    assert(exp2_upper_at(238) == 9997069350199727863u64);
    assert(exp2_entries_fit_below(238));
    assert(exp2_lower_at(238) == 9997069350199727846u64 && exp2_upper_at(238) == 9997069350199727863u64);
    assert(exp2_upper_at(239) == 10000453438677994009u64);
    assert(exp2_entries_fit_below(239));
    assert(exp2_lower_at(239) == 10000453438677993988u64 && exp2_upper_at(239) == 10000453438677994009u64);
    assert(exp2_upper_at(240) == 10003838672697461033u64);
    assert(exp2_entries_fit_below(240));
    assert(exp2_lower_at(240) == 10003838672697461021u64 && exp2_upper_at(240) == 10003838672697461033u64);
    assert(exp2_upper_at(241) == 10007225052645903865u64);
    assert(exp2_entries_fit_below(241));
    assert(exp2_lower_at(241) == 10007225052645903851u64 && exp2_upper_at(241) == 10007225052645903865u64);
    assert(exp2_upper_at(242) == 10010612578911228688u64);
    assert(exp2_entries_fit_below(242));
    assert(exp2_lower_at(242) == 10010612578911228673u64 && exp2_upper_at(242) == 10010612578911228688u64);
    assert(exp2_upper_at(243) == 10014001251881472996u64);
    assert(exp2_entries_fit_below(243));
    assert(exp2_lower_at(243) == 10014001251881472977u64 && exp2_upper_at(243) == 10014001251881472996u64);
    assert(exp2_upper_at(244) == 10017391071944805637u64);
    assert(exp2_entries_fit_below(244));
    assert(exp2_lower_at(244) == 10017391071944805622u64 && exp2_upper_at(244) == 10017391071944805637u64);
    assert(exp2_upper_at(245) == 10020782039489526860u64);
    assert(exp2_entries_fit_below(245));
    assert(exp2_lower_at(245) == 10020782039489526843u64 && exp2_upper_at(245) == 10020782039489526860u64);
    assert(exp2_upper_at(246) == 10024174154904068358u64);
    assert(exp2_entries_fit_below(246));
    assert(exp2_lower_at(246) == 10024174154904068340u64 && exp2_upper_at(246) == 10024174154904068358u64);
    assert(exp2_upper_at(247) == 10027567418576993304u64);
    assert(exp2_entries_fit_below(247));
    assert(exp2_lower_at(247) == 10027567418576993283u64 && exp2_upper_at(247) == 10027567418576993304u64);
    assert(exp2_upper_at(248) == 10030961830896996409u64);
    assert(exp2_entries_fit_below(248));
    assert(exp2_lower_at(248) == 10030961830896996394u64 && exp2_upper_at(248) == 10030961830896996409u64);
    assert(exp2_upper_at(249) == 10034357392252903961u64);
    assert(exp2_entries_fit_below(249));
    assert(exp2_lower_at(249) == 10034357392252903942u64 && exp2_upper_at(249) == 10034357392252903961u64);
    assert(exp2_upper_at(250) == 10037754103033673864u64);
    assert(exp2_entries_fit_below(250));
    assert(exp2_lower_at(250) == 10037754103033673847u64 && exp2_upper_at(250) == 10037754103033673864u64);
    assert(exp2_upper_at(251) == 10041151963628395691u64);
    assert(exp2_entries_fit_below(251));
    assert(exp2_lower_at(251) == 10041151963628395669u64 && exp2_upper_at(251) == 10041151963628395691u64);
    assert(exp2_upper_at(252) == 10044550974426290722u64);
    assert(exp2_entries_fit_below(252));
    assert(exp2_lower_at(252) == 10044550974426290703u64 && exp2_upper_at(252) == 10044550974426290722u64);
    assert(exp2_upper_at(253) == 10047951135816711995u64);
    assert(exp2_entries_fit_below(253));
    assert(exp2_lower_at(253) == 10047951135816711972u64 && exp2_upper_at(253) == 10047951135816711995u64);
    assert(exp2_upper_at(254) == 10051352448189144345u64);
    assert(exp2_entries_fit_below(254));
    assert(exp2_lower_at(254) == 10051352448189144324u64 && exp2_upper_at(254) == 10051352448189144345u64);
    assert(exp2_upper_at(255) == 10054754911933204452u64);
    assert(exp2_entries_fit_below(255));
    assert(exp2_lower_at(255) == 10054754911933204427u64 && exp2_upper_at(255) == 10054754911933204452u64);
    assert(exp2_upper_at(256) == 10058158527438640872u64);
    assert(exp2_entries_fit_below(256));
}

/// Entries 256 to 511 fit.
proof fn lemma_exp2_page_1()
    requires
        exp2_entries_fit_below(256),
    ensures
        exp2_entries_fit_below(512),
{
    reveal(exp2_lower_at);
    reveal(exp2_upper_at);
    assert(exp2_lower_at(256) == 10058158527438640870u64 && exp2_upper_at(256) == 10058158527438640872u64);
    assert(exp2_upper_at(257) == 10061563295095334128u64);
    assert(exp2_entries_fit_below(257));
    assert(exp2_lower_at(257) == 10061563295095334122u64 && exp2_upper_at(257) == 10061563295095334128u64);
    assert(exp2_upper_at(258) == 10064969215293296686u64);
    assert(exp2_entries_fit_below(258));
    assert(exp2_lower_at(258) == 10064969215293296681u64 && exp2_upper_at(258) == 10064969215293296686u64);
    assert(exp2_upper_at(259) == 10068376288422673048u64);
    assert(exp2_entries_fit_below(259));
    assert(exp2_lower_at(259) == 10068376288422673039u64 && exp2_upper_at(259) == 10068376288422673048u64);
    assert(exp2_upper_at(260) == 10071784514873739780u64);
    assert(exp2_entries_fit_below(260));
    assert(exp2_lower_at(260) == 10071784514873739775u64 && exp2_upper_at(260) == 10071784514873739780u64);
    assert(exp2_upper_at(261) == 10075193895036905564u64);
    assert(exp2_entries_fit_below(261));
    assert(exp2_lower_at(261) == 10075193895036905556u64 && exp2_upper_at(261) == 10075193895036905564u64);
    assert(exp2_upper_at(262) == 10078604429302711236u64);
    assert(exp2_entries_fit_below(262));
    assert(exp2_lower_at(262) == 10078604429302711228u64 && exp2_upper_at(262) == 10078604429302711236u64);
    assert(exp2_upper_at(263) == 10082016118061829831u64);
    assert(exp2_entries_fit_below(263));
    assert(exp2_lower_at(263) == 10082016118061829819u64 && exp2_upper_at(263) == 10082016118061829831u64);
    assert(exp2_upper_at(264) == 10085428961705066632u64);
    assert(exp2_entries_fit_below(264));
    assert(exp2_lower_at(264) == 10085428961705066627u64 && exp2_upper_at(264) == 10085428961705066632u64);
    assert(exp2_upper_at(265) == 10088842960623359217u64);
    assert(exp2_entries_fit_below(265));
    assert(exp2_lower_at(265) == 10088842960623359208u64 && exp2_upper_at(265) == 10088842960623359217u64);
    assert(exp2_upper_at(266) == 10092258115207777492u64);
    assert(exp2_entries_fit_below(266));
    assert(exp2_lower_at(266) == 10092258115207777483u64 && exp2_upper_at(266) == 10092258115207777492u64);
    assert(exp2_upper_at(267) == 10095674425849523747u64);
    assert(exp2_entries_fit_below(267));
    assert(exp2_lower_at(267) == 10095674425849523735u64 && exp2_upper_at(267) == 10095674425849523747u64);
    assert(exp2_upper_at(268) == 10099091892939932697u64);
    assert(exp2_entries_fit_below(268));
    assert(exp2_lower_at(268) == 10099091892939932688u64 && exp2_upper_at(268) == 10099091892939932697u64);
    assert(exp2_upper_at(269) == 10102510516870471528u64);
    assert(exp2_entries_fit_below(269));
    assert(exp2_lower_at(269) == 10102510516870471516u64 && exp2_upper_at(269) == 10102510516870471528u64);
    assert(exp2_upper_at(270) == 10105930298032739939u64);
    assert(exp2_entries_fit_below(270));
    assert(exp2_lower_at(270) == 10105930298032739927u64 && exp2_upper_at(270) == 10105930298032739939u64);
    assert(exp2_upper_at(271) == 10109351236818470188u64);
    assert(exp2_entries_fit_below(271));
    assert(exp2_lower_at(271) == 10109351236818470173u64 && exp2_upper_at(271) == 10109351236818470188u64);
    assert(exp2_upper_at(272) == 10112773333619527136u64);
    assert(exp2_entries_fit_below(272));
    assert(exp2_lower_at(272) == 10112773333619527131u64 && exp2_upper_at(272) == 10112773333619527136u64);
    assert(exp2_upper_at(273) == 10116196588827908306u64);
    assert(exp2_entries_fit_below(273));
    assert(exp2_lower_at(273) == 10116196588827908298u64 && exp2_upper_at(273) == 10116196588827908306u64);
    assert(exp2_upper_at(274) == 10119621002835743899u64);
    assert(exp2_entries_fit_below(274));
    assert(exp2_lower_at(274) == 10119621002835743890u64 && exp2_upper_at(274) == 10119621002835743899u64);
    assert(exp2_upper_at(275) == 10123046576035296861u64);
    assert(exp2_entries_fit_below(275));
    assert(exp2_lower_at(275) == 10123046576035296850u64 && exp2_upper_at(275) == 10123046576035296861u64);
    assert(exp2_upper_at(276) == 10126473308818962926u64);
    assert(exp2_entries_fit_below(276));
    assert(exp2_lower_at(276) == 10126473308818962917u64 && exp2_upper_at(276) == 10126473308818962926u64);
    assert(exp2_upper_at(277) == 10129901201579270651u64);
    assert(exp2_entries_fit_below(277));
    assert(exp2_lower_at(277) == 10129901201579270639u64 && exp2_upper_at(277) == 10129901201579270651u64);
    assert(exp2_upper_at(278) == 10133330254708881474u64);
    assert(exp2_entries_fit_below(278));
    assert(exp2_lower_at(278) == 10133330254708881462u64 && exp2_upper_at(278) == 10133330254708881474u64);
    assert(exp2_upper_at(279) == 10136760468600589743u64);
    assert(exp2_entries_fit_below(279));
    assert(exp2_lower_at(279) == 10136760468600589728u64 && exp2_upper_at(279) == 10136760468600589743u64);
    assert(exp2_upper_at(280) == 10140191843647322778u64);
    assert(exp2_entries_fit_below(280));
    assert(exp2_lower_at(280) == 10140191843647322770u64 && exp2_upper_at(280) == 10140191843647322778u64);
    assert(exp2_upper_at(281) == 10143624380242140906u64);
    assert(exp2_entries_fit_below(281));
    assert(exp2_lower_at(281) == 10143624380242140895u64 && exp2_upper_at(281) == 10143624380242140906u64);
    assert(exp2_upper_at(282) == 10147058078778237509u64);
    assert(exp2_entries_fit_below(282));
    assert(exp2_lower_at(282) == 10147058078778237497u64 && exp2_upper_at(282) == 10147058078778237509u64);
    assert(exp2_upper_at(283) == 10150492939648939062u64);
    assert(exp2_entries_fit_below(283));
    assert(exp2_lower_at(283) == 10150492939648939047u64 && exp2_upper_at(283) == 10150492939648939062u64);
    assert(exp2_upper_at(284) == 10153928963247705191u64);
    assert(exp2_entries_fit_below(284));
    assert(exp2_lower_at(284) == 10153928963247705179u64 && exp2_upper_at(284) == 10153928963247705191u64);
    assert(exp2_upper_at(285) == 10157366149968128709u64);
    assert(exp2_entries_fit_below(285));
    assert(exp2_lower_at(285) == 10157366149968128693u64 && exp2_upper_at(285) == 10157366149968128709u64);
    assert(exp2_upper_at(286) == 10160804500203935663u64);
    assert(exp2_entries_fit_below(286));
    assert(exp2_lower_at(286) == 10160804500203935648u64 && exp2_upper_at(286) == 10160804500203935663u64);
    assert(exp2_upper_at(287) == 10164244014348985380u64);
    assert(exp2_entries_fit_below(287));
    assert(exp2_lower_at(287) == 10164244014348985360u64 && exp2_upper_at(287) == 10164244014348985380u64);
    assert(exp2_upper_at(288) == 10167684692797270504u64);
    assert(exp2_entries_fit_below(288));
    assert(exp2_lower_at(288) == 10167684692797270499u64 && exp2_upper_at(288) == 10167684692797270504u64);
    assert(exp2_upper_at(289) == 10171126535942917071u64);
    assert(exp2_entries_fit_below(289));
    assert(exp2_lower_at(289) == 10171126535942917062u64 && exp2_upper_at(289) == 10171126535942917071u64);
    assert(exp2_upper_at(290) == 10174569544180184507u64);
    assert(exp2_entries_fit_below(290));
    assert(exp2_lower_at(290) == 10174569544180184498u64 && exp2_upper_at(290) == 10174569544180184507u64);
    assert(exp2_upper_at(291) == 10178013717903465710u64);
    assert(exp2_entries_fit_below(291));
    assert(exp2_lower_at(291) == 10178013717903465699u64 && exp2_upper_at(291) == 10178013717903465710u64);
    assert(exp2_upper_at(292) == 10181459057507287080u64);
    assert(exp2_entries_fit_below(292));
    assert(exp2_lower_at(292) == 10181459057507287071u64 && exp2_upper_at(292) == 10181459057507287080u64);
    assert(exp2_upper_at(293) == 10184905563386308570u64);
    assert(exp2_entries_fit_below(293));
    assert(exp2_lower_at(293) == 10184905563386308558u64 && exp2_upper_at(293) == 10184905563386308570u64);
    assert(exp2_upper_at(294) == 10188353235935323726u64);
    assert(exp2_entries_fit_below(294));
    assert(exp2_lower_at(294) == 10188353235935323714u64 && exp2_upper_at(294) == 10188353235935323726u64);
    assert(exp2_upper_at(295) == 10191802075549259734u64);
    assert(exp2_entries_fit_below(295));
    assert(exp2_lower_at(295) == 10191802075549259719u64 && exp2_upper_at(295) == 10191802075549259734u64);
    assert(exp2_upper_at(296) == 10195252082623177468u64);
    assert(exp2_entries_fit_below(296));
    assert(exp2_lower_at(296) == 10195252082623177460u64 && exp2_upper_at(296) == 10195252082623177468u64);
    assert(exp2_upper_at(297) == 10198703257552271536u64);
    assert(exp2_entries_fit_below(297));
    assert(exp2_lower_at(297) == 10198703257552271524u64 && exp2_upper_at(297) == 10198703257552271536u64);
    assert(exp2_upper_at(298) == 10202155600731870319u64);
    assert(exp2_entries_fit_below(298));
    assert(exp2_lower_at(298) == 10202155600731870307u64 && exp2_upper_at(298) == 10202155600731870319u64);
    assert(exp2_upper_at(299) == 10205609112557436017u64);
    assert(exp2_entries_fit_below(299));
    assert(exp2_lower_at(299) == 10205609112557436001u64 && exp2_upper_at(299) == 10205609112557436017u64);
    assert(exp2_upper_at(300) == 10209063793424564703u64);
    assert(exp2_entries_fit_below(300));
    assert(exp2_lower_at(300) == 10209063793424564691u64 && exp2_upper_at(300) == 10209063793424564703u64);
    assert(exp2_upper_at(301) == 10212519643728986359u64);
    assert(exp2_entries_fit_below(301));
    assert(exp2_lower_at(301) == 10212519643728986344u64 && exp2_upper_at(301) == 10212519643728986359u64);
    assert(exp2_upper_at(302) == 10215976663866564928u64);
    assert(exp2_entries_fit_below(302));
    assert(exp2_lower_at(302) == 10215976663866564913u64 && exp2_upper_at(302) == 10215976663866564928u64);
    assert(exp2_upper_at(303) == 10219434854233298351u64);
    assert(exp2_entries_fit_below(303));
    assert(exp2_lower_at(303) == 10219434854233298333u64 && exp2_upper_at(303) == 10219434854233298351u64);
    assert(exp2_upper_at(304) == 10222894215225318617u64);
    assert(exp2_entries_fit_below(304));
    assert(exp2_lower_at(304) == 10222894215225318608u64 && exp2_upper_at(304) == 10222894215225318617u64);
    assert(exp2_upper_at(305) == 10226354747238891822u64);
    assert(exp2_entries_fit_below(305));
    assert(exp2_lower_at(305) == 10226354747238891811u64 && exp2_upper_at(305) == 10226354747238891822u64);
    assert(exp2_upper_at(306) == 10229816450670418187u64);
    assert(exp2_entries_fit_below(306));
    assert(exp2_lower_at(306) == 10229816450670418175u64 && exp2_upper_at(306) == 10229816450670418187u64);
    assert(exp2_upper_at(307) == 10233279325916432121u64);
    assert(exp2_entries_fit_below(307));
    assert(exp2_lower_at(307) == 10233279325916432106u64 && exp2_upper_at(307) == 10233279325916432121u64);
    assert(exp2_upper_at(308) == 10236743373373602265u64);
    assert(exp2_entries_fit_below(308));
    assert(exp2_lower_at(308) == 10236743373373602253u64 && exp2_upper_at(308) == 10236743373373602265u64);
    assert(exp2_upper_at(309) == 10240208593438731534u64);
    assert(exp2_entries_fit_below(309));
    assert(exp2_lower_at(309) == 10240208593438731519u64 && exp2_upper_at(309) == 10240208593438731534u64);
    assert(exp2_upper_at(310) == 10243674986508757167u64);
    assert(exp2_entries_fit_below(310));
    assert(exp2_lower_at(310) == 10243674986508757152u64 && exp2_upper_at(310) == 10243674986508757167u64);
    assert(exp2_upper_at(311) == 10247142552980750765u64);
    assert(exp2_entries_fit_below(311));
    assert(exp2_lower_at(311) == 10247142552980750746u64 && exp2_upper_at(311) == 10247142552980750765u64);
    assert(exp2_upper_at(312) == 10250611293251918343u64);
    assert(exp2_entries_fit_below(312));
    assert(exp2_lower_at(312) == 10250611293251918331u64 && exp2_upper_at(312) == 10250611293251918343u64);
    assert(exp2_upper_at(313) == 10254081207719600376u64);
    assert(exp2_entries_fit_below(313));
    assert(exp2_lower_at(313) == 10254081207719600361u64 && exp2_upper_at(313) == 10254081207719600376u64);
    assert(exp2_upper_at(314) == 10257552296781271839u64);
    assert(exp2_entries_fit_below(314));
    assert(exp2_lower_at(314) == 10257552296781271824u64 && exp2_upper_at(314) == 10257552296781271839u64);
    assert(exp2_upper_at(315) == 10261024560834542255u64);
    assert(exp2_entries_fit_below(315));
    assert(exp2_lower_at(315) == 10261024560834542236u64 && exp2_upper_at(315) == 10261024560834542255u64);
    assert(exp2_upper_at(316) == 10264498000277155741u64);
    assert(exp2_entries_fit_below(316));
    assert(exp2_lower_at(316) == 10264498000277155725u64 && exp2_upper_at(316) == 10264498000277155741u64);
    assert(exp2_upper_at(317) == 10267972615506991057u64);
    assert(exp2_entries_fit_below(317));
    assert(exp2_lower_at(317) == 10267972615506991037u64 && exp2_upper_at(317) == 10267972615506991057u64);
    assert(exp2_upper_at(318) == 10271448406922061645u64);
    assert(exp2_entries_fit_below(318));
    assert(exp2_lower_at(318) == 10271448406922061626u64 && exp2_upper_at(318) == 10271448406922061645u64);
    assert(exp2_upper_at(319) == 10274925374920515677u64);
    assert(exp2_entries_fit_below(319));
    assert(exp2_lower_at(319) == 10274925374920515655u64 && exp2_upper_at(319) == 10274925374920515677u64);
    assert(exp2_upper_at(320) == 10278403519900636099u64);
    assert(exp2_entries_fit_below(320));
    assert(exp2_lower_at(320) == 10278403519900636093u64 && exp2_upper_at(320) == 10278403519900636099u64);
    assert(exp2_upper_at(321) == 10281882842260840695u64);
    assert(exp2_entries_fit_below(321));
    assert(exp2_lower_at(321) == 10281882842260840686u64 && exp2_upper_at(321) == 10281882842260840695u64);
    assert(exp2_upper_at(322) == 10285363342399682097u64);
    assert(exp2_entries_fit_below(322));
    assert(exp2_lower_at(322) == 10285363342399682089u64 && exp2_upper_at(322) == 10285363342399682097u64);
    assert(exp2_upper_at(323) == 10288845020715847860u64);
    assert(exp2_entries_fit_below(323));
    assert(exp2_lower_at(323) == 10288845020715847848u64 && exp2_upper_at(323) == 10288845020715847860u64);
    assert(exp2_upper_at(324) == 10292327877608160493u64);
    assert(exp2_entries_fit_below(324));
    assert(exp2_lower_at(324) == 10292327877608160485u64 && exp2_upper_at(324) == 10292327877608160493u64);
    assert(exp2_upper_at(325) == 10295811913475577515u64);
    assert(exp2_entries_fit_below(325));
    assert(exp2_lower_at(325) == 10295811913475577504u64 && exp2_upper_at(325) == 10295811913475577515u64);
    assert(exp2_upper_at(326) == 10299297128717191493u64);
    assert(exp2_entries_fit_below(326));
    assert(exp2_lower_at(326) == 10299297128717191482u64 && exp2_upper_at(326) == 10299297128717191493u64);
    assert(exp2_upper_at(327) == 10302783523732230086u64);
    assert(exp2_entries_fit_below(327));
    assert(exp2_lower_at(327) == 10302783523732230071u64 && exp2_upper_at(327) == 10302783523732230086u64);
    assert(exp2_upper_at(328) == 10306271098920056100u64);
    assert(exp2_entries_fit_below(328));
    assert(exp2_lower_at(328) == 10306271098920056092u64 && exp2_upper_at(328) == 10306271098920056100u64);
    assert(exp2_upper_at(329) == 10309759854680167531u64);
    assert(exp2_entries_fit_below(329));
    assert(exp2_lower_at(329) == 10309759854680167519u64 && exp2_upper_at(329) == 10309759854680167531u64);
    assert(exp2_upper_at(330) == 10313249791412197602u64);
    assert(exp2_entries_fit_below(330));
    assert(exp2_lower_at(330) == 10313249791412197590u64 && exp2_upper_at(330) == 10313249791412197602u64);
    assert(exp2_upper_at(331) == 10316740909515914816u64);
    assert(exp2_entries_fit_below(331));
    assert(exp2_lower_at(331) == 10316740909515914800u64 && exp2_upper_at(331) == 10316740909515914816u64);
    assert(exp2_upper_at(332) == 10320233209391223002u64);
    assert(exp2_entries_fit_below(332));
    assert(exp2_lower_at(332) == 10320233209391222990u64 && exp2_upper_at(332) == 10320233209391223002u64);
    assert(exp2_upper_at(333) == 10323726691438161362u64);
    assert(exp2_entries_fit_below(333));
    assert(exp2_lower_at(333) == 10323726691438161347u64 && exp2_upper_at(333) == 10323726691438161362u64);
    assert(exp2_upper_at(334) == 10327221356056904512u64);
    assert(exp2_entries_fit_below(334));
    assert(exp2_lower_at(334) == 10327221356056904497u64 && exp2_upper_at(334) == 10327221356056904512u64);
    assert(exp2_upper_at(335) == 10330717203647762531u64);
    assert(exp2_entries_fit_below(335));
    assert(exp2_lower_at(335) == 10330717203647762512u64 && exp2_upper_at(335) == 10330717203647762531u64);
    assert(exp2_upper_at(336) == 10334214234611181000u64);
    assert(exp2_entries_fit_below(336));
    assert(exp2_lower_at(336) == 10334214234611180991u64 && exp2_upper_at(336) == 10334214234611181000u64);
    assert(exp2_upper_at(337) == 10337712449347741071u64);
    assert(exp2_entries_fit_below(337));
    assert(exp2_lower_at(337) == 10337712449347741059u64 && exp2_upper_at(337) == 10337712449347741071u64);
    assert(exp2_upper_at(338) == 10341211848258159479u64);
    assert(exp2_entries_fit_below(338));
    assert(exp2_lower_at(338) == 10341211848258159467u64 && exp2_upper_at(338) == 10341211848258159479u64);
    assert(exp2_upper_at(339) == 10344712431743288612u64);
    assert(exp2_entries_fit_below(339));
    assert(exp2_lower_at(339) == 10344712431743288597u64 && exp2_upper_at(339) == 10344712431743288612u64);
    assert(exp2_upper_at(340) == 10348214200204116547u64);
    assert(exp2_entries_fit_below(340));
    assert(exp2_lower_at(340) == 10348214200204116535u64 && exp2_upper_at(340) == 10348214200204116547u64);
    assert(exp2_upper_at(341) == 10351717154041767100u64);
    assert(exp2_entries_fit_below(341));
    assert(exp2_lower_at(341) == 10351717154041767085u64 && exp2_upper_at(341) == 10351717154041767100u64);
    assert(exp2_upper_at(342) == 10355221293657499876u64);
    assert(exp2_entries_fit_below(342));
    assert(exp2_lower_at(342) == 10355221293657499861u64 && exp2_upper_at(342) == 10355221293657499876u64);
    assert(exp2_upper_at(343) == 10358726619452710296u64);
    assert(exp2_entries_fit_below(343));
    assert(exp2_lower_at(343) == 10358726619452710278u64 && exp2_upper_at(343) == 10358726619452710296u64);
    assert(exp2_upper_at(344) == 10362233131828929671u64);
    assert(exp2_entries_fit_below(344));
    assert(exp2_lower_at(344) == 10362233131828929659u64 && exp2_upper_at(344) == 10362233131828929671u64);
    assert(exp2_upper_at(345) == 10365740831187825228u64);
    assert(exp2_entries_fit_below(345));
    assert(exp2_lower_at(345) == 10365740831187825213u64 && exp2_upper_at(345) == 10365740831187825228u64);
    assert(exp2_upper_at(346) == 10369249717931200160u64);
    assert(exp2_entries_fit_below(346));
    assert(exp2_lower_at(346) == 10369249717931200145u64 && exp2_upper_at(346) == 10369249717931200160u64);
    assert(exp2_upper_at(347) == 10372759792460993674u64);
    assert(exp2_entries_fit_below(347));
    assert(exp2_lower_at(347) == 10372759792460993656u64 && exp2_upper_at(347) == 10372759792460993674u64);
    assert(exp2_upper_at(348) == 10376271055179281038u64);
    assert(exp2_entries_fit_below(348));
    assert(exp2_lower_at(348) == 10376271055179281023u64 && exp2_upper_at(348) == 10376271055179281038u64);
    assert(exp2_upper_at(349) == 10379783506488273626u64);
    assert(exp2_entries_fit_below(349));
    assert(exp2_lower_at(349) == 10379783506488273606u64 && exp2_upper_at(349) == 10379783506488273626u64);
    assert(exp2_upper_at(350) == 10383297146790318962u64);
    assert(exp2_entries_fit_below(350));
    assert(exp2_lower_at(350) == 10383297146790318943u64 && exp2_upper_at(350) == 10383297146790318962u64);
    assert(exp2_upper_at(351) == 10386811976487900770u64);
    assert(exp2_entries_fit_below(351));
    assert(exp2_lower_at(351) == 10386811976487900746u64 && exp2_upper_at(351) == 10386811976487900770u64);
    assert(exp2_upper_at(352) == 10390327995983639008u64);
    assert(exp2_entries_fit_below(352));
    assert(exp2_lower_at(352) == 10390327995983639000u64 && exp2_upper_at(352) == 10390327995983639008u64);
    assert(exp2_upper_at(353) == 10393845205680289950u64);
    assert(exp2_entries_fit_below(353));
    assert(exp2_lower_at(353) == 10393845205680289938u64 && exp2_upper_at(353) == 10393845205680289950u64);
    assert(exp2_upper_at(354) == 10397363605980746180u64);
    assert(exp2_entries_fit_below(354));
    assert(exp2_lower_at(354) == 10397363605980746168u64 && exp2_upper_at(354) == 10397363605980746180u64);
    assert(exp2_upper_at(355) == 10400883197288036675u64);
    assert(exp2_entries_fit_below(355));
    assert(exp2_lower_at(355) == 10400883197288036659u64 && exp2_upper_at(355) == 10400883197288036675u64);
    assert(exp2_upper_at(356) == 10404403980005326836u64);
    assert(exp2_entries_fit_below(356));
    assert(exp2_lower_at(356) == 10404403980005326823u64 && exp2_upper_at(356) == 10404403980005326836u64);
    assert(exp2_upper_at(357) == 10407925954535918547u64);
    assert(exp2_entries_fit_below(357));
    assert(exp2_lower_at(357) == 10407925954535918531u64 && exp2_upper_at(357) == 10407925954535918547u64);
    assert(exp2_upper_at(358) == 10411449121283250204u64);
    assert(exp2_entries_fit_below(358));
    assert(exp2_lower_at(358) == 10411449121283250189u64 && exp2_upper_at(358) == 10411449121283250204u64);
    assert(exp2_upper_at(359) == 10414973480650896776u64);
    assert(exp2_entries_fit_below(359));
    assert(exp2_lower_at(359) == 10414973480650896757u64 && exp2_upper_at(359) == 10414973480650896776u64);
    assert(exp2_upper_at(360) == 10418499033042569841u64);
    assert(exp2_entries_fit_below(360));
    assert(exp2_lower_at(360) == 10418499033042569829u64 && exp2_upper_at(360) == 10418499033042569841u64);
    assert(exp2_upper_at(361) == 10422025778862117642u64);
    assert(exp2_entries_fit_below(361));
    assert(exp2_lower_at(361) == 10422025778862117627u64 && exp2_upper_at(361) == 10422025778862117642u64);
    assert(exp2_upper_at(362) == 10425553718513525125u64);
    assert(exp2_entries_fit_below(362));
    assert(exp2_lower_at(362) == 10425553718513525109u64 && exp2_upper_at(362) == 10425553718513525125u64);
    assert(exp2_upper_at(363) == 10429082852400913986u64);
    assert(exp2_entries_fit_below(363));
    assert(exp2_lower_at(363) == 10429082852400913965u64 && exp2_upper_at(363) == 10429082852400913986u64);
    assert(exp2_upper_at(364) == 10432613180928542721u64);
    assert(exp2_entries_fit_below(364));
    assert(exp2_lower_at(364) == 10432613180928542705u64 && exp2_upper_at(364) == 10432613180928542721u64);
    assert(exp2_upper_at(365) == 10436144704500806672u64);
    assert(exp2_entries_fit_below(365));
    assert(exp2_lower_at(365) == 10436144704500806654u64 && exp2_upper_at(365) == 10436144704500806672u64);
    assert(exp2_upper_at(366) == 10439677423522238074u64);
    assert(exp2_entries_fit_below(366));
    assert(exp2_lower_at(366) == 10439677423522238056u64 && exp2_upper_at(366) == 10439677423522238074u64);
    assert(exp2_upper_at(367) == 10443211338397506093u64);
    assert(exp2_entries_fit_below(367));
    assert(exp2_lower_at(367) == 10443211338397506071u64 && exp2_upper_at(367) == 10443211338397506093u64);
    assert(exp2_upper_at(368) == 10446746449531416879u64);
    assert(exp2_entries_fit_below(368));
    assert(exp2_lower_at(368) == 10446746449531416868u64 && exp2_upper_at(368) == 10446746449531416879u64);
    assert(exp2_upper_at(369) == 10450282757328913627u64);
    assert(exp2_entries_fit_below(369));
    assert(exp2_lower_at(369) == 10450282757328913612u64 && exp2_upper_at(369) == 10450282757328913627u64);
    assert(exp2_upper_at(370) == 10453820262195076590u64);
    assert(exp2_entries_fit_below(370));
    assert(exp2_lower_at(370) == 10453820262195076575u64 && exp2_upper_at(370) == 10453820262195076590u64);
    assert(exp2_upper_at(371) == 10457358964535123153u64);
    assert(exp2_entries_fit_below(371));
    assert(exp2_lower_at(371) == 10457358964535123133u64 && exp2_upper_at(371) == 10457358964535123153u64);
    assert(exp2_upper_at(372) == 10460898864754407865u64);
    assert(exp2_entries_fit_below(372));
    assert(exp2_lower_at(372) == 10460898864754407850u64 && exp2_upper_at(372) == 10460898864754407865u64);
    assert(exp2_upper_at(373) == 10464439963258422498u64);
    assert(exp2_entries_fit_below(373));
    assert(exp2_lower_at(373) == 10464439963258422480u64 && exp2_upper_at(373) == 10464439963258422498u64);
    assert(exp2_upper_at(374) == 10467982260452796083u64);
    assert(exp2_entries_fit_below(374));
    assert(exp2_lower_at(374) == 10467982260452796064u64 && exp2_upper_at(374) == 10467982260452796083u64);
    assert(exp2_upper_at(375) == 10471525756743294955u64);
    assert(exp2_entries_fit_below(375));
    assert(exp2_lower_at(375) == 10471525756743294933u64 && exp2_upper_at(375) == 10471525756743294955u64);
    assert(exp2_upper_at(376) == 10475070452535822810u64);
    assert(exp2_entries_fit_below(376));
    assert(exp2_lower_at(376) == 10475070452535822795u64 && exp2_upper_at(376) == 10475070452535822810u64);
    assert(exp2_upper_at(377) == 10478616348236420748u64);
    assert(exp2_entries_fit_below(377));
    assert(exp2_lower_at(377) == 10478616348236420728u64 && exp2_upper_at(377) == 10478616348236420748u64);
    assert(exp2_upper_at(378) == 10482163444251267309u64);
    assert(exp2_entries_fit_below(378));
    assert(exp2_lower_at(378) == 10482163444251267290u64 && exp2_upper_at(378) == 10482163444251267309u64);
    assert(exp2_upper_at(379) == 10485711740986678533u64);
    assert(exp2_entries_fit_below(379));
    assert(exp2_lower_at(379) == 10485711740986678510u64 && exp2_upper_at(379) == 10485711740986678533u64);
    assert(exp2_upper_at(380) == 10489261238849107999u64);
    assert(exp2_entries_fit_below(380));
    assert(exp2_lower_at(380) == 10489261238849107979u64 && exp2_upper_at(380) == 10489261238849107999u64);
    assert(exp2_upper_at(381) == 10492811938245146876u64);
    assert(exp2_entries_fit_below(381));
    assert(exp2_lower_at(381) == 10492811938245146852u64 && exp2_upper_at(381) == 10492811938245146876u64);
    assert(exp2_upper_at(382) == 10496363839581523967u64);
    assert(exp2_entries_fit_below(382));
    assert(exp2_lower_at(382) == 10496363839581523945u64 && exp2_upper_at(382) == 10496363839581523967u64);
    assert(exp2_upper_at(383) == 10499916943265105754u64);
    assert(exp2_entries_fit_below(383));
    assert(exp2_lower_at(383) == 10499916943265105728u64 && exp2_upper_at(383) == 10499916943265105754u64);
    assert(exp2_upper_at(384) == 10503471249702896441u64);
    assert(exp2_entries_fit_below(384));
    assert(exp2_lower_at(384) == 10503471249702896436u64 && exp2_upper_at(384) == 10503471249702896441u64);
    assert(exp2_upper_at(385) == 10507026759302038030u64);
    assert(exp2_entries_fit_below(385));
    assert(exp2_lower_at(385) == 10507026759302038020u64 && exp2_upper_at(385) == 10507026759302038030u64);
    assert(exp2_upper_at(386) == 10510583472469810317u64);
    assert(exp2_entries_fit_below(386));
    assert(exp2_lower_at(386) == 10510583472469810308u64 && exp2_upper_at(386) == 10510583472469810317u64);
    assert(exp2_upper_at(387) == 10514141389613630976u64);
    assert(exp2_entries_fit_below(387));
    assert(exp2_lower_at(387) == 10514141389613630964u64 && exp2_upper_at(387) == 10514141389613630976u64);
    assert(exp2_upper_at(388) == 10517700511141055593u64);
    assert(exp2_entries_fit_below(388));
    assert(exp2_lower_at(388) == 10517700511141055584u64 && exp2_upper_at(388) == 10517700511141055593u64);
    assert(exp2_upper_at(389) == 10521260837459777720u64);
    assert(exp2_entries_fit_below(389));
    assert(exp2_lower_at(389) == 10521260837459777707u64 && exp2_upper_at(389) == 10521260837459777720u64);
    assert(exp2_upper_at(390) == 10524822368977628911u64);
    assert(exp2_entries_fit_below(390));
    assert(exp2_lower_at(390) == 10524822368977628900u64 && exp2_upper_at(390) == 10524822368977628911u64);
    assert(exp2_upper_at(391) == 10528385106102578776u64);
    assert(exp2_entries_fit_below(391));
    assert(exp2_lower_at(391) == 10528385106102578761u64 && exp2_upper_at(391) == 10528385106102578776u64);
    assert(exp2_upper_at(392) == 10531949049242735026u64);
    assert(exp2_entries_fit_below(392));
    assert(exp2_lower_at(392) == 10531949049242735017u64 && exp2_upper_at(392) == 10531949049242735026u64);
    assert(exp2_upper_at(393) == 10535514198806343523u64);
    assert(exp2_entries_fit_below(393));
    assert(exp2_lower_at(393) == 10535514198806343511u64 && exp2_upper_at(393) == 10535514198806343523u64);
    assert(exp2_upper_at(394) == 10539080555201788317u64);
    assert(exp2_entries_fit_below(394));
    assert(exp2_lower_at(394) == 10539080555201788305u64 && exp2_upper_at(394) == 10539080555201788317u64);
    assert(exp2_upper_at(395) == 10542648118837591705u64);
    assert(exp2_entries_fit_below(395));
    assert(exp2_lower_at(395) == 10542648118837591689u64 && exp2_upper_at(395) == 10542648118837591705u64);
    assert(exp2_upper_at(396) == 10546216890122414268u64);
    assert(exp2_entries_fit_below(396));
    assert(exp2_lower_at(396) == 10546216890122414256u64 && exp2_upper_at(396) == 10546216890122414268u64);
    assert(exp2_upper_at(397) == 10549786869465054925u64);
    assert(exp2_entries_fit_below(397));
    assert(exp2_lower_at(397) == 10549786869465054910u64 && exp2_upper_at(397) == 10549786869465054925u64);
    assert(exp2_upper_at(398) == 10553358057274450976u64);
    assert(exp2_entries_fit_below(398));
    assert(exp2_lower_at(398) == 10553358057274450961u64 && exp2_upper_at(398) == 10553358057274450976u64);
    assert(exp2_upper_at(399) == 10556930453959678148u64);
    assert(exp2_entries_fit_below(399));
    assert(exp2_lower_at(399) == 10556930453959678129u64 && exp2_upper_at(399) == 10556930453959678148u64);
    assert(exp2_upper_at(400) == 10560504059929950640u64);
    assert(exp2_entries_fit_below(400));
    assert(exp2_lower_at(400) == 10560504059929950631u64 && exp2_upper_at(400) == 10560504059929950640u64);
    assert(exp2_upper_at(401) == 10564078875594621189u64);
    assert(exp2_entries_fit_below(401));
    assert(exp2_lower_at(401) == 10564078875594621178u64 && exp2_upper_at(401) == 10564078875594621189u64);
    assert(exp2_upper_at(402) == 10567654901363181083u64);
    assert(exp2_entries_fit_below(402));
    assert(exp2_lower_at(402) == 10567654901363181071u64 && exp2_upper_at(402) == 10567654901363181083u64);
    assert(exp2_upper_at(403) == 10571232137645260233u64);
    assert(exp2_entries_fit_below(403));
    assert(exp2_lower_at(403) == 10571232137645260218u64 && exp2_upper_at(403) == 10571232137645260233u64);
    assert(exp2_upper_at(404) == 10574810584850627215u64);
    assert(exp2_entries_fit_below(404));
    assert(exp2_lower_at(404) == 10574810584850627204u64 && exp2_upper_at(404) == 10574810584850627215u64);
    assert(exp2_upper_at(405) == 10578390243389189312u64);
    assert(exp2_entries_fit_below(405));
    assert(exp2_lower_at(405) == 10578390243389189297u64 && exp2_upper_at(405) == 10578390243389189312u64);
    assert(exp2_upper_at(406) == 10581971113670992567u64);
    assert(exp2_entries_fit_below(406));
    assert(exp2_lower_at(406) == 10581971113670992551u64 && exp2_upper_at(406) == 10581971113670992567u64);
    assert(exp2_upper_at(407) == 10585553196106221821u64);
    assert(exp2_entries_fit_below(407));
    assert(exp2_lower_at(407) == 10585553196106221801u64 && exp2_upper_at(407) == 10585553196106221821u64);
    assert(exp2_upper_at(408) == 10589136491105200771u64);
    assert(exp2_entries_fit_below(408));
    assert(exp2_lower_at(408) == 10589136491105200758u64 && exp2_upper_at(408) == 10589136491105200771u64);
    assert(exp2_upper_at(409) == 10592720999078392013u64);
    assert(exp2_entries_fit_below(409));
    assert(exp2_lower_at(409) == 10592720999078391998u64 && exp2_upper_at(409) == 10592720999078392013u64);
    assert(exp2_upper_at(410) == 10596306720436397086u64);
    assert(exp2_entries_fit_below(410));
    assert(exp2_lower_at(410) == 10596306720436397071u64 && exp2_upper_at(410) == 10596306720436397086u64);
    assert(exp2_upper_at(411) == 10599893655589956517u64);
    assert(exp2_entries_fit_below(411));
    assert(exp2_lower_at(411) == 10599893655589956498u64 && exp2_upper_at(411) == 10599893655589956517u64);
    assert(exp2_upper_at(412) == 10603481804949949877u64);
    assert(exp2_entries_fit_below(412));
    assert(exp2_lower_at(412) == 10603481804949949862u64 && exp2_upper_at(412) == 10603481804949949877u64);
    assert(exp2_upper_at(413) == 10607071168927395822u64);
    assert(exp2_entries_fit_below(413));
    assert(exp2_lower_at(413) == 10607071168927395801u64 && exp2_upper_at(413) == 10607071168927395822u64);
    assert(exp2_upper_at(414) == 10610661747933452141u64);
    assert(exp2_entries_fit_below(414));
    assert(exp2_lower_at(414) == 10610661747933452121u64 && exp2_upper_at(414) == 10610661747933452141u64);
    assert(exp2_upper_at(415) == 10614253542379415800u64);
    assert(exp2_entries_fit_below(415));
    assert(exp2_lower_at(415) == 10614253542379415777u64 && exp2_upper_at(415) == 10614253542379415800u64);
    assert(exp2_upper_at(416) == 10617846552676722992u64);
    assert(exp2_entries_fit_below(416));
    assert(exp2_lower_at(416) == 10617846552676722983u64 && exp2_upper_at(416) == 10617846552676722992u64);
    assert(exp2_upper_at(417) == 10621440779236949201u64);
    assert(exp2_entries_fit_below(417));
    assert(exp2_lower_at(417) == 10621440779236949188u64 && exp2_upper_at(417) == 10621440779236949201u64);
    assert(exp2_upper_at(418) == 10625036222471809209u64);
    assert(exp2_entries_fit_below(418));
    assert(exp2_lower_at(418) == 10625036222471809196u64 && exp2_upper_at(418) == 10625036222471809209u64);
    assert(exp2_upper_at(419) == 10628632882793157180u64);
    assert(exp2_entries_fit_below(419));
    assert(exp2_lower_at(419) == 10628632882793157165u64 && exp2_upper_at(419) == 10628632882793157180u64);
    assert(exp2_upper_at(420) == 10632230760612986689u64);
    assert(exp2_entries_fit_below(420));
    assert(exp2_lower_at(420) == 10632230760612986678u64 && exp2_upper_at(420) == 10632230760612986689u64);
    assert(exp2_upper_at(421) == 10635829856343430779u64);
    assert(exp2_entries_fit_below(421));
    assert(exp2_lower_at(421) == 10635829856343430764u64 && exp2_upper_at(421) == 10635829856343430779u64);
    assert(exp2_upper_at(422) == 10639430170396761999u64);
    assert(exp2_entries_fit_below(422));
    assert(exp2_lower_at(422) == 10639430170396761984u64 && exp2_upper_at(422) == 10639430170396761999u64);
    assert(exp2_upper_at(423) == 10643031703185392457u64);
    assert(exp2_entries_fit_below(423));
    assert(exp2_lower_at(423) == 10643031703185392438u64 && exp2_upper_at(423) == 10643031703185392457u64);
    assert(exp2_upper_at(424) == 10646634455121873864u64);
    assert(exp2_entries_fit_below(424));
    assert(exp2_lower_at(424) == 10646634455121873851u64 && exp2_upper_at(424) == 10646634455121873864u64);
    assert(exp2_upper_at(425) == 10650238426618897587u64);
    assert(exp2_entries_fit_below(425));
    assert(exp2_lower_at(425) == 10650238426618897572u64 && exp2_upper_at(425) == 10650238426618897587u64);
    assert(exp2_upper_at(426) == 10653843618089294693u64);
    assert(exp2_entries_fit_below(426));
    assert(exp2_lower_at(426) == 10653843618089294677u64 && exp2_upper_at(426) == 10653843618089294693u64);
    assert(exp2_upper_at(427) == 10657450029946035988u64);
    assert(exp2_entries_fit_below(427));
    assert(exp2_lower_at(427) == 10657450029946035967u64 && exp2_upper_at(427) == 10657450029946035988u64);
    assert(exp2_upper_at(428) == 10661057662602232078u64);
    assert(exp2_entries_fit_below(428));
    assert(exp2_lower_at(428) == 10661057662602232062u64 && exp2_upper_at(428) == 10661057662602232078u64);
    assert(exp2_upper_at(429) == 10664666516471133411u64);
    assert(exp2_entries_fit_below(429));
    assert(exp2_lower_at(429) == 10664666516471133391u64 && exp2_upper_at(429) == 10664666516471133411u64);
    assert(exp2_upper_at(430) == 10668276591966130320u64);
    assert(exp2_entries_fit_below(430));
    assert(exp2_lower_at(430) == 10668276591966130302u64 && exp2_upper_at(430) == 10668276591966130320u64);
    assert(exp2_upper_at(431) == 10671887889500753078u64);
    assert(exp2_entries_fit_below(431));
    assert(exp2_lower_at(431) == 10671887889500753055u64 && exp2_upper_at(431) == 10671887889500753078u64);
    assert(exp2_upper_at(432) == 10675500409488671932u64);
    assert(exp2_entries_fit_below(432));
    assert(exp2_lower_at(432) == 10675500409488671920u64 && exp2_upper_at(432) == 10675500409488671932u64);
    assert(exp2_upper_at(433) == 10679114152343697178u64);
    assert(exp2_entries_fit_below(433));
    assert(exp2_lower_at(433) == 10679114152343697162u64 && exp2_upper_at(433) == 10679114152343697178u64);
    assert(exp2_upper_at(434) == 10682729118479779173u64);
    assert(exp2_entries_fit_below(434));
    assert(exp2_lower_at(434) == 10682729118479779157u64 && exp2_upper_at(434) == 10682729118479779173u64);
    assert(exp2_upper_at(435) == 10686345308311008405u64);
    assert(exp2_entries_fit_below(435));
    assert(exp2_lower_at(435) == 10686345308311008385u64 && exp2_upper_at(435) == 10686345308311008405u64);
    assert(exp2_upper_at(436) == 10689962722251615535u64);
    assert(exp2_entries_fit_below(436));
    assert(exp2_lower_at(436) == 10689962722251615520u64 && exp2_upper_at(436) == 10689962722251615535u64);
    assert(exp2_upper_at(437) == 10693581360715971447u64);
    assert(exp2_entries_fit_below(437));
    assert(exp2_lower_at(437) == 10693581360715971428u64 && exp2_upper_at(437) == 10693581360715971447u64);
    assert(exp2_upper_at(438) == 10697201224118587290u64);
    assert(exp2_entries_fit_below(438));
    assert(exp2_lower_at(438) == 10697201224118587271u64 && exp2_upper_at(438) == 10697201224118587290u64);
    assert(exp2_upper_at(439) == 10700822312874114527u64);
    assert(exp2_entries_fit_below(439));
    assert(exp2_lower_at(439) == 10700822312874114504u64 && exp2_upper_at(439) == 10700822312874114527u64);
    assert(exp2_upper_at(440) == 10704444627397344987u64);
    assert(exp2_entries_fit_below(440));
    assert(exp2_lower_at(440) == 10704444627397344972u64 && exp2_upper_at(440) == 10704444627397344987u64);
    assert(exp2_upper_at(441) == 10708068168103210910u64);
    assert(exp2_entries_fit_below(441));
    assert(exp2_lower_at(441) == 10708068168103210891u64 && exp2_upper_at(441) == 10708068168103210910u64);
    assert(exp2_upper_at(442) == 10711692935406784992u64);
    assert(exp2_entries_fit_below(442));
    assert(exp2_lower_at(442) == 10711692935406784973u64 && exp2_upper_at(442) == 10711692935406784992u64);
    assert(exp2_upper_at(443) == 10715318929723280431u64);
    assert(exp2_entries_fit_below(443));
    assert(exp2_lower_at(443) == 10715318929723280409u64 && exp2_upper_at(443) == 10715318929723280431u64);
    assert(exp2_upper_at(444) == 10718946151468050985u64);
    assert(exp2_entries_fit_below(444));
    assert(exp2_lower_at(444) == 10718946151468050966u64 && exp2_upper_at(444) == 10718946151468050985u64);
    assert(exp2_upper_at(445) == 10722574601056591008u64);
    assert(exp2_entries_fit_below(445));
    assert(exp2_lower_at(445) == 10722574601056590984u64 && exp2_upper_at(445) == 10722574601056591008u64);
    assert(exp2_upper_at(446) == 10726204278904535505u64);
    assert(exp2_entries_fit_below(446));
    assert(exp2_lower_at(446) == 10726204278904535482u64 && exp2_upper_at(446) == 10726204278904535505u64);
    assert(exp2_upper_at(447) == 10729835185427660171u64);
    assert(exp2_entries_fit_below(447));
    assert(exp2_lower_at(447) == 10729835185427660145u64 && exp2_upper_at(447) == 10729835185427660171u64);
    assert(exp2_upper_at(448) == 10733467321041881446u64);
    assert(exp2_entries_fit_below(448));
    assert(exp2_lower_at(448) == 10733467321041881437u64 && exp2_upper_at(448) == 10733467321041881446u64);
    assert(exp2_upper_at(449) == 10737100686163256575u64);
    assert(exp2_entries_fit_below(449));
    assert(exp2_lower_at(449) == 10737100686163256564u64 && exp2_upper_at(449) == 10737100686163256575u64);
    assert(exp2_upper_at(450) == 10740735281207983627u64);
    assert(exp2_entries_fit_below(450));
    assert(exp2_lower_at(450) == 10740735281207983615u64 && exp2_upper_at(450) == 10740735281207983627u64);
    assert(exp2_upper_at(451) == 10744371106592401557u64);
    assert(exp2_entries_fit_below(451));
    assert(exp2_lower_at(451) == 10744371106592401541u64 && exp2_upper_at(451) == 10744371106592401557u64);
    assert(exp2_upper_at(452) == 10748008162732990258u64);
    assert(exp2_entries_fit_below(452));
    assert(exp2_lower_at(452) == 10748008162732990246u64 && exp2_upper_at(452) == 10748008162732990258u64);
    assert(exp2_upper_at(453) == 10751646450046370607u64);
    assert(exp2_entries_fit_below(453));
    assert(exp2_lower_at(453) == 10751646450046370592u64 && exp2_upper_at(453) == 10751646450046370607u64);
    assert(exp2_upper_at(454) == 10755285968949304510u64);
    assert(exp2_entries_fit_below(454));
    assert(exp2_lower_at(454) == 10755285968949304493u64 && exp2_upper_at(454) == 10755285968949304510u64);
    assert(exp2_upper_at(455) == 10758926719858694941u64);
    assert(exp2_entries_fit_below(455));
    assert(exp2_lower_at(455) == 10758926719858694922u64 && exp2_upper_at(455) == 10758926719858694941u64);
    assert(exp2_upper_at(456) == 10762568703191586012u64);
    assert(exp2_entries_fit_below(456));
    assert(exp2_lower_at(456) == 10762568703191585999u64 && exp2_upper_at(456) == 10762568703191586012u64);
    assert(exp2_upper_at(457) == 10766211919365163003u64);
    assert(exp2_entries_fit_below(457));
    assert(exp2_lower_at(457) == 10766211919365162986u64 && exp2_upper_at(457) == 10766211919365163003u64);
    assert(exp2_upper_at(458) == 10769856368796752412u64);
    assert(exp2_entries_fit_below(458));
    assert(exp2_lower_at(458) == 10769856368796752397u64 && exp2_upper_at(458) == 10769856368796752412u64);
    assert(exp2_upper_at(459) == 10773502051903822008u64);
    assert(exp2_entries_fit_below(459));
    assert(exp2_lower_at(459) == 10773502051903821987u64 && exp2_upper_at(459) == 10773502051903822008u64);
    assert(exp2_upper_at(460) == 10777148969103980873u64);
    assert(exp2_entries_fit_below(460));
    assert(exp2_lower_at(460) == 10777148969103980857u64 && exp2_upper_at(460) == 10777148969103980873u64);
    assert(exp2_upper_at(461) == 10780797120814979458u64);
    assert(exp2_entries_fit_below(461));
    assert(exp2_lower_at(461) == 10780797120814979439u64 && exp2_upper_at(461) == 10780797120814979458u64);
    assert(exp2_upper_at(462) == 10784446507454709623u64);
    assert(exp2_entries_fit_below(462));
    assert(exp2_lower_at(462) == 10784446507454709605u64 && exp2_upper_at(462) == 10784446507454709623u64);
    assert(exp2_upper_at(463) == 10788097129441204689u64);
    assert(exp2_entries_fit_below(463));
    assert(exp2_lower_at(463) == 10788097129441204666u64 && exp2_upper_at(463) == 10788097129441204689u64);
    assert(exp2_upper_at(464) == 10791748987192639477u64);
    assert(exp2_entries_fit_below(464));
    assert(exp2_lower_at(464) == 10791748987192639464u64 && exp2_upper_at(464) == 10791748987192639477u64);
    assert(exp2_upper_at(465) == 10795402081127330381u64);
    assert(exp2_entries_fit_below(465));
    assert(exp2_lower_at(465) == 10795402081127330366u64 && exp2_upper_at(465) == 10795402081127330381u64);
    assert(exp2_upper_at(466) == 10799056411663735382u64);
    assert(exp2_entries_fit_below(466));
    assert(exp2_lower_at(466) == 10799056411663735367u64 && exp2_upper_at(466) == 10799056411663735382u64);
    assert(exp2_upper_at(467) == 10802711979220454121u64);
    assert(exp2_entries_fit_below(467));
    assert(exp2_lower_at(467) == 10802711979220454102u64 && exp2_upper_at(467) == 10802711979220454121u64);
    assert(exp2_upper_at(468) == 10806368784216227932u64);
    assert(exp2_entries_fit_below(468));
    assert(exp2_lower_at(468) == 10806368784216227917u64 && exp2_upper_at(468) == 10806368784216227932u64);
    assert(exp2_upper_at(469) == 10810026827069939901u64);
    assert(exp2_entries_fit_below(469));
    assert(exp2_lower_at(469) == 10810026827069939881u64 && exp2_upper_at(469) == 10810026827069939901u64);
    assert(exp2_upper_at(470) == 10813686108200614910u64);
    assert(exp2_entries_fit_below(470));
    assert(exp2_lower_at(470) == 10813686108200614891u64 && exp2_upper_at(470) == 10813686108200614910u64);
    assert(exp2_upper_at(471) == 10817346628027419678u64);
    assert(exp2_entries_fit_below(471));
    assert(exp2_lower_at(471) == 10817346628027419656u64 && exp2_upper_at(471) == 10817346628027419678u64);
    assert(exp2_upper_at(472) == 10821008386969662823u64);
    assert(exp2_entries_fit_below(472));
    assert(exp2_lower_at(472) == 10821008386969662808u64 && exp2_upper_at(472) == 10821008386969662823u64);
    assert(exp2_upper_at(473) == 10824671385446794901u64);
    assert(exp2_entries_fit_below(473));
    assert(exp2_lower_at(473) == 10824671385446794883u64 && exp2_upper_at(473) == 10824671385446794901u64);
    assert(exp2_upper_at(474) == 10828335623878408452u64);
    assert(exp2_entries_fit_below(474));
    assert(exp2_lower_at(474) == 10828335623878408433u64 && exp2_upper_at(474) == 10828335623878408452u64);
    assert(exp2_upper_at(475) == 10832001102684238051u64);
    assert(exp2_entries_fit_below(475));
    assert(exp2_lower_at(475) == 10832001102684238029u64 && exp2_upper_at(475) == 10832001102684238051u64);
    assert(exp2_upper_at(476) == 10835667822284160359u64);
    assert(exp2_entries_fit_below(476));
    assert(exp2_lower_at(476) == 10835667822284160340u64 && exp2_upper_at(476) == 10835667822284160359u64);
    assert(exp2_upper_at(477) == 10839335783098194170u64);
    assert(exp2_entries_fit_below(477));
    assert(exp2_lower_at(477) == 10839335783098194147u64 && exp2_upper_at(477) == 10839335783098194170u64);
    assert(exp2_upper_at(478) == 10843004985546500454u64);
    assert(exp2_entries_fit_below(478));
    assert(exp2_lower_at(478) == 10843004985546500431u64 && exp2_upper_at(478) == 10843004985546500454u64);
    assert(exp2_upper_at(479) == 10846675430049382411u64);
    assert(exp2_entries_fit_below(479));
    assert(exp2_lower_at(479) == 10846675430049382383u64 && exp2_upper_at(479) == 10846675430049382411u64);
    assert(exp2_upper_at(480) == 10850347117027285510u64);
    assert(exp2_entries_fit_below(480));
    assert(exp2_lower_at(480) == 10850347117027285497u64 && exp2_upper_at(480) == 10850347117027285510u64);
    assert(exp2_upper_at(481) == 10854020046900797566u64);
    assert(exp2_entries_fit_below(481));
    assert(exp2_lower_at(481) == 10854020046900797550u64 && exp2_upper_at(481) == 10854020046900797566u64);
    assert(exp2_upper_at(482) == 10857694220090648743u64);
    assert(exp2_entries_fit_below(482));
    assert(exp2_lower_at(482) == 10857694220090648728u64 && exp2_upper_at(482) == 10857694220090648743u64);
    assert(exp2_upper_at(483) == 10861369637017711633u64);
    assert(exp2_entries_fit_below(483));
    assert(exp2_lower_at(483) == 10861369637017711614u64 && exp2_upper_at(483) == 10861369637017711633u64);
    assert(exp2_upper_at(484) == 10865046298103001299u64);
    assert(exp2_entries_fit_below(484));
    assert(exp2_lower_at(484) == 10865046298103001282u64 && exp2_upper_at(484) == 10865046298103001299u64);
    assert(exp2_upper_at(485) == 10868724203767675320u64);
    assert(exp2_entries_fit_below(485));
    assert(exp2_lower_at(485) == 10868724203767675299u64 && exp2_upper_at(485) == 10868724203767675320u64);
    assert(exp2_upper_at(486) == 10872403354433033839u64);
    assert(exp2_entries_fit_below(486));
    assert(exp2_lower_at(486) == 10872403354433033819u64 && exp2_upper_at(486) == 10872403354433033839u64);
    assert(exp2_upper_at(487) == 10876083750520519612u64);
    assert(exp2_entries_fit_below(487));
    assert(exp2_lower_at(487) == 10876083750520519589u64 && exp2_upper_at(487) == 10876083750520519612u64);
    assert(exp2_upper_at(488) == 10879765392451718059u64);
    assert(exp2_entries_fit_below(488));
    assert(exp2_lower_at(488) == 10879765392451718043u64 && exp2_upper_at(488) == 10879765392451718059u64);
    assert(exp2_upper_at(489) == 10883448280648357311u64);
    assert(exp2_entries_fit_below(489));
    assert(exp2_lower_at(489) == 10883448280648357291u64 && exp2_upper_at(489) == 10883448280648357311u64);
    assert(exp2_upper_at(490) == 10887132415532308255u64);
    assert(exp2_entries_fit_below(490));
    assert(exp2_lower_at(490) == 10887132415532308235u64 && exp2_upper_at(490) == 10887132415532308255u64);
    assert(exp2_upper_at(491) == 10890817797525584584u64);
    assert(exp2_entries_fit_below(491));
    assert(exp2_lower_at(491) == 10890817797525584559u64 && exp2_upper_at(491) == 10890817797525584584u64);
    assert(exp2_upper_at(492) == 10894504427050342846u64);
    assert(exp2_entries_fit_below(492));
    assert(exp2_lower_at(492) == 10894504427050342825u64 && exp2_upper_at(492) == 10894504427050342846u64);
    assert(exp2_upper_at(493) == 10898192304528882493u64);
    assert(exp2_entries_fit_below(493));
    assert(exp2_lower_at(493) == 10898192304528882472u64 && exp2_upper_at(493) == 10898192304528882493u64);
    assert(exp2_upper_at(494) == 10901881430383645935u64);
    assert(exp2_entries_fit_below(494));
    assert(exp2_lower_at(494) == 10901881430383645914u64 && exp2_upper_at(494) == 10901881430383645935u64);
    assert(exp2_upper_at(495) == 10905571805037218572u64);
    assert(exp2_entries_fit_below(495));
    assert(exp2_lower_at(495) == 10905571805037218546u64 && exp2_upper_at(495) == 10905571805037218572u64);
    assert(exp2_upper_at(496) == 10909263428912328853u64);
    assert(exp2_entries_fit_below(496));
    assert(exp2_lower_at(496) == 10909263428912328837u64 && exp2_upper_at(496) == 10909263428912328853u64);
    assert(exp2_upper_at(497) == 10912956302431848338u64);
    assert(exp2_entries_fit_below(497));
    assert(exp2_lower_at(497) == 10912956302431848320u64 && exp2_upper_at(497) == 10912956302431848338u64);
    assert(exp2_upper_at(498) == 10916650426018791719u64);
    assert(exp2_entries_fit_below(498));
    assert(exp2_lower_at(498) == 10916650426018791699u64 && exp2_upper_at(498) == 10916650426018791719u64);
    assert(exp2_upper_at(499) == 10920345800096316883u64);
    assert(exp2_entries_fit_below(499));
    assert(exp2_lower_at(499) == 10920345800096316860u64 && exp2_upper_at(499) == 10920345800096316883u64);
    assert(exp2_upper_at(500) == 10924042425087724962u64);
    assert(exp2_entries_fit_below(500));
    assert(exp2_lower_at(500) == 10924042425087724942u64 && exp2_upper_at(500) == 10924042425087724962u64);
    assert(exp2_upper_at(501) == 10927740301416460378u64);
    assert(exp2_entries_fit_below(501));
    assert(exp2_lower_at(501) == 10927740301416460357u64 && exp2_upper_at(501) == 10927740301416460378u64);
    assert(exp2_upper_at(502) == 10931439429506110898u64);
    assert(exp2_entries_fit_below(502));
    assert(exp2_lower_at(502) == 10931439429506110875u64 && exp2_upper_at(502) == 10931439429506110898u64);
    assert(exp2_upper_at(503) == 10935139809780407665u64);
    assert(exp2_entries_fit_below(503));
    assert(exp2_lower_at(503) == 10935139809780407639u64 && exp2_upper_at(503) == 10935139809780407665u64);
    assert(exp2_upper_at(504) == 10938841442663225268u64);
    assert(exp2_entries_fit_below(504));
    assert(exp2_lower_at(504) == 10938841442663225249u64 && exp2_upper_at(504) == 10938841442663225268u64);
    assert(exp2_upper_at(505) == 10942544328578581781u64);
    assert(exp2_entries_fit_below(505));
    assert(exp2_lower_at(505) == 10942544328578581757u64 && exp2_upper_at(505) == 10942544328578581781u64);
    assert(exp2_upper_at(506) == 10946248467950638805u64);
    assert(exp2_entries_fit_below(506));
    assert(exp2_lower_at(506) == 10946248467950638783u64 && exp2_upper_at(506) == 10946248467950638805u64);
    assert(exp2_upper_at(507) == 10949953861203701528u64);
    assert(exp2_entries_fit_below(507));
    assert(exp2_lower_at(507) == 10949953861203701501u64 && exp2_upper_at(507) == 10949953861203701528u64);
    assert(exp2_upper_at(508) == 10953660508762218767u64);
    assert(exp2_entries_fit_below(508));
    assert(exp2_lower_at(508) == 10953660508762218743u64 && exp2_upper_at(508) == 10953660508762218767u64);
    assert(exp2_upper_at(509) == 10957368411050783019u64);
    assert(exp2_entries_fit_below(509));
    assert(exp2_lower_at(509) == 10957368411050782991u64 && exp2_upper_at(509) == 10957368411050783019u64);
    assert(exp2_upper_at(510) == 10961077568494130510u64);
    assert(exp2_entries_fit_below(510));
    assert(exp2_lower_at(510) == 10961077568494130484u64 && exp2_upper_at(510) == 10961077568494130510u64);
    assert(exp2_upper_at(511) == 10964787981517141241u64);
    assert(exp2_entries_fit_below(511));
    assert(exp2_lower_at(511) == 10964787981517141210u64 && exp2_upper_at(511) == 10964787981517141241u64);
    assert(exp2_upper_at(512) == 10968499650544839024u64);
    assert(exp2_entries_fit_below(512));
}

/// Entries 512 to 767 fit.
proof fn lemma_exp2_page_2()
    requires
        exp2_entries_fit_below(512),
    ensures
        exp2_entries_fit_below(768),
{
    reveal(exp2_lower_at);
    reveal(exp2_upper_at);
    assert(exp2_lower_at(512) == 10968499650544839023u64 && exp2_upper_at(512) == 10968499650544839024u64);
    assert(exp2_upper_at(513) == 10972212576002391589u64);
    assert(exp2_entries_fit_below(513));
    assert(exp2_lower_at(513) == 10972212576002391584u64 && exp2_upper_at(513) == 10972212576002391589u64);
    assert(exp2_upper_at(514) == 10975926758315110543u64);
    assert(exp2_entries_fit_below(514));
    assert(exp2_lower_at(514) == 10975926758315110539u64 && exp2_upper_at(514) == 10975926758315110543u64);
    assert(exp2_upper_at(515) == 10979642197908451484u64);
    assert(exp2_entries_fit_below(515));
    assert(exp2_lower_at(515) == 10979642197908451476u64 && exp2_upper_at(515) == 10979642197908451484u64);
    assert(exp2_upper_at(516) == 10983358895208014024u64);
    assert(exp2_entries_fit_below(516));
    assert(exp2_lower_at(516) == 10983358895208014020u64 && exp2_upper_at(516) == 10983358895208014024u64);
    assert(exp2_upper_at(517) == 10987076850639541850u64);
    assert(exp2_entries_fit_below(517));
    assert(exp2_lower_at(517) == 10987076850639541842u64 && exp2_upper_at(517) == 10987076850639541850u64);
    assert(exp2_upper_at(518) == 10990796064628922762u64);
    assert(exp2_entries_fit_below(518));
    assert(exp2_lower_at(518) == 10990796064628922754u64 && exp2_upper_at(518) == 10990796064628922762u64);
    assert(exp2_upper_at(519) == 10994516537602188727u64);
    assert(exp2_entries_fit_below(519));
    assert(exp2_lower_at(519) == 10994516537602188716u64 && exp2_upper_at(519) == 10994516537602188727u64);
    assert(exp2_upper_at(520) == 10998238269985515929u64);
    assert(exp2_entries_fit_below(520));
    assert(exp2_lower_at(520) == 10998238269985515924u64 && exp2_upper_at(520) == 10998238269985515929u64);
    assert(exp2_upper_at(521) == 11001961262205224817u64);
    assert(exp2_entries_fit_below(521));
    assert(exp2_lower_at(521) == 11001961262205224809u64 && exp2_upper_at(521) == 11001961262205224817u64);
    assert(exp2_upper_at(522) == 11005685514687780151u64);
    assert(exp2_entries_fit_below(522));
    assert(exp2_lower_at(522) == 11005685514687780143u64 && exp2_upper_at(522) == 11005685514687780151u64);
    assert(exp2_upper_at(523) == 11009411027859791051u64);
    assert(exp2_entries_fit_below(523));
    assert(exp2_lower_at(523) == 11009411027859791039u64 && exp2_upper_at(523) == 11009411027859791051u64);
    assert(exp2_upper_at(524) == 11013137802148011050u64);
    assert(exp2_entries_fit_below(524));
    assert(exp2_lower_at(524) == 11013137802148011042u64 && exp2_upper_at(524) == 11013137802148011050u64);
    assert(exp2_upper_at(525) == 11016865837979338142u64);
    assert(exp2_entries_fit_below(525));
    assert(exp2_lower_at(525) == 11016865837979338130u64 && exp2_upper_at(525) == 11016865837979338142u64);
    assert(exp2_upper_at(526) == 11020595135780814826u64);
    assert(exp2_entries_fit_below(526));
    assert(exp2_lower_at(526) == 11020595135780814815u64 && exp2_upper_at(526) == 11020595135780814826u64);
    assert(exp2_upper_at(527) == 11024325695979628160u64);
    assert(exp2_entries_fit_below(527));
    assert(exp2_lower_at(527) == 11024325695979628145u64 && exp2_upper_at(527) == 11024325695979628160u64);
    assert(exp2_upper_at(528) == 11028057519003109804u64);
    assert(exp2_entries_fit_below(528));
    assert(exp2_lower_at(528) == 11028057519003109800u64 && exp2_upper_at(528) == 11028057519003109804u64);
    assert(exp2_upper_at(529) == 11031790605278736088u64);
    assert(exp2_entries_fit_below(529));
    assert(exp2_lower_at(529) == 11031790605278736080u64 && exp2_upper_at(529) == 11031790605278736088u64);
    assert(exp2_upper_at(530) == 11035524955234128027u64);
    assert(exp2_entries_fit_below(530));
    assert(exp2_lower_at(530) == 11035524955234128019u64 && exp2_upper_at(530) == 11035524955234128027u64);
    assert(exp2_upper_at(531) == 11039260569297051401u64);
    assert(exp2_entries_fit_below(531));
    assert(exp2_lower_at(531) == 11039260569297051390u64 && exp2_upper_at(531) == 11039260569297051401u64);
    assert(exp2_upper_at(532) == 11042997447895416788u64);
    assert(exp2_entries_fit_below(532));
    assert(exp2_lower_at(532) == 11042997447895416780u64 && exp2_upper_at(532) == 11042997447895416788u64);
    assert(exp2_upper_at(533) == 11046735591457279617u64);
    assert(exp2_entries_fit_below(533));
    assert(exp2_lower_at(533) == 11046735591457279605u64 && exp2_upper_at(533) == 11046735591457279617u64);
    assert(exp2_upper_at(534) == 11050475000410840221u64);
    assert(exp2_entries_fit_below(534));
    assert(exp2_lower_at(534) == 11050475000410840210u64 && exp2_upper_at(534) == 11050475000410840221u64);
    assert(exp2_upper_at(535) == 11054215675184443875u64);
    assert(exp2_entries_fit_below(535));
    assert(exp2_lower_at(535) == 11054215675184443860u64 && exp2_upper_at(535) == 11054215675184443875u64);
    assert(exp2_upper_at(536) == 11057957616206580860u64);
    assert(exp2_entries_fit_below(536));
    assert(exp2_lower_at(536) == 11057957616206580852u64 && exp2_upper_at(536) == 11057957616206580860u64);
    assert(exp2_upper_at(537) == 11061700823905886501u64);
    assert(exp2_entries_fit_below(537));
    assert(exp2_lower_at(537) == 11061700823905886490u64 && exp2_upper_at(537) == 11061700823905886501u64);
    assert(exp2_upper_at(538) == 11065445298711141221u64);
    assert(exp2_entries_fit_below(538));
    assert(exp2_lower_at(538) == 11065445298711141210u64 && exp2_upper_at(538) == 11065445298711141221u64);
    assert(exp2_upper_at(539) == 11069191041051270585u64);
    assert(exp2_entries_fit_below(539));
    assert(exp2_lower_at(539) == 11069191041051270570u64 && exp2_upper_at(539) == 11069191041051270585u64);
    assert(exp2_upper_at(540) == 11072938051355345355u64);
    assert(exp2_entries_fit_below(540));
    assert(exp2_lower_at(540) == 11072938051355345344u64 && exp2_upper_at(540) == 11072938051355345355u64);
    assert(exp2_upper_at(541) == 11076686330052581539u64);
    assert(exp2_entries_fit_below(541));
    assert(exp2_lower_at(541) == 11076686330052581523u64 && exp2_upper_at(541) == 11076686330052581539u64);
    assert(exp2_upper_at(542) == 11080435877572340435u64);
    assert(exp2_entries_fit_below(542));
    assert(exp2_lower_at(542) == 11080435877572340420u64 && exp2_upper_at(542) == 11080435877572340435u64);
    assert(exp2_upper_at(543) == 11084186694344128683u64);
    assert(exp2_entries_fit_below(543));
    assert(exp2_lower_at(543) == 11084186694344128663u64 && exp2_upper_at(543) == 11084186694344128683u64);
    assert(exp2_upper_at(544) == 11087938780797598311u64);
    assert(exp2_entries_fit_below(544));
    assert(exp2_lower_at(544) == 11087938780797598306u64 && exp2_upper_at(544) == 11087938780797598311u64);
    assert(exp2_upper_at(545) == 11091692137362546807u64);
    assert(exp2_entries_fit_below(545));
    assert(exp2_lower_at(545) == 11091692137362546799u64 && exp2_upper_at(545) == 11091692137362546807u64);
    assert(exp2_upper_at(546) == 11095446764468917124u64);
    assert(exp2_entries_fit_below(546));
    assert(exp2_lower_at(546) == 11095446764468917116u64 && exp2_upper_at(546) == 11095446764468917124u64);
    assert(exp2_upper_at(547) == 11099202662546797768u64);
    assert(exp2_entries_fit_below(547));
    assert(exp2_lower_at(547) == 11099202662546797756u64 && exp2_upper_at(547) == 11099202662546797768u64);
    assert(exp2_upper_at(548) == 11102959832026422826u64);
    assert(exp2_entries_fit_below(548));
    assert(exp2_lower_at(548) == 11102959832026422818u64 && exp2_upper_at(548) == 11102959832026422826u64);
    assert(exp2_upper_at(549) == 11106718273338172032u64);
    assert(exp2_entries_fit_below(549));
    assert(exp2_lower_at(549) == 11106718273338172021u64 && exp2_upper_at(549) == 11106718273338172032u64);
    assert(exp2_upper_at(550) == 11110477986912570799u64);
    assert(exp2_entries_fit_below(550));
    assert(exp2_lower_at(550) == 11110477986912570788u64 && exp2_upper_at(550) == 11110477986912570799u64);
    assert(exp2_upper_at(551) == 11114238973180290278u64);
    assert(exp2_entries_fit_below(551));
    assert(exp2_lower_at(551) == 11114238973180290263u64 && exp2_upper_at(551) == 11114238973180290278u64);
    assert(exp2_upper_at(552) == 11118001232572147406u64);
    assert(exp2_entries_fit_below(552));
    assert(exp2_lower_at(552) == 11118001232572147398u64 && exp2_upper_at(552) == 11118001232572147406u64);
    assert(exp2_upper_at(553) == 11121764765519104960u64);
    assert(exp2_entries_fit_below(553));
    assert(exp2_lower_at(553) == 11121764765519104948u64 && exp2_upper_at(553) == 11121764765519104960u64);
    assert(exp2_upper_at(554) == 11125529572452271595u64);
    assert(exp2_entries_fit_below(554));
    assert(exp2_lower_at(554) == 11125529572452271583u64 && exp2_upper_at(554) == 11125529572452271595u64);
    assert(exp2_upper_at(555) == 11129295653802901900u64);
    assert(exp2_entries_fit_below(555));
    assert(exp2_lower_at(555) == 11129295653802901883u64 && exp2_upper_at(555) == 11129295653802901900u64);
    assert(exp2_upper_at(556) == 11133063010002396448u64);
    assert(exp2_entries_fit_below(556));
    assert(exp2_lower_at(556) == 11133063010002396437u64 && exp2_upper_at(556) == 11133063010002396448u64);
    assert(exp2_upper_at(557) == 11136831641482301850u64);
    assert(exp2_entries_fit_below(557));
    assert(exp2_lower_at(557) == 11136831641482301835u64 && exp2_upper_at(557) == 11136831641482301850u64);
    assert(exp2_upper_at(558) == 11140601548674310791u64);
    assert(exp2_entries_fit_below(558));
    assert(exp2_lower_at(558) == 11140601548674310776u64 && exp2_upper_at(558) == 11140601548674310791u64);
    assert(exp2_upper_at(559) == 11144372732010262093u64);
    assert(exp2_entries_fit_below(559));
    assert(exp2_lower_at(559) == 11144372732010262074u64 && exp2_upper_at(559) == 11144372732010262093u64);
    assert(exp2_upper_at(560) == 11148145191922140749u64);
    assert(exp2_entries_fit_below(560));
    assert(exp2_lower_at(560) == 11148145191922140741u64 && exp2_upper_at(560) == 11148145191922140749u64);
    assert(exp2_upper_at(561) == 11151918928842078004u64);
    assert(exp2_entries_fit_below(561));
    assert(exp2_lower_at(561) == 11151918928842077993u64 && exp2_upper_at(561) == 11151918928842078004u64);
    assert(exp2_upper_at(562) == 11155693943202351362u64);
    assert(exp2_entries_fit_below(562));
    assert(exp2_lower_at(562) == 11155693943202351351u64 && exp2_upper_at(562) == 11155693943202351362u64);
    assert(exp2_upper_at(563) == 11159470235435384664u64);
    assert(exp2_entries_fit_below(563));
    assert(exp2_lower_at(563) == 11159470235435384649u64 && exp2_upper_at(563) == 11159470235435384664u64);
    assert(exp2_upper_at(564) == 11163247805973748128u64);
    assert(exp2_entries_fit_below(564));
    assert(exp2_lower_at(564) == 11163247805973748117u64 && exp2_upper_at(564) == 11163247805973748128u64);
    assert(exp2_upper_at(565) == 11167026655250158404u64);
    assert(exp2_entries_fit_below(565));
    assert(exp2_lower_at(565) == 11167026655250158389u64 && exp2_upper_at(565) == 11167026655250158404u64);
    assert(exp2_upper_at(566) == 11170806783697478619u64);
    assert(exp2_entries_fit_below(566));
    assert(exp2_lower_at(566) == 11170806783697478604u64 && exp2_upper_at(566) == 11170806783697478619u64);
    assert(exp2_upper_at(567) == 11174588191748718424u64);
    assert(exp2_entries_fit_below(567));
    assert(exp2_lower_at(567) == 11174588191748718405u64 && exp2_upper_at(567) == 11174588191748718424u64);
    assert(exp2_upper_at(568) == 11178370879837034051u64);
    assert(exp2_entries_fit_below(568));
    assert(exp2_lower_at(568) == 11178370879837034039u64 && exp2_upper_at(568) == 11178370879837034051u64);
    assert(exp2_upper_at(569) == 11182154848395728359u64);
    assert(exp2_entries_fit_below(569));
    assert(exp2_lower_at(569) == 11182154848395728344u64 && exp2_upper_at(569) == 11182154848395728359u64);
    assert(exp2_upper_at(570) == 11185940097858250883u64);
    assert(exp2_entries_fit_below(570));
    assert(exp2_lower_at(570) == 11185940097858250868u64 && exp2_upper_at(570) == 11185940097858250883u64);
    assert(exp2_upper_at(571) == 11189726628658197881u64);
    assert(exp2_entries_fit_below(571));
    assert(exp2_lower_at(571) == 11189726628658197863u64 && exp2_upper_at(571) == 11189726628658197881u64);
    assert(exp2_upper_at(572) == 11193514441229312391u64);
    assert(exp2_entries_fit_below(572));
    assert(exp2_lower_at(572) == 11193514441229312375u64 && exp2_upper_at(572) == 11193514441229312391u64);
    assert(exp2_upper_at(573) == 11197303536005484274u64);
    assert(exp2_entries_fit_below(573));
    assert(exp2_lower_at(573) == 11197303536005484254u64 && exp2_upper_at(573) == 11197303536005484274u64);
    assert(exp2_upper_at(574) == 11201093913420750268u64);
    assert(exp2_entries_fit_below(574));
    assert(exp2_lower_at(574) == 11201093913420750250u64 && exp2_upper_at(574) == 11201093913420750268u64);
    assert(exp2_upper_at(575) == 11204885573909294035u64);
    assert(exp2_entries_fit_below(575));
    assert(exp2_lower_at(575) == 11204885573909294011u64 && exp2_upper_at(575) == 11204885573909294035u64);
    assert(exp2_upper_at(576) == 11208678517905446203u64);
    assert(exp2_entries_fit_below(576));
    assert(exp2_lower_at(576) == 11208678517905446198u64 && exp2_upper_at(576) == 11208678517905446203u64);
    assert(exp2_upper_at(577) == 11212472745843684450u64);
    assert(exp2_entries_fit_below(577));
    assert(exp2_lower_at(577) == 11212472745843684442u64 && exp2_upper_at(577) == 11212472745843684450u64);
    assert(exp2_upper_at(578) == 11216268258158633502u64);
    assert(exp2_entries_fit_below(578));
    assert(exp2_lower_at(578) == 11216268258158633494u64 && exp2_upper_at(578) == 11216268258158633502u64);
    assert(exp2_upper_at(579) == 11220065055285065220u64);
    assert(exp2_entries_fit_below(579));
    assert(exp2_lower_at(579) == 11220065055285065209u64 && exp2_upper_at(579) == 11220065055285065220u64);
    assert(exp2_upper_at(580) == 11223863137657898636u64);
    assert(exp2_entries_fit_below(580));
    assert(exp2_lower_at(580) == 11223863137657898628u64 && exp2_upper_at(580) == 11223863137657898636u64);
    assert(exp2_upper_at(581) == 11227662505712200006u64);
    assert(exp2_entries_fit_below(581));
    assert(exp2_lower_at(581) == 11227662505712199995u64 && exp2_upper_at(581) == 11227662505712200006u64);
    assert(exp2_upper_at(582) == 11231463159883182864u64);
    assert(exp2_entries_fit_below(582));
    assert(exp2_lower_at(582) == 11231463159883182852u64 && exp2_upper_at(582) == 11231463159883182864u64);
    assert(exp2_upper_at(583) == 11235265100606208056u64);
    assert(exp2_entries_fit_below(583));
    assert(exp2_lower_at(583) == 11235265100606208041u64 && exp2_upper_at(583) == 11235265100606208056u64);
    assert(exp2_upper_at(584) == 11239068328316783813u64);
    assert(exp2_entries_fit_below(584));
    assert(exp2_lower_at(584) == 11239068328316783805u64 && exp2_upper_at(584) == 11239068328316783813u64);
    assert(exp2_upper_at(585) == 11242872843450565787u64);
    assert(exp2_entries_fit_below(585));
    assert(exp2_lower_at(585) == 11242872843450565776u64 && exp2_upper_at(585) == 11242872843450565787u64);
    assert(exp2_upper_at(586) == 11246678646443357098u64);
    assert(exp2_entries_fit_below(586));
    assert(exp2_lower_at(586) == 11246678646443357087u64 && exp2_upper_at(586) == 11246678646443357098u64);
    assert(exp2_upper_at(587) == 11250485737731108391u64);
    assert(exp2_entries_fit_below(587));
    assert(exp2_lower_at(587) == 11250485737731108375u64 && exp2_upper_at(587) == 11250485737731108391u64);
    assert(exp2_upper_at(588) == 11254294117749917884u64);
    assert(exp2_entries_fit_below(588));
    assert(exp2_lower_at(588) == 11254294117749917872u64 && exp2_upper_at(588) == 11254294117749917884u64);
    assert(exp2_upper_at(589) == 11258103786936031418u64);
    assert(exp2_entries_fit_below(589));
    assert(exp2_lower_at(589) == 11258103786936031402u64 && exp2_upper_at(589) == 11258103786936031418u64);
    assert(exp2_upper_at(590) == 11261914745725842508u64);
    assert(exp2_entries_fit_below(590));
    assert(exp2_lower_at(590) == 11261914745725842493u64 && exp2_upper_at(590) == 11261914745725842508u64);
    assert(exp2_upper_at(591) == 11265726994555892389u64);
    assert(exp2_entries_fit_below(591));
    assert(exp2_lower_at(591) == 11265726994555892370u64 && exp2_upper_at(591) == 11265726994555892389u64);
    assert(exp2_upper_at(592) == 11269540533862870065u64);
    assert(exp2_entries_fit_below(592));
    assert(exp2_lower_at(592) == 11269540533862870057u64 && exp2_upper_at(592) == 11269540533862870065u64);
    assert(exp2_upper_at(593) == 11273355364083612380u64);
    assert(exp2_entries_fit_below(593));
    assert(exp2_lower_at(593) == 11273355364083612368u64 && exp2_upper_at(593) == 11273355364083612380u64);
    assert(exp2_upper_at(594) == 11277171485655104031u64);
    assert(exp2_entries_fit_below(594));
    assert(exp2_lower_at(594) == 11277171485655104019u64 && exp2_upper_at(594) == 11277171485655104031u64);
    assert(exp2_upper_at(595) == 11280988899014477647u64);
    assert(exp2_entries_fit_below(595));
    assert(exp2_lower_at(595) == 11280988899014477632u64 && exp2_upper_at(595) == 11280988899014477647u64);
    assert(exp2_upper_at(596) == 11284807604599013828u64);
    assert(exp2_entries_fit_below(596));
    assert(exp2_lower_at(596) == 11284807604599013816u64 && exp2_upper_at(596) == 11284807604599013828u64);
    assert(exp2_upper_at(597) == 11288627602846141196u64);
    assert(exp2_entries_fit_below(597));
    assert(exp2_lower_at(597) == 11288627602846141181u64 && exp2_upper_at(597) == 11288627602846141196u64);
    assert(exp2_upper_at(598) == 11292448894193436452u64);
    assert(exp2_entries_fit_below(598));
    assert(exp2_lower_at(598) == 11292448894193436437u64 && exp2_upper_at(598) == 11292448894193436452u64);
    assert(exp2_upper_at(599) == 11296271479078624409u64);
    assert(exp2_entries_fit_below(599));
    assert(exp2_lower_at(599) == 11296271479078624390u64 && exp2_upper_at(599) == 11296271479078624409u64);
    assert(exp2_upper_at(600) == 11300095357939578065u64);
    assert(exp2_entries_fit_below(600));
    assert(exp2_lower_at(600) == 11300095357939578053u64 && exp2_upper_at(600) == 11300095357939578065u64);
    assert(exp2_upper_at(601) == 11303920531214318636u64);
    assert(exp2_entries_fit_below(601));
    assert(exp2_lower_at(601) == 11303920531214318621u64 && exp2_upper_at(601) == 11303920531214318636u64);
    assert(exp2_upper_at(602) == 11307746999341015613u64);
    assert(exp2_entries_fit_below(602));
    assert(exp2_lower_at(602) == 11307746999341015598u64 && exp2_upper_at(602) == 11307746999341015613u64);
    assert(exp2_upper_at(603) == 11311574762757986809u64);
    assert(exp2_entries_fit_below(603));
    assert(exp2_lower_at(603) == 11311574762757986790u64 && exp2_upper_at(603) == 11311574762757986809u64);
    assert(exp2_upper_at(604) == 11315403821903698411u64);
    assert(exp2_entries_fit_below(604));
    assert(exp2_lower_at(604) == 11315403821903698396u64 && exp2_upper_at(604) == 11315403821903698411u64);
    assert(exp2_upper_at(605) == 11319234177216765034u64);
    assert(exp2_entries_fit_below(605));
    assert(exp2_lower_at(605) == 11319234177216765015u64 && exp2_upper_at(605) == 11319234177216765034u64);
    assert(exp2_upper_at(606) == 11323065829135949766u64);
    assert(exp2_entries_fit_below(606));
    assert(exp2_lower_at(606) == 11323065829135949746u64 && exp2_upper_at(606) == 11323065829135949766u64);
    assert(exp2_upper_at(607) == 11326898778100164215u64);
    assert(exp2_entries_fit_below(607));
    assert(exp2_lower_at(607) == 11326898778100164191u64 && exp2_upper_at(607) == 11326898778100164215u64);
    assert(exp2_upper_at(608) == 11330733024548468564u64);
    assert(exp2_entries_fit_below(608));
    assert(exp2_lower_at(608) == 11330733024548468556u64 && exp2_upper_at(608) == 11330733024548468564u64);
    assert(exp2_upper_at(609) == 11334568568920071642u64);
    assert(exp2_entries_fit_below(609));
    assert(exp2_lower_at(609) == 11334568568920071630u64 && exp2_upper_at(609) == 11334568568920071642u64);
    assert(exp2_upper_at(610) == 11338405411654330927u64);
    assert(exp2_entries_fit_below(610));
    assert(exp2_lower_at(610) == 11338405411654330915u64 && exp2_upper_at(610) == 11338405411654330927u64);
    assert(exp2_upper_at(611) == 11342243553190752634u64);
    assert(exp2_entries_fit_below(611));
    assert(exp2_lower_at(611) == 11342243553190752618u64 && exp2_upper_at(611) == 11342243553190752634u64);
    assert(exp2_upper_at(612) == 11346082993968991753u64);
    assert(exp2_entries_fit_below(612));
    assert(exp2_lower_at(612) == 11346082993968991740u64 && exp2_upper_at(612) == 11346082993968991753u64);
    assert(exp2_upper_at(613) == 11349923734428852105u64);
    assert(exp2_entries_fit_below(613));
    assert(exp2_lower_at(613) == 11349923734428852088u64 && exp2_upper_at(613) == 11349923734428852105u64);
    assert(exp2_upper_at(614) == 11353765775010286381u64);
    assert(exp2_entries_fit_below(614));
    assert(exp2_lower_at(614) == 11353765775010286366u64 && exp2_upper_at(614) == 11353765775010286381u64);
    assert(exp2_upper_at(615) == 11357609116153396205u64);
    assert(exp2_entries_fit_below(615));
    assert(exp2_lower_at(615) == 11357609116153396186u64 && exp2_upper_at(615) == 11357609116153396205u64);
    assert(exp2_upper_at(616) == 11361453758298432176u64);
    assert(exp2_entries_fit_below(616));
    assert(exp2_lower_at(616) == 11361453758298432164u64 && exp2_upper_at(616) == 11361453758298432176u64);
    assert(exp2_upper_at(617) == 11365299701885793924u64);
    assert(exp2_entries_fit_below(617));
    assert(exp2_lower_at(617) == 11365299701885793908u64 && exp2_upper_at(617) == 11365299701885793924u64);
    assert(exp2_upper_at(618) == 11369146947356030158u64);
    assert(exp2_entries_fit_below(618));
    assert(exp2_lower_at(618) == 11369146947356030142u64 && exp2_upper_at(618) == 11369146947356030158u64);
    assert(exp2_upper_at(619) == 11372995495149838711u64);
    assert(exp2_entries_fit_below(619));
    assert(exp2_lower_at(619) == 11372995495149838690u64 && exp2_upper_at(619) == 11372995495149838711u64);
    assert(exp2_upper_at(620) == 11376845345708066601u64);
    assert(exp2_entries_fit_below(620));
    assert(exp2_lower_at(620) == 11376845345708066584u64 && exp2_upper_at(620) == 11376845345708066601u64);
    assert(exp2_upper_at(621) == 11380696499471710073u64);
    assert(exp2_entries_fit_below(621));
    assert(exp2_lower_at(621) == 11380696499471710054u64 && exp2_upper_at(621) == 11380696499471710073u64);
    assert(exp2_upper_at(622) == 11384548956881914659u64);
    assert(exp2_entries_fit_below(622));
    assert(exp2_lower_at(622) == 11384548956881914640u64 && exp2_upper_at(622) == 11384548956881914659u64);
    assert(exp2_upper_at(623) == 11388402718379975213u64);
    assert(exp2_entries_fit_below(623));
    assert(exp2_lower_at(623) == 11388402718379975191u64 && exp2_upper_at(623) == 11388402718379975213u64);
    assert(exp2_upper_at(624) == 11392257784407335973u64);
    assert(exp2_entries_fit_below(624));
    assert(exp2_lower_at(624) == 11392257784407335961u64 && exp2_upper_at(624) == 11392257784407335973u64);
    assert(exp2_upper_at(625) == 11396114155405590622u64);
    assert(exp2_entries_fit_below(625));
    assert(exp2_lower_at(625) == 11396114155405590607u64 && exp2_upper_at(625) == 11396114155405590622u64);
    assert(exp2_upper_at(626) == 11399971831816482311u64);
    assert(exp2_entries_fit_below(626));
    assert(exp2_lower_at(626) == 11399971831816482296u64 && exp2_upper_at(626) == 11399971831816482311u64);
    assert(exp2_upper_at(627) == 11403830814081903729u64);
    assert(exp2_entries_fit_below(627));
    assert(exp2_lower_at(627) == 11403830814081903709u64 && exp2_upper_at(627) == 11403830814081903729u64);
    assert(exp2_upper_at(628) == 11407691102643897150u64);
    assert(exp2_entries_fit_below(628));
    assert(exp2_lower_at(628) == 11407691102643897135u64 && exp2_upper_at(628) == 11407691102643897150u64);
    assert(exp2_upper_at(629) == 11411552697944654483u64);
    assert(exp2_entries_fit_below(629));
    assert(exp2_lower_at(629) == 11411552697944654464u64 && exp2_upper_at(629) == 11411552697944654483u64);
    assert(exp2_upper_at(630) == 11415415600426517324u64);
    assert(exp2_entries_fit_below(630));
    assert(exp2_lower_at(630) == 11415415600426517305u64 && exp2_upper_at(630) == 11415415600426517324u64);
    assert(exp2_upper_at(631) == 11419279810531977000u64);
    assert(exp2_entries_fit_below(631));
    assert(exp2_lower_at(631) == 11419279810531976978u64 && exp2_upper_at(631) == 11419279810531977000u64);
    assert(exp2_upper_at(632) == 11423145328703674630u64);
    assert(exp2_entries_fit_below(632));
    assert(exp2_lower_at(632) == 11423145328703674615u64 && exp2_upper_at(632) == 11423145328703674630u64);
    assert(exp2_upper_at(633) == 11427012155384401172u64);
    assert(exp2_entries_fit_below(633));
    assert(exp2_lower_at(633) == 11427012155384401153u64 && exp2_upper_at(633) == 11427012155384401172u64);
    assert(exp2_upper_at(634) == 11430880291017097467u64);
    assert(exp2_entries_fit_below(634));
    assert(exp2_lower_at(634) == 11430880291017097448u64 && exp2_upper_at(634) == 11430880291017097467u64);
    assert(exp2_upper_at(635) == 11434749736044854296u64);
    assert(exp2_entries_fit_below(635));
    assert(exp2_lower_at(635) == 11434749736044854273u64 && exp2_upper_at(635) == 11434749736044854296u64);
    assert(exp2_upper_at(636) == 11438620490910912432u64);
    assert(exp2_entries_fit_below(636));
    assert(exp2_lower_at(636) == 11438620490910912412u64 && exp2_upper_at(636) == 11438620490910912432u64);
    assert(exp2_upper_at(637) == 11442492556058662688u64);
    assert(exp2_entries_fit_below(637));
    assert(exp2_lower_at(637) == 11442492556058662663u64 && exp2_upper_at(637) == 11442492556058662688u64);
    assert(exp2_upper_at(638) == 11446365931931645968u64);
    assert(exp2_entries_fit_below(638));
    assert(exp2_lower_at(638) == 11446365931931645945u64 && exp2_upper_at(638) == 11446365931931645968u64);
    assert(exp2_upper_at(639) == 11450240618973553318u64);
    assert(exp2_entries_fit_below(639));
    assert(exp2_lower_at(639) == 11450240618973553291u64 && exp2_upper_at(639) == 11450240618973553318u64);
    assert(exp2_upper_at(640) == 11454116617628225968u64);
    assert(exp2_entries_fit_below(640));
    assert(exp2_lower_at(640) == 11454116617628225964u64 && exp2_upper_at(640) == 11454116617628225968u64);
    assert(exp2_upper_at(641) == 11457993928339655422u64);
    assert(exp2_entries_fit_below(641));
    assert(exp2_lower_at(641) == 11457993928339655413u64 && exp2_upper_at(641) == 11457993928339655422u64);
    assert(exp2_upper_at(642) == 11461872551551983444u64);
    assert(exp2_entries_fit_below(642));
    assert(exp2_lower_at(642) == 11461872551551983436u64 && exp2_upper_at(642) == 11461872551551983444u64);
    assert(exp2_upper_at(643) == 11465752487709502160u64);
    assert(exp2_entries_fit_below(643));
    assert(exp2_lower_at(643) == 11465752487709502149u64 && exp2_upper_at(643) == 11465752487709502160u64);
    assert(exp2_upper_at(644) == 11469633737256654088u64);
    assert(exp2_entries_fit_below(644));
    assert(exp2_lower_at(644) == 11469633737256654080u64 && exp2_upper_at(644) == 11469633737256654088u64);
    assert(exp2_upper_at(645) == 11473516300638032199u64);
    assert(exp2_entries_fit_below(645));
    assert(exp2_lower_at(645) == 11473516300638032186u64 && exp2_upper_at(645) == 11473516300638032199u64);
    assert(exp2_upper_at(646) == 11477400178298379955u64);
    assert(exp2_entries_fit_below(646));
    assert(exp2_lower_at(646) == 11477400178298379944u64 && exp2_upper_at(646) == 11477400178298379955u64);
    assert(exp2_upper_at(647) == 11481285370682591371u64);
    assert(exp2_entries_fit_below(647));
    assert(exp2_lower_at(647) == 11481285370682591356u64 && exp2_upper_at(647) == 11481285370682591371u64);
    assert(exp2_upper_at(648) == 11485171878235711061u64);
    assert(exp2_entries_fit_below(648));
    assert(exp2_lower_at(648) == 11485171878235711053u64 && exp2_upper_at(648) == 11485171878235711061u64);
    assert(exp2_upper_at(649) == 11489059701402934296u64);
    assert(exp2_entries_fit_below(649));
    assert(exp2_lower_at(649) == 11489059701402934285u64 && exp2_upper_at(649) == 11489059701402934296u64);
    assert(exp2_upper_at(650) == 11492948840629607040u64);
    assert(exp2_entries_fit_below(650));
    assert(exp2_lower_at(650) == 11492948840629607029u64 && exp2_upper_at(650) == 11492948840629607040u64);
    assert(exp2_upper_at(651) == 11496839296361226016u64);
    assert(exp2_entries_fit_below(651));
    assert(exp2_lower_at(651) == 11496839296361225999u64 && exp2_upper_at(651) == 11496839296361226016u64);
    assert(exp2_upper_at(652) == 11500731069043438747u64);
    assert(exp2_entries_fit_below(652));
    assert(exp2_lower_at(652) == 11500731069043438735u64 && exp2_upper_at(652) == 11500731069043438747u64);
    assert(exp2_upper_at(653) == 11504624159122043617u64);
    assert(exp2_entries_fit_below(653));
    assert(exp2_lower_at(653) == 11504624159122043602u64 && exp2_upper_at(653) == 11504624159122043617u64);
    assert(exp2_upper_at(654) == 11508518567042989913u64);
    assert(exp2_entries_fit_below(654));
    assert(exp2_lower_at(654) == 11508518567042989898u64 && exp2_upper_at(654) == 11508518567042989913u64);
    assert(exp2_upper_at(655) == 11512414293252377879u64);
    assert(exp2_entries_fit_below(655));
    assert(exp2_lower_at(655) == 11512414293252377859u64 && exp2_upper_at(655) == 11512414293252377879u64);
    assert(exp2_upper_at(656) == 11516311338196458762u64);
    assert(exp2_entries_fit_below(656));
    assert(exp2_lower_at(656) == 11516311338196458754u64 && exp2_upper_at(656) == 11516311338196458762u64);
    assert(exp2_upper_at(657) == 11520209702321634889u64);
    assert(exp2_entries_fit_below(657));
    assert(exp2_lower_at(657) == 11520209702321634877u64 && exp2_upper_at(657) == 11520209702321634889u64);
    assert(exp2_upper_at(658) == 11524109386074459673u64);
    assert(exp2_entries_fit_below(658));
    assert(exp2_lower_at(658) == 11524109386074459662u64 && exp2_upper_at(658) == 11524109386074459673u64);
    assert(exp2_upper_at(659) == 11528010389901637704u64);
    assert(exp2_entries_fit_below(659));
    assert(exp2_lower_at(659) == 11528010389901637689u64 && exp2_upper_at(659) == 11528010389901637704u64);
    assert(exp2_upper_at(660) == 11531912714250024779u64);
    assert(exp2_entries_fit_below(660));
    assert(exp2_lower_at(660) == 11531912714250024768u64 && exp2_upper_at(660) == 11531912714250024779u64);
    assert(exp2_upper_at(661) == 11535816359566627961u64);
    assert(exp2_entries_fit_below(661));
    assert(exp2_lower_at(661) == 11535816359566627946u64 && exp2_upper_at(661) == 11535816359566627961u64);
    assert(exp2_upper_at(662) == 11539721326298605630u64);
    assert(exp2_entries_fit_below(662));
    assert(exp2_lower_at(662) == 11539721326298605615u64 && exp2_upper_at(662) == 11539721326298605630u64);
    assert(exp2_upper_at(663) == 11543627614893267529u64);
    assert(exp2_entries_fit_below(663));
    assert(exp2_lower_at(663) == 11543627614893267509u64 && exp2_upper_at(663) == 11543627614893267529u64);
    assert(exp2_upper_at(664) == 11547535225798074821u64);
    assert(exp2_entries_fit_below(664));
    assert(exp2_lower_at(664) == 11547535225798074809u64 && exp2_upper_at(664) == 11547535225798074821u64);
    assert(exp2_upper_at(665) == 11551444159460640141u64);
    assert(exp2_entries_fit_below(665));
    assert(exp2_lower_at(665) == 11551444159460640125u64 && exp2_upper_at(665) == 11551444159460640141u64);
    assert(exp2_upper_at(666) == 11555354416328727641u64);
    assert(exp2_entries_fit_below(666));
    assert(exp2_lower_at(666) == 11555354416328727626u64 && exp2_upper_at(666) == 11555354416328727641u64);
    assert(exp2_upper_at(667) == 11559265996850253044u64);
    assert(exp2_entries_fit_below(667));
    assert(exp2_lower_at(667) == 11559265996850253025u64 && exp2_upper_at(667) == 11559265996850253044u64);
    assert(exp2_upper_at(668) == 11563178901473283698u64);
    assert(exp2_entries_fit_below(668));
    assert(exp2_lower_at(668) == 11563178901473283683u64 && exp2_upper_at(668) == 11563178901473283698u64);
    assert(exp2_upper_at(669) == 11567093130646038627u64);
    assert(exp2_entries_fit_below(669));
    assert(exp2_lower_at(669) == 11567093130646038606u64 && exp2_upper_at(669) == 11567093130646038627u64);
    assert(exp2_upper_at(670) == 11571008684816888577u64);
    assert(exp2_entries_fit_below(670));
    assert(exp2_lower_at(670) == 11571008684816888558u64 && exp2_upper_at(670) == 11571008684816888577u64);
    assert(exp2_upper_at(671) == 11574925564434356073u64);
    assert(exp2_entries_fit_below(671));
    assert(exp2_lower_at(671) == 11574925564434356049u64 && exp2_upper_at(671) == 11574925564434356073u64);
    assert(exp2_upper_at(672) == 11578843769947115463u64);
    assert(exp2_entries_fit_below(672));
    assert(exp2_lower_at(672) == 11578843769947115453u64 && exp2_upper_at(672) == 11578843769947115463u64);
    assert(exp2_upper_at(673) == 11582763301803992993u64);
    assert(exp2_entries_fit_below(673));
    assert(exp2_lower_at(673) == 11582763301803992981u64 && exp2_upper_at(673) == 11582763301803992993u64);
    assert(exp2_upper_at(674) == 11586684160453966821u64);
    assert(exp2_entries_fit_below(674));
    assert(exp2_lower_at(674) == 11586684160453966808u64 && exp2_upper_at(674) == 11586684160453966821u64);
    assert(exp2_upper_at(675) == 11590606346346167093u64);
    assert(exp2_entries_fit_below(675));
    assert(exp2_lower_at(675) == 11590606346346167078u64 && exp2_upper_at(675) == 11590606346346167093u64);
    assert(exp2_upper_at(676) == 11594529859929875992u64);
    assert(exp2_entries_fit_below(676));
    assert(exp2_lower_at(676) == 11594529859929875980u64 && exp2_upper_at(676) == 11594529859929875992u64);
    assert(exp2_upper_at(677) == 11598454701654527786u64);
    assert(exp2_entries_fit_below(677));
    assert(exp2_lower_at(677) == 11598454701654527771u64 && exp2_upper_at(677) == 11598454701654527786u64);
    assert(exp2_upper_at(678) == 11602380871969708878u64);
    assert(exp2_entries_fit_below(678));
    assert(exp2_lower_at(678) == 11602380871969708863u64 && exp2_upper_at(678) == 11602380871969708878u64);
    assert(exp2_upper_at(679) == 11606308371325157861u64);
    assert(exp2_entries_fit_below(679));
    assert(exp2_lower_at(679) == 11606308371325157842u64 && exp2_upper_at(679) == 11606308371325157861u64);
    assert(exp2_upper_at(680) == 11610237200170765566u64);
    assert(exp2_entries_fit_below(680));
    assert(exp2_lower_at(680) == 11610237200170765553u64 && exp2_upper_at(680) == 11610237200170765566u64);
    assert(exp2_upper_at(681) == 11614167358956575121u64);
    assert(exp2_entries_fit_below(681));
    assert(exp2_lower_at(681) == 11614167358956575106u64 && exp2_upper_at(681) == 11614167358956575121u64);
    assert(exp2_upper_at(682) == 11618098848132781995u64);
    assert(exp2_entries_fit_below(682));
    assert(exp2_lower_at(682) == 11618098848132781979u64 && exp2_upper_at(682) == 11618098848132781995u64);
    assert(exp2_upper_at(683) == 11622031668149734047u64);
    assert(exp2_entries_fit_below(683));
    assert(exp2_lower_at(683) == 11622031668149734026u64 && exp2_upper_at(683) == 11622031668149734047u64);
    assert(exp2_upper_at(684) == 11625965819457931586u64);
    assert(exp2_entries_fit_below(684));
    assert(exp2_lower_at(684) == 11625965819457931571u64 && exp2_upper_at(684) == 11625965819457931586u64);
    assert(exp2_upper_at(685) == 11629901302508027422u64);
    assert(exp2_entries_fit_below(685));
    assert(exp2_lower_at(685) == 11629901302508027402u64 && exp2_upper_at(685) == 11629901302508027422u64);
    assert(exp2_upper_at(686) == 11633838117750826909u64);
    assert(exp2_entries_fit_below(686));
    assert(exp2_lower_at(686) == 11633838117750826891u64 && exp2_upper_at(686) == 11633838117750826909u64);
    assert(exp2_upper_at(687) == 11637776265637288008u64);
    assert(exp2_entries_fit_below(687));
    assert(exp2_lower_at(687) == 11637776265637287984u64 && exp2_upper_at(687) == 11637776265637288008u64);
    assert(exp2_upper_at(688) == 11641715746618521321u64);
    assert(exp2_entries_fit_below(688));
    assert(exp2_lower_at(688) == 11641715746618521309u64 && exp2_upper_at(688) == 11641715746618521321u64);
    assert(exp2_upper_at(689) == 11645656561145790177u64);
    assert(exp2_entries_fit_below(689));
    assert(exp2_lower_at(689) == 11645656561145790161u64 && exp2_upper_at(689) == 11645656561145790177u64);
    assert(exp2_upper_at(690) == 11649598709670510641u64);
    assert(exp2_entries_fit_below(690));
    assert(exp2_lower_at(690) == 11649598709670510624u64 && exp2_upper_at(690) == 11649598709670510641u64);
    assert(exp2_upper_at(691) == 11653542192644251591u64);
    assert(exp2_entries_fit_below(691));
    assert(exp2_lower_at(691) == 11653542192644251571u64 && exp2_upper_at(691) == 11653542192644251591u64);
    assert(exp2_upper_at(692) == 11657487010518734767u64);
    assert(exp2_entries_fit_below(692));
    assert(exp2_lower_at(692) == 11657487010518734752u64 && exp2_upper_at(692) == 11657487010518734767u64);
    assert(exp2_upper_at(693) == 11661433163745834823u64);
    assert(exp2_entries_fit_below(693));
    assert(exp2_lower_at(693) == 11661433163745834803u64 && exp2_upper_at(693) == 11661433163745834823u64);
    assert(exp2_upper_at(694) == 11665380652777579371u64);
    assert(exp2_entries_fit_below(694));
    assert(exp2_lower_at(694) == 11665380652777579351u64 && exp2_upper_at(694) == 11665380652777579371u64);
    assert(exp2_upper_at(695) == 11669329478066149037u64);
    assert(exp2_entries_fit_below(695));
    assert(exp2_lower_at(695) == 11669329478066149014u64 && exp2_upper_at(695) == 11669329478066149037u64);
    assert(exp2_upper_at(696) == 11673279640063877520u64);
    assert(exp2_entries_fit_below(696));
    assert(exp2_lower_at(696) == 11673279640063877505u64 && exp2_upper_at(696) == 11673279640063877520u64);
    assert(exp2_upper_at(697) == 11677231139223251635u64);
    assert(exp2_entries_fit_below(697));
    assert(exp2_lower_at(697) == 11677231139223251615u64 && exp2_upper_at(697) == 11677231139223251635u64);
    assert(exp2_upper_at(698) == 11681183975996911367u64);
    assert(exp2_entries_fit_below(698));
    assert(exp2_lower_at(698) == 11681183975996911347u64 && exp2_upper_at(698) == 11681183975996911367u64);
    assert(exp2_upper_at(699) == 11685138150837649919u64);
    assert(exp2_entries_fit_below(699));
    assert(exp2_lower_at(699) == 11685138150837649897u64 && exp2_upper_at(699) == 11685138150837649919u64);
    assert(exp2_upper_at(700) == 11689093664198413776u64);
    assert(exp2_entries_fit_below(700));
    assert(exp2_lower_at(700) == 11689093664198413756u64 && exp2_upper_at(700) == 11689093664198413776u64);
    assert(exp2_upper_at(701) == 11693050516532302743u64);
    assert(exp2_entries_fit_below(701));
    assert(exp2_lower_at(701) == 11693050516532302719u64 && exp2_upper_at(701) == 11693050516532302743u64);
    assert(exp2_upper_at(702) == 11697008708292570008u64);
    assert(exp2_entries_fit_below(702));
    assert(exp2_lower_at(702) == 11697008708292569984u64 && exp2_upper_at(702) == 11697008708292570008u64);
    assert(exp2_upper_at(703) == 11700968239932622182u64);
    assert(exp2_entries_fit_below(703));
    assert(exp2_lower_at(703) == 11700968239932622155u64 && exp2_upper_at(703) == 11700968239932622182u64);
    assert(exp2_upper_at(704) == 11704929111906019357u64);
    assert(exp2_entries_fit_below(704));
    assert(exp2_lower_at(704) == 11704929111906019349u64 && exp2_upper_at(704) == 11704929111906019357u64);
    assert(exp2_upper_at(705) == 11708891324666475178u64);
    assert(exp2_entries_fit_below(705));
    assert(exp2_lower_at(705) == 11708891324666475167u64 && exp2_upper_at(705) == 11708891324666475178u64);
    assert(exp2_upper_at(706) == 11712854878667856856u64);
    assert(exp2_entries_fit_below(706));
    assert(exp2_lower_at(706) == 11712854878667856844u64 && exp2_upper_at(706) == 11712854878667856856u64);
    assert(exp2_upper_at(707) == 11716819774364185242u64);
    assert(exp2_entries_fit_below(707));
    assert(exp2_lower_at(707) == 11716819774364185225u64 && exp2_upper_at(707) == 11716819774364185242u64);
    assert(exp2_upper_at(708) == 11720786012209634879u64);
    assert(exp2_entries_fit_below(708));
    assert(exp2_lower_at(708) == 11720786012209634867u64 && exp2_upper_at(708) == 11720786012209634879u64);
    assert(exp2_upper_at(709) == 11724753592658534055u64);
    assert(exp2_entries_fit_below(709));
    assert(exp2_lower_at(709) == 11724753592658534040u64 && exp2_upper_at(709) == 11724753592658534055u64);
    assert(exp2_upper_at(710) == 11728722516165364851u64);
    assert(exp2_entries_fit_below(710));
    assert(exp2_lower_at(710) == 11728722516165364835u64 && exp2_upper_at(710) == 11728722516165364851u64);
    assert(exp2_upper_at(711) == 11732692783184763185u64);
    assert(exp2_entries_fit_below(711));
    assert(exp2_lower_at(711) == 11732692783184763166u64 && exp2_upper_at(711) == 11732692783184763185u64);
    assert(exp2_upper_at(712) == 11736664394171518885u64);
    assert(exp2_entries_fit_below(712));
    assert(exp2_lower_at(712) == 11736664394171518872u64 && exp2_upper_at(712) == 11736664394171518885u64);
    assert(exp2_upper_at(713) == 11740637349580575725u64);
    assert(exp2_entries_fit_below(713));
    assert(exp2_lower_at(713) == 11740637349580575709u64 && exp2_upper_at(713) == 11740637349580575725u64);
    assert(exp2_upper_at(714) == 11744611649867031479u64);
    assert(exp2_entries_fit_below(714));
    assert(exp2_lower_at(714) == 11744611649867031464u64 && exp2_upper_at(714) == 11744611649867031479u64);
    assert(exp2_upper_at(715) == 11748587295486137976u64);
    assert(exp2_entries_fit_below(715));
    assert(exp2_lower_at(715) == 11748587295486137955u64 && exp2_upper_at(715) == 11748587295486137976u64);
    assert(exp2_upper_at(716) == 11752564286893301150u64);
    assert(exp2_entries_fit_below(716));
    assert(exp2_lower_at(716) == 11752564286893301134u64 && exp2_upper_at(716) == 11752564286893301150u64);
    assert(exp2_upper_at(717) == 11756542624544081096u64);
    assert(exp2_entries_fit_below(717));
    assert(exp2_lower_at(717) == 11756542624544081078u64 && exp2_upper_at(717) == 11756542624544081096u64);
    assert(exp2_upper_at(718) == 11760522308894192123u64);
    assert(exp2_entries_fit_below(718));
    assert(exp2_lower_at(718) == 11760522308894192104u64 && exp2_upper_at(718) == 11760522308894192123u64);
    assert(exp2_upper_at(719) == 11764503340399502796u64);
    assert(exp2_entries_fit_below(719));
    assert(exp2_lower_at(719) == 11764503340399502773u64 && exp2_upper_at(719) == 11764503340399502796u64);
    assert(exp2_upper_at(720) == 11768485719516035993u64);
    assert(exp2_entries_fit_below(720));
    assert(exp2_lower_at(720) == 11768485719516035980u64 && exp2_upper_at(720) == 11768485719516035993u64);
    assert(exp2_upper_at(721) == 11772469446699968975u64);
    assert(exp2_entries_fit_below(721));
    assert(exp2_lower_at(721) == 11772469446699968960u64 && exp2_upper_at(721) == 11772469446699968975u64);
    assert(exp2_upper_at(722) == 11776454522407633408u64);
    assert(exp2_entries_fit_below(722));
    assert(exp2_lower_at(722) == 11776454522407633393u64 && exp2_upper_at(722) == 11776454522407633408u64);
    assert(exp2_upper_at(723) == 11780440947095515436u64);
    assert(exp2_entries_fit_below(723));
    assert(exp2_lower_at(723) == 11780440947095515416u64 && exp2_upper_at(723) == 11780440947095515436u64);
    assert(exp2_upper_at(724) == 11784428721220255721u64);
    assert(exp2_entries_fit_below(724));
    assert(exp2_lower_at(724) == 11784428721220255706u64 && exp2_upper_at(724) == 11784428721220255721u64);
    assert(exp2_upper_at(725) == 11788417845238649509u64);
    assert(exp2_entries_fit_below(725));
    assert(exp2_lower_at(725) == 11788417845238649489u64 && exp2_upper_at(725) == 11788417845238649509u64);
    assert(exp2_upper_at(726) == 11792408319607646674u64);
    assert(exp2_entries_fit_below(726));
    assert(exp2_lower_at(726) == 11792408319607646654u64 && exp2_upper_at(726) == 11792408319607646674u64);
    assert(exp2_upper_at(727) == 11796400144784351763u64);
    assert(exp2_entries_fit_below(727));
    assert(exp2_lower_at(727) == 11796400144784351740u64 && exp2_upper_at(727) == 11796400144784351763u64);
    assert(exp2_upper_at(728) == 11800393321226024067u64);
    assert(exp2_entries_fit_below(728));
    assert(exp2_lower_at(728) == 11800393321226024052u64 && exp2_upper_at(728) == 11800393321226024067u64);
    assert(exp2_upper_at(729) == 11804387849390077661u64);
    assert(exp2_entries_fit_below(729));
    assert(exp2_lower_at(729) == 11804387849390077643u64 && exp2_upper_at(729) == 11804387849390077661u64);
    assert(exp2_upper_at(730) == 11808383729734081454u64);
    assert(exp2_entries_fit_below(730));
    assert(exp2_lower_at(730) == 11808383729734081435u64 && exp2_upper_at(730) == 11808383729734081454u64);
    assert(exp2_upper_at(731) == 11812380962715759247u64);
    assert(exp2_entries_fit_below(731));
    assert(exp2_lower_at(731) == 11812380962715759224u64 && exp2_upper_at(731) == 11812380962715759247u64);
    assert(exp2_upper_at(732) == 11816379548792989784u64);
    assert(exp2_entries_fit_below(732));
    assert(exp2_lower_at(732) == 11816379548792989764u64 && exp2_upper_at(732) == 11816379548792989784u64);
    assert(exp2_upper_at(733) == 11820379488423806807u64);
    assert(exp2_entries_fit_below(733));
    assert(exp2_lower_at(733) == 11820379488423806784u64 && exp2_upper_at(733) == 11820379488423806807u64);
    assert(exp2_upper_at(734) == 11824380782066399106u64);
    assert(exp2_entries_fit_below(734));
    assert(exp2_lower_at(734) == 11824380782066399081u64 && exp2_upper_at(734) == 11824380782066399106u64);
    assert(exp2_upper_at(735) == 11828383430179110568u64);
    assert(exp2_entries_fit_below(735));
    assert(exp2_lower_at(735) == 11828383430179110538u64 && exp2_upper_at(735) == 11828383430179110568u64);
    assert(exp2_upper_at(736) == 11832387433220440228u64);
    assert(exp2_entries_fit_below(736));
    assert(exp2_lower_at(736) == 11832387433220440215u64 && exp2_upper_at(736) == 11832387433220440228u64);
    assert(exp2_upper_at(737) == 11836392791649042352u64);
    assert(exp2_entries_fit_below(737));
    assert(exp2_lower_at(737) == 11836392791649042335u64 && exp2_upper_at(737) == 11836392791649042352u64);
    assert(exp2_upper_at(738) == 11840399505923726436u64);
    assert(exp2_entries_fit_below(738));
    assert(exp2_lower_at(738) == 11840399505923726420u64 && exp2_upper_at(738) == 11840399505923726436u64);
    assert(exp2_upper_at(739) == 11844407576503457297u64);
    assert(exp2_entries_fit_below(739));
    assert(exp2_lower_at(739) == 11844407576503457277u64 && exp2_upper_at(739) == 11844407576503457297u64);
    assert(exp2_upper_at(740) == 11848417003847355116u64);
    assert(exp2_entries_fit_below(740));
    assert(exp2_lower_at(740) == 11848417003847355098u64 && exp2_upper_at(740) == 11848417003847355116u64);
    assert(exp2_upper_at(741) == 11852427788414695490u64);
    assert(exp2_entries_fit_below(741));
    assert(exp2_lower_at(741) == 11852427788414695469u64 && exp2_upper_at(741) == 11852427788414695490u64);
    assert(exp2_upper_at(742) == 11856439930664909482u64);
    assert(exp2_entries_fit_below(742));
    assert(exp2_lower_at(742) == 11856439930664909463u64 && exp2_upper_at(742) == 11856439930664909482u64);
    assert(exp2_upper_at(743) == 11860453431057583678u64);
    assert(exp2_entries_fit_below(743));
    assert(exp2_lower_at(743) == 11860453431057583655u64 && exp2_upper_at(743) == 11860453431057583678u64);
    assert(exp2_upper_at(744) == 11864468290052460237u64);
    assert(exp2_entries_fit_below(744));
    assert(exp2_lower_at(744) == 11864468290052460221u64 && exp2_upper_at(744) == 11864468290052460237u64);
    assert(exp2_upper_at(745) == 11868484508109436947u64);
    assert(exp2_entries_fit_below(745));
    assert(exp2_lower_at(745) == 11868484508109436927u64 && exp2_upper_at(745) == 11868484508109436947u64);
    assert(exp2_upper_at(746) == 11872502085688567274u64);
    assert(exp2_entries_fit_below(746));
    assert(exp2_lower_at(746) == 11872502085688567254u64 && exp2_upper_at(746) == 11872502085688567274u64);
    assert(exp2_upper_at(747) == 11876521023250060411u64);
    assert(exp2_entries_fit_below(747));
    assert(exp2_lower_at(747) == 11876521023250060385u64 && exp2_upper_at(747) == 11876521023250060411u64);
    assert(exp2_upper_at(748) == 11880541321254281340u64);
    assert(exp2_entries_fit_below(748));
    assert(exp2_lower_at(748) == 11880541321254281318u64 && exp2_upper_at(748) == 11880541321254281340u64);
    assert(exp2_upper_at(749) == 11884562980161750878u64);
    assert(exp2_entries_fit_below(749));
    assert(exp2_lower_at(749) == 11884562980161750856u64 && exp2_upper_at(749) == 11884562980161750878u64);
    assert(exp2_upper_at(750) == 11888586000433145740u64);
    assert(exp2_entries_fit_below(750));
    assert(exp2_lower_at(750) == 11888586000433145717u64 && exp2_upper_at(750) == 11888586000433145740u64);
    assert(exp2_upper_at(751) == 11892610382529298572u64);
    assert(exp2_entries_fit_below(751));
    assert(exp2_lower_at(751) == 11892610382529298545u64 && exp2_upper_at(751) == 11892610382529298572u64);
    assert(exp2_upper_at(752) == 11896636126911198017u64);
    assert(exp2_entries_fit_below(752));
    assert(exp2_lower_at(752) == 11896636126911198000u64 && exp2_upper_at(752) == 11896636126911198017u64);
    assert(exp2_upper_at(753) == 11900663234039988780u64);
    assert(exp2_entries_fit_below(753));
    assert(exp2_lower_at(753) == 11900663234039988761u64 && exp2_upper_at(753) == 11900663234039988780u64);
    assert(exp2_upper_at(754) == 11904691704376971655u64);
    assert(exp2_entries_fit_below(754));
    assert(exp2_lower_at(754) == 11904691704376971635u64 && exp2_upper_at(754) == 11904691704376971655u64);
    assert(exp2_upper_at(755) == 11908721538383603590u64);
    assert(exp2_entries_fit_below(755));
    assert(exp2_lower_at(755) == 11908721538383603566u64 && exp2_upper_at(755) == 11908721538383603590u64);
    assert(exp2_upper_at(756) == 11912752736521497742u64);
    assert(exp2_entries_fit_below(756));
    assert(exp2_lower_at(756) == 11912752736521497722u64 && exp2_upper_at(756) == 11912752736521497742u64);
    assert(exp2_upper_at(757) == 11916785299252423528u64);
    assert(exp2_entries_fit_below(757));
    assert(exp2_lower_at(757) == 11916785299252423505u64 && exp2_upper_at(757) == 11916785299252423528u64);
    assert(exp2_upper_at(758) == 11920819227038306682u64);
    assert(exp2_entries_fit_below(758));
    assert(exp2_lower_at(758) == 11920819227038306658u64 && exp2_upper_at(758) == 11920819227038306682u64);
    assert(exp2_upper_at(759) == 11924854520341229294u64);
    assert(exp2_entries_fit_below(759));
    assert(exp2_lower_at(759) == 11924854520341229267u64 && exp2_upper_at(759) == 11924854520341229294u64);
    assert(exp2_upper_at(760) == 11928891179623429879u64);
    assert(exp2_entries_fit_below(760));
    assert(exp2_lower_at(760) == 11928891179623429859u64 && exp2_upper_at(760) == 11928891179623429879u64);
    assert(exp2_upper_at(761) == 11932929205347303427u64);
    assert(exp2_entries_fit_below(761));
    assert(exp2_lower_at(761) == 11932929205347303402u64 && exp2_upper_at(761) == 11932929205347303427u64);
    assert(exp2_upper_at(762) == 11936968597975401444u64);
    assert(exp2_entries_fit_below(762));
    assert(exp2_lower_at(762) == 11936968597975401421u64 && exp2_upper_at(762) == 11936968597975401444u64);
    assert(exp2_upper_at(763) == 11941009357970432017u64);
    assert(exp2_entries_fit_below(763));
    assert(exp2_lower_at(763) == 11941009357970431989u64 && exp2_upper_at(763) == 11941009357970432017u64);
    assert(exp2_upper_at(764) == 11945051485795259864u64);
    assert(exp2_entries_fit_below(764));
    assert(exp2_lower_at(764) == 11945051485795259840u64 && exp2_upper_at(764) == 11945051485795259864u64);
    assert(exp2_upper_at(765) == 11949094981912906387u64);
    assert(exp2_entries_fit_below(765));
    assert(exp2_lower_at(765) == 11949094981912906358u64 && exp2_upper_at(765) == 11949094981912906387u64);
    assert(exp2_upper_at(766) == 11953139846786549723u64);
    assert(exp2_entries_fit_below(766));
    assert(exp2_lower_at(766) == 11953139846786549696u64 && exp2_upper_at(766) == 11953139846786549723u64);
    assert(exp2_upper_at(767) == 11957186080879524799u64);
    assert(exp2_entries_fit_below(767));
    assert(exp2_lower_at(767) == 11957186080879524767u64 && exp2_upper_at(767) == 11957186080879524799u64);
    assert(exp2_upper_at(768) == 11961233684655323373u64);
    assert(exp2_entries_fit_below(768));
}

/// Entries 768 to 1023 fit.
proof fn lemma_exp2_page_3()
    requires
        exp2_entries_fit_below(768),
    ensures
        exp2_entries_fit_below(1024),
{
    reveal(exp2_lower_at);
    reveal(exp2_upper_at);
    assert(exp2_lower_at(768) == 11961233684655323368u64 && exp2_upper_at(768) == 11961233684655323373u64);
    assert(exp2_upper_at(769) == 11965282658577594135u64);
    assert(exp2_entries_fit_below(769));
    assert(exp2_lower_at(769) == 11965282658577594125u64 && exp2_upper_at(769) == 11965282658577594135u64);
    assert(exp2_upper_at(770) == 11969333003110142685u64);
    assert(exp2_entries_fit_below(770));
    assert(exp2_lower_at(770) == 11969333003110142677u64 && exp2_upper_at(770) == 11969333003110142685u64);
    assert(exp2_upper_at(771) == 11973384718716931641u64);
    assert(exp2_entries_fit_below(771));
    assert(exp2_lower_at(771) == 11973384718716931628u64 && exp2_upper_at(771) == 11973384718716931641u64);
    assert(exp2_upper_at(772) == 11977437805862080672u64);
    assert(exp2_entries_fit_below(772));
    assert(exp2_lower_at(772) == 11977437805862080664u64 && exp2_upper_at(772) == 11977437805862080672u64);
    assert(exp2_upper_at(773) == 11981492265009866560u64);
    assert(exp2_entries_fit_below(773));
    assert(exp2_lower_at(773) == 11981492265009866549u64 && exp2_upper_at(773) == 11981492265009866560u64);
    assert(exp2_upper_at(774) == 11985548096624723247u64);
    assert(exp2_entries_fit_below(774));
    assert(exp2_lower_at(774) == 11985548096624723235u64 && exp2_upper_at(774) == 11985548096624723247u64);
    assert(exp2_upper_at(775) == 11989605301171241885u64);
    assert(exp2_entries_fit_below(775));
    assert(exp2_lower_at(775) == 11989605301171241868u64 && exp2_upper_at(775) == 11989605301171241885u64);
    assert(exp2_upper_at(776) == 11993663879114170897u64);
    assert(exp2_entries_fit_below(776));
    assert(exp2_lower_at(776) == 11993663879114170889u64 && exp2_upper_at(776) == 11993663879114170897u64);
    assert(exp2_upper_at(777) == 11997723830918416032u64);
    assert(exp2_entries_fit_below(777));
    assert(exp2_lower_at(777) == 11997723830918416019u64 && exp2_upper_at(777) == 11997723830918416032u64);
    assert(exp2_upper_at(778) == 12001785157049040406u64);
    assert(exp2_entries_fit_below(778));
    assert(exp2_lower_at(778) == 12001785157049040393u64 && exp2_upper_at(778) == 12001785157049040406u64);
    assert(exp2_upper_at(779) == 12005847857971264564u64);
    assert(exp2_entries_fit_below(779));
    assert(exp2_lower_at(779) == 12005847857971264548u64 && exp2_upper_at(779) == 12005847857971264564u64);
    assert(exp2_upper_at(780) == 12009911934150466535u64);
    assert(exp2_entries_fit_below(780));
    assert(exp2_lower_at(780) == 12009911934150466522u64 && exp2_upper_at(780) == 12009911934150466535u64);
    assert(exp2_upper_at(781) == 12013977386052181881u64);
    assert(exp2_entries_fit_below(781));
    assert(exp2_lower_at(781) == 12013977386052181865u64 && exp2_upper_at(781) == 12013977386052181881u64);
    assert(exp2_upper_at(782) == 12018044214142103750u64);
    assert(exp2_entries_fit_below(782));
    assert(exp2_lower_at(782) == 12018044214142103734u64 && exp2_upper_at(782) == 12018044214142103750u64);
    assert(exp2_upper_at(783) == 12022112418886082931u64);
    assert(exp2_entries_fit_below(783));
    assert(exp2_lower_at(783) == 12022112418886082912u64 && exp2_upper_at(783) == 12022112418886082931u64);
    assert(exp2_upper_at(784) == 12026182000750127905u64);
    assert(exp2_entries_fit_below(784));
    assert(exp2_lower_at(784) == 12026182000750127897u64 && exp2_upper_at(784) == 12026182000750127905u64);
    assert(exp2_upper_at(785) == 12030252960200404915u64);
    assert(exp2_entries_fit_below(785));
    assert(exp2_lower_at(785) == 12030252960200404904u64 && exp2_upper_at(785) == 12030252960200404915u64);
    assert(exp2_upper_at(786) == 12034325297703237986u64);
    assert(exp2_entries_fit_below(786));
    assert(exp2_lower_at(786) == 12034325297703237973u64 && exp2_upper_at(786) == 12034325297703237986u64);
    assert(exp2_upper_at(787) == 12038399013725109005u64);
    assert(exp2_entries_fit_below(787));
    assert(exp2_lower_at(787) == 12038399013725108989u64 && exp2_upper_at(787) == 12038399013725109005u64);
    assert(exp2_upper_at(788) == 12042474108732657769u64);
    assert(exp2_entries_fit_below(788));
    assert(exp2_lower_at(788) == 12042474108732657757u64 && exp2_upper_at(788) == 12042474108732657769u64);
    assert(exp2_upper_at(789) == 12046550583192682033u64);
    assert(exp2_entries_fit_below(789));
    assert(exp2_lower_at(789) == 12046550583192682017u64 && exp2_upper_at(789) == 12046550583192682033u64);
    assert(exp2_upper_at(790) == 12050628437572137572u64);
    assert(exp2_entries_fit_below(790));
    assert(exp2_lower_at(790) == 12050628437572137555u64 && exp2_upper_at(790) == 12050628437572137572u64);
    assert(exp2_upper_at(791) == 12054707672338138218u64);
    assert(exp2_entries_fit_below(791));
    assert(exp2_lower_at(791) == 12054707672338138198u64 && exp2_upper_at(791) == 12054707672338138218u64);
    assert(exp2_upper_at(792) == 12058788287957955938u64);
    assert(exp2_entries_fit_below(792));
    assert(exp2_lower_at(792) == 12058788287957955927u64 && exp2_upper_at(792) == 12058788287957955938u64);
    assert(exp2_upper_at(793) == 12062870284899020868u64);
    assert(exp2_entries_fit_below(793));
    assert(exp2_lower_at(793) == 12062870284899020853u64 && exp2_upper_at(793) == 12062870284899020868u64);
    assert(exp2_upper_at(794) == 12066953663628921376u64);
    assert(exp2_entries_fit_below(794));
    assert(exp2_lower_at(794) == 12066953663628921360u64 && exp2_upper_at(794) == 12066953663628921376u64);
    assert(exp2_upper_at(795) == 12071038424615404105u64);
    assert(exp2_entries_fit_below(795));
    assert(exp2_lower_at(795) == 12071038424615404085u64 && exp2_upper_at(795) == 12071038424615404105u64);
    assert(exp2_upper_at(796) == 12075124568326374040u64);
    assert(exp2_entries_fit_below(796));
    assert(exp2_lower_at(796) == 12075124568326374024u64 && exp2_upper_at(796) == 12075124568326374040u64);
    assert(exp2_upper_at(797) == 12079212095229894556u64);
    assert(exp2_entries_fit_below(797));
    assert(exp2_lower_at(797) == 12079212095229894535u64 && exp2_upper_at(797) == 12079212095229894556u64);
    assert(exp2_upper_at(798) == 12083301005794187470u64);
    assert(exp2_entries_fit_below(798));
    assert(exp2_lower_at(798) == 12083301005794187450u64 && exp2_upper_at(798) == 12083301005794187470u64);
    assert(exp2_upper_at(799) == 12087391300487633094u64);
    assert(exp2_entries_fit_below(799));
    assert(exp2_lower_at(799) == 12087391300487633068u64 && exp2_upper_at(799) == 12087391300487633094u64);
    assert(exp2_upper_at(800) == 12091482979778770286u64);
    assert(exp2_entries_fit_below(800));
    assert(exp2_lower_at(800) == 12091482979778770278u64 && exp2_upper_at(800) == 12091482979778770286u64);
    assert(exp2_upper_at(801) == 12095576044136296530u64);
    assert(exp2_entries_fit_below(801));
    assert(exp2_lower_at(801) == 12095576044136296517u64 && exp2_upper_at(801) == 12095576044136296530u64);
    assert(exp2_upper_at(802) == 12099670494029067942u64);
    assert(exp2_entries_fit_below(802));
    assert(exp2_lower_at(802) == 12099670494029067929u64 && exp2_upper_at(802) == 12099670494029067942u64);
    assert(exp2_upper_at(803) == 12103766329926099361u64);
    assert(exp2_entries_fit_below(803));
    assert(exp2_lower_at(803) == 12103766329926099346u64 && exp2_upper_at(803) == 12103766329926099361u64);
    assert(exp2_upper_at(804) == 12107863552296564391u64);
    assert(exp2_entries_fit_below(804));
    assert(exp2_lower_at(804) == 12107863552296564378u64 && exp2_upper_at(804) == 12107863552296564391u64);
    assert(exp2_upper_at(805) == 12111962161609795454u64);
    assert(exp2_entries_fit_below(805));
    assert(exp2_lower_at(805) == 12111962161609795438u64 && exp2_upper_at(805) == 12111962161609795454u64);
    assert(exp2_upper_at(806) == 12116062158335283845u64);
    assert(exp2_entries_fit_below(806));
    assert(exp2_lower_at(806) == 12116062158335283829u64 && exp2_upper_at(806) == 12116062158335283845u64);
    assert(exp2_upper_at(807) == 12120163542942679783u64);
    assert(exp2_entries_fit_below(807));
    assert(exp2_lower_at(807) == 12120163542942679763u64 && exp2_upper_at(807) == 12120163542942679783u64);
    assert(exp2_upper_at(808) == 12124266315901792471u64);
    assert(exp2_entries_fit_below(808));
    assert(exp2_lower_at(808) == 12124266315901792460u64 && exp2_upper_at(808) == 12124266315901792471u64);
    assert(exp2_upper_at(809) == 12128370477682590148u64);
    assert(exp2_entries_fit_below(809));
    assert(exp2_lower_at(809) == 12128370477682590132u64 && exp2_upper_at(809) == 12128370477682590148u64);
    assert(exp2_upper_at(810) == 12132476028755200138u64);
    assert(exp2_entries_fit_below(810));
    assert(exp2_lower_at(810) == 12132476028755200122u64 && exp2_upper_at(810) == 12132476028755200138u64);
    assert(exp2_upper_at(811) == 12136582969589908902u64);
    assert(exp2_entries_fit_below(811));
    assert(exp2_lower_at(811) == 12136582969589908881u64 && exp2_upper_at(811) == 12136582969589908902u64);
    assert(exp2_upper_at(812) == 12140691300657162106u64);
    assert(exp2_entries_fit_below(812));
    assert(exp2_lower_at(812) == 12140691300657162089u64 && exp2_upper_at(812) == 12140691300657162106u64);
    assert(exp2_upper_at(813) == 12144801022427564658u64);
    assert(exp2_entries_fit_below(813));
    assert(exp2_lower_at(813) == 12144801022427564639u64 && exp2_upper_at(813) == 12144801022427564658u64);
    assert(exp2_upper_at(814) == 12148912135371880778u64);
    assert(exp2_entries_fit_below(814));
    assert(exp2_lower_at(814) == 12148912135371880758u64 && exp2_upper_at(814) == 12148912135371880778u64);
    assert(exp2_upper_at(815) == 12153024639961034034u64);
    assert(exp2_entries_fit_below(815));
    assert(exp2_lower_at(815) == 12153024639961034011u64 && exp2_upper_at(815) == 12153024639961034034u64);
    assert(exp2_upper_at(816) == 12157138536666107406u64);
    assert(exp2_entries_fit_below(816));
    assert(exp2_lower_at(816) == 12157138536666107393u64 && exp2_upper_at(816) == 12157138536666107406u64);
    assert(exp2_upper_at(817) == 12161253825958343354u64);
    assert(exp2_entries_fit_below(817));
    assert(exp2_lower_at(817) == 12161253825958343339u64 && exp2_upper_at(817) == 12161253825958343354u64);
    assert(exp2_upper_at(818) == 12165370508309143842u64);
    assert(exp2_entries_fit_below(818));
    assert(exp2_lower_at(818) == 12165370508309143826u64 && exp2_upper_at(818) == 12165370508309143842u64);
    assert(exp2_upper_at(819) == 12169488584190070411u64);
    assert(exp2_entries_fit_below(819));
    assert(exp2_lower_at(819) == 12169488584190070391u64 && exp2_upper_at(819) == 12169488584190070411u64);
    assert(exp2_upper_at(820) == 12173608054072844230u64);
    assert(exp2_entries_fit_below(820));
    assert(exp2_lower_at(820) == 12173608054072844213u64 && exp2_upper_at(820) == 12173608054072844230u64);
    assert(exp2_upper_at(821) == 12177728918429346149u64);
    assert(exp2_entries_fit_below(821));
    assert(exp2_lower_at(821) == 12177728918429346129u64 && exp2_upper_at(821) == 12177728918429346149u64);
    assert(exp2_upper_at(822) == 12181851177731616757u64);
    assert(exp2_entries_fit_below(822));
    assert(exp2_lower_at(822) == 12181851177731616737u64 && exp2_upper_at(822) == 12181851177731616757u64);
    assert(exp2_upper_at(823) == 12185974832451856428u64);
    assert(exp2_entries_fit_below(823));
    assert(exp2_lower_at(823) == 12185974832451856403u64 && exp2_upper_at(823) == 12185974832451856428u64);
    assert(exp2_upper_at(824) == 12190099883062425379u64);
    assert(exp2_entries_fit_below(824));
    assert(exp2_lower_at(824) == 12190099883062425363u64 && exp2_upper_at(824) == 12190099883062425379u64);
    assert(exp2_upper_at(825) == 12194226330035843732u64);
    assert(exp2_entries_fit_below(825));
    assert(exp2_lower_at(825) == 12194226330035843713u64 && exp2_upper_at(825) == 12194226330035843732u64);
    assert(exp2_upper_at(826) == 12198354173844791555u64);
    assert(exp2_entries_fit_below(826));
    assert(exp2_lower_at(826) == 12198354173844791535u64 && exp2_upper_at(826) == 12198354173844791555u64);
    assert(exp2_upper_at(827) == 12202483414962108921u64);
    assert(exp2_entries_fit_below(827));
    assert(exp2_lower_at(827) == 12202483414962108896u64 && exp2_upper_at(827) == 12202483414962108921u64);
    assert(exp2_upper_at(828) == 12206614053860795964u64);
    assert(exp2_entries_fit_below(828));
    assert(exp2_lower_at(828) == 12206614053860795943u64 && exp2_upper_at(828) == 12206614053860795964u64);
    assert(exp2_upper_at(829) == 12210746091014012937u64);
    assert(exp2_entries_fit_below(829));
    assert(exp2_lower_at(829) == 12210746091014012911u64 && exp2_upper_at(829) == 12210746091014012937u64);
    assert(exp2_upper_at(830) == 12214879526895080256u64);
    assert(exp2_entries_fit_below(830));
    assert(exp2_lower_at(830) == 12214879526895080232u64 && exp2_upper_at(830) == 12214879526895080256u64);
    assert(exp2_upper_at(831) == 12219014361977478561u64);
    assert(exp2_entries_fit_below(831));
    assert(exp2_lower_at(831) == 12219014361977478533u64 && exp2_upper_at(831) == 12219014361977478561u64);
    assert(exp2_upper_at(832) == 12223150596734848765u64);
    assert(exp2_entries_fit_below(832));
    assert(exp2_lower_at(832) == 12223150596734848756u64 && exp2_upper_at(832) == 12223150596734848765u64);
    assert(exp2_upper_at(833) == 12227288231640992131u64);
    assert(exp2_entries_fit_below(833));
    assert(exp2_lower_at(833) == 12227288231640992118u64 && exp2_upper_at(833) == 12227288231640992131u64);
    assert(exp2_upper_at(834) == 12231427267169870285u64);
    assert(exp2_entries_fit_below(834));
    assert(exp2_lower_at(834) == 12231427267169870273u64 && exp2_upper_at(834) == 12231427267169870285u64);
    assert(exp2_upper_at(835) == 12235567703795605303u64);
    assert(exp2_entries_fit_below(835));
    assert(exp2_lower_at(835) == 12235567703795605287u64 && exp2_upper_at(835) == 12235567703795605303u64);
    assert(exp2_upper_at(836) == 12239709541992479752u64);
    assert(exp2_entries_fit_below(836));
    assert(exp2_lower_at(836) == 12239709541992479741u64 && exp2_upper_at(836) == 12239709541992479752u64);
    assert(exp2_upper_at(837) == 12243852782234936752u64);
    assert(exp2_entries_fit_below(837));
    assert(exp2_lower_at(837) == 12243852782234936737u64 && exp2_upper_at(837) == 12243852782234936752u64);
    assert(exp2_upper_at(838) == 12247997424997580022u64);
    assert(exp2_entries_fit_below(838));
    assert(exp2_lower_at(838) == 12247997424997580007u64 && exp2_upper_at(838) == 12247997424997580022u64);
    assert(exp2_upper_at(839) == 12252143470755173936u64);
    assert(exp2_entries_fit_below(839));
    assert(exp2_lower_at(839) == 12252143470755173916u64 && exp2_upper_at(839) == 12252143470755173936u64);
    assert(exp2_upper_at(840) == 12256290919982643583u64);
    assert(exp2_entries_fit_below(840));
    assert(exp2_lower_at(840) == 12256290919982643571u64 && exp2_upper_at(840) == 12256290919982643583u64);
    assert(exp2_upper_at(841) == 12260439773155074823u64);
    assert(exp2_entries_fit_below(841));
    assert(exp2_lower_at(841) == 12260439773155074807u64 && exp2_upper_at(841) == 12260439773155074823u64);
    assert(exp2_upper_at(842) == 12264590030747714328u64);
    assert(exp2_entries_fit_below(842));
    assert(exp2_lower_at(842) == 12264590030747714312u64 && exp2_upper_at(842) == 12264590030747714328u64);
    assert(exp2_upper_at(843) == 12268741693235969647u64);
    assert(exp2_entries_fit_below(843));
    assert(exp2_lower_at(843) == 12268741693235969625u64 && exp2_upper_at(843) == 12268741693235969647u64);
    assert(exp2_upper_at(844) == 12272894761095409257u64);
    assert(exp2_entries_fit_below(844));
    assert(exp2_lower_at(844) == 12272894761095409241u64 && exp2_upper_at(844) == 12272894761095409257u64);
    assert(exp2_upper_at(845) == 12277049234801762625u64);
    assert(exp2_entries_fit_below(845));
    assert(exp2_lower_at(845) == 12277049234801762605u64 && exp2_upper_at(845) == 12277049234801762625u64);
    assert(exp2_upper_at(846) == 12281205114830920250u64);
    assert(exp2_entries_fit_below(846));
    assert(exp2_lower_at(846) == 12281205114830920230u64 && exp2_upper_at(846) == 12281205114830920250u64);
    assert(exp2_upper_at(847) == 12285362401658933728u64);
    assert(exp2_entries_fit_below(847));
    assert(exp2_lower_at(847) == 12285362401658933703u64 && exp2_upper_at(847) == 12285362401658933728u64);
    assert(exp2_upper_at(848) == 12289521095762015791u64);
    assert(exp2_entries_fit_below(848));
    assert(exp2_lower_at(848) == 12289521095762015779u64 && exp2_upper_at(848) == 12289521095762015791u64);
    assert(exp2_upper_at(849) == 12293681197616540397u64);
    assert(exp2_entries_fit_below(849));
    assert(exp2_lower_at(849) == 12293681197616540381u64 && exp2_upper_at(849) == 12293681197616540397u64);
    assert(exp2_upper_at(850) == 12297842707699042738u64);
    assert(exp2_entries_fit_below(850));
    assert(exp2_lower_at(850) == 12297842707699042722u64 && exp2_upper_at(850) == 12297842707699042738u64);
    assert(exp2_upper_at(851) == 12302005626486219325u64);
    assert(exp2_entries_fit_below(851));
    assert(exp2_lower_at(851) == 12302005626486219305u64 && exp2_upper_at(851) == 12302005626486219325u64);
    assert(exp2_upper_at(852) == 12306169954454928033u64);
    assert(exp2_entries_fit_below(852));
    assert(exp2_lower_at(852) == 12306169954454928016u64 && exp2_upper_at(852) == 12306169954454928033u64);
    assert(exp2_upper_at(853) == 12310335692082188157u64);
    assert(exp2_entries_fit_below(853));
    assert(exp2_lower_at(853) == 12310335692082188137u64 && exp2_upper_at(853) == 12310335692082188157u64);
    assert(exp2_upper_at(854) == 12314502839845180475u64);
    assert(exp2_entries_fit_below(854));
    assert(exp2_lower_at(854) == 12314502839845180455u64 && exp2_upper_at(854) == 12314502839845180475u64);
    assert(exp2_upper_at(855) == 12318671398221247278u64);
    assert(exp2_entries_fit_below(855));
    assert(exp2_lower_at(855) == 12318671398221247254u64 && exp2_upper_at(855) == 12318671398221247278u64);
    assert(exp2_upper_at(856) == 12322841367687892457u64);
    assert(exp2_entries_fit_below(856));
    assert(exp2_lower_at(856) == 12322841367687892440u64 && exp2_upper_at(856) == 12322841367687892457u64);
    assert(exp2_upper_at(857) == 12327012748722781536u64);
    assert(exp2_entries_fit_below(857));
    assert(exp2_lower_at(857) == 12327012748722781516u64 && exp2_upper_at(857) == 12327012748722781536u64);
    assert(exp2_upper_at(858) == 12331185541803741732u64);
    assert(exp2_entries_fit_below(858));
    assert(exp2_lower_at(858) == 12331185541803741712u64 && exp2_upper_at(858) == 12331185541803741732u64);
    assert(exp2_upper_at(859) == 12335359747408762010u64);
    assert(exp2_entries_fit_below(859));
    assert(exp2_lower_at(859) == 12335359747408761986u64 && exp2_upper_at(859) == 12335359747408762010u64);
    assert(exp2_upper_at(860) == 12339535366015993138u64);
    assert(exp2_entries_fit_below(860));
    assert(exp2_lower_at(860) == 12339535366015993118u64 && exp2_upper_at(860) == 12339535366015993138u64);
    assert(exp2_upper_at(861) == 12343712398103747745u64);
    assert(exp2_entries_fit_below(861));
    assert(exp2_lower_at(861) == 12343712398103747719u64 && exp2_upper_at(861) == 12343712398103747745u64);
    assert(exp2_upper_at(862) == 12347890844150500368u64);
    assert(exp2_entries_fit_below(862));
    assert(exp2_lower_at(862) == 12347890844150500344u64 && exp2_upper_at(862) == 12347890844150500368u64);
    assert(exp2_upper_at(863) == 12352070704634887517u64);
    assert(exp2_entries_fit_below(863));
    assert(exp2_lower_at(863) == 12352070704634887486u64 && exp2_upper_at(863) == 12352070704634887517u64);
    assert(exp2_upper_at(864) == 12356251980035707709u64);
    assert(exp2_entries_fit_below(864));
    assert(exp2_lower_at(864) == 12356251980035707697u64 && exp2_upper_at(864) == 12356251980035707709u64);
    assert(exp2_upper_at(865) == 12360434670831921571u64);
    assert(exp2_entries_fit_below(865));
    assert(exp2_lower_at(865) == 12360434670831921555u64 && exp2_upper_at(865) == 12360434670831921571u64);
    assert(exp2_upper_at(866) == 12364618777502651832u64);
    assert(exp2_entries_fit_below(866));
    assert(exp2_lower_at(866) == 12364618777502651815u64 && exp2_upper_at(866) == 12364618777502651832u64);
    assert(exp2_upper_at(867) == 12368804300527183417u64);
    assert(exp2_entries_fit_below(867));
    assert(exp2_lower_at(867) == 12368804300527183396u64 && exp2_upper_at(867) == 12368804300527183417u64);
    assert(exp2_upper_at(868) == 12372991240384963490u64);
    assert(exp2_entries_fit_below(868));
    assert(exp2_lower_at(868) == 12372991240384963472u64 && exp2_upper_at(868) == 12372991240384963490u64);
    assert(exp2_upper_at(869) == 12377179597555601521u64);
    assert(exp2_entries_fit_below(869));
    assert(exp2_lower_at(869) == 12377179597555601500u64 && exp2_upper_at(869) == 12377179597555601521u64);
    assert(exp2_upper_at(870) == 12381369372518869322u64);
    assert(exp2_entries_fit_below(870));
    assert(exp2_lower_at(870) == 12381369372518869302u64 && exp2_upper_at(870) == 12381369372518869322u64);
    assert(exp2_upper_at(871) == 12385560565754701116u64);
    assert(exp2_entries_fit_below(871));
    assert(exp2_lower_at(871) == 12385560565754701091u64 && exp2_upper_at(871) == 12385560565754701116u64);
    assert(exp2_upper_at(872) == 12389753177743193585u64);
    assert(exp2_entries_fit_below(872));
    assert(exp2_lower_at(872) == 12389753177743193569u64 && exp2_upper_at(872) == 12389753177743193585u64);
    assert(exp2_upper_at(873) == 12393947208964605933u64);
    assert(exp2_entries_fit_below(873));
    assert(exp2_lower_at(873) == 12393947208964605913u64 && exp2_upper_at(873) == 12393947208964605933u64);
    assert(exp2_upper_at(874) == 12398142659899359931u64);
    assert(exp2_entries_fit_below(874));
    assert(exp2_lower_at(874) == 12398142659899359910u64 && exp2_upper_at(874) == 12398142659899359931u64);
    assert(exp2_upper_at(875) == 12402339531028039976u64);
    assert(exp2_entries_fit_below(875));
    assert(exp2_lower_at(875) == 12402339531028039949u64 && exp2_upper_at(875) == 12402339531028039976u64);
    assert(exp2_upper_at(876) == 12406537822831393148u64);
    assert(exp2_entries_fit_below(876));
    assert(exp2_lower_at(876) == 12406537822831393127u64 && exp2_upper_at(876) == 12406537822831393148u64);
    assert(exp2_upper_at(877) == 12410737535790329265u64);
    assert(exp2_entries_fit_below(877));
    assert(exp2_lower_at(877) == 12410737535790329241u64 && exp2_upper_at(877) == 12410737535790329265u64);
    assert(exp2_upper_at(878) == 12414938670385920938u64);
    assert(exp2_entries_fit_below(878));
    assert(exp2_lower_at(878) == 12414938670385920915u64 && exp2_upper_at(878) == 12414938670385920938u64);
    assert(exp2_upper_at(879) == 12419141227099403620u64);
    assert(exp2_entries_fit_below(879));
    assert(exp2_lower_at(879) == 12419141227099403592u64 && exp2_upper_at(879) == 12419141227099403620u64);
    assert(exp2_upper_at(880) == 12423345206412175664u64);
    assert(exp2_entries_fit_below(880));
    assert(exp2_lower_at(880) == 12423345206412175649u64 && exp2_upper_at(880) == 12423345206412175664u64);
    assert(exp2_upper_at(881) == 12427550608805798398u64);
    assert(exp2_entries_fit_below(881));
    assert(exp2_lower_at(881) == 12427550608805798378u64 && exp2_upper_at(881) == 12427550608805798398u64);
    assert(exp2_upper_at(882) == 12431757434761996143u64);
    assert(exp2_entries_fit_below(882));
    assert(exp2_lower_at(882) == 12431757434761996123u64 && exp2_upper_at(882) == 12431757434761996143u64);
    assert(exp2_upper_at(883) == 12435965684762656294u64);
    assert(exp2_entries_fit_below(883));
    assert(exp2_lower_at(883) == 12435965684762656268u64 && exp2_upper_at(883) == 12435965684762656294u64);
    assert(exp2_upper_at(884) == 12440175359289829366u64);
    assert(exp2_entries_fit_below(884));
    assert(exp2_lower_at(884) == 12440175359289829346u64 && exp2_upper_at(884) == 12440175359289829366u64);
    assert(exp2_upper_at(885) == 12444386458825729059u64);
    assert(exp2_entries_fit_below(885));
    assert(exp2_lower_at(885) == 12444386458825729035u64 && exp2_upper_at(885) == 12444386458825729059u64);
    assert(exp2_upper_at(886) == 12448598983852732303u64);
    assert(exp2_entries_fit_below(886));
    assert(exp2_lower_at(886) == 12448598983852732278u64 && exp2_upper_at(886) == 12448598983852732303u64);
    assert(exp2_upper_at(887) == 12452812934853379311u64);
    assert(exp2_entries_fit_below(887));
    assert(exp2_lower_at(887) == 12452812934853379282u64 && exp2_upper_at(887) == 12452812934853379311u64);
    assert(exp2_upper_at(888) == 12457028312310373645u64);
    assert(exp2_entries_fit_below(888));
    assert(exp2_lower_at(888) == 12457028312310373625u64 && exp2_upper_at(888) == 12457028312310373645u64);
    assert(exp2_upper_at(889) == 12461245116706582271u64);
    assert(exp2_entries_fit_below(889));
    assert(exp2_lower_at(889) == 12461245116706582245u64 && exp2_upper_at(889) == 12461245116706582271u64);
    assert(exp2_upper_at(890) == 12465463348525035599u64);
    assert(exp2_entries_fit_below(890));
    assert(exp2_lower_at(890) == 12465463348525035574u64 && exp2_upper_at(890) == 12465463348525035599u64);
    assert(exp2_upper_at(891) == 12469683008248927554u64);
    assert(exp2_entries_fit_below(891));
    assert(exp2_lower_at(891) == 12469683008248927525u64 && exp2_upper_at(891) == 12469683008248927554u64);
    assert(exp2_upper_at(892) == 12473904096361615625u64);
    assert(exp2_entries_fit_below(892));
    assert(exp2_lower_at(892) == 12473904096361615599u64 && exp2_upper_at(892) == 12473904096361615625u64);
    assert(exp2_upper_at(893) == 12478126613346620922u64);
    assert(exp2_entries_fit_below(893));
    assert(exp2_lower_at(893) == 12478126613346620891u64 && exp2_upper_at(893) == 12478126613346620922u64);
    assert(exp2_upper_at(894) == 12482350559687628232u64);
    assert(exp2_entries_fit_below(894));
    assert(exp2_lower_at(894) == 12482350559687628203u64 && exp2_upper_at(894) == 12482350559687628232u64);
    assert(exp2_upper_at(895) == 12486575935868486070u64);
    assert(exp2_entries_fit_below(895));
    assert(exp2_lower_at(895) == 12486575935868486037u64 && exp2_upper_at(895) == 12486575935868486070u64);
    assert(exp2_upper_at(896) == 12490802742373206731u64);
    assert(exp2_entries_fit_below(896));
    assert(exp2_lower_at(896) == 12490802742373206723u64 && exp2_upper_at(896) == 12490802742373206731u64);
    assert(exp2_upper_at(897) == 12495030979685966381u64);
    assert(exp2_entries_fit_below(897));
    assert(exp2_lower_at(897) == 12495030979685966367u64 && exp2_upper_at(897) == 12495030979685966381u64);
    assert(exp2_upper_at(898) == 12499260648291105052u64);
    assert(exp2_entries_fit_below(898));
    assert(exp2_lower_at(898) == 12499260648291105039u64 && exp2_upper_at(898) == 12499260648291105052u64);
    assert(exp2_upper_at(899) == 12503491748673126739u64);
    assert(exp2_entries_fit_below(899));
    assert(exp2_lower_at(899) == 12503491748673126723u64 && exp2_upper_at(899) == 12503491748673126739u64);
    assert(exp2_upper_at(900) == 12507724281316699446u64);
    assert(exp2_entries_fit_below(900));
    assert(exp2_lower_at(900) == 12507724281316699433u64 && exp2_upper_at(900) == 12507724281316699446u64);
    assert(exp2_upper_at(901) == 12511958246706655245u64);
    assert(exp2_entries_fit_below(901));
    assert(exp2_lower_at(901) == 12511958246706655227u64 && exp2_upper_at(901) == 12511958246706655245u64);
    assert(exp2_upper_at(902) == 12516193645327990322u64);
    assert(exp2_entries_fit_below(902));
    assert(exp2_lower_at(902) == 12516193645327990307u64 && exp2_upper_at(902) == 12516193645327990322u64);
    assert(exp2_upper_at(903) == 12520430477665865040u64);
    assert(exp2_entries_fit_below(903));
    assert(exp2_lower_at(903) == 12520430477665865020u64 && exp2_upper_at(903) == 12520430477665865040u64);
    assert(exp2_upper_at(904) == 12524668744205603992u64);
    assert(exp2_entries_fit_below(904));
    assert(exp2_lower_at(904) == 12524668744205603979u64 && exp2_upper_at(904) == 12524668744205603992u64);
    assert(exp2_upper_at(905) == 12528908445432696063u64);
    assert(exp2_entries_fit_below(905));
    assert(exp2_lower_at(905) == 12528908445432696047u64 && exp2_upper_at(905) == 12528908445432696063u64);
    assert(exp2_upper_at(906) == 12533149581832794470u64);
    assert(exp2_entries_fit_below(906));
    assert(exp2_lower_at(906) == 12533149581832794454u64 && exp2_upper_at(906) == 12533149581832794470u64);
    assert(exp2_upper_at(907) == 12537392153891716835u64);
    assert(exp2_entries_fit_below(907));
    assert(exp2_lower_at(907) == 12537392153891716814u64 && exp2_upper_at(907) == 12537392153891716835u64);
    assert(exp2_upper_at(908) == 12541636162095445230u64);
    assert(exp2_entries_fit_below(908));
    assert(exp2_lower_at(908) == 12541636162095445213u64 && exp2_upper_at(908) == 12541636162095445230u64);
    assert(exp2_upper_at(909) == 12545881606930126236u64);
    assert(exp2_entries_fit_below(909));
    assert(exp2_lower_at(909) == 12545881606930126216u64 && exp2_upper_at(909) == 12545881606930126236u64);
    assert(exp2_upper_at(910) == 12550128488882071001u64);
    assert(exp2_entries_fit_below(910));
    assert(exp2_lower_at(910) == 12550128488882070981u64 && exp2_upper_at(910) == 12550128488882071001u64);
    assert(exp2_upper_at(911) == 12554376808437755290u64);
    assert(exp2_entries_fit_below(911));
    assert(exp2_lower_at(911) == 12554376808437755265u64 && exp2_upper_at(911) == 12554376808437755290u64);
    assert(exp2_upper_at(912) == 12558626566083819540u64);
    assert(exp2_entries_fit_below(912));
    assert(exp2_lower_at(912) == 12558626566083819527u64 && exp2_upper_at(912) == 12558626566083819540u64);
    assert(exp2_upper_at(913) == 12562877762307068938u64);
    assert(exp2_entries_fit_below(913));
    assert(exp2_lower_at(913) == 12562877762307068923u64 && exp2_upper_at(913) == 12562877762307068938u64);
    assert(exp2_upper_at(914) == 12567130397594473438u64);
    assert(exp2_entries_fit_below(914));
    assert(exp2_lower_at(914) == 12567130397594473422u64 && exp2_upper_at(914) == 12567130397594473438u64);
    assert(exp2_upper_at(915) == 12571384472433167844u64);
    assert(exp2_entries_fit_below(915));
    assert(exp2_lower_at(915) == 12571384472433167824u64 && exp2_upper_at(915) == 12571384472433167844u64);
    assert(exp2_upper_at(916) == 12575639987310451863u64);
    assert(exp2_entries_fit_below(916));
    assert(exp2_lower_at(916) == 12575639987310451848u64 && exp2_upper_at(916) == 12575639987310451863u64);
    assert(exp2_upper_at(917) == 12579896942713790151u64);
    assert(exp2_entries_fit_below(917));
    assert(exp2_lower_at(917) == 12579896942713790131u64 && exp2_upper_at(917) == 12579896942713790151u64);
    assert(exp2_upper_at(918) == 12584155339130812381u64);
    assert(exp2_entries_fit_below(918));
    assert(exp2_lower_at(918) == 12584155339130812359u64 && exp2_upper_at(918) == 12584155339130812381u64);
    assert(exp2_upper_at(919) == 12588415177049313283u64);
    assert(exp2_entries_fit_below(919));
    assert(exp2_lower_at(919) == 12588415177049313257u64 && exp2_upper_at(919) == 12588415177049313283u64);
    assert(exp2_upper_at(920) == 12592676456957252719u64);
    assert(exp2_entries_fit_below(920));
    assert(exp2_lower_at(920) == 12592676456957252701u64 && exp2_upper_at(920) == 12592676456957252719u64);
    assert(exp2_upper_at(921) == 12596939179342755727u64);
    assert(exp2_entries_fit_below(921));
    assert(exp2_lower_at(921) == 12596939179342755707u64 && exp2_upper_at(921) == 12596939179342755727u64);
    assert(exp2_upper_at(922) == 12601203344694112579u64);
    assert(exp2_entries_fit_below(922));
    assert(exp2_lower_at(922) == 12601203344694112559u64 && exp2_upper_at(922) == 12601203344694112579u64);
    assert(exp2_upper_at(923) == 12605468953499778832u64);
    assert(exp2_entries_fit_below(923));
    assert(exp2_lower_at(923) == 12605468953499778807u64 && exp2_upper_at(923) == 12605468953499778832u64);
    assert(exp2_upper_at(924) == 12609736006248375395u64);
    assert(exp2_entries_fit_below(924));
    assert(exp2_lower_at(924) == 12609736006248375375u64 && exp2_upper_at(924) == 12609736006248375395u64);
    assert(exp2_upper_at(925) == 12614004503428688580u64);
    assert(exp2_entries_fit_below(925));
    assert(exp2_lower_at(925) == 12614004503428688552u64 && exp2_upper_at(925) == 12614004503428688580u64);
    assert(exp2_upper_at(926) == 12618274445529670152u64);
    assert(exp2_entries_fit_below(926));
    assert(exp2_lower_at(926) == 12618274445529670127u64 && exp2_upper_at(926) == 12618274445529670152u64);
    assert(exp2_upper_at(927) == 12622545833040437392u64);
    assert(exp2_entries_fit_below(927));
    assert(exp2_lower_at(927) == 12622545833040437363u64 && exp2_upper_at(927) == 12622545833040437392u64);
    assert(exp2_upper_at(928) == 12626818666450273147u64);
    assert(exp2_entries_fit_below(928));
    assert(exp2_lower_at(928) == 12626818666450273134u64 && exp2_upper_at(928) == 12626818666450273147u64);
    assert(exp2_upper_at(929) == 12631092946248625911u64);
    assert(exp2_entries_fit_below(929));
    assert(exp2_lower_at(929) == 12631092946248625893u64 && exp2_upper_at(929) == 12631092946248625911u64);
    assert(exp2_upper_at(930) == 12635368672925109832u64);
    assert(exp2_entries_fit_below(930));
    assert(exp2_lower_at(930) == 12635368672925109814u64 && exp2_upper_at(930) == 12635368672925109832u64);
    assert(exp2_upper_at(931) == 12639645846969504812u64);
    assert(exp2_entries_fit_below(931));
    assert(exp2_lower_at(931) == 12639645846969504792u64 && exp2_upper_at(931) == 12639645846969504812u64);
    assert(exp2_upper_at(932) == 12643924468871756543u64);
    assert(exp2_entries_fit_below(932));
    assert(exp2_lower_at(932) == 12643924468871756527u64 && exp2_upper_at(932) == 12643924468871756543u64);
    assert(exp2_upper_at(933) == 12648204539121976570u64);
    assert(exp2_entries_fit_below(933));
    assert(exp2_lower_at(933) == 12648204539121976550u64 && exp2_upper_at(933) == 12648204539121976570u64);
    assert(exp2_upper_at(934) == 12652486058210442343u64);
    assert(exp2_entries_fit_below(934));
    assert(exp2_lower_at(934) == 12652486058210442323u64 && exp2_upper_at(934) == 12652486058210442343u64);
    assert(exp2_upper_at(935) == 12656769026627597275u64);
    assert(exp2_entries_fit_below(935));
    assert(exp2_lower_at(935) == 12656769026627597250u64 && exp2_upper_at(935) == 12656769026627597275u64);
    assert(exp2_upper_at(936) == 12661053444864050795u64);
    assert(exp2_entries_fit_below(936));
    assert(exp2_lower_at(936) == 12661053444864050778u64 && exp2_upper_at(936) == 12661053444864050795u64);
    assert(exp2_upper_at(937) == 12665339313410578415u64);
    assert(exp2_entries_fit_below(937));
    assert(exp2_lower_at(937) == 12665339313410578395u64 && exp2_upper_at(937) == 12665339313410578415u64);
    assert(exp2_upper_at(938) == 12669626632758121775u64);
    assert(exp2_entries_fit_below(938));
    assert(exp2_lower_at(938) == 12669626632758121754u64 && exp2_upper_at(938) == 12669626632758121775u64);
    assert(exp2_upper_at(939) == 12673915403397788697u64);
    assert(exp2_entries_fit_below(939));
    assert(exp2_lower_at(939) == 12673915403397788670u64 && exp2_upper_at(939) == 12673915403397788697u64);
    assert(exp2_upper_at(940) == 12678205625820853253u64);
    assert(exp2_entries_fit_below(940));
    assert(exp2_lower_at(940) == 12678205625820853231u64 && exp2_upper_at(940) == 12678205625820853253u64);
    assert(exp2_upper_at(941) == 12682497300518755815u64);
    assert(exp2_entries_fit_below(941));
    assert(exp2_lower_at(941) == 12682497300518755789u64 && exp2_upper_at(941) == 12682497300518755815u64);
    assert(exp2_upper_at(942) == 12686790427983103109u64);
    assert(exp2_entries_fit_below(942));
    assert(exp2_lower_at(942) == 12686790427983103086u64 && exp2_upper_at(942) == 12686790427983103109u64);
    assert(exp2_upper_at(943) == 12691085008705668279u64);
    assert(exp2_entries_fit_below(943));
    assert(exp2_lower_at(943) == 12691085008705668249u64 && exp2_upper_at(943) == 12691085008705668279u64);
    assert(exp2_upper_at(944) == 12695381043178390924u64);
    assert(exp2_entries_fit_below(944));
    assert(exp2_lower_at(944) == 12695381043178390907u64 && exp2_upper_at(944) == 12695381043178390924u64);
    assert(exp2_upper_at(945) == 12699678531893377193u64);
    assert(exp2_entries_fit_below(945));
    assert(exp2_lower_at(945) == 12699678531893377172u64 && exp2_upper_at(945) == 12699678531893377193u64);
    assert(exp2_upper_at(946) == 12703977475342899796u64);
    assert(exp2_entries_fit_below(946));
    assert(exp2_lower_at(946) == 12703977475342899775u64 && exp2_upper_at(946) == 12703977475342899796u64);
    assert(exp2_upper_at(947) == 12708277874019398088u64);
    assert(exp2_entries_fit_below(947));
    assert(exp2_lower_at(947) == 12708277874019398062u64 && exp2_upper_at(947) == 12708277874019398088u64);
    assert(exp2_upper_at(948) == 12712579728415478118u64);
    assert(exp2_entries_fit_below(948));
    assert(exp2_lower_at(948) == 12712579728415478098u64 && exp2_upper_at(948) == 12712579728415478118u64);
    assert(exp2_upper_at(949) == 12716883039023912689u64);
    assert(exp2_entries_fit_below(949));
    assert(exp2_lower_at(949) == 12716883039023912664u64 && exp2_upper_at(949) == 12716883039023912689u64);
    assert(exp2_upper_at(950) == 12721187806337641409u64);
    assert(exp2_entries_fit_below(950));
    assert(exp2_lower_at(950) == 12721187806337641384u64 && exp2_upper_at(950) == 12721187806337641409u64);
    assert(exp2_upper_at(951) == 12725494030849770748u64);
    assert(exp2_entries_fit_below(951));
    assert(exp2_lower_at(951) == 12725494030849770718u64 && exp2_upper_at(951) == 12725494030849770748u64);
    assert(exp2_upper_at(952) == 12729801713053574100u64);
    assert(exp2_entries_fit_below(952));
    assert(exp2_lower_at(952) == 12729801713053574080u64 && exp2_upper_at(952) == 12729801713053574100u64);
    assert(exp2_upper_at(953) == 12734110853442491838u64);
    assert(exp2_entries_fit_below(953));
    assert(exp2_lower_at(953) == 12734110853442491813u64 && exp2_upper_at(953) == 12734110853442491838u64);
    assert(exp2_upper_at(954) == 12738421452510131364u64);
    assert(exp2_entries_fit_below(954));
    assert(exp2_lower_at(954) == 12738421452510131339u64 && exp2_upper_at(954) == 12738421452510131364u64);
    assert(exp2_upper_at(955) == 12742733510750267169u64);
    assert(exp2_entries_fit_below(955));
    assert(exp2_lower_at(955) == 12742733510750267140u64 && exp2_upper_at(955) == 12742733510750267169u64);
    assert(exp2_upper_at(956) == 12747047028656840896u64);
    assert(exp2_entries_fit_below(956));
    assert(exp2_lower_at(956) == 12747047028656840871u64 && exp2_upper_at(956) == 12747047028656840896u64);
    assert(exp2_upper_at(957) == 12751362006723961387u64);
    assert(exp2_entries_fit_below(957));
    assert(exp2_lower_at(957) == 12751362006723961356u64 && exp2_upper_at(957) == 12751362006723961387u64);
    assert(exp2_upper_at(958) == 12755678445445904747u64);
    assert(exp2_entries_fit_below(958));
    assert(exp2_lower_at(958) == 12755678445445904718u64 && exp2_upper_at(958) == 12755678445445904747u64);
    assert(exp2_upper_at(959) == 12759996345317114392u64);
    assert(exp2_entries_fit_below(959));
    assert(exp2_lower_at(959) == 12759996345317114359u64 && exp2_upper_at(959) == 12759996345317114392u64);
    assert(exp2_upper_at(960) == 12764315706832201111u64);
    assert(exp2_entries_fit_below(960));
    assert(exp2_lower_at(960) == 12764315706832201098u64 && exp2_upper_at(960) == 12764315706832201111u64);
    assert(exp2_upper_at(961) == 12768636530485943139u64);
    assert(exp2_entries_fit_below(961));
    assert(exp2_lower_at(961) == 12768636530485943124u64 && exp2_upper_at(961) == 12768636530485943139u64);
    assert(exp2_upper_at(962) == 12772958816773286183u64);
    assert(exp2_entries_fit_below(962));
    assert(exp2_lower_at(962) == 12772958816773286166u64 && exp2_upper_at(962) == 12772958816773286183u64);
    assert(exp2_upper_at(963) == 12777282566189343488u64);
    assert(exp2_entries_fit_below(963));
    assert(exp2_lower_at(963) == 12777282566189343467u64 && exp2_upper_at(963) == 12777282566189343488u64);
    assert(exp2_upper_at(964) == 12781607779229395909u64);
    assert(exp2_entries_fit_below(964));
    assert(exp2_lower_at(964) == 12781607779229395892u64 && exp2_upper_at(964) == 12781607779229395909u64);
    assert(exp2_upper_at(965) == 12785934456388891954u64);
    assert(exp2_entries_fit_below(965));
    assert(exp2_lower_at(965) == 12785934456388891934u64 && exp2_upper_at(965) == 12785934456388891954u64);
    assert(exp2_upper_at(966) == 12790262598163447850u64);
    assert(exp2_entries_fit_below(966));
    assert(exp2_lower_at(966) == 12790262598163447827u64 && exp2_upper_at(966) == 12790262598163447850u64);
    assert(exp2_upper_at(967) == 12794592205048847577u64);
    assert(exp2_entries_fit_below(967));
    assert(exp2_lower_at(967) == 12794592205048847552u64 && exp2_upper_at(967) == 12794592205048847577u64);
    assert(exp2_upper_at(968) == 12798923277541042962u64);
    assert(exp2_entries_fit_below(968));
    assert(exp2_lower_at(968) == 12798923277541042945u64 && exp2_upper_at(968) == 12798923277541042962u64);
    assert(exp2_upper_at(969) == 12803255816136153709u64);
    assert(exp2_entries_fit_below(969));
    assert(exp2_lower_at(969) == 12803255816136153686u64 && exp2_upper_at(969) == 12803255816136153709u64);
    assert(exp2_upper_at(970) == 12807589821330467456u64);
    assert(exp2_entries_fit_below(970));
    assert(exp2_lower_at(970) == 12807589821330467436u64 && exp2_upper_at(970) == 12807589821330467456u64);
    assert(exp2_upper_at(971) == 12811925293620439847u64);
    assert(exp2_entries_fit_below(971));
    assert(exp2_lower_at(971) == 12811925293620439820u64 && exp2_upper_at(971) == 12811925293620439847u64);
    assert(exp2_upper_at(972) == 12816262233502694572u64);
    assert(exp2_entries_fit_below(972));
    assert(exp2_lower_at(972) == 12816262233502694551u64 && exp2_upper_at(972) == 12816262233502694572u64);
    assert(exp2_upper_at(973) == 12820600641474023440u64);
    assert(exp2_entries_fit_below(973));
    assert(exp2_lower_at(973) == 12820600641474023415u64 && exp2_upper_at(973) == 12820600641474023440u64);
    assert(exp2_upper_at(974) == 12824940518031386424u64);
    assert(exp2_entries_fit_below(974));
    assert(exp2_lower_at(974) == 12824940518031386400u64 && exp2_upper_at(974) == 12824940518031386424u64);
    assert(exp2_upper_at(975) == 12829281863671911724u64);
    assert(exp2_entries_fit_below(975));
    assert(exp2_lower_at(975) == 12829281863671911694u64 && exp2_upper_at(975) == 12829281863671911724u64);
    assert(exp2_upper_at(976) == 12833624678892895812u64);
    assert(exp2_entries_fit_below(976));
    assert(exp2_lower_at(976) == 12833624678892895794u64 && exp2_upper_at(976) == 12833624678892895812u64);
    assert(exp2_upper_at(977) == 12837968964191803521u64);
    assert(exp2_entries_fit_below(977));
    assert(exp2_lower_at(977) == 12837968964191803501u64 && exp2_upper_at(977) == 12837968964191803521u64);
    assert(exp2_upper_at(978) == 12842314720066268058u64);
    assert(exp2_entries_fit_below(978));
    assert(exp2_lower_at(978) == 12842314720066268038u64 && exp2_upper_at(978) == 12842314720066268058u64);
    assert(exp2_upper_at(979) == 12846661947014091096u64);
    assert(exp2_entries_fit_below(979));
    assert(exp2_lower_at(979) == 12846661947014091071u64 && exp2_upper_at(979) == 12846661947014091096u64);
    assert(exp2_upper_at(980) == 12851010645533242807u64);
    assert(exp2_entries_fit_below(980));
    assert(exp2_lower_at(980) == 12851010645533242787u64 && exp2_upper_at(980) == 12851010645533242807u64);
    assert(exp2_upper_at(981) == 12855360816121861938u64);
    assert(exp2_entries_fit_below(981));
    assert(exp2_lower_at(981) == 12855360816121861912u64 && exp2_upper_at(981) == 12855360816121861938u64);
    assert(exp2_upper_at(982) == 12859712459278255861u64);
    assert(exp2_entries_fit_below(982));
    assert(exp2_lower_at(982) == 12859712459278255836u64 && exp2_upper_at(982) == 12859712459278255861u64);
    assert(exp2_upper_at(983) == 12864065575500900619u64);
    assert(exp2_entries_fit_below(983));
    assert(exp2_lower_at(983) == 12864065575500900591u64 && exp2_upper_at(983) == 12864065575500900619u64);
    assert(exp2_upper_at(984) == 12868420165288441005u64);
    assert(exp2_entries_fit_below(984));
    assert(exp2_lower_at(984) == 12868420165288440985u64 && exp2_upper_at(984) == 12868420165288441005u64);
    assert(exp2_upper_at(985) == 12872776229139690605u64);
    assert(exp2_entries_fit_below(985));
    assert(exp2_lower_at(985) == 12872776229139690581u64 && exp2_upper_at(985) == 12872776229139690605u64);
    assert(exp2_upper_at(986) == 12877133767553631851u64);
    assert(exp2_entries_fit_below(986));
    assert(exp2_lower_at(986) == 12877133767553631826u64 && exp2_upper_at(986) == 12877133767553631851u64);
    assert(exp2_upper_at(987) == 12881492781029416088u64);
    assert(exp2_entries_fit_below(987));
    assert(exp2_lower_at(987) == 12881492781029416059u64 && exp2_upper_at(987) == 12881492781029416088u64);
    assert(exp2_upper_at(988) == 12885853270066363627u64);
    assert(exp2_entries_fit_below(988));
    assert(exp2_lower_at(988) == 12885853270066363602u64 && exp2_upper_at(988) == 12885853270066363627u64);
    assert(exp2_upper_at(989) == 12890215235163963808u64);
    assert(exp2_entries_fit_below(989));
    assert(exp2_lower_at(989) == 12890215235163963778u64 && exp2_upper_at(989) == 12890215235163963808u64);
    assert(exp2_upper_at(990) == 12894578676821875045u64);
    assert(exp2_entries_fit_below(990));
    assert(exp2_lower_at(990) == 12894578676821875015u64 && exp2_upper_at(990) == 12894578676821875045u64);
    assert(exp2_upper_at(991) == 12898943595539924893u64);
    assert(exp2_entries_fit_below(991));
    assert(exp2_lower_at(991) == 12898943595539924858u64 && exp2_upper_at(991) == 12898943595539924893u64);
    assert(exp2_upper_at(992) == 12903309991818110097u64);
    assert(exp2_entries_fit_below(992));
    assert(exp2_lower_at(992) == 12903309991818110080u64 && exp2_upper_at(992) == 12903309991818110097u64);
    assert(exp2_upper_at(993) == 12907677866156596679u64);
    assert(exp2_entries_fit_below(993));
    assert(exp2_lower_at(993) == 12907677866156596658u64 && exp2_upper_at(993) == 12907677866156596679u64);
    assert(exp2_upper_at(994) == 12912047219055719942u64);
    assert(exp2_entries_fit_below(994));
    assert(exp2_lower_at(994) == 12912047219055719922u64 && exp2_upper_at(994) == 12912047219055719942u64);
    assert(exp2_upper_at(995) == 12916418051015984568u64);
    assert(exp2_entries_fit_below(995));
    assert(exp2_lower_at(995) == 12916418051015984543u64 && exp2_upper_at(995) == 12916418051015984568u64);
    assert(exp2_upper_at(996) == 12920790362538064665u64);
    assert(exp2_entries_fit_below(996));
    assert(exp2_lower_at(996) == 12920790362538064642u64 && exp2_upper_at(996) == 12920790362538064665u64);
    assert(exp2_upper_at(997) == 12925164154122803823u64);
    assert(exp2_entries_fit_below(997));
    assert(exp2_lower_at(997) == 12925164154122803795u64 && exp2_upper_at(997) == 12925164154122803823u64);
    assert(exp2_upper_at(998) == 12929539426271215169u64);
    assert(exp2_entries_fit_below(998));
    assert(exp2_lower_at(998) == 12929539426271215143u64 && exp2_upper_at(998) == 12929539426271215169u64);
    assert(exp2_upper_at(999) == 12933916179484481427u64);
    assert(exp2_entries_fit_below(999));
    assert(exp2_lower_at(999) == 12933916179484481397u64 && exp2_upper_at(999) == 12933916179484481427u64);
    assert(exp2_upper_at(1000) == 12938294414263954979u64);
    assert(exp2_entries_fit_below(1000));
    assert(exp2_lower_at(1000) == 12938294414263954957u64 && exp2_upper_at(1000) == 12938294414263954979u64);
    assert(exp2_upper_at(1001) == 12942674131111157918u64);
    assert(exp2_entries_fit_below(1001));
    assert(exp2_lower_at(1001) == 12942674131111157892u64 && exp2_upper_at(1001) == 12942674131111157918u64);
    assert(exp2_upper_at(1002) == 12947055330527782104u64);
    assert(exp2_entries_fit_below(1002));
    assert(exp2_lower_at(1002) == 12947055330527782078u64 && exp2_upper_at(1002) == 12947055330527782104u64);
    assert(exp2_upper_at(1003) == 12951438013015689225u64);
    assert(exp2_entries_fit_below(1003));
    assert(exp2_lower_at(1003) == 12951438013015689193u64 && exp2_upper_at(1003) == 12951438013015689225u64);
    assert(exp2_upper_at(1004) == 12955822179076910850u64);
    assert(exp2_entries_fit_below(1004));
    assert(exp2_lower_at(1004) == 12955822179076910823u64 && exp2_upper_at(1004) == 12955822179076910850u64);
    assert(exp2_upper_at(1005) == 12960207829213648493u64);
    assert(exp2_entries_fit_below(1005));
    assert(exp2_lower_at(1005) == 12960207829213648466u64 && exp2_upper_at(1005) == 12960207829213648493u64);
    assert(exp2_upper_at(1006) == 12964594963928273674u64);
    assert(exp2_entries_fit_below(1006));
    assert(exp2_lower_at(1006) == 12964594963928273646u64 && exp2_upper_at(1006) == 12964594963928273674u64);
    assert(exp2_upper_at(1007) == 12968983583723327955u64);
    assert(exp2_entries_fit_below(1007));
    assert(exp2_lower_at(1007) == 12968983583723327922u64 && exp2_upper_at(1007) == 12968983583723327955u64);
    assert(exp2_upper_at(1008) == 12973373689101523018u64);
    assert(exp2_entries_fit_below(1008));
    assert(exp2_lower_at(1008) == 12973373689101522997u64 && exp2_upper_at(1008) == 12973373689101523018u64);
    assert(exp2_upper_at(1009) == 12977765280565740730u64);
    assert(exp2_entries_fit_below(1009));
    assert(exp2_lower_at(1009) == 12977765280565740706u64 && exp2_upper_at(1009) == 12977765280565740730u64);
    assert(exp2_upper_at(1010) == 12982158358619033171u64);
    assert(exp2_entries_fit_below(1010));
    assert(exp2_lower_at(1010) == 12982158358619033145u64 && exp2_upper_at(1010) == 12982158358619033171u64);
    assert(exp2_upper_at(1011) == 12986552923764622713u64);
    assert(exp2_entries_fit_below(1011));
    assert(exp2_lower_at(1011) == 12986552923764622684u64 && exp2_upper_at(1011) == 12986552923764622713u64);
    assert(exp2_upper_at(1012) == 12990948976505902074u64);
    assert(exp2_entries_fit_below(1012));
    assert(exp2_lower_at(1012) == 12990948976505902048u64 && exp2_upper_at(1012) == 12990948976505902074u64);
    assert(exp2_upper_at(1013) == 12995346517346434371u64);
    assert(exp2_entries_fit_below(1013));
    assert(exp2_lower_at(1013) == 12995346517346434344u64 && exp2_upper_at(1013) == 12995346517346434371u64);
    assert(exp2_upper_at(1014) == 12999745546789953193u64);
    assert(exp2_entries_fit_below(1014));
    assert(exp2_lower_at(1014) == 12999745546789953164u64 && exp2_upper_at(1014) == 12999745546789953193u64);
    assert(exp2_upper_at(1015) == 13004146065340362629u64);
    assert(exp2_entries_fit_below(1015));
    assert(exp2_lower_at(1015) == 13004146065340362596u64 && exp2_upper_at(1015) == 13004146065340362629u64);
    assert(exp2_upper_at(1016) == 13008548073501737356u64);
    assert(exp2_entries_fit_below(1016));
    assert(exp2_lower_at(1016) == 13008548073501737332u64 && exp2_upper_at(1016) == 13008548073501737356u64);
    assert(exp2_upper_at(1017) == 13012951571778322685u64);
    assert(exp2_entries_fit_below(1017));
    assert(exp2_lower_at(1017) == 13012951571778322654u64 && exp2_upper_at(1017) == 13012951571778322685u64);
    assert(exp2_upper_at(1018) == 13017356560674534609u64);
    assert(exp2_entries_fit_below(1018));
    assert(exp2_lower_at(1018) == 13017356560674534581u64 && exp2_upper_at(1018) == 13017356560674534609u64);
    assert(exp2_upper_at(1019) == 13021763040694959878u64);
    assert(exp2_entries_fit_below(1019));
    assert(exp2_lower_at(1019) == 13021763040694959844u64 && exp2_upper_at(1019) == 13021763040694959878u64);
    assert(exp2_upper_at(1020) == 13026171012344356043u64);
    assert(exp2_entries_fit_below(1020));
    assert(exp2_lower_at(1020) == 13026171012344356013u64 && exp2_upper_at(1020) == 13026171012344356043u64);
    assert(exp2_upper_at(1021) == 13030580476127651524u64);
    assert(exp2_entries_fit_below(1021));
    assert(exp2_lower_at(1021) == 13030580476127651489u64 && exp2_upper_at(1021) == 13030580476127651524u64);
    assert(exp2_upper_at(1022) == 13034991432549945663u64);
    assert(exp2_entries_fit_below(1022));
    assert(exp2_lower_at(1022) == 13034991432549945630u64 && exp2_upper_at(1022) == 13034991432549945663u64);
    assert(exp2_upper_at(1023) == 13039403882116508779u64);
    assert(exp2_entries_fit_below(1023));
    assert(exp2_lower_at(1023) == 13039403882116508740u64 && exp2_upper_at(1023) == 13039403882116508779u64);
    assert(exp2_upper_at(1024) == 13043817825332782213u64);
    assert(exp2_entries_fit_below(1024));
}

/// Entries 1024 to 1279 fit.
proof fn lemma_exp2_page_4()
    requires
        exp2_entries_fit_below(1024),
    ensures
        exp2_entries_fit_below(1280),
{
    reveal(exp2_lower_at);
    reveal(exp2_upper_at);
    assert(exp2_lower_at(1024) == 13043817825332782212u64 && exp2_upper_at(1024) == 13043817825332782213u64);
    assert(exp2_upper_at(1025) == 13048233262704378456u64);
    assert(exp2_entries_fit_below(1025));
    assert(exp2_lower_at(1025) == 13048233262704378451u64 && exp2_upper_at(1025) == 13048233262704378456u64);
    assert(exp2_upper_at(1026) == 13052650194737081099u64);
    assert(exp2_entries_fit_below(1026));
    assert(exp2_lower_at(1026) == 13052650194737081094u64 && exp2_upper_at(1026) == 13052650194737081099u64);
    assert(exp2_upper_at(1027) == 13057068621936844962u64);
    assert(exp2_entries_fit_below(1027));
    assert(exp2_lower_at(1027) == 13057068621936844953u64 && exp2_upper_at(1027) == 13057068621936844962u64);
    assert(exp2_upper_at(1028) == 13061488544809796134u64);
    assert(exp2_entries_fit_below(1028));
    assert(exp2_lower_at(1028) == 13061488544809796129u64 && exp2_upper_at(1028) == 13061488544809796134u64);
    assert(exp2_upper_at(1029) == 13065909963862232037u64);
    assert(exp2_entries_fit_below(1029));
    assert(exp2_lower_at(1029) == 13065909963862232028u64 && exp2_upper_at(1029) == 13065909963862232037u64);
    assert(exp2_upper_at(1030) == 13070332879600621473u64);
    assert(exp2_entries_fit_below(1030));
    assert(exp2_lower_at(1030) == 13070332879600621463u64 && exp2_upper_at(1030) == 13070332879600621473u64);
    assert(exp2_upper_at(1031) == 13074757292531604687u64);
    assert(exp2_entries_fit_below(1031));
    assert(exp2_lower_at(1031) == 13074757292531604673u64 && exp2_upper_at(1031) == 13074757292531604687u64);
    assert(exp2_upper_at(1032) == 13079183203161993429u64);
    assert(exp2_entries_fit_below(1032));
    assert(exp2_lower_at(1032) == 13079183203161993424u64 && exp2_upper_at(1032) == 13079183203161993429u64);
    assert(exp2_upper_at(1033) == 13083610611998771013u64);
    assert(exp2_entries_fit_below(1033));
    assert(exp2_lower_at(1033) == 13083610611998771004u64 && exp2_upper_at(1033) == 13083610611998771013u64);
    assert(exp2_upper_at(1034) == 13088039519549092363u64);
    assert(exp2_entries_fit_below(1034));
    assert(exp2_lower_at(1034) == 13088039519549092354u64 && exp2_upper_at(1034) == 13088039519549092363u64);
    assert(exp2_upper_at(1035) == 13092469926320284081u64);
    assert(exp2_entries_fit_below(1035));
    assert(exp2_lower_at(1035) == 13092469926320284068u64 && exp2_upper_at(1035) == 13092469926320284081u64);
    assert(exp2_upper_at(1036) == 13096901832819844506u64);
    assert(exp2_entries_fit_below(1036));
    assert(exp2_lower_at(1036) == 13096901832819844497u64 && exp2_upper_at(1036) == 13096901832819844506u64);
    assert(exp2_upper_at(1037) == 13101335239555443768u64);
    assert(exp2_entries_fit_below(1037));
    assert(exp2_lower_at(1037) == 13101335239555443754u64 && exp2_upper_at(1037) == 13101335239555443768u64);
    assert(exp2_upper_at(1038) == 13105770147034923846u64);
    assert(exp2_entries_fit_below(1038));
    assert(exp2_lower_at(1038) == 13105770147034923833u64 && exp2_upper_at(1038) == 13105770147034923846u64);
    assert(exp2_upper_at(1039) == 13110206555766298628u64);
    assert(exp2_entries_fit_below(1039));
    assert(exp2_lower_at(1039) == 13110206555766298611u64 && exp2_upper_at(1039) == 13110206555766298628u64);
    assert(exp2_upper_at(1040) == 13114644466257753966u64);
    assert(exp2_entries_fit_below(1040));
    assert(exp2_lower_at(1040) == 13114644466257753961u64 && exp2_upper_at(1040) == 13114644466257753966u64);
    assert(exp2_upper_at(1041) == 13119083879017647752u64);
    assert(exp2_entries_fit_below(1041));
    assert(exp2_lower_at(1041) == 13119083879017647742u64 && exp2_upper_at(1041) == 13119083879017647752u64);
    assert(exp2_upper_at(1042) == 13123524794554509940u64);
    assert(exp2_entries_fit_below(1042));
    assert(exp2_lower_at(1042) == 13123524794554509931u64 && exp2_upper_at(1042) == 13123524794554509940u64);
    assert(exp2_upper_at(1043) == 13127967213377042639u64);
    assert(exp2_entries_fit_below(1043));
    assert(exp2_lower_at(1043) == 13127967213377042626u64 && exp2_upper_at(1043) == 13127967213377042639u64);
    assert(exp2_upper_at(1044) == 13132411135994120153u64);
    assert(exp2_entries_fit_below(1044));
    assert(exp2_lower_at(1044) == 13132411135994120143u64 && exp2_upper_at(1044) == 13132411135994120153u64);
    assert(exp2_upper_at(1045) == 13136856562914789043u64);
    assert(exp2_entries_fit_below(1045));
    assert(exp2_lower_at(1045) == 13136856562914789030u64 && exp2_upper_at(1045) == 13136856562914789043u64);
    assert(exp2_upper_at(1046) == 13141303494648268193u64);
    assert(exp2_entries_fit_below(1046));
    assert(exp2_lower_at(1046) == 13141303494648268180u64 && exp2_upper_at(1046) == 13141303494648268193u64);
    assert(exp2_upper_at(1047) == 13145751931703948852u64);
    assert(exp2_entries_fit_below(1047));
    assert(exp2_lower_at(1047) == 13145751931703948834u64 && exp2_upper_at(1047) == 13145751931703948852u64);
    assert(exp2_upper_at(1048) == 13150201874591394709u64);
    assert(exp2_entries_fit_below(1048));
    assert(exp2_lower_at(1048) == 13150201874591394700u64 && exp2_upper_at(1048) == 13150201874591394709u64);
    assert(exp2_upper_at(1049) == 13154653323820341943u64);
    assert(exp2_entries_fit_below(1049));
    assert(exp2_lower_at(1049) == 13154653323820341930u64 && exp2_upper_at(1049) == 13154653323820341943u64);
    assert(exp2_upper_at(1050) == 13159106279900699285u64);
    assert(exp2_entries_fit_below(1050));
    assert(exp2_lower_at(1050) == 13159106279900699272u64 && exp2_upper_at(1050) == 13159106279900699285u64);
    assert(exp2_upper_at(1051) == 13163560743342548067u64);
    assert(exp2_entries_fit_below(1051));
    assert(exp2_lower_at(1051) == 13163560743342548049u64 && exp2_upper_at(1051) == 13163560743342548067u64);
    assert(exp2_upper_at(1052) == 13168016714656142293u64);
    assert(exp2_entries_fit_below(1052));
    assert(exp2_lower_at(1052) == 13168016714656142279u64 && exp2_upper_at(1052) == 13168016714656142293u64);
    assert(exp2_upper_at(1053) == 13172474194351908692u64);
    assert(exp2_entries_fit_below(1053));
    assert(exp2_lower_at(1053) == 13172474194351908673u64 && exp2_upper_at(1053) == 13172474194351908692u64);
    assert(exp2_upper_at(1054) == 13176933182940446777u64);
    assert(exp2_entries_fit_below(1054));
    assert(exp2_lower_at(1054) == 13176933182940446760u64 && exp2_upper_at(1054) == 13176933182940446777u64);
    assert(exp2_upper_at(1055) == 13181393680932528900u64);
    assert(exp2_entries_fit_below(1055));
    assert(exp2_lower_at(1055) == 13181393680932528877u64 && exp2_upper_at(1055) == 13181393680932528900u64);
    assert(exp2_upper_at(1056) == 13185855688839100307u64);
    assert(exp2_entries_fit_below(1056));
    assert(exp2_lower_at(1056) == 13185855688839100302u64 && exp2_upper_at(1056) == 13185855688839100307u64);
    assert(exp2_upper_at(1057) == 13190319207171279231u64);
    assert(exp2_entries_fit_below(1057));
    assert(exp2_lower_at(1057) == 13190319207171279222u64 && exp2_upper_at(1057) == 13190319207171279231u64);
    assert(exp2_upper_at(1058) == 13194784236440356891u64);
    assert(exp2_entries_fit_below(1058));
    assert(exp2_lower_at(1058) == 13194784236440356882u64 && exp2_upper_at(1058) == 13194784236440356891u64);
    assert(exp2_upper_at(1059) == 13199250777157797596u64);
    assert(exp2_entries_fit_below(1059));
    assert(exp2_lower_at(1059) == 13199250777157797583u64 && exp2_upper_at(1059) == 13199250777157797596u64);
    assert(exp2_upper_at(1060) == 13203718829835238787u64);
    assert(exp2_entries_fit_below(1060));
    assert(exp2_lower_at(1060) == 13203718829835238778u64 && exp2_upper_at(1060) == 13203718829835238787u64);
    assert(exp2_upper_at(1061) == 13208188394984491103u64);
    assert(exp2_entries_fit_below(1061));
    assert(exp2_lower_at(1061) == 13208188394984491090u64 && exp2_upper_at(1061) == 13208188394984491103u64);
    assert(exp2_upper_at(1062) == 13212659473117538429u64);
    assert(exp2_entries_fit_below(1062));
    assert(exp2_lower_at(1062) == 13212659473117538416u64 && exp2_upper_at(1062) == 13212659473117538429u64);
    assert(exp2_upper_at(1063) == 13217132064746537962u64);
    assert(exp2_entries_fit_below(1063));
    assert(exp2_lower_at(1063) == 13217132064746537945u64 && exp2_upper_at(1063) == 13217132064746537962u64);
    assert(exp2_upper_at(1064) == 13221606170383820269u64);
    assert(exp2_entries_fit_below(1064));
    assert(exp2_lower_at(1064) == 13221606170383820260u64 && exp2_upper_at(1064) == 13221606170383820269u64);
    assert(exp2_upper_at(1065) == 13226081790541889350u64);
    assert(exp2_entries_fit_below(1065));
    assert(exp2_lower_at(1065) == 13226081790541889337u64 && exp2_upper_at(1065) == 13226081790541889350u64);
    assert(exp2_upper_at(1066) == 13230558925733422686u64);
    assert(exp2_entries_fit_below(1066));
    assert(exp2_lower_at(1066) == 13230558925733422673u64 && exp2_upper_at(1066) == 13230558925733422686u64);
    assert(exp2_upper_at(1067) == 13235037576471271302u64);
    assert(exp2_entries_fit_below(1067));
    assert(exp2_lower_at(1067) == 13235037576471271283u64 && exp2_upper_at(1067) == 13235037576471271302u64);
    assert(exp2_upper_at(1068) == 13239517743268459830u64);
    assert(exp2_entries_fit_below(1068));
    assert(exp2_lower_at(1068) == 13239517743268459817u64 && exp2_upper_at(1068) == 13239517743268459830u64);
    assert(exp2_upper_at(1069) == 13243999426638186568u64);
    assert(exp2_entries_fit_below(1069));
    assert(exp2_lower_at(1069) == 13243999426638186550u64 && exp2_upper_at(1069) == 13243999426638186568u64);
    assert(exp2_upper_at(1070) == 13248482627093823531u64);
    assert(exp2_entries_fit_below(1070));
    assert(exp2_lower_at(1070) == 13248482627093823513u64 && exp2_upper_at(1070) == 13248482627093823531u64);
    assert(exp2_upper_at(1071) == 13252967345148916515u64);
    assert(exp2_entries_fit_below(1071));
    assert(exp2_lower_at(1071) == 13252967345148916493u64 && exp2_upper_at(1071) == 13252967345148916515u64);
    assert(exp2_upper_at(1072) == 13257453581317185151u64);
    assert(exp2_entries_fit_below(1072));
    assert(exp2_lower_at(1072) == 13257453581317185142u64 && exp2_upper_at(1072) == 13257453581317185151u64);
    assert(exp2_upper_at(1073) == 13261941336112522989u64);
    assert(exp2_entries_fit_below(1073));
    assert(exp2_lower_at(1073) == 13261941336112522976u64 && exp2_upper_at(1073) == 13261941336112522989u64);
    assert(exp2_upper_at(1074) == 13266430610048997512u64);
    assert(exp2_entries_fit_below(1074));
    assert(exp2_lower_at(1074) == 13266430610048997499u64 && exp2_upper_at(1074) == 13266430610048997512u64);
    assert(exp2_upper_at(1075) == 13270921403640850227u64);
    assert(exp2_entries_fit_below(1075));
    assert(exp2_lower_at(1075) == 13270921403640850210u64 && exp2_upper_at(1075) == 13270921403640850227u64);
    assert(exp2_upper_at(1076) == 13275413717402496719u64);
    assert(exp2_entries_fit_below(1076));
    assert(exp2_lower_at(1076) == 13275413717402496706u64 && exp2_upper_at(1076) == 13275413717402496719u64);
    assert(exp2_upper_at(1077) == 13279907551848526703u64);
    assert(exp2_entries_fit_below(1077));
    assert(exp2_lower_at(1077) == 13279907551848526686u64 && exp2_upper_at(1077) == 13279907551848526703u64);
    assert(exp2_upper_at(1078) == 13284402907493704092u64);
    assert(exp2_entries_fit_below(1078));
    assert(exp2_lower_at(1078) == 13284402907493704074u64 && exp2_upper_at(1078) == 13284402907493704092u64);
    assert(exp2_upper_at(1079) == 13288899784852967041u64);
    assert(exp2_entries_fit_below(1079));
    assert(exp2_lower_at(1079) == 13288899784852967020u64 && exp2_upper_at(1079) == 13288899784852967041u64);
    assert(exp2_upper_at(1080) == 13293398184441428026u64);
    assert(exp2_entries_fit_below(1080));
    assert(exp2_lower_at(1080) == 13293398184441428013u64 && exp2_upper_at(1080) == 13293398184441428026u64);
    assert(exp2_upper_at(1081) == 13297898106774373889u64);
    assert(exp2_entries_fit_below(1081));
    assert(exp2_lower_at(1081) == 13297898106774373872u64 && exp2_upper_at(1081) == 13297898106774373889u64);
    assert(exp2_upper_at(1082) == 13302399552367265901u64);
    assert(exp2_entries_fit_below(1082));
    assert(exp2_lower_at(1082) == 13302399552367265883u64 && exp2_upper_at(1082) == 13302399552367265901u64);
    assert(exp2_upper_at(1083) == 13306902521735739816u64);
    assert(exp2_entries_fit_below(1083));
    assert(exp2_lower_at(1083) == 13306902521735739794u64 && exp2_upper_at(1083) == 13306902521735739816u64);
    assert(exp2_upper_at(1084) == 13311407015395605941u64);
    assert(exp2_entries_fit_below(1084));
    assert(exp2_lower_at(1084) == 13311407015395605922u64 && exp2_upper_at(1084) == 13311407015395605941u64);
    assert(exp2_upper_at(1085) == 13315913033862849187u64);
    assert(exp2_entries_fit_below(1085));
    assert(exp2_lower_at(1085) == 13315913033862849164u64 && exp2_upper_at(1085) == 13315913033862849187u64);
    assert(exp2_upper_at(1086) == 13320420577653629131u64);
    assert(exp2_entries_fit_below(1086));
    assert(exp2_lower_at(1086) == 13320420577653629110u64 && exp2_upper_at(1086) == 13320420577653629131u64);
    assert(exp2_upper_at(1087) == 13324929647284280072u64);
    assert(exp2_entries_fit_below(1087));
    assert(exp2_lower_at(1087) == 13324929647284280044u64 && exp2_upper_at(1087) == 13324929647284280072u64);
    assert(exp2_upper_at(1088) == 13329440243271311083u64);
    assert(exp2_entries_fit_below(1088));
    assert(exp2_lower_at(1088) == 13329440243271311078u64 && exp2_upper_at(1088) == 13329440243271311083u64);
    assert(exp2_upper_at(1089) == 13333952366131406111u64);
    assert(exp2_entries_fit_below(1089));
    assert(exp2_lower_at(1089) == 13333952366131406102u64 && exp2_upper_at(1089) == 13333952366131406111u64);
    assert(exp2_upper_at(1090) == 13338466016381423974u64);
    assert(exp2_entries_fit_below(1090));
    assert(exp2_lower_at(1090) == 13338466016381423964u64 && exp2_upper_at(1090) == 13338466016381423974u64);
    assert(exp2_upper_at(1091) == 13342981194538398458u64);
    assert(exp2_entries_fit_below(1091));
    assert(exp2_lower_at(1091) == 13342981194538398445u64 && exp2_upper_at(1091) == 13342981194538398458u64);
    assert(exp2_upper_at(1092) == 13347497901119538373u64);
    assert(exp2_entries_fit_below(1092));
    assert(exp2_lower_at(1092) == 13347497901119538364u64 && exp2_upper_at(1092) == 13347497901119538373u64);
    assert(exp2_upper_at(1093) == 13352016136642227608u64);
    assert(exp2_entries_fit_below(1093));
    assert(exp2_lower_at(1093) == 13352016136642227595u64 && exp2_upper_at(1093) == 13352016136642227608u64);
    assert(exp2_upper_at(1094) == 13356535901624025191u64);
    assert(exp2_entries_fit_below(1094));
    assert(exp2_lower_at(1094) == 13356535901624025177u64 && exp2_upper_at(1094) == 13356535901624025191u64);
    assert(exp2_upper_at(1095) == 13361057196582665339u64);
    assert(exp2_entries_fit_below(1095));
    assert(exp2_lower_at(1095) == 13361057196582665322u64 && exp2_upper_at(1095) == 13361057196582665339u64);
    assert(exp2_upper_at(1096) == 13365580022036057539u64);
    assert(exp2_entries_fit_below(1096));
    assert(exp2_lower_at(1096) == 13365580022036057530u64 && exp2_upper_at(1096) == 13365580022036057539u64);
    assert(exp2_upper_at(1097) == 13370104378502286592u64);
    assert(exp2_entries_fit_below(1097));
    assert(exp2_lower_at(1097) == 13370104378502286578u64 && exp2_upper_at(1097) == 13370104378502286592u64);
    assert(exp2_upper_at(1098) == 13374630266499612669u64);
    assert(exp2_entries_fit_below(1098));
    assert(exp2_lower_at(1098) == 13374630266499612655u64 && exp2_upper_at(1098) == 13374630266499612669u64);
    assert(exp2_upper_at(1099) == 13379157686546471378u64);
    assert(exp2_entries_fit_below(1099));
    assert(exp2_lower_at(1099) == 13379157686546471359u64 && exp2_upper_at(1099) == 13379157686546471378u64);
    assert(exp2_upper_at(1100) == 13383686639161473823u64);
    assert(exp2_entries_fit_below(1100));
    assert(exp2_lower_at(1100) == 13383686639161473809u64 && exp2_upper_at(1100) == 13383686639161473823u64);
    assert(exp2_upper_at(1101) == 13388217124863406663u64);
    assert(exp2_entries_fit_below(1101));
    assert(exp2_lower_at(1101) == 13388217124863406645u64 && exp2_upper_at(1101) == 13388217124863406663u64);
    assert(exp2_upper_at(1102) == 13392749144171232171u64);
    assert(exp2_entries_fit_below(1102));
    assert(exp2_lower_at(1102) == 13392749144171232153u64 && exp2_upper_at(1102) == 13392749144171232171u64);
    assert(exp2_upper_at(1103) == 13397282697604088288u64);
    assert(exp2_entries_fit_below(1103));
    assert(exp2_lower_at(1103) == 13397282697604088266u64 && exp2_upper_at(1103) == 13397282697604088288u64);
    assert(exp2_upper_at(1104) == 13401817785681288687u64);
    assert(exp2_entries_fit_below(1104));
    assert(exp2_lower_at(1104) == 13401817785681288678u64 && exp2_upper_at(1104) == 13401817785681288687u64);
    assert(exp2_upper_at(1105) == 13406354408922322849u64);
    assert(exp2_entries_fit_below(1105));
    assert(exp2_lower_at(1105) == 13406354408922322835u64 && exp2_upper_at(1105) == 13406354408922322849u64);
    assert(exp2_upper_at(1106) == 13410892567846856085u64);
    assert(exp2_entries_fit_below(1106));
    assert(exp2_lower_at(1106) == 13410892567846856072u64 && exp2_upper_at(1106) == 13410892567846856085u64);
    assert(exp2_upper_at(1107) == 13415432262974729629u64);
    assert(exp2_entries_fit_below(1107));
    assert(exp2_lower_at(1107) == 13415432262974729612u64 && exp2_upper_at(1107) == 13415432262974729629u64);
    assert(exp2_upper_at(1108) == 13419973494825960680u64);
    assert(exp2_entries_fit_below(1108));
    assert(exp2_lower_at(1108) == 13419973494825960667u64 && exp2_upper_at(1108) == 13419973494825960680u64);
    assert(exp2_upper_at(1109) == 13424516263920742469u64);
    assert(exp2_entries_fit_below(1109));
    assert(exp2_lower_at(1109) == 13424516263920742452u64 && exp2_upper_at(1109) == 13424516263920742469u64);
    assert(exp2_upper_at(1110) == 13429060570779444322u64);
    assert(exp2_entries_fit_below(1110));
    assert(exp2_lower_at(1110) == 13429060570779444304u64 && exp2_upper_at(1110) == 13429060570779444322u64);
    assert(exp2_upper_at(1111) == 13433606415922611700u64);
    assert(exp2_entries_fit_below(1111));
    assert(exp2_lower_at(1111) == 13433606415922611678u64 && exp2_upper_at(1111) == 13433606415922611700u64);
    assert(exp2_upper_at(1112) == 13438153799870966288u64);
    assert(exp2_entries_fit_below(1112));
    assert(exp2_lower_at(1112) == 13438153799870966274u64 && exp2_upper_at(1112) == 13438153799870966288u64);
    assert(exp2_upper_at(1113) == 13442702723145406034u64);
    assert(exp2_entries_fit_below(1113));
    assert(exp2_lower_at(1113) == 13442702723145406016u64 && exp2_upper_at(1113) == 13442702723145406034u64);
    assert(exp2_upper_at(1114) == 13447253186267005212u64);
    assert(exp2_entries_fit_below(1114));
    assert(exp2_lower_at(1114) == 13447253186267005194u64 && exp2_upper_at(1114) == 13447253186267005212u64);
    assert(exp2_upper_at(1115) == 13451805189757014485u64);
    assert(exp2_entries_fit_below(1115));
    assert(exp2_lower_at(1115) == 13451805189757014464u64 && exp2_upper_at(1115) == 13451805189757014485u64);
    assert(exp2_upper_at(1116) == 13456358734136860964u64);
    assert(exp2_entries_fit_below(1116));
    assert(exp2_lower_at(1116) == 13456358734136860946u64 && exp2_upper_at(1116) == 13456358734136860964u64);
    assert(exp2_upper_at(1117) == 13460913819928148267u64);
    assert(exp2_entries_fit_below(1117));
    assert(exp2_lower_at(1117) == 13460913819928148244u64 && exp2_upper_at(1117) == 13460913819928148267u64);
    assert(exp2_upper_at(1118) == 13465470447652656581u64);
    assert(exp2_entries_fit_below(1118));
    assert(exp2_lower_at(1118) == 13465470447652656558u64 && exp2_upper_at(1118) == 13465470447652656581u64);
    assert(exp2_upper_at(1119) == 13470028617832342715u64);
    assert(exp2_entries_fit_below(1119));
    assert(exp2_lower_at(1119) == 13470028617832342686u64 && exp2_upper_at(1119) == 13470028617832342715u64);
    assert(exp2_upper_at(1120) == 13474588330989340159u64);
    assert(exp2_entries_fit_below(1120));
    assert(exp2_lower_at(1120) == 13474588330989340150u64 && exp2_upper_at(1120) == 13474588330989340159u64);
    assert(exp2_upper_at(1121) == 13479149587645959180u64);
    assert(exp2_entries_fit_below(1121));
    assert(exp2_lower_at(1121) == 13479149587645959166u64 && exp2_upper_at(1121) == 13479149587645959180u64);
    assert(exp2_upper_at(1122) == 13483712388324686816u64);
    assert(exp2_entries_fit_below(1122));
    assert(exp2_lower_at(1122) == 13483712388324686802u64 && exp2_upper_at(1122) == 13483712388324686816u64);
    assert(exp2_upper_at(1123) == 13488276733548186986u64);
    assert(exp2_entries_fit_below(1123));
    assert(exp2_lower_at(1123) == 13488276733548186967u64 && exp2_upper_at(1123) == 13488276733548186986u64);
    assert(exp2_upper_at(1124) == 13492842623839300530u64);
    assert(exp2_entries_fit_below(1124));
    assert(exp2_lower_at(1124) == 13492842623839300515u64 && exp2_upper_at(1124) == 13492842623839300530u64);
    assert(exp2_upper_at(1125) == 13497410059721045283u64);
    assert(exp2_entries_fit_below(1125));
    assert(exp2_lower_at(1125) == 13497410059721045264u64 && exp2_upper_at(1125) == 13497410059721045283u64);
    assert(exp2_upper_at(1126) == 13501979041716616116u64);
    assert(exp2_entries_fit_below(1126));
    assert(exp2_lower_at(1126) == 13501979041716616099u64 && exp2_upper_at(1126) == 13501979041716616116u64);
    assert(exp2_upper_at(1127) == 13506549570349385011u64);
    assert(exp2_entries_fit_below(1127));
    assert(exp2_lower_at(1127) == 13506549570349384988u64 && exp2_upper_at(1127) == 13506549570349385011u64);
    assert(exp2_upper_at(1128) == 13511121646142901110u64);
    assert(exp2_entries_fit_below(1128));
    assert(exp2_lower_at(1128) == 13511121646142901097u64 && exp2_upper_at(1128) == 13511121646142901110u64);
    assert(exp2_upper_at(1129) == 13515695269620890790u64);
    assert(exp2_entries_fit_below(1129));
    assert(exp2_lower_at(1129) == 13515695269620890772u64 && exp2_upper_at(1129) == 13515695269620890790u64);
    assert(exp2_upper_at(1130) == 13520270441307257709u64);
    assert(exp2_entries_fit_below(1130));
    assert(exp2_lower_at(1130) == 13520270441307257690u64 && exp2_upper_at(1130) == 13520270441307257709u64);
    assert(exp2_upper_at(1131) == 13524847161726082866u64);
    assert(exp2_entries_fit_below(1131));
    assert(exp2_lower_at(1131) == 13524847161726082841u64 && exp2_upper_at(1131) == 13524847161726082866u64);
    assert(exp2_upper_at(1132) == 13529425431401624669u64);
    assert(exp2_entries_fit_below(1132));
    assert(exp2_lower_at(1132) == 13529425431401624650u64 && exp2_upper_at(1132) == 13529425431401624669u64);
    assert(exp2_upper_at(1133) == 13534005250858318994u64);
    assert(exp2_entries_fit_below(1133));
    assert(exp2_lower_at(1133) == 13534005250858318972u64 && exp2_upper_at(1133) == 13534005250858318994u64);
    assert(exp2_upper_at(1134) == 13538586620620779244u64);
    assert(exp2_entries_fit_below(1134));
    assert(exp2_lower_at(1134) == 13538586620620779222u64 && exp2_upper_at(1134) == 13538586620620779244u64);
    assert(exp2_upper_at(1135) == 13543169541213796400u64);
    assert(exp2_entries_fit_below(1135));
    assert(exp2_lower_at(1135) == 13543169541213796374u64 && exp2_upper_at(1135) == 13543169541213796400u64);
    assert(exp2_upper_at(1136) == 13547754013162339090u64);
    assert(exp2_entries_fit_below(1136));
    assert(exp2_lower_at(1136) == 13547754013162339077u64 && exp2_upper_at(1136) == 13547754013162339090u64);
    assert(exp2_upper_at(1137) == 13552340036991553665u64);
    assert(exp2_entries_fit_below(1137));
    assert(exp2_lower_at(1137) == 13552340036991553647u64 && exp2_upper_at(1137) == 13552340036991553665u64);
    assert(exp2_upper_at(1138) == 13556927613226764222u64);
    assert(exp2_entries_fit_below(1138));
    assert(exp2_lower_at(1138) == 13556927613226764204u64 && exp2_upper_at(1138) == 13556927613226764222u64);
    assert(exp2_upper_at(1139) == 13561516742393472692u64);
    assert(exp2_entries_fit_below(1139));
    assert(exp2_lower_at(1139) == 13561516742393472668u64 && exp2_upper_at(1139) == 13561516742393472692u64);
    assert(exp2_upper_at(1140) == 13566107425017358890u64);
    assert(exp2_entries_fit_below(1140));
    assert(exp2_lower_at(1140) == 13566107425017358873u64 && exp2_upper_at(1140) == 13566107425017358890u64);
    assert(exp2_upper_at(1141) == 13570699661624280583u64);
    assert(exp2_entries_fit_below(1141));
    assert(exp2_lower_at(1141) == 13570699661624280561u64 && exp2_upper_at(1141) == 13570699661624280583u64);
    assert(exp2_upper_at(1142) == 13575293452740273543u64);
    assert(exp2_entries_fit_below(1142));
    assert(exp2_lower_at(1142) == 13575293452740273521u64 && exp2_upper_at(1142) == 13575293452740273543u64);
    assert(exp2_upper_at(1143) == 13579888798891551605u64);
    assert(exp2_entries_fit_below(1143));
    assert(exp2_lower_at(1143) == 13579888798891551579u64 && exp2_upper_at(1143) == 13579888798891551605u64);
    assert(exp2_upper_at(1144) == 13584485700604506737u64);
    assert(exp2_entries_fit_below(1144));
    assert(exp2_lower_at(1144) == 13584485700604506720u64 && exp2_upper_at(1144) == 13584485700604506737u64);
    assert(exp2_upper_at(1145) == 13589084158405709096u64);
    assert(exp2_entries_fit_below(1145));
    assert(exp2_lower_at(1145) == 13589084158405709073u64 && exp2_upper_at(1145) == 13589084158405709096u64);
    assert(exp2_upper_at(1146) == 13593684172821907082u64);
    assert(exp2_entries_fit_below(1146));
    assert(exp2_lower_at(1146) == 13593684172821907060u64 && exp2_upper_at(1146) == 13593684172821907082u64);
    assert(exp2_upper_at(1147) == 13598285744380027405u64);
    assert(exp2_entries_fit_below(1147));
    assert(exp2_lower_at(1147) == 13598285744380027378u64 && exp2_upper_at(1147) == 13598285744380027405u64);
    assert(exp2_upper_at(1148) == 13602888873607175144u64);
    assert(exp2_entries_fit_below(1148));
    assert(exp2_lower_at(1148) == 13602888873607175121u64 && exp2_upper_at(1148) == 13602888873607175144u64);
    assert(exp2_upper_at(1149) == 13607493561030633811u64);
    assert(exp2_entries_fit_below(1149));
    assert(exp2_lower_at(1149) == 13607493561030633782u64 && exp2_upper_at(1149) == 13607493561030633811u64);
    assert(exp2_upper_at(1150) == 13612099807177865403u64);
    assert(exp2_entries_fit_below(1150));
    assert(exp2_lower_at(1150) == 13612099807177865377u64 && exp2_upper_at(1150) == 13612099807177865403u64);
    assert(exp2_upper_at(1151) == 13616707612576510471u64);
    assert(exp2_entries_fit_below(1151));
    assert(exp2_lower_at(1151) == 13616707612576510439u64 && exp2_upper_at(1151) == 13616707612576510471u64);
    assert(exp2_upper_at(1152) == 13621316977754388162u64);
    assert(exp2_entries_fit_below(1152));
    assert(exp2_lower_at(1152) == 13621316977754388157u64 && exp2_upper_at(1152) == 13621316977754388162u64);
    assert(exp2_upper_at(1153) == 13625927903239496330u64);
    assert(exp2_entries_fit_below(1153));
    assert(exp2_lower_at(1153) == 13625927903239496319u64 && exp2_upper_at(1153) == 13625927903239496330u64);
    assert(exp2_upper_at(1154) == 13630540389560011524u64);
    assert(exp2_entries_fit_below(1154));
    assert(exp2_lower_at(1154) == 13630540389560011515u64 && exp2_upper_at(1154) == 13630540389560011524u64);
    assert(exp2_upper_at(1155) == 13635154437244289099u64);
    assert(exp2_entries_fit_below(1155));
    assert(exp2_lower_at(1155) == 13635154437244289086u64 && exp2_upper_at(1155) == 13635154437244289099u64);
    assert(exp2_upper_at(1156) == 13639770046820863261u64);
    assert(exp2_entries_fit_below(1156));
    assert(exp2_lower_at(1156) == 13639770046820863252u64 && exp2_upper_at(1156) == 13639770046820863261u64);
    assert(exp2_upper_at(1157) == 13644387218818447134u64);
    assert(exp2_entries_fit_below(1157));
    assert(exp2_lower_at(1157) == 13644387218818447119u64 && exp2_upper_at(1157) == 13644387218818447134u64);
    assert(exp2_upper_at(1158) == 13649005953765932807u64);
    assert(exp2_entries_fit_below(1158));
    assert(exp2_lower_at(1158) == 13649005953765932794u64 && exp2_upper_at(1158) == 13649005953765932807u64);
    assert(exp2_upper_at(1159) == 13653626252192391408u64);
    assert(exp2_entries_fit_below(1159));
    assert(exp2_lower_at(1159) == 13653626252192391391u64 && exp2_upper_at(1159) == 13653626252192391408u64);
    assert(exp2_upper_at(1160) == 13658248114627073160u64);
    assert(exp2_entries_fit_below(1160));
    assert(exp2_lower_at(1160) == 13658248114627073151u64 && exp2_upper_at(1160) == 13658248114627073160u64);
    assert(exp2_upper_at(1161) == 13662871541599407444u64);
    assert(exp2_entries_fit_below(1161));
    assert(exp2_lower_at(1161) == 13662871541599407431u64 && exp2_upper_at(1161) == 13662871541599407444u64);
    assert(exp2_upper_at(1162) == 13667496533639002852u64);
    assert(exp2_entries_fit_below(1162));
    assert(exp2_lower_at(1162) == 13667496533639002839u64 && exp2_upper_at(1162) == 13667496533639002852u64);
    assert(exp2_upper_at(1163) == 13672123091275647255u64);
    assert(exp2_entries_fit_below(1163));
    assert(exp2_lower_at(1163) == 13672123091275647236u64 && exp2_upper_at(1163) == 13672123091275647255u64);
    assert(exp2_upper_at(1164) == 13676751215039307858u64);
    assert(exp2_entries_fit_below(1164));
    assert(exp2_lower_at(1164) == 13676751215039307844u64 && exp2_upper_at(1164) == 13676751215039307858u64);
    assert(exp2_upper_at(1165) == 13681380905460131272u64);
    assert(exp2_entries_fit_below(1165));
    assert(exp2_lower_at(1165) == 13681380905460131254u64 && exp2_upper_at(1165) == 13681380905460131272u64);
    assert(exp2_upper_at(1166) == 13686012163068443562u64);
    assert(exp2_entries_fit_below(1166));
    assert(exp2_lower_at(1166) == 13686012163068443545u64 && exp2_upper_at(1166) == 13686012163068443562u64);
    assert(exp2_upper_at(1167) == 13690644988394750311u64);
    assert(exp2_entries_fit_below(1167));
    assert(exp2_lower_at(1167) == 13690644988394750288u64 && exp2_upper_at(1167) == 13690644988394750311u64);
    assert(exp2_upper_at(1168) == 13695279381969736679u64);
    assert(exp2_entries_fit_below(1168));
    assert(exp2_lower_at(1168) == 13695279381969736669u64 && exp2_upper_at(1168) == 13695279381969736679u64);
    assert(exp2_upper_at(1169) == 13699915344324267487u64);
    assert(exp2_entries_fit_below(1169));
    assert(exp2_lower_at(1169) == 13699915344324267474u64 && exp2_upper_at(1169) == 13699915344324267487u64);
    assert(exp2_upper_at(1170) == 13704552875989387233u64);
    assert(exp2_entries_fit_below(1170));
    assert(exp2_lower_at(1170) == 13704552875989387220u64 && exp2_upper_at(1170) == 13704552875989387233u64);
    assert(exp2_upper_at(1171) == 13709191977496320193u64);
    assert(exp2_entries_fit_below(1171));
    assert(exp2_lower_at(1171) == 13709191977496320175u64 && exp2_upper_at(1171) == 13709191977496320193u64);
    assert(exp2_upper_at(1172) == 13713832649376470460u64);
    assert(exp2_entries_fit_below(1172));
    assert(exp2_lower_at(1172) == 13713832649376470447u64 && exp2_upper_at(1172) == 13713832649376470460u64);
    assert(exp2_upper_at(1173) == 13718474892161422013u64);
    assert(exp2_entries_fit_below(1173));
    assert(exp2_lower_at(1173) == 13718474892161421996u64 && exp2_upper_at(1173) == 13718474892161422013u64);
    assert(exp2_upper_at(1174) == 13723118706382938781u64);
    assert(exp2_entries_fit_below(1174));
    assert(exp2_lower_at(1174) == 13723118706382938764u64 && exp2_upper_at(1174) == 13723118706382938781u64);
    assert(exp2_upper_at(1175) == 13727764092572964692u64);
    assert(exp2_entries_fit_below(1175));
    assert(exp2_lower_at(1175) == 13727764092572964668u64 && exp2_upper_at(1175) == 13727764092572964692u64);
    assert(exp2_upper_at(1176) == 13732411051263623744u64);
    assert(exp2_entries_fit_below(1176));
    assert(exp2_lower_at(1176) == 13732411051263623729u64 && exp2_upper_at(1176) == 13732411051263623744u64);
    assert(exp2_upper_at(1177) == 13737059582987220068u64);
    assert(exp2_entries_fit_below(1177));
    assert(exp2_lower_at(1177) == 13737059582987220050u64 && exp2_upper_at(1177) == 13737059582987220068u64);
    assert(exp2_upper_at(1178) == 13741709688276237979u64);
    assert(exp2_entries_fit_below(1178));
    assert(exp2_lower_at(1178) == 13741709688276237962u64 && exp2_upper_at(1178) == 13741709688276237979u64);
    assert(exp2_upper_at(1179) == 13746361367663342044u64);
    assert(exp2_entries_fit_below(1179));
    assert(exp2_lower_at(1179) == 13746361367663342020u64 && exp2_upper_at(1179) == 13746361367663342044u64);
    assert(exp2_upper_at(1180) == 13751014621681377137u64);
    assert(exp2_entries_fit_below(1180));
    assert(exp2_lower_at(1180) == 13751014621681377120u64 && exp2_upper_at(1180) == 13751014621681377137u64);
    assert(exp2_upper_at(1181) == 13755669450863368513u64);
    assert(exp2_entries_fit_below(1181));
    assert(exp2_lower_at(1181) == 13755669450863368489u64 && exp2_upper_at(1181) == 13755669450863368513u64);
    assert(exp2_upper_at(1182) == 13760325855742521855u64);
    assert(exp2_entries_fit_below(1182));
    assert(exp2_lower_at(1182) == 13760325855742521831u64 && exp2_upper_at(1182) == 13760325855742521855u64);
    assert(exp2_upper_at(1183) == 13764983836852223337u64);
    assert(exp2_entries_fit_below(1183));
    assert(exp2_lower_at(1183) == 13764983836852223308u64 && exp2_upper_at(1183) == 13764983836852223337u64);
    assert(exp2_upper_at(1184) == 13769643394726039688u64);
    assert(exp2_entries_fit_below(1184));
    assert(exp2_lower_at(1184) == 13769643394726039677u64 && exp2_upper_at(1184) == 13769643394726039688u64);
    assert(exp2_upper_at(1185) == 13774304529897718275u64);
    assert(exp2_entries_fit_below(1185));
    assert(exp2_lower_at(1185) == 13774304529897718260u64 && exp2_upper_at(1185) == 13774304529897718275u64);
    assert(exp2_upper_at(1186) == 13778967242901187113u64);
    assert(exp2_entries_fit_below(1186));
    assert(exp2_lower_at(1186) == 13778967242901187099u64 && exp2_upper_at(1186) == 13778967242901187113u64);
    assert(exp2_upper_at(1187) == 13783631534270554973u64);
    assert(exp2_entries_fit_below(1187));
    assert(exp2_lower_at(1187) == 13783631534270554955u64 && exp2_upper_at(1187) == 13783631534270554973u64);
    assert(exp2_upper_at(1188) == 13788297404540111420u64);
    assert(exp2_entries_fit_below(1188));
    assert(exp2_lower_at(1188) == 13788297404540111406u64 && exp2_upper_at(1188) == 13788297404540111420u64);
    assert(exp2_upper_at(1189) == 13792964854244326884u64);
    assert(exp2_entries_fit_below(1189));
    assert(exp2_lower_at(1189) == 13792964854244326866u64 && exp2_upper_at(1189) == 13792964854244326884u64);
    assert(exp2_upper_at(1190) == 13797633883917852714u64);
    assert(exp2_entries_fit_below(1190));
    assert(exp2_lower_at(1190) == 13797633883917852697u64 && exp2_upper_at(1190) == 13797633883917852714u64);
    assert(exp2_upper_at(1191) == 13802304494095521246u64);
    assert(exp2_entries_fit_below(1191));
    assert(exp2_lower_at(1191) == 13802304494095521224u64 && exp2_upper_at(1191) == 13802304494095521246u64);
    assert(exp2_upper_at(1192) == 13806976685312345856u64);
    assert(exp2_entries_fit_below(1192));
    assert(exp2_lower_at(1192) == 13806976685312345841u64 && exp2_upper_at(1192) == 13806976685312345856u64);
    assert(exp2_upper_at(1193) == 13811650458103521034u64);
    assert(exp2_entries_fit_below(1193));
    assert(exp2_lower_at(1193) == 13811650458103521016u64 && exp2_upper_at(1193) == 13811650458103521034u64);
    assert(exp2_upper_at(1194) == 13816325813004422435u64);
    assert(exp2_entries_fit_below(1194));
    assert(exp2_lower_at(1194) == 13816325813004422416u64 && exp2_upper_at(1194) == 13816325813004422435u64);
    assert(exp2_upper_at(1195) == 13821002750550606937u64);
    assert(exp2_entries_fit_below(1195));
    assert(exp2_lower_at(1195) == 13821002750550606913u64 && exp2_upper_at(1195) == 13821002750550606937u64);
    assert(exp2_upper_at(1196) == 13825681271277812713u64);
    assert(exp2_entries_fit_below(1196));
    assert(exp2_lower_at(1196) == 13825681271277812696u64 && exp2_upper_at(1196) == 13825681271277812713u64);
    assert(exp2_upper_at(1197) == 13830361375721959292u64);
    assert(exp2_entries_fit_below(1197));
    assert(exp2_lower_at(1197) == 13830361375721959268u64 && exp2_upper_at(1197) == 13830361375721959292u64);
    assert(exp2_upper_at(1198) == 13835043064419147607u64);
    assert(exp2_entries_fit_below(1198));
    assert(exp2_lower_at(1198) == 13835043064419147585u64 && exp2_upper_at(1198) == 13835043064419147607u64);
    assert(exp2_upper_at(1199) == 13839726337905660073u64);
    assert(exp2_entries_fit_below(1199));
    assert(exp2_lower_at(1199) == 13839726337905660046u64 && exp2_upper_at(1199) == 13839726337905660073u64);
    assert(exp2_upper_at(1200) == 13844411196717960630u64);
    assert(exp2_entries_fit_below(1200));
    assert(exp2_lower_at(1200) == 13844411196717960617u64 && exp2_upper_at(1200) == 13844411196717960630u64);
    assert(exp2_upper_at(1201) == 13849097641392694839u64);
    assert(exp2_entries_fit_below(1201));
    assert(exp2_lower_at(1201) == 13849097641392694820u64 && exp2_upper_at(1201) == 13849097641392694839u64);
    assert(exp2_upper_at(1202) == 13853785672466689895u64);
    assert(exp2_entries_fit_below(1202));
    assert(exp2_lower_at(1202) == 13853785672466689876u64 && exp2_upper_at(1202) == 13853785672466689895u64);
    assert(exp2_upper_at(1203) == 13858475290476954721u64);
    assert(exp2_entries_fit_below(1203));
    assert(exp2_lower_at(1203) == 13858475290476954698u64 && exp2_upper_at(1203) == 13858475290476954721u64);
    assert(exp2_upper_at(1204) == 13863166495960680026u64);
    assert(exp2_entries_fit_below(1204));
    assert(exp2_lower_at(1204) == 13863166495960680008u64 && exp2_upper_at(1204) == 13863166495960680026u64);
    assert(exp2_upper_at(1205) == 13867859289455238360u64);
    assert(exp2_entries_fit_below(1205));
    assert(exp2_lower_at(1205) == 13867859289455238337u64 && exp2_upper_at(1205) == 13867859289455238360u64);
    assert(exp2_upper_at(1206) == 13872553671498184179u64);
    assert(exp2_entries_fit_below(1206));
    assert(exp2_lower_at(1206) == 13872553671498184156u64 && exp2_upper_at(1206) == 13872553671498184179u64);
    assert(exp2_upper_at(1207) == 13877249642627253899u64);
    assert(exp2_entries_fit_below(1207));
    assert(exp2_lower_at(1207) == 13877249642627253872u64 && exp2_upper_at(1207) == 13877249642627253899u64);
    assert(exp2_upper_at(1208) == 13881947203380365974u64);
    assert(exp2_entries_fit_below(1208));
    assert(exp2_lower_at(1208) == 13881947203380365956u64 && exp2_upper_at(1208) == 13881947203380365974u64);
    assert(exp2_upper_at(1209) == 13886646354295620943u64);
    assert(exp2_entries_fit_below(1209));
    assert(exp2_lower_at(1209) == 13886646354295620919u64 && exp2_upper_at(1209) == 13886646354295620943u64);
    assert(exp2_upper_at(1210) == 13891347095911301496u64);
    assert(exp2_entries_fit_below(1210));
    assert(exp2_lower_at(1210) == 13891347095911301473u64 && exp2_upper_at(1210) == 13891347095911301496u64);
    assert(exp2_upper_at(1211) == 13896049428765872534u64);
    assert(exp2_entries_fit_below(1211));
    assert(exp2_lower_at(1211) == 13896049428765872508u64 && exp2_upper_at(1211) == 13896049428765872534u64);
    assert(exp2_upper_at(1212) == 13900753353397981237u64);
    assert(exp2_entries_fit_below(1212));
    assert(exp2_lower_at(1212) == 13900753353397981214u64 && exp2_upper_at(1212) == 13900753353397981237u64);
    assert(exp2_upper_at(1213) == 13905458870346457120u64);
    assert(exp2_entries_fit_below(1213));
    assert(exp2_lower_at(1213) == 13905458870346457091u64 && exp2_upper_at(1213) == 13905458870346457120u64);
    assert(exp2_upper_at(1214) == 13910165980150312096u64);
    assert(exp2_entries_fit_below(1214));
    assert(exp2_lower_at(1214) == 13910165980150312068u64 && exp2_upper_at(1214) == 13910165980150312096u64);
    assert(exp2_upper_at(1215) == 13914874683348740534u64);
    assert(exp2_entries_fit_below(1215));
    assert(exp2_lower_at(1215) == 13914874683348740502u64 && exp2_upper_at(1215) == 13914874683348740534u64);
    assert(exp2_upper_at(1216) == 13919584980481119323u64);
    assert(exp2_entries_fit_below(1216));
    assert(exp2_lower_at(1216) == 13919584980481119314u64 && exp2_upper_at(1216) == 13919584980481119323u64);
    assert(exp2_upper_at(1217) == 13924296872087007958u64);
    assert(exp2_entries_fit_below(1217));
    assert(exp2_lower_at(1217) == 13924296872087007945u64 && exp2_upper_at(1217) == 13924296872087007958u64);
    assert(exp2_upper_at(1218) == 13929010358706148554u64);
    assert(exp2_entries_fit_below(1218));
    assert(exp2_lower_at(1218) == 13929010358706148541u64 && exp2_upper_at(1218) == 13929010358706148554u64);
    assert(exp2_upper_at(1219) == 13933725440878465939u64);
    assert(exp2_entries_fit_below(1219));
    assert(exp2_lower_at(1219) == 13933725440878465920u64 && exp2_upper_at(1219) == 13933725440878465939u64);
    assert(exp2_upper_at(1220) == 13938442119144067710u64);
    assert(exp2_entries_fit_below(1220));
    assert(exp2_lower_at(1220) == 13938442119144067696u64 && exp2_upper_at(1220) == 13938442119144067710u64);
    assert(exp2_upper_at(1221) == 13943160394043244300u64);
    assert(exp2_entries_fit_below(1221));
    assert(exp2_lower_at(1221) == 13943160394043244283u64 && exp2_upper_at(1221) == 13943160394043244300u64);
    assert(exp2_upper_at(1222) == 13947880266116469034u64);
    assert(exp2_entries_fit_below(1222));
    assert(exp2_lower_at(1222) == 13947880266116469015u64 && exp2_upper_at(1222) == 13947880266116469034u64);
    assert(exp2_upper_at(1223) == 13952601735904398179u64);
    assert(exp2_entries_fit_below(1223));
    assert(exp2_lower_at(1223) == 13952601735904398157u64 && exp2_upper_at(1223) == 13952601735904398179u64);
    assert(exp2_upper_at(1224) == 13957324803947871035u64);
    assert(exp2_entries_fit_below(1224));
    assert(exp2_lower_at(1224) == 13957324803947871020u64 && exp2_upper_at(1224) == 13957324803947871035u64);
    assert(exp2_upper_at(1225) == 13962049470787909976u64);
    assert(exp2_entries_fit_below(1225));
    assert(exp2_lower_at(1225) == 13962049470787909956u64 && exp2_upper_at(1225) == 13962049470787909976u64);
    assert(exp2_upper_at(1226) == 13966775736965720510u64);
    assert(exp2_entries_fit_below(1226));
    assert(exp2_lower_at(1226) == 13966775736965720492u64 && exp2_upper_at(1226) == 13966775736965720510u64);
    assert(exp2_upper_at(1227) == 13971503603022691354u64);
    assert(exp2_entries_fit_below(1227));
    assert(exp2_lower_at(1227) == 13971503603022691330u64 && exp2_upper_at(1227) == 13971503603022691354u64);
    assert(exp2_upper_at(1228) == 13976233069500394485u64);
    assert(exp2_entries_fit_below(1228));
    assert(exp2_lower_at(1228) == 13976233069500394466u64 && exp2_upper_at(1228) == 13976233069500394485u64);
    assert(exp2_upper_at(1229) == 13980964136940585208u64);
    assert(exp2_entries_fit_below(1229));
    assert(exp2_lower_at(1229) == 13980964136940585186u64 && exp2_upper_at(1229) == 13980964136940585208u64);
    assert(exp2_upper_at(1230) == 13985696805885202221u64);
    assert(exp2_entries_fit_below(1230));
    assert(exp2_lower_at(1230) == 13985696805885202199u64 && exp2_upper_at(1230) == 13985696805885202221u64);
    assert(exp2_upper_at(1231) == 13990431076876367666u64);
    assert(exp2_entries_fit_below(1231));
    assert(exp2_lower_at(1231) == 13990431076876367638u64 && exp2_upper_at(1231) == 13990431076876367666u64);
    assert(exp2_upper_at(1232) == 13995166950456387194u64);
    assert(exp2_entries_fit_below(1232));
    assert(exp2_lower_at(1232) == 13995166950456387179u64 && exp2_upper_at(1232) == 13995166950456387194u64);
    assert(exp2_upper_at(1233) == 13999904427167750050u64);
    assert(exp2_entries_fit_below(1233));
    assert(exp2_lower_at(1233) == 13999904427167750033u64 && exp2_upper_at(1233) == 13999904427167750050u64);
    assert(exp2_upper_at(1234) == 14004643507553129097u64);
    assert(exp2_entries_fit_below(1234));
    assert(exp2_lower_at(1234) == 14004643507553129080u64 && exp2_upper_at(1234) == 14004643507553129097u64);
    assert(exp2_upper_at(1235) == 14009384192155380906u64);
    assert(exp2_entries_fit_below(1235));
    assert(exp2_lower_at(1235) == 14009384192155380883u64 && exp2_upper_at(1235) == 14009384192155380906u64);
    assert(exp2_upper_at(1236) == 14014126481517545802u64);
    assert(exp2_entries_fit_below(1236));
    assert(exp2_lower_at(1236) == 14014126481517545784u64 && exp2_upper_at(1236) == 14014126481517545802u64);
    assert(exp2_upper_at(1237) == 14018870376182847940u64);
    assert(exp2_entries_fit_below(1237));
    assert(exp2_lower_at(1237) == 14018870376182847917u64 && exp2_upper_at(1237) == 14018870376182847940u64);
    assert(exp2_upper_at(1238) == 14023615876694695363u64);
    assert(exp2_entries_fit_below(1238));
    assert(exp2_lower_at(1238) == 14023615876694695340u64 && exp2_upper_at(1238) == 14023615876694695363u64);
    assert(exp2_upper_at(1239) == 14028362983596680049u64);
    assert(exp2_entries_fit_below(1239));
    assert(exp2_lower_at(1239) == 14028362983596680022u64 && exp2_upper_at(1239) == 14028362983596680049u64);
    assert(exp2_upper_at(1240) == 14033111697432578001u64);
    assert(exp2_entries_fit_below(1240));
    assert(exp2_lower_at(1240) == 14033111697432577984u64 && exp2_upper_at(1240) == 14033111697432578001u64);
    assert(exp2_upper_at(1241) == 14037862018746349292u64);
    assert(exp2_entries_fit_below(1241));
    assert(exp2_lower_at(1241) == 14037862018746349270u64 && exp2_upper_at(1241) == 14037862018746349292u64);
    assert(exp2_upper_at(1242) == 14042613948082138123u64);
    assert(exp2_entries_fit_below(1242));
    assert(exp2_lower_at(1242) == 14042613948082138101u64 && exp2_upper_at(1242) == 14042613948082138123u64);
    assert(exp2_upper_at(1243) == 14047367485984272896u64);
    assert(exp2_entries_fit_below(1243));
    assert(exp2_lower_at(1243) == 14047367485984272868u64 && exp2_upper_at(1243) == 14047367485984272896u64);
    assert(exp2_upper_at(1244) == 14052122632997266270u64);
    assert(exp2_entries_fit_below(1244));
    assert(exp2_lower_at(1244) == 14052122632997266247u64 && exp2_upper_at(1244) == 14052122632997266270u64);
    assert(exp2_upper_at(1245) == 14056879389665815231u64);
    assert(exp2_entries_fit_below(1245));
    assert(exp2_lower_at(1245) == 14056879389665815204u64 && exp2_upper_at(1245) == 14056879389665815231u64);
    assert(exp2_upper_at(1246) == 14061637756534801148u64);
    assert(exp2_entries_fit_below(1246));
    assert(exp2_lower_at(1246) == 14061637756534801119u64 && exp2_upper_at(1246) == 14061637756534801148u64);
    assert(exp2_upper_at(1247) == 14066397734149289832u64);
    assert(exp2_entries_fit_below(1247));
    assert(exp2_lower_at(1247) == 14066397734149289797u64 && exp2_upper_at(1247) == 14066397734149289832u64);
    assert(exp2_upper_at(1248) == 14071159323054531598u64);
    assert(exp2_entries_fit_below(1248));
    assert(exp2_lower_at(1248) == 14071159323054531583u64 && exp2_upper_at(1248) == 14071159323054531598u64);
    assert(exp2_upper_at(1249) == 14075922523795961362u64);
    assert(exp2_entries_fit_below(1249));
    assert(exp2_lower_at(1249) == 14075922523795961343u64 && exp2_upper_at(1249) == 14075922523795961362u64);
    assert(exp2_upper_at(1250) == 14080687336919198641u64);
    assert(exp2_entries_fit_below(1250));
    assert(exp2_lower_at(1250) == 14080687336919198624u64 && exp2_upper_at(1250) == 14080687336919198641u64);
    assert(exp2_upper_at(1251) == 14085453762970047663u64);
    assert(exp2_entries_fit_below(1251));
    assert(exp2_lower_at(1251) == 14085453762970047640u64 && exp2_upper_at(1251) == 14085453762970047663u64);
    assert(exp2_upper_at(1252) == 14090221802494497411u64);
    assert(exp2_entries_fit_below(1252));
    assert(exp2_lower_at(1252) == 14090221802494497390u64 && exp2_upper_at(1252) == 14090221802494497411u64);
    assert(exp2_upper_at(1253) == 14094991456038721694u64);
    assert(exp2_entries_fit_below(1253));
    assert(exp2_lower_at(1253) == 14094991456038721669u64 && exp2_upper_at(1253) == 14094991456038721694u64);
    assert(exp2_upper_at(1254) == 14099762724149079201u64);
    assert(exp2_entries_fit_below(1254));
    assert(exp2_lower_at(1254) == 14099762724149079178u64 && exp2_upper_at(1254) == 14099762724149079201u64);
    assert(exp2_upper_at(1255) == 14104535607372113570u64);
    assert(exp2_entries_fit_below(1255));
    assert(exp2_lower_at(1255) == 14104535607372113542u64 && exp2_upper_at(1255) == 14104535607372113570u64);
    assert(exp2_upper_at(1256) == 14109310106254553447u64);
    assert(exp2_entries_fit_below(1256));
    assert(exp2_lower_at(1256) == 14109310106254553428u64 && exp2_upper_at(1256) == 14109310106254553447u64);
    assert(exp2_upper_at(1257) == 14114086221343312554u64);
    assert(exp2_entries_fit_below(1257));
    assert(exp2_lower_at(1257) == 14114086221343312531u64 && exp2_upper_at(1257) == 14114086221343312554u64);
    assert(exp2_upper_at(1258) == 14118863953185489746u64);
    assert(exp2_entries_fit_below(1258));
    assert(exp2_lower_at(1258) == 14118863953185489722u64 && exp2_upper_at(1258) == 14118863953185489746u64);
    assert(exp2_upper_at(1259) == 14123643302328369070u64);
    assert(exp2_entries_fit_below(1259));
    assert(exp2_lower_at(1259) == 14123643302328369040u64 && exp2_upper_at(1259) == 14123643302328369070u64);
    assert(exp2_upper_at(1260) == 14128424269319419838u64);
    assert(exp2_entries_fit_below(1260));
    assert(exp2_lower_at(1260) == 14128424269319419814u64 && exp2_upper_at(1260) == 14128424269319419838u64);
    assert(exp2_upper_at(1261) == 14133206854706296683u64);
    assert(exp2_entries_fit_below(1261));
    assert(exp2_lower_at(1261) == 14133206854706296657u64 && exp2_upper_at(1261) == 14133206854706296683u64);
    assert(exp2_upper_at(1262) == 14137991059036839631u64);
    assert(exp2_entries_fit_below(1262));
    assert(exp2_lower_at(1262) == 14137991059036839605u64 && exp2_upper_at(1262) == 14137991059036839631u64);
    assert(exp2_upper_at(1263) == 14142776882859074143u64);
    assert(exp2_entries_fit_below(1263));
    assert(exp2_lower_at(1263) == 14142776882859074112u64 && exp2_upper_at(1263) == 14142776882859074143u64);
    assert(exp2_upper_at(1264) == 14147564326721211195u64);
    assert(exp2_entries_fit_below(1264));
    assert(exp2_lower_at(1264) == 14147564326721211176u64 && exp2_upper_at(1264) == 14147564326721211195u64);
    assert(exp2_upper_at(1265) == 14152353391171647350u64);
    assert(exp2_entries_fit_below(1265));
    assert(exp2_lower_at(1265) == 14152353391171647328u64 && exp2_upper_at(1265) == 14152353391171647350u64);
    assert(exp2_upper_at(1266) == 14157144076758964795u64);
    assert(exp2_entries_fit_below(1266));
    assert(exp2_lower_at(1266) == 14157144076758964771u64 && exp2_upper_at(1266) == 14157144076758964795u64);
    assert(exp2_upper_at(1267) == 14161936384031931414u64);
    assert(exp2_entries_fit_below(1267));
    assert(exp2_lower_at(1267) == 14161936384031931386u64 && exp2_upper_at(1267) == 14161936384031931414u64);
    assert(exp2_upper_at(1268) == 14166730313539500859u64);
    assert(exp2_entries_fit_below(1268));
    assert(exp2_lower_at(1268) == 14166730313539500836u64 && exp2_upper_at(1268) == 14166730313539500859u64);
    assert(exp2_upper_at(1269) == 14171525865830812608u64);
    assert(exp2_entries_fit_below(1269));
    assert(exp2_lower_at(1269) == 14171525865830812582u64 && exp2_upper_at(1269) == 14171525865830812608u64);
    assert(exp2_upper_at(1270) == 14176323041455192028u64);
    assert(exp2_entries_fit_below(1270));
    assert(exp2_lower_at(1270) == 14176323041455192000u64 && exp2_upper_at(1270) == 14176323041455192028u64);
    assert(exp2_upper_at(1271) == 14181121840962150428u64);
    assert(exp2_entries_fit_below(1271));
    assert(exp2_lower_at(1271) == 14181121840962150397u64 && exp2_upper_at(1271) == 14181121840962150428u64);
    assert(exp2_upper_at(1272) == 14185922264901385142u64);
    assert(exp2_entries_fit_below(1272));
    assert(exp2_lower_at(1272) == 14185922264901385118u64 && exp2_upper_at(1272) == 14185922264901385142u64);
    assert(exp2_upper_at(1273) == 14190724313822779578u64);
    assert(exp2_entries_fit_below(1273));
    assert(exp2_lower_at(1273) == 14190724313822779549u64 && exp2_upper_at(1273) == 14190724313822779578u64);
    assert(exp2_upper_at(1274) == 14195527988276403279u64);
    assert(exp2_entries_fit_below(1274));
    assert(exp2_lower_at(1274) == 14195527988276403253u64 && exp2_upper_at(1274) == 14195527988276403279u64);
    assert(exp2_upper_at(1275) == 14200333288812511998u64);
    assert(exp2_entries_fit_below(1275));
    assert(exp2_lower_at(1275) == 14200333288812511964u64 && exp2_upper_at(1275) == 14200333288812511998u64);
    assert(exp2_upper_at(1276) == 14205140215981547746u64);
    assert(exp2_entries_fit_below(1276));
    assert(exp2_lower_at(1276) == 14205140215981547717u64 && exp2_upper_at(1276) == 14205140215981547746u64);
    assert(exp2_upper_at(1277) == 14209948770334138870u64);
    assert(exp2_entries_fit_below(1277));
    assert(exp2_lower_at(1277) == 14209948770334138836u64 && exp2_upper_at(1277) == 14209948770334138870u64);
    assert(exp2_upper_at(1278) == 14214758952421100107u64);
    assert(exp2_entries_fit_below(1278));
    assert(exp2_lower_at(1278) == 14214758952421100075u64 && exp2_upper_at(1278) == 14214758952421100107u64);
    assert(exp2_upper_at(1279) == 14219570762793432650u64);
    assert(exp2_entries_fit_below(1279));
    assert(exp2_lower_at(1279) == 14219570762793432612u64 && exp2_upper_at(1279) == 14219570762793432650u64);
    assert(exp2_upper_at(1280) == 14224384202002324192u64);
    assert(exp2_entries_fit_below(1280));
}

/// Entries 1280 to 1535 fit.
proof fn lemma_exp2_page_5()
    requires
        exp2_entries_fit_below(1280),
    ensures
        exp2_entries_fit_below(1536),
{
    reveal(exp2_lower_at);
    reveal(exp2_upper_at);
    assert(exp2_lower_at(1280) == 14224384202002324187u64 && exp2_upper_at(1280) == 14224384202002324192u64);
    assert(exp2_upper_at(1281) == 14229199270599149057u64);
    assert(exp2_entries_fit_below(1281));
    assert(exp2_lower_at(1281) == 14229199270599149046u64 && exp2_upper_at(1281) == 14229199270599149057u64);
    assert(exp2_upper_at(1282) == 14234015969135468163u64);
    assert(exp2_entries_fit_below(1282));
    assert(exp2_lower_at(1282) == 14234015969135468154u64 && exp2_upper_at(1282) == 14234015969135468163u64);
    assert(exp2_upper_at(1283) == 14238834298163029157u64);
    assert(exp2_entries_fit_below(1283));
    assert(exp2_lower_at(1283) == 14238834298163029142u64 && exp2_upper_at(1283) == 14238834298163029157u64);
    assert(exp2_upper_at(1284) == 14243654258233766451u64);
    assert(exp2_entries_fit_below(1284));
    assert(exp2_lower_at(1284) == 14243654258233766442u64 && exp2_upper_at(1284) == 14243654258233766451u64);
    assert(exp2_upper_at(1285) == 14248475849899801298u64);
    assert(exp2_entries_fit_below(1285));
    assert(exp2_lower_at(1285) == 14248475849899801285u64 && exp2_upper_at(1285) == 14248475849899801298u64);
    assert(exp2_upper_at(1286) == 14253299073713441846u64);
    assert(exp2_entries_fit_below(1286));
    assert(exp2_lower_at(1286) == 14253299073713441833u64 && exp2_upper_at(1286) == 14253299073713441846u64);
    assert(exp2_upper_at(1287) == 14258123930227183198u64);
    assert(exp2_entries_fit_below(1287));
    assert(exp2_lower_at(1287) == 14258123930227183179u64 && exp2_upper_at(1287) == 14258123930227183198u64);
    assert(exp2_upper_at(1288) == 14262950419993707487u64);
    assert(exp2_entries_fit_below(1288));
    assert(exp2_lower_at(1288) == 14262950419993707478u64 && exp2_upper_at(1288) == 14262950419993707487u64);
    assert(exp2_upper_at(1289) == 14267778543565883937u64);
    assert(exp2_entries_fit_below(1289));
    assert(exp2_lower_at(1289) == 14267778543565883922u64 && exp2_upper_at(1289) == 14267778543565883937u64);
    assert(exp2_upper_at(1290) == 14272608301496768912u64);
    assert(exp2_entries_fit_below(1290));
    assert(exp2_lower_at(1290) == 14272608301496768897u64 && exp2_upper_at(1290) == 14272608301496768912u64);
    assert(exp2_upper_at(1291) == 14277439694339605998u64);
    assert(exp2_entries_fit_below(1291));
    assert(exp2_lower_at(1291) == 14277439694339605979u64 && exp2_upper_at(1291) == 14277439694339605998u64);
    assert(exp2_upper_at(1292) == 14282272722647826055u64);
    assert(exp2_entries_fit_below(1292));
    assert(exp2_lower_at(1292) == 14282272722647826041u64 && exp2_upper_at(1292) == 14282272722647826055u64);
    assert(exp2_upper_at(1293) == 14287107386975047288u64);
    assert(exp2_entries_fit_below(1293));
    assert(exp2_lower_at(1293) == 14287107386975047269u64 && exp2_upper_at(1293) == 14287107386975047288u64);
    assert(exp2_upper_at(1294) == 14291943687875075301u64);
    assert(exp2_entries_fit_below(1294));
    assert(exp2_lower_at(1294) == 14291943687875075282u64 && exp2_upper_at(1294) == 14291943687875075301u64);
    assert(exp2_upper_at(1295) == 14296781625901903166u64);
    assert(exp2_entries_fit_below(1295));
    assert(exp2_lower_at(1295) == 14296781625901903143u64 && exp2_upper_at(1295) == 14296781625901903166u64);
    assert(exp2_upper_at(1296) == 14301621201609711485u64);
    assert(exp2_entries_fit_below(1296));
    assert(exp2_lower_at(1296) == 14301621201609711476u64 && exp2_upper_at(1296) == 14301621201609711485u64);
    assert(exp2_upper_at(1297) == 14306462415552868472u64);
    assert(exp2_entries_fit_below(1297));
    assert(exp2_lower_at(1297) == 14306462415552868458u64 && exp2_upper_at(1297) == 14306462415552868472u64);
    assert(exp2_upper_at(1298) == 14311305268285929973u64);
    assert(exp2_entries_fit_below(1298));
    assert(exp2_lower_at(1298) == 14311305268285929959u64 && exp2_upper_at(1298) == 14311305268285929973u64);
    assert(exp2_upper_at(1299) == 14316149760363639569u64);
    assert(exp2_entries_fit_below(1299));
    assert(exp2_lower_at(1299) == 14316149760363639551u64 && exp2_upper_at(1299) == 14316149760363639569u64);
    assert(exp2_upper_at(1300) == 14320995892340928627u64);
    assert(exp2_entries_fit_below(1300));
    assert(exp2_lower_at(1300) == 14320995892340928612u64 && exp2_upper_at(1300) == 14320995892340928627u64);
    assert(exp2_upper_at(1301) == 14325843664772916357u64);
    assert(exp2_entries_fit_below(1301));
    assert(exp2_lower_at(1301) == 14325843664772916338u64 && exp2_upper_at(1301) == 14325843664772916357u64);
    assert(exp2_upper_at(1302) == 14330693078214909890u64);
    assert(exp2_entries_fit_below(1302));
    assert(exp2_lower_at(1302) == 14330693078214909870u64 && exp2_upper_at(1302) == 14330693078214909890u64);
    assert(exp2_upper_at(1303) == 14335544133222404319u64);
    assert(exp2_entries_fit_below(1303));
    assert(exp2_lower_at(1303) == 14335544133222404295u64 && exp2_upper_at(1303) == 14335544133222404319u64);
    assert(exp2_upper_at(1304) == 14340396830351082790u64);
    assert(exp2_entries_fit_below(1304));
    assert(exp2_lower_at(1304) == 14340396830351082776u64 && exp2_upper_at(1304) == 14340396830351082790u64);
    assert(exp2_upper_at(1305) == 14345251170156816548u64);
    assert(exp2_entries_fit_below(1305));
    assert(exp2_lower_at(1305) == 14345251170156816530u64 && exp2_upper_at(1305) == 14345251170156816548u64);
    assert(exp2_upper_at(1306) == 14350107153195665006u64);
    assert(exp2_entries_fit_below(1306));
    assert(exp2_lower_at(1306) == 14350107153195664987u64 && exp2_upper_at(1306) == 14350107153195665006u64);
    assert(exp2_upper_at(1307) == 14354964780023875800u64);
    assert(exp2_entries_fit_below(1307));
    assert(exp2_lower_at(1307) == 14354964780023875777u64 && exp2_upper_at(1307) == 14354964780023875800u64);
    assert(exp2_upper_at(1308) == 14359824051197884870u64);
    assert(exp2_entries_fit_below(1308));
    assert(exp2_lower_at(1308) == 14359824051197884851u64 && exp2_upper_at(1308) == 14359824051197884870u64);
    assert(exp2_upper_at(1309) == 14364684967274316509u64);
    assert(exp2_entries_fit_below(1309));
    assert(exp2_lower_at(1309) == 14364684967274316484u64 && exp2_upper_at(1309) == 14364684967274316509u64);
    assert(exp2_upper_at(1310) == 14369547528809983432u64);
    assert(exp2_entries_fit_below(1310));
    assert(exp2_lower_at(1310) == 14369547528809983409u64 && exp2_upper_at(1310) == 14369547528809983432u64);
    assert(exp2_upper_at(1311) == 14374411736361886843u64);
    assert(exp2_entries_fit_below(1311));
    assert(exp2_lower_at(1311) == 14374411736361886813u64 && exp2_upper_at(1311) == 14374411736361886843u64);
    assert(exp2_upper_at(1312) == 14379277590487216481u64);
    assert(exp2_entries_fit_below(1312));
    assert(exp2_lower_at(1312) == 14379277590487216472u64 && exp2_upper_at(1312) == 14379277590487216481u64);
    assert(exp2_upper_at(1313) == 14384145091743350732u64);
    assert(exp2_entries_fit_below(1313));
    assert(exp2_lower_at(1313) == 14384145091743350717u64 && exp2_upper_at(1313) == 14384145091743350732u64);
    assert(exp2_upper_at(1314) == 14389014240687856623u64);
    assert(exp2_entries_fit_below(1314));
    assert(exp2_lower_at(1314) == 14389014240687856608u64 && exp2_upper_at(1314) == 14389014240687856623u64);
    assert(exp2_upper_at(1315) == 14393885037878489940u64);
    assert(exp2_entries_fit_below(1315));
    assert(exp2_lower_at(1315) == 14393885037878489922u64 && exp2_upper_at(1315) == 14393885037878489940u64);
    assert(exp2_upper_at(1316) == 14398757483873195268u64);
    assert(exp2_entries_fit_below(1316));
    assert(exp2_lower_at(1316) == 14398757483873195253u64 && exp2_upper_at(1316) == 14398757483873195268u64);
    assert(exp2_upper_at(1317) == 14403631579230106064u64);
    assert(exp2_entries_fit_below(1317));
    assert(exp2_lower_at(1317) == 14403631579230106045u64 && exp2_upper_at(1317) == 14403631579230106064u64);
    assert(exp2_upper_at(1318) == 14408507324507544717u64);
    assert(exp2_entries_fit_below(1318));
    assert(exp2_lower_at(1318) == 14408507324507544698u64 && exp2_upper_at(1318) == 14408507324507544717u64);
    assert(exp2_upper_at(1319) == 14413384720264022609u64);
    assert(exp2_entries_fit_below(1319));
    assert(exp2_lower_at(1319) == 14413384720264022586u64 && exp2_upper_at(1319) == 14413384720264022609u64);
    assert(exp2_upper_at(1320) == 14418263767058240185u64);
    assert(exp2_entries_fit_below(1320));
    assert(exp2_lower_at(1320) == 14418263767058240172u64 && exp2_upper_at(1320) == 14418263767058240185u64);
    assert(exp2_upper_at(1321) == 14423144465449087021u64);
    assert(exp2_entries_fit_below(1321));
    assert(exp2_lower_at(1321) == 14423144465449087002u64 && exp2_upper_at(1321) == 14423144465449087021u64);
    assert(exp2_upper_at(1322) == 14428026815995641874u64);
    assert(exp2_entries_fit_below(1322));
    assert(exp2_lower_at(1322) == 14428026815995641855u64 && exp2_upper_at(1322) == 14428026815995641874u64);
    assert(exp2_upper_at(1323) == 14432910819257172750u64);
    assert(exp2_entries_fit_below(1323));
    assert(exp2_lower_at(1323) == 14432910819257172726u64 && exp2_upper_at(1323) == 14432910819257172750u64);
    assert(exp2_upper_at(1324) == 14437796475793136982u64);
    assert(exp2_entries_fit_below(1324));
    assert(exp2_lower_at(1324) == 14437796475793136963u64 && exp2_upper_at(1324) == 14437796475793136982u64);
    assert(exp2_upper_at(1325) == 14442683786163181277u64);
    assert(exp2_entries_fit_below(1325));
    assert(exp2_lower_at(1325) == 14442683786163181254u64 && exp2_upper_at(1325) == 14442683786163181277u64);
    assert(exp2_upper_at(1326) == 14447572750927141793u64);
    assert(exp2_entries_fit_below(1326));
    assert(exp2_lower_at(1326) == 14447572750927141769u64 && exp2_upper_at(1326) == 14447572750927141793u64);
    assert(exp2_upper_at(1327) == 14452463370645044187u64);
    assert(exp2_entries_fit_below(1327));
    assert(exp2_lower_at(1327) == 14452463370645044159u64 && exp2_upper_at(1327) == 14452463370645044187u64);
    assert(exp2_upper_at(1328) == 14457355645877103691u64);
    assert(exp2_entries_fit_below(1328));
    assert(exp2_lower_at(1328) == 14457355645877103676u64 && exp2_upper_at(1328) == 14457355645877103691u64);
    assert(exp2_upper_at(1329) == 14462249577183725193u64);
    assert(exp2_entries_fit_below(1329));
    assert(exp2_lower_at(1329) == 14462249577183725176u64 && exp2_upper_at(1329) == 14462249577183725193u64);
    assert(exp2_upper_at(1330) == 14467145165125503261u64);
    assert(exp2_entries_fit_below(1330));
    assert(exp2_lower_at(1330) == 14467145165125503242u64 && exp2_upper_at(1330) == 14467145165125503261u64);
    assert(exp2_upper_at(1331) == 14472042410263222235u64);
    assert(exp2_entries_fit_below(1331));
    assert(exp2_lower_at(1331) == 14472042410263222212u64 && exp2_upper_at(1331) == 14472042410263222235u64);
    assert(exp2_upper_at(1332) == 14476941313157856286u64);
    assert(exp2_entries_fit_below(1332));
    assert(exp2_lower_at(1332) == 14476941313157856267u64 && exp2_upper_at(1332) == 14476941313157856286u64);
    assert(exp2_upper_at(1333) == 14481841874370569478u64);
    assert(exp2_entries_fit_below(1333));
    assert(exp2_lower_at(1333) == 14481841874370569454u64 && exp2_upper_at(1333) == 14481841874370569478u64);
    assert(exp2_upper_at(1334) == 14486744094462715838u64);
    assert(exp2_entries_fit_below(1334));
    assert(exp2_lower_at(1334) == 14486744094462715814u64 && exp2_upper_at(1334) == 14486744094462715838u64);
    assert(exp2_upper_at(1335) == 14491647973995839409u64);
    assert(exp2_entries_fit_below(1335));
    assert(exp2_lower_at(1335) == 14491647973995839380u64 && exp2_upper_at(1335) == 14491647973995839409u64);
    assert(exp2_upper_at(1336) == 14496553513531674325u64);
    assert(exp2_entries_fit_below(1336));
    assert(exp2_lower_at(1336) == 14496553513531674306u64 && exp2_upper_at(1336) == 14496553513531674325u64);
    assert(exp2_upper_at(1337) == 14501460713632144875u64);
    assert(exp2_entries_fit_below(1337));
    assert(exp2_lower_at(1337) == 14501460713632144851u64 && exp2_upper_at(1337) == 14501460713632144875u64);
    assert(exp2_upper_at(1338) == 14506369574859365558u64);
    assert(exp2_entries_fit_below(1338));
    assert(exp2_lower_at(1338) == 14506369574859365535u64 && exp2_upper_at(1338) == 14506369574859365558u64);
    assert(exp2_upper_at(1339) == 14511280097775641156u64);
    assert(exp2_entries_fit_below(1339));
    assert(exp2_lower_at(1339) == 14511280097775641127u64 && exp2_upper_at(1339) == 14511280097775641156u64);
    assert(exp2_upper_at(1340) == 14516192282943466791u64);
    assert(exp2_entries_fit_below(1340));
    assert(exp2_lower_at(1340) == 14516192282943466767u64 && exp2_upper_at(1340) == 14516192282943466791u64);
    assert(exp2_upper_at(1341) == 14521106130925528004u64);
    assert(exp2_entries_fit_below(1341));
    assert(exp2_lower_at(1341) == 14521106130925527974u64 && exp2_upper_at(1341) == 14521106130925528004u64);
    assert(exp2_upper_at(1342) == 14526021642284700801u64);
    assert(exp2_entries_fit_below(1342));
    assert(exp2_lower_at(1342) == 14526021642284700772u64 && exp2_upper_at(1342) == 14526021642284700801u64);
    assert(exp2_upper_at(1343) == 14530938817584051728u64);
    assert(exp2_entries_fit_below(1343));
    assert(exp2_lower_at(1343) == 14530938817584051695u64 && exp2_upper_at(1343) == 14530938817584051728u64);
    assert(exp2_upper_at(1344) == 14535857657386837928u64);
    assert(exp2_entries_fit_below(1344));
    assert(exp2_lower_at(1344) == 14535857657386837917u64 && exp2_upper_at(1344) == 14535857657386837928u64);
    assert(exp2_upper_at(1345) == 14540778162256507234u64);
    assert(exp2_entries_fit_below(1345));
    assert(exp2_lower_at(1345) == 14540778162256507220u64 && exp2_upper_at(1345) == 14540778162256507234u64);
    assert(exp2_upper_at(1346) == 14545700332756698185u64);
    assert(exp2_entries_fit_below(1346));
    assert(exp2_lower_at(1346) == 14545700332756698172u64 && exp2_upper_at(1346) == 14545700332756698185u64);
    assert(exp2_upper_at(1347) == 14550624169451240128u64);
    assert(exp2_entries_fit_below(1347));
    assert(exp2_lower_at(1347) == 14550624169451240109u64 && exp2_upper_at(1347) == 14550624169451240128u64);
    assert(exp2_upper_at(1348) == 14555549672904153264u64);
    assert(exp2_entries_fit_below(1348));
    assert(exp2_lower_at(1348) == 14555549672904153251u64 && exp2_upper_at(1348) == 14555549672904153264u64);
    assert(exp2_upper_at(1349) == 14560476843679648727u64);
    assert(exp2_entries_fit_below(1349));
    assert(exp2_lower_at(1349) == 14560476843679648709u64 && exp2_upper_at(1349) == 14560476843679648727u64);
    assert(exp2_upper_at(1350) == 14565405682342128638u64);
    assert(exp2_entries_fit_below(1350));
    assert(exp2_lower_at(1350) == 14565405682342128620u64 && exp2_upper_at(1350) == 14565405682342128638u64);
    assert(exp2_upper_at(1351) == 14570336189456186167u64);
    assert(exp2_entries_fit_below(1351));
    assert(exp2_lower_at(1351) == 14570336189456186144u64 && exp2_upper_at(1351) == 14570336189456186167u64);
    assert(exp2_upper_at(1352) == 14575268365586605610u64);
    assert(exp2_entries_fit_below(1352));
    assert(exp2_lower_at(1352) == 14575268365586605597u64 && exp2_upper_at(1352) == 14575268365586605610u64);
    assert(exp2_upper_at(1353) == 14580202211298362452u64);
    assert(exp2_entries_fit_below(1353));
    assert(exp2_lower_at(1353) == 14580202211298362433u64 && exp2_upper_at(1353) == 14580202211298362452u64);
    assert(exp2_upper_at(1354) == 14585137727156623416u64);
    assert(exp2_entries_fit_below(1354));
    assert(exp2_lower_at(1354) == 14585137727156623397u64 && exp2_upper_at(1354) == 14585137727156623416u64);
    assert(exp2_upper_at(1355) == 14590074913726746542u64);
    assert(exp2_entries_fit_below(1355));
    assert(exp2_lower_at(1355) == 14590074913726746517u64 && exp2_upper_at(1355) == 14590074913726746542u64);
    assert(exp2_upper_at(1356) == 14595013771574281247u64);
    assert(exp2_entries_fit_below(1356));
    assert(exp2_lower_at(1356) == 14595013771574281228u64 && exp2_upper_at(1356) == 14595013771574281247u64);
    assert(exp2_upper_at(1357) == 14599954301264968397u64);
    assert(exp2_entries_fit_below(1357));
    assert(exp2_lower_at(1357) == 14599954301264968374u64 && exp2_upper_at(1357) == 14599954301264968397u64);
    assert(exp2_upper_at(1358) == 14604896503364740362u64);
    assert(exp2_entries_fit_below(1358));
    assert(exp2_lower_at(1358) == 14604896503364740338u64 && exp2_upper_at(1358) == 14604896503364740362u64);
    assert(exp2_upper_at(1359) == 14609840378439721083u64);
    assert(exp2_entries_fit_below(1359));
    assert(exp2_lower_at(1359) == 14609840378439721054u64 && exp2_upper_at(1359) == 14609840378439721083u64);
    assert(exp2_upper_at(1360) == 14614785927056226132u64);
    assert(exp2_entries_fit_below(1360));
    assert(exp2_lower_at(1360) == 14614785927056226118u64 && exp2_upper_at(1360) == 14614785927056226132u64);
    assert(exp2_upper_at(1361) == 14619733149780762809u64);
    assert(exp2_entries_fit_below(1361));
    assert(exp2_lower_at(1361) == 14619733149780762790u64 && exp2_upper_at(1361) == 14619733149780762809u64);
    assert(exp2_upper_at(1362) == 14624682047180030153u64);
    assert(exp2_entries_fit_below(1362));
    assert(exp2_lower_at(1362) == 14624682047180030134u64 && exp2_upper_at(1362) == 14624682047180030153u64);
    assert(exp2_upper_at(1363) == 14629632619820919048u64);
    assert(exp2_entries_fit_below(1363));
    assert(exp2_lower_at(1363) == 14629632619820919025u64 && exp2_upper_at(1363) == 14629632619820919048u64);
    assert(exp2_upper_at(1364) == 14634584868270512272u64);
    assert(exp2_entries_fit_below(1364));
    assert(exp2_lower_at(1364) == 14634584868270512253u64 && exp2_upper_at(1364) == 14634584868270512272u64);
    assert(exp2_upper_at(1365) == 14639538793096084565u64);
    assert(exp2_entries_fit_below(1365));
    assert(exp2_lower_at(1365) == 14639538793096084542u64 && exp2_upper_at(1365) == 14639538793096084565u64);
    assert(exp2_upper_at(1366) == 14644494394865102703u64);
    assert(exp2_entries_fit_below(1366));
    assert(exp2_lower_at(1366) == 14644494394865102679u64 && exp2_upper_at(1366) == 14644494394865102703u64);
    assert(exp2_upper_at(1367) == 14649451674145225533u64);
    assert(exp2_entries_fit_below(1367));
    assert(exp2_lower_at(1367) == 14649451674145225506u64 && exp2_upper_at(1367) == 14649451674145225533u64);
    assert(exp2_upper_at(1368) == 14654410631504304082u64);
    assert(exp2_entries_fit_below(1368));
    assert(exp2_lower_at(1368) == 14654410631504304063u64 && exp2_upper_at(1368) == 14654410631504304082u64);
    assert(exp2_upper_at(1369) == 14659371267510381589u64);
    assert(exp2_entries_fit_below(1369));
    assert(exp2_lower_at(1369) == 14659371267510381566u64 && exp2_upper_at(1369) == 14659371267510381589u64);
    assert(exp2_upper_at(1370) == 14664333582731693580u64);
    assert(exp2_entries_fit_below(1370));
    assert(exp2_lower_at(1370) == 14664333582731693557u64 && exp2_upper_at(1370) == 14664333582731693580u64);
    assert(exp2_upper_at(1371) == 14669297577736667932u64);
    assert(exp2_entries_fit_below(1371));
    assert(exp2_lower_at(1371) == 14669297577736667904u64 && exp2_upper_at(1371) == 14669297577736667932u64);
    assert(exp2_upper_at(1372) == 14674263253093924942u64);
    assert(exp2_entries_fit_below(1372));
    assert(exp2_lower_at(1372) == 14674263253093924919u64 && exp2_upper_at(1372) == 14674263253093924942u64);
    assert(exp2_upper_at(1373) == 14679230609372277391u64);
    assert(exp2_entries_fit_below(1373));
    assert(exp2_lower_at(1373) == 14679230609372277361u64 && exp2_upper_at(1373) == 14679230609372277391u64);
    assert(exp2_upper_at(1374) == 14684199647140730603u64);
    assert(exp2_entries_fit_below(1374));
    assert(exp2_lower_at(1374) == 14684199647140730574u64 && exp2_upper_at(1374) == 14684199647140730603u64);
    assert(exp2_upper_at(1375) == 14689170366968482520u64);
    assert(exp2_entries_fit_below(1375));
    assert(exp2_lower_at(1375) == 14689170366968482484u64 && exp2_upper_at(1375) == 14689170366968482520u64);
    assert(exp2_upper_at(1376) == 14694142769424923747u64);
    assert(exp2_entries_fit_below(1376));
    assert(exp2_lower_at(1376) == 14694142769424923734u64 && exp2_upper_at(1376) == 14694142769424923747u64);
    assert(exp2_upper_at(1377) == 14699116855079637669u64);
    assert(exp2_entries_fit_below(1377));
    assert(exp2_lower_at(1377) == 14699116855079637650u64 && exp2_upper_at(1377) == 14699116855079637669u64);
    assert(exp2_upper_at(1378) == 14704092624502400442u64);
    assert(exp2_entries_fit_below(1378));
    assert(exp2_lower_at(1378) == 14704092624502400423u64 && exp2_upper_at(1378) == 14704092624502400442u64);
    assert(exp2_upper_at(1379) == 14709070078263181111u64);
    assert(exp2_entries_fit_below(1379));
    assert(exp2_lower_at(1379) == 14709070078263181087u64 && exp2_upper_at(1379) == 14709070078263181111u64);
    assert(exp2_upper_at(1380) == 14714049216932141656u64);
    assert(exp2_entries_fit_below(1380));
    assert(exp2_lower_at(1380) == 14714049216932141635u64 && exp2_upper_at(1380) == 14714049216932141656u64);
    assert(exp2_upper_at(1381) == 14719030041079637068u64);
    assert(exp2_entries_fit_below(1381));
    assert(exp2_lower_at(1381) == 14719030041079637044u64 && exp2_upper_at(1381) == 14719030041079637068u64);
    assert(exp2_upper_at(1382) == 14724012551276215401u64);
    assert(exp2_entries_fit_below(1382));
    assert(exp2_lower_at(1382) == 14724012551276215378u64 && exp2_upper_at(1382) == 14724012551276215401u64);
    assert(exp2_upper_at(1383) == 14728996748092617848u64);
    assert(exp2_entries_fit_below(1383));
    assert(exp2_lower_at(1383) == 14728996748092617819u64 && exp2_upper_at(1383) == 14728996748092617848u64);
    assert(exp2_upper_at(1384) == 14733982632099778799u64);
    assert(exp2_entries_fit_below(1384));
    assert(exp2_lower_at(1384) == 14733982632099778780u64 && exp2_upper_at(1384) == 14733982632099778799u64);
    assert(exp2_upper_at(1385) == 14738970203868825915u64);
    assert(exp2_entries_fit_below(1385));
    assert(exp2_lower_at(1385) == 14738970203868825892u64 && exp2_upper_at(1385) == 14738970203868825915u64);
    assert(exp2_upper_at(1386) == 14743959463971080187u64);
    assert(exp2_entries_fit_below(1386));
    assert(exp2_lower_at(1386) == 14743959463971080162u64 && exp2_upper_at(1386) == 14743959463971080187u64);
    assert(exp2_upper_at(1387) == 14748950412978055997u64);
    assert(exp2_entries_fit_below(1387));
    assert(exp2_lower_at(1387) == 14748950412978055965u64 && exp2_upper_at(1387) == 14748950412978055997u64);
    assert(exp2_upper_at(1388) == 14753943051461461194u64);
    assert(exp2_entries_fit_below(1388));
    assert(exp2_lower_at(1388) == 14753943051461461169u64 && exp2_upper_at(1388) == 14753943051461461194u64);
    assert(exp2_upper_at(1389) == 14758937379993197155u64);
    assert(exp2_entries_fit_below(1389));
    assert(exp2_lower_at(1389) == 14758937379993197127u64 && exp2_upper_at(1389) == 14758937379993197155u64);
    assert(exp2_upper_at(1390) == 14763933399145358852u64);
    assert(exp2_entries_fit_below(1390));
    assert(exp2_lower_at(1390) == 14763933399145358824u64 && exp2_upper_at(1390) == 14763933399145358852u64);
    assert(exp2_upper_at(1391) == 14768931109490234909u64);
    assert(exp2_entries_fit_below(1391));
    assert(exp2_lower_at(1391) == 14768931109490234876u64 && exp2_upper_at(1391) == 14768931109490234909u64);
    assert(exp2_upper_at(1392) == 14773930511600307673u64);
    assert(exp2_entries_fit_below(1392));
    assert(exp2_lower_at(1392) == 14773930511600307655u64 && exp2_upper_at(1392) == 14773930511600307673u64);
    assert(exp2_upper_at(1393) == 14778931606048253303u64);
    assert(exp2_entries_fit_below(1393));
    assert(exp2_lower_at(1393) == 14778931606048253279u64 && exp2_upper_at(1393) == 14778931606048253303u64);
    assert(exp2_upper_at(1394) == 14783934393406941785u64);
    assert(exp2_entries_fit_below(1394));
    assert(exp2_lower_at(1394) == 14783934393406941762u64 && exp2_upper_at(1394) == 14783934393406941785u64);
    assert(exp2_upper_at(1395) == 14788938874249437043u64);
    assert(exp2_entries_fit_below(1395));
    assert(exp2_lower_at(1395) == 14788938874249437012u64 && exp2_upper_at(1395) == 14788938874249437043u64);
    assert(exp2_upper_at(1396) == 14793945049148996976u64);
    assert(exp2_entries_fit_below(1396));
    assert(exp2_lower_at(1396) == 14793945049148996952u64 && exp2_upper_at(1396) == 14793945049148996976u64);
    assert(exp2_upper_at(1397) == 14798952918679073547u64);
    assert(exp2_entries_fit_below(1397));
    assert(exp2_lower_at(1397) == 14798952918679073520u64 && exp2_upper_at(1397) == 14798952918679073547u64);
    assert(exp2_upper_at(1398) == 14803962483413312835u64);
    assert(exp2_entries_fit_below(1398));
    assert(exp2_lower_at(1398) == 14803962483413312806u64 && exp2_upper_at(1398) == 14803962483413312835u64);
    assert(exp2_upper_at(1399) == 14808973743925555092u64);
    assert(exp2_entries_fit_below(1399));
    assert(exp2_lower_at(1399) == 14808973743925555059u64 && exp2_upper_at(1399) == 14808973743925555092u64);
    assert(exp2_upper_at(1400) == 14813986700789834832u64);
    assert(exp2_entries_fit_below(1400));
    assert(exp2_lower_at(1400) == 14813986700789834808u64 && exp2_upper_at(1400) == 14813986700789834832u64);
    assert(exp2_upper_at(1401) == 14819001354580380883u64);
    assert(exp2_entries_fit_below(1401));
    assert(exp2_lower_at(1401) == 14819001354580380853u64 && exp2_upper_at(1401) == 14819001354580380883u64);
    assert(exp2_upper_at(1402) == 14824017705871616447u64);
    assert(exp2_entries_fit_below(1402));
    assert(exp2_lower_at(1402) == 14824017705871616418u64 && exp2_upper_at(1402) == 14824017705871616447u64);
    assert(exp2_upper_at(1403) == 14829035755238159178u64);
    assert(exp2_entries_fit_below(1403));
    assert(exp2_lower_at(1403) == 14829035755238159143u64 && exp2_upper_at(1403) == 14829035755238159178u64);
    assert(exp2_upper_at(1404) == 14834055503254821239u64);
    assert(exp2_entries_fit_below(1404));
    assert(exp2_lower_at(1404) == 14834055503254821208u64 && exp2_upper_at(1404) == 14834055503254821239u64);
    assert(exp2_upper_at(1405) == 14839076950496609376u64);
    assert(exp2_entries_fit_below(1405));
    assert(exp2_lower_at(1405) == 14839076950496609340u64 && exp2_upper_at(1405) == 14839076950496609376u64);
    assert(exp2_upper_at(1406) == 14844100097538724979u64);
    assert(exp2_entries_fit_below(1406));
    assert(exp2_lower_at(1406) == 14844100097538724946u64 && exp2_upper_at(1406) == 14844100097538724979u64);
    assert(exp2_upper_at(1407) == 14849124944956564144u64);
    assert(exp2_entries_fit_below(1407));
    assert(exp2_lower_at(1407) == 14849124944956564105u64 && exp2_upper_at(1407) == 14849124944956564144u64);
    assert(exp2_upper_at(1408) == 14854151493325717737u64);
    assert(exp2_entries_fit_below(1408));
    assert(exp2_lower_at(1408) == 14854151493325717728u64 && exp2_upper_at(1408) == 14854151493325717737u64);
    assert(exp2_upper_at(1409) == 14859179743221971499u64);
    assert(exp2_entries_fit_below(1409));
    assert(exp2_lower_at(1409) == 14859179743221971483u64 && exp2_upper_at(1409) == 14859179743221971499u64);
    assert(exp2_upper_at(1410) == 14864209695221306041u64);
    assert(exp2_entries_fit_below(1410));
    assert(exp2_lower_at(1410) == 14864209695221306026u64 && exp2_upper_at(1410) == 14864209695221306041u64);
    assert(exp2_upper_at(1411) == 14869241349899896962u64);
    assert(exp2_entries_fit_below(1411));
    assert(exp2_lower_at(1411) == 14869241349899896943u64 && exp2_upper_at(1411) == 14869241349899896962u64);
    assert(exp2_upper_at(1412) == 14874274707834114901u64);
    assert(exp2_entries_fit_below(1412));
    assert(exp2_lower_at(1412) == 14874274707834114886u64 && exp2_upper_at(1412) == 14874274707834114901u64);
    assert(exp2_upper_at(1413) == 14879309769600525608u64);
    assert(exp2_entries_fit_below(1413));
    assert(exp2_lower_at(1413) == 14879309769600525587u64 && exp2_upper_at(1413) == 14879309769600525608u64);
    assert(exp2_upper_at(1414) == 14884346535775889997u64);
    assert(exp2_entries_fit_below(1414));
    assert(exp2_lower_at(1414) == 14884346535775889979u64 && exp2_upper_at(1414) == 14884346535775889997u64);
    assert(exp2_upper_at(1415) == 14889385006937164224u64);
    assert(exp2_entries_fit_below(1415));
    assert(exp2_lower_at(1415) == 14889385006937164201u64 && exp2_upper_at(1415) == 14889385006937164224u64);
    assert(exp2_upper_at(1416) == 14894425183661499749u64);
    assert(exp2_entries_fit_below(1416));
    assert(exp2_lower_at(1416) == 14894425183661499735u64 && exp2_upper_at(1416) == 14894425183661499749u64);
    assert(exp2_upper_at(1417) == 14899467066526243407u64);
    assert(exp2_entries_fit_below(1417));
    assert(exp2_lower_at(1417) == 14899467066526243388u64 && exp2_upper_at(1417) == 14899467066526243407u64);
    assert(exp2_upper_at(1418) == 14904510656108937460u64);
    assert(exp2_entries_fit_below(1418));
    assert(exp2_lower_at(1418) == 14904510656108937441u64 && exp2_upper_at(1418) == 14904510656108937460u64);
    assert(exp2_upper_at(1419) == 14909555952987319680u64);
    assert(exp2_entries_fit_below(1419));
    assert(exp2_lower_at(1419) == 14909555952987319655u64 && exp2_upper_at(1419) == 14909555952987319680u64);
    assert(exp2_upper_at(1420) == 14914602957739323405u64);
    assert(exp2_entries_fit_below(1420));
    assert(exp2_lower_at(1420) == 14914602957739323385u64 && exp2_upper_at(1420) == 14914602957739323405u64);
    assert(exp2_upper_at(1421) == 14919651670943077608u64);
    assert(exp2_entries_fit_below(1421));
    assert(exp2_lower_at(1421) == 14919651670943077585u64 && exp2_upper_at(1421) == 14919651670943077608u64);
    assert(exp2_upper_at(1422) == 14924702093176906967u64);
    assert(exp2_entries_fit_below(1422));
    assert(exp2_lower_at(1422) == 14924702093176906944u64 && exp2_upper_at(1422) == 14924702093176906967u64);
    assert(exp2_upper_at(1423) == 14929754225019331922u64);
    assert(exp2_entries_fit_below(1423));
    assert(exp2_lower_at(1423) == 14929754225019331893u64 && exp2_upper_at(1423) == 14929754225019331922u64);
    assert(exp2_upper_at(1424) == 14934808067049068744u64);
    assert(exp2_entries_fit_below(1424));
    assert(exp2_lower_at(1424) == 14934808067049068729u64 && exp2_upper_at(1424) == 14934808067049068744u64);
    assert(exp2_upper_at(1425) == 14939863619845029625u64);
    assert(exp2_entries_fit_below(1425));
    assert(exp2_lower_at(1425) == 14939863619845029607u64 && exp2_upper_at(1425) == 14939863619845029625u64);
    assert(exp2_upper_at(1426) == 14944920883986322697u64);
    assert(exp2_entries_fit_below(1426));
    assert(exp2_lower_at(1426) == 14944920883986322678u64 && exp2_upper_at(1426) == 14944920883986322697u64);
    assert(exp2_upper_at(1427) == 14949979860052252138u64);
    assert(exp2_entries_fit_below(1427));
    assert(exp2_lower_at(1427) == 14949979860052252115u64 && exp2_upper_at(1427) == 14949979860052252138u64);
    assert(exp2_upper_at(1428) == 14955040548622318224u64);
    assert(exp2_entries_fit_below(1428));
    assert(exp2_lower_at(1428) == 14955040548622318206u64 && exp2_upper_at(1428) == 14955040548622318224u64);
    assert(exp2_upper_at(1429) == 14960102950276217395u64);
    assert(exp2_entries_fit_below(1429));
    assert(exp2_lower_at(1429) == 14960102950276217371u64 && exp2_upper_at(1429) == 14960102950276217395u64);
    assert(exp2_upper_at(1430) == 14965167065593842325u64);
    assert(exp2_entries_fit_below(1430));
    assert(exp2_lower_at(1430) == 14965167065593842300u64 && exp2_upper_at(1430) == 14965167065593842325u64);
    assert(exp2_upper_at(1431) == 14970232895155281979u64);
    assert(exp2_entries_fit_below(1431));
    assert(exp2_lower_at(1431) == 14970232895155281949u64 && exp2_upper_at(1431) == 14970232895155281979u64);
    assert(exp2_upper_at(1432) == 14975300439540821696u64);
    assert(exp2_entries_fit_below(1432));
    assert(exp2_lower_at(1432) == 14975300439540821676u64 && exp2_upper_at(1432) == 14975300439540821696u64);
    assert(exp2_upper_at(1433) == 14980369699330943245u64);
    assert(exp2_entries_fit_below(1433));
    assert(exp2_lower_at(1433) == 14980369699330943222u64 && exp2_upper_at(1433) == 14980369699330943245u64);
    assert(exp2_upper_at(1434) == 14985440675106324892u64);
    assert(exp2_entries_fit_below(1434));
    assert(exp2_lower_at(1434) == 14985440675106324868u64 && exp2_upper_at(1434) == 14985440675106324892u64);
    assert(exp2_upper_at(1435) == 14990513367447841459u64);
    assert(exp2_entries_fit_below(1435));
    assert(exp2_lower_at(1435) == 14990513367447841430u64 && exp2_upper_at(1435) == 14990513367447841459u64);
    assert(exp2_upper_at(1436) == 14995587776936564410u64);
    assert(exp2_entries_fit_below(1436));
    assert(exp2_lower_at(1436) == 14995587776936564387u64 && exp2_upper_at(1436) == 14995587776936564410u64);
    assert(exp2_upper_at(1437) == 15000663904153761901u64);
    assert(exp2_entries_fit_below(1437));
    assert(exp2_lower_at(1437) == 15000663904153761870u64 && exp2_upper_at(1437) == 15000663904153761901u64);
    assert(exp2_upper_at(1438) == 15005741749680898855u64);
    assert(exp2_entries_fit_below(1438));
    assert(exp2_lower_at(1438) == 15005741749680898825u64 && exp2_upper_at(1438) == 15005741749680898855u64);
    assert(exp2_upper_at(1439) == 15010821314099637019u64);
    assert(exp2_entries_fit_below(1439));
    assert(exp2_lower_at(1439) == 15010821314099636984u64 && exp2_upper_at(1439) == 15010821314099637019u64);
    assert(exp2_upper_at(1440) == 15015902597991835036u64);
    assert(exp2_entries_fit_below(1440));
    assert(exp2_lower_at(1440) == 15015902597991835021u64 && exp2_upper_at(1440) == 15015902597991835036u64);
    assert(exp2_upper_at(1441) == 15020985601939548539u64);
    assert(exp2_entries_fit_below(1441));
    assert(exp2_lower_at(1441) == 15020985601939548518u64 && exp2_upper_at(1441) == 15020985601939548539u64);
    assert(exp2_upper_at(1442) == 15026070326525030155u64);
    assert(exp2_entries_fit_below(1442));
    assert(exp2_lower_at(1442) == 15026070326525030135u64 && exp2_upper_at(1442) == 15026070326525030155u64);
    assert(exp2_upper_at(1443) == 15031156772330729630u64);
    assert(exp2_entries_fit_below(1443));
    assert(exp2_lower_at(1443) == 15031156772330729607u64 && exp2_upper_at(1443) == 15031156772330729630u64);
    assert(exp2_upper_at(1444) == 15036244939939293865u64);
    assert(exp2_entries_fit_below(1444));
    assert(exp2_lower_at(1444) == 15036244939939293847u64 && exp2_upper_at(1444) == 15036244939939293865u64);
    assert(exp2_upper_at(1445) == 15041334829933566998u64);
    assert(exp2_entries_fit_below(1445));
    assert(exp2_lower_at(1445) == 15041334829933566974u64 && exp2_upper_at(1445) == 15041334829933566998u64);
    assert(exp2_upper_at(1446) == 15046426442896590460u64);
    assert(exp2_entries_fit_below(1446));
    assert(exp2_lower_at(1446) == 15046426442896590436u64 && exp2_upper_at(1446) == 15046426442896590460u64);
    assert(exp2_upper_at(1447) == 15051519779411603047u64);
    assert(exp2_entries_fit_below(1447));
    assert(exp2_lower_at(1447) == 15051519779411603018u64 && exp2_upper_at(1447) == 15051519779411603047u64);
    assert(exp2_upper_at(1448) == 15056614840062040984u64);
    assert(exp2_entries_fit_below(1448));
    assert(exp2_lower_at(1448) == 15056614840062040964u64 && exp2_upper_at(1448) == 15056614840062040984u64);
    assert(exp2_upper_at(1449) == 15061711625431538000u64);
    assert(exp2_entries_fit_below(1449));
    assert(exp2_lower_at(1449) == 15061711625431537976u64 && exp2_upper_at(1449) == 15061711625431538000u64);
    assert(exp2_upper_at(1450) == 15066810136103925388u64);
    assert(exp2_entries_fit_below(1450));
    assert(exp2_lower_at(1450) == 15066810136103925363u64 && exp2_upper_at(1450) == 15066810136103925388u64);
    assert(exp2_upper_at(1451) == 15071910372663232063u64);
    assert(exp2_entries_fit_below(1451));
    assert(exp2_lower_at(1451) == 15071910372663232031u64 && exp2_upper_at(1451) == 15071910372663232063u64);
    assert(exp2_upper_at(1452) == 15077012335693684646u64);
    assert(exp2_entries_fit_below(1452));
    assert(exp2_lower_at(1452) == 15077012335693684622u64 && exp2_upper_at(1452) == 15077012335693684646u64);
    assert(exp2_upper_at(1453) == 15082116025779707527u64);
    assert(exp2_entries_fit_below(1453));
    assert(exp2_lower_at(1453) == 15082116025779707497u64 && exp2_upper_at(1453) == 15082116025779707527u64);
    assert(exp2_upper_at(1454) == 15087221443505922920u64);
    assert(exp2_entries_fit_below(1454));
    assert(exp2_lower_at(1454) == 15087221443505922893u64 && exp2_upper_at(1454) == 15087221443505922920u64);
    assert(exp2_upper_at(1455) == 15092328589457150946u64);
    assert(exp2_entries_fit_below(1455));
    assert(exp2_lower_at(1455) == 15092328589457150912u64 && exp2_upper_at(1455) == 15092328589457150946u64);
    assert(exp2_upper_at(1456) == 15097437464218409679u64);
    assert(exp2_entries_fit_below(1456));
    assert(exp2_lower_at(1456) == 15097437464218409660u64 && exp2_upper_at(1456) == 15097437464218409679u64);
    assert(exp2_upper_at(1457) == 15102548068374915251u64);
    assert(exp2_entries_fit_below(1457));
    assert(exp2_lower_at(1457) == 15102548068374915227u64 && exp2_upper_at(1457) == 15102548068374915251u64);
    assert(exp2_upper_at(1458) == 15107660402512081872u64);
    assert(exp2_entries_fit_below(1458));
    assert(exp2_lower_at(1458) == 15107660402512081847u64 && exp2_upper_at(1458) == 15107660402512081872u64);
    assert(exp2_upper_at(1459) == 15112774467215521926u64);
    assert(exp2_entries_fit_below(1459));
    assert(exp2_lower_at(1459) == 15112774467215521895u64 && exp2_upper_at(1459) == 15112774467215521926u64);
    assert(exp2_upper_at(1460) == 15117890263071046031u64);
    assert(exp2_entries_fit_below(1460));
    assert(exp2_lower_at(1460) == 15117890263071046007u64 && exp2_upper_at(1460) == 15117890263071046031u64);
    assert(exp2_upper_at(1461) == 15123007790664663111u64);
    assert(exp2_entries_fit_below(1461));
    assert(exp2_lower_at(1461) == 15123007790664663082u64 && exp2_upper_at(1461) == 15123007790664663111u64);
    assert(exp2_upper_at(1462) == 15128127050582580456u64);
    assert(exp2_entries_fit_below(1462));
    assert(exp2_lower_at(1462) == 15128127050582580427u64 && exp2_upper_at(1462) == 15128127050582580456u64);
    assert(exp2_upper_at(1463) == 15133248043411203787u64);
    assert(exp2_entries_fit_below(1463));
    assert(exp2_lower_at(1463) == 15133248043411203752u64 && exp2_upper_at(1463) == 15133248043411203787u64);
    assert(exp2_upper_at(1464) == 15138370769737137335u64);
    assert(exp2_entries_fit_below(1464));
    assert(exp2_lower_at(1464) == 15138370769737137312u64 && exp2_upper_at(1464) == 15138370769737137335u64);
    assert(exp2_upper_at(1465) == 15143495230147183902u64);
    assert(exp2_entries_fit_below(1465));
    assert(exp2_lower_at(1465) == 15143495230147183873u64 && exp2_upper_at(1465) == 15143495230147183902u64);
    assert(exp2_upper_at(1466) == 15148621425228344922u64);
    assert(exp2_entries_fit_below(1466));
    assert(exp2_lower_at(1466) == 15148621425228344893u64 && exp2_upper_at(1466) == 15148621425228344922u64);
    assert(exp2_upper_at(1467) == 15153749355567820533u64);
    assert(exp2_entries_fit_below(1467));
    assert(exp2_lower_at(1467) == 15153749355567820500u64 && exp2_upper_at(1467) == 15153749355567820533u64);
    assert(exp2_upper_at(1468) == 15158879021753009651u64);
    assert(exp2_entries_fit_below(1468));
    assert(exp2_lower_at(1468) == 15158879021753009622u64 && exp2_upper_at(1468) == 15158879021753009651u64);
    assert(exp2_upper_at(1469) == 15164010424371510028u64);
    assert(exp2_entries_fit_below(1469));
    assert(exp2_lower_at(1469) == 15164010424371509992u64 && exp2_upper_at(1469) == 15164010424371510028u64);
    assert(exp2_upper_at(1470) == 15169143564011118325u64);
    assert(exp2_entries_fit_below(1470));
    assert(exp2_lower_at(1470) == 15169143564011118290u64 && exp2_upper_at(1470) == 15169143564011118325u64);
    assert(exp2_upper_at(1471) == 15174278441259830167u64);
    assert(exp2_entries_fit_below(1471));
    assert(exp2_lower_at(1471) == 15174278441259830128u64 && exp2_upper_at(1471) == 15174278441259830167u64);
    assert(exp2_upper_at(1472) == 15179415056705840226u64);
    assert(exp2_entries_fit_below(1472));
    assert(exp2_lower_at(1472) == 15179415056705840211u64 && exp2_upper_at(1472) == 15179415056705840226u64);
    assert(exp2_upper_at(1473) == 15184553410937542300u64);
    assert(exp2_entries_fit_below(1473));
    assert(exp2_lower_at(1473) == 15184553410937542282u64 && exp2_upper_at(1473) == 15184553410937542300u64);
    assert(exp2_upper_at(1474) == 15189693504543529343u64);
    assert(exp2_entries_fit_below(1474));
    assert(exp2_lower_at(1474) == 15189693504543529324u64 && exp2_upper_at(1474) == 15189693504543529343u64);
    assert(exp2_upper_at(1475) == 15194835338112593552u64);
    assert(exp2_entries_fit_below(1475));
    assert(exp2_lower_at(1475) == 15194835338112593527u64 && exp2_upper_at(1475) == 15194835338112593552u64);
    assert(exp2_upper_at(1476) == 15199978912233726439u64);
    assert(exp2_entries_fit_below(1476));
    assert(exp2_lower_at(1476) == 15199978912233726420u64 && exp2_upper_at(1476) == 15199978912233726439u64);
    assert(exp2_upper_at(1477) == 15205124227496118900u64);
    assert(exp2_entries_fit_below(1477));
    assert(exp2_lower_at(1477) == 15205124227496118876u64 && exp2_upper_at(1477) == 15205124227496118900u64);
    assert(exp2_upper_at(1478) == 15210271284489161273u64);
    assert(exp2_entries_fit_below(1478));
    assert(exp2_lower_at(1478) == 15210271284489161247u64 && exp2_upper_at(1478) == 15210271284489161273u64);
    assert(exp2_upper_at(1479) == 15215420083802443400u64);
    assert(exp2_entries_fit_below(1479));
    assert(exp2_lower_at(1479) == 15215420083802443371u64 && exp2_upper_at(1479) == 15215420083802443400u64);
    assert(exp2_upper_at(1480) == 15220570626025754719u64);
    assert(exp2_entries_fit_below(1480));
    assert(exp2_lower_at(1480) == 15220570626025754699u64 && exp2_upper_at(1480) == 15220570626025754719u64);
    assert(exp2_upper_at(1481) == 15225722911749084312u64);
    assert(exp2_entries_fit_below(1481));
    assert(exp2_lower_at(1481) == 15225722911749084286u64 && exp2_upper_at(1481) == 15225722911749084312u64);
    assert(exp2_upper_at(1482) == 15230876941562620971u64);
    assert(exp2_entries_fit_below(1482));
    assert(exp2_lower_at(1482) == 15230876941562620948u64 && exp2_upper_at(1482) == 15230876941562620971u64);
    assert(exp2_upper_at(1483) == 15236032716056753278u64);
    assert(exp2_entries_fit_below(1483));
    assert(exp2_lower_at(1483) == 15236032716056753247u64 && exp2_upper_at(1483) == 15236032716056753278u64);
    assert(exp2_upper_at(1484) == 15241190235822069661u64);
    assert(exp2_entries_fit_below(1484));
    assert(exp2_lower_at(1484) == 15241190235822069636u64 && exp2_upper_at(1484) == 15241190235822069661u64);
    assert(exp2_upper_at(1485) == 15246349501449358471u64);
    assert(exp2_entries_fit_below(1485));
    assert(exp2_lower_at(1485) == 15246349501449358442u64 && exp2_upper_at(1485) == 15246349501449358471u64);
    assert(exp2_upper_at(1486) == 15251510513529608047u64);
    assert(exp2_entries_fit_below(1486));
    assert(exp2_lower_at(1486) == 15251510513529608019u64 && exp2_upper_at(1486) == 15251510513529608047u64);
    assert(exp2_upper_at(1487) == 15256673272654006779u64);
    assert(exp2_entries_fit_below(1487));
    assert(exp2_lower_at(1487) == 15256673272654006744u64 && exp2_upper_at(1487) == 15256673272654006779u64);
    assert(exp2_upper_at(1488) == 15261837779413943171u64);
    assert(exp2_entries_fit_below(1488));
    assert(exp2_lower_at(1488) == 15261837779413943151u64 && exp2_upper_at(1488) == 15261837779413943171u64);
    assert(exp2_upper_at(1489) == 15267004034401005941u64);
    assert(exp2_entries_fit_below(1489));
    assert(exp2_lower_at(1489) == 15267004034401005918u64 && exp2_upper_at(1489) == 15267004034401005941u64);
    assert(exp2_upper_at(1490) == 15272172038206984041u64);
    assert(exp2_entries_fit_below(1490));
    assert(exp2_lower_at(1490) == 15272172038206984018u64 && exp2_upper_at(1490) == 15272172038206984041u64);
    assert(exp2_upper_at(1491) == 15277341791423866760u64);
    assert(exp2_entries_fit_below(1491));
    assert(exp2_lower_at(1491) == 15277341791423866731u64 && exp2_upper_at(1491) == 15277341791423866760u64);
    assert(exp2_upper_at(1492) == 15282513294643843772u64);
    assert(exp2_entries_fit_below(1492));
    assert(exp2_lower_at(1492) == 15282513294643843749u64 && exp2_upper_at(1492) == 15282513294643843772u64);
    assert(exp2_upper_at(1493) == 15287686548459305218u64);
    assert(exp2_entries_fit_below(1493));
    assert(exp2_lower_at(1493) == 15287686548459305188u64 && exp2_upper_at(1493) == 15287686548459305218u64);
    assert(exp2_upper_at(1494) == 15292861553462841770u64);
    assert(exp2_entries_fit_below(1494));
    assert(exp2_lower_at(1494) == 15292861553462841741u64 && exp2_upper_at(1494) == 15292861553462841770u64);
    assert(exp2_upper_at(1495) == 15298038310247244686u64);
    assert(exp2_entries_fit_below(1495));
    assert(exp2_lower_at(1495) == 15298038310247244653u64 && exp2_upper_at(1495) == 15298038310247244686u64);
    assert(exp2_upper_at(1496) == 15303216819405505900u64);
    assert(exp2_entries_fit_below(1496));
    assert(exp2_lower_at(1496) == 15303216819405505877u64 && exp2_upper_at(1496) == 15303216819405505900u64);
    assert(exp2_upper_at(1497) == 15308397081530818079u64);
    assert(exp2_entries_fit_below(1497));
    assert(exp2_lower_at(1497) == 15308397081530818051u64 && exp2_upper_at(1497) == 15308397081530818079u64);
    assert(exp2_upper_at(1498) == 15313579097216574681u64);
    assert(exp2_entries_fit_below(1498));
    assert(exp2_lower_at(1498) == 15313579097216574652u64 && exp2_upper_at(1498) == 15313579097216574681u64);
    assert(exp2_upper_at(1499) == 15318762867056370037u64);
    assert(exp2_entries_fit_below(1499));
    assert(exp2_lower_at(1499) == 15318762867056370003u64 && exp2_upper_at(1499) == 15318762867056370037u64);
    assert(exp2_upper_at(1500) == 15323948391643999414u64);
    assert(exp2_entries_fit_below(1500));
    assert(exp2_lower_at(1500) == 15323948391643999385u64 && exp2_upper_at(1500) == 15323948391643999414u64);
    assert(exp2_upper_at(1501) == 15329135671573459087u64);
    assert(exp2_entries_fit_below(1501));
    assert(exp2_lower_at(1501) == 15329135671573459052u64 && exp2_upper_at(1501) == 15329135671573459087u64);
    assert(exp2_upper_at(1502) == 15334324707438946399u64);
    assert(exp2_entries_fit_below(1502));
    assert(exp2_lower_at(1502) == 15334324707438946364u64 && exp2_upper_at(1502) == 15334324707438946399u64);
    assert(exp2_upper_at(1503) == 15339515499834859836u64);
    assert(exp2_entries_fit_below(1503));
    assert(exp2_lower_at(1503) == 15339515499834859794u64 && exp2_upper_at(1503) == 15339515499834859836u64);
    assert(exp2_upper_at(1504) == 15344708049355799081u64);
    assert(exp2_entries_fit_below(1504));
    assert(exp2_lower_at(1504) == 15344708049355799060u64 && exp2_upper_at(1504) == 15344708049355799081u64);
    assert(exp2_upper_at(1505) == 15349902356596565127u64);
    assert(exp2_entries_fit_below(1505));
    assert(exp2_lower_at(1505) == 15349902356596565102u64 && exp2_upper_at(1505) == 15349902356596565127u64);
    assert(exp2_upper_at(1506) == 15355098422152160278u64);
    assert(exp2_entries_fit_below(1506));
    assert(exp2_lower_at(1506) == 15355098422152160255u64 && exp2_upper_at(1506) == 15355098422152160278u64);
    assert(exp2_upper_at(1507) == 15360296246617788262u64);
    assert(exp2_entries_fit_below(1507));
    assert(exp2_lower_at(1507) == 15360296246617788233u64 && exp2_upper_at(1507) == 15360296246617788262u64);
    assert(exp2_upper_at(1508) == 15365495830588854290u64);
    assert(exp2_entries_fit_below(1508));
    assert(exp2_lower_at(1508) == 15365495830588854264u64 && exp2_upper_at(1508) == 15365495830588854290u64);
    assert(exp2_upper_at(1509) == 15370697174660965123u64);
    assert(exp2_entries_fit_below(1509));
    assert(exp2_lower_at(1509) == 15370697174660965091u64 && exp2_upper_at(1509) == 15370697174660965123u64);
    assert(exp2_upper_at(1510) == 15375900279429929137u64);
    assert(exp2_entries_fit_below(1510));
    assert(exp2_lower_at(1510) == 15375900279429929107u64 && exp2_upper_at(1510) == 15375900279429929137u64);
    assert(exp2_upper_at(1511) == 15381105145491756394u64);
    assert(exp2_entries_fit_below(1511));
    assert(exp2_lower_at(1511) == 15381105145491756359u64 && exp2_upper_at(1511) == 15381105145491756394u64);
    assert(exp2_upper_at(1512) == 15386311773442658711u64);
    assert(exp2_entries_fit_below(1512));
    assert(exp2_lower_at(1512) == 15386311773442658686u64 && exp2_upper_at(1512) == 15386311773442658711u64);
    assert(exp2_upper_at(1513) == 15391520163879049731u64);
    assert(exp2_entries_fit_below(1513));
    assert(exp2_lower_at(1513) == 15391520163879049700u64 && exp2_upper_at(1513) == 15391520163879049731u64);
    assert(exp2_upper_at(1514) == 15396730317397544985u64);
    assert(exp2_entries_fit_below(1514));
    assert(exp2_lower_at(1514) == 15396730317397544954u64 && exp2_upper_at(1514) == 15396730317397544985u64);
    assert(exp2_upper_at(1515) == 15401942234594961960u64);
    assert(exp2_entries_fit_below(1515));
    assert(exp2_lower_at(1515) == 15401942234594961922u64 && exp2_upper_at(1515) == 15401942234594961960u64);
    assert(exp2_upper_at(1516) == 15407155916068320172u64);
    assert(exp2_entries_fit_below(1516));
    assert(exp2_lower_at(1516) == 15407155916068320140u64 && exp2_upper_at(1516) == 15407155916068320172u64);
    assert(exp2_upper_at(1517) == 15412371362414841233u64);
    assert(exp2_entries_fit_below(1517));
    assert(exp2_lower_at(1517) == 15412371362414841201u64 && exp2_upper_at(1517) == 15412371362414841233u64);
    assert(exp2_upper_at(1518) == 15417588574231948930u64);
    assert(exp2_entries_fit_below(1518));
    assert(exp2_lower_at(1518) == 15417588574231948898u64 && exp2_upper_at(1518) == 15417588574231948930u64);
    assert(exp2_upper_at(1519) == 15422807552117269265u64);
    assert(exp2_entries_fit_below(1519));
    assert(exp2_lower_at(1519) == 15422807552117269226u64 && exp2_upper_at(1519) == 15422807552117269265u64);
    assert(exp2_upper_at(1520) == 15428028296668630546u64);
    assert(exp2_entries_fit_below(1520));
    assert(exp2_lower_at(1520) == 15428028296668630521u64 && exp2_upper_at(1520) == 15428028296668630546u64);
    assert(exp2_upper_at(1521) == 15433250808484063466u64);
    assert(exp2_entries_fit_below(1521));
    assert(exp2_lower_at(1521) == 15433250808484063438u64 && exp2_upper_at(1521) == 15433250808484063466u64);
    assert(exp2_upper_at(1522) == 15438475088161801141u64);
    assert(exp2_entries_fit_below(1522));
    assert(exp2_lower_at(1522) == 15438475088161801110u64 && exp2_upper_at(1522) == 15438475088161801141u64);
    assert(exp2_upper_at(1523) == 15443701136300279193u64);
    assert(exp2_entries_fit_below(1523));
    assert(exp2_lower_at(1523) == 15443701136300279158u64 && exp2_upper_at(1523) == 15443701136300279193u64);
    assert(exp2_upper_at(1524) == 15448928953498135824u64);
    assert(exp2_entries_fit_below(1524));
    assert(exp2_lower_at(1524) == 15448928953498135793u64 && exp2_upper_at(1524) == 15448928953498135824u64);
    assert(exp2_upper_at(1525) == 15454158540354211879u64);
    assert(exp2_entries_fit_below(1525));
    assert(exp2_lower_at(1525) == 15454158540354211847u64 && exp2_upper_at(1525) == 15454158540354211879u64);
    assert(exp2_upper_at(1526) == 15459389897467550923u64);
    assert(exp2_entries_fit_below(1526));
    assert(exp2_lower_at(1526) == 15459389897467550888u64 && exp2_upper_at(1526) == 15459389897467550923u64);
    assert(exp2_upper_at(1527) == 15464623025437399284u64);
    assert(exp2_entries_fit_below(1527));
    assert(exp2_lower_at(1527) == 15464623025437399245u64 && exp2_upper_at(1527) == 15464623025437399284u64);
    assert(exp2_upper_at(1528) == 15469857924863206156u64);
    assert(exp2_entries_fit_below(1528));
    assert(exp2_lower_at(1528) == 15469857924863206127u64 && exp2_upper_at(1528) == 15469857924863206156u64);
    assert(exp2_upper_at(1529) == 15475094596344623649u64);
    assert(exp2_entries_fit_below(1529));
    assert(exp2_lower_at(1529) == 15475094596344623613u64 && exp2_upper_at(1529) == 15475094596344623649u64);
    assert(exp2_upper_at(1530) == 15480333040481506852u64);
    assert(exp2_entries_fit_below(1530));
    assert(exp2_lower_at(1530) == 15480333040481506819u64 && exp2_upper_at(1530) == 15480333040481506852u64);
    assert(exp2_upper_at(1531) == 15485573257873913917u64);
    assert(exp2_entries_fit_below(1531));
    assert(exp2_lower_at(1531) == 15485573257873913877u64 && exp2_upper_at(1531) == 15485573257873913917u64);
    assert(exp2_upper_at(1532) == 15490815249122106117u64);
    assert(exp2_entries_fit_below(1532));
    assert(exp2_lower_at(1532) == 15490815249122106081u64 && exp2_upper_at(1532) == 15490815249122106117u64);
    assert(exp2_upper_at(1533) == 15496059014826547920u64);
    assert(exp2_entries_fit_below(1533));
    assert(exp2_lower_at(1533) == 15496059014826547878u64 && exp2_upper_at(1533) == 15496059014826547920u64);
    assert(exp2_upper_at(1534) == 15501304555587907056u64);
    assert(exp2_entries_fit_below(1534));
    assert(exp2_lower_at(1534) == 15501304555587907017u64 && exp2_upper_at(1534) == 15501304555587907056u64);
    assert(exp2_upper_at(1535) == 15506551872007054587u64);
    assert(exp2_entries_fit_below(1535));
    assert(exp2_lower_at(1535) == 15506551872007054541u64 && exp2_upper_at(1535) == 15506551872007054587u64);
    assert(exp2_upper_at(1536) == 15511800964685064951u64);
    assert(exp2_entries_fit_below(1536));
}

/// Entries 1536 to 1791 fit.
proof fn lemma_exp2_page_6()
    requires
        exp2_entries_fit_below(1536),
    ensures
        exp2_entries_fit_below(1792),
{
    reveal(exp2_lower_at);
    reveal(exp2_upper_at);
    assert(exp2_lower_at(1536) == 15511800964685064947u64 && exp2_upper_at(1536) == 15511800964685064951u64);
    assert(exp2_upper_at(1537) == 15517051834223216117u64);
    assert(exp2_entries_fit_below(1537));
    assert(exp2_lower_at(1537) == 15517051834223216108u64 && exp2_upper_at(1537) == 15517051834223216117u64);
    assert(exp2_upper_at(1538) == 15522304481222989530u64);
    assert(exp2_entries_fit_below(1538));
    assert(exp2_lower_at(1538) == 15522304481222989522u64 && exp2_upper_at(1538) == 15522304481222989530u64);
    assert(exp2_upper_at(1539) == 15527558906286070266u64);
    assert(exp2_entries_fit_below(1539));
    assert(exp2_lower_at(1539) == 15527558906286070253u64 && exp2_upper_at(1539) == 15527558906286070266u64);
    assert(exp2_upper_at(1540) == 15532815110014347068u64);
    assert(exp2_entries_fit_below(1540));
    assert(exp2_lower_at(1540) == 15532815110014347060u64 && exp2_upper_at(1540) == 15532815110014347068u64);
    assert(exp2_upper_at(1541) == 15538073093009912433u64);
    assert(exp2_entries_fit_below(1541));
    assert(exp2_lower_at(1541) == 15538073093009912419u64 && exp2_upper_at(1541) == 15538073093009912433u64);
    assert(exp2_upper_at(1542) == 15543332855875062663u64);
    assert(exp2_entries_fit_below(1542));
    assert(exp2_lower_at(1542) == 15543332855875062649u64 && exp2_upper_at(1542) == 15543332855875062663u64);
    assert(exp2_upper_at(1543) == 15548594399212297944u64);
    assert(exp2_entries_fit_below(1543));
    assert(exp2_lower_at(1543) == 15548594399212297926u64 && exp2_upper_at(1543) == 15548594399212297944u64);
    assert(exp2_upper_at(1544) == 15553857723624322416u64);
    assert(exp2_entries_fit_below(1544));
    assert(exp2_lower_at(1544) == 15553857723624322406u64 && exp2_upper_at(1544) == 15553857723624322416u64);
    assert(exp2_upper_at(1545) == 15559122829714044239u64);
    assert(exp2_entries_fit_below(1545));
    assert(exp2_lower_at(1545) == 15559122829714044225u64 && exp2_upper_at(1545) == 15559122829714044239u64);
    assert(exp2_upper_at(1546) == 15564389718084575661u64);
    assert(exp2_entries_fit_below(1546));
    assert(exp2_lower_at(1546) == 15564389718084575647u64 && exp2_upper_at(1546) == 15564389718084575661u64);
    assert(exp2_upper_at(1547) == 15569658389339233085u64);
    assert(exp2_entries_fit_below(1547));
    assert(exp2_lower_at(1547) == 15569658389339233066u64 && exp2_upper_at(1547) == 15569658389339233085u64);
    assert(exp2_upper_at(1548) == 15574928844081537145u64);
    assert(exp2_entries_fit_below(1548));
    assert(exp2_lower_at(1548) == 15574928844081537132u64 && exp2_upper_at(1548) == 15574928844081537145u64);
    assert(exp2_upper_at(1549) == 15580201082915212775u64);
    assert(exp2_entries_fit_below(1549));
    assert(exp2_lower_at(1549) == 15580201082915212756u64 && exp2_upper_at(1549) == 15580201082915212775u64);
    assert(exp2_upper_at(1550) == 15585475106444189268u64);
    assert(exp2_entries_fit_below(1550));
    assert(exp2_lower_at(1550) == 15585475106444189250u64 && exp2_upper_at(1550) == 15585475106444189268u64);
    assert(exp2_upper_at(1551) == 15590750915272600354u64);
    assert(exp2_entries_fit_below(1551));
    assert(exp2_lower_at(1551) == 15590750915272600331u64 && exp2_upper_at(1551) == 15590750915272600354u64);
    assert(exp2_upper_at(1552) == 15596028510004784265u64);
    assert(exp2_entries_fit_below(1552));
    assert(exp2_lower_at(1552) == 15596028510004784257u64 && exp2_upper_at(1552) == 15596028510004784265u64);
    assert(exp2_upper_at(1553) == 15601307891245283821u64);
    assert(exp2_entries_fit_below(1553));
    assert(exp2_lower_at(1553) == 15601307891245283808u64 && exp2_upper_at(1553) == 15601307891245283821u64);
    assert(exp2_upper_at(1554) == 15606589059598846464u64);
    assert(exp2_entries_fit_below(1554));
    assert(exp2_lower_at(1554) == 15606589059598846451u64 && exp2_upper_at(1554) == 15606589059598846464u64);
    assert(exp2_upper_at(1555) == 15611872015670424360u64);
    assert(exp2_entries_fit_below(1555));
    assert(exp2_lower_at(1555) == 15611872015670424342u64 && exp2_upper_at(1555) == 15611872015670424360u64);
    assert(exp2_upper_at(1556) == 15617156760065174452u64);
    assert(exp2_entries_fit_below(1556));
    assert(exp2_lower_at(1556) == 15617156760065174439u64 && exp2_upper_at(1556) == 15617156760065174452u64);
    assert(exp2_upper_at(1557) == 15622443293388458534u64);
    assert(exp2_entries_fit_below(1557));
    assert(exp2_lower_at(1557) == 15622443293388458515u64 && exp2_upper_at(1557) == 15622443293388458534u64);
    assert(exp2_upper_at(1558) == 15627731616245843323u64);
    assert(exp2_entries_fit_below(1558));
    assert(exp2_lower_at(1558) == 15627731616245843305u64 && exp2_upper_at(1558) == 15627731616245843323u64);
    assert(exp2_upper_at(1559) == 15633021729243100518u64);
    assert(exp2_entries_fit_below(1559));
    assert(exp2_lower_at(1559) == 15633021729243100494u64 && exp2_upper_at(1559) == 15633021729243100518u64);
    assert(exp2_upper_at(1560) == 15638313632986206884u64);
    assert(exp2_entries_fit_below(1560));
    assert(exp2_lower_at(1560) == 15638313632986206870u64 && exp2_upper_at(1560) == 15638313632986206884u64);
    assert(exp2_upper_at(1561) == 15643607328081344311u64);
    assert(exp2_entries_fit_below(1561));
    assert(exp2_lower_at(1561) == 15643607328081344294u64 && exp2_upper_at(1561) == 15643607328081344311u64);
    assert(exp2_upper_at(1562) == 15648902815134899890u64);
    assert(exp2_entries_fit_below(1562));
    assert(exp2_lower_at(1562) == 15648902815134899872u64 && exp2_upper_at(1562) == 15648902815134899890u64);
    assert(exp2_upper_at(1563) == 15654200094753465972u64);
    assert(exp2_entries_fit_below(1563));
    assert(exp2_lower_at(1563) == 15654200094753465948u64 && exp2_upper_at(1563) == 15654200094753465972u64);
    assert(exp2_upper_at(1564) == 15659499167543840246u64);
    assert(exp2_entries_fit_below(1564));
    assert(exp2_lower_at(1564) == 15659499167543840228u64 && exp2_upper_at(1564) == 15659499167543840246u64);
    assert(exp2_upper_at(1565) == 15664800034113025814u64);
    assert(exp2_entries_fit_below(1565));
    assert(exp2_lower_at(1565) == 15664800034113025789u64 && exp2_upper_at(1565) == 15664800034113025814u64);
    assert(exp2_upper_at(1566) == 15670102695068231245u64);
    assert(exp2_entries_fit_below(1566));
    assert(exp2_lower_at(1566) == 15670102695068231222u64 && exp2_upper_at(1566) == 15670102695068231245u64);
    assert(exp2_upper_at(1567) == 15675407151016870656u64);
    assert(exp2_entries_fit_below(1567));
    assert(exp2_lower_at(1567) == 15675407151016870625u64 && exp2_upper_at(1567) == 15675407151016870656u64);
    assert(exp2_upper_at(1568) == 15680713402566563770u64);
    assert(exp2_entries_fit_below(1568));
    assert(exp2_lower_at(1568) == 15680713402566563761u64 && exp2_upper_at(1568) == 15680713402566563770u64);
    assert(exp2_upper_at(1569) == 15686021450325136026u64);
    assert(exp2_entries_fit_below(1569));
    assert(exp2_lower_at(1569) == 15686021450325136012u64 && exp2_upper_at(1569) == 15686021450325136026u64);
    assert(exp2_upper_at(1570) == 15691331294900618578u64);
    assert(exp2_entries_fit_below(1570));
    assert(exp2_lower_at(1570) == 15691331294900618564u64 && exp2_upper_at(1570) == 15691331294900618578u64);
    assert(exp2_upper_at(1571) == 15696642936901248424u64);
    assert(exp2_entries_fit_below(1571));
    assert(exp2_lower_at(1571) == 15696642936901248404u64 && exp2_upper_at(1571) == 15696642936901248424u64);
    assert(exp2_upper_at(1572) == 15701956376935468445u64);
    assert(exp2_entries_fit_below(1572));
    assert(exp2_lower_at(1572) == 15701956376935468431u64 && exp2_upper_at(1572) == 15701956376935468445u64);
    assert(exp2_upper_at(1573) == 15707271615611927497u64);
    assert(exp2_entries_fit_below(1573));
    assert(exp2_lower_at(1573) == 15707271615611927480u64 && exp2_upper_at(1573) == 15707271615611927497u64);
    assert(exp2_upper_at(1574) == 15712588653539480460u64);
    assert(exp2_entries_fit_below(1574));
    assert(exp2_lower_at(1574) == 15712588653539480442u64 && exp2_upper_at(1574) == 15712588653539480460u64);
    assert(exp2_upper_at(1575) == 15717907491327188316u64);
    assert(exp2_entries_fit_below(1575));
    assert(exp2_lower_at(1575) == 15717907491327188292u64 && exp2_upper_at(1575) == 15717907491327188316u64);
    assert(exp2_upper_at(1576) == 15723228129584318219u64);
    assert(exp2_entries_fit_below(1576));
    assert(exp2_lower_at(1576) == 15723228129584318205u64 && exp2_upper_at(1576) == 15723228129584318219u64);
    assert(exp2_upper_at(1577) == 15728550568920343574u64);
    assert(exp2_entries_fit_below(1577));
    assert(exp2_lower_at(1577) == 15728550568920343555u64 && exp2_upper_at(1577) == 15728550568920343574u64);
    assert(exp2_upper_at(1578) == 15733874809944944087u64);
    assert(exp2_entries_fit_below(1578));
    assert(exp2_lower_at(1578) == 15733874809944944068u64 && exp2_upper_at(1578) == 15733874809944944087u64);
    assert(exp2_upper_at(1579) == 15739200853268005848u64);
    assert(exp2_entries_fit_below(1579));
    assert(exp2_lower_at(1579) == 15739200853268005822u64 && exp2_upper_at(1579) == 15739200853268005848u64);
    assert(exp2_upper_at(1580) == 15744528699499621398u64);
    assert(exp2_entries_fit_below(1580));
    assert(exp2_lower_at(1580) == 15744528699499621380u64 && exp2_upper_at(1580) == 15744528699499621398u64);
    assert(exp2_upper_at(1581) == 15749858349250089805u64);
    assert(exp2_entries_fit_below(1581));
    assert(exp2_lower_at(1581) == 15749858349250089782u64 && exp2_upper_at(1581) == 15749858349250089805u64);
    assert(exp2_upper_at(1582) == 15755189803129916721u64);
    assert(exp2_entries_fit_below(1582));
    assert(exp2_lower_at(1582) == 15755189803129916698u64 && exp2_upper_at(1582) == 15755189803129916721u64);
    assert(exp2_upper_at(1583) == 15760523061749814465u64);
    assert(exp2_entries_fit_below(1583));
    assert(exp2_lower_at(1583) == 15760523061749814436u64 && exp2_upper_at(1583) == 15760523061749814465u64);
    assert(exp2_upper_at(1584) == 15765858125720702071u64);
    assert(exp2_entries_fit_below(1584));
    assert(exp2_lower_at(1584) == 15765858125720702058u64 && exp2_upper_at(1584) == 15765858125720702071u64);
    assert(exp2_upper_at(1585) == 15771194995653705408u64);
    assert(exp2_entries_fit_below(1585));
    assert(exp2_lower_at(1585) == 15771194995653705390u64 && exp2_upper_at(1585) == 15771194995653705408u64);
    assert(exp2_upper_at(1586) == 15776533672160157184u64);
    assert(exp2_entries_fit_below(1586));
    assert(exp2_lower_at(1586) == 15776533672160157166u64 && exp2_upper_at(1586) == 15776533672160157184u64);
    assert(exp2_upper_at(1587) == 15781874155851597060u64);
    assert(exp2_entries_fit_below(1587));
    assert(exp2_lower_at(1587) == 15781874155851597036u64 && exp2_upper_at(1587) == 15781874155851597060u64);
    assert(exp2_upper_at(1588) == 15787216447339771705u64);
    assert(exp2_entries_fit_below(1588));
    assert(exp2_lower_at(1588) == 15787216447339771687u64 && exp2_upper_at(1588) == 15787216447339771705u64);
    assert(exp2_upper_at(1589) == 15792560547236634874u64);
    assert(exp2_entries_fit_below(1589));
    assert(exp2_lower_at(1589) == 15792560547236634850u64 && exp2_upper_at(1589) == 15792560547236634874u64);
    assert(exp2_upper_at(1590) == 15797906456154347472u64);
    assert(exp2_entries_fit_below(1590));
    assert(exp2_lower_at(1590) == 15797906456154347448u64 && exp2_upper_at(1590) == 15797906456154347472u64);
    assert(exp2_upper_at(1591) == 15803254174705277619u64);
    assert(exp2_entries_fit_below(1591));
    assert(exp2_lower_at(1591) == 15803254174705277590u64 && exp2_upper_at(1591) == 15803254174705277619u64);
    assert(exp2_upper_at(1592) == 15808603703502000735u64);
    assert(exp2_entries_fit_below(1592));
    assert(exp2_lower_at(1592) == 15808603703502000716u64 && exp2_upper_at(1592) == 15808603703502000735u64);
    assert(exp2_upper_at(1593) == 15813955043157299598u64);
    assert(exp2_entries_fit_below(1593));
    assert(exp2_lower_at(1593) == 15813955043157299575u64 && exp2_upper_at(1593) == 15813955043157299598u64);
    assert(exp2_upper_at(1594) == 15819308194284164420u64);
    assert(exp2_entries_fit_below(1594));
    assert(exp2_lower_at(1594) == 15819308194284164397u64 && exp2_upper_at(1594) == 15819308194284164420u64);
    assert(exp2_upper_at(1595) == 15824663157495792910u64);
    assert(exp2_entries_fit_below(1595));
    assert(exp2_lower_at(1595) == 15824663157495792882u64 && exp2_upper_at(1595) == 15824663157495792910u64);
    assert(exp2_upper_at(1596) == 15830019933405590353u64);
    assert(exp2_entries_fit_below(1596));
    assert(exp2_lower_at(1596) == 15830019933405590328u64 && exp2_upper_at(1596) == 15830019933405590353u64);
    assert(exp2_upper_at(1597) == 15835378522627169677u64);
    assert(exp2_entries_fit_below(1597));
    assert(exp2_lower_at(1597) == 15835378522627169647u64 && exp2_upper_at(1597) == 15835378522627169677u64);
    assert(exp2_upper_at(1598) == 15840738925774351523u64);
    assert(exp2_entries_fit_below(1598));
    assert(exp2_lower_at(1598) == 15840738925774351495u64 && exp2_upper_at(1598) == 15840738925774351523u64);
    assert(exp2_upper_at(1599) == 15846101143461164313u64);
    assert(exp2_entries_fit_below(1599));
    assert(exp2_lower_at(1599) == 15846101143461164277u64 && exp2_upper_at(1599) == 15846101143461164313u64);
    assert(exp2_upper_at(1600) == 15851465176301844314u64);
    assert(exp2_entries_fit_below(1600));
    assert(exp2_lower_at(1600) == 15851465176301844305u64 && exp2_upper_at(1600) == 15851465176301844314u64);
    assert(exp2_upper_at(1601) == 15856831024910835749u64);
    assert(exp2_entries_fit_below(1601));
    assert(exp2_lower_at(1601) == 15856831024910835735u64 && exp2_upper_at(1601) == 15856831024910835749u64);
    assert(exp2_upper_at(1602) == 15862198689902790800u64);
    assert(exp2_entries_fit_below(1602));
    assert(exp2_lower_at(1602) == 15862198689902790787u64 && exp2_upper_at(1602) == 15862198689902790800u64);
    assert(exp2_upper_at(1603) == 15867568171892569731u64);
    assert(exp2_entries_fit_below(1603));
    assert(exp2_lower_at(1603) == 15867568171892569713u64 && exp2_upper_at(1603) == 15867568171892569731u64);
    assert(exp2_upper_at(1604) == 15872939471495240934u64);
    assert(exp2_entries_fit_below(1604));
    assert(exp2_lower_at(1604) == 15872939471495240920u64 && exp2_upper_at(1604) == 15872939471495240934u64);
    assert(exp2_upper_at(1605) == 15878312589326081009u64);
    assert(exp2_entries_fit_below(1605));
    assert(exp2_lower_at(1605) == 15878312589326080991u64 && exp2_upper_at(1605) == 15878312589326081009u64);
    assert(exp2_upper_at(1606) == 15883687526000574839u64);
    assert(exp2_entries_fit_below(1606));
    assert(exp2_lower_at(1606) == 15883687526000574820u64 && exp2_upper_at(1606) == 15883687526000574839u64);
    assert(exp2_upper_at(1607) == 15889064282134415636u64);
    assert(exp2_entries_fit_below(1607));
    assert(exp2_lower_at(1607) == 15889064282134415613u64 && exp2_upper_at(1607) == 15889064282134415636u64);
    assert(exp2_upper_at(1608) == 15894442858343505048u64);
    assert(exp2_entries_fit_below(1608));
    assert(exp2_lower_at(1608) == 15894442858343505035u64 && exp2_upper_at(1608) == 15894442858343505048u64);
    assert(exp2_upper_at(1609) == 15899823255243953206u64);
    assert(exp2_entries_fit_below(1609));
    assert(exp2_lower_at(1609) == 15899823255243953188u64 && exp2_upper_at(1609) == 15899823255243953206u64);
    assert(exp2_upper_at(1610) == 15905205473452078793u64);
    assert(exp2_entries_fit_below(1610));
    assert(exp2_lower_at(1610) == 15905205473452078775u64 && exp2_upper_at(1610) == 15905205473452078793u64);
    assert(exp2_upper_at(1611) == 15910589513584409122u64);
    assert(exp2_entries_fit_below(1611));
    assert(exp2_lower_at(1611) == 15910589513584409098u64 && exp2_upper_at(1611) == 15910589513584409122u64);
    assert(exp2_upper_at(1612) == 15915975376257680210u64);
    assert(exp2_entries_fit_below(1612));
    assert(exp2_lower_at(1612) == 15915975376257680191u64 && exp2_upper_at(1612) == 15915975376257680210u64);
    assert(exp2_upper_at(1613) == 15921363062088836841u64);
    assert(exp2_entries_fit_below(1613));
    assert(exp2_lower_at(1613) == 15921363062088836816u64 && exp2_upper_at(1613) == 15921363062088836841u64);
    assert(exp2_upper_at(1614) == 15926752571695032642u64);
    assert(exp2_entries_fit_below(1614));
    assert(exp2_lower_at(1614) == 15926752571695032618u64 && exp2_upper_at(1614) == 15926752571695032642u64);
    assert(exp2_upper_at(1615) == 15932143905693630148u64);
    assert(exp2_entries_fit_below(1615));
    assert(exp2_lower_at(1615) == 15932143905693630119u64 && exp2_upper_at(1615) == 15932143905693630148u64);
    assert(exp2_upper_at(1616) == 15937537064702200871u64);
    assert(exp2_entries_fit_below(1616));
    assert(exp2_lower_at(1616) == 15937537064702200857u64 && exp2_upper_at(1616) == 15937537064702200871u64);
    assert(exp2_upper_at(1617) == 15942932049338525401u64);
    assert(exp2_entries_fit_below(1617));
    assert(exp2_lower_at(1617) == 15942932049338525382u64 && exp2_upper_at(1617) == 15942932049338525401u64);
    assert(exp2_upper_at(1618) == 15948328860220593422u64);
    assert(exp2_entries_fit_below(1618));
    assert(exp2_lower_at(1618) == 15948328860220593403u64 && exp2_upper_at(1618) == 15948328860220593422u64);
    assert(exp2_upper_at(1619) == 15953727497966603828u64);
    assert(exp2_entries_fit_below(1619));
    assert(exp2_lower_at(1619) == 15953727497966603804u64 && exp2_upper_at(1619) == 15953727497966603828u64);
    assert(exp2_upper_at(1620) == 15959127963194964773u64);
    assert(exp2_entries_fit_below(1620));
    assert(exp2_lower_at(1620) == 15959127963194964753u64 && exp2_upper_at(1620) == 15959127963194964773u64);
    assert(exp2_upper_at(1621) == 15964530256524293746u64);
    assert(exp2_entries_fit_below(1621));
    assert(exp2_lower_at(1621) == 15964530256524293723u64 && exp2_upper_at(1621) == 15964530256524293746u64);
    assert(exp2_upper_at(1622) == 15969934378573417654u64);
    assert(exp2_entries_fit_below(1622));
    assert(exp2_lower_at(1622) == 15969934378573417631u64 && exp2_upper_at(1622) == 15969934378573417654u64);
    assert(exp2_upper_at(1623) == 15975340329961372864u64);
    assert(exp2_entries_fit_below(1623));
    assert(exp2_lower_at(1623) == 15975340329961372834u64 && exp2_upper_at(1623) == 15975340329961372864u64);
    assert(exp2_upper_at(1624) == 15980748111307405306u64);
    assert(exp2_entries_fit_below(1624));
    assert(exp2_lower_at(1624) == 15980748111307405287u64 && exp2_upper_at(1624) == 15980748111307405306u64);
    assert(exp2_upper_at(1625) == 15986157723230970527u64);
    assert(exp2_entries_fit_below(1625));
    assert(exp2_lower_at(1625) == 15986157723230970504u64 && exp2_upper_at(1625) == 15986157723230970527u64);
    assert(exp2_upper_at(1626) == 15991569166351733763u64);
    assert(exp2_entries_fit_below(1626));
    assert(exp2_lower_at(1626) == 15991569166351733739u64 && exp2_upper_at(1626) == 15991569166351733763u64);
    assert(exp2_upper_at(1627) == 15996982441289570009u64);
    assert(exp2_entries_fit_below(1627));
    assert(exp2_lower_at(1627) == 15996982441289569979u64 && exp2_upper_at(1627) == 15996982441289570009u64);
    assert(exp2_upper_at(1628) == 16002397548664564093u64);
    assert(exp2_entries_fit_below(1628));
    assert(exp2_lower_at(1628) == 16002397548664564070u64 && exp2_upper_at(1628) == 16002397548664564093u64);
    assert(exp2_upper_at(1629) == 16007814489097010754u64);
    assert(exp2_entries_fit_below(1629));
    assert(exp2_lower_at(1629) == 16007814489097010725u64 && exp2_upper_at(1629) == 16007814489097010754u64);
    assert(exp2_upper_at(1630) == 16013233263207414700u64);
    assert(exp2_entries_fit_below(1630));
    assert(exp2_lower_at(1630) == 16013233263207414670u64 && exp2_upper_at(1630) == 16013233263207414700u64);
    assert(exp2_upper_at(1631) == 16018653871616490681u64);
    assert(exp2_entries_fit_below(1631));
    assert(exp2_lower_at(1631) == 16018653871616490645u64 && exp2_upper_at(1631) == 16018653871616490681u64);
    assert(exp2_upper_at(1632) == 16024076314945163562u64);
    assert(exp2_entries_fit_below(1632));
    assert(exp2_lower_at(1632) == 16024076314945163548u64 && exp2_upper_at(1632) == 16024076314945163562u64);
    assert(exp2_upper_at(1633) == 16029500593814568425u64);
    assert(exp2_entries_fit_below(1633));
    assert(exp2_lower_at(1633) == 16029500593814568406u64 && exp2_upper_at(1633) == 16029500593814568425u64);
    assert(exp2_upper_at(1634) == 16034926708846050575u64);
    assert(exp2_entries_fit_below(1634));
    assert(exp2_lower_at(1634) == 16034926708846050555u64 && exp2_upper_at(1634) == 16034926708846050575u64);
    assert(exp2_upper_at(1635) == 16040354660661165661u64);
    assert(exp2_entries_fit_below(1635));
    assert(exp2_lower_at(1635) == 16040354660661165636u64 && exp2_upper_at(1635) == 16040354660661165661u64);
    assert(exp2_upper_at(1636) == 16045784449881679734u64);
    assert(exp2_entries_fit_below(1636));
    assert(exp2_lower_at(1636) == 16045784449881679714u64 && exp2_upper_at(1636) == 16045784449881679734u64);
    assert(exp2_upper_at(1637) == 16051216077129569322u64);
    assert(exp2_entries_fit_below(1637));
    assert(exp2_lower_at(1637) == 16051216077129569296u64 && exp2_upper_at(1637) == 16051216077129569322u64);
    assert(exp2_upper_at(1638) == 16056649543027021487u64);
    assert(exp2_entries_fit_below(1638));
    assert(exp2_lower_at(1638) == 16056649543027021463u64 && exp2_upper_at(1638) == 16056649543027021487u64);
    assert(exp2_upper_at(1639) == 16062084848196433914u64);
    assert(exp2_entries_fit_below(1639));
    assert(exp2_lower_at(1639) == 16062084848196433885u64 && exp2_upper_at(1639) == 16062084848196433914u64);
    assert(exp2_upper_at(1640) == 16067521993260414972u64);
    assert(exp2_entries_fit_below(1640));
    assert(exp2_lower_at(1640) == 16067521993260414953u64 && exp2_upper_at(1640) == 16067521993260414972u64);
    assert(exp2_upper_at(1641) == 16072960978841783791u64);
    assert(exp2_entries_fit_below(1641));
    assert(exp2_lower_at(1641) == 16072960978841783766u64 && exp2_upper_at(1641) == 16072960978841783791u64);
    assert(exp2_upper_at(1642) == 16078401805563570328u64);
    assert(exp2_entries_fit_below(1642));
    assert(exp2_lower_at(1642) == 16078401805563570304u64 && exp2_upper_at(1642) == 16078401805563570328u64);
    assert(exp2_upper_at(1643) == 16083844474049015438u64);
    assert(exp2_entries_fit_below(1643));
    assert(exp2_lower_at(1643) == 16083844474049015406u64 && exp2_upper_at(1643) == 16083844474049015438u64);
    assert(exp2_upper_at(1644) == 16089288984921570951u64);
    assert(exp2_entries_fit_below(1644));
    assert(exp2_lower_at(1644) == 16089288984921570924u64 && exp2_upper_at(1644) == 16089288984921570951u64);
    assert(exp2_upper_at(1645) == 16094735338804899738u64);
    assert(exp2_entries_fit_below(1645));
    assert(exp2_lower_at(1645) == 16094735338804899709u64 && exp2_upper_at(1645) == 16094735338804899738u64);
    assert(exp2_upper_at(1646) == 16100183536322875793u64);
    assert(exp2_entries_fit_below(1646));
    assert(exp2_lower_at(1646) == 16100183536322875764u64 && exp2_upper_at(1646) == 16100183536322875793u64);
    assert(exp2_upper_at(1647) == 16105633578099584285u64);
    assert(exp2_entries_fit_below(1647));
    assert(exp2_lower_at(1647) == 16105633578099584251u64 && exp2_upper_at(1647) == 16105633578099584285u64);
    assert(exp2_upper_at(1648) == 16111085464759321641u64);
    assert(exp2_entries_fit_below(1648));
    assert(exp2_lower_at(1648) == 16111085464759321621u64 && exp2_upper_at(1648) == 16111085464759321641u64);
    assert(exp2_upper_at(1649) == 16116539196926595637u64);
    assert(exp2_entries_fit_below(1649));
    assert(exp2_lower_at(1649) == 16116539196926595613u64 && exp2_upper_at(1649) == 16116539196926595637u64);
    assert(exp2_upper_at(1650) == 16121994775226125428u64);
    assert(exp2_entries_fit_below(1650));
    assert(exp2_lower_at(1650) == 16121994775226125404u64 && exp2_upper_at(1650) == 16121994775226125428u64);
    assert(exp2_upper_at(1651) == 16127452200282841648u64);
    assert(exp2_entries_fit_below(1651));
    assert(exp2_lower_at(1651) == 16127452200282841617u64 && exp2_upper_at(1651) == 16127452200282841648u64);
    assert(exp2_upper_at(1652) == 16132911472721886476u64);
    assert(exp2_entries_fit_below(1652));
    assert(exp2_lower_at(1652) == 16132911472721886453u64 && exp2_upper_at(1652) == 16132911472721886476u64);
    assert(exp2_upper_at(1653) == 16138372593168613707u64);
    assert(exp2_entries_fit_below(1653));
    assert(exp2_lower_at(1653) == 16138372593168613678u64 && exp2_upper_at(1653) == 16138372593168613707u64);
    assert(exp2_upper_at(1654) == 16143835562248588826u64);
    assert(exp2_entries_fit_below(1654));
    assert(exp2_lower_at(1654) == 16143835562248588797u64 && exp2_upper_at(1654) == 16143835562248588826u64);
    assert(exp2_upper_at(1655) == 16149300380587589068u64);
    assert(exp2_entries_fit_below(1655));
    assert(exp2_lower_at(1655) == 16149300380587589034u64 && exp2_upper_at(1655) == 16149300380587589068u64);
    assert(exp2_upper_at(1656) == 16154767048811603506u64);
    assert(exp2_entries_fit_below(1656));
    assert(exp2_lower_at(1656) == 16154767048811603483u64 && exp2_upper_at(1656) == 16154767048811603506u64);
    assert(exp2_upper_at(1657) == 16160235567546833120u64);
    assert(exp2_entries_fit_below(1657));
    assert(exp2_lower_at(1657) == 16160235567546833091u64 && exp2_upper_at(1657) == 16160235567546833120u64);
    assert(exp2_upper_at(1658) == 16165705937419690853u64);
    assert(exp2_entries_fit_below(1658));
    assert(exp2_lower_at(1658) == 16165705937419690824u64 && exp2_upper_at(1658) == 16165705937419690853u64);
    assert(exp2_upper_at(1659) == 16171178159056801698u64);
    assert(exp2_entries_fit_below(1659));
    assert(exp2_lower_at(1659) == 16171178159056801663u64 && exp2_upper_at(1659) == 16171178159056801698u64);
    assert(exp2_upper_at(1660) == 16176652233085002767u64);
    assert(exp2_entries_fit_below(1660));
    assert(exp2_lower_at(1660) == 16176652233085002736u64 && exp2_upper_at(1660) == 16176652233085002767u64);
    assert(exp2_upper_at(1661) == 16182128160131343361u64);
    assert(exp2_entries_fit_below(1661));
    assert(exp2_lower_at(1661) == 16182128160131343323u64 && exp2_upper_at(1661) == 16182128160131343361u64);
    assert(exp2_upper_at(1662) == 16187605940823085042u64);
    assert(exp2_entries_fit_below(1662));
    assert(exp2_lower_at(1662) == 16187605940823085007u64 && exp2_upper_at(1662) == 16187605940823085042u64);
    assert(exp2_upper_at(1663) == 16193085575787701705u64);
    assert(exp2_entries_fit_below(1663));
    assert(exp2_lower_at(1663) == 16193085575787701665u64 && exp2_upper_at(1663) == 16193085575787701705u64);
    assert(exp2_upper_at(1664) == 16198567065652879638u64);
    assert(exp2_entries_fit_below(1664));
    assert(exp2_lower_at(1664) == 16198567065652879630u64 && exp2_upper_at(1664) == 16198567065652879638u64);
    assert(exp2_upper_at(1665) == 16204050411046517645u64);
    assert(exp2_entries_fit_below(1665));
    assert(exp2_lower_at(1665) == 16204050411046517630u64 && exp2_upper_at(1665) == 16204050411046517645u64);
    assert(exp2_upper_at(1666) == 16209535612596727035u64);
    assert(exp2_entries_fit_below(1666));
    assert(exp2_lower_at(1666) == 16209535612596727021u64 && exp2_upper_at(1666) == 16209535612596727035u64);
    assert(exp2_upper_at(1667) == 16215022670931831756u64);
    assert(exp2_entries_fit_below(1667));
    assert(exp2_lower_at(1667) == 16215022670931831738u64 && exp2_upper_at(1667) == 16215022670931831756u64);
    assert(exp2_upper_at(1668) == 16220511586680368446u64);
    assert(exp2_entries_fit_below(1668));
    assert(exp2_lower_at(1668) == 16220511586680368433u64 && exp2_upper_at(1668) == 16220511586680368446u64);
    assert(exp2_upper_at(1669) == 16226002360471086514u64);
    assert(exp2_entries_fit_below(1669));
    assert(exp2_lower_at(1669) == 16226002360471086494u64 && exp2_upper_at(1669) == 16226002360471086514u64);
    assert(exp2_upper_at(1670) == 16231494992932948196u64);
    assert(exp2_entries_fit_below(1670));
    assert(exp2_lower_at(1670) == 16231494992932948178u64 && exp2_upper_at(1670) == 16231494992932948196u64);
    assert(exp2_upper_at(1671) == 16236989484695128641u64);
    assert(exp2_entries_fit_below(1671));
    assert(exp2_lower_at(1671) == 16236989484695128618u64 && exp2_upper_at(1671) == 16236989484695128641u64);
    assert(exp2_upper_at(1672) == 16242485836387015979u64);
    assert(exp2_entries_fit_below(1672));
    assert(exp2_lower_at(1672) == 16242485836387015965u64 && exp2_upper_at(1672) == 16242485836387015979u64);
    assert(exp2_upper_at(1673) == 16247984048638211399u64);
    assert(exp2_entries_fit_below(1673));
    assert(exp2_lower_at(1673) == 16247984048638211381u64 && exp2_upper_at(1673) == 16247984048638211399u64);
    assert(exp2_upper_at(1674) == 16253484122078529205u64);
    assert(exp2_entries_fit_below(1674));
    assert(exp2_lower_at(1674) == 16253484122078529187u64 && exp2_upper_at(1674) == 16253484122078529205u64);
    assert(exp2_upper_at(1675) == 16258986057337996902u64);
    assert(exp2_entries_fit_below(1675));
    assert(exp2_lower_at(1675) == 16258986057337996876u64 && exp2_upper_at(1675) == 16258986057337996902u64);
    assert(exp2_upper_at(1676) == 16264489855046855264u64);
    assert(exp2_entries_fit_below(1676));
    assert(exp2_lower_at(1676) == 16264489855046855245u64 && exp2_upper_at(1676) == 16264489855046855264u64);
    assert(exp2_upper_at(1677) == 16269995515835558410u64);
    assert(exp2_entries_fit_below(1677));
    assert(exp2_lower_at(1677) == 16269995515835558386u64 && exp2_upper_at(1677) == 16269995515835558410u64);
    assert(exp2_upper_at(1678) == 16275503040334773870u64);
    assert(exp2_entries_fit_below(1678));
    assert(exp2_lower_at(1678) == 16275503040334773846u64 && exp2_upper_at(1678) == 16275503040334773870u64);
    assert(exp2_upper_at(1679) == 16281012429175382659u64);
    assert(exp2_entries_fit_below(1679));
    assert(exp2_lower_at(1679) == 16281012429175382629u64 && exp2_upper_at(1679) == 16281012429175382659u64);
    assert(exp2_upper_at(1680) == 16286523682988479344u64);
    assert(exp2_entries_fit_below(1680));
    assert(exp2_lower_at(1680) == 16286523682988479330u64 && exp2_upper_at(1680) == 16286523682988479344u64);
    assert(exp2_upper_at(1681) == 16292036802405372148u64);
    assert(exp2_entries_fit_below(1681));
    assert(exp2_lower_at(1681) == 16292036802405372129u64 && exp2_upper_at(1681) == 16292036802405372148u64);
    assert(exp2_upper_at(1682) == 16297551788057582966u64);
    assert(exp2_entries_fit_below(1682));
    assert(exp2_lower_at(1682) == 16297551788057582949u64 && exp2_upper_at(1682) == 16297551788057582966u64);
    assert(exp2_upper_at(1683) == 16303068640576847487u64);
    assert(exp2_entries_fit_below(1683));
    assert(exp2_lower_at(1683) == 16303068640576847464u64 && exp2_upper_at(1683) == 16303068640576847487u64);
    assert(exp2_upper_at(1684) == 16308587360595115240u64);
    assert(exp2_entries_fit_below(1684));
    assert(exp2_lower_at(1684) == 16308587360595115222u64 && exp2_upper_at(1684) == 16308587360595115240u64);
    assert(exp2_upper_at(1685) == 16314107948744549674u64);
    assert(exp2_entries_fit_below(1685));
    assert(exp2_lower_at(1685) == 16314107948744549651u64 && exp2_upper_at(1685) == 16314107948744549674u64);
    assert(exp2_upper_at(1686) == 16319630405657528236u64);
    assert(exp2_entries_fit_below(1686));
    assert(exp2_lower_at(1686) == 16319630405657528213u64 && exp2_upper_at(1686) == 16319630405657528236u64);
    assert(exp2_upper_at(1687) == 16325154731966642432u64);
    assert(exp2_entries_fit_below(1687));
    assert(exp2_lower_at(1687) == 16325154731966642401u64 && exp2_upper_at(1687) == 16325154731966642432u64);
    assert(exp2_upper_at(1688) == 16330680928304697905u64);
    assert(exp2_entries_fit_below(1688));
    assert(exp2_lower_at(1688) == 16330680928304697886u64 && exp2_upper_at(1688) == 16330680928304697905u64);
    assert(exp2_upper_at(1689) == 16336208995304714516u64);
    assert(exp2_entries_fit_below(1689));
    assert(exp2_lower_at(1689) == 16336208995304714491u64 && exp2_upper_at(1689) == 16336208995304714516u64);
    assert(exp2_upper_at(1690) == 16341738933599926401u64);
    assert(exp2_entries_fit_below(1690));
    assert(exp2_lower_at(1690) == 16341738933599926378u64 && exp2_upper_at(1690) == 16341738933599926401u64);
    assert(exp2_upper_at(1691) == 16347270743823782050u64);
    assert(exp2_entries_fit_below(1691));
    assert(exp2_lower_at(1691) == 16347270743823782021u64 && exp2_upper_at(1691) == 16347270743823782050u64);
    assert(exp2_upper_at(1692) == 16352804426609944384u64);
    assert(exp2_entries_fit_below(1692));
    assert(exp2_lower_at(1692) == 16352804426609944361u64 && exp2_upper_at(1692) == 16352804426609944384u64);
    assert(exp2_upper_at(1693) == 16358339982592290825u64);
    assert(exp2_entries_fit_below(1693));
    assert(exp2_lower_at(1693) == 16358339982592290793u64 && exp2_upper_at(1693) == 16358339982592290825u64);
    assert(exp2_upper_at(1694) == 16363877412404913363u64);
    assert(exp2_entries_fit_below(1694));
    assert(exp2_lower_at(1694) == 16363877412404913334u64 && exp2_upper_at(1694) == 16363877412404913363u64);
    assert(exp2_upper_at(1695) == 16369416716682118637u64);
    assert(exp2_entries_fit_below(1695));
    assert(exp2_lower_at(1695) == 16369416716682118601u64 && exp2_upper_at(1695) == 16369416716682118637u64);
    assert(exp2_upper_at(1696) == 16374957896058427993u64);
    assert(exp2_entries_fit_below(1696));
    assert(exp2_lower_at(1696) == 16374957896058427977u64 && exp2_upper_at(1696) == 16374957896058427993u64);
    assert(exp2_upper_at(1697) == 16380500951168577597u64);
    assert(exp2_entries_fit_below(1697));
    assert(exp2_lower_at(1697) == 16380500951168577578u64 && exp2_upper_at(1697) == 16380500951168577597u64);
    assert(exp2_upper_at(1698) == 16386045882647518449u64);
    assert(exp2_entries_fit_below(1698));
    assert(exp2_lower_at(1698) == 16386045882647518428u64 && exp2_upper_at(1698) == 16386045882647518449u64);
    assert(exp2_upper_at(1699) == 16391592691130416491u64);
    assert(exp2_entries_fit_below(1699));
    assert(exp2_lower_at(1699) == 16391592691130416468u64 && exp2_upper_at(1699) == 16391592691130416491u64);
    assert(exp2_upper_at(1700) == 16397141377252652682u64);
    assert(exp2_entries_fit_below(1700));
    assert(exp2_lower_at(1700) == 16397141377252652663u64 && exp2_upper_at(1700) == 16397141377252652682u64);
    assert(exp2_upper_at(1701) == 16402691941649823058u64);
    assert(exp2_entries_fit_below(1701));
    assert(exp2_lower_at(1701) == 16402691941649823034u64 && exp2_upper_at(1701) == 16402691941649823058u64);
    assert(exp2_upper_at(1702) == 16408244384957738807u64);
    assert(exp2_entries_fit_below(1702));
    assert(exp2_lower_at(1702) == 16408244384957738784u64 && exp2_upper_at(1702) == 16408244384957738807u64);
    assert(exp2_upper_at(1703) == 16413798707812426348u64);
    assert(exp2_entries_fit_below(1703));
    assert(exp2_lower_at(1703) == 16413798707812426319u64 && exp2_upper_at(1703) == 16413798707812426348u64);
    assert(exp2_upper_at(1704) == 16419354910850127395u64);
    assert(exp2_entries_fit_below(1704));
    assert(exp2_lower_at(1704) == 16419354910850127375u64 && exp2_upper_at(1704) == 16419354910850127395u64);
    assert(exp2_upper_at(1705) == 16424912994707299044u64);
    assert(exp2_entries_fit_below(1705));
    assert(exp2_lower_at(1705) == 16424912994707299021u64 && exp2_upper_at(1705) == 16424912994707299044u64);
    assert(exp2_upper_at(1706) == 16430472960020613832u64);
    assert(exp2_entries_fit_below(1706));
    assert(exp2_lower_at(1706) == 16430472960020613807u64 && exp2_upper_at(1706) == 16430472960020613832u64);
    assert(exp2_upper_at(1707) == 16436034807426959810u64);
    assert(exp2_entries_fit_below(1707));
    assert(exp2_lower_at(1707) == 16436034807426959778u64 && exp2_upper_at(1707) == 16436034807426959810u64);
    assert(exp2_upper_at(1708) == 16441598537563440623u64);
    assert(exp2_entries_fit_below(1708));
    assert(exp2_lower_at(1708) == 16441598537563440600u64 && exp2_upper_at(1708) == 16441598537563440623u64);
    assert(exp2_upper_at(1709) == 16447164151067375589u64);
    assert(exp2_entries_fit_below(1709));
    assert(exp2_lower_at(1709) == 16447164151067375559u64 && exp2_upper_at(1709) == 16447164151067375589u64);
    assert(exp2_upper_at(1710) == 16452731648576299753u64);
    assert(exp2_entries_fit_below(1710));
    assert(exp2_lower_at(1710) == 16452731648576299725u64 && exp2_upper_at(1710) == 16452731648576299753u64);
    assert(exp2_upper_at(1711) == 16458301030727963979u64);
    assert(exp2_entries_fit_below(1711));
    assert(exp2_lower_at(1711) == 16458301030727963943u64 && exp2_upper_at(1711) == 16458301030727963979u64);
    assert(exp2_upper_at(1712) == 16463872298160334998u64);
    assert(exp2_entries_fit_below(1712));
    assert(exp2_lower_at(1712) == 16463872298160334979u64 && exp2_upper_at(1712) == 16463872298160334998u64);
    assert(exp2_upper_at(1713) == 16469445451511595532u64);
    assert(exp2_entries_fit_below(1713));
    assert(exp2_lower_at(1713) == 16469445451511595507u64 && exp2_upper_at(1713) == 16469445451511595532u64);
    assert(exp2_upper_at(1714) == 16475020491420144300u64);
    assert(exp2_entries_fit_below(1714));
    assert(exp2_lower_at(1714) == 16475020491420144274u64 && exp2_upper_at(1714) == 16475020491420144300u64);
    assert(exp2_upper_at(1715) == 16480597418524596136u64);
    assert(exp2_entries_fit_below(1715));
    assert(exp2_lower_at(1715) == 16480597418524596105u64 && exp2_upper_at(1715) == 16480597418524596136u64);
    assert(exp2_upper_at(1716) == 16486176233463782049u64);
    assert(exp2_entries_fit_below(1716));
    assert(exp2_lower_at(1716) == 16486176233463782026u64 && exp2_upper_at(1716) == 16486176233463782049u64);
    assert(exp2_upper_at(1717) == 16491756936876749304u64);
    assert(exp2_entries_fit_below(1717));
    assert(exp2_lower_at(1717) == 16491756936876749274u64 && exp2_upper_at(1717) == 16491756936876749304u64);
    assert(exp2_upper_at(1718) == 16497339529402761481u64);
    assert(exp2_entries_fit_below(1718));
    assert(exp2_lower_at(1718) == 16497339529402761451u64 && exp2_upper_at(1718) == 16497339529402761481u64);
    assert(exp2_upper_at(1719) == 16502924011681298554u64);
    assert(exp2_entries_fit_below(1719));
    assert(exp2_lower_at(1719) == 16502924011681298519u64 && exp2_upper_at(1719) == 16502924011681298554u64);
    assert(exp2_upper_at(1720) == 16508510384352056973u64);
    assert(exp2_entries_fit_below(1720));
    assert(exp2_lower_at(1720) == 16508510384352056950u64 && exp2_upper_at(1720) == 16508510384352056973u64);
    assert(exp2_upper_at(1721) == 16514098648054949731u64);
    assert(exp2_entries_fit_below(1721));
    assert(exp2_lower_at(1721) == 16514098648054949700u64 && exp2_upper_at(1721) == 16514098648054949731u64);
    assert(exp2_upper_at(1722) == 16519688803430106432u64);
    assert(exp2_entries_fit_below(1722));
    assert(exp2_lower_at(1722) == 16519688803430106402u64 && exp2_upper_at(1722) == 16519688803430106432u64);
    assert(exp2_upper_at(1723) == 16525280851117873366u64);
    assert(exp2_entries_fit_below(1723));
    assert(exp2_lower_at(1723) == 16525280851117873332u64 && exp2_upper_at(1723) == 16525280851117873366u64);
    assert(exp2_upper_at(1724) == 16530874791758813593u64);
    assert(exp2_entries_fit_below(1724));
    assert(exp2_lower_at(1724) == 16530874791758813563u64 && exp2_upper_at(1724) == 16530874791758813593u64);
    assert(exp2_upper_at(1725) == 16536470625993707005u64);
    assert(exp2_entries_fit_below(1725));
    assert(exp2_lower_at(1725) == 16536470625993706968u64 && exp2_upper_at(1725) == 16536470625993707005u64);
    assert(exp2_upper_at(1726) == 16542068354463550405u64);
    assert(exp2_entries_fit_below(1726));
    assert(exp2_lower_at(1726) == 16542068354463550369u64 && exp2_upper_at(1726) == 16542068354463550405u64);
    assert(exp2_upper_at(1727) == 16547667977809557574u64);
    assert(exp2_entries_fit_below(1727));
    assert(exp2_lower_at(1727) == 16547667977809557533u64 && exp2_upper_at(1727) == 16547667977809557574u64);
    assert(exp2_upper_at(1728) == 16553269496673159344u64);
    assert(exp2_entries_fit_below(1728));
    assert(exp2_lower_at(1728) == 16553269496673159330u64 && exp2_upper_at(1728) == 16553269496673159344u64);
    assert(exp2_upper_at(1729) == 16558872911696003705u64);
    assert(exp2_entries_fit_below(1729));
    assert(exp2_lower_at(1729) == 16558872911696003687u64 && exp2_upper_at(1729) == 16558872911696003705u64);
    assert(exp2_upper_at(1730) == 16564478223519955823u64);
    assert(exp2_entries_fit_below(1730));
    assert(exp2_lower_at(1730) == 16564478223519955804u64 && exp2_upper_at(1730) == 16564478223519955823u64);
    assert(exp2_upper_at(1731) == 16570085432787098143u64);
    assert(exp2_entries_fit_below(1731));
    assert(exp2_lower_at(1731) == 16570085432787098117u64 && exp2_upper_at(1731) == 16570085432787098143u64);
    assert(exp2_upper_at(1732) == 16575694540139730463u64);
    assert(exp2_entries_fit_below(1732));
    assert(exp2_lower_at(1732) == 16575694540139730444u64 && exp2_upper_at(1732) == 16575694540139730463u64);
    assert(exp2_upper_at(1733) == 16581305546220370011u64);
    assert(exp2_entries_fit_below(1733));
    assert(exp2_lower_at(1733) == 16581305546220369987u64 && exp2_upper_at(1733) == 16581305546220370011u64);
    assert(exp2_upper_at(1734) == 16586918451671751508u64);
    assert(exp2_entries_fit_below(1734));
    assert(exp2_lower_at(1734) == 16586918451671751483u64 && exp2_upper_at(1734) == 16586918451671751508u64);
    assert(exp2_upper_at(1735) == 16592533257136827236u64);
    assert(exp2_entries_fit_below(1735));
    assert(exp2_lower_at(1735) == 16592533257136827207u64 && exp2_upper_at(1735) == 16592533257136827236u64);
    assert(exp2_upper_at(1736) == 16598149963258767138u64);
    assert(exp2_entries_fit_below(1736));
    assert(exp2_lower_at(1736) == 16598149963258767117u64 && exp2_upper_at(1736) == 16598149963258767138u64);
    assert(exp2_upper_at(1737) == 16603768570680958868u64);
    assert(exp2_entries_fit_below(1737));
    assert(exp2_lower_at(1737) == 16603768570680958843u64 && exp2_upper_at(1737) == 16603768570680958868u64);
    assert(exp2_upper_at(1738) == 16609389080047007872u64);
    assert(exp2_entries_fit_below(1738));
    assert(exp2_lower_at(1738) == 16609389080047007849u64 && exp2_upper_at(1738) == 16609389080047007872u64);
    assert(exp2_upper_at(1739) == 16615011492000737460u64);
    assert(exp2_entries_fit_below(1739));
    assert(exp2_lower_at(1739) == 16615011492000737428u64 && exp2_upper_at(1739) == 16615011492000737460u64);
    assert(exp2_upper_at(1740) == 16620635807186188881u64);
    assert(exp2_entries_fit_below(1740));
    assert(exp2_lower_at(1740) == 16620635807186188856u64 && exp2_upper_at(1740) == 16620635807186188881u64);
    assert(exp2_upper_at(1741) == 16626262026247621398u64);
    assert(exp2_entries_fit_below(1741));
    assert(exp2_lower_at(1741) == 16626262026247621371u64 && exp2_upper_at(1741) == 16626262026247621398u64);
    assert(exp2_upper_at(1742) == 16631890149829512369u64);
    assert(exp2_entries_fit_below(1742));
    assert(exp2_lower_at(1742) == 16631890149829512340u64 && exp2_upper_at(1742) == 16631890149829512369u64);
    assert(exp2_upper_at(1743) == 16637520178576557301u64);
    assert(exp2_entries_fit_below(1743));
    assert(exp2_lower_at(1743) == 16637520178576557267u64 && exp2_upper_at(1743) == 16637520178576557301u64);
    assert(exp2_upper_at(1744) == 16643152113133669933u64);
    assert(exp2_entries_fit_below(1744));
    assert(exp2_lower_at(1744) == 16643152113133669912u64 && exp2_upper_at(1744) == 16643152113133669933u64);
    assert(exp2_upper_at(1745) == 16648785954145982333u64);
    assert(exp2_entries_fit_below(1745));
    assert(exp2_lower_at(1745) == 16648785954145982310u64 && exp2_upper_at(1745) == 16648785954145982333u64);
    assert(exp2_upper_at(1746) == 16654421702258844934u64);
    assert(exp2_entries_fit_below(1746));
    assert(exp2_lower_at(1746) == 16654421702258844911u64 && exp2_upper_at(1746) == 16654421702258844934u64);
    assert(exp2_upper_at(1747) == 16660059358117826630u64);
    assert(exp2_entries_fit_below(1747));
    assert(exp2_lower_at(1747) == 16660059358117826600u64 && exp2_upper_at(1747) == 16660059358117826630u64);
    assert(exp2_upper_at(1748) == 16665698922368714840u64);
    assert(exp2_entries_fit_below(1748));
    assert(exp2_lower_at(1748) == 16665698922368714816u64 && exp2_upper_at(1748) == 16665698922368714840u64);
    assert(exp2_upper_at(1749) == 16671340395657515595u64);
    assert(exp2_entries_fit_below(1749));
    assert(exp2_lower_at(1749) == 16671340395657515564u64 && exp2_upper_at(1749) == 16671340395657515595u64);
    assert(exp2_upper_at(1750) == 16676983778630453604u64);
    assert(exp2_entries_fit_below(1750));
    assert(exp2_lower_at(1750) == 16676983778630453574u64 && exp2_upper_at(1750) == 16676983778630453604u64);
    assert(exp2_upper_at(1751) == 16682629071933972318u64);
    assert(exp2_entries_fit_below(1751));
    assert(exp2_lower_at(1751) == 16682629071933972283u64 && exp2_upper_at(1751) == 16682629071933972318u64);
    assert(exp2_upper_at(1752) == 16688276276214734026u64);
    assert(exp2_entries_fit_below(1752));
    assert(exp2_lower_at(1752) == 16688276276214734003u64 && exp2_upper_at(1752) == 16688276276214734026u64);
    assert(exp2_upper_at(1753) == 16693925392119619918u64);
    assert(exp2_entries_fit_below(1753));
    assert(exp2_lower_at(1753) == 16693925392119619891u64 && exp2_upper_at(1753) == 16693925392119619918u64);
    assert(exp2_upper_at(1754) == 16699576420295730151u64);
    assert(exp2_entries_fit_below(1754));
    assert(exp2_lower_at(1754) == 16699576420295730122u64 && exp2_upper_at(1754) == 16699576420295730151u64);
    assert(exp2_upper_at(1755) == 16705229361390383931u64);
    assert(exp2_entries_fit_below(1755));
    assert(exp2_lower_at(1755) == 16705229361390383897u64 && exp2_upper_at(1755) == 16705229361390383931u64);
    assert(exp2_upper_at(1756) == 16710884216051119589u64);
    assert(exp2_entries_fit_below(1756));
    assert(exp2_lower_at(1756) == 16710884216051119558u64 && exp2_upper_at(1756) == 16710884216051119589u64);
    assert(exp2_upper_at(1757) == 16716540984925694654u64);
    assert(exp2_entries_fit_below(1757));
    assert(exp2_lower_at(1757) == 16716540984925694619u64 && exp2_upper_at(1757) == 16716540984925694654u64);
    assert(exp2_upper_at(1758) == 16722199668662085926u64);
    assert(exp2_entries_fit_below(1758));
    assert(exp2_lower_at(1758) == 16722199668662085889u64 && exp2_upper_at(1758) == 16722199668662085926u64);
    assert(exp2_upper_at(1759) == 16727860267908489549u64);
    assert(exp2_entries_fit_below(1759));
    assert(exp2_lower_at(1759) == 16727860267908489504u64 && exp2_upper_at(1759) == 16727860267908489549u64);
    assert(exp2_upper_at(1760) == 16733522783313321074u64);
    assert(exp2_entries_fit_below(1760));
    assert(exp2_lower_at(1760) == 16733522783313321054u64 && exp2_upper_at(1760) == 16733522783313321074u64);
    assert(exp2_upper_at(1761) == 16739187215525215586u64);
    assert(exp2_entries_fit_below(1761));
    assert(exp2_lower_at(1761) == 16739187215525215560u64 && exp2_upper_at(1761) == 16739187215525215586u64);
    assert(exp2_upper_at(1762) == 16744853565193027696u64);
    assert(exp2_entries_fit_below(1762));
    assert(exp2_lower_at(1762) == 16744853565193027671u64 && exp2_upper_at(1762) == 16744853565193027696u64);
    assert(exp2_upper_at(1763) == 16750521832965831673u64);
    assert(exp2_entries_fit_below(1763));
    assert(exp2_lower_at(1763) == 16750521832965831643u64 && exp2_upper_at(1763) == 16750521832965831673u64);
    assert(exp2_upper_at(1764) == 16756192019492921504u64);
    assert(exp2_entries_fit_below(1764));
    assert(exp2_lower_at(1764) == 16756192019492921477u64 && exp2_upper_at(1764) == 16756192019492921504u64);
    assert(exp2_upper_at(1765) == 16761864125423810968u64);
    assert(exp2_entries_fit_below(1765));
    assert(exp2_lower_at(1765) == 16761864125423810936u64 && exp2_upper_at(1765) == 16761864125423810968u64);
    assert(exp2_upper_at(1766) == 16767538151408233703u64);
    assert(exp2_entries_fit_below(1766));
    assert(exp2_lower_at(1766) == 16767538151408233674u64 && exp2_upper_at(1766) == 16767538151408233703u64);
    assert(exp2_upper_at(1767) == 16773214098096143293u64);
    assert(exp2_entries_fit_below(1767));
    assert(exp2_lower_at(1767) == 16773214098096143259u64 && exp2_upper_at(1767) == 16773214098096143293u64);
    assert(exp2_upper_at(1768) == 16778891966137713336u64);
    assert(exp2_entries_fit_below(1768));
    assert(exp2_lower_at(1768) == 16778891966137713311u64 && exp2_upper_at(1768) == 16778891966137713336u64);
    assert(exp2_upper_at(1769) == 16784571756183337519u64);
    assert(exp2_entries_fit_below(1769));
    assert(exp2_lower_at(1769) == 16784571756183337488u64 && exp2_upper_at(1769) == 16784571756183337519u64);
    assert(exp2_upper_at(1770) == 16790253468883629694u64);
    assert(exp2_entries_fit_below(1770));
    assert(exp2_lower_at(1770) == 16790253468883629663u64 && exp2_upper_at(1770) == 16790253468883629694u64);
    assert(exp2_upper_at(1771) == 16795937104889423943u64);
    assert(exp2_entries_fit_below(1771));
    assert(exp2_lower_at(1771) == 16795937104889423904u64 && exp2_upper_at(1771) == 16795937104889423943u64);
    assert(exp2_upper_at(1772) == 16801622664851774667u64);
    assert(exp2_entries_fit_below(1772));
    assert(exp2_lower_at(1772) == 16801622664851774634u64 && exp2_upper_at(1772) == 16801622664851774667u64);
    assert(exp2_upper_at(1773) == 16807310149421956652u64);
    assert(exp2_entries_fit_below(1773));
    assert(exp2_lower_at(1773) == 16807310149421956618u64 && exp2_upper_at(1773) == 16807310149421956652u64);
    assert(exp2_upper_at(1774) == 16812999559251465155u64);
    assert(exp2_entries_fit_below(1774));
    assert(exp2_lower_at(1774) == 16812999559251465120u64 && exp2_upper_at(1774) == 16812999559251465155u64);
    assert(exp2_upper_at(1775) == 16818690894992015955u64);
    assert(exp2_entries_fit_below(1775));
    assert(exp2_lower_at(1775) == 16818690894992015915u64 && exp2_upper_at(1775) == 16818690894992015955u64);
    assert(exp2_upper_at(1776) == 16824384157295545443u64);
    assert(exp2_entries_fit_below(1776));
    assert(exp2_lower_at(1776) == 16824384157295545417u64 && exp2_upper_at(1776) == 16824384157295545443u64);
    assert(exp2_upper_at(1777) == 16830079346814210714u64);
    assert(exp2_entries_fit_below(1777));
    assert(exp2_lower_at(1777) == 16830079346814210685u64 && exp2_upper_at(1777) == 16830079346814210714u64);
    assert(exp2_upper_at(1778) == 16835776464200389609u64);
    assert(exp2_entries_fit_below(1778));
    assert(exp2_lower_at(1778) == 16835776464200389578u64 && exp2_upper_at(1778) == 16835776464200389609u64);
    assert(exp2_upper_at(1779) == 16841475510106680800u64);
    assert(exp2_entries_fit_below(1779));
    assert(exp2_lower_at(1779) == 16841475510106680764u64 && exp2_upper_at(1779) == 16841475510106680800u64);
    assert(exp2_upper_at(1780) == 16847176485185903876u64);
    assert(exp2_entries_fit_below(1780));
    assert(exp2_lower_at(1780) == 16847176485185903846u64 && exp2_upper_at(1780) == 16847176485185903876u64);
    assert(exp2_upper_at(1781) == 16852879390091099409u64);
    assert(exp2_entries_fit_below(1781));
    assert(exp2_lower_at(1781) == 16852879390091099374u64 && exp2_upper_at(1781) == 16852879390091099409u64);
    assert(exp2_upper_at(1782) == 16858584225475529036u64);
    assert(exp2_entries_fit_below(1782));
    assert(exp2_lower_at(1782) == 16858584225475529000u64 && exp2_upper_at(1782) == 16858584225475529036u64);
    assert(exp2_upper_at(1783) == 16864290991992675516u64);
    assert(exp2_entries_fit_below(1783));
    assert(exp2_lower_at(1783) == 16864290991992675475u64 && exp2_upper_at(1783) == 16864290991992675516u64);
    assert(exp2_upper_at(1784) == 16869999690296242826u64);
    assert(exp2_entries_fit_below(1784));
    assert(exp2_lower_at(1784) == 16869999690296242795u64 && exp2_upper_at(1784) == 16869999690296242826u64);
    assert(exp2_upper_at(1785) == 16875710321040156232u64);
    assert(exp2_entries_fit_below(1785));
    assert(exp2_lower_at(1785) == 16875710321040156195u64 && exp2_upper_at(1785) == 16875710321040156232u64);
    assert(exp2_upper_at(1786) == 16881422884878562347u64);
    assert(exp2_entries_fit_below(1786));
    assert(exp2_lower_at(1786) == 16881422884878562313u64 && exp2_upper_at(1786) == 16881422884878562347u64);
    assert(exp2_upper_at(1787) == 16887137382465829224u64);
    assert(exp2_entries_fit_below(1787));
    assert(exp2_lower_at(1787) == 16887137382465829182u64 && exp2_upper_at(1787) == 16887137382465829224u64);
    assert(exp2_upper_at(1788) == 16892853814456546423u64);
    assert(exp2_entries_fit_below(1788));
    assert(exp2_lower_at(1788) == 16892853814456546387u64 && exp2_upper_at(1788) == 16892853814456546423u64);
    assert(exp2_upper_at(1789) == 16898572181505525092u64);
    assert(exp2_entries_fit_below(1789));
    assert(exp2_lower_at(1789) == 16898572181505525049u64 && exp2_upper_at(1789) == 16898572181505525092u64);
    assert(exp2_upper_at(1790) == 16904292484267798033u64);
    assert(exp2_entries_fit_below(1790));
    assert(exp2_lower_at(1790) == 16904292484267797993u64 && exp2_upper_at(1790) == 16904292484267798033u64);
    assert(exp2_upper_at(1791) == 16910014723398619785u64);
    assert(exp2_entries_fit_below(1791));
    assert(exp2_lower_at(1791) == 16910014723398619737u64 && exp2_upper_at(1791) == 16910014723398619785u64);
    assert(exp2_upper_at(1792) == 16915738899553466676u64);
    assert(exp2_entries_fit_below(1792));
}

/// Entries 1792 to 2047 fit.
proof fn lemma_exp2_page_7()
    requires
        exp2_entries_fit_below(1792),
    ensures
        exp2_entries_fit_below(2048),
{
    reveal(exp2_lower_at);
    reveal(exp2_upper_at);
    assert(exp2_lower_at(1792) == 16915738899553466667u64 && exp2_upper_at(1792) == 16915738899553466676u64);
    assert(exp2_upper_at(1793) == 16921465013388036974u64);
    assert(exp2_entries_fit_below(1793));
    assert(exp2_lower_at(1793) == 16921465013388036957u64 && exp2_upper_at(1793) == 16921465013388036974u64);
    assert(exp2_upper_at(1794) == 16927193065558250847u64);
    assert(exp2_entries_fit_below(1794));
    assert(exp2_lower_at(1794) == 16927193065558250834u64 && exp2_upper_at(1794) == 16927193065558250847u64);
    assert(exp2_upper_at(1795) == 16932923056720250523u64);
    assert(exp2_entries_fit_below(1795));
    assert(exp2_lower_at(1795) == 16932923056720250502u64 && exp2_upper_at(1795) == 16932923056720250523u64);
    assert(exp2_upper_at(1796) == 16938654987530400332u64);
    assert(exp2_entries_fit_below(1796));
    assert(exp2_lower_at(1796) == 16938654987530400318u64 && exp2_upper_at(1796) == 16938654987530400332u64);
    assert(exp2_upper_at(1797) == 16944388858645286796u64);
    assert(exp2_entries_fit_below(1797));
    assert(exp2_lower_at(1797) == 16944388858645286778u64 && exp2_upper_at(1797) == 16944388858645286796u64);
    assert(exp2_upper_at(1798) == 16950124670721718694u64);
    assert(exp2_entries_fit_below(1798));
    assert(exp2_lower_at(1798) == 16950124670721718675u64 && exp2_upper_at(1798) == 16950124670721718694u64);
    assert(exp2_upper_at(1799) == 16955862424416727134u64);
    assert(exp2_entries_fit_below(1799));
    assert(exp2_lower_at(1799) == 16955862424416727108u64 && exp2_upper_at(1799) == 16955862424416727134u64);
    assert(exp2_upper_at(1800) == 16961602120387565641u64);
    assert(exp2_entries_fit_below(1800));
    assert(exp2_lower_at(1800) == 16961602120387565627u64 && exp2_upper_at(1800) == 16961602120387565641u64);
    assert(exp2_upper_at(1801) == 16967343759291710228u64);
    assert(exp2_entries_fit_below(1801));
    assert(exp2_lower_at(1801) == 16967343759291710207u64 && exp2_upper_at(1801) == 16967343759291710228u64);
    assert(exp2_upper_at(1802) == 16973087341786859461u64);
    assert(exp2_entries_fit_below(1802));
    assert(exp2_lower_at(1802) == 16973087341786859441u64 && exp2_upper_at(1802) == 16973087341786859461u64);
    assert(exp2_upper_at(1803) == 16978832868530934547u64);
    assert(exp2_entries_fit_below(1803));
    assert(exp2_lower_at(1803) == 16978832868530934522u64 && exp2_upper_at(1803) == 16978832868530934547u64);
    assert(exp2_upper_at(1804) == 16984580340182079403u64);
    assert(exp2_entries_fit_below(1804));
    assert(exp2_lower_at(1804) == 16984580340182079382u64 && exp2_upper_at(1804) == 16984580340182079403u64);
    assert(exp2_upper_at(1805) == 16990329757398660736u64);
    assert(exp2_entries_fit_below(1805));
    assert(exp2_lower_at(1805) == 16990329757398660711u64 && exp2_upper_at(1805) == 16990329757398660736u64);
    assert(exp2_upper_at(1806) == 16996081120839268112u64);
    assert(exp2_entries_fit_below(1806));
    assert(exp2_lower_at(1806) == 16996081120839268087u64 && exp2_upper_at(1806) == 16996081120839268112u64);
    assert(exp2_upper_at(1807) == 17001834431162714035u64);
    assert(exp2_entries_fit_below(1807));
    assert(exp2_lower_at(1807) == 17001834431162714006u64 && exp2_upper_at(1807) == 17001834431162714035u64);
    assert(exp2_upper_at(1808) == 17007589689028034018u64);
    assert(exp2_entries_fit_below(1808));
    assert(exp2_lower_at(1808) == 17007589689028034005u64 && exp2_upper_at(1808) == 17007589689028034018u64);
    assert(exp2_upper_at(1809) == 17013346895094486685u64);
    assert(exp2_entries_fit_below(1809));
    assert(exp2_lower_at(1809) == 17013346895094486667u64 && exp2_upper_at(1809) == 17013346895094486685u64);
    assert(exp2_upper_at(1810) == 17019106050021553797u64);
    assert(exp2_entries_fit_below(1810));
    assert(exp2_lower_at(1810) == 17019106050021553776u64 && exp2_upper_at(1810) == 17019106050021553797u64);
    assert(exp2_upper_at(1811) == 17024867154468940364u64);
    assert(exp2_entries_fit_below(1811));
    assert(exp2_lower_at(1811) == 17024867154468940339u64 && exp2_upper_at(1811) == 17024867154468940364u64);
    assert(exp2_upper_at(1812) == 17030630209096574716u64);
    assert(exp2_entries_fit_below(1812));
    assert(exp2_lower_at(1812) == 17030630209096574697u64 && exp2_upper_at(1812) == 17030630209096574716u64);
    assert(exp2_upper_at(1813) == 17036395214564608569u64);
    assert(exp2_entries_fit_below(1813));
    assert(exp2_lower_at(1813) == 17036395214564608544u64 && exp2_upper_at(1813) == 17036395214564608569u64);
    assert(exp2_upper_at(1814) == 17042162171533417114u64);
    assert(exp2_entries_fit_below(1814));
    assert(exp2_lower_at(1814) == 17042162171533417088u64 && exp2_upper_at(1814) == 17042162171533417114u64);
    assert(exp2_upper_at(1815) == 17047931080663599066u64);
    assert(exp2_entries_fit_below(1815));
    assert(exp2_lower_at(1815) == 17047931080663599036u64 && exp2_upper_at(1815) == 17047931080663599066u64);
    assert(exp2_upper_at(1816) == 17053701942615976779u64);
    assert(exp2_entries_fit_below(1816));
    assert(exp2_lower_at(1816) == 17053701942615976762u64 && exp2_upper_at(1816) == 17053701942615976779u64);
    assert(exp2_upper_at(1817) == 17059474758051596291u64);
    assert(exp2_entries_fit_below(1817));
    assert(exp2_lower_at(1817) == 17059474758051596268u64 && exp2_upper_at(1817) == 17059474758051596291u64);
    assert(exp2_upper_at(1818) == 17065249527631727413u64);
    assert(exp2_entries_fit_below(1818));
    assert(exp2_lower_at(1818) == 17065249527631727388u64 && exp2_upper_at(1818) == 17065249527631727413u64);
    assert(exp2_upper_at(1819) == 17071026252017863791u64);
    assert(exp2_entries_fit_below(1819));
    assert(exp2_lower_at(1819) == 17071026252017863760u64 && exp2_upper_at(1819) == 17071026252017863791u64);
    assert(exp2_upper_at(1820) == 17076804931871723001u64);
    assert(exp2_entries_fit_below(1820));
    assert(exp2_lower_at(1820) == 17076804931871722976u64 && exp2_upper_at(1820) == 17076804931871723001u64);
    assert(exp2_upper_at(1821) == 17082585567855246616u64);
    assert(exp2_entries_fit_below(1821));
    assert(exp2_lower_at(1821) == 17082585567855246584u64 && exp2_upper_at(1821) == 17082585567855246616u64);
    assert(exp2_upper_at(1822) == 17088368160630600281u64);
    assert(exp2_entries_fit_below(1822));
    assert(exp2_lower_at(1822) == 17088368160630600250u64 && exp2_upper_at(1822) == 17088368160630600281u64);
    assert(exp2_upper_at(1823) == 17094152710860173783u64);
    assert(exp2_entries_fit_below(1823));
    assert(exp2_lower_at(1823) == 17094152710860173744u64 && exp2_upper_at(1823) == 17094152710860173783u64);
    assert(exp2_upper_at(1824) == 17099939219206581132u64);
    assert(exp2_entries_fit_below(1824));
    assert(exp2_lower_at(1824) == 17099939219206581118u64 && exp2_upper_at(1824) == 17099939219206581132u64);
    assert(exp2_upper_at(1825) == 17105727686332660665u64);
    assert(exp2_entries_fit_below(1825));
    assert(exp2_lower_at(1825) == 17105727686332660644u64 && exp2_upper_at(1825) == 17105727686332660665u64);
    assert(exp2_upper_at(1826) == 17111518112901475061u64);
    assert(exp2_entries_fit_below(1826));
    assert(exp2_lower_at(1826) == 17111518112901475040u64 && exp2_upper_at(1826) == 17111518112901475061u64);
    assert(exp2_upper_at(1827) == 17117310499576311465u64);
    assert(exp2_entries_fit_below(1827));
    assert(exp2_lower_at(1827) == 17117310499576311441u64 && exp2_upper_at(1827) == 17117310499576311465u64);
    assert(exp2_upper_at(1828) == 17123104847020681552u64);
    assert(exp2_entries_fit_below(1828));
    assert(exp2_lower_at(1828) == 17123104847020681531u64 && exp2_upper_at(1828) == 17123104847020681552u64);
    assert(exp2_upper_at(1829) == 17128901155898321598u64);
    assert(exp2_entries_fit_below(1829));
    assert(exp2_lower_at(1829) == 17128901155898321573u64 && exp2_upper_at(1829) == 17128901155898321598u64);
    assert(exp2_upper_at(1830) == 17134699426873192560u64);
    assert(exp2_entries_fit_below(1830));
    assert(exp2_lower_at(1830) == 17134699426873192535u64 && exp2_upper_at(1830) == 17134699426873192560u64);
    assert(exp2_upper_at(1831) == 17140499660609480148u64);
    assert(exp2_entries_fit_below(1831));
    assert(exp2_lower_at(1831) == 17140499660609480117u64 && exp2_upper_at(1831) == 17140499660609480148u64);
    assert(exp2_upper_at(1832) == 17146301857771594907u64);
    assert(exp2_entries_fit_below(1832));
    assert(exp2_lower_at(1832) == 17146301857771594889u64 && exp2_upper_at(1832) == 17146301857771594907u64);
    assert(exp2_upper_at(1833) == 17152106019024172295u64);
    assert(exp2_entries_fit_below(1833));
    assert(exp2_lower_at(1833) == 17152106019024172270u64 && exp2_upper_at(1833) == 17152106019024172295u64);
    assert(exp2_upper_at(1834) == 17157912145032072751u64);
    assert(exp2_entries_fit_below(1834));
    assert(exp2_lower_at(1834) == 17157912145032072726u64 && exp2_upper_at(1834) == 17157912145032072751u64);
    assert(exp2_upper_at(1835) == 17163720236460381764u64);
    assert(exp2_entries_fit_below(1835));
    assert(exp2_lower_at(1835) == 17163720236460381732u64 && exp2_upper_at(1835) == 17163720236460381764u64);
    assert(exp2_upper_at(1836) == 17169530293974409977u64);
    assert(exp2_entries_fit_below(1836));
    assert(exp2_lower_at(1836) == 17169530293974409951u64 && exp2_upper_at(1836) == 17169530293974409977u64);
    assert(exp2_upper_at(1837) == 17175342318239693233u64);
    assert(exp2_entries_fit_below(1837));
    assert(exp2_lower_at(1837) == 17175342318239693204u64 && exp2_upper_at(1837) == 17175342318239693233u64);
    assert(exp2_upper_at(1838) == 17181156309921992677u64);
    assert(exp2_entries_fit_below(1838));
    assert(exp2_lower_at(1838) == 17181156309921992646u64 && exp2_upper_at(1838) == 17181156309921992677u64);
    assert(exp2_upper_at(1839) == 17186972269687294805u64);
    assert(exp2_entries_fit_below(1839));
    assert(exp2_lower_at(1839) == 17186972269687294770u64 && exp2_upper_at(1839) == 17186972269687294805u64);
    assert(exp2_upper_at(1840) == 17192790198201811556u64);
    assert(exp2_entries_fit_below(1840));
    assert(exp2_lower_at(1840) == 17192790198201811536u64 && exp2_upper_at(1840) == 17192790198201811556u64);
    assert(exp2_upper_at(1841) == 17198610096131980409u64);
    assert(exp2_entries_fit_below(1841));
    assert(exp2_lower_at(1841) == 17198610096131980386u64 && exp2_upper_at(1841) == 17198610096131980409u64);
    assert(exp2_upper_at(1842) == 17204431964144464415u64);
    assert(exp2_entries_fit_below(1842));
    assert(exp2_lower_at(1842) == 17204431964144464390u64 && exp2_upper_at(1842) == 17204431964144464415u64);
    assert(exp2_upper_at(1843) == 17210255802906152300u64);
    assert(exp2_entries_fit_below(1843));
    assert(exp2_lower_at(1843) == 17210255802906152269u64 && exp2_upper_at(1843) == 17210255802906152300u64);
    assert(exp2_upper_at(1844) == 17216081613084158538u64);
    assert(exp2_entries_fit_below(1844));
    assert(exp2_lower_at(1844) == 17216081613084158512u64 && exp2_upper_at(1844) == 17216081613084158538u64);
    assert(exp2_upper_at(1845) == 17221909395345823429u64);
    assert(exp2_entries_fit_below(1845));
    assert(exp2_lower_at(1845) == 17221909395345823399u64 && exp2_upper_at(1845) == 17221909395345823429u64);
    assert(exp2_upper_at(1846) == 17227739150358713175u64);
    assert(exp2_entries_fit_below(1846));
    assert(exp2_lower_at(1846) == 17227739150358713144u64 && exp2_upper_at(1846) == 17227739150358713175u64);
    assert(exp2_upper_at(1847) == 17233570878790619949u64);
    assert(exp2_entries_fit_below(1847));
    assert(exp2_lower_at(1847) == 17233570878790619911u64 && exp2_upper_at(1847) == 17233570878790619949u64);
    assert(exp2_upper_at(1848) == 17239404581309561976u64);
    assert(exp2_entries_fit_below(1848));
    assert(exp2_lower_at(1848) == 17239404581309561951u64 && exp2_upper_at(1848) == 17239404581309561976u64);
    assert(exp2_upper_at(1849) == 17245240258583783621u64);
    assert(exp2_entries_fit_below(1849));
    assert(exp2_lower_at(1849) == 17245240258583783592u64 && exp2_upper_at(1849) == 17245240258583783621u64);
    assert(exp2_upper_at(1850) == 17251077911281755447u64);
    assert(exp2_entries_fit_below(1850));
    assert(exp2_lower_at(1850) == 17251077911281755417u64 && exp2_upper_at(1850) == 17251077911281755447u64);
    assert(exp2_upper_at(1851) == 17256917540072174299u64);
    assert(exp2_entries_fit_below(1851));
    assert(exp2_lower_at(1851) == 17256917540072174261u64 && exp2_upper_at(1851) == 17256917540072174299u64);
    assert(exp2_upper_at(1852) == 17262759145623963380u64);
    assert(exp2_entries_fit_below(1852));
    assert(exp2_lower_at(1852) == 17262759145623963348u64 && exp2_upper_at(1852) == 17262759145623963380u64);
    assert(exp2_upper_at(1853) == 17268602728606272338u64);
    assert(exp2_entries_fit_below(1853));
    assert(exp2_lower_at(1853) == 17268602728606272299u64 && exp2_upper_at(1853) == 17268602728606272338u64);
    assert(exp2_upper_at(1854) == 17274448289688477324u64);
    assert(exp2_entries_fit_below(1854));
    assert(exp2_lower_at(1854) == 17274448289688477287u64 && exp2_upper_at(1854) == 17274448289688477324u64);
    assert(exp2_upper_at(1855) == 17280295829540181081u64);
    assert(exp2_entries_fit_below(1855));
    assert(exp2_lower_at(1855) == 17280295829540181039u64 && exp2_upper_at(1855) == 17280295829540181081u64);
    assert(exp2_upper_at(1856) == 17286145348831213011u64);
    assert(exp2_entries_fit_below(1856));
    assert(exp2_lower_at(1856) == 17286145348831212996u64 && exp2_upper_at(1856) == 17286145348831213011u64);
    assert(exp2_upper_at(1857) == 17291996848231629288u64);
    assert(exp2_entries_fit_below(1857));
    assert(exp2_lower_at(1857) == 17291996848231629267u64 && exp2_upper_at(1857) == 17291996848231629288u64);
    assert(exp2_upper_at(1858) == 17297850328411712869u64);
    assert(exp2_entries_fit_below(1858));
    assert(exp2_lower_at(1858) == 17297850328411712850u64 && exp2_upper_at(1858) == 17297850328411712869u64);
    assert(exp2_upper_at(1859) == 17303705790041973626u64);
    assert(exp2_entries_fit_below(1859));
    assert(exp2_lower_at(1859) == 17303705790041973601u64 && exp2_upper_at(1859) == 17303705790041973626u64);
    assert(exp2_upper_at(1860) == 17309563233793148398u64);
    assert(exp2_entries_fit_below(1860));
    assert(exp2_lower_at(1860) == 17309563233793148380u64 && exp2_upper_at(1860) == 17309563233793148398u64);
    assert(exp2_upper_at(1861) == 17315422660336201078u64);
    assert(exp2_entries_fit_below(1861));
    assert(exp2_lower_at(1861) == 17315422660336201054u64 && exp2_upper_at(1861) == 17315422660336201078u64);
    assert(exp2_upper_at(1862) == 17321284070342322683u64);
    assert(exp2_entries_fit_below(1862));
    assert(exp2_lower_at(1862) == 17321284070342322659u64 && exp2_upper_at(1862) == 17321284070342322683u64);
    assert(exp2_upper_at(1863) == 17327147464482931429u64);
    assert(exp2_entries_fit_below(1863));
    assert(exp2_lower_at(1863) == 17327147464482931399u64 && exp2_upper_at(1863) == 17327147464482931429u64);
    assert(exp2_upper_at(1864) == 17333012843429672820u64);
    assert(exp2_entries_fit_below(1864));
    assert(exp2_lower_at(1864) == 17333012843429672801u64 && exp2_upper_at(1864) == 17333012843429672820u64);
    assert(exp2_upper_at(1865) == 17338880207854419721u64);
    assert(exp2_entries_fit_below(1865));
    assert(exp2_lower_at(1865) == 17338880207854419696u64 && exp2_upper_at(1865) == 17338880207854419721u64);
    assert(exp2_upper_at(1866) == 17344749558429272421u64);
    assert(exp2_entries_fit_below(1866));
    assert(exp2_lower_at(1866) == 17344749558429272396u64 && exp2_upper_at(1866) == 17344749558429272421u64);
    assert(exp2_upper_at(1867) == 17350620895826558723u64);
    assert(exp2_entries_fit_below(1867));
    assert(exp2_lower_at(1867) == 17350620895826558690u64 && exp2_upper_at(1867) == 17350620895826558723u64);
    assert(exp2_upper_at(1868) == 17356494220718834018u64);
    assert(exp2_entries_fit_below(1868));
    assert(exp2_lower_at(1868) == 17356494220718833993u64 && exp2_upper_at(1868) == 17356494220718834018u64);
    assert(exp2_upper_at(1869) == 17362369533778881371u64);
    assert(exp2_entries_fit_below(1869));
    assert(exp2_lower_at(1869) == 17362369533778881340u64 && exp2_upper_at(1869) == 17362369533778881371u64);
    assert(exp2_upper_at(1870) == 17368246835679711578u64);
    assert(exp2_entries_fit_below(1870));
    assert(exp2_lower_at(1870) == 17368246835679711547u64 && exp2_upper_at(1870) == 17368246835679711578u64);
    assert(exp2_upper_at(1871) == 17374126127094563263u64);
    assert(exp2_entries_fit_below(1871));
    assert(exp2_lower_at(1871) == 17374126127094563225u64 && exp2_upper_at(1871) == 17374126127094563263u64);
    assert(exp2_upper_at(1872) == 17380007408696902930u64);
    assert(exp2_entries_fit_below(1872));
    assert(exp2_lower_at(1872) == 17380007408696902911u64 && exp2_upper_at(1872) == 17380007408696902930u64);
    assert(exp2_upper_at(1873) == 17385890681160425093u64);
    assert(exp2_entries_fit_below(1873));
    assert(exp2_lower_at(1873) == 17385890681160425068u64 && exp2_upper_at(1873) == 17385890681160425093u64);
    assert(exp2_upper_at(1874) == 17391775945159052281u64);
    assert(exp2_entries_fit_below(1874));
    assert(exp2_lower_at(1874) == 17391775945159052256u64 && exp2_upper_at(1874) == 17391775945159052281u64);
    assert(exp2_upper_at(1875) == 17397663201366935166u64);
    assert(exp2_entries_fit_below(1875));
    assert(exp2_lower_at(1875) == 17397663201366935136u64 && exp2_upper_at(1875) == 17397663201366935166u64);
    assert(exp2_upper_at(1876) == 17403552450458452623u64);
    assert(exp2_entries_fit_below(1876));
    assert(exp2_lower_at(1876) == 17403552450458452597u64 && exp2_upper_at(1876) == 17403552450458452623u64);
    assert(exp2_upper_at(1877) == 17409443693108211807u64);
    assert(exp2_entries_fit_below(1877));
    assert(exp2_lower_at(1877) == 17409443693108211777u64 && exp2_upper_at(1877) == 17409443693108211807u64);
    assert(exp2_upper_at(1878) == 17415336929991048247u64);
    assert(exp2_entries_fit_below(1878));
    assert(exp2_lower_at(1878) == 17415336929991048217u64 && exp2_upper_at(1878) == 17415336929991048247u64);
    assert(exp2_upper_at(1879) == 17421232161782025885u64);
    assert(exp2_entries_fit_below(1879));
    assert(exp2_lower_at(1879) == 17421232161782025849u64 && exp2_upper_at(1879) == 17421232161782025885u64);
    assert(exp2_upper_at(1880) == 17427129389156437199u64);
    assert(exp2_entries_fit_below(1880));
    assert(exp2_lower_at(1880) == 17427129389156437172u64 && exp2_upper_at(1880) == 17427129389156437199u64);
    assert(exp2_upper_at(1881) == 17433028612789803251u64);
    assert(exp2_entries_fit_below(1881));
    assert(exp2_lower_at(1881) == 17433028612789803220u64 && exp2_upper_at(1881) == 17433028612789803251u64);
    assert(exp2_upper_at(1882) == 17438929833357873773u64);
    assert(exp2_entries_fit_below(1882));
    assert(exp2_lower_at(1882) == 17438929833357873742u64 && exp2_upper_at(1882) == 17438929833357873773u64);
    assert(exp2_upper_at(1883) == 17444833051536627240u64);
    assert(exp2_entries_fit_below(1883));
    assert(exp2_lower_at(1883) == 17444833051536627204u64 && exp2_upper_at(1883) == 17444833051536627240u64);
    assert(exp2_upper_at(1884) == 17450738268002270956u64);
    assert(exp2_entries_fit_below(1884));
    assert(exp2_lower_at(1884) == 17450738268002270925u64 && exp2_upper_at(1884) == 17450738268002270956u64);
    assert(exp2_upper_at(1885) == 17456645483431241125u64);
    assert(exp2_entries_fit_below(1885));
    assert(exp2_lower_at(1885) == 17456645483431241086u64 && exp2_upper_at(1885) == 17456645483431241125u64);
    assert(exp2_upper_at(1886) == 17462554698500202928u64);
    assert(exp2_entries_fit_below(1886));
    assert(exp2_lower_at(1886) == 17462554698500202892u64 && exp2_upper_at(1886) == 17462554698500202928u64);
    assert(exp2_upper_at(1887) == 17468465913886050609u64);
    assert(exp2_entries_fit_below(1887));
    assert(exp2_lower_at(1887) == 17468465913886050562u64 && exp2_upper_at(1887) == 17468465913886050609u64);
    assert(exp2_upper_at(1888) == 17474379130265907523u64);
    assert(exp2_entries_fit_below(1888));
    assert(exp2_lower_at(1888) == 17474379130265907504u64 && exp2_upper_at(1888) == 17474379130265907523u64);
    assert(exp2_upper_at(1889) == 17480294348317126286u64);
    assert(exp2_entries_fit_below(1889));
    assert(exp2_lower_at(1889) == 17480294348317126261u64 && exp2_upper_at(1889) == 17480294348317126286u64);
    assert(exp2_upper_at(1890) == 17486211568717288759u64);
    assert(exp2_entries_fit_below(1890));
    assert(exp2_lower_at(1890) == 17486211568717288733u64 && exp2_upper_at(1890) == 17486211568717288759u64);
    assert(exp2_upper_at(1891) == 17492130792144206183u64);
    assert(exp2_entries_fit_below(1891));
    assert(exp2_lower_at(1891) == 17492130792144206151u64 && exp2_upper_at(1891) == 17492130792144206183u64);
    assert(exp2_upper_at(1892) == 17498052019275919240u64);
    assert(exp2_entries_fit_below(1892));
    assert(exp2_lower_at(1892) == 17498052019275919213u64 && exp2_upper_at(1892) == 17498052019275919240u64);
    assert(exp2_upper_at(1893) == 17503975250790698147u64);
    assert(exp2_entries_fit_below(1893));
    assert(exp2_lower_at(1893) == 17503975250790698115u64 && exp2_upper_at(1893) == 17503975250790698147u64);
    assert(exp2_upper_at(1894) == 17509900487367042708u64);
    assert(exp2_entries_fit_below(1894));
    assert(exp2_lower_at(1894) == 17509900487367042677u64 && exp2_upper_at(1894) == 17509900487367042708u64);
    assert(exp2_upper_at(1895) == 17515827729683682409u64);
    assert(exp2_entries_fit_below(1895));
    assert(exp2_lower_at(1895) == 17515827729683682371u64 && exp2_upper_at(1895) == 17515827729683682409u64);
    assert(exp2_upper_at(1896) == 17521756978419576489u64);
    assert(exp2_entries_fit_below(1896));
    assert(exp2_lower_at(1896) == 17521756978419576464u64 && exp2_upper_at(1896) == 17521756978419576489u64);
    assert(exp2_upper_at(1897) == 17527688234253914029u64);
    assert(exp2_entries_fit_below(1897));
    assert(exp2_lower_at(1897) == 17527688234253913998u64 && exp2_upper_at(1897) == 17527688234253914029u64);
    assert(exp2_upper_at(1898) == 17533621497866114012u64);
    assert(exp2_entries_fit_below(1898));
    assert(exp2_lower_at(1898) == 17533621497866113980u64 && exp2_upper_at(1898) == 17533621497866114012u64);
    assert(exp2_upper_at(1899) == 17539556769935825410u64);
    assert(exp2_entries_fit_below(1899));
    assert(exp2_lower_at(1899) == 17539556769935825370u64 && exp2_upper_at(1899) == 17539556769935825410u64);
    assert(exp2_upper_at(1900) == 17545494051142927265u64);
    assert(exp2_entries_fit_below(1900));
    assert(exp2_lower_at(1900) == 17545494051142927233u64 && exp2_upper_at(1900) == 17545494051142927265u64);
    assert(exp2_upper_at(1901) == 17551433342167528763u64);
    assert(exp2_entries_fit_below(1901));
    assert(exp2_lower_at(1901) == 17551433342167528727u64 && exp2_upper_at(1901) == 17551433342167528763u64);
    assert(exp2_upper_at(1902) == 17557374643689969315u64);
    assert(exp2_entries_fit_below(1902));
    assert(exp2_lower_at(1902) == 17557374643689969280u64 && exp2_upper_at(1902) == 17557374643689969315u64);
    assert(exp2_upper_at(1903) == 17563317956390818625u64);
    assert(exp2_entries_fit_below(1903));
    assert(exp2_lower_at(1903) == 17563317956390818583u64 && exp2_upper_at(1903) == 17563317956390818625u64);
    assert(exp2_upper_at(1904) == 17569263280950876773u64);
    assert(exp2_entries_fit_below(1904));
    assert(exp2_lower_at(1904) == 17569263280950876750u64 && exp2_upper_at(1904) == 17569263280950876773u64);
    assert(exp2_upper_at(1905) == 17575210618051174321u64);
    assert(exp2_entries_fit_below(1905));
    assert(exp2_lower_at(1905) == 17575210618051174290u64 && exp2_upper_at(1905) == 17575210618051174321u64);
    assert(exp2_upper_at(1906) == 17581159968372972336u64);
    assert(exp2_entries_fit_below(1906));
    assert(exp2_lower_at(1906) == 17581159968372972305u64 && exp2_upper_at(1906) == 17581159968372972336u64);
    assert(exp2_upper_at(1907) == 17587111332597762508u64);
    assert(exp2_entries_fit_below(1907));
    assert(exp2_lower_at(1907) == 17587111332597762468u64 && exp2_upper_at(1907) == 17587111332597762508u64);
    assert(exp2_upper_at(1908) == 17593064711407267212u64);
    assert(exp2_entries_fit_below(1908));
    assert(exp2_lower_at(1908) == 17593064711407267182u64 && exp2_upper_at(1908) == 17593064711407267212u64);
    assert(exp2_upper_at(1909) == 17599020105483439604u64);
    assert(exp2_entries_fit_below(1909));
    assert(exp2_lower_at(1909) == 17599020105483439568u64 && exp2_upper_at(1909) == 17599020105483439604u64);
    assert(exp2_upper_at(1910) == 17604977515508463680u64);
    assert(exp2_entries_fit_below(1910));
    assert(exp2_lower_at(1910) == 17604977515508463643u64 && exp2_upper_at(1910) == 17604977515508463680u64);
    assert(exp2_upper_at(1911) == 17610936942164754354u64);
    assert(exp2_entries_fit_below(1911));
    assert(exp2_lower_at(1911) == 17610936942164754311u64 && exp2_upper_at(1911) == 17610936942164754354u64);
    assert(exp2_upper_at(1912) == 17616898386134957550u64);
    assert(exp2_entries_fit_below(1912));
    assert(exp2_lower_at(1912) == 17616898386134957519u64 && exp2_upper_at(1912) == 17616898386134957550u64);
    assert(exp2_upper_at(1913) == 17622861848101950279u64);
    assert(exp2_entries_fit_below(1913));
    assert(exp2_lower_at(1913) == 17622861848101950240u64 && exp2_upper_at(1913) == 17622861848101950279u64);
    assert(exp2_upper_at(1914) == 17628827328748840698u64);
    assert(exp2_entries_fit_below(1914));
    assert(exp2_lower_at(1914) == 17628827328748840661u64 && exp2_upper_at(1914) == 17628827328748840698u64);
    assert(exp2_upper_at(1915) == 17634794828758968211u64);
    assert(exp2_entries_fit_below(1915));
    assert(exp2_lower_at(1915) == 17634794828758968167u64 && exp2_upper_at(1915) == 17634794828758968211u64);
    assert(exp2_upper_at(1916) == 17640764348815903532u64);
    assert(exp2_entries_fit_below(1916));
    assert(exp2_lower_at(1916) == 17640764348815903493u64 && exp2_upper_at(1916) == 17640764348815903532u64);
    assert(exp2_upper_at(1917) == 17646735889603448774u64);
    assert(exp2_entries_fit_below(1917));
    assert(exp2_lower_at(1917) == 17646735889603448728u64 && exp2_upper_at(1917) == 17646735889603448774u64);
    assert(exp2_upper_at(1918) == 17652709451805637522u64);
    assert(exp2_entries_fit_below(1918));
    assert(exp2_lower_at(1918) == 17652709451805637479u64 && exp2_upper_at(1918) == 17652709451805637522u64);
    assert(exp2_upper_at(1919) == 17658685036106734908u64);
    assert(exp2_entries_fit_below(1919));
    assert(exp2_lower_at(1919) == 17658685036106734859u64 && exp2_upper_at(1919) == 17658685036106734908u64);
    assert(exp2_upper_at(1920) == 17664662643191237685u64);
    assert(exp2_entries_fit_below(1920));
    assert(exp2_lower_at(1920) == 17664662643191237671u64 && exp2_upper_at(1920) == 17664662643191237685u64);
    assert(exp2_upper_at(1921) == 17670642273743874352u64);
    assert(exp2_entries_fit_below(1921));
    assert(exp2_lower_at(1921) == 17670642273743874329u64 && exp2_upper_at(1921) == 17670642273743874352u64);
    assert(exp2_upper_at(1922) == 17676623928449605151u64);
    assert(exp2_entries_fit_below(1922));
    assert(exp2_lower_at(1922) == 17676623928449605131u64 && exp2_upper_at(1922) == 17676623928449605151u64);
    assert(exp2_upper_at(1923) == 17682607607993622205u64);
    assert(exp2_entries_fit_below(1923));
    assert(exp2_lower_at(1923) == 17682607607993622180u64 && exp2_upper_at(1923) == 17682607607993622205u64);
    assert(exp2_upper_at(1924) == 17688593313061349576u64);
    assert(exp2_entries_fit_below(1924));
    assert(exp2_lower_at(1924) == 17688593313061349555u64 && exp2_upper_at(1924) == 17688593313061349576u64);
    assert(exp2_upper_at(1925) == 17694581044338443357u64);
    assert(exp2_entries_fit_below(1925));
    assert(exp2_lower_at(1925) == 17694581044338443329u64 && exp2_upper_at(1925) == 17694581044338443357u64);
    assert(exp2_upper_at(1926) == 17700570802510791732u64);
    assert(exp2_entries_fit_below(1926));
    assert(exp2_lower_at(1926) == 17700570802510791708u64 && exp2_upper_at(1926) == 17700570802510791732u64);
    assert(exp2_upper_at(1927) == 17706562588264515065u64);
    assert(exp2_entries_fit_below(1927));
    assert(exp2_lower_at(1927) == 17706562588264515035u64 && exp2_upper_at(1927) == 17706562588264515065u64);
    assert(exp2_upper_at(1928) == 17712556402285965980u64);
    assert(exp2_entries_fit_below(1928));
    assert(exp2_lower_at(1928) == 17712556402285965959u64 && exp2_upper_at(1928) == 17712556402285965980u64);
    assert(exp2_upper_at(1929) == 17718552245261729440u64);
    assert(exp2_entries_fit_below(1929));
    assert(exp2_lower_at(1929) == 17718552245261729415u64 && exp2_upper_at(1929) == 17718552245261729440u64);
    assert(exp2_upper_at(1930) == 17724550117878622812u64);
    assert(exp2_entries_fit_below(1930));
    assert(exp2_lower_at(1930) == 17724550117878622787u64 && exp2_upper_at(1930) == 17724550117878622812u64);
    assert(exp2_upper_at(1931) == 17730550020823695966u64);
    assert(exp2_entries_fit_below(1931));
    assert(exp2_lower_at(1931) == 17730550020823695934u64 && exp2_upper_at(1931) == 17730550020823695966u64);
    assert(exp2_upper_at(1932) == 17736551954784231340u64);
    assert(exp2_entries_fit_below(1932));
    assert(exp2_lower_at(1932) == 17736551954784231314u64 && exp2_upper_at(1932) == 17736551954784231340u64);
    assert(exp2_upper_at(1933) == 17742555920447744021u64);
    assert(exp2_entries_fit_below(1933));
    assert(exp2_lower_at(1933) == 17742555920447743990u64 && exp2_upper_at(1933) == 17742555920447744021u64);
    assert(exp2_upper_at(1934) == 17748561918501981831u64);
    assert(exp2_entries_fit_below(1934));
    assert(exp2_lower_at(1934) == 17748561918501981800u64 && exp2_upper_at(1934) == 17748561918501981831u64);
    assert(exp2_upper_at(1935) == 17754569949634925393u64);
    assert(exp2_entries_fit_below(1935));
    assert(exp2_lower_at(1935) == 17754569949634925356u64 && exp2_upper_at(1935) == 17754569949634925393u64);
    assert(exp2_upper_at(1936) == 17760580014534788215u64);
    assert(exp2_entries_fit_below(1936));
    assert(exp2_lower_at(1936) == 17760580014534788194u64 && exp2_upper_at(1936) == 17760580014534788215u64);
    assert(exp2_upper_at(1937) == 17766592113890016794u64);
    assert(exp2_entries_fit_below(1937));
    assert(exp2_lower_at(1937) == 17766592113890016770u64 && exp2_upper_at(1937) == 17766592113890016794u64);
    assert(exp2_upper_at(1938) == 17772606248389290643u64);
    assert(exp2_entries_fit_below(1938));
    assert(exp2_lower_at(1938) == 17772606248389290618u64 && exp2_upper_at(1938) == 17772606248389290643u64);
    assert(exp2_upper_at(1939) == 17778622418721522408u64);
    assert(exp2_entries_fit_below(1939));
    assert(exp2_lower_at(1939) == 17778622418721522378u64 && exp2_upper_at(1939) == 17778622418721522408u64);
    assert(exp2_upper_at(1940) == 17784640625575857945u64);
    assert(exp2_entries_fit_below(1940));
    assert(exp2_lower_at(1940) == 17784640625575857922u64 && exp2_upper_at(1940) == 17784640625575857945u64);
    assert(exp2_upper_at(1941) == 17790660869641676381u64);
    assert(exp2_entries_fit_below(1941));
    assert(exp2_lower_at(1941) == 17790660869641676350u64 && exp2_upper_at(1941) == 17790660869641676381u64);
    assert(exp2_upper_at(1942) == 17796683151608590213u64);
    assert(exp2_entries_fit_below(1942));
    assert(exp2_lower_at(1942) == 17796683151608590180u64 && exp2_upper_at(1942) == 17796683151608590213u64);
    assert(exp2_upper_at(1943) == 17802707472166445364u64);
    assert(exp2_entries_fit_below(1943));
    assert(exp2_lower_at(1943) == 17802707472166445325u64 && exp2_upper_at(1943) == 17802707472166445364u64);
    assert(exp2_upper_at(1944) == 17808733832005321288u64);
    assert(exp2_entries_fit_below(1944));
    assert(exp2_lower_at(1944) == 17808733832005321260u64 && exp2_upper_at(1944) == 17808733832005321288u64);
    assert(exp2_upper_at(1945) == 17814762231815531035u64);
    assert(exp2_entries_fit_below(1945));
    assert(exp2_lower_at(1945) == 17814762231815531004u64 && exp2_upper_at(1945) == 17814762231815531035u64);
    assert(exp2_upper_at(1946) == 17820792672287621329u64);
    assert(exp2_entries_fit_below(1946));
    assert(exp2_lower_at(1946) == 17820792672287621298u64 && exp2_upper_at(1946) == 17820792672287621329u64);
    assert(exp2_upper_at(1947) == 17826825154112372644u64);
    assert(exp2_entries_fit_below(1947));
    assert(exp2_lower_at(1947) == 17826825154112372606u64 && exp2_upper_at(1947) == 17826825154112372644u64);
    assert(exp2_upper_at(1948) == 17832859677980799296u64);
    assert(exp2_entries_fit_below(1948));
    assert(exp2_lower_at(1948) == 17832859677980799265u64 && exp2_upper_at(1948) == 17832859677980799296u64);
    assert(exp2_upper_at(1949) == 17838896244584149517u64);
    assert(exp2_entries_fit_below(1949));
    assert(exp2_lower_at(1949) == 17838896244584149475u64 && exp2_upper_at(1949) == 17838896244584149517u64);
    assert(exp2_upper_at(1950) == 17844934854613905524u64);
    assert(exp2_entries_fit_below(1950));
    assert(exp2_lower_at(1950) == 17844934854613905486u64 && exp2_upper_at(1950) == 17844934854613905524u64);
    assert(exp2_upper_at(1951) == 17850975508761783609u64);
    assert(exp2_entries_fit_below(1951));
    assert(exp2_lower_at(1951) == 17850975508761783566u64 && exp2_upper_at(1951) == 17850975508761783609u64);
    assert(exp2_upper_at(1952) == 17857018207719734211u64);
    assert(exp2_entries_fit_below(1952));
    assert(exp2_lower_at(1952) == 17857018207719734190u64 && exp2_upper_at(1952) == 17857018207719734211u64);
    assert(exp2_upper_at(1953) == 17863062952179942028u64);
    assert(exp2_entries_fit_below(1953));
    assert(exp2_lower_at(1953) == 17863062952179942000u64 && exp2_upper_at(1953) == 17863062952179942028u64);
    assert(exp2_upper_at(1954) == 17869109742834826028u64);
    assert(exp2_entries_fit_below(1954));
    assert(exp2_lower_at(1954) == 17869109742834826000u64 && exp2_upper_at(1954) == 17869109742834826028u64);
    assert(exp2_upper_at(1955) == 17875158580377039591u64);
    assert(exp2_entries_fit_below(1955));
    assert(exp2_lower_at(1955) == 17875158580377039560u64 && exp2_upper_at(1955) == 17875158580377039591u64);
    assert(exp2_upper_at(1956) == 17881209465499470560u64);
    assert(exp2_entries_fit_below(1956));
    assert(exp2_lower_at(1956) == 17881209465499470535u64 && exp2_upper_at(1956) == 17881209465499470560u64);
    assert(exp2_upper_at(1957) == 17887262398895241329u64);
    assert(exp2_entries_fit_below(1957));
    assert(exp2_lower_at(1957) == 17887262398895241298u64 && exp2_upper_at(1957) == 17887262398895241329u64);
    assert(exp2_upper_at(1958) == 17893317381257708916u64);
    assert(exp2_entries_fit_below(1958));
    assert(exp2_lower_at(1958) == 17893317381257708886u64 && exp2_upper_at(1958) == 17893317381257708916u64);
    assert(exp2_upper_at(1959) == 17899374413280465049u64);
    assert(exp2_entries_fit_below(1959));
    assert(exp2_lower_at(1959) == 17899374413280465011u64 && exp2_upper_at(1959) == 17899374413280465049u64);
    assert(exp2_upper_at(1960) == 17905433495657336235u64);
    assert(exp2_entries_fit_below(1960));
    assert(exp2_lower_at(1960) == 17905433495657336208u64 && exp2_upper_at(1960) == 17905433495657336235u64);
    assert(exp2_upper_at(1961) == 17911494629082383859u64);
    assert(exp2_entries_fit_below(1961));
    assert(exp2_lower_at(1961) == 17911494629082383829u64 && exp2_upper_at(1961) == 17911494629082383859u64);
    assert(exp2_upper_at(1962) == 17917557814249904248u64);
    assert(exp2_entries_fit_below(1962));
    assert(exp2_lower_at(1962) == 17917557814249904216u64 && exp2_upper_at(1962) == 17917557814249904248u64);
    assert(exp2_upper_at(1963) == 17923623051854428743u64);
    assert(exp2_entries_fit_below(1963));
    assert(exp2_lower_at(1963) == 17923623051854428703u64 && exp2_upper_at(1963) == 17923623051854428743u64);
    assert(exp2_upper_at(1964) == 17929690342590723801u64);
    assert(exp2_entries_fit_below(1964));
    assert(exp2_lower_at(1964) == 17929690342590723767u64 && exp2_upper_at(1964) == 17929690342590723801u64);
    assert(exp2_upper_at(1965) == 17935759687153791060u64);
    assert(exp2_entries_fit_below(1965));
    assert(exp2_lower_at(1965) == 17935759687153791020u64 && exp2_upper_at(1965) == 17935759687153791060u64);
    assert(exp2_upper_at(1966) == 17941831086238867419u64);
    assert(exp2_entries_fit_below(1966));
    assert(exp2_lower_at(1966) == 17941831086238867384u64 && exp2_upper_at(1966) == 17941831086238867419u64);
    assert(exp2_upper_at(1967) == 17947904540541425128u64);
    assert(exp2_entries_fit_below(1967));
    assert(exp2_lower_at(1967) == 17947904540541425084u64 && exp2_upper_at(1967) == 17947904540541425128u64);
    assert(exp2_upper_at(1968) == 17953980050757171841u64);
    assert(exp2_entries_fit_below(1968));
    assert(exp2_lower_at(1968) == 17953980050757171815u64 && exp2_upper_at(1968) == 17953980050757171841u64);
    assert(exp2_upper_at(1969) == 17960057617582050747u64);
    assert(exp2_entries_fit_below(1969));
    assert(exp2_lower_at(1969) == 17960057617582050715u64 && exp2_upper_at(1969) == 17960057617582050747u64);
    assert(exp2_upper_at(1970) == 17966137241712240589u64);
    assert(exp2_entries_fit_below(1970));
    assert(exp2_lower_at(1970) == 17966137241712240557u64 && exp2_upper_at(1970) == 17966137241712240589u64);
    assert(exp2_upper_at(1971) == 17972218923844155782u64);
    assert(exp2_entries_fit_below(1971));
    assert(exp2_lower_at(1971) == 17972218923844155743u64 && exp2_upper_at(1971) == 17972218923844155782u64);
    assert(exp2_upper_at(1972) == 17978302664674446481u64);
    assert(exp2_entries_fit_below(1972));
    assert(exp2_lower_at(1972) == 17978302664674446450u64 && exp2_upper_at(1972) == 17978302664674446481u64);
    assert(exp2_upper_at(1973) == 17984388464899998667u64);
    assert(exp2_entries_fit_below(1973));
    assert(exp2_lower_at(1973) == 17984388464899998629u64 && exp2_upper_at(1973) == 17984388464899998667u64);
    assert(exp2_upper_at(1974) == 17990476325217934219u64);
    assert(exp2_entries_fit_below(1974));
    assert(exp2_lower_at(1974) == 17990476325217934181u64 && exp2_upper_at(1974) == 17990476325217934219u64);
    assert(exp2_upper_at(1975) == 17996566246325610994u64);
    assert(exp2_entries_fit_below(1975));
    assert(exp2_lower_at(1975) == 17996566246325610949u64 && exp2_upper_at(1975) == 17996566246325610994u64);
    assert(exp2_upper_at(1976) == 18002658228920622918u64);
    assert(exp2_entries_fit_below(1976));
    assert(exp2_lower_at(1976) == 18002658228920622887u64 && exp2_upper_at(1976) == 18002658228920622918u64);
    assert(exp2_upper_at(1977) == 18008752273700800056u64);
    assert(exp2_entries_fit_below(1977));
    assert(exp2_lower_at(1977) == 18008752273700800018u64 && exp2_upper_at(1977) == 18008752273700800056u64);
    assert(exp2_upper_at(1978) == 18014848381364208692u64);
    assert(exp2_entries_fit_below(1978));
    assert(exp2_lower_at(1978) == 18014848381364208655u64 && exp2_upper_at(1978) == 18014848381364208692u64);
    assert(exp2_upper_at(1979) == 18020946552609151408u64);
    assert(exp2_entries_fit_below(1979));
    assert(exp2_lower_at(1979) == 18020946552609151365u64 && exp2_upper_at(1979) == 18020946552609151408u64);
    assert(exp2_upper_at(1980) == 18027046788134167174u64);
    assert(exp2_entries_fit_below(1980));
    assert(exp2_lower_at(1980) == 18027046788134167136u64 && exp2_upper_at(1980) == 18027046788134167174u64);
    assert(exp2_upper_at(1981) == 18033149088638031415u64);
    assert(exp2_entries_fit_below(1981));
    assert(exp2_lower_at(1981) == 18033149088638031369u64 && exp2_upper_at(1981) == 18033149088638031415u64);
    assert(exp2_upper_at(1982) == 18039253454819756104u64);
    assert(exp2_entries_fit_below(1982));
    assert(exp2_lower_at(1982) == 18039253454819756061u64 && exp2_upper_at(1982) == 18039253454819756104u64);
    assert(exp2_upper_at(1983) == 18045359887378589824u64);
    assert(exp2_entries_fit_below(1983));
    assert(exp2_lower_at(1983) == 18045359887378589775u64 && exp2_upper_at(1983) == 18045359887378589824u64);
    assert(exp2_upper_at(1984) == 18051468387014017862u64);
    assert(exp2_entries_fit_below(1984));
    assert(exp2_lower_at(1984) == 18051468387014017842u64 && exp2_upper_at(1984) == 18051468387014017862u64);
    assert(exp2_upper_at(1985) == 18057578954425762308u64);
    assert(exp2_entries_fit_below(1985));
    assert(exp2_lower_at(1985) == 18057578954425762285u64 && exp2_upper_at(1985) == 18057578954425762308u64);
    assert(exp2_upper_at(1986) == 18063691590313782094u64);
    assert(exp2_entries_fit_below(1986));
    assert(exp2_lower_at(1986) == 18063691590313782067u64 && exp2_upper_at(1986) == 18063691590313782094u64);
    assert(exp2_upper_at(1987) == 18069806295378273085u64);
    assert(exp2_entries_fit_below(1987));
    assert(exp2_lower_at(1987) == 18069806295378273053u64 && exp2_upper_at(1987) == 18069806295378273085u64);
    assert(exp2_upper_at(1988) == 18075923070319668183u64);
    assert(exp2_entries_fit_below(1988));
    assert(exp2_lower_at(1988) == 18075923070319668157u64 && exp2_upper_at(1988) == 18075923070319668183u64);
    assert(exp2_upper_at(1989) == 18082041915838637389u64);
    assert(exp2_entries_fit_below(1989));
    assert(exp2_lower_at(1989) == 18082041915838637358u64 && exp2_upper_at(1989) == 18082041915838637389u64);
    assert(exp2_upper_at(1990) == 18088162832636087892u64);
    assert(exp2_entries_fit_below(1990));
    assert(exp2_lower_at(1990) == 18088162832636087857u64 && exp2_upper_at(1990) == 18088162832636087892u64);
    assert(exp2_upper_at(1991) == 18094285821413164120u64);
    assert(exp2_entries_fit_below(1991));
    assert(exp2_lower_at(1991) == 18094285821413164083u64 && exp2_upper_at(1991) == 18094285821413164120u64);
    assert(exp2_upper_at(1992) == 18100410882871247875u64);
    assert(exp2_entries_fit_below(1992));
    assert(exp2_lower_at(1992) == 18100410882871247848u64 && exp2_upper_at(1992) == 18100410882871247875u64);
    assert(exp2_upper_at(1993) == 18106538017711958369u64);
    assert(exp2_entries_fit_below(1993));
    assert(exp2_lower_at(1993) == 18106538017711958334u64 && exp2_upper_at(1993) == 18106538017711958369u64);
    assert(exp2_upper_at(1994) == 18112667226637152311u64);
    assert(exp2_entries_fit_below(1994));
    assert(exp2_lower_at(1994) == 18112667226637152280u64 && exp2_upper_at(1994) == 18112667226637152311u64);
    assert(exp2_upper_at(1995) == 18118798510348924006u64);
    assert(exp2_entries_fit_below(1995));
    assert(exp2_lower_at(1995) == 18118798510348923966u64 && exp2_upper_at(1995) == 18118798510348924006u64);
    assert(exp2_upper_at(1996) == 18124931869549605412u64);
    assert(exp2_entries_fit_below(1996));
    assert(exp2_lower_at(1996) == 18124931869549605380u64 && exp2_upper_at(1996) == 18124931869549605412u64);
    assert(exp2_upper_at(1997) == 18131067304941766243u64);
    assert(exp2_entries_fit_below(1997));
    assert(exp2_lower_at(1997) == 18131067304941766205u64 && exp2_upper_at(1997) == 18131067304941766243u64);
    assert(exp2_upper_at(1998) == 18137204817228214032u64);
    assert(exp2_entries_fit_below(1998));
    assert(exp2_lower_at(1998) == 18137204817228213996u64 && exp2_upper_at(1998) == 18137204817228214032u64);
    assert(exp2_upper_at(1999) == 18143344407111994223u64);
    assert(exp2_entries_fit_below(1999));
    assert(exp2_lower_at(1999) == 18143344407111994178u64 && exp2_upper_at(1999) == 18143344407111994223u64);
    assert(exp2_upper_at(2000) == 18149486075296390230u64);
    assert(exp2_entries_fit_below(2000));
    assert(exp2_lower_at(2000) == 18149486075296390202u64 && exp2_upper_at(2000) == 18149486075296390230u64);
    assert(exp2_upper_at(2001) == 18155629822484923567u64);
    assert(exp2_entries_fit_below(2001));
    assert(exp2_lower_at(2001) == 18155629822484923537u64 && exp2_upper_at(2001) == 18155629822484923567u64);
    assert(exp2_upper_at(2002) == 18161775649381353865u64);
    assert(exp2_entries_fit_below(2002));
    assert(exp2_lower_at(2002) == 18161775649381353834u64 && exp2_upper_at(2002) == 18161775649381353865u64);
    assert(exp2_upper_at(2003) == 18167923556689679001u64);
    assert(exp2_entries_fit_below(2003));
    assert(exp2_lower_at(2003) == 18167923556689678963u64 && exp2_upper_at(2003) == 18167923556689679001u64);
    assert(exp2_upper_at(2004) == 18174073545114135145u64);
    assert(exp2_entries_fit_below(2004));
    assert(exp2_lower_at(2004) == 18174073545114135114u64 && exp2_upper_at(2004) == 18174073545114135145u64);
    assert(exp2_upper_at(2005) == 18180225615359196870u64);
    assert(exp2_entries_fit_below(2005));
    assert(exp2_lower_at(2005) == 18180225615359196831u64 && exp2_upper_at(2005) == 18180225615359196870u64);
    assert(exp2_upper_at(2006) == 18186379768129577219u64);
    assert(exp2_entries_fit_below(2006));
    assert(exp2_lower_at(2006) == 18186379768129577182u64 && exp2_upper_at(2006) == 18186379768129577219u64);
    assert(exp2_upper_at(2007) == 18192536004130227774u64);
    assert(exp2_entries_fit_below(2007));
    assert(exp2_lower_at(2007) == 18192536004130227732u64 && exp2_upper_at(2007) == 18192536004130227774u64);
    assert(exp2_upper_at(2008) == 18198694324066338762u64);
    assert(exp2_entries_fit_below(2008));
    assert(exp2_lower_at(2008) == 18198694324066338731u64 && exp2_upper_at(2008) == 18198694324066338762u64);
    assert(exp2_upper_at(2009) == 18204854728643339123u64);
    assert(exp2_entries_fit_below(2009));
    assert(exp2_lower_at(2009) == 18204854728643339087u64 && exp2_upper_at(2009) == 18204854728643339123u64);
    assert(exp2_upper_at(2010) == 18211017218566896579u64);
    assert(exp2_entries_fit_below(2010));
    assert(exp2_lower_at(2010) == 18211017218566896541u64 && exp2_upper_at(2010) == 18211017218566896579u64);
    assert(exp2_upper_at(2011) == 18217181794542917732u64);
    assert(exp2_entries_fit_below(2011));
    assert(exp2_lower_at(2011) == 18217181794542917688u64 && exp2_upper_at(2011) == 18217181794542917732u64);
    assert(exp2_upper_at(2012) == 18223348457277548137u64);
    assert(exp2_entries_fit_below(2012));
    assert(exp2_lower_at(2012) == 18223348457277548100u64 && exp2_upper_at(2012) == 18223348457277548137u64);
    assert(exp2_upper_at(2013) == 18229517207477172395u64);
    assert(exp2_entries_fit_below(2013));
    assert(exp2_lower_at(2013) == 18229517207477172350u64 && exp2_upper_at(2013) == 18229517207477172395u64);
    assert(exp2_upper_at(2014) == 18235688045848414209u64);
    assert(exp2_entries_fit_below(2014));
    assert(exp2_lower_at(2014) == 18235688045848414164u64 && exp2_upper_at(2014) == 18235688045848414209u64);
    assert(exp2_upper_at(2015) == 18241860973098136488u64);
    assert(exp2_entries_fit_below(2015));
    assert(exp2_lower_at(2015) == 18241860973098136436u64 && exp2_upper_at(2015) == 18241860973098136488u64);
    assert(exp2_upper_at(2016) == 18248035989933441409u64);
    assert(exp2_entries_fit_below(2016));
    assert(exp2_lower_at(2016) == 18248035989933441382u64 && exp2_upper_at(2016) == 18248035989933441409u64);
    assert(exp2_upper_at(2017) == 18254213097061670544u64);
    assert(exp2_entries_fit_below(2017));
    assert(exp2_lower_at(2017) == 18254213097061670512u64 && exp2_upper_at(2017) == 18254213097061670544u64);
    assert(exp2_upper_at(2018) == 18260392295190404864u64);
    assert(exp2_entries_fit_below(2018));
    assert(exp2_lower_at(2018) == 18260392295190404834u64 && exp2_upper_at(2018) == 18260392295190404864u64);
    assert(exp2_upper_at(2019) == 18266573585027464879u64);
    assert(exp2_entries_fit_below(2019));
    assert(exp2_lower_at(2019) == 18266573585027464842u64 && exp2_upper_at(2019) == 18266573585027464879u64);
    assert(exp2_upper_at(2020) == 18272756967280910703u64);
    assert(exp2_entries_fit_below(2020));
    assert(exp2_lower_at(2020) == 18272756967280910668u64 && exp2_upper_at(2020) == 18272756967280910703u64);
    assert(exp2_upper_at(2021) == 18278942442659042132u64);
    assert(exp2_entries_fit_below(2021));
    assert(exp2_lower_at(2021) == 18278942442659042090u64 && exp2_upper_at(2021) == 18278942442659042132u64);
    assert(exp2_upper_at(2022) == 18285130011870398727u64);
    assert(exp2_entries_fit_below(2022));
    assert(exp2_lower_at(2022) == 18285130011870398688u64 && exp2_upper_at(2022) == 18285130011870398727u64);
    assert(exp2_upper_at(2023) == 18291319675623759892u64);
    assert(exp2_entries_fit_below(2023));
    assert(exp2_lower_at(2023) == 18291319675623759847u64 && exp2_upper_at(2023) == 18291319675623759892u64);
    assert(exp2_upper_at(2024) == 18297511434628144966u64);
    assert(exp2_entries_fit_below(2024));
    assert(exp2_lower_at(2024) == 18297511434628144933u64 && exp2_upper_at(2024) == 18297511434628144966u64);
    assert(exp2_upper_at(2025) == 18303705289592813295u64);
    assert(exp2_entries_fit_below(2025));
    assert(exp2_lower_at(2025) == 18303705289592813256u64 && exp2_upper_at(2025) == 18303705289592813295u64);
    assert(exp2_upper_at(2026) == 18309901241227264311u64);
    assert(exp2_entries_fit_below(2026));
    assert(exp2_lower_at(2026) == 18309901241227264272u64 && exp2_upper_at(2026) == 18309901241227264311u64);
    assert(exp2_upper_at(2027) == 18316099290241237620u64);
    assert(exp2_entries_fit_below(2027));
    assert(exp2_lower_at(2027) == 18316099290241237572u64 && exp2_upper_at(2027) == 18316099290241237620u64);
    assert(exp2_upper_at(2028) == 18322299437344713075u64);
    assert(exp2_entries_fit_below(2028));
    assert(exp2_lower_at(2028) == 18322299437344713034u64 && exp2_upper_at(2028) == 18322299437344713075u64);
    assert(exp2_upper_at(2029) == 18328501683247910868u64);
    assert(exp2_entries_fit_below(2029));
    assert(exp2_lower_at(2029) == 18328501683247910828u64 && exp2_upper_at(2029) == 18328501683247910868u64);
    assert(exp2_upper_at(2030) == 18334706028661291617u64);
    assert(exp2_entries_fit_below(2030));
    assert(exp2_lower_at(2030) == 18334706028661291575u64 && exp2_upper_at(2030) == 18334706028661291617u64);
    assert(exp2_upper_at(2031) == 18340912474295556414u64);
    assert(exp2_entries_fit_below(2031));
    assert(exp2_lower_at(2031) == 18340912474295556365u64 && exp2_upper_at(2031) == 18340912474295556414u64);
    assert(exp2_upper_at(2032) == 18347121020861646938u64);
    assert(exp2_entries_fit_below(2032));
    assert(exp2_lower_at(2032) == 18347121020861646906u64 && exp2_upper_at(2032) == 18347121020861646938u64);
    assert(exp2_upper_at(2033) == 18353331669070745545u64);
    assert(exp2_entries_fit_below(2033));
    assert(exp2_lower_at(2033) == 18353331669070745509u64 && exp2_upper_at(2033) == 18353331669070745545u64);
    assert(exp2_upper_at(2034) == 18359544419634275310u64);
    assert(exp2_entries_fit_below(2034));
    assert(exp2_lower_at(2034) == 18359544419634275270u64 && exp2_upper_at(2034) == 18359544419634275310u64);
    assert(exp2_upper_at(2035) == 18365759273263900135u64);
    assert(exp2_entries_fit_below(2035));
    assert(exp2_lower_at(2035) == 18365759273263900091u64 && exp2_upper_at(2035) == 18365759273263900135u64);
    assert(exp2_upper_at(2036) == 18371976230671524830u64);
    assert(exp2_entries_fit_below(2036));
    assert(exp2_lower_at(2036) == 18371976230671524791u64 && exp2_upper_at(2036) == 18371976230671524830u64);
    assert(exp2_upper_at(2037) == 18378195292569295184u64);
    assert(exp2_entries_fit_below(2037));
    assert(exp2_lower_at(2037) == 18378195292569295144u64 && exp2_upper_at(2037) == 18378195292569295184u64);
    assert(exp2_upper_at(2038) == 18384416459669598071u64);
    assert(exp2_entries_fit_below(2038));
    assert(exp2_lower_at(2038) == 18384416459669598028u64 && exp2_upper_at(2038) == 18384416459669598071u64);
    assert(exp2_upper_at(2039) == 18390639732685061488u64);
    assert(exp2_entries_fit_below(2039));
    assert(exp2_lower_at(2039) == 18390639732685061439u64 && exp2_upper_at(2039) == 18390639732685061488u64);
    assert(exp2_upper_at(2040) == 18396865112328554679u64);
    assert(exp2_entries_fit_below(2040));
    assert(exp2_lower_at(2040) == 18396865112328554643u64 && exp2_upper_at(2040) == 18396865112328554679u64);
    assert(exp2_upper_at(2041) == 18403092599313188202u64);
    assert(exp2_entries_fit_below(2041));
    assert(exp2_lower_at(2041) == 18403092599313188156u64 && exp2_upper_at(2041) == 18403092599313188202u64);
    assert(exp2_upper_at(2042) == 18409322194352313995u64);
    assert(exp2_entries_fit_below(2042));
    assert(exp2_lower_at(2042) == 18409322194352313953u64 && exp2_upper_at(2042) == 18409322194352313995u64);
    assert(exp2_upper_at(2043) == 18415553898159525483u64);
    assert(exp2_entries_fit_below(2043));
    assert(exp2_lower_at(2043) == 18415553898159525433u64 && exp2_upper_at(2043) == 18415553898159525483u64);
    assert(exp2_upper_at(2044) == 18421787711448657641u64);
    assert(exp2_entries_fit_below(2044));
    assert(exp2_lower_at(2044) == 18421787711448657596u64 && exp2_upper_at(2044) == 18421787711448657641u64);
    assert(exp2_upper_at(2045) == 18428023634933787089u64);
    assert(exp2_entries_fit_below(2045));
    assert(exp2_lower_at(2045) == 18428023634933787037u64 && exp2_upper_at(2045) == 18428023634933787089u64);
    assert(exp2_upper_at(2046) == 18434261669329232165u64);
    assert(exp2_entries_fit_below(2046));
    assert(exp2_lower_at(2046) == 18434261669329232116u64 && exp2_upper_at(2046) == 18434261669329232165u64);
    assert(exp2_upper_at(2047) == 18440501815349553009u64);
    assert(exp2_entries_fit_below(2047));
    assert(exp2_lower_at(2047) == 18440501815349552951u64 && exp2_upper_at(2047) == 18440501815349553009u64);
    assert(exp2_entries_fit_below(2048));
}

/// What holds of every entry below `n` holds of each of them.
proof fn lemma_fit_below_each(n: int, i: int)
    requires
        exp2_entries_fit_below(n),
        0 <= i < n,
    ensures
        exp2_entry_fits(i),
    decreases n,
{
    if i < n - 1 {
        lemma_fit_below_each(n - 1, i);
    }
}

/// Every entry of the `exp2` tables fits, and the first is exactly one.
pub proof fn lemma_exp2_entry_fits(i: int)
    requires
        0 <= i < 2048,
    ensures
        exp2_entry_fits(i),
        exp2_lower_at(0) == 0x8000_0000_0000_0000,
        exp2_upper_at(0) == 0x8000_0000_0000_0000,
{
    lemma_exp2_page_0();
    lemma_exp2_page_1();
    lemma_exp2_page_2();
    lemma_exp2_page_3();
    lemma_exp2_page_4();
    lemma_exp2_page_5();
    lemma_exp2_page_6();
    lemma_exp2_page_7();
    lemma_fit_below_each(2048, i);
    reveal(exp2_lower_at);
    reveal(exp2_upper_at);
    assert(exp2_lower_at(0) == 0x8000_0000_0000_0000u64);
    assert(exp2_upper_at(0) == 0x8000_0000_0000_0000u64);
}

} // verus!
