//! Lookup tables for the transcendental kernels, in pages of 256 entries.
use vstd::prelude::*;

verus! {

/// Page 0 of the rounded-down `2^(i / 2048)` in Q63.
pub const EXP2_LOWER_0: [u64; 256] = [
    9223372036854775808, 9226494222562136015, 9229617465154500135, 9232741764989632248,
    9235867122425417552, 9238993537819862375, 9242121011531094251, 9245249543917361927,
    9248379135337035440, 9251509786148606111, 9254641496710686638, 9257774267382011096,
    9260908098521435010, 9264042990487935360, 9267178943640610663, 9270315958338680977,
    9273454034941487979, 9276593173808494958, 9279733375299286909, 9282874639773570535,
    9286016967591174317, 9289160359112048519, 9292304814696265275, 9295450334704018585,
    9298596919495624402, 9301744569431520617, 9304893284872267162, 9308043066178546001,
    9311193913711161209, 9314345827831038975, 9317498808899227688, 9320652857276897932,
    9323807973325342578, 9326964157405976761, 9330121409880337988, 9333279731110086135,
    9336439121457003514, 9339599581282994887, 9342761110950087540, 9345923710820431294,
    9349087381256298579, 9352252122620084431, 9355417935274306585, 9358584819581605472,
    9361752775904744300, 9364921804606609050, 9368091906050208566, 9371263080598674557,
    9374435328615261672, 9377608650463347501, 9380783046506432662, 9383958517108140807,
    9387135062632218692, 9390312683442536183, 9393491379903086342, 9396671152377985425,
    9399852001231472968, 9403033926827911774, 9406216929531788014, 9409401009707711222,
    9412586167720414371, 9415772403934753880, 9418959718715709696, 9422148112428385293,
    9425337585438007766, 9428528138109927797, 9431719770809619783, 9434912483902681816,
    9438106277754835760, 9441301152731927260, 9444497109199925823, 9447694147524924820,
    9450892268073141572, 9454091471210917337, 9457291757304717409, 9460493126721131115,
    9463695579826871895, 9466899116988777299, 9470103738573809079, 9473309444949053188,
    9476516236481719860, 9479724113539143606, 9482933076488783307, 9486143125698222218,
    9489354261535168036, 9492566484367452910, 9495779794563033528, 9498994192489991110,
    9502209678516531502, 9505426253010985158, 9508643916341807242, 9511862668877577627,
    9515082510987000967, 9518303443038906706, 9521525465402249162, 9524748578446107527,
    9527972782539685955, 9531198078052313541, 9534424465353444434, 9537651944812657828,
    9540880516799658038, 9544110181684274508, 9547340939836461889, 9550572791626300050,
    9553805737423994156, 9557039777599874658, 9560274912524397398, 9563511142568143598,
    9566748468101819946, 9569986889496258591, 9573226407122417236, 9576467021351379138,
    9579708732554353188, 9582951541102673908, 9586195447367801545, 9589440451721322070,
    9592686554534947258, 9595933756180514686, 9599182057029987826, 9602431457455456043,
    9605681957829134679, 9608933558523365044, 9612186259910614518, 9615440062363476542,
    9618694966254670703, 9621950971957042734, 9625208079843564603, 9628466290287334509,
    9631725603661576980, 9634986020339642833, 9638247540695009315, 9641510165101280072,
    9644773893932185234, 9648038727561581424, 9651304666363451837, 9654571710711906246,
    9657839860981181085, 9661109117545639443, 9664379480779771157, 9667650951058192817,
    9670923528755647840, 9674197214247006474, 9677472007907265886, 9680747910111550164,
    9684024921235110401, 9687303041653324686, 9690582271741698200, 9693862611875863224,
    9697144062431579206, 9700426623784732770, 9703710296311337805, 9706995080387535462,
    9710280976389594244, 9713567984693909992, 9716856105677005988, 9720145339715532951,
    9723435687186269119, 9726727148466120246, 9730019723932119701, 9733313413961428455,
    9736608218931335181, 9739904139219256229, 9743201175202735739, 9746499327259445638,
    9749798595767185709, 9753098981103883606, 9756400483647594933, 9759703103776503254,
    9763006841868920168, 9766311698303285312, 9769617673458166451, 9772924767712259480,
    9776232981444388507, 9779542315033505846, 9782852768858692118, 9786164343299156244,
    9789477038734235533, 9792790855543395672, 9796105794106230829, 9799421854802463649,
    9802739038011945334, 9806057344114655644, 9809376773490702991, 9812697326520324435,
    9816019003583885775, 9819341805061881531, 9822665731334935058, 9825990782783798532,
    9829316959789353034, 9832644262732608557, 9835972691994704091, 9839302247956907622,
    9842632931000616229, 9845964741507356051, 9849297679858782420, 9852631746436679836,
    9855966941622962056, 9859303265799672094, 9862640719348982311, 9865979302653194418,
    9869319016094739559, 9872659860056178308, 9876001834920200763, 9879344941069626546,
    9882689178887404889, 9886034548756614628, 9889381051060464299, 9892728686182292139,
    9896077454505566168, 9899427356413884186, 9902778392290973867, 9906130562520692768,
    9909483867487028397, 9912838307574098222, 9916193883166149767, 9919550594647560599,
    9922908442402838430, 9926267426816621096, 9929627548273676665, 9932988807158903434,
    9936351203857330008, 9939714738754115306, 9943079412234548647, 9946445224684049757,
    9949812176488168853, 9953180268032586627, 9956549499703114361, 9959919871885693916,
    9963291384966397816, 9966664039331429254, 9970037835367122173, 9973412773459941277,
    9976788853996482113, 9980166077363471064, 9983544443947765452, 9986923954136353531,
    9990304608316354577, 9993686406875018881, 9997069350199727846, 10000453438677993988,
    10003838672697461021, 10007225052645903851, 10010612578911228673, 10014001251881472977,
    10017391071944805622, 10020782039489526843, 10024174154904068340, 10027567418576993283,
    10030961830896996394, 10034357392252903942, 10037754103033673847, 10041151963628395669,
    10044550974426290703, 10047951135816711972, 10051352448189144324, 10054754911933204427,
];

/// Page 1 of the rounded-down `2^(i / 2048)` in Q63.
pub const EXP2_LOWER_1: [u64; 256] = [
    10058158527438640870, 10061563295095334122, 10064969215293296681, 10068376288422673039,
    10071784514873739775, 10075193895036905556, 10078604429302711228, 10082016118061829819,
    10085428961705066627, 10088842960623359208, 10092258115207777483, 10095674425849523735,
    10099091892939932688, 10102510516870471516, 10105930298032739927, 10109351236818470173,
    10112773333619527131, 10116196588827908298, 10119621002835743890, 10123046576035296850,
    10126473308818962917, 10129901201579270639, 10133330254708881462, 10136760468600589728,
    10140191843647322770, 10143624380242140895, 10147058078778237497, 10150492939648939047,
    10153928963247705179, 10157366149968128693, 10160804500203935648, 10164244014348985360,
    10167684692797270499, 10171126535942917062, 10174569544180184498, 10178013717903465699,
    10181459057507287071, 10184905563386308558, 10188353235935323714, 10191802075549259719,
    10195252082623177460, 10198703257552271524, 10202155600731870307, 10205609112557436001,
    10209063793424564691, 10212519643728986344, 10215976663866564913, 10219434854233298333,
    10222894215225318608, 10226354747238891811, 10229816450670418175, 10233279325916432106,
    10236743373373602253, 10240208593438731519, 10243674986508757152, 10247142552980750746,
    10250611293251918331, 10254081207719600361, 10257552296781271824, 10261024560834542236,
    10264498000277155725, 10267972615506991037, 10271448406922061626, 10274925374920515655,
    10278403519900636093, 10281882842260840686, 10285363342399682089, 10288845020715847848,
    10292327877608160485, 10295811913475577504, 10299297128717191482, 10302783523732230071,
    10306271098920056092, 10309759854680167519, 10313249791412197590, 10316740909515914800,
    10320233209391222990, 10323726691438161347, 10327221356056904497, 10330717203647762512,
    10334214234611180991, 10337712449347741059, 10341211848258159467, 10344712431743288597,
    10348214200204116535, 10351717154041767085, 10355221293657499861, 10358726619452710278,
    10362233131828929659, 10365740831187825213, 10369249717931200145, 10372759792460993656,
    10376271055179281023, 10379783506488273606, 10383297146790318943, 10386811976487900746,
    10390327995983639000, 10393845205680289938, 10397363605980746168, 10400883197288036659,
    10404403980005326823, 10407925954535918531, 10411449121283250189, 10414973480650896757,
    10418499033042569829, 10422025778862117627, 10425553718513525109, 10429082852400913965,
    10432613180928542705, 10436144704500806654, 10439677423522238056, 10443211338397506071,
    10446746449531416868, 10450282757328913612, 10453820262195076575, 10457358964535123133,
    10460898864754407850, 10464439963258422480, 10467982260452796064, 10471525756743294933,
    10475070452535822795, 10478616348236420728, 10482163444251267290, 10485711740986678510,
    10489261238849107979, 10492811938245146852, 10496363839581523945, 10499916943265105728,
    10503471249702896436, 10507026759302038020, 10510583472469810308, 10514141389613630964,
    10517700511141055584, 10521260837459777707, 10524822368977628900, 10528385106102578761,
    10531949049242735017, 10535514198806343511, 10539080555201788305, 10542648118837591689,
    10546216890122414256, 10549786869465054910, 10553358057274450961, 10556930453959678129,
    10560504059929950631, 10564078875594621178, 10567654901363181071, 10571232137645260218,
    10574810584850627204, 10578390243389189297, 10581971113670992551, 10585553196106221801,
    10589136491105200758, 10592720999078391998, 10596306720436397071, 10599893655589956498,
    10603481804949949862, 10607071168927395801, 10610661747933452121, 10614253542379415777,
    10617846552676722983, 10621440779236949188, 10625036222471809196, 10628632882793157165,
    10632230760612986678, 10635829856343430764, 10639430170396761984, 10643031703185392438,
    10646634455121873851, 10650238426618897572, 10653843618089294677, 10657450029946035967,
    10661057662602232062, 10664666516471133391, 10668276591966130302, 10671887889500753055,
    10675500409488671920, 10679114152343697162, 10682729118479779157, 10686345308311008385,
    10689962722251615520, 10693581360715971428, 10697201224118587271, 10700822312874114504,
    10704444627397344972, 10708068168103210891, 10711692935406784973, 10715318929723280409,
    10718946151468050966, 10722574601056590984, 10726204278904535482, 10729835185427660145,
    10733467321041881437, 10737100686163256564, 10740735281207983615, 10744371106592401541,
    10748008162732990246, 10751646450046370592, 10755285968949304493, 10758926719858694922,
    10762568703191585999, 10766211919365162986, 10769856368796752397, 10773502051903821987,
    10777148969103980857, 10780797120814979439, 10784446507454709605, 10788097129441204666,
    10791748987192639464, 10795402081127330366, 10799056411663735367, 10802711979220454102,
    10806368784216227917, 10810026827069939881, 10813686108200614891, 10817346628027419656,
    10821008386969662808, 10824671385446794883, 10828335623878408433, 10832001102684238029,
    10835667822284160340, 10839335783098194147, 10843004985546500431, 10846675430049382383,
    10850347117027285497, 10854020046900797550, 10857694220090648728, 10861369637017711614,
    10865046298103001282, 10868724203767675299, 10872403354433033819, 10876083750520519589,
    10879765392451718043, 10883448280648357291, 10887132415532308235, 10890817797525584559,
    10894504427050342825, 10898192304528882472, 10901881430383645914, 10905571805037218546,
    10909263428912328837, 10912956302431848320, 10916650426018791699, 10920345800096316860,
    10924042425087724942, 10927740301416460357, 10931439429506110875, 10935139809780407639,
    10938841442663225249, 10942544328578581757, 10946248467950638783, 10949953861203701501,
    10953660508762218743, 10957368411050782991, 10961077568494130484, 10964787981517141210,
];

/// Page 2 of the rounded-down `2^(i / 2048)` in Q63.
pub const EXP2_LOWER_2: [u64; 256] = [
    10968499650544839023, 10972212576002391584, 10975926758315110539, 10979642197908451476,
    10983358895208014020, 10987076850639541842, 10990796064628922754, 10994516537602188716,
    10998238269985515924, 11001961262205224809, 11005685514687780143, 11009411027859791039,
    11013137802148011042, 11016865837979338130, 11020595135780814815, 11024325695979628145,
    11028057519003109800, 11031790605278736080, 11035524955234128019, 11039260569297051390,
    11042997447895416780, 11046735591457279605, 11050475000410840210, 11054215675184443860,
    11057957616206580852, 11061700823905886490, 11065445298711141210, 11069191041051270570,
    11072938051355345344, 11076686330052581523, 11080435877572340420, 11084186694344128663,
    11087938780797598306, 11091692137362546799, 11095446764468917116, 11099202662546797756,
    11102959832026422818, 11106718273338172021, 11110477986912570788, 11114238973180290263,
    11118001232572147398, 11121764765519104948, 11125529572452271583, 11129295653802901883,
    11133063010002396437, 11136831641482301835, 11140601548674310776, 11144372732010262074,
    11148145191922140741, 11151918928842077993, 11155693943202351351, 11159470235435384649,
    11163247805973748117, 11167026655250158389, 11170806783697478604, 11174588191748718405,
    11178370879837034039, 11182154848395728344, 11185940097858250868, 11189726628658197863,
    11193514441229312375, 11197303536005484254, 11201093913420750250, 11204885573909294011,
    11208678517905446198, 11212472745843684442, 11216268258158633494, 11220065055285065209,
    11223863137657898628, 11227662505712199995, 11231463159883182852, 11235265100606208041,
    11239068328316783805, 11242872843450565776, 11246678646443357087, 11250485737731108375,
    11254294117749917872, 11258103786936031402, 11261914745725842493, 11265726994555892370,
    11269540533862870057, 11273355364083612368, 11277171485655104019, 11280988899014477632,
    11284807604599013816, 11288627602846141181, 11292448894193436437, 11296271479078624390,
    11300095357939578053, 11303920531214318621, 11307746999341015598, 11311574762757986790,
    11315403821903698396, 11319234177216765015, 11323065829135949746, 11326898778100164191,
    11330733024548468556, 11334568568920071630, 11338405411654330915, 11342243553190752618,
    11346082993968991740, 11349923734428852088, 11353765775010286366, 11357609116153396186,
    11361453758298432164, 11365299701885793908, 11369146947356030142, 11372995495149838690,
    11376845345708066584, 11380696499471710054, 11384548956881914640, 11388402718379975191,
    11392257784407335961, 11396114155405590607, 11399971831816482296, 11403830814081903709,
    11407691102643897135, 11411552697944654464, 11415415600426517305, 11419279810531976978,
    11423145328703674615, 11427012155384401153, 11430880291017097448, 11434749736044854273,
    11438620490910912412, 11442492556058662663, 11446365931931645945, 11450240618973553291,
    11454116617628225964, 11457993928339655413, 11461872551551983436, 11465752487709502149,
    11469633737256654080, 11473516300638032186, 11477400178298379944, 11481285370682591356,
    11485171878235711053, 11489059701402934285, 11492948840629607029, 11496839296361225999,
    11500731069043438735, 11504624159122043602, 11508518567042989898, 11512414293252377859,
    11516311338196458754, 11520209702321634877, 11524109386074459662, 11528010389901637689,
    11531912714250024768, 11535816359566627946, 11539721326298605615, 11543627614893267509,
    11547535225798074809, 11551444159460640125, 11555354416328727626, 11559265996850253025,
    11563178901473283683, 11567093130646038606, 11571008684816888558, 11574925564434356049,
    11578843769947115453, 11582763301803992981, 11586684160453966808, 11590606346346167078,
    11594529859929875980, 11598454701654527771, 11602380871969708863, 11606308371325157842,
    11610237200170765553, 11614167358956575106, 11618098848132781979, 11622031668149734026,
    11625965819457931571, 11629901302508027402, 11633838117750826891, 11637776265637287984,
    11641715746618521309, 11645656561145790161, 11649598709670510624, 11653542192644251571,
    11657487010518734752, 11661433163745834803, 11665380652777579351, 11669329478066149014,
    11673279640063877505, 11677231139223251615, 11681183975996911347, 11685138150837649897,
    11689093664198413756, 11693050516532302719, 11697008708292569984, 11700968239932622155,
    11704929111906019349, 11708891324666475167, 11712854878667856844, 11716819774364185225,
    11720786012209634867, 11724753592658534040, 11728722516165364835, 11732692783184763166,
    11736664394171518872, 11740637349580575709, 11744611649867031464, 11748587295486137955,
    11752564286893301134, 11756542624544081078, 11760522308894192104, 11764503340399502773,
    11768485719516035980, 11772469446699968960, 11776454522407633393, 11780440947095515416,
    11784428721220255706, 11788417845238649489, 11792408319607646654, 11796400144784351740,
    11800393321226024052, 11804387849390077643, 11808383729734081435, 11812380962715759224,
    11816379548792989764, 11820379488423806784, 11824380782066399081, 11828383430179110538,
    11832387433220440215, 11836392791649042335, 11840399505923726420, 11844407576503457277,
    11848417003847355098, 11852427788414695469, 11856439930664909463, 11860453431057583655,
    11864468290052460221, 11868484508109436927, 11872502085688567254, 11876521023250060385,
    11880541321254281318, 11884562980161750856, 11888586000433145717, 11892610382529298545,
    11896636126911198000, 11900663234039988761, 11904691704376971635, 11908721538383603566,
    11912752736521497722, 11916785299252423505, 11920819227038306658, 11924854520341229267,
    11928891179623429859, 11932929205347303402, 11936968597975401421, 11941009357970431989,
    11945051485795259840, 11949094981912906358, 11953139846786549696, 11957186080879524767,
];

/// Page 3 of the rounded-down `2^(i / 2048)` in Q63.
pub const EXP2_LOWER_3: [u64; 256] = [
    11961233684655323368, 11965282658577594125, 11969333003110142677, 11973384718716931628,
    11977437805862080664, 11981492265009866549, 11985548096624723235, 11989605301171241868,
    11993663879114170889, 11997723830918416019, 12001785157049040393, 12005847857971264548,
    12009911934150466522, 12013977386052181865, 12018044214142103734, 12022112418886082912,
    12026182000750127897, 12030252960200404904, 12034325297703237973, 12038399013725108989,
    12042474108732657757, 12046550583192682017, 12050628437572137555, 12054707672338138198,
    12058788287957955927, 12062870284899020853, 12066953663628921360, 12071038424615404085,
    12075124568326374024, 12079212095229894535, 12083301005794187450, 12087391300487633068,
    12091482979778770278, 12095576044136296517, 12099670494029067929, 12103766329926099346,
    12107863552296564378, 12111962161609795438, 12116062158335283829, 12120163542942679763,
    12124266315901792460, 12128370477682590132, 12132476028755200122, 12136582969589908881,
    12140691300657162089, 12144801022427564639, 12148912135371880758, 12153024639961034011,
    12157138536666107393, 12161253825958343339, 12165370508309143826, 12169488584190070391,
    12173608054072844213, 12177728918429346129, 12181851177731616737, 12185974832451856403,
    12190099883062425363, 12194226330035843713, 12198354173844791535, 12202483414962108896,
    12206614053860795943, 12210746091014012911, 12214879526895080232, 12219014361977478533,
    12223150596734848756, 12227288231640992118, 12231427267169870273, 12235567703795605287,
    12239709541992479741, 12243852782234936737, 12247997424997580007, 12252143470755173916,
    12256290919982643571, 12260439773155074807, 12264590030747714312, 12268741693235969625,
    12272894761095409241, 12277049234801762605, 12281205114830920230, 12285362401658933703,
    12289521095762015779, 12293681197616540381, 12297842707699042722, 12302005626486219305,
    12306169954454928016, 12310335692082188137, 12314502839845180455, 12318671398221247254,
    12322841367687892440, 12327012748722781516, 12331185541803741712, 12335359747408761986,
    12339535366015993118, 12343712398103747719, 12347890844150500344, 12352070704634887486,
    12356251980035707697, 12360434670831921555, 12364618777502651815, 12368804300527183396,
    12372991240384963472, 12377179597555601500, 12381369372518869302, 12385560565754701091,
    12389753177743193569, 12393947208964605913, 12398142659899359910, 12402339531028039949,
    12406537822831393127, 12410737535790329241, 12414938670385920915, 12419141227099403592,
    12423345206412175649, 12427550608805798378, 12431757434761996123, 12435965684762656268,
    12440175359289829346, 12444386458825729035, 12448598983852732278, 12452812934853379282,
    12457028312310373625, 12461245116706582245, 12465463348525035574, 12469683008248927525,
    12473904096361615599, 12478126613346620891, 12482350559687628203, 12486575935868486037,
    12490802742373206723, 12495030979685966367, 12499260648291105039, 12503491748673126723,
    12507724281316699433, 12511958246706655227, 12516193645327990307, 12520430477665865020,
    12524668744205603979, 12528908445432696047, 12533149581832794454, 12537392153891716814,
    12541636162095445213, 12545881606930126216, 12550128488882070981, 12554376808437755265,
    12558626566083819527, 12562877762307068923, 12567130397594473422, 12571384472433167824,
    12575639987310451848, 12579896942713790131, 12584155339130812359, 12588415177049313257,
    12592676456957252701, 12596939179342755707, 12601203344694112559, 12605468953499778807,
    12609736006248375375, 12614004503428688552, 12618274445529670127, 12622545833040437363,
    12626818666450273134, 12631092946248625893, 12635368672925109814, 12639645846969504792,
    12643924468871756527, 12648204539121976550, 12652486058210442323, 12656769026627597250,
    12661053444864050778, 12665339313410578395, 12669626632758121754, 12673915403397788670,
    12678205625820853231, 12682497300518755789, 12686790427983103086, 12691085008705668249,
    12695381043178390907, 12699678531893377172, 12703977475342899775, 12708277874019398062,
    12712579728415478098, 12716883039023912664, 12721187806337641384, 12725494030849770718,
    12729801713053574080, 12734110853442491813, 12738421452510131339, 12742733510750267140,
    12747047028656840871, 12751362006723961356, 12755678445445904718, 12759996345317114359,
    12764315706832201098, 12768636530485943124, 12772958816773286166, 12777282566189343467,
    12781607779229395892, 12785934456388891934, 12790262598163447827, 12794592205048847552,
    12798923277541042945, 12803255816136153686, 12807589821330467436, 12811925293620439820,
    12816262233502694551, 12820600641474023415, 12824940518031386400, 12829281863671911694,
    12833624678892895794, 12837968964191803501, 12842314720066268038, 12846661947014091071,
    12851010645533242787, 12855360816121861912, 12859712459278255836, 12864065575500900591,
    12868420165288440985, 12872776229139690581, 12877133767553631826, 12881492781029416059,
    12885853270066363602, 12890215235163963778, 12894578676821875015, 12898943595539924858,
    12903309991818110080, 12907677866156596658, 12912047219055719922, 12916418051015984543,
    12920790362538064642, 12925164154122803795, 12929539426271215143, 12933916179484481397,
    12938294414263954957, 12942674131111157892, 12947055330527782078, 12951438013015689193,
    12955822179076910823, 12960207829213648466, 12964594963928273646, 12968983583723327922,
    12973373689101522997, 12977765280565740706, 12982158358619033145, 12986552923764622684,
    12990948976505902048, 12995346517346434344, 12999745546789953164, 13004146065340362596,
    13008548073501737332, 13012951571778322654, 13017356560674534581, 13021763040694959844,
    13026171012344356013, 13030580476127651489, 13034991432549945630, 13039403882116508740,
];

/// Page 4 of the rounded-down `2^(i / 2048)` in Q63.
pub const EXP2_LOWER_4: [u64; 256] = [
    13043817825332782212, 13048233262704378451, 13052650194737081094, 13057068621936844953,
    13061488544809796129, 13065909963862232028, 13070332879600621463, 13074757292531604673,
    13079183203161993424, 13083610611998771004, 13088039519549092354, 13092469926320284068,
    13096901832819844497, 13101335239555443754, 13105770147034923833, 13110206555766298611,
    13114644466257753961, 13119083879017647742, 13123524794554509931, 13127967213377042626,
    13132411135994120143, 13136856562914789030, 13141303494648268180, 13145751931703948834,
    13150201874591394700, 13154653323820341930, 13159106279900699272, 13163560743342548049,
    13168016714656142279, 13172474194351908673, 13176933182940446760, 13181393680932528877,
    13185855688839100302, 13190319207171279222, 13194784236440356882, 13199250777157797583,
    13203718829835238778, 13208188394984491090, 13212659473117538416, 13217132064746537945,
    13221606170383820260, 13226081790541889337, 13230558925733422673, 13235037576471271283,
    13239517743268459817, 13243999426638186550, 13248482627093823513, 13252967345148916493,
    13257453581317185142, 13261941336112522976, 13266430610048997499, 13270921403640850210,
    13275413717402496706, 13279907551848526686, 13284402907493704074, 13288899784852967020,
    13293398184441428013, 13297898106774373872, 13302399552367265883, 13306902521735739794,
    13311407015395605922, 13315913033862849164, 13320420577653629110, 13324929647284280044,
    13329440243271311078, 13333952366131406102, 13338466016381423964, 13342981194538398445,
    13347497901119538364, 13352016136642227595, 13356535901624025177, 13361057196582665322,
    13365580022036057530, 13370104378502286578, 13374630266499612655, 13379157686546471359,
    13383686639161473809, 13388217124863406645, 13392749144171232153, 13397282697604088266,
    13401817785681288678, 13406354408922322835, 13410892567846856072, 13415432262974729612,
    13419973494825960667, 13424516263920742452, 13429060570779444304, 13433606415922611678,
    13438153799870966274, 13442702723145406016, 13447253186267005194, 13451805189757014464,
    13456358734136860946, 13460913819928148244, 13465470447652656558, 13470028617832342686,
    13474588330989340150, 13479149587645959166, 13483712388324686802, 13488276733548186967,
    13492842623839300515, 13497410059721045264, 13501979041716616099, 13506549570349384988,
    13511121646142901097, 13515695269620890772, 13520270441307257690, 13524847161726082841,
    13529425431401624650, 13534005250858318972, 13538586620620779222, 13543169541213796374,
    13547754013162339077, 13552340036991553647, 13556927613226764204, 13561516742393472668,
    13566107425017358873, 13570699661624280561, 13575293452740273521, 13579888798891551579,
    13584485700604506720, 13589084158405709073, 13593684172821907060, 13598285744380027378,
    13602888873607175121, 13607493561030633782, 13612099807177865377, 13616707612576510439,
    13621316977754388157, 13625927903239496319, 13630540389560011515, 13635154437244289086,
    13639770046820863252, 13644387218818447119, 13649005953765932794, 13653626252192391391,
    13658248114627073151, 13662871541599407431, 13667496533639002839, 13672123091275647236,
    13676751215039307844, 13681380905460131254, 13686012163068443545, 13690644988394750288,
    13695279381969736669, 13699915344324267474, 13704552875989387220, 13709191977496320175,
    13713832649376470447, 13718474892161421996, 13723118706382938764, 13727764092572964668,
    13732411051263623729, 13737059582987220050, 13741709688276237962, 13746361367663342020,
    13751014621681377120, 13755669450863368489, 13760325855742521831, 13764983836852223308,
    13769643394726039677, 13774304529897718260, 13778967242901187099, 13783631534270554955,
    13788297404540111406, 13792964854244326866, 13797633883917852697, 13802304494095521224,
    13806976685312345841, 13811650458103521016, 13816325813004422416, 13821002750550606913,
    13825681271277812696, 13830361375721959268, 13835043064419147585, 13839726337905660046,
    13844411196717960617, 13849097641392694820, 13853785672466689876, 13858475290476954698,
    13863166495960680008, 13867859289455238337, 13872553671498184156, 13877249642627253872,
    13881947203380365956, 13886646354295620919, 13891347095911301473, 13896049428765872508,
    13900753353397981214, 13905458870346457091, 13910165980150312068, 13914874683348740502,
    13919584980481119314, 13924296872087007945, 13929010358706148541, 13933725440878465920,
    13938442119144067696, 13943160394043244283, 13947880266116469015, 13952601735904398157,
    13957324803947871020, 13962049470787909956, 13966775736965720492, 13971503603022691330,
    13976233069500394466, 13980964136940585186, 13985696805885202199, 13990431076876367638,
    13995166950456387179, 13999904427167750033, 14004643507553129080, 14009384192155380883,
    14014126481517545784, 14018870376182847917, 14023615876694695340, 14028362983596680022,
    14033111697432577984, 14037862018746349270, 14042613948082138101, 14047367485984272868,
    14052122632997266247, 14056879389665815204, 14061637756534801119, 14066397734149289797,
    14071159323054531583, 14075922523795961343, 14080687336919198624, 14085453762970047640,
    14090221802494497390, 14094991456038721669, 14099762724149079178, 14104535607372113542,
    14109310106254553428, 14114086221343312531, 14118863953185489722, 14123643302328369040,
    14128424269319419814, 14133206854706296657, 14137991059036839605, 14142776882859074112,
    14147564326721211176, 14152353391171647328, 14157144076758964771, 14161936384031931386,
    14166730313539500836, 14171525865830812582, 14176323041455192000, 14181121840962150397,
    14185922264901385118, 14190724313822779549, 14195527988276403253, 14200333288812511964,
    14205140215981547717, 14209948770334138836, 14214758952421100075, 14219570762793432612,
];

/// Page 5 of the rounded-down `2^(i / 2048)` in Q63.
pub const EXP2_LOWER_5: [u64; 256] = [
    14224384202002324187, 14229199270599149046, 14234015969135468154, 14238834298163029142,
    14243654258233766442, 14248475849899801285, 14253299073713441833, 14258123930227183179,
    14262950419993707478, 14267778543565883922, 14272608301496768897, 14277439694339605979,
    14282272722647826041, 14287107386975047269, 14291943687875075282, 14296781625901903143,
    14301621201609711476, 14306462415552868458, 14311305268285929959, 14316149760363639551,
    14320995892340928612, 14325843664772916338, 14330693078214909870, 14335544133222404295,
    14340396830351082776, 14345251170156816530, 14350107153195664987, 14354964780023875777,
    14359824051197884851, 14364684967274316484, 14369547528809983409, 14374411736361886813,
    14379277590487216472, 14384145091743350717, 14389014240687856608, 14393885037878489922,
    14398757483873195253, 14403631579230106045, 14408507324507544698, 14413384720264022586,
    14418263767058240172, 14423144465449087002, 14428026815995641855, 14432910819257172726,
    14437796475793136963, 14442683786163181254, 14447572750927141769, 14452463370645044159,
    14457355645877103676, 14462249577183725176, 14467145165125503242, 14472042410263222212,
    14476941313157856267, 14481841874370569454, 14486744094462715814, 14491647973995839380,
    14496553513531674306, 14501460713632144851, 14506369574859365535, 14511280097775641127,
    14516192282943466767, 14521106130925527974, 14526021642284700772, 14530938817584051695,
    14535857657386837917, 14540778162256507220, 14545700332756698172, 14550624169451240109,
    14555549672904153251, 14560476843679648709, 14565405682342128620, 14570336189456186144,
    14575268365586605597, 14580202211298362433, 14585137727156623397, 14590074913726746517,
    14595013771574281228, 14599954301264968374, 14604896503364740338, 14609840378439721054,
    14614785927056226118, 14619733149780762790, 14624682047180030134, 14629632619820919025,
    14634584868270512253, 14639538793096084542, 14644494394865102679, 14649451674145225506,
    14654410631504304063, 14659371267510381566, 14664333582731693557, 14669297577736667904,
    14674263253093924919, 14679230609372277361, 14684199647140730574, 14689170366968482484,
    14694142769424923734, 14699116855079637650, 14704092624502400423, 14709070078263181087,
    14714049216932141635, 14719030041079637044, 14724012551276215378, 14728996748092617819,
    14733982632099778780, 14738970203868825892, 14743959463971080162, 14748950412978055965,
    14753943051461461169, 14758937379993197127, 14763933399145358824, 14768931109490234876,
    14773930511600307655, 14778931606048253279, 14783934393406941762, 14788938874249437012,
    14793945049148996952, 14798952918679073520, 14803962483413312806, 14808973743925555059,
    14813986700789834808, 14819001354580380853, 14824017705871616418, 14829035755238159143,
    14834055503254821208, 14839076950496609340, 14844100097538724946, 14849124944956564105,
    14854151493325717728, 14859179743221971483, 14864209695221306026, 14869241349899896943,
    14874274707834114886, 14879309769600525587, 14884346535775889979, 14889385006937164201,
    14894425183661499735, 14899467066526243388, 14904510656108937441, 14909555952987319655,
    14914602957739323385, 14919651670943077585, 14924702093176906944, 14929754225019331893,
    14934808067049068729, 14939863619845029607, 14944920883986322678, 14949979860052252115,
    14955040548622318206, 14960102950276217371, 14965167065593842300, 14970232895155281949,
    14975300439540821676, 14980369699330943222, 14985440675106324868, 14990513367447841430,
    14995587776936564387, 15000663904153761870, 15005741749680898825, 15010821314099636984,
    15015902597991835021, 15020985601939548518, 15026070326525030135, 15031156772330729607,
    15036244939939293847, 15041334829933566974, 15046426442896590436, 15051519779411603018,
    15056614840062040964, 15061711625431537976, 15066810136103925363, 15071910372663232031,
    15077012335693684622, 15082116025779707497, 15087221443505922893, 15092328589457150912,
    15097437464218409660, 15102548068374915227, 15107660402512081847, 15112774467215521895,
    15117890263071046007, 15123007790664663082, 15128127050582580427, 15133248043411203752,
    15138370769737137312, 15143495230147183873, 15148621425228344893, 15153749355567820500,
    15158879021753009622, 15164010424371509992, 15169143564011118290, 15174278441259830128,
    15179415056705840211, 15184553410937542282, 15189693504543529324, 15194835338112593527,
    15199978912233726420, 15205124227496118876, 15210271284489161247, 15215420083802443371,
    15220570626025754699, 15225722911749084286, 15230876941562620948, 15236032716056753247,
    15241190235822069636, 15246349501449358442, 15251510513529608019, 15256673272654006744,
    15261837779413943151, 15267004034401005918, 15272172038206984018, 15277341791423866731,
    15282513294643843749, 15287686548459305188, 15292861553462841741, 15298038310247244653,
    15303216819405505877, 15308397081530818051, 15313579097216574652, 15318762867056370003,
    15323948391643999385, 15329135671573459052, 15334324707438946364, 15339515499834859794,
    15344708049355799060, 15349902356596565102, 15355098422152160255, 15360296246617788233,
    15365495830588854264, 15370697174660965091, 15375900279429929107, 15381105145491756359,
    15386311773442658686, 15391520163879049700, 15396730317397544954, 15401942234594961922,
    15407155916068320140, 15412371362414841201, 15417588574231948898, 15422807552117269226,
    15428028296668630521, 15433250808484063438, 15438475088161801110, 15443701136300279158,
    15448928953498135793, 15454158540354211847, 15459389897467550888, 15464623025437399245,
    15469857924863206127, 15475094596344623613, 15480333040481506819, 15485573257873913877,
    15490815249122106081, 15496059014826547878, 15501304555587907017, 15506551872007054541,
];

/// Page 6 of the rounded-down `2^(i / 2048)` in Q63.
pub const EXP2_LOWER_6: [u64; 256] = [
    15511800964685064947, 15517051834223216108, 15522304481222989522, 15527558906286070253,
    15532815110014347060, 15538073093009912419, 15543332855875062649, 15548594399212297926,
    15553857723624322406, 15559122829714044225, 15564389718084575647, 15569658389339233066,
    15574928844081537132, 15580201082915212756, 15585475106444189250, 15590750915272600331,
    15596028510004784257, 15601307891245283808, 15606589059598846451, 15611872015670424342,
    15617156760065174439, 15622443293388458515, 15627731616245843305, 15633021729243100494,
    15638313632986206870, 15643607328081344294, 15648902815134899872, 15654200094753465948,
    15659499167543840228, 15664800034113025789, 15670102695068231222, 15675407151016870625,
    15680713402566563761, 15686021450325136012, 15691331294900618564, 15696642936901248404,
    15701956376935468431, 15707271615611927480, 15712588653539480442, 15717907491327188292,
    15723228129584318205, 15728550568920343555, 15733874809944944068, 15739200853268005822,
    15744528699499621380, 15749858349250089782, 15755189803129916698, 15760523061749814436,
    15765858125720702058, 15771194995653705390, 15776533672160157166, 15781874155851597036,
    15787216447339771687, 15792560547236634850, 15797906456154347448, 15803254174705277590,
    15808603703502000716, 15813955043157299575, 15819308194284164397, 15824663157495792882,
    15830019933405590328, 15835378522627169647, 15840738925774351495, 15846101143461164277,
    15851465176301844305, 15856831024910835735, 15862198689902790787, 15867568171892569713,
    15872939471495240920, 15878312589326080991, 15883687526000574820, 15889064282134415613,
    15894442858343505035, 15899823255243953188, 15905205473452078775, 15910589513584409098,
    15915975376257680191, 15921363062088836816, 15926752571695032618, 15932143905693630119,
    15937537064702200857, 15942932049338525382, 15948328860220593403, 15953727497966603804,
    15959127963194964753, 15964530256524293723, 15969934378573417631, 15975340329961372834,
    15980748111307405287, 15986157723230970504, 15991569166351733739, 15996982441289569979,
    16002397548664564070, 16007814489097010725, 16013233263207414670, 16018653871616490645,
    16024076314945163548, 16029500593814568406, 16034926708846050555, 16040354660661165636,
    16045784449881679714, 16051216077129569296, 16056649543027021463, 16062084848196433885,
    16067521993260414953, 16072960978841783766, 16078401805563570304, 16083844474049015406,
    16089288984921570924, 16094735338804899709, 16100183536322875764, 16105633578099584251,
    16111085464759321621, 16116539196926595613, 16121994775226125404, 16127452200282841617,
    16132911472721886453, 16138372593168613678, 16143835562248588797, 16149300380587589034,
    16154767048811603483, 16160235567546833091, 16165705937419690824, 16171178159056801663,
    16176652233085002736, 16182128160131343323, 16187605940823085007, 16193085575787701665,
    16198567065652879630, 16204050411046517630, 16209535612596727021, 16215022670931831738,
    16220511586680368433, 16226002360471086494, 16231494992932948178, 16236989484695128618,
    16242485836387015965, 16247984048638211381, 16253484122078529187, 16258986057337996876,
    16264489855046855245, 16269995515835558386, 16275503040334773846, 16281012429175382629,
    16286523682988479330, 16292036802405372129, 16297551788057582949, 16303068640576847464,
    16308587360595115222, 16314107948744549651, 16319630405657528213, 16325154731966642401,
    16330680928304697886, 16336208995304714491, 16341738933599926378, 16347270743823782021,
    16352804426609944361, 16358339982592290793, 16363877412404913334, 16369416716682118601,
    16374957896058427977, 16380500951168577578, 16386045882647518428, 16391592691130416468,
    16397141377252652663, 16402691941649823034, 16408244384957738784, 16413798707812426319,
    16419354910850127375, 16424912994707299021, 16430472960020613807, 16436034807426959778,
    16441598537563440600, 16447164151067375559, 16452731648576299725, 16458301030727963943,
    16463872298160334979, 16469445451511595507, 16475020491420144274, 16480597418524596105,
    16486176233463782026, 16491756936876749274, 16497339529402761451, 16502924011681298519,
    16508510384352056950, 16514098648054949700, 16519688803430106402, 16525280851117873332,
    16530874791758813563, 16536470625993706968, 16542068354463550369, 16547667977809557533,
    16553269496673159330, 16558872911696003687, 16564478223519955804, 16570085432787098117,
    16575694540139730444, 16581305546220369987, 16586918451671751483, 16592533257136827207,
    16598149963258767117, 16603768570680958843, 16609389080047007849, 16615011492000737428,
    16620635807186188856, 16626262026247621371, 16631890149829512340, 16637520178576557267,
    16643152113133669912, 16648785954145982310, 16654421702258844911, 16660059358117826600,
    16665698922368714816, 16671340395657515564, 16676983778630453574, 16682629071933972283,
    16688276276214734003, 16693925392119619891, 16699576420295730122, 16705229361390383897,
    16710884216051119558, 16716540984925694619, 16722199668662085889, 16727860267908489504,
    16733522783313321054, 16739187215525215560, 16744853565193027671, 16750521832965831643,
    16756192019492921477, 16761864125423810936, 16767538151408233674, 16773214098096143259,
    16778891966137713311, 16784571756183337488, 16790253468883629663, 16795937104889423904,
    16801622664851774634, 16807310149421956618, 16812999559251465120, 16818690894992015915,
    16824384157295545417, 16830079346814210685, 16835776464200389578, 16841475510106680764,
    16847176485185903846, 16852879390091099374, 16858584225475529000, 16864290991992675475,
    16869999690296242795, 16875710321040156195, 16881422884878562313, 16887137382465829182,
    16892853814456546387, 16898572181505525049, 16904292484267797993, 16910014723398619737,
];

/// Page 7 of the rounded-down `2^(i / 2048)` in Q63.
pub const EXP2_LOWER_7: [u64; 256] = [
    16915738899553466667, 16921465013388036957, 16927193065558250834, 16932923056720250502,
    16938654987530400318, 16944388858645286778, 16950124670721718675, 16955862424416727108,
    16961602120387565627, 16967343759291710207, 16973087341786859441, 16978832868530934522,
    16984580340182079382, 16990329757398660711, 16996081120839268087, 17001834431162714006,
    17007589689028034005, 17013346895094486667, 17019106050021553776, 17024867154468940339,
    17030630209096574697, 17036395214564608544, 17042162171533417088, 17047931080663599036,
    17053701942615976762, 17059474758051596268, 17065249527631727388, 17071026252017863760,
    17076804931871722976, 17082585567855246584, 17088368160630600250, 17094152710860173744,
    17099939219206581118, 17105727686332660644, 17111518112901475040, 17117310499576311441,
    17123104847020681531, 17128901155898321573, 17134699426873192535, 17140499660609480117,
    17146301857771594889, 17152106019024172270, 17157912145032072726, 17163720236460381732,
    17169530293974409951, 17175342318239693204, 17181156309921992646, 17186972269687294770,
    17192790198201811536, 17198610096131980386, 17204431964144464390, 17210255802906152269,
    17216081613084158512, 17221909395345823399, 17227739150358713144, 17233570878790619911,
    17239404581309561951, 17245240258583783592, 17251077911281755417, 17256917540072174261,
    17262759145623963348, 17268602728606272299, 17274448289688477287, 17280295829540181039,
    17286145348831212996, 17291996848231629267, 17297850328411712850, 17303705790041973601,
    17309563233793148380, 17315422660336201054, 17321284070342322659, 17327147464482931399,
    17333012843429672801, 17338880207854419696, 17344749558429272396, 17350620895826558690,
    17356494220718833993, 17362369533778881340, 17368246835679711547, 17374126127094563225,
    17380007408696902911, 17385890681160425068, 17391775945159052256, 17397663201366935136,
    17403552450458452597, 17409443693108211777, 17415336929991048217, 17421232161782025849,
    17427129389156437172, 17433028612789803220, 17438929833357873742, 17444833051536627204,
    17450738268002270925, 17456645483431241086, 17462554698500202892, 17468465913886050562,
    17474379130265907504, 17480294348317126261, 17486211568717288733, 17492130792144206151,
    17498052019275919213, 17503975250790698115, 17509900487367042677, 17515827729683682371,
    17521756978419576464, 17527688234253913998, 17533621497866113980, 17539556769935825370,
    17545494051142927233, 17551433342167528727, 17557374643689969280, 17563317956390818583,
    17569263280950876750, 17575210618051174290, 17581159968372972305, 17587111332597762468,
    17593064711407267182, 17599020105483439568, 17604977515508463643, 17610936942164754311,
    17616898386134957519, 17622861848101950240, 17628827328748840661, 17634794828758968167,
    17640764348815903493, 17646735889603448728, 17652709451805637479, 17658685036106734859,
    17664662643191237671, 17670642273743874329, 17676623928449605131, 17682607607993622180,
    17688593313061349555, 17694581044338443329, 17700570802510791708, 17706562588264515035,
    17712556402285965959, 17718552245261729415, 17724550117878622787, 17730550020823695934,
    17736551954784231314, 17742555920447743990, 17748561918501981800, 17754569949634925356,
    17760580014534788194, 17766592113890016770, 17772606248389290618, 17778622418721522378,
    17784640625575857922, 17790660869641676350, 17796683151608590180, 17802707472166445325,
    17808733832005321260, 17814762231815531004, 17820792672287621298, 17826825154112372606,
    17832859677980799265, 17838896244584149475, 17844934854613905486, 17850975508761783566,
    17857018207719734190, 17863062952179942000, 17869109742834826000, 17875158580377039560,
    17881209465499470535, 17887262398895241298, 17893317381257708886, 17899374413280465011,
    17905433495657336208, 17911494629082383829, 17917557814249904216, 17923623051854428703,
    17929690342590723767, 17935759687153791020, 17941831086238867384, 17947904540541425084,
    17953980050757171815, 17960057617582050715, 17966137241712240557, 17972218923844155743,
    17978302664674446450, 17984388464899998629, 17990476325217934181, 17996566246325610949,
    18002658228920622887, 18008752273700800018, 18014848381364208655, 18020946552609151365,
    18027046788134167136, 18033149088638031369, 18039253454819756061, 18045359887378589775,
    18051468387014017842, 18057578954425762285, 18063691590313782067, 18069806295378273053,
    18075923070319668157, 18082041915838637358, 18088162832636087857, 18094285821413164083,
    18100410882871247848, 18106538017711958334, 18112667226637152280, 18118798510348923966,
    18124931869549605380, 18131067304941766205, 18137204817228213996, 18143344407111994178,
    18149486075296390202, 18155629822484923537, 18161775649381353834, 18167923556689678963,
    18174073545114135114, 18180225615359196831, 18186379768129577182, 18192536004130227732,
    18198694324066338731, 18204854728643339087, 18211017218566896541, 18217181794542917688,
    18223348457277548100, 18229517207477172350, 18235688045848414164, 18241860973098136436,
    18248035989933441382, 18254213097061670512, 18260392295190404834, 18266573585027464842,
    18272756967280910668, 18278942442659042090, 18285130011870398688, 18291319675623759847,
    18297511434628144933, 18303705289592813256, 18309901241227264272, 18316099290241237572,
    18322299437344713034, 18328501683247910828, 18334706028661291575, 18340912474295556365,
    18347121020861646906, 18353331669070745509, 18359544419634275270, 18365759273263900091,
    18371976230671524791, 18378195292569295144, 18384416459669598028, 18390639732685061439,
    18396865112328554643, 18403092599313188156, 18409322194352313953, 18415553898159525433,
    18421787711448657596, 18428023634933787037, 18434261669329232116, 18440501815349552951,
];

/// Page 0 of the rounded-up `2^(i / 2048)` in Q63.
pub const EXP2_UPPER_0: [u64; 256] = [
    9223372036854775808, 9226494222562136017, 9229617465154500137, 9232741764989632253,
    9235867122425417554, 9238993537819862380, 9242121011531094256, 9245249543917361935,
    9248379135337035442, 9251509786148606116, 9254641496710686643, 9257774267382011104,
    9260908098521435015, 9264042990487935368, 9267178943640610671, 9270315958338680988,
    9273454034941487981, 9276593173808494963, 9279733375299286914, 9282874639773570543,
    9286016967591174322, 9289160359112048527, 9292304814696265283, 9295450334704018596,
    9298596919495624407, 9301744569431520625, 9304893284872267170, 9308043066178546012,
    9311193913711161217, 9314345827831038987, 9317498808899227699, 9320652857276897947,
    9323807973325342580, 9326964157405976766, 9330121409880337993, 9333279731110086143,
    9336439121457003519, 9339599581282994895, 9342761110950087548, 9345923710820431305,
    9349087381256298584, 9352252122620084439, 9355417935274306593, 9358584819581605484,
    9361752775904744308, 9364921804606609061, 9368091906050208577, 9371263080598674571,
    9374435328615261677, 9377608650463347509, 9380783046506432670, 9383958517108140818,
    9387135062632218700, 9390312683442536194, 9393491379903086353, 9396671152377985439,
    9399852001231472976, 9403033926827911785, 9406216929531788025, 9409401009707711236,
    9412586167720414383, 9415772403934753895, 9418959718715709710, 9422148112428385311,
    9425337585438007768, 9428528138109927802, 9431719770809619788, 9434912483902681824,
    9438106277754835765, 9441301152731927268, 9444497109199925831, 9447694147524924831,
    9450892268073141577, 9454091471210917345, 9457291757304717417, 9460493126721131127,
    9463695579826871903, 9466899116988777310, 9470103738573809090, 9473309444949053202,
    9476516236481719865, 9479724113539143614, 9482933076488783315, 9486143125698222229,
    9489354261535168044, 9492566484367452921, 9495779794563033539, 9498994192489991124,
    9502209678516531510, 9505426253010985169, 9508643916341807253, 9511862668877577641,
    9515082510987000978, 9518303443038906721, 9521525465402249177, 9524748578446107546,
    9527972782539685960, 9531198078052313549, 9534424465353444442, 9537651944812657840,
    9540880516799658047, 9544110181684274520, 9547340939836461900, 9550572791626300065,
    9553805737423994164, 9557039777599874669, 9560274912524397410, 9563511142568143614,
    9566748468101819958, 9569986889496258605, 9573226407122417250, 9576467021351379155,
    9579708732554353196, 9582951541102673919, 9586195447367801556, 9589440451721322085,
    9592686554534947269, 9595933756180514700, 9599182057029987840, 9602431457455456060,
    9605681957829134690, 9608933558523365059, 9612186259910614532, 9615440062363476560,
    9618694966254670718, 9621950971957042753, 9625208079843564620, 9628466290287334530,
    9631725603661576982, 9634986020339642839, 9638247540695009320, 9641510165101280080,
    9644773893932185239, 9648038727561581433, 9651304666363451845, 9654571710711906257,
    9657839860981181090, 9661109117545639451, 9664379480779771165, 9667650951058192829,
    9670923528755647848, 9674197214247006485, 9677472007907265897, 9680747910111550179,
    9684024921235110406, 9687303041653324694, 9690582271741698208, 9693862611875863235,
    9697144062431579214, 9700426623784732781, 9703710296311337816, 9706995080387535477,
    9710280976389594253, 9713567984693910003, 9716856105677005999, 9720145339715532966,
    9723435687186269130, 9726727148466120262, 9730019723932119716, 9733313413961428474,
    9736608218931335187, 9739904139219256238, 9743201175202735748, 9746499327259445649,
    9749798595767185717, 9753098981103883617, 9756400483647594944, 9759703103776503268,
    9763006841868920177, 9766311698303285323, 9769617673458166463, 9772924767712259496,
    9776232981444388518, 9779542315033505861, 9782852768858692132, 9786164343299156262,
    9789477038734235541, 9792790855543395684, 9796105794106230841, 9799421854802463664,
    9802739038011945345, 9806057344114655659, 9809376773490703006, 9812697326520324453,
    9816019003583885786, 9819341805061881546, 9822665731334935073, 9825990782783798549,
    9829316959789353049, 9832644262732608576, 9835972691994704109, 9839302247956907643,
    9842632931000616234, 9845964741507356059, 9849297679858782428, 9852631746436679848,
    9855966941622962064, 9859303265799672105, 9862640719348982323, 9865979302653194432,
    9869319016094739568, 9872659860056178320, 9876001834920200774, 9879344941069626562,
    9882689178887404901, 9886034548756614642, 9889381051060464313, 9892728686182292157,
    9896077454505566177, 9899427356413884197, 9902778392290973878, 9906130562520692783,
    9909483867487028408, 9912838307574098237, 9916193883166149782, 9919550594647560617,
    9922908442402838441, 9926267426816621110, 9929627548273676679, 9932988807158903452,
    9936351203857330023, 9939714738754115324, 9943079412234548666, 9946445224684049780,
    9949812176488168862, 9953180268032586639, 9956549499703114372, 9959919871885693931,
    9963291384966397829, 9966664039331429270, 9970037835367122188, 9973412773459941295,
    9976788853996482125, 9980166077363471079, 9983544443947765467, 9986923954136353551,
    9990304608316354593, 9993686406875018898, 9997069350199727863, 10000453438677994009,
    10003838672697461033, 10007225052645903865, 10010612578911228688, 10014001251881472996,
    10017391071944805637, 10020782039489526860, 10024174154904068358, 10027567418576993304,
    10030961830896996409, 10034357392252903961, 10037754103033673864, 10041151963628395691,
    10044550974426290722, 10047951135816711995, 10051352448189144345, 10054754911933204452,
];

/// Page 1 of the rounded-up `2^(i / 2048)` in Q63.
pub const EXP2_UPPER_1: [u64; 256] = [
    10058158527438640872, 10061563295095334128, 10064969215293296686, 10068376288422673048,
    10071784514873739780, 10075193895036905564, 10078604429302711236, 10082016118061829831,
    10085428961705066632, 10088842960623359217, 10092258115207777492, 10095674425849523747,
    10099091892939932697, 10102510516870471528, 10105930298032739939, 10109351236818470188,
    10112773333619527136, 10116196588827908306, 10119621002835743899, 10123046576035296861,
    10126473308818962926, 10129901201579270651, 10133330254708881474, 10136760468600589743,
    10140191843647322778, 10143624380242140906, 10147058078778237509, 10150492939648939062,
    10153928963247705191, 10157366149968128709, 10160804500203935663, 10164244014348985380,
    10167684692797270504, 10171126535942917071, 10174569544180184507, 10178013717903465710,
    10181459057507287080, 10184905563386308570, 10188353235935323726, 10191802075549259734,
    10195252082623177468, 10198703257552271536, 10202155600731870319, 10205609112557436017,
    10209063793424564703, 10212519643728986359, 10215976663866564928, 10219434854233298351,
    10222894215225318617, 10226354747238891822, 10229816450670418187, 10233279325916432121,
    10236743373373602265, 10240208593438731534, 10243674986508757167, 10247142552980750765,
    10250611293251918343, 10254081207719600376, 10257552296781271839, 10261024560834542255,
    10264498000277155741, 10267972615506991057, 10271448406922061645, 10274925374920515677,
    10278403519900636099, 10281882842260840695, 10285363342399682097, 10288845020715847860,
    10292327877608160493, 10295811913475577515, 10299297128717191493, 10302783523732230086,
    10306271098920056100, 10309759854680167531, 10313249791412197602, 10316740909515914816,
    10320233209391223002, 10323726691438161362, 10327221356056904512, 10330717203647762531,
    10334214234611181000, 10337712449347741071, 10341211848258159479, 10344712431743288612,
    10348214200204116547, 10351717154041767100, 10355221293657499876, 10358726619452710296,
    10362233131828929671, 10365740831187825228, 10369249717931200160, 10372759792460993674,
    10376271055179281038, 10379783506488273626, 10383297146790318962, 10386811976487900770,
    10390327995983639008, 10393845205680289950, 10397363605980746180, 10400883197288036675,
    10404403980005326836, 10407925954535918547, 10411449121283250204, 10414973480650896776,
    10418499033042569841, 10422025778862117642, 10425553718513525125, 10429082852400913986,
    10432613180928542721, 10436144704500806672, 10439677423522238074, 10443211338397506093,
    10446746449531416879, 10450282757328913627, 10453820262195076590, 10457358964535123153,
    10460898864754407865, 10464439963258422498, 10467982260452796083, 10471525756743294955,
    10475070452535822810, 10478616348236420748, 10482163444251267309, 10485711740986678533,
    10489261238849107999, 10492811938245146876, 10496363839581523967, 10499916943265105754,
    10503471249702896441, 10507026759302038030, 10510583472469810317, 10514141389613630976,
    10517700511141055593, 10521260837459777720, 10524822368977628911, 10528385106102578776,
    10531949049242735026, 10535514198806343523, 10539080555201788317, 10542648118837591705,
    10546216890122414268, 10549786869465054925, 10553358057274450976, 10556930453959678148,
    10560504059929950640, 10564078875594621189, 10567654901363181083, 10571232137645260233,
    10574810584850627215, 10578390243389189312, 10581971113670992567, 10585553196106221821,
    10589136491105200771, 10592720999078392013, 10596306720436397086, 10599893655589956517,
    10603481804949949877, 10607071168927395822, 10610661747933452141, 10614253542379415800,
    10617846552676722992, 10621440779236949201, 10625036222471809209, 10628632882793157180,
    10632230760612986689, 10635829856343430779, 10639430170396761999, 10643031703185392457,
    10646634455121873864, 10650238426618897587, 10653843618089294693, 10657450029946035988,
    10661057662602232078, 10664666516471133411, 10668276591966130320, 10671887889500753078,
    10675500409488671932, 10679114152343697178, 10682729118479779173, 10686345308311008405,
    10689962722251615535, 10693581360715971447, 10697201224118587290, 10700822312874114527,
    10704444627397344987, 10708068168103210910, 10711692935406784992, 10715318929723280431,
    10718946151468050985, 10722574601056591008, 10726204278904535505, 10729835185427660171,
    10733467321041881446, 10737100686163256575, 10740735281207983627, 10744371106592401557,
    10748008162732990258, 10751646450046370607, 10755285968949304510, 10758926719858694941,
    10762568703191586012, 10766211919365163003, 10769856368796752412, 10773502051903822008,
    10777148969103980873, 10780797120814979458, 10784446507454709623, 10788097129441204689,
    10791748987192639477, 10795402081127330381, 10799056411663735382, 10802711979220454121,
    10806368784216227932, 10810026827069939901, 10813686108200614910, 10817346628027419678,
    10821008386969662823, 10824671385446794901, 10828335623878408452, 10832001102684238051,
    10835667822284160359, 10839335783098194170, 10843004985546500454, 10846675430049382411,
    10850347117027285510, 10854020046900797566, 10857694220090648743, 10861369637017711633,
    10865046298103001299, 10868724203767675320, 10872403354433033839, 10876083750520519612,
    10879765392451718059, 10883448280648357311, 10887132415532308255, 10890817797525584584,
    10894504427050342846, 10898192304528882493, 10901881430383645935, 10905571805037218572,
    10909263428912328853, 10912956302431848338, 10916650426018791719, 10920345800096316883,
    10924042425087724962, 10927740301416460378, 10931439429506110898, 10935139809780407665,
    10938841442663225268, 10942544328578581781, 10946248467950638805, 10949953861203701528,
    10953660508762218767, 10957368411050783019, 10961077568494130510, 10964787981517141241,
];

/// Page 2 of the rounded-up `2^(i / 2048)` in Q63.
pub const EXP2_UPPER_2: [u64; 256] = [
    10968499650544839024, 10972212576002391589, 10975926758315110543, 10979642197908451484,
    10983358895208014024, 10987076850639541850, 10990796064628922762, 10994516537602188727,
    10998238269985515929, 11001961262205224817, 11005685514687780151, 11009411027859791051,
    11013137802148011050, 11016865837979338142, 11020595135780814826, 11024325695979628160,
    11028057519003109804, 11031790605278736088, 11035524955234128027, 11039260569297051401,
    11042997447895416788, 11046735591457279617, 11050475000410840221, 11054215675184443875,
    11057957616206580860, 11061700823905886501, 11065445298711141221, 11069191041051270585,
    11072938051355345355, 11076686330052581539, 11080435877572340435, 11084186694344128683,
    11087938780797598311, 11091692137362546807, 11095446764468917124, 11099202662546797768,
    11102959832026422826, 11106718273338172032, 11110477986912570799, 11114238973180290278,
    11118001232572147406, 11121764765519104960, 11125529572452271595, 11129295653802901900,
    11133063010002396448, 11136831641482301850, 11140601548674310791, 11144372732010262093,
    11148145191922140749, 11151918928842078004, 11155693943202351362, 11159470235435384664,
    11163247805973748128, 11167026655250158404, 11170806783697478619, 11174588191748718424,
    11178370879837034051, 11182154848395728359, 11185940097858250883, 11189726628658197881,
    11193514441229312391, 11197303536005484274, 11201093913420750268, 11204885573909294035,
    11208678517905446203, 11212472745843684450, 11216268258158633502, 11220065055285065220,
    11223863137657898636, 11227662505712200006, 11231463159883182864, 11235265100606208056,
    11239068328316783813, 11242872843450565787, 11246678646443357098, 11250485737731108391,
    11254294117749917884, 11258103786936031418, 11261914745725842508, 11265726994555892389,
    11269540533862870065, 11273355364083612380, 11277171485655104031, 11280988899014477647,
    11284807604599013828, 11288627602846141196, 11292448894193436452, 11296271479078624409,
    11300095357939578065, 11303920531214318636, 11307746999341015613, 11311574762757986809,
    11315403821903698411, 11319234177216765034, 11323065829135949766, 11326898778100164215,
    11330733024548468564, 11334568568920071642, 11338405411654330927, 11342243553190752634,
    11346082993968991753, 11349923734428852105, 11353765775010286381, 11357609116153396205,
    11361453758298432176, 11365299701885793924, 11369146947356030158, 11372995495149838711,
    11376845345708066601, 11380696499471710073, 11384548956881914659, 11388402718379975213,
    11392257784407335973, 11396114155405590622, 11399971831816482311, 11403830814081903729,
    11407691102643897150, 11411552697944654483, 11415415600426517324, 11419279810531977000,
    11423145328703674630, 11427012155384401172, 11430880291017097467, 11434749736044854296,
    11438620490910912432, 11442492556058662688, 11446365931931645968, 11450240618973553318,
    11454116617628225968, 11457993928339655422, 11461872551551983444, 11465752487709502160,
    11469633737256654088, 11473516300638032199, 11477400178298379955, 11481285370682591371,
    11485171878235711061, 11489059701402934296, 11492948840629607040, 11496839296361226016,
    11500731069043438747, 11504624159122043617, 11508518567042989913, 11512414293252377879,
    11516311338196458762, 11520209702321634889, 11524109386074459673, 11528010389901637704,
    11531912714250024779, 11535816359566627961, 11539721326298605630, 11543627614893267529,
    11547535225798074821, 11551444159460640141, 11555354416328727641, 11559265996850253044,
    11563178901473283698, 11567093130646038627, 11571008684816888577, 11574925564434356073,
    11578843769947115463, 11582763301803992993, 11586684160453966821, 11590606346346167093,
    11594529859929875992, 11598454701654527786, 11602380871969708878, 11606308371325157861,
    11610237200170765566, 11614167358956575121, 11618098848132781995, 11622031668149734047,
    11625965819457931586, 11629901302508027422, 11633838117750826909, 11637776265637288008,
    11641715746618521321, 11645656561145790177, 11649598709670510641, 11653542192644251591,
    11657487010518734767, 11661433163745834823, 11665380652777579371, 11669329478066149037,
    11673279640063877520, 11677231139223251635, 11681183975996911367, 11685138150837649919,
    11689093664198413776, 11693050516532302743, 11697008708292570008, 11700968239932622182,
    11704929111906019357, 11708891324666475178, 11712854878667856856, 11716819774364185242,
    11720786012209634879, 11724753592658534055, 11728722516165364851, 11732692783184763185,
    11736664394171518885, 11740637349580575725, 11744611649867031479, 11748587295486137976,
    11752564286893301150, 11756542624544081096, 11760522308894192123, 11764503340399502796,
    11768485719516035993, 11772469446699968975, 11776454522407633408, 11780440947095515436,
    11784428721220255721, 11788417845238649509, 11792408319607646674, 11796400144784351763,
    11800393321226024067, 11804387849390077661, 11808383729734081454, 11812380962715759247,
    11816379548792989784, 11820379488423806807, 11824380782066399106, 11828383430179110568,
    11832387433220440228, 11836392791649042352, 11840399505923726436, 11844407576503457297,
    11848417003847355116, 11852427788414695490, 11856439930664909482, 11860453431057583678,
    11864468290052460237, 11868484508109436947, 11872502085688567274, 11876521023250060411,
    11880541321254281340, 11884562980161750878, 11888586000433145740, 11892610382529298572,
    11896636126911198017, 11900663234039988780, 11904691704376971655, 11908721538383603590,
    11912752736521497742, 11916785299252423528, 11920819227038306682, 11924854520341229294,
    11928891179623429879, 11932929205347303427, 11936968597975401444, 11941009357970432017,
    11945051485795259864, 11949094981912906387, 11953139846786549723, 11957186080879524799,
];

/// Page 3 of the rounded-up `2^(i / 2048)` in Q63.
pub const EXP2_UPPER_3: [u64; 256] = [
    11961233684655323373, 11965282658577594135, 11969333003110142685, 11973384718716931641,
    11977437805862080672, 11981492265009866560, 11985548096624723247, 11989605301171241885,
    11993663879114170897, 11997723830918416032, 12001785157049040406, 12005847857971264564,
    12009911934150466535, 12013977386052181881, 12018044214142103750, 12022112418886082931,
    12026182000750127905, 12030252960200404915, 12034325297703237986, 12038399013725109005,
    12042474108732657769, 12046550583192682033, 12050628437572137572, 12054707672338138218,
    12058788287957955938, 12062870284899020868, 12066953663628921376, 12071038424615404105,
    12075124568326374040, 12079212095229894556, 12083301005794187470, 12087391300487633094,
    12091482979778770286, 12095576044136296530, 12099670494029067942, 12103766329926099361,
    12107863552296564391, 12111962161609795454, 12116062158335283845, 12120163542942679783,
    12124266315901792471, 12128370477682590148, 12132476028755200138, 12136582969589908902,
    12140691300657162106, 12144801022427564658, 12148912135371880778, 12153024639961034034,
    12157138536666107406, 12161253825958343354, 12165370508309143842, 12169488584190070411,
    12173608054072844230, 12177728918429346149, 12181851177731616757, 12185974832451856428,
    12190099883062425379, 12194226330035843732, 12198354173844791555, 12202483414962108921,
    12206614053860795964, 12210746091014012937, 12214879526895080256, 12219014361977478561,
    12223150596734848765, 12227288231640992131, 12231427267169870285, 12235567703795605303,
    12239709541992479752, 12243852782234936752, 12247997424997580022, 12252143470755173936,
    12256290919982643583, 12260439773155074823, 12264590030747714328, 12268741693235969647,
    12272894761095409257, 12277049234801762625, 12281205114830920250, 12285362401658933728,
    12289521095762015791, 12293681197616540397, 12297842707699042738, 12302005626486219325,
    12306169954454928033, 12310335692082188157, 12314502839845180475, 12318671398221247278,
    12322841367687892457, 12327012748722781536, 12331185541803741732, 12335359747408762010,
    12339535366015993138, 12343712398103747745, 12347890844150500368, 12352070704634887517,
    12356251980035707709, 12360434670831921571, 12364618777502651832, 12368804300527183417,
    12372991240384963490, 12377179597555601521, 12381369372518869322, 12385560565754701116,
    12389753177743193585, 12393947208964605933, 12398142659899359931, 12402339531028039976,
    12406537822831393148, 12410737535790329265, 12414938670385920938, 12419141227099403620,
    12423345206412175664, 12427550608805798398, 12431757434761996143, 12435965684762656294,
    12440175359289829366, 12444386458825729059, 12448598983852732303, 12452812934853379311,
    12457028312310373645, 12461245116706582271, 12465463348525035599, 12469683008248927554,
    12473904096361615625, 12478126613346620922, 12482350559687628232, 12486575935868486070,
    12490802742373206731, 12495030979685966381, 12499260648291105052, 12503491748673126739,
    12507724281316699446, 12511958246706655245, 12516193645327990322, 12520430477665865040,
    12524668744205603992, 12528908445432696063, 12533149581832794470, 12537392153891716835,
    12541636162095445230, 12545881606930126236, 12550128488882071001, 12554376808437755290,
    12558626566083819540, 12562877762307068938, 12567130397594473438, 12571384472433167844,
    12575639987310451863, 12579896942713790151, 12584155339130812381, 12588415177049313283,
    12592676456957252719, 12596939179342755727, 12601203344694112579, 12605468953499778832,
    12609736006248375395, 12614004503428688580, 12618274445529670152, 12622545833040437392,
    12626818666450273147, 12631092946248625911, 12635368672925109832, 12639645846969504812,
    12643924468871756543, 12648204539121976570, 12652486058210442343, 12656769026627597275,
    12661053444864050795, 12665339313410578415, 12669626632758121775, 12673915403397788697,
    12678205625820853253, 12682497300518755815, 12686790427983103109, 12691085008705668279,
    12695381043178390924, 12699678531893377193, 12703977475342899796, 12708277874019398088,
    12712579728415478118, 12716883039023912689, 12721187806337641409, 12725494030849770748,
    12729801713053574100, 12734110853442491838, 12738421452510131364, 12742733510750267169,
    12747047028656840896, 12751362006723961387, 12755678445445904747, 12759996345317114392,
    12764315706832201111, 12768636530485943139, 12772958816773286183, 12777282566189343488,
    12781607779229395909, 12785934456388891954, 12790262598163447850, 12794592205048847577,
    12798923277541042962, 12803255816136153709, 12807589821330467456, 12811925293620439847,
    12816262233502694572, 12820600641474023440, 12824940518031386424, 12829281863671911724,
    12833624678892895812, 12837968964191803521, 12842314720066268058, 12846661947014091096,
    12851010645533242807, 12855360816121861938, 12859712459278255861, 12864065575500900619,
    12868420165288441005, 12872776229139690605, 12877133767553631851, 12881492781029416088,
    12885853270066363627, 12890215235163963808, 12894578676821875045, 12898943595539924893,
    12903309991818110097, 12907677866156596679, 12912047219055719942, 12916418051015984568,
    12920790362538064665, 12925164154122803823, 12929539426271215169, 12933916179484481427,
    12938294414263954979, 12942674131111157918, 12947055330527782104, 12951438013015689225,
    12955822179076910850, 12960207829213648493, 12964594963928273674, 12968983583723327955,
    12973373689101523018, 12977765280565740730, 12982158358619033171, 12986552923764622713,
    12990948976505902074, 12995346517346434371, 12999745546789953193, 13004146065340362629,
    13008548073501737356, 13012951571778322685, 13017356560674534609, 13021763040694959878,
    13026171012344356043, 13030580476127651524, 13034991432549945663, 13039403882116508779,
];

/// Page 4 of the rounded-up `2^(i / 2048)` in Q63.
pub const EXP2_UPPER_4: [u64; 256] = [
    13043817825332782213, 13048233262704378456, 13052650194737081099, 13057068621936844962,
    13061488544809796134, 13065909963862232037, 13070332879600621473, 13074757292531604687,
    13079183203161993429, 13083610611998771013, 13088039519549092363, 13092469926320284081,
    13096901832819844506, 13101335239555443768, 13105770147034923846, 13110206555766298628,
    13114644466257753966, 13119083879017647752, 13123524794554509940, 13127967213377042639,
    13132411135994120153, 13136856562914789043, 13141303494648268193, 13145751931703948852,
    13150201874591394709, 13154653323820341943, 13159106279900699285, 13163560743342548067,
    13168016714656142293, 13172474194351908692, 13176933182940446777, 13181393680932528900,
    13185855688839100307, 13190319207171279231, 13194784236440356891, 13199250777157797596,
    13203718829835238787, 13208188394984491103, 13212659473117538429, 13217132064746537962,
    13221606170383820269, 13226081790541889350, 13230558925733422686, 13235037576471271302,
    13239517743268459830, 13243999426638186568, 13248482627093823531, 13252967345148916515,
    13257453581317185151, 13261941336112522989, 13266430610048997512, 13270921403640850227,
    13275413717402496719, 13279907551848526703, 13284402907493704092, 13288899784852967041,
    13293398184441428026, 13297898106774373889, 13302399552367265901, 13306902521735739816,
    13311407015395605941, 13315913033862849187, 13320420577653629131, 13324929647284280072,
    13329440243271311083, 13333952366131406111, 13338466016381423974, 13342981194538398458,
    13347497901119538373, 13352016136642227608, 13356535901624025191, 13361057196582665339,
    13365580022036057539, 13370104378502286592, 13374630266499612669, 13379157686546471378,
    13383686639161473823, 13388217124863406663, 13392749144171232171, 13397282697604088288,
    13401817785681288687, 13406354408922322849, 13410892567846856085, 13415432262974729629,
    13419973494825960680, 13424516263920742469, 13429060570779444322, 13433606415922611700,
    13438153799870966288, 13442702723145406034, 13447253186267005212, 13451805189757014485,
    13456358734136860964, 13460913819928148267, 13465470447652656581, 13470028617832342715,
    13474588330989340159, 13479149587645959180, 13483712388324686816, 13488276733548186986,
    13492842623839300530, 13497410059721045283, 13501979041716616116, 13506549570349385011,
    13511121646142901110, 13515695269620890790, 13520270441307257709, 13524847161726082866,
    13529425431401624669, 13534005250858318994, 13538586620620779244, 13543169541213796400,
    13547754013162339090, 13552340036991553665, 13556927613226764222, 13561516742393472692,
    13566107425017358890, 13570699661624280583, 13575293452740273543, 13579888798891551605,
    13584485700604506737, 13589084158405709096, 13593684172821907082, 13598285744380027405,
    13602888873607175144, 13607493561030633811, 13612099807177865403, 13616707612576510471,
    13621316977754388162, 13625927903239496330, 13630540389560011524, 13635154437244289099,
    13639770046820863261, 13644387218818447134, 13649005953765932807, 13653626252192391408,
    13658248114627073160, 13662871541599407444, 13667496533639002852, 13672123091275647255,
    13676751215039307858, 13681380905460131272, 13686012163068443562, 13690644988394750311,
    13695279381969736679, 13699915344324267487, 13704552875989387233, 13709191977496320193,
    13713832649376470460, 13718474892161422013, 13723118706382938781, 13727764092572964692,
    13732411051263623744, 13737059582987220068, 13741709688276237979, 13746361367663342044,
    13751014621681377137, 13755669450863368513, 13760325855742521855, 13764983836852223337,
    13769643394726039688, 13774304529897718275, 13778967242901187113, 13783631534270554973,
    13788297404540111420, 13792964854244326884, 13797633883917852714, 13802304494095521246,
    13806976685312345856, 13811650458103521034, 13816325813004422435, 13821002750550606937,
    13825681271277812713, 13830361375721959292, 13835043064419147607, 13839726337905660073,
    13844411196717960630, 13849097641392694839, 13853785672466689895, 13858475290476954721,
    13863166495960680026, 13867859289455238360, 13872553671498184179, 13877249642627253899,
    13881947203380365974, 13886646354295620943, 13891347095911301496, 13896049428765872534,
    13900753353397981237, 13905458870346457120, 13910165980150312096, 13914874683348740534,
    13919584980481119323, 13924296872087007958, 13929010358706148554, 13933725440878465939,
    13938442119144067710, 13943160394043244300, 13947880266116469034, 13952601735904398179,
    13957324803947871035, 13962049470787909976, 13966775736965720510, 13971503603022691354,
    13976233069500394485, 13980964136940585208, 13985696805885202221, 13990431076876367666,
    13995166950456387194, 13999904427167750050, 14004643507553129097, 14009384192155380906,
    14014126481517545802, 14018870376182847940, 14023615876694695363, 14028362983596680049,
    14033111697432578001, 14037862018746349292, 14042613948082138123, 14047367485984272896,
    14052122632997266270, 14056879389665815231, 14061637756534801148, 14066397734149289832,
    14071159323054531598, 14075922523795961362, 14080687336919198641, 14085453762970047663,
    14090221802494497411, 14094991456038721694, 14099762724149079201, 14104535607372113570,
    14109310106254553447, 14114086221343312554, 14118863953185489746, 14123643302328369070,
    14128424269319419838, 14133206854706296683, 14137991059036839631, 14142776882859074143,
    14147564326721211195, 14152353391171647350, 14157144076758964795, 14161936384031931414,
    14166730313539500859, 14171525865830812608, 14176323041455192028, 14181121840962150428,
    14185922264901385142, 14190724313822779578, 14195527988276403279, 14200333288812511998,
    14205140215981547746, 14209948770334138870, 14214758952421100107, 14219570762793432650,
];

/// Page 5 of the rounded-up `2^(i / 2048)` in Q63.
pub const EXP2_UPPER_5: [u64; 256] = [
    14224384202002324192, 14229199270599149057, 14234015969135468163, 14238834298163029157,
    14243654258233766451, 14248475849899801298, 14253299073713441846, 14258123930227183198,
    14262950419993707487, 14267778543565883937, 14272608301496768912, 14277439694339605998,
    14282272722647826055, 14287107386975047288, 14291943687875075301, 14296781625901903166,
    14301621201609711485, 14306462415552868472, 14311305268285929973, 14316149760363639569,
    14320995892340928627, 14325843664772916357, 14330693078214909890, 14335544133222404319,
    14340396830351082790, 14345251170156816548, 14350107153195665006, 14354964780023875800,
    14359824051197884870, 14364684967274316509, 14369547528809983432, 14374411736361886843,
    14379277590487216481, 14384145091743350732, 14389014240687856623, 14393885037878489940,
    14398757483873195268, 14403631579230106064, 14408507324507544717, 14413384720264022609,
    14418263767058240185, 14423144465449087021, 14428026815995641874, 14432910819257172750,
    14437796475793136982, 14442683786163181277, 14447572750927141793, 14452463370645044187,
    14457355645877103691, 14462249577183725193, 14467145165125503261, 14472042410263222235,
    14476941313157856286, 14481841874370569478, 14486744094462715838, 14491647973995839409,
    14496553513531674325, 14501460713632144875, 14506369574859365558, 14511280097775641156,
    14516192282943466791, 14521106130925528004, 14526021642284700801, 14530938817584051728,
    14535857657386837928, 14540778162256507234, 14545700332756698185, 14550624169451240128,
    14555549672904153264, 14560476843679648727, 14565405682342128638, 14570336189456186167,
    14575268365586605610, 14580202211298362452, 14585137727156623416, 14590074913726746542,
    14595013771574281247, 14599954301264968397, 14604896503364740362, 14609840378439721083,
    14614785927056226132, 14619733149780762809, 14624682047180030153, 14629632619820919048,
    14634584868270512272, 14639538793096084565, 14644494394865102703, 14649451674145225533,
    14654410631504304082, 14659371267510381589, 14664333582731693580, 14669297577736667932,
    14674263253093924942, 14679230609372277391, 14684199647140730603, 14689170366968482520,
    14694142769424923747, 14699116855079637669, 14704092624502400442, 14709070078263181111,
    14714049216932141656, 14719030041079637068, 14724012551276215401, 14728996748092617848,
    14733982632099778799, 14738970203868825915, 14743959463971080187, 14748950412978055997,
    14753943051461461194, 14758937379993197155, 14763933399145358852, 14768931109490234909,
    14773930511600307673, 14778931606048253303, 14783934393406941785, 14788938874249437043,
    14793945049148996976, 14798952918679073547, 14803962483413312835, 14808973743925555092,
    14813986700789834832, 14819001354580380883, 14824017705871616447, 14829035755238159178,
    14834055503254821239, 14839076950496609376, 14844100097538724979, 14849124944956564144,
    14854151493325717737, 14859179743221971499, 14864209695221306041, 14869241349899896962,
    14874274707834114901, 14879309769600525608, 14884346535775889997, 14889385006937164224,
    14894425183661499749, 14899467066526243407, 14904510656108937460, 14909555952987319680,
    14914602957739323405, 14919651670943077608, 14924702093176906967, 14929754225019331922,
    14934808067049068744, 14939863619845029625, 14944920883986322697, 14949979860052252138,
    14955040548622318224, 14960102950276217395, 14965167065593842325, 14970232895155281979,
    14975300439540821696, 14980369699330943245, 14985440675106324892, 14990513367447841459,
    14995587776936564410, 15000663904153761901, 15005741749680898855, 15010821314099637019,
    15015902597991835036, 15020985601939548539, 15026070326525030155, 15031156772330729630,
    15036244939939293865, 15041334829933566998, 15046426442896590460, 15051519779411603047,
    15056614840062040984, 15061711625431538000, 15066810136103925388, 15071910372663232063,
    15077012335693684646, 15082116025779707527, 15087221443505922920, 15092328589457150946,
    15097437464218409679, 15102548068374915251, 15107660402512081872, 15112774467215521926,
    15117890263071046031, 15123007790664663111, 15128127050582580456, 15133248043411203787,
    15138370769737137335, 15143495230147183902, 15148621425228344922, 15153749355567820533,
    15158879021753009651, 15164010424371510028, 15169143564011118325, 15174278441259830167,
    15179415056705840226, 15184553410937542300, 15189693504543529343, 15194835338112593552,
    15199978912233726439, 15205124227496118900, 15210271284489161273, 15215420083802443400,
    15220570626025754719, 15225722911749084312, 15230876941562620971, 15236032716056753278,
    15241190235822069661, 15246349501449358471, 15251510513529608047, 15256673272654006779,
    15261837779413943171, 15267004034401005941, 15272172038206984041, 15277341791423866760,
    15282513294643843772, 15287686548459305218, 15292861553462841770, 15298038310247244686,
    15303216819405505900, 15308397081530818079, 15313579097216574681, 15318762867056370037,
    15323948391643999414, 15329135671573459087, 15334324707438946399, 15339515499834859836,
    15344708049355799081, 15349902356596565127, 15355098422152160278, 15360296246617788262,
    15365495830588854290, 15370697174660965123, 15375900279429929137, 15381105145491756394,
    15386311773442658711, 15391520163879049731, 15396730317397544985, 15401942234594961960,
    15407155916068320172, 15412371362414841233, 15417588574231948930, 15422807552117269265,
    15428028296668630546, 15433250808484063466, 15438475088161801141, 15443701136300279193,
    15448928953498135824, 15454158540354211879, 15459389897467550923, 15464623025437399284,
    15469857924863206156, 15475094596344623649, 15480333040481506852, 15485573257873913917,
    15490815249122106117, 15496059014826547920, 15501304555587907056, 15506551872007054587,
];

/// Page 6 of the rounded-up `2^(i / 2048)` in Q63.
pub const EXP2_UPPER_6: [u64; 256] = [
    15511800964685064951, 15517051834223216117, 15522304481222989530, 15527558906286070266,
    15532815110014347068, 15538073093009912433, 15543332855875062663, 15548594399212297944,
    15553857723624322416, 15559122829714044239, 15564389718084575661, 15569658389339233085,
    15574928844081537145, 15580201082915212775, 15585475106444189268, 15590750915272600354,
    15596028510004784265, 15601307891245283821, 15606589059598846464, 15611872015670424360,
    15617156760065174452, 15622443293388458534, 15627731616245843323, 15633021729243100518,
    15638313632986206884, 15643607328081344311, 15648902815134899890, 15654200094753465972,
    15659499167543840246, 15664800034113025814, 15670102695068231245, 15675407151016870656,
    15680713402566563770, 15686021450325136026, 15691331294900618578, 15696642936901248424,
    15701956376935468445, 15707271615611927497, 15712588653539480460, 15717907491327188316,
    15723228129584318219, 15728550568920343574, 15733874809944944087, 15739200853268005848,
    15744528699499621398, 15749858349250089805, 15755189803129916721, 15760523061749814465,
    15765858125720702071, 15771194995653705408, 15776533672160157184, 15781874155851597060,
    15787216447339771705, 15792560547236634874, 15797906456154347472, 15803254174705277619,
    15808603703502000735, 15813955043157299598, 15819308194284164420, 15824663157495792910,
    15830019933405590353, 15835378522627169677, 15840738925774351523, 15846101143461164313,
    15851465176301844314, 15856831024910835749, 15862198689902790800, 15867568171892569731,
    15872939471495240934, 15878312589326081009, 15883687526000574839, 15889064282134415636,
    15894442858343505048, 15899823255243953206, 15905205473452078793, 15910589513584409122,
    15915975376257680210, 15921363062088836841, 15926752571695032642, 15932143905693630148,
    15937537064702200871, 15942932049338525401, 15948328860220593422, 15953727497966603828,
    15959127963194964773, 15964530256524293746, 15969934378573417654, 15975340329961372864,
    15980748111307405306, 15986157723230970527, 15991569166351733763, 15996982441289570009,
    16002397548664564093, 16007814489097010754, 16013233263207414700, 16018653871616490681,
    16024076314945163562, 16029500593814568425, 16034926708846050575, 16040354660661165661,
    16045784449881679734, 16051216077129569322, 16056649543027021487, 16062084848196433914,
    16067521993260414972, 16072960978841783791, 16078401805563570328, 16083844474049015438,
    16089288984921570951, 16094735338804899738, 16100183536322875793, 16105633578099584285,
    16111085464759321641, 16116539196926595637, 16121994775226125428, 16127452200282841648,
    16132911472721886476, 16138372593168613707, 16143835562248588826, 16149300380587589068,
    16154767048811603506, 16160235567546833120, 16165705937419690853, 16171178159056801698,
    16176652233085002767, 16182128160131343361, 16187605940823085042, 16193085575787701705,
    16198567065652879638, 16204050411046517645, 16209535612596727035, 16215022670931831756,
    16220511586680368446, 16226002360471086514, 16231494992932948196, 16236989484695128641,
    16242485836387015979, 16247984048638211399, 16253484122078529205, 16258986057337996902,
    16264489855046855264, 16269995515835558410, 16275503040334773870, 16281012429175382659,
    16286523682988479344, 16292036802405372148, 16297551788057582966, 16303068640576847487,
    16308587360595115240, 16314107948744549674, 16319630405657528236, 16325154731966642432,
    16330680928304697905, 16336208995304714516, 16341738933599926401, 16347270743823782050,
    16352804426609944384, 16358339982592290825, 16363877412404913363, 16369416716682118637,
    16374957896058427993, 16380500951168577597, 16386045882647518449, 16391592691130416491,
    16397141377252652682, 16402691941649823058, 16408244384957738807, 16413798707812426348,
    16419354910850127395, 16424912994707299044, 16430472960020613832, 16436034807426959810,
    16441598537563440623, 16447164151067375589, 16452731648576299753, 16458301030727963979,
    16463872298160334998, 16469445451511595532, 16475020491420144300, 16480597418524596136,
    16486176233463782049, 16491756936876749304, 16497339529402761481, 16502924011681298554,
    16508510384352056973, 16514098648054949731, 16519688803430106432, 16525280851117873366,
    16530874791758813593, 16536470625993707005, 16542068354463550405, 16547667977809557574,
    16553269496673159344, 16558872911696003705, 16564478223519955823, 16570085432787098143,
    16575694540139730463, 16581305546220370011, 16586918451671751508, 16592533257136827236,
    16598149963258767138, 16603768570680958868, 16609389080047007872, 16615011492000737460,
    16620635807186188881, 16626262026247621398, 16631890149829512369, 16637520178576557301,
    16643152113133669933, 16648785954145982333, 16654421702258844934, 16660059358117826630,
    16665698922368714840, 16671340395657515595, 16676983778630453604, 16682629071933972318,
    16688276276214734026, 16693925392119619918, 16699576420295730151, 16705229361390383931,
    16710884216051119589, 16716540984925694654, 16722199668662085926, 16727860267908489549,
    16733522783313321074, 16739187215525215586, 16744853565193027696, 16750521832965831673,
    16756192019492921504, 16761864125423810968, 16767538151408233703, 16773214098096143293,
    16778891966137713336, 16784571756183337519, 16790253468883629694, 16795937104889423943,
    16801622664851774667, 16807310149421956652, 16812999559251465155, 16818690894992015955,
    16824384157295545443, 16830079346814210714, 16835776464200389609, 16841475510106680800,
    16847176485185903876, 16852879390091099409, 16858584225475529036, 16864290991992675516,
    16869999690296242826, 16875710321040156232, 16881422884878562347, 16887137382465829224,
    16892853814456546423, 16898572181505525092, 16904292484267798033, 16910014723398619785,
];

/// Page 7 of the rounded-up `2^(i / 2048)` in Q63.
pub const EXP2_UPPER_7: [u64; 256] = [
    16915738899553466676, 16921465013388036974, 16927193065558250847, 16932923056720250523,
    16938654987530400332, 16944388858645286796, 16950124670721718694, 16955862424416727134,
    16961602120387565641, 16967343759291710228, 16973087341786859461, 16978832868530934547,
    16984580340182079403, 16990329757398660736, 16996081120839268112, 17001834431162714035,
    17007589689028034018, 17013346895094486685, 17019106050021553797, 17024867154468940364,
    17030630209096574716, 17036395214564608569, 17042162171533417114, 17047931080663599066,
    17053701942615976779, 17059474758051596291, 17065249527631727413, 17071026252017863791,
    17076804931871723001, 17082585567855246616, 17088368160630600281, 17094152710860173783,
    17099939219206581132, 17105727686332660665, 17111518112901475061, 17117310499576311465,
    17123104847020681552, 17128901155898321598, 17134699426873192560, 17140499660609480148,
    17146301857771594907, 17152106019024172295, 17157912145032072751, 17163720236460381764,
    17169530293974409977, 17175342318239693233, 17181156309921992677, 17186972269687294805,
    17192790198201811556, 17198610096131980409, 17204431964144464415, 17210255802906152300,
    17216081613084158538, 17221909395345823429, 17227739150358713175, 17233570878790619949,
    17239404581309561976, 17245240258583783621, 17251077911281755447, 17256917540072174299,
    17262759145623963380, 17268602728606272338, 17274448289688477324, 17280295829540181081,
    17286145348831213011, 17291996848231629288, 17297850328411712869, 17303705790041973626,
    17309563233793148398, 17315422660336201078, 17321284070342322683, 17327147464482931429,
    17333012843429672820, 17338880207854419721, 17344749558429272421, 17350620895826558723,
    17356494220718834018, 17362369533778881371, 17368246835679711578, 17374126127094563263,
    17380007408696902930, 17385890681160425093, 17391775945159052281, 17397663201366935166,
    17403552450458452623, 17409443693108211807, 17415336929991048247, 17421232161782025885,
    17427129389156437199, 17433028612789803251, 17438929833357873773, 17444833051536627240,
    17450738268002270956, 17456645483431241125, 17462554698500202928, 17468465913886050609,
    17474379130265907523, 17480294348317126286, 17486211568717288759, 17492130792144206183,
    17498052019275919240, 17503975250790698147, 17509900487367042708, 17515827729683682409,
    17521756978419576489, 17527688234253914029, 17533621497866114012, 17539556769935825410,
    17545494051142927265, 17551433342167528763, 17557374643689969315, 17563317956390818625,
    17569263280950876773, 17575210618051174321, 17581159968372972336, 17587111332597762508,
    17593064711407267212, 17599020105483439604, 17604977515508463680, 17610936942164754354,
    17616898386134957550, 17622861848101950279, 17628827328748840698, 17634794828758968211,
    17640764348815903532, 17646735889603448774, 17652709451805637522, 17658685036106734908,
    17664662643191237685, 17670642273743874352, 17676623928449605151, 17682607607993622205,
    17688593313061349576, 17694581044338443357, 17700570802510791732, 17706562588264515065,
    17712556402285965980, 17718552245261729440, 17724550117878622812, 17730550020823695966,
    17736551954784231340, 17742555920447744021, 17748561918501981831, 17754569949634925393,
    17760580014534788215, 17766592113890016794, 17772606248389290643, 17778622418721522408,
    17784640625575857945, 17790660869641676381, 17796683151608590213, 17802707472166445364,
    17808733832005321288, 17814762231815531035, 17820792672287621329, 17826825154112372644,
    17832859677980799296, 17838896244584149517, 17844934854613905524, 17850975508761783609,
    17857018207719734211, 17863062952179942028, 17869109742834826028, 17875158580377039591,
    17881209465499470560, 17887262398895241329, 17893317381257708916, 17899374413280465049,
    17905433495657336235, 17911494629082383859, 17917557814249904248, 17923623051854428743,
    17929690342590723801, 17935759687153791060, 17941831086238867419, 17947904540541425128,
    17953980050757171841, 17960057617582050747, 17966137241712240589, 17972218923844155782,
    17978302664674446481, 17984388464899998667, 17990476325217934219, 17996566246325610994,
    18002658228920622918, 18008752273700800056, 18014848381364208692, 18020946552609151408,
    18027046788134167174, 18033149088638031415, 18039253454819756104, 18045359887378589824,
    18051468387014017862, 18057578954425762308, 18063691590313782094, 18069806295378273085,
    18075923070319668183, 18082041915838637389, 18088162832636087892, 18094285821413164120,
    18100410882871247875, 18106538017711958369, 18112667226637152311, 18118798510348924006,
    18124931869549605412, 18131067304941766243, 18137204817228214032, 18143344407111994223,
    18149486075296390230, 18155629822484923567, 18161775649381353865, 18167923556689679001,
    18174073545114135145, 18180225615359196870, 18186379768129577219, 18192536004130227774,
    18198694324066338762, 18204854728643339123, 18211017218566896579, 18217181794542917732,
    18223348457277548137, 18229517207477172395, 18235688045848414209, 18241860973098136488,
    18248035989933441409, 18254213097061670544, 18260392295190404864, 18266573585027464879,
    18272756967280910703, 18278942442659042132, 18285130011870398727, 18291319675623759892,
    18297511434628144966, 18303705289592813295, 18309901241227264311, 18316099290241237620,
    18322299437344713075, 18328501683247910868, 18334706028661291617, 18340912474295556414,
    18347121020861646938, 18353331669070745545, 18359544419634275310, 18365759273263900135,
    18371976230671524830, 18378195292569295184, 18384416459669598071, 18390639732685061488,
    18396865112328554679, 18403092599313188202, 18409322194352313995, 18415553898159525483,
    18421787711448657641, 18428023634933787089, 18434261669329232165, 18440501815349553009,
];

/// Page 0 of the rounded-down `log2(1 + i / 2048)` in Q64.
pub const LOG2_LOWER_0: [u64; 256] = [
    0, 12991470209511300, 25976601570169166, 38955400264708765,
    51927872466823971, 64894024341184995, 77853862043455949, 90807391720312388,
    103754619509458804, 116695551539646060, 129630193930688822, 142558552793482903,
    155480634230022590, 168396444333417928, 181305989187911958, 194209274868897912,
    207106307442936365, 219997092967772359, 232881637492352457, 245759947056841789,
    258632027692641045, 271497885422403401, 284357526260051449, 297210956210794058,
    310058181271143184, 322899207428930685, 335734040663325039, 348562686944848060,
    361385152235391564, 374201442488233987, 387011563648056977, 399815521650961929,
    412613322424486495, 425404971887621052, 438190475950825119, 450969840516043742,
    463743071476723858, 476510174717830580, 489271156115863475, 502026021538872797,
    514774776846475670, 527517427889872249, 540253980511861815, 552984440546858873,
    565708813820909168, 578427106151705695, 591139323348604650, 603845471212641365,
    616545555536546166, 629239582104760246, 641927556693451456, 654609485070530084,
    667285372995664579, 679955226220297251, 692619050487659927, 705276851532789577,
    717928635082543886, 730574406855616810, 743214172562554085, 755847937905768691,
    768475708579556300, 781097490270110662, 793713288655538976, 806323109405877220,
    818926958183105430, 831524840641162965, 844116762425963712, 856702729175411284,
    869282746519414150, 881856820079900756, 894424955470834594, 906987158298229243,
    919543434160163374, 932093788646795713, 944638227340379974, 957176755815279769,
    969709379637983450, 982236104367118949, 994756935553468577, 1007271878739983768,
    1019780939461799801, 1032284123246250505, 1044781435612882902, 1057272882073471822,
    1069758468132034503, 1082238199284845124, 1094712081020449338, 1107180118819678749,
    1119642318155665360, 1132098684493855985, 1144549223292026638, 1156993940000296883,
    1169432840061144134, 1181865928909417954, 1194293211972354286, 1206714694669589680,
    1219130382413175474, 1231540280607591929, 1243944394649762359, 1256342729929067210,
    1268735291827358097, 1281122085718971845, 1293503116970744448, 1305878390942025040,
    1318247912984689800, 1330611688443155850, 1342969722654395107, 1355322020947948096,
    1367668588645937757, 1380009431063083194, 1392344553506713393, 1404673961276780942,
    1416997659665875670, 1429315653959238287, 1441627949434773985, 1453934551363066008,
    1466235465007389187, 1478530695623723446, 1490820248460767276, 1503104128759951183,
    1515382341755451091, 1527654892674201736, 1539921786735910010, 1552183029153068284,
    1564438625130967685, 1576688579867711378, 1588932898554227779, 1601171586374283753,
    1613404648504497787, 1625632090114353122, 1637853916366210864, 1650070132415323061,
    1662280743409845754, 1674485754490851983, 1686685170792344783, 1698878997441270138,
    1711067239557529916, 1723249902253994755, 1735426990636516946, 1747598509803943260,
    1759764464848127764, 1771924860853944605, 1784079702899300755, 1796228996055148733,
    1808372745385499309, 1820510955947434155, 1832643632791118492, 1844770780959813686,
    1856892405489889840, 1869008511410838331, 1881119103745284335, 1893224187508999318,
    1905323767710913513, 1917417849353128334, 1929506437430928797, 1941589536932795903,
    1953667152840418976, 1965739290128707996, 1977805953765805895, 1989867148713100818,
    2001922879925238370, 2013973152350133817, 2026017970928984286, 2038057340596280907,
    2050091266279820951, 2062119752900719931, 2074142805373423674, 2086160428605720371,
    2098172627498752586, 2110179406947029274, 2122180771838437722, 2134176727054255496,
    2146167277469162358, 2158152427951252149, 2170132183362044645, 2182106548556497391,
    2194075528383017498, 2206039127683473440, 2217997351293206791, 2229950204041043953,
    2241897690749307859, 2253839816233829647, 2265776585303960300, 2277708002762582278,
    2289634073406121101, 2301554802024556931, 2313470193401436105, 2325380252313882649,
    2337284983532609785, 2349184391821931380, 2361078481939773401, 2372967258637685318,
    2384850726660851497, 2396728890748102568, 2408601755631926752, 2420469326038481192,
    2432331606687603218, 2444188602292821638, 2456040317561367945, 2467886757194187551,
    2479727925885950973, 2491563828325064981, 2503394469193683753, 2515219853167719979,
    2527039984916855954, 2538854869104554638, 2550664510388070697, 2562468913418461518,
    2574268082840598202, 2586062023293176528, 2597850739408727892, 2609634235813630231,
    2621412517128118906, 2633185587966297589, 2644953452936149090, 2656716116639546186,
    2668473583672262423, 2680225858623982886, 2691972946078314942, 2703714850612798974,
    2715451576798919087, 2727183129202113777, 2738909512381786594, 2750630730891316767,
    2762346789278069820, 2774057692083408154, 2785763443842701609, 2797464049085337996,
    2809159512334733629, 2820849838108343801, 2832535030917673261, 2844215095268286660,
    2855890035659818975, 2867559856585985900, 2879224562534594244, 2890884157987552270,
    2902538647420880028, 2914188035304719674, 2925832326103345746, 2937471524275175440,
    2949105634272778847, 2960734660542889171, 2972358607526412929, 2983977479658440126,
    2995591281368254408, 3007200017079343197, 3018803691209407792, 3030402308170373460,
    3041995872368399504, 3053584388203889302, 3065167860071500332, 3076746292360154166,
    3088319689453046453, 3099888055727656866, 3111451395555759051, 3123009713303430529,
];

/// Page 1 of the rounded-down `log2(1 + i / 2048)` in Q64.
pub const LOG2_LOWER_1: [u64; 256] = [
    3134563013331062588, 3146111299993370159, 3157654577639401652, 3169192850612548798,
    3180726123250556446, 3192254399885532351, 3203777684843956931, 3215295982446693018,
    3226809297008995575, 3238317632840521395, 3249820994245338777, 3261319385521937195,
    3272812810963236927, 3284301274856598669, 3295784781483833145, 3307263335121210658,
    3318736940039470675, 3330205600503831328, 3341669320773998956, 3353128105104177585,
    3364581957743078395, 3376030882933929184, 3387474884914483794, 3398913967917031517,
    3410348136168406498, 3421777393889997097, 3433201745297755247, 3444621194602205775,
    3456035746008455726, 3467445403716203641, 3478850171919748833, 3490250054808000645,
    3501645056564487673, 3513035181367366980, 3524420433389433285, 3535800816798128142,
    3547176335755549086, 3558546994418458778, 3569912796938294098, 3581273747461175254,
    3592629850127914857, 3603981109074026974, 3615327528429736158, 3626669112319986476,
    3638005864864450491, 3649337790177538262, 3660664892368406285, 3671987175540966443,
    3683304643793894917, 3694617301220641102, 3705925151909436486, 3717228199943303506,
    3728526449400064406, 3739819904352350054, 3751108568867608757, 3762392447008115045,
    3773671542830978451, 3784945860388152252, 3796215403726442209, 3807480176887515286,
    3818740183907908340, 3829995428819036800, 3841245915647203332, 3852491648413606477,
    3863732631134349279, 3874968867820447879, 3886200362477840125, 3897427119107394114,
    3908649141704916760, 3919866434261162324, 3931079000761840930, 3942286845187627058,
    3953489971514168021, 3964688383712092442, 3975882085747018679, 3987071081579563257,
    3998255375165349287, 4009434970455014839, 4020609871394221324, 4031780081923661852,
    4042945605979069567, 4054106447491225965, 4065262610385969198, 4076414098584202362,
    4087560916001901763, 4098703066550125171, 4109840554135020041, 4120973382657831752,
    4132101556014911787, 4143225078097725922, 4154343952792862392, 4165458183982040033,
    4176567775542116426, 4187672731345095993, 4198773055258138106, 4209868751143565170,
    4220959822858870671, 4232046274256727244, 4243128109184994678, 4254205331486727951,
    4265277945000185214, 4276345953558835775, 4287409360991368064, 4298468171121697570,
    4309522387768974786, 4320572014747593107, 4331617055867196740, 4342657514932688578,
    4353693395744238065, 4364724702097289049, 4375751437782567608, 4386773606586089871,
    4397791212289169804, 4408804258668427021, 4419812749495794521, 4430816688538526455,
    4441816079559205865, 4452810926315752391, 4463801232561429982, 4474787002044854582,
    4485768238510001805, 4496744945696214578, 4507717127338210802, 4518684787166090954,
    4529647928905345711, 4540606556276863538, 4551560672996938261, 4562510282777276638,
    4573455389325005893, 4584395996342681260, 4595332107528293487, 4606263726575276342,
    4617190857172514092, 4628113503004348978, 4639031667750588666, 4649945355086513682,
    4660854568682884841, 4671759312205950652, 4682659589317454710, 4693555403674643072,
    4704446758930271622, 4715333658732613418, 4726216106725466030, 4737094106548158846,
    4747967661835560378, 4758836776218085556, 4769701453321702997, 4780561696767942262,
    4791417510173901092, 4802268897152252651, 4813115861311252732, 4823958406254746952,
    4834796535582177937, 4845630252888592507, 4856459561764648800, 4867284465796623449,
    4878104968566418678, 4888921073651569426, 4899732784625250446, 4910540105056283387,
    4921343038509143849, 4932141588543968462, 4942935758716561900, 4953725552578403920,
    4964510973676656372, 4975292025554170193, 4986068711749492392, 4996841035796873013,
    5007609001226272100, 5018372611563366624, 5029131870329557423, 5039886781041976104,
    5050637347213491945, 5061383572352718779, 5072125459964021868, 5082863013547524753,
    5093596236599116105, 5104325132610456544, 5115049705068985461, 5125769957457927828,
    5136485893256300961, 5147197515938921321, 5157904828976411258, 5168607835835205766,
    5179306539977559214, 5190000944861552060, 5200691053941097569, 5211376870665948498,
    5222058398481703779, 5232735640829815177, 5243408601147593961, 5254077282868217520,
    5264741689420736008, 5275401824230078946, 5286057690717061828, 5296709292298392705,
    5307356632386678754, 5317999714390432848, 5328638541714080090, 5339273117757964358,
    5349903445918354825, 5360529529587452456, 5371151372153396519, 5381768977000271045,
    5392382347508111327, 5402991487052910344, 5413596399006625232, 5424197086737183692,
    5434793553608490427, 5445385802980433525, 5455973838208890874, 5466557662645736525,
    5477137279638847067, 5487712692532107974, 5498283904665419958, 5508850919374705281,
    5519413739991914088, 5529972369845030701, 5540526812258079915, 5551077070551133267,
    5561623148040315315, 5572165048037809888, 5582702773851866323, 5593236328786805695,
    5603765716143027043, 5614290939217013565, 5624812001301338805, 5635328905684672851,
    5645841655651788485, 5656350254483567357, 5666854705457006104, 5677355011845222506,
    5687851176917461588, 5698343203939101737, 5708831096171660793, 5719314856872802135,
    5729794489296340747, 5740269996692249282, 5750741382306664110, 5761208649381891346,
    5771671801156412883, 5782130840864892404, 5792585771738181370, 5803036597003325015,
    5813483319883568334, 5823925943598362026, 5834364471363368461, 5844798906390467619,
    5855229251887763026, 5865655511059587650, 5876077687106509834, 5886495783225339174,
    5896909802609132412, 5907319748447199299, 5917725623925108465, 5928127432224693258,
];

/// Page 2 of the rounded-down `log2(1 + i / 2048)` in Q64.
pub const LOG2_LOWER_2: [u64; 256] = [
    5938525176524057592, 5948918859997581757, 5959308485815928258, 5969694057146047599,
    5980075577151184073, 5990453048990881566, 6000826475820989294, 6011195860793667595,
    6021561207057393644, 6031922517756967218, 6042279796033516396, 6052633045024503290,
    6062982267863729737, 6073327467681343000, 6083668647603841438, 6094005810754080183,
    6104338960251276789, 6114668099211016893, 6124993230745259842, 6135314357962344319,
    6145631483966993960, 6155944611860322953, 6166253744739841643, 6176558885699462096,
    6186860037829503681, 6197157204216698637, 6207450387944197605, 6217739592091575183,
    6228024819734835440, 6238306073946417447, 6248583357795200776, 6258856674346511003,
    6269126026662125179, 6279391417800277325, 6289652850815663876, 6299910328759449156,
    6310163854679270803, 6320413431619245213, 6330659062619972955, 6340900750718544198,
    6351138498948544091, 6361372310340058166, 6371602187919677727, 6381828134710505203,
    6392050153732159522, 6402268248000781451, 6412482420529038947, 6422692674326132477,
    6432899012397800339, 6443101437746323973, 6453299953370533266, 6463494562265811822,
    6473685267424102262, 6483872071833911482, 6494054978480315911, 6504233990344966760,
    6514409110406095266, 6524580341638517908, 6534747687013641639, 6544911149499469089,
    6555070732060603758, 6565226437658255213, 6575378269250244264, 6585526229791008130,
    6595670322231605596, 6605810549519722171, 6615946914599675222, 6626079420412419100,
    6636208069895550264, 6646332865983312393, 6656453811606601479, 6666570909692970925,
    6676684163166636624, 6686793574948482021, 6696899147956063195, 6707000885103613893,
    6717098789302050574, 6727192863458977448, 6737283110478691503, 6747369533262187509,
    6757452134707163023, 6767530917708023395, 6777605885155886735, 6787677039938588911,
    6797744384940688499, 6807807923043471742, 6817867657124957505, 6827923590059902213,
    6837975724719804764, 6848024063972911473, 6858068610684220966, 6868109367715489089,
    6878146337925233795, 6888179524168740028, 6898208929298064596, 6908234556162041042,
    6918256407606284487, 6928274486473196492, 6938288795601969880, 6948299337828593568,
    6958306115985857394, 6968309132903356915, 6978308391407498217, 6988303894321502702,
    6998295644465411867, 7008283644656092095, 7018267897707239392, 7028248406429384165,
    7038225173629895963, 7048198202112988215, 7058167494679722952, 7068133054128015538,
    7078094883252639377, 7088052984845230613, 7098007361694292830, 7107958016585201727,
    7117904952300209809, 7127848171618451044, 7137787677315945517, 7147723472165604099,
    7157655558937233066, 7167583940397538754, 7177508619310132158, 7187429598435533577,
    7197346880531177193, 7207260468351415690, 7217170364647524834, 7227076572167708050,
    7236979093657101009, 7246877931857776179, 7256773089508747392, 7266664569345974378,
    7276552374102367317, 7286436506507791357, 7296316969289071147, 7306193765169995349,
    7316066896871321137, 7325936367110778697, 7335802178603075714, 7345664334059901862,
    7355522836189933262, 7365377687698836953, 7375228891289275345, 7385076449660910674,
    7394920365510409424, 7404760641531446780, 7414597280414711027, 7424430284847907990,
    7434259657515765412, 7444085401100037378, 7453907518279508683, 7463726011729999237,
    7473540884124368418, 7483352138132519444, 7493159776421403740, 7502963801655025277,
    7512764216494444917, 7522561023597784744, 7532354225620232395, 7542143825214045380,
    7551929825028555380, 7561712227710172556, 7571491035902389848, 7581266252245787251,
    7591037879378036104, 7600805919933903346, 7610570376545255798, 7620331251841064397,
    7630088548447408457, 7639842268987479903, 7649592416081587508, 7659338992347161103,
    7669082000398755811, 7678821442848056242, 7688557322303880695, 7698289641372185356,
    7708018402656068484, 7717743608755774576, 7727465262268698558, 7737183365789389921,
    7746897921909556902, 7756608933218070610, 7766316402300969183, 7776020331741461905,
    7785720724119933336, 7795417582013947432, 7805110907998251657, 7814800704644781071,
    7824486974522662439, 7834169720198218314, 7843848944234971106, 7853524649193647176,
    7863196837632180878, 7872865512105718633, 7882530675166622970, 7892192329364476568,
    7901850477246086303, 7911505121355487258, 7921156264233946759, 7930803908419968384,
    7940448056449295963, 7950088710854917584, 7959725874167069582, 7969359548913240528,
    7978989737618175196, 7988616442803878543, 7998239666989619668, 8007859412691935763,
    8017475682424636075, 8027088478698805829, 8036697804022810181, 8046303660902298127,
    8055906051840206440, 8065504979336763575, 8075100445889493570, 8084692453993219950,
    8094281006140069630, 8103866104819476778, 8113447752518186705, 8123025951720259743,
    8132600704907075091, 8142172014557334691, 8151739883147067063, 8161304313149631157,
    8170865307035720184, 8180422867273365451, 8189976996327940184, 8199527696662163329,
    8209074970736103384, 8218618821007182181, 8228159249930178696, 8237696259957232821,
    8247229853537849164, 8256760033118900811, 8266286801144633099, 8275810160056667377,
    8285330112294004757, 8294846660293029869, 8304359806487514594, 8313869553308621805,
    8323375903184909092, 8332878858542332482, 8342378421804250155, 8351874595391426157,
    8361367381722034088, 8370856783211660813, 8380342802273310133, 8389825441317406483,
    8399304702751798599, 8408780588981763179, 8418253102410008566, 8427722245436678376,
    8437188020459355173, 8446650429873064091, 8456109476070276483, 8465565161440913547,
];

/// Page 3 of the rounded-down `log2(1 + i / 2048)` in Q64.
pub const LOG2_LOWER_3: [u64; 256] = [
    8475017488372349944, 8484466459249417416, 8493912076454408409, 8503354342367079660,
    8512793259364655795, 8522228829821832939, 8531661056110782278, 8541089940601153648,
    8550515485660079108, 8559937693652176499, 8569356566939553018, 8578772107881808748,
    8588184318836040224, 8597593202156843967, 8606998760196320019, 8616400995304075463,
    8625799909827227960, 8635195506110409255, 8644587786495768683, 8653976753322976679,
    8663362408929228278, 8672744755649246594, 8682123795815286309, 8691499531757137165,
    8700871965802127413, 8710241100275127299, 8719606937498552510, 8728969479792367643,
    8738328729474089634, 8747684688858791222, 8757037360259104367, 8766386745985223681,
    8775732848344909871, 8785075669643493128, 8794415212183876567, 8803751478266539608,
    8813084470189541394, 8822414190248524179, 8831740640736716712, 8841063823944937620,
    8850383742161598797, 8859700397672708753, 8869013792761875991, 8878323929710312369,
    8887630810796836442, 8896934438297876812, 8906234814487475474, 8915531941637291150,
    8924825822016602611, 8934116457892312004, 8943403851528948170, 8952688005188669968,
    8961968921131269551, 8971246601614175701, 8980521048892457097, 8989792265218825615,
    8999060252843639617, 9008325014014907212, 9017586550978289546, 9026844865977104046,
    9036099961252327704, 9045351839042600319, 9054600501584227742, 9063845951111185133,
    9073088189855120183, 9082327220045356353, 9091563043908896110, 9100795663670424128,
    9110025081552310518, 9119251299774614039, 9128474320555085287, 9137694146109169907,
    9146910778650011787, 9156124220388456235, 9165334473533053167, 9174541540290060287,
    9183745422863446249, 9192946123454893830, 9202143644263803089, 9211337987487294519,
    9220529155320212196, 9229717149955126927, 9238901973582339380, 9248083628389883229,
    9257262116563528267, 9266437440286783542, 9275609601740900463, 9284778603104875916,
    9293944446555455375, 9303107134267135988, 9312266668412169687, 9321423051160566272,
    9330576284680096493, 9339726371136295138, 9348873312692464090, 9358017111509675417,
    9367157769746774426, 9376295289560382714, 9385429673104901229, 9394560922532513318,
    9403689039993187770, 9412814027634681849, 9421935887602544325, 9431054622040118508,
    9440170233088545266, 9449282722886766039, 9458392093571525851, 9467498347277376323,
    9476601486136678666, 9485701512279606682, 9494798427834149745, 9503892234926115806,
    9512982935679134353, 9522070532214659399, 9531155026651972449, 9540236421108185469,
    9549314717698243832, 9558389918534929293, 9567462025728862931, 9576531041388508083,
    9585596967620173311, 9594659806528015304, 9603719560214041835, 9612776230778114675,
    9621829820317952510, 9630880330929133862, 9639927764705100005, 9648972123737157857,
    9658013410114482881, 9667051625924121999, 9676086773250996461, 9685118854177904741,
    9694147870785525418, 9703173825152420049, 9712196719355036043, 9721216555467709521,
    9730233335562668188, 9739247061710034175, 9748257735977826904, 9757265360431965932,
    9766269937136273787, 9775271468152478806, 9784269955540217972, 9793265401357039744,
    9802257807658406871, 9811247176497699215, 9820233509926216562, 9829216809993181438,
    9838197078745741901, 9847174318228974353, 9856148530485886317, 9865119717557419249,
    9874087881482451305, 9883053024297800123, 9892015148038225614, 9900974254736432714,
    9909930346423074157, 9918883425126753246, 9927833492874026590, 9936780551689406880,
    9945724603595365614, 9954665650612335858, 9963603694758714972, 9972538738050867355,
    9981470782503127159, 9990399830127801035, 9999325882935170830, 10008248942933496321,
    10017169012129017914, 10026086092525959358, 10035000186126530442, 10043911294930929693,
    10052819420937347078, 10061724566141966680, 10070626732538969379, 10079525922120535555,
    10088422136876847731, 10097315378796093270, 10106205649864467029, 10115092952066174019,
    10123977287383432065, 10132858657796474458, 10141737065283552613, 10150612511820938692,
    10159484999382928263, 10168354529941842925, 10177221105468032940, 10186084727929879860,
    10194945399293799148, 10203803121524242807, 10212657896583701968, 10221509726432709522,
    10230358613029842716, 10239204558331725748, 10248047564293032379, 10256887632866488500,
    10265724766002874741, 10274558965651029047, 10283390233757849254, 10292218572268295657,
    10301043983125393601, 10309866468270236026, 10318686029641986035, 10327502669177879459,
    10336316388813227400, 10345127190481418780, 10353935076113922898, 10362740047640291955,
    10371542106988163600, 10380341256083263457, 10389137496849407658, 10397930831208505363,
    10406721261080561278, 10415508788383678174, 10424293415034059398, 10433075142946011374,
    10441853974031946120, 10450629910202383728, 10459402953365954876, 10468173105429403303,
    10476940368297588314, 10485704743873487241, 10494466234058197941, 10503224840750941253,
    10511980565849063486, 10520733411248038865, 10529483378841472016, 10538230470521100399,
    10546974688176796784, 10555716033696571684, 10564454508966575815, 10573190115871102530,
    10581922856292590257, 10590652732111624934, 10599379745206942436, 10608103897455431007,
    10616825190732133684, 10625543626910250699, 10634259207861141913, 10642971935454329214,
    10651681811557498922, 10660388838036504199, 10669093016755367443, 10677794349576282685,
    10686492838359617971, 10695188484963917761, 10703881291245905301, 10712571259060485008,
    10721258390260744846, 10729942686697958684, 10738624150221588683, 10747302782679287647,
    10755978585916901377, 10764651561778471048, 10773321712106235530, 10781989038740633767,
];

/// Page 4 of the rounded-down `log2(1 + i / 2048)` in Q64.
pub const LOG2_LOWER_4: [u64; 256] = [
    10790653543520307101, 10799315228282101617, 10807974094861070479, 10816630145090476271,
    10825283380801793309, 10833933803824709986, 10842581415987131076, 10851226219115180061,
    10859868215033201444, 10868507405563763054, 10877143792527658358, 10885777377743908760,
    10894408163029765906, 10903036150200713965, 10911661341070471935, 10920283737450995927,
    10928903341152481437, 10937520153983365652, 10946134177750329692, 10954745414258300918,
    10963353865310455172, 10971959532708219062, 10980562418251272214, 10989162523737549537,
    10997759850963243470, 11006354401722806233, 11014946177808952086, 11023535181012659559,
    11032121413123173697, 11040704875928008299, 11049285571212948146, 11057863500762051240,
    11066438666357651009, 11075011069780358554, 11083580712809064850, 11092147597220942970,
    11100711724791450289, 11109273097294330698, 11117831716501616806, 11126387584183632141,
    11134940702108993346, 11143491072044612371, 11152038695755698666, 11160583575005761371,
    11169125711556611490, 11177665107168364078, 11186201763599440415, 11194735682606570177,
    11203266865944793600, 11211795315367463661, 11220321032626248230, 11228844019471132221,
    11237364277650419765, 11245881808910736346, 11254396614997030963, 11262908697652578256,
    11271418058618980671, 11279924699636170579, 11288428622442412417, 11296929828774304829,
    11305428320366782775, 11313924098953119666, 11322417166264929491, 11330907524032168919,
    11339395173983139428, 11347880117844489408, 11356362357341216270, 11364841894196668552,
    11373318730132548019, 11381792866868911755, 11390264306124174266, 11398733049615109566,
    11407199099056853268, 11415662456162904659, 11424123122645128794, 11432581100213758561,
    11441036390577396762, 11449488995443018190, 11457938916515971683, 11466386155499982191,
    11474830714097152854, 11483272594007967032, 11491711796931290384, 11500148324564372907,
    11508582178602850988, 11517013360740749449, 11525441872670483578, 11533867716082861190,
    11542290892667084636, 11550711404110752859, 11559129252099863402, 11567544438318814448,
    11575956964450406837, 11584366832175846078, 11592774043174744383, 11601178599125122660,
    11609580501703412535, 11617979752584458351, 11626376353441519180, 11634770305946270817,
    11643161611768807770, 11651550272577645271, 11659936290039721254, 11668319665820398340,
    11676700401583465835, 11685078498991141696, 11693453959704074522, 11701826785381345519,
    11710196977680470478, 11718564538257401738, 11726929468766530158, 11735291770860687079,
    11743651446191146276, 11752008496407625926, 11760362923158290551, 11768714728089752975,
    11777063912847076265, 11785410479073775682, 11793754428411820619, 11802095762501636535,
    11810434482982106903, 11818770591490575123, 11827104089662846471, 11835434979133190004,
    11843763261534340503, 11852088938497500383, 11860412011652341604, 11868732482627007602,
    11877050353048115184, 11885365624540756442, 11893678298728500657, 11901988377233396210,
    11910295861675972462, 11918600753675241669, 11926903054848700860, 11935202766812333743,
    11943499891180612575, 11951794429566500066, 11960086383581451239, 11968375754835415321,
    11976662544936837617, 11984946755492661388, 11993228388108329706, 12001507444387787332,
    12009783925933482575, 12018057834346369166, 12026329171225908088, 12034597938170069463,
    12042864136775334381, 12051127768636696763, 12059388835347665202, 12067647338500264801,
    12075903279685039031, 12084156660491051553, 12092407482505888051, 12100655747315658087,
    12108901456504996902, 12117144611657067263, 12125385214353561273, 12133623266174702208,
    12141858768699246316, 12150091723504484649, 12158322132166244861, 12166549996258893032,
    12174775317355335467, 12182998097027020498, 12191218336843940292, 12199436038374632643,
    12207651203186182774, 12215863832844225126, 12224073928912945148, 12232281492955081086,
    12240486526531925773, 12248689031203328395, 12256889008527696289, 12265086460061996709,
    12273281387361758603, 12281473791981074378, 12289663675472601683, 12297851039387565154,
    12306035885275758193, 12314218214685544728, 12322398029163860957, 12330575330256217115,
    12338750119506699223, 12346922398457970834, 12355092168651274787, 12363259431626434945,
    12371424188921857932, 12379586442074534884, 12387746192620043175, 12395903442092548161,
    12404058192024804889, 12412210443948159855, 12420360199392552705, 12428507459886517966,
    12436652226957186772, 12444794502130288576, 12452934286930152858, 12461071582879710852,
    12469206391500497242, 12477338714312651885, 12485468552834921491, 12493595908584661351,
    12501720783077837017, 12509843177829026012, 12517963094351419511, 12526080534156824048,
    12534195498755663189, 12542307989656979228, 12550418008368434869, 12558525556396314905,
    12566630635245527898, 12574733246419607857, 12582833391420715910, 12590931071749641968,
    12599026288905806411, 12607119044387261731, 12615209339690694216, 12623297176311425593,
    12631382555743414707, 12639465479479259150, 12647545949010196945, 12655623965826108166,
    12663699531415516610, 12671772647265591437, 12679843314862148796, 12687911535689653497,
    12695977311231220615, 12704040642968617159, 12712101532382263676, 12720159980951235902,
    12728215990153266379, 12736269561464746092, 12744320696360726078, 12752369396314919059,
    12760415662799701054, 12768459497286113000, 12776500901243862357, 12784539876141324731,
    12792576423445545472, 12800610544622241292, 12808642241135801854, 12816671514449291388,
    12824698366024450280, 12832722797321696670, 12840744809800128056, 12848764404917522868,
    12856781584130342082, 12864796348893730779, 12872808700661519749, 12880818640886227072,
    12888826171019059691, 12896831292509914986, 12904834006807382366, 12912834315358744824,
];

/// Page 5 of the rounded-down `log2(1 + i / 2048)` in Q64.
pub const LOG2_LOWER_5: [u64; 256] = [
    12920832219609980518, 12928827721005764338, 12936820820989469463, 12944811521003168935,
    12952799822487637215, 12960785726882351750, 12968769235625494509, 12976750350153953556,
    12984729071903324603, 12992705402307912537, 13000679342800732999, 13008650894813513896,
    13016620059776696970, 13024586839119439322, 13032551234269614964, 13040513246653816328,
    13048472877697355838, 13056430128824267404, 13064385001457307972, 13072337497017959044,
    13080287616926428206, 13088235362601650641, 13096180735461290658, 13104123736921743207,
    13112064368398135385, 13120002631304327964, 13127938527052916886, 13135872057055234785,
    13143803222721352488, 13151732025460080505, 13159658466678970557, 13167582547784317055,
    13175504270181158602, 13183423635273279491, 13191340644463211193, 13199255299152233857,
    13207167600740377777, 13215077550626424909, 13222985150207910323, 13230890400881123706,
    13238793304041110833, 13246693861081675047, 13254592073395378730, 13262487942373544780,
    13270381469406258075, 13278272655882366955, 13286161503189484668, 13294048012713990854,
    13301932185841032999, 13309814023954527881, 13317693528437163056, 13325570700670398290,
    13333445542034467017, 13341318053908377799, 13349188237669915767, 13357056094695644064,
    13364921626360905307, 13372784834039823005, 13380645719105303021, 13388504282929034996,
    13396360526881493793, 13404214452331940931, 13412066060648426011, 13419915353197788144,
    13427762331345657397, 13435606996456456192, 13443449349893400751, 13451289393018502509,
    13459127127192569528, 13466962553775207925, 13474795674124823276, 13482626489598622044,
    13490455001552612972, 13498281211341608505, 13506105120319226192, 13513926729837890087,
    13521746041248832160, 13529563055902093696, 13537377775146526684, 13545190200329795227,
    13553000332798376922, 13560808173897564269, 13568613724971466049, 13576416987363008711,
    13584217962413937771, 13592016651464819185, 13599813055855040734, 13607607176922813406,
    13615399016005172772, 13623188574437980366, 13630975853555925054, 13638760854692524408,
    13646543579180126077, 13654324028349909158, 13662102203531885556, 13669878106054901349,
    13677651737246638157, 13685423098433614494, 13693192190941187133, 13700959016093552451,
    13708723575213747800, 13716485869623652848, 13724245900643990928, 13732003669594330389,
    13739759177793085952, 13747512426557520032, 13755263417203744106, 13763012151046720034,
    13770758629400261404, 13778502853577034879, 13786244824888561513, 13793984544645218092,
    13801722014156238471, 13809457234729714894, 13817190207672599324, 13824920934290704769,
    13832649415888706606, 13840375653770143895, 13848099649237420708, 13855821403591807437,
    13863540918133442118, 13871258194161331738, 13878973232973353555, 13886686035866256393,
    13894396604135661958, 13902104939076066156, 13909811041980840371, 13917514914142232791,
    13925216556851369692, 13932915971398256749, 13940613159071780320, 13948308121159708754,
    13956000858948693667, 13963691373724271250, 13971379666770863548, 13979065739371779749,
    13986749592809217469, 13994431228364264032, 14002110647316897768, 14009787850945989269,
    14017462840529302679, 14025135617343496973, 14032806182664127222, 14040474537765645879,
    14048140683921404033, 14055804622403652688, 14063466354483544029, 14071125881431132683,
    14078783204515376987, 14086438325004140247, 14094091244164191995, 14101741963261209252,
    14109390483559777776, 14117036806323393333, 14124680932814462925, 14132322864294306061,
    14139962602023155995, 14147600147260160976, 14155235501263385500, 14162868665289811532,
    14170499640595339777, 14178128428434790896, 14185755030061906756, 14193379446729351664,
    14201001679688713600, 14208621730190505448, 14216239599484166234, 14223855288818062349,
    14231468799439488777, 14239080132594670322, 14246689289528762830, 14254296271485854417,
    14261901079708966685, 14269503715440055937, 14277104179920014401, 14284702474388671442,
    14292298600084794778, 14299892558246091683, 14307484350109210208, 14315073976909740387,
    14322661439882215436, 14330246740260112971, 14337829879275856191, 14345410858160815103,
    14352989678145307709, 14360566340458601200, 14368140846328913163, 14375713196983412765,
    14383283393648221962, 14390851437548416664, 14398417329908027958, 14405981071950043263,
    14413542664896407536, 14421102109968024453, 14428659408384757595, 14436214561365431613,
    14443767570127833425, 14451318435888713390, 14458867159863786475, 14466413743267733447,
    14473958187314202019, 14481500493215808052, 14489040662184136700, 14496578695429743588,
    14504114594162155984, 14511648359589873949, 14519179992920371508, 14526709495360097816,
    14534236868114478309, 14541762112387915859, 14549285229383791947, 14556806220304467801,
    14564325086351285553, 14571841828724569399, 14579356448623626733, 14586868947246749314,
    14594379325791214391, 14601887585453285871, 14609393727428215445, 14616897752910243729,
    14624399663092601425, 14631899459167510434, 14639397142326185005, 14646892713758832871,
    14654386174654656381, 14661877526201853625, 14669366769587619582, 14676853905998147227,
    14684338936618628678, 14691821862633256303, 14699302685225223862, 14706781405576727619,
    14714258024868967463, 14721732544282148034, 14729204964995479828, 14736675288187180335,
    14744143515034475126, 14751609646713598986, 14759073684399797027, 14766535629267325781,
    14773995482489454322, 14781453245238465369, 14788908918685656389, 14796362504001340712,
    14803814002354848609, 14811263414914528426, 14818710742847747650, 14826155987320894035,
    14833599149499376671, 14841040230547627104, 14848479231629100410, 14855916153906276303,
    14863350998540660203, 14870783766692784349, 14878214459522208868, 14885643078187522866,
];

/// Page 6 of the rounded-down `log2(1 + i / 2048)` in Q64.
pub const LOG2_LOWER_6: [u64; 256] = [
    14893069623846345520, 14900494097655327143, 14907916500770150284, 14915336834345530787,
    14922755099535218892, 14930171297492000288, 14937585429367697210, 14944997496313169494,
    14952407499478315661, 14959815440012073975, 14967221319062423528, 14974625137776385297,
    14982026897300023208, 14989426598778445210, 14996824243355804324, 15004219832175299723,
    15011613366379177775, 15019004847108733107, 15026394275504309669, 15033781652705301780,
    15041166979850155184, 15048550258076368111, 15055931488520492316, 15063310672318134137,
    15070687810603955541, 15078062904511675166, 15085435955174069382, 15092806963722973308,
    15100175931289281888, 15107542859002950900, 15114907747992998020, 15122270599387503842,
    15129631414313612929, 15136990193897534840, 15144346939264545167, 15151701651538986568,
    15159054331844269791, 15166404981302874713, 15173753601036351365, 15181100192165320959,
    15188444755809476909, 15195787293087585859, 15203127805117488707, 15210466293016101623,
    15217802757899417069, 15225137200882504815, 15232469623079512967, 15239800025603668967,
    15247128409567280617, 15254454776081737084, 15261779126257509927, 15269101461204154089,
    15276421782030308907, 15283740089843699140, 15291056385751135945, 15298370670858517904,
    15305682946270832018, 15312993213092154708, 15320301472425652815, 15327607725373584604,
    15334911973037300755, 15342214216517245365, 15349514456912956938, 15356812695323069381,
    15364108932845312995, 15371403170576515468, 15378695409612602858, 15385985651048600589,
    15393273895978634431, 15400560145495931492, 15407844400692821194, 15415126662660736258,
    15422406932490213696, 15429685211270895767, 15436961500091530987, 15444235800039975073,
    15451508112203191946, 15458778437667254691, 15466046777517346533, 15473313132837761814,
    15480577504711906952, 15487839894222301424, 15495100302450578724, 15502358730477487334,
    15509615179382891686, 15516869650245773135, 15524122144144230903, 15531372662155483062,
    15538621205355867480, 15545867774820842785, 15553112371624989321, 15560354996842010102,
    15567595651544731768, 15574834336805105549, 15582071053694208193, 15589305803282242945,
    15596538586638540473, 15603769404831559833, 15610998258928889409, 15618225149997247853,
    15625450079102485042, 15632673047309583010, 15639894055682656905, 15647113105284955905,
    15654330197178864179, 15661545332425901824, 15668758512086725780, 15675969737221130797,
    15683179008888050342, 15690386328145557550, 15697591696050866146, 15704795113660331380,
    15711996582029450953, 15719196102212865948, 15726393675264361757, 15733589302236869002,
    15740782984182464464, 15747974722152372001, 15755164517196963474, 15762352370365759673,
    15769538282707431218, 15776722255269799494, 15783904289099837564, 15791084385243671081,
    15798262544746579202, 15805438768652995506, 15812613058006508897, 15819785413849864527,
    15826955837224964695, 15834124329172869762, 15841290890733799046, 15848455522947131750,
    15855618226851407842, 15862779003484328970, 15869937853882759369, 15877094779082726748,
    15884249780119423207, 15891402858027206116, 15898554013839599028, 15905703248589292566,
    15912850563308145322, 15919995959027184754, 15927139436776608063, 15934280997585783105,
    15941420642483249270, 15948558372496718363, 15955694188653075506, 15962828091978380023,
    15969960083497866316, 15977090164235944755, 15984218335216202555, 15991344597461404674,
    15998468951993494668, 16005591399833595595, 16012711942002010880, 16019830579518225192,
    16026947313400905324, 16034062144667901063, 16041175074336246072, 16048286103422158747,
    16055395232941043109, 16062502463907489657, 16069607797335276241, 16076711234237368930,
    16083812775625922890, 16090912422512283221, 16098010175906985858, 16105106036819758401,
    16112200006259520997, 16119292085234387191, 16126382274751664800, 16133470575817856744,
    16140556989438661930, 16147641516618976096, 16154724158362892671, 16161804915673703621,
    16168883789553900308, 16175960781005174342, 16183035891028418429, 16190109120623727218,
    16197180470790398158, 16204249942526932334, 16211317536831035323, 16218383254699618025,
    16225447097128797529, 16232509065113897931, 16239569159649451193, 16246627381729197976,
    16253683732346088481, 16260738212492283280, 16267790823159154168, 16274841565337284992,
    16281890440016472474, 16288937448185727059, 16295982590833273754, 16303025868946552933,
    16310067283512221193, 16317106835516152170, 16324144525943437377, 16331180355778387017,
    16338214326004530823, 16345246437604618870, 16352276691560622417, 16359305088853734708,
    16366331630464371809, 16373356317372173425, 16380379150556003712, 16387400130993952110,
    16394419259663334148, 16401436537540692261, 16408451965601796614, 16415465544821645907,
    16422477276174468195, 16429487160633721691, 16436495199172095590, 16443501392761510861,
    16450505742373121078, 16457508248977313208, 16464508913543708424, 16471507737041162915,
    16478504720437768689, 16485499864700854376, 16492493170796986019, 16499484639691967898,
    16506474272350843310, 16513462069737895379, 16520448032816647852, 16527432162549865893,
    16534414459899556882, 16541394925826971211, 16548373561292603079, 16555350367256191277,
    16562325344676719988, 16569298494512419574, 16576269817720767371, 16583239315258488472,
    16590206988081556514, 16597172837145194473, 16604136863403875436, 16611099067811323407,
    16618059451320514064, 16625018014883675563, 16631974759452289313, 16638929685977090750,
    16645882795408070128, 16652834088694473287, 16659783566784802438, 16666731230626816935,
    16673677081167534056, 16680621119353229770, 16687563346129439513, 16694503762440958972,
    16701442369231844830, 16708379167445415570, 16715314158024252213, 16722247341910199108,
];

/// Page 7 of the rounded-down `log2(1 + i / 2048)` in Q64.
pub const LOG2_LOWER_7: [u64; 256] = [
    16729178720044364694, 16736108293367122261, 16743036062818110717, 16749962029336235363,
    16756886193859668638, 16763808557325850901, 16770729120671491178, 16777647884832567924,
    16784564850744329798, 16791480019341296398, 16798393391557259036, 16805304968325281486,
    16812214750577700748, 16819122739246127789, 16826028935261448313, 16832933339553823498,
    16839835953052690760, 16846736776686764499, 16853635811384036842, 16860533058071778405,
    16867428517676539033, 16874322191124148543, 16881214079339717481, 16888104183247637858,
    16894992503771583891, 16901879041834512764, 16908763798358665344, 16915646774265566946,
    16922527970476028053, 16929407387910145073, 16936285027487301062, 16943160890126166474,
    16950034976744699888, 16956907288260148745, 16963777825589050088, 16970646589647231290,
    16977513581349810786, 16984378801611198804, 16991242251345098109, 16998103931464504710,
    17004963842881708601, 17011821986508294497, 17018678363255142541, 17025532974032429052,
    17032385819749627225, 17039236901315507881, 17046086219638140172, 17052933775624892309,
    17059779570182432284, 17066623604216728589, 17073465878633050938, 17080306394335970978,
    17087145152229363022, 17093982153216404740, 17100817398199577904, 17107650888080669083,
    17114482623760770364, 17121312606140280060, 17128140836118903429, 17134967314595653382,
    17141792042468851192, 17148615020636127206, 17155436249994421548, 17162255731439984831,
    17169073465868378864, 17175889454174477357, 17182703697252466624, 17189516195995846287,
    17196326951297429979, 17203135964049346052, 17209943235143038264, 17216748765469266496,
    17223552555918107441, 17230354607378955305, 17237154920740522507, 17243953496890840368,
    17250750336717259815, 17257545441106452074, 17264338810944409364, 17271130447116445588,
    17277920350507197020, 17284708522000623016, 17291494962480006676, 17298279672827955562,
    17305062653926402368, 17311843906656605612, 17318623431899150326, 17325401230533948741,
    17332177303440240972, 17338951651496595701, 17345724275580910860, 17352495176570414318,
    17359264355341664563, 17366031812770551369, 17372797549732296494, 17379561567101454355,
    17386323865751912698, 17393084446556893283, 17399843310388952555, 17406600458119982324,
    17413355890621210446, 17420109608763201478, 17426861613415857366, 17433611905448418124,
    17440360485729462485, 17447107355126908583, 17453852514508014624, 17460595964739379554,
    17467337706686943725, 17474077741215989561, 17480816069191142231, 17487552691476370300,
    17494287608934986415, 17501020822429647948, 17507752332822357676, 17514482140974464429,
    17521210247746663763, 17527936653998998608, 17534661360590859941, 17541384368380987436,
    17548105678227470127, 17554825290987747058, 17561543207518607947, 17568259428676193840,
    17574973955315997756, 17581686788292865363, 17588397928460995604, 17595107376673941365,
    17601815133784610125, 17608521200645264610, 17615225578107523427, 17621928267022361731,
    17628629268240111866, 17635328582610464007, 17642026210982466811, 17648722154204528071,
    17655416413124415344, 17662108988589256605, 17668799881445540900, 17675489092539118959,
    17682176622715203869, 17688862472818371698, 17695546643692562140, 17702229136181079153,
    17708909951126591592, 17715589089371133858, 17722266551756106524, 17728942339122276982,
    17735616452309780066, 17742288892158118692, 17748959659506164495, 17755628755192158459,
    17762296180053711543, 17768961934927805319, 17775626020650792608, 17782288438058398096,
    17788949187985718972, 17795608271267225551, 17802265688736761906, 17808921441227546493,
    17815575529572172777, 17822227954602609850, 17828878717150203068, 17835527818045674661,
    17842175258119124370, 17848821038200030054, 17855465159117248322, 17862107621699015144,
    17868748426772946479, 17875387575166038893, 17882025067704670170, 17888660905214599931,
    17895295088520970261, 17901927618448306308, 17908558495820516914, 17915187721460895210,
    17921815296192119255, 17928441220836252621, 17935065496214745025, 17941688123148432934,
    17948309102457540171, 17954928434961678524, 17961546121479848370, 17968162162830439263,
    17974776559831230548, 17981389313299391974, 17988000424051484298, 17994609892903459878,
    18001217720670663290, 18007823908167831935, 18014428456209096624, 18021031365607982196,
    18027632637177408111, 18034232271729689056, 18040830270076535539, 18047426633029054494,
    18054021361397749877, 18060614455992523255, 18067205917622674418, 18073795747096901967,
    18080383945223303908, 18086970512809378252, 18093555450662023595, 18100138759587539735,
    18106720440391628242, 18113300493879393060, 18119878920855341098, 18126455722123382819,
    18133030898486832825, 18139604450748410457, 18146176379710240367, 18152746686173853116,
    18159315370940185767, 18165882434809582450, 18172447878581794967, 18179011703055983366,
    18185573909030716526, 18192134497303972751, 18198693468673140327, 18205250823935018132,
    18211806563885816195, 18218360689321156294, 18224913201036072514, 18231464099825011852,
    18238013386481834770, 18244561061799815788, 18251107126571644051, 18257651581589423918,
    18264194427644675520, 18270735665528335346, 18277275296030756816, 18283813319941710844,
    18290349738050386427, 18296884551145391199, 18303417760014752018, 18309949365445915524,
    18316479368225748710, 18323007769140539500, 18329534568975997304, 18336059768517253600,
    18342583368548862481, 18349105369854801249, 18355625773218470946, 18362144579422696950,
    18368661789249729522, 18375177403481244365, 18381691422898343208, 18388203848281554341,
    18394714680410833196, 18401223920065562900, 18407731568024554838, 18414237625066049199,
    18420742091967715559, 18427244969506653413, 18433746258459392755, 18440245959601894610,
];

/// Page 0 of the rounded-up `log2(1 + i / 2048)` in Q64.
pub const LOG2_UPPER_0: [u64; 256] = [
    0, 12991470209511304, 25976601570169170, 38955400264708769,
    51927872466823975, 64894024341184999, 77853862043455953, 90807391720312392,
    103754619509458808, 116695551539646064, 129630193930688826, 142558552793482907,
    155480634230022594, 168396444333417932, 181305989187911961, 194209274868897916,
    207106307442936369, 219997092967772363, 232881637492352461, 245759947056841793,
    258632027692641049, 271497885422403405, 284357526260051453, 297210956210794062,
    310058181271143188, 322899207428930689, 335734040663325043, 348562686944848064,
    361385152235391568, 374201442488233991, 387011563648056981, 399815521650961933,
    412613322424486499, 425404971887621056, 438190475950825123, 450969840516043746,
    463743071476723862, 476510174717830584, 489271156115863479, 502026021538872801,
    514774776846475674, 527517427889872253, 540253980511861819, 552984440546858877,
    565708813820909172, 578427106151705699, 591139323348604654, 603845471212641369,
    616545555536546170, 629239582104760250, 641927556693451460, 654609485070530088,
    667285372995664583, 679955226220297255, 692619050487659931, 705276851532789581,
    717928635082543890, 730574406855616814, 743214172562554089, 755847937905768695,
    768475708579556304, 781097490270110666, 793713288655538980, 806323109405877224,
    818926958183105434, 831524840641162969, 844116762425963716, 856702729175411288,
    869282746519414154, 881856820079900760, 894424955470834598, 906987158298229247,
    919543434160163378, 932093788646795717, 944638227340379978, 957176755815279773,
    969709379637983454, 982236104367118953, 994756935553468581, 1007271878739983772,
    1019780939461799805, 1032284123246250509, 1044781435612882906, 1057272882073471826,
    1069758468132034507, 1082238199284845128, 1094712081020449342, 1107180118819678753,
    1119642318155665364, 1132098684493855989, 1144549223292026642, 1156993940000296887,
    1169432840061144138, 1181865928909417958, 1194293211972354290, 1206714694669589684,
    1219130382413175478, 1231540280607591933, 1243944394649762363, 1256342729929067214,
    1268735291827358101, 1281122085718971849, 1293503116970744452, 1305878390942025044,
    1318247912984689804, 1330611688443155854, 1342969722654395111, 1355322020947948100,
    1367668588645937761, 1380009431063083198, 1392344553506713397, 1404673961276780946,
    1416997659665875674, 1429315653959238291, 1441627949434773989, 1453934551363066012,
    1466235465007389191, 1478530695623723450, 1490820248460767280, 1503104128759951187,
    1515382341755451095, 1527654892674201740, 1539921786735910014, 1552183029153068288,
    1564438625130967689, 1576688579867711382, 1588932898554227783, 1601171586374283757,
    1613404648504497791, 1625632090114353126, 1637853916366210868, 1650070132415323065,
    1662280743409845758, 1674485754490851987, 1686685170792344787, 1698878997441270142,
    1711067239557529920, 1723249902253994759, 1735426990636516950, 1747598509803943264,
    1759764464848127768, 1771924860853944609, 1784079702899300759, 1796228996055148737,
    1808372745385499313, 1820510955947434159, 1832643632791118496, 1844770780959813690,
    1856892405489889844, 1869008511410838335, 1881119103745284339, 1893224187508999322,
    1905323767710913517, 1917417849353128338, 1929506437430928801, 1941589536932795907,
    1953667152840418980, 1965739290128708000, 1977805953765805899, 1989867148713100822,
    2001922879925238374, 2013973152350133821, 2026017970928984290, 2038057340596280911,
    2050091266279820955, 2062119752900719936, 2074142805373423678, 2086160428605720375,
    2098172627498752590, 2110179406947029278, 2122180771838437726, 2134176727054255500,
    2146167277469162362, 2158152427951252153, 2170132183362044649, 2182106548556497395,
    2194075528383017503, 2206039127683473444, 2217997351293206795, 2229950204041043957,
    2241897690749307863, 2253839816233829651, 2265776585303960304, 2277708002762582282,
    2289634073406121105, 2301554802024556936, 2313470193401436109, 2325380252313882653,
    2337284983532609789, 2349184391821931384, 2361078481939773405, 2372967258637685322,
    2384850726660851501, 2396728890748102572, 2408601755631926756, 2420469326038481196,
    2432331606687603222, 2444188602292821642, 2456040317561367949, 2467886757194187556,
    2479727925885950977, 2491563828325064985, 2503394469193683757, 2515219853167719983,
    2527039984916855959, 2538854869104554642, 2550664510388070701, 2562468913418461522,
    2574268082840598206, 2586062023293176532, 2597850739408727896, 2609634235813630235,
    2621412517128118910, 2633185587966297593, 2644953452936149094, 2656716116639546190,
    2668473583672262428, 2680225858623982890, 2691972946078314946, 2703714850612798978,
    2715451576798919091, 2727183129202113781, 2738909512381786598, 2750630730891316772,
    2762346789278069825, 2774057692083408158, 2785763443842701613, 2797464049085338000,
    2809159512334733633, 2820849838108343805, 2832535030917673265, 2844215095268286664,
    2855890035659818979, 2867559856585985904, 2879224562534594249, 2890884157987552274,
    2902538647420880032, 2914188035304719678, 2925832326103345750, 2937471524275175444,
    2949105634272778851, 2960734660542889175, 2972358607526412933, 2983977479658440130,
    2995591281368254412, 3007200017079343201, 3018803691209407796, 3030402308170373464,
    3041995872368399508, 3053584388203889306, 3065167860071500336, 3076746292360154171,
    3088319689453046457, 3099888055727656871, 3111451395555759055, 3123009713303430533,
];

/// Page 1 of the rounded-up `log2(1 + i / 2048)` in Q64.
pub const LOG2_UPPER_1: [u64; 256] = [
    3134563013331062592, 3146111299993370163, 3157654577639401656, 3169192850612548802,
    3180726123250556451, 3192254399885532355, 3203777684843956935, 3215295982446693022,
    3226809297008995579, 3238317632840521399, 3249820994245338781, 3261319385521937199,
    3272812810963236931, 3284301274856598673, 3295784781483833149, 3307263335121210662,
    3318736940039470679, 3330205600503831332, 3341669320773998960, 3353128105104177589,
    3364581957743078399, 3376030882933929188, 3387474884914483798, 3398913967917031521,
    3410348136168406502, 3421777393889997101, 3433201745297755251, 3444621194602205779,
    3456035746008455730, 3467445403716203645, 3478850171919748837, 3490250054808000649,
    3501645056564487677, 3513035181367366984, 3524420433389433289, 3535800816798128146,
    3547176335755549091, 3558546994418458782, 3569912796938294102, 3581273747461175258,
    3592629850127914861, 3603981109074026978, 3615327528429736162, 3626669112319986480,
    3638005864864450495, 3649337790177538266, 3660664892368406289, 3671987175540966447,
    3683304643793894921, 3694617301220641106, 3705925151909436490, 3717228199943303510,
    3728526449400064411, 3739819904352350058, 3751108568867608761, 3762392447008115049,
    3773671542830978455, 3784945860388152256, 3796215403726442213, 3807480176887515290,
    3818740183907908344, 3829995428819036804, 3841245915647203337, 3852491648413606482,
    3863732631134349283, 3874968867820447883, 3886200362477840129, 3897427119107394118,
    3908649141704916764, 3919866434261162328, 3931079000761840934, 3942286845187627062,
    3953489971514168026, 3964688383712092446, 3975882085747018683, 3987071081579563261,
    3998255375165349292, 4009434970455014843, 4020609871394221328, 4031780081923661856,
    4042945605979069571, 4054106447491225969, 4065262610385969202, 4076414098584202366,
    4087560916001901767, 4098703066550125175, 4109840554135020045, 4120973382657831756,
    4132101556014911791, 4143225078097725926, 4154343952792862397, 4165458183982040038,
    4176567775542116430, 4187672731345095997, 4198773055258138110, 4209868751143565175,
    4220959822858870675, 4232046274256727248, 4243128109184994682, 4254205331486727955,
    4265277945000185219, 4276345953558835779, 4287409360991368069, 4298468171121697574,
    4309522387768974791, 4320572014747593111, 4331617055867196744, 4342657514932688582,
    4353693395744238069, 4364724702097289053, 4375751437782567612, 4386773606586089875,
    4397791212289169808, 4408804258668427025, 4419812749495794525, 4430816688538526460,
    4441816079559205869, 4452810926315752395, 4463801232561429987, 4474787002044854586,
    4485768238510001810, 4496744945696214582, 4507717127338210807, 4518684787166090958,
    4529647928905345715, 4540606556276863542, 4551560672996938265, 4562510282777276642,
    4573455389325005897, 4584395996342681264, 4595332107528293491, 4606263726575276346,
    4617190857172514096, 4628113503004348982, 4639031667750588670, 4649945355086513686,
    4660854568682884845, 4671759312205950657, 4682659589317454714, 4693555403674643076,
    4704446758930271626, 4715333658732613423, 4726216106725466035, 4737094106548158850,
    4747967661835560383, 4758836776218085561, 4769701453321703002, 4780561696767942266,
    4791417510173901096, 4802268897152252656, 4813115861311252736, 4823958406254746956,
    4834796535582177941, 4845630252888592511, 4856459561764648804, 4867284465796623453,
    4878104968566418682, 4888921073651569430, 4899732784625250450, 4910540105056283391,
    4921343038509143853, 4932141588543968466, 4942935758716561905, 4953725552578403924,
    4964510973676656376, 4975292025554170198, 4986068711749492396, 4996841035796873017,
    5007609001226272104, 5018372611563366628, 5029131870329557427, 5039886781041976109,
    5050637347213491949, 5061383572352718783, 5072125459964021872, 5082863013547524757,
    5093596236599116109, 5104325132610456548, 5115049705068985465, 5125769957457927832,
    5136485893256300966, 5147197515938921325, 5157904828976411262, 5168607835835205770,
    5179306539977559218, 5190000944861552064, 5200691053941097573, 5211376870665948502,
    5222058398481703783, 5232735640829815181, 5243408601147593965, 5254077282868217524,
    5264741689420736012, 5275401824230078950, 5286057690717061833, 5296709292298392709,
    5307356632386678758, 5317999714390432853, 5328638541714080094, 5339273117757964363,
    5349903445918354829, 5360529529587452460, 5371151372153396523, 5381768977000271050,
    5392382347508111331, 5402991487052910348, 5413596399006625236, 5424197086737183696,
    5434793553608490431, 5445385802980433529, 5455973838208890879, 5466557662645736530,
    5477137279638847071, 5487712692532107979, 5498283904665419962, 5508850919374705285,
    5519413739991914092, 5529972369845030706, 5540526812258079919, 5551077070551133271,
    5561623148040315319, 5572165048037809893, 5582702773851866327, 5593236328786805699,
    5603765716143027047, 5614290939217013569, 5624812001301338809, 5635328905684672855,
    5645841655651788490, 5656350254483567362, 5666854705457006108, 5677355011845222511,
    5687851176917461592, 5698343203939101742, 5708831096171660798, 5719314856872802139,
    5729794489296340751, 5740269996692249287, 5750741382306664114, 5761208649381891350,
    5771671801156412887, 5782130840864892408, 5792585771738181375, 5803036597003325019,
    5813483319883568338, 5823925943598362030, 5834364471363368466, 5844798906390467624,
    5855229251887763031, 5865655511059587654, 5876077687106509838, 5886495783225339178,
    5896909802609132416, 5907319748447199303, 5917725623925108470, 5928127432224693262,
];

/// Page 2 of the rounded-up `log2(1 + i / 2048)` in Q64.
pub const LOG2_UPPER_2: [u64; 256] = [
    5938525176524057596, 5948918859997581761, 5959308485815928263, 5969694057146047603,
    5980075577151184078, 5990453048990881571, 6000826475820989298, 6011195860793667599,
    6021561207057393648, 6031922517756967223, 6042279796033516400, 6052633045024503294,
    6062982267863729741, 6073327467681343005, 6083668647603841443, 6094005810754080187,
    6104338960251276793, 6114668099211016898, 6124993230745259846, 6135314357962344323,
    6145631483966993965, 6155944611860322958, 6166253744739841647, 6176558885699462100,
    6186860037829503685, 6197157204216698641, 6207450387944197609, 6217739592091575187,
    6228024819734835444, 6238306073946417452, 6248583357795200781, 6258856674346511007,
    6269126026662125183, 6279391417800277329, 6289652850815663881, 6299910328759449161,
    6310163854679270807, 6320413431619245217, 6330659062619972960, 6340900750718544202,
    6351138498948544095, 6361372310340058170, 6371602187919677731, 6381828134710505207,
    6392050153732159527, 6402268248000781455, 6412482420529038951, 6422692674326132481,
    6432899012397800344, 6443101437746323977, 6453299953370533270, 6463494562265811826,
    6473685267424102267, 6483872071833911486, 6494054978480315915, 6504233990344966765,
    6514409110406095270, 6524580341638517912, 6534747687013641644, 6544911149499469094,
    6555070732060603763, 6565226437658255217, 6575378269250244268, 6585526229791008135,
    6595670322231605601, 6605810549519722176, 6615946914599675227, 6626079420412419104,
    6636208069895550269, 6646332865983312397, 6656453811606601483, 6666570909692970930,
    6676684163166636628, 6686793574948482025, 6696899147956063200, 6707000885103613897,
    6717098789302050578, 6727192863458977453, 6737283110478691507, 6747369533262187513,
    6757452134707163027, 6767530917708023399, 6777605885155886740, 6787677039938588916,
    6797744384940688504, 6807807923043471747, 6817867657124957510, 6827923590059902217,
    6837975724719804769, 6848024063972911478, 6858068610684220971, 6868109367715489093,
    6878146337925233800, 6888179524168740032, 6898208929298064600, 6908234556162041046,
    6918256407606284492, 6928274486473196497, 6938288795601969885, 6948299337828593572,
    6958306115985857398, 6968309132903356919, 6978308391407498221, 6988303894321502706,
    6998295644465411872, 7008283644656092099, 7018267897707239396, 7028248406429384169,
    7038225173629895968, 7048198202112988219, 7058167494679722957, 7068133054128015543,
    7078094883252639382, 7088052984845230617, 7098007361694292834, 7107958016585201731,
    7117904952300209813, 7127848171618451049, 7137787677315945521, 7147723472165604103,
    7157655558937233070, 7167583940397538758, 7177508619310132162, 7187429598435533582,
    7197346880531177197, 7207260468351415694, 7217170364647524838, 7227076572167708055,
    7236979093657101014, 7246877931857776183, 7256773089508747397, 7266664569345974383,
    7276552374102367321, 7286436506507791362, 7296316969289071151, 7306193765169995354,
    7316066896871321142, 7325936367110778702, 7335802178603075719, 7345664334059901867,
    7355522836189933266, 7365377687698836957, 7375228891289275350, 7385076449660910678,
    7394920365510409429, 7404760641531446784, 7414597280414711032, 7424430284847907995,
    7434259657515765417, 7444085401100037382, 7453907518279508688, 7463726011729999241,
    7473540884124368423, 7483352138132519448, 7493159776421403744, 7502963801655025282,
    7512764216494444921, 7522561023597784748, 7532354225620232400, 7542143825214045384,
    7551929825028555384, 7561712227710172560, 7571491035902389853, 7581266252245787256,
    7591037879378036108, 7600805919933903350, 7610570376545255803, 7620331251841064401,
    7630088548447408461, 7639842268987479908, 7649592416081587512, 7659338992347161107,
    7669082000398755815, 7678821442848056246, 7688557322303880699, 7698289641372185361,
    7708018402656068489, 7717743608755774581, 7727465262268698563, 7737183365789389925,
    7746897921909556906, 7756608933218070614, 7766316402300969187, 7776020331741461910,
    7785720724119933340, 7795417582013947437, 7805110907998251661, 7814800704644781075,
    7824486974522662443, 7834169720198218318, 7843848944234971110, 7853524649193647180,
    7863196837632180883, 7872865512105718637, 7882530675166622974, 7892192329364476573,
    7901850477246086307, 7911505121355487262, 7921156264233946763, 7930803908419968388,
    7940448056449295967, 7950088710854917588, 7959725874167069587, 7969359548913240533,
    7978989737618175201, 7988616442803878548, 7998239666989619673, 8007859412691935767,
    8017475682424636079, 8027088478698805833, 8036697804022810186, 8046303660902298132,
    8055906051840206444, 8065504979336763579, 8075100445889493574, 8084692453993219955,
    8094281006140069634, 8103866104819476783, 8113447752518186709, 8123025951720259747,
    8132600704907075095, 8142172014557334695, 8151739883147067068, 8161304313149631161,
    8170865307035720188, 8180422867273365456, 8189976996327940189, 8199527696662163333,
    8209074970736103389, 8218618821007182186, 8228159249930178701, 8237696259957232825,
    8247229853537849168, 8256760033118900815, 8266286801144633104, 8275810160056667382,
    8285330112294004761, 8294846660293029874, 8304359806487514598, 8313869553308621810,
    8323375903184909097, 8332878858542332487, 8342378421804250159, 8351874595391426161,
    8361367381722034092, 8370856783211660818, 8380342802273310137, 8389825441317406488,
    8399304702751798603, 8408780588981763183, 8418253102410008570, 8427722245436678381,
    8437188020459355177, 8446650429873064096, 8456109476070276488, 8465565161440913551,
];

/// Page 3 of the rounded-up `log2(1 + i / 2048)` in Q64.
pub const LOG2_UPPER_3: [u64; 256] = [
    8475017488372349948, 8484466459249417421, 8493912076454408414, 8503354342367079664,
    8512793259364655799, 8522228829821832944, 8531661056110782282, 8541089940601153652,
    8550515485660079112, 8559937693652176503, 8569356566939553023, 8578772107881808752,
    8588184318836040228, 8597593202156843972, 8606998760196320023, 8616400995304075468,
    8625799909827227965, 8635195506110409260, 8644587786495768687, 8653976753322976684,
    8663362408929228283, 8672744755649246598, 8682123795815286314, 8691499531757137169,
    8700871965802127417, 8710241100275127303, 8719606937498552515, 8728969479792367647,
    8738328729474089639, 8747684688858791226, 8757037360259104371, 8766386745985223686,
    8775732848344909875, 8785075669643493133, 8794415212183876572, 8803751478266539613,
    8813084470189541399, 8822414190248524183, 8831740640736716717, 8841063823944937625,
    8850383742161598801, 8859700397672708757, 8869013792761875996, 8878323929710312373,
    8887630810796836447, 8896934438297876817, 8906234814487475479, 8915531941637291155,
    8924825822016602615, 8934116457892312008, 8943403851528948175, 8952688005188669972,
    8961968921131269555, 8971246601614175705, 8980521048892457101, 8989792265218825619,
    8999060252843639622, 9008325014014907217, 9017586550978289550, 9026844865977104050,
    9036099961252327709, 9045351839042600324, 9054600501584227746, 9063845951111185138,
    9073088189855120188, 9082327220045356357, 9091563043908896115, 9100795663670424132,
    9110025081552310523, 9119251299774614043, 9128474320555085292, 9137694146109169912,
    9146910778650011792, 9156124220388456239, 9165334473533053172, 9174541540290060291,
    9183745422863446254, 9192946123454893835, 9202143644263803093, 9211337987487294524,
    9220529155320212200, 9229717149955126931, 9238901973582339385, 9248083628389883233,
    9257262116563528272, 9266437440286783547, 9275609601740900468, 9284778603104875921,
    9293944446555455379, 9303107134267135992, 9312266668412169692, 9321423051160566277,
    9330576284680096498, 9339726371136295143, 9348873312692464095, 9358017111509675422,
    9367157769746774431, 9376295289560382719, 9385429673104901233, 9394560922532513323,
    9403689039993187775, 9412814027634681854, 9421935887602544329, 9431054622040118513,
    9440170233088545270, 9449282722886766044, 9458392093571525856, 9467498347277376327,
    9476601486136678671, 9485701512279606686, 9494798427834149750, 9503892234926115810,
    9512982935679134358, 9522070532214659403, 9531155026651972454, 9540236421108185473,
    9549314717698243836, 9558389918534929297, 9567462025728862935, 9576531041388508088,
    9585596967620173315, 9594659806528015309, 9603719560214041840, 9612776230778114679,
    9621829820317952514, 9630880330929133867, 9639927764705100010, 9648972123737157862,
    9658013410114482885, 9667051625924122003, 9676086773250996466, 9685118854177904746,
    9694147870785525423, 9703173825152420054, 9712196719355036048, 9721216555467709525,
    9730233335562668192, 9739247061710034179, 9748257735977826909, 9757265360431965937,
    9766269937136273792, 9775271468152478811, 9784269955540217976, 9793265401357039749,
    9802257807658406876, 9811247176497699219, 9820233509926216567, 9829216809993181443,
    9838197078745741906, 9847174318228974357, 9856148530485886322, 9865119717557419254,
    9874087881482451309, 9883053024297800128, 9892015148038225618, 9900974254736432718,
    9909930346423074162, 9918883425126753250, 9927833492874026595, 9936780551689406884,
    9945724603595365619, 9954665650612335863, 9963603694758714977, 9972538738050867360,
    9981470782503127164, 9990399830127801040, 9999325882935170835, 10008248942933496325,
    10017169012129017919, 10026086092525959363, 10035000186126530447, 10043911294930929698,
    10052819420937347083, 10061724566141966685, 10070626732538969384, 10079525922120535560,
    10088422136876847736, 10097315378796093275, 10106205649864467034, 10115092952066174023,
    10123977287383432070, 10132858657796474463, 10141737065283552618, 10150612511820938697,
    10159484999382928268, 10168354529941842930, 10177221105468032944, 10186084727929879864,
    10194945399293799153, 10203803121524242811, 10212657896583701973, 10221509726432709526,
    10230358613029842720, 10239204558331725753, 10248047564293032383, 10256887632866488504,
    10265724766002874746, 10274558965651029052, 10283390233757849258, 10292218572268295662,
    10301043983125393605, 10309866468270236031, 10318686029641986039, 10327502669177879464,
    10336316388813227404, 10345127190481418784, 10353935076113922902, 10362740047640291959,
    10371542106988163605, 10380341256083263462, 10389137496849407663, 10397930831208505368,
    10406721261080561283, 10415508788383678178, 10424293415034059402, 10433075142946011379,
    10441853974031946124, 10450629910202383733, 10459402953365954881, 10468173105429403308,
    10476940368297588319, 10485704743873487246, 10494466234058197946, 10503224840750941258,
    10511980565849063490, 10520733411248038870, 10529483378841472020, 10538230470521100403,
    10546974688176796788, 10555716033696571689, 10564454508966575820, 10573190115871102535,
    10581922856292590261, 10590652732111624939, 10599379745206942441, 10608103897455431011,
    10616825190732133689, 10625543626910250704, 10634259207861141918, 10642971935454329219,
    10651681811557498926, 10660388838036504204, 10669093016755367447, 10677794349576282690,
    10686492838359617975, 10695188484963917766, 10703881291245905305, 10712571259060485013,
    10721258390260744850, 10729942686697958689, 10738624150221588688, 10747302782679287652,
    10755978585916901382, 10764651561778471053, 10773321712106235534, 10781989038740633771,
];

/// Page 4 of the rounded-up `log2(1 + i / 2048)` in Q64.
pub const LOG2_UPPER_4: [u64; 256] = [
    10790653543520307106, 10799315228282101622, 10807974094861070484, 10816630145090476275,
    10825283380801793314, 10833933803824709991, 10842581415987131080, 10851226219115180066,
    10859868215033201449, 10868507405563763059, 10877143792527658363, 10885777377743908765,
    10894408163029765910, 10903036150200713969, 10911661341070471940, 10920283737450995932,
    10928903341152481442, 10937520153983365656, 10946134177750329697, 10954745414258300922,
    10963353865310455177, 10971959532708219067, 10980562418251272218, 10989162523737549542,
    10997759850963243474, 11006354401722806238, 11014946177808952091, 11023535181012659563,
    11032121413123173702, 11040704875928008303, 11049285571212948151, 11057863500762051244,
    11066438666357651013, 11075011069780358559, 11083580712809064855, 11092147597220942975,
    11100711724791450293, 11109273097294330703, 11117831716501616811, 11126387584183632146,
    11134940702108993351, 11143491072044612375, 11152038695755698670, 11160583575005761376,
    11169125711556611495, 11177665107168364083, 11186201763599440420, 11194735682606570182,
    11203266865944793605, 11211795315367463666, 11220321032626248235, 11228844019471132226,
    11237364277650419769, 11245881808910736351, 11254396614997030968, 11262908697652578260,
    11271418058618980676, 11279924699636170584, 11288428622442412422, 11296929828774304834,
    11305428320366782780, 11313924098953119671, 11322417166264929496, 11330907524032168924,
    11339395173983139433, 11347880117844489412, 11356362357341216275, 11364841894196668557,
    11373318730132548024, 11381792866868911760, 11390264306124174270, 11398733049615109570,
    11407199099056853272, 11415662456162904664, 11424123122645128799, 11432581100213758566,
    11441036390577396767, 11449488995443018195, 11457938916515971688, 11466386155499982195,
    11474830714097152858, 11483272594007967036, 11491711796931290389, 11500148324564372912,
    11508582178602850993, 11517013360740749453, 11525441872670483583, 11533867716082861195,
    11542290892667084640, 11550711404110752864, 11559129252099863407, 11567544438318814453,
    11575956964450406842, 11584366832175846083, 11592774043174744388, 11601178599125122665,
    11609580501703412540, 11617979752584458356, 11626376353441519185, 11634770305946270822,
    11643161611768807775, 11651550272577645276, 11659936290039721259, 11668319665820398344,
    11676700401583465839, 11685078498991141701, 11693453959704074527, 11701826785381345524,
    11710196977680470483, 11718564538257401743, 11726929468766530163, 11735291770860687083,
    11743651446191146281, 11752008496407625931, 11760362923158290556, 11768714728089752980,
    11777063912847076270, 11785410479073775687, 11793754428411820624, 11802095762501636540,
    11810434482982106908, 11818770591490575128, 11827104089662846476, 11835434979133190009,
    11843763261534340508, 11852088938497500387, 11860412011652341609, 11868732482627007606,
    11877050353048115189, 11885365624540756447, 11893678298728500662, 11901988377233396215,
    11910295861675972467, 11918600753675241673, 11926903054848700865, 11935202766812333747,
    11943499891180612580, 11951794429566500071, 11960086383581451244, 11968375754835415326,
    11976662544936837622, 11984946755492661393, 11993228388108329711, 12001507444387787337,
    12009783925933482580, 12018057834346369171, 12026329171225908093, 12034597938170069468,
    12042864136775334386, 12051127768636696768, 12059388835347665207, 12067647338500264806,
    12075903279685039036, 12084156660491051557, 12092407482505888056, 12100655747315658091,
    12108901456504996907, 12117144611657067268, 12125385214353561278, 12133623266174702213,
    12141858768699246321, 12150091723504484654, 12158322132166244866, 12166549996258893037,
    12174775317355335472, 12182998097027020503, 12191218336843940297, 12199436038374632648,
    12207651203186182779, 12215863832844225131, 12224073928912945153, 12232281492955081091,
    12240486526531925778, 12248689031203328400, 12256889008527696294, 12265086460061996714,
    12273281387361758607, 12281473791981074383, 12289663675472601688, 12297851039387565159,
    12306035885275758198, 12314218214685544732, 12322398029163860961, 12330575330256217120,
    12338750119506699228, 12346922398457970839, 12355092168651274792, 12363259431626434949,
    12371424188921857937, 12379586442074534888, 12387746192620043180, 12395903442092548166,
    12404058192024804894, 12412210443948159860, 12420360199392552709, 12428507459886517971,
    12436652226957186777, 12444794502130288581, 12452934286930152863, 12461071582879710856,
    12469206391500497247, 12477338714312651889, 12485468552834921496, 12493595908584661355,
    12501720783077837022, 12509843177829026017, 12517963094351419516, 12526080534156824053,
    12534195498755663194, 12542307989656979233, 12550418008368434873, 12558525556396314910,
    12566630635245527902, 12574733246419607862, 12582833391420715915, 12590931071749641973,
    12599026288905806416, 12607119044387261736, 12615209339690694221, 12623297176311425598,
    12631382555743414712, 12639465479479259155, 12647545949010196949, 12655623965826108171,
    12663699531415516615, 12671772647265591441, 12679843314862148801, 12687911535689653502,
    12695977311231220620, 12704040642968617164, 12712101532382263681, 12720159980951235907,
    12728215990153266384, 12736269561464746096, 12744320696360726083, 12752369396314919064,
    12760415662799701059, 12768459497286113005, 12776500901243862361, 12784539876141324735,
    12792576423445545477, 12800610544622241297, 12808642241135801859, 12816671514449291392,
    12824698366024450285, 12832722797321696675, 12840744809800128061, 12848764404917522873,
    12856781584130342087, 12864796348893730784, 12872808700661519753, 12880818640886227077,
    12888826171019059695, 12896831292509914991, 12904834006807382371, 12912834315358744829,
];

/// Page 5 of the rounded-up `log2(1 + i / 2048)` in Q64.
pub const LOG2_UPPER_5: [u64; 256] = [
    12920832219609980523, 12928827721005764343, 12936820820989469467, 12944811521003168940,
    12952799822487637220, 12960785726882351754, 12968769235625494513, 12976750350153953561,
    12984729071903324608, 12992705402307912542, 13000679342800733003, 13008650894813513901,
    13016620059776696974, 13024586839119439327, 13032551234269614969, 13040513246653816333,
    13048472877697355842, 13056430128824267409, 13064385001457307977, 13072337497017959049,
    13080287616926428211, 13088235362601650646, 13096180735461290663, 13104123736921743212,
    13112064368398135390, 13120002631304327969, 13127938527052916891, 13135872057055234790,
    13143803222721352493, 13151732025460080510, 13159658466678970562, 13167582547784317060,
    13175504270181158606, 13183423635273279496, 13191340644463211198, 13199255299152233862,
    13207167600740377782, 13215077550626424914, 13222985150207910327, 13230890400881123710,
    13238793304041110838, 13246693861081675052, 13254592073395378734, 13262487942373544785,
    13270381469406258080, 13278272655882366959, 13286161503189484673, 13294048012713990859,
    13301932185841033004, 13309814023954527886, 13317693528437163061, 13325570700670398295,
    13333445542034467022, 13341318053908377803, 13349188237669915772, 13357056094695644069,
    13364921626360905312, 13372784834039823010, 13380645719105303025, 13388504282929035001,
    13396360526881493798, 13404214452331940936, 13412066060648426016, 13419915353197788149,
    13427762331345657402, 13435606996456456197, 13443449349893400756, 13451289393018502514,
    13459127127192569533, 13466962553775207930, 13474795674124823281, 13482626489598622049,
    13490455001552612977, 13498281211341608510, 13506105120319226197, 13513926729837890092,
    13521746041248832165, 13529563055902093701, 13537377775146526689, 13545190200329795231,
    13553000332798376927, 13560808173897564274, 13568613724971466054, 13576416987363008716,
    13584217962413937776, 13592016651464819190, 13599813055855040739, 13607607176922813411,
    13615399016005172777, 13623188574437980371, 13630975853555925058, 13638760854692524413,
    13646543579180126082, 13654324028349909163, 13662102203531885561, 13669878106054901354,
    13677651737246638162, 13685423098433614499, 13693192190941187138, 13700959016093552456,
    13708723575213747805, 13716485869623652853, 13724245900643990933, 13732003669594330394,
    13739759177793085957, 13747512426557520037, 13755263417203744111, 13763012151046720039,
    13770758629400261409, 13778502853577034884, 13786244824888561518, 13793984544645218097,
    13801722014156238476, 13809457234729714899, 13817190207672599329, 13824920934290704774,
    13832649415888706611, 13840375653770143900, 13848099649237420713, 13855821403591807442,
    13863540918133442123, 13871258194161331743, 13878973232973353560, 13886686035866256398,
    13894396604135661963, 13902104939076066161, 13909811041980840376, 13917514914142232796,
    13925216556851369697, 13932915971398256754, 13940613159071780325, 13948308121159708759,
    13956000858948693672, 13963691373724271255, 13971379666770863553, 13979065739371779754,
    13986749592809217474, 13994431228364264037, 14002110647316897773, 14009787850945989274,
    14017462840529302684, 14025135617343496978, 14032806182664127227, 14040474537765645884,
    14048140683921404038, 14055804622403652693, 14063466354483544033, 14071125881431132688,
    14078783204515376992, 14086438325004140252, 14094091244164192000, 14101741963261209257,
    14109390483559777781, 14117036806323393338, 14124680932814462930, 14132322864294306066,
    14139962602023156000, 14147600147260160981, 14155235501263385505, 14162868665289811537,
    14170499640595339781, 14178128428434790901, 14185755030061906761, 14193379446729351669,
    14201001679688713605, 14208621730190505453, 14216239599484166239, 14223855288818062354,
    14231468799439488782, 14239080132594670327, 14246689289528762835, 14254296271485854422,
    14261901079708966690, 14269503715440055942, 14277104179920014406, 14284702474388671447,
    14292298600084794783, 14299892558246091688, 14307484350109210213, 14315073976909740392,
    14322661439882215441, 14330246740260112976, 14337829879275856196, 14345410858160815108,
    14352989678145307714, 14360566340458601204, 14368140846328913168, 14375713196983412770,
    14383283393648221967, 14390851437548416669, 14398417329908027963, 14405981071950043268,
    14413542664896407541, 14421102109968024458, 14428659408384757600, 14436214561365431618,
    14443767570127833430, 14451318435888713395, 14458867159863786480, 14466413743267733452,
    14473958187314202024, 14481500493215808057, 14489040662184136705, 14496578695429743593,
    14504114594162155989, 14511648359589873954, 14519179992920371513, 14526709495360097821,
    14534236868114478314, 14541762112387915864, 14549285229383791952, 14556806220304467806,
    14564325086351285558, 14571841828724569404, 14579356448623626738, 14586868947246749319,
    14594379325791214396, 14601887585453285876, 14609393727428215450, 14616897752910243734,
    14624399663092601430, 14631899459167510439, 14639397142326185010, 14646892713758832876,
    14654386174654656386, 14661877526201853630, 14669366769587619587, 14676853905998147232,
    14684338936618628683, 14691821862633256308, 14699302685225223867, 14706781405576727624,
    14714258024868967468, 14721732544282148039, 14729204964995479833, 14736675288187180340,
    14744143515034475131, 14751609646713598991, 14759073684399797032, 14766535629267325786,
    14773995482489454327, 14781453245238465374, 14788908918685656394, 14796362504001340717,
    14803814002354848614, 14811263414914528431, 14818710742847747655, 14826155987320894040,
    14833599149499376676, 14841040230547627109, 14848479231629100415, 14855916153906276308,
    14863350998540660208, 14870783766692784354, 14878214459522208873, 14885643078187522871,
];

/// Page 6 of the rounded-up `log2(1 + i / 2048)` in Q64.
pub const LOG2_UPPER_6: [u64; 256] = [
    14893069623846345525, 14900494097655327148, 14907916500770150289, 14915336834345530792,
    14922755099535218897, 14930171297492000293, 14937585429367697215, 14944997496313169499,
    14952407499478315666, 14959815440012073980, 14967221319062423533, 14974625137776385302,
    14982026897300023213, 14989426598778445215, 14996824243355804329, 15004219832175299728,
    15011613366379177780, 15019004847108733112, 15026394275504309674, 15033781652705301785,
    15041166979850155189, 15048550258076368116, 15055931488520492321, 15063310672318134142,
    15070687810603955546, 15078062904511675171, 15085435955174069387, 15092806963722973313,
    15100175931289281893, 15107542859002950906, 15114907747992998025, 15122270599387503847,
    15129631414313612934, 15136990193897534845, 15144346939264545172, 15151701651538986573,
    15159054331844269796, 15166404981302874718, 15173753601036351370, 15181100192165320964,
    15188444755809476914, 15195787293087585864, 15203127805117488712, 15210466293016101628,
    15217802757899417074, 15225137200882504821, 15232469623079512972, 15239800025603668972,
    15247128409567280622, 15254454776081737089, 15261779126257509932, 15269101461204154094,
    15276421782030308912, 15283740089843699145, 15291056385751135950, 15298370670858517909,
    15305682946270832024, 15312993213092154713, 15320301472425652821, 15327607725373584609,
    15334911973037300760, 15342214216517245371, 15349514456912956943, 15356812695323069387,
    15364108932845313000, 15371403170576515473, 15378695409612602863, 15385985651048600594,
    15393273895978634437, 15400560145495931497, 15407844400692821199, 15415126662660736263,
    15422406932490213701, 15429685211270895772, 15436961500091530992, 15444235800039975078,
    15451508112203191951, 15458778437667254696, 15466046777517346539, 15473313132837761819,
    15480577504711906957, 15487839894222301429, 15495100302450578729, 15502358730477487339,
    15509615179382891691, 15516869650245773140, 15524122144144230908, 15531372662155483067,
    15538621205355867485, 15545867774820842790, 15553112371624989327, 15560354996842010107,
    15567595651544731773, 15574834336805105555, 15582071053694208198, 15589305803282242950,
    15596538586638540478, 15603769404831559839, 15610998258928889414, 15618225149997247858,
    15625450079102485047, 15632673047309583015, 15639894055682656910, 15647113105284955910,
    15654330197178864184, 15661545332425901829, 15668758512086725785, 15675969737221130802,
    15683179008888050347, 15690386328145557556, 15697591696050866151, 15704795113660331385,
    15711996582029450959, 15719196102212865953, 15726393675264361762, 15733589302236869007,
    15740782984182464469, 15747974722152372006, 15755164517196963479, 15762352370365759678,
    15769538282707431223, 15776722255269799499, 15783904289099837569, 15791084385243671086,
    15798262544746579207, 15805438768652995511, 15812613058006508902, 15819785413849864533,
    15826955837224964700, 15834124329172869767, 15841290890733799051, 15848455522947131755,
    15855618226851407847, 15862779003484328975, 15869937853882759374, 15877094779082726753,
    15884249780119423212, 15891402858027206121, 15898554013839599033, 15905703248589292571,
    15912850563308145327, 15919995959027184759, 15927139436776608068, 15934280997585783110,
    15941420642483249275, 15948558372496718368, 15955694188653075512, 15962828091978380028,
    15969960083497866321, 15977090164235944760, 15984218335216202560, 15991344597461404679,
    15998468951993494673, 16005591399833595601, 16012711942002010885, 16019830579518225197,
    16026947313400905329, 16034062144667901068, 16041175074336246077, 16048286103422158752,
    16055395232941043114, 16062502463907489662, 16069607797335276246, 16076711234237368935,
    16083812775625922895, 16090912422512283226, 16098010175906985864, 16105106036819758406,
    16112200006259521002, 16119292085234387197, 16126382274751664805, 16133470575817856749,
    16140556989438661935, 16147641516618976101, 16154724158362892676, 16161804915673703626,
    16168883789553900313, 16175960781005174347, 16183035891028418434, 16190109120623727223,
    16197180470790398164, 16204249942526932339, 16211317536831035328, 16218383254699618030,
    16225447097128797534, 16232509065113897936, 16239569159649451198, 16246627381729197981,
    16253683732346088486, 16260738212492283285, 16267790823159154174, 16274841565337284997,
    16281890440016472479, 16288937448185727065, 16295982590833273759, 16303025868946552938,
    16310067283512221198, 16317106835516152175, 16324144525943437382, 16331180355778387022,
    16338214326004530828, 16345246437604618876, 16352276691560622422, 16359305088853734713,
    16366331630464371815, 16373356317372173430, 16380379150556003717, 16387400130993952115,
    16394419259663334153, 16401436537540692266, 16408451965601796619, 16415465544821645912,
    16422477276174468200, 16429487160633721697, 16436495199172095595, 16443501392761510866,
    16450505742373121083, 16457508248977313213, 16464508913543708429, 16471507737041162920,
    16478504720437768695, 16485499864700854381, 16492493170796986024, 16499484639691967903,
    16506474272350843315, 16513462069737895384, 16520448032816647857, 16527432162549865898,
    16534414459899556887, 16541394925826971216, 16548373561292603084, 16555350367256191282,
    16562325344676719993, 16569298494512419579, 16576269817720767377, 16583239315258488477,
    16590206988081556519, 16597172837145194478, 16604136863403875441, 16611099067811323412,
    16618059451320514069, 16625018014883675568, 16631974759452289319, 16638929685977090755,
    16645882795408070133, 16652834088694473292, 16659783566784802443, 16666731230626816940,
    16673677081167534061, 16680621119353229775, 16687563346129439519, 16694503762440958977,
    16701442369231844835, 16708379167445415575, 16715314158024252218, 16722247341910199113,
];

/// Page 7 of the rounded-up `log2(1 + i / 2048)` in Q64.
pub const LOG2_UPPER_7: [u64; 256] = [
    16729178720044364699, 16736108293367122267, 16743036062818110722, 16749962029336235368,
    16756886193859668643, 16763808557325850906, 16770729120671491183, 16777647884832567932,
    16784564850744329803, 16791480019341296403, 16798393391557259042, 16805304968325281491,
    16812214750577700753, 16819122739246127794, 16826028935261448318, 16832933339553823503,
    16839835953052690765, 16846736776686764504, 16853635811384036847, 16860533058071778410,
    16867428517676539038, 16874322191124148548, 16881214079339717486, 16888104183247637863,
    16894992503771583899, 16901879041834512769, 16908763798358665350, 16915646774265566952,
    16922527970476028058, 16929407387910145078, 16936285027487301067, 16943160890126166479,
    16950034976744699893, 16956907288260148750, 16963777825589050093, 16970646589647231295,
    16977513581349810791, 16984378801611198810, 16991242251345098114, 16998103931464504715,
    17004963842881708606, 17011821986508294502, 17018678363255142546, 17025532974032429057,
    17032385819749627230, 17039236901315507886, 17046086219638140177, 17052933775624892314,
    17059779570182432289, 17066623604216728594, 17073465878633050944, 17080306394335970986,
    17087145152229363027, 17093982153216404745, 17100817398199577910, 17107650888080669088,
    17114482623760770370, 17121312606140280065, 17128140836118903435, 17134967314595653387,
    17141792042468851198, 17148615020636127211, 17155436249994421553, 17162255731439984837,
    17169073465868378869, 17175889454174477362, 17182703697252466629, 17189516195995846293,
    17196326951297429984, 17203135964049346057, 17209943235143038269, 17216748765469266501,
    17223552555918107446, 17230354607378955310, 17237154920740522512, 17243953496890840373,
    17250750336717259820, 17257545441106452080, 17264338810944409369, 17271130447116445593,
    17277920350507197025, 17284708522000623021, 17291494962480006681, 17298279672827955568,
    17305062653926402373, 17311843906656605617, 17318623431899150331, 17325401230533948746,
    17332177303440240977, 17338951651496595706, 17345724275580910865, 17352495176570414326,
    17359264355341664568, 17366031812770551374, 17372797549732296499, 17379561567101454363,
    17386323865751912703, 17393084446556893288, 17399843310388952560, 17406600458119982332,
    17413355890621210451, 17420109608763201483, 17426861613415857374, 17433611905448418129,
    17440360485729462490, 17447107355126908588, 17453852514508014629, 17460595964739379559,
    17467337706686943731, 17474077741215989567, 17480816069191142236, 17487552691476370305,
    17494287608934986420, 17501020822429647953, 17507752332822357681, 17514482140974464435,
    17521210247746663768, 17527936653998998613, 17534661360590859946, 17541384368380987442,
    17548105678227470133, 17554825290987747063, 17561543207518607952, 17568259428676193845,
    17574973955315997764, 17581686788292865368, 17588397928460995609, 17595107376673941370,
    17601815133784610130, 17608521200645264615, 17615225578107523432, 17621928267022361739,
    17628629268240111871, 17635328582610464012, 17642026210982466816, 17648722154204528076,
    17655416413124415349, 17662108988589256614, 17668799881445540905, 17675489092539118964,
    17682176622715203874, 17688862472818371706, 17695546643692562148, 17702229136181079158,
    17708909951126591597, 17715589089371133863, 17722266551756106529, 17728942339122276987,
    17735616452309780071, 17742288892158118697, 17748959659506164501, 17755628755192158464,
    17762296180053711548, 17768961934927805324, 17775626020650792616, 17782288438058398101,
    17788949187985718977, 17795608271267225556, 17802265688736761911, 17808921441227546499,
    17815575529572172782, 17822227954602609856, 17828878717150203073, 17835527818045674669,
    17842175258119124376, 17848821038200030059, 17855465159117248327, 17862107621699015149,
    17868748426772946484, 17875387575166038898, 17882025067704670176, 17888660905214599937,
    17895295088520970267, 17901927618448306314, 17908558495820516919, 17915187721460895218,
    17921815296192119260, 17928441220836252626, 17935065496214745033, 17941688123148432939,
    17948309102457540176, 17954928434961678532, 17961546121479848375, 17968162162830439268,
    17974776559831230553, 17981389313299391982, 17988000424051484303, 17994609892903459883,
    18001217720670663299, 18007823908167831941, 18014428456209096632, 18021031365607982202,
    18027632637177408116, 18034232271729689061, 18040830270076535547, 18047426633029054502,
    18054021361397749882, 18060614455992523260, 18067205917622674424, 18073795747096901975,
    18080383945223303916, 18086970512809378257, 18093555450662023600, 18100138759587539741,
    18106720440391628247, 18113300493879393065, 18119878920855341103, 18126455722123382824,
    18133030898486832833, 18139604450748410463, 18146176379710240372, 18152746686173853124,
    18159315370940185772, 18165882434809582455, 18172447878581794972, 18179011703055983371,
    18185573909030716534, 18192134497303972756, 18198693468673140333, 18205250823935018137,
    18211806563885816203, 18218360689321156299, 18224913201036072522, 18231464099825011857,
    18238013386481834775, 18244561061799815793, 18251107126571644059, 18257651581589423924,
    18264194427644675526, 18270735665528335352, 18277275296030756821, 18283813319941710850,
    18290349738050386432, 18296884551145391207, 18303417760014752026, 18309949365445915529,
    18316479368225748718, 18323007769140539505, 18329534568975997310, 18336059768517253606,
    18342583368548862489, 18349105369854801254, 18355625773218470954, 18362144579422696958,
    18368661789249729527, 18375177403481244373, 18381691422898343214, 18388203848281554346,
    18394714680410833202, 18401223920065562908, 18407731568024554843, 18414237625066049205,
    18420742091967715567, 18427244969506653422, 18433746258459392760, 18440245959601894618,
];

/// `k * log2(10)` in Q61 for every `u64` power of ten, rounded down.
pub const LOG2_POW10_LOWER: [i128; 20] = [
    0, 7659844674706589055,
    15319689349413178110, 22979534024119767165,
    30639378698826356220, 38299223373532945275,
    45959068048239534330, 53618912722946123385,
    61278757397652712440, 68938602072359301495,
    76598446747065890550, 84258291421772479605,
    91918136096479068660, 99577980771185657715,
    107237825445892246770, 114897670120598835825,
    122557514795305424880, 130217359470012013935,
    137877204144718602990, 145537048819425192045,
];

/// `k * log2(10)` in Q61 for every `u64` power of ten, rounded up.
pub const LOG2_POW10_UPPER: [i128; 20] = [
    0, 7659844674706589056,
    15319689349413178111, 22979534024119767167,
    30639378698826356222, 38299223373532945278,
    45959068048239534333, 53618912722946123389,
    61278757397652712444, 68938602072359301500,
    76598446747065890555, 84258291421772479611,
    91918136096479068666, 99577980771185657722,
    107237825445892246777, 114897670120598835833,
    122557514795305424888, 130217359470012013944,
    137877204144718602999, 145537048819425192055,
];

/// Entry `i` of the rounded-down `2^(i / 2048)` in Q63.
#[verifier::opaque]
pub open spec fn exp2_lower_at(i: int) -> u64 {
    if i < 256 {
        EXP2_LOWER_0[i]
    } else if i < 512 {
        EXP2_LOWER_1[i - 256]
    } else if i < 768 {
        EXP2_LOWER_2[i - 512]
    } else if i < 1024 {
        EXP2_LOWER_3[i - 768]
    } else if i < 1280 {
        EXP2_LOWER_4[i - 1024]
    } else if i < 1536 {
        EXP2_LOWER_5[i - 1280]
    } else if i < 1792 {
        EXP2_LOWER_6[i - 1536]
    } else {
        EXP2_LOWER_7[i - 1792]
    }
}

/// Looks up entry `index` of the rounded-down `2^(i / 2048)` in Q63.
pub fn exp2_lower_entry(index: usize) -> (r: u64)
    requires
        index < 2048,
    ensures
        r == exp2_lower_at(index as int),
{
    proof {
        reveal(exp2_lower_at);
    }
    if index < 256 {
        EXP2_LOWER_0[index]
    } else if index < 512 {
        EXP2_LOWER_1[index - 256]
    } else if index < 768 {
        EXP2_LOWER_2[index - 512]
    } else if index < 1024 {
        EXP2_LOWER_3[index - 768]
    } else if index < 1280 {
        EXP2_LOWER_4[index - 1024]
    } else if index < 1536 {
        EXP2_LOWER_5[index - 1280]
    } else if index < 1792 {
        EXP2_LOWER_6[index - 1536]
    } else {
        EXP2_LOWER_7[index - 1792]
    }
}

/// Entry `i` of the rounded-up `2^(i / 2048)` in Q63.
#[verifier::opaque]
pub open spec fn exp2_upper_at(i: int) -> u64 {
    if i < 256 {
        EXP2_UPPER_0[i]
    } else if i < 512 {
        EXP2_UPPER_1[i - 256]
    } else if i < 768 {
        EXP2_UPPER_2[i - 512]
    } else if i < 1024 {
        EXP2_UPPER_3[i - 768]
    } else if i < 1280 {
        EXP2_UPPER_4[i - 1024]
    } else if i < 1536 {
        EXP2_UPPER_5[i - 1280]
    } else if i < 1792 {
        EXP2_UPPER_6[i - 1536]
    } else {
        EXP2_UPPER_7[i - 1792]
    }
}

/// Looks up entry `index` of the rounded-up `2^(i / 2048)` in Q63.
pub fn exp2_upper_entry(index: usize) -> (r: u64)
    requires
        index < 2048,
    ensures
        r == exp2_upper_at(index as int),
{
    proof {
        reveal(exp2_upper_at);
    }
    if index < 256 {
        EXP2_UPPER_0[index]
    } else if index < 512 {
        EXP2_UPPER_1[index - 256]
    } else if index < 768 {
        EXP2_UPPER_2[index - 512]
    } else if index < 1024 {
        EXP2_UPPER_3[index - 768]
    } else if index < 1280 {
        EXP2_UPPER_4[index - 1024]
    } else if index < 1536 {
        EXP2_UPPER_5[index - 1280]
    } else if index < 1792 {
        EXP2_UPPER_6[index - 1536]
    } else {
        EXP2_UPPER_7[index - 1792]
    }
}

/// Entry `i` of the rounded-down `log2(1 + i / 2048)` in Q64.
#[verifier::opaque]
pub open spec fn log2_lower_at(i: int) -> u64 {
    if i < 256 {
        LOG2_LOWER_0[i]
    } else if i < 512 {
        LOG2_LOWER_1[i - 256]
    } else if i < 768 {
        LOG2_LOWER_2[i - 512]
    } else if i < 1024 {
        LOG2_LOWER_3[i - 768]
    } else if i < 1280 {
        LOG2_LOWER_4[i - 1024]
    } else if i < 1536 {
        LOG2_LOWER_5[i - 1280]
    } else if i < 1792 {
        LOG2_LOWER_6[i - 1536]
    } else {
        LOG2_LOWER_7[i - 1792]
    }
}

/// Looks up entry `index` of the rounded-down `log2(1 + i / 2048)` in Q64.
pub fn log2_lower_entry(index: usize) -> (r: u64)
    requires
        index < 2048,
    ensures
        r == log2_lower_at(index as int),
{
    proof {
        reveal(log2_lower_at);
    }
    if index < 256 {
        LOG2_LOWER_0[index]
    } else if index < 512 {
        LOG2_LOWER_1[index - 256]
    } else if index < 768 {
        LOG2_LOWER_2[index - 512]
    } else if index < 1024 {
        LOG2_LOWER_3[index - 768]
    } else if index < 1280 {
        LOG2_LOWER_4[index - 1024]
    } else if index < 1536 {
        LOG2_LOWER_5[index - 1280]
    } else if index < 1792 {
        LOG2_LOWER_6[index - 1536]
    } else {
        LOG2_LOWER_7[index - 1792]
    }
}

/// Entry `i` of the rounded-up `log2(1 + i / 2048)` in Q64.
#[verifier::opaque]
pub open spec fn log2_upper_at(i: int) -> u64 {
    if i < 256 {
        LOG2_UPPER_0[i]
    } else if i < 512 {
        LOG2_UPPER_1[i - 256]
    } else if i < 768 {
        LOG2_UPPER_2[i - 512]
    } else if i < 1024 {
        LOG2_UPPER_3[i - 768]
    } else if i < 1280 {
        LOG2_UPPER_4[i - 1024]
    } else if i < 1536 {
        LOG2_UPPER_5[i - 1280]
    } else if i < 1792 {
        LOG2_UPPER_6[i - 1536]
    } else {
        LOG2_UPPER_7[i - 1792]
    }
}

/// Looks up entry `index` of the rounded-up `log2(1 + i / 2048)` in Q64.
pub fn log2_upper_entry(index: usize) -> (r: u64)
    requires
        index < 2048,
    ensures
        r == log2_upper_at(index as int),
{
    proof {
        reveal(log2_upper_at);
    }
    if index < 256 {
        LOG2_UPPER_0[index]
    } else if index < 512 {
        LOG2_UPPER_1[index - 256]
    } else if index < 768 {
        LOG2_UPPER_2[index - 512]
    } else if index < 1024 {
        LOG2_UPPER_3[index - 768]
    } else if index < 1280 {
        LOG2_UPPER_4[index - 1024]
    } else if index < 1536 {
        LOG2_UPPER_5[index - 1280]
    } else if index < 1792 {
        LOG2_UPPER_6[index - 1536]
    } else {
        LOG2_UPPER_7[index - 1792]
    }
}

} // verus!
