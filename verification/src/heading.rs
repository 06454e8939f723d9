//! Directions in the plane as fixed-point unit vectors.

use vstd::prelude::*;
use vstd::arithmetic::div_mod::{lemma_fundamental_div_mod, lemma_fundamental_div_mod_converse};
use crate::vector::Point;

verus! {

/// The fixed-point value that stands for one: a heading component `c` means `c / UNIT`.
pub const UNIT: i64 = 1_000_000_000;

/// `h` is a unit vector in fixed point: each component lies within one, and the squared
/// length differs from one by no more than rounding each component to the nearest
/// multiple of `1 / UNIT` can cause.
pub open spec fn is_unit_heading(h: Point) -> bool {
    &&& -UNIT <= h.x <= UNIT
    &&& -UNIT <= h.y <= UNIT
    &&& -2 * UNIT <= h.x * h.x + h.y * h.y - UNIT * UNIT <= 2 * UNIT
}

/// The sine of `k` degrees, for `k` from 0 to 90, scaled by [`UNIT`] and rounded to the
/// nearest whole number.
pub open spec fn sine_of(k: int) -> int {
    if k == 0 {
        0
    } else if k == 1 {
        17_452_406
    } else if k == 2 {
        34_899_497
    } else if k == 3 {
        52_335_956
    } else if k == 4 {
        69_756_474
    } else if k == 5 {
        87_155_743
    } else if k == 6 {
        104_528_463
    } else if k == 7 {
        121_869_343
    } else if k == 8 {
        139_173_101
    } else if k == 9 {
        156_434_465
    } else if k == 10 {
        173_648_178
    } else if k == 11 {
        190_808_995
    } else if k == 12 {
        207_911_691
    } else if k == 13 {
        224_951_054
    } else if k == 14 {
        241_921_896
    } else if k == 15 {
        258_819_045
    } else if k == 16 {
        275_637_356
    } else if k == 17 {
        292_371_705
    } else if k == 18 {
        309_016_994
    } else if k == 19 {
        325_568_154
    } else if k == 20 {
        342_020_143
    } else if k == 21 {
        358_367_950
    } else if k == 22 {
        374_606_593
    } else if k == 23 {
        390_731_128
    } else if k == 24 {
        406_736_643
    } else if k == 25 {
        422_618_262
    } else if k == 26 {
        438_371_147
    } else if k == 27 {
        453_990_500
    } else if k == 28 {
        469_471_563
    } else if k == 29 {
        484_809_620
    } else if k == 30 {
        500_000_000
    } else if k == 31 {
        515_038_075
    } else if k == 32 {
        529_919_264
    } else if k == 33 {
        544_639_035
    } else if k == 34 {
        559_192_903
    } else if k == 35 {
        573_576_436
    } else if k == 36 {
        587_785_252
    } else if k == 37 {
        601_815_023
    } else if k == 38 {
        615_661_475
    } else if k == 39 {
        629_320_391
    } else if k == 40 {
        642_787_610
    } else if k == 41 {
        656_059_029
    } else if k == 42 {
        669_130_606
    } else if k == 43 {
        681_998_360
    } else if k == 44 {
        694_658_370
    } else if k == 45 {
        707_106_781
    } else if k == 46 {
        719_339_800
    } else if k == 47 {
        731_353_702
    } else if k == 48 {
        743_144_825
    } else if k == 49 {
        754_709_580
    } else if k == 50 {
        766_044_443
    } else if k == 51 {
        777_145_961
    } else if k == 52 {
        788_010_754
    } else if k == 53 {
        798_635_510
    } else if k == 54 {
        809_016_994
    } else if k == 55 {
        819_152_044
    } else if k == 56 {
        829_037_573
    } else if k == 57 {
        838_670_568
    } else if k == 58 {
        848_048_096
    } else if k == 59 {
        857_167_301
    } else if k == 60 {
        866_025_404
    } else if k == 61 {
        874_619_707
    } else if k == 62 {
        882_947_593
    } else if k == 63 {
        891_006_524
    } else if k == 64 {
        898_794_046
    } else if k == 65 {
        906_307_787
    } else if k == 66 {
        913_545_458
    } else if k == 67 {
        920_504_853
    } else if k == 68 {
        927_183_855
    } else if k == 69 {
        933_580_426
    } else if k == 70 {
        939_692_621
    } else if k == 71 {
        945_518_576
    } else if k == 72 {
        951_056_516
    } else if k == 73 {
        956_304_756
    } else if k == 74 {
        961_261_696
    } else if k == 75 {
        965_925_826
    } else if k == 76 {
        970_295_726
    } else if k == 77 {
        974_370_065
    } else if k == 78 {
        978_147_601
    } else if k == 79 {
        981_627_183
    } else if k == 80 {
        984_807_753
    } else if k == 81 {
        987_688_341
    } else if k == 82 {
        990_268_069
    } else if k == 83 {
        992_546_152
    } else if k == 84 {
        994_521_895
    } else if k == 85 {
        996_194_698
    } else if k == 86 {
        997_564_050
    } else if k == 87 {
        998_629_535
    } else if k == 88 {
        999_390_827
    } else if k == 89 {
        999_847_695
    } else {
        1_000_000_000
    }
}

/// The cosine and sine of a whole number of degrees, each scaled by [`UNIT`] and rounded
/// to the nearest whole number: the table of the first quarter turn, mirrored into the
/// other three.
pub open spec fn heading_of_degrees(degrees: int) -> Point {
    let a = degrees % 360;
    if a <= 90 {
        Point { x: sine_of(90 - a), y: sine_of(a) }
    } else if a <= 180 {
        Point { x: -sine_of(a - 90), y: sine_of(180 - a) }
    } else if a <= 270 {
        Point { x: -sine_of(270 - a), y: -sine_of(a - 180) }
    } else {
        Point { x: sine_of(a - 270), y: -sine_of(360 - a) }
    }
}

/// The sine of `k` degrees and that of the complement form a unit vector.
proof fn lemma_table_is_unit(k: int)
    requires
        0 <= k <= 90,
    ensures
        0 <= sine_of(k) <= UNIT,
        0 <= sine_of(90 - k) <= UNIT,
        -2 * UNIT <= sine_of(k) * sine_of(k) + sine_of(90 - k) * sine_of(90 - k) - UNIT * UNIT <= 2
            * UNIT,
{
    assert(UNIT * UNIT == 1_000_000_000int * 1_000_000_000int);
    if k == 0 {
        assert(0int * 0int + 1_000_000_000int * 1_000_000_000int - 1_000_000_000int * 1_000_000_000int == 0);
    } else if k == 1 {
        assert(17_452_406int * 17_452_406int + 999_847_695int * 999_847_695int - 1_000_000_000int * 1_000_000_000int == -327998139);
    } else if k == 2 {
        assert(34_899_497int * 34_899_497int + 999_390_827int * 999_390_827int - 1_000_000_000int * 1_000_000_000int == -17403062);
    } else if k == 3 {
        assert(52_335_956int * 52_335_956int + 998_629_535int * 998_629_535int - 1_000_000_000int * 1_000_000_000int == 464750161);
    } else if k == 4 {
        assert(69_756_474int * 69_756_474int + 997_564_050int * 997_564_050int - 1_000_000_000int * 1_000_000_000int == -482684824);
    } else if k == 5 {
        assert(87_155_743int * 87_155_743int + 996_194_698int * 996_194_698int - 1_000_000_000int * 1_000_000_000int == -138806747);
    } else if k == 6 {
        assert(104_528_463int * 104_528_463int + 994_521_895int * 994_521_895int - 1_000_000_000int * 1_000_000_000int == -788466606);
    } else if k == 7 {
        assert(121_869_343int * 121_869_343int + 992_546_152int * 992_546_152int - 1_000_000_000int * 1_000_000_000int == 613258753);
    } else if k == 8 {
        assert(139_173_101int * 139_173_101int + 990_268_069int * 990_268_069int - 1_000_000_000int * 1_000_000_000int == 522944962);
    } else if k == 9 {
        assert(156_434_465int * 156_434_465int + 987_688_341int * 987_688_341int - 1_000_000_000int * 1_000_000_000int == 787168506);
    } else if k == 10 {
        assert(173_648_178int * 173_648_178int + 984_807_753int * 984_807_753int - 1_000_000_000int * 1_000_000_000int == 91628693);
    } else if k == 11 {
        assert(190_808_995int * 190_808_995int + 981_627_183int * 981_627_183int - 1_000_000_000int * 1_000_000_000int == -1022574486);
    } else if k == 12 {
        assert(207_911_691int * 207_911_691int + 978_147_601int * 978_147_601int - 1_000_000_000int * 1_000_000_000int == 596534682);
    } else if k == 13 {
        assert(224_951_054int * 224_951_054int + 974_370_065int * 974_370_065int - 1_000_000_000int * 1_000_000_000int == 263815141);
    } else if k == 14 {
        assert(241_921_896int * 241_921_896int + 970_295_726int * 970_295_726int - 1_000_000_000int * 1_000_000_000int == -341898108);
    } else if k == 15 {
        assert(258_819_045int * 258_819_045int + 965_925_826int * 965_925_826int - 1_000_000_000int * 1_000_000_000int == -611505699);
    } else if k == 16 {
        assert(275_637_356int * 275_637_356int + 961_261_696int * 961_261_696int - 1_000_000_000int * 1_000_000_000int == 219467152);
    } else if k == 17 {
        assert(292_371_705int * 292_371_705int + 956_304_756int * 956_304_756int - 1_000_000_000int * 1_000_000_000int == 232826561);
    } else if k == 18 {
        assert(309_016_994int * 309_016_994int + 951_056_516int * 951_056_516int - 1_000_000_000int * 1_000_000_000int == -793145708);
    } else if k == 19 {
        assert(325_568_154int * 325_568_154int + 945_518_576int * 945_518_576int - 1_000_000_000int * 1_000_000_000int == 460035492);
    } else if k == 20 {
        assert(342_020_143int * 342_020_143int + 939_692_621int * 939_692_621int - 1_000_000_000int * 1_000_000_000int == 179590090);
    } else if k == 21 {
        assert(358_367_950int * 358_367_950int + 933_580_426int * 933_580_426int - 1_000_000_000int * 1_000_000_000int == -602456024);
    } else if k == 22 {
        assert(374_606_593int * 374_606_593int + 927_183_855int * 927_183_855int - 1_000_000_000int * 1_000_000_000int == 491728674);
    } else if k == 23 {
        assert(390_731_128int * 390_731_128int + 920_504_853int * 920_504_853int - 1_000_000_000int * 1_000_000_000int == -1215296007);
    } else if k == 24 {
        assert(406_736_643int * 406_736_643int + 913_545_458int * 913_545_458int - 1_000_000_000int * 1_000_000_000int == 591339213);
    } else if k == 25 {
        assert(422_618_262int * 422_618_262int + 906_307_787int * 906_307_787int - 1_000_000_000int * 1_000_000_000int == 152738013);
    } else if k == 26 {
        assert(438_371_147int * 438_371_147int + 898_794_046int * 898_794_046int - 1_000_000_000int * 1_000_000_000int == -352854275);
    } else if k == 27 {
        assert(453_990_500int * 453_990_500int + 891_006_524int * 891_006_524int - 1_000_000_000int * 1_000_000_000int == -99187424);
    } else if k == 28 {
        assert(469_471_563int * 469_471_563int + 882_947_593int * 882_947_593int - 1_000_000_000int * 1_000_000_000int == 450156618);
    } else if k == 29 {
        assert(484_809_620int * 484_809_620int + 874_619_707int * 874_619_707int - 1_000_000_000int * 1_000_000_000int == -482689751);
    } else if k == 30 {
        assert(500_000_000int * 500_000_000int + 866_025_404int * 866_025_404int - 1_000_000_000int * 1_000_000_000int == 373363216);
    } else if k == 31 {
        assert(515_038_075int * 515_038_075int + 857_167_301int * 857_167_301int - 1_000_000_000int * 1_000_000_000int == 603330226);
    } else if k == 32 {
        assert(529_919_264int * 529_919_264int + 848_048_096int * 848_048_096int - 1_000_000_000int * 1_000_000_000int == -512473088);
    } else if k == 33 {
        assert(544_639_035int * 544_639_035int + 838_670_568int * 838_670_568int - 1_000_000_000int * 1_000_000_000int == 75173849);
    } else if k == 34 {
        assert(559_192_903int * 559_192_903int + 829_037_573int * 829_037_573int - 1_000_000_000int * 1_000_000_000int == 211297738);
    } else if k == 35 {
        assert(573_576_436int * 573_576_436int + 819_152_044int * 819_152_044int - 1_000_000_000int * 1_000_000_000int == -876159968);
    } else if k == 36 {
        assert(587_785_252int * 587_785_252int + 809_016_994int * 809_016_994int - 1_000_000_000int * 1_000_000_000int == -950500460);
    } else if k == 37 {
        assert(601_815_023int * 601_815_023int + 798_635_510int * 798_635_510int - 1_000_000_000int * 1_000_000_000int == -258549371);
    } else if k == 38 {
        assert(615_661_475int * 615_661_475int + 788_010_754int * 788_010_754int - 1_000_000_000int * 1_000_000_000int == 218824141);
    } else if k == 39 {
        assert(629_320_391int * 629_320_391int + 777_145_961int * 777_145_961int - 1_000_000_000int * 1_000_000_000int == -772993598);
    } else if k == 40 {
        assert(642_787_610int * 642_787_610int + 766_044_443int * 766_044_443int - 1_000_000_000int * 1_000_000_000int == 220692349);
    } else if k == 41 {
        assert(656_059_029int * 656_059_029int + 754_709_580int * 754_709_580int - 1_000_000_000int * 1_000_000_000int == -323800759);
    } else if k == 42 {
        assert(669_130_606int * 669_130_606int + 743_144_825int * 743_144_825int - 1_000_000_000int * 1_000_000_000int == -1189792139);
    } else if k == 43 {
        assert(681_998_360int * 681_998_360int + 731_353_702int * 731_353_702int - 1_000_000_000int * 1_000_000_000int == 471794404);
    } else if k == 44 {
        assert(694_658_370int * 694_658_370int + 719_339_800int * 719_339_800int - 1_000_000_000int * 1_000_000_000int == -1124903100);
    } else if k == 45 {
        assert(707_106_781int * 707_106_781int + 707_106_781int * 707_106_781int - 1_000_000_000int * 1_000_000_000int == -527636078);
    } else if k == 46 {
        assert(719_339_800int * 719_339_800int + 694_658_370int * 694_658_370int - 1_000_000_000int * 1_000_000_000int == -1124903100);
    } else if k == 47 {
        assert(731_353_702int * 731_353_702int + 681_998_360int * 681_998_360int - 1_000_000_000int * 1_000_000_000int == 471794404);
    } else if k == 48 {
        assert(743_144_825int * 743_144_825int + 669_130_606int * 669_130_606int - 1_000_000_000int * 1_000_000_000int == -1189792139);
    } else if k == 49 {
        assert(754_709_580int * 754_709_580int + 656_059_029int * 656_059_029int - 1_000_000_000int * 1_000_000_000int == -323800759);
    } else if k == 50 {
        assert(766_044_443int * 766_044_443int + 642_787_610int * 642_787_610int - 1_000_000_000int * 1_000_000_000int == 220692349);
    } else if k == 51 {
        assert(777_145_961int * 777_145_961int + 629_320_391int * 629_320_391int - 1_000_000_000int * 1_000_000_000int == -772993598);
    } else if k == 52 {
        assert(788_010_754int * 788_010_754int + 615_661_475int * 615_661_475int - 1_000_000_000int * 1_000_000_000int == 218824141);
    } else if k == 53 {
        assert(798_635_510int * 798_635_510int + 601_815_023int * 601_815_023int - 1_000_000_000int * 1_000_000_000int == -258549371);
    } else if k == 54 {
        assert(809_016_994int * 809_016_994int + 587_785_252int * 587_785_252int - 1_000_000_000int * 1_000_000_000int == -950500460);
    } else if k == 55 {
        assert(819_152_044int * 819_152_044int + 573_576_436int * 573_576_436int - 1_000_000_000int * 1_000_000_000int == -876159968);
    } else if k == 56 {
        assert(829_037_573int * 829_037_573int + 559_192_903int * 559_192_903int - 1_000_000_000int * 1_000_000_000int == 211297738);
    } else if k == 57 {
        assert(838_670_568int * 838_670_568int + 544_639_035int * 544_639_035int - 1_000_000_000int * 1_000_000_000int == 75173849);
    } else if k == 58 {
        assert(848_048_096int * 848_048_096int + 529_919_264int * 529_919_264int - 1_000_000_000int * 1_000_000_000int == -512473088);
    } else if k == 59 {
        assert(857_167_301int * 857_167_301int + 515_038_075int * 515_038_075int - 1_000_000_000int * 1_000_000_000int == 603330226);
    } else if k == 60 {
        assert(866_025_404int * 866_025_404int + 500_000_000int * 500_000_000int - 1_000_000_000int * 1_000_000_000int == 373363216);
    } else if k == 61 {
        assert(874_619_707int * 874_619_707int + 484_809_620int * 484_809_620int - 1_000_000_000int * 1_000_000_000int == -482689751);
    } else if k == 62 {
        assert(882_947_593int * 882_947_593int + 469_471_563int * 469_471_563int - 1_000_000_000int * 1_000_000_000int == 450156618);
    } else if k == 63 {
        assert(891_006_524int * 891_006_524int + 453_990_500int * 453_990_500int - 1_000_000_000int * 1_000_000_000int == -99187424);
    } else if k == 64 {
        assert(898_794_046int * 898_794_046int + 438_371_147int * 438_371_147int - 1_000_000_000int * 1_000_000_000int == -352854275);
    } else if k == 65 {
        assert(906_307_787int * 906_307_787int + 422_618_262int * 422_618_262int - 1_000_000_000int * 1_000_000_000int == 152738013);
    } else if k == 66 {
        assert(913_545_458int * 913_545_458int + 406_736_643int * 406_736_643int - 1_000_000_000int * 1_000_000_000int == 591339213);
    } else if k == 67 {
        assert(920_504_853int * 920_504_853int + 390_731_128int * 390_731_128int - 1_000_000_000int * 1_000_000_000int == -1215296007);
    } else if k == 68 {
        assert(927_183_855int * 927_183_855int + 374_606_593int * 374_606_593int - 1_000_000_000int * 1_000_000_000int == 491728674);
    } else if k == 69 {
        assert(933_580_426int * 933_580_426int + 358_367_950int * 358_367_950int - 1_000_000_000int * 1_000_000_000int == -602456024);
    } else if k == 70 {
        assert(939_692_621int * 939_692_621int + 342_020_143int * 342_020_143int - 1_000_000_000int * 1_000_000_000int == 179590090);
    } else if k == 71 {
        assert(945_518_576int * 945_518_576int + 325_568_154int * 325_568_154int - 1_000_000_000int * 1_000_000_000int == 460035492);
    } else if k == 72 {
        assert(951_056_516int * 951_056_516int + 309_016_994int * 309_016_994int - 1_000_000_000int * 1_000_000_000int == -793145708);
    } else if k == 73 {
        assert(956_304_756int * 956_304_756int + 292_371_705int * 292_371_705int - 1_000_000_000int * 1_000_000_000int == 232826561);
    } else if k == 74 {
        assert(961_261_696int * 961_261_696int + 275_637_356int * 275_637_356int - 1_000_000_000int * 1_000_000_000int == 219467152);
    } else if k == 75 {
        assert(965_925_826int * 965_925_826int + 258_819_045int * 258_819_045int - 1_000_000_000int * 1_000_000_000int == -611505699);
    } else if k == 76 {
        assert(970_295_726int * 970_295_726int + 241_921_896int * 241_921_896int - 1_000_000_000int * 1_000_000_000int == -341898108);
    } else if k == 77 {
        assert(974_370_065int * 974_370_065int + 224_951_054int * 224_951_054int - 1_000_000_000int * 1_000_000_000int == 263815141);
    } else if k == 78 {
        assert(978_147_601int * 978_147_601int + 207_911_691int * 207_911_691int - 1_000_000_000int * 1_000_000_000int == 596534682);
    } else if k == 79 {
        assert(981_627_183int * 981_627_183int + 190_808_995int * 190_808_995int - 1_000_000_000int * 1_000_000_000int == -1022574486);
    } else if k == 80 {
        assert(984_807_753int * 984_807_753int + 173_648_178int * 173_648_178int - 1_000_000_000int * 1_000_000_000int == 91628693);
    } else if k == 81 {
        assert(987_688_341int * 987_688_341int + 156_434_465int * 156_434_465int - 1_000_000_000int * 1_000_000_000int == 787168506);
    } else if k == 82 {
        assert(990_268_069int * 990_268_069int + 139_173_101int * 139_173_101int - 1_000_000_000int * 1_000_000_000int == 522944962);
    } else if k == 83 {
        assert(992_546_152int * 992_546_152int + 121_869_343int * 121_869_343int - 1_000_000_000int * 1_000_000_000int == 613258753);
    } else if k == 84 {
        assert(994_521_895int * 994_521_895int + 104_528_463int * 104_528_463int - 1_000_000_000int * 1_000_000_000int == -788466606);
    } else if k == 85 {
        assert(996_194_698int * 996_194_698int + 87_155_743int * 87_155_743int - 1_000_000_000int * 1_000_000_000int == -138806747);
    } else if k == 86 {
        assert(997_564_050int * 997_564_050int + 69_756_474int * 69_756_474int - 1_000_000_000int * 1_000_000_000int == -482684824);
    } else if k == 87 {
        assert(998_629_535int * 998_629_535int + 52_335_956int * 52_335_956int - 1_000_000_000int * 1_000_000_000int == 464750161);
    } else if k == 88 {
        assert(999_390_827int * 999_390_827int + 34_899_497int * 34_899_497int - 1_000_000_000int * 1_000_000_000int == -17403062);
    } else if k == 89 {
        assert(999_847_695int * 999_847_695int + 17_452_406int * 17_452_406int - 1_000_000_000int * 1_000_000_000int == -327998139);
    } else {
        assert(1_000_000_000int * 1_000_000_000int + 0int * 0int - 1_000_000_000int * 1_000_000_000int == 0);
    }
}

/// Every whole number of degrees has a heading.
pub proof fn lemma_heading_of_degrees_is_unit(degrees: int)
    ensures
        is_unit_heading(heading_of_degrees(degrees)),
{
    let a = degrees % 360;
    let h = heading_of_degrees(degrees);
    if a <= 90 {
        lemma_table_is_unit(a);
    } else if a <= 180 {
        lemma_table_is_unit(a - 90);
    } else if a <= 270 {
        lemma_table_is_unit(a - 180);
    } else {
        lemma_table_is_unit(360 - a);
    }
    assert((-h.x) * (-h.x) == h.x * h.x && (-h.y) * (-h.y) == h.y * h.y) by (nonlinear_arith);
}

/// The sine of `k` degrees, scaled by [`UNIT`].
fn sine(k: i64) -> (s: i64)
    requires
        0 <= k <= 90,
    ensures
        s == sine_of(k as int),
{
    if k == 0 {
        0
    } else if k == 1 {
        17_452_406
    } else if k == 2 {
        34_899_497
    } else if k == 3 {
        52_335_956
    } else if k == 4 {
        69_756_474
    } else if k == 5 {
        87_155_743
    } else if k == 6 {
        104_528_463
    } else if k == 7 {
        121_869_343
    } else if k == 8 {
        139_173_101
    } else if k == 9 {
        156_434_465
    } else if k == 10 {
        173_648_178
    } else if k == 11 {
        190_808_995
    } else if k == 12 {
        207_911_691
    } else if k == 13 {
        224_951_054
    } else if k == 14 {
        241_921_896
    } else if k == 15 {
        258_819_045
    } else if k == 16 {
        275_637_356
    } else if k == 17 {
        292_371_705
    } else if k == 18 {
        309_016_994
    } else if k == 19 {
        325_568_154
    } else if k == 20 {
        342_020_143
    } else if k == 21 {
        358_367_950
    } else if k == 22 {
        374_606_593
    } else if k == 23 {
        390_731_128
    } else if k == 24 {
        406_736_643
    } else if k == 25 {
        422_618_262
    } else if k == 26 {
        438_371_147
    } else if k == 27 {
        453_990_500
    } else if k == 28 {
        469_471_563
    } else if k == 29 {
        484_809_620
    } else if k == 30 {
        500_000_000
    } else if k == 31 {
        515_038_075
    } else if k == 32 {
        529_919_264
    } else if k == 33 {
        544_639_035
    } else if k == 34 {
        559_192_903
    } else if k == 35 {
        573_576_436
    } else if k == 36 {
        587_785_252
    } else if k == 37 {
        601_815_023
    } else if k == 38 {
        615_661_475
    } else if k == 39 {
        629_320_391
    } else if k == 40 {
        642_787_610
    } else if k == 41 {
        656_059_029
    } else if k == 42 {
        669_130_606
    } else if k == 43 {
        681_998_360
    } else if k == 44 {
        694_658_370
    } else if k == 45 {
        707_106_781
    } else if k == 46 {
        719_339_800
    } else if k == 47 {
        731_353_702
    } else if k == 48 {
        743_144_825
    } else if k == 49 {
        754_709_580
    } else if k == 50 {
        766_044_443
    } else if k == 51 {
        777_145_961
    } else if k == 52 {
        788_010_754
    } else if k == 53 {
        798_635_510
    } else if k == 54 {
        809_016_994
    } else if k == 55 {
        819_152_044
    } else if k == 56 {
        829_037_573
    } else if k == 57 {
        838_670_568
    } else if k == 58 {
        848_048_096
    } else if k == 59 {
        857_167_301
    } else if k == 60 {
        866_025_404
    } else if k == 61 {
        874_619_707
    } else if k == 62 {
        882_947_593
    } else if k == 63 {
        891_006_524
    } else if k == 64 {
        898_794_046
    } else if k == 65 {
        906_307_787
    } else if k == 66 {
        913_545_458
    } else if k == 67 {
        920_504_853
    } else if k == 68 {
        927_183_855
    } else if k == 69 {
        933_580_426
    } else if k == 70 {
        939_692_621
    } else if k == 71 {
        945_518_576
    } else if k == 72 {
        951_056_516
    } else if k == 73 {
        956_304_756
    } else if k == 74 {
        961_261_696
    } else if k == 75 {
        965_925_826
    } else if k == 76 {
        970_295_726
    } else if k == 77 {
        974_370_065
    } else if k == 78 {
        978_147_601
    } else if k == 79 {
        981_627_183
    } else if k == 80 {
        984_807_753
    } else if k == 81 {
        987_688_341
    } else if k == 82 {
        990_268_069
    } else if k == 83 {
        992_546_152
    } else if k == 84 {
        994_521_895
    } else if k == 85 {
        996_194_698
    } else if k == 86 {
        997_564_050
    } else if k == 87 {
        998_629_535
    } else if k == 88 {
        999_390_827
    } else if k == 89 {
        999_847_695
    } else {
        1_000_000_000
    }
}

/// A direction: the cosine and sine of an angle, each scaled by [`UNIT`].
#[derive(Clone, Copy, Debug)]
pub struct Heading {
    cos: i64,
    sin: i64,
}

impl View for Heading {
    type V = Point;

    closed spec fn view(&self) -> Point {
        Point { x: self.cos as int, y: self.sin as int }
    }
}

impl Heading {
    #[verifier::type_invariant]
    spec fn inv(self) -> bool {
        is_unit_heading(self@)
    }

    /// The heading with the given scaled cosine and sine, if they form a unit vector.
    pub fn new(cos: i64, sin: i64) -> (r: Option<Heading>)
        ensures
            r is Some <==> is_unit_heading(Point { x: cos as int, y: sin as int }),
            r matches Some(h) ==> h@ == (Point { x: cos as int, y: sin as int }),
    {
        if cos < -UNIT || cos > UNIT || sin < -UNIT || sin > UNIT {
            return None;
        }
        assert(0 <= cos * cos <= UNIT * UNIT && 0 <= sin * sin <= UNIT * UNIT
            && UNIT * UNIT == 1_000_000_000_000_000_000) by (nonlinear_arith)
            requires
                -UNIT <= cos <= UNIT,
                -UNIT <= sin <= UNIT,
                UNIT == 1_000_000_000,
        ;
        let norm: i128 = cos as i128 * cos as i128 + sin as i128 * sin as i128;
        let one: i128 = UNIT as i128 * UNIT as i128;
        if norm - one < -2 * UNIT as i128 || norm - one > 2 * UNIT as i128 {
            return None;
        }
        Some(Heading { cos, sin })
    }

    /// The heading of an angle of a whole number of degrees, counted counter-clockwise
    /// from the first axis: see [`heading_of_degrees`].
    pub fn from_degrees(degrees: i64) -> (h: Heading)
        ensures
            h@ == heading_of_degrees(degrees as int),
    {
        proof {
            lemma_heading_of_degrees_is_unit(degrees as int);
            lemma_table_is_unit(0);
        }
        let a: i64 = if degrees >= 0 {
            degrees % 360
        } else {
            let below: i64 = -(degrees + 1);
            proof {
                lemma_fundamental_div_mod(below as int, 360);
                lemma_fundamental_div_mod_converse(
                    degrees as int,
                    360,
                    -(below as int / 360) - 1,
                    359 - (below as int % 360),
                );
            }
            359 - below % 360
        };
        if a <= 90 {
            Heading { cos: sine(90 - a), sin: sine(a) }
        } else if a <= 180 {
            Heading { cos: -sine(a - 90), sin: sine(180 - a) }
        } else if a <= 270 {
            Heading { cos: -sine(270 - a), sin: -sine(a - 180) }
        } else {
            Heading { cos: sine(a - 270), sin: -sine(360 - a) }
        }
    }

    /// The cosine of the angle, scaled by [`UNIT`].
    pub fn cos(&self) -> (c: i64)
        ensures
            c == self@.x,
            is_unit_heading(self@),
    {
        proof {
            use_type_invariant(self);
        }
        self.cos
    }

    /// The sine of the angle, scaled by [`UNIT`].
    pub fn sin(&self) -> (s: i64)
        ensures
            s == self@.y,
            is_unit_heading(self@),
    {
        proof {
            use_type_invariant(self);
        }
        self.sin
    }
}

} // verus!
