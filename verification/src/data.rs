//! The embedded dataset. The three tables are fixed at build time: each is
//! stated once as a mathematical sequence and built once, by verified code,
//! as the exactly matching vector. `dataset_wf` records the invariants the
//! dataset is shipped with: unique ids per table and referential integrity
//! of every foreign key.

use vstd::prelude::*;

use crate::models::{City, County, Province};
use crate::models::{CityView, CountyView, ProvinceView};
use crate::models::{city_views, county_views, province_views};

verus! {

/// The province table: every province of the dataset, in dataset order.
#[verifier::opaque]
pub open spec fn provinces() -> Seq<ProvinceView> {
    seq![
        ProvinceView { id: 101, name: "آذربایجان شرقی"@, slug: "east-azerbaijan"@, tel_prefix: "041"@ },
        ProvinceView { id: 102, name: "آذربایجان غربی"@, slug: "west-azerbaijan"@, tel_prefix: "044"@ },
        ProvinceView { id: 103, name: "اردبیل"@, slug: "ardabil"@, tel_prefix: "045"@ },
        ProvinceView { id: 104, name: "اصفهان"@, slug: "isfahan"@, tel_prefix: "031"@ },
        ProvinceView { id: 105, name: "البرز"@, slug: "alborz"@, tel_prefix: "026"@ },
        ProvinceView { id: 106, name: "ایلام"@, slug: "ilam"@, tel_prefix: "084"@ },
        ProvinceView { id: 107, name: "فارس"@, slug: "fars"@, tel_prefix: "071"@ },
        ProvinceView { id: 108, name: "بوشهر"@, slug: "bushehr"@, tel_prefix: "077"@ },
        ProvinceView { id: 109, name: "چهارمحال و بختیاری"@, slug: "chaharmahal-and-bakhtiari"@, tel_prefix: "038"@ },
        ProvinceView { id: 110, name: "خراسان جنوبی"@, slug: "south-khorasan"@, tel_prefix: "056"@ },
        ProvinceView { id: 111, name: "خراسان رضوی"@, slug: "razavi-khorasan"@, tel_prefix: "051"@ },
        ProvinceView { id: 112, name: "خراسان شمالی"@, slug: "north-khorasan"@, tel_prefix: "058"@ },
        ProvinceView { id: 113, name: "خوزستان"@, slug: "khuzestan"@, tel_prefix: "061"@ },
        ProvinceView { id: 114, name: "زنجان"@, slug: "zanjan"@, tel_prefix: "024"@ },
        ProvinceView { id: 115, name: "سمنان"@, slug: "semnan"@, tel_prefix: "023"@ },
        ProvinceView { id: 116, name: "سیستان و بلوچستان"@, slug: "sistan-and-baluchestan"@, tel_prefix: "054"@ },
        ProvinceView { id: 117, name: "قزوین"@, slug: "qazvin"@, tel_prefix: "028"@ },
        ProvinceView { id: 118, name: "قم"@, slug: "qom"@, tel_prefix: "025"@ },
        ProvinceView { id: 119, name: "کردستان"@, slug: "kurdistan"@, tel_prefix: "087"@ },
        ProvinceView { id: 120, name: "کرمان"@, slug: "kerman"@, tel_prefix: "034"@ },
        ProvinceView { id: 121, name: "کرمانشاه"@, slug: "kermanshah"@, tel_prefix: "083"@ },
        ProvinceView { id: 122, name: "کهگیلویه و بویراحمد"@, slug: "kohgiluyeh-and-boyer-ahmad"@, tel_prefix: "074"@ },
        ProvinceView { id: 123, name: "تهران"@, slug: "tehran"@, tel_prefix: "021"@ },
        ProvinceView { id: 124, name: "گلستان"@, slug: "golestan"@, tel_prefix: "017"@ },
        ProvinceView { id: 125, name: "گیلان"@, slug: "gilan"@, tel_prefix: "013"@ },
        ProvinceView { id: 126, name: "لرستان"@, slug: "lorestan"@, tel_prefix: "066"@ },
        ProvinceView { id: 127, name: "مازندران"@, slug: "mazandaran"@, tel_prefix: "011"@ },
        ProvinceView { id: 128, name: "مرکزی"@, slug: "markazi"@, tel_prefix: "086"@ },
        ProvinceView { id: 129, name: "هرمزگان"@, slug: "hormozgan"@, tel_prefix: "076"@ },
        ProvinceView { id: 130, name: "همدان"@, slug: "hamadan"@, tel_prefix: "081"@ },
        ProvinceView { id: 131, name: "یزد"@, slug: "yazd"@, tel_prefix: "035"@ },
    ]
}

/// Builds the province table. Every call returns a vector whose contents
/// are exactly `provinces()`.
pub(crate) fn province_table() -> (r: Vec<Province>)
    ensures
        province_views(r@) == provinces(),
{
    let mut v: Vec<Province> = Vec::new();
    v.push(Province { id: 101, name: "آذربایجان شرقی".to_string(), slug: "east-azerbaijan".to_string(), tel_prefix: "041".to_string() });
    v.push(Province { id: 102, name: "آذربایجان غربی".to_string(), slug: "west-azerbaijan".to_string(), tel_prefix: "044".to_string() });
    v.push(Province { id: 103, name: "اردبیل".to_string(), slug: "ardabil".to_string(), tel_prefix: "045".to_string() });
    v.push(Province { id: 104, name: "اصفهان".to_string(), slug: "isfahan".to_string(), tel_prefix: "031".to_string() });
    v.push(Province { id: 105, name: "البرز".to_string(), slug: "alborz".to_string(), tel_prefix: "026".to_string() });
    v.push(Province { id: 106, name: "ایلام".to_string(), slug: "ilam".to_string(), tel_prefix: "084".to_string() });
    v.push(Province { id: 107, name: "فارس".to_string(), slug: "fars".to_string(), tel_prefix: "071".to_string() });
    v.push(Province { id: 108, name: "بوشهر".to_string(), slug: "bushehr".to_string(), tel_prefix: "077".to_string() });
    v.push(Province { id: 109, name: "چهارمحال و بختیاری".to_string(), slug: "chaharmahal-and-bakhtiari".to_string(), tel_prefix: "038".to_string() });
    v.push(Province { id: 110, name: "خراسان جنوبی".to_string(), slug: "south-khorasan".to_string(), tel_prefix: "056".to_string() });
    v.push(Province { id: 111, name: "خراسان رضوی".to_string(), slug: "razavi-khorasan".to_string(), tel_prefix: "051".to_string() });
    v.push(Province { id: 112, name: "خراسان شمالی".to_string(), slug: "north-khorasan".to_string(), tel_prefix: "058".to_string() });
    v.push(Province { id: 113, name: "خوزستان".to_string(), slug: "khuzestan".to_string(), tel_prefix: "061".to_string() });
    v.push(Province { id: 114, name: "زنجان".to_string(), slug: "zanjan".to_string(), tel_prefix: "024".to_string() });
    v.push(Province { id: 115, name: "سمنان".to_string(), slug: "semnan".to_string(), tel_prefix: "023".to_string() });
    v.push(Province { id: 116, name: "سیستان و بلوچستان".to_string(), slug: "sistan-and-baluchestan".to_string(), tel_prefix: "054".to_string() });
    v.push(Province { id: 117, name: "قزوین".to_string(), slug: "qazvin".to_string(), tel_prefix: "028".to_string() });
    v.push(Province { id: 118, name: "قم".to_string(), slug: "qom".to_string(), tel_prefix: "025".to_string() });
    v.push(Province { id: 119, name: "کردستان".to_string(), slug: "kurdistan".to_string(), tel_prefix: "087".to_string() });
    v.push(Province { id: 120, name: "کرمان".to_string(), slug: "kerman".to_string(), tel_prefix: "034".to_string() });
    v.push(Province { id: 121, name: "کرمانشاه".to_string(), slug: "kermanshah".to_string(), tel_prefix: "083".to_string() });
    v.push(Province { id: 122, name: "کهگیلویه و بویراحمد".to_string(), slug: "kohgiluyeh-and-boyer-ahmad".to_string(), tel_prefix: "074".to_string() });
    v.push(Province { id: 123, name: "تهران".to_string(), slug: "tehran".to_string(), tel_prefix: "021".to_string() });
    v.push(Province { id: 124, name: "گلستان".to_string(), slug: "golestan".to_string(), tel_prefix: "017".to_string() });
    v.push(Province { id: 125, name: "گیلان".to_string(), slug: "gilan".to_string(), tel_prefix: "013".to_string() });
    v.push(Province { id: 126, name: "لرستان".to_string(), slug: "lorestan".to_string(), tel_prefix: "066".to_string() });
    v.push(Province { id: 127, name: "مازندران".to_string(), slug: "mazandaran".to_string(), tel_prefix: "011".to_string() });
    v.push(Province { id: 128, name: "مرکزی".to_string(), slug: "markazi".to_string(), tel_prefix: "086".to_string() });
    v.push(Province { id: 129, name: "هرمزگان".to_string(), slug: "hormozgan".to_string(), tel_prefix: "076".to_string() });
    v.push(Province { id: 130, name: "همدان".to_string(), slug: "hamadan".to_string(), tel_prefix: "081".to_string() });
    v.push(Province { id: 131, name: "یزد".to_string(), slug: "yazd".to_string(), tel_prefix: "035".to_string() });
    proof {
        reveal(provinces);
        assert(province_views(v@) =~= provinces());
    }
    v
}

/// The county table: every county of the dataset, in dataset order.
#[verifier::opaque]
pub open spec fn counties() -> Seq<CountyView> {
    seq![
        CountyView { id: 1011, name: "تبریز"@, slug: "tabriz"@, province_id: 101 },
        CountyView { id: 1041, name: "اصفهان"@, slug: "isfahan"@, province_id: 104 },
        CountyView { id: 1042, name: "کاشان"@, slug: "kashan"@, province_id: 104 },
        CountyView { id: 1071, name: "شیراز"@, slug: "shiraz"@, province_id: 107 },
        CountyView { id: 1072, name: "مرودشت"@, slug: "marvdasht"@, province_id: 107 },
        CountyView { id: 1073, name: "کازرون"@, slug: "kazerun"@, province_id: 107 },
        CountyView { id: 1111, name: "مشهد"@, slug: "mashhad"@, province_id: 111 },
        CountyView { id: 1231, name: "تهران"@, slug: "tehran"@, province_id: 123 },
        CountyView { id: 1232, name: "ری"@, slug: "rey"@, province_id: 123 },
        CountyView { id: 1233, name: "شمیرانات"@, slug: "shemiranat"@, province_id: 123 },
        CountyView { id: 1251, name: "رشت"@, slug: "rasht"@, province_id: 125 },
        CountyView { id: 1311, name: "یزد"@, slug: "yazd"@, province_id: 131 },
    ]
}

/// Builds the county table. Every call returns a vector whose contents are
/// exactly `counties()`.
pub(crate) fn county_table() -> (r: Vec<County>)
    ensures
        county_views(r@) == counties(),
{
    let mut v: Vec<County> = Vec::new();
    v.push(County { id: 1011, name: "تبریز".to_string(), slug: "tabriz".to_string(), province_id: 101 });
    v.push(County { id: 1041, name: "اصفهان".to_string(), slug: "isfahan".to_string(), province_id: 104 });
    v.push(County { id: 1042, name: "کاشان".to_string(), slug: "kashan".to_string(), province_id: 104 });
    v.push(County { id: 1071, name: "شیراز".to_string(), slug: "shiraz".to_string(), province_id: 107 });
    v.push(County { id: 1072, name: "مرودشت".to_string(), slug: "marvdasht".to_string(), province_id: 107 });
    v.push(County { id: 1073, name: "کازرون".to_string(), slug: "kazerun".to_string(), province_id: 107 });
    v.push(County { id: 1111, name: "مشهد".to_string(), slug: "mashhad".to_string(), province_id: 111 });
    v.push(County { id: 1231, name: "تهران".to_string(), slug: "tehran".to_string(), province_id: 123 });
    v.push(County { id: 1232, name: "ری".to_string(), slug: "rey".to_string(), province_id: 123 });
    v.push(County { id: 1233, name: "شمیرانات".to_string(), slug: "shemiranat".to_string(), province_id: 123 });
    v.push(County { id: 1251, name: "رشت".to_string(), slug: "rasht".to_string(), province_id: 125 });
    v.push(County { id: 1311, name: "یزد".to_string(), slug: "yazd".to_string(), province_id: 131 });
    proof {
        reveal(counties);
        assert(county_views(v@) =~= counties());
    }
    v
}

/// The city table: every city of the dataset, in dataset order.
#[verifier::opaque]
pub open spec fn cities() -> Seq<CityView> {
    seq![
        CityView { id: 10110, name: "تبریز"@, slug: "tabriz"@, province_id: 101, county_id: 1011 },
        CityView { id: 10410, name: "اصفهان"@, slug: "isfahan"@, province_id: 104, county_id: 1041 },
        CityView { id: 10420, name: "کاشان"@, slug: "kashan"@, province_id: 104, county_id: 1042 },
        CityView { id: 10710, name: "شیراز"@, slug: "shiraz"@, province_id: 107, county_id: 1071 },
        CityView { id: 10720, name: "مرودشت"@, slug: "marvdasht"@, province_id: 107, county_id: 1072 },
        CityView { id: 10730, name: "کازرون"@, slug: "kazerun"@, province_id: 107, county_id: 1073 },
        CityView { id: 11110, name: "مشهد"@, slug: "mashhad"@, province_id: 111, county_id: 1111 },
        CityView { id: 12310, name: "تهران"@, slug: "tehran"@, province_id: 123, county_id: 1231 },
        CityView { id: 12320, name: "ری"@, slug: "rey"@, province_id: 123, county_id: 1232 },
        CityView { id: 12330, name: "تجریش"@, slug: "tajrish"@, province_id: 123, county_id: 1233 },
        CityView { id: 12510, name: "رشت"@, slug: "rasht"@, province_id: 125, county_id: 1251 },
        CityView { id: 13110, name: "یزد"@, slug: "yazd"@, province_id: 131, county_id: 1311 },
    ]
}

/// Builds the city table. Every call returns a vector whose contents are
/// exactly `cities()`.
pub(crate) fn city_table() -> (r: Vec<City>)
    ensures
        city_views(r@) == cities(),
{
    let mut v: Vec<City> = Vec::new();
    v.push(City { id: 10110, name: "تبریز".to_string(), slug: "tabriz".to_string(), province_id: 101, county_id: 1011 });
    v.push(City { id: 10410, name: "اصفهان".to_string(), slug: "isfahan".to_string(), province_id: 104, county_id: 1041 });
    v.push(City { id: 10420, name: "کاشان".to_string(), slug: "kashan".to_string(), province_id: 104, county_id: 1042 });
    v.push(City { id: 10710, name: "شیراز".to_string(), slug: "shiraz".to_string(), province_id: 107, county_id: 1071 });
    v.push(City { id: 10720, name: "مرودشت".to_string(), slug: "marvdasht".to_string(), province_id: 107, county_id: 1072 });
    v.push(City { id: 10730, name: "کازرون".to_string(), slug: "kazerun".to_string(), province_id: 107, county_id: 1073 });
    v.push(City { id: 11110, name: "مشهد".to_string(), slug: "mashhad".to_string(), province_id: 111, county_id: 1111 });
    v.push(City { id: 12310, name: "تهران".to_string(), slug: "tehran".to_string(), province_id: 123, county_id: 1231 });
    v.push(City { id: 12320, name: "ری".to_string(), slug: "rey".to_string(), province_id: 123, county_id: 1232 });
    v.push(City { id: 12330, name: "تجریش".to_string(), slug: "tajrish".to_string(), province_id: 123, county_id: 1233 });
    v.push(City { id: 12510, name: "رشت".to_string(), slug: "rasht".to_string(), province_id: 125, county_id: 1251 });
    v.push(City { id: 13110, name: "یزد".to_string(), slug: "yazd".to_string(), province_id: 131, county_id: 1311 });
    proof {
        reveal(cities);
        assert(city_views(v@) =~= cities());
    }
    v
}

/// Some province of the dataset carries the id `x`.
pub open spec fn province_id_known(x: u32) -> bool {
    exists|i: int| 0 <= i < provinces().len() && (#[trigger] provinces()[i]).id == x
}

/// Some county of the dataset carries the id `x`.
pub open spec fn county_id_known(x: u32) -> bool {
    exists|i: int| 0 <= i < counties().len() && (#[trigger] counties()[i]).id == x
}

/// The invariants the dataset is shipped with: ids are unique within each
/// table, and every foreign key names an existing parent — each county's
/// province exists, and each city's province and county exist.
pub open spec fn dataset_wf() -> bool {
    &&& (forall|i: int, j: int|
        0 <= i < j < provinces().len() ==> (#[trigger] provinces()[i]).id != (
        #[trigger] provinces()[j]).id)
    &&& (forall|i: int, j: int|
        0 <= i < j < counties().len() ==> (#[trigger] counties()[i]).id != (
        #[trigger] counties()[j]).id)
    &&& (forall|i: int, j: int|
        0 <= i < j < cities().len() ==> (#[trigger] cities()[i]).id != (#[trigger] cities()[j]).id)
    &&& (forall|j: int|
        0 <= j < counties().len() ==> province_id_known((#[trigger] counties()[j]).province_id))
    &&& (forall|j: int|
        0 <= j < cities().len() ==> province_id_known((#[trigger] cities()[j]).province_id))
    &&& (forall|j: int|
        0 <= j < cities().len() ==> county_id_known((#[trigger] cities()[j]).county_id))
}

/// Whether `s` grows strictly from each position to the next.
spec fn strictly_increasing(s: Seq<int>) -> bool {
    forall|k: int| 0 <= k && k + 1 < s.len() ==> (#[trigger] s[k]) < s[k + 1]
}

/// In a strictly growing sequence, an earlier element is below a later one.
proof fn lemma_increasing_apart(s: Seq<int>, i: int, j: int)
    requires
        strictly_increasing(s),
        0 <= i < j < s.len(),
    ensures
        s[i] < s[j],
    decreases j - i,
{
    if i + 1 < j {
        lemma_increasing_apart(s, i, j - 1);
    }
}

/// The shipped dataset satisfies its invariants.
pub proof fn lemma_dataset_wf()
    ensures
        dataset_wf(),
{
    reveal(provinces);
    reveal(counties);
    reveal(cities);
    let pids = provinces().map_values(|p: ProvinceView| p.id as int);
    let cids = counties().map_values(|c: CountyView| c.id as int);
    let kids = cities().map_values(|k: CityView| k.id as int);
    assert(strictly_increasing(pids));
    assert(strictly_increasing(cids));
    assert(strictly_increasing(kids));
    assert forall|i: int, j: int| 0 <= i < j < provinces().len() implies (
    #[trigger] provinces()[i]).id != (#[trigger] provinces()[j]).id by {
        lemma_increasing_apart(pids, i, j);
    }
    assert forall|i: int, j: int| 0 <= i < j < counties().len() implies (
    #[trigger] counties()[i]).id != (#[trigger] counties()[j]).id by {
        lemma_increasing_apart(cids, i, j);
    }
    assert forall|i: int, j: int| 0 <= i < j < cities().len() implies (#[trigger] cities()[i]).id
        != (#[trigger] cities()[j]).id by {
        lemma_increasing_apart(kids, i, j);
    }
    assert(provinces()[0].id == 101);
    assert(provinces()[3].id == 104);
    assert(provinces()[6].id == 107);
    assert(provinces()[10].id == 111);
    assert(provinces()[22].id == 123);
    assert(provinces()[24].id == 125);
    assert(provinces()[30].id == 131);
    assert(counties()[0].id == 1011);
    assert(counties()[1].id == 1041);
    assert(counties()[2].id == 1042);
    assert(counties()[3].id == 1071);
    assert(counties()[4].id == 1072);
    assert(counties()[5].id == 1073);
    assert(counties()[6].id == 1111);
    assert(counties()[7].id == 1231);
    assert(counties()[8].id == 1232);
    assert(counties()[9].id == 1233);
    assert(counties()[10].id == 1251);
    assert(counties()[11].id == 1311);
}

} // verus!
