//! Read-only, in-memory access to a fixed geographical hierarchy of Iran:
//! provinces, counties and cities. The dataset is fixed at build time; every
//! query is a linear scan over it, and every absence is an ordinary `None` or
//! empty result, never a fault.

use vstd::prelude::*;

pub mod data;
pub mod models;
pub mod scan;

pub use models::{City, County, District, Province, RuralDistrict};

use crate::data::{cities, counties, provinces};
use crate::data::{city_table, county_table, province_table};
use crate::data::{lemma_dataset_wf, province_id_known};
use crate::models::{CityView, CountyView, ProvinceView};
use crate::models::{city_views, county_views, province_views};
use crate::scan::{first_match, lemma_filter_no_match, lemma_filter_push};
use crate::scan::{lemma_first_match_found, lemma_first_match_none};
use crate::scan::{lemma_first_match_is_match, lemma_first_match_some};

verus! {

/// The contents of an optional province.
pub open spec fn province_opt_view(r: Option<Province>) -> Option<ProvinceView> {
    match r {
        Some(p) => Some(p@),
        None => None,
    }
}

/// Holds of a province carrying exactly the id `id`.
pub open spec fn has_province_id(id: u32) -> spec_fn(ProvinceView) -> bool {
    |p: ProvinceView| p.id == id
}

/// Holds of a county belonging to the province with id `province_id`.
pub open spec fn county_in_province(province_id: u32) -> spec_fn(CountyView) -> bool {
    |c: CountyView| c.province_id == province_id
}

/// Holds of a city belonging to the province with id `province_id`.
pub open spec fn city_in_province(province_id: u32) -> spec_fn(CityView) -> bool {
    |c: CityView| c.province_id == province_id
}

/// Holds of a city named exactly `name`.
pub open spec fn city_named(name: Seq<char>) -> spec_fn(CityView) -> bool {
    |c: CityView| c.name == name
}

/// Returns every province, in dataset order. Every call returns the same
/// contents: exactly `provinces()`.
pub fn get_all_provinces() -> (r: Vec<Province>)
    ensures
        province_views(r@) == provinces(),
{
    province_table()
}

/// Finds a province by its id: the first province of the dataset carrying
/// `id`, or `None` exactly when no province carries it.
pub fn find_province_by_id(id: u32) -> (r: Option<Province>)
    ensures
        province_opt_view(r) == first_match(provinces(), has_province_id(id)),
{
    let mut v: Vec<Province> = province_table();
    let n: usize = v.len();
    let mut i: usize = 0;
    while i < n
        invariant
            n == v@.len(),
            province_views(v@) == provinces(),
            i <= n,
            forall|j: int| 0 <= j < i ==> !has_province_id(id)(#[trigger] provinces()[j]),
        decreases n - i,
    {
        proof {
            assert(provinces()[i as int] == v@[i as int]@);
        }
        if v[i].id == id {
            proof {
                lemma_first_match_found(provinces(), has_province_id(id), i as int);
            }
            let p = v.remove(i);
            return Some(p);
        }
        i = i + 1;
    }
    proof {
        assert(provinces().len() == v@.len());
        lemma_first_match_none(provinces(), has_province_id(id));
    }
    None
}

/// Returns every county, in dataset order. Every call returns the same
/// contents: exactly `counties()`.
pub fn get_all_counties() -> (r: Vec<County>)
    ensures
        county_views(r@) == counties(),
{
    county_table()
}

/// Returns the counties of the province with id `province_id`, in dataset
/// order; the empty vector when no county belongs to it.
pub fn get_counties_of_province(province_id: u32) -> (r: Vec<County>)
    ensures
        county_views(r@) == counties().filter(county_in_province(province_id)),
{
    let all: Vec<County> = county_table();
    let mut out: Vec<County> = Vec::new();
    let n: usize = all.len();
    let mut i: usize = 0;
    proof {
        assert(counties().take(0).filter(county_in_province(province_id)) =~= county_views(
            out@,
        ));
    }
    while i < n
        invariant
            n == all@.len(),
            county_views(all@) == counties(),
            i <= n,
            county_views(out@) == counties().take(i as int).filter(
                county_in_province(province_id),
            ),
        decreases n - i,
    {
        proof {
            assert(counties()[i as int] == all@[i as int]@);
            lemma_filter_push(
                counties().take(i as int),
                counties()[i as int],
                county_in_province(province_id),
            );
            assert(counties().take(i as int).push(counties()[i as int]) =~= counties().take(
                i as int + 1,
            ));
        }
        if all[i].province_id == province_id {
            out.push(all[i].clone());
            proof {
                assert(county_views(out@) =~= counties().take(i as int + 1).filter(
                    county_in_province(province_id),
                ));
            }
        }
        i = i + 1;
    }
    proof {
        assert(counties().take(n as int) =~= counties());
    }
    out
}

/// Returns every city, in dataset order. Every call returns the same
/// contents: exactly `cities()`.
pub fn get_all_cities() -> (r: Vec<City>)
    ensures
        city_views(r@) == cities(),
{
    city_table()
}

/// Returns the cities of the province with id `province_id`, in dataset
/// order; the empty vector when no city belongs to it.
pub fn get_cities_of_province(province_id: u32) -> (r: Vec<City>)
    ensures
        city_views(r@) == cities().filter(city_in_province(province_id)),
{
    let all: Vec<City> = city_table();
    let mut out: Vec<City> = Vec::new();
    let n: usize = all.len();
    let mut i: usize = 0;
    proof {
        assert(cities().take(0).filter(city_in_province(province_id)) =~= city_views(out@));
    }
    while i < n
        invariant
            n == all@.len(),
            city_views(all@) == cities(),
            i <= n,
            city_views(out@) == cities().take(i as int).filter(city_in_province(province_id)),
        decreases n - i,
    {
        proof {
            assert(cities()[i as int] == all@[i as int]@);
            lemma_filter_push(
                cities().take(i as int),
                cities()[i as int],
                city_in_province(province_id),
            );
            assert(cities().take(i as int).push(cities()[i as int]) =~= cities().take(
                i as int + 1,
            ));
        }
        if all[i].province_id == province_id {
            out.push(all[i].clone());
            proof {
                assert(city_views(out@) =~= cities().take(i as int + 1).filter(
                    city_in_province(province_id),
                ));
            }
        }
        i = i + 1;
    }
    proof {
        assert(cities().take(n as int) =~= cities());
    }
    out
}

/// Finds the province of a city given the city's exact, case-sensitive
/// name. The first city of the dataset carrying that name decides; the
/// result is `None` exactly when no city carries the name, or when the
/// matching city's province id resolves to no province.
pub fn find_province_by_city_name(city_name: &str) -> (r: Option<Province>)
    ensures
        match first_match(cities(), city_named(city_name@)) {
            None => r is None,
            Some(c) => province_opt_view(r) == first_match(
                provinces(),
                has_province_id(c.province_id),
            ),
        },
{
    let query: String = city_name.to_string();
    let all: Vec<City> = city_table();
    let n: usize = all.len();
    let mut i: usize = 0;
    while i < n
        invariant
            n == all@.len(),
            city_views(all@) == cities(),
            query@ == city_name@,
            i <= n,
            forall|j: int| 0 <= j < i ==> !city_named(city_name@)(#[trigger] cities()[j]),
        decreases n - i,
    {
        proof {
            assert(cities()[i as int] == all@[i as int]@);
        }
        if all[i].name == query {
            proof {
                lemma_first_match_found(cities(), city_named(city_name@), i as int);
            }
            return find_province_by_id(all[i].province_id);
        }
        i = i + 1;
    }
    proof {
        assert(cities().len() == all@.len());
        lemma_first_match_none(cities(), city_named(city_name@));
    }
    None
}

/// Looking a province up by the id of any province of the dataset finds
/// exactly that province.
pub proof fn lemma_find_by_id_returns_that_province(i: int)
    requires
        0 <= i < provinces().len(),
    ensures
        first_match(provinces(), has_province_id(provinces()[i].id)) == Some(provinces()[i]),
{
    lemma_dataset_wf();
    assert forall|j: int| 0 <= j < i implies !has_province_id(provinces()[i].id)(
        #[trigger] provinces()[j],
    ) by {
        assert(provinces()[j].id != provinces()[i].id);
    }
    lemma_first_match_found(provinces(), has_province_id(provinces()[i].id), i);
}

/// Every county is listed among the counties of its own province.
pub proof fn lemma_county_listed_under_its_province(i: int)
    requires
        0 <= i < counties().len(),
    ensures
        counties().filter(county_in_province(counties()[i].province_id)).contains(counties()[i]),
{
    counties().lemma_filter_contains(county_in_province(counties()[i].province_id), i);
}

/// Every city is listed among the cities of its own province.
pub proof fn lemma_city_listed_under_its_province(i: int)
    requires
        0 <= i < cities().len(),
    ensures
        cities().filter(city_in_province(cities()[i].province_id)).contains(cities()[i]),
{
    cities().lemma_filter_contains(city_in_province(cities()[i].province_id), i);
}

/// An id that belongs to no province selects no counties: the dataset's
/// referential integrity leaves nothing to match it.
pub proof fn lemma_unknown_id_selects_no_counties(x: u32)
    requires
        !province_id_known(x),
    ensures
        counties().filter(county_in_province(x)) == Seq::<CountyView>::empty(),
{
    lemma_dataset_wf();
    assert forall|j: int| 0 <= j < counties().len() implies !county_in_province(x)(
        #[trigger] counties()[j],
    ) by {
        assert(province_id_known(counties()[j].province_id));
    }
    lemma_filter_no_match(counties(), county_in_province(x));
}

/// An id that belongs to no province selects no cities either.
pub proof fn lemma_unknown_id_selects_no_cities(x: u32)
    requires
        !province_id_known(x),
    ensures
        cities().filter(city_in_province(x)) == Seq::<CityView>::empty(),
{
    lemma_dataset_wf();
    assert forall|j: int| 0 <= j < cities().len() implies !city_in_province(x)(
        #[trigger] cities()[j],
    ) by {
        assert(province_id_known(cities()[j].province_id));
    }
    lemma_filter_no_match(cities(), city_in_province(x));
}

/// A name that names a city always resolves to a province: by the
/// dataset's referential integrity, the province id of whichever city a
/// name search finds belongs to an existing province.
pub proof fn lemma_named_city_always_resolves(name: Seq<char>)
    ensures
        match first_match(cities(), city_named(name)) {
            None => true,
            Some(c) => first_match(provinces(), has_province_id(c.province_id)) is Some,
        },
{
    lemma_dataset_wf();
    lemma_first_match_is_match(cities(), city_named(name));
    match first_match(cities(), city_named(name)) {
        None => {},
        Some(c) => {
            let j = choose|j: int| 0 <= j < cities().len() && cities()[j] == c;
            assert(province_id_known(cities()[j].province_id));
            let i = choose|i: int|
                0 <= i < provinces().len() && (#[trigger] provinces()[i]).id == c.province_id;
            lemma_first_match_some(provinces(), has_province_id(c.province_id), i);
        },
    }
}

/// The city search is exact: a name that differs from the name of every
/// city — in case or in anything else — finds nothing.
pub proof fn lemma_city_search_is_exact(name: Seq<char>)
    requires
        forall|j: int| 0 <= j < cities().len() ==> (#[trigger] cities()[j]).name != name,
    ensures
        first_match(cities(), city_named(name)) is None,
{
    lemma_first_match_none(cities(), city_named(name));
}

} // verus!
