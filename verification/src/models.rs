use vstd::prelude::*;

verus! {

/// A top-level administrative region; the root of the geographical hierarchy.
#[derive(Debug, PartialEq, Eq)]
pub struct Province {
    pub id: u32,
    pub name: String,
    pub slug: String,
    pub tel_prefix: String,
}

/// An administrative subdivision belonging to exactly one province.
#[derive(Debug, PartialEq, Eq)]
pub struct County {
    pub id: u32,
    pub name: String,
    pub slug: String,
    pub province_id: u32,
}

/// A populated place belonging to one county and, transitively, one province.
#[derive(Debug, PartialEq, Eq)]
pub struct City {
    pub id: u64,
    pub name: String,
    pub slug: String,
    pub province_id: u32,
    pub county_id: u32,
}

/// A subdivision one level below a county. Reserved for a deeper hierarchy;
/// no dataset is shipped for it and no query exposes it.
#[derive(Debug, Clone, PartialEq, Eq)]
pub struct District {
    pub id: u32,
    pub name: String,
    pub slug: String,
    pub province_id: u32,
    pub county_id: u32,
}

/// A rural counterpart of `District`. Reserved for a deeper hierarchy;
/// no dataset is shipped for it and no query exposes it.
#[derive(Debug, Clone, PartialEq, Eq)]
pub struct RuralDistrict {
    pub id: u32,
    pub name: String,
    pub slug: String,
    pub province_id: u32,
    pub county_id: u32,
}

/// The mathematical content of a `Province`: its fields, with the strings
/// seen as character sequences.
pub ghost struct ProvinceView {
    pub id: u32,
    pub name: Seq<char>,
    pub slug: Seq<char>,
    pub tel_prefix: Seq<char>,
}

/// The mathematical content of a `County`.
pub ghost struct CountyView {
    pub id: u32,
    pub name: Seq<char>,
    pub slug: Seq<char>,
    pub province_id: u32,
}

/// The mathematical content of a `City`.
pub ghost struct CityView {
    pub id: u64,
    pub name: Seq<char>,
    pub slug: Seq<char>,
    pub province_id: u32,
    pub county_id: u32,
}

impl View for Province {
    type V = ProvinceView;

    open spec fn view(&self) -> ProvinceView {
        ProvinceView {
            id: self.id,
            name: self.name@,
            slug: self.slug@,
            tel_prefix: self.tel_prefix@,
        }
    }
}

impl View for County {
    type V = CountyView;

    open spec fn view(&self) -> CountyView {
        CountyView {
            id: self.id,
            name: self.name@,
            slug: self.slug@,
            province_id: self.province_id,
        }
    }
}

impl View for City {
    type V = CityView;

    open spec fn view(&self) -> CityView {
        CityView {
            id: self.id,
            name: self.name@,
            slug: self.slug@,
            province_id: self.province_id,
            county_id: self.county_id,
        }
    }
}

impl Clone for Province {
    /// A clone is equal to the original, field for field.
    fn clone(&self) -> (res: Self)
        ensures
            res == *self,
    {
        Province {
            id: self.id,
            name: self.name.clone(),
            slug: self.slug.clone(),
            tel_prefix: self.tel_prefix.clone(),
        }
    }
}

impl Clone for County {
    /// A clone is equal to the original, field for field.
    fn clone(&self) -> (res: Self)
        ensures
            res == *self,
    {
        County {
            id: self.id,
            name: self.name.clone(),
            slug: self.slug.clone(),
            province_id: self.province_id,
        }
    }
}

impl Clone for City {
    /// A clone is equal to the original, field for field.
    fn clone(&self) -> (res: Self)
        ensures
            res == *self,
    {
        City {
            id: self.id,
            name: self.name.clone(),
            slug: self.slug.clone(),
            province_id: self.province_id,
            county_id: self.county_id,
        }
    }
}

/// The contents of a sequence of provinces, element by element.
pub open spec fn province_views(s: Seq<Province>) -> Seq<ProvinceView> {
    s.map_values(|p: Province| p@)
}

/// The contents of a sequence of counties, element by element.
pub open spec fn county_views(s: Seq<County>) -> Seq<CountyView> {
    s.map_values(|c: County| c@)
}

/// The contents of a sequence of cities, element by element.
pub open spec fn city_views(s: Seq<City>) -> Seq<CityView> {
    s.map_values(|c: City| c@)
}

} // verus!
