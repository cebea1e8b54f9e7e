use sarzamin::{find_province_by_city_name, find_province_by_id};
use sarzamin::{get_all_cities, get_all_counties, get_all_provinces};
use sarzamin::{get_cities_of_province, get_counties_of_province};

#[test]
fn test_provinces_are_loaded() {
    let provinces = get_all_provinces();
    assert_eq!(provinces.len(), 31);
}

#[test]
fn test_find_tehran_province() {
    let provinces = get_all_provinces();
    let tehran = provinces.iter().find(|p| p.name == "تهران");
    assert!(tehran.is_some());
    assert_eq!(tehran.unwrap().id, 123);
}

#[test]
fn test_find_province_of_shiraz_city() {
    let province = find_province_by_city_name("شیراز");
    assert!(province.is_some());
    let province = province.unwrap();
    assert_eq!(province.name, "فارس");
    assert_eq!(province.id, 107);
}

#[test]
fn test_get_cities_of_fars_province() {
    let fars_cities = get_cities_of_province(107);
    assert!(!fars_cities.is_empty());
    assert!(fars_cities.iter().any(|c| c.name == "شیراز"));
}

#[test]
fn test_get_all_calls_return_the_same_contents() {
    assert_eq!(get_all_provinces(), get_all_provinces());
    assert_eq!(get_all_counties(), get_all_counties());
    assert_eq!(get_all_cities(), get_all_cities());
}

#[test]
fn test_exactly_one_tehran_province() {
    let provinces = get_all_provinces();
    let tehran: Vec<_> = provinces.iter().filter(|p| p.name == "تهران").collect();
    assert_eq!(tehran.len(), 1);
    assert_eq!(tehran[0].id, 123);
    assert_eq!(tehran[0].slug, "tehran");
    assert_eq!(tehran[0].tel_prefix, "021");
}

#[test]
fn test_find_by_id_returns_each_province() {
    for p in get_all_provinces() {
        let found = find_province_by_id(p.id);
        assert_eq!(found, Some(p));
    }
}

#[test]
fn test_find_by_absent_id_is_none() {
    assert_eq!(find_province_by_id(999999), None);
}

#[test]
fn test_each_county_listed_under_its_province() {
    for c in get_all_counties() {
        let siblings = get_counties_of_province(c.province_id);
        assert!(siblings.contains(&c));
    }
}

#[test]
fn test_each_city_listed_under_its_province() {
    for c in get_all_cities() {
        let siblings = get_cities_of_province(c.province_id);
        assert!(siblings.contains(&c));
    }
}

#[test]
fn test_unknown_province_id_gives_empty_results() {
    assert!(get_counties_of_province(999999).is_empty());
    assert!(get_cities_of_province(999999).is_empty());
    assert!(get_counties_of_province(0).is_empty());
    assert!(get_cities_of_province(0).is_empty());
}

#[test]
fn test_counties_of_fars_in_dataset_order() {
    let fars = get_counties_of_province(107);
    let names: Vec<&str> = fars.iter().map(|c| c.name.as_str()).collect();
    assert_eq!(names, vec!["شیراز", "مرودشت", "کازرون"]);
}

#[test]
fn test_city_name_lookup_is_exact() {
    // The shipped names are Persian, so a Latin rendering in any case, or
    // extra whitespace, differs from every city name and finds nothing.
    assert_eq!(find_province_by_city_name("Shiraz"), None);
    assert_eq!(find_province_by_city_name("SHIRAZ"), None);
    assert_eq!(find_province_by_city_name("شیراز "), None);
    assert_eq!(find_province_by_city_name(""), None);
}

#[test]
fn test_find_province_of_unknown_city_is_none() {
    assert_eq!(find_province_by_city_name("nonexistent-city"), None);
}

#[test]
fn test_first_matching_city_decides() {
    // A city name that also names a county and a province still resolves
    // through the city table alone.
    let province = find_province_by_city_name("تهران");
    assert!(province.is_some());
    assert_eq!(province.unwrap().id, 123);
}

#[test]
fn test_dataset_counts() {
    assert_eq!(get_all_counties().len(), 12);
    assert_eq!(get_all_cities().len(), 12);
}
