use fjordgard::config::location_label;
use fjordgard::endpoints::{
    collection_photos_page, collection_photos_route, collection_route, meteo_url, parse_count,
    unsplash_url, PageError,
};
use fjordgard::hourly::HourlyVariable;
use fjordgard::slideshow::{SlideAction, SlideshowState};
use fjordgard::unsplash::CollectionPhotos;
use fjordgard::varmap::VariableMap;
use fjordgard::weather::{condition_text, icon_group, icon_path};

#[test]
fn weather_conditions() {
    assert_eq!(condition_text(0, 1), "Sunny");
    assert_eq!(condition_text(0, 0), "Clear");
    assert_eq!(condition_text(1, 0), "Mainly clear");
    assert_eq!(condition_text(1, 1), "Mainly sunny");
    assert_eq!(condition_text(63, 1), "Rain");
    assert_eq!(condition_text(99, 0), "Thunderstorm with hail");
    assert_eq!(condition_text(4, 1), "Unknown");
    assert_eq!(icon_group(48), 45);
    assert_eq!(icon_group(86), 80);
    assert_eq!(icon_group(99), 96);
    assert_eq!(icon_group(7), 100);
    assert_eq!(icon_path(57, 1), "icons/weather/51-1.svg");
    assert_eq!(icon_path(100, 0), "icons/weather/100-0.svg");
}

#[test]
fn service_addresses() {
    assert_eq!(meteo_url("api.open-meteo.com", "forecast", false), "https://api.open-meteo.com/v1/forecast");
    assert_eq!(
        meteo_url("geocoding-api.open-meteo.com", "search", true),
        "https://customer-geocoding-api.open-meteo.com/v1/search"
    );
    assert_eq!(unsplash_url("https://api.unsplash.com/", "collections/1"), "https://api.unsplash.com//collections/1");
    assert_eq!(collection_route("1053828"), "collections/1053828");
    assert_eq!(collection_photos_route("1053828"), "collections/1053828/photos");
}

#[test]
fn counts_in_headers() {
    assert_eq!(parse_count("42"), Some(42));
    assert_eq!(parse_count("+7"), Some(7));
    assert_eq!(parse_count("0"), Some(0));
    assert_eq!(parse_count(""), None);
    assert_eq!(parse_count("+"), None);
    assert_eq!(parse_count("-3"), None);
    assert_eq!(parse_count("4 2"), None);
    assert_eq!(parse_count("99999999999999999999999"), None);

    let page = collection_photos_page(Some("120"), Some("10"), Vec::new()).unwrap();
    assert_eq!(page.collection_total, 120);
    assert_eq!(page.per_page, 10);
    assert!(matches!(
        collection_photos_page(None, Some("10"), Vec::new()),
        Err(PageError::MissingHeader(h)) if h == "X-Total"
    ));
    assert!(matches!(
        collection_photos_page(Some("12"), None, Vec::new()),
        Err(PageError::MissingHeader(h)) if h == "X-Per-Page"
    ));
    assert!(matches!(
        collection_photos_page(Some("many"), None, Vec::new()),
        Err(PageError::MalformedResponse)
    ));
}

#[test]
fn slideshow_steps_and_wraps() {
    let mut s = SlideshowState::new("c".to_string(), 25);
    assert_eq!(s.request(0), SlideAction::FetchPage(1));
    assert_eq!(s.current, 0);
    assert_eq!(s.request(-1), SlideAction::FetchPage(3));
    assert_eq!(s.current, 25);
    assert_eq!(s.request(1), SlideAction::FetchPage(1));
    assert_eq!(s.current, 0);
    let page = CollectionPhotos { collection_total: 25, per_page: 10, photos: Vec::new() };
    assert_eq!(s.hold_page(page), None);
    assert_eq!(s.current_page, 1);
    assert_eq!(s.request(3), SlideAction::ShowHeld);
    assert_eq!(s.request(10), SlideAction::FetchPage(2));
    s.toggle_pause();
    assert_eq!(s.request(1), SlideAction::Stay);
    assert_eq!(s.current, 13);
    s.toggle_pause();
    assert!(!s.paused);
}

#[test]
fn variable_map_replaces() {
    let mut m: VariableMap<HourlyVariable, u32> = VariableMap::new();
    assert!(m.is_empty());
    m.insert(HourlyVariable::Rain, 1);
    m.insert(HourlyVariable::TemperaturePressureLevel(500), 2);
    m.insert(HourlyVariable::Rain, 3);
    assert_eq!(m.len(), 2);
    assert_eq!(m.get(&HourlyVariable::Rain), Some(&3));
    assert_eq!(m.get(&HourlyVariable::TemperaturePressureLevel(850)), None);
    assert!(m.contains_key(&HourlyVariable::TemperaturePressureLevel(500)));
    assert_eq!(m.entries().len(), 2);
}

#[test]
fn place_labels() {
    assert_eq!(location_label("London", Some("England"), "United Kingdom"), "London, England, United Kingdom");
    assert_eq!(location_label("Monaco", None, "Monaco"), "Monaco, Monaco");
}
