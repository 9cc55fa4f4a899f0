use webapps::pages::iconpicker::{Icon, IconPicker, IconType};

fn icon(path: &str) -> Icon {
    Icon::new(IconType::Raster, path.to_string())
}

#[test]
fn default_store_is_empty() {
    let store = IconPicker::default();
    assert!(store.icons().is_empty());
    assert!(store.selected().is_none());
    assert!(!store.loading());
    assert_eq!(store.icon_searching(), "");
    assert_eq!(store.generation(), 0);
}

#[test]
fn icons_are_equal_by_path() {
    assert_eq!(icon("/a.png"), Icon::new(IconType::Svg, "/a.png".to_string()));
    assert_ne!(icon("/a.png"), icon("/b.png"));
}

#[test]
fn begin_search_clears_and_loads() {
    let mut store = IconPicker::default();
    store.ingest(icon("/a.png"));
    let generation = store.begin_search("example".to_string());
    assert_eq!(generation, 1);
    assert_eq!(store.generation(), 1);
    assert!(store.icons().is_empty());
    assert!(store.loading());
    assert_eq!(store.icon_searching(), "example");
    assert!(store.is_current(1));
    assert!(!store.is_current(0));
}

#[test]
fn same_path_twice_leaves_one_candidate() {
    let mut store = IconPicker::default();
    assert!(store.ingest(icon("/a.png")));
    assert!(!store.ingest(icon("/a.png")));
    assert_eq!(store.icons().len(), 1);
    assert!(!store.ingest(Icon::new(IconType::Svg, "/a.png".to_string())));
    assert_eq!(store.icons().len(), 1);
    assert_eq!(store.icons()[0].icon, IconType::Raster);
}

#[test]
fn ingest_keeps_arrival_order_and_loading() {
    let mut store = IconPicker::default();
    store.begin_search("x".to_string());
    store.ingest(icon("/b.png"));
    store.ingest(icon("/a.png"));
    store.ingest(icon("/c.png"));
    let paths: Vec<&str> = store.icons().iter().map(|i| i.path.as_str()).collect();
    assert_eq!(paths, vec!["/b.png", "/a.png", "/c.png"]);
    assert!(store.loading());
    assert!(store.has_path("/a.png"));
    assert!(!store.has_path("/d.png"));
}

#[test]
fn finish_loading_picks_the_first_arrival() {
    let mut store = IconPicker::default();
    store.begin_search("x".to_string());
    store.ingest(icon("/a.png"));
    store.ingest(icon("/b.png"));
    store.ingest(icon("/c.png"));
    let first = store.finish_loading();
    assert_eq!(first, Some(icon("/a.png")));
    assert_eq!(store.selected(), &Some(icon("/a.png")));
    assert!(!store.loading());
}

#[test]
fn finish_loading_of_empty_store_keeps_selection() {
    let mut store = IconPicker::default();
    store.select(icon("/chosen.png"));
    store.begin_search("x".to_string());
    assert_eq!(store.finish_loading(), None);
    assert_eq!(store.selected(), &Some(icon("/chosen.png")));
    assert!(!store.loading());
}

#[test]
fn select_does_not_depend_on_loading() {
    let mut store = IconPicker::default();
    store.begin_search("x".to_string());
    store.select(icon("/z.png"));
    assert_eq!(store.selected(), &Some(icon("/z.png")));
    assert!(store.loading());
}

#[test]
fn set_search_text_stops_loading() {
    let mut store = IconPicker::default();
    store.begin_search("x".to_string());
    store.set_search_text("firefox".to_string());
    assert_eq!(store.icon_searching(), "firefox");
    assert!(!store.loading());
    assert_eq!(store.generation(), 1);
}

#[test]
fn clear_drops_only_the_candidates() {
    let mut store = IconPicker::default();
    store.begin_search("x".to_string());
    store.ingest(icon("/a.png"));
    store.select(icon("/a.png"));
    store.clear();
    assert!(store.icons().is_empty());
    assert_eq!(store.selected(), &Some(icon("/a.png")));
    assert!(store.loading());
    assert_eq!(store.generation(), 1);
}
