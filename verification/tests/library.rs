use leptos_reproduce_bugs::routes::{page_links, resolve, str_eq, Page};
use leptos_reproduce_bugs::stubs::{bool_data, char_data, empty_data, int_data, string_data};

#[test]
fn empty_stub_completes() {
    let r: () = empty_data();
    let () = r;
}

#[test]
fn int_stub_value() {
    assert_eq!(int_data(), 1);
}

#[test]
fn char_stub_value() {
    assert_eq!(char_data(), 'c');
}

#[test]
fn string_stub_value() {
    assert_eq!(string_data(), "Test");
}

#[test]
fn bool_stub_value() {
    assert!(bool_data());
}

#[test]
fn resolve_known_paths() {
    assert_eq!(resolve("/"), Page::Home);
    assert_eq!(resolve("/container"), Page::ContainerContent);
    assert_eq!(resolve("/container/object"), Page::Object);
}

#[test]
fn resolve_unknown_paths() {
    assert_eq!(resolve(""), Page::NotFound);
    assert_eq!(resolve("/missing"), Page::NotFound);
    assert_eq!(resolve("/container/"), Page::NotFound);
    assert_eq!(resolve("/container/object/deeper"), Page::NotFound);
}

#[test]
fn drawer_link_is_offered_everywhere() {
    for page in [
        Page::Home,
        Page::ContainerContent,
        Page::Object,
        Page::NotFound,
    ] {
        assert!(page_links(page).contains(&"/container"));
    }
}

#[test]
fn container_content_offers_the_object_link() {
    assert_eq!(page_links(Page::ContainerContent), vec!["/container", "/container/object"]);
    assert_eq!(page_links(Page::Home), vec!["/container"]);
}

#[test]
fn every_link_reaches_a_page() {
    for page in [
        Page::Home,
        Page::ContainerContent,
        Page::Object,
        Page::NotFound,
    ] {
        for link in page_links(page) {
            assert_ne!(resolve(link), Page::NotFound);
        }
    }
}

#[test]
fn str_eq_agrees_with_equality() {
    assert!(str_eq("", ""));
    assert!(str_eq("/container", "/container"));
    assert!(!str_eq("/container", "/"));
    assert!(!str_eq("abc", "abd"));
    assert!(!str_eq("abc", "ab"));
    assert!(str_eq("äöü", "äöü"));
    assert!(!str_eq("äöü", "äöx"));
}
