use atsumaru::url::resolve_image_url;

#[test]
fn absolute_url_passes_through() {
    let r = resolve_image_url(String::from("https://cdn.example/img.png"));
    assert_eq!(r, "https://cdn.example/img.png");
    let r2 = resolve_image_url(String::from("http://plain/img.png"));
    assert_eq!(r2, "http://plain/img.png");
}

#[test]
fn root_relative_static_path_joined_with_one_separator() {
    let r = resolve_image_url(String::from("/static/covers/a.jpg"));
    assert_eq!(r, "https://atsu.moe/static/covers/a.jpg");
}

#[test]
fn bare_static_path_joined_with_one_separator() {
    let r = resolve_image_url(String::from("static/covers/a.jpg"));
    assert_eq!(r, "https://atsu.moe/static/covers/a.jpg");
}

#[test]
fn root_relative_path_prefixed_with_base() {
    let r = resolve_image_url(String::from("/images/banner.png"));
    assert_eq!(r, "https://atsu.moe/images/banner.png");
}

#[test]
fn bare_name_placed_under_static() {
    let r = resolve_image_url(String::from("poster.webp"));
    assert_eq!(r, "https://atsu.moe/static/poster.webp");
}

#[test]
fn resolving_twice_changes_nothing() {
    for input in [
        "https://cdn.example/x.png",
        "/static/a.jpg",
        "static/a.jpg",
        "/b.png",
        "bare.gif",
        "",
    ] {
        let once = resolve_image_url(String::from(input));
        let twice = resolve_image_url(once.clone());
        assert_eq!(once, twice);
    }
}

#[test]
fn empty_path_still_yields_well_formed_url() {
    let r = resolve_image_url(String::new());
    assert_eq!(r, "https://atsu.moe/static/");
}
