use icy_browser::helpers::{bgr_to_rgb, retry_with_https, to_url, Bookmark, ImageInfo, Url, UrlParseError};
use icy_browser::PixelFormat;

#[test]
fn to_url_keeps_absolute_url() {
    let url = to_url("https://www.rust-lang.org").unwrap();
    assert_eq!(url.as_str(), "https://www.rust-lang.org/");
}

#[test]
fn to_url_adds_https_to_relative_url() {
    let url = to_url("example.com").unwrap();
    assert_eq!(url.as_str(), "https://example.com/");
    assert_eq!(url.to_string(), "https://example.com/");
}

#[test]
fn to_url_rejects_invalid_url() {
    assert!(to_url("https://exa mple.com").is_none());
    assert!(to_url("http://[::1").is_none());
}

#[test]
fn parsing_tells_relative_urls_apart() {
    // a relative input is retried behind https://, an invalid one is refused
    assert_eq!(to_url("example.com").unwrap().as_str(), "https://example.com/");
    assert!(to_url("http://[::1").is_none());
    assert_eq!(to_url("https://a.org/b").unwrap().as_str(), "https://a.org/b");
    assert!(Bookmark::try_new("example.com", "x").is_none());
    assert_eq!(Bookmark::try_new("https://a.org", "a").unwrap().url().as_str(), "https://a.org/");
}

#[test]
fn retry_with_https_only_for_relative() {
    assert_eq!(
        retry_with_https("docs.rs", &UrlParseError::RelativeUrlWithoutBase),
        Some(String::from("https://docs.rs"))
    );
    assert_eq!(retry_with_https("docs.rs", &UrlParseError::Invalid), None);
}

#[test]
fn bookmark_holds_parsed_url_and_name() {
    let b = Bookmark::new("https://www.rust-lang.org", "rust-lang.org");
    assert_eq!(b.url().as_str(), "https://www.rust-lang.org/");
    assert_eq!(b.name(), "rust-lang.org");
    assert_eq!(b.to_string(), "rust-lang.org");
    assert_eq!(b.duplicate(), b);
}

#[test]
fn bookmark_try_new() {
    assert!(Bookmark::try_new("not a url", "x").is_none());
    let b = Bookmark::try_new("https://docs.rs/iced/latest/iced/", "iced docs").unwrap();
    assert_eq!(b.url().as_str(), "https://docs.rs/iced/latest/iced/");
    assert_eq!(b.name(), "iced docs");
}

#[test]
fn url_unparsed_and_duplicate() {
    let u = Url::unparsed("https://google.com");
    assert_eq!(u.as_str(), "https://google.com");
    assert_eq!(u.duplicate(), u);
}

#[test]
fn bgr_to_rgb_swaps_red_and_blue() {
    assert_eq!(bgr_to_rgb(vec![1, 2, 3, 4, 5, 6, 7, 8]), vec![3, 2, 1, 4, 7, 6, 5, 8]);
    assert_eq!(bgr_to_rgb(vec![]), Vec::<u8>::new());
}

#[test]
fn bgr_to_rgb_twice_is_identity() {
    let p = vec![10, 20, 30, 40, 50, 60, 70, 80];
    assert_eq!(bgr_to_rgb(bgr_to_rgb(p.clone())), p);
}

#[test]
fn image_info_new_converts_bgra() {
    let img = ImageInfo::new(vec![1, 2, 3, 4], PixelFormat::Bgra, 1, 1);
    assert_eq!(img.pixels, vec![3, 2, 1, 4]);
    assert_eq!((img.width, img.height), (1, 1));
    let img = ImageInfo::new(vec![1, 2, 3, 4], PixelFormat::Rgba, 2, 3);
    assert_eq!(img.pixels, vec![1, 2, 3, 4]);
    assert_eq!((img.width, img.height), (2, 3));
}

#[test]
fn image_info_default_is_white_800_square() {
    let img = ImageInfo::default();
    assert_eq!(img.width, 800);
    assert_eq!(img.height, 800);
    assert_eq!(img.pixels.len(), 800 * 800 * 4);
    assert!(img.pixels.iter().all(|p| *p == 255));
    assert_eq!(img.duplicate(), img);
}
