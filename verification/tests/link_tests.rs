use brainrot_relay::link::{find_link, Platform};

#[test]
fn tiktok_wins_over_instagram() {
    let text = "look https://www.instagram.com/reel/abc123/ and https://vm.tiktok.com/ZMabc/ wow";
    let link = find_link(text).expect("one link expected");
    assert_eq!(link.platform, Platform::TikTok);
    assert_eq!(link.url, "https://vm.tiktok.com/ZMabc/");
}

#[test]
fn no_url_gives_nothing() {
    assert!(find_link("hello there, nothing to see").is_none());
    assert!(find_link("").is_none());
    assert!(find_link("tiktok.com/abc without a scheme").is_none());
}

#[test]
fn tiktok_subdomains_match() {
    for text in [
        "https://www.tiktok.com/@user/video/1",
        "https://vm.tiktok.com/ZM1/",
        "https://vt.tiktok.com/ZS2/",
        "https://m.tiktok.com/v/3",
        "https://t.tiktok.com/x",
        "https://tiktok.com/@a",
        "http://tiktok.com/@a",
    ] {
        let link = find_link(text).expect("link expected");
        assert_eq!(link.platform, Platform::TikTok);
        assert_eq!(link.url, text);
    }
}

#[test]
fn instagram_kinds_match() {
    for text in [
        "https://www.instagram.com/reel/abc/",
        "https://instagram.com/p/xyz",
        "https://instagram.com/t/conv",
        "http://www.instagram.com/v/42",
    ] {
        let link = find_link(text).expect("link expected");
        assert_eq!(link.platform, Platform::Instagram);
        assert_eq!(link.url, text);
    }
}

#[test]
fn instagram_needs_known_kind() {
    assert!(find_link("https://www.instagram.com/stories/user/").is_none());
    assert!(find_link("https://instagram.com/abc").is_none());
}

#[test]
fn match_ends_at_whitespace() {
    let link = find_link("check https://vm.tiktok.com/ZMabc/ out").unwrap();
    assert_eq!(link.url, "https://vm.tiktok.com/ZMabc/");
    let link = find_link("https://tiktok.com/a\tb").unwrap();
    assert_eq!(link.url, "https://tiktok.com/a");
}

#[test]
fn head_alone_is_no_match() {
    assert!(find_link("https://tiktok.com/").is_none());
    assert!(find_link("https://tiktok.com/ trailing words").is_none());
    assert!(find_link("https://www.instagram.com/reel/").is_none());
}

#[test]
fn multibyte_text_does_not_shift_the_match() {
    let link = find_link("héllo wörld 🎥 https://vm.tiktok.com/ZMé/ ok").unwrap();
    assert_eq!(link.platform, Platform::TikTok);
    assert_eq!(link.url, "https://vm.tiktok.com/ZMé/");
}

#[test]
fn leftmost_match_is_taken() {
    let link = find_link("https://tiktok.com/first https://vm.tiktok.com/second").unwrap();
    assert_eq!(link.url, "https://tiktok.com/first");
}
