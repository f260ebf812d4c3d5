use smtc2web::now::{now_fingerprint, NowCache, NowFields};

fn song<'a>(art: Option<&'a str>, position: Option<&'a str>) -> NowFields<'a> {
    NowFields {
        title: "Song",
        artist: "Artist",
        album: "Album",
        is_playing: true,
        position,
        duration: Some("03:30"),
        pct_text: Some("12.5"),
        album_art: art,
    }
}

#[test]
fn fingerprint_layout() {
    let fp = now_fingerprint(&song(Some("data:xyz"), Some("01:02")), "serif");
    assert_eq!(fp, "Song\u{1}Artist\u{1}Album\u{1}1\u{1}01:02\u{1}03:30\u{1}12.5\u{1}serif\u{1}art-len:8");
}

#[test]
fn fingerprint_without_optional_fields() {
    let s = NowFields {
        title: "",
        artist: "",
        album: "",
        is_playing: false,
        position: None,
        duration: None,
        pct_text: None,
        album_art: None,
    };
    assert_eq!(now_fingerprint(&s, ""), "\u{1}\u{1}\u{1}0\u{1}\u{1}\u{1}\u{1}\u{1}");
}

#[test]
fn fingerprint_counts_art_bytes_only() {
    let a = now_fingerprint(&song(Some("AAAA"), None), "f");
    let b = now_fingerprint(&song(Some("BBBB"), None), "f");
    let c = now_fingerprint(&song(Some("BBBBB"), None), "f");
    assert_eq!(a, b);
    assert_ne!(a, c);
    // byte length, not characters
    assert!(now_fingerprint(&song(Some("é"), None), "f").ends_with("art-len:2"));
}

#[test]
fn fingerprint_changes_with_content() {
    let a = now_fingerprint(&song(None, Some("00:01")), "f");
    let b = now_fingerprint(&song(None, Some("00:02")), "f");
    let c = now_fingerprint(&song(None, Some("00:01")), "g");
    assert_ne!(a, b);
    assert_ne!(a, c);
}

#[test]
fn cache_hit_and_miss() {
    let mut cache = NowCache::new();
    assert!(cache.lookup("x").is_none());
    cache.store("x".to_string(), vec![1, 2, 3]);
    assert_eq!(cache.lookup("x"), Some(&[1u8, 2, 3][..]));
    assert!(cache.lookup("y").is_none());
    cache.store("y".to_string(), vec![9]);
    assert!(cache.lookup("x").is_none());
    assert_eq!(cache.lookup("y"), Some(&[9u8][..]));
}

#[test]
fn fingerprint_tells_missing_from_present_percentage() {
    let mut with_pct = song(None, None);
    with_pct.pct_text = Some("0");
    let mut without_pct = song(None, None);
    without_pct.pct_text = None;
    assert_ne!(now_fingerprint(&with_pct, "f"), now_fingerprint(&without_pct, "f"));
}
