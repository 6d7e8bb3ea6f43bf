use ha_tui::media_meta::{art_source, decimal_text, non_empty, splitn, ArtSource};

type Meta = (Option<String>, Option<String>, Option<String>, Option<f64>, Option<f64>, Option<f64>);

fn parse_f64(s: &str) -> Option<f64> {
    decimal_text(s).parse().ok()
}

fn parse_meta(raw: &str) -> Meta {
    let parts = splitn(raw, 6, "|||");
    if parts.len() < 6 {
        return (None, None, None, None, None, None);
    }
    (non_empty(parts[0]), non_empty(parts[1]), non_empty(parts[2]), parse_f64(parts[3]), parse_f64(parts[4]), parse_f64(parts[5]))
}

#[test]
fn parse_music_meta_output() {
    let raw = "My Song|||The Artist|||My Album|||42.5|||240.0|||75";
    let (title, artist, album, pos, dur, vol) = parse_meta(raw);
    assert_eq!(title.as_deref(), Some("My Song"));
    assert_eq!(artist.as_deref(), Some("The Artist"));
    assert_eq!(album.as_deref(), Some("My Album"));
    assert!((pos.unwrap() - 42.5).abs() < 0.01);
    assert!((dur.unwrap() - 240.0).abs() < 0.01);
    assert!((vol.unwrap() - 75.0).abs() < 0.01);
}

#[test]
fn parse_music_meta_empty_artist() {
    let raw = "Instrumental|||   |||Classical|||10.0|||180.0|||50";
    let (title, artist, _album, _pos, _dur, _vol) = parse_meta(raw);
    assert_eq!(title.as_deref(), Some("Instrumental"));
    assert!(artist.is_none());
}

#[test]
fn parse_f64_handles_comma_locale() {
    assert!((parse_f64("42,5").unwrap() - 42.5).abs() < 0.001);
    assert!((parse_f64("180,0").unwrap() - 180.0).abs() < 0.001);
    assert!((parse_f64("42.5").unwrap() - 42.5).abs() < 0.001);
    assert!(parse_f64("").is_none());
}

#[test]
fn splitn_keeps_rest_in_last_piece() {
    assert_eq!(splitn("a|||b|||c", 2, "|||"), vec!["a", "b|||c"]);
    assert_eq!(splitn("abc", 3, "|||"), vec!["abc"]);
    assert_eq!(splitn("|||", 6, "|||"), vec!["", ""]);
    assert!(splitn("abc", 0, "|||").is_empty());
}

#[test]
fn decimal_text_trims_and_swaps_commas() {
    assert_eq!(decimal_text(" 1,5 "), "1.5");
    assert_eq!(decimal_text("1,000,5"), "1.000.5");
}

#[test]
fn art_source_by_scheme() {
    match art_source("file:///tmp/cover.png") {
        ArtSource::File(p) => assert_eq!(p, std::path::PathBuf::from("/tmp/cover.png")),
        other => panic!("unexpected {other:?}"),
    }
    assert!(matches!(art_source("https://i.scdn.co/image/x"), ArtSource::Remote));
    assert!(matches!(art_source("http://host/a.jpg"), ArtSource::Remote));
    assert!(matches!(art_source("ftp://host/a.jpg"), ArtSource::Skip));
    assert!(matches!(art_source("not a url"), ArtSource::Skip));
}
