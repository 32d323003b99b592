use aac_codebooks::sources::youtube::{self, playlist_urls, query_kind, QueryKind};
use aac_codebooks::sources::{Metadata, SourceError};
use aac_codebooks::ytdl::{self, Thumbnail};

fn thumb(url: &str, width: u64, height: u64) -> Thumbnail {
    Thumbnail { url: url.to_string(), width, height }
}

#[test]
fn largest_thumbnail_is_chosen() {
    let ts = vec![thumb("a", 120, 90), thumb("b", 1280, 720), thumb("c", 320, 180)];
    assert_eq!(ytdl::choose_thumbnail(ts).url, "b");
}

#[test]
fn last_of_equal_thumbnails_is_chosen() {
    let ts = vec![thumb("a", 640, 480), thumb("b", 480, 640), thumb("c", 10, 10)];
    assert_eq!(youtube::choose_thumbnail(ts).url, "b");
}

#[test]
fn single_thumbnail_is_chosen() {
    let t = youtube::choose_thumbnail(vec![thumb("only", 0, 0)]);
    assert_eq!((t.url.as_str(), t.width, t.height), ("only", 0, 0));
}

#[test]
fn huge_thumbnails_compare_without_overflow() {
    let ts = vec![thumb("a", u64::MAX, 2), thumb("b", u64::MAX, 1)];
    assert_eq!(ytdl::choose_thumbnail(ts).url, "a");
}

#[test]
fn queries_are_classified() {
    assert_eq!(
        query_kind("https://www.youtube.com/watch?v=abc&list=PL123"),
        QueryKind::Playlist
    );
    assert_eq!(query_kind("songs &list= anywhere"), QueryKind::Playlist);
    assert_eq!(query_kind("https://youtu.be/abc"), QueryKind::Url);
    assert_eq!(query_kind("http"), QueryKind::Url);
    assert_eq!(query_kind("never gonna give you up"), QueryKind::Search);
    assert_eq!(query_kind(""), QueryKind::Search);
    assert_eq!(query_kind("htt"), QueryKind::Search);
}

#[test]
fn playlist_keeps_present_entries_in_order() {
    let entries = vec![
        Some("u1".to_string()),
        None,
        Some("u2".to_string()),
        None,
        Some("u3".to_string()),
    ];
    assert_eq!(playlist_urls(entries), vec!["u1", "u2", "u3"]);
    assert!(playlist_urls(vec![None, None]).is_empty());
    assert!(playlist_urls(Vec::new()).is_empty());
}

#[test]
fn metadata_keeps_its_fields() {
    let m = Metadata::new("t".to_string(), "u".to_string(), "th".to_string());
    assert_eq!((m.title.as_str(), m.url.as_str(), m.thumbnail.as_str()), ("t", "u", "th"));
    let m = ytdl::Metadata::new("t2".to_string(), "u2".to_string(), "th2".to_string());
    assert_eq!((m.title.as_str(), m.url.as_str(), m.thumbnail.as_str()), ("t2", "u2", "th2"));
    assert_eq!(SourceError::Other, SourceError::Other);
}

#[test]
fn content_length_parses_decimal_numbers() {
    assert_eq!(ytdl::content_length(Some("3456789".to_string())), Some(3456789));
    assert_eq!(ytdl::content_length(Some("+12".to_string())), Some(12));
    assert_eq!(ytdl::content_length(Some("007".to_string())), Some(7));
    assert_eq!(
        ytdl::content_length(Some("18446744073709551615".to_string())),
        Some(u64::MAX)
    );
    assert_eq!(ytdl::content_length(Some("18446744073709551616".to_string())), None);
    assert_eq!(ytdl::content_length(Some("".to_string())), None);
    assert_eq!(ytdl::content_length(Some("+".to_string())), None);
    assert_eq!(ytdl::content_length(Some("-1".to_string())), None);
    assert_eq!(ytdl::content_length(Some("12 ".to_string())), None);
    assert_eq!(ytdl::content_length(None), None);
}
