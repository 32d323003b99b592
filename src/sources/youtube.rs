//! The decisions of the YouTube source: how a query is served, which
//! thumbnail a track shows, and which entries of a playlist are tracks.

use crate::ytdl::{is_best_thumbnail, Thumbnail};
use vstd::prelude::*;

verus! {

/// `pat` occurs somewhere in `s`.
pub open spec fn has_substring(s: Seq<char>, pat: Seq<char>) -> bool {
    exists|i: int|
        0 <= i && i + pat.len() <= s.len() && #[trigger] s.subrange(i, i + pat.len()) == pat
}

/// `s` starts with `pat`.
pub open spec fn has_prefix(s: Seq<char>, pat: Seq<char>) -> bool {
    pat.len() <= s.len() && s.subrange(0, pat.len() as int) == pat
}

/// Relies on `str::contains`: whether `pat` occurs in `s`.
#[verifier::external_body]
fn str_contains(s: &str, pat: &str) -> (r: bool)
    ensures
        r == has_substring(s@, pat@),
{
    s.contains(pat)
}

/// Relies on `str::starts_with`: whether `s` starts with `pat`.
#[verifier::external_body]
fn str_starts_with(s: &str, pat: &str) -> (r: bool)
    ensures
        r == has_prefix(s@, pat@),
{
    s.starts_with(pat)
}

/// How a query is served.
#[derive(Debug, Clone, Copy, PartialEq, Eq, Structural)]
pub enum QueryKind {
    /// A playlist link: every entry of the playlist is queued.
    Playlist,
    /// A link to one video.
    Url,
    /// Words to search for; the first video found is queued.
    Search,
}

/// The marker of a playlist in a link.
pub open spec fn playlist_marker() -> Seq<char> {
    seq!['&', 'l', 'i', 's', 't', '=']
}

/// The start of a link.
pub open spec fn link_marker() -> Seq<char> {
    seq!['h', 't', 't', 'p']
}

/// How `query` is served: a playlist when it holds `&list=`, else a single
/// video when it starts with `http`, else a search.
pub fn query_kind(query: &str) -> (r: QueryKind)
    ensures
        r == QueryKind::Playlist <==> has_substring(query@, playlist_marker()),
        r == QueryKind::Url <==> !has_substring(query@, playlist_marker()) && has_prefix(
            query@,
            link_marker(),
        ),
        r == QueryKind::Search <==> !has_substring(query@, playlist_marker()) && !has_prefix(
            query@,
            link_marker(),
        ),
{
    proof {
        reveal_strlit("&list=");
        reveal_strlit("http");
    }
    if str_contains(query, "&list=") {
        assert("&list="@ =~= playlist_marker());
        QueryKind::Playlist
    } else if str_starts_with(query, "http") {
        assert("&list="@ =~= playlist_marker());
        assert("http"@ =~= link_marker());
        QueryKind::Url
    } else {
        assert("&list="@ =~= playlist_marker());
        assert("http"@ =~= link_marker());
        QueryKind::Search
    }
}

/// The present entries of a playlist, in order.
pub open spec fn present(entries: Seq<Option<String>>) -> Seq<String>
    decreases entries.len(),
{
    if entries.len() == 0 {
        Seq::empty()
    } else {
        let rest = present(entries.drop_last());
        match entries.last() {
            Some(u) => rest.push(u),
            None => rest,
        }
    }
}

/// The track links of a playlist whose entries may be missing: the links of
/// the present entries, in playlist order.
pub fn playlist_urls(entries: Vec<Option<String>>) -> (r: Vec<String>)
    ensures
        r@ == present(entries@),
{
    let mut r: Vec<String> = Vec::new();
    let n = entries.len();
    let mut i: usize = 0;
    while i < n
        invariant
            n == entries@.len(),
            i <= n,
            r@ == present(entries@.subrange(0, i as int)),
        decreases n - i,
    {
        assert(entries@.subrange(0, i + 1).drop_last() =~= entries@.subrange(0, i as int));
        match &entries[i] {
            Some(u) => r.push(u.clone()),
            None => {},
        }
        i = i + 1;
    }
    assert(entries@.subrange(0, n as int) =~= entries@);
    r
}

/// Takes the thumbnail with the largest area; of several with that area, the
/// last one.
pub fn choose_thumbnail(thumbnails: Vec<Thumbnail>) -> (r: Thumbnail)
    requires
        thumbnails@.len() > 0,
    ensures
        exists|k: int| is_best_thumbnail(thumbnails@, k) && r == thumbnails@[k],
{
    crate::ytdl::choose_thumbnail(thumbnails)
}

} // verus!
