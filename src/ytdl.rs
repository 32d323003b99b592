//! Track metadata and thumbnail choice for videos found on YouTube.

use vstd::prelude::*;

verus! {

/// One thumbnail of a video.
pub struct Thumbnail {
    pub url: String,
    pub width: u64,
    pub height: u64,
}

/// The number of pixels of a thumbnail.
pub open spec fn area(t: Thumbnail) -> int {
    t.width * t.height
}

/// Thumbnail `k` is the last of those with the largest area.
pub open spec fn is_best_thumbnail(ts: Seq<Thumbnail>, k: int) -> bool {
    &&& 0 <= k < ts.len()
    &&& forall|j: int| 0 <= j < ts.len() ==> area(#[trigger] ts[j]) <= area(ts[k])
    &&& forall|j: int| k < j < ts.len() ==> area(#[trigger] ts[j]) < area(ts[k])
}

/// What a track shows when it is announced.
#[derive(Clone)]
pub struct Metadata {
    pub title: String,
    pub url: String,
    pub thumbnail: String,
}

impl Metadata {
    pub fn new(title: String, url: String, thumbnail: String) -> (r: Metadata)
        ensures
            r.title == title,
            r.url == url,
            r.thumbnail == thumbnail,
    {
        Metadata { title, url, thumbnail }
    }
}

fn thumbnail_area(t: &Thumbnail) -> (r: u128)
    ensures
        r == area(*t),
{
    proof {
        vstd::arithmetic::mul::lemma_mul_upper_bound(
            t.width as int,
            u64::MAX as int,
            t.height as int,
            u64::MAX as int,
        );
    }
    assert(u64::MAX * u64::MAX <= u128::MAX) by (nonlinear_arith);
    (t.width as u128) * (t.height as u128)
}

/// Takes the thumbnail with the largest area; of several with that area, the
/// last one.
pub fn choose_thumbnail(thumbnails: Vec<Thumbnail>) -> (r: Thumbnail)
    requires
        thumbnails@.len() > 0,
    ensures
        exists|k: int| is_best_thumbnail(thumbnails@, k) && r == thumbnails@[k],
{
    let mut thumbnails = thumbnails;
    let n = thumbnails.len();
    let mut best: usize = 0;
    let mut best_area = thumbnail_area(&thumbnails[0]);
    let mut i: usize = 1;
    while i < n
        invariant
            n == thumbnails@.len(),
            1 <= i <= n,
            best < i,
            best_area == area(thumbnails@[best as int]),
            forall|j: int| 0 <= j < i ==> area(#[trigger] thumbnails@[j]) <= best_area,
            forall|j: int| best < j < i ==> area(#[trigger] thumbnails@[j]) < best_area,
        decreases n - i,
    {
        let a = thumbnail_area(&thumbnails[i]);
        if a >= best_area {
            best = i;
            best_area = a;
        }
        i = i + 1;
    }
    let ghost all = thumbnails@;
    assert(is_best_thumbnail(all, best as int));
    thumbnails.remove(best)
}

/// `s` is made of the ASCII digits `0` to `9` alone.
pub open spec fn all_digits(s: Seq<char>) -> bool {
    forall|i: int| 0 <= i < s.len() ==> '0' <= #[trigger] s[i] <= '9'
}

/// The number that the decimal digits `s` spell.
pub open spec fn digits_value(s: Seq<char>) -> int
    decreases s.len(),
{
    if s.len() == 0 {
        0
    } else {
        10 * digits_value(s.drop_last()) + (s.last() as int - '0' as int)
    }
}

/// The unsigned number that `s` spells: an optional `+` followed by at least
/// one decimal digit, and nothing else; none when `s` has another shape or
/// the number does not fit in 64 bits.
pub open spec fn decimal_u64(s: Seq<char>) -> Option<u64> {
    let d = if s.len() > 0 && s[0] == '+' {
        s.drop_first()
    } else {
        s
    };
    if d.len() > 0 && all_digits(d) && digits_value(d) <= u64::MAX {
        Some(digits_value(d) as u64)
    } else {
        None
    }
}

/// Relies on `u64::from_str`: an optional `+` and decimal digits parse to
/// their value when it fits; anything else fails.
#[verifier::external_body]
fn parse_u64(s: &str) -> (r: Option<u64>)
    ensures
        r == decimal_u64(s@),
{
    s.parse::<u64>().ok()
}

/// The length in bytes of a stream whose announced length is `len`: the
/// number it spells, or none when it is absent or not a number.
pub fn content_length(len: Option<String>) -> (r: Option<u64>)
    ensures
        r == match len {
            Some(s) => decimal_u64(s@),
            None => None,
        },
{
    match len {
        Some(s) => parse_u64(s.as_str()),
        None => None,
    }
}

} // verus!
