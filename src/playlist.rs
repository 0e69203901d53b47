//! Playlists: their parsed form, the choice of the best variant of a master
//! playlist, and the resolution of a playlist to its list of segments.

use vstd::prelude::*;
use crate::error::FetchError;
use crate::urls::{base_url, base_url_spec, entry_url, entry_url_spec, opt_view};

verus! {

/// One rendition listed by a master playlist.
#[derive(Debug, Clone)]
pub struct Variant {
    pub bandwidth: u64,
    /// Width and height, when the playlist gives them.
    pub resolution: Option<(u64, u64)>,
    pub uri: String,
}

/// The encryption signaled for a segment.
#[derive(Debug, Clone)]
pub struct KeyRef {
    pub uri: Option<String>,
    /// The IV as written in the playlist (hexadecimal, maybe with `0x`).
    pub iv: Option<String>,
}

/// One media segment of a media playlist.
#[derive(Debug, Clone)]
pub struct Segment {
    pub uri: String,
    pub key: Option<KeyRef>,
}

/// A parsed playlist: a list of variants or a list of segments.
#[derive(Debug, Clone)]
pub enum Playlist {
    Master(Vec<Variant>),
    Media(Vec<Segment>),
}

pub struct VariantView {
    pub bandwidth: u64,
    pub resolution: Option<(u64, u64)>,
    pub uri: Seq<char>,
}

pub struct KeyRefView {
    pub uri: Option<Seq<char>>,
    pub iv: Option<Seq<char>>,
}

pub struct SegmentView {
    pub uri: Seq<char>,
    pub key: Option<KeyRefView>,
}

pub enum PlaylistView {
    Master(Seq<VariantView>),
    Media(Seq<SegmentView>),
}

impl View for Variant {
    type V = VariantView;

    open spec fn view(&self) -> VariantView {
        VariantView { bandwidth: self.bandwidth, resolution: self.resolution, uri: self.uri@ }
    }
}

impl View for KeyRef {
    type V = KeyRefView;

    open spec fn view(&self) -> KeyRefView {
        KeyRefView { uri: opt_view(self.uri), iv: opt_view(self.iv) }
    }
}

impl View for Segment {
    type V = SegmentView;

    open spec fn view(&self) -> SegmentView {
        SegmentView {
            uri: self.uri@,
            key: match self.key {
                Some(k) => Some(k@),
                None => None,
            },
        }
    }
}

pub open spec fn variants_view(v: Seq<Variant>) -> Seq<VariantView> {
    v.map_values(|x: Variant| x@)
}

pub open spec fn segments_view(v: Seq<Segment>) -> Seq<SegmentView> {
    v.map_values(|x: Segment| x@)
}

impl View for Playlist {
    type V = PlaylistView;

    open spec fn view(&self) -> PlaylistView {
        match self {
            Playlist::Master(v) => PlaylistView::Master(variants_view(v@)),
            Playlist::Media(s) => PlaylistView::Media(segments_view(s@)),
        }
    }
}

impl Variant {
    pub fn new(bandwidth: u64, resolution: Option<(u64, u64)>, uri: String) -> (r: Variant)
        ensures
            r.bandwidth == bandwidth,
            r.resolution == resolution,
            r.uri == uri,
    {
        Variant { bandwidth, resolution, uri }
    }
}

impl KeyRef {
    pub fn new(uri: Option<String>, iv: Option<String>) -> (r: KeyRef)
        ensures
            r.uri == uri,
            r.iv == iv,
    {
        KeyRef { uri, iv }
    }
}

impl Segment {
    pub fn new(uri: String, key: Option<KeyRef>) -> (r: Segment)
        ensures
            r.uri == uri,
            r.key == key,
    {
        Segment { uri, key }
    }
}

/// The playlist that the HLS parser reads from `bytes`, if they are well formed.
pub uninterp spec fn parsed_playlist(bytes: Seq<u8>) -> Option<PlaylistView>;

pub open spec fn opt_playlist_view(p: Option<Playlist>) -> Option<PlaylistView> {
    match p {
        Some(p) => Some(p@),
        None => None,
    }
}

/// Relies on `m3u8_rs::parse_playlist`: the variants of a master playlist and
/// the segments of a media playlist, in the order written.
#[verifier::external_body]
fn parse_playlist(bytes: &[u8]) -> (r: Option<Playlist>)
    ensures
        opt_playlist_view(r) == parsed_playlist(bytes@),
{
    match m3u8_rs::parse_playlist(bytes) {
        Ok((_, m3u8_rs::Playlist::MasterPlaylist(m))) => Some(Playlist::Master(
            m.variants.into_iter().map(|v| Variant::new(v.bandwidth, v.resolution.map(|r| (r.width, r.height)), v.uri)).collect(),
        )),
        Ok((_, m3u8_rs::Playlist::MediaPlaylist(m))) => Some(Playlist::Media(
            m.segments.into_iter().map(|s| Segment::new(s.uri, s.key.map(|k| KeyRef::new(k.uri, k.iv)))).collect(),
        )),
        Err(_) => None,
    }
}

/// The picture area of a resolution, zero when there is none.
pub open spec fn area(r: Option<(u64, u64)>) -> int {
    match r {
        Some((w, h)) => w * h,
        None => 0,
    }
}

/// Whether `a` ranks below `b`: a smaller area, or the same area and a lower
/// bandwidth.
pub open spec fn ranks_below(a: VariantView, b: VariantView) -> bool {
    area(a.resolution) < area(b.resolution) || (area(a.resolution) == area(b.resolution)
        && a.bandwidth < b.bandwidth)
}

/// `i` is the chosen variant of `vs`: none ranks above it, and of those that
/// rank equal to it, it is the last.
pub open spec fn is_best_variant(vs: Seq<VariantView>, i: int) -> bool {
    &&& 0 <= i < vs.len()
    &&& forall|j: int| 0 <= j < vs.len() ==> !ranks_below(#[trigger] vs[i], vs[j])
    &&& forall|j: int| i < j < vs.len() ==> ranks_below(#[trigger] vs[j], vs[i])
}

fn area_of(r: Option<(u64, u64)>) -> (a: u128)
    ensures
        a == area(r),
{
    match r {
        Some((w, h)) => {
            assert((w as int) * (h as int) <= u64::MAX as int * u64::MAX as int) by (nonlinear_arith)
                requires
                    w <= u64::MAX,
                    h <= u64::MAX,
            ;
            (w as u128) * (h as u128)
        },
        None => 0,
    }
}

/// The index of the variant to download: the one with the largest picture
/// area, then the largest bandwidth; the last such one when several tie.
pub fn select_variant(variants: &Vec<Variant>) -> (r: Option<usize>)
    ensures
        r is None <==> variants@.len() == 0,
        r matches Some(i) ==> is_best_variant(variants_view(variants@), i as int),
{
    let ghost vs = variants_view(variants@);
    if variants.len() == 0 {
        return None;
    }
    let mut best: usize = 0;
    let mut best_area = area_of(variants[0].resolution);
    let mut i: usize = 1;
    while i < variants.len()
        invariant
            vs == variants_view(variants@),
            vs.len() == variants@.len(),
            best < i <= variants@.len(),
            best_area == area(vs[best as int].resolution),
            forall|j: int| 0 <= j < i ==> !ranks_below(#[trigger] vs[best as int], vs[j]),
            forall|j: int| best < j < i ==> ranks_below(#[trigger] vs[j], vs[best as int]),
        decreases variants@.len() - i,
    {
        let a = area_of(variants[i].resolution);
        if a > best_area || (a == best_area && variants[i].bandwidth >= variants[best].bandwidth) {
            best = i;
            best_area = a;
        }
        i = i + 1;
    }
    Some(best)
}

/// What resolving a fetched playlist leads to.
#[derive(Debug, Clone)]
pub enum Resolved {
    /// The playlist was a media playlist: its segments, and the base URL for
    /// their references.
    Media { segments: Vec<Segment>, base: Option<String> },
    /// The playlist was a master playlist: the media playlist at `url` is
    /// to be fetched next, and its references resolved against `base_url`
    /// (taken as they are when there is none).
    Variant { url: String, base_url: Option<String> },
}

/// What resolving a master playlist whose variants are `vs`, against the base
/// URL `base` (if any), yields: the location of its best variant.
pub open spec fn variant_outcome(
    vs: Seq<VariantView>,
    base: Option<Seq<char>>,
    r: Result<Resolved, FetchError>,
) -> bool {
    exists|i: int|
        #[trigger] is_best_variant(vs, i) && match r {
            Ok(Resolved::Variant { url, base_url }) => opt_view(base_url) == base
                && entry_url_spec(base, vs[i].uri) == Some(url@),
            Ok(Resolved::Media { .. }) => false,
            Err(e) => e == FetchError::InvalidUrl && entry_url_spec(base, vs[i].uri) is None,
        }
}

/// Resolve the playlist fetched from `url`, whose body is `bytes`.
pub fn resolve_playlist(url: &str, bytes: &[u8]) -> (r: Result<Resolved, FetchError>)
    ensures
        match parsed_playlist(bytes@) {
            None => r == Err::<Resolved, FetchError>(FetchError::Parse),
            Some(p) => match base_url_spec(url@) {
                Err(e) => r == Err::<Resolved, FetchError>(e),
                Ok(base) => match p {
                    PlaylistView::Media(segs) => r matches Ok(
                        Resolved::Media { segments, base: b },
                    ) && segments_view(segments@) == segs && opt_view(b) == base,
                    PlaylistView::Master(vs) => if vs.len() == 0 {
                        r == Err::<Resolved, FetchError>(FetchError::NoVariant)
                    } else {
                        variant_outcome(vs, base, r)
                    },
                },
            },
        },
{
    let playlist = match parse_playlist(bytes) {
        Some(p) => p,
        None => return Err(FetchError::Parse),
    };
    let base = base_url(url)?;
    match playlist {
        Playlist::Media(segments) => {
            proof {
                assert(segments_view(segments@) == parsed_playlist(bytes@)->0->Media_0);
            }
            Ok(Resolved::Media { segments, base })
        },
        Playlist::Master(variants) => {
            let ghost vs = variants_view(variants@);
            let best = match select_variant(&variants) {
                Some(i) => i,
                None => return Err(FetchError::NoVariant),
            };
            let media = match &base {
                Some(b) => entry_url(Some(b.as_str()), variants[best].uri.as_str()),
                None => entry_url(None, variants[best].uri.as_str()),
            };
            assert(vs[best as int].uri == variants@[best as int].uri@);
            match media {
                Ok(m) => Ok(Resolved::Variant { url: m, base_url: base }),
                Err(e) => Err(e),
            }
        },
    }
}

/// The segments of the media playlist whose body is `bytes`, fetched on
/// behalf of a master playlist.
pub fn expect_media(bytes: &[u8]) -> (r: Result<Vec<Segment>, FetchError>)
    ensures
        match parsed_playlist(bytes@) {
            None => r == Err::<Vec<Segment>, FetchError>(FetchError::Parse),
            Some(PlaylistView::Master(_)) => r == Err::<Vec<Segment>, FetchError>(
                FetchError::UnexpectedPlaylistType,
            ),
            Some(PlaylistView::Media(segs)) => r matches Ok(s) && segments_view(s@) == segs,
        },
{
    match parse_playlist(bytes) {
        None => Err(FetchError::Parse),
        Some(Playlist::Master(_)) => Err(FetchError::UnexpectedPlaylistType),
        Some(Playlist::Media(segments)) => Ok(segments),
    }
}

} // verus!
