//! Track metadata, built once at load time from what the container reported.

use vstd::prelude::*;

verus! {

/// The standard tag keys that track metadata keeps.
#[derive(Clone, Copy, Debug, PartialEq, Eq, Structural)]
pub enum TagKey {
    TrackTitle,
    Artist,
    Album,
    /// Any other key, or none.
    Other,
}

/// The value of the last tag with the given key.
pub open spec fn last_tag(tags: Seq<(TagKey, String)>, key: TagKey) -> Option<String>
    decreases tags.len(),
{
    if tags.len() == 0 {
        None
    } else if tags.last().0 == key {
        Some(tags.last().1)
    } else {
        last_tag(tags.drop_last(), key)
    }
}

/// Metadata of one track. Immutable once built.
#[derive(Clone, Debug)]
pub struct TrackInfo {
    pub path: String,
    pub title: Option<String>,
    pub artist: Option<String>,
    pub album: Option<String>,
    /// Length of the track in frames, where the container gives it.
    pub n_frames: Option<u64>,
    pub sample_rate: Option<u32>,
    pub channels: Option<u8>,
}

/// For each of title, artist and album, the value of the last tag with that
/// key; later tags override earlier ones.
pub fn collect_tags(tags: &Vec<(TagKey, String)>) -> (r: (Option<String>, Option<String>, Option<String>))
    ensures
        r.0 == last_tag(tags@, TagKey::TrackTitle),
        r.1 == last_tag(tags@, TagKey::Artist),
        r.2 == last_tag(tags@, TagKey::Album),
{
    let mut title: Option<String> = None;
    let mut artist: Option<String> = None;
    let mut album: Option<String> = None;
    let mut i: usize = 0;
    while i < tags.len()
        invariant
            i <= tags@.len(),
            title == last_tag(tags@.subrange(0, i as int), TagKey::TrackTitle),
            artist == last_tag(tags@.subrange(0, i as int), TagKey::Artist),
            album == last_tag(tags@.subrange(0, i as int), TagKey::Album),
        decreases tags@.len() - i,
    {
        let ghost before = tags@.subrange(0, i as int);
        let key = tags[i].0;
        let value = tags[i].1.clone();
        match key {
            TagKey::TrackTitle => { title = Some(value); },
            TagKey::Artist => { artist = Some(value); },
            TagKey::Album => { album = Some(value); },
            TagKey::Other => {},
        }
        i = i + 1;
        assert(tags@.subrange(0, i as int).drop_last() =~= before);
    }
    assert(tags@.subrange(0, tags@.len() as int) =~= tags@);
    (title, artist, album)
}

impl TrackInfo {
    /// Builds the metadata of a probed track from its tags and its codec
    /// parameters. The channel count is kept as a byte.
    pub fn from_probe(
        path: String,
        tags: &Vec<(TagKey, String)>,
        n_frames: Option<u64>,
        sample_rate: Option<u32>,
        channel_count: Option<usize>,
    ) -> (r: TrackInfo)
        ensures
            r.path == path,
            r.title == last_tag(tags@, TagKey::TrackTitle),
            r.artist == last_tag(tags@, TagKey::Artist),
            r.album == last_tag(tags@, TagKey::Album),
            r.n_frames == n_frames,
            r.sample_rate == sample_rate,
            r.channels == match channel_count {
                Some(c) => Some(c as u8),
                None => None,
            },
    {
        let (title, artist, album) = collect_tags(tags);
        let channels = match channel_count {
            Some(c) => Some(c as u8),
            None => None,
        };
        TrackInfo { path, title, artist, album, n_frames, sample_rate, channels }
    }

    /// The track's length in frames, known only when both its frame count and
    /// its sample rate are.
    pub fn duration_frames(&self) -> (r: Option<u64>)
        ensures
            r == match (self.n_frames, self.sample_rate) {
                (Some(n), Some(_)) => Some(n),
                _ => None,
            },
    {
        match (self.n_frames, self.sample_rate) {
            (Some(n), Some(_)) => Some(n),
            _ => None,
        }
    }
}

} // verus!
