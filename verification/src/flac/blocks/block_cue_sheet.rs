use vstd::prelude::*;

verus! {

/// One index point of a cue sheet track.
#[derive(Clone, Copy, Debug, PartialEq, Eq, Structural)]
pub struct TrackIndex {
    /// Offset in samples from the start of the track.
    pub offset: u64,
    pub index_point_number: u8,
}

impl TrackIndex {
    pub fn new(offset: u64, index_point_number: u8) -> (index: TrackIndex)
        ensures
            index == (TrackIndex { offset, index_point_number }),
    {
        TrackIndex { offset, index_point_number }
    }
}

impl Default for TrackIndex {
    fn default() -> (index: TrackIndex)
        ensures
            index == (TrackIndex { offset: 0, index_point_number: 0 }),
    {
        TrackIndex { offset: 0, index_point_number: 0 }
    }
}

/// One track of a cue sheet.
#[derive(Debug)]
pub struct Track {
    /// Offset in samples from the start of the audio stream.
    pub offset: u64,
    pub number: u8,
    /// The twelve characters of the ISRC field.
    pub isrc: String,
    pub is_audio_track: bool,
    pub pre_emphasis: bool,
    pub track_index_points_number: u8,
    pub track_indices: Vec<TrackIndex>,
}

/// What a track holds.
pub struct TrackView {
    pub offset: u64,
    pub number: u8,
    pub isrc: Seq<char>,
    pub is_audio_track: bool,
    pub pre_emphasis: bool,
    pub track_index_points_number: u8,
    pub track_indices: Seq<TrackIndex>,
}

impl View for Track {
    type V = TrackView;

    open spec fn view(&self) -> TrackView {
        TrackView {
            offset: self.offset,
            number: self.number,
            isrc: self.isrc@,
            is_audio_track: self.is_audio_track,
            pre_emphasis: self.pre_emphasis,
            track_index_points_number: self.track_index_points_number,
            track_indices: self.track_indices@,
        }
    }
}

impl Track {
    pub fn new(
        offset: u64,
        number: u8,
        isrc: String,
        is_audio_track: bool,
        pre_emphasis: bool,
        track_index_points_number: u8,
        track_indices: Vec<TrackIndex>,
    ) -> (track: Track)
        ensures
            track@ == (TrackView {
                offset,
                number,
                isrc: isrc@,
                is_audio_track,
                pre_emphasis,
                track_index_points_number,
                track_indices: track_indices@,
            }),
    {
        Track {
            offset,
            number,
            isrc,
            is_audio_track,
            pre_emphasis,
            track_index_points_number,
            track_indices,
        }
    }
}

impl Default for Track {
    fn default() -> (track: Track)
        ensures
            track@ == (TrackView {
                offset: 0,
                number: 0,
                isrc: Seq::empty(),
                is_audio_track: false,
                pre_emphasis: false,
                track_index_points_number: 0,
                track_indices: Seq::empty(),
            }),
    {
        Track {
            offset: 0,
            number: 0,
            isrc: String::new(),
            is_audio_track: false,
            pre_emphasis: false,
            track_index_points_number: 0,
            track_indices: Vec::new(),
        }
    }
}

/// A cue sheet block.
#[derive(Debug)]
pub struct BlockCueSheet {
    /// The 128 characters of the media catalog number field.
    pub media_catalog: String,
    pub lead_in_samples_number: u64,
    pub is_cd: bool,
    pub tracks_number: u8,
    pub tracks: Vec<Track>,
}

/// What a cue sheet holds.
pub struct CueSheetView {
    pub media_catalog: Seq<char>,
    pub lead_in_samples_number: u64,
    pub is_cd: bool,
    pub tracks_number: u8,
    pub tracks: Seq<TrackView>,
}

impl CueSheetView {
    /// The cue sheet of a parser that has read none.
    pub open spec fn spec_default() -> CueSheetView {
        CueSheetView {
            media_catalog: Seq::empty(),
            lead_in_samples_number: 0,
            is_cd: false,
            tracks_number: 0,
            tracks: Seq::empty(),
        }
    }
}

/// What each of the tracks holds.
pub open spec fn track_views(tracks: Seq<Track>) -> Seq<TrackView> {
    tracks.map_values(|t: Track| t@)
}

impl View for BlockCueSheet {
    type V = CueSheetView;

    open spec fn view(&self) -> CueSheetView {
        CueSheetView {
            media_catalog: self.media_catalog@,
            lead_in_samples_number: self.lead_in_samples_number,
            is_cd: self.is_cd,
            tracks_number: self.tracks_number,
            tracks: track_views(self.tracks@),
        }
    }
}

impl BlockCueSheet {
    pub fn new(
        media_catalog: String,
        lead_in_samples_number: u64,
        is_cd: bool,
        tracks_number: u8,
        tracks: Vec<Track>,
    ) -> (block: BlockCueSheet)
        ensures
            block@ == (CueSheetView {
                media_catalog: media_catalog@,
                lead_in_samples_number,
                is_cd,
                tracks_number,
                tracks: track_views(tracks@),
            }),
    {
        BlockCueSheet { media_catalog, lead_in_samples_number, is_cd, tracks_number, tracks }
    }
}

impl Default for BlockCueSheet {
    fn default() -> (block: BlockCueSheet)
        ensures
            block@ == CueSheetView::spec_default(),
    {
        let block = BlockCueSheet {
            media_catalog: String::new(),
            lead_in_samples_number: 0,
            is_cd: false,
            tracks_number: 0,
            tracks: Vec::new(),
        };
        assert(block@.tracks =~= Seq::empty());
        block
    }
}

} // verus!
