use vstd::prelude::*;

verus! {

/// The fields of the 128-byte ID3v1 tag, undecoded: the tag does not say in
/// which encoding its texts are written.
#[derive(Debug)]
pub struct ID3v1 {
    pub header: Vec<u8>,
    pub title: Vec<u8>,
    pub artist: Vec<u8>,
    pub album: Vec<u8>,
    pub year: Vec<u8>,
    pub comment: Vec<u8>,
    pub genre: u8,
}

/// What an ID3v1 tag holds.
pub struct ID3v1View {
    pub header: Seq<u8>,
    pub title: Seq<u8>,
    pub artist: Seq<u8>,
    pub album: Seq<u8>,
    pub year: Seq<u8>,
    pub comment: Seq<u8>,
    pub genre: u8,
}

impl ID3v1View {
    /// The tag of a parser that has read none.
    pub open spec fn spec_default() -> ID3v1View {
        ID3v1View {
            header: Seq::empty(),
            title: Seq::empty(),
            artist: Seq::empty(),
            album: Seq::empty(),
            year: Seq::empty(),
            comment: Seq::empty(),
            genre: 0,
        }
    }

    /// The fields of the 128 bytes of `tag`, by their fixed offsets.
    pub open spec fn of(tag: Seq<u8>) -> ID3v1View {
        ID3v1View {
            header: tag.subrange(0, 3),
            title: tag.subrange(3, 33),
            artist: tag.subrange(33, 63),
            album: tag.subrange(63, 93),
            year: tag.subrange(93, 97),
            comment: tag.subrange(97, 127),
            genre: tag[127],
        }
    }
}

impl View for ID3v1 {
    type V = ID3v1View;

    open spec fn view(&self) -> ID3v1View {
        ID3v1View {
            header: self.header@,
            title: self.title@,
            artist: self.artist@,
            album: self.album@,
            year: self.year@,
            comment: self.comment@,
            genre: self.genre,
        }
    }
}

impl ID3v1 {
    pub fn new(
        header: Vec<u8>,
        title: Vec<u8>,
        artist: Vec<u8>,
        album: Vec<u8>,
        year: Vec<u8>,
        comment: Vec<u8>,
        genre: u8,
    ) -> (tag: ID3v1)
        ensures
            tag@ == (ID3v1View {
                header: header@,
                title: title@,
                artist: artist@,
                album: album@,
                year: year@,
                comment: comment@,
                genre,
            }),
    {
        ID3v1 { header, title, artist, album, year, comment, genre }
    }
}

impl Default for ID3v1 {
    fn default() -> (tag: ID3v1)
        ensures
            tag@ == ID3v1View::spec_default(),
    {
        ID3v1 {
            header: Vec::new(),
            title: Vec::new(),
            artist: Vec::new(),
            album: Vec::new(),
            year: Vec::new(),
            comment: Vec::new(),
            genre: 0,
        }
    }
}

} // verus!
