//! The ID3 parser: it walks the tag of one file and keeps what it finds.
use vstd::prelude::*;

use crate::id3::decoder::{
    extended_view, frame_header_outcome, frame_of, header_view, is_tag_footer, is_tag_header,
    parse_extended_header, parse_footer_buffer, parse_frame_header, parse_frame_payload,
    parse_protocol_header,
};
use crate::id3::error::ID3Error;
use crate::id3::extended_header::{ExtendedHeader, ExtendedView};
use crate::id3::footer::Footer;
use crate::id3::frames::common::{TagValue, TagView};
use crate::id3::id3v1_tag::{ID3v1, ID3v1View};
use crate::id3::protocol_header::{HeaderView, ProtocolHeader};
use crate::id3::version::Version;
use crate::registry::{lemma_find_key, lemma_one_list_per_key, texts, Entries, TagRegistry};
use crate::source::ByteSource;
use crate::text::uppercase_of;
use crate::util::copy_range;

verus! {

/// What one step of the frame loop met.
#[derive(Debug)]
pub enum FrameStep {
    /// A frame of the catalog, decoded, and the size of its payload.
    Frame(TagValue, u32),
    /// A frame outside the catalog, passed over: its code and its size.
    Skipped(u32, u32),
    /// The all-zero identifier that starts the padding.
    Padding,
}

/// What one step of the frame loop meets, as the bytes determine it.
pub enum StepView {
    Frame(TagView, u32),
    Skipped(u32, u32),
    Padding,
}

/// Everything that the parser knows of a tag.
pub struct TagModel {
    pub header: HeaderView,
    pub extended: ExtendedView,
    /// The frames of the catalog, under their identifiers.
    pub entries: Entries<TagView>,
    /// The frames outside the catalog that were passed over, in their order:
    /// the code and the size of each.
    pub skipped: Seq<(u32, u32)>,
    pub padding: u32,
    pub footer: HeaderView,
}

impl TagModel {
    /// What a parser knows before it has read a tag, and of a file without
    /// one.
    pub open spec fn empty() -> TagModel {
        TagModel {
            header: HeaderView::spec_default(),
            extended: ExtendedView::spec_default(),
            entries: Entries::empty(),
            skipped: Seq::empty(),
            padding: 0,
            footer: HeaderView::spec_default(),
        }
    }
}

/// What the frame loop has gathered: the decoded frames under their
/// identifiers, and the code and size of each frame that it passed over.
pub struct Gathered {
    pub entries: Entries<TagView>,
    pub skipped: Seq<(u32, u32)>,
}

impl Gathered {
    /// Nothing gathered yet.
    pub open spec fn empty() -> Gathered {
        Gathered { entries: Entries::empty(), skipped: Seq::empty() }
    }

    /// What is gathered after one more step: a decoded frame joins the
    /// frames of its identifier, a frame outside the catalog is noted.
    pub open spec fn after(self, step: StepView) -> Gathered {
        match step {
            StepView::Frame(frame, _) => Gathered {
                entries: self.entries.insert(uppercase_of(frame.identifier()), frame),
                skipped: self.skipped,
            },
            StepView::Skipped(code, size) => Gathered {
                entries: self.entries,
                skipped: self.skipped.push((code, size)),
            },
            StepView::Padding => self,
        }
    }
}

impl StepView {
    /// Number of payload bytes that the step passes.
    pub open spec fn size(self) -> nat {
        match self {
            StepView::Frame(_, size) => size as nat,
            StepView::Skipped(_, size) => size as nat,
            StepView::Padding => 0,
        }
    }
}

/// What the frame loop meets at `at` in a tag of version `v`: ten bytes of
/// frame header, then the payload of the declared size. A frame outside the
/// catalog is passed over by that size; the bytes must be there all the same.
#[verifier::opaque]
pub open spec fn frame_step(data: Seq<u8>, at: int, v: Version) -> Result<StepView, ID3Error> {
    if at + 10 > data.len() {
        Err(ID3Error::UnexpectedEnd)
    } else {
        match frame_header_outcome(data.subrange(at, at + 10), v) {
            Err(ID3Error::IsPadding) => Ok(StepView::Padding),
            Err(ID3Error::Unimplement(code, size)) => if at + 10 + size > data.len() {
                Err(ID3Error::UnexpectedEnd)
            } else {
                Ok(StepView::Skipped(code, size))
            },
            Err(e) => Err(e),
            Ok((id, size)) => if at + 10 + size > data.len() {
                Err(ID3Error::UnexpectedEnd)
            } else {
                match frame_of(id, data.subrange(at + 10, at + 10 + size)) {
                    Ok(frame) => Ok(StepView::Frame(frame, size)),
                    Err(e) => Err(e),
                }
            },
        }
    }
}

/// The frame loop from the place `at`, where `start` of the `size` declared
/// bytes have been consumed and `gathered` has been gathered. It ends at the
/// declared size, or at the padding, whose length is then what is left of the
/// declared size. Any fault ends it with that fault.
pub open spec fn frames_from(
    data: Seq<u8>,
    at: int,
    start: int,
    size: int,
    v: Version,
    gathered: Gathered,
) -> Result<(Gathered, Option<int>), ID3Error>
    decreases
        (if start < size {
            size - start
        } else {
            0
        }),
{
    if start >= size {
        Ok((gathered, None))
    } else {
        match frame_step(data, at, v) {
            Err(e) => Err(e),
            Ok(StepView::Padding) => Ok((gathered, Some(size - start))),
            Ok(step) => frames_from(
                data,
                at + 10 + step.size(),
                start + 10 + step.size(),
                size,
                v,
                gathered.after(step),
            ),
        }
    }
}

/// The extended header of a tag with the header `header`, the place where
/// the frames start, and how much of the declared size lies before them.
pub open spec fn extended_part(data: Seq<u8>, header: HeaderView) -> Result<
    (ExtendedView, int, int),
    ID3Error,
> {
    if !header.flags.ExtendedHeader {
        Ok((ExtendedView::spec_default(), 10, 0))
    } else if data.len() < 20 {
        Err(ID3Error::UnexpectedEnd)
    } else {
        let read = extended_view(data.subrange(10, 20), header.major_version);
        if 20 + read.len > data.len() {
            Err(ID3Error::UnexpectedEnd)
        } else {
            Ok(
                (
                    ExtendedView {
                        ver: read.ver,
                        len: read.len,
                        data: read.data,
                        payload: data.subrange(20, 20 + read.len),
                    },
                    20 + read.len,
                    10 + read.len,
                ),
            )
        }
    }
}

/// The footer of a tag with the header `header`: the ten bytes behind the
/// declared size, where the header announces a footer. Ten bytes that are no
/// footer leave it as it was.
pub open spec fn footer_part(data: Seq<u8>, header: HeaderView) -> Result<HeaderView, ID3Error> {
    if !header.flags.Footer {
        Ok(HeaderView::spec_default())
    } else if 20 + header.size > data.len() {
        Err(ID3Error::UnexpectedEnd)
    } else {
        let footer = data.subrange(10 + header.size, 20 + header.size);
        if is_tag_footer(footer) {
            Ok(header_view(footer))
        } else {
            Ok(HeaderView::spec_default())
        }
    }
}

/// What is known of a tag once its frame loop has ended with `ended`: the
/// loop's fault, or what was collected, with the padding and the footer where
/// the loop came to the padding.
pub open spec fn tag_end(
    data: Seq<u8>,
    header: HeaderView,
    extended: ExtendedView,
    ended: Result<(Gathered, Option<int>), ID3Error>,
) -> Result<TagModel, ID3Error> {
    match ended {
        Err(e) => Err(e),
        Ok((gathered, None)) => Ok(
            TagModel {
                header,
                extended,
                entries: gathered.entries,
                skipped: gathered.skipped,
                padding: 0,
                footer: HeaderView::spec_default(),
            },
        ),
        Ok((gathered, Some(padding))) => match footer_part(data, header) {
            Err(e) => Err(e),
            Ok(footer) => Ok(
                TagModel {
                    header,
                    extended,
                    entries: gathered.entries,
                    skipped: gathered.skipped,
                    padding: padding as u32,
                    footer,
                },
            ),
        },
    }
}

/// What the bytes of a file hold as their ID3v2 tag. A file that does not
/// start with a tag header holds the empty tag. A file that ends before its
/// tag does, and a tag with a corrupt frame, hold none.
pub open spec fn tag_model(data: Seq<u8>) -> Result<TagModel, ID3Error> {
    if data.len() < 10 {
        Err(ID3Error::UnexpectedEnd)
    } else if !is_tag_header(data.subrange(0, 10)) {
        Ok(TagModel::empty())
    } else {
        let header = header_view(data.subrange(0, 10));
        match extended_part(data, header) {
            Err(e) => Err(e),
            Ok((extended, at, start)) => tag_end(
                data,
                header,
                extended,
                frames_from(
                    data,
                    at,
                    start,
                    header.size as int,
                    header.major_version,
                    Gathered::empty(),
                ),
            ),
        }
    }
}

/// What each of the frames holds.
pub open spec fn views(list: Seq<TagValue>) -> Seq<TagView> {
    list.map_values(|v: TagValue| v@)
}

/// What a registry of frames holds.
pub open spec fn models(e: Entries<TagValue>) -> Entries<TagView> {
    Entries { keys: e.keys, lists: e.lists.map_values(|list: Seq<TagValue>| views(list)) }
}

/// The texts that the frames show.
pub open spec fn messages(list: Seq<TagView>) -> Seq<Seq<char>> {
    list.map_values(|v: TagView| v.message())
}

/// The bytes that the frames keep undecoded.
pub open spec fn raws(list: Seq<TagView>) -> Seq<Seq<u8>> {
    list.map_values(|v: TagView| v.raw())
}

/// What each of the buffers holds.
pub open spec fn buffers(list: Seq<Vec<u8>>) -> Seq<Seq<u8>> {
    list.map_values(|b: Vec<u8>| b@)
}

/// What a registry of frames holds after an insertion is what it held
/// before, with what the new frame holds inserted.
pub proof fn lemma_models_insert(e: Entries<TagValue>, key: Seq<char>, value: TagValue)
    requires
        e.keys.len() == e.lists.len(),
    ensures
        models(e.insert(key, value)) == models(e).insert(key, value@),
{
    lemma_find_key(e.keys, key, 0);
    let at = e.position(key);
    let left = models(e.insert(key, value));
    let right = models(e).insert(key, value@);
    assert(left.keys =~= right.keys);
    if at >= 0 {
        assert(views(e.lists[at].push(value)) =~= views(e.lists[at]).push(value@));
        assert(left.lists =~= right.lists);
    } else {
        assert(views(seq![value]) =~= seq![value@]);
        assert(left.lists =~= right.lists);
    }
}

/// At the padding the frame loop stops, and the padding is as long as what
/// is left of the declared size.
pub proof fn lemma_padding_ends_the_loop(
    data: Seq<u8>,
    at: int,
    start: int,
    size: int,
    v: Version,
    gathered: Gathered,
)
    requires
        start < size,
        frame_step(data, at, v) == Ok::<StepView, ID3Error>(StepView::Padding),
    ensures
        frames_from(data, at, start, size, v, gathered) == Ok::<(Gathered, Option<int>), ID3Error>(
            (gathered, Some(size - start)),
        ),
{
}

/// A frame outside the catalog is no fault: the loop goes on ten bytes and
/// the declared size further, with the same frames, and with the code and
/// the size of the frame noted.
pub proof fn lemma_unknown_frame_is_skipped(
    data: Seq<u8>,
    at: int,
    start: int,
    size: int,
    v: Version,
    gathered: Gathered,
    code: u32,
    skip: u32,
)
    requires
        start < size,
        frame_step(data, at, v) == Ok::<StepView, ID3Error>(StepView::Skipped(code, skip)),
    ensures
        frames_from(data, at, start, size, v, gathered) == frames_from(
            data,
            at + 10 + skip,
            start + 10 + skip,
            size,
            v,
            Gathered { entries: gathered.entries, skipped: gathered.skipped.push((code, skip)) },
        ),
{
}

/// Reads one frame at the cursor of `source`: the header, then the payload,
/// which is decoded for a frame of the catalog and passed over for any other.
pub fn next_frame(source: &mut ByteSource, version: &Version) -> (r: Result<FrameStep, ID3Error>)
    ensures
        final(source).bytes() == old(source).bytes(),
        match frame_step(old(source).bytes(), old(source).cursor() as int, *version) {
            Ok(StepView::Frame(frame, size)) => {
                &&& r matches Ok(FrameStep::Frame(f, n))
                &&& f@ == frame
                &&& n == size
                &&& final(source).cursor() == old(source).cursor() + 10 + size
            },
            Ok(StepView::Skipped(code, size)) => {
                &&& r matches Ok(FrameStep::Skipped(c, n))
                &&& c == code
                &&& n == size
                &&& final(source).cursor() == old(source).cursor() + 10 + size
            },
            Ok(StepView::Padding) => {
                &&& r matches Ok(FrameStep::Padding)
                &&& final(source).cursor() == old(source).cursor() + 10
            },
            Err(e) => r matches Err(x) && x == e,
        },
{
    reveal(frame_step);
    let buffer = match source.read_exact(10) {
        Some(b) => b,
        None => {
            return Err(ID3Error::UnexpectedEnd);
        },
    };
    match parse_frame_header(buffer.as_slice(), version) {
        Ok(header) => {
            let payload = match source.read_exact(header.size as usize) {
                Some(b) => b,
                None => {
                    return Err(ID3Error::UnexpectedEnd);
                },
            };
            match parse_frame_payload(&payload, &header) {
                Ok(frame) => Ok(FrameStep::Frame(frame, header.size)),
                Err(e) => Err(e),
            }
        },
        Err(ID3Error::IsPadding) => Ok(FrameStep::Padding),
        Err(ID3Error::Unimplement(code, skip)) => {
            if source.skip(skip as usize) {
                Ok(FrameStep::Skipped(code, skip))
            } else {
                Err(ID3Error::UnexpectedEnd)
            }
        },
        Err(e) => Err(e),
    }
}

/// Reads the ID3 tags of one file.
pub struct ID3Parser {
    /// The bytes of the file, and how far they have been read.
    pub source: ByteSource,
    /// The frames of the ID3v2 tag, under their identifiers.
    pub registry: TagRegistry<TagValue>,
    /// Protocol header of the ID3v2 tag.
    pub pheader: ProtocolHeader,
    /// Extended header of the ID3v2 tag.
    pub eheader: ExtendedHeader,
    /// The frames outside the catalog that were passed over: the code and
    /// the size of each.
    pub skipped: Vec<(u32, u32)>,
    /// Length of the padding behind the frames.
    pub padding_size: u32,
    /// Footer of the ID3v2 tag.
    pub footer: Footer,
    /// The ID3v1 tag.
    pub id3v1: ID3v1,
}

impl ID3Parser {
    /// The bytes of the file.
    pub open spec fn data(&self) -> Seq<u8> {
        self.source.bytes()
    }

    /// The frames that have been collected, under their identifiers.
    pub open spec fn entries(&self) -> Entries<TagView> {
        models(self.registry@)
    }

    /// The invariant of the parser: that of its registry.
    pub open spec fn wf(&self) -> bool {
        self.registry.wf()
    }

    /// What the parser knows of the ID3v2 tag.
    pub open spec fn model(&self) -> TagModel {
        TagModel {
            header: self.pheader@,
            extended: self.eheader@,
            entries: self.entries(),
            skipped: self.skipped@,
            padding: self.padding_size,
            footer: self.footer@,
        }
    }

    /// A parser for the file that holds `data`; nothing is read yet.
    pub fn new(data: Vec<u8>) -> (parser: ID3Parser)
        ensures
            parser.wf(),
            parser.data() == data@,
            parser.model() == TagModel::empty(),
            parser.id3v1@ == ID3v1View::spec_default(),
    {
        let parser = ID3Parser {
            source: ByteSource::new(data),
            registry: TagRegistry::new(),
            pheader: ProtocolHeader::default(),
            eheader: ExtendedHeader::default(),
            skipped: Vec::new(),
            padding_size: 0,
            footer: Footer::default(),
            id3v1: ID3v1::default(),
        };
        assert(parser.entries().lists =~= Seq::empty());
        parser
    }

    /// The texts of the frames kept under `query`, oldest first. The query is
    /// read without regard to case.
    pub fn get(&self, query: &str) -> (r: Option<Vec<String>>)
        ensures
            match self.entries().lookup(query@) {
                Some(list) => r matches Some(found) && texts(found@) == messages(list),
                None => r is None,
            },
    {
        proof {
            lemma_one_list_per_key(&self.registry);
            lemma_find_key(self.registry@.keys, uppercase_of(query@), 0);
        }
        match self.registry.get(query) {
            Some(list) => {
                let mut rst: Vec<String> = Vec::new();
                let mut i: usize = 0;
                while i < list.len()
                    invariant
                        i <= list@.len(),
                        rst@.len() == i,
                        forall|k: int| 0 <= k < i ==> (#[trigger] rst@[k])@ == list@[k]@.message(),
                    decreases list@.len() - i,
                {
                    rst.push(list[i].message());
                    i += 1;
                }
                assert(texts(rst@) =~= messages(views(list@)));
                Some(rst)
            },
            None => None,
        }
    }

    /// The undecoded bytes of the frames kept under `query`, oldest first.
    /// The query is read without regard to case.
    pub fn get_raw(&self, query: &str) -> (r: Option<Vec<Vec<u8>>>)
        ensures
            match self.entries().lookup(query@) {
                Some(list) => r matches Some(found) && buffers(found@) == raws(list),
                None => r is None,
            },
    {
        proof {
            lemma_one_list_per_key(&self.registry);
            lemma_find_key(self.registry@.keys, uppercase_of(query@), 0);
        }
        match self.registry.get(query) {
            Some(list) => {
                let mut rst: Vec<Vec<u8>> = Vec::new();
                let mut i: usize = 0;
                while i < list.len()
                    invariant
                        i <= list@.len(),
                        rst@.len() == i,
                        forall|k: int| 0 <= k < i ==> (#[trigger] rst@[k])@ == list@[k]@.raw(),
                    decreases list@.len() - i,
                {
                    rst.push(list[i].raw());
                    i += 1;
                }
                assert(buffers(rst@) =~= raws(views(list@)));
                Some(rst)
            },
            None => None,
        }
    }

    /// Keeps a frame under its identifier: behind the frames that the
    /// identifier already has, or as the first of a new list.
    pub fn push(&mut self, v: TagValue)
        ensures
            old(self).wf() ==> final(self).wf(),
            final(self).entries() == old(self).entries().insert(
                uppercase_of(v@.identifier()),
                v@,
            ),
            final(self).data() == old(self).data(),
            final(self).source == old(self).source,
            final(self).pheader == old(self).pheader,
            final(self).eheader == old(self).eheader,
            final(self).skipped == old(self).skipped,
            final(self).padding_size == old(self).padding_size,
            final(self).footer == old(self).footer,
            final(self).id3v1 == old(self).id3v1,
    {
        let identifier = v.identifier();
        proof {
            lemma_one_list_per_key(&self.registry);
            lemma_models_insert(self.registry@, uppercase_of(identifier@), v);
        }
        self.registry.insert(identifier.as_str(), v);
    }

    /// Reads the ID3v1 tag: the last 128 bytes of the file, cut at their
    /// fixed offsets. A file of fewer bytes has none.
    pub fn parse_id3v1(&mut self) -> (r: Result<(), ID3Error>)
        ensures
            final(self).registry == old(self).registry,
            final(self).data() == old(self).data(),
            final(self).model() == old(self).model(),
            old(self).data().len() >= 128 ==> r is Ok && final(self).id3v1@ == ID3v1View::of(
                old(self).data().skip(old(self).data().len() - 128),
            ),
            old(self).data().len() < 128 ==> r == Err::<(), ID3Error>(ID3Error::UnexpectedEnd)
                && final(self).id3v1 == old(self).id3v1,
    {
        let length = self.source.len();
        if length < 128 {
            return Err(ID3Error::UnexpectedEnd);
        }
        self.source.seek_to(length - 128);
        let buffer = match self.source.read_exact(128) {
            Some(b) => b,
            None => {
                return Err(ID3Error::UnexpectedEnd);
            },
        };
        let tag = buffer.as_slice();
        let header = copy_range(tag, 0, 3);
        let title = copy_range(tag, 3, 33);
        let artist = copy_range(tag, 33, 63);
        let album = copy_range(tag, 63, 93);
        let year = copy_range(tag, 93, 97);
        let comment = copy_range(tag, 97, 127);
        let genre: u8 = tag[127];
        assert(buffer@ =~= old(self).data().skip(old(self).data().len() - 128));
        self.id3v1 = ID3v1::new(header, title, artist, album, year, comment, genre);
        Ok(())
    }

    /// Forgets what was read of the ID3v2 tag and goes back to the start of
    /// the file.
    fn reset(&mut self)
        ensures
            final(self).wf(),
            final(self).data() == old(self).data(),
            final(self).source.cursor() == 0,
            final(self).model() == TagModel::empty(),
            final(self).id3v1 == old(self).id3v1,
    {
        self.source.seek_to(0);
        self.registry.clear();
        self.pheader = ProtocolHeader::default();
        self.eheader = ExtendedHeader::default();
        self.skipped.clear();
        self.padding_size = 0;
        self.footer = Footer::default();
        assert(self.entries().lists =~= Seq::empty());
    }

    /// Reads the extended header where the tag has one. Gives how much of
    /// the declared size lies before the frames.
    fn read_extended_header(&mut self) -> (r: Result<u64, ID3Error>)
        requires
            old(self).wf(),
            old(self).source.cursor() == 10,
            old(self).eheader@ == ExtendedView::spec_default(),
        ensures
            final(self).wf(),
            final(self).data() == old(self).data(),
            final(self).entries() == old(self).entries(),
            final(self).pheader == old(self).pheader,
            final(self).skipped == old(self).skipped,
            final(self).padding_size == old(self).padding_size,
            final(self).footer == old(self).footer,
            final(self).id3v1 == old(self).id3v1,
            match extended_part(old(self).data(), old(self).pheader@) {
                Ok((extended, at, start)) => {
                    &&& r matches Ok(n)
                    &&& n == start
                    &&& final(self).eheader@ == extended
                    &&& final(self).source.cursor() == at
                },
                Err(e) => r matches Err(x) && x == e,
            },
    {
        if !self.pheader.flags.ExtendedHeader {
            return Ok(0);
        }
        let buffer = match self.source.read_exact(10) {
            Some(b) => b,
            None => {
                return Err(ID3Error::UnexpectedEnd);
            },
        };
        let mut extended = parse_extended_header(buffer.as_slice(), &self.pheader.major_version);
        let payload = match self.source.read_exact(extended.len as usize) {
            Some(b) => b,
            None => {
                return Err(ID3Error::UnexpectedEnd);
            },
        };
        extended.payload = payload;
        let start: u64 = 10 + extended.len as u64;
        self.eheader = extended;
        Ok(start)
    }

    /// Reads the footer where the tag has one: the ten bytes that stand
    /// behind the declared size.
    fn read_footer(&mut self) -> (r: Result<(), ID3Error>)
        requires
            old(self).wf(),
            old(self).footer@ == HeaderView::spec_default(),
        ensures
            final(self).wf(),
            final(self).data() == old(self).data(),
            final(self).entries() == old(self).entries(),
            final(self).pheader == old(self).pheader,
            final(self).eheader == old(self).eheader,
            final(self).skipped == old(self).skipped,
            final(self).padding_size == old(self).padding_size,
            final(self).id3v1 == old(self).id3v1,
            match footer_part(old(self).data(), old(self).pheader@) {
                Ok(footer) => r is Ok && final(self).footer@ == footer,
                Err(e) => r matches Err(x) && x == e,
            },
    {
        if !self.pheader.flags.Footer {
            return Ok(());
        }
        let length = self.source.len();
        if length < 20 || self.pheader.size as u64 > (length - 20) as u64 {
            return Err(ID3Error::UnexpectedEnd);
        }
        self.source.seek_to(10 + self.pheader.size as usize);
        let buffer = match self.source.read_exact(10) {
            Some(b) => b,
            None => {
                return Err(ID3Error::UnexpectedEnd);
            },
        };
        match parse_footer_buffer(buffer.as_slice()) {
            Ok(footer) => {
                self.footer = footer;
            },
            Err(_) => {},
        }
        Ok(())
    }

    /// Walks the tag from the start of the file.
    fn read_tag(&mut self) -> (r: Result<(), ID3Error>)
        requires
            old(self).wf(),
            old(self).source.cursor() == 0,
            old(self).model() == TagModel::empty(),
        ensures
            final(self).wf(),
            final(self).data() == old(self).data(),
            final(self).id3v1 == old(self).id3v1,
            match tag_model(old(self).data()) {
                Ok(m) => r is Ok && final(self).model() == m,
                Err(e) => r matches Err(x) && x == e,
            },
    {
        let ghost data = self.data();
        let buffer = match self.source.read_exact(10) {
            Some(b) => b,
            None => {
                return Err(ID3Error::UnexpectedEnd);
            },
        };
        match parse_protocol_header(buffer.as_slice()) {
            Ok(header) => {
                self.pheader = header;
            },
            Err(_) => {
                return Ok(());
            },
        }
        let mut start: u64 = match self.read_extended_header() {
            Ok(n) => n,
            Err(e) => {
                return Err(e);
            },
        };
        let size: u32 = self.pheader.size;
        let version: Version = self.pheader.major_version;
        let ghost whole = frames_from(
            data,
            self.source.cursor() as int,
            start as int,
            size as int,
            version,
            Gathered::empty(),
        );
        let ghost header = self.pheader@;
        let ghost extended = self.eheader@;
        let ghost tag = self.id3v1;
        while start < size as u64
            invariant
                self.wf(),
                self.data() == data,
                data == old(self).data(),
                tag == old(self).id3v1,
                tag_model(data) == tag_end(data, header, extended, whole),
                self.pheader@ == header,
                self.eheader@ == extended,
                self.padding_size == 0,
                self.footer@ == HeaderView::spec_default(),
                self.id3v1 == tag,
                size == header.size,
                version == header.major_version,
                start <= size as u64 + 0x2_0000_0000,
                frames_from(
                    data,
                    self.source.cursor() as int,
                    start as int,
                    size as int,
                    version,
                    Gathered { entries: self.entries(), skipped: self.skipped@ },
                ) == whole,
            decreases size as u64 + 0x2_0000_0000 - start,
        {
            match next_frame(&mut self.source, &version) {
                Ok(FrameStep::Frame(frame, length)) => {
                    self.push(frame);
                    start = start + 10 + length as u64;
                },
                Ok(FrameStep::Skipped(code, skip)) => {
                    self.skipped.push((code, skip));
                    start = start + 10 + skip as u64;
                },
                Ok(FrameStep::Padding) => {
                    self.padding_size = (size as u64 - start) as u32;
                    return self.read_footer();
                },
                Err(e) => {
                    return Err(e);
                },
            }
        }
        Ok(())
    }

    /// Reads the ID3v2 tag of the file. A file that starts with no tag
    /// header leaves the parser empty, and so does a fault, which is
    /// returned: what was read before it is not kept.
    pub fn parse_id3v2(&mut self) -> (r: Result<(), ID3Error>)
        ensures
            final(self).wf(),
            final(self).data() == old(self).data(),
            final(self).id3v1 == old(self).id3v1,
            match tag_model(old(self).data()) {
                Ok(m) => r is Ok && final(self).model() == m,
                Err(e) => r == Err::<(), ID3Error>(e) && final(self).model() == TagModel::empty(),
            },
    {
        self.reset();
        match self.read_tag() {
            Ok(()) => Ok(()),
            Err(e) => {
                self.reset();
                Err(e)
            },
        }
    }

    /// Turns the parser to another file, whose bytes are `data`. The frames
    /// of the file before are forgotten.
    pub fn change_target(&mut self, data: Vec<u8>)
        ensures
            final(self).wf(),
            final(self).data() == data@,
            final(self).entries() == Entries::<TagView>::empty(),
            final(self).skipped@ == Seq::<(u32, u32)>::empty(),
            final(self).pheader == old(self).pheader,
            final(self).eheader == old(self).eheader,
            final(self).padding_size == old(self).padding_size,
            final(self).footer == old(self).footer,
            final(self).id3v1 == old(self).id3v1,
    {
        self.source = ByteSource::new(data);
        self.registry.clear();
        self.skipped.clear();
        assert(self.entries().lists =~= Seq::empty());
    }
}

} // verus!
