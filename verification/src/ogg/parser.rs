//! The Ogg parser: it puts the comment packet of a Vorbis stream together
//! from the pages that carry it, and decodes it.
use vstd::prelude::*;
use vstd::slice::slice_subrange;

use crate::flac::decoder::{parse_vorbis_comment, read_utf8, utf8_at, vorbis_comment_of};
use crate::flac::error::FlacError;
use crate::ogg::error::OggError;
use crate::ogg::ogg_vorbis_comment::{CommentBody, CommentHeader, CommentView, HeaderType};
use crate::ogg::page::{is_capture_pattern, PageHeader};
use crate::registry::{clone_texts, lemma_find_key, lemma_one_list_per_key, texts, Entries};
use crate::source::ByteSource;
use crate::text::uppercase_of;
use crate::util::{lemma_trim_end_take, trim_end};

verus! {

/// Sum of the numbers of `s`.
pub open spec fn seq_sum(s: Seq<int>) -> int
    decreases s.len(),
{
    if s.len() == 0 {
        0
    } else {
        seq_sum(s.drop_last()) + s.last()
    }
}

/// Number of content bytes that a segment table declares: the sum of its
/// lacing values.
pub open spec fn lacing_sum(table: Seq<u8>) -> int
    decreases table.len(),
{
    if table.len() == 0 {
        0
    } else {
        lacing_sum(table.drop_last()) + table.last()
    }
}

/// The packet lengths that a segment table gives when every lacing value
/// below 255 ends a packet and opens the next: the last length is that of
/// the packet which is still open behind the table.
pub open spec fn open_packets(table: Seq<u8>) -> Seq<int>
    decreases table.len(),
{
    if table.len() == 0 {
        seq![0int]
    } else {
        let before = open_packets(table.drop_last());
        let grown = before.update(before.len() - 1, before.last() + table.last());
        if table.last() == 255 {
            grown
        } else {
            grown.push(0)
        }
    }
}

/// The lengths of the packets of a page. A lacing value of 255 carries its
/// packet on into the next segment, a lower one ends it. A packet that the
/// last segment ends is not followed by an empty one.
pub open spec fn packet_lengths(table: Seq<u8>) -> Seq<int> {
    if table.len() > 0 && table.last() != 255 {
        open_packets(table).drop_last()
    } else {
        open_packets(table)
    }
}

/// The numbers of `v`.
pub open spec fn lengths_of(v: Seq<u32>) -> Seq<int> {
    Seq::new(v.len(), |i: int| v[i] as int)
}

/// The chunks in which the content of a page is read once its first byte
/// has been taken: the packets, the first of them one byte shorter.
pub open spec fn chunk_lengths(table: Seq<u8>) -> Seq<int> {
    packet_lengths(table).update(0, packet_lengths(table)[0] - 1)
}

/// The chunks of a page that carries a packet on, from the `i`-th: each
/// chunk joins the buffer, whose zero bytes at the end are then dropped. A
/// buffer that ends in the byte 1 after that is the whole comment packet,
/// without that byte. Gives the buffer, and whether the packet is whole.
pub open spec fn continue_chunks(
    data: Seq<u8>,
    at: int,
    lengths: Seq<int>,
    i: int,
    buffer: Seq<u8>,
) -> Result<(Seq<u8>, bool), OggError>
    decreases lengths.len() - i,
{
    if i < 0 || i >= lengths.len() {
        Ok((buffer, false))
    } else if lengths[i] < 0 || at + lengths[i] > data.len() {
        Err(OggError::UnexpectedEnd)
    } else {
        let grown = trim_end(buffer + data.subrange(at, at + lengths[i]));
        if grown.len() > 0 && grown.last() == 1 {
            Ok((grown.drop_last(), true))
        } else {
            continue_chunks(data, at + lengths[i], lengths, i + 1, grown)
        }
    }
}

/// The page loop from the place `at`, where `buffer` has been gathered.
/// Each page has 27 fixed bytes, its segment table and its content. A page
/// without content is passed over, and so is one whose first content byte is
/// 1 or 5. Of a page that starts a packet with the byte 3, all the content
/// behind that byte joins the buffer. Any other page carries the packet on:
/// its first byte joins the buffer, then its chunks. The loop ends with the
/// whole packet, or with nothing where a page lacks the capture pattern.
pub open spec fn pages_from(data: Seq<u8>, at: int, buffer: Seq<u8>) -> Result<
    Option<Seq<u8>>,
    OggError,
>
    decreases
        (if at < data.len() {
            data.len() - at
        } else {
            0
        }),
{
    if at < 0 || at + 27 > data.len() {
        Err(OggError::UnexpectedEnd)
    } else if !is_capture_pattern(data.subrange(at, at + 27)) {
        Ok(None)
    } else if at + 27 + data[at + 26] > data.len() {
        Err(OggError::UnexpectedEnd)
    } else {
        let body = at + 27 + data[at + 26];
        let table = data.subrange(at + 27, body);
        let total = lacing_sum(table);
        if total <= 0 {
            pages_from(data, body, buffer)
        } else if body >= data.len() {
            Err(OggError::UnexpectedEnd)
        } else if data[body] == 1 || data[body] == 5 {
            if body + total > data.len() {
                Err(OggError::UnexpectedEnd)
            } else {
                pages_from(data, body + total, buffer)
            }
        } else if packet_lengths(table)[0] == 0 {
            Err(OggError::MalformedPage)
        } else if data[at + 5] % 2 == 0 && data[body] == 3 {
            if body + total > data.len() {
                Err(OggError::UnexpectedEnd)
            } else {
                pages_from(data, body + total, buffer + data.subrange(body + 1, body + total))
            }
        } else {
            match continue_chunks(
                data,
                body + 1,
                chunk_lengths(table),
                0,
                buffer.push(data[body]),
            ) {
                Err(e) => Err(e),
                Ok((whole, true)) => Ok(Some(whole)),
                Ok((grown, false)) => pages_from(data, body + total, grown),
            }
        }
    }
}

/// The comment header in a whole comment packet: six bytes of pattern, then
/// the vendor string and the comments, laid out as in a FLAC comment block.
pub open spec fn comment_packet_of(packet: Seq<u8>) -> Result<CommentView, FlacError> {
    if packet.len() < 6 {
        Err(FlacError::Truncated)
    } else {
        match utf8_at(packet, 0, 6) {
            Err(e) => Err(e),
            Ok(packet_pattern) => match vorbis_comment_of(packet.skip(6)) {
                Err(e) => Err(e),
                Ok(comment) => Ok(
                    CommentView {
                        header_type: HeaderType::CommentHeader,
                        packet_pattern,
                        company_info: comment.encoder,
                        comment_body: comment.entries,
                        end: true,
                    },
                ),
            },
        }
    }
}

/// Everything that the parser knows of a stream.
pub struct OggModel {
    /// The comment packet as it was gathered from the pages.
    pub packet: Seq<u8>,
    /// The comments under their keys.
    pub comments: Entries<Seq<char>>,
}

impl OggModel {
    /// What a parser knows before it has read a stream, and of a file that
    /// is no Ogg stream.
    pub open spec fn empty() -> OggModel {
        OggModel { packet: Seq::empty(), comments: Entries::empty() }
    }
}

/// What the bytes of a file hold as the comments of their Vorbis stream.
pub open spec fn ogg_model(data: Seq<u8>) -> Result<OggModel, OggError> {
    match pages_from(data, 0, Seq::empty()) {
        Err(e) => Err(e),
        Ok(None) => Ok(OggModel::empty()),
        Ok(Some(packet)) => match comment_packet_of(packet) {
            Err(e) => Err(OggError::Comment(e)),
            Ok(header) => Ok(OggModel { packet, comments: header.comment_body }),
        },
    }
}

/// The open packet lengths of a table: there is at least one, none is
/// negative, they add up to the sum of the lacing values, and the last is
/// zero behind a lacing value that ends a packet.
pub proof fn lemma_open_packets(table: Seq<u8>)
    ensures
        open_packets(table).len() >= 1,
        seq_sum(open_packets(table)) == lacing_sum(table),
        table.len() > 0 && table.last() != 255 ==> open_packets(table).last() == 0,
        forall|k: int| 0 <= k < open_packets(table).len() ==> 0 <= #[trigger] open_packets(table)[k],
    decreases table.len(),
{
    if table.len() > 0 {
        let before = open_packets(table.drop_last());
        lemma_open_packets(table.drop_last());
        let grown = before.update(before.len() - 1, before.last() + table.last());
        assert(grown.drop_last() =~= before.drop_last());
        assert(seq_sum(grown) == seq_sum(before) + table.last());
        if table.last() != 255 {
            assert(grown.push(0).drop_last() =~= grown);
        }
    } else {
        assert(seq![0int].drop_last() =~= Seq::<int>::empty());
        assert(seq_sum(seq![0int].drop_last()) == 0);
        assert(seq_sum(seq![0int]) == 0);
    }
}

/// The packets of a page have all its content between them: their lengths
/// add up to the sum of the lacing values.
pub proof fn lemma_packets_cover_page(table: Seq<u8>)
    ensures
        seq_sum(packet_lengths(table)) == lacing_sum(table),
        packet_lengths(table).len() >= 1,
        forall|k: int|
            0 <= k < packet_lengths(table).len() ==> 0 <= #[trigger] packet_lengths(table)[k],
{
    lemma_open_packets(table);
    if table.len() > 0 && table.last() != 255 {
        let all = open_packets(table);
        let before = open_packets(table.drop_last());
        lemma_open_packets(table.drop_last());
        assert(all.len() >= 2);
    }
}

/// The sum of one more number is the sum so far and that number.
pub proof fn lemma_sum_take(s: Seq<int>, k: int)
    requires
        0 <= k < s.len(),
    ensures
        seq_sum(s.take(k + 1)) == seq_sum(s.take(k)) + s[k],
{
    assert(s.take(k + 1).drop_last() =~= s.take(k));
}

/// Changing the first number changes the sum by as much.
pub proof fn lemma_sum_update_first(s: Seq<int>, value: int)
    requires
        s.len() > 0,
    ensures
        seq_sum(s.update(0, value)) == seq_sum(s) - s[0] + value,
    decreases s.len(),
{
    if s.len() == 1 {
        assert(s.update(0, value).drop_last() =~= Seq::<int>::empty());
        assert(s.drop_last() =~= Seq::<int>::empty());
    } else {
        lemma_sum_update_first(s.drop_last(), value);
        assert(s.update(0, value).drop_last() =~= s.drop_last().update(0, value));
    }
}

/// The number of content bytes that a segment table declares.
pub fn lacing_total(table: &[u8]) -> (total: u32)
    requires
        table@.len() <= 255,
    ensures
        total == lacing_sum(table@),
{
    let mut total: u32 = 0;
    let mut i: usize = 0;
    while i < table.len()
        invariant
            i <= table@.len() <= 255,
            total == lacing_sum(table@.take(i as int)),
            total <= 255 * i,
        decreases table@.len() - i,
    {
        assert(table@.take(i + 1).drop_last() =~= table@.take(i as int));
        total = total + table[i] as u32;
        i += 1;
    }
    assert(table@.take(i as int) =~= table@);
    total
}

/// The lengths of the packets of a page with the segment table `table`.
pub fn lacing_packets(table: &[u8]) -> (packets: Vec<u32>)
    requires
        table@.len() <= 255,
    ensures
        lengths_of(packets@) == packet_lengths(table@),
{
    let mut packets: Vec<u32> = Vec::new();
    packets.push(0);
    assert(lengths_of(packets@) =~= open_packets(table@.take(0)));
    let count: usize = table.len();
    let mut i: usize = 0;
    while i < count
        invariant
            count == table@.len(),
            i <= count <= 255,
            packets@.len() >= 1,
            i < count ==> lengths_of(packets@) == open_packets(table@.take(i as int)),
            i == count ==> lengths_of(packets@) == packet_lengths(table@),
            forall|k: int| 0 <= k < packets@.len() ==> #[trigger] packets@[k] <= 255 * i,
        decreases count - i,
    {
        let ele: u8 = table[i];
        let last: usize = packets.len() - 1;
        let grown: u32 = packets[last] + ele as u32;
        let ghost before = lengths_of(packets@);
        packets.set(last, grown);
        assert(lengths_of(packets@) =~= before.update(before.len() - 1, before.last() + ele));
        assert(table@.take(i + 1).drop_last() =~= table@.take(i as int));
        assert(table@.take(i + 1).last() == ele);
        if ele != 0xFF && i != count - 1 {
            let ghost closed = lengths_of(packets@);
            packets.push(0);
            assert(lengths_of(packets@) =~= closed.push(0));
        }
        i += 1;
        proof {
            if i == count {
                assert(table@.take(i as int) =~= table@);
                if ele != 0xFF {
                    let closed = lengths_of(packets@);
                    assert(closed.push(0).drop_last() =~= closed);
                }
            }
        }
    }
    proof {
        if count == 0 {
            assert(table@.take(0) =~= table@);
        }
    }
    packets
}

/// Decodes a whole comment packet.
pub fn decode_comment_packet(packet: &[u8]) -> (r: Result<CommentHeader, FlacError>)
    ensures
        match comment_packet_of(packet@) {
            Ok(v) => r matches Ok(header) && header.comment_body.wf() && header@ == v,
            Err(e) => r matches Err(x) && x == e,
        },
{
    if packet.len() < 6 {
        return Err(FlacError::Truncated);
    }
    let packet_pattern = match read_utf8(packet, 0, 6) {
        Ok(v) => v,
        Err(e) => {
            return Err(e);
        },
    };
    let comment = match parse_vorbis_comment(slice_subrange(packet, 6, packet.len())) {
        Ok(v) => v,
        Err(e) => {
            return Err(e);
        },
    };
    Ok(
        CommentHeader {
            header_type: HeaderType::CommentHeader,
            packet_pattern,
            company_info: comment.encoder,
            comment_body: CommentBody { tags: comment.tags },
            end: true,
        },
    )
}

/// Reads the comments of one Ogg Vorbis file.
pub struct OggParser {
    /// The bytes of the file, and how far they have been read.
    pub source: ByteSource,
    pub audio_channels: u8,
    pub audio_sample_rate: u32,
    /// The comments under their keys.
    pub vorbis_comment: CommentBody,
    /// The comment packet, as far as it has been gathered.
    pub comment_buffer: Vec<u8>,
}

impl OggParser {
    /// The bytes of the file.
    pub open spec fn data(&self) -> Seq<u8> {
        self.source.bytes()
    }

    /// The invariant of the parser: that of its comment registry.
    pub open spec fn wf(&self) -> bool {
        self.vorbis_comment.wf()
    }

    /// What the parser knows of the stream.
    pub open spec fn model(&self) -> OggModel {
        OggModel { packet: self.comment_buffer@, comments: self.vorbis_comment@ }
    }

    /// A parser for the file that holds `data`; nothing is read yet.
    pub fn new(data: Vec<u8>) -> (parser: OggParser)
        ensures
            parser.wf(),
            parser.data() == data@,
            parser.model() == OggModel::empty(),
    {
        OggParser {
            source: ByteSource::new(data),
            audio_channels: 0,
            audio_sample_rate: 0,
            vorbis_comment: CommentBody::default(),
            comment_buffer: Vec::new(),
        }
    }

    /// Forgets what was read and goes back to the start of the file.
    fn reset(&mut self)
        ensures
            final(self).wf(),
            final(self).data() == old(self).data(),
            final(self).source.cursor() == 0,
            final(self).model() == OggModel::empty(),
    {
        self.source.seek_to(0);
        self.vorbis_comment = CommentBody::default();
        self.comment_buffer.clear();
    }

    /// Drops the zero bytes at the end of the buffer. Where the byte 1 then
    /// ends it, drops that byte too and reports the packet as whole.
    fn close_chunk(&mut self) -> (whole: bool)
        ensures
            final(self).source == old(self).source,
            final(self).vorbis_comment == old(self).vorbis_comment,
            ({
                let grown = trim_end(old(self).comment_buffer@);
                if grown.len() > 0 && grown.last() == 1 {
                    whole && final(self).comment_buffer@ == grown.drop_last()
                } else {
                    !whole && final(self).comment_buffer@ == grown
                }
            }),
    {
        let ghost all = self.comment_buffer@;
        let mut n: usize = self.comment_buffer.len();
        while n > 0 && self.comment_buffer[n - 1] == 0
            invariant
                n <= all.len(),
                self.comment_buffer@ == all,
                forall|k: int| n <= k < all.len() ==> all[k] == 0,
            decreases n,
        {
            n -= 1;
        }
        proof {
            lemma_trim_end_take(all, n as int);
            let kept = all.take(n as int);
            if kept.len() > 0 {
                assert(kept.last() == all[n - 1]);
            }
        }
        self.comment_buffer.truncate(n);
        assert(self.comment_buffer@ =~= trim_end(all));
        if n > 0 && self.comment_buffer[n - 1] == 1 {
            self.comment_buffer.pop();
            assert(self.comment_buffer@ =~= trim_end(all).drop_last());
            true
        } else {
            false
        }
    }

    /// Reads the chunks of a page that carries the packet on.
    fn read_chunks(&mut self, lengths: &Vec<u32>) -> (r: Result<bool, OggError>)
        requires
            old(self).source.cursor() <= old(self).data().len(),
        ensures
            final(self).data() == old(self).data(),
            final(self).source.cursor() <= final(self).data().len(),
            final(self).vorbis_comment == old(self).vorbis_comment,
            match continue_chunks(
                old(self).data(),
                old(self).source.cursor() as int,
                lengths_of(lengths@),
                0,
                old(self).comment_buffer@,
            ) {
                Ok((buffer, whole)) => {
                    &&& r == Ok::<bool, OggError>(whole)
                    &&& final(self).comment_buffer@ == buffer
                    &&& !whole ==> final(self).source.cursor() == old(self).source.cursor()
                        + seq_sum(lengths_of(lengths@))
                },
                Err(e) => r == Err::<bool, OggError>(e),
            },
    {
        let ghost data = self.data();
        let ghost lens = lengths_of(lengths@);
        let ghost first = self.source.cursor() as int;
        let ghost whole = continue_chunks(data, first, lens, 0, self.comment_buffer@);
        let mut k: usize = 0;
        assert(lens.take(0) =~= Seq::<int>::empty());
        while k < lengths.len()
            invariant
                k <= lengths@.len(),
                lens == lengths_of(lengths@),
                self.data() == data,
                self.source.cursor() <= data.len(),
                data == old(self).data(),
                first == old(self).source.cursor(),
                whole == continue_chunks(data, first, lens, 0, old(self).comment_buffer@),
                self.vorbis_comment == old(self).vorbis_comment,
                self.source.cursor() == first + seq_sum(lens.take(k as int)),
                continue_chunks(
                    data,
                    self.source.cursor() as int,
                    lens,
                    k as int,
                    self.comment_buffer@,
                ) == whole,
            decreases lengths@.len() - k,
        {
            let mut chunk = match self.source.read_exact(lengths[k] as usize) {
                Some(b) => b,
                None => {
                    return Err(OggError::UnexpectedEnd);
                },
            };
            self.comment_buffer.append(&mut chunk);
            if self.close_chunk() {
                return Ok(true);
            }
            proof {
                lemma_sum_take(lens, k as int);
            }
            k += 1;
        }
        assert(lens.take(k as int) =~= lens);
        Ok(false)
    }

    /// Walks the pages from the start of the file. Tells whether the comment
    /// packet was gathered; it was not where a page lacks the capture
    /// pattern.
    fn read_pages(&mut self) -> (r: Result<bool, OggError>)
        requires
            old(self).wf(),
            old(self).source.cursor() == 0,
            old(self).model() == OggModel::empty(),
        ensures
            final(self).wf(),
            final(self).data() == old(self).data(),
            final(self).vorbis_comment@ == Entries::<Seq<char>>::empty(),
            match pages_from(old(self).data(), 0, Seq::empty()) {
                Ok(Some(packet)) => r == Ok::<bool, OggError>(true) && final(self).comment_buffer@
                    == packet,
                Ok(None) => r == Ok::<bool, OggError>(false),
                Err(e) => r == Err::<bool, OggError>(e),
            },
    {
        let ghost data = self.data();
        let ghost whole = pages_from(data, 0, Seq::empty());
        loop
            invariant
                self.wf(),
                self.data() == data,
                data == old(self).data(),
                self.vorbis_comment@ == Entries::<Seq<char>>::empty(),
                whole == pages_from(old(self).data(), 0, Seq::empty()),
                pages_from(data, self.source.cursor() as int, self.comment_buffer@) == whole,
            decreases data.len() - self.source.cursor(),
        {
            let ghost at = self.source.cursor() as int;
            let fixed = match self.source.read_exact(27) {
                Some(b) => b,
                None => {
                    return Err(OggError::UnexpectedEnd);
                },
            };
            if !(fixed[0] == 0x4F && fixed[1] == 0x67 && fixed[2] == 0x67 && fixed[3] == 0x53) {
                return Ok(false);
            }
            let segments: u8 = fixed[26];
            let segment_table = match self.source.read_exact(segments as usize) {
                Some(b) => b,
                None => {
                    return Err(OggError::UnexpectedEnd);
                },
            };
            let page_header = PageHeader::new(fixed.as_slice(), segment_table);
            let table = page_header.segment_table.as_slice();
            let ghost body = at + 27 + segments;
            assert(table@ == data.subrange(at + 27, body));
            let total: u32 = lacing_total(table);
            if total > 0 {
                let temp: u8 = match self.source.read_one() {
                    Some(b) => b,
                    None => {
                        return Err(OggError::UnexpectedEnd);
                    },
                };
                if temp == 0x01 || temp == 0x05 {
                    if !self.source.skip((total - 1) as usize) {
                        return Err(OggError::UnexpectedEnd);
                    }
                } else {
                    let mut packets = lacing_packets(table);
                    proof {
                        lemma_packets_cover_page(table@);
                        lemma_sum_update_first(packet_lengths(table@), packet_lengths(table@)[0] - 1);
                    }
                    assert(packets@.len() >= 1) by {
                        assert(lengths_of(packets@).len() == packets@.len());
                    }
                    let first_length: u32 = packets[0];
                    assert(first_length == packet_lengths(table@)[0]) by {
                        assert(lengths_of(packets@)[0] == packets@[0]);
                    }
                    if first_length == 0 {
                        return Err(OggError::MalformedPage);
                    }
                    if page_header.new_packet && temp == 0x03 {
                        let mut content = match self.source.read_exact((total - 1) as usize) {
                            Some(b) => b,
                            None => {
                                return Err(OggError::UnexpectedEnd);
                            },
                        };
                        self.comment_buffer.append(&mut content);
                    } else {
                        packets.set(0, first_length - 1);
                        assert(lengths_of(packets@) =~= chunk_lengths(table@));
                        self.comment_buffer.push(temp);
                        match self.read_chunks(&packets) {
                            Ok(true) => {
                                return Ok(true);
                            },
                            Ok(false) => {},
                            Err(e) => {
                                return Err(e);
                            },
                        }
                    }
                }
            }
        }
    }

    /// Reads the comments of the file. A file whose pages lack the capture
    /// pattern leaves the parser empty, and so does a fault, which is
    /// returned: what was read before it is not kept.
    pub fn parse(&mut self) -> (r: Result<(), OggError>)
        ensures
            final(self).wf(),
            final(self).data() == old(self).data(),
            match ogg_model(old(self).data()) {
                Ok(m) => r is Ok && final(self).model() == m,
                Err(e) => r == Err::<(), OggError>(e) && final(self).model() == OggModel::empty(),
            },
    {
        self.reset();
        match self.read_pages() {
            Ok(true) => match decode_comment_packet(self.comment_buffer.as_slice()) {
                Ok(header) => {
                    self.vorbis_comment = header.comment_body;
                    Ok(())
                },
                Err(e) => {
                    self.reset();
                    Err(OggError::Comment(e))
                },
            },
            Ok(false) => {
                self.reset();
                Ok(())
            },
            Err(e) => {
                self.reset();
                Err(e)
            },
        }
    }

    /// The bytes of the gathered packet from `start` on, `length` of them.
    pub fn vec_reader(&self, start: usize, length: usize) -> (bytes: &[u8])
        requires
            start + length <= self.comment_buffer@.len(),
        ensures
            bytes@ == self.comment_buffer@.subrange(start as int, start + length),
    {
        let available: usize = self.comment_buffer.len();
        assert(start + length <= available);
        slice_subrange(self.comment_buffer.as_slice(), start, start + length)
    }

    /// The values of the comments under the key `query`, in the order of the
    /// packet. The query is read without regard to case.
    pub fn get(&self, query: &str) -> (r: Option<Vec<String>>)
        ensures
            match self.model().comments.lookup(query@) {
                Some(list) => r matches Some(found) && texts(found@) == list,
                None => r is None,
            },
    {
        proof {
            lemma_one_list_per_key(&self.vorbis_comment.tags);
            lemma_find_key(self.vorbis_comment.tags@.keys, uppercase_of(query@), 0);
        }
        match self.vorbis_comment.tags.get(query) {
            Some(list) => Some(clone_texts(list)),
            None => None,
        }
    }

    /// All the keys, in the order in which they first came, and beside each
    /// key its values.
    pub fn get_all(&self) -> (r: (Vec<String>, Vec<Vec<String>>))
        ensures
            texts(r.0@) == self.model().comments.keys,
            r.1@.len() == r.0@.len(),
            forall|i: int|
                0 <= i < r.1@.len() ==> texts((#[trigger] r.1@[i])@) == self.model().comments.lists[i],
    {
        let mut key_vec: Vec<String> = Vec::new();
        let mut value_vec: Vec<Vec<String>> = Vec::new();
        let count = self.vorbis_comment.tags.len();
        let mut i: usize = 0;
        while i < count
            invariant
                count == self.vorbis_comment.tags@.keys.len(),
                count == self.vorbis_comment.tags@.lists.len(),
                i <= count,
                key_vec@.len() == i,
                value_vec@.len() == i,
                forall|k: int|
                    0 <= k < i ==> (#[trigger] key_vec@[k])@ == self.vorbis_comment.tags@.keys[k],
                forall|k: int|
                    0 <= k < i ==> texts((#[trigger] value_vec@[k])@) == texts(
                        self.vorbis_comment.tags@.lists[k],
                    ),
            decreases count - i,
        {
            key_vec.push(self.vorbis_comment.tags.key_at(i).clone());
            value_vec.push(clone_texts(self.vorbis_comment.tags.list_at(i)));
            i += 1;
        }
        assert(texts(key_vec@) =~= self.model().comments.keys);
        (key_vec, value_vec)
    }
}

} // verus!
