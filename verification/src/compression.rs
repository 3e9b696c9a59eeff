//! Compression streams.
//!
//! A codec carries state from chunk to chunk. A script only knows its number; whatever ends a
//! stream releases its codec.

use std::collections::HashMap;
use std::io::Write;

use flate2::write::{
    DeflateDecoder, DeflateEncoder, GzDecoder, GzEncoder, ZlibDecoder, ZlibEncoder,
};
use flate2::Compression;
use vstd::prelude::*;

use crate::text::{concat2, concat3, str_eq};

verus! {

broadcast use vstd::std_specs::hash::group_hash_axioms;

/// A format of compressed data.
#[derive(Debug, Clone, Copy, PartialEq, Eq, Structural)]
pub enum Format {
    /// With the header and the checksum of zlib.
    Deflate,
    /// With neither.
    DeflateRaw,
    /// With the header and the checksum of gzip.
    Gzip,
}

impl Format {
    /// The format with the name `s`.
    pub open spec fn named(s: Seq<char>) -> Option<Format> {
        if s == "deflate"@ {
            Some(Format::Deflate)
        } else if s == "deflate-raw"@ {
            Some(Format::DeflateRaw)
        } else if s == "gzip"@ {
            Some(Format::Gzip)
        } else {
            None
        }
    }

    /// The format with the name `s`.
    pub fn from_name(s: &str) -> (r: Option<Format>)
        ensures
            r == Format::named(s@),
    {
        if str_eq(s, "deflate") {
            Some(Format::Deflate)
        } else if str_eq(s, "deflate-raw") {
            Some(Format::DeflateRaw)
        } else if str_eq(s, "gzip") {
            Some(Format::Gzip)
        } else {
            None
        }
    }
}

/// What a codec does.
#[derive(Debug, Clone, Copy, PartialEq, Eq, Structural)]
pub struct CodecKind {
    pub format: Format,
    pub decompress: bool,
}

/// What a codec hands out for the last of the chunks, or the message of its failure.
pub uninterp spec fn codec_pushed(kind: CodecKind, chunks: Seq<Seq<u8>>) -> Result<
    Seq<u8>,
    Seq<char>,
>;

/// What a codec hands out at its end, or the message of its failure.
pub uninterp spec fn codec_finished(kind: CodecKind, chunks: Seq<Seq<u8>>) -> Result<
    Seq<u8>,
    Seq<char>,
>;

/// Whether `data` is one whole stream in a format, from its beginning to its end, of which
/// `plain` is the content.
pub uninterp spec fn is_stream_of(format: Format, data: Seq<u8>, plain: Seq<u8>) -> bool;

/// The chunks one behind the other.
pub open spec fn joined(chunks: Seq<Seq<u8>>) -> Seq<u8>
    decreases chunks.len(),
{
    if chunks.len() == 0 {
        Seq::empty()
    } else {
        joined(chunks.drop_last()) + chunks.last()
    }
}

/// What a codec has handed out for the chunks so far.
pub open spec fn emitted(kind: CodecKind, chunks: Seq<Seq<u8>>) -> Seq<u8>
    decreases chunks.len(),
{
    if chunks.len() == 0 {
        Seq::empty()
    } else {
        emitted(kind, chunks.drop_last()) + codec_pushed(kind, chunks)->Ok_0
    }
}

/// Whether `data` is the beginning of a stream, or a whole one.
pub open spec fn starts_stream(format: Format, data: Seq<u8>) -> bool {
    exists|whole: Seq<u8>, plain: Seq<u8>|
        #[trigger] is_stream_of(format, whole, plain) && data.is_prefix_of(whole)
}

/// What a result is, with the message of a failure as characters.
pub open spec fn result_view(r: Result<Vec<u8>, String>) -> Result<Seq<u8>, Seq<char>> {
    match r {
        Ok(v) => Ok(v@),
        Err(m) => Err(m@),
    }
}

/// What a codec is known to hand out at its end. A compressor makes a whole stream of what it was
/// fed; a decompressor that was fed a whole stream hands out its content.
pub open spec fn finish_holds(
    kind: CodecKind,
    chunks: Seq<Seq<u8>>,
    r: Result<Seq<u8>, Seq<char>>,
) -> bool {
    if kind.decompress {
        forall|plain: Seq<u8>|
            #[trigger] is_stream_of(kind.format, joined(chunks), plain) ==> r is Ok && emitted(
                kind,
                chunks,
            ) + r->Ok_0 == plain
    } else {
        r is Ok && is_stream_of(kind.format, emitted(kind, chunks) + r->Ok_0, joined(chunks))
    }
}

/// What is known of a push: a compressor takes everything; a decompressor takes the beginning of
/// a stream.
pub open spec fn push_holds(
    kind: CodecKind,
    chunks: Seq<Seq<u8>>,
    r: Result<Seq<u8>, Seq<char>>,
) -> bool {
    !kind.decompress || starts_stream(kind.format, joined(chunks)) ==> r is Ok
}

/// A codec that compresses the zlib format: the `ZlibEncoder` of the `flate2` crate on a vector. Its
/// type is bound by a trait that cannot be declared, so it stands in a struct of its own; what it
/// was fed is named by [`zlib_compressor_chunks`].
#[verifier::external_body]
pub struct ZlibCompressor {
    writer: ZlibEncoder<Vec<u8>>,
}

/// The chunks that the codec was fed.
pub uninterp spec fn zlib_compressor_chunks(c: ZlibCompressor) -> Seq<Seq<u8>>;

/// What the codec does.
pub open spec fn zlib_compressor_kind() -> CodecKind {
    CodecKind { format: Format::Deflate, decompress: false }
}

/// Calls `ZlibEncoder::new` on an empty vector, with the default level of compression.
#[verifier::external_body]
fn zlib_compressor_new() -> (r: ZlibCompressor)
    ensures
        zlib_compressor_chunks(r) == Seq::<Seq<u8>>::empty(),
{
    ZlibCompressor { writer: ZlibEncoder::new(Vec::new(), Compression::default()) }
}

/// Calls `write_all` of `ZlibEncoder` and takes what it has written to its vector.
#[verifier::external_body]
fn zlib_compressor_push(c: &mut ZlibCompressor, bytes: &[u8]) -> (r: Result<Vec<u8>, String>)
    ensures
        result_view(r) == codec_pushed(zlib_compressor_kind(), zlib_compressor_chunks(*old(c)).push(bytes@)),
        r is Ok ==> zlib_compressor_chunks(*final(c)) == zlib_compressor_chunks(*old(c)).push(bytes@),
        push_holds(zlib_compressor_kind(), zlib_compressor_chunks(*old(c)).push(bytes@), result_view(r)),
{
    c.writer.write_all(bytes).map_err(|e| e.to_string())?;
    Ok(std::mem::take(c.writer.get_mut()))
}

/// Calls `finish` of `ZlibEncoder`.
#[verifier::external_body]
fn zlib_compressor_finish(c: ZlibCompressor) -> (r: Result<Vec<u8>, String>)
    ensures
        result_view(r) == codec_finished(zlib_compressor_kind(), zlib_compressor_chunks(c)),
        r is Ok && is_stream_of(
            Format::Deflate,
            emitted(zlib_compressor_kind(), zlib_compressor_chunks(c)) + r->Ok_0@,
            joined(zlib_compressor_chunks(c)),
        ),
{
    c.writer.finish().map_err(|e| e.to_string())
}

/// A codec that compresses bare deflate data: the `DeflateEncoder` of the `flate2` crate on a vector. Its
/// type is bound by a trait that cannot be declared, so it stands in a struct of its own; what it
/// was fed is named by [`raw_compressor_chunks`].
#[verifier::external_body]
pub struct RawCompressor {
    writer: DeflateEncoder<Vec<u8>>,
}

/// The chunks that the codec was fed.
pub uninterp spec fn raw_compressor_chunks(c: RawCompressor) -> Seq<Seq<u8>>;

/// What the codec does.
pub open spec fn raw_compressor_kind() -> CodecKind {
    CodecKind { format: Format::DeflateRaw, decompress: false }
}

/// Calls `DeflateEncoder::new` on an empty vector, with the default level of compression.
#[verifier::external_body]
fn raw_compressor_new() -> (r: RawCompressor)
    ensures
        raw_compressor_chunks(r) == Seq::<Seq<u8>>::empty(),
{
    RawCompressor { writer: DeflateEncoder::new(Vec::new(), Compression::default()) }
}

/// Calls `write_all` of `DeflateEncoder` and takes what it has written to its vector.
#[verifier::external_body]
fn raw_compressor_push(c: &mut RawCompressor, bytes: &[u8]) -> (r: Result<Vec<u8>, String>)
    ensures
        result_view(r) == codec_pushed(raw_compressor_kind(), raw_compressor_chunks(*old(c)).push(bytes@)),
        r is Ok ==> raw_compressor_chunks(*final(c)) == raw_compressor_chunks(*old(c)).push(bytes@),
        push_holds(raw_compressor_kind(), raw_compressor_chunks(*old(c)).push(bytes@), result_view(r)),
{
    c.writer.write_all(bytes).map_err(|e| e.to_string())?;
    Ok(std::mem::take(c.writer.get_mut()))
}

/// Calls `finish` of `DeflateEncoder`.
#[verifier::external_body]
fn raw_compressor_finish(c: RawCompressor) -> (r: Result<Vec<u8>, String>)
    ensures
        result_view(r) == codec_finished(raw_compressor_kind(), raw_compressor_chunks(c)),
        r is Ok && is_stream_of(
            Format::DeflateRaw,
            emitted(raw_compressor_kind(), raw_compressor_chunks(c)) + r->Ok_0@,
            joined(raw_compressor_chunks(c)),
        ),
{
    c.writer.finish().map_err(|e| e.to_string())
}

/// A codec that compresses the gzip format: the `GzEncoder` of the `flate2` crate on a vector. Its
/// type is bound by a trait that cannot be declared, so it stands in a struct of its own; what it
/// was fed is named by [`gzip_compressor_chunks`].
#[verifier::external_body]
pub struct GzipCompressor {
    writer: GzEncoder<Vec<u8>>,
}

/// The chunks that the codec was fed.
pub uninterp spec fn gzip_compressor_chunks(c: GzipCompressor) -> Seq<Seq<u8>>;

/// What the codec does.
pub open spec fn gzip_compressor_kind() -> CodecKind {
    CodecKind { format: Format::Gzip, decompress: false }
}

/// Calls `GzEncoder::new` on an empty vector, with the default level of compression.
#[verifier::external_body]
fn gzip_compressor_new() -> (r: GzipCompressor)
    ensures
        gzip_compressor_chunks(r) == Seq::<Seq<u8>>::empty(),
{
    GzipCompressor { writer: GzEncoder::new(Vec::new(), Compression::default()) }
}

/// Calls `write_all` of `GzEncoder` and takes what it has written to its vector.
#[verifier::external_body]
fn gzip_compressor_push(c: &mut GzipCompressor, bytes: &[u8]) -> (r: Result<Vec<u8>, String>)
    ensures
        result_view(r) == codec_pushed(gzip_compressor_kind(), gzip_compressor_chunks(*old(c)).push(bytes@)),
        r is Ok ==> gzip_compressor_chunks(*final(c)) == gzip_compressor_chunks(*old(c)).push(bytes@),
        push_holds(gzip_compressor_kind(), gzip_compressor_chunks(*old(c)).push(bytes@), result_view(r)),
{
    c.writer.write_all(bytes).map_err(|e| e.to_string())?;
    Ok(std::mem::take(c.writer.get_mut()))
}

/// Calls `finish` of `GzEncoder`.
#[verifier::external_body]
fn gzip_compressor_finish(c: GzipCompressor) -> (r: Result<Vec<u8>, String>)
    ensures
        result_view(r) == codec_finished(gzip_compressor_kind(), gzip_compressor_chunks(c)),
        r is Ok && is_stream_of(
            Format::Gzip,
            emitted(gzip_compressor_kind(), gzip_compressor_chunks(c)) + r->Ok_0@,
            joined(gzip_compressor_chunks(c)),
        ),
{
    c.writer.finish().map_err(|e| e.to_string())
}

/// A codec that decompresses the zlib format: the `ZlibDecoder` of the `flate2` crate on a vector. Its
/// type is bound by a trait that cannot be declared, so it stands in a struct of its own; what it
/// was fed is named by [`zlib_decompressor_chunks`].
#[verifier::external_body]
pub struct ZlibDecompressor {
    writer: ZlibDecoder<Vec<u8>>,
}

/// The chunks that the codec was fed.
pub uninterp spec fn zlib_decompressor_chunks(c: ZlibDecompressor) -> Seq<Seq<u8>>;

/// What the codec does.
pub open spec fn zlib_decompressor_kind() -> CodecKind {
    CodecKind { format: Format::Deflate, decompress: true }
}

/// Calls `ZlibDecoder::new` on an empty vector.
#[verifier::external_body]
fn zlib_decompressor_new() -> (r: ZlibDecompressor)
    ensures
        zlib_decompressor_chunks(r) == Seq::<Seq<u8>>::empty(),
{
    ZlibDecompressor { writer: ZlibDecoder::new(Vec::new()) }
}

/// Calls `write_all` of `ZlibDecoder` and takes what it has written to its vector.
#[verifier::external_body]
fn zlib_decompressor_push(c: &mut ZlibDecompressor, bytes: &[u8]) -> (r: Result<Vec<u8>, String>)
    ensures
        result_view(r) == codec_pushed(zlib_decompressor_kind(), zlib_decompressor_chunks(*old(c)).push(bytes@)),
        r is Ok ==> zlib_decompressor_chunks(*final(c)) == zlib_decompressor_chunks(*old(c)).push(bytes@),
        push_holds(zlib_decompressor_kind(), zlib_decompressor_chunks(*old(c)).push(bytes@), result_view(r)),
{
    c.writer.write_all(bytes).map_err(|e| e.to_string())?;
    Ok(std::mem::take(c.writer.get_mut()))
}

/// Calls `finish` of `ZlibDecoder`.
#[verifier::external_body]
fn zlib_decompressor_finish(c: ZlibDecompressor) -> (r: Result<Vec<u8>, String>)
    ensures
        result_view(r) == codec_finished(zlib_decompressor_kind(), zlib_decompressor_chunks(c)),
        forall|plain: Seq<u8>|
            #[trigger] is_stream_of(Format::Deflate, joined(zlib_decompressor_chunks(c)), plain) ==> r is Ok && emitted(
                zlib_decompressor_kind(),
                zlib_decompressor_chunks(c),
            ) + r->Ok_0@ == plain,
{
    c.writer.finish().map_err(|e| e.to_string())
}

/// A codec that decompresses bare deflate data: the `DeflateDecoder` of the `flate2` crate on a vector. Its
/// type is bound by a trait that cannot be declared, so it stands in a struct of its own; what it
/// was fed is named by [`raw_decompressor_chunks`].
#[verifier::external_body]
pub struct RawDecompressor {
    writer: DeflateDecoder<Vec<u8>>,
}

/// The chunks that the codec was fed.
pub uninterp spec fn raw_decompressor_chunks(c: RawDecompressor) -> Seq<Seq<u8>>;

/// What the codec does.
pub open spec fn raw_decompressor_kind() -> CodecKind {
    CodecKind { format: Format::DeflateRaw, decompress: true }
}

/// Calls `DeflateDecoder::new` on an empty vector.
#[verifier::external_body]
fn raw_decompressor_new() -> (r: RawDecompressor)
    ensures
        raw_decompressor_chunks(r) == Seq::<Seq<u8>>::empty(),
{
    RawDecompressor { writer: DeflateDecoder::new(Vec::new()) }
}

/// Calls `write_all` of `DeflateDecoder` and takes what it has written to its vector.
#[verifier::external_body]
fn raw_decompressor_push(c: &mut RawDecompressor, bytes: &[u8]) -> (r: Result<Vec<u8>, String>)
    ensures
        result_view(r) == codec_pushed(raw_decompressor_kind(), raw_decompressor_chunks(*old(c)).push(bytes@)),
        r is Ok ==> raw_decompressor_chunks(*final(c)) == raw_decompressor_chunks(*old(c)).push(bytes@),
        push_holds(raw_decompressor_kind(), raw_decompressor_chunks(*old(c)).push(bytes@), result_view(r)),
{
    c.writer.write_all(bytes).map_err(|e| e.to_string())?;
    Ok(std::mem::take(c.writer.get_mut()))
}

/// Calls `finish` of `DeflateDecoder`.
#[verifier::external_body]
fn raw_decompressor_finish(c: RawDecompressor) -> (r: Result<Vec<u8>, String>)
    ensures
        result_view(r) == codec_finished(raw_decompressor_kind(), raw_decompressor_chunks(c)),
        forall|plain: Seq<u8>|
            #[trigger] is_stream_of(Format::DeflateRaw, joined(raw_decompressor_chunks(c)), plain) ==> r is Ok && emitted(
                raw_decompressor_kind(),
                raw_decompressor_chunks(c),
            ) + r->Ok_0@ == plain,
{
    c.writer.finish().map_err(|e| e.to_string())
}

/// A codec that decompresses the gzip format: the `GzDecoder` of the `flate2` crate on a vector. Its
/// type is bound by a trait that cannot be declared, so it stands in a struct of its own; what it
/// was fed is named by [`gzip_decompressor_chunks`].
#[verifier::external_body]
pub struct GzipDecompressor {
    writer: GzDecoder<Vec<u8>>,
}

/// The chunks that the codec was fed.
pub uninterp spec fn gzip_decompressor_chunks(c: GzipDecompressor) -> Seq<Seq<u8>>;

/// What the codec does.
pub open spec fn gzip_decompressor_kind() -> CodecKind {
    CodecKind { format: Format::Gzip, decompress: true }
}

/// Calls `GzDecoder::new` on an empty vector.
#[verifier::external_body]
fn gzip_decompressor_new() -> (r: GzipDecompressor)
    ensures
        gzip_decompressor_chunks(r) == Seq::<Seq<u8>>::empty(),
{
    GzipDecompressor { writer: GzDecoder::new(Vec::new()) }
}

/// Calls `write_all` of `GzDecoder` and takes what it has written to its vector.
#[verifier::external_body]
fn gzip_decompressor_push(c: &mut GzipDecompressor, bytes: &[u8]) -> (r: Result<Vec<u8>, String>)
    ensures
        result_view(r) == codec_pushed(gzip_decompressor_kind(), gzip_decompressor_chunks(*old(c)).push(bytes@)),
        r is Ok ==> gzip_decompressor_chunks(*final(c)) == gzip_decompressor_chunks(*old(c)).push(bytes@),
        push_holds(gzip_decompressor_kind(), gzip_decompressor_chunks(*old(c)).push(bytes@), result_view(r)),
{
    c.writer.write_all(bytes).map_err(|e| e.to_string())?;
    Ok(std::mem::take(c.writer.get_mut()))
}

/// Calls `finish` of `GzDecoder`.
#[verifier::external_body]
fn gzip_decompressor_finish(c: GzipDecompressor) -> (r: Result<Vec<u8>, String>)
    ensures
        result_view(r) == codec_finished(gzip_decompressor_kind(), gzip_decompressor_chunks(c)),
        forall|plain: Seq<u8>|
            #[trigger] is_stream_of(Format::Gzip, joined(gzip_decompressor_chunks(c)), plain) ==> r is Ok && emitted(
                gzip_decompressor_kind(),
                gzip_decompressor_chunks(c),
            ) + r->Ok_0@ == plain,
{
    c.writer.finish().map_err(|e| e.to_string())
}

/// A codec.
pub enum Codec {
    ZlibEncode(ZlibCompressor),
    RawEncode(RawCompressor),
    GzipEncode(GzipCompressor),
    ZlibDecode(ZlibDecompressor),
    RawDecode(RawDecompressor),
    GzipDecode(GzipDecompressor),
}

impl Codec {
    /// What the codec does.
    pub open spec fn kind(self) -> CodecKind {
        match self {
            Codec::ZlibEncode(_) => zlib_compressor_kind(),
            Codec::RawEncode(_) => raw_compressor_kind(),
            Codec::GzipEncode(_) => gzip_compressor_kind(),
            Codec::ZlibDecode(_) => zlib_decompressor_kind(),
            Codec::RawDecode(_) => raw_decompressor_kind(),
            Codec::GzipDecode(_) => gzip_decompressor_kind(),
        }
    }

    /// The chunks that the codec was fed.
    pub open spec fn chunks(self) -> Seq<Seq<u8>> {
        match self {
            Codec::ZlibEncode(c) => zlib_compressor_chunks(c),
            Codec::RawEncode(c) => raw_compressor_chunks(c),
            Codec::GzipEncode(c) => gzip_compressor_chunks(c),
            Codec::ZlibDecode(c) => zlib_decompressor_chunks(c),
            Codec::RawDecode(c) => raw_decompressor_chunks(c),
            Codec::GzipDecode(c) => gzip_decompressor_chunks(c),
        }
    }

    /// A codec for the format with the name `format`, where there is one.
    pub fn new(format: &str, decompress: bool) -> (r: Option<Codec>)
        ensures
            match Format::named(format@) {
                Some(f) => r matches Some(c) && c.kind() == (CodecKind { format: f, decompress })
                    && c.chunks() == Seq::<Seq<u8>>::empty(),
                None => r is None,
            },
    {
        match (Format::from_name(format), decompress) {
            (Some(Format::Deflate), false) => Some(Codec::ZlibEncode(zlib_compressor_new())),
            (Some(Format::DeflateRaw), false) => Some(Codec::RawEncode(raw_compressor_new())),
            (Some(Format::Gzip), false) => Some(Codec::GzipEncode(gzip_compressor_new())),
            (Some(Format::Deflate), true) => Some(Codec::ZlibDecode(zlib_decompressor_new())),
            (Some(Format::DeflateRaw), true) => Some(Codec::RawDecode(raw_decompressor_new())),
            (Some(Format::Gzip), true) => Some(Codec::GzipDecode(gzip_decompressor_new())),
            (None, _) => None,
        }
    }

    /// Feeds the codec a chunk; returns whatever it can hand out now.
    pub fn push(&mut self, bytes: &[u8]) -> (r: Result<Vec<u8>, String>)
        ensures
            result_view(r) == codec_pushed(old(self).kind(), old(self).chunks().push(bytes@)),
            r is Ok ==> final(self).chunks() == old(self).chunks().push(bytes@),
            r is Ok ==> final(self).kind() == old(self).kind(),
            push_holds(old(self).kind(), old(self).chunks().push(bytes@), result_view(r)),
    {
        match self {
            Codec::ZlibEncode(c) => zlib_compressor_push(c, bytes),
            Codec::RawEncode(c) => raw_compressor_push(c, bytes),
            Codec::GzipEncode(c) => gzip_compressor_push(c, bytes),
            Codec::ZlibDecode(c) => zlib_decompressor_push(c, bytes),
            Codec::RawDecode(c) => raw_decompressor_push(c, bytes),
            Codec::GzipDecode(c) => gzip_decompressor_push(c, bytes),
        }
    }

    /// Ends the codec; returns what is left to hand out.
    pub fn finish(self) -> (r: Result<Vec<u8>, String>)
        ensures
            result_view(r) == codec_finished(self.kind(), self.chunks()),
            finish_holds(self.kind(), self.chunks(), result_view(r)),
    {
        match self {
            Codec::ZlibEncode(c) => zlib_compressor_finish(c),
            Codec::RawEncode(c) => raw_compressor_finish(c),
            Codec::GzipEncode(c) => gzip_compressor_finish(c),
            Codec::ZlibDecode(c) => zlib_decompressor_finish(c),
            Codec::RawDecode(c) => raw_decompressor_finish(c),
            Codec::GzipDecode(c) => gzip_decompressor_finish(c),
        }
    }
}

/// The codecs of a worker, by their numbers.
pub struct CompressionState {
    pub codecs: HashMap<u32, Codec>,
    /// The number that was handed out last.
    pub next_id: u32,
}

/// The message about a format that does not exist.
pub open spec fn unsupported_format(format: Seq<char>) -> Seq<char> {
    "Unsupported compression format: '"@ + format + "'"@
}

/// The message about something without bytes.
pub const NOT_A_BUFFER: &'static str = "a compression stream takes a BufferSource";

/// The message about a stream that has ended.
pub const ALREADY_CLOSED: &'static str = "the compression stream is already closed";

/// The message about a codec that has failed.
pub open spec fn failed_message(why: Seq<char>) -> Seq<char> {
    "compression failed: "@ + why
}

/// The number that a script means; one that could not be read is zero.
pub open spec fn id_of(id: Option<u32>) -> u32 {
    match id {
        Some(n) => n,
        None => 0,
    }
}

impl Default for CompressionState {
    fn default() -> (r: Self)
        ensures
            r.codecs@ == Map::<u32, Codec>::empty(),
            r.next_id == 0,
    {
        CompressionState { codecs: HashMap::new(), next_id: 0 }
    }
}

impl CompressionState {
    /// A script starts a stream; returns its number. A format that could not be read is empty.
    pub fn compression_start(&mut self, format: Option<String>, decompress: bool) -> (r: Result<
        u32,
        String,
    >)
        requires
            old(self).next_id < u32::MAX,
        ensures
            ({
                let name = match format {
                    Some(f) => f@,
                    None => Seq::empty(),
                };
                match Format::named(name) {
                    Some(f) => {
                        let id = (old(self).next_id + 1) as u32;
                        &&& r == Ok::<u32, String>(id)
                        &&& final(self).next_id == id
                        &&& final(self).codecs@.dom() == old(self).codecs@.dom().insert(id)
                        &&& final(self).codecs@.remove(id) == old(self).codecs@.remove(id)
                        &&& final(self).codecs@[id].kind() == (CodecKind { format: f, decompress })
                        &&& final(self).codecs@[id].chunks() == Seq::<Seq<u8>>::empty()
                    },
                    None => {
                        &&& r matches Err(m)
                        &&& m@ == unsupported_format(name)
                        &&& *final(self) == *old(self)
                    },
                }
            }),
    {
        let name = match format {
            Some(f) => f,
            None => String::new(),
        };
        match Codec::new(name.as_str(), decompress) {
            Some(codec) => {
                self.next_id = self.next_id + 1;
                let id: u32 = self.next_id;
                let _old = self.codecs.insert(id, codec);
                assert(self.codecs@.remove(id) =~= old(self).codecs@.remove(id));
                Ok(id)
            },
            None => Err(concat3("Unsupported compression format: '", name.as_str(), "'")),
        }
    }

    /// A script feeds a stream; returns what the stream hands out. A codec that fails is
    /// released.
    pub fn compression_push(&mut self, id: Option<u32>, bytes: Option<Vec<u8>>) -> (r: Result<
        Vec<u8>,
        String,
    >)
        ensures
            final(self).next_id == old(self).next_id,
            match bytes {
                None => {
                    &&& r matches Err(m)
                    &&& m@ == NOT_A_BUFFER@
                    &&& final(self).codecs@ == old(self).codecs@
                },
                Some(b) => if !old(self).codecs@.contains_key(id_of(id)) {
                    &&& r matches Err(m)
                    &&& m@ == ALREADY_CLOSED@
                    &&& final(self).codecs@ == old(self).codecs@
                } else {
                    let c = old(self).codecs@[id_of(id)];
                    &&& match codec_pushed(c.kind(), c.chunks().push(b@)) {
                        Ok(out) => {
                            &&& r matches Ok(v)
                            &&& v@ == out
                            &&& final(self).codecs@.dom() == old(self).codecs@.dom()
                            &&& final(self).codecs@.remove(id_of(id)) == old(self).codecs@.remove(
                                id_of(id),
                            )
                            &&& final(self).codecs@[id_of(id)].kind() == c.kind()
                            &&& final(self).codecs@[id_of(id)].chunks() == c.chunks().push(b@)
                        },
                        Err(why) => {
                            &&& r matches Err(m)
                            &&& m@ == failed_message(why)
                            &&& final(self).codecs@ == old(self).codecs@.remove(id_of(id))
                        },
                    }
                    &&& !c.kind().decompress || starts_stream(
                        c.kind().format,
                        joined(c.chunks().push(b@)),
                    ) ==> r is Ok
                },
            },
    {
        let bytes = match bytes {
            Some(b) => b,
            None => {
                return Err(NOT_A_BUFFER.to_string());
            },
        };
        let n: u32 = match id {
            Some(n) => n,
            None => 0,
        };
        match self.codecs.remove(&n) {
            Some(mut codec) => match codec.push(bytes.as_slice()) {
                Ok(out) => {
                    let _none = self.codecs.insert(n, codec);
                    assert(self.codecs@.remove(n) =~= old(self).codecs@.remove(n));
                    Ok(out)
                },
                Err(why) => Err(concat2("compression failed: ", why.as_str())),
            },
            None => {
                assert(self.codecs@ =~= old(self).codecs@);
                Err(ALREADY_CLOSED.to_string())
            },
        }
    }

    /// A script ends a stream; returns what is left to hand out. The codec is released.
    pub fn compression_finish(&mut self, id: Option<u32>) -> (r: Result<Vec<u8>, String>)
        ensures
            final(self).next_id == old(self).next_id,
            final(self).codecs@ == old(self).codecs@.remove(id_of(id)),
            if !old(self).codecs@.contains_key(id_of(id)) {
                &&& r matches Err(m)
                &&& m@ == ALREADY_CLOSED@
            } else {
                let c = old(self).codecs@[id_of(id)];
                &&& match codec_finished(c.kind(), c.chunks()) {
                    Ok(out) => r matches Ok(v) && v@ == out,
                    Err(why) => r matches Err(m) && m@ == failed_message(why),
                }
                &&& finish_holds(c.kind(), c.chunks(), codec_finished(c.kind(), c.chunks()))
            },
    {
        let n: u32 = match id {
            Some(n) => n,
            None => 0,
        };
        match self.codecs.remove(&n) {
            Some(codec) => match codec.finish() {
                Ok(out) => Ok(out),
                Err(why) => Err(concat2("compression failed: ", why.as_str())),
            },
            None => {
                assert(self.codecs@ =~= old(self).codecs@.remove(n));
                Err(ALREADY_CLOSED.to_string())
            },
        }
    }

    /// A script gives up a stream. The codec is released.
    pub fn compression_drop(&mut self, id: Option<u32>)
        ensures
            final(self).next_id == old(self).next_id,
            final(self).codecs@ == old(self).codecs@.remove(id_of(id)),
    {
        let n: u32 = match id {
            Some(n) => n,
            None => 0,
        };
        let _gone = self.codecs.remove(&n);
        assert(self.codecs@ =~= old(self).codecs@.remove(n));
    }
}

/// A decompressor that was fed all that a compressor handed out hands out all that the compressor
/// was fed, however the bytes were cut into chunks.
pub proof fn decompressing_gives_back_compressed(
    format: Format,
    plain: Seq<Seq<u8>>,
    compressed: Seq<Seq<u8>>,
)
    requires
        ({
            let c = CodecKind { format, decompress: false };
            let d = CodecKind { format, decompress: true };
            &&& finish_holds(c, plain, codec_finished(c, plain))
            &&& finish_holds(d, compressed, codec_finished(d, compressed))
            &&& joined(compressed) == emitted(c, plain) + codec_finished(c, plain)->Ok_0
        }),
    ensures
        ({
            let d = CodecKind { format, decompress: true };
            &&& codec_finished(d, compressed) is Ok
            &&& emitted(d, compressed) + codec_finished(d, compressed)->Ok_0 == joined(plain)
        }),
{
}

/// The formats are known by their names, each by one, and there are no others.
pub proof fn formats_are_named(s: Seq<char>)
    ensures
        Format::named(s) == Some(Format::Deflate) <==> s == "deflate"@,
        Format::named(s) == Some(Format::DeflateRaw) <==> s == "deflate-raw"@,
        Format::named(s) == Some(Format::Gzip) <==> s == "gzip"@,
{
    reveal_strlit("deflate");
    reveal_strlit("deflate-raw");
    reveal_strlit("gzip");
    assert("deflate"@.len() == 7 && "deflate-raw"@.len() == 11 && "gzip"@.len() == 4);
}

/// A script means the number that it gives, and zero without one; what is said of a format that is
/// unknown names it, and what is said of a codec that failed says why.
pub proof fn numbers_and_messages_are_those_given(n: u32, text: Seq<char>)
    ensures
        id_of(Some(n)) == n,
        id_of(None) == 0,
        unsupported_format(text) == "Unsupported compression format: '"@ + text + "'"@,
        failed_message(text) == "compression failed: "@ + text,
{
}

/// Each codec does what its name says: it compresses or decompresses its own format.
pub proof fn codecs_do_what_they_are_called(
    zc: ZlibCompressor,
    rc: RawCompressor,
    gc: GzipCompressor,
    zd: ZlibDecompressor,
    rd: RawDecompressor,
    gd: GzipDecompressor,
)
    ensures
        Codec::ZlibEncode(zc).kind() == (CodecKind { format: Format::Deflate, decompress: false }),
        Codec::RawEncode(rc).kind() == (CodecKind { format: Format::DeflateRaw, decompress: false }),
        Codec::GzipEncode(gc).kind() == (CodecKind { format: Format::Gzip, decompress: false }),
        Codec::ZlibDecode(zd).kind() == (CodecKind { format: Format::Deflate, decompress: true }),
        Codec::RawDecode(rd).kind() == (CodecKind { format: Format::DeflateRaw, decompress: true }),
        Codec::GzipDecode(gd).kind() == (CodecKind { format: Format::Gzip, decompress: true }),
{
}

/// What was fed in two parts is what was fed in one.
pub proof fn chunks_are_joined_in_order(a: Seq<Seq<u8>>, b: Seq<Seq<u8>>)
    ensures
        joined(a + b) == joined(a) + joined(b),
        joined(Seq::empty()) == Seq::<u8>::empty(),
        a.len() == 1 ==> joined(a) == a[0],
    decreases b.len(),
{
    if a.len() == 1 {
        assert(joined(a.drop_last()) =~= Seq::empty());
        assert(joined(a) =~= a[0]);
    }
    if b.len() > 0 {
        assert((a + b).drop_last() =~= a + b.drop_last());
        chunks_are_joined_in_order(a, b.drop_last());
        assert(joined(a + b) =~= joined(a) + joined(b));
    } else {
        assert(a + b =~= a);
        assert(joined(a) + joined(b) =~= joined(a));
    }
}

} // verus!
