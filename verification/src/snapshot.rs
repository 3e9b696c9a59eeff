//! Packing a script together with the code that was compiled from it.
//!
//! The format is a magic number, the length of the source, both as four bytes in little-endian
//! order, the source in UTF-8, and the compiled code.

use vstd::prelude::*;
use vstd::slice::*;
use vstd::utf8::*;

use crate::text::{concat2, text_else, text_of_utf8, text_or_else};

verus! {

/// The number that a packed buffer starts with.
pub const CODE_CACHE_MAGIC: u32 = 0xC0DE_CA5E;

/// A snapshot of a script engine.
#[derive(Debug)]
pub struct SnapshotOutput {
    pub output: Vec<u8>,
}

/// The four bytes of a number, the lowest first.
pub open spec fn le_bytes(n: nat) -> Seq<u8> {
    seq![
        (n % 256) as u8,
        (n / 256 % 256) as u8,
        (n / 65536 % 256) as u8,
        (n / 16777216 % 256) as u8,
    ]
}

/// The number of four bytes, the lowest first.
pub open spec fn le_value(b: Seq<u8>) -> nat {
    (b[0] + 256 * b[1] + 65536 * b[2] + 16777216 * b[3]) as nat
}

/// How long a source may be so that its length fits into the format.
pub open spec fn length_limit() -> nat {
    0x1_0000_0000
}

/// What packing gives.
pub open spec fn packed(source: Seq<char>, cache: Seq<u8>) -> Seq<u8> {
    le_bytes(CODE_CACHE_MAGIC as nat) + le_bytes(encode_utf8(source).len() % length_limit())
        + encode_utf8(source) + cache
}

/// Whether a buffer starts like a packed one.
pub open spec fn has_magic(data: Seq<u8>) -> bool {
    data.len() >= 8 && le_value(data.take(4)) == CODE_CACHE_MAGIC
}

/// What unpacking gives: the source and the compiled code.
pub open spec fn unpacked(data: Seq<u8>) -> Option<(Seq<char>, Seq<u8>)> {
    let len = le_value(data.subrange(4, 8)) as int;
    if has_magic(data) && 8 + len <= data.len() && valid_utf8(data.subrange(8, 8 + len)) {
        Some((decode_utf8(data.subrange(8, 8 + len)), data.skip(8 + len)))
    } else {
        None
    }
}

/// Appends the four bytes of a number, the lowest first.
fn push_le_bytes(buf: &mut Vec<u8>, n: u32)
    ensures
        final(buf)@ == old(buf)@ + le_bytes(n as nat),
{
    buf.push((n % 256) as u8);
    buf.push((n / 256 % 256) as u8);
    buf.push((n / 65536 % 256) as u8);
    buf.push((n / 16777216 % 256) as u8);
    assert(buf@ =~= old(buf)@ + le_bytes(n as nat));
}

/// Reads a number from four bytes, the lowest first.
fn read_le_bytes(data: &[u8], at: usize) -> (n: u32)
    requires
        at + 4 <= data@.len(),
    ensures
        n == le_value(data@.subrange(at as int, at + 4)),
{
    let n: u32 = data[at] as u32 + 256 * (data[at + 1] as u32) + 65536 * (data[at + 2] as u32)
        + 16777216 * (data[at + 3] as u32);
    assert(data@.subrange(at as int, at + 4).len() == 4);
    n
}

/// Packs a source and the code compiled from it.
pub fn pack_code_cache(source: &str, cache: &[u8]) -> (r: Vec<u8>)
    ensures
        r@ == packed(source@, cache@),
{
    let source_bytes = source.as_bytes();
    let source_len: u32 = (source_bytes.len() as u64 % 0x1_0000_0000) as u32;
    let mut buf: Vec<u8> = Vec::new();
    push_le_bytes(&mut buf, CODE_CACHE_MAGIC);
    push_le_bytes(&mut buf, source_len);
    buf.extend_from_slice(source_bytes);
    buf.extend_from_slice(cache);
    assert(buf@ =~= packed(source@, cache@));
    buf
}

/// Unpacks a source and the code compiled from it. Gives nothing for a buffer that does not
/// start like a packed one, that is too short, or whose source is no text.
pub fn unpack_code_cache(data: &[u8]) -> (r: Option<(&str, &[u8])>)
    ensures
        match r {
            Some((source, cache)) => unpacked(data@) == Some((source@, cache@)),
            None => unpacked(data@) is None,
        },
{
    if !is_code_cache(data) {
        return None;
    }
    let source_len: usize = read_le_bytes(data, 4) as usize;
    if data.len() - 8 < source_len {
        return None;
    }
    let source_end: usize = 8 + source_len;
    match text_of_utf8(slice_subrange(data, 8, source_end)) {
        Some(source) => {
            let cache = slice_subrange(data, source_end, data.len());
            assert(cache@ =~= data@.skip(source_end as int));
            Some((source, cache))
        },
        None => None,
    }
}

/// Whether a buffer starts like a packed one.
pub fn is_code_cache(data: &[u8]) -> (r: bool)
    ensures
        r == has_magic(data@),
{
    if data.len() < 8 {
        return false;
    }
    let magic: u32 = read_le_bytes(data, 0);
    assert(data@.take(4) =~= data@.subrange(0, 4));
    magic == CODE_CACHE_MAGIC
}

/// Four bytes are read back as the number that they were written for.
proof fn le_bytes_read_back(n: nat)
    requires
        n < length_limit(),
    ensures
        le_value(le_bytes(n)) == n,
        le_bytes(n).len() == 4,
{
}

/// Unpacking gives back what was packed, for every source whose length fits into the format.
pub proof fn unpack_gives_back_pack(source: Seq<char>, cache: Seq<u8>)
    requires
        encode_utf8(source).len() < length_limit(),
    ensures
        has_magic(packed(source, cache)),
        unpacked(packed(source, cache)) == Some((source, cache)),
{
    let bytes = encode_utf8(source);
    let data = packed(source, cache);
    le_bytes_read_back(CODE_CACHE_MAGIC as nat);
    le_bytes_read_back(bytes.len());
    encode_utf8_valid_utf8(source);
    encode_utf8_decode_utf8(source);
    assert(data.take(4) =~= le_bytes(CODE_CACHE_MAGIC as nat));
    assert(data.subrange(4, 8) =~= le_bytes(bytes.len()));
    assert(data.subrange(8, 8 + bytes.len() as int) =~= bytes);
    assert(data.skip(8 + bytes.len() as int) =~= cache);
}

/// What went wrong when the code of a worker was run for a snapshot. The text is what was
/// thrown, where that is text.
pub enum SnapshotFailure {
    /// The source could not be handed to the engine.
    MakeString,
    /// The source does not compile.
    Compile(Option<String>),
    /// The script throws.
    Run(Option<String>),
}

/// What is said of code that failed when it was run for a snapshot.
pub open spec fn snapshot_failure(f: SnapshotFailure) -> Seq<char> {
    match f {
        SnapshotFailure::MakeString => "Failed to create V8 string from worker code"@,
        SnapshotFailure::Compile(t) => "Failed to compile worker code: "@ + text_else(
            t,
            "Unknown error"@,
        ),
        SnapshotFailure::Run(t) => "Worker code threw during snapshotting: "@ + text_else(
            t,
            "Unknown error"@,
        ),
    }
}

/// What is said of code that failed when it was run for a snapshot.
pub fn snapshot_failure_text(f: SnapshotFailure) -> (r: String)
    ensures
        r@ == snapshot_failure(f),
{
    match f {
        SnapshotFailure::MakeString => "Failed to create V8 string from worker code".to_string(),
        SnapshotFailure::Compile(t) => {
            let text = text_or_else(t, "Unknown error");
            concat2("Failed to compile worker code: ", text.as_str())
        },
        SnapshotFailure::Run(t) => {
            let text = text_or_else(t, "Unknown error");
            concat2("Worker code threw during snapshotting: ", text.as_str())
        },
    }
}

/// The snapshot of an engine, from what the engine has written.
pub fn create_runtime_snapshot(blob: Option<Vec<u8>>) -> (r: Result<SnapshotOutput, String>)
    ensures
        match blob {
            Some(b) => r matches Ok(s) && s.output@ == b@,
            None => r matches Err(e) && e@ == "Failed to create snapshot blob"@,
        },
{
    match blob {
        Some(output) => Ok(SnapshotOutput { output }),
        None => Err("Failed to create snapshot blob".to_string()),
    }
}

/// The snapshot of an engine in which the code of a worker was run. What the engine has written
/// counts first: it has to write even where the code has failed.
pub fn create_worker_snapshot(blob: Option<Vec<u8>>, failure: Option<SnapshotFailure>) -> (r:
    Result<SnapshotOutput, String>)
    ensures
        match (blob, failure) {
            (None, _) => r matches Err(e) && e@ == "Failed to create worker snapshot blob"@,
            (Some(_), Some(f)) => r matches Err(e) && e@ == snapshot_failure(f),
            (Some(b), None) => r matches Ok(s) && s.output@ == b@,
        },
{
    match blob {
        None => Err("Failed to create worker snapshot blob".to_string()),
        Some(output) => match failure {
            Some(f) => Err(snapshot_failure_text(f)),
            None => Ok(SnapshotOutput { output }),
        },
    }
}

/// A step of compiling a script for later.
#[derive(Debug, Clone, Copy, PartialEq, Eq, Structural)]
pub enum CacheStep {
    MakeString,
    Compile,
    WriteCache,
}

/// What is said of a step that failed.
pub open spec fn cache_failure(step: CacheStep) -> Seq<char> {
    match step {
        CacheStep::MakeString => "Failed to create V8 string from source"@,
        CacheStep::Compile => "Failed to compile script for code cache"@,
        CacheStep::WriteCache => "Failed to create code cache from compiled script"@,
    }
}

/// The compiled code of a script, or the step that failed.
pub fn create_code_cache(compiled: Result<Vec<u8>, CacheStep>) -> (r: Result<Vec<u8>, String>)
    ensures
        match compiled {
            Ok(code) => r matches Ok(c) && c@ == code@,
            Err(step) => r matches Err(e) && e@ == cache_failure(step),
        },
{
    match compiled {
        Ok(code) => Ok(code),
        Err(step) => Err(
            match step {
                CacheStep::MakeString => "Failed to create V8 string from source".to_string(),
                CacheStep::Compile => "Failed to compile script for code cache".to_string(),
                CacheStep::WriteCache => "Failed to create code cache from compiled script".to_string(),
            },
        ),
    }
}

/// A packed buffer starts with the four bytes of the magic number and the four bytes of the length
/// of the source, the lowest first; the source follows, and the compiled code is the rest.
pub proof fn packed_buffer_is_laid_out(source: Seq<char>, cache: Seq<u8>)
    requires
        encode_utf8(source).len() < 0x1_0000_0000,
    ensures
        ({
            let data = packed(source, cache);
            let n = encode_utf8(source).len();
            &&& data.len() == 8 + n + cache.len()
            &&& data[0] == 0x5E && data[1] == 0xCA && data[2] == 0xDE && data[3] == 0xC0
            &&& data[4] + 0x100 * data[5] + 0x1_0000 * data[6] + 0x100_0000 * data[7] == n
            &&& data.subrange(8, 8 + n as int) == encode_utf8(source)
            &&& data.skip(8 + n as int) == cache
        }),
{
    let data = packed(source, cache);
    let n = encode_utf8(source).len();
    le_bytes_read_back(n);
    assert(data.subrange(8, 8 + n as int) =~= encode_utf8(source));
    assert(data.skip(8 + n as int) =~= cache);
}

/// Only a packed buffer can be unpacked: what a source and its code were unpacked from is what they
/// pack to.
pub proof fn only_packed_buffers_are_unpacked(data: Seq<u8>)
    ensures
        unpacked(data) matches Some((source, cache)) ==> packed(source, cache) == data,
        unpacked(data) is Some ==> has_magic(data),
        has_magic(data) <==> data.len() >= 8 && data[0] == 0x5E && data[1] == 0xCA && data[2]
            == 0xDE && data[3] == 0xC0,
{
    magic_is_four_bytes(data);
    if unpacked(data) is Some {
        let (source, cache) = unpacked(data)->0;
        let b = data.subrange(4, 8);
        let len = le_value(b) as int;
        let bytes = data.subrange(8, 8 + len);
        decode_utf8_encode_utf8(bytes);
        value_writes_back(b);
        value_writes_back(data.take(4));
        assert(packed(source, cache) =~= data);
    }
}

/// Four bytes are what is written for the number that is read from them.
proof fn value_writes_back(b: Seq<u8>)
    requires
        b.len() == 4,
    ensures
        le_bytes(le_value(b)) == b,
        le_value(b) < length_limit(),
{
    let n = le_value(b) as int;
    let (b0, b1, b2, b3) = (b[0] as int, b[1] as int, b[2] as int, b[3] as int);
    assert(n % 256 == b0 && n / 256 == b1 + 256 * b2 + 65536 * b3);
    assert(n / 256 % 256 == b1);
    assert(n / 65536 == b2 + 256 * b3);
    assert(n / 65536 % 256 == b2);
    assert(n / 16777216 == b3);
    assert(le_bytes(le_value(b)) =~= b);
}

/// The magic number is four bytes.
proof fn magic_is_four_bytes(data: Seq<u8>)
    ensures
        has_magic(data) <==> data.len() >= 8 && data[0] == 0x5E && data[1] == 0xCA && data[2]
            == 0xDE && data[3] == 0xC0,
{
    if data.len() >= 8 {
        let t = data.take(4);
        assert(t[0] == data[0] && t[1] == data[1] && t[2] == data[2] && t[3] == data[3]);
    }
}

/// What is said of code that failed for a snapshot says at which step, and what was thrown.
pub proof fn snapshot_failures_tell_why(thrown: String)
    ensures
        snapshot_failure(SnapshotFailure::Compile(Some(thrown)))
            == "Failed to compile worker code: "@ + thrown@,
        snapshot_failure(SnapshotFailure::Compile(None))
            == "Failed to compile worker code: "@ + "Unknown error"@,
        snapshot_failure(SnapshotFailure::Run(Some(thrown)))
            == "Worker code threw during snapshotting: "@ + thrown@,
        snapshot_failure(SnapshotFailure::Run(None))
            == "Worker code threw during snapshotting: "@ + "Unknown error"@,
{
}

/// What is said of a script that could not be compiled for later says at which step that failed.
pub proof fn cache_failures_name_their_step(step: CacheStep)
    ensures
        step == CacheStep::MakeString ==> cache_failure(step)
            == "Failed to create V8 string from source"@,
        step == CacheStep::Compile ==> cache_failure(step)
            == "Failed to compile script for code cache"@,
        step == CacheStep::WriteCache ==> cache_failure(step)
            == "Failed to create code cache from compiled script"@,
        snapshot_failure(SnapshotFailure::MakeString)
            == "Failed to create V8 string from worker code"@,
{
}

} // verus!
