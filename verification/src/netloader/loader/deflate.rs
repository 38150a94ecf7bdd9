//! The file's content as the server expects it: a zlib stream, cut into chunks.

use flate2::bufread::ZlibEncoder;
use flate2::Compression;
use std::io::BufReader;
use std::io::Read;
use vstd::prelude::*;

verus! {

/// The most that one chunk of compressed data holds.
pub const MAX_FILE_CHUNK_SIZE: usize = 0x4000;

/// `std::io::BufReader`, which feeds the encoder.
#[verifier::external_type_specification]
#[verifier::external_body]
#[verifier::reject_recursive_types(R)]
pub struct ExBufReader<R: ?Sized>(BufReader<R>);

/// `flate2::bufread::ZlibEncoder`, a reader that yields the compressed form of
/// what its own reader holds.
#[verifier::external_type_specification]
#[verifier::external_body]
#[verifier::reject_recursive_types(R)]
pub struct ExZlibEncoder<R>(ZlibEncoder<R>);

/// The zlib stream that flate2 produces for `data` at its default compression
/// level: the bytes that an encoder over `data` yields, read after read, up
/// to the read that ends them.
pub uninterp spec fn zlib_stream(data: Seq<u8>) -> Seq<u8>;

/// Whether the read that ends the bytes which flate2 yields for `data` is a
/// read that fails, and not the read that yields nothing and so shows the end
/// of the stream.
pub uninterp spec fn zlib_fails(data: Seq<u8>) -> bool;

/// The part of its stream that an encoder has not handed out yet.
pub uninterp spec fn pending_output(encoder: ZlibEncoder<BufReader<&[u8]>>) -> Seq<u8>;

/// Whether an encoder, once it has handed out what is pending, fails in place
/// of showing the end of its stream.
pub uninterp spec fn ends_in_error(encoder: ZlibEncoder<BufReader<&[u8]>>) -> bool;

/// `flate2::bufread::ZlibEncoder::new` at `Compression::default()`, over a
/// `std::io::BufReader` of `data`. Nothing has been read from the new encoder,
/// so all that it yields for `data` is still to come: the stream, and then its
/// end or the error.
#[verifier::external_body]
fn zlib_encoder<'a>(data: &'a [u8]) -> (encoder: ZlibEncoder<BufReader<&'a [u8]>>)
    ensures
        pending_output(encoder) == zlib_stream(data@),
        ends_in_error(encoder) == zlib_fails(data@),
{
    ZlibEncoder::new(BufReader::new(data), Compression::default())
}

/// `std::io::Read::read` of `flate2::bufread::ZlibEncoder`, into a fresh buffer
/// of `limit` bytes. While bytes are pending, a read succeeds with the next of
/// them, one at least and at most `limit`, and leaves the rest pending. Once
/// none is pending, a read either succeeds with nothing, which is the end of
/// the stream, or fails; which of the two is settled when the encoder is
/// made. Nothing is claimed of the encoder after a failed read.
#[verifier::external_body]
fn read_compressed(encoder: &mut ZlibEncoder<BufReader<&[u8]>>, limit: usize) -> (result: Result<
    Vec<u8>,
    std::io::Error,
>)
    requires
        limit > 0,
    ensures
        result is Err <==> pending_output(*old(encoder)).len() == 0 && ends_in_error(
            *old(encoder),
        ),
        result matches Ok(chunk) ==> {
            &&& chunk@.len() <= limit
            &&& chunk@.len() <= pending_output(*old(encoder)).len()
            &&& chunk@ == pending_output(*old(encoder)).take(chunk@.len() as int)
            &&& pending_output(*final(encoder)) == pending_output(*old(encoder)).skip(
                chunk@.len() as int,
            )
            &&& chunk@.len() == 0 <==> pending_output(*old(encoder)).len() == 0
            &&& ends_in_error(*final(encoder)) == ends_in_error(*old(encoder))
        },
{
    let mut buffer = vec![0u8; limit];
    let len = encoder.read(&mut buffer)?;
    buffer.truncate(len);
    Ok(buffer)
}

/// Whether `chunks` are a way to send `stream`: no chunk is empty or longer
/// than a chunk may be, and together, in order, they are the stream.
pub open spec fn chunks_of(chunks: Seq<Seq<u8>>, stream: Seq<u8>) -> bool {
    &&& forall|i: int| 0 <= i < chunks.len() ==> 0 < #[trigger] chunks[i].len() <= MAX_FILE_CHUNK_SIZE
    &&& chunks.flatten() == stream
}

/// Compresses `data` and returns the compressed stream in the chunks in which
/// the encoder yields it, each read asking for up to `MAX_FILE_CHUNK_SIZE`
/// bytes, up to the read that yields nothing.
///
/// The compression fails exactly where the encoder does: the reads go on
/// until one yields nothing or fails, and an error is the encoder's own,
/// passed on.
pub fn compress_chunks(data: &[u8]) -> (result: Result<Vec<Vec<u8>>, std::io::Error>)
    ensures
        result is Ok <==> !zlib_fails(data@),
        result matches Ok(chunks) ==> chunks_of(chunks.deep_view(), zlib_stream(data@)),
{
    let mut encoder = zlib_encoder(data);
    let mut chunks: Vec<Vec<u8>> = Vec::new();
    assert(chunks.deep_view() =~= Seq::<Seq<u8>>::empty());
    loop
        invariant
            forall|i: int|
                0 <= i < chunks.len() ==> 0 < #[trigger] chunks.deep_view()[i].len()
                    <= MAX_FILE_CHUNK_SIZE,
            chunks.deep_view().flatten() + pending_output(encoder) == zlib_stream(data@),
            ends_in_error(encoder) == zlib_fails(data@),
        decreases pending_output(encoder).len(),
    {
        let ghost before = chunks.deep_view();
        let ghost pending = pending_output(encoder);
        match read_compressed(&mut encoder, MAX_FILE_CHUNK_SIZE) {
            Err(error) => {
                return Err(error);
            },
            Ok(chunk) => {
                if chunk.len() == 0 {
                    assert(chunks.deep_view().flatten() =~= zlib_stream(data@));
                    return Ok(chunks);
                }
                chunks.push(chunk);
                proof {
                    assert(chunk.deep_view() =~= chunk@);
                    assert(chunks.deep_view() =~= before.push(chunk@));
                    before.lemma_flatten_push(chunk@);
                    assert(pending =~= chunk@ + pending_output(encoder));
                    assert(chunks.deep_view().flatten() + pending_output(encoder) =~= before.flatten()
                        + pending);
                }
            },
        }
    }
}

} // verus!
