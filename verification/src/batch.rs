//! Reading one framed batch of wire bytes from a byte cursor.
//!
//! The declared number of bytes is taken from the cursor and wrapped as a
//! shared byte view; batch initialization is attempted under a compressed
//! configuration first when compression was negotiated, falling back to an
//! uncompressed configuration on the same bytes when that fails.

use vstd::prelude::*;

use zenoh_buffers::reader::Reader;
use zenoh_buffers::ZSlice;
use zenoh_protocol::transport::BatchSize;
use zenoh_transport::common::batch::{BatchConfig, RBatch};

verus! {

#[verifier::external_type_specification]
#[verifier::external_body]
pub struct ExZSlice(ZSlice);

/// An initialized read batch, ready for grammar-level decoding. The wrapped
/// reader type of the outside crate cannot be declared to the verifier (its
/// generics carry outside trait bounds), so it is held opaquely here.
#[verifier::external_body]
pub struct Batch {
    /// The initialized reader, for the host's grammar-level decoder to drain.
    pub inner: RBatch<ZSlice>,
}

/// The bytes a shared byte view holds.
pub uninterp spec fn zslice_bytes(slice: ZSlice) -> Seq<u8>;

/// The bytes a read batch currently holds for decoding.
pub uninterp spec fn rbatch_content(batch: Batch) -> Seq<u8>;

/// Whether a read batch was configured with payload compression.
pub uninterp spec fn rbatch_compressed(batch: Batch) -> bool;

/// What initializing a read batch over `bytes` under a (possibly compressed)
/// configuration leaves for decoding, or `None` when initialization fails.
pub uninterp spec fn init_content(bytes: Seq<u8>, compressed: bool) -> Option<Seq<u8>>;

/// Why reading a batch from the cursor failed.
#[derive(Clone, Copy, Debug, PartialEq, Eq)]
pub enum BatchError {
    /// The cursor held fewer bytes than the declared batch length.
    InsufficientInput,
    /// No attempted batch configuration could be initialized over the bytes.
    InitializationFailed,
}

/// Relies on `<&[u8] as zenoh_buffers::reader::Reader>::read_exact`: it either
/// copies exactly the requested leading bytes and advances the cursor past
/// them, or, when fewer bytes remain, fails and leaves the cursor unchanged.
#[verifier::external_body]
fn read_batch_bytes(reader: &mut &[u8], len: usize) -> (r: Option<Vec<u8>>)
    ensures
        len > old(reader)@.len() ==> r is None && final(reader)@ == old(reader)@,
        len <= old(reader)@.len() ==> (match r {
            Some(bytes) => bytes@ == old(reader)@.take(len as int) && final(reader)@ == old(
                reader,
            )@.skip(len as int),
            None => false,
        }),
{
    let mut buffer = vec![0u8; len];
    match reader.read_exact(&mut buffer[0..len]) {
        Ok(()) => Some(buffer),
        Err(_) => None,
    }
}

/// Relies on `From<Vec<u8>> for zenoh_buffers::ZSlice`: the view spans exactly
/// the bytes of the vector.
#[verifier::external_body]
fn zslice_from_vec(bytes: Vec<u8>) -> (r: ZSlice)
    ensures
        zslice_bytes(r) == bytes@,
{
    ZSlice::from(bytes)
}

/// Relies on `ZSlice::clone`: the clone shares the backing buffer and spans
/// the same bytes.
#[verifier::external_body]
fn zslice_dup(slice: &ZSlice) -> (r: ZSlice)
    ensures
        zslice_bytes(r) == zslice_bytes(*slice),
{
    slice.clone()
}

/// Relies on `RBatch::new` (zenoh-transport): it stores the given buffer and
/// configuration unchanged. The configuration is fixed at the maximum
/// transport unit, unframed, with only the compression flag chosen here.
#[verifier::external_body]
fn rbatch_new(is_compression: bool, buffer: ZSlice) -> (r: Batch)
    ensures
        rbatch_content(r) == zslice_bytes(buffer),
        rbatch_compressed(r) == is_compression,
{
    let config = BatchConfig { mtu: BatchSize::MAX, is_streamed: false, is_compression };
    Batch { inner: RBatch::new(config, buffer) }
}

/// Relies on `RBatch::<ZSlice>::initialize` (zenoh-transport): without
/// compression it always succeeds and keeps the bytes unchanged; with
/// compression it reads the one-byte batch header (so the contents must not be
/// empty) and succeeds exactly when the payload it announces can be set up,
/// decompressing it when the header's compression bit is set.
#[verifier::external_body]
fn rbatch_initialize(batch: &mut Batch) -> (ok: bool)
    requires
        rbatch_compressed(*old(batch)) ==> rbatch_content(*old(batch)).len() >= 1,
    ensures
        rbatch_compressed(*final(batch)) == rbatch_compressed(*old(batch)),
        ok == (init_content(rbatch_content(*old(batch)), rbatch_compressed(*old(batch))) is Some),
        ok ==> Some(rbatch_content(*final(batch))) == init_content(
            rbatch_content(*old(batch)),
            rbatch_compressed(*old(batch)),
        ),
        !rbatch_compressed(*old(batch)) ==> ok && rbatch_content(*final(batch)) == rbatch_content(
            *old(batch),
        ),
{
    batch
        .inner
        .initialize(|| zenoh_buffers::vec::uninit(BatchSize::MAX as usize).into_boxed_slice())
        .is_ok()
}

/// Whether the compressed configuration is both attempted and initializable
/// over `input`, so that the resulting batch keeps it.
pub open spec fn spec_batch_compressed(input: Seq<u8>, is_compression: bool) -> bool {
    is_compression && input.len() >= 1 && init_content(input, true) is Some
}

/// What a successfully created batch holds for decoding: the compressed
/// initialization's result when it is attempted and succeeds, and otherwise
/// the raw bytes, which the uncompressed fallback keeps unchanged.
pub open spec fn spec_batch_content(input: Seq<u8>, is_compression: bool) -> Seq<u8> {
    if spec_batch_compressed(input, is_compression) {
        init_content(input, true)->Some_0
    } else {
        input
    }
}

/// Reads exactly `batch_size` bytes from the cursor and initializes a read
/// batch over them, trying a compressed configuration first when
/// `is_compression` holds and falling back to an uncompressed one on the same
/// bytes when that fails.
pub fn create_rbatch(reader: &mut &[u8], batch_size: usize, is_compression: bool) -> (r: Result<
    Batch,
    BatchError,
>)
    ensures
        r matches Err(e) ==> e == BatchError::InsufficientInput && batch_size > old(reader)@.len()
            && final(reader)@ == old(reader)@,
        batch_size <= old(reader)@.len() ==> (match r {
            Ok(batch) => final(reader)@ == old(reader)@.skip(batch_size as int) && rbatch_content(
                batch,
            ) == spec_batch_content(old(reader)@.take(batch_size as int), is_compression)
                && rbatch_compressed(batch) == spec_batch_compressed(
                old(reader)@.take(batch_size as int),
                is_compression,
            ),
            Err(e) => false,
        }),
{
    let bytes = match read_batch_bytes(reader, batch_size) {
        Some(bytes) => bytes,
        None => {
            return Err(BatchError::InsufficientInput);
        },
    };
    let zslice = zslice_from_vec(bytes);
    if is_compression && batch_size >= 1 {
        let mut batch = rbatch_new(true, zslice_dup(&zslice));
        if rbatch_initialize(&mut batch) {
            return Ok(batch);
        }
    }
    // Control-layer messages such as connection acknowledgements arrive
    // uncompressed even when compression is negotiated, so the same bytes are
    // retried under an uncompressed configuration.
    let mut batch = rbatch_new(false, zslice);
    if rbatch_initialize(&mut batch) {
        Ok(batch)
    } else {
        Err(BatchError::InitializationFailed)
    }
}

} // verus!
