use vstd::prelude::*;
use crate::adapter::StorageAdapter;
use crate::bindings::{BindingGuard, HostBindings};
use crate::codec::{
    block_decoding, byte_strings_view, decode_block_parts, decode_parent_number,
    parent_number_decoding,
};
use crate::witness::{entries_map, entries_view, WitnessStore};

verus! {

/// Which input could not be decoded.
#[derive(PartialEq, Eq, Structural, Clone, Copy, Debug)]
pub enum DecodeError {
    Block,
    Header,
}

/// Why a block was not validated: an input did not decode, or the
/// state-transition function rejected the block with the error `X`.
#[derive(Debug)]
pub enum ValidationError<X> {
    Decode(DecodeError),
    Execution(X),
}

/// A decoded parachain block: its extrinsics, in order, and the witness
/// entries that its execution reads and writes.
pub struct ParachainBlock {
    pub extrinsics: Vec<Vec<u8>>,
    pub witness_data: Vec<(Vec<u8>, Vec<u8>)>,
}

impl ParachainBlock {
    /// Decodes an encoded block.
    pub fn decode(bytes: &[u8]) -> (r: Result<ParachainBlock, DecodeError>)
        ensures
            match block_decoding(bytes@) {
                Some(p) => r matches Ok(b) && byte_strings_view(b.extrinsics@) == p.0
                    && entries_view(b.witness_data@) == p.1,
                None => r == Err::<ParachainBlock, DecodeError>(DecodeError::Block),
            },
    {
        match decode_block_parts(bytes) {
            Some((extrinsics, witness_data)) => Ok(ParachainBlock { extrinsics, witness_data }),
            None => Err(DecodeError::Block),
        }
    }
}

/// The one field of the parent header that validation reads.
#[derive(PartialEq, Eq, Structural, Clone, Copy, Debug)]
pub struct ParentHeader {
    pub number: u32,
}

impl ParentHeader {
    /// Decodes an encoded parent header.
    pub fn decode(bytes: &[u8]) -> (r: Result<ParentHeader, DecodeError>)
        ensures
            match parent_number_decoding(bytes@) {
                Some(n) => r == Ok::<ParentHeader, DecodeError>(ParentHeader { number: n }),
                None => r == Err::<ParentHeader, DecodeError>(DecodeError::Header),
            },
    {
        match decode_parent_number(bytes) {
            Some(number) => Ok(ParentHeader { number }),
            None => Err(DecodeError::Header),
        }
    }

    /// The number of the block that follows this header. A 32-bit parent
    /// number always has a successor in 64 bits.
    pub fn next_number(&self) -> (n: u64)
        ensures
            n == self.number + 1,
    {
        self.number as u64 + 1
    }
}

/// The chain's state-transition function, implemented by the runtime that
/// uses this library. It runs the extrinsics of block `block_number` and may
/// read and write state through `storage` only. Checks that the relay chain
/// has already made are skipped.
pub trait ExecuteBlock {
    type Error;

    fn execute_extrinsics_without_checks(
        &mut self,
        block_number: u64,
        extrinsics: Vec<Vec<u8>>,
        storage: &mut StorageAdapter,
    ) -> Result<(), Self::Error>
        requires
            old(storage).wf(),
            old(storage).bound() is Some,
    ;
}

/// One execution context: the host's storage bindings and the adapter
/// through which the state-transition function reaches state.
pub struct ExecutionContext {
    pub bindings: HostBindings,
    pub storage: StorageAdapter,
}

impl ExecutionContext {
    /// A context with the host's own bindings and no store bound.
    pub fn new() -> (c: ExecutionContext)
        ensures
            c.idle(),
            c.bindings == HostBindings::host_bindings(),
    {
        ExecutionContext { bindings: HostBindings::host(), storage: StorageAdapter::unbound() }
    }

    /// No validation is in progress in this context.
    pub open spec fn idle(&self) -> bool {
        &&& self.storage.wf()
        &&& self.storage.bound() is None
    }

    pub fn is_idle(&self) -> (r: bool)
        ensures
            r == self.idle(),
    {
        !self.storage.is_bound()
    }
}

/// The validation outcome for what the state-transition function returned.
pub fn outcome<X>(executed: Result<(), X>) -> (r: Result<(), ValidationError<X>>)
    ensures
        match executed {
            Ok(()) => r is Ok,
            Err(e) => r matches Err(ValidationError::Execution(x)) && x == e,
        },
{
    match executed {
        Ok(()) => Ok(()),
        Err(e) => Err(ValidationError::Execution(e)),
    }
}

/// What the state-transition function is handed for one block: the block's
/// number, its extrinsics, and the store built from its witness.
pub struct PreparedBlock {
    pub block_number: u64,
    pub extrinsics: Vec<Vec<u8>>,
    pub store: WitnessStore,
}

/// Decodes the block and its parent's header, and builds what replay needs:
/// the block number is the parent's plus one.
pub fn prepare(block: &[u8], prev_head: &[u8]) -> (r: Result<PreparedBlock, DecodeError>)
    ensures
        match (block_decoding(block@), parent_number_decoding(prev_head@)) {
            (None, _) => r matches Err(DecodeError::Block),
            (Some(_), None) => r matches Err(DecodeError::Header),
            (Some(p), Some(n)) => r matches Ok(pb) && pb.block_number == n + 1
                && byte_strings_view(pb.extrinsics@) == p.0 && pb.store.wf()
                && pb.store@ == entries_map(p.1),
        },
{
    let parachain_block = match ParachainBlock::decode(block) {
        Ok(b) => b,
        Err(e) => return Err(e),
    };
    let parent_header = match ParentHeader::decode(prev_head) {
        Ok(h) => h,
        Err(e) => return Err(e),
    };
    let ParachainBlock { extrinsics, witness_data } = parachain_block;
    let store = WitnessStore::from_entries(witness_data);
    Ok(PreparedBlock { block_number: parent_header.next_number(), extrinsics, store })
}

/// Runs a prepared block: the bindings of `ctx` switch to replay, the store
/// is bound for `executor` alone, and afterwards, whatever the executor
/// returned, the store is dropped and the earlier bindings are back.
pub fn execute_prepared<E: ExecuteBlock>(
    ctx: &mut ExecutionContext,
    executor: &mut E,
    prepared: PreparedBlock,
) -> (r: Result<(), E::Error>)
    requires
        old(ctx).idle(),
        prepared.store.wf(),
    ensures
        final(ctx).idle(),
        final(ctx).bindings == old(ctx).bindings,
{
    let PreparedBlock { block_number, extrinsics, store } = prepared;
    let guard = BindingGuard::install(&mut ctx.bindings);
    ctx.storage.bind(store);
    let executed = executor.execute_extrinsics_without_checks(
        block_number,
        extrinsics,
        &mut ctx.storage,
    );
    ctx.storage.unbind();
    guard.release(&mut ctx.bindings);
    executed
}

/// Validates an encoded block against the encoded header of its parent: the
/// block's witness becomes the only state that `executor` can reach while it
/// runs the block's extrinsics as the block after the parent. Whatever the
/// outcome, the bindings of `ctx` are the same afterwards and the witness is
/// gone; where an input does not decode, nothing is installed at all.
pub fn validate_block<E: ExecuteBlock>(
    ctx: &mut ExecutionContext,
    executor: &mut E,
    block: &[u8],
    prev_head: &[u8],
) -> (r: Result<(), ValidationError<E::Error>>)
    requires
        old(ctx).idle(),
    ensures
        final(ctx).idle(),
        final(ctx).bindings == old(ctx).bindings,
        block_decoding(block@) is None ==> (r matches Err(
            ValidationError::Decode(DecodeError::Block),
        )),
        block_decoding(block@) is Some && parent_number_decoding(prev_head@) is None ==> (r matches Err(
            ValidationError::Decode(DecodeError::Header),
        )),
        r matches Err(ValidationError::Decode(_)) ==> *final(ctx) == *old(ctx),
        block_decoding(block@) is Some && parent_number_decoding(prev_head@) is Some ==> (r is Ok
            || r matches Err(ValidationError::Execution(_))),
{
    match prepare(block, prev_head) {
        Ok(prepared) => outcome(execute_prepared(ctx, executor, prepared)),
        Err(e) => Err(ValidationError::Decode(e)),
    }
}

} // verus!
