//! The registry of live streams.
//!
//! Streams are kept in a sharded concurrent map, each under its own name.
//! The number of shards is chosen when the registry is made and never
//! changes afterwards. Every operation that changes the registry takes it by
//! `&mut`, so that two changes never interleave. Where changes to unrelated
//! streams are to go on side by side, several registries are kept, each
//! behind a lock of its own, and `partition_for` routes every name to one of
//! them.

use crate::fingerprint::chunk_fingerprint;
use crate::fingerprint::hash_vecu8;
use crate::stream::Stream;
use crate::stream::StreamView;
use dashmap::DashMap;
use vstd::arithmetic::power2::is_pow2;
use vstd::prelude::*;
use vstd::string::StrSliceExecFns;
use vstd::string::StringSliceAdditionalSpecFns;
use vstd::utf8::encode_utf8;

verus! {

/// The sharded map of the `dashmap` crate. Its inside is not visible here;
/// what it holds is named by `stream_table` and `shard_count`.
#[verifier::external_type_specification]
#[verifier::external_body]
#[verifier::reject_recursive_types(K)]
#[verifier::reject_recursive_types(V)]
#[verifier::reject_recursive_types(S)]
pub struct ExDashMap<K, V, S>(DashMap<K, V, S>);

/// The streams that a sharded map holds, by the key each is stored under.
pub uninterp spec fn stream_table(table: DashMap<String, Stream>) -> Map<Seq<char>, StreamView>;

/// The number of shards that a sharded map was made with.
pub uninterp spec fn shard_count(table: DashMap<String, Stream>) -> nat;

/// What a registry holds: the streams by name.
pub type StreamTable = Map<Seq<char>, StreamView>;

/// Why the registry refused an operation.
#[derive(Debug, Clone, Copy, PartialEq, Eq, Structural)]
pub enum RegistryError {
    /// A stream of that name is registered already.
    AlreadyExists,
    /// No stream of that name is registered.
    NotFound,
    /// The number of shards asked for cannot be used.
    InvalidShardAmount,
}

/// The table that holds no stream.
pub open spec fn no_streams() -> StreamTable {
    Map::empty()
}

/// Every stream in the table is stored under its own name.
pub open spec fn filed_by_name(table: StreamTable) -> bool {
    forall|id: Seq<char>| #[trigger] table.contains_key(id) ==> table[id].stream_name == id
}

/// What registering `stream` answers: the name must be free.
pub open spec fn add_outcome(table: StreamTable, stream: StreamView) -> Result<(), RegistryError> {
    if table.contains_key(stream.stream_name) {
        Err(RegistryError::AlreadyExists)
    } else {
        Ok(())
    }
}

/// The table after registering `stream`: it is added under its name if the
/// name was free, and nothing changes if it was taken.
pub open spec fn after_add(table: StreamTable, stream: StreamView) -> StreamTable {
    if table.contains_key(stream.stream_name) {
        table
    } else {
        table.insert(stream.stream_name, stream)
    }
}

/// The table after removing the stream called `id`, if there was one.
pub open spec fn after_remove(table: StreamTable, id: Seq<char>) -> StreamTable {
    table.remove(id)
}

/// What pushing a chunk to the stream called `id` answers: the stream must
/// be registered.
pub open spec fn push_outcome(table: StreamTable, id: Seq<char>) -> Result<(), RegistryError> {
    if table.contains_key(id) {
        Ok(())
    } else {
        Err(RegistryError::NotFound)
    }
}

/// The table after pushing `chunk` to the stream called `id`: that stream
/// holds the chunk, and nothing changes if there is no such stream.
pub open spec fn after_push(table: StreamTable, id: Seq<char>, chunk: Seq<u8>) -> StreamTable {
    if table.contains_key(id) {
        table.insert(id, table[id].with_chunk(chunk))
    } else {
        table
    }
}

/// An upper bound, in bytes, on what one shard takes in the array of shards:
/// a lock and a table header, padded to a cache line.
pub const SHARD_BYTES_MAX: usize = 256;

/// Whether a registry can be made with `shard_amount` shards: more than one,
/// a power of two, and few enough for the array of shards to be allocated.
pub open spec fn valid_shard_amount(shard_amount: usize) -> bool {
    &&& 1 < shard_amount
    &&& is_pow2(shard_amount as int)
    &&& shard_amount * SHARD_BYTES_MAX <= isize::MAX
}

/// Says whether a registry can be made with `shard_amount` shards.
pub fn is_valid_shard_amount(shard_amount: usize) -> (valid: bool)
    ensures
        valid == valid_shard_amount(shard_amount),
{
    if shard_amount <= 1 || shard_amount > (isize::MAX as usize) / SHARD_BYTES_MAX {
        return false;
    }
    let mut rest: usize = shard_amount;
    while rest % 2 == 0
        invariant
            1 <= rest,
            is_pow2(rest as int) == is_pow2(shard_amount as int),
        decreases rest,
    {
        proof {
            reveal(is_pow2);
        }
        rest = rest / 2;
    }
    proof {
        reveal(is_pow2);
    }
    rest == 1
}

/// The partition, among `partitions`, that a stream's name is routed to: the
/// fingerprint of the name's bytes, reduced by the number of partitions.
pub open spec fn partition_of(stream_name: Seq<char>, partitions: usize) -> int {
    chunk_fingerprint(encode_utf8(stream_name)) as int % partitions as int
}

/// Routes a stream's name to one of `partitions` partitions. A name is always
/// routed to the same partition, so registries that are kept one per
/// partition, each behind a lock of its own, hold every name at most once
/// between them, and work on one stream waits only for work in its partition.
pub fn partition_for(stream_name: &str, partitions: usize) -> (partition: usize)
    requires
        partitions > 0,
    ensures
        partition == partition_of(stream_name@, partitions),
        partition < partitions,
{
    let bytes = stream_name.as_bytes_vec();
    let fingerprint = hash_vecu8(&bytes);
    (fingerprint % (partitions as u64)) as usize
}

/// The streams that are live, by name.
#[derive(Debug)]
pub struct ActiveStreams {
    streams: DashMap<String, Stream>,
}

impl View for ActiveStreams {
    type V = StreamTable;

    closed spec fn view(&self) -> StreamTable {
        stream_table(self.streams)
    }
}

impl ActiveStreams {
    /// The registry's invariant: every stream is stored under its own name.
    pub open spec fn wf(&self) -> bool {
        filed_by_name(self@)
    }

    /// The number of shards that the registry was made with.
    pub closed spec fn shard_amount(&self) -> nat {
        shard_count(self.streams)
    }

    /// An empty registry with `shard_amount` shards.
    pub fn new(shard_amount: usize) -> (registry: Self)
        requires
            valid_shard_amount(shard_amount),
        ensures
            registry.wf(),
            registry@ == no_streams(),
            registry.shard_amount() == shard_amount,
    {
        ActiveStreams { streams: table_with_shard_amount(shard_amount) }
    }

    /// An empty registry with `shard_amount` shards, or an error if that
    /// number of shards cannot be used.
    pub fn try_new(shard_amount: usize) -> (result: Result<Self, RegistryError>)
        ensures
            result is Ok <==> valid_shard_amount(shard_amount),
            result matches Ok(registry) ==> registry.wf() && registry@ == no_streams()
                && registry.shard_amount() == shard_amount,
            result matches Err(error) ==> error == RegistryError::InvalidShardAmount,
    {
        if is_valid_shard_amount(shard_amount) {
            Ok(ActiveStreams::new(shard_amount))
        } else {
            Err(RegistryError::InvalidShardAmount)
        }
    }

    /// Says whether a stream called `stream_name` is registered.
    pub fn contains_stream(&self, stream_name: &str) -> (found: bool)
        ensures
            found == self@.contains_key(stream_name@),
    {
        table_contains_key(&self.streams, stream_name)
    }

    /// Registers `c_stream` under its name. A name that is taken is refused,
    /// and the stream that holds it stays as it is.
    pub fn add_stream(&mut self, c_stream: Stream) -> (result: Result<(), RegistryError>)
        requires
            old(self).wf(),
        ensures
            final(self).wf(),
            result == add_outcome(old(self)@, c_stream@),
            final(self)@ == after_add(old(self)@, c_stream@),
            final(self).shard_amount() == old(self).shard_amount(),
    {
        let name = c_stream.stream_name().clone();
        if table_contains_key(&self.streams, name.as_str()) {
            return Err(RegistryError::AlreadyExists);
        }
        table_insert(&mut self.streams, name, c_stream);
        Ok(())
    }

    /// Registers a new stream called `stream_name`, with an empty buffer, no
    /// producer identifier yet (zero) and no transport session.
    pub fn create_stream(&mut self, stream_name: String) -> (result: Result<(), RegistryError>)
        requires
            old(self).wf(),
        ensures
            final(self).wf(),
            result == add_outcome(old(self)@, StreamView::fresh(0, stream_name@, None)),
            final(self)@ == after_add(old(self)@, StreamView::fresh(0, stream_name@, None)),
            final(self).shard_amount() == old(self).shard_amount(),
    {
        self.add_stream(Stream::new(0, stream_name, None))
    }

    /// Removes the stream called `stream_id`. Removing a stream that is not
    /// registered changes nothing.
    pub fn remove_stream(&mut self, stream_id: String)
        requires
            old(self).wf(),
        ensures
            final(self).wf(),
            final(self)@ == after_remove(old(self)@, stream_id@),
            final(self).shard_amount() == old(self).shard_amount(),
    {
        table_remove(&mut self.streams, stream_id.as_str());
    }

    /// A copy of the stream called `stream_name` as it is now, or `None` if
    /// no such stream is registered.
    pub fn get_stream(&self, stream_name: &str) -> (found: Option<Stream>)
        ensures
            found is Some <==> self@.contains_key(stream_name@),
            found matches Some(stream) ==> stream@ == self@[stream_name@],
    {
        table_view(&self.streams, stream_name)
    }

    /// Makes `chunk` the current chunk of the stream called `stream_id`.
    /// Nothing is checked of the chunk. If no such stream is registered the
    /// push is refused and nothing changes.
    pub fn push_chunk(&mut self, stream_id: &str, chunk: Vec<u8>) -> (result: Result<
        (),
        RegistryError,
    >)
        requires
            old(self).wf(),
        ensures
            final(self).wf(),
            result == push_outcome(old(self)@, stream_id@),
            final(self)@ == after_push(old(self)@, stream_id@, chunk@),
            final(self).shard_amount() == old(self).shard_amount(),
    {
        if !table_contains_key(&self.streams, stream_id) {
            return Err(RegistryError::NotFound);
        }
        table_alter(&mut self.streams, stream_id, chunk);
        Ok(())
    }
}

/// Trusted: `DashMap::with_shard_amount`. It makes an empty map with the
/// given number of shards. It panics unless that number is greater than one
/// and a power of two, and when the array of shards is too large to allocate;
/// `requires` leaves those inputs out.
#[verifier::external_body]
fn table_with_shard_amount(shard_amount: usize) -> (table: DashMap<String, Stream>)
    requires
        valid_shard_amount(shard_amount),
    ensures
        stream_table(table) == no_streams(),
        shard_count(table) == shard_amount,
{
    DashMap::with_shard_amount(shard_amount)
}

/// Trusted: `DashMap::contains_key`. It says whether the key is in the map.
#[verifier::external_body]
fn table_contains_key(table: &DashMap<String, Stream>, key: &str) -> (found: bool)
    ensures
        found == stream_table(*table).contains_key(key@),
{
    table.contains_key(key)
}

/// Trusted: `DashMap::view`. It applies the closure to the entry under the
/// key, if there is one; here the closure copies the stream, so the result is
/// a copy of what the map holds under the key, or `None` if it holds nothing.
#[verifier::external_body]
fn table_view(table: &DashMap<String, Stream>, key: &str) -> (found: Option<Stream>)
    ensures
        found is Some <==> stream_table(*table).contains_key(key@),
        found matches Some(stream) ==> stream@ == stream_table(*table)[key@],
{
    table.view(key, |_, stream| stream.clone())
}

/// Trusted: `DashMap::insert`. It stores the value under the key, replacing
/// what was there, and returns what was there. Nothing else in the map
/// changes, and the number of shards stays.
#[verifier::external_body]
fn table_insert(table: &mut DashMap<String, Stream>, key: String, value: Stream) -> (previous: Option<
    Stream,
>)
    ensures
        stream_table(*final(table)) == stream_table(*old(table)).insert(key@, value@),
        shard_count(*final(table)) == shard_count(*old(table)),
        previous is Some <==> stream_table(*old(table)).contains_key(key@),
        previous matches Some(stream) ==> stream@ == stream_table(*old(table))[key@],
{
    table.insert(key, value)
}

/// Trusted: `DashMap::remove`. It takes the entry under the key out of the
/// map and returns it; a key that is not there leaves the map as it was.
/// The number of shards stays.
#[verifier::external_body]
fn table_remove(table: &mut DashMap<String, Stream>, key: &str) -> (removed: Option<(String, Stream)>)
    ensures
        stream_table(*final(table)) == stream_table(*old(table)).remove(key@),
        shard_count(*final(table)) == shard_count(*old(table)),
        removed is Some <==> stream_table(*old(table)).contains_key(key@),
        removed matches Some(entry) ==> entry.0@ == key@ && entry.1@ == stream_table(*old(table))[key@],
{
    table.remove(key)
}

/// Trusted: `DashMap::alter`. It replaces the value under the key by what the
/// closure makes of it, and does nothing if the key is not there; here the
/// closure loads the chunk into the stream. The number of shards stays.
#[verifier::external_body]
fn table_alter(table: &mut DashMap<String, Stream>, key: &str, chunk: Vec<u8>)
    ensures
        stream_table(*final(table)) == if stream_table(*old(table)).contains_key(key@) {
            stream_table(*old(table)).insert(key@, stream_table(*old(table))[key@].with_chunk(chunk@))
        } else {
            stream_table(*old(table))
        },
        shard_count(*final(table)) == shard_count(*old(table)),
{
    table.alter(key, |_, stream| stream.with_chunk(chunk))
}

} // verus!
