//! One live stream: who produces it, what it is called, and its latest chunk.

use crate::chunk_buffer::ChunkBuffer;
use crate::fingerprint::chunk_fingerprint;
use vstd::prelude::*;

verus! {

/// Names a transport session (a peer connection) that the transport layer
/// keeps for a stream's producer.
pub type SessionHandle = u64;

/// What a stream is, as contracts see it.
pub struct StreamView {
    /// The numeric identifier of the producer.
    pub streamer_id: usize,
    /// The stream's name, which is also the identifier it is registered under.
    pub stream_name: Seq<char>,
    /// The transport session of the producer, if one is attached.
    pub connection: Option<SessionHandle>,
    /// The latest chunk.
    pub chunk: Seq<u8>,
}

impl StreamView {
    /// A stream that has not received a chunk yet.
    pub open spec fn fresh(
        streamer_id: usize,
        stream_name: Seq<char>,
        connection: Option<SessionHandle>,
    ) -> StreamView {
        StreamView { streamer_id, stream_name, connection, chunk: Seq::empty() }
    }

    /// The same stream with another producer.
    pub open spec fn with_streamer(self, streamer_id: usize) -> StreamView {
        StreamView { streamer_id, ..self }
    }

    /// The same stream with a transport session attached.
    pub open spec fn with_connection(self, connection: SessionHandle) -> StreamView {
        StreamView { connection: Some(connection), ..self }
    }

    /// The same stream after `chunk` has been loaded into it.
    pub open spec fn with_chunk(self, chunk: Seq<u8>) -> StreamView {
        StreamView { chunk, ..self }
    }

    /// The fingerprint of the latest chunk.
    pub open spec fn fingerprint(self) -> u64 {
        chunk_fingerprint(self.chunk)
    }
}

/// A live stream and the buffer it owns.
#[derive(Debug)]
pub struct Stream {
    streamer_id: usize,
    stream_name: String,
    connection: Option<SessionHandle>,
    current_chunk: ChunkBuffer,
}

impl View for Stream {
    type V = StreamView;

    closed spec fn view(&self) -> StreamView {
        StreamView {
            streamer_id: self.streamer_id,
            stream_name: self.stream_name@,
            connection: self.connection,
            chunk: self.current_chunk@,
        }
    }
}

impl Stream {
    /// A new stream with an empty buffer.
    pub fn new(streamer_id: usize, stream_name: String, connection: Option<SessionHandle>) -> (stream:
        Self)
        ensures
            stream@ == StreamView::fresh(streamer_id, stream_name@, connection),
    {
        Stream { streamer_id, stream_name, connection, current_chunk: ChunkBuffer::new() }
    }

    /// Sets the numeric identifier of the producer.
    pub fn set_streamer_id(&mut self, streamer_id: usize)
        ensures
            final(self)@ == old(self)@.with_streamer(streamer_id),
    {
        self.streamer_id = streamer_id;
    }

    /// Attaches the transport session of the producer.
    pub fn attach_connection(&mut self, connection: SessionHandle)
        ensures
            final(self)@ == old(self)@.with_connection(connection),
    {
        self.connection = Some(connection);
    }

    /// Makes `chunk` the stream's current chunk.
    pub fn load_chunk(&mut self, chunk: Vec<u8>)
        ensures
            final(self)@ == old(self)@.with_chunk(chunk@),
    {
        self.current_chunk.write(chunk);
    }

    /// The stream with `chunk` as its current chunk.
    pub fn with_chunk(self, chunk: Vec<u8>) -> (stream: Self)
        ensures
            stream@ == self@.with_chunk(chunk@),
    {
        let mut stream = self;
        stream.load_chunk(chunk);
        stream
    }

    /// A copy of the current chunk.
    pub fn get_chunk(&self) -> (chunk: Vec<u8>)
        ensures
            chunk@ == self@.chunk,
    {
        self.current_chunk.read().0
    }

    /// A copy of the current chunk, with its fingerprint.
    pub fn read_chunk(&self) -> (out: (Vec<u8>, u64))
        ensures
            out.0@ == self@.chunk,
            out.1 == self@.fingerprint(),
    {
        self.current_chunk.read()
    }

    /// The current chunk and its fingerprint, taken out of the stream.
    pub fn into_chunk(self) -> (out: (Vec<u8>, u64))
        ensures
            out.0@ == self@.chunk,
            out.1 == self@.fingerprint(),
    {
        self.current_chunk.into_parts()
    }

    /// The numeric identifier of the producer.
    pub fn streamer_id(&self) -> (id: usize)
        ensures
            id == self@.streamer_id,
    {
        self.streamer_id
    }

    /// The stream's name.
    pub fn stream_name(&self) -> (name: &String)
        ensures
            name@ == self@.stream_name,
    {
        &self.stream_name
    }

    /// The transport session of the producer, if one is attached.
    pub fn connection(&self) -> (connection: Option<SessionHandle>)
        ensures
            connection == self@.connection,
    {
        self.connection
    }
}

impl Clone for Stream {
    fn clone(&self) -> (copy: Self)
        ensures
            copy@ == self@,
    {
        Stream {
            streamer_id: self.streamer_id,
            stream_name: self.stream_name.clone(),
            connection: self.connection,
            current_chunk: self.current_chunk.clone(),
        }
    }
}

} // verus!
