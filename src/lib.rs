//! Transport unification for an RPC stack: a cursor model for reads into a
//! partly uninitialised buffer, and a server stream that is either plain or
//! encrypted, with connection information that mirrors the stream's kind.

pub mod poll;
pub mod read_cursor;
pub mod server_io;
