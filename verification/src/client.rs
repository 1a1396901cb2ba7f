use vstd::prelude::*;

use crate::errors::CustomRedisError;

verus! {

#[verifier::external_type_specification]
#[verifier::external_body]
pub struct ExRedisClientHandle(redis::Client);

/// Whether the store accepts a connection address: the address parses
/// under the store's URL scheme (`redis://host[:port][/db]` and its
/// variants). A pure function of the address string alone.
pub uninterp spec fn redis_url_ok(addr: Seq<char>) -> bool;

/// Relies on redis::Client::open: it only parses the address into
/// connection parameters — no connection is made — and succeeds exactly
/// when the address is a well-formed store URL.
#[verifier::external_body]
fn open_client(addr: String) -> (r: Result<redis::Client, String>)
    ensures
        r is Ok <==> redis_url_ok(addr@),
{
    match redis::Client::open(addr) {
        Ok(client) => Ok(client),
        Err(e) => Err(e.to_string()),
    }
}

/// A handle on the remote key-value store. Holding one implies nothing
/// about a live connection: every operation acquires its own.
pub struct RedisClient {
    client: redis::Client,
}

impl RedisClient {
    /// Create a client from a connection address. Fails immediately,
    /// and only, when the address cannot be parsed; the failure is
    /// surfaced as an `Other` store error with the parser's message.
    pub fn new(addr: String) -> (r: Result<RedisClient, CustomRedisError>)
        ensures
            r is Ok <==> redis_url_ok(addr@),
            r is Err ==> r->Err_0 is Other,
    {
        match open_client(addr) {
            Ok(client) => Ok(RedisClient { client }),
            Err(m) => Err(CustomRedisError::Other(m)),
        }
    }

    /// The underlying store handle, for the caller that acquires
    /// connections and issues the raced commands.
    pub fn handle(&self) -> &redis::Client {
        &self.client
    }
}

} // verus!
