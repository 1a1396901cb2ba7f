use vstd::prelude::*;

use crate::codec::decode_value;
use crate::codec::encode_value;
use crate::codec::unpickled_string;
use crate::errors::CustomRedisError;

verus! {

/// What racing one store command against the timeout produced: the
/// bound elapsed first, the store reported a failure (connection or
/// command, message preserved), or the command completed with its
/// answer.
pub enum CommandOutcome<T> {
    TimedOut,
    Failed(String),
    Completed(T),
}

/// The uniform mapping from a raced command to the caller's result:
/// an elapsed bound is a `Timeout`, a store failure is `Other`, and a
/// completed command hands its answer through unchanged.
pub open spec fn settled<T>(o: CommandOutcome<T>) -> Result<T, CustomRedisError> {
    match o {
        CommandOutcome::TimedOut => Err(CustomRedisError::Timeout),
        CommandOutcome::Failed(m) => Err(CustomRedisError::Other(m)),
        CommandOutcome::Completed(t) => Ok(t),
    }
}

/// Settle a raced command: the shared timeout and error discipline,
/// applied identically by every operation. The range query and the
/// unit-result operations (set, delete, hash-increment) return this
/// mapping directly.
pub fn settle<T>(o: CommandOutcome<T>) -> (r: Result<T, CustomRedisError>)
    ensures
        r == settled(o),
{
    match o {
        CommandOutcome::TimedOut => Err(CustomRedisError::Timeout),
        CommandOutcome::Failed(m) => Err(CustomRedisError::Other(m)),
        CommandOutcome::Completed(t) => Ok(t),
    }
}

/// A store that does not answer within the bound gives `Timeout` for
/// every operation — never `Other`, never an answer.
pub proof fn lemma_timeout_is_timeout<T>(o: CommandOutcome<T>)
    requires
        o is TimedOut,
    ensures
        settled(o) == Err::<T, CustomRedisError>(CustomRedisError::Timeout),
{
}

/// Decide a scalar get from its raced command: an empty or absent
/// answer is `NotFound` (never an empty string), and a non-empty
/// answer is decoded from the legacy byte envelope, a decode failure
/// giving `PickleError`.
pub fn get_result(o: CommandOutcome<Vec<u8>>) -> (r: Result<String, CustomRedisError>)
    ensures
        o is TimedOut ==> r == Err::<String, CustomRedisError>(CustomRedisError::Timeout),
        o matches CommandOutcome::Failed(m) ==> r == Err::<String, CustomRedisError>(
            CustomRedisError::Other(m),
        ),
        o matches CommandOutcome::Completed(b) ==> {
            &&& b@.len() == 0 ==> r == Err::<String, CustomRedisError>(CustomRedisError::NotFound)
            &&& b@.len() > 0 ==> {
                &&& r is Ok <==> unpickled_string(b@) is Some
                &&& r is Ok ==> Some(r->Ok_0@) == unpickled_string(b@)
                &&& r is Err ==> r->Err_0 is PickleError
            }
        },
{
    match o {
        CommandOutcome::TimedOut => Err(CustomRedisError::Timeout),
        CommandOutcome::Failed(m) => Err(CustomRedisError::Other(m)),
        CommandOutcome::Completed(bytes) => {
            if bytes.len() == 0 {
                Err(CustomRedisError::NotFound)
            } else {
                decode_value(bytes.as_slice())
            }
        },
    }
}

/// Decide a hash-field get from its raced command: an absent key or
/// field is `NotFound`, and a present field is handed through as the
/// plain string the store keeps (hash fields carry no envelope).
pub fn hget_result(o: CommandOutcome<Option<String>>) -> (r: Result<String, CustomRedisError>)
    ensures
        o is TimedOut ==> r == Err::<String, CustomRedisError>(CustomRedisError::Timeout),
        o matches CommandOutcome::Failed(m) ==> r == Err::<String, CustomRedisError>(
            CustomRedisError::Other(m),
        ),
        o matches CommandOutcome::Completed(f) ==> match f {
            Some(v) => r == Ok::<String, CustomRedisError>(v),
            None => r == Err::<String, CustomRedisError>(CustomRedisError::NotFound),
        },
{
    match o {
        CommandOutcome::TimedOut => Err(CustomRedisError::Timeout),
        CommandOutcome::Failed(m) => Err(CustomRedisError::Other(m)),
        CommandOutcome::Completed(field) => match field {
            Some(value) => Ok(value),
            None => Err(CustomRedisError::NotFound),
        },
    }
}

/// The increment a hash-increment applies: the caller's amount, or
/// exactly one where the caller gave none.
pub open spec fn increment_amount(count: Option<i32>) -> i32 {
    match count {
        Some(c) => c,
        None => 1,
    }
}

/// Pick the increment a hash-increment sends to the store.
pub fn hincrby_amount(count: Option<i32>) -> (r: i32)
    ensures
        r == increment_amount(count),
{
    match count {
        Some(c) => c,
        None => 1,
    }
}

/// Omitting the amount is the same as asking for one: a hash-increment
/// with no amount applies exactly the increment of `Some(1)`.
pub proof fn lemma_hincrby_default_amount()
    ensures
        increment_amount(None) == increment_amount(Some(1)),
{
}

/// Writing a value and immediately reading its key back returns the
/// value: the envelope `set` stores for `v` is exactly what a completed
/// `get` decodes, so a get whose command answers with that envelope
/// yields `v` again.
pub fn set_then_get(v: &str) -> (r: Result<String, CustomRedisError>)
    requires
        v@.len() < 0x4000_0000,
    ensures
        r is Ok,
        r->Ok_0@ == v@,
{
    let stored = encode_value(v);
    get_result(CommandOutcome::Completed(stored))
}

} // verus!
