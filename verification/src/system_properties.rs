//! System properties: what the property calls report about a value, a write or a walk over
//! all properties, decoded into results.
use vstd::prelude::*;
use vstd::utf8::*;
use vstd::string::StringSliceAdditionalSpecFns;

verus! {

/// The largest size of a property value, terminating NUL included.
pub const PROP_VALUE_MAX: usize = 92;

/// The largest size of a property name, terminating NUL included.
pub const PROP_NAME_MAX: usize = 32;

#[verifier::external_type_specification]
#[verifier::external_body]
pub struct ExUtf8Error(std::str::Utf8Error);

/// Why bytes are not one NUL-terminated string.
#[derive(Copy, Clone, Debug, PartialEq, Eq, Structural)]
pub enum NulError {
    /// The first NUL stands before the last byte, at this position.
    InteriorNul(usize),
    /// No byte is a NUL.
    NotNulTerminated,
}

/// Possible failures when a property is read as raw bytes.
#[derive(Copy, Clone, Debug, PartialEq, Eq, Structural)]
pub enum GetRawError {
    MissingOrEmpty,
    ValueMissingNul(NulError),
    Failed,
}

/// Possible failures when a property is read and parsed into a value.
#[derive(Debug)]
pub enum GetError<T> {
    MissingOrEmpty,
    ValueMissingNul(NulError),
    Utf8Error(std::str::Utf8Error),
    Failed,
    ParseError(T),
}

/// A failed write of a property, with the OS error code that was current afterwards, which the
/// write may not have set.
#[derive(Copy, Clone, Debug, PartialEq, Eq, Structural)]
pub struct SetError(pub i32);

/// The walk over all properties failed.
#[derive(Copy, Clone, Debug, PartialEq, Eq, Structural)]
pub struct ForeachError;

/// No byte of `s` is a NUL.
pub open spec fn spec_nul_free(s: Seq<u8>) -> bool {
    forall|k: int| 0 <= k < s.len() ==> s[k] != 0
}

/// `p` is the position of the first NUL in `bytes`.
pub open spec fn spec_is_first_nul(bytes: Seq<u8>, p: int) -> bool {
    0 <= p < bytes.len() && bytes[p] == 0 && spec_nul_free(bytes.take(p))
}

/// The string that `bytes` hold when they end in their only NUL, without that NUL; otherwise
/// where the first NUL stands, or that there is none.
pub open spec fn spec_from_bytes_with_nul(bytes: Seq<u8>) -> Result<Seq<u8>, NulError> {
    if exists|p: int| spec_is_first_nul(bytes, p) {
        let p = choose|p: int| spec_is_first_nul(bytes, p);
        if p == bytes.len() - 1 {
            Ok(bytes.take(p))
        } else {
            Err(NulError::InteriorNul(p as usize))
        }
    } else {
        Err(NulError::NotNulTerminated)
    }
}

/// There is at most one first NUL.
proof fn lemma_first_nul_unique(bytes: Seq<u8>, p: int, q: int)
    requires
        spec_is_first_nul(bytes, p),
        spec_is_first_nul(bytes, q),
    ensures
        p == q,
{
    if p < q {
        assert(bytes.take(q)[p] == 0);
    } else if q < p {
        assert(bytes.take(p)[q] == 0);
    }
}

/// A string read back from NUL-terminated bytes holds no NUL, and with its terminator it is
/// those bytes.
pub proof fn lemma_from_bytes_with_nul_ok(bytes: Seq<u8>)
    requires
        spec_from_bytes_with_nul(bytes) is Ok,
    ensures
        spec_nul_free(spec_from_bytes_with_nul(bytes)->Ok_0),
        spec_from_bytes_with_nul(bytes)->Ok_0.push(0u8) == bytes,
{
    let p = choose|p: int| spec_is_first_nul(bytes, p);
    assert(bytes.take(p).push(0u8) =~= bytes);
}

/// A string without NUL, written with a terminating NUL, reads back as that string.
pub proof fn lemma_nul_terminated_round_trip(s: Seq<u8>)
    requires
        spec_nul_free(s),
    ensures
        spec_from_bytes_with_nul(s.push(0u8)) == Ok::<Seq<u8>, NulError>(s),
{
    let bytes = s.push(0u8);
    assert(bytes.take(s.len() as int) =~= s);
    assert(spec_is_first_nul(bytes, s.len() as int));
    let c = choose|p: int| spec_is_first_nul(bytes, p);
    lemma_first_nul_unique(bytes, s.len() as int, c);
}

/// Finds the first NUL in `bytes`, if there is one.
pub(crate) fn find_first_nul(bytes: &[u8]) -> (r: Option<usize>)
    ensures
        match r {
            Some(p) => spec_is_first_nul(bytes@, p as int),
            None => spec_nul_free(bytes@),
        },
{
    let mut i: usize = 0;
    while i < bytes.len()
        invariant
            i <= bytes@.len(),
            spec_nul_free(bytes@.take(i as int)),
        decreases bytes@.len() - i,
    {
        if bytes[i] == 0 {
            return Some(i);
        }
        i += 1;
        assert forall|k: int| 0 <= k < i implies bytes@.take(i as int)[k] != 0 by {
            if k < i - 1 {
                assert(bytes@.take(i - 1)[k] == bytes@[k]);
            }
        }
    }
    assert(bytes@.take(i as int) =~= bytes@);
    None
}

/// Reads `bytes` as one NUL-terminated string: the string without its NUL, where the only NUL
/// is the last byte.
pub fn from_bytes_with_nul(bytes: &[u8]) -> (r: Result<Vec<u8>, NulError>)
    ensures
        match r {
            Ok(v) => spec_from_bytes_with_nul(bytes@) == Ok::<Seq<u8>, NulError>(v@),
            Err(e) => spec_from_bytes_with_nul(bytes@) == Err::<Seq<u8>, NulError>(e),
        },
{
    match find_first_nul(bytes) {
        Some(p) => {
            proof {
                let c = choose|q: int| spec_is_first_nul(bytes@, q);
                lemma_first_nul_unique(bytes@, p as int, c);
            }
            if p == bytes.len() - 1 {
                let mut out: Vec<u8> = Vec::new();
                let mut i: usize = 0;
                while i < p
                    invariant
                        i <= p < bytes@.len(),
                        out@ == bytes@.take(i as int),
                    decreases p - i,
                {
                    out.push(bytes[i]);
                    i += 1;
                    assert(out@ =~= bytes@.take(i as int));
                }
                Ok(out)
            } else {
                Err(NulError::InteriorNul(p))
            }
        },
        None => {
            assert forall|p: int| !spec_is_first_nul(bytes@, p) by {
                if 0 <= p < bytes@.len() {
                    assert(bytes@[p] != 0);
                }
            }
            Err(NulError::NotNulTerminated)
        },
    }
}

/// Reads a property name from the buffer that it was written into: the bytes before the first
/// NUL.
pub fn name_from_buffer(buffer: &[u8]) -> (r: Vec<u8>)
    requires
        exists|p: int| 0 <= p < buffer@.len() && buffer@[p] == 0,
    ensures
        exists|p: int| spec_is_first_nul(buffer@, p) && r@ == buffer@.take(p),
{
    let mut out: Vec<u8> = Vec::new();
    let mut i: usize = 0;
    while i < buffer.len() && buffer[i] != 0
        invariant
            i <= buffer@.len(),
            out@ == buffer@.take(i as int),
            spec_nul_free(buffer@.take(i as int)),
            exists|p: int| 0 <= p < buffer@.len() && buffer@[p] == 0,
        decreases buffer@.len() - i,
    {
        out.push(buffer[i]);
        i += 1;
        assert(out@ =~= buffer@.take(i as int));
        assert forall|k: int| 0 <= k < i implies buffer@.take(i as int)[k] != 0 by {
            if k < i - 1 {
                assert(buffer@.take(i - 1)[k] == buffer@[k]);
            }
        }
    }
    proof {
        if i == buffer.len() {
            let p = choose|p: int| 0 <= p < buffer@.len() && buffer@[p] == 0;
            assert(buffer@.take(i as int)[p] == 0);
        }
    }
    assert(spec_is_first_nul(buffer@, i as int));
    out
}

/// Calls `std::str::from_utf8`, which accepts exactly the byte strings that are valid UTF-8 and
/// then gives a string whose bytes are those given.
#[verifier::external_body]
fn str_from_utf8(bytes: &[u8]) -> (r: Result<&str, std::str::Utf8Error>)
    ensures
        r is Ok <==> valid_utf8(bytes@),
        r matches Ok(s) ==> s.spec_bytes() == bytes@,
{
    std::str::from_utf8(bytes)
}

/// What reading a property as raw bytes gives: `status` is what the read call returned (the
/// length of the value, 0 where it is missing or empty, -1 on failure) and `value` the buffer
/// that it wrote into. The value is the string before its NUL terminator.
pub fn process_owned(status: i32, value: &[u8]) -> (r: Result<Vec<u8>, GetRawError>)
    requires
        status >= -1,
        status >= 1 ==> status < value@.len(),
    ensures
        status == 0 ==> r == Err::<Vec<u8>, GetRawError>(GetRawError::MissingOrEmpty),
        status == -1 ==> r == Err::<Vec<u8>, GetRawError>(GetRawError::Failed),
        status >= 1 ==> match spec_from_bytes_with_nul(value@.take(status + 1)) {
            Ok(s) => r matches Ok(v) && v@ == s,
            Err(e) => r == Err::<Vec<u8>, GetRawError>(GetRawError::ValueMissingNul(e)),
        },
        r matches Ok(v) ==> spec_nul_free(v@) && v@.len() == status,
{
    if status == 0 {
        return Err(GetRawError::MissingOrEmpty);
    }
    if status == -1 {
        return Err(GetRawError::Failed);
    }
    let len = status as usize + 1;
    let bytes = &value[0..len];
    assert(bytes@ =~= value@.take(status + 1));
    match from_bytes_with_nul(bytes) {
        Ok(v) => {
            proof {
                lemma_from_bytes_with_nul_ok(bytes@);
            }
            Ok(v)
        },
        Err(e) => Err(GetRawError::ValueMissingNul(e)),
    }
}

/// What reading a property as text gives, before the text is parsed: `status` is what the read
/// call returned (the length of the value, 0 where it is missing or empty, -1 on failure) and
/// `value` the buffer that it wrote into. The text is the string before its NUL terminator,
/// which must be valid UTF-8.
pub fn process_parse<E>(status: i32, value: &[u8]) -> (r: Result<String, GetError<E>>)
    requires
        status >= -1,
        status >= 1 ==> status < value@.len(),
    ensures
        status == 0 ==> r matches Err(GetError::MissingOrEmpty),
        status == -1 ==> r matches Err(GetError::Failed),
        status >= 1 ==> match spec_from_bytes_with_nul(value@.take(status + 1)) {
            Ok(s) => if valid_utf8(s) {
                r matches Ok(text) && encode_utf8(text@) == s
            } else {
                r matches Err(GetError::Utf8Error(_))
            },
            Err(e) => r matches Err(GetError::ValueMissingNul(n)) && n == e,
        },
        r matches Ok(text) ==> spec_nul_free(encode_utf8(text@)),
{
    if status == 0 {
        return Err(GetError::MissingOrEmpty);
    }
    if status == -1 {
        return Err(GetError::Failed);
    }
    let len = status as usize + 1;
    let bytes = &value[0..len];
    assert(bytes@ =~= value@.take(status + 1));
    match from_bytes_with_nul(bytes) {
        Ok(v) => match str_from_utf8(v.as_slice()) {
            Ok(s) => {
                proof {
                    lemma_from_bytes_with_nul_ok(bytes@);
                }
                Ok(s.to_owned())
            },
            Err(e) => Err(GetError::Utf8Error(e)),
        },
        Err(e) => Err(GetError::ValueMissingNul(e)),
    }
}

/// What writing a property gives: `status` is what the write call returned (0 on success, -1
/// on failure) and `os_error` the OS error code current after it.
pub fn set_result(status: i32, os_error: i32) -> (r: Result<(), SetError>)
    requires
        status == 0 || status == -1,
    ensures
        status == 0 ==> r == Ok::<(), SetError>(()),
        status == -1 ==> r == Err::<(), SetError>(SetError(os_error)),
{
    if status == 0 {
        Ok(())
    } else {
        Err(SetError(os_error))
    }
}

/// What the walk over all properties gives: `status` is what the walk call returned (0 on
/// success, -1 on failure).
pub fn foreach_result(status: i32) -> (r: Result<(), ForeachError>)
    requires
        status == 0 || status == -1,
    ensures
        status == 0 ==> r == Ok::<(), ForeachError>(()),
        status == -1 ==> r == Err::<(), ForeachError>(ForeachError),
{
    if status == 0 {
        Ok(())
    } else {
        Err(ForeachError)
    }
}

/// The NDK's constants used here have the values that its headers give them.
pub proof fn lemma_ndk_constants()
    ensures
        PROP_VALUE_MAX == 92,
        PROP_NAME_MAX == 32,
{
}

} // verus!
