//! Errors, and the check that turns a VPI status into a result.
use crate::sys::{VPIStatus, VPIStatus_VPI_SUCCESS};
use vstd::prelude::*;
use vstd::utf8::{decode_utf8, valid_utf8};

verus! {

/// What `String::from_utf8_lossy` makes of a byte sequence.
pub uninterp spec fn utf8_lossy(bytes: Seq<u8>) -> Seq<char>;

/// Calls `String::from_utf8_lossy` and takes ownership of the text.
/// Claimed: the text is `utf8_lossy` of the bytes, and, as std documents,
/// bytes that are valid UTF-8 are decoded unchanged. What the replacement of
/// invalid sequences looks like is left unsaid.
#[verifier::external_body]
fn string_from_utf8_lossy(bytes: &[u8]) -> (s: String)
    ensures
        s@ == utf8_lossy(bytes@),
        valid_utf8(bytes@) ==> s@ == decode_utf8(bytes@),
{
    String::from_utf8_lossy(bytes).into_owned()
}

/// Index of the first NUL byte at or after `i`, or the length of `buf` when
/// there is none.
pub open spec fn nul_index_from(buf: Seq<u8>, i: int) -> int
    decreases buf.len() - i,
{
    if i >= buf.len() {
        buf.len() as int
    } else if buf[i] == 0 {
        i
    } else {
        nul_index_from(buf, i + 1)
    }
}

/// The bytes of a NUL-terminated C string held in `buf`: everything before
/// the first NUL, or the whole buffer when it holds none.
pub open spec fn c_str_bytes(buf: Seq<u8>) -> Seq<u8> {
    buf.take(nul_index_from(buf, 0))
}

/// Length of the C string held in `buf`.
pub fn c_str_len(buf: &[u8]) -> (n: usize)
    ensures
        n == nul_index_from(buf@, 0),
        n <= buf@.len(),
        forall|j: int| 0 <= j < n ==> buf@[j] != 0,
        n < buf@.len() ==> buf@[n as int] == 0,
{
    let mut i: usize = 0;
    while i < buf.len()
        invariant
            i <= buf@.len(),
            nul_index_from(buf@, 0) == nul_index_from(buf@, i as int),
            forall|j: int| 0 <= j < i ==> buf@[j] != 0,
        ensures
            i <= buf@.len(),
            nul_index_from(buf@, 0) == nul_index_from(buf@, i as int),
            forall|j: int| 0 <= j < i ==> buf@[j] != 0,
            i == buf@.len() || buf@[i as int] == 0,
        decreases buf@.len() - i,
    {
        if buf[i] == 0 {
            break;
        }
        i = i + 1;
    }
    assert(nul_index_from(buf@, i as int) == i);
    i
}

/// Copies the first `n` bytes of `buf`.
fn prefix_bytes(buf: &[u8], n: usize) -> (r: Vec<u8>)
    requires
        n <= buf@.len(),
    ensures
        r@ == buf@.take(n as int),
{
    let mut r: Vec<u8> = Vec::new();
    let mut i: usize = 0;
    while i < n
        invariant
            i <= n <= buf@.len(),
            r@ == buf@.take(i as int),
        decreases n - i,
    {
        r.push(buf[i]);
        i = i + 1;
        assert(r@ =~= buf@.take(i as int));
    }
    r
}

/// Text of the C string held in `buf`, with invalid UTF-8 replaced.
pub fn c_str_text(buf: &[u8]) -> (s: String)
    ensures
        s@ == utf8_lossy(c_str_bytes(buf@)),
        valid_utf8(c_str_bytes(buf@)) ==> s@ == decode_utf8(c_str_bytes(buf@)),
{
    let n = c_str_len(buf);
    let bytes = prefix_bytes(buf, n);
    string_from_utf8_lossy(bytes.as_slice())
}

/// The name given to a status that the library cannot name.
pub open spec fn unknown_status_name() -> Seq<char> {
    seq!['U', 'n', 'k', 'n', 'o', 'w', 'n']
}

/// An error status reported by a VPI call, with its name and the library's
/// message for it.
#[derive(Debug)]
pub struct VpiSysError {
    status: VPIStatus,
    name: String,
    message: String,
}

impl VpiSysError {
    pub closed spec fn spec_status(&self) -> VPIStatus {
        self.status
    }

    pub closed spec fn spec_name(&self) -> Seq<char> {
        self.name@
    }

    pub closed spec fn spec_message(&self) -> Seq<char> {
        self.message@
    }

    /// Builds the error for `status` from the library's description of it:
    /// the bytes of its name (`None` where the library has no name for it)
    /// and the buffer that received its NUL-terminated message.
    pub fn from_status_text(status: VPIStatus, name: Option<&[u8]>, message_buffer: &[u8]) -> (r:
        VpiSysError)
        ensures
            r.spec_status() == status,
            r.spec_name() == (match name {
                None => unknown_status_name(),
                Some(n) => utf8_lossy(n@),
            }),
            r.spec_message() == utf8_lossy(c_str_bytes(message_buffer@)),
    {
        let name = match name {
            None => {
                let s = "Unknown";
                proof {
                    reveal_strlit("Unknown");
                }
                let r = s.to_owned();
                assert(r@ =~= unknown_status_name());
                r
            },
            Some(n) => string_from_utf8_lossy(n),
        };
        let message = c_str_text(message_buffer);
        VpiSysError { status, name, message }
    }

    /// The status code.
    pub fn status(&self) -> (r: VPIStatus)
        ensures
            r == self.spec_status(),
    {
        self.status
    }

    /// The library's name for the status.
    pub fn name(&self) -> (r: &str)
        ensures
            r@ == self.spec_name(),
    {
        self.name.as_str()
    }

    /// The library's message for the status.
    pub fn message(&self) -> (r: &str)
        ensures
            r@ == self.spec_message(),
    {
        self.message.as_str()
    }
}

/// Errors of the library: a status reported by VPI, or an argument that the
/// library itself refused.
#[derive(Debug)]
pub enum VpiError {
    Sys(VpiSysError),
    App(&'static str),
}

impl From<VpiSysError> for VpiError {
    fn from(e: VpiSysError) -> (r: VpiError) {
        VpiError::Sys(e)
    }
}

impl vstd::std_specs::convert::FromSpecImpl<VpiSysError> for VpiError {
    open spec fn obeys_from_spec() -> bool {
        true
    }

    open spec fn from_spec(e: VpiSysError) -> VpiError {
        VpiError::Sys(e)
    }
}

pub type VpiResult<T> = Result<T, VpiError>;

/// Turns a status into a result: `Ok` for success, otherwise the error that
/// `describe` builds for the status.
pub fn check<F: FnOnce(VPIStatus) -> VpiSysError>(status: VPIStatus, describe: F) -> (r: VpiResult<
    ()>)
    requires
        status != VPIStatus_VPI_SUCCESS ==> describe.requires((status,)),
    ensures
        r is Ok <==> status == VPIStatus_VPI_SUCCESS,
        r matches Err(e) ==> (e matches VpiError::Sys(s) && describe.ensures((status,), s)),
{
    if status == VPIStatus_VPI_SUCCESS {
        Ok(())
    } else {
        Err(VpiError::Sys(describe(status)))
    }
}

} // verus!
