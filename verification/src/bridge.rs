//! The vendor-library bridge.
//!
//! One shell command calls a single exported function of a vendor-supplied
//! native library. The library is looked for at a fixed, ordered list of
//! candidate paths and loaded afresh on every call; the input string is
//! marshalled as a null-terminated byte sequence, and the returned
//! null-terminated bytes are validated as UTF-8 and copied out. Loading
//! and the raw call live in the platform layer; every decision around
//! them — which path to try next, when to give up, how to encode the
//! input and decode the result, which error to surface — is verified
//! here.

use vstd::prelude::*;
use vstd::string::StrSliceExecFns;
use vstd::string::StringSliceAdditionalSpecFns;
use vstd::utf8::decode_utf8;
use vstd::utf8::encode_utf8_decode_utf8;
use vstd::utf8::valid_utf8;

verus! {

/// The ways the bridge surfaces failure to its caller. Every failure is
/// returned as a value, never retried and never fatal.
#[derive(Clone, Copy, Debug, PartialEq, Eq, Structural)]
pub enum BridgeError {
    /// No candidate path held a loadable library.
    LibraryNotFound,
    /// The library lacks the expected exported function.
    SymbolNotFound,
    /// The input string holds an embedded null byte and cannot be
    /// marshalled as a null-terminated string.
    InvalidInputEncoding,
    /// The library call returned a null pointer.
    NullResult,
    /// The bytes the library returned are not valid UTF-8.
    InvalidUtf8Result,
}

impl BridgeError {
    /// The descriptive text surfaced for this failure. The
    /// library-not-found text lists every candidate path that was
    /// attempted, so the front end sees where the library was looked for.
    pub open spec fn spec_message(self) -> Seq<char> {
        match self {
            BridgeError::LibraryNotFound => "Failed to load CQ.Asktao.dll from all attempted paths: [\"resources/win-x64/CQ.Asktao.dll\", \"CQ.Asktao.dll\", \"../resources/win-x64/CQ.Asktao.dll\"]"@,
            BridgeError::SymbolNotFound => "Failed to load get_shop_name function"@,
            BridgeError::InvalidInputEncoding => "Failed to create CString from input: embedded null byte"@,
            BridgeError::NullResult => "DLL function returned null pointer"@,
            BridgeError::InvalidUtf8Result => "Failed to convert result to UTF-8 string"@,
        }
    }

    /// Renders the descriptive error text.
    pub fn message(&self) -> (r: String)
        ensures
            r@ == self.spec_message(),
    {
        match self {
            BridgeError::LibraryNotFound => "Failed to load CQ.Asktao.dll from all attempted paths: [\"resources/win-x64/CQ.Asktao.dll\", \"CQ.Asktao.dll\", \"../resources/win-x64/CQ.Asktao.dll\"]".to_owned(),
            BridgeError::SymbolNotFound => "Failed to load get_shop_name function".to_owned(),
            BridgeError::InvalidInputEncoding => "Failed to create CString from input: embedded null byte".to_owned(),
            BridgeError::NullResult => "DLL function returned null pointer".to_owned(),
            BridgeError::InvalidUtf8Result => "Failed to convert result to UTF-8 string".to_owned(),
        }
    }
}

/// How many candidate paths the loader may attempt.
pub const CANDIDATE_PATH_COUNT: usize = 3;

/// The candidate library paths, in the order the loader attempts them.
pub open spec fn spec_candidate_path(i: int) -> Seq<char> {
    if i == 0 {
        "resources/win-x64/CQ.Asktao.dll"@
    } else if i == 1 {
        "CQ.Asktao.dll"@
    } else {
        "../resources/win-x64/CQ.Asktao.dll"@
    }
}

/// What the loader does next: attempt one more candidate path, or give up.
pub enum LoadStep {
    /// Try to load the library from this path.
    Attempt(&'static str),
    /// Every candidate failed: surface this error.
    GiveUp(BridgeError),
}

/// The loader's next move after `tried` candidates failed to load: the
/// candidate at that position of the declared order, or, once all of them
/// failed, the library-not-found error.
pub fn load_step(tried: usize) -> (r: LoadStep)
    ensures
        tried < CANDIDATE_PATH_COUNT ==> (r matches LoadStep::Attempt(p) && p@
            == spec_candidate_path(tried as int)),
        tried >= CANDIDATE_PATH_COUNT ==> (r matches LoadStep::GiveUp(e) && e
            == BridgeError::LibraryNotFound),
{
    if tried == 0 {
        LoadStep::Attempt("resources/win-x64/CQ.Asktao.dll")
    } else if tried == 1 {
        LoadStep::Attempt("CQ.Asktao.dll")
    } else if tried == 2 {
        LoadStep::Attempt("../resources/win-x64/CQ.Asktao.dll")
    } else {
        LoadStep::GiveUp(BridgeError::LibraryNotFound)
    }
}

/// The name of the exported function the bridge resolves and calls.
pub fn symbol_name() -> (r: &'static str)
    ensures
        r@ == "get_shop_name"@,
{
    "get_shop_name"
}

/// The outcome of a driver that follows `load_step` starting after `tried`
/// failures, over the loadability of the three candidates: the index of
/// the first loadable candidate not yet tried, if any.
pub open spec fn spec_loader_outcome(loadable: Seq<bool>, tried: int) -> Option<int>
    decreases CANDIDATE_PATH_COUNT - tried,
{
    if tried < 0 || tried >= CANDIDATE_PATH_COUNT {
        None
    } else if loadable[tried] {
        Some(tried)
    } else {
        spec_loader_outcome(loadable, tried + 1)
    }
}

/// Law: the loader tries the candidate paths in their declared order and
/// succeeds on the first loadable one. Driving `load_step` from the start
/// settles on the first index whose candidate loads — every earlier
/// candidate failed — and gives up exactly when no candidate loads.
pub proof fn lemma_loader_first_success(loadable: Seq<bool>)
    requires
        loadable.len() == CANDIDATE_PATH_COUNT,
    ensures
        match spec_loader_outcome(loadable, 0) {
            Some(i) => 0 <= i < CANDIDATE_PATH_COUNT && loadable[i] && (forall|j: int|
                0 <= j < i ==> !loadable[j]),
            None => forall|j: int| 0 <= j < CANDIDATE_PATH_COUNT ==> !loadable[j],
        },
{
    reveal_with_fuel(spec_loader_outcome, 5);
}

/// The bytes handed to the native call for `input`: its UTF-8 encoding
/// with a terminating null byte appended. Fails, with the encoding error
/// and without panicking, exactly when the encoding holds an embedded
/// null byte.
pub fn encode_c_input(input: &str) -> (r: Result<Vec<u8>, BridgeError>)
    ensures
        r is Ok <==> !input.spec_bytes().contains(0u8),
        r matches Ok(b) ==> b@ == input.spec_bytes().push(0u8),
        r matches Err(e) ==> e == BridgeError::InvalidInputEncoding,
{
    let bytes = input.as_bytes_vec();
    let mut i: usize = 0;
    while i < bytes.len()
        invariant
            i <= bytes@.len(),
            bytes@ == input.spec_bytes(),
            forall|j: int| 0 <= j < i ==> bytes@[j] != 0u8,
        decreases bytes@.len() - i,
    {
        if bytes[i] == 0 {
            return Err(BridgeError::InvalidInputEncoding);
        }
        i += 1;
    }
    assert(!input.spec_bytes().contains(0u8)) by {
        assert(forall|j: int| 0 <= j < input.spec_bytes().len() ==> input.spec_bytes()[j] != 0u8);
    }
    let mut out = bytes;
    out.push(0);
    Ok(out)
}

/// What the native call handed back: a null pointer, or the bytes of the
/// returned string up to (not including) its terminating null byte.
#[derive(Debug)]
pub enum CallResult {
    /// The call returned a null pointer.
    NullPointer,
    /// The call returned a string with these bytes.
    Bytes(Vec<u8>),
}

/// Relies on core::str::from_utf8: succeeds exactly when the bytes are
/// valid UTF-8, and then returns the string whose UTF-8 encoding the
/// bytes are.
#[verifier::external_body]
fn bytes_to_str(b: &[u8]) -> (r: Option<&str>)
    ensures
        r is Some <==> valid_utf8(b@),
        r matches Some(s) ==> s.spec_bytes() == b@,
{
    core::str::from_utf8(b).ok()
}

/// Decodes what the native call handed back. A null pointer always
/// surfaces as the null-result error — the platform layer never
/// dereferences it — and returned bytes become an owned string exactly
/// when they are valid UTF-8, else the UTF-8 error.
pub fn decode_call_result(res: CallResult) -> (out: Result<String, BridgeError>)
    ensures
        res is NullPointer ==> out == Err::<String, BridgeError>(BridgeError::NullResult),
        res matches CallResult::Bytes(b) ==> (valid_utf8(b@) ==> (out matches Ok(s) && s@
            == decode_utf8(b@))),
        res matches CallResult::Bytes(b) ==> (!valid_utf8(b@) ==> out == Err::<
            String,
            BridgeError,
        >(BridgeError::InvalidUtf8Result)),
{
    match res {
        CallResult::NullPointer => Err(BridgeError::NullResult),
        CallResult::Bytes(b) => match bytes_to_str(b.as_slice()) {
            Some(s) => {
                proof {
                    broadcast use encode_utf8_decode_utf8;
                }
                Ok(s.to_owned())
            },
            None => Err(BridgeError::InvalidUtf8Result),
        },
    }
}

} // verus!
