//! Choosing the backend executable, building its command line, and reading
//! back what it produced.
use vstd::prelude::*;
use vstd::utf8::{decode_utf8, encode_utf8, encode_utf8_decode_utf8, encode_utf8_valid_utf8, valid_utf8};
use crate::clock::{next_stamp, RequestClock};
use crate::error::BridgeError;
use crate::payload::{payload_text, ReqType};

verus! {

/// The operating-system family the backend was built for.
#[derive(Clone, Copy, Debug, PartialEq, Eq, Structural)]
pub enum OsFamily {
    Windows,
    Unix,
}

/// File name of the backend executable for `family`.
pub open spec fn backend_file_name_of(family: OsFamily) -> Seq<char> {
    match family {
        OsFamily::Windows => "ppb_backend_win.exe"@,
        OsFamily::Unix => "ppb_backend_linux.bin"@,
    }
}

/// The directories, from the project's user directory down, that hold the
/// backend executable.
pub open spec fn backend_dir_parts_of() -> Seq<Seq<char>> {
    seq!["addons"@, "ppb_backend"@]
}

/// The arguments the backend is started with.
pub open spec fn backend_args_of(payload: Seq<char>) -> Seq<Seq<char>> {
    seq!["server"@, "--server-text-arg"@, payload]
}

pub fn backend_file_name(family: OsFamily) -> (r: String)
    ensures
        r@ == backend_file_name_of(family),
{
    match family {
        OsFamily::Windows => String::from_str("ppb_backend_win.exe"),
        OsFamily::Unix => String::from_str("ppb_backend_linux.bin"),
    }
}

pub fn backend_dir_parts() -> (r: Vec<String>)
    ensures
        r.deep_view() == backend_dir_parts_of(),
{
    let r = vec![String::from_str("addons"), String::from_str("ppb_backend")];
    assert(r.deep_view() =~= backend_dir_parts_of());
    r
}

pub fn backend_args(payload: String) -> (r: Vec<String>)
    ensures
        r.deep_view() == backend_args_of(payload@),
{
    let r = vec![String::from_str("server"), String::from_str("--server-text-arg"), payload];
    assert(r.deep_view() =~= backend_args_of(payload@));
    r
}

/// Everything needed to start one backend call.
#[derive(Clone, Debug)]
pub struct BackendCall {
    pub request: ReqType,
    /// File name of the executable inside the backend directory.
    pub file_name: String,
    pub args: Vec<String>,
}

/// Prepares a backend call for `actions`, made when the wall clock reads
/// `now`, on a system of `family`. The request is stamped by `clock`.
pub fn text_io(clock: &mut RequestClock, actions: Vec<String>, now: u64, family: OsFamily) -> (r:
    BackendCall)
    ensures
        r.request.actions@ == actions@,
        r.request.timestamp == next_stamp(old(clock).last_issued, now),
        final(clock).last_issued == r.request.timestamp,
        r.file_name@ == backend_file_name_of(family),
        r.args.deep_view() == backend_args_of(payload_text(actions.deep_view(), r.request.timestamp)),
{
    let timestamp = clock.stamp(now);
    let request = ReqType::new(actions, timestamp);
    let payload = request.to_backend_server_text();
    assert(request.actions.deep_view() =~= actions.deep_view());
    let args = backend_args(payload);
    BackendCall { request, file_name: backend_file_name(family), args }
}

/// What running the backend gave.
#[derive(Clone, Debug)]
pub enum ProcessOutcome {
    /// The process could not be started, for the reason given.
    SpawnFailed { cause: String },
    /// The process ran to its end; `code` is `None` when it reported none.
    Exited { code: Option<i32>, stdout: Vec<u8>, stderr: Vec<u8> },
}

/// The text that `String::from_utf8_lossy` makes of `bytes`.
pub uninterp spec fn lossy_text(bytes: Seq<u8>) -> Seq<char>;

/// Relies on `String::from_utf8_lossy`: valid UTF-8 is decoded as it stands;
/// otherwise each invalid sequence becomes U+FFFD.
#[verifier::external_body]
fn decode_lossy(bytes: &Vec<u8>) -> (r: String)
    ensures
        r@ == lossy_text(bytes@),
        valid_utf8(bytes@) ==> r@ == decode_utf8(bytes@),
{
    String::from_utf8_lossy(bytes.as_slice()).into_owned()
}

/// Decides the result of a backend that exited with `code`, given its output
/// already decoded: the standard output on status zero, otherwise the
/// failure with the standard error.
pub fn classify_exit(code: Option<i32>, stdout: String, stderr: String) -> (r: Result<
    String,
    BridgeError,
>)
    ensures
        code == Some(0i32) ==> r == Ok::<String, BridgeError>(stdout),
        code != Some(0i32) ==> (r matches Err(BridgeError::NonZeroExit { code: c, stderr: e })
            && c == code && e == stderr),
{
    match code {
        Some(0) => Ok(stdout),
        _ => Err(BridgeError::NonZeroExit { code, stderr }),
    }
}

/// The result of a backend call from what running the process gave: its
/// standard output as text when it exited with status zero.
pub fn finish_text_io(outcome: ProcessOutcome) -> (r: Result<String, BridgeError>)
    ensures
        outcome matches ProcessOutcome::SpawnFailed { cause } ==> (r matches Err(
            BridgeError::SpawnFailed { cause: c },
        ) && c == cause),
        outcome matches ProcessOutcome::Exited { code, stdout, stderr } ==> {
            &&& code == Some(0i32) ==> (r matches Ok(text) && text@ == lossy_text(stdout@))
            &&& code != Some(0i32) ==> (r matches Err(BridgeError::NonZeroExit { code: c, stderr: e })
                && c == code && e@ == lossy_text(stderr@))
            &&& (code == Some(0i32) && valid_utf8(stdout@)) ==> (r matches Ok(text) && text@
                == decode_utf8(stdout@))
            &&& (code != Some(0i32) && valid_utf8(stderr@)) ==> (r matches Err(
                BridgeError::NonZeroExit { stderr: e, .. },
            ) && e@ == decode_utf8(stderr@))
        },
{
    match outcome {
        ProcessOutcome::SpawnFailed { cause } => Err(BridgeError::SpawnFailed { cause }),
        ProcessOutcome::Exited { code, stdout, stderr } => {
            let out_text = decode_lossy(&stdout);
            let err_text = decode_lossy(&stderr);
            classify_exit(code, out_text, err_text)
        },
    }
}

/// Whichever family the backend is built for, its executable bears exactly
/// one of the two known names, and the two differ.
pub proof fn lemma_backend_name_by_family(family: OsFamily)
    ensures
        backend_file_name_of(family) == "ppb_backend_win.exe"@ <==> family == OsFamily::Windows,
        backend_file_name_of(family) == "ppb_backend_linux.bin"@ <==> family == OsFamily::Unix,
{
    reveal_strlit("ppb_backend_win.exe");
    reveal_strlit("ppb_backend_linux.bin");
    assert("ppb_backend_win.exe"@[12] != "ppb_backend_linux.bin"@[12]);
}

/// A backend that writes the payload's UTF-8 bytes back unchanged gives
/// output that is valid UTF-8 and decodes to exactly the payload, so the
/// call's result is the payload itself.
pub proof fn lemma_echoed_payload(actions: Seq<Seq<char>>, timestamp: u64)
    ensures
        valid_utf8(encode_utf8(payload_text(actions, timestamp))),
        decode_utf8(encode_utf8(payload_text(actions, timestamp))) == payload_text(actions, timestamp),
{
    encode_utf8_valid_utf8(payload_text(actions, timestamp));
    encode_utf8_decode_utf8(payload_text(actions, timestamp));
}

} // verus!
