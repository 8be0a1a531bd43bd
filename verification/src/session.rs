//! The connection state and the decisions of the four operations: the
//! existence probe, connect, the status query and the configure call. Each
//! operation is split at the platform boundary: a function here decides,
//! from the connection state and plain inputs, whether the result is already
//! known or which encoded buffer to hand to the kernel's synchronous call,
//! and a second function turns the call's outcome back into the operation's
//! result. The caller performs the call itself and feeds its result code
//! (and, for the query, the reply words) back in.

use vstd::prelude::*;

use crate::codec::{
    configure_command_words, encode_configure_command, encode_query_command, low_byte,
    query_command_words, reply_status_byte, REPLY_STATUS_WORD,
};
use crate::status::{status_of_byte, Status};

verus! {

/// Result code of the service manager meaning "this name is already
/// registered by someone else" — the sign that the target service is running.
pub const RESULT_NAME_ALREADY_REGISTERED: u32 = 0x815;

/// Length of the service's name, passed to the service manager explicitly
/// beside the bytes.
pub const SERVICE_NAME_LEN: usize = 7;

/// Session cap passed on the probe's transient registration attempt.
pub const PROBE_MAX_SESSIONS: i32 = 100;

/// The bytes of the fixed service name "hid:hdr".
pub open spec fn service_name_bytes() -> Seq<u8> {
    seq![0x68u8, 0x69u8, 0x64u8, 0x3au8, 0x68u8, 0x64u8, 0x72u8]
}

/// The fixed name under which the target service registers, as the byte
/// string handed to the service manager.
pub fn service_name() -> (name: Vec<u8>)
    ensures
        name@ == service_name_bytes(),
        name@.len() == SERVICE_NAME_LEN,
{
    let mut name: Vec<u8> = Vec::new();
    name.push(0x68);
    name.push(0x69);
    name.push(0x64);
    name.push(0x3a);
    name.push(0x68);
    name.push(0x64);
    name.push(0x72);
    proof {
        assert(name@ =~= service_name_bytes());
    }
    name
}

/// The cached channel to the service. A handle of 0 is the sentinel for
/// "unset/disconnected"; any other value means "believed connected". The
/// handle is set at most once, by a successful connect, and never cleared.
#[derive(Clone, Copy, Debug, PartialEq, Eq, Structural)]
pub struct HidConnection {
    pub handle: u32,
}

impl HidConnection {
    /// Whether a handle is cached.
    pub open spec fn is_connected(self) -> bool {
        self.handle != 0
    }

    /// A fresh, disconnected state.
    pub fn new() -> (c: Self)
        ensures
            c.handle == 0,
    {
        HidConnection { handle: 0 }
    }
}

/// What the existence probe concludes from the result code of its transient
/// registration attempt.
#[derive(Clone, Copy, Debug, PartialEq, Eq, Structural)]
pub struct ProbeOutcome {
    /// The registration unexpectedly succeeded, so the probe must unregister
    /// the name again before reporting.
    pub must_unregister: bool,
    /// The name is already taken — the service is there.
    pub exists: bool,
}

/// Judge from the probe's registration result code whether the service
/// exists. The probe tries to register the service's own name: only the code
/// "name already registered by someone else" means the service is present;
/// an unexpected success must be undone by unregistering.
pub fn does_hid_hdr_exist(register_code: u32) -> (p: ProbeOutcome)
    ensures
        p.must_unregister == (register_code == 0),
        p.exists == (register_code == RESULT_NAME_ALREADY_REGISTERED),
{
    ProbeOutcome {
        must_unregister: register_code == 0,
        exists: register_code == RESULT_NAME_ALREADY_REGISTERED,
    }
}

/// What a connect attempt does next.
#[derive(Clone, Copy, Debug, PartialEq, Eq, Structural)]
pub enum ConnectAction {
    /// A handle is already cached: report success at once, with no call.
    AlreadyConnected,
    /// No handle yet: ask the service manager for one, then finish with its
    /// result.
    RequestHandle,
}

/// The connect decision as a function of the state alone.
pub open spec fn connect_action_of(c: HidConnection) -> ConnectAction {
    if c.handle != 0 {
        ConnectAction::AlreadyConnected
    } else {
        ConnectAction::RequestHandle
    }
}

/// Head of the connect operation: with a handle already cached it is a no-op
/// reporting success; otherwise one "get handle for named service" call is
/// wanted. Never retries.
pub fn connect_to_hid_hdr(conn: &HidConnection) -> (a: ConnectAction)
    ensures
        a == connect_action_of(*conn),
        conn.handle != 0 ==> a == ConnectAction::AlreadyConnected,
        conn.handle == 0 ==> a == ConnectAction::RequestHandle,
{
    if conn.handle != 0 {
        ConnectAction::AlreadyConnected
    } else {
        ConnectAction::RequestHandle
    }
}

/// Tail of the connect operation: apply the result of the "get handle" call.
/// On code 0 the returned handle is cached and the connect succeeds; on any
/// other code the state is left unset and the connect fails.
pub fn finish_connect_to_hid_hdr(conn: &mut HidConnection, code: u32, handle: u32) -> (ok: bool)
    requires
        old(conn).handle == 0,
    ensures
        ok == (code == 0),
        code == 0 ==> final(conn).handle == handle,
        code != 0 ==> final(conn).handle == 0,
{
    if code == 0 {
        conn.handle = handle;
    }
    code == 0
}

/// Connect is idempotent: once a handle is cached, a connect attempt makes no
/// call and reports success, and since it leaves the state untouched, any
/// number of further attempts do exactly the same.
pub proof fn lemma_connect_idempotent(c: HidConnection)
    requires
        c.is_connected(),
    ensures
        connect_action_of(c) == ConnectAction::AlreadyConnected,
{
}

/// What the status query does next.
#[derive(Debug)]
pub enum QueryAction {
    /// The result is already known; no call is made.
    Finish(Result<Status, u32>),
    /// Issue the synchronous call on the cached handle with this encoded
    /// buffer, then finish with the call's result code and reply words.
    IssueCall(Vec<u32>),
}

/// Head of the status query. Gates first on the two installed artifacts: if
/// either is absent the patch cannot be active, and the query short-circuits
/// to `NotPresentOnSD` whatever the handle holds. Next on the handle: unset
/// means `NotConnected`, again without a call. Only a connected state with
/// the artifacts present issues the call, with the exact query command.
pub fn get_hid_hdr_status(artifacts_present: bool, conn: &HidConnection) -> (a: QueryAction)
    ensures
        !artifacts_present ==> a == QueryAction::Finish(Ok(Status::NotPresentOnSD)),
        artifacts_present && conn.handle == 0 ==> a == QueryAction::Finish(
            Ok(Status::NotConnected),
        ),
        artifacts_present && conn.handle != 0 ==> (a matches QueryAction::IssueCall(buf)
            && buf@ == query_command_words()),
{
    if !artifacts_present {
        QueryAction::Finish(Ok(Status::NotPresentOnSD))
    } else if conn.handle == 0 {
        QueryAction::Finish(Ok(Status::NotConnected))
    } else {
        QueryAction::IssueCall(encode_query_command())
    }
}

/// Tail of the status query: interpret the synchronous call's outcome. A
/// non-zero result code is a call-level failure, surfaced unchanged as the
/// error without reading the reply. On code 0 the reply byte at the fixed
/// offset is decoded into a `Status`.
pub fn finish_hid_hdr_status(code: u32, reply: &Vec<u32>) -> (r: Result<Status, u32>)
    requires
        reply@.len() > REPLY_STATUS_WORD,
    ensures
        code != 0 ==> r == Err::<Status, u32>(code),
        code == 0 ==> r == Ok::<Status, u32>(
            status_of_byte(low_byte(reply@[REPLY_STATUS_WORD as int])),
        ),
{
    if code != 0 {
        return Err(code);
    }
    let b = reply_status_byte(reply);
    Ok(Status::from(b))
}

/// What the configure operation does next.
#[derive(Debug)]
pub enum ConfigureAction {
    /// The result is already known; no call is made.
    Finish(Result<bool, u32>),
    /// Issue the synchronous call on the cached handle with this encoded
    /// buffer, then finish with the call's result code.
    IssueCall(Vec<u32>),
}

/// Head of the configure operation. With the handle unset there is nothing to
/// do and the operation reports `Ok(false)` — not an error. Otherwise it
/// issues the call with the exact configure command carrying the requested
/// setting.
pub fn configure_stick_gate_changes(conn: &HidConnection, enable: bool) -> (a: ConfigureAction)
    ensures
        conn.handle == 0 ==> a == ConfigureAction::Finish(Ok(false)),
        conn.handle != 0 ==> (a matches ConfigureAction::IssueCall(buf) && buf@
            == configure_command_words(enable)),
{
    if conn.handle == 0 {
        ConfigureAction::Finish(Ok(false))
    } else {
        ConfigureAction::IssueCall(encode_configure_command(enable))
    }
}

/// Tail of the configure operation: the reply payload is never inspected;
/// success is inferred from the call's return path alone. Code 0 yields
/// `Ok(true)`, any other code is surfaced unchanged as the error.
pub fn finish_configure_stick_gate_changes(code: u32) -> (r: Result<bool, u32>)
    ensures
        code == 0 ==> r == Ok::<bool, u32>(true),
        code != 0 ==> r == Err::<bool, u32>(code),
{
    if code == 0 {
        Ok(true)
    } else {
        Err(code)
    }
}

/// First absolute path whose presence gates the status query: the installed
/// service patch's main program metadata.
pub fn artifact_npdm_path() -> (p: &'static str)
    ensures
        p@ == "sd:/atmosphere/contents/0100000000000013/exefs/main.npdm"@,
{
    "sd:/atmosphere/contents/0100000000000013/exefs/main.npdm"
}

/// Second absolute path whose presence gates the status query: the installed
/// service patch's runtime loader stub.
pub fn artifact_rtld_path() -> (p: &'static str)
    ensures
        p@ == "sd:/atmosphere/contents/0100000000000013/exefs/rtld"@,
{
    "sd:/atmosphere/contents/0100000000000013/exefs/rtld"
}

} // verus!

