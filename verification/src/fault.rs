//! Why a call fails, and how a failure is answered to a caller across the C
//! boundary.

use vstd::prelude::*;

verus! {

/// Why a call fails.
pub enum Fault {
    /// The configuration text is a null pointer.
    NullConfig,
    /// There is no place for the running info.
    NullJson,
    /// There is no place for the error message.
    NullMsg,
    /// There is no callback to register.
    NullCallback,
    /// No instance is running.
    NoInstance,
    /// The running instance is not known to the instance manager.
    InstanceNotFound,
    /// The running instance hands out no events.
    NoSubscriber,
    /// No snapshot of the running instance has been taken yet.
    NotReady,
    /// The logger has not been initialised.
    NoLogger,
    /// The public key of the secure mode does not belong to its private key.
    KeyMismatch,
    /// An outside call failed, with this message.
    Outside(String),
}

impl Fault {
    /// The message of a failure.
    pub open spec fn text(self) -> Seq<char> {
        match self {
            Fault::NullConfig => "cfg_str is nullptr"@,
            Fault::NullJson => "json is a nullptr"@,
            Fault::NullMsg => "msg is a nullptr"@,
            Fault::NullCallback => "callback is null"@,
            Fault::NoInstance => "no running instance"@,
            Fault::InstanceNotFound => "instance not found"@,
            Fault::NoSubscriber => "no event subscriber"@,
            Fault::NotReady => "running info not ready yet"@,
            Fault::NoLogger => "logger is not initialized"@,
            Fault::KeyMismatch => "local public key does not match local private key"@,
            Fault::Outside(message) => message@,
        }
    }

    /// The message of a failure.
    pub fn message(self) -> (r: String)
        ensures
            r@ == self.text(),
    {
        match self {
            Fault::NullConfig => "cfg_str is nullptr".to_owned(),
            Fault::NullJson => "json is a nullptr".to_owned(),
            Fault::NullMsg => "msg is a nullptr".to_owned(),
            Fault::NullCallback => "callback is null".to_owned(),
            Fault::NoInstance => "no running instance".to_owned(),
            Fault::InstanceNotFound => "instance not found".to_owned(),
            Fault::NoSubscriber => "no event subscriber".to_owned(),
            Fault::NotReady => "running info not ready yet".to_owned(),
            Fault::NoLogger => "logger is not initialized".to_owned(),
            Fault::KeyMismatch => "local public key does not match local private key".to_owned(),
            Fault::Outside(message) => message,
        }
    }
}

/// What a caller across the C boundary gets.
pub struct Reply {
    /// Zero for success, minus one for a failure.
    pub code: i32,
    /// The message to hand over.
    pub message: Option<String>,
}

/// Whether a NUL character stands in the text, so that it is no C string.
pub fn has_nul(s: &str) -> (r: bool)
    ensures
        r == s@.contains('\0'),
{
    let mut found = false;
    for c in it: s.chars()
        invariant
            it.seq() == s@,
            found == exists|j: int| 0 <= j < it.index() && #[trigger] s@[j] == '\0',
    {
        if c == '\0' {
            assert(s@[it.index()] == '\0');
            found = true;
        }
    }
    found
}

/// The answer to a call. A failure hands its message over where the caller has a
/// place for it and the message can be a C string.
pub fn ret(has_place: bool, r: Result<(), Fault>) -> (reply: Reply)
    ensures
        match r {
            Ok(_) => reply.code == 0 && reply.message is None,
            Err(e) => {
                &&& reply.code == -1
                &&& reply.message is Some <==> has_place && !e.text().contains('\0')
                &&& reply.message matches Some(m) ==> m@ == e.text()
            },
        },
{
    match r {
        Ok(_) => Reply { code: 0, message: None },
        Err(e) => {
            let message = e.message();
            if has_place && !has_nul(message.as_str()) {
                Reply { code: -1, message: Some(message) }
            } else {
                Reply { code: -1, message: None }
            }
        },
    }
}

/// The message of an outside failure is handed on as it is, and each other failure
/// has a message of its own.
pub proof fn law_messages_by_failure(message: String)
    ensures
        Fault::Outside(message).text() == message@,
        Fault::NullConfig.text() == "cfg_str is nullptr"@,
        Fault::NullJson.text() == "json is a nullptr"@,
        Fault::NullMsg.text() == "msg is a nullptr"@,
        Fault::NullCallback.text() == "callback is null"@,
        Fault::NoInstance.text() == "no running instance"@,
        Fault::InstanceNotFound.text() == "instance not found"@,
        Fault::NoSubscriber.text() == "no event subscriber"@,
        Fault::NotReady.text() == "running info not ready yet"@,
        Fault::NoLogger.text() == "logger is not initialized"@,
        Fault::KeyMismatch.text() == "local public key does not match local private key"@,
{
}

/// A failure whose message the library itself words always reaches a caller who
/// has a place for it.
pub proof fn law_own_messages_are_c_strings(e: Fault)
    requires
        !(e is Outside),
    ensures
        !e.text().contains('\0'),
{
    reveal_strlit("cfg_str is nullptr");
    reveal_strlit("json is a nullptr");
    reveal_strlit("msg is a nullptr");
    reveal_strlit("callback is null");
    reveal_strlit("no running instance");
    reveal_strlit("instance not found");
    reveal_strlit("no event subscriber");
    reveal_strlit("running info not ready yet");
    reveal_strlit("logger is not initialized");
    reveal_strlit("local public key does not match local private key");
}

} // verus!
