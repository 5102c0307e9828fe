//! The steps of setting the file logger up and of clearing its file.

use vstd::prelude::*;

use crate::fault::Fault;

verus! {

/// What has happened in a call that sets the logger up.
pub enum InitEvent {
    /// The logger was looked for, and is there or not.
    LookedFor(Result<bool, String>),
    /// The log file was created.
    Created(Result<(), String>),
    /// The collector that writes to the file was installed for the process.
    Installed(Result<(), String>),
    /// The file was kept as the logger's.
    Kept(Result<(), String>),
}

/// What a call that sets the logger up does next.
pub enum InitAction {
    CreateFile,
    InstallCollector,
    KeepFile,
    Done,
}

/// What follows each event of a call that sets the logger up.
pub open spec fn init_next(event: InitEvent) -> Result<InitAction, Fault> {
    match event {
        InitEvent::LookedFor(Ok(there)) => if there {
            Ok(InitAction::Done)
        } else {
            Ok(InitAction::CreateFile)
        },
        InitEvent::Created(Ok(_)) => Ok(InitAction::InstallCollector),
        InitEvent::Installed(Ok(_)) => Ok(InitAction::KeepFile),
        InitEvent::Kept(Ok(_)) => Ok(InitAction::Done),
        InitEvent::LookedFor(Err(e)) => Err(Fault::Outside(e)),
        InitEvent::Created(Err(e)) => Err(Fault::Outside(e)),
        InitEvent::Installed(Err(e)) => Err(Fault::Outside(e)),
        InitEvent::Kept(Err(e)) => Err(Fault::Outside(e)),
    }
}

/// What a call that sets the logger up does after `event`, or how it fails.
pub fn init_logger(event: InitEvent) -> (r: Result<InitAction, Fault>)
    ensures
        r == init_next(event),
{
    match event {
        InitEvent::LookedFor(Ok(there)) => if there {
            Ok(InitAction::Done)
        } else {
            Ok(InitAction::CreateFile)
        },
        InitEvent::Created(Ok(_)) => Ok(InitAction::InstallCollector),
        InitEvent::Installed(Ok(_)) => Ok(InitAction::KeepFile),
        InitEvent::Kept(Ok(_)) => Ok(InitAction::Done),
        InitEvent::LookedFor(Err(e)) => Err(Fault::Outside(e)),
        InitEvent::Created(Err(e)) => Err(Fault::Outside(e)),
        InitEvent::Installed(Err(e)) => Err(Fault::Outside(e)),
        InitEvent::Kept(Err(e)) => Err(Fault::Outside(e)),
    }
}

/// What has happened in a call that clears the log file.
pub enum ClearEvent {
    /// The logger was looked for, and is there or not.
    LookedFor(Result<bool, String>),
    /// The log file was locked.
    Locked(Result<(), String>),
    /// The log file was cut to no length.
    Truncated(Result<(), String>),
    /// The log file was set to its start.
    Rewound(Result<(), String>),
    /// The log file was flushed.
    Flushed(Result<(), String>),
}

/// What a call that clears the log file does next.
pub enum ClearAction {
    LockFile,
    Truncate,
    Rewind,
    Flush,
    Done,
}

/// What follows each event of a call that clears the log file.
pub open spec fn clear_next(event: ClearEvent) -> Result<ClearAction, Fault> {
    match event {
        ClearEvent::LookedFor(Ok(there)) => if there {
            Ok(ClearAction::LockFile)
        } else {
            Err(Fault::NoLogger)
        },
        ClearEvent::Locked(Ok(_)) => Ok(ClearAction::Truncate),
        ClearEvent::Truncated(Ok(_)) => Ok(ClearAction::Rewind),
        ClearEvent::Rewound(Ok(_)) => Ok(ClearAction::Flush),
        ClearEvent::Flushed(Ok(_)) => Ok(ClearAction::Done),
        ClearEvent::LookedFor(Err(e)) => Err(Fault::Outside(e)),
        ClearEvent::Locked(Err(e)) => Err(Fault::Outside(e)),
        ClearEvent::Truncated(Err(e)) => Err(Fault::Outside(e)),
        ClearEvent::Rewound(Err(e)) => Err(Fault::Outside(e)),
        ClearEvent::Flushed(Err(e)) => Err(Fault::Outside(e)),
    }
}

/// What a call that clears the log file does after `event`, or how it fails.
pub fn clear_logger(event: ClearEvent) -> (r: Result<ClearAction, Fault>)
    ensures
        r == clear_next(event),
{
    match event {
        ClearEvent::LookedFor(Ok(there)) => if there {
            Ok(ClearAction::LockFile)
        } else {
            Err(Fault::NoLogger)
        },
        ClearEvent::Locked(Ok(_)) => Ok(ClearAction::Truncate),
        ClearEvent::Truncated(Ok(_)) => Ok(ClearAction::Rewind),
        ClearEvent::Rewound(Ok(_)) => Ok(ClearAction::Flush),
        ClearEvent::Flushed(Ok(_)) => Ok(ClearAction::Done),
        ClearEvent::LookedFor(Err(e)) => Err(Fault::Outside(e)),
        ClearEvent::Locked(Err(e)) => Err(Fault::Outside(e)),
        ClearEvent::Truncated(Err(e)) => Err(Fault::Outside(e)),
        ClearEvent::Rewound(Err(e)) => Err(Fault::Outside(e)),
        ClearEvent::Flushed(Err(e)) => Err(Fault::Outside(e)),
    }
}

/// What comes of each step of a call that sets the logger up.
pub struct InitOutcomes {
    pub there: Result<bool, String>,
    pub created: Result<(), String>,
    pub installed: Result<(), String>,
    pub kept: Result<(), String>,
}

impl InitOutcomes {
    /// The event that ends a step; none ends the call.
    pub open spec fn after(self, action: InitAction) -> Option<InitEvent> {
        match action {
            InitAction::CreateFile => Some(InitEvent::Created(self.created)),
            InitAction::InstallCollector => Some(InitEvent::Installed(self.installed)),
            InitAction::KeepFile => Some(InitEvent::Kept(self.kept)),
            InitAction::Done => None,
        }
    }

    /// How a call ends that has come to `event` and goes on step by step.
    pub open spec fn end_from(self, event: InitEvent) -> Result<(), Fault>
        decreases
                (match event {
                    InitEvent::LookedFor(_) => 3nat,
                    InitEvent::Created(_) => 2nat,
                    InitEvent::Installed(_) => 1nat,
                    InitEvent::Kept(_) => 0nat,
                }),
    {
        match init_next(event) {
            Ok(action) => match self.after(action) {
                Some(next) => self.end_from(next),
                None => Ok(()),
            },
            Err(e) => Err(e),
        }
    }

    /// How a call ends.
    pub open spec fn end(self) -> Result<(), Fault> {
        self.end_from(InitEvent::LookedFor(self.there))
    }
}

/// A logger that is there is left alone, and the call ends well. Where there is
/// none, the call ends well if and only if each step does, and fails as the first
/// step that does not.
pub proof fn law_logger_is_set_up_once(o: InitOutcomes)
    ensures
        init_next(InitEvent::LookedFor(Ok(true))) == Ok::<InitAction, Fault>(InitAction::Done),
        match (o.there, o.created, o.installed, o.kept) {
            (Err(e), _, _, _) => o.end() == Err::<(), Fault>(Fault::Outside(e)),
            (Ok(true), _, _, _) => o.end() is Ok,
            (Ok(false), Err(e), _, _) => o.end() == Err::<(), Fault>(Fault::Outside(e)),
            (Ok(false), Ok(_), Err(e), _) => o.end() == Err::<(), Fault>(Fault::Outside(e)),
            (Ok(false), Ok(_), Ok(_), Err(e)) => o.end() == Err::<(), Fault>(Fault::Outside(e)),
            (Ok(false), Ok(_), Ok(_), Ok(_)) => o.end() is Ok,
        },
{
    reveal_with_fuel(InitOutcomes::end_from, 4);
}

/// A call that sets the logger up goes step by step: it creates a file only where
/// there is no logger, installs a collector only once the file is there, and keeps the
/// file only once the collector is installed.
pub proof fn law_setting_up_goes_in_order(event: InitEvent)
    ensures
        init_next(event) == Ok::<InitAction, Fault>(InitAction::CreateFile) <==> event
            == InitEvent::LookedFor(Ok(false)),
        init_next(event) == Ok::<InitAction, Fault>(InitAction::InstallCollector) <==> (
        event matches InitEvent::Created(Ok(_))),
        init_next(event) == Ok::<InitAction, Fault>(InitAction::KeepFile) <==> (event matches
            InitEvent::Installed(Ok(_))),
        init_next(event) == Ok::<InitAction, Fault>(InitAction::Done) <==> (event matches
            InitEvent::Kept(Ok(_))) || event == InitEvent::LookedFor(Ok(true)),
{
}

/// What comes of each step of a call that clears the log file.
pub struct ClearOutcomes {
    pub there: Result<bool, String>,
    pub locked: Result<(), String>,
    pub truncated: Result<(), String>,
    pub rewound: Result<(), String>,
    pub flushed: Result<(), String>,
}

impl ClearOutcomes {
    /// The event that ends a step; none ends the call.
    pub open spec fn after(self, action: ClearAction) -> Option<ClearEvent> {
        match action {
            ClearAction::LockFile => Some(ClearEvent::Locked(self.locked)),
            ClearAction::Truncate => Some(ClearEvent::Truncated(self.truncated)),
            ClearAction::Rewind => Some(ClearEvent::Rewound(self.rewound)),
            ClearAction::Flush => Some(ClearEvent::Flushed(self.flushed)),
            ClearAction::Done => None,
        }
    }

    /// How a call ends that has come to `event` and goes on step by step.
    pub open spec fn end_from(self, event: ClearEvent) -> Result<(), Fault>
        decreases
                (match event {
                    ClearEvent::LookedFor(_) => 4nat,
                    ClearEvent::Locked(_) => 3nat,
                    ClearEvent::Truncated(_) => 2nat,
                    ClearEvent::Rewound(_) => 1nat,
                    ClearEvent::Flushed(_) => 0nat,
                }),
    {
        match clear_next(event) {
            Ok(action) => match self.after(action) {
                Some(next) => self.end_from(next),
                None => Ok(()),
            },
            Err(e) => Err(e),
        }
    }

    /// How a call ends.
    pub open spec fn end(self) -> Result<(), Fault> {
        self.end_from(ClearEvent::LookedFor(self.there))
    }
}

/// Without a logger nothing is cleared. With one, the call ends well if and only if
/// its file was locked, truncated, rewound and flushed, and fails as the first of
/// these that was not.
pub proof fn law_clearing_is_complete(o: ClearOutcomes)
    ensures
        match (o.there, o.locked, o.truncated, o.rewound, o.flushed) {
            (Err(e), _, _, _, _) => o.end() == Err::<(), Fault>(Fault::Outside(e)),
            (Ok(false), _, _, _, _) => o.end() == Err::<(), Fault>(Fault::NoLogger),
            (Ok(true), Err(e), _, _, _) => o.end() == Err::<(), Fault>(Fault::Outside(e)),
            (Ok(true), Ok(_), Err(e), _, _) => o.end() == Err::<(), Fault>(Fault::Outside(e)),
            (Ok(true), Ok(_), Ok(_), Err(e), _) => o.end() == Err::<(), Fault>(Fault::Outside(e)),
            (Ok(true), Ok(_), Ok(_), Ok(_), Err(e)) => o.end() == Err::<(), Fault>(
                Fault::Outside(e),
            ),
            (Ok(true), Ok(_), Ok(_), Ok(_), Ok(_)) => o.end() is Ok,
        },
{
    reveal_with_fuel(ClearOutcomes::end_from, 5);
}

/// A call that clears the log file goes step by step: it locks the file of a logger
/// that is there, then cuts it, then sets it to its start, then flushes it.
pub proof fn law_clearing_goes_in_order(event: ClearEvent)
    ensures
        clear_next(event) == Ok::<ClearAction, Fault>(ClearAction::LockFile) <==> event
            == ClearEvent::LookedFor(Ok(true)),
        clear_next(event) == Ok::<ClearAction, Fault>(ClearAction::Truncate) <==> (event matches
            ClearEvent::Locked(Ok(_))),
        clear_next(event) == Ok::<ClearAction, Fault>(ClearAction::Rewind) <==> (event matches
            ClearEvent::Truncated(Ok(_))),
        clear_next(event) == Ok::<ClearAction, Fault>(ClearAction::Flush) <==> (event matches
            ClearEvent::Rewound(Ok(_))),
        clear_next(event) == Ok::<ClearAction, Fault>(ClearAction::Done) <==> (event matches
            ClearEvent::Flushed(Ok(_))),
{
}

} // verus!
