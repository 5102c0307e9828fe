//! The running instance and the latest snapshot of its running info.
//!
//! Both are shared, each under a lock of its own. A function here takes what came of
//! locking them: what stood under the lock, or the message of the failure. The
//! latest snapshot is kept together with the instance that it is of. It stays when
//! another instance is recorded, until one of that is fetched, but an error that it
//! tells of is not told for another instance than its own.

use vstd::prelude::*;

use uuid::Uuid;

use crate::dense;
use crate::fault::Fault;
use crate::json;
use crate::json::Json;
use crate::running_info;

verus! {

/// The identity of an instance.
#[verifier::external_type_specification]
#[verifier::external_body]
pub struct ExUuid(uuid::Uuid);

/// `PartialEq` of `Uuid`: two identities are the same if and only if they are equal.
/// The type has one field, its bytes, and derives the comparison.
#[verifier::external_body]
fn same_instance(a: Uuid, b: Uuid) -> (r: bool)
    ensures
        r == (a == b),
{
    a == b
}

/// How many milliseconds lie between two ticks of the background task.
pub const REFRESH_INTERVAL_MS: u64 = 1000;

/// How many seconds a call that stops an instance waits for the deletion at most. A
/// runtime that is wedged must not hang the caller.
pub const DELETE_TIMEOUT_SECS: u64 = 3;

/// The text of a snapshot with every dropped field put back.
pub struct Snapshot {
    text: String,
}

impl View for Snapshot {
    type V = Seq<char>;

    closed spec fn view(&self) -> Seq<char> {
        self.text@
    }
}

/// A text that some snapshot's text was densified to.
pub open spec fn is_densified(text: Seq<char>) -> bool {
    exists|raw: Seq<char>| #[trigger] running_info::densifies_to(raw, text)
}

/// A densified text lacks no field: whatever it parses as is complete. And where it
/// parses, it is a C string.
pub proof fn law_densified_lacks_nothing(text: Seq<char>)
    requires
        is_densified(text),
    ensures
        json::parsed(text) matches Some(t) ==> dense::complete_running_info(t),
        json::parsed(text) is Some ==> !text.contains('\0'),
{
    let raw = choose|raw: Seq<char>| #[trigger] running_info::densifies_to(raw, text);
    running_info::law_densified_is_complete(raw, text);
}

impl Snapshot {
    #[verifier::type_invariant]
    spec fn well_formed(self) -> bool {
        is_densified(self@)
    }

    /// The snapshot that the instance manager wrote as `raw`.
    pub fn new(raw: &str) -> (s: Snapshot)
        ensures
            running_info::densifies_to(raw@, s@),
    {
        let text = running_info::densify_running_info(raw);
        Snapshot { text }
    }

    /// The text to hand out.
    pub fn text(&self) -> (r: String)
        ensures
            r@ == self@,
            is_densified(r@),
    {
        proof {
            use_type_invariant(self);
        }
        self.text.clone()
    }
}

/// The latest snapshot, and the instance that it is of.
pub struct Kept {
    pub instance: Uuid,
    pub snapshot: Snapshot,
}

/// The text of the snapshot that is kept, if one is.
pub open spec fn text_of(info: Option<Kept>) -> Option<Seq<char>> {
    match info {
        Some(kept) => Some(kept.snapshot@),
        None => None,
    }
}

/// The instance that calls are about: the running one.
pub open spec fn instance_of(current: Result<Option<Uuid>, String>) -> Result<Uuid, Fault> {
    match current {
        Ok(Some(uuid)) => Ok(uuid),
        Ok(None) => Err(Fault::NoInstance),
        Err(e) => Err(Fault::Outside(e)),
    }
}

/// The instance that calls are about: the running one.
pub fn current_uuid(current: Result<Option<Uuid>, String>) -> (r: Result<Uuid, Fault>)
    ensures
        r == instance_of(current),
        match current {
            Ok(Some(uuid)) => r == Ok::<Uuid, Fault>(uuid),
            Ok(None) => r == Err::<Uuid, Fault>(Fault::NoInstance),
            Err(e) => r == Err::<Uuid, Fault>(Fault::Outside(e)),
        },
{
    match current {
        Ok(Some(uuid)) => Ok(uuid),
        Ok(None) => Err(Fault::NoInstance),
        Err(e) => Err(Fault::Outside(e)),
    }
}

/// A tunnel device to attach to an instance.
pub struct AttachTun {
    pub instance: Uuid,
    pub fd: i32,
}

/// Which instance a tunnel device goes to: the running one.
pub fn set_tun_fd(current: Result<Option<Uuid>, String>, fd: i32) -> (r: Result<AttachTun, Fault>)
    ensures
        match instance_of(current) {
            Ok(uuid) => r == Ok::<AttachTun, Fault>(AttachTun { instance: uuid, fd }),
            Err(e) => r == Err::<AttachTun, Fault>(e),
        },
{
    match current_uuid(current) {
        Ok(uuid) => Ok(AttachTun { instance: uuid, fd }),
        Err(e) => Err(e),
    }
}

/// What has happened in a call that starts an instance.
pub enum RunEvent {
    /// The call came, with a configuration text or without.
    Called { cfg_is_null: bool },
    /// The configuration was prepared.
    Prepared(Result<(), Fault>),
    /// The instance manager started the instance.
    Started(Result<Uuid, String>),
    /// The instance was recorded as the running one.
    Recorded(Result<(), Fault>),
}

/// What a call that starts an instance does next.
pub enum RunAction {
    PrepareConfig,
    StartInstance,
    RecordInstance(Uuid),
    StartRefresher,
}

/// What follows each event of a call that starts an instance.
pub open spec fn run_next(event: RunEvent) -> Result<RunAction, Fault> {
    match event {
        RunEvent::Called { cfg_is_null } => if cfg_is_null {
            Err(Fault::NullConfig)
        } else {
            Ok(RunAction::PrepareConfig)
        },
        RunEvent::Prepared(Ok(_)) => Ok(RunAction::StartInstance),
        RunEvent::Prepared(Err(e)) => Err(e),
        RunEvent::Started(Ok(uuid)) => Ok(RunAction::RecordInstance(uuid)),
        RunEvent::Started(Err(e)) => Err(Fault::Outside(e)),
        RunEvent::Recorded(Ok(_)) => Ok(RunAction::StartRefresher),
        RunEvent::Recorded(Err(e)) => Err(e),
    }
}

/// What a call that starts an instance does after `event`, or how it fails.
pub fn run_network_instance(event: RunEvent) -> (r: Result<RunAction, Fault>)
    ensures
        r == run_next(event),
{
    match event {
        RunEvent::Called { cfg_is_null } => if cfg_is_null {
            Err(Fault::NullConfig)
        } else {
            Ok(RunAction::PrepareConfig)
        },
        RunEvent::Prepared(Ok(_)) => Ok(RunAction::StartInstance),
        RunEvent::Prepared(Err(e)) => Err(e),
        RunEvent::Started(Ok(uuid)) => Ok(RunAction::RecordInstance(uuid)),
        RunEvent::Started(Err(e)) => Err(Fault::Outside(e)),
        RunEvent::Recorded(Ok(_)) => Ok(RunAction::StartRefresher),
        RunEvent::Recorded(Err(e)) => Err(e),
    }
}

/// Records a started instance as the running one, in place of an earlier one.
pub fn record_instance(current: Result<&mut Option<Uuid>, String>, uuid: Uuid) -> (r: Result<
    (),
    Fault,
>)
    ensures
        match current {
            Ok(c) => r == Ok::<(), Fault>(()) && *final(c) == Some(uuid),
            Err(e) => r == Err::<(), Fault>(Fault::Outside(e)),
        },
        current matches Ok(c) ==> forall|kept: Option<Kept>|
            (Held { current: *final(c), kept }) == #[trigger] (Held { current: *c, kept }).after(
                Step::Record(uuid),
            ),
{
    match current {
        Ok(c) => {
            *c = Some(uuid);
            Ok(())
        },
        Err(e) => Err(Fault::Outside(e)),
    }
}

/// How a call that stops the running instance ends.
pub struct Stop {
    /// What the call returns.
    pub code: i32,
    /// The instance to delete before it returns.
    pub delete: Option<Uuid>,
}

/// Forgets the running instance and its snapshot. Where it cannot be told which
/// instance runs, nothing is done; where only the snapshot cannot be reached, the
/// instance is stopped all the same.
pub fn stop_network_instance(
    current: Result<&mut Option<Uuid>, String>,
    info: Result<&mut Option<Kept>, String>,
) -> (r: Stop)
    ensures
        match current {
            Ok(c) => {
                &&& r.code == 0
                &&& r.delete == *c
                &&& *final(c) is None
            },
            Err(_) => r.code == -1 && r.delete is None,
        },
        info matches Ok(i) ==> *final(i) == if current is Ok {
            None
        } else {
            *i
        },
        current matches Ok(c) ==> (info matches Ok(i) ==> (Held {
            current: *final(c),
            kept: *final(i),
        }) == (Held { current: *c, kept: *i }).after(Step::Stop)),
{
    match current {
        Ok(c) => {
            let delete = *c;
            *c = None;
            match info {
                Ok(i) => {
                    *i = None;
                },
                Err(_) => {},
            }
            Stop { code: 0, delete }
        },
        Err(_) => Stop { code: -1, delete: None },
    }
}

/// What has happened in the background task that takes snapshots.
pub enum RefreshEvent {
    /// It is time for the next snapshot, of the instance that runs.
    Tick(Result<Option<Uuid>, String>),
    /// The instance manager was asked for the running info of an instance, and wrote
    /// some or none.
    Fetched { asked: Uuid, snapshot: Option<Snapshot> },
}

/// What the background task does next.
pub enum RefreshAction {
    /// Wait for the next tick.
    Wait,
    /// Ask the instance manager for the running info of this instance.
    Fetch(Uuid),
}

impl RefreshEvent {
    /// What is kept after the event. A tick without a running instance forgets it; a
    /// snapshot that was fetched replaces it.
    pub open spec fn updates(self, info: Option<Kept>) -> Option<Kept> {
        match self {
            RefreshEvent::Tick(current) => if instance_of(current) is Ok {
                info
            } else {
                None
            },
            RefreshEvent::Fetched { asked, snapshot: Some(snapshot) } => Some(
                Kept { instance: asked, snapshot },
            ),
            RefreshEvent::Fetched { snapshot: None, .. } => info,
        }
    }

    /// What the background task does after the event.
    pub open spec fn leads_to(self) -> RefreshAction {
        match self {
            RefreshEvent::Tick(Ok(Some(uuid))) => RefreshAction::Fetch(uuid),
            _ => RefreshAction::Wait,
        }
    }
}

/// Takes an event of the background task to the snapshot that is kept, and says
/// what the task does next.
pub fn refresh(info: Result<&mut Option<Kept>, String>, event: RefreshEvent) -> (r: RefreshAction)
    ensures
        r == event.leads_to(),
        info matches Ok(i) ==> *final(i) == event.updates(*i),
{
    match info {
        Ok(i) => match event {
            RefreshEvent::Tick(current) => match current_uuid(current) {
                Ok(uuid) => RefreshAction::Fetch(uuid),
                Err(_) => {
                    *i = None;
                    RefreshAction::Wait
                },
            },
            RefreshEvent::Fetched { asked, snapshot: Some(snapshot) } => {
                *i = Some(Kept { instance: asked, snapshot });
                RefreshAction::Wait
            },
            RefreshEvent::Fetched { snapshot: None, .. } => RefreshAction::Wait,
        },
        Err(_) => match event {
            RefreshEvent::Tick(Ok(Some(uuid))) => RefreshAction::Fetch(uuid),
            _ => RefreshAction::Wait,
        },
    }
}

/// How a call for the running info ends.
pub struct InfoReply {
    /// Whether the background task is to run from now on.
    pub start_refresher: bool,
    /// The text to hand out.
    pub info: Result<String, Fault>,
}

/// What a call for the running info is answered: the snapshot that is kept, while
/// an instance runs.
pub open spec fn info_of(
    json_is_null: bool,
    current: Result<Option<Uuid>, String>,
    info: Result<Option<Seq<char>>, String>,
) -> Result<Seq<char>, Fault> {
    if json_is_null {
        Err(Fault::NullJson)
    } else {
        match (instance_of(current), info) {
            (Err(e), _) => Err(e),
            (Ok(_), Err(e)) => Err(Fault::Outside(e)),
            (Ok(_), Ok(None)) => Err(Fault::NotReady),
            (Ok(_), Ok(Some(text))) => Ok(text),
        }
    }
}

/// The text that came of locking the snapshot that is kept.
pub open spec fn locked_text(info: Result<&Option<Kept>, String>) -> Result<
    Option<Seq<char>>,
    String,
> {
    match info {
        Ok(i) => Ok(text_of(*i)),
        Err(e) => Err(e),
    }
}

/// Reads the running info. The background task is started as soon as a running
/// instance is asked for. No field is missing from what the text that is handed out
/// parses as.
pub fn get_running_info(
    json_is_null: bool,
    current: Result<Option<Uuid>, String>,
    info: Result<&Option<Kept>, String>,
) -> (r: InfoReply)
    ensures
        r.start_refresher == (!json_is_null && instance_of(current) is Ok),
        json_is_null ==> r.info == Err::<String, Fault>(Fault::NullJson),
        !json_is_null ==> match (current, info) {
            (Err(e), _) => r.info == Err::<String, Fault>(Fault::Outside(e)),
            (Ok(None), _) => r.info == Err::<String, Fault>(Fault::NoInstance),
            (Ok(Some(_)), Err(e)) => r.info == Err::<String, Fault>(Fault::Outside(e)),
            (Ok(Some(_)), Ok(None)) => r.info == Err::<String, Fault>(Fault::NotReady),
            (Ok(Some(_)), Ok(Some(kept))) => r.info is Ok && r.info->Ok_0@ == kept.snapshot@,
        },
        match r.info {
            Ok(text) => {
                &&& info_of(json_is_null, current, locked_text(info)) == Ok::<Seq<char>, Fault>(
                    text@,
                )
                &&& is_densified(text@)
                &&& json::parsed(text@) matches Some(t) ==> dense::complete_running_info(t)
                &&& json::parsed(text@) is Some ==> !text@.contains('\0')
            },
            Err(e) => info_of(json_is_null, current, locked_text(info)) == Err::<Seq<char>, Fault>(
                e,
            ),
        },
{
    if json_is_null {
        return InfoReply { start_refresher: false, info: Err(Fault::NullJson) };
    }
    if let Err(e) = current_uuid(current) {
        return InfoReply { start_refresher: false, info: Err(e) };
    }
    let info = match info {
        Ok(Some(kept)) => {
            let text = kept.snapshot.text();
            proof {
                law_densified_lacks_nothing(text@);
            }
            Ok(text)
        },
        Ok(None) => Err(Fault::NotReady),
        Err(e) => Err(Fault::Outside(e)),
    };
    InfoReply { start_refresher: true, info }
}

/// The snapshot that an error is told of: the one that is kept, unless it is of
/// another instance than the running one.
pub open spec fn snapshot_of_running(
    current: Result<Option<Uuid>, String>,
    info: Option<Kept>,
) -> Option<Seq<char>> {
    match info {
        Some(kept) => if current is Ok && current->Ok_0 != Some(kept.instance) {
            None
        } else {
            Some(kept.snapshot@)
        },
        None => None,
    }
}

/// The text of the snapshot that an error is told of, if there is one; none where it
/// cannot be reached. Where it cannot be told which instance runs, it is the one that
/// is kept.
pub fn latest_snapshot(
    current: Result<Option<Uuid>, String>,
    info: Result<&Option<Kept>, String>,
) -> (r: Option<String>)
    ensures
        r.deep_view() == match info {
            Ok(i) => snapshot_of_running(current, *i),
            Err(_) => None,
        },
        r matches Some(text) ==> is_densified(text@),
        r is Some <==> {
            &&& info matches Ok(Some(_))
            &&& current matches Ok(c) ==> c == Some(info->Ok_0->0.instance)
        },
        r matches Some(text) ==> text@ == info->Ok_0->0.snapshot@,
{
    match info {
        Ok(Some(kept)) => match current {
            Ok(Some(uuid)) => if same_instance(uuid, kept.instance) {
                Some(kept.snapshot.text())
            } else {
                None
            },
            Ok(None) => None,
            Err(_) => Some(kept.snapshot.text()),
        },
        Ok(None) => None,
        Err(_) => None,
    }
}

/// The error that a snapshot tells of, if there is a snapshot and it tells of one.
pub open spec fn error_of(snapshot: Option<Seq<char>>) -> Option<Seq<char>> {
    match snapshot {
        Some(text) => running_info::told_error_in(text),
        None => None,
    }
}

/// Reads the error message out of the latest snapshot; there may be none.
pub fn get_latest_error_msg(msg_is_null: bool, snapshot: Option<String>) -> (r: Result<
    Option<String>,
    Fault,
>)
    ensures
        match r {
            Ok(msg) => !msg_is_null && msg.deep_view() == error_of(snapshot.deep_view()),
            Err(e) => msg_is_null && e == Fault::NullMsg,
        },
{
    if msg_is_null {
        return Err(Fault::NullMsg);
    }
    match snapshot {
        Some(text) => Ok(running_info::latest_error(text.as_str())),
        None => Ok(None),
    }
}

/// A call that starts an instance goes step by step: it prepares the
/// configuration only where there is a text, starts an instance only where the
/// preparation succeeded, records exactly the instance that was started, and
/// starts the background task only once that is recorded.
pub proof fn law_run_goes_in_order(event: RunEvent, uuid: Uuid)
    ensures
        run_next(event) == Ok::<RunAction, Fault>(RunAction::PrepareConfig) <==> event
            == (RunEvent::Called { cfg_is_null: false }),
        run_next(event) == Ok::<RunAction, Fault>(RunAction::StartInstance) <==> (event matches
            RunEvent::Prepared(Ok(_))),
        run_next(event) == Ok::<RunAction, Fault>(RunAction::RecordInstance(uuid)) <==> event
            == RunEvent::Started(Ok(uuid)),
        run_next(event) == Ok::<RunAction, Fault>(RunAction::StartRefresher) <==> (event matches
            RunEvent::Recorded(Ok(_))),
{
}

/// What comes of each step of a call that starts an instance.
pub struct RunOutcomes {
    pub cfg_is_null: bool,
    pub prepared: Result<(), Fault>,
    pub started: Result<Uuid, String>,
    pub recorded: Result<(), Fault>,
}

impl RunOutcomes {
    /// The event that ends a step; none ends the last one.
    pub open spec fn after(self, action: RunAction) -> Option<RunEvent> {
        match action {
            RunAction::PrepareConfig => Some(RunEvent::Prepared(self.prepared)),
            RunAction::StartInstance => Some(RunEvent::Started(self.started)),
            RunAction::RecordInstance(_) => Some(RunEvent::Recorded(self.recorded)),
            RunAction::StartRefresher => None,
        }
    }

    /// How a call ends that has come to `event` and goes on step by step.
    pub open spec fn end_from(self, event: RunEvent) -> Result<(), Fault>
        decreases
                (match event {
                    RunEvent::Called { .. } => 3nat,
                    RunEvent::Prepared(_) => 2nat,
                    RunEvent::Started(_) => 1nat,
                    RunEvent::Recorded(_) => 0nat,
                }),
    {
        match run_next(event) {
            Ok(action) => match self.after(action) {
                Some(next) => self.end_from(next),
                None => Ok(()),
            },
            Err(e) => Err(e),
        }
    }

    /// How a call ends.
    pub open spec fn end(self) -> Result<(), Fault> {
        self.end_from(RunEvent::Called { cfg_is_null: self.cfg_is_null })
    }
}

/// A call that starts an instance ends well if and only if each of its steps does,
/// and fails as the first step that does not.
pub proof fn law_run_ends_as_its_steps(o: RunOutcomes)
    ensures
        o.cfg_is_null ==> o.end() == Err::<(), Fault>(Fault::NullConfig),
        !o.cfg_is_null ==> match (o.prepared, o.started, o.recorded) {
            (Err(e), _, _) => o.end() == Err::<(), Fault>(e),
            (Ok(_), Err(e), _) => o.end() == Err::<(), Fault>(Fault::Outside(e)),
            (Ok(_), Ok(_), Err(e)) => o.end() == Err::<(), Fault>(e),
            (Ok(_), Ok(_), Ok(_)) => o.end() is Ok,
        },
{
    reveal_with_fuel(RunOutcomes::end_from, 4);
}

/// Calls are about the instance that runs; without one, and where it cannot be read,
/// they fail so.
pub proof fn law_calls_are_about_the_running_instance(uuid: Uuid, e: String)
    ensures
        instance_of(Ok(Some(uuid))) == Ok::<Uuid, Fault>(uuid),
        instance_of(Ok(None)) == Err::<Uuid, Fault>(Fault::NoInstance),
        instance_of(Err(e)) == Err::<Uuid, Fault>(Fault::Outside(e)),
{
}

/// Whenever there is a place for it, an instance runs, and a snapshot is kept that can
/// be reached, the running info that is handed out is exactly the text of the kept
/// snapshot, whatever that holds. It is not ready only where no snapshot is kept.
pub proof fn law_kept_snapshot_is_handed_out(uuid: Uuid, kept: Kept, e: String)
    ensures
        info_of(false, Ok(Some(uuid)), locked_text(Ok(&Some(kept)))) == Ok::<Seq<char>, Fault>(
            kept.snapshot@,
        ),
        info_of(false, Ok(Some(uuid)), locked_text(Ok(&None))) == Err::<Seq<char>, Fault>(
            Fault::NotReady,
        ),
        info_of(false, Ok(Some(uuid)), locked_text(Err(e))) == Err::<Seq<char>, Fault>(
            Fault::Outside(e),
        ),
        text_of(Some(kept)) == Some(kept.snapshot@),
        text_of(None) is None,
{
}

/// Without a place, or without a running instance, no running info is handed out,
/// whatever is kept.
pub proof fn law_running_info_needs_a_place_and_an_instance(
    current: Result<Option<Uuid>, String>,
    info: Result<Option<Seq<char>>, String>,
    e: String,
)
    ensures
        info_of(true, current, info) == Err::<Seq<char>, Fault>(Fault::NullJson),
        info_of(false, Ok(None), info) == Err::<Seq<char>, Fault>(Fault::NoInstance),
        info_of(false, Err(e), info) == Err::<Seq<char>, Fault>(Fault::Outside(e)),
{
}

/// The error `m` is told if and only if a snapshot is kept that is not known to be of
/// another instance than the running one, its text parses as an object, and that has
/// the text `m` as its member `error_msg`, whatever other members it has.
pub proof fn law_error_is_told_for_what_it_is(
    current: Result<Option<Uuid>, String>,
    info: Option<Kept>,
    m: Seq<char>,
)
    ensures
        error_of(snapshot_of_running(current, info)) == Some(m) <==> {
            &&& info matches Some(kept)
            &&& current is Err || current->Ok_0 == Some(kept.instance)
            &&& json::parsed(kept.snapshot@) matches Some(Json::Object(o))
            &&& o.contains_key("error_msg"@)
            &&& o["error_msg"@] == Json::Text(m)
        },
{
    if let Some(kept) = info {
        running_info::law_told_error_by_member(kept.snapshot@, m);
    }
}

/// What the background task keeps and does, event by event: a tick asks for the
/// running instance and keeps what is kept; one without an instance, or where it cannot
/// be read, forgets it; a snapshot that was fetched replaces it, whatever it is of; and
/// a fetch that brings none changes nothing.
pub proof fn law_refresh_by_event(
    info: Option<Kept>,
    uuid: Uuid,
    e: String,
    snapshot: Snapshot,
)
    ensures
        RefreshEvent::Tick(Ok(Some(uuid))).updates(info) == info,
        RefreshEvent::Tick(Ok(Some(uuid))).leads_to() == RefreshAction::Fetch(uuid),
        RefreshEvent::Tick(Ok(None)).updates(info) is None,
        RefreshEvent::Tick(Ok(None)).leads_to() == RefreshAction::Wait,
        RefreshEvent::Tick(Err(e)).updates(info) is None,
        RefreshEvent::Tick(Err(e)).leads_to() == RefreshAction::Wait,
        (RefreshEvent::Fetched { asked: uuid, snapshot: Some(snapshot) }).updates(info) == Some(
            Kept { instance: uuid, snapshot },
        ),
        (RefreshEvent::Fetched { asked: uuid, snapshot: None }).updates(info) == info,
        (RefreshEvent::Fetched { asked: uuid, snapshot: Some(snapshot) }).leads_to()
            == RefreshAction::Wait,
        (RefreshEvent::Fetched { asked: uuid, snapshot: None }).leads_to() == RefreshAction::Wait,
{
}

/// Once an instance is recorded, calls are about it and snapshots are taken of it.
pub proof fn law_recorded_instance_is_current(uuid: Uuid)
    ensures
        instance_of(Ok(Some(uuid))) == Ok::<Uuid, Fault>(uuid),
        RefreshEvent::Tick(Ok(Some(uuid))).leads_to() == RefreshAction::Fetch(uuid),
{
}

/// What is shared: the running instance, and the snapshot that is kept.
pub struct Held {
    pub current: Option<Uuid>,
    pub kept: Option<Kept>,
}

/// What happens to what is shared.
pub enum Step {
    /// An instance is recorded.
    Record(Uuid),
    /// The running instance is stopped.
    Stop,
    /// It is time for the next snapshot.
    Tick,
    /// The running info of an instance was asked for.
    Fetch { asked: Uuid, snapshot: Option<Snapshot> },
}

impl Held {
    /// Nothing runs and nothing is kept.
    pub open spec fn nothing() -> Held {
        Held { current: None, kept: None }
    }

    /// What is shared after one step.
    pub open spec fn after(self, step: Step) -> Held {
        match step {
            Step::Record(uuid) => Held { current: Some(uuid), kept: self.kept },
            Step::Stop => Held::nothing(),
            Step::Tick => Held {
                current: self.current,
                kept: RefreshEvent::Tick(Ok(self.current)).updates(self.kept),
            },
            Step::Fetch { asked, snapshot } => Held {
                current: self.current,
                kept: (RefreshEvent::Fetched { asked, snapshot }).updates(self.kept),
            },
        }
    }

    /// What is shared after the steps, one after the other.
    pub open spec fn after_all(self, steps: Seq<Step>) -> Held
        decreases steps.len(),
    {
        if steps.len() == 0 {
            self
        } else {
            self.after_all(steps.drop_last()).after(steps.last())
        }
    }

    /// The running info that is handed out.
    pub open spec fn info(self) -> Result<Seq<char>, Fault> {
        info_of(false, Ok(self.current), Ok(text_of(self.kept)))
    }

    /// The error that is told.
    pub open spec fn error(self) -> Option<Seq<char>> {
        error_of(snapshot_of_running(Ok(self.current), self.kept))
    }
}

/// The step brings a snapshot, of whichever instance.
pub open spec fn brings_snapshot(step: Step) -> bool {
    step matches Step::Fetch { snapshot: Some(_), .. }
}

/// The step brings a snapshot of the instance.
pub open spec fn brings_snapshot_of(step: Step, uuid: Uuid) -> bool {
    step matches Step::Fetch { asked, snapshot: Some(_) } && asked == uuid
}

/// The step `i` brought what is kept; since then no other snapshot came in, and
/// nothing was stopped.
pub open spec fn brought_by(steps: Seq<Step>, i: int, kept: Kept) -> bool {
    &&& 0 <= i < steps.len()
    &&& steps[i] == (Step::Fetch { asked: kept.instance, snapshot: Some(kept.snapshot) })
    &&& forall|j: int|
        i < j < steps.len() ==> !brings_snapshot(#[trigger] steps[j]) && !(steps[j] is Stop)
}

/// Whatever happened, what is kept is the snapshot that came in last, under the
/// instance that it was asked of.
pub proof fn law_kept_came_in_last(steps: Seq<Step>)
    ensures
        Held::nothing().after_all(steps).kept matches Some(kept) ==> exists|i: int|
            brought_by(steps, i, kept),
    decreases steps.len(),
{
    if let Some(kept) = Held::nothing().after_all(steps).kept {
        let before = steps.drop_last();
        let last: int = steps.len() - 1;
        law_kept_came_in_last(before);
        assert(steps[last] == steps.last());
        if brings_snapshot(steps.last()) {
            assert(brought_by(steps, last, kept));
        } else {
            let i = choose|i: int| brought_by(before, i, kept);
            assert(steps[i] == before[i]);
            assert forall|j: int| i < j < steps.len() implies !brings_snapshot(#[trigger] steps[j])
                && !(steps[j] is Stop) by {
                if j < last {
                    assert(steps[j] == before[j]);
                }
            }
            assert(brought_by(steps, i, kept));
        }
    }
}

/// Whatever happened, an error that is told is told by a snapshot of the running
/// instance, and by the one that came in last.
pub proof fn law_told_error_is_of_the_running_instance(steps: Seq<Step>)
    ensures
        Held::nothing().after_all(steps).error() matches Some(error) ==> {
            let now = Held::nothing().after_all(steps);
            &&& now.kept is Some
            &&& now.current == Some(now.kept->0.instance)
            &&& running_info::told_error_in(now.kept->0.snapshot@) == Some(error)
            &&& exists|i: int| brought_by(steps, i, now.kept->0)
        },
{
    law_kept_came_in_last(steps);
}

/// Once an instance is recorded of which no snapshot is kept, and until one comes in,
/// no error is told, whatever an earlier instance had and whatever still comes in of
/// it.
pub proof fn law_new_instance_tells_no_error(before: Held, uuid: Uuid, later: Seq<Step>)
    requires
        before.kept matches Some(kept) ==> kept.instance != uuid,
        forall|i: int|
            0 <= i < later.len() ==> !((#[trigger] later[i]) is Record) && !brings_snapshot_of(
                later[i],
                uuid,
            ),
    ensures
        ({
            let now = before.after(Step::Record(uuid)).after_all(later);
            &&& now.error() is None
            &&& now.kept matches Some(kept) ==> kept.instance != uuid
            &&& now.current == Some(uuid) || now.current is None
        }),
    decreases later.len(),
{
    if later.len() > 0 {
        law_new_instance_tells_no_error(before, uuid, later.drop_last());
        assert(later.last() == later[later.len() - 1]);
    }
}

/// While an instance runs, the running info is the snapshot that came in last:
/// neither ticks, nor fetches that bring none, nor another instance that is recorded
/// change it.
pub proof fn law_last_snapshot_is_handed_out(before: Held, kept: Kept, later: Seq<Step>)
    requires
        before.current is Some,
        forall|i: int|
            0 <= i < later.len() ==> !brings_snapshot(#[trigger] later[i]) && !(later[i] is Stop),
    ensures
        ({
            let fetch = Step::Fetch { asked: kept.instance, snapshot: Some(kept.snapshot) };
            let now = before.after(fetch).after_all(later);
            &&& now.current is Some
            &&& now.kept == Some(kept)
            &&& now.info() == Ok::<Seq<char>, Fault>(kept.snapshot@)
        }),
    decreases later.len(),
{
    if later.len() > 0 {
        law_last_snapshot_is_handed_out(before, kept, later.drop_last());
        assert(later.last() == later[later.len() - 1]);
    }
}

/// Once the instance is stopped, and until another is recorded, no call finds one and
/// no error is told, whatever snapshot may still come in late; the next tick forgets
/// that snapshot.
pub proof fn law_stopped_is_forgotten(before: Held, later: Seq<Step>)
    requires
        forall|i: int| 0 <= i < later.len() ==> !((#[trigger] later[i]) is Record),
    ensures
        before.after(Step::Stop) == Held::nothing(),
        ({
            let now = before.after(Step::Stop).after_all(later);
            &&& instance_of(Ok(now.current)) == Err::<Uuid, Fault>(Fault::NoInstance)
            &&& now.info() == Err::<Seq<char>, Fault>(Fault::NoInstance)
            &&& now.error() is None
            &&& now.after(Step::Tick) == Held::nothing()
            &&& RefreshEvent::Tick(Ok(now.current)).leads_to() == RefreshAction::Wait
        }),
    decreases later.len(),
{
    if later.len() > 0 {
        law_stopped_is_forgotten(before, later.drop_last());
        assert(later.last() == later[later.len() - 1]);
    }
}

/// The error that a fetched snapshot of the running instance tells of is the one
/// that the instance manager wrote, where no float of that is 1e308 or more.
pub proof fn law_fetched_error_is_told(before: Held, uuid: Uuid, raw: Seq<char>, snapshot: Snapshot)
    requires
        before.current == Some(uuid),
        running_info::densifies_to(raw, snapshot@),
        running_info::has_floats(raw, json::moderate_float()),
    ensures
        before.after(Step::Fetch { asked: uuid, snapshot: Some(snapshot) }).error()
            == running_info::told_error_in(raw),
{
    running_info::law_told_error_survives(raw, snapshot@);
}

} // verus!
