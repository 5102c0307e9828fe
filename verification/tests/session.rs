use easytier_ios::fault::Fault;
use easytier_ios::session::{
    current_uuid, get_latest_error_msg, get_running_info, latest_snapshot, record_instance,
    refresh, run_network_instance, set_tun_fd, stop_network_instance, Kept, RefreshAction,
    RefreshEvent, RunAction, RunEvent, Snapshot, DELETE_TIMEOUT_SECS, REFRESH_INTERVAL_MS,
};
use uuid::Uuid;

fn poisoned<T>() -> Result<T, String> {
    Err("poisoned".to_owned())
}

fn id(n: u128) -> Uuid {
    Uuid::from_u128(n)
}

fn fetch(asked: Uuid, raw: Option<&str>) -> RefreshEvent {
    RefreshEvent::Fetched { asked, snapshot: raw.map(Snapshot::new) }
}

fn fetched_of(asked: Uuid, info: &mut Option<Kept>, raw: &str) {
    assert!(matches!(refresh(Ok(info), fetch(asked, Some(raw))), RefreshAction::Wait));
}

fn fetched(info: &mut Option<Kept>, raw: &str) {
    fetched_of(id(7), info, raw);
}

fn told(current: Result<Option<Uuid>, String>, info: &Option<Kept>) -> Option<String> {
    get_latest_error_msg(false, latest_snapshot(current, Ok(info))).ok().unwrap()
}

fn handed_out(current: Option<Uuid>, info: &Option<Kept>) -> Result<String, Fault> {
    get_running_info(false, Ok(current), Ok(info)).info
}

#[test]
fn durations() {
    assert_eq!(REFRESH_INTERVAL_MS, 1000);
    assert_eq!(DELETE_TIMEOUT_SECS, 3);
}

#[test]
fn snapshot_is_filled() {
    assert_eq!(Snapshot::new("x").text(), "x");
    assert_eq!(
        Snapshot::new("{}").text(),
        "{\"dev_name\":\"\",\"events\":[],\"peer_route_pairs\":[],\"peers\":[],\"routes\":[],\
         \"running\":false}"
    );
}

#[test]
fn current_instance_is_found() {
    assert!(matches!(current_uuid(Ok(Some(id(7)))), Ok(u) if u == id(7)));
    assert!(matches!(current_uuid(Ok(None)), Err(Fault::NoInstance)));
    assert!(matches!(current_uuid(poisoned()), Err(Fault::Outside(e)) if e == "poisoned"));
}

#[test]
fn recorded_instance_is_current() {
    let mut current = None;
    assert!(record_instance(Ok(&mut current), id(7)).is_ok());
    assert!(matches!(current_uuid(Ok(current)), Ok(u) if u == id(7)));
    assert!(record_instance(Ok(&mut current), id(8)).is_ok());
    assert!(matches!(current_uuid(Ok(current)), Ok(u) if u == id(8)));
    let r = record_instance(poisoned(), id(1));
    assert!(matches!(r, Err(Fault::Outside(e)) if e == "poisoned"));
}

#[test]
fn error_of_a_former_instance_is_not_told() {
    let mut current = Some(id(7));
    let mut info = None;
    fetched(&mut info, "{\"error_msg\":\"x\"}");
    assert_eq!(told(Ok(current), &info), Some("x".to_owned()));
    assert!(record_instance(Ok(&mut current), id(8)).is_ok());
    assert_eq!(told(Ok(current), &info), None);
    fetched_of(id(8), &mut info, "{\"error_msg\":\"y\"}");
    assert_eq!(told(Ok(current), &info), Some("y".to_owned()));
    fetched_of(id(7), &mut info, "{\"error_msg\":\"x\"}");
    assert_eq!(told(Ok(current), &info), None);
}

#[test]
fn last_snapshot_stays_until_the_next() {
    let mut current = Some(id(7));
    let mut info = None;
    let raw = "{\"dev_name\":\"utun7\"}";
    fetched(&mut info, raw);
    assert!(record_instance(Ok(&mut current), id(8)).is_ok());
    assert_eq!(handed_out(current, &info).ok().unwrap(), Snapshot::new(raw).text());
    fetched_of(id(8), &mut info, "{}");
    assert_eq!(handed_out(current, &info).ok().unwrap(), Snapshot::new("{}").text());
}

#[test]
fn tun_goes_to_the_running_instance() {
    let a = set_tun_fd(Ok(Some(id(9))), 42).ok().unwrap();
    assert_eq!(a.instance, id(9));
    assert_eq!(a.fd, 42);
    assert!(matches!(set_tun_fd(Ok(None), 42), Err(Fault::NoInstance)));
    assert!(matches!(set_tun_fd(poisoned(), 3), Err(Fault::Outside(e)) if e == "poisoned"));
}

#[test]
fn run_goes_step_by_step() {
    let r = run_network_instance(RunEvent::Called { cfg_is_null: false });
    assert!(matches!(r, Ok(RunAction::PrepareConfig)));
    let r = run_network_instance(RunEvent::Prepared(Ok(())));
    assert!(matches!(r, Ok(RunAction::StartInstance)));
    let r = run_network_instance(RunEvent::Started(Ok(id(5))));
    assert!(matches!(r, Ok(RunAction::RecordInstance(u)) if u == id(5)));
    let r = run_network_instance(RunEvent::Recorded(Ok(())));
    assert!(matches!(r, Ok(RunAction::StartRefresher)));
}

#[test]
fn run_fails_as_its_step() {
    let r = run_network_instance(RunEvent::Called { cfg_is_null: true });
    assert!(matches!(r, Err(Fault::NullConfig)));
    let r = run_network_instance(RunEvent::Prepared(Err(Fault::KeyMismatch)));
    assert!(matches!(r, Err(Fault::KeyMismatch)));
    let r = run_network_instance(RunEvent::Started(Err("busy".to_owned())));
    assert!(matches!(r, Err(Fault::Outside(e)) if e == "busy"));
    let r = run_network_instance(RunEvent::Recorded(Err(Fault::Outside("p".to_owned()))));
    assert!(matches!(r, Err(Fault::Outside(e)) if e == "p"));
}

#[test]
fn stop_forgets_instance_and_snapshot() {
    let mut current = Some(id(7));
    let mut info = None;
    fetched(&mut info, "{}");
    let stop = stop_network_instance(Ok(&mut current), Ok(&mut info));
    assert_eq!(stop.code, 0);
    assert_eq!(stop.delete, Some(id(7)));
    assert!(current.is_none());
    assert!(info.is_none());
    let again = stop_network_instance(Ok(&mut current), Ok(&mut info));
    assert_eq!(again.code, 0);
    assert_eq!(again.delete, None);
}

#[test]
fn stop_without_its_locks() {
    let mut info = None;
    fetched(&mut info, "{}");
    let stop = stop_network_instance(poisoned(), Ok(&mut info));
    assert_eq!(stop.code, -1);
    assert_eq!(stop.delete, None);
    assert!(info.is_some());
    let mut current = Some(id(7));
    let stop = stop_network_instance(Ok(&mut current), poisoned());
    assert_eq!(stop.code, 0);
    assert_eq!(stop.delete, Some(id(7)));
    assert!(current.is_none());
}

#[test]
fn tick_asks_for_the_running_instance() {
    let mut info = None;
    fetched(&mut info, "{}");
    let r = refresh(Ok(&mut info), RefreshEvent::Tick(Ok(Some(id(7)))));
    assert!(matches!(r, RefreshAction::Fetch(u) if u == id(7)));
    assert!(info.is_some());
    let r = refresh(poisoned(), RefreshEvent::Tick(Ok(Some(id(7)))));
    assert!(matches!(r, RefreshAction::Fetch(u) if u == id(7)));
}

#[test]
fn tick_without_an_instance_forgets_the_snapshot() {
    for current in [Ok(None), poisoned()] {
        let mut info = None;
        fetched(&mut info, "{}");
        let r = refresh(Ok(&mut info), RefreshEvent::Tick(current));
        assert!(matches!(r, RefreshAction::Wait));
        assert!(info.is_none());
    }
    assert!(matches!(refresh(poisoned(), RefreshEvent::Tick(Ok(None))), RefreshAction::Wait));
}

#[test]
fn fetch_that_brings_nothing_changes_nothing() {
    let mut info = None;
    fetched(&mut info, "{\"error_msg\":\"a\"}");
    let before = latest_snapshot(Ok(Some(id(7))), Ok(&info));
    assert!(matches!(refresh(Ok(&mut info), fetch(id(7), None)), RefreshAction::Wait));
    assert!(before.is_some());
    assert_eq!(latest_snapshot(Ok(Some(id(7))), Ok(&info)), before);
    let event = fetch(id(7), Some("{}"));
    assert!(matches!(refresh(poisoned(), event), RefreshAction::Wait));
}

#[test]
fn late_snapshot_is_not_handed_out_and_then_forgotten() {
    let mut current = Some(id(7));
    let mut info = None;
    stop_network_instance(Ok(&mut current), Ok(&mut info));
    fetched(&mut info, "{\"error_msg\":\"x\"}");
    assert!(info.is_some());
    assert!(matches!(handed_out(current, &info), Err(Fault::NoInstance)));
    assert_eq!(told(Ok(current), &info), None);
    let r = refresh(Ok(&mut info), RefreshEvent::Tick(Ok(current)));
    assert!(matches!(r, RefreshAction::Wait));
    assert!(info.is_none());
}

#[test]
fn kept_error_is_told_where_no_instance_can_be_read() {
    let mut info = None;
    fetched(&mut info, "{\"error_msg\":\"x\"}");
    assert_eq!(told(poisoned(), &info), Some("x".to_owned()));
}

#[test]
fn running_info_is_the_latest_snapshot() {
    let mut info = None;
    fetched(&mut info, "{\"dev_name\":\"old\"}");
    fetched(&mut info, "{}");
    refresh(Ok(&mut info), RefreshEvent::Tick(Ok(Some(id(7)))));
    refresh(Ok(&mut info), fetch(id(7), None));
    let reply = get_running_info(false, Ok(Some(id(7))), Ok(&info));
    assert!(reply.start_refresher);
    assert_eq!(reply.info.ok().unwrap(), Snapshot::new("{}").text());
}

#[test]
fn running_info_may_not_be_ready() {
    let reply = get_running_info(false, Ok(Some(id(7))), Ok(&None));
    assert!(reply.start_refresher);
    assert!(matches!(reply.info, Err(Fault::NotReady)));
    let reply = get_running_info(false, Ok(Some(id(7))), poisoned());
    assert!(reply.start_refresher);
    assert!(matches!(reply.info, Err(Fault::Outside(e)) if e == "poisoned"));
}

#[test]
fn running_info_needs_a_place_and_an_instance() {
    let reply = get_running_info(true, poisoned(), poisoned());
    assert!(!reply.start_refresher);
    assert!(matches!(reply.info, Err(Fault::NullJson)));
    let reply = get_running_info(false, Ok(None), poisoned());
    assert!(!reply.start_refresher);
    assert!(matches!(reply.info, Err(Fault::NoInstance)));
    let reply = get_running_info(false, poisoned(), Ok(&None));
    assert!(!reply.start_refresher);
    assert!(matches!(reply.info, Err(Fault::Outside(e)) if e == "poisoned"));
}

#[test]
fn latest_error_is_told() {
    let running = Ok(Some(id(7)));
    let mut info = None;
    assert_eq!(told(running.clone(), &info), None);
    fetched(&mut info, "{\"error_msg\":\"boom\"}");
    assert_eq!(told(running.clone(), &info), Some("boom".to_owned()));
    fetched(&mut info, "{}");
    assert_eq!(told(running.clone(), &info), None);
    let r = get_latest_error_msg(false, latest_snapshot(running, poisoned()));
    assert!(matches!(r, Ok(None)));
    assert!(matches!(get_latest_error_msg(false, Some("x".to_owned())), Ok(None)));
    assert!(matches!(get_latest_error_msg(true, None), Err(Fault::NullMsg)));
}
