use easytier_ios::fault::Fault;
use easytier_ios::logger::{
    clear_logger, init_logger, ClearAction, ClearEvent, InitAction, InitEvent,
};

fn bad<T>() -> Result<T, String> {
    Err("bad".to_owned())
}

#[test]
fn logger_is_set_up_step_by_step() {
    let r = init_logger(InitEvent::LookedFor(Ok(false)));
    assert!(matches!(r, Ok(InitAction::CreateFile)));
    let r = init_logger(InitEvent::Created(Ok(())));
    assert!(matches!(r, Ok(InitAction::InstallCollector)));
    let r = init_logger(InitEvent::Installed(Ok(())));
    assert!(matches!(r, Ok(InitAction::KeepFile)));
    assert!(matches!(init_logger(InitEvent::Kept(Ok(()))), Ok(InitAction::Done)));
}

#[test]
fn logger_that_is_there_is_left_alone() {
    let r = init_logger(InitEvent::LookedFor(Ok(true)));
    assert!(matches!(r, Ok(InitAction::Done)));
}

#[test]
fn setting_up_fails_as_its_step() {
    let events = vec![
        InitEvent::LookedFor(bad()),
        InitEvent::Created(bad()),
        InitEvent::Installed(bad()),
        InitEvent::Kept(bad()),
    ];
    for event in events {
        assert!(matches!(init_logger(event), Err(Fault::Outside(e)) if e == "bad"));
    }
}

#[test]
fn file_is_cleared_step_by_step() {
    let r = clear_logger(ClearEvent::LookedFor(Ok(true)));
    assert!(matches!(r, Ok(ClearAction::LockFile)));
    assert!(matches!(clear_logger(ClearEvent::Locked(Ok(()))), Ok(ClearAction::Truncate)));
    assert!(matches!(clear_logger(ClearEvent::Truncated(Ok(()))), Ok(ClearAction::Rewind)));
    assert!(matches!(clear_logger(ClearEvent::Rewound(Ok(()))), Ok(ClearAction::Flush)));
    assert!(matches!(clear_logger(ClearEvent::Flushed(Ok(()))), Ok(ClearAction::Done)));
}

#[test]
fn clearing_needs_a_logger() {
    let r = clear_logger(ClearEvent::LookedFor(Ok(false)));
    assert!(matches!(r, Err(Fault::NoLogger)));
}

#[test]
fn clearing_fails_as_its_step() {
    let events = vec![
        ClearEvent::LookedFor(bad()),
        ClearEvent::Locked(bad()),
        ClearEvent::Truncated(bad()),
        ClearEvent::Rewound(bad()),
        ClearEvent::Flushed(bad()),
    ];
    for event in events {
        assert!(matches!(clear_logger(event), Err(Fault::Outside(e)) if e == "bad"));
    }
}
