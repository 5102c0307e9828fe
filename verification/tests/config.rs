use easytier_ios::config::{check_public_key, prepare_network_config, ConfigAction, ConfigEvent};
use easytier_ios::fault::Fault;

const PRIVATE: [u8; 32] = [
    0x77, 0x07, 0x6d, 0x0a, 0x73, 0x18, 0xa5, 0x7d, 0x3c, 0x16, 0xc1, 0x72, 0x51, 0xb2, 0x66, 0x45,
    0xdf, 0x4c, 0x2f, 0x87, 0xeb, 0xc0, 0x99, 0x2a, 0xb1, 0x77, 0xfb, 0xa5, 0x1d, 0xb9, 0x2c, 0x2a,
];

const PUBLIC: [u8; 32] = [
    0x85, 0x20, 0xf0, 0x09, 0x89, 0x30, 0xa7, 0x54, 0x74, 0x8b, 0x7d, 0xdc, 0xb4, 0x3e, 0xf7, 0x5a,
    0x0d, 0xbf, 0x3a, 0x0d, 0x26, 0x38, 0x1a, 0xf4, 0xeb, 0xa4, 0xa9, 0x8e, 0xaa, 0x9b, 0x4e, 0x6a,
];

fn keys(
    private_key: Result<[u8; 32], String>,
    public_key: Result<[u8; 32], String>,
) -> Result<ConfigAction, Fault> {
    prepare_network_config(ConfigEvent::KeysRead { private_key, public_key })
}

#[test]
fn keys_that_belong_together_are_stored() {
    assert!(matches!(keys(Ok(PRIVATE), Ok(PUBLIC)), Ok(ConfigAction::StoreSecureMode)));
}

#[test]
fn keys_that_do_not_belong_together_are_refused() {
    assert!(matches!(keys(Ok(PRIVATE), Ok(PRIVATE)), Err(Fault::KeyMismatch)));
    let mut other = PUBLIC;
    other[31] ^= 1;
    assert!(matches!(keys(Ok(PRIVATE), Ok(other)), Err(Fault::KeyMismatch)));
}

#[test]
fn unreadable_keys_are_refused_private_first() {
    let bad = || Err("bad".to_owned());
    let worse = || Err("worse".to_owned());
    assert!(matches!(keys(bad(), worse()), Err(Fault::Outside(e)) if e == "bad"));
    assert!(matches!(keys(Ok(PRIVATE), worse()), Err(Fault::Outside(e)) if e == "worse"));
}

#[test]
fn derived_key_is_compared() {
    let r = check_public_key(&PUBLIC, &PUBLIC);
    assert!(matches!(r, Ok(ConfigAction::StoreSecureMode)));
    assert!(matches!(check_public_key(&PUBLIC, &PRIVATE), Err(Fault::KeyMismatch)));
    let mut last = [0u8; 32];
    last[31] = 1;
    assert!(matches!(check_public_key(&[0u8; 32], &last), Err(Fault::KeyMismatch)));
}

#[test]
fn configuration_without_secure_mode_is_ready() {
    let r = prepare_network_config(ConfigEvent::Loaded(Ok(false)));
    assert!(matches!(r, Ok(ConfigAction::Ready)));
}

#[test]
fn secure_mode_is_normalised() {
    let r = prepare_network_config(ConfigEvent::Loaded(Ok(true)));
    assert!(matches!(r, Ok(ConfigAction::Normalize)));
    let r = prepare_network_config(ConfigEvent::Normalized(Ok(false)));
    assert!(matches!(r, Ok(ConfigAction::StoreSecureMode)));
    let r = prepare_network_config(ConfigEvent::Normalized(Ok(true)));
    assert!(matches!(r, Ok(ConfigAction::ReadKeys)));
}

#[test]
fn failures_of_loading_are_passed_on() {
    let r = prepare_network_config(ConfigEvent::Loaded(Err("toml".to_owned())));
    assert!(matches!(r, Err(Fault::Outside(e)) if e == "toml"));
    let r = prepare_network_config(ConfigEvent::Normalized(Err("mode".to_owned())));
    assert!(matches!(r, Err(Fault::Outside(e)) if e == "mode"));
}

fn preparation(
    loaded: Result<bool, String>,
    normalized: Result<bool, String>,
    private_key: Result<[u8; 32], String>,
    public_key: Result<[u8; 32], String>,
) -> Result<ConfigAction, Fault> {
    let mut event = ConfigEvent::Loaded(loaded);
    loop {
        event = match prepare_network_config(event)? {
            ConfigAction::Normalize => ConfigEvent::Normalized(normalized.clone()),
            ConfigAction::ReadKeys => ConfigEvent::KeysRead {
                private_key: private_key.clone(),
                public_key: public_key.clone(),
            },
            last => return Ok(last),
        };
    }
}

#[test]
fn preparation_fails_as_its_first_step() {
    let e = |text: &str| text.to_owned();
    let r = preparation(Err(e("a")), Err(e("b")), Err(e("c")), Err(e("d")));
    assert!(matches!(r, Err(Fault::Outside(m)) if m == "a"));
    let r = preparation(Ok(false), Err(e("b")), Err(e("c")), Err(e("d")));
    assert!(matches!(r, Ok(ConfigAction::Ready)));
    let r = preparation(Ok(true), Err(e("b")), Err(e("c")), Err(e("d")));
    assert!(matches!(r, Err(Fault::Outside(m)) if m == "b"));
    let r = preparation(Ok(true), Ok(false), Err(e("c")), Err(e("d")));
    assert!(matches!(r, Ok(ConfigAction::StoreSecureMode)));
    let r = preparation(Ok(true), Ok(true), Err(e("c")), Err(e("d")));
    assert!(matches!(r, Err(Fault::Outside(m)) if m == "c"));
    let r = preparation(Ok(true), Ok(true), Ok(PRIVATE), Err(e("d")));
    assert!(matches!(r, Err(Fault::Outside(m)) if m == "d"));
    let r = preparation(Ok(true), Ok(true), Ok(PRIVATE), Ok(PRIVATE));
    assert!(matches!(r, Err(Fault::KeyMismatch)));
    let r = preparation(Ok(true), Ok(true), Ok(PRIVATE), Ok(PUBLIC));
    assert!(matches!(r, Ok(ConfigAction::StoreSecureMode)));
}
