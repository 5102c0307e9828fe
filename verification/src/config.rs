//! The checks that a network configuration passes before an instance is started
//! from it.

use vstd::prelude::*;

use crate::fault::Fault;
use crate::x25519;

verus! {

/// The X25519 public key that belongs to a private key: the multiple of the base
/// point that the private key says.
pub open spec fn x25519_public_key(private_key: Seq<u8>) -> Seq<u8> {
    x25519::public_key(private_key)
}

/// `PublicKey::from` of `x25519_dalek` at a `StaticSecret` of these bytes: the
/// public key is the X25519 function of RFC 7748 at its base point. The crate clears
/// the bits 0, 1, 2 and 255 of the private key and sets the bit 254, multiplies the
/// base point, and hands out the first coordinate.
#[verifier::external_body]
pub(crate) fn derive_public_key(private_key: &[u8; 32]) -> (r: [u8; 32])
    ensures
        r@ == x25519_public_key(private_key@),
{
    let secret = x25519_dalek::StaticSecret::from(*private_key);
    x25519_dalek::PublicKey::from(&secret).to_bytes()
}

/// What has happened in the preparation of a configuration.
pub enum ConfigEvent {
    /// The configuration text was loaded; it has a secure mode or not.
    Loaded(Result<bool, String>),
    /// The secure mode was normalised; it is enabled or not.
    Normalized(Result<bool, String>),
    /// The keys of an enabled secure mode were read.
    KeysRead { private_key: Result<[u8; 32], String>, public_key: Result<[u8; 32], String> },
}

/// What the preparation of a configuration does next.
pub enum ConfigAction {
    /// Normalise the secure mode.
    Normalize,
    /// Read the keys of the secure mode.
    ReadKeys,
    /// Put the normalised secure mode into the configuration, which is then ready.
    StoreSecureMode,
    /// The configuration is ready as it was loaded.
    Ready,
}

/// What follows each event of the preparation.
pub open spec fn config_next(event: ConfigEvent) -> Result<ConfigAction, Fault> {
    match event {
        ConfigEvent::Loaded(Err(e)) => Err(Fault::Outside(e)),
        ConfigEvent::Loaded(Ok(has_secure_mode)) => if has_secure_mode {
            Ok(ConfigAction::Normalize)
        } else {
            Ok(ConfigAction::Ready)
        },
        ConfigEvent::Normalized(Err(e)) => Err(Fault::Outside(e)),
        ConfigEvent::Normalized(Ok(enabled)) => if enabled {
            Ok(ConfigAction::ReadKeys)
        } else {
            Ok(ConfigAction::StoreSecureMode)
        },
        ConfigEvent::KeysRead { private_key, public_key } => match (private_key, public_key) {
            (Err(e), _) => Err(Fault::Outside(e)),
            (Ok(_), Err(e)) => Err(Fault::Outside(e)),
            (Ok(private_key), Ok(public_key)) => keys_next(
                x25519_public_key(private_key@),
                public_key@,
            ),
        },
    }
}

/// What follows once the key that belongs to the private key is derived: the
/// public key has to be that key.
pub open spec fn keys_next(derived: Seq<u8>, public_key: Seq<u8>) -> Result<ConfigAction, Fault> {
    if public_key == derived {
        Ok(ConfigAction::StoreSecureMode)
    } else {
        Err(Fault::KeyMismatch)
    }
}

/// Compares the public key of a secure mode with the one that was derived from its
/// private key.
pub fn check_public_key(derived: &[u8; 32], public_key: &[u8; 32]) -> (r: Result<
    ConfigAction,
    Fault,
>)
    ensures
        r == keys_next(derived@, public_key@),
{
    for i in 0..32usize
        invariant
            forall|j: int| 0 <= j < i ==> derived@[j] == public_key@[j],
    {
        if derived[i] != public_key[i] {
            return Err(Fault::KeyMismatch);
        }
    }
    assert(derived@ =~= public_key@);
    Ok(ConfigAction::StoreSecureMode)
}

/// What the preparation of a configuration does after `event`, or how it fails.
pub fn prepare_network_config(event: ConfigEvent) -> (r: Result<ConfigAction, Fault>)
    ensures
        r == config_next(event),
{
    match event {
        ConfigEvent::Loaded(Err(e)) => Err(Fault::Outside(e)),
        ConfigEvent::Loaded(Ok(has_secure_mode)) => if has_secure_mode {
            Ok(ConfigAction::Normalize)
        } else {
            Ok(ConfigAction::Ready)
        },
        ConfigEvent::Normalized(Err(e)) => Err(Fault::Outside(e)),
        ConfigEvent::Normalized(Ok(enabled)) => if enabled {
            Ok(ConfigAction::ReadKeys)
        } else {
            Ok(ConfigAction::StoreSecureMode)
        },
        ConfigEvent::KeysRead { private_key, public_key } => {
            let private_key = match private_key {
                Ok(key) => key,
                Err(e) => return Err(Fault::Outside(e)),
            };
            let public_key = match public_key {
                Ok(key) => key,
                Err(e) => return Err(Fault::Outside(e)),
            };
            check_public_key(&derive_public_key(&private_key), &public_key)
        },
    }
}

/// What comes of each step of the preparation of a configuration.
pub struct ConfigOutcomes {
    pub loaded: Result<bool, String>,
    pub normalized: Result<bool, String>,
    pub private_key: Result<[u8; 32], String>,
    pub public_key: Result<[u8; 32], String>,
}

impl ConfigOutcomes {
    /// The event that ends a step; none follows once the configuration is ready.
    pub open spec fn after(self, action: ConfigAction) -> Option<ConfigEvent> {
        match action {
            ConfigAction::Normalize => Some(ConfigEvent::Normalized(self.normalized)),
            ConfigAction::ReadKeys => Some(
                ConfigEvent::KeysRead {
                    private_key: self.private_key,
                    public_key: self.public_key,
                },
            ),
            ConfigAction::StoreSecureMode => None,
            ConfigAction::Ready => None,
        }
    }

    /// The last step of a preparation that has come to `event`, or how it fails.
    pub open spec fn end_from(self, event: ConfigEvent) -> Result<ConfigAction, Fault>
        decreases
                (match event {
                    ConfigEvent::Loaded(_) => 2nat,
                    ConfigEvent::Normalized(_) => 1nat,
                    ConfigEvent::KeysRead { .. } => 0nat,
                }),
    {
        match config_next(event) {
            Ok(action) => match self.after(action) {
                Some(next) => self.end_from(next),
                None => Ok(action),
            },
            Err(e) => Err(e),
        }
    }

    /// The last step of a preparation, or how it fails.
    pub open spec fn end(self) -> Result<ConfigAction, Fault> {
        self.end_from(ConfigEvent::Loaded(self.loaded))
    }

    /// Both keys could be read, and the public key belongs to the private key.
    pub open spec fn keys_belong_together(self) -> bool {
        &&& self.private_key is Ok
        &&& self.public_key is Ok
        &&& self.public_key->Ok_0@ == x25519_public_key(self.private_key->Ok_0@)
    }
}

/// A configuration without a secure mode is ready as it was loaded. A secure mode
/// gets into a configuration only normalised, and an enabled one only with a
/// public key that belongs to its private key; keys that were read and do not
/// belong together are told apart from every other failure.
pub proof fn law_stored_keys_belong_together(o: ConfigOutcomes)
    ensures
        o.end() == Ok::<ConfigAction, Fault>(ConfigAction::Ready) <==> o.loaded == Ok::<
            bool,
            String,
        >(false),
        o.end() == Ok::<ConfigAction, Fault>(ConfigAction::StoreSecureMode) <==> {
            &&& o.loaded == Ok::<bool, String>(true)
            &&& o.normalized matches Ok(enabled) && (enabled ==> o.keys_belong_together())
        },
        o.end() == Err::<ConfigAction, Fault>(Fault::KeyMismatch) <==> {
            &&& o.loaded == Ok::<bool, String>(true)
            &&& o.normalized == Ok::<bool, String>(true)
            &&& o.private_key is Ok
            &&& o.public_key is Ok
            &&& !o.keys_belong_together()
        },
{
    reveal_with_fuel(ConfigOutcomes::end_from, 3);
}

/// The keys of a secure mode are accepted if and only if the public key stands for
/// the first coordinate of the multiple of the base point that the private key says;
/// any other two keys that were read are told not to match.
pub proof fn law_keys_are_accepted(private_key: [u8; 32], public_key: [u8; 32])
    ensures
        config_next(
            ConfigEvent::KeysRead { private_key: Ok(private_key), public_key: Ok(public_key) },
        ) == if x25519::number(public_key@) == x25519::first(
            x25519::times(x25519::scalar(private_key@), x25519::base()),
        ) {
            Ok::<ConfigAction, Fault>(ConfigAction::StoreSecureMode)
        } else {
            Err::<ConfigAction, Fault>(Fault::KeyMismatch)
        },
{
    let derived = x25519::public_key(private_key@);
    x25519::law_public_key_is_a_coordinate(private_key@);
    if x25519::number(public_key@) == x25519::number(derived) {
        x25519::law_number_tells_bytes_apart(public_key@, derived);
    }
}

/// A preparation goes step by step: it normalises a secure mode only where there is
/// one, reads keys only of an enabled one, and is ready as it was loaded only where
/// there is none.
pub proof fn law_preparation_goes_in_order(event: ConfigEvent)
    ensures
        config_next(event) == Ok::<ConfigAction, Fault>(ConfigAction::Normalize) <==> event
            == ConfigEvent::Loaded(Ok(true)),
        config_next(event) == Ok::<ConfigAction, Fault>(ConfigAction::ReadKeys) <==> event
            == ConfigEvent::Normalized(Ok(true)),
        config_next(event) == Ok::<ConfigAction, Fault>(ConfigAction::Ready) <==> event
            == ConfigEvent::Loaded(Ok(false)),
        event == ConfigEvent::Normalized(Ok(false)) ==> config_next(event) == Ok::<
            ConfigAction,
            Fault,
        >(ConfigAction::StoreSecureMode),
{
}

/// A preparation fails as the first of its steps that does: loading, normalising a
/// secure mode that is there, and, where that is enabled, reading its private key,
/// reading its public key, and comparing them. It fails in no other way.
pub proof fn law_preparation_fails_as_its_steps(o: ConfigOutcomes)
    ensures
        match (o.loaded, o.normalized, o.private_key, o.public_key) {
            (Err(e), _, _, _) => o.end() == Err::<ConfigAction, Fault>(Fault::Outside(e)),
            (Ok(false), _, _, _) => o.end() is Ok,
            (Ok(true), Err(e), _, _) => o.end() == Err::<ConfigAction, Fault>(Fault::Outside(e)),
            (Ok(true), Ok(false), _, _) => o.end() is Ok,
            (Ok(true), Ok(true), Err(e), _) => o.end() == Err::<ConfigAction, Fault>(
                Fault::Outside(e),
            ),
            (Ok(true), Ok(true), Ok(_), Err(e)) => o.end() == Err::<ConfigAction, Fault>(
                Fault::Outside(e),
            ),
            (Ok(true), Ok(true), Ok(_), Ok(_)) => if o.keys_belong_together() {
                o.end() is Ok
            } else {
                o.end() == Err::<ConfigAction, Fault>(Fault::KeyMismatch)
            },
        },
{
    reveal_with_fuel(ConfigOutcomes::end_from, 3);
}

} // verus!
