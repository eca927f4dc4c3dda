//! The command that asks another device of the account to close a tab.
//!
//! The command travels encrypted for the device it is meant for. This
//! library finds the device and what it accepts, builds the payload, and
//! reads and writes the transport encoding of keys and ciphertext; the
//! cipher itself and the network belong to the caller.

use base64::engine::general_purpose::URL_SAFE_NO_PAD;
use base64::Engine;
use vstd::prelude::*;

verus! {

/// The name under which a device offers to take the command.
pub const COMMAND_NAME: &'static str = "https://identity.mozilla.com/cmd/open-uri";

/// Why the command could not be made.
#[derive(Debug, Clone, PartialEq, Eq)]
pub enum Error {
    /// The account has no device with this id.
    UnknownTargetDevice(String),
    /// The device does not take the command with this name.
    UnsupportedCommand(String),
    /// A key of the device is not in the transport encoding; the decoder's
    /// message.
    Base64Decode(String),
}

/// An [`Error`] as a mathematical value.
pub enum ErrorView {
    UnknownTargetDevice(Seq<char>),
    UnsupportedCommand(Seq<char>),
    Base64Decode(Seq<char>),
}

impl View for Error {
    type V = ErrorView;

    open spec fn view(&self) -> ErrorView {
        match self {
            Error::UnknownTargetDevice(id) => ErrorView::UnknownTargetDevice(id@),
            Error::UnsupportedCommand(name) => ErrorView::UnsupportedCommand(name@),
            Error::Base64Decode(m) => ErrorView::Base64Decode(m@),
        }
    }
}

/// One thing that the other device is asked to do.
#[derive(Debug, Clone, PartialEq, Eq)]
pub struct RemoteTabAction {
    pub url: String,
}

/// What the other device is asked to do.
#[derive(Debug, Clone, PartialEq, Eq)]
pub struct RemoteTabPayload {
    pub actions: Vec<RemoteTabAction>,
}

/// A device of the account: its id, and for each command that it takes the
/// bundle of keys to use.
#[derive(Debug, Clone, PartialEq, Eq)]
pub struct Device {
    pub id: String,
    pub available_commands: Vec<(String, String)>,
}

/// The public keys of a device, in the transport encoding.
#[derive(Debug, Clone, PartialEq, Eq)]
pub struct PublicSendTabKeys {
    pub public_key: String,
    pub auth_secret: String,
}

/// A payload after encryption, in the transport encoding.
#[derive(Debug, Clone, PartialEq, Eq)]
pub struct EncryptedSendTabPayload {
    pub encrypted: String,
}

/// The bytes that `input` stands for in the URL-safe alphabet without
/// padding; `None` where it is not in that encoding.
pub uninterp spec fn base64_decoded(input: Seq<char>) -> Option<Seq<u8>>;

/// What the decoder says of text that is not in the encoding.
pub uninterp spec fn base64_error_text(input: Seq<char>) -> Seq<char>;

/// The text that stands for `data` in the URL-safe alphabet without padding.
pub uninterp spec fn base64_encoded(data: Seq<u8>) -> Seq<char>;

/// Calls `Engine::decode` of the base64 crate on its engine
/// `URL_SAFE_NO_PAD`: the bytes that the text stands for, or the decoder's
/// message.
#[verifier::external_body]
fn base64_decode(input: &str) -> (r: Result<Vec<u8>, String>)
    ensures
        r is Ok <==> base64_decoded(input@) is Some,
        r matches Ok(v) ==> Some(v@) == base64_decoded(input@),
        r matches Err(m) ==> m@ == base64_error_text(input@),
{
    URL_SAFE_NO_PAD.decode(input).map_err(|e| e.to_string())
}

/// Calls `Engine::encode` of the base64 crate on its engine
/// `URL_SAFE_NO_PAD`: the text that stands for the bytes. The length of the
/// text must fit the machine.
#[verifier::external_body]
fn base64_encode(data: &[u8]) -> (r: String)
    requires
        data@.len() / 3 * 4 + 3 <= usize::MAX,
    ensures
        r@ == base64_encoded(data@),
{
    URL_SAFE_NO_PAD.encode(data)
}

/// The first place of a device with the id `id`; the number of devices
/// where there is none.
pub open spec fn device_place(devices: Seq<Device>, id: Seq<char>) -> int
    decreases devices.len(),
{
    if devices.len() == 0 {
        0
    } else if devices.first().id@ == id {
        0
    } else {
        1 + device_place(devices.drop_first(), id)
    }
}

/// The first place of the command `name` among `commands`; their number
/// where it is not among them.
pub open spec fn command_place(commands: Seq<(String, String)>, name: Seq<char>) -> int
    decreases commands.len(),
{
    if commands.len() == 0 {
        0
    } else if commands.first().0@ == name {
        0
    } else {
        1 + command_place(commands.drop_first(), name)
    }
}

impl RemoteTabPayload {
    /// The payload that asks to close the tab that shows `url`.
    pub fn close_remote_tab(url: &str) -> (r: Self)
        ensures
            r.actions@.len() == 1,
            r.actions@[0].url@ == url@,
    {
        let mut actions: Vec<RemoteTabAction> = Vec::new();
        actions.push(RemoteTabAction { url: url.to_owned() });
        RemoteTabPayload { actions }
    }

    /// The keys of the receiving device as bytes, the public key first.
    /// Fails with `Base64Decode` where one of them is not in the transport
    /// encoding; the message is that for the public key where both are not.
    pub fn encryption_keys(keys: &PublicSendTabKeys) -> (r: Result<(Vec<u8>, Vec<u8>), Error>)
        ensures
            match (base64_decoded(keys.public_key@), base64_decoded(keys.auth_secret@)) {
                (Some(public_key), Some(auth_secret)) => r matches Ok(k) && k.0@ == public_key
                    && k.1@ == auth_secret,
                (None, _) => r matches Err(e) && e@ == ErrorView::Base64Decode(
                    base64_error_text(keys.public_key@),
                ),
                (Some(_), None) => r matches Err(e) && e@ == ErrorView::Base64Decode(
                    base64_error_text(keys.auth_secret@),
                ),
            },
    {
        let public_key = match base64_decode(keys.public_key.as_str()) {
            Ok(k) => k,
            Err(m) => {
                return Err(Error::Base64Decode(m));
            },
        };
        let auth_secret = match base64_decode(keys.auth_secret.as_str()) {
            Ok(k) => k,
            Err(m) => {
                return Err(Error::Base64Decode(m));
            },
        };
        Ok((public_key, auth_secret))
    }

    /// The encrypted payload in the transport encoding, from the bytes that
    /// the cipher produced.
    pub fn encrypt(encrypted: &[u8]) -> (r: EncryptedSendTabPayload)
        requires
            encrypted@.len() / 3 * 4 + 3 <= usize::MAX,
        ensures
            r.encrypted@ == base64_encoded(encrypted@),
    {
        EncryptedSendTabPayload { encrypted: base64_encode(encrypted) }
    }
}

/// The bundle of keys under which `target` takes the command
/// [`COMMAND_NAME`]. Fails with `UnsupportedCommand` where the device does
/// not take it.
pub fn build_send_command(target: &Device) -> (r: Result<&String, Error>)
    ensures
        match r {
            Ok(bundle) => {
                let place = command_place(target.available_commands@, COMMAND_NAME@);
                place < target.available_commands@.len() && *bundle
                    == target.available_commands@[place].1
            },
            Err(e) => command_place(target.available_commands@, COMMAND_NAME@)
                == target.available_commands@.len() && e@ == ErrorView::UnsupportedCommand(
                COMMAND_NAME@,
            ),
        },
{
    let name = COMMAND_NAME.to_owned();
    let ghost all = target.available_commands@;
    let mut k: usize = 0;
    assert(all.skip(0) =~= all);
    while k < target.available_commands.len()
        invariant
            k <= target.available_commands@.len(),
            all == target.available_commands@,
            name@ == COMMAND_NAME@,
            command_place(all, name@) == k + command_place(all.skip(k as int), name@),
        decreases target.available_commands@.len() - k,
    {
        assert(all.skip(k as int).drop_first() =~= all.skip(k + 1));
        if target.available_commands[k].0 == name {
            return Ok(&target.available_commands[k].1);
        }
        k = k + 1;
    }
    Err(Error::UnsupportedCommand(name))
}

/// What is to be sent to close a tab on another device.
pub struct CloseTabCommand<'a> {
    /// The device that the command goes to.
    pub target: &'a Device,
    /// What the device is asked to do.
    pub payload: RemoteTabPayload,
    /// The bundle of keys under which the device takes the command.
    pub keys: &'a String,
}

/// The account, as far as commands to its devices are concerned.
pub struct FirefoxAccount {
    /// The devices of the account, as they were fetched last.
    pub devices: Vec<Device>,
}

impl FirefoxAccount {
    /// What is to be sent to the device `target_device_id` to close the tab
    /// that shows `url`. Fails with `UnknownTargetDevice` where the account
    /// has no such device, and with `UnsupportedCommand` where the device
    /// does not take the command.
    pub fn close_remote_tab<'a>(&'a self, target_device_id: &str, url: &str) -> (r: Result<
        CloseTabCommand<'a>,
        Error,
    >)
        ensures
            ({
                let place = device_place(self.devices@, target_device_id@);
                if place == self.devices@.len() {
                    r matches Err(e) && e@ == ErrorView::UnknownTargetDevice(target_device_id@)
                } else {
                    let target = self.devices@[place];
                    let command = command_place(target.available_commands@, COMMAND_NAME@);
                    if command == target.available_commands@.len() {
                        r matches Err(e) && e@ == ErrorView::UnsupportedCommand(COMMAND_NAME@)
                    } else {
                        r matches Ok(c) && *c.target == target && *c.keys
                            == target.available_commands@[command].1 && c.payload.actions@.len()
                            == 1 && c.payload.actions@[0].url@ == url@
                    }
                }
            }),
    {
        let id = target_device_id.to_owned();
        let ghost all = self.devices@;
        let mut k: usize = 0;
        assert(all.skip(0) =~= all);
        proof {
            lemma_device_place_bound(all, id@);
        }
        while k < self.devices.len()
            invariant
                k <= self.devices@.len(),
                all == self.devices@,
                id@ == target_device_id@,
                device_place(all, id@) == k + device_place(all.skip(k as int), id@),
                device_place(all.skip(k as int), id@) <= all.skip(k as int).len(),
            decreases self.devices@.len() - k,
        {
            assert(all.skip(k as int).drop_first() =~= all.skip(k + 1));
            if self.devices[k].id == id {
                let target = &self.devices[k];
                let payload = RemoteTabPayload::close_remote_tab(url);
                return match build_send_command(target) {
                    Ok(keys) => Ok(CloseTabCommand { target, payload, keys }),
                    Err(e) => Err(e),
                };
            }
            k = k + 1;
        }
        Err(Error::UnknownTargetDevice(id))
    }
}

proof fn lemma_device_place_bound(devices: Seq<Device>, id: Seq<char>)
    ensures
        0 <= device_place(devices, id) <= devices.len(),
    decreases devices.len(),
{
    if devices.len() > 0 && devices.first().id@ != id {
        lemma_device_place_bound(devices.drop_first(), id);
    }
}

} // verus!
