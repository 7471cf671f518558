//! Passwords encrypted by the MyCard client.
use vstd::prelude::*;

use crate::srvpru::plugins::PluginError;

use crate::srvpru::processor::{
    fresh_handler, spec_register_for_plugin, Handler, HandlerCondition, HandlerOccasion, Registry,
    RegistryView,
};
use crate::ygopro::message::{ctos, MessageType};
use crate::ygopro::constants::Mode;
use crate::ygopro::message::{HostInfo, HostInfoView};
use crate::srvpru::room::host_info_text;
use crate::text::{push_str, string_of};

verus! {

/// The registry after the plugin loaded its configuration and registered
/// its handlers; unchanged where its configuration was already
/// loaded, as a plugin starts once.
pub open spec fn spec_init(r: RegistryView) -> RegistryView {
    if r.configured.contains("mc_login"@) {
        r
    } else {
        let r0 = RegistryView { configured: r.configured.insert("mc_login"@), ..r };
        let r1 = spec_register_for_plugin(r0, fresh_handler(8, "mycard_login"@, HandlerOccasion::Before, HandlerCondition::MessageType(MessageType::CTOS(ctos::MessageType::JoinGame))), "mc_login"@);
        let r2 = spec_register_for_plugin(r1, fresh_handler(9, "mycard_room"@, HandlerOccasion::Before, HandlerCondition::MessageType(MessageType::CTOS(ctos::MessageType::JoinGame))), "mc_login"@);
        r2
    }
}

/// Register the plugin's handlers with the registry.
pub fn init(registry: &mut Registry) -> (r: Result<(), PluginError>)
    requires
        old(registry).wf(),
    ensures
        final(registry).wf(),
        final(registry)@ == spec_init(old(registry)@),
        r == (if old(registry)@.configured.contains("mc_login"@) { Err(PluginError::ConfigurationAlreadySet) } else { Ok(()) }),
{
    if !registry.configure("mc_login") {
        return Err(PluginError::ConfigurationAlreadySet);
    }
    Handler::new(8, "mycard_login", HandlerOccasion::Before, HandlerCondition::MessageType(MessageType::CTOS(ctos::MessageType::JoinGame))).register_for_plugin("mc_login", registry);
    Handler::new(9, "mycard_room", HandlerOccasion::Before, HandlerCondition::MessageType(MessageType::CTOS(ctos::MessageType::JoinGame))).register_for_plugin("mc_login", registry);
    Ok(())
}


/// What a MyCard password asks for, in the high four bits of its first byte.
#[derive(Copy, Clone, Debug, PartialEq, Eq, Structural)]
pub enum Action {
    CreatePublicRoom,
    CreatePrivateRoom,
    JoinRoomById,
    JoinMatch,
    JoinRoomByTitle,
}

impl Action {
    pub open spec fn spec_try_from(v: u8) -> Option<Action> {
        if v == 1 {
            Some(Action::CreatePublicRoom)
        } else if v == 2 {
            Some(Action::CreatePrivateRoom)
        } else if v == 3 {
            Some(Action::JoinRoomById)
        } else if v == 4 {
            Some(Action::JoinMatch)
        } else if v == 5 {
            Some(Action::JoinRoomByTitle)
        } else {
            None
        }
    }

    pub fn try_from_u8(v: u8) -> (r: Option<Action>)
        ensures
            r == Action::spec_try_from(v),
    {
        if v == 1 {
            Some(Action::CreatePublicRoom)
        } else if v == 2 {
            Some(Action::CreatePrivateRoom)
        } else if v == 3 {
            Some(Action::JoinRoomById)
        } else if v == 4 {
            Some(Action::JoinMatch)
        } else if v == 5 {
            Some(Action::JoinRoomByTitle)
        } else {
            None
        }
    }
}

/// The plugin's configuration.
#[derive(Clone, Debug)]
pub struct Configuration {
    pub auth_base_url: String,
    pub auth_access_key: String,
    pub permit_url: Option<String>,
    pub arena: Option<String>,
}

/// What decoding base64 gives: `None` for input that is not base64.
pub uninterp spec fn base64_decoded(input: Seq<u8>) -> Option<Seq<u8>>;

/// Decodes standard base64 with `base64::decode`. The decoded bytes are
/// named, not stated.
#[verifier::external_body]
fn decode_base64(input: &[u8]) -> (r: Option<Vec<u8>>)
    ensures
        base64_decoded(input@) == match r {
            Some(v) => Some(v@),
            None => None::<Seq<u8>>,
        },
{
    match base64::decode(input) {
        Ok(v) => Some(v),
        Err(_) => None,
    }
}

/// The key that a user's id gives.
pub open spec fn spec_secret(uid: u32) -> u16 {
    (uid % 65535 + 1) as u16
}

pub fn secret(uid: u32) -> (r: u16)
    ensures
        r == spec_secret(uid),
{
    (uid % 65535 + 1) as u16
}

pub open spec fn byte_sum(bytes: Seq<u8>) -> nat
    decreases bytes.len(),
{
    if bytes.len() == 0 { 0 } else { byte_sum(bytes.drop_last()) + bytes.last() as nat }
}

/// Whether the bytes of an operation add up to a multiple of 256.
pub fn check_checksum(bytes: &[u8]) -> (r: bool)
    ensures
        r == (byte_sum(bytes@) % 256 == 0),
{
    let mut sum: u64 = 0;
    let mut i: usize = 0;
    while i < bytes.len()
        invariant
            i <= bytes@.len(),
            sum == byte_sum(bytes@.take(i as int)) % 256,
        decreases bytes@.len() - i,
    {
        proof {
            assert(bytes@.take(i + 1).drop_last() =~= bytes@.take(i as int));
        }
        sum = (sum + bytes[i] as u64) % 256;
        i = i + 1;
    }
    assert(bytes@.take(i as int) =~= bytes@);
    sum == 0
}

/// The operation that a decoded password holds: its first little-endian
/// `u16` with the key xored in, in an operation of six bytes whose other
/// bytes are zero; `None` where the password decodes to fewer than two
/// bytes.
pub open spec fn spec_decrypt(encrypted: Seq<u8>, key: u16) -> Option<Seq<u8>> {
    if encrypted.len() < 2 {
        None
    } else {
        let v = (encrypted[0] as u16 + 256 * (encrypted[1] as u16)) as u16 ^ key;
        Some(seq![(v % 256) as u8, (v / 256) as u8, 0u8, 0u8, 0u8, 0u8])
    }
}

/// Decrypting is undone by the key: the first two bytes of the operation,
/// little-endian, xored with the user's key once more, give back the first
/// two bytes of the password; the key is never zero, and the rest of the
/// operation is zero.
pub proof fn law_decrypt_undone_by_key(encrypted: Seq<u8>, uid: u32)
    ensures
        1 <= spec_secret(uid) <= 65535,
        (spec_decrypt(encrypted, spec_secret(uid)) is Some) <==> encrypted.len() >= 2,
        spec_decrypt(encrypted, spec_secret(uid)) matches Some(op) ==> {
            &&& op.len() == 6
            &&& ((op[0] + 256 * op[1]) as u16 ^ spec_secret(uid)) == encrypted[0] + 256 * encrypted[1]
            &&& op[2] == 0 && op[3] == 0 && op[4] == 0 && op[5] == 0
        },
{
    if encrypted.len() >= 2 {
        let k = spec_secret(uid);
        let e = (encrypted[0] as u16 + 256 * (encrypted[1] as u16)) as u16;
        assert(encrypted[0] + 256 * encrypted[1] < 65536);
        assert(e == encrypted[0] + 256 * encrypted[1]);
        let v = e ^ k;
        assert(((v % 256) as u8 + 256 * ((v / 256) as u8)) as u16 == v);
        assert((v ^ k) == e) by (bit_vector)
            requires
                v == e ^ k;
    }
}

/// The action of an operation is named by the high four bits of its first
/// byte: 1 and 2 create a public and a private room, 3 joins a room by its
/// id, 4 joins a match, 5 joins a room by its title; others name none.
pub proof fn law_action_of_high_bits(op: Seq<u8>)
    requires
        op.len() >= 1,
    ensures
        (op[0] >> 4u8) == op[0] / 16,
        op[0] / 16 == 1 ==> Action::spec_try_from(op[0] >> 4u8) == Some(Action::CreatePublicRoom),
        op[0] / 16 == 2 ==> Action::spec_try_from(op[0] >> 4u8) == Some(Action::CreatePrivateRoom),
        op[0] / 16 == 3 ==> Action::spec_try_from(op[0] >> 4u8) == Some(Action::JoinRoomById),
        op[0] / 16 == 4 ==> Action::spec_try_from(op[0] >> 4u8) == Some(Action::JoinMatch),
        op[0] / 16 == 5 ==> Action::spec_try_from(op[0] >> 4u8) == Some(Action::JoinRoomByTitle),
        (op[0] / 16 == 0 || op[0] / 16 > 5) ==> Action::spec_try_from(op[0] >> 4u8) is None,
{
    let b = op[0];
    assert(b >> 4u8 == b / 16) by (bit_vector);
}

/// Why a MyCard password is refused.
#[derive(Copy, Clone, Debug, PartialEq, Eq, Structural)]
pub enum LoginError {
    /// The password is not base64.
    Decode,
    /// The password decodes to fewer than two bytes.
    Short,
    /// The decrypted operation fails its checksum.
    Checksum,
}

/// The operation in the first eight bytes of a MyCard password, for the
/// user with id `uid`.
pub fn login_operation(pass_prefix: &[u8], uid: u32) -> (r: Result<Vec<u8>, LoginError>)
    ensures
        match base64_decoded(pass_prefix@) {
            None => r == Err::<Vec<u8>, LoginError>(LoginError::Decode),
            Some(encrypted) => match spec_decrypt(encrypted, spec_secret(uid)) {
                None => r == Err::<Vec<u8>, LoginError>(LoginError::Short),
                Some(op) => if byte_sum(op) % 256 == 0 {
                    r matches Ok(v) && v@ == op
                } else {
                    r == Err::<Vec<u8>, LoginError>(LoginError::Checksum)
                },
            },
        },
{
    let encrypted = match decode_base64(pass_prefix) {
        None => return Err(LoginError::Decode),
        Some(e) => e,
    };
    if encrypted.len() < 2 {
        return Err(LoginError::Short);
    }
    let key = secret(uid);
    let read: u16 = (encrypted[0] as u16) + 256 * (encrypted[1] as u16);
    let v: u16 = read ^ key;
    let mut op: Vec<u8> = Vec::new();
    op.push((v % 256) as u8);
    op.push((v / 256) as u8);
    op.push(0);
    op.push(0);
    op.push(0);
    op.push(0);
    assert(op@ =~= spec_decrypt(encrypted@, spec_secret(uid)).unwrap());
    if check_checksum(op.as_slice()) {
        Ok(op)
    } else {
        Err(LoginError::Checksum)
    }
}

/// The action of an operation.
pub fn action_of(op: &[u8]) -> (r: Option<Action>)
    requires
        op@.len() >= 1,
    ensures
        r == Action::spec_try_from(op@[0] >> 4u8),
{
    Action::try_from_u8(op[0] >> 4)
}

/// The configuration of a room that an operation creates; `None` where its
/// mode bits name no mode.
pub open spec fn spec_host_info_of(op: Seq<u8>) -> Option<HostInfoView> {
    let opt0 = op[1] & 0xf;
    let opt1 = op[2];
    let opt2 = (op[3] as u16 + 256 * (op[4] as u16)) as u16;
    let opt3 = op[5];
    match Mode::spec_try_from((opt1 >> 3u8) & 0x3) {
        None => None,
        Some(mode) => Some(HostInfoView {
            lflist: 1,
            rule: (opt1 >> 5u8) & 0x7,
            mode,
            duel_rule: (opt0 >> 1u8) | 0x5,
            no_check_deck: (opt1 >> 1u8) & 1 == 1,
            no_shuffle_deck: opt1 & 1 == 1,
            padding: seq![0u8, 0u8, 0u8],
            start_lp: opt2 as u32,
            start_hand: opt3 >> 4u8,
            draw_count: opt3 & 0xf,
            time_limit: 240,
        }),
    }
}

/// A room that an operation creates takes its settings from the operation's
/// bytes: the mode from bits 3 and 4 of the third byte (a room only where
/// they name one), the master rule from its top three bits, skipping the
/// deck check from bit 1 and shuffling from bit 0; the life points from the
/// fourth and fifth bytes, little-endian; the starting hand from the high
/// four bits of the sixth byte and the cards drawn from its low four bits.
pub proof fn law_room_settings_of_operation(op: Seq<u8>)
    requires
        op.len() >= 6,
    ensures
        spec_host_info_of(op) is Some <==> (op[2] / 8) % 4 < 3,
        spec_host_info_of(op) matches Some(h) ==> {
            &&& h.mode.spec_value() == (op[2] / 8) % 4
            &&& h.rule == op[2] / 32
            &&& h.no_check_deck == ((op[2] / 2) % 2 == 1)
            &&& h.no_shuffle_deck == (op[2] % 2 == 1)
            &&& h.start_lp == op[3] + 256 * op[4]
            &&& h.start_hand == op[5] / 16
            &&& h.draw_count == op[5] % 16
            &&& h.lflist == 1
            &&& h.time_limit == 240
        },
{
    reveal(Mode::spec_try_from);
    let b2 = op[2];
    let b5 = op[5];
    assert((b2 >> 3u8) & 3 == (b2 / 8) % 4) by (bit_vector);
    assert((b2 >> 5u8) & 7 == b2 / 32) by (bit_vector);
    assert(((b2 >> 1u8) & 1 == 1) == ((b2 / 2) % 2 == 1)) by (bit_vector);
    assert((b2 & 1 == 1) == (b2 % 2 == 1)) by (bit_vector);
    assert(b5 >> 4u8 == b5 / 16) by (bit_vector);
    assert(b5 & 0xf == b5 % 16) by (bit_vector);
    assert((op[3] as u16 + 256 * (op[4] as u16)) as u16 == op[3] + 256 * op[4]);
}

pub fn host_info_of(op: &[u8]) -> (r: Option<HostInfo>)
    requires
        op@.len() >= 6,
    ensures
        match r {
            Some(h) => spec_host_info_of(op@) == Some(h@),
            None => spec_host_info_of(op@) is None,
        },
{
    let opt0 = op[1] & 0xf;
    let opt1 = op[2];
    let opt2: u16 = (op[3] as u16) + 256 * (op[4] as u16);
    let opt3 = op[5];
    let mode = match Mode::try_from_u8((opt1 >> 3) & 0x3) {
        None => return None,
        Some(m) => m,
    };
    let h = HostInfo {
        lflist: 1,
        rule: (opt1 >> 5) & 0x7,
        mode,
        duel_rule: (opt0 >> 1) | 0x5,
        no_check_deck: (opt1 >> 1) & 1 == 1,
        no_shuffle_deck: opt1 & 1 == 1,
        padding: [0u8; 3],
        start_lp: opt2 as u32,
        start_hand: opt3 >> 4,
        draw_count: opt3 & 0xf,
        time_limit: 240,
    };
    assert(h@.padding =~= seq![0u8, 0u8, 0u8]);
    Some(h)
}

/// The room password that an operation and the room name after it stand
/// for: a created room is named by its configuration and the name, joined
/// by a comma; a match is joined as `M#` and the name; a room to join by id
/// or title is the name itself. `None` where a created room's mode bits
/// name no mode.
pub open spec fn spec_room_password(action: Action, op: Seq<u8>, room_name: Seq<char>) -> Option<Seq<char>> {
    match action {
        Action::CreatePublicRoom | Action::CreatePrivateRoom => match spec_host_info_of(op) {
            None => None,
            Some(h) => Some(host_info_text(h) + ","@ + room_name),
        },
        Action::JoinMatch => Some("M#"@ + room_name),
        Action::JoinRoomById | Action::JoinRoomByTitle => Some(room_name),
    }
}

pub fn room_password(action: Action, op: &[u8], room_name: &str) -> (r: Option<String>)
    requires
        op@.len() >= 6,
    ensures
        match r {
            Some(s) => spec_room_password(action, op@, room_name@) == Some(s@),
            None => spec_room_password(action, op@, room_name@) is None,
        },
{
    match action {
        Action::CreatePublicRoom | Action::CreatePrivateRoom => match host_info_of(op) {
            None => None,
            Some(h) => {
                let text = h.to_string();
                let mut out: Vec<char> = Vec::new();
                push_str(&mut out, text.as_str());
                push_str(&mut out, ",");
                push_str(&mut out, room_name);
                Some(string_of(out.as_slice()))
            },
        },
        Action::JoinMatch => {
            let mut out: Vec<char> = Vec::new();
            push_str(&mut out, "M#");
            push_str(&mut out, room_name);
            Some(string_of(out.as_slice()))
        },
        Action::JoinRoomById | Action::JoinRoomByTitle => Some(room_name.to_owned()),
    }
}

/// Whether a byte stays as it is in a URL: an ASCII letter or digit, or one
/// of `-`, `.`, `_`, `~`.
pub open spec fn url_safe(b: u8) -> bool {
    ||| 0x30 <= b <= 0x39
    ||| 0x41 <= b <= 0x5A
    ||| 0x61 <= b <= 0x7A
    ||| b == 0x2D || b == 0x2E || b == 0x5F || b == 0x7E
}

/// An upper-case hexadecimal digit.
pub open spec fn hex_digit(d: u8) -> char {
    if d < 10 { (48 + d) as char } else { (55 + d) as char }
}

/// One byte in a URL: itself where it is safe, else `%` and its two
/// hexadecimal digits.
pub open spec fn percent_byte(b: u8) -> Seq<char> {
    if url_safe(b) { seq![b as char] } else { seq!['%', hex_digit(b / 16), hex_digit(b % 16)] }
}

/// Percent-encoded bytes.
pub open spec fn percent_encoded(bytes: Seq<u8>) -> Seq<char>
    decreases bytes.len(),
{
    if bytes.len() == 0 {
        Seq::empty()
    } else {
        percent_encoded(bytes.drop_last()) + percent_byte(bytes.last())
    }
}

/// What percent-encoding a text gives: its UTF-8 bytes, each kept where it
/// is safe in a URL and written as `%` and two upper-case hexadecimal
/// digits otherwise.
pub open spec fn url_encoded(text: Seq<char>) -> Seq<char> {
    percent_encoded(vstd::utf8::encode_utf8(text))
}

/// Percent-encodes a text with `urlencoding::encode`, which keeps the
/// ASCII letters and digits and `-`, `.`, `_`, `~` of its UTF-8 bytes and
/// writes every other byte as `%` and two upper-case hexadecimal digits.
#[verifier::external_body]
fn encode_url_component(text: &str) -> (r: String)
    ensures
        r@ == url_encoded(text@),
{
    urlencoding::encode(text).into_owned()
}

/// Where a user's record is read from.
pub fn user_url(configuration: &Configuration, username: &str) -> (r: String)
    ensures
        r@ == configuration.auth_base_url@ + "/users/"@ + url_encoded(username@) + ".json?api_key="@
            + configuration.auth_access_key@ + "&skip_track_visit=true"@,
{
    let encoded = encode_url_component(username);
    let mut out: Vec<char> = Vec::new();
    push_str(&mut out, configuration.auth_base_url.as_str());
    push_str(&mut out, "/users/");
    push_str(&mut out, encoded.as_str());
    push_str(&mut out, ".json?api_key=");
    push_str(&mut out, configuration.auth_access_key.as_str());
    push_str(&mut out, "&skip_track_visit=true");
    string_of(out.as_slice())
}

} // verus!
