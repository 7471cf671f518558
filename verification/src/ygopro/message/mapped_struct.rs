//! The contracts that every wire structure keeps, and the structures that
//! several message directions share.
use vstd::prelude::*;

use crate::ygopro::bytes::{
    bool_byte, le_i32, le_u16, le_u16s, le_u32, lemma_bool_roundtrip, lemma_i32_roundtrip,
    lemma_take_bytes_roundtrip, lemma_u16_roundtrip, lemma_u16s_roundtrip, lemma_u32_roundtrip,
    lemma_u8_roundtrip, push_bool, push_bytes, push_i32, push_u16, push_u16_array20, push_u32,
    push_u8, push_u8_array3, read_bool, read_i32, read_u16, read_u16_array20, read_u32, read_u8,
    read_u8_array3, take_bool, take_bytes, take_i32, take_u16, take_u16s, take_u32, take_u8,
};
use crate::ygopro::constants::Mode;
use crate::ygopro::message::MessageType;

verus! {

/// What a consumer learns from [`Struct::take`]: where the specification of
/// the layout finds a value, the reader returns a value with that model and
/// the position where the rest of the input starts; where it finds none, the
/// reader returns none.
pub open spec fn taken<T: View>(spec: Option<(T::V, Seq<u8>)>, r: Option<(T, usize)>, data: Seq<u8>) -> bool {
    match spec {
        None => r is None,
        Some((v, rest)) => r matches Some((w, p)) && w@ == v && p <= data.len() && rest == data.skip(p as int),
    }
}

/// Every part of a ygopro message: a structure with a fixed little-endian
/// layout, a writer and a reader for it, and the proof that reading what was
/// written gives back what was written.
pub trait Struct: View + Sized {
    /// The models that the layout can carry (vectors within their caps,
    /// arrays of their length).
    spec fn spec_wf(v: Self::V) -> bool;

    /// Whether the layout has a fixed size, so that bytes after it are left
    /// alone; a layout that ends in a greedy vector takes what follows.
    spec fn spec_fixed() -> bool;

    /// The bytes of a value.
    spec fn spec_serialize(v: Self::V) -> Seq<u8>;

    /// The value at the front of `s`, and what follows it; `None` where the
    /// input is too short or holds a byte that no value has.
    spec fn spec_take(s: Seq<u8>) -> Option<(Self::V, Seq<u8>)>;

    fn serialize(&self) -> (r: Vec<u8>)
        ensures
            r@ == Self::spec_serialize(self@),
    ;

    fn take(data: &[u8], pos: usize) -> (r: Option<(Self, usize)>)
        requires
            pos <= data@.len(),
        ensures
            taken::<Self>(Self::spec_take(data@.skip(pos as int)), r, data@),
    ;

    /// Reading the bytes of a value gives back that value and leaves what
    /// follows untouched.
    proof fn lemma_roundtrip(v: Self::V, rest: Seq<u8>)
        requires
            Self::spec_wf(v),
            Self::spec_fixed() || rest.len() == 0,
        ensures
            Self::spec_take(Self::spec_serialize(v) + rest) == Some((v, rest)),
    ;

    /// Read a value from the front of `data`; bytes after it are ignored.
    fn deserialize(data: &[u8]) -> (r: Option<Self>)
        ensures
            match Self::spec_take(data@) {
                None => r is None,
                Some((v, _)) => r matches Some(x) && x@ == v,
            },
    {
        assert(data@.skip(0) =~= data@);
        match Self::take(data, 0) {
            None => None,
            Some((x, _)) => Some(x),
        }
    }
}

/// A [`Struct`] that is the whole body of one [`MessageType`].
pub trait MappedStruct {
    spec fn spec_message() -> MessageType;

    fn message() -> (r: MessageType)
        ensures
            r == Self::spec_message(),
    ;
}


/// [`Struct`] null: no bytes.
#[derive(Clone, Debug)]
pub struct Empty;

impl View for Empty {
    type V = Empty;

    open spec fn view(&self) -> Empty {
        *self
    }
}

impl Struct for Empty {
    open spec fn spec_wf(v: Empty) -> bool {
        true
    }

    open spec fn spec_fixed() -> bool {
        true
    }

    open spec fn spec_serialize(v: Empty) -> Seq<u8> {
        Seq::<u8>::empty()
    }

    open spec fn spec_take(s: Seq<u8>) -> Option<(Empty, Seq<u8>)> {
        Some((Empty, s))
    }

    fn serialize(&self) -> (r: Vec<u8>) {
        let mut out: Vec<u8> = Vec::new();
        assert(out@ =~= Self::spec_serialize(self@));
        out
    }

    fn take(data: &[u8], pos: usize) -> (r: Option<(Empty, usize)>) {
        let p = pos;
        Some((Empty, p))
    }

    proof fn lemma_roundtrip(v: Empty, rest: Seq<u8>) {
    }
}

/// The rules a duel room is configured with.
#[derive(Copy, Clone, Debug)]
pub struct HostInfo {
    pub lflist: i32,
    pub rule: u8,
    pub mode: Mode,
    pub duel_rule: u8,
    pub no_check_deck: bool,
    pub no_shuffle_deck: bool,
    pub padding: [u8; 3],
    pub start_lp: u32,
    pub start_hand: u8,
    pub draw_count: u8,
    pub time_limit: u16,
}

/// The model of a [`HostInfo`]: arrays and vectors as sequences.
pub struct HostInfoView {
    pub lflist: i32,
    pub rule: u8,
    pub mode: Mode,
    pub duel_rule: u8,
    pub no_check_deck: bool,
    pub no_shuffle_deck: bool,
    pub padding: Seq<u8>,
    pub start_lp: u32,
    pub start_hand: u8,
    pub draw_count: u8,
    pub time_limit: u16,
}

impl View for HostInfo {
    type V = HostInfoView;

    open spec fn view(&self) -> HostInfoView {
        HostInfoView { lflist: self.lflist, rule: self.rule, mode: self.mode, duel_rule: self.duel_rule, no_check_deck: self.no_check_deck, no_shuffle_deck: self.no_shuffle_deck, padding: self.padding@, start_lp: self.start_lp, start_hand: self.start_hand, draw_count: self.draw_count, time_limit: self.time_limit }
    }
}

impl Struct for HostInfo {
    open spec fn spec_wf(v: HostInfoView) -> bool {
        v.padding.len() == 3
    }

    open spec fn spec_fixed() -> bool {
        true
    }

    open spec fn spec_serialize(v: HostInfoView) -> Seq<u8> {
        le_i32(v.lflist) + (seq![v.rule] + (seq![v.mode.spec_value()] + (seq![v.duel_rule] + (seq![bool_byte(v.no_check_deck)] + (seq![bool_byte(v.no_shuffle_deck)] + (v.padding + (le_u32(v.start_lp) + (seq![v.start_hand] + (seq![v.draw_count] + (le_u16(v.time_limit)))))))))))
    }

    open spec fn spec_take(s: Seq<u8>) -> Option<(HostInfoView, Seq<u8>)> {
        match take_i32(s) { None => None, Some((lflist, s)) => 
        match take_u8(s) { None => None, Some((rule, s)) => 
        match take_u8(s) { None => None, Some((mode_code, s)) => match Mode::spec_try_from(mode_code) { None => None, Some(mode) => 
        match take_u8(s) { None => None, Some((duel_rule, s)) => 
        match take_bool(s) { None => None, Some((no_check_deck, s)) => 
        match take_bool(s) { None => None, Some((no_shuffle_deck, s)) => 
        match take_bytes(s, 3) { None => None, Some((padding, s)) => 
        match take_u32(s) { None => None, Some((start_lp, s)) => 
        match take_u8(s) { None => None, Some((start_hand, s)) => 
        match take_u8(s) { None => None, Some((draw_count, s)) => 
        match take_u16(s) { None => None, Some((time_limit, s)) => 
        Some((HostInfoView { lflist, rule, mode, duel_rule, no_check_deck, no_shuffle_deck, padding, start_lp, start_hand, draw_count, time_limit }, s))
        } } }} } } } } } } } }
    }

    fn serialize(&self) -> (r: Vec<u8>) {
        let mut out: Vec<u8> = Vec::new();
        push_i32(&mut out, self.lflist);
        push_u8(&mut out, self.rule);
        push_u8(&mut out, self.mode.into_u8());
        push_u8(&mut out, self.duel_rule);
        push_bool(&mut out, self.no_check_deck);
        push_bool(&mut out, self.no_shuffle_deck);
        push_u8_array3(&mut out, &self.padding);
        push_u32(&mut out, self.start_lp);
        push_u8(&mut out, self.start_hand);
        push_u8(&mut out, self.draw_count);
        push_u16(&mut out, self.time_limit);
        assert(out@ =~= Self::spec_serialize(self@));
        out
    }

    fn take(data: &[u8], pos: usize) -> (r: Option<(HostInfo, usize)>) {
        let p = pos;
        let (lflist, p) = match read_i32(data, p) { None => return None, Some(x) => x };
        let (rule, p) = match read_u8(data, p) { None => return None, Some(x) => x };
        let (mode_code, p) = match read_u8(data, p) { None => return None, Some(x) => x };
        let mode = match Mode::try_from_u8(mode_code) { None => return None, Some(x) => x };
        let (duel_rule, p) = match read_u8(data, p) { None => return None, Some(x) => x };
        let (no_check_deck, p) = match read_bool(data, p) { None => return None, Some(x) => x };
        let (no_shuffle_deck, p) = match read_bool(data, p) { None => return None, Some(x) => x };
        let (padding, p) = match read_u8_array3(data, p) { None => return None, Some(x) => x };
        let (start_lp, p) = match read_u32(data, p) { None => return None, Some(x) => x };
        let (start_hand, p) = match read_u8(data, p) { None => return None, Some(x) => x };
        let (draw_count, p) = match read_u8(data, p) { None => return None, Some(x) => x };
        let (time_limit, p) = match read_u16(data, p) { None => return None, Some(x) => x };
        Some((HostInfo { lflist, rule, mode, duel_rule, no_check_deck, no_shuffle_deck, padding, start_lp, start_hand, draw_count, time_limit }, p))
    }

    proof fn lemma_roundtrip(v: HostInfoView, rest: Seq<u8>) {
        let t10 = le_u16(v.time_limit);
        let t9 = seq![v.draw_count] + t10;
        let t8 = seq![v.start_hand] + t9;
        let t7 = le_u32(v.start_lp) + t8;
        let t6 = v.padding + t7;
        let t5 = seq![bool_byte(v.no_shuffle_deck)] + t6;
        let t4 = seq![bool_byte(v.no_check_deck)] + t5;
        let t3 = seq![v.duel_rule] + t4;
        let t2 = seq![v.mode.spec_value()] + t3;
        let t1 = seq![v.rule] + t2;
        let t0 = le_i32(v.lflist) + t1;
        assert(Self::spec_serialize(v) == t0);
        assert(t0 + rest =~= le_i32(v.lflist) + (t1 + rest));
        lemma_i32_roundtrip(v.lflist, t1 + rest);
        assert(t1 + rest =~= seq![v.rule] + (t2 + rest));
        lemma_u8_roundtrip(v.rule, t2 + rest);
        assert(t2 + rest =~= seq![v.mode.spec_value()] + (t3 + rest));
        lemma_u8_roundtrip(v.mode.spec_value(), t3 + rest);
        v.mode.lemma_value_roundtrip(0);
        assert(t3 + rest =~= seq![v.duel_rule] + (t4 + rest));
        lemma_u8_roundtrip(v.duel_rule, t4 + rest);
        assert(t4 + rest =~= seq![bool_byte(v.no_check_deck)] + (t5 + rest));
        lemma_bool_roundtrip(v.no_check_deck, t5 + rest);
        assert(t5 + rest =~= seq![bool_byte(v.no_shuffle_deck)] + (t6 + rest));
        lemma_bool_roundtrip(v.no_shuffle_deck, t6 + rest);
        assert(t6 + rest =~= v.padding + (t7 + rest));
        lemma_take_bytes_roundtrip(v.padding, t7 + rest);
        assert(t7 + rest =~= le_u32(v.start_lp) + (t8 + rest));
        lemma_u32_roundtrip(v.start_lp, t8 + rest);
        assert(t8 + rest =~= seq![v.start_hand] + (t9 + rest));
        lemma_u8_roundtrip(v.start_hand, t9 + rest);
        assert(t9 + rest =~= seq![v.draw_count] + (t10 + rest));
        lemma_u8_roundtrip(v.draw_count, t10 + rest);
        lemma_u16_roundtrip(v.time_limit, rest);
    }
}

/// The body of `HostInfo` is laid out as the protocol has it, field by
/// field: lflist, rule, mode, duel_rule, no_check_deck, no_shuffle_deck, padding, start_lp, start_hand, draw_count, time_limit.
pub proof fn law_host_info_layout(v: HostInfoView)
    requires
        HostInfo::spec_wf(v),
    ensures
        HostInfo::spec_serialize(v).len() == 20,
        HostInfo::spec_serialize(v).subrange(0, 4) == le_i32(v.lflist),
        HostInfo::spec_serialize(v).subrange(4, 5) == seq![v.rule],
        HostInfo::spec_serialize(v).subrange(5, 6) == seq![v.mode.spec_value()],
        HostInfo::spec_serialize(v).subrange(6, 7) == seq![v.duel_rule],
        HostInfo::spec_serialize(v).subrange(7, 8) == seq![bool_byte(v.no_check_deck)],
        HostInfo::spec_serialize(v).subrange(8, 9) == seq![bool_byte(v.no_shuffle_deck)],
        HostInfo::spec_serialize(v).subrange(9, 12) == v.padding,
        HostInfo::spec_serialize(v).subrange(12, 16) == le_u32(v.start_lp),
        HostInfo::spec_serialize(v).subrange(16, 17) == seq![v.start_hand],
        HostInfo::spec_serialize(v).subrange(17, 18) == seq![v.draw_count],
        HostInfo::spec_serialize(v).subrange(18, 20) == le_u16(v.time_limit),
{
    let b = HostInfo::spec_serialize(v);
    assert(b.subrange(0, 4) =~= le_i32(v.lflist));
    assert(b.subrange(4, 5) =~= seq![v.rule]);
    assert(b.subrange(5, 6) =~= seq![v.mode.spec_value()]);
    assert(b.subrange(6, 7) =~= seq![v.duel_rule]);
    assert(b.subrange(7, 8) =~= seq![bool_byte(v.no_check_deck)]);
    assert(b.subrange(8, 9) =~= seq![bool_byte(v.no_shuffle_deck)]);
    assert(b.subrange(9, 12) =~= v.padding);
    assert(b.subrange(12, 16) =~= le_u32(v.start_lp));
    assert(b.subrange(16, 17) =~= seq![v.start_hand]);
    assert(b.subrange(17, 18) =~= seq![v.draw_count]);
    assert(b.subrange(18, 20) =~= le_u16(v.time_limit));
}

impl HostInfo {
    pub fn default_lflist() -> (r: i32) ensures r == 0 { 0 }
    pub fn default_rule() -> (r: u8) ensures r == 0 { 0 }
    pub fn default_mode() -> (r: Mode) ensures r == Mode::Match { Mode::Match }
    pub fn default_duel_rule() -> (r: u8) ensures r == 5 { 5 }
    pub fn default_padding() -> (r: [u8; 3]) ensures r@ == seq![0u8, 0u8, 0u8] {
        let r: [u8; 3] = [0u8; 3];
        assert(r@ =~= seq![0u8, 0u8, 0u8]);
        r
    }
    pub fn default_start_lp() -> (r: u32) ensures r == 8000 { 8000 }
    pub fn default_start_hand() -> (r: u8) ensures r == 5 { 5 }
    pub fn default_draw_count() -> (r: u8) ensures r == 1 { 1 }
    pub fn default_time_limit() -> (r: u16) ensures r == 180 { 180 }

    /// The host info of a configuration that names none of its fields.
    pub open spec fn spec_default() -> HostInfoView {
        HostInfoView {
            lflist: 0, rule: 0, mode: Mode::Match, duel_rule: 5, no_check_deck: false,
            no_shuffle_deck: false, padding: seq![0u8, 0u8, 0u8], start_lp: 8000, start_hand: 5,
            draw_count: 1, time_limit: 180,
        }
    }
}

impl Default for HostInfo {
    fn default() -> (r: HostInfo)
        ensures
            r@ == HostInfo::spec_default(),
    {
        HostInfo {
            lflist: HostInfo::default_lflist(),
            rule: HostInfo::default_rule(),
            mode: HostInfo::default_mode(),
            duel_rule: HostInfo::default_duel_rule(),
            no_check_deck: false,
            no_shuffle_deck: false,
            padding: HostInfo::default_padding(),
            start_lp: HostInfo::default_start_lp(),
            start_hand: HostInfo::default_start_hand(),
            draw_count: HostInfo::default_draw_count(),
            time_limit: HostInfo::default_time_limit(),
        }
    }
}

/// A room announced on a local network.
#[derive(Clone, Debug)]
pub struct HostPacket {
    pub identifier: u16,
    pub version: u16,
    pub port: u16,
    pub ipaddr: u32,
    pub name: [u16; 20],
    pub host: HostInfo,
}

/// The model of a [`HostPacket`]: arrays and vectors as sequences.
pub struct HostPacketView {
    pub identifier: u16,
    pub version: u16,
    pub port: u16,
    pub ipaddr: u32,
    pub name: Seq<u16>,
    pub host: HostInfoView,
}

impl View for HostPacket {
    type V = HostPacketView;

    open spec fn view(&self) -> HostPacketView {
        HostPacketView { identifier: self.identifier, version: self.version, port: self.port, ipaddr: self.ipaddr, name: self.name@, host: self.host@ }
    }
}

impl Struct for HostPacket {
    open spec fn spec_wf(v: HostPacketView) -> bool {
        v.name.len() == 20 && HostInfo::spec_wf(v.host)
    }

    open spec fn spec_fixed() -> bool {
        true
    }

    open spec fn spec_serialize(v: HostPacketView) -> Seq<u8> {
        le_u16(v.identifier) + (le_u16(v.version) + (le_u16(v.port) + (le_u32(v.ipaddr) + (le_u16s(v.name) + (HostInfo::spec_serialize(v.host))))))
    }

    open spec fn spec_take(s: Seq<u8>) -> Option<(HostPacketView, Seq<u8>)> {
        match take_u16(s) { None => None, Some((identifier, s)) => 
        match take_u16(s) { None => None, Some((version, s)) => 
        match take_u16(s) { None => None, Some((port, s)) => 
        match take_u32(s) { None => None, Some((ipaddr, s)) => 
        match take_u16s(s, 20) { None => None, Some((name, s)) => 
        match HostInfo::spec_take(s) { None => None, Some((host, s)) => 
        Some((HostPacketView { identifier, version, port, ipaddr, name, host }, s))
        } } } } } }
    }

    fn serialize(&self) -> (r: Vec<u8>) {
        let mut out: Vec<u8> = Vec::new();
        push_u16(&mut out, self.identifier);
        push_u16(&mut out, self.version);
        push_u16(&mut out, self.port);
        push_u32(&mut out, self.ipaddr);
        push_u16_array20(&mut out, &self.name);
        let piece = self.host.serialize();
        push_bytes(&mut out, piece.as_slice());
        assert(out@ =~= Self::spec_serialize(self@));
        out
    }

    fn take(data: &[u8], pos: usize) -> (r: Option<(HostPacket, usize)>) {
        let p = pos;
        let (identifier, p) = match read_u16(data, p) { None => return None, Some(x) => x };
        let (version, p) = match read_u16(data, p) { None => return None, Some(x) => x };
        let (port, p) = match read_u16(data, p) { None => return None, Some(x) => x };
        let (ipaddr, p) = match read_u32(data, p) { None => return None, Some(x) => x };
        let (name, p) = match read_u16_array20(data, p) { None => return None, Some(x) => x };
        let (host, p) = match HostInfo::take(data, p) { None => return None, Some(x) => x };
        Some((HostPacket { identifier, version, port, ipaddr, name, host }, p))
    }

    proof fn lemma_roundtrip(v: HostPacketView, rest: Seq<u8>) {
        let t5 = HostInfo::spec_serialize(v.host);
        let t4 = le_u16s(v.name) + t5;
        let t3 = le_u32(v.ipaddr) + t4;
        let t2 = le_u16(v.port) + t3;
        let t1 = le_u16(v.version) + t2;
        let t0 = le_u16(v.identifier) + t1;
        assert(Self::spec_serialize(v) == t0);
        assert(t0 + rest =~= le_u16(v.identifier) + (t1 + rest));
        lemma_u16_roundtrip(v.identifier, t1 + rest);
        assert(t1 + rest =~= le_u16(v.version) + (t2 + rest));
        lemma_u16_roundtrip(v.version, t2 + rest);
        assert(t2 + rest =~= le_u16(v.port) + (t3 + rest));
        lemma_u16_roundtrip(v.port, t3 + rest);
        assert(t3 + rest =~= le_u32(v.ipaddr) + (t4 + rest));
        lemma_u32_roundtrip(v.ipaddr, t4 + rest);
        assert(t4 + rest =~= le_u16s(v.name) + (t5 + rest));
        lemma_u16s_roundtrip(v.name, t5 + rest);
        HostInfo::lemma_roundtrip(v.host, rest);
    }
}

/// The body of `HostPacket` is laid out as the protocol has it, field by
/// field: identifier, version, port, ipaddr, name, host.
pub proof fn law_host_packet_layout(v: HostPacketView)
    requires
        HostPacket::spec_wf(v),
    ensures
        HostPacket::spec_serialize(v).subrange(0, 2) == le_u16(v.identifier),
        HostPacket::spec_serialize(v).subrange(2, 4) == le_u16(v.version),
        HostPacket::spec_serialize(v).subrange(4, 6) == le_u16(v.port),
        HostPacket::spec_serialize(v).subrange(6, 10) == le_u32(v.ipaddr),
        HostPacket::spec_serialize(v).subrange(10, 50) == le_u16s(v.name),
        HostPacket::spec_serialize(v).skip(50) == HostInfo::spec_serialize(v.host),
{
    let b = HostPacket::spec_serialize(v);
    assert(b.subrange(0, 2) =~= le_u16(v.identifier));
    assert(b.subrange(2, 4) =~= le_u16(v.version));
    assert(b.subrange(4, 6) =~= le_u16(v.port));
    assert(b.subrange(6, 10) =~= le_u32(v.ipaddr));
    assert(b.subrange(10, 50) =~= le_u16s(v.name));
    assert(b.skip(50) =~= HostInfo::spec_serialize(v.host));
}

/// A request for the rooms on a local network.
#[derive(Clone, Debug)]
pub struct HostRequest {
    pub identifier: u16,
}

impl View for HostRequest {
    type V = HostRequest;

    open spec fn view(&self) -> HostRequest {
        *self
    }
}

impl Struct for HostRequest {
    open spec fn spec_wf(v: HostRequest) -> bool {
        true
    }

    open spec fn spec_fixed() -> bool {
        true
    }

    open spec fn spec_serialize(v: HostRequest) -> Seq<u8> {
        le_u16(v.identifier)
    }

    open spec fn spec_take(s: Seq<u8>) -> Option<(HostRequest, Seq<u8>)> {
        match take_u16(s) { None => None, Some((identifier, s)) => 
        Some((HostRequest { identifier }, s))
        }
    }

    fn serialize(&self) -> (r: Vec<u8>) {
        let mut out: Vec<u8> = Vec::new();
        push_u16(&mut out, self.identifier);
        assert(out@ =~= Self::spec_serialize(self@));
        out
    }

    fn take(data: &[u8], pos: usize) -> (r: Option<(HostRequest, usize)>) {
        let p = pos;
        let (identifier, p) = match read_u16(data, p) { None => return None, Some(x) => x };
        Some((HostRequest { identifier }, p))
    }

    proof fn lemma_roundtrip(v: HostRequest, rest: Seq<u8>) {
        let t0 = le_u16(v.identifier);
        assert(Self::spec_serialize(v) == t0);
        lemma_u16_roundtrip(v.identifier, rest);
    }
}

} // verus!
