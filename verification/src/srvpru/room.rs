//! Rooms: how a room's name configures its duel, and how a duel's
//! configuration is written back as a name and handed to the duel server.
use vstd::prelude::*;
use vstd::string::StrSliceExecFns;

use crate::text::{
    chars_of, decimal, eq_str, find_char, index_of, parse_i32, parse_i32_chars, parse_unsigned,
    parse_unsigned_chars, push_decimal, push_signed_decimal, push_str, signed_decimal, split_chars,
    split_on, starts_with, starts_with_str, string_of, chars_from, chars_until, trim, trim_chars,
};
use crate::srvpru::processor::{
    fresh_handler, spec_register, strs, Handler, HandlerCondition, HandlerOccasion, Registry,
    RegistryView,
};
use crate::ygopro::constants::Mode;
use crate::ygopro::message::{ctos, srvpru, Direction, MessageType};
use crate::ygopro::message::{HostInfo, HostInfoView};

verus! {

impl Mode {
    /// The letter of a mode in a room name.
    pub open spec fn spec_to_str(self) -> Seq<char> {
        match self {
            Mode::Single => "S"@,
            Mode::Match => "M"@,
            Mode::Tag => "T"@,
        }
    }

    pub fn to_str(&self) -> (r: &'static str)
        ensures
            r@ == self.spec_to_str(),
    {
        match *self {
            Mode::Single => "S",
            Mode::Match => "M",
            Mode::Tag => "T",
        }
    }
}

/// The configuration of a room whose name sets nothing.
pub open spec fn room_defaults() -> HostInfoView {
    HostInfoView {
        lflist: 0,
        rule: 0,
        mode: Mode::Single,
        duel_rule: 5,
        no_check_deck: false,
        no_shuffle_deck: false,
        padding: seq![0u8, 0u8, 0u8],
        start_lp: 8000,
        start_hand: 5,
        draw_count: 1,
        time_limit: 233,
    }
}

/// What one controller of a room name sets. Controllers are matched
/// exactly, or by their prefix for those that carry a number; a number that
/// does not parse gives that field's fallback. Unknown controllers set
/// nothing.
pub open spec fn apply_controller(h: HostInfoView, c: Seq<char>) -> HostInfoView {
    if c == "M"@ || c == "MATCH"@ {
        HostInfoView { mode: Mode::Match, ..h }
    } else if c == "T"@ || c == "TAG"@ {
        HostInfoView { mode: Mode::Tag, ..h }
    } else if c == "OT"@ || c == "TCG"@ {
        HostInfoView { rule: 5, ..h }
    } else if c == "TO"@ || c == "TCGONLY"@ {
        HostInfoView { rule: 1, ..h }
    } else if c == "OO"@ || c == "OCGONLY"@ {
        HostInfoView { rule: 0, ..h }
    } else if c == "SC"@ || c == "CN"@ || c == "CCG"@ || c == "CHINESE"@ {
        HostInfoView { rule: 2, ..h }
    } else if c == "DIY"@ || c == "CUSTOM"@ {
        HostInfoView { rule: 3, ..h }
    } else if c == "NF"@ || c == "NOLFLIST"@ {
        HostInfoView { lflist: -1i32, ..h }
    } else if c == "NU"@ || c == "NOUNIQUE"@ {
        HostInfoView { rule: 4, ..h }
    } else if c == "NC"@ || c == "NOCHECK"@ {
        HostInfoView { no_check_deck: true, ..h }
    } else if c == "NS"@ || c == "NOSHUFFLE"@ {
        HostInfoView { no_shuffle_deck: true, ..h }
    } else if starts_with(c, "TIME"@) {
        HostInfoView { time_limit: match parse_unsigned(c.skip(4), 0xffff) { Some(v) => v as u16, None => 180 }, ..h }
    } else if starts_with(c, "LP"@) {
        HostInfoView { start_lp: match parse_unsigned(c.skip(2), 0xffff_ffff) { Some(v) => v as u32, None => 8000 }, ..h }
    } else if starts_with(c, "START"@) {
        HostInfoView { start_hand: match parse_unsigned(c.skip(5), 0xff) { Some(v) => v as u8, None => 5 }, ..h }
    } else if starts_with(c, "DRAW"@) {
        HostInfoView { draw_count: match parse_unsigned(c.skip(4), 0xff) { Some(v) => v as u8, None => 1 }, ..h }
    } else if starts_with(c, "LFLIST"@) {
        HostInfoView { lflist: match parse_i32(c.skip(6)) { Some(v) => v as i32, None => -1i32 }, ..h }
    } else if starts_with(c, "MR"@) {
        HostInfoView { rule: match parse_unsigned(c.skip(2), 0xff) { Some(v) => v as u8, None => 5 }, ..h }
    } else {
        h
    }
}

/// The controllers that name a card pool set the master rule it stands for,
/// and nothing else: OCG only is 0, TCG only 1, the Chinese pool 2, custom
/// cards 3, no unique cards 4, and OCG and TCG together 5.
pub proof fn law_rule_controllers(h: HostInfoView)
    ensures
        apply_controller(h, "OO"@) == (HostInfoView { rule: 0, ..h }),
        apply_controller(h, "OCGONLY"@) == (HostInfoView { rule: 0, ..h }),
        apply_controller(h, "TO"@) == (HostInfoView { rule: 1, ..h }),
        apply_controller(h, "TCGONLY"@) == (HostInfoView { rule: 1, ..h }),
        apply_controller(h, "SC"@) == (HostInfoView { rule: 2, ..h }),
        apply_controller(h, "CN"@) == (HostInfoView { rule: 2, ..h }),
        apply_controller(h, "CCG"@) == (HostInfoView { rule: 2, ..h }),
        apply_controller(h, "CHINESE"@) == (HostInfoView { rule: 2, ..h }),
        apply_controller(h, "DIY"@) == (HostInfoView { rule: 3, ..h }),
        apply_controller(h, "CUSTOM"@) == (HostInfoView { rule: 3, ..h }),
        apply_controller(h, "NU"@) == (HostInfoView { rule: 4, ..h }),
        apply_controller(h, "NOUNIQUE"@) == (HostInfoView { rule: 4, ..h }),
        apply_controller(h, "OT"@) == (HostInfoView { rule: 5, ..h }),
        apply_controller(h, "TCG"@) == (HostInfoView { rule: 5, ..h }),
{
    reveal_strlit("M");
    reveal_strlit("MATCH");
    reveal_strlit("T");
    reveal_strlit("TAG");
    reveal_strlit("OT");
    reveal_strlit("TCG");
    reveal_strlit("TO");
    reveal_strlit("TCGONLY");
    reveal_strlit("OO");
    reveal_strlit("OCGONLY");
    reveal_strlit("SC");
    reveal_strlit("CN");
    reveal_strlit("CCG");
    reveal_strlit("CHINESE");
    reveal_strlit("DIY");
    reveal_strlit("CUSTOM");
    reveal_strlit("NF");
    reveal_strlit("NOLFLIST");
    reveal_strlit("NU");
    reveal_strlit("NOUNIQUE");
    assert("OO"@.len() != "M"@.len());
    assert("OO"@.len() != "MATCH"@.len());
    assert("OO"@.len() != "T"@.len());
    assert("OO"@.len() != "TAG"@.len());
    assert("OO"@[1] != "OT"@[1]);
    assert("OO"@.len() != "TCG"@.len());
    assert("OO"@[0] != "TO"@[0]);
    assert("OO"@.len() != "TCGONLY"@.len());
    assert("OCGONLY"@.len() != "M"@.len());
    assert("OCGONLY"@.len() != "MATCH"@.len());
    assert("OCGONLY"@.len() != "T"@.len());
    assert("OCGONLY"@.len() != "TAG"@.len());
    assert("OCGONLY"@.len() != "OT"@.len());
    assert("OCGONLY"@.len() != "TCG"@.len());
    assert("OCGONLY"@.len() != "TO"@.len());
    assert("OCGONLY"@[0] != "TCGONLY"@[0]);
    assert("OCGONLY"@.len() != "OO"@.len());
    assert("TO"@.len() != "M"@.len());
    assert("TO"@.len() != "MATCH"@.len());
    assert("TO"@.len() != "T"@.len());
    assert("TO"@.len() != "TAG"@.len());
    assert("TO"@[0] != "OT"@[0]);
    assert("TO"@.len() != "TCG"@.len());
    assert("TCGONLY"@.len() != "M"@.len());
    assert("TCGONLY"@.len() != "MATCH"@.len());
    assert("TCGONLY"@.len() != "T"@.len());
    assert("TCGONLY"@.len() != "TAG"@.len());
    assert("TCGONLY"@.len() != "OT"@.len());
    assert("TCGONLY"@.len() != "TCG"@.len());
    assert("TCGONLY"@.len() != "TO"@.len());
    assert("SC"@.len() != "M"@.len());
    assert("SC"@.len() != "MATCH"@.len());
    assert("SC"@.len() != "T"@.len());
    assert("SC"@.len() != "TAG"@.len());
    assert("SC"@[0] != "OT"@[0]);
    assert("SC"@.len() != "TCG"@.len());
    assert("SC"@[0] != "TO"@[0]);
    assert("SC"@.len() != "TCGONLY"@.len());
    assert("SC"@[0] != "OO"@[0]);
    assert("SC"@.len() != "OCGONLY"@.len());
    assert("CN"@.len() != "M"@.len());
    assert("CN"@.len() != "MATCH"@.len());
    assert("CN"@.len() != "T"@.len());
    assert("CN"@.len() != "TAG"@.len());
    assert("CN"@[0] != "OT"@[0]);
    assert("CN"@.len() != "TCG"@.len());
    assert("CN"@[0] != "TO"@[0]);
    assert("CN"@.len() != "TCGONLY"@.len());
    assert("CN"@[0] != "OO"@[0]);
    assert("CN"@.len() != "OCGONLY"@.len());
    assert("CN"@[0] != "SC"@[0]);
    assert("CCG"@.len() != "M"@.len());
    assert("CCG"@.len() != "MATCH"@.len());
    assert("CCG"@.len() != "T"@.len());
    assert("CCG"@[0] != "TAG"@[0]);
    assert("CCG"@.len() != "OT"@.len());
    assert("CCG"@[0] != "TCG"@[0]);
    assert("CCG"@.len() != "TO"@.len());
    assert("CCG"@.len() != "TCGONLY"@.len());
    assert("CCG"@.len() != "OO"@.len());
    assert("CCG"@.len() != "OCGONLY"@.len());
    assert("CCG"@.len() != "SC"@.len());
    assert("CCG"@.len() != "CN"@.len());
    assert("CHINESE"@.len() != "M"@.len());
    assert("CHINESE"@.len() != "MATCH"@.len());
    assert("CHINESE"@.len() != "T"@.len());
    assert("CHINESE"@.len() != "TAG"@.len());
    assert("CHINESE"@.len() != "OT"@.len());
    assert("CHINESE"@.len() != "TCG"@.len());
    assert("CHINESE"@.len() != "TO"@.len());
    assert("CHINESE"@[0] != "TCGONLY"@[0]);
    assert("CHINESE"@.len() != "OO"@.len());
    assert("CHINESE"@[0] != "OCGONLY"@[0]);
    assert("CHINESE"@.len() != "SC"@.len());
    assert("CHINESE"@.len() != "CN"@.len());
    assert("CHINESE"@.len() != "CCG"@.len());
    assert("DIY"@.len() != "M"@.len());
    assert("DIY"@.len() != "MATCH"@.len());
    assert("DIY"@.len() != "T"@.len());
    assert("DIY"@[0] != "TAG"@[0]);
    assert("DIY"@.len() != "OT"@.len());
    assert("DIY"@[0] != "TCG"@[0]);
    assert("DIY"@.len() != "TO"@.len());
    assert("DIY"@.len() != "TCGONLY"@.len());
    assert("DIY"@.len() != "OO"@.len());
    assert("DIY"@.len() != "OCGONLY"@.len());
    assert("DIY"@.len() != "SC"@.len());
    assert("DIY"@.len() != "CN"@.len());
    assert("DIY"@[0] != "CCG"@[0]);
    assert("DIY"@.len() != "CHINESE"@.len());
    assert("CUSTOM"@.len() != "M"@.len());
    assert("CUSTOM"@.len() != "MATCH"@.len());
    assert("CUSTOM"@.len() != "T"@.len());
    assert("CUSTOM"@.len() != "TAG"@.len());
    assert("CUSTOM"@.len() != "OT"@.len());
    assert("CUSTOM"@.len() != "TCG"@.len());
    assert("CUSTOM"@.len() != "TO"@.len());
    assert("CUSTOM"@.len() != "TCGONLY"@.len());
    assert("CUSTOM"@.len() != "OO"@.len());
    assert("CUSTOM"@.len() != "OCGONLY"@.len());
    assert("CUSTOM"@.len() != "SC"@.len());
    assert("CUSTOM"@.len() != "CN"@.len());
    assert("CUSTOM"@.len() != "CCG"@.len());
    assert("CUSTOM"@.len() != "CHINESE"@.len());
    assert("CUSTOM"@.len() != "DIY"@.len());
    assert("NU"@.len() != "M"@.len());
    assert("NU"@.len() != "MATCH"@.len());
    assert("NU"@.len() != "T"@.len());
    assert("NU"@.len() != "TAG"@.len());
    assert("NU"@[0] != "OT"@[0]);
    assert("NU"@.len() != "TCG"@.len());
    assert("NU"@[0] != "TO"@[0]);
    assert("NU"@.len() != "TCGONLY"@.len());
    assert("NU"@[0] != "OO"@[0]);
    assert("NU"@.len() != "OCGONLY"@.len());
    assert("NU"@[0] != "SC"@[0]);
    assert("NU"@[0] != "CN"@[0]);
    assert("NU"@.len() != "CCG"@.len());
    assert("NU"@.len() != "CHINESE"@.len());
    assert("NU"@.len() != "DIY"@.len());
    assert("NU"@.len() != "CUSTOM"@.len());
    assert("NU"@[1] != "NF"@[1]);
    assert("NU"@.len() != "NOLFLIST"@.len());
    assert("NOUNIQUE"@.len() != "M"@.len());
    assert("NOUNIQUE"@.len() != "MATCH"@.len());
    assert("NOUNIQUE"@.len() != "T"@.len());
    assert("NOUNIQUE"@.len() != "TAG"@.len());
    assert("NOUNIQUE"@.len() != "OT"@.len());
    assert("NOUNIQUE"@.len() != "TCG"@.len());
    assert("NOUNIQUE"@.len() != "TO"@.len());
    assert("NOUNIQUE"@.len() != "TCGONLY"@.len());
    assert("NOUNIQUE"@.len() != "OO"@.len());
    assert("NOUNIQUE"@.len() != "OCGONLY"@.len());
    assert("NOUNIQUE"@.len() != "SC"@.len());
    assert("NOUNIQUE"@.len() != "CN"@.len());
    assert("NOUNIQUE"@.len() != "CCG"@.len());
    assert("NOUNIQUE"@.len() != "CHINESE"@.len());
    assert("NOUNIQUE"@.len() != "DIY"@.len());
    assert("NOUNIQUE"@.len() != "CUSTOM"@.len());
    assert("NOUNIQUE"@.len() != "NF"@.len());
    assert("NOUNIQUE"@[2] != "NOLFLIST"@[2]);
    assert("NOUNIQUE"@.len() != "NU"@.len());
    assert("OT"@.len() != "M"@.len());
    assert("OT"@.len() != "MATCH"@.len());
    assert("OT"@.len() != "T"@.len());
    assert("OT"@.len() != "TAG"@.len());
    assert("TCG"@.len() != "M"@.len());
    assert("TCG"@.len() != "MATCH"@.len());
    assert("TCG"@.len() != "T"@.len());
    assert("TCG"@[1] != "TAG"@[1]);
    assert("TCG"@.len() != "OT"@.len());
}

/// The controllers that name a mode or a flag set it and nothing else: a
/// match or a tag duel, no ban list, no deck check, no shuffling.
pub proof fn law_mode_and_flag_controllers(h: HostInfoView)
    ensures
        apply_controller(h, "M"@) == (HostInfoView { mode: Mode::Match, ..h }),
        apply_controller(h, "MATCH"@) == (HostInfoView { mode: Mode::Match, ..h }),
        apply_controller(h, "T"@) == (HostInfoView { mode: Mode::Tag, ..h }),
        apply_controller(h, "TAG"@) == (HostInfoView { mode: Mode::Tag, ..h }),
        apply_controller(h, "NF"@) == (HostInfoView { lflist: -1i32, ..h }),
        apply_controller(h, "NOLFLIST"@) == (HostInfoView { lflist: -1i32, ..h }),
        apply_controller(h, "NC"@) == (HostInfoView { no_check_deck: true, ..h }),
        apply_controller(h, "NOCHECK"@) == (HostInfoView { no_check_deck: true, ..h }),
        apply_controller(h, "NS"@) == (HostInfoView { no_shuffle_deck: true, ..h }),
        apply_controller(h, "NOSHUFFLE"@) == (HostInfoView { no_shuffle_deck: true, ..h }),
{
    reveal_strlit("M");
    reveal_strlit("MATCH");
    reveal_strlit("T");
    reveal_strlit("TAG");
    reveal_strlit("OT");
    reveal_strlit("TCG");
    reveal_strlit("TO");
    reveal_strlit("TCGONLY");
    reveal_strlit("OO");
    reveal_strlit("OCGONLY");
    reveal_strlit("SC");
    reveal_strlit("CN");
    reveal_strlit("CCG");
    reveal_strlit("CHINESE");
    reveal_strlit("DIY");
    reveal_strlit("CUSTOM");
    reveal_strlit("NF");
    reveal_strlit("NOLFLIST");
    reveal_strlit("NU");
    reveal_strlit("NOUNIQUE");
    reveal_strlit("NC");
    reveal_strlit("NOCHECK");
    reveal_strlit("NS");
    reveal_strlit("NOSHUFFLE");
    assert("MATCH"@.len() != "M"@.len());
    assert("T"@[0] != "M"@[0]);
    assert("T"@.len() != "MATCH"@.len());
    assert("TAG"@.len() != "M"@.len());
    assert("TAG"@.len() != "MATCH"@.len());
    assert("TAG"@.len() != "T"@.len());
    assert("NF"@.len() != "M"@.len());
    assert("NF"@.len() != "MATCH"@.len());
    assert("NF"@.len() != "T"@.len());
    assert("NF"@.len() != "TAG"@.len());
    assert("NF"@[0] != "OT"@[0]);
    assert("NF"@.len() != "TCG"@.len());
    assert("NF"@[0] != "TO"@[0]);
    assert("NF"@.len() != "TCGONLY"@.len());
    assert("NF"@[0] != "OO"@[0]);
    assert("NF"@.len() != "OCGONLY"@.len());
    assert("NF"@[0] != "SC"@[0]);
    assert("NF"@[0] != "CN"@[0]);
    assert("NF"@.len() != "CCG"@.len());
    assert("NF"@.len() != "CHINESE"@.len());
    assert("NF"@.len() != "DIY"@.len());
    assert("NF"@.len() != "CUSTOM"@.len());
    assert("NOLFLIST"@.len() != "M"@.len());
    assert("NOLFLIST"@.len() != "MATCH"@.len());
    assert("NOLFLIST"@.len() != "T"@.len());
    assert("NOLFLIST"@.len() != "TAG"@.len());
    assert("NOLFLIST"@.len() != "OT"@.len());
    assert("NOLFLIST"@.len() != "TCG"@.len());
    assert("NOLFLIST"@.len() != "TO"@.len());
    assert("NOLFLIST"@.len() != "TCGONLY"@.len());
    assert("NOLFLIST"@.len() != "OO"@.len());
    assert("NOLFLIST"@.len() != "OCGONLY"@.len());
    assert("NOLFLIST"@.len() != "SC"@.len());
    assert("NOLFLIST"@.len() != "CN"@.len());
    assert("NOLFLIST"@.len() != "CCG"@.len());
    assert("NOLFLIST"@.len() != "CHINESE"@.len());
    assert("NOLFLIST"@.len() != "DIY"@.len());
    assert("NOLFLIST"@.len() != "CUSTOM"@.len());
    assert("NOLFLIST"@.len() != "NF"@.len());
    assert("NC"@.len() != "M"@.len());
    assert("NC"@.len() != "MATCH"@.len());
    assert("NC"@.len() != "T"@.len());
    assert("NC"@.len() != "TAG"@.len());
    assert("NC"@[0] != "OT"@[0]);
    assert("NC"@.len() != "TCG"@.len());
    assert("NC"@[0] != "TO"@[0]);
    assert("NC"@.len() != "TCGONLY"@.len());
    assert("NC"@[0] != "OO"@[0]);
    assert("NC"@.len() != "OCGONLY"@.len());
    assert("NC"@[0] != "SC"@[0]);
    assert("NC"@[0] != "CN"@[0]);
    assert("NC"@.len() != "CCG"@.len());
    assert("NC"@.len() != "CHINESE"@.len());
    assert("NC"@.len() != "DIY"@.len());
    assert("NC"@.len() != "CUSTOM"@.len());
    assert("NC"@[1] != "NF"@[1]);
    assert("NC"@.len() != "NOLFLIST"@.len());
    assert("NC"@[1] != "NU"@[1]);
    assert("NC"@.len() != "NOUNIQUE"@.len());
    assert("NOCHECK"@.len() != "M"@.len());
    assert("NOCHECK"@.len() != "MATCH"@.len());
    assert("NOCHECK"@.len() != "T"@.len());
    assert("NOCHECK"@.len() != "TAG"@.len());
    assert("NOCHECK"@.len() != "OT"@.len());
    assert("NOCHECK"@.len() != "TCG"@.len());
    assert("NOCHECK"@.len() != "TO"@.len());
    assert("NOCHECK"@[0] != "TCGONLY"@[0]);
    assert("NOCHECK"@.len() != "OO"@.len());
    assert("NOCHECK"@[0] != "OCGONLY"@[0]);
    assert("NOCHECK"@.len() != "SC"@.len());
    assert("NOCHECK"@.len() != "CN"@.len());
    assert("NOCHECK"@.len() != "CCG"@.len());
    assert("NOCHECK"@[0] != "CHINESE"@[0]);
    assert("NOCHECK"@.len() != "DIY"@.len());
    assert("NOCHECK"@.len() != "CUSTOM"@.len());
    assert("NOCHECK"@.len() != "NF"@.len());
    assert("NOCHECK"@.len() != "NOLFLIST"@.len());
    assert("NOCHECK"@.len() != "NU"@.len());
    assert("NOCHECK"@.len() != "NOUNIQUE"@.len());
    assert("NOCHECK"@.len() != "NC"@.len());
    assert("NS"@.len() != "M"@.len());
    assert("NS"@.len() != "MATCH"@.len());
    assert("NS"@.len() != "T"@.len());
    assert("NS"@.len() != "TAG"@.len());
    assert("NS"@[0] != "OT"@[0]);
    assert("NS"@.len() != "TCG"@.len());
    assert("NS"@[0] != "TO"@[0]);
    assert("NS"@.len() != "TCGONLY"@.len());
    assert("NS"@[0] != "OO"@[0]);
    assert("NS"@.len() != "OCGONLY"@.len());
    assert("NS"@[0] != "SC"@[0]);
    assert("NS"@[0] != "CN"@[0]);
    assert("NS"@.len() != "CCG"@.len());
    assert("NS"@.len() != "CHINESE"@.len());
    assert("NS"@.len() != "DIY"@.len());
    assert("NS"@.len() != "CUSTOM"@.len());
    assert("NS"@[1] != "NF"@[1]);
    assert("NS"@.len() != "NOLFLIST"@.len());
    assert("NS"@[1] != "NU"@[1]);
    assert("NS"@.len() != "NOUNIQUE"@.len());
    assert("NS"@[1] != "NC"@[1]);
    assert("NS"@.len() != "NOCHECK"@.len());
    assert("NOSHUFFLE"@.len() != "M"@.len());
    assert("NOSHUFFLE"@.len() != "MATCH"@.len());
    assert("NOSHUFFLE"@.len() != "T"@.len());
    assert("NOSHUFFLE"@.len() != "TAG"@.len());
    assert("NOSHUFFLE"@.len() != "OT"@.len());
    assert("NOSHUFFLE"@.len() != "TCG"@.len());
    assert("NOSHUFFLE"@.len() != "TO"@.len());
    assert("NOSHUFFLE"@.len() != "TCGONLY"@.len());
    assert("NOSHUFFLE"@.len() != "OO"@.len());
    assert("NOSHUFFLE"@.len() != "OCGONLY"@.len());
    assert("NOSHUFFLE"@.len() != "SC"@.len());
    assert("NOSHUFFLE"@.len() != "CN"@.len());
    assert("NOSHUFFLE"@.len() != "CCG"@.len());
    assert("NOSHUFFLE"@.len() != "CHINESE"@.len());
    assert("NOSHUFFLE"@.len() != "DIY"@.len());
    assert("NOSHUFFLE"@.len() != "CUSTOM"@.len());
    assert("NOSHUFFLE"@.len() != "NF"@.len());
    assert("NOSHUFFLE"@.len() != "NOLFLIST"@.len());
    assert("NOSHUFFLE"@.len() != "NU"@.len());
    assert("NOSHUFFLE"@.len() != "NOUNIQUE"@.len());
    assert("NOSHUFFLE"@.len() != "NC"@.len());
    assert("NOSHUFFLE"@.len() != "NOCHECK"@.len());
    assert("NOSHUFFLE"@.len() != "NS"@.len());
}

/// A controller that carries a number but has none sets its field's
/// fallback: a time limit of 180, 8000 life points, a hand of 5, 1 card
/// drawn, no ban list, master rule 5.
pub proof fn law_number_controllers_fall_back(h: HostInfoView)
    ensures
        apply_controller(h, "TIME"@) == (HostInfoView { time_limit: 180u16, ..h }),
        apply_controller(h, "LP"@) == (HostInfoView { start_lp: 8000u32, ..h }),
        apply_controller(h, "START"@) == (HostInfoView { start_hand: 5u8, ..h }),
        apply_controller(h, "DRAW"@) == (HostInfoView { draw_count: 1u8, ..h }),
        apply_controller(h, "LFLIST"@) == (HostInfoView { lflist: -1i32, ..h }),
        apply_controller(h, "MR"@) == (HostInfoView { rule: 5u8, ..h }),
{
    reveal_strlit("M");
    reveal_strlit("MATCH");
    reveal_strlit("T");
    reveal_strlit("TAG");
    reveal_strlit("OT");
    reveal_strlit("TCG");
    reveal_strlit("TO");
    reveal_strlit("TCGONLY");
    reveal_strlit("OO");
    reveal_strlit("OCGONLY");
    reveal_strlit("SC");
    reveal_strlit("CN");
    reveal_strlit("CCG");
    reveal_strlit("CHINESE");
    reveal_strlit("DIY");
    reveal_strlit("CUSTOM");
    reveal_strlit("NF");
    reveal_strlit("NOLFLIST");
    reveal_strlit("NU");
    reveal_strlit("NOUNIQUE");
    reveal_strlit("NC");
    reveal_strlit("NOCHECK");
    reveal_strlit("NS");
    reveal_strlit("NOSHUFFLE");
    reveal_strlit("TIME");
    reveal_strlit("LP");
    reveal_strlit("START");
    reveal_strlit("DRAW");
    reveal_strlit("LFLIST");
    reveal_strlit("MR");
    assert("TIME"@.len() != "M"@.len());
    assert("TIME"@.len() != "MATCH"@.len());
    assert("TIME"@.len() != "T"@.len());
    assert("TIME"@.len() != "TAG"@.len());
    assert("TIME"@.len() != "OT"@.len());
    assert("TIME"@.len() != "TCG"@.len());
    assert("TIME"@.len() != "TO"@.len());
    assert("TIME"@.len() != "TCGONLY"@.len());
    assert("TIME"@.len() != "OO"@.len());
    assert("TIME"@.len() != "OCGONLY"@.len());
    assert("TIME"@.len() != "SC"@.len());
    assert("TIME"@.len() != "CN"@.len());
    assert("TIME"@.len() != "CCG"@.len());
    assert("TIME"@.len() != "CHINESE"@.len());
    assert("TIME"@.len() != "DIY"@.len());
    assert("TIME"@.len() != "CUSTOM"@.len());
    assert("TIME"@.len() != "NF"@.len());
    assert("TIME"@.len() != "NOLFLIST"@.len());
    assert("TIME"@.len() != "NU"@.len());
    assert("TIME"@.len() != "NOUNIQUE"@.len());
    assert("TIME"@.len() != "NC"@.len());
    assert("TIME"@.len() != "NOCHECK"@.len());
    assert("TIME"@.len() != "NS"@.len());
    assert("TIME"@.len() != "NOSHUFFLE"@.len());
    assert("TIME"@.take("TIME"@.len() as int) =~= "TIME"@);
    assert("TIME"@.skip(4) =~= Seq::<char>::empty());
    assert("LP"@.len() != "M"@.len());
    assert("LP"@.len() != "MATCH"@.len());
    assert("LP"@.len() != "T"@.len());
    assert("LP"@.len() != "TAG"@.len());
    assert("LP"@[0] != "OT"@[0]);
    assert("LP"@.len() != "TCG"@.len());
    assert("LP"@[0] != "TO"@[0]);
    assert("LP"@.len() != "TCGONLY"@.len());
    assert("LP"@[0] != "OO"@[0]);
    assert("LP"@.len() != "OCGONLY"@.len());
    assert("LP"@[0] != "SC"@[0]);
    assert("LP"@[0] != "CN"@[0]);
    assert("LP"@.len() != "CCG"@.len());
    assert("LP"@.len() != "CHINESE"@.len());
    assert("LP"@.len() != "DIY"@.len());
    assert("LP"@.len() != "CUSTOM"@.len());
    assert("LP"@[0] != "NF"@[0]);
    assert("LP"@.len() != "NOLFLIST"@.len());
    assert("LP"@[0] != "NU"@[0]);
    assert("LP"@.len() != "NOUNIQUE"@.len());
    assert("LP"@[0] != "NC"@[0]);
    assert("LP"@.len() != "NOCHECK"@.len());
    assert("LP"@[0] != "NS"@[0]);
    assert("LP"@.len() != "NOSHUFFLE"@.len());
    assert(!starts_with("LP"@, "TIME"@));
    assert("LP"@.take("LP"@.len() as int) =~= "LP"@);
    assert("LP"@.skip(2) =~= Seq::<char>::empty());
    assert("START"@.len() != "M"@.len());
    assert("START"@[0] != "MATCH"@[0]);
    assert("START"@.len() != "T"@.len());
    assert("START"@.len() != "TAG"@.len());
    assert("START"@.len() != "OT"@.len());
    assert("START"@.len() != "TCG"@.len());
    assert("START"@.len() != "TO"@.len());
    assert("START"@.len() != "TCGONLY"@.len());
    assert("START"@.len() != "OO"@.len());
    assert("START"@.len() != "OCGONLY"@.len());
    assert("START"@.len() != "SC"@.len());
    assert("START"@.len() != "CN"@.len());
    assert("START"@.len() != "CCG"@.len());
    assert("START"@.len() != "CHINESE"@.len());
    assert("START"@.len() != "DIY"@.len());
    assert("START"@.len() != "CUSTOM"@.len());
    assert("START"@.len() != "NF"@.len());
    assert("START"@.len() != "NOLFLIST"@.len());
    assert("START"@.len() != "NU"@.len());
    assert("START"@.len() != "NOUNIQUE"@.len());
    assert("START"@.len() != "NC"@.len());
    assert("START"@.len() != "NOCHECK"@.len());
    assert("START"@.len() != "NS"@.len());
    assert("START"@.len() != "NOSHUFFLE"@.len());
    assert("START"@[0] != "TIME"@[0]);
    assert(!starts_with("START"@, "TIME"@));
    assert("START"@[0] != "LP"@[0]);
    assert(!starts_with("START"@, "LP"@));
    assert("START"@.take("START"@.len() as int) =~= "START"@);
    assert("START"@.skip(5) =~= Seq::<char>::empty());
    assert("DRAW"@.len() != "M"@.len());
    assert("DRAW"@.len() != "MATCH"@.len());
    assert("DRAW"@.len() != "T"@.len());
    assert("DRAW"@.len() != "TAG"@.len());
    assert("DRAW"@.len() != "OT"@.len());
    assert("DRAW"@.len() != "TCG"@.len());
    assert("DRAW"@.len() != "TO"@.len());
    assert("DRAW"@.len() != "TCGONLY"@.len());
    assert("DRAW"@.len() != "OO"@.len());
    assert("DRAW"@.len() != "OCGONLY"@.len());
    assert("DRAW"@.len() != "SC"@.len());
    assert("DRAW"@.len() != "CN"@.len());
    assert("DRAW"@.len() != "CCG"@.len());
    assert("DRAW"@.len() != "CHINESE"@.len());
    assert("DRAW"@.len() != "DIY"@.len());
    assert("DRAW"@.len() != "CUSTOM"@.len());
    assert("DRAW"@.len() != "NF"@.len());
    assert("DRAW"@.len() != "NOLFLIST"@.len());
    assert("DRAW"@.len() != "NU"@.len());
    assert("DRAW"@.len() != "NOUNIQUE"@.len());
    assert("DRAW"@.len() != "NC"@.len());
    assert("DRAW"@.len() != "NOCHECK"@.len());
    assert("DRAW"@.len() != "NS"@.len());
    assert("DRAW"@.len() != "NOSHUFFLE"@.len());
    assert("DRAW"@[0] != "TIME"@[0]);
    assert(!starts_with("DRAW"@, "TIME"@));
    assert("DRAW"@[0] != "LP"@[0]);
    assert(!starts_with("DRAW"@, "LP"@));
    assert(!starts_with("DRAW"@, "START"@));
    assert("DRAW"@.take("DRAW"@.len() as int) =~= "DRAW"@);
    assert("DRAW"@.skip(4) =~= Seq::<char>::empty());
    assert("LFLIST"@.len() != "M"@.len());
    assert("LFLIST"@.len() != "MATCH"@.len());
    assert("LFLIST"@.len() != "T"@.len());
    assert("LFLIST"@.len() != "TAG"@.len());
    assert("LFLIST"@.len() != "OT"@.len());
    assert("LFLIST"@.len() != "TCG"@.len());
    assert("LFLIST"@.len() != "TO"@.len());
    assert("LFLIST"@.len() != "TCGONLY"@.len());
    assert("LFLIST"@.len() != "OO"@.len());
    assert("LFLIST"@.len() != "OCGONLY"@.len());
    assert("LFLIST"@.len() != "SC"@.len());
    assert("LFLIST"@.len() != "CN"@.len());
    assert("LFLIST"@.len() != "CCG"@.len());
    assert("LFLIST"@.len() != "CHINESE"@.len());
    assert("LFLIST"@.len() != "DIY"@.len());
    assert("LFLIST"@[0] != "CUSTOM"@[0]);
    assert("LFLIST"@.len() != "NF"@.len());
    assert("LFLIST"@.len() != "NOLFLIST"@.len());
    assert("LFLIST"@.len() != "NU"@.len());
    assert("LFLIST"@.len() != "NOUNIQUE"@.len());
    assert("LFLIST"@.len() != "NC"@.len());
    assert("LFLIST"@.len() != "NOCHECK"@.len());
    assert("LFLIST"@.len() != "NS"@.len());
    assert("LFLIST"@.len() != "NOSHUFFLE"@.len());
    assert("LFLIST"@[0] != "TIME"@[0]);
    assert(!starts_with("LFLIST"@, "TIME"@));
    assert("LFLIST"@[1] != "LP"@[1]);
    assert(!starts_with("LFLIST"@, "LP"@));
    assert("LFLIST"@[0] != "START"@[0]);
    assert(!starts_with("LFLIST"@, "START"@));
    assert("LFLIST"@[0] != "DRAW"@[0]);
    assert(!starts_with("LFLIST"@, "DRAW"@));
    assert("LFLIST"@.take("LFLIST"@.len() as int) =~= "LFLIST"@);
    assert("LFLIST"@.skip(6) =~= Seq::<char>::empty());
    assert("MR"@.len() != "M"@.len());
    assert("MR"@.len() != "MATCH"@.len());
    assert("MR"@.len() != "T"@.len());
    assert("MR"@.len() != "TAG"@.len());
    assert("MR"@[0] != "OT"@[0]);
    assert("MR"@.len() != "TCG"@.len());
    assert("MR"@[0] != "TO"@[0]);
    assert("MR"@.len() != "TCGONLY"@.len());
    assert("MR"@[0] != "OO"@[0]);
    assert("MR"@.len() != "OCGONLY"@.len());
    assert("MR"@[0] != "SC"@[0]);
    assert("MR"@[0] != "CN"@[0]);
    assert("MR"@.len() != "CCG"@.len());
    assert("MR"@.len() != "CHINESE"@.len());
    assert("MR"@.len() != "DIY"@.len());
    assert("MR"@.len() != "CUSTOM"@.len());
    assert("MR"@[0] != "NF"@[0]);
    assert("MR"@.len() != "NOLFLIST"@.len());
    assert("MR"@[0] != "NU"@[0]);
    assert("MR"@.len() != "NOUNIQUE"@.len());
    assert("MR"@[0] != "NC"@[0]);
    assert("MR"@.len() != "NOCHECK"@.len());
    assert("MR"@[0] != "NS"@[0]);
    assert("MR"@.len() != "NOSHUFFLE"@.len());
    assert(!starts_with("MR"@, "TIME"@));
    assert("MR"@[0] != "LP"@[0]);
    assert(!starts_with("MR"@, "LP"@));
    assert(!starts_with("MR"@, "START"@));
    assert(!starts_with("MR"@, "DRAW"@));
    assert(!starts_with("MR"@, "LFLIST"@));
    assert("MR"@.take("MR"@.len() as int) =~= "MR"@);
    assert("MR"@.skip(2) =~= Seq::<char>::empty());
}

/// What the controllers `cs` set, in order, each without surrounding white
/// space.
pub open spec fn apply_controllers(h: HostInfoView, cs: Seq<Seq<char>>) -> HostInfoView
    decreases cs.len(),
{
    if cs.len() == 0 {
        h
    } else {
        apply_controller(apply_controllers(h, cs.drop_last()), trim(cs.last()))
    }
}

/// A room name cut at its first `#`: the controllers before it and the name
/// after it. A name without `#` has no controllers.
pub open spec fn split_room_name(origin: Seq<char>) -> (Seq<char>, Seq<char>) {
    let i = index_of(origin, '#');
    if i >= 0 { (origin.take(i), origin.skip(i + 1)) } else { (Seq::empty(), origin) }
}

/// What a room name sets, and the name that is left: the comma-separated
/// controllers before the first `#` are applied in order.
pub open spec fn spec_decide(h: HostInfoView, origin: Seq<char>) -> (HostInfoView, Seq<char>) {
    let (controllers, name) = split_room_name(origin);
    (apply_controllers(h, split_on(controllers, ',')), name)
}

/// Pieces joined with commas.
pub open spec fn join_commas(ps: Seq<Seq<char>>) -> Seq<char>
    decreases ps.len(),
{
    if ps.len() == 0 {
        Seq::empty()
    } else if ps.len() == 1 {
        ps[0]
    } else {
        join_commas(ps.drop_last()) + seq![','] + ps.last()
    }
}

/// The controllers that write a configuration, in order: mode, time limit,
/// starting hand, life points, draw count, master rule, ban list, and the
/// two deck flags where they are set.
pub open spec fn host_info_pieces(h: HostInfoView) -> Seq<Seq<char>> {
    seq![
        h.mode.spec_to_str(),
        "TIME"@ + decimal(h.time_limit as nat),
        "START"@ + decimal(h.start_hand as nat),
        "LP"@ + decimal(h.start_lp as nat),
        "DRAW"@ + decimal(h.draw_count as nat),
        "MR"@ + decimal(h.rule as nat),
        "LFLIST"@ + signed_decimal(h.lflist as int)
    ] + (if h.no_check_deck { seq!["NC"@] } else { Seq::<Seq<char>>::empty() })
      + (if h.no_shuffle_deck { seq!["NS"@] } else { Seq::<Seq<char>>::empty() })
}

/// A configuration written as room-name controllers, joined with commas.
pub open spec fn host_info_text(h: HostInfoView) -> Seq<char> {
    join_commas(host_info_pieces(h))
}

pub open spec fn flag_text(b: bool) -> Seq<char> {
    if b { "T"@ } else { "F"@ }
}

/// The arguments that start a duel server for a configuration.
pub open spec fn process_args(h: HostInfoView) -> Seq<Seq<char>> {
    seq![
        "0"@,
        signed_decimal(h.lflist as int),
        decimal(h.rule as nat),
        decimal(h.mode.spec_value() as nat),
        decimal(h.duel_rule as nat),
        flag_text(h.no_check_deck),
        flag_text(h.no_shuffle_deck),
        decimal(h.start_lp as nat),
        decimal(h.start_hand as nat),
        decimal(h.draw_count as nat),
        decimal(h.time_limit as nat),
        "0"@
    ]
}

fn decimal_string(n: u64) -> (r: String)
    ensures
        r@ == decimal(n as nat),
{
    let mut out: Vec<char> = Vec::new();
    push_decimal(&mut out, n);
    assert(out@ =~= decimal(n as nat));
    string_of(out.as_slice())
}

/// The pieces joined with commas.
fn join_pieces(pieces: &Vec<Vec<char>>) -> (r: Vec<char>)
    ensures
        r@ == join_commas(crate::text::pieces_view(pieces@)),
{
    let ghost ps = crate::text::pieces_view(pieces@);
    let mut out: Vec<char> = Vec::new();
    let mut i: usize = 0;
    while i < pieces.len()
        invariant
            ps == crate::text::pieces_view(pieces@),
            i <= ps.len(),
            out@ == join_commas(ps.take(i as int)),
        decreases ps.len() - i,
    {
        proof {
            assert(ps.take(i + 1).drop_last() =~= ps.take(i as int));
            assert(ps.take(i + 1).last() == pieces@[i as int]@);
        }
        let ghost head0 = out@;
        if i > 0 {
            out.push(',');
        }
        let piece = &pieces[i];
        let mut k: usize = 0;
        let ghost head = out@;
        while k < piece.len()
            invariant
                k <= piece@.len(),
                out@ == head + piece@.take(k as int),
            decreases piece@.len() - k,
        {
            out.push(piece[k]);
            k = k + 1;
            assert(out@ =~= head + piece@.take(k as int));
        }
        assert(piece@.take(k as int) =~= piece@);
        proof {
            if i == 0 {
                assert(ps.take(1).len() == 1);
                assert(head =~= Seq::<char>::empty());
                assert(out@ =~= ps.take(1)[0]);
            } else {
                assert(out@ =~= head0 + seq![','] + piece@);
            }
        }
        i = i + 1;
    }
    assert(ps.take(i as int) =~= ps);
    out
}

impl HostInfo {
    /// The configuration of a room whose name sets nothing.
    pub fn new() -> (r: HostInfo)
        ensures
            r@ == room_defaults(),
    {
        let r = HostInfo {
            lflist: 0,
            rule: 0,
            mode: Mode::Single,
            duel_rule: 5,
            no_check_deck: false,
            no_shuffle_deck: false,
            padding: [0u8; 3],
            start_lp: 8000,
            start_hand: 5,
            draw_count: 1,
            time_limit: 233,
        };
        assert(r@.padding =~= seq![0u8, 0u8, 0u8]);
        r
    }

    fn apply_controller(&mut self, c: &[char])
        ensures
            final(self)@ == apply_controller(old(self)@, c@),
    {
        if eq_str(c, "M") || eq_str(c, "MATCH") {
            self.mode = Mode::Match;
        } else if eq_str(c, "T") || eq_str(c, "TAG") {
            self.mode = Mode::Tag;
        } else if eq_str(c, "OT") || eq_str(c, "TCG") {
            self.rule = 5;
        } else if eq_str(c, "TO") || eq_str(c, "TCGONLY") {
            self.rule = 1;
        } else if eq_str(c, "OO") || eq_str(c, "OCGONLY") {
            self.rule = 0;
        } else if eq_str(c, "SC") || eq_str(c, "CN") || eq_str(c, "CCG") || eq_str(c, "CHINESE") {
            self.rule = 2;
        } else if eq_str(c, "DIY") || eq_str(c, "CUSTOM") {
            self.rule = 3;
        } else if eq_str(c, "NF") || eq_str(c, "NOLFLIST") {
            self.lflist = -1;
        } else if eq_str(c, "NU") || eq_str(c, "NOUNIQUE") {
            self.rule = 4;
        } else if eq_str(c, "NC") || eq_str(c, "NOCHECK") {
            self.no_check_deck = true;
        } else if eq_str(c, "NS") || eq_str(c, "NOSHUFFLE") {
            self.no_shuffle_deck = true;
        } else if starts_with_str(c, "TIME") {
            proof { reveal_strlit("TIME"); }
            let rest = chars_from(c, 4);
            self.time_limit = match parse_unsigned_chars(rest.as_slice(), 0xffff) { Some(v) => v as u16, None => 180 };
        } else if starts_with_str(c, "LP") {
            proof { reveal_strlit("LP"); }
            let rest = chars_from(c, 2);
            self.start_lp = match parse_unsigned_chars(rest.as_slice(), 0xffff_ffff) { Some(v) => v as u32, None => 8000 };
        } else if starts_with_str(c, "START") {
            proof { reveal_strlit("START"); }
            let rest = chars_from(c, 5);
            self.start_hand = match parse_unsigned_chars(rest.as_slice(), 0xff) { Some(v) => v as u8, None => 5 };
        } else if starts_with_str(c, "DRAW") {
            proof { reveal_strlit("DRAW"); }
            let rest = chars_from(c, 4);
            self.draw_count = match parse_unsigned_chars(rest.as_slice(), 0xff) { Some(v) => v as u8, None => 1 };
        } else if starts_with_str(c, "LFLIST") {
            proof { reveal_strlit("LFLIST"); }
            let rest = chars_from(c, 6);
            self.lflist = match parse_i32_chars(rest.as_slice()) { Some(v) => v, None => -1 };
        } else if starts_with_str(c, "MR") {
            proof { reveal_strlit("MR"); }
            let rest = chars_from(c, 2);
            self.rule = match parse_unsigned_chars(rest.as_slice(), 0xff) { Some(v) => v as u8, None => 5 };
        }
    }

    /// Apply the controllers of a room name (the comma-separated part before
    /// the first `#`) and return the name after it.
    pub fn decide_host_info_from_name<'a>(&mut self, origin_name: &'a str) -> (r: &'a str)
        ensures
            (final(self)@, r@) == spec_decide(old(self)@, origin_name@),
    {
        let chars = chars_of(origin_name);
        let (controllers, name): (Vec<char>, &'a str) = match find_char(chars.as_slice(), '#') {
            Some(i) => {
                let n = origin_name.unicode_len();
                (chars_until(chars.as_slice(), i), origin_name.substring_char(i + 1, n))
            },
            None => (Vec::new(), origin_name),
        };
        assert(controllers@ == split_room_name(origin_name@).0);
        assert(name@ =~= split_room_name(origin_name@).1);
        let pieces = split_chars(controllers.as_slice(), ',');
        let ghost cs = split_on(controllers@, ',');
        let mut i: usize = 0;
        while i < pieces.len()
            invariant
                crate::text::pieces_view(pieces@) == cs,
                i <= cs.len(),
                self@ == apply_controllers(old(self)@, cs.take(i as int)),
            decreases cs.len() - i,
        {
            proof {
                assert(cs.take(i + 1).drop_last() =~= cs.take(i as int));
                assert(cs.take(i + 1).last() == pieces@[i as int]@);
            }
            let c = trim_chars(pieces[i].as_slice());
            self.apply_controller(c.as_slice());
            i = i + 1;
        }
        assert(cs.take(i as int) =~= cs);
        name
    }

    /// The configuration written as room-name controllers.
    pub fn to_string(&self) -> (r: String)
        ensures
            r@ == host_info_text(self@),
    {
        let mut pieces: Vec<Vec<char>> = Vec::new();
        let mut p: Vec<char> = Vec::new();
        push_str(&mut p, self.mode.to_str());
        pieces.push(p);
        let mut p: Vec<char> = Vec::new();
        push_str(&mut p, "TIME");
        push_decimal(&mut p, self.time_limit as u64);
        pieces.push(p);
        let mut p: Vec<char> = Vec::new();
        push_str(&mut p, "START");
        push_decimal(&mut p, self.start_hand as u64);
        pieces.push(p);
        let mut p: Vec<char> = Vec::new();
        push_str(&mut p, "LP");
        push_decimal(&mut p, self.start_lp as u64);
        pieces.push(p);
        let mut p: Vec<char> = Vec::new();
        push_str(&mut p, "DRAW");
        push_decimal(&mut p, self.draw_count as u64);
        pieces.push(p);
        let mut p: Vec<char> = Vec::new();
        push_str(&mut p, "MR");
        push_decimal(&mut p, self.rule as u64);
        pieces.push(p);
        let mut p: Vec<char> = Vec::new();
        push_str(&mut p, "LFLIST");
        push_signed_decimal(&mut p, self.lflist as i64);
        pieces.push(p);
        let ghost base = crate::text::pieces_view(pieces@);
        if self.no_check_deck {
            let mut p: Vec<char> = Vec::new();
            push_str(&mut p, "NC");
            pieces.push(p);
        }
        let ghost with_nc = crate::text::pieces_view(pieces@);
        if self.no_shuffle_deck {
            let mut p: Vec<char> = Vec::new();
            push_str(&mut p, "NS");
            pieces.push(p);
        }
        assert(crate::text::pieces_view(pieces@) =~= host_info_pieces(self@));
        let out = join_pieces(&pieces);
        string_of(out.as_slice())
    }

    /// The arguments that start a duel server for this configuration.
    pub fn generate_process_args(&self) -> (r: [String; 12])
        ensures
            r@.map_values(|s: String| s@) == process_args(self@),
    {
        let mut lflist: Vec<char> = Vec::new();
        push_signed_decimal(&mut lflist, self.lflist as i64);
        let r = [
            "0".to_owned(),
            string_of(lflist.as_slice()),
            decimal_string(self.rule as u64),
            decimal_string(self.mode.into_u8() as u64),
            decimal_string(self.duel_rule as u64),
            if self.no_check_deck { "T".to_owned() } else { "F".to_owned() },
            if self.no_shuffle_deck { "T".to_owned() } else { "F".to_owned() },
            decimal_string(self.start_lp as u64),
            decimal_string(self.start_hand as u64),
            decimal_string(self.draw_count as u64),
            decimal_string(self.time_limit as u64),
            "0".to_owned(),
        ];
        assert(r@.map_values(|s: String| s@) =~= process_args(self@));
        r
    }
}

/// The port that a duel server announces on its first line of output; 0
/// where the line is not a port.
pub fn port_of_line(line: &str) -> (r: u16)
    ensures
        r == match parse_unsigned(line@, 0xffff) {
            Some(v) => v as u16,
            None => 0u16,
        },
{
    let cs = chars_of(line);
    match parse_unsigned_chars(cs.as_slice(), 0xffff) {
        Some(v) => v as u16,
        None => 0,
    }
}

/// Where a room stands.
#[derive(Copy, Clone, Debug, PartialEq, Eq, Structural)]
pub enum RoomStatus {
    Starting,
    Established,
    Deleted,
}

// ----------------------------------------------------------------------------
//  Writing a configuration as a name and reading it back
// ----------------------------------------------------------------------------

/// Characters that carry no meaning in the controller part of a room name.
pub open spec fn plain(s: Seq<char>) -> bool {
    forall|i: int| 0 <= i < s.len() ==> !crate::text::is_white(#[trigger] s[i]) && s[i] != ',' && s[i] != '#'
}

proof fn lemma_digit_char(k: nat)
    requires
        k < 10,
    ensures
        crate::text::is_digit(crate::text::digit_char(k)),
        ((crate::text::digit_char(k) as u32) - ('0' as u32)) as nat == k,
{
}

proof fn lemma_decimal_plain(n: nat)
    ensures
        decimal(n).len() >= 1,
        crate::text::all_digits(decimal(n)),
        crate::text::digits_value(decimal(n)) == n,
        plain(decimal(n)),
    decreases n,
{
    lemma_digit_char(n % 10);
    if n >= 10 {
        lemma_decimal_plain(n / 10);
        let d = decimal(n / 10);
        assert(decimal(n).drop_last() =~= d);
        assert forall|i: int| 0 <= i < decimal(n).len() implies crate::text::is_digit(#[trigger] decimal(n)[i]) by {
            if i < d.len() {
                assert(decimal(n)[i] == d[i]);
            }
        }
    } else {
        assert(decimal(n).drop_last() =~= Seq::<char>::empty());
        assert(crate::text::digits_value(Seq::<char>::empty()) == 0);
    }
    assert forall|i: int| 0 <= i < decimal(n).len() implies
        !crate::text::is_white(#[trigger] decimal(n)[i]) && decimal(n)[i] != ',' && decimal(n)[i] != '#' by {
        assert(crate::text::is_digit(decimal(n)[i]));
    }
}

proof fn lemma_parse_decimal(n: nat, max: nat)
    requires
        n <= max,
    ensures
        parse_unsigned(decimal(n), max) == Some(n),
{
    lemma_decimal_plain(n);
    assert(crate::text::is_digit(decimal(n)[0]));
}

proof fn lemma_parse_signed_decimal(x: i32)
    ensures
        parse_i32(signed_decimal(x as int)) == Some(x as int),
        plain(signed_decimal(x as int)),
{
    if x < 0 {
        let m = (-(x as int)) as nat;
        lemma_decimal_plain(m);
        let s = signed_decimal(x as int);
        assert(s.skip(1) =~= decimal(m));
        assert forall|i: int| 0 <= i < s.len() implies !crate::text::is_white(#[trigger] s[i]) && s[i] != ',' && s[i] != '#' by {
            if i > 0 {
                assert(s[i] == decimal(m)[i - 1]);
            }
        }
    } else {
        lemma_parse_decimal(x as nat, 0x7fff_ffff);
        lemma_decimal_plain(x as nat);
        assert(crate::text::is_digit(decimal(x as nat)[0]));
    }
}

proof fn lemma_plain_concat(a: Seq<char>, b: Seq<char>)
    requires
        plain(a),
        plain(b),
    ensures
        plain(a + b),
{
    assert forall|i: int| 0 <= i < (a + b).len() implies
        !crate::text::is_white(#[trigger] (a + b)[i]) && (a + b)[i] != ',' && (a + b)[i] != '#' by {
        if i < a.len() {
            assert((a + b)[i] == a[i]);
        } else {
            assert((a + b)[i] == b[i - a.len()]);
        }
    }
}

proof fn lemma_trim_plain(s: Seq<char>)
    requires
        plain(s),
    ensures
        trim(s) == s,
{
    if s.len() > 0 {
        assert(!crate::text::is_white(s[0]));
        assert(!crate::text::is_white(s.last()));
    }
    assert(crate::text::trim_start(s) == s);
}

proof fn lemma_split_single(s: Seq<char>)
    requires
        plain(s),
    ensures
        split_on(s, ',') == seq![s],
    decreases s.len(),
{
    if s.len() > 0 {
        let t = s.drop_last();
        assert(plain(t)) by {
            assert forall|i: int| 0 <= i < t.len() implies
                !crate::text::is_white(#[trigger] t[i]) && t[i] != ',' && t[i] != '#' by {
                assert(t[i] == s[i]);
            }
        }
        lemma_split_single(t);
        assert(s.last() != ',');
        assert(t.push(s.last()) =~= s);
        assert(seq![t].update(0, s) =~= seq![s]);
    } else {
        assert(s =~= Seq::<char>::empty());
    }
}

proof fn lemma_split_concat(a: Seq<char>, b: Seq<char>)
    ensures
        split_on(a + seq![','] + b, ',') == split_on(a, ',') + split_on(b, ','),
    decreases b.len(),
{
    crate::text::lemma_split_nonempty(a, ',');
    if b.len() == 0 {
        assert(a + seq![','] + b =~= a.push(','));
        assert((a.push(',')).drop_last() =~= a);
        assert(split_on(a, ',').push(Seq::empty()) =~= split_on(a, ',') + seq![Seq::<char>::empty()]);
    } else {
        let b2 = b.drop_last();
        let x = b.last();
        lemma_split_concat(a, b2);
        crate::text::lemma_split_nonempty(b2, ',');
        let s = a + seq![','] + b;
        assert(s.drop_last() =~= a + seq![','] + b2);
        assert(s.last() == x);
        let pa = split_on(a, ',');
        let pb = split_on(b2, ',');
        if x == ',' {
            assert((pa + pb).push(Seq::empty()) =~= pa + pb.push(Seq::empty()));
        } else {
            let q = pa + pb;
            assert(q.last() == pb.last());
            assert(q.update(q.len() - 1, q.last().push(x)) =~= pa + pb.update(pb.len() - 1, pb.last().push(x)));
        }
    }
}

proof fn lemma_split_join(ps: Seq<Seq<char>>)
    requires
        ps.len() >= 1,
        forall|i: int| 0 <= i < ps.len() ==> plain(#[trigger] ps[i]),
    ensures
        split_on(join_commas(ps), ',') == ps,
    decreases ps.len(),
{
    if ps.len() == 1 {
        lemma_split_single(ps[0]);
        assert(seq![ps[0]] =~= ps);
    } else {
        let init = ps.drop_last();
        assert forall|i: int| 0 <= i < init.len() implies plain(#[trigger] init[i]) by {
            assert(init[i] == ps[i]);
        }
        lemma_split_join(init);
        lemma_split_concat(join_commas(init), ps.last());
        lemma_split_single(ps.last());
        assert(init + seq![ps.last()] =~= ps);
    }
}

proof fn lemma_join_no_hash(ps: Seq<Seq<char>>)
    requires
        forall|i: int| 0 <= i < ps.len() ==> plain(#[trigger] ps[i]),
    ensures
        forall|i: int| 0 <= i < join_commas(ps).len() ==> (#[trigger] join_commas(ps)[i]) != '#',
    decreases ps.len(),
{
    if ps.len() > 1 {
        let init = ps.drop_last();
        assert forall|i: int| 0 <= i < init.len() implies plain(#[trigger] init[i]) by {
            assert(init[i] == ps[i]);
        }
        lemma_join_no_hash(init);
        let j = join_commas(init);
        let l = ps.last();
        assert(plain(l));
        assert forall|i: int| 0 <= i < join_commas(ps).len() implies (#[trigger] join_commas(ps)[i]) != '#' by {
            if i < j.len() {
                assert(join_commas(ps)[i] == j[i]);
            } else if i == j.len() {
                assert(join_commas(ps)[i] == ',');
            } else {
                assert(join_commas(ps)[i] == l[i - j.len() - 1]);
            }
        }
    } else if ps.len() == 1 {
        assert(plain(ps[0]));
    }
}

proof fn lemma_index_of_absent(s: Seq<char>, c: char)
    requires
        forall|i: int| 0 <= i < s.len() ==> s[i] != c,
    ensures
        index_of(s, c) == -1,
    decreases s.len(),
{
    if s.len() > 0 {
        lemma_index_of_absent(s.drop_last(), c);
    }
}

proof fn lemma_index_of_after(a: Seq<char>, b: Seq<char>, c: char)
    requires
        index_of(a, c) == -1,
    ensures
        index_of(a + b, c) == if index_of(b, c) >= 0 { a.len() + index_of(b, c) } else { -1 },
    decreases b.len(),
{
    if b.len() == 0 {
        assert(a + b =~= a);
    } else {
        lemma_index_of_after(a, b.drop_last(), c);
        assert((a + b).drop_last() =~= a + b.drop_last());
    }
}

proof fn lemma_index_of_head(c: char, b: Seq<char>)
    ensures
        index_of(seq![c] + b, c) == 0,
    decreases b.len(),
{
    assert(index_of(Seq::<char>::empty(), c) == -1);
    if b.len() == 0 {
        assert(seq![c] + b =~= seq![c]);
        assert(seq![c].drop_last() =~= Seq::<char>::empty());
        assert(index_of(seq![c], c) == 0);
    } else {
        lemma_index_of_head(c, b.drop_last());
        assert((seq![c] + b).drop_last() =~= seq![c] + b.drop_last());
    }
}

proof fn lemma_literals_plain()
    ensures
        plain("S"@), plain("M"@), plain("T"@), plain("TIME"@), plain("START"@), plain("LP"@),
        plain("DRAW"@), plain("MR"@), plain("LFLIST"@), plain("NC"@), plain("NS"@),
{
    reveal_strlit("S");
    reveal_strlit("M");
    reveal_strlit("T");
    reveal_strlit("TIME");
    reveal_strlit("START");
    reveal_strlit("LP");
    reveal_strlit("DRAW");
    reveal_strlit("MR");
    reveal_strlit("LFLIST");
    reveal_strlit("NC");
    reveal_strlit("NS");
}

proof fn lemma_pieces_plain(h: HostInfoView)
    ensures
        forall|i: int| 0 <= i < host_info_pieces(h).len() ==> plain(#[trigger] host_info_pieces(h)[i]),
        host_info_pieces(h).len() >= 7,
{
    lemma_literals_plain();
    lemma_decimal_plain(h.time_limit as nat);
    lemma_decimal_plain(h.start_hand as nat);
    lemma_decimal_plain(h.start_lp as nat);
    lemma_decimal_plain(h.draw_count as nat);
    lemma_decimal_plain(h.rule as nat);
    lemma_parse_signed_decimal(h.lflist);
    lemma_plain_concat("TIME"@, decimal(h.time_limit as nat));
    lemma_plain_concat("START"@, decimal(h.start_hand as nat));
    lemma_plain_concat("LP"@, decimal(h.start_lp as nat));
    lemma_plain_concat("DRAW"@, decimal(h.draw_count as nat));
    lemma_plain_concat("MR"@, decimal(h.rule as nat));
    lemma_plain_concat("LFLIST"@, signed_decimal(h.lflist as int));
    let ps = host_info_pieces(h);
    assert(plain(h.mode.spec_to_str()));
    assert forall|i: int| 0 <= i < ps.len() implies plain(#[trigger] ps[i]) by {
        if i == 0 {
            assert(ps[i] == h.mode.spec_to_str());
        }
    }
}

proof fn lemma_apply_step(h: HostInfoView, cs: Seq<Seq<char>>, c: Seq<char>)
    ensures
        apply_controllers(h, cs.push(c)) == apply_controller(apply_controllers(h, cs), trim(c)),
{
    assert(cs.push(c).drop_last() =~= cs);
}

proof fn lemma_exact_literals()
    ensures
        "M"@ == seq!['M'], "MATCH"@ == seq!['M', 'A', 'T', 'C', 'H'], "T"@ == seq!['T'],
        "TAG"@ == seq!['T', 'A', 'G'], "OT"@ == seq!['O', 'T'], "TCG"@ == seq!['T', 'C', 'G'],
        "TO"@ == seq!['T', 'O'], "TCGONLY"@ == seq!['T', 'C', 'G', 'O', 'N', 'L', 'Y'],
        "OO"@ == seq!['O', 'O'], "OCGONLY"@ == seq!['O', 'C', 'G', 'O', 'N', 'L', 'Y'],
        "SC"@ == seq!['S', 'C'], "CN"@ == seq!['C', 'N'], "CCG"@ == seq!['C', 'C', 'G'],
        "CHINESE"@ == seq!['C', 'H', 'I', 'N', 'E', 'S', 'E'], "DIY"@ == seq!['D', 'I', 'Y'],
        "CUSTOM"@ == seq!['C', 'U', 'S', 'T', 'O', 'M'], "NF"@ == seq!['N', 'F'],
        "NOLFLIST"@ == seq!['N', 'O', 'L', 'F', 'L', 'I', 'S', 'T'], "NU"@ == seq!['N', 'U'],
        "NOUNIQUE"@ == seq!['N', 'O', 'U', 'N', 'I', 'Q', 'U', 'E'], "NC"@ == seq!['N', 'C'],
        "NOCHECK"@ == seq!['N', 'O', 'C', 'H', 'E', 'C', 'K'], "NS"@ == seq!['N', 'S'],
        "NOSHUFFLE"@ == seq!['N', 'O', 'S', 'H', 'U', 'F', 'F', 'L', 'E'],
        "TIME"@ == seq!['T', 'I', 'M', 'E'], "LP"@ == seq!['L', 'P'],
        "START"@ == seq!['S', 'T', 'A', 'R', 'T'], "DRAW"@ == seq!['D', 'R', 'A', 'W'],
        "LFLIST"@ == seq!['L', 'F', 'L', 'I', 'S', 'T'], "MR"@ == seq!['M', 'R'],
        "S"@ == seq!['S'],
{
    reveal_strlit("M");
    reveal_strlit("MATCH");
    reveal_strlit("T");
    reveal_strlit("TAG");
    reveal_strlit("OT");
    reveal_strlit("TCG");
    reveal_strlit("TO");
    reveal_strlit("TCGONLY");
    reveal_strlit("OO");
    reveal_strlit("OCGONLY");
    reveal_strlit("SC");
    reveal_strlit("CN");
    reveal_strlit("CCG");
    reveal_strlit("CHINESE");
    reveal_strlit("DIY");
    reveal_strlit("CUSTOM");
    reveal_strlit("NF");
    reveal_strlit("NOLFLIST");
    reveal_strlit("NU");
    reveal_strlit("NOUNIQUE");
    reveal_strlit("NC");
    reveal_strlit("NOCHECK");
    reveal_strlit("NS");
    reveal_strlit("NOSHUFFLE");
    reveal_strlit("TIME");
    reveal_strlit("LP");
    reveal_strlit("START");
    reveal_strlit("DRAW");
    reveal_strlit("LFLIST");
    reveal_strlit("MR");
    reveal_strlit("S");
    assert("M"@ =~= seq!['M']);
    assert("MATCH"@ =~= seq!['M', 'A', 'T', 'C', 'H']);
    assert("T"@ =~= seq!['T']);
    assert("TAG"@ =~= seq!['T', 'A', 'G']);
    assert("OT"@ =~= seq!['O', 'T']);
    assert("TCG"@ =~= seq!['T', 'C', 'G']);
    assert("TO"@ =~= seq!['T', 'O']);
    assert("TCGONLY"@ =~= seq!['T', 'C', 'G', 'O', 'N', 'L', 'Y']);
    assert("OO"@ =~= seq!['O', 'O']);
    assert("OCGONLY"@ =~= seq!['O', 'C', 'G', 'O', 'N', 'L', 'Y']);
    assert("SC"@ =~= seq!['S', 'C']);
    assert("CN"@ =~= seq!['C', 'N']);
    assert("CCG"@ =~= seq!['C', 'C', 'G']);
    assert("CHINESE"@ =~= seq!['C', 'H', 'I', 'N', 'E', 'S', 'E']);
    assert("DIY"@ =~= seq!['D', 'I', 'Y']);
    assert("CUSTOM"@ =~= seq!['C', 'U', 'S', 'T', 'O', 'M']);
    assert("NF"@ =~= seq!['N', 'F']);
    assert("NOLFLIST"@ =~= seq!['N', 'O', 'L', 'F', 'L', 'I', 'S', 'T']);
    assert("NU"@ =~= seq!['N', 'U']);
    assert("NOUNIQUE"@ =~= seq!['N', 'O', 'U', 'N', 'I', 'Q', 'U', 'E']);
    assert("NC"@ =~= seq!['N', 'C']);
    assert("NOCHECK"@ =~= seq!['N', 'O', 'C', 'H', 'E', 'C', 'K']);
    assert("NS"@ =~= seq!['N', 'S']);
    assert("NOSHUFFLE"@ =~= seq!['N', 'O', 'S', 'H', 'U', 'F', 'F', 'L', 'E']);
    assert("TIME"@ =~= seq!['T', 'I', 'M', 'E']);
    assert("LP"@ =~= seq!['L', 'P']);
    assert("START"@ =~= seq!['S', 'T', 'A', 'R', 'T']);
    assert("DRAW"@ =~= seq!['D', 'R', 'A', 'W']);
    assert("LFLIST"@ =~= seq!['L', 'F', 'L', 'I', 'S', 'T']);
    assert("MR"@ =~= seq!['M', 'R']);
    assert("S"@ =~= seq!['S']);
}

/// No exact controller has these two first characters.
pub open spec fn no_exact_match(c: Seq<char>) -> bool {
    c != "M"@ && c != "MATCH"@ && c != "T"@ && c != "TAG"@ && c != "OT"@ && c != "TCG"@
        && c != "TO"@ && c != "TCGONLY"@ && c != "OO"@ && c != "OCGONLY"@ && c != "SC"@
        && c != "CN"@ && c != "CCG"@ && c != "CHINESE"@ && c != "DIY"@ && c != "CUSTOM"@
        && c != "NF"@ && c != "NOLFLIST"@ && c != "NU"@ && c != "NOUNIQUE"@ && c != "NC"@
        && c != "NOCHECK"@ && c != "NS"@ && c != "NOSHUFFLE"@
}

proof fn lemma_no_exact(c: Seq<char>, a: char, b: char)
    requires
        c.len() >= 3,
        c[0] == a,
        c[1] == b,
        (a == 'T' && b == 'I') || (a == 'S' && b == 'T') || (a == 'L' && b == 'P') || (a == 'D' && b == 'R')
            || (a == 'M' && b == 'R') || (a == 'L' && b == 'F'),
    ensures
        no_exact_match(c),
{
    lemma_exact_literals();
}

proof fn lemma_apply_prefixed(h: HostInfoView, lit: Seq<char>, rest: Seq<char>)
    requires
        lit == "TIME"@ || lit == "START"@ || lit == "LP"@ || lit == "DRAW"@ || lit == "MR"@ || lit == "LFLIST"@,
        rest.len() >= 1,
    ensures
        no_exact_match(lit + rest),
        (lit + rest).take(lit.len() as int) == lit,
        (lit + rest).skip(lit.len() as int) == rest,
        lit == "TIME"@ ==> !starts_with(lit + rest, "LP"@),
        lit == "START"@ ==> !starts_with(lit + rest, "TIME"@) && !starts_with(lit + rest, "LP"@),
        lit == "LP"@ ==> !starts_with(lit + rest, "TIME"@),
        lit == "DRAW"@ ==> !starts_with(lit + rest, "TIME"@) && !starts_with(lit + rest, "LP"@) && !starts_with(lit + rest, "START"@),
        lit == "MR"@ ==> !starts_with(lit + rest, "TIME"@) && !starts_with(lit + rest, "LP"@) && !starts_with(lit + rest, "START"@)
            && !starts_with(lit + rest, "DRAW"@) && !starts_with(lit + rest, "LFLIST"@),
        lit == "LFLIST"@ ==> !starts_with(lit + rest, "TIME"@) && !starts_with(lit + rest, "LP"@) && !starts_with(lit + rest, "START"@)
            && !starts_with(lit + rest, "DRAW"@),
{
    lemma_exact_literals();
    let c = lit + rest;
    assert(c.take(lit.len() as int) =~= lit);
    assert(c.skip(lit.len() as int) =~= rest);
    assert(c[0] == lit[0] && c[1] == lit[1]);
    lemma_no_exact(c, lit[0], lit[1]);
    if !starts_with(c, "LP"@) {} else { assert(c.take(2)[1] == c[1]); }
    if !starts_with(c, "TIME"@) {} else { assert(c.take(4)[0] == c[0]); assert(c.take(4)[1] == c[1]); }
    if !starts_with(c, "START"@) {} else { assert(c.take(5)[0] == c[0]); }
    if !starts_with(c, "DRAW"@) {} else { assert(c.take(4)[0] == c[0]); }
    if !starts_with(c, "LFLIST"@) {} else { assert(c.take(6)[0] == c[0]); assert(c.take(6)[1] == c[1]); }
}

proof fn lemma_apply_time(h: HostInfoView, v: HostInfoView)
    ensures
        apply_controller(h, "TIME"@ + decimal(v.time_limit as nat)) == (HostInfoView { time_limit: v.time_limit, ..h }),
{
    lemma_exact_literals();
    lemma_decimal_plain(v.time_limit as nat);
    lemma_parse_decimal(v.time_limit as nat, 0xffff);
    lemma_apply_prefixed(h, "TIME"@, decimal(v.time_limit as nat));
}

proof fn lemma_apply_start(h: HostInfoView, v: HostInfoView)
    ensures
        apply_controller(h, "START"@ + decimal(v.start_hand as nat)) == (HostInfoView { start_hand: v.start_hand, ..h }),
{
    lemma_exact_literals();
    lemma_decimal_plain(v.start_hand as nat);
    lemma_parse_decimal(v.start_hand as nat, 0xff);
    lemma_apply_prefixed(h, "START"@, decimal(v.start_hand as nat));
}

proof fn lemma_apply_lp(h: HostInfoView, v: HostInfoView)
    ensures
        apply_controller(h, "LP"@ + decimal(v.start_lp as nat)) == (HostInfoView { start_lp: v.start_lp, ..h }),
{
    lemma_exact_literals();
    lemma_decimal_plain(v.start_lp as nat);
    lemma_parse_decimal(v.start_lp as nat, 0xffff_ffff);
    lemma_apply_prefixed(h, "LP"@, decimal(v.start_lp as nat));
}

proof fn lemma_apply_draw(h: HostInfoView, v: HostInfoView)
    ensures
        apply_controller(h, "DRAW"@ + decimal(v.draw_count as nat)) == (HostInfoView { draw_count: v.draw_count, ..h }),
{
    lemma_exact_literals();
    lemma_decimal_plain(v.draw_count as nat);
    lemma_parse_decimal(v.draw_count as nat, 0xff);
    lemma_apply_prefixed(h, "DRAW"@, decimal(v.draw_count as nat));
}

proof fn lemma_apply_rule(h: HostInfoView, v: HostInfoView)
    ensures
        apply_controller(h, "MR"@ + decimal(v.rule as nat)) == (HostInfoView { rule: v.rule, ..h }),
{
    lemma_exact_literals();
    lemma_decimal_plain(v.rule as nat);
    lemma_parse_decimal(v.rule as nat, 0xff);
    lemma_apply_prefixed(h, "MR"@, decimal(v.rule as nat));
}

proof fn lemma_apply_lflist(h: HostInfoView, v: HostInfoView)
    ensures
        apply_controller(h, "LFLIST"@ + signed_decimal(v.lflist as int)) == (HostInfoView { lflist: v.lflist, ..h }),
{
    lemma_exact_literals();
    lemma_parse_signed_decimal(v.lflist);
    assert(signed_decimal(v.lflist as int).len() >= 1) by {
        if v.lflist < 0 {} else { lemma_decimal_plain(v.lflist as nat); }
    }
    lemma_apply_prefixed(h, "LFLIST"@, signed_decimal(v.lflist as int));
}

proof fn lemma_apply_pieces(h: HostInfoView, v: HostInfoView)
    ensures
        apply_controller(h, "TIME"@ + decimal(v.time_limit as nat)) == (HostInfoView { time_limit: v.time_limit, ..h }),
        apply_controller(h, "START"@ + decimal(v.start_hand as nat)) == (HostInfoView { start_hand: v.start_hand, ..h }),
        apply_controller(h, "LP"@ + decimal(v.start_lp as nat)) == (HostInfoView { start_lp: v.start_lp, ..h }),
        apply_controller(h, "DRAW"@ + decimal(v.draw_count as nat)) == (HostInfoView { draw_count: v.draw_count, ..h }),
        apply_controller(h, "MR"@ + decimal(v.rule as nat)) == (HostInfoView { rule: v.rule, ..h }),
        apply_controller(h, "LFLIST"@ + signed_decimal(v.lflist as int)) == (HostInfoView { lflist: v.lflist, ..h }),
{
    lemma_apply_time(h, v);
    lemma_apply_start(h, v);
    lemma_apply_lp(h, v);
    lemma_apply_draw(h, v);
    lemma_apply_rule(h, v);
    lemma_apply_lflist(h, v);
}

proof fn lemma_apply_flags(h: HostInfoView, m: Mode)
    ensures
        apply_controller(h, m.spec_to_str()) == match m {
            Mode::Single => h,
            _ => (HostInfoView { mode: m, ..h }),
        },
        apply_controller(h, "NC"@) == (HostInfoView { no_check_deck: true, ..h }),
        apply_controller(h, "NS"@) == (HostInfoView { no_shuffle_deck: true, ..h }),
{
    lemma_exact_literals();
    let s = m.spec_to_str();
    match m {
        Mode::Single => {
            assert(s == seq!['S']);
            assert(s[0] == 'S');
            assert(no_exact_match(s));
            assert(!starts_with(s, "TIME"@) && !starts_with(s, "LP"@) && !starts_with(s, "START"@));
            assert(!starts_with(s, "DRAW"@) && !starts_with(s, "LFLIST"@) && !starts_with(s, "MR"@));
        },
        Mode::Match => {
            assert(s == "M"@);
        },
        Mode::Tag => {
            assert(s == seq!['T']);
            assert(s[0] == 'T');
            assert(s != "M"@ && s != "MATCH"@);
        },
    }
    assert("NC"@[1] == 'C');
    assert("NS"@[1] == 'S');
}

proof fn lemma_first_hash(h: HostInfoView, name: Seq<char>)
    ensures
        split_room_name(host_info_text(h) + "#"@ + name) == (host_info_text(h), name),
{
    reveal_strlit("#");
    let text = host_info_text(h);
    let ps = host_info_pieces(h);
    lemma_pieces_plain(h);
    lemma_join_no_hash(ps);
    let origin = text + "#"@ + name;
    lemma_index_of_absent(text, '#');
    assert("#"@ + name =~= seq!['#'] + name);
    lemma_index_of_head('#', name);
    assert(origin =~= text + (seq!['#'] + name));
    lemma_index_of_after(text, seq!['#'] + name, '#');
    assert(origin.take(text.len() as int) =~= text);
    assert(origin.skip(text.len() as int + 1) =~= name);
}

proof fn lemma_apply_base(h: HostInfoView)
    ensures
        apply_controllers(room_defaults(), host_info_pieces(h).take(7)) == (HostInfoView {
            mode: h.mode, time_limit: h.time_limit, start_hand: h.start_hand, start_lp: h.start_lp,
            draw_count: h.draw_count, rule: h.rule, lflist: h.lflist, ..room_defaults()
        }),
{
    let ps = host_info_pieces(h);
    lemma_pieces_plain(h);
    assert forall|i: int| 0 <= i < ps.len() implies trim(#[trigger] ps[i]) == ps[i] by {
        lemma_trim_plain(ps[i]);
    }
    let d = room_defaults();
    lemma_apply_flags(d, h.mode);
    let h0 = apply_controller(d, ps[0]);
    let s1 = Seq::<Seq<char>>::empty().push(ps[0]);
    lemma_apply_step(d, Seq::<Seq<char>>::empty(), ps[0]);
    assert(h0 == (HostInfoView { mode: h.mode, ..d }));
    lemma_apply_pieces(h0, h);
    let h1 = HostInfoView { time_limit: h.time_limit, ..h0 };
    lemma_apply_step(d, s1, ps[1]);
    let s2 = s1.push(ps[1]);
    lemma_apply_pieces(h1, h);
    let h2 = HostInfoView { start_hand: h.start_hand, ..h1 };
    lemma_apply_step(d, s2, ps[2]);
    let s3 = s2.push(ps[2]);
    lemma_apply_pieces(h2, h);
    let h3 = HostInfoView { start_lp: h.start_lp, ..h2 };
    lemma_apply_step(d, s3, ps[3]);
    let s4 = s3.push(ps[3]);
    lemma_apply_pieces(h3, h);
    let h4 = HostInfoView { draw_count: h.draw_count, ..h3 };
    lemma_apply_step(d, s4, ps[4]);
    let s5 = s4.push(ps[4]);
    lemma_apply_pieces(h4, h);
    let h5 = HostInfoView { rule: h.rule, ..h4 };
    lemma_apply_step(d, s5, ps[5]);
    let s6 = s5.push(ps[5]);
    lemma_apply_pieces(h5, h);
    lemma_apply_step(d, s6, ps[6]);
    let s7 = s6.push(ps[6]);
    assert(s7 =~= ps.take(7));
}

proof fn lemma_apply_all(h: HostInfoView)
    requires
        h.duel_rule == 5,
        h.padding == seq![0u8, 0u8, 0u8],
    ensures
        apply_controllers(room_defaults(), host_info_pieces(h)) == h,
{
    let ps = host_info_pieces(h);
    let d = room_defaults();
    lemma_apply_base(h);
    let s7 = ps.take(7);
    let h6 = apply_controllers(d, s7);
    let nc = if h.no_check_deck { seq!["NC"@] } else { Seq::<Seq<char>>::empty() };
    let ns = if h.no_shuffle_deck { seq!["NS"@] } else { Seq::<Seq<char>>::empty() };
    lemma_literals_plain();
    lemma_apply_flags(h6, h.mode);
    let h7 = HostInfoView { no_check_deck: h.no_check_deck, ..h6 };
    assert(apply_controllers(d, s7 + nc) == h7) by {
        if h.no_check_deck {
            lemma_apply_step(d, s7, "NC"@);
            assert(s7 + nc =~= s7.push("NC"@));
            lemma_trim_plain("NC"@);
        } else {
            assert(s7 + nc =~= s7);
        }
    }
    lemma_apply_flags(h7, h.mode);
    assert(apply_controllers(d, s7 + nc + ns) == h) by {
        if h.no_shuffle_deck {
            lemma_apply_step(d, s7 + nc, "NS"@);
            assert(s7 + nc + ns =~= (s7 + nc).push("NS"@));
            lemma_trim_plain("NS"@);
        } else {
            assert(s7 + nc + ns =~= s7 + nc);
        }
        assert(h.padding =~= d.padding);
    }
    assert(s7 + nc + ns =~= ps);
}

/// A configuration written as room-name controllers, followed by `#` and a
/// name, gives that configuration back in a room that starts from the
/// defaults, and gives the name back. Duel rule and padding are not written
/// and keep their defaults.
pub proof fn lemma_host_info_name_roundtrip(h: HostInfoView, name: Seq<char>)
    requires
        h.duel_rule == 5,
        h.padding == seq![0u8, 0u8, 0u8],
    ensures
        spec_decide(room_defaults(), host_info_text(h) + "#"@ + name) == (h, name),
{
    lemma_first_hash(h, name);
    lemma_pieces_plain(h);
    lemma_split_join(host_info_pieces(h));
    lemma_apply_all(h);
}

/// The registry after the room handlers were registered.
pub open spec fn spec_register_handlers(r0: RegistryView) -> RegistryView {
    let r1 = spec_register(r0, fresh_handler(10, "room_producer"@, HandlerOccasion::After, HandlerCondition::MessageType(MessageType::CTOS(ctos::MessageType::JoinGame))));
    let r2 = spec_register(r1, fresh_handler(255, "room_dropper"@, HandlerOccasion::After, HandlerCondition::MessageType(MessageType::SRVPRU(srvpru::MessageType::RoomDestroy))));
    let r3 = crate::srvpru::processor::spec_register_handlers(r2, "room"@, Direction::CTOS, seq!["room_producer"@]);
    let r4 = crate::srvpru::processor::spec_register_handlers(r3, "room"@, Direction::SRVPRU, seq!["room_dropper"@]);
    r4
}

/// Register the handlers that create and drop rooms.
pub fn register_handlers(registry: &mut Registry)
    requires
        old(registry).wf(),
    ensures
        final(registry).wf(),
        final(registry)@ == spec_register_handlers(old(registry)@),
{
    Handler::new(10, "room_producer", HandlerOccasion::After, HandlerCondition::MessageType(MessageType::CTOS(ctos::MessageType::JoinGame))).register(registry);
    Handler::new(255, "room_dropper", HandlerOccasion::After, HandlerCondition::MessageType(MessageType::SRVPRU(srvpru::MessageType::RoomDestroy))).register(registry);
    {
        let mut names: Vec<&str> = Vec::new();
        names.push("room_producer");
        assert(strs(names@) =~= seq!["room_producer"@]);
        Handler::register_handlers("room", Direction::CTOS, names, registry);
    }
    {
        let mut names: Vec<&str> = Vec::new();
        names.push("room_dropper");
        assert(strs(names@) =~= seq!["room_dropper"@]);
        Handler::register_handlers("room", Direction::SRVPRU, names, registry);
    }
}

} // verus!
