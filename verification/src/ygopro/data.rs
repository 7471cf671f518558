//! Data files of ygopro: decks, replays and the ban-list configuration.
use vstd::prelude::*;

use crate::text::{chars_of, decimal, push_decimal, push_str, string_of};
use crate::ygopro::bytes::{
    read_bytes, read_u16s, read_u32, read_u32s, read_u8, take_bytes, take_u16s, take_u32,
    take_u32s, take_u8, u32_at,
};
use crate::ygopro::message::ctos::{UpdateDeck, UpdateDeckView};
use crate::ygopro::message::string::{cast_to_string, spec_cast_to_string};

verus! {

/// What went wrong while reading a data file.
#[derive(Copy, Clone, Debug, PartialEq, Eq, Structural)]
pub enum DataError {
    /// The input ended inside a value.
    UnexpectedEof,
    /// A name field holds no NUL or no valid UTF-16.
    IllegalString,
    /// The compressed part of a replay could not be decompressed.
    Decompress,
}

/// A deck: card codes of the main and side decks. `ex` is always empty:
/// extra-deck cards travel inside the main deck.
#[derive(Clone, Debug, PartialEq, Eq)]
pub struct Deck {
    pub main: Vec<u32>,
    pub side: Vec<u32>,
    pub ex: Vec<u32>,
}

pub struct DeckView {
    pub main: Seq<u32>,
    pub side: Seq<u32>,
    pub ex: Seq<u32>,
}

impl View for Deck {
    type V = DeckView;

    open spec fn view(&self) -> DeckView {
        DeckView { main: self.main@, side: self.side@, ex: self.ex@ }
    }
}

impl Default for Deck {
    fn default() -> (r: Deck)
        ensures
            r@.main.len() == 0 && r@.side.len() == 0 && r@.ex.len() == 0,
    {
        Deck { main: Vec::new(), side: Vec::new(), ex: Vec::new() }
    }
}

/// The deck that an update-deck message carries: the first `mainc` codes
/// are the main deck, the next `sidec` the side deck.
pub open spec fn spec_from_data(data: UpdateDeckView) -> DeckView {
    DeckView {
        main: data.deckbuf.subrange(0, data.mainc as int),
        side: data.deckbuf.subrange(data.mainc as int, data.mainc + data.sidec),
        ex: Seq::empty(),
    }
}

/// The update-deck message of a deck: its counts, then main and side codes.
pub open spec fn spec_to_update_deck(deck: DeckView) -> UpdateDeckView {
    UpdateDeckView {
        mainc: deck.main.len() as u32,
        sidec: deck.side.len() as u32,
        deckbuf: deck.main + deck.side,
    }
}

/// The codes of `cards`, one decimal number per line.
pub open spec fn cards_text(cards: Seq<u32>) -> Seq<char>
    decreases cards.len(),
{
    if cards.len() == 0 {
        Seq::empty()
    } else {
        cards_text(cards.drop_last()) + decimal(cards.last() as nat) + seq!['\n']
    }
}

/// The text of a deck as a deck file.
pub open spec fn deck_text(deck: DeckView) -> Seq<char> {
    "#generated by srvpru deck log\n#main\n"@ + cards_text(deck.main) + "!side\n"@ + cards_text(deck.side)
}

/// A list of codes prefixed by its length, as a replay stores it.
pub open spec fn take_u32_list(s: Seq<u8>) -> Option<(Seq<u32>, Seq<u8>)> {
    match take_u32(s) {
        None => None,
        Some((n, r)) => take_u32s(r, n as nat),
    }
}

/// A deck as a replay stores it: the main deck, then the extra deck.
pub open spec fn take_deck(s: Seq<u8>) -> Option<(DeckView, Seq<u8>)> {
    match take_u32_list(s) {
        None => None,
        Some((main, r)) => match take_u32_list(r) {
            None => None,
            Some((ex, r2)) => Some((DeckView { main, side: Seq::empty(), ex }, r2)),
        },
    }
}

fn read_u32_list(data: &[u8], pos: usize) -> (r: Option<(Vec<u32>, usize)>)
    requires
        pos <= data@.len(),
    ensures
        match take_u32_list(data@.skip(pos as int)) {
            None => r is None,
            Some((v, rest)) => r matches Some((w, p)) && w@ == v && p <= data@.len() && rest == data@.skip(p as int),
        },
{
    let (n, p) = match read_u32(data, pos) {
        None => return None,
        Some(x) => x,
    };
    read_u32s(data, p, n as usize)
}

impl Deck {
    /// The deck in an update-deck message.
    pub fn from_data(data: &UpdateDeck) -> (r: Deck)
        requires
            data.mainc + data.sidec <= data.deckbuf@.len(),
        ensures
            r@ == spec_from_data(data@),
    {
        let mainc = data.mainc as usize;
        let sidec = data.sidec as usize;
        let mut main: Vec<u32> = Vec::new();
        let mut i: usize = 0;
        while i < mainc
            invariant
                mainc + sidec <= data.deckbuf@.len(),
                i <= mainc,
                main@ == data.deckbuf@.subrange(0, i as int),
            decreases mainc - i,
        {
            main.push(data.deckbuf[i]);
            i = i + 1;
            assert(main@ =~= data.deckbuf@.subrange(0, i as int));
        }
        let mut side: Vec<u32> = Vec::new();
        let mut j: usize = 0;
        while j < sidec
            invariant
                mainc + sidec <= data.deckbuf@.len(),
                data.deckbuf@.len() == data.deckbuf.len(),
                j <= sidec,
                side@ == data.deckbuf@.subrange(mainc as int, mainc + j),
            decreases sidec - j,
        {
            side.push(data.deckbuf[mainc + j]);
            j = j + 1;
            assert(side@ =~= data.deckbuf@.subrange(mainc as int, mainc + j));
        }
        let r = Deck { main, side, ex: Vec::new() };
        assert(r@.ex =~= Seq::<u32>::empty());
        r
    }

    /// The update-deck message that carries this deck.
    pub fn to_update_deck(&self) -> (r: UpdateDeck)
        requires
            self.main@.len() + self.side@.len() <= 90,
        ensures
            r@ == spec_to_update_deck(self@),
    {
        let mut deckbuf: Vec<u32> = Vec::new();
        let mut i: usize = 0;
        while i < self.main.len()
            invariant
                i <= self.main@.len(),
                deckbuf@ == self.main@.subrange(0, i as int),
            decreases self.main@.len() - i,
        {
            deckbuf.push(self.main[i]);
            i = i + 1;
            assert(deckbuf@ =~= self.main@.subrange(0, i as int));
        }
        let mut j: usize = 0;
        while j < self.side.len()
            invariant
                i == self.main@.len(),
                j <= self.side@.len(),
                deckbuf@ == self.main@ + self.side@.subrange(0, j as int),
            decreases self.side@.len() - j,
        {
            deckbuf.push(self.side[j]);
            j = j + 1;
            assert(deckbuf@ =~= self.main@ + self.side@.subrange(0, j as int));
        }
        assert(self.main@.subrange(0, i as int) =~= self.main@);
        assert(self.side@.subrange(0, j as int) =~= self.side@);
        UpdateDeck { mainc: self.main.len() as u32, sidec: self.side.len() as u32, deckbuf }
    }

    /// The deck at `pos` of a replay body: main deck, then extra deck.
    pub fn from_reader(data: &[u8], pos: usize) -> (r: Option<(Deck, usize)>)
        requires
            pos <= data@.len(),
        ensures
            match take_deck(data@.skip(pos as int)) {
                None => r is None,
                Some((d, rest)) => r matches Some((x, p)) && x@ == d && p <= data@.len() && rest == data@.skip(p as int),
            },
    {
        let (main, p) = match read_u32_list(data, pos) {
            None => return None,
            Some(x) => x,
        };
        let (ex, p2) = match read_u32_list(data, p) {
            None => return None,
            Some(x) => x,
        };
        let r = Deck { main, side: Vec::new(), ex };
        assert(r@.side =~= Seq::<u32>::empty());
        Some((r, p2))
    }

    /// The deck as a deck file.
    pub fn to_string(&self) -> (r: String)
        ensures
            r@ == deck_text(self@),
    {
        let mut out: Vec<char> = Vec::new();
        push_str(&mut out, "#generated by srvpru deck log\n#main\n");
        push_cards(&mut out, self.main.as_slice());
        push_str(&mut out, "!side\n");
        push_cards(&mut out, self.side.as_slice());
        assert(out@ =~= deck_text(self@));
        string_of(out.as_slice())
    }
}

fn push_cards(out: &mut Vec<char>, cards: &[u32])
    ensures
        final(out)@ == old(out)@ + cards_text(cards@),
{
    let mut i: usize = 0;
    while i < cards.len()
        invariant
            i <= cards@.len(),
            out@ == old(out)@ + cards_text(cards@.take(i as int)),
        decreases cards@.len() - i,
    {
        push_decimal(out, cards[i] as u64);
        out.push('\n');
        assert(cards@.take(i + 1).drop_last() =~= cards@.take(i as int));
        i = i + 1;
        assert(out@ =~= old(out)@ + cards_text(cards@.take(i as int)));
    }
    assert(cards@.take(i as int) =~= cards@);
}

/// A replay that was compressed.
pub const REPLAY_COMPRESSED_FLAG: u32 = 1;
/// A replay of a tag duel.
pub const REPLAY_TAG_FLAG: u32 = 2;
/// A replay that was decoded.
pub const REPLAY_DECODE_FLAG: u32 = 4;
/// A replay of a single duel.
pub const REPLAY_SINGLE_MODE: u32 = 8;
/// A replay with uniform settings.
pub const REPLAY_UNIFORM: u32 = 16;

/// The uncompressed head of a replay file.
#[derive(Clone, Debug)]
pub struct ReplayHeader {
    pub id: u32,
    pub version: u32,
    pub flag: u32,
    pub seed: u32,
    pub data_size: u32,
    pub start_time: u32,
    pub props: [u8; 8],
}

pub struct ReplayHeaderView {
    pub id: u32,
    pub version: u32,
    pub flag: u32,
    pub seed: u32,
    pub data_size: u32,
    pub start_time: u32,
    pub props: Seq<u8>,
}

impl View for ReplayHeader {
    type V = ReplayHeaderView;

    open spec fn view(&self) -> ReplayHeaderView {
        ReplayHeaderView {
            id: self.id,
            version: self.version,
            flag: self.flag,
            seed: self.seed,
            data_size: self.data_size,
            start_time: self.start_time,
            props: self.props@,
        }
    }
}

/// The length of a replay header.
pub open spec fn header_len() -> nat {
    32
}

/// The header at the front of `s`: six little-endian `u32`s, then eight
/// property bytes.
pub open spec fn spec_replay_header(s: Seq<u8>) -> ReplayHeaderView {
    ReplayHeaderView {
        id: u32_at(s, 0),
        version: u32_at(s, 4),
        flag: u32_at(s, 8),
        seed: u32_at(s, 12),
        data_size: u32_at(s, 16),
        start_time: u32_at(s, 20),
        props: s.subrange(24, 32),
    }
}

impl ReplayHeader {
    /// The header at the front of a replay file.
    pub fn from_reader(data: &[u8]) -> (r: Result<ReplayHeader, DataError>)
        ensures
            data@.len() < header_len() ==> r == Err::<ReplayHeader, DataError>(DataError::UnexpectedEof),
            data@.len() >= header_len() ==> (r matches Ok(h) && h@ == spec_replay_header(data@)),
    {
        if data.len() < 32 {
            return Err(DataError::UnexpectedEof);
        }
        let mut words: [u32; 6] = [0u32; 6];
        let mut i: usize = 0;
        while i < 6
            invariant
                data@.len() >= 32,
                i <= 6,
                forall|j: int| 0 <= j < i ==> words@[j] == u32_at(data@, 4 * j),
            decreases 6 - i,
        {
            let p = 4 * i;
            words[i] = (data[p] as u32) + 256 * (data[p + 1] as u32) + 65536 * (data[p + 2] as u32)
                + 16777216 * (data[p + 3] as u32);
            i = i + 1;
        }
        let mut props: [u8; 8] = [0u8; 8];
        let mut k: usize = 0;
        while k < 8
            invariant
                data@.len() >= 32,
                k <= 8,
                forall|j: int| 0 <= j < k ==> props@[j] == data@[24 + j],
            decreases 8 - k,
        {
            props[k] = data[24 + k];
            k = k + 1;
        }
        assert(props@ =~= data@.subrange(24, 32));
        Ok(ReplayHeader {
            id: words[0],
            version: words[1],
            flag: words[2],
            seed: words[3],
            data_size: words[4],
            start_time: words[5],
            props,
        })
    }

    pub fn is_compressed(&self) -> (r: bool)
        ensures
            r == (self.flag & REPLAY_COMPRESSED_FLAG != 0),
    {
        self.flag & REPLAY_COMPRESSED_FLAG > 0
    }

    pub fn is_tag(&self) -> (r: bool)
        ensures
            r == (self.flag & REPLAY_TAG_FLAG != 0),
    {
        self.flag & REPLAY_TAG_FLAG > 0
    }

    pub fn is_decoded(&self) -> (r: bool)
        ensures
            r == (self.flag & REPLAY_DECODE_FLAG != 0),
    {
        self.flag & REPLAY_DECODE_FLAG > 0
    }
}

/// A replay: its header, then what its compressed part holds.
#[derive(Clone, Debug)]
pub struct Replay {
    pub header: ReplayHeader,
    pub host_name: String,
    pub client_name: String,
    pub start_lp: u32,
    pub start_hand: u32,
    pub draw_count: u32,
    pub opt: u32,
    pub host_deck: Deck,
    pub client_deck: Deck,
    pub tag_host_name: Option<String>,
    pub tag_client_name: Option<String>,
    pub tag_host_deck: Option<Deck>,
    pub tag_client_deck: Option<Deck>,
    pub datas: Vec<Vec<u8>>,
}

pub struct ReplayView {
    pub header: ReplayHeaderView,
    pub host_name: Seq<char>,
    pub client_name: Seq<char>,
    pub start_lp: u32,
    pub start_hand: u32,
    pub draw_count: u32,
    pub opt: u32,
    pub host_deck: DeckView,
    pub client_deck: DeckView,
    pub tag_host_name: Option<Seq<char>>,
    pub tag_client_name: Option<Seq<char>>,
    pub tag_host_deck: Option<DeckView>,
    pub tag_client_deck: Option<DeckView>,
    pub datas: Seq<Seq<u8>>,
}

pub open spec fn opt_string_view(s: Option<String>) -> Option<Seq<char>> {
    match s {
        Some(x) => Some(x@),
        None => None,
    }
}

pub open spec fn opt_deck_view(d: Option<Deck>) -> Option<DeckView> {
    match d {
        Some(x) => Some(x@),
        None => None,
    }
}

impl View for Replay {
    type V = ReplayView;

    open spec fn view(&self) -> ReplayView {
        ReplayView {
            header: self.header@,
            host_name: self.host_name@,
            client_name: self.client_name@,
            start_lp: self.start_lp,
            start_hand: self.start_hand,
            draw_count: self.draw_count,
            opt: self.opt,
            host_deck: self.host_deck@,
            client_deck: self.client_deck@,
            tag_host_name: opt_string_view(self.tag_host_name),
            tag_client_name: opt_string_view(self.tag_client_name),
            tag_host_deck: opt_deck_view(self.tag_host_deck),
            tag_client_deck: opt_deck_view(self.tag_client_deck),
            datas: self.datas@.map_values(|d: Vec<u8>| d@),
        }
    }
}

/// A player's name in a replay: twenty UTF-16 units, NUL-terminated.
pub open spec fn take_name(s: Seq<u8>) -> Result<(Seq<char>, Seq<u8>), DataError> {
    match take_u16s(s, 20) {
        None => Err(DataError::UnexpectedEof),
        Some((units, r)) => match spec_cast_to_string(units) {
            None => Err(DataError::IllegalString),
            Some(t) => Ok((t, r)),
        },
    }
}

/// A name that only a tag duel stores.
pub open spec fn take_tag_name(tag: bool, s: Seq<u8>) -> Result<(Option<Seq<char>>, Seq<u8>), DataError> {
    if tag {
        match take_name(s) {
            Err(e) => Err(e),
            Ok((t, r)) => Ok((Some(t), r)),
        }
    } else {
        Ok((None, s))
    }
}

/// A deck that only a tag duel stores.
pub open spec fn take_tag_deck(tag: bool, s: Seq<u8>) -> Option<(Option<DeckView>, Seq<u8>)> {
    if tag {
        match take_deck(s) {
            None => None,
            Some((d, r)) => Some((Some(d), r)),
        }
    } else {
        Some((None, s))
    }
}

/// The recorded responses: each a length byte and that many bytes, up to
/// the end of the input.
pub open spec fn take_chunks(s: Seq<u8>) -> Result<Seq<Seq<u8>>, DataError>
    decreases s.len(),
{
    if s.len() == 0 {
        Ok(Seq::empty())
    } else if s.len() - 1 < s[0] {
        Err(DataError::UnexpectedEof)
    } else {
        match take_chunks(s.skip(1 + s[0])) {
            Err(e) => Err(e),
            Ok(rest) => Ok(seq![s.subrange(1, 1 + s[0])] + rest),
        }
    }
}

/// What the decompressed part of a replay with header `h` holds: the host's
/// name, in a tag duel the names of the host's and the client's partners,
/// the client's name, four settings, the host's deck, in a tag duel the
/// partners' decks, the client's deck, and the recorded responses.
pub open spec fn spec_replay_body(h: ReplayHeaderView, s: Seq<u8>) -> Result<ReplayView, DataError> {
    let tag = h.flag & REPLAY_TAG_FLAG != 0;
    match take_name(s) { Err(e) => Err(e), Ok((host_name, s1)) =>
    match take_tag_name(tag, s1) { Err(e) => Err(e), Ok((tag_host_name, s2)) =>
    match take_tag_name(tag, s2) { Err(e) => Err(e), Ok((tag_client_name, s3)) =>
    match take_name(s3) { Err(e) => Err(e), Ok((client_name, s4)) =>
    match take_u32s(s4, 4) { None => Err(DataError::UnexpectedEof), Some((params, s5)) =>
    match take_deck(s5) { None => Err(DataError::UnexpectedEof), Some((host_deck, s6)) =>
    match take_tag_deck(tag, s6) { None => Err(DataError::UnexpectedEof), Some((tag_host_deck, s7)) =>
    match take_tag_deck(tag, s7) { None => Err(DataError::UnexpectedEof), Some((tag_client_deck, s8)) =>
    match take_deck(s8) { None => Err(DataError::UnexpectedEof), Some((client_deck, s9)) =>
    match take_chunks(s9) { Err(e) => Err(e), Ok(datas) =>
        Ok(ReplayView {
            header: h, host_name, client_name,
            start_lp: params[0], start_hand: params[1], draw_count: params[2], opt: params[3],
            host_deck, client_deck, tag_host_name, tag_client_name, tag_host_deck, tag_client_deck, datas,
        })
    } } } } } } } } } }
}

/// Whether `r` is the outcome that `spec` describes.
pub open spec fn replay_outcome(spec: Result<ReplayView, DataError>, r: Result<Replay, DataError>) -> bool {
    match spec {
        Ok(v) => r matches Ok(x) && x@ == v,
        Err(e) => r == Err::<Replay, DataError>(e),
    }
}

/// The bytes that the decompressor reads: the first five property bytes,
/// then everything after the header.
pub open spec fn compressed_input(data: Seq<u8>) -> Seq<u8> {
    data.subrange(24, 29) + data.skip(32)
}

/// What decompressing LZMA data with a given unpacked size gives: `None`
/// where the data is not a valid stream of that size.
pub uninterp spec fn lzma_decompressed(input: Seq<u8>, unpacked_size: u64) -> Option<Seq<u8>>;

/// Decompresses raw LZMA data (properties byte and dictionary size, no
/// size field) of a known unpacked size with
/// `lzma_rs::lzma_decompress_with_options`. The result is named, not stated.
#[verifier::external_body]
fn decompress_lzma(input: &[u8], unpacked_size: u64) -> (r: Option<Vec<u8>>)
    ensures
        lzma_decompressed(input@, unpacked_size) == match r {
            Some(v) => Some(v@),
            None => None::<Seq<u8>>,
        },
{
    let options = lzma_rs::decompress::Options {
        unpacked_size: lzma_rs::decompress::UnpackedSize::UseProvided(Some(unpacked_size)),
        memlimit: None,
        allow_incomplete: false,
    };
    let mut output: Vec<u8> = Vec::new();
    match lzma_rs::lzma_decompress_with_options(&mut std::io::Cursor::new(input), &mut output, &options) {
        Ok(()) => Some(output),
        Err(_) => None,
    }
}

fn read_name(data: &[u8], pos: usize) -> (r: Result<(String, usize), DataError>)
    requires
        pos <= data@.len(),
    ensures
        match take_name(data@.skip(pos as int)) {
            Err(e) => r == Err::<(String, usize), DataError>(e),
            Ok((t, rest)) => r matches Ok((x, p)) && x@ == t && p <= data@.len() && rest == data@.skip(p as int),
        },
{
    proof { reveal(take_u16s); }
    let (units, p) = match read_u16s(data, pos, 20) {
        None => return Err(DataError::UnexpectedEof),
        Some(x) => x,
    };
    match cast_to_string(units.as_slice()) {
        None => Err(DataError::IllegalString),
        Some(t) => Ok((t, p)),
    }
}

fn read_tag_name(tag: bool, data: &[u8], pos: usize) -> (r: Result<(Option<String>, usize), DataError>)
    requires
        pos <= data@.len(),
    ensures
        match take_tag_name(tag, data@.skip(pos as int)) {
            Err(e) => r == Err::<(Option<String>, usize), DataError>(e),
            Ok((t, rest)) => r matches Ok((x, p)) && opt_string_view(x) == t && p <= data@.len() && rest == data@.skip(p as int),
        },
{
    if tag {
        match read_name(data, pos) {
            Err(e) => Err(e),
            Ok((t, p)) => Ok((Some(t), p)),
        }
    } else {
        Ok((None, pos))
    }
}

fn read_tag_deck(tag: bool, data: &[u8], pos: usize) -> (r: Option<(Option<Deck>, usize)>)
    requires
        pos <= data@.len(),
    ensures
        match take_tag_deck(tag, data@.skip(pos as int)) {
            None => r is None,
            Some((d, rest)) => r matches Some((x, p)) && opt_deck_view(x) == d && p <= data@.len() && rest == data@.skip(p as int),
        },
{
    if tag {
        match Deck::from_reader(data, pos) {
            None => None,
            Some((d, p)) => Some((Some(d), p)),
        }
    } else {
        Some((None, pos))
    }
}

fn read_chunks(data: &[u8], pos: usize) -> (r: Result<Vec<Vec<u8>>, DataError>)
    requires
        pos <= data@.len(),
    ensures
        match take_chunks(data@.skip(pos as int)) {
            Err(e) => r == Err::<Vec<Vec<u8>>, DataError>(e),
            Ok(chunks) => r matches Ok(x) && x@.map_values(|d: Vec<u8>| d@) == chunks,
        },
{
    let mut datas: Vec<Vec<u8>> = Vec::new();
    let mut p: usize = pos;
    while p < data.len()
        invariant
            pos <= p <= data@.len(),
            take_chunks(data@.skip(pos as int)) == match take_chunks(data@.skip(p as int)) {
                Err(e) => Err(e),
                Ok(rest) => Ok(datas@.map_values(|d: Vec<u8>| d@) + rest),
            },
        decreases data@.len() - p,
    {
        let ghost s = data@.skip(p as int);
        proof { reveal(take_u8); }
        let (n, q) = match read_u8(data, p) {
            None => return Err(DataError::UnexpectedEof),
            Some(x) => x,
        };
        proof {
            assert(s[0] == n);
            assert(q == p + 1) by {
                assert(data@.skip(q as int).len() == s.len() - 1);
            }
        }
        let (chunk, q2) = match read_bytes(data, q, n as usize) {
            None => {
                proof { reveal(take_bytes); }
                return Err(DataError::UnexpectedEof);
            },
            Some(x) => x,
        };
        proof {
            reveal(take_bytes);
            assert(q2 == q + n) by {
                assert(data@.skip(q2 as int).len() == data@.skip(q as int).len() - n);
            }
            assert(s.skip(1 + s[0]) =~= data@.skip(q2 as int));
            assert(chunk@ =~= s.subrange(1, 1 + s[0]));
        }
        let ghost before = datas@.map_values(|d: Vec<u8>| d@);
        datas.push(chunk);
        proof {
            assert(datas@.map_values(|d: Vec<u8>| d@) =~= before.push(chunk@));
            match take_chunks(data@.skip(q2 as int)) {
                Err(e) => {},
                Ok(rest) => {
                    assert(before + (seq![chunk@] + rest) =~= before.push(chunk@) + rest);
                },
            }
        }
        p = q2;
    }
    proof {
        assert(data@.skip(p as int).len() == 0);
        assert(datas@.map_values(|d: Vec<u8>| d@) + Seq::<Seq<u8>>::empty() =~= datas@.map_values(|d: Vec<u8>| d@));
    }
    Ok(datas)
}

impl Replay {
    /// Read a replay's decompressed part, under its header.
    pub fn from_decompressed(header: ReplayHeader, data: &[u8]) -> (r: Result<Replay, DataError>)
        ensures
            replay_outcome(spec_replay_body(header@, data@), r),
    {
        assert(data@.skip(0) =~= data@);
        let tag = header.is_tag();
        let (host_name, p) = match read_name(data, 0) { Err(e) => return Err(e), Ok(x) => x };
        let (tag_host_name, p) = match read_tag_name(tag, data, p) { Err(e) => return Err(e), Ok(x) => x };
        let (tag_client_name, p) = match read_tag_name(tag, data, p) { Err(e) => return Err(e), Ok(x) => x };
        let (client_name, p) = match read_name(data, p) { Err(e) => return Err(e), Ok(x) => x };
        let (params, p) = match read_u32s(data, p, 4) { None => return Err(DataError::UnexpectedEof), Some(x) => x };
        let (host_deck, p) = match Deck::from_reader(data, p) { None => return Err(DataError::UnexpectedEof), Some(x) => x };
        let (tag_host_deck, p) = match read_tag_deck(tag, data, p) { None => return Err(DataError::UnexpectedEof), Some(x) => x };
        let (tag_client_deck, p) = match read_tag_deck(tag, data, p) { None => return Err(DataError::UnexpectedEof), Some(x) => x };
        let (client_deck, p) = match Deck::from_reader(data, p) { None => return Err(DataError::UnexpectedEof), Some(x) => x };
        let datas = match read_chunks(data, p) { Err(e) => return Err(e), Ok(x) => x };
        proof { reveal(take_u32s); }
        Ok(Replay {
            header,
            host_name,
            client_name,
            start_lp: params[0],
            start_hand: params[1],
            draw_count: params[2],
            opt: params[3],
            host_deck,
            client_deck,
            tag_host_name,
            tag_client_name,
            tag_host_deck,
            tag_client_deck,
            datas,
        })
    }

    /// Read a replay file: its header, then its LZMA-compressed part, which
    /// is decompressed to the size that the header gives.
    pub fn from_reader(data: &[u8]) -> (r: Result<Replay, DataError>)
        ensures
            data@.len() < header_len() ==> r == Err::<Replay, DataError>(DataError::UnexpectedEof),
            data@.len() >= header_len() ==> {
                let h = spec_replay_header(data@);
                match lzma_decompressed(compressed_input(data@), h.data_size as u64) {
                    None => r == Err::<Replay, DataError>(DataError::Decompress),
                    Some(body) => replay_outcome(spec_replay_body(h, body), r),
                }
            },
    {
        let header = match ReplayHeader::from_reader(data) {
            Err(e) => return Err(e),
            Ok(h) => h,
        };
        let mut input: Vec<u8> = Vec::new();
        let mut i: usize = 0;
        while i < 5
            invariant
                data@.len() >= 32,
                header@ == spec_replay_header(data@),
                i <= 5,
                input@ == data@.subrange(24, 24 + i),
            decreases 5 - i,
        {
            input.push(header.props[i]);
            i = i + 1;
            assert(input@ =~= data@.subrange(24, 24 + i));
        }
        let mut k: usize = 32;
        while k < data.len()
            invariant
                32 <= k <= data@.len(),
                input@ == data@.subrange(24, 29) + data@.subrange(32, k as int),
            decreases data@.len() - k,
        {
            input.push(data[k]);
            k = k + 1;
            assert(input@ =~= data@.subrange(24, 29) + data@.subrange(32, k as int));
        }
        assert(input@ =~= compressed_input(data@));
        match decompress_lzma(input.as_slice(), header.data_size as u64) {
            None => Err(DataError::Decompress),
            Some(body) => Replay::from_decompressed(header, body.as_slice()),
        }
    }
}

/// Two decks with the same cards in the same order are one deck.
pub open spec fn deck_eq(a: DeckView, b: DeckView) -> bool {
    a.main == b.main && a.side == b.side && a.ex == b.ex
}

/// A deck without extra cards, small enough for an update-deck message,
/// comes back from the message that carries it.
pub proof fn lemma_deck_roundtrip(deck: DeckView)
    requires
        deck.ex.len() == 0,
        deck.main.len() + deck.side.len() <= 90,
    ensures
        deck_eq(spec_from_data(spec_to_update_deck(deck)), deck),
{
    let u = spec_to_update_deck(deck);
    assert(u.deckbuf.subrange(0, u.mainc as int) =~= deck.main);
    assert(u.deckbuf.subrange(u.mainc as int, u.mainc + u.sidec) =~= deck.side);
    assert(Seq::<u32>::empty() =~= deck.ex);
}

/// An update-deck message whose counts cover its codes comes back from the
/// deck that it carries.
pub proof fn lemma_update_deck_roundtrip(data: UpdateDeckView)
    requires
        data.mainc + data.sidec == data.deckbuf.len(),
    ensures
        spec_to_update_deck(spec_from_data(data)) == data,
{
    let d = spec_from_data(data);
    assert(d.main + d.side =~= data.deckbuf);
}

/// A line without the carriage return that ends it, if any.
pub open spec fn strip_cr(line: Seq<char>) -> Seq<char> {
    if line.len() > 0 && line.last() == '\r' { line.drop_last() } else { line }
}

/// The complete lines of `s` and the unterminated rest: a line ends at
/// `'\n'`, and a `'\r'` just before it is dropped.
pub open spec fn fold_lines(s: Seq<char>) -> (Seq<Seq<char>>, Seq<char>)
    decreases s.len(),
{
    if s.len() == 0 {
        (Seq::empty(), Seq::empty())
    } else {
        let (done, cur) = fold_lines(s.drop_last());
        if s.last() == '\n' {
            (done.push(strip_cr(cur)), Seq::empty())
        } else {
            (done, cur.push(s.last()))
        }
    }
}

/// The lines of a text: the complete lines, then the unterminated rest
/// where it is not empty.
pub open spec fn lines(s: Seq<char>) -> Seq<Seq<char>> {
    let (done, cur) = fold_lines(s);
    if cur.len() > 0 { done.push(cur) } else { done }
}

/// The names of the ban lists among `ls`: each line that starts with `!`,
/// without the `!`.
pub open spec fn banlist_names(ls: Seq<Seq<char>>) -> Seq<Seq<char>>
    decreases ls.len(),
{
    if ls.len() == 0 {
        Seq::empty()
    } else if ls.last().len() > 0 && ls.last()[0] == '!' {
        banlist_names(ls.drop_last()).push(ls.last().skip(1))
    } else {
        banlist_names(ls.drop_last())
    }
}

/// Whether a ban list's name ends in `TCG`.
pub open spec fn ends_with_tcg(name: Seq<char>) -> bool {
    name.len() >= 3 && name[name.len() - 3] == 'T' && name[name.len() - 2] == 'C' && name[name.len() - 1] == 'G'
}

/// The index of the first name ending in `TCG`, or -1.
pub open spec fn spec_first_tcg(names: Seq<Seq<char>>) -> int
    decreases names.len(),
{
    if names.len() == 0 {
        -1
    } else {
        let r = spec_first_tcg(names.drop_last());
        if r >= 0 { r } else if ends_with_tcg(names.last()) { names.len() - 1 } else { -1 }
    }
}

/// The ban lists that the server offers, by name, in the order of the
/// ban-list configuration.
#[derive(Clone, Debug)]
pub struct LFLists {
    lists: Vec<String>,
}

impl View for LFLists {
    type V = Seq<Seq<char>>;

    closed spec fn view(&self) -> Seq<Seq<char>> {
        self.lists@.map_values(|s: String| s@)
    }
}

fn push_name(lists: &mut Vec<String>, line: &[char])
    requires
        line@.len() > 0 && line@[0] == '!',
    ensures
        final(lists)@.map_values(|s: String| s@) == old(lists)@.map_values(|s: String| s@).push(line@.skip(1)),
{
    let mut rest: Vec<char> = Vec::new();
    let mut i: usize = 1;
    while i < line.len()
        invariant
            1 <= i <= line@.len(),
            rest@ == line@.subrange(1, i as int),
        decreases line@.len() - i,
    {
        rest.push(line[i]);
        i = i + 1;
        assert(rest@ =~= line@.subrange(1, i as int));
    }
    assert(rest@ =~= line@.skip(1));
    let name = string_of(rest.as_slice());
    lists.push(name);
    assert(final(lists)@.map_values(|s: String| s@) =~= old(lists)@.map_values(|s: String| s@).push(line@.skip(1)));
}

impl LFLists {
    /// No ban lists.
    pub fn new() -> (r: LFLists)
        ensures
            r@ == Seq::<Seq<char>>::empty(),
    {
        let r = LFLists { lists: Vec::new() };
        assert(r@ =~= Seq::<Seq<char>>::empty());
        r
    }

    /// Add the ban lists that a ban-list configuration names: each line
    /// that starts with `!` names one.
    pub fn init(&mut self, content: &str)
        ensures
            final(self)@ == old(self)@ + banlist_names(lines(content@)),
    {
        let cs = chars_of(content);
        let mut cur: Vec<char> = Vec::new();
        let mut i: usize = 0;
        while i < cs.len()
            invariant
                cs@ == content@,
                i <= cs@.len(),
                cur@ == fold_lines(cs@.take(i as int)).1,
                self@ == old(self)@ + banlist_names(fold_lines(cs@.take(i as int)).0),
            decreases cs@.len() - i,
        {
            let c = cs[i];
            proof {
                assert(cs@.take(i + 1).drop_last() =~= cs@.take(i as int));
            }
            if c == '\n' {
                let ghost done = fold_lines(cs@.take(i as int)).0;
                let ghost before = self@;
                if cur.len() > 0 && cur[cur.len() - 1] == '\r' {
                    cur.pop();
                }
                assert(cur@ =~= strip_cr(fold_lines(cs@.take(i as int)).1));
                assert(done.push(cur@).drop_last() =~= done);
                if cur.len() > 0 && cur[0] == '!' {
                    push_name(&mut self.lists, cur.as_slice());
                    assert(self@ =~= before.push(cur@.skip(1)));
                    assert(self@ =~= old(self)@ + banlist_names(done.push(cur@))) by {
                        assert(banlist_names(done.push(cur@)) == banlist_names(done).push(cur@.skip(1)));
                    }
                } else {
                    assert(banlist_names(done.push(cur@)) == banlist_names(done));
                }
                cur = Vec::new();
            } else {
                cur.push(c);
            }
            i = i + 1;
        }
        assert(cs@.take(i as int) =~= content@);
        if cur.len() > 0 {
            let ghost done = fold_lines(content@).0;
            let ghost before = self@;
            assert(done.push(cur@).drop_last() =~= done);
            if cur[0] == '!' {
                push_name(&mut self.lists, cur.as_slice());
                assert(self@ =~= before.push(cur@.skip(1)));
                assert(self@ =~= old(self)@ + banlist_names(done.push(cur@))) by {
                    assert(banlist_names(done.push(cur@)) == banlist_names(done).push(cur@.skip(1)));
                }
            } else {
                assert(banlist_names(done.push(cur@)) == banlist_names(done));
            }
        }
    }

    /// The index of the first ban list whose name ends in `TCG`, or -1.
    pub fn first_tcg(&self) -> (r: i32)
        requires
            self@.len() <= i32::MAX,
        ensures
            r as int == spec_first_tcg(self@),
    {
        let mut i: usize = 0;
        while i < self.lists.len()
            invariant
                self@.len() == self.lists@.len(),
                self@.len() <= i32::MAX,
                i <= self@.len(),
                spec_first_tcg(self@.take(i as int)) == -1,
            decreases self@.len() - i,
        {
            let name = chars_of(self.lists[i].as_str());
            let n = name.len();
            proof {
                assert(self@.take(i + 1).drop_last() =~= self@.take(i as int));
                assert(self@[i as int] == self.lists@[i as int]@);
            }
            if n >= 3 && name[n - 3] == 'T' && name[n - 2] == 'C' && name[n - 1] == 'G' {
                proof {
                    lemma_first_tcg_prefix(self@, i as int);
                }
                return i as i32;
            }
            i = i + 1;
        }
        assert(self@.take(i as int) =~= self@);
        -1
    }
}

proof fn lemma_first_tcg_prefix(names: Seq<Seq<char>>, i: int)
    requires
        0 <= i < names.len(),
        spec_first_tcg(names.take(i)) == -1,
        ends_with_tcg(names[i]),
    ensures
        spec_first_tcg(names) == i,
    decreases names.len(),
{
    if names.len() == i + 1 {
        assert(names.drop_last() =~= names.take(i));
    } else {
        assert(names.drop_last().take(i) =~= names.take(i));
        lemma_first_tcg_prefix(names.drop_last(), i);
    }
}

} // verus!
