//! How handlers and processors are shown.
use vstd::prelude::*;

use crate::srvpru::processor::{
    views, Handler, HandlerCondition, HandlerOccasion, HandlerView, Processor, ProcessorView,
};
use crate::srvpru::server::Server;
use crate::text::{decimal, push_decimal, push_str, string_of};
use crate::ygopro::message::{ctos, gm, stoc, MessageType};

verus! {

pub open spec fn spaces(n: nat) -> Seq<char> {
    Seq::new(n, |i: int| ' ')
}

/// `s` right-aligned in a field of `width` characters; a longer `s` is
/// kept whole.
pub open spec fn pad_left(s: Seq<char>, width: nat) -> Seq<char> {
    if s.len() < width { spaces((width - s.len()) as nat) + s } else { s }
}

pub open spec fn owner_text(owner: Option<Seq<char>>) -> Seq<char> {
    match owner {
        Some(o) => o,
        None => "-"@,
    }
}

/// A handler as `[priority][owner] name`: the priority right-aligned in
/// three places, the owner (or `-`) in fifteen.
pub open spec fn handler_text(h: HandlerView) -> Seq<char> {
    "["@ + pad_left(decimal(h.priority as nat), 3) + "]["@ + pad_left(owner_text(h.owner), 15) + "] "@ + h.name
}

pub open spec fn desc(h: HandlerView, indent: nat) -> Seq<char> {
    spaces(indent) + handler_text(h)
}

/// The descriptions of the handlers of `hs` with condition `c`, in order.
pub open spec fn descs_with(hs: Seq<HandlerView>, c: HandlerCondition, indent: nat) -> Seq<Seq<char>>
    decreases hs.len(),
{
    if hs.len() == 0 {
        Seq::empty()
    } else if hs.last().condition == c {
        descs_with(hs.drop_last(), c, indent).push(desc(hs.last(), indent))
    } else {
        descs_with(hs.drop_last(), c, indent)
    }
}

pub open spec fn sent_marker(indent: nat) -> Seq<char> {
    spaces(indent) + "--------- MESSAGE SENT ---------"@
}

/// The descriptions of the after-handlers of type `t`, behind `base`
/// descriptions of its before-handlers: a marker goes before the first one
/// that finds the group not empty. Also whether the marker was placed.
pub open spec fn after_descs(after: Seq<HandlerView>, t: MessageType, indent: nat, base: nat) -> (Seq<Seq<char>>, bool)
    decreases after.len(),
{
    if after.len() == 0 {
        (Seq::empty(), false)
    } else {
        let (d, sent) = after_descs(after.drop_last(), t, indent, base);
        let h = after.last();
        if h.condition == HandlerCondition::MessageType(t) {
            if base + d.len() > 0 && !sent {
                (d.push(sent_marker(indent)).push(desc(h, indent)), true)
            } else {
                (d.push(desc(h, indent)), sent)
            }
        } else {
            (d, sent)
        }
    }
}

/// The descriptions of the handlers of type `t`.
pub open spec fn typed_descs(p: ProcessorView, t: MessageType, indent: nat) -> Seq<Seq<char>> {
    let b = descs_with(p.before, HandlerCondition::MessageType(t), indent);
    b + after_descs(p.after, t, indent, b.len()).0
}

pub open spec fn lines_of(descs: Seq<Seq<char>>, indent: nat) -> Seq<char>
    decreases descs.len(),
{
    if descs.len() == 0 {
        Seq::empty()
    } else {
        lines_of(descs.drop_last(), indent) + spaces(indent) + "  "@ + descs.last() + "\n"@
    }
}

/// A titled group of descriptions, followed by an empty line; nothing for
/// an empty group.
pub open spec fn section(title: Seq<char>, descs: Seq<Seq<char>>, indent: nat) -> Seq<char> {
    if descs.len() == 0 {
        Seq::empty()
    } else {
        spaces(indent) + "  "@ + title + "\n"@ + lines_of(descs, indent) + "\n"@
    }
}

/// The message type of a key: keys order message types by direction
/// (server to client, game message, client to server, internal), then by
/// type number.
pub open spec fn type_of_key(k: int) -> Option<MessageType> {
    let code = (k % 256) as u8;
    if 0 <= k < 256 {
        match stoc::MessageType::spec_try_from(code) { Some(t) => Some(MessageType::STOC(t)), None => None }
    } else if 256 <= k < 512 {
        match gm::MessageType::spec_try_from(code) { Some(t) => Some(MessageType::GM(t)), None => None }
    } else if 512 <= k < 768 {
        match ctos::MessageType::spec_try_from(code) { Some(t) => Some(MessageType::CTOS(t)), None => None }
    } else if 768 <= k < 1024 {
        match crate::srvpru::message::MessageType::spec_try_from(code) { Some(t) => Some(MessageType::SRVPRU(t)), None => None }
    } else {
        None
    }
}

/// The groups of handlers by message type, for the keys below `k`.
pub open spec fn typed_sections(p: ProcessorView, indent: nat, k: int) -> Seq<char>
    decreases k,
{
    if k <= 0 {
        Seq::empty()
    } else {
        typed_sections(p, indent, k - 1) + match type_of_key(k - 1) {
            Some(t) => section("["@ + t.spec_text() + "]"@, typed_descs(p, t, indent), indent),
            None => Seq::empty(),
        }
    }
}

/// A processor shown by condition: a title line, the handlers that always
/// run, those with their own test, then those of each message type, the
/// after-handlers of a type set off by a marker.
pub open spec fn processor_text(p: ProcessorView, indent: nat) -> Seq<char> {
    spaces(indent) + "Processor ["@ + p.direction.spec_name() + "]\n"@
        + section("Always trigger"@, descs_with(p.before, HandlerCondition::Always, indent) + descs_with(p.after, HandlerCondition::Always, indent), indent)
        + section("Custom trigger"@, descs_with(p.before, HandlerCondition::Dynamic, indent) + descs_with(p.after, HandlerCondition::Dynamic, indent), indent)
        + typed_sections(p, indent, 1024)
}

/// The handlers of a processor, one description per line, before-handlers
/// first.
pub open spec fn processor_listing(p: ProcessorView, indent: nat) -> Seq<char> {
    lines_plain(p.before, indent) + lines_plain(p.after, indent)
}

pub open spec fn lines_plain(hs: Seq<HandlerView>, indent: nat) -> Seq<char>
    decreases hs.len(),
{
    if hs.len() == 0 {
        Seq::empty()
    } else {
        lines_plain(hs.drop_last(), indent) + spaces(indent) + handler_text(hs.last()) + "\n"@
    }
}

pub open spec fn char_views(v: Seq<Vec<char>>) -> Seq<Seq<char>> {
    v.map_values(|x: Vec<char>| x@)
}

fn push_spaces(out: &mut Vec<char>, n: usize)
    ensures
        final(out)@ == old(out)@ + spaces(n as nat),
{
    let mut i: usize = 0;
    while i < n
        invariant
            i <= n,
            out@ == old(out)@ + spaces(i as nat),
        decreases n - i,
    {
        out.push(' ');
        i = i + 1;
        assert(out@ =~= old(out)@ + spaces(i as nat));
    }
}

fn push_chars(out: &mut Vec<char>, s: &[char])
    ensures
        final(out)@ == old(out)@ + s@,
{
    let mut i: usize = 0;
    while i < s.len()
        invariant
            i <= s@.len(),
            out@ == old(out)@ + s@.take(i as int),
        decreases s@.len() - i,
    {
        out.push(s[i]);
        i = i + 1;
        assert(out@ =~= old(out)@ + s@.take(i as int));
    }
    assert(s@.take(i as int) =~= s@);
}

fn push_padded(out: &mut Vec<char>, s: &[char], width: usize)
    ensures
        final(out)@ == old(out)@ + pad_left(s@, width as nat),
{
    if s.len() < width {
        push_spaces(out, width - s.len());
    }
    push_chars(out, s);
    assert(final(out)@ =~= old(out)@ + pad_left(s@, width as nat));
}

fn handler_chars(h: &Handler) -> (r: Vec<char>)
    ensures
        r@ == handler_text(h@),
{
    let mut out: Vec<char> = Vec::new();
    push_str(&mut out, "[");
    let mut digits: Vec<char> = Vec::new();
    push_decimal(&mut digits, h.priority() as u64);
    assert(digits@ =~= decimal(h@.priority as nat));
    push_padded(&mut out, digits.as_slice(), 3);
    push_str(&mut out, "][");
    let mut owner: Vec<char> = Vec::new();
    match h.owner() {
        Some(o) => push_str(&mut owner, o),
        None => push_str(&mut owner, "-"),
    }
    assert(owner@ =~= owner_text(h@.owner));
    push_padded(&mut out, owner.as_slice(), 15);
    push_str(&mut out, "] ");
    push_str(&mut out, h.name());
    assert(out@ =~= handler_text(h@));
    out
}

impl Handler {
    /// How the handler is shown.
    pub fn to_string(&self) -> (r: String)
        ensures
            r@ == handler_text(self@),
    {
        let cs = handler_chars(self);
        string_of(cs.as_slice())
    }
}

fn desc_chars(h: &Handler, indent: usize) -> (r: Vec<char>)
    ensures
        r@ == desc(h@, indent as nat),
{
    let mut out: Vec<char> = Vec::new();
    push_spaces(&mut out, indent);
    let t = handler_chars(h);
    push_chars(&mut out, t.as_slice());
    out
}

fn collect_descs(hs: &[Handler], c: HandlerCondition, indent: usize) -> (r: Vec<Vec<char>>)
    ensures
        char_views(r@) == descs_with(views(hs@), c, indent as nat),
{
    let ghost vs = views(hs@);
    let mut out: Vec<Vec<char>> = Vec::new();
    let mut i: usize = 0;
    while i < hs.len()
        invariant
            vs == views(hs@),
            i <= hs@.len(),
            char_views(out@) == descs_with(vs.take(i as int), c, indent as nat),
        decreases hs@.len() - i,
    {
        proof {
            assert(vs.take(i + 1).drop_last() =~= vs.take(i as int));
            assert(vs.take(i + 1).last() == hs@[i as int]@);
        }
        if hs[i].condition() == c {
            let ghost prev = out@;
            out.push(desc_chars(&hs[i], indent));
            assert(char_views(out@) =~= char_views(prev).push(desc(hs@[i as int]@, indent as nat)));
        }
        i = i + 1;
    }
    assert(vs.take(i as int) =~= vs);
    out
}

fn collect_after(hs: &[Handler], t: MessageType, indent: usize, base: usize) -> (r: (Vec<Vec<char>>, bool))
    ensures
        (char_views(r.0@), r.1) == after_descs(views(hs@), t, indent as nat, base as nat),
{
    let ghost vs = views(hs@);
    let mut out: Vec<Vec<char>> = Vec::new();
    let mut sent = false;
    let mut i: usize = 0;
    while i < hs.len()
        invariant
            vs == views(hs@),
            i <= hs@.len(),
            (char_views(out@), sent) == after_descs(vs.take(i as int), t, indent as nat, base as nat),
            out@.len() <= 2 * i,
        decreases hs@.len() - i,
    {
        proof {
            assert(vs.take(i + 1).drop_last() =~= vs.take(i as int));
            assert(vs.take(i + 1).last() == hs@[i as int]@);
        }
        if hs[i].condition() == HandlerCondition::MessageType(t) {
            let ghost prev = out@;
            if (base > 0 || out.len() > 0) && !sent {
                let mut marker: Vec<char> = Vec::new();
                push_spaces(&mut marker, indent);
                push_str(&mut marker, "--------- MESSAGE SENT ---------");
                out.push(marker);
                out.push(desc_chars(&hs[i], indent));
                sent = true;
                assert(char_views(out@) =~= char_views(prev).push(sent_marker(indent as nat)).push(desc(hs@[i as int]@, indent as nat)));
            } else {
                out.push(desc_chars(&hs[i], indent));
                assert(char_views(out@) =~= char_views(prev).push(desc(hs@[i as int]@, indent as nat)));
            }
        }
        i = i + 1;
    }
    assert(vs.take(i as int) =~= vs);
    (out, sent)
}

fn push_section(out: &mut Vec<char>, title: &[char], descs: &Vec<Vec<char>>, indent: usize)
    ensures
        final(out)@ == old(out)@ + section(title@, char_views(descs@), indent as nat),
{
    if descs.len() == 0 {
        assert(final(out)@ =~= old(out)@ + section(title@, char_views(descs@), indent as nat));
        return;
    }
    push_spaces(out, indent);
    push_str(out, "  ");
    push_chars(out, title);
    push_str(out, "\n");
    let ghost head = out@;
    let ghost ds = char_views(descs@);
    let mut i: usize = 0;
    while i < descs.len()
        invariant
            ds == char_views(descs@),
            i <= descs@.len(),
            out@ == head + lines_of(ds.take(i as int), indent as nat),
        decreases descs@.len() - i,
    {
        proof {
            assert(ds.take(i + 1).drop_last() =~= ds.take(i as int));
        }
        push_spaces(out, indent);
        push_str(out, "  ");
        push_chars(out, descs[i].as_slice());
        push_str(out, "\n");
        i = i + 1;
        assert(out@ =~= head + lines_of(ds.take(i as int), indent as nat));
    }
    assert(ds.take(i as int) =~= ds);
    push_str(out, "\n");
    assert(final(out)@ =~= old(out)@ + section(title@, char_views(descs@), indent as nat));
}

fn key_type(k: u16) -> (r: Option<MessageType>)
    requires
        k < 1024,
    ensures
        r == type_of_key(k as int),
{
    let code = (k % 256) as u8;
    if k < 256 {
        match stoc::MessageType::try_from_u8(code) { Some(t) => Some(MessageType::STOC(t)), None => None }
    } else if k < 512 {
        match gm::MessageType::try_from_u8(code) { Some(t) => Some(MessageType::GM(t)), None => None }
    } else if k < 768 {
        match ctos::MessageType::try_from_u8(code) { Some(t) => Some(MessageType::CTOS(t)), None => None }
    } else {
        match crate::srvpru::message::MessageType::try_from_u8(code) { Some(t) => Some(MessageType::SRVPRU(t)), None => None }
    }
}

fn append_vecs(a: &mut Vec<Vec<char>>, b: Vec<Vec<char>>)
    ensures
        char_views(final(a)@) == char_views(old(a)@) + char_views(b@),
{
    let ghost bv = b@;
    let mut b = b;
    a.append(&mut b);
    assert(char_views(final(a)@) =~= char_views(old(a)@) + char_views(bv));
}

impl Processor {
    /// The processor shown by condition, each line indented by `indent`.
    pub fn to_string(&self, indent: usize) -> (r: String)
        ensures
            r@ == processor_text(self@, indent as nat),
    {
        let before = self.handlers(HandlerOccasion::Before);
        let after = self.handlers(HandlerOccasion::After);
        let ghost p = self@;
        let mut out: Vec<char> = Vec::new();
        push_spaces(&mut out, indent);
        push_str(&mut out, "Processor [");
        push_str(&mut out, self.direction().name());
        push_str(&mut out, "]\n");

        let mut always = collect_descs(before, HandlerCondition::Always, indent);
        append_vecs(&mut always, collect_descs(after, HandlerCondition::Always, indent));
        let title_always = crate::text::chars_of("Always trigger");
        push_section(&mut out, title_always.as_slice(), &always, indent);

        let mut custom = collect_descs(before, HandlerCondition::Dynamic, indent);
        append_vecs(&mut custom, collect_descs(after, HandlerCondition::Dynamic, indent));
        let title_custom = crate::text::chars_of("Custom trigger");
        push_section(&mut out, title_custom.as_slice(), &custom, indent);

        let ghost head = out@;
        let mut k: u16 = 0;
        while k < 1024
            invariant
                views(before@) == p.before,
                views(after@) == p.after,
                k <= 1024,
                out@ == head + typed_sections(p, indent as nat, k as int),
            decreases 1024 - k,
        {
            let ghost prev = out@;
            match key_type(k) {
                Some(t) => {
                    let mut group = collect_descs(before, HandlerCondition::MessageType(t), indent);
                    let (rest, _) = collect_after(after, t, indent, group.len());
                    append_vecs(&mut group, rest);
                    let mut title: Vec<char> = Vec::new();
                    push_str(&mut title, "[");
                    let shown = t.to_string();
                    push_str(&mut title, shown.as_str());
                    push_str(&mut title, "]");
                    push_section(&mut out, title.as_slice(), &group, indent);
                },
                None => {},
            }
            k = k + 1;
            assert(out@ =~= head + typed_sections(p, indent as nat, k as int));
        }
        assert(out@ =~= processor_text(p, indent as nat));
        string_of(out.as_slice())
    }

    /// The handlers of the processor, one per line, as they are stored.
    pub fn to_listing(&self, indent: usize) -> (r: String)
        ensures
            r@ == processor_listing(self@, indent as nat),
    {
        let mut out: Vec<char> = Vec::new();
        push_lines_plain(&mut out, self.handlers(HandlerOccasion::Before), indent);
        push_lines_plain(&mut out, self.handlers(HandlerOccasion::After), indent);
        assert(out@ =~= processor_listing(self@, indent as nat));
        string_of(out.as_slice())
    }
}

fn push_lines_plain(out: &mut Vec<char>, hs: &[Handler], indent: usize)
    ensures
        final(out)@ == old(out)@ + lines_plain(views(hs@), indent as nat),
{
    let ghost vs = views(hs@);
    let mut i: usize = 0;
    while i < hs.len()
        invariant
            vs == views(hs@),
            i <= hs@.len(),
            out@ == old(out)@ + lines_plain(vs.take(i as int), indent as nat),
        decreases hs@.len() - i,
    {
        proof {
            assert(vs.take(i + 1).drop_last() =~= vs.take(i as int));
            assert(vs.take(i + 1).last() == hs@[i as int]@);
        }
        push_spaces(out, indent);
        let t = handler_chars(&hs[i]);
        push_chars(out, t.as_slice());
        push_str(out, "\n");
        i = i + 1;
        assert(out@ =~= old(out)@ + lines_plain(vs.take(i as int), indent as nat));
    }
    assert(vs.take(i as int) =~= vs);
}

/// The server shown with the handlers of each processor.
pub open spec fn server_text(ctos: ProcessorView, stoc: ProcessorView, internal: ProcessorView) -> Seq<char> {
    "\nsrvpru socket server\n  CTOS processors:\n"@ + processor_listing(ctos, 4)
        + "  STOC processors:\n"@ + processor_listing(stoc, 4)
        + "  INTERNAL processors:\n"@ + processor_listing(internal, 4)
}

impl Server {
    /// The server shown with the handlers of each processor.
    pub fn to_string(&self) -> (r: String)
        ensures
            r@ == server_text(self.ctos_processor@, self.stoc_processor@, self.internal_processor@),
    {
        let mut out: Vec<char> = Vec::new();
        push_str(&mut out, "\nsrvpru socket server\n  CTOS processors:\n");
        push_lines_plain(&mut out, self.ctos_processor.handlers(HandlerOccasion::Before), 4);
        push_lines_plain(&mut out, self.ctos_processor.handlers(HandlerOccasion::After), 4);
        push_str(&mut out, "  STOC processors:\n");
        push_lines_plain(&mut out, self.stoc_processor.handlers(HandlerOccasion::Before), 4);
        push_lines_plain(&mut out, self.stoc_processor.handlers(HandlerOccasion::After), 4);
        push_str(&mut out, "  INTERNAL processors:\n");
        push_lines_plain(&mut out, self.internal_processor.handlers(HandlerOccasion::Before), 4);
        push_lines_plain(&mut out, self.internal_processor.handlers(HandlerOccasion::After), 4);
        assert(out@ =~= server_text(self.ctos_processor@, self.stoc_processor@, self.internal_processor@));
        string_of(out.as_slice())
    }
}

} // verus!
