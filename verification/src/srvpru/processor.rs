//! Handlers and the processors that run them: which handler runs for which
//! message and in which order, how a buffer of messages is split into
//! messages, and what is sent on after the handlers ran.
use vstd::prelude::*;

use crate::srvpru::name_map::NameMap;
use crate::ygopro::message::generate::{spec_wrap, wrap_data};
use crate::ygopro::message::utils::{
    decoded, deserialize_struct_by_type, spec_message_type, try_get_message_type, Message,
};
use crate::ygopro::message::{Direction, MappedStruct, MessageType};

verus! {

/// Decide when to check or run a [`Handler`].
#[derive(Copy, Clone, Debug, PartialEq, Eq, Structural, Hash)]
pub enum HandlerOccasion {
    /// Run this handler before the message is sent on.
    Before,
    /// Run this handler after the message was sent on.
    After,
    /// Don't run this handler.
    Never,
}

/// Decide whether a [`Handler`] runs for a message.
#[derive(Copy, Clone, Debug, PartialEq, Eq, Structural, Hash)]
pub enum HandlerCondition {
    /// Always run.
    Always,
    /// Run for messages of one type.
    MessageType(MessageType),
    /// Run where the handler's own test on the message says so.
    Dynamic,
}

impl HandlerCondition {
    /// Whether the condition meets for a message of type `message_type`;
    /// `dynamic` is what a dynamic condition's own test answered.
    pub open spec fn spec_meet(self, message_type: Option<MessageType>, dynamic: bool) -> bool {
        match self {
            HandlerCondition::Always => true,
            HandlerCondition::MessageType(t) => message_type == Some(t),
            HandlerCondition::Dynamic => dynamic,
        }
    }

    /// Check if the condition meets.
    pub fn meet(&self, message_type: Option<MessageType>, dynamic: bool) -> (r: bool)
        ensures
            r == self.spec_meet(message_type, dynamic),
    {
        match self {
            HandlerCondition::Always => true,
            HandlerCondition::MessageType(t) => match message_type {
                Some(m) => m == *t,
                None => false,
            },
            HandlerCondition::Dynamic => dynamic,
        }
    }
}

/// A handler: what runs, when, and in which order. What it executes is kept
/// beside it under its name.
#[derive(Debug)]
pub struct Handler {
    name: String,
    priority: u8,
    owner: Option<String>,
    condition: HandlerCondition,
    occasion: HandlerOccasion,
}

pub struct HandlerView {
    pub name: Seq<char>,
    pub priority: u8,
    pub owner: Option<Seq<char>>,
    pub condition: HandlerCondition,
    pub occasion: HandlerOccasion,
}

pub open spec fn opt_view(s: Option<String>) -> Option<Seq<char>> {
    match s {
        Some(x) => Some(x@),
        None => None,
    }
}

impl View for Handler {
    type V = HandlerView;

    closed spec fn view(&self) -> HandlerView {
        HandlerView {
            name: self.name@,
            priority: self.priority,
            owner: opt_view(self.owner),
            condition: self.condition,
            occasion: self.occasion,
        }
    }
}

/// The handler of a name and priority, owned by no plugin.
pub open spec fn fresh_handler(priority: u8, name: Seq<char>, occasion: HandlerOccasion, condition: HandlerCondition) -> HandlerView {
    HandlerView { name, priority, owner: None, condition, occasion }
}

impl Handler {
    /// Create a handler, pointing out each property.
    pub fn new(priority: u8, name: &str, occasion: HandlerOccasion, condition: HandlerCondition) -> (r: Handler)
        ensures
            r@ == fresh_handler(priority, name@, occasion, condition),
    {
        Handler { name: name.to_owned(), priority, owner: None, condition, occasion }
    }

    /// A handler that runs before a message of `S`'s type is sent on.
    pub fn before_message<S: MappedStruct>(priority: u8, name: &str) -> (r: Handler)
        ensures
            r@ == fresh_handler(priority, name@, HandlerOccasion::Before, HandlerCondition::MessageType(S::spec_message())),
    {
        Handler::new(priority, name, HandlerOccasion::Before, HandlerCondition::MessageType(S::message()))
    }

    /// A handler that runs after a message of `S`'s type was sent on.
    pub fn follow_message<S: MappedStruct>(priority: u8, name: &str) -> (r: Handler)
        ensures
            r@ == fresh_handler(priority, name@, HandlerOccasion::After, HandlerCondition::MessageType(S::spec_message())),
    {
        Handler::new(priority, name, HandlerOccasion::After, HandlerCondition::MessageType(S::message()))
    }

    /// A handler that runs before a message of `S`'s type is sent on and
    /// never stops the handlers after it.
    pub fn before_message_simple<S: MappedStruct>(priority: u8, name: &str) -> (r: Handler)
        ensures
            r@ == fresh_handler(priority, name@, HandlerOccasion::Before, HandlerCondition::MessageType(S::spec_message())),
    {
        Handler::before_message::<S>(priority, name)
    }

    pub fn name(&self) -> (r: &str)
        ensures
            r@ == self@.name,
    {
        self.name.as_str()
    }

    pub fn priority(&self) -> (r: u8)
        ensures
            r == self@.priority,
    {
        self.priority
    }

    pub fn condition(&self) -> (r: HandlerCondition)
        ensures
            r == self@.condition,
    {
        self.condition
    }

    pub fn occasion(&self) -> (r: HandlerOccasion)
        ensures
            r == self@.occasion,
    {
        self.occasion
    }

    pub fn owner(&self) -> (r: Option<&str>)
        ensures
            match r {
                Some(s) => self@.owner == Some(s@),
                None => self@.owner is None,
            },
    {
        match &self.owner {
            Some(s) => Some(s.as_str()),
            None => None,
        }
    }

    /// A copy of this handler.
    pub fn duplicate(&self) -> (r: Handler)
        ensures
            r@ == self@,
    {
        let owner = match &self.owner {
            Some(s) => Some(s.clone()),
            None => None,
        };
        Handler {
            name: self.name.clone(),
            priority: self.priority,
            owner,
            condition: self.condition,
            occasion: self.occasion,
        }
    }

    fn set_owner(&mut self, owner: &str)
        ensures
            final(self)@ == (HandlerView { owner: Some(owner@), ..old(self)@ }),
    {
        self.owner = Some(owner.to_owned());
    }
}

/// The views of a run of handlers.
pub open spec fn views(hs: Seq<Handler>) -> Seq<HandlerView> {
    hs.map_values(|h: Handler| h@)
}

// ----------------------------------------------------------------------------
//  Ordering by priority
// ----------------------------------------------------------------------------

/// The handlers of priority `p` among `hs`, in their order.
pub open spec fn select(hs: Seq<HandlerView>, p: int) -> Seq<HandlerView>
    decreases hs.len(),
{
    if hs.len() == 0 {
        Seq::empty()
    } else if hs.last().priority == p {
        select(hs.drop_last(), p).push(hs.last())
    } else {
        select(hs.drop_last(), p)
    }
}

/// The handlers of priority below `n`, by priority, and in their order
/// within one priority.
pub open spec fn by_priority_below(hs: Seq<HandlerView>, n: int) -> Seq<HandlerView>
    decreases n,
{
    if n <= 0 {
        Seq::empty()
    } else {
        by_priority_below(hs, n - 1) + select(hs, n - 1)
    }
}

/// The handlers sorted by priority, smaller first; handlers of one priority
/// keep their order.
pub open spec fn by_priority(hs: Seq<HandlerView>) -> Seq<HandlerView> {
    by_priority_below(hs, 256)
}

proof fn lemma_select_priority(hs: Seq<HandlerView>, p: int)
    ensures
        forall|i: int| 0 <= i < select(hs, p).len() ==> #[trigger] select(hs, p)[i].priority == p,
    decreases hs.len(),
{
    if hs.len() > 0 {
        lemma_select_priority(hs.drop_last(), p);
    }
}

proof fn lemma_below_priority(hs: Seq<HandlerView>, n: int)
    ensures
        forall|i: int| 0 <= i < by_priority_below(hs, n).len() ==> #[trigger] by_priority_below(hs, n)[i].priority < n,
    decreases n,
{
    if n > 0 {
        lemma_below_priority(hs, n - 1);
        lemma_select_priority(hs, n - 1);
        let a = by_priority_below(hs, n - 1);
        let b = select(hs, n - 1);
        assert forall|i: int| 0 <= i < by_priority_below(hs, n).len() implies #[trigger] by_priority_below(hs, n)[i].priority < n by {
            if i < a.len() {
                assert(by_priority_below(hs, n)[i] == a[i]);
            } else {
                assert(by_priority_below(hs, n)[i] == b[i - a.len()]);
            }
        }
    }
}

proof fn lemma_below_sorted(hs: Seq<HandlerView>, n: int)
    ensures
        forall|i: int, j: int| 0 <= i < j < by_priority_below(hs, n).len() ==>
            (#[trigger] by_priority_below(hs, n)[i]).priority <= (#[trigger] by_priority_below(hs, n)[j]).priority,
    decreases n,
{
    if n > 0 {
        lemma_below_sorted(hs, n - 1);
        lemma_below_priority(hs, n - 1);
        lemma_select_priority(hs, n - 1);
        let a = by_priority_below(hs, n - 1);
        let b = select(hs, n - 1);
        let s = by_priority_below(hs, n);
        assert forall|i: int, j: int| 0 <= i < j < s.len() implies (#[trigger] s[i]).priority <= (#[trigger] s[j]).priority by {
            if j < a.len() {
                assert(s[i] == a[i] && s[j] == a[j]);
            } else if i < a.len() {
                assert(s[i] == a[i] && s[j] == b[j - a.len()]);
            } else {
                assert(s[i] == b[i - a.len()] && s[j] == b[j - a.len()]);
            }
        }
    }
}

proof fn lemma_select_count(hs: Seq<HandlerView>, p: int, x: HandlerView)
    ensures
        select(hs, p).to_multiset().count(x) == if x.priority == p { hs.to_multiset().count(x) } else { 0 },
    decreases hs.len(),
{
    broadcast use vstd::seq_lib::group_to_multiset_ensures;
    if hs.len() == 0 {
    } else {
        lemma_select_count(hs.drop_last(), p, x);
        assert(hs.drop_last().push(hs.last()) =~= hs);
    }
}

proof fn lemma_below_count(hs: Seq<HandlerView>, n: int, x: HandlerView)
    requires
        0 <= n,
    ensures
        by_priority_below(hs, n).to_multiset().count(x) == if x.priority < n { hs.to_multiset().count(x) } else { 0 },
    decreases n,
{
    broadcast use vstd::seq_lib::group_to_multiset_ensures;
    if n > 0 {
        lemma_below_count(hs, n - 1, x);
        lemma_select_count(hs, n - 1, x);
        vstd::seq_lib::lemma_multiset_commutative(by_priority_below(hs, n - 1), select(hs, n - 1));
    }
}

proof fn lemma_select_concat(a: Seq<HandlerView>, b: Seq<HandlerView>, p: int)
    ensures
        select(a + b, p) == select(a, p) + select(b, p),
    decreases b.len(),
{
    if b.len() == 0 {
        assert(a + b =~= a);
        assert(select(a, p) + select(b, p) =~= select(a, p));
    } else {
        lemma_select_concat(a, b.drop_last(), p);
        assert((a + b).drop_last() =~= a + b.drop_last());
        assert((a + b).last() == b.last());
        if b.last().priority == p {
            assert(select(a, p) + select(b, p) =~= (select(a, p) + select(b.drop_last(), p)).push(b.last()));
        }
    }
}

proof fn lemma_select_select(hs: Seq<HandlerView>, p: int, q: int)
    ensures
        select(select(hs, q), p) == if p == q { select(hs, p) } else { Seq::<HandlerView>::empty() },
    decreases hs.len(),
{
    if hs.len() > 0 {
        lemma_select_select(hs.drop_last(), p, q);
        if hs.last().priority == q {
            let s = select(hs.drop_last(), q).push(hs.last());
            assert(s.drop_last() =~= select(hs.drop_last(), q));
        }
    }
}

proof fn lemma_select_below(hs: Seq<HandlerView>, n: int, p: int)
    ensures
        select(by_priority_below(hs, n), p) == if 0 <= p < n { select(hs, p) } else { Seq::<HandlerView>::empty() },
    decreases n,
{
    if n > 0 {
        lemma_select_below(hs, n - 1, p);
        lemma_select_concat(by_priority_below(hs, n - 1), select(hs, n - 1), p);
        lemma_select_select(hs, p, n - 1);
        if p == n - 1 {
            assert(Seq::<HandlerView>::empty() + select(hs, p) =~= select(hs, p));
        } else if 0 <= p < n - 1 {
            assert(select(hs, p) + Seq::<HandlerView>::empty() =~= select(hs, p));
        } else {
            assert(Seq::<HandlerView>::empty() + Seq::<HandlerView>::empty() =~= Seq::<HandlerView>::empty());
        }
    } else {
        assert(select(Seq::<HandlerView>::empty(), p) =~= Seq::<HandlerView>::empty());
    }
}

/// Handlers with a smaller priority run first: ordering by priority gives a
/// sequence sorted by priority.
pub proof fn lemma_by_priority_sorted(hs: Seq<HandlerView>)
    ensures
        forall|i: int, j: int| 0 <= i < j < by_priority(hs).len() ==>
            (#[trigger] by_priority(hs)[i]).priority <= (#[trigger] by_priority(hs)[j]).priority,
{
    lemma_below_sorted(hs, 256);
}

/// Ordering by priority keeps every handler, each as often as it was there.
pub proof fn lemma_by_priority_permutation(hs: Seq<HandlerView>)
    ensures
        by_priority(hs).to_multiset() == hs.to_multiset(),
{
    assert forall|x: HandlerView| by_priority(hs).to_multiset().count(x) == hs.to_multiset().count(x) by {
        lemma_below_count(hs, 256, x);
    }
    assert(by_priority(hs).to_multiset() =~= hs.to_multiset());
}

/// Ordering by priority is stable: the handlers of one priority keep the
/// order in which they were added.
pub proof fn lemma_by_priority_stable(hs: Seq<HandlerView>, p: u8)
    ensures
        select(by_priority(hs), p as int) == select(hs, p as int),
{
    lemma_select_below(hs, 256, p as int);
}

fn sort_by_priority(hs: &Vec<Handler>) -> (r: Vec<Handler>)
    ensures
        views(r@) == by_priority(views(hs@)),
{
    let ghost vs = views(hs@);
    let mut out: Vec<Handler> = Vec::new();
    let mut p: u16 = 0;
    while p < 256
        invariant
            vs == views(hs@),
            p <= 256,
            views(out@) == by_priority_below(vs, p as int),
        decreases 256 - p,
    {
        let mut i: usize = 0;
        let ghost start = views(out@);
        while i < hs.len()
            invariant
                vs == views(hs@),
                p < 256,
                i <= hs@.len(),
                start == by_priority_below(vs, p as int),
                views(out@) == start + select(vs.take(i as int), p as int),
            decreases hs@.len() - i,
        {
            proof {
                assert(vs.take(i + 1).drop_last() =~= vs.take(i as int));
                assert(vs.take(i + 1).last() == hs@[i as int]@);
            }
            if hs[i].priority() as u16 == p {
                let h = hs[i].duplicate();
                let ghost prev = out@;
                out.push(h);
                assert(views(out@) =~= views(prev).push(hs@[i as int]@));
                assert(views(out@) =~= start + select(vs.take(i + 1), p as int));
            } else {
                assert(views(out@) =~= start + select(vs.take(i + 1), p as int));
            }
            i = i + 1;
        }
        assert(vs.take(i as int) =~= vs);
        p = p + 1;
    }
    out
}

// ----------------------------------------------------------------------------
//  Processor
// ----------------------------------------------------------------------------

/// A group of handlers for one direction.
#[derive(Debug)]
pub struct Processor {
    direction: Direction,
    before_handlers: Vec<Handler>,
    after_handlers: Vec<Handler>,
}

pub struct ProcessorView {
    pub direction: Direction,
    pub before: Seq<HandlerView>,
    pub after: Seq<HandlerView>,
}

impl View for Processor {
    type V = ProcessorView;

    closed spec fn view(&self) -> ProcessorView {
        ProcessorView {
            direction: self.direction,
            before: views(self.before_handlers@),
            after: views(self.after_handlers@),
        }
    }
}

/// A processor after a handler was added to it.
pub open spec fn spec_add_handler(p: ProcessorView, h: HandlerView) -> ProcessorView {
    match h.occasion {
        HandlerOccasion::Before => ProcessorView { before: p.before.push(h), ..p },
        HandlerOccasion::After => ProcessorView { after: p.after.push(h), ..p },
        HandlerOccasion::Never => p,
    }
}

/// A processor after handlers were added to it, in order.
pub open spec fn spec_add_handlers(p: ProcessorView, hs: Seq<HandlerView>) -> ProcessorView
    decreases hs.len(),
{
    if hs.len() == 0 {
        p
    } else {
        spec_add_handler(spec_add_handlers(p, hs.drop_last()), hs.last())
    }
}

/// A processor with its handlers sorted by priority.
pub open spec fn spec_prepare(p: ProcessorView) -> ProcessorView {
    ProcessorView { direction: p.direction, before: by_priority(p.before), after: by_priority(p.after) }
}

impl Processor {
    /// A processor with no handlers.
    pub fn new(direction: Direction) -> (r: Processor)
        ensures
            r@.direction == direction,
            r@.before.len() == 0,
            r@.after.len() == 0,
    {
        Processor { direction, before_handlers: Vec::new(), after_handlers: Vec::new() }
    }

    pub fn direction(&self) -> (r: Direction)
        ensures
            r == self@.direction,
    {
        self.direction
    }

    /// Add a handler to this processor; a handler that never runs is dropped.
    pub fn add_handler(&mut self, handler: Handler)
        ensures
            final(self)@ == spec_add_handler(old(self)@, handler@),
    {
        let ghost h = handler@;
        match handler.occasion {
            HandlerOccasion::Before => {
                self.before_handlers.push(handler);
                assert(views(self.before_handlers@) =~= views(old(self).before_handlers@).push(h));
            },
            HandlerOccasion::After => {
                self.after_handlers.push(handler);
                assert(views(self.after_handlers@) =~= views(old(self).after_handlers@).push(h));
            },
            HandlerOccasion::Never => {},
        }
    }

    /// Sort handlers by priority. Run this method before processing.
    pub fn prepare(&mut self)
        ensures
            final(self)@ == spec_prepare(old(self)@),
    {
        let before = sort_by_priority(&self.before_handlers);
        let after = sort_by_priority(&self.after_handlers);
        self.before_handlers = before;
        self.after_handlers = after;
    }

    /// The handlers that run at an occasion, in the order they run.
    pub fn handlers(&self, occasion: HandlerOccasion) -> (r: &[Handler])
        ensures
            views(r@) == match occasion {
                HandlerOccasion::Before => self@.before,
                HandlerOccasion::After => self@.after,
                HandlerOccasion::Never => Seq::<HandlerView>::empty(),
            },
    {
        match occasion {
            HandlerOccasion::Before => self.before_handlers.as_slice(),
            HandlerOccasion::After => self.after_handlers.as_slice(),
            HandlerOccasion::Never => {
                let r: &[Handler] = &[];
                assert(views(r@) =~= Seq::<HandlerView>::empty());
                r
            },
        }
    }
}

// ----------------------------------------------------------------------------
//  Registry
// ----------------------------------------------------------------------------

/// Names, in order.
#[derive(Debug)]
pub struct Names {
    pub names: Vec<String>,
}

impl View for Names {
    type V = Seq<Seq<char>>;

    open spec fn view(&self) -> Seq<Seq<char>> {
        self.names@.map_values(|s: String| s@)
    }
}

/// The texts of a run of string slices.
pub open spec fn strs(v: Seq<&str>) -> Seq<Seq<char>> {
    v.map_values(|s: &str| s@)
}

/// The strings of `v`, in order.
pub fn names_of_strs(v: &[&str]) -> (r: Vec<String>)
    ensures
        r@.map_values(|s: String| s@) == strs(v@),
{
    let mut names: Vec<String> = Vec::new();
    let mut i: usize = 0;
    while i < v.len()
        invariant
            i <= v@.len(),
            names@.map_values(|s: String| s@) == strs(v@.take(i as int)),
        decreases v@.len() - i,
    {
        let ghost prev = names@;
        names.push(v[i].to_owned());
        assert(names@.map_values(|s: String| s@) =~= prev.map_values(|s: String| s@).push(v@[i as int]@));
        i = i + 1;
        assert(strs(v@.take(i as int)) =~= strs(v@.take(i - 1)).push(v@[i - 1]@));
    }
    assert(v@.take(i as int) =~= v@);
    names
}

/// The handlers that a plugin registered, by direction.
#[derive(Debug)]
pub struct PluginHandlers {
    pub ctos: Names,
    pub stoc: Names,
    pub srvpru: Names,
}

pub struct PluginHandlersView {
    pub ctos: Seq<Seq<char>>,
    pub stoc: Seq<Seq<char>>,
    pub srvpru: Seq<Seq<char>>,
}

impl View for PluginHandlers {
    type V = PluginHandlersView;

    open spec fn view(&self) -> PluginHandlersView {
        PluginHandlersView { ctos: self.ctos@, stoc: self.stoc@, srvpru: self.srvpru@ }
    }
}

/// A plugin's handlers with `names` added in `direction`.
pub open spec fn spec_append(e: PluginHandlersView, direction: Direction, names: Seq<Seq<char>>) -> PluginHandlersView {
    match direction {
        Direction::CTOS => PluginHandlersView { ctos: e.ctos + names, ..e },
        Direction::STOC => PluginHandlersView { stoc: e.stoc + names, ..e },
        Direction::SRVPRU => PluginHandlersView { srvpru: e.srvpru + names, ..e },
    }
}

/// A plugin's handlers, or none where it registered none.
pub open spec fn entry_or_empty(m: Map<Seq<char>, PluginHandlersView>, plugin: Seq<char>) -> PluginHandlersView {
    if m.contains_key(plugin) {
        m[plugin]
    } else {
        PluginHandlersView { ctos: Seq::empty(), stoc: Seq::empty(), srvpru: Seq::empty() }
    }
}

/// The library with the handlers named in `names` marked as owned by `plugin`.
pub open spec fn owned_by(lib: Map<Seq<char>, HandlerView>, names: Seq<Seq<char>>, plugin: Seq<char>) -> Map<Seq<char>, HandlerView> {
    Map::new(
        |k: Seq<char>| lib.contains_key(k),
        |k: Seq<char>| if names.contains(k) { HandlerView { owner: Some(plugin), ..lib[k] } } else { lib[k] },
    )
}

/// The registry after a handler was put into the library under its name.
pub open spec fn spec_register(r: RegistryView, h: HandlerView) -> RegistryView {
    RegistryView { library: r.library.insert(h.name, h), ..r }
}

/// The registry after handlers were marked as a plugin's in a direction.
pub open spec fn spec_register_handlers(r: RegistryView, plugin: Seq<char>, direction: Direction, names: Seq<Seq<char>>) -> RegistryView {
    RegistryView {
        library: owned_by(r.library, names, plugin),
        by_plugin: r.by_plugin.insert(plugin, spec_append(entry_or_empty(r.by_plugin, plugin), direction, names)),
        ..r
    }
}

/// The registry after a handler was registered for a plugin: where its
/// condition names a message type, it is put into the library and listed
/// as the plugin's in that type's direction; otherwise nothing changes.
pub open spec fn spec_register_for_plugin(r: RegistryView, h: HandlerView, plugin: Seq<char>) -> RegistryView {
    match h.condition {
        HandlerCondition::MessageType(t) => spec_register_handlers(spec_register(r, h), plugin, t.spec_direction(), seq![h.name]),
        _ => r,
    }
}

/// The registry after a plugin's dependencies were recorded.
pub open spec fn spec_register_dependencies(r: RegistryView, plugin: Seq<char>, deps: Seq<Seq<char>>) -> RegistryView {
    RegistryView { dependencies: r.dependencies.insert(plugin, deps), ..r }
}

/// Handlers kept until processors take them: by their names, the names of
/// handlers that each plugin registered, and the plugins that each plugin
/// depends on.
#[derive(Debug)]
pub struct Registry {
    library: NameMap<Handler>,
    by_plugin: NameMap<PluginHandlers>,
    dependencies: NameMap<Names>,
    configured: NameMap<()>,
}

pub struct RegistryView {
    pub library: Map<Seq<char>, HandlerView>,
    pub by_plugin: Map<Seq<char>, PluginHandlersView>,
    pub dependencies: Map<Seq<char>, Seq<Seq<char>>>,
    /// The plugins whose configuration was loaded.
    pub configured: Set<Seq<char>>,
}

impl View for Registry {
    type V = RegistryView;

    closed spec fn view(&self) -> RegistryView {
        RegistryView {
            library: self.library.map(),
            by_plugin: self.by_plugin.map(),
            dependencies: self.dependencies.map(),
            configured: self.configured.map().dom(),
        }
    }
}

impl Registry {
    pub closed spec fn wf(&self) -> bool {
        self.library.wf() && self.by_plugin.wf() && self.dependencies.wf() && self.configured.wf()
    }

    /// An empty registry.
    pub fn new() -> (r: Registry)
        ensures
            r.wf(),
            r@.library == Map::<Seq<char>, HandlerView>::empty(),
            r@.by_plugin == Map::<Seq<char>, PluginHandlersView>::empty(),
            r@.dependencies == Map::<Seq<char>, Seq<Seq<char>>>::empty(),
            r@.configured == Set::<Seq<char>>::empty(),
    {
        let r = Registry { library: NameMap::new(), by_plugin: NameMap::new(), dependencies: NameMap::new(), configured: NameMap::new() };
        assert(r@.configured =~= Set::<Seq<char>>::empty());
        r
    }

    /// Mark a plugin's configuration as loaded: `false`, and nothing
    /// changes, where it already was.
    pub fn configure(&mut self, plugin: &str) -> (r: bool)
        requires
            old(self).wf(),
        ensures
            final(self).wf(),
            r == !old(self)@.configured.contains(plugin@),
            r ==> final(self)@ == (RegistryView { configured: old(self)@.configured.insert(plugin@), ..old(self)@ }),
            !r ==> final(self)@ == old(self)@,
    {
        let key = plugin.to_owned();
        if self.configured.contains_key(&key) {
            false
        } else {
            self.configured.insert(key, ());
            assert(self@.configured =~= old(self)@.configured.insert(plugin@));
            true
        }
    }

    /// Take the handler stored under `name` out of the library.
    pub fn take_handler(&mut self, name: &String) -> (r: Option<Handler>)
        requires
            old(self).wf(),
        ensures
            final(self).wf(),
            final(self)@.library == old(self)@.library.remove(name@),
            final(self)@.by_plugin == old(self)@.by_plugin,
            final(self)@.dependencies == old(self)@.dependencies,
            final(self)@.configured == old(self)@.configured,
            match r {
                None => !old(self)@.library.contains_key(name@),
                Some(h) => old(self)@.library.contains_key(name@) && old(self)@.library[name@] == h@,
            },
    {
        self.library.remove(name)
    }

    /// Take what a plugin registered out.
    pub fn take_plugin(&mut self, plugin: &String) -> (r: Option<PluginHandlers>)
        requires
            old(self).wf(),
        ensures
            final(self).wf(),
            final(self)@.library == old(self)@.library,
            final(self)@.by_plugin == old(self)@.by_plugin.remove(plugin@),
            final(self)@.dependencies == old(self)@.dependencies,
            final(self)@.configured == old(self)@.configured,
            match r {
                None => !old(self)@.by_plugin.contains_key(plugin@),
                Some(e) => old(self)@.by_plugin.contains_key(plugin@) && old(self)@.by_plugin[plugin@] == e@,
            },
    {
        self.by_plugin.remove(plugin)
    }

    /// The plugins that `name` depends on, if it named any.
    pub fn dependencies_of(&self, name: &String) -> (r: Option<&Names>)
        requires
            self.wf(),
        ensures
            match r {
                None => !self@.dependencies.contains_key(name@),
                Some(d) => self@.dependencies.contains_key(name@) && self@.dependencies[name@] == d@,
            },
    {
        self.dependencies.get(name)
    }
}

impl Handler {
    /// Put the handler into the library under its name. A handler put there
    /// this way only runs where the configuration names it.
    pub fn register(self, registry: &mut Registry)
        requires
            old(registry).wf(),
        ensures
            final(registry).wf(),
            final(registry)@ == spec_register(old(registry)@, self@),
    {
        let key = self.name.clone();
        registry.library.insert(key, self);
    }

    /// Put the handler into the library under a new name.
    pub fn register_as(self, name: &str, registry: &mut Registry)
        requires
            old(registry).wf(),
        ensures
            final(registry).wf(),
            final(registry)@ == spec_register(old(registry)@, (HandlerView { name: name@, ..self@ })),
    {
        let mut h = self;
        h.name = name.to_owned();
        h.register(registry);
    }

    /// Put a handler into the library under `name`, whatever its own name.
    pub fn register_handler(name: &str, handler: Handler, registry: &mut Registry)
        requires
            old(registry).wf(),
        ensures
            final(registry).wf(),
            final(registry)@.library == old(registry)@.library.insert(name@, handler@),
            final(registry)@.by_plugin == old(registry)@.by_plugin,
            final(registry)@.dependencies == old(registry)@.dependencies,
            final(registry)@.configured == old(registry)@.configured,
    {
        registry.library.insert(name.to_owned(), handler);
    }

    /// Mark handlers already in the library as owned by a plugin, and list
    /// them as that plugin's handlers in `direction`. Names that are not in
    /// the library are listed all the same.
    pub fn register_handlers(plugin_name: &str, direction: Direction, handlers: Vec<&str>, registry: &mut Registry)
        requires
            old(registry).wf(),
        ensures
            final(registry).wf(),
            final(registry)@ == spec_register_handlers(old(registry)@, plugin_name@, direction, strs(handlers@)),
    {
        let names = Names { names: names_of_strs(handlers.as_slice()) };
        let ghost lib0 = registry@.library;
        let mut i: usize = 0;
        assert(owned_by(lib0, strs(handlers@).take(0), plugin_name@) =~= lib0);
        while i < names.names.len()
            invariant
                names@ == strs(handlers@),
                i <= names@.len(),
                registry.wf(),
                registry@.library == owned_by(lib0, names@.take(i as int), plugin_name@),
                registry@.by_plugin == old(registry)@.by_plugin,
                registry@.dependencies == old(registry)@.dependencies,
                registry@.configured == old(registry)@.configured,
            decreases names@.len() - i,
        {
            let key = &names.names[i];
            let ghost k = key@;
            let ghost before = registry@.library;
            assert(names@[i as int] == k);
            match registry.library.remove(key) {
                None => {
                    assert(registry.library.map() =~= before);
                    assert(owned_by(lib0, names@.take(i + 1), plugin_name@) =~= before) by {
                        assert forall|x: Seq<char>| #[trigger] lib0.contains_key(x) implies
                            names@.take(i + 1).contains(x) == names@.take(i as int).contains(x) || x == k by {
                            if names@.take(i + 1).contains(x) && x != k {
                                let j = choose|j: int| 0 <= j < i + 1 && #[trigger] names@.take(i + 1)[j] == x;
                                assert(names@.take(i as int)[j] == x);
                            }
                            if names@.take(i as int).contains(x) {
                                let j = choose|j: int| 0 <= j < i && #[trigger] names@.take(i as int)[j] == x;
                                assert(names@.take(i + 1)[j] == x);
                            }
                        }
                    }
                },
                Some(h) => {
                    let mut h = h;
                    h.set_owner(plugin_name);
                    registry.library.insert(key.clone(), h);
                    assert(registry@.library =~= owned_by(lib0, names@.take(i + 1), plugin_name@)) by {
                        assert forall|x: Seq<char>| #[trigger] lib0.contains_key(x) implies
                            names@.take(i + 1).contains(x) == (names@.take(i as int).contains(x) || x == k) by {
                            if names@.take(i + 1).contains(x) && x != k {
                                let j = choose|j: int| 0 <= j < i + 1 && #[trigger] names@.take(i + 1)[j] == x;
                                assert(names@.take(i as int)[j] == x);
                            }
                            if names@.take(i as int).contains(x) {
                                let j = choose|j: int| 0 <= j < i && #[trigger] names@.take(i as int)[j] == x;
                                assert(names@.take(i + 1)[j] == x);
                            }
                            if x == k {
                                assert(names@.take(i + 1)[i as int] == x);
                            }
                        }
                    }
                },
            }
            i = i + 1;
        }
        assert(names@.take(i as int) =~= strs(handlers@));
        let plugin = plugin_name.to_owned();
        let entry = match registry.by_plugin.remove(&plugin) {
            Some(e) => e,
            None => {
                let e = PluginHandlers {
                    ctos: Names { names: Vec::new() },
                    stoc: Names { names: Vec::new() },
                    srvpru: Names { names: Vec::new() },
                };
                assert(e.ctos@ =~= Seq::<Seq<char>>::empty());
                assert(e.stoc@ =~= Seq::<Seq<char>>::empty());
                assert(e.srvpru@ =~= Seq::<Seq<char>>::empty());
                e
            },
        };
        assert(entry@ == entry_or_empty(old(registry)@.by_plugin, plugin_name@));
        let mut entry = entry;
        let mut added = names;
        match direction {
            Direction::CTOS => {
                let ghost prev = entry.ctos@;
                entry.ctos.names.append(&mut added.names);
                assert(entry.ctos@ =~= prev + strs(handlers@));
            },
            Direction::STOC => {
                let ghost prev = entry.stoc@;
                entry.stoc.names.append(&mut added.names);
                assert(entry.stoc@ =~= prev + strs(handlers@));
            },
            Direction::SRVPRU => {
                let ghost prev = entry.srvpru@;
                entry.srvpru.names.append(&mut added.names);
                assert(entry.srvpru@ =~= prev + strs(handlers@));
            },
        }
        registry.by_plugin.insert(plugin, entry);
        assert(registry@.by_plugin =~= old(registry)@.by_plugin.insert(
            plugin_name@,
            spec_append(entry_or_empty(old(registry)@.by_plugin, plugin_name@), direction, strs(handlers@)),
        ));
    }

    /// Put the handler into the library and list it as the plugin's handler
    /// in the direction of its message type. A handler whose condition names
    /// no message type has no direction and is not registered.
    pub fn register_for_plugin(self, plugin_name: &str, registry: &mut Registry)
        requires
            old(registry).wf(),
        ensures
            final(registry).wf(),
            final(registry)@ == spec_register_for_plugin(old(registry)@, self@, plugin_name@),
    {
        let direction = match self.condition {
            HandlerCondition::MessageType(t) => t.direction(),
            _ => return,
        };
        let ghost hv = self@;
        let name = self.name.clone();
        self.register(registry);
        let mut handlers: Vec<&str> = Vec::new();
        handlers.push(name.as_str());
        assert(strs(handlers@) =~= seq![hv.name]);
        Handler::register_handlers(plugin_name, direction, handlers, registry);
    }

    /// Record the plugins that a plugin depends on.
    pub fn register_dependencies(plugin_name: &str, dependencies: Vec<&str>, registry: &mut Registry)
        requires
            old(registry).wf(),
        ensures
            final(registry).wf(),
            final(registry)@ == spec_register_dependencies(old(registry)@, plugin_name@, strs(dependencies@)),
    {
        let names = Names { names: names_of_strs(dependencies.as_slice()) };
        registry.dependencies.insert(plugin_name.to_owned(), names);
    }
}

// ----------------------------------------------------------------------------
//  Messages in a buffer
// ----------------------------------------------------------------------------

/// Errors that happen while processing messages.
#[derive(Copy, Clone, Debug, PartialEq, Eq, Structural)]
pub enum ProcessorError {
    /// The input holds more messages than one buffer may.
    Oversize,
    /// The input ends inside a length field.
    BufferLength,
    /// The input ends after a length field, before the type byte.
    ProtoLength,
    /// The input ends inside a message.
    MessageLength,
    /// Writing to the target socket failed.
    FailedToWrite,
    /// A handler failed.
    FailedToProcess,
    /// A response could not be serialized.
    FailedToSerialize,
    /// A handler decided to drop the connection.
    Abort,
    /// After an error was processed, a handler decided to drop the connection.
    ErrorAbort,
}

/// Errors that happen while listening to sockets.
#[derive(Copy, Clone, Debug, PartialEq, Eq, Structural)]
pub enum ListenError {
    /// The input was longer than a read may be.
    Oversize,
    /// No data came in time.
    Timeout,
    /// The socket reported an error.
    Drop,
}

/// The most messages that one buffer may hold.
pub const MAX_MESSAGES_PER_BUFFER: usize = 1000;

/// The length field of the message at `pos`: it counts the type byte and
/// the body.
pub open spec fn length_at(data: Seq<u8>, pos: int) -> int {
    data[pos] + 256 * data[pos + 1]
}

/// Whether the message at `pos` claims a length of zero though a type byte
/// follows: such a message has no room for its own type byte.
pub open spec fn empty_message_at(data: Seq<u8>, pos: int) -> bool {
    data.len() - pos >= 3 && length_at(data, pos) == 0
}

/// The message at `pos` of a buffer read in `direction`: `None` at the end
/// of the buffer, else where it ends and the type its type byte stands for.
pub open spec fn spec_next_frame(direction: Direction, data: Seq<u8>, pos: int) -> Result<Option<(int, Option<MessageType>)>, ProcessorError> {
    let rest = data.len() - pos;
    if rest == 0 {
        Ok(None)
    } else if rest < 2 {
        Err(ProcessorError::BufferLength)
    } else if rest < 3 {
        Err(ProcessorError::ProtoLength)
    } else if rest < 2 + length_at(data, pos) {
        Err(ProcessorError::MessageLength)
    } else {
        Ok(Some((pos + 2 + length_at(data, pos), spec_message_type(direction, data[pos + 2]))))
    }
}

/// One message in a buffer: `data[start..end]`, header included.
#[derive(Copy, Clone, Debug, PartialEq, Eq, Structural)]
pub struct Frame {
    pub start: usize,
    pub end: usize,
    pub message_type: Option<MessageType>,
}

/// Walks the messages of a buffer in order.
#[derive(Copy, Clone, Debug)]
pub struct FrameScanner {
    pub direction: Direction,
    /// Where the next message starts.
    pub pos: usize,
    /// How many messages were handed out.
    pub count: usize,
}

impl FrameScanner {
    pub fn new(direction: Direction) -> (r: FrameScanner)
        ensures
            r.direction == direction,
            r.pos == 0,
            r.count == 0,
    {
        FrameScanner { direction, pos: 0, count: 0 }
    }

    /// Whether the next message claims a length of zero.
    pub fn at_empty_message(&self, data: &[u8]) -> (r: bool)
        requires
            self.pos <= data@.len(),
        ensures
            r == empty_message_at(data@, self.pos as int),
    {
        data.len() - self.pos >= 3 && data[self.pos] == 0 && data[self.pos + 1] == 0
    }

    /// The next message of `data`, or `None` at its end. More than
    /// [`MAX_MESSAGES_PER_BUFFER`] messages are refused as oversize once
    /// the last one allowed was handed out.
    pub fn next(&mut self, data: &[u8]) -> (r: Result<Option<Frame>, ProcessorError>)
        requires
            old(self).pos <= data@.len(),
            !empty_message_at(data@, old(self).pos as int),
        ensures
            final(self).direction == old(self).direction,
            final(self).pos <= data@.len(),
            old(self).count > MAX_MESSAGES_PER_BUFFER ==> r == Err::<Option<Frame>, ProcessorError>(ProcessorError::Oversize),
            old(self).count <= MAX_MESSAGES_PER_BUFFER ==> match spec_next_frame(old(self).direction, data@, old(self).pos as int) {
                Err(e) => r == Err::<Option<Frame>, ProcessorError>(e),
                Ok(None) => r == Ok::<Option<Frame>, ProcessorError>(None),
                Ok(Some((end, t))) => {
                    &&& r == Ok::<Option<Frame>, ProcessorError>(Some(Frame { start: old(self).pos, end: end as usize, message_type: t }))
                    &&& final(self).pos == end
                    &&& final(self).count == old(self).count + 1
                },
            },
    {
        if self.count > MAX_MESSAGES_PER_BUFFER {
            return Err(ProcessorError::Oversize);
        }
        let rest = data.len() - self.pos;
        if rest == 0 {
            return Ok(None);
        }
        if rest < 2 {
            return Err(ProcessorError::BufferLength);
        }
        if rest < 3 {
            return Err(ProcessorError::ProtoLength);
        }
        let length: usize = data[self.pos] as usize + 256 * (data[self.pos + 1] as usize);
        if rest < 2 + length {
            return Err(ProcessorError::MessageLength);
        }
        let start = self.pos;
        let t = try_get_message_type(self.direction, data[start + 2]);
        self.pos = start + 2 + length;
        self.count = self.count + 1;
        Ok(Some(Frame { start, end: start + 2 + length, message_type: t }))
    }
}

/// A framed message of a type that travels between client and server is
/// found again, whole and with its type, wherever it starts in a buffer.
pub proof fn lemma_wrap_then_frame(t: MessageType, body: Seq<u8>, prefix: Seq<u8>, rest: Seq<u8>)
    requires
        t is CTOS || t is STOC,
        body.len() + 1 <= 0xffff,
    ensures
        spec_next_frame(t.spec_direction(), prefix + spec_wrap(t, body) + rest, prefix.len() as int)
            == Ok::<Option<(int, Option<MessageType>)>, ProcessorError>(Some((prefix.len() as int + 3 + body.len(), Some(t)))),
        (prefix + spec_wrap(t, body) + rest).subrange(prefix.len() as int + 3, prefix.len() as int + 3 + body.len()) == body,
{
    let w = prefix + spec_wrap(t, body) + rest;
    let p = prefix.len() as int;
    let size = body.len() + 1;
    assert(w[p] == (size % 256) as u8);
    assert(w[p + 1] == ((size / 256) % 256) as u8);
    assert(length_at(w, p) == size);
    assert(w[p + 2] == t.spec_code());
    assert(w.subrange(p + 3, p + 3 + body.len()) =~= body);
    match t {
        MessageType::CTOS(c) => { c.lemma_value_roundtrip(0); },
        MessageType::STOC(c) => { c.lemma_value_roundtrip(0); },
        _ => {},
    }
}

/// What goes on for a message after its handlers ran.
#[derive(Clone, Debug)]
pub enum Response {
    /// The message as it came.
    NoChange,
    /// New bytes in its place.
    Value(Vec<u8>),
    /// Nothing.
    Skip,
}

pub open spec fn response_bytes(data: Seq<u8>, frame: Frame, response: Response) -> Seq<u8> {
    match response {
        Response::NoChange => data.subrange(frame.start as int, frame.end as int),
        Response::Value(v) => v@,
        Response::Skip => Seq::empty(),
    }
}

/// The bytes of each response, one after another.
pub open spec fn responses_bytes(data: Seq<u8>, frames: Seq<Frame>, responses: Seq<Response>) -> Seq<u8>
    decreases responses.len(),
{
    if responses.len() == 0 || frames.len() < responses.len() {
        Seq::empty()
    } else {
        responses_bytes(data, frames, responses.drop_last())
            + response_bytes(data, frames[responses.len() - 1], responses.last())
    }
}

pub open spec fn all_unchanged(responses: Seq<Response>) -> bool {
    forall|i: int| 0 <= i < responses.len() ==> #[trigger] responses[i] is NoChange
}

/// Whether `frames` cut `data[0..end]` into consecutive messages.
pub open spec fn tiles(data: Seq<u8>, frames: Seq<Frame>, end: int) -> bool {
    &&& end <= data.len()
    &&& (frames.len() == 0 ==> end == 0)
    &&& (frames.len() > 0 ==> frames[0].start == 0 && frames.last().end == end)
    &&& forall|i: int| 0 <= i < frames.len() ==> #[trigger] frames[i].start <= frames[i].end
    &&& forall|i: int| 0 <= i < frames.len() - 1 ==> #[trigger] frames[i].end == frames[i + 1].start
}

/// What a socket receives for a buffer: the buffer itself where no message
/// changed, else the response to each message in turn.
pub open spec fn spec_output(data: Seq<u8>, frames: Seq<Frame>, responses: Seq<Response>) -> Seq<u8> {
    if all_unchanged(responses) { data } else { responses_bytes(data, frames, responses) }
}

/// Where no message changed, sending the responses one by one sends the
/// buffer as it came: the shortcut of sending the buffer changes nothing.
pub proof fn lemma_unchanged_output(data: Seq<u8>, frames: Seq<Frame>, responses: Seq<Response>)
    requires
        tiles(data, frames, data.len() as int),
        frames.len() == responses.len(),
        all_unchanged(responses),
    ensures
        responses_bytes(data, frames, responses) == data,
{
    lemma_unchanged_prefix(data, frames, responses, responses.len() as int);
    assert(responses.take(responses.len() as int) =~= responses);
    if frames.len() == 0 {
        assert(data =~= Seq::<u8>::empty());
    } else {
        assert(data.subrange(0, data.len() as int) =~= data);
    }
}

proof fn lemma_unchanged_prefix(data: Seq<u8>, frames: Seq<Frame>, responses: Seq<Response>, n: int)
    requires
        tiles(data, frames, data.len() as int),
        frames.len() == responses.len(),
        all_unchanged(responses),
        0 <= n <= responses.len(),
    ensures
        responses_bytes(data, frames, responses.take(n))
            == if n == 0 { Seq::<u8>::empty() } else { data.subrange(0, frames[n - 1].end as int) },
    decreases n,
{
    if n > 0 {
        lemma_unchanged_prefix(data, frames, responses, n - 1);
        let t = responses.take(n);
        assert(t.drop_last() =~= responses.take(n - 1));
        assert(t.last() is NoChange);
        lemma_frames_ordered(data, frames, n - 1);
        if n == 1 {
            assert(data.subrange(0, frames[0].end as int) =~= Seq::<u8>::empty() + data.subrange(frames[0].start as int, frames[0].end as int));
        } else {
            assert(frames[n - 2].end == frames[n - 1].start);
            assert(data.subrange(0, frames[n - 1].end as int) =~= data.subrange(0, frames[n - 2].end as int)
                + data.subrange(frames[n - 1].start as int, frames[n - 1].end as int));
        }
    }
}

proof fn lemma_frames_ordered(data: Seq<u8>, frames: Seq<Frame>, i: int)
    requires
        tiles(data, frames, data.len() as int),
        0 <= i < frames.len(),
    ensures
        frames[i].end <= data.len(),
    decreases frames.len() - i,
{
    if i < frames.len() - 1 {
        lemma_frames_ordered(data, frames, i + 1);
        assert(frames[i].end == frames[i + 1].start);
    }
}

/// How processing one message of a buffer before it goes on ended.
#[derive(Clone, Debug)]
pub enum FrameResult {
    /// The handlers ran; this is what goes on.
    Done(Response),
    /// A handler failed and the handlers of the error blocked it.
    FailedBlocked,
    /// A handler failed and no handler of the error blocked it.
    FailedUnblocked,
}

/// What goes on for one message: what its handlers gave, or the message as
/// it came where their error was blocked.
pub open spec fn frame_response(result: FrameResult) -> Response {
    match result {
        FrameResult::Done(x) => x,
        _ => Response::NoChange,
    }
}

/// What becomes of a buffer, from how each of its messages was processed and
/// from the error that ended reading it, if any: where the error of one
/// message was not blocked, or reading failed, the buffer as a whole fails
/// (nothing of it goes on and no handler runs after it); else each message
/// goes on as its handlers decided.
pub open spec fn spec_buffer_responses(results: Seq<FrameResult>, end: Option<ProcessorError>) -> Result<Seq<Response>, ProcessorError> {
    if exists|i: int| 0 <= i < results.len() && results[i] is FailedUnblocked {
        Err(ProcessorError::ErrorAbort)
    } else {
        match end {
            Some(e) => Err(e),
            None => Ok(results.map_values(|x: FrameResult| frame_response(x))),
        }
    }
}

/// Decide what becomes of a buffer once its messages were processed: all of
/// it goes on, each message as its handlers decided, or none of it.
pub fn buffer_responses(results: Vec<FrameResult>, end: Option<ProcessorError>) -> (r: Result<Vec<Response>, ProcessorError>)
    ensures
        match (r, spec_buffer_responses(results@, end)) {
            (Ok(v), Ok(sv)) => v@ == sv,
            (Err(e), Err(se)) => e == se,
            _ => false,
        },
{
    let ghost all = results@;
    let n = results.len();
    assert(all.len() == n);
    let mut rest = results;
    let mut out: Vec<Response> = Vec::new();
    let mut i: usize = 0;
    while rest.len() > 0
        invariant
            i + rest@.len() == all.len(),
            all == results@,
            all.len() <= usize::MAX,
            rest@ == all.skip(i as int),
            out@ == all.take(i as int).map_values(|x: FrameResult| frame_response(x)),
            forall|j: int| 0 <= j < i ==> !(all[j] is FailedUnblocked),
        decreases rest@.len(),
    {
        let x = rest.remove(0);
        assert(x == all[i as int]);
        match x {
            FrameResult::Done(v) => out.push(v),
            FrameResult::FailedBlocked => out.push(Response::NoChange),
            FrameResult::FailedUnblocked => {
                assert(all[i as int] is FailedUnblocked);
                assert(exists|j: int| 0 <= j < all.len() && all[j] is FailedUnblocked);
                return Err(ProcessorError::ErrorAbort);
            },
        }
        i = i + 1;
        assert(rest@ =~= all.skip(i as int));
        assert(out@ =~= all.take(i as int).map_values(|x: FrameResult| frame_response(x)));
    }
    assert(all.take(i as int) =~= all);
    assert(!(exists|j: int| 0 <= j < all.len() && all[j] is FailedUnblocked));
    assert(out@ == all.map_values(|x: FrameResult| frame_response(x)));
    match end {
        Some(e) => Err(e),
        None => Ok(out),
    }
}

/// What is sent for a buffer after its messages were processed.
pub fn assemble_output(data: &[u8], frames: &[Frame], responses: &[Response]) -> (r: Vec<u8>)
    requires
        frames@.len() == responses@.len(),
        forall|i: int| 0 <= i < frames@.len() ==> #[trigger] frames@[i].start <= frames@[i].end <= data@.len(),
    ensures
        r@ == spec_output(data@, frames@, responses@),
{
    let mut unchanged = true;
    let mut i: usize = 0;
    while i < responses.len()
        invariant
            i <= responses@.len(),
            unchanged == all_unchanged(responses@.take(i as int)),
        decreases responses@.len() - i,
    {
        let this_one = match &responses[i] {
            Response::NoChange => true,
            _ => false,
        };
        proof {
            if !this_one {
                assert(!(responses@.take(i + 1)[i as int] is NoChange));
            }
            if unchanged && this_one {
                assert forall|j: int| 0 <= j < i + 1 implies #[trigger] responses@.take(i + 1)[j] is NoChange by {
                    if j < i {
                        assert(responses@.take(i + 1)[j] == responses@.take(i as int)[j]);
                    }
                }
            }
            if !unchanged {
                let j = choose|j: int| 0 <= j < i && !(#[trigger] responses@.take(i as int)[j] is NoChange);
                assert(responses@.take(i + 1)[j] == responses@.take(i as int)[j]);
            }
        }
        unchanged = unchanged && this_one;
        i = i + 1;
    }
    assert(responses@.take(i as int) =~= responses@);
    let mut out: Vec<u8> = Vec::new();
    if unchanged {
        let mut k: usize = 0;
        while k < data.len()
            invariant
                k <= data@.len(),
                out@ == data@.take(k as int),
            decreases data@.len() - k,
        {
            out.push(data[k]);
            k = k + 1;
            assert(out@ =~= data@.take(k as int));
        }
        assert(data@.take(k as int) =~= data@);
        return out;
    }
    let mut j: usize = 0;
    while j < responses.len()
        invariant
            frames@.len() == responses@.len(),
            forall|i: int| 0 <= i < frames@.len() ==> #[trigger] frames@[i].start <= frames@[i].end <= data@.len(),
            j <= responses@.len(),
            out@ == responses_bytes(data@, frames@, responses@.take(j as int)),
        decreases responses@.len() - j,
    {
        let ghost prev = out@;
        proof {
            assert(responses@.take(j + 1).drop_last() =~= responses@.take(j as int));
        }
        let f = frames[j];
        match &responses[j] {
            Response::NoChange => {
                let mut k: usize = f.start;
                while k < f.end
                    invariant
                        f.start <= k <= f.end,
                        f.end <= data@.len(),
                        out@ == prev + data@.subrange(f.start as int, k as int),
                    decreases f.end - k,
                {
                    out.push(data[k]);
                    k = k + 1;
                    assert(out@ =~= prev + data@.subrange(f.start as int, k as int));
                }
            },
            Response::Value(v) => {
                let mut k: usize = 0;
                while k < v.len()
                    invariant
                        k <= v@.len(),
                        out@ == prev + v@.take(k as int),
                    decreases v@.len() - k,
                {
                    out.push(v[k]);
                    k = k + 1;
                    assert(out@ =~= prev + v@.take(k as int));
                }
                assert(v@.take(k as int) =~= v@);
            },
            Response::Skip => {
                assert(out@ =~= prev + Seq::<u8>::empty());
            },
        }
        j = j + 1;
    }
    assert(responses@.take(j as int) =~= responses@);
    out
}

/// Whether a processed message takes a second round as the game message
/// that it carries: a server-to-client game message whose handlers did not
/// stop early.
pub fn needs_game_message_round(interrupted: bool, message_type: Option<MessageType>) -> (r: bool)
    ensures
        r == (!interrupted && message_type == Some(MessageType::STOC(crate::ygopro::message::stoc::MessageType::GameMessage))),
{
    if interrupted {
        return false;
    }
    match message_type {
        Some(MessageType::STOC(crate::ygopro::message::stoc::MessageType::GameMessage)) => true,
        _ => false,
    }
}

/// The body of a message in a buffer, read by its type; types without a
/// body that is looked into, and unknown types, give `None`.
pub fn deserialize_message(message_type: Option<MessageType>, message_buffer: &[u8]) -> (r: Option<Message>)
    requires
        message_buffer@.len() >= 3,
        message_type matches Some(t) ==> (t is CTOS || t is STOC),
    ensures
        match message_type {
            None => r is None,
            Some(t) => decoded(t, message_buffer@.skip(3), r),
        },
{
    match message_type {
        None => None,
        Some(t) => {
            let mut body: Vec<u8> = Vec::new();
            let mut k: usize = 3;
            while k < message_buffer.len()
                invariant
                    3 <= k <= message_buffer@.len(),
                    body@ == message_buffer@.subrange(3, k as int),
                decreases message_buffer@.len() - k,
            {
                body.push(message_buffer[k]);
                k = k + 1;
                assert(body@ =~= message_buffer@.subrange(3, k as int));
            }
            assert(body@ =~= message_buffer@.skip(3));
            deserialize_struct_by_type(t, body.as_slice())
        },
    }
}

/// What goes on for a message once its handlers ran. A message marked for
/// reserializing goes on as its (possibly changed) body framed under its
/// type, or not at all where no body was read; where its type is unknown
/// the mark is ignored. Otherwise a blocked message goes nowhere and any
/// other goes on as it came.
pub fn decide_response(reserialize: bool, message: Option<&Message>, message_type: Option<MessageType>, block_message: bool) -> (r: Response)
    ensures
        reserialize && message is None ==> r is Skip,
        reserialize && message is Some && message_type is Some ==>
            (r matches Response::Value(v) && v@ == spec_wrap(message_type.unwrap(), message.unwrap().spec_bytes())),
        !(reserialize && (message is None || message_type is Some)) ==>
            (if block_message { r is Skip } else { r is NoChange }),
{
    if reserialize {
        match message {
            None => return Response::Skip,
            Some(m) => match message_type {
                Some(t) => {
                    let body = m.serialize();
                    return Response::Value(wrap_data(t, body.as_slice()));
                },
                None => {},
            },
        }
    }
    if block_message { Response::Skip } else { Response::NoChange }
}

} // verus!
