//! The server's three processors and how they are filled from the registry.
use vstd::prelude::*;

use crate::srvpru::processor::{
    HandlerOccasion, ListenError, ProcessorError, names_of_strs, spec_add_handler, spec_prepare, strs, HandlerView, Names,
    PluginHandlersView, Processor, ProcessorView, Registry,
};
use crate::ygopro::message::Direction;

verus! {

/// The handlers that `names` pick out of the library, added to `p` in order,
/// and the library without them. Names not in the library pick nothing.
pub open spec fn spec_directional(lib: Map<Seq<char>, HandlerView>, p: ProcessorView, names: Seq<Seq<char>>) -> (Map<Seq<char>, HandlerView>, ProcessorView)
    decreases names.len(),
{
    if names.len() == 0 {
        (lib, p)
    } else {
        let (l, q) = spec_directional(lib, p, names.drop_last());
        let n = names.last();
        if l.contains_key(n) {
            (l.remove(n), spec_add_handler(q, l[n]))
        } else {
            (l, q)
        }
    }
}

/// Where registration stands: what is left in the registry and what each
/// processor holds.
pub struct Registration {
    pub library: Map<Seq<char>, HandlerView>,
    pub by_plugin: Map<Seq<char>, PluginHandlersView>,
    pub ctos: ProcessorView,
    pub stoc: ProcessorView,
    pub internal: ProcessorView,
}

/// Registration after a plugin's handlers were taken into the processors of
/// their directions. A plugin that registered nothing changes nothing.
pub open spec fn spec_register_plugin(r: Registration, plugin: Seq<char>) -> Registration {
    if r.by_plugin.contains_key(plugin) {
        let e = r.by_plugin[plugin];
        let (l1, c) = spec_directional(r.library, r.ctos, e.ctos);
        let (l2, s) = spec_directional(l1, r.stoc, e.stoc);
        let (l3, i) = spec_directional(l2, r.internal, e.srvpru);
        Registration { library: l3, by_plugin: r.by_plugin.remove(plugin), ctos: c, stoc: s, internal: i }
    } else {
        r
    }
}

pub open spec fn spec_register_plugins(r: Registration, plugins: Seq<Seq<char>>) -> Registration
    decreases plugins.len(),
{
    if plugins.len() == 0 {
        r
    } else {
        spec_register_plugin(spec_register_plugins(r, plugins.drop_last()), plugins.last())
    }
}

/// The dependencies of `h` that are not among `all`, each with `h`.
pub open spec fn missing_of(h: Seq<char>, deps: Seq<Seq<char>>, all: Seq<Seq<char>>) -> Seq<(Seq<char>, Seq<char>)>
    decreases deps.len(),
{
    if deps.len() == 0 {
        Seq::empty()
    } else {
        let r = missing_of(h, deps.drop_last(), all);
        if all.contains(deps.last()) { r } else { r.push((h, deps.last())) }
    }
}

/// For each of `names` in turn, the dependencies it records that are not
/// among `all`.
pub open spec fn spec_missing_dependencies(names: Seq<Seq<char>>, all: Seq<Seq<char>>, deps: Map<Seq<char>, Seq<Seq<char>>>) -> Seq<(Seq<char>, Seq<char>)>
    decreases names.len(),
{
    if names.len() == 0 {
        Seq::empty()
    } else {
        let r = spec_missing_dependencies(names.drop_last(), all, deps);
        let h = names.last();
        if deps.contains_key(h) { r + missing_of(h, deps[h], all) } else { r }
    }
}

pub open spec fn pairs_view(v: Seq<(String, String)>) -> Seq<(Seq<char>, Seq<char>)> {
    v.map_values(|p: (String, String)| (p.0@, p.1@))
}

/// The processors of the socket server.
#[derive(Debug)]
pub struct Server {
    pub stoc_processor: Processor,
    pub ctos_processor: Processor,
    pub internal_processor: Processor,
}

fn contains_name(all: &Vec<String>, name: &String) -> (r: bool)
    ensures
        r == all@.map_values(|s: String| s@).contains(name@),
{
    let ghost v = all@.map_values(|s: String| s@);
    let mut i: usize = 0;
    while i < all.len()
        invariant
            v == all@.map_values(|s: String| s@),
            i <= all@.len(),
            forall|j: int| 0 <= j < i ==> v[j] != name@,
        decreases all@.len() - i,
    {
        if all[i] == *name {
            assert(v[i as int] == name@);
            return true;
        }
        i = i + 1;
    }
    false
}

impl Server {
    /// A server whose processors hold no handlers.
    pub fn new() -> (r: Server)
        ensures
            r.stoc_processor@.direction == Direction::STOC,
            r.ctos_processor@.direction == Direction::CTOS,
            r.internal_processor@.direction == Direction::SRVPRU,
            r.stoc_processor@.before.len() == 0 && r.stoc_processor@.after.len() == 0,
            r.ctos_processor@.before.len() == 0 && r.ctos_processor@.after.len() == 0,
            r.internal_processor@.before.len() == 0 && r.internal_processor@.after.len() == 0,
    {
        Server {
            stoc_processor: Processor::new(Direction::STOC),
            ctos_processor: Processor::new(Direction::CTOS),
            internal_processor: Processor::new(Direction::SRVPRU),
        }
    }

    /// Move the handlers named in `handler_names` out of the library into
    /// `target_processor`, in order. A name not in the library is skipped.
    pub fn register_directional_handlers(handler_names: &Names, target_processor: &mut Processor, registry: &mut Registry)
        requires
            old(registry).wf(),
        ensures
            final(registry).wf(),
            (final(registry)@.library, final(target_processor)@)
                == spec_directional(old(registry)@.library, old(target_processor)@, handler_names@),
            final(registry)@.by_plugin == old(registry)@.by_plugin,
            final(registry)@.dependencies == old(registry)@.dependencies,
    {
        let mut i: usize = 0;
        while i < handler_names.names.len()
            invariant
                i <= handler_names@.len(),
                registry.wf(),
                (registry@.library, target_processor@)
                    == spec_directional(old(registry)@.library, old(target_processor)@, handler_names@.take(i as int)),
                registry@.by_plugin == old(registry)@.by_plugin,
                registry@.dependencies == old(registry)@.dependencies,
            decreases handler_names@.len() - i,
        {
            proof {
                assert(handler_names@.take(i + 1).drop_last() =~= handler_names@.take(i as int));
            }
            match registry.take_handler(&handler_names.names[i]) {
                Some(h) => target_processor.add_handler(h),
                None => {},
            }
            i = i + 1;
        }
        assert(handler_names@.take(i as int) =~= handler_names@);
    }

    /// Move the handlers of each plugin, in order, into the processors of
    /// their directions. A plugin that registered nothing is skipped.
    pub fn register_plugin_handlers(&mut self, plugin_names: &Names, registry: &mut Registry)
        requires
            old(registry).wf(),
        ensures
            final(registry).wf(),
            ({
                let r = spec_register_plugins(
                    Registration {
                        library: old(registry)@.library,
                        by_plugin: old(registry)@.by_plugin,
                        ctos: old(self).ctos_processor@,
                        stoc: old(self).stoc_processor@,
                        internal: old(self).internal_processor@,
                    },
                    plugin_names@,
                );
                &&& final(registry)@.library == r.library
                &&& final(registry)@.by_plugin == r.by_plugin
                &&& final(self).ctos_processor@ == r.ctos
                &&& final(self).stoc_processor@ == r.stoc
                &&& final(self).internal_processor@ == r.internal
            }),
            final(registry)@.dependencies == old(registry)@.dependencies,
    {
        let ghost r0 = Registration {
            library: old(registry)@.library,
            by_plugin: old(registry)@.by_plugin,
            ctos: old(self).ctos_processor@,
            stoc: old(self).stoc_processor@,
            internal: old(self).internal_processor@,
        };
        let mut i: usize = 0;
        while i < plugin_names.names.len()
            invariant
                i <= plugin_names@.len(),
                registry.wf(),
                ({
                    let r = spec_register_plugins(r0, plugin_names@.take(i as int));
                    &&& registry@.library == r.library
                    &&& registry@.by_plugin == r.by_plugin
                    &&& self.ctos_processor@ == r.ctos
                    &&& self.stoc_processor@ == r.stoc
                    &&& self.internal_processor@ == r.internal
                }),
                registry@.dependencies == old(registry)@.dependencies,
            decreases plugin_names@.len() - i,
        {
            proof {
                assert(plugin_names@.take(i + 1).drop_last() =~= plugin_names@.take(i as int));
            }
            match registry.take_plugin(&plugin_names.names[i]) {
                Some(entry) => {
                    Server::register_directional_handlers(&entry.ctos, &mut self.ctos_processor, registry);
                    Server::register_directional_handlers(&entry.stoc, &mut self.stoc_processor, registry);
                    Server::register_directional_handlers(&entry.srvpru, &mut self.internal_processor, registry);
                },
                None => {},
            }
            i = i + 1;
        }
        assert(plugin_names@.take(i as int) =~= plugin_names@);
    }

    /// The dependencies that the named plugins and handlers record and that
    /// none of them provides, each with the one that records it.
    pub fn check_plugin_dependency(plugins: &[&str], ctos_handlers: &[&str], stoc_handlers: &[&str], internal_handlers: &[&str], registry: &Registry) -> (r: Vec<(String, String)>)
        requires
            registry.wf(),
        ensures
            pairs_view(r@) == spec_missing_dependencies(
                strs(plugins@) + strs(ctos_handlers@) + strs(stoc_handlers@) + strs(internal_handlers@),
                strs(plugins@) + strs(ctos_handlers@) + strs(stoc_handlers@) + strs(internal_handlers@),
                registry@.dependencies,
            ),
    {
        let mut all: Vec<String> = Vec::new();
        let mut a = names_of_strs(plugins);
        all.append(&mut a);
        let mut b = names_of_strs(ctos_handlers);
        all.append(&mut b);
        let mut c = names_of_strs(stoc_handlers);
        all.append(&mut c);
        let mut d = names_of_strs(internal_handlers);
        all.append(&mut d);
        let ghost names = strs(plugins@) + strs(ctos_handlers@) + strs(stoc_handlers@) + strs(internal_handlers@);
        assert(all@.map_values(|s: String| s@) =~= names);
        let mut out: Vec<(String, String)> = Vec::new();
        let mut i: usize = 0;
        while i < all.len()
            invariant
                registry.wf(),
                all@.map_values(|s: String| s@) == names,
                i <= all@.len(),
                pairs_view(out@) == spec_missing_dependencies(names.take(i as int), names, registry@.dependencies),
            decreases all@.len() - i,
        {
            proof {
                assert(names.take(i + 1).drop_last() =~= names.take(i as int));
                assert(names.take(i + 1).last() == all@[i as int]@);
            }
            match registry.dependencies_of(&all[i]) {
                None => {},
                Some(deps) => {
                    let ghost h = all@[i as int]@;
                    let ghost start = pairs_view(out@);
                    let mut k: usize = 0;
                    while k < deps.names.len()
                        invariant
                            all@.map_values(|s: String| s@) == names,
                            i < all@.len(),
                            h == all@[i as int]@,
                            k <= deps@.len(),
                            pairs_view(out@) == start + missing_of(h, deps@.take(k as int), names),
                        decreases deps@.len() - k,
                    {
                        proof {
                            assert(deps@.take(k + 1).drop_last() =~= deps@.take(k as int));
                        }
                        if !contains_name(&all, &deps.names[k]) {
                            let ghost prev = out@;
                            out.push((all[i].clone(), deps.names[k].clone()));
                            assert(pairs_view(out@) =~= pairs_view(prev).push((h, deps@[k as int])));
                        }
                        k = k + 1;
                        assert(pairs_view(out@) =~= start + missing_of(h, deps@.take(k as int), names));
                    }
                    assert(deps@.take(k as int) =~= deps@);
                },
            }
            i = i + 1;
        }
        assert(names.take(i as int) =~= names);
        out
    }

    /// Fill the processors: first the handlers that the configuration names
    /// for each direction, then those of the enabled plugins; then sort each
    /// processor by priority. Returns the dependencies that no enabled plugin
    /// or named handler provides.
    pub fn register_handlers(&mut self, plugins: &[&str], ctos_handlers: &[&str], stoc_handlers: &[&str], internal_handlers: &[&str], registry: &mut Registry) -> (r: Vec<(String, String)>)
        requires
            old(registry).wf(),
        ensures
            final(registry).wf(),
            ({
                let (l1, c) = spec_directional(old(registry)@.library, old(self).ctos_processor@, strs(ctos_handlers@));
                let (l2, s) = spec_directional(l1, old(self).stoc_processor@, strs(stoc_handlers@));
                let (l3, i) = spec_directional(l2, old(self).internal_processor@, strs(internal_handlers@));
                let reg = spec_register_plugins(
                    Registration { library: l3, by_plugin: old(registry)@.by_plugin, ctos: c, stoc: s, internal: i },
                    strs(plugins@),
                );
                &&& final(registry)@.library == reg.library
                &&& final(registry)@.by_plugin == reg.by_plugin
                &&& final(self).ctos_processor@ == spec_prepare(reg.ctos)
                &&& final(self).stoc_processor@ == spec_prepare(reg.stoc)
                &&& final(self).internal_processor@ == spec_prepare(reg.internal)
            }),
            final(registry)@.dependencies == old(registry)@.dependencies,
            pairs_view(r@) == spec_missing_dependencies(
                strs(plugins@) + strs(ctos_handlers@) + strs(stoc_handlers@) + strs(internal_handlers@),
                strs(plugins@) + strs(ctos_handlers@) + strs(stoc_handlers@) + strs(internal_handlers@),
                old(registry)@.dependencies,
            ),
    {
        let ctos = Names { names: names_of_strs(ctos_handlers) };
        let stoc = Names { names: names_of_strs(stoc_handlers) };
        let internal = Names { names: names_of_strs(internal_handlers) };
        let plugin_names = Names { names: names_of_strs(plugins) };
        Server::register_directional_handlers(&ctos, &mut self.ctos_processor, registry);
        Server::register_directional_handlers(&stoc, &mut self.stoc_processor, registry);
        Server::register_directional_handlers(&internal, &mut self.internal_processor, registry);
        let missing = Server::check_plugin_dependency(plugins, ctos_handlers, stoc_handlers, internal_handlers, registry);
        self.register_plugin_handlers(&plugin_names, registry);
        self.ctos_processor.prepare();
        self.stoc_processor.prepare();
        self.internal_processor.prepare();
        missing
    }
}

/// Whether a processor holds a handler at the occasion it runs at.
pub open spec fn holds(p: ProcessorView, h: HandlerView) -> bool {
    match h.occasion {
        HandlerOccasion::Before => p.before.contains(h),
        HandlerOccasion::After => p.after.contains(h),
        HandlerOccasion::Never => true,
    }
}

proof fn lemma_add_keeps(p: ProcessorView, h: HandlerView, x: HandlerView)
    requires
        holds(p, x),
    ensures
        holds(spec_add_handler(p, h), x),
{
    match h.occasion {
        HandlerOccasion::Before => {
            if x.occasion == HandlerOccasion::Before {
                let i = choose|i: int| 0 <= i < p.before.len() && p.before[i] == x;
                assert(p.before.push(h)[i] == x);
            }
        },
        HandlerOccasion::After => {
            if x.occasion == HandlerOccasion::After {
                let i = choose|i: int| 0 <= i < p.after.len() && p.after[i] == x;
                assert(p.after.push(h)[i] == x);
            }
        },
        HandlerOccasion::Never => {},
    }
}

proof fn lemma_add_holds(p: ProcessorView, h: HandlerView)
    ensures
        holds(spec_add_handler(p, h), h),
{
    match h.occasion {
        HandlerOccasion::Before => { assert(p.before.push(h)[p.before.len() as int] == h); },
        HandlerOccasion::After => { assert(p.after.push(h)[p.after.len() as int] == h); },
        HandlerOccasion::Never => {},
    }
}

proof fn lemma_directional_keeps(lib: Map<Seq<char>, HandlerView>, p: ProcessorView, names: Seq<Seq<char>>, x: HandlerView)
    requires
        holds(p, x),
    ensures
        holds(spec_directional(lib, p, names).1, x),
    decreases names.len(),
{
    if names.len() > 0 {
        lemma_directional_keeps(lib, p, names.drop_last(), x);
        let (l, q) = spec_directional(lib, p, names.drop_last());
        if l.contains_key(names.last()) {
            lemma_add_keeps(q, l[names.last()], x);
        }
    }
}

proof fn lemma_directional_library(lib: Map<Seq<char>, HandlerView>, p: ProcessorView, names: Seq<Seq<char>>, n: Seq<char>)
    requires
        lib.contains_key(n),
    ensures
        spec_directional(lib, p, names).0.contains_key(n) ==> spec_directional(lib, p, names).0[n] == lib[n],
        !spec_directional(lib, p, names).0.contains_key(n) ==> holds(spec_directional(lib, p, names).1, lib[n]),
    decreases names.len(),
{
    if names.len() > 0 {
        lemma_directional_library(lib, p, names.drop_last(), n);
        let (l, q) = spec_directional(lib, p, names.drop_last());
        let m = names.last();
        if l.contains_key(m) {
            if l.contains_key(n) && m == n {
                lemma_add_holds(q, l[m]);
            } else if !l.contains_key(n) {
                lemma_add_keeps(q, l[m], lib[n]);
            }
        }
    }
}

/// A handler that the library holds and whose name is among those taken in
/// a direction ends up in that direction's processor, at its occasion.
pub proof fn lemma_directional_takes(lib: Map<Seq<char>, HandlerView>, p: ProcessorView, names: Seq<Seq<char>>, n: Seq<char>)
    requires
        lib.contains_key(n),
        names.contains(n),
    ensures
        holds(spec_directional(lib, p, names).1, lib[n]),
        !spec_directional(lib, p, names).0.contains_key(n),
    decreases names.len(),
{
    let last = names.last();
    let init = names.drop_last();
    lemma_directional_library(lib, p, init, n);
    let (l, q) = spec_directional(lib, p, init);
    if last == n {
        if l.contains_key(n) {
            lemma_add_holds(q, l[n]);
        }
    } else {
        let i = choose|i: int| 0 <= i < names.len() && names[i] == n;
        assert(init[i] == n);
        lemma_directional_takes(lib, p, init, n);
        if l.contains_key(last) {
            lemma_add_keeps(q, l[last], lib[n]);
        }
    }
}

proof fn lemma_prepare_holds(p: ProcessorView, h: HandlerView)
    requires
        holds(p, h),
    ensures
        holds(spec_prepare(p), h),
{
    crate::srvpru::processor::lemma_by_priority_permutation(p.before);
    crate::srvpru::processor::lemma_by_priority_permutation(p.after);
    broadcast use vstd::seq_lib::group_to_multiset_ensures;
    match h.occasion {
        HandlerOccasion::Before => {
            assert(p.before.to_multiset().count(h) > 0);
            assert(crate::srvpru::processor::by_priority(p.before).to_multiset().count(h) > 0);
        },
        HandlerOccasion::After => {
            assert(p.after.to_multiset().count(h) > 0);
            assert(crate::srvpru::processor::by_priority(p.after).to_multiset().count(h) > 0);
        },
        HandlerOccasion::Never => {},
    }
}

/// When the only plugin enabled lists a handler of the library among its
/// client-to-server handlers, and no handler is named on its own, the
/// server's client-to-server processor runs that handler at its occasion.
pub proof fn lemma_plugin_handler_reaches_processor(
    library: Map<Seq<char>, HandlerView>,
    by_plugin: Map<Seq<char>, PluginHandlersView>,
    ctos: ProcessorView,
    stoc: ProcessorView,
    internal: ProcessorView,
    plugin: Seq<char>,
    n: Seq<char>,
)
    requires
        library.contains_key(n),
        by_plugin.contains_key(plugin),
        by_plugin[plugin].ctos.contains(n),
    ensures
        holds(spec_prepare(spec_register_plugins(
            Registration { library, by_plugin, ctos, stoc, internal },
            seq![plugin],
        ).ctos), library[n]),
{
    let r = Registration { library, by_plugin, ctos, stoc, internal };
    assert(seq![plugin].drop_last() =~= Seq::<Seq<char>>::empty());
    assert(seq![plugin].last() == plugin);
    assert(spec_register_plugins(r, Seq::<Seq<char>>::empty()) == r);
    lemma_directional_takes(library, ctos, by_plugin[plugin].ctos, n);
    lemma_prepare_holds(spec_directional(library, ctos, by_plugin[plugin].ctos).1, library[n]);
}

/// The largest read from a client.
pub const READ_BUFFER_SIZE: usize = 10240;

/// How a read from a client ended.
#[derive(Copy, Clone, Debug, PartialEq, Eq, Structural)]
pub enum ReadOutcome {
    /// No data came in time.
    TimedOut,
    /// The socket reported an error.
    Failed,
    /// The client closed the connection.
    Closed,
    /// This many bytes came.
    Data(usize),
}

/// What a client's connection does after a read.
#[derive(Copy, Clone, Debug, PartialEq, Eq, Structural)]
pub enum ConnectionStep {
    /// Read again.
    Wait,
    /// Report this listen error, then end the connection.
    Fail(ListenError),
    /// End the connection.
    End,
    /// Report that the read was too long, then read again.
    Oversize,
    /// Process this many bytes.
    Process(usize),
}

/// What a client's connection does after a read: a player exempt from the
/// timeout waits on; a timeout or a socket error is reported and ends the
/// connection; a closed socket ends it; a read longer than the buffer is
/// reported and skipped; other data is processed.
pub open spec fn spec_after_read(outcome: ReadOutcome, timeout_exempt: bool) -> ConnectionStep {
    match outcome {
        ReadOutcome::TimedOut => if timeout_exempt { ConnectionStep::Wait } else { ConnectionStep::Fail(ListenError::Timeout) },
        ReadOutcome::Failed => ConnectionStep::Fail(ListenError::Drop),
        ReadOutcome::Closed => ConnectionStep::End,
        ReadOutcome::Data(n) => if n > READ_BUFFER_SIZE { ConnectionStep::Oversize } else { ConnectionStep::Process(n) },
    }
}

pub fn after_read(outcome: ReadOutcome, timeout_exempt: bool) -> (r: ConnectionStep)
    ensures
        r == spec_after_read(outcome, timeout_exempt),
{
    match outcome {
        ReadOutcome::TimedOut => if timeout_exempt { ConnectionStep::Wait } else { ConnectionStep::Fail(ListenError::Timeout) },
        ReadOutcome::Failed => ConnectionStep::Fail(ListenError::Drop),
        ReadOutcome::Closed => ConnectionStep::End,
        ReadOutcome::Data(n) => if n > READ_BUFFER_SIZE { ConnectionStep::Oversize } else { ConnectionStep::Process(n) },
    }
}

/// What a client's connection does after processing what it read.
#[derive(Copy, Clone, Debug, PartialEq, Eq, Structural)]
pub enum AfterProcess {
    /// Read again.
    Continue,
    /// Report this error, then read again.
    Report(ProcessorError),
    /// Report this error, expel the player and end the connection.
    ReportAndExpel(ProcessorError),
}

/// What a client's connection does after processing: on success it reads
/// again; an error is reported, and where a handler aborted, the player is
/// expelled and the connection ends.
pub fn after_process(result: Result<(), ProcessorError>) -> (r: AfterProcess)
    ensures
        r == match result {
            Ok(()) => AfterProcess::Continue,
            Err(ProcessorError::Abort) => AfterProcess::ReportAndExpel(ProcessorError::Abort),
            Err(e) => AfterProcess::Report(e),
        },
{
    match result {
        Ok(()) => AfterProcess::Continue,
        Err(ProcessorError::Abort) => AfterProcess::ReportAndExpel(ProcessorError::Abort),
        Err(e) => AfterProcess::Report(e),
    }
}

} // verus!
