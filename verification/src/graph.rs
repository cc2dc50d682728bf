//! A model of the audio server's module list, and what the controller's
//! sweep and setup achieve on a server that does as it is told.
//!
//! The model knows modules only: each has a number, a type and arguments.
//! A listing prints the numbers of the modules it is about, loading a module
//! appends one under a number that is not in use, unloading removes the
//! module with the given number. What the model says about the shell
//! pipelines is what they are written for; it is not derived from their
//! text.
use vstd::prelude::*;
use crate::pipewire::{
    advance_spec, default_source_query, ids_in, loopback_creation, loopback_listing,
    mix_sink_creation, module_listing, module_unload, module_unloads, virtual_mic_creation,
    CommandView, Names, NextView, OutputView, Session,
};
use crate::text::{occurs_at, occurs_in, trim_of};

verus! {

/// A module that the audio server has loaded.
pub struct Module {
    /// The number under which the server lists the module.
    pub id: Seq<char>,
    /// The type, such as `module-loopback`.
    pub kind: Seq<char>,
    /// The arguments that the module was loaded with.
    pub arguments: Seq<Seq<char>>,
}

/// The part of the audio server that the controller works on.
pub struct Server {
    /// The loaded modules, in the order in which they were loaded.
    pub modules: Seq<Module>,
    /// The name of the default capture device.
    pub default_source: Seq<char>,
}

/// What a module is, apart from its number.
pub struct Shape {
    pub kind: Seq<char>,
    pub arguments: Seq<Seq<char>>,
}

/// Whether the listing of a module mentions `name`: in its type or in one
/// of its arguments.
pub open spec fn mentions(m: Module, name: Seq<char>) -> bool {
    occurs_in(m.kind, name) || exists|k: int|
        0 <= k < m.arguments.len() && occurs_in(#[trigger] m.arguments[k], name)
}

/// Whether the sweep takes a module for one of the controller's own.
pub open spec fn owned(names: Names, m: Module) -> bool {
    mentions(m, names.mic) || mentions(m, names.sink)
}

/// Whether the sweep takes a module for a loopback.
pub open spec fn is_loopback(m: Module) -> bool {
    mentions(m, "module-loopback"@)
}

/// Whether the sweep leaves a module alone.
pub open spec fn is_stranger(names: Names, m: Module) -> bool {
    !owned(names, m) && !is_loopback(m)
}

/// The modules that the sweep leaves alone.
pub open spec fn strangers(names: Names, modules: Seq<Module>) -> Seq<Module> {
    modules.filter(|m: Module| is_stranger(names, m))
}

/// The numbers of a list of modules.
pub open spec fn ids_of(modules: Seq<Module>) -> Seq<Seq<char>> {
    Seq::new(modules.len(), |i: int| modules[i].id)
}

/// The shapes of a list of modules.
pub open spec fn shapes(modules: Seq<Module>) -> Seq<Shape> {
    Seq::new(
        modules.len(),
        |i: int| Shape { kind: modules[i].kind, arguments: modules[i].arguments },
    )
}

/// The shape of the module that a `load-module` command asks for.
pub open spec fn shape_asked(command: CommandView) -> Shape {
    Shape { kind: command.args[1], arguments: command.args.skip(2) }
}

/// Whether no two modules have the same number.
pub open spec fn distinct(modules: Seq<Module>) -> bool {
    forall|i: int, j: int|
        0 <= i < j < modules.len() ==> (#[trigger] modules[i]).id != (#[trigger] modules[j]).id
}

/// Whether `out` lists exactly the modules that `pred` holds of, in order.
pub open spec fn lists(server: Server, pred: spec_fn(Module) -> bool, out: OutputView) -> bool {
    ids_in(out.stdout) == ids_of(server.modules.filter(pred))
}

/// The server without the module that has the number `id`.
pub open spec fn unloaded(server: Server, id: Seq<char>) -> Server {
    Server { modules: server.modules.filter(|m: Module| m.id != id), ..server }
}

/// Whether `after` is `before` with the module that `command` asks for
/// loaded last, under a number that was not in use.
pub open spec fn loaded(before: Server, command: CommandView, after: Server) -> bool {
    &&& after.default_source == before.default_source
    &&& after.modules.len() == before.modules.len() + 1
    &&& after.modules.drop_last() == before.modules
    &&& after.modules.last().kind == command.args[1]
    &&& after.modules.last().arguments == command.args.skip(2)
    &&& forall|k: int|
        0 <= k < before.modules.len() ==> (#[trigger] before.modules[k]).id
            != after.modules.last().id
}

/// The server after a command that is run without a question. Only an
/// unload changes anything.
pub open spec fn fired(server: Server, command: CommandView) -> Server {
    if command.program == "pactl"@ && command.args.len() == 2 && command.args[0]
        == "unload-module"@ {
        unloaded(server, command.args[1])
    } else {
        server
    }
}

/// The server after a list of commands that are run without a question.
pub open spec fn fired_all(server: Server, commands: Seq<CommandView>) -> Server
    decreases commands.len(),
{
    if commands.len() == 0 {
        server
    } else {
        fired_all(fired(server, commands[0]), commands.drop_first())
    }
}

/// Whether a server that does as it is told, in the state `before`, may
/// answer the command that `session` waits for with `out` and be in the
/// state `after`. Only the sessions of the sweep and of the setup are
/// covered.
pub open spec fn answers(
    names: Names,
    session: Session,
    command: CommandView,
    before: Server,
    out: OutputView,
    after: Server,
) -> bool {
    match session {
        Session::SetupListingModules | Session::CleanupListingModules => after == before && lists(
            before,
            |m: Module| owned(names, m),
            out,
        ),
        Session::SetupListingLoopbacks
        | Session::CleanupListingLoopbacks
        | Session::RemovingLoopbacks => after == before && lists(
            before,
            |m: Module| is_loopback(m),
            out,
        ),
        Session::SetupCreatingSink | Session::SetupCreatingMic | Session::SetupLinkingSource => {
            out.success && loaded(before, command, after)
        },
        Session::SetupFindingSource => after == before && trim_of(out.stdout)
            == before.default_source,
        _ => false,
    }
}

/// One exchange of an operation with the server.
pub struct Turn {
    /// What the server answered.
    pub out: OutputView,
    /// The server once it had answered.
    pub answered: Server,
    /// The server once the commands of the following step had run.
    pub after: Server,
}

/// Whether `turns` is a run to a successful end of the operation that is
/// in `session` and has just asked `command`, against a server that does as
/// it is told and is in the state `before`.
pub open spec fn unfolds(
    names: Names,
    session: Session,
    command: CommandView,
    before: Server,
    turns: Seq<Turn>,
) -> bool
    decreases turns.len(),
{
    turns.len() > 0 && {
        let turn = turns[0];
        let step = advance_spec(names, session, Some(turn.out));
        &&& answers(names, session, command, before, turn.out, turn.answered)
        &&& turn.after == fired_all(turn.answered, step.fire)
        &&& match step.next {
            NextView::Ask(then, question) => unfolds(
                names,
                then,
                question,
                turn.after,
                turns.drop_first(),
            ),
            NextView::Done(result) => turns.len() == 1 && result is Ok,
        }
    }
}

/// Two conditions that agree on every element filter alike.
proof fn lemma_filter_alike<A>(s: Seq<A>, p: spec_fn(A) -> bool, q: spec_fn(A) -> bool)
    requires
        forall|k: int| 0 <= k < s.len() ==> p(#[trigger] s[k]) == q(s[k]),
    ensures
        s.filter(p) == s.filter(q),
    decreases s.len(),
{
    reveal(Seq::filter);
    if s.len() > 0 {
        lemma_filter_alike(s.drop_last(), p, q);
    }
}

/// Filtering twice is filtering by both conditions at once.
proof fn lemma_filter_twice<A>(s: Seq<A>, p: spec_fn(A) -> bool, q: spec_fn(A) -> bool)
    ensures
        s.filter(p).filter(q) == s.filter(|x: A| p(x) && q(x)),
    decreases s.len(),
{
    reveal(Seq::filter);
    if s.len() > 0 {
        let t = s.drop_last();
        let x = s.last();
        lemma_filter_twice(t, p, q);
        if p(x) {
            assert(t.filter(p).push(x).drop_last() =~= t.filter(p));
        }
    }
}

/// A filter keeps modules distinct.
proof fn lemma_filter_distinct(s: Seq<Module>, p: spec_fn(Module) -> bool)
    requires
        distinct(s),
    ensures
        distinct(s.filter(p)),
        forall|k: int| 0 <= k < s.filter(p).len() ==> s.contains(#[trigger] s.filter(p)[k]),
    decreases s.len(),
{
    reveal(Seq::filter);
    if s.len() > 0 {
        lemma_filter_distinct(s.drop_last(), p);
    }
}

/// Unloading the modules with the numbers `ids`, one after the other,
/// leaves the modules whose number is not among them.
proof fn lemma_unloads(server: Server, ids: Seq<Seq<char>>)
    ensures
        fired_all(server, module_unloads(ids)).modules == server.modules.filter(
            |m: Module| !ids.contains(m.id),
        ),
        fired_all(server, module_unloads(ids)).default_source == server.default_source,
    decreases ids.len(),
{
    let commands = module_unloads(ids);
    let stay = |m: Module| !ids.contains(m.id);
    if ids.len() == 0 {
        assert(server.modules.filter(stay) == server.modules) by {
            lemma_filter_alike(server.modules, stay, |m: Module| true);
            lemma_filter_all(server.modules);
        }
    } else {
        let first = ids[0];
        let rest = ids.drop_first();
        assert(commands.drop_first() =~= module_unloads(rest));
        let next = unloaded(server, first);
        lemma_unloads(next, rest);
        let p = |m: Module| m.id != first;
        let q = |m: Module| !rest.contains(m.id);
        lemma_filter_twice(server.modules, p, q);
        assert forall|k: int| 0 <= k < server.modules.len() implies (p(
            #[trigger] server.modules[k],
        ) && q(server.modules[k])) == stay(server.modules[k]) by {
            let m = server.modules[k];
            if ids.contains(m.id) {
                let w = choose|w: int| 0 <= w < ids.len() && ids[w] == m.id;
                if w > 0 {
                    assert(rest[w - 1] == m.id);
                }
            }
        }
        lemma_filter_alike(server.modules, |m: Module| p(m) && q(m), stay);
    }
}

/// A filter that lets everything pass changes nothing.
proof fn lemma_filter_all<A>(s: Seq<A>)
    ensures
        s.filter(|x: A| true) == s,
    decreases s.len(),
{
    reveal(Seq::filter);
    if s.len() > 0 {
        lemma_filter_all(s.drop_last());
    }
}

/// Unloading every module that a truthful listing names leaves exactly the
/// modules that the listing was not about.
pub proof fn lemma_sweep(server: Server, pred: spec_fn(Module) -> bool, out: OutputView)
    requires
        distinct(server.modules),
        lists(server, pred, out),
    ensures
        fired_all(server, module_unloads(ids_in(out.stdout))).modules == server.modules.filter(
            |m: Module| !pred(m),
        ),
        fired_all(server, module_unloads(ids_in(out.stdout))).default_source
            == server.default_source,
{
    let ids = ids_in(out.stdout);
    let listed = server.modules.filter(pred);
    lemma_unloads(server, ids);
    assert forall|k: int| 0 <= k < server.modules.len() implies !ids.contains(
        (#[trigger] server.modules[k]).id,
    ) == !pred(server.modules[k]) by {
        let m = server.modules[k];
        if pred(m) {
            server.modules.lemma_filter_contains(pred, k);
            let w = choose|w: int| 0 <= w < listed.len() && listed[w] == m;
            assert(ids[w] == m.id);
        }
        if ids.contains(m.id) {
            let w = choose|w: int| 0 <= w < ids.len() && ids[w] == m.id;
            let other = listed[w];
            server.modules.lemma_filter_contains_rev(pred, other);
        }
    }
    lemma_filter_alike(
        server.modules,
        |m: Module| !ids.contains(m.id),
        |m: Module| !pred(m),
    );
}

/// A text that ends in `name` mentions it.
proof fn lemma_occurs_at_end(head: Seq<char>, name: Seq<char>)
    ensures
        occurs_in(head + name, name),
{
    let whole = head + name;
    assert(whole.subrange(head.len() as int, (head.len() + name.len()) as int) =~= name);
    assert(occurs_at(whole, name, head.len() as int));
}

/// A filter changes nothing where every element passes it.
proof fn lemma_filter_passes<A>(s: Seq<A>, p: spec_fn(A) -> bool)
    requires
        forall|k: int| 0 <= k < s.len() ==> p(#[trigger] s[k]),
    ensures
        s.filter(p) == s,
{
    lemma_filter_alike(s, p, |x: A| true);
    lemma_filter_all(s);
}

/// Loading a module keeps the numbers distinct, and the sweep's view of
/// the strangers changes only if the new module is one.
proof fn lemma_loaded(names: Names, before: Server, command: CommandView, after: Server)
    requires
        distinct(before.modules),
        loaded(before, command, after),
    ensures
        distinct(after.modules),
        after.modules == before.modules.push(after.modules.last()),
        shapes(after.modules) == shapes(before.modules).push(shape_asked(command)),
        !is_stranger(names, after.modules.last()) ==> strangers(names, after.modules) == strangers(
            names,
            before.modules,
        ),
{
    reveal(Seq::filter);
    let last = after.modules.last();
    assert(after.modules =~= before.modules.push(last));
}

/// A sweep that runs to its end leaves exactly the modules that it is not
/// about, untouched and in their order, whatever else the server held. It
/// takes two exchanges.
pub proof fn cleanup_leaves_the_strangers(names: Names, before: Server, turns: Seq<Turn>)
    requires
        distinct(before.modules),
        unfolds(names, Session::CleanupListingModules, module_listing(names), before, turns),
    ensures
        turns.len() == 2,
        turns[1].after.modules == strangers(names, before.modules),
        turns[1].after.default_source == before.default_source,
        distinct(turns[1].after.modules),
{
    let mine = |m: Module| owned(names, m);
    let loops = |m: Module| is_loopback(m);
    let not_mine = |m: Module| !mine(m);
    let not_loops = |m: Module| !loops(m);
    let neither = |x: Module| not_mine(x) && not_loops(x);
    let stranger = |m: Module| is_stranger(names, m);
    let t0 = turns[0];
    let r1 = turns.drop_first();
    lemma_sweep(before, mine, t0.out);
    lemma_filter_distinct(before.modules, not_mine);
    assert(unfolds(
        names,
        Session::CleanupListingLoopbacks,
        loopback_listing(),
        t0.after,
        r1,
    ));
    let t1 = r1[0];
    lemma_sweep(t0.after, loops, t1.out);
    lemma_filter_distinct(t0.after.modules, not_loops);
    lemma_filter_twice(before.modules, not_mine, not_loops);
    lemma_filter_alike(before.modules, neither, stranger);
}

/// The shapes of the three modules that a setup loads when `source` is
/// the default capture device: the mix sink, the virtual microphone and
/// the loopback from `source` into the mix sink.
pub open spec fn setup_shapes(names: Names, source: Seq<char>) -> Seq<Shape> {
    seq![
        shape_asked(mix_sink_creation(names)),
        shape_asked(virtual_mic_creation(names)),
        shape_asked(loopback_creation(source, names.sink)),
    ]
}

/// Whatever the server holds to begin with, a setup that runs to its end
/// leaves one and the same graph behind: the modules that the sweep leaves
/// alone, untouched and in their order, followed by the mix sink, the
/// virtual microphone and the loopback from the default capture device.
/// It takes six exchanges, and all three new modules are such that the
/// next sweep finds them.
pub proof fn setup_reaches_one_graph(names: Names, before: Server, turns: Seq<Turn>)
    requires
        distinct(before.modules),
        unfolds(names, Session::SetupListingModules, module_listing(names), before, turns),
    ensures
        turns.len() == 6,
        distinct(turns[5].after.modules),
        turns[5].after.default_source == before.default_source,
        shapes(turns[5].after.modules) == shapes(strangers(names, before.modules)) + setup_shapes(
            names,
            before.default_source,
        ),
        strangers(names, turns[5].after.modules) == strangers(names, before.modules),
{
    let mine = |m: Module| owned(names, m);
    let loops = |m: Module| is_loopback(m);
    let not_mine = |m: Module| !mine(m);
    let not_loops = |m: Module| !loops(m);
    let neither = |x: Module| not_mine(x) && not_loops(x);
    let stranger = |m: Module| is_stranger(names, m);
    // the sweep of the controller's own modules
    let t0 = turns[0];
    let r1 = turns.drop_first();
    lemma_sweep(before, mine, t0.out);
    lemma_filter_distinct(before.modules, not_mine);
    assert(unfolds(names, Session::SetupListingLoopbacks, loopback_listing(), t0.after, r1));
    // the sweep of the loopbacks
    let t1 = r1[0];
    let r2 = r1.drop_first();
    lemma_sweep(t0.after, loops, t1.out);
    lemma_filter_distinct(t0.after.modules, not_loops);
    lemma_filter_twice(before.modules, not_mine, not_loops);
    lemma_filter_alike(before.modules, neither, stranger);
    let swept = strangers(names, before.modules);
    assert(unfolds(names, Session::SetupCreatingSink, mix_sink_creation(names), t1.after, r2));
    // the mix sink
    let t2 = r2[0];
    let r3 = r2.drop_first();
    lemma_loaded(names, t1.after, mix_sink_creation(names), t2.after);
    assert(unfolds(names, Session::SetupCreatingMic, virtual_mic_creation(names), t2.after, r3));
    // the virtual microphone
    let t3 = r3[0];
    let r4 = r3.drop_first();
    lemma_loaded(names, t2.after, virtual_mic_creation(names), t3.after);
    assert(unfolds(
        names,
        Session::SetupFindingSource,
        default_source_query(),
        t3.after,
        r4,
    ));
    // the default capture device
    let t4 = r4[0];
    let r5 = r4.drop_first();
    let source = before.default_source;
    assert(unfolds(
        names,
        Session::SetupLinkingSource,
        loopback_creation(source, names.sink),
        t4.after,
        r5,
    ));
    // the loopback
    let t5 = r5[0];
    lemma_loaded(names, t4.after, loopback_creation(source, names.sink), t5.after);
    let sink = t2.after.modules.last();
    let mic = t3.after.modules.last();
    let link = t5.after.modules.last();
    // the sweep finds all three again
    assert(owned(names, sink)) by {
        lemma_occurs_at_end("sink_name="@, names.sink);
        assert(sink.arguments[0] == "sink_name="@ + names.sink);
    }
    assert(owned(names, mic)) by {
        lemma_occurs_at_end("source_name="@, names.mic);
        assert(mic.arguments[0] == "source_name="@ + names.mic);
    }
    assert(is_loopback(link)) by {
        lemma_occurs_at_end(Seq::<char>::empty(), "module-loopback"@);
    }
    assert(strangers(names, swept) == swept) by {
        lemma_filter_passes(swept, stranger);
    }
}

/// Setting the virtual microphone up twice in a row leaves the server as
/// setting it up once does: the same modules in the same order, under
/// whatever numbers, and the same default capture device.
pub proof fn setup_twice_is_setup_once(
    names: Names,
    before: Server,
    first: Seq<Turn>,
    second: Seq<Turn>,
)
    requires
        distinct(before.modules),
        unfolds(names, Session::SetupListingModules, module_listing(names), before, first),
        first.len() == 6 ==> unfolds(
            names,
            Session::SetupListingModules,
            module_listing(names),
            first[5].after,
            second,
        ),
    ensures
        first.len() == 6 && second.len() == 6,
        shapes(second[5].after.modules) == shapes(first[5].after.modules),
        second[5].after.default_source == first[5].after.default_source,
{
    setup_reaches_one_graph(names, before, first);
    setup_reaches_one_graph(names, first[5].after, second);
}

} // verus!
