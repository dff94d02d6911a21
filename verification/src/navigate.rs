//! The fallback decision logic for window and space navigation, written
//! as an explicit step machine.  The embedding program performs each
//! returned [`Action`] — sending a command, running a query, or decoding a
//! reply — and feeds the outcome back as an [`Event`]; every decision in
//! between is made here, and [`spec_step`] is the complete transition
//! relation the machine is proved to follow.

use vstd::prelude::*;
use crate::command::{Command, Domain, QueryKind, Target, Verb, WireCmd};
use crate::model::{SpaceInfo, WindowInfo, candidate_filter, candidates};
use crate::wire::Error;

verus! {

/// The two ordinal directions a selector can ask for.
#[derive(Clone, Copy, PartialEq, Eq, Structural, Debug)]
pub enum Dir {
    Next,
    Prev,
}

/// The selector a direction renders as.
pub open spec fn dir_target(d: Dir) -> Target {
    match d {
        Dir::Next => Target::Next,
        Dir::Prev => Target::Prev,
    }
}

fn dir_to_target(d: Dir) -> (t: Target)
    ensures
        t == dir_target(d),
{
    match d {
        Dir::Next => Target::Next,
        Dir::Prev => Target::Prev,
    }
}

/// How often a query is re-issued when the manager transiently answers
/// with an empty payload, a known flakiness of the daemon.  `Unbounded`
/// retries forever and is the default the tool runs with.
#[derive(Clone, Copy, PartialEq, Eq, Structural, Debug)]
pub enum RetryPolicy {
    Unbounded,
    Limit(u64),
}

/// What the machine is waiting for.
#[derive(PartialEq, Debug)]
pub enum State {
    /// The outcome of the pending command is the final result.
    Final,
    /// First ordinal attempt of a directional window command.
    WinFirst { verb: Verb, dir: Dir, policy: RetryPolicy },
    /// Space boundary query underway; `left` is the retry budget still
    /// open for it.
    WinSpace { verb: Verb, dir: Dir, policy: RetryPolicy, left: RetryPolicy },
    /// A non-empty space reply is being decoded; `raw` kept for the error.
    WinSpaceDecode { verb: Verb, dir: Dir, policy: RetryPolicy, raw: String },
    /// Window-list query underway.
    WinWindows { verb: Verb, dir: Dir, left: RetryPolicy },
    /// A non-empty window-list reply is being decoded.
    WinWindowsDecode { verb: Verb, dir: Dir, raw: String },
    /// Retry of a directional window command against a boundary id.
    WinBoundary { verb: Verb },
    /// Space-relative chain, attempt one: the command as given.
    RelFirst { cmd: Command },
    /// Space-relative chain, attempt two: the same command again.
    RelSecond { cmd: Command },
    /// Space-relative chain, attempt three: boundary keyword rewrite.
    RelThird { sel: Target },
    /// Space command, directional selector, first attempt.  A `forced`
    /// error from an exhausted space-relative chain overrides the final
    /// outcome.
    SpDir { verb: Verb, dir: Dir, forced: Option<Error> },
    /// Space command, literal selector, first attempt.
    SpLit { cmd: Command, forced: Option<Error> },
    /// Space command, literal selector, second attempt with the same
    /// command.
    SpLit2 { verb: Verb, forced: Option<Error> },
    /// Space fallback to a boundary keyword; its outcome is returned
    /// as-is.
    SpFallback { forced: Option<Error> },
    /// First half of the master toggle: warp to the first position.
    MasterFirst,
    /// Retry of a resize with both anchors present.
    ResizeRetry { shrink: bool },
}

/// The outcome of the action last asked for.
#[derive(PartialEq, Debug)]
pub enum Event {
    /// A fire-and-forget command went out; was it accepted?
    ExecDone(Result<(), Error>),
    /// A query went out; the reply's text, or the failure.
    Got(Result<String, Error>),
    /// The decoded space reply, if it had the expected shape.
    Space(Option<SpaceInfo>),
    /// The decoded window-list reply, if it had the expected shape.
    Windows(Option<Vec<WindowInfo>>),
}

/// What the embedding program must do next.
#[derive(PartialEq, Debug)]
pub enum Action {
    /// Send this command and report whether it was accepted.
    Exec(WireCmd),
    /// Send this query and report the reply.
    Request(QueryKind),
    /// Decode this space reply with [`crate::json::decode_space`].
    DecodeSpace(String),
    /// Decode this window-list reply with [`crate::json::decode_windows`].
    DecodeWindows(String),
    /// The run is over with this result.
    Done(Result<(), Error>),
}

/// The command a request runs as, unchanged.
pub open spec fn nav_of(cmd: Command) -> WireCmd {
    WireCmd::Nav { domain: cmd.domain, id: cmd.id, verb: cmd.verb, target: cmd.selector }
}

/// An error forced by an earlier exhausted chain wins over the result of
/// the consistency command that follows it.
pub open spec fn forced_result(forced: Option<Error>, r: Result<(), Error>) -> Result<(), Error> {
    match forced {
        Option::Some(f) => Result::Err(f),
        Option::None => r,
    }
}

/// True when the selector is the literal word `left`, which shrinks the
/// window instead of growing it.
pub open spec fn spec_is_shrink(t: Target) -> bool {
    t matches Target::Lit(s) && s@ == "left"@
}

/// The boundary keyword a selector falls back to: `first` for `next`,
/// `last` for anything else.
pub open spec fn fallback_pos(t: Target) -> Target {
    if t is Next {
        Target::First
    } else {
        Target::Last
    }
}

/// Entry of the master toggle: warp the focused window to the first
/// position.
pub open spec fn spec_master_entry() -> (State, Action) {
    (
        State::MasterFirst,
        Action::Exec(
            WireCmd::Nav {
                domain: Domain::Window,
                id: Option::None,
                verb: Verb::Warp,
                target: Target::First,
            },
        ),
    )
}

/// Entry of the resize step: one attempt anchored at the left edge.
pub open spec fn spec_inc_entry(cmd: Command) -> (State, Action) {
    (
        State::ResizeRetry { shrink: spec_is_shrink(cmd.selector) },
        Action::Exec(WireCmd::Resize { shrink: spec_is_shrink(cmd.selector), both: false }),
    )
}

/// Entry of the space-relative chain: the command as literally given.
pub open spec fn spec_rel_entry(cmd: Command) -> (State, Action) {
    (State::RelFirst { cmd }, Action::Exec(nav_of(cmd)))
}

/// Entry of a space command: one literal attempt, with the following
/// states depending on whether the selector is directional.
pub open spec fn spec_space_entry(cmd: Command, forced: Option<Error>) -> (State, Action) {
    if cmd.selector is Next {
        (State::SpDir { verb: cmd.verb, dir: Dir::Next, forced }, Action::Exec(nav_of(cmd)))
    } else if cmd.selector is Prev {
        (State::SpDir { verb: cmd.verb, dir: Dir::Prev, forced }, Action::Exec(nav_of(cmd)))
    } else {
        (State::SpLit { cmd, forced }, Action::Exec(nav_of(cmd)))
    }
}

/// The space-domain focus request that closes the space-relative chain,
/// keeping space focus consistent with the window move.
pub open spec fn spec_space_focus(sel: Target, forced: Option<Error>) -> (State, Action) {
    spec_space_entry(
        Command { domain: Domain::Space, id: Option::None, verb: Verb::Focus, selector: sel },
        forced,
    )
}

/// Entry of a window command: special verbs go to their own procedures, a
/// directional selector starts the fallback chain, anything else runs
/// unchanged.
pub open spec fn spec_window_entry(cmd: Command, policy: RetryPolicy) -> (State, Action) {
    match cmd.verb {
        Verb::SpaceRel => spec_rel_entry(cmd),
        Verb::Resize => spec_inc_entry(cmd),
        Verb::MakeMaster => spec_master_entry(),
        _ => {
            if cmd.selector is Next {
                (
                    State::WinFirst { verb: cmd.verb, dir: Dir::Next, policy },
                    Action::Exec(nav_of(cmd)),
                )
            } else if cmd.selector is Prev {
                (
                    State::WinFirst { verb: cmd.verb, dir: Dir::Prev, policy },
                    Action::Exec(nav_of(cmd)),
                )
            } else {
                (State::Final, Action::Exec(nav_of(cmd)))
            }
        },
    }
}

/// One query answer: retry on an empty payload while the budget lasts,
/// else hand the text on to the decoding step.
pub open spec fn spec_query_reply(
    g: Result<String, Error>,
    left: RetryPolicy,
    kind: QueryKind,
    retry: State,
    retry_short: State,
    decode: State,
    decode_action: Action,
) -> (State, Action) {
    match g {
        Result::Err(e) => (State::Final, Action::Done(Result::Err(e))),
        Result::Ok(text) => if text@.len() == 0 {
            match left {
                RetryPolicy::Unbounded => (retry, Action::Request(kind)),
                RetryPolicy::Limit(k) => if k == 0 {
                    (State::Final, Action::Done(Result::Err(Error::Empty { query: kind })))
                } else {
                    (retry_short, Action::Request(kind))
                },
            }
        } else {
            (decode, decode_action)
        },
    }
}

/// The complete transition relation of the machine: what follows each
/// state on each event it can be waiting for.
pub open spec fn spec_step(st: State, ev: Event) -> Option<(State, Action)> {
    match (st, ev) {
        (State::Final, Event::ExecDone(r)) => Option::Some((State::Final, Action::Done(r))),
        (State::WinFirst { verb, dir, policy }, Event::ExecDone(r)) => Option::Some(
            if r is Ok {
                (State::Final, Action::Done(Result::Ok(())))
            } else {
                (
                    State::WinSpace { verb, dir, policy, left: policy },
                    Action::Request(QueryKind::CurrentSpace),
                )
            },
        ),
        (State::WinSpace { verb, dir, policy, left }, Event::Got(g)) => {
            let text = g->Ok_0;
            Option::Some(
                spec_query_reply(
                    g,
                    left,
                    QueryKind::CurrentSpace,
                    State::WinSpace { verb, dir, policy, left },
                    State::WinSpace {
                        verb,
                        dir,
                        policy,
                        left: RetryPolicy::Limit((left->Limit_0 - 1) as u64),
                    },
                    State::WinSpaceDecode { verb, dir, policy, raw: text },
                    Action::DecodeSpace(text),
                ),
            )
        },
        (State::WinSpaceDecode { verb, dir, policy, raw }, Event::Space(o)) => Option::Some(
            match o {
                Option::None => (State::Final, Action::Done(Result::Err(Error::Decode { raw }))),
                Option::Some(sp) => if sp.first_window == sp.last_window && verb == Verb::Focus {
                    (
                        State::WinWindows { verb, dir, left: policy },
                        Action::Request(QueryKind::SpaceWindows),
                    )
                } else {
                    (
                        State::WinBoundary { verb },
                        Action::Exec(
                            WireCmd::Nav {
                                domain: Domain::Window,
                                id: Option::None,
                                verb,
                                target: Target::Id(
                                    if dir is Next {
                                        sp.first_window
                                    } else {
                                        sp.last_window
                                    },
                                ),
                            },
                        ),
                    )
                },
            },
        ),
        (State::WinWindows { verb, dir, left }, Event::Got(g)) => {
            let text = g->Ok_0;
            Option::Some(
                spec_query_reply(
                    g,
                    left,
                    QueryKind::SpaceWindows,
                    State::WinWindows { verb, dir, left },
                    State::WinWindows {
                        verb,
                        dir,
                        left: RetryPolicy::Limit((left->Limit_0 - 1) as u64),
                    },
                    State::WinWindowsDecode { verb, dir, raw: text },
                    Action::DecodeWindows(text),
                ),
            )
        },
        (State::WinWindowsDecode { verb, dir, raw }, Event::Windows(o)) => Option::Some(
            match o {
                Option::None => (State::Final, Action::Done(Result::Err(Error::Decode { raw }))),
                Option::Some(ws) => {
                    let cands = candidate_filter(ws@);
                    if cands.len() == 0 {
                        spec_space_entry(
                            Command {
                                domain: Domain::Space,
                                id: Option::None,
                                verb,
                                selector: dir_target(dir),
                            },
                            Option::None,
                        )
                    } else {
                        (
                            State::Final,
                            Action::Exec(
                                WireCmd::Nav {
                                    domain: Domain::Window,
                                    id: Option::None,
                                    verb,
                                    target: Target::Id(cands[0].id),
                                },
                            ),
                        )
                    }
                },
            },
        ),
        (State::WinBoundary { verb }, Event::ExecDone(r)) => Option::Some(
            if r is Ok {
                (State::Final, Action::Done(Result::Ok(())))
            } else {
                (
                    State::Final,
                    Action::Exec(
                        WireCmd::Nav {
                            domain: Domain::Window,
                            id: Option::None,
                            verb,
                            target: Target::First,
                        },
                    ),
                )
            },
        ),
        (State::RelFirst { cmd }, Event::ExecDone(r)) => Option::Some(
            if r is Ok {
                spec_space_focus(cmd.selector, Option::None)
            } else {
                (State::RelSecond { cmd }, Action::Exec(nav_of(cmd)))
            },
        ),
        (State::RelSecond { cmd }, Event::ExecDone(r)) => Option::Some(
            if r is Ok {
                spec_space_focus(cmd.selector, Option::None)
            } else {
                (
                    State::RelThird { sel: cmd.selector },
                    Action::Exec(
                        WireCmd::Nav {
                            domain: Domain::Window,
                            id: Option::None,
                            verb: Verb::SpaceRel,
                            target: fallback_pos(cmd.selector),
                        },
                    ),
                )
            },
        ),
        (State::RelThird { sel }, Event::ExecDone(r)) => Option::Some(
            match r {
                Result::Ok(_) => spec_space_focus(sel, Option::None),
                Result::Err(e) => spec_space_focus(sel, Option::Some(e)),
            },
        ),
        (State::SpDir { verb, dir, forced }, Event::ExecDone(r)) => Option::Some(
            if r is Ok {
                (State::Final, Action::Done(forced_result(forced, Result::Ok(()))))
            } else {
                (
                    State::SpFallback { forced },
                    Action::Exec(
                        WireCmd::Nav {
                            domain: Domain::Space,
                            id: Option::None,
                            verb,
                            target: fallback_pos(dir_target(dir)),
                        },
                    ),
                )
            },
        ),
        (State::SpLit { cmd, forced }, Event::ExecDone(r)) => Option::Some(
            if r is Ok {
                (State::Final, Action::Done(forced_result(forced, Result::Ok(()))))
            } else {
                (State::SpLit2 { verb: cmd.verb, forced }, Action::Exec(nav_of(cmd)))
            },
        ),
        (State::SpLit2 { verb, forced }, Event::ExecDone(r)) => Option::Some(
            if r is Ok {
                (State::Final, Action::Done(forced_result(forced, Result::Ok(()))))
            } else {
                (
                    State::SpFallback { forced },
                    Action::Exec(
                        WireCmd::Nav {
                            domain: Domain::Space,
                            id: Option::None,
                            verb,
                            target: Target::Last,
                        },
                    ),
                )
            },
        ),
        (State::SpFallback { forced }, Event::ExecDone(r)) => Option::Some(
            (State::Final, Action::Done(forced_result(forced, r))),
        ),
        (State::MasterFirst, Event::ExecDone(r)) => Option::Some(
            if r is Ok {
                (State::Final, Action::Done(Result::Ok(())))
            } else {
                (
                    State::Final,
                    Action::Exec(
                        WireCmd::Nav {
                            domain: Domain::Window,
                            id: Option::None,
                            verb: Verb::Warp,
                            target: Target::Last,
                        },
                    ),
                )
            },
        ),
        (State::ResizeRetry { shrink }, Event::ExecDone(r)) => Option::Some(
            if r is Ok {
                (State::Final, Action::Done(Result::Ok(())))
            } else {
                (State::Final, Action::Exec(WireCmd::Resize { shrink, both: true }))
            },
        ),
        _ => Option::None,
    }
}

fn is_shrink(t: &Target) -> (b: bool)
    ensures
        b == spec_is_shrink(*t),
{
    match t {
        Target::Lit(s) => {
            let word = <String as vstd::string::StringExecFns>::from_str("left");
            *s == word
        },
        _ => false,
    }
}

fn space_entry(cmd: Command, forced: Option<Error>) -> (r: (State, Action))
    ensures
        r == spec_space_entry(cmd, forced),
{
    match &cmd.selector {
        Target::Next => {
            let verb = cmd.verb;
            (State::SpDir { verb, dir: Dir::Next, forced }, Action::Exec(cmd.to_wire()))
        },
        Target::Prev => {
            let verb = cmd.verb;
            (State::SpDir { verb, dir: Dir::Prev, forced }, Action::Exec(cmd.to_wire()))
        },
        _ => {
            let copy = cmd.dup();
            (State::SpLit { cmd: copy, forced }, Action::Exec(cmd.to_wire()))
        },
    }
}

fn space_focus(sel: Target, forced: Option<Error>) -> (r: (State, Action))
    ensures
        r == spec_space_focus(sel, forced),
{
    space_entry(
        Command { domain: Domain::Space, id: None, verb: Verb::Focus, selector: sel },
        forced,
    )
}

fn fallback_pos_of(t: &Target) -> (r: Target)
    ensures
        r == fallback_pos(*t),
{
    match t {
        Target::Next => Target::First,
        _ => Target::Last,
    }
}

/// The window-domain navigator: fallback logic for focus, swap, move,
/// warp, the resize step, the master toggle, and the space-relative move.
pub struct Window;

/// The space-domain navigator: one literal attempt, then the positional
/// fallback.
pub struct Space;

impl Window {
    /// Starts a window-domain request: returns the machine's first state
    /// and the first action to perform.
    pub fn handle(cmd: Command, policy: RetryPolicy) -> (r: (State, Action))
        ensures
            r == spec_window_entry(cmd, policy),
    {
        match cmd.verb {
            Verb::SpaceRel => Self::space(cmd),
            Verb::Resize => Self::inc(cmd),
            Verb::MakeMaster => Self::master(),
            _ => {
                match &cmd.selector {
                    Target::Next => {
                        let verb = cmd.verb;
                        (
                            State::WinFirst { verb, dir: Dir::Next, policy },
                            Action::Exec(cmd.to_wire()),
                        )
                    },
                    Target::Prev => {
                        let verb = cmd.verb;
                        (
                            State::WinFirst { verb, dir: Dir::Prev, policy },
                            Action::Exec(cmd.to_wire()),
                        )
                    },
                    _ => (State::Final, Action::Exec(cmd.to_wire())),
                }
            },
        }
    }

    /// Starts the space-relative chain: the command as given, retried
    /// once, then the boundary rewrite, and finally a space focus toward
    /// the same selector whatever came of the chain.
    pub fn space(cmd: Command) -> (r: (State, Action))
        requires
            cmd.verb == Verb::SpaceRel,
        ensures
            r == spec_rel_entry(cmd),
    {
        let copy = cmd.dup();
        (State::RelFirst { cmd: copy }, Action::Exec(cmd.to_wire()))
    }

    /// Starts the resize step: the selector `left` shrinks the left edge,
    /// anything else grows it; the retry adds the opposite anchor.
    pub fn inc(cmd: Command) -> (r: (State, Action))
        ensures
            r == spec_inc_entry(cmd),
    {
        let shrink = is_shrink(&cmd.selector);
        (State::ResizeRetry { shrink }, Action::Exec(WireCmd::Resize { shrink, both: false }))
    }

    /// Starts the master toggle: warp to the first position, or failing
    /// that to the last.
    pub fn master() -> (r: (State, Action))
        ensures
            r == spec_master_entry(),
    {
        (
            State::MasterFirst,
            Action::Exec(
                WireCmd::Nav {
                    domain: Domain::Window,
                    id: None,
                    verb: Verb::Warp,
                    target: Target::First,
                },
            ),
        )
    }
}

impl Space {
    /// Starts a space-domain request: a literal attempt first, then the
    /// boundary fallback.
    pub fn handle(cmd: Command) -> (r: (State, Action))
        ensures
            r == spec_space_entry(cmd, Option::None),
    {
        space_entry(cmd, None)
    }
}

/// True when the machine's next step is defined for this event, that is,
/// the event answers the action the state is waiting for.
pub fn step_enabled(st: &State, ev: &Event) -> (b: bool)
    ensures
        b == (spec_step(*st, *ev) is Some),
{
    match (st, ev) {
        (State::Final, Event::ExecDone(_)) => true,
        (State::WinFirst { .. }, Event::ExecDone(_)) => true,
        (State::WinSpace { .. }, Event::Got(_)) => true,
        (State::WinSpaceDecode { .. }, Event::Space(_)) => true,
        (State::WinWindows { .. }, Event::Got(_)) => true,
        (State::WinWindowsDecode { .. }, Event::Windows(_)) => true,
        (State::WinBoundary { .. }, Event::ExecDone(_)) => true,
        (State::RelFirst { .. }, Event::ExecDone(_)) => true,
        (State::RelSecond { .. }, Event::ExecDone(_)) => true,
        (State::RelThird { .. }, Event::ExecDone(_)) => true,
        (State::SpDir { .. }, Event::ExecDone(_)) => true,
        (State::SpLit { .. }, Event::ExecDone(_)) => true,
        (State::SpLit2 { .. }, Event::ExecDone(_)) => true,
        (State::SpFallback { .. }, Event::ExecDone(_)) => true,
        (State::MasterFirst, Event::ExecDone(_)) => true,
        (State::ResizeRetry { .. }, Event::ExecDone(_)) => true,
        _ => false,
    }
}

fn forced_done(forced: Option<Error>, res: Result<(), Error>) -> (r: Result<(), Error>)
    ensures
        r == forced_result(forced, res),
{
    match forced {
        Some(f) => Err(f),
        None => res,
    }
}

/// Performs one decision step: the event answers the action the current
/// state was waiting for, and the result is the next state and the next
/// action, exactly as [`spec_step`] relates them.
pub fn step(st: State, ev: Event) -> (r: (State, Action))
    requires
        spec_step(st, ev) is Some,
    ensures
        Option::Some(r) == spec_step(st, ev),
{
    match (st, ev) {
        (State::Final, Event::ExecDone(res)) => (State::Final, Action::Done(res)),
        (State::WinFirst { verb, dir, policy }, Event::ExecDone(res)) => match res {
            Ok(_) => (State::Final, Action::Done(Ok(()))),
            Err(_) => (
                State::WinSpace { verb, dir, policy, left: policy },
                Action::Request(QueryKind::CurrentSpace),
            ),
        },
        (State::WinSpace { verb, dir, policy, left }, Event::Got(g)) => match g {
            Err(e) => (State::Final, Action::Done(Err(e))),
            Ok(text) => {
                if text.as_str().is_empty() {
                    match left {
                        RetryPolicy::Unbounded => (
                            State::WinSpace { verb, dir, policy, left: RetryPolicy::Unbounded },
                            Action::Request(QueryKind::CurrentSpace),
                        ),
                        RetryPolicy::Limit(k) => {
                            if k == 0 {
                                (
                                    State::Final,
                                    Action::Done(
                                        Err(Error::Empty { query: QueryKind::CurrentSpace }),
                                    ),
                                )
                            } else {
                                (
                                    State::WinSpace {
                                        verb,
                                        dir,
                                        policy,
                                        left: RetryPolicy::Limit(k - 1),
                                    },
                                    Action::Request(QueryKind::CurrentSpace),
                                )
                            }
                        },
                    }
                } else {
                    let raw = text.clone();
                    (State::WinSpaceDecode { verb, dir, policy, raw }, Action::DecodeSpace(text))
                }
            },
        },
        (State::WinSpaceDecode { verb, dir, policy, raw }, Event::Space(o)) => match o {
            None => (State::Final, Action::Done(Err(Error::Decode { raw }))),
            Some(sp) => {
                if sp.first_window == sp.last_window && verb == Verb::Focus {
                    (
                        State::WinWindows { verb, dir, left: policy },
                        Action::Request(QueryKind::SpaceWindows),
                    )
                } else {
                    let bound = match dir {
                        Dir::Next => sp.first_window,
                        Dir::Prev => sp.last_window,
                    };
                    (
                        State::WinBoundary { verb },
                        Action::Exec(
                            WireCmd::Nav {
                                domain: Domain::Window,
                                id: None,
                                verb,
                                target: Target::Id(bound),
                            },
                        ),
                    )
                }
            },
        },
        (State::WinWindows { verb, dir, left }, Event::Got(g)) => match g {
            Err(e) => (State::Final, Action::Done(Err(e))),
            Ok(text) => {
                if text.as_str().is_empty() {
                    match left {
                        RetryPolicy::Unbounded => (
                            State::WinWindows { verb, dir, left: RetryPolicy::Unbounded },
                            Action::Request(QueryKind::SpaceWindows),
                        ),
                        RetryPolicy::Limit(k) => {
                            if k == 0 {
                                (
                                    State::Final,
                                    Action::Done(
                                        Err(Error::Empty { query: QueryKind::SpaceWindows }),
                                    ),
                                )
                            } else {
                                (
                                    State::WinWindows {
                                        verb,
                                        dir,
                                        left: RetryPolicy::Limit(k - 1),
                                    },
                                    Action::Request(QueryKind::SpaceWindows),
                                )
                            }
                        },
                    }
                } else {
                    let raw = text.clone();
                    (State::WinWindowsDecode { verb, dir, raw }, Action::DecodeWindows(text))
                }
            },
        },
        (State::WinWindowsDecode { verb, dir, raw }, Event::Windows(o)) => match o {
            None => (State::Final, Action::Done(Err(Error::Decode { raw }))),
            Some(ws) => {
                let cands = candidates(&ws);
                if cands.len() == 0 {
                    space_entry(
                        Command {
                            domain: Domain::Space,
                            id: None,
                            verb,
                            selector: dir_to_target(dir),
                        },
                        None,
                    )
                } else {
                    let first_id = cands[0].id;
                    (
                        State::Final,
                        Action::Exec(
                            WireCmd::Nav {
                                domain: Domain::Window,
                                id: None,
                                verb,
                                target: Target::Id(first_id),
                            },
                        ),
                    )
                }
            },
        },
        (State::WinBoundary { verb }, Event::ExecDone(res)) => match res {
            Ok(_) => (State::Final, Action::Done(Ok(()))),
            Err(_) => (
                State::Final,
                Action::Exec(
                    WireCmd::Nav {
                        domain: Domain::Window,
                        id: None,
                        verb,
                        target: Target::First,
                    },
                ),
            ),
        },
        (State::RelFirst { cmd }, Event::ExecDone(res)) => match res {
            Ok(_) => space_focus(cmd.selector, None),
            Err(_) => {
                let copy = cmd.dup();
                (State::RelSecond { cmd: copy }, Action::Exec(cmd.to_wire()))
            },
        },
        (State::RelSecond { cmd }, Event::ExecDone(res)) => match res {
            Ok(_) => space_focus(cmd.selector, None),
            Err(_) => {
                let pos = fallback_pos_of(&cmd.selector);
                (
                    State::RelThird { sel: cmd.selector },
                    Action::Exec(
                        WireCmd::Nav {
                            domain: Domain::Window,
                            id: None,
                            verb: Verb::SpaceRel,
                            target: pos,
                        },
                    ),
                )
            },
        },
        (State::RelThird { sel }, Event::ExecDone(res)) => match res {
            Ok(_) => space_focus(sel, None),
            Err(e) => space_focus(sel, Some(e)),
        },
        (State::SpDir { verb, dir, forced }, Event::ExecDone(res)) => match res {
            Ok(_) => (State::Final, Action::Done(forced_done(forced, Ok(())))),
            Err(_) => {
                let pos = match dir {
                    Dir::Next => Target::First,
                    Dir::Prev => Target::Last,
                };
                (
                    State::SpFallback { forced },
                    Action::Exec(
                        WireCmd::Nav { domain: Domain::Space, id: None, verb, target: pos },
                    ),
                )
            },
        },
        (State::SpLit { cmd, forced }, Event::ExecDone(res)) => match res {
            Ok(_) => (State::Final, Action::Done(forced_done(forced, Ok(())))),
            Err(_) => {
                let verb = cmd.verb;
                (State::SpLit2 { verb, forced }, Action::Exec(cmd.to_wire()))
            },
        },
        (State::SpLit2 { verb, forced }, Event::ExecDone(res)) => match res {
            Ok(_) => (State::Final, Action::Done(forced_done(forced, Ok(())))),
            Err(_) => (
                State::SpFallback { forced },
                Action::Exec(
                    WireCmd::Nav {
                        domain: Domain::Space,
                        id: None,
                        verb,
                        target: Target::Last,
                    },
                ),
            ),
        },
        (State::SpFallback { forced }, Event::ExecDone(res)) => (
            State::Final,
            Action::Done(forced_done(forced, res)),
        ),
        (State::MasterFirst, Event::ExecDone(res)) => match res {
            Ok(_) => (State::Final, Action::Done(Ok(()))),
            Err(_) => (
                State::Final,
                Action::Exec(
                    WireCmd::Nav {
                        domain: Domain::Window,
                        id: None,
                        verb: Verb::Warp,
                        target: Target::Last,
                    },
                ),
            ),
        },
        (State::ResizeRetry { shrink }, Event::ExecDone(res)) => match res {
            Ok(_) => (State::Final, Action::Done(Ok(()))),
            Err(_) => (State::Final, Action::Exec(WireCmd::Resize { shrink, both: true })),
        },
        _ => {
            proof {
                assert(false);
            }
            (State::Final, Action::Done(Ok(())))
        },
    }
}

} // verus!
