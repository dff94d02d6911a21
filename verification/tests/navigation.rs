//! The fallback decision machine, driven with scripted outcomes, and the
//! JSON decoding of query replies.

use yctrl::command::{Command, Domain, QueryKind, Target, Verb, WireCmd};
use yctrl::json::{decode_space, decode_windows};
use yctrl::model::{candidates, SpaceInfo, WindowInfo};
use yctrl::navigate::{step, step_enabled, Action, Event, RetryPolicy, Space, State, Window};
use yctrl::wire::Error;

fn rejected(list: &[&str]) -> Error {
    Error::PeerRejected {
        args: list.iter().map(|s| s.to_string()).collect(),
        message: None,
    }
}

fn nav(domain: Domain, verb: Verb, target: Target) -> WireCmd {
    WireCmd::Nav { domain, id: None, verb, target }
}

fn advance(st: State, ev: Event) -> (State, Action) {
    assert!(step_enabled(&st, &ev));
    step(st, ev)
}

#[test]
fn single_window_space_delegates_to_space_focus() {
    // A focus-next in a space whose only window is an invisible helper:
    // the literal attempt fails, the boundary ids agree, the window list
    // filters down to nothing, and the request becomes a space focus.
    let cmd = Command {
        domain: Domain::Window,
        id: None,
        verb: Verb::Focus,
        selector: Target::Next,
    };
    let (st, a) = Window::handle(cmd, RetryPolicy::Unbounded);
    assert_eq!(a, Action::Exec(nav(Domain::Window, Verb::Focus, Target::Next)));

    let (st, a) = advance(st, Event::ExecDone(Err(rejected(&["window", "--focus", "next"]))));
    assert_eq!(a, Action::Request(QueryKind::CurrentSpace));

    let text = "{\"first-window\": 10, \"last-window\": 10}".to_string();
    let (st, a) = advance(st, Event::Got(Ok(text.clone())));
    assert_eq!(a, Action::DecodeSpace(text.clone()));

    let space = decode_space(&text);
    assert_eq!(space, Some(SpaceInfo { first_window: 10, last_window: 10 }));
    let (st, a) = advance(st, Event::Space(space));
    assert_eq!(a, Action::Request(QueryKind::SpaceWindows));

    let wtext = "[{\"id\": 10, \"has-focus\": true, \"is-visible\": false, \
                 \"subrole\": \"AXUnknown.Hammerspoon\"}]"
        .to_string();
    let (st, a) = advance(st, Event::Got(Ok(wtext.clone())));
    assert_eq!(a, Action::DecodeWindows(wtext.clone()));

    let ws = decode_windows(&wtext).unwrap();
    assert!(candidates(&ws).is_empty());
    let (st, a) = advance(st, Event::Windows(Some(ws)));
    assert_eq!(a, Action::Exec(nav(Domain::Space, Verb::Focus, Target::Next)));

    let (_, a) = advance(st, Event::ExecDone(Ok(())));
    assert_eq!(a, Action::Done(Ok(())));
}

#[test]
fn single_window_space_focuses_remaining_candidate() {
    // Same start, but a real candidate survives the filter: the machine
    // names its id literally and returns that attempt's outcome as-is.
    let cmd = Command {
        domain: Domain::Window,
        id: None,
        verb: Verb::Focus,
        selector: Target::Prev,
    };
    let (st, _) = Window::handle(cmd, RetryPolicy::Unbounded);
    let (st, _) = advance(st, Event::ExecDone(Err(rejected(&["window", "--focus", "prev"]))));
    let (st, _) = advance(st, Event::Got(Ok("{\"first-window\": 4, \"last-window\": 4}".into())));
    let (st, _) = advance(
        st,
        Event::Space(Some(SpaceInfo { first_window: 4, last_window: 4 })),
    );
    let ws = vec![
        WindowInfo { id: 4, has_focus: true, is_visible: true, subrole: "AXStandardWindow".into() },
        WindowInfo { id: 6, has_focus: false, is_visible: false, subrole: "AXStandardWindow".into() },
        WindowInfo {
            id: 8,
            has_focus: false,
            is_visible: true,
            subrole: "AXUnknown.Hammerspoon".into(),
        },
        WindowInfo { id: 9, has_focus: false, is_visible: true, subrole: "AXStandardWindow".into() },
        WindowInfo { id: 11, has_focus: false, is_visible: true, subrole: "AXStandardWindow".into() },
    ];
    let (st, _) = advance(st, Event::Got(Ok("placeholder".into())));
    let (st, a) = advance(st, Event::Windows(Some(ws)));
    // 4 has focus, 6 is invisible, 8 is the helper: 9 is first.
    assert_eq!(a, Action::Exec(nav(Domain::Window, Verb::Focus, Target::Id(9))));
    let err = rejected(&["window", "--focus", "9"]);
    let (_, a) = advance(st, Event::ExecDone(Err(err.clone())));
    assert_eq!(a, Action::Done(Err(err)));
}

#[test]
fn space_fallback_rewrites_next_to_first() {
    // Space focus next: the literal attempt fails, the retry goes to the
    // boundary keyword, and the retry's outcome is returned unchanged.
    let cmd = Command {
        domain: Domain::Space,
        id: None,
        verb: Verb::Focus,
        selector: Target::Next,
    };
    let (st, a) = Space::handle(cmd);
    assert_eq!(a, Action::Exec(nav(Domain::Space, Verb::Focus, Target::Next)));
    let (st, a) = advance(st, Event::ExecDone(Err(rejected(&["space", "--focus", "next"]))));
    assert_eq!(a, Action::Exec(nav(Domain::Space, Verb::Focus, Target::First)));
    let err = rejected(&["space", "--focus", "first"]);
    let (_, a) = advance(st, Event::ExecDone(Err(err.clone())));
    assert_eq!(a, Action::Done(Err(err)));
}

#[test]
fn space_fallback_rewrites_prev_to_last() {
    let cmd = Command {
        domain: Domain::Space,
        id: None,
        verb: Verb::Focus,
        selector: Target::Prev,
    };
    let (st, _) = Space::handle(cmd);
    let (st, a) = advance(st, Event::ExecDone(Err(rejected(&["space", "--focus", "prev"]))));
    assert_eq!(a, Action::Exec(nav(Domain::Space, Verb::Focus, Target::Last)));
    let (_, a) = advance(st, Event::ExecDone(Ok(())));
    assert_eq!(a, Action::Done(Ok(())));
}

#[test]
fn space_literal_selector_gets_a_second_literal_try() {
    // A non-directional selector: on failure the same command runs once
    // more before the boundary fallback, which is the keyword `last`.
    let cmd = Command {
        domain: Domain::Space,
        id: None,
        verb: Verb::Focus,
        selector: Target::Lit("3".to_string()),
    };
    let (st, a) = Space::handle(cmd);
    assert_eq!(
        a,
        Action::Exec(nav(Domain::Space, Verb::Focus, Target::Lit("3".to_string())))
    );
    let (st, a) = advance(st, Event::ExecDone(Err(rejected(&["space", "--focus", "3"]))));
    assert_eq!(
        a,
        Action::Exec(nav(Domain::Space, Verb::Focus, Target::Lit("3".to_string())))
    );
    let (st, a) = advance(st, Event::ExecDone(Err(rejected(&["space", "--focus", "3"]))));
    assert_eq!(a, Action::Exec(nav(Domain::Space, Verb::Focus, Target::Last)));
    let (_, a) = advance(st, Event::ExecDone(Ok(())));
    assert_eq!(a, Action::Done(Ok(())));
}

#[test]
fn resize_left_shrinks_then_adds_right_anchor() {
    // Selector `left`: the first attempt anchors at the left edge with
    // the negative step; the retry keeps it and appends the right anchor
    // with the opposite sign, left anchor first.
    let cmd = Command {
        domain: Domain::Window,
        id: None,
        verb: Verb::Resize,
        selector: Target::Lit("left".to_string()),
    };
    let (st, a) = Window::handle(cmd, RetryPolicy::Unbounded);
    assert_eq!(a, Action::Exec(WireCmd::Resize { shrink: true, both: false }));
    let (st, a) = advance(
        st,
        Event::ExecDone(Err(rejected(&["window", "--resize", "left:-150:0"]))),
    );
    assert_eq!(a, Action::Exec(WireCmd::Resize { shrink: true, both: true }));
    let (_, a) = advance(st, Event::ExecDone(Ok(())));
    assert_eq!(a, Action::Done(Ok(())));
}

#[test]
fn resize_other_selector_grows() {
    let cmd = Command {
        domain: Domain::Window,
        id: None,
        verb: Verb::Resize,
        selector: Target::Lit("right".to_string()),
    };
    let (st, a) = Window::inc(cmd);
    assert_eq!(a, Action::Exec(WireCmd::Resize { shrink: false, both: false }));
    let (_, a) = advance(st, Event::ExecDone(Err(rejected(&["window", "--resize"]))));
    assert_eq!(a, Action::Exec(WireCmd::Resize { shrink: false, both: true }));
}

#[test]
fn multi_window_boundary_fallback_for_prev_swap() {
    // Swap prev in a space with distinct boundary ids: the boundary id
    // for prev is the last window, then the keyword `first` is the final
    // resort, whose outcome is returned unchanged.
    let cmd = Command {
        domain: Domain::Window,
        id: None,
        verb: Verb::Swap,
        selector: Target::Prev,
    };
    let (st, a) = Window::handle(cmd, RetryPolicy::Unbounded);
    assert_eq!(a, Action::Exec(nav(Domain::Window, Verb::Swap, Target::Prev)));
    let (st, a) = advance(st, Event::ExecDone(Err(rejected(&["window", "--swap", "prev"]))));
    assert_eq!(a, Action::Request(QueryKind::CurrentSpace));
    let text = "{\"first-window\": 3, \"last-window\": 9}".to_string();
    let (st, a) = advance(st, Event::Got(Ok(text.clone())));
    assert_eq!(a, Action::DecodeSpace(text.clone()));
    let (st, a) = advance(st, Event::Space(decode_space(&text)));
    assert_eq!(a, Action::Exec(nav(Domain::Window, Verb::Swap, Target::Id(9))));
    let (st, a) = advance(st, Event::ExecDone(Err(rejected(&["window", "--swap", "9"]))));
    assert_eq!(a, Action::Exec(nav(Domain::Window, Verb::Swap, Target::First)));
    let err = rejected(&["window", "--swap", "first"]);
    let (_, a) = advance(st, Event::ExecDone(Err(err.clone())));
    assert_eq!(a, Action::Done(Err(err)));
}

#[test]
fn multi_window_focus_with_distinct_boundaries_uses_first_window_for_next() {
    // Focus next with distinct boundary ids never queries the window
    // list; next resolves to the first boundary id.
    let cmd = Command {
        domain: Domain::Window,
        id: None,
        verb: Verb::Focus,
        selector: Target::Next,
    };
    let (st, _) = Window::handle(cmd, RetryPolicy::Unbounded);
    let (st, _) = advance(st, Event::ExecDone(Err(rejected(&["window", "--focus", "next"]))));
    let (st, _) = advance(st, Event::Got(Ok("{\"first-window\": 3, \"last-window\": 9}".into())));
    let (st, a) = advance(
        st,
        Event::Space(Some(SpaceInfo { first_window: 3, last_window: 9 })),
    );
    assert_eq!(a, Action::Exec(nav(Domain::Window, Verb::Focus, Target::Id(3))));
    let (_, a) = advance(st, Event::ExecDone(Ok(())));
    assert_eq!(a, Action::Done(Ok(())));
}

#[test]
fn empty_query_reply_is_retried_and_second_reply_decodes() {
    // One empty payload, then a proper one: the machine re-issues the
    // same query once and the decoded value comes from the second reply.
    let cmd = Command {
        domain: Domain::Window,
        id: None,
        verb: Verb::Focus,
        selector: Target::Next,
    };
    let (st, _) = Window::handle(cmd, RetryPolicy::Unbounded);
    let (st, _) = advance(st, Event::ExecDone(Err(rejected(&["window", "--focus", "next"]))));
    let (st, a) = advance(st, Event::Got(Ok(String::new())));
    assert_eq!(a, Action::Request(QueryKind::CurrentSpace));
    let text = "{\"first-window\": 2, \"last-window\": 5}".to_string();
    let (_, a) = advance(st, Event::Got(Ok(text.clone())));
    assert_eq!(a, Action::DecodeSpace(text.clone()));
    assert_eq!(
        decode_space(&text),
        Some(SpaceInfo { first_window: 2, last_window: 5 })
    );
}

#[test]
fn bounded_retry_budget_runs_out() {
    let cmd = Command {
        domain: Domain::Window,
        id: None,
        verb: Verb::Focus,
        selector: Target::Next,
    };
    let (st, _) = Window::handle(cmd, RetryPolicy::Limit(1));
    let (st, _) = advance(st, Event::ExecDone(Err(rejected(&["window", "--focus", "next"]))));
    let (st, a) = advance(st, Event::Got(Ok(String::new())));
    assert_eq!(a, Action::Request(QueryKind::CurrentSpace));
    let (_, a) = advance(st, Event::Got(Ok(String::new())));
    assert_eq!(
        a,
        Action::Done(Err(Error::Empty { query: QueryKind::CurrentSpace }))
    );
}

#[test]
fn query_transport_failure_is_fatal() {
    let cmd = Command {
        domain: Domain::Window,
        id: None,
        verb: Verb::Focus,
        selector: Target::Next,
    };
    let (st, _) = Window::handle(cmd, RetryPolicy::Unbounded);
    let (st, _) = advance(st, Event::ExecDone(Err(rejected(&["window", "--focus", "next"]))));
    let err = Error::Transport { detail: "connection refused".to_string() };
    let (_, a) = advance(st, Event::Got(Err(err.clone())));
    assert_eq!(a, Action::Done(Err(err)));
}

#[test]
fn undecodable_query_reply_is_fatal_with_raw_text() {
    let cmd = Command {
        domain: Domain::Window,
        id: None,
        verb: Verb::Focus,
        selector: Target::Next,
    };
    let (st, _) = Window::handle(cmd, RetryPolicy::Unbounded);
    let (st, _) = advance(st, Event::ExecDone(Err(rejected(&["window", "--focus", "next"]))));
    let text = "not json".to_string();
    let (st, _) = advance(st, Event::Got(Ok(text.clone())));
    assert_eq!(decode_space(&text), None);
    let (_, a) = advance(st, Event::Space(None));
    assert_eq!(a, Action::Done(Err(Error::Decode { raw: text })));
}

#[test]
fn non_directional_window_command_passes_through() {
    let cmd = Command {
        domain: Domain::Window,
        id: None,
        verb: Verb::Focus,
        selector: Target::Lit("12".to_string()),
    };
    let (st, a) = Window::handle(cmd, RetryPolicy::Unbounded);
    assert_eq!(
        a,
        Action::Exec(nav(Domain::Window, Verb::Focus, Target::Lit("12".to_string())))
    );
    let err = rejected(&["window", "--focus", "12"]);
    let (_, a) = advance(st, Event::ExecDone(Err(err.clone())));
    assert_eq!(a, Action::Done(Err(err)));
}

#[test]
fn master_toggle_warps_first_then_last() {
    let cmd = Command {
        domain: Domain::Window,
        id: None,
        verb: Verb::MakeMaster,
        selector: Target::Lit("master".to_string()),
    };
    let (st, a) = Window::handle(cmd, RetryPolicy::Unbounded);
    assert_eq!(a, Action::Exec(nav(Domain::Window, Verb::Warp, Target::First)));
    let (st, a) = advance(st, Event::ExecDone(Err(rejected(&["window", "--warp", "first"]))));
    assert_eq!(a, Action::Exec(nav(Domain::Window, Verb::Warp, Target::Last)));
    let err = rejected(&["window", "--warp", "last"]);
    let (_, a) = advance(st, Event::ExecDone(Err(err.clone())));
    assert_eq!(a, Action::Done(Err(err)));
}

#[test]
fn space_relative_chain_then_space_focus() {
    // Send-to-space next: the literal attempt, the literal retry, the
    // boundary rewrite; the first success leads to the space focus that
    // keeps both domains consistent.
    let cmd = Command {
        domain: Domain::Window,
        id: None,
        verb: Verb::SpaceRel,
        selector: Target::Next,
    };
    let (st, a) = Window::handle(cmd, RetryPolicy::Unbounded);
    assert_eq!(a, Action::Exec(nav(Domain::Window, Verb::SpaceRel, Target::Next)));
    let (st, a) = advance(st, Event::ExecDone(Err(rejected(&["window", "--space", "next"]))));
    assert_eq!(a, Action::Exec(nav(Domain::Window, Verb::SpaceRel, Target::Next)));
    let (st, a) = advance(st, Event::ExecDone(Err(rejected(&["window", "--space", "next"]))));
    assert_eq!(a, Action::Exec(nav(Domain::Window, Verb::SpaceRel, Target::First)));
    let (st, a) = advance(st, Event::ExecDone(Ok(())));
    assert_eq!(a, Action::Exec(nav(Domain::Space, Verb::Focus, Target::Next)));
    let (_, a) = advance(st, Event::ExecDone(Ok(())));
    assert_eq!(a, Action::Done(Ok(())));
}

#[test]
fn space_relative_prev_rewrites_to_last() {
    let cmd = Command {
        domain: Domain::Window,
        id: None,
        verb: Verb::SpaceRel,
        selector: Target::Prev,
    };
    let (st, _) = Window::space(cmd);
    let (st, _) = advance(st, Event::ExecDone(Err(rejected(&["window", "--space", "prev"]))));
    let (st, a) = advance(st, Event::ExecDone(Err(rejected(&["window", "--space", "prev"]))));
    assert_eq!(a, Action::Exec(nav(Domain::Window, Verb::SpaceRel, Target::Last)));
    let (st, a) = advance(st, Event::ExecDone(Ok(())));
    assert_eq!(a, Action::Exec(nav(Domain::Space, Verb::Focus, Target::Prev)));
    let (_, a) = advance(st, Event::ExecDone(Ok(())));
    assert_eq!(a, Action::Done(Ok(())));
}

#[test]
fn space_relative_exhausted_chain_still_issues_space_focus_and_fails() {
    // Every window-domain attempt fails: the space focus is still issued
    // to keep the domains consistent, but the chain's failure is what the
    // caller gets back.
    let cmd = Command {
        domain: Domain::Window,
        id: None,
        verb: Verb::SpaceRel,
        selector: Target::Next,
    };
    let (st, _) = Window::space(cmd);
    let (st, _) = advance(st, Event::ExecDone(Err(rejected(&["window", "--space", "next"]))));
    let (st, _) = advance(st, Event::ExecDone(Err(rejected(&["window", "--space", "next"]))));
    let chain_err = rejected(&["window", "--space", "first"]);
    let (st, a) = advance(st, Event::ExecDone(Err(chain_err.clone())));
    assert_eq!(a, Action::Exec(nav(Domain::Space, Verb::Focus, Target::Next)));
    let (_, a) = advance(st, Event::ExecDone(Ok(())));
    assert_eq!(a, Action::Done(Err(chain_err)));
}

#[test]
fn decode_space_reads_boundary_ids() {
    assert_eq!(
        decode_space("{\"first-window\": 1, \"last-window\": 2, \"index\": 4}"),
        Some(SpaceInfo { first_window: 1, last_window: 2 })
    );
    assert_eq!(decode_space("{\"first-window\": 1}"), None);
    assert_eq!(decode_space("{\"first-window\": \"x\", \"last-window\": 2}"), None);
    assert_eq!(decode_space("[]"), None);
    assert_eq!(decode_space("{"), None);
}

#[test]
fn decode_windows_reads_each_window() {
    let text = "[{\"id\": 4, \"has-focus\": false, \"is-visible\": true, \
                \"subrole\": \"AXStandardWindow\", \"app\": \"Terminal\"}, \
                {\"id\": 7, \"has-focus\": true, \"is-visible\": false, \
                \"subrole\": \"AXDialog\"}]";
    let ws = decode_windows(text).unwrap();
    assert_eq!(
        ws,
        vec![
            WindowInfo {
                id: 4,
                has_focus: false,
                is_visible: true,
                subrole: "AXStandardWindow".to_string(),
            },
            WindowInfo {
                id: 7,
                has_focus: true,
                is_visible: false,
                subrole: "AXDialog".to_string(),
            },
        ]
    );
    assert_eq!(decode_windows("{}"), None);
    assert_eq!(decode_windows("[{\"id\": 4}]"), None);
    assert_eq!(decode_windows("nonsense"), None);
}

#[test]
fn candidates_keep_query_order() {
    let ws = vec![
        WindowInfo { id: 1, has_focus: false, is_visible: true, subrole: "AXStandardWindow".into() },
        WindowInfo { id: 2, has_focus: true, is_visible: true, subrole: "AXStandardWindow".into() },
        WindowInfo { id: 3, has_focus: false, is_visible: true, subrole: "AXStandardWindow".into() },
    ];
    let c = candidates(&ws);
    assert_eq!(c.len(), 2);
    assert_eq!(c[0].id, 1);
    assert_eq!(c[1].id, 3);
}
