//! The parsed shape of a request and the literal commands sent over the
//! wire.  A request is parsed once, outside this library, into a
//! [`Command`]; the navigation logic never edits argument strings, it
//! builds a fresh [`WireCmd`] for every attempt and [`render`] turns it
//! into the argument vector the socket framing takes.

use vstd::prelude::*;
use crate::text::{dec_chars, fmt_u64};

verus! {

use vstd::string::StringExecFns;

/// The top-level category of a command this library handles.
#[derive(Clone, Copy, PartialEq, Eq, Structural, Debug)]
pub enum Domain {
    Window,
    Space,
}

/// The verbs this tool knows.  Any other verb bypasses the library and is
/// forwarded verbatim, see [`should_just_redirect`].
#[derive(Clone, Copy, PartialEq, Eq, Structural, Debug)]
pub enum Verb {
    Focus,
    Swap,
    Move,
    Warp,
    /// `--space` under the window domain: send the window to a space.
    SpaceRel,
    /// `--inc`: grow or shrink the focused window by a fixed step.
    Resize,
    /// `--make` with a target other than `master`.
    Make,
    /// `--make master`.
    MakeMaster,
}

/// The trailing argument of a command: a direction, a boundary keyword, a
/// window id, or a literal the user wrote.
#[derive(Clone, PartialEq, Debug)]
pub enum Target {
    Next,
    Prev,
    First,
    Last,
    Id(u64),
    Lit(String),
}

impl Target {
    /// A copy that the verifier knows is equal to the original.
    pub fn dup(&self) -> (r: Target)
        ensures
            r == *self,
    {
        match self {
            Target::Next => Target::Next,
            Target::Prev => Target::Prev,
            Target::First => Target::First,
            Target::Last => Target::Last,
            Target::Id(n) => Target::Id(*n),
            Target::Lit(s) => Target::Lit(s.clone()),
        }
    }

}

/// The two state queries the navigation logic issues.
#[derive(Clone, Copy, PartialEq, Eq, Structural, Debug)]
pub enum QueryKind {
    /// Boundary window ids of the space that has focus.
    CurrentSpace,
    /// Every window of the space that has focus.
    SpaceWindows,
}

/// One literal protocol command, ready to be rendered and framed.
#[derive(Clone, PartialEq, Debug)]
pub enum WireCmd {
    /// `<domain> [id] <verb> <target>`.
    Nav { domain: Domain, id: Option<u64>, verb: Verb, target: Target },
    /// `window --resize` with a left anchor, and on the retry a right
    /// anchor of the opposite sign after it.
    Resize { shrink: bool, both: bool },
    /// `query --spaces|--windows --space`.
    Query { kind: QueryKind },
}

/// A request as parsed once at the boundary: domain, optional window id,
/// verb, and the trailing selector.
#[derive(Clone, PartialEq, Debug)]
pub struct Command {
    pub domain: Domain,
    pub id: Option<u64>,
    pub verb: Verb,
    pub selector: Target,
}

impl Command {
    /// A copy that the verifier knows is equal to the original.
    pub fn dup(&self) -> (r: Command)
        ensures
            r == *self,
    {
        Command { domain: self.domain, id: self.id, verb: self.verb, selector: self.selector.dup() }
    }

    /// The literal wire command that runs this request unchanged.
    pub fn to_wire(self) -> (r: WireCmd)
        ensures
            r == (WireCmd::Nav {
                domain: self.domain,
                id: self.id,
                verb: self.verb,
                target: self.selector,
            }),
    {
        WireCmd::Nav { domain: self.domain, id: self.id, verb: self.verb, target: self.selector }
    }
}

/// The wire spelling of a domain.
pub open spec fn domain_chars(d: Domain) -> Seq<char> {
    match d {
        Domain::Window => "window"@,
        Domain::Space => "space"@,
    }
}

/// The wire spelling of a verb.
pub open spec fn verb_chars(v: Verb) -> Seq<char> {
    match v {
        Verb::Focus => "--focus"@,
        Verb::Swap => "--swap"@,
        Verb::Move => "--move"@,
        Verb::Warp => "--warp"@,
        Verb::SpaceRel => "--space"@,
        Verb::Resize => "--resize"@,
        Verb::Make => "--make"@,
        Verb::MakeMaster => "--make"@,
    }
}

/// The wire spelling of a target.
pub open spec fn target_chars(t: Target) -> Seq<char> {
    match t {
        Target::Next => "next"@,
        Target::Prev => "prev"@,
        Target::First => "first"@,
        Target::Last => "last"@,
        Target::Id(n) => dec_chars(n as int),
        Target::Lit(s) => s@,
    }
}

/// The resize step on the left edge: the selector `left` shrinks it, any
/// other grows it.
pub open spec fn left_anchor_chars(shrink: bool) -> Seq<char> {
    if shrink {
        "left:-150:0"@
    } else {
        "left:+150:0"@
    }
}

/// The opposite edge with the opposite sign, added on the resize retry.
pub open spec fn right_anchor_chars(shrink: bool) -> Seq<char> {
    if shrink {
        "right:+150:0"@
    } else {
        "right:-150:0"@
    }
}

/// The argument vector a wire command stands for.
pub open spec fn wire_args(c: WireCmd) -> Seq<Seq<char>> {
    match c {
        WireCmd::Nav { domain, id, verb, target } => match id {
            Option::None => seq![domain_chars(domain), verb_chars(verb), target_chars(target)],
            Option::Some(n) => seq![
                domain_chars(domain),
                dec_chars(n as int),
                verb_chars(verb),
                target_chars(target),
            ],
        },
        WireCmd::Resize { shrink, both } => if both {
            seq!["window"@, "--resize"@, left_anchor_chars(shrink), right_anchor_chars(shrink)]
        } else {
            seq!["window"@, "--resize"@, left_anchor_chars(shrink)]
        },
        WireCmd::Query { kind } => match kind {
            QueryKind::CurrentSpace => seq!["query"@, "--spaces"@, "--space"@],
            QueryKind::SpaceWindows => seq!["query"@, "--windows"@, "--space"@],
        },
    }
}

fn domain_str(d: Domain) -> (r: &'static str)
    ensures
        r@ == domain_chars(d),
{
    match d {
        Domain::Window => "window",
        Domain::Space => "space",
    }
}

fn verb_str(v: Verb) -> (r: &'static str)
    ensures
        r@ == verb_chars(v),
{
    match v {
        Verb::Focus => "--focus",
        Verb::Swap => "--swap",
        Verb::Move => "--move",
        Verb::Warp => "--warp",
        Verb::SpaceRel => "--space",
        Verb::Resize => "--resize",
        Verb::Make => "--make",
        Verb::MakeMaster => "--make",
    }
}

fn target_string(t: Target) -> (r: String)
    ensures
        r@ == target_chars(t),
{
    match t {
        Target::Next => String::from_str("next"),
        Target::Prev => String::from_str("prev"),
        Target::First => String::from_str("first"),
        Target::Last => String::from_str("last"),
        Target::Id(n) => fmt_u64(n),
        Target::Lit(s) => s,
    }
}

/// Turns a wire command into the argument vector that is framed and sent.
pub fn render(c: WireCmd) -> (r: Vec<String>)
    ensures
        r@.map_values(|s: String| s@) == wire_args(c),
{
    let ghost model = wire_args(c);
    let mut out: Vec<String> = Vec::new();
    match c {
        WireCmd::Nav { domain, id, verb, target } => {
            out.push(String::from_str(domain_str(domain)));
            if let Some(n) = id {
                out.push(fmt_u64(n));
            }
            out.push(String::from_str(verb_str(verb)));
            out.push(target_string(target));
        },
        WireCmd::Resize { shrink, both } => {
            out.push(String::from_str("window"));
            out.push(String::from_str("--resize"));
            out.push(String::from_str(if shrink { "left:-150:0" } else { "left:+150:0" }));
            if both {
                out.push(String::from_str(if shrink { "right:+150:0" } else { "right:-150:0" }));
            }
        },
        WireCmd::Query { kind } => {
            out.push(String::from_str("query"));
            match kind {
                QueryKind::CurrentSpace => out.push(String::from_str("--spaces")),
                QueryKind::SpaceWindows => out.push(String::from_str("--windows")),
            }
            out.push(String::from_str("--space"));
        },
    }
    proof {
        assert(out@.map_values(|s: String| s@) =~= model);
    }
    out
}

/// Decides whether a verb is outside this tool's vocabulary, in which case
/// the whole request is forwarded to the manager verbatim and nothing here
/// runs.
pub fn should_just_redirect(cmd: &str) -> (r: bool)
    ensures
        r == !(cmd@ == "focus"@ || cmd@ == "swap"@ || cmd@ == "move"@ || cmd@ == "warp"@
            || cmd@ == "space"@ || cmd@ == "inc"@ || cmd@ == "make"@),
{
    let c = cmd.to_owned();
    !(c == String::from_str("focus") || c == String::from_str("swap") || c == String::from_str(
        "move",
    ) || c == String::from_str("warp") || c == String::from_str("space") || c == String::from_str(
        "inc",
    ) || c == String::from_str("make"))
}

} // verus!
