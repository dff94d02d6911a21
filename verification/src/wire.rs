//! Byte-level conversation with the window manager's control socket:
//! framing of outgoing commands and interpretation of replies.
//!
//! A command is sent as each argument's UTF-8 bytes followed by one NUL
//! byte, with one extra trailing NUL closing the message.  A reply whose
//! first byte is the sentinel `0x07` means the manager rejected the
//! command; for a full reply the bytes after the sentinel are the
//! rejection message.

use vstd::prelude::*;
use crate::text::{lossy_text, trimmed};

verus! {

use vstd::utf8::{encode_utf8, valid_utf8, decode_utf8};

/// The manager's rejection sentinel: the first reply byte on a refused command.
pub const SENTINEL: u8 = 7;

/// Everything that can go wrong in one exchange with the manager.
#[derive(Clone, PartialEq, Debug)]
pub enum Error {
    /// An argument holds a NUL byte, which the framing cannot carry.
    /// Detected before anything is sent.
    Encoding { args: Vec<String> },
    /// Connecting, writing or reading failed at the operating-system level.
    Transport { detail: String },
    /// The manager answered with the sentinel byte.  `message` carries the
    /// rejection text when the reply had one.
    PeerRejected { args: Vec<String>, message: Option<String> },
    /// A reply was not valid text, or not the structure a query expects.
    Decode { raw: String },
    /// A query kept answering with an empty payload until the retry budget
    /// was spent.
    Empty { query: crate::command::QueryKind },
}

/// A copy of an argument vector that the verifier knows is equal to the
/// original, for the error values that carry their command's arguments.
pub fn dup_args(args: &Vec<String>) -> (r: Vec<String>)
    ensures
        r@ == args@,
{
    let mut out: Vec<String> = Vec::new();
    let mut i: usize = 0;
    while i < args.len()
        invariant
            i <= args@.len(),
            out@ == args@.take(i as int),
        decreases args@.len() - i,
    {
        out.push(args[i].clone());
        i += 1;
    }
    proof {
        assert(args@.take(args@.len() as int) =~= args@);
    }
    out
}

/// True when the argument's UTF-8 bytes are free of NUL and so can be framed.
pub open spec fn arg_ok(s: Seq<char>) -> bool {
    !encode_utf8(s).contains(0u8)
}

/// True when every argument of the vector can be framed.
pub open spec fn all_args_ok(args: Seq<Seq<char>>) -> bool {
    forall|i: int| 0 <= i < args.len() ==> arg_ok(#[trigger] args[i])
}

/// The arguments' frames: each argument's UTF-8 bytes followed by one NUL.
pub open spec fn framed(args: Seq<Seq<char>>) -> Seq<u8>
    decreases args.len(),
{
    if args.len() == 0 {
        Seq::empty()
    } else {
        framed(args.drop_last()) + encode_utf8(args.last()) + seq![0u8]
    }
}

/// The whole wire message: the frames plus the closing NUL.
pub open spec fn message(args: Seq<Seq<char>>) -> Seq<u8> {
    framed(args) + seq![0u8]
}

/// The views of an argument vector's entries.
pub open spec fn views_of(args: Seq<String>) -> Seq<Seq<char>> {
    args.map_values(|s: String| s@)
}

/// Frames an argument vector for the wire.  Fails, sending nothing, as
/// soon as any argument holds a NUL byte; otherwise the result is each
/// argument's bytes NUL-terminated, closed by one more NUL.
pub fn encode(args: &Vec<String>) -> (r: Result<Vec<u8>, Error>)
    ensures
        r is Ok <==> all_args_ok(views_of(args@)),
        r is Ok ==> r->Ok_0@ == message(views_of(args@)),
        r is Err ==> (r->Err_0 matches Error::Encoding { args: a } && a@ == args@),
{
    let views = Ghost(views_of(args@));
    let mut out: Vec<u8> = Vec::new();
    let mut i: usize = 0;
    while i < args.len()
        invariant
            views@ == views_of(args@),
            i <= args@.len(),
            all_args_ok(views@.take(i as int)),
            out@ == framed(views@.take(i as int)),
        decreases args@.len() - i,
    {
        let bytes: &[u8] = args[i].as_str().as_bytes();
        assert(bytes@ == encode_utf8(views@[i as int]));
        let mut j: usize = 0;
        while j < bytes.len()
            invariant
                i < args@.len(),
                views@ == views_of(args@),
                bytes@ == encode_utf8(views@[i as int]),
                j <= bytes@.len(),
                forall|k: int| 0 <= k < j ==> bytes@[k] != 0u8,
                out@ == framed(views@.take(i as int)) + bytes@.take(j as int),
            decreases bytes@.len() - j,
        {
            let b = bytes[j];
            if b == 0 {
                assert(encode_utf8(views@[i as int]).contains(0u8));
                assert(!all_args_ok(views_of(args@)));
                return Err(Error::Encoding { args: dup_args(args) });
            }
            out.push(b);
            j += 1;
        }
        out.push(0);
        proof {
            assert(bytes@.take(bytes@.len() as int) =~= bytes@);
            assert(forall|k: int| 0 <= k < bytes@.len() ==> bytes@[k] != 0u8);
            assert(!bytes@.contains(0u8));
            assert(views@.take(i + 1).drop_last() =~= views@.take(i as int));
            assert(views@.take(i + 1).last() == views@[i as int]);
            assert(out@ =~= framed(views@.take(i + 1)));
        }
        i += 1;
    }
    out.push(0);
    proof {
        assert(views@.take(args@.len() as int) =~= views@);
    }
    Ok(out)
}

/// Reads the manager's one-byte acknowledgement of a fire-and-forget
/// command.  A closed stream (`None`) counts as acceptance; only the
/// sentinel byte means rejection.
pub fn interpret_ack(first: Option<u8>, args: &Vec<String>) -> (r: Result<(), Error>)
    ensures
        r is Ok <==> first != Some(SENTINEL),
        r is Err ==> (r->Err_0 matches Error::PeerRejected { args: a, message: m } && a@ == args@
            && m is None),
{
    match first {
        Some(b) if b == SENTINEL => Err(Error::PeerRejected { args: dup_args(args), message: None }),
        _ => Ok(()),
    }
}

/// Reads a full reply.  A reply opened by the sentinel is a rejection
/// whose message is the rest of the bytes read as text, surrounding
/// whitespace stripped; any other reply is the payload, which must be
/// valid UTF-8.
pub fn interpret_response(raw: Vec<u8>, args: &Vec<String>) -> (r: Result<String, Error>)
    ensures
        raw@.len() > 0 && raw@[0] == SENTINEL ==> (r matches Err(Error::PeerRejected {
            args: a,
            message: m,
        }) && a@ == args@ && (m matches Some(t) && t@ == trimmed(lossy_text(raw@.skip(1))))),
        !(raw@.len() > 0 && raw@[0] == SENTINEL) ==> {
            &&& r is Ok <==> valid_utf8(raw@)
            &&& r is Ok ==> r->Ok_0@ == decode_utf8(raw@)
            &&& r is Err ==> (r->Err_0 matches Error::Decode { raw: t } && t@ == lossy_text(raw@))
        },
{
    if raw.len() > 0 && *vstd::slice::slice_index_get(raw.as_slice(), 0) == SENTINEL {
        let rest = vstd::slice::slice_subrange(raw.as_slice(), 1, raw.len());
        assert(rest@ =~= raw@.skip(1));
        let msg = crate::text::trim_text(crate::text::to_lossy_string(rest).as_str());
        Err(Error::PeerRejected { args: dup_args(args), message: Some(msg) })
    } else {
        match crate::text::utf8_to_string(&raw) {
            Some(s) => Ok(s),
            None => Err(Error::Decode { raw: crate::text::to_lossy_string(raw.as_slice()) }),
        }
    }
}

} // verus!
