//! Decoding of the manager's JSON query replies into [`SpaceInfo`] and
//! [`WindowInfo`].  Parsing is serde_json's and stays behind one trusted
//! wrapper per reply shape; what a given reply text yields is a function
//! of that text alone, so each wrapper's result carries a name the
//! decoders' contracts are exact over.

use vstd::prelude::*;
use crate::model::{SpaceInfo, WindowInfo};

verus! {

/// What parsing a space reply yields: the `first-window` and
/// `last-window` fields of the object, or nothing when the text is not a
/// JSON object carrying both as unsigned numbers.  A function of the text
/// alone.
pub uninterp spec fn space_fields_of(text: Seq<char>) -> Option<(u64, u64)>;

/// Relies on `serde_json::from_str`, `Value::get` and `Value::as_u64`:
/// parses the text and picks the two boundary ids.  The result depends on
/// the text alone.
#[verifier::external_body]
fn space_fields(text: &str) -> (r: Option<(u64, u64)>)
    ensures
        r == space_fields_of(text@),
{
    let v: serde_json::Value = serde_json::from_str(text).ok()?;
    let first = v.get("first-window")?.as_u64()?;
    let last = v.get("last-window")?.as_u64()?;
    Some((first, last))
}

/// What parsing a window-list reply yields: for each element of the
/// array, in order, its `id`, `has-focus`, `is-visible` and `subrole`
/// fields; or nothing when the text is not an array of objects all
/// carrying the four.  A function of the text alone.
pub uninterp spec fn window_fields_of(text: Seq<char>) -> Option<Seq<(u64, bool, bool, Seq<char>)>>;

/// Relies on `serde_json::from_str`, `Value::as_array`, `Value::get`,
/// `Value::as_u64`, `Value::as_bool` and `Value::as_str`: parses the text
/// and picks each window's four fields, keeping the array's order.  The
/// result depends on the text alone.
#[verifier::external_body]
fn window_fields(text: &str) -> (r: Option<Vec<(u64, bool, bool, String)>>)
    ensures
        (r is Some) == (window_fields_of(text@) is Some),
        r matches Some(v) ==> {
            let fields = window_fields_of(text@)->Some_0;
            &&& v@.len() == fields.len()
            &&& forall|i: int|
                0 <= i < v@.len() ==> (#[trigger] v@[i]).0 == fields[i].0 && v@[i].1 == fields[i].1
                    && v@[i].2 == fields[i].2 && v@[i].3@ == fields[i].3
        },
{
    let v: serde_json::Value = serde_json::from_str(text).ok()?;
    let arr = v.as_array()?;
    let mut out: Vec<(u64, bool, bool, String)> = Vec::new();
    for w in arr {
        let id = w.get("id")?.as_u64()?;
        let has_focus = w.get("has-focus")?.as_bool()?;
        let is_visible = w.get("is-visible")?.as_bool()?;
        let subrole = w.get("subrole")?.as_str()?.to_string();
        out.push((id, has_focus, is_visible, subrole));
    }
    Some(out)
}

/// Reads a space query reply: the decoded boundary ids exactly when the
/// reply parses to them, nothing otherwise.
pub fn decode_space(text: &str) -> (r: Option<SpaceInfo>)
    ensures
        r is Some <==> space_fields_of(text@) is Some,
        r matches Some(sp) ==> space_fields_of(text@) == Some((sp.first_window, sp.last_window)),
{
    match space_fields(text) {
        Some((first, last)) => Some(SpaceInfo { first_window: first, last_window: last }),
        None => None,
    }
}

/// Reads a window-list query reply: one [`WindowInfo`] per array element,
/// in the order the manager reported, exactly when the reply parses to
/// the windows' fields; nothing otherwise.
pub fn decode_windows(text: &str) -> (r: Option<Vec<WindowInfo>>)
    ensures
        r is Some <==> window_fields_of(text@) is Some,
        r matches Some(ws) ==> {
            let fields = window_fields_of(text@)->Some_0;
            &&& ws@.len() == fields.len()
            &&& forall|i: int|
                0 <= i < ws@.len() ==> (#[trigger] ws@[i]).id == fields[i].0 && ws@[i].has_focus
                    == fields[i].1 && ws@[i].is_visible == fields[i].2 && ws@[i].subrole@
                    == fields[i].3
        },
{
    let fields = match window_fields(text) {
        Some(v) => v,
        None => return None,
    };
    let ghost model = window_fields_of(text@)->Some_0;
    let mut out: Vec<WindowInfo> = Vec::new();
    let mut i: usize = 0;
    while i < fields.len()
        invariant
            i <= fields@.len(),
            fields@.len() == model.len(),
            forall|k: int|
                0 <= k < fields@.len() ==> (#[trigger] fields@[k]).0 == model[k].0 && fields@[k].1
                    == model[k].1 && fields@[k].2 == model[k].2 && fields@[k].3@ == model[k].3,
            out@.len() == i,
            forall|k: int|
                0 <= k < i ==> (#[trigger] out@[k]).id == model[k].0 && out@[k].has_focus
                    == model[k].1 && out@[k].is_visible == model[k].2 && out@[k].subrole@
                    == model[k].3,
        decreases fields@.len() - i,
    {
        let entry = &fields[i];
        out.push(
            WindowInfo {
                id: entry.0,
                has_focus: entry.1,
                is_visible: entry.2,
                subrole: entry.3.clone(),
            },
        );
        i += 1;
    }
    Some(out)
}

} // verus!
