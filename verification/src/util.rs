//! Small value parsers shared by the command parsers.
use crate::text::{bool_text, chars_eq_str, chars_of, lower, lower_chars, trim, trim_chars};
use vstd::prelude::*;

verus! {

/// The switch state a word names, ignoring surrounding whitespace and ASCII case:
/// `on`, `true` and `1` name on; `off`, `false` and `0` name off.
pub open spec fn on_off_spec(s: Seq<char>) -> Option<bool> {
    let w = lower(trim(s));
    if w == "on"@ || w == "true"@ || w == "1"@ {
        Some(true)
    } else if w == "off"@ || w == "false"@ || w == "0"@ {
        Some(false)
    } else {
        None
    }
}

/// The error for a word that names no switch state.
pub open spec fn on_off_error(s: Seq<char>) -> Seq<char> {
    "Expected one of: on/off, true/false, 1/0; got: "@ + s
}

/// Reads a switch state: `on`/`true`/`1` or `off`/`false`/`0`, ignoring surrounding
/// whitespace and ASCII case.
pub fn parse_on_off(s: &str) -> (r: Result<bool, String>)
    ensures
        match r {
            Ok(b) => on_off_spec(s@) == Some(b),
            Err(e) => on_off_spec(s@) is None && e@ == on_off_error(s@),
        },
{
    let w = lower_chars(&trim_chars(&chars_of(s)));
    if chars_eq_str(&w, "on") || chars_eq_str(&w, "true") || chars_eq_str(&w, "1") {
        Ok(true)
    } else if chars_eq_str(&w, "off") || chars_eq_str(&w, "false") || chars_eq_str(&w, "0") {
        Ok(false)
    } else {
        let mut e = String::from_str("Expected one of: on/off, true/false, 1/0; got: ");
        e.append(s);
        Err(e)
    }
}

/// The words a boolean prints as (`true`, `false`) read back as that boolean.
pub proof fn lemma_on_off_reads_bool_text(b: bool)
    ensures
        on_off_spec(bool_text(b)) == Some(b),
{
    let t = bool_text(b);
    assert(!crate::text::is_ws(t[0]));
    assert(crate::text::trim_start(t) == t);
    assert(!crate::text::is_ws(t.last()));
    assert(crate::text::trim_end(t) == t);
    assert(lower(t) =~= t);
    reveal_strlit("true");
    reveal_strlit("false");
    reveal_strlit("on");
    reveal_strlit("1");
    if b {
        assert(t =~= "true"@);
    } else {
        assert(t =~= "false"@);
        assert(t.len() != "on"@.len());
        assert(t.len() != "1"@.len());
        assert(t.len() != "true"@.len());
    }
}

} // verus!
