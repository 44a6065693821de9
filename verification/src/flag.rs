//! Boolean settings written as words.
//!
//! `1`, `true`, `yes` and `on` mean true; `0`, `false`, `no` and `off` mean
//! false; the case of the letters does not matter. Any other text is no flag.

use vstd::prelude::*;
use crate::text::{chars_of, eq_ignoring_case, same_ignoring_case};

verus! {

/// `s` is one of the words for true.
pub open spec fn is_truthy(s: Seq<char>) -> bool {
    ||| same_ignoring_case(s, "1"@)
    ||| same_ignoring_case(s, "true"@)
    ||| same_ignoring_case(s, "yes"@)
    ||| same_ignoring_case(s, "on"@)
}

/// `s` is one of the words for false.
pub open spec fn is_falsy(s: Seq<char>) -> bool {
    ||| same_ignoring_case(s, "0"@)
    ||| same_ignoring_case(s, "false"@)
    ||| same_ignoring_case(s, "no"@)
    ||| same_ignoring_case(s, "off"@)
}

/// The flag that `s` spells, if it spells one.
pub open spec fn flag_value(s: Seq<char>) -> Option<bool> {
    if is_truthy(s) {
        Some(true)
    } else if is_falsy(s) {
        Some(false)
    } else {
        None
    }
}

/// Whether `cs` is `word` up to the case of ASCII letters.
fn spells(cs: &Vec<char>, word: &str) -> (out: bool)
    ensures
        out == same_ignoring_case(cs@, word@),
{
    let w = chars_of(word);
    eq_ignoring_case(cs, &w)
}

/// Reads a flag word.
pub fn parse_flag(s: &str) -> (out: Option<bool>)
    ensures
        out == flag_value(s@),
{
    let cs = chars_of(s);
    if spells(&cs, "1") || spells(&cs, "true") || spells(&cs, "yes") || spells(&cs, "on") {
        Some(true)
    } else if spells(&cs, "0") || spells(&cs, "false") || spells(&cs, "no") || spells(&cs, "off") {
        Some(false)
    } else {
        None
    }
}

/// No text is a word for true and a word for false at once.
pub proof fn lemma_flag_words_disjoint(s: Seq<char>)
    ensures
        !(is_truthy(s) && is_falsy(s)),
{
    reveal_strlit("1");
    reveal_strlit("true");
    reveal_strlit("yes");
    reveal_strlit("on");
    reveal_strlit("0");
    reveal_strlit("false");
    reveal_strlit("no");
    reveal_strlit("off");
    let f = crate::text::folded(s);
    if is_truthy(s) && is_falsy(s) {
        let t1 = crate::text::folded("1"@);
        let t2 = crate::text::folded("true"@);
        let t3 = crate::text::folded("yes"@);
        let t4 = crate::text::folded("on"@);
        let f1 = crate::text::folded("0"@);
        let f2 = crate::text::folded("false"@);
        let f3 = crate::text::folded("no"@);
        let f4 = crate::text::folded("off"@);
        assert(t1.len() == 1 && t1[0] == '1');
        assert(t2.len() == 4 && t2[0] == 't');
        assert(t3.len() == 3 && t3[0] == 'y');
        assert(t4.len() == 2 && t4[0] == 'o' && t4[1] == 'n');
        assert(f1.len() == 1 && f1[0] == '0');
        assert(f2.len() == 5 && f2[0] == 'f');
        assert(f3.len() == 2 && f3[0] == 'n' && f3[1] == 'o');
        assert(f4.len() == 3 && f4[0] == 'o');
        assert(f.len() >= 1);
    }
}

} // verus!
