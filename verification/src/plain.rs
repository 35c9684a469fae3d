//! Plain templates: text in which every tag of the template engine is a
//! placeholder of the form `{{ name }}`.
//!
//! The engine takes an opening brace for the start of a tag where another
//! opening brace, a percent sign or a hash follows it; any other is text. A
//! plain template asks the engine for nothing but to put the values of
//! variables in place: it holds no expression to evaluate, no filter, no
//! function call, no block and no comment.

use vstd::prelude::*;

verus! {

/// The byte of an opening brace.
pub const OPEN: u8 = 0x7b;

/// The byte of a closing brace.
pub const CLOSE: u8 = 0x7d;

/// The byte of a space.
pub const SPACE: u8 = 0x20;

/// The byte of a percent sign.
pub const PERCENT: u8 = 0x25;

/// The byte of a hash.
pub const HASH: u8 = 0x23;

/// Whether a tag starts at `i`: an opening brace stands there, and an
/// opening brace, a percent sign or a hash after it.
pub open spec fn tag_starts(t: Seq<u8>, i: int) -> bool {
    0 <= i && i + 1 < t.len() && t[i] == OPEN && (t[i + 1] == OPEN || t[i + 1] == PERCENT || t[i + 1]
        == HASH)
}

/// Whether a byte can start a name: an ASCII letter or an underscore.
pub open spec fn starts_name(b: u8) -> bool {
    (0x41 <= b <= 0x5a) || (0x61 <= b <= 0x7a) || b == 0x5f
}

/// Whether a byte can stand in a name: an ASCII letter, a digit or an
/// underscore.
pub open spec fn continues_name(b: u8) -> bool {
    starts_name(b) || (0x30 <= b <= 0x39)
}

/// The first position at or after `i` that holds no space.
pub open spec fn after_spaces(t: Seq<u8>, i: int) -> int
    decreases t.len() - i,
{
    if 0 <= i < t.len() && t[i] == SPACE {
        after_spaces(t, i + 1)
    } else {
        i
    }
}

/// The first position at or after `i` that holds no byte of a name.
pub open spec fn after_name(t: Seq<u8>, i: int) -> int
    decreases t.len() - i,
{
    if 0 <= i < t.len() && continues_name(t[i]) {
        after_name(t, i + 1)
    } else {
        i
    }
}

/// Where the placeholder that opens at `i` ends, if one opens there: two
/// opening braces, spaces if any, a name, spaces if any, and two closing
/// braces.
pub open spec fn placeholder_end(t: Seq<u8>, i: int) -> Option<int> {
    if 0 <= i && i + 1 < t.len() && t[i] == OPEN && t[i + 1] == OPEN {
        let name = after_spaces(t, i + 2);
        if name < t.len() && starts_name(t[name]) {
            let end = after_spaces(t, after_name(t, name));
            if end + 1 < t.len() && t[end] == CLOSE && t[end + 1] == CLOSE {
                Some(end + 2)
            } else {
                None
            }
        } else {
            None
        }
    } else {
        None
    }
}

/// Whether every tag that starts at or after `i`, read from `i` on, is a
/// placeholder.
pub open spec fn plain_from(t: Seq<u8>, i: int) -> bool
    decreases t.len() - i,
{
    if i < 0 || i >= t.len() {
        true
    } else if !tag_starts(t, i) {
        plain_from(t, i + 1)
    } else {
        match placeholder_end(t, i) {
            Some(end) => end > i && plain_from(t, end),
            None => false,
        }
    }
}

/// Whether a template, given by its bytes, is plain.
pub open spec fn is_plain(t: Seq<u8>) -> bool {
    plain_from(t, 0)
}

/// A text without an opening brace is plain.
pub proof fn lemma_text_without_braces_is_plain(t: Seq<u8>, i: int)
    requires
        forall|k: int| 0 <= k < t.len() ==> t[k] != OPEN,
    ensures
        plain_from(t, i),
    decreases t.len() - i,
{
    if 0 <= i < t.len() {
        lemma_text_without_braces_is_plain(t, i + 1);
    }
}

/// The first position at or after `i` that holds no space.
fn skip_spaces(t: &[u8], i: usize) -> (j: usize)
    requires
        i <= t@.len(),
    ensures
        j == after_spaces(t@, i as int),
        i <= j <= t@.len(),
{
    let mut j: usize = i;
    while j < t.len() && t[j] == SPACE
        invariant
            i <= j <= t@.len(),
            after_spaces(t@, i as int) == after_spaces(t@, j as int),
        decreases t@.len() - j,
    {
        j += 1;
    }
    j
}

/// The first position at or after `i` that holds no byte of a name.
fn skip_name(t: &[u8], i: usize) -> (j: usize)
    requires
        i <= t@.len(),
    ensures
        j == after_name(t@, i as int),
        i <= j <= t@.len(),
{
    let mut j: usize = i;
    while j < t.len() && is_name_byte(t[j])
        invariant
            i <= j <= t@.len(),
            after_name(t@, i as int) == after_name(t@, j as int),
        decreases t@.len() - j,
    {
        j += 1;
    }
    j
}

/// Whether a byte can start a name.
fn is_name_start(b: u8) -> (r: bool)
    ensures
        r == starts_name(b),
{
    (0x41 <= b && b <= 0x5a) || (0x61 <= b && b <= 0x7a) || b == 0x5f
}

/// Whether a byte can stand in a name.
fn is_name_byte(b: u8) -> (r: bool)
    ensures
        r == continues_name(b),
{
    is_name_start(b) || (0x30 <= b && b <= 0x39)
}

/// Where the placeholder that opens at `i` ends, if one opens there.
fn end_of_placeholder(t: &[u8], i: usize) -> (r: Option<usize>)
    requires
        i < t@.len(),
    ensures
        match r {
            Some(end) => placeholder_end(t@, i as int) == Some(end as int) && i < end <= t@.len(),
            None => placeholder_end(t@, i as int) is None,
        },
{
    let n = t.len();
    if !(i + 1 < n && t[i] == OPEN && t[i + 1] == OPEN) {
        return None;
    }
    let name = skip_spaces(t, i + 2);
    if !(name < n && is_name_start(t[name])) {
        return None;
    }
    let end = skip_spaces(t, skip_name(t, name));
    if end < n && end + 1 < n && t[end] == CLOSE && t[end + 1] == CLOSE {
        Some(end + 2)
    } else {
        None
    }
}

/// Whether a template, given by its bytes, is plain: whether every tag in
/// it is a placeholder `{{ name }}`.
pub fn is_plain_template(template: &[u8]) -> (r: bool)
    ensures
        r == is_plain(template@),
{
    let n = template.len();
    let mut i: usize = 0;
    while i < n
        invariant
            i <= n,
            n == template@.len(),
            is_plain(template@) == plain_from(template@, i as int),
        decreases n - i,
    {
        let tag = template[i] == OPEN && i + 1 < n && (template[i + 1] == OPEN || template[i + 1]
            == PERCENT || template[i + 1] == HASH);
        if !tag {
            i += 1;
        } else {
            match end_of_placeholder(template, i) {
                Some(end) => {
                    i = end;
                },
                None => {
                    return false;
                },
            }
        }
    }
    true
}

} // verus!
