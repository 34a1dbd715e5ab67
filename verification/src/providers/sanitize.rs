//! Title sanitizing: turns a model-suggested title into a filesystem-safe
//! filename.
//!
//! The transformation replaces each filesystem-unsafe character (space and
//! the path, glob and quote specials) with a hyphen, case-folds to lower
//! case, collapses runs of hyphens, trims trailing hyphens and surrounding
//! whitespace, and appends the `.md` extension when it is not already
//! there. Every input string has a defined, total output. An ASCII title is
//! folded character by character and the whole pipeline is then fully
//! specified — idempotence and shape are proved for it; any other title is
//! folded by `str::to_lowercase`, whose result carries only a name.

use crate::text::string_from_chars;
use vstd::prelude::*;
use vstd::utf8::is_ascii_chars;

verus! {

/// Characters that are unsafe in a file name: space and the path, glob and
/// quote special characters. Each is replaced by a hyphen.
pub open spec fn is_unsafe_char(c: char) -> bool {
    ||| c == ' '
    ||| c == '/'
    ||| c == '\\'
    ||| c == ':'
    ||| c == '?'
    ||| c == '*'
    ||| c == '"'
    ||| c == '\''
    ||| c == '<'
    ||| c == '>'
    ||| c == '|'
}

/// ASCII lower-casing of one character; anything but `A`..`Z` is unchanged.
pub open spec fn lower_char(c: char) -> char {
    if 'A' <= c && c <= 'Z' {
        ((c as u32) + 32) as char
    } else {
        c
    }
}

/// What one character of the raw title becomes under replacement alone: a
/// hyphen if it is unsafe, itself otherwise. Case folding happens after.
pub open spec fn replace_char(c: char) -> char {
    if is_unsafe_char(c) {
        '-'
    } else {
        c
    }
}

/// What one ASCII character of the raw title becomes after replacement and
/// folding: a hyphen if it is unsafe, its ASCII lower-case form otherwise.
/// On ASCII titles the whole fold is this mapping, character by character.
pub open spec fn map_char(c: char) -> char {
    if is_unsafe_char(c) {
        '-'
    } else {
        lower_char(c)
    }
}

/// The whitespace characters that trimming removes (the Unicode
/// `White_Space` set).
pub open spec fn is_space_char(c: char) -> bool {
    let u = c as u32;
    ||| (9 <= u && u <= 13)
    ||| u == 32
    ||| u == 0x85
    ||| u == 0xA0
    ||| u == 0x1680
    ||| (0x2000 <= u && u <= 0x200A)
    ||| u == 0x2028
    ||| u == 0x2029
    ||| u == 0x202F
    ||| u == 0x205F
    ||| u == 0x3000
}

/// `replace_char` applied to every character.
pub open spec fn replaced(s: Seq<char>) -> Seq<char>
    decreases s.len(),
{
    if s.len() == 0 {
        Seq::empty()
    } else {
        replaced(s.drop_last()).push(replace_char(s.last()))
    }
}

/// `map_char` applied to every character: replacement and ASCII folding in
/// one pass. This is the fold the pipeline uses for ASCII titles.
pub open spec fn mapped(s: Seq<char>) -> Seq<char>
    decreases s.len(),
{
    if s.len() == 0 {
        Seq::empty()
    } else {
        mapped(s.drop_last()).push(map_char(s.last()))
    }
}

/// What `str::to_lowercase` returns: the Unicode lower-casing of the
/// characters, a function of them alone.
pub uninterp spec fn lower_of(s: Seq<char>) -> Seq<char>;

/// The replaced title, case-folded: on an ASCII title the fold is the
/// per-character ASCII mapping and the pipeline is fully known; on any
/// other title it is `str::to_lowercase`'s result, known only by its name.
pub open spec fn folded(s: Seq<char>) -> Seq<char> {
    if is_ascii_chars(s) {
        mapped(s)
    } else {
        lower_of(replaced(s))
    }
}

/// Runs of hyphens collapsed to a single hyphen.
pub open spec fn collapsed(s: Seq<char>) -> Seq<char>
    decreases s.len(),
{
    if s.len() == 0 {
        Seq::empty()
    } else if s.len() >= 2 && s.last() == '-' && s[s.len() - 2] == '-' {
        collapsed(s.drop_last())
    } else {
        collapsed(s.drop_last()).push(s.last())
    }
}

/// Trailing hyphens removed.
pub open spec fn trim_end_dashes(s: Seq<char>) -> Seq<char>
    decreases s.len(),
{
    if s.len() > 0 && s.last() == '-' {
        trim_end_dashes(s.drop_last())
    } else {
        s
    }
}

/// Trailing whitespace removed.
pub open spec fn trim_end_spaces(s: Seq<char>) -> Seq<char>
    decreases s.len(),
{
    if s.len() > 0 && is_space_char(s.last()) {
        trim_end_spaces(s.drop_last())
    } else {
        s
    }
}

/// Leading whitespace removed.
pub open spec fn trim_start_spaces(s: Seq<char>) -> Seq<char>
    decreases s.len(),
{
    if s.len() > 0 && is_space_char(s[0]) {
        trim_start_spaces(s.drop_first())
    } else {
        s
    }
}

/// Whitespace removed from both ends.
pub open spec fn space_trimmed(s: Seq<char>) -> Seq<char> {
    trim_start_spaces(trim_end_spaces(s))
}

/// The fixed file extension.
pub open spec fn md_ext() -> Seq<char> {
    seq!['.', 'm', 'd']
}

/// Whether `s` already ends with the fixed extension.
pub open spec fn ends_with_md(s: Seq<char>) -> bool {
    s.len() >= 3 && s[s.len() - 3] == '.' && s[s.len() - 2] == 'm' && s[s.len() - 1] == 'd'
}

/// `s` with the fixed extension appended when it is not already there.
pub open spec fn with_md_extension(s: Seq<char>) -> Seq<char> {
    if ends_with_md(s) {
        s
    } else {
        s + md_ext()
    }
}

/// The sanitized title before the extension step: replaced, folded, hyphen
/// runs collapsed, trailing hyphens and surrounding whitespace trimmed.
pub open spec fn sanitize_core(s: Seq<char>) -> Seq<char> {
    space_trimmed(trim_end_dashes(collapsed(folded(s))))
}

/// The whole sanitizing pipeline, as a function on character sequences.
pub open spec fn spec_sanitize_title(s: Seq<char>) -> Seq<char> {
    with_md_extension(sanitize_core(s))
}

/// Relies on `str::to_lowercase`: the Unicode lower-casing of the string,
/// a function of the characters alone, here given the name `lower_of`.
#[verifier::external_body]
fn lowercase(s: &str) -> (r: String)
    ensures
        r@ == lower_of(s@),
{
    s.to_lowercase()
}

/// Executable form of `replace_char`.
fn replace_char_exec(c: char) -> (r: char)
    ensures
        r == replace_char(c),
{
    if c == ' ' || c == '/' || c == '\\' || c == ':' || c == '?' || c == '*' || c == '"' || c == '\''
        || c == '<' || c == '>' || c == '|' {
        '-'
    } else {
        c
    }
}

/// Executable form of `map_char`.
fn map_char_exec(c: char) -> (r: char)
    ensures
        r == map_char(c),
{
    if c == ' ' || c == '/' || c == '\\' || c == ':' || c == '?' || c == '*' || c == '"' || c == '\''
        || c == '<' || c == '>' || c == '|' {
        '-'
    } else if 'A' <= c && c <= 'Z' {
        ((c as u8) + 32) as char
    } else {
        c
    }
}

/// Executable form of `is_space_char`.
fn is_space_exec(c: char) -> (r: bool)
    ensures
        r == is_space_char(c),
{
    let u = c as u32;
    (9 <= u && u <= 13) || u == 32 || u == 0x85 || u == 0xA0 || u == 0x1680 || (0x2000 <= u && u
        <= 0x200A) || u == 0x2028 || u == 0x2029 || u == 0x202F || u == 0x205F || u == 0x3000
}

/// Remove whitespace from both ends of a string, as `str::trim` does.
pub fn trim_spaces(s: &str) -> (r: String)
    ensures
        r@ == space_trimmed(s@),
{
    let n = s.unicode_len();
    let mut v: Vec<char> = Vec::new();
    let mut i: usize = 0;
    while i < n
        invariant
            i <= n,
            n == s@.len(),
            v@ == s@.take(i as int),
        decreases n - i,
    {
        v.push(s.get_char(i));
        proof {
            assert(s@.take(i + 1 as int) =~= s@.take(i as int).push(s@[i as int]));
        }
        i += 1;
    }
    proof {
        assert(s@.take(n as int) =~= s@);
    }

    let mut done = false;
    while !done && v.len() > 0
        invariant
            trim_end_spaces(v@) == trim_end_spaces(s@),
            done ==> (v@.len() == 0 || !is_space_char(v@.last())),
        decreases v.len() + (if done {
            0int
        } else {
            1int
        }),
    {
        if is_space_exec(v[v.len() - 1]) {
            proof {
                assert(v@.drop_last() =~= v@.take(v@.len() - 1));
            }
            v.pop();
        } else {
            done = true;
        }
    }
    proof {
        assert(trim_end_spaces(v@) == v@);
    }

    let mut j: usize = 0;
    while j < v.len() && is_space_exec(v[j])
        invariant
            j <= v.len(),
            forall|k: int| 0 <= k < j ==> is_space_char(v@[k]),
        decreases v.len() - j,
    {
        j += 1;
    }
    proof {
        lemma_trim_start_at(v@, j as int);
    }
    let mut t: Vec<char> = Vec::new();
    let mut i: usize = j;
    while i < v.len()
        invariant
            j <= i <= v.len(),
            t@ == v@.subrange(j as int, i as int),
        decreases v.len() - i,
    {
        t.push(v[i]);
        proof {
            assert(v@.subrange(j as int, i + 1 as int) =~= v@.subrange(j as int, i as int).push(
                v@[i as int]));
        }
        i += 1;
    }
    proof {
        assert(v@.subrange(j as int, v@.len() as int) =~= v@.skip(j as int));
    }
    string_from_chars(&t)
}

/// For all `s`: `collapsed(s)` is empty only when `s` is, and otherwise ends
/// with the same character as `s`.
proof fn lemma_collapsed_last(s: Seq<char>)
    requires
        s.len() > 0,
    ensures
        collapsed(s).len() > 0,
        collapsed(s).last() == s.last(),
    decreases s.len(),
{
    if s.len() >= 2 && s.last() == '-' && s[s.len() - 2] == '-' {
        lemma_collapsed_last(s.drop_last());
        assert(s.drop_last().last() == s[s.len() - 2]);
    }
}

/// Sanitize a raw title into a filesystem-safe filename.
///
/// Replaces each unsafe character with a hyphen, case-folds to lower case
/// (an ASCII title one character at a time, any other through
/// `str::to_lowercase`), collapses runs of hyphens, trims trailing hyphens
/// and surrounding whitespace, and appends `.md` when not already present.
pub fn sanitize_title(title: &str) -> (r: String)
    ensures
        r@ == spec_sanitize_title(title@),
{
    let n = title.unicode_len();
    // Replace unsafe characters and case-fold. An ASCII title is folded one
    // character at a time; any other title goes through `str::to_lowercase`.
    let v: Vec<char> = if title.is_ascii() {
        let mut v: Vec<char> = Vec::new();
        let mut i: usize = 0;
        while i < n
            invariant
                i <= n,
                n == title@.len(),
                v@ == mapped(title@.take(i as int)),
            decreases n - i,
        {
            let c = title.get_char(i);
            v.push(map_char_exec(c));
            proof {
                assert(title@.take(i + 1 as int).drop_last() =~= title@.take(i as int));
                assert(title@.take(i + 1 as int).last() == title@[i as int]);
            }
            i += 1;
        }
        proof {
            assert(title@.take(n as int) =~= title@);
        }
        v
    } else {
        let mut v: Vec<char> = Vec::new();
        let mut i: usize = 0;
        while i < n
            invariant
                i <= n,
                n == title@.len(),
                v@ == replaced(title@.take(i as int)),
            decreases n - i,
        {
            let c = title.get_char(i);
            v.push(replace_char_exec(c));
            proof {
                assert(title@.take(i + 1 as int).drop_last() =~= title@.take(i as int));
                assert(title@.take(i + 1 as int).last() == title@[i as int]);
            }
            i += 1;
        }
        proof {
            assert(title@.take(n as int) =~= title@);
        }
        let lowered = lowercase(string_from_chars(&v).as_str());
        let m = lowered.as_str().unicode_len();
        let mut w: Vec<char> = Vec::new();
        let mut i: usize = 0;
        while i < m
            invariant
                i <= m,
                m == lowered@.len(),
                w@ == lowered@.take(i as int),
            decreases m - i,
        {
            w.push(lowered.as_str().get_char(i));
            proof {
                assert(lowered@.take(i + 1 as int) =~= lowered@.take(i as int).push(
                    lowered@[i as int]));
            }
            i += 1;
        }
        proof {
            assert(lowered@.take(m as int) =~= lowered@);
        }
        w
    };
    proof {
        assert(v@ == folded(title@));
    }

    // Collapse runs of hyphens.
    let mut w: Vec<char> = Vec::new();
    let mut i: usize = 0;
    while i < v.len()
        invariant
            i <= v.len(),
            w@ == collapsed(v@.take(i as int)),
        decreases v.len() - i,
    {
        let c = v[i];
        proof {
            assert(v@.take(i + 1 as int).drop_last() =~= v@.take(i as int));
            assert(v@.take(i + 1 as int).last() == v@[i as int]);
            if i > 0 {
                lemma_collapsed_last(v@.take(i as int));
                assert(v@.take(i as int).last() == v@[i - 1 as int]);
            }
        }
        if c == '-' && w.len() > 0 && w[w.len() - 1] == '-' {
            // drop this hyphen: the previous kept character is already one
        } else {
            w.push(c);
        }
        i += 1;
    }
    proof {
        assert(v@.take(v@.len() as int) =~= v@);
    }

    // Trim trailing hyphens.
    while w.len() > 0 && w[w.len() - 1] == '-'
        invariant
            trim_end_dashes(w@) == trim_end_dashes(collapsed(folded(title@))),
        decreases w.len(),
    {
        proof {
            assert(w@.drop_last() =~= w@.take(w@.len() - 1));
        }
        w.pop();
    }
    proof {
        assert(trim_end_dashes(w@) == w@);
    }

    // Trim trailing whitespace.
    let mut done = false;
    while !done && w.len() > 0
        invariant
            trim_end_spaces(w@) == trim_end_spaces(trim_end_dashes(collapsed(folded(title@)))),
            done ==> (w@.len() == 0 || !is_space_char(w@.last())),
        decreases w.len() + (if done { 0int } else { 1int }),
    {
        if is_space_exec(w[w.len() - 1]) {
            proof {
                assert(w@.drop_last() =~= w@.take(w@.len() - 1));
            }
            w.pop();
        } else {
            done = true;
        }
    }
    proof {
        assert(trim_end_spaces(w@) == w@);
    }

    // Trim leading whitespace.
    let mut j: usize = 0;
    while j < w.len() && is_space_exec(w[j])
        invariant
            j <= w.len(),
            forall|k: int| 0 <= k < j ==> is_space_char(w@[k]),
        decreases w.len() - j,
    {
        j += 1;
    }
    proof {
        lemma_trim_start_at(w@, j as int);
    }
    let mut t: Vec<char> = Vec::new();
    let mut i: usize = j;
    while i < w.len()
        invariant
            j <= i <= w.len(),
            t@ == w@.subrange(j as int, i as int),
        decreases w.len() - i,
    {
        t.push(w[i]);
        proof {
            assert(w@.subrange(j as int, i + 1 as int) =~= w@.subrange(j as int, i as int).push(
                w@[i as int]));
        }
        i += 1;
    }
    proof {
        assert(w@.subrange(j as int, w@.len() as int) =~= w@.skip(j as int));
    }

    // Append the extension when it is not already there.
    let has_ext = t.len() >= 3 && t[t.len() - 3] == '.' && t[t.len() - 2] == 'm' && t[t.len() - 1]
        == 'd';
    if !has_ext {
        t.push('.');
        t.push('m');
        t.push('d');
        proof {
            assert(t@ =~= space_trimmed(trim_end_dashes(collapsed(folded(title@)))) + md_ext());
        }
    }

    string_from_chars(&t)
}

/// A character that sanitizing leaves in place.
pub open spec fn map_fixed(c: char) -> bool {
    map_char(c) == c
}

/// Every character of `s` is left in place by the character mapping.
pub open spec fn all_fixed(s: Seq<char>) -> bool {
    forall|i: int| 0 <= i < s.len() ==> map_fixed(#[trigger] s[i])
}

/// No two adjacent hyphens anywhere in `s`.
pub open spec fn no_double_dash(s: Seq<char>) -> bool {
    forall|i: int| 0 <= i && i + 1 < s.len() ==> !(s[i] == '-' && #[trigger] s[i + 1] == '-')
}

/// `mapped` keeps the length and works one character at a time.
proof fn lemma_mapped_elts(s: Seq<char>)
    ensures
        mapped(s).len() == s.len(),
        forall|i: int| 0 <= i < s.len() ==> #[trigger] mapped(s)[i] == map_char(s[i]),
    decreases s.len(),
{
    if s.len() > 0 {
        lemma_mapped_elts(s.drop_last());
    }
}

/// The character mapping is idempotent.
proof fn lemma_map_char_fixed(c: char)
    ensures
        map_fixed(map_char(c)),
{
}

/// Every character of a mapped sequence is left in place by a second mapping.
proof fn lemma_mapped_all_fixed(s: Seq<char>)
    ensures
        all_fixed(mapped(s)),
{
    lemma_mapped_elts(s);
    assert forall|i: int| 0 <= i < mapped(s).len() implies map_fixed(#[trigger] mapped(s)[i]) by {
        lemma_map_char_fixed(s[i]);
    }
}

/// Mapping a sequence whose characters are all already in place is the
/// identity.
proof fn lemma_mapped_identity(s: Seq<char>)
    requires
        all_fixed(s),
    ensures
        mapped(s) == s,
    decreases s.len(),
{
    if s.len() > 0 {
        assert(all_fixed(s.drop_last()));
        lemma_mapped_identity(s.drop_last());
        assert(mapped(s) =~= s);
    }
}

/// Collapsing hyphens keeps only characters that were already in `s`.
proof fn lemma_collapsed_preserves(s: Seq<char>, p: spec_fn(char) -> bool)
    requires
        forall|i: int| 0 <= i < s.len() ==> p(#[trigger] s[i]),
    ensures
        forall|i: int| 0 <= i < collapsed(s).len() ==> p(#[trigger] collapsed(s)[i]),
    decreases s.len(),
{
    if s.len() > 0 {
        assert forall|i: int| 0 <= i < s.drop_last().len() implies p(
            #[trigger] s.drop_last()[i],
        ) by {
            assert(s.drop_last()[i] == s[i]);
        }
        lemma_collapsed_preserves(s.drop_last(), p);
        assert forall|i: int| 0 <= i < collapsed(s).len() implies p(
            #[trigger] collapsed(s)[i],
        ) by {
            if s.len() >= 2 && s.last() == '-' && s[s.len() - 2] == '-' {
                assert(collapsed(s)[i] == collapsed(s.drop_last())[i]);
            } else if i < collapsed(s).len() - 1 {
                assert(collapsed(s)[i] == collapsed(s.drop_last())[i]);
            } else {
                assert(collapsed(s)[i] == s.last());
                assert(p(s[s.len() - 1]));
            }
        }
    }
}

/// Trimming trailing hyphens keeps only characters that were already in `s`.
proof fn lemma_ted_preserves(s: Seq<char>, p: spec_fn(char) -> bool)
    requires
        forall|i: int| 0 <= i < s.len() ==> p(#[trigger] s[i]),
    ensures
        forall|i: int| 0 <= i < trim_end_dashes(s).len() ==> p(
            #[trigger] trim_end_dashes(s)[i],
        ),
    decreases s.len(),
{
    if s.len() > 0 && s.last() == '-' {
        assert forall|i: int| 0 <= i < s.drop_last().len() implies p(
            #[trigger] s.drop_last()[i],
        ) by {
            assert(s.drop_last()[i] == s[i]);
        }
        lemma_ted_preserves(s.drop_last(), p);
        assert forall|i: int| 0 <= i < trim_end_dashes(s).len() implies p(
            #[trigger] trim_end_dashes(s)[i],
        ) by {
            assert(trim_end_dashes(s)[i] == trim_end_dashes(s.drop_last())[i]);
        }
    } else {
        assert forall|i: int| 0 <= i < trim_end_dashes(s).len() implies p(
            #[trigger] trim_end_dashes(s)[i],
        ) by {
            assert(trim_end_dashes(s)[i] == s[i]);
        }
    }
}

/// Trimming trailing whitespace keeps only characters that were already in
/// `s`.
proof fn lemma_tes_preserves(s: Seq<char>, p: spec_fn(char) -> bool)
    requires
        forall|i: int| 0 <= i < s.len() ==> p(#[trigger] s[i]),
    ensures
        forall|i: int| 0 <= i < trim_end_spaces(s).len() ==> p(
            #[trigger] trim_end_spaces(s)[i],
        ),
    decreases s.len(),
{
    if s.len() > 0 && is_space_char(s.last()) {
        assert forall|i: int| 0 <= i < s.drop_last().len() implies p(
            #[trigger] s.drop_last()[i],
        ) by {
            assert(s.drop_last()[i] == s[i]);
        }
        lemma_tes_preserves(s.drop_last(), p);
        assert forall|i: int| 0 <= i < trim_end_spaces(s).len() implies p(
            #[trigger] trim_end_spaces(s)[i],
        ) by {
            assert(trim_end_spaces(s)[i] == trim_end_spaces(s.drop_last())[i]);
        }
    } else {
        assert forall|i: int| 0 <= i < trim_end_spaces(s).len() implies p(
            #[trigger] trim_end_spaces(s)[i],
        ) by {
            assert(trim_end_spaces(s)[i] == s[i]);
        }
    }
}

/// Trimming leading whitespace keeps only characters that were already in
/// `s`.
proof fn lemma_tss_preserves(s: Seq<char>, p: spec_fn(char) -> bool)
    requires
        forall|i: int| 0 <= i < s.len() ==> p(#[trigger] s[i]),
    ensures
        forall|i: int| 0 <= i < trim_start_spaces(s).len() ==> p(
            #[trigger] trim_start_spaces(s)[i],
        ),
    decreases s.len(),
{
    if s.len() > 0 && is_space_char(s[0]) {
        assert forall|i: int| 0 <= i < s.drop_first().len() implies p(
            #[trigger] s.drop_first()[i],
        ) by {
            assert(s.drop_first()[i] == s[i + 1]);
        }
        lemma_tss_preserves(s.drop_first(), p);
        assert forall|i: int| 0 <= i < trim_start_spaces(s).len() implies p(
            #[trigger] trim_start_spaces(s)[i],
        ) by {
            assert(trim_start_spaces(s)[i] == trim_start_spaces(s.drop_first())[i]);
        }
    } else {
        assert forall|i: int| 0 <= i < trim_start_spaces(s).len() implies p(
            #[trigger] trim_start_spaces(s)[i],
        ) by {
            assert(trim_start_spaces(s)[i] == s[i]);
        }
    }
}

/// Collapsing leaves no two adjacent hyphens.
proof fn lemma_collapsed_no_dd(s: Seq<char>)
    ensures
        no_double_dash(collapsed(s)),
    decreases s.len(),
{
    if s.len() > 0 {
        lemma_collapsed_no_dd(s.drop_last());
        if !(s.len() >= 2 && s.last() == '-' && s[s.len() - 2] == '-') {
            // the pushed character never forms a new pair
            if s.len() >= 2 && s.last() == '-' {
                lemma_collapsed_last(s.drop_last());
                assert(s.drop_last().last() == s[s.len() - 2]);
            }
            assert(no_double_dash(collapsed(s.drop_last()).push(s.last())));
        }
    }
}

/// Collapsing a sequence without adjacent hyphens is the identity.
proof fn lemma_collapsed_identity(s: Seq<char>)
    requires
        no_double_dash(s),
    ensures
        collapsed(s) == s,
    decreases s.len(),
{
    if s.len() > 0 {
        if s.len() >= 2 && s.last() == '-' && s[s.len() - 2] == '-' {
            assert(s[s.len() - 2] == '-' && s[s.len() - 2 + 1] == '-');
            assert(false);
        }
        assert(no_double_dash(s.drop_last()));
        lemma_collapsed_identity(s.drop_last());
        assert(collapsed(s) =~= s);
    }
}

/// Dropping the last element keeps the absence of adjacent hyphens.
proof fn lemma_no_dd_drop_last(s: Seq<char>)
    requires
        no_double_dash(s),
        s.len() > 0,
    ensures
        no_double_dash(s.drop_last()),
{
    assert forall|i: int| 0 <= i && i + 1 < s.drop_last().len() implies !(s.drop_last()[i] == '-'
        && #[trigger] s.drop_last()[i + 1] == '-') by {
        assert(s.drop_last()[i] == s[i] && s.drop_last()[i + 1] == s[i + 1]);
    }
}

/// Trimming trailing hyphens keeps the absence of adjacent hyphens.
proof fn lemma_ted_no_dd(s: Seq<char>)
    requires
        no_double_dash(s),
    ensures
        no_double_dash(trim_end_dashes(s)),
    decreases s.len(),
{
    if s.len() > 0 && s.last() == '-' {
        lemma_no_dd_drop_last(s);
        lemma_ted_no_dd(s.drop_last());
    }
}

/// Trimming trailing whitespace keeps the absence of adjacent hyphens.
proof fn lemma_tes_no_dd(s: Seq<char>)
    requires
        no_double_dash(s),
    ensures
        no_double_dash(trim_end_spaces(s)),
    decreases s.len(),
{
    if s.len() > 0 && is_space_char(s.last()) {
        lemma_no_dd_drop_last(s);
        lemma_tes_no_dd(s.drop_last());
    }
}

/// Trimming leading whitespace keeps the absence of adjacent hyphens.
proof fn lemma_tss_no_dd(s: Seq<char>)
    requires
        no_double_dash(s),
    ensures
        no_double_dash(trim_start_spaces(s)),
    decreases s.len(),
{
    if s.len() > 0 && is_space_char(s[0]) {
        assert forall|i: int| 0 <= i && i + 1 < s.drop_first().len() implies !(s.drop_first()[i]
            == '-' && #[trigger] s.drop_first()[i + 1] == '-') by {
            assert(s.drop_first()[i] == s[i + 1] && s.drop_first()[i + 1] == s[i + 2]);
        }
        lemma_tss_no_dd(s.drop_first());
    }
}

/// Appending the extension when missing always yields a sequence that ends
/// with it.
proof fn lemma_with_ext_ends_md(s: Seq<char>)
    ensures
        ends_with_md(with_md_extension(s)),
{
    if !ends_with_md(s) {
        assert((s + md_ext()).len() == s.len() + 3);
        assert((s + md_ext())[s.len() as int] == '.');
        assert((s + md_ext())[s.len() as int + 1] == 'm');
        assert((s + md_ext())[s.len() as int + 2] == 'd');
    }
}

/// Trimming leading whitespace never leaves whitespace in front.
proof fn lemma_tss_first(s: Seq<char>)
    ensures
        trim_start_spaces(s).len() == 0 || !is_space_char(trim_start_spaces(s)[0]),
    decreases s.len(),
{
    if s.len() > 0 && is_space_char(s[0]) {
        lemma_tss_first(s.drop_first());
    }
}

/// Sanitizing is idempotent: running the pipeline on its own output changes
/// nothing. Stated for ASCII titles: on any other title the fold is
/// `str::to_lowercase`'s result, known only by its name (`lower_of`), so no
/// second application can be reasoned about.
pub proof fn lemma_sanitize_idempotent(s: Seq<char>)
    requires
        is_ascii_chars(s),
    ensures
        spec_sanitize_title(spec_sanitize_title(s)) == spec_sanitize_title(s),
{
    assert(folded(s) == mapped(s));
    let m = mapped(s);
    let c = collapsed(m);
    let d = trim_end_dashes(c);
    let e = trim_end_spaces(d);
    let t = trim_start_spaces(e);
    let y = with_md_extension(t);
    assert(y == spec_sanitize_title(s));

    let fixed = |ch: char| map_fixed(ch);
    lemma_mapped_all_fixed(s);
    assert(forall|i: int| 0 <= i < m.len() ==> fixed(#[trigger] m[i]));
    lemma_collapsed_preserves(m, fixed);
    lemma_ted_preserves(c, fixed);
    lemma_tes_preserves(d, fixed);
    lemma_tss_preserves(e, fixed);
    assert forall|i: int| 0 <= i < y.len() implies map_fixed(#[trigger] y[i]) by {
        if i < t.len() {
            assert(y[i] == t[i]);
        } else {
            assert(y[i] == md_ext()[i - t.len()]);
        }
    }
    assert(all_fixed(y));
    lemma_mapped_identity(y);

    lemma_collapsed_no_dd(m);
    lemma_ted_no_dd(c);
    lemma_tes_no_dd(d);
    lemma_tss_no_dd(e);
    assert forall|i: int| 0 <= i && i + 1 < y.len() implies !(y[i] == '-' && #[trigger] y[i
        + 1] == '-') by {
        if i + 1 < t.len() {
            assert(y[i] == t[i] && y[i + 1] == t[i + 1]);
        } else if i >= t.len() {
            assert(y[i] == md_ext()[i - t.len()] && y[i + 1] == md_ext()[i + 1 - t.len()]);
        } else {
            assert(y[i + 1] == md_ext()[0]);
        }
    }
    assert(no_double_dash(y));
    lemma_collapsed_identity(y);

    lemma_with_ext_ends_md(t);
    assert(ends_with_md(y));
    assert(y.last() == 'd');
    assert(trim_end_dashes(y) == y);
    assert(trim_end_spaces(y) == y);

    lemma_tss_first(e);
    assert(y.len() > 0);
    if ends_with_md(t) {
        assert(y == t);
        assert(!is_space_char(y[0]));
    } else if t.len() > 0 {
        assert(y[0] == t[0]);
        assert(!is_space_char(y[0]));
    } else {
        assert(y =~= md_ext());
        assert(y[0] == '.');
        assert(!is_space_char('.'));
    }
    assert(trim_start_spaces(y) == y);

    assert(with_md_extension(y) == y);

    // The output is ASCII again, so its own fold is the per-character one.
    let ascii = |ch: char| '\0' <= ch && ch <= '\u{7f}';
    lemma_mapped_elts(s);
    assert forall|i: int| 0 <= i < m.len() implies ascii(#[trigger] m[i]) by {
        assert(m[i] == map_char(s[i]));
        assert('\0' <= s[i] <= '\u{7f}');
    }
    lemma_collapsed_preserves(m, ascii);
    lemma_ted_preserves(c, ascii);
    lemma_tes_preserves(d, ascii);
    lemma_tss_preserves(e, ascii);
    assert forall|i: int| 0 <= i < y.len() implies '\0' <= #[trigger] y[i] <= '\u{7f}' by {
        if i < t.len() {
            assert(y[i] == t[i]);
            assert(ascii(t[i]));
        } else {
            assert(y[i] == md_ext()[i - t.len()]);
        }
    }
    assert(is_ascii_chars(y));
    assert(folded(y) == mapped(y));
    assert(spec_sanitize_title(y) == y);
}

/// Every sanitized title ends with the fixed extension, whatever the input.
pub proof fn lemma_sanitize_has_extension(s: Seq<char>)
    ensures
        ends_with_md(spec_sanitize_title(s)),
{
    lemma_with_ext_ends_md(sanitize_core(s));
}

/// A sanitized ASCII title ends with the fixed extension and contains none
/// of the replaced filesystem-unsafe characters. Stated for ASCII titles:
/// on any other title the fold's output characters are known only by name.
pub proof fn lemma_sanitize_shape(s: Seq<char>)
    requires
        is_ascii_chars(s),
    ensures
        ends_with_md(spec_sanitize_title(s)),
        forall|i: int| 0 <= i < spec_sanitize_title(s).len() ==> !is_unsafe_char(
            #[trigger] spec_sanitize_title(s)[i],
        ),
{
    assert(folded(s) == mapped(s));
    let m = mapped(s);
    let c = collapsed(m);
    let d = trim_end_dashes(c);
    let e = trim_end_spaces(d);
    let t = trim_start_spaces(e);
    let y = with_md_extension(t);
    lemma_with_ext_ends_md(t);

    let safe = |ch: char| !is_unsafe_char(ch);
    lemma_mapped_elts(s);
    assert forall|i: int| 0 <= i < m.len() implies safe(#[trigger] m[i]) by {
        assert(m[i] == map_char(s[i]));
    }
    lemma_collapsed_preserves(m, safe);
    lemma_ted_preserves(c, safe);
    lemma_tes_preserves(d, safe);
    lemma_tss_preserves(e, safe);
    assert forall|i: int| 0 <= i < y.len() implies !is_unsafe_char(#[trigger] y[i]) by {
        if i < t.len() {
            assert(y[i] == t[i]);
        } else {
            assert(y[i] == md_ext()[i - t.len()]);
        }
    }
}

/// A sanitized title crosses the journal boundary unchanged: it already
/// carries the extension, so normalizing the entry title appends nothing.
pub proof fn lemma_sanitized_title_normalized(s: Seq<char>)
    ensures
        with_md_extension(spec_sanitize_title(s)) == spec_sanitize_title(s),
{
    lemma_sanitize_has_extension(s);
}

/// `s` ends with the extension written twice in a row.
pub open spec fn ends_with_double_md(s: Seq<char>) -> bool {
    s.len() >= 6 && ends_with_md(s) && ends_with_md(s.take(s.len() - 3))
}

/// Sanitizing never doubles the extension: when the trimmed core does not
/// already carry a doubled extension, the output does not either.
pub proof fn lemma_sanitize_extension_once(s: Seq<char>)
    requires
        !ends_with_double_md(sanitize_core(s)),
    ensures
        !ends_with_double_md(spec_sanitize_title(s)),
{
    let t = sanitize_core(s);
    let y = with_md_extension(t);
    if !ends_with_md(t) {
        assert(y == t + md_ext());
        assert(y.take(y.len() - 3) =~= t);
    }
}

/// When the first `j` characters of `s` are whitespace and the one at `j`
/// (if any) is not, trimming leading whitespace drops exactly those `j`.
proof fn lemma_trim_start_at(s: Seq<char>, j: int)
    requires
        0 <= j <= s.len(),
        forall|k: int| 0 <= k < j ==> is_space_char(s[k]),
        j == s.len() || !is_space_char(s[j]),
    ensures
        trim_start_spaces(s) == s.skip(j),
    decreases j,
{
    if j == 0 {
        assert(s.skip(0) =~= s);
    } else {
        lemma_trim_start_at(s.drop_first(), j - 1);
        assert(s.drop_first().skip(j - 1) =~= s.skip(j));
    }
}

} // verus!
