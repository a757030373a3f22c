//! The text of a shell rc file: finding, adding and removing alias lines.
//! Reading, backing up and replacing the file itself is the caller's part.

use vstd::prelude::*;
use crate::clock::local_time_text;
use crate::text::{
    append_chars, append_str, chars_of, has_prefix, join2, split, split_chars, starts_with_chars,
    string_of, trim, trim_chars, views_of, lemma_split_len,
};

verus! {

/// The line defines alias `name`: once trimmed it starts with `alias <name>`.
pub open spec fn defines_alias(line: Seq<char>, name: Seq<char>) -> bool {
    has_prefix(trim(line), "alias "@ + name)
}

/// Some line of the file defines alias `name`.
pub open spec fn has_alias(content: Seq<char>, name: Seq<char>) -> bool {
    exists|i: int|
        0 <= i < split(content, '\n').len() && defines_alias(#[trigger] split(content, '\n')[i], name)
}

/// Whether the rc file text already defines alias `alias_name`.
pub fn rc_content_has_alias(content: &str, alias_name: &str) -> (r: bool)
    ensures
        r == has_alias(content@, alias_name@),
{
    let text = chars_of(content);
    let lines = split_chars(&text, '\n');
    let ghost ls = split(content@, '\n');
    let mut pattern = chars_of("alias ");
    append_str(&mut pattern, alias_name);
    let mut i: usize = 0;
    while i < lines.len()
        invariant
            i <= lines@.len(),
            views_of(lines@) == ls,
            ls == split(content@, '\n'),
            pattern@ == "alias "@ + alias_name@,
            forall|k: int| 0 <= k < i ==> !defines_alias(#[trigger] ls[k], alias_name@),
        decreases lines.len() - i,
    {
        let line = trim_chars(&lines[i]);
        assert(ls[i as int] == lines@[i as int]@);
        if starts_with_chars(&line, &pattern) {
            assert(defines_alias(ls[i as int], alias_name@));
            return true;
        }
        i = i + 1;
    }
    false
}

/// The file text with the alias appended: the text ends with a line break
/// first, then comes a blank line, a comment with the time `stamp`, and the
/// alias line.
pub open spec fn with_alias(
    content: Seq<char>,
    name: Seq<char>,
    command: Seq<char>,
    stamp: Seq<char>,
) -> Seq<char> {
    let base = if content.len() > 0 && content.last() != '\n' {
        content.push('\n')
    } else {
        content
    };
    base + "\n# Added by mode on "@ + stamp + "\nalias "@ + name + "='"@ + command + "'\n"@
}

/// The rc file text with `alias <alias_name>='<command>'` added at the end,
/// under a comment stamped `stamp`.
pub fn rc_content_with_alias(content: &str, alias_name: &str, command: &str, stamp: &str) -> (r:
    String)
    ensures
        r@ == with_alias(content@, alias_name@, command@, stamp@),
{
    let mut out = chars_of(content);
    if out.len() > 0 && out[out.len() - 1] != '\n' {
        out.push('\n');
    }
    append_str(&mut out, "\n# Added by mode on ");
    append_str(&mut out, stamp);
    append_str(&mut out, "\nalias ");
    append_str(&mut out, alias_name);
    append_str(&mut out, "='");
    append_str(&mut out, command);
    append_str(&mut out, "'\n");
    string_of(&out)
}

/// The rc file text with the alias added, stamped with the local time now.
pub fn rc_content_with_alias_now(content: &str, alias_name: &str, command: &str) -> (r: String)
    ensures
        exists|stamp: Seq<char>| r@ == with_alias(content@, alias_name@, command@, stamp),
{
    proof {
        reveal_strlit("%Y-%m-%d %H:%M:%S");
    }
    let stamp = local_time_text("%Y-%m-%d %H:%M:%S");
    rc_content_with_alias(content, alias_name, command, stamp.as_str())
}

/// The extension of a backup made now: `backup.` and the local time.
pub fn backup_extension_now() -> (r: String)
    ensures
        exists|stamp: Seq<char>| r@ == "backup."@ + stamp,
{
    proof {
        reveal_strlit("%Y%m%d_%H%M%S");
    }
    let stamp = local_time_text("%Y%m%d_%H%M%S");
    join2("backup.", stamp.as_str())
}

/// The lines that do not define alias `name`.
pub open spec fn lines_without(ls: Seq<Seq<char>>, name: Seq<char>) -> Seq<Seq<char>>
    decreases ls.len(),
{
    if ls.len() == 0 {
        Seq::empty()
    } else {
        let prev = lines_without(ls.drop_last(), name);
        if defines_alias(ls.last(), name) {
            prev
        } else {
            prev.push(ls.last())
        }
    }
}

/// `ls` with a line break after each line.
pub open spec fn unlines(ls: Seq<Seq<char>>) -> Seq<char>
    decreases ls.len(),
{
    if ls.len() == 0 {
        Seq::empty()
    } else {
        unlines(ls.drop_last()) + ls.last() + "\n"@
    }
}

/// The file text without the lines that define alias `name`; every line
/// kept but the last ends with a line break, and the last keeps its own.
pub open spec fn without_alias(content: Seq<char>, name: Seq<char>) -> Seq<char> {
    let ls = split(content, '\n');
    let kept = lines_without(ls.drop_last(), name);
    if defines_alias(ls.last(), name) {
        unlines(kept)
    } else {
        unlines(kept) + ls.last()
    }
}

/// The rc file text with every line that defines alias `alias_name` removed.
pub fn rc_content_without_alias(content: &str, alias_name: &str) -> (r: String)
    ensures
        r@ == without_alias(content@, alias_name@),
{
    let text = chars_of(content);
    let lines = split_chars(&text, '\n');
    let ghost ls = split(content@, '\n');
    proof {
        lemma_split_len(content@, '\n');
    }
    let mut pattern = chars_of("alias ");
    append_str(&mut pattern, alias_name);
    let mut out: Vec<char> = Vec::new();
    let last = lines.len() - 1;
    let mut i: usize = 0;
    assert(ls.drop_last().subrange(0, 0) =~= Seq::<Seq<char>>::empty());
    while i < last
        invariant
            i <= last,
            last + 1 == lines@.len(),
            views_of(lines@) == ls,
            ls == split(content@, '\n'),
            pattern@ == "alias "@ + alias_name@,
            out@ == unlines(lines_without(ls.drop_last().subrange(0, i as int), alias_name@)),
        decreases last - i,
    {
        let line = trim_chars(&lines[i]);
        let ghost pre = ls.drop_last().subrange(0, i as int);
        let ghost next = ls.drop_last().subrange(0, i + 1);
        assert(next.drop_last() =~= pre);
        assert(next.last() == lines@[i as int]@);
        if !starts_with_chars(&line, &pattern) {
            let ghost kept = lines_without(pre, alias_name@);
            assert(lines_without(next, alias_name@) == kept.push(next.last()));
            assert(kept.push(next.last()).drop_last() =~= kept);
            proof {
                reveal_strlit("\n");
            }
            append_chars(&mut out, &lines[i]);
            out.push('\n');
            assert(out@ =~= unlines(lines_without(next, alias_name@)));
        }
        i = i + 1;
    }
    assert(ls.drop_last().subrange(0, last as int) =~= ls.drop_last());
    let tail = trim_chars(&lines[last]);
    assert(ls.last() == lines@[last as int]@);
    if !starts_with_chars(&tail, &pattern) {
        append_chars(&mut out, &lines[last]);
    }
    string_of(&out)
}

} // verus!
