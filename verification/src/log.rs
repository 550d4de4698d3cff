//! How the tool's text log grows.
//!
//! Every panel writes into one shared text log. The helpers here are the only ways
//! the log is extended; each one keeps what the log held as its prefix.
use vstd::prelude::*;

use crate::text::{chars_of, string_of};

verus! {

/// The log after `line` and, unless `line` already ends with a newline, a newline.
pub open spec fn with_line(log: Seq<char>, line: Seq<char>) -> Seq<char> {
    if line.len() > 0 && line.last() == '\n' {
        log + line
    } else {
        log + line + seq!['\n']
    }
}

/// The log after an entry that is set off from earlier text by a newline and ends
/// with one.
pub open spec fn with_entry(log: Seq<char>, text: Seq<char>) -> Seq<char> {
    if log.len() > 0 {
        log + seq!['\n'] + text + seq!['\n']
    } else {
        text + seq!['\n']
    }
}

/// The log after `text` is joined to it on a new line; an empty log becomes `text`.
pub open spec fn joined(log: Seq<char>, text: Seq<char>) -> Seq<char> {
    if log.len() > 0 {
        log + seq!['\n'] + text
    } else {
        text
    }
}

fn push_char(log: &mut String, c: char)
    ensures
        final(log)@ == old(log)@.push(c),
{
    let v: Vec<char> = vec![c];
    let s = string_of(&v);
    log.append(s.as_str());
    assert(v@ =~= seq![c]);
}

/// Appends `line`, and a newline unless `line` already ends with one.
pub fn append_line(log: &mut String, line: &str)
    ensures
        final(log)@ == with_line(old(log)@, line@),
        old(log)@.is_prefix_of(final(log)@),
{
    let cs = chars_of(line);
    log.append(line);
    if !(cs.len() > 0 && cs[cs.len() - 1] == '\n') {
        push_char(log, '\n');
    }
    proof {
        lemma_concat_prefix(old(log)@, final(log)@.subrange(old(log)@.len() as int, final(log)@.len() as int));
        assert(final(log)@ =~= old(log)@ + final(log)@.subrange(old(log)@.len() as int, final(log)@.len() as int));
    }
}

/// `a` is a prefix of `a + b`.
pub proof fn lemma_concat_prefix(a: Seq<char>, b: Seq<char>)
    ensures
        a.is_prefix_of(a + b),
{
    assert((a + b).subrange(0, a.len() as int) =~= a);
}

/// Appends `line` and a newline (the log helper of the command runners).
pub fn push_line(log: &mut String, line: &str)
    ensures
        final(log)@ == old(log)@ + line@ + seq!['\n'],
        old(log)@.is_prefix_of(final(log)@),
{
    log.append(line);
    push_char(log, '\n');
    proof {
        lemma_concat_prefix(old(log)@, line@ + seq!['\n']);
        assert(final(log)@ =~= old(log)@ + (line@ + seq!['\n']));
    }
}

/// Appends `text` as an entry of its own: after a newline when the log already
/// holds text, and followed by a newline.
pub fn append_entry(log: &mut String, text: &str)
    ensures
        final(log)@ == with_entry(old(log)@, text@),
        old(log)@.is_prefix_of(final(log)@),
{
    if !log.as_str().is_empty() {
        push_char(log, '\n');
    }
    log.append(text);
    push_char(log, '\n');
    proof {
        if old(log)@.len() > 0 {
            lemma_concat_prefix(old(log)@, seq!['\n'] + text@ + seq!['\n']);
            assert(final(log)@ =~= old(log)@ + (seq!['\n'] + text@ + seq!['\n']));
        } else {
            assert(old(log)@ =~= Seq::<char>::empty());
            assert(final(log)@ =~= text@ + seq!['\n']);
        }
    }
}

/// Joins `text` to the log on a new line; an empty log is replaced by `text`.
pub fn append_joined(log: &mut String, text: &str)
    ensures
        final(log)@ == joined(old(log)@, text@),
        old(log)@.is_prefix_of(final(log)@),
{
    if !log.as_str().is_empty() {
        push_char(log, '\n');
    }
    log.append(text);
    proof {
        if old(log)@.len() > 0 {
            lemma_concat_prefix(old(log)@, seq!['\n'] + text@);
            assert(final(log)@ =~= old(log)@ + (seq!['\n'] + text@));
        } else {
            assert(old(log)@ =~= Seq::<char>::empty());
            assert(final(log)@ =~= text@);
        }
    }
}

} // verus!
