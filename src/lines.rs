use vstd::prelude::*;
use vstd::string::StrSliceExecFns;

verus! {

/// What trimming leading and trailing whitespace leaves of a text.
pub uninterp spec fn trimmed(s: Seq<char>) -> Seq<char>;

/// Relies on `str::trim`: the text with its leading and trailing
/// whitespace removed, which depends on the text alone.
#[verifier::external_body]
fn trim(s: &str) -> (r: &str)
    ensures
        r@ == trimmed(s@),
{
    s.trim()
}

/// The text with one final newline, if it has one, removed.
pub open spec fn without_final_newline(t: Seq<char>) -> Seq<char> {
    if t.len() > 0 && t.last() == '\n' {
        t.drop_last()
    } else {
        t
    }
}

/// Everything after the last newline of `t` (all of `t` when it has none).
pub open spec fn after_last_newline(t: Seq<char>) -> Seq<char>
    decreases t.len(),
{
    if t.len() == 0 {
        t
    } else if t.last() == '\n' {
        Seq::empty()
    } else {
        after_last_newline(t.drop_last()).push(t.last())
    }
}

/// The last newline-delimited line of a text; a final newline ends that
/// line rather than starting an empty one.
pub open spec fn last_line(t: Seq<char>) -> Seq<char> {
    after_last_newline(without_final_newline(t))
}

/// The latest message of a newline-delimited stream: its last line,
/// trimmed of surrounding whitespace.
pub fn latest_line(text: &str) -> (r: String)
    ensures
        r@ == trimmed(last_line(text@)),
{
    let line = last_line_of(text);
    trim(line.as_str()).to_owned()
}

/// The last newline-delimited line of `text`, as it stands.
pub fn last_line_of(text: &str) -> (r: String)
    ensures
        r@ == last_line(text@),
{
    let t = Ghost(text@);
    let len = text.unicode_len();
    let mut end = len;
    if end > 0 && text.get_char(end - 1) == '\n' {
        end = end - 1;
    }
    assert(t@.subrange(0, end as int) =~= without_final_newline(t@));
    let mut start = end;
    while start > 0 && text.get_char(start - 1) != '\n'
        invariant
            start <= end <= t@.len(),
            t@ == text@,
            after_last_newline(t@.subrange(0, end as int))
                == after_last_newline(t@.subrange(0, start as int)) + t@.subrange(
                start as int,
                end as int,
            ),
        decreases start,
    {
        let ghost prefix = t@.subrange(0, start as int);
        assert(prefix.drop_last() =~= t@.subrange(0, start - 1));
        assert(t@.subrange(start - 1, end as int) =~= seq![prefix.last()] + t@.subrange(
            start as int,
            end as int,
        ));
        assert(after_last_newline(prefix) == after_last_newline(t@.subrange(0, start - 1)).push(
            prefix.last(),
        ));
        assert(after_last_newline(t@.subrange(0, start - 1)).push(prefix.last()) + t@.subrange(
            start as int,
            end as int,
        ) =~= after_last_newline(t@.subrange(0, start - 1)) + t@.subrange(start - 1, end as int));
        start = start - 1;
    }
    let ghost prefix = t@.subrange(0, start as int);
    assert(after_last_newline(prefix) =~= Seq::<char>::empty());
    assert(after_last_newline(t@.subrange(0, end as int)) =~= t@.subrange(
        start as int,
        end as int,
    ));
    text.substring_char(start, end).to_owned()
}

} // verus!
