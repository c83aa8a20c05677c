//! Trimming of texts.

use vstd::prelude::*;

verus! {

/// The text from its first character on that `trimmed` does not hold of.
pub open spec fn trim_start(s: Seq<char>, trimmed: spec_fn(char) -> bool) -> Seq<char>
    decreases s.len(),
{
    if s.len() > 0 && trimmed(s[0]) {
        trim_start(s.skip(1), trimmed)
    } else {
        s
    }
}

/// The text up to its last character that `trimmed` does not hold of.
pub open spec fn trim_end(s: Seq<char>, trimmed: spec_fn(char) -> bool) -> Seq<char>
    decreases s.len(),
{
    if s.len() > 0 && trimmed(s.last()) {
        trim_end(s.drop_last(), trimmed)
    } else {
        s
    }
}

/// What is left after trimming at the end does not end in a trimmed character, and the text
/// goes on behind it with nothing else.
pub proof fn lemma_trim_end(s: Seq<char>, trimmed: spec_fn(char) -> bool)
    ensures
        trim_end(s, trimmed).len() <= s.len(),
        trim_end(s, trimmed) == s.take(trim_end(s, trimmed).len() as int),
        trim_end(s, trimmed).len() > 0 ==> !trimmed(trim_end(s, trimmed).last()),
        forall|i: int| trim_end(s, trimmed).len() <= i < s.len() ==> trimmed(#[trigger] s[i]),
        trim_end(trim_end(s, trimmed), trimmed) == trim_end(s, trimmed),
    decreases s.len(),
{
    if s.len() > 0 && trimmed(s.last()) {
        let rest = s.drop_last();
        lemma_trim_end(rest, trimmed);
        assert(rest.take(trim_end(rest, trimmed).len() as int) =~= s.take(
            trim_end(rest, trimmed).len() as int,
        ));
        assert forall|i: int| trim_end(s, trimmed).len() <= i < s.len() implies trimmed(
            #[trigger] s[i],
        ) by {
            if i < rest.len() {
                assert(rest[i] == s[i]);
            }
        }
    } else {
        assert(s.take(s.len() as int) =~= s);
    }
}

/// What is left after trimming at the start does not begin with a trimmed character, and
/// nothing else stood before it.
pub proof fn lemma_trim_start(s: Seq<char>, trimmed: spec_fn(char) -> bool)
    ensures
        trim_start(s, trimmed).len() <= s.len(),
        trim_start(s, trimmed) == s.skip(s.len() - trim_start(s, trimmed).len()),
        trim_start(s, trimmed).len() > 0 ==> !trimmed(trim_start(s, trimmed)[0]),
        forall|i: int|
            0 <= i < s.len() - trim_start(s, trimmed).len() ==> trimmed(#[trigger] s[i]),
        trim_start(trim_start(s, trimmed), trimmed) == trim_start(s, trimmed),
    decreases s.len(),
{
    if s.len() > 0 && trimmed(s[0]) {
        let rest = s.skip(1);
        lemma_trim_start(rest, trimmed);
        let n = trim_start(rest, trimmed).len();
        assert(rest.skip(rest.len() - n) =~= s.skip(s.len() - n));
        assert forall|i: int| 0 <= i < s.len() - n implies trimmed(#[trigger] s[i]) by {
            if i > 0 {
                assert(rest[i - 1] == s[i]);
            }
        }
    } else {
        assert(s.skip(0) =~= s);
    }
}

/// Carriage return or line feed.
pub open spec fn is_line_end(c: char) -> bool {
    c == '\r' || c == '\n'
}

/// A log line without the line ends behind it.
pub open spec fn line_text(line: Seq<char>) -> Seq<char> {
    trim_end(line, |c: char| is_line_end(c))
}

/// A log line without the line ends behind it.
pub fn trim_line_end<'a>(line: &'a str) -> (r: &'a str)
    ensures
        r@ == line_text(line@),
{
    let mut end: usize = line.unicode_len();
    assert(line@.take(end as int) =~= line@);
    while end > 0
        invariant_except_break
            end <= line@.len(),
            line_text(line@) == line_text(line@.take(end as int)),
        ensures
            end <= line@.len(),
            line_text(line@) == line@.take(end as int),
        decreases end,
    {
        let c = line.get_char(end - 1);
        assert(line@.take(end as int).last() == c);
        if c != '\r' && c != '\n' {
            break;
        }
        assert(line@.take(end as int).drop_last() =~= line@.take(end - 1));
        end = end - 1;
    }
    line.substring_char(0, end)
}

/// An opening or closing square bracket.
pub open spec fn is_bracket(c: char) -> bool {
    c == '[' || c == ']'
}

/// A host without the square brackets around it.
pub open spec fn without_brackets(host: Seq<char>) -> Seq<char> {
    trim_end(trim_start(host, |c: char| is_bracket(c)), |c: char| is_bracket(c))
}

/// A host without the square brackets around it, which an address literal has in a URL.
pub fn trim_brackets<'a>(host: &'a str) -> (r: &'a str)
    ensures
        r@ == without_brackets(host@),
{
    let len: usize = host.unicode_len();
    let mut start: usize = 0;
    assert(host@.skip(0) =~= host@);
    while start < len
        invariant_except_break
            start <= len == host@.len(),
            trim_start(host@, |c: char| is_bracket(c)) == trim_start(
                host@.skip(start as int),
                |c: char| is_bracket(c),
            ),
        ensures
            start <= len == host@.len(),
            trim_start(host@, |c: char| is_bracket(c)) == host@.skip(start as int),
        decreases len - start,
    {
        let c = host.get_char(start);
        assert(host@.skip(start as int)[0] == c);
        if c != '[' && c != ']' {
            break;
        }
        assert(host@.skip(start as int).skip(1) =~= host@.skip(start + 1));
        start = start + 1;
    }
    let mut end: usize = len;
    let ghost inner = host@.skip(start as int);
    assert(inner.take(inner.len() as int) =~= inner);
    while end > start
        invariant_except_break
            start <= end <= host@.len(),
            inner == host@.skip(start as int),
            without_brackets(host@) == trim_end(
                inner.take(end - start),
                |c: char| is_bracket(c),
            ),
        ensures
            start <= end <= host@.len(),
            without_brackets(host@) == inner.take(end - start),
        decreases end - start,
    {
        let c = host.get_char(end - 1);
        assert(inner.take(end - start).last() == c);
        if c != '[' && c != ']' {
            break;
        }
        assert(inner.take(end - start).drop_last() =~= inner.take(end - 1 - start));
        end = end - 1;
    }
    assert(host@.subrange(start as int, end as int) =~= inner.take(end - start));
    host.substring_char(start, end)
}

/// Trimming a log line takes away nothing but line ends, all of them behind the text, and
/// trimming again changes nothing.
pub proof fn lemma_line_text(line: Seq<char>)
    ensures
        line_text(line) == line.take(line_text(line).len() as int),
        line_text(line).len() > 0 ==> !is_line_end(line_text(line).last()),
        forall|i: int| line_text(line).len() <= i < line.len() ==> is_line_end(#[trigger] line[i]),
        line_text(line_text(line)) == line_text(line),
{
    lemma_trim_end(line, |c: char| is_line_end(c));
}

/// A host has no square bracket at either end once they are trimmed.
pub proof fn lemma_without_brackets(host: Seq<char>)
    ensures
        without_brackets(host).len() > 0 ==> !is_bracket(without_brackets(host)[0]),
        without_brackets(host).len() > 0 ==> !is_bracket(without_brackets(host).last()),
{
    let inner = trim_start(host, |c: char| is_bracket(c));
    lemma_trim_start(host, |c: char| is_bracket(c));
    lemma_trim_end(inner, |c: char| is_bracket(c));
}

/// A text whose last character is no line end comes out whole in front of any number of line
/// ends; line ends alone leave nothing.
pub proof fn lemma_line_in_front_of_line_ends(text: Seq<char>, ends: Seq<char>)
    requires
        text.len() > 0 ==> text.last() != '\r' && text.last() != '\n',
        forall|i: int| 0 <= i < ends.len() ==> #[trigger] ends[i] == '\r' || ends[i] == '\n',
    ensures
        line_text(text + ends) == text,
    decreases ends.len(),
{
    if ends.len() > 0 {
        assert((text + ends).last() == ends.last());
        assert((text + ends).drop_last() =~= text + ends.drop_last());
        assert forall|i: int| 0 <= i < ends.drop_last().len() implies #[trigger] ends.drop_last()[i]
            == '\r' || ends.drop_last()[i] == '\n' by {
            assert(ends.drop_last()[i] == ends[i]);
        }
        lemma_line_in_front_of_line_ends(text, ends.drop_last());
    } else {
        assert(text + ends =~= text);
    }
}

/// A host with no bracket at either end comes out whole from between any number of brackets,
/// with those inside it; brackets alone leave nothing.
pub proof fn lemma_host_between_brackets(front: Seq<char>, host: Seq<char>, back: Seq<char>)
    requires
        forall|i: int| 0 <= i < front.len() ==> #[trigger] front[i] == '[' || front[i] == ']',
        forall|i: int| 0 <= i < back.len() ==> #[trigger] back[i] == '[' || back[i] == ']',
        host.len() > 0 ==> host[0] != '[' && host[0] != ']',
        host.len() > 0 ==> host.last() != '[' && host.last() != ']',
    ensures
        without_brackets(front + host + back) == host,
    decreases front.len() + back.len(),
{
    let whole = front + host + back;
    if front.len() > 0 {
        let rest = front.skip(1);
        assert(whole[0] == front[0]);
        assert(whole.skip(1) =~= rest + host + back);
        assert forall|i: int| 0 <= i < rest.len() implies #[trigger] rest[i] == '[' || rest[i]
            == ']' by {
            assert(rest[i] == front[i + 1]);
        }
        lemma_host_between_brackets(rest, host, back);
    } else if host.len() == 0 && back.len() > 0 {
        let rest = back.skip(1);
        assert(whole[0] == back[0]);
        assert(whole.skip(1) =~= front + host + rest);
        assert forall|i: int| 0 <= i < rest.len() implies #[trigger] rest[i] == '[' || rest[i]
            == ']' by {
            assert(rest[i] == back[i + 1]);
        }
        lemma_host_between_brackets(front, host, rest);
    } else {
        assert(whole =~= host + back);
        if host.len() > 0 {
            assert(whole[0] == host[0]);
        }
        assert(trim_start(whole, |c: char| is_bracket(c)) == whole);
        lemma_trim_end_of(host, back);
    }
}

proof fn lemma_trim_end_of(host: Seq<char>, back: Seq<char>)
    requires
        forall|i: int| 0 <= i < back.len() ==> #[trigger] back[i] == '[' || back[i] == ']',
        host.len() > 0 ==> host.last() != '[' && host.last() != ']',
    ensures
        trim_end(host + back, |c: char| is_bracket(c)) == host,
    decreases back.len(),
{
    if back.len() > 0 {
        let rest = back.drop_last();
        assert((host + back).last() == back.last());
        assert((host + back).drop_last() =~= host + rest);
        assert forall|i: int| 0 <= i < rest.len() implies #[trigger] rest[i] == '[' || rest[i]
            == ']' by {
            assert(rest[i] == back[i]);
        }
        lemma_trim_end_of(host, rest);
    } else {
        assert(host + back =~= host);
    }
}

} // verus!
