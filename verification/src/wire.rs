//! The in-memory model of the helper's reply stream: a line-buffered reader
//! over scripted text, with the two read shapes the protocol needs ("one
//! line" and "exactly two characters"), and the small line helpers shared by
//! the processor.

use vstd::prelude::*;
use vstd::string::StrSliceExecFns;

verus! {

/// The first line of `s` (up to and including its newline, or all of `s` if
/// no newline is left) paired with the rest of `s`.
pub open spec fn spec_read_line(s: Seq<char>) -> (Seq<char>, Seq<char>)
    decreases s.len(),
{
    if s.len() == 0 {
        (Seq::empty(), Seq::empty())
    } else if s[0] == '\n' {
        (seq!['\n'], s.skip(1))
    } else {
        let (l, r) = spec_read_line(s.skip(1));
        (seq![s[0]] + l, r)
    }
}

/// The first two characters of `s` (fewer if the stream is shorter) paired
/// with the rest of `s`.
pub open spec fn spec_take_two(s: Seq<char>) -> (Seq<char>, Seq<char>) {
    let m = if s.len() < 2 {
        s.len() as int
    } else {
        2
    };
    (s.take(m), s.skip(m))
}

/// `s` with one trailing newline removed, if it has one.
pub open spec fn spec_trim_newl(s: Seq<char>) -> Seq<char> {
    if s.len() > 0 && s[s.len() - 1] == '\n' {
        s.drop_last()
    } else {
        s
    }
}

/// Whether a reply line is the plain success reply, with or without its
/// trailing newline.
pub open spec fn spec_is_ok_line(s: Seq<char>) -> bool {
    s == seq!['O', 'K'] || s == seq!['O', 'K', '\n']
}

/// If the first `k` characters of `s` are not newlines, `spec_read_line`
/// splits `s` right after position `k` (or returns all of `s` when `k` is
/// its length).
proof fn lemma_read_line_at(s: Seq<char>, k: int)
    requires
        0 <= k <= s.len(),
        forall|j: int| 0 <= j < k ==> s[j] != '\n',
        k < s.len() ==> s[k] == '\n',
    ensures
        k < s.len() ==> spec_read_line(s).0 == s.take(k + 1) && spec_read_line(s).1 == s.skip(
            k + 1,
        ),
        k == s.len() ==> spec_read_line(s).0 == s && spec_read_line(s).1 == Seq::<char>::empty(),
    decreases k,
{
    if k == 0 {
        if s.len() == 0 {
            assert(spec_read_line(s).0 =~= s);
        } else {
            assert(spec_read_line(s).0 =~= s.take(1));
        }
    } else {
        let t = s.skip(1);
        lemma_read_line_at(t, k - 1);
        if k < s.len() {
            assert(spec_read_line(s).0 =~= s.take(k + 1));
            assert(spec_read_line(s).1 =~= s.skip(k + 1));
        } else {
            assert(spec_read_line(s).0 =~= s);
        }
    }
}

/// A line-buffered reader over a scripted reply stream, the in-memory stand-in
/// for the helper's output pipe.
pub struct ReplyReader {
    data: String,
    pos: usize,
}

impl ReplyReader {
    /// The reader's position has not run past the end of its script.
    pub closed spec fn wf(&self) -> bool {
        self.pos <= self.data@.len()
    }

    /// The characters not yet consumed.
    pub closed spec fn remaining(&self) -> Seq<char> {
        self.data@.skip(self.pos as int)
    }

    /// A reader over the whole of `script`.
    pub fn new(script: String) -> (r: ReplyReader)
        ensures
            r.wf(),
            r.remaining() == script@,
    {
        let r = ReplyReader { data: script, pos: 0 };
        proof {
            assert(r.remaining() =~= r.data@);
        }
        r
    }

    /// The characters not yet consumed, as a string.
    pub fn rest(&self) -> (r: String)
        requires
            self.wf(),
        ensures
            r@ == self.remaining(),
    {
        let n = self.data.as_str().unicode_len();
        self.data.as_str().substring_char(self.pos, n).to_owned()
    }

    /// Read up to and including the next newline; at the end of the stream
    /// the line is what is left (possibly empty).
    pub fn read_line(&mut self) -> (l: String)
        requires
            old(self).wf(),
        ensures
            final(self).wf(),
            l@ == spec_read_line(old(self).remaining()).0,
            final(self).remaining() == spec_read_line(old(self).remaining()).1,
    {
        let n = self.data.as_str().unicode_len();
        let mut i = self.pos;
        while i < n && self.data.as_str().get_char(i) != '\n'
            invariant
                self.pos <= i <= n == self.data@.len(),
                forall|j: int| self.pos <= j < i ==> self.data@[j] != '\n',
            decreases n - i,
        {
            i = i + 1;
        }
        let end = if i < n {
            i + 1
        } else {
            n
        };
        let l = self.data.as_str().substring_char(self.pos, end).to_owned();
        proof {
            let rem = self.remaining();
            let k = i - self.pos;
            assert(forall|j: int| 0 <= j < k ==> rem[j] == self.data@[self.pos + j]);
            lemma_read_line_at(rem, k);
            if i < n {
                assert(l@ =~= rem.take(k + 1));
                assert(self.data@.skip(end as int) =~= rem.skip(k + 1));
            } else {
                assert(l@ =~= rem);
                assert(self.data@.skip(end as int) =~= Seq::<char>::empty());
            }
        }
        self.pos = end;
        l
    }

    /// Read the next two characters, or fewer if the stream ends first.
    pub fn read_two(&mut self) -> (t: String)
        requires
            old(self).wf(),
        ensures
            final(self).wf(),
            t@ == spec_take_two(old(self).remaining()).0,
            final(self).remaining() == spec_take_two(old(self).remaining()).1,
    {
        let n = self.data.as_str().unicode_len();
        let rem = n - self.pos;
        let step = if rem < 2 {
            rem
        } else {
            2
        };
        let end = self.pos + step;
        let t = self.data.as_str().substring_char(self.pos, end).to_owned();
        proof {
            let r0 = self.remaining();
            assert(t@ =~= spec_take_two(r0).0);
            assert(self.data@.skip(end as int) =~= spec_take_two(r0).1);
        }
        self.pos = end;
        t
    }
}

/// Strip one trailing newline from a line, if it carries one.
pub fn trim_newl(s: String) -> (r: String)
    ensures
        r@ == spec_trim_newl(s@),
{
    let n = s.as_str().unicode_len();
    if n > 0 && s.as_str().get_char(n - 1) == '\n' {
        let r = s.as_str().substring_char(0, n - 1).to_owned();
        proof {
            assert(r@ =~= spec_trim_newl(s@));
        }
        r
    } else {
        s
    }
}

/// Whether `l` is the plain success reply.
pub fn line_is_ok(l: &String) -> (ok: bool)
    ensures
        ok == spec_is_ok_line(l@),
{
    let n = l.as_str().unicode_len();
    if n == 2 {
        let ok = l.as_str().get_char(0) == 'O' && l.as_str().get_char(1) == 'K';
        proof {
            if ok {
                assert(l@ =~= seq!['O', 'K']);
            }
        }
        ok
    } else if n == 3 {
        let ok = l.as_str().get_char(0) == 'O' && l.as_str().get_char(1) == 'K' && l.as_str()
            .get_char(2) == '\n';
        proof {
            if ok {
                assert(l@ =~= seq!['O', 'K', '\n']);
            }
        }
        ok
    } else {
        false
    }
}

/// Whether the helper's startup banner line announces success.
pub fn banner_line_ok(l: &String) -> (r: bool)
    ensures
        r == (l@.len() >= 2 && l@.subrange(0, 2) == seq!['O', 'K']),
{
    let n = l.as_str().unicode_len();
    if n >= 2 {
        let r = l.as_str().get_char(0) == 'O' && l.as_str().get_char(1) == 'K';
        proof {
            if r {
                assert(l@.subrange(0, 2) =~= seq!['O', 'K']);
            } else {
                assert(l@.subrange(0, 2)[0] == l@[0] && l@.subrange(0, 2)[1] == l@[1]);
            }
        }
        r
    } else {
        false
    }
}

/// Read one reply line into `l` and say whether it is the plain success
/// reply.
pub fn read_line_is_ok(reader: &mut ReplyReader, l: &mut String) -> (ok: bool)
    requires
        old(reader).wf(),
    ensures
        final(reader).wf(),
        final(l)@ == spec_read_line(old(reader).remaining()).0,
        final(reader).remaining() == spec_read_line(old(reader).remaining()).1,
        ok == spec_is_ok_line(final(l)@),
{
    *l = reader.read_line();
    line_is_ok(l)
}

} // verus!
