//! The path sub-editor and the working-directory rules of the `cd` flow.
//!
//! A path under edit is an ordered list of segments, each a list of
//! characters; a slash starts a new segment.  Committing the editor applies
//! its segments to the working directory: `..` pops one component (a no-op
//! on an empty directory, never an underflow), any other nonempty segment is
//! pushed as a new component.

use vstd::prelude::*;

use crate::text::{chars_to_string, string_push};

verus! {

/// A path under edit.
pub struct PathEditor {
    pub segments: Vec<Vec<char>>,
}

impl View for PathEditor {
    type V = Seq<Seq<char>>;

    open spec fn view(&self) -> Seq<Seq<char>> {
        self.segments.deep_view()
    }
}

/// True when nothing has been typed: the cursor is still at the editor's
/// home position.
pub open spec fn spec_path_at_home(segs: Seq<Seq<char>>) -> bool {
    segs.len() == 0 || (segs.len() == 1 && segs[0].len() == 0)
}

/// A segmented line editor's content after one character of input: the
/// delimiter starts a new segment, anything else lands in the last one.
pub open spec fn spec_seg_send_char(segs: Seq<Seq<char>>, delim: char, c: char) -> Seq<
    Seq<char>,
> {
    let segs = if segs.len() == 0 {
        seq![Seq::<char>::empty()]
    } else {
        segs
    };
    if c == delim {
        segs.push(Seq::<char>::empty())
    } else {
        segs.update(segs.len() - 1, segs.last().push(c))
    }
}

/// A segmented line editor's content after one backspace.
pub open spec fn spec_seg_backspace(segs: Seq<Seq<char>>) -> Seq<Seq<char>> {
    if segs.len() == 0 {
        segs
    } else if segs.last().len() > 0 {
        segs.update(segs.len() - 1, segs.last().drop_last())
    } else {
        segs.drop_last()
    }
}

/// The path editor's content after one character of input.
pub open spec fn spec_path_send_char(segs: Seq<Seq<char>>, c: char) -> Seq<Seq<char>> {
    spec_seg_send_char(segs, '/', c)
}

/// The path editor's content after one backspace.
pub open spec fn spec_path_backspace(segs: Seq<Seq<char>>) -> Seq<Seq<char>> {
    spec_seg_backspace(segs)
}

impl PathEditor {
    /// A fresh, empty path editor, its cursor at home.
    pub fn new() -> (r: PathEditor)
        ensures
            r@ == Seq::<Seq<char>>::empty(),
    {
        let r = PathEditor { segments: Vec::new() };
        proof {
            assert(r@ =~~= Seq::<Seq<char>>::empty());
        }
        r
    }

    /// True when nothing has been typed since the editor was opened.
    pub fn at_home(&self) -> (r: bool)
        ensures
            r == spec_path_at_home(self@),
    {
        self.segments.len() == 0 || (self.segments.len() == 1 && self.segments[0].len() == 0)
    }

    /// Routes one typed character into the editor.
    pub fn send_char(&mut self, c: char)
        ensures
            final(self)@ == spec_path_send_char(old(self)@, c),
    {
        if self.segments.len() == 0 {
            self.segments.push(Vec::new());
            proof {
                assert(self@ =~~= seq![Seq::<char>::empty()]);
            }
        }
        let ghost ens = self@;
        let n = self.segments.len();
        if c == '/' {
            self.segments.push(Vec::new());
            proof {
                assert(self@ =~~= ens.push(Seq::<char>::empty()));
            }
        } else {
            self.segments[n - 1].push(c);
            proof {
                assert(self@ =~~= ens.update(ens.len() - 1, ens.last().push(c)));
            }
        }
    }

    /// Removes the last character, or the segment slot it would have been in.
    pub fn backspace(&mut self)
        ensures
            final(self)@ == spec_path_backspace(old(self)@),
    {
        let n = self.segments.len();
        if n == 0 {
            return ;
        }
        if self.segments[n - 1].len() > 0 {
            self.segments[n - 1].pop();
            proof {
                assert(self@ =~~= old(self)@.update(
                    old(self)@.len() - 1,
                    old(self)@.last().drop_last(),
                ));
            }
        } else {
            self.segments.pop();
            proof {
                assert(self@ =~~= old(self)@.drop_last());
            }
        }
    }

    /// Discards everything typed, returning the editor to home.
    pub fn clear(&mut self)
        ensures
            final(self)@ == Seq::<Seq<char>>::empty(),
    {
        self.segments.clear();
        proof {
            assert(self@ =~~= Seq::<Seq<char>>::empty());
        }
    }
}

/// The editor content after typing a whole line into a fresh path editor:
/// how a textual path splits into its segments.
pub open spec fn spec_parse_path(s: Seq<char>) -> Seq<Seq<char>>
    decreases s.len(),
{
    if s.len() == 0 {
        Seq::empty()
    } else {
        spec_path_send_char(spec_parse_path(s.drop_last()), s.last())
    }
}

/// Splits a textual path into its segments by typing it into a fresh path
/// editor.
pub fn parse_path(s: &str) -> (r: PathEditor)
    ensures
        r@ == spec_parse_path(s@),
{
    let mut pe = PathEditor::new();
    let n = s.unicode_len();
    let mut i: usize = 0;
    proof {
        assert(s@.take(0) =~~= Seq::<char>::empty());
    }
    while i < n
        invariant
            n == s@.len(),
            i <= n,
            pe@ == spec_parse_path(s@.take(i as int)),
        decreases n - i,
    {
        pe.send_char(s.get_char(i));
        i += 1;
        proof {
            assert(s@.take(i as int).drop_last() =~~= s@.take(i as int - 1));
            assert(s@.take(i as int).last() == s@[i as int - 1]);
        }
    }
    proof {
        assert(s@.take(n as int) =~~= s@);
    }
    pe
}

/// One committed path segment applied to a working directory: empty segments
/// change nothing, `..` pops the last component when there is one (and is a
/// defined no-op on an empty directory), anything else is pushed.
pub open spec fn spec_apply_segment(cwd: Seq<Seq<char>>, seg: Seq<char>) -> Seq<Seq<char>> {
    if seg.len() == 0 {
        cwd
    } else if seg == seq!['.', '.'] {
        if cwd.len() == 0 {
            cwd
        } else {
            cwd.drop_last()
        }
    } else {
        cwd.push(seg)
    }
}

/// A whole committed path applied to a working directory, segment by
/// segment from the left.
pub open spec fn spec_apply_cd(cwd: Seq<Seq<char>>, segs: Seq<Seq<char>>) -> Seq<Seq<char>>
    decreases segs.len(),
{
    if segs.len() == 0 {
        cwd
    } else {
        spec_apply_cd(spec_apply_segment(cwd, segs[0]), segs.drop_first())
    }
}

proof fn lemma_apply_cd_skip(cwd: Seq<Seq<char>>, segs: Seq<Seq<char>>, j: int)
    requires
        0 <= j < segs.len(),
    ensures
        spec_apply_cd(cwd, segs.skip(j)) == spec_apply_cd(
            spec_apply_segment(cwd, segs[j]),
            segs.skip(j + 1),
        ),
{
    assert(segs.skip(j)[0] == segs[j]);
    assert(segs.skip(j).drop_first() =~~= segs.skip(j + 1));
}

/// Applies the committed path segments to the working directory.
pub fn apply_cd(cwd: &mut Vec<String>, segments: &Vec<Vec<char>>)
    ensures
        final(cwd).deep_view() == spec_apply_cd(old(cwd).deep_view(), segments.deep_view()),
{
    let n = segments.len();
    let mut j: usize = 0;
    proof {
        assert(segments.deep_view().skip(0) =~~= segments.deep_view());
    }
    while j < n
        invariant
            n == segments.deep_view().len(),
            j <= n,
            spec_apply_cd(old(cwd).deep_view(), segments.deep_view()) == spec_apply_cd(
                cwd.deep_view(),
                segments.deep_view().skip(j as int),
            ),
        decreases n - j,
    {
        proof {
            lemma_apply_cd_skip(cwd.deep_view(), segments.deep_view(), j as int);
        }
        let seg = &segments[j];
        proof {
            assert(seg.deep_view() == segments.deep_view()[j as int]);
            assert(seg.deep_view() =~~= seg@);
        }
        if seg.len() == 0 {
            // an empty segment changes nothing
        } else if seg.len() == 2 && seg[0] == '.' && seg[1] == '.' {
            proof {
                assert(seg@ =~~= seq!['.', '.']);
            }
            if cwd.len() > 0 {
                let ghost pre = cwd.deep_view();
                cwd.pop();
                proof {
                    assert(cwd.deep_view() =~~= pre.drop_last());
                }
            }
        } else {
            proof {
                assert(seg@ != seq!['.', '.']);
            }
            let ghost pre = cwd.deep_view();
            let s = chars_to_string(seg);
            cwd.push(s);
            proof {
                assert(cwd.deep_view() =~~= pre.push(seg@));
            }
        }
        j += 1;
    }
    proof {
        assert(segments.deep_view().skip(n as int) =~~= Seq::<Seq<char>>::empty());
    }
}

/// The textual form of a working directory: each component followed by one
/// separating slash.
pub open spec fn spec_cwd_string(segs: Seq<Seq<char>>) -> Seq<char>
    decreases segs.len(),
{
    if segs.len() == 0 {
        Seq::empty()
    } else {
        segs[0] + seq!['/'] + spec_cwd_string(segs.drop_first())
    }
}

proof fn lemma_cwd_string_skip(segs: Seq<Seq<char>>, j: int)
    requires
        0 <= j < segs.len(),
    ensures
        spec_cwd_string(segs.skip(j)) == segs[j] + seq!['/'] + spec_cwd_string(segs.skip(j + 1)),
{
    assert(segs.skip(j)[0] == segs[j]);
    assert(segs.skip(j).drop_first() =~~= segs.skip(j + 1));
}

/// Renders a working directory as text, one trailing slash per component.
pub fn cwd_string_of(segs: &Vec<String>) -> (r: String)
    ensures
        r@ == spec_cwd_string(segs.deep_view()),
{
    let mut r = String::new();
    let n = segs.len();
    let mut j: usize = 0;
    proof {
        assert(segs.deep_view().skip(0) =~~= segs.deep_view());
        assert(r@ + spec_cwd_string(segs.deep_view()) =~~= spec_cwd_string(segs.deep_view()));
    }
    while j < n
        invariant
            n == segs.deep_view().len(),
            j <= n,
            spec_cwd_string(segs.deep_view()) == r@ + spec_cwd_string(
                segs.deep_view().skip(j as int),
            ),
        decreases n - j,
    {
        proof {
            lemma_cwd_string_skip(segs.deep_view(), j as int);
        }
        let ghost pre = r@;
        r.append(segs[j].as_str());
        string_push(&mut r, '/');
        proof {
            assert(r@ =~~= pre + segs.deep_view()[j as int] + seq!['/']);
            assert(pre + (segs.deep_view()[j as int] + seq!['/'] + spec_cwd_string(
                segs.deep_view().skip(j as int + 1),
            )) =~~= r@ + spec_cwd_string(segs.deep_view().skip(j as int + 1)));
        }
        j += 1;
    }
    proof {
        assert(segs.deep_view().skip(n as int) =~~= Seq::<Seq<char>>::empty());
        assert(r@ + spec_cwd_string(segs.deep_view().skip(n as int)) =~~= r@);
    }
    r
}

} // verus!
