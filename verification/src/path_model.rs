//! A plain model of a filesystem path, as the view builder reads one: an
//! ordered sequence of segments, each either text or marked as non-text
//! (a component whose bytes are not valid UTF-8), plus whether the path
//! starts at the filesystem root. The caller that owns the real path
//! converts it into this model; every rule about names and parents is then
//! stated and checked over plain values.

use vstd::prelude::*;

verus! {

/// A filesystem path as the library models it. A segment holds `None` when
/// the underlying component is not valid text.
#[derive(Clone, Debug)]
pub struct RepoPath {
    /// True when the path starts at the filesystem root.
    pub rooted: bool,
    /// The path's components in order, without separators.
    pub segments: Vec<Option<String>>,
}

/// All of the first `k` segments are text.
pub open spec fn segments_text(segs: Seq<Option<String>>, k: int) -> bool {
    forall|i: int| 0 <= i < k ==> segs[i] is Some
}

/// The first `k` segments joined with `/` between them (no leading `/`).
pub open spec fn spec_joined(segs: Seq<Option<String>>, k: int) -> Seq<char>
    decreases k,
{
    if k <= 0 {
        Seq::<char>::empty()
    } else if k == 1 {
        segs[0]->0@
    } else {
        spec_joined(segs, k - 1) + seq!['/'] + segs[k - 1]->0@
    }
}

/// The text of the path truncated to its first `k` segments: a leading `/`
/// when the path is rooted, then the segments joined with `/`.
pub open spec fn spec_path_text(rooted: bool, segs: Seq<Option<String>>, k: int) -> Seq<char> {
    if rooted {
        seq!['/'] + spec_joined(segs, k)
    } else {
        spec_joined(segs, k)
    }
}

impl RepoPath {
    /// The path has a final segment to name the repository after.
    pub open spec fn has_name(&self) -> bool {
        self.segments@.len() > 0
    }

    /// The final segment, which names the repository.
    pub open spec fn spec_name(&self) -> Option<String>
        recommends
            self.has_name(),
    {
        self.segments@.last()
    }

    /// Every segment of the parent (all but the last) is text.
    pub open spec fn parent_is_text(&self) -> bool {
        segments_text(self.segments@, self.segments@.len() - 1)
    }

    /// The text of the parent directory: the path without its final segment.
    pub open spec fn spec_parent_text(&self) -> Seq<char>
        recommends
            self.has_name(),
            self.parent_is_text(),
    {
        spec_path_text(self.rooted, self.segments@, self.segments@.len() - 1)
    }

    /// Every segment is text, so the whole path has a text form.
    pub open spec fn is_text(&self) -> bool {
        segments_text(self.segments@, self.segments@.len() as int)
    }

    /// The text of the whole path.
    pub open spec fn spec_text(&self) -> Seq<char>
        recommends
            self.is_text(),
    {
        spec_path_text(self.rooted, self.segments@, self.segments@.len() as int)
    }

    /// Join the first `k` segments into one text path.
    fn join_first(&self, k: usize) -> (r: String)
        requires
            k <= self.segments@.len(),
            segments_text(self.segments@, k as int),
        ensures
            r@ == spec_path_text(self.rooted, self.segments@, k as int),
    {
        let mut s = String::new();
        if self.rooted {
            s.append("/");
            proof {
                reveal_strlit("/");
                assert(s@ =~= seq!['/']);
            }
        }
        let ghost segs = self.segments@;
        let mut i: usize = 0;
        while i < k
            invariant
                i <= k <= segs.len(),
                segs == self.segments@,
                segments_text(segs, k as int),
                s@ == spec_path_text(self.rooted, segs, i as int),
            decreases k - i,
        {
            if i > 0 {
                s.append("/");
                proof {
                    reveal_strlit("/");
                }
            }
            match &self.segments[i] {
                Some(seg) => {
                    s.append(seg.as_str());
                },
                None => {
                    proof {
                        assert(segs[i as int] is Some);
                    }
                },
            }
            proof {
                reveal_strlit("/");
                assert("/"@ =~= seq!['/']);
                if i == 0 {
                    assert(spec_joined(segs, 1) == segs[0]->0@);
                    assert(s@ =~= spec_path_text(self.rooted, segs, 1));
                } else {
                    assert(spec_joined(segs, i + 1) == spec_joined(segs, i as int) + seq!['/']
                        + segs[i as int]->0@);
                    assert(s@ =~= spec_path_text(self.rooted, segs, i + 1));
                }
            }
            i = i + 1;
        }
        s
    }

    /// The text of the whole path, or `None` when a segment is not text.
    pub fn to_text(&self) -> (r: Option<String>)
        ensures
            r is Some <==> self.is_text(),
            r matches Some(t) ==> t@ == self.spec_text(),
    {
        let n = self.segments.len();
        let mut i: usize = 0;
        while i < n
            invariant
                i <= n == self.segments@.len(),
                segments_text(self.segments@, i as int),
            decreases n - i,
        {
            if self.segments[i].is_none() {
                return None;
            }
            i = i + 1;
        }
        Some(self.join_first(n))
    }

    /// The text of the parent directory, or `None` when the path has no
    /// parent or a parent segment is not text.
    pub fn parent_text(&self) -> (r: Option<String>)
        requires
            self.has_name(),
        ensures
            r is Some <==> self.parent_is_text(),
            r matches Some(t) ==> t@ == self.spec_parent_text(),
    {
        let n = self.segments.len() - 1;
        let mut i: usize = 0;
        while i < n
            invariant
                i <= n == self.segments@.len() - 1,
                segments_text(self.segments@, i as int),
            decreases n - i,
        {
            if self.segments[i].is_none() {
                return None;
            }
            i = i + 1;
        }
        Some(self.join_first(n))
    }
}

} // verus!
