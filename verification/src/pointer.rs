//! The pointer trail: a fixed-length history of pointer positions, newest
//! first, each entry either a position on the surface or a sentinel.

use vstd::prelude::*;

verus! {

/// One entry of the pointer trail. A position is kept exactly, as the raw
/// pixel coordinates together with the surface size they were measured
/// against: the normalized position handed to the shader is the ratio
/// `px / width`, `py / height`. The sentinel stands apart from every
/// position, so "no pointer present" needs no extra flag.
#[derive(Clone, Copy, PartialEq, Eq, Structural, Debug)]
pub enum PointerSample {
    /// No pointer on the surface.
    Absent,
    /// The pointer at surface-local pixel position (px, py) on a surface of
    /// size (width, height).
    At { px: u32, py: u32, width: u32, height: u32 },
}

impl PointerSample {
    /// Both normalized components lie in the unit interval: `px / width` is
    /// in [0, 1] exactly when 0 <= px <= width, and likewise for the y
    /// component. The sentinel has no position and the claim holds of it
    /// vacuously.
    pub open spec fn in_unit_square(self) -> bool {
        self matches PointerSample::At { px, py, width, height } ==> px <= width && py <= height
    }
}

/// The trail itself: always exactly as many entries as it was created with,
/// ordered newest first. A push puts the new sample in front and drops the
/// oldest entry.
#[derive(Clone, Debug)]
pub struct PointerTrail {
    entries: Vec<PointerSample>,
}

impl View for PointerTrail {
    type V = Seq<PointerSample>;

    closed spec fn view(&self) -> Seq<PointerSample> {
        self.entries@
    }
}

impl PointerTrail {
    /// What one push leaves behind: the sample in front of all old entries
    /// but the last.
    pub open spec fn spec_push(t: Seq<PointerSample>, s: PointerSample) -> Seq<PointerSample> {
        t.drop_last().insert(0, s)
    }

    /// A trail of `n` sentinel entries.
    pub fn new(n: usize) -> (r: PointerTrail)
        ensures
            r@.len() == n,
            forall|i: int| 0 <= i < n ==> r@[i] is Absent,
    {
        let mut entries: Vec<PointerSample> = Vec::new();
        let mut k: usize = 0;
        while k < n
            invariant
                k <= n,
                entries@.len() == k,
                forall|i: int| 0 <= i < k ==> entries@[i] is Absent,
            decreases n - k,
        {
            entries.push(PointerSample::Absent);
            k = k + 1;
        }
        PointerTrail { entries }
    }

    /// Resets every entry to the sentinel, keeping the length.
    pub fn reset(&mut self)
        ensures
            final(self)@.len() == old(self)@.len(),
            forall|i: int| 0 <= i < final(self)@.len() ==> final(self)@[i] is Absent,
    {
        let n = self.entries.len();
        let fresh = PointerTrail::new(n);
        self.entries = fresh.entries;
    }

    /// How many entries the trail holds.
    pub fn len(&self) -> (r: usize)
        ensures
            r == self@.len(),
    {
        self.entries.len()
    }

    /// Pushes a sample to the front and drops the oldest entry; the length
    /// never changes.
    pub fn push(&mut self, s: PointerSample)
        requires
            old(self)@.len() >= 1,
        ensures
            final(self)@ == Self::spec_push(old(self)@, s),
            final(self)@.len() == old(self)@.len(),
            final(self)@[0] == s,
    {
        self.entries.pop();
        self.entries.insert(0, s);
        proof {
            assert(self@ =~= Self::spec_push(old(self)@, s));
        }
    }

    /// The entries, newest first, for handing to the uniform upload.
    pub fn entries(&self) -> (r: &Vec<PointerSample>)
        ensures
            r@ == self@,
    {
        &self.entries
    }

    /// A push keeps the length of any non-empty trail: the trail made with
    /// `n` entries holds exactly `n` entries after every push.
    pub proof fn lemma_push_preserves_len(t: Seq<PointerSample>, s: PointerSample)
        requires
            t.len() >= 1,
        ensures
            Self::spec_push(t, s).len() == t.len(),
            Self::spec_push(t, s)[0] == s,
    {
    }

    /// A push keeps every entry but the last, each moved one place back.
    pub proof fn lemma_push_shifts(t: Seq<PointerSample>, s: PointerSample)
        requires
            t.len() >= 1,
        ensures
            forall|i: int| 0 <= i < t.len() - 1 ==> Self::spec_push(t, s)[i + 1] == t[i],
    {
    }
}

} // verus!
