use vstd::prelude::*;

verus! {

/// Frame counter of a sprite-sheet animation. The frame timer belongs to
/// the engine; each tick hands over whether it finished a period.
#[derive(Debug, Clone, Copy, PartialEq, Eq, Structural)]
pub struct AtlasAnimation {
    frame: usize,
    frame_count: usize,
    finished: bool,
}

impl AtlasAnimation {
    /// The frame to show.
    pub closed spec fn spec_frame(self) -> usize {
        self.frame
    }

    /// Number of frames in the sheet.
    pub closed spec fn spec_frame_count(self) -> usize {
        self.frame_count
    }

    /// Whether the last update finished a timer period.
    pub closed spec fn spec_changed(self) -> bool {
        self.finished
    }

    /// The frame lies within the sheet.
    pub closed spec fn wf(self) -> bool {
        self.frame < self.frame_count
    }

    /// In a well-formed animation the frame lies within the sheet.
    pub proof fn lemma_frame_in_sheet(self)
        requires
            self.wf(),
        ensures
            self.spec_frame() < self.spec_frame_count(),
    {
    }

    /// An animation of `frame_count` frames at its first frame.
    pub fn new(frame_count: usize) -> (r: AtlasAnimation)
        requires
            frame_count > 0,
        ensures
            r.wf(),
            r.spec_frame() == 0,
            r.spec_frame_count() == frame_count,
            !r.spec_changed(),
    {
        AtlasAnimation { frame: 0, frame_count, finished: false }
    }

    /// Advances one frame, wrapping to the first after the last, when the
    /// timer finished a period during this tick. Returns whether the frame
    /// changed.
    pub fn update(&mut self, timer_finished: bool) -> (r: bool)
        requires
            old(self).wf(),
        ensures
            final(self).wf(),
            r == timer_finished,
            final(self).spec_changed() == timer_finished,
            final(self).spec_frame_count() == old(self).spec_frame_count(),
            final(self).spec_frame() == if timer_finished {
                (old(self).spec_frame() + 1) % (old(self).spec_frame_count() as int)
            } else {
                old(self).spec_frame() as int
            },
    {
        self.finished = timer_finished;
        if timer_finished {
            self.frame = (self.frame + 1) % self.frame_count;
        }
        self.finished
    }

    /// The frame to show.
    pub fn frame(&self) -> (r: usize)
        ensures
            r == self.spec_frame(),
    {
        self.frame
    }

    /// Whether the last update moved to another frame period.
    pub fn changed(&self) -> (r: bool)
        ensures
            r == self.spec_changed(),
    {
        self.finished
    }
}

} // verus!
