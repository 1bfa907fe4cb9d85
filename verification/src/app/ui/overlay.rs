//! Messages that lie over the view.
use vstd::prelude::*;

verus! {

/// Something that lies over the view.
#[derive(Clone, Debug, PartialEq, Eq)]
pub enum Overlay {
    Message(String),
}

/// The overlays that are open, the topmost last.
pub struct Overlays {
    overlays: Vec<Overlay>,
}

/// What stands for an overlay that was opened: its place among the open
/// ones.
pub struct OverlayHandle {
    idx: usize,
}

impl OverlayHandle {
    /// The place of the overlay among the open ones, counted from the
    /// bottom.
    pub closed spec fn place(&self) -> usize {
        self.idx
    }

    /// The place of the overlay among the open ones.
    pub fn index(&self) -> (idx: usize)
        ensures
            idx == self.place(),
    {
        self.idx
    }
}

impl View for Overlays {
    type V = Seq<Overlay>;

    closed spec fn view(&self) -> Seq<Overlay> {
        self.overlays@
    }
}

impl Default for Overlays {
    fn default() -> (overlays: Overlays)
        ensures
            overlays@ == Seq::<Overlay>::empty(),
    {
        Overlays { overlays: Vec::new() }
    }
}

impl Overlays {
    /// The overlay to draw: the topmost, if any is open.
    pub fn top(&self) -> (overlay: Option<&Overlay>)
        ensures
            self@.len() == 0 ==> overlay is None,
            self@.len() > 0 ==> overlay == Some(&self@.last()),
    {
        if self.overlays.len() > 0 {
            Some(&self.overlays[self.overlays.len() - 1])
        } else {
            None
        }
    }

    /// Opens an overlay on top of the others.
    pub fn push(&mut self, overlay: Overlay) -> (handle: OverlayHandle)
        ensures
            final(self)@ == old(self)@.push(overlay),
            handle.place() == old(self)@.len(),
    {
        let idx = self.overlays.len();
        self.overlays.push(overlay);
        OverlayHandle { idx }
    }
}

} // verus!
