//! The keyframes of the camera path timeline and which of them is selected.
use vstd::prelude::*;

verus! {

/// Abstract state of a keyframe list.
pub struct KeyframeListView<K> {
    pub keyframes: Seq<K>,
    pub selected: Option<usize>,
    pub dragging: Option<usize>,
}

/// The keyframes of the timeline, in path order, with the keyframe selected
/// for editing and the one being dragged, if any. `K` is the keyframe type,
/// which the list only carries.
pub struct KeyframeList<K> {
    keyframes: Vec<K>,
    selected: Option<usize>,
    dragging: Option<usize>,
}

impl<K> View for KeyframeList<K> {
    type V = KeyframeListView<K>;

    closed spec fn view(&self) -> KeyframeListView<K> {
        KeyframeListView {
            keyframes: self.keyframes@,
            selected: self.selected,
            dragging: self.dragging,
        }
    }
}

/// The selection, if any, names a keyframe of the list.
pub open spec fn selection_valid<K>(v: KeyframeListView<K>) -> bool {
    v.selected matches Some(i) ==> i < v.keyframes.len()
}

/// The selection after the keyframes became `len` many by a removal: the
/// last keyframe, if any is left.
pub open spec fn last_selection(len: nat) -> Option<usize> {
    if len > 0 {
        Some((len - 1) as usize)
    } else {
        None
    }
}

impl<K> KeyframeList<K> {
    pub open spec fn wf(&self) -> bool {
        selection_valid(self@)
    }

    /// An empty timeline.
    pub fn new() -> (l: Self)
        ensures
            l.wf(),
            l@.keyframes.len() == 0,
            l@.selected.is_none(),
            l@.dragging.is_none(),
    {
        KeyframeList { keyframes: Vec::new(), selected: None, dragging: None }
    }

    pub fn len(&self) -> (n: usize)
        ensures
            n == self@.keyframes.len(),
    {
        self.keyframes.len()
    }

    pub fn keyframes(&self) -> (k: &Vec<K>)
        ensures
            k@ == self@.keyframes,
    {
        &self.keyframes
    }

    pub fn get(&self, i: usize) -> (k: &K)
        requires
            i < self@.keyframes.len(),
        ensures
            *k == self@.keyframes[i as int],
    {
        &self.keyframes[i]
    }

    /// The selected keyframe's index, if any.
    pub fn selected_index(&self) -> (i: Option<usize>)
        ensures
            i == self@.selected,
    {
        self.selected
    }

    /// Appends a keyframe and selects it.
    pub fn push_selected(&mut self, k: K)
        requires
            old(self).wf(),
        ensures
            final(self).wf(),
            final(self)@.keyframes == old(self)@.keyframes.push(k),
            final(self)@.selected == Some(old(self)@.keyframes.len() as usize),
            final(self)@.dragging == old(self)@.dragging,
    {
        self.keyframes.push(k);
        self.selected = Some(self.keyframes.len() - 1);
    }

    /// Removes the selected keyframe, if any, and selects the last keyframe
    /// left, if any. Returns the removed keyframe.
    pub fn remove_selected(&mut self) -> (removed: Option<K>)
        requires
            old(self).wf(),
        ensures
            final(self).wf(),
            final(self)@.dragging == old(self)@.dragging,
            match old(self)@.selected {
                None => removed.is_none() && final(self)@.keyframes == old(self)@.keyframes
                    && final(self)@.selected.is_none(),
                Some(i) => {
                    &&& removed == Some(old(self)@.keyframes[i as int])
                    &&& final(self)@.keyframes == old(self)@.keyframes.remove(i as int)
                    &&& final(self)@.selected == last_selection(final(self)@.keyframes.len())
                },
            },
    {
        match self.selected {
            None => None,
            Some(i) => {
                self.selected = None;
                let k = self.keyframes.remove(i);
                if self.keyframes.len() > 0 {
                    self.selected = Some(self.keyframes.len() - 1);
                }
                Some(k)
            },
        }
    }

    /// Selects a keyframe.
    pub fn select(&mut self, i: usize)
        requires
            old(self).wf(),
            i < old(self)@.keyframes.len(),
        ensures
            final(self).wf(),
            final(self)@.keyframes == old(self)@.keyframes,
            final(self)@.selected == Some(i),
            final(self)@.dragging == old(self)@.dragging,
    {
        self.selected = Some(i);
    }

    /// Starts dragging a keyframe.
    pub fn start_drag(&mut self, i: usize)
        requires
            old(self).wf(),
        ensures
            final(self).wf(),
            final(self)@.keyframes == old(self)@.keyframes,
            final(self)@.selected == old(self)@.selected,
            final(self)@.dragging == Some(i),
    {
        self.dragging = Some(i);
    }

    /// Whether keyframe `i` is the one being dragged.
    pub fn is_dragging(&self, i: usize) -> (b: bool)
        ensures
            b == (self@.dragging == Some(i)),
    {
        match self.dragging {
            Some(d) => d == i,
            None => false,
        }
    }

    /// Replaces keyframe `i`.
    pub fn set(&mut self, i: usize, k: K)
        requires
            old(self).wf(),
            i < old(self)@.keyframes.len(),
        ensures
            final(self).wf(),
            final(self)@.keyframes == old(self)@.keyframes.update(i as int, k),
            final(self)@.selected == old(self)@.selected,
            final(self)@.dragging == old(self)@.dragging,
    {
        self.keyframes.set(i, k);
    }

    /// Replaces all keyframes by as many others (the same ones reordered or
    /// retimed); the selection keeps its index.
    pub fn replace_all(&mut self, keyframes: Vec<K>)
        requires
            old(self).wf(),
            keyframes@.len() == old(self)@.keyframes.len(),
        ensures
            final(self).wf(),
            final(self)@.keyframes == keyframes@,
            final(self)@.selected == old(self)@.selected,
            final(self)@.dragging == old(self)@.dragging,
    {
        self.keyframes = keyframes;
    }
}

} // verus!
