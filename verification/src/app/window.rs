//! Window labels, and which secondary windows go away and come back with the main window.
//!
//! Hiding clipbuf means "get out of the way", so a visible settings or about window is hidden
//! along with the main window and shown again with it. A window the user opened or closed
//! deliberately in between is forgotten, so the next show does not second-guess that.
use vstd::prelude::*;

use crate::text::str_eq;

verus! {

pub const MAIN: &'static str = "main";
pub const SETTINGS: &'static str = "settings";
pub const ABOUT: &'static str = "about";

/// The text of each label.
pub open spec fn label_texts(labels: Seq<&'static str>) -> Seq<Seq<char>> {
    labels.map_values(|l: &'static str| l@)
}

/// Secondary windows that were hidden along with the main window, oldest first.
#[derive(Debug)]
pub struct HiddenWithMain {
    labels: Vec<&'static str>,
}

impl View for HiddenWithMain {
    type V = Seq<Seq<char>>;

    closed spec fn view(&self) -> Seq<Seq<char>> {
        label_texts(self.labels@)
    }
}

impl HiddenWithMain {
    /// Nothing hidden with the main window.
    pub fn new() -> (res: Self)
        ensures
            res@ == Seq::<Seq<char>>::empty(),
    {
        let res = HiddenWithMain { labels: Vec::new() };
        assert(res@ =~= Seq::<Seq<char>>::empty());
        res
    }

    /// Remember that the window `label` was hidden along with the main window.
    pub fn remember(&mut self, label: &'static str)
        ensures
            final(self)@ == old(self)@.push(label@),
    {
        let ghost before = self.labels@;
        self.labels.push(label);
        assert(label_texts(self.labels@) =~= label_texts(before).push(label@));
    }

    /// Forget the window `label`: it is being opened or closed deliberately.
    pub fn forget(&mut self, label: &str)
        ensures
            final(self)@ == old(self)@.filter(|l: Seq<char>| l != label@),
    {
        let ghost all = label_texts(self.labels@);
        let mut kept: Vec<&'static str> = Vec::new();
        let mut i: usize = 0;
        while i < self.labels.len()
            invariant
                i <= self.labels@.len(),
                all == label_texts(self.labels@),
                label_texts(kept@) == all.take(i as int).filter(|l: Seq<char>| l != label@),
            decreases self.labels@.len() - i,
        {
            let l = self.labels[i];
            proof {
                reveal(Seq::filter);
                assert(all.take(i + 1).drop_last() =~= all.take(i as int));
                assert(all.take(i + 1).last() == l@);
            }
            if !str_eq(l, label) {
                let ghost prev = kept@;
                kept.push(l);
                assert(label_texts(kept@) =~= label_texts(prev).push(l@));
            }
            i = i + 1;
        }
        assert(all.take(self.labels@.len() as int) =~= all);
        self.labels = kept;
    }

    /// The windows to show again with the main window, oldest first; afterwards none is
    /// remembered.
    pub fn take_all(&mut self) -> (res: Vec<&'static str>)
        ensures
            label_texts(res@) == old(self)@,
            final(self)@ == Seq::<Seq<char>>::empty(),
    {
        let mut res: Vec<&'static str> = Vec::new();
        std::mem::swap(&mut res, &mut self.labels);
        assert(label_texts(self.labels@) =~= Seq::<Seq<char>>::empty());
        res
    }
}

} // verus!
