use vstd::prelude::*;

use crate::cost::Weights;
use crate::theme::BackgroundColors;

verus! {

/// The palette that a search mutates, generic in the color type.
///
/// The modifiable backgrounds are held twice: in `bg_color_array`, which the
/// search addresses by slot, and in `bg_colors`, which the cost model reads
/// by role. [`State::replace_slot`] keeps the two in agreement; a write
/// through [`State::color_slot`] must be followed by
/// [`State::sync_bg_slot`] before the next cost evaluation.
#[derive(Clone, Debug)]
pub struct State<C> {
    pub bg_colors: BackgroundColors<C>,
    pub bg_color_array: Vec<C>,
    pub fg_colors: Vec<C>,
    pub target_bg_colors: Vec<C>,
    pub target_fg_colors: Vec<C>,
    pub weights: Weights,
}

fn copy_of<C: Copy>(v: &Vec<C>) -> (r: Vec<C>)
    ensures
        r@ == v@,
{
    let mut r: Vec<C> = Vec::new();
    let mut i: usize = 0;
    while i < v.len()
        invariant
            i <= v@.len(),
            r@ =~= v@.take(i as int),
        decreases v@.len() - i,
    {
        r.push(v[i]);
        i = i + 1;
    }
    assert(v@.take(i as int) =~= v@);
    r
}

impl<C: Copy> State<C> {
    /// The flat array holds one color per modifiable background, and the
    /// slots can be counted in a `usize`.
    pub open spec fn wf(&self) -> bool {
        &&& self.bg_color_array@.len() == 1
        &&& self.fg_colors@.len() + self.bg_color_array@.len() <= usize::MAX
    }

    /// Both views of the modifiable backgrounds agree.
    pub open spec fn synced(&self) -> bool {
        self.bg_colors.updateable_array_view() == self.bg_color_array@
    }

    /// The colors that the search addresses: the foregrounds, then the
    /// modifiable backgrounds.
    pub open spec fn slots(&self) -> Seq<C> {
        self.fg_colors@ + self.bg_color_array@
    }

    /// Everything but the two views of the modifiable colors is as in `o`.
    pub open spec fn same_fixed_parts(&self, o: &State<C>) -> bool {
        &&& self.target_bg_colors@ == o.target_bg_colors@
        &&& self.target_fg_colors@ == o.target_fg_colors@
        &&& self.weights == o.weights
        &&& self.fg_colors@.len() == o.fg_colors@.len()
        &&& self.bg_color_array@.len() == o.bg_color_array@.len()
        &&& self.bg_colors.main == o.bg_colors.main
        &&& self.bg_colors.range_selection == o.bg_colors.range_selection
        &&& self.bg_colors.git_added == o.bg_colors.git_added
        &&& self.bg_colors.git_line_selection == o.bg_colors.git_line_selection
        &&& self.bg_colors.git_deleted == o.bg_colors.git_deleted
    }

    /// A search that starts at the reference: the foregrounds are the target
    /// foregrounds, and the modifiable backgrounds are their own targets.
    pub fn new(bg_colors: BackgroundColors<C>, target_fg_colors: Vec<C>, weights: Weights) -> (r:
        Self)
        requires
            target_fg_colors@.len() < usize::MAX,
        ensures
            r.wf(),
            r.synced(),
            r.bg_colors == bg_colors,
            r.bg_color_array@ == bg_colors.updateable_array_view(),
            r.fg_colors@ == target_fg_colors@,
            r.target_bg_colors@ == bg_colors.updateable_array_view(),
            r.target_fg_colors@ == target_fg_colors@,
            r.weights == weights,
    {
        let modifiable = bg_colors.updateable_array();
        let bg_color_array = vec![modifiable[0]];
        let target_bg_colors = vec![modifiable[0]];
        assert(bg_color_array@ =~= bg_colors.updateable_array_view());
        assert(target_bg_colors@ =~= bg_colors.updateable_array_view());
        State {
            bg_colors,
            bg_color_array,
            fg_colors: copy_of(&target_fg_colors),
            target_bg_colors,
            target_fg_colors,
            weights,
        }
    }

    /// How many colors the search may change.
    pub fn slot_count(&self) -> (r: usize)
        requires
            self.wf(),
        ensures
            r == self.slots().len(),
    {
        self.fg_colors.len() + self.bg_color_array.len()
    }

    /// The color at slot `i`: a foreground below the number of foregrounds,
    /// a modifiable background from there on. A write through it leaves
    /// `bg_colors` as it was.
    pub fn color_slot(&mut self, i: usize) -> (r: &mut C)
        requires
            old(self).wf(),
            i < old(self).slots().len(),
        ensures
            *r == old(self).slots()[i as int],
            final(self).slots() == old(self).slots().update(i as int, *final(r)),
            final(self).bg_colors == old(self).bg_colors,
            final(self).same_fixed_parts(old(self)),
    {
        let n = self.fg_colors.len();
        if i < n {
            &mut self.fg_colors[i]
        } else {
            &mut self.bg_color_array[i - n]
        }
    }

    /// Copies slot `i`, when it holds a modifiable background, into the
    /// matching role of `bg_colors`; a foreground slot changes nothing.
    pub fn sync_bg_slot(&mut self, i: usize)
        requires
            old(self).wf(),
            i < old(self).slots().len(),
        ensures
            final(self).slots() == old(self).slots(),
            final(self).same_fixed_parts(old(self)),
            i < old(self).fg_colors@.len() ==> final(self).bg_colors == old(self).bg_colors,
            i >= old(self).fg_colors@.len() ==> final(self).bg_colors.updateable_array_view()
                == old(self).bg_colors.updateable_array_view().update(
                i - old(self).fg_colors@.len(),
                old(self).slots()[i as int],
            ),
    {
        let n = self.fg_colors.len();
        if i < n {
            return;
        }
        let k = i - n;
        let mut a = self.bg_colors.updateable_array();
        a[k] = self.bg_color_array[k];
        self.bg_colors.update(a);
        assert(self.bg_colors.updateable_array_view() =~= old(self).bg_colors.updateable_array_view().update(
            k as int,
            old(self).slots()[i as int],
        ));
    }

    /// `self` is `o` with slot `i` replaced by `c`, both views of the
    /// backgrounds in agreement when they agreed in `o`.
    pub open spec fn replaced_from(&self, o: &State<C>, i: int, c: C) -> bool {
        &&& self.slots() == o.slots().update(i, c)
        &&& self.same_fixed_parts(o)
        &&& self.wf()
        &&& o.synced() ==> self.synced()
    }

    /// Puts `c` into slot `i` and brings `bg_colors` in line with it;
    /// returns the color that the slot held.
    pub fn replace_slot(&mut self, i: usize, c: C) -> (prev: C)
        requires
            old(self).wf(),
            i < old(self).slots().len(),
        ensures
            prev == old(self).slots()[i as int],
            final(self).replaced_from(old(self), i as int, c),
    {
        let slot = self.color_slot(i);
        let prev = *slot;
        *slot = c;
        self.sync_bg_slot(i);
        proof {
            let n = old(self).fg_colors@.len();
            assert(self.fg_colors@ =~= self.slots().subrange(0, n as int));
            assert(self.bg_color_array@ =~= self.slots().subrange(n as int, self.slots().len() as int));
            assert(old(self).bg_color_array@ =~= old(self).slots().subrange(n as int, old(self).slots().len() as int));
            if old(self).synced() {
                assert(self.bg_colors.updateable_array_view() =~= self.bg_color_array@);
            }
        }
        prev
    }
}

/// A proposal that is rolled back, by putting the previous color into the
/// same slot, leaves the palette as it was: the same slots and the same
/// background roles.
pub proof fn lemma_rollback_restores<C: Copy>(
    s0: State<C>,
    s1: State<C>,
    s2: State<C>,
    i: int,
    c: C,
)
    requires
        s0.wf(),
        s0.synced(),
        0 <= i < s0.slots().len(),
        s1.replaced_from(&s0, i, c),
        s2.replaced_from(&s1, i, s0.slots()[i]),
    ensures
        s2.slots() == s0.slots(),
        s2.fg_colors@ == s0.fg_colors@,
        s2.bg_color_array@ == s0.bg_color_array@,
        s2.bg_colors == s0.bg_colors,
        s2.synced(),
{
    let n = s0.fg_colors@.len() as int;
    assert(s2.slots() =~= s0.slots());
    assert(s2.fg_colors@ =~= s2.slots().subrange(0, n));
    assert(s0.fg_colors@ =~= s0.slots().subrange(0, n));
    assert(s2.bg_color_array@ =~= s2.slots().subrange(n, s2.slots().len() as int));
    assert(s0.bg_color_array@ =~= s0.slots().subrange(n, s0.slots().len() as int));
    assert(s2.bg_colors.line_selection == s2.bg_colors.updateable_array_view()[0]);
    assert(s0.bg_colors.line_selection == s0.bg_colors.updateable_array_view()[0]);
}

} // verus!
