//! The remembered state of the account list: which groups are collapsed.
use vstd::prelude::*;

verus! {

/// `s` with every occurrence of `g` removed, order kept (`Vec::retain`).
pub open spec fn without(s: Seq<u64>, g: u64) -> Seq<u64>
    decreases s.len(),
{
    if s.len() == 0 {
        s
    } else if s.last() == g {
        without(s.drop_last(), g)
    } else {
        without(s.drop_last(), g).push(s.last())
    }
}

/// The collapsed groups after marking `g` collapsed (appended once, where it
/// is not listed yet) or expanded (every entry for it removed).
pub open spec fn collapsed_after(s: Seq<u64>, g: u64, collapsed: bool) -> Seq<u64> {
    if collapsed {
        if s.contains(g) {
            s
        } else {
            s.push(g)
        }
    } else {
        without(s, g)
    }
}

/// The remembered collapse state: the ids of collapsed groups, in the order
/// in which they were collapsed, and whether the section of accounts without
/// a group is collapsed.
#[derive(Debug, Clone)]
pub struct UiState {
    pub collapsed_groups: Vec<u64>,
    pub ungrouped_collapsed: bool,
}

impl Default for UiState {
    fn default() -> (s: Self)
        ensures
            s.collapsed_groups@ == Seq::<u64>::empty(),
            !s.ungrouped_collapsed,
    {
        UiState { collapsed_groups: Vec::new(), ungrouped_collapsed: false }
    }
}

impl UiState {
    /// Whether the group `group_id` is remembered as collapsed.
    pub fn is_group_collapsed(&self, group_id: u64) -> (r: bool)
        ensures
            r == self.collapsed_groups@.contains(group_id),
    {
        let mut i: usize = 0;
        while i < self.collapsed_groups.len()
            invariant
                i <= self.collapsed_groups@.len(),
                forall|k: int| 0 <= k < i ==> self.collapsed_groups@[k] != group_id,
            decreases self.collapsed_groups.len() - i,
        {
            if self.collapsed_groups[i] == group_id {
                return true;
            }
            i += 1;
        }
        false
    }

    /// Records that the group `group_id` is collapsed or expanded.
    pub fn set_group_collapsed(&mut self, group_id: u64, collapsed: bool)
        ensures
            final(self).collapsed_groups@ == collapsed_after(
                old(self).collapsed_groups@,
                group_id,
                collapsed,
            ),
            final(self).ungrouped_collapsed == old(self).ungrouped_collapsed,
    {
        if collapsed {
            if !self.is_group_collapsed(group_id) {
                self.collapsed_groups.push(group_id);
            }
        } else {
            let mut kept: Vec<u64> = Vec::new();
            let mut i: usize = 0;
            while i < self.collapsed_groups.len()
                invariant
                    i <= self.collapsed_groups@.len(),
                    kept@ == without(self.collapsed_groups@.take(i as int), group_id),
                decreases self.collapsed_groups.len() - i,
            {
                let id = self.collapsed_groups[i];
                assert(self.collapsed_groups@.take(i + 1).drop_last() =~= self.collapsed_groups@.take(
                    i as int,
                ));
                if id != group_id {
                    kept.push(id);
                }
                i += 1;
            }
            assert(self.collapsed_groups@.take(i as int) =~= self.collapsed_groups@);
            self.collapsed_groups = kept;
        }
    }

    /// Records whether the section of accounts without a group is collapsed.
    pub fn set_ungrouped_collapsed(&mut self, collapsed: bool)
        ensures
            final(self).ungrouped_collapsed == collapsed,
            final(self).collapsed_groups@ == old(self).collapsed_groups@,
    {
        self.ungrouped_collapsed = collapsed;
    }

    /// Whether a section of the account list starts collapsed: the
    /// remembered state of its group (`None`: the accounts without a group)
    /// where the state is remembered, else expanded.
    pub fn initially_collapsed(&self, group_id: Option<u64>, remember_state: bool) -> (r: bool)
        ensures
            r == (remember_state && match group_id {
                Some(id) => self.collapsed_groups@.contains(id),
                None => self.ungrouped_collapsed,
            }),
    {
        if remember_state {
            match group_id {
                Some(id) => self.is_group_collapsed(id),
                None => self.ungrouped_collapsed,
            }
        } else {
            false
        }
    }

    /// Records a section toggled by the user to `expanded`, where the state
    /// is remembered; otherwise the state stays as it is.
    pub fn record_toggle(&mut self, group_id: Option<u64>, expanded: bool, remember_state: bool)
        ensures
            remember_state ==> match group_id {
                Some(id) => final(self).collapsed_groups@ == collapsed_after(
                    old(self).collapsed_groups@,
                    id,
                    !expanded,
                ) && final(self).ungrouped_collapsed == old(self).ungrouped_collapsed,
                None => final(self).ungrouped_collapsed == !expanded
                    && final(self).collapsed_groups@ == old(self).collapsed_groups@,
            },
            !remember_state ==> final(self).collapsed_groups@ == old(self).collapsed_groups@
                && final(self).ungrouped_collapsed == old(self).ungrouped_collapsed,
    {
        if remember_state {
            match group_id {
                Some(id) => self.set_group_collapsed(id, !expanded),
                None => self.set_ungrouped_collapsed(!expanded),
            }
        }
    }
}


/// Removing `g` removes exactly `g`: nothing else changes membership.
pub proof fn lemma_without_contains(s: Seq<u64>, g: u64, h: u64)
    ensures
        without(s, g).contains(h) == (h != g && s.contains(h)),
    decreases s.len(),
{
    if s.len() > 0 {
        let d = s.drop_last();
        lemma_without_contains(d, g, h);
        assert(s =~= d.push(s.last()));
        vstd::seq_lib::lemma_seq_contains_after_push(d, s.last(), h);
        if s.last() != g {
            vstd::seq_lib::lemma_seq_contains_after_push(without(d, g), s.last(), h);
        }
    }
}

/// A list of ids without `g` is unchanged by removing `g`.
pub proof fn lemma_without_absent(s: Seq<u64>, g: u64)
    requires
        !s.contains(g),
    ensures
        without(s, g) == s,
    decreases s.len(),
{
    if s.len() > 0 {
        assert(!s.drop_last().contains(g)) by {
            if s.drop_last().contains(g) {
                let k = choose|k: int| 0 <= k < s.drop_last().len() && s.drop_last()[k] == g;
                assert(s[k] == g);
            }
        }
        assert(s[s.len() - 1] == s.last());
        lemma_without_absent(s.drop_last(), g);
        assert(s =~= s.drop_last().push(s.last()));
    }
}

/// Removing `g` keeps a list free of repeated ids.
pub proof fn lemma_without_no_duplicates(s: Seq<u64>, g: u64)
    requires
        s.no_duplicates(),
    ensures
        without(s, g).no_duplicates(),
    decreases s.len(),
{
    if s.len() > 0 {
        let d = s.drop_last();
        assert(d.no_duplicates());
        lemma_without_no_duplicates(d, g);
        if s.last() != g {
            let w = without(d, g);
            lemma_without_contains(d, g, s.last());
            assert(!d.contains(s.last())) by {
                if d.contains(s.last()) {
                    let k = choose|k: int| 0 <= k < d.len() && d[k] == s.last();
                    assert(s[k] == s[s.len() - 1]);
                }
            }
            assert forall|i: int, j: int|
                0 <= i < w.push(s.last()).len() && 0 <= j < w.push(s.last()).len() && i != j
                    implies w.push(s.last())[i] != w.push(s.last())[j] by {
                if i == w.len() {
                    assert(w.contains(w[j]));
                } else if j == w.len() {
                    assert(w.contains(w[i]));
                }
            }
        }
    }
}

/// After a group is marked collapsed or expanded, the state answers for it
/// exactly that, and answers for every other group as before.
pub proof fn law_collapse_is_remembered(s: Seq<u64>, g: u64, collapsed: bool, h: u64)
    ensures
        collapsed_after(s, g, collapsed).contains(g) == collapsed,
        h != g ==> collapsed_after(s, g, collapsed).contains(h) == s.contains(h),
{
    lemma_without_contains(s, g, g);
    lemma_without_contains(s, g, h);
    if collapsed && !s.contains(g) {
        assert(s.push(g)[s.len() as int] == g);
        if h != g {
            if s.push(g).contains(h) {
                let k = choose|k: int| 0 <= k < s.push(g).len() && s.push(g)[k] == h;
                assert(s[k] == h);
            }
            if s.contains(h) {
                let k = choose|k: int| 0 <= k < s.len() && s[k] == h;
                assert(s.push(g)[k] == h);
            }
        }
    }
}

/// Marking a group the same way twice is the same as marking it once.
pub proof fn law_collapse_idempotent(s: Seq<u64>, g: u64, collapsed: bool)
    ensures
        collapsed_after(collapsed_after(s, g, collapsed), g, collapsed) == collapsed_after(
            s,
            g,
            collapsed,
        ),
{
    law_collapse_is_remembered(s, g, collapsed, g);
    if !collapsed {
        lemma_without_contains(s, g, g);
        lemma_without_absent(without(s, g), g);
    }
}

/// Expanding a group that was collapsed only just now restores the list of
/// collapsed groups exactly.
pub proof fn law_expand_undoes_collapse(s: Seq<u64>, g: u64)
    requires
        !s.contains(g),
    ensures
        collapsed_after(collapsed_after(s, g, true), g, false) == s,
{
    lemma_without_absent(s, g);
    assert(s.push(g).drop_last() =~= s);
    assert(s.push(g).last() == g);
}

/// The list of collapsed groups never gains a repeated id.
pub proof fn law_collapsed_groups_stay_distinct(s: Seq<u64>, g: u64, collapsed: bool)
    requires
        s.no_duplicates(),
    ensures
        collapsed_after(s, g, collapsed).no_duplicates(),
{
    if collapsed {
        if !s.contains(g) {
            assert forall|i: int, j: int|
                0 <= i < s.push(g).len() && 0 <= j < s.push(g).len() && i != j implies s.push(
                    g,
                )[i] != s.push(g)[j] by {
                if i == s.len() {
                    assert(s.contains(s[j]));
                } else if j == s.len() {
                    assert(s.contains(s[i]));
                }
            }
        }
    } else {
        lemma_without_no_duplicates(s, g);
    }
}

} // verus!
