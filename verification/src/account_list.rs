//! Which accounts the main window lists, in which sections, with which counts.
use vstd::prelude::*;

use crate::models::{TwoFAccount, TwoFGroup};
use crate::text::{
    chars_of, contains_chars, contains_run, decimal, lowercase, push_decimal, to_lowercase,
    trim, trim_ws,
};

verus! {

/// What the search box is compared with: its text, trimmed and in lower case.
pub open spec fn search_key(search_text: Seq<char>) -> Seq<char> {
    lowercase(trim_ws(search_text))
}

/// An account matches a search key that is empty, or that occurs in the
/// lower-case service name or the lower-case account name.
pub open spec fn account_matches(a: TwoFAccount, key: Seq<char>) -> bool {
    ||| key.len() == 0
    ||| contains_run(lowercase(a.service@), key)
    ||| contains_run(lowercase(a.account@), key)
}

pub open spec fn matches_pred(key: Seq<char>) -> spec_fn(TwoFAccount) -> bool {
    |a: TwoFAccount| account_matches(a, key)
}

pub open spec fn in_group_pred(id: u64) -> spec_fn(TwoFAccount) -> bool {
    |a: TwoFAccount| a.group_id == Some(id)
}

/// The ids of the listed groups.
pub open spec fn group_ids(groups: Seq<TwoFGroup>) -> Seq<u64> {
    groups.map_values(|g: TwoFGroup| g.id)
}

/// An account belongs to no listed group: it has none, or one not listed.
pub open spec fn ungrouped_pred(groups: Seq<TwoFGroup>) -> spec_fn(TwoFAccount) -> bool {
    |a: TwoFAccount|
        match a.group_id {
            None => true,
            Some(id) => !group_ids(groups).contains(id),
        }
}

/// The positions among `idxs` (positions into `accts`) whose account satisfies
/// `p`, in order.
pub open spec fn select(idxs: Seq<usize>, accts: Seq<TwoFAccount>, p: spec_fn(TwoFAccount) -> bool) -> Seq<
    usize,
>
    decreases idxs.len(),
{
    if idxs.len() == 0 {
        Seq::empty()
    } else {
        let prev = select(idxs.drop_last(), accts, p);
        if p(accts[idxs.last() as int]) {
            prev.push(idxs.last())
        } else {
            prev
        }
    }
}

/// The positions `0..n`.
pub open spec fn positions(n: nat) -> Seq<usize> {
    Seq::new(n, |i: int| i as usize)
}

/// The positions of the accounts that match the search key, in order.
pub open spec fn matching_positions(accts: Seq<TwoFAccount>, key: Seq<char>) -> Seq<usize> {
    select(positions(accts.len()), accts, matches_pred(key))
}

/// One section of a grouped list: the listed group it stands for (`None`:
/// the accounts without a listed group), the count shown in its title, and
/// the positions of its accounts.
pub struct SectionView {
    pub group_index: Option<usize>,
    pub count: u64,
    pub accounts: Seq<usize>,
}

pub enum LayoutView {
    NoAccounts,
    Flat(Seq<usize>),
    Grouped(Seq<SectionView>),
}

/// The sections for the first `n` listed groups: one for each group with a
/// matching account. While searching, a section counts the accounts it
/// shows; otherwise it shows the server's count for the group.
pub open spec fn group_sections(
    accts: Seq<TwoFAccount>,
    groups: Seq<TwoFGroup>,
    shown: Seq<usize>,
    searching: bool,
    n: nat,
) -> Seq<SectionView>
    decreases n,
{
    if n == 0 {
        Seq::empty()
    } else {
        let prev = group_sections(accts, groups, shown, searching, (n - 1) as nat);
        let g = groups[n - 1];
        let members = select(shown, accts, in_group_pred(g.id));
        if members.len() == 0 {
            prev
        } else {
            prev.push(
                SectionView {
                    group_index: Some((n - 1) as usize),
                    count: if searching {
                        members.len() as u64
                    } else {
                        g.twofaccounts_count
                    },
                    accounts: members,
                },
            )
        }
    }
}

/// The closing section of the accounts without a listed group, if any.
pub open spec fn ungrouped_section(accts: Seq<TwoFAccount>, groups: Seq<TwoFGroup>, shown: Seq<usize>) -> Seq<
    SectionView,
> {
    let rest = select(shown, accts, ungrouped_pred(groups));
    if rest.len() == 0 {
        Seq::empty()
    } else {
        seq![SectionView { group_index: None, count: rest.len() as u64, accounts: rest }]
    }
}

/// The list for a search: nothing where no account matches; a flat list of
/// the matching accounts where there are no groups; else a section per group
/// that has matching accounts, followed by the section of the rest.
pub open spec fn account_layout(accts: Seq<TwoFAccount>, groups: Seq<TwoFGroup>, key: Seq<char>) -> LayoutView {
    let shown = matching_positions(accts, key);
    if shown.len() == 0 {
        LayoutView::NoAccounts
    } else if groups.len() == 0 {
        LayoutView::Flat(shown)
    } else {
        LayoutView::Grouped(
            group_sections(accts, groups, shown, key.len() != 0, groups.len())
                + ungrouped_section(accts, groups, shown),
        )
    }
}

/// A section of the grouped account list.
pub struct GroupSection {
    pub group_index: Option<usize>,
    pub count: u64,
    pub accounts: Vec<usize>,
}

impl View for GroupSection {
    type V = SectionView;

    open spec fn view(&self) -> SectionView {
        SectionView { group_index: self.group_index, count: self.count, accounts: self.accounts@ }
    }
}

/// The layout of the account list; positions refer to the accounts and
/// groups that it was planned from.
pub enum AccountListLayout {
    NoAccounts,
    Flat(Vec<usize>),
    Grouped(Vec<GroupSection>),
}

pub open spec fn sections_view(v: Seq<GroupSection>) -> Seq<SectionView> {
    v.map_values(|s: GroupSection| s@)
}

impl View for AccountListLayout {
    type V = LayoutView;

    open spec fn view(&self) -> LayoutView {
        match self {
            AccountListLayout::NoAccounts => LayoutView::NoAccounts,
            AccountListLayout::Flat(v) => LayoutView::Flat(v@),
            AccountListLayout::Grouped(v) => LayoutView::Grouped(sections_view(v@)),
        }
    }
}

/// The plan of the account list: its layout, and whether the sections'
/// collapse state is remembered (only while not searching).
pub struct AccountListPlan {
    pub layout: AccountListLayout,
    pub remember_state: bool,
}

fn account_matches_key(a: &TwoFAccount, key: &[char]) -> (b: bool)
    ensures
        b == account_matches(*a, key@),
{
    if key.len() == 0 {
        return true;
    }
    let service = chars_of(to_lowercase(a.service.as_str()).as_str());
    if contains_chars(service.as_slice(), key) {
        return true;
    }
    let account = chars_of(to_lowercase(a.account.as_str()).as_str());
    contains_chars(account.as_slice(), key)
}

/// The positions of the accounts that match the search key.
fn matching_accounts(accounts: &[TwoFAccount], key: &[char]) -> (r: Vec<usize>)
    ensures
        r@ == matching_positions(accounts@, key@),
{
    let n = accounts.len();
    let ghost all = positions(n as nat);
    let mut r: Vec<usize> = Vec::new();
    let mut i: usize = 0;
    while i < n
        invariant
            n == accounts@.len(),
            all == positions(n as nat),
            i <= n,
            r@ == select(all.take(i as int), accounts@, matches_pred(key@)),
        decreases n - i,
    {
        assert(all.take(i + 1).drop_last() =~= all.take(i as int));
        assert(all.take(i + 1).last() == i);
        if account_matches_key(&accounts[i], key) {
            r.push(i);
        }
        i += 1;
    }
    assert(all.take(n as int) =~= all);
    r
}

/// The positions among `shown` of the accounts in the group `id`.
fn members_of_group(accounts: &[TwoFAccount], shown: &[usize], id: u64) -> (r: Vec<usize>)
    requires
        forall|k: int| 0 <= k < shown@.len() ==> shown@[k] < accounts@.len(),
    ensures
        r@ == select(shown@, accounts@, in_group_pred(id)),
{
    let mut r: Vec<usize> = Vec::new();
    let mut i: usize = 0;
    while i < shown.len()
        invariant
            i <= shown@.len(),
            forall|k: int| 0 <= k < shown@.len() ==> shown@[k] < accounts@.len(),
            r@ == select(shown@.take(i as int), accounts@, in_group_pred(id)),
        decreases shown.len() - i,
    {
        assert(shown@.take(i + 1).drop_last() =~= shown@.take(i as int));
        let a = &accounts[shown[i]];
        if a.group_id == Some(id) {
            r.push(shown[i]);
        }
        i += 1;
    }
    assert(shown@.take(i as int) =~= shown@);
    r
}

fn is_listed_group(groups: &[TwoFGroup], id: u64) -> (b: bool)
    ensures
        b == group_ids(groups@).contains(id),
{
    let mut i: usize = 0;
    while i < groups.len()
        invariant
            i <= groups@.len(),
            forall|k: int| 0 <= k < i ==> groups@[k].id != id,
        decreases groups.len() - i,
    {
        if groups[i].id == id {
            assert(group_ids(groups@)[i as int] == id);
            return true;
        }
        i += 1;
    }
    proof {
        if group_ids(groups@).contains(id) {
            let k = choose|k: int| 0 <= k < group_ids(groups@).len() && group_ids(groups@)[k] == id;
            assert(groups@[k].id == id);
        }
    }
    false
}

/// The positions among `shown` of the accounts without a listed group.
fn ungrouped_members(accounts: &[TwoFAccount], groups: &[TwoFGroup], shown: &[usize]) -> (r: Vec<
    usize,
>)
    requires
        forall|k: int| 0 <= k < shown@.len() ==> shown@[k] < accounts@.len(),
    ensures
        r@ == select(shown@, accounts@, ungrouped_pred(groups@)),
{
    let mut r: Vec<usize> = Vec::new();
    let mut i: usize = 0;
    while i < shown.len()
        invariant
            i <= shown@.len(),
            forall|k: int| 0 <= k < shown@.len() ==> shown@[k] < accounts@.len(),
            r@ == select(shown@.take(i as int), accounts@, ungrouped_pred(groups@)),
        decreases shown.len() - i,
    {
        assert(shown@.take(i + 1).drop_last() =~= shown@.take(i as int));
        let a = &accounts[shown[i]];
        let keep = match a.group_id {
            None => true,
            Some(id) => !is_listed_group(groups, id),
        };
        if keep {
            r.push(shown[i]);
        }
        i += 1;
    }
    assert(shown@.take(i as int) =~= shown@);
    r
}

/// Every position that `select` keeps is one of the positions it was given.
pub proof fn lemma_select_contains(
    idxs: Seq<usize>,
    accts: Seq<TwoFAccount>,
    p: spec_fn(TwoFAccount) -> bool,
    x: usize,
)
    ensures
        select(idxs, accts, p).contains(x) == (idxs.contains(x) && p(accts[x as int])),
    decreases idxs.len(),
{
    if idxs.len() > 0 {
        let d = idxs.drop_last();
        lemma_select_contains(d, accts, p, x);
        assert(idxs =~= d.push(idxs.last()));
        vstd::seq_lib::lemma_seq_contains_after_push(d, idxs.last(), x);
        if p(accts[idxs.last() as int]) {
            vstd::seq_lib::lemma_seq_contains_after_push(select(d, accts, p), idxs.last(), x);
        }
    }
}


/// Plans the account list for a search text: the accounts that match it, and
/// how they are laid out in sections for the listed groups.
pub fn plan_account_list(accounts: &[TwoFAccount], groups: &[TwoFGroup], search_text: &str) -> (p:
    AccountListPlan)
    ensures
        p.layout@ == account_layout(accounts@, groups@, search_key(search_text@)),
        p.remember_state == (search_key(search_text@).len() == 0),
{
    let key_string = to_lowercase(trim(search_text));
    let key = chars_of(key_string.as_str());
    let searching = key.len() != 0;
    let shown = matching_accounts(accounts, key.as_slice());
    let ghost key_view = key@;
    proof {
        assert forall|k: int| 0 <= k < shown@.len() implies shown@[k] < accounts@.len() by {
            lemma_select_contains(positions(accounts@.len()), accounts@, matches_pred(key_view), shown@[k]);
            assert(shown@.contains(shown@[k]));
        }
    }
    if shown.len() == 0 {
        return AccountListPlan { layout: AccountListLayout::NoAccounts, remember_state: !searching };
    }
    if groups.len() == 0 {
        return AccountListPlan { layout: AccountListLayout::Flat(shown), remember_state: !searching };
    }
    let mut sections: Vec<GroupSection> = Vec::new();
    let mut j: usize = 0;
    while j < groups.len()
        invariant
            j <= groups@.len(),
            forall|k: int| 0 <= k < shown@.len() ==> shown@[k] < accounts@.len(),
            sections_view(sections@) == group_sections(
                accounts@,
                groups@,
                shown@,
                searching,
                j as nat,
            ),
        decreases groups.len() - j,
    {
        let members = members_of_group(accounts, shown.as_slice(), groups[j].id);
        if members.len() > 0 {
            let count = if searching {
                members.len() as u64
            } else {
                groups[j].twofaccounts_count
            };
            let section = GroupSection { group_index: Some(j), count, accounts: members };
            let ghost before = sections@;
            sections.push(section);
            assert(sections_view(sections@) =~= sections_view(before).push(section@));
        }
        j += 1;
    }
    let rest = ungrouped_members(accounts, groups, shown.as_slice());
    if rest.len() > 0 {
        let count = rest.len() as u64;
        let section = GroupSection { group_index: None, count, accounts: rest };
        let ghost before = sections@;
        sections.push(section);
        assert(sections_view(sections@) =~= sections_view(before) + seq![section@]);
    } else {
        assert(sections_view(sections@) =~= sections_view(sections@) + Seq::<SectionView>::empty());
    }
    AccountListPlan { layout: AccountListLayout::Grouped(sections), remember_state: !searching }
}

/// The title of a section: the group's name and, in brackets, its count.
pub open spec fn section_title_text(name: Seq<char>, count: u64) -> Seq<char> {
    name + seq![' ', '('] + decimal(count as nat) + seq![')']
}

/// Builds a section title; see `section_title_text`.
pub fn section_title(name: &str, count: u64) -> (r: String)
    ensures
        r@ == section_title_text(name@, count),
{
    let mut r = String::new();
    r.append(name);
    crate::text::push_char(&mut r, ' ');
    crate::text::push_char(&mut r, '(');
    push_decimal(&mut r, count);
    crate::text::push_char(&mut r, ')');
    assert(r@ =~= section_title_text(name@, count));
    r
}

/// Whether a layout lists the account at position `i`.
pub open spec fn layout_shows(layout: LayoutView, i: usize) -> bool {
    match layout {
        LayoutView::NoAccounts => false,
        LayoutView::Flat(v) => v.contains(i),
        LayoutView::Grouped(sections) => exists|k: int|
            0 <= k < sections.len() && (#[trigger] sections[k]).accounts.contains(i),
    }
}

proof fn lemma_positions_contains(n: nat, i: usize)
    ensures
        positions(n).contains(i) == (i < n),
{
    if i < n {
        assert(positions(n)[i as int] == i);
    }
}

proof fn lemma_shown(accts: Seq<TwoFAccount>, key: Seq<char>, i: usize)
    ensures
        matching_positions(accts, key).contains(i) == (i < accts.len() && account_matches(
            accts[i as int],
            key,
        )),
{
    lemma_select_contains(positions(accts.len()), accts, matches_pred(key), i);
    lemma_positions_contains(accts.len(), i);
}

proof fn lemma_group_sections_shape(
    accts: Seq<TwoFAccount>,
    groups: Seq<TwoFGroup>,
    shown: Seq<usize>,
    searching: bool,
    n: nat,
)
    requires
        n <= groups.len() <= usize::MAX,
    ensures
        forall|k: int|
            0 <= k < group_sections(accts, groups, shown, searching, n).len() ==> {
                let sec = #[trigger] group_sections(accts, groups, shown, searching, n)[k];
                &&& sec.group_index is Some
                &&& sec.group_index->0 < n
                &&& sec.accounts == select(shown, accts, in_group_pred(groups[sec.group_index->0 as int].id))
            },
    decreases n,
{
    if n > 0 {
        lemma_group_sections_shape(accts, groups, shown, searching, (n - 1) as nat);
        let prev = group_sections(accts, groups, shown, searching, (n - 1) as nat);
        let gs = group_sections(accts, groups, shown, searching, n);
        assert forall|k: int| 0 <= k < gs.len() implies {
            let sec = #[trigger] gs[k];
            &&& sec.group_index is Some
            &&& sec.group_index->0 < n
            &&& sec.accounts == select(shown, accts, in_group_pred(groups[sec.group_index->0 as int].id))
        } by {
            if k < prev.len() {
                assert(gs[k] == prev[k]);
            }
        }
    }
}

proof fn lemma_group_sections_complete(
    accts: Seq<TwoFAccount>,
    groups: Seq<TwoFGroup>,
    shown: Seq<usize>,
    searching: bool,
    n: nat,
    j: int,
)
    requires
        0 <= j < n <= groups.len(),
        select(shown, accts, in_group_pred(groups[j].id)).len() > 0,
    ensures
        exists|k: int|
            0 <= k < group_sections(accts, groups, shown, searching, n).len() && (#[trigger] group_sections(
                accts,
                groups,
                shown,
                searching,
                n,
            )[k]).accounts == select(shown, accts, in_group_pred(groups[j].id)),
    decreases n,
{
    let gs = group_sections(accts, groups, shown, searching, n);
    if j == n - 1 {
        assert(gs[gs.len() - 1].accounts == select(shown, accts, in_group_pred(groups[j].id)));
    } else {
        lemma_group_sections_complete(accts, groups, shown, searching, (n - 1) as nat, j);
        let prev = group_sections(accts, groups, shown, searching, (n - 1) as nat);
        let k = choose|k: int|
            0 <= k < prev.len() && (#[trigger] prev[k]).accounts == select(
                shown,
                accts,
                in_group_pred(groups[j].id),
            );
        assert(gs[k] == prev[k]);
    }
}

/// The account list shows exactly the accounts that match the search: each
/// listed account matches, and each matching account is listed, in the
/// section of its group or, if its group is not listed, in the closing one.
pub proof fn law_list_shows_exactly_the_matches(
    accts: Seq<TwoFAccount>,
    groups: Seq<TwoFGroup>,
    key: Seq<char>,
    i: usize,
)
    requires
        groups.len() <= usize::MAX,
    ensures
        layout_shows(account_layout(accts, groups, key), i) == (i < accts.len() && account_matches(
            accts[i as int],
            key,
        )),
{
    let shown = matching_positions(accts, key);
    lemma_shown(accts, key, i);
    if shown.len() != 0 && groups.len() != 0 {
        let searching = key.len() != 0;
        let gs = group_sections(accts, groups, shown, searching, groups.len());
        let us = ungrouped_section(accts, groups, shown);
        let all = gs + us;
        lemma_group_sections_shape(accts, groups, shown, searching, groups.len());
        if layout_shows(account_layout(accts, groups, key), i) {
            let k = choose|k: int| 0 <= k < all.len() && (#[trigger] all[k]).accounts.contains(i);
            if k < gs.len() {
                assert(gs[k] == all[k]);
                let gi = gs[k].group_index->0;
                lemma_select_contains(shown, accts, in_group_pred(groups[gi as int].id), i);
            } else {
                assert(us[k - gs.len()] == all[k]);
                lemma_select_contains(shown, accts, ungrouped_pred(groups), i);
            }
        }
        if shown.contains(i) {
            lemma_select_contains(shown, accts, ungrouped_pred(groups), i);
            match accts[i as int].group_id {
                Some(id) if group_ids(groups).contains(id) => {
                    let j = choose|j: int| 0 <= j < group_ids(groups).len() && group_ids(groups)[j] == id;
                    let members = select(shown, accts, in_group_pred(groups[j].id));
                    lemma_select_contains(shown, accts, in_group_pred(groups[j].id), i);
                    assert(members.len() > 0);
                    lemma_group_sections_complete(accts, groups, shown, searching, groups.len(), j);
                    let k = choose|k: int| 0 <= k < gs.len() && (#[trigger] gs[k]).accounts == members;
                    assert(all[k] == gs[k]);
                },
                _ => {
                    let rest = select(shown, accts, ungrouped_pred(groups));
                    assert(rest.len() > 0);
                    assert(all[gs.len() as int] == us[0]);
                },
            }
        }
    }
}

/// Whether a layout lists each account at most once: no position occurs
/// twice in a section or in the flat list, and no two sections share one.
pub open spec fn layout_lists_once(layout: LayoutView) -> bool {
    match layout {
        LayoutView::NoAccounts => true,
        LayoutView::Flat(v) => v.no_duplicates(),
        LayoutView::Grouped(sections) => {
            &&& forall|k: int| 0 <= k < sections.len() ==> (#[trigger] sections[k]).accounts.no_duplicates()
            &&& forall|k1: int, k2: int, i: usize|
                0 <= k1 < sections.len() && 0 <= k2 < sections.len() && #[trigger] sections[k1].accounts.contains(i)
                    && #[trigger] sections[k2].accounts.contains(i) ==> k1 == k2
        },
    }
}

proof fn lemma_select_no_duplicates(idxs: Seq<usize>, accts: Seq<TwoFAccount>, p: spec_fn(TwoFAccount) -> bool)
    requires
        idxs.no_duplicates(),
    ensures
        select(idxs, accts, p).no_duplicates(),
    decreases idxs.len(),
{
    if idxs.len() > 0 {
        let d = idxs.drop_last();
        assert(d.no_duplicates());
        lemma_select_no_duplicates(d, accts, p);
        if p(accts[idxs.last() as int]) {
            let prev = select(d, accts, p);
            lemma_select_contains(d, accts, p, idxs.last());
            assert(!d.contains(idxs.last())) by {
                if d.contains(idxs.last()) {
                    let j = choose|j: int| 0 <= j < d.len() && d[j] == idxs.last();
                    assert(idxs[j] == idxs[idxs.len() - 1]);
                }
            }
            assert forall|a: int, b: int| 0 <= a < b < prev.push(idxs.last()).len() implies prev.push(
                idxs.last(),
            )[a] != prev.push(idxs.last())[b] by {
                if b == prev.len() {
                    assert(prev[a] == prev.push(idxs.last())[a]);
                    assert(prev.contains(prev[a]));
                }
            }
        }
    }
}

proof fn lemma_positions_no_duplicates(n: nat)
    requires
        n <= usize::MAX,
    ensures
        positions(n).no_duplicates(),
{
    assert forall|a: int, b: int| 0 <= a < b < positions(n).len() implies positions(n)[a] != positions(n)[b] by {
        assert(positions(n)[a] == a as usize && positions(n)[b] == b as usize);
    }
}

proof fn lemma_group_sections_ordered(
    accts: Seq<TwoFAccount>,
    groups: Seq<TwoFGroup>,
    shown: Seq<usize>,
    searching: bool,
    n: nat,
)
    requires
        n <= groups.len() <= usize::MAX,
    ensures
        forall|k1: int, k2: int|
            0 <= k1 < k2 < group_sections(accts, groups, shown, searching, n).len() ==> (#[trigger] group_sections(
                accts,
                groups,
                shown,
                searching,
                n,
            )[k1]).group_index->0 < (#[trigger] group_sections(accts, groups, shown, searching, n)[k2]).group_index->0,
    decreases n,
{
    if n > 0 {
        lemma_group_sections_ordered(accts, groups, shown, searching, (n - 1) as nat);
        lemma_group_sections_shape(accts, groups, shown, searching, (n - 1) as nat);
        let prev = group_sections(accts, groups, shown, searching, (n - 1) as nat);
        let gs = group_sections(accts, groups, shown, searching, n);
        assert forall|k1: int, k2: int| 0 <= k1 < k2 < gs.len() implies (#[trigger] gs[k1]).group_index->0 < (
        #[trigger] gs[k2]).group_index->0 by {
            assert(gs[k1] == prev[k1]);
            if k2 < prev.len() {
                assert(gs[k2] == prev[k2]);
            }
        }
    }
}

/// Each matching account is listed once: no account appears twice in a
/// section or in the flat list, and none in two sections, as long as the
/// server lists each group once.
pub proof fn law_each_account_listed_once(accts: Seq<TwoFAccount>, groups: Seq<TwoFGroup>, key: Seq<char>)
    requires
        accts.len() <= usize::MAX,
        groups.len() <= usize::MAX,
        group_ids(groups).no_duplicates(),
    ensures
        layout_lists_once(account_layout(accts, groups, key)),
{
    let shown = matching_positions(accts, key);
    lemma_positions_no_duplicates(accts.len());
    lemma_select_no_duplicates(positions(accts.len()), accts, matches_pred(key));
    if shown.len() != 0 && groups.len() != 0 {
        let searching = key.len() != 0;
        let gs = group_sections(accts, groups, shown, searching, groups.len());
        let us = ungrouped_section(accts, groups, shown);
        let all = gs + us;
        lemma_group_sections_shape(accts, groups, shown, searching, groups.len());
        lemma_group_sections_ordered(accts, groups, shown, searching, groups.len());
        lemma_select_no_duplicates(shown, accts, ungrouped_pred(groups));
        assert forall|k: int| 0 <= k < all.len() implies (#[trigger] all[k]).accounts.no_duplicates() by {
            if k < gs.len() {
                assert(all[k] == gs[k]);
                lemma_select_no_duplicates(shown, accts, in_group_pred(groups[gs[k].group_index->0 as int].id));
            } else {
                assert(all[k] == us[k - gs.len()]);
            }
        }
        assert forall|k1: int, k2: int, i: usize|
            0 <= k1 < all.len() && 0 <= k2 < all.len() && #[trigger] all[k1].accounts.contains(i)
                && #[trigger] all[k2].accounts.contains(i) implies k1 == k2 by {
            if k1 != k2 {
                let (a, b) = if k1 < k2 { (k1, k2) } else { (k2, k1) };
                assert(all[a].accounts.contains(i) && all[b].accounts.contains(i));
                assert(a < gs.len()) by {
                    if a >= gs.len() {
                        assert(b >= gs.len() + 1);
                    }
                }
                assert(all[a] == gs[a]);
                let ga = gs[a].group_index->0;
                lemma_select_contains(shown, accts, in_group_pred(groups[ga as int].id), i);
                assert(accts[i as int].group_id == Some(groups[ga as int].id));
                if b < gs.len() {
                    assert(all[b] == gs[b]);
                    let gb = gs[b].group_index->0;
                    lemma_select_contains(shown, accts, in_group_pred(groups[gb as int].id), i);
                    assert(group_ids(groups)[ga as int] == group_ids(groups)[gb as int]);
                } else {
                    assert(all[b] == us[b - gs.len()]);
                    lemma_select_contains(shown, accts, ungrouped_pred(groups), i);
                    assert(group_ids(groups)[ga as int] == groups[ga as int].id);
                    assert(group_ids(groups).contains(groups[ga as int].id));
                }
            }
        }
    }
}

/// A search ignores case: an account whose service or account name,
/// lower-cased, contains the trimmed search text, lower-cased, is listed.
pub proof fn law_search_ignores_case(accts: Seq<TwoFAccount>, groups: Seq<TwoFGroup>, t: Seq<char>, i: usize)
    requires
        groups.len() <= usize::MAX,
        i < accts.len(),
        contains_run(lowercase(accts[i as int].account@), lowercase(trim_ws(t)))
            || contains_run(lowercase(accts[i as int].service@), lowercase(trim_ws(t))),
    ensures
        search_key(t) == lowercase(trim_ws(t)),
        layout_shows(account_layout(accts, groups, search_key(t)), i),
{
    law_list_shows_exactly_the_matches(accts, groups, search_key(t), i);
}

} // verus!
