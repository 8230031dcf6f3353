use twofauth_client::account_list::{plan_account_list, section_title, AccountListLayout};
use twofauth_client::models::{account_index_by_id, listed_groups, TwoFAccount, TwoFGroup};

fn account(id: u64, service: &str, name: &str, group_id: Option<u64>) -> TwoFAccount {
    TwoFAccount {
        id,
        service: service.to_string(),
        account: name.to_string(),
        otp_type: "totp".to_string(),
        algorithm: "sha1".to_string(),
        digits: 6,
        period: Some(30),
        counter: None,
        group_id,
        icon: None,
    }
}

fn group(id: u64, name: &str, count: u64) -> TwoFGroup {
    TwoFGroup { id, name: name.to_string(), twofaccounts_count: count }
}

fn sample() -> (Vec<TwoFAccount>, Vec<TwoFGroup>) {
    let accounts = vec![
        account(1, "GitHub", "alice@example.com", Some(10)),
        account(2, "Mastodon", "alice", Some(20)),
        account(3, "Nextcloud", "bob", None),
        account(4, "Gitea", "carol", Some(99)),
    ];
    let groups = vec![group(10, "Work", 5), group(20, "Social", 1), group(30, "Empty", 0)];
    (accounts, groups)
}

#[test]
fn no_search_groups_accounts_with_server_counts() {
    let (accounts, groups) = sample();
    let plan = plan_account_list(&accounts, &groups, "");
    assert!(plan.remember_state);
    match plan.layout {
        AccountListLayout::Grouped(sections) => {
            assert_eq!(sections.len(), 3);
            assert_eq!(sections[0].group_index, Some(0));
            assert_eq!(sections[0].count, 5);
            assert_eq!(sections[0].accounts, vec![0]);
            assert_eq!(sections[1].group_index, Some(1));
            assert_eq!(sections[1].count, 1);
            assert_eq!(sections[1].accounts, vec![1]);
            assert_eq!(sections[2].group_index, None);
            assert_eq!(sections[2].count, 2);
            assert_eq!(sections[2].accounts, vec![2, 3]);
        }
        _ => panic!("expected a grouped list"),
    }
}

#[test]
fn search_counts_visible_accounts_and_is_case_insensitive() {
    let (accounts, groups) = sample();
    let plan = plan_account_list(&accounts, &groups, "  GIT ");
    assert!(!plan.remember_state);
    match plan.layout {
        AccountListLayout::Grouped(sections) => {
            assert_eq!(sections.len(), 2);
            assert_eq!(sections[0].group_index, Some(0));
            assert_eq!(sections[0].count, 1);
            assert_eq!(sections[0].accounts, vec![0]);
            assert_eq!(sections[1].group_index, None);
            assert_eq!(sections[1].accounts, vec![3]);
        }
        _ => panic!("expected a grouped list"),
    }
}

#[test]
fn search_matches_account_names_too() {
    let (accounts, groups) = sample();
    let plan = plan_account_list(&accounts, &groups, "alice");
    match plan.layout {
        AccountListLayout::Grouped(sections) => {
            assert_eq!(sections.len(), 2);
            assert_eq!(sections[0].accounts, vec![0]);
            assert_eq!(sections[1].accounts, vec![1]);
        }
        _ => panic!("expected a grouped list"),
    }
}

#[test]
fn nothing_found_and_flat_lists() {
    let (accounts, groups) = sample();
    assert!(matches!(plan_account_list(&accounts, &groups, "zzz").layout, AccountListLayout::NoAccounts));
    assert!(matches!(plan_account_list(&[], &groups, "").layout, AccountListLayout::NoAccounts));
    match plan_account_list(&accounts, &[], "N").layout {
        AccountListLayout::Flat(shown) => assert_eq!(shown, vec![1, 2]),
        _ => panic!("expected a flat list"),
    }
}

#[test]
fn pseudo_group_zero_is_not_listed() {
    let groups = vec![group(0, "All", 9), group(4, "Home", 2)];
    let listed = listed_groups(&groups);
    assert_eq!(listed.len(), 1);
    assert_eq!(listed[0].id, 4);
    assert_eq!(listed[0].name, "Home");
}

#[test]
fn accounts_are_found_by_id() {
    let (accounts, _) = sample();
    assert_eq!(account_index_by_id(&accounts, 3), Some(2));
    assert_eq!(account_index_by_id(&accounts, 77), None);
}

#[test]
fn section_titles_show_counts() {
    assert_eq!(section_title("Work", 5), "Work (5)");
    assert_eq!(section_title("", 0), " (0)");
}

#[test]
fn every_account_gets_one_row() {
    let (accounts, groups) = sample();
    let plan = plan_account_list(&accounts, &groups, "");
    match plan.layout {
        AccountListLayout::Grouped(sections) => {
            let mut rows: Vec<usize> = sections.iter().flat_map(|s| s.accounts.iter().copied()).collect();
            rows.sort();
            assert_eq!(rows, vec![0, 1, 2, 3]);
        }
        _ => panic!("expected a grouped list"),
    }
}
