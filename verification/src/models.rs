//! The account and group records that the 2FAuth server lists.
use vstd::prelude::*;

verus! {

/// One account on the server, with the parameters of its one-time passwords.
#[derive(Debug)]
pub struct TwoFAccount {
    pub id: u64,
    pub service: String,
    pub account: String,
    pub otp_type: String,
    pub algorithm: String,
    pub digits: u32,
    pub period: Option<u32>,
    pub counter: Option<u64>,
    pub group_id: Option<u64>,
    pub icon: Option<String>,
}

/// A group of accounts on the server, with the number of accounts it holds.
#[derive(Debug)]
pub struct TwoFGroup {
    pub id: u64,
    pub name: String,
    pub twofaccounts_count: u64,
}

fn clone_opt_string(s: &Option<String>) -> (r: Option<String>)
    ensures
        r == *s,
{
    match s {
        Some(v) => Some(v.clone()),
        None => None,
    }
}

impl Clone for TwoFAccount {
    fn clone(&self) -> (r: Self)
        ensures
            r == *self,
    {
        TwoFAccount {
            id: self.id,
            service: self.service.clone(),
            account: self.account.clone(),
            otp_type: self.otp_type.clone(),
            algorithm: self.algorithm.clone(),
            digits: self.digits,
            period: self.period,
            counter: self.counter,
            group_id: self.group_id,
            icon: clone_opt_string(&self.icon),
        }
    }
}

impl Clone for TwoFGroup {
    fn clone(&self) -> (r: Self)
        ensures
            r == *self,
    {
        TwoFGroup { id: self.id, name: self.name.clone(), twofaccounts_count: self.twofaccounts_count }
    }
}

/// The groups that the account list shows: all but the server's pseudo-group
/// with id 0, which stands for all accounts.
pub fn listed_groups(groups: &[TwoFGroup]) -> (r: Vec<TwoFGroup>)
    ensures
        r@ == groups@.filter(|g: TwoFGroup| g.id != 0),
{
    let mut r: Vec<TwoFGroup> = Vec::new();
    let mut i: usize = 0;
    while i < groups.len()
        invariant
            i <= groups@.len(),
            r@ == groups@.take(i as int).filter(|g: TwoFGroup| g.id != 0),
        decreases groups.len() - i,
    {
        proof {
            reveal_with_fuel(Seq::<_>::filter, 1);
            assert(groups@.take(i + 1).drop_last() =~= groups@.take(i as int));
        }
        if groups[i].id != 0 {
            r.push(groups[i].clone());
        }
        i += 1;
    }
    assert(groups@.take(i as int) =~= groups@);
    r
}

/// The position of the first account with the given id.
pub fn account_index_by_id(accounts: &[TwoFAccount], id: u64) -> (r: Option<usize>)
    ensures
        match r {
            Some(i) => i < accounts@.len() && accounts@[i as int].id == id && forall|k: int|
                0 <= k < i ==> accounts@[k].id != id,
            None => forall|k: int| 0 <= k < accounts@.len() ==> accounts@[k].id != id,
        },
{
    let mut i: usize = 0;
    while i < accounts.len()
        invariant
            i <= accounts@.len(),
            forall|k: int| 0 <= k < i ==> accounts@[k].id != id,
        decreases accounts.len() - i,
    {
        if accounts[i].id == id {
            return Some(i);
        }
        i += 1;
    }
    None
}

} // verus!
