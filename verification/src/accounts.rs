//! The accounts of the user, the one that is selected, and their wallets.

use crate::ids::Pubkey;
use vstd::prelude::*;

verus! {

/// A wallet that tips can be paid from.
#[derive(Clone, Copy, Debug, PartialEq, Eq, Structural, Hash)]
pub struct ZapWallet {
    /// The amount of a tip for which the user named none, in millisatoshis.
    pub default_zap_msats: u64,
}

/// One account: its key and its own wallet, if it has one.
#[derive(Clone, Copy, Debug, PartialEq, Eq, Hash)]
pub struct UserAccount {
    pub pubkey: Pubkey,
    pub wallet: Option<ZapWallet>,
}

/// The wallet that serves every account that has none of its own.
#[derive(Clone, Copy, Debug, PartialEq, Eq, Structural, Hash)]
pub struct GlobalWallet {
    pub wallet: Option<ZapWallet>,
}

/// The accounts, and which of them is selected.
pub struct Accounts {
    accounts: Vec<UserAccount>,
    selected: Option<usize>,
}

/// The mathematical value of an `Accounts`.
pub struct AccountsView {
    pub accounts: Seq<UserAccount>,
    /// The account that is selected, if one is.
    pub selected: Option<UserAccount>,
}

impl View for Accounts {
    type V = AccountsView;

    closed spec fn view(&self) -> AccountsView {
        AccountsView {
            accounts: self.accounts@,
            selected: match self.selected {
                Some(i) => Some(self.accounts@[i as int]),
                None => None,
            },
        }
    }
}

/// The first account of the list with the key `pk`.
pub open spec fn find_account(accounts: Seq<UserAccount>, pk: Pubkey) -> Option<UserAccount>
    decreases accounts.len(),
{
    if accounts.len() == 0 {
        None
    } else if accounts[0].pubkey == pk {
        Some(accounts[0])
    } else {
        find_account(accounts.skip(1), pk)
    }
}

/// The wallet that pays for the account `pk`: its own where it has one,
/// else the global one; none where there is no such account.
pub open spec fn wallet_for(accounts: Seq<UserAccount>, global_wallet: GlobalWallet, pk: Pubkey)
    -> Option<ZapWallet> {
    match find_account(accounts, pk) {
        None => None,
        Some(account) => match account.wallet {
            Some(wallet) => Some(wallet),
            None => global_wallet.wallet,
        },
    }
}

impl Accounts {
    #[verifier::type_invariant]
    spec fn selection_in_range(&self) -> bool {
        match self.selected {
            Some(i) => i < self.accounts@.len(),
            None => true,
        }
    }

    /// No account, and none selected.
    pub fn new() -> (accounts: Accounts)
        ensures
            accounts@ == (AccountsView { accounts: Seq::empty(), selected: None }),
    {
        Accounts { accounts: Vec::new(), selected: None }
    }

    /// Adds `account` behind the others. The selection stays.
    pub fn add_account(&mut self, account: UserAccount)
        ensures
            final(self)@ == (AccountsView {
                accounts: old(self)@.accounts.push(account),
                selected: old(self)@.selected,
            }),
    {
        proof {
            use_type_invariant(&*self);
        }
        let selected = self.selected;
        self.selected = None;
        let mut accounts: Vec<UserAccount> = Vec::new();
        core::mem::swap(&mut self.accounts, &mut accounts);
        accounts.push(account);
        self.accounts = accounts;
        self.selected = selected;
    }

    /// Selects the first account with the key `pk`. Where there is none,
    /// nothing changes and the result is `false`.
    pub fn select_account(&mut self, pk: &Pubkey) -> (found: bool)
        ensures
            final(self)@.accounts == old(self)@.accounts,
            found == (find_account(old(self)@.accounts, *pk) is Some),
            found ==> final(self)@.selected == find_account(old(self)@.accounts, *pk),
            !found ==> final(self)@.selected == old(self)@.selected,
    {
        proof {
            use_type_invariant(&*self);
        }
        let mut i: usize = 0;
        assert(self.accounts@.skip(0) =~= self.accounts@);
        while i < self.accounts.len()
            invariant
                i <= self.accounts.len(),
                *self == *old(self),
                find_account(self.accounts@, *pk) == find_account(
                    self.accounts@.skip(i as int),
                    *pk,
                ),
            decreases self.accounts.len() - i,
        {
            assert(self.accounts@.skip(i as int).skip(1) =~= self.accounts@.skip(i + 1));
            if self.accounts[i].pubkey.same(pk) {
                self.selected = Some(i);
                return true;
            }
            i = i + 1;
        }
        false
    }

    /// Selects no account.
    pub fn clear_selected_account(&mut self)
        ensures
            final(self)@ == (AccountsView { accounts: old(self)@.accounts, selected: None }),
    {
        self.selected = None;
    }

    /// The selected account, if one is selected.
    pub fn get_selected_account(&self) -> (account: Option<UserAccount>)
        ensures
            account == self@.selected,
    {
        proof {
            use_type_invariant(self);
        }
        match self.selected {
            Some(i) => Some(self.accounts[i]),
            None => None,
        }
    }

    /// The first account with the key `pk`.
    pub fn find(&self, pk: &Pubkey) -> (account: Option<UserAccount>)
        ensures
            account == find_account(self@.accounts, *pk),
    {
        let mut i: usize = 0;
        assert(self.accounts@.skip(0) =~= self.accounts@);
        while i < self.accounts.len()
            invariant
                i <= self.accounts.len(),
                find_account(self.accounts@, *pk) == find_account(
                    self.accounts@.skip(i as int),
                    *pk,
                ),
            decreases self.accounts.len() - i,
        {
            assert(self.accounts@.skip(i as int).skip(1) =~= self.accounts@.skip(i + 1));
            if self.accounts[i].pubkey.same(pk) {
                return Some(self.accounts[i]);
            }
            i = i + 1;
        }
        None
    }
}

/// The wallet that pays for the account `account_pk`: the account's own
/// where it has one, else the global one. Without such an account there is
/// no wallet.
pub fn get_wallet_for(accounts: &Accounts, global_wallet: &GlobalWallet, account_pk: &Pubkey) -> (wallet:
    Option<ZapWallet>)
    ensures
        wallet == wallet_for(accounts@.accounts, *global_wallet, *account_pk),
{
    match accounts.find(account_pk) {
        None => None,
        Some(account) => match account.wallet {
            Some(wallet) => Some(wallet),
            None => global_wallet.wallet,
        },
    }
}

} // verus!
