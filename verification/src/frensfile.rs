//! The declarative list of watched accounts and issued tokens.

use vstd::prelude::*;

verus! {

/// A token contract whose transfers are tracked whoever the counterparties are.
#[derive(Debug, Clone, PartialEq)]
pub struct TokenIssued {
    pub name: String,
    /// The contract address as written in the file.
    pub address: String,
    /// The contract address as bytes.
    pub token_address: [u8; 20],
    pub token_id: Option<String>,
    /// Absent means "mainnet".
    pub network: Option<String>,
    /// Absent means "erc20".
    pub schema: Option<String>,
    pub initial_block: u64,
}

/// An account watched for value and token flow.
#[derive(Debug, Clone, PartialEq)]
pub struct TreasuryAccount {
    pub name: String,
    pub address: String,
    pub network: Option<String>,
    pub initial_block: u64,
}

/// The whole file.
#[derive(Debug, Clone, PartialEq)]
pub struct FrensFile {
    pub version: String,
    pub tokens_issued: Vec<TokenIssued>,
    pub treasury_accounts: Vec<TreasuryAccount>,
}

impl FrensFile {
    /// The addresses of the treasury accounts, in file order.
    pub open spec fn treasury_address_texts(&self) -> Seq<Seq<char>> {
        Seq::new(self.treasury_accounts@.len(), |i: int| self.treasury_accounts@[i].address@)
    }

    /// The addresses of the issued tokens, in file order.
    pub open spec fn issued_address_texts(&self) -> Seq<Seq<char>> {
        Seq::new(self.tokens_issued@.len(), |i: int| self.tokens_issued@[i].address@)
    }

    /// Every address of the file: those of the treasury accounts, then those
    /// of the issued tokens, each group in file order.
    pub fn all_addresses(&self) -> (all_addrs: Vec<String>)
        ensures
            all_addrs.deep_view() == self.treasury_address_texts() + self.issued_address_texts(),
    {
        let mut all_addrs: Vec<String> = Vec::new();
        let mut i: usize = 0;
        while i < self.treasury_accounts.len()
            invariant
                i <= self.treasury_accounts@.len(),
                all_addrs.deep_view() == self.treasury_address_texts().take(i as int),
            decreases self.treasury_accounts@.len() - i,
        {
            let ghost before = all_addrs.deep_view();
            let address = self.treasury_accounts[i].address.clone();
            all_addrs.push(address);
            i += 1;
            assert(all_addrs.deep_view() =~= before.push(address@));
            assert(before.push(address@) =~= self.treasury_address_texts().take(i as int));
        }
        assert(self.treasury_address_texts().take(i as int) =~= self.treasury_address_texts());
        let mut j: usize = 0;
        while j < self.tokens_issued.len()
            invariant
                j <= self.tokens_issued@.len(),
                all_addrs.deep_view() == self.treasury_address_texts()
                    + self.issued_address_texts().take(j as int),
            decreases self.tokens_issued@.len() - j,
        {
            let ghost before = all_addrs.deep_view();
            let address = self.tokens_issued[j].address.clone();
            all_addrs.push(address);
            j += 1;
            assert(all_addrs.deep_view() =~= before.push(address@));
            assert(before.push(address@) =~= self.treasury_address_texts()
                + self.issued_address_texts().take(j as int));
        }
        assert(self.issued_address_texts().take(j as int) =~= self.issued_address_texts());
        all_addrs
    }
}

} // verus!
