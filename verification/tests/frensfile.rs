use frenscan::frensfile::{FrensFile, TokenIssued, TreasuryAccount};

fn account(address: &str) -> TreasuryAccount {
    TreasuryAccount {
        name: "treasury".to_string(),
        address: address.to_string(),
        network: None,
        initial_block: 1,
    }
}

fn token(address: &str) -> TokenIssued {
    TokenIssued {
        name: "token".to_string(),
        address: address.to_string(),
        token_address: [0; 20],
        token_id: None,
        network: None,
        schema: None,
        initial_block: 1,
    }
}

#[test]
fn all_addresses_lists_treasury_accounts_before_issued_tokens() {
    let file = FrensFile {
        version: "1".to_string(),
        tokens_issued: vec![token("0xT1"), token("0xT2")],
        treasury_accounts: vec![account("0xA1"), account("0xA2"), account("0xA3")],
    };
    assert_eq!(file.all_addresses(), vec!["0xA1", "0xA2", "0xA3", "0xT1", "0xT2"]);
}

#[test]
fn all_addresses_of_an_empty_file_is_empty() {
    let file = FrensFile { version: "1".to_string(), tokens_issued: vec![], treasury_accounts: vec![] };
    assert!(file.all_addresses().is_empty());
}

#[test]
fn all_addresses_keeps_duplicates() {
    let file = FrensFile {
        version: "1".to_string(),
        tokens_issued: vec![token("0xA1")],
        treasury_accounts: vec![account("0xA1")],
    };
    assert_eq!(file.all_addresses(), vec!["0xA1", "0xA1"]);
}
