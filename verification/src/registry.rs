//! The watched accounts and issued tokens, fixed before any block is read.

use crate::encoding::{hex_chars, hex_digit};
use crate::frensfile::{FrensFile, TokenIssued};
use vstd::prelude::*;

verus! {

/// The set of treasury addresses and the list of issued tokens.
#[derive(Debug, Clone, PartialEq)]
pub struct AddressRegistry {
    pub treasury_addresses: Vec<[u8; 20]>,
    pub tokens_issued: Vec<TokenIssued>,
}

/// Whether `address` begins with the twenty bytes of `token_address`.
pub open spec fn has_address_prefix(address: Seq<u8>, token_address: Seq<u8>) -> bool {
    address.len() >= 20 && address.take(20) == token_address
}

/// Whether `address` is exactly the twenty bytes `watched`.
fn same_address(watched: &[u8; 20], address: &Vec<u8>) -> (same: bool)
    ensures
        same == (watched@ == address@),
{
    if address.len() != 20 {
        return false;
    }
    let mut i: usize = 0;
    while i < 20
        invariant
            i <= 20,
            address@.len() == 20,
            forall|k: int| 0 <= k < i ==> watched@[k] == address@[k],
        decreases 20 - i,
    {
        if watched[i] != address[i] {
            return false;
        }
        i += 1;
    }
    assert(watched@ =~= address@);
    true
}

/// Whether `address` begins with the twenty bytes `token_address`.
fn starts_with_address(address: &Vec<u8>, token_address: &[u8; 20]) -> (starts: bool)
    ensures
        starts == has_address_prefix(address@, token_address@),
{
    if address.len() < 20 {
        return false;
    }
    let mut i: usize = 0;
    while i < 20
        invariant
            i <= 20,
            address@.len() >= 20,
            forall|k: int| 0 <= k < i ==> token_address@[k] == address@[k],
        decreases 20 - i,
    {
        if token_address[i] != address[i] {
            assert(address@.take(20)[i as int] == address@[i as int]);
            return false;
        }
        i += 1;
    }
    assert(address@.take(20) =~= token_address@);
    true
}

impl AddressRegistry {
    /// Whether `address` is one of the treasury addresses, byte for byte.
    pub open spec fn is_treasury(&self, address: Seq<u8>) -> bool {
        exists|i: int|
            0 <= i < self.treasury_addresses@.len() && (
            #[trigger] self.treasury_addresses@[i])@ == address
    }

    /// Whether the contract at `address` is one of the issued tokens: some
    /// entry's address is the first twenty bytes of `address`.
    pub open spec fn is_issued_token(&self, address: Seq<u8>) -> bool {
        exists|i: int|
            0 <= i < self.tokens_issued@.len() && has_address_prefix(
                address,
                (#[trigger] self.tokens_issued@[i]).token_address@,
            )
    }

    /// Whether `address` is one of the treasury addresses.
    pub fn contains_treasury(&self, address: &Vec<u8>) -> (found: bool)
        ensures
            found == self.is_treasury(address@),
    {
        let mut i: usize = 0;
        while i < self.treasury_addresses.len()
            invariant
                i <= self.treasury_addresses@.len(),
                forall|k: int| 0 <= k < i ==> (#[trigger] self.treasury_addresses@[k])@ != address@,
            decreases self.treasury_addresses@.len() - i,
        {
            if same_address(&self.treasury_addresses[i], address) {
                return true;
            }
            i += 1;
        }
        false
    }

    /// Whether the contract at `address` is one of the issued tokens.
    pub fn contains_issued_token(&self, address: &Vec<u8>) -> (found: bool)
        ensures
            found == self.is_issued_token(address@),
    {
        let mut i: usize = 0;
        while i < self.tokens_issued.len()
            invariant
                i <= self.tokens_issued@.len(),
                forall|k: int|
                    0 <= k < i ==> !has_address_prefix(
                        address@,
                        (#[trigger] self.tokens_issued@[k]).token_address@,
                    ),
            decreases self.tokens_issued@.len() - i,
        {
            if starts_with_address(address, &self.tokens_issued[i].token_address) {
                return true;
            }
            i += 1;
        }
        false
    }
}

/// Why a file gives no registry.
#[derive(Debug, Clone, PartialEq)]
pub enum RegistryError {
    /// The address of the treasury account at `position` is no address.
    InvalidTreasuryAddress { position: usize },
    /// The address of the issued token at `position` is no address.
    InvalidTokenAddress { position: usize },
}

/// The value of a hexadecimal digit of either case.
pub open spec fn hex_digit_value(c: char) -> Option<u8> {
    if c == '0' {
        Some(0u8)
    } else if c == '1' {
        Some(1u8)
    } else if c == '2' {
        Some(2u8)
    } else if c == '3' {
        Some(3u8)
    } else if c == '4' {
        Some(4u8)
    } else if c == '5' {
        Some(5u8)
    } else if c == '6' {
        Some(6u8)
    } else if c == '7' {
        Some(7u8)
    } else if c == '8' {
        Some(8u8)
    } else if c == '9' {
        Some(9u8)
    } else if c == 'a' || c == 'A' {
        Some(10u8)
    } else if c == 'b' || c == 'B' {
        Some(11u8)
    } else if c == 'c' || c == 'C' {
        Some(12u8)
    } else if c == 'd' || c == 'D' {
        Some(13u8)
    } else if c == 'e' || c == 'E' {
        Some(14u8)
    } else if c == 'f' || c == 'F' {
        Some(15u8)
    } else {
        None
    }
}

/// The text without a leading `0x`.
pub open spec fn without_prefix(text: Seq<char>) -> Seq<char> {
    if text.len() >= 2 && text[0] == '0' && text[1] == 'x' {
        text.skip(2)
    } else {
        text
    }
}

/// Whether the forty characters are hexadecimal digits.
pub open spec fn is_address_text(text: Seq<char>) -> bool {
    without_prefix(text).len() == 40 && forall|k: int|
        0 <= k < 40 ==> hex_digit_value(#[trigger] without_prefix(text)[k]) is Some
}

/// Whether the text, after an optional `0x`, is the forty hexadecimal
/// digits of the twenty bytes, in either case.
pub open spec fn denotes_address(text: Seq<char>, address: Seq<u8>) -> bool {
    let digits = without_prefix(text);
    &&& is_address_text(text)
    &&& address.len() == 20
    &&& forall|i: int|
        0 <= i < 20 ==> #[trigger] address[i] == hex_digit_value(digits[2 * i]).unwrap() * 16
            + hex_digit_value(digits[2 * i + 1]).unwrap()
}

/// The hexadecimal text of twenty bytes denotes them.
pub proof fn lemma_hex_text_denotes_its_address(address: Seq<u8>)
    requires
        address.len() == 20,
    ensures
        denotes_address(hex_chars(address), address),
{
    let text = hex_chars(address);
    assert(text.len() == 40);
    assert(text[1] != 'x') by {
        assert(text[1] == hex_digit(address[0] as int % 16));
    }
    assert(without_prefix(text) == text);
    assert forall|k: int| 0 <= k < 40 implies hex_digit_value(#[trigger] text[k]) is Some by {
        assert(0 <= k / 2 < 20);
    }
    assert forall|i: int| 0 <= i < 20 implies #[trigger] address[i] == hex_digit_value(
        text[2 * i],
    ).unwrap() * 16 + hex_digit_value(text[2 * i + 1]).unwrap() by {
        assert((2 * i) / 2 == i && (2 * i) % 2 == 0);
        assert((2 * i + 1) / 2 == i && (2 * i + 1) % 2 == 1);
        let hi = address[i] as int / 16;
        let lo = address[i] as int % 16;
        assert(text[2 * i] == hex_digit(hi));
        assert(text[2 * i + 1] == hex_digit(lo));
        assert(hex_digit_value(hex_digit(hi)) == Some(hi as u8));
        assert(hex_digit_value(hex_digit(lo)) == Some(lo as u8));
    }
}

/// The value of a hexadecimal digit of either case.
fn digit_value(c: char) -> (value: Option<u8>)
    ensures
        value == hex_digit_value(c),
        value matches Some(v) ==> v < 16,
{
    if c == '0' {
        Some(0)
    } else if c == '1' {
        Some(1)
    } else if c == '2' {
        Some(2)
    } else if c == '3' {
        Some(3)
    } else if c == '4' {
        Some(4)
    } else if c == '5' {
        Some(5)
    } else if c == '6' {
        Some(6)
    } else if c == '7' {
        Some(7)
    } else if c == '8' {
        Some(8)
    } else if c == '9' {
        Some(9)
    } else if c == 'a' || c == 'A' {
        Some(10)
    } else if c == 'b' || c == 'B' {
        Some(11)
    } else if c == 'c' || c == 'C' {
        Some(12)
    } else if c == 'd' || c == 'D' {
        Some(13)
    } else if c == 'e' || c == 'E' {
        Some(14)
    } else if c == 'f' || c == 'F' {
        Some(15)
    } else {
        None
    }
}

/// The twenty bytes that the text denotes: forty hexadecimal digits of
/// either case, after an optional `0x`. `None` for any other text.
#[verifier::loop_isolation(false)]
pub fn parse_address(text: &str) -> (address: Option<[u8; 20]>)
    ensures
        match address {
            Some(bytes) => denotes_address(text@, bytes@),
            None => !is_address_text(text@),
        },
{
    let len = text.unicode_len();
    let start: usize = if len >= 2 && text.get_char(0) == '0' && text.get_char(1) == 'x' {
        2
    } else {
        0
    };
    let ghost digits = without_prefix(text@);
    if len - start != 40 {
        return None;
    }
    let mut bytes: [u8; 20] = [0u8; 20];
    let mut i: usize = 0;
    while i < 20
        invariant
            i <= 20,
            digits.len() == 40,
            forall|k: int| 0 <= k < 2 * i ==> hex_digit_value(#[trigger] digits[k]) is Some,
            forall|k: int|
                0 <= k < i ==> #[trigger] bytes@[k] == hex_digit_value(digits[2 * k]).unwrap() * 16
                    + hex_digit_value(digits[2 * k + 1]).unwrap(),
        decreases 20 - i,
    {
        let high = digit_value(text.get_char(start + 2 * i));
        let low = digit_value(text.get_char(start + 2 * i + 1));
        assert(digits[2 * i] == text@[start + 2 * i]);
        assert(digits[2 * i + 1] == text@[start + 2 * i + 1]);
        match (high, low) {
            (Some(h), Some(l)) => {
                bytes.set(i, h * 16 + l);
            },
            _ => {
                return None;
            },
        }
        i += 1;
    }
    Some(bytes)
}

/// The text of an optional entry, `default` where it is absent.
pub open spec fn text_or(entry: Option<String>, default: Seq<char>) -> Seq<char> {
    match entry {
        Some(text) => text@,
        None => default,
    }
}

/// Whether `held` is the issued token `listed` with the bytes of its address
/// and with its optional entries filled: no token id as the empty text, no
/// network as "mainnet", no schema as "erc20".
pub open spec fn holds_token(held: TokenIssued, listed: TokenIssued) -> bool {
    &&& denotes_address(listed.address@, held.token_address@)
    &&& held.address@ == listed.address@
    &&& held.name@ == listed.name@
    &&& held.initial_block == listed.initial_block
    &&& held.token_id is Some
    &&& text_or(held.token_id, Seq::empty()) == text_or(listed.token_id, Seq::empty())
    &&& held.network is Some
    &&& text_or(held.network, Seq::empty()) == text_or(listed.network, "mainnet"@)
    &&& held.schema is Some
    &&& text_or(held.schema, Seq::empty()) == text_or(listed.schema, "erc20"@)
}

impl AddressRegistry {
    /// Whether the registry holds what the file lists: the treasury
    /// addresses are those of the treasury accounts, and the issued tokens
    /// are those of the file, each with the bytes of its address.
    pub open spec fn holds(&self, file: FrensFile) -> bool {
        &&& self.treasury_addresses@.len() == file.treasury_accounts@.len()
        &&& forall|i: int|
            0 <= i < file.treasury_accounts@.len() ==> denotes_address(
                (#[trigger] file.treasury_accounts@[i]).address@,
                self.treasury_addresses@[i]@,
            )
        &&& self.tokens_issued@.len() == file.tokens_issued@.len()
        &&& forall|j: int|
            0 <= j < file.tokens_issued@.len() ==> holds_token(
                self.tokens_issued@[j],
                #[trigger] file.tokens_issued@[j],
            )
    }

    /// The registry of a file. Every address must be forty hexadecimal
    /// digits, with or without a leading `0x`; the first that is not is
    /// reported, treasury accounts before issued tokens.
    pub fn from_frens_file(file: &FrensFile) -> (result: Result<AddressRegistry, RegistryError>)
        ensures
            match result {
                Ok(registry) => registry.holds(*file),
                Err(RegistryError::InvalidTreasuryAddress { position }) => {
                    &&& position < file.treasury_accounts@.len()
                    &&& !is_address_text(file.treasury_accounts@[position as int].address@)
                    &&& forall|i: int|
                        0 <= i < position ==> is_address_text(
                            (#[trigger] file.treasury_accounts@[i]).address@,
                        )
                },
                Err(RegistryError::InvalidTokenAddress { position }) => {
                    &&& position < file.tokens_issued@.len()
                    &&& !is_address_text(file.tokens_issued@[position as int].address@)
                    &&& forall|i: int|
                        0 <= i < file.treasury_accounts@.len() ==> is_address_text(
                            (#[trigger] file.treasury_accounts@[i]).address@,
                        )
                    &&& forall|j: int|
                        0 <= j < position ==> is_address_text(
                            (#[trigger] file.tokens_issued@[j]).address@,
                        )
                },
            },
    {
        let mut treasury_addresses: Vec<[u8; 20]> = Vec::new();
        let mut i: usize = 0;
        while i < file.treasury_accounts.len()
            invariant
                i <= file.treasury_accounts@.len(),
                treasury_addresses@.len() == i,
                forall|k: int|
                    0 <= k < i ==> denotes_address(
                        (#[trigger] file.treasury_accounts@[k]).address@,
                        treasury_addresses@[k]@,
                    ),
            decreases file.treasury_accounts@.len() - i,
        {
            match parse_address(file.treasury_accounts[i].address.as_str()) {
                Some(bytes) => {
                    treasury_addresses.push(bytes);
                },
                None => {
                    return Err(RegistryError::InvalidTreasuryAddress { position: i });
                },
            }
            i += 1;
        }
        let mut tokens_issued: Vec<TokenIssued> = Vec::new();
        let mut j: usize = 0;
        while j < file.tokens_issued.len()
            invariant
                j <= file.tokens_issued@.len(),
                tokens_issued@.len() == j,
                forall|k: int|
                    0 <= k < file.treasury_accounts@.len() ==> is_address_text(
                        (#[trigger] file.treasury_accounts@[k]).address@,
                    ),
                forall|k: int|
                    0 <= k < j ==> holds_token(
                        tokens_issued@[k],
                        #[trigger] file.tokens_issued@[k],
                    ),
            decreases file.tokens_issued@.len() - j,
        {
            let listed = &file.tokens_issued[j];
            match parse_address(listed.address.as_str()) {
                Some(bytes) => {
                    let token_id = match &listed.token_id {
                        Some(id) => id.clone(),
                        None => String::new(),
                    };
                    let network = match &listed.network {
                        Some(name) => name.clone(),
                        None => String::from_str("mainnet"),
                    };
                    let schema = match &listed.schema {
                        Some(name) => name.clone(),
                        None => String::from_str("erc20"),
                    };
                    tokens_issued.push(
                        TokenIssued {
                            name: listed.name.clone(),
                            address: listed.address.clone(),
                            token_address: bytes,
                            token_id: Some(token_id),
                            network: Some(network),
                            schema: Some(schema),
                            initial_block: listed.initial_block,
                        },
                    );
                },
                None => {
                    return Err(RegistryError::InvalidTokenAddress { position: j });
                },
            }
            j += 1;
        }
        Ok(AddressRegistry { treasury_addresses, tokens_issued })
    }
}

} // verus!
