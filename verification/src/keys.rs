//! EIP-3 key derivation: `m/44'/429'/0'/0/{index}` from a BIP-39 mnemonic.
use vstd::prelude::*;
use vstd::string::*;

use ergo_lib::wallet::secret_key::SecretKey;
use ergo_lib::wallet::Wallet;
use ergo_lib::wallet::derivation_path::DerivationPath;
use ergo_lib::wallet::ext_secret_key::ExtSecretKey;

use crate::outside::{
    address_of_secret, address_text, child_key_of, derivation_path_of, derive_child_key,
    derive_master_key, encode_address, master_key_of, mnemonic_seed, mnemonic_seed_bytes,
    parse_derivation_path, secret_address, secret_key_in, secret_key_of, wallet_from, wallet_of,
};
use crate::error::WalletError;
use crate::text::{base58_text, decimal, lemma_signed_decimal_injective, signed_decimal, write_decimal, write_signed_decimal};

verus! {

/// The EIP-3 path prefix: purpose 44', coin 429', account 0', external chain 0.
pub open spec fn eip3_prefix() -> Seq<char> {
    "m/44'/429'/0'/0/"@
}

/// The EIP-3 derivation path text of an address index.
pub open spec fn eip3_path_text(index: int) -> Seq<char> {
    eip3_prefix() + signed_decimal(index)
}

/// The number of keys a wallet derives: the count as an unsigned 32-bit number
/// (`as u32`), but at least one.
pub open spec fn key_count_spec(derivation_count: i32) -> nat {
    let unsigned: int = if derivation_count >= 0 { derivation_count as int } else { derivation_count + 0x1_0000_0000 };
    if unsigned >= 1 { unsigned as nat } else { 1 }
}

/// The number of keys a wallet derives from `derivation_count`.
pub fn key_count(derivation_count: i32) -> (n: u32)
    ensures
        n == key_count_spec(derivation_count),
        n >= 1,
{
    let unsigned: u32 = if derivation_count >= 0 {
        derivation_count as u32
    } else {
        let wide: i64 = derivation_count as i64 + 0x1_0000_0000i64;
        wide as u32
    };
    if unsigned >= 1 { unsigned } else { 1 }
}

/// A wallet derives one key per address it uses: for any positive count the number of
/// keys is the count itself, with no upper limit; a count of zero still derives the
/// primary key. (A negative count is read as unsigned, `as u32`, as the entry point does.)
pub proof fn law_key_count_follows_address_count(derivation_count: i32)
    ensures
        derivation_count >= 1 ==> key_count_spec(derivation_count) == derivation_count,
        derivation_count == 0 ==> key_count_spec(derivation_count) == 1,
        key_count_spec(derivation_count) >= 1,
{
}

fn eip3_prefix_string() -> (s: String)
    ensures
        s@ == eip3_prefix(),
{
    String::from_str("m/44'/429'/0'/0/")
}

/// The EIP-3 derivation path of a (possibly negative) address index.
pub fn eip3_path(index: i32) -> (s: String)
    ensures
        s@ == eip3_path_text(index as int),
{
    let mut s = eip3_prefix_string();
    write_signed_decimal(&mut s, index);
    s
}

/// The EIP-3 derivation path of an unsigned address index.
pub fn eip3_path_unsigned(index: u32) -> (s: String)
    ensures
        s@ == eip3_path_text(index as int),
        s@ == eip3_prefix() + decimal(index as nat),
{
    let mut s = eip3_prefix_string();
    write_decimal(&mut s, index as u64);
    s
}

/// The secret key at EIP-3 index `index` of a seed: the master key of the seed, derived
/// along `m/44'/429'/0'/0/{index}`; `None` when a step fails.
pub open spec fn eip3_key(seed: Seq<u8>, index: int) -> Option<SecretKey> {
    match master_key_of(seed) {
        None => None,
        Some(master) => match derivation_path_of(eip3_path_text(index)) {
            None => None,
            Some(path) => match child_key_of(master, path) {
                None => None,
                Some(child) => Some(secret_key_in(child)),
            },
        },
    }
}

/// The P2PK address text, for the given network, of the key at EIP-3 index `index` of a
/// seed; `None` when the key cannot be derived.
pub open spec fn eip3_address(seed: Seq<char>, pass: Seq<char>, index: int, mainnet: bool) -> Option<Seq<char>> {
    match eip3_key(mnemonic_seed_bytes(seed, pass), index) {
        Some(key) => Some(address_text(secret_address(key), mainnet)),
        None => None,
    }
}

/// Every one of the wallet's `key_count(derivation_count)` EIP-3 keys can be derived.
pub open spec fn wallet_keys_derive(mnemonic: Seq<char>, pass: Seq<char>, derivation_count: i32) -> bool {
    forall|i: int| 0 <= i < key_count_spec(derivation_count)
        ==> #[trigger] eip3_key(mnemonic_seed_bytes(mnemonic, pass), i) is Some
}

/// Why deriving the wallet's keys failed: the seed gives no master key, or the key at
/// index `i` is the first that cannot be derived.
pub open spec fn key_error_explained(e: WalletError, mnemonic: Seq<char>, pass: Seq<char>, derivation_count: i32) -> bool {
    let seed = mnemonic_seed_bytes(mnemonic, pass);
    ||| e is DeriveMaster && master_key_of(seed) is None
    ||| e matches WalletError::DeriveAt(i, _) && i < key_count_spec(derivation_count)
        && master_key_of(seed) is Some && eip3_key(seed, i as int) is None
        && forall|j: int| 0 <= j < i ==> #[trigger] eip3_key(seed, j) is Some
}

/// The address of an index is the address of the key that the wallet derives at that very
/// index: `mnemonic_to_address(m, p, i, net)` encodes the public image of the `i`-th key
/// that `derive_wallet_secrets(m, p, n)` returns (for `i < n`), on the requested network.
pub proof fn law_address_is_of_the_wallet_key(mnemonic: Seq<char>, pass: Seq<char>, index: int, mainnet: bool)
    ensures
        eip3_address(mnemonic, pass, index, mainnet) is Some
            <==> eip3_key(mnemonic_seed_bytes(mnemonic, pass), index) is Some,
        eip3_key(mnemonic_seed_bytes(mnemonic, pass), index) matches Some(k)
            ==> eip3_address(mnemonic, pass, index, mainnet) == Some(address_text(secret_address(k), mainnet)),
{
}

/// The key of an index is the master key of the seed derived along that index's own EIP-3
/// path, `m/44'/429'/0'/0/{index}`; it exists exactly when the master key, the path and the
/// child key do.
pub proof fn law_key_is_derived_along_its_path(seed: Seq<u8>, index: int)
    ensures
        eip3_key(seed, index) is Some <==> (master_key_of(seed) matches Some(m)
            && (derivation_path_of("m/44'/429'/0'/0/"@ + signed_decimal(index)) matches Some(p)
            && child_key_of(m, p) is Some)),
        forall|m: ExtSecretKey, p: DerivationPath|
            master_key_of(seed) == Some(m)
            && derivation_path_of("m/44'/429'/0'/0/"@ + signed_decimal(index)) == Some(p)
            && (#[trigger] child_key_of(m, p)) is Some
            ==> eip3_key(seed, index) == Some(secret_key_in(child_key_of(m, p)->0)),
{
}

/// Different indices are derived along different paths: the path of an index names the
/// whole index, so no two indices share a key derivation.
pub proof fn law_indices_have_distinct_paths(i: int, j: int)
    requires
        i != j,
    ensures
        eip3_path_text(i) != eip3_path_text(j),
{
    lemma_signed_decimal_injective(i, j);
    if eip3_path_text(i) == eip3_path_text(j) {
        let n = eip3_prefix().len();
        assert(signed_decimal(i) =~= eip3_path_text(i).subrange(n as int, eip3_path_text(i).len() as int));
        assert(signed_decimal(j) =~= eip3_path_text(j).subrange(n as int, eip3_path_text(j).len() as int));
    }
}

proof fn lemma_eip3_path_starts_with_master(index: int)
    ensures
        eip3_path_text(index).len() >= 2,
        eip3_path_text(index)[0] == 'm',
        eip3_path_text(index)[1] == '/',
{
    reveal_strlit("m/44'/429'/0'/0/");
}

/// The P2PK address (base58 text, mainnet when `is_mainnet` is non-zero, else testnet)
/// of the EIP-3 key at `index` of a mnemonic and passphrase. The path always parses;
/// an error comes from deriving the master key or the child key.
pub fn mnemonic_to_address(mnemonic: &str, mnemonic_pass: &str, index: i32, is_mainnet: u8) -> (r: Result<String, WalletError>)
    ensures
        r is Ok <==> eip3_address(mnemonic@, mnemonic_pass@, index as int, is_mainnet != 0) is Some,
        r matches Ok(address) ==> eip3_address(mnemonic@, mnemonic_pass@, index as int, is_mainnet != 0) == Some(address@)
            && base58_text(address@),
        r matches Ok(address) ==> (eip3_key(mnemonic_seed_bytes(mnemonic@, mnemonic_pass@), index as int) matches Some(k)
            && address@ == address_text(secret_address(k), is_mainnet != 0)),
        r matches Err(e) ==> (e is DeriveMaster <==> master_key_of(mnemonic_seed_bytes(mnemonic@, mnemonic_pass@)) is None),
        r matches Err(e) ==> e is DeriveMaster || e is Derive,
{
    let seed = mnemonic_seed(mnemonic, mnemonic_pass);
    let master = match derive_master_key(&seed) {
        Ok(m) => m,
        Err(e) => {
            return Err(WalletError::DeriveMaster(e));
        },
    };
    let path_text = eip3_path(index);
    proof {
        lemma_eip3_path_starts_with_master(index as int);
    }
    let path = match parse_derivation_path(&path_text) {
        Ok(p) => p,
        Err(e) => {
            return Err(WalletError::PathParse(e));
        },
    };
    let child = match derive_child_key(&master, path) {
        Ok(c) => c,
        Err(e) => {
            return Err(WalletError::Derive(e));
        },
    };
    let secret = secret_key_of(&child);
    let address = address_of_secret(&secret);
    Ok(encode_address(&address, is_mainnet != 0))
}

/// The secret keys of the first `key_count(derivation_count)` EIP-3 indices of a
/// mnemonic and passphrase, index 0 first. The paths always parse; an error comes from
/// the master key, or from the child key at some index below the count.
pub fn derive_wallet_secrets(mnemonic: &str, mnemonic_pass: &str, derivation_count: i32) -> (r: Result<Vec<SecretKey>, WalletError>)
    ensures
        r is Ok <==> wallet_keys_derive(mnemonic@, mnemonic_pass@, derivation_count),
        r matches Ok(keys) ==> keys@.len() == key_count_spec(derivation_count)
            && forall|i: int| 0 <= i < keys@.len()
                ==> #[trigger] eip3_key(mnemonic_seed_bytes(mnemonic@, mnemonic_pass@), i) == Some(keys@[i]),
        r matches Err(e) ==> key_error_explained(e, mnemonic@, mnemonic_pass@, derivation_count),
{
    let seed = mnemonic_seed(mnemonic, mnemonic_pass);
    let master = match derive_master_key(&seed) {
        Ok(m) => m,
        Err(e) => {
            assert(eip3_key(seed@, 0) is None);
            return Err(WalletError::DeriveMaster(e));
        },
    };
    let num_keys = key_count(derivation_count);
    let mut secrets: Vec<SecretKey> = Vec::new();
    let mut idx: u32 = 0;
    while idx < num_keys
        invariant
            idx <= num_keys,
            num_keys == key_count_spec(derivation_count),
            secrets@.len() == idx,
            seed@ == mnemonic_seed_bytes(mnemonic@, mnemonic_pass@),
            master_key_of(seed@) == Some(master),
            forall|j: int| 0 <= j < idx ==> #[trigger] eip3_key(seed@, j) == Some(secrets@[j]),
        decreases num_keys - idx,
    {
        let path_text = eip3_path_unsigned(idx);
        proof {
            lemma_eip3_path_starts_with_master(idx as int);
        }
        let path = match parse_derivation_path(&path_text) {
            Ok(p) => p,
            Err(e) => {
                return Err(WalletError::PathParseAt(idx, e));
            },
        };
        let child = match derive_child_key(&master, path) {
            Ok(c) => c,
            Err(e) => {
                assert(eip3_key(seed@, idx as int) is None);
                return Err(WalletError::DeriveAt(idx, e));
            },
        };
        secrets.push(secret_key_of(&child));
        idx = idx + 1;
    }
    Ok(secrets)
}

/// The wallet's keys: the EIP-3 keys of indices `0` up to `key_count(derivation_count)`,
/// in order.
pub open spec fn eip3_keys(mnemonic: Seq<char>, pass: Seq<char>, derivation_count: i32) -> Seq<SecretKey> {
    Seq::new(key_count_spec(derivation_count), |i: int| eip3_key(mnemonic_seed_bytes(mnemonic, pass), i)->0)
}

/// The wallet that signs for a mnemonic: it holds exactly the keys of the first
/// `key_count(derivation_count)` EIP-3 indices, index 0 first.
pub fn signing_wallet(mnemonic: &str, mnemonic_pass: &str, derivation_count: i32) -> (r: Result<Wallet, WalletError>)
    ensures
        r is Ok <==> wallet_keys_derive(mnemonic@, mnemonic_pass@, derivation_count),
        r matches Ok(w) ==> w == wallet_from(eip3_keys(mnemonic@, mnemonic_pass@, derivation_count)),
        r matches Err(e) ==> key_error_explained(e, mnemonic@, mnemonic_pass@, derivation_count),
{
    let secrets = derive_wallet_secrets(mnemonic, mnemonic_pass, derivation_count)?;
    assert(secrets@ =~= eip3_keys(mnemonic@, mnemonic_pass@, derivation_count));
    Ok(wallet_of(secrets))
}

/// The signing wallet holds one key per index below the count, and at each index the
/// very key whose address `mnemonic_to_address` gives for that index: no index is left
/// out and none is replaced by another.
pub proof fn law_wallet_holds_every_index_key(mnemonic: Seq<char>, pass: Seq<char>, derivation_count: i32, i: int)
    requires
        wallet_keys_derive(mnemonic, pass, derivation_count),
        0 <= i < key_count_spec(derivation_count),
    ensures
        eip3_keys(mnemonic, pass, derivation_count).len() == key_count_spec(derivation_count),
        eip3_key(mnemonic_seed_bytes(mnemonic, pass), i) == Some(eip3_keys(mnemonic, pass, derivation_count)[i]),
        eip3_address(mnemonic, pass, i, true)
            == Some(address_text(secret_address(eip3_keys(mnemonic, pass, derivation_count)[i]), true)),
{
    assert(eip3_key(mnemonic_seed_bytes(mnemonic, pass), i) is Some);
}

} // verus!
