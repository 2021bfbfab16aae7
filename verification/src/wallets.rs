//! Wallets: an address, with or without the private key that signs for it.

use vstd::prelude::*;
use crate::crypto::{address_from_private_key, derived_address};
use crate::error::WalletError;
use crate::primitives::{lemma_h160_ext, Address, H256};

verus! {

/// An address and, for a wallet that can sign, the private key of that
/// address.
///
/// A wallet is made by [`Wallet::from_address`] or
/// [`Wallet::from_private_key`] and never changes afterwards. Where it holds
/// a private key, its address is the one derived from that key.
#[derive(Debug)]
pub struct Wallet {
    address: Address,
    private_key: Option<H256>,
}

/// Why no wallet is made of a private key and the address expected of it;
/// none where a wallet is made.
///
/// A key that is not valid is refused. A valid key is refused together with
/// an expected address that is not the one derived from the key.
pub open spec fn refusal(private_key: H256, expected: Option<Address>) -> Option<WalletError> {
    match derived_address(private_key@) {
        None => Some(WalletError::InvalidPrivateKey),
        Some(derived) => if expected matches Some(address) && address@ != derived {
            Some(WalletError::AddressMismatch)
        } else {
            None
        },
    }
}

impl Wallet {
    #[verifier::type_invariant]
    spec fn consistent(self) -> bool {
        self.private_key matches Some(key) ==> derived_address(key@) == Some(self.address@)
    }

    /// The address of the wallet.
    pub closed spec fn spec_address(&self) -> Address {
        self.address
    }

    /// The private key of the wallet; none for a watch-only wallet.
    pub closed spec fn spec_private_key(&self) -> Option<H256> {
        self.private_key
    }

    /// A watch-only wallet of `address`: it has no private key and cannot
    /// sign.
    pub fn from_address(address: Address) -> (wallet: Wallet)
        ensures
            wallet.address() == address,
            wallet.private_key() is None,
    {
        Wallet { address, private_key: None }
    }

    /// Whether this is the signing wallet of `key`: it holds the key, and
    /// its address is the one derived from the key.
    pub open spec fn signs_with(&self, key: H256) -> bool {
        &&& self.private_key() == Some(key)
        &&& derived_address(key@) == Some(self.address()@)
    }

    /// A signing wallet of `private_key`.
    ///
    /// The address of the wallet is derived from the key. An `address` that
    /// is handed in is only compared with the derived one, and the wallet is
    /// refused where the two differ.
    pub fn from_private_key(private_key: H256, address: Option<Address>) -> (res: Result<
        Wallet,
        WalletError,
    >)
        ensures
            match res {
                Ok(wallet) => refusal(private_key, address) is None && wallet.signs_with(
                    private_key,
                ),
                Err(e) => refusal(private_key, address) == Some(e),
            },
    {
        match address_from_private_key(&private_key) {
            None => Err(WalletError::InvalidPrivateKey),
            Some(calculated_address) => {
                if let Some(expected) = address {
                    if calculated_address != expected {
                        proof {
                            if calculated_address@ == expected@ {
                                lemma_h160_ext(calculated_address, expected);
                            }
                        }
                        return Err(WalletError::AddressMismatch);
                    }
                }
                Ok(Wallet { address: calculated_address, private_key: Some(private_key) })
            },
        }
    }

    /// The address of the wallet.
    #[verifier::when_used_as_spec(spec_address)]
    pub fn address(&self) -> (res: Address)
        ensures
            res == self.address(),
            self.private_key() matches Some(key) ==> derived_address(key@) == Some(res@),
    {
        proof {
            use_type_invariant(self);
        }
        self.address
    }

    /// The private key of the wallet; none for a watch-only wallet.
    #[verifier::when_used_as_spec(spec_private_key)]
    pub fn private_key(&self) -> (res: Option<H256>)
        ensures
            res == self.private_key(),
            res matches Some(key) ==> derived_address(key@) == Some(self.address()@),
    {
        proof {
            use_type_invariant(self);
        }
        self.private_key
    }
}

impl Clone for Wallet {
    fn clone(&self) -> (res: Self)
        ensures
            res == *self,
    {
        proof {
            use_type_invariant(self);
        }
        Wallet { address: self.address, private_key: self.private_key }
    }
}

/// A valid private key alone always makes a wallet.
pub proof fn lemma_valid_key_accepted(private_key: H256)
    requires
        derived_address(private_key@) is Some,
    ensures
        refusal(private_key, None) is None,
{
}

/// A valid private key makes a wallet together with the address derived from
/// it, and is refused as a mismatch together with any other address.
pub proof fn lemma_expected_address_checked(private_key: H256, expected: Address)
    requires
        derived_address(private_key@) is Some,
    ensures
        expected@ == derived_address(private_key@).unwrap() ==> refusal(
            private_key,
            Some(expected),
        ) is None,
        expected@ != derived_address(private_key@).unwrap() ==> refusal(
            private_key,
            Some(expected),
        ) == Some(WalletError::AddressMismatch),
{
}

/// A wallet is its address and its private key: two wallets that agree on
/// both are the same wallet.
pub proof fn lemma_wallet_ext(a: Wallet, b: Wallet)
    requires
        a.address() == b.address(),
        a.private_key() == b.private_key(),
    ensures
        a == b,
{
}

/// The credentials of the component that sends transactions to the base
/// layer.
#[derive(Debug)]
pub struct EthSender {
    /// Signs the ordinary transactions.
    pub operator: Wallet,
    /// Signs the transactions that carry blobs, where such a signer is
    /// configured.
    pub blob_operator: Option<Wallet>,
}

/// The credentials of the component that produces blocks.
#[derive(Debug)]
pub struct StateKeeper {
    /// Receives the fees. Watch-only.
    pub fee_account: Wallet,
}

/// The credentials of a node. A group is absent where the component that it
/// belongs to is not configured.
#[derive(Debug)]
pub struct Wallets {
    pub eth_sender: Option<EthSender>,
    pub state_keeper: Option<StateKeeper>,
}

impl Clone for EthSender {
    fn clone(&self) -> (res: Self)
        ensures
            res == *self,
    {
        EthSender { operator: self.operator.clone(), blob_operator: self.blob_operator.clone() }
    }
}

impl Clone for StateKeeper {
    fn clone(&self) -> (res: Self)
        ensures
            res == *self,
    {
        StateKeeper { fee_account: self.fee_account.clone() }
    }
}

impl Clone for Wallets {
    fn clone(&self) -> (res: Self)
        ensures
            res == *self,
    {
        Wallets { eth_sender: self.eth_sender.clone(), state_keeper: self.state_keeper.clone() }
    }
}

} // verus!
