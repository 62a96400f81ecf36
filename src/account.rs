use vstd::prelude::*;

verus! {

/// The sequence number held by an account.
#[derive(Debug, PartialEq, Eq, Structural)]
pub struct AccountResource {
    sequence_number: u64,
}

impl View for AccountResource {
    type V = u64;

    closed spec fn view(&self) -> u64 {
        self.sequence_number
    }
}

/// The key of an account that authenticates natively.
#[derive(Debug, PartialEq, Eq)]
pub struct NativeAuthenticatorResource {
    authentication_key: Vec<u8>,
}

impl View for NativeAuthenticatorResource {
    type V = Seq<u8>;

    closed spec fn view(&self) -> Seq<u8> {
        self.authentication_key@
    }
}

/// An account that authenticates through a module of its own.
#[derive(Debug, PartialEq, Eq)]
pub struct CustomizedAuthenticatorResource {
    account_address: [u8; 32],
    module_name: Vec<u8>,
}

/// How an account authenticates.
#[derive(Debug, PartialEq, Eq)]
pub enum Authenticator {
    Native(NativeAuthenticatorResource),
    Customized(CustomizedAuthenticatorResource),
}

/// A light representation of an account: its sequence number and how it
/// authenticates.
#[derive(Debug, PartialEq, Eq)]
pub struct LiteAccount {
    pub account_resource: AccountResource,
    pub authenticator: Authenticator,
}

impl LiteAccount {
    /// An account with this sequence number that authenticates natively with
    /// this key.
    pub fn new(sequence_number: u64, authentication_key: Vec<u8>) -> (r: Self)
        ensures
            r.account_resource@ == sequence_number,
            r.authenticator matches Authenticator::Native(n) && n@ == authentication_key@,
    {
        LiteAccount {
            account_resource: AccountResource { sequence_number },
            authenticator: Authenticator::Native(NativeAuthenticatorResource { authentication_key }),
        }
    }

    pub fn sequence_number(&self) -> (r: u64)
        ensures
            r == self.account_resource@,
    {
        self.account_resource.sequence_number
    }

    /// The key of a natively authenticating account.
    pub fn authentication_key(&self) -> (r: &[u8])
        requires
            self.authenticator is Native,
        ensures
            self.authenticator matches Authenticator::Native(n) && r@ == n@,
    {
        match &self.authenticator {
            Authenticator::Native(native) => native.authentication_key.as_slice(),
            Authenticator::Customized(_) => {
                proof {
                    assert(false);
                }
                &[]
            },
        }
    }
}

} // verus!
