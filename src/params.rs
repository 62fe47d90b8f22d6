use vstd::prelude::*;

use crate::error::ErrorKind;

verus! {

#[verifier::external_type_specification]
#[verifier::external_body]
pub struct ExCodecError(fvm_ipld_encoding::Error);

/// Encoding of the one-element tuple `(address,)`.
pub uninterp spec fn cbor_address(address: Seq<char>) -> Seq<u8>;

/// Encoding of the tuple `(receiver, amount)`.
pub uninterp spec fn cbor_receiver_amount(receiver: Seq<char>, amount: u64) -> Seq<u8>;

/// Encoding of the tuple `(amount, spender)`.
pub uninterp spec fn cbor_amount_spender(amount: u64, spender: Seq<char>) -> Seq<u8>;

/// Encoding of the tuple `(owner, receiver, amount)`.
pub uninterp spec fn cbor_owner_receiver_amount(
    owner: Seq<char>,
    receiver: Seq<char>,
    amount: u64,
) -> Seq<u8>;

/// Relies on fvm_ipld_encoding::RawBytes::serialize for `(String,)`: the
/// DAG-CBOR bytes depend on the value alone. Strings and tuple headers are
/// written into a growable vector, which fails only when memory cannot be
/// reserved.
#[verifier::external_body]
fn serialize_address(address: &String) -> (r: Result<Vec<u8>, fvm_ipld_encoding::Error>)
    ensures
        r is Ok,
        r matches Ok(b) ==> b@ == cbor_address(address@),
{
    fvm_ipld_encoding::RawBytes::serialize((address,)).map(Vec::from)
}

/// Relies on fvm_ipld_encoding::RawBytes::serialize for `(String, u64)`:
/// the DAG-CBOR bytes depend on the values alone. Strings, integers and
/// tuple headers are written into a growable vector, which fails only when
/// memory cannot be reserved.
#[verifier::external_body]
fn serialize_receiver_amount(receiver: &String, amount: u64) -> (r: Result<
    Vec<u8>,
    fvm_ipld_encoding::Error,
>)
    ensures
        r is Ok,
        r matches Ok(b) ==> b@ == cbor_receiver_amount(receiver@, amount),
{
    fvm_ipld_encoding::RawBytes::serialize((receiver, amount)).map(Vec::from)
}

/// Relies on fvm_ipld_encoding::RawBytes::serialize for `(u64, String)`:
/// the DAG-CBOR bytes depend on the values alone. Strings, integers and
/// tuple headers are written into a growable vector, which fails only when
/// memory cannot be reserved.
#[verifier::external_body]
fn serialize_amount_spender(amount: u64, spender: &String) -> (r: Result<
    Vec<u8>,
    fvm_ipld_encoding::Error,
>)
    ensures
        r is Ok,
        r matches Ok(b) ==> b@ == cbor_amount_spender(amount, spender@),
{
    fvm_ipld_encoding::RawBytes::serialize((amount, spender)).map(Vec::from)
}

/// Relies on fvm_ipld_encoding::RawBytes::serialize for
/// `(String, String, u64)`: the DAG-CBOR bytes depend on the values alone.
/// Strings, integers and tuple headers are written into a growable vector,
/// which fails only when memory cannot be reserved.
#[verifier::external_body]
fn serialize_owner_receiver_amount(owner: &String, receiver: &String, amount: u64) -> (r: Result<
    Vec<u8>,
    fvm_ipld_encoding::Error,
>)
    ensures
        r is Ok,
        r matches Ok(b) ==> b@ == cbor_owner_receiver_amount(owner@, receiver@, amount),
{
    fvm_ipld_encoding::RawBytes::serialize((owner, receiver, amount)).map(Vec::from)
}

/// Keeps the bytes of a successful encoding; any codec failure becomes a
/// serialization error.
fn codec_result(r: Result<Vec<u8>, fvm_ipld_encoding::Error>) -> (out: Result<Vec<u8>, ErrorKind>)
    ensures
        r is Ok <==> out is Ok,
        out matches Ok(b) ==> r matches Ok(c) && b@ == c@,
        out matches Err(e) ==> e == ErrorKind::Serialization,
{
    match r {
        Ok(b) => Ok(b),
        Err(_) => Err(ErrorKind::Serialization),
    }
}

/// Parameters of the balance query.
pub struct BalanceOfParams {
    pub address: String,
}

/// Parameters of a transfer from the sender to `receiver_addr`.
pub struct TransferParams {
    pub receiver_addr: String,
    pub transfer_amount: u64,
}

/// Parameters that set the allowance of `wallet_addr` over the sender's
/// tokens.
pub struct AllowanceParams {
    pub wallet_addr: String,
    pub new_allowance: u64,
}

/// Parameters of a transfer made by an approved spender on behalf of
/// `owner_addr`.
pub struct TransferFromParams {
    pub owner_addr: String,
    pub receiver_addr: String,
    pub transfer_amount: u64,
}

impl BalanceOfParams {
    /// Encodes as `(address,)`.
    pub fn encode(&self) -> (r: Result<Vec<u8>, ErrorKind>)
        ensures
            r matches Ok(b) ==> b@ == cbor_address(self.address@),
            r is Ok,
    {
        codec_result(serialize_address(&self.address))
    }
}

impl TransferParams {
    /// Encodes as `(receiver, amount)`.
    pub fn encode(&self) -> (r: Result<Vec<u8>, ErrorKind>)
        ensures
            r matches Ok(b) ==> b@ == cbor_receiver_amount(
                self.receiver_addr@,
                self.transfer_amount,
            ),
            r is Ok,
    {
        codec_result(serialize_receiver_amount(&self.receiver_addr, self.transfer_amount))
    }
}

impl AllowanceParams {
    /// Encodes as `(amount, spender)`: the amount comes first, unlike in
    /// a transfer, because that is the order the contract reads.
    pub fn encode(&self) -> (r: Result<Vec<u8>, ErrorKind>)
        ensures
            r matches Ok(b) ==> b@ == cbor_amount_spender(self.new_allowance, self.wallet_addr@),
            r is Ok,
    {
        codec_result(serialize_amount_spender(self.new_allowance, &self.wallet_addr))
    }
}

impl TransferFromParams {
    /// Encodes as `(owner, receiver, amount)`.
    pub fn encode(&self) -> (r: Result<Vec<u8>, ErrorKind>)
        ensures
            r matches Ok(b) ==> b@ == cbor_owner_receiver_amount(
                self.owner_addr@,
                self.receiver_addr@,
                self.transfer_amount,
            ),
            r is Ok,
    {
        codec_result(
            serialize_owner_receiver_amount(
                &self.owner_addr,
                &self.receiver_addr,
                self.transfer_amount,
            ),
        )
    }
}

} // verus!
