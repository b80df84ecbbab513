//! Account addresses and the contract-call payloads built from them.
use crate::amount::Amount;
use crate::error::BridgeError;
use clarity::abi::AbiToken;
use vstd::prelude::*;

verus! {

/// A 20-byte account or contract address.
#[derive(Clone, Copy, Debug, PartialEq, Eq)]
pub struct EthAddress {
    pub bytes: [u8; 20],
}

#[verifier::external_type_specification]
#[verifier::external_body]
pub struct ExAbiError(clarity::Error);

/// The payload that calls the function `signature` with the arguments `addresses`
/// followed by `amounts`: its method id, then the arguments in the contract ABI.
pub uninterp spec fn abi_call_data(
    signature: Seq<char>,
    addresses: Seq<EthAddress>,
    amounts: Seq<Amount>,
) -> Seq<u8>;

/// A signature the encoder can read without failing: it starts with a function name.
pub open spec fn is_named_signature(signature: Seq<char>) -> bool {
    signature.len() > 0 && (('a' <= signature[0] && signature[0] <= 'z') || ('A' <= signature[0]
        && signature[0] <= 'Z'))
}

/// A letter or a digit.
pub open spec fn is_word_char(c: char) -> bool {
    ('a' <= c && c <= 'z') || ('A' <= c && c <= 'Z') || ('0' <= c && c <= '9')
}

/// The number of commas in `s`.
pub open spec fn comma_count(s: Seq<char>) -> nat
    decreases s.len(),
{
    if s.len() == 0 {
        0
    } else {
        comma_count(s.drop_last()) + if s.last() == ',' {
            1nat
        } else {
            0nat
        }
    }
}

/// A parameter list of letters, digits and commas that starts and ends with a type name.
pub open spec fn is_plain_params(params: Seq<char>) -> bool {
    params.len() == 0 || (is_word_char(params[0]) && is_word_char(params.last()) && forall|i: int|
        0 <= i < params.len() ==> is_word_char(#[trigger] params[i]) || params[i] == ',')
}

/// How many parameters a plain parameter list names.
pub open spec fn param_count(params: Seq<char>) -> nat {
    if params.len() == 0 {
        0
    } else {
        comma_count(params) + 1
    }
}

/// `signature` is `name(params)`, with a name of letters and digits starting with a
/// letter and a plain parameter list.
pub open spec fn is_plain_signature_at(signature: Seq<char>, k: int) -> bool {
    &&& 0 < k < signature.len() - 1
    &&& signature[k] == '('
    &&& signature.last() == ')'
    &&& is_named_signature(signature)
    &&& forall|i: int| 0 <= i < k ==> is_word_char(#[trigger] signature[i])
    &&& is_plain_params(signature.subrange(k + 1, signature.len() - 1))
}

/// A call the encoder accepts: a plain signature `name(params)` that names as many
/// parameters as `n` arguments are given. Such a signature holds no space and one
/// parenthesis of each kind, and the encoder counts its parameters as `param_count`.
pub open spec fn encodable(signature: Seq<char>, n: nat) -> bool {
    exists|k: int|
        #[trigger] is_plain_signature_at(signature, k) && param_count(
            signature.subrange(k + 1, signature.len() - 1),
        ) == n
}

/// Relies on clarity::abi::encode_call: what it returns on success is the call payload
/// of `signature` and the arguments, addresses as address tokens and amounts as
/// unsigned tokens. It counts the arguments by splitting the signature and subtracts
/// one for the name, so the name must be there. It fails only on a signature with a
/// space, without both parentheses or with unmatched ones, or whose count of parameters
/// differs from the number of tokens, none of which is the case for an `encodable` call.
#[verifier::external_body]
fn encode_call(signature: &str, addresses: &Vec<EthAddress>, amounts: &Vec<Amount>) -> (r: Result<
    Vec<u8>,
    clarity::Error,
>)
    requires
        is_named_signature(signature@),
    ensures
        r matches Ok(data) ==> data@ == abi_call_data(signature@, addresses@, amounts@),
        encodable(signature@, addresses@.len() + amounts@.len()) ==> r is Ok,
{
    let addresses = addresses.iter().map(|a| AbiToken::Address(clarity::Address::from(a.bytes)));
    let amounts = amounts.iter().map(|v| AbiToken::Uint(clarity::Uint256::from(v.bytes)));
    let tokens: Vec<AbiToken> = addresses.chain(amounts).collect();
    clarity::abi::encode_call(signature, &tokens)
}

/// The payload for calling `signature` with `addresses` then `amounts`, or
/// `EncodingFailure`.
pub fn call_data(signature: &str, addresses: &Vec<EthAddress>, amounts: &Vec<Amount>) -> (r: Result<
    Vec<u8>,
    BridgeError,
>)
    requires
        is_named_signature(signature@),
    ensures
        r matches Ok(data) ==> data@ == abi_call_data(signature@, addresses@, amounts@),
        encodable(signature@, addresses@.len() + amounts@.len()) ==> r is Ok,
        r is Err ==> r == Err::<Vec<u8>, BridgeError>(BridgeError::EncodingFailure),
{
    match encode_call(signature, addresses, amounts) {
        Ok(data) => Ok(data),
        Err(_) => Err(BridgeError::EncodingFailure),
    }
}

} // verus!
