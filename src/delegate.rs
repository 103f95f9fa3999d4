use vstd::prelude::*;
use crate::keys::{is_valid_key_name, key_name_ok};
use vstd::string::StringSliceAdditionalSpecFns;

verus! {

/// The value of a decimal digit.
pub open spec fn digit_value(c: char) -> nat {
    (c as nat - '0' as nat) as nat
}

pub open spec fn all_digits(s: Seq<char>) -> bool {
    forall|i: int| 0 <= i < s.len() ==> '0' <= #[trigger] s[i] && s[i] <= '9'
}

/// The number a string of decimal digits denotes.
pub open spec fn decimal_value(s: Seq<char>) -> nat
    decreases s.len(),
{
    if s.len() == 0 {
        0
    } else {
        decimal_value(s.drop_last()) * 10 + digit_value(s.last())
    }
}

/// A text that reads as a `u64`: an optional `+` and at least one decimal
/// digit, whose value fits.
pub open spec fn parsed_u64(s: Seq<char>) -> Option<u64> {
    let d = if s.len() > 0 && s[0] == '+' {
        s.drop_first()
    } else {
        s
    };
    if d.len() > 0 && all_digits(d) && decimal_value(d) <= u64::MAX {
        Some(decimal_value(d) as u64)
    } else {
        None
    }
}

/// Relies on `u64`'s `FromStr`, which accepts an optional `+` followed by
/// decimal digits whose value fits in the type, and nothing else.
#[verifier::external_body]
fn parse_u64(s: &str) -> (r: Option<u64>)
    ensures
        r == parsed_u64(s@),
{
    s.parse::<u64>().ok()
}

/// Whether a text reads as a Cosmos account address.
pub uninterp spec fn cosmos_address_parses(s: Seq<char>) -> bool;

/// Relies on deep_space's `FromStr` for `Address`: whether the text reads as
/// an address, in bech32 or as hex bytes.
#[verifier::external_body]
fn parses_as_cosmos_address(s: &str) -> (r: bool)
    ensures
        r == cosmos_address_parses(s@),
{
    s.parse::<deep_space::Address>().is_ok()
}

/// The unsigned LEB128 form of a number: seven bits per byte, least
/// significant first, the high bit set on every byte but the last.
pub open spec fn varint(v: nat) -> Seq<u8>
    decreases v,
{
    if v < 128 {
        seq![v as u8]
    } else {
        seq![((v % 128) + 128) as u8] + varint(v / 128)
    }
}

/// Relies on prost::encoding::encode_varint, which appends the LEB128 form of
/// the value to the buffer.
#[verifier::external_body]
fn append_varint(buf: &mut Vec<u8>, v: u64)
    ensures
        final(buf)@ == old(buf)@ + varint(v as nat),
{
    prost::encoding::encode_varint(v, buf)
}

/// The protobuf encoding of the delegate-key registration message: field 1
/// holds the validator address as a string, field 2 the nonce as a varint,
/// and each is left out when it has its default value.
pub open spec fn delegate_keys_sign_msg(validator: Seq<u8>, nonce: u64) -> Seq<u8> {
    (if validator.len() == 0 {
        Seq::<u8>::empty()
    } else {
        seq![0x0Au8] + varint(validator.len()) + validator
    }) + (if nonce == 0 {
        Seq::<u8>::empty()
    } else {
        seq![0x10u8] + varint(nonce as nat)
    })
}

/// The bytes that the Ethereum key signs to register delegate keys for a
/// validator.
pub fn encode_delegate_keys_sign_msg(validator_address: &str, nonce: u64) -> (r: Vec<u8>)
    ensures
        r@ == delegate_keys_sign_msg(validator_address.spec_bytes(), nonce),
{
    let bytes = validator_address.as_bytes();
    let mut buf: Vec<u8> = Vec::new();
    if bytes.len() > 0 {
        buf.push(0x0A);
        append_varint(&mut buf, bytes.len() as u64);
        let ghost head = buf@;
        let mut i: usize = 0;
        while i < bytes.len()
            invariant
                i <= bytes@.len(),
                buf@ == head + bytes@.subrange(0, i as int),
            decreases bytes@.len() - i,
        {
            buf.push(bytes[i]);
            assert(bytes@.subrange(0, i + 1) == bytes@.subrange(0, i as int).push(bytes@[i as int]));
            i = i + 1;
        }
        assert(bytes@.subrange(0, bytes@.len() as int) == bytes@);
    }
    let ghost first = buf@;
    if nonce != 0 {
        buf.push(0x10);
        append_varint(&mut buf, nonce);
        assert(buf@ == first + (seq![0x10u8] + varint(nonce as nat)));
    } else {
        assert(buf@ == first + Seq::<u8>::empty());
    }
    buf
}

/// Sign a delegate-key registration: `args` holds the Ethereum key's name,
/// the validator address and, optionally, the nonce.
#[derive(Debug, Default)]
pub struct SignDelegateKeysCmd {
    pub args: Vec<String>,
}

/// What to sign, once the arguments are read. Without a nonce, the account's
/// current sequence number on the Cosmos chain is used.
#[derive(Debug)]
pub struct DelegateKeysRequest {
    pub key_name: String,
    pub validator_address: String,
    pub nonce: Option<u64>,
}

/// Why the arguments do not describe a delegate-key registration.
#[derive(Clone, Copy, Debug, PartialEq, Eq, Structural)]
pub enum DelegateArgError {
    MissingKeyName,
    InvalidKeyName,
    MissingValidatorAddress,
    InvalidValidatorAddress,
    InvalidNonce,
}

impl SignDelegateKeysCmd {
    /// Reads the arguments in order: the key name, the validator address and
    /// the optional nonce; the first that is missing or does not read stops
    /// the command. Arguments after the third are ignored.
    pub fn request(&self) -> (r: Result<DelegateKeysRequest, DelegateArgError>)
        ensures
            self.args@.len() == 0 ==> r == Err::<DelegateKeysRequest, _>(
                DelegateArgError::MissingKeyName,
            ),
            self.args@.len() >= 1 && !key_name_ok(self.args@[0]@) ==> r == Err::<
                DelegateKeysRequest,
                _,
            >(DelegateArgError::InvalidKeyName),
            self.args@.len() == 1 && key_name_ok(self.args@[0]@) ==> r == Err::<
                DelegateKeysRequest,
                _,
            >(DelegateArgError::MissingValidatorAddress),
            self.args@.len() >= 2 && key_name_ok(self.args@[0]@) && !cosmos_address_parses(
                self.args@[1]@,
            ) ==> r == Err::<DelegateKeysRequest, _>(DelegateArgError::InvalidValidatorAddress),
            self.args@.len() >= 3 && key_name_ok(self.args@[0]@) && cosmos_address_parses(
                self.args@[1]@,
            ) && parsed_u64(self.args@[2]@) is None ==> r == Err::<DelegateKeysRequest, _>(
                DelegateArgError::InvalidNonce,
            ),
            r is Ok <==> self.args@.len() >= 2 && key_name_ok(self.args@[0]@)
                && cosmos_address_parses(self.args@[1]@) && (self.args@.len() == 2 || parsed_u64(
                self.args@[2]@,
            ) is Some),
            r matches Ok(req) ==> {
                &&& req.key_name@ == self.args@[0]@
                &&& req.validator_address@ == self.args@[1]@
                &&& req.nonce == if self.args@.len() == 2 {
                    None
                } else {
                    parsed_u64(self.args@[2]@)
                }
            },
    {
        if self.args.len() == 0 {
            return Err(DelegateArgError::MissingKeyName);
        }
        if !is_valid_key_name(self.args[0].as_str()) {
            return Err(DelegateArgError::InvalidKeyName);
        }
        if self.args.len() < 2 {
            return Err(DelegateArgError::MissingValidatorAddress);
        }
        if !parses_as_cosmos_address(self.args[1].as_str()) {
            return Err(DelegateArgError::InvalidValidatorAddress);
        }
        let nonce = if self.args.len() >= 3 {
            match parse_u64(self.args[2].as_str()) {
                Some(n) => Some(n),
                None => {
                    return Err(DelegateArgError::InvalidNonce);
                },
            }
        } else {
            None
        };
        Ok(
            DelegateKeysRequest {
                key_name: self.args[0].clone(),
                validator_address: self.args[1].clone(),
                nonce,
            },
        )
    }
}

} // verus!
