//! Twenty-byte account addresses, their canonical hex rendering, and the
//! deterministic deployment-address derivation.

use vstd::prelude::*;
use vstd::string::StringExecFns;
use crate::hexcodec::{hex_decode_chars, hex_encode_lower, hex_of, is_hex_char};
use crate::keccak::{keccak256_digest, keccak256_of};

verus! {

/// A twenty-byte account address held as plain bytes.
#[derive(Clone, Copy)]
pub struct Address {
    pub bytes: [u8; 20],
}

impl View for Address {
    type V = Seq<u8>;

    open spec fn view(&self) -> Seq<u8> {
        self.bytes@
    }
}

/// The canonical rendering of an address: `0x` followed by forty lowercase
/// hex digits.
pub open spec fn spec_address_display(addr: Seq<u8>) -> Seq<char> {
    seq!['0', 'x'] + hex_of(addr)
}

/// A 42-character string of the form `0x` + 40 characters.
pub open spec fn spec_addr_shape(s: Seq<char>) -> bool {
    s.len() == 42 && s[0] == '0' && s[1] == 'x'
}

/// A well-formed address string: `0x` followed by exactly forty hex digits.
pub open spec fn spec_valid_address_string(s: Seq<char>) -> bool {
    spec_addr_shape(s) && forall|i: int| 2 <= i < 42 ==> is_hex_char(#[trigger] s[i])
}

/// The preimage of the deployment-address digest: a fixed marker byte, the
/// twenty deployer bytes, the thirty-two salt bytes, and the digest of the
/// init code, 85 bytes in all.
pub open spec fn create2_preimage(deployer: Seq<u8>, salt: Seq<u8>, init_code: Seq<u8>) -> Seq<
    u8,
> {
    seq![0xffu8] + deployer + salt + keccak256_of(init_code)
}

/// The derived deployment address: the last twenty bytes of the digest of the
/// preimage.
pub open spec fn create2_address_bytes(deployer: Seq<u8>, salt: Seq<u8>, init_code: Seq<u8>) -> Seq<
    u8,
> {
    keccak256_of(create2_preimage(deployer, salt, init_code)).subrange(12, 32)
}

/// Derives the deployment address for a deployer, a salt and the init-code
/// bytes.
pub fn compute_create2_address(sender_address: Address, salt: &[u8; 32], deployment_data: &[u8]) -> (r:
    Address)
    ensures
        r@ == create2_address_bytes(sender_address@, salt@, deployment_data@),
        r@.len() == 20,
{
    let bytecode_hash = keccak256_digest(deployment_data);
    let mut data: Vec<u8> = Vec::with_capacity(85);
    data.push(0xff);
    data.extend_from_slice(sender_address.bytes.as_slice());
    data.extend_from_slice(salt.as_slice());
    data.extend_from_slice(bytecode_hash.as_slice());
    proof {
        assert(data@ =~= create2_preimage(sender_address@, salt@, deployment_data@));
    }
    let digest = keccak256_digest(data.as_slice());
    let mut out = Address { bytes: [0u8; 20] };
    let mut i: usize = 0;
    while i < 20
        invariant
            i <= 20,
            digest@ == keccak256_of(create2_preimage(sender_address@, salt@, deployment_data@)),
            digest@.len() == 32,
            forall|j: int| 0 <= j < i ==> out.bytes@[j] == digest@[12 + j],
        decreases 20 - i,
    {
        out.bytes[i] = digest[12 + i];
        i = i + 1;
    }
    proof {
        assert(out@ =~= create2_address_bytes(sender_address@, salt@, deployment_data@));
    }
    out
}

/// The derived address is a function of the deployer, the salt and the init
/// code alone: two derivations from equal inputs agree.
pub proof fn lemma_derivation_deterministic(
    deployer: Seq<u8>,
    salt: Seq<u8>,
    init_code: Seq<u8>,
    r1: Seq<u8>,
    r2: Seq<u8>,
)
    requires
        r1 == create2_address_bytes(deployer, salt, init_code),
        r2 == create2_address_bytes(deployer, salt, init_code),
    ensures
        r1 == r2,
{
}

/// Renders an address in its canonical form: `0x` plus forty lowercase hex
/// digits.
pub fn address_to_hex(addr: &Address) -> (r: String)
    ensures
        r@ == spec_address_display(addr@),
{
    let mut s = String::from_str("0x");
    let h = hex_encode_lower(addr.bytes.as_slice());
    s.append(h.as_str());
    proof {
        reveal_strlit("0x");
        assert(s@ =~= spec_address_display(addr@));
    }
    s
}

/// Relies on str::parse to ethers' twenty-byte address type (fixed-hash's
/// FromStr): it strips an optional `0x` prefix and then reads exactly twenty
/// bytes of hex digits, high nibble first. That parser also skips blanks, so
/// the exact acceptance condition is stated only for 42-character
/// `0x`-prefixed inputs, which every caller here establishes first.
#[verifier::external_body]
pub(crate) fn parse_address(s: &str) -> (r: Option<Address>)
    ensures
        spec_addr_shape(s@) ==> ((r is Some) <==> forall|i: int|
            2 <= i < 42 ==> is_hex_char(#[trigger] s@[i])),
        spec_addr_shape(s@) ==> (r matches Some(a) ==> a@ == hex_decode_chars(
            s@.subrange(2, 42),
        )),
{
    match s.parse::<ethers::types::Address>() {
        Ok(a) => Some(Address { bytes: a.0 }),
        Err(_) => None,
    }
}

} // verus!
