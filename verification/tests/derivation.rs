use create2_vanity::addresses::{address_to_hex, compute_create2_address, Address};

fn zero_address() -> Address {
    Address { bytes: [0u8; 20] }
}

// The derivation recomputed here from first principles with the outside
// hashing routine alone: marker byte, deployer, salt, hash of init code.
fn independent_derive(deployer: [u8; 20], salt: [u8; 32], init_code: &[u8]) -> [u8; 20] {
    let code_hash = ethers::utils::keccak256(init_code);
    let mut preimage: Vec<u8> = Vec::new();
    preimage.push(0xff);
    preimage.extend_from_slice(&deployer);
    preimage.extend_from_slice(&salt);
    preimage.extend_from_slice(&code_hash);
    assert_eq!(preimage.len(), 85);
    let digest = ethers::utils::keccak256(&preimage);
    let mut out = [0u8; 20];
    out.copy_from_slice(&digest[12..]);
    out
}

#[test]
fn derivation_is_deterministic() {
    let deployer = Address { bytes: [0x11; 20] };
    let salt = [0x22u8; 32];
    let init_code = vec![0xde, 0xad, 0xbe, 0xef];
    let a = compute_create2_address(deployer, &salt, &init_code);
    let b = compute_create2_address(deployer, &salt, &init_code);
    assert_eq!(a.bytes, b.bytes);
    assert_eq!(address_to_hex(&a), address_to_hex(&b));
}

#[test]
fn derivation_matches_independent_computation() {
    let deployer = Address { bytes: [0x11; 20] };
    let salt = [0x22u8; 32];
    let init_code = vec![0xde, 0xad, 0xbe, 0xef];
    let got = compute_create2_address(deployer, &salt, &init_code);
    let expected = independent_derive(deployer.bytes, salt, &init_code);
    assert_eq!(got.bytes, expected);
}

#[test]
fn known_vector_zero_inputs_empty_code() {
    let got = compute_create2_address(zero_address(), &[0u8; 32], &[]);
    let expected = independent_derive([0u8; 20], [0u8; 32], &[]);
    assert_eq!(got.bytes, expected);
    assert_eq!(
        address_to_hex(&got),
        "0xe33c0c7f7df4809055c3eba6c09cfe4baf1bd9e0"
    );
}

#[test]
fn changing_one_deployer_byte_changes_address() {
    let salt = [0u8; 32];
    let init_code = vec![0x60, 0x80];
    let base = compute_create2_address(zero_address(), &salt, &init_code);
    for i in 0..20 {
        let mut deployer = zero_address();
        deployer.bytes[i] ^= 0x01;
        let other = compute_create2_address(deployer, &salt, &init_code);
        assert_ne!(base.bytes, other.bytes);
    }
}

#[test]
fn changing_one_salt_byte_changes_address() {
    let init_code = vec![0x60, 0x80];
    let base = compute_create2_address(zero_address(), &[0u8; 32], &init_code);
    for i in 0..32 {
        let mut salt = [0u8; 32];
        salt[i] ^= 0x01;
        let other = compute_create2_address(zero_address(), &salt, &init_code);
        assert_ne!(base.bytes, other.bytes);
    }
}

#[test]
fn changing_one_init_code_byte_changes_address() {
    let salt = [0u8; 32];
    let base_code = vec![0x60, 0x80, 0x60, 0x40];
    let base = compute_create2_address(zero_address(), &salt, &base_code);
    for i in 0..base_code.len() {
        let mut code = base_code.clone();
        code[i] ^= 0x01;
        let other = compute_create2_address(zero_address(), &salt, &code);
        assert_ne!(base.bytes, other.bytes);
    }
}

#[test]
fn rendering_is_prefixed_lowercase_hex() {
    let addr = Address { bytes: [0xab; 20] };
    let mut expected = String::from("0x");
    for _ in 0..20 {
        expected.push_str("ab");
    }
    assert_eq!(address_to_hex(&addr), expected);

    let mixed = Address {
        bytes: [
            0x0f, 0x1e, 0x2d, 0x3c, 0x4b, 0x5a, 0x69, 0x78, 0x87, 0x96, 0xa5, 0xb4, 0xc3, 0xd2,
            0xe1, 0xf0, 0x00, 0xff, 0x10, 0x01,
        ],
    };
    assert_eq!(
        address_to_hex(&mixed),
        "0x0f1e2d3c4b5a69788796a5b4c3d2e1f000ff1001"
    );
}
