use agent_network::tee::{
    compute_node_validation_proof, create_ed25519_instruction_with_signature, SigningKeypair, TeeService,
    ValidateComputeNodeMessage,
};
use ed25519_dalek::{Signer, SigningKey, Verifier};
use sha2::{Digest, Sha256};
use solana_sdk::signer::Signer as SolSigner;

#[test]
fn code_measurement_is_the_digest_of_the_mock_text() {
    let m = TeeService::new().get_code_measurement();
    let expected: [u8; 32] = Sha256::digest(b"MOCK_VALIDATOR_CODE_MEASUREMENT").into();
    assert_eq!(m, expected);
    assert_ne!(m, [0u8; 32]);
}

#[test]
fn signing_key_is_the_mock_key() {
    let tee = TeeService::new();
    let key = SigningKey::from_bytes(&[1u8; 32]);
    assert_eq!(tee.get_signing_pubkey(), key.verifying_key().to_bytes());
    let sig = tee.sign_message(b"hello");
    assert_eq!(sig, key.sign(b"hello").to_bytes());
    assert!(key.verifying_key().verify(b"hello", &ed25519_dalek::Signature::from_bytes(&sig)).is_ok());
    assert!(tee.initialize().is_ok());
    assert_eq!(tee.verify_attestation(b"q", b"c"), Ok(true));
}

#[test]
fn keypair_halves() {
    let kp = TeeService::new().get_signing_keypair();
    let sol = solana_sdk::signature::Keypair::new_from_array([1u8; 32]);
    assert_eq!(kp.bytes, sol.to_bytes());
    assert_eq!(kp.secret(), [1u8; 32]);
    assert_eq!(kp.pubkey(), sol.pubkey().to_bytes());
    assert_eq!(kp.pubkey(), TeeService::new().get_signing_pubkey());
}

#[test]
fn ed25519_instruction_matches_the_program_helper() {
    let kp = SigningKeypair { bytes: solana_sdk::signature::Keypair::new_from_array([3u8; 32]).to_bytes() };
    let msg = b"approve node";
    let ix = create_ed25519_instruction_with_signature(msg, &kp);
    let secret = SigningKey::from_bytes(&[3u8; 32]);
    let sig = secret.sign(msg).to_bytes();
    let expected = solana_ed25519_program::new_ed25519_instruction_with_signature(msg, &sig, &kp.pubkey());
    assert_eq!(ix.program_id, expected.program_id.to_bytes());
    assert!(ix.accounts.is_empty());
    assert_eq!(ix.data, expected.data);
    assert_eq!(&ix.data[16..48], &kp.pubkey());
    assert_eq!(&ix.data[48..112], &sig);
    assert_eq!(&ix.data[112..], msg);
    assert_eq!(&ix.data[0..16], &[1, 0, 48, 0, 255, 255, 16, 0, 255, 255, 112, 0, 12, 0, 255, 255]);
}

#[test]
fn validation_message_matches_borsh() {
    let m = ValidateComputeNodeMessage { compute_node_pubkey: [7u8; 32], approved: true };
    let v = m.serialize();
    assert_eq!(v, borsh::to_vec(&([7u8; 32], true)).unwrap());
    assert_eq!(v.len(), 33);
    assert_eq!(ValidateComputeNodeMessage { compute_node_pubkey: [7u8; 32], approved: false }.serialize()[32], 0);
}

#[test]
fn validation_proof_signs_the_approval() {
    let tee = TeeService::new();
    let node = [9u8; 32];
    let ix = compute_node_validation_proof(&tee, &node);
    let mut msg = node.to_vec();
    msg.push(1);
    let sig = SigningKey::from_bytes(&[1u8; 32]).sign(&msg).to_bytes();
    assert_eq!(&ix.data[112..], msg.as_slice());
    assert_eq!(&ix.data[48..112], &sig);
}

#[test]
fn service_signs_with_its_keypair() {
    let t1 = TeeService::new();
    let t2 = TeeService::new();
    let kp = t2.get_signing_keypair();
    assert_eq!(t1.get_signing_pubkey(), kp.pubkey());
    assert_eq!(t1.get_signing_pubkey(), t2.get_signing_pubkey());
    let key = ed25519_dalek::VerifyingKey::from_bytes(&kp.pubkey()).unwrap();
    for m in [&b""[..], &b"approve"[..], &[7u8; 33][..]] {
        let sig = t1.sign_message(m);
        assert_eq!(sig, SigningKey::from_bytes(&kp.secret()).sign(m).to_bytes());
        assert!(key.verify(m, &ed25519_dalek::Signature::from_bytes(&sig)).is_ok());
    }
    assert_eq!(t1.get_code_measurement(), t2.get_code_measurement());
}
