//! The trusted-execution service of a validator node, in its mock form: a
//! code measurement and a signing key fixed in the code stand in for those
//! of an enclave; and the ed25519 instruction with which a validator proves
//! its verdict to the program.

use vstd::prelude::*;
use crate::chain::Pubkey;
use ed25519_dalek::Signer;
use sha2::Digest;
use vstd::string::StringSliceAdditionalSpecFns;

verus! {

/// The SHA-256 digest of some bytes.
pub uninterp spec fn sha256(data: Seq<u8>) -> Seq<u8>;

/// The ed25519 public key of a 32-byte secret key.
pub uninterp spec fn ed25519_public_key(secret: Seq<u8>) -> Seq<u8>;

/// The ed25519 signature of a message under a 32-byte secret key.
pub uninterp spec fn ed25519_signature(secret: Seq<u8>, message: Seq<u8>) -> Seq<u8>;

/// Calls `sha2::Sha256` (`new`, `update`, `finalize`): the digest of the
/// data, named `sha256`.
#[verifier::external_body]
fn sha256_digest(data: &[u8]) -> (d: [u8; 32])
    ensures
        d@ == sha256(data@),
{
    let mut hasher = sha2::Sha256::new();
    hasher.update(data);
    hasher.finalize().into()
}

/// Calls `ed25519_dalek::SigningKey::from_bytes` and `verifying_key().to_bytes()`:
/// the public key of the secret key, named `ed25519_public_key`.
#[verifier::external_body]
fn ed25519_public_key_of(secret: &[u8; 32]) -> (k: [u8; 32])
    ensures
        k@ == ed25519_public_key(secret@),
{
    ed25519_dalek::SigningKey::from_bytes(secret).verifying_key().to_bytes()
}

/// Calls `ed25519_dalek::SigningKey::from_bytes` and `Signer::sign`, then
/// `Signature::to_bytes`: the signature of the message (ed25519 signing is
/// deterministic), named `ed25519_signature`.
#[verifier::external_body]
fn ed25519_sign(secret: &[u8; 32], message: &[u8]) -> (sig: [u8; 64])
    ensures
        sig@ == ed25519_signature(secret@, message@),
{
    ed25519_dalek::SigningKey::from_bytes(secret).sign(message).to_bytes()
}

/// Calls `solana_sdk::signature::Keypair::new_from_array` and `to_bytes`. As
/// the source shows, the 64 bytes are the secret key and then the public
/// key that `ed25519_dalek::PublicKey::from` derives from it; that is the
/// ed25519 public key of the secret (RFC 8032), the same that
/// `ed25519_public_key` names.
#[verifier::external_body]
fn solana_keypair_bytes(secret: [u8; 32]) -> (b: [u8; 64])
    ensures
        b@.subrange(0, 32) == secret@,
        b@.subrange(32, 64) == ed25519_public_key(secret@),
{
    solana_sdk::signature::Keypair::new_from_array(secret).to_bytes()
}

/// A Solana keypair: its secret key, then its public key.
#[derive(Clone, Copy, Debug)]
pub struct SigningKeypair {
    pub bytes: [u8; 64],
}

impl SigningKeypair {
    /// The secret half.
    pub open spec fn secret_view(&self) -> Seq<u8> {
        self.bytes@.subrange(0, 32)
    }

    /// The public half, as `Signer::pubkey` gives it.
    pub open spec fn public_view(&self) -> Seq<u8> {
        self.bytes@.subrange(32, 64)
    }

    /// Whether the public half is the public key of the secret half.
    pub open spec fn is_consistent(&self) -> bool {
        self.public_view() == ed25519_public_key(self.secret_view())
    }

    /// The public key.
    pub fn pubkey(&self) -> (k: Pubkey)
        ensures
            k@ == self.public_view(),
    {
        let mut k: Pubkey = [0u8; 32];
        let mut i: usize = 0;
        while i < 32
            invariant
                i <= 32,
                forall|j: int| 0 <= j < i ==> k@[j] == self.bytes@[32 + j],
            decreases 32 - i,
        {
            k.set(i, self.bytes[32 + i]);
            i = i + 1;
        }
        assert(k@ =~= self.public_view());
        k
    }

    /// The secret key.
    pub fn secret(&self) -> (k: [u8; 32])
        ensures
            k@ == self.secret_view(),
    {
        let mut k: [u8; 32] = [0u8; 32];
        let mut i: usize = 0;
        while i < 32
            invariant
                i <= 32,
                forall|j: int| 0 <= j < i ==> k@[j] == self.bytes@[j],
            decreases 32 - i,
        {
            k.set(i, self.bytes[i]);
            i = i + 1;
        }
        assert(k@ =~= self.secret_view());
        k
    }
}

/// The secret key that stands for the enclave's key: 32 bytes of 1.
pub open spec fn mock_secret() -> Seq<u8> {
    Seq::new(32, |i: int| 1u8)
}

/// The text whose digest stands for the enclave's code measurement.
pub open spec fn mock_measurement_input() -> Seq<u8> {
    "MOCK_VALIDATOR_CODE_MEASUREMENT".spec_bytes()
}

fn mock_secret_key() -> (k: [u8; 32])
    ensures
        k@ == mock_secret(),
{
    let k: [u8; 32] = [1u8; 32];
    assert(k@ =~= mock_secret());
    k
}

/// The trusted-execution service, in mock mode.
pub struct TeeService {
    signing_key: Option<[u8; 32]>,
}

impl TeeService {
    /// Whether the service holds a key from an enclave; in mock mode it
    /// never does and signs with the fixed mock key.
    pub closed spec fn holds_enclave_key(&self) -> bool {
        self.signing_key is Some
    }

    /// A service that holds no enclave key.
    pub fn new() -> (t: Self)
        ensures
            !t.holds_enclave_key(),
    {
        TeeService { signing_key: None }
    }

    /// Starting the service always succeeds in mock mode.
    pub fn initialize(&self) -> (r: Result<(), ()>)
        ensures
            r is Ok,
    {
        Ok(())
    }

    /// The measurement of the validator's code: the SHA-256 digest of a fixed text.
    pub fn get_code_measurement(&self) -> (m: [u8; 32])
        ensures
            m@ == sha256(mock_measurement_input()),
    {
        sha256_digest("MOCK_VALIDATOR_CODE_MEASUREMENT".as_bytes())
    }

    /// The public key with which the service signs.
    pub fn get_signing_pubkey(&self) -> (k: Pubkey)
        ensures
            k@ == ed25519_public_key(mock_secret()),
    {
        ed25519_public_key_of(&mock_secret_key())
    }

    /// The service's signature of a message.
    pub fn sign_message(&self, message: &[u8]) -> (sig: [u8; 64])
        ensures
            sig@ == ed25519_signature(mock_secret(), message@),
    {
        ed25519_sign(&mock_secret_key(), message)
    }

    /// Attestations are accepted as they come in mock mode.
    pub fn verify_attestation(&self, quote: &[u8], cert_chain: &[u8]) -> (r: Result<bool, ()>)
        ensures
            r == Ok::<bool, ()>(true),
    {
        Ok(true)
    }

    /// The Solana keypair of the service's signing key.
    pub fn get_signing_keypair(&self) -> (kp: SigningKeypair)
        ensures
            kp.secret_view() == mock_secret(),
            kp.public_view() == ed25519_public_key(mock_secret()),
            kp.is_consistent(),
    {
        SigningKeypair { bytes: solana_keypair_bytes(mock_secret_key()) }
    }
}

/// An account of an instruction.
#[derive(Clone, Copy, Debug)]
pub struct AccountMeta {
    pub pubkey: Pubkey,
    pub is_signer: bool,
    pub is_writable: bool,
}

/// An instruction: the program that runs it, its accounts and its data.
#[derive(Clone, Debug)]
pub struct Instruction {
    pub program_id: Pubkey,
    pub accounts: Vec<AccountMeta>,
    pub data: Vec<u8>,
}

/// The id of the ed25519 signature-verification program.
pub open spec fn ed25519_program_id() -> Seq<u8> {
    seq![3u8, 125, 70, 214, 124, 147, 251, 190, 18, 249, 66, 143, 131, 141, 64, 255,
        5, 112, 116, 73, 39, 244, 138, 100, 252, 202, 112, 68, 128, 0, 0, 0]
}

/// The two little-endian bytes of a 16-bit number.
pub open spec fn le16(n: int) -> Seq<u8> {
    seq![(n % 256) as u8, ((n / 256) % 256) as u8]
}

/// The data of a single-signature ed25519 instruction: the count (1) and a
/// padding byte, the seven offsets (signature at 48, public key at 16,
/// message at 112 and its length, each from this same instruction), then the
/// public key, the signature and the message.
pub open spec fn ed25519_instruction_data(message: Seq<u8>, signature: Seq<u8>, pubkey: Seq<u8>) -> Seq<u8> {
    seq![1u8, 0u8] + le16(112 - 64) + le16(65535) + le16(16) + le16(65535) + le16(112)
        + le16(message.len() as int % 65536) + le16(65535) + pubkey + signature + message
}

/// Calls `solana_ed25519_program::new_ed25519_instruction_with_signature`.
/// The claim, as its source builds it (the offsets are written with
/// `bytemuck::bytes_of`, in the machine's byte order, little-endian here):
/// the ed25519 program, no accounts, and the data of
/// `ed25519_instruction_data`.
#[verifier::external_body]
fn new_ed25519_instruction(message: &[u8], signature: &[u8; 64], pubkey: &[u8; 32]) -> (ix: Instruction)
    ensures
        ix.program_id@ == ed25519_program_id(),
        ix.accounts@.len() == 0,
        ix.data@ == ed25519_instruction_data(message@, signature@, pubkey@),
{
    let ix = solana_ed25519_program::new_ed25519_instruction_with_signature(message, signature, pubkey);
    Instruction {
        program_id: ix.program_id.to_bytes(),
        accounts: ix.accounts.iter().map(|a| AccountMeta {
            pubkey: a.pubkey.to_bytes(), is_signer: a.is_signer, is_writable: a.is_writable,
        }).collect(),
        data: ix.data,
    }
}

/// The ed25519 instruction that proves a message signed with a keypair:
/// the keypair's secret signs the message, and the instruction names the
/// keypair's public key.
pub fn create_ed25519_instruction_with_signature(message: &[u8], key_pair: &SigningKeypair) -> (ix: Instruction)
    ensures
        ix.program_id@ == ed25519_program_id(),
        ix.accounts@.len() == 0,
        ix.data@ == ed25519_instruction_data(
            message@,
            ed25519_signature(key_pair.secret_view(), message@),
            key_pair.public_view(),
        ),
{
    let secret = key_pair.secret();
    let signature = ed25519_sign(&secret, message);
    let pubkey = key_pair.pubkey();
    new_ed25519_instruction(message, &signature, &pubkey)
}

/// The message with which a validator approves or rejects a compute node.
#[derive(Clone, Copy, Debug)]
pub struct ValidateComputeNodeMessage {
    pub compute_node_pubkey: Pubkey,
    pub approved: bool,
}

impl ValidateComputeNodeMessage {
    /// The message's bytes: the node's key, then 1 for approval or 0.
    pub open spec fn encoding(&self) -> Seq<u8> {
        self.compute_node_pubkey@ + seq![if self.approved { 1u8 } else { 0u8 }]
    }

    /// The message's bytes, in the program's (borsh) layout.
    pub fn serialize(&self) -> (v: Vec<u8>)
        ensures
            v@ == self.encoding(),
    {
        let mut v = vstd::slice::slice_to_vec(&self.compute_node_pubkey);
        v.push(if self.approved { 1u8 } else { 0u8 });
        v
    }
}

/// The instruction with which the service proves its verdict on a compute
/// node: its approval message, signed with the service's keypair.
pub fn compute_node_validation_proof(tee: &TeeService, compute_node_pubkey: &Pubkey) -> (ix: Instruction)
    ensures
        ix.program_id@ == ed25519_program_id(),
        ix.data@ == ed25519_instruction_data(
            (*compute_node_pubkey)@ + seq![1u8],
            ed25519_signature(mock_secret(), (*compute_node_pubkey)@ + seq![1u8]),
            ed25519_public_key(mock_secret()),
        ),
{
    let keypair = tee.get_signing_keypair();
    let message = ValidateComputeNodeMessage { compute_node_pubkey: *compute_node_pubkey, approved: true };
    let data = message.serialize();
    create_ed25519_instruction_with_signature(data.as_slice(), &keypair)
}


/// Law: the offsets in the header of an ed25519 instruction point at its
/// fields: the public key at 16, the signature at 48 and the message at 112,
/// to the end of the data.
pub proof fn lemma_ed25519_offsets_point_at_fields(message: Seq<u8>, signature: Seq<u8>, pubkey: Seq<u8>)
    requires
        signature.len() == 64,
        pubkey.len() == 32,
    ensures
        ({
            let d = ed25519_instruction_data(message, signature, pubkey);
            &&& d.len() == 112 + message.len()
            &&& d.subrange(16, 48) == pubkey
            &&& d.subrange(48, 112) == signature
            &&& d.subrange(112, d.len() as int) == message
        }),
{
    let head = seq![1u8, 0u8] + le16(112 - 64) + le16(65535) + le16(16) + le16(65535) + le16(112)
        + le16(message.len() as int % 65536) + le16(65535);
    assert(head.len() == 16);
    let d = ed25519_instruction_data(message, signature, pubkey);
    assert(d =~= head + pubkey + signature + message);
    assert(d.subrange(16, 48) =~= pubkey);
    assert(d.subrange(48, 112) =~= signature);
    assert(d.subrange(112, d.len() as int) =~= message);
}

/// Law: the service signs with one key. A keypair of the service's secret
/// whose halves agree (as `get_signing_keypair` returns it) has as its public
/// key the key that `get_signing_pubkey` returns, and the service's
/// signature of any message (`sign_message`) is the signature under that
/// keypair's secret.
pub proof fn lemma_service_signs_with_its_keypair(kp: SigningKeypair, message: Seq<u8>)
    requires
        kp.secret_view() == mock_secret(),
        kp.is_consistent(),
    ensures
        kp.public_view() == ed25519_public_key(mock_secret()),
        ed25519_signature(mock_secret(), message) == ed25519_signature(kp.secret_view(), message),
{
}

/// Law: a validation message's bytes give back the node's key (the first 32)
/// and the verdict (the last byte, 1 for approval).
pub proof fn lemma_validation_message_roundtrip(m: ValidateComputeNodeMessage)
    ensures
        m.encoding().len() == 33,
        m.encoding().subrange(0, 32) == m.compute_node_pubkey@,
        (m.encoding()[32] == 1u8) == m.approved,
{
    assert(m.encoding().subrange(0, 32) =~= m.compute_node_pubkey@);
}

} // verus!
