use std::collections::{HashMap, HashSet};
use std::time::{Duration, Instant};

use amcl_wrapper::field_elem::FieldElement as AmclFieldElement;
use amcl_wrapper::group_elem::GroupElement;
use amcl_wrapper::group_elem_g1::G1;
use amcl_wrapper::group_elem_g2::G2;

use threshold_cred::field::FieldElement;
use threshold_cred::group::{SignatureGroup, VerkeyGroup};
use threshold_cred::js_pok_sig::{JSPoKOfSignature, JSPoKOfSignatureProof};
use threshold_cred::keys::{Params, Signature, Verkey};

fn fe(x: &AmclFieldElement) -> FieldElement {
    FieldElement::from_bytes(x.to_bytes()).unwrap()
}

fn amcl_fe(x: &FieldElement) -> AmclFieldElement {
    AmclFieldElement::from_bytes(&x.to_bytes()).unwrap()
}

fn sg(p: &G1) -> SignatureGroup {
    SignatureGroup::from_bytes(p.to_bytes(false)).unwrap()
}

fn vg(p: &G2) -> VerkeyGroup {
    VerkeyGroup::from_bytes(p.to_bytes(false)).unwrap()
}

fn amcl_g2(p: &VerkeyGroup) -> G2 {
    let bytes = p.to_bytes();
    G2::from(<&[u8; 193]>::try_from(&bytes[..]).unwrap())
}

fn random_fe() -> FieldElement {
    fe(&AmclFieldElement::random())
}

fn random_fes(count: usize) -> Vec<FieldElement> {
    (0..count).map(|_| random_fe()).collect()
}

fn challenge(bytes: &[u8]) -> FieldElement {
    fe(&AmclFieldElement::from_msg_hash(bytes))
}

struct Sigkey {
    x: AmclFieldElement,
    y: Vec<AmclFieldElement>,
}

fn keygen(count_messages: usize, params: &Params) -> (Sigkey, Verkey) {
    let g_tilde = amcl_g2(&params.g_tilde);
    let x = AmclFieldElement::random();
    let y: Vec<AmclFieldElement> = (0..count_messages).map(|_| AmclFieldElement::random()).collect();
    let vk = Verkey {
        X_tilde: vg(&(&g_tilde * &x)),
        Y_tilde: y.iter().map(|y_i| vg(&(&g_tilde * y_i))).collect(),
    };
    (Sigkey { x, y }, vk)
}

fn sign(messages: &[FieldElement], sk: &Sigkey) -> Signature {
    assert_eq!(messages.len(), sk.y.len());
    let sigma_1 = G1::random();
    let mut exponent = sk.x.clone();
    for (m, y) in messages.iter().zip(sk.y.iter()) {
        exponent = exponent + amcl_fe(m) * y;
    }
    let sigma_2 = &sigma_1 * &exponent;
    Signature { sigma_1: sg(&sigma_1), sigma_2: sg(&sigma_2) }
}

fn prove(
    sig: &Signature,
    vk: &Verkey,
    params: &Params,
    messages: &[FieldElement],
    blindings: Option<&[FieldElement]>,
    revealed: &HashSet<usize>,
    domain: &str,
) -> JSPoKOfSignatureProof {
    let pok = JSPoKOfSignature::init(sig, vk, params, messages.to_vec(), blindings, revealed.clone(), domain).unwrap();
    let chal = challenge(&pok.to_bytes());
    pok.gen_proof(&chal).unwrap()
}

#[test]
fn js_pok_sig_test_PoK_sig() {
    let count_msgs = 5;
    let params = Params::new("test".as_bytes());
    let (sk, vk) = keygen(count_msgs, &params);

    let msgs = random_fes(count_msgs);
    let sig = sign(msgs.as_slice(), &sk);
    assert!(sig.verify(msgs.as_slice(), &vk, &params).unwrap());

    let pok = JSPoKOfSignature::init(&sig, &vk, &params, msgs.clone(), None, HashSet::new(), "hello.com").unwrap();

    let chal_prover = challenge(&pok.to_bytes());

    let proof = pok.gen_proof(&chal_prover).unwrap();

    // The verifier generates the challenge on its own.
    let chal_bytes = proof.get_bytes_for_challenge(HashSet::new(), &vk, &params);
    let chal_verifier = challenge(&chal_bytes);

    assert!(proof.verify(&vk, &params, HashMap::new(), &chal_verifier).unwrap());

    // PoK with supplied blindings
    let blindings = random_fes(count_msgs);
    let pok_1 = JSPoKOfSignature::init(
        &sig,
        &vk,
        &params,
        msgs,
        Some(blindings.as_slice()),
        HashSet::new(),
        "hello.com",
    )
    .unwrap();
    let chal_prover = challenge(&pok_1.to_bytes());
    let proof_1 = pok_1.gen_proof(&chal_prover).unwrap();

    // The verifier generates the challenge on its own.
    let chal_bytes = proof_1.get_bytes_for_challenge(HashSet::new(), &vk, &params);
    let chal_verifier = challenge(&chal_bytes);
    assert!(proof_1
        .verify(&vk, &params, HashMap::new(), &chal_verifier)
        .unwrap());
}

#[test]
fn test_PoK_sig_reveal_messages() {
    let count_msgs = 10;
    let params = Params::new("test".as_bytes());
    let (sk, vk) = keygen(count_msgs, &params);

    let msgs = random_fes(count_msgs);

    let sig = sign(msgs.as_slice(), &sk);
    assert!(sig.verify(msgs.as_slice(), &vk, &params).unwrap());

    let mut revealed_msg_indices = HashSet::new();
    revealed_msg_indices.insert(2);
    revealed_msg_indices.insert(4);
    revealed_msg_indices.insert(9);

    let pok = JSPoKOfSignature::init(
        &sig,
        &vk,
        &params,
        msgs.clone(),
        None,
        revealed_msg_indices.clone(),
        "hello.com",
    )
    .unwrap();

    let chal_prover = challenge(&pok.to_bytes());

    let proof = pok.gen_proof(&chal_prover).unwrap();

    let mut revealed_msgs = HashMap::new();
    for i in &revealed_msg_indices {
        revealed_msgs.insert(i.clone(), msgs[*i].clone());
    }
    // The verifier generates the challenge on its own.
    let chal_bytes = proof.get_bytes_for_challenge(revealed_msg_indices.clone(), &vk, &params);
    let chal_verifier = challenge(&chal_bytes);
    assert_eq!(chal_prover, chal_verifier);
    assert!(proof
        .verify(&vk, &params, revealed_msgs.clone(), &chal_verifier)
        .unwrap());

    // Reveal wrong message
    let mut revealed_msgs_1 = revealed_msgs.clone();
    revealed_msgs_1.insert(2, random_fe());
    assert!(!proof.verify(&vk, &params, revealed_msgs_1.clone(), &chal_verifier).unwrap());
}

#[test]
fn test_PoK_multiple_sigs() {
    // Prove knowledge of multiple signatures together (using the same challenge)
    let count_msgs = 5;
    let params = Params::new("test".as_bytes());
    let (sk, vk) = keygen(count_msgs, &params);

    let msgs_1 = random_fes(count_msgs);
    let sig_1 = sign(msgs_1.as_slice(), &sk);
    assert!(sig_1.verify(msgs_1.as_slice(), &vk, &params).unwrap());

    let msgs_2 = random_fes(count_msgs);
    let sig_2 = sign(msgs_2.as_slice(), &sk);
    assert!(sig_2.verify(msgs_2.as_slice(), &vk, &params).unwrap());

    let pok_1 =
        JSPoKOfSignature::init(&sig_1, &vk, &params, msgs_1, None, HashSet::new(), "hello.com").unwrap();
    let pok_2 =
        JSPoKOfSignature::init(&sig_2, &vk, &params, msgs_2, None, HashSet::new(), "hello.com").unwrap();

    let mut chal_bytes = vec![];
    chal_bytes.append(&mut pok_1.to_bytes());
    chal_bytes.append(&mut pok_2.to_bytes());

    let chal_prover = challenge(&chal_bytes);

    let proof_1 = pok_1.gen_proof(&chal_prover).unwrap();
    let proof_2 = pok_2.gen_proof(&chal_prover).unwrap();

    // The verifier generates the challenge on its own.
    let mut chal_bytes = vec![];
    chal_bytes.append(&mut proof_1.get_bytes_for_challenge(HashSet::new(), &vk, &params));
    chal_bytes.append(&mut proof_2.get_bytes_for_challenge(HashSet::new(), &vk, &params));
    let chal_verifier = challenge(&chal_bytes);

    assert!(proof_1
        .verify(&vk, &params, HashMap::new(), &chal_verifier)
        .unwrap());
    assert!(proof_2
        .verify(&vk, &params, HashMap::new(), &chal_verifier)
        .unwrap());
}

#[test]
fn test_PoK_multiple_sigs_with_same_msg() {
    // Prove knowledge of multiple signatures and the equality of a specific message under both signatures.
    // Knowledge of 2 signatures and their corresponding messages is being proven.
    // 2nd message in the 1st signature and 5th message in the 2nd signature are to be proven equal without revealing them

    let count_msgs = 5;
    let params = Params::new("test".as_bytes());
    let (sk, vk) = keygen(count_msgs, &params);

    let same_msg = random_fe();
    let mut msgs_1 = random_fes(count_msgs - 1);
    msgs_1.insert(1, same_msg.clone());
    let sig_1 = sign(msgs_1.as_slice(), &sk);
    assert!(sig_1.verify(msgs_1.as_slice(), &vk, &params).unwrap());

    let mut msgs_2 = random_fes(count_msgs - 1);
    msgs_2.insert(4, same_msg.clone());
    let sig_2 = sign(msgs_2.as_slice(), &sk);
    assert!(sig_2.verify(msgs_2.as_slice(), &vk, &params).unwrap());

    // A particular message is same
    assert_eq!(msgs_1[1], msgs_2[4]);

    let same_blinding = random_fe();

    let mut blindings_1 = random_fes(count_msgs - 1);
    blindings_1.insert(1, same_blinding.clone());

    let mut blindings_2 = random_fes(count_msgs - 1);
    blindings_2.insert(4, same_blinding.clone());

    // Blinding for the same message is kept same
    assert_eq!(blindings_1[1], blindings_2[4]);

    let pok_1 = JSPoKOfSignature::init(
        &sig_1,
        &vk, &params,
        msgs_1,
        Some(blindings_1.as_slice()),
        HashSet::new(),
        "hello.com",
    )
    .unwrap();
    let pok_2 = JSPoKOfSignature::init(
        &sig_2,
        &vk, &params,
        msgs_2,
        Some(blindings_2.as_slice()),
        HashSet::new(),
        "hello.com",
    )
    .unwrap();

    let mut chal_bytes = vec![];
    chal_bytes.append(&mut pok_1.to_bytes());
    chal_bytes.append(&mut pok_2.to_bytes());

    let chal = challenge(&chal_bytes);

    let proof_1 = pok_1.gen_proof(&chal).unwrap();
    let proof_2 = pok_2.gen_proof(&chal).unwrap();

    // Response for the same message should be same (this check is made by the verifier)
    assert_eq!(
        proof_1.get_resp_for_message(1).unwrap(),
        proof_2.get_resp_for_message(4).unwrap()
    );

    // The verifier generates the challenge on its own.
    let mut chal_bytes = vec![];
    chal_bytes.append(&mut proof_1.get_bytes_for_challenge(HashSet::new(), &vk, &params));
    chal_bytes.append(&mut proof_2.get_bytes_for_challenge(HashSet::new(), &vk, &params));
    let chal_verifier = challenge(&chal_bytes);

    assert!(proof_1.verify(&vk, &params, HashMap::new(), &chal_verifier).unwrap());
    assert!(proof_2.verify(&vk, &params, HashMap::new(), &chal_verifier).unwrap());
}

#[test]
fn timing_pok_signature() {
    // Measure time to prove knowledge of signatures, both generation and verification of proof
    let iterations = 10;
    let count_msgs = 10;
    let params = Params::new("test".as_bytes());
    let (sk, vk) = keygen(count_msgs, &params);

    let msgs = random_fes(count_msgs);
    let sig = sign(msgs.as_slice(), &sk);

    let mut total_generating = Duration::new(0, 0);
    let mut total_verifying = Duration::new(0, 0);

    for _ in 0..iterations {
        let start = Instant::now();

        let pok =
            JSPoKOfSignature::init(&sig, &vk, &params, msgs.clone(), None, HashSet::new(), "hello.com").unwrap();

        let chal_prover = challenge(&pok.to_bytes());

        let proof = pok.gen_proof(&chal_prover).unwrap();
        total_generating += start.elapsed();

        let start = Instant::now();
        // The verifier generates the challenge on its own.
        let chal_bytes = proof.get_bytes_for_challenge(HashSet::new(), &vk, &params);
        let chal_verifier = challenge(&chal_bytes);

        assert!(proof.verify(&vk, &params, HashMap::new(), &chal_verifier).unwrap());

        total_verifying += start.elapsed();
    }

    println!(
        "Time to create {} proofs is {:?}",
        iterations, total_generating
    );
    println!(
        "Time to verify {} proofs is {:?}",
        iterations, total_verifying
    );
}

#[test]
fn pseudonym_is_the_same_for_the_same_domain() {
    let count_msgs = 6;
    let params = Params::new("test".as_bytes());
    let (sk, vk) = keygen(count_msgs, &params);
    let msgs = random_fes(count_msgs);
    let sig = sign(msgs.as_slice(), &sk);

    let proof_1 = prove(&sig, &vk, &params, msgs.as_slice(), None, &HashSet::new(), "a.example");
    let proof_2 = prove(&sig, &vk, &params, msgs.as_slice(), None, &HashSet::new(), "a.example");
    let proof_3 = prove(&sig, &vk, &params, msgs.as_slice(), None, &HashSet::new(), "b.example");

    assert_eq!(proof_1.phi, proof_2.phi);
    assert_ne!(proof_3.phi, proof_1.phi);

    // The pseudonym is the hash of the domain times the secret attribute.
    let expected = AmclFieldElement::from_msg_hash("a.example".as_bytes()) * amcl_fe(&msgs[0]);
    assert_eq!(proof_1.phi, fe(&expected));
}
