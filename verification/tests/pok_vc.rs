use amcl_wrapper::field_elem::FieldElement as AmclFieldElement;
use amcl_wrapper::group_elem::GroupElement;
use amcl_wrapper::group_elem_g2::G2;

use threshold_cred::errors::CredentialError;
use threshold_cred::field::FieldElement;
use threshold_cred::group::VerkeyGroup;
use threshold_cred::pok_vc::{compress_all, ProofOtherGroup, ProverCommittingOtherGroup};

fn fe(x: &AmclFieldElement) -> FieldElement {
    FieldElement::from_bytes(x.to_bytes()).unwrap()
}

fn vg(p: &G2) -> VerkeyGroup {
    VerkeyGroup::from_bytes(p.to_bytes(false)).unwrap()
}

fn amcl_g2(p: &VerkeyGroup) -> G2 {
    let bytes = p.to_bytes();
    G2::from(<&[u8; 193]>::try_from(&bytes[..]).unwrap())
}

struct Statement {
    bases: Vec<G2>,
    secrets: Vec<AmclFieldElement>,
    commitment: G2,
}

fn statement(n: usize) -> Statement {
    let bases: Vec<G2> = (0..n).map(|_| G2::random()).collect();
    let secrets: Vec<AmclFieldElement> = (0..n).map(|_| AmclFieldElement::random()).collect();
    let mut commitment = G2::identity();
    for (b, s) in bases.iter().zip(secrets.iter()) {
        commitment = commitment + b * s;
    }
    Statement { bases, secrets, commitment }
}

fn prove(st: &Statement, blindings: &[AmclFieldElement], challenge: &AmclFieldElement) -> ProofOtherGroup {
    let mut committing = ProverCommittingOtherGroup::new();
    for (i, b) in st.bases.iter().enumerate() {
        let idx = committing.commit(&vg(b), Some(&fe(&blindings[i])));
        assert_eq!(idx, i);
    }
    let committed = committing.finish();
    let secrets: Vec<FieldElement> = st.secrets.iter().map(fe).collect();
    committed.gen_proof(&fe(challenge), secrets.as_slice()).unwrap()
}

#[test]
fn honest_proof_of_exponents_verifies() {
    let st = statement(4);
    let blindings: Vec<AmclFieldElement> = (0..4).map(|_| AmclFieldElement::random()).collect();
    let challenge = AmclFieldElement::random();
    let proof = prove(&st, &blindings, &challenge);
    let bases: Vec<VerkeyGroup> = st.bases.iter().map(vg).collect();
    assert_eq!(proof.verify(bases.as_slice(), &vg(&st.commitment), &fe(&challenge)), Ok(true));
    assert_eq!(proof.clone(), proof);
}

#[test]
fn commitment_is_bases_times_blindings() {
    let st = statement(3);
    let blindings: Vec<AmclFieldElement> = (0..3).map(|_| AmclFieldElement::random()).collect();
    let challenge = AmclFieldElement::random();
    let proof = prove(&st, &blindings, &challenge);
    let mut expected = G2::identity();
    for (b, r) in st.bases.iter().zip(blindings.iter()) {
        expected = expected + b * r;
    }
    assert!(amcl_g2(&proof.commitment) == expected);
}

#[test]
fn response_is_blinding_plus_challenge_times_secret() {
    let st = statement(3);
    let blindings: Vec<AmclFieldElement> = (0..3).map(|_| AmclFieldElement::random()).collect();
    let challenge = AmclFieldElement::random();
    let proof = prove(&st, &blindings, &challenge);
    assert_eq!(proof.responses.len(), 3);
    for k in 0..3 {
        let expected = &blindings[k] + &challenge * &st.secrets[k];
        assert_eq!(proof.responses[k], fe(&expected));
    }
}

#[test]
fn response_with_small_numbers() {
    // blinding 7, challenge 3, secret 5: the response is 7 + 3 * 5 = 22.
    let base = G2::random();
    let mut committing = ProverCommittingOtherGroup::new();
    committing.commit(&vg(&base), Some(&fe(&AmclFieldElement::from(7u64))));
    let committed = committing.finish();
    let proof = committed
        .gen_proof(&fe(&AmclFieldElement::from(3u64)), &[fe(&AmclFieldElement::from(5u64))])
        .unwrap();
    let mut expected = vec![0u8; 48];
    expected[47] = 22;
    assert_eq!(proof.responses[0].to_bytes(), expected);
}

#[test]
fn proof_with_wrong_challenge_is_rejected() {
    let st = statement(3);
    let blindings: Vec<AmclFieldElement> = (0..3).map(|_| AmclFieldElement::random()).collect();
    let challenge = AmclFieldElement::random();
    let proof = prove(&st, &blindings, &challenge);
    let bases: Vec<VerkeyGroup> = st.bases.iter().map(vg).collect();
    let other = AmclFieldElement::random();
    assert_eq!(proof.verify(bases.as_slice(), &vg(&st.commitment), &fe(&other)), Ok(false));
}

#[test]
fn proof_for_another_statement_is_rejected() {
    let st = statement(3);
    let blindings: Vec<AmclFieldElement> = (0..3).map(|_| AmclFieldElement::random()).collect();
    let challenge = AmclFieldElement::random();
    let proof = prove(&st, &blindings, &challenge);
    let bases: Vec<VerkeyGroup> = st.bases.iter().map(vg).collect();
    assert_eq!(proof.verify(bases.as_slice(), &vg(&G2::random()), &fe(&challenge)), Ok(false));
}

#[test]
fn proof_with_a_changed_response_is_rejected() {
    let st = statement(3);
    let blindings: Vec<AmclFieldElement> = (0..3).map(|_| AmclFieldElement::random()).collect();
    let challenge = AmclFieldElement::random();
    let mut proof = prove(&st, &blindings, &challenge);
    proof.responses[1] = fe(&AmclFieldElement::random());
    let bases: Vec<VerkeyGroup> = st.bases.iter().map(vg).collect();
    assert_eq!(proof.verify(bases.as_slice(), &vg(&st.commitment), &fe(&challenge)), Ok(false));
}

#[test]
fn bases_and_responses_must_agree_in_number() {
    let st = statement(3);
    let blindings: Vec<AmclFieldElement> = (0..3).map(|_| AmclFieldElement::random()).collect();
    let challenge = AmclFieldElement::random();
    let proof = prove(&st, &blindings, &challenge);
    let bases: Vec<VerkeyGroup> = st.bases.iter().take(2).map(vg).collect();
    assert_eq!(
        proof.verify(bases.as_slice(), &vg(&st.commitment), &fe(&challenge)),
        Err(CredentialError::UnequalNoOfBasesExponents { bases: 2, exponents: 3 })
    );
}

#[test]
fn secrets_and_bases_must_agree_in_number() {
    let mut committing = ProverCommittingOtherGroup::new();
    committing.commit(&vg(&G2::random()), None);
    committing.commit(&vg(&G2::random()), None);
    let committed = committing.finish();
    let r = committed.gen_proof(&fe(&AmclFieldElement::random()), &[fe(&AmclFieldElement::random())]);
    assert_eq!(r, Err(CredentialError::UnequalNoOfBasesExponents { bases: 2, exponents: 1 }));
}

#[test]
fn fresh_blindings_differ_between_provers() {
    let base = vg(&G2::random());
    let secret = fe(&AmclFieldElement::random());
    let challenge = fe(&AmclFieldElement::random());
    let mut a = ProverCommittingOtherGroup::new();
    a.commit(&base, None);
    let mut b = ProverCommittingOtherGroup::new();
    b.commit(&base, None);
    let pa = a.finish().gen_proof(&challenge, &[secret.clone()]).unwrap();
    let pb = b.finish().gen_proof(&challenge, &[secret.clone()]).unwrap();
    assert_ne!(pa.commitment, pb.commitment);
    assert_ne!(pa.responses[0], pb.responses[0]);
}

#[test]
fn prover_bytes_are_bases_then_commitment_compressed() {
    let st = statement(2);
    let blindings: Vec<AmclFieldElement> = (0..2).map(|_| AmclFieldElement::random()).collect();
    let mut committing = ProverCommittingOtherGroup::new();
    for (i, b) in st.bases.iter().enumerate() {
        committing.commit(&vg(b), Some(&fe(&blindings[i])));
    }
    let committed = committing.finish();
    let commitment = &st.bases[0] * &blindings[0] + &st.bases[1] * &blindings[1];
    let mut expected = st.bases[0].to_bytes(true);
    expected.extend_from_slice(&st.bases[1].to_bytes(true));
    expected.extend_from_slice(&commitment.to_bytes(true));
    assert_eq!(committed.to_bytes(), expected);
    assert_eq!(expected.len(), 3 * 97);
}

#[test]
fn compress_all_of_nothing_is_empty() {
    assert!(compress_all(&[]).is_empty());
    let p = G2::random();
    assert_eq!(compress_all(&[vg(&p)]), p.to_bytes(true));
}

#[test]
fn challenge_is_the_hash_of_the_prover_bytes_and_the_extra_bytes() {
    let mut committing = ProverCommittingOtherGroup::new();
    committing.commit(&vg(&G2::random()), None);
    let committed = committing.finish();
    let mut bytes = committed.to_bytes();
    assert_eq!(committed.gen_challenge(vec![]), fe(&AmclFieldElement::from_msg_hash(&bytes)));
    bytes.extend_from_slice(&[1, 2, 3]);
    assert_eq!(committed.gen_challenge(vec![1, 2, 3]), fe(&AmclFieldElement::from_msg_hash(&bytes)));
}

fn bytes_of_order_less_one() -> Vec<u8> {
    vec![0, 0, 0, 0, 0, 0, 0, 0, 0, 0, 0, 0, 0, 0, 0, 0, 115, 237, 167, 83, 41, 157, 125, 72, 51, 57, 216, 8, 9, 161, 216, 5, 83, 189, 164, 2, 255, 254, 91, 254, 255, 255, 255, 255, 0, 0, 0, 0]
}

fn respond(blinding: Vec<u8>, challenge: u64, secret: u64) -> Vec<u8> {
    let mut committing = ProverCommittingOtherGroup::new();
    committing.commit(&vg(&G2::random()), Some(&FieldElement::from_bytes(blinding).unwrap()));
    let proof = committing
        .finish()
        .gen_proof(&fe(&AmclFieldElement::from(challenge)), &[fe(&AmclFieldElement::from(secret))])
        .unwrap();
    proof.responses[0].to_bytes()
}

#[test]
fn response_wraps_round_at_the_order_of_the_field() {
    // (order - 1) + 1 * 2 = 1 modulo the order.
    let mut one = vec![0u8; 48];
    one[47] = 1;
    assert_eq!(respond(bytes_of_order_less_one(), 1, 2), one);
    // (order - 1) + 0 * 2 = order - 1.
    assert_eq!(respond(bytes_of_order_less_one(), 0, 2), bytes_of_order_less_one());
}

#[test]
fn blinding_that_is_not_reduced_is_reduced_as_it_is_read() {
    // The number that forty-eight bytes of 255 write, plus 3 * 5, modulo the order.
    let expected: Vec<u8> = vec![0, 0, 0, 0, 0, 0, 0, 0, 0, 0, 0, 0, 0, 0, 0, 0, 45, 190, 175, 31, 212, 132, 58, 203, 122, 187, 229, 104, 115, 105, 81, 10, 146, 119, 239, 184, 172, 10, 96, 13, 207, 42, 178, 27, 248, 31, 113, 59];
    assert_eq!(respond(vec![255u8; 48], 3, 5), expected);
}
