use tubor_yield::error::ErrorCode;
use tubor_yield::math::constants::MAX_SIGNERS;
use tubor_yield::pubkey::Pubkey;
use tubor_yield::state::multisig::{AdminInstruction, Multisig, SignerInfo};

/// A distinct, non-default key for each `n`.
fn key(n: u8) -> Pubkey {
    let mut bytes = [0u8; 32];
    bytes[0] = n;
    bytes[31] = 0x5A;
    Pubkey::new_from_array(bytes)
}

fn signer(key: Pubkey, is_signer: bool) -> SignerInfo {
    SignerInfo { key, is_signer }
}

#[test]
fn test_multisig_default_state() {
    let multisig = Multisig::default();
    assert_eq!(multisig.num_signers, 0);
    assert_eq!(multisig.num_signed, 0);
    assert_eq!(multisig.min_signatures, 0);
    assert_eq!(multisig.bump, 0);
    assert_eq!(multisig.instruction_accounts_len, 0);
    assert_eq!(multisig.instruction_data_len, 0);
    assert_eq!(multisig.instruction_hash_bytes, [0; 32]);
    assert_eq!(multisig.nonce, 0);
    assert_eq!(multisig.last_execution_time, 0);
    assert_eq!(multisig.last_signature_time, 0);
    assert_eq!(multisig.signature_timeout, 0);
    assert_eq!(multisig.required_weight, 0);
    assert_eq!(multisig.signature_count, 0);
    for i in 0..MAX_SIGNERS {
        assert_eq!(multisig.signers[i], Pubkey::default());
        assert_eq!(multisig.signer_weights[i], 0);
        assert_eq!(multisig.signed[i], 0);
    }
}

#[test]
fn test_get_instruction_hash() {
    let accounts = vec![key(1), key(2)];
    let data = vec![1, 2, 3, 4];

    let hash = Multisig::get_instruction_hash(&accounts, &data);
    assert_eq!(hash.len(), 32);

    let hash2 = Multisig::get_instruction_hash(&accounts, &data);
    assert_eq!(hash, hash2);

    let data2 = vec![1, 2, 3, 5];
    let hash3 = Multisig::get_instruction_hash(&accounts, &data2);
    assert_ne!(hash, hash3);
}

#[test]
fn test_get_instruction_hash_empty_data() {
    let accounts = vec![key(1)];
    let data: Vec<u8> = vec![];

    let hash = Multisig::get_instruction_hash(&accounts, &data);
    assert_eq!(hash.len(), 32);
}

#[test]
fn test_get_signer_index() {
    let mut multisig = Multisig::default();
    let signer1 = key(1);
    let signer2 = key(2);
    let signer3 = key(3);
    multisig.set_signers(&[signer1, signer2, signer3], 2).unwrap();

    assert_eq!(multisig.get_signer_index(&signer1).unwrap(), 0);
    assert_eq!(multisig.get_signer_index(&signer2).unwrap(), 1);
    assert_eq!(multisig.get_signer_index(&signer3).unwrap(), 2);

    let non_signer = key(4);
    assert!(multisig.get_signer_index(&non_signer).is_err());
}

#[test]
fn test_set_signers() {
    let mut multisig = Multisig::default();
    let signer1 = key(1);
    let signer2 = key(2);

    let result = multisig.set_signers(&[signer1, signer2], 2);
    assert!(result.is_ok());
    assert_eq!(multisig.num_signers, 2);
    assert_eq!(multisig.min_signatures, 2);
    assert_eq!(multisig.num_signed, 0);
    assert_eq!(multisig.signers[0], signer1);
    assert_eq!(multisig.signers[1], signer2);
}

#[test]
fn test_set_signers_validation() {
    let mut multisig = Multisig::default();
    let signer1 = key(1);

    let result = multisig.set_signers(&[], 1);
    assert!(result.is_err());

    let result = multisig.set_signers(&[signer1], 0);
    assert!(result.is_err());

    let result = multisig.set_signers(&[signer1], 2);
    assert!(result.is_err());

    let result = multisig.set_signers(&[signer1, signer1], 1);
    assert!(result.is_err());
}

#[test]
fn test_sign_multisig_single_signer() {
    let mut multisig = Multisig::default();
    let signer1 = key(1);
    multisig.set_signers(&[signer1], 1).unwrap();

    let signer_account = signer(signer1, true);
    let instruction_accounts: Vec<Pubkey> = vec![];
    let instruction_data = vec![1, 2, 3];

    let result =
        multisig.sign_multisig(&signer_account, &instruction_accounts, &instruction_data, 1, 100);
    assert_eq!(result.unwrap(), 0);
}

#[test]
fn test_sign_multisig_multi_signer_flow() {
    let mut multisig = Multisig::default();
    let accounts = vec![signer(key(1), true), signer(key(2), true), signer(key(3), true)];
    multisig.set_signers(&[key(1), key(2), key(3)], 2).unwrap();

    let instruction_accounts: Vec<Pubkey> = vec![];
    let instruction_data = vec![1, 2, 3];

    let result =
        multisig.sign_multisig(&accounts[0], &instruction_accounts, &instruction_data, 1, 100);
    assert_eq!(result.unwrap(), 1);

    let result =
        multisig.sign_multisig(&accounts[1], &instruction_accounts, &instruction_data, 2, 100);
    assert_eq!(result.unwrap(), 0);

    let result =
        multisig.sign_multisig(&accounts[2], &instruction_accounts, &instruction_data, 3, 100);
    assert!(result.is_err());
}

#[test]
fn test_sign_multisig_validation() {
    let mut multisig = Multisig::default();
    let signer1 = key(1);
    multisig.set_signers(&[signer1], 1).unwrap();

    let non_signer = key(2);
    let signer_account = signer(non_signer, true);
    let instruction_accounts: Vec<Pubkey> = vec![];
    let instruction_data = vec![1, 2, 3];

    let result =
        multisig.sign_multisig(&signer_account, &instruction_accounts, &instruction_data, 1, 100);
    assert!(result.is_err());

    let signer_account = signer(signer1, false);
    let result =
        multisig.sign_multisig(&signer_account, &instruction_accounts, &instruction_data, 1, 100);
    assert!(result.is_err());
}

#[test]
fn test_nonce_validation() {
    let mut multisig = Multisig::default();
    let accounts = vec![signer(key(1), true), signer(key(2), true)];
    multisig.set_signers(&[key(1), key(2)], 2).unwrap();

    let instruction_accounts = vec![key(9)];
    let instruction_data = vec![1, 2, 3];

    let result =
        multisig.sign_multisig(&accounts[0], &instruction_accounts, &instruction_data, 1, 100);
    assert!(result.is_ok());

    let result =
        multisig.sign_multisig(&accounts[1], &instruction_accounts, &instruction_data, 1, 101);
    assert!(result.is_err());

    let result =
        multisig.sign_multisig(&accounts[1], &instruction_accounts, &instruction_data, 0, 102);
    assert!(result.is_err());

    let new_instruction_data = vec![4, 5, 6];
    let result =
        multisig.sign_multisig(&accounts[1], &instruction_accounts, &new_instruction_data, 2, 103);
    assert!(result.is_ok());
}

#[test]
fn multisig_test_rate_limiting() {
    let mut multisig = Multisig::default();
    let signer1 = key(1);
    multisig.set_signers(&[signer1], 1).unwrap();

    let signer_account = signer(signer1, true);
    let instruction_accounts: Vec<Pubkey> = vec![];
    let instruction_data = vec![1, 2, 3];

    for i in 1..=3 {
        let result = multisig.sign_multisig(
            &signer_account,
            &instruction_accounts,
            &instruction_data,
            i,
            100,
        );
        assert!(result.is_ok());
    }

    let result =
        multisig.sign_multisig(&signer_account, &instruction_accounts, &instruction_data, 4, 100);
    assert!(result.is_err());
}

#[test]
fn test_signature_expiration() {
    let mut multisig = Multisig::default();
    let signer1 = key(1);
    let signer2 = key(2);
    multisig.set_signers(&[signer1, signer2], 2).unwrap();

    multisig.set_signature_timeout(200).unwrap();

    let signer_account = signer(signer1, true);
    let instruction_accounts: Vec<Pubkey> = vec![];
    let instruction_data = vec![1, 2, 3];

    let result =
        multisig.sign_multisig(&signer_account, &instruction_accounts, &instruction_data, 1, 100);
    assert!(result.is_ok());

    let result =
        multisig.sign_multisig(&signer_account, &instruction_accounts, &instruction_data, 2, 300);
    assert!(result.is_ok());
    assert_eq!(multisig.num_signed, 1);
}

#[test]
fn test_weight_based_signing() {
    let mut multisig = Multisig::default();
    let accounts = vec![signer(key(1), true), signer(key(2), true)];
    multisig.set_signers(&[key(1), key(2)], 2).unwrap();

    multisig.set_signer_weight(0, 2).unwrap();
    multisig.set_signer_weight(1, 1).unwrap();
    multisig.set_required_weight(3).unwrap();

    let instruction_accounts: Vec<Pubkey> = vec![];
    let instruction_data = vec![1, 2, 3];

    let result =
        multisig.sign_multisig(&accounts[0], &instruction_accounts, &instruction_data, 1, 100);
    assert!(result.is_ok());
    assert_eq!(multisig.get_total_weight(), 2);

    let result =
        multisig.sign_multisig(&accounts[1], &instruction_accounts, &instruction_data, 2, 100);
    assert!(result.is_ok());
    assert_eq!(multisig.get_total_weight(), 3);
}

#[test]
fn test_state_validation() {
    let mut multisig = Multisig::default();
    let accounts = vec![signer(key(1), true), signer(key(2), true)];
    multisig.set_signers(&[key(1), key(2)], 2).unwrap();

    assert!(multisig.validate_state().is_ok());

    multisig.num_signed = 5;
    assert!(multisig.validate_state().is_err());

    multisig.num_signed = 0;
    multisig.signed.fill(0);
    assert!(multisig.validate_state().is_ok());

    let instruction_accounts: Vec<Pubkey> = vec![];
    let instruction_data = vec![1, 2, 3];
    let result =
        multisig.sign_multisig(&accounts[0], &instruction_accounts, &instruction_data, 1, 100);
    assert!(result.is_ok());
    assert!(multisig.validate_state().is_ok());
}

#[test]
fn test_default_timeout() {
    let mut multisig = Multisig::default();
    let signer1 = key(1);
    multisig.set_signers(&[signer1], 1).unwrap();

    let signer_account = signer(signer1, true);
    let instruction_accounts: Vec<Pubkey> = vec![];
    let instruction_data = vec![1, 2, 3];

    let initial_timeout = multisig.signature_timeout;
    assert_eq!(initial_timeout, 0);

    let current_time = 100;
    let result = multisig.sign_multisig(
        &signer_account,
        &instruction_accounts,
        &instruction_data,
        1,
        current_time,
    );
    assert!(result.is_ok());

    let timeout_after_first = multisig.signature_timeout;
    assert_eq!(timeout_after_first, current_time + 3600);

    let result = multisig.sign_multisig(
        &signer_account,
        &instruction_accounts,
        &instruction_data,
        2,
        current_time + 100,
    );
    assert!(result.is_ok());
    let timeout_after_second = multisig.signature_timeout;
    assert_eq!(timeout_after_second, current_time + 3600);
}

#[test]
fn test_comprehensive_multisig_flow() {
    let mut multisig = Multisig::default();
    let accounts = vec![signer(key(1), true), signer(key(2), true), signer(key(3), true)];
    multisig.set_signers(&[key(1), key(2), key(3)], 2).unwrap();

    multisig.set_signer_weight(0, 2).unwrap();
    multisig.set_signer_weight(1, 1).unwrap();
    multisig.set_signer_weight(2, 1).unwrap();
    multisig.set_required_weight(3).unwrap();

    multisig.set_signature_timeout(200).unwrap();

    let instruction_accounts: Vec<Pubkey> = vec![];
    let instruction_data = vec![1, 2, 3];

    let result =
        multisig.sign_multisig(&accounts[0], &instruction_accounts, &instruction_data, 1, 100);
    assert!(result.is_ok());
    assert_eq!(multisig.get_total_weight(), 2);

    let result =
        multisig.sign_multisig(&accounts[1], &instruction_accounts, &instruction_data, 2, 100);
    assert!(result.is_ok());
    assert_eq!(multisig.get_total_weight(), 3);

    let result =
        multisig.sign_multisig(&accounts[2], &instruction_accounts, &instruction_data, 3, 100);
    assert!(result.is_err());

    assert!(multisig.validate_state().is_ok());
}

#[test]
fn test_get_instruction_data() {
    // The serialized parameters: a u64 of 12345 and a `true` flag.
    let mut params = 12345u64.to_le_bytes().to_vec();
    params.push(1);

    let data = Multisig::get_instruction_data(AdminInstruction::UpdatePrice, &params);
    assert!(!data.is_empty());

    assert_eq!(data[data.len() - 1], AdminInstruction::UpdatePrice.tag());
    assert_eq!(&data[..data.len() - 1], &params[..]);
}

#[test]
fn test_admin_instruction_values() {
    let mut values = std::collections::HashSet::new();

    values.insert(AdminInstruction::UpdatePrice.tag());
    values.insert(AdminInstruction::DeployAgent.tag());
    values.insert(AdminInstruction::AddAgent.tag());
    values.insert(AdminInstruction::BanUser.tag());
    values.insert(AdminInstruction::PermManager.tag());
    values.insert(AdminInstruction::WithdrawFees.tag());
    values.insert(AdminInstruction::OpenTrade.tag());

    assert_eq!(values.len(), 7);
}

#[test]
fn test_multisig_partial_eq() {
    let mut multisig1 = Multisig::default();
    let mut multisig2 = Multisig::default();

    assert_eq!(multisig1, multisig2);

    multisig1.num_signers = 1;
    assert_ne!(multisig1, multisig2);

    multisig2.num_signers = 1;
    assert_eq!(multisig1, multisig2);
}

#[test]
fn multisig_error_variants() {
    let mut multisig = Multisig::default();
    multisig.set_signers(&[key(1), key(2)], 2).unwrap();
    let data = vec![7u8];
    let none: Vec<Pubkey> = vec![];
    assert_eq!(
        multisig.sign_multisig(&signer(key(1), false), &none, &data, 1, 100),
        Err(ErrorCode::MissingRequiredSignature)
    );
    assert_eq!(
        multisig.sign_multisig(&signer(key(3), true), &none, &data, 1, 100),
        Err(ErrorCode::MultisigAccountNotAuthorized)
    );
    assert_eq!(multisig.sign_multisig(&signer(key(1), true), &none, &data, 1, 100), Ok(1));
    assert_eq!(
        multisig.sign_multisig(&signer(key(1), true), &none, &data, 2, 100),
        Err(ErrorCode::MultisigAlreadySigned)
    );
    assert_eq!(
        multisig.sign_multisig(&signer(key(2), true), &none, &data, 1, 100),
        Err(ErrorCode::InvalidNonce)
    );
    // Withdrawing the signature lets the same signer sign again.
    assert_eq!(multisig.unsign_multisig(&signer(key(1), true)), Ok(()));
    assert_eq!(multisig.num_signed, 0);
    assert_eq!(multisig.is_signer(&key(2)), Ok(true));
    assert_eq!(multisig.is_signer(&key(3)), Ok(false));
    assert_eq!(
        multisig.set_signers(&[key(1), Pubkey::default()], 1),
        Err(ErrorCode::InvalidArgument)
    );
}

#[test]
fn state_stays_valid_through_signing() {
    let keys = [key(1), key(2), key(3)];
    let mut multisig = Multisig::default();
    multisig.set_signers(&keys, 2).unwrap();
    assert_eq!(multisig.validate_state(), Ok(()));
    let signer = |k: Pubkey| SignerInfo { key: k, is_signer: true };
    let data = [1u8, 2, 3];
    let _ = multisig.sign_multisig(&signer(keys[0]), &[], &data, 1, 100);
    assert_eq!(multisig.validate_state(), Ok(()));
    // A repeated signature and a stranger are refused; the state stays valid.
    let _ = multisig.sign_multisig(&signer(keys[0]), &[], &data, 2, 200);
    let _ = multisig.sign_multisig(&signer(key(9)), &[], &data, 3, 300);
    assert_eq!(multisig.validate_state(), Ok(()));
    multisig.unsign_multisig(&signer(keys[0])).unwrap();
    assert_eq!(multisig.num_signed, 0);
    assert_eq!(multisig.validate_state(), Ok(()));
    let _ = multisig.sign_multisig(&signer(keys[1]), &[], &data, 4, 400);
    let _ = multisig.sign_multisig(&signer(keys[2]), &[], &data, 5, 500);
    assert_eq!(multisig.validate_state(), Ok(()));
}
