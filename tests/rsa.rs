use ckb_libs::librsa::{
    DkimAction, DkimScan, LibRSA, PubkeyHash, CKB_VERIFY_RSA, DKIM_NO_MATCH, RSA_LENGTH_MISMATCH,
};

#[test]
fn rsa_info_example_layout() {
    let n = [0xFFu8; 4];
    let sig = [0xAAu8; 4];
    let info = LibRSA::get_rsa_info(&n, 65537, &sig).unwrap();
    assert_eq!(info.len(), 20);
    assert_eq!(&info[0..4], &CKB_VERIFY_RSA.to_le_bytes());
    assert_eq!(&info[0..4], &[1, 0, 0, 0]);
    assert_eq!(&info[4..8], &[32, 0, 0, 0]);
    assert_eq!(&info[8..12], &[1, 0, 1, 0]);
    assert_eq!(&info[12..16], &[0xFF; 4]);
    assert_eq!(&info[16..20], &[0xAA; 4]);
}

#[test]
fn rsa_info_general_layout() {
    let n: Vec<u8> = (0..256u32).map(|i| i as u8).collect();
    let sig: Vec<u8> = (0..256u32).map(|i| (255 - i) as u8).collect();
    let info = LibRSA::get_rsa_info(&n, 3, &sig).unwrap();
    assert_eq!(info.len(), 12 + 2 * 256);
    assert_eq!(&info[4..8], &2048u32.to_le_bytes());
    assert_eq!(&info[8..12], &3u32.to_le_bytes());
    assert_eq!(&info[12..268], &n[..]);
    assert_eq!(&info[268..524], &sig[..]);
}

#[test]
fn rsa_info_empty_modulus() {
    let info = LibRSA::get_rsa_info(&[], 0x01020304, &[]).unwrap();
    assert_eq!(info, vec![1, 0, 0, 0, 0, 0, 0, 0, 4, 3, 2, 1]);
}

#[test]
fn rsa_info_length_mismatch() {
    assert_eq!(LibRSA::get_rsa_info(&[1, 2, 3], 65537, &[1, 2]), Err(RSA_LENGTH_MISMATCH));
    assert_eq!(LibRSA::get_rsa_info(&[], 65537, &[9]), Err(8));
}

#[test]
fn rsa_prefilled_data_always_loads() {
    assert!(LibRSA.load_prefilled_data().is_ok());
}

#[test]
fn rsa_signature_outcome() {
    let mut out = [0u8; 20];
    out[0] = 7;
    out[19] = 9;
    let hash = LibRSA.signature_outcome(0, out).unwrap();
    assert_eq!(hash.as_slice(), &out[..]);
    let bytes: [u8; 20] = hash.into();
    assert_eq!(bytes, out);
    assert!(matches!(LibRSA.signature_outcome(-5, out), Err(-5)));
    assert!(matches!(LibRSA.signature_outcome(42, [0u8; 20]), Err(42)));
}

#[test]
fn pubkey_hash_default_is_zero() {
    let hash = PubkeyHash::default();
    assert_eq!(hash.as_slice(), &[0u8; 20][..]);
}

fn run_scan(scan: &mut DkimScan, verdicts: &[bool]) -> (Result<(), i32>, Vec<Vec<u8>>) {
    let mut tried: Vec<Vec<u8>> = Vec::new();
    let mut action = scan.advance(false);
    loop {
        match action {
            DkimAction::Verify { rsa_info, message } => {
                let ok = verdicts[tried.len()];
                assert_eq!(rsa_info.len(), 12 + 2 * 2);
                tried.push(message);
                action = scan.advance(ok);
            }
            DkimAction::Matched => return (Ok(()), tried),
            DkimAction::NoMatch => return (Err(DKIM_NO_MATCH), tried),
        }
    }
}

#[test]
fn dkim_stops_at_first_match() {
    let n = vec![0x11, 0x22];
    let messages = vec![b"m0".to_vec(), b"m1".to_vec(), b"m2".to_vec()];
    let sigs = vec![vec![1, 1], vec![2, 2], vec![3, 3]];
    let mut scan = DkimScan::new(n, 65537, messages, sigs);
    let (result, tried) = run_scan(&mut scan, &[false, true, true]);
    assert_eq!(result, Ok(()));
    assert_eq!(tried, vec![b"m0".to_vec(), b"m1".to_vec()]);
}

#[test]
fn dkim_candidate_buffer_and_message() {
    let n = vec![0x11, 0x22];
    let mut scan = DkimScan::new(n.clone(), 3, vec![b"body".to_vec()], vec![vec![5, 6]]);
    match scan.advance(false) {
        DkimAction::Verify { rsa_info, message } => {
            assert_eq!(rsa_info, LibRSA::get_rsa_info(&n, 3, &[5, 6]).unwrap());
            assert_eq!(message, b"body".to_vec());
        }
        _ => panic!("expected a candidate"),
    }
    assert!(matches!(scan.advance(false), DkimAction::NoMatch));
}

#[test]
fn dkim_no_match_after_all_candidates() {
    let messages = vec![b"a".to_vec(), b"b".to_vec()];
    let sigs = vec![vec![1, 1], vec![2, 2]];
    let mut scan = DkimScan::new(vec![0, 0], 65537, messages, sigs);
    let (result, tried) = run_scan(&mut scan, &[false, false]);
    assert_eq!(result, Err(1));
    assert_eq!(tried.len(), 2);
}

#[test]
fn dkim_skips_unencodable_signature() {
    let messages = vec![b"a".to_vec(), b"b".to_vec()];
    let sigs = vec![vec![1, 1, 1], vec![2, 2]];
    let mut scan = DkimScan::new(vec![0, 0], 65537, messages, sigs);
    let (result, tried) = run_scan(&mut scan, &[true]);
    assert_eq!(result, Ok(()));
    assert_eq!(tried, vec![b"b".to_vec()]);
}

#[test]
fn dkim_truncates_to_shorter_sequence() {
    let messages = vec![b"a".to_vec()];
    let sigs = vec![vec![1, 1], vec![2, 2], vec![3, 3]];
    let mut scan = DkimScan::new(vec![0, 0], 65537, messages, sigs);
    let (result, tried) = run_scan(&mut scan, &[false, true, true]);
    assert_eq!(result, Err(DKIM_NO_MATCH));
    assert_eq!(tried, vec![b"a".to_vec()]);
}

#[test]
fn dkim_empty_email_has_no_match() {
    let mut scan = DkimScan::new(vec![0, 0], 65537, Vec::new(), Vec::new());
    assert!(matches!(scan.advance(false), DkimAction::NoMatch));
}
