use sha2::{Digest, Sha256};
use the_bridge::llm_sidecar::{action_texts, extract_address, extract_number, LlmSidecar, SYSTEM_PROMPT};
use the_bridge::threshold_crypto::{commit, compute_group_pubkey, ecdh, ThresholdCrypto};

fn sha(data: &[u8]) -> Vec<u8> {
    Sha256::digest(data).to_vec()
}

#[test]
fn numbers_are_read_from_all_digits() {
    assert_eq!(extract_number("set tax rate to 25 bps"), Some(25));
    assert_eq!(extract_number("a1b2c3"), Some(123));
    assert_eq!(extract_number("no digits"), None);
    assert_eq!(extract_number("99999999999999999999999"), None);
    assert_eq!(extract_number("18446744073709551615"), Some(u64::MAX));
}

#[test]
fn addresses_are_found_by_prefix() {
    assert_eq!(extract_address("please freeze user:1234 now"), "user:1234");
    assert_eq!(extract_address("seize (addr:0xabc)."), "addr:0xabc");
    assert_eq!(extract_address("freeze 0xdeadbeef!"), "0xdeadbeef");
    assert_eq!(extract_address("freeze everyone"), "user:unknown");
}

#[test]
fn fast_path_answers() {
    let s = LlmSidecar::new(None, None);
    assert_eq!(s.ollama_url(), "http://localhost:11434");
    assert_eq!(s.model(), "llama3.2");
    assert!(!s.is_available());
    assert_eq!(s.system_prompt(), SYSTEM_PROMPT);

    let tax = s.try_fast_path("Set the TAX rate to 30").unwrap();
    assert_eq!(
        tax,
        "理解了. سأفرض ضريبة 30 bps. نفذ:\nPOST /api/v1/ghost/tax/rate\n[ACTION] {\"method\":\"POST\",\"path\":\"/api/v1/ghost/tax/rate\",\"body\":{\"rate_bps\":30}} [/ACTION]"
    );
    let tax_default = s.try_fast_path("tax rate please").unwrap();
    assert!(tax_default.contains("\"rate_bps\":10}"));

    let freeze = s.try_fast_path("freeze user:42").unwrap();
    assert_eq!(
        freeze,
        "سأجمد العنوان user:42.\n[ACTION] {\"method\":\"POST\",\"path\":\"/api/v1/ghost/sleeper/user:42/freeze\"} [/ACTION]"
    );
    let seize = s.try_fast_path("seize addr:9").unwrap();
    assert_eq!(
        seize,
        "سأصادر العنوان addr:9.\n[ACTION] {\"method\":\"POST\",\"path\":\"/api/v1/ghost/sleeper/addr:9/seize\"} [/ACTION]"
    );
    assert_eq!(s.try_fast_path("system STATUS?").unwrap(), "سأتحقق من حالة النظام...");
    assert_eq!(s.try_fast_path("hello there"), None);
}

#[test]
fn action_blocks_are_stripped() {
    let s = LlmSidecar::new(Some("http://x".to_string()), Some("m".to_string()));
    assert_eq!(s.ollama_url(), "http://x");
    let text = "  Done.\n[ACTION] {\"method\":\"GET\"} [/ACTION]\nMore text  \n  [ACTION] x\n";
    assert_eq!(s.strip_action_blocks(text), "Done.\nMore text");
    assert_eq!(s.strip_action_blocks("plain"), "plain");
}

#[test]
fn query_counter_and_availability() {
    let mut s = LlmSidecar::new(None, None);
    s.record_query();
    s.record_query();
    assert_eq!(s.total_queries(), 2);
    s.set_available(true);
    assert!(s.is_available());
}

#[test]
fn digests_of_the_envelope() {
    assert_eq!(commit(b"ct", b"eph"), sha(b"cteph"));
    assert_eq!(ecdh(b"priv", b"pub"), sha(b"privpub"));
    let keys = vec![vec![1u8, 2], vec![3u8]];
    assert_eq!(compute_group_pubkey(&keys), sha(&[1, 2, 3]));
}

#[test]
fn encrypt_share_and_combine() {
    let mut tc = ThresholdCrypto::new(1, 3).unwrap();
    assert_eq!(tc.get_params().threshold, 1);
    assert_eq!(tc.get_params().total_validators, 3);
    assert_eq!(tc.get_params().generator, vec![2u8]);
    assert_eq!(tc.get_params().validator_pubkeys.len(), 3);
    assert!(tc.get_secret_share().is_none());

    let plaintext = br#"{"order_id":"o1","pair":"BTC/USD"}"#;
    let enc = tc.encrypt_serialized_order("o1", plaintext);
    assert_eq!(enc.order_id, "o1");
    assert!(tc.verify_encrypted_order(&enc));
    assert!(tc.create_decryption_share(&enc).is_none());

    // the ciphertext is the plaintext under the keystream of the ephemeral and group keys
    let mut material = enc.ephemeral_pubkey.clone();
    material.extend_from_slice(&tc.get_params().group_pubkey);
    let key = sha(&material);
    let decoded: Vec<u8> = enc.ciphertext.iter().enumerate().map(|(i, b)| b ^ key[i % 32]).collect();
    assert_eq!(decoded, plaintext.to_vec());

    let share = tc.run_dkg(1);
    assert_eq!(share.validator_id, 1);
    assert_eq!(share.secret_share.len(), 32);
    assert_eq!(share.public_poly.len(), 1);
    assert_eq!(tc.get_secret_share().unwrap().secret_share, share.secret_share);

    let d = tc.create_decryption_share(&enc).unwrap();
    let mut m2 = share.secret_share.clone();
    m2.extend_from_slice(&enc.ephemeral_pubkey);
    let k2 = sha(&m2);
    let expected: Vec<u8> = enc.ciphertext.iter().enumerate().map(|(i, b)| b ^ k2[i % 32]).collect();
    assert_eq!(d.share, expected);

    let (combined, _proof) = tc.combine_decryption_shares(&enc, &[d.clone()]).unwrap();
    assert_eq!(combined, d.share);
    assert!(tc.combine_decryption_shares(&enc, &[]).is_none());

    let mut tampered = enc.clone();
    tampered.ciphertext[0] ^= 1;
    assert!(!tc.verify_encrypted_order(&tampered));
}

#[test]
fn action_texts_are_the_marked_lines() {
    let reply = "Sure.\n  [ACTION] {\"method\":\"GET\",\"path\":\"/api/v1/ghost/stats\"} [/ACTION]\nDone\n[ACTION][/ACTION]\n[ACTION] only opens";
    let a = action_texts(reply);
    assert_eq!(a, vec!["{\"method\":\"GET\",\"path\":\"/api/v1/ghost/stats\"}".to_string(), String::new()]);
    assert!(action_texts("no actions here").is_empty());
}

#[test]
fn action_lines_end_at_crlf_and_lf() {
    let reply = "ok\r\n[ACTION] one [/ACTION]\r\n[ACTION] two [/ACTION]\n";
    assert_eq!(action_texts(reply), vec!["one".to_string(), "two".to_string()]);
}

#[test]
fn availability_is_the_last_probe_and_queries_are_counted() {
    let mut s = LlmSidecar::new(None, None);
    assert!(!s.is_available());
    s.set_available(true);
    s.record_query();
    s.record_query();
    s.record_query();
    s.set_available(false);
    s.record_query();
    assert!(!s.is_available());
    assert_eq!(s.total_queries(), 4);
}

#[test]
fn unicode_white_space_splits_and_trims_as_std_does() {
    let msg = "freeze\u{3000}0xABCDEF,\u{2003}now\u{85}";
    let expected = msg
        .split_whitespace()
        .map(|w| w.trim_matches(|c: char| c == ',' || c == '.' || c == ';' || c == ':' || c == '!' || c == '?'))
        .find(|w| w.starts_with("user:") || w.starts_with("addr:") || w.starts_with("0x"))
        .unwrap()
        .to_string();
    assert_eq!(expected, "0xABCDEF");
    assert_eq!(extract_address(msg), expected);
    let s = LlmSidecar::new(None, None);
    let reply = "\u{a0}\u{2028} hello\u{1680}there \u{3000}\n[ACTION] x [/ACTION]\n\u{205f}";
    assert_eq!(s.strip_action_blocks(reply), "hello\u{1680}there");
    assert_eq!(s.strip_action_blocks(reply), reply.lines().filter(|l| !l.trim().starts_with("[ACTION]")).collect::<Vec<_>>().join("\n").trim());
}
