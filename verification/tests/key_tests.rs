use aws_lc_rs::rand::fill;
use rand::rng;
use salus::error::StoreError;
use salus::gen_shares;
use salus::genkey;
use salus::key::split_secret;
use salus::unlock_key;
use salus::Init;
use ssss::remove_random_entry;

fn gen_key() -> [u8; 32] {
    let mut key = [0u8; 32];
    fill(&mut key).expect("the random source failed");
    key
}

#[test]
fn genkey_works() {
    let shares = genkey(&Init::default()).expect("no shares");
    assert_eq!(shares.len(), 5);
    for (i, share) in shares.iter().enumerate() {
        println!("Share {}: {}", i + 1, share);
    }
}

#[test]
fn gen_key_works() {
    let key = gen_key();
    let shares = gen_shares(&Init::default(), &key).expect("no shares");
    assert_eq!(shares.len(), 5);
}

#[test]
fn unlock_key_works() {
    let key = gen_key();
    let mut shares = gen_shares(&Init::default(), &key).expect("no shares");
    assert_eq!(shares.len(), 5);

    let unlocked = unlock_key(&shares).expect("no key");
    assert_eq!(unlocked.len(), 32);

    // Remove a random share from `shares` and check that 4 shares can unlock
    // the secret
    let mut rng = rng();
    remove_random_entry(&mut rng, &mut shares);
    assert_eq!(shares.len(), 4);
    assert_eq!(unlock_key(&shares).expect("no key"), unlocked);

    // Remove a random share from `shares` and check that 3 shares can unlock
    // the secret
    remove_random_entry(&mut rng, &mut shares);
    assert_eq!(shares.len(), 3);
    assert_eq!(unlock_key(&shares).expect("no key"), unlocked);

    // Remove a random share from `shares` and check that 2 shares *CANNOT* unlock
    // the secret
    remove_random_entry(&mut rng, &mut shares);
    assert_eq!(shares.len(), 2);
    assert_ne!(unlock_key(&shares).expect("no key"), unlocked);
}

#[test]
fn unlock_key_gives_the_key_back() {
    let key = gen_key();
    let shares = gen_shares(&Init::default(), &key).expect("no shares");
    assert_eq!(unlock_key(&shares).expect("no key"), key.to_vec());
}

#[test]
fn every_quorum_of_three_reconstructs_the_key() {
    let key = gen_key();
    let shares = gen_shares(&Init::new(5, 3), &key).expect("no shares");
    for a in 0..5 {
        for b in 0..5 {
            for c in 0..5 {
                if a != b && b != c && a != c {
                    let quorum = vec![shares[a].clone(), shares[b].clone(), shares[c].clone()];
                    assert_eq!(unlock_key(&quorum).expect("no key"), key.to_vec());
                }
            }
        }
    }
}

#[test]
fn shares_differ_from_one_another() {
    let key = gen_key();
    let shares = gen_shares(&Init::new(7, 4), &key).expect("no shares");
    assert_eq!(shares.len(), 7);
    for a in 0..shares.len() {
        for b in 0..shares.len() {
            if a != b {
                assert_ne!(shares[a], shares[b]);
            }
        }
    }
}

#[test]
fn a_threshold_of_one_needs_one_share() {
    let key = gen_key();
    let shares = gen_shares(&Init::new(3, 1), &key).expect("no shares");
    let one = vec![shares[2].clone()];
    assert_eq!(unlock_key(&one).expect("no key"), key.to_vec());
}

#[test]
fn gen_shares_refuses_no_shares() {
    let key = gen_key();
    assert_eq!(gen_shares(&Init::new(0, 0), &key), Err(StoreError::ShareGeneration));
    assert_eq!(gen_shares(&Init::new(0, 3), &key), Err(StoreError::ShareGeneration));
}

#[test]
fn gen_shares_refuses_a_threshold_of_zero() {
    let key = gen_key();
    assert_eq!(gen_shares(&Init::new(5, 0), &key), Err(StoreError::ShareGeneration));
}

#[test]
fn gen_shares_refuses_a_threshold_above_the_shares() {
    let key = gen_key();
    assert_eq!(gen_shares(&Init::new(5, 6), &key), Err(StoreError::ShareGeneration));
}

#[test]
fn gen_shares_takes_the_threshold_equal_to_the_shares() {
    let key = gen_key();
    let shares = gen_shares(&Init::new(255, 255), &key).expect("no shares");
    assert_eq!(shares.len(), 255);
    assert_eq!(unlock_key(&shares).expect("no key"), key.to_vec());
}

#[test]
fn split_secret_refuses_an_empty_secret() {
    assert_eq!(split_secret(&Init::default(), &[]), Err(StoreError::ShareGeneration));
}

#[test]
fn split_secret_refuses_a_secret_that_is_too_long() {
    let secret = vec![7u8; 65536];
    assert_eq!(split_secret(&Init::default(), &secret), Err(StoreError::ShareGeneration));
}

#[test]
fn split_secret_takes_a_secret_of_any_other_length() {
    let secret: Vec<u8> = (0..1000u32).map(|i| (i % 251) as u8).collect();
    let shares = split_secret(&Init::new(2, 2), &secret).expect("no shares");
    assert_eq!(shares.len(), 2);
    assert_eq!(unlock_key(&shares).expect("no key"), secret);
    let one = split_secret(&Init::new(3, 2), &[9]).expect("no shares");
    assert_eq!(unlock_key(&one).expect("no key"), vec![9]);
}

#[test]
fn unlock_key_refuses_no_shares() {
    assert_eq!(unlock_key(&[]), Err(StoreError::ShareCombination));
}

#[test]
fn unlock_key_refuses_text_that_is_no_share() {
    let shares = vec!["not a share".to_string(), "neither:is this!".to_string()];
    assert_eq!(unlock_key(&shares), Err(StoreError::ShareCombination));
}

#[test]
fn genkey_refuses_a_threshold_above_the_shares() {
    assert_eq!(genkey(&Init::new(2, 3)), Err(StoreError::ShareGeneration));
}

#[test]
fn genkey_shares_reconstruct_one_secret_of_256_bytes() {
    let shares = genkey(&Init::new(4, 2)).expect("no shares");
    assert_eq!(shares.len(), 4);
    let all = unlock_key(&shares).expect("no secret");
    assert_eq!(all.len(), 256);
    let pair = vec![shares[3].clone(), shares[1].clone()];
    assert_eq!(unlock_key(&pair).expect("no secret"), all);
}

#[test]
fn genkey_draws_a_new_secret_each_time() {
    let first = unlock_key(&genkey(&Init::default()).expect("no shares")).expect("no secret");
    let second = unlock_key(&genkey(&Init::default()).expect("no shares")).expect("no secret");
    assert_ne!(first, second);
}

#[test]
fn init_defaults_to_five_and_three() {
    let init = Init::default();
    assert_eq!(init.num_shares(), 5);
    assert_eq!(init.threshold(), 3);
    assert_eq!(init, Init::new(5, 3));
}
