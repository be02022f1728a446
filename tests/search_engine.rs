use git_miner::commit::{commit_body_bytes, CommitFields, Identity};
use git_miner::consistency::confirm_commit;
use git_miner::nonce::{advance, new_nonce, NONCE_LEN};
use git_miner::prefix::HashPrefixChecker;
use git_miner::coordinator::{Action, Coordinator, Event, FoundCommit};
use git_miner::search::{commit_id, Candidate, SearchStep, Worker, PROGRESS_BATCH};

fn root_fields() -> CommitFields {
    CommitFields {
        tree: (1u8..=20).collect(),
        parents: vec![],
        author: Identity {
            name: Some(b"A U Thor".to_vec()),
            email: Some(b"author@example.com".to_vec()),
            seconds: 1234567890,
            offset_minutes: 120,
        },
        committer: Identity {
            name: Some(b"C O Mitter".to_vec()),
            email: Some(b"c@example.com".to_vec()),
            seconds: 1234567891,
            offset_minutes: -330,
        },
        message: b"Initial commit\n".to_vec(),
    }
}

fn hex(b: &[u8]) -> String {
    b.iter().map(|x| format!("{:02x}", x)).collect()
}

fn unhex(s: &str) -> Vec<u8> {
    (0..s.len()).step_by(2).map(|i| u8::from_str_radix(&s[i..i + 2], 16).unwrap()).collect()
}

fn search(fields: CommitFields, prefix: &str, worker_id: u64) -> (Candidate, u64) {
    let checker = HashPrefixChecker::new(prefix).unwrap();
    let mut worker = Worker::new(fields, checker, worker_id).unwrap();
    let mut reported: u64 = 0;
    loop {
        match worker.run_batch() {
            SearchStep::Progress(n) => {
                assert_eq!(n, PROGRESS_BATCH);
                reported += n;
            }
            SearchStep::Found(c) => return (c, reported),
        }
    }
}

#[test]
fn new_nonce_is_sixty_plain_spaces() {
    assert_eq!(new_nonce(), vec![0x20u8; NONCE_LEN]);
}

#[test]
fn advance_picks_glyph_by_low_nibble() {
    let mut nonce = new_nonce();
    let digest: Vec<u8> = (0u8..20).collect();
    advance(&mut nonce, &digest);
    assert_eq!(
        hex(&nonce),
        "202020c2a020e28080e28081e28082e28083e28084e28085e28086e28087e28088e28089e2808ae2808be280afe2819f202020c2a020e28080e28081"
    );
    assert_eq!(nonce.len(), NONCE_LEN);
}

#[test]
fn advance_depends_on_the_digest_alone() {
    let digest: Vec<u8> = (0u8..20).map(|i| i.wrapping_mul(37).wrapping_add(0xf0)).collect();
    let mut a = new_nonce();
    advance(&mut a, &digest);
    let mut b = vec![0xe2u8; NONCE_LEN];
    advance(&mut b, &digest);
    let first = a.clone();
    advance(&mut a, &digest);
    assert_eq!(a, b);
    assert_eq!(a, first);
    let high_nibbles_changed: Vec<u8> = digest.iter().map(|x| x ^ 0xf0).collect();
    advance(&mut b, &high_nibbles_changed);
    assert_eq!(a, b);
}

#[test]
fn nonce_is_valid_text_of_blank_glyphs() {
    let mut nonce = new_nonce();
    advance(&mut nonce, &(0u8..20).map(|i| i * 13).collect::<Vec<u8>>());
    let text = String::from_utf8(nonce).unwrap();
    assert!(text.chars().all(|c| c.is_whitespace() || c == '\u{200b}'));
}

#[test]
fn worker_zero_finds_single_digit_prefix() {
    let fields = root_fields();
    let (c, reported) = search(fields.clone(), "0", 0);
    assert_eq!(reported, 0);
    assert_eq!(c.attempts, 38);
    assert_eq!(hex(&c.id), "03befb4d68127f55681f18d06d43b164b13f5a3c");
    let mut expected = fields.message.clone();
    expected.extend(unhex(
        "e28087e28084202020e2808ae28080e28085e28087c2a020e28084e28087e2819fe28085e2819fe28082e2808be28087e28084202020e28089e28083",
    ));
    assert_eq!(c.message, expected);
}

#[test]
fn workers_with_other_numbers_walk_other_paths() {
    let (c, _) = search(root_fields(), "0", 1);
    assert_eq!(c.attempts, 11);
    assert_eq!(hex(&c.id), "0bbf0aeea4b71a8ea3e1f1f72a51c5cdb881d77c");
    let (d, _) = search(root_fields(), "ab", 3);
    assert_eq!(d.attempts, 355);
    assert_eq!(hex(&d.id), "ab0f42c26e7b70ec121d64b183ccdc24f75d9f23");
}

#[test]
fn seeding_differs_between_workers() {
    let checker = HashPrefixChecker::new("0").unwrap();
    let a = Worker::new(root_fields(), checker.clone(), 0).unwrap();
    let b = Worker::new(root_fields(), checker, 1).unwrap();
    assert_ne!(a.current_nonce(), b.current_nonce());
    assert_ne!(a.current_nonce(), &new_nonce());
}

#[test]
fn three_digit_prefix_found_and_confirmed_by_git() {
    let fields = root_fields();
    let (c, reported) = search(fields.clone(), "000", 0);
    assert_eq!(reported, 0);
    assert_eq!(c.attempts, 2239);
    assert!(hex(&c.id).starts_with("000"));
    assert_eq!(hex(&c.id), "000ab4e7f5dc0de46485748d777f34fef952f695");
    assert_eq!(commit_id(&fields, &c.message), c.id);
    let body = commit_body_bytes(&fields, &c.message);
    assert_eq!(confirm_commit(&c.id, &body), Ok(()));
    assert!(!String::from_utf8(body).unwrap().contains("parent "));
}

#[test]
fn long_prefix_reports_progress_in_batches() {
    let checker = HashPrefixChecker::new("0000000000").unwrap();
    let mut worker = Worker::new(root_fields(), checker, 0).unwrap();
    assert_eq!(worker.run_batch(), SearchStep::Progress(PROGRESS_BATCH));
    assert_eq!(worker.run_batch(), SearchStep::Progress(PROGRESS_BATCH));
}

#[test]
fn attempt_keeps_nonce_on_acceptance() {
    let fields = root_fields();
    let checker = HashPrefixChecker::new("0").unwrap();
    let mut worker = Worker::new(fields.clone(), checker, 0).unwrap();
    loop {
        let before = worker.current_nonce().clone();
        let mut message = fields.message.clone();
        message.extend_from_slice(&before);
        let id = commit_id(&fields, &message);
        match worker.attempt() {
            Some(found) => {
                assert_eq!(found, id);
                assert_eq!(worker.current_nonce(), &before);
                assert_eq!(found[0] >> 4, 0);
                break;
            }
            None => {
                let mut next = before.clone();
                advance(&mut next, &id);
                assert_eq!(worker.current_nonce(), &next);
            }
        }
    }
}

fn third_commit_fields() -> CommitFields {
    let mut f = root_fields();
    f.parents = vec![(21u8..=40).collect()];
    f.message = b"Added c.txt\n".to_vec();
    f
}

fn install_after_search(fields: CommitFields, amend: bool) -> (Action, Vec<u8>) {
    let (c, reported) = search(fields.clone(), "000", 0);
    let body = commit_body_bytes(&fields, &c.message);
    assert_eq!(confirm_commit(&c.id, &body), Ok(()));
    let mut coordinator = Coordinator::new(amend, 0);
    coordinator.on_event(Event::Progress(reported), 1);
    let id = c.id.clone();
    let action = coordinator.on_event(Event::Found(FoundCommit { attempts: c.attempts, id: c.id, body }), 2);
    (action, id)
}

#[test]
fn search_without_amend_installs_and_leaves_head() {
    let (action, id) = install_after_search(third_commit_fields(), false);
    assert!(hex(&id).starts_with("000"));
    match action {
        Action::Install { id: installed, body, move_head, .. } => {
            assert_eq!(installed, id);
            assert!(!move_head);
            let text = String::from_utf8(body).unwrap();
            assert!(text.contains("\nparent 15161718191a1b1c1d1e1f202122232425262728\n"));
            assert!(text.starts_with("tree "));
        }
        other => panic!("unexpected action {:?}", other),
    }
}

#[test]
fn search_with_amend_moves_head_to_found_commit() {
    let (action, id) = install_after_search(third_commit_fields(), true);
    assert!(hex(&id).starts_with("000"));
    assert!(matches!(action, Action::Install { move_head: true, .. }));
}

#[test]
fn root_commit_search_with_amend_has_no_parents() {
    let (action, id) = install_after_search(root_fields(), true);
    assert!(hex(&id).starts_with("000"));
    match action {
        Action::Install { body, move_head, .. } => {
            assert!(move_head);
            assert!(!String::from_utf8(body).unwrap().contains("parent "));
        }
        other => panic!("unexpected action {:?}", other),
    }
}

#[test]
fn worker_is_finished_after_its_one_candidate() {
    let checker = HashPrefixChecker::new("0").unwrap();
    let mut worker = Worker::new(root_fields(), checker, 0).unwrap();
    assert!(!worker.is_finished());
    assert!(matches!(worker.run_batch(), SearchStep::Found(_)));
    assert!(worker.is_finished());
}
