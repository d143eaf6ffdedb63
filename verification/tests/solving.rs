use drillx::hash;
use drillx::hash_with_memory;
use drillx::is_valid_digest;
use drillx::DrillxError;
use drillx::Solution;

#[test]
fn end_to_end_zero_challenge() {
    let challenge = [0u8; 32];
    let nonce: [u8; 8] = [1, 0, 0, 0, 0, 0, 0, 0];
    match hash(&challenge, &nonce) {
        Ok(h) => {
            let solution = Solution::new(h.d, nonce);
            assert_eq!(solution.to_hash().h, h.h);
            assert!(solution.is_valid(&challenge));
        }
        Err(e) => {
            assert!(matches!(e, DrillxError::BadEquix | DrillxError::NoSolutions));
        }
    }
}

#[test]
fn repeated_calls_are_deterministic() {
    let challenge = [3u8; 32];
    for trial in 0u8..16 {
        let nonce: [u8; 8] = [trial, 0, 0, 0, 0, 0, 0, 0];
        let first = hash(&challenge, &nonce);
        let second = hash(&challenge, &nonce);
        match (first, second) {
            (Ok(a), Ok(b)) => {
                assert_eq!(a.d, b.d);
                assert_eq!(a.h, b.h);
            }
            (Err(a), Err(b)) => {
                assert_eq!(
                    matches!(a, DrillxError::BadEquix),
                    matches!(b, DrillxError::BadEquix)
                );
            }
            _ => panic!("one call succeeded and the other failed"),
        }
    }
}

#[test]
fn memory_reuse_is_equivalent() {
    let challenge = [5u8; 32];
    let mut memory = equix::SolverMemory::new();
    for trial in 0u8..16 {
        let nonce: [u8; 8] = [trial, 1, 0, 0, 0, 0, 0, 0];
        let plain = hash(&challenge, &nonce);
        let reused = hash_with_memory(&mut memory, &challenge, &nonce);
        match (plain, reused) {
            (Ok(a), Ok(b)) => {
                assert_eq!(a.d, b.d);
                assert_eq!(a.h, b.h);
            }
            (Err(a), Err(b)) => {
                assert_eq!(
                    matches!(a, DrillxError::BadEquix),
                    matches!(b, DrillxError::BadEquix)
                );
            }
            _ => panic!("solving with and without reused memory disagreed"),
        }
    }
}

#[test]
fn successful_hash_yields_valid_solution() {
    let challenge = [7u8; 32];
    let mut found = false;
    for trial in 0u8..64 {
        let nonce: [u8; 8] = [trial, 0, 0, 0, 0, 0, 0, 2];
        if let Ok(h) = hash(&challenge, &nonce) {
            let solution = Solution::new(h.d, nonce);
            assert!(solution.is_valid(&challenge));
            assert_eq!(solution.to_hash().h, h.h);
            assert_eq!(h.difficulty(), drillx::difficulty(h.h));
            found = true;
            break;
        }
    }
    assert!(found, "no nonce in the scan produced a solution");
}

#[test]
fn some_nonce_yields_no_solutions() {
    let challenge = [11u8; 32];
    let mut seen_no_solutions = false;
    for trial in 0u8..64 {
        let nonce: [u8; 8] = [trial, 0, 0, 0, 0, 0, 0, 3];
        if let Err(DrillxError::NoSolutions) = hash(&challenge, &nonce) {
            seen_no_solutions = true;
            break;
        }
    }
    assert!(seen_no_solutions, "every nonce in the scan found a solution");
}

#[test]
fn arbitrary_digest_is_rejected() {
    let challenge = [0u8; 32];
    let nonce: [u8; 8] = [1, 0, 0, 0, 0, 0, 0, 0];
    // Ascending words pass the ordering check but the tree sums do not match.
    let digest: [u8; 16] = [1, 0, 2, 0, 3, 0, 4, 0, 5, 0, 6, 0, 7, 0, 8, 0];
    assert!(!is_valid_digest(&challenge, &nonce, &digest));
    assert!(!Solution::new(digest, nonce).is_valid(&challenge));
}
