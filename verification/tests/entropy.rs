use laplace_interfaces::domain::entropy::{ContextId, GlobalSeedConfig, LocalSeed, SeedAssignment};
use laplace_interfaces::error::kraken::KrakenError;

#[test]
fn context_id_display() {
    let c = ContextId::new(7);
    assert_eq!(c.as_u64(), 7);
    assert_eq!(c.to_display_string(), "Ctx#7");
}

#[test]
fn local_seed_display_is_padded_hex() {
    let s = LocalSeed::new(0xbeef);
    assert_eq!(s.as_u64(), 0xbeef);
    assert_eq!(s.to_display_string(), "Seed(0x000000000000beef)");
    assert_eq!(LocalSeed::new(u64::MAX).to_display_string(), "Seed(0xffffffffffffffff)");
}

#[test]
fn seed_assignment_display() {
    let a = SeedAssignment::new(ContextId::new(3), LocalSeed::new(16), 9);
    assert_eq!(
        a.to_display_string(),
        "SeedAssignment { Ctx#3, Seed(0x0000000000000010), lamport: 9 }"
    );
}

#[test]
fn global_seed_test_config() {
    let c = GlobalSeedConfig::test_config();
    assert_eq!(c.seed, 12345);
    assert_eq!(c.lamport_mod, 8);
    assert_eq!(c.max_contexts, 3);
    let d = GlobalSeedConfig::new(1, 2, 3);
    assert_eq!((d.seed, d.lamport_mod, d.max_contexts), (1, 2, 3));
}

#[test]
fn kraken_error_display() {
    assert_eq!(
        KrakenError::QuotaExceeded { current: 5, max: 4 }.to_display_string(),
        "VU quota exceeded: 5/4"
    );
    assert_eq!(
        KrakenError::InvalidSeedAssignment {
            vu_id: ContextId::new(1),
            expected: LocalSeed::new(2),
            got: LocalSeed::new(3),
        }
        .to_display_string(),
        "Invalid seed for Ctx#1: expected Seed(0x0000000000000002), got Seed(0x0000000000000003)"
    );
    assert_eq!(
        KrakenError::NotFound(ContextId::new(9)).to_display_string(),
        "VU Ctx#9 not found"
    );
}
