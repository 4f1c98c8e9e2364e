//! Behaviour of the shop economy, the scoring, and the lifetime countdown,
//! on concrete values.

use crashem::pertubator::try_unlock;
use crashem::pertubator::Money;
use crashem::pertubator::Pertubator;
use crashem::pertubator::UnlockOutcome;
use crashem::pertubator::UnlockedPertubators;
use crashem::points_money::update_highscore_money;
use crashem::points_money::HighScore;
use crashem::util::Lifetime;

#[test]
fn fresh_game_owns_only_the_sludge_patch() {
    let money = Money::default();
    let unlocked = UnlockedPertubators::default();
    assert_eq!(money.0, 0);
    assert_eq!(unlocked.0, vec![Pertubator::Soap]);
    assert!(unlocked.owns(Pertubator::Soap));
    assert!(!unlocked.owns(Pertubator::Nails));
    assert!(!unlocked.owns(Pertubator::Spring));
    assert!(!unlocked.owns(Pertubator::Barrel));
}

#[test]
fn unlock_subtracts_the_cost() {
    let mut money = Money(1500);
    let mut unlocked = UnlockedPertubators::default();
    assert_eq!(
        try_unlock(&mut money, &mut unlocked, Pertubator::Nails),
        UnlockOutcome::Unlocked
    );
    assert_eq!(money.0, 1490);
    assert_eq!(
        try_unlock(&mut money, &mut unlocked, Pertubator::Barrel),
        UnlockOutcome::Unlocked
    );
    assert_eq!(money.0, 490);
    assert_eq!(
        unlocked.0,
        vec![Pertubator::Soap, Pertubator::Nails, Pertubator::Barrel]
    );
}

#[test]
fn unlock_needs_the_exact_cost_at_least() {
    let mut money = Money(99);
    let mut unlocked = UnlockedPertubators::default();
    assert_eq!(
        try_unlock(&mut money, &mut unlocked, Pertubator::Spring),
        UnlockOutcome::TooExpensive
    );
    assert_eq!(money.0, 99);
    assert_eq!(unlocked.0, vec![Pertubator::Soap]);
    money.0 = 100;
    assert_eq!(
        try_unlock(&mut money, &mut unlocked, Pertubator::Spring),
        UnlockOutcome::Unlocked
    );
    assert_eq!(money.0, 0);
}

#[test]
fn owned_pertubators_cannot_be_bought_again() {
    let mut money = Money(50);
    let mut unlocked = UnlockedPertubators::default();
    assert_eq!(
        try_unlock(&mut money, &mut unlocked, Pertubator::Soap),
        UnlockOutcome::AlreadyOwned
    );
    assert_eq!(money.0, 50);
    assert_eq!(unlocked.0, vec![Pertubator::Soap]);
}

#[test]
fn a_crash_feeds_score_and_money() {
    let mut score = HighScore::default();
    let mut money = Money(0);
    // A crash of magnitude 5.5 units scores 550 points and pays 5 money.
    update_highscore_money(&mut score, &mut money, 5500);
    assert_eq!(score.0, 550000);
    assert_eq!(score.rounded_points(), 550);
    assert_eq!(money.0, 5);
    // A tiny follow-up crash rounds away to no money but still scores.
    update_highscore_money(&mut score, &mut money, 900);
    assert_eq!(score.0, 640000);
    assert_eq!(money.0, 5);
}

#[test]
fn displayed_score_rounds_to_nearest() {
    assert_eq!(HighScore(499).rounded_points(), 0);
    assert_eq!(HighScore(500).rounded_points(), 1);
    assert_eq!(HighScore(1499).rounded_points(), 1);
    assert_eq!(HighScore(1500).rounded_points(), 2);
}

#[test]
fn lifetime_counts_down_and_fires_once() {
    let mut l = Lifetime::new(2000);
    assert!(!l.tick(1500));
    assert_eq!(l.remaining_ms, 500);
    assert!(l.tick(500));
    assert_eq!(l.remaining_ms, 0);
    assert!(!l.tick(100));
}

#[test]
fn zero_lifetime_fires_on_its_first_tick() {
    let mut l = Lifetime::new(0);
    assert!(l.tick(0));
    assert!(!l.tick(16));
}
