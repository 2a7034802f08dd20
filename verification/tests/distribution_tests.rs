use royalty_distribution::distributor::DistributeRoyalty;
use royalty_distribution::distributor::TransferInstruction;
use royalty_distribution::distributor::distribute_royalty;
use royalty_distribution::model::AccountId;
use royalty_distribution::model::ContributorInfo;
use royalty_distribution::model::ErrorCode;
use royalty_distribution::model::Music;
use royalty_distribution::registry::AddContribution;
use royalty_distribution::registry::InitializeMusic;
use royalty_distribution::registry::add_contribution;
use royalty_distribution::registry::initialize_music;

fn acct(n: u64) -> AccountId {
    AccountId { w0: n, w1: 0, w2: 0, w3: 0 }
}

fn registry_with(weights: &[(u64, u16)]) -> Music {
    let blank = Music {
        authority: acct(0),
        music_id: String::new(),
        contributors: Vec::new(),
        total_weight: 0,
        initialized: false,
    };
    let mut init = InitializeMusic { music: blank, authority: acct(9) };
    assert_eq!(initialize_music(&mut init, String::from("work-1")), Ok(()));
    let mut music = init.music;
    for (who, weight) in weights {
        let mut ctx = AddContribution { music, contributor: acct(*who), authority: acct(9) };
        assert_eq!(add_contribution(&mut ctx, String::from("artist"), *weight), Ok(()));
        music = ctx.music;
    }
    music
}

fn call(music: Music, destinations: &[u64], amount: u64) -> Result<Vec<TransferInstruction>, ErrorCode> {
    let ctx = DistributeRoyalty {
        music,
        royalty_source: acct(100),
        authority: acct(9),
        destinations: destinations.iter().map(|d| acct(*d)).collect(),
    };
    distribute_royalty(&ctx, amount)
}

fn transfer(to: u64, amount: u64) -> TransferInstruction {
    TransferInstruction { from: acct(100), to: acct(to), authority: acct(9), amount }
}

#[test]
fn two_contributors_thirty_seventy() {
    let music = registry_with(&[(1, 30), (2, 70)]);
    let r = call(music, &[11, 12], 100);
    assert_eq!(r, Ok(vec![transfer(11, 30), transfer(12, 70)]));
}

#[test]
fn rounding_remainder_goes_to_second() {
    let music = registry_with(&[(1, 1), (2, 2)]);
    let r = call(music, &[11, 12], 10);
    assert_eq!(r, Ok(vec![transfer(11, 3), transfer(12, 7)]));
}

#[test]
fn single_contributor_receives_everything() {
    let music = registry_with(&[(1, 5)]);
    let r = call(music, &[11], 999);
    assert_eq!(r, Ok(vec![transfer(11, 999)]));
}

#[test]
fn single_contributor_receives_largest_amount() {
    let music = registry_with(&[(1, 5)]);
    let r = call(music, &[11], u64::MAX);
    assert_eq!(r, Ok(vec![transfer(11, u64::MAX)]));
}

#[test]
fn zero_share_issues_no_instruction() {
    let music = registry_with(&[(1, 1), (2, 100)]);
    let r = call(music, &[11, 12], 50);
    assert_eq!(r, Ok(vec![transfer(12, 50)]));
}

#[test]
fn zero_amount_issues_no_instructions() {
    let music = registry_with(&[(1, 30), (2, 70)]);
    let r = call(music, &[11, 12], 0);
    assert_eq!(r, Ok(vec![]));
}

#[test]
fn three_contributors_split_conserves_amount() {
    let music = registry_with(&[(1, 1), (2, 2), (3, 3)]);
    let r = call(music, &[11, 12, 13], 100);
    assert_eq!(r, Ok(vec![transfer(11, 16), transfer(12, 33), transfer(13, 51)]));
}

#[test]
fn shares_sum_to_amount_across_weight_pairs() {
    for (w0, w1) in [(1u16, 2u16), (30, 70), (7, 13), (65534, 1), (1, 65534)] {
        let music = registry_with(&[(1, w0), (2, w1)]);
        let amount: u64 = 12_345_678_901;
        let r = call(music, &[11, 12], amount).unwrap();
        let paid: u64 = r.iter().map(|t| t.amount).sum();
        assert_eq!(paid, amount);
        let expected_first = (amount as u128 * w0 as u128 / (w0 as u128 + w1 as u128)) as u64;
        if expected_first > 0 {
            assert_eq!(r[0].to, acct(11));
            assert_eq!(r[0].amount, expected_first);
        }
    }
}

#[test]
fn distribution_before_creation_fails() {
    let music = Music {
        authority: acct(0),
        music_id: String::new(),
        contributors: Vec::new(),
        total_weight: 0,
        initialized: false,
    };
    let r = call(music, &[11], 100);
    assert_eq!(r, Err(ErrorCode::NotInitialized));
}

#[test]
fn distribution_with_no_contributors_fails() {
    let music = registry_with(&[]);
    let r = call(music, &[], 100);
    assert_eq!(r, Err(ErrorCode::NoContributors));
}

#[test]
fn distribution_with_zero_total_weight_fails() {
    let music = registry_with(&[(1, 0)]);
    let r = call(music, &[11], 100);
    assert_eq!(r, Err(ErrorCode::NoContributors));
}

#[test]
fn missing_second_destination_fails() {
    let music = registry_with(&[(1, 30), (2, 70)]);
    let r = call(music, &[11], 100);
    assert_eq!(r, Err(ErrorCode::InvalidContributors));
}

#[test]
fn surplus_destination_fails() {
    let music = registry_with(&[(1, 30), (2, 70)]);
    let r = call(music, &[11, 12, 13], 100);
    assert_eq!(r, Err(ErrorCode::InvalidContributors));
}

#[test]
fn precondition_order_not_initialized_first() {
    let music = Music {
        authority: acct(0),
        music_id: String::new(),
        contributors: Vec::new(),
        total_weight: 0,
        initialized: false,
    };
    // Both the creation flag and the destinations are wrong; the flag is
    // checked first.
    let r = call(music, &[], 100);
    assert_eq!(r, Err(ErrorCode::NotInitialized));
}

#[test]
fn malformed_registry_share_overflow_fails() {
    // A registry built by hand, breaking the weight-total invariant: the
    // first share would be amount * 65535 / 1.
    let music = Music {
        authority: acct(0),
        music_id: String::from("work-1"),
        contributors: vec![
            ContributorInfo {
                contributor: acct(1),
                contributor_type: String::from("composer"),
                contribution_weight: u16::MAX,
            },
            ContributorInfo {
                contributor: acct(2),
                contributor_type: String::from("performer"),
                contribution_weight: 1,
            },
        ],
        total_weight: 1,
        initialized: true,
    };
    let r = call(music, &[11, 12], u64::MAX);
    assert_eq!(r, Err(ErrorCode::MathOverflow));
}
