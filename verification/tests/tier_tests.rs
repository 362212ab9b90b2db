use authface::models::UserTier;
use authface::text::{has_suffix, join, same_text};
use authface::tier::TierPolicy;
use authface::time::Timestamp;

#[test]
fn tier_names_are_lower_case() {
    assert_eq!(UserTier::Admin.as_str(), "admin");
    assert_eq!(UserTier::Preferred.as_str(), "preferred");
    assert_eq!(UserTier::Normal.as_str(), "normal");
    assert_eq!(UserTier::Free.as_str(), "free");
}

#[test]
fn tiers_rank_by_privilege() {
    assert_eq!(UserTier::Admin.privilege_rank(), 0);
    assert_eq!(UserTier::Preferred.privilege_rank(), 1);
    assert_eq!(UserTier::Normal.privilege_rank(), 2);
    assert_eq!(UserTier::Free.privilege_rank(), 3);
}

#[test]
fn standard_policy_reads_the_domain() {
    let policy = TierPolicy::standard();
    assert_eq!(policy.len(), 2);
    assert_eq!(policy.classify(Some("admin@admin.company.com")), UserTier::Admin);
    assert_eq!(policy.classify(Some("u@preferred.company.com")), UserTier::Preferred);
    assert_eq!(policy.classify(Some("u@example.com")), UserTier::Normal);
    assert_eq!(policy.classify(None), UserTier::Normal);
    assert_eq!(policy.classify(Some("")), UserTier::Normal);
    assert_eq!(policy.classify(Some("@admin.company.com")), UserTier::Admin);
    assert_eq!(policy.classify(Some("admin.company.com")), UserTier::Normal);
    assert_eq!(policy.classify(Some("u@admin.company.com.evil.org")), UserTier::Normal);
    assert_eq!(policy.classify(Some("u@ADMIN.company.com")), UserTier::Normal);
}

#[test]
fn classification_repeats_itself() {
    let policy = TierPolicy::standard();
    for _ in 0..3 {
        assert_eq!(policy.classify(Some("u@preferred.company.com")), UserTier::Preferred);
    }
}

#[test]
fn empty_policy_makes_everyone_normal() {
    let policy = TierPolicy::new();
    assert_eq!(policy.len(), 0);
    assert_eq!(policy.classify(Some("admin@admin.company.com")), UserTier::Normal);
    assert_eq!(policy.classify(None), UserTier::Normal);
}

#[test]
fn rules_are_kept_in_order_of_privilege() {
    let mut policy = TierPolicy::new();
    policy.add_rule(".org".to_string(), UserTier::Free);
    policy.add_rule("@staff.example.org".to_string(), UserTier::Preferred);
    policy.add_rule("@root.example.org".to_string(), UserTier::Admin);
    policy.add_rule("@example.org".to_string(), UserTier::Preferred);
    assert_eq!(policy.len(), 4);
    assert_eq!(policy.classify(Some("a@root.example.org")), UserTier::Admin);
    assert_eq!(policy.classify(Some("a@staff.example.org")), UserTier::Preferred);
    assert_eq!(policy.classify(Some("a@example.org")), UserTier::Preferred);
    assert_eq!(policy.classify(Some("a@other.org")), UserTier::Free);
    assert_eq!(policy.classify(Some("a@other.com")), UserTier::Normal);
}

#[test]
fn suffixes_are_matched_by_character() {
    assert!(has_suffix("abc", "bc"));
    assert!(has_suffix("abc", "abc"));
    assert!(has_suffix("abc", ""));
    assert!(!has_suffix("abc", "ab"));
    assert!(!has_suffix("bc", "abc"));
    assert!(has_suffix("grüße@münchen.de", "@münchen.de"));
    assert!(!has_suffix("grüße@munchen.de", "@münchen.de"));
    assert!(same_text("äb", "äb"));
    assert!(!same_text("ab", "abc"));
    assert_eq!(join("ab", "cd"), "abcd");
}

#[test]
fn instants_are_ordered_and_moved() {
    let start = Timestamp::new(100, 999_999_999);
    assert!(Timestamp::new(101, 0).is_after(&start));
    assert!(!start.is_after(&Timestamp::new(101, 0)));
    assert!(!start.is_after(&start));
    assert!(start.is_after(&Timestamp::new(100, 999_999_998)));
    assert!(Timestamp::new(-1, 5).is_after(&Timestamp::new(-2, 900_000_000)));
    assert_eq!(start.plus_hours(2), Timestamp::new(7_300, 999_999_999));
    assert_eq!(start.plus_days(7), Timestamp::new(604_900, 999_999_999));
    assert_eq!(start.plus_days(0), start);
    assert_eq!(Timestamp::new(0, 0).plus_days(u32::MAX).secs, 4_294_967_295 * 86_400);
    let now = Timestamp::now();
    assert!(now.secs >= 1_600_000_000);
    assert!(now.nanos < 1_000_000_000);
}
