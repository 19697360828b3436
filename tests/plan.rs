use corral_validate::plan::{plan_level, plan_levels};
use corral_validate::session::User;
use corral_validate::validator::CorralValidator;

fn user_on(plan: &str) -> User {
    User {
        id: "u1".to_string(),
        email: "a@example.com".to_string(),
        name: None,
        plan: plan.to_string(),
        role: "user".to_string(),
        email_verified: false,
        created_at: "2024-01-01".to_string(),
    }
}

#[test]
fn pro_user_plan_checks() {
    let u = user_on("pro");
    assert!(CorralValidator::require_plan(&u, "free"));
    assert!(CorralValidator::require_plan(&u, "pro"));
    assert!(!CorralValidator::require_plan(&u, "enterprise"));
}

#[test]
fn every_known_plan_meets_itself() {
    for (name, _) in plan_levels() {
        assert!(CorralValidator::require_plan(&user_on(name), name));
    }
}

#[test]
fn higher_rank_meets_lower_only() {
    let team = user_on("team");
    let free = user_on("free");
    assert!(CorralValidator::require_plan(&team, "pro"));
    assert!(!CorralValidator::require_plan(&free, "team"));
}

#[test]
fn unknown_plans_rank_zero() {
    assert_eq!(plan_level("platinum"), 0);
    assert!(CorralValidator::require_plan(&user_on("platinum"), "gold"));
    assert!(CorralValidator::require_plan(&user_on("platinum"), "free"));
    assert!(!CorralValidator::require_plan(&user_on("platinum"), "pro"));
    assert!(CorralValidator::require_plan(&user_on("pro"), "mystery"));
}

#[test]
fn plan_table_ranks() {
    let levels = plan_levels();
    assert_eq!(levels, vec![("free", 0u8), ("pro", 1), ("team", 2), ("enterprise", 3)]);
    assert_eq!(plan_level("enterprise"), 3);
    assert_eq!(plan_level("Pro"), 0);
}
