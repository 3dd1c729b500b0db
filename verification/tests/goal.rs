use local_workflow_agent::goal::{
    budget_scale, check_objective, goal_continuation_message, goal_kickoff_message,
    goal_system_prompt_addendum, goals_enabled_from, new_goal, small_budget_display, status_from_stored,
    BudgetScale, Goal, GoalError, GoalStatus, MAX_OBJECTIVE_CHARS,
};

fn make_goal(secs: u64) -> Goal {
    Goal {
        id: "x".into(),
        session_id: "s".into(),
        objective: "o".into(),
        status: GoalStatus::Active,
        token_budget: None,
        tokens_used: 0,
        time_used_secs: secs,
        turns_used: 0,
        created_at_ms: 0,
        updated_at_ms: 0,
    }
}

#[test]
fn test_elapsed_display() {
    assert_eq!(make_goal(45).elapsed_display(), "45s");
    assert_eq!(make_goal(90).elapsed_display(), "1m30s");
    assert_eq!(make_goal(3661).elapsed_display(), "1h1m");
}

#[test]
fn elapsed_display_edges() {
    assert_eq!(make_goal(0).elapsed_display(), "0s");
    assert_eq!(make_goal(59).elapsed_display(), "59s");
    assert_eq!(make_goal(60).elapsed_display(), "1m0s");
    assert_eq!(make_goal(3599).elapsed_display(), "59m59s");
    assert_eq!(make_goal(3600).elapsed_display(), "1h0m");
    assert_eq!(make_goal(90061).elapsed_display(), "25h1m");
}

#[test]
fn over_budget_from_the_budget_on() {
    let mut g = make_goal(0);
    g.token_budget = Some(1000);
    assert!(!g.is_over_budget(999));
    assert!(g.is_over_budget(1000));
    assert!(g.is_over_budget(5000));
    g.token_budget = None;
    assert!(!g.is_over_budget(u64::MAX));
}

#[test]
fn budget_scales_and_small_budget_text() {
    assert_eq!(budget_scale(999), BudgetScale::Tokens);
    assert_eq!(budget_scale(1_000), BudgetScale::Thousands);
    assert_eq!(budget_scale(999_999), BudgetScale::Thousands);
    assert_eq!(budget_scale(1_000_000), BudgetScale::Millions);
    assert_eq!(small_budget_display(999), "999 tokens");
    assert_eq!(small_budget_display(1_000), "1K tokens");
    assert_eq!(small_budget_display(12_345), "12K tokens");
    assert_eq!(small_budget_display(0), "0 tokens");
}

#[test]
fn status_names_round_trip() {
    for s in [GoalStatus::Active, GoalStatus::Paused, GoalStatus::BudgetLimited, GoalStatus::Complete] {
        assert_eq!(GoalStatus::from_str(s.as_str()), Some(s));
    }
    assert_eq!(GoalStatus::Active.as_str(), "active");
    assert_eq!(GoalStatus::BudgetLimited.as_str(), "budget_limited");
    assert_eq!(GoalStatus::from_str("done"), None);
    assert_eq!(status_from_stored("paused"), GoalStatus::Paused);
    assert!(GoalStatus::Active.is_continuable());
    assert!(!GoalStatus::Paused.is_continuable());
    assert!(!GoalStatus::Complete.is_continuable());
}

#[test]
fn objective_length_is_checked_in_characters() {
    let ok: String = "é".repeat(MAX_OBJECTIVE_CHARS);
    assert!(check_objective(&ok).is_ok());
    let long: String = "a".repeat(MAX_OBJECTIVE_CHARS + 1);
    match check_objective(&long) {
        Err(GoalError::ObjectiveTooLong { len, max }) => {
            assert_eq!(len, MAX_OBJECTIVE_CHARS + 1);
            assert_eq!(max, MAX_OBJECTIVE_CHARS);
        }
        other => panic!("expected ObjectiveTooLong, got {:?}", other),
    }
    let e = GoalError::ObjectiveTooLong { len: 4001, max: 4000 };
    assert_eq!(e.message(), "Objective too long: 4001 chars (max 4000)");
    assert_eq!(GoalError::Db("locked".into()).message(), "Goal DB error: locked");
}

#[test]
fn goal_prompts_embed_the_objective() {
    let mut g = make_goal(0);
    g.objective = "ship it".into();
    g.turns_used = 3;
    let add = goal_system_prompt_addendum(&g);
    assert!(add.starts_with("\n## Active Goal\n<objective>\nship it\n</objective>"));
    let kick = goal_kickoff_message(&g);
    assert!(kick.starts_with("[Goal started]\nYour objective:\n<objective>\nship it\n</objective>"));
    let cont = goal_continuation_message(&g);
    assert!(cont.starts_with("[Goal continuation — turn 4]\nYour active goal is:\n<objective>\nship it"));
}

#[test]
fn goals_enabled_values() {
    assert!(goals_enabled_from(None));
    assert!(goals_enabled_from(Some("1")));
    assert!(!goals_enabled_from(Some("0")));
    assert!(!goals_enabled_from(Some("false")));
    assert!(!goals_enabled_from(Some("FALSE")));
}

#[test]
fn new_goal_starts_active_and_unused() {
    let g = new_goal("id1".into(), "sess", "obj", Some(10), 77);
    assert_eq!(g.status, GoalStatus::Active);
    assert_eq!(g.tokens_used, 0);
    assert_eq!(g.turns_used, 0);
    assert_eq!(g.token_budget, Some(10));
    assert_eq!(g.created_at_ms, 77);
    assert_eq!(g.updated_at_ms, 77);
}
