use clever_todo::error::TodoError;
use clever_todo::ops::add_repo;
use clever_todo::ops::add_todo;
use clever_todo::ops::initialize_user;
use clever_todo::ops::mark_todo;
use clever_todo::ops::remove_todo;
use clever_todo::states::AccountId;
use clever_todo::states::UserProfile;
use clever_todo::states::UserRepos;
use clever_todo::states::UserTickets;

fn owner() -> AccountId {
    AccountId { bytes: vec![7u8; 32] }
}

fn stranger() -> AccountId {
    AccountId { bytes: vec![9u8; 32] }
}

#[test]
fn initialize_user_creates_fresh_profile() {
    let p = initialize_user(owner(), "octocat".to_string(), false).unwrap();
    assert_eq!(p.authority.bytes, vec![7u8; 32]);
    assert_eq!(p.github, "octocat");
    assert_eq!(p.last_repo, 0);
    assert_eq!(p.repo_count, 0);
}

#[test]
fn initialize_user_fails_when_slot_occupied() {
    let r = initialize_user(owner(), "octocat".to_string(), true);
    assert_eq!(r, Err(TodoError::AlreadyExists));
}

#[test]
fn repo_count_counts_calls() {
    let mut p = initialize_user(owner(), "octocat".to_string(), false).unwrap();
    for n in 1u8..=5 {
        let repo = add_repo(&mut p, &owner(), format!("repo-{}", n)).unwrap();
        assert_eq!(repo.last_todo, 0);
        assert_eq!(repo.todo_count, 0);
        assert_eq!(p.repo_count, n);
        assert_eq!(p.last_repo, n);
    }
}

#[test]
fn add_repo_rejects_stranger() {
    let mut p = initialize_user(owner(), "octocat".to_string(), false).unwrap();
    let r = add_repo(&mut p, &stranger(), "blog".to_string());
    assert_eq!(r, Err(TodoError::Unauthorized));
    assert_eq!(p.repo_count, 0);
    assert_eq!(p.last_repo, 0);
}

#[test]
fn add_repo_overflow_is_reported_not_wrapped() {
    let mut p = UserProfile {
        authority: owner(),
        github: "octocat".to_string(),
        last_repo: 255,
        repo_count: 255,
    };
    let r = add_repo(&mut p, &owner(), "blog".to_string());
    assert_eq!(r, Err(TodoError::CounterOverflow));
    assert_eq!(p.last_repo, 255);
    assert_eq!(p.repo_count, 255);
}

#[test]
fn add_then_remove_restores_count_but_not_index() {
    let mut repo = UserRepos {
        authority: owner(),
        repo: "blog".to_string(),
        last_todo: 3,
        todo_count: 2,
    };
    let mut bal: u64 = 0;
    let mut vault: u64 = 0;
    let (todo, receipt) =
        add_todo(&mut repo, &owner(), "write post".to_string(), None, &mut bal, &mut vault)
            .unwrap();
    assert!(receipt.is_none());
    assert_eq!(repo.last_todo, 4);
    assert_eq!(repo.todo_count, 3);
    remove_todo(&mut repo, &todo, &owner()).unwrap();
    assert_eq!(repo.todo_count, 2);
    assert_eq!(repo.last_todo, 4);
}

#[test]
fn add_todo_overflow_is_reported_not_wrapped() {
    let mut repo = UserRepos {
        authority: owner(),
        repo: "blog".to_string(),
        last_todo: 255,
        todo_count: 255,
    };
    let mut bal: u64 = 0;
    let mut vault: u64 = 0;
    let r = add_todo(&mut repo, &owner(), "write post".to_string(), None, &mut bal, &mut vault);
    assert_eq!(r, Err(TodoError::CounterOverflow));
    assert_eq!(repo.last_todo, 255);
    assert_eq!(repo.todo_count, 255);
}

#[test]
fn mark_todo_is_one_way() {
    let repo = UserRepos {
        authority: owner(),
        repo: "blog".to_string(),
        last_todo: 1,
        todo_count: 1,
    };
    let mut todo = UserTickets {
        authority: owner(),
        content: "write post".to_string(),
        marked: false,
    };
    assert_eq!(mark_todo(&repo, &mut todo, &owner()), Ok(()));
    assert!(todo.marked);
    assert_eq!(mark_todo(&repo, &mut todo, &owner()), Err(TodoError::AlreadyMarked));
    assert!(todo.marked);
    assert_eq!(todo.content, "write post");
}

#[test]
fn mark_todo_rejects_stranger() {
    let repo = UserRepos {
        authority: owner(),
        repo: "blog".to_string(),
        last_todo: 1,
        todo_count: 1,
    };
    let mut todo = UserTickets {
        authority: owner(),
        content: "write post".to_string(),
        marked: false,
    };
    assert_eq!(mark_todo(&repo, &mut todo, &stranger()), Err(TodoError::Unauthorized));
    assert!(!todo.marked);
}

#[test]
fn remove_todo_rejects_stranger() {
    let mut repo = UserRepos {
        authority: owner(),
        repo: "blog".to_string(),
        last_todo: 1,
        todo_count: 1,
    };
    let todo = UserTickets {
        authority: owner(),
        content: "write post".to_string(),
        marked: false,
    };
    let r = remove_todo(&mut repo, &todo, &stranger());
    assert_eq!(r, Err(TodoError::Unauthorized));
    assert_eq!(repo.todo_count, 1);
}

#[test]
fn remove_todo_underflow_is_reported() {
    let mut repo = UserRepos {
        authority: owner(),
        repo: "blog".to_string(),
        last_todo: 2,
        todo_count: 0,
    };
    let todo = UserTickets {
        authority: owner(),
        content: "stale".to_string(),
        marked: true,
    };
    let r = remove_todo(&mut repo, &todo, &owner());
    assert_eq!(r, Err(TodoError::CounterUnderflow));
    assert_eq!(repo.todo_count, 0);
    assert_eq!(repo.last_todo, 2);
}

#[test]
fn full_owner_scenario() {
    let mut p = initialize_user(owner(), "octocat".to_string(), false).unwrap();
    assert_eq!(p.last_repo, 0);
    let mut repo = add_repo(&mut p, &owner(), "blog".to_string()).unwrap();
    assert_eq!(p.repo_count, 1);
    assert_eq!(repo.repo, "blog");
    let mut bal: u64 = 0;
    let mut vault: u64 = 0;
    let (mut todo, receipt) =
        add_todo(&mut repo, &owner(), "write post".to_string(), None, &mut bal, &mut vault)
            .unwrap();
    assert!(receipt.is_none());
    assert_eq!(repo.todo_count, 1);
    assert!(!todo.marked);
    assert_eq!(mark_todo(&repo, &mut todo, &owner()), Ok(()));
    assert!(todo.marked);
    assert_eq!(mark_todo(&repo, &mut todo, &owner()), Err(TodoError::AlreadyMarked));
    remove_todo(&mut repo, &todo, &owner()).unwrap();
    assert_eq!(repo.todo_count, 0);
    assert_eq!(repo.last_todo, 1);
}
