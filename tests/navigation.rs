use nested_router::{
    derive_active, derive_context, open_user_tab, to_users, user_of, ChangeTargetArgs, Mapper,
    Navigator, RootScope, RootTarget, RouterContext, Scope, ScopeContext, ScopeNode,
};

#[derive(Clone, Debug, PartialEq, Eq)]
enum Loc {
    Home,
    Users(u64),
}

fn render_loc(l: &Loc) -> String {
    match l {
        Loc::Home => "/".to_string(),
        Loc::Users(id) => format!("/users/{}", id),
    }
}

fn navigator() -> Navigator<Loc, fn(&Loc) -> String> {
    Navigator::new("/app".to_string(), render_loc as fn(&Loc) -> String)
}

fn root(active: Option<Loc>) -> RouterContext<Loc, RootScope> {
    RouterContext { base: "/app".to_string(), scope: RootScope, active_target: active }
}

fn user_down(p: &Loc) -> Option<u64> {
    match p {
        Loc::Users(id) => Some(*id),
        Loc::Home => None,
    }
}

fn user_up(a: ChangeTargetArgs<u64>) -> ChangeTargetArgs<Loc> {
    ChangeTargetArgs { target: Loc::Users(a.target), query: a.query }
}

type UserMapper = Mapper<fn(&Loc) -> Option<u64>, fn(ChangeTargetArgs<u64>) -> ChangeTargetArgs<Loc>>;

fn user_mapper() -> UserMapper {
    Mapper {
        downwards: user_down as fn(&Loc) -> Option<u64>,
        upwards: user_up as fn(ChangeTargetArgs<u64>) -> ChangeTargetArgs<Loc>,
    }
}

fn pairs(list: &[(&str, &str)]) -> Vec<(String, String)> {
    list.iter().map(|(k, v)| (k.to_string(), v.to_string())).collect()
}

#[test]
fn child_of_users_is_active_with_the_id() {
    let parent = root(Some(Loc::Users(42)));
    let child = derive_context(&parent, user_mapper());
    assert_eq!(child.active_target, Some(42));
    assert_eq!(child.base, "/app");
    assert_eq!(*child.active(), Some(42));
}

#[test]
fn push_with_query_reaches_root_as_users_intent() {
    let parent = root(Some(Loc::Users(42)));
    let child = derive_context(&parent, user_mapper());
    let mut nav = navigator();
    let r = child.scope.push_with_query(&mut nav, 42, &pairs(&[("tab", "profile")]));
    assert!(r.is_ok());
    assert_eq!(
        nav.applied,
        vec![ChangeTargetArgs { target: Loc::Users(42), query: Some("tab=profile".to_string()) }]
    );
    assert_eq!(nav.location, "/app/users/42?tab=profile");
}

#[test]
fn query_is_url_encoded() {
    let parent = root(None);
    let child = derive_context(&parent, user_mapper());
    let mut nav = navigator();
    let r = child.scope.push_with_query(&mut nav, 3, &pairs(&[("q", "a b&c"), ("n", "1")]));
    assert!(r.is_ok());
    assert_eq!(nav.applied[0].query, Some("q=a+b%26c&n=1".to_string()));
}

#[test]
fn home_leaves_child_inactive_but_push_still_composes() {
    let parent = root(Some(Loc::Home));
    let child = derive_context(&parent, user_mapper());
    assert_eq!(child.active_target, None);
    let mut nav = navigator();
    child.scope.push(&mut nav, 7);
    assert_eq!(nav.applied, vec![ChangeTargetArgs { target: Loc::Users(7), query: None }]);
    assert_eq!(nav.location, "/app/users/7");
}

#[test]
fn absent_parent_target_stays_absent_at_every_depth() {
    let parent = root(None);
    let child = derive_context(&parent, user_mapper());
    assert_eq!(child.active_target, None);
    let grandchild = derive_context(
        &child,
        Mapper {
            downwards: |id: &u64| Some(*id + 1),
            upwards: |a: ChangeTargetArgs<u64>| ChangeTargetArgs { target: a.target - 1, query: a.query },
        },
    );
    assert_eq!(grandchild.active_target, None);
}

#[test]
fn downward_mapping_applies_at_each_level() {
    let parent = root(Some(Loc::Users(10)));
    let child = derive_context(&parent, user_mapper());
    let grandchild = derive_context(
        &child,
        Mapper {
            downwards: |id: &u64| if *id % 2 == 0 { Some(*id / 2) } else { None },
            upwards: |a: ChangeTargetArgs<u64>| ChangeTargetArgs { target: a.target * 2, query: a.query },
        },
    );
    assert_eq!(grandchild.active_target, Some(5));
    assert_eq!(derive_active(&Some(Loc::Users(9)), &user_mapper()), Some(9));
    assert_eq!(derive_active(&Some(Loc::Home), &user_mapper()), None);
    assert_eq!(derive_active(&None, &user_mapper()), None);
}

#[test]
fn upwards_folds_every_mapper_from_leaf_to_root() {
    let parent = root(None);
    let child = derive_context(&parent, user_mapper());
    let grandchild = derive_context(
        &child,
        Mapper {
            downwards: |id: &u64| Some(*id * 10),
            upwards: |a: ChangeTargetArgs<u64>| ChangeTargetArgs { target: a.target / 10, query: a.query },
        },
    );
    let mut nav = navigator();
    grandchild.scope.upwards(&mut nav, ChangeTargetArgs { target: 120, query: Some("x=1".to_string()) });
    let folded = user_up(ChangeTargetArgs { target: 120 / 10, query: Some("x=1".to_string()) });
    assert_eq!(nav.applied, vec![folded]);
    assert_eq!(nav.location, "/app/users/12?x=1");
}

#[test]
fn upwards_calls_arrive_in_order() {
    let parent = root(None);
    let child = derive_context(&parent, user_mapper());
    let mut nav = navigator();
    child.scope.push(&mut nav, 1);
    child.scope.push(&mut nav, 2);
    RootScope.push(&mut nav, Loc::Home);
    assert_eq!(
        nav.applied,
        vec![
            ChangeTargetArgs { target: Loc::Users(1), query: None },
            ChangeTargetArgs { target: Loc::Users(2), query: None },
            ChangeTargetArgs { target: Loc::Home, query: None },
        ]
    );
    assert_eq!(nav.location, "/app/");
}

#[test]
fn collect_is_pure_and_matches_upwards() {
    let parent = root(Some(Loc::Users(4)));
    let child = derive_context(&parent, user_mapper());
    let mut nav = navigator();
    let args = ChangeTargetArgs { target: 8, query: Some("tab=a".to_string()) };
    let first = child.scope.collect(&nav, args.clone());
    let second = child.scope.collect(&nav, args.clone());
    assert_eq!(first, "/app/users/8?tab=a");
    assert_eq!(first, second);
    assert!(nav.applied.is_empty());
    assert_eq!(nav.location, "/app");
    child.scope.upwards(&mut nav, args);
    assert_eq!(nav.location, first);
}

#[test]
fn failed_encoding_changes_nothing() {
    let parent = root(None);
    let child = derive_context(&parent, user_mapper());
    let mut nav = navigator();
    let r = child.scope.push_encoded(&mut nav, 5, Err::<String, &str>("bad query"));
    assert_eq!(r, Err("bad query"));
    assert!(nav.applied.is_empty());
    assert_eq!(nav.location, "/app");
    let r = child.scope.push_encoded(&mut nav, 5, Ok::<String, &str>("a=b".to_string()));
    assert_eq!(r, Ok(()));
    assert_eq!(nav.location, "/app/users/5?a=b");
}

#[test]
fn nested_scope_lifts_through_its_mapper() {
    let s = ScopeContext { parent: &RootScope, upwards: user_up as fn(ChangeTargetArgs<u64>) -> ChangeTargetArgs<Loc> };
    let r = s.lift(ChangeTargetArgs { target: 3, query: None });
    assert_eq!(r, ChangeTargetArgs { target: Loc::Users(3), query: None });
    let at_root = RootScope.lift(ChangeTargetArgs { target: Loc::Home, query: Some("k=v".to_string()) });
    assert_eq!(at_root, ChangeTargetArgs { target: Loc::Home, query: Some("k=v".to_string()) });
}

#[test]
fn recompose_reuses_unchanged_context() {
    let parent = root(Some(Loc::Users(42)));
    let mut node = ScopeNode::new();
    assert!(node.published.is_none());
    assert!(node.recompose(&parent, 1, user_mapper(), 9));
    assert!(!node.recompose(&parent, 1, user_mapper(), 9));
    assert_eq!(node.published.as_ref().unwrap().context.active_target, Some(42));
    assert!(node.recompose(&parent, 2, user_mapper(), 9));
    assert!(node.recompose(&parent, 2, user_mapper(), 10));
    assert!(!node.recompose(&parent, 2, user_mapper(), 10));
}

#[test]
fn recompose_derives_anew_when_active_target_changes() {
    let users = root(Some(Loc::Users(42)));
    let home = root(Some(Loc::Home));
    let mut node = ScopeNode::new();
    assert!(node.recompose(&users, 1, user_mapper(), 1));
    assert!(node.recompose(&home, 1, user_mapper(), 1));
    assert_eq!(node.published.as_ref().unwrap().context.active_target, None);
    assert!(!node.recompose(&home, 1, user_mapper(), 1));
    let mut nav = navigator();
    node.published.as_ref().unwrap().context.scope.push(&mut nav, 6);
    assert_eq!(nav.location, "/app/users/6");
}

#[test]
fn render_adds_query_after_question_mark() {
    let nav = navigator();
    assert_eq!(nav.render(&ChangeTargetArgs { target: Loc::Home, query: None }), "/app/");
    assert_eq!(
        nav.render(&ChangeTargetArgs { target: Loc::Users(1), query: Some("".to_string()) }),
        "/app/users/1?"
    );
}

fn render_root(t: &RootTarget) -> String {
    match t {
        RootTarget::Home => "/".to_string(),
        RootTarget::Users(id) => format!("/users/{}", id),
    }
}

#[test]
fn open_user_tab_from_active_user() {
    let root = RouterContext { base: "".to_string(), scope: RootScope, active_target: Some(RootTarget::Users(42)) };
    let mut nav = Navigator::new("".to_string(), render_root);
    let active = open_user_tab(&root, &mut nav, 42, "profile".to_string());
    assert_eq!(active, Some(42));
    assert_eq!(
        nav.applied,
        vec![ChangeTargetArgs { target: RootTarget::Users(42), query: Some("tab=profile".to_string()) }]
    );
    assert_eq!(nav.location, "/users/42?tab=profile");
}

#[test]
fn open_user_tab_from_home_still_reaches_users() {
    let root = RouterContext { base: "/app".to_string(), scope: RootScope, active_target: Some(RootTarget::Home) };
    let mut nav = Navigator::new("/app".to_string(), render_root);
    let active = open_user_tab(&root, &mut nav, 7, "a b".to_string());
    assert_eq!(active, None);
    assert_eq!(nav.location, "/app/users/7?tab=a+b");
}

#[test]
fn user_mappers_translate_both_ways() {
    assert_eq!(user_of(&RootTarget::Users(3)), Some(3));
    assert_eq!(user_of(&RootTarget::Home), None);
    assert_eq!(
        to_users(ChangeTargetArgs { target: 5, query: Some("x=1".to_string()) }),
        ChangeTargetArgs { target: RootTarget::Users(5), query: Some("x=1".to_string()) }
    );
}
