use sherpa_server::api::rpc::{
    check_user_delete, is_streaming_up, may_act_on_user, may_manage_users,
    method_not_found_message, route_rpc_method, RpcMethod, UserDeleteDenial, UserRecord,
};
use sherpa_server::auth::context::AuthContext;

#[test]
fn methods_are_routed_by_name() {
    assert_eq!(route_rpc_method("auth.login"), RpcMethod::AuthLogin);
    assert_eq!(route_rpc_method("auth.validate"), RpcMethod::AuthValidate);
    assert_eq!(route_rpc_method("inspect"), RpcMethod::Inspect);
    assert_eq!(route_rpc_method("destroy"), RpcMethod::Destroy);
    assert_eq!(route_rpc_method("user.create"), RpcMethod::UserCreate);
    assert_eq!(route_rpc_method("user.list"), RpcMethod::UserList);
    assert_eq!(route_rpc_method("user.delete"), RpcMethod::UserDelete);
    assert_eq!(route_rpc_method("user.passwd"), RpcMethod::UserPasswd);
    assert_eq!(route_rpc_method("user.info"), RpcMethod::UserInfo);
    assert_eq!(route_rpc_method("up"), RpcMethod::Unknown);
    assert_eq!(route_rpc_method("Inspect"), RpcMethod::Unknown);
    assert!(is_streaming_up("up"));
    assert!(!is_streaming_up("inspect"));
}

#[test]
fn unknown_method_messages() {
    assert_eq!(method_not_found_message("foo", false), "Method 'foo' not found");
    assert_eq!(method_not_found_message("bar", true), "Streaming method 'bar' not found");
}

#[test]
fn user_management_rights() {
    let admin = AuthContext::new("root".to_string(), true);
    let alice = AuthContext::new("alice".to_string(), false);
    assert!(may_manage_users(&admin));
    assert!(!may_manage_users(&alice));
    assert!(may_act_on_user(&admin, "bob"));
    assert!(may_act_on_user(&alice, "alice"));
    assert!(!may_act_on_user(&alice, "bob"));
}

fn rec(name: &str, is_admin: bool) -> UserRecord {
    UserRecord { username: name.to_string(), is_admin }
}

#[test]
fn deletion_rules() {
    let users = vec![rec("root", true), rec("alice", false), rec("ops", true)];
    let root = AuthContext::new("root".to_string(), true);
    let alice = AuthContext::new("alice".to_string(), false);
    assert_eq!(check_user_delete(&alice, "root", &users), Err(UserDeleteDenial::AdminOnly));
    assert_eq!(check_user_delete(&root, "root", &users), Err(UserDeleteDenial::SelfDelete));
    assert_eq!(check_user_delete(&root, "ghost", &users), Err(UserDeleteDenial::NotFound));
    assert_eq!(check_user_delete(&root, "alice", &users), Ok(()));
    assert_eq!(check_user_delete(&root, "ops", &users), Ok(()));
}

#[test]
fn the_last_admin_is_kept() {
    let users = vec![rec("root", true), rec("boss", true)];
    let root = AuthContext::new("root".to_string(), true);
    assert_eq!(check_user_delete(&root, "boss", &users), Ok(()));
    let alone = vec![rec("boss", true), rec("alice", false)];
    let other_admin = AuthContext::new("root".to_string(), true);
    assert_eq!(check_user_delete(&other_admin, "boss", &alone), Err(UserDeleteDenial::LastAdmin));
}
