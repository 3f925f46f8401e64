//! Decisions of the WebSocket RPC layer: method routing and the access rules
//! of each method.
use crate::text::str_is;
use crate::auth::context::AuthContext;
use crate::text::{push_str_chars, string_from_chars};
use vstd::prelude::*;

verus! {

/// The error classes of RPC responses.
#[derive(Clone, Copy, PartialEq, Eq, Structural, Debug)]
pub enum RpcErrorCode {
    MethodNotFound,
    InvalidParams,
    InternalError,
    AuthRequired,
    AuthInvalid,
    AccessDenied,
    NotFound,
    ServerError,
}

/// The request/response RPC methods.
#[derive(Clone, Copy, PartialEq, Eq, Structural, Debug)]
pub enum RpcMethod {
    AuthLogin,
    AuthValidate,
    Inspect,
    Destroy,
    UserCreate,
    UserList,
    UserDelete,
    UserPasswd,
    UserInfo,
    Unknown,
}

/// The method a name routes to.
pub open spec fn method_of(name: Seq<char>) -> RpcMethod {
    if name == "auth.login"@ {
        RpcMethod::AuthLogin
    } else if name == "auth.validate"@ {
        RpcMethod::AuthValidate
    } else if name == "inspect"@ {
        RpcMethod::Inspect
    } else if name == "destroy"@ {
        RpcMethod::Destroy
    } else if name == "user.create"@ {
        RpcMethod::UserCreate
    } else if name == "user.list"@ {
        RpcMethod::UserList
    } else if name == "user.delete"@ {
        RpcMethod::UserDelete
    } else if name == "user.passwd"@ {
        RpcMethod::UserPasswd
    } else if name == "user.info"@ {
        RpcMethod::UserInfo
    } else {
        RpcMethod::Unknown
    }
}

/// Routes a request/response RPC method name (`up` streams and is routed apart).
pub fn route_rpc_method(method: &str) -> (r: RpcMethod)
    ensures
        r == method_of(method@),
{
    if str_is(method, "auth.login") {
        RpcMethod::AuthLogin
    } else if str_is(method, "auth.validate") {
        RpcMethod::AuthValidate
    } else if str_is(method, "inspect") {
        RpcMethod::Inspect
    } else if str_is(method, "destroy") {
        RpcMethod::Destroy
    } else if str_is(method, "user.create") {
        RpcMethod::UserCreate
    } else if str_is(method, "user.list") {
        RpcMethod::UserList
    } else if str_is(method, "user.delete") {
        RpcMethod::UserDelete
    } else if str_is(method, "user.passwd") {
        RpcMethod::UserPasswd
    } else if str_is(method, "user.info") {
        RpcMethod::UserInfo
    } else {
        RpcMethod::Unknown
    }
}

/// Whether a streaming RPC method name is `up`, the only streaming method.
pub fn is_streaming_up(method: &str) -> (r: bool)
    ensures
        r == (method@ == "up"@),
{
    str_is(method, "up")
}

/// The message of an RPC error for an unknown method.
pub open spec fn method_not_found(method: Seq<char>, streaming: bool) -> Seq<char> {
    if streaming {
        "Streaming method '"@ + method + "' not found"@
    } else {
        "Method '"@ + method + "' not found"@
    }
}

/// Builds the message of an RPC error for an unknown method.
pub fn method_not_found_message(method: &str, streaming: bool) -> (r: String)
    ensures
        r@ == method_not_found(method@, streaming),
{
    let mut out: Vec<char> = Vec::new();
    if streaming {
        push_str_chars(&mut out, "Streaming method '");
    } else {
        push_str_chars(&mut out, "Method '");
    }
    push_str_chars(&mut out, method);
    push_str_chars(&mut out, "' not found");
    string_from_chars(&out)
}

/// Only admins may create and list users.
pub fn may_manage_users(ctx: &AuthContext) -> (r: bool)
    ensures
        r == ctx.is_admin,
{
    ctx.is_admin
}

/// Admins may change any password and see any user; users only their own.
pub fn may_act_on_user(ctx: &AuthContext, target_username: &str) -> (r: bool)
    ensures
        r == (ctx.is_admin || ctx.username@ == target_username@),
{
    ctx.is_admin || str_is(ctx.username.as_str(), target_username)
}

/// A user as seen by the deletion check.
pub struct UserRecord {
    pub username: String,
    pub is_admin: bool,
}

/// Why a user deletion is refused.
#[derive(Clone, Copy, PartialEq, Eq, Structural, Debug)]
pub enum UserDeleteDenial {
    /// The caller is not an admin.
    AdminOnly,
    /// The caller asked to delete themselves.
    SelfDelete,
    /// No such user.
    NotFound,
    /// The target is the last admin.
    LastAdmin,
}

/// Number of admins among `users`.
pub open spec fn admin_count(users: Seq<UserRecord>) -> nat
    decreases users.len(),
{
    if users.len() == 0 {
        0
    } else {
        admin_count(users.drop_last()) + if users.last().is_admin {
            1nat
        } else {
            0nat
        }
    }
}

/// Whether `users` has a user named `name`.
pub open spec fn has_user(users: Seq<UserRecord>, name: Seq<char>) -> bool {
    exists|i: int| 0 <= i < users.len() && (#[trigger] users[i]).username@ == name
}

/// Whether the first user named `name` in `users` is an admin.
pub open spec fn first_named_is_admin(users: Seq<UserRecord>, name: Seq<char>) -> bool {
    exists|i: int|
        0 <= i < users.len() && (#[trigger] users[i]).username@ == name && users[i].is_admin
            && forall|j: int| 0 <= j < i ==> (#[trigger] users[j]).username@ != name
}

/// The verdict on deleting `target` by `ctx`, given all users.
pub open spec fn user_delete_verdict(
    ctx_admin: bool,
    ctx_name: Seq<char>,
    target: Seq<char>,
    users: Seq<UserRecord>,
) -> Result<(), UserDeleteDenial> {
    if !ctx_admin {
        Err(UserDeleteDenial::AdminOnly)
    } else if target == ctx_name {
        Err(UserDeleteDenial::SelfDelete)
    } else if !has_user(users, target) {
        Err(UserDeleteDenial::NotFound)
    } else if first_named_is_admin(users, target) && admin_count(users) <= 1 {
        Err(UserDeleteDenial::LastAdmin)
    } else {
        Ok(())
    }
}

/// Decides a `user.delete` request: admins only, never oneself, only an
/// existing user, and never the last admin.
pub fn check_user_delete(ctx: &AuthContext, target_username: &str, users: &Vec<UserRecord>) -> (r:
    Result<(), UserDeleteDenial>)
    ensures
        r == user_delete_verdict(ctx.is_admin, ctx.username@, target_username@, users@),
{
    if !ctx.is_admin {
        return Err(UserDeleteDenial::AdminOnly);
    }
    if str_is(target_username, ctx.username.as_str()) {
        return Err(UserDeleteDenial::SelfDelete);
    }
    let mut admins: usize = 0;
    let mut found: Option<bool> = None;
    let mut i: usize = 0;
    while i < users.len()
        invariant
            i <= users@.len(),
            admins == admin_count(users@.take(i as int)),
            admins <= i,
            match found {
                None => forall|j: int| 0 <= j < i ==> (#[trigger] users@[j]).username@
                    != target_username@,
                Some(a) => has_user(users@, target_username@) && (a == first_named_is_admin(
                    users@,
                    target_username@,
                )),
            },
        decreases users@.len() - i,
    {
        assert(users@.take(i + 1).drop_last() == users@.take(i as int));
        if users[i].is_admin {
            admins = admins + 1;
        }
        if found.is_none() && str_is(users[i].username.as_str(), target_username) {
            found = Some(users[i].is_admin);
            proof {
                if !users@[i as int].is_admin && first_named_is_admin(users@, target_username@) {
                    let k = choose|k: int|
                        0 <= k < users@.len() && (#[trigger] users@[k]).username@
                            == target_username@ && users@[k].is_admin && forall|j: int|
                            0 <= j < k ==> (#[trigger] users@[j]).username@ != target_username@;
                    if k < i {
                    } else if k > i {
                    }
                }
            }
        }
        i = i + 1;
    }
    assert(users@.take(users@.len() as int) == users@);
    match found {
        None => Err(UserDeleteDenial::NotFound),
        Some(target_admin) => {
            if target_admin && admins <= 1 {
                Err(UserDeleteDenial::LastAdmin)
            } else {
                Ok(())
            }
        },
    }
}

/// Users without admin rights can never delete users.
pub proof fn law_only_admins_delete_users(
    ctx_name: Seq<char>,
    target: Seq<char>,
    users: Seq<UserRecord>,
)
    ensures
        user_delete_verdict(false, ctx_name, target, users) == Err::<(), UserDeleteDenial>(
            UserDeleteDenial::AdminOnly,
        ),
{
}

/// Nobody can delete themselves.
pub proof fn law_no_self_delete(ctx_admin: bool, name: Seq<char>, users: Seq<UserRecord>)
    ensures
        user_delete_verdict(ctx_admin, name, name, users) is Err,
{
}

/// An admin deletion is only allowed while another admin remains.
pub proof fn law_last_admin_is_kept(
    ctx_admin: bool,
    ctx_name: Seq<char>,
    target: Seq<char>,
    users: Seq<UserRecord>,
)
    requires
        user_delete_verdict(ctx_admin, ctx_name, target, users) is Ok,
        first_named_is_admin(users, target),
    ensures
        admin_count(users) >= 2,
{
}

} // verus!
