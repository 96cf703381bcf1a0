//! Role tiers and per-resource permission checks.

use vstd::prelude::*;
use vstd::string::*;

use crate::auth::roles::Role;
use crate::text::str_eq;

verus! {

/// What a holder of a permission may do on one resource.
#[derive(Debug, Clone, PartialEq, Eq)]
pub struct PermissionResource {
    pub resource: String,
    pub can_create: bool,
    pub can_read: bool,
    pub can_update: bool,
    pub can_delete: bool,
}

/// Roles that administer the site.
pub open spec fn spec_is_admin(r: Role) -> bool {
    r == Role::Admin || r == Role::SuperAdmin
}

/// Roles that may act as an artist: administrators and artists.
pub open spec fn spec_is_artist_or_above(r: Role) -> bool {
    spec_is_admin(r) || r == Role::Artist
}

/// Roles that may act as a customer: every role but staff.
pub open spec fn spec_is_customer_or_above(r: Role) -> bool {
    spec_is_artist_or_above(r) || r == Role::Customer || r == Role::User
}

/// Whether a role administers the site.
pub fn is_admin(role: &Role) -> (r: bool)
    ensures
        r == spec_is_admin(*role),
{
    match role {
        Role::Admin | Role::SuperAdmin => true,
        _ => false,
    }
}

/// Whether a role is an artist or an administrator.
pub fn is_artist_or_above(role: &Role) -> (r: bool)
    ensures
        r == spec_is_artist_or_above(*role),
{
    match role {
        Role::Admin | Role::SuperAdmin | Role::Artist => true,
        _ => false,
    }
}

/// Whether a role is a customer, a user, an artist or an administrator.
pub fn is_customer_or_above(role: &Role) -> (r: bool)
    ensures
        r == spec_is_customer_or_above(*role),
{
    match role {
        Role::Admin | Role::SuperAdmin | Role::Artist | Role::Customer | Role::User => true,
        _ => false,
    }
}

/// Whether the permission `p` allows the action named `action`; only
/// `create`, `read`, `update` and `delete` are actions.
pub open spec fn action_allowed(p: PermissionResource, action: Seq<char>) -> bool {
    if action == "create"@ {
        p.can_create
    } else if action == "read"@ {
        p.can_read
    } else if action == "update"@ {
        p.can_update
    } else if action == "delete"@ {
        p.can_delete
    } else {
        false
    }
}

/// Whether one permission grants `action` on `resource`.
pub open spec fn grants(p: PermissionResource, resource: Seq<char>, action: Seq<char>) -> bool {
    p.resource@ == resource && action_allowed(p, action)
}

/// Whether some permission in the list grants `action` on `resource`.
pub open spec fn spec_has_permission(
    resource: Seq<char>,
    action: Seq<char>,
    perms: Seq<PermissionResource>,
) -> bool {
    exists|i: int| 0 <= i < perms.len() && #[trigger] grants(perms[i], resource, action)
}

fn allows(p: &PermissionResource, action: &str) -> (r: bool)
    ensures
        r == action_allowed(*p, action@),
{
    if str_eq(action, "create") {
        p.can_create
    } else if str_eq(action, "read") {
        p.can_read
    } else if str_eq(action, "update") {
        p.can_update
    } else if str_eq(action, "delete") {
        p.can_delete
    } else {
        false
    }
}

/// Whether some permission in `permissions` grants `action` on `resource`.
pub fn has_permission(resource: &str, action: &str, permissions: &[PermissionResource]) -> (r:
    bool)
    ensures
        r == spec_has_permission(resource@, action@, permissions@),
{
    let n = permissions.len();
    let mut i: usize = 0;
    while i < n
        invariant
            n == permissions@.len(),
            0 <= i <= n,
            forall|j: int| 0 <= j < i ==> !#[trigger] grants(permissions@[j], resource@, action@),
        decreases n - i,
    {
        let p = &permissions[i];
        let same = str_eq(p.resource.as_str(), resource);
        if same && allows(p, action) {
            assert(grants(permissions@[i as int], resource@, action@));
            return true;
        }
        i = i + 1;
    }
    false
}

/// The role tiers are nested: an administrator is an artist-or-above, and an
/// artist-or-above is a customer-or-above; staff is in none of them.
pub proof fn lemma_role_tiers_nested(r: Role)
    ensures
        spec_is_admin(r) ==> spec_is_artist_or_above(r),
        spec_is_artist_or_above(r) ==> spec_is_customer_or_above(r),
        r == Role::Staff ==> !spec_is_customer_or_above(r),
        spec_is_customer_or_above(r) <==> r != Role::Staff,
{
}

/// An empty permission list grants nothing.
pub proof fn lemma_no_permissions_grant_nothing(resource: Seq<char>, action: Seq<char>)
    ensures
        !spec_has_permission(resource, action, Seq::<PermissionResource>::empty()),
{
}

/// Only the four actions can ever be granted: any other action name is
/// refused whatever the list holds.
pub proof fn lemma_unknown_action_refused(
    resource: Seq<char>,
    action: Seq<char>,
    perms: Seq<PermissionResource>,
)
    requires
        action != "create"@,
        action != "read"@,
        action != "update"@,
        action != "delete"@,
    ensures
        !spec_has_permission(resource, action, perms),
{
}

/// Joining two permission lists grants exactly what either list grants.
pub proof fn lemma_has_permission_concat(
    resource: Seq<char>,
    action: Seq<char>,
    a: Seq<PermissionResource>,
    b: Seq<PermissionResource>,
)
    ensures
        spec_has_permission(resource, action, a + b) == (spec_has_permission(resource, action, a)
            || spec_has_permission(resource, action, b)),
{
    let ab = a + b;
    if spec_has_permission(resource, action, ab) {
        let i = choose|i: int| 0 <= i < ab.len() && #[trigger] grants(ab[i], resource, action);
        if i < a.len() {
            assert(grants(a[i], resource, action));
        } else {
            assert(grants(b[i - a.len()], resource, action));
        }
    }
    if spec_has_permission(resource, action, a) {
        let i = choose|i: int| 0 <= i < a.len() && #[trigger] grants(a[i], resource, action);
        assert(ab[i] == a[i]);
        assert(grants(ab[i], resource, action));
    }
    if spec_has_permission(resource, action, b) {
        let i = choose|i: int| 0 <= i < b.len() && #[trigger] grants(b[i], resource, action);
        assert(ab[a.len() + i] == b[i]);
        assert(grants(ab[a.len() + i], resource, action));
    }
}

/// A permission list grants nothing on a resource that none of its entries
/// names.
pub proof fn lemma_other_resource_refused(
    resource: Seq<char>,
    action: Seq<char>,
    perms: Seq<PermissionResource>,
)
    requires
        forall|i: int| 0 <= i < perms.len() ==> (#[trigger] perms[i]).resource@ != resource,
    ensures
        !spec_has_permission(resource, action, perms),
{
    assert forall|i: int| 0 <= i < perms.len() implies !#[trigger] grants(perms[i], resource, action) by {
        assert(perms[i].resource@ != resource);
    }
}

/// The role tiers by role: administrators are `admin` and `super_admin`;
/// artists-or-above add `artist`; customers-or-above add `customer` and
/// `user`; `staff` is in no tier.
pub proof fn lemma_role_tiers_by_role(r: Role)
    ensures
        spec_is_admin(r) <==> (r == Role::Admin || r == Role::SuperAdmin),
        spec_is_artist_or_above(r) <==> (r == Role::Admin || r == Role::SuperAdmin || r
            == Role::Artist),
        spec_is_customer_or_above(r) <==> (r == Role::Admin || r == Role::SuperAdmin || r
            == Role::Artist || r == Role::Customer || r == Role::User),
{
}

/// Each action is granted by its own flag: a list allows `create`, `read`,
/// `update` or `delete` on a resource exactly when some entry for that
/// resource has `can_create`, `can_read`, `can_update` or `can_delete` set.
pub proof fn lemma_action_flags(resource: Seq<char>, perms: Seq<PermissionResource>)
    ensures
        spec_has_permission(resource, "create"@, perms) <==> exists|i: int|
            0 <= i < perms.len() && (#[trigger] perms[i]).resource@ == resource && perms[i].can_create,
        spec_has_permission(resource, "read"@, perms) <==> exists|i: int|
            0 <= i < perms.len() && (#[trigger] perms[i]).resource@ == resource && perms[i].can_read,
        spec_has_permission(resource, "update"@, perms) <==> exists|i: int|
            0 <= i < perms.len() && (#[trigger] perms[i]).resource@ == resource && perms[i].can_update,
        spec_has_permission(resource, "delete"@, perms) <==> exists|i: int|
            0 <= i < perms.len() && (#[trigger] perms[i]).resource@ == resource && perms[i].can_delete,
{
    reveal_strlit("create");
    reveal_strlit("read");
    reveal_strlit("update");
    reveal_strlit("delete");
    assert("create"@.len() == 6 && "read"@.len() == 4 && "update"@.len() == 6 && "delete"@.len()
        == 6);
    assert("create"@[0] == 'c' && "update"@[0] == 'u' && "delete"@[0] == 'd');
    assert forall|p: PermissionResource| action_allowed(p, "create"@) == p.can_create by {}
    assert forall|p: PermissionResource| action_allowed(p, "read"@) == p.can_read by {}
    assert forall|p: PermissionResource| action_allowed(p, "update"@) == p.can_update by {}
    assert forall|p: PermissionResource| action_allowed(p, "delete"@) == p.can_delete by {}
    lemma_granted_by_flag(resource, perms, "create"@, |p: PermissionResource| p.can_create);
    lemma_granted_by_flag(resource, perms, "read"@, |p: PermissionResource| p.can_read);
    lemma_granted_by_flag(resource, perms, "update"@, |p: PermissionResource| p.can_update);
    lemma_granted_by_flag(resource, perms, "delete"@, |p: PermissionResource| p.can_delete);
}

proof fn lemma_granted_by_flag(
    resource: Seq<char>,
    perms: Seq<PermissionResource>,
    action: Seq<char>,
    flag: spec_fn(PermissionResource) -> bool,
)
    requires
        forall|p: PermissionResource| action_allowed(p, action) == #[trigger] flag(p),
    ensures
        spec_has_permission(resource, action, perms) <==> exists|i: int|
            0 <= i < perms.len() && (#[trigger] perms[i]).resource@ == resource && flag(perms[i]),
{
    if spec_has_permission(resource, action, perms) {
        let i = choose|i: int| 0 <= i < perms.len() && #[trigger] grants(perms[i], resource, action);
        assert(flag(perms[i]));
    }
    if exists|i: int| 0 <= i < perms.len() && (#[trigger] perms[i]).resource@ == resource && flag(
        perms[i],
    ) {
        let i = choose|i: int|
            0 <= i < perms.len() && (#[trigger] perms[i]).resource@ == resource && flag(perms[i]);
        assert(grants(perms[i], resource, action));
    }
}

} // verus!
