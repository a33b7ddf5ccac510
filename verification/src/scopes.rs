//! The scopes a user's tokens carry: the stored scopes, plus `admin` for the
//! e-mail addresses of the admin bootstrap list.
use vstd::prelude::*;
use crate::text::{contains_str, owned, vec_contains_str};

verus! {

/// `admin`.
pub open spec fn admin_scope() -> Seq<char> {
    seq!['a', 'd', 'm', 'i', 'n']
}

/// `read:accounts:own`, the scope every new user gets.
pub open spec fn read_own_accounts_scope() -> Seq<char> {
    seq!['r', 'e', 'a', 'd', ':', 'a', 'c', 'c', 'o', 'u', 'n', 't', 's', ':', 'o', 'w', 'n']
}

/// The effective scopes, as views: the stored ones, then `admin` when the
/// e-mail is on the bootstrap list and the stored ones lack it.
pub open spec fn effective_scopes_spec(
    email: Seq<char>,
    db_scopes: Seq<Seq<char>>,
    admin_emails: Seq<Seq<char>>,
) -> Seq<Seq<char>> {
    if admin_emails.contains(email) && !db_scopes.contains(admin_scope()) {
        db_scopes.push(admin_scope())
    } else {
        db_scopes
    }
}

proof fn lemma_contains_str_views(v: Seq<String>, s: Seq<char>)
    ensures
        contains_str(v, s) == v.map_values(|x: String| x@).contains(s),
{
    let m = v.map_values(|x: String| x@);
    if contains_str(v, s) {
        let i = choose|i: int| 0 <= i < v.len() && (#[trigger] v[i])@ == s;
        assert(m[i] == s);
    }
    if m.contains(s) {
        let i = choose|i: int| 0 <= i < m.len() && m[i] == s;
        assert(v[i]@ == s);
    }
}

/// Adds the `admin` scope when `email` is in the admin bootstrap list.
pub fn effective_scopes(email: &str, db_scopes: Vec<String>, admin_emails: &[String]) -> (res: Vec<
    String,
>)
    ensures
        res@.map_values(|x: String| x@) == effective_scopes_spec(
            email@,
            db_scopes@.map_values(|x: String| x@),
            admin_emails@.map_values(|x: String| x@),
        ),
{
    let mut db_scopes = db_scopes;
    let ghost before = db_scopes@;
    proof {
        reveal_strlit("admin");
        assert("admin"@ =~= admin_scope());
        lemma_contains_str_views(admin_emails@, email@);
        lemma_contains_str_views(before, admin_scope());
    }
    let is_admin_email = vec_contains_str(admin_emails, email);
    if is_admin_email && !vec_contains_str(db_scopes.as_slice(), "admin") {
        db_scopes.push(owned("admin"));
        assert(db_scopes@.map_values(|x: String| x@) =~= before.map_values(|x: String| x@).push(
            admin_scope(),
        ));
    }
    db_scopes
}

/// A user ends up with `admin` exactly when the stored scopes hold it or the
/// e-mail is on the bootstrap list; nothing stored is lost, and at most
/// `admin` is added.
pub proof fn law_effective_scopes_admin(
    email: Seq<char>,
    db_scopes: Seq<Seq<char>>,
    admin_emails: Seq<Seq<char>>,
)
    ensures
        effective_scopes_spec(email, db_scopes, admin_emails).contains(admin_scope()) <==> (
        db_scopes.contains(admin_scope()) || admin_emails.contains(email)),
        effective_scopes_spec(email, db_scopes, admin_emails).take(db_scopes.len() as int)
            == db_scopes,
        effective_scopes_spec(email, db_scopes, admin_emails).len() <= db_scopes.len() + 1,
        forall|s: Seq<char>|
            #[trigger] effective_scopes_spec(email, db_scopes, admin_emails).contains(s) ==> (
            db_scopes.contains(s) || s == admin_scope()),
{
    let r = effective_scopes_spec(email, db_scopes, admin_emails);
    if admin_emails.contains(email) && !db_scopes.contains(admin_scope()) {
        assert(r[db_scopes.len() as int] == admin_scope());
        assert(r.take(db_scopes.len() as int) =~= db_scopes);
        assert forall|s: Seq<char>| #[trigger] r.contains(s) implies (db_scopes.contains(s) || s
            == admin_scope()) by {
            let i = choose|i: int| 0 <= i < r.len() && r[i] == s;
            if i < db_scopes.len() {
                assert(db_scopes[i] == s);
            }
        }
        if r.contains(admin_scope()) {
        }
    } else {
        assert(r.take(db_scopes.len() as int) =~= db_scopes);
    }
}

/// Computing the effective scopes twice adds nothing the first time did not.
pub proof fn law_effective_scopes_idempotent(
    email: Seq<char>,
    db_scopes: Seq<Seq<char>>,
    admin_emails: Seq<Seq<char>>,
)
    ensures
        effective_scopes_spec(
            email,
            effective_scopes_spec(email, db_scopes, admin_emails),
            admin_emails,
        ) == effective_scopes_spec(email, db_scopes, admin_emails),
{
    let r = effective_scopes_spec(email, db_scopes, admin_emails);
    if admin_emails.contains(email) && !db_scopes.contains(admin_scope()) {
        assert(r[db_scopes.len() as int] == admin_scope());
        assert(r.contains(admin_scope()));
    }
}

} // verus!
