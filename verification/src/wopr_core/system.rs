//! The whole simulated system: security, catalog, spool, audit and services.
use vstd::prelude::*;
use crate::text;
use crate::wopr_core::audit::Audit;
use crate::wopr_core::dataset::{self, Catalog};
use crate::wopr_core::jes::Spool;
use crate::wopr_core::racf::{self, Attrs, Racf, User, UserView};
use crate::wopr_core::scenario::{self, ServiceToggles, UserSpec};

verus! {

pub struct System {
    pub racf: Racf,
    pub catalog: Catalog,
    pub spool: Spool,
    pub audit: Audit,
    pub services: ServiceToggles,
}

/// Whether an attribute list names `name` (any case).
pub open spec fn has_attr(attrs: Seq<Seq<char>>, name: Seq<char>) -> bool {
    exists|i: int| 0 <= i < attrs.len() && text::eq_ignore_case(#[trigger] attrs[i], name)
}

/// The RACF record that a scenario's user line gives: the userid upper-cased,
/// group PUBLIC, attributes from the list.
pub open spec fn user_from_spec(u: UserSpec) -> UserView {
    let attrs = u.attributes@.map_values(|a: String| a@);
    UserView {
        userid: text::upper(u.userid@),
        password: u.password@,
        default_group: "PUBLIC"@,
        groups: seq!["PUBLIC"@],
        attrs: Attrs {
            special: has_attr(attrs, "SPECIAL"@),
            operations: has_attr(attrs, "OPERATIONS"@),
            auditor: has_attr(attrs, "AUDITOR"@),
        },
        revoked: false,
    }
}

/// The RACF users that a scenario's user lines give; a later line for the same
/// (upper-cased) userid replaces an earlier one.
pub open spec fn users_from_specs(us: Seq<UserSpec>) -> Map<Seq<char>, UserView>
    decreases us.len(),
{
    if us.len() == 0 {
        Map::empty()
    } else {
        users_from_specs(us.drop_last()).insert(text::upper(us.last().userid@), user_from_spec(us.last()))
    }
}

/// The users of a RACF database, each record by value.
pub open spec fn racf_view(r: Racf) -> Map<Seq<char>, UserView> {
    r.users@.map_values(|u: User| u@)
}

fn attr_listed(attrs: &Vec<String>, name: &str) -> (r: bool)
    ensures
        r == has_attr(attrs@.map_values(|a: String| a@), name@),
{
    let ghost av = attrs@.map_values(|a: String| a@);
    let nv = text::chars_of(name);
    let mut i: usize = 0;
    while i < attrs.len()
        invariant
            i <= attrs@.len(),
            av == attrs@.map_values(|a: String| a@),
            nv@ == name@,
            forall|j: int| 0 <= j < i ==> !text::eq_ignore_case(#[trigger] av[j], name@),
        decreases attrs.len() - i,
    {
        let a = text::chars_of(attrs[i].as_str());
        if text::eq_ignore_case_vec(&a, &nv) {
            assert(av[i as int] == a@);
            return true;
        }
        i += 1;
    }
    false
}

fn user_from(u: &UserSpec) -> (r: User)
    ensures
        r@ == user_from_spec(*u),
{
    let idv = text::chars_of(u.userid.as_str());
    let id = text::upper_vec(&idv);
    let mut groups: Vec<String> = Vec::new();
    groups.push(String::from_str("PUBLIC"));
    let r = User {
        userid: text::string_of(&id),
        password: u.password.clone(),
        default_group: String::from_str("PUBLIC"),
        groups,
        attrs: Attrs {
            special: attr_listed(&u.attributes, "SPECIAL"),
            operations: attr_listed(&u.attributes, "OPERATIONS"),
            auditor: attr_listed(&u.attributes, "AUDITOR"),
        },
        revoked: false,
    };
    assert(r@.groups =~= seq!["PUBLIC"@]);
    r
}

impl System {
    /// A system whose RACF holds exactly the given users, with the seeded catalog,
    /// an empty spool and audit log, and every service off.
    pub fn from_users(users: &[UserSpec]) -> (s: System)
        ensures
            racf_view(s.racf) == users_from_specs(users@),
            dataset::is_seeded_catalog(s.catalog),
            s.spool.queue() == Seq::<crate::wopr_core::jes::SpoolEntry>::empty(),
            s.spool.last_id() == 0,
            s.audit.events() == Seq::<crate::wopr_core::audit::SmfEvent>::empty(),
            s.audit.capacity() == 1024,
            s.services == scenario::no_services(),
    {
        let mut racf = Racf::new();
        let mut i: usize = 0;
        while i < users.len()
            invariant
                i <= users@.len(),
                racf_view(racf) == users_from_specs(users@.take(i as int)),
            decreases users.len() - i,
        {
            let u = user_from(&users[i]);
            let id = u.userid.clone();
            racf.users.insert(id, u);
            proof {
                assert(users@.take(i + 1).drop_last() =~= users@.take(i as int));
                assert(racf_view(racf) =~= users_from_specs(users@.take(i + 1)));
            }
            i += 1;
        }
        assert(users@.take(users@.len() as int) =~= users@);
        System {
            racf,
            catalog: Catalog::seeded(),
            spool: Spool::new(),
            audit: Audit::new(1024),
            services: ServiceToggles::default(),
        }
    }
}

impl Default for System {
    /// The seeded system: IBMUSER and GUEST, the seeded catalog, nothing spooled.
    fn default() -> (s: Self)
        ensures
            s.racf.users@.dom() == set!["IBMUSER"@, "GUEST"@],
            s.racf.users@["IBMUSER"@]@ == racf::seeded_user(
                "IBMUSER"@,
                "SYS1"@,
                "SYS1"@,
                Attrs { special: true, operations: false, auditor: false },
            ),
            s.racf.users@["GUEST"@]@ == racf::seeded_user(
                "GUEST"@,
                "GUEST"@,
                "PUBLIC"@,
                Attrs { special: false, operations: false, auditor: false },
            ),
            dataset::is_seeded_catalog(s.catalog),
            s.spool.queue() == Seq::<crate::wopr_core::jes::SpoolEntry>::empty(),
            s.spool.last_id() == 0,
            s.audit.events() == Seq::<crate::wopr_core::audit::SmfEvent>::empty(),
            s.audit.capacity() == 1024,
            s.services == scenario::no_services(),
    {
        System {
            racf: Racf::seed_defaults(),
            catalog: Catalog::seeded(),
            spool: Spool::new(),
            audit: Audit::new(1024),
            services: ServiceToggles::default(),
        }
    }
}

} // verus!
