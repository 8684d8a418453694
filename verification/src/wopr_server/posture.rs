//! The built-in scenarios and the security posture reported at IPL.
use vstd::prelude::*;
use crate::text;
use crate::wopr_core::scenario::{self, Mode, Scenario, ServiceToggles, UserSpec, Weaknesses};
use crate::wopr_core::system::{self, System};

verus! {

/// A scenario user line as plain values.
pub open spec fn user_spec_view(u: UserSpec) -> (Seq<char>, Seq<char>, Seq<Seq<char>>) {
    (u.userid@, u.password@, u.attributes@.map_values(|a: String| a@))
}

/// IBMUSER/SYS1 with SPECIAL, and GUEST/GUEST with no attributes.
pub open spec fn base_users_spec() -> Seq<(Seq<char>, Seq<char>, Seq<Seq<char>>)> {
    seq![("IBMUSER"@, "SYS1"@, seq!["SPECIAL"@]), ("GUEST"@, "GUEST"@, seq![])]
}

pub fn base_users() -> (r: Vec<UserSpec>)
    ensures
        r@.map_values(|u: UserSpec| user_spec_view(u)) == base_users_spec(),
{
    let mut special: Vec<String> = Vec::new();
    special.push(String::from_str("SPECIAL"));
    let mut r: Vec<UserSpec> = Vec::new();
    r.push(UserSpec {
        userid: String::from_str("IBMUSER"),
        password: String::from_str("SYS1"),
        attributes: special,
    });
    r.push(UserSpec {
        userid: String::from_str("GUEST"),
        password: String::from_str("GUEST"),
        attributes: Vec::new(),
    });
    proof {
        assert(r@[0].attributes@.map_values(|a: String| a@) =~= seq!["SPECIAL"@]);
        assert(r@[1].attributes@.map_values(|a: String| a@) =~= Seq::<Seq<char>>::empty());
        assert(r@.map_values(|u: UserSpec| user_spec_view(u)) =~= base_users_spec());
    }
    r
}

/// The hardened scenario: no weakness switched on.
pub fn secure_scenario() -> (s: Scenario)
    ensures
        s.mode == Mode::Secure,
        s.hostname@ == "WOPR"@,
        s.users@.map_values(|u: UserSpec| user_spec_view(u)) == base_users_spec(),
        s.services == scenario::no_services(),
        s.weaknesses == scenario::no_weaknesses(),
{
    Scenario {
        mode: Mode::Secure,
        hostname: String::from_str("WOPR"),
        users: base_users(),
        services: ServiceToggles::default(),
        weaknesses: Weaknesses::default(),
    }
}

/// The training scenario: GUEST over-privileged and FTP in the clear.
pub fn training_scenario() -> (s: Scenario)
    ensures
        s.mode == Mode::Training,
        s.hostname@ == "WOPR"@,
        s.users@.map_values(|u: UserSpec| user_spec_view(u)) == base_users_spec(),
        s.services == scenario::no_services(),
        s.weaknesses == (Weaknesses { guest_over_privileged: true, cleartext_ftp: true, ..scenario::no_weaknesses() }),
{
    Scenario {
        mode: Mode::Training,
        hostname: String::from_str("WOPR"),
        users: base_users(),
        services: ServiceToggles::default(),
        weaknesses: Weaknesses {
            default_creds_present: false,
            guest_over_privileged: true,
            cleartext_ftp: true,
            setropts_password_rules_off: false,
            world_readable_racf_db: false,
        },
    }
}

/// The weaknesses that are active in a system, as the IPL log names them; none
/// means the posture is hardened.
pub open spec fn active_spec(sys: System) -> Seq<Seq<char>> {
    let g: Seq<Seq<char>> = if scenario::guest_over_privileged_spec(system::racf_view(sys.racf)) {
        seq!["GUEST over-privileged (OPERATIONS)"@]
    } else {
        seq![]
    };
    if sys.services.ftp {
        g.push("cleartext FTP enabled"@)
    } else {
        g
    }
}

pub fn active_weaknesses(sys: &System) -> (r: Vec<String>)
    ensures
        r@.map_values(|s: String| s@) == active_spec(*sys),
{
    let mut r: Vec<String> = Vec::new();
    if scenario::guest_is_over_privileged(sys) {
        r.push(String::from_str("GUEST over-privileged (OPERATIONS)"));
    }
    if sys.services.ftp {
        r.push(String::from_str("cleartext FTP enabled"));
    }
    assert(r@.map_values(|s: String| s@) =~= active_spec(*sys));
    r
}

} // verus!
