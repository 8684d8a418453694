//! Scenarios: the same system, hardened (secure) or deliberately weak (training).
//! Weaknesses are configuration data of the simulated system, and they apply only in
//! training mode.
use vstd::prelude::*;
use crate::text;
use crate::wopr_core::racf::{User, UserView};
use crate::wopr_core::system::{self, System};

verus! {

#[derive(Clone, Copy, PartialEq, Eq, Structural, Debug)]
pub enum Mode {
    Secure,
    Training,
}

pub struct UserSpec {
    pub userid: String,
    pub password: String,
    /// For instance `["SPECIAL"]`.
    pub attributes: Vec<String>,
}

#[derive(Clone, Copy, PartialEq, Eq, Structural, Debug)]
pub struct ServiceToggles {
    pub ftp: bool,
    pub nje: bool,
    pub db2: bool,
    pub web: bool,
}

pub open spec fn no_services() -> ServiceToggles {
    ServiceToggles { ftp: false, nje: false, db2: false, web: false }
}

impl Default for ServiceToggles {
    fn default() -> (r: Self)
        ensures
            r == no_services(),
    {
        ServiceToggles { ftp: false, nje: false, db2: false, web: false }
    }
}

#[derive(Clone, Copy, PartialEq, Eq, Structural, Debug)]
pub struct Weaknesses {
    /// Keep IBMUSER/SYS1 enabled.
    pub default_creds_present: bool,
    /// Grant GUEST rights it should not have.
    pub guest_over_privileged: bool,
    pub cleartext_ftp: bool,
    pub setropts_password_rules_off: bool,
    /// Lets a low-privilege user read the security database.
    pub world_readable_racf_db: bool,
}

pub open spec fn no_weaknesses() -> Weaknesses {
    Weaknesses {
        default_creds_present: false,
        guest_over_privileged: false,
        cleartext_ftp: false,
        setropts_password_rules_off: false,
        world_readable_racf_db: false,
    }
}

impl Default for Weaknesses {
    fn default() -> (r: Self)
        ensures
            r == no_weaknesses(),
    {
        Weaknesses {
            default_creds_present: false,
            guest_over_privileged: false,
            cleartext_ftp: false,
            setropts_password_rules_off: false,
            world_readable_racf_db: false,
        }
    }
}

pub struct Scenario {
    pub mode: Mode,
    pub hostname: String,
    pub users: Vec<UserSpec>,
    pub services: ServiceToggles,
    /// Applied only when `mode` is `Training`.
    pub weaknesses: Weaknesses,
}

/// The users after the weaknesses are applied: an over-privileged GUEST gets
/// OPERATIONS.
pub open spec fn weakened_users(
    m: Map<Seq<char>, UserView>,
    w: Weaknesses,
) -> Map<Seq<char>, UserView> {
    if w.guest_over_privileged && m.contains_key("GUEST"@) {
        let g = m["GUEST"@];
        m.insert("GUEST"@, UserView { attrs: crate::wopr_core::racf::Attrs { operations: true, ..g.attrs }, ..g })
    } else {
        m
    }
}

/// The users of the system a scenario builds: weaknesses count only in training.
pub open spec fn scenario_users(mode: Mode, us: Seq<UserSpec>, w: Weaknesses) -> Map<Seq<char>, UserView> {
    let base = system::users_from_specs(us);
    if mode == Mode::Training {
        weakened_users(base, w)
    } else {
        base
    }
}

/// The services of the system a scenario builds: those it lists, with FTP in
/// the clear as well when a training scenario has that weakness.
pub open spec fn scenario_services(mode: Mode, sv: ServiceToggles, w: Weaknesses) -> ServiceToggles {
    if mode == Mode::Training && w.cleartext_ftp {
        ServiceToggles { ftp: true, ..sv }
    } else {
        sv
    }
}

pub fn build_system(s: Scenario) -> (sys: System)
    ensures
        system::racf_view(sys.racf) == scenario_users(s.mode, s.users@, s.weaknesses),
        crate::wopr_core::dataset::is_seeded_catalog(sys.catalog),
        sys.spool.queue() == Seq::<crate::wopr_core::jes::SpoolEntry>::empty(),
        sys.spool.last_id() == 0,
        sys.audit.events() == Seq::<crate::wopr_core::audit::SmfEvent>::empty(),
        sys.services == scenario_services(s.mode, s.services, s.weaknesses),
{
    let mut sys = System::from_users(s.users.as_slice());
    sys.services = s.services;
    if s.mode == Mode::Training {
        apply_weaknesses(&mut sys, &s.weaknesses);
    }
    sys
}

/// Switch on the weaknesses: GUEST gets OPERATIONS (broad data access it should
/// not have) and FTP runs in the clear.  The other flags are studyable conditions
/// that change nothing here.
pub fn apply_weaknesses(sys: &mut System, w: &Weaknesses)
    ensures
        system::racf_view(final(sys).racf) == weakened_users(system::racf_view(old(sys).racf), *w),
        final(sys).catalog == old(sys).catalog,
        final(sys).spool == old(sys).spool,
        final(sys).audit == old(sys).audit,
        final(sys).services == (if w.cleartext_ftp {
            ServiceToggles { ftp: true, ..old(sys).services }
        } else {
            old(sys).services
        }),
{
    if w.guest_over_privileged {
        let key = text::chars_of("GUEST");
        let found: Option<User> = match sys.racf.users.get(&key) {
            Some(g) => Some(g.clone()),
            None => None,
        };
        match found {
            Some(mut g) => {
                let ghost gv = g@;
                g.attrs.operations = true;
                let ghost old_view = system::racf_view(sys.racf);
                sys.racf.users.insert(String::from_str("GUEST"), g);
                proof {
                    assert(system::racf_view(sys.racf) =~= old_view.insert("GUEST"@, g@));
                }
            },
            None => {},
        }
    }
    if w.cleartext_ftp {
        sys.services.ftp = true;
    }
}

/// Whether GUEST holds OPERATIONS.
pub open spec fn guest_over_privileged_spec(m: Map<Seq<char>, UserView>) -> bool {
    m.contains_key("GUEST"@) && m["GUEST"@].attrs.operations
}

pub fn guest_is_over_privileged(sys: &System) -> (r: bool)
    ensures
        r == guest_over_privileged_spec(system::racf_view(sys.racf)),
{
    match sys.racf.users.get_str("GUEST") {
        Some(u) => u.attrs.operations,
        None => false,
    }
}

/// The lesson of the scenarios: in secure mode the weaknesses a scenario lists
/// change nothing; the users are exactly those its user lines give.
pub proof fn lemma_secure_ignores_weaknesses(us: Seq<UserSpec>, w1: Weaknesses, w2: Weaknesses)
    ensures
        scenario_users(Mode::Secure, us, w1) == scenario_users(Mode::Secure, us, w2),
        scenario_users(Mode::Secure, us, w1) == system::users_from_specs(us),
{
}

/// In secure mode the services are exactly those the scenario lists; in
/// training mode a cleartext-FTP weakness switches FTP on.
pub proof fn lemma_weakness_services(sv: ServiceToggles, w: Weaknesses)
    ensures
        scenario_services(Mode::Secure, sv, w) == sv,
        w.cleartext_ftp ==> scenario_services(Mode::Training, sv, w).ftp,
        scenario_services(Mode::Training, sv, w).nje == sv.nje,
        scenario_services(Mode::Training, sv, w).db2 == sv.db2,
        scenario_services(Mode::Training, sv, w).web == sv.web,
{
}

/// In training mode an over-privileged-GUEST weakness takes effect whenever the
/// scenario has a GUEST.
pub proof fn lemma_training_applies_guest_weakness(us: Seq<UserSpec>, w: Weaknesses)
    requires
        w.guest_over_privileged,
        system::users_from_specs(us).contains_key("GUEST"@),
    ensures
        guest_over_privileged_spec(scenario_users(Mode::Training, us, w)),
{
}

} // verus!
