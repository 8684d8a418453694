//! The IPL console's outstanding-reply state.
//!
//! `R 01,CLPA` sets `clpa`; `R 05,MYLPAR` sets the hostname; `R 03,Y` confirms;
//! `D IPLINFO`, `D SERVICES` and `D R,L` display the outstanding replies.
use vstd::prelude::*;

verus! {

pub struct IplState {
    pub clpa: bool,
    pub hostname: String,
    pub confirmed: bool,
    pub mfa_pin: Option<String>,
}

} // verus!
