//! The simulated operating system: sessions, RACF, TSO, datasets, JES, SMF,
//! CICS, Db2, OMVS and the scenario model.  No I/O happens here.

pub mod audit;
pub mod cics;
pub mod console;
pub mod dataset;
pub mod db2;
pub mod drda;
pub mod jes;
pub mod logon;
pub mod omvs;
pub mod racf;
pub mod scenario;
pub mod selector;
pub mod session;
pub mod system;
pub mod tso;
