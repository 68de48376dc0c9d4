//! What holds of every run of a migration, however the servers, the
//! resolver and the operator answer.

pub mod order;
pub mod paging;
pub mod progress;
pub mod provisioning;
pub mod runs;
pub mod signing;
pub mod visits;
pub mod verbatim;
