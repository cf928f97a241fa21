use vstd::prelude::*;

verus! {

/// Relies on `chrono::Local::now()`: the current local time rendered in
/// chrono's default date-time text form. The value depends on the clock, so
/// nothing is assumed of it.
#[verifier::external_body]
pub(crate) fn local_now_string() -> String {
    chrono::Local::now().to_string()
}

} // verus!
