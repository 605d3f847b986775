use vstd::prelude::*;

verus! {

/// The application identifier; it names the settings schema and the
/// secret store entries of the application.
pub const APP_ID: &'static str = "dev.sp1rit.efg.Desktop";

} // verus!
