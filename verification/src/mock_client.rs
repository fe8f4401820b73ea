//! A call client that takes part in nothing.
use vstd::prelude::*;

verus! {

/// A stream of audio without sound.
pub struct AudioStream {}

} // verus!
