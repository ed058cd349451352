use vstd::prelude::*;

verus! {

/// A stage: its name, the layers it has and the rooms it has.
#[derive(Default, Copy, Clone)]
pub struct StageInfo {
    pub name: &'static str,
    pub layers: &'static [u8],
    pub rooms: &'static [u8],
}

/// A named group of stages.
pub struct StageCategory {
    pub name: &'static str,
    pub stages: &'static [StageInfo],
}

} // verus!
