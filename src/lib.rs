pub mod counters;
pub mod item;
pub mod lemmas;
pub mod stage_info;
