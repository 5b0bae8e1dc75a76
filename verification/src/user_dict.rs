//! The user-dictionary word record of the synthesis surface.

use vstd::prelude::*;

verus! {

/// One word of the user dictionary, as the surface exchanges it.
#[derive(Debug, Clone)]
pub struct VvUserDictWord {
    pub priority: u32,
    pub accent_type: usize,
    pub mora_count: usize,
    pub surface: String,
    pub pronunciation: String,
    pub part_of_speech_detail_1: String,
}

} // verus!
