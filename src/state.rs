//! What is kept across restarts.
use vstd::prelude::*;

verus! {

/// The playlist and track that were playing.
#[derive(Clone, Debug)]
pub struct CurrentStatus {
    pub playlist_id: Option<String>,
    pub track_path: Option<String>,
    pub track_index: usize,
}

} // verus!
