use vstd::prelude::*;

verus! {

/// Where battery-backed cartridge RAM is kept between runs: the embedder
/// writes and reads it (a file, browser storage).
pub trait Saver: Sync + Send {
    /// Stores `data` at offset `at` of the save named `title`.
    fn save(&self, title: String, data: Vec<u8>, at: u64);

    /// The save named `title`, if there is one.
    fn load(&self, title: String) -> Option<Vec<u8>>;
}

} // verus!
