use vstd::prelude::*;

verus! {

/// A keypad as the interpreter sees it.
pub trait Input {
    /// Whether an exit request has been observed.
    fn esc_pressed(&self) -> bool;

    /// Whether the key with code `key` (0 to 15) is considered pressed now.
    fn is_key_pressed(&self, key: u8) -> bool;

    /// The most recently pressed key, handed out at most once per press.
    fn get_last_press(&self) -> Option<u8>;
}

} // verus!
