use vstd::prelude::*;

verus! {

/// The mode of the modal keymap.
#[derive(Debug, Clone, Copy, PartialEq, Eq, Structural)]
pub enum EditorMode {
    /// Keys are commands.
    Normal,
    /// Keys are typed into the query.
    Insert,
    /// An operator, `d` or `c`, waits for its motion.
    Operator(char),
}

} // verus!
