// A terminal directory browser's core: filtering a directory's children into
// a listing, and the navigation state machine that keyboard commands drive.
pub mod filter;
pub mod lemmas;
pub mod nav;
