//! The pages served at fixed paths.
use vstd::prelude::*;

verus! {

/// The page served at the root path.
pub const INDEX_PAGE: &'static str = "<title>DISTRICT Server</title><style>html{height:100dvh;display:grid;place-items:center;}body{border:2px solid gray;padding:2rem;text-align:center;}
    </style><body><h1>DISTRICT Server</h1><p>You have found a DISTRICT server!</p><p>Don't worry, there is nothing to see here!</p></body>";

/// The body served at the test path.
pub const TEST_PAGE: &'static str = "YES!";

/// The page served at the root path.
pub fn static_index_page() -> (r: String)
    ensures
        r@ == INDEX_PAGE@,
{
    String::from_str(INDEX_PAGE)
}

/// The body served at the test path.
pub fn static_test() -> (r: String)
    ensures
        r@ == TEST_PAGE@,
{
    String::from_str(TEST_PAGE)
}

} // verus!
