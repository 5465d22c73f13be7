//! Client configuration decisions.
use vstd::prelude::*;

verus! {

/// The RPC endpoint used when no endpoint is configured in the environment.
pub open spec fn default_rpc_url() -> Seq<char> {
    "https://api.devnet.solana.com"@
}

/// Chooses the JSON-RPC endpoint: the configured value when there is one,
/// the public devnet endpoint otherwise.
pub fn rpc_url_or_default(configured: Option<String>) -> (url: String)
    ensures
        url@ == (match configured {
            Some(s) => s@,
            None => default_rpc_url(),
        }),
{
    match configured {
        Some(s) => s,
        None => "https://api.devnet.solana.com".to_owned(),
    }
}

/// The walkthroughs the token client can run.
#[derive(Clone, Copy, Debug, PartialEq, Eq)]
pub enum Example {
    /// Create a mint and an account, then mint, burn, transfer and freeze.
    TokenOperations,
    /// Wrap SOL into a native token account and unwrap it again.
    WrapUnwrapSol,
    /// Create a mint with Metaplex metadata and read the metadata back.
    MintWithMetadata,
}

/// The walkthrough chosen by its number on the command line: `1`, `2` or
/// `3`; `None` for anything else.
pub fn select_example(choice: &String) -> (example: Option<Example>)
    ensures
        example == (if choice@ == "1"@ {
            Some(Example::TokenOperations)
        } else if choice@ == "2"@ {
            Some(Example::WrapUnwrapSol)
        } else if choice@ == "3"@ {
            Some(Example::MintWithMetadata)
        } else {
            None
        }),
{
    let one = "1".to_owned();
    let two = "2".to_owned();
    let three = "3".to_owned();
    if *choice == one {
        Some(Example::TokenOperations)
    } else if *choice == two {
        Some(Example::WrapUnwrapSol)
    } else if *choice == three {
        Some(Example::MintWithMetadata)
    } else {
        None
    }
}

} // verus!
