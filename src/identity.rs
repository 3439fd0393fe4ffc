use vstd::prelude::*;

use crate::text::str_equal;

verus! {

/// The chain variants this agent knows how to serve.
#[derive(Clone, Copy, Debug, PartialEq, Eq, Structural)]
pub enum SupportedRuntime {
    Polkadot,
    Kusama,
    Westend,
    Creditcoin,
}

/// The variant that a node's token symbol names; an unknown symbol names none.
pub open spec fn spec_runtime_of_symbol(symbol: Seq<char>) -> Option<SupportedRuntime> {
    if symbol == seq!['D', 'O', 'T'] {
        Some(SupportedRuntime::Polkadot)
    } else if symbol == seq!['K', 'S', 'M'] {
        Some(SupportedRuntime::Kusama)
    } else if symbol == seq!['W', 'N', 'D'] {
        Some(SupportedRuntime::Westend)
    } else if symbol == seq!['C', 'T', 'C'] {
        Some(SupportedRuntime::Creditcoin)
    } else {
        None
    }
}

impl SupportedRuntime {
    /// Resolves the chain variant from the node's token symbol. An unknown
    /// symbol gives `None`, which the caller treats as a fatal setup error.
    pub fn from_token_symbol(symbol: &str) -> (r: Option<SupportedRuntime>)
        ensures
            r == spec_runtime_of_symbol(symbol@),
    {
        proof {
            reveal_strlit("DOT");
            reveal_strlit("KSM");
            reveal_strlit("WND");
            reveal_strlit("CTC");
            assert("DOT"@ =~= seq!['D', 'O', 'T']);
            assert("KSM"@ =~= seq!['K', 'S', 'M']);
            assert("WND"@ =~= seq!['W', 'N', 'D']);
            assert("CTC"@ =~= seq!['C', 'T', 'C']);
        }
        if str_equal(symbol, "DOT") {
            Some(SupportedRuntime::Polkadot)
        } else if str_equal(symbol, "KSM") {
            Some(SupportedRuntime::Kusama)
        } else if str_equal(symbol, "WND") {
            Some(SupportedRuntime::Westend)
        } else if str_equal(symbol, "CTC") {
            Some(SupportedRuntime::Creditcoin)
        } else {
            None
        }
    }
}

/// What a connection to a node resolves to: the chain variant and the
/// address prefix used to display account identifiers.
#[derive(Clone, Copy, Debug, PartialEq, Eq, Structural)]
pub struct ChainIdentity {
    pub runtime: SupportedRuntime,
    pub address_prefix: u16,
}

/// Why a node's properties could not be resolved to an identity.
#[derive(Clone, Copy, Debug, PartialEq, Eq, Structural)]
pub enum IdentityError {
    /// The token symbol names no supported chain.
    UnknownTokenSymbol,
    /// The address format does not fit in sixteen bits.
    AddressPrefixOutOfRange,
}

/// The address prefix that a node's `ss58Format` property gives; absent, it is zero.
pub open spec fn spec_address_prefix(ss58_format: Option<u64>) -> Option<u16> {
    match ss58_format {
        None => Some(0),
        Some(v) => if v <= u16::MAX {
            Some(v as u16)
        } else {
            None
        },
    }
}

/// The address prefix for a node's `ss58Format` property.
pub fn address_prefix(ss58_format: Option<u64>) -> (r: Option<u16>)
    ensures
        r == spec_address_prefix(ss58_format),
{
    match ss58_format {
        None => Some(0),
        Some(v) => if v <= u16::MAX as u64 {
            Some(v as u16)
        } else {
            None
        },
    }
}

/// Resolves the identity of a connection from the node's `ss58Format` and
/// `tokenSymbol` properties. A missing token symbol counts as the empty one.
pub fn resolve_identity(ss58_format: Option<u64>, token_symbol: Option<&str>) -> (r: Result<
    ChainIdentity,
    IdentityError,
>)
    ensures
        match r {
            Ok(id) => spec_address_prefix(ss58_format) == Some(id.address_prefix) && Some(id.runtime)
                == spec_runtime_of_symbol(
                match token_symbol {
                    Some(t) => t@,
                    None => Seq::<char>::empty(),
                },
            ),
            Err(IdentityError::AddressPrefixOutOfRange) => spec_address_prefix(ss58_format).is_none(),
            Err(IdentityError::UnknownTokenSymbol) => spec_address_prefix(ss58_format).is_some()
                && spec_runtime_of_symbol(
                match token_symbol {
                    Some(t) => t@,
                    None => Seq::<char>::empty(),
                },
            ).is_none(),
        },
{
    let prefix = match address_prefix(ss58_format) {
        Some(p) => p,
        None => return Err(IdentityError::AddressPrefixOutOfRange),
    };
    let runtime = match token_symbol {
        Some(t) => SupportedRuntime::from_token_symbol(t),
        None => {
            proof {
                reveal_strlit("");
                assert(""@ =~= Seq::<char>::empty());
            }
            SupportedRuntime::from_token_symbol("")
        },
    };
    match runtime {
        Some(runtime) => Ok(ChainIdentity { runtime, address_prefix: prefix }),
        None => Err(IdentityError::UnknownTokenSymbol),
    }
}

} // verus!
