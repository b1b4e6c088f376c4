use vstd::prelude::*;

verus! {

/// Why a token account does not qualify as holding the watched mint.
#[derive(Debug, Clone)]
pub enum VerificationError {
    /// The account could not be fetched; the RPC client's error text.
    RpcError(String),
    /// The account is not owned by the token program, or its data is not a
    /// token account.
    InvalidTokenAccount,
    /// The account holds another mint.
    MintMismatch,
}

/// The description of an error, as shown in logs.
pub open spec fn verification_error_text(e: VerificationError) -> Seq<char> {
    match e {
        VerificationError::RpcError(m) => "RPC error: "@ + m@,
        VerificationError::InvalidTokenAccount => "Invalid token account data"@,
        VerificationError::MintMismatch => "Token account does not belong to the specified mint"@,
    }
}

impl VerificationError {
    /// The description of the error.
    pub fn message(&self) -> (s: String)
        ensures
            s@ == verification_error_text(*self),
    {
        match self {
            VerificationError::RpcError(m) => {
                let mut s = String::from_str("RPC error: ");
                s.append(m.as_str());
                s
            },
            VerificationError::InvalidTokenAccount => String::from_str(
                "Invalid token account data",
            ),
            VerificationError::MintMismatch => String::from_str(
                "Token account does not belong to the specified mint",
            ),
        }
    }
}

/// A configuration entry for a blockchain network with separate WebSocket
/// and HTTP endpoints.
pub struct Config {
    /// Name of the network (e.g. "BSC Mainnet").
    pub name: String,
    /// WebSocket RPC URL.
    pub wss: String,
    /// HTTP RPC URL.
    pub rpc: String,
    /// Token contract address.
    pub address: String,
    /// Number of decimals of the token.
    pub decimal: u8,
    /// Block explorer URL for links, if any.
    pub explorer: Option<String>,
}

} // verus!
