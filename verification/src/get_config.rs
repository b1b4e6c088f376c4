use vstd::prelude::*;
use crate::text::{replace_all, replace_text, starts_with, text_eq, text_starts_with};

verus! {

/// A configuration entry for a blockchain network.
pub struct Config {
    /// Name of the network (e.g. "BSC Mainnet").
    pub name: String,
    /// RPC endpoint: a WebSocket URL for EVM networks; for Solana an HTTP(S)
    /// or WebSocket URL.
    pub url: String,
    /// Token contract address (EVM) or mint (Solana).
    pub address: String,
    /// Number of decimals of the token.
    pub decimal: u8,
    /// Block explorer URL for links, if any.
    pub explorer: Option<String>,
    /// "solana" or "evm"; EVM when absent.
    pub chain_type: Option<String>,
}

/// The kind of chain a configuration entry watches.
#[derive(PartialEq, Eq, Structural, Debug, Clone, Copy)]
pub enum ChainKind {
    Evm,
    Solana,
}

/// A chain type names Solana exactly when it reads "solana"; any other
/// value, or none, means an EVM chain.
pub open spec fn chain_kind_of(chain_type: Option<String>) -> ChainKind {
    match chain_type {
        Some(t) => if t@ == "solana"@ {
            ChainKind::Solana
        } else {
            ChainKind::Evm
        },
        None => ChainKind::Evm,
    }
}

/// The WebSocket endpoint for a Solana RPC URL: kept when it already is a
/// WebSocket URL, otherwise `https://` becomes `wss://` and then `http://`
/// becomes `ws://`, wherever they occur.
pub open spec fn websocket_url_text(rpc_url: Seq<char>) -> Seq<char> {
    if starts_with(rpc_url, "wss://"@) || starts_with(rpc_url, "ws://"@) {
        rpc_url
    } else {
        replace_all(replace_all(rpc_url, "https://"@, "wss://"@), "http://"@, "ws://"@)
    }
}

/// Replacing occurrences that cannot start inside `p` leaves `p` in front.
proof fn lemma_replace_keeps_prefix(p: Seq<char>, t: Seq<char>, from: Seq<char>, to: Seq<char>)
    requires
        from.len() > 0,
        forall|i: int| 0 <= i < p.len() ==> !starts_with(#[trigger] (p + t).skip(i), from),
    ensures
        replace_all(p + t, from, to) == p + replace_all(t, from, to),
    decreases p.len(),
{
    let s = p + t;
    if p.len() == 0 {
        assert(s =~= t);
    } else {
        assert(s.skip(0) =~= s);
        assert(!starts_with(s, from));
        let q = p.drop_first();
        assert(s.drop_first() =~= q + t);
        assert forall|i: int| 0 <= i < q.len() implies !starts_with(#[trigger] (q + t).skip(i), from) by {
            assert((q + t).skip(i) =~= s.skip(i + 1));
        }
        lemma_replace_keeps_prefix(q, t, from, to);
        assert(seq![s[0]] + (q + replace_all(t, from, to)) =~= p + replace_all(t, from, to));
    }
}

/// A text whose first character differs from that of `from` does not start
/// with `from`.
proof fn lemma_first_char_mismatch(x: Seq<char>, from: Seq<char>)
    requires
        from.len() > 0,
        x.len() > 0,
        x[0] != from[0],
    ensures
        !starts_with(x, from),
{
    if starts_with(x, from) {
        assert(x.subrange(0, from.len() as int)[0] == from[0]);
    }
}

/// A listener subscribes over WebSocket: an `https://` RPC URL gives a
/// `wss://` endpoint, an `http://` one a `ws://` endpoint, and a WebSocket
/// URL is used as it is.
pub proof fn lemma_websocket_url_scheme(rpc_url: Seq<char>)
    ensures
        starts_with(rpc_url, "https://"@) ==> starts_with(websocket_url_text(rpc_url), "wss://"@),
        starts_with(rpc_url, "http://"@) ==> starts_with(websocket_url_text(rpc_url), "ws://"@),
        starts_with(rpc_url, "wss://"@) || starts_with(rpc_url, "ws://"@) ==> websocket_url_text(
            rpc_url,
        ) == rpc_url,
{
    reveal_strlit("https://");
    reveal_strlit("http://");
    reveal_strlit("wss://");
    reveal_strlit("ws://");
    let https = "https://"@;
    let http = "http://"@;
    let wss = "wss://"@;
    let ws = "ws://"@;
    if starts_with(rpc_url, https) {
        let t = rpc_url.skip(8);
        assert(rpc_url =~= https + t);
        assert(!starts_with(rpc_url, wss)) by {
            lemma_first_char_mismatch(rpc_url, wss);
        }
        assert(!starts_with(rpc_url, ws)) by {
            lemma_first_char_mismatch(rpc_url, ws);
        }
        assert(rpc_url.skip(0) =~= rpc_url);
        let r1 = replace_all(rpc_url, https, wss);
        let rest = replace_all(t, https, wss);
        assert(r1 == wss + rest);
        assert forall|i: int| 0 <= i < wss.len() implies !starts_with(
            #[trigger] (wss + rest).skip(i),
            http,
        ) by {
            assert((wss + rest).skip(i)[0] == wss[i]);
            lemma_first_char_mismatch((wss + rest).skip(i), http);
        }
        lemma_replace_keeps_prefix(wss, rest, http, ws);
        let r2 = replace_all(r1, http, ws);
        assert(r2 == wss + replace_all(rest, http, ws));
        assert(r2.subrange(0, 6) =~= wss);
    }
    if starts_with(rpc_url, http) {
        let t = rpc_url.skip(7);
        assert(rpc_url =~= http + t);
        assert(!starts_with(rpc_url, wss)) by {
            lemma_first_char_mismatch(rpc_url, wss);
        }
        assert(!starts_with(rpc_url, ws)) by {
            lemma_first_char_mismatch(rpc_url, ws);
        }
        assert forall|i: int| 0 <= i < http.len() implies !starts_with(
            #[trigger] (http + t).skip(i),
            https,
        ) by {
            if i == 0 {
                assert((http + t).skip(0) =~= http + t);
                if starts_with(http + t, https) {
                    assert((http + t).subrange(0, 8)[4] == https[4]);
                }
            } else {
                assert((http + t).skip(i)[0] == http[i]);
                lemma_first_char_mismatch((http + t).skip(i), https);
            }
        }
        lemma_replace_keeps_prefix(http, t, https, wss);
        let r1 = replace_all(rpc_url, https, wss);
        let rest = replace_all(t, https, wss);
        assert(r1 == http + rest);
        assert((http + rest).skip(0) =~= http + rest);
        assert((http + rest).subrange(0, 7) =~= http);
        assert(starts_with(http + rest, http));
        assert((http + rest).skip(7) =~= rest);
        let r2 = replace_all(r1, http, ws);
        assert(r2 == ws + replace_all(rest, http, ws));
        assert(r2.subrange(0, 5) =~= ws);
    }
}

impl Config {
    /// The endpoints of the entry: its URL, unless that is empty.
    pub fn get_urls(&self) -> (v: Vec<String>)
        ensures
            self.url@.len() == 0 ==> v@.len() == 0,
            self.url@.len() > 0 ==> v@ == seq![self.url],
    {
        if self.url.as_str().is_empty() {
            Vec::new()
        } else {
            vec![self.url.clone()]
        }
    }

    /// The kind of chain the entry watches.
    pub fn chain_kind(&self) -> (k: ChainKind)
        ensures
            k == chain_kind_of(self.chain_type),
    {
        match &self.chain_type {
            Some(t) => if text_eq(t, "solana") {
                ChainKind::Solana
            } else {
                ChainKind::Evm
            },
            None => ChainKind::Evm,
        }
    }
}

/// The WebSocket endpoint a Solana listener subscribes to, given its RPC URL.
pub fn websocket_url(rpc_url: &str) -> (ws: String)
    ensures
        ws@ == websocket_url_text(rpc_url@),
{
    if text_starts_with(rpc_url, "wss://") || text_starts_with(rpc_url, "ws://") {
        return String::from_str(rpc_url);
    }
    proof {
        reveal_strlit("https://");
        reveal_strlit("http://");
    }
    let secure = replace_text(rpc_url, "https://", "wss://");
    replace_text(secure.as_str(), "http://", "ws://")
}

/// The first endpoint of a list, or the empty string when there is none.
pub fn first_url(urls: &Vec<String>) -> (u: String)
    ensures
        urls@.len() > 0 ==> u@ == urls@[0]@,
        urls@.len() == 0 ==> u@ == Seq::<char>::empty(),
{
    if urls.len() > 0 {
        urls[0].clone()
    } else {
        String::new()
    }
}

} // verus!
