//! The WebSocket under a session: where it leads, and which of its messages carry bytes.

use vstd::prelude::*;
use vstd::string::*;

use crate::text;

verus! {

/// Whether an address already says that it is a WebSocket's.
pub open spec fn is_websocket_url(addr: Seq<char>) -> bool {
    "ws://"@.is_prefix_of(addr) || "wss://"@.is_prefix_of(addr)
}

/// The URL for an address.
pub open spec fn url_of(addr: Seq<char>) -> Seq<char> {
    if is_websocket_url(addr) {
        addr
    } else {
        "ws://"@ + addr
    }
}

/// The URL for an address: the address itself where it is a WebSocket URL, else the address behind
/// `ws://`.
pub fn server_url(addr: &str) -> (url: String)
    ensures
        url@ == url_of(addr@),
{
    if text::starts_with(addr, "ws://") || text::starts_with(addr, "wss://") {
        addr.to_owned()
    } else {
        "ws://".to_owned().concat(addr)
    }
}

/// A URL that was made is left as it is.
pub proof fn urls_are_kept(addr: Seq<char>)
    ensures
        is_websocket_url(url_of(addr)),
        url_of(url_of(addr)) == url_of(addr),
{
    assert("ws://"@.is_prefix_of("ws://"@ + addr)) by {
        assert(("ws://"@ + addr).subrange(0, "ws://"@.len() as int) =~= "ws://"@);
    }
}

/// What a WebSocket delivers.
pub enum Incoming<D, E> {
    /// A message, and whether it announces the end of the connection.
    Message { is_close: bool, data: D },
    /// A failure.
    Failed(E),
}

/// The bytes that an item contributes to the session, or its failure. The announcement of the end
/// contributes nothing.
pub fn deliver<D, E>(item: Incoming<D, E>) -> (delivered: Option<Result<D, E>>)
    ensures
        delivered == (match item {
            Incoming::Message { is_close, data } => if is_close {
                None
            } else {
                Some(Ok(data))
            },
            Incoming::Failed(e) => Some(Err(e)),
        }),
{
    match item {
        Incoming::Message { is_close, data } => if is_close {
            None
        } else {
            Some(Ok(data))
        },
        Incoming::Failed(e) => Some(Err(e)),
    }
}

} // verus!
