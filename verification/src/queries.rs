//! Stored block queries: a client registers what it wants to watch
//! for, and incoming blocks are matched against it. Also the reading
//! of a transaction hash from its hexadecimal text form.

use vstd::prelude::*;
use vstd::string::StrSliceExecFns;

use crate::encoding::{hex_decode, hex_decoded, hex_valid, lemma_hex_decoded_len};
use crate::hbit::Block;
use crate::types::EthHash;

verus! {

/// A stored query over Bitcoin blocks: matches every block at or above
/// the given height. A query with no condition at all matches nothing
/// and is refused on creation.
#[derive(Clone, Copy, Debug, PartialEq, Eq, Structural)]
pub struct BitcoinBlockQuery {
    pub min_height: Option<u32>,
}

/// Whether a block satisfies a query.
#[derive(Clone, Copy, Debug, PartialEq, Eq, Structural)]
pub enum QueryMatchResult {
    Yes,
    No,
}

/// Why a query was refused on creation.
#[derive(Clone, Copy, Debug, PartialEq, Eq, Structural)]
pub enum QueryError {
    /// The query carries no condition: there is nothing to match.
    NoConditions,
}

impl BitcoinBlockQuery {
    /// A query must carry at least one condition to be stored.
    pub fn validate(&self) -> (r: Result<(), QueryError>)
        ensures
            r is Ok <==> self.min_height is Some,
    {
        match self.min_height {
            Some(_) => Ok(()),
            None => Err(QueryError::NoConditions),
        }
    }

    /// Matches a block against the query: a block matches when its
    /// height is at or above the queried minimum. A query without a
    /// condition matches nothing.
    pub fn matches(&self, block: &Block) -> (r: QueryMatchResult)
        ensures
            r == QueryMatchResult::Yes <==> (self.min_height matches Some(h) && block.height >= h),
    {
        match self.min_height {
            Some(h) => {
                if block.height >= h {
                    QueryMatchResult::Yes
                } else {
                    QueryMatchResult::No
                }
            },
            None => QueryMatchResult::No,
        }
    }
}

/// The text with a leading `0x` marker removed, if one is there.
pub open spec fn spec_strip_0x(s: Seq<char>) -> Seq<char> {
    if s.len() >= 2 && s[0] == '0' && s[1] == 'x' {
        s.skip(2)
    } else {
        s
    }
}

/// Reads a 32-byte transaction hash from its hexadecimal text, with or
/// without a leading `0x`. Returns `None` unless the text after the
/// marker is exactly 64 hexadecimal digits.
pub fn to_h256(tx_id: &str) -> (r: Option<EthHash>)
    ensures
        r is Some <==> hex_valid(spec_strip_0x(tx_id@)) && spec_strip_0x(tx_id@).len() == 64,
        r matches Some(h) ==> h@ == hex_decoded(spec_strip_0x(tx_id@)),
{
    broadcast use vstd::string::is_ascii_spec_bytes;

    if !tx_id.is_ascii() {
        proof {
            let i = choose|i: int|
                0 <= i < tx_id@.len() && !('\0' <= #[trigger] tx_id@[i] <= '\u{7f}');
            let s = spec_strip_0x(tx_id@);
            if tx_id@.len() >= 2 && tx_id@[0] == '0' && tx_id@[1] == 'x' {
                assert(i >= 2);
                assert(s[i - 2] == tx_id@[i]);
                assert(!crate::encoding::is_hex_char(s[i - 2]));
            } else {
                assert(!crate::encoding::is_hex_char(s[i]));
            }
        }
        return None;
    }
    let bytes = tx_id.as_bytes();
    let stripped: &str = if bytes.len() >= 2 && bytes[0] == 48 && bytes[1] == 120 {
        proof {
            assert(tx_id@[0] as u8 as char == tx_id@[0]);
            assert(tx_id@[1] as u8 as char == tx_id@[1]);
        }
        tx_id.substring_ascii(2, tx_id.len())
    } else {
        proof {
            if tx_id@.len() >= 2 {
                assert(tx_id@[0] as u8 as char == tx_id@[0]);
                assert(tx_id@[1] as u8 as char == tx_id@[1]);
            }
        }
        tx_id
    };
    proof {
        assert(stripped@ =~= spec_strip_0x(tx_id@));
    }
    match hex_decode(stripped) {
        Some(decoded) => {
            if decoded.len() != 32 {
                proof {
                    lemma_hex_decoded_len(stripped@);
                }
                return None;
            }
            proof {
                lemma_hex_decoded_len(stripped@);
            }
            let mut arr: [u8; 32] = [0; 32];
            let mut i: usize = 0;
            while i < 32
                invariant
                    i <= 32,
                    decoded@.len() == 32,
                    forall|j: int| 0 <= j < i ==> arr@[j] == decoded@[j],
                decreases 32 - i,
            {
                arr[i] = decoded[i];
                i = i + 1;
            }
            assert(arr@ =~= decoded@);
            Some(EthHash { bytes: arr })
        },
        None => None,
    }
}

} // verus!
