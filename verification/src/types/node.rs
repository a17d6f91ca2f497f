//! Structural classification of a raw trie node.
//!
//! A node is one recursive-length-prefix item: a list of 17 items is a
//! branch, a list of 2 items is a leaf or an extension, told apart by the
//! first nibble of the compact path that is its first item.

use crate::text::{decimal, push_decimal};
use vstd::prelude::*;
use vstd::string::StringExecFns;

verus! {

/// Structural type of a trie node.
#[derive(Debug, Clone, Copy, PartialEq, Eq, Structural)]
pub enum NodeType {
    Branch,
    Extension,
    Leaf,
}

/// Why a byte string is no trie node.
#[derive(Debug, Clone, Copy, PartialEq, Eq, Structural)]
pub enum NodeError {
    /// The bytes are not one well-formed item that fills the whole input, or
    /// an item inside it is cut short or not in canonical form.
    Malformed,
    /// The bytes are a byte string, where a list is needed.
    NotAList,
    /// The list has this many items, neither 17 nor 2.
    ItemCount(usize),
    /// The first item of a two-item node is no compact path: it is a list, it
    /// is empty, or its first nibble is above 3.
    PathPrefix,
}

impl NodeError {
    /// The error in words.
    pub open spec fn spec_message(self) -> Seq<char> {
        match self {
            NodeError::Malformed => "node is not one well-formed item"@,
            NodeError::NotAList => "node is a byte string, expected a list"@,
            NodeError::ItemCount(count) => "node item count was "@ + decimal(count as nat)
                + ", expected either 17 or 2"@,
            NodeError::PathPrefix => "expected compact encoding beginning with 0, 1, 2 or 3"@,
        }
    }

    pub fn message(&self) -> (r: String)
        ensures
            r@ == self.spec_message(),
    {
        match self {
            NodeError::Malformed => String::from_str("node is not one well-formed item"),
            NodeError::NotAList => String::from_str("node is a byte string, expected a list"),
            NodeError::ItemCount(count) => {
                let mut text = String::from_str("node item count was ");
                push_decimal(&mut text, *count as u64);
                text.append(", expected either 17 or 2");
                text
            },
            NodeError::PathPrefix => String::from_str(
                "expected compact encoding beginning with 0, 1, 2 or 3",
            ),
        }
    }
}

/// Where the payload of an item lies and what the item is.
pub struct Header {
    /// Bytes before the payload.
    pub offset: nat,
    /// Bytes of payload.
    pub len: nat,
    /// Whether the item is a list (else a byte string).
    pub list: bool,
}

/// Value of a byte string read as a big-endian number.
pub open spec fn be_value(s: Seq<u8>) -> nat
    decreases s.len(),
{
    if s.len() == 0 {
        0
    } else {
        be_value(s.drop_last()) * 256 + s.last() as nat
    }
}

/// Header in long form: `n` bytes after the first hold the payload length,
/// without a leading zero, and the length is at least 56.
pub open spec fn long_form(s: Seq<u8>, n: nat, list: bool) -> Option<Header> {
    if s.len() < 1 + n || s[1] == 0 {
        None
    } else {
        let len = be_value(s.subrange(1, 1 + n as int));
        if len < 56 {
            None
        } else {
            Some(Header { offset: 1 + n, len, list })
        }
    }
}

/// Header of the item that starts `s`, or `None` where the header itself is
/// cut short or not canonical. The payload may still reach past the end.
pub open spec fn header(s: Seq<u8>) -> Option<Header> {
    if s.len() == 0 {
        None
    } else {
        let b = s[0];
        if b < 0x80 {
            Some(Header { offset: 0, len: 1, list: false })
        } else if b < 0xb8 {
            if b == 0x81 && s.len() >= 2 && s[1] < 0x80 {
                None
            } else {
                Some(Header { offset: 1, len: (b - 0x80) as nat, list: false })
            }
        } else if b < 0xc0 {
            long_form(s, (b - 0xb7) as nat, false)
        } else if b < 0xf8 {
            Some(Header { offset: 1, len: (b - 0xc0) as nat, list: true })
        } else {
            long_form(s, (b - 0xf7) as nat, true)
        }
    }
}

/// Encoded length of the item that starts `s`, where it is well formed and
/// lies within `s`.
pub open spec fn item_len(s: Seq<u8>) -> Option<nat> {
    match header(s) {
        Some(h) => if h.offset + h.len <= s.len() {
            Some(h.offset + h.len)
        } else {
            None
        },
        None => None,
    }
}

/// Number of items that `s` is the concatenation of, or `None` where `s` is
/// no sequence of whole items.
pub open spec fn count_items(s: Seq<u8>) -> Option<nat>
    decreases s.len(),
{
    if s.len() == 0 {
        Some(0)
    } else {
        match item_len(s) {
            Some(n) => if 0 < n <= s.len() {
                match count_items(s.skip(n as int)) {
                    Some(k) => Some(k + 1),
                    None => None,
                }
            } else {
                None
            },
            None => None,
        }
    }
}

/// Kind of a two-item node, from the compact path that starts `payload`:
/// first nibble 0 or 1 for an extension, 2 or 3 for a leaf.
pub open spec fn path_kind(payload: Seq<u8>) -> Result<NodeType, NodeError> {
    match header(payload) {
        Some(h) => if h.list || h.len == 0 || h.offset >= payload.len() {
            Err(NodeError::PathPrefix)
        } else {
            let nibble = payload[h.offset as int] / 16;
            if nibble <= 1 {
                Ok(NodeType::Extension)
            } else if nibble <= 3 {
                Ok(NodeType::Leaf)
            } else {
                Err(NodeError::PathPrefix)
            }
        },
        None => Err(NodeError::PathPrefix),
    }
}

/// Classification of `s` as a trie node.
pub open spec fn spec_node_type(s: Seq<u8>) -> Result<NodeType, NodeError> {
    match header(s) {
        None => Err(NodeError::Malformed),
        Some(h) => if h.offset + h.len > s.len() {
            Err(NodeError::Malformed)
        } else if !h.list {
            Err(NodeError::NotAList)
        } else if h.offset + h.len != s.len() {
            Err(NodeError::Malformed)
        } else {
            match count_items(s.subrange(h.offset as int, s.len() as int)) {
                None => Err(NodeError::Malformed),
                Some(n) => if n == 17 {
                    Ok(NodeType::Branch)
                } else if n == 2 {
                    path_kind(s.subrange(h.offset as int, s.len() as int))
                } else {
                    Err(NodeError::ItemCount(n as usize))
                },
            }
        },
    }
}

/// Classification is a function of the bytes alone: nodes of the same bytes
/// classify alike, however often and wherever they are classified.
pub proof fn lemma_classification_is_pure(first: Seq<u8>, second: Seq<u8>)
    requires
        first =~= second,
    ensures
        spec_node_type(first) == spec_node_type(second),
{
}

/// 256 to the power `i`.
pub open spec fn pow256(i: nat) -> nat
    decreases i,
{
    if i == 0 {
        1
    } else {
        256 * pow256((i - 1) as nat)
    }
}

proof fn lemma_pow256_monotonic(i: nat, j: nat)
    requires
        i <= j,
    ensures
        pow256(i) <= pow256(j),
    decreases j,
{
    if i < j {
        lemma_pow256_monotonic(i, (j - 1) as nat);
    }
}

proof fn lemma_pow256_of_8()
    ensures
        pow256(8) == 0x1_0000_0000_0000_0000,
{
    reveal_with_fuel(pow256, 9);
}

/// Reads a header in long form at `start`, for an item that must end by `end`.
fn read_long(data: &[u8], start: usize, end: usize, n: usize, list: bool) -> (r: Option<
    (usize, usize, bool),
>)
    requires
        start < end <= data@.len(),
        1 <= n <= 8,
    ensures
        match r {
            Some((from, to, l)) => {
                &&& long_form(data@.subrange(start as int, end as int), n as nat, list) matches Some(
                    h,
                )
                &&& from == start + h.offset
                &&& to == from + h.len
                &&& to <= end
                &&& l == h.list
            },
            None => long_form(data@.subrange(start as int, end as int), n as nat, list) matches Some(
                h,
            ) ==> h.offset + h.len > end - start,
        },
{
    let ghost s = data@.subrange(start as int, end as int);
    let avail = end - start;
    if avail - 1 < n {
        return None;
    }
    if data[start + 1] == 0 {
        return None;
    }
    let mut v: u64 = 0;
    let mut i: usize = 0;
    while i < n
        invariant
            i <= n <= 8,
            start + 1 + n <= end <= data@.len(),
            v as nat == be_value(data@.subrange(start + 1, start + 1 + i)),
            v < pow256(i as nat),
        decreases n - i,
    {
        proof {
            let t = data@.subrange(start + 1, start + 1 + i + 1);
            assert(t.drop_last() =~= data@.subrange(start + 1, start + 1 + i));
            lemma_pow256_monotonic((i + 1) as nat, 8);
            lemma_pow256_of_8();
        }
        v = v * 256 + data[start + 1 + i] as u64;
        i = i + 1;
    }
    proof {
        assert(s.subrange(1, 1 + n as int) =~= data@.subrange(start + 1, start + 1 + n));
    }
    if v < 56 {
        return None;
    }
    let room = (avail - 1 - n) as u64;
    if v > room {
        None
    } else {
        Some((start + 1 + n, start + 1 + n + v as usize, list))
    }
}

/// Reads the header of the item at `start` and checks that the item ends by
/// `end`. Gives where its payload starts and ends, and whether it is a list.
fn read_header(data: &[u8], start: usize, end: usize) -> (r: Option<(usize, usize, bool)>)
    requires
        start <= end <= data@.len(),
    ensures
        match r {
            Some((from, to, l)) => {
                &&& header(data@.subrange(start as int, end as int)) matches Some(h)
                &&& from == start + h.offset
                &&& to == from + h.len
                &&& to <= end
                &&& l == h.list
            },
            None => item_len(data@.subrange(start as int, end as int)) is None,
        },
{
    if start == end {
        return None;
    }
    let b = data[start];
    let avail = end - start;
    if b < 0x80 {
        Some((start, start + 1, false))
    } else if b < 0xb8 {
        let len = (b - 0x80) as usize;
        if b == 0x81 && avail >= 2 && data[start + 1] < 0x80 {
            None
        } else if len > avail - 1 {
            None
        } else {
            Some((start + 1, start + 1 + len, false))
        }
    } else if b < 0xc0 {
        read_long(data, start, end, (b - 0xb7) as usize, false)
    } else if b < 0xf8 {
        let len = (b - 0xc0) as usize;
        if len > avail - 1 {
            None
        } else {
            Some((start + 1, start + 1 + len, true))
        }
    } else {
        read_long(data, start, end, (b - 0xf7) as usize, true)
    }
}

/// `count_items` of a sequence, from that of what is left of it and the
/// number of items already passed.
pub open spec fn count_after(rest: Option<nat>, passed: nat) -> Option<nat> {
    match rest {
        Some(k) => Some(k + passed),
        None => None,
    }
}

/// Counts the items that lie in `data` from `from` to `to`.
fn count_in(data: &[u8], from: usize, to: usize) -> (r: Option<usize>)
    requires
        from <= to <= data@.len(),
    ensures
        match r {
            Some(n) => count_items(data@.subrange(from as int, to as int)) == Some(n as nat),
            None => count_items(data@.subrange(from as int, to as int)) is None,
        },
{
    let ghost whole = data@.subrange(from as int, to as int);
    let mut pos = from;
    let mut count: usize = 0;
    while pos < to
        invariant
            from <= pos <= to <= data@.len(),
            count <= pos - from,
            whole == data@.subrange(from as int, to as int),
            count_items(whole) == count_after(
                count_items(data@.subrange(pos as int, to as int)),
                count as nat,
            ),
        decreases to - pos,
    {
        let ghost rest = data@.subrange(pos as int, to as int);
        match read_header(data, pos, to) {
            None => {
                return None;
            },
            Some((_, next, _)) => {
                proof {
                    assert(item_len(rest) == Some((next - pos) as nat));
                    assert(rest.skip(next - pos) =~= data@.subrange(next as int, to as int));
                }
                pos = next;
                count = count + 1;
            },
        }
    }
    Some(count)
}

/// Classifies a raw trie node by its structure. The result depends on the
/// bytes alone.
pub fn node_type(rlp_data: &[u8]) -> (r: Result<NodeType, NodeError>)
    ensures
        r == spec_node_type(rlp_data@),
{
    let len = rlp_data.len();
    proof {
        assert(rlp_data@.subrange(0, len as int) =~= rlp_data@);
    }
    match read_header(rlp_data, 0, len) {
        None => Err(NodeError::Malformed),
        Some((from, to, list)) => {
            if !list {
                Err(NodeError::NotAList)
            } else if to != len {
                Err(NodeError::Malformed)
            } else {
                match count_in(rlp_data, from, len) {
                    None => Err(NodeError::Malformed),
                    Some(n) => {
                        if n == 17 {
                            Ok(NodeType::Branch)
                        } else if n == 2 {
                            path_kind_at(rlp_data, from, len)
                        } else {
                            Err(NodeError::ItemCount(n))
                        }
                    },
                }
            }
        },
    }
}

/// Kind of a two-item node whose payload lies in `data` from `from` to `to`.
fn path_kind_at(data: &[u8], from: usize, to: usize) -> (r: Result<NodeType, NodeError>)
    requires
        from <= to <= data@.len(),
        item_len(data@.subrange(from as int, to as int)) is Some,
    ensures
        r == path_kind(data@.subrange(from as int, to as int)),
{
    match read_header(data, from, to) {
        Some((start, end, list)) => {
            if list || start == end {
                Err(NodeError::PathPrefix)
            } else {
                let nibble = data[start] / 16;
                if nibble <= 1 {
                    Ok(NodeType::Extension)
                } else if nibble <= 3 {
                    Ok(NodeType::Leaf)
                } else {
                    Err(NodeError::PathPrefix)
                }
            }
        },
        None => Err(NodeError::PathPrefix),
    }
}

} // verus!
