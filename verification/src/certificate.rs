//! Client-certificate identity.
//!
//! When client certificates are required, the Common Name (CN) of the
//! certificate's subject is the user name that access control sees.

use vstd::prelude::*;
use crate::text::{
    chars_to_string, has_prefix, lemma_index_of_char, split_char, split_once, split_once_char, starts_with,
    str_to_chars, trim, trim_chars,
};

verus! {

/// The attribute prefix `CN=`.
pub open spec fn cn_prefix() -> Seq<char> {
    seq!['C', 'N', '=']
}

/// The value of the first comma-separated part that, once trimmed,
/// starts with `CN=`.
pub open spec fn first_cn(parts: Seq<Seq<char>>) -> Option<Seq<char>>
    decreases parts.len(),
{
    if parts.len() == 0 {
        None
    } else {
        let t = trim(parts[0]);
        if has_prefix(t, cn_prefix()) {
            Some(t.subrange(3, t.len() as int))
        } else {
            first_cn(parts.drop_first())
        }
    }
}

/// The Common Name in a certificate subject such as `CN=alice, O=OpenUSB`.
pub open spec fn cn_of_subject(subject: Seq<char>) -> Option<Seq<char>> {
    first_cn(split_char(subject, ','))
}

/// Extract the Common Name from a client certificate's subject.
pub fn extract_cn(subject: &str) -> (r: Option<String>)
    ensures
        match r {
            Some(cn) => cn_of_subject(subject@) == Some(cn@),
            None => cn_of_subject(subject@) is None,
        },
{
    let chars = str_to_chars(subject);
    let prefix: [char; 3] = ['C', 'N', '='];
    assert(prefix@ =~= cn_prefix());
    let mut rest: &[char] = chars.as_slice();
    loop
        invariant
            prefix@ == cn_prefix(),
            cn_of_subject(subject@) == first_cn(split_char(rest@, ',')),
        decreases rest@.len(),
    {
        let (part, next, last) = match split_once(rest, ',') {
            Some((a, b)) => (a, b, false),
            None => (rest, rest, true),
        };
        proof {
            lemma_index_of_char(rest@, ',');
            assert(first_cn(Seq::<Seq<char>>::empty()) is None);
            let parts = split_char(rest@, ',');
            if last {
                assert(parts =~= seq![rest@]);
            } else {
                assert(parts =~= seq![part@] + split_char(next@, ','));
            }
            assert(parts[0] == part@);
            assert(parts.drop_first() =~= if last {
                Seq::<Seq<char>>::empty()
            } else {
                split_char(next@, ',')
            });
        }
        let t = trim_chars(part);
        if starts_with(t, prefix.as_slice()) {
            return Some(chars_to_string(&t[3..t.len()]));
        }
        if last {
            return None;
        }
        rest = next;
    }
}

} // verus!
