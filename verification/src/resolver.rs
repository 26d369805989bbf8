//! Template source resolution: stable content-derived names for raw query
//! text, and lookup of named templates in an environment's repository.

use vstd::prelude::*;

use crate::style::digit_char;
use crate::style::digit_str;

verus! {

/// The 32-byte digest that the hashing primitive produces for a text; a
/// function of the text alone.
pub uninterp spec fn sha256_of(text: Seq<char>) -> Seq<u8>;

/// Relies on sha2::Sha256 (Digest::new, Digest::update, Digest::finalize):
/// the 256-bit digest of the text's bytes, which depends on the text alone.
#[verifier::external_body]
fn sha256_digest(text: &str) -> (digest: Vec<u8>)
    ensures
        digest@ == sha256_of(text@),
        digest@.len() == 32,
{
    let mut hasher = <sha2::Sha256 as sha2::Digest>::new();
    sha2::Digest::update(&mut hasher, text.as_bytes());
    sha2::Digest::finalize(hasher).to_vec()
}

/// The lower-case character for one hex digit.
pub open spec fn hex_digit_char(d: nat) -> char
    recommends
        d < 16,
{
    if d < 10 {
        digit_char(d)
    } else if d == 10 {
        'a'
    } else if d == 11 {
        'b'
    } else if d == 12 {
        'c'
    } else if d == 13 {
        'd'
    } else if d == 14 {
        'e'
    } else {
        'f'
    }
}

/// Two lower-case hex digits for each byte, in byte order.
pub open spec fn hex_of_bytes(bytes: Seq<u8>) -> Seq<char>
    decreases bytes.len(),
{
    if bytes.len() == 0 {
        Seq::empty()
    } else {
        hex_of_bytes(bytes.drop_last()) + seq![
            hex_digit_char((bytes.last() / 16) as nat),
            hex_digit_char((bytes.last() % 16) as nat),
        ]
    }
}

/// Hex text is exactly twice as long as the bytes it renders.
pub proof fn lemma_hex_of_bytes_len(bytes: Seq<u8>)
    ensures
        hex_of_bytes(bytes).len() == 2 * bytes.len(),
    decreases bytes.len(),
{
    if bytes.len() > 0 {
        lemma_hex_of_bytes_len(bytes.drop_last());
    }
}

fn hex_digit(d: u8) -> (s: &'static str)
    requires
        d < 16,
    ensures
        s@ == seq![hex_digit_char(d as nat)],
{
    if d < 10 {
        digit_str(d as usize)
    } else {
        proof {
            reveal_strlit("a");
            reveal_strlit("b");
            reveal_strlit("c");
            reveal_strlit("d");
            reveal_strlit("e");
            reveal_strlit("f");
        }
        let s: &'static str = match d {
            10 => "a",
            11 => "b",
            12 => "c",
            13 => "d",
            14 => "e",
            _ => "f",
        };
        proof {
            assert(s@ =~= seq![hex_digit_char(d as nat)]);
        }
        s
    }
}

/// Formats a byte sequence as lower-case hex text, two digits per byte.
fn to_hex(bytes: &Vec<u8>) -> (text: String)
    ensures
        text@ == hex_of_bytes(bytes@),
{
    let mut out = String::new();
    let mut i: usize = 0;
    proof {
        assert(out@ =~= hex_of_bytes(bytes@.subrange(0, 0)));
    }
    while i < bytes.len()
        invariant
            i <= bytes@.len(),
            out@ == hex_of_bytes(bytes@.subrange(0, i as int)),
        decreases bytes@.len() - i,
    {
        let b = bytes[i];
        out.append(hex_digit(b / 16));
        out.append(hex_digit(b % 16));
        proof {
            let prefix = bytes@.subrange(0, i as int + 1);
            assert(prefix.drop_last() =~= bytes@.subrange(0, i as int));
            assert(out@ =~= hex_of_bytes(prefix));
        }
        i = i + 1;
    }
    proof {
        assert(bytes@.subrange(0, bytes@.len() as int) =~= bytes@);
    }
    out
}

/// The stable content-derived name under which raw query text is compiled:
/// identical text always resolves to the same name, so a repeated query
/// reuses its previously compiled template.
pub open spec fn hash_name_of(text: Seq<char>) -> Seq<char> {
    "hash:"@ + hex_of_bytes(sha256_of(text))
}

/// Computes the content-derived template name for raw query text: the
/// five-character prefix `hash:` followed by the 64 hex digits of the
/// 32-byte digest.
pub fn hash_query(query: &str) -> (name: String)
    ensures
        name@ == hash_name_of(query@),
        name@.len() == 69,
{
    let digest = sha256_digest(query);
    let mut name = "hash:".to_owned();
    let hex = to_hex(&digest);
    name.append(hex.as_str());
    proof {
        reveal_strlit("hash:");
        lemma_hex_of_bytes_len(digest@);
    }
    name
}

/// The text stored in a repository under `name`: the first entry carrying
/// that name, if any.
pub open spec fn repo_lookup(repo: Seq<(String, String)>, name: Seq<char>) -> Option<Seq<char>>
    decreases repo.len(),
{
    if repo.len() == 0 {
        None
    } else if repo.first().0@ == name {
        Some(repo.first().1@)
    } else {
        repo_lookup(repo.drop_first(), name)
    }
}

/// Looks a template name up in the repository.
pub(crate) fn lookup_template(repo: &Vec<(String, String)>, name: &str) -> (found: Option<String>)
    ensures
        match found {
            Some(text) => repo_lookup(repo@, name@) == Some(text@),
            None => repo_lookup(repo@, name@) is None,
        },
{
    let name_owned = name.to_owned();
    let mut i: usize = 0;
    proof {
        assert(repo@.subrange(0, repo@.len() as int) =~= repo@);
    }
    while i < repo.len()
        invariant
            i <= repo@.len(),
            name_owned@ == name@,
            repo_lookup(repo@, name@) == repo_lookup(
                repo@.subrange(i as int, repo@.len() as int),
                name@,
            ),
        decreases repo@.len() - i,
    {
        proof {
            let tail = repo@.subrange(i as int, repo@.len() as int);
            assert(tail.first() == repo@[i as int]);
            assert(tail.drop_first() =~= repo@.subrange(i as int + 1, repo@.len() as int));
        }
        if repo[i].0 == name_owned {
            return Some(repo[i].1.clone());
        }
        i = i + 1;
    }
    proof {
        assert(repo@.subrange(repo@.len() as int, repo@.len() as int) =~= Seq::<(
            String,
            String,
        )>::empty());
    }
    None
}

/// Whether some name in the list reads as `name`.
pub open spec fn names_contain(names: Seq<String>, name: Seq<char>) -> bool {
    exists|i: int| 0 <= i < names.len() && names[i]@ == name
}

/// Whether `name` is among the recorded names.
pub(crate) fn contains_name(names: &Vec<String>, name: &str) -> (present: bool)
    ensures
        present == names_contain(names@, name@),
{
    let name_owned = name.to_owned();
    let mut i: usize = 0;
    while i < names.len()
        invariant
            i <= names@.len(),
            name_owned@ == name@,
            forall|j: int| 0 <= j < i ==> names@[j]@ != name@,
        decreases names@.len() - i,
    {
        if names[i] == name_owned {
            proof {
                assert(names@[i as int]@ == name@);
            }
            return true;
        }
        i = i + 1;
    }
    false
}

} // verus!
