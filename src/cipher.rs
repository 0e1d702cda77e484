use vstd::prelude::*;
use vstd::string::*;

verus! {

/// The marker that sealing puts in front of a payload.
pub open spec fn seal_marker() -> Seq<char> {
    seq!['e', 'n', 'c', 'r', 'y', 'p', 't', 'e', 'd', '_']
}

/// The ciphertext of a plaintext.
pub open spec fn sealed(plaintext: Seq<char>) -> Seq<char> {
    seal_marker() + plaintext
}

/// The plaintext of a ciphertext: the text after the marker, or the text
/// itself where it does not start with the marker.
pub open spec fn opened(ciphertext: Seq<char>) -> Seq<char> {
    let n = seal_marker().len();
    if ciphertext.len() >= n && ciphertext.subrange(0, n as int) == seal_marker() {
        ciphertext.subrange(n as int, ciphertext.len() as int)
    } else {
        ciphertext
    }
}

/// Opening undoes sealing.
pub proof fn lemma_opened_sealed(plaintext: Seq<char>)
    ensures
        opened(sealed(plaintext)) == plaintext,
{
    let c = sealed(plaintext);
    assert(c.subrange(0, 10) =~= seal_marker());
    assert(c.subrange(10, c.len() as int) =~= plaintext);
}

/// Seals a plaintext into the payload that a capsule stores.
pub fn encrypt_message(message: &str) -> (r: String)
    ensures
        r@ == sealed(message@),
{
    proof {
        reveal_strlit("encrypted_");
    }
    let mut s = String::from_str("encrypted_");
    assert(s@ =~= seal_marker());
    s.append(message);
    s
}

/// Opens a stored payload.
pub fn decrypt_message(encrypted: &str) -> (r: String)
    ensures
        r@ == opened(encrypted@),
{
    proof {
        reveal_strlit("encrypted_");
    }
    let marker: &str = "encrypted_";
    let n: usize = marker.unicode_len();
    let len: usize = encrypted.unicode_len();
    if len < n {
        return String::from_str(encrypted);
    }
    let mut i: usize = 0;
    while i < n
        invariant
            n == seal_marker().len(),
            marker@ == seal_marker(),
            len == encrypted@.len(),
            n <= len,
            i <= n,
            forall|j: int| 0 <= j < i ==> encrypted@[j] == seal_marker()[j],
        decreases n - i,
    {
        if encrypted.get_char(i) != marker.get_char(i) {
            proof {
                assert(encrypted@.subrange(0, n as int)[i as int] != seal_marker()[i as int]);
            }
            return String::from_str(encrypted);
        }
        i = i + 1;
    }
    assert(encrypted@.subrange(0, n as int) =~= seal_marker());
    String::from_str(encrypted.substring_char(n, len))
}

} // verus!
