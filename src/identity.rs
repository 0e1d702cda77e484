use vstd::prelude::*;

verus! {

/// An opaque, pre-authenticated caller identifier: the significant bytes of a
/// principal.
#[derive(Clone, Debug, PartialEq, Eq)]
pub struct IdentityKey {
    pub bytes: Vec<u8>,
}

impl View for IdentityKey {
    type V = Seq<u8>;

    open spec fn view(&self) -> Seq<u8> {
        self.bytes@
    }
}

/// What the textual form of a principal parses to: its significant bytes, or
/// nothing where the text is not a principal.
pub uninterp spec fn principal_bytes_of_text(text: Seq<char>) -> Option<Seq<u8>>;

/// Relies on `candid::Principal::from_text`, which parses the textual form of a
/// principal and fails on text that is not one, and on `Principal::as_slice`,
/// which gives the parsed principal's significant bytes.
#[verifier::external_body]
pub(crate) fn principal_from_text(text: &str) -> (r: Option<IdentityKey>)
    ensures
        match r {
            Some(k) => principal_bytes_of_text(text@) == Some(k@),
            None => principal_bytes_of_text(text@) is None,
        },
{
    match candid::Principal::from_text(text) {
        Ok(p) => Some(IdentityKey { bytes: p.as_slice().to_vec() }),
        Err(_) => None,
    }
}

impl IdentityKey {
    pub fn from_bytes(bytes: Vec<u8>) -> (r: IdentityKey)
        ensures
            r@ == bytes@,
    {
        IdentityKey { bytes }
    }

    /// Parses the textual form of a principal.
    pub fn from_text(text: &str) -> (r: Option<IdentityKey>)
        ensures
            match r {
                Some(k) => principal_bytes_of_text(text@) == Some(k@),
                None => principal_bytes_of_text(text@) is None,
            },
    {
        principal_from_text(text)
    }

    /// A copy with the same bytes.
    pub fn duplicate(&self) -> (r: IdentityKey)
        ensures
            r@ == self@,
    {
        let mut bytes: Vec<u8> = Vec::new();
        let mut i: usize = 0;
        while i < self.bytes.len()
            invariant
                i <= self.bytes@.len(),
                bytes@ == self.bytes@.subrange(0, i as int),
            decreases self.bytes@.len() - i,
        {
            bytes.push(self.bytes[i]);
            i = i + 1;
        }
        assert(bytes@ == self.bytes@);
        IdentityKey { bytes }
    }

    /// Whether two identifiers are the same.
    pub fn same_as(&self, other: &IdentityKey) -> (r: bool)
        ensures
            r == (self@ == other@),
    {
        if self.bytes.len() != other.bytes.len() {
            return false;
        }
        let mut i: usize = 0;
        while i < self.bytes.len()
            invariant
                i <= self.bytes@.len(),
                self.bytes@.len() == other.bytes@.len(),
                forall|j: int| 0 <= j < i ==> self.bytes@[j] == other.bytes@[j],
            decreases self.bytes@.len() - i,
        {
            if self.bytes[i] != other.bytes[i] {
                return false;
            }
            i = i + 1;
        }
        assert(self.bytes@ =~= other.bytes@);
        true
    }
}

} // verus!
