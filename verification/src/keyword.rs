//! Keyword-valued properties. A keyword is stored as its native number and
//! decoded when it is read back; a number that stands for no keyword is
//! never stored.

use vstd::prelude::*;
use std::marker::PhantomData;

verus! {

/// A property keyword and its native number.
pub trait Keyword: Copy + Sized {
    /// The number that stands for the keyword.
    spec fn code(self) -> u8;

    /// No two keywords share a number.
    proof fn codes_differ(a: Self, b: Self)
        requires
            a.code() == b.code(),
        ensures
            a == b,
    ;

    /// The keyword's number.
    fn encode(self) -> (code: u8)
        ensures
            code == self.code(),
    ;

    /// The keyword that `code` stands for; `None` exactly when it stands for
    /// none.
    fn decode(code: u8) -> (keyword: Option<Self>)
        ensures
            match keyword {
                Some(k) => k.code() == code,
                None => forall|k: Self| k.code() != code,
            },
    ;
}

/// A stored keyword: the native number of some keyword of `K`.
pub struct Encoded<K: Keyword> {
    code: u8,
    keyword: PhantomData<K>,
}

impl<K: Keyword> Clone for Encoded<K> {
    fn clone(&self) -> (copy: Self)
        ensures
            copy == *self,
    {
        *self
    }
}

impl<K: Keyword> Copy for Encoded<K> {
}

impl<K: Keyword> View for Encoded<K> {
    type V = K;

    /// The keyword that is stored.
    closed spec fn view(&self) -> K {
        choose|k: K| k.code() == self.code
    }
}

impl<K: Keyword> Encoded<K> {
    #[verifier::type_invariant]
    spec fn stands_for_a_keyword(self) -> bool {
        exists|k: K| k.code() == self.code
    }

    /// The stored number.
    pub closed spec fn raw(self) -> u8 {
        self.code
    }

    /// Stores `keyword`.
    pub fn new(keyword: K) -> (stored: Self)
        ensures
            stored@ == keyword,
            stored.raw() == keyword.code(),
    {
        let code = keyword.encode();
        let stored = Encoded { code, keyword: PhantomData };
        proof {
            K::codes_differ(stored@, keyword);
        }
        stored
    }

    /// Takes a native number as it is, if it stands for a keyword; `None`
    /// exactly when it stands for none.
    pub fn from_code(code: u8) -> (stored: Option<Self>)
        ensures
            match stored {
                Some(s) => s.raw() == code && s@.code() == code,
                None => forall|k: K| k.code() != code,
            },
    {
        match K::decode(code) {
            Some(k) => {
                let stored = Encoded { code, keyword: PhantomData };
                Some(stored)
            },
            None => None,
        }
    }

    /// The keyword that is stored.
    pub fn get(&self) -> (keyword: K)
        ensures
            keyword == self@,
            keyword.code() == self.raw(),
    {
        proof {
            use_type_invariant(self);
        }
        match K::decode(self.code) {
            Some(k) => {
                proof {
                    K::codes_differ(self@, k);
                }
                k
            },
            None => vstd::pervasive::unreached(),
        }
    }

    /// The native number that is stored.
    pub fn code(&self) -> (code: u8)
        ensures
            code == self.raw(),
            code == self@.code(),
    {
        proof {
            use_type_invariant(self);
        }
        self.code
    }
}

/// Decoding undoes encoding.
pub proof fn decode_inverts_encode<K: Keyword>(keyword: K, stored: Encoded<K>)
    requires
        stored.raw() == keyword.code(),
    ensures
        stored@ == keyword,
{
    K::codes_differ(stored@, keyword);
}

} // verus!
